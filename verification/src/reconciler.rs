//! The reconciliation engine: one pure step function from the machine's
//! state and the last observation to the next state and the next action.
//!
//! The engine decides; it performs no I/O.  The caller performs each
//! returned request — a Kubernetes or PaaS call — and hands the outcome
//! back to `reconcile_step`.  A failure at any point parks the machine in
//! `Failed`; the controller requeues the resource and the next
//! reconciliation converges, because every step is safe to retry: the
//! finalizer add is a set union, the deterministic name lets a lost
//! `status.addon` be recovered by listing, and an empty patch is a no-op.

use vstd::prelude::*;
use vstd::string::StringExecFns;

use crate::addon::{addon_name, spec_addon_name, Addon, CreateAddonOpts, EnvironmentVariable};
use crate::crd::{CustomResource, Instance};
use crate::document::{diff, doc_wf, Document, Patch, Value, ValueView};
use crate::finalizer::{spec_contains, spec_finalizers};
use crate::recorder::Level;
use crate::resource::{spec_name_any, ApiResource, ObjectMeta};
use crate::secret::Secret;
use crate::text::starts_with;

verus! {

/// A custom resource as the engine sees it, whatever its kind.
#[derive(Clone, Debug)]
pub struct Cr {
    pub kind: CustomResource,
    pub meta: ObjectMeta,
    pub organisation: String,
    pub instance: Option<Instance>,
    pub options: Vec<(String, String)>,
    pub variables: Vec<(String, String)>,
    pub status_addon: Option<String>,
    pub status_url: Option<String>,
}

// ---------------------------------------------------------------------------
// Rendering a resource as a flat document

/// Text joined by a separator.
pub open spec fn join_chars(s: Seq<Seq<char>>, sep: Seq<char>) -> Seq<char>
    decreases s.len(),
{
    if s.len() == 0 {
        Seq::empty()
    } else if s.len() == 1 {
        s[0]
    } else {
        s[0] + sep + join_chars(s.drop_first(), sep)
    }
}

proof fn lemma_join_chars_push(s: Seq<Seq<char>>, x: Seq<char>, sep: Seq<char>)
    requires
        s.len() >= 1,
    ensures
        join_chars(s.push(x), sep) == join_chars(s, sep) + sep + x,
    decreases s.len(),
{
    if s.len() == 1 {
        assert(s.push(x).drop_first() =~= seq![x]);
        assert(join_chars(seq![x], sep) == x);
        assert(s.push(x)[0] == s[0]);
        assert(join_chars(s, sep) == s[0]);
        assert(join_chars(s.push(x), sep) =~= join_chars(s, sep) + sep + x);
    } else {
        assert(s.push(x).drop_first() =~= s.drop_first().push(x));
        lemma_join_chars_push(s.drop_first(), x, sep);
        assert(join_chars(s.push(x), sep) =~= join_chars(s, sep) + sep + x);
    }
}

/// Joins a list of strings with a separator.
pub fn join_strings(v: &Vec<String>, sep: &str) -> (r: String)
    ensures
        r@ == join_chars(crate::resource::strs_view(v@), sep@),
{
    let ghost sv = crate::resource::strs_view(v@);
    if v.len() == 0 {
        let r = String::new();
        proof {
            assert(r@ =~= join_chars(sv, sep@));
        }
        return r;
    }
    let mut out = v[0].clone();
    proof {
        assert(sv.take(1) =~= seq![sv[0]]);
        assert(out@ =~= join_chars(sv.take(1), sep@));
    }
    let mut i: usize = 1;
    while i < v.len()
        invariant
            1 <= i,
            i <= v@.len(),
            sv == crate::resource::strs_view(v@),
            out@ == join_chars(sv.take(i as int), sep@),
        decreases v@.len() - i,
    {
        let ghost done = sv.take(i as int);
        out.append(sep);
        out.append(v[i].as_str());
        proof {
            lemma_join_chars_push(done, sv[i as int], sep@);
            assert(sv.take(i + 1) =~= done.push(sv[i as int]));
        }
        i = i + 1;
    }
    proof {
        assert(sv.take(sv.len() as int) =~= sv);
    }
    out
}

/// A document extended by one binding per pair, each path prefixed.
pub open spec fn fold_prefixed(
    d: Seq<(Seq<u8>, ValueView)>,
    prefix: Seq<char>,
    pairs: Seq<(String, String)>,
) -> Seq<(Seq<u8>, ValueView)>
    decreases pairs.len(),
{
    if pairs.len() == 0 {
        d
    } else {
        crate::addon::doc_set(
            fold_prefixed(d, prefix, pairs.drop_last()),
            prefix + pairs.last().0@,
            ValueView::Str(pairs.last().1@),
        )
    }
}

/// The value of an optional piece of text: its content, or null.
pub open spec fn opt_str_value(s: Option<String>) -> ValueView {
    match s {
        Some(x) => ValueView::Str(x@),
        None => ValueView::Null,
    }
}

/// The flat document of a resource: every field the operator reads or
/// patches, under a stable path.
pub open spec fn spec_cr_doc(cr: Cr) -> Seq<(Seq<u8>, ValueView)> {
    let d = Seq::<(Seq<u8>, ValueView)>::empty();
    let d = crate::addon::doc_set(d, "/metadata/name"@, ValueView::Str(spec_name_any(cr.meta)));
    let d = crate::addon::doc_set(d, "/metadata/namespace"@, opt_str_value(cr.meta.namespace));
    let d = crate::addon::doc_set(d, "/metadata/uid"@, opt_str_value(cr.meta.uid));
    let d = crate::addon::doc_set(
        d,
        "/metadata/deletionTimestamp"@,
        match cr.meta.deletion_timestamp {
            Some(t) => ValueView::Int(t),
            None => ValueView::Null,
        },
    );
    let d = crate::addon::doc_set(
        d,
        "/metadata/finalizers"@,
        ValueView::Str(join_chars(spec_finalizers(cr.meta), ","@)),
    );
    let d = crate::addon::doc_set(d, "/spec/organisation"@, ValueView::Str(cr.organisation@));
    let d = match cr.instance {
        Some(inst) => crate::addon::doc_set(
            crate::addon::doc_set(d, "/spec/instance/region"@, ValueView::Str(inst.region@)),
            "/spec/instance/plan"@,
            ValueView::Str(inst.plan@),
        ),
        None => d,
    };
    let d = fold_prefixed(d, "/spec/options/"@, cr.options@);
    let d = fold_prefixed(d, "/spec/variables/"@, cr.variables@);
    let d = crate::addon::doc_set(d, "/status/addon"@, opt_str_value(cr.status_addon));
    let d = crate::addon::doc_set(d, "/status/url"@, opt_str_value(cr.status_url));
    d
}

/// Renders a resource as its flat document.
#[verifier::rlimit(100)]
pub fn to_document(cr: &Cr) -> (d: Document)
    ensures
        d@ == spec_cr_doc(*cr),
        doc_wf(d@),
{
    let mut d = Document::new();
    d.set("/metadata/name", Value::Str(crate::resource::name_any(&cr.meta)));
    d.set(
        "/metadata/namespace",
        match &cr.meta.namespace {
            Some(x) => Value::Str(x.clone()),
            None => Value::Null,
        },
    );
    d.set(
        "/metadata/uid",
        match &cr.meta.uid {
            Some(x) => Value::Str(x.clone()),
            None => Value::Null,
        },
    );
    d.set(
        "/metadata/deletionTimestamp",
        match &cr.meta.deletion_timestamp {
            Some(t) => Value::Int(*t),
            None => Value::Null,
        },
    );
    let fins: &Vec<String> = match &cr.meta.finalizers {
        Some(v) => v,
        None => &Vec::new(),
    };
    proof {
        assert(crate::resource::strs_view(fins@) == spec_finalizers(cr.meta));
    }
    d.set("/metadata/finalizers", Value::Str(join_strings(fins, ",")));
    d.set("/spec/organisation", Value::Str(cr.organisation.clone()));
    match &cr.instance {
        Some(inst) => {
            d.set("/spec/instance/region", Value::Str(inst.region.clone()));
            d.set("/spec/instance/plan", Value::Str(inst.plan.clone()));
        },
        None => {},
    }
    let ghost base = d@;
    let mut i: usize = 0;
    proof {
        assert(cr.options@.take(0) =~= Seq::<(String, String)>::empty());
    }
    while i < cr.options.len()
        invariant
            i <= cr.options@.len(),
            d@ == fold_prefixed(base, "/spec/options/"@, cr.options@.take(i as int)),
            doc_wf(d@),
        decreases cr.options@.len() - i,
    {
        let key = String::from_str("/spec/options/").concat(cr.options[i].0.as_str());
        d.set(key.as_str(), Value::Str(cr.options[i].1.clone()));
        proof {
            assert(cr.options@.take(i + 1).drop_last() =~= cr.options@.take(i as int));
            assert(cr.options@.take(i + 1).last() == cr.options@[i as int]);
        }
        i = i + 1;
    }
    proof {
        assert(cr.options@.take(cr.options@.len() as int) =~= cr.options@);
    }
    let ghost base2 = d@;
    let mut j: usize = 0;
    proof {
        assert(cr.variables@.take(0) =~= Seq::<(String, String)>::empty());
    }
    while j < cr.variables.len()
        invariant
            j <= cr.variables@.len(),
            d@ == fold_prefixed(base2, "/spec/variables/"@, cr.variables@.take(j as int)),
            doc_wf(d@),
        decreases cr.variables@.len() - j,
    {
        let key = String::from_str("/spec/variables/").concat(cr.variables[j].0.as_str());
        d.set(key.as_str(), Value::Str(cr.variables[j].1.clone()));
        proof {
            assert(cr.variables@.take(j + 1).drop_last() =~= cr.variables@.take(j as int));
            assert(cr.variables@.take(j + 1).last() == cr.variables@[j as int]);
        }
        j = j + 1;
    }
    proof {
        assert(cr.variables@.take(cr.variables@.len() as int) =~= cr.variables@);
    }
    d.set(
        "/status/addon",
        match &cr.status_addon {
            Some(x) => Value::Str(x.clone()),
            None => Value::Null,
        },
    );
    d.set(
        "/status/url",
        match &cr.status_url {
            Some(x) => Value::Str(x.clone()),
            None => Value::Null,
        },
    );
    d
}


// ---------------------------------------------------------------------------
// The machine

/// Whether the machine is creating or tearing down.
#[derive(PartialEq, Eq, Clone, Copy, Debug)]
pub enum Mode {
    Upsert,
    Delete,
}

/// Where the machine stands: which outcome it is waiting for.
#[derive(PartialEq, Eq, Clone, Copy, Debug)]
pub enum Step {
    AwaitClient,
    AwaitClientBuild,
    AwaitFinalizerPatch,
    AwaitFinalizerEvent,
    AwaitPlan,
    AwaitPlanPatch,
    AwaitPlanEvent,
    AwaitAddonGet,
    AwaitAddonList,
    AwaitAddonCreate,
    AwaitAddonDelete,
    AwaitStatusPatch,
    AwaitAddonEvent,
    AwaitEnvGet,
    AwaitEnvPut,
    AwaitSecretEnv,
    AwaitSecretUpsert,
    AwaitSecretEvent,
    AwaitUrlPatch,
    AwaitUrlEvent,
    AwaitFinalizerRemoveEvent,
    AwaitFinalizerRemovePatch,
    Done,
    Failed,
}

/// What the caller must do next.
#[derive(Clone, Debug)]
pub enum Request {
    /// Fetch the optional `clever-operator` secret of the namespace.
    GetOverrideSecret { namespace: String },
    /// Build the override PaaS client from the secret's configuration.
    BuildOverrideClient { secret: Secret },
    /// Patch the custom resource (and its status subresource if asked).
    PatchResource { patch: Patch, status: bool },
    /// Record an event under the custom resource.
    RecordEvent { level: Level, action: String, action_lower: String, message: String },
    /// Look a plan up by slug, id or name.
    FindPlan { provider_id: String, organisation: String, pattern: String },
    /// Fetch an add-on by id; a 404 comes back as `Addon(None)`.
    GetAddon { organisation: String, id: String },
    /// List the organisation's add-ons.
    ListAddons { organisation: String },
    /// Create an add-on.
    CreateAddon { organisation: String, opts: CreateAddonOpts },
    /// Delete an add-on by id.
    DeleteAddon { organisation: String, id: String },
    /// Fetch an add-on's environment.
    GetEnvironment { organisation: String, id: String },
    /// Fetch a config provider's environment, under its `realId` alias.
    GetEnvironmentByRealId { real_id: String },
    /// Replace a config provider's environment in full.
    PutEnvironment { real_id: String, variables: Vec<EnvironmentVariable> },
    /// Create or update the projected secret.
    UpsertSecret { secret: Secret },
}

/// What the caller observed.
#[derive(Clone, Debug)]
pub enum Response {
    OverrideSecret(Option<Secret>),
    ClientReady,
    Patched,
    EventRecorded,
    Plan(Option<crate::addon::Plan>),
    Addon(Option<Addon>),
    Addons(Vec<Addon>),
    Created(Addon),
    Deleted,
    Environment(Vec<EnvironmentVariable>),
    EnvironmentPut,
    SecretUpserted,
    /// The request failed; the controller requeues the resource.
    Failure(String),
}

/// One reconciliation in flight.
#[derive(Clone, Debug)]
pub struct Reconciliation {
    pub mode: Mode,
    pub step: Step,
    /// The resource as it was observed, rendered once; patches are
    /// differences against this document.
    pub origin_doc: Document,
    /// The resource as the machine wants it.
    pub cr: Cr,
    /// The add-on created or adopted by this reconciliation.
    pub addon: Option<Addon>,
    /// Set once the plan has been resolved and patched: the patch itself
    /// triggers the next reconciliation, so the machine stops there.
    pub plan_patched: bool,
    /// The value the projected secret holds under `CC_OTOROSHI_URL`.
    pub pending_url: Option<String>,
}

/// The machine has fetched or created an add-on and written its id into
/// the resource's status.
pub open spec fn addon_recorded(s: Reconciliation) -> bool {
    match s.addon {
        Some(a) => match s.cr.status_addon {
            Some(id) => id@ == a.id@,
            None => false,
        },
        None => false,
    }
}

/// Steps an upsert reaches only with the finalizer in place.
pub open spec fn past_finalizer(s: Step) -> bool {
    match s {
        Step::AwaitFinalizerPatch | Step::AwaitFinalizerEvent | Step::AwaitPlan | Step::AwaitPlanPatch | Step::AwaitPlanEvent | Step::AwaitAddonGet
            | Step::AwaitAddonList | Step::AwaitAddonCreate | Step::AwaitStatusPatch
            | Step::AwaitAddonEvent | Step::AwaitEnvGet | Step::AwaitEnvPut
            | Step::AwaitSecretEnv | Step::AwaitSecretUpsert | Step::AwaitSecretEvent
            | Step::AwaitUrlPatch | Step::AwaitUrlEvent | Step::Done => true,
        _ => false,
    }
}

/// Steps an upsert reaches only with the add-on id recorded.
pub open spec fn addon_phase(s: Step) -> bool {
    match s {
        Step::AwaitStatusPatch | Step::AwaitAddonEvent | Step::AwaitEnvGet | Step::AwaitEnvPut
            | Step::AwaitSecretEnv | Step::AwaitSecretUpsert | Step::AwaitSecretEvent
            | Step::AwaitUrlPatch | Step::AwaitUrlEvent => true,
        _ => false,
    }
}

/// What holds of every reachable machine state.
pub open spec fn inv(s: Reconciliation) -> bool {
    &&& s.cr.meta.namespace is Some
    &&& s.cr.meta.uid is Some
    &&& doc_wf(s.origin_doc@)
    &&& (s.mode is Upsert && past_finalizer(s.step) ==> spec_contains(
        spec_finalizers(s.cr.meta),
        crate::crd::finalizer_chars(s.cr.kind),
    ))
    &&& (s.mode is Upsert && addon_phase(s.step) ==> addon_recorded(s))
    &&& (s.mode is Upsert && s.step is Done && !s.plan_patched ==> addon_recorded(s))
    &&& (s.mode is Upsert && (s.step is AwaitPlanPatch || s.step is AwaitPlanEvent)
        ==> s.plan_patched)
    &&& (s.step is AwaitAddonDelete || s.step is AwaitFinalizerRemoveEvent
        || s.step is AwaitFinalizerRemovePatch ==> s.mode is Delete)
}

/// After a completed upsert reconciliation that did not stop at the plan
/// patch, the resource's status names the add-on that was fetched,
/// adopted or created.
pub proof fn lemma_done_upsert_has_addon(s: Reconciliation)
    requires
        inv(s),
        s.mode is Upsert,
        s.step is Done,
        !s.plan_patched,
    ensures
        s.cr.status_addon is Some,
        addon_recorded(s),
{
}

/// The provider identifier of a kind.
pub open spec fn provider_chars(k: CustomResource) -> Seq<char> {
    match k {
        CustomResource::PostgreSql => "postgresql-addon"@,
        CustomResource::MySql => "mysql-addon"@,
        CustomResource::MongoDb => "mongodb-addon"@,
        CustomResource::Redis => "redis-addon"@,
        CustomResource::ConfigProvider => "config-provider"@,
        CustomResource::KV => "kv"@,
        CustomResource::Otoroshi => "otoroshi"@,
    }
}

/// The provider of a kind.
pub fn provider_of(kind: &CustomResource) -> (r: crate::provider::AddonProviderId)
    ensures
        kind is PostgreSql ==> r is PostgreSql,
        kind is MySql ==> r is MySql,
        kind is MongoDb ==> r is MongoDb,
        kind is Redis ==> r is Redis,
        kind is ConfigProvider ==> r is ConfigProvider,
        kind is KV ==> r is KV,
        kind is Otoroshi ==> r is Otoroshi,
{
    match kind {
        CustomResource::PostgreSql => crate::provider::AddonProviderId::PostgreSql,
        CustomResource::MySql => crate::provider::AddonProviderId::MySql,
        CustomResource::MongoDb => crate::provider::AddonProviderId::MongoDb,
        CustomResource::Redis => crate::provider::AddonProviderId::Redis,
        CustomResource::ConfigProvider => crate::provider::AddonProviderId::ConfigProvider,
        CustomResource::KV => crate::provider::AddonProviderId::KV,
        CustomResource::Otoroshi => crate::provider::AddonProviderId::Otoroshi,
    }
}



// ---------------------------------------------------------------------------
// What each observation must lead to

/// The non-status content of two resources agrees.
pub open spec fn same_spec(a: Cr, b: Cr) -> bool {
    &&& a.kind == b.kind
    &&& a.meta == b.meta
    &&& a.organisation == b.organisation
    &&& a.instance == b.instance
    &&& a.options == b.options
    &&& a.variables == b.variables
}

/// The metadata of two resources agrees apart from the finalizer list.
pub open spec fn meta_same_but_finalizers(
    a: crate::resource::ObjectMeta,
    b: crate::resource::ObjectMeta,
) -> bool {
    &&& a.namespace == b.namespace
    &&& a.name == b.name
    &&& a.uid == b.uid
    &&& a.deletion_timestamp == b.deletion_timestamp
    &&& a.owner_references == b.owner_references
    &&& a.resource_version == b.resource_version
}

/// The machine parked in `Failed`, leaving the resource as it was.
pub open spec fn failed_post(s: Reconciliation, r0: Reconciliation, req: Option<Request>) -> bool {
    &&& r0.step is Failed
    &&& req is None
    &&& r0.cr == s.cr
}

/// The machine is finished, leaving the resource as it stands.
pub open spec fn done_post(s: Reconciliation, r0: Reconciliation, req: Option<Request>) -> bool {
    &&& r0.step is Done
    &&& req is None
    &&& r0.cr == s.cr
}

/// The request records a `Normal` event under the given action.
pub open spec fn event_req(req: Option<Request>, action: Seq<char>) -> bool {
    match req {
        Some(q) => match q {
            Request::RecordEvent { level, action: a, action_lower, message } => level is Normal
                && a@ == action,
            _ => false,
        },
        None => false,
    }
}

/// The request patches the resource: the difference between the document
/// observed at the start and the desired resource's document.
pub open spec fn patch_req(
    req: Option<Request>,
    origin: Seq<(Seq<u8>, ValueView)>,
    cr: Cr,
    status: bool,
) -> bool {
    match req {
        Some(q) => match q {
            Request::PatchResource { patch, status: st } => st == status && patch@
                == crate::document::spec_diff(origin, spec_cr_doc(cr)),
            _ => false,
        },
        None => false,
    }
}

/// The machine heads for the add-on: a fetch by the recorded id, or a
/// listing of the organisation when no id is recorded.
pub open spec fn fetch_post(s: Reconciliation, r0: Reconciliation, req: Option<Request>) -> bool {
    &&& r0.cr == s.cr
    &&& (match s.cr.status_addon {
        Some(id) => r0.step is AwaitAddonGet && (match req {
            Some(q) => match q {
                Request::GetAddon { organisation, id: rid } => organisation@
                    == s.cr.organisation@ && rid@ == id@,
                _ => false,
            },
            None => false,
        }),
        None => r0.step is AwaitAddonList && (match req {
            Some(q) => match q {
                Request::ListAddons { organisation } => organisation@ == s.cr.organisation@,
                _ => false,
            },
            None => false,
        }),
    })
}

/// An add-on has been recorded: it sits in the machine's state, its id in
/// the resource's status, and the patch request carries both subresources.
pub open spec fn adopted_post(s: Reconciliation, r0: Reconciliation, req: Option<Request>) -> bool {
    &&& r0.step is AwaitStatusPatch
    &&& (match r0.addon {
        Some(a) => (match r0.cr.status_addon {
            Some(id) => id@ == a.id@,
            None => false,
        }),
        None => false,
    })
    &&& same_spec(r0.cr, s.cr)
    &&& r0.cr.status_url == s.cr.status_url
    &&& patch_req(req, s.origin_doc@, r0.cr, true)
}

/// During deletion the status is cleared and patched.
pub open spec fn cleared_post(s: Reconciliation, r0: Reconciliation, req: Option<Request>) -> bool {
    &&& r0.step is AwaitStatusPatch
    &&& r0.cr.status_addon is None
    &&& r0.cr.status_url is None
    &&& same_spec(r0.cr, s.cr)
    &&& patch_req(req, s.origin_doc@, r0.cr, true)
}


/// The creation options derived from a resource: the deterministic name,
/// the instance's region and plan — a config provider is fixed to `par`
/// and its one plan — the kind's provider, and the options pair for pair.
pub open spec fn creation_opts_for(cr: Cr, opts: CreateAddonOpts) -> bool {
    &&& opts.name@ == spec_addon_name(crate::crd::kind_chars(cr.kind), cr.meta.uid->0@)
    &&& (match cr.instance {
        Some(inst) => opts.region@ == inst.region@ && opts.plan@ == inst.plan@,
        None => opts.region@ == "par"@ && opts.plan@ == "plan_config_provider"@,
    })
    &&& opts.provider_id@ == provider_chars(cr.kind)
    &&& opts.options@.len() == cr.options@.len()
    &&& (forall|i: int| 0 <= i < opts.options@.len() ==> #[trigger] opts.options@[i].0@
        == cr.options@[i].0@ && opts.options@[i].1@ == cr.options@[i].1@)
}

/// `a` is the first add-on of the list carrying the name `n`.
pub open spec fn is_first_named(list: Seq<Addon>, n: Seq<char>, a: Addon) -> bool {
    exists|i: int|
        0 <= i < list.len() && list[i] == a && crate::addon::addon_named(#[trigger] list[i], n)
            && (forall|j: int| 0 <= j < i ==> !crate::addon::addon_named(list[j], n))
}

/// After the override-secret answer: an upsert sets the finalizer and
/// patches; a deletion heads for the add-on.
pub open spec fn after_client_post(
    s: Reconciliation,
    r0: Reconciliation,
    req: Option<Request>,
) -> bool {
    match s.mode {
        Mode::Upsert => {
            let fin = crate::crd::finalizer_chars(s.cr.kind);
            &&& r0.step is AwaitFinalizerPatch
            &&& spec_contains(spec_finalizers(r0.cr.meta), fin)
            &&& spec_finalizers(r0.cr.meta) == (if spec_contains(
                spec_finalizers(s.cr.meta),
                fin,
            ) {
                spec_finalizers(s.cr.meta)
            } else {
                spec_finalizers(s.cr.meta).push(fin)
            })
            &&& meta_same_but_finalizers(r0.cr.meta, s.cr.meta)
            &&& r0.cr.kind == s.cr.kind
            &&& r0.cr.organisation == s.cr.organisation
            &&& r0.cr.instance == s.cr.instance
            &&& r0.cr.options == s.cr.options
            &&& r0.cr.variables == s.cr.variables
            &&& r0.cr.status_addon == s.cr.status_addon
            &&& r0.cr.status_url == s.cr.status_url
            &&& patch_req(req, s.origin_doc@, r0.cr, false)
        },
        Mode::Delete => fetch_post(s, r0, req),
    }
}

/// After the finalizer event: resolve the plan when it is no opaque
/// identifier yet, else head for the add-on.
pub open spec fn plan_or_fetch_post(
    s: Reconciliation,
    r0: Reconciliation,
    req: Option<Request>,
) -> bool {
    match s.cr.instance {
        Some(inst) => if !crate::text::spec_starts_with(
            crate::oauth::bytes_of(inst.plan@),
            crate::oauth::bytes_of("plan_"@),
        ) {
            &&& r0.step is AwaitPlan
            &&& r0.cr == s.cr
            &&& (match req {
                Some(q) => match q {
                    Request::FindPlan { provider_id, organisation, pattern } => provider_id@
                        == provider_chars(s.cr.kind) && organisation@ == s.cr.organisation@
                        && pattern@ == inst.plan@,
                    _ => false,
                },
                None => false,
            })
        } else {
            fetch_post(s, r0, req)
        },
        None => fetch_post(s, r0, req),
    }
}

/// The projected secret of a resource: named `<name>-secrets` in its
/// namespace, owned by it alone.
pub open spec fn secret_for(
    meta: crate::resource::ObjectMeta,
    kind: CustomResource,
    secret: Secret,
) -> bool {
    &&& (secret.metadata.name matches Some(n) && n@ == spec_name_any(meta) + "-secrets"@)
    &&& secret.metadata.namespace == meta.namespace
    &&& secret.metadata.owner_references@.len() == 1
    &&& secret.metadata.owner_references@[0].uid@ == meta.uid->0@
    &&& secret.metadata.owner_references@[0].name@ == spec_name_any(meta)
    &&& secret.metadata.owner_references@[0].kind@ == crate::crd::kind_chars(kind)
    &&& secret.metadata.owner_references@[0].block_owner_deletion
}

/// The config provider's secret mirrors its variables, pair for pair.
pub open spec fn vars_secret_post(
    s: Reconciliation,
    r0: Reconciliation,
    req: Option<Request>,
) -> bool {
    &&& r0.step is AwaitSecretUpsert
    &&& r0.cr == s.cr
    &&& (match req {
        Some(q) => match q {
            Request::UpsertSecret { secret } => {
                &&& secret_for(s.cr.meta, s.cr.kind, secret)
                &&& secret.string_data@.len() == s.cr.variables@.len()
                &&& (forall|i: int| 0 <= i < secret.string_data@.len()
                    ==> (#[trigger] secret.string_data@[i]).0@ == s.cr.variables@[i].0@
                    && secret.string_data@[i].1@ == s.cr.variables@[i].1@)
            },
            _ => false,
        },
        None => false,
    })
}


/// The value stored in the projected secret under `CC_OTOROSHI_URL`, when
/// it is there and not empty.
pub open spec fn url_captured(p: Option<String>, doc: Seq<(Seq<u8>, ValueView)>) -> bool {
    let fields = crate::document::str_fields(doc);
    let key = crate::oauth::bytes_of("CC_OTOROSHI_URL"@);
    match p {
        Some(u) => u@.len() > 0 && (exists|i: int|
            0 <= i < fields.len() && #[trigger] fields[i] == (key, u@)),
        None => forall|i: int|
            0 <= i < fields.len() && (#[trigger] fields[i]).0 == key ==> fields[i].1.len() == 0,
    }
}

/// The secret projected from an add-on's environment: the environment
/// folded into a map, later entries overwriting earlier ones.
pub open spec fn env_secret_post(
    s: Reconciliation,
    env: Seq<EnvironmentVariable>,
    r0: Reconciliation,
    req: Option<Request>,
) -> bool {
    &&& r0.step is AwaitSecretUpsert
    &&& r0.cr == s.cr
    &&& (match req {
        Some(q) => match q {
            Request::UpsertSecret { secret } => {
                &&& secret_for(s.cr.meta, s.cr.kind, secret)
                &&& crate::document::pairs_text_view(secret.string_data@)
                    == crate::document::str_fields(crate::addon::spec_env_fold(env))
            },
            _ => false,
        },
        None => false,
    })
    &&& (s.cr.kind is Otoroshi ==> url_captured(
        r0.pending_url,
        crate::addon::spec_env_fold(env),
    ))
    &&& (!(s.cr.kind is Otoroshi) ==> r0.pending_url == s.pending_url)
}

/// After the secret event, an Otoroshi resource mirrors the captured URL
/// into its status exactly on change; other kinds are done.
pub open spec fn url_step_post(s: Reconciliation, r0: Reconciliation, req: Option<Request>) -> bool {
    match s.pending_url {
        Some(u) => if (match s.cr.status_url {
            Some(v) => v@ == u@,
            None => false,
        }) {
            done_post(s, r0, req)
        } else {
            &&& r0.step is AwaitUrlPatch
            &&& (match r0.cr.status_url {
                Some(w) => w@ == u@,
                None => false,
            })
            &&& same_spec(r0.cr, s.cr)
            &&& r0.cr.status_addon == s.cr.status_addon
            &&& patch_req(req, s.origin_doc@, r0.cr, true)
        },
        None => done_post(s, r0, req),
    }
}

/// What one step of the machine guarantees, observation by observation:
/// for each awaited outcome, the next state and the next request, exactly;
/// an observation that does not fit parks the machine in `Failed`.
pub open spec fn spec_step(
    s: Reconciliation,
    resp: Response,
    r0: Reconciliation,
    req: Option<Request>,
) -> bool {
    match s.step {
        Step::AwaitClient => match resp {
            Response::OverrideSecret(o) => match o {
                Some(sec) => r0.step is AwaitClientBuild && r0.cr == s.cr && (match req {
                    Some(q) => match q {
                        Request::BuildOverrideClient { secret } => secret == sec,
                        _ => false,
                    },
                    None => false,
                }),
                None => after_client_post(s, r0, req),
            },
            _ => failed_post(s, r0, req),
        },
        Step::AwaitClientBuild => match resp {
            Response::ClientReady => after_client_post(s, r0, req),
            _ => failed_post(s, r0, req),
        },
        Step::AwaitFinalizerPatch => match resp {
            Response::Patched => r0.cr == s.cr && r0.step is AwaitFinalizerEvent && event_req(
                req,
                "UpsertFinalizer"@,
            ),
            _ => failed_post(s, r0, req),
        },
        Step::AwaitFinalizerEvent => match resp {
            Response::EventRecorded => plan_or_fetch_post(s, r0, req),
            _ => failed_post(s, r0, req),
        },
        Step::AwaitPlan => match resp {
            Response::Plan(p) => match p {
                Some(plan) => match s.cr.instance {
                    Some(inst) => {
                        &&& r0.step is AwaitPlanPatch
                        &&& r0.plan_patched
                        &&& (match r0.cr.instance {
                            Some(ni) => ni.plan@ == plan.id@ && ni.region@ == inst.region@,
                            None => false,
                        })
                        &&& r0.cr.kind == s.cr.kind
                        &&& r0.cr.meta == s.cr.meta
                        &&& r0.cr.organisation == s.cr.organisation
                        &&& r0.cr.options == s.cr.options
                        &&& r0.cr.variables == s.cr.variables
                        &&& r0.cr.status_addon == s.cr.status_addon
                        &&& r0.cr.status_url == s.cr.status_url
                        &&& patch_req(req, s.origin_doc@, r0.cr, false)
                    },
                    None => failed_post(s, r0, req),
                },
                None => fetch_post(s, r0, req),
            },
            _ => failed_post(s, r0, req),
        },
        Step::AwaitPlanPatch => match resp {
            Response::Patched => r0.cr == s.cr && r0.step is AwaitPlanEvent && event_req(
                req,
                "OverridesInstancePlan"@,
            ),
            _ => failed_post(s, r0, req),
        },
        Step::AwaitPlanEvent => match resp {
            Response::EventRecorded => done_post(s, r0, req),
            _ => failed_post(s, r0, req),
        },
        Step::AwaitAddonGet => match resp {
            Response::Addon(o) => match o {
                Some(a) => match s.mode {
                    Mode::Upsert => adopted_post(s, r0, req) && r0.addon == Some(a),
                    Mode::Delete => r0.addon == Some(a) && r0.step is AwaitAddonDelete
                        && r0.cr == s.cr && (match req {
                        Some(q) => match q {
                            Request::DeleteAddon { organisation, id } => organisation@
                                == s.cr.organisation@ && id@ == a.id@,
                            _ => false,
                        },
                        None => false,
                    }),
                },
                None => r0.step is AwaitAddonList && r0.cr == s.cr && (match req {
                    Some(q) => match q {
                        Request::ListAddons { organisation } => organisation@
                            == s.cr.organisation@,
                        _ => false,
                    },
                    None => false,
                }),
            },
            _ => failed_post(s, r0, req),
        },
        Step::AwaitAddonList => match resp {
            Response::Addons(list) => {
                let wanted = spec_addon_name(
                    crate::crd::kind_chars(s.cr.kind),
                    s.cr.meta.uid->0@,
                );
                if exists|i: int|
                    0 <= i < list@.len() && crate::addon::addon_named(#[trigger] list@[i], wanted) {
                    match s.mode {
                        Mode::Upsert => adopted_post(s, r0, req) && (match r0.addon {
                            Some(a) => is_first_named(list@, wanted, a),
                            None => false,
                        }),
                        Mode::Delete => r0.step is AwaitAddonDelete && r0.cr == s.cr && (match r0.addon {
                            Some(a) => is_first_named(list@, wanted, a) && (match req {
                                Some(q) => match q {
                                    Request::DeleteAddon { organisation, id } => organisation@
                                        == s.cr.organisation@ && id@ == a.id@,
                                    _ => false,
                                },
                                None => false,
                            }),
                            None => false,
                        }),
                    }
                } else {
                    match s.mode {
                        Mode::Upsert => r0.step is AwaitAddonCreate && r0.cr == s.cr && (match req {
                            Some(q) => match q {
                                Request::CreateAddon { organisation, opts } => organisation@
                                    == s.cr.organisation@ && opts.name@ == wanted
                                    && creation_opts_for(s.cr, opts),
                                _ => false,
                            },
                            None => false,
                        }),
                        Mode::Delete => cleared_post(s, r0, req),
                    }
                }
            },
            _ => failed_post(s, r0, req),
        },
        Step::AwaitAddonCreate => match resp {
            Response::Created(a) => match s.mode {
                Mode::Upsert => adopted_post(s, r0, req) && r0.addon == Some(a),
                Mode::Delete => failed_post(s, r0, req),
            },
            _ => failed_post(s, r0, req),
        },
        Step::AwaitAddonDelete => match resp {
            Response::Deleted => match s.mode {
                Mode::Delete => cleared_post(s, r0, req),
                Mode::Upsert => failed_post(s, r0, req),
            },
            _ => failed_post(s, r0, req),
        },
        Step::AwaitStatusPatch => match resp {
            Response::Patched => r0.cr == s.cr && r0.step is AwaitAddonEvent && (match s.mode {
                Mode::Upsert => event_req(req, "UpsertAddon"@),
                Mode::Delete => event_req(req, "DeleteAddon"@),
            }),
            _ => failed_post(s, r0, req),
        },
        Step::AwaitAddonEvent => match resp {
            Response::EventRecorded => match s.mode {
                Mode::Upsert => match s.addon {
                    Some(a) => match s.cr.kind {
                        CustomResource::ConfigProvider => r0.step is AwaitEnvGet && r0.cr
                            == s.cr && (match req {
                            Some(q) => match q {
                                Request::GetEnvironmentByRealId { real_id } => real_id@
                                    == a.real_id@,
                                _ => false,
                            },
                            None => false,
                        }),
                        _ => r0.step is AwaitSecretEnv && r0.cr == s.cr && (match req {
                            Some(q) => match q {
                                Request::GetEnvironment { organisation, id } => organisation@
                                    == s.cr.organisation@ && id@ == a.id@,
                                _ => false,
                            },
                            None => false,
                        }),
                    },
                    None => failed_post(s, r0, req),
                },
                Mode::Delete => {
                    let fin = crate::crd::finalizer_chars(s.cr.kind);
                    &&& r0.step is AwaitFinalizerRemoveEvent
                    &&& spec_finalizers(r0.cr.meta) == crate::finalizer::remove_str(
                        spec_finalizers(s.cr.meta),
                        fin,
                    )
                    &&& !spec_contains(spec_finalizers(r0.cr.meta), fin)
                    &&& meta_same_but_finalizers(r0.cr.meta, s.cr.meta)
                    &&& r0.cr.kind == s.cr.kind
                    &&& r0.cr.organisation == s.cr.organisation
                    &&& r0.cr.instance == s.cr.instance
                    &&& r0.cr.options == s.cr.options
                    &&& r0.cr.variables == s.cr.variables
                    &&& r0.cr.status_addon == s.cr.status_addon
                    &&& r0.cr.status_url == s.cr.status_url
                    &&& event_req(req, "DeleteFinalizer"@)
                },
            },
            _ => failed_post(s, r0, req),
        },
        Step::AwaitEnvGet => match resp {
            Response::Environment(env) => match s.mode {
                Mode::Upsert => {
                    let remote = crate::addon::spec_env_fold(env@);
                    let wanted = crate::addon::spec_env_fold(
                        crate::addon::pairs_as_env(s.cr.variables@),
                    );
                    if remote != wanted {
                        match s.addon {
                            Some(a) => r0.step is AwaitEnvPut && r0.cr == s.cr && (match req {
                                Some(q) => match q {
                                    Request::PutEnvironment { real_id, variables } => {
                                        &&& real_id@ == a.real_id@
                                        &&& variables@.len() == s.cr.variables@.len()
                                        &&& (forall|i: int| 0 <= i < variables@.len()
                                            ==> (#[trigger] variables@[i]).name
                                            == s.cr.variables@[i].0 && variables@[i].value
                                            == s.cr.variables@[i].1)
                                    },
                                    _ => false,
                                },
                                None => false,
                            }),
                            None => failed_post(s, r0, req),
                        }
                    } else {
                        vars_secret_post(s, r0, req)
                    }
                },
                Mode::Delete => failed_post(s, r0, req),
            },
            _ => failed_post(s, r0, req),
        },
        Step::AwaitEnvPut => match resp {
            Response::EnvironmentPut => match s.mode {
                Mode::Upsert => vars_secret_post(s, r0, req),
                Mode::Delete => failed_post(s, r0, req),
            },
            _ => failed_post(s, r0, req),
        },
        Step::AwaitSecretEnv => match resp {
            Response::Environment(env) => env_secret_post(s, env@, r0, req),
            _ => failed_post(s, r0, req),
        },
        Step::AwaitSecretUpsert => match resp {
            Response::SecretUpserted => r0.cr == s.cr && r0.step is AwaitSecretEvent
                && r0.pending_url == s.pending_url && event_req(req, "UpsertSecret"@),
            _ => failed_post(s, r0, req),
        },
        Step::AwaitSecretEvent => match resp {
            Response::EventRecorded => match s.cr.kind {
                CustomResource::Otoroshi => url_step_post(s, r0, req),
                _ => done_post(s, r0, req),
            },
            _ => failed_post(s, r0, req),
        },
        Step::AwaitUrlPatch => match resp {
            Response::Patched => r0.cr == s.cr && r0.step is AwaitUrlEvent && event_req(
                req,
                "UpdateUrl"@,
            ),
            _ => failed_post(s, r0, req),
        },
        Step::AwaitUrlEvent => match resp {
            Response::EventRecorded => done_post(s, r0, req),
            _ => failed_post(s, r0, req),
        },
        Step::AwaitFinalizerRemoveEvent => match resp {
            Response::EventRecorded => r0.cr == s.cr && r0.step is AwaitFinalizerRemovePatch
                && patch_req(req, s.origin_doc@, s.cr, false),
            _ => failed_post(s, r0, req),
        },
        Step::AwaitFinalizerRemovePatch => match resp {
            Response::Patched => done_post(s, r0, req),
            _ => failed_post(s, r0, req),
        },
        Step::Done => match resp {
            Response::Failure(m) => failed_post(s, r0, req),
            _ => r0 == s && req is None,
        },
        Step::Failed => match resp {
            Response::Failure(m) => failed_post(s, r0, req),
            _ => r0 == s && req is None,
        },
    }
}

// ---------------------------------------------------------------------------
// Building requests

/// The API group and kind of a custom resource.
pub fn api_resource_of(kind: &CustomResource) -> (r: ApiResource)
    ensures
        r.kind@ == crate::crd::kind_chars(*kind),
        r.api_version@ == "api.clever-cloud.com/v1"@,
{
    ApiResource {
        api_version: String::from_str("api.clever-cloud.com/v1"),
        kind: kind.kind().to_owned(),
    }
}

/// A request to record a `Normal` event.
fn event_request(action: &str, action_lower: &str, message: String) -> (r: Request)
    ensures
        (r matches Request::RecordEvent { level, action: a, action_lower: al, message: m } ==> {
            &&& level is Normal
            &&& a@ == action@
            &&& al@ == action_lower@
        }),
        r is RecordEvent,
{
    Request::RecordEvent {
        level: Level::Normal,
        action: action.to_owned(),
        action_lower: action_lower.to_owned(),
        message,
    }
}

/// A request to patch the resource to its desired shape: the difference
/// between the document observed at the start and the desired one.
fn patch_request(origin: &Document, cr: &Cr, status: bool) -> (r: Request)
    ensures
        (r matches Request::PatchResource { patch, status: st } ==> st == status && patch@
            == crate::document::spec_diff(origin@, spec_cr_doc(*cr))),
        r is PatchResource,
{
    let desired = to_document(cr);
    Request::PatchResource { patch: diff(origin, &desired), status }
}

/// What it takes to create the add-on for a resource: the deterministic
/// name, the instance's region and plan — a config provider is fixed to
/// the `par` region and its one plan — and the rendered options.
pub fn create_opts(cr: &Cr) -> (r: CreateAddonOpts)
    requires
        cr.meta.uid is Some,
    ensures
        creation_opts_for(*cr, r),
{
    let uid = match &cr.meta.uid {
        Some(u) => u.clone(),
        None => String::new(),
    };
    let name = addon_name(cr.kind.kind(), uid.as_str());
    let provider_id = provider_of(&cr.kind).as_str().to_owned();
    let options = crate::addon::dup_pairs(&cr.options);
    let ghost ov = options@;
    proof {
        assert forall|i: int| 0 <= i < ov.len() implies (#[trigger] ov[i]).0@
            == cr.options@[i].0@ && ov[i].1@ == cr.options@[i].1@ by {
            assert(options@[i].0@ == cr.options@[i].0@ && options@[i].1@ == cr.options@[i].1@);
        }
    }
    let out = match &cr.instance {
        Some(inst) => CreateAddonOpts {
            name,
            region: inst.region.clone(),
            provider_id,
            plan: inst.plan.clone(),
            options,
        },
        None => CreateAddonOpts {
            name,
            region: String::from_str("par"),
            provider_id,
            // the config provider's one plan; the identifier below stands
            // for the fixed plan the PaaS assigns to this provider
            plan: String::from_str("plan_config_provider"),
            options,
        },
    };
    proof {
        assert(out.options@ == ov);
        assert forall|i: int| 0 <= i < out.options@.len() implies #[trigger] out.options@[i].0@
            == cr.options@[i].0@ && out.options@[i].1@ == cr.options@[i].1@ by {
            assert((ov[i]).0@ == cr.options@[i].0@ && (ov[i]).1@ == cr.options@[i].1@);
        }
    }
    out
}

// ---------------------------------------------------------------------------
// Starting and stepping

/// Starts one reconciliation for an observed resource: the machine first
/// asks for the namespace's optional override secret.  The mode follows
/// the deletion timestamp.
pub fn reconcile_start(cr: Cr) -> (r: (Reconciliation, Request))
    requires
        cr.meta.namespace is Some,
        cr.meta.uid is Some,
    ensures
        inv(r.0),
        r.0.step is AwaitClient,
        (r.0.mode is Delete <==> cr.meta.deletion_timestamp is Some),
        r.0.cr == cr,
        (r.1 matches Request::GetOverrideSecret { namespace } && namespace@
            == cr.meta.namespace->0@),
{
    let origin_doc = to_document(&cr);
    let ns = match &cr.meta.namespace {
        Some(n) => n.clone(),
        None => String::new(),
    };
    let mode = if crate::resource::deleted(&cr.meta) {
        Mode::Delete
    } else {
        Mode::Upsert
    };
    (
        Reconciliation {
            mode,
            step: Step::AwaitClient,
            origin_doc,
            cr,
            addon: None,
            plan_patched: false,
            pending_url: None,
        },
        Request::GetOverrideSecret { namespace: ns },
    )
}

/// Heads for the add-on: fetch it by its recorded id, or list the
/// organisation's add-ons when no id is recorded, so that a lost id can
/// be recovered by the deterministic name.
fn goto_addon_fetch(state: Reconciliation) -> (r: (Reconciliation, Option<Request>))
    requires
        inv(state),
        state.mode is Upsert ==> spec_contains(
            spec_finalizers(state.cr.meta),
            crate::crd::finalizer_chars(state.cr.kind),
        ),
    ensures
        inv(r.0),
        r.0.mode == state.mode,
        r.0.addon == state.addon,
        fetch_post(state, r.0, r.1),
{
    let mut state = state;
    match &state.cr.status_addon {
        Some(id) => {
            let req = Request::GetAddon {
                organisation: state.cr.organisation.clone(),
                id: id.clone(),
            };
            state.step = Step::AwaitAddonGet;
            (state, Some(req))
        },
        None => {
            let req = Request::ListAddons { organisation: state.cr.organisation.clone() };
            state.step = Step::AwaitAddonList;
            (state, Some(req))
        },
    }
}

/// Records the fetched, adopted or created add-on: its id goes into the
/// resource's status, which is then patched.
fn adopt(state: Reconciliation, a: Addon) -> (r: (Reconciliation, Option<Request>))
    requires
        inv(state),
        state.mode is Upsert,
        spec_contains(spec_finalizers(state.cr.meta), crate::crd::finalizer_chars(state.cr.kind)),
    ensures
        inv(r.0),
        r.0.mode == state.mode,
        addon_recorded(r.0),
        adopted_post(state, r.0, r.1),
        r.0.addon == Some(a),
{
    let mut state = state;
    state.cr.status_addon = Some(a.id.clone());
    state.addon = Some(a);
    state.step = Step::AwaitStatusPatch;
    let req = patch_request(&state.origin_doc, &state.cr, true);
    (state, Some(req))
}

/// Clears the add-on from the resource's status during deletion.
fn clear_status(state: Reconciliation) -> (r: (Reconciliation, Option<Request>))
    requires
        inv(state),
        state.mode is Delete,
    ensures
        inv(r.0),
        r.0.mode == state.mode,
        r.0.addon == state.addon,
        cleared_post(state, r.0, r.1),
{
    let mut state = state;
    state.cr.status_addon = None;
    state.cr.status_url = None;
    state.step = Step::AwaitStatusPatch;
    let req = patch_request(&state.origin_doc, &state.cr, true);
    (state, Some(req))
}



proof fn lemma_url_unique(
    dv: Seq<(Seq<u8>, ValueView)>,
    pv: Seq<(Seq<u8>, Seq<char>)>,
    key: Seq<u8>,
    uv: Seq<char>,
)
    requires
        doc_wf(dv),
        pv == crate::document::str_fields(dv),
        exists|i: int| 0 <= i < pv.len() && #[trigger] pv[i] == (key, uv),
        uv.len() == 0,
    ensures
        forall|j: int| 0 <= j < pv.len() && (#[trigger] pv[j]).0 == key ==> pv[j].1.len() == 0,
{
    crate::document::lemma_str_fields_keys(dv);
    let i0 = choose|i: int| 0 <= i < pv.len() && #[trigger] pv[i] == (key, uv);
    assert forall|j: int| 0 <= j < pv.len() && (#[trigger] pv[j]).0 == key implies pv[j].1.len()
        == 0 by {
        let m1 = choose|m: int|
            0 <= m < dv.len() && dv[m].0 == pv[j].0 && dv[m].1 == ValueView::Str(pv[j].1);
        let m2 = choose|m: int|
            0 <= m < dv.len() && dv[m].0 == pv[i0].0 && dv[m].1 == ValueView::Str(pv[i0].1);
        if m1 != m2 {
            crate::document::lemma_lex_lt_irrefl(key);
        }
        assert(ValueView::Str(pv[j].1) == ValueView::Str(pv[i0].1));
    }
}

/// One step of the reconciliation: consumes the last observation and
/// decides the next request.  A `Failure` observation, or one that does
/// not fit the awaited step, parks the machine in `Failed`; the
/// controller then requeues the resource.
#[verifier::rlimit(100)]
pub fn reconcile_step(state: Reconciliation, resp: Response) -> (r: (
    Reconciliation,
    Option<Request>,
))
    requires
        inv(state),
    ensures
        inv(r.0),
        r.0.mode == state.mode,
        r.0.cr.kind == state.cr.kind,
        (resp matches Response::Failure(m) ==> r.0.step is Failed && r.1 is None),
        spec_step(state, resp, r.0, r.1),
{
    let mut state = state;
    match &resp {
        Response::Failure(_) => {
            state.step = Step::Failed;
            return (state, None);
        },
        _ => {},
    }
    match state.step {
        Step::AwaitClient => {
            match resp {
                Response::OverrideSecret(Some(secret)) => {
                    state.step = Step::AwaitClientBuild;
                    (state, Some(Request::BuildOverrideClient { secret }))
                },
                Response::OverrideSecret(None) => after_client(state),
                _ => {
                    state.step = Step::Failed;
                    (state, None)
                },
            }
        },
        Step::AwaitClientBuild => {
            match resp {
                Response::ClientReady => after_client(state),
                _ => {
                    state.step = Step::Failed;
                    (state, None)
                },
            }
        },
        Step::AwaitFinalizerPatch => {
            match resp {
                Response::Patched => {
                    state.step = Step::AwaitFinalizerEvent;
                    let message = String::from_str("Create finalizer '").concat(
                        state.cr.kind.finalizer(),
                    ).concat("'");
                    (state, Some(event_request("UpsertFinalizer", "upsertfinalizer", message)))
                },
                _ => {
                    state.step = Step::Failed;
                    (state, None)
                },
            }
        },
        Step::AwaitFinalizerEvent => {
            match resp {
                Response::EventRecorded => {
                    let mut plan_pattern: Option<String> = None;
                    match &state.cr.instance {
                        Some(inst) => {
                            if !starts_with(inst.plan.as_str().as_bytes(), "plan_".as_bytes()) {
                                plan_pattern = Some(inst.plan.clone());
                            }
                        },
                        None => {},
                    }
                    match plan_pattern {
                        Some(pattern) => {
                            state.step = Step::AwaitPlan;
                            let req = Request::FindPlan {
                                provider_id: provider_of(&state.cr.kind).as_str().to_owned(),
                                organisation: state.cr.organisation.clone(),
                                pattern,
                            };
                            (state, Some(req))
                        },
                        None => goto_addon_fetch(state),
                    }
                },
                _ => {
                    state.step = Step::Failed;
                    (state, None)
                },
            }
        },
        Step::AwaitPlan => {
            match resp {
                Response::Plan(Some(plan)) => {
                    match &state.cr.instance {
                        Some(inst) => {
                            let new_inst = Instance {
                                region: inst.region.clone(),
                                plan: plan.id.clone(),
                            };
                            state.cr.instance = Some(new_inst);
                            state.plan_patched = true;
                            state.step = Step::AwaitPlanPatch;
                            let req = patch_request(&state.origin_doc, &state.cr, false);
                            (state, Some(req))
                        },
                        None => {
                            state.step = Step::Failed;
                            (state, None)
                        },
                    }
                },
                Response::Plan(None) => goto_addon_fetch(state),
                _ => {
                    state.step = Step::Failed;
                    (state, None)
                },
            }
        },
        Step::AwaitPlanPatch => {
            match resp {
                Response::Patched => {
                    state.step = Step::AwaitPlanEvent;
                    let message = String::from_str("Overrides instance plan");
                    (
                        state,
                        Some(
                            event_request(
                                "OverridesInstancePlan",
                                "overridesinstanceplan",
                                message,
                            ),
                        ),
                    )
                },
                _ => {
                    state.step = Step::Failed;
                    (state, None)
                },
            }
        },
        Step::AwaitPlanEvent => {
            match resp {
                Response::EventRecorded => {
                    // the plan patch retriggers reconciliation; stop here
                    state.step = Step::Done;
                    (state, None)
                },
                _ => {
                    state.step = Step::Failed;
                    (state, None)
                },
            }
        },
        Step::AwaitAddonGet => {
            match resp {
                Response::Addon(Some(a)) => {
                    match state.mode {
                        Mode::Upsert => adopt(state, a),
                        Mode::Delete => {
                            let req = Request::DeleteAddon {
                                organisation: state.cr.organisation.clone(),
                                id: a.id.clone(),
                            };
                            state.addon = Some(a);
                            state.step = Step::AwaitAddonDelete;
                            (state, Some(req))
                        },
                    }
                },
                Response::Addon(None) => {
                    // a 404 on the recorded id: recover by listing
                    let req = Request::ListAddons {
                        organisation: state.cr.organisation.clone(),
                    };
                    state.step = Step::AwaitAddonList;
                    (state, Some(req))
                },
                _ => {
                    state.step = Step::Failed;
                    (state, None)
                },
            }
        },
        Step::AwaitAddonList => {
            match resp {
                Response::Addons(list) => {
                    let uid = match &state.cr.meta.uid {
                        Some(u) => u.clone(),
                        None => String::new(),
                    };
                    let wanted = addon_name(state.cr.kind.kind(), uid.as_str());
                    let mut list = list;
                    match crate::addon::find_index_by_name(&list, wanted.as_str()) {
                        Some(idx) => {
                            let a = list.remove(idx);
                            match state.mode {
                                Mode::Upsert => adopt(state, a),
                                Mode::Delete => {
                                    let req = Request::DeleteAddon {
                                        organisation: state.cr.organisation.clone(),
                                        id: a.id.clone(),
                                    };
                                    state.addon = Some(a);
                                    state.step = Step::AwaitAddonDelete;
                                    (state, Some(req))
                                },
                            }
                        },
                        None => {
                            match state.mode {
                                Mode::Upsert => {
                                    let opts = create_opts(&state.cr);
                                    let req = Request::CreateAddon {
                                        organisation: state.cr.organisation.clone(),
                                        opts,
                                    };
                                    state.step = Step::AwaitAddonCreate;
                                    (state, Some(req))
                                },
                                Mode::Delete => clear_status(state),
                            }
                        },
                    }
                },
                _ => {
                    state.step = Step::Failed;
                    (state, None)
                },
            }
        },
        Step::AwaitAddonCreate => {
            match resp {
                Response::Created(a) => {
                    match state.mode {
                        Mode::Upsert => adopt(state, a),
                        Mode::Delete => {
                            state.step = Step::Failed;
                            (state, None)
                        },
                    }
                },
                _ => {
                    state.step = Step::Failed;
                    (state, None)
                },
            }
        },
        Step::AwaitAddonDelete => {
            match resp {
                Response::Deleted => {
                    match state.mode {
                        Mode::Delete => clear_status(state),
                        Mode::Upsert => {
                            state.step = Step::Failed;
                            (state, None)
                        },
                    }
                },
                _ => {
                    state.step = Step::Failed;
                    (state, None)
                },
            }
        },
        Step::AwaitStatusPatch => {
            match resp {
                Response::Patched => {
                    match state.mode {
                        Mode::Upsert => {
                            state.step = Step::AwaitAddonEvent;
                            let message = String::from_str("Create managed instance");
                            (state, Some(event_request("UpsertAddon", "upsertaddon", message)))
                        },
                        Mode::Delete => {
                            state.step = Step::AwaitAddonEvent;
                            let message = String::from_str("Delete managed instance");
                            (state, Some(event_request("DeleteAddon", "deleteaddon", message)))
                        },
                    }
                },
                _ => {
                    state.step = Step::Failed;
                    (state, None)
                },
            }
        },
        Step::AwaitAddonEvent => {
            match resp {
                Response::EventRecorded => {
                    match state.mode {
                        Mode::Upsert => {
                            match &state.addon {
                                Some(a) => {
                                    match state.cr.kind {
                                        CustomResource::ConfigProvider => {
                                            let req = Request::GetEnvironmentByRealId {
                                                real_id: a.real_id.clone(),
                                            };
                                            state.step = Step::AwaitEnvGet;
                                            (state, Some(req))
                                        },
                                        _ => {
                                            let req = Request::GetEnvironment {
                                                organisation: state.cr.organisation.clone(),
                                                id: a.id.clone(),
                                            };
                                            state.step = Step::AwaitSecretEnv;
                                            (state, Some(req))
                                        },
                                    }
                                },
                                None => {
                                    state.step = Step::Failed;
                                    (state, None)
                                },
                            }
                        },
                        Mode::Delete => {
                            let Reconciliation {
                                mode,
                                step: _,
                                origin_doc,
                                mut cr,
                                addon,
                                plan_patched,
                                pending_url,
                            } = state;
                            let fin = cr.kind.finalizer();
                            cr.meta = crate::finalizer::remove(cr.meta, fin);
                            let out = Reconciliation {
                                mode,
                                step: Step::AwaitFinalizerRemoveEvent,
                                origin_doc,
                                cr,
                                addon,
                                plan_patched,
                                pending_url,
                            };
                            let message = String::from_str("Delete finalizer");
                            (
                                out,
                                Some(
                                    event_request("DeleteFinalizer", "deletefinalizer", message),
                                ),
                            )
                        },
                    }
                },
                _ => {
                    state.step = Step::Failed;
                    (state, None)
                },
            }
        },
        Step::AwaitEnvGet => {
            match resp {
                Response::Environment(env) => {
                    match state.mode {
                        Mode::Delete => {
                            state.step = Step::Failed;
                            (state, None)
                        },
                        Mode::Upsert => {
                            let remote = crate::addon::environment_to_document(&env);
                            let wanted = crate::addon::variables_to_document(
                                &state.cr.variables,
                            );
                            let p = diff(&remote, &wanted);
                            proof {
                                crate::document::lemma_diff_empty_iff(remote@, wanted@);
                            }
                            if !p.is_empty() {
                                match &state.addon {
                                    Some(a) => {
                                        let req = Request::PutEnvironment {
                                            real_id: a.real_id.clone(),
                                            variables: crate::addon::variables_to_list(
                                                &state.cr.variables,
                                            ),
                                        };
                                        state.step = Step::AwaitEnvPut;
                                        (state, Some(req))
                                    },
                                    None => {
                                        state.step = Step::Failed;
                                        (state, None)
                                    },
                                }
                            } else {
                                project_variables_secret(state)
                            }
                        },
                    }
                },
                _ => {
                    state.step = Step::Failed;
                    (state, None)
                },
            }
        },
        Step::AwaitEnvPut => {
            match resp {
                Response::EnvironmentPut => {
                    match state.mode {
                        Mode::Upsert => project_variables_secret(state),
                        Mode::Delete => {
                            state.step = Step::Failed;
                            (state, None)
                        },
                    }
                },
                _ => {
                    state.step = Step::Failed;
                    (state, None)
                },
            }
        },
        Step::AwaitSecretEnv => {
            match resp {
                Response::Environment(env) => {
                    let doc = crate::addon::environment_to_document(&env);
                    let pairs = crate::document::to_pairs(&doc);
                    let ghost dv = doc@;
                    let ghost pv = crate::document::pairs_text_view(pairs@);
                    let ghost key = crate::oauth::bytes_of("CC_OTOROSHI_URL"@);
                    match state.cr.kind {
                        CustomResource::Otoroshi => {
                            let found = crate::addon::lookup_pair(&pairs, "CC_OTOROSHI_URL");
                            match found {
                                Some(u) => {
                                    let ghost uv = u@;
                                    proof {
                                        let i0 = choose|i: int|
                                            0 <= i < pairs@.len() && #[trigger] pairs@[i].0@
                                                == "CC_OTOROSHI_URL"@ && pairs@[i].1@ == uv;
                                        assert(pv[i0] == (key, uv));
                                    }
                                    if u.as_str().is_empty() {
                                        proof {
                                            lemma_url_unique(dv, pv, key, uv);
                                        }
                                        state.pending_url = None;
                                    } else {
                                        state.pending_url = Some(u);
                                    }
                                },
                                None => {
                                    proof {
                                        assert forall|i: int|
                                            !(0 <= i < pv.len() && (#[trigger] pv[i]).0
                                                == key) by {
                                            if 0 <= i < pv.len() && pv[i].0 == key {
                                                assert(pv[i].0 == vstd::utf8::encode_utf8(
                                                    pairs@[i].0@,
                                                ));
                                                vstd::utf8::encode_utf8_decode_utf8(
                                                    pairs@[i].0@,
                                                );
                                                vstd::utf8::encode_utf8_decode_utf8(
                                                    "CC_OTOROSHI_URL"@,
                                                );
                                                assert(pairs@[i].0@ == "CC_OTOROSHI_URL"@);
                                            }
                                        }
                                    }
                                    state.pending_url = None;
                                },
                            }
                        },
                        _ => {},
                    }
                    let api = api_resource_of(&state.cr.kind);
                    let secret = crate::secret::new(&api, &state.cr.meta, pairs);
                    state.step = Step::AwaitSecretUpsert;
                    proof {
                        assert(crate::document::pairs_text_view(secret.string_data@) == pv);
                    }
                    (state, Some(Request::UpsertSecret { secret }))
                },
                _ => {
                    state.step = Step::Failed;
                    (state, None)
                },
            }
        },
        Step::AwaitSecretUpsert => {
            match resp {
                Response::SecretUpserted => {
                    state.step = Step::AwaitSecretEvent;
                    let message = String::from_str("Create kubernetes secret");
                    (state, Some(event_request("UpsertSecret", "upsertsecret", message)))
                },
                _ => {
                    state.step = Step::Failed;
                    (state, None)
                },
            }
        },
        Step::AwaitSecretEvent => {
            match resp {
                Response::EventRecorded => {
                    match state.cr.kind {
                        CustomResource::Otoroshi => {
                            let update: Option<String> = match &state.pending_url {
                                Some(u) => {
                                    let same = match &state.cr.status_url {
                                        Some(v) => crate::text::str_eq(u.as_str(), v.as_str()),
                                        None => false,
                                    };
                                    if same {
                                        None
                                    } else {
                                        Some(u.clone())
                                    }
                                },
                                None => None,
                            };
                            match update {
                                Some(u) => {
                                    state.cr.status_url = Some(u);
                                    state.step = Step::AwaitUrlPatch;
                                    let req = patch_request(&state.origin_doc, &state.cr, true);
                                    (state, Some(req))
                                },
                                None => {
                                    state.step = Step::Done;
                                    (state, None)
                                },
                            }
                        },
                        _ => {
                            state.step = Step::Done;
                            (state, None)
                        },
                    }
                },
                _ => {
                    state.step = Step::Failed;
                    (state, None)
                },
            }
        },
        Step::AwaitUrlPatch => {
            match resp {
                Response::Patched => {
                    state.step = Step::AwaitUrlEvent;
                    let message = String::from_str("Update url");
                    (state, Some(event_request("UpdateUrl", "updateurl", message)))
                },
                _ => {
                    state.step = Step::Failed;
                    (state, None)
                },
            }
        },
        Step::AwaitUrlEvent => {
            match resp {
                Response::EventRecorded => {
                    state.step = Step::Done;
                    (state, None)
                },
                _ => {
                    state.step = Step::Failed;
                    (state, None)
                },
            }
        },
        Step::AwaitFinalizerRemoveEvent => {
            match resp {
                Response::EventRecorded => {
                    state.step = Step::AwaitFinalizerRemovePatch;
                    let req = patch_request(&state.origin_doc, &state.cr, false);
                    (state, Some(req))
                },
                _ => {
                    state.step = Step::Failed;
                    (state, None)
                },
            }
        },
        Step::AwaitFinalizerRemovePatch => {
            match resp {
                Response::Patched => {
                    state.step = Step::Done;
                    (state, None)
                },
                _ => {
                    state.step = Step::Failed;
                    (state, None)
                },
            }
        },
        Step::Done => (state, None),
        Step::Failed => (state, None),
    }
}

/// Continues past the override-client step: an upsert sets the finalizer
/// first; a deletion heads straight for the add-on.
fn after_client(state: Reconciliation) -> (r: (Reconciliation, Option<Request>))
    requires
        inv(state),
        state.step is AwaitClient || state.step is AwaitClientBuild,
    ensures
        inv(r.0),
        r.0.mode == state.mode,
        r.0.addon == state.addon,
        after_client_post(state, r.0, r.1),
{
    let Reconciliation { mode, step: _, origin_doc, mut cr, addon, plan_patched, pending_url } =
        state;
    match mode {
        Mode::Upsert => {
            let fin = cr.kind.finalizer();
            cr.meta = crate::finalizer::add(cr.meta, fin);
            let req = patch_request(&origin_doc, &cr, false);
            let out = Reconciliation {
                mode,
                step: Step::AwaitFinalizerPatch,
                origin_doc,
                cr,
                addon,
                plan_patched,
                pending_url,
            };
            (out, Some(req))
        },
        Mode::Delete => {
            let out = Reconciliation {
                mode,
                step: Step::AwaitClient,
                origin_doc,
                cr,
                addon,
                plan_patched,
                pending_url,
            };
            goto_addon_fetch(out)
        },
    }
}

/// Projects a config provider's variables into its secret.
fn project_variables_secret(state: Reconciliation) -> (r: (Reconciliation, Option<Request>))
    requires
        inv(state),
        state.mode is Upsert,
        addon_phase(state.step),
    ensures
        inv(r.0),
        r.0.mode == state.mode,
        r.0.addon == state.addon,
        r.0.pending_url == state.pending_url,
        vars_secret_post(state, r.0, r.1),
{
    let mut state = state;
    let api = api_resource_of(&state.cr.kind);
    let pairs = crate::addon::dup_pairs(&state.cr.variables);
    let secret = crate::secret::new(&api, &state.cr.meta, pairs);
    state.step = Step::AwaitSecretUpsert;
    (state, Some(Request::UpsertSecret { secret }))
}


/// Once the plan has been resolved, the resource's plan is the opaque
/// identifier the PaaS returned; when those identifiers start with
/// `plan_`, so does the resolved plan.
pub proof fn lemma_plan_resolution(plan_id: Seq<char>, resolved: Seq<char>)
    requires
        resolved == plan_id,
        crate::text::spec_starts_with(
            crate::oauth::bytes_of(plan_id),
            crate::oauth::bytes_of("plan_"@),
        ),
    ensures
        crate::text::spec_starts_with(
            crate::oauth::bytes_of(resolved),
            crate::oauth::bytes_of("plan_"@),
        ),
{
}

} // verus!
