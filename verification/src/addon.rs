//! The add-on API surface: the data returned by the PaaS and the logic
//! that names, finds and adopts add-ons.

use vstd::prelude::*;
use vstd::string::StringExecFns;

use crate::document::{Document, Value, ValueView};
use crate::text::str_eq;

verus! {

/// An add-on provider, as the PaaS describes itself.
#[derive(Clone, Debug)]
pub struct Provider {
    pub id: String,
    pub name: String,
    pub website: String,
    pub support_email: String,
    pub google_plus_name: String,
    pub twitter_name: String,
    pub analytics_id: String,
    pub short_description: String,
    pub long_description: String,
    pub logo_url: String,
    pub status: String,
    pub open_in_new_tab: bool,
    pub can_upgrade: bool,
    pub regions: Vec<String>,
}

/// One feature of a plan.
#[derive(Clone, Debug)]
pub struct Feature {
    pub name: String,
    pub kind: String,
    pub value: String,
    pub computable_value: Option<String>,
    pub name_code: Option<String>,
}

/// A sizing tier: an opaque `plan_*` id, a human-readable slug and name.
/// The price is kept in thousandths of the billing unit.
#[derive(Clone, Debug)]
pub struct Plan {
    pub id: String,
    pub name: String,
    pub slug: String,
    pub price_milli: i64,
    pub price_id: String,
    pub features: Vec<Feature>,
    pub zones: Vec<String>,
}

/// A remote add-on.  Immutable once created; `real_id` is the secondary
/// identifier the config-provider environment API uses.
#[derive(Clone, Debug)]
pub struct Addon {
    pub id: String,
    pub name: Option<String>,
    pub real_id: String,
    pub region: String,
    pub provider: Provider,
    pub plan: Plan,
    pub creation_date: u64,
    pub config_keys: Vec<String>,
}

/// Kind-specific creation options, rendered as text.
#[derive(Clone, Debug)]
pub enum AddonOpts {
    PostgreSql { version: String, encryption: String },
}

/// What it takes to create an add-on.
#[derive(Clone, Debug)]
pub struct CreateAddonOpts {
    pub name: String,
    pub region: String,
    pub provider_id: String,
    pub plan: String,
    pub options: Vec<(String, String)>,
}

/// One entry of an add-on's environment.
#[derive(Clone, Debug)]
pub struct EnvironmentVariable {
    pub name: String,
    pub value: String,
}

// ---------------------------------------------------------------------------
// Deterministic naming

/// The name stored remotely for a custom resource:
/// `kubernetes::<Kind>::<uid>`.  It depends on the resource alone, so a
/// later reconciliation can find the add-on again by name.
pub open spec fn spec_addon_name(kind: Seq<char>, uid: Seq<char>) -> Seq<char> {
    "kubernetes"@ + "::"@ + kind + "::"@ + uid
}

/// The deterministic remote name of a custom resource.
pub fn addon_name(kind: &str, uid: &str) -> (r: String)
    ensures
        r@ == spec_addon_name(kind@, uid@),
{
    String::from_str("kubernetes").concat("::").concat(kind).concat("::").concat(uid)
}

// ---------------------------------------------------------------------------
// Finding add-ons and plans

/// Whether the add-on carries exactly the name `n`.
pub open spec fn addon_named(a: Addon, n: Seq<char>) -> bool {
    match a.name {
        Some(m) => m@ == n,
        None => false,
    }
}

/// The first add-on of the list carrying the name `n`, if any: how a
/// reconciliation recovers an add-on whose id was lost.
pub fn find_by_name<'a>(addons: &'a Vec<Addon>, n: &str) -> (r: Option<&'a Addon>)
    ensures
        match r {
            Some(a) => exists|i: int|
                0 <= i < addons@.len() && addon_named(#[trigger] addons@[i], n@) && *a == addons@[
                    i
                ] && forall|j: int| 0 <= j < i ==> !addon_named(addons@[j], n@),
            None => forall|j: int| 0 <= j < addons@.len() ==> !addon_named(addons@[j], n@),
        },
{
    let mut i: usize = 0;
    while i < addons.len()
        invariant
            i <= addons@.len(),
            forall|j: int| 0 <= j < i ==> !addon_named(addons@[j], n@),
        decreases addons@.len() - i,
    {
        match &addons[i].name {
            Some(m) => {
                if str_eq(m.as_str(), n) {
                    assert(addon_named(addons@[i as int], n@));
                    return Some(&addons[i]);
                }
                assert(!addon_named(addons@[i as int], n@));
            },
            None => {
                assert(!addon_named(addons@[i as int], n@));
            },
        }
        i = i + 1;
    }
    None
}

/// Whether the plan answers to the pattern: by slug, id or name.
pub open spec fn plan_matches(p: Plan, pat: Seq<char>) -> bool {
    p.slug@ == pat || p.id@ == pat || p.name@ == pat
}

/// The first plan matching the pattern by slug, id or name, if any.
pub fn find_plan<'a>(plans: &'a Vec<Plan>, pattern: &str) -> (r: Option<&'a Plan>)
    ensures
        match r {
            Some(p) => exists|i: int|
                0 <= i < plans@.len() && plan_matches(#[trigger] plans@[i], pattern@) && *p
                    == plans@[i] && forall|j: int| 0 <= j < i ==> !plan_matches(
                    plans@[j],
                    pattern@,
                ),
            None => forall|j: int| 0 <= j < plans@.len() ==> !plan_matches(plans@[j], pattern@),
        },
{
    let mut i: usize = 0;
    while i < plans.len()
        invariant
            i <= plans@.len(),
            forall|j: int| 0 <= j < i ==> !plan_matches(plans@[j], pattern@),
        decreases plans@.len() - i,
    {
        let p = &plans[i];
        if str_eq(p.slug.as_str(), pattern) || str_eq(p.id.as_str(), pattern) || str_eq(
            p.name.as_str(),
            pattern,
        ) {
            assert(plan_matches(plans@[i as int], pattern@));
            return Some(&plans[i]);
        }
        assert(!plan_matches(plans@[i as int], pattern@));
        i = i + 1;
    }
    None
}

// ---------------------------------------------------------------------------
// Environments as documents

/// A document updated with one more binding.
pub open spec fn doc_set(
    d: Seq<(Seq<u8>, ValueView)>,
    k: Seq<char>,
    v: ValueView,
) -> Seq<(Seq<u8>, ValueView)> {
    let kb = vstd::utf8::encode_utf8(k);
    if crate::document::doc_has(d, kb) {
        crate::document::replace_key(d, kb, v)
    } else {
        crate::document::sorted_insert_kv(d, (kb, v))
    }
}

/// Text pairs read as environment entries, in order.
pub open spec fn pairs_as_env(pairs: Seq<(String, String)>) -> Seq<EnvironmentVariable> {
    pairs.map(|_i: int, p: (String, String)| EnvironmentVariable { name: p.0, value: p.1 })
}

/// An environment folded into a map: later entries overwrite earlier ones.
pub open spec fn spec_env_fold(env: Seq<EnvironmentVariable>) -> Seq<(Seq<u8>, ValueView)>
    decreases env.len(),
{
    if env.len() == 0 {
        Seq::empty()
    } else {
        doc_set(
            spec_env_fold(env.drop_last()),
            env.last().name@,
            ValueView::Str(env.last().value@),
        )
    }
}

/// Folds an environment into a document: later entries overwrite earlier
/// ones, and the result is sorted by name.
pub fn environment_to_document(env: &Vec<EnvironmentVariable>) -> (d: Document)
    ensures
        d@ == spec_env_fold(env@),
        crate::document::doc_wf(d@),
{
    let mut d = Document::new();
    let mut i: usize = 0;
    proof {
        assert(env@.take(0) =~= Seq::<EnvironmentVariable>::empty());
    }
    while i < env.len()
        invariant
            i <= env@.len(),
            d@ == spec_env_fold(env@.take(i as int)),
            crate::document::doc_wf(d@),
        decreases env@.len() - i,
    {
        d.set(env[i].name.as_str(), Value::Str(env[i].value.clone()));
        proof {
            assert(env@.take(i + 1).drop_last() =~= env@.take(i as int));
            assert(env@.take(i + 1).last() == env@[i as int]);
        }
        i = i + 1;
    }
    proof {
        assert(env@.take(env@.len() as int) =~= env@);
    }
    d
}

/// The variables of a config provider, folded the same way.
pub fn variables_to_document(vars: &Vec<(String, String)>) -> (d: Document)
    ensures
        d@ == spec_env_fold(pairs_as_env(vars@)),
        crate::document::doc_wf(d@),
{
    let ghost env = pairs_as_env(vars@);
    let mut d = Document::new();
    let mut i: usize = 0;
    proof {
        assert(env.take(0) =~= Seq::<EnvironmentVariable>::empty());
    }
    while i < vars.len()
        invariant
            i <= vars@.len(),
            env == pairs_as_env(vars@),
            d@ == spec_env_fold(env.take(i as int)),
            crate::document::doc_wf(d@),
        decreases vars@.len() - i,
    {
        d.set(vars[i].0.as_str(), Value::Str(vars[i].1.clone()));
        proof {
            assert(env.take(i + 1).drop_last() =~= env.take(i as int));
            assert(env.take(i + 1).last() == env[i as int]);
            assert(env[i as int].name == vars@[i as int].0);
            assert(env[i as int].value == vars@[i as int].1);
        }
        i = i + 1;
    }
    proof {
        assert(env.take(env.len() as int) =~= env);
    }
    d
}

/// The variables rendered as the full list the environment API takes.
pub fn variables_to_list(vars: &Vec<(String, String)>) -> (r: Vec<EnvironmentVariable>)
    ensures
        r@.len() == vars@.len(),
        forall|i: int| 0 <= i < r@.len() ==> #[trigger] r@[i].name == vars@[i].0 && r@[i].value
            == vars@[i].1,
{
    let mut out: Vec<EnvironmentVariable> = Vec::new();
    let mut i: usize = 0;
    while i < vars.len()
        invariant
            i <= vars@.len(),
            out@.len() == i,
            forall|j: int| 0 <= j < i ==> #[trigger] out@[j].name == vars@[j].0 && out@[j].value
                == vars@[j].1,
        decreases vars@.len() - i,
    {
        out.push(EnvironmentVariable { name: vars[i].0.clone(), value: vars[i].1.clone() });
        i = i + 1;
    }
    out
}


/// The position of the first add-on carrying the name `n`, if any.
pub fn find_index_by_name(addons: &Vec<Addon>, n: &str) -> (r: Option<usize>)
    ensures
        match r {
            Some(i) => i < addons@.len() && addon_named(addons@[i as int], n@) && forall|j: int|
                0 <= j < i ==> !addon_named(addons@[j], n@),
            None => forall|j: int| 0 <= j < addons@.len() ==> !addon_named(addons@[j], n@),
        },
{
    let mut i: usize = 0;
    while i < addons.len()
        invariant
            i <= addons@.len(),
            forall|j: int| 0 <= j < i ==> !addon_named(addons@[j], n@),
        decreases addons@.len() - i,
    {
        match &addons[i].name {
            Some(m) => {
                if str_eq(m.as_str(), n) {
                    assert(addon_named(addons@[i as int], n@));
                    return Some(i);
                }
                assert(!addon_named(addons@[i as int], n@));
            },
            None => {
                assert(!addon_named(addons@[i as int], n@));
            },
        }
        i = i + 1;
    }
    None
}

/// The value stored under the first pair carrying `k`, if any.
pub fn lookup_pair(pairs: &Vec<(String, String)>, k: &str) -> (r: Option<String>)
    ensures
        match r {
            Some(v) => exists|i: int|
                0 <= i < pairs@.len() && #[trigger] pairs@[i].0@ == k@ && pairs@[i].1@ == v@,
            None => forall|i: int| 0 <= i < pairs@.len() ==> #[trigger] pairs@[i].0@ != k@,
        },
{
    let mut i: usize = 0;
    while i < pairs.len()
        invariant
            i <= pairs@.len(),
            forall|j: int| 0 <= j < i ==> #[trigger] pairs@[j].0@ != k@,
        decreases pairs@.len() - i,
    {
        if str_eq(pairs[i].0.as_str(), k) {
            return Some(pairs[i].1.clone());
        }
        i = i + 1;
    }
    None
}

/// A copy of a list of text pairs, pair for pair.
pub fn dup_pairs(pairs: &Vec<(String, String)>) -> (r: Vec<(String, String)>)
    ensures
        r@.len() == pairs@.len(),
        forall|i: int| 0 <= i < r@.len() ==> #[trigger] r@[i].0@ == pairs@[i].0@ && r@[i].1@
            == pairs@[i].1@,
{
    let mut out: Vec<(String, String)> = Vec::new();
    let mut i: usize = 0;
    while i < pairs.len()
        invariant
            i <= pairs@.len(),
            out@.len() == i,
            forall|j: int| 0 <= j < i ==> #[trigger] out@[j].0@ == pairs@[j].0@ && out@[j].1@
                == pairs@[j].1@,
        decreases pairs@.len() - i,
    {
        out.push((pairs[i].0.clone(), pairs[i].1.clone()));
        i = i + 1;
    }
    out
}

} // verus!
