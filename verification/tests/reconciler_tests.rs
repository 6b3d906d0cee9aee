//! The reconciliation engine driven through its scenarios: create,
//! crash-after-create recovery, delete, config-provider variables and a
//! transient failure.

use clever_operator::addon::{Addon, EnvironmentVariable, Plan, Provider};
use clever_operator::crd::postgresql;
use clever_operator::crd::config_provider;
use clever_operator::crd::otoroshi;
use clever_operator::crd::{CustomResource, Instance};
use clever_operator::reconciler::{
    reconcile_start, reconcile_step, Mode, Reconciliation, Request, Response, Step,
};
use clever_operator::document::{apply, diff};
use clever_operator::finalizer;
use clever_operator::reconciler::to_document;
use clever_operator::resource::ObjectMeta;

fn meta(uid: &str, deleted: bool) -> ObjectMeta {
    ObjectMeta {
        namespace: Some("default".to_string()),
        name: Some("my-db".to_string()),
        uid: Some(uid.to_string()),
        finalizers: None,
        deletion_timestamp: if deleted { Some(1700000000) } else { None },
        owner_references: Vec::new(),
        resource_version: Some("1".to_string()),
    }
}

fn pg(uid: &str, plan: &str, addon_id: Option<&str>, deleted: bool) -> postgresql::PostgreSql {
    postgresql::PostgreSql {
        meta: meta(uid, deleted),
        spec: postgresql::Spec {
            organisation: "orga_x".to_string(),
            options: postgresql::Opts {
                version: clever_operator::provider::PostgreSqlVersion::V13,
                encryption: false,
            },
            instance: Instance { region: "par".to_string(), plan: plan.to_string() },
        },
        status: addon_id.map(|id| postgresql::Status { addon: Some(id.to_string()) }),
    }
}

fn provider() -> Provider {
    Provider {
        id: "postgresql-addon".to_string(),
        name: "PostgreSQL".to_string(),
        website: String::new(),
        support_email: String::new(),
        google_plus_name: String::new(),
        twitter_name: String::new(),
        analytics_id: String::new(),
        short_description: String::new(),
        long_description: String::new(),
        logo_url: String::new(),
        status: "RELEASE".to_string(),
        open_in_new_tab: false,
        can_upgrade: false,
        regions: vec!["par".to_string()],
    }
}

fn plan(id: &str, slug: &str) -> Plan {
    Plan {
        id: id.to_string(),
        name: slug.to_uppercase(),
        slug: slug.to_string(),
        price_milli: 0,
        price_id: String::new(),
        features: Vec::new(),
        zones: vec!["par".to_string()],
    }
}

fn addon(id: &str, name: &str) -> Addon {
    Addon {
        id: id.to_string(),
        name: Some(name.to_string()),
        real_id: format!("real_{}", id),
        region: "par".to_string(),
        provider: provider(),
        plan: plan("plan_abc", "xs_sml"),
        creation_date: 1700000000,
        config_keys: Vec::new(),
    }
}

fn step(m: (Reconciliation, Option<Request>), resp: Response) -> (Reconciliation, Option<Request>) {
    reconcile_step(m.0, resp)
}

#[test]
fn create_scenario_resolves_plan_then_stops() {
    // a fresh CR with a human-readable plan slug
    let cr = pg("uid-1", "xs_sml", None, false).into_model();
    let (st, req) = reconcile_start(cr);
    assert!(matches!(st.mode, Mode::Upsert));
    assert!(matches!(req, Request::GetOverrideSecret { ref namespace } if namespace == "default"));

    let m = reconcile_step(st, Response::OverrideSecret(None));
    // the finalizer is set first
    match &m.1 {
        Some(Request::PatchResource { patch, status }) => {
            assert!(!patch.is_empty());
            assert!(!*status);
        }
        other => panic!("expected a patch request, got {:?}", other),
    }
    let m = step(m, Response::Patched);
    assert!(matches!(m.1, Some(Request::RecordEvent { ref action, .. }) if action == "UpsertFinalizer"));
    let m = step(m, Response::EventRecorded);
    // the slug is not an opaque plan id, so the plan is resolved
    match &m.1 {
        Some(Request::FindPlan { provider_id, organisation, pattern }) => {
            assert_eq!(provider_id, "postgresql-addon");
            assert_eq!(organisation, "orga_x");
            assert_eq!(pattern, "xs_sml");
        }
        other => panic!("expected a plan lookup, got {:?}", other),
    }
    let m = step(m, Response::Plan(Some(plan("plan_abc123", "xs_sml"))));
    match &m.1 {
        Some(Request::PatchResource { patch, .. }) => assert!(!patch.is_empty()),
        other => panic!("expected a patch request, got {:?}", other),
    }
    assert!(matches!(m.0.cr.instance, Some(ref i) if i.plan == "plan_abc123"));
    let m = step(m, Response::Patched);
    assert!(matches!(m.1, Some(Request::RecordEvent { ref action, .. }) if action == "OverridesInstancePlan"));
    let m = step(m, Response::EventRecorded);
    // the patch retriggers reconciliation; this one stops here
    assert!(matches!(m.0.step, Step::Done));
    assert!(m.1.is_none());
}

#[test]
fn create_scenario_creates_addon_and_secret() {
    // the second reconciliation: the plan is already resolved
    let cr = pg("uid-1", "plan_abc123", None, false).into_model();
    let m = {
        let (st, _rq) = reconcile_start(cr);
        reconcile_step(st, Response::OverrideSecret(None))
    };
    let m = step(m, Response::Patched);
    let m = step(m, Response::EventRecorded);
    // no id recorded: the machine lists to adopt by name before creating
    assert!(matches!(m.1, Some(Request::ListAddons { .. })));
    let m = step(m, Response::Addons(Vec::new()));
    match &m.1 {
        Some(Request::CreateAddon { organisation, opts }) => {
            assert_eq!(organisation, "orga_x");
            assert_eq!(opts.name, "kubernetes::PostgreSql::uid-1");
            assert_eq!(opts.plan, "plan_abc123");
            assert_eq!(opts.region, "par");
        }
        other => panic!("expected a creation, got {:?}", other),
    }
    let m = step(m, Response::Created(addon("addon_42", "kubernetes::PostgreSql::uid-1")));
    // the id goes into the status, patched together with the spec
    assert_eq!(m.0.cr.status_addon.as_deref(), Some("addon_42"));
    assert!(matches!(m.1, Some(Request::PatchResource { status: true, .. })));
    let m = step(m, Response::Patched);
    assert!(matches!(m.1, Some(Request::RecordEvent { ref action, .. }) if action == "UpsertAddon"));
    let m = step(m, Response::EventRecorded);
    assert!(matches!(m.1, Some(Request::GetEnvironment { .. })));
    let env = vec![
        EnvironmentVariable { name: "POSTGRESQL_ADDON_URI".to_string(), value: "postgres://".to_string() },
        EnvironmentVariable { name: "POSTGRESQL_ADDON_HOST".to_string(), value: "db.example".to_string() },
    ];
    let m = step(m, Response::Environment(env));
    match &m.1 {
        Some(Request::UpsertSecret { secret }) => {
            assert_eq!(secret.metadata.name.as_deref(), Some("my-db-secrets"));
            assert_eq!(secret.metadata.namespace.as_deref(), Some("default"));
            assert_eq!(secret.metadata.owner_references.len(), 1);
            let owner = &secret.metadata.owner_references[0];
            assert_eq!(owner.uid, "uid-1");
            assert_eq!(owner.kind, "PostgreSql");
            assert!(owner.block_owner_deletion);
            assert!(secret.string_data.iter().all(|p| p.0.starts_with("POSTGRESQL_ADDON_")));
            assert_eq!(secret.string_data.len(), 2);
        }
        other => panic!("expected the secret, got {:?}", other),
    }
    let m = step(m, Response::SecretUpserted);
    assert!(matches!(m.1, Some(Request::RecordEvent { ref action, .. }) if action == "UpsertSecret"));
    let m = step(m, Response::EventRecorded);
    assert!(matches!(m.0.step, Step::Done));
    assert_eq!(m.0.cr.status_addon.as_deref(), Some("addon_42"));
}

#[test]
fn crash_after_create_recovers_by_name() {
    // the status was lost between the remote create and the status patch
    let cr = pg("uid-1", "plan_abc123", None, false).into_model();
    let m = {
        let (st, _rq) = reconcile_start(cr);
        reconcile_step(st, Response::OverrideSecret(None))
    };
    let m = step(m, Response::Patched);
    let m = step(m, Response::EventRecorded);
    assert!(matches!(m.1, Some(Request::ListAddons { .. })));
    // the listing holds the add-on under its deterministic name
    let listing = vec![
        addon("addon_0", "someone-elses"),
        addon("addon_42", "kubernetes::PostgreSql::uid-1"),
    ];
    let m = step(m, Response::Addons(listing));
    // adopted, not recreated
    assert_eq!(m.0.cr.status_addon.as_deref(), Some("addon_42"));
    assert!(matches!(m.1, Some(Request::PatchResource { status: true, .. })));
}

#[test]
fn lost_status_with_stale_id_falls_back_to_listing() {
    let cr = pg("uid-1", "plan_abc123", Some("addon_gone"), false).into_model();
    let m = {
        let (st, _rq) = reconcile_start(cr);
        reconcile_step(st, Response::OverrideSecret(None))
    };
    let m = step(m, Response::Patched);
    let m = step(m, Response::EventRecorded);
    assert!(matches!(m.1, Some(Request::GetAddon { ref id, .. }) if id == "addon_gone"));
    // a 404 on the recorded id
    let m = step(m, Response::Addon(None));
    assert!(matches!(m.1, Some(Request::ListAddons { .. })));
    let m = step(m, Response::Addons(vec![addon("addon_42", "kubernetes::PostgreSql::uid-1")]));
    assert_eq!(m.0.cr.status_addon.as_deref(), Some("addon_42"));
}

#[test]
fn delete_scenario_clears_status_and_finalizer() {
    let mut crd = pg("uid-1", "plan_abc123", Some("addon_42"), true);
    crd.meta.finalizers = Some(vec!["api.clever-cloud.com/postgresql".to_string()]);
    let cr = crd.into_model();
    let (st, _rq) = reconcile_start(cr);
    assert!(matches!(st.mode, Mode::Delete));
    let m = reconcile_step(st, Response::OverrideSecret(None));
    assert!(matches!(m.1, Some(Request::GetAddon { .. })));
    let m = step(m, Response::Addon(Some(addon("addon_42", "kubernetes::PostgreSql::uid-1"))));
    assert!(matches!(m.1, Some(Request::DeleteAddon { ref id, .. }) if id == "addon_42"));
    let m = step(m, Response::Deleted);
    // the status is cleared and patched
    assert!(m.0.cr.status_addon.is_none());
    assert!(matches!(m.1, Some(Request::PatchResource { status: true, .. })));
    let m = step(m, Response::Patched);
    assert!(matches!(m.1, Some(Request::RecordEvent { ref action, .. }) if action == "DeleteAddon"));
    let m = step(m, Response::EventRecorded);
    // the finalizer is removed, the event recorded, the patch sent
    assert!(m.0.cr.meta.finalizers.as_ref().unwrap().is_empty());
    assert!(matches!(m.1, Some(Request::RecordEvent { ref action, .. }) if action == "DeleteFinalizer"));
    let m = step(m, Response::EventRecorded);
    assert!(matches!(m.1, Some(Request::PatchResource { .. })));
    let m = step(m, Response::Patched);
    assert!(matches!(m.0.step, Step::Done));
}

fn config_provider_cr(vars: &[(&str, &str)]) -> config_provider::ConfigProvider {
    config_provider::ConfigProvider {
        meta: meta("uid-cp", false),
        spec: config_provider::Spec {
            organisation: "orga_x".to_string(),
            variables: vars.iter().map(|(k, v)| (k.to_string(), v.to_string())).collect(),
        },
        status: Some(config_provider::Status { addon: Some("addon_cp".to_string()) }),
    }
}

#[test]
fn config_provider_replaces_environment_on_difference() {
    let cr = config_provider_cr(&[("A", "1"), ("C", "3")]).into_model();
    let m = {
        let (st, _rq) = reconcile_start(cr);
        reconcile_step(st, Response::OverrideSecret(None))
    };
    let m = step(m, Response::Patched);
    let m = step(m, Response::EventRecorded);
    // id known: fetched directly
    assert!(matches!(m.1, Some(Request::GetAddon { .. })));
    let m = step(m, Response::Addon(Some(addon("addon_cp", "kubernetes::ConfigProvider::uid-cp"))));
    let m = step(m, Response::Patched);
    let m = step(m, Response::EventRecorded);
    // the environment is read under the realId alias
    match &m.1 {
        Some(Request::GetEnvironmentByRealId { real_id }) => assert_eq!(real_id, "real_addon_cp"),
        other => panic!("expected the environment fetch, got {:?}", other),
    }
    // the remote holds {A:1, B:2}: it differs, so the full set is put
    let remote = vec![
        EnvironmentVariable { name: "A".to_string(), value: "1".to_string() },
        EnvironmentVariable { name: "B".to_string(), value: "2".to_string() },
    ];
    let m = step(m, Response::Environment(remote));
    match &m.1 {
        Some(Request::PutEnvironment { real_id, variables }) => {
            assert_eq!(real_id, "real_addon_cp");
            let vars: Vec<(String, String)> =
                variables.iter().map(|v| (v.name.clone(), v.value.clone())).collect();
            assert_eq!(vars, vec![("A".to_string(), "1".to_string()), ("C".to_string(), "3".to_string())]);
        }
        other => panic!("expected the environment put, got {:?}", other),
    }
    let m = step(m, Response::EnvironmentPut);
    // the secret mirrors the variables
    match &m.1 {
        Some(Request::UpsertSecret { secret }) => {
            assert_eq!(secret.string_data.len(), 2);
            assert_eq!(secret.string_data[0], ("A".to_string(), "1".to_string()));
            assert_eq!(secret.string_data[1], ("C".to_string(), "3".to_string()));
        }
        other => panic!("expected the secret, got {:?}", other),
    }
}

#[test]
fn config_provider_skips_put_when_environment_matches() {
    let cr = config_provider_cr(&[("A", "1"), ("B", "2")]).into_model();
    let m = {
        let (st, _rq) = reconcile_start(cr);
        reconcile_step(st, Response::OverrideSecret(None))
    };
    let m = step(m, Response::Patched);
    let m = step(m, Response::EventRecorded);
    let m = step(m, Response::Addon(Some(addon("addon_cp", "kubernetes::ConfigProvider::uid-cp"))));
    let m = step(m, Response::Patched);
    let m = step(m, Response::EventRecorded);
    let remote = vec![
        EnvironmentVariable { name: "B".to_string(), value: "2".to_string() },
        EnvironmentVariable { name: "A".to_string(), value: "1".to_string() },
    ];
    let m = step(m, Response::Environment(remote));
    // same mapping, different order: no put, straight to the secret
    assert!(matches!(m.1, Some(Request::UpsertSecret { .. })));
}

#[test]
fn transient_failure_parks_the_machine() {
    let cr = pg("uid-1", "plan_abc123", None, false).into_model();
    let m = {
        let (st, _rq) = reconcile_start(cr);
        reconcile_step(st, Response::OverrideSecret(None))
    };
    let m = step(m, Response::Patched);
    let m = step(m, Response::EventRecorded);
    // a 503 from the PaaS during the upsert
    let m = step(m, Response::Failure("got status 503".to_string()));
    assert!(matches!(m.0.step, Step::Failed));
    assert!(m.1.is_none());
    // the controller requeues after a flat 500 ms
    assert_eq!(clever_operator::http::retry_delay_ms(), 500);
    // the next reconciliation adopts the add-on if the create had gone through
    let cr2 = pg("uid-1", "plan_abc123", None, false).into_model();
    let m2 = {
        let (st, _rq) = reconcile_start(cr2);
        reconcile_step(st, Response::OverrideSecret(None))
    };
    let m2 = step(m2, Response::Patched);
    let m2 = step(m2, Response::EventRecorded);
    let m2 = step(m2, Response::Addons(vec![addon("addon_42", "kubernetes::PostgreSql::uid-1")]));
    assert_eq!(m2.0.cr.status_addon.as_deref(), Some("addon_42"));
}

#[test]
fn finalizer_is_added_once() {
    let m0 = meta("uid-1", false);
    let m1 = finalizer::add(m0, "api.clever-cloud.com/postgresql");
    assert!(finalizer::contains(&m1, "api.clever-cloud.com/postgresql"));
    let m2 = finalizer::add(m1, "api.clever-cloud.com/postgresql");
    assert_eq!(m2.finalizers.as_ref().unwrap().len(), 1);
    let m3 = finalizer::remove(m2, "api.clever-cloud.com/postgresql");
    assert!(!finalizer::contains(&m3, "api.clever-cloud.com/postgresql"));
    assert!(m3.finalizers.as_ref().unwrap().is_empty());
}

#[test]
fn deterministic_name_follows_kind_and_uid() {
    let cr = pg("uid-7", "plan_abc", None, false);
    assert_eq!(cr.name(), "kubernetes::PostgreSql::uid-7");
    assert_eq!(
        clever_operator::addon::addon_name(CustomResource::MySql.kind(), "u"),
        "kubernetes::MySql::u"
    );
}

#[test]
fn otoroshi_url_is_mirrored_into_status() {
    let cr = otoroshi::Otoroshi {
        meta: meta("uid-oto", false),
        spec: otoroshi::Spec {
            organisation: "orga_x".to_string(),
            options: otoroshi::Opts {},
            instance: Instance { region: "par".to_string(), plan: "plan_oto".to_string() },
        },
        status: Some(otoroshi::Status { addon: Some("addon_oto".to_string()), url: None }),
    }
    .into_model();
    let m = {
        let (st, _rq) = reconcile_start(cr);
        reconcile_step(st, Response::OverrideSecret(None))
    };
    let m = step(m, Response::Patched);
    let m = step(m, Response::EventRecorded);
    let m = step(m, Response::Addon(Some(addon("addon_oto", "kubernetes::Otoroshi::uid-oto"))));
    let m = step(m, Response::Patched);
    let m = step(m, Response::EventRecorded);
    assert!(matches!(m.1, Some(Request::GetEnvironment { .. })));
    let env = vec![EnvironmentVariable {
        name: "CC_OTOROSHI_URL".to_string(),
        value: "https://oto.example".to_string(),
    }];
    let m = step(m, Response::Environment(env));
    let m = step(m, Response::SecretUpserted);
    let m = step(m, Response::EventRecorded);
    // the distinguished secret key is mirrored into the status
    assert_eq!(m.0.cr.status_url.as_deref(), Some("https://oto.example"));
    assert!(matches!(m.1, Some(Request::PatchResource { status: true, .. })));
    let m = step(m, Response::Patched);
    assert!(matches!(m.1, Some(Request::RecordEvent { ref action, .. }) if action == "UpdateUrl"));
    let m = step(m, Response::EventRecorded);
    assert!(matches!(m.0.step, Step::Done));
}

#[test]
fn override_secret_flows_through_client_build() {
    // a namespace with a `clever-operator` secret signs with its credentials
    let cr = pg("uid-1", "plan_abc123", Some("addon_42"), false).into_model();
    let (st, _rq) = reconcile_start(cr);
    let api = clever_operator::resource::ApiResource {
        api_version: "v1".to_string(),
        kind: "Secret".to_string(),
    };
    let override_secret = clever_operator::secret::new(&api, &meta("uid-s", false), Vec::new());
    let m = reconcile_step(st, Response::OverrideSecret(Some(override_secret)));
    assert!(matches!(m.1, Some(Request::BuildOverrideClient { .. })));
    let m = step(m, Response::ClientReady);
    // the pipeline then proceeds as usual
    assert!(matches!(m.1, Some(Request::PatchResource { .. })));
}

#[test]
fn machine_patches_apply_to_the_observed_document() {
    // what the machine sends as a patch turns the observed document into
    // the desired one, exactly
    let observed = pg("uid-1", "xs_sml", None, false).into_model();
    let before = to_document(&observed);
    let (st, _rq) = reconcile_start(observed);
    let m = reconcile_step(st, Response::OverrideSecret(None));
    match &m.1 {
        Some(Request::PatchResource { patch, .. }) => {
            let after = apply(&before, patch).unwrap();
            let check = diff(&after, &to_document(&m.0.cr));
            assert!(check.is_empty());
        }
        other => panic!("expected a patch request, got {:?}", other),
    }
}
