//! The smaller models: events, secrets, parsing, routing, the credential
//! override, and the per-kind resources.

use clever_operator::client::{classify_status, decode_override, ClientError, Credentials, OverrideError, ResponseError};
use clever_operator::crd::{mysql, otoroshi, CustomResource};
use clever_operator::crd::Instance;
use clever_operator::logging::{level, Verbosity};
use clever_operator::provider::{AddonProviderId, PostgreSqlVersion};
use clever_operator::recorder::{self, Level};
use clever_operator::resource::{ApiResource, ObjectMeta};
use clever_operator::http::{route, status_code, RouteKind};
use clever_operator::client as paths;
use clever_operator::secret;
use clever_operator::text::dec_string;
use base64::Engine;

fn meta() -> ObjectMeta {
    ObjectMeta {
        namespace: Some("ns".to_string()),
        name: Some("thing".to_string()),
        uid: Some("u-1".to_string()),
        finalizers: None,
        deletion_timestamp: None,
        owner_references: Vec::new(),
        resource_version: None,
    }
}

#[test]
fn event_name_holds_resource_action_and_timestamp() {
    let api = ApiResource {
        api_version: "api.clever-cloud.com/v1".to_string(),
        kind: "PostgreSql".to_string(),
    };
    let e = recorder::new(
        &api,
        &meta(),
        Level::Normal,
        "UpsertAddon",
        "upsertaddon",
        "created",
        1700000123,
        Some("host-1".to_string()),
    );
    assert_eq!(e.name, "thing-upsertaddon-1700000123");
    assert_eq!(e.reason, "UpsertAddon");
    assert_eq!(e.reporting_component, "clever-operator");
    assert_eq!(e.involved_object.kind, "PostgreSql");
    assert_eq!(e.involved_object.uid.as_deref(), Some("u-1"));
    assert_eq!(e.count, 1);
}

#[test]
fn level_parses_ignoring_case() {
    assert!(matches!(Level::parse("Warning"), Ok(Level::Warning)));
    assert!(matches!(Level::parse("WARNING"), Ok(Level::Warning)));
    assert!(matches!(Level::parse("normal"), Ok(Level::Normal)));
    assert!(Level::parse("whatever").is_err());
    assert_eq!(Level::Normal.as_str(), "Normal");
    assert_eq!(Level::Warning.as_str(), "Warning");
}

#[test]
fn projected_secret_is_named_and_owned() {
    let api = ApiResource {
        api_version: "api.clever-cloud.com/v1".to_string(),
        kind: "Redis".to_string(),
    };
    let s = secret::new(
        &api,
        &meta(),
        vec![("REDIS_HOST".to_string(), "r.example".to_string())],
    );
    assert_eq!(s.metadata.name.as_deref(), Some("thing-secrets"));
    assert_eq!(s.metadata.namespace.as_deref(), Some("ns"));
    assert_eq!(s.metadata.owner_references.len(), 1);
    assert_eq!(s.metadata.owner_references[0].uid, "u-1");
    assert_eq!(s.metadata.owner_references[0].name, "thing");
    assert_eq!(s.metadata.owner_references[0].kind, "Redis");
    assert!(s.metadata.owner_references[0].block_owner_deletion);
    assert_eq!(s.string_data.len(), 1);
    assert_eq!(secret::override_configuration_name(), "clever-operator");
}

#[test]
fn provider_ids_round_trip() {
    for p in [
        AddonProviderId::PostgreSql,
        AddonProviderId::MySql,
        AddonProviderId::MongoDb,
        AddonProviderId::Redis,
        AddonProviderId::ConfigProvider,
        AddonProviderId::KV,
        AddonProviderId::Otoroshi,
    ] {
        let s = p.as_str();
        assert_eq!(AddonProviderId::from_str(s).unwrap(), p);
    }
    assert!(AddonProviderId::from_str("nope").is_err());
    assert_eq!(AddonProviderId::PostgreSql.as_str(), "postgresql-addon");
}

#[test]
fn postgresql_versions_round_trip() {
    for (v, s) in [
        (PostgreSqlVersion::V13, "13"),
        (PostgreSqlVersion::V12, "12"),
        (PostgreSqlVersion::V11, "11"),
        (PostgreSqlVersion::V10, "10"),
        (PostgreSqlVersion::V9dot6, "9.6"),
    ] {
        assert_eq!(v.as_str(), s);
        assert_eq!(PostgreSqlVersion::from_str(s).unwrap(), v);
    }
    assert!(PostgreSqlVersion::from_str("14").is_err());
}

#[test]
fn custom_resource_kinds_parse() {
    assert!(matches!(CustomResource::from_str("PostgreSql"), Ok(CustomResource::PostgreSql)));
    assert!(matches!(CustomResource::from_str("KV"), Ok(CustomResource::KV)));
    assert!(CustomResource::from_str("postgresql").is_err());
    assert_eq!(CustomResource::Otoroshi.finalizer(), "api.clever-cloud.com/otoroshi");
    assert_eq!(CustomResource::KV.finalizer(), "api.clever-cloud.com/materia-kv");
}

#[test]
fn status_classification_by_code() {
    let body = ResponseError { id: 9, message: "boom".to_string(), kind: "error".to_string() };
    assert!(classify_status(200, body.clone()).is_ok());
    assert!(classify_status(299, body.clone()).is_ok());
    match classify_status(503, body.clone()) {
        Err(ClientError::StatusCode(code, b)) => {
            assert_eq!(code, 503);
            assert_eq!(b.id, 9);
        }
        other => panic!("expected a status error, got {:?}", other),
    }
    assert_eq!(body.text(), "got response error 9, boom");
}

#[test]
fn override_secret_decoding() {
    // no data at all
    let r = decode_override(&None, "ns", "clever-operator");
    assert!(matches!(r, Err(OverrideError::SecretData(_, _))));

    // data without the config key
    let data = vec![("other".to_string(), b"zzz".to_vec())];
    let r = decode_override(&Some(data), "ns", "clever-operator");
    assert!(matches!(r, Err(OverrideError::SecretKey(_, _))));

    // a value that is not base64
    let data = vec![("config".to_string(), b"!!not-base64!!".to_vec())];
    let r = decode_override(&Some(data), "ns", "clever-operator");
    assert!(matches!(r, Err(OverrideError::Base64Decode(_, _))));

    // a valid payload comes back decoded
    let payload = b"[api]\ntoken = \"SECRET-REDACTED\"\n";
    let encoded = base64::engine::general_purpose::STANDARD.encode(payload);
    let data = vec![("config".to_string(), encoded.into_bytes())];
    let r = decode_override(&Some(data), "ns", "clever-operator").unwrap();
    assert_eq!(r, payload);
}

#[test]
fn routes_and_levels() {
    assert!(matches!(route("/healthz"), RouteKind::Health));
    assert!(matches!(route("/livez"), RouteKind::Health));
    assert!(matches!(route("/readyz"), RouteKind::Health));
    assert!(matches!(route("/status"), RouteKind::Health));
    assert!(matches!(route("/metrics"), RouteKind::Metrics));
    assert!(matches!(route("/nope"), RouteKind::NotFound));
    assert_eq!(status_code(RouteKind::Health), 200);
    assert_eq!(status_code(RouteKind::NotFound), 404);

    assert!(matches!(level(0), Verbosity::ErrorLevel));
    assert!(matches!(level(2), Verbosity::InfoLevel));
    assert!(matches!(level(9), Verbosity::TraceLevel));
}

#[test]
fn kind_status_accessors() {
    let mut cr = mysql::MySql {
        meta: meta(),
        spec: mysql::MySqlSpec {
            organisation: "orga_x".to_string(),
            options: mysql::MySqlOpts { version: "8".to_string(), encryption: true },
            instance: Instance { region: "par".to_string(), plan: "plan_z".to_string() },
        },
        status: None,
    };
    assert!(cr.get_addon_id().is_none());
    cr.set_addon_id(Some("addon_9".to_string()));
    assert_eq!(cr.get_addon_id().as_deref(), Some("addon_9"));
    cr.set_addon_id(None);
    assert!(cr.get_addon_id().is_none());
    assert_eq!(mysql::MySqlAction::UpsertFinalizer.as_str(), "UpsertFinalizer");
    assert_eq!(mysql::MySqlAction::DeleteAddon.lowercase(), "deleteaddon");
}

#[test]
fn otoroshi_url_accessors() {
    let mut cr = otoroshi::Otoroshi {
        meta: meta(),
        spec: otoroshi::Spec {
            organisation: "orga_x".to_string(),
            options: otoroshi::Opts {},
            instance: Instance { region: "par".to_string(), plan: "plan_o".to_string() },
        },
        status: None,
    };
    assert!(cr.get_url().is_none());
    cr.set_url(Some("https://oto.example".to_string()));
    assert_eq!(cr.get_url().as_deref(), Some("https://oto.example"));
    cr.set_addon_id(Some("addon_o".to_string()));
    assert_eq!(cr.get_url().as_deref(), Some("https://oto.example"));
    assert_eq!(cr.get_addon_id().as_deref(), Some("addon_o"));
    assert_eq!(otoroshi::Action::UpdateUrl.as_str(), "UpdateUrl");
}

#[test]
fn decimal_rendering_is_exact() {
    assert_eq!(dec_string(0), "0");
    assert_eq!(dec_string(7), "7");
    assert_eq!(dec_string(1700000123), "1700000123");
    assert_eq!(dec_string(u64::MAX), "18446744073709551615");
}

#[test]
fn credentials_expose_the_signing_form() {
    let c = Credentials::OAuth1 {
        consumer_key: "ck".to_string(),
        consumer_secret: "cs".to_string(),
        token: "t".to_string(),
        secret: "s".to_string(),
    };
    let signing = c.into_signing().unwrap();
    assert_eq!(signing.consumer_key, "ck");
    assert_eq!(signing.token, "t");
    let b = Credentials::Bearer { token: "t".to_string() };
    assert!(b.into_signing().is_none());
}

#[test]
fn endpoint_paths_are_exact() {
    let e = "https://api.example.com";
    assert_eq!(paths::addons_path(e, "orga_x"), "https://api.example.com/v2/organisations/orga_x/addons");
    assert_eq!(
        paths::addon_path(e, "orga_x", "addon_42"),
        "https://api.example.com/v2/organisations/orga_x/addons/addon_42"
    );
    assert_eq!(
        paths::addon_environment_path(e, "orga_x", "addon_42"),
        "https://api.example.com/v2/organisations/orga_x/addons/addon_42/env"
    );
    assert_eq!(
        paths::provider_plans_path(e, "postgresql-addon", "orga_x"),
        "https://api.example.com/v2/products/addonproviders/postgresql-addon?orga_id=orga_x"
    );
    assert_eq!(
        paths::addon_provider_path(e, "postgresql-addon"),
        "https://api.example.com/v4/addon-providers/postgresql-addon"
    );
    assert_eq!(
        paths::config_provider_environment_path(e, "config_77"),
        "https://api.example.com/v4/addon-providers/config-provider/addons/config_77/environment"
    );
}
