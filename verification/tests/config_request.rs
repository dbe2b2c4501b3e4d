use tms_loadtest::config::{describe, RuntimeConfig};
use tms_loadtest::request::{build_request, key_name, ConfigKey, Method, TransactionKind};

fn cfg_from(
    tenant: Option<&str>,
    client_id: Option<&str>,
    client_secret: Option<&str>,
    admin_id: Option<&str>,
    admin_secret: Option<&str>,
    verbose: Option<&str>,
    parse_response: Option<&str>,
) -> RuntimeConfig {
    RuntimeConfig::from_env(
        tenant.map(|s| s.to_string()),
        client_id.map(|s| s.to_string()),
        client_secret.map(|s| s.to_string()),
        admin_id.map(|s| s.to_string()),
        admin_secret.map(|s| s.to_string()),
        verbose.map(|s| s.to_string()),
        parse_response.map(|s| s.to_string()),
    )
}

#[test]
fn empty_credential_is_absent() {
    let cfg = cfg_from(Some(""), Some(""), Some(""), Some(""), Some(""), None, None);
    assert!(cfg.tenant.is_none());
    assert!(cfg.client_id.is_none());
    assert!(cfg.client_secret.is_none());
    assert!(cfg.admin_id.is_none());
    assert!(cfg.admin_secret.is_none());
}

#[test]
fn unset_credential_is_absent() {
    let cfg = cfg_from(None, None, None, None, None, None, None);
    assert!(cfg.tenant.is_none());
    assert!(cfg.client_secret.is_none());
    assert!(!cfg.verbose);
    assert!(!cfg.parse_response);
}

#[test]
fn present_credential_is_kept() {
    let cfg = cfg_from(Some("dev"), Some("client1"), Some("sekret"), None, None, None, None);
    assert_eq!(cfg.tenant.as_deref(), Some("dev"));
    assert_eq!(cfg.client_id.as_deref(), Some("client1"));
    assert_eq!(cfg.client_secret.as_deref(), Some("sekret"));
}

#[test]
fn parse_response_only_false_disables() {
    for raw in ["true", "1", "yes", " false", "FALSE", "False", "false "] {
        let cfg = cfg_from(None, None, None, None, None, None, Some(raw));
        assert!(cfg.parse_response, "{raw:?} must enable parsing");
    }
    let off = cfg_from(None, None, None, None, None, None, Some("false"));
    assert!(!off.parse_response);
    let absent = cfg_from(None, None, None, None, None, None, None);
    assert!(!absent.parse_response);
}

#[test]
fn verbose_only_false_disables() {
    for raw in ["true", "0", "no", "verbose"] {
        let cfg = cfg_from(None, None, None, None, None, Some(raw), None);
        assert!(cfg.verbose, "{raw:?} must enable verbose");
    }
    let off = cfg_from(None, None, None, None, None, Some("false"), None);
    assert!(!off.verbose);
}

#[test]
fn describe_redacts_secrets() {
    let cfg = cfg_from(
        Some("dev"),
        Some("client1"),
        Some("sekret"),
        None,
        Some("adminsekret"),
        None,
        Some("true"),
    );
    let lines = describe(&cfg);
    assert_eq!(lines.len(), 7);
    assert_eq!(lines[0], ("X_TMS_TENANT", "dev".to_string()));
    assert_eq!(lines[1], ("X_TMS_CLIENT_ID", "client1".to_string()));
    assert_eq!(lines[2], ("X_TMS_CLIENT_SECRET", "<redacted>".to_string()));
    assert_eq!(lines[3], ("X_TMS_ADMIN_ID", "<absent>".to_string()));
    assert_eq!(lines[4], ("X_TMS_ADMIN_SECRET", "<redacted>".to_string()));
    assert_eq!(lines[5], ("TMS_VERBOSE", "false".to_string()));
    assert_eq!(lines[6], ("TMS_PARSE_RESPONSE", "true".to_string()));
    for (_, v) in &lines {
        assert!(!v.contains("sekret"));
    }
}

#[test]
fn version_probe_needs_no_credentials() {
    let cfg = cfg_from(None, None, None, None, None, None, None);
    let req = build_request(TransactionKind::VersionProbe, &cfg).unwrap();
    assert_eq!(req.method, Method::Get);
    assert_eq!(req.path, "v1/tms/version");
    assert!(req.headers.is_empty());
    assert!(req.body.is_none());
}

#[test]
fn client_fetch_attaches_all_headers() {
    let cfg = cfg_from(Some("dev"), Some("client1"), Some("sekret"), None, None, None, None);
    let req = build_request(TransactionKind::ClientFetch, &cfg).unwrap();
    assert_eq!(req.method, Method::Get);
    assert_eq!(req.path, "v1/tms/client/testclient1");
    assert_eq!(req.headers.len(), 4);
    assert_eq!(req.headers[0], ("X-TMS-TENANT".to_string(), "dev".to_string()));
    assert_eq!(req.headers[1], ("X-TMS-CLIENT-ID".to_string(), "client1".to_string()));
    assert_eq!(req.headers[2], ("X-TMS-CLIENT-SECRET".to_string(), "sekret".to_string()));
    assert_eq!(
        req.headers[3],
        ("Content-Type".to_string(), "application/json".to_string())
    );
    assert!(req.body.is_none());
}

#[test]
fn client_fetch_missing_tenant_is_fatal() {
    let cfg = cfg_from(None, Some("client1"), Some("sekret"), None, None, None, None);
    let err = build_request(TransactionKind::ClientFetch, &cfg).unwrap_err();
    assert_eq!(err.missing, ConfigKey::Tenant);
    assert_eq!(key_name(err.missing), "X_TMS_TENANT");
}

#[test]
fn client_fetch_missing_secret_is_fatal() {
    let cfg = cfg_from(Some("dev"), Some("client1"), None, None, None, None, None);
    let err = build_request(TransactionKind::ClientFetch, &cfg).unwrap_err();
    assert_eq!(err.missing, ConfigKey::ClientSecret);
    assert_eq!(key_name(err.missing), "X_TMS_CLIENT_SECRET");
}

#[test]
fn key_names_match_environment_variables() {
    assert_eq!(key_name(ConfigKey::Tenant), "X_TMS_TENANT");
    assert_eq!(key_name(ConfigKey::ClientId), "X_TMS_CLIENT_ID");
    assert_eq!(key_name(ConfigKey::ClientSecret), "X_TMS_CLIENT_SECRET");
    assert_eq!(key_name(ConfigKey::AdminId), "X_TMS_ADMIN_ID");
    assert_eq!(key_name(ConfigKey::AdminSecret), "X_TMS_ADMIN_SECRET");
}
