//! Building outbound requests from a transaction kind and the runtime
//! configuration.
//!
//! A tenant-authenticated endpoint gets the three identification headers
//! plus a content type; an unauthenticated probe gets none. A missing
//! required credential is a fatal configuration error: no partial request
//! is ever produced in its place.

use vstd::prelude::*;
use crate::config::RuntimeConfig;

verus! {

/// The recognized configuration keys.
#[derive(Clone, Copy, PartialEq, Eq, Structural, Debug)]
pub enum ConfigKey {
    Tenant,
    ClientId,
    ClientSecret,
    AdminId,
    AdminSecret,
}

/// A required credential was absent from the runtime configuration.
/// Unrecoverable: the whole run stops, never retries.
#[derive(Clone, Copy, PartialEq, Eq, Structural, Debug)]
pub struct FatalConfigError {
    /// The key that was missing.
    pub missing: ConfigKey,
}

/// The environment-variable name of a configuration key, for diagnostics.
pub open spec fn spec_key_name(k: ConfigKey) -> Seq<char> {
    match k {
        ConfigKey::Tenant => "X_TMS_TENANT"@,
        ConfigKey::ClientId => "X_TMS_CLIENT_ID"@,
        ConfigKey::ClientSecret => "X_TMS_CLIENT_SECRET"@,
        ConfigKey::AdminId => "X_TMS_ADMIN_ID"@,
        ConfigKey::AdminSecret => "X_TMS_ADMIN_SECRET"@,
    }
}

/// The environment-variable name of a configuration key.
pub fn key_name(k: ConfigKey) -> (s: &'static str)
    ensures
        s@ == spec_key_name(k),
{
    match k {
        ConfigKey::Tenant => "X_TMS_TENANT",
        ConfigKey::ClientId => "X_TMS_CLIENT_ID",
        ConfigKey::ClientSecret => "X_TMS_CLIENT_SECRET",
        ConfigKey::AdminId => "X_TMS_ADMIN_ID",
        ConfigKey::AdminSecret => "X_TMS_ADMIN_SECRET",
    }
}

/// The two transactions a scenario can schedule.
#[derive(Clone, Copy, PartialEq, Eq, Structural, Debug)]
pub enum TransactionKind {
    /// Fetch the default test client record; needs tenant authentication.
    ClientFetch,
    /// Probe the service version; needs no authentication.
    VersionProbe,
}

/// An HTTP method of a request this harness issues.
#[derive(Clone, Copy, PartialEq, Eq, Structural, Debug)]
pub enum Method {
    Get,
}

/// A fully specified outbound request: plain values only, handed to the
/// transport layer outside this library.
#[derive(Debug)]
pub struct RequestSpec {
    pub method: Method,
    pub path: String,
    /// Header name/value pairs, in the order they are attached.
    pub headers: Vec<(String, String)>,
    pub body: Option<Vec<u8>>,
}

/// The first required credential missing for this transaction kind, if
/// any: the client fetch needs tenant, client id and client secret, in
/// that order of checking; the version probe needs nothing.
pub open spec fn spec_missing_credential(kind: TransactionKind, cfg: RuntimeConfig) -> Option<ConfigKey> {
    match kind {
        TransactionKind::VersionProbe => Option::None,
        TransactionKind::ClientFetch => {
            if cfg.tenant is None {
                Option::Some(ConfigKey::Tenant)
            } else if cfg.client_id is None {
                Option::Some(ConfigKey::ClientId)
            } else if cfg.client_secret is None {
                Option::Some(ConfigKey::ClientSecret)
            } else {
                Option::None
            }
        },
    }
}

/// The three credentials the authenticated endpoints need are all present.
pub open spec fn spec_creds_ok(cfg: RuntimeConfig) -> bool {
    &&& cfg.tenant is Some
    &&& cfg.client_id is Some
    &&& cfg.client_secret is Some
}

/// With all three credentials present, no transaction kind is ever missing
/// a credential.
pub proof fn lemma_creds_ok_no_missing(cfg: RuntimeConfig)
    requires
        spec_creds_ok(cfg),
    ensures
        forall|kind: TransactionKind| spec_missing_credential(kind, cfg) is None,
{
}

/// Invoking the authenticated client fetch without the client secret is a
/// fatal configuration error naming that key; the unauthenticated version
/// probe never is.
pub proof fn lemma_missing_secret_is_fatal(cfg: RuntimeConfig)
    requires
        cfg.tenant is Some,
        cfg.client_id is Some,
        cfg.client_secret is None,
    ensures
        spec_missing_credential(TransactionKind::ClientFetch, cfg) == Option::Some(
            ConfigKey::ClientSecret,
        ),
        spec_missing_credential(TransactionKind::VersionProbe, cfg) is None,
{
}

/// What a well-built request for this kind looks like, over views.
pub open spec fn spec_request_ok(kind: TransactionKind, cfg: RuntimeConfig, r: RequestSpec) -> bool {
    match kind {
        TransactionKind::VersionProbe => {
            &&& r.method == Method::Get
            &&& r.path@ == "v1/tms/version"@
            &&& r.headers@.len() == 0
            &&& r.body is None
        },
        TransactionKind::ClientFetch => {
            &&& r.method == Method::Get
            &&& r.path@ == "v1/tms/client/testclient1"@
            &&& r.headers@.len() == 4
            &&& r.headers@[0].0@ == "X-TMS-TENANT"@
            &&& r.headers@[0].1@ == cfg.tenant->0@
            &&& r.headers@[1].0@ == "X-TMS-CLIENT-ID"@
            &&& r.headers@[1].1@ == cfg.client_id->0@
            &&& r.headers@[2].0@ == "X-TMS-CLIENT-SECRET"@
            &&& r.headers@[2].1@ == cfg.client_secret->0@
            &&& r.headers@[3].0@ == "Content-Type"@
            &&& r.headers@[3].1@ == "application/json"@
            &&& r.body is None
        },
    }
}

/// Builds the request for one transaction kind from the configuration.
///
/// Returns the fully specified request, or the first missing required
/// credential as a fatal error; it returns `Ok` exactly when no required
/// credential is missing. The version probe never consults credentials.
pub fn build_request(kind: TransactionKind, cfg: &RuntimeConfig) -> (r: Result<RequestSpec, FatalConfigError>)
    ensures
        match r {
            Result::Ok(req) => spec_missing_credential(kind, *cfg) is None
                && spec_request_ok(kind, *cfg, req),
            Result::Err(e) => spec_missing_credential(kind, *cfg) == Option::Some(e.missing),
        },
{
    match kind {
        TransactionKind::VersionProbe => Result::Ok(RequestSpec {
            method: Method::Get,
            path: "v1/tms/version".to_owned(),
            headers: Vec::new(),
            body: Option::None,
        }),
        TransactionKind::ClientFetch => {
            let tenant: &String = match &cfg.tenant {
                Option::Some(t) => t,
                Option::None => {
                    return Result::Err(FatalConfigError { missing: ConfigKey::Tenant });
                },
            };
            let client_id: &String = match &cfg.client_id {
                Option::Some(c) => c,
                Option::None => {
                    return Result::Err(FatalConfigError { missing: ConfigKey::ClientId });
                },
            };
            let client_secret: &String = match &cfg.client_secret {
                Option::Some(c) => c,
                Option::None => {
                    return Result::Err(FatalConfigError { missing: ConfigKey::ClientSecret });
                },
            };
            let mut headers: Vec<(String, String)> = Vec::new();
            headers.push(("X-TMS-TENANT".to_owned(), tenant.clone()));
            headers.push(("X-TMS-CLIENT-ID".to_owned(), client_id.clone()));
            headers.push(("X-TMS-CLIENT-SECRET".to_owned(), client_secret.clone()));
            headers.push(("Content-Type".to_owned(), "application/json".to_owned()));
            Result::Ok(RequestSpec {
                method: Method::Get,
                path: "v1/tms/client/testclient1".to_owned(),
                headers,
                body: Option::None,
            })
        },
    }
}

} // verus!
