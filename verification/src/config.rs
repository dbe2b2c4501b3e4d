//! Process-wide runtime configuration, resolved once at startup.
//!
//! The caller (outside this library) reads the raw environment values and
//! hands them in as plain optional strings; everything after that point is
//! pure and verified.

use vstd::prelude::*;

verus! {

/// The resolved, immutable run configuration.
///
/// Credential keys are optional: an absent or empty environment value means
/// the key is simply missing, never stored as an empty string. The two
/// boolean toggles default to off and are enabled by any raw value other
/// than exactly `"false"`.
pub struct RuntimeConfig {
    pub tenant: Option<String>,
    pub client_id: Option<String>,
    pub client_secret: Option<String>,
    pub admin_id: Option<String>,
    pub admin_secret: Option<String>,
    pub verbose: bool,
    pub parse_response: bool,
}

/// What a raw credential value resolves to: absent or empty means the key
/// is omitted from the configuration.
pub open spec fn spec_resolved_credential(raw: Option<Seq<char>>) -> Option<Seq<char>> {
    match raw {
        Option::Some(s) => if s.len() == 0 {
            Option::None
        } else {
            Option::Some(s)
        },
        Option::None => Option::None,
    }
}

/// What a raw toggle value resolves to: absent defaults to off, and any
/// value other than exactly `"false"` (case-sensitive) enables the flag.
pub open spec fn spec_resolved_flag(raw: Option<Seq<char>>) -> bool {
    match raw {
        Option::Some(s) => s != "false"@,
        Option::None => false,
    }
}

/// The view of an optional owned string as an optional character sequence.
pub open spec fn opt_view(o: Option<String>) -> Option<Seq<char>> {
    match o {
        Option::Some(s) => Option::Some(s@),
        Option::None => Option::None,
    }
}

/// Resolves one raw credential value: empty means absent.
pub fn resolve_credential(raw: Option<String>) -> (r: Option<String>)
    ensures
        opt_view(r) == spec_resolved_credential(opt_view(raw)),
{
    match raw {
        Option::Some(s) => {
            if s.as_str().is_empty() {
                Option::None
            } else {
                Option::Some(s)
            }
        },
        Option::None => Option::None,
    }
}

/// Resolves one raw toggle value: only the exact literal `"false"` (or an
/// absent value) leaves the flag off.
pub fn resolve_flag(raw: &Option<String>) -> (r: bool)
    ensures
        r == spec_resolved_flag(match *raw {
            Option::Some(ref s) => Option::Some(s@),
            Option::None => Option::<Seq<char>>::None,
        }),
{
    match raw {
        Option::Some(s) => {
            let false_lit: String = "false".to_owned();
            !s.eq(&false_lit)
        },
        Option::None => false,
    }
}

/// Empty means absent: a credential key whose raw environment value is the
/// empty string is omitted from the resulting configuration, exactly as an
/// unset one is.
pub proof fn lemma_empty_means_absent(raw: Seq<char>)
    requires
        raw.len() == 0,
    ensures
        spec_resolved_credential(Option::Some(raw)) is None,
        spec_resolved_credential(Option::Some(raw)) == spec_resolved_credential(
            Option::<Seq<char>>::None,
        ),
{
}

/// Only the exact literal `"false"` (or absence) leaves a toggle off: any
/// other raw value — including strings that merely contain or resemble it —
/// enables the flag.
pub proof fn lemma_flag_policy(raw: Seq<char>)
    ensures
        spec_resolved_flag(Option::Some(raw)) == (raw != "false"@),
        !spec_resolved_flag(Option::<Seq<char>>::None),
{
}

impl RuntimeConfig {
    /// The view of the credential part of the configuration, key by key.
    pub open spec fn tenant_view(self) -> Option<Seq<char>> {
        opt_view(self.tenant)
    }

    pub open spec fn client_id_view(self) -> Option<Seq<char>> {
        opt_view(self.client_id)
    }

    pub open spec fn client_secret_view(self) -> Option<Seq<char>> {
        opt_view(self.client_secret)
    }

    pub open spec fn admin_id_view(self) -> Option<Seq<char>> {
        opt_view(self.admin_id)
    }

    pub open spec fn admin_secret_view(self) -> Option<Seq<char>> {
        opt_view(self.admin_secret)
    }

    /// No credential field ever holds an empty string: absent and empty raw
    /// values are both omitted.
    pub open spec fn wf(self) -> bool {
        &&& (self.tenant is Some ==> self.tenant->0@.len() > 0)
        &&& (self.client_id is Some ==> self.client_id->0@.len() > 0)
        &&& (self.client_secret is Some ==> self.client_secret->0@.len() > 0)
        &&& (self.admin_id is Some ==> self.admin_id->0@.len() > 0)
        &&& (self.admin_secret is Some ==> self.admin_secret->0@.len() > 0)
    }

    /// Builds the configuration from the raw environment values, one
    /// optional string per recognized key.
    ///
    /// Empty credential values are treated as absent; the two toggles are
    /// off only when their raw value is absent or exactly `"false"`.
    pub fn from_env(
        tenant: Option<String>,
        client_id: Option<String>,
        client_secret: Option<String>,
        admin_id: Option<String>,
        admin_secret: Option<String>,
        verbose: Option<String>,
        parse_response: Option<String>,
    ) -> (c: RuntimeConfig)
        ensures
            c.tenant_view() == spec_resolved_credential(opt_view(tenant)),
            c.client_id_view() == spec_resolved_credential(opt_view(client_id)),
            c.client_secret_view() == spec_resolved_credential(opt_view(client_secret)),
            c.admin_id_view() == spec_resolved_credential(opt_view(admin_id)),
            c.admin_secret_view() == spec_resolved_credential(opt_view(admin_secret)),
            c.verbose == spec_resolved_flag(opt_view(verbose)),
            c.parse_response == spec_resolved_flag(opt_view(parse_response)),
            c.wf(),
    {
        let verbose_on = resolve_flag(&verbose);
        let parse_on = resolve_flag(&parse_response);
        RuntimeConfig {
            tenant: resolve_credential(tenant),
            client_id: resolve_credential(client_id),
            client_secret: resolve_credential(client_secret),
            admin_id: resolve_credential(admin_id),
            admin_secret: resolve_credential(admin_secret),
            verbose: verbose_on,
            parse_response: parse_on,
        }
    }
}

/// The resolved configuration as key/value lines for the observability
/// sink at startup.
///
/// Secret values are never echoed: the two secret keys are shown redacted
/// when present, and every absent key is shown as absent rather than
/// empty.
pub fn describe(cfg: &RuntimeConfig) -> (lines: Vec<(&'static str, String)>)
    ensures
        lines@.len() == 7,
        lines@[0].0@ == "X_TMS_TENANT"@,
        lines@[0].1@ == (if cfg.tenant is Some { cfg.tenant->0@ } else { "<absent>"@ }),
        lines@[1].0@ == "X_TMS_CLIENT_ID"@,
        lines@[1].1@ == (if cfg.client_id is Some { cfg.client_id->0@ } else { "<absent>"@ }),
        lines@[2].0@ == "X_TMS_CLIENT_SECRET"@,
        lines@[2].1@ == (if cfg.client_secret is Some { "<redacted>"@ } else { "<absent>"@ }),
        lines@[3].0@ == "X_TMS_ADMIN_ID"@,
        lines@[3].1@ == (if cfg.admin_id is Some { cfg.admin_id->0@ } else { "<absent>"@ }),
        lines@[4].0@ == "X_TMS_ADMIN_SECRET"@,
        lines@[4].1@ == (if cfg.admin_secret is Some { "<redacted>"@ } else { "<absent>"@ }),
        lines@[5].0@ == "TMS_VERBOSE"@,
        lines@[5].1@ == (if cfg.verbose { "true"@ } else { "false"@ }),
        lines@[6].0@ == "TMS_PARSE_RESPONSE"@,
        lines@[6].1@ == (if cfg.parse_response { "true"@ } else { "false"@ }),
{
    let mut lines: Vec<(&'static str, String)> = Vec::new();
    let tenant: String = match &cfg.tenant {
        Option::Some(t) => t.clone(),
        Option::None => "<absent>".to_owned(),
    };
    lines.push(("X_TMS_TENANT", tenant));
    let client_id: String = match &cfg.client_id {
        Option::Some(c) => c.clone(),
        Option::None => "<absent>".to_owned(),
    };
    lines.push(("X_TMS_CLIENT_ID", client_id));
    let client_secret: String = if cfg.client_secret.is_some() {
        "<redacted>".to_owned()
    } else {
        "<absent>".to_owned()
    };
    lines.push(("X_TMS_CLIENT_SECRET", client_secret));
    let admin_id: String = match &cfg.admin_id {
        Option::Some(a) => a.clone(),
        Option::None => "<absent>".to_owned(),
    };
    lines.push(("X_TMS_ADMIN_ID", admin_id));
    let admin_secret: String = if cfg.admin_secret.is_some() {
        "<redacted>".to_owned()
    } else {
        "<absent>".to_owned()
    };
    lines.push(("X_TMS_ADMIN_SECRET", admin_secret));
    let verbose: String = if cfg.verbose {
        "true".to_owned()
    } else {
        "false".to_owned()
    };
    lines.push(("TMS_VERBOSE", verbose));
    let parse_response: String = if cfg.parse_response {
        "true".to_owned()
    } else {
        "false".to_owned()
    };
    lines.push(("TMS_PARSE_RESPONSE", parse_response));
    lines
}

} // verus!
