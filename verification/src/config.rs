//! The application settings and how they are read from the `ARSA_*` variables.
use vstd::prelude::*;

use crate::text::{spec_split, split_char, str_eq};

verus! {

/// The settings of the application.
#[derive(Debug)]
pub struct AppConfig {
    /// The origins allowed to call the API, as written in the setting.
    pub allowed_origins: Vec<String>,
    pub access_role: String,
    pub admin_role: String,
    pub oidc_issuer: String,
    pub oidc_client_id: String,
    pub oidc_client_secret: String,
    pub oidc_callback_uri: String,
    pub oidc_frontend_uri: String,
    pub bind_address: String,
    pub use_volume: bool,
    pub server_volume: String,
    pub repo_volume: String,
}

/// The raw value of each setting; `None` where the variable is not set.
#[derive(Debug)]
pub struct EnvValues {
    /// `ARSA_ALLOWED_ORIGINS`
    pub allowed_origins: Option<String>,
    /// `ARSA_ACCESS_ROLE`
    pub access_role: Option<String>,
    /// `ARSA_ADMIN_ROLE`
    pub admin_role: Option<String>,
    /// `ARSA_BIND_ADDRESS`
    pub bind_address: Option<String>,
    /// `ARSA_OIDC_ISSUER`
    pub oidc_issuer: Option<String>,
    /// `ARSA_OIDC_CLIENT_ID`
    pub oidc_client_id: Option<String>,
    /// `ARSA_OIDC_CLIENT_SECRET`
    pub oidc_client_secret: Option<String>,
    /// `ARSA_OIDC_CALLBACK_URI`
    pub oidc_callback_uri: Option<String>,
    /// `ARSA_OIDC_FRONTEND_URI`
    pub oidc_frontend_uri: Option<String>,
    /// `ARSA_USE_VOLUME`
    pub use_volume: Option<String>,
    /// `ARSA_SERVER_VOLUME`
    pub server_volume: Option<String>,
    /// `ARSA_REPO_VOLUME`
    pub repo_volume: Option<String>,
}

/// What `str::parse::<bool>` accepts: exactly `true` or `false`.
pub open spec fn spec_parse_bool(s: Seq<char>) -> Option<bool> {
    if s == "true"@ {
        Some(true)
    } else if s == "false"@ {
        Some(false)
    } else {
        None
    }
}

/// Reads `true` or `false`, refusing anything else.
pub fn parse_bool(s: &str) -> (r: Option<bool>)
    ensures
        r == spec_parse_bool(s@),
{
    if str_eq(s, "true") {
        Some(true)
    } else if str_eq(s, "false") {
        Some(false)
    } else {
        None
    }
}

/// A setting, or its default where it is not set.
pub open spec fn setting_or(v: Option<String>, default: Seq<char>) -> Seq<char> {
    match v {
        Some(s) => s@,
        None => default,
    }
}

/// Whether the servers live in a volume: the setting read as a boolean (unset means
/// `false`), and anything that is not `true` or `false` means `true`.
pub open spec fn spec_use_volume(v: Option<String>) -> bool {
    match spec_parse_bool(setting_or(v, "false"@)) {
        Some(b) => b,
        None => true,
    }
}

fn string_or(v: Option<String>, default: &str) -> (r: String)
    ensures
        r@ == setting_or(v, default@),
{
    match v {
        Some(s) => s,
        None => default.to_owned(),
    }
}

impl AppConfig {
    /// The settings from the values of the variables.
    pub fn from_values(v: EnvValues) -> (r: AppConfig)
        ensures
            r.allowed_origins@.map_values(|s: String| s@) == match v.allowed_origins {
                Some(o) => spec_split(o@, ';'),
                None => Seq::<Seq<char>>::empty(),
            },
            r.access_role@ == setting_or(v.access_role, ""@),
            r.admin_role@ == setting_or(v.admin_role, ""@),
            r.bind_address@ == setting_or(v.bind_address, "0.0.0.0:3000"@),
            r.oidc_issuer@ == setting_or(v.oidc_issuer, ""@),
            r.oidc_client_id@ == setting_or(v.oidc_client_id, ""@),
            r.oidc_client_secret@ == setting_or(v.oidc_client_secret, ""@),
            r.oidc_callback_uri@ == setting_or(v.oidc_callback_uri, "http://localhost:3000/callback"@),
            r.oidc_frontend_uri@ == setting_or(v.oidc_frontend_uri, "http://localhost:5173/callback"@),
            r.use_volume == spec_use_volume(v.use_volume),
            r.server_volume@ == setting_or(v.server_volume, "arsa-servers-volume"@),
            r.repo_volume@ == setting_or(v.repo_volume, "arsa-repo-volume"@),
    {
        let allowed_origins = match &v.allowed_origins {
            Some(o) => split_char(o.as_str(), ';'),
            None => {
                let e: Vec<String> = Vec::new();
                proof {
                    assert(e@.map_values(|s: String| s@) =~= Seq::<Seq<char>>::empty());
                }
                e
            },
        };
        let use_volume_text = match &v.use_volume {
            Some(s) => s.clone(),
            None => "false".to_owned(),
        };
        let use_volume = match parse_bool(use_volume_text.as_str()) {
            Some(b) => b,
            None => true,
        };
        AppConfig {
            allowed_origins,
            access_role: string_or(v.access_role, ""),
            admin_role: string_or(v.admin_role, ""),
            oidc_issuer: string_or(v.oidc_issuer, ""),
            oidc_client_id: string_or(v.oidc_client_id, ""),
            oidc_client_secret: string_or(v.oidc_client_secret, ""),
            oidc_callback_uri: string_or(v.oidc_callback_uri, "http://localhost:3000/callback"),
            oidc_frontend_uri: string_or(v.oidc_frontend_uri, "http://localhost:5173/callback"),
            bind_address: string_or(v.bind_address, "0.0.0.0:3000"),
            use_volume,
            server_volume: string_or(v.server_volume, "arsa-servers-volume"),
            repo_volume: string_or(v.repo_volume, "arsa-repo-volume"),
        }
    }
}

} // verus!
