//! Deployment-time configuration: the fixed launch constants, the response
//! mode, and the CORS origin policy. Loaded once at startup and shared
//! read-only across requests.

use vstd::prelude::*;

verus! {

/// Which origins may make cross-origin requests to the service.
pub enum OriginPolicy {
    /// Any origin is allowed.
    Any,
    /// Only the listed origin strings are allowed.
    AllowList(Vec<String>),
}

/// Deployment constants injected into the request handler.
///
/// `instance_type` and `key_pair_name` are fixed per deployment and are not
/// request parameters. `tag_enabled` and `name_required` select the variant's
/// treatment of the optional `instance_name` field; `echo_instance_id`
/// selects the success-response body (the created identifier, or a fixed
/// confirmation string). `listen_port` and `provider_timeout_secs` are
/// explicit so that neither the socket nor the provider call rests on an
/// implicit library default; the server shell applies them.
pub struct Config {
    pub instance_type: String,
    pub key_pair_name: Option<String>,
    pub tag_enabled: bool,
    pub name_required: bool,
    pub echo_instance_id: bool,
    pub allowed_origins: OriginPolicy,
    pub listen_port: u16,
    pub provider_timeout_secs: Option<u64>,
}

} // verus!
