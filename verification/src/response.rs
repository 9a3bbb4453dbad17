//! Response mapping: every request ends in exactly one of three terminal
//! outcomes — the body was rejected, the provider call succeeded, or it
//! failed — and each outcome is mapped to a fixed HTTP status, with no
//! provider detail ever reaching the caller.

use vstd::prelude::*;

use crate::config::Config;
use crate::request::RequestError;

verus! {

/// The HTTP status of an accepted request.
pub const STATUS_OK: u16 = 200;

/// The HTTP status of a body rejected before any provider call.
pub const STATUS_BAD_REQUEST: u16 = 400;

/// The HTTP status returned when the upstream provider failed the launch.
pub const STATUS_BAD_GATEWAY: u16 = 502;

/// The fixed success body of the confirmation-message response mode.
pub const CONFIRMATION: &'static str = "Instance created successfully";

/// One created-instance descriptor, as the provider returns it: the
/// identifier may be absent in a degenerate success result.
#[derive(Debug, Clone, PartialEq, Eq)]
pub struct InstanceInfo {
    pub instance_id: Option<String>,
}

/// A provider-side failure; its message is logged, never sent to the caller.
#[derive(Debug, Clone, PartialEq, Eq)]
pub struct ProviderError {
    pub message: String,
}

/// A complete HTTP response of the service.
#[derive(Debug, Clone, PartialEq, Eq)]
pub struct HttpResponse {
    pub status: u16,
    pub body: String,
}

/// A provider result that counts as success: at least one instance came
/// back and the first carries a non-empty identifier.
pub open spec fn spec_launch_succeeded(r: Result<Vec<InstanceInfo>, ProviderError>) -> bool {
    &&& r is Ok
    &&& r->Ok_0@.len() > 0
    &&& r->Ok_0@[0].instance_id is Some
    &&& r->Ok_0@[0].instance_id->0@.len() > 0
}

/// The identifier of a successful result's first instance.
pub open spec fn spec_first_id(r: Result<Vec<InstanceInfo>, ProviderError>) -> Seq<char> {
    r->Ok_0@[0].instance_id->0@
}

/// How the provider's outcome is mapped: status 200 exactly on success, with
/// a body that is the created identifier (identifier-echo mode) or the fixed
/// confirmation string; on any failure — an error, an empty instance list,
/// or a missing or empty identifier — status 502 with an empty body, so that
/// no provider error text is ever part of a response.
pub open spec fn spec_response_for(
    result: Result<Vec<InstanceInfo>, ProviderError>,
    cfg: Config,
    r: HttpResponse,
) -> bool {
    &&& (r.status == STATUS_OK <==> spec_launch_succeeded(result))
    &&& (spec_launch_succeeded(result) ==> r.body@ == if cfg.echo_instance_id {
        spec_first_id(result)
    } else {
        CONFIRMATION@
    })
    &&& (!spec_launch_succeeded(result) ==> r.status == STATUS_BAD_GATEWAY && r.body@ == Seq::<
        char,
    >::empty())
}

/// Map the provider call's outcome to the caller's response.
pub fn provider_response(result: &Result<Vec<InstanceInfo>, ProviderError>, cfg: &Config) -> (r:
    HttpResponse)
    ensures
        spec_response_for(*result, *cfg, r),
{
    match result {
        Ok(instances) => {
            if instances.len() > 0 {
                match &instances[0].instance_id {
                    Some(id) => {
                        if id.as_str().is_empty() {
                            HttpResponse { status: STATUS_BAD_GATEWAY, body: String::new() }
                        } else if cfg.echo_instance_id {
                            HttpResponse { status: STATUS_OK, body: id.clone() }
                        } else {
                            HttpResponse { status: STATUS_OK, body: CONFIRMATION.to_owned() }
                        }
                    },
                    None => HttpResponse { status: STATUS_BAD_GATEWAY, body: String::new() },
                }
            } else {
                HttpResponse { status: STATUS_BAD_GATEWAY, body: String::new() }
            }
        },
        Err(_) => HttpResponse { status: STATUS_BAD_GATEWAY, body: String::new() },
    }
}

/// The response of a body rejected by the decoder: status 400, empty body,
/// whatever the rejection reason was.
pub fn rejection_response(_err: &RequestError) -> (r: HttpResponse)
    ensures
        r.status == STATUS_BAD_REQUEST,
        r.body@ == Seq::<char>::empty(),
{
    HttpResponse { status: STATUS_BAD_REQUEST, body: String::new() }
}

} // verus!
