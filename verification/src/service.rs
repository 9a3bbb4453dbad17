//! The per-request state machine: a received body is either rejected at
//! once, or gives rise to exactly one provider call whose outcome is then
//! mapped to the terminal response. The functions here are pure; the server
//! loop around them performs the network call and hands its result back.

use vstd::prelude::*;

use crate::config::Config;
use crate::json::{json_has_field, json_str_field};
use crate::launch::{build_launch_plan, LaunchPlan};
use crate::request::{decode_request, spec_body_valid};
use crate::response::{rejection_response, HttpResponse, STATUS_BAD_REQUEST};

verus! {

/// What a received body leads to: the one create-instance call to issue, or
/// an immediate rejection with no provider call at all.
#[derive(Debug, Clone, PartialEq, Eq)]
pub enum RequestDecision {
    CallProvider(LaunchPlan),
    Reject(HttpResponse),
}

/// How a decision relates to the body and configuration it was made from:
/// valid bodies, and only they, lead to a provider call; the call's plan is
/// built from the body's own fields; a rejection carries status 400 and an
/// empty body.
pub open spec fn spec_decision_for(b: Seq<u8>, cfg: Config, d: RequestDecision) -> bool {
    &&& (d is CallProvider <==> spec_body_valid(b, cfg))
    &&& (d matches RequestDecision::CallProvider(p) ==> {
        &&& p.min_count == 1
        &&& p.max_count == 1
        &&& p.instance_type@ == cfg.instance_type@
        &&& Some(p.image_id@) == json_str_field(b, "ami_id"@)
        &&& match cfg.key_pair_name {
            Some(k) => p.key_name matches Some(pk) && pk@ == k@,
            None => p.key_name is None,
        }
        &&& if cfg.tag_enabled && json_has_field(b, "instance_name"@) {
            &&& p.tags@.len() == 1
            &&& p.tags@[0].resource_type@ == "instance"@
            &&& p.tags@[0].key@ == "Name"@
            &&& Some(p.tags@[0].value@) == json_str_field(b, "instance_name"@)
        } else {
            p.tags@.len() == 0
        }
    })
    &&& (d matches RequestDecision::Reject(r) ==> r.status == STATUS_BAD_REQUEST && r.body@
        == Seq::<char>::empty())
}

/// Decide what a received body leads to: validate it, and on success build
/// the one create-instance call it asks for.
pub fn handle_request(body: &[u8], cfg: &Config) -> (d: RequestDecision)
    ensures
        spec_decision_for(body@, *cfg, d),
{
    match decode_request(body, cfg) {
        Ok(req) => RequestDecision::CallProvider(build_launch_plan(&req, cfg)),
        Err(e) => RequestDecision::Reject(rejection_response(&e)),
    }
}

} // verus!
