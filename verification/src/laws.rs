//! The service's laws, each proved from the public contracts alone: what
//! every valid body leads to, what never reaches the provider, what a
//! provider failure looks like from outside, and that handling is a
//! function of each request's own body and the shared configuration.

use vstd::prelude::*;

use crate::config::Config;
use crate::json::{is_json, json_has_field, json_str_field};
use crate::launch::LaunchPlan;
use crate::request::spec_body_valid;
use crate::response::{
    spec_launch_succeeded, spec_response_for, HttpResponse, InstanceInfo, ProviderError,
};
use crate::service::{spec_decision_for, RequestDecision};

verus! {

/// Every valid body — one JSON document whose `ami_id` is a string, with
/// `instance_name` as the variant demands — leads to exactly one
/// create-instance call, with minimum and maximum count both fixed at one
/// and the configured instance type.
pub proof fn valid_body_launches_one(b: Seq<u8>, cfg: Config, d: RequestDecision)
    ensures
        spec_decision_for(b, cfg, d) && spec_body_valid(b, cfg) ==> {
            &&& d is CallProvider
            &&& d->CallProvider_0.min_count == 1
            &&& d->CallProvider_0.max_count == 1
            &&& d->CallProvider_0.instance_type@ == cfg.instance_type@
        },
{
}

/// A body that is not one well-formed JSON document never leads to a
/// provider call: the decision is an immediate rejection in the 400 class.
pub proof fn non_json_is_rejected(b: Seq<u8>, cfg: Config, d: RequestDecision)
    ensures
        spec_decision_for(b, cfg, d) && !is_json(b) ==> {
            &&& d matches RequestDecision::Reject(r)
            &&& 400 <= r.status < 500
        },
{
}

/// A body whose `ami_id` is missing or not a string never leads to a
/// provider call: the decision is an immediate rejection in the 400 class.
pub proof fn missing_ami_is_rejected(b: Seq<u8>, cfg: Config, d: RequestDecision)
    ensures
        spec_decision_for(b, cfg, d) && json_str_field(b, "ami_id"@) is None ==> {
            &&& d matches RequestDecision::Reject(r)
            &&& 400 <= r.status < 500
        },
{
}

/// A launch that did not succeed — a provider error, an empty instance
/// list, or a missing or empty identifier — is answered in the 500 class
/// with an empty body: no provider error text is ever part of a response.
pub proof fn provider_failure_is_opaque(
    result: Result<Vec<InstanceInfo>, ProviderError>,
    cfg: Config,
    r: HttpResponse,
)
    ensures
        spec_response_for(result, cfg, r) && !spec_launch_succeeded(result) ==> {
            &&& 500 <= r.status < 600
            &&& r.body@.len() == 0
        },
{
}

/// When tagging is enabled and the body supplies an `instance_name`, the
/// call carries exactly one tag specification, of resource type `instance`
/// and key `Name`, whose value is the supplied name; when the body supplies
/// none, the call carries no tag specification at all.
pub proof fn tagging_follows_request(b: Seq<u8>, cfg: Config, d: RequestDecision)
    ensures
        spec_decision_for(b, cfg, d) ==> (d matches RequestDecision::CallProvider(p) ==> if cfg.tag_enabled
            && json_has_field(b, "instance_name"@) {
            &&& p.tags@.len() == 1
            &&& p.tags@[0].resource_type@ == "instance"@
            &&& p.tags@[0].key@ == "Name"@
            &&& Some(p.tags@[0].value@) == json_str_field(b, "instance_name"@)
        } else {
            p.tags@.len() == 0
        }),
{
}

/// Agreement of two launch plans in every observable part.
pub open spec fn spec_plans_agree(p1: LaunchPlan, p2: LaunchPlan) -> bool {
    &&& p1.image_id@ == p2.image_id@
    &&& p1.instance_type@ == p2.instance_type@
    &&& p1.min_count == p2.min_count
    &&& p1.max_count == p2.max_count
    &&& (p1.key_name matches Some(k1) ==> p2.key_name matches Some(k2) && k1@ == k2@)
    &&& (p1.key_name is None ==> p2.key_name is None)
    &&& p1.tags@.len() == p2.tags@.len()
    &&& forall|i: int|
        0 <= i < p1.tags@.len() ==> {
            &&& #[trigger] p1.tags@[i].resource_type@ == p2.tags@[i].resource_type@
            &&& p1.tags@[i].key@ == p2.tags@[i].key@
            &&& p1.tags@[i].value@ == p2.tags@[i].value@
        }
}

/// The decision is a function of the request's own body and the shared
/// read-only configuration alone: any two decisions for the same body and
/// configuration agree in every observable part, so simultaneous requests
/// each get exactly one call or one rejection of their own, uninfluenced by
/// one another.
pub proof fn decision_is_determined(b: Seq<u8>, cfg: Config, d1: RequestDecision, d2: RequestDecision)
    ensures
        spec_decision_for(b, cfg, d1) && spec_decision_for(b, cfg, d2) ==> match (d1, d2) {
            (RequestDecision::CallProvider(p1), RequestDecision::CallProvider(p2)) => spec_plans_agree(
                p1,
                p2,
            ),
            (RequestDecision::Reject(r1), RequestDecision::Reject(r2)) => r1.status == r2.status
                && r1.body@ == r2.body@,
            _ => false,
        },
{
}

} // verus!
