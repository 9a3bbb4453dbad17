//! Launch-plan construction: the exact inputs of the one create-instance
//! call that a validated request gives rise to. The plan fixes both counts
//! at one and takes the instance type and key-pair name from the deployment
//! configuration, never from the request.

use vstd::prelude::*;

use crate::config::Config;
use crate::request::InstanceRequest;

verus! {

/// One key-value label attached to the created resource.
#[derive(Debug, Clone, PartialEq, Eq)]
pub struct TagSpec {
    /// The kind of resource the label is attached to.
    pub resource_type: String,
    pub key: String,
    pub value: String,
}

/// The full argument list of one create-instance call.
#[derive(Debug, Clone, PartialEq, Eq)]
pub struct LaunchPlan {
    /// Machine-image identifier, exactly as the request carried it.
    pub image_id: String,
    /// The deployment's fixed machine-size class.
    pub instance_type: String,
    pub min_count: i32,
    pub max_count: i32,
    /// The deployment's fixed key-pair name, when one is configured.
    pub key_name: Option<String>,
    /// At most one `Name` label, carrying the request's `instance_name`.
    pub tags: Vec<TagSpec>,
}

/// How a plan relates to the request and configuration it was built from:
/// the image comes from the request, the instance type and key-pair name
/// from the configuration, both counts are one, and there is exactly one
/// `Name` tag of resource type `instance` when tagging is enabled and a name
/// was supplied, otherwise none.
pub open spec fn spec_plan_for(req: InstanceRequest, cfg: Config, p: LaunchPlan) -> bool {
    &&& p.image_id@ == req.ami_id@
    &&& p.instance_type@ == cfg.instance_type@
    &&& p.min_count == 1
    &&& p.max_count == 1
    &&& match cfg.key_pair_name {
        Some(k) => p.key_name matches Some(pk) && pk@ == k@,
        None => p.key_name is None,
    }
    &&& match req.instance_name {
        Some(n) => if cfg.tag_enabled {
            &&& p.tags@.len() == 1
            &&& p.tags@[0].resource_type@ == "instance"@
            &&& p.tags@[0].key@ == "Name"@
            &&& p.tags@[0].value@ == n@
        } else {
            p.tags@.len() == 0
        },
        None => p.tags@.len() == 0,
    }
}

/// Build the create-instance call for a validated request.
pub fn build_launch_plan(req: &InstanceRequest, cfg: &Config) -> (p: LaunchPlan)
    ensures
        spec_plan_for(*req, *cfg, p),
{
    let mut tags: Vec<TagSpec> = Vec::new();
    if cfg.tag_enabled {
        match &req.instance_name {
            Some(n) => {
                tags.push(
                    TagSpec {
                        resource_type: "instance".to_owned(),
                        key: "Name".to_owned(),
                        value: n.clone(),
                    },
                );
            },
            None => {},
        }
    }
    let key_name = match &cfg.key_pair_name {
        Some(k) => Some(k.clone()),
        None => None,
    };
    LaunchPlan {
        image_id: req.ami_id.clone(),
        instance_type: cfg.instance_type.clone(),
        min_count: 1,
        max_count: 1,
        key_name,
        tags,
    }
}

} // verus!
