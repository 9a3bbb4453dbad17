//! Request decoding: the raw HTTP body is validated into an
//! [`InstanceRequest`] before any provider call may be issued, with each
//! rejection reason distinguished.

use vstd::prelude::*;

use crate::config::Config;
use crate::json::{get_field, is_json, json_has_field, json_str_field, parse_json, value_as_str};

verus! {

/// A validated create-instance request.
#[derive(Debug, Clone, PartialEq, Eq)]
pub struct InstanceRequest {
    /// Opaque machine-image identifier, passed through unmodified.
    pub ami_id: String,
    /// Optional human-readable name, applied as a `Name` tag when tagging
    /// is enabled.
    pub instance_name: Option<String>,
}

/// Why a body was rejected before any provider call.
#[derive(Debug, Clone, PartialEq, Eq)]
pub enum RequestError {
    /// The body is not a well-formed JSON document.
    NotJson,
    /// The document has no top-level `ami_id` field.
    MissingAmiId,
    /// The document has an `ami_id` field that is not a string.
    AmiIdNotString,
    /// The variant requires `instance_name` and the document has none.
    MissingInstanceName,
    /// The document has an `instance_name` field that is not a string.
    InstanceNameNotString,
}

/// A body the decoder accepts: one JSON document whose `ami_id` is a string,
/// whose `instance_name` is a string wherever it is present, and is present
/// wherever the configured variant requires it.
pub open spec fn spec_body_valid(b: Seq<u8>, cfg: Config) -> bool {
    &&& is_json(b)
    &&& json_str_field(b, "ami_id"@) is Some
    &&& (cfg.name_required ==> json_str_field(b, "instance_name"@) is Some)
    &&& (json_has_field(b, "instance_name"@) ==> json_str_field(b, "instance_name"@) is Some)
}

/// What the decoder returns on a given body: `Ok` exactly on valid bodies,
/// carrying the body's own field values, and otherwise the first rejection
/// reason in decoding order (document, then `ami_id`, then `instance_name`).
pub open spec fn spec_decoded(b: Seq<u8>, cfg: Config, r: Result<
    InstanceRequest,
    RequestError,
>) -> bool {
    &&& (r is Ok <==> spec_body_valid(b, cfg))
    &&& (r matches Ok(q) ==> {
        &&& Some(q.ami_id@) == json_str_field(b, "ami_id"@)
        &&& match q.instance_name {
            Some(n) => json_str_field(b, "instance_name"@) == Some(n@) && json_has_field(
                b,
                "instance_name"@,
            ),
            None => !json_has_field(b, "instance_name"@),
        }
    })
    &&& (r == Err::<InstanceRequest, RequestError>(RequestError::NotJson) <==> !is_json(b))
    &&& (r == Err::<InstanceRequest, RequestError>(RequestError::MissingAmiId) <==> is_json(b)
        && !json_has_field(b, "ami_id"@))
    &&& (r == Err::<InstanceRequest, RequestError>(RequestError::AmiIdNotString) <==> is_json(b)
        && json_has_field(b, "ami_id"@) && json_str_field(b, "ami_id"@) is None)
    &&& (r == Err::<InstanceRequest, RequestError>(RequestError::MissingInstanceName) <==> is_json(
        b,
    ) && json_str_field(b, "ami_id"@) is Some && cfg.name_required && !json_has_field(
        b,
        "instance_name"@,
    ))
    &&& (r == Err::<InstanceRequest, RequestError>(RequestError::InstanceNameNotString) <==> is_json(
        b,
    ) && json_str_field(b, "ami_id"@) is Some && json_has_field(b, "instance_name"@)
        && json_str_field(b, "instance_name"@) is None)
}

/// Decode and validate a raw request body.
///
/// Accepts exactly the bodies of [`spec_body_valid`]; on rejection the error
/// names the first failing requirement, and no field of the body is kept.
pub fn decode_request(body: &[u8], cfg: &Config) -> (r: Result<InstanceRequest, RequestError>)
    ensures
        spec_decoded(body@, *cfg, r),
{
    let doc = match parse_json(body) {
        Some(d) => d,
        None => {
            return Err(RequestError::NotJson);
        },
    };
    let ami_id = match get_field(&doc, "ami_id") {
        Some(f) => {
            match value_as_str(f) {
                Some(s) => s,
                None => {
                    return Err(RequestError::AmiIdNotString);
                },
            }
        },
        None => {
            return Err(RequestError::MissingAmiId);
        },
    };
    let instance_name = match get_field(&doc, "instance_name") {
        Some(f) => {
            match value_as_str(f) {
                Some(s) => Some(s),
                None => {
                    return Err(RequestError::InstanceNameNotString);
                },
            }
        },
        None => {
            if cfg.name_required {
                return Err(RequestError::MissingInstanceName);
            }
            None
        },
    };
    Ok(InstanceRequest { ami_id, instance_name })
}

} // verus!
