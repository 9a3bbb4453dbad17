//! Cross-origin decisions: whether an origin is allowed, and the headers a
//! permitted preflight request is answered with. The service accepts `POST`
//! only, with the `User-Agent` and `Content-Type` request headers.

use vstd::prelude::*;

use crate::config::{Config, OriginPolicy};

verus! {

/// The one method the service allows cross-origin.
pub const ALLOWED_METHODS: &'static str = "POST";

/// The request headers the service allows cross-origin.
pub const ALLOWED_HEADERS: &'static str = "User-Agent, Content-Type";

/// The permissive headers of a granted preflight response.
#[derive(Debug, Clone, PartialEq, Eq)]
pub struct CorsHeaders {
    pub allow_origin: String,
    pub allow_methods: String,
    pub allow_headers: String,
}

/// Whether the policy admits the origin: any origin under `Any`, and under
/// `AllowList` exactly the listed origin strings.
pub open spec fn spec_origin_allowed(origin: Seq<char>, policy: OriginPolicy) -> bool {
    match policy {
        OriginPolicy::Any => true,
        OriginPolicy::AllowList(list) => exists|i: int|
            0 <= i < list@.len() && #[trigger] list@[i]@ == origin,
    }
}

/// Decide whether an origin may make cross-origin requests.
pub fn origin_allowed(origin: &String, policy: &OriginPolicy) -> (b: bool)
    ensures
        b == spec_origin_allowed(origin@, *policy),
{
    match policy {
        OriginPolicy::Any => true,
        OriginPolicy::AllowList(list) => {
            let mut i: usize = 0;
            while i < list.len()
                invariant
                    *policy == OriginPolicy::AllowList(*list),
                    i <= list.len(),
                    forall|j: int| 0 <= j < i ==> #[trigger] list@[j]@ != origin@,
                decreases list.len() - i,
            {
                if list[i] == *origin {
                    proof {
                        let l = (*policy)->AllowList_0;
                        assert(0 <= i < l@.len() && l@[i as int]@ == origin@);
                    }
                    return true;
                }
                i = i + 1;
            }
            false
        },
    }
}

/// Answer a preflight request: a disallowed origin receives no permissive
/// headers at all; an allowed one receives exactly its own origin echoed,
/// the method `POST`, and the headers `User-Agent, Content-Type`.
pub fn preflight_response(origin: &String, cfg: &Config) -> (r: Option<CorsHeaders>)
    ensures
        r is Some <==> spec_origin_allowed(origin@, cfg.allowed_origins),
        r matches Some(h) ==> {
            &&& h.allow_origin@ == origin@
            &&& h.allow_methods@ == ALLOWED_METHODS@
            &&& h.allow_headers@ == ALLOWED_HEADERS@
        },
{
    if origin_allowed(origin, &cfg.allowed_origins) {
        Some(
            CorsHeaders {
                allow_origin: origin.clone(),
                allow_methods: ALLOWED_METHODS.to_owned(),
                allow_headers: ALLOWED_HEADERS.to_owned(),
            },
        )
    } else {
        None
    }
}

} // verus!
