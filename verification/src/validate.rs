use vstd::prelude::*;

use crate::model::BidRequest;

verus! {

/// Stage-1 structural admission rule: a request is admissible only if it
/// carries a non-empty identifier, a device, and at least one of the two
/// inventory contexts (site or app).
pub open spec fn valid_request(r: BidRequest) -> bool {
    r.id@.len() > 0 && r.device is Some && (r.site is Some || r.app is Some)
}

/// Stage 1 of the pipeline: accepts exactly the structurally valid requests.
///
/// Pure: the result is a function of the request alone.
pub fn validate(r: &BidRequest) -> (ok: bool)
    ensures
        ok == valid_request(*r),
{
    !r.id.as_str().is_empty() && r.device.is_some() && (r.site.is_some() || r.app.is_some())
}

} // verus!
