use vstd::prelude::*;

use crate::http_status::{NO_CONTENT, OK, SERVICE_UNAVAILABLE};

verus! {

/// The readiness answer of a service: whether every dependency is ready.
#[derive(Clone, Copy, PartialEq, Eq, Structural, Debug)]
pub struct ReadinessResponse {
    pub ready: bool,
}

impl ReadinessResponse {
    pub fn from_status(ready: bool) -> (r: Self)
        ensures
            r.ready == ready,
    {
        ReadinessResponse { ready }
    }

    /// 200 when ready, 503 otherwise.
    pub fn status_code(&self) -> (r: u16)
        ensures
            r == if self.ready {
                OK
            } else {
                SERVICE_UNAVAILABLE
            },
    {
        if self.ready {
            OK
        } else {
            SERVICE_UNAVAILABLE
        }
    }
}

/// The status of the liveness probe: the service answers, with no content.
pub fn live_status() -> (r: u16)
    ensures
        r == NO_CONTENT,
{
    NO_CONTENT
}

} // verus!
