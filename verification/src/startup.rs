use vstd::prelude::*;

use crate::mask::ServerErrorMasking;
use crate::request_id::RequestIdPolicy;

verus! {

/// Whether two texts are equal, character by character.
pub fn text_equals(a: &str, b: &str) -> (r: bool)
    ensures
        r == (a@ == b@),
{
    let n = a.unicode_len();
    if n != b.unicode_len() {
        return false;
    }
    let mut i: usize = 0;
    while i < n
        invariant
            n == a@.len(),
            n == b@.len(),
            i <= n,
            forall|k: int| 0 <= k < i ==> a@[k] == b@[k],
        decreases n - i,
    {
        if a.get_char(i) != b.get_char(i) {
            return false;
        }
        i = i + 1;
    }
    assert(a@ =~= b@);
    true
}

/// The routes that serve the API description.
pub open spec fn openapi_route(path: Seq<char>) -> bool {
    path == "/openapi"@ || path == "/openapi.json"@
}

/// Whether `path` is one of the routes that serve the API description.
pub fn is_openapi_route(path: &str) -> (r: bool)
    ensures
        r == openapi_route(path@),
{
    text_equals(path, "/openapi") || text_equals(path, "/openapi.json")
}

/// The middleware settings of a REST API.
#[derive(Clone, Copy, Debug)]
pub struct RestApiSettings {
    pub request_id_policy: RequestIdPolicy,
    pub mask_server_errors: ServerErrorMasking,
}

impl RestApiSettings {
    /// Generated request ids and unmasked server errors.
    pub fn new() -> (r: Self)
        ensures
            r.request_id_policy is Generate,
            r.mask_server_errors is Disabled,
    {
        RestApiSettings {
            request_id_policy: RequestIdPolicy::Generate,
            mask_server_errors: ServerErrorMasking::Disabled,
        }
    }

    pub fn with_request_id_policy(self, policy: RequestIdPolicy) -> (r: Self)
        ensures
            r.request_id_policy == policy,
            r.mask_server_errors == self.mask_server_errors,
    {
        RestApiSettings { request_id_policy: policy, ..self }
    }

    pub fn with_masked_server_errors(self, masking: ServerErrorMasking) -> (r: Self)
        ensures
            r.mask_server_errors == masking,
            r.request_id_policy == self.request_id_policy,
    {
        RestApiSettings { mask_server_errors: masking, ..self }
    }
}

} // verus!
