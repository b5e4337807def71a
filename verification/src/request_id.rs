use vstd::prelude::*;

use crate::errors::{traced_from, JsonError, RequestMeta};
use crate::http_status::BAD_REQUEST;
use crate::ids::{
    is_hyphenated_text, is_uuid_text, is_version7_text, lemma_uuid_text_parses, lemma_version7_text,
    uuid_now_v7, uuid_text, uuid_text_is_valid,
};

verus! {

/// The name of the header that carries the request id.
pub const HEADER: &'static str = "x-request-id";

/// How incoming request ids are treated.
#[derive(Clone, Copy, PartialEq, Eq, Structural, Debug)]
pub enum RequestIdPolicy {
    /// Refuse a request whose id is present but not a UUID.
    Reject,
    /// Refuse a request whose id is missing or not a UUID.
    Require,
    /// Replace whatever id came with a freshly generated one.
    Generate,
}

impl Default for RequestIdPolicy {
    fn default() -> (r: Self)
        ensures
            r is Generate,
    {
        RequestIdPolicy::Generate
    }
}

/// The request-id header as the request carries it.
#[derive(Debug)]
pub enum RequestIdHeader {
    /// No such header.
    Absent,
    /// A header whose value is not visible ASCII text.
    Unreadable,
    /// A header with this text.
    Text(String),
}

/// What the request-id middleware does with a request.
#[derive(Debug)]
pub enum RequestIdAction {
    /// Set the header to this id, then pass the request on.
    SetHeader(String),
    /// Pass the request on unchanged.
    Forward,
    /// Answer with this error instead of serving the request.
    Reject(JsonError),
}

/// The header holds a UUID.
pub open spec fn header_valid(header: RequestIdHeader) -> bool {
    header matches RequestIdHeader::Text(s) && is_uuid_text(s@)
}

/// Whether `policy` refuses a request that carries `header`.
pub open spec fn rejects(policy: RequestIdPolicy, header: RequestIdHeader) -> bool {
    match policy {
        RequestIdPolicy::Require => !header_valid(header),
        RequestIdPolicy::Reject => !(header is Absent) && !header_valid(header),
        RequestIdPolicy::Generate => false,
    }
}

/// The error answered to a refused request id.
pub open spec fn is_request_id_error(e: JsonError, meta: Option<&RequestMeta>) -> bool {
    e matches JsonError::Generic(g) && g.details is Null && g.error.status_code == BAD_REQUEST
        && g.error.error_code@ == "INVALID_REQUEST_ID"@ && g.error.message@
        == "`x-request-id` must be a valid UUID"@ && traced_from(g.error, meta)
}

/// Decides what happens to a request under `policy`: a freshly generated
/// version-7 UUID is set under `Generate`, whatever the request carried; otherwise the request is refused exactly when
/// [`rejects`] says so, and passed on unchanged when not.
pub fn enforce(policy: RequestIdPolicy, header: &RequestIdHeader, meta: Option<&RequestMeta>) -> (r:
    RequestIdAction)
    ensures
        policy is Generate ==> (r matches RequestIdAction::SetHeader(id) && is_hyphenated_text(id@)
            && is_uuid_text(id@) && is_version7_text(id@)),
        !(policy is Generate) ==> (rejects(policy, *header) <==> r is Reject),
        !(policy is Generate) && !rejects(policy, *header) ==> r is Forward,
        r matches RequestIdAction::Reject(e) ==> is_request_id_error(e, meta),
{
    if policy == RequestIdPolicy::Generate {
        let bits = uuid_now_v7();
        let id = uuid_text(bits);
        proof {
            lemma_uuid_text_parses(bits);
            lemma_version7_text(bits);
        }
        return RequestIdAction::SetHeader(id);
    }
    let present = match header {
        RequestIdHeader::Absent => false,
        _ => true,
    };
    let valid = match header {
        RequestIdHeader::Text(s) => uuid_text_is_valid(s.as_str()),
        _ => false,
    };
    let rejected = match policy {
        RequestIdPolicy::Require => !valid,
        RequestIdPolicy::Reject => present && !valid,
        RequestIdPolicy::Generate => false,
    };
    if rejected {
        return RequestIdAction::Reject(
            JsonError::new(
                BAD_REQUEST,
                "INVALID_REQUEST_ID",
                "`x-request-id` must be a valid UUID",
                meta,
            ),
        );
    }
    RequestIdAction::Forward
}

/// A request that carries a UUID as its id is never refused, whatever the
/// policy.
pub proof fn lemma_valid_id_never_rejected(policy: RequestIdPolicy, header: RequestIdHeader)
    requires
        header_valid(header),
    ensures
        !rejects(policy, header),
{
}

/// Under `Require` a request without the header is refused; under `Reject`
/// it is let through.
pub proof fn lemma_absent_header(policy: RequestIdPolicy)
    ensures
        policy is Require ==> rejects(policy, RequestIdHeader::Absent),
        policy is Reject ==> !rejects(policy, RequestIdHeader::Absent),
{
}

/// `Require` refuses every request that `Reject` refuses.
pub proof fn lemma_require_is_stricter(header: RequestIdHeader)
    ensures
        rejects(RequestIdPolicy::Reject, header) ==> rejects(RequestIdPolicy::Require, header),
{
}

} // verus!
