use vstd::prelude::*;

use crate::errors::{traced_from, JsonError, RequestMeta};
use crate::http_status::{METHOD_NOT_ALLOWED, NOT_FOUND};

verus! {

/// The answer to a request for a route that does not exist.
pub fn fallback_404(meta: Option<&RequestMeta>) -> (r: JsonError)
    ensures
        r matches JsonError::Generic(g) && g.details is Null && g.error.status_code == NOT_FOUND
            && g.error.error_code@ == "NOT_FOUND"@ && g.error.message@
            == "the specified route does not exist"@ && traced_from(g.error, meta),
{
    JsonError::new(NOT_FOUND, "NOT_FOUND", "the specified route does not exist", meta)
}

/// The answer to a request whose method the route does not support.
pub fn fallback_405(meta: Option<&RequestMeta>) -> (r: JsonError)
    ensures
        r matches JsonError::Generic(g) && g.details is Null && g.error.status_code
            == METHOD_NOT_ALLOWED && g.error.error_code@ == "METHOD_NOT_ALLOWED"@ && g.error.message@
            == "the specified route does not support this method"@ && traced_from(g.error, meta),
{
    JsonError::new(
        METHOD_NOT_ALLOWED,
        "METHOD_NOT_ALLOWED",
        "the specified route does not support this method",
        meta,
    )
}

} // verus!
