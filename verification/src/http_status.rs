use vstd::prelude::*;

verus! {

pub const OK: u16 = 200;
pub const NO_CONTENT: u16 = 204;
pub const BAD_REQUEST: u16 = 400;
pub const NOT_FOUND: u16 = 404;
pub const METHOD_NOT_ALLOWED: u16 = 405;
pub const INTERNAL_SERVER_ERROR: u16 = 500;
pub const SERVICE_UNAVAILABLE: u16 = 503;

/// Status codes of the 5xx class.
pub open spec fn server_error_spec(code: u16) -> bool {
    500 <= code && code < 600
}

/// Whether `code` is in the 5xx class, as `http::StatusCode::is_server_error`
/// defines it.
pub fn is_server_error(code: u16) -> (r: bool)
    ensures
        r == server_error_spec(code),
{
    500 <= code && code < 600
}

} // verus!
