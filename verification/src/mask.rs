use vstd::prelude::*;

use crate::clock::{utc_now, Timestamp};
use crate::errors::envelope::ErrorData;
use crate::http_status::{is_server_error, server_error_spec, INTERNAL_SERVER_ERROR};
use crate::json::JsonValue;

verus! {

/// Whether server errors are masked before they leave the service.
#[derive(Clone, Copy, PartialEq, Eq, Structural, Debug)]
pub enum ServerErrorMasking {
    Enabled,
    Disabled,
}

impl ServerErrorMasking {
    pub fn to_bool(self) -> (r: bool)
        ensures
            r == (self is Enabled),
    {
        match self {
            ServerErrorMasking::Enabled => true,
            ServerErrorMasking::Disabled => false,
        }
    }
}

/// The part of a response that masking reads and writes: its status and
/// the error data attached to it.
#[derive(Debug)]
pub struct MaskedResponse {
    pub status_code: u16,
    pub error_data: Option<ErrorData>,
}

/// The error data that masking puts in place of `original`: a fixed code and
/// message, with the trace id, timestamp and path kept where there were any.
pub open spec fn is_masked_data(masked: ErrorData, original: Option<ErrorData>) -> bool {
    &&& masked.status_code == INTERNAL_SERVER_ERROR
    &&& masked.error_code@ == "INTERNAL_ERROR"@
    &&& masked.message@ == "an internal error occurred"@
    &&& masked.details is Null
    &&& masked.field_errors@.len() == 0
    &&& match original {
        Some(data) => {
            &&& masked.trace_id == data.trace_id
            &&& masked.timestamp == data.timestamp
            &&& masked.path@ == data.path@
        },
        None => {
            &&& masked.trace_id == 0
            &&& masked.path@.len() == 0
        },
    }
}

/// What masking does to a response: a 5xx response becomes a 500 whose error
/// data is masked; any other response is left as it is.
pub open spec fn mask_spec(before: MaskedResponse, after: MaskedResponse) -> bool {
    if server_error_spec(before.status_code) {
        &&& after.status_code == INTERNAL_SERVER_ERROR
        &&& after.error_data matches Some(masked) && is_masked_data(masked, before.error_data)
    } else {
        after == before
    }
}

/// What masking at the instant `now` does: as [`mask_spec`], and a 5xx
/// response without error data gets masked data stamped with `now`.
pub open spec fn mask_at_spec(before: MaskedResponse, now: Timestamp, after: MaskedResponse) -> bool {
    &&& mask_spec(before, after)
    &&& server_error_spec(before.status_code) && before.error_data is None ==> (after.error_data matches Some(
        d,
    ) && d.timestamp == now)
}

/// Masks a server error at the instant `now`: its status becomes 500 and
/// its error data is replaced by a generic one that keeps only trace id,
/// timestamp and path, or that is stamped with `now` when there was none.
pub fn mask_at(response: MaskedResponse, now: Timestamp) -> (r: MaskedResponse)
    ensures
        mask_at_spec(response, now, r),
{
    if !is_server_error(response.status_code) {
        return response;
    }
    let masked = match &response.error_data {
        Some(data) => ErrorData {
            status_code: INTERNAL_SERVER_ERROR,
            error_code: String::from_str("INTERNAL_ERROR"),
            message: String::from_str("an internal error occurred"),
            trace_id: data.trace_id,
            timestamp: data.timestamp,
            path: data.path.clone(),
            details: JsonValue::Null,
            field_errors: Vec::new(),
        },
        None => ErrorData {
            status_code: INTERNAL_SERVER_ERROR,
            error_code: String::from_str("INTERNAL_ERROR"),
            message: String::from_str("an internal error occurred"),
            trace_id: 0,
            timestamp: now,
            path: String::new(),
            details: JsonValue::Null,
            field_errors: Vec::new(),
        },
    };
    MaskedResponse { status_code: INTERNAL_SERVER_ERROR, error_data: Some(masked) }
}

/// Masks a server error: its status becomes 500 and its error data is
/// replaced by a generic one that keeps only trace id, timestamp and path;
/// where there was no error data, the clock is read for the timestamp.
pub fn mask(response: MaskedResponse) -> (r: MaskedResponse)
    ensures
        mask_spec(response, r),
{
    if !is_server_error(response.status_code) {
        return response;
    }
    let now = match &response.error_data {
        Some(data) => data.timestamp,
        None => utc_now(),
    };
    mask_at(response, now)
}

/// The masked data keeps the instant of the error it replaces, and data
/// made where there was none carries the masking instant.
pub proof fn lemma_masked_timestamp(before: MaskedResponse, now: Timestamp, after: MaskedResponse)
    requires
        mask_at_spec(before, now, after),
        server_error_spec(before.status_code),
    ensures
        after.error_data matches Some(d) && d.timestamp == match before.error_data {
            Some(o) => o.timestamp,
            None => now,
        },
{
}

/// Masks the response when masking is enabled, and leaves it alone otherwise.
pub fn server_errors_if(masking: ServerErrorMasking, response: MaskedResponse) -> (r: MaskedResponse)
    ensures
        masking is Enabled ==> mask_spec(response, r),
        masking is Disabled ==> r == response,
{
    if masking.to_bool() {
        mask(response)
    } else {
        response
    }
}

/// Masks the response unconditionally.
pub fn server_errors(response: MaskedResponse) -> (r: MaskedResponse)
    ensures
        mask_spec(response, r),
{
    mask(response)
}

/// Masking twice masks no more than masking once: a masked response is
/// left with the same status, code, message, trace id, timestamp and path.
pub proof fn lemma_mask_idempotent(a: MaskedResponse, b: MaskedResponse, c: MaskedResponse)
    requires
        mask_spec(a, b),
        mask_spec(b, c),
    ensures
        c.status_code == b.status_code,
        server_error_spec(a.status_code) ==> (c.error_data matches Some(d2) && b.error_data matches Some(d1)
            && d2.status_code == d1.status_code && d2.error_code@ == d1.error_code@ && d2.message@
            == d1.message@ && d2.trace_id == d1.trace_id && d2.timestamp == d1.timestamp && d2.path@
            == d1.path@ && d2.details is Null && d2.field_errors@.len() == 0),
        !server_error_spec(a.status_code) ==> c == a,
{
}

} // verus!
