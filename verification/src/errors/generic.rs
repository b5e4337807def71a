use vstd::prelude::*;

use crate::errors::JsonErrorStruct;
use crate::json::JsonValue;

verus! {

/// An error response with optional free-form details.
#[derive(Debug)]
pub struct GenericJsonError {
    pub error: JsonErrorStruct,
    pub details: JsonValue,
}

} // verus!
