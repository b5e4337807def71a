use vstd::prelude::*;

use crate::clock::{utc_now, Timestamp};
use crate::errors::envelope::timestamp_json;
use crate::errors::generic::GenericJsonError;
use crate::errors::validation::{field_errors_json, field_errors_to_json, FieldError, ValidationJsonError};
use crate::ids::{uuid_hyphenated, uuid_text};
use crate::json::{Json, JsonValue};
use crate::clock::{rfc3339_text, timestamp_text};

pub mod envelope;
pub mod generic;
pub mod validation;

verus! {

/// What the request span knows of the request being served.
#[derive(Debug)]
pub struct RequestMeta {
    pub http_route: String,
    pub request_id: Option<u128>,
}

/// The fields shared by every JSON error response.
#[derive(Debug)]
pub struct JsonErrorStruct {
    pub status_code: u16,
    pub error_code: String,
    pub message: String,
    pub trace_id: u128,
    pub timestamp: Timestamp,
    pub path: String,
}

/// A JSON error body of either kind.
#[derive(Debug)]
pub enum JsonError {
    Generic(generic::GenericJsonError),
    Validation(validation::ValidationJsonError),
}

/// The trace id and path that an error takes from the request span: the
/// request id (nil when unknown) and the matched route (`unknown` when none).
pub open spec fn traced_from(e: JsonErrorStruct, meta: Option<&RequestMeta>) -> bool {
    match meta {
        Some(m) => {
            &&& e.path@ == m.http_route@
            &&& e.trace_id == match m.request_id {
                Some(id) => id,
                None => 0u128,
            }
        },
        None => {
            &&& e.path@ == "unknown"@
            &&& e.trace_id == 0
        },
    }
}

/// The JSON members of the shared error fields, in order.
pub open spec fn error_struct_members(e: JsonErrorStruct) -> Seq<(Seq<char>, Json)> {
    seq![
        ("code"@, Json::Text(e.error_code@)),
        ("message"@, Json::Text(e.message@)),
        ("traceId"@, Json::Text(uuid_hyphenated(e.trace_id))),
        ("timestamp"@, timestamp_json(e.timestamp)),
        ("path"@, Json::Text(e.path@)),
    ]
}

/// The JSON body of an error: the shared fields, then `details` (when not
/// `null`) for a generic error or `fieldErrors` for a validation error.
pub open spec fn json_error_body(e: JsonError) -> Json {
    match e {
        JsonError::Generic(g) => if g.details is Null {
            Json::Object(error_struct_members(g.error))
        } else {
            Json::Object(error_struct_members(g.error).push(("details"@, g.details.model())))
        },
        JsonError::Validation(v) => Json::Object(
            error_struct_members(v.error).push(("fieldErrors"@, field_errors_json(v.field_errors@))),
        ),
    }
}

impl JsonErrorStruct {
    /// Builds the shared error fields, taking trace id and path from `meta`
    /// and the timestamp from the clock.
    pub fn new(status_code: u16, error_code: &str, message: &str, meta: Option<&RequestMeta>) -> (r: Self)
        ensures
            r.status_code == status_code,
            r.error_code@ == error_code@,
            r.message@ == message@,
            traced_from(r, meta),
    {
        let (path, trace_id) = match meta {
            Some(m) => (
                m.http_route.clone(),
                match m.request_id {
                    Some(id) => id,
                    None => 0,
                },
            ),
            None => (String::from_str("unknown"), 0),
        };
        JsonErrorStruct {
            status_code,
            error_code: String::from_str(error_code),
            message: String::from_str(message),
            trace_id,
            timestamp: utc_now(),
            path,
        }
    }

    fn members(&self) -> (r: Vec<(String, JsonValue)>)
        ensures
            r@.len() == 5,
            forall|k: int|
                0 <= k < 5 ==> #[trigger] r@[k].0@ == error_struct_members(*self)[k].0
                    && r@[k].1.model() == error_struct_members(*self)[k].1,
    {
        let mut body: Vec<(String, JsonValue)> = Vec::new();
        body.push((String::from_str("code"), JsonValue::String(self.error_code.clone())));
        body.push((String::from_str("message"), JsonValue::String(self.message.clone())));
        body.push((String::from_str("traceId"), JsonValue::String(uuid_text(self.trace_id))));
        let time = match timestamp_text(self.timestamp) {
            Some(text) => JsonValue::String(text),
            None => JsonValue::Null,
        };
        body.push((String::from_str("timestamp"), time));
        body.push((String::from_str("path"), JsonValue::String(self.path.clone())));
        proof {
            assert forall|k: int| 0 <= k < 5 implies #[trigger] body@[k].0@ == error_struct_members(
                *self,
            )[k].0 && body@[k].1.model() == error_struct_members(*self)[k].1 by {
                let v = body@[k].1;
                if v is String {
                    assert(v.model() == Json::Text(v->String_0@));
                } else if v is Null {
                    assert(v.model() == Json::Null);
                }
            }
        }
        body
    }
}

impl JsonError {
    /// A generic error with no details.
    pub fn new(status_code: u16, error_code: &str, message: &str, meta: Option<&RequestMeta>) -> (r: Self)
        ensures
            r matches JsonError::Generic(g) && g.details is Null && g.error.status_code == status_code
                && g.error.error_code@ == error_code@ && g.error.message@ == message@ && traced_from(
                g.error,
                meta,
            ),
    {
        JsonError::Generic(
            generic::GenericJsonError {
                error: JsonErrorStruct::new(status_code, error_code, message, meta),
                details: JsonValue::Null,
            },
        )
    }

    /// A generic error that carries `details`.
    pub fn with_details(
        status_code: u16,
        error_code: &str,
        message: &str,
        details: JsonValue,
        meta: Option<&RequestMeta>,
    ) -> (r: Self)
        ensures
            r matches JsonError::Generic(g) && g.details == details && g.error.status_code == status_code
                && g.error.error_code@ == error_code@ && g.error.message@ == message@ && traced_from(
                g.error,
                meta,
            ),
    {
        JsonError::Generic(
            generic::GenericJsonError {
                error: JsonErrorStruct::new(status_code, error_code, message, meta),
                details,
            },
        )
    }

    /// A generic error that carries `context`, which is rendered as its
    /// details.
    pub fn with_context(
        status_code: u16,
        error_code: &str,
        message: &str,
        context: JsonValue,
        meta: Option<&RequestMeta>,
    ) -> (r: Self)
        ensures
            r matches JsonError::Generic(g) && g.details == context && g.error.status_code == status_code
                && g.error.error_code@ == error_code@ && g.error.message@ == message@ && traced_from(
                g.error,
                meta,
            ),
    {
        JsonError::with_details(status_code, error_code, message, context, meta)
    }

    /// A validation error listing `errors`.
    pub fn validation(
        status_code: u16,
        error_code: &str,
        message: &str,
        errors: Vec<FieldError>,
        meta: Option<&RequestMeta>,
    ) -> (r: Self)
        ensures
            r matches JsonError::Validation(v) && v.field_errors == errors && v.error.status_code
                == status_code && v.error.error_code@ == error_code@ && v.error.message@ == message@
                && traced_from(v.error, meta),
    {
        JsonError::Validation(
            validation::ValidationJsonError {
                error: JsonErrorStruct::new(status_code, error_code, message, meta),
                field_errors: errors,
            },
        )
    }

    /// The shared fields of either kind.
    pub fn inner_struct(&self) -> (r: &JsonErrorStruct)
        ensures
            *r == match *self {
                JsonError::Generic(g) => g.error,
                JsonError::Validation(v) => v.error,
            },
    {
        match self {
            JsonError::Generic(g) => &g.error,
            JsonError::Validation(v) => &v.error,
        }
    }

    /// The JSON body of the error.
    pub fn to_json(&self) -> (r: JsonValue)
        ensures
            r.model() == json_error_body(*self),
    {
        match self {
            JsonError::Generic(g) => {
                let mut body = g.error.members();
                if !g.details.is_null() {
                    body.push((String::from_str("details"), g.details.duplicate()));
                }
                let r = JsonValue::Object(body);
                assert(r.model()->Object_0 =~= json_error_body(*self)->Object_0);
                r
            },
            JsonError::Validation(v) => {
                let mut body = v.error.members();
                body.push((String::from_str("fieldErrors"), field_errors_to_json(&v.field_errors)));
                let r = JsonValue::Object(body);
                assert(r.model()->Object_0 =~= json_error_body(*self)->Object_0);
                r
            },
        }
    }
}

/// The members of a JSON object, and nothing for any other value.
pub open spec fn body_members(body: Json) -> Seq<(Seq<char>, Json)> {
    match body {
        Json::Object(members) => members,
        _ => Seq::empty(),
    }
}

/// The first member of `members` named `key` has the value `v`.
pub open spec fn first_member_is(members: Seq<(Seq<char>, Json)>, key: Seq<char>, v: Json) -> bool {
    exists|i: int|
        0 <= i < members.len() && #[trigger] members[i] == (key, v) && forall|j: int|
            0 <= j < i ==> (#[trigger] members[j]).0 != key
}

/// No member of `members` is named `key`.
pub open spec fn lacks_member(members: Seq<(Seq<char>, Json)>, key: Seq<char>) -> bool {
    forall|i: int| 0 <= i < members.len() ==> (#[trigger] members[i]).0 != key
}

/// The shared fields of an error of either kind.
pub open spec fn shared_fields(e: JsonError) -> JsonErrorStruct {
    match e {
        JsonError::Generic(g) => g.error,
        JsonError::Validation(v) => v.error,
    }
}

proof fn lemma_member_keys_distinct()
    ensures
        "code"@ != "message"@,
        "code"@ != "traceId"@,
        "code"@ != "timestamp"@,
        "code"@ != "path"@,
        "code"@ != "details"@,
        "code"@ != "fieldErrors"@,
        "message"@ != "traceId"@,
        "message"@ != "timestamp"@,
        "message"@ != "path"@,
        "message"@ != "details"@,
        "message"@ != "fieldErrors"@,
        "traceId"@ != "timestamp"@,
        "traceId"@ != "path"@,
        "traceId"@ != "details"@,
        "traceId"@ != "fieldErrors"@,
        "timestamp"@ != "path"@,
        "timestamp"@ != "details"@,
        "timestamp"@ != "fieldErrors"@,
        "path"@ != "details"@,
        "path"@ != "fieldErrors"@,
        "details"@ != "fieldErrors"@,
{
    reveal_strlit("code");
    reveal_strlit("message");
    reveal_strlit("traceId");
    reveal_strlit("timestamp");
    reveal_strlit("path");
    reveal_strlit("details");
    reveal_strlit("fieldErrors");
    assert("code"@.len() == 4 && "message"@.len() == 7 && "traceId"@.len() == 7);
    assert("timestamp"@.len() == 9 && "path"@.len() == 4 && "details"@.len() == 7);
    assert("fieldErrors"@.len() == 11);
    assert("code"@[0] != "path"@[0]);
    assert("message"@[0] != "traceId"@[0]);
    assert("message"@[0] != "details"@[0]);
    assert("traceId"@[0] != "details"@[0]);
}

/// Every JSON error body names its code, message, trace id, timestamp and
/// route: `code` and `message` as given, `traceId` as the hyphenated UUID
/// text of the trace id, `timestamp` as the RFC 3339 text of the error's
/// instant (`null` where chrono has no such instant), and `path` as the
/// route.
pub proof fn lemma_error_body_members(e: JsonError)
    ensures
        json_error_body(e) is Object,
        first_member_is(body_members(json_error_body(e)), "code"@, Json::Text(shared_fields(e).error_code@)),
        first_member_is(body_members(json_error_body(e)), "message"@, Json::Text(shared_fields(e).message@)),
        first_member_is(
            body_members(json_error_body(e)),
            "traceId"@,
            Json::Text(uuid_hyphenated(shared_fields(e).trace_id)),
        ),
        first_member_is(
            body_members(json_error_body(e)),
            "timestamp"@,
            match rfc3339_text(shared_fields(e).timestamp.secs, shared_fields(e).timestamp.nanos) {
                Some(text) => Json::Text(text),
                None => Json::Null,
            },
        ),
        first_member_is(body_members(json_error_body(e)), "path"@, Json::Text(shared_fields(e).path@)),
{
    lemma_member_keys_distinct();
    let s = shared_fields(e);
    let ms = body_members(json_error_body(e));
    let time = match rfc3339_text(s.timestamp.secs, s.timestamp.nanos) {
        Some(text) => Json::Text(text),
        None => Json::Null,
    };
    assert(ms[0] == ("code"@, Json::Text(s.error_code@)));
    assert(ms[1] == ("message"@, Json::Text(s.message@)));
    assert(ms[2] == ("traceId"@, Json::Text(uuid_hyphenated(s.trace_id))));
    assert(ms[3] == ("timestamp"@, time));
    assert(ms[4] == ("path"@, Json::Text(s.path@)));
    assert(forall|j: int| 0 <= j < 1 ==> (#[trigger] ms[j]).0 != "message"@);
    assert forall|j: int| 0 <= j < 2 implies (#[trigger] ms[j]).0 != "traceId"@ by {
        if j == 1 {
        }
    }
    assert forall|j: int| 0 <= j < 3 implies (#[trigger] ms[j]).0 != "timestamp"@ by {
        if j == 1 {
        } else if j == 2 {
        }
    }
    assert forall|j: int| 0 <= j < 4 implies (#[trigger] ms[j]).0 != "path"@ by {
        if j == 1 {
        } else if j == 2 {
        } else if j == 3 {
        }
    }
}

/// A validation error body lists every field error under `fieldErrors`, in
/// order, each as its `field` and `issue`, followed by `rejectedValue`
/// exactly when the rejected value is not `null`; it has no `details`.
pub proof fn lemma_validation_body_field_errors(v: ValidationJsonError)
    ensures
        exists|items: Seq<Json>|
            #[trigger] first_member_is(
                body_members(json_error_body(JsonError::Validation(v))),
                "fieldErrors"@,
                Json::Array(items),
            ) && items.len() == v.field_errors.len() && forall|k: int|
                0 <= k < items.len() ==> #[trigger] items[k] == Json::Object(
                    seq![
                        ("field"@, Json::Text(v.field_errors[k].field@)),
                        ("issue"@, Json::Text(v.field_errors[k].issue@)),
                    ] + if v.field_errors[k].rejected_value is Null {
                        Seq::<(Seq<char>, Json)>::empty()
                    } else {
                        seq![("rejectedValue"@, v.field_errors[k].rejected_value.model())]
                    },
                ),
        lacks_member(body_members(json_error_body(JsonError::Validation(v))), "details"@),
{
    lemma_member_keys_distinct();
    let ms = body_members(json_error_body(JsonError::Validation(v)));
    let arr = field_errors_json(v.field_errors@);
    let items = arr->Array_0;
    assert(ms.len() == 6);
    assert(ms[5] == ("fieldErrors"@, arr));
    assert forall|j: int| 0 <= j < 5 implies (#[trigger] ms[j]).0 != "fieldErrors"@ by {
        if j == 0 {
        } else if j == 1 {
        } else if j == 2 {
        } else if j == 3 {
        } else {
        }
    }
    assert forall|k: int| 0 <= k < items.len() implies #[trigger] items[k] == Json::Object(
        seq![
            ("field"@, Json::Text(v.field_errors[k].field@)),
            ("issue"@, Json::Text(v.field_errors[k].issue@)),
        ] + if v.field_errors[k].rejected_value is Null {
            Seq::<(Seq<char>, Json)>::empty()
        } else {
            seq![("rejectedValue"@, v.field_errors[k].rejected_value.model())]
        },
    ) by {
        let e = v.field_errors[k];
        let base = seq![("field"@, Json::Text(e.field@)), ("issue"@, Json::Text(e.issue@))];
        if e.rejected_value is Null {
            assert(base + Seq::<(Seq<char>, Json)>::empty() =~= base);
        } else {
            assert(base + seq![("rejectedValue"@, e.rejected_value.model())] =~= base.push(
                ("rejectedValue"@, e.rejected_value.model()),
            ));
        }
    }
    assert(first_member_is(ms, "fieldErrors"@, Json::Array(items)));
    assert forall|i: int| 0 <= i < ms.len() implies (#[trigger] ms[i]).0 != "details"@ by {
        if i == 0 {
        } else if i == 1 {
        } else if i == 2 {
        } else if i == 3 {
        } else if i == 4 {
        } else {
        }
    }
}

/// A generic error body carries `details` exactly when its details are not
/// `null`, and then as they are.
pub proof fn lemma_generic_body_details(g: GenericJsonError)
    ensures
        g.details is Null ==> lacks_member(body_members(json_error_body(JsonError::Generic(g))), "details"@),
        !(g.details is Null) ==> first_member_is(
            body_members(json_error_body(JsonError::Generic(g))),
            "details"@,
            g.details.model(),
        ),
        lacks_member(body_members(json_error_body(JsonError::Generic(g))), "fieldErrors"@),
{
    lemma_member_keys_distinct();
    let ms = body_members(json_error_body(JsonError::Generic(g)));
    assert forall|i: int| 0 <= i < ms.len() && i < 5 implies (#[trigger] ms[i]).0 != "details"@
        && ms[i].0 != "fieldErrors"@ by {
        if i == 0 {
        } else if i == 1 {
        } else if i == 2 {
        } else if i == 3 {
        } else {
        }
    }
    if !(g.details is Null) {
        assert(ms[5] == ("details"@, g.details.model()));
    }
}

/// Text that can stand for an internal error.
pub trait InternalErrorStringExt: Sized {
    /// The full text of the error.
    spec fn error_text(&self) -> Seq<char>;

    /// The full text when `is_debug`, and the public text otherwise.
    fn to_internal_error_string_with_debug(self, is_debug: bool, public: &str) -> (r: String)
        ensures
            r@ == if is_debug {
                self.error_text()
            } else {
                public@
            },
    ;
}

impl InternalErrorStringExt for String {
    open spec fn error_text(&self) -> Seq<char> {
        self@
    }

    fn to_internal_error_string_with_debug(self, is_debug: bool, public: &str) -> (r: String) {
        if is_debug {
            self
        } else {
            String::from_str(public)
        }
    }
}

impl<'a> InternalErrorStringExt for &'a str {
    open spec fn error_text(&self) -> Seq<char> {
        (*self)@
    }

    fn to_internal_error_string_with_debug(self, is_debug: bool, public: &str) -> (r: String) {
        if is_debug {
            String::from_str(self)
        } else {
            String::from_str(public)
        }
    }
}

} // verus!
