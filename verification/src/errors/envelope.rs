use vstd::prelude::*;

use crate::clock::{rfc3339_text, timestamp_text, Timestamp};
use crate::errors::validation::{field_errors_json, field_errors_to_json, issues_of, FieldError};
use crate::ids::{uuid_hyphenated, uuid_text};
use crate::json::{Json, JsonValue};

verus! {

/// One optional member of a rendered error body.
#[derive(Clone, Copy, PartialEq, Eq, Structural, Debug)]
pub enum ErrorField {
    TraceId,
    Timestamp,
    Path,
    Details,
}

/// The bit that stands for `field` inside an [`ErrorFields`] set.
pub open spec fn field_bit(field: ErrorField) -> u8 {
    match field {
        ErrorField::TraceId => 0b0001,
        ErrorField::Timestamp => 0b0010,
        ErrorField::Path => 0b0100,
        ErrorField::Details => 0b1000,
    }
}

impl ErrorField {
    pub fn bit(self) -> (b: u8)
        ensures
            b == field_bit(self),
    {
        match self {
            ErrorField::TraceId => 0b0001,
            ErrorField::Timestamp => 0b0010,
            ErrorField::Path => 0b0100,
            ErrorField::Details => 0b1000,
        }
    }
}

/// A set of [`ErrorField`]s, stored as a four-bit mask.
#[derive(Clone, Copy, PartialEq, Eq, Structural, Debug)]
pub struct ErrorFields(u8);

impl ErrorFields {
    #[verifier::type_invariant]
    spec fn well_formed(self) -> bool {
        self.0 <= 0b1111
    }

    /// The raw mask.
    pub closed spec fn mask(self) -> u8 {
        self.0
    }

    /// Whether `field` is a member, as a mathematical predicate.
    pub open spec fn has(self, field: ErrorField) -> bool {
        self.mask() & field_bit(field) != 0
    }

    /// The set of every field, as a value.
    pub closed spec fn full() -> Self {
        ErrorFields(0b1111)
    }

    /// The empty set, as a value.
    pub closed spec fn empty() -> Self {
        ErrorFields(0)
    }

    /// The set with `field` added, as a value.
    pub closed spec fn added(self, field: ErrorField) -> Self {
        ErrorFields(self.0 | field_bit(field))
    }

    /// The set with `field` taken out, as a value.
    pub closed spec fn removed(self, field: ErrorField) -> Self {
        ErrorFields(self.0 & !field_bit(field))
    }

    /// The set of every field.
    pub fn all() -> (r: Self)
        ensures
            r == Self::full(),
            forall|f: ErrorField| r.has(f),
    {
        let r = ErrorFields(0b1111);
        proof {
            assert(0b1111u8 & 0b0001u8 != 0 && 0b1111u8 & 0b0010u8 != 0 && 0b1111u8 & 0b0100u8 != 0
                && 0b1111u8 & 0b1000u8 != 0) by (bit_vector);
        }
        r
    }

    /// The empty set.
    pub fn none() -> (r: Self)
        ensures
            r == Self::empty(),
            forall|f: ErrorField| !r.has(f),
    {
        let r = ErrorFields(0);
        proof {
            assert(0u8 & 0b0001u8 == 0 && 0u8 & 0b0010u8 == 0 && 0u8 & 0b0100u8 == 0 && 0u8
                & 0b1000u8 == 0) by (bit_vector);
        }
        r
    }

    pub fn with(self, field: ErrorField) -> (r: Self)
        ensures
            r == self.added(field),
            r.has(field),
            forall|g: ErrorField| g != field ==> (r.has(g) == self.has(g)),
    {
        proof {
            use_type_invariant(self);
        }
        let b = field.bit();
        let m = self.0;
        proof {
            lemma_bits(m, b);
            assert forall|g: ErrorField| g != field implies ((m | b) & field_bit(g) != 0) == (m
                & field_bit(g) != 0) by {
                lemma_other_bit(m, b, field_bit(g));
            }
        }
        ErrorFields(m | b)
    }

    pub fn without(self, field: ErrorField) -> (r: Self)
        ensures
            r == self.removed(field),
            !r.has(field),
            forall|g: ErrorField| g != field ==> (r.has(g) == self.has(g)),
    {
        proof {
            use_type_invariant(self);
        }
        let b = field.bit();
        let m = self.0;
        proof {
            lemma_bits(m, b);
            assert forall|g: ErrorField| g != field implies ((m & !b) & field_bit(g) != 0) == (m
                & field_bit(g) != 0) by {
                lemma_other_bit(m, b, field_bit(g));
            }
        }
        ErrorFields(m & !b)
    }

    pub fn contains(self, field: ErrorField) -> (r: bool)
        ensures
            r == self.has(field),
    {
        (self.0 & field.bit()) != 0
    }
}

impl Default for ErrorFields {
    fn default() -> (r: Self)
        ensures
            r == ErrorFields::full(),
            forall|f: ErrorField| r.has(f),
    {
        ErrorFields::all()
    }
}

/// Membership after adding: `f.with(x)` holds `y` exactly when `y` is `x`
/// or `f` holds `y`; after taking out, exactly when `y` is not `x` and `f`
/// holds `y`. The full set holds every field and the empty set none.
pub proof fn lemma_error_fields_members(f: ErrorFields, x: ErrorField, y: ErrorField)
    ensures
        f.added(x).has(y) == (y == x || f.has(y)),
        f.removed(x).has(y) == (y != x && f.has(y)),
        ErrorFields::full().has(y),
        !ErrorFields::empty().has(y),
{
    let m = f.mask();
    let b = field_bit(x);
    let c = field_bit(y);
    assert(f.added(x).mask() == m | b);
    assert(f.removed(x).mask() == m & !b);
    assert((m | b) & b != 0 && (m & !b) & b == 0) by (bit_vector)
        requires
            b == 1 || b == 2 || b == 4 || b == 8,
    ;
    if y != x {
        lemma_other_bit(m, b, c);
    }
    assert(0b1111u8 & c != 0 && 0u8 & c == 0) by (bit_vector)
        requires
            c == 1 || c == 2 || c == 4 || c == 8,
    ;
}

/// Adding a field twice adds it once; adding two fields in either order
/// gives the same set.
pub proof fn lemma_with_laws(f: ErrorFields, x: ErrorField, y: ErrorField)
    ensures
        f.added(x).added(x) == f.added(x),
        f.added(x).added(y) == f.added(y).added(x),
{
    let m = f.mask();
    let b = field_bit(x);
    let c = field_bit(y);
    assert((m | b) | b == m | b && (m | b) | c == (m | c) | b) by (bit_vector);
    assert(f.added(x).added(x).mask() == f.added(x).mask());
    assert(f.added(x).added(y).mask() == f.added(y).added(x).mask());
}

/// Taking a field out undoes adding it and the reverse: `f.with(x).without(x)`
/// is `f.without(x)`, and `f.without(x).with(x)` is `f.with(x)`.
pub proof fn lemma_with_without_laws(f: ErrorFields, x: ErrorField)
    ensures
        f.added(x).removed(x) == f.removed(x),
        f.removed(x).added(x) == f.added(x),
        f.removed(x).removed(x) == f.removed(x),
{
    let m = f.mask();
    let b = field_bit(x);
    assert(((m | b) & !b) == (m & !b) && ((m & !b) | b) == (m | b) && ((m & !b) & !b) == (m & !b))
        by (bit_vector);
    assert(f.added(x).removed(x).mask() == f.removed(x).mask());
    assert(f.removed(x).added(x).mask() == f.added(x).mask());
    assert(f.removed(x).removed(x).mask() == f.removed(x).mask());
}

/// What an error response carries before it is rendered into a body.
#[derive(Debug)]
pub struct ErrorData {
    pub status_code: u16,
    pub error_code: String,
    pub message: String,
    pub trace_id: u128,
    pub timestamp: Timestamp,
    pub path: String,
    pub details: JsonValue,
    pub field_errors: Vec<FieldError>,
}

impl ErrorData {
    /// A copy that agrees with `self` in every field.
    pub fn duplicate(&self) -> (r: Self)
        ensures
            r.status_code == self.status_code,
            r.error_code@ == self.error_code@,
            r.message@ == self.message@,
            r.trace_id == self.trace_id,
            r.timestamp == self.timestamp,
            r.path@ == self.path@,
            r.details.model() == self.details.model(),
            issues_of(r.field_errors@) == issues_of(self.field_errors@),
    {
        let mut field_errors: Vec<FieldError> = Vec::new();
        let mut i: usize = 0;
        while i < self.field_errors.len()
            invariant
                i <= self.field_errors.len(),
                field_errors.len() == i,
                forall|k: int| 0 <= k < i ==> #[trigger] field_errors[k].model() == self.field_errors[k].model(),
            decreases self.field_errors.len() - i,
        {
            field_errors.push(self.field_errors[i].duplicate());
            i = i + 1;
        }
        assert(issues_of(field_errors@) =~= issues_of(self.field_errors@));
        ErrorData {
            status_code: self.status_code,
            error_code: self.error_code.clone(),
            message: self.message.clone(),
            trace_id: self.trace_id,
            timestamp: self.timestamp,
            path: self.path.clone(),
            details: self.details.duplicate(),
            field_errors,
        }
    }
}

impl Clone for ErrorData {
    fn clone(&self) -> (r: Self)
        ensures
            r.status_code == self.status_code,
            r.error_code@ == self.error_code@,
            r.message@ == self.message@,
            r.trace_id == self.trace_id,
            r.timestamp == self.timestamp,
            r.path@ == self.path@,
            r.details.model() == self.details.model(),
            issues_of(r.field_errors@) == issues_of(self.field_errors@),
    {
        self.duplicate()
    }
}

/// Renders [`ErrorData`] into a JSON body.
pub trait ErrorEnvelope {
    fn render(&self, data: &ErrorData) -> JsonValue;
}

/// The envelope that writes `code` and `message`, the optional members that
/// `fields` selects, and `fieldErrors` when there are any.
#[derive(Clone, Copy, Debug)]
pub struct DefaultEnvelope {
    pub fields: ErrorFields,
}

/// The JSON of a timestamp: its RFC 3339 text, or `null` where there is none.
pub open spec fn timestamp_json(t: Timestamp) -> Json {
    match rfc3339_text(t.secs, t.nanos) {
        Some(text) => Json::Text(text),
        None => Json::Null,
    }
}

/// The body that [`DefaultEnvelope`] renders, member by member in order.
pub open spec fn envelope_members(fields: ErrorFields, data: ErrorData) -> Seq<(Seq<char>, Json)> {
    let base = seq![("code"@, Json::Text(data.error_code@)), ("message"@, Json::Text(data.message@))];
    let with_trace = if fields.has(ErrorField::TraceId) {
        base.push(("traceId"@, Json::Text(uuid_hyphenated(data.trace_id))))
    } else {
        base
    };
    let with_time = if fields.has(ErrorField::Timestamp) {
        with_trace.push(("timestamp"@, timestamp_json(data.timestamp)))
    } else {
        with_trace
    };
    let with_path = if fields.has(ErrorField::Path) {
        with_time.push(("path"@, Json::Text(data.path@)))
    } else {
        with_time
    };
    let with_details = if fields.has(ErrorField::Details) && !(data.details is Null) {
        with_path.push(("details"@, data.details.model()))
    } else {
        with_path
    };
    if data.field_errors.len() > 0 {
        with_details.push(("fieldErrors"@, field_errors_json(data.field_errors@)))
    } else {
        with_details
    }
}

/// The body has a member named `key`.
pub open spec fn has_member(members: Seq<(Seq<char>, Json)>, key: Seq<char>) -> bool {
    exists|i: int| 0 <= i < members.len() && #[trigger] members[i].0 == key
}

/// What the default envelope promises of every body: `code` and `message`
/// come first, with the error code and message; `traceId`, `timestamp` and
/// `path` are present exactly when selected; `details` exactly when selected
/// and not `null`; `fieldErrors` exactly when there are field errors.
pub proof fn lemma_envelope_members(fields: ErrorFields, data: ErrorData)
    ensures
        envelope_members(fields, data).len() >= 2,
        envelope_members(fields, data)[0] == ("code"@, Json::Text(data.error_code@)),
        envelope_members(fields, data)[1] == ("message"@, Json::Text(data.message@)),
        has_member(envelope_members(fields, data), "traceId"@) <==> fields.has(ErrorField::TraceId),
        has_member(envelope_members(fields, data), "timestamp"@) <==> fields.has(
            ErrorField::Timestamp,
        ),
        has_member(envelope_members(fields, data), "path"@) <==> fields.has(ErrorField::Path),
        has_member(envelope_members(fields, data), "details"@) <==> (fields.has(ErrorField::Details)
            && !(data.details is Null)),
        has_member(envelope_members(fields, data), "fieldErrors"@) <==> data.field_errors.len() > 0,
{
    reveal_strlit("code");
    reveal_strlit("message");
    reveal_strlit("traceId");
    reveal_strlit("timestamp");
    reveal_strlit("path");
    reveal_strlit("details");
    reveal_strlit("fieldErrors");
    let base = seq![("code"@, Json::Text(data.error_code@)), ("message"@, Json::Text(data.message@))];
    let e1 = ("traceId"@, Json::Text(uuid_hyphenated(data.trace_id)));
    let e2 = ("timestamp"@, timestamp_json(data.timestamp));
    let e3 = ("path"@, Json::Text(data.path@));
    let e4 = ("details"@, data.details.model());
    let e5 = ("fieldErrors"@, field_errors_json(data.field_errors@));
    let s1 = if fields.has(ErrorField::TraceId) { base.push(e1) } else { base };
    let s2 = if fields.has(ErrorField::Timestamp) { s1.push(e2) } else { s1 };
    let s3 = if fields.has(ErrorField::Path) { s2.push(e3) } else { s2 };
    let s4 = if fields.has(ErrorField::Details) && !(data.details is Null) { s3.push(e4) } else { s3 };
    let s5 = if data.field_errors.len() > 0 { s4.push(e5) } else { s4 };
    assert(s5 == envelope_members(fields, data));
    let keys = seq!["traceId"@, "timestamp"@, "path"@, "details"@, "fieldErrors"@];
    assert forall|k: int| 0 <= k < 5 implies !has_member(base, #[trigger] keys[k]) by {
        if has_member(base, keys[k]) {
            let i = choose|i: int| 0 <= i < base.len() && #[trigger] base[i].0 == keys[k];
            assert(base[i].0[0] != keys[k][0] || base[i].0[1] != keys[k][1]);
        }
    }
    assert(keys[0] == "traceId"@ && keys[1] == "timestamp"@ && keys[2] == "path"@);
    assert(keys[3] == "details"@ && keys[4] == "fieldErrors"@);
    lemma_push_member(base, e1, "traceId"@);
    lemma_push_member(base, e1, "timestamp"@);
    lemma_push_member(base, e1, "path"@);
    lemma_push_member(base, e1, "details"@);
    lemma_push_member(base, e1, "fieldErrors"@);
    lemma_push_member(s1, e2, "traceId"@);
    lemma_push_member(s1, e2, "timestamp"@);
    lemma_push_member(s1, e2, "path"@);
    lemma_push_member(s1, e2, "details"@);
    lemma_push_member(s1, e2, "fieldErrors"@);
    lemma_push_member(s2, e3, "traceId"@);
    lemma_push_member(s2, e3, "timestamp"@);
    lemma_push_member(s2, e3, "path"@);
    lemma_push_member(s2, e3, "details"@);
    lemma_push_member(s2, e3, "fieldErrors"@);
    lemma_push_member(s3, e4, "traceId"@);
    lemma_push_member(s3, e4, "timestamp"@);
    lemma_push_member(s3, e4, "path"@);
    lemma_push_member(s3, e4, "details"@);
    lemma_push_member(s3, e4, "fieldErrors"@);
    lemma_push_member(s4, e5, "traceId"@);
    lemma_push_member(s4, e5, "timestamp"@);
    lemma_push_member(s4, e5, "path"@);
    lemma_push_member(s4, e5, "details"@);
    lemma_push_member(s4, e5, "fieldErrors"@);
    assert("traceId"@ != "timestamp"@ && "traceId"@ != "path"@ && "traceId"@ != "details"@
        && "traceId"@ != "fieldErrors"@) by {
        assert("traceId"@[1] != "timestamp"@[1]);
    }
    assert("timestamp"@ != "path"@ && "timestamp"@ != "details"@ && "timestamp"@ != "fieldErrors"@) by {
        assert("timestamp"@.len() != "path"@.len());
        assert("timestamp"@.len() != "details"@.len());
        assert("timestamp"@.len() != "fieldErrors"@.len());
    }
    assert("path"@ != "details"@ && "path"@ != "fieldErrors"@ && "details"@ != "fieldErrors"@) by {
        assert("path"@.len() != "details"@.len());
        assert("path"@.len() != "fieldErrors"@.len());
        assert("details"@.len() != "fieldErrors"@.len());
    }
}

proof fn lemma_push_member(s: Seq<(Seq<char>, Json)>, x: (Seq<char>, Json), key: Seq<char>)
    ensures
        has_member(s.push(x), key) <==> (has_member(s, key) || x.0 == key),
{
    let t = s.push(x);
    if has_member(s, key) {
        let i = choose|i: int| 0 <= i < s.len() && #[trigger] s[i].0 == key;
        assert(t[i].0 == key);
    }
    if x.0 == key {
        assert(t[s.len() as int].0 == key);
    }
    if has_member(t, key) {
        let i = choose|i: int| 0 <= i < t.len() && #[trigger] t[i].0 == key;
        if i < s.len() {
            assert(s[i].0 == key);
        }
    }
}

impl DefaultEnvelope {
    pub fn new(fields: ErrorFields) -> (r: Self)
        ensures
            r.fields == fields,
    {
        DefaultEnvelope { fields }
    }
}

impl Default for DefaultEnvelope {
    fn default() -> (r: Self)
        ensures
            r.fields == ErrorFields::full(),
            forall|f: ErrorField| r.fields.has(f),
    {
        DefaultEnvelope { fields: ErrorFields::default() }
    }
}

impl ErrorEnvelope for DefaultEnvelope {
    fn render(&self, data: &ErrorData) -> (r: JsonValue)
        ensures
            r.model() == Json::Object(envelope_members(self.fields, *data)),
    {
        let mut body: Vec<(String, JsonValue)> = Vec::new();
        body.push((String::from_str("code"), JsonValue::String(data.error_code.clone())));
        body.push((String::from_str("message"), JsonValue::String(data.message.clone())));
        if self.fields.contains(ErrorField::TraceId) {
            body.push((String::from_str("traceId"), JsonValue::String(uuid_text(data.trace_id))));
        }
        if self.fields.contains(ErrorField::Timestamp) {
            let value = match timestamp_text(data.timestamp) {
                Some(text) => JsonValue::String(text),
                None => JsonValue::Null,
            };
            body.push((String::from_str("timestamp"), value));
        }
        if self.fields.contains(ErrorField::Path) {
            body.push((String::from_str("path"), JsonValue::String(data.path.clone())));
        }
        if self.fields.contains(ErrorField::Details) && !data.details.is_null() {
            body.push((String::from_str("details"), data.details.duplicate()));
        }
        if data.field_errors.len() > 0 {
            body.push((String::from_str("fieldErrors"), field_errors_to_json(&data.field_errors)));
        }
        let ghost expected = envelope_members(self.fields, *data);
        proof {
            assert(body@.len() == expected.len());
            assert forall|k: int| 0 <= k < body@.len() implies #[trigger] body@[k].0@ == expected[k].0
                && body@[k].1.model() == expected[k].1 by {
                let v = body@[k].1;
                if v is String {
                    assert(v.model() == Json::Text(v->String_0@));
                } else if v is Null {
                    assert(v.model() == Json::Null);
                }
            }
        }
        let r = JsonValue::Object(body);
        assert(r.model()->Object_0 =~= expected);
        r
    }
}

proof fn lemma_bits(m: u8, b: u8)
    requires
        m <= 0b1111,
        b == 1 || b == 2 || b == 4 || b == 8,
    ensures
        (m | b) <= 0b1111,
        (m & !b) <= 0b1111,
        (m | b) & b != 0,
        (m & !b) & b == 0,
{
    assert(m <= 0b1111 && (b == 1 || b == 2 || b == 4 || b == 8) ==> (m | b) <= 0b1111 && (m & !b)
        <= 0b1111 && (m | b) & b != 0 && (m & !b) & b == 0) by (bit_vector);
}

proof fn lemma_other_bit(m: u8, b: u8, c: u8)
    requires
        b == 1 || b == 2 || b == 4 || b == 8,
        c == 1 || c == 2 || c == 4 || c == 8,
        c != b,
    ensures
        ((m | b) & c != 0) == (m & c != 0),
        ((m & !b) & c != 0) == (m & c != 0),
{
    assert((b == 1 || b == 2 || b == 4 || b == 8) && (c == 1 || c == 2 || c == 4 || c == 8) && c
        != b ==> (((m | b) & c != 0) == (m & c != 0)) && (((m & !b) & c != 0) == (m & c != 0)))
        by (bit_vector);
}

} // verus!
