use vstd::prelude::*;

use crate::domain::{confirmation, ValidationConfirmation, ValidationError, ValidationErrors, Violation};
use crate::json::{Json, JsonValue};

verus! {

/// One rejected input field: where, why, and what was sent.
#[derive(Debug)]
pub struct FieldError {
    pub field: String,
    pub issue: String,
    pub rejected_value: JsonValue,
}

/// The JSON body of a [`FieldError`]: `field`, `issue`, and `rejectedValue`
/// unless that value is `null`.
pub open spec fn field_error_json(e: FieldError) -> Json {
    let base = seq![("field"@, Json::Text(e.field@)), ("issue"@, Json::Text(e.issue@))];
    if e.rejected_value is Null {
        Json::Object(base)
    } else {
        Json::Object(base.push(("rejectedValue"@, e.rejected_value.model())))
    }
}

/// The JSON array of a list of field errors.
pub open spec fn field_errors_json(errors: Seq<FieldError>) -> Json {
    Json::Array(Seq::new(errors.len(), |i: int| field_error_json(errors[i])))
}

/// Two field errors that agree in every field.
pub open spec fn same_field_error(a: FieldError, b: FieldError) -> bool {
    &&& a.field@ == b.field@
    &&& a.issue@ == b.issue@
    &&& a.rejected_value.model() == b.rejected_value.model()
}

/// The content of a [`FieldError`].
pub struct FieldIssue {
    pub field: Seq<char>,
    pub issue: Seq<char>,
    pub rejected: Json,
}

/// The field issues of a sequence of field errors.
pub open spec fn issues_of(errors: Seq<FieldError>) -> Seq<FieldIssue> {
    errors.map_values(|e: FieldError| e.model())
}

/// The field issues that the violations of one field become.
pub open spec fn issues_for_field(field: Seq<char>, violations: Seq<Violation>) -> Seq<FieldIssue> {
    violations.map_values(|v: Violation| FieldIssue { field, issue: v.issue, rejected: v.rejected })
}

impl FieldError {
    pub open spec fn model(self) -> FieldIssue {
        FieldIssue { field: self.field@, issue: self.issue@, rejected: self.rejected_value.model() }
    }

    /// The field error that `error` becomes when reported against `field`.
    pub fn from_validation_error(field: &str, error: ValidationError) -> (r: Self)
        ensures
            r.model() == (FieldIssue {
                field: field@,
                issue: error.model().issue,
                rejected: error.model().rejected,
            }),
    {
        FieldError { field: String::from_str(field), issue: error.issue, rejected_value: error.rejected_value }
    }

    pub fn duplicate(&self) -> (r: Self)
        ensures
            same_field_error(r, *self),
    {
        FieldError {
            field: self.field.clone(),
            issue: self.issue.clone(),
            rejected_value: self.rejected_value.duplicate(),
        }
    }

    pub fn to_json(&self) -> (r: JsonValue)
        ensures
            r.model() == field_error_json(*self),
    {
        let mut members: Vec<(String, JsonValue)> = Vec::new();
        members.push((String::from_str("field"), JsonValue::String(self.field.clone())));
        members.push((String::from_str("issue"), JsonValue::String(self.issue.clone())));
        if !self.rejected_value.is_null() {
            members.push((String::from_str("rejectedValue"), self.rejected_value.duplicate()));
        }
        let r = JsonValue::Object(members);
        assert(r.model()->Object_0 =~= field_error_json(*self)->Object_0) by {
            assert(members[0].1.model() == Json::Text(self.field@));
            assert(members[1].1.model() == Json::Text(self.issue@));
            assert(r.model()->Object_0[0] == field_error_json(*self)->Object_0[0]);
            assert(r.model()->Object_0[1] == field_error_json(*self)->Object_0[1]);
        }
        r
    }
}

/// The field errors collected while validating one request.
#[derive(Debug)]
pub struct FieldErrors(Vec<FieldError>);

impl FieldErrors {
    pub closed spec fn errors(&self) -> Seq<FieldError> {
        self.0@
    }

    /// What the list says, error by error.
    pub open spec fn issues(&self) -> Seq<FieldIssue> {
        issues_of(self.errors())
    }

    pub fn new() -> (r: Self)
        ensures
            r.issues().len() == 0,
    {
        FieldErrors(Vec::new())
    }

    /// A list holding `errors`, in order.
    pub fn from_errors(errors: Vec<FieldError>) -> (r: Self)
        ensures
            r.issues() == issues_of(errors@),
    {
        FieldErrors(errors)
    }

    pub fn into_inner(self) -> (r: Vec<FieldError>)
        ensures
            issues_of(r@) == self.issues(),
    {
        self.0
    }

    pub fn inner(&self) -> (r: &[FieldError])
        ensures
            issues_of(r@) == self.issues(),
    {
        self.0.as_slice()
    }

    /// The list itself, to change in place.
    pub fn inner_mut(&mut self) -> (r: &mut Vec<FieldError>)
        ensures
            issues_of(r@) == old(self).issues(),
            final(self).issues() == issues_of(final(r)@),
    {
        &mut self.0
    }

    pub fn len(&self) -> (r: usize)
        ensures
            r == self.issues().len(),
    {
        self.0.len()
    }

    pub fn is_empty(&self) -> (r: bool)
        ensures
            r == (self.issues().len() == 0),
    {
        self.0.len() == 0
    }

    /// A copy with the same issues.
    pub fn duplicate(&self) -> (r: Self)
        ensures
            r.issues() == self.issues(),
    {
        let mut out: Vec<FieldError> = Vec::new();
        let mut i: usize = 0;
        while i < self.0.len()
            invariant
                i <= self.0.len(),
                out.len() == i,
                forall|k: int| 0 <= k < i ==> #[trigger] out[k].model() == self.0[k].model(),
            decreases self.0.len() - i,
        {
            let e = self.0[i].duplicate();
            out.push(e);
            i = i + 1;
        }
        let r = FieldErrors(out);
        assert(r.issues() =~= self.issues());
        r
    }

    /// Appends the errors of `other` after those of `self`.
    pub fn extend(&mut self, other: Self)
        ensures
            final(self).issues() == old(self).issues() + other.issues(),
    {
        let ghost added = other.issues();
        let mut other = other;
        self.0.append(&mut other.0);
        assert(self.issues() =~= old(self).issues() + added);
    }

    /// Appends the error `issue` about `path`, with the value that was rejected.
    pub fn push(&mut self, path: &str, issue: &str, rejected_value: JsonValue)
        ensures
            final(self).issues() == old(self).issues().push(
                FieldIssue { field: path@, issue: issue@, rejected: rejected_value.model() },
            ),
    {
        let error = FieldError {
            field: String::from_str(path),
            issue: String::from_str(issue),
            rejected_value,
        };
        self.0.push(error);
        assert(self.issues() =~= old(self).issues().push(
            FieldIssue { field: path@, issue: issue@, rejected: rejected_value.model() },
        ));
    }

    /// `Ok` of what `ok_fn` makes when the list is empty, the list otherwise.
    pub fn into_result<T, F: FnOnce(ValidationConfirmation) -> T>(self, ok_fn: F) -> (r: Result<T, Self>)
        requires
            call_requires(ok_fn, (confirmation(),)),
        ensures
            self.issues().len() == 0 <==> r is Ok,
            r matches Ok(t) ==> call_ensures(ok_fn, (confirmation(),), t),
            r matches Err(e) ==> e == self,
    {
        if self.0.len() == 0 {
            match ValidationErrors::new().into_result(ok_fn) {
                Ok(t) => Ok(t),
                Err(_) => Err(self),
            }
        } else {
            Err(self)
        }
    }

    /// The violations of one field, each reported against `field`.
    pub fn from_validation_errors(field: &str, errors: ValidationErrors) -> (r: Self)
        ensures
            r.issues() == issues_for_field(field@, errors.violations()),
    {
        let list = errors.into_inner();
        let mut out: Vec<FieldError> = Vec::new();
        let mut i: usize = 0;
        while i < list.len()
            invariant
                list@ == errors.errors(),
                i <= list.len(),
                out.len() == i,
                forall|k: int|
                    0 <= k < i ==> #[trigger] out[k].model() == (FieldIssue {
                        field: field@,
                        issue: list[k].issue@,
                        rejected: list[k].rejected_value.model(),
                    }),
            decreases list.len() - i,
        {
            let e = ValidationError {
                issue: list[i].issue.clone(),
                rejected_value: list[i].rejected_value.duplicate(),
            };
            let fe = FieldError::from_validation_error(field, e);
            out.push(fe);
            i = i + 1;
        }
        let r = FieldErrors(out);
        assert(r.issues() =~= issues_for_field(field@, errors.violations()));
        r
    }

    /// The errors of all `groups`, one group after the other.
    pub fn from_groups(groups: Vec<FieldErrors>) -> (r: Self)
        ensures
            r.issues() == concat_issues(groups@),
    {
        let mut groups = groups;
        let ghost all = groups@;
        let mut out = FieldErrors::new();
        let ghost mut k: int = 0;
        while groups.len() > 0
            invariant
                0 <= k <= all.len(),
                groups@ == all.skip(k),
                out.issues() == concat_issues(all.take(k)),
            decreases groups.len(),
        {
            let next = groups.remove(0);
            proof {
                assert(next == all[k]);
                assert(all.take(k + 1).drop_last() =~= all.take(k));
                assert(groups@ =~= all.skip(k + 1));
            }
            out.extend(next);
            proof {
                k = k + 1;
            }
        }
        proof {
            assert(all.take(k) =~= all);
        }
        out
    }
}

/// The issues of several lists, one after the other.
pub open spec fn concat_issues(groups: Seq<FieldErrors>) -> Seq<FieldIssue>
    decreases groups.len(),
{
    if groups.len() == 0 {
        Seq::empty()
    } else {
        concat_issues(groups.drop_last()) + groups.last().issues()
    }
}

impl Default for FieldErrors {
    fn default() -> (r: Self)
        ensures
            r.issues().len() == 0,
    {
        FieldErrors::new()
    }
}

impl Clone for FieldError {
    fn clone(&self) -> (r: Self)
        ensures
            r.model() == self.model(),
    {
        self.duplicate()
    }
}

impl Clone for FieldErrors {
    fn clone(&self) -> (r: Self)
        ensures
            r.issues() == self.issues(),
    {
        self.duplicate()
    }
}

/// The JSON array of `errors`, in order.
pub fn field_errors_to_json(errors: &Vec<FieldError>) -> (r: JsonValue)
    ensures
        r.model() == field_errors_json(errors@),
{
    let mut items: Vec<JsonValue> = Vec::new();
    let mut i: usize = 0;
    while i < errors.len()
        invariant
            i <= errors.len(),
            items.len() == i,
            forall|k: int| 0 <= k < i ==> #[trigger] items[k].model() == field_error_json(errors[k]),
        decreases errors.len() - i,
    {
        let item = errors[i].to_json();
        items.push(item);
        i = i + 1;
    }
    let r = JsonValue::Array(items);
    assert(r.model()->Array_0 =~= field_errors_json(errors@)->Array_0) by {
        assert forall|k: int| 0 <= k < errors.len() implies #[trigger] r.model()->Array_0[k]
            == field_errors_json(errors@)->Array_0[k] by {
            assert(items[k].model() == field_error_json(errors[k]));
        }
    }
    r
}

} // verus!

verus! {

/// An error response that lists the rejected fields.
#[derive(Debug)]
pub struct ValidationJsonError {
    pub error: crate::errors::JsonErrorStruct,
    pub field_errors: Vec<FieldError>,
}

} // verus!
