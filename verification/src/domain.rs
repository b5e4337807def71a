use vstd::prelude::*;

use crate::json::{Json, JsonValue};

verus! {

/// A value as it arrived from outside, before validation.
#[derive(Debug)]
pub enum ExternalInput<T> {
    /// A value of the expected type.
    Typed(T),
    /// A value of another type, kept as it was sent.
    WrongType(JsonValue),
    /// An explicit `null`.
    Null,
    /// No value at all.
    Missing,
}

/// One failed check on a value.
#[derive(Debug)]
pub struct ValidationError {
    pub issue: String,
    pub rejected_value: JsonValue,
}

/// The content of a [`ValidationError`].
pub struct Violation {
    pub issue: Seq<char>,
    pub rejected: Json,
}

impl ValidationError {
    pub open spec fn model(self) -> Violation {
        Violation { issue: self.issue@, rejected: self.rejected_value.model() }
    }
}

/// Proof that validation found no error; only a successful check makes one.
#[derive(Debug)]
pub struct ValidationConfirmation {
    _private: (),
}

/// The confirmation that a successful check hands out.
pub closed spec fn confirmation() -> ValidationConfirmation {
    ValidationConfirmation { _private: () }
}

/// The failed checks on one value.
#[derive(Debug)]
pub struct ValidationErrors(Vec<ValidationError>);

impl ValidationErrors {
    pub open spec fn violations(&self) -> Seq<Violation> {
        self.errors().map_values(|e: ValidationError| e.model())
    }

    pub closed spec fn errors(&self) -> Seq<ValidationError> {
        self.0@
    }

    pub fn new() -> (r: Self)
        ensures
            r.violations().len() == 0,
    {
        ValidationErrors(Vec::new())
    }

    /// A list holding the one error `issue`, about `rejected_value`.
    pub fn with_error(issue: &str, rejected_value: JsonValue) -> (r: Self)
        ensures
            r.violations() == seq![Violation { issue: issue@, rejected: rejected_value.model() }],
    {
        let mut v: Vec<ValidationError> = Vec::new();
        v.push(ValidationError { issue: String::from_str(issue), rejected_value });
        let r = ValidationErrors(v);
        assert(r.violations() =~= seq![Violation { issue: issue@, rejected: rejected_value.model() }]);
        r
    }

    pub fn push(&mut self, error: ValidationError)
        ensures
            final(self).violations() == old(self).violations().push(error.model()),
    {
        self.0.push(error);
        assert(self.violations() =~= old(self).violations().push(error.model()));
    }

    pub fn into_inner(self) -> (r: Vec<ValidationError>)
        ensures
            r@ == self.errors(),
    {
        self.0
    }

    /// `Ok` of what `ok_fn` makes when there is no error, the errors otherwise.
    pub fn into_result<T, F: FnOnce(ValidationConfirmation) -> T>(self, ok_fn: F) -> (r: Result<
        T,
        Self,
    >)
        requires
            call_requires(ok_fn, (confirmation(),)),
        ensures
            self.violations().len() == 0 ==> r is Ok,
            r matches Ok(t) ==> call_ensures(ok_fn, (confirmation(),), t),
            self.violations().len() > 0 ==> r == Err::<T, Self>(self),
    {
        assert(self.violations().len() == self.0@.len());
        if self.0.len() == 0 {
            let c = ValidationConfirmation { _private: () };
            assert(c == confirmation());
            let t = ok_fn(c);
            assert(call_ensures(ok_fn, (c,), t));
            Ok(t)
        } else {
            Err(self)
        }
    }
}

impl Default for ValidationErrors {
    fn default() -> (r: Self)
        ensures
            r.violations().len() == 0,
    {
        ValidationErrors::new()
    }
}

} // verus!
