use vstd::prelude::*;

use crate::domain::{ExternalInput, ValidationConfirmation, ValidationErrors};
use crate::errors::validation::{issues_for_field, FieldErrors, FieldIssue};
use crate::user_input::{external_of, UserInput};
use crate::validation::parseable::{field_text, prefix_spec, Parseable};

verus! {

pub type ValidatorResult<T> = Result<T, FieldErrors>;

/// The issues collected so far, after one more result is taken in.
pub open spec fn accumulated<T>(before: Seq<FieldIssue>, result: ValidatorResult<T>) -> Seq<FieldIssue> {
    match result {
        Ok(_) => before,
        Err(e) => before + e.issues(),
    }
}

/// The result that converting a field gives: the value, or the violations
/// reported against the field.
pub open spec fn converted<T>(field: Seq<char>, conversion: Result<T, ValidationErrors>, result:
    ValidatorResult<T>) -> bool {
    match conversion {
        Ok(t) => result == Ok::<T, FieldErrors>(t),
        Err(ve) => result matches Err(e) && e.issues() == issues_for_field(field, ve.violations()),
    }
}

/// The text of an optional borrowed field name: the name, or nothing.
pub open spec fn field_name(field: Option<&str>) -> Seq<char> {
    match field {
        Some(f) => f@,
        None => Seq::empty(),
    }
}

/// Every issue that validating a nested value reports under a named field
/// carries a path that starts with that name: the inner path after a `.`,
/// or the name alone for an issue of the value itself.
pub proof fn lemma_nested_paths_under_field<T>(field: Seq<char>, p: ValidatorResult<T>, r: ValidatorResult<T>)
    requires
        prefix_spec(field, p, r),
    ensures
        p is Ok <==> r is Ok,
        r matches Err(e) ==> forall|i: int|
            0 <= i < e.issues().len() ==> #[trigger] e.issues()[i].field.len() >= field.len()
                && e.issues()[i].field.take(field.len() as int) == field,
        r matches Err(e) ==> p matches Err(e0) && e0.issues().len() == e.issues().len() && forall|i: int|
            0 <= i < e.issues().len() && e0.issues()[i].field.len() > 0 ==> #[trigger] e.issues()[i].field
                == field + "."@ + e0.issues()[i].field,
{
    if let Err(e) = r {
        let e0 = p->Err_0;
        assert forall|i: int| 0 <= i < e.issues().len() implies #[trigger] e.issues()[i].field.len()
            >= field.len() && e.issues()[i].field.take(field.len() as int) == field by {
            let inner = e0.issues()[i].field;
            if inner.len() > 0 {
                assert((field + "."@ + inner).take(field.len() as int) =~= field);
            } else {
                assert(field.take(field.len() as int) =~= field);
            }
        }
    }
}

/// The outcome of validating one field, whose issues are also recorded in
/// a shared list.
#[derive(Debug)]
pub struct Validator<T> {
    inner: ValidatorResult<T>,
}

impl<T> Validator<T> {
    pub closed spec fn outcome(&self) -> ValidatorResult<T> {
        self.inner
    }

    /// Keeps `result`, adding its issues, if any, to `errors`.
    pub fn from_result(result: ValidatorResult<T>, errors: &mut FieldErrors) -> (r: Self)
        ensures
            r.outcome() == result,
            final(errors).issues() == accumulated(old(errors).issues(), result),
    {
        match &result {
            Ok(_) => {},
            Err(e) => errors.extend(e.duplicate()),
        }
        Validator { inner: result }
    }

    /// Applies `f` to the value, if there is one.
    pub fn map<U, F: FnOnce(T) -> U>(self, f: F) -> (r: Validator<U>)
        requires
            self.outcome() matches Ok(t) ==> call_requires(f, (t,)),
        ensures
            self.outcome() matches Ok(t) ==> (r.outcome() matches Ok(u) && call_ensures(f, (t,), u)),
            self.outcome() matches Err(e) ==> (r.outcome() matches Err(e2) && e2 == e),
    {
        match self.inner {
            Ok(t) => Validator { inner: Ok(f(t)) },
            Err(e) => Validator { inner: Err(e) },
        }
    }

    /// Converts a required field with `convert`, reporting its violations
    /// against `field`.
    pub fn required<F, C: FnOnce(ExternalInput<F>) -> Result<T, ValidationErrors>>(
        field: &str,
        input: UserInput<F>,
        convert: C,
        errors: &mut FieldErrors,
    ) -> (r: Self)
        requires
            call_requires(convert, (external_of(input),)),
        ensures
            exists|c: Result<T, ValidationErrors>|
                call_ensures(convert, (external_of(input),), c) && converted(field@, c, r.outcome()),
            final(errors).issues() == accumulated(old(errors).issues(), r.outcome()),
    {
        let ghost ext = external_of(input);
        let c = convert(input.into_external());
        let result = match c {
            Ok(t) => Ok(t),
            Err(ve) => Err(FieldErrors::from_validation_errors(field, ve)),
        };
        let r = Validator::from_result(result, errors);
        assert(call_ensures(convert, (ext,), c) && converted(field@, c, r.outcome()));
        r
    }

    /// Parses a nested value, reporting its issues under `field`.
    pub fn nested<P: Parseable<T>>(field: Option<&str>, input: P, errors: &mut FieldErrors) -> (r: Self)
        ensures
            exists|p: ValidatorResult<T>|
                #[trigger] input.parses_to(p) && prefix_spec(field_name(field), p, r.outcome()),
            final(errors).issues() == accumulated(old(errors).issues(), r.outcome()),
    {
        let name = match field {
            Some(f) => Some(String::from_str(f)),
            None => None,
        };
        assert(field_text(name) == field_name(field));
        let parsed = input.parse_field(name);
        Validator::from_result(parsed, errors)
    }

    /// The value, once validation has been confirmed to have found no issue.
    pub fn validated(self, confirmation: ValidationConfirmation) -> (r: T)
        requires
            self.outcome() is Ok,
        ensures
            self.outcome() == Ok::<T, FieldErrors>(r),
    {
        match self.inner {
            Ok(t) => t,
            Err(_) => vstd::pervasive::unreached(),
        }
    }

    /// All values when every validator succeeded, else the first failure.
    pub fn from_validators(validators: Vec<Validator<T>>) -> (r: Validator<Vec<T>>)
        ensures
            (forall|i: int| 0 <= i < validators.len() ==> #[trigger] validators[i].outcome() is Ok) ==> (
            r.outcome() matches Ok(v) && v.len() == validators.len() && forall|i: int|
                0 <= i < validators.len() ==> validators[i].outcome() == Ok::<T, FieldErrors>(
                    #[trigger] v[i],
                )),
            r.outcome() matches Err(e) ==> exists|i: int|
                0 <= i < validators.len() && validators[i].outcome() == Err::<T, FieldErrors>(e)
                    && forall|k: int| 0 <= k < i ==> #[trigger] validators[k].outcome() is Ok,
    {
        let ghost all = validators@;
        let mut rest = validators;
        let mut values: Vec<T> = Vec::new();
        let ghost mut k: int = 0;
        while rest.len() > 0
            invariant
                all == validators@,
                0 <= k <= all.len(),
                rest@ == all.skip(k),
                values.len() == k,
                forall|i: int| 0 <= i < k ==> all[i].outcome() == Ok::<T, FieldErrors>(#[trigger] values[i]),
            decreases rest.len(),
        {
            let next = rest.remove(0);
            proof {
                assert(next == all[k]);
                assert(rest@ =~= all.skip(k + 1));
            }
            match next.inner {
                Ok(t) => values.push(t),
                Err(e) => {
                    let r = Validator { inner: Err(e) };
                    proof {
                        assert(all[k].outcome() == Err::<T, FieldErrors>(e));
                        assert(r.outcome() == Err::<Vec<T>, FieldErrors>(e));
                        assert forall|j: int| 0 <= j < k implies #[trigger] all[j].outcome() is Ok by {
                            assert(all[j].outcome() == Ok::<T, FieldErrors>(values[j]));
                        }
                    }
                    return r;
                },
            }
            proof {
                k = k + 1;
            }
        }
        proof {
            assert(all.skip(k).len() == 0);
        }
        Validator { inner: Ok(values) }
    }
}

impl<T> Validator<Option<T>> {
    /// A required field that may be `null`, which gives `None`.
    pub fn required_nullable<F, C: FnOnce(ExternalInput<F>) -> Result<T, ValidationErrors>>(
        field: &str,
        input: UserInput<F>,
        convert: C,
        errors: &mut FieldErrors,
    ) -> (r: Self)
        requires
            !(input is Null) ==> call_requires(convert, (external_of(input),)),
        ensures
            input is Null ==> r.outcome() == Ok::<Option<T>, FieldErrors>(None),
            !(input is Null) ==> exists|c: Result<T, ValidationErrors>|
                call_ensures(convert, (external_of(input),), c) && converted(field@, as_some(c), r.outcome()),
            final(errors).issues() == accumulated(old(errors).issues(), r.outcome()),
    {
        let ghost ext = external_of(input);
        match input {
            UserInput::Null => Validator { inner: Ok(None) },
            input => {
                let v = Validator::<T>::required(field, input, convert, errors);
                let ghost c = choose|c: Result<T, ValidationErrors>|
                    call_ensures(convert, (ext,), c) && converted(field@, c, v.outcome());
                let r = Validator { inner: lift(v.inner) };
                assert(call_ensures(convert, (ext,), c) && converted(field@, as_some(c), r.outcome()));
                r
            },
        }
    }

    /// An optional field, which gives `None` when left out.
    pub fn optional<F, C: FnOnce(ExternalInput<F>) -> Result<T, ValidationErrors>>(
        field: &str,
        input: UserInput<F>,
        convert: C,
        errors: &mut FieldErrors,
    ) -> (r: Self)
        requires
            !(input is Missing) ==> call_requires(convert, (external_of(input),)),
        ensures
            input is Missing ==> r.outcome() == Ok::<Option<T>, FieldErrors>(None),
            !(input is Missing) ==> exists|c: Result<T, ValidationErrors>|
                call_ensures(convert, (external_of(input),), c) && converted(field@, as_some(c), r.outcome()),
            final(errors).issues() == accumulated(old(errors).issues(), r.outcome()),
    {
        let ghost ext = external_of(input);
        match input {
            UserInput::Missing => Validator { inner: Ok(None) },
            input => {
                let v = Validator::<T>::required(field, input, convert, errors);
                let ghost c = choose|c: Result<T, ValidationErrors>|
                    call_ensures(convert, (ext,), c) && converted(field@, c, v.outcome());
                let r = Validator { inner: lift(v.inner) };
                assert(call_ensures(convert, (ext,), c) && converted(field@, as_some(c), r.outcome()));
                r
            },
        }
    }
}

impl<T> Validator<Option<Option<T>>> {
    /// An optional field that may be `null`: `None` when left out,
    /// `Some(None)` for `null`.
    pub fn optional_nullable<F, C: FnOnce(ExternalInput<F>) -> Result<T, ValidationErrors>>(
        field: &str,
        input: UserInput<F>,
        convert: C,
        errors: &mut FieldErrors,
    ) -> (r: Self)
        requires
            !(input is Missing) && !(input is Null) ==> call_requires(convert, (external_of(input),)),
        ensures
            input is Missing ==> r.outcome() == Ok::<Option<Option<T>>, FieldErrors>(None),
            input is Null ==> r.outcome() == Ok::<Option<Option<T>>, FieldErrors>(Some(None)),
            !(input is Missing) && !(input is Null) ==> exists|c: Result<T, ValidationErrors>|
                call_ensures(convert, (external_of(input),), c) && converted(
                    field@,
                    as_some(as_some(c)),
                    r.outcome(),
                ),
            final(errors).issues() == accumulated(old(errors).issues(), r.outcome()),
    {
        let ghost ext = external_of(input);
        match input {
            UserInput::Missing => Validator { inner: Ok(None) },
            UserInput::Null => Validator { inner: Ok(Some(None)) },
            input => {
                let v = Validator::<T>::required(field, input, convert, errors);
                let ghost c = choose|c: Result<T, ValidationErrors>|
                    call_ensures(convert, (ext,), c) && converted(field@, c, v.outcome());
                let r = Validator { inner: lift(lift(v.inner)) };
                assert(call_ensures(convert, (ext,), c) && converted(field@, as_some(as_some(c)), r.outcome()));
                r
            },
        }
    }
}

/// The conversion with its value wrapped in `Some`.
pub open spec fn as_some<T>(c: Result<T, ValidationErrors>) -> Result<Option<T>, ValidationErrors> {
    match c {
        Ok(t) => Ok(Some(t)),
        Err(e) => Err(e),
    }
}

fn lift<T>(result: ValidatorResult<T>) -> (r: ValidatorResult<Option<T>>)
    ensures
        match result {
            Ok(t) => r == Ok::<Option<T>, FieldErrors>(Some(t)),
            Err(e) => r == Err::<Option<T>, FieldErrors>(e),
        },
{
    match result {
        Ok(t) => Ok(Some(t)),
        Err(e) => Err(e),
    }
}

} // verus!
