use vstd::prelude::*;

use crate::domain::ValidationErrors;
use crate::errors::validation::{FieldErrors, FieldIssue};
use crate::json::JsonValue;
use crate::user_input::UserInput;
use crate::validation::validator::ValidatorResult;
use crate::validation::{decimal, decimal_text};

verus! {

/// The field path of an issue found inside the field `field`: `field.inner`,
/// or `field` alone when the issue has no path of its own.
pub open spec fn nested_path(field: Seq<char>, inner: Seq<char>) -> Seq<char> {
    if inner.len() > 0 {
        field + "."@ + inner
    } else {
        field
    }
}

/// The issues of a nested value, reported under `field`.
pub open spec fn prefixed(field: Seq<char>, issues: Seq<FieldIssue>) -> Seq<FieldIssue> {
    issues.map_values(
        |e: FieldIssue| FieldIssue { field: nested_path(field, e.field), issue: e.issue, rejected: e.rejected },
    )
}

/// The text of an optional field name: the name, or nothing.
pub open spec fn field_text(field: Option<String>) -> Seq<char> {
    match field {
        Some(f) => f@,
        None => Seq::empty(),
    }
}

/// What [`prefix_result`] gives: the value unchanged, or the errors with
/// their paths nested under `field`.
pub open spec fn prefix_spec<T>(field: Seq<char>, before: ValidatorResult<T>, after: ValidatorResult<T>) -> bool {
    match before {
        Ok(t) => after == Ok::<T, FieldErrors>(t),
        Err(e) => after matches Err(e2) && e2.issues() == prefixed(field, e.issues()),
    }
}

/// What nesting under `field` keeps and changes: a value passes through; a
/// failure keeps its issues, their number, order, texts and rejected
/// values, and each path becomes `field.path`, or `field` where it was empty.
pub proof fn lemma_nesting<T>(field: Seq<char>, before: ValidatorResult<T>, after: ValidatorResult<T>)
    requires
        prefix_spec(field, before, after),
    ensures
        before matches Ok(v) ==> after == Ok::<T, FieldErrors>(v),
        before matches Err(es) ==> (after matches Err(es2) && es2.issues().len() == es.issues().len()
            && forall|i: int|
            0 <= i < es.issues().len() ==> {
                let a = #[trigger] es.issues()[i];
                let b = es2.issues()[i];
                &&& b.issue == a.issue
                &&& b.rejected == a.rejected
                &&& b.field == if a.field.len() == 0 {
                    field
                } else {
                    field + "."@ + a.field
                }
            }),
{
}

/// Nests the paths of the errors of `result` under `field`.
pub fn prefix_result<T>(field: Option<String>, result: ValidatorResult<T>) -> (r: ValidatorResult<T>)
    ensures
        prefix_spec(field_text(field), result, r),
{
    match result {
        Ok(t) => Ok(t),
        Err(errors) => {
            let prefix = match field {
                Some(f) => f,
                None => String::new(),
            };
            let list = errors.into_inner();
            let mut out: Vec<crate::errors::validation::FieldError> = Vec::new();
            let mut i: usize = 0;
            while i < list.len()
                invariant
                    prefix@ == field_text(field),
                    crate::errors::validation::issues_of(list@) == errors.issues(),
                    i <= list.len(),
                    out.len() == i,
                    forall|k: int|
                        0 <= k < i ==> #[trigger] out[k].model() == (FieldIssue {
                            field: nested_path(prefix@, list[k].field@),
                            issue: list[k].issue@,
                            rejected: list[k].rejected_value.model(),
                        }),
                decreases list.len() - i,
            {
                let mut path = prefix.clone();
                if list[i].field.as_str().unicode_len() > 0 {
                    path.append(".");
                    path.append(list[i].field.as_str());
                }
                let e = crate::errors::validation::FieldError {
                    field: path,
                    issue: list[i].issue.clone(),
                    rejected_value: list[i].rejected_value.duplicate(),
                };
                out.push(e);
                i = i + 1;
            }
            let r = FieldErrors::from_errors(out);
            proof {
                assert forall|k: int| 0 <= k < list.len() implies #[trigger] errors.issues()[k]
                    == list[k].model() by {
                    assert(crate::errors::validation::issues_of(list@)[k] == list[k].model());
                }
                assert(r.issues() =~= prefixed(prefix@, errors.issues()));
            }
            Err(r)
        },
    }
}

/// A value that validates into a `T`, reporting the paths of what it rejects.
pub trait Parseable<T>: Sized {
    /// `r` is a result that parsing `self` may give. An implementation that
    /// does not describe its results claims nothing of them.
    open spec fn parses_to(self, r: ValidatorResult<T>) -> bool {
        true
    }

    fn parse(self) -> (r: ValidatorResult<T>)
        ensures
            self.parses_to(r),
    ;

    /// Parses, reporting the paths of what is rejected under `field`.
    fn parse_field(self, field: Option<String>) -> (r: ValidatorResult<T>)
        ensures
            exists|p: ValidatorResult<T>| #[trigger] self.parses_to(p) && prefix_spec(field_text(field), p, r),
    {
        let ghost input = self;
        let parsed = self.parse();
        let r = prefix_result(field, parsed);
        assert(input.parses_to(parsed) && prefix_spec(field_text(field), parsed, r));
        r
    }
}

/// `r` is what parsing `input` may give, with the paths of what it rejects
/// nested under `field`.
pub open spec fn field_parses_to<T, P: Parseable<T>>(input: P, field: Seq<char>, r: ValidatorResult<T>) -> bool {
    exists|p: ValidatorResult<T>| #[trigger] input.parses_to(p) && prefix_spec(field, p, r)
}

/// The issue reported for a field that should have held an object.
pub open spec fn not_an_object(rejected: JsonValue) -> Seq<FieldIssue> {
    seq![FieldIssue { field: Seq::empty(), issue: "must be object"@, rejected: rejected.model() }]
}

impl<I: Parseable<T> + Default, T> Parseable<T> for UserInput<I> {
    /// A missing or `null` value parses as a default value of `I`; a value of
    /// another type is rejected as not an object; a typed value parses as
    /// itself.
    open spec fn parses_to(self, r: ValidatorResult<T>) -> bool {
        match self {
            UserInput::Missing | UserInput::Null => exists|d: I| #[trigger] d.parses_to(r),
            UserInput::WrongType(v) => r matches Err(e) && e.issues() == not_an_object(v),
            UserInput::Typed(inner) => inner.parses_to(r),
        }
    }

    fn parse(self) -> (r: ValidatorResult<T>)
    {
        match self {
            UserInput::Missing | UserInput::Null => {
                let d = I::default();
                let ghost dv = d;
                let r = d.parse();
                assert(dv.parses_to(r));
                r
            },
            UserInput::WrongType(value) => {
                let ghost v = value;
                let errors = ValidationErrors::with_error("must be object", value);
                let r = FieldErrors::from_validation_errors("", errors);
                proof {
                    reveal_strlit("");
                    assert(""@ =~= Seq::<char>::empty());
                    assert(r.issues().len() == 1);
                    assert(r.issues()[0] == not_an_object(v)[0]);
                    assert(r.issues() =~= not_an_object(v));
                }
                Err(r)
            },
            UserInput::Typed(inner) => inner.parse(),
        }
    }
}

/// The values of the successful results, in order.
pub open spec fn ok_values<T>(results: Seq<ValidatorResult<T>>) -> Seq<T>
    decreases results.len(),
{
    if results.len() == 0 {
        Seq::empty()
    } else {
        let rest = ok_values(results.drop_last());
        match results.last() {
            Ok(t) => rest.push(t),
            Err(_) => rest,
        }
    }
}

/// The issues of the failed results, in order.
pub open spec fn err_issues<T>(results: Seq<ValidatorResult<T>>) -> Seq<FieldIssue>
    decreases results.len(),
{
    if results.len() == 0 {
        Seq::empty()
    } else {
        let rest = err_issues(results.drop_last());
        match results.last() {
            Ok(_) => rest,
            Err(e) => rest + e.issues(),
        }
    }
}

/// Combines the results of the items of a list: the values of all items
/// when no issue was reported, and every issue otherwise.
pub fn combine_results<T>(results: Vec<ValidatorResult<T>>) -> (r: ValidatorResult<Vec<T>>)
    ensures
        err_issues(results@).len() == 0 ==> (r matches Ok(v) && v@ == ok_values(results@)),
        err_issues(results@).len() > 0 ==> (r matches Err(e) && e.issues() == err_issues(results@)),
{
    let ghost all = results@;
    let mut results = results;
    let mut oks: Vec<T> = Vec::new();
    let mut errs = FieldErrors::new();
    let ghost mut k: int = 0;
    while results.len() > 0
        invariant
            0 <= k <= all.len(),
            results@ == all.skip(k),
            oks@ == ok_values(all.take(k)),
            errs.issues() == err_issues(all.take(k)),
        decreases results.len(),
    {
        let next = results.remove(0);
        proof {
            assert(next == all[k]);
            assert(all.take(k + 1).drop_last() =~= all.take(k));
            assert(all.take(k + 1).last() == all[k]);
            assert(results@ =~= all.skip(k + 1));
        }
        match next {
            Ok(t) => oks.push(t),
            Err(e) => errs.extend(e),
        }
        proof {
            k = k + 1;
        }
    }
    proof {
        assert(all.take(k) =~= all);
    }
    if errs.is_empty() {
        Ok(oks)
    } else {
        Err(errs)
    }
}

/// What combining the results of the items of a list gives: the values of
/// all items when no issue was reported, and every issue otherwise.
pub open spec fn combined<T>(results: Seq<ValidatorResult<T>>, r: ValidatorResult<Vec<T>>) -> bool {
    &&& err_issues(results).len() == 0 ==> (r matches Ok(v) && v@ == ok_values(results))
    &&& err_issues(results).len() > 0 ==> (r matches Err(e) && e.issues() == err_issues(results))
}

/// `results` are what the items may give, each with its issues nested under
/// its index, and `r` combines them.
pub open spec fn items_parse_to<T, I: Parseable<T>>(
    items: Seq<I>,
    results: Seq<ValidatorResult<T>>,
    r: ValidatorResult<Vec<T>>,
) -> bool {
    &&& results.len() == items.len()
    &&& forall|i: int|
        0 <= i < items.len() ==> field_parses_to(items[i], decimal_text(i as nat), #[trigger] results[i])
    &&& combined(results, r)
}

impl<I: Parseable<T>, T> Parseable<Vec<T>> for Vec<I> {
    /// Every item is parsed with its issues nested under its index, and the
    /// results are combined as [`combine_results`] does.
    open spec fn parses_to(self, r: ValidatorResult<Vec<T>>) -> bool {
        exists|results: Seq<ValidatorResult<T>>| #[trigger] items_parse_to(self@, results, r)
    }

    fn parse(self) -> (r: ValidatorResult<Vec<T>>) {
        let ghost all = self@;
        let mut items = self;
        let mut results: Vec<ValidatorResult<T>> = Vec::new();
        let mut i: usize = 0;
        let n = items.len();
        while items.len() > 0
            invariant
                i + items.len() == n,
                n == all.len(),
                items@ == all.skip(i as int),
                results.len() == i,
                forall|k: int|
                    0 <= k < i ==> field_parses_to(all[k], decimal_text(k as nat), #[trigger] results@[k]),
            decreases items.len(),
        {
            let item = items.remove(0);
            proof {
                assert(item == all[i as int]);
                assert(items@ =~= all.skip(i + 1));
            }
            let name = decimal(i);
            let res = item.parse_field(Some(name));
            results.push(res);
            i = i + 1;
        }
        let ghost rs = results@;
        let r = combine_results(results);
        assert(items_parse_to(all, rs, r));
        r
    }
}

} // verus!
