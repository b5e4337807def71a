use vstd::prelude::*;

use crate::macros::syntax::{
    fields_model, impl_text_shape, is_type_text, parse_impl, parse_struct, parses_as_type, struct_text_shape,
    ImplEntry, ImplShape, MacroError,
};

verus! {

/// The type of a struct field, as `#[constraint]` sees it.
#[derive(Debug)]
pub enum FieldType {
    /// A function pointer; for each parameter, whether it is a reference.
    FnPtr(Vec<bool>),
    /// Any other type.
    Other,
}

/// A named field of the struct.
#[derive(Debug)]
pub struct FieldShape {
    pub name: String,
    pub ty: FieldType,
}

/// Why `#[constraint]` refuses a struct.
#[derive(Clone, Copy, PartialEq, Eq, Structural, Debug)]
pub enum ConstraintError {
    /// "`constraint` requires a struct with named fields"
    NotNamedFields,
    /// "`constraint` requires an `err_fn` field"
    MissingErrFn,
    /// "`err_fn` must be a function pointer"
    ErrFnNotFnPtr,
    /// "`err_fn` must take the rejected value as its first argument"
    ErrFnWithoutValue,
}

impl ConstraintError {
    pub fn message(self) -> (r: &'static str)
        ensures
            r@ == match self {
                ConstraintError::NotNamedFields => "`constraint` requires a struct with named fields"@,
                ConstraintError::MissingErrFn => "`constraint` requires an `err_fn` field"@,
                ConstraintError::ErrFnNotFnPtr => "`err_fn` must be a function pointer"@,
                ConstraintError::ErrFnWithoutValue => "`err_fn` must take the rejected value as its first argument"@,
            },
    {
        match self {
            ConstraintError::NotNamedFields => "`constraint` requires a struct with named fields",
            ConstraintError::MissingErrFn => "`constraint` requires an `err_fn` field",
            ConstraintError::ErrFnNotFnPtr => "`err_fn` must be a function pointer",
            ConstraintError::ErrFnWithoutValue =>
                "`err_fn` must take the rejected value as its first argument",
        }
    }
}

/// One extra argument handed to `err_fn`: a state field, by reference or
/// by value.
#[derive(Debug)]
pub struct ErrFnArg {
    pub field: String,
    pub by_ref: bool,
}

pub open spec fn is_err_fn(f: FieldShape) -> bool {
    f.name@ == "err_fn"@
}

/// The position of the first `err_fn` field.
pub open spec fn first_err_fn(fields: Seq<FieldShape>, i: int) -> bool {
    &&& 0 <= i < fields.len()
    &&& is_err_fn(fields[i])
    &&& forall|k: int| 0 <= k < i ==> !is_err_fn(#[trigger] fields[k])
}

/// The state fields: every field but those named `err_fn`, in order.
pub open spec fn state_fields(fields: Seq<FieldShape>) -> Seq<FieldShape>
    decreases fields.len(),
{
    if fields.len() == 0 {
        Seq::empty()
    } else {
        let rest = state_fields(fields.drop_last());
        if is_err_fn(fields.last()) {
            rest
        } else {
            rest.push(fields.last())
        }
    }
}

/// `a` is a prefix of `b`.
pub open spec fn is_prefix<A>(a: Seq<A>, b: Seq<A>) -> bool {
    a.len() <= b.len() && forall|i: int| 0 <= i < a.len() ==> a[i] == b[i]
}

proof fn lemma_state_fields_prefix(fields: Seq<FieldShape>, j: int, n: int)
    requires
        0 <= j <= n <= fields.len(),
    ensures
        is_prefix(state_fields(fields.take(j)), state_fields(fields.take(n))),
    decreases n - j,
{
    if n > j {
        lemma_state_fields_prefix(fields, j, n - 1);
        assert(fields.take(n).drop_last() =~= fields.take(n - 1));
    }
}

/// The extra arguments: the parameters of `err_fn` after the first, paired
/// in order with the state fields, as many as both have.
pub open spec fn err_fn_args(params: Seq<bool>, state: Seq<FieldShape>, args: Seq<ErrFnArg>) -> bool {
    &&& params.len() >= 1
    &&& args.len() == if params.len() - 1 < state.len() {
        (params.len() - 1) as int
    } else {
        state.len() as int
    }
    &&& forall|i: int|
        0 <= i < args.len() ==> #[trigger] args[i].field@ == state[i].name@ && args[i].by_ref
            == params[i + 1]
}

fn is_err_fn_name(f: &FieldShape) -> (r: bool)
    ensures
        r == is_err_fn(*f),
{
    crate::startup::text_equals(f.name.as_str(), "err_fn")
}

/// What `#[constraint]` decides for a struct: refused when its fields are
/// not named, when it has no `err_fn` field, or when the first `err_fn` is
/// not a function pointer taking the rejected value; otherwise the extra
/// arguments that `err_fn` gets.
pub open spec fn constraint_outcome(
    named: bool,
    fields: Seq<FieldShape>,
    r: Result<Vec<ErrFnArg>, ConstraintError>,
) -> bool {
    &&& !named ==> r == Err::<Vec<ErrFnArg>, ConstraintError>(ConstraintError::NotNamedFields)
    &&& named && (forall|k: int| 0 <= k < fields.len() ==> !is_err_fn(#[trigger] fields[k])) ==> r
        == Err::<Vec<ErrFnArg>, ConstraintError>(ConstraintError::MissingErrFn)
    &&& named ==> forall|i: int|
        first_err_fn(fields, i) ==> match fields[i].ty {
            FieldType::Other => r == Err::<Vec<ErrFnArg>, ConstraintError>(ConstraintError::ErrFnNotFnPtr),
            FieldType::FnPtr(params) => if params.len() == 0 {
                r == Err::<Vec<ErrFnArg>, ConstraintError>(ConstraintError::ErrFnWithoutValue)
            } else {
                r matches Ok(args) && err_fn_args(params@, state_fields(fields), args@)
            },
        }
}

/// Checks a struct for `#[constraint]` and works out the arguments that its
/// `validate` method hands to `err_fn` after the rejected value.
#[verifier::spinoff_prover]
pub fn plan_constraint(named: bool, fields: &Vec<FieldShape>) -> (r: Result<Vec<ErrFnArg>, ConstraintError>)
    ensures
        constraint_outcome(named, fields@, r),
{
    if !named {
        return Err(ConstraintError::NotNamedFields);
    }
    let mut pos: usize = 0;
    while pos < fields.len() && !is_err_fn_name(&fields[pos])
        invariant
            pos <= fields.len(),
            forall|k: int| 0 <= k < pos ==> !is_err_fn(#[trigger] fields[k]),
        decreases fields.len() - pos,
    {
        pos = pos + 1;
    }
    if pos == fields.len() {
        return Err(ConstraintError::MissingErrFn);
    }
    assert(first_err_fn(fields@, pos as int));
    let params = match &fields[pos].ty {
        FieldType::FnPtr(params) => params,
        FieldType::Other => {
            return Err(ConstraintError::ErrFnNotFnPtr);
        },
    };
    if params.len() == 0 {
        return Err(ConstraintError::ErrFnWithoutValue);
    }
    let ghost state = state_fields(fields@);
    let mut args: Vec<ErrFnArg> = Vec::new();
    let mut j: usize = 0;
    let mut p: usize = 1;
    while j < fields.len() && p < params.len()
        invariant
            1 <= p <= params.len(),
            j <= fields.len(),
            args.len() == p - 1,
            args.len() == state_fields(fields@.take(j as int)).len(),
            forall|i: int| 0 <= i < args.len() ==> #[trigger] args[i].field@ == state_fields(
                fields@.take(j as int),
            )[i].name@ && args[i].by_ref == params[i + 1],
        decreases fields.len() - j,
    {
        proof {
            assert(fields@.take(j + 1).drop_last() =~= fields@.take(j as int));
        }
        if !is_err_fn_name(&fields[j]) {
            args.push(ErrFnArg { field: fields[j].name.clone(), by_ref: params[p] });
            p = p + 1;
        }
        j = j + 1;
    }
    proof {
        lemma_state_fields_prefix(fields@, j as int, fields.len() as int);
        assert(fields@.take(fields.len() as int) =~= fields@);
        assert(err_fn_args(params@, state, args@));
        assert forall|i: int| first_err_fn(fields@, i) implies i == pos by {
            if i < pos {
            } else if i > pos {
                assert(!is_err_fn(fields[pos as int]));
            }
        }
    }
    Ok(args)
}

/// `r` is what [`plan_constraint`] decides for a struct of this description:
/// whether its fields are named, and each field's name and parameters.
pub open spec fn constraint_decided(
    shape: (bool, Seq<(Seq<char>, Option<Seq<bool>>)>),
    r: Result<Vec<ErrFnArg>, ConstraintError>,
) -> bool {
    exists|fields: Seq<FieldShape>| fields_model(fields) == shape.1 && #[trigger] constraint_outcome(shape.0, fields, r)
}

/// `#[constraint]` on the text of a struct item: refused with the parser's
/// message when the text is not a struct, and otherwise decided by
/// [`plan_constraint`] on the struct's fields.
pub fn constraint_plan(item: &str) -> (r: Result<Vec<ErrFnArg>, MacroError<ConstraintError>>)
    ensures
        struct_text_shape(item@) is None <==> r matches Err(MacroError::Parse(_)),
        struct_text_shape(item@) matches Some(shape) ==> constraint_decided(shape, plain_outcome(r)),
{
    match parse_struct(item) {
        Err(message) => Err(MacroError::Parse(message)),
        Ok(shape) => {
            let plan = plan_constraint(shape.named, &shape.fields);
            let r = match plan {
                Ok(args) => Ok(args),
                Err(e) => Err(MacroError::Refused(e)),
            };
            assert(plain_outcome(r) == plan);
            assert(constraint_outcome(shape.named, shape.fields@, plain_outcome(r)));
            let ghost w = shape.fields@;
            assert(fields_model(w) == shape.model().1);
            assert(constraint_outcome(shape.model().0, w, plain_outcome(r)));
            assert(constraint_decided(shape.model(), plain_outcome(r)));
            r
        },
    }
}

/// A decision of the macro's rule, from a result whose parse succeeded.
pub open spec fn plain_outcome<T, E>(r: Result<T, MacroError<E>>) -> Result<T, E> {
    match r {
        Ok(t) => Ok(t),
        Err(MacroError::Refused(e)) => Err(e),
        Err(MacroError::Parse(_)) => arbitrary(),
    }
}

/// An item of the `impl` block under `#[constraint_check(..)]`: a method,
/// with whether it takes `self`, or any other item.
#[derive(Debug)]
pub enum CheckItem {
    Method { name: String, has_receiver: bool },
    Other,
}

/// How the generated `check` calls `is_valid`.
#[derive(Clone, Copy, PartialEq, Eq, Structural, Debug)]
pub enum IsValidCall {
    /// `self.is_valid(value)`
    OnSelf,
    /// `Self::is_valid(value)`
    Associated,
}

/// Why `#[constraint_check(..)]` refuses an `impl` block.
#[derive(Clone, Copy, PartialEq, Eq, Structural, Debug)]
pub enum ConstraintCheckError {
    /// The attribute does not name the constrained type.
    MissingTarget,
    /// "`constraint_check` requires an `is_valid` method"
    MissingIsValid,
}

impl ConstraintCheckError {
    pub fn message(self) -> (r: &'static str)
        ensures
            r@ == match self {
                ConstraintCheckError::MissingTarget => "`constraint_check` requires the constrained type, e.g. `#[constraint_check(String)]`"@,
                ConstraintCheckError::MissingIsValid => "`constraint_check` requires an `is_valid` method"@,
            },
    {
        match self {
            ConstraintCheckError::MissingTarget =>
                "`constraint_check` requires the constrained type, e.g. `#[constraint_check(String)]`",
            ConstraintCheckError::MissingIsValid => "`constraint_check` requires an `is_valid` method",
        }
    }
}

pub open spec fn is_is_valid(item: CheckItem) -> bool {
    item matches CheckItem::Method { name, .. } && name@ == "is_valid"@
}

/// What `#[constraint_check(..)]` decides for an `impl` block: refused
/// without a target type or without an `is_valid` method; otherwise the
/// first `is_valid` method is called on `self` when it takes a receiver.
pub open spec fn check_outcome(
    target_given: bool,
    items: Seq<CheckItem>,
    r: Result<IsValidCall, ConstraintCheckError>,
) -> bool {
    &&& !target_given ==> r == Err::<IsValidCall, ConstraintCheckError>(ConstraintCheckError::MissingTarget)
    &&& target_given && (forall|k: int| 0 <= k < items.len() ==> !is_is_valid(#[trigger] items[k])) ==> r
        == Err::<IsValidCall, ConstraintCheckError>(ConstraintCheckError::MissingIsValid)
    &&& target_given ==> forall|i: int|
        0 <= i < items.len() && is_is_valid(items[i]) && (forall|k: int|
            0 <= k < i ==> !is_is_valid(#[trigger] items[k])) ==> (#[trigger] items[i] matches CheckItem::Method {
            has_receiver,
            ..
        } && r == Ok::<IsValidCall, ConstraintCheckError>(
            if has_receiver {
                IsValidCall::OnSelf
            } else {
                IsValidCall::Associated
            },
        ))
}

/// Checks an `impl` block for `#[constraint_check(..)]` and decides how the
/// first `is_valid` method is called: on `self` when it takes a receiver.
pub fn plan_constraint_check(target_given: bool, items: &Vec<CheckItem>) -> (r: Result<
    IsValidCall,
    ConstraintCheckError,
>)
    ensures
        check_outcome(target_given, items@, r),
{
    if !target_given {
        return Err(ConstraintCheckError::MissingTarget);
    }
    let mut i: usize = 0;
    while i < items.len()
        invariant
            target_given,
            i <= items.len(),
            forall|k: int| 0 <= k < i ==> !is_is_valid(#[trigger] items[k]),
        decreases items.len() - i,
    {
        match &items[i] {
            CheckItem::Method { name, has_receiver } => {
                if crate::startup::text_equals(name.as_str(), "is_valid") {
                    let r = if *has_receiver {
                        IsValidCall::OnSelf
                    } else {
                        IsValidCall::Associated
                    };
                    proof {
                        assert forall|j: int|
                            0 <= j < items.len() && is_is_valid(items[j]) && (forall|k: int|
                                0 <= k < j ==> !is_is_valid(#[trigger] items[k])) implies j == i by {
                            if j > i {
                                assert(is_is_valid(items[i as int]));
                            }
                        }
                    }
                    return Ok(r);
                }
            },
            CheckItem::Other => {},
        }
        i = i + 1;
    }
    Err(ConstraintCheckError::MissingIsValid)
}


/// An item as `#[constraint_check(..)]` sees it: a method's name and whether
/// it takes `self`, or nothing for another item.
pub open spec fn check_item_model(c: CheckItem) -> Option<(Seq<char>, bool)> {
    match c {
        CheckItem::Method { name, has_receiver } => Some((name@, has_receiver)),
        CheckItem::Other => None,
    }
}

/// The same view of the items of a parsed `impl` block.
pub open spec fn check_items_of(entries: Seq<Option<(Seq<char>, bool, Seq<Seq<Seq<char>>>)>>) -> Seq<
    Option<(Seq<char>, bool)>,
> {
    entries.map_values(
        |e: Option<(Seq<char>, bool, Seq<Seq<Seq<char>>>)>|
            match e {
                Some(m) => Some((m.0, m.1)),
                None => None,
            },
    )
}

/// `r` is what [`plan_constraint_check`] decides, with a target type, for
/// an `impl` block whose items are `entries`.
pub open spec fn check_decided(
    entries: Seq<Option<(Seq<char>, bool, Seq<Seq<Seq<char>>>)>>,
    r: Result<IsValidCall, ConstraintCheckError>,
) -> bool {
    exists|items: Seq<CheckItem>|
        items.map_values(|c: CheckItem| check_item_model(c)) == check_items_of(entries)
            && #[trigger] check_outcome(true, items, r)
}

fn check_items(shape: &ImplShape) -> (r: Vec<CheckItem>)
    ensures
        r@.map_values(|c: CheckItem| check_item_model(c)) == check_items_of(shape.model().1),
{
    let mut out: Vec<CheckItem> = Vec::new();
    let mut i: usize = 0;
    while i < shape.items.len()
        invariant
            i <= shape.items.len(),
            out.len() == i,
            forall|k: int|
                0 <= k < i ==> check_item_model(#[trigger] out@[k]) == check_items_of(shape.model().1)[k],
        decreases shape.items.len() - i,
    {
        let c = match &shape.items[i] {
            ImplEntry::Method { name, has_receiver, .. } => CheckItem::Method {
                name: name.clone(),
                has_receiver: *has_receiver,
            },
            ImplEntry::Other => CheckItem::Other,
        };
        out.push(c);
        i = i + 1;
    }
    assert(out@.map_values(|c: CheckItem| check_item_model(c)) =~= check_items_of(shape.model().1));
    out
}

/// `#[constraint_check(..)]` on the text of its argument and of the `impl`
/// block: refused without a target type before the block is read, refused
/// with the parser's message when the block is not an `impl` block, and
/// otherwise decided by [`plan_constraint_check`] on its items.
pub fn constraint_check_plan(attr: &str, item: &str) -> (r: Result<IsValidCall, MacroError<ConstraintCheckError>>)
    ensures
        !is_type_text(attr@) ==> r == Err::<IsValidCall, MacroError<ConstraintCheckError>>(
            MacroError::Refused(ConstraintCheckError::MissingTarget),
        ),
        is_type_text(attr@) ==> (impl_text_shape(item@) is None <==> r matches Err(MacroError::Parse(_))),
        is_type_text(attr@) ==> (impl_text_shape(item@) matches Some(shape) ==> check_decided(
            shape.1,
            plain_outcome(r),
        )),
{
    if !parses_as_type(attr) {
        return Err(MacroError::Refused(ConstraintCheckError::MissingTarget));
    }
    match parse_impl(item) {
        Err(message) => Err(MacroError::Parse(message)),
        Ok(shape) => {
            let items = check_items(&shape);
            let plan = plan_constraint_check(true, &items);
            let r = match plan {
                Ok(c) => Ok(c),
                Err(e) => Err(MacroError::Refused(e)),
            };
            assert(plain_outcome(r) == plan);
            let ghost w = items@;
            assert(check_outcome(true, w, plain_outcome(r)));
            assert(check_decided(shape.model().1, plain_outcome(r)));
            r
        },
    }
}

} // verus!
