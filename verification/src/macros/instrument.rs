use vstd::prelude::*;

use crate::macros::syntax::{
    arguments_model, arguments_text_shape, entry_model, exprs_text_shape, impl_text_shape, parse_arguments,
    parse_exprs, parse_impl, paths_model, ImplEntry, MacroArgument, MacroError,
};
use crate::namespace::key_under;

verus! {

/// A method of an `impl` block, as the instrumenting macros see it.
#[derive(Debug)]
pub struct MethodShape {
    /// The method's name.
    pub name: String,
    /// The paths of the attributes already on the method, segment by segment.
    pub attribute_paths: Vec<Vec<String>>,
}

/// An item of an `impl` block.
#[derive(Debug)]
pub enum ImplItemShape {
    Method(MethodShape),
    Other,
}

/// The `tracing::instrument` attribute to add to a method.
#[derive(Debug)]
pub struct InstrumentAttr {
    pub name: String,
    pub level: String,
}

/// The span name of a method: `prefix::method`, or the method alone when
/// the prefix is empty.
pub open spec fn span_name_for(prefix: Seq<char>, method: Seq<char>) -> Seq<char> {
    if prefix.len() == 0 {
        method
    } else {
        key_under(prefix, method)
    }
}

/// An attribute path names `instrument`: its last segment is `instrument`.
pub open spec fn names_instrument(path: Seq<String>) -> bool {
    path.len() > 0 && path.last()@ == "instrument"@
}

/// The method already carries an `instrument` attribute.
pub open spec fn already_instrumented(m: MethodShape) -> bool {
    exists|i: int| 0 <= i < m.attribute_paths.len() && names_instrument(#[trigger] m.attribute_paths[i]@)
}

/// `#[instrument_all(...)]`: what each item gets. Methods without an
/// `instrument` attribute get one named after the prefix and the method, at
/// `level`; other items get nothing.
pub open spec fn instrument_all_plan(
    prefix: Seq<char>,
    level: Seq<char>,
    items: Seq<ImplItemShape>,
    plan: Seq<Option<InstrumentAttr>>,
) -> bool {
    &&& plan.len() == items.len()
    &&& forall|i: int|
        0 <= i < items.len() ==> match #[trigger] items[i] {
            ImplItemShape::Method(m) => if already_instrumented(m) {
                plan[i] is None
            } else {
                plan[i] matches Some(a) && a.name@ == span_name_for(prefix, m.name@) && a.level@
                    == level
            },
            ImplItemShape::Other => plan[i] is None,
        }
}

/// The attribute path that `#[instrument_all]` adds: `tracing::instrument`.
pub open spec fn is_tracing_instrument_path(path: Seq<String>) -> bool {
    &&& path.len() == 2
    &&& path[0]@ == "tracing"@
    &&& path[1]@ == "instrument"@
}

/// `m2` is the method `m` with the plan entry `entry` applied: the same
/// name and attributes, and, when an attribute is planned, one more,
/// `tracing::instrument`, after them.
pub open spec fn method_applied(m: MethodShape, entry: Option<InstrumentAttr>, m2: MethodShape) -> bool {
    let n = m.attribute_paths.len();
    &&& m2.name@ == m.name@
    &&& m2.attribute_paths.len() == if entry is Some { n + 1 } else { n as int }
    &&& forall|k: int| 0 <= k < n ==> #[trigger] m2.attribute_paths[k]@ == m.attribute_paths[k]@
    &&& entry is Some ==> is_tracing_instrument_path(m2.attribute_paths[n as int]@)
}

/// `out` is the `impl` block `items` after `plan` is applied, item by item.
pub open spec fn plan_applied(items: Seq<ImplItemShape>, plan: Seq<Option<InstrumentAttr>>, out: Seq<
    ImplItemShape,
>) -> bool {
    &&& out.len() == items.len()
    &&& forall|i: int|
        0 <= i < items.len() ==> match #[trigger] items[i] {
            ImplItemShape::Method(m) => out[i] matches ImplItemShape::Method(m2) && method_applied(
                m,
                plan[i],
                m2,
            ),
            ImplItemShape::Other => out[i] is Other,
        }
}

/// Running `#[instrument_all]` again on its own output changes nothing:
/// every method of the output carries an `instrument` attribute, so the
/// second run plans no attribute, whatever its prefix and level.
pub proof fn lemma_instrument_all_idempotent(
    prefix: Seq<char>,
    level: Seq<char>,
    items: Seq<ImplItemShape>,
    plan: Seq<Option<InstrumentAttr>>,
    out: Seq<ImplItemShape>,
    prefix2: Seq<char>,
    level2: Seq<char>,
    plan2: Seq<Option<InstrumentAttr>>,
)
    requires
        instrument_all_plan(prefix, level, items, plan),
        plan_applied(items, plan, out),
        instrument_all_plan(prefix2, level2, out, plan2),
    ensures
        forall|i: int| 0 <= i < plan2.len() ==> #[trigger] plan2[i] is None,
{
    assert forall|i: int| 0 <= i < plan2.len() implies #[trigger] plan2[i] is None by {
        match items[i] {
            ImplItemShape::Method(m) => {
                let m2 = out[i]->Method_0;
                let n = m.attribute_paths.len() as int;
                if already_instrumented(m) {
                    let j = choose|j: int|
                        0 <= j < m.attribute_paths.len() && names_instrument(#[trigger] m.attribute_paths[j]@);
                    assert(m2.attribute_paths[j]@ == m.attribute_paths[j]@);
                    assert(names_instrument(m2.attribute_paths[j]@));
                } else {
                    let p = m2.attribute_paths[n]@;
                    assert(p.last() == p[1]);
                    assert(names_instrument(m2.attribute_paths[n]@));
                }
                assert(already_instrumented(m2));
            },
            ImplItemShape::Other => {},
        }
    }
}

fn text_is(s: &String, expected: &str) -> (r: bool)
    ensures
        r == (s@ == expected@),
{
    crate::startup::text_equals(s.as_str(), expected)
}

fn has_instrument_attribute(m: &MethodShape) -> (r: bool)
    ensures
        r == already_instrumented(*m),
{
    let mut i: usize = 0;
    while i < m.attribute_paths.len()
        invariant
            i <= m.attribute_paths.len(),
            forall|k: int| 0 <= k < i ==> !names_instrument(#[trigger] m.attribute_paths[k]@),
        decreases m.attribute_paths.len() - i,
    {
        let path = &m.attribute_paths[i];
        if path.len() > 0 && text_is(&path[path.len() - 1], "instrument") {
            return true;
        }
        i = i + 1;
    }
    false
}

/// The name that a method's span gets under `prefix`.
pub fn span_name_for_method(prefix: &str, method: &str) -> (r: String)
    ensures
        r@ == span_name_for(prefix@, method@),
{
    if prefix.unicode_len() == 0 {
        String::from_str(method)
    } else {
        let mut name = String::from_str(prefix);
        name.append("::");
        name.append(method);
        name
    }
}

/// The prefix of `#[instrument_all]`: the one given, else the last segment
/// of the type's path, else nothing.
pub fn default_prefix(given: Option<String>, self_type_last_segment: Option<String>) -> (r: String)
    ensures
        r@ == match given {
            Some(p) => p@,
            None => match self_type_last_segment {
                Some(s) => s@,
                None => Seq::empty(),
            },
        },
{
    match given {
        Some(p) => p,
        None => match self_type_last_segment {
            Some(s) => s,
            None => String::new(),
        },
    }
}

/// The level of `#[instrument_all]`: the one given, else `info`.
pub fn default_level(given: Option<String>) -> (r: String)
    ensures
        r@ == match given {
            Some(l) => l@,
            None => "info"@,
        },
{
    match given {
        Some(l) => l,
        None => String::from_str("info"),
    }
}

/// Decides the attribute of every item of an `impl` block under
/// `#[instrument_all(prefix = .., level = ..)]`.
pub fn plan_instrument_all(prefix: &str, level: &str, items: &Vec<ImplItemShape>) -> (r: Vec<
    Option<InstrumentAttr>,
>)
    ensures
        instrument_all_plan(prefix@, level@, items@, r@),
{
    let mut plan: Vec<Option<InstrumentAttr>> = Vec::new();
    let mut i: usize = 0;
    while i < items.len()
        invariant
            i <= items.len(),
            plan.len() == i,
            forall|k: int|
                0 <= k < i ==> match #[trigger] items[k] {
                    ImplItemShape::Method(m) => if already_instrumented(m) {
                        plan[k] is None
                    } else {
                        plan[k] matches Some(a) && a.name@ == span_name_for(prefix@, m.name@) && a.level@
                            == level@
                    },
                    ImplItemShape::Other => plan[k] is None,
                },
        decreases items.len() - i,
    {
        let entry = match &items[i] {
            ImplItemShape::Method(m) => {
                if has_instrument_attribute(m) {
                    None
                } else {
                    Some(
                        InstrumentAttr {
                            name: span_name_for_method(prefix, m.name.as_str()),
                            level: String::from_str(level),
                        },
                    )
                }
            },
            ImplItemShape::Other => None,
        };
        plan.push(entry);
        i = i + 1;
    }
    plan
}

/// `#[instrument_all("Repo")]`: the span name of every method of the block,
/// `Repo::method`; other items get none.
pub fn instrument_all_impl(repo_name: &str, items: &Vec<ImplItemShape>) -> (r: Vec<Option<String>>)
    ensures
        r.len() == items.len(),
        forall|i: int|
            0 <= i < items.len() ==> match #[trigger] items[i] {
                ImplItemShape::Method(m) => r[i] matches Some(n) && n@ == key_under(repo_name@, m.name@),
                ImplItemShape::Other => r[i] is None,
            },
{
    let mut names: Vec<Option<String>> = Vec::new();
    let mut i: usize = 0;
    while i < items.len()
        invariant
            i <= items.len(),
            names.len() == i,
            forall|k: int|
                0 <= k < i ==> match #[trigger] items[k] {
                    ImplItemShape::Method(m) => names[k] matches Some(n) && n@ == key_under(
                        repo_name@,
                        m.name@,
                    ),
                    ImplItemShape::Other => names[k] is None,
                },
        decreases items.len() - i,
    {
        let entry = match &items[i] {
            ImplItemShape::Method(m) => {
                let mut name = String::from_str(repo_name);
                name.append("::");
                name.append(m.name.as_str());
                Some(name)
            },
            ImplItemShape::Other => None,
        };
        names.push(entry);
        i = i + 1;
    }
    names
}


/// Why `#[instrument_all(..)]` refuses its arguments.
#[derive(Clone, Copy, PartialEq, Eq, Structural, Debug)]
pub enum InstrumentArgError {
    /// "unsupported argument": a name other than `prefix` and `level`.
    UnsupportedArgument,
    /// "expected string literal": `prefix` or `level` not given a string.
    ExpectedStringLiteral,
}

impl InstrumentArgError {
    pub fn message(self) -> (r: &'static str)
        ensures
            r@ == match self {
                InstrumentArgError::UnsupportedArgument => "unsupported argument"@,
                InstrumentArgError::ExpectedStringLiteral => "expected string literal"@,
            },
    {
        match self {
            InstrumentArgError::UnsupportedArgument => "unsupported argument",
            InstrumentArgError::ExpectedStringLiteral => "expected string literal",
        }
    }
}

/// The path is the single name `name`.
pub open spec fn is_single_name(path: Seq<Seq<char>>, name: Seq<char>) -> bool {
    path.len() == 1 && path[0] == name
}

/// The `prefix` and `level` that the arguments give, read left to right, a
/// later one replacing an earlier; the first argument that is not a
/// `prefix` or `level` string refuses them all.
pub open spec fn instrument_options(args: Seq<(Seq<Seq<char>>, Option<Seq<char>>)>) -> Result<
    (Option<Seq<char>>, Option<Seq<char>>),
    InstrumentArgError,
>
    decreases args.len(),
{
    if args.len() == 0 {
        Ok((None, None))
    } else {
        match instrument_options(args.drop_last()) {
            Err(e) => Err(e),
            Ok(opts) => {
                let a = args.last();
                if is_single_name(a.0, "prefix"@) {
                    match a.1 {
                        Some(t) => Ok((Some(t), opts.1)),
                        None => Err(InstrumentArgError::ExpectedStringLiteral),
                    }
                } else if is_single_name(a.0, "level"@) {
                    match a.1 {
                        Some(t) => Ok((opts.0, Some(t))),
                        None => Err(InstrumentArgError::ExpectedStringLiteral),
                    }
                } else {
                    Err(InstrumentArgError::UnsupportedArgument)
                }
            },
        }
    }
}

pub open spec fn text_option(o: Option<String>) -> Option<Seq<char>> {
    match o {
        Some(s) => Some(s@),
        None => None,
    }
}

fn names_single(path: &Vec<String>, name: &str) -> (r: bool)
    ensures
        r == is_single_name(path@.map_values(|s: String| s@), name@),
{
    path.len() == 1 && text_is(&path[0], name)
}

/// Reads `prefix` and `level` from the arguments of `#[instrument_all]`.
fn read_options(args: &Vec<MacroArgument>) -> (r: Result<(Option<String>, Option<String>), InstrumentArgError>)
    ensures
        match instrument_options(arguments_model(args@)) {
            Ok(opts) => r matches Ok(o) && text_option(o.0) == opts.0 && text_option(o.1) == opts.1,
            Err(e) => r == Err::<(Option<String>, Option<String>), InstrumentArgError>(e),
        },
{
    let ghost all = arguments_model(args@);
    let mut prefix: Option<String> = None;
    let mut level: Option<String> = None;
    let mut i: usize = 0;
    while i < args.len()
        invariant
            i <= args.len(),
            all == arguments_model(args@),
            instrument_options(all.take(i as int)) == Ok::<
                (Option<Seq<char>>, Option<Seq<char>>),
                InstrumentArgError,
            >((text_option(prefix), text_option(level))),
        decreases args.len() - i,
    {
        proof {
            assert(all.take(i + 1).drop_last() =~= all.take(i as int));
            assert(all.take(i + 1).last() == all[i as int]);
            reveal_strlit("prefix");
            reveal_strlit("level");
        }
        let a = &args[i];
        if names_single(&a.path, "prefix") {
            match &a.text {
                Some(t) => {
                    prefix = Some(t.clone());
                },
                None => {
                    proof {
                        lemma_options_error_stays(all, i as int + 1);
                        assert(all.take(args.len() as int) =~= all);
                    }
                    return Err(InstrumentArgError::ExpectedStringLiteral);
                },
            }
        } else if names_single(&a.path, "level") {
            match &a.text {
                Some(t) => {
                    level = Some(t.clone());
                },
                None => {
                    proof {
                        lemma_options_error_stays(all, i as int + 1);
                        assert(all.take(args.len() as int) =~= all);
                    }
                    return Err(InstrumentArgError::ExpectedStringLiteral);
                },
            }
        } else {
            proof {
                lemma_options_error_stays(all, i as int + 1);
                assert(all.take(args.len() as int) =~= all);
            }
            return Err(InstrumentArgError::UnsupportedArgument);
        }
        i = i + 1;
    }
    proof {
        assert(all.take(args.len() as int) =~= all);
    }
    Ok((prefix, level))
}

/// Once the arguments read so far are refused, reading more keeps the refusal.
proof fn lemma_options_error_stays(all: Seq<(Seq<Seq<char>>, Option<Seq<char>>)>, j: int)
    requires
        0 <= j <= all.len(),
        instrument_options(all.take(j)) is Err,
    ensures
        instrument_options(all) == instrument_options(all.take(j)),
    decreases all.len() - j,
{
    if j < all.len() {
        assert(all.take(j + 1).drop_last() =~= all.take(j));
        lemma_options_error_stays(all, j + 1);
    } else {
        assert(all.take(j) =~= all);
    }
}

/// A method or other item as `#[instrument_all]` sees it: a method's name
/// and attribute paths.
pub open spec fn instrument_item_model(item: ImplItemShape) -> Option<(Seq<char>, Seq<Seq<Seq<char>>>)> {
    match item {
        ImplItemShape::Method(m) => Some((m.name@, paths_model(m.attribute_paths))),
        ImplItemShape::Other => None,
    }
}

/// The same view of the items of a parsed `impl` block.
pub open spec fn instrument_items_of(entries: Seq<Option<(Seq<char>, bool, Seq<Seq<Seq<char>>>)>>) -> Seq<
    Option<(Seq<char>, Seq<Seq<Seq<char>>>)>,
> {
    entries.map_values(
        |e: Option<(Seq<char>, bool, Seq<Seq<Seq<char>>>)>|
            match e {
                Some(m) => Some((m.0, m.2)),
                None => None,
            },
    )
}

/// `plan` is what [`plan_instrument_all`] gives, under `prefix` and
/// `level`, for an `impl` block whose items are `entries`.
pub open spec fn instrument_decided(
    prefix: Seq<char>,
    level: Seq<char>,
    entries: Seq<Option<(Seq<char>, bool, Seq<Seq<Seq<char>>>)>>,
    plan: Seq<Option<InstrumentAttr>>,
) -> bool {
    exists|items: Seq<ImplItemShape>|
        items.map_values(|i: ImplItemShape| instrument_item_model(i)) == instrument_items_of(entries)
            && #[trigger] instrument_all_plan(prefix, level, items, plan)
}

/// The prefix in force: the one given, else the self type's last segment,
/// else nothing.
pub open spec fn prefix_in_force(given: Option<Seq<char>>, self_type: Option<Seq<char>>) -> Seq<char> {
    match given {
        Some(p) => p,
        None => match self_type {
            Some(s) => s,
            None => Seq::empty(),
        },
    }
}

/// The level in force: the one given, else `info`.
pub open spec fn level_in_force(given: Option<Seq<char>>) -> Seq<char> {
    match given {
        Some(l) => l,
        None => "info"@,
    }
}

/// `#[instrument_all(..)]` on the text of its arguments and of the `impl`
/// block: the arguments are read first, then the block; either is refused
/// with the parser's message when it does not parse, the arguments by
/// [`instrument_options`]; otherwise every item gets what
/// [`plan_instrument_all`] plans under the prefix and level in force.
pub fn instrument_all_input_plan(attrs: &str, item: &str) -> (r: Result<
    Vec<Option<InstrumentAttr>>,
    MacroError<InstrumentArgError>,
>)
    ensures
        arguments_text_shape(attrs@) is None ==> r matches Err(MacroError::Parse(_)),
        arguments_text_shape(attrs@) matches Some(args) ==> match instrument_options(args) {
            Err(e) => r == Err::<Vec<Option<InstrumentAttr>>, MacroError<InstrumentArgError>>(
                MacroError::Refused(e),
            ),
            Ok(opts) => match impl_text_shape(item@) {
                None => r matches Err(MacroError::Parse(_)),
                Some(block) => r matches Ok(plan) && instrument_decided(
                    prefix_in_force(opts.0, block.0),
                    level_in_force(opts.1),
                    block.1,
                    plan@,
                ),
            },
        },
{
    let args = match parse_arguments(attrs) {
        Err(message) => {
            return Err(MacroError::Parse(message));
        },
        Ok(args) => args,
    };
    let (given_prefix, given_level) = match read_options(&args) {
        Err(e) => {
            return Err(MacroError::Refused(e));
        },
        Ok(o) => o,
    };
    let shape = match parse_impl(item) {
        Err(message) => {
            return Err(MacroError::Parse(message));
        },
        Ok(shape) => shape,
    };
    let ghost block = shape.model();
    proof {
        assert(block.1 =~= shape.items@.map_values(|e: ImplEntry| entry_model(e)));
    }
    let prefix = default_prefix(given_prefix, shape.self_type);
    let level = default_level(given_level);
    let items = impl_items(shape.items);
    let plan = plan_instrument_all(prefix.as_str(), level.as_str(), &items);
    proof {
        assert(items@.map_values(|i: ImplItemShape| instrument_item_model(i)) =~= instrument_items_of(block.1));
        assert(instrument_all_plan(prefix@, level@, items@, plan@));
    }
    Ok(plan)
}


/// The items of a parsed `impl` block as the instrumenting macros see them.
fn impl_items(entries: Vec<ImplEntry>) -> (r: Vec<ImplItemShape>)
    ensures
        r@.map_values(|i: ImplItemShape| instrument_item_model(i)) == instrument_items_of(
            entries@.map_values(|e: ImplEntry| entry_model(e)),
        ),
{
    let ghost all = entries@;
    let ghost block = all.map_values(|e: ImplEntry| entry_model(e));
    let mut entries = entries;
    let mut items: Vec<ImplItemShape> = Vec::new();
    while entries.len() > 0
        invariant
            all.len() == block.len(),
            block == all.map_values(|e: ImplEntry| entry_model(e)),
            entries@ == all.skip(items.len() as int),
            items.len() <= all.len(),
            forall|k: int|
                0 <= k < items.len() ==> instrument_item_model(#[trigger] items@[k]) == instrument_items_of(
                    block,
                )[k],
        decreases entries.len(),
    {
        let ghost k = items.len() as int;
        let e = entries.remove(0);
        proof {
            assert(e == all[k]);
            assert(entries@ =~= all.skip(k + 1));
        }
        let shape_item = match e {
            ImplEntry::Method { name, attribute_paths, .. } => ImplItemShape::Method(
                MethodShape { name, attribute_paths },
            ),
            ImplEntry::Other => ImplItemShape::Other,
        };
        items.push(shape_item);
    }
    proof {
        assert(items@.map_values(|i: ImplItemShape| instrument_item_model(i)) =~= instrument_items_of(block));
    }
    items
}

/// Why `#[instrument_all("Repo")]` refuses its argument.
#[derive(Clone, Copy, PartialEq, Eq, Structural, Debug)]
pub enum RepositoryNameError {
    /// "expected string literal": the argument is not one string.
    ExpectedName,
}

impl RepositoryNameError {
    pub fn message(self) -> (r: &'static str)
        ensures
            r@ == "expected string literal"@,
    {
        "expected string literal"
    }
}

/// `#[instrument_all("Repo")]` on the text of its argument and of the
/// `impl` block: the argument must be one string literal; every method
/// gets the span name `Repo::method`, other items none.
pub fn repository_instrument_input(attr: &str, item: &str) -> (r: Result<
    Vec<Option<String>>,
    MacroError<RepositoryNameError>,
>)
    ensures
        match exprs_text_shape(attr@) {
            None => r matches Err(MacroError::Parse(_)),
            Some(args) => if args.len() != 1 || args[0].1 is None {
                r == Err::<Vec<Option<String>>, MacroError<RepositoryNameError>>(
                    MacroError::Refused(RepositoryNameError::ExpectedName),
                )
            } else {
                match impl_text_shape(item@) {
                    None => r matches Err(MacroError::Parse(_)),
                    Some(block) => r matches Ok(names) && names.len() == block.1.len() && forall|i: int|
                        0 <= i < block.1.len() ==> match #[trigger] block.1[i] {
                            Some(m) => names[i] matches Some(n) && n@ == key_under(args[0].1->Some_0, m.0),
                            None => names[i] is None,
                        },
                }
            },
        },
{
    let args = match parse_exprs(attr) {
        Err(message) => {
            return Err(MacroError::Parse(message));
        },
        Ok(args) => args,
    };
    if args.len() != 1 {
        return Err(MacroError::Refused(RepositoryNameError::ExpectedName));
    }
    let repo = match &args[0].text {
        Some(t) => t,
        None => {
            return Err(MacroError::Refused(RepositoryNameError::ExpectedName));
        },
    };
    let shape = match parse_impl(item) {
        Err(message) => {
            return Err(MacroError::Parse(message));
        },
        Ok(shape) => shape,
    };
    let ghost block = shape.model();
    proof {
        assert(block.1 =~= shape.items@.map_values(|e: ImplEntry| entry_model(e)));
    }
    let items = impl_items(shape.items);
    let names = instrument_all_impl(repo.as_str(), &items);
    proof {
        let mm = items@.map_values(|i: ImplItemShape| instrument_item_model(i));
        assert(mm == instrument_items_of(block.1));
        assert(mm.len() == items@.len());
        assert forall|i: int| 0 <= i < block.1.len() implies match #[trigger] block.1[i] {
            Some(m) => names[i] matches Some(n) && n@ == key_under(repo@, m.0),
            None => names[i] is None,
        } by {
            assert(mm[i] == instrument_item_model(items@[i]));
            assert(instrument_items_of(block.1)[i] == match block.1[i] {
                Some(m) => Some((m.0, m.2)),
                None => None,
            });
        }
    }
    Ok(names)
}

} // verus!
