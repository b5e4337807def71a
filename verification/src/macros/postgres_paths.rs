use vstd::prelude::*;

use crate::macros::syntax::{exprs_text_shape, parse_exprs, MacroError};
use crate::startup::text_equals;

verus! {

/// One component of a file-system path, as `std::path::Path::components`
/// yields it.
#[derive(Debug)]
pub enum PathComponent {
    RootDir,
    CurDir,
    ParentDir,
    Normal(String),
}

/// The content of a path component.
pub enum Comp {
    Root,
    Cur,
    Parent,
    Normal(Seq<char>),
}

impl PathComponent {
    pub open spec fn model(self) -> Comp {
        match self {
            PathComponent::RootDir => Comp::Root,
            PathComponent::CurDir => Comp::Cur,
            PathComponent::ParentDir => Comp::Parent,
            PathComponent::Normal(s) => Comp::Normal(s@),
        }
    }

    pub fn duplicate(&self) -> (r: Self)
        ensures
            r.model() == self.model(),
    {
        match self {
            PathComponent::RootDir => PathComponent::RootDir,
            PathComponent::CurDir => PathComponent::CurDir,
            PathComponent::ParentDir => PathComponent::ParentDir,
            PathComponent::Normal(s) => PathComponent::Normal(s.clone()),
        }
    }
}

/// The components of a path.
pub open spec fn comps(path: Seq<PathComponent>) -> Seq<Comp> {
    path.map_values(|c: PathComponent| c.model())
}

/// Why a path for the postgres macros could not be worked out.
#[derive(Clone, Copy, PartialEq, Eq, Structural, Debug)]
pub enum PostgresPathError {
    /// "could not determine invocation file name"
    NoFileName,
    /// "postgres SQL macros must be called from inside a `postgres` module tree"
    OutsidePostgresTree,
    /// "could not derive a crate-relative path starting at `src`"
    NoSrcComponent,
    /// "migrate! takes no arguments"
    UnexpectedArguments,
}

impl PostgresPathError {
    pub fn message(self) -> (r: &'static str)
        ensures
            r@ == match self {
                PostgresPathError::NoFileName => "could not determine invocation file name"@,
                PostgresPathError::OutsidePostgresTree => "postgres SQL macros must be called from inside a `postgres` module tree"@,
                PostgresPathError::NoSrcComponent => "could not derive a crate-relative path starting at `src`"@,
                PostgresPathError::UnexpectedArguments => "migrate! takes no arguments"@,
            },
    {
        match self {
            PostgresPathError::NoFileName => "could not determine invocation file name",
            PostgresPathError::OutsidePostgresTree =>
                "postgres SQL macros must be called from inside a `postgres` module tree",
            PostgresPathError::NoSrcComponent =>
                "could not derive a crate-relative path starting at `src`",
            PostgresPathError::UnexpectedArguments => "migrate! takes no arguments",
        }
    }
}

/// The final component of a path when it is a name.
pub open spec fn file_name_spec(path: Seq<Comp>) -> Option<Seq<char>> {
    if path.len() > 0 && path.last() is Normal {
        Some(path.last()->Normal_0)
    } else {
        None
    }
}

/// The position of the last `.` in `name`, if any.
pub open spec fn last_dot(name: Seq<char>, i: int) -> bool {
    &&& 0 <= i < name.len()
    &&& name[i] == '.'
    &&& forall|k: int| i < k < name.len() ==> name[k] != '.'
}

/// The stem of a file name: everything before the last `.`, or the whole
/// name when it has no `.` but a leading one.
pub open spec fn stem_of(name: Seq<char>) -> Seq<char> {
    if exists|i: int| last_dot(name, i) && i > 0 {
        name.take(choose|i: int| last_dot(name, i) && i > 0)
    } else {
        name
    }
}

/// The parent of a path: all but its last component, unless it is empty or
/// ends at the root.
pub open spec fn parent_spec(path: Seq<Comp>) -> Option<Seq<Comp>> {
    if path.len() == 0 || path.last() is Root {
        None
    } else {
        Some(path.drop_last())
    }
}

/// `base` joined with `other`: `other` itself when it is absolute, else
/// `base` followed by the components of `other` but `.`.
pub open spec fn join_spec(base: Seq<Comp>, other: Seq<Comp>) -> Seq<Comp> {
    if other.len() > 0 && other[0] is Root {
        other
    } else {
        base + without_cur(other)
    }
}

/// The components of `s` but `.`.
pub open spec fn without_cur(s: Seq<Comp>) -> Seq<Comp>
    decreases s.len(),
{
    if s.len() == 0 {
        Seq::empty()
    } else if s.last() is Cur {
        without_cur(s.drop_last())
    } else {
        without_cur(s.drop_last()).push(s.last())
    }
}

fn is_named(c: &PathComponent, name: &str) -> (r: bool)
    ensures
        r == (c.model() == Comp::Normal(name@)),
{
    match c {
        PathComponent::Normal(s) => text_equals(s.as_str(), name),
        _ => false,
    }
}

/// The file name of a path.
pub fn file_name(path: &Vec<PathComponent>) -> (r: Option<String>)
    ensures
        match r {
            Some(s) => file_name_spec(comps(path@)) == Some(s@),
            None => file_name_spec(comps(path@)) is None,
        },
{
    if path.len() == 0 {
        return None;
    }
    match &path[path.len() - 1] {
        PathComponent::Normal(s) => Some(s.clone()),
        _ => None,
    }
}

/// The stem of a file name.
pub fn stem(name: &str) -> (r: String)
    ensures
        r@ == stem_of(name@),
{
    let n = name.unicode_len();
    let mut i: usize = n;
    while i > 0 && name.get_char(i - 1) != '.'
        invariant
            n == name@.len(),
            i <= n,
            forall|k: int| i <= k < n ==> name@[k] != '.',
        decreases i,
    {
        i = i - 1;
    }
    if i <= 1 {
        proof {
            assert forall|j: int| !(last_dot(name@, j) && j > 0) by {
                if last_dot(name@, j) && j > 0 {
                    if i == 1 {
                        assert(name@[0] == '.');
                    }
                }
            }
        }
        return String::from_str(name);
    }
    let d = i - 1;
    proof {
        assert(last_dot(name@, d as int) && d > 0);
        assert forall|j: int| last_dot(name@, j) && j > 0 implies j == d by {}
    }
    String::from_str(name.substring_char(0, d))
}

/// The file stem of a path.
pub fn file_stem(path: &Vec<PathComponent>) -> (r: Option<String>)
    ensures
        match r {
            Some(s) => file_name_spec(comps(path@)) matches Some(n) && s@ == stem_of(n),
            None => file_name_spec(comps(path@)) is None,
        },
{
    match file_name(path) {
        Some(n) => Some(stem(n.as_str())),
        None => None,
    }
}

fn copy_path(path: &Vec<PathComponent>, len: usize) -> (r: Vec<PathComponent>)
    requires
        len <= path.len(),
    ensures
        comps(r@) == comps(path@).take(len as int),
{
    let mut out: Vec<PathComponent> = Vec::new();
    let mut i: usize = 0;
    while i < len
        invariant
            len <= path.len(),
            i <= len,
            out.len() == i,
            forall|k: int| 0 <= k < i ==> #[trigger] out[k].model() == path[k].model(),
        decreases len - i,
    {
        out.push(path[i].duplicate());
        i = i + 1;
    }
    assert(comps(out@) =~= comps(path@).take(len as int));
    out
}

/// The parent of a path.
pub fn parent(path: &Vec<PathComponent>) -> (r: Option<Vec<PathComponent>>)
    ensures
        match r {
            Some(p) => parent_spec(comps(path@)) == Some(comps(p@)),
            None => parent_spec(comps(path@)) is None,
        },
{
    if path.len() == 0 {
        return None;
    }
    match &path[path.len() - 1] {
        PathComponent::RootDir => None,
        _ => {
            let p = copy_path(path, path.len() - 1);
            assert(comps(path@).drop_last() =~= comps(path@).take(path.len() - 1));
            Some(p)
        },
    }
}

/// `base` joined with `other`.
pub fn join(base: &Vec<PathComponent>, other: &Vec<PathComponent>) -> (r: Vec<PathComponent>)
    ensures
        comps(r@) == join_spec(comps(base@), comps(other@)),
{
    if other.len() > 0 {
        if let PathComponent::RootDir = &other[0] {
            let r = copy_path(other, other.len());
            assert(comps(other@).take(other.len() as int) =~= comps(other@));
            return r;
        }
    }
    let mut out = copy_path(base, base.len());
    assert(comps(base@).take(base.len() as int) =~= comps(base@));
    let mut i: usize = 0;
    while i < other.len()
        invariant
            i <= other.len(),
            comps(out@) == comps(base@) + without_cur(comps(other@).take(i as int)),
        decreases other.len() - i,
    {
        let ghost before = out@;
        match &other[i] {
            PathComponent::CurDir => {},
            c => {
                out.push(c.duplicate());
                proof {
                    assert(comps(out@) =~= comps(before).push(other[i as int].model()));
                }
            },
        }
        proof {
            let t = comps(other@).take(i + 1);
            assert(t.drop_last() =~= comps(other@).take(i as int));
            assert(t.last() == other[i as int].model());
            assert(comps(out@) =~= comps(base@) + without_cur(t));
        }
        i = i + 1;
    }
    assert(comps(other@).take(other.len() as int) =~= comps(other@));
    out
}

/// `base` with one more named component.
pub fn join_name(base: &Vec<PathComponent>, name: &str) -> (r: Vec<PathComponent>)
    ensures
        comps(r@) == comps(base@).push(Comp::Normal(name@)),
{
    let mut out = copy_path(base, base.len());
    out.push(PathComponent::Normal(String::from_str(name)));
    assert(comps(out@) =~= comps(base@).take(base.len() as int).push(Comp::Normal(name@)));
    assert(comps(base@).take(base.len() as int) =~= comps(base@));
    out
}

/// `k` is the length of the nearest ancestor of `path` named `postgres`.
pub open spec fn nearest_postgres(path: Seq<Comp>, k: int) -> bool {
    &&& 1 <= k <= path.len()
    &&& path[k - 1] == Comp::Normal("postgres"@)
    &&& forall|j: int| k <= j < path.len() ==> path[j] != Comp::Normal("postgres"@)
}

/// The directory the invoking file sits in (the file itself when it has no
/// parent).
pub open spec fn invocation_dir(invocation: Seq<Comp>) -> Seq<Comp> {
    match parent_spec(invocation) {
        Some(p) => p,
        None => invocation,
    }
}

/// The `postgres` directory of the module that invokes a macro: the
/// `postgres` directory beside a `postgres.rs` file when there is one, else
/// the nearest ancestor directory named `postgres`.
pub open spec fn postgres_dir_spec(invocation: Seq<Comp>, sibling_is_dir: bool) -> Result<Seq<Comp>, PostgresPathError> {
    let dir = invocation_dir(invocation);
    match file_name_spec(invocation) {
        None => Err(PostgresPathError::NoFileName),
        Some(n) => if stem_of(n) == "postgres"@ && sibling_is_dir {
            Ok(dir.push(Comp::Normal("postgres"@)))
        } else if exists|k: int| nearest_postgres(dir, k) {
            Ok(dir.take(choose|k: int| nearest_postgres(dir, k)))
        } else {
            Err(PostgresPathError::OutsidePostgresTree)
        },
    }
}

/// The text of a component.
pub open spec fn comp_text(c: Comp) -> Seq<char> {
    match c {
        Comp::Root => "/"@,
        Comp::Cur => "."@,
        Comp::Parent => ".."@,
        Comp::Normal(s) => s,
    }
}

/// `parts` joined by `/`.
pub open spec fn slash_joined(parts: Seq<Seq<char>>) -> Seq<char>
    decreases parts.len(),
{
    if parts.len() == 0 {
        Seq::empty()
    } else if parts.len() == 1 {
        parts[0]
    } else {
        slash_joined(parts.drop_last()) + "/"@ + parts.last()
    }
}

/// `i` is the position of the first `src` component.
pub open spec fn first_src(path: Seq<Comp>, i: int) -> bool {
    &&& 0 <= i < path.len()
    &&& path[i] == Comp::Normal("src"@)
    &&& forall|k: int| 0 <= k < i ==> path[k] != Comp::Normal("src"@)
}

/// The path from its first `src` component on, joined by `/`.
pub open spec fn path_from_src_spec(path: Seq<Comp>) -> Result<Seq<char>, PostgresPathError> {
    if exists|i: int| first_src(path, i) {
        let i = choose|i: int| first_src(path, i);
        Ok(slash_joined(path.skip(i).map_values(|c: Comp| comp_text(c))))
    } else {
        Err(PostgresPathError::NoSrcComponent)
    }
}

/// The directory of the SQL files of the invoking module: `query` in the
/// `postgres` directory, and `query/<stem>` for a file directly inside a
/// `repository` directory other than its `mod.rs`.
pub open spec fn query_dir_spec(invocation: Seq<Comp>, postgres_dir: Seq<Comp>) -> Result<Seq<Comp>, PostgresPathError> {
    match file_name_spec(invocation) {
        None => Err(PostgresPathError::NoFileName),
        Some(name) => {
            let parent_is_repository = match parent_spec(invocation) {
                Some(p) => file_name_spec(p) == Some("repository"@),
                None => false,
            };
            let query = postgres_dir.push(Comp::Normal("query"@));
            if name == "repository.rs"@ || (name == "mod.rs"@ && parent_is_repository) {
                Ok(query)
            } else if parent_is_repository {
                Ok(query.push(Comp::Normal(stem_of(name))))
            } else {
                Ok(query)
            }
        },
    }
}

/// The candidate `postgres` directory beside the invoking file, whose
/// existence decides [`postgres_dir_from_invocation`] for a `postgres.rs`.
pub fn postgres_sibling(invocation: &Vec<PathComponent>) -> (r: Vec<PathComponent>)
    ensures
        comps(r@) == invocation_dir(comps(invocation@)).push(Comp::Normal("postgres"@)),
{
    let dir = match parent(invocation) {
        Some(p) => p,
        None => copy_path(invocation, invocation.len()),
    };
    proof {
        assert(comps(invocation@).take(invocation.len() as int) =~= comps(invocation@));
    }
    join_name(&dir, "postgres")
}

/// The `postgres` directory of the invoking module; `sibling_is_dir` tells
/// whether [`postgres_sibling`] is a directory.
pub fn postgres_dir_from_invocation(invocation: &Vec<PathComponent>, sibling_is_dir: bool) -> (r: Result<
    Vec<PathComponent>,
    PostgresPathError,
>)
    ensures
        match r {
            Ok(p) => postgres_dir_spec(comps(invocation@), sibling_is_dir) == Ok::<
                Seq<Comp>,
                PostgresPathError,
            >(comps(p@)),
            Err(e) => postgres_dir_spec(comps(invocation@), sibling_is_dir) == Err::<
                Seq<Comp>,
                PostgresPathError,
            >(e),
        },
{
    let dir = match parent(invocation) {
        Some(p) => p,
        None => copy_path(invocation, invocation.len()),
    };
    proof {
        assert(comps(invocation@).take(invocation.len() as int) =~= comps(invocation@));
    }
    let stem_text = match file_stem(invocation) {
        Some(s) => s,
        None => {
            return Err(PostgresPathError::NoFileName);
        },
    };
    if text_equals(stem_text.as_str(), "postgres") && sibling_is_dir {
        return Ok(join_name(&dir, "postgres"));
    }
    let mut k: usize = dir.len();
    while k > 0 && !is_named(&dir[k - 1], "postgres")
        invariant
            k <= dir.len(),
            forall|j: int| k <= j < dir.len() ==> comps(dir@)[j] != Comp::Normal("postgres"@),
        decreases k,
    {
        k = k - 1;
    }
    if k == 0 {
        proof {
            assert forall|j: int| !nearest_postgres(comps(dir@), j) by {}
        }
        return Err(PostgresPathError::OutsidePostgresTree);
    }
    proof {
        assert(nearest_postgres(comps(dir@), k as int));
        assert forall|j: int| nearest_postgres(comps(dir@), j) implies j == k by {}
        assert(comps(dir@) == invocation_dir(comps(invocation@)));
        assert(file_name_spec(comps(invocation@)) is Some);
        let n = file_name_spec(comps(invocation@))->Some_0;
        assert(!(stem_of(n) == "postgres"@ && sibling_is_dir));
    }
    let r = copy_path(&dir, k);
    assert(postgres_dir_spec(comps(invocation@), sibling_is_dir) == Ok::<Seq<Comp>, PostgresPathError>(comps(r@)));
    Ok(r)
}

fn comp_text_of(c: &PathComponent) -> (r: String)
    ensures
        r@ == comp_text(c.model()),
{
    match c {
        PathComponent::RootDir => String::from_str("/"),
        PathComponent::CurDir => String::from_str("."),
        PathComponent::ParentDir => String::from_str(".."),
        PathComponent::Normal(s) => s.clone(),
    }
}

/// The path from its first `src` component on, joined by `/`, as the SQL
/// macros name files relative to the crate.
pub fn path_from_src(path: &Vec<PathComponent>) -> (r: Result<String, PostgresPathError>)
    ensures
        match r {
            Ok(s) => path_from_src_spec(comps(path@)) == Ok::<Seq<char>, PostgresPathError>(s@),
            Err(e) => path_from_src_spec(comps(path@)) == Err::<Seq<char>, PostgresPathError>(e),
        },
{
    let mut i: usize = 0;
    while i < path.len() && !is_named(&path[i], "src")
        invariant
            i <= path.len(),
            forall|k: int| 0 <= k < i ==> comps(path@)[k] != Comp::Normal("src"@),
        decreases path.len() - i,
    {
        i = i + 1;
    }
    if i == path.len() {
        proof {
            assert forall|j: int| !first_src(comps(path@), j) by {}
        }
        return Err(PostgresPathError::NoSrcComponent);
    }
    proof {
        assert(first_src(comps(path@), i as int));
        assert forall|j: int| first_src(comps(path@), j) implies j == i by {}
    }
    let ghost parts = comps(path@).skip(i as int).map_values(|c: Comp| comp_text(c));
    let mut out = comp_text_of(&path[i]);
    let mut j: usize = i + 1;
    proof {
        assert(parts.take(1) =~= seq![parts[0]]);
    }
    while j < path.len()
        invariant
            i < j <= path.len(),
            parts == comps(path@).skip(i as int).map_values(|c: Comp| comp_text(c)),
            parts.len() == path.len() - i,
            out@ == slash_joined(parts.take(j - i)),
        decreases path.len() - j,
    {
        let piece = comp_text_of(&path[j]);
        out.append("/");
        out.append(piece.as_str());
        proof {
            assert(parts.take(j + 1 - i).drop_last() =~= parts.take(j - i));
            assert(parts[j - i] == comp_text(path[j as int].model()));
        }
        j = j + 1;
    }
    proof {
        assert(parts.take(path.len() - i) =~= parts);
    }
    Ok(out)
}

/// The directory of the SQL files of the invoking module.
pub fn query_dir_from_invocation(invocation: &Vec<PathComponent>, postgres_dir: &Vec<PathComponent>) -> (r: Result<
    Vec<PathComponent>,
    PostgresPathError,
>)
    ensures
        match r {
            Ok(p) => query_dir_spec(comps(invocation@), comps(postgres_dir@)) == Ok::<
                Seq<Comp>,
                PostgresPathError,
            >(comps(p@)),
            Err(e) => query_dir_spec(comps(invocation@), comps(postgres_dir@)) == Err::<
                Seq<Comp>,
                PostgresPathError,
            >(e),
        },
{
    let name = match file_name(invocation) {
        Some(n) => n,
        None => {
            return Err(PostgresPathError::NoFileName);
        },
    };
    let stem_text = stem(name.as_str());
    let parent_is_repository = match parent(invocation) {
        Some(p) => match file_name(&p) {
            Some(pn) => text_equals(pn.as_str(), "repository"),
            None => false,
        },
        None => false,
    };
    let query = join_name(postgres_dir, "query");
    if text_equals(name.as_str(), "repository.rs") || (text_equals(name.as_str(), "mod.rs")
        && parent_is_repository) {
        Ok(query)
    } else if parent_is_repository {
        Ok(join_name(&query, stem_text.as_str()))
    } else {
        Ok(query)
    }
}

/// The argument of `sqlx::migrate!` that `migrate!()` expands to:
/// `./` and the crate-relative path of the `migration` directory.
pub fn migration_path(invocation: &Vec<PathComponent>, has_arguments: bool, sibling_is_dir: bool) -> (r:
    Result<String, PostgresPathError>)
    ensures
        has_arguments ==> r == Err::<String, PostgresPathError>(PostgresPathError::UnexpectedArguments),
        !has_arguments ==> match postgres_dir_spec(comps(invocation@), sibling_is_dir) {
            Err(e) => r == Err::<String, PostgresPathError>(e),
            Ok(dir) => match path_from_src_spec(dir.push(Comp::Normal("migration"@))) {
                Err(e) => r == Err::<String, PostgresPathError>(e),
                Ok(rel) => r matches Ok(s) && s@ == "./"@ + rel,
            },
        },
{
    if has_arguments {
        return Err(PostgresPathError::UnexpectedArguments);
    }
    let dir = postgres_dir_from_invocation(invocation, sibling_is_dir)?;
    let migration = join_name(&dir, "migration");
    let rel = path_from_src(&migration)?;
    let mut out = String::from_str("./");
    out.append(rel.as_str());
    Ok(out)
}

/// The path that `query_file_as!(Out, "file.sql", ..)` hands to
/// `sqlx::query_file_as!`: the SQL file in the module's query directory,
/// relative to the crate.
pub fn query_file_path(invocation: &Vec<PathComponent>, file: &Vec<PathComponent>, sibling_is_dir: bool) -> (r:
    Result<String, PostgresPathError>)
    ensures
        match postgres_dir_spec(comps(invocation@), sibling_is_dir) {
            Err(e) => r == Err::<String, PostgresPathError>(e),
            Ok(dir) => match query_dir_spec(comps(invocation@), dir) {
                Err(e) => r == Err::<String, PostgresPathError>(e),
                Ok(q) => match path_from_src_spec(join_spec(q, comps(file@))) {
                    Err(e) => r == Err::<String, PostgresPathError>(e),
                    Ok(rel) => r matches Ok(s) && s@ == rel,
                },
            },
        },
{
    let dir = postgres_dir_from_invocation(invocation, sibling_is_dir)?;
    let query_dir = query_dir_from_invocation(invocation, &dir)?;
    let query_path = join(&query_dir, file);
    path_from_src(&query_path)
}


/// Why `query_file_as!` refuses its arguments.
#[derive(Clone, Copy, PartialEq, Eq, Structural, Debug)]
pub enum QueryInputError {
    /// The first argument is not the path of the output struct.
    ExpectedOutStruct,
    /// The second argument is not the SQL file as a string literal.
    ExpectedFile,
}

impl QueryInputError {
    pub fn message(self) -> (r: &'static str)
        ensures
            r@ == match self {
                QueryInputError::ExpectedOutStruct => "expected the path of the output struct"@,
                QueryInputError::ExpectedFile => "expected the SQL file as a string literal"@,
            },
    {
        match self {
            QueryInputError::ExpectedOutStruct => "expected the path of the output struct",
            QueryInputError::ExpectedFile => "expected the SQL file as a string literal",
        }
    }
}

/// What the arguments of `query_file_as!(Out, "file.sql", args..)` give:
/// the file's text, when the first is a path and the second a string.
pub open spec fn query_file_of(args: Seq<(bool, Option<Seq<char>>)>) -> Result<Seq<char>, QueryInputError> {
    if args.len() == 0 || !args[0].0 {
        Err(QueryInputError::ExpectedOutStruct)
    } else if args.len() < 2 || args[1].1 is None {
        Err(QueryInputError::ExpectedFile)
    } else {
        Ok(args[1].1->Some_0)
    }
}

/// The SQL file named by the text of `query_file_as!`'s arguments: refused
/// with the parser's message when they are not comma-separated
/// expressions, and by [`query_file_of`] otherwise.
pub fn query_file_input(input: &str) -> (r: Result<String, MacroError<QueryInputError>>)
    ensures
        match exprs_text_shape(input@) {
            None => r matches Err(MacroError::Parse(_)),
            Some(args) => match query_file_of(args) {
                Ok(file) => r matches Ok(s) && s@ == file,
                Err(e) => r == Err::<String, MacroError<QueryInputError>>(MacroError::Refused(e)),
            },
        },
{
    let args = match parse_exprs(input) {
        Err(message) => {
            return Err(MacroError::Parse(message));
        },
        Ok(args) => args,
    };
    if args.len() == 0 || !args[0].is_path {
        return Err(MacroError::Refused(QueryInputError::ExpectedOutStruct));
    }
    if args.len() < 2 {
        return Err(MacroError::Refused(QueryInputError::ExpectedFile));
    }
    match &args[1].text {
        Some(t) => Ok(t.clone()),
        None => Err(MacroError::Refused(QueryInputError::ExpectedFile)),
    }
}


/// Where `query_file_as!` looks for SQL files: in the `query` directory of
/// the postgres tree, and in a subdirectory of it named after the file's
/// stem exactly when the invoking file sits directly in a `repository`
/// directory and is neither `mod.rs` nor `repository.rs`.
pub proof fn lemma_query_dir_layout(invocation: Seq<Comp>, postgres_dir: Seq<Comp>, name: Seq<char>)
    requires
        invocation.len() > 0,
        invocation.last() == Comp::Normal(name),
    ensures
        ({
            let in_repository = invocation.len() >= 2 && invocation[invocation.len() - 2] == Comp::Normal(
                "repository"@,
            );
            if in_repository && name != "mod.rs"@ && name != "repository.rs"@ {
                query_dir_spec(invocation, postgres_dir) == Ok::<Seq<Comp>, PostgresPathError>(
                    postgres_dir + seq![Comp::Normal("query"@), Comp::Normal(stem_of(name))],
                )
            } else {
                query_dir_spec(invocation, postgres_dir) == Ok::<Seq<Comp>, PostgresPathError>(
                    postgres_dir + seq![Comp::Normal("query"@)],
                )
            }
        }),
{
    let query = postgres_dir.push(Comp::Normal("query"@));
    assert(query =~= postgres_dir + seq![Comp::Normal("query"@)]);
    assert(query.push(Comp::Normal(stem_of(name))) =~= postgres_dir + seq![
        Comp::Normal("query"@),
        Comp::Normal(stem_of(name)),
    ]);
    if invocation.len() >= 2 {
        assert(invocation.drop_last().last() == invocation[invocation.len() - 2]);
    }
}

} // verus!
