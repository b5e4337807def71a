use lib_backend::macros::constraint::{
    plan_constraint, plan_constraint_check, CheckItem, ConstraintCheckError, ConstraintError, FieldShape, FieldType,
    IsValidCall,
};
use lib_backend::macros::domain_type::{check_domain_type_shape, DataShape, DomainTypeShapeError, FieldsShape};
use lib_backend::macros::instrument::{
    default_level, default_prefix, instrument_all_impl, plan_instrument_all, span_name_for_method, ImplItemShape,
    MethodShape,
};
use lib_backend::macros::postgres_paths::{
    file_name, file_stem, join, migration_path, parent, path_from_src, postgres_dir_from_invocation,
    postgres_sibling, query_dir_from_invocation, query_file_path, stem, PathComponent, PostgresPathError,
};

fn method(name: &str, attrs: &[&[&str]]) -> ImplItemShape {
    ImplItemShape::Method(MethodShape {
        name: name.to_string(),
        attribute_paths: attrs.iter().map(|p| p.iter().map(|s| s.to_string()).collect()).collect(),
    })
}

#[test]
fn instrument_all_impl_names_methods() {
    let items = vec![method("find_by_id", &[]), ImplItemShape::Other, method("save", &[&["allow"]])];
    let names = instrument_all_impl("UserRepository", &items);
    assert_eq!(names, vec![Some("UserRepository::find_by_id".to_string()), None, Some("UserRepository::save".to_string())]);
    let names = instrument_all_impl("", &vec![method("method", &[])]);
    assert_eq!(names, vec![Some("::method".to_string())]);
    assert!(instrument_all_impl("Empty", &vec![]).is_empty());
}

#[test]
fn instrument_all_plan_skips_instrumented_methods() {
    let items = vec![
        method("a", &[]),
        method("b", &[&["instrument"]]),
        method("c", &[&["tracing", "instrument"]]),
        method("d", &[&["tracing", "info"]]),
        ImplItemShape::Other,
    ];
    let plan = plan_instrument_all("Repo", "debug", &items);
    let described: Vec<Option<(String, String)>> =
        plan.into_iter().map(|a| a.map(|a| (a.name, a.level))).collect();
    assert_eq!(
        described,
        vec![
            Some(("Repo::a".to_string(), "debug".to_string())),
            None,
            None,
            Some(("Repo::d".to_string(), "debug".to_string())),
            None
        ]
    );
    assert_eq!(span_name_for_method("", "run"), "run");
    assert_eq!(default_prefix(None, Some("UserRepo".to_string())), "UserRepo");
    assert_eq!(default_prefix(Some("P".to_string()), Some("UserRepo".to_string())), "P");
    assert_eq!(default_prefix(None, None), "");
    assert_eq!(default_level(None), "info");
    assert_eq!(default_level(Some("warn".to_string())), "warn");
}

#[test]
fn domain_type_shapes() {
    assert_eq!(check_domain_type_shape(DataShape::Struct(FieldsShape::Unnamed(1))), Ok(()));
    let cases = [
        (DataShape::Enum, DomainTypeShapeError::NotAStruct, "DomainType can only be derived for structs"),
        (DataShape::Union, DomainTypeShapeError::NotAStruct, "DomainType can only be derived for structs"),
        (DataShape::Struct(FieldsShape::Named(2)), DomainTypeShapeError::NamedFields, "DomainType can only be derived for unnamed field structs"),
        (DataShape::Struct(FieldsShape::Named(1)), DomainTypeShapeError::NamedFields, "DomainType can only be derived for unnamed field structs"),
        (DataShape::Struct(FieldsShape::Unnamed(2)), DomainTypeShapeError::NotOneField, "DomainType requires exactly one field in the struct"),
        (DataShape::Struct(FieldsShape::Unnamed(3)), DomainTypeShapeError::NotOneField, "DomainType requires exactly one field in the struct"),
        (DataShape::Struct(FieldsShape::Unnamed(0)), DomainTypeShapeError::NotOneField, "DomainType requires exactly one field in the struct"),
        (DataShape::Struct(FieldsShape::Unit), DomainTypeShapeError::NotOneField, "DomainType requires exactly one field in the struct"),
    ];
    for (shape, error, message) in cases {
        assert_eq!(check_domain_type_shape(shape), Err(error));
        assert_eq!(error.message(), message);
    }
}

fn field(name: &str, ty: FieldType) -> FieldShape {
    FieldShape { name: name.to_string(), ty }
}

#[test]
fn constraint_plan_pairs_state_with_parameters() {
    let fields = vec![
        field("min", FieldType::Other),
        field("err_fn", FieldType::FnPtr(vec![true, false, true])),
        field("max", FieldType::Other),
    ];
    let args = plan_constraint(true, &fields).expect("plan");
    let described: Vec<(String, bool)> = args.into_iter().map(|a| (a.field, a.by_ref)).collect();
    assert_eq!(described, vec![("min".to_string(), false), ("max".to_string(), true)]);
    let fields = vec![field("err_fn", FieldType::FnPtr(vec![false])), field("limit", FieldType::Other)];
    assert!(plan_constraint(true, &fields).expect("plan").is_empty());
    let fields = vec![field("err_fn", FieldType::FnPtr(vec![false, false, false]))];
    assert!(plan_constraint(true, &fields).expect("plan").is_empty());
}

#[test]
fn constraint_plan_errors() {
    assert_eq!(plan_constraint(false, &vec![]).unwrap_err(), ConstraintError::NotNamedFields);
    assert_eq!(plan_constraint(true, &vec![field("x", FieldType::Other)]).unwrap_err(), ConstraintError::MissingErrFn);
    assert_eq!(plan_constraint(true, &vec![field("err_fn", FieldType::Other)]).unwrap_err(), ConstraintError::ErrFnNotFnPtr);
    assert_eq!(
        plan_constraint(true, &vec![field("err_fn", FieldType::FnPtr(vec![]))]).unwrap_err(),
        ConstraintError::ErrFnWithoutValue
    );
    assert_eq!(ConstraintError::MissingErrFn.message(), "`constraint` requires an `err_fn` field");
}

#[test]
fn constraint_check_call_style() {
    let items = vec![
        CheckItem::Other,
        CheckItem::Method { name: "helper".to_string(), has_receiver: true },
        CheckItem::Method { name: "is_valid".to_string(), has_receiver: false },
        CheckItem::Method { name: "is_valid".to_string(), has_receiver: true },
    ];
    assert_eq!(plan_constraint_check(true, &items), Ok(IsValidCall::Associated));
    let items = vec![CheckItem::Method { name: "is_valid".to_string(), has_receiver: true }];
    assert_eq!(plan_constraint_check(true, &items), Ok(IsValidCall::OnSelf));
    assert_eq!(plan_constraint_check(true, &vec![CheckItem::Other]), Err(ConstraintCheckError::MissingIsValid));
    assert_eq!(plan_constraint_check(false, &items), Err(ConstraintCheckError::MissingTarget));
}

fn path(text: &str) -> Vec<PathComponent> {
    std::path::Path::new(text)
        .components()
        .map(|c| match c {
            std::path::Component::RootDir => PathComponent::RootDir,
            std::path::Component::CurDir => PathComponent::CurDir,
            std::path::Component::ParentDir => PathComponent::ParentDir,
            std::path::Component::Normal(s) => PathComponent::Normal(s.to_string_lossy().into_owned()),
            std::path::Component::Prefix(_) => PathComponent::RootDir,
        })
        .collect()
}

fn text_of(components: &[PathComponent]) -> String {
    let mut out = std::path::PathBuf::new();
    for c in components {
        match c {
            PathComponent::RootDir => out.push("/"),
            PathComponent::CurDir => out.push("."),
            PathComponent::ParentDir => out.push(".."),
            PathComponent::Normal(s) => out.push(s),
        }
    }
    out.to_string_lossy().into_owned()
}

#[test]
fn path_parts_match_std() {
    for text in ["/a/b/c.rs", "c.rs", "/", "a/..", "./x.tar.gz", ".hidden", "dir/file.", ""] {
        let p = path(text);
        let std_path = std::path::Path::new(text);
        assert_eq!(file_name(&p), std_path.file_name().map(|s| s.to_string_lossy().into_owned()), "{text}");
        assert_eq!(file_stem(&p), std_path.file_stem().map(|s| s.to_string_lossy().into_owned()), "{text}");
        assert_eq!(
            parent(&p).map(|q| text_of(&q)),
            std_path.parent().map(|q| q.to_string_lossy().into_owned()),
            "{text}"
        );
    }
    assert_eq!(stem("a.b.c"), "a.b");
    assert_eq!(text_of(&join(&path("/a/b"), &path("./c/d.sql"))), "/a/b/c/d.sql");
    assert_eq!(text_of(&join(&path("/a/b"), &path("/etc/x"))), "/etc/x");
}

#[test]
fn postgres_dir_and_paths() {
    let repo = path("/w/app/src/infra/postgres/repository/users.rs");
    let dir = postgres_dir_from_invocation(&repo, false).expect("dir");
    assert_eq!(text_of(&dir), "/w/app/src/infra/postgres");
    let query = query_dir_from_invocation(&repo, &dir).expect("query dir");
    assert_eq!(text_of(&query), "/w/app/src/infra/postgres/query/users");
    assert_eq!(
        query_file_path(&repo, &path("find_by_id.sql"), false),
        Ok("src/infra/postgres/query/users/find_by_id.sql".to_string())
    );
    assert_eq!(migration_path(&repo, false, false), Ok("./src/infra/postgres/migration".to_string()));
    assert_eq!(migration_path(&repo, true, false), Err(PostgresPathError::UnexpectedArguments));
    let module = path("/w/app/src/infra/postgres.rs");
    assert_eq!(text_of(&postgres_sibling(&module)), "/w/app/src/infra/postgres");
    assert_eq!(text_of(&postgres_dir_from_invocation(&module, true).expect("dir")), "/w/app/src/infra/postgres");
    assert_eq!(postgres_dir_from_invocation(&module, false).unwrap_err(), PostgresPathError::OutsidePostgresTree);
    let mod_rs = path("/w/app/src/infra/postgres/repository/mod.rs");
    let dir = postgres_dir_from_invocation(&mod_rs, false).expect("dir");
    assert_eq!(text_of(&query_dir_from_invocation(&mod_rs, &dir).expect("q")), "/w/app/src/infra/postgres/query");
    let repo_rs = path("/w/app/src/infra/postgres/repository.rs");
    let dir = postgres_dir_from_invocation(&repo_rs, false).expect("dir");
    assert_eq!(text_of(&query_dir_from_invocation(&repo_rs, &dir).expect("q")), "/w/app/src/infra/postgres/query");
    assert_eq!(path_from_src(&path("/w/app/lib/x")), Err(PostgresPathError::NoSrcComponent));
    assert_eq!(path_from_src(&path("/w/src/a/src/b")), Ok("src/a/src/b".to_string()));
    assert_eq!(postgres_dir_from_invocation(&path("/"), false).unwrap_err(), PostgresPathError::NoFileName);
}
