use lib_backend::macros::constraint::{constraint_check_plan, constraint_plan, ConstraintCheckError, ConstraintError, IsValidCall};
use lib_backend::macros::instrument::{instrument_all_input_plan, repository_instrument_input, InstrumentArgError, RepositoryNameError};
use lib_backend::macros::postgres_paths::{query_file_input, QueryInputError};
use lib_backend::macros::syntax::MacroError;

#[test]
fn constraint_plan_reads_the_struct_text() {
    let args = constraint_plan("struct Len { err_fn: fn(usize, &usize, usize) -> E, min: usize, max: usize }").unwrap();
    let fields: Vec<(String, bool)> = args.into_iter().map(|a| (a.field, a.by_ref)).collect();
    assert_eq!(fields, vec![("min".to_string(), true), ("max".to_string(), false)]);
    assert!(matches!(constraint_plan("struct Len(u8);"), Err(MacroError::Refused(ConstraintError::NotNamedFields))));
    assert!(matches!(constraint_plan("struct Len { min: u8 }"), Err(MacroError::Refused(ConstraintError::MissingErrFn))));
    assert!(matches!(constraint_plan("struct Len { err_fn: u8 }"), Err(MacroError::Refused(ConstraintError::ErrFnNotFnPtr))));
    assert!(matches!(constraint_plan("struct Len { err_fn: fn() }"), Err(MacroError::Refused(ConstraintError::ErrFnWithoutValue))));
    assert!(matches!(constraint_plan("fn not_a_struct() {}"), Err(MacroError::Parse(_))));
}

#[test]
fn constraint_check_plan_reads_target_and_block() {
    let block = "impl Len { fn is_valid(&self, v: &usize) -> bool { true } }";
    assert!(matches!(constraint_check_plan("usize", block), Ok(IsValidCall::OnSelf)));
    let assoc = "impl Len { fn other() {} fn is_valid(v: &usize) -> bool { true } }";
    assert!(matches!(constraint_check_plan("usize", assoc), Ok(IsValidCall::Associated)));
    assert!(matches!(
        constraint_check_plan("", "not rust at all"),
        Err(MacroError::Refused(ConstraintCheckError::MissingTarget))
    ));
    assert!(matches!(constraint_check_plan("usize", "impl Len {}"), Err(MacroError::Refused(ConstraintCheckError::MissingIsValid))));
    assert!(matches!(constraint_check_plan("usize", "struct S;"), Err(MacroError::Parse(_))));
}

#[test]
fn instrument_all_input_plan_reads_arguments_and_block() {
    let block = "impl UserRepo { #[tracing::instrument] fn done(&self) {} fn find(&self) {} const X: u8 = 1; }";
    let plan = instrument_all_input_plan("", block).unwrap();
    assert_eq!(plan.len(), 3);
    assert!(plan[0].is_none());
    let find = plan[1].as_ref().unwrap();
    assert_eq!((find.name.as_str(), find.level.as_str()), ("UserRepo::find", "info"));
    assert!(plan[2].is_none());
    let plan = instrument_all_input_plan("prefix = \"repo\", level = \"debug\", prefix = \"users\"", block).unwrap();
    let find = plan[1].as_ref().unwrap();
    assert_eq!((find.name.as_str(), find.level.as_str()), ("users::find", "debug"));
    assert!(matches!(
        instrument_all_input_plan("name = \"x\"", block),
        Err(MacroError::Refused(InstrumentArgError::UnsupportedArgument))
    ));
    assert!(matches!(
        instrument_all_input_plan("level = 3", block),
        Err(MacroError::Refused(InstrumentArgError::ExpectedStringLiteral))
    ));
    assert!(matches!(instrument_all_input_plan("prefix", block), Err(MacroError::Parse(_))));
    assert!(matches!(instrument_all_input_plan("", "fn f() {}"), Err(MacroError::Parse(_))));
}

#[test]
fn repository_instrument_input_names_every_method() {
    let names = repository_instrument_input("\"UserRepository\"", "impl R { fn find_by_id(&self) {} type T = u8; }").unwrap();
    assert_eq!(names, vec![Some("UserRepository::find_by_id".to_string()), None]);
    assert!(matches!(
        repository_instrument_input("UserRepository", "impl R {}"),
        Err(MacroError::Refused(RepositoryNameError::ExpectedName))
    ));
}

#[test]
fn query_file_input_reads_the_file_literal() {
    assert_eq!(query_file_input("User, \"find.sql\", id, name").unwrap(), "find.sql");
    assert_eq!(query_file_input("crate::model::User, \"all.sql\"").unwrap(), "all.sql");
    assert!(matches!(query_file_input("\"find.sql\""), Err(MacroError::Refused(QueryInputError::ExpectedOutStruct))));
    assert!(matches!(query_file_input("User"), Err(MacroError::Refused(QueryInputError::ExpectedFile))));
    assert!(matches!(query_file_input("User, 3"), Err(MacroError::Refused(QueryInputError::ExpectedFile))));
    assert!(matches!(query_file_input("User,, \"x\""), Err(MacroError::Parse(_))));
}
