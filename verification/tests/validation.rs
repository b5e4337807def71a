use lib_backend::domain::{ExternalInput, ValidationError, ValidationErrors};
use lib_backend::errors::validation::{FieldError, FieldErrors};
use lib_backend::json::JsonValue;
use lib_backend::user_input::{Attempt, LossyUserInput, UserInput};
use lib_backend::validation::decimal;
use lib_backend::validation::parseable::{combine_results, prefix_result, Parseable};
use lib_backend::validation::validator::{Validator, ValidatorResult};

fn fields(errors: &FieldErrors) -> Vec<String> {
    errors.inner().iter().map(|e| e.field.clone()).collect()
}

fn positive(input: ExternalInput<i64>) -> Result<u32, ValidationErrors> {
    match input {
        ExternalInput::Typed(n) if n > 0 && n <= u32::MAX as i64 => Ok(n as u32),
        ExternalInput::Typed(n) => Err(ValidationErrors::with_error("must be positive", JsonValue::Number(n.to_string()))),
        ExternalInput::WrongType(v) => Err(ValidationErrors::with_error("must be a number", v)),
        ExternalInput::Null => Err(ValidationErrors::with_error("must not be null", JsonValue::Null)),
        ExternalInput::Missing => Err(ValidationErrors::with_error("is required", JsonValue::Null)),
    }
}

#[test]
fn field_errors_push_extend_and_result() {
    let mut errors = FieldErrors::new();
    assert!(errors.is_empty());
    assert!(matches!(errors.duplicate().into_result(|_| 7), Ok(7)));
    errors.push("name", "too short", JsonValue::String("a".to_string()));
    let mut more = FieldErrors::default();
    more.push("age", "required", JsonValue::Null);
    errors.extend(more);
    assert_eq!(fields(&errors), vec!["name", "age"]);
    assert_eq!(errors.len(), 2);
    let result = errors.into_result(|_| 7);
    assert!(matches!(result, Err(e) if e.len() == 2));
}

#[test]
fn field_errors_from_validation_errors_and_groups() {
    let mut v = ValidationErrors::new();
    v.push(ValidationError { issue: "a".to_string(), rejected_value: JsonValue::Null });
    v.push(ValidationError { issue: "b".to_string(), rejected_value: JsonValue::Bool(true) });
    let errors = FieldErrors::from_validation_errors("email", v);
    assert_eq!(fields(&errors), vec!["email", "email"]);
    let issues: Vec<String> = errors.inner().iter().map(|e| e.issue.clone()).collect();
    assert_eq!(issues, vec!["a", "b"]);
    let mut other = FieldErrors::new();
    other.push("x", "y", JsonValue::Null);
    let all = FieldErrors::from_groups(vec![errors, FieldErrors::new(), other]);
    assert_eq!(fields(&all), vec!["email", "email", "x"]);
    let list = FieldErrors::from_errors(vec![FieldError { field: "f".to_string(), issue: "i".to_string(), rejected_value: JsonValue::Null }]);
    assert_eq!(fields(&list), vec!["f"]);
}

#[test]
fn validator_required_records_violations() {
    let mut errors = FieldErrors::new();
    let ok = Validator::<u32>::required("age", UserInput::Typed(30), positive, &mut errors);
    assert!(errors.is_empty());
    let bad = Validator::<u32>::required("count", UserInput::Typed(-1), positive, &mut errors);
    let missing = Validator::<u32>::required("size", UserInput::Missing, positive, &mut errors);
    assert_eq!(fields(&errors), vec!["count", "size"]);
    assert_eq!(errors.inner()[1].issue, "is required");
    assert!(errors.duplicate().into_result(|_| ()).is_err());
    let _ = (bad, missing);
    let mut clean = FieldErrors::new();
    let ok2 = Validator::<u32>::required("age", UserInput::Typed(5), positive, &mut clean);
    let confirmation = clean.into_result(|c| c).expect("no errors");
    assert_eq!(ok.map(|n| n * 2).validated(confirmation), 60);
    let _ = ok2;
}

#[test]
fn validator_nullable_and_optional_variants() {
    let mut errors = FieldErrors::new();
    let a = Validator::<Option<u32>>::required_nullable("a", UserInput::Null, positive, &mut errors);
    let b = Validator::<Option<u32>>::optional("b", UserInput::Missing, positive, &mut errors);
    let c = Validator::<Option<Option<u32>>>::optional_nullable("c", UserInput::Missing, positive, &mut errors);
    let d = Validator::<Option<Option<u32>>>::optional_nullable("d", UserInput::Null, positive, &mut errors);
    let e = Validator::<Option<Option<u32>>>::optional_nullable("e", UserInput::Typed(3), positive, &mut errors);
    assert!(errors.is_empty());
    let confirmation = errors.into_result(|c| c).expect("no errors");
    assert_eq!(a.validated(confirmation), None);
    let mut errors = FieldErrors::new();
    let f = Validator::<Option<u32>>::optional("f", UserInput::Null, positive, &mut errors);
    let g = Validator::<Option<u32>>::required_nullable("g", UserInput::Missing, positive, &mut errors);
    assert_eq!(fields(&errors), vec!["f", "g"]);
    let _ = (b, c, d, e, f, g);
}

#[test]
fn validators_collect_first_failure() {
    let mut errors = FieldErrors::new();
    let all = Validator::<u32>::from_validators(vec![
        Validator::<u32>::required("a", UserInput::Typed(1), positive, &mut errors),
        Validator::<u32>::required("b", UserInput::Typed(2), positive, &mut errors),
    ]);
    let confirmation = errors.into_result(|c| c).expect("no errors");
    assert_eq!(all.validated(confirmation), vec![1, 2]);
}

#[test]
fn prefix_result_nests_paths() {
    let mut inner = FieldErrors::new();
    inner.push("street", "required", JsonValue::Null);
    inner.push("", "must be object", JsonValue::Null);
    let r: ValidatorResult<()> = prefix_result(Some("address".to_string()), Err(inner));
    assert_eq!(fields(&r.unwrap_err()), vec!["address.street", "address"]);
    let mut inner = FieldErrors::new();
    inner.push("street", "required", JsonValue::Null);
    let r: ValidatorResult<()> = prefix_result(None, Err(inner));
    assert_eq!(fields(&r.unwrap_err()), vec![".street"]);
    let r: ValidatorResult<u8> = prefix_result(Some("x".to_string()), Ok(4));
    assert_eq!(r.unwrap(), 4);
}

struct Tag(i64);

impl Default for Tag {
    fn default() -> Self {
        Tag(-1)
    }
}

impl Parseable<u32> for Tag {
    fn parse(self) -> ValidatorResult<u32> {
        if self.0 >= 0 {
            Ok(self.0 as u32)
        } else {
            let mut e = FieldErrors::new();
            e.push("value", "negative", JsonValue::Number(self.0.to_string()));
            Err(e)
        }
    }
}

#[test]
fn vec_parse_reports_indices() {
    let ok = vec![Tag(1), Tag(2)].parse();
    assert_eq!(ok.unwrap(), vec![1, 2]);
    let bad = vec![Tag(1), Tag(-2), Tag(3), Tag(-4)].parse();
    assert_eq!(fields(&bad.unwrap_err()), vec!["1.value", "3.value"]);
    let nested = vec![Tag(5)].parse_field(Some("tags".to_string()));
    assert_eq!(nested.unwrap(), vec![5]);
}

#[test]
fn user_input_parse_cases() {
    assert_eq!(UserInput::Typed(Tag(3)).parse().unwrap(), 3);
    assert!(UserInput::<Tag>::Missing.parse().is_err());
    let wrong = UserInput::<Tag>::WrongType(JsonValue::Bool(true)).parse().unwrap_err();
    assert_eq!(fields(&wrong), vec![""]);
    assert_eq!(wrong.inner()[0].issue, "must be object");
}

#[test]
fn combine_results_keeps_order() {
    let mut e = FieldErrors::new();
    e.push("a", "x", JsonValue::Null);
    let r = combine_results(vec![Ok(1), Err(e), Ok(3)]);
    assert_eq!(fields(&r.unwrap_err()), vec!["a"]);
    let r = combine_results(vec![Ok(1), Err(FieldErrors::new()), Ok(3)]);
    assert_eq!(r.unwrap(), vec![1, 3]);
    let r: ValidatorResult<Vec<u8>> = combine_results(vec![]);
    assert!(r.unwrap().is_empty());
}

#[test]
fn decimal_text_of_indices() {
    for n in [0usize, 7, 10, 42, 1000, 65535, 1234567890] {
        assert_eq!(decimal(n), n.to_string());
    }
}

#[test]
fn user_input_from_deserialized() {
    assert!(matches!(UserInput::<u8>::default(), UserInput::Missing));
    assert!(matches!(UserInput::from_deserialized(JsonValue::Number("4".to_string()), Attempt::Value(4u8)), UserInput::Typed(4)));
    assert!(matches!(UserInput::<u8>::from_deserialized(JsonValue::Null, Attempt::Null), UserInput::Null));
    assert!(matches!(
        UserInput::<u8>::from_deserialized(JsonValue::String("x".to_string()), Attempt::Failed),
        UserInput::WrongType(JsonValue::String(s)) if s == "x"
    ));
    assert!(matches!(UserInput::Typed(3u8).into_external(), ExternalInput::Typed(3)));
    assert!(matches!(UserInput::<u8>::Null.into_external(), ExternalInput::Null));
    assert_eq!(UserInput::Typed(9u8).as_option(), Some(&9));
}

#[test]
fn lossy_user_input_parses_strings() {
    let parse = |s: &String| s.parse::<u8>().ok();
    let r = LossyUserInput::from_deserialized(JsonValue::String("12".to_string()), Attempt::<u8>::Failed, parse);
    assert!(matches!(r.0, UserInput::Typed(12)));
    let r = LossyUserInput::from_deserialized(JsonValue::String("x".to_string()), Attempt::<u8>::Failed, parse);
    assert!(matches!(r.0, UserInput::WrongType(_)));
    let r = LossyUserInput::from_deserialized(JsonValue::Bool(true), Attempt::<u8>::Failed, parse);
    assert!(matches!(r.0, UserInput::WrongType(JsonValue::Bool(true))));
    let r = LossyUserInput::from_deserialized(JsonValue::Number("3".to_string()), Attempt::Value(3u8), parse);
    assert!(matches!(r.0, UserInput::Typed(3)));
    assert!(matches!(LossyUserInput::<u8>::default().0, UserInput::Missing));
}
