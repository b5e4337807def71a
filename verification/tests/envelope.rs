use lib_backend::clock::Timestamp;
use lib_backend::context::{panic_response, JsonErrorStruct};
use lib_backend::errors::envelope::{DefaultEnvelope, ErrorData, ErrorEnvelope, ErrorField, ErrorFields};
use lib_backend::errors::validation::FieldError;
use lib_backend::errors::{InternalErrorStringExt, JsonError, RequestMeta};
use lib_backend::json::JsonValue;

fn text(v: &JsonValue) -> String {
    match v {
        JsonValue::Null => "null".to_string(),
        JsonValue::Bool(b) => b.to_string(),
        JsonValue::Number(n) => n.clone(),
        JsonValue::String(s) => format!("{s:?}"),
        JsonValue::Array(items) => {
            let parts: Vec<String> = items.iter().map(text).collect();
            format!("[{}]", parts.join(","))
        },
        JsonValue::Object(members) => {
            let parts: Vec<String> = members.iter().map(|(k, v)| format!("{k:?}:{}", text(v))).collect();
            format!("{{{}}}", parts.join(","))
        },
    }
}

fn sample_data(details: JsonValue, field_errors: Vec<FieldError>) -> ErrorData {
    ErrorData {
        status_code: 422,
        error_code: "VALIDATION".to_string(),
        message: "bad input".to_string(),
        trace_id: 0x67e5504410b1426f9247bb680e5fe0c8,
        timestamp: Timestamp { secs: 0, nanos: 0 },
        path: "/users".to_string(),
        details,
        field_errors,
    }
}

#[test]
fn error_field_bits_are_distinct_powers_of_two() {
    assert_eq!(ErrorField::TraceId.bit(), 1);
    assert_eq!(ErrorField::Timestamp.bit(), 2);
    assert_eq!(ErrorField::Path.bit(), 4);
    assert_eq!(ErrorField::Details.bit(), 8);
}

#[test]
fn error_fields_all_none_and_default() {
    let all = ErrorFields::all();
    let none = ErrorFields::none();
    for f in [ErrorField::TraceId, ErrorField::Timestamp, ErrorField::Path, ErrorField::Details] {
        assert!(all.contains(f));
        assert!(!none.contains(f));
        assert!(ErrorFields::default().contains(f));
    }
    assert_eq!(ErrorFields::default(), all);
}

#[test]
fn error_fields_with_and_without_touch_one_field() {
    let set = ErrorFields::none().with(ErrorField::Path);
    assert!(set.contains(ErrorField::Path));
    assert!(!set.contains(ErrorField::TraceId));
    let set = set.with(ErrorField::Details).without(ErrorField::Path);
    assert!(!set.contains(ErrorField::Path));
    assert!(set.contains(ErrorField::Details));
    assert_eq!(ErrorFields::all().without(ErrorField::Timestamp).with(ErrorField::Timestamp), ErrorFields::all());
    assert_eq!(ErrorFields::none().with(ErrorField::TraceId).without(ErrorField::TraceId), ErrorFields::none());
}

#[test]
fn default_envelope_renders_every_selected_member() {
    let data = sample_data(JsonValue::Bool(true), vec![]);
    let body = DefaultEnvelope::default().render(&data);
    assert_eq!(
        text(&body),
        "{\"code\":\"VALIDATION\",\"message\":\"bad input\",\"traceId\":\"67e55044-10b1-426f-9247-bb680e5fe0c8\",\"timestamp\":\"1970-01-01T00:00:00Z\",\"path\":\"/users\",\"details\":true}"
    );
}

#[test]
fn default_envelope_drops_unselected_and_null_members() {
    let fields = ErrorFields::all().without(ErrorField::TraceId).without(ErrorField::Timestamp);
    let data = sample_data(JsonValue::Null, vec![]);
    let body = DefaultEnvelope::new(fields).render(&data);
    assert_eq!(text(&body), "{\"code\":\"VALIDATION\",\"message\":\"bad input\",\"path\":\"/users\"}");
    let body = DefaultEnvelope::new(ErrorFields::none()).render(&sample_data(JsonValue::Bool(false), vec![]));
    assert_eq!(text(&body), "{\"code\":\"VALIDATION\",\"message\":\"bad input\"}");
}

#[test]
fn default_envelope_lists_field_errors() {
    let errors = vec![
        FieldError { field: "name".to_string(), issue: "too short".to_string(), rejected_value: JsonValue::String("a".to_string()) },
        FieldError { field: "age".to_string(), issue: "required".to_string(), rejected_value: JsonValue::Null },
    ];
    let body = DefaultEnvelope::new(ErrorFields::none()).render(&sample_data(JsonValue::Null, errors));
    assert_eq!(
        text(&body),
        "{\"code\":\"VALIDATION\",\"message\":\"bad input\",\"fieldErrors\":[{\"field\":\"name\",\"issue\":\"too short\",\"rejectedValue\":\"a\"},{\"field\":\"age\",\"issue\":\"required\"}]}"
    );
}

#[test]
fn json_error_takes_trace_and_path_from_the_request() {
    let meta = RequestMeta { http_route: "/items/{id}".to_string(), request_id: Some(1) };
    let error = JsonError::new(404, "NOT_FOUND", "missing", Some(&meta));
    let inner = error.inner_struct();
    assert_eq!(inner.status_code, 404);
    assert_eq!(inner.error_code, "NOT_FOUND");
    assert_eq!(inner.path, "/items/{id}");
    assert_eq!(inner.trace_id, 1);
    let body = text(&error.to_json());
    assert!(body.starts_with("{\"code\":\"NOT_FOUND\",\"message\":\"missing\",\"traceId\":\"00000000-0000-0000-0000-000000000001\",\"timestamp\":"));
    assert!(body.ends_with(",\"path\":\"/items/{id}\"}"));
}

#[test]
fn json_error_without_request_uses_unknown_path_and_nil_id() {
    let error = JsonError::new(500, "X", "y", None);
    assert_eq!(error.inner_struct().path, "unknown");
    assert_eq!(error.inner_struct().trace_id, 0);
    let body = text(&error.to_json());
    assert!(body.contains("\"traceId\":\"00000000-0000-0000-0000-000000000000\""));
}

#[test]
fn json_error_with_details_and_validation_bodies() {
    let error = JsonError::with_details(409, "CONFLICT", "taken", JsonValue::Number("3".to_string()), None);
    assert!(text(&error.to_json()).ends_with(",\"path\":\"unknown\",\"details\":3}"));
    let error = JsonError::validation(400, "INVALID", "bad", vec![], None);
    assert!(text(&error.to_json()).ends_with(",\"path\":\"unknown\",\"fieldErrors\":[]}"));
}

#[test]
fn internal_error_string_with_debug_cases() {
    let public = "Something went wrong on our side...";
    for (is_debug, input, expected) in [
        (true, "TestError: Something went wrong", "TestError: Something went wrong"),
        (false, "TestError: Something went wrong", public),
        (true, "Database connection failed", "Database connection failed"),
        (false, "Database connection failed", public),
        (true, "Network timeout", "Network timeout"),
        (false, "Network timeout", public),
        (true, "500", "500"),
        (false, "500", public),
    ] {
        assert_eq!(input.to_string().to_internal_error_string_with_debug(is_debug, public), expected);
        assert_eq!(input.to_internal_error_string_with_debug(is_debug, public), expected);
    }
}

#[test]
fn panic_response_body() {
    let response = panic_response();
    assert_eq!(response.status_code, 500);
    assert_eq!(text(&response.to_json()), "{\"error_code\":\"internal_server_error\",\"errors\":[\"Service panicked\"]}");
}

#[test]
fn plain_json_error_struct_new_cases() {
    let e = JsonErrorStruct::new(400, "validation_error", vec!["Field is required", "Invalid format"]);
    assert_eq!(e.status_code, 400);
    assert_eq!(e.error_code, "validation_error");
    assert_eq!(e.errors, vec!["Field is required".to_string(), "Invalid format".to_string()]);
    let e = JsonErrorStruct::new(404, "not_found", vec![]);
    assert!(e.errors.is_empty());
}

#[test]
fn error_fields_with_is_idempotent_and_commutes() {
    let fields = [ErrorField::TraceId, ErrorField::Timestamp, ErrorField::Path, ErrorField::Details];
    for base in [ErrorFields::none(), ErrorFields::all(), ErrorFields::none().with(ErrorField::Path)] {
        for x in fields {
            assert_eq!(base.with(x).with(x), base.with(x));
            assert_eq!(base.with(x).without(x), base.without(x));
            assert_eq!(base.without(x).with(x), base.with(x));
            for y in fields {
                assert_eq!(base.with(x).with(y), base.with(y).with(x));
                assert_eq!(base.with(x).contains(y), y == x || base.contains(y));
                assert_eq!(base.without(x).contains(y), y != x && base.contains(y));
            }
        }
    }
    assert_eq!(DefaultEnvelope::default().fields, ErrorFields::all());
}

#[test]
fn json_error_with_context_body() {
    let meta = RequestMeta { http_route: "/items".to_string(), request_id: Some(1) };
    let error = JsonError::with_context(422, "BAD", "no", JsonValue::Bool(true), Some(&meta));
    assert_eq!(error.inner_struct().status_code, 422);
    assert_eq!(error.inner_struct().trace_id, 1);
    assert!(text(&error.to_json()).ends_with(",\"path\":\"/items\",\"details\":true}"));
}
