use lib_backend::health::{live_status, ReadinessResponse};
use lib_backend::namespace::Namespace;
use lib_backend::routes::{fallback_404, fallback_405};
use lib_backend::startup::{is_openapi_route, text_equals, RestApiSettings};
use lib_backend::tracing::{
    marks_span_error, response_route, span_name, AxumOtelOnFailure, AxumOtelOnResponse, AxumOtelSpanCreator,
    FailureClass, Level,
};
use lib_backend::mask::ServerErrorMasking;
use lib_backend::request_id::RequestIdPolicy;

#[test]
fn namespace_keys_nest() {
    let ns = Namespace::new("app");
    assert_eq!(ns.key("session"), "app::session");
    let users = ns.nest("users");
    assert_eq!(users.key("42"), "app::users::42");
    assert_eq!(users.nest("cache").key("x"), "app::users::cache::x");
    assert_eq!(Namespace::new("").key(""), "::");
}

#[test]
fn fallbacks() {
    let e = fallback_404(None);
    assert_eq!(e.inner_struct().status_code, 404);
    assert_eq!(e.inner_struct().error_code, "NOT_FOUND");
    assert_eq!(e.inner_struct().message, "the specified route does not exist");
    let e = fallback_405(None);
    assert_eq!(e.inner_struct().status_code, 405);
    assert_eq!(e.inner_struct().error_code, "METHOD_NOT_ALLOWED");
    assert_eq!(e.inner_struct().message, "the specified route does not support this method");
}

#[test]
fn readiness_and_liveness_status() {
    assert_eq!(ReadinessResponse::from_status(true).status_code(), 200);
    assert_eq!(ReadinessResponse::from_status(false).status_code(), 503);
    assert_eq!(live_status(), 204);
}

#[test]
fn openapi_routes() {
    assert!(is_openapi_route("/openapi"));
    assert!(is_openapi_route("/openapi.json"));
    assert!(!is_openapi_route("/openapi/"));
    assert!(!is_openapi_route("/api"));
    assert!(text_equals("", ""));
    assert!(!text_equals("a", "ab"));
}

#[test]
fn rest_api_settings() {
    let s = RestApiSettings::new();
    assert_eq!(s.request_id_policy, RequestIdPolicy::Generate);
    assert_eq!(s.mask_server_errors, ServerErrorMasking::Disabled);
    let s = s.with_request_id_policy(RequestIdPolicy::Require).with_masked_server_errors(ServerErrorMasking::Enabled);
    assert_eq!(s.request_id_policy, RequestIdPolicy::Require);
    assert_eq!(s.mask_server_errors, ServerErrorMasking::Enabled);
}

#[test]
fn tracing_levels_and_names() {
    assert_eq!(AxumOtelSpanCreator::new().span_level(), Level::Trace);
    assert_eq!(AxumOtelSpanCreator::default().level(Level::Info).span_level(), Level::Info);
    assert_eq!(AxumOtelOnFailure::new().event_level(), Level::Error);
    assert_eq!(AxumOtelOnFailure::default().level(Level::Warn).event_level(), Level::Warn);
    assert_eq!(AxumOtelOnResponse::new().event_level(), Level::Debug);
    assert_eq!(AxumOtelOnResponse::default().level(Level::Info).event_level(), Level::Info);
    assert_eq!(span_name("GET", Some("/users/{id}")), "GET /users/{id}");
    assert_eq!(span_name("POST", None), "POST");
    assert!(marks_span_error(&FailureClass::StatusCode(503)));
    assert!(!marks_span_error(&FailureClass::StatusCode(404)));
    assert!(!marks_span_error(&FailureClass::Error("boom".to_string())));
    assert_eq!(response_route(None), "unknown");
    assert_eq!(response_route(Some("/a".to_string())), "/a");
}
