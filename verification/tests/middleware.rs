use lib_backend::clock::Timestamp;
use lib_backend::errors::envelope::ErrorData;
use lib_backend::errors::validation::FieldError;
use lib_backend::json::JsonValue;
use lib_backend::mask::{mask, server_errors, server_errors_if, MaskedResponse, ServerErrorMasking};
use lib_backend::negotiate::{plan, select_encoder, text_contains, Negotiation, JSON_CONTENT_TYPE};
use lib_backend::request_id::{enforce, RequestIdAction, RequestIdHeader, RequestIdPolicy, HEADER};

fn data(status: u16) -> ErrorData {
    ErrorData {
        status_code: status,
        error_code: "DB_DOWN".to_string(),
        message: "connection refused to 10.0.0.5".to_string(),
        trace_id: 42,
        timestamp: Timestamp { secs: 1_700_000_000, nanos: 5 },
        path: "/orders".to_string(),
        details: JsonValue::String("secret".to_string()),
        field_errors: vec![FieldError {
            field: "x".to_string(),
            issue: "y".to_string(),
            rejected_value: JsonValue::Null,
        }],
    }
}

#[test]
fn mask_replaces_server_error_data() {
    let r = mask(MaskedResponse { status_code: 503, error_data: Some(data(503)) });
    assert_eq!(r.status_code, 500);
    let d = r.error_data.expect("masked data");
    assert_eq!(d.status_code, 500);
    assert_eq!(d.error_code, "INTERNAL_ERROR");
    assert_eq!(d.message, "an internal error occurred");
    assert_eq!(d.trace_id, 42);
    assert_eq!(d.timestamp, Timestamp { secs: 1_700_000_000, nanos: 5 });
    assert_eq!(d.path, "/orders");
    assert!(d.details.is_null());
    assert!(d.field_errors.is_empty());
}

#[test]
fn mask_without_data_still_masks() {
    let r = mask(MaskedResponse { status_code: 500, error_data: None });
    assert_eq!(r.status_code, 500);
    let d = r.error_data.expect("masked data");
    assert_eq!(d.trace_id, 0);
    assert_eq!(d.path, "");
    assert_eq!(d.error_code, "INTERNAL_ERROR");
}

#[test]
fn mask_leaves_other_responses_alone() {
    for status in [200u16, 404, 499, 600] {
        let r = mask(MaskedResponse { status_code: status, error_data: Some(data(status)) });
        assert_eq!(r.status_code, status);
        assert_eq!(r.error_data.expect("kept").error_code, "DB_DOWN");
    }
    let r = mask(MaskedResponse { status_code: 200, error_data: None });
    assert!(r.error_data.is_none());
}

#[test]
fn mask_twice_equals_mask_once() {
    let once = mask(MaskedResponse { status_code: 502, error_data: Some(data(502)) });
    let once_data = once.error_data.as_ref().expect("data");
    let (code, trace, path) = (once_data.error_code.clone(), once_data.trace_id, once_data.path.clone());
    let twice = mask(once);
    let d = twice.error_data.expect("data");
    assert_eq!(twice.status_code, 500);
    assert_eq!((d.error_code, d.trace_id, d.path), (code, trace, path));
}

#[test]
fn masking_switch() {
    assert!(ServerErrorMasking::Enabled.to_bool());
    assert!(!ServerErrorMasking::Disabled.to_bool());
    let r = server_errors_if(ServerErrorMasking::Disabled, MaskedResponse { status_code: 500, error_data: Some(data(500)) });
    assert_eq!(r.error_data.expect("kept").error_code, "DB_DOWN");
    let r = server_errors_if(ServerErrorMasking::Enabled, MaskedResponse { status_code: 500, error_data: Some(data(500)) });
    assert_eq!(r.error_data.expect("masked").error_code, "INTERNAL_ERROR");
    let r = server_errors(MaskedResponse { status_code: 501, error_data: None });
    assert_eq!(r.status_code, 500);
}

fn is_rejection(action: &RequestIdAction) -> bool {
    match action {
        RequestIdAction::Reject(error) => {
            let inner = error.inner_struct();
            inner.status_code == 400
                && inner.error_code == "INVALID_REQUEST_ID"
                && inner.message == "`x-request-id` must be a valid UUID"
        },
        _ => false,
    }
}

fn text(s: &str) -> RequestIdHeader {
    RequestIdHeader::Text(s.to_string())
}

#[test]
fn request_id_header_name() {
    assert_eq!(HEADER, "x-request-id");
    assert_eq!(RequestIdPolicy::default(), RequestIdPolicy::Generate);
}

#[test]
fn generate_sets_a_fresh_hyphenated_uuid() {
    for header in [RequestIdHeader::Absent, RequestIdHeader::Unreadable, text("nope")] {
        match enforce(RequestIdPolicy::Generate, &header, None) {
            RequestIdAction::SetHeader(id) => {
                assert_eq!(id.len(), 36);
                assert!(uuid::Uuid::parse_str(&id).is_ok());
                assert_eq!(id.as_bytes()[14], b'7');
                assert!(matches!(id.as_bytes()[19], b'8' | b'9' | b'a' | b'b'));
                assert_eq!(uuid::Uuid::parse_str(&id).unwrap().get_version_num(), 7);
                assert_eq!(id, id.to_lowercase());
            },
            _ => panic!("expected a generated id"),
        }
    }
}

#[test]
fn require_rejects_missing_or_invalid_ids() {
    assert!(is_rejection(&enforce(RequestIdPolicy::Require, &RequestIdHeader::Absent, None)));
    assert!(is_rejection(&enforce(RequestIdPolicy::Require, &RequestIdHeader::Unreadable, None)));
    assert!(is_rejection(&enforce(RequestIdPolicy::Require, &text("123"), None)));
    assert!(is_rejection(&enforce(RequestIdPolicy::Require, &text("67e55044-10b1-426f-9247-bb680e5fe0c"), None)));
    assert!(matches!(
        enforce(RequestIdPolicy::Require, &text("67e55044-10b1-426f-9247-bb680e5fe0c8"), None),
        RequestIdAction::Forward
    ));
}

#[test]
fn reject_refuses_only_present_invalid_ids() {
    assert!(matches!(enforce(RequestIdPolicy::Reject, &RequestIdHeader::Absent, None), RequestIdAction::Forward));
    assert!(is_rejection(&enforce(RequestIdPolicy::Reject, &RequestIdHeader::Unreadable, None)));
    assert!(is_rejection(&enforce(RequestIdPolicy::Reject, &text("not-a-uuid"), None)));
    assert!(matches!(
        enforce(RequestIdPolicy::Reject, &text("67E55044-10B1-426F-9247-BB680E5FE0C8"), None),
        RequestIdAction::Forward
    ));
}

#[test]
fn every_uuid_text_form_is_accepted() {
    for form in [
        "67e5504410b1426f9247bb680e5fe0c8",
        "67e55044-10b1-426f-9247-bb680e5fe0c8",
        "{67e55044-10b1-426f-9247-bb680e5fe0c8}",
        "urn:uuid:67e55044-10b1-426f-9247-bb680e5fe0c8",
        "URN:UUID:67e55044-10b1-426f-9247-bb680e5fe0c8",
    ] {
        assert!(matches!(enforce(RequestIdPolicy::Require, &text(form), None), RequestIdAction::Forward), "{form}");
    }
    for form in [
        "67e55044-10b1-426f-9247-bb680e5fe0cg",
        "67e55044_10b1-426f-9247-bb680e5fe0c8",
        "(67e55044-10b1-426f-9247-bb680e5fe0c8)",
        "urn:uuix:67e55044-10b1-426f-9247-bb680e5fe0c8",
        "",
    ] {
        assert!(is_rejection(&enforce(RequestIdPolicy::Require, &text(form), None)), "{form}");
    }
}

#[test]
fn text_contains_finds_substrings() {
    assert!(text_contains("text/html, application/json;q=0.9", "application/json"));
    assert!(text_contains("abc", ""));
    assert!(!text_contains("application/xml", "application/json"));
    assert!(!text_contains("js", "json"));
    assert!(text_contains("ünïcødé", "cød"));
}

#[test]
fn select_encoder_takes_the_first_accepted() {
    let types = vec!["application/msgpack".to_string(), "application/xml".to_string(), "application/x".to_string()];
    assert_eq!(select_encoder(Some("application/xml, application/msgpack"), &types), Some(0));
    assert_eq!(select_encoder(Some("application/xml"), &types), Some(1));
    assert_eq!(select_encoder(Some("text/plain"), &types), None);
    assert_eq!(select_encoder(None, &types), None);
    assert_eq!(select_encoder(Some("application/json"), &vec![]), None);
}

#[test]
fn negotiation_plan() {
    let types = vec!["application/cbor".to_string()];
    assert_eq!(plan(false, Some("application/cbor"), &types), Negotiation::Unchanged);
    assert_eq!(plan(true, Some("application/cbor"), &types), Negotiation::Encoder(0));
    assert_eq!(plan(true, Some(JSON_CONTENT_TYPE), &types), Negotiation::Json);
    assert_eq!(plan(true, None, &types), Negotiation::Json);
}
