use atlas::error::AppError;
use serde_json::Value;

fn slug_required() -> Value {
    let mut detail = serde_json::Map::new();
    detail.insert("field".to_string(), Value::String("slug".to_string()));
    detail.insert("error".to_string(), Value::String("required".to_string()));
    Value::Object(detail)
}

#[test]
fn test_validation_error() {
    let details = vec![slug_required()];
    let error = AppError::validation(details.clone(), "Validation failed");

    match error {
        AppError::Validation {
            details: d,
            code,
            message,
        } => {
            assert_eq!(d, details);
            assert_eq!(code, "validation_error");
            assert_eq!(message, "Validation failed");
        }
        _ => panic!("Expected Validation error"),
    }
}

#[test]
fn test_error_response_mapping() {
    let error = AppError::not_found("Resource not found");
    let response = error.into_response(false);
    assert_eq!(response.status, 404);
}

#[test]
fn test_internal_error_mapping() {
    let error = AppError::Internal("Database connection failed".to_string());
    let response = error.into_response(false);
    assert_eq!(response.status, 500);
}

#[test]
fn test_error_response_format() {
    let error = AppError::not_found("Test resource not found");
    let response = error.into_response(false);

    // The response carries the error format with trace_id and timestamp
    assert_eq!(response.status, 404);
    assert_eq!(response.body.code, "not_found");
    assert_eq!(response.body.message, "Test resource not found");
    assert!(response.body.details.is_empty());
    assert_eq!(response.body.trace_id.len(), 36);
    assert!(!response.body.timestamp.is_empty());
}

#[test]
fn every_kind_of_error_has_its_status_and_code() {
    let cases: Vec<(AppError, u16, &str)> = vec![
        (AppError::validation(vec![], "v"), 422, "validation_error"),
        (AppError::conflict(vec![], "c"), 409, "conflict"),
        (AppError::not_found("n"), 404, "not_found"),
        (AppError::unauthorized("u"), 401, "unauthorized"),
        (AppError::forbidden("f"), 403, "forbidden"),
        (AppError::bad_request("b"), 400, "bad_request"),
        (AppError::Internal("i".to_string()), 500, "internal_error"),
    ];
    for (error, status, code) in cases {
        assert_eq!(error.status_code(), status);
        let response = error.respond("trace".to_string(), "now".to_string(), false);
        assert_eq!(response.status, status);
        assert_eq!(response.body.code, code);
        assert_eq!(response.body.trace_id, "trace");
        assert_eq!(response.body.timestamp, "now");
    }
}

#[test]
fn internal_messages_are_hidden_on_request_only() {
    let shown = AppError::Internal("disk full".to_string()).respond(
        "t".to_string(),
        "now".to_string(),
        false,
    );
    assert_eq!(shown.body.message, "disk full");
    let hidden = AppError::Internal("disk full".to_string()).respond(
        "t".to_string(),
        "now".to_string(),
        true,
    );
    assert_eq!(hidden.body.message, "An internal server error occurred");
    let other = AppError::not_found("no such book").respond("t".to_string(), "now".to_string(), true);
    assert_eq!(other.body.message, "no such book");
}

#[test]
fn errors_describe_themselves_by_kind_and_message() {
    assert_eq!(AppError::validation(vec![], "bad slug").description(), "validation error: bad slug");
    assert_eq!(AppError::conflict(vec![], "taken").description(), "conflict: taken");
    assert_eq!(AppError::not_found("gone").description(), "not found: gone");
    assert_eq!(AppError::unauthorized("who").description(), "unauthorized: who");
    assert_eq!(AppError::forbidden("no").description(), "forbidden: no");
    assert_eq!(AppError::bad_request("what").description(), "bad request: what");
    assert_eq!(AppError::Internal("boom".to_string()).description(), "boom");
}

#[test]
fn error_body_renders_as_json() {
    let response = AppError::validation(vec![slug_required()], "Validation failed").respond(
        "trace-1".to_string(),
        "2024-01-01".to_string(),
        false,
    );
    let json = response.body.to_json();
    assert_eq!(json["error"]["code"], "validation_error");
    assert_eq!(json["error"]["message"], "Validation failed");
    assert_eq!(json["error"]["details"][0]["field"], "slug");
    assert_eq!(json["error"]["trace_id"], "trace-1");
    assert_eq!(json["error"]["timestamp"], "2024-01-01");
    assert_eq!(json.as_object().unwrap().len(), 1);
    assert_eq!(json["error"].as_object().unwrap().len(), 5);
}
