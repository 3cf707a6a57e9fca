use rustbricks::errors::{ErrorResponse, HttpError};

fn classify(code: &str, message: &str) -> HttpError {
    HttpError::from_error_response(ErrorResponse {
        error_code: code.to_string(),
        message: message.to_string(),
    })
}

#[test]
fn bad_request_code_classifies() {
    assert!(matches!(classify("BAD_REQUEST", "x"), HttpError::BadRequest(m) if m == "x"));
}

#[test]
fn invalid_parameter_value_code_classifies() {
    assert!(matches!(
        classify("INVALID_PARAMETER_VALUE", "x"),
        HttpError::BadRequest(m) if m == "x"
    ));
}

#[test]
fn unauthorized_code_classifies() {
    assert!(matches!(classify("UNAUTHORIZED", "x"), HttpError::Unauthorized(m) if m == "x"));
}

#[test]
fn permission_denied_code_classifies() {
    assert!(matches!(
        classify("PERMISSION_DENIED", "x"),
        HttpError::PermissionDenied(m) if m == "x"
    ));
}

#[test]
fn not_found_code_classifies() {
    assert!(matches!(classify("NOT_FOUND", "x"), HttpError::NotFound(m) if m == "x"));
}

#[test]
fn request_limit_exceeded_code_classifies() {
    assert!(matches!(
        classify("REQUEST_LIMIT_EXCEEDED", "x"),
        HttpError::RequestLimitExceeded(m) if m == "x"
    ));
}

#[test]
fn internal_server_error_code_classifies() {
    assert!(matches!(
        classify("INTERNAL_SERVER_ERROR", "x"),
        HttpError::InternalServerError(m) if m == "x"
    ));
}

#[test]
fn temporarily_unavailable_code_classifies() {
    assert!(matches!(
        classify("TEMPORARILY_UNAVAILABLE", "x"),
        HttpError::TemporarilyUnavailable(m) if m == "x"
    ));
}

#[test]
fn unknown_code_defaults_to_internal_server_error() {
    assert!(matches!(
        classify("WHATEVER", "anything"),
        HttpError::InternalServerError(m) if m == "anything"
    ));
}

#[test]
fn empty_code_defaults_to_internal_server_error() {
    assert!(matches!(classify("", "m"), HttpError::InternalServerError(m) if m == "m"));
}

#[test]
fn classification_is_repeatable() {
    for _ in 0..3 {
        assert!(matches!(classify("NOT_FOUND", "x"), HttpError::NotFound(m) if m == "x"));
    }
}

#[test]
fn message_accessor_returns_carried_text() {
    assert_eq!(classify("NOT_FOUND", "gone").message(), "gone");
    assert_eq!(classify("WHATEVER", "odd").message(), "odd");
    assert_eq!(HttpError::InternalError("cause".to_string()).message(), "cause");
}
