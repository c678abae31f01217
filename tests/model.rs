use base64::Engine;
use service_core::model::{Error, ErrorResponseType, ServiceException};

fn check_common(t: ErrorResponseType, code: u16, status: &str) {
    let e = ServiceException::common_error("something went wrong", t);
    assert_eq!(e.code, code);
    assert_eq!(e.status, status);
    assert_eq!(e.response_type, t);
    assert_eq!(e.errors.len(), 1);
    assert_eq!(e.errors[0].error.as_deref(), Some("something went wrong"));
    assert_eq!(e.errors[0].field, None);
    assert_eq!(e.errors[0].message, None);
}

#[test]
fn common_error_bad_request() {
    check_common(ErrorResponseType::BadRequest, 400, "Bad Request");
}

#[test]
fn common_error_unauthorized() {
    check_common(ErrorResponseType::Unauthorized, 401, "Unauthorized");
}

#[test]
fn common_error_forbidden() {
    check_common(ErrorResponseType::Forbidden, 403, "Forbidden");
}

#[test]
fn common_error_not_found() {
    check_common(ErrorResponseType::NotFound, 404, "Not Found");
}

#[test]
fn common_error_internal_server_error_keeps_message() {
    check_common(ErrorResponseType::InternalServerError, 500, "Internal Server Error");
}

#[test]
fn status_codes_and_labels() {
    let table = [
        (ErrorResponseType::BadRequest, 400, "Bad Request"),
        (ErrorResponseType::Unauthorized, 401, "Unauthorized"),
        (ErrorResponseType::Forbidden, 403, "Forbidden"),
        (ErrorResponseType::NotFound, 404, "Not Found"),
        (ErrorResponseType::InternalServerError, 500, "Internal Server Error"),
    ];
    for (t, code, label) in table {
        assert_eq!(t.status_code(), code);
        assert_eq!(t.label(), label);
    }
}

#[test]
fn internal_server_error_shape() {
    let e = ServiceException::internal_server_error();
    assert_eq!(e.code, 500);
    assert_eq!(e.status, "Internal Server Error");
    assert_eq!(e.response_type, ErrorResponseType::InternalServerError);
    assert_eq!(e.errors.len(), 1);
    assert_eq!(e.errors[0].error.as_deref(), Some("Internal Server Error"));
    assert_eq!(
        e.to_json(),
        r#"{"code":500,"status":"Internal Server Error","errors":[{"error":"Internal Server Error"}]}"#
    );
}

#[test]
fn error_entry_constructors() {
    let v = Error::for_validation("name".to_string(), "must not be empty".to_string());
    assert_eq!(v.error, None);
    assert_eq!(v.field.as_deref(), Some("name"));
    assert_eq!(v.message.as_deref(), Some("must not be empty"));
    let c = Error::common_error("boom");
    assert_eq!(c.error.as_deref(), Some("boom"));
    assert_eq!(c.field, None);
    assert_eq!(c.message, None);
}

#[test]
fn for_validation_keeps_entries() {
    let entries = vec![
        Error::for_validation("name".to_string(), "must not be empty".to_string()),
        Error::for_validation("age".to_string(), "too low".to_string()),
    ];
    let e = ServiceException::for_validation(entries);
    assert_eq!(e.code, 400);
    assert_eq!(e.status, "Bad Request");
    assert_eq!(e.response_type, ErrorResponseType::BadRequest);
    assert_eq!(e.errors.len(), 2);
    assert_eq!(e.errors[0].field.as_deref(), Some("name"));
    assert_eq!(e.errors[0].message.as_deref(), Some("must not be empty"));
    assert_eq!(e.errors[1].field.as_deref(), Some("age"));
    assert_eq!(e.errors[1].message.as_deref(), Some("too low"));
    assert_eq!(
        e.to_json(),
        r#"{"code":400,"status":"Bad Request","errors":[{"field":"name","message":"must not be empty"},{"field":"age","message":"too low"}]}"#
    );
}

#[test]
fn render_leaves_out_classification_and_absent_fields() {
    let e = ServiceException::common_error("gone", ErrorResponseType::NotFound);
    let body = e.to_json();
    assert_eq!(body, r#"{"code":404,"status":"Not Found","errors":[{"error":"gone"}]}"#);
    assert!(!body.contains("response_type"));
    assert!(!body.contains("NotFound"));
    assert!(!body.contains("null"));
}

#[test]
fn render_entry_with_no_fields() {
    let entries = vec![Error { error: None, field: None, message: None }];
    let e = ServiceException::for_validation(entries);
    assert_eq!(e.to_json(), r#"{"code":400,"status":"Bad Request","errors":[{}]}"#);
}

#[test]
fn render_entry_with_all_fields() {
    let entries = vec![Error {
        error: Some("e".to_string()),
        field: Some("f".to_string()),
        message: Some("m".to_string()),
    }];
    let e = ServiceException::for_validation(entries);
    assert_eq!(
        e.to_json(),
        r#"{"code":400,"status":"Bad Request","errors":[{"error":"e","field":"f","message":"m"}]}"#
    );
}

#[test]
fn render_escapes_strings() {
    let e = ServiceException::common_error("say \"hi\"\n\\", ErrorResponseType::Forbidden);
    assert_eq!(
        e.to_json(),
        r#"{"code":403,"status":"Forbidden","errors":[{"error":"say \"hi\"\n\\"}]}"#
    );
}

#[test]
fn render_empty_entry_list() {
    let e = ServiceException::for_validation(Vec::new());
    assert_eq!(e.to_json(), r#"{"code":400,"status":"Bad Request","errors":[]}"#);
}

#[test]
fn malformed_base64_is_bad_request() {
    let err = base64::engine::general_purpose::STANDARD.decode("@@not base64@@").unwrap_err();
    let e = ServiceException::from(err);
    assert_eq!(e.code, 400);
    assert_eq!(e.status, "Bad Request");
    assert_eq!(e.response_type, ErrorResponseType::BadRequest);
    assert_eq!(e.errors.len(), 1);
    assert_eq!(
        e.errors[0].error.as_deref(),
        Some("You inputted an invalid Base64 encoding")
    );
    assert_eq!(
        e.to_json(),
        r#"{"code":400,"status":"Bad Request","errors":[{"error":"You inputted an invalid Base64 encoding"}]}"#
    );
}

#[test]
fn malformed_base64_length_is_bad_request() {
    let err = base64::engine::general_purpose::STANDARD.decode("abc").unwrap_err();
    let e = ServiceException::from_decode_error(err);
    assert_eq!(e.code, 400);
    assert_eq!(e.response_type, ErrorResponseType::BadRequest);
}

#[test]
fn render_escapes_control_characters() {
    let e = ServiceException::common_error("a\u{1}b\tc\u{1f}", ErrorResponseType::BadRequest);
    assert_eq!(
        e.to_json(),
        r#"{"code":400,"status":"Bad Request","errors":[{"error":"a\u0001b\tc\u001f"}]}"#
    );
}

#[test]
fn decode_error_from_invalid_byte() {
    let e = ServiceException::from(base64::DecodeError::InvalidByte(3, b'!'));
    assert_eq!(e.code, 400);
    assert_eq!(e.status, "Bad Request");
    assert_eq!(e.errors.len(), 1);
    assert_eq!(
        e.errors[0].error.as_deref(),
        Some("You inputted an invalid Base64 encoding")
    );
    assert_eq!(e.errors[0].field, None);
    assert_eq!(e.errors[0].message, None);
}
