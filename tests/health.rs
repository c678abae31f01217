use service_core::health::health_body;

#[test]
fn health_body_is_ok() {
    assert_eq!(health_body(), r#"{"code":200,"status":"OK"}"#);
}
