use service_core::config::{AppConfig, DEFAULT_PORT};

#[test]
fn config_defaults() {
    let c = AppConfig::new(None, None, "redis://127.0.0.1:6379".to_string());
    assert_eq!(c.rust_env, "development");
    assert_eq!(c.port, 4000);
    assert_eq!(DEFAULT_PORT, 4000);
    assert_eq!(c.redis_url, "redis://127.0.0.1:6379");
}

#[test]
fn config_given_values() {
    let c = AppConfig::new(Some("production".to_string()), Some(8080), "redis://cache:6379".to_string());
    assert_eq!(c.rust_env, "production");
    assert_eq!(c.port, 8080);
    assert_eq!(c.redis_url, "redis://cache:6379");
}
