use vstd::prelude::*;

verus! {

/// The port served on when none is configured.
pub const DEFAULT_PORT: u16 = 4000;

/// Settings read at startup.
#[derive(Debug, Clone)]
pub struct AppConfig {
    pub rust_env: String,
    pub port: u16,
    pub redis_url: String,
}

impl AppConfig {
    /// Settings from what was configured, with "development" as the
    /// environment name and `DEFAULT_PORT` as the port where none was given.
    pub fn new(rust_env: Option<String>, port: Option<u16>, redis_url: String) -> (r: AppConfig)
        ensures
            r.rust_env@ == match rust_env {
                Some(s) => s@,
                None => "development"@,
            },
            r.port == match port {
                Some(p) => p,
                None => DEFAULT_PORT,
            },
            r.redis_url@ == redis_url@,
    {
        let rust_env = match rust_env {
            Some(s) => s,
            None => String::from_str("development"),
        };
        let port = match port {
            Some(p) => p,
            None => DEFAULT_PORT,
        };
        AppConfig { rust_env, port, redis_url }
    }
}

} // verus!
