use crate::config::AppConfig;
use crate::model::{lemma_internal_error_body, render_body, ErrorResponseType, ServiceException};
use vstd::prelude::*;

verus! {

/// `deadpool::managed::PoolError`, what a checkout of the pool fails with; opaque.
#[verifier::external_type_specification]
#[verifier::external_body]
#[verifier::reject_recursive_types(E)]
pub struct ExPoolError<E>(deadpool::managed::PoolError<E>);

/// `deadpool::managed::CreatePoolError`, what building the pool fails with; opaque.
#[verifier::external_type_specification]
#[verifier::external_body]
#[verifier::reject_recursive_types(C)]
pub struct ExCreatePoolError<C>(deadpool::managed::CreatePoolError<C>);

/// `deadpool_redis::ConfigError`, the configuration part of a pool build failure; opaque.
#[verifier::external_type_specification]
#[verifier::external_body]
pub struct ExConfigError(deadpool_redis::ConfigError);

/// `deadpool_redis::Connection`, a connection checked out of the pool; opaque.
#[verifier::external_type_specification]
#[verifier::external_body]
pub struct ExConnection(deadpool_redis::Connection);

/// `redis::RedisError`, a failure of the store or of its URL; opaque.
#[verifier::external_type_specification]
#[verifier::external_body]
pub struct ExRedisError(redis::RedisError);

/// `redis::Client`, a client that connects outside the pool; opaque.
#[verifier::external_type_specification]
#[verifier::external_body]
pub struct ExClient(redis::Client);

/// Whether `redis::Client::open` reads `url` as connection settings; it
/// depends on the text alone and opens no connection.
pub uninterp spec fn redis_url_accepted(url: Seq<char>) -> bool;

/// A deadpool-redis pool of store connections, opaque to proofs.
#[verifier::external_body]
pub struct ConnectionPool {
    pub inner: deadpool_redis::Pool,
}

/// The one pool of a client and the URL it was built for. Clients share it
/// among all requests; connections go back to it when dropped.
pub struct RedisPool {
    pub handle: ConnectionPool,
    pub url: Ghost<Seq<char>>,
}

/// Relies on `deadpool_redis::Config::from_url` and `Config::create_pool` on
/// the Tokio runtime: building makes a `Manager`, which fails exactly when
/// `redis::Client::open` refuses the URL; with the runtime given, the build
/// step itself cannot fail. No connection is opened.
#[verifier::external_body]
fn create_pool(url: &str) -> (r: Result<ConnectionPool, deadpool_redis::CreatePoolError>)
    ensures
        r is Ok <==> redis_url_accepted(url@),
{
    deadpool_redis::Config::from_url(url).create_pool(Some(deadpool_redis::Runtime::Tokio1)).map(
        |inner| ConnectionPool { inner },
    )
}

/// Relies on `redis::Client::open`: a client for the URL, or the error that
/// reading the URL met. Opening connects to nothing.
#[verifier::external_body]
fn open_client(url: &str) -> (r: Result<redis::Client, redis::RedisError>)
    ensures
        r is Ok <==> redis_url_accepted(url@),
{
    redis::Client::open(url)
}

/// A client of the key-value store: its URL and the pool built from it.
pub struct RedisClient {
    pub url: String,
    pub pool: RedisPool,
}

impl RedisClient {
    /// Whether the store client reads `url` as connection settings. Nothing
    /// is connected to.
    pub fn url_accepted(url: &str) -> (r: bool)
        ensures
            r == redis_url_accepted(url@),
    {
        open_client(url).is_ok()
    }

    /// Builds the one pool for the configured URL, which the store client
    /// must accept. No connection is opened, so a store that cannot be
    /// reached does not stop this.
    pub fn new(config: &AppConfig) -> (r: RedisClient)
        requires
            redis_url_accepted(config.redis_url@),
        ensures
            r.url@ == config.redis_url@,
            r.pool.url@ == config.redis_url@,
    {
        let url = RedisClient::get_redis_url(config);
        let pool = RedisClient::create_redis_pools(url.as_str());
        RedisClient { url, pool }
    }

    /// The client for the configured URL, or `None` where the store client
    /// refuses the URL; a caller at startup stops there, with no retry.
    pub fn from_config(config: &AppConfig) -> (r: Option<RedisClient>)
        ensures
            r is Some <==> redis_url_accepted(config.redis_url@),
            r matches Some(c) ==> c.url@ == config.redis_url@ && c.pool.url@ == config.redis_url@,
    {
        if RedisClient::url_accepted(config.redis_url.as_str()) {
            Some(RedisClient::new(config))
        } else {
            None
        }
    }

    fn get_redis_url(config: &AppConfig) -> (r: String)
        ensures
            r@ == config.redis_url@,
    {
        config.redis_url.clone()
    }

    fn create_redis_pools(url: &str) -> (r: RedisPool)
        requires
            redis_url_accepted(url@),
        ensures
            r.url@ == url@,
    {
        let handle = create_pool(url).unwrap();
        RedisPool { handle, url: Ghost(url@) }
    }

    /// A client that connects on its own, outside the pool, for a URL that
    /// the store client accepts. Nothing is connected to yet.
    pub fn connect_without_pool(url: &str) -> (r: redis::Client)
        requires
            redis_url_accepted(url@),
    {
        open_client(url).unwrap()
    }

    /// The client of `connect_without_pool`, or `None` where the store client
    /// refuses the URL.
    pub fn try_connect_without_pool(url: &str) -> (r: Option<redis::Client>)
        ensures
            r is Some <==> redis_url_accepted(url@),
    {
        if RedisClient::url_accepted(url) {
            Some(RedisClient::connect_without_pool(url))
        } else {
            None
        }
    }

    /// What a checkout of the pool gives a caller: the connection, or, for any
    /// failure of the pool or the store, the generic internal error.
    pub fn connection_result(
        checkout: Result<deadpool_redis::Connection, deadpool_redis::PoolError>,
    ) -> (r: Result<deadpool_redis::Connection, ServiceException>)
        ensures
            checkout is Ok <==> r is Ok,
            r matches Ok(c) ==> checkout == Ok::<deadpool_redis::Connection, deadpool_redis::PoolError>(c),
            r matches Err(e) ==> e.is_common(
                ErrorResponseType::InternalServerError,
                "Internal Server Error"@,
            ),
            r matches Err(e) ==> render_body(e.code, e.status@, e.errors@)
                == "{\"code\":500,\"status\":\"Internal Server Error\",\"errors\":[{\"error\":\"Internal Server Error\"}]}"@,
    {
        match checkout {
            Ok(c) => Ok(c),
            Err(e) => {
                let se = ServiceException::from_pool_error(e);
                proof {
                    lemma_internal_error_body(se);
                }
                Err(se)
            },
        }
    }
}

impl ServiceException {
    /// A failure of the pool: the generic internal error; the cause is not exposed.
    pub fn from_pool_error(e: deadpool_redis::PoolError) -> (r: ServiceException)
        ensures
            r.is_common(ErrorResponseType::InternalServerError, "Internal Server Error"@),
    {
        ServiceException::internal_server_error()
    }

    /// A failure of the store: the generic internal error; the cause is not exposed.
    pub fn from_redis_error(e: redis::RedisError) -> (r: ServiceException)
        ensures
            r.is_common(ErrorResponseType::InternalServerError, "Internal Server Error"@),
    {
        ServiceException::internal_server_error()
    }
}

impl From<deadpool_redis::PoolError> for ServiceException {
    /// The generic internal error; the cause is not exposed.
    fn from(e: deadpool_redis::PoolError) -> (r: ServiceException)
        ensures
            r.is_common(ErrorResponseType::InternalServerError, "Internal Server Error"@),
    {
        ServiceException::from_pool_error(e)
    }
}

impl vstd::std_specs::convert::FromSpecImpl<deadpool_redis::PoolError> for ServiceException {
    open spec fn obeys_from_spec() -> bool {
        false
    }

    open spec fn from_spec(e: deadpool_redis::PoolError) -> ServiceException {
        arbitrary()
    }
}

impl From<redis::RedisError> for ServiceException {
    /// The generic internal error; the cause is not exposed.
    fn from(e: redis::RedisError) -> (r: ServiceException)
        ensures
            r.is_common(ErrorResponseType::InternalServerError, "Internal Server Error"@),
    {
        ServiceException::from_redis_error(e)
    }
}

impl vstd::std_specs::convert::FromSpecImpl<redis::RedisError> for ServiceException {
    open spec fn obeys_from_spec() -> bool {
        false
    }

    open spec fn from_spec(e: redis::RedisError) -> ServiceException {
        arbitrary()
    }
}

/// What the server holds for every request: the store client and the settings.
pub struct AppState {
    pub redis_client: RedisClient,
    pub config: AppConfig,
}

} // verus!
