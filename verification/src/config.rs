//! Process configuration, read from a snapshot of the environment.

use vstd::prelude::*;
use crate::fields::{fields_view, first_value, lookup, Field};
use crate::numbers::{
    boolean,
    decimal_up_to,
    digits_value,
    parse_bool,
    parse_u16,
    parse_u32,
    parse_u64,
    unsigned_digits,
};

verus! {

/// The whole configuration of the gateway.
#[derive(Debug, Clone)]
pub struct Config {
    pub app: AppConfig,
    pub redis: RedisConfig,
    pub auth: AuthConfig,
    pub rate_limit: RateLimitConfig,
}

/// The listening port and the identity that the gateway presents upstream.
#[derive(Debug, Clone)]
pub struct AppConfig {
    pub port: u16,
    pub client_name: String,
    pub device_name: String,
    pub client_version: String,
}

/// Where the session store is.
#[derive(Debug, Clone)]
pub struct RedisConfig {
    pub url: String,
}

/// The session cookie's name and whether it is sent over TLS only.
#[derive(Debug, Clone)]
pub struct AuthConfig {
    pub cookie_name: String,
    pub cookie_secure: bool,
}

/// The limits handed to the rate limiter.
#[derive(Debug, Clone)]
pub struct RateLimitConfig {
    pub per_second: u64,
    pub burst: u32,
}

/// Why the environment does not make a configuration.
#[derive(Debug)]
pub enum ConfigError {
    /// A variable without a default is not set.
    Missing { key: String },
    /// A variable holds text that is not what it must be.
    Invalid { key: String, expected: String },
}

/// The view of an `AppConfig`.
pub struct AppConfigView {
    pub port: u16,
    pub client_name: Seq<char>,
    pub device_name: Seq<char>,
    pub client_version: Seq<char>,
}

/// The view of a `RedisConfig`.
pub struct RedisConfigView {
    pub url: Seq<char>,
}

/// The view of an `AuthConfig`.
pub struct AuthConfigView {
    pub cookie_name: Seq<char>,
    pub cookie_secure: bool,
}

/// The view of a `Config`.
pub struct ConfigView {
    pub app: AppConfigView,
    pub redis: RedisConfigView,
    pub auth: AuthConfigView,
    pub rate_limit: RateLimitConfig,
}

/// The view of a `ConfigError`.
pub enum ConfigErrorView {
    Missing { key: Seq<char> },
    Invalid { key: Seq<char>, expected: Seq<char> },
}

impl View for AppConfig {
    type V = AppConfigView;

    open spec fn view(&self) -> AppConfigView {
        AppConfigView {
            port: self.port,
            client_name: self.client_name@,
            device_name: self.device_name@,
            client_version: self.client_version@,
        }
    }
}

impl View for RedisConfig {
    type V = RedisConfigView;

    open spec fn view(&self) -> RedisConfigView {
        RedisConfigView { url: self.url@ }
    }
}

impl View for AuthConfig {
    type V = AuthConfigView;

    open spec fn view(&self) -> AuthConfigView {
        AuthConfigView { cookie_name: self.cookie_name@, cookie_secure: self.cookie_secure }
    }
}

impl View for RateLimitConfig {
    type V = RateLimitConfig;

    open spec fn view(&self) -> RateLimitConfig {
        *self
    }
}

impl View for Config {
    type V = ConfigView;

    open spec fn view(&self) -> ConfigView {
        ConfigView {
            app: self.app@,
            redis: self.redis@,
            auth: self.auth@,
            rate_limit: self.rate_limit,
        }
    }
}

impl View for ConfigError {
    type V = ConfigErrorView;

    open spec fn view(&self) -> ConfigErrorView {
        match self {
            ConfigError::Missing { key } => ConfigErrorView::Missing { key: key@ },
            ConfigError::Invalid { key, expected } => ConfigErrorView::Invalid {
                key: key@,
                expected: expected@,
            },
        }
    }
}

/// The view of an outcome of reading configuration.
pub open spec fn outcome_view<T: View>(r: Result<T, ConfigError>) -> Result<T::V, ConfigErrorView> {
    match r {
        Ok(v) => Ok(v@),
        Err(e) => Err(e@),
    }
}

/// The value of `key` in the environment, or `default` where it is not set.
pub open spec fn env_or(env: Seq<(Seq<char>, Seq<char>)>, key: Seq<char>, default: Seq<char>) -> Seq<
    char,
> {
    match first_value(env, key) {
        Some(v) => v,
        None => default,
    }
}

/// The error for a variable that is not set.
pub open spec fn missing(key: Seq<char>) -> ConfigErrorView {
    ConfigErrorView::Missing { key }
}

/// The error for a variable whose text is not what it must be.
pub open spec fn invalid(key: Seq<char>, expected: Seq<char>) -> ConfigErrorView {
    ConfigErrorView::Invalid { key, expected }
}

/// The message of a configuration error.
pub open spec fn error_message(e: ConfigErrorView) -> Seq<char> {
    match e {
        ConfigErrorView::Missing { key } => key + " must be set"@,
        ConfigErrorView::Invalid { key, expected } => key + " must be "@ + expected,
    }
}

/// The application settings that an environment makes: `APP_PORT` is
/// required and must be a port number; the client identity has defaults.
pub open spec fn app_config_of(env: Seq<(Seq<char>, Seq<char>)>) -> Result<
    AppConfigView,
    ConfigErrorView,
> {
    match first_value(env, "APP_PORT"@) {
        None => Err(missing("APP_PORT"@)),
        Some(text) => match decimal_up_to(text, 0xffff) {
            None => Err(invalid("APP_PORT"@, "a valid port"@)),
            Some(port) => Ok(
                AppConfigView {
                    port: port as u16,
                    client_name: env_or(env, "JELLYFIN_CLIENT_NAME"@, "mdia-savant"@),
                    device_name: env_or(env, "JELLYFIN_DEVICE_NAME"@, "mdia-savant"@),
                    client_version: env_or(env, "JELLYFIN_CLIENT_VERSION"@, "0.1.0"@),
                },
            ),
        },
    }
}

/// The store settings that an environment makes.
pub open spec fn redis_config_of(env: Seq<(Seq<char>, Seq<char>)>) -> Result<
    RedisConfigView,
    ConfigErrorView,
> {
    Ok(RedisConfigView { url: env_or(env, "REDIS_URL"@, "redis://redis:6379"@) })
}

/// The cookie settings that an environment makes.
pub open spec fn auth_config_of(env: Seq<(Seq<char>, Seq<char>)>) -> Result<
    AuthConfigView,
    ConfigErrorView,
> {
    match boolean(env_or(env, "SESSION_COOKIE_SECURE"@, "false"@)) {
        None => Err(invalid("SESSION_COOKIE_SECURE"@, "true/false"@)),
        Some(secure) => Ok(
            AuthConfigView {
                cookie_name: env_or(env, "SESSION_COOKIE_NAME"@, "ms_session"@),
                cookie_secure: secure,
            },
        ),
    }
}

/// The rate limits that an environment makes.
pub open spec fn rate_limit_config_of(env: Seq<(Seq<char>, Seq<char>)>) -> Result<
    RateLimitConfig,
    ConfigErrorView,
> {
    match decimal_up_to(env_or(env, "RATE_LIMIT_PER_SECOND"@, "100"@), 0xffff_ffff_ffff_ffff) {
        None => Err(invalid("RATE_LIMIT_PER_SECOND"@, "an integer"@)),
        Some(per_second) => match decimal_up_to(
            env_or(env, "RATE_LIMIT_BURST"@, "200"@),
            0xffff_ffff,
        ) {
            None => Err(invalid("RATE_LIMIT_BURST"@, "an integer"@)),
            Some(burst) => Ok(
                RateLimitConfig { per_second: per_second as u64, burst: burst as u32 },
            ),
        },
    }
}

/// The configuration that an environment makes: its four parts, read in the
/// order application, store, cookie, rate limits; the first error ends it.
pub open spec fn config_of(env: Seq<(Seq<char>, Seq<char>)>) -> Result<ConfigView, ConfigErrorView> {
    match app_config_of(env) {
        Err(e) => Err(e),
        Ok(app) => match redis_config_of(env) {
            Err(e) => Err(e),
            Ok(redis) => match auth_config_of(env) {
                Err(e) => Err(e),
                Ok(auth) => match rate_limit_config_of(env) {
                    Err(e) => Err(e),
                    Ok(rate_limit) => Ok(ConfigView { app, redis, auth, rate_limit }),
                },
            },
        },
    }
}

/// The built-in defaults are values that their variables accept.
pub proof fn lemma_defaults_are_valid()
    ensures
        boolean("false"@) == Some(false),
        decimal_up_to("100"@, 0xffff_ffff_ffff_ffff) == Some(100nat),
        decimal_up_to("200"@, 0xffff_ffff) == Some(200nat),
{
    reveal_strlit("false");
    reveal_strlit("true");
    reveal_strlit("100");
    reveal_strlit("200");
    assert("false"@ != "true"@) by {
        assert("false"@.len() != "true"@.len());
    }
    reveal_with_fuel(digits_value, 4);
}

/// An environment that sets a valid port and leaves the cookie and rate
/// limit variables unset makes a configuration, and that configuration holds
/// the port and the defaults.
pub proof fn lemma_port_alone_suffices(env: Seq<(Seq<char>, Seq<char>)>, port: u16)
    requires
        first_value(env, "APP_PORT"@) matches Some(text) && decimal_up_to(text, 0xffff) == Some(
            port as nat,
        ),
        first_value(env, "SESSION_COOKIE_SECURE"@) is None,
        first_value(env, "RATE_LIMIT_PER_SECOND"@) is None,
        first_value(env, "RATE_LIMIT_BURST"@) is None,
    ensures
        config_of(env) matches Ok(config) && config.app.port == port && !config.auth.cookie_secure
            && config.rate_limit == (RateLimitConfig { per_second: 100, burst: 200 }),
{
    lemma_defaults_are_valid();
}

impl ConfigError {
    /// The error for a required variable that is not set.
    pub fn missing_key(key: &str) -> (e: ConfigError)
        ensures
            e@ == missing(key@),
    {
        ConfigError::Missing { key: String::from_str(key) }
    }

    /// The error for a variable whose text is not what it must be.
    pub fn invalid_value(key: &str, expected: &str) -> (e: ConfigError)
        ensures
            e@ == invalid(key@, expected@),
    {
        ConfigError::Invalid { key: String::from_str(key), expected: String::from_str(expected) }
    }

    /// The message that describes the error to an operator.
    pub fn message(&self) -> (text: String)
        ensures
            text@ == error_message(self@),
    {
        match self {
            ConfigError::Missing { key } => {
                let mut text = key.clone();
                text.append(" must be set");
                text
            },
            ConfigError::Invalid { key, expected } => {
                let mut text = key.clone();
                text.append(" must be ");
                text.append(expected.as_str());
                text
            },
        }
    }
}

/// The value of a required variable.
pub fn get_env(env: &Vec<Field>, key: &str) -> (out: Result<String, ConfigError>)
    ensures
        match first_value(fields_view(env@), key@) {
            Some(v) => out matches Ok(text) && text@ == v,
            None => out matches Err(e) && e@ == missing(key@),
        },
{
    match lookup(env, key) {
        Some(value) => Ok(String::from_str(value)),
        None => Err(ConfigError::missing_key(key)),
    }
}

/// The value of a variable, or `default` where it is not set.
pub fn get_env_default(env: &Vec<Field>, key: &str, default: &str) -> (out: String)
    ensures
        out@ == env_or(fields_view(env@), key@, default@),
{
    match lookup(env, key) {
        Some(value) => String::from_str(value),
        None => String::from_str(default),
    }
}

impl AppConfig {
    /// Reads the application settings from the environment.
    pub fn from_env(env: &Vec<Field>) -> (out: Result<AppConfig, ConfigError>)
        ensures
            outcome_view(out) == app_config_of(fields_view(env@)),
    {
        let text = match get_env(env, "APP_PORT") {
            Ok(text) => text,
            Err(e) => {
                return Err(e);
            },
        };
        let port = match parse_u16(text.as_str()) {
            Some(port) => port,
            None => {
                return Err(ConfigError::invalid_value("APP_PORT", "a valid port"));
            },
        };
        let client_name = get_env_default(env, "JELLYFIN_CLIENT_NAME", "mdia-savant");
        let device_name = get_env_default(env, "JELLYFIN_DEVICE_NAME", "mdia-savant");
        let client_version = get_env_default(env, "JELLYFIN_CLIENT_VERSION", "0.1.0");
        Ok(AppConfig { port, client_name, device_name, client_version })
    }
}

impl RedisConfig {
    /// Reads the store settings from the environment.
    pub fn from_env(env: &Vec<Field>) -> (out: Result<RedisConfig, ConfigError>)
        ensures
            outcome_view(out) == redis_config_of(fields_view(env@)),
    {
        let url = get_env_default(env, "REDIS_URL", "redis://redis:6379");
        Ok(RedisConfig { url })
    }
}

impl AuthConfig {
    /// Reads the cookie settings from the environment.
    pub fn from_env(env: &Vec<Field>) -> (out: Result<AuthConfig, ConfigError>)
        ensures
            outcome_view(out) == auth_config_of(fields_view(env@)),
    {
        let cookie_name = get_env_default(env, "SESSION_COOKIE_NAME", "ms_session");
        let secure_text = get_env_default(env, "SESSION_COOKIE_SECURE", "false");
        match parse_bool(secure_text.as_str()) {
            Some(cookie_secure) => Ok(AuthConfig { cookie_name, cookie_secure }),
            None => Err(ConfigError::invalid_value("SESSION_COOKIE_SECURE", "true/false")),
        }
    }
}

impl RateLimitConfig {
    /// Reads the rate limits from the environment.
    pub fn from_env(env: &Vec<Field>) -> (out: Result<RateLimitConfig, ConfigError>)
        ensures
            outcome_view(out) == rate_limit_config_of(fields_view(env@)),
    {
        let per_second_text = get_env_default(env, "RATE_LIMIT_PER_SECOND", "100");
        let per_second = match parse_u64(per_second_text.as_str()) {
            Some(v) => v,
            None => {
                return Err(ConfigError::invalid_value("RATE_LIMIT_PER_SECOND", "an integer"));
            },
        };
        let burst_text = get_env_default(env, "RATE_LIMIT_BURST", "200");
        match parse_u32(burst_text.as_str()) {
            Some(burst) => Ok(RateLimitConfig { per_second, burst }),
            None => Err(ConfigError::invalid_value("RATE_LIMIT_BURST", "an integer")),
        }
    }
}

impl Config {
    /// Reads the whole configuration from the environment.
    pub fn from_env(env: &Vec<Field>) -> (out: Result<Config, ConfigError>)
        ensures
            outcome_view(out) == config_of(fields_view(env@)),
    {
        let app = match AppConfig::from_env(env) {
            Ok(v) => v,
            Err(e) => {
                return Err(e);
            },
        };
        let redis = match RedisConfig::from_env(env) {
            Ok(v) => v,
            Err(e) => {
                return Err(e);
            },
        };
        let auth = match AuthConfig::from_env(env) {
            Ok(v) => v,
            Err(e) => {
                return Err(e);
            },
        };
        let rate_limit = match RateLimitConfig::from_env(env) {
            Ok(v) => v,
            Err(e) => {
                return Err(e);
            },
        };
        Ok(Config { app, redis, auth, rate_limit })
    }
}

} // verus!
