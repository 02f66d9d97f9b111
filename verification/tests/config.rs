use media_savant_api::config::{
    get_env, get_env_default, AppConfig, AuthConfig, Config, ConfigError, RateLimitConfig,
    RedisConfig,
};
use media_savant_api::fields::Field;

fn env(pairs: &[(&str, &str)]) -> Vec<Field> {
    pairs
        .iter()
        .map(|(name, value)| Field { name: name.to_string(), value: value.to_string() })
        .collect()
}

#[test]
fn port_alone_gives_the_defaults() {
    let config = Config::from_env(&env(&[("APP_PORT", "8080")])).unwrap();
    assert_eq!(config.app.port, 8080);
    assert_eq!(config.app.client_name, "mdia-savant");
    assert_eq!(config.app.device_name, "mdia-savant");
    assert_eq!(config.app.client_version, "0.1.0");
    assert_eq!(config.redis.url, "redis://redis:6379");
    assert_eq!(config.auth.cookie_name, "ms_session");
    assert!(!config.auth.cookie_secure);
    assert_eq!(config.rate_limit.per_second, 100);
    assert_eq!(config.rate_limit.burst, 200);
}

#[test]
fn every_variable_overrides_its_default() {
    let config = Config::from_env(&env(&[
        ("RATE_LIMIT_BURST", "5"),
        ("RATE_LIMIT_PER_SECOND", "7"),
        ("SESSION_COOKIE_SECURE", "true"),
        ("SESSION_COOKIE_NAME", "sid"),
        ("REDIS_URL", "redis://localhost:6380"),
        ("JELLYFIN_CLIENT_VERSION", "2.3.4"),
        ("JELLYFIN_DEVICE_NAME", "gateway"),
        ("JELLYFIN_CLIENT_NAME", "client"),
        ("APP_PORT", "+443"),
        ("UNRELATED", "x"),
    ]))
    .unwrap();
    assert_eq!(config.app.port, 443);
    assert_eq!(config.app.client_name, "client");
    assert_eq!(config.app.device_name, "gateway");
    assert_eq!(config.app.client_version, "2.3.4");
    assert_eq!(config.redis.url, "redis://localhost:6380");
    assert_eq!(config.auth.cookie_name, "sid");
    assert!(config.auth.cookie_secure);
    assert_eq!(config.rate_limit.per_second, 7);
    assert_eq!(config.rate_limit.burst, 5);
}

#[test]
fn missing_port_is_an_error() {
    let err = Config::from_env(&env(&[("REDIS_URL", "redis://x")])).unwrap_err();
    assert!(matches!(&err, ConfigError::Missing { key } if key == "APP_PORT"));
    assert_eq!(err.message(), "APP_PORT must be set");
}

#[test]
fn port_that_is_no_port_is_an_error() {
    for bad in ["", "http", "65536", "-1", "80 ", "8080.0"] {
        let err = AppConfig::from_env(&env(&[("APP_PORT", bad)])).unwrap_err();
        assert!(matches!(&err, ConfigError::Invalid { key, .. } if key == "APP_PORT"), "{bad:?}");
        assert_eq!(err.message(), "APP_PORT must be a valid port");
    }
}

#[test]
fn cookie_secure_must_be_true_or_false() {
    let err = AuthConfig::from_env(&env(&[("SESSION_COOKIE_SECURE", "yes")])).unwrap_err();
    assert_eq!(err.message(), "SESSION_COOKIE_SECURE must be true/false");
    let err = Config::from_env(&env(&[("APP_PORT", "1"), ("SESSION_COOKIE_SECURE", "TRUE")]))
        .unwrap_err();
    assert_eq!(err.message(), "SESSION_COOKIE_SECURE must be true/false");
    let auth = AuthConfig::from_env(&env(&[("SESSION_COOKIE_SECURE", "false")])).unwrap();
    assert!(!auth.cookie_secure);
}

#[test]
fn rate_limits_must_be_integers() {
    let err = RateLimitConfig::from_env(&env(&[("RATE_LIMIT_PER_SECOND", "fast")])).unwrap_err();
    assert_eq!(err.message(), "RATE_LIMIT_PER_SECOND must be an integer");
    let err = RateLimitConfig::from_env(&env(&[("RATE_LIMIT_BURST", "4294967296")])).unwrap_err();
    assert_eq!(err.message(), "RATE_LIMIT_BURST must be an integer");
    let limits = RateLimitConfig::from_env(&env(&[
        ("RATE_LIMIT_PER_SECOND", "18446744073709551615"),
        ("RATE_LIMIT_BURST", "4294967295"),
    ]))
    .unwrap();
    assert_eq!(limits.per_second, u64::MAX);
    assert_eq!(limits.burst, u32::MAX);
}

#[test]
fn the_first_error_in_reading_order_is_reported() {
    let all_bad = env(&[
        ("APP_PORT", "x"),
        ("SESSION_COOKIE_SECURE", "x"),
        ("RATE_LIMIT_PER_SECOND", "x"),
        ("RATE_LIMIT_BURST", "x"),
    ]);
    assert_eq!(Config::from_env(&all_bad).unwrap_err().message(), "APP_PORT must be a valid port");
    let port_good = env(&[
        ("APP_PORT", "1"),
        ("SESSION_COOKIE_SECURE", "x"),
        ("RATE_LIMIT_PER_SECOND", "x"),
        ("RATE_LIMIT_BURST", "x"),
    ]);
    assert_eq!(
        Config::from_env(&port_good).unwrap_err().message(),
        "SESSION_COOKIE_SECURE must be true/false"
    );
    let limits_bad = env(&[("RATE_LIMIT_PER_SECOND", "x"), ("RATE_LIMIT_BURST", "x")]);
    assert_eq!(
        RateLimitConfig::from_env(&limits_bad).unwrap_err().message(),
        "RATE_LIMIT_PER_SECOND must be an integer"
    );
}

#[test]
fn the_first_setting_of_a_variable_counts() {
    let config = AppConfig::from_env(&env(&[("APP_PORT", "1"), ("APP_PORT", "2")])).unwrap();
    assert_eq!(config.port, 1);
}

#[test]
fn variable_names_are_matched_exactly() {
    assert!(AppConfig::from_env(&env(&[("app_port", "1")])).is_err());
    assert!(AppConfig::from_env(&env(&[("APP_PORT ", "1")])).is_err());
    let redis = RedisConfig::from_env(&env(&[("REDIS_URL_2", "redis://other")])).unwrap();
    assert_eq!(redis.url, "redis://redis:6379");
}

#[test]
fn an_empty_value_is_a_value() {
    let redis = RedisConfig::from_env(&env(&[("REDIS_URL", "")])).unwrap();
    assert_eq!(redis.url, "");
}

#[test]
fn required_and_defaulted_lookups() {
    let vars = env(&[("A", "1"), ("B", "")]);
    assert_eq!(get_env(&vars, "A").unwrap(), "1");
    assert_eq!(get_env(&vars, "B").unwrap(), "");
    assert_eq!(get_env(&vars, "C").unwrap_err().message(), "C must be set");
    assert_eq!(get_env_default(&vars, "A", "9"), "1");
    assert_eq!(get_env_default(&vars, "C", "9"), "9");
}

#[test]
fn error_messages_name_key_and_expectation() {
    assert_eq!(ConfigError::missing_key("K").message(), "K must be set");
    assert_eq!(ConfigError::invalid_value("K", "a thing").message(), "K must be a thing");
}
