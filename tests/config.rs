use authcore::config::{AuthConfig, Config, ConfigError, DatabaseConfig, EnvVars};
use authcore::decimal::{parse_i64, parse_u32, parse_u64};

fn env(pairs: &[(&str, &str)]) -> EnvVars {
    EnvVars { vars: pairs.iter().map(|(k, v)| (k.to_string(), v.to_string())).collect() }
}

fn full() -> Vec<(&'static str, &'static str)> {
    vec![
        ("AUTH_SECRET_KEY", "aGVsbG8="),
        ("AUTH_SESSION_EXPIRATION_MINUTES", "30"),
        ("AUTH_DELETE_EXPIRED_SESSIONS_INTERVAL_SECONDS", "60"),
        ("DATABASE_URL", "postgres://localhost/app"),
        ("DATABASE_POOL_MAX_CONNECTIONS", "5"),
    ]
}

#[test]
fn reads_full_configuration() {
    let config = Config::from_env(&env(&full())).unwrap();
    assert_eq!(config.auth.secret_key, b"hello".to_vec());
    assert_eq!(config.auth.session_expiration_minutes, 30);
    assert_eq!(config.auth.delete_expired_sessions_interval_seconds, 60);
    assert_eq!(config.db.url, "postgres://localhost/app");
    assert_eq!(config.db.pool_max_connections, 5);
}

#[test]
fn missing_variable_is_named() {
    let mut pairs = full();
    pairs.retain(|(k, _)| *k != "DATABASE_URL");
    assert!(matches!(
        DatabaseConfig::from_env(&env(&pairs)),
        Err(ConfigError::MissingVariable("DATABASE_URL"))
    ));
    assert!(AuthConfig::from_env(&env(&pairs)).is_ok());
}

#[test]
fn bad_values_are_rejected() {
    let mut pairs = full();
    pairs[1] = ("AUTH_SESSION_EXPIRATION_MINUTES", "thirty");
    assert!(matches!(
        AuthConfig::from_env(&env(&pairs)),
        Err(ConfigError::InvalidNumber("AUTH_SESSION_EXPIRATION_MINUTES"))
    ));
    let mut pairs = full();
    pairs[0] = ("AUTH_SECRET_KEY", "not base64!");
    assert!(matches!(AuthConfig::from_env(&env(&pairs)), Err(ConfigError::InvalidBase64(_))));
    let mut pairs = full();
    pairs[0] = ("AUTH_SECRET_KEY", "");
    assert!(matches!(AuthConfig::from_env(&env(&pairs)), Err(ConfigError::EmptySecretKey)));
    let mut pairs = full();
    pairs[4] = ("DATABASE_POOL_MAX_CONNECTIONS", "4294967296");
    assert!(matches!(DatabaseConfig::from_env(&env(&pairs)), Err(ConfigError::InvalidNumber(_))));
}

#[test]
fn first_variable_of_a_name_wins() {
    let e = env(&[("A", "1"), ("A", "2")]);
    assert_eq!(e.get("A").map(|s| s.as_str()), Some("1"));
    assert_eq!(e.get("B"), None);
}

#[test]
fn decimal_parsing_matches_std() {
    for text in ["0", "+7", "-7", "", "+", "-", "12a", "9223372036854775807", "-9223372036854775808",
        "9223372036854775808", "18446744073709551615", "18446744073709551616", "4294967295",
        "4294967296", "007", " 1", "-0"] {
        assert_eq!(parse_i64(text), text.parse::<i64>().ok(), "i64 {:?}", text);
        assert_eq!(parse_u64(text), text.parse::<u64>().ok(), "u64 {:?}", text);
        assert_eq!(parse_u32(text), text.parse::<u32>().ok(), "u32 {:?}", text);
    }
}
