use user_api::config::{Config, ConfigError, PORT};

fn some(s: &str) -> Option<String> {
    Some(s.to_string())
}

#[test]
fn all_settings_present() {
    let c = Config::from_settings(some("postgres://db"), some("s3cr3t"), some("60")).unwrap();
    assert_eq!(c.database_url, "postgres://db");
    assert_eq!(c.jwt_secret, "s3cr3t");
    assert_eq!(c.jwt_max_age, 60);
    assert_eq!(c.port, 8080);
    assert_eq!(PORT, 8080);
}

#[test]
fn signed_max_age() {
    let c = Config::from_settings(some("u"), some("s"), some("-15")).unwrap();
    assert_eq!(c.jwt_max_age, -15);
    let c = Config::from_settings(some("u"), some("s"), some("+7")).unwrap();
    assert_eq!(c.jwt_max_age, 7);
}

#[test]
fn missing_database_url() {
    let r = Config::from_settings(None, some("s"), some("60"));
    assert_eq!(r.unwrap_err(), ConfigError::MissingDatabaseUrl);
}

#[test]
fn missing_jwt_secret() {
    let r = Config::from_settings(some("u"), None, some("60"));
    assert_eq!(r.unwrap_err(), ConfigError::MissingJwtSecret);
}

#[test]
fn missing_jwt_max_age() {
    let r = Config::from_settings(some("u"), some("s"), None);
    assert_eq!(r.unwrap_err(), ConfigError::MissingJwtMaxAge);
}

#[test]
fn first_missing_setting_wins() {
    let r = Config::from_settings(None, None, None);
    assert_eq!(r.unwrap_err(), ConfigError::MissingDatabaseUrl);
}

#[test]
fn unparsable_max_age() {
    for bad in ["", "abc", "-", "12x", "9223372036854775808"] {
        let r = Config::from_settings(some("u"), some("s"), some(bad));
        assert_eq!(r.unwrap_err(), ConfigError::InvalidJwtMaxAge);
    }
    let c = Config::from_settings(some("u"), some("s"), some("9223372036854775807")).unwrap();
    assert_eq!(c.jwt_max_age, i64::MAX);
}

#[test]
fn diagnostics_name_the_setting() {
    assert_eq!(ConfigError::MissingDatabaseUrl.message(), "DATABASE_URL is not set in .env file");
    assert_eq!(ConfigError::MissingJwtSecret.message(), "JWT_SECRET is not set in .env file");
    assert_eq!(ConfigError::MissingJwtMaxAge.message(), "JWT_MAX_AGE is not set in .env file");
    assert_eq!(ConfigError::InvalidJwtMaxAge.message(), "JWT_MAX_AGE must be an integer");
}
