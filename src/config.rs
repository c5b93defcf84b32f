use vstd::prelude::*;

use crate::text::{i64_text_value, parse_i64};
use crate::validation::opt_text;

verus! {

/// The port the service listens on; it is not read from the environment.
pub const PORT: u16 = 8080;

/// Why the process configuration could not be built.
#[derive(PartialEq, Eq, Structural, Debug, Clone, Copy)]
pub enum ConfigError {
    MissingDatabaseUrl,
    MissingJwtSecret,
    MissingJwtMaxAge,
    InvalidJwtMaxAge,
}

/// The diagnostic of each configuration failure, which names the setting.
pub open spec fn config_error_text(e: ConfigError) -> Seq<char> {
    match e {
        ConfigError::MissingDatabaseUrl => "DATABASE_URL is not set in .env file"@,
        ConfigError::MissingJwtSecret => "JWT_SECRET is not set in .env file"@,
        ConfigError::MissingJwtMaxAge => "JWT_MAX_AGE is not set in .env file"@,
        ConfigError::InvalidJwtMaxAge => "JWT_MAX_AGE must be an integer"@,
    }
}

impl ConfigError {
    /// The diagnostic to abort with.
    pub fn message(&self) -> (r: String)
        ensures
            r@ == config_error_text(*self),
    {
        match self {
            ConfigError::MissingDatabaseUrl => String::from_str(
                "DATABASE_URL is not set in .env file",
            ),
            ConfigError::MissingJwtSecret => String::from_str("JWT_SECRET is not set in .env file"),
            ConfigError::MissingJwtMaxAge => String::from_str(
                "JWT_MAX_AGE is not set in .env file",
            ),
            ConfigError::InvalidJwtMaxAge => String::from_str("JWT_MAX_AGE must be an integer"),
        }
    }
}

/// The first failure among the three required settings, read in the order
/// database URL, JWT secret, JWT max age; none when all are present and the
/// max age is a decimal `i64`.
pub open spec fn config_error(
    database_url: Option<Seq<char>>,
    jwt_secret: Option<Seq<char>>,
    jwt_max_age: Option<Seq<char>>,
) -> Option<ConfigError> {
    if database_url is None {
        Some(ConfigError::MissingDatabaseUrl)
    } else if jwt_secret is None {
        Some(ConfigError::MissingJwtSecret)
    } else if jwt_max_age is None {
        Some(ConfigError::MissingJwtMaxAge)
    } else if i64_text_value(jwt_max_age.unwrap()) is None {
        Some(ConfigError::InvalidJwtMaxAge)
    } else {
        None
    }
}

/// The process-wide settings, built once at startup.
#[derive(Debug, Clone)]
pub struct Config {
    pub database_url: String,
    pub jwt_secret: String,
    pub jwt_max_age: i64,
    pub port: u16,
}

impl Config {
    /// Builds the configuration from the raw settings, `None` for one that is
    /// not set. All three are required and the max age must be a decimal
    /// integer; the port is fixed.
    pub fn from_settings(
        database_url: Option<String>,
        jwt_secret: Option<String>,
        jwt_max_age: Option<String>,
    ) -> (r: Result<Config, ConfigError>)
        ensures
            r is Ok <==> config_error(
                opt_text(database_url),
                opt_text(jwt_secret),
                opt_text(jwt_max_age),
            ) is None,
            match r {
                Ok(c) => {
                    &&& c.database_url@ == database_url.unwrap()@
                    &&& c.jwt_secret@ == jwt_secret.unwrap()@
                    &&& i64_text_value(jwt_max_age.unwrap()@) == Some(c.jwt_max_age as int)
                    &&& c.port == PORT
                },
                Err(e) => config_error(
                    opt_text(database_url),
                    opt_text(jwt_secret),
                    opt_text(jwt_max_age),
                ) == Some(e),
            },
    {
        let database_url = match database_url {
            Some(v) => v,
            None => {
                return Err(ConfigError::MissingDatabaseUrl);
            },
        };
        let jwt_secret = match jwt_secret {
            Some(v) => v,
            None => {
                return Err(ConfigError::MissingJwtSecret);
            },
        };
        let jwt_max_age = match jwt_max_age {
            Some(v) => v,
            None => {
                return Err(ConfigError::MissingJwtMaxAge);
            },
        };
        match parse_i64(jwt_max_age.as_str()) {
            Some(n) => Ok(Config { database_url, jwt_secret, jwt_max_age: n, port: PORT }),
            None => Err(ConfigError::InvalidJwtMaxAge),
        }
    }
}

} // verus!
