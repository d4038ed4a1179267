use vstd::prelude::*;

use crate::decimal::{parse_i64, parse_u32, parse_u64, signed_value, unsigned_value};

verus! {

pub const AUTH_SECRET_KEY: &'static str = "AUTH_SECRET_KEY";

pub const AUTH_SESSION_EXPIRATION_MINUTES: &'static str = "AUTH_SESSION_EXPIRATION_MINUTES";

pub const AUTH_DELETE_EXPIRED_SESSIONS_INTERVAL_SECONDS: &'static str =
    "AUTH_DELETE_EXPIRED_SESSIONS_INTERVAL_SECONDS";

pub const DATABASE_URL: &'static str = "DATABASE_URL";

pub const DATABASE_POOL_MAX_CONNECTIONS: &'static str = "DATABASE_POOL_MAX_CONNECTIONS";

/// The bytes that the standard base64 alphabet, with padding, decodes `s` to,
/// or `None` where `s` is not such an encoding.
pub uninterp spec fn standard_base64_decoding(s: Seq<char>) -> Option<Seq<u8>>;

/// Relies on base64's `Engine::decode` with the `STANDARD` engine: the result
/// depends on the text alone.
#[verifier::external_body]
fn decode_base64(s: &str) -> (r: Option<Vec<u8>>)
    ensures
        match r {
            Some(v) => standard_base64_decoding(s@) == Some(v@),
            None => standard_base64_decoding(s@) is None,
        },
{
    base64::Engine::decode(&base64::engine::general_purpose::STANDARD, s).ok()
}

/// The process environment as name and value pairs.
pub struct EnvVars {
    pub vars: Vec<(String, String)>,
}

/// The value of the first variable named `key`.
pub open spec fn lookup(vars: Seq<(String, String)>, key: Seq<char>) -> Option<Seq<char>>
    decreases vars.len(),
{
    if vars.len() == 0 {
        None
    } else if vars[0].0@ == key {
        Some(vars[0].1@)
    } else {
        lookup(vars.drop_first(), key)
    }
}

impl EnvVars {
    pub open spec fn get_spec(&self, key: Seq<char>) -> Option<Seq<char>> {
        lookup(self.vars@, key)
    }

    pub fn get(&self, key: &str) -> (r: Option<&String>)
        ensures
            match r {
                Some(v) => self.get_spec(key@) == Some(v@),
                None => self.get_spec(key@) is None,
            },
    {
        let wanted = key.to_owned();
        let mut i: usize = 0;
        assert(self.vars@.subrange(0, self.vars@.len() as int) =~= self.vars@);
        while i < self.vars.len()
            invariant
                i <= self.vars@.len(),
                wanted@ == key@,
                lookup(self.vars@, key@) == lookup(
                    self.vars@.subrange(i as int, self.vars@.len() as int),
                    key@,
                ),
            decreases self.vars@.len() - i,
        {
            let ghost rest = self.vars@.subrange(i as int, self.vars@.len() as int);
            assert(rest.drop_first() =~= self.vars@.subrange(i + 1, self.vars@.len() as int));
            assert(rest[0] == self.vars@[i as int]);
            if self.vars[i].0 == wanted {
                assert(lookup(rest, wanted@) == Some(rest[0].1@));
                return Some(&self.vars[i].1);
            }
            i = i + 1;
        }
        None
    }
}

/// Why the configuration could not be read; each names the variable.
#[derive(Debug)]
pub enum ConfigError {
    MissingVariable(&'static str),
    InvalidNumber(&'static str),
    InvalidBase64(&'static str),
    EmptySecretKey,
}

pub struct AuthConfig {
    pub secret_key: Vec<u8>,
    pub session_expiration_minutes: i64,
    pub delete_expired_sessions_interval_seconds: u64,
}

pub struct DatabaseConfig {
    pub url: String,
    pub pool_max_connections: u32,
}

pub struct Config {
    pub auth: AuthConfig,
    pub db: DatabaseConfig,
}

pub open spec fn fits_u64(v: Option<int>) -> bool {
    v matches Some(n) && 0 <= n <= u64::MAX
}

pub open spec fn fits_u32(v: Option<int>) -> bool {
    v matches Some(n) && 0 <= n <= u32::MAX
}

pub open spec fn fits_i64(v: Option<int>) -> bool {
    v matches Some(n) && i64::MIN <= n <= i64::MAX
}

/// The first problem with the authentication settings in `env`, checked in
/// the order: signing key, session window, sweep interval.
pub open spec fn auth_config_error(env: EnvVars) -> Option<ConfigError> {
    match env.get_spec(AUTH_SECRET_KEY@) {
        None => Some(ConfigError::MissingVariable(AUTH_SECRET_KEY)),
        Some(k) => match standard_base64_decoding(k) {
            None => Some(ConfigError::InvalidBase64(AUTH_SECRET_KEY)),
            Some(key) => if key.len() == 0 {
                Some(ConfigError::EmptySecretKey)
            } else {
                match env.get_spec(AUTH_SESSION_EXPIRATION_MINUTES@) {
                    None => Some(ConfigError::MissingVariable(AUTH_SESSION_EXPIRATION_MINUTES)),
                    Some(m) => if !fits_i64(signed_value(m)) {
                        Some(ConfigError::InvalidNumber(AUTH_SESSION_EXPIRATION_MINUTES))
                    } else {
                        match env.get_spec(AUTH_DELETE_EXPIRED_SESSIONS_INTERVAL_SECONDS@) {
                            None => Some(
                                ConfigError::MissingVariable(
                                    AUTH_DELETE_EXPIRED_SESSIONS_INTERVAL_SECONDS,
                                ),
                            ),
                            Some(s) => if !fits_u64(unsigned_value(s)) {
                                Some(
                                    ConfigError::InvalidNumber(
                                        AUTH_DELETE_EXPIRED_SESSIONS_INTERVAL_SECONDS,
                                    ),
                                )
                            } else {
                                None
                            },
                        }
                    },
                }
            },
        },
    }
}

/// `c` holds the authentication settings that `env` gives.
pub open spec fn auth_config_from(env: EnvVars, c: AuthConfig) -> bool {
    &&& env.get_spec(AUTH_SECRET_KEY@) matches Some(k) && standard_base64_decoding(k) == Some(
        c.secret_key@,
    )
    &&& env.get_spec(AUTH_SESSION_EXPIRATION_MINUTES@) matches Some(m) && signed_value(m) == Some(
        c.session_expiration_minutes as int,
    )
    &&& env.get_spec(AUTH_DELETE_EXPIRED_SESSIONS_INTERVAL_SECONDS@) matches Some(s)
        && unsigned_value(s) == Some(c.delete_expired_sessions_interval_seconds as int)
}

/// The first problem with the database settings in `env`.
pub open spec fn database_config_error(env: EnvVars) -> Option<ConfigError> {
    match env.get_spec(DATABASE_URL@) {
        None => Some(ConfigError::MissingVariable(DATABASE_URL)),
        Some(_) => match env.get_spec(DATABASE_POOL_MAX_CONNECTIONS@) {
            None => Some(ConfigError::MissingVariable(DATABASE_POOL_MAX_CONNECTIONS)),
            Some(n) => if !fits_u32(unsigned_value(n)) {
                Some(ConfigError::InvalidNumber(DATABASE_POOL_MAX_CONNECTIONS))
            } else {
                None
            },
        },
    }
}

/// `c` holds the database settings that `env` gives.
pub open spec fn database_config_from(env: EnvVars, c: DatabaseConfig) -> bool {
    &&& env.get_spec(DATABASE_URL@) == Some(c.url@)
    &&& env.get_spec(DATABASE_POOL_MAX_CONNECTIONS@) matches Some(n) && unsigned_value(n) == Some(
        c.pool_max_connections as int,
    )
}

fn require<'a>(env: &'a EnvVars, key: &'static str) -> (r: Result<&'a String, ConfigError>)
    ensures
        match r {
            Ok(v) => env.get_spec(key@) == Some(v@),
            Err(e) => env.get_spec(key@) is None && e == ConfigError::MissingVariable(key),
        },
{
    match env.get(key) {
        Some(v) => Ok(v),
        None => Err(ConfigError::MissingVariable(key)),
    }
}

impl AuthConfig {
    /// Reads the signing key (base64), the session inactivity window in
    /// minutes and the interval of the expired-session sweep in seconds.
    pub fn from_env(env: &EnvVars) -> (r: Result<AuthConfig, ConfigError>)
        ensures
            match r {
                Ok(c) => auth_config_error(*env) is None && auth_config_from(*env, c),
                Err(e) => auth_config_error(*env) == Some(e),
            },
    {
        let encoded = require(env, AUTH_SECRET_KEY)?;
        let secret_key = match decode_base64(encoded.as_str()) {
            Some(k) => k,
            None => return Err(ConfigError::InvalidBase64(AUTH_SECRET_KEY)),
        };
        if secret_key.len() == 0 {
            return Err(ConfigError::EmptySecretKey);
        }
        let minutes = require(env, AUTH_SESSION_EXPIRATION_MINUTES)?;
        let session_expiration_minutes = match parse_i64(minutes.as_str()) {
            Some(m) => m,
            None => return Err(ConfigError::InvalidNumber(AUTH_SESSION_EXPIRATION_MINUTES)),
        };
        let seconds = require(env, AUTH_DELETE_EXPIRED_SESSIONS_INTERVAL_SECONDS)?;
        let delete_expired_sessions_interval_seconds = match parse_u64(seconds.as_str()) {
            Some(s) => s,
            None => return Err(
                ConfigError::InvalidNumber(AUTH_DELETE_EXPIRED_SESSIONS_INTERVAL_SECONDS),
            ),
        };
        Ok(AuthConfig { secret_key, session_expiration_minutes, delete_expired_sessions_interval_seconds })
    }
}

impl DatabaseConfig {
    /// Reads the database URL and the size of the connection pool.
    pub fn from_env(env: &EnvVars) -> (r: Result<DatabaseConfig, ConfigError>)
        ensures
            match r {
                Ok(c) => database_config_error(*env) is None && database_config_from(*env, c),
                Err(e) => database_config_error(*env) == Some(e),
            },
    {
        let url = require(env, DATABASE_URL)?;
        let pool = require(env, DATABASE_POOL_MAX_CONNECTIONS)?;
        let pool_max_connections = match parse_u32(pool.as_str()) {
            Some(n) => n,
            None => return Err(ConfigError::InvalidNumber(DATABASE_POOL_MAX_CONNECTIONS)),
        };
        Ok(DatabaseConfig { url: url.clone(), pool_max_connections })
    }
}

impl Config {
    /// Reads the authentication settings, then the database settings.
    pub fn from_env(env: &EnvVars) -> (r: Result<Config, ConfigError>)
        ensures
            match r {
                Ok(c) => auth_config_error(*env) is None && database_config_error(*env) is None
                    && auth_config_from(*env, c.auth) && database_config_from(*env, c.db),
                Err(e) => auth_config_error(*env) == Some(e) || (auth_config_error(*env) is None
                    && database_config_error(*env) == Some(e)),
            },
    {
        let auth = AuthConfig::from_env(env)?;
        let db = DatabaseConfig::from_env(env)?;
        Ok(Config { auth, db })
    }
}

} // verus!
