//! The settings of the process, built once at startup and handed by
//! reference to every component that needs them.

use vstd::prelude::*;
use vstd::string::StrSliceExecFns;

verus! {

/// A setting that the process reads at startup.
#[derive(Debug, Clone, Copy, PartialEq, Eq, Structural)]
pub enum Setting {
    DatabaseUrl,
    DatabasePoolSize,
    LogLevel,
    SessionUrl,
    SessionKey,
    SessionTtl,
    AuthSalt,
}

impl Setting {
    /// The name of the environment variable that holds the setting.
    pub fn variable(self) -> (r: &'static str)
        ensures
            r@ == match self {
                Setting::DatabaseUrl => "DATABASE_URL"@,
                Setting::DatabasePoolSize => "DATEBASE_POOL_SIZE"@,
                Setting::LogLevel => "LOG_LEVEL"@,
                Setting::SessionUrl => "SESSION_REDIS_URL"@,
                Setting::SessionKey => "SESSION_KEY"@,
                Setting::SessionTtl => "SESSION_TTL"@,
                Setting::AuthSalt => "AUTH_SALT"@,
            },
    {
        match self {
            Setting::DatabaseUrl => "DATABASE_URL",
            Setting::DatabasePoolSize => "DATEBASE_POOL_SIZE",
            Setting::LogLevel => "LOG_LEVEL",
            Setting::SessionUrl => "SESSION_REDIS_URL",
            Setting::SessionKey => "SESSION_KEY",
            Setting::SessionTtl => "SESSION_TTL",
            Setting::AuthSalt => "AUTH_SALT",
        }
    }
}

/// Why the settings make no configuration. Fatal at startup.
#[derive(Debug, Clone, Copy, PartialEq, Eq, Structural)]
pub enum ConfigurationError {
    /// A required setting is not there.
    Missing(Setting),
    /// A setting that must be a number is none.
    Invalid(Setting),
}

/// The settings as text, each as it was found or not.
#[derive(Debug, Clone, PartialEq, Eq)]
pub struct Settings {
    pub database_url: Option<String>,
    pub database_pool_size: Option<String>,
    pub log_level: Option<String>,
    pub session_url: Option<String>,
    pub session_key: Option<String>,
    /// Optional: a session lives for a day where it is absent.
    pub session_ttl: Option<String>,
    /// Optional: cookies carry `Secure` only where it is `true`.
    pub session_secure: Option<String>,
    pub auth_salt: Option<String>,
}

/// The lifetime of a session where none is configured: one day.
pub const DEFAULT_TTL: i64 = 86400;

#[derive(Debug, Clone, PartialEq, Eq)]
pub struct LogConfig {
    pub level: String,
}

/// Where the session store lives and how the session cookie is issued.
#[derive(Debug, Clone, PartialEq, Eq)]
pub struct SessionConfig {
    /// Endpoint of the session store.
    pub url: String,
    /// Name of the session cookie.
    pub key: String,
    /// Lifetime of a session and of its cookie, in seconds.
    pub ttl: i64,
    /// Whether the deployment is HTTPS-only, so that cookies carry `Secure`.
    pub secure: bool,
}

#[derive(Debug, Clone, PartialEq, Eq)]
pub struct DatabaseConfig {
    pub url: String,
    pub pool_size: u32,
}

#[derive(Debug, Clone, PartialEq, Eq)]
pub struct AuthConfig {
    /// The process-wide salt of the password hash.
    pub salt: String,
}

#[derive(Debug, Clone, PartialEq, Eq)]
pub struct Config {
    pub database: DatabaseConfig,
    pub log: LogConfig,
    pub session: SessionConfig,
    pub auth: AuthConfig,
}

/// The value of a decimal digit; zero for any other character.
pub open spec fn digit(c: char) -> nat {
    if '0' <= c && c <= '9' {
        (c as u32 - '0' as u32) as nat
    } else {
        0
    }
}

/// The number that a text of decimal digits denotes.
pub open spec fn value_of(s: Seq<char>) -> nat
    decreases s.len(),
{
    if s.len() == 0 {
        0
    } else {
        value_of(s.drop_last()) * 10 + digit(s.last())
    }
}

/// Whether a text consists of decimal digits alone.
pub open spec fn all_digits(s: Seq<char>) -> bool {
    forall|i: int| 0 <= i < s.len() ==> '0' <= #[trigger] s[i] && s[i] <= '9'
}

/// A text without its leading `+`, where it has one.
pub open spec fn unsigned(text: Seq<char>) -> Seq<char> {
    if text.len() > 0 && text[0] == '+' {
        text.skip(1)
    } else {
        text
    }
}

/// The number that a setting denotes: an optional `+`, then at least one
/// decimal digit and nothing else, with a value that fits 32 bits.
pub open spec fn number(text: Seq<char>) -> Option<u32> {
    let body = unsigned(text);
    if body.len() > 0 && all_digits(body) && value_of(body) <= u32::MAX {
        Some(value_of(body) as u32)
    } else {
        None
    }
}

/// The value of a text is at least that of each of its prefixes.
proof fn value_grows(s: Seq<char>, k: int)
    requires
        0 <= k <= s.len(),
    ensures
        value_of(s.take(k)) <= value_of(s),
    decreases s.len(),
{
    if k == s.len() {
        assert(s.take(k) =~= s);
    } else {
        value_grows(s.drop_last(), k);
        assert(s.drop_last().take(k) =~= s.take(k));
    }
}

/// Reads a number out of the text of a setting.
pub fn parse_number(text: &str) -> (r: Option<u32>)
    ensures
        r == number(text@),
{
    let n = text.unicode_len();
    let start: usize = if n > 0 && text.get_char(0) == '+' {
        1
    } else {
        0
    };
    let ghost body = unsigned(text@);
    assert(body =~= text@.skip(start as int));
    if start == n {
        return None;
    }
    let mut acc: u32 = 0;
    let mut i: usize = start;
    assert(body.take(0) =~= Seq::<char>::empty());
    while i < n
        invariant
            start <= i <= n,
            n == text@.len(),
            body == text@.skip(start as int),
            body == unsigned(text@),
            all_digits(body.take(i - start)),
            acc == value_of(body.take(i - start)),
        decreases n - i,
    {
        let c = text.get_char(i);
        let ghost k = i - start;
        assert(body[k] == c);
        if !('0' <= c && c <= '9') {
            return None;
        }
        let d: u32 = c as u32 - '0' as u32;
        let next: u64 = acc as u64 * 10 + d as u64;
        proof {
            assert(body.take(k + 1).drop_last() =~= body.take(k));
            assert(body.take(k + 1).last() == c);
            assert(value_of(body.take(k + 1)) == next);
        }
        if next > u32::MAX as u64 {
            proof {
                value_grows(body, k + 1);
            }
            return None;
        }
        acc = next as u32;
        i = i + 1;
    }
    assert(body.take(i - start) =~= body);
    Some(acc)
}

/// The first fault of the settings, in the order in which they are read:
/// a required setting that is missing, or a number that is none.
pub open spec fn fault(s: Settings) -> Option<ConfigurationError> {
    if s.database_url is None {
        Some(ConfigurationError::Missing(Setting::DatabaseUrl))
    } else if s.database_pool_size is None {
        Some(ConfigurationError::Missing(Setting::DatabasePoolSize))
    } else if number(s.database_pool_size.unwrap()@) is None {
        Some(ConfigurationError::Invalid(Setting::DatabasePoolSize))
    } else if s.log_level is None {
        Some(ConfigurationError::Missing(Setting::LogLevel))
    } else if s.session_url is None {
        Some(ConfigurationError::Missing(Setting::SessionUrl))
    } else if s.session_key is None {
        Some(ConfigurationError::Missing(Setting::SessionKey))
    } else if s.session_ttl is Some && number(s.session_ttl.unwrap()@) is None {
        Some(ConfigurationError::Invalid(Setting::SessionTtl))
    } else if s.auth_salt is None {
        Some(ConfigurationError::Missing(Setting::AuthSalt))
    } else {
        None
    }
}

/// The lifetime that the settings give a session, in seconds.
pub open spec fn ttl_of(s: Settings) -> i64 {
    match s.session_ttl {
        Some(text) => number(text@).unwrap() as i64,
        None => DEFAULT_TTL,
    }
}

/// Whether the settings ask for `Secure` cookies.
pub open spec fn secure_of(s: Settings) -> bool {
    s.session_secure matches Some(text) && text@ == "true"@
}

impl Config {
    /// Builds the configuration from the settings, or names the first
    /// setting that is missing or is no number.
    pub fn assemble(settings: Settings) -> (r: Result<Config, ConfigurationError>)
        ensures
            match r {
                Ok(c) => {
                    &&& fault(settings) is None
                    &&& c.database.url@ == settings.database_url.unwrap()@
                    &&& Some(c.database.pool_size) == number(
                        settings.database_pool_size.unwrap()@,
                    )
                    &&& c.log.level@ == settings.log_level.unwrap()@
                    &&& c.session.url@ == settings.session_url.unwrap()@
                    &&& c.session.key@ == settings.session_key.unwrap()@
                    &&& c.session.ttl == ttl_of(settings)
                    &&& c.session.secure == secure_of(settings)
                    &&& c.auth.salt@ == settings.auth_salt.unwrap()@
                },
                Err(e) => fault(settings) == Some(e),
            },
    {
        let database_url = match settings.database_url {
            Some(text) => text,
            None => return Err(ConfigurationError::Missing(Setting::DatabaseUrl)),
        };
        let pool_size: u32 = match settings.database_pool_size {
            Some(text) => match parse_number(text.as_str()) {
                Some(n) => n,
                None => return Err(ConfigurationError::Invalid(Setting::DatabasePoolSize)),
            },
            None => return Err(ConfigurationError::Missing(Setting::DatabasePoolSize)),
        };
        let level = match settings.log_level {
            Some(text) => text,
            None => return Err(ConfigurationError::Missing(Setting::LogLevel)),
        };
        let session_url = match settings.session_url {
            Some(text) => text,
            None => return Err(ConfigurationError::Missing(Setting::SessionUrl)),
        };
        let key = match settings.session_key {
            Some(text) => text,
            None => return Err(ConfigurationError::Missing(Setting::SessionKey)),
        };
        let ttl: i64 = match settings.session_ttl {
            Some(text) => match parse_number(text.as_str()) {
                Some(n) => n as i64,
                None => return Err(ConfigurationError::Invalid(Setting::SessionTtl)),
            },
            None => DEFAULT_TTL,
        };
        let secure = match settings.session_secure {
            Some(text) => text == "true".to_owned(),
            None => false,
        };
        let salt = match settings.auth_salt {
            Some(text) => text,
            None => return Err(ConfigurationError::Missing(Setting::AuthSalt)),
        };
        Ok(
            Config {
                database: DatabaseConfig { url: database_url, pool_size },
                log: LogConfig { level },
                session: SessionConfig { url: session_url, key, ttl, secure },
                auth: AuthConfig { salt },
            },
        )
    }
}

} // verus!
