use vstd::prelude::*;

verus! {

/// Settings of a running server.
#[derive(Debug, Clone)]
pub struct Config {
    pub database_url: String,
    pub jwt_secret: String,
    pub port: u16,
    pub frontend_url: String,
    pub smtp_host: String,
    pub smtp_port: u16,
    pub smtp_username: String,
    pub smtp_password: String,
    pub from_email: String,
}

/// Why the settings could not be assembled.
#[derive(Debug, Clone, Copy, PartialEq, Eq, Structural)]
pub enum ConfigError {
    MissingDatabaseUrl,
    MissingJwtSecret,
    InvalidPort,
    InvalidSmtpPort,
}

pub open spec fn is_digit(c: char) -> bool {
    '0' <= c && c <= '9'
}

/// The value of a text of decimal digits.
pub open spec fn digits_value(s: Seq<char>) -> int
    decreases s.len(),
{
    if s.len() == 0 {
        0
    } else {
        digits_value(s.drop_last()) * 10 + ((s.last() as u32) as int - 48)
    }
}

/// What reading a text as a decimal `u16` gives: an optional `+`, then one
/// or more decimal digits whose value fits.
pub open spec fn u16_parsed(s: Seq<char>) -> Option<u16> {
    let d = if s.len() > 0 && s[0] == '+' { s.subrange(1, s.len() as int) } else { s };
    if d.len() > 0 && (forall|i: int| 0 <= i < d.len() ==> is_digit(#[trigger] d[i])) && digits_value(d) <= 65535 {
        Some(digits_value(d) as u16)
    } else {
        None
    }
}

/// Relies on `str::parse::<u16>`: an optional `+` sign, then decimal digits
/// whose value is at most 65535.
#[verifier::external_body]
fn parse_u16(s: &str) -> (r: Option<u16>)
    ensures
        r == u16_parsed(s@),
{
    s.parse::<u16>().ok()
}

pub const DEFAULT_PORT: u16 = 3000;

pub const DEFAULT_SMTP_PORT: u16 = 587;

pub open spec fn port_setting(v: Option<String>, default: u16) -> Option<u16> {
    match v {
        Some(s) => u16_parsed(s@),
        None => Some(default),
    }
}

pub open spec fn text_setting(v: Option<String>, default: Seq<char>) -> Seq<char> {
    match v {
        Some(s) => s@,
        None => default,
    }
}

fn text_or(v: Option<String>, default: &str) -> (r: String)
    ensures
        r@ == text_setting(v, default@),
{
    match v {
        Some(s) => s,
        None => default.to_owned(),
    }
}

fn port_or(v: &Option<String>, default: u16) -> (r: Option<u16>)
    ensures
        r == port_setting(*v, default),
{
    match v {
        Some(s) => parse_u16(s.as_str()),
        None => Some(default),
    }
}

impl Config {
    /// Assembles the settings from the values of the process environment's
    /// variables (`None` for an unset one): the database URL and the signing
    /// secret are required, the rest fall back to defaults.
    pub fn from_vars(
        database_url: Option<String>,
        jwt_secret: Option<String>,
        port: Option<String>,
        frontend_url: Option<String>,
        smtp_host: Option<String>,
        smtp_port: Option<String>,
        smtp_username: Option<String>,
        smtp_password: Option<String>,
        from_email: Option<String>,
    ) -> (r: Result<Config, ConfigError>)
        ensures
            database_url is None ==> r == Err::<Config, ConfigError>(ConfigError::MissingDatabaseUrl),
            database_url is Some && jwt_secret is None ==> r == Err::<Config, ConfigError>(ConfigError::MissingJwtSecret),
            database_url is Some && jwt_secret is Some && port_setting(port, DEFAULT_PORT) is None
                ==> r == Err::<Config, ConfigError>(ConfigError::InvalidPort),
            database_url is Some && jwt_secret is Some && port_setting(port, DEFAULT_PORT) is Some
                && port_setting(smtp_port, DEFAULT_SMTP_PORT) is None ==> r == Err::<Config, ConfigError>(ConfigError::InvalidSmtpPort),
            database_url is Some && jwt_secret is Some && port_setting(port, DEFAULT_PORT) is Some
                && port_setting(smtp_port, DEFAULT_SMTP_PORT) is Some ==> r is Ok,
            r matches Ok(c) ==> {
                &&& database_url == Some(c.database_url)
                &&& jwt_secret == Some(c.jwt_secret)
                &&& port_setting(port, DEFAULT_PORT) == Some(c.port)
                &&& port_setting(smtp_port, DEFAULT_SMTP_PORT) == Some(c.smtp_port)
                &&& c.frontend_url@ == text_setting(frontend_url, "http://localhost:3000"@)
                &&& c.smtp_host@ == text_setting(smtp_host, "localhost"@)
                &&& c.smtp_username@ == text_setting(smtp_username, ""@)
                &&& c.smtp_password@ == text_setting(smtp_password, ""@)
                &&& c.from_email@ == text_setting(from_email, "noreply@example.com"@)
            },
    {
        let database_url = match database_url {
            Some(v) => v,
            None => return Err(ConfigError::MissingDatabaseUrl),
        };
        let jwt_secret = match jwt_secret {
            Some(v) => v,
            None => return Err(ConfigError::MissingJwtSecret),
        };
        let port = match port_or(&port, DEFAULT_PORT) {
            Some(p) => p,
            None => return Err(ConfigError::InvalidPort),
        };
        let smtp_port = match port_or(&smtp_port, DEFAULT_SMTP_PORT) {
            Some(p) => p,
            None => return Err(ConfigError::InvalidSmtpPort),
        };
        Ok(Config {
            database_url,
            jwt_secret,
            port,
            frontend_url: text_or(frontend_url, "http://localhost:3000"),
            smtp_host: text_or(smtp_host, "localhost"),
            smtp_port,
            smtp_username: text_or(smtp_username, ""),
            smtp_password: text_or(smtp_password, ""),
            from_email: text_or(from_email, "noreply@example.com"),
        })
    }
}

} // verus!
