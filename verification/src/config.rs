//! The server's settings, read from its environment.
use vstd::prelude::*;
use crate::json::str_equal;
use crate::text::{chars_of, parse_unsigned_max};
use crate::text;

verus! {

/// The server's settings.
pub struct Settings {
    pub server_host: String,
    pub server_port: Option<u16>,
    pub db_host: String,
    pub db_port: u16,
    pub db_username: String,
    pub db_password: String,
    pub db_database: String,
}

/// Why the settings cannot be read.
pub enum SettingsError {
    /// The variable of this name is not set.
    Missing(String),
    /// `DB_PORT` is set but is not a port number.
    InvalidDbPort,
}

/// What is wrong with a set of variables.
pub enum SettingsProblem {
    Missing(Seq<char>),
    InvalidDbPort,
}

/// The file of further variables for a `DEBUG` value: the development file for
/// "true", the production file otherwise.
pub open spec fn env_file_of(debug: Seq<char>) -> Seq<char> {
    if debug == "true"@ {
        "env.development"@
    } else {
        "env.production"@
    }
}

/// The file of further variables for a `DEBUG` value.
pub fn env_file_for(debug: &str) -> (r: &'static str)
    ensures
        r@ == env_file_of(debug@),
{
    if str_equal(debug, "true") {
        "env.development"
    } else {
        "env.production"
    }
}

/// A text read as a port number, the way `str::parse::<u16>` reads it.
pub open spec fn port_of(s: Seq<char>) -> Option<u16> {
    match text::parse_unsigned(s, 65535) {
        Some(n) => Some(n as u16),
        None => None,
    }
}

/// Reads a port number.
pub fn parse_port(s: &str) -> (r: Option<u16>)
    ensures
        r == port_of(s@),
{
    match parse_unsigned_max(&chars_of(s), 65535) {
        Some(n) => Some(n as u16),
        None => None,
    }
}

/// The settings that the variables give, or the first thing wrong with them, in the
/// order the server reads them: its host, its port (unset or unreadable: none), the
/// database host, the database port (which must be a port number), user, password
/// and database name.
pub open spec fn settings_of(
    server_host: Option<Seq<char>>,
    server_port: Option<Seq<char>>,
    db_host: Option<Seq<char>>,
    db_port: Option<Seq<char>>,
    db_username: Option<Seq<char>>,
    db_password: Option<Seq<char>>,
    db_database: Option<Seq<char>>,
) -> Result<(Seq<char>, Option<u16>, Seq<char>, u16, Seq<char>, Seq<char>, Seq<char>), SettingsProblem> {
    if server_host is None {
        Err(SettingsProblem::Missing("SERVER_HOST"@))
    } else if db_host is None {
        Err(SettingsProblem::Missing("DB_HOST"@))
    } else if db_port is None {
        Err(SettingsProblem::Missing("DB_PORT"@))
    } else if port_of(db_port->0) is None {
        Err(SettingsProblem::InvalidDbPort)
    } else if db_username is None {
        Err(SettingsProblem::Missing("DB_USERNAME"@))
    } else if db_password is None {
        Err(SettingsProblem::Missing("DB_PASSWORD"@))
    } else if db_database is None {
        Err(SettingsProblem::Missing("DB_DATABASE"@))
    } else {
        Ok((
            server_host->0,
            match server_port {
                Some(p) => port_of(p),
                None => None,
            },
            db_host->0,
            port_of(db_port->0)->0,
            db_username->0,
            db_password->0,
            db_database->0,
        ))
    }
}

/// The view of an optional string.
pub open spec fn opt_str(o: Option<String>) -> Option<Seq<char>> {
    match o {
        Some(s) => Some(s@),
        None => None,
    }
}

fn missing(name: &str) -> (r: SettingsError)
    ensures
        r matches SettingsError::Missing(n) && n@ == name@,
{
    SettingsError::Missing(name.to_owned())
}

impl Settings {
    /// The settings that the variables give. An unset variable is
    /// `SettingsError::Missing` with its name, an unreadable `DB_PORT` is
    /// `SettingsError::InvalidDbPort`; the first problem in reading order wins.
    pub fn from_vars(
        server_host: Option<String>,
        server_port: Option<String>,
        db_host: Option<String>,
        db_port: Option<String>,
        db_username: Option<String>,
        db_password: Option<String>,
        db_database: Option<String>,
    ) -> (r: Result<Settings, SettingsError>)
        ensures
            match settings_of(
                opt_str(server_host),
                opt_str(server_port),
                opt_str(db_host),
                opt_str(db_port),
                opt_str(db_username),
                opt_str(db_password),
                opt_str(db_database),
            ) {
                Ok((h, p, dh, dp, du, dw, dd)) => r matches Ok(s) && s.server_host@ == h && s.server_port == p
                    && s.db_host@ == dh && s.db_port == dp && s.db_username@ == du && s.db_password@ == dw
                    && s.db_database@ == dd,
                Err(SettingsProblem::InvalidDbPort) => r matches Err(SettingsError::InvalidDbPort),
                Err(SettingsProblem::Missing(name)) => r matches Err(SettingsError::Missing(n)) && n@ == name,
            },
    {
        let host = match server_host {
            Some(h) => h,
            None => return Err(missing("SERVER_HOST")),
        };
        let port = match &server_port {
            Some(p) => parse_port(p.as_str()),
            None => None,
        };
        let dbh = match db_host {
            Some(h) => h,
            None => return Err(missing("DB_HOST")),
        };
        let dbp = match &db_port {
            Some(p) => match parse_port(p.as_str()) {
                Some(n) => n,
                None => return Err(SettingsError::InvalidDbPort),
            },
            None => return Err(missing("DB_PORT")),
        };
        let user = match db_username {
            Some(u) => u,
            None => return Err(missing("DB_USERNAME")),
        };
        let password = match db_password {
            Some(w) => w,
            None => return Err(missing("DB_PASSWORD")),
        };
        let database = match db_database {
            Some(d) => d,
            None => return Err(missing("DB_DATABASE")),
        };
        Ok(Settings {
            server_host: host,
            server_port: port,
            db_host: dbh,
            db_port: dbp,
            db_username: user,
            db_password: password,
            db_database: database,
        })
    }

    /// Whether the server runs in debug mode: `DEBUG` is set to "true".
    pub fn debug_from(debug: Option<&str>) -> (r: bool)
        ensures
            r == (debug matches Some(d) && d@ == "true"@),
    {
        match debug {
            Some(d) => str_equal(d, "true"),
            None => false,
        }
    }
}

/// The settings are the variables as given, with the ports read as numbers, once all
/// the required ones are set and `DB_PORT` is a port; otherwise the first variable
/// missing in the order SERVER_HOST, DB_HOST, DB_PORT, DB_USERNAME, DB_PASSWORD,
/// DB_DATABASE is reported, an unreadable `DB_PORT` being reported in its place.
pub proof fn law_settings(
    host: Seq<char>,
    port: Option<Seq<char>>,
    db_host: Seq<char>,
    db_port: Seq<char>,
    user: Seq<char>,
    password: Seq<char>,
    database: Seq<char>,
    p: u16,
)
    requires
        text::parse_unsigned(db_port, 65535) == Some(p as nat),
    ensures
        settings_of(Some(host), port, Some(db_host), Some(db_port), Some(user), Some(password), Some(database))
            == Ok::<_, SettingsProblem>((host, match port { Some(s) => port_of(s), None => None }, db_host, p, user, password, database)),
        settings_of(None, port, None, None, None, None, None) == Err::<(Seq<char>, Option<u16>, Seq<char>, u16, Seq<char>, Seq<char>, Seq<char>), _>(SettingsProblem::Missing("SERVER_HOST"@)),
        settings_of(Some(host), port, Some(db_host), Some(db_port), None, None, None) == Err::<(Seq<char>, Option<u16>, Seq<char>, u16, Seq<char>, Seq<char>, Seq<char>), _>(SettingsProblem::Missing("DB_USERNAME"@)),
        settings_of(Some(host), port, Some(db_host), None, None, None, None) == Err::<(Seq<char>, Option<u16>, Seq<char>, u16, Seq<char>, Seq<char>, Seq<char>), _>(SettingsProblem::Missing("DB_PORT"@)),
        env_file_of("true"@) == "env.development"@,
        forall|d: Seq<char>| d != "true"@ ==> env_file_of(d) == "env.production"@,
{
}

} // verus!
