//! Configuration model and its defaults.
//!
//! The core consumes exactly one value from here — the backing store
//! location — and the surrounding process the rest.  The configuration is
//! an explicit struct built once at startup and passed in, not a process
//! global, so isolated configurations can be constructed at will.  Reading
//! and writing the configuration file is the boundary's job; the defaults
//! it writes on first run are fixed here.
use vstd::prelude::*;
use vstd::string::StringExecFns;

verus! {

/// How the process logs: level, an optional log directory, whether to echo
/// to standard error, and how many rotated files to keep (all, if absent).
#[derive(Debug, Clone)]
pub struct LogConfig {
    pub level: String,
    pub dir: Option<String>,
    pub stdout: bool,
    pub fileskept: Option<usize>,
}

/// Where the backing store lives.
#[derive(Debug, Clone)]
pub struct SqlConfig {
    pub location: String,
}

/// How the web boundary listens.  `https` is a capability flag of the
/// transport binding: the core is transport-agnostic and assumes neither
/// setting.
#[derive(Debug, Clone)]
pub struct WebConfig {
    pub listen: String,
    pub https: Option<bool>,
    pub key_file: Option<String>,
    pub privkey_file: Option<String>,
}

/// The whole process configuration.
#[derive(Debug, Clone)]
pub struct Config {
    pub log: LogConfig,
    pub sql: SqlConfig,
    pub web: WebConfig,
}

/// Where the configuration file lives, relative to the working directory.
pub fn get_config_location() -> (path: String)
    ensures
        path@ == "config.json"@,
{
    String::from_str("config.json")
}

/// The configuration written on first run: informational logging echoed to
/// the console, a local store file, and a plain local listener.
pub fn default_config() -> (config: Config)
    ensures
        config.log.level@ == "info"@,
        config.log.dir is None,
        config.log.stdout == true,
        config.log.fileskept is None,
        config.sql.location@ == "spord-tracker.db"@,
        config.web.listen@ == "127.0.0.1:8080"@,
        config.web.https == Some(false),
        config.web.key_file matches Some(k) && k@ == "key.crt"@,
        config.web.privkey_file matches Some(k) && k@ == "privkey.key"@,
{
    Config {
        log: LogConfig {
            level: String::from_str("info"),
            dir: None,
            stdout: true,
            fileskept: None,
        },
        sql: SqlConfig { location: String::from_str("spord-tracker.db") },
        web: WebConfig {
            listen: String::from_str("127.0.0.1:8080"),
            https: Some(false),
            key_file: Some(String::from_str("key.crt")),
            privkey_file: Some(String::from_str("privkey.key")),
        },
    }
}

} // verus!
