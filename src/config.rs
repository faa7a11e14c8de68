//! Client and server settings, where they are kept, and which server a client
//! command talks to.

use vstd::prelude::*;
use crate::text::owned;

verus! {

/// Settings of a server.
#[derive(Debug, Clone, PartialEq, Eq)]
pub struct ServerConfig {
    pub root: String,
    pub bind: String,
}

/// Settings of a client.
#[derive(Debug, Clone, PartialEq, Eq)]
pub struct ClientConfig {
    pub default_server: String,
}

/// All settings.
#[derive(Debug, Clone, PartialEq, Eq)]
pub struct Config {
    pub server: ServerConfig,
    pub client: ClientConfig,
}

impl Default for ServerConfig {
    /// Receive into `/backup/incoming` on every interface, port 4433.
    fn default() -> (r: ServerConfig)
        ensures
            r.root@ == "/backup/incoming"@,
            r.bind@ == "0.0.0.0:4433"@,
    {
        ServerConfig { root: owned("/backup/incoming"), bind: owned("0.0.0.0:4433") }
    }
}

impl Default for ClientConfig {
    /// Talk to the usual backup host.
    fn default() -> (r: ClientConfig)
        ensures
            r.default_server@ == "192.168.178.20:4433"@,
    {
        ClientConfig { default_server: owned("192.168.178.20:4433") }
    }
}

impl Default for Config {
    /// The defaults of both sides.
    fn default() -> (r: Config)
        ensures
            r.server.root@ == "/backup/incoming"@,
            r.server.bind@ == "0.0.0.0:4433"@,
            r.client.default_server@ == "192.168.178.20:4433"@,
    {
        Config { server: ServerConfig::default(), client: ClientConfig::default() }
    }
}

/// Why settings could not be had.
#[derive(Debug, Clone, Copy, PartialEq, Eq, Structural)]
pub enum ConfigError {
    /// The platform gives no configuration directory (no home directory).
    NoConfigDir,
    /// No settings file was found.
    NotFound,
}

/// Relies on `directories::ProjectDirs::from` and `ProjectDirs::config_dir`:
/// the platform's configuration directory for an application, if the
/// platform has one. It depends on the environment, so nothing is known of
/// its value.
#[verifier::external_body]
fn platform_config_dir(application: &str) -> Option<String> {
    match directories::ProjectDirs::from("", "", application) {
        Some(dirs) => Some(dirs.config_dir().to_string_lossy().into_owned()),
        None => None,
    }
}

/// The directory that holds the settings and the navigation state.
pub fn config_dir() -> (r: Result<String, ConfigError>)
    ensures
        r is Err ==> r == Err::<String, ConfigError>(ConfigError::NoConfigDir),
{
    match platform_config_dir("hank-sync") {
        Some(d) => Ok(d),
        None => Err(ConfigError::NoConfigDir),
    }
}

/// The settings file inside a configuration directory.
pub fn config_file(dir: &str) -> (r: String)
    ensures
        r@ == dir@ + "/config.toml"@,
{
    let mut p = owned(dir);
    p.append("/config.toml");
    p
}

/// The server a client command talks to: the one given on the command line,
/// else the configured default. `loaded` is the settings file, if one was
/// read.
pub fn resolve_server(override_server: Option<String>, loaded: Option<&Config>) -> (r: Result<
    String,
    ConfigError,
>)
    ensures
        override_server matches Some(s) ==> r == Ok::<String, ConfigError>(s),
        override_server is None ==> match loaded {
            Some(c) => r matches Ok(s) && s@ == c.client.default_server@,
            None => r == Err::<String, ConfigError>(ConfigError::NotFound),
        },
{
    match override_server {
        Some(s) => Ok(s),
        None => match loaded {
            Some(c) => Ok(owned(c.client.default_server.as_str())),
            None => Err(ConfigError::NotFound),
        },
    }
}

} // verus!
