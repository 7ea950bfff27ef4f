//! Configuration of the desktop client.

use vstd::prelude::*;
use crate::paths::default_config_file;
use crate::paths::default_config_path;
use crate::paths::text_of;

verus! {

/// Settings shared by every component.
#[derive(Debug)]
pub struct GlobalConfig {
    /// Port of the push-consumer listener.
    pub websocket_port: u16,
    /// Prefix of every publish and control topic; may be empty.
    pub zenoh_prefix: String,
}

impl GlobalConfig {
    /// The listener port used when none is configured.
    pub fn default_websocket_port() -> (port: u16)
        ensures
            port == 8080,
    {
        8080
    }

    /// The topic prefix used when none is configured: the empty one.
    pub fn default_zenoh_prefix() -> (prefix: String)
        ensures
            prefix@ == Seq::<char>::empty(),
    {
        String::new()
    }
}

impl Default for GlobalConfig {
    fn default() -> (config: Self)
        ensures
            config.websocket_port == 8080,
            config.zenoh_prefix@ == Seq::<char>::empty(),
    {
        GlobalConfig {
            websocket_port: GlobalConfig::default_websocket_port(),
            zenoh_prefix: GlobalConfig::default_zenoh_prefix(),
        }
    }
}

/// Settings of the desktop client.
#[derive(Debug)]
pub struct GUIConfig {
    /// Host of the capture side.
    pub host: String,
}

impl GUIConfig {
    /// The host used when none is configured.
    pub fn default_host() -> (host: String)
        ensures
            host@ == "localhost"@,
    {
        "localhost".to_string()
    }
}

impl Default for GUIConfig {
    fn default() -> (config: Self)
        ensures
            config.host@ == "localhost"@,
    {
        GUIConfig { host: GUIConfig::default_host() }
    }
}

/// The whole configuration file of the desktop client.
#[derive(Debug)]
pub struct Config {
    /// Shared settings; the defaults where the file has none.
    pub global: GlobalConfig,
    /// Client settings, where the file has any.
    pub gui: Option<GUIConfig>,
}

/// The configuration file to read: the canonical form of the one asked
/// for; with none asked for, the default one.
pub open spec fn config_file(
    file_path: Option<Seq<char>>,
    canonical: Option<Seq<char>>,
    xdg_config_home: Option<Seq<char>>,
    home: Option<Seq<char>>,
) -> Seq<char>
    recommends
        file_path is Some ==> canonical is Some,
{
    match file_path {
        Some(_) => canonical.unwrap(),
        None => default_config_file(xdg_config_home, home),
    }
}

/// Decides which configuration file to read. `file_path` is the file asked
/// for, if any, and `canonical` its canonical form; a file asked for has to
/// have one. With no file asked for, `XDG_CONFIG_HOME` or the home
/// directory has to be known.
pub fn get_config_file(
    file_path: Option<String>,
    canonical: Option<String>,
    xdg_config_home: Option<String>,
    home: Option<String>,
) -> (file: String)
    requires
        file_path is Some ==> canonical is Some,
        file_path is None ==> xdg_config_home is Some || home is Some,
    ensures
        file@ == config_file(
            text_of(file_path),
            text_of(canonical),
            text_of(xdg_config_home),
            text_of(home),
        ),
{
    match file_path {
        Some(_) => canonical.unwrap(),
        None => default_config_path(xdg_config_home, home),
    }
}

} // verus!
