//! Configuration of the capture side: the listener port, the topic prefix,
//! which outputs are enabled, and the ordered list of capture devices.

use vstd::prelude::*;
use crate::paths::default_config_file;
use crate::paths::default_config_path;
use crate::paths::text_of;

verus! {

/// Settings shared by every component.
#[derive(Debug)]
pub struct GlobalConfig {
    /// Port of the push-consumer listener.
    pub websocket_port: u16,
    /// Prefix of every publish and control topic; may be empty.
    pub zenoh_prefix: String,
}

impl GlobalConfig {
    /// The listener port used when none is configured.
    pub fn default_websocket_port() -> (port: u16)
        ensures
            port == 8080,
    {
        8080
    }

    /// The topic prefix used when none is configured: the empty one.
    pub fn default_zenoh_prefix() -> (prefix: String)
        ensures
            prefix@ == Seq::<char>::empty(),
    {
        String::new()
    }
}

impl Default for GlobalConfig {
    fn default() -> (config: Self)
        ensures
            config.websocket_port == 8080,
            config.zenoh_prefix@ == Seq::<char>::empty(),
    {
        GlobalConfig {
            websocket_port: GlobalConfig::default_websocket_port(),
            zenoh_prefix: GlobalConfig::default_zenoh_prefix(),
        }
    }
}

/// One capture device slot: where the device is and the frame size to ask
/// of it.
#[derive(Debug)]
pub struct CameraDevice {
    /// Path of the device, possibly a symbolic link to it.
    pub device: String,
    /// Requested frame width in pixels.
    pub width: u32,
    /// Requested frame height in pixels.
    pub height: u32,
}

impl CameraDevice {
    /// The frame height asked for when none is configured.
    pub fn default_height() -> (height: u32)
        ensures
            height == 720,
    {
        720
    }

    /// The frame width asked for when none is configured.
    pub fn default_width() -> (width: u32)
        ensures
            width == 1280,
    {
        1280
    }
}

/// Settings of the capture side.
#[derive(Debug)]
pub struct CameraConfig {
    /// Whether the push-consumer listener runs.
    pub websocket: bool,
    /// Whether frames are published on the fixed topic.
    pub zenoh: bool,
    /// The capture devices, in switching order.
    pub devices: Vec<CameraDevice>,
}

impl CameraConfig {
    /// The listener runs unless configured otherwise.
    pub fn default_websocket() -> (enabled: bool)
        ensures
            enabled,
    {
        true
    }

    /// Frames are not published unless configured so.
    pub fn default_zenoh() -> (enabled: bool)
        ensures
            !enabled,
    {
        false
    }
}

/// The whole configuration file of the capture side.
#[derive(Debug)]
pub struct Config {
    /// Shared settings; the defaults where the file has none.
    pub global: GlobalConfig,
    /// Capture settings, where the file has any.
    pub camera: Option<CameraConfig>,
}

/// The configuration file to read: the one asked for, in canonical form
/// where it has one and as given where it has not; with none asked for,
/// the default one.
pub open spec fn config_file(
    path: Option<Seq<char>>,
    canonical: Option<Seq<char>>,
    xdg_config_home: Option<Seq<char>>,
    home: Option<Seq<char>>,
) -> Seq<char> {
    match path {
        Some(asked) => match canonical {
            Some(resolved) => resolved,
            None => asked,
        },
        None => default_config_file(xdg_config_home, home),
    }
}

/// Decides which configuration file to read. `path` is the file asked for,
/// if any, and `canonical` its canonical form where the file system gave
/// one. With no file asked for, `XDG_CONFIG_HOME` or the home directory has
/// to be known.
pub fn parse_configpath(
    path: Option<String>,
    canonical: Option<String>,
    xdg_config_home: Option<String>,
    home: Option<String>,
) -> (file: String)
    requires
        path is Some || xdg_config_home is Some || home is Some,
    ensures
        file@ == config_file(text_of(path), text_of(canonical), text_of(xdg_config_home), text_of(home)),
{
    match path {
        Some(asked) => match canonical {
            Some(resolved) => resolved,
            None => asked,
        },
        None => default_config_path(xdg_config_home, home),
    }
}

/// The first part of every topic of the capture side: `cam` below the
/// configured prefix, or `cam` alone where the prefix is empty.
pub open spec fn topic_root(zenoh_prefix: Seq<char>) -> Seq<char> {
    if zenoh_prefix.len() == 0 {
        "cam"@
    } else {
        zenoh_prefix + "/cam"@
    }
}

/// The topic on which frames are published.
pub open spec fn frame_topic(zenoh_prefix: Seq<char>) -> Seq<char> {
    topic_root(zenoh_prefix) + "/jpg"@
}

/// The topic on which switch commands arrive.
pub open spec fn control_topic(zenoh_prefix: Seq<char>) -> Seq<char> {
    topic_root(zenoh_prefix) + "/switch"@
}

impl GlobalConfig {
    /// The first part of every topic of the capture side.
    pub fn topic_root(&self) -> (topic: String)
        ensures
            topic@ == topic_root(self.zenoh_prefix@),
    {
        if self.zenoh_prefix.as_str().is_empty() {
            "cam".to_string()
        } else {
            self.zenoh_prefix.clone().concat("/cam")
        }
    }

    /// The topic on which frames are published.
    pub fn frame_topic(&self) -> (topic: String)
        ensures
            topic@ == frame_topic(self.zenoh_prefix@),
    {
        self.topic_root().concat("/jpg")
    }

    /// The topic on which switch commands arrive.
    pub fn control_topic(&self) -> (topic: String)
        ensures
            topic@ == control_topic(self.zenoh_prefix@),
    {
        self.topic_root().concat("/switch")
    }
}

} // verus!
