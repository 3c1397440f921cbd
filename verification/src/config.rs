//! The persistent configuration and its field-by-field editing.

use vstd::prelude::*;
use vstd::utf8::encode_utf8;
use crate::numparse::{parse_bool, parse_unsigned, spec_parse_bool, spec_parse_unsigned};
use crate::protocol::{is_role_name, is_valid_role_name, DEFAULT_DISCOVERY_PORT, DEFAULT_STREAM_PORT};
use crate::identity::{generate_auth_key, is_auth_key, local_hostname, sha256, sha256_digest};
use crate::text::{owned, str_eq};

verus! {

/// The settings a machine keeps between runs.
#[derive(Debug)]
pub struct Config {
    pub hostname: String,
    pub default_role: String,
    pub auth_key: String,
    pub stream_port: u16,
    pub discovery_port: u16,
    pub capture_quality: u8,
    pub capture_monitor: usize,
    pub viewer_monitor: usize,
    pub max_fps: u32,
    pub virtual_display_width: u32,
    pub virtual_display_height: u32,
    pub use_virtual_display: bool,
}

/// The value of a configuration: its fields, strings by their characters.
pub struct ConfigView {
    pub hostname: Seq<char>,
    pub default_role: Seq<char>,
    pub auth_key: Seq<char>,
    pub stream_port: u16,
    pub discovery_port: u16,
    pub capture_quality: u8,
    pub capture_monitor: usize,
    pub viewer_monitor: usize,
    pub max_fps: u32,
    pub virtual_display_width: u32,
    pub virtual_display_height: u32,
    pub use_virtual_display: bool,
}

impl View for Config {
    type V = ConfigView;

    open spec fn view(&self) -> ConfigView {
        ConfigView {
            hostname: self.hostname@,
            default_role: self.default_role@,
            auth_key: self.auth_key@,
            stream_port: self.stream_port,
            discovery_port: self.discovery_port,
            capture_quality: self.capture_quality,
            capture_monitor: self.capture_monitor,
            viewer_monitor: self.viewer_monitor,
            max_fps: self.max_fps,
            virtual_display_width: self.virtual_display_width,
            virtual_display_height: self.virtual_display_height,
            use_virtual_display: self.use_virtual_display,
        }
    }
}

/// Why a configuration field could not be set.
#[derive(Debug)]
pub enum ConfigError {
    InvalidRole { value: String },
    InvalidPort,
    InvalidQuality,
    QualityOutOfRange,
    InvalidMonitorIndex,
    InvalidFps,
    FpsOutOfRange,
    InvalidWidth,
    InvalidHeight,
    InvalidBool,
    UnknownKey { key: String },
}

/// A `ConfigError` with its strings taken by their characters.
pub enum ConfigErrorView {
    InvalidRole { value: Seq<char> },
    InvalidPort,
    InvalidQuality,
    QualityOutOfRange,
    InvalidMonitorIndex,
    InvalidFps,
    FpsOutOfRange,
    InvalidWidth,
    InvalidHeight,
    InvalidBool,
    UnknownKey { key: Seq<char> },
}

impl View for ConfigError {
    type V = ConfigErrorView;

    open spec fn view(&self) -> ConfigErrorView {
        match self {
            ConfigError::InvalidRole { value } => ConfigErrorView::InvalidRole { value: value@ },
            ConfigError::InvalidPort => ConfigErrorView::InvalidPort,
            ConfigError::InvalidQuality => ConfigErrorView::InvalidQuality,
            ConfigError::QualityOutOfRange => ConfigErrorView::QualityOutOfRange,
            ConfigError::InvalidMonitorIndex => ConfigErrorView::InvalidMonitorIndex,
            ConfigError::InvalidFps => ConfigErrorView::InvalidFps,
            ConfigError::FpsOutOfRange => ConfigErrorView::FpsOutOfRange,
            ConfigError::InvalidWidth => ConfigErrorView::InvalidWidth,
            ConfigError::InvalidHeight => ConfigErrorView::InvalidHeight,
            ConfigError::InvalidBool => ConfigErrorView::InvalidBool,
            ConfigError::UnknownKey { key } => ConfigErrorView::UnknownKey { key: key@ },
        }
    }
}

/// The settings of a fresh configuration for `hostname` with `auth_key`.
pub open spec fn initial_config(hostname: Seq<char>, auth_key: Seq<char>) -> ConfigView {
    ConfigView {
        hostname,
        default_role: "idle"@,
        auth_key,
        stream_port: DEFAULT_STREAM_PORT,
        discovery_port: DEFAULT_DISCOVERY_PORT,
        capture_quality: 60,
        capture_monitor: 0,
        viewer_monitor: 0,
        max_fps: 30,
        virtual_display_width: 1920,
        virtual_display_height: 1080,
        use_virtual_display: true,
    }
}

/// What setting `key` to `value` does to the configuration `c`: the new
/// configuration, or the error, with `c` left as it was.
pub open spec fn set_field_outcome(c: ConfigView, key: Seq<char>, value: Seq<char>) -> Result<
    ConfigView,
    ConfigErrorView,
> {
    if key == "hostname"@ {
        Ok(ConfigView { hostname: value, ..c })
    } else if key == "default_role"@ {
        if is_role_name(value) {
            Ok(ConfigView { default_role: value, ..c })
        } else {
            Err(ConfigErrorView::InvalidRole { value })
        }
    } else if key == "auth_key"@ {
        Ok(ConfigView { auth_key: value, ..c })
    } else if key == "stream_port"@ {
        match spec_parse_unsigned(value, u16::MAX as int) {
            Some(n) => Ok(ConfigView { stream_port: n as u16, ..c }),
            None => Err(ConfigErrorView::InvalidPort),
        }
    } else if key == "discovery_port"@ {
        match spec_parse_unsigned(value, u16::MAX as int) {
            Some(n) => Ok(ConfigView { discovery_port: n as u16, ..c }),
            None => Err(ConfigErrorView::InvalidPort),
        }
    } else if key == "capture_quality"@ {
        match spec_parse_unsigned(value, u8::MAX as int) {
            Some(q) => if 1 <= q <= 100 {
                Ok(ConfigView { capture_quality: q as u8, ..c })
            } else {
                Err(ConfigErrorView::QualityOutOfRange)
            },
            None => Err(ConfigErrorView::InvalidQuality),
        }
    } else if key == "capture_monitor"@ {
        match spec_parse_unsigned(value, usize::MAX as int) {
            Some(n) => Ok(ConfigView { capture_monitor: n as usize, ..c }),
            None => Err(ConfigErrorView::InvalidMonitorIndex),
        }
    } else if key == "viewer_monitor"@ {
        match spec_parse_unsigned(value, usize::MAX as int) {
            Some(n) => Ok(ConfigView { viewer_monitor: n as usize, ..c }),
            None => Err(ConfigErrorView::InvalidMonitorIndex),
        }
    } else if key == "max_fps"@ {
        match spec_parse_unsigned(value, u32::MAX as int) {
            Some(f) => if 1 <= f <= 60 {
                Ok(ConfigView { max_fps: f as u32, ..c })
            } else {
                Err(ConfigErrorView::FpsOutOfRange)
            },
            None => Err(ConfigErrorView::InvalidFps),
        }
    } else if key == "virtual_display_width"@ {
        match spec_parse_unsigned(value, u32::MAX as int) {
            Some(n) => Ok(ConfigView { virtual_display_width: n as u32, ..c }),
            None => Err(ConfigErrorView::InvalidWidth),
        }
    } else if key == "virtual_display_height"@ {
        match spec_parse_unsigned(value, u32::MAX as int) {
            Some(n) => Ok(ConfigView { virtual_display_height: n as u32, ..c }),
            None => Err(ConfigErrorView::InvalidHeight),
        }
    } else if key == "use_virtual_display"@ {
        match spec_parse_bool(value) {
            Some(b) => Ok(ConfigView { use_virtual_display: b, ..c }),
            None => Err(ConfigErrorView::InvalidBool),
        }
    } else {
        Err(ConfigErrorView::UnknownKey { key })
    }
}

/// The settings that editing keeps sound: a known role name, a quality in
/// `1..=100` and a frame rate in `1..=60`.
pub open spec fn is_valid_config(c: ConfigView) -> bool {
    &&& is_role_name(c.default_role)
    &&& 1 <= c.capture_quality <= 100
    &&& 1 <= c.max_fps <= 60
}

/// Default width of the virtual display.
pub fn default_vd_width() -> (r: u32)
    ensures
        r == 1920,
{
    1920
}

/// Default height of the virtual display.
pub fn default_vd_height() -> (r: u32)
    ensures
        r == 1080,
{
    1080
}

/// Default for switches that are on unless turned off.
pub fn default_true() -> (r: bool)
    ensures
        r,
{
    true
}

impl Config {
    /// A fresh configuration for `hostname` with `auth_key`, every other
    /// setting at its default.
    pub fn with_identity(hostname: String, auth_key: String) -> (r: Config)
        ensures
            r@ == initial_config(hostname@, auth_key@),
    {
        Config {
            hostname,
            default_role: owned("idle"),
            auth_key,
            stream_port: DEFAULT_STREAM_PORT,
            discovery_port: DEFAULT_DISCOVERY_PORT,
            capture_quality: 60,
            capture_monitor: 0,
            viewer_monitor: 0,
            max_fps: 30,
            virtual_display_width: default_vd_width(),
            virtual_display_height: default_vd_height(),
            use_virtual_display: default_true(),
        }
    }

    /// The digest of the authentication key that the handshake compares:
    /// SHA-256 of the key's UTF-8 bytes.
    pub fn auth_hash(&self) -> (r: Vec<u8>)
        ensures
            r@ == sha256_digest(encode_utf8(self.auth_key@)),
            r@.len() == 32,
    {
        sha256(self.auth_key.as_str().as_bytes())
    }

    /// Sets the field named `key` from its textual `value`. On an error
    /// the configuration is left as it was.
    pub fn set_field(&mut self, key: &str, value: &str) -> (r: Result<(), ConfigError>)
        ensures
            match set_field_outcome(old(self)@, key@, value@) {
                Ok(c) => r is Ok && final(self)@ == c,
                Err(e) => r matches Err(x) && x@ == e && final(self)@ == old(self)@,
            },
    {
        if str_eq(key, "hostname") {
            self.hostname = owned(value);
        } else if str_eq(key, "default_role") {
            if is_valid_role_name(value) {
                self.default_role = owned(value);
            } else {
                return Err(ConfigError::InvalidRole { value: owned(value) });
            }
        } else if str_eq(key, "auth_key") {
            self.auth_key = owned(value);
        } else if str_eq(key, "stream_port") {
            match parse_unsigned(value, 65535) {
                Some(n) => self.stream_port = n as u16,
                None => return Err(ConfigError::InvalidPort),
            }
        } else if str_eq(key, "discovery_port") {
            match parse_unsigned(value, 65535) {
                Some(n) => self.discovery_port = n as u16,
                None => return Err(ConfigError::InvalidPort),
            }
        } else if str_eq(key, "capture_quality") {
            match parse_unsigned(value, 255) {
                Some(q) => {
                    if 1 <= q && q <= 100 {
                        self.capture_quality = q as u8;
                    } else {
                        return Err(ConfigError::QualityOutOfRange);
                    }
                },
                None => return Err(ConfigError::InvalidQuality),
            }
        } else if str_eq(key, "capture_monitor") {
            match parse_unsigned(value, usize::MAX as u64) {
                Some(n) => self.capture_monitor = n as usize,
                None => return Err(ConfigError::InvalidMonitorIndex),
            }
        } else if str_eq(key, "viewer_monitor") {
            match parse_unsigned(value, usize::MAX as u64) {
                Some(n) => self.viewer_monitor = n as usize,
                None => return Err(ConfigError::InvalidMonitorIndex),
            }
        } else if str_eq(key, "max_fps") {
            match parse_unsigned(value, 4294967295) {
                Some(f) => {
                    if 1 <= f && f <= 60 {
                        self.max_fps = f as u32;
                    } else {
                        return Err(ConfigError::FpsOutOfRange);
                    }
                },
                None => return Err(ConfigError::InvalidFps),
            }
        } else if str_eq(key, "virtual_display_width") {
            match parse_unsigned(value, 4294967295) {
                Some(n) => self.virtual_display_width = n as u32,
                None => return Err(ConfigError::InvalidWidth),
            }
        } else if str_eq(key, "virtual_display_height") {
            match parse_unsigned(value, 4294967295) {
                Some(n) => self.virtual_display_height = n as u32,
                None => return Err(ConfigError::InvalidHeight),
            }
        } else if str_eq(key, "use_virtual_display") {
            match parse_bool(value) {
                Some(b) => self.use_virtual_display = b,
                None => return Err(ConfigError::InvalidBool),
            }
        } else {
            return Err(ConfigError::UnknownKey { key: owned(key) });
        }
        Ok(())
    }
}

impl Default for Config {
    /// A fresh configuration: this machine's hostname (or `unknown`), a
    /// newly generated authentication key, every other setting at its
    /// default.
    fn default() -> (r: Config)
        ensures
            r@ == initial_config(r@.hostname, r@.auth_key),
            is_auth_key(r@.auth_key),
    {
        Config::with_identity(local_hostname(), generate_auth_key())
    }
}

impl ConfigError {
    /// The message shown for the error.
    pub fn message(&self) -> (r: String)
        ensures
            match self@ {
                ConfigErrorView::InvalidRole { value } => r@ == "Invalid role: "@ + value
                    + ". Must be idle, primary, or display"@,
                ConfigErrorView::InvalidPort => r@ == "Invalid port number"@,
                ConfigErrorView::InvalidQuality => r@ == "Invalid quality (1-100)"@,
                ConfigErrorView::QualityOutOfRange => r@ == "Quality must be between 1 and 100"@,
                ConfigErrorView::InvalidMonitorIndex => r@ == "Invalid monitor index"@,
                ConfigErrorView::InvalidFps => r@ == "Invalid FPS value"@,
                ConfigErrorView::FpsOutOfRange => r@ == "FPS must be between 1 and 60"@,
                ConfigErrorView::InvalidWidth => r@ == "Invalid width"@,
                ConfigErrorView::InvalidHeight => r@ == "Invalid height"@,
                ConfigErrorView::InvalidBool => r@ == "Must be true or false"@,
                ConfigErrorView::UnknownKey { key } => r@ == "Unknown config key: "@ + key,
            },
    {
        match self {
            ConfigError::InvalidRole { value } => crate::text::concat3(
                "Invalid role: ",
                value.as_str(),
                ". Must be idle, primary, or display",
            ),
            ConfigError::InvalidPort => owned("Invalid port number"),
            ConfigError::InvalidQuality => owned("Invalid quality (1-100)"),
            ConfigError::QualityOutOfRange => owned("Quality must be between 1 and 100"),
            ConfigError::InvalidMonitorIndex => owned("Invalid monitor index"),
            ConfigError::InvalidFps => owned("Invalid FPS value"),
            ConfigError::FpsOutOfRange => owned("FPS must be between 1 and 60"),
            ConfigError::InvalidWidth => owned("Invalid width"),
            ConfigError::InvalidHeight => owned("Invalid height"),
            ConfigError::InvalidBool => owned("Must be true or false"),
            ConfigError::UnknownKey { key } => crate::text::concat2(
                "Unknown config key: ",
                key.as_str(),
            ),
        }
    }
}

/// A fresh configuration is valid.
pub proof fn law_initial_config_valid(hostname: Seq<char>, auth_key: Seq<char>)
    ensures
        is_valid_config(initial_config(hostname, auth_key)),
{
}

/// Editing a valid configuration keeps it valid: every accepted edit keeps
/// the role name, the quality and the frame rate within their bounds.
pub proof fn law_set_field_keeps_valid(c: ConfigView, key: Seq<char>, value: Seq<char>)
    requires
        is_valid_config(c),
    ensures
        set_field_outcome(c, key, value) matches Ok(c2) ==> is_valid_config(c2),
{
}

/// Setting a field to the value it was just set to changes nothing more.
pub proof fn law_set_field_idempotent(c: ConfigView, key: Seq<char>, value: Seq<char>)
    ensures
        set_field_outcome(c, key, value) matches Ok(c2) ==> set_field_outcome(c2, key, value)
            == Ok::<ConfigView, ConfigErrorView>(c2),
{
}

/// Of two edits of the same field, the second one wins: the result is as if
/// only the second had been made.
pub proof fn law_set_field_last_wins(
    c: ConfigView,
    key: Seq<char>,
    first: Seq<char>,
    second: Seq<char>,
)
    ensures
        set_field_outcome(c, key, first) matches Ok(c1) ==> set_field_outcome(c1, key, second)
            == set_field_outcome(c, key, second),
{
}

/// Whether an edit succeeds depends on the key and the value alone, not on
/// the configuration it is made to.
pub proof fn law_set_field_outcome_independent(
    c1: ConfigView,
    c2: ConfigView,
    key: Seq<char>,
    value: Seq<char>,
)
    ensures
        (set_field_outcome(c1, key, value) is Ok) == (set_field_outcome(c2, key, value) is Ok),
{
}

} // verus!
