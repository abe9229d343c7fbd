//! The agent's configuration: its sections, the defaults, the rules a
//! configuration must meet, and its rendering as environment variables.

use vstd::prelude::*;
use vstd::string::*;
use crate::error::{AgentError, AgentResult, ErrorKind};
use crate::text::{bool_string, bool_text, decimal, decimal_string, digit_char, digit_to_char, push_decimal};
use crate::types::{Quality, VideoCodec};

verus! {

/// Server configuration.
#[derive(Debug, Clone)]
pub struct ServerConfig {
    pub host: String,
    pub port: u16,
    pub max_connections: u32,
    pub connection_timeout: u64,
    pub heartbeat_interval: u64,
}

/// Authentication configuration.
#[derive(Debug, Clone)]
pub struct AuthConfig {
    pub token: Option<String>,
    /// Whether clients must present the token. It can only be on together
    /// with a token, so it is off where none is configured.
    pub require_auth: bool,
    /// How long a session may stay idle, in milliseconds.
    pub session_timeout: u64,
    pub max_failed_attempts: u32,
}

/// Screen capture configuration.
#[derive(Debug, Clone, Copy, PartialEq, Eq, Structural)]
pub struct CaptureConfig {
    pub video: bool,
    pub audio: bool,
    pub quality: Quality,
    pub framerate: u32,
    pub codec: VideoCodec,
    pub hardware_acceleration: bool,
    pub multi_monitor: bool,
    pub capture_cursor: bool,
}

/// Input injection configuration. `mouse_sensitivity` is a factor in
/// thousandths: 1000 leaves pointer movements as they are.
#[derive(Debug, Clone, Copy, PartialEq, Eq, Structural)]
pub struct InputConfig {
    pub enable_mouse: bool,
    pub enable_keyboard: bool,
    pub enable_touch: bool,
    pub enable_clipboard: bool,
    pub enable_file_transfer: bool,
    pub mouse_sensitivity: u32,
    pub keyboard_repeat_delay: u32,
}

/// Transport configuration.
#[derive(Debug, Clone)]
pub struct TransportConfig {
    pub webrtc_enabled: bool,
    pub websocket_enabled: bool,
    pub ice_servers: Vec<String>,
    pub max_bitrate: u32,
    pub enable_compression: bool,
}

/// Security configuration.
#[derive(Debug, Clone)]
pub struct SecurityConfig {
    pub enable_encryption: bool,
    pub enable_audit_logging: bool,
    pub allowed_ips: Vec<String>,
    pub rate_limit_requests: u32,
    pub rate_limit_window: u64,
}

/// Logging configuration.
#[derive(Debug, Clone)]
pub struct LoggingConfig {
    pub level: String,
    pub file: Option<String>,
    pub max_file_size: u64,
    pub max_files: u32,
    pub enable_console: bool,
}

/// Main configuration structure.
#[derive(Debug, Clone)]
pub struct Config {
    pub server: ServerConfig,
    pub auth: AuthConfig,
    pub capture: CaptureConfig,
    pub input: InputConfig,
    pub transport: TransportConfig,
    pub security: SecurityConfig,
    pub logging: LoggingConfig,
}

/// The view of an optional text.
pub open spec fn text_of(s: Option<String>) -> Option<Seq<char>> {
    match s {
        Some(t) => Some(t@),
        None => None,
    }
}

impl CaptureConfig {
    /// Video at medium quality, 30 frames per second, H.264.
    pub open spec fn standard() -> CaptureConfig {
        CaptureConfig {
            video: true,
            audio: false,
            quality: Quality::Medium,
            framerate: 30,
            codec: VideoCodec::H264,
            hardware_acceleration: true,
            multi_monitor: false,
            capture_cursor: true,
        }
    }
}

impl Default for CaptureConfig {
    fn default() -> (r: Self)
        ensures
            r == CaptureConfig::standard(),
    {
        CaptureConfig {
            video: true,
            audio: false,
            quality: Quality::Medium,
            framerate: 30,
            codec: VideoCodec::H264,
            hardware_acceleration: true,
            multi_monitor: false,
            capture_cursor: true,
        }
    }
}

impl InputConfig {
    /// Mouse, keyboard and touch on; clipboard and file transfer off.
    pub open spec fn standard() -> InputConfig {
        InputConfig {
            enable_mouse: true,
            enable_keyboard: true,
            enable_touch: true,
            enable_clipboard: false,
            enable_file_transfer: false,
            mouse_sensitivity: 1000,
            keyboard_repeat_delay: 500,
        }
    }
}

impl Default for InputConfig {
    fn default() -> (r: Self)
        ensures
            r == InputConfig::standard(),
    {
        InputConfig {
            enable_mouse: true,
            enable_keyboard: true,
            enable_touch: true,
            enable_clipboard: false,
            enable_file_transfer: false,
            mouse_sensitivity: 1000,
            keyboard_repeat_delay: 500,
        }
    }
}

impl TransportConfig {
    /// Both transports on, two public STUN servers, 2 Mbps.
    pub open spec fn is_standard(self) -> bool {
        &&& self.webrtc_enabled
        &&& self.websocket_enabled
        &&& self.ice_servers@.len() == 2
        &&& self.ice_servers@[0]@ == "stun:stun.l.google.com:19302"@
        &&& self.ice_servers@[1]@ == "stun:stun1.l.google.com:19302"@
        &&& self.max_bitrate == 2000000
        &&& self.enable_compression
    }
}

impl Default for TransportConfig {
    fn default() -> (r: Self)
        ensures
            r.is_standard(),
    {
        let mut ice_servers: Vec<String> = Vec::new();
        ice_servers.push(String::from_str("stun:stun.l.google.com:19302"));
        ice_servers.push(String::from_str("stun:stun1.l.google.com:19302"));
        TransportConfig {
            webrtc_enabled: true,
            websocket_enabled: true,
            ice_servers,
            max_bitrate: 2000000,
            enable_compression: true,
        }
    }
}

/// A factor in thousandths written as a decimal number, without trailing
/// zeros after the point: 1000 reads `1`, 1500 reads `1.5`, 125 reads
/// `0.125`.
pub open spec fn thousandths_text(n: u32) -> Seq<char> {
    let whole = decimal((n / 1000) as nat);
    let frac = (n % 1000) as nat;
    if frac == 0 {
        whole
    } else if frac % 100 == 0 {
        whole + "."@ + seq![digit_char(frac / 100)]
    } else if frac % 10 == 0 {
        whole + "."@ + seq![digit_char(frac / 100), digit_char((frac / 10) % 10)]
    } else {
        whole + "."@ + seq![digit_char(frac / 100), digit_char((frac / 10) % 10), digit_char(frac % 10)]
    }
}

/// Writes a factor in thousandths as a decimal number.
pub fn thousandths_string(n: u32) -> (r: String)
    ensures
        r@ == thousandths_text(n),
{
    let mut out = String::new();
    push_decimal(&mut out, (n / 1000) as u64);
    assert(out@ =~= decimal((n / 1000) as nat));
    let frac: u32 = n % 1000;
    if frac != 0 {
        out.append(".");
        out.push(digit_to_char((frac / 100) as u8));
        if frac % 100 != 0 {
            out.push(digit_to_char(((frac / 10) % 10) as u8));
            if frac % 10 != 0 {
                out.push(digit_to_char((frac % 10) as u8));
            }
        }
        assert(out@ =~= thousandths_text(n));
    }
    out
}

/// One environment variable: its name and its value.
pub type EnvVar = (Seq<char>, Seq<char>);

/// The names and values held by a list of variables.
pub open spec fn env_view(vars: Seq<(String, String)>) -> Seq<EnvVar> {
    Seq::new(vars.len(), |i: int| (vars[i].0@, vars[i].1@))
}

/// The variable for a setting that may be absent: one entry, or none.
pub open spec fn optional_var(name: Seq<char>, value: Option<Seq<char>>) -> Seq<EnvVar> {
    match value {
        Some(text) => seq![(name, text)],
        None => Seq::empty(),
    }
}

/// Appends one variable.
pub(crate) fn push_var(vars: &mut Vec<(String, String)>, name: &str, value: String)
    ensures
        env_view(final(vars)@) == env_view(old(vars)@).push((name@, value@)),
{
    vars.push((String::from_str(name), value));
    assert(env_view(vars@) =~= env_view(old(vars)@).push((name@, value@)));
}

impl Config {
    /// Whether every field has its default value.
    pub open spec fn is_default(self) -> bool {
        &&& self.server.host@ == "0.0.0.0"@
        &&& self.server.port == 8080
        &&& self.server.max_connections == 10
        &&& self.server.connection_timeout == 30000
        &&& self.server.heartbeat_interval == 30000
        &&& self.auth.token is None
        &&& !self.auth.require_auth
        &&& self.auth.session_timeout == 3600000
        &&& self.auth.max_failed_attempts == 3
        &&& self.capture == CaptureConfig::standard()
        &&& self.input == InputConfig::standard()
        &&& self.transport.is_standard()
        &&& self.security.enable_encryption
        &&& self.security.enable_audit_logging
        &&& self.security.allowed_ips@.len() == 0
        &&& self.security.rate_limit_requests == 100
        &&& self.security.rate_limit_window == 60000
        &&& self.logging.level@ == "info"@
        &&& self.logging.file is None
        &&& self.logging.max_file_size == 10 * 1024 * 1024
        &&& self.logging.max_files == 5
        &&& self.logging.enable_console
    }

    /// The first rule that the configuration breaks, in the order server,
    /// authentication, capture, input, transport, security, logging.
    pub open spec fn first_fault(self) -> Option<Seq<char>> {
        if self.server.port == 0 {
            Some("Port cannot be 0"@)
        } else if self.server.max_connections == 0 {
            Some("Max connections cannot be 0"@)
        } else if self.auth.require_auth && self.auth.token is None {
            Some("Token required when authentication is enabled"@)
        } else if self.auth.session_timeout == 0 {
            Some("Session timeout cannot be 0"@)
        } else if self.capture.framerate == 0 {
            Some("Framerate cannot be 0"@)
        } else if self.capture.framerate > 120 {
            Some("Framerate cannot exceed 120"@)
        } else if self.input.mouse_sensitivity == 0 {
            Some("Mouse sensitivity must be positive"@)
        } else if self.input.keyboard_repeat_delay == 0 {
            Some("Keyboard repeat delay cannot be 0"@)
        } else if !self.transport.webrtc_enabled && !self.transport.websocket_enabled {
            Some("At least one transport must be enabled"@)
        } else if self.transport.max_bitrate == 0 {
            Some("Max bitrate cannot be 0"@)
        } else if self.security.rate_limit_requests == 0 {
            Some("Rate limit requests cannot be 0"@)
        } else if self.security.rate_limit_window == 0 {
            Some("Rate limit window cannot be 0"@)
        } else if self.logging.max_file_size == 0 {
            Some("Max file size cannot be 0"@)
        } else if self.logging.max_files == 0 {
            Some("Max files cannot be 0"@)
        } else {
            None
        }
    }

    /// The variables of the server section.
    pub open spec fn server_vars(self) -> Seq<EnvVar> {
        seq![
            ("SERVER_HOST"@, self.server.host@),
            ("SERVER_PORT"@, decimal(self.server.port as nat)),
            ("SERVER_MAX_CONNECTIONS"@, decimal(self.server.max_connections as nat)),
            ("SERVER_CONNECTION_TIMEOUT"@, decimal(self.server.connection_timeout as nat)),
            ("SERVER_HEARTBEAT_INTERVAL"@, decimal(self.server.heartbeat_interval as nat)),
        ]
    }

    /// The variables of the authentication section.
    pub open spec fn auth_vars(self) -> Seq<EnvVar> {
        optional_var("AUTH_TOKEN"@, text_of(self.auth.token))
            + seq![
            ("AUTH_REQUIRE_AUTH"@, bool_text(self.auth.require_auth)),
            ("AUTH_SESSION_TIMEOUT"@, decimal(self.auth.session_timeout as nat)),
            ("AUTH_MAX_FAILED_ATTEMPTS"@, decimal(self.auth.max_failed_attempts as nat)),
        ]
    }

    /// The variables of the capture section.
    pub open spec fn capture_vars(self) -> Seq<EnvVar> {
        seq![
            ("CAPTURE_VIDEO"@, bool_text(self.capture.video)),
            ("CAPTURE_AUDIO"@, bool_text(self.capture.audio)),
            ("CAPTURE_QUALITY"@, self.capture.quality.name()),
            ("CAPTURE_FRAMERATE"@, decimal(self.capture.framerate as nat)),
            ("CAPTURE_CODEC"@, self.capture.codec.name()),
            ("CAPTURE_HARDWARE_ACCELERATION"@, bool_text(self.capture.hardware_acceleration)),
            ("CAPTURE_MULTI_MONITOR"@, bool_text(self.capture.multi_monitor)),
            ("CAPTURE_CURSOR"@, bool_text(self.capture.capture_cursor)),
        ]
    }

    /// The variables of the input section.
    pub open spec fn input_vars(self) -> Seq<EnvVar> {
        seq![
            ("INPUT_ENABLE_MOUSE"@, bool_text(self.input.enable_mouse)),
            ("INPUT_ENABLE_KEYBOARD"@, bool_text(self.input.enable_keyboard)),
            ("INPUT_ENABLE_TOUCH"@, bool_text(self.input.enable_touch)),
            ("INPUT_ENABLE_CLIPBOARD"@, bool_text(self.input.enable_clipboard)),
            ("INPUT_ENABLE_FILE_TRANSFER"@, bool_text(self.input.enable_file_transfer)),
            ("INPUT_MOUSE_SENSITIVITY"@, thousandths_text(self.input.mouse_sensitivity)),
            ("INPUT_KEYBOARD_REPEAT_DELAY"@, decimal(self.input.keyboard_repeat_delay as nat)),
        ]
    }

    /// The variables of the transport section.
    pub open spec fn transport_vars(self) -> Seq<EnvVar> {
        seq![
            ("TRANSPORT_WEBRTC_ENABLED"@, bool_text(self.transport.webrtc_enabled)),
            ("TRANSPORT_WEBSOCKET_ENABLED"@, bool_text(self.transport.websocket_enabled)),
            ("TRANSPORT_MAX_BITRATE"@, decimal(self.transport.max_bitrate as nat)),
            ("TRANSPORT_ENABLE_COMPRESSION"@, bool_text(self.transport.enable_compression)),
        ]
    }

    /// The variables of the security section.
    pub open spec fn security_vars(self) -> Seq<EnvVar> {
        seq![
            ("SECURITY_ENABLE_ENCRYPTION"@, bool_text(self.security.enable_encryption)),
            ("SECURITY_ENABLE_AUDIT_LOGGING"@, bool_text(self.security.enable_audit_logging)),
            ("SECURITY_RATE_LIMIT_REQUESTS"@, decimal(self.security.rate_limit_requests as nat)),
            ("SECURITY_RATE_LIMIT_WINDOW"@, decimal(self.security.rate_limit_window as nat)),
        ]
    }

    /// The variables of the logging section.
    pub open spec fn logging_vars(self) -> Seq<EnvVar> {
        seq![
            ("LOGGING_LEVEL"@, self.logging.level@),
        ]
            + optional_var("LOGGING_FILE"@, text_of(self.logging.file))
            + seq![
            ("LOGGING_MAX_FILE_SIZE"@, decimal(self.logging.max_file_size as nat)),
            ("LOGGING_MAX_FILES"@, decimal(self.logging.max_files as nat)),
            ("LOGGING_ENABLE_CONSOLE"@, bool_text(self.logging.enable_console)),
        ]
    }

    /// The configuration as environment variables, section by section in
    /// a fixed order. A token or a log file that is not set has no
    /// variable.
    pub open spec fn env_vars(self) -> Seq<EnvVar> {
        self.server_vars() + self.auth_vars() + self.capture_vars() + self.input_vars()
            + self.transport_vars() + self.security_vars() + self.logging_vars()
    }

    /// Appends the variables of the server section.
    fn push_server_vars(&self, vars: &mut Vec<(String, String)>)
        ensures
            env_view(final(vars)@) == env_view(old(vars)@) + self.server_vars(),
    {
        push_var(vars, "SERVER_HOST", self.server.host.clone());
        push_var(vars, "SERVER_PORT", decimal_string(self.server.port as u64));
        push_var(vars, "SERVER_MAX_CONNECTIONS", decimal_string(self.server.max_connections as u64));
        push_var(vars, "SERVER_CONNECTION_TIMEOUT", decimal_string(self.server.connection_timeout));
        push_var(vars, "SERVER_HEARTBEAT_INTERVAL", decimal_string(self.server.heartbeat_interval));
        assert(env_view(vars@) =~= env_view(old(vars)@) + self.server_vars());
    }

    /// Appends the variables of the authentication section.
    fn push_auth_vars(&self, vars: &mut Vec<(String, String)>)
        ensures
            env_view(final(vars)@) == env_view(old(vars)@) + self.auth_vars(),
    {
        match &self.auth.token {
            Some(value) => {
                push_var(vars, "AUTH_TOKEN", value.clone());
            },
            None => {},
        }
        push_var(vars, "AUTH_REQUIRE_AUTH", bool_string(self.auth.require_auth));
        push_var(vars, "AUTH_SESSION_TIMEOUT", decimal_string(self.auth.session_timeout));
        push_var(vars, "AUTH_MAX_FAILED_ATTEMPTS", decimal_string(self.auth.max_failed_attempts as u64));
        assert(env_view(vars@) =~= env_view(old(vars)@) + self.auth_vars());
    }

    /// Appends the variables of the capture section.
    fn push_capture_vars(&self, vars: &mut Vec<(String, String)>)
        ensures
            env_view(final(vars)@) == env_view(old(vars)@) + self.capture_vars(),
    {
        push_var(vars, "CAPTURE_VIDEO", bool_string(self.capture.video));
        push_var(vars, "CAPTURE_AUDIO", bool_string(self.capture.audio));
        push_var(vars, "CAPTURE_QUALITY", self.capture.quality.to_string());
        push_var(vars, "CAPTURE_FRAMERATE", decimal_string(self.capture.framerate as u64));
        push_var(vars, "CAPTURE_CODEC", self.capture.codec.to_string());
        push_var(vars, "CAPTURE_HARDWARE_ACCELERATION", bool_string(self.capture.hardware_acceleration));
        push_var(vars, "CAPTURE_MULTI_MONITOR", bool_string(self.capture.multi_monitor));
        push_var(vars, "CAPTURE_CURSOR", bool_string(self.capture.capture_cursor));
        assert(env_view(vars@) =~= env_view(old(vars)@) + self.capture_vars());
    }

    /// Appends the variables of the input section.
    fn push_input_vars(&self, vars: &mut Vec<(String, String)>)
        ensures
            env_view(final(vars)@) == env_view(old(vars)@) + self.input_vars(),
    {
        push_var(vars, "INPUT_ENABLE_MOUSE", bool_string(self.input.enable_mouse));
        push_var(vars, "INPUT_ENABLE_KEYBOARD", bool_string(self.input.enable_keyboard));
        push_var(vars, "INPUT_ENABLE_TOUCH", bool_string(self.input.enable_touch));
        push_var(vars, "INPUT_ENABLE_CLIPBOARD", bool_string(self.input.enable_clipboard));
        push_var(vars, "INPUT_ENABLE_FILE_TRANSFER", bool_string(self.input.enable_file_transfer));
        push_var(vars, "INPUT_MOUSE_SENSITIVITY", thousandths_string(self.input.mouse_sensitivity));
        push_var(vars, "INPUT_KEYBOARD_REPEAT_DELAY", decimal_string(self.input.keyboard_repeat_delay as u64));
        assert(env_view(vars@) =~= env_view(old(vars)@) + self.input_vars());
    }

    /// Appends the variables of the transport section.
    fn push_transport_vars(&self, vars: &mut Vec<(String, String)>)
        ensures
            env_view(final(vars)@) == env_view(old(vars)@) + self.transport_vars(),
    {
        push_var(vars, "TRANSPORT_WEBRTC_ENABLED", bool_string(self.transport.webrtc_enabled));
        push_var(vars, "TRANSPORT_WEBSOCKET_ENABLED", bool_string(self.transport.websocket_enabled));
        push_var(vars, "TRANSPORT_MAX_BITRATE", decimal_string(self.transport.max_bitrate as u64));
        push_var(vars, "TRANSPORT_ENABLE_COMPRESSION", bool_string(self.transport.enable_compression));
        assert(env_view(vars@) =~= env_view(old(vars)@) + self.transport_vars());
    }

    /// Appends the variables of the security section.
    fn push_security_vars(&self, vars: &mut Vec<(String, String)>)
        ensures
            env_view(final(vars)@) == env_view(old(vars)@) + self.security_vars(),
    {
        push_var(vars, "SECURITY_ENABLE_ENCRYPTION", bool_string(self.security.enable_encryption));
        push_var(vars, "SECURITY_ENABLE_AUDIT_LOGGING", bool_string(self.security.enable_audit_logging));
        push_var(vars, "SECURITY_RATE_LIMIT_REQUESTS", decimal_string(self.security.rate_limit_requests as u64));
        push_var(vars, "SECURITY_RATE_LIMIT_WINDOW", decimal_string(self.security.rate_limit_window));
        assert(env_view(vars@) =~= env_view(old(vars)@) + self.security_vars());
    }

    /// Appends the variables of the logging section.
    fn push_logging_vars(&self, vars: &mut Vec<(String, String)>)
        ensures
            env_view(final(vars)@) == env_view(old(vars)@) + self.logging_vars(),
    {
        push_var(vars, "LOGGING_LEVEL", self.logging.level.clone());
        match &self.logging.file {
            Some(value) => {
                push_var(vars, "LOGGING_FILE", value.clone());
            },
            None => {},
        }
        push_var(vars, "LOGGING_MAX_FILE_SIZE", decimal_string(self.logging.max_file_size));
        push_var(vars, "LOGGING_MAX_FILES", decimal_string(self.logging.max_files as u64));
        push_var(vars, "LOGGING_ENABLE_CONSOLE", bool_string(self.logging.enable_console));
        assert(env_view(vars@) =~= env_view(old(vars)@) + self.logging_vars());
    }

    /// Checks the configuration against its rules and reports the first
    /// one that is broken.
    pub fn validate(&self) -> (r: AgentResult<()>)
        ensures
            match self.first_fault() {
                None => r is Ok,
                Some(fault) => r is Err && r->Err_0.kind() == ErrorKind::Config && r->Err_0.text()
                    == fault,
            },
    {
        if self.server.port == 0 {
            return Err(AgentError::Config(String::from_str("Port cannot be 0")));
        }
        if self.server.max_connections == 0 {
            return Err(AgentError::Config(String::from_str("Max connections cannot be 0")));
        }
        if self.auth.require_auth && self.auth.token.is_none() {
            return Err(
                AgentError::Config(String::from_str("Token required when authentication is enabled")),
            );
        }
        if self.auth.session_timeout == 0 {
            return Err(AgentError::Config(String::from_str("Session timeout cannot be 0")));
        }
        if self.capture.framerate == 0 {
            return Err(AgentError::Config(String::from_str("Framerate cannot be 0")));
        }
        if self.capture.framerate > 120 {
            return Err(AgentError::Config(String::from_str("Framerate cannot exceed 120")));
        }
        if self.input.mouse_sensitivity == 0 {
            return Err(AgentError::Config(String::from_str("Mouse sensitivity must be positive")));
        }
        if self.input.keyboard_repeat_delay == 0 {
            return Err(AgentError::Config(String::from_str("Keyboard repeat delay cannot be 0")));
        }
        if !self.transport.webrtc_enabled && !self.transport.websocket_enabled {
            return Err(AgentError::Config(String::from_str("At least one transport must be enabled")));
        }
        if self.transport.max_bitrate == 0 {
            return Err(AgentError::Config(String::from_str("Max bitrate cannot be 0")));
        }
        if self.security.rate_limit_requests == 0 {
            return Err(AgentError::Config(String::from_str("Rate limit requests cannot be 0")));
        }
        if self.security.rate_limit_window == 0 {
            return Err(AgentError::Config(String::from_str("Rate limit window cannot be 0")));
        }
        if self.logging.max_file_size == 0 {
            return Err(AgentError::Config(String::from_str("Max file size cannot be 0")));
        }
        if self.logging.max_files == 0 {
            return Err(AgentError::Config(String::from_str("Max files cannot be 0")));
        }
        Ok(())
    }

    /// Renders the configuration as environment variables.
    pub fn as_env_vars(&self) -> (r: Vec<(String, String)>)
        ensures
            env_view(r@) == self.env_vars(),
    {
        let mut vars: Vec<(String, String)> = Vec::new();
        assert(env_view(vars@) =~= Seq::<EnvVar>::empty());
        self.push_server_vars(&mut vars);
        self.push_auth_vars(&mut vars);
        self.push_capture_vars(&mut vars);
        self.push_input_vars(&mut vars);
        self.push_transport_vars(&mut vars);
        self.push_security_vars(&mut vars);
        self.push_logging_vars(&mut vars);
        assert(env_view(vars@) =~= self.env_vars());
        vars
    }
}

impl Default for Config {
    /// The default configuration. Authentication is off until a token is
    /// configured, so that the defaults meet every rule of `validate`.
    fn default() -> (r: Self)
        ensures
            r.is_default(),
            r.first_fault() is None,
    {
        Config {
            server: ServerConfig {
                host: String::from_str("0.0.0.0"),
                port: 8080,
                max_connections: 10,
                connection_timeout: 30000,
                heartbeat_interval: 30000,
            },
            auth: AuthConfig {
                token: None,
                require_auth: false,
                session_timeout: 3600000,
                max_failed_attempts: 3,
            },
            capture: CaptureConfig::default(),
            input: InputConfig::default(),
            transport: TransportConfig::default(),
            security: SecurityConfig {
                enable_encryption: true,
                enable_audit_logging: true,
                allowed_ips: Vec::new(),
                rate_limit_requests: 100,
                rate_limit_window: 60000,
            },
            logging: LoggingConfig {
                level: String::from_str("info"),
                file: None,
                max_file_size: 10 * 1024 * 1024,
                max_files: 5,
                enable_console: true,
            },
        }
    }
}

} // verus!
