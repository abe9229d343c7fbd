//! The data that moves through the agent: quality levels, codecs, frames,
//! input events, sessions, protocol messages and status snapshots.
//!
//! Quantities that are fractional on the wire are held here as integers in
//! a fixed unit, named in each field's comment.

use vstd::prelude::*;
use vstd::string::*;
use crate::text::{join2, lowercase_of, same_text, to_lowercase};

verus! {

/// Quality levels for video encoding, from the cheapest to the most
/// demanding.
#[derive(Debug, Clone, Copy, PartialEq, Eq, Structural)]
pub enum Quality {
    Low,
    Medium,
    High,
    Ultra,
}

impl Quality {
    /// Position in the order `Low < Medium < High < Ultra`.
    pub open spec fn rank(self) -> nat {
        match self {
            Quality::Low => 0,
            Quality::Medium => 1,
            Quality::High => 2,
            Quality::Ultra => 3,
        }
    }

    /// The lower-case name of the level.
    pub open spec fn name(self) -> Seq<char> {
        match self {
            Quality::Low => "low"@,
            Quality::Medium => "medium"@,
            Quality::High => "high"@,
            Quality::Ultra => "ultra"@,
        }
    }

    /// The level that a lower-case name denotes, if any.
    pub open spec fn from_lowercase(lower: Seq<char>) -> Option<Quality> {
        if lower == "low"@ {
            Some(Quality::Low)
        } else if lower == "medium"@ {
            Some(Quality::Medium)
        } else if lower == "high"@ {
            Some(Quality::High)
        } else if lower == "ultra"@ {
            Some(Quality::Ultra)
        } else {
            None
        }
    }

    /// What parsing `s` gives, when `lower` is the lower-case form of `s`.
    pub open spec fn parse_outcome(s: Seq<char>, lower: Seq<char>, r: Result<Quality, String>) -> bool {
        match Self::from_lowercase(lower) {
            Some(q) => r == Ok::<Quality, String>(q),
            None => r is Err && r->Err_0@ == "Unknown quality level: "@ + s,
        }
    }

    /// Position in the order, as a number.
    pub fn index(&self) -> (r: u8)
        ensures
            r as nat == self.rank(),
    {
        match self {
            Quality::Low => 0,
            Quality::Medium => 1,
            Quality::High => 2,
            Quality::Ultra => 3,
        }
    }

    /// Reads a level from its lower-case name.
    pub fn parse_lowercase(lower: &str) -> (r: Option<Quality>)
        ensures
            r == Self::from_lowercase(lower@),
    {
        if same_text(lower, "low") {
            Some(Quality::Low)
        } else if same_text(lower, "medium") {
            Some(Quality::Medium)
        } else if same_text(lower, "high") {
            Some(Quality::High)
        } else if same_text(lower, "ultra") {
            Some(Quality::Ultra)
        } else {
            None
        }
    }

    /// Reads a level from its name, ignoring letter case. An unknown name
    /// gives an error text that quotes the input.
    pub fn parse(s: &str) -> (r: Result<Quality, String>)
        ensures
            Self::parse_outcome(s@, lowercase_of(s@), r),
    {
        let lower = to_lowercase(s);
        match Self::parse_lowercase(lower.as_str()) {
            Some(q) => Ok(q),
            None => Err(join2("Unknown quality level: ", s)),
        }
    }

    /// The lower-case name of the level.
    pub fn to_string(&self) -> (r: String)
        ensures
            r@ == self.name(),
    {
        match self {
            Quality::Low => String::from_str("low"),
            Quality::Medium => String::from_str("medium"),
            Quality::High => String::from_str("high"),
            Quality::Ultra => String::from_str("ultra"),
        }
    }
}

impl std::str::FromStr for Quality {
    type Err = String;

    fn from_str(s: &str) -> (r: Result<Self, Self::Err>)
        ensures
            Quality::parse_outcome(s@, lowercase_of(s@), r),
    {
        Quality::parse(s)
    }
}

/// Video codec types.
#[derive(Debug, Clone, Copy, PartialEq, Eq, Structural)]
pub enum VideoCodec {
    H264,
    VP8,
    VP9,
    AV1,
}

impl VideoCodec {
    /// The codec's name as written in upper case.
    pub open spec fn name(self) -> Seq<char> {
        match self {
            VideoCodec::H264 => "H264"@,
            VideoCodec::VP8 => "VP8"@,
            VideoCodec::VP9 => "VP9"@,
            VideoCodec::AV1 => "AV1"@,
        }
    }

    /// The codec that a lower-case name denotes, if any.
    pub open spec fn from_lowercase(lower: Seq<char>) -> Option<VideoCodec> {
        if lower == "h264"@ || lower == "h.264"@ {
            Some(VideoCodec::H264)
        } else if lower == "vp8"@ {
            Some(VideoCodec::VP8)
        } else if lower == "vp9"@ {
            Some(VideoCodec::VP9)
        } else if lower == "av1"@ {
            Some(VideoCodec::AV1)
        } else {
            None
        }
    }

    /// What parsing `s` gives, when `lower` is the lower-case form of `s`.
    pub open spec fn parse_outcome(s: Seq<char>, lower: Seq<char>, r: Result<VideoCodec, String>) -> bool {
        match Self::from_lowercase(lower) {
            Some(c) => r == Ok::<VideoCodec, String>(c),
            None => r is Err && r->Err_0@ == "Unknown video codec: "@ + s,
        }
    }

    /// Reads a codec from its lower-case name.
    pub fn parse_lowercase(lower: &str) -> (r: Option<VideoCodec>)
        ensures
            r == Self::from_lowercase(lower@),
    {
        if same_text(lower, "h264") || same_text(lower, "h.264") {
            Some(VideoCodec::H264)
        } else if same_text(lower, "vp8") {
            Some(VideoCodec::VP8)
        } else if same_text(lower, "vp9") {
            Some(VideoCodec::VP9)
        } else if same_text(lower, "av1") {
            Some(VideoCodec::AV1)
        } else {
            None
        }
    }

    /// Reads a codec from its name, ignoring letter case. An unknown name
    /// gives an error text that quotes the input.
    pub fn parse(s: &str) -> (r: Result<VideoCodec, String>)
        ensures
            Self::parse_outcome(s@, lowercase_of(s@), r),
    {
        let lower = to_lowercase(s);
        match Self::parse_lowercase(lower.as_str()) {
            Some(c) => Ok(c),
            None => Err(join2("Unknown video codec: ", s)),
        }
    }

    /// The codec's name as written in upper case.
    pub fn to_string(&self) -> (r: String)
        ensures
            r@ == self.name(),
    {
        match self {
            VideoCodec::H264 => String::from_str("H264"),
            VideoCodec::VP8 => String::from_str("VP8"),
            VideoCodec::VP9 => String::from_str("VP9"),
            VideoCodec::AV1 => String::from_str("AV1"),
        }
    }
}

impl std::str::FromStr for VideoCodec {
    type Err = String;

    fn from_str(s: &str) -> (r: Result<Self, Self::Err>)
        ensures
            VideoCodec::parse_outcome(s@, lowercase_of(s@), r),
    {
        VideoCodec::parse(s)
    }
}

/// Audio codec types.
#[derive(Debug, Clone, Copy, PartialEq, Eq, Structural)]
pub enum AudioCodec {
    Opus,
    AAC,
    PCM,
}

/// Pixel layouts a capture backend can deliver.
#[derive(Debug, Clone, Copy, PartialEq, Eq, Structural)]
pub enum PixelFormat {
    /// Four bytes per pixel: red, green, blue, alpha.
    Rgba,
    /// Four bytes per pixel: blue, green, red, alpha.
    Bgra,
}

/// One captured image, as a capture backend hands it over.
#[derive(Debug)]
pub struct RawFrame {
    pub width: u32,
    pub height: u32,
    pub pixel_format: PixelFormat,
    pub data: Vec<u8>,
    pub display_id: u32,
    /// Milliseconds since the Unix epoch.
    pub capture_timestamp: u64,
}

/// One encoded image.
#[derive(Debug)]
pub struct Frame {
    /// The frame's 128-bit identifier.
    pub id: u128,
    /// Milliseconds since the Unix epoch.
    pub timestamp: u64,
    pub width: u32,
    pub height: u32,
    pub data: Vec<u8>,
    pub format: VideoCodec,
    pub quality: Quality,
    pub compressed: bool,
}

impl Clone for Frame {
    fn clone(&self) -> (r: Self)
        ensures
            r.id == self.id,
            r.timestamp == self.timestamp,
            r.width == self.width,
            r.height == self.height,
            r.data@ == self.data@,
            r.format == self.format,
            r.quality == self.quality,
            r.compressed == self.compressed,
    {
        Frame {
            id: self.id,
            timestamp: self.timestamp,
            width: self.width,
            height: self.height,
            data: self.data.clone(),
            format: self.format,
            quality: self.quality,
            compressed: self.compressed,
        }
    }
}

/// Keyboard modifiers.
#[derive(Debug, Clone, Copy, PartialEq, Eq, Structural)]
pub struct Modifiers {
    pub ctrl: bool,
    pub alt: bool,
    pub shift: bool,
    pub meta: bool,
}

impl Default for Modifiers {
    fn default() -> (r: Self)
        ensures
            r == (Modifiers { ctrl: false, alt: false, shift: false, meta: false }),
    {
        Modifiers { ctrl: false, alt: false, shift: false, meta: false }
    }
}

#[derive(Debug, Clone, Copy, PartialEq, Eq, Structural)]
pub enum MouseAction {
    MouseDown,
    MouseUp,
    MouseMove,
    Click,
    DoubleClick,
    ContextMenu,
}

/// Mouse event data. Positions and movements are fractions of the screen
/// in units of 1/65535.
#[derive(Debug, Clone, Copy)]
pub struct MouseEvent {
    pub action: MouseAction,
    pub button: u8,
    pub x: i32,
    pub y: i32,
    pub delta_x: i32,
    pub delta_y: i32,
    pub modifiers: Modifiers,
}

#[derive(Debug, Clone, Copy, PartialEq, Eq, Structural)]
pub enum KeyboardAction {
    KeyDown,
    KeyUp,
    KeyPress,
}

/// Keyboard event data.
#[derive(Debug, Clone)]
pub struct KeyboardEvent {
    pub action: KeyboardAction,
    pub key: String,
    pub key_code: u32,
    pub code: String,
    pub modifiers: Modifiers,
    pub repeat: bool,
}

#[derive(Debug, Clone, Copy, PartialEq, Eq, Structural)]
pub enum TouchAction {
    TouchStart,
    TouchEnd,
    TouchMove,
}

/// One contact point. Position and pressure are fractions in units of
/// 1/65535.
#[derive(Debug, Clone, Copy)]
pub struct TouchPoint {
    pub id: u32,
    pub x: i32,
    pub y: i32,
    pub pressure: i32,
}

/// Touch event data.
#[derive(Debug, Clone)]
pub struct TouchEvent {
    pub action: TouchAction,
    pub touches: Vec<TouchPoint>,
    pub changed_touches: Vec<TouchPoint>,
}

/// Wheel event data. Deltas are in units of 1/120 of a notch; positions
/// are fractions of the screen in units of 1/65535.
#[derive(Debug, Clone, Copy)]
pub struct WheelEvent {
    pub delta_x: i32,
    pub delta_y: i32,
    pub delta_z: i32,
    pub delta_mode: u32,
    pub x: i32,
    pub y: i32,
    pub modifiers: Modifiers,
}

/// Input event types.
#[derive(Debug, Clone)]
pub enum InputEvent {
    Mouse(MouseEvent),
    Keyboard(KeyboardEvent),
    Touch(TouchEvent),
    Wheel(WheelEvent),
}

#[derive(Debug, Clone, Copy, PartialEq, Eq, Structural)]
pub enum ClipboardFormat {
    Text,
    Html,
    Image,
}

/// Clipboard data.
#[derive(Debug, Clone)]
pub struct ClipboardData {
    pub format: ClipboardFormat,
    pub content: String,
    pub encoding: String,
}

#[derive(Debug, Clone, Copy, PartialEq, Eq, Structural)]
pub enum TransferDirection {
    Upload,
    Download,
}

#[derive(Debug, Clone)]
pub struct FileChunk {
    pub index: u32,
    pub total: u32,
    pub data: Vec<u8>,
    pub checksum: String,
}

/// File transfer data.
#[derive(Debug, Clone)]
pub struct FileTransfer {
    /// The transfer's 128-bit identifier.
    pub file_id: u128,
    pub filename: String,
    pub size: u64,
    pub checksum: String,
    pub direction: TransferDirection,
    pub chunks: Vec<FileChunk>,
}

/// Performance metrics. `fps` is in thousandths of a frame per second,
/// `packet_loss` and `cpu_usage` in thousandths of a percent, `jitter`
/// in thousandths of a millisecond.
#[derive(Debug, Clone, Copy, PartialEq, Eq, Structural)]
pub struct Metrics {
    pub fps: u32,
    pub latency: u32,
    pub bitrate: u32,
    pub packet_loss: u32,
    pub jitter: u32,
    pub frame_drops: u32,
    pub bytes_received: u64,
    pub bytes_sent: u64,
    pub cpu_usage: u32,
    pub memory_usage: u64,
}

impl Metrics {
    /// The snapshot with every counter at zero.
    pub open spec fn zero() -> Metrics {
        Metrics {
            fps: 0,
            latency: 0,
            bitrate: 0,
            packet_loss: 0,
            jitter: 0,
            frame_drops: 0,
            bytes_received: 0,
            bytes_sent: 0,
            cpu_usage: 0,
            memory_usage: 0,
        }
    }
}

impl Default for Metrics {
    fn default() -> (r: Self)
        ensures
            r == Metrics::zero(),
    {
        Metrics {
            fps: 0,
            latency: 0,
            bitrate: 0,
            packet_loss: 0,
            jitter: 0,
            frame_drops: 0,
            bytes_received: 0,
            bytes_sent: 0,
            cpu_usage: 0,
            memory_usage: 0,
        }
    }
}

/// What a client says it can handle.
#[derive(Debug, Clone, Copy, PartialEq, Eq, Structural)]
pub struct ClientCapabilities {
    pub video: bool,
    pub audio: bool,
    pub clipboard: bool,
    pub file_transfer: bool,
    pub touch: bool,
    pub multi_monitor: bool,
}

impl Default for ClientCapabilities {
    fn default() -> (r: Self)
        ensures
            r == (ClientCapabilities {
                video: false,
                audio: false,
                clipboard: false,
                file_transfer: false,
                touch: false,
                multi_monitor: false,
            }),
    {
        ClientCapabilities {
            video: false,
            audio: false,
            clipboard: false,
            file_transfer: false,
            touch: false,
            multi_monitor: false,
        }
    }
}

/// Per-session counters.
#[derive(Debug, Clone, Copy, PartialEq, Eq, Structural)]
pub struct SessionStats {
    pub frames_sent: u64,
    pub frames_dropped: u64,
    pub bytes_sent: u64,
    pub bytes_received: u64,
    pub connection_time: u64,
    pub reconnections: u32,
}

impl SessionStats {
    /// The counters of a session that has done nothing yet.
    pub open spec fn zero() -> SessionStats {
        SessionStats {
            frames_sent: 0,
            frames_dropped: 0,
            bytes_sent: 0,
            bytes_received: 0,
            connection_time: 0,
            reconnections: 0,
        }
    }
}

impl Default for SessionStats {
    fn default() -> (r: Self)
        ensures
            r == SessionStats::zero(),
    {
        SessionStats {
            frames_sent: 0,
            frames_dropped: 0,
            bytes_sent: 0,
            bytes_received: 0,
            connection_time: 0,
            reconnections: 0,
        }
    }
}

/// Session information. `id` is the session's identifier in its
/// hyphenated text form; the two times are seconds since the Unix epoch.
#[derive(Debug)]
pub struct Session {
    pub id: String,
    pub client_id: String,
    pub start_time: u64,
    pub last_activity: u64,
    pub quality: Quality,
    pub capabilities: ClientCapabilities,
    pub stats: SessionStats,
}

impl Clone for Session {
    fn clone(&self) -> (r: Self)
        ensures
            r == *self,
    {
        Session {
            id: self.id.clone(),
            client_id: self.client_id.clone(),
            start_time: self.start_time,
            last_activity: self.last_activity,
            quality: self.quality,
            capabilities: self.capabilities,
            stats: self.stats,
        }
    }
}

/// Protocol message. `message_type` is the `type` member of the wire form;
/// `data` holds the payload as JSON text.
#[derive(Debug)]
pub struct Message {
    pub message_type: String,
    pub channel: String,
    pub data: String,
    pub timestamp: u64,
    pub sequence: Option<u32>,
    pub version: String,
}

impl Clone for Message {
    fn clone(&self) -> (r: Self)
        ensures
            r == *self,
    {
        Message {
            message_type: self.message_type.clone(),
            channel: self.channel.clone(),
            data: self.data.clone(),
            timestamp: self.timestamp,
            sequence: self.sequence,
            version: self.version.clone(),
        }
    }
}

/// Connection state.
#[derive(Debug, Clone, Copy, PartialEq, Eq, Structural)]
pub enum ConnectionState {
    Disconnected,
    Connecting,
    Connected,
    Reconnecting,
    Failed,
}

impl ConnectionState {
    /// Whether a connection in state `self` may move to `next`.
    ///
    /// A connection starts `Disconnected`, becomes `Connecting`, and from
    /// there either `Connected` or, if the handshake fails, `Failed`. A
    /// `Connected` one may start `Reconnecting`, which ends `Connected`
    /// again or `Failed`. `Connected` and `Failed` connections end
    /// `Disconnected`; nothing leaves `Failed` in any other way.
    pub open spec fn allows(self, next: ConnectionState) -> bool {
        match (self, next) {
            (ConnectionState::Disconnected, ConnectionState::Connecting) => true,
            (ConnectionState::Connecting, ConnectionState::Connected) => true,
            (ConnectionState::Connecting, ConnectionState::Failed) => true,
            (ConnectionState::Connected, ConnectionState::Reconnecting) => true,
            (ConnectionState::Connected, ConnectionState::Disconnected) => true,
            (ConnectionState::Reconnecting, ConnectionState::Connected) => true,
            (ConnectionState::Reconnecting, ConnectionState::Failed) => true,
            (ConnectionState::Failed, ConnectionState::Disconnected) => true,
            _ => false,
        }
    }

    /// Whether a connection in state `self` may move to `next`.
    pub fn can_transition_to(&self, next: ConnectionState) -> (r: bool)
        ensures
            r == self.allows(next),
    {
        match (*self, next) {
            (ConnectionState::Disconnected, ConnectionState::Connecting) => true,
            (ConnectionState::Connecting, ConnectionState::Connected) => true,
            (ConnectionState::Connecting, ConnectionState::Failed) => true,
            (ConnectionState::Connected, ConnectionState::Reconnecting) => true,
            (ConnectionState::Connected, ConnectionState::Disconnected) => true,
            (ConnectionState::Reconnecting, ConnectionState::Connected) => true,
            (ConnectionState::Reconnecting, ConnectionState::Failed) => true,
            (ConnectionState::Failed, ConnectionState::Disconnected) => true,
            _ => false,
        }
    }
}

/// Transport type.
#[derive(Debug, Clone, Copy, PartialEq, Eq, Structural)]
pub enum TransportType {
    WebRTC,
    WebSocket,
}

/// Display information: a snapshot of one display, replaced as a whole
/// on each discovery pass.
#[derive(Debug)]
pub struct Display {
    pub id: u32,
    pub name: String,
    pub width: u32,
    pub height: u32,
    /// Position of the display's top-left corner on the desktop.
    pub x: i32,
    pub y: i32,
    pub is_primary: bool,
    pub refresh_rate: u32,
}

impl Clone for Display {
    fn clone(&self) -> (r: Self)
        ensures
            r == *self,
    {
        Display {
            id: self.id,
            name: self.name.clone(),
            width: self.width,
            height: self.height,
            x: self.x,
            y: self.y,
            is_primary: self.is_primary,
            refresh_rate: self.refresh_rate,
        }
    }
}

/// System information.
#[derive(Debug)]
pub struct SystemInfo {
    pub os: String,
    pub version: String,
    pub architecture: String,
    pub cpu_cores: u32,
    pub memory_total: u64,
    pub memory_available: u64,
    pub displays: Vec<Display>,
}

impl SystemInfo {
    /// Whether two descriptions say the same of the machine.
    pub open spec fn same_as(&self, other: &Self) -> bool {
        &&& self.os@ == other.os@
        &&& self.version@ == other.version@
        &&& self.architecture@ == other.architecture@
        &&& self.cpu_cores == other.cpu_cores
        &&& self.memory_total == other.memory_total
        &&& self.memory_available == other.memory_available
        &&& self.displays@ == other.displays@
    }
}

impl Clone for SystemInfo {
    fn clone(&self) -> (r: Self)
        ensures
            r.same_as(self),
    {
        let displays = self.displays.clone();
        assert(displays@ =~= self.displays@);
        SystemInfo {
            os: self.os.clone(),
            version: self.version.clone(),
            architecture: self.architecture.clone(),
            cpu_cores: self.cpu_cores,
            memory_total: self.memory_total,
            memory_available: self.memory_available,
            displays,
        }
    }
}

/// Agent status.
#[derive(Debug, Clone)]
pub struct AgentStatus {
    pub version: String,
    /// Seconds since the agent was created.
    pub uptime: u64,
    pub sessions: u32,
    pub system_info: SystemInfo,
    pub metrics: Metrics,
}

} // verus!
