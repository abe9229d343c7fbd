//! The agent's error type: one variant per kind of failure, each with a
//! human-readable message.

use vstd::prelude::*;
use vstd::string::*;
use crate::text::join2;

verus! {

/// The kinds of failure, without their messages.
#[derive(Debug, Clone, Copy, PartialEq, Eq, Structural)]
pub enum ErrorKind {
    Config,
    Capture,
    Input,
    Transport,
    WebSocket,
    Auth,
    VideoEncoding,
    EncoderError,
    AudioCapture,
    System,
    Network,
    Security,
    Io,
    Serialization,
    Url,
    Other,
    Uuid,
    SystemTime,
    OpenH264,
    WebRTC,
    EncoderNotInitialized,
}

impl ErrorKind {
    /// The words that introduce a failure of this kind.
    pub open spec fn prefix(self) -> Seq<char> {
        match self {
            ErrorKind::Config => "Configuration error: "@,
            ErrorKind::Capture => "Screen capture error: "@,
            ErrorKind::Input => "Input injection error: "@,
            ErrorKind::Transport => "Transport error: "@,
            ErrorKind::WebSocket => "WebSocket error: "@,
            ErrorKind::Auth => "Authentication error: "@,
            ErrorKind::VideoEncoding => "Video encoding error: "@,
            ErrorKind::EncoderError => "Encoder error: "@,
            ErrorKind::AudioCapture => "Audio capture error: "@,
            ErrorKind::System => "System error: "@,
            ErrorKind::Network => "Network error: "@,
            ErrorKind::Security => "Security error: "@,
            ErrorKind::Io => "IO error: "@,
            ErrorKind::Serialization => "Serialization error: "@,
            ErrorKind::Url => "URL parsing error: "@,
            ErrorKind::Other => "Other error: "@,
            ErrorKind::Uuid => "UUID error: "@,
            ErrorKind::SystemTime => "System time error: "@,
            ErrorKind::OpenH264 => "OpenH264 error: "@,
            ErrorKind::WebRTC => "WebRTC error: "@,
            ErrorKind::EncoderNotInitialized => "Encoder not initialized"@,
        }
    }

    /// Whether a failure of this kind carries a message of the agent's
    /// own, to which context can be added.
    pub open spec fn takes_context(self) -> bool {
        match self {
            ErrorKind::Config => true,
            ErrorKind::Capture => true,
            ErrorKind::Input => true,
            ErrorKind::Transport => true,
            ErrorKind::WebSocket => true,
            ErrorKind::Auth => true,
            ErrorKind::VideoEncoding => true,
            ErrorKind::EncoderError => true,
            ErrorKind::AudioCapture => true,
            ErrorKind::System => true,
            ErrorKind::Network => true,
            ErrorKind::Security => true,
            ErrorKind::Io => false,
            ErrorKind::Serialization => false,
            ErrorKind::Url => false,
            ErrorKind::Other => true,
            ErrorKind::Uuid => false,
            ErrorKind::SystemTime => false,
            ErrorKind::OpenH264 => false,
            ErrorKind::WebRTC => false,
            ErrorKind::EncoderNotInitialized => false,
        }
    }

    /// Failures that are logged and retried or skipped.
    pub open spec fn recoverable(self) -> bool {
        match self {
            ErrorKind::Network
            | ErrorKind::Transport
            | ErrorKind::WebSocket
            | ErrorKind::Capture
            | ErrorKind::VideoEncoding
            | ErrorKind::EncoderError
            | ErrorKind::EncoderNotInitialized => true,
            _ => false,
        }
    }

    /// Failures on which the agent refuses to start or rejects a client.
    pub open spec fn critical(self) -> bool {
        match self {
            ErrorKind::Config | ErrorKind::Auth | ErrorKind::Security => true,
            _ => false,
        }
    }
}

/// A failure of the agent.
#[derive(Debug)]
pub enum AgentError {
    Config(String),
    Capture(String),
    Input(String),
    Transport(String),
    WebSocket(String),
    Auth(String),
    VideoEncoding(String),
    EncoderError(String),
    AudioCapture(String),
    System(String),
    Network(String),
    Security(String),
    /// The text of an input/output failure.
    Io(String),
    /// The text of a JSON serialization failure.
    Serialization(String),
    /// The text of a URL parsing failure.
    Url(String),
    Other(String),
    /// The text of an identifier parsing failure.
    Uuid(String),
    /// The text of a clock failure.
    SystemTime(String),
    /// The text of a codec failure.
    OpenH264(String),
    /// The text of a peer-connection failure.
    WebRTC(String),
    EncoderNotInitialized,
}

pub type AgentResult<T> = Result<T, AgentError>;

impl AgentError {
    /// The kind of this failure.
    pub open spec fn kind(self) -> ErrorKind {
        match self {
            AgentError::Config(_) => ErrorKind::Config,
            AgentError::Capture(_) => ErrorKind::Capture,
            AgentError::Input(_) => ErrorKind::Input,
            AgentError::Transport(_) => ErrorKind::Transport,
            AgentError::WebSocket(_) => ErrorKind::WebSocket,
            AgentError::Auth(_) => ErrorKind::Auth,
            AgentError::VideoEncoding(_) => ErrorKind::VideoEncoding,
            AgentError::EncoderError(_) => ErrorKind::EncoderError,
            AgentError::AudioCapture(_) => ErrorKind::AudioCapture,
            AgentError::System(_) => ErrorKind::System,
            AgentError::Network(_) => ErrorKind::Network,
            AgentError::Security(_) => ErrorKind::Security,
            AgentError::Io(_) => ErrorKind::Io,
            AgentError::Serialization(_) => ErrorKind::Serialization,
            AgentError::Url(_) => ErrorKind::Url,
            AgentError::Other(_) => ErrorKind::Other,
            AgentError::Uuid(_) => ErrorKind::Uuid,
            AgentError::SystemTime(_) => ErrorKind::SystemTime,
            AgentError::OpenH264(_) => ErrorKind::OpenH264,
            AgentError::WebRTC(_) => ErrorKind::WebRTC,
            AgentError::EncoderNotInitialized => ErrorKind::EncoderNotInitialized,
        }
    }

    /// The message of this failure; empty where the kind says it all.
    pub open spec fn text(self) -> Seq<char> {
        match self {
            AgentError::Config(msg) => msg@,
            AgentError::Capture(msg) => msg@,
            AgentError::Input(msg) => msg@,
            AgentError::Transport(msg) => msg@,
            AgentError::WebSocket(msg) => msg@,
            AgentError::Auth(msg) => msg@,
            AgentError::VideoEncoding(msg) => msg@,
            AgentError::EncoderError(msg) => msg@,
            AgentError::AudioCapture(msg) => msg@,
            AgentError::System(msg) => msg@,
            AgentError::Network(msg) => msg@,
            AgentError::Security(msg) => msg@,
            AgentError::Io(msg) => msg@,
            AgentError::Serialization(msg) => msg@,
            AgentError::Url(msg) => msg@,
            AgentError::Other(msg) => msg@,
            AgentError::Uuid(msg) => msg@,
            AgentError::SystemTime(msg) => msg@,
            AgentError::OpenH264(msg) => msg@,
            AgentError::WebRTC(msg) => msg@,
            AgentError::EncoderNotInitialized => Seq::empty(),
        }
    }

    /// The failure as one line of text.
    pub open spec fn rendered(self) -> Seq<char> {
        self.kind().prefix() + self.text()
    }

    /// The message after `context` has been put in front of it.
    pub open spec fn text_in_context(self, context: Seq<char>) -> Seq<char> {
        if self.kind().takes_context() {
            context + ": "@ + self.text()
        } else {
            self.text()
        }
    }

    /// The kind of this failure.
    pub fn error_kind(&self) -> (r: ErrorKind)
        ensures
            r == self.kind(),
    {
        match self {
            AgentError::Config(_) => ErrorKind::Config,
            AgentError::Capture(_) => ErrorKind::Capture,
            AgentError::Input(_) => ErrorKind::Input,
            AgentError::Transport(_) => ErrorKind::Transport,
            AgentError::WebSocket(_) => ErrorKind::WebSocket,
            AgentError::Auth(_) => ErrorKind::Auth,
            AgentError::VideoEncoding(_) => ErrorKind::VideoEncoding,
            AgentError::EncoderError(_) => ErrorKind::EncoderError,
            AgentError::AudioCapture(_) => ErrorKind::AudioCapture,
            AgentError::System(_) => ErrorKind::System,
            AgentError::Network(_) => ErrorKind::Network,
            AgentError::Security(_) => ErrorKind::Security,
            AgentError::Io(_) => ErrorKind::Io,
            AgentError::Serialization(_) => ErrorKind::Serialization,
            AgentError::Url(_) => ErrorKind::Url,
            AgentError::Other(_) => ErrorKind::Other,
            AgentError::Uuid(_) => ErrorKind::Uuid,
            AgentError::SystemTime(_) => ErrorKind::SystemTime,
            AgentError::OpenH264(_) => ErrorKind::OpenH264,
            AgentError::WebRTC(_) => ErrorKind::WebRTC,
            AgentError::EncoderNotInitialized => ErrorKind::EncoderNotInitialized,
        }
    }

    /// Whether the operation that failed may be retried or skipped.
    pub fn is_recoverable(&self) -> (r: bool)
        ensures
            r == self.kind().recoverable(),
    {
        match self {
            AgentError::Network(_)
            | AgentError::Transport(_)
            | AgentError::WebSocket(_)
            | AgentError::Capture(_)
            | AgentError::VideoEncoding(_)
            | AgentError::EncoderError(_)
            | AgentError::EncoderNotInitialized => true,
            _ => false,
        }
    }

    /// Whether the failure must stop the agent or reject the client.
    pub fn is_critical(&self) -> (r: bool)
        ensures
            r == self.kind().critical(),
    {
        match self {
            AgentError::Config(_) | AgentError::Auth(_) | AgentError::Security(_) => true,
            _ => false,
        }
    }

    /// Puts `context` and a colon in front of the message. A failure that
    /// only relays the text of another component is returned as it is.
    pub fn context(self, context: &str) -> (r: AgentError)
        ensures
            r.kind() == self.kind(),
            r.text() == self.text_in_context(context@),
    {
        let lead = join2(context, ": ");
        match self {
            AgentError::Config(msg) => AgentError::Config(join2(lead.as_str(), msg.as_str())),
            AgentError::Capture(msg) => AgentError::Capture(join2(lead.as_str(), msg.as_str())),
            AgentError::Input(msg) => AgentError::Input(join2(lead.as_str(), msg.as_str())),
            AgentError::Transport(msg) => AgentError::Transport(join2(lead.as_str(), msg.as_str())),
            AgentError::WebSocket(msg) => AgentError::WebSocket(join2(lead.as_str(), msg.as_str())),
            AgentError::Auth(msg) => AgentError::Auth(join2(lead.as_str(), msg.as_str())),
            AgentError::VideoEncoding(msg) => AgentError::VideoEncoding(join2(lead.as_str(), msg.as_str())),
            AgentError::EncoderError(msg) => AgentError::EncoderError(join2(lead.as_str(), msg.as_str())),
            AgentError::AudioCapture(msg) => AgentError::AudioCapture(join2(lead.as_str(), msg.as_str())),
            AgentError::System(msg) => AgentError::System(join2(lead.as_str(), msg.as_str())),
            AgentError::Network(msg) => AgentError::Network(join2(lead.as_str(), msg.as_str())),
            AgentError::Security(msg) => AgentError::Security(join2(lead.as_str(), msg.as_str())),
            AgentError::Io(msg) => AgentError::Io(msg),
            AgentError::Serialization(msg) => AgentError::Serialization(msg),
            AgentError::Url(msg) => AgentError::Url(msg),
            AgentError::Other(msg) => AgentError::Other(join2(lead.as_str(), msg.as_str())),
            AgentError::Uuid(msg) => AgentError::Uuid(msg),
            AgentError::SystemTime(msg) => AgentError::SystemTime(msg),
            AgentError::OpenH264(msg) => AgentError::OpenH264(msg),
            AgentError::WebRTC(msg) => AgentError::WebRTC(msg),
            AgentError::EncoderNotInitialized => AgentError::EncoderNotInitialized,
        }
    }

    /// The failure as one line of text: the words for its kind, then its
    /// message.
    pub fn to_string(&self) -> (r: String)
        ensures
            r@ == self.rendered(),
    {
        match self {
            AgentError::Config(msg) => join2("Configuration error: ", msg.as_str()),
            AgentError::Capture(msg) => join2("Screen capture error: ", msg.as_str()),
            AgentError::Input(msg) => join2("Input injection error: ", msg.as_str()),
            AgentError::Transport(msg) => join2("Transport error: ", msg.as_str()),
            AgentError::WebSocket(msg) => join2("WebSocket error: ", msg.as_str()),
            AgentError::Auth(msg) => join2("Authentication error: ", msg.as_str()),
            AgentError::VideoEncoding(msg) => join2("Video encoding error: ", msg.as_str()),
            AgentError::EncoderError(msg) => join2("Encoder error: ", msg.as_str()),
            AgentError::AudioCapture(msg) => join2("Audio capture error: ", msg.as_str()),
            AgentError::System(msg) => join2("System error: ", msg.as_str()),
            AgentError::Network(msg) => join2("Network error: ", msg.as_str()),
            AgentError::Security(msg) => join2("Security error: ", msg.as_str()),
            AgentError::Io(msg) => join2("IO error: ", msg.as_str()),
            AgentError::Serialization(msg) => join2("Serialization error: ", msg.as_str()),
            AgentError::Url(msg) => join2("URL parsing error: ", msg.as_str()),
            AgentError::Other(msg) => join2("Other error: ", msg.as_str()),
            AgentError::Uuid(msg) => join2("UUID error: ", msg.as_str()),
            AgentError::SystemTime(msg) => join2("System time error: ", msg.as_str()),
            AgentError::OpenH264(msg) => join2("OpenH264 error: ", msg.as_str()),
            AgentError::WebRTC(msg) => join2("WebRTC error: ", msg.as_str()),
            AgentError::EncoderNotInitialized => {
                let r = String::from_str("Encoder not initialized");
                assert("Encoder not initialized"@ + Seq::<char>::empty() =~= "Encoder not initialized"@);
                r
            },
        }
    }
}

} // verus!
