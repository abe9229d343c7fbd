//! Log records: what each logging call records, at which level and with
//! which fields. The caller hands the records to its log sink.

use vstd::prelude::*;
use vstd::string::*;
use crate::config::{env_view, optional_var, push_var, thousandths_string, thousandths_text, EnvVar};
use crate::error::{AgentError, AgentResult, ErrorKind};
use crate::text::{decimal, decimal_string, join2};
use crate::types::Metrics;

verus! {

/// Log levels, from the most severe to the most verbose.
#[derive(Debug, Clone, Copy, PartialEq, Eq, Structural)]
pub enum LogLevel {
    Error,
    Warn,
    Info,
    Debug,
    Trace,
}

/// One log record.
#[derive(Debug)]
pub struct LogRecord {
    pub level: LogLevel,
    pub message: String,
    /// The fields of the record, name and value, in their order.
    pub fields: Vec<(String, String)>,
}

impl LogRecord {
    /// Whether the record has the given level, message and fields.
    pub open spec fn is(self, level: LogLevel, message: Seq<char>, fields: Seq<EnvVar>) -> bool {
        &&& self.level == level
        &&& self.message@ == message
        &&& env_view(self.fields@) == fields
    }
}

/// The number by which the tracing library knows a level that `text`
/// names (1 for error up to 5 for trace), or the text of its complaint.
pub uninterp spec fn tracing_level(text: Seq<char>) -> Result<u8, Seq<char>>;

/// Parses a level with `tracing::Level`'s `FromStr` and hands back its
/// number, or the text of the error. The contract only names the result;
/// the number is between 1 and 5, one for each level of the library.
#[verifier::external_body]
fn parse_tracing_level(text: &str) -> (r: Result<u8, String>)
    ensures
        match (r, tracing_level(text@)) {
            (Ok(a), Ok(b)) => a == b && 1 <= a <= 5,
            (Err(a), Err(b)) => a@ == b,
            _ => false,
        },
{
    match text.parse::<tracing::Level>() {
        Ok(level) => Ok(
            match level {
                tracing::Level::ERROR => 1,
                tracing::Level::WARN => 2,
                tracing::Level::INFO => 3,
                tracing::Level::DEBUG => 4,
                _ => 5,
            },
        ),
        Err(e) => Err(e.to_string()),
    }
}

/// The level with a number of the tracing library.
pub open spec fn level_of_number(n: u8) -> LogLevel {
    if n <= 1 {
        LogLevel::Error
    } else if n == 2 {
        LogLevel::Warn
    } else if n == 3 {
        LogLevel::Info
    } else if n == 4 {
        LogLevel::Debug
    } else {
        LogLevel::Trace
    }
}

/// What setting a level gives, for each outcome of parsing its name.
pub open spec fn level_verdict(outcome: Result<u8, Seq<char>>, r: AgentResult<LogLevel>) -> bool {
    match outcome {
        Ok(n) => r == Ok::<LogLevel, AgentError>(level_of_number(n)),
        Err(text) => r is Err && r->Err_0.kind() == ErrorKind::Config && r->Err_0.text()
            == "Invalid log level: "@ + text,
    }
}

/// Turns the outcome of parsing a level's name into the level, or into a
/// configuration error.
pub fn level_from(outcome: Result<u8, String>) -> (r: AgentResult<LogLevel>)
    ensures
        level_verdict(
            match outcome {
                Ok(n) => Ok(n),
                Err(t) => Err(t@),
            },
            r,
        ),
{
    match outcome {
        Ok(n) => Ok(
            if n <= 1 {
                LogLevel::Error
            } else if n == 2 {
                LogLevel::Warn
            } else if n == 3 {
                LogLevel::Info
            } else if n == 4 {
                LogLevel::Debug
            } else {
                LogLevel::Trace
            },
        ),
        Err(text) => Err(AgentError::Config(join2("Invalid log level: ", text.as_str()))),
    }
}

/// Reads the level that `level` names, for the caller to put in force.
/// A name that the tracing library does not know is a configuration
/// error.
pub fn set_level(level: &str) -> (r: AgentResult<LogLevel>)
    ensures
        level_verdict(tracing_level(level@), r),
{
    level_from(parse_tracing_level(level))
}

/// The level in force unless one is set.
pub fn get_level() -> (r: LogLevel)
    ensures
        r == LogLevel::Info,
{
    LogLevel::Info
}

/// The fields of a metrics record.
pub open spec fn metrics_fields(m: Metrics) -> Seq<EnvVar> {
    seq![
        ("fps"@, thousandths_text(m.fps)),
        ("latency"@, decimal(m.latency as nat)),
        ("bitrate"@, decimal(m.bitrate as nat)),
        ("packet_loss"@, thousandths_text(m.packet_loss)),
        ("jitter"@, thousandths_text(m.jitter)),
        ("frame_drops"@, decimal(m.frame_drops as nat)),
        ("bytes_received"@, decimal(m.bytes_received as nat)),
        ("bytes_sent"@, decimal(m.bytes_sent as nat)),
        ("cpu_usage"@, thousandths_text(m.cpu_usage)),
        ("memory_usage"@, decimal(m.memory_usage as nat)),
    ]
}

/// Records performance metrics.
pub fn log_metrics(metrics: &Metrics) -> (r: LogRecord)
    ensures
        r.is(LogLevel::Info, "Performance metrics"@, metrics_fields(*metrics)),
{
    let mut fields: Vec<(String, String)> = Vec::new();
    push_var(&mut fields, "fps", thousandths_string(metrics.fps));
    push_var(&mut fields, "latency", decimal_string(metrics.latency as u64));
    push_var(&mut fields, "bitrate", decimal_string(metrics.bitrate as u64));
    push_var(&mut fields, "packet_loss", thousandths_string(metrics.packet_loss));
    push_var(&mut fields, "jitter", thousandths_string(metrics.jitter));
    push_var(&mut fields, "frame_drops", decimal_string(metrics.frame_drops as u64));
    push_var(&mut fields, "bytes_received", decimal_string(metrics.bytes_received));
    push_var(&mut fields, "bytes_sent", decimal_string(metrics.bytes_sent));
    push_var(&mut fields, "cpu_usage", thousandths_string(metrics.cpu_usage));
    push_var(&mut fields, "memory_usage", decimal_string(metrics.memory_usage));
    assert(env_view(fields@) =~= metrics_fields(*metrics));
    LogRecord { level: LogLevel::Info, message: String::from_str("Performance metrics"), fields }
}

/// The view of an optional text slice.
pub open spec fn slice_text(s: Option<&str>) -> Option<Seq<char>> {
    match s {
        Some(t) => Some(t@),
        None => None,
    }
}

/// Appends a field that may be absent.
fn push_optional(fields: &mut Vec<(String, String)>, name: &str, value: Option<&str>)
    ensures
        env_view(final(fields)@) == env_view(old(fields)@) + optional_var(name@, slice_text(value)),
{
    match value {
        Some(text) => {
            push_var(fields, name, String::from_str(text));
            assert(env_view(fields@) =~= env_view(old(fields)@) + optional_var(name@, slice_text(value)));
        },
        None => {
            assert(env_view(fields@) =~= env_view(old(fields)@) + optional_var(name@, slice_text(value)));
        },
    }
}

/// The fields of a connection record: the client, the event, and the
/// details where there are any.
pub open spec fn connection_fields(client_id: Seq<char>, event: Seq<char>, details: Option<Seq<char>>) -> Seq<
    EnvVar,
> {
    seq![("client_id"@, client_id), ("event"@, event)] + optional_var("details"@, details)
}

/// Records a connection event.
pub fn log_connection(client_id: &str, event: &str, details: Option<&str>) -> (r: LogRecord)
    ensures
        r.is(LogLevel::Info, "Connection event"@, connection_fields(client_id@, event@, slice_text(details))),
{
    let mut fields: Vec<(String, String)> = Vec::new();
    push_var(&mut fields, "client_id", String::from_str(client_id));
    push_var(&mut fields, "event", String::from_str(event));
    assert(env_view(fields@) =~= seq![("client_id"@, client_id@), ("event"@, event@)]);
    push_optional(&mut fields, "details", details);
    LogRecord { level: LogLevel::Info, message: String::from_str("Connection event"), fields }
}

/// The fields of a security record: the client where it is known, the
/// event, and the details where there are any.
pub open spec fn security_fields(event: Seq<char>, client_id: Option<Seq<char>>, details: Option<Seq<char>>) -> Seq<
    EnvVar,
> {
    optional_var("client_id"@, client_id) + seq![("event"@, event)] + optional_var("details"@, details)
}

/// Records a security event.
pub fn log_security_event(event: &str, client_id: Option<&str>, details: Option<&str>) -> (r: LogRecord)
    ensures
        r.is(
            LogLevel::Warn,
            "Security event"@,
            security_fields(event@, slice_text(client_id), slice_text(details)),
        ),
{
    let mut fields: Vec<(String, String)> = Vec::new();
    assert(env_view(fields@) =~= Seq::<EnvVar>::empty());
    push_optional(&mut fields, "client_id", client_id);
    let ghost first = env_view(fields@);
    push_var(&mut fields, "event", String::from_str(event));
    assert(env_view(fields@) =~= first + seq![("event"@, event@)]);
    push_optional(&mut fields, "details", details);
    assert(env_view(fields@) =~= security_fields(event@, slice_text(client_id), slice_text(details)));
    LogRecord { level: LogLevel::Warn, message: String::from_str("Security event"), fields }
}

/// A record of one message with its context.
fn contextual(level: LogLevel, title: &str, name: &str, text: String, context: &str) -> (r: LogRecord)
    ensures
        r.is(level, title@, seq![(name@, text@), ("context"@, context@)]),
{
    let mut fields: Vec<(String, String)> = Vec::new();
    push_var(&mut fields, name, text);
    push_var(&mut fields, "context", String::from_str(context));
    assert(env_view(fields@) =~= seq![(name@, text@), ("context"@, context@)]);
    LogRecord { level, message: String::from_str(title), fields }
}

/// Records an error with its context.
pub fn log_error(error: &AgentError, context: &str) -> (r: LogRecord)
    ensures
        r.is(
            LogLevel::Error,
            "Error occurred"@,
            seq![("error"@, error.rendered()), ("context"@, context@)],
        ),
{
    contextual(LogLevel::Error, "Error occurred", "error", error.to_string(), context)
}

/// Records a warning with its context.
pub fn log_warning(message: &str, context: &str) -> (r: LogRecord)
    ensures
        r.is(LogLevel::Warn, "Warning"@, seq![("message"@, message@), ("context"@, context@)]),
{
    contextual(LogLevel::Warn, "Warning", "message", String::from_str(message), context)
}

/// Records a piece of information with its context.
pub fn log_info(message: &str, context: &str) -> (r: LogRecord)
    ensures
        r.is(LogLevel::Info, "Info"@, seq![("message"@, message@), ("context"@, context@)]),
{
    contextual(LogLevel::Info, "Info", "message", String::from_str(message), context)
}

/// Records a debugging note with its context.
pub fn log_debug(message: &str, context: &str) -> (r: LogRecord)
    ensures
        r.is(LogLevel::Debug, "Debug"@, seq![("message"@, message@), ("context"@, context@)]),
{
    contextual(LogLevel::Debug, "Debug", "message", String::from_str(message), context)
}

/// Records a trace note with its context.
pub fn log_trace(message: &str, context: &str) -> (r: LogRecord)
    ensures
        r.is(LogLevel::Trace, "Trace"@, seq![("message"@, message@), ("context"@, context@)]),
{
    contextual(LogLevel::Trace, "Trace", "message", String::from_str(message), context)
}

} // verus!
