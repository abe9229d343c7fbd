//! Helpers: clock readings, human-readable quantities, identifiers, tokens,
//! digests, compression and file-name cleaning.

use std::time::Duration;
use vstd::prelude::*;
use vstd::string::*;
use crate::error::{AgentError, AgentResult};
use crate::text::{char_is_alphanumeric, decimal, is_alphanumeric, join2, push_decimal, same_text};

verus! {

// ---------------------------------------------------------------------
// Names for what the outside crates compute
// ---------------------------------------------------------------------

/// The standard base64 text of a byte string, with padding.
pub uninterp spec fn base64_text(data: Seq<u8>) -> Seq<char>;

/// What decoding a standard base64 text gives: the bytes, or the text of
/// the decoder's complaint.
pub uninterp spec fn base64_bytes(text: Seq<char>) -> Result<Seq<u8>, Seq<char>>;

/// The SHA-256 digest of a byte string, as 64 lower-case hexadecimal
/// digits.
pub uninterp spec fn sha256_hex(data: Seq<u8>) -> Seq<char>;

/// The raw DEFLATE stream that the compressor produces for a byte string
/// at its default level.
pub uninterp spec fn deflate_of(data: Seq<u8>) -> Seq<u8>;

/// What inflating a raw DEFLATE stream gives, if the stream is sound.
pub uninterp spec fn inflate_of(data: Seq<u8>) -> Option<Seq<u8>>;

/// What parsing a text as a UUID gives: its 128-bit value, or the text of
/// the parser's complaint.
pub uninterp spec fn uuid_parse(text: Seq<char>) -> Result<u128, Seq<char>>;

// ---------------------------------------------------------------------
// Clock
// ---------------------------------------------------------------------

/// A reading of the wall clock, as time elapsed since the Unix epoch.
#[derive(Debug, Clone, Copy, PartialEq, Eq, Structural)]
pub struct ClockReading {
    pub secs: u64,
    pub nanos: u32,
}

impl ClockReading {
    /// A reading whose sub-second part is below one second.
    pub open spec fn wf(self) -> bool {
        self.nanos < 1_000_000_000
    }

    /// Whole milliseconds since the epoch, reduced to 64 bits.
    pub open spec fn millis(self) -> u64 {
        ((self.secs as int * 1000 + self.nanos as int / 1_000_000) % 0x1_0000_0000_0000_0000) as u64
    }

    /// Whole milliseconds since the epoch, reduced to 64 bits.
    pub fn as_millis(&self) -> (r: u64)
        ensures
            r == self.millis(),
    {
        let wide: u128 = (self.secs as u128) * 1000 + ((self.nanos / 1_000_000) as u128);
        (wide % 0x1_0000_0000_0000_0000u128) as u64
    }
}

/// Reads the wall clock with `SystemTime::now` and measures it from
/// `UNIX_EPOCH` with `duration_since`. A clock set before the epoch gives
/// the text of the error. The sub-second part is below one second, as
/// `Duration::subsec_nanos` documents.
#[verifier::external_body]
pub(crate) fn read_clock() -> (r: Result<ClockReading, String>)
    ensures
        r matches Ok(c) ==> c.wf(),
{
    match std::time::SystemTime::now().duration_since(std::time::UNIX_EPOCH) {
        Ok(d) => Ok(ClockReading { secs: d.as_secs(), nanos: d.subsec_nanos() }),
        Err(e) => Err(e.to_string()),
    }
}

/// Reads the wall clock, in whole seconds since the Unix epoch. A clock
/// set before the epoch gives a `SystemTime` error.
pub fn unix_seconds() -> (r: AgentResult<u64>)
    ensures
        exists|reading: Result<ClockReading, String>|
            sound_reading(reading) && #[trigger] seconds_verdict(reading, r),
        r matches Err(e) ==> e.kind() == crate::error::ErrorKind::SystemTime,
{
    let reading = read_clock();
    let ghost read = reading;
    let r = seconds_of(reading);
    assert(sound_reading(read) && seconds_verdict(read, r));
    r
}

/// What the clock can say: a reading whose sub-second part is below one
/// second, or its complaint.
pub open spec fn sound_reading(reading: Result<ClockReading, String>) -> bool {
    reading matches Ok(c) ==> c.wf()
}

/// What becomes of a clock reading where whole seconds are asked for: a
/// reading gives its seconds, a complaint becomes a `SystemTime` error
/// with the same words.
pub open spec fn seconds_verdict(reading: Result<ClockReading, String>, r: AgentResult<u64>) -> bool {
    match reading {
        Ok(c) => r == Ok::<u64, AgentError>(c.secs),
        Err(text) => r matches Err(e) && e.kind() == crate::error::ErrorKind::SystemTime && e.text()
            == text@,
    }
}

/// The milliseconds of a clock reading; 0 for a complaint.
pub open spec fn reading_millis(reading: Result<ClockReading, String>) -> u64 {
    match reading {
        Ok(c) => c.millis(),
        Err(_) => 0,
    }
}

/// The whole seconds of a clock reading; 0 for a complaint.
pub open spec fn reading_seconds(reading: Result<ClockReading, String>) -> u64 {
    match reading {
        Ok(c) => c.secs,
        Err(_) => 0,
    }
}

/// Whole seconds for a clock reading; a reading that failed becomes a
/// `SystemTime` error with the clock's own words.
pub fn seconds_of(reading: Result<ClockReading, String>) -> (r: AgentResult<u64>)
    ensures
        seconds_verdict(reading, r),
{
    match reading {
        Ok(c) => Ok(c.secs),
        Err(text) => Err(AgentError::SystemTime(text)),
    }
}

/// Milliseconds for a clock reading; 0 where the clock could not be read.
pub fn timestamp_of(reading: &Result<ClockReading, String>) -> (r: u64)
    ensures
        r == reading_millis(*reading),
{
    match reading {
        Ok(c) => c.as_millis(),
        Err(_) => 0,
    }
}

/// Seconds for a clock reading; 0 where the clock could not be read.
pub fn timestamp_seconds_of(reading: &Result<ClockReading, String>) -> (r: u64)
    ensures
        r == reading_seconds(*reading),
{
    match reading {
        Ok(c) => c.secs,
        Err(_) => 0,
    }
}

/// Milliseconds since the Unix epoch; 0 if the clock is set before it.
pub fn get_timestamp() -> (r: u64)
    ensures
        exists|reading: Result<ClockReading, String>|
            sound_reading(reading) && r == #[trigger] reading_millis(reading),
{
    let reading = read_clock();
    let r = timestamp_of(&reading);
    assert(sound_reading(reading) && r == reading_millis(reading));
    r
}

/// Seconds since the Unix epoch; 0 if the clock is set before it.
pub fn get_timestamp_seconds() -> (r: u64)
    ensures
        exists|reading: Result<ClockReading, String>|
            sound_reading(reading) && r == #[trigger] reading_seconds(reading),
{
    let reading = read_clock();
    let r = timestamp_seconds_of(&reading);
    assert(sound_reading(reading) && r == reading_seconds(reading));
    r
}

// ---------------------------------------------------------------------
// Durations, sizes, rates
// ---------------------------------------------------------------------

/// `Duration::as_secs`: the whole seconds of a duration.
pub assume_specification[ Duration::as_secs ](d: &Duration) -> (r: u64)
;

/// How a number of seconds reads: hours, minutes and seconds, leaving out
/// the leading parts that are zero.
pub open spec fn duration_text(total_seconds: u64) -> Seq<char> {
    let hours = (total_seconds / 3600) as nat;
    let minutes = ((total_seconds % 3600) / 60) as nat;
    let seconds = (total_seconds % 60) as nat;
    if hours > 0 {
        decimal(hours) + "h "@ + decimal(minutes) + "m "@ + decimal(seconds) + "s"@
    } else if minutes > 0 {
        decimal(minutes) + "m "@ + decimal(seconds) + "s"@
    } else {
        decimal(seconds) + "s"@
    }
}

/// Renders a number of seconds as hours, minutes and seconds.
pub fn format_seconds(total_seconds: u64) -> (r: String)
    ensures
        r@ == duration_text(total_seconds),
{
    let hours = total_seconds / 3600;
    let minutes = (total_seconds % 3600) / 60;
    let seconds = total_seconds % 60;
    let mut out = String::new();
    assert(out@ + decimal(hours as nat) =~= decimal(hours as nat));
    assert(out@ + decimal(minutes as nat) =~= decimal(minutes as nat));
    assert(out@ + decimal(seconds as nat) =~= decimal(seconds as nat));
    if hours > 0 {
        push_decimal(&mut out, hours);
        out.append("h ");
        push_decimal(&mut out, minutes);
        out.append("m ");
        push_decimal(&mut out, seconds);
        out.append("s");
    } else if minutes > 0 {
        push_decimal(&mut out, minutes);
        out.append("m ");
        push_decimal(&mut out, seconds);
        out.append("s");
    } else {
        push_decimal(&mut out, seconds);
        out.append("s");
    }
    out
}

/// Renders the whole seconds of a duration as hours, minutes and seconds.
pub fn format_duration(duration: Duration) -> (r: String)
    ensures
        exists|total_seconds: u64| r@ == duration_text(total_seconds),
{
    let total_seconds = duration.as_secs();
    format_seconds(total_seconds)
}

/// `value / unit` in tenths, rounded to the nearest tenth; a value exactly
/// between two tenths goes to the even one.
pub open spec fn tenths(value: nat, unit: nat) -> nat
    recommends
        unit > 0,
{
    let q = (value * 10) / unit;
    let rem = (value * 10) % unit;
    if rem * 2 > unit || (rem * 2 == unit && q % 2 == 1) {
        q + 1
    } else {
        q
    }
}

/// A number of tenths written with one decimal place.
pub open spec fn one_decimal(t: nat) -> Seq<char> {
    decimal(t / 10) + "."@ + decimal(t % 10)
}

/// How a byte count reads: plain below 1024, else in KB, MB or GB (powers
/// of 1024) with one decimal place.
pub open spec fn bytes_text(bytes: u64) -> Seq<char> {
    if bytes < 1024 {
        decimal(bytes as nat) + " B"@
    } else if bytes < 1024 * 1024 {
        one_decimal(tenths(bytes as nat, 1024)) + " KB"@
    } else if bytes < 1024 * 1024 * 1024 {
        one_decimal(tenths(bytes as nat, 1024 * 1024)) + " MB"@
    } else {
        one_decimal(tenths(bytes as nat, 1024 * 1024 * 1024)) + " GB"@
    }
}

/// How a bit rate reads: plain below 1000, else in Kbps, Mbps or Gbps
/// (powers of 1000) with one decimal place.
pub open spec fn bitrate_text(bps: u64) -> Seq<char> {
    if bps < 1000 {
        decimal(bps as nat) + " bps"@
    } else if bps < 1000 * 1000 {
        one_decimal(tenths(bps as nat, 1000)) + " Kbps"@
    } else if bps < 1000 * 1000 * 1000 {
        one_decimal(tenths(bps as nat, 1000 * 1000)) + " Mbps"@
    } else {
        one_decimal(tenths(bps as nat, 1000 * 1000 * 1000)) + " Gbps"@
    }
}

/// Computes `value / unit` in tenths, rounded half to even.
fn rounded_tenths(value: u64, unit: u64) -> (r: u64)
    requires
        1000 <= unit <= 0x4000_0000,
    ensures
        r as nat == tenths(value as nat, unit as nat),
{
    let scaled: u128 = (value as u128) * 10;
    let q: u128 = scaled / (unit as u128);
    let rem: u128 = scaled % (unit as u128);
    assert(q * (unit as u128) <= scaled) by (nonlinear_arith)
        requires
            q == scaled / (unit as u128),
            unit > 0,
    ;
    assert(q + 1 <= 0xffff_ffff_ffff_ffff) by (nonlinear_arith)
        requires
            q * (unit as u128) <= scaled,
            scaled <= 0xffff_ffff_ffff_ffff * 10,
            unit >= 1000,
    ;
    if rem * 2 > (unit as u128) || (rem * 2 == (unit as u128) && q % 2 == 1) {
        (q + 1) as u64
    } else {
        q as u64
    }
}

/// Appends a number of tenths with one decimal place, then a unit.
fn push_one_decimal(out: &mut String, t: u64, unit: &str)
    ensures
        final(out)@ == old(out)@ + one_decimal(t as nat) + unit@,
{
    push_decimal(out, t / 10);
    out.append(".");
    push_decimal(out, t % 10);
    out.append(unit);
    assert(final(out)@ =~= old(out)@ + one_decimal(t as nat) + unit@);
}

/// Renders a byte count for people.
pub fn format_bytes(bytes: u64) -> (r: String)
    ensures
        r@ == bytes_text(bytes),
{
    let kb: u64 = 1024;
    let mb: u64 = 1024 * 1024;
    let gb: u64 = 1024 * 1024 * 1024;
    let mut out = String::new();
    if bytes < kb {
        push_decimal(&mut out, bytes);
        out.append(" B");
        assert(out@ =~= bytes_text(bytes));
    } else if bytes < mb {
        push_one_decimal(&mut out, rounded_tenths(bytes, kb), " KB");
        assert(out@ =~= bytes_text(bytes));
    } else if bytes < gb {
        push_one_decimal(&mut out, rounded_tenths(bytes, mb), " MB");
        assert(out@ =~= bytes_text(bytes));
    } else {
        push_one_decimal(&mut out, rounded_tenths(bytes, gb), " GB");
        assert(out@ =~= bytes_text(bytes));
    }
    out
}

/// Renders a bit rate for people.
pub fn format_bitrate(bps: u64) -> (r: String)
    ensures
        r@ == bitrate_text(bps),
{
    let kbps: u64 = 1000;
    let mbps: u64 = 1000 * 1000;
    let gbps: u64 = 1000 * 1000 * 1000;
    let mut out = String::new();
    if bps < kbps {
        push_decimal(&mut out, bps);
        out.append(" bps");
        assert(out@ =~= bitrate_text(bps));
    } else if bps < mbps {
        push_one_decimal(&mut out, rounded_tenths(bps, kbps), " Kbps");
        assert(out@ =~= bitrate_text(bps));
    } else if bps < gbps {
        push_one_decimal(&mut out, rounded_tenths(bps, mbps), " Mbps");
        assert(out@ =~= bitrate_text(bps));
    } else {
        push_one_decimal(&mut out, rounded_tenths(bps, gbps), " Gbps");
        assert(out@ =~= bitrate_text(bps));
    }
    out
}

/// Milliseconds between sending and receiving, reduced to 32 bits; 0 if
/// the message seems to have arrived before it was sent.
pub fn calculate_latency(send_time: u64, receive_time: u64) -> (r: u32)
    ensures
        r == if receive_time >= send_time {
            ((receive_time - send_time) % 0x1_0000_0000) as u32
        } else {
            0u32
        },
{
    if receive_time >= send_time {
        ((receive_time - send_time) % 0x1_0000_0000) as u32
    } else {
        0
    }
}

// ---------------------------------------------------------------------
// Identifiers and tokens
// ---------------------------------------------------------------------

/// Calls `uuid::Uuid::parse_str` and hands back the value as a number, or
/// the text of the error. The contract only names the result: the parser
/// accepts several written forms.
#[verifier::external_body]
pub(crate) fn parse_uuid(text: &str) -> (r: Result<u128, String>)
    ensures
        match (r, uuid_parse(text@)) {
            (Ok(a), Ok(b)) => a == b,
            (Err(a), Err(b)) => a@ == b,
            _ => false,
        },
{
    match uuid::Uuid::parse_str(text) {
        Ok(id) => Ok(id.as_u128()),
        Err(e) => Err(e.to_string()),
    }
}

/// Draws a random (version 4) UUID with `uuid::Uuid::new_v4` and writes
/// it in its hyphenated form, which has 36 characters.
#[verifier::external_body]
pub(crate) fn random_uuid_text() -> (r: String)
    ensures
        r@.len() == 36,
{
    uuid::Uuid::new_v4().to_string()
}

/// Draws a random (version 4) UUID with `uuid::Uuid::new_v4`, as a number.
#[verifier::external_body]
pub(crate) fn random_uuid_value() -> (r: u128) {
    uuid::Uuid::new_v4().as_u128()
}

/// What validating a text as a UUID gives, for each outcome of parsing it.
pub open spec fn uuid_verdict(outcome: Result<u128, Seq<char>>, r: AgentResult<()>) -> bool {
    match outcome {
        Ok(_) => r is Ok,
        Err(text) => r is Err && r->Err_0.kind() == crate::error::ErrorKind::Other
            && r->Err_0.text() == "Invalid UUID: "@ + text,
    }
}

/// Turns the outcome of parsing a UUID into the verdict on the text.
pub fn uuid_validation(outcome: Result<u128, String>) -> (r: AgentResult<()>)
    ensures
        uuid_verdict(
            match outcome {
                Ok(v) => Ok(v),
                Err(t) => Err(t@),
            },
            r,
        ),
{
    match outcome {
        Ok(_) => Ok(()),
        Err(text) => Err(AgentError::Other(join2("Invalid UUID: ", text.as_str()))),
    }
}

/// Accepts a text that parses as a UUID; otherwise reports the parser's
/// complaint.
pub fn validate_uuid(uuid_str: &str) -> (r: AgentResult<()>)
    ensures
        uuid_verdict(uuid_parse(uuid_str@), r),
{
    uuid_validation(parse_uuid(uuid_str))
}

/// A fresh random session identifier, in hyphenated form.
pub fn generate_session_id() -> (r: String)
    ensures
        r@.len() == 36,
{
    random_uuid_text()
}

/// Draws 32 random bytes from the thread's generator (`rand::thread_rng`,
/// `Rng::gen`).
#[verifier::external_body]
pub(crate) fn random_token_bytes() -> (r: Vec<u8>)
    ensures
        r@.len() == 32,
{
    let bytes: [u8; 32] = rand::Rng::gen(&mut rand::thread_rng());
    bytes.to_vec()
}

/// Calls `base64::encode`. The contract only names the result.
#[verifier::external_body]
pub(crate) fn base64_encode(data: &[u8]) -> (r: String)
    ensures
        r@ == base64_text(data@),
{
    #[allow(deprecated)]
    base64::encode(data)
}

/// Calls `base64::decode` and hands back the bytes, or the text of the
/// error. The contract only names the result.
#[verifier::external_body]
pub(crate) fn base64_decode(text: &str) -> (r: Result<Vec<u8>, String>)
    ensures
        match (r, base64_bytes(text@)) {
            (Ok(a), Ok(b)) => a@ == b,
            (Err(a), Err(b)) => a@ == b,
            _ => false,
        },
{
    #[allow(deprecated)]
    match base64::decode(text) {
        Ok(bytes) => Ok(bytes),
        Err(e) => Err(e.to_string()),
    }
}

/// The base64 text of 32 fresh random bytes.
pub fn generate_token() -> (r: String)
    ensures
        exists|bytes: Seq<u8>| bytes.len() == 32 && r@ == base64_text(bytes),
{
    let bytes = random_token_bytes();
    base64_encode(bytes.as_slice())
}

/// The standard base64 text of `data`.
pub fn encode_base64(data: &[u8]) -> (r: String)
    ensures
        r@ == base64_text(data@),
{
    base64_encode(data)
}

/// What decoding gives, for each outcome of the decoder.
pub open spec fn base64_verdict(outcome: Result<Seq<u8>, Seq<char>>, r: AgentResult<Vec<u8>>) -> bool {
    match outcome {
        Ok(bytes) => r is Ok && r->Ok_0@ == bytes,
        Err(text) => r is Err && r->Err_0.kind() == crate::error::ErrorKind::Other
            && r->Err_0.text() == "Base64 decode error: "@ + text,
    }
}

/// Turns the decoder's outcome into the agent's result.
pub fn base64_decoded(outcome: Result<Vec<u8>, String>) -> (r: AgentResult<Vec<u8>>)
    ensures
        base64_verdict(
            match outcome {
                Ok(v) => Ok(v@),
                Err(t) => Err(t@),
            },
            r,
        ),
{
    match outcome {
        Ok(bytes) => Ok(bytes),
        Err(text) => Err(AgentError::Other(join2("Base64 decode error: ", text.as_str()))),
    }
}

/// Decodes standard base64 text; otherwise reports the decoder's
/// complaint.
pub fn decode_base64(data: &str) -> (r: AgentResult<Vec<u8>>)
    ensures
        base64_verdict(base64_bytes(data@), r),
{
    base64_decoded(base64_decode(data))
}

// ---------------------------------------------------------------------
// Passwords
// ---------------------------------------------------------------------

/// Hashes `data` with `sha2::Sha256` and writes the digest in lower-case
/// hexadecimal. The contract only names the result.
#[verifier::external_body]
pub(crate) fn sha256_digest_hex(data: &[u8]) -> (r: String)
    ensures
        r@ == sha256_hex(data@),
{
    let mut hasher = <sha2::Sha256 as sha2::Digest>::new();
    sha2::Digest::update(&mut hasher, data);
    format!("{:x}", sha2::Digest::finalize(hasher))
}

/// The SHA-256 digest of the password's UTF-8 bytes, in hexadecimal.
pub fn hash_password(password: &str) -> (r: AgentResult<String>)
    ensures
        r is Ok,
        r->Ok_0@ == sha256_hex(password.spec_bytes()),
{
    Ok(sha256_digest_hex(password.as_bytes()))
}

/// Whether `hash` is the digest of `password`.
pub fn verify_password(password: &str, hash: &str) -> (r: AgentResult<bool>)
    ensures
        r is Ok,
        r->Ok_0 == (sha256_hex(password.spec_bytes()) == hash@),
{
    let digest = sha256_digest_hex(password.as_bytes());
    Ok(same_text(digest.as_str(), hash))
}

// ---------------------------------------------------------------------
// Compression
// ---------------------------------------------------------------------

/// Where compressing failed, with the text of the error.
#[derive(Debug)]
pub enum DeflateFailure {
    /// While feeding the input.
    Write(String),
    /// While closing the stream.
    Finish(String),
}

/// Compresses with `flate2::write::DeflateEncoder` at the default level:
/// `write_all`, then `finish`. On success the bytes are the stream that
/// the contract names.
#[verifier::external_body]
pub(crate) fn deflate(data: &[u8]) -> (r: Result<Vec<u8>, DeflateFailure>)
    ensures
        r matches Ok(out) ==> out@ == deflate_of(data@),
{
    let mut encoder = flate2::write::DeflateEncoder::new(Vec::new(), flate2::Compression::default());
    match std::io::Write::write_all(&mut encoder, data) {
        Ok(()) => match encoder.finish() {
            Ok(out) => Ok(out),
            Err(e) => Err(DeflateFailure::Finish(e.to_string())),
        },
        Err(e) => Err(DeflateFailure::Write(e.to_string())),
    }
}

/// Inflates with `flate2::read::DeflateDecoder` (`read_to_end`) and hands
/// back the bytes, or the text of the error.
#[verifier::external_body]
pub(crate) fn inflate(data: &[u8]) -> (r: Result<Vec<u8>, String>)
    ensures
        match r {
            Ok(out) => inflate_of(data@) == Some(out@),
            Err(_) => inflate_of(data@) is None,
        },
{
    let mut decoder = flate2::read::DeflateDecoder::new(data);
    let mut out = Vec::new();
    match std::io::Read::read_to_end(&mut decoder, &mut out) {
        Ok(_) => Ok(out),
        Err(e) => Err(e.to_string()),
    }
}

/// What compressing gives, for each outcome of the compressor.
pub open spec fn compress_verdict(outcome: Result<Vec<u8>, DeflateFailure>, r: AgentResult<Vec<u8>>) -> bool {
    match outcome {
        Ok(out) => r is Ok && r->Ok_0@ == out@,
        Err(DeflateFailure::Write(text)) => r is Err && r->Err_0.kind() == crate::error::ErrorKind::Io
            && r->Err_0.text() == text@,
        Err(DeflateFailure::Finish(text)) => r is Err && r->Err_0.kind()
            == crate::error::ErrorKind::Other && r->Err_0.text() == "Compression error: "@ + text@,
    }
}

/// Turns the compressor's outcome into the agent's result.
pub fn compressed(outcome: Result<Vec<u8>, DeflateFailure>) -> (r: AgentResult<Vec<u8>>)
    ensures
        compress_verdict(outcome, r),
{
    match outcome {
        Ok(out) => Ok(out),
        Err(DeflateFailure::Write(text)) => Err(AgentError::Io(text)),
        Err(DeflateFailure::Finish(text)) => Err(
            AgentError::Other(join2("Compression error: ", text.as_str())),
        ),
    }
}

/// Compresses `data` into a raw DEFLATE stream.
pub fn compress_data(data: &[u8]) -> (r: AgentResult<Vec<u8>>)
    ensures
        r matches Ok(out) ==> out@ == deflate_of(data@),
        r matches Err(e) ==> e.kind() == crate::error::ErrorKind::Io || e.kind()
            == crate::error::ErrorKind::Other,
{
    compressed(deflate(data))
}

/// Inflates a raw DEFLATE stream; an unsound stream gives an `Io` error.
pub fn decompress_data(data: &[u8]) -> (r: AgentResult<Vec<u8>>)
    ensures
        match inflate_of(data@) {
            Some(out) => r is Ok && r->Ok_0@ == out,
            None => r is Err && r->Err_0.kind() == crate::error::ErrorKind::Io,
        },
{
    match inflate(data) {
        Ok(out) => Ok(out),
        Err(text) => Err(AgentError::Io(text)),
    }
}

// ---------------------------------------------------------------------
// File names
// ---------------------------------------------------------------------

/// Whether `part` occurs in `whole` as a run of consecutive characters.
pub open spec fn occurs_in(part: Seq<char>, whole: Seq<char>) -> bool {
    exists|i: int, j: int| 0 <= i <= j <= whole.len() && whole.subrange(i, j) == part
}

/// Characters that a cleaned file name keeps.
pub open spec fn keeps(c: char) -> bool {
    char_is_alphanumeric(c) || c == '.' || c == '-' || c == '_'
}

/// A name with every character that is not kept replaced by `_`.
pub open spec fn cleaned(name: Seq<char>) -> Seq<char> {
    Seq::new(
        name.len(),
        |i: int|
            if keeps(name[i]) {
                name[i]
            } else {
                '_'
            },
    )
}

/// The cleaned file name for a path whose final component is `component`.
pub open spec fn cleaned_component(component: Option<Seq<char>>) -> Seq<char> {
    match component {
        Some(name) => cleaned(name),
        None => "unknown_file"@,
    }
}

/// Takes the final component of a path with `Path::file_name`, where the
/// path has one and it is valid Unicode. The component is part of the
/// path's text.
#[verifier::external_body]
pub(crate) fn final_component(path: &str) -> (r: Option<String>)
    ensures
        r matches Some(name) ==> occurs_in(name@, path@),
{
    match std::path::Path::new(path).file_name() {
        Some(name) => name.to_str().map(|s| s.to_string()),
        None => None,
    }
}

/// Replaces every character of `name` that is not a letter, a digit, `.`,
/// `-` or `_` by `_`.
pub fn clean_name(name: &str) -> (r: String)
    ensures
        r@ == cleaned(name@),
{
    let mut out = String::new();
    let chars = name.chars();
    for c in iter: chars
        invariant
            iter.seq() == name@,
            out@ == cleaned(name@.take(iter.index())),
    {
        let kept = if is_alphanumeric(c) || c == '.' || c == '-' || c == '_' {
            c
        } else {
            '_'
        };
        out.push(kept);
        assert(out@ =~= cleaned(name@.take(iter.index() + 1)));
    }
    assert(name@.take(name@.len() as int) =~= name@);
    out
}

/// The cleaned file name for a path's final component; `unknown_file`
/// where the path has none.
pub fn sanitize_component(component: Option<String>) -> (r: String)
    ensures
        r@ == cleaned_component(
            match component {
                Some(name) => Some(name@),
                None => None,
            },
        ),
{
    match component {
        Some(name) => clean_name(name.as_str()),
        None => String::from_str("unknown_file"),
    }
}

/// A file name that is safe to use: the final component of `filename`
/// with unusual characters replaced by `_`, or `unknown_file` where the
/// path names no file.
pub fn sanitize_filename(filename: &str) -> (r: String)
    ensures
        r@ == "unknown_file"@ || exists|name: Seq<char>|
            occurs_in(name, filename@) && r@ == cleaned(name),
{
    sanitize_component(final_component(filename))
}

// ---------------------------------------------------------------------
// System
// ---------------------------------------------------------------------

/// Asks `sysinfo` for the machine's total and available memory
/// (`System::new_all`, `refresh_memory`, `total_memory`,
/// `available_memory`). Both figures are documented as bytes, so nothing
/// is converted here.
#[verifier::external_body]
pub(crate) fn probe_memory() -> (r: (u64, u64)) {
    let mut sys = <sysinfo::System as sysinfo::SystemExt>::new_all();
    sysinfo::SystemExt::refresh_memory(&mut sys);
    (sysinfo::SystemExt::total_memory(&sys), sysinfo::SystemExt::available_memory(&sys))
}

/// Total and available memory of the machine, in bytes.
pub fn get_system_memory_info() -> (r: AgentResult<(u64, u64)>)
    ensures
        r is Ok,
{
    Ok(probe_memory())
}

// ---------------------------------------------------------------------
// Ports
// ---------------------------------------------------------------------

/// Where a search for a free port stands.
#[derive(Debug, Clone, Copy, PartialEq, Eq, Structural)]
pub enum PortSearch {
    /// This port was probed and is free.
    Found(u16),
    /// Nothing free so far; this port is to be probed next.
    Probe(u16),
    /// Every port of the range was probed and none is free.
    Exhausted,
}

/// How many ports the search from `start_port` covers: 1000, or fewer
/// where the port numbers end first.
pub open spec fn search_window(start_port: u16) -> int {
    if start_port as int + 1000 <= 65536 {
        1000
    } else {
        65536 - start_port as int
    }
}

/// What the search answers after the probes made so far, where
/// `probes[i]` tells whether port `start_port + i` was free.
pub open spec fn port_search(start_port: u16, probes: Seq<bool>, r: PortSearch) -> bool {
    match r {
        PortSearch::Found(port) => exists|i: int|
            0 <= i < probes.len() && i < search_window(start_port) && probes[i] && port
                == start_port + i && forall|j: int| 0 <= j < i ==> !probes[j],
        PortSearch::Probe(port) => probes.len() < search_window(start_port) && port
            == start_port + probes.len() && forall|j: int| 0 <= j < probes.len() ==> !probes[j],
        PortSearch::Exhausted => probes.len() >= search_window(start_port) && forall|j: int|
            0 <= j < search_window(start_port) ==> !probes[j],
    }
}

/// One step of the search for a free port among the 1000 ports from
/// `start_port` upward. `probes` holds the answers to the probes made so
/// far, in order; the result is the first free port among them, else the
/// next port to probe, else the news that the range is used up.
pub fn find_available_port(start_port: u16, probes: &Vec<bool>) -> (r: PortSearch)
    ensures
        port_search(start_port, probes@, r),
{
    let window: usize = if start_port <= 64536 {
        1000
    } else {
        (65535 - start_port) as usize + 1
    };
    let mut i: usize = 0;
    while i < probes.len() && i < window
        invariant
            window as int == search_window(start_port),
            i <= probes.len(),
            i <= window,
            forall|j: int| 0 <= j < i ==> !probes@[j],
        decreases probes.len() - i,
    {
        if probes[i] {
            return PortSearch::Found(start_port + i as u16);
        }
        i += 1;
    }
    if i < window {
        PortSearch::Probe(start_port + i as u16)
    } else {
        PortSearch::Exhausted
    }
}

} // verus!
