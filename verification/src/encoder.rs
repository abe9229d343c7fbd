//! The video encoder: the keyframe policy, the bitrate for each quality,
//! and the calls into the H.264 codec.

use vstd::prelude::*;
use vstd::string::*;
use crate::config::CaptureConfig;
use crate::error::{AgentError, AgentResult, ErrorKind};
use crate::types::{Frame, PixelFormat, Quality, RawFrame, VideoCodec};
use crate::utils::{get_timestamp, random_uuid_value};

verus! {

/// The codec's encoder object.
#[verifier::external_type_specification]
#[verifier::external_body]
pub struct ExCodec(openh264::encoder::Encoder);

/// A picture in the codec's planar format.
#[verifier::external_type_specification]
#[verifier::external_body]
pub struct ExPicture(openh264::formats::YUVBuffer);

/// Seconds between two forced keyframes.
pub const KEYFRAME_SECONDS: u64 = 2;

/// The longer side of the largest picture the codec takes.
pub const MAX_LONG_SIDE: u32 = 3840;

/// The shorter side of the largest picture the codec takes.
pub const MAX_SHORT_SIDE: u32 = 2160;

/// What is reported when the frame counter cannot go further.
pub open spec fn counter_exhausted_text() -> Seq<char> {
    "Frame counter is exhausted"@
}

/// The target bitrate for a quality, in bits per second.
pub open spec fn bitrate_of(quality: Quality) -> u32 {
    match quality {
        Quality::Low => 500_000,
        Quality::Medium => 1_500_000,
        Quality::High => 3_000_000,
        Quality::Ultra => 6_000_000,
    }
}

/// The target bitrate for a quality, in bits per second.
pub fn bitrate_for(quality: Quality) -> (r: u32)
    ensures
        r == bitrate_of(quality),
{
    match quality {
        Quality::Low => 500_000,
        Quality::Medium => 1_500_000,
        Quality::High => 3_000_000,
        Quality::Ultra => 6_000_000,
    }
}

/// A higher quality never has a lower bitrate.
pub proof fn law_bitrate_is_monotonic(lower: Quality, higher: Quality)
    requires
        lower.rank() <= higher.rank(),
    ensures
        bitrate_of(lower) <= bitrate_of(higher),
{
}

/// How many frames lie between two forced keyframes at a frame rate.
pub open spec fn keyframe_interval(framerate: u32) -> u64 {
    (framerate as u64 * KEYFRAME_SECONDS) as u64
}

/// Whether the frame with the given number, counted from 1, is a
/// keyframe: the first frame is one, and so is every frame that comes a
/// whole interval after the last keyframe.
pub open spec fn keyframe_due(frame_number: u64, last_keyframe: u64, framerate: u32) -> bool {
    frame_number == 1 || frame_number - last_keyframe >= keyframe_interval(framerate)
}

/// Whether a picture is beyond what the codec takes: 3840 by 2160,
/// lying or upright.
pub open spec fn too_large(width: u32, height: u32) -> bool {
    width > MAX_LONG_SIDE || height > MAX_LONG_SIDE || (width > MAX_SHORT_SIDE && height
        > MAX_SHORT_SIDE)
}

/// Why a picture cannot be encoded, if it cannot.
pub open spec fn picture_fault(width: u32, height: u32, len: nat) -> Option<Seq<char>> {
    if width == 0 || height == 0 || width % 2 != 0 || height % 2 != 0 {
        Some("Frame dimensions must be even and not zero"@)
    } else if too_large(width, height) {
        Some("Frame is larger than the codec allows"@)
    } else if len != width as nat * height as nat * 4 {
        Some("Frame data does not match its dimensions"@)
    } else {
        None
    }
}

/// Opens the codec with `openh264::encoder::Encoder::with_api_config`,
/// configured for the given target bitrate; a failure gives the text of
/// the codec's error.
#[verifier::external_body]
fn open_codec(bitrate: u32) -> (r: Result<openh264::encoder::Encoder, String>) {
    let config = openh264::encoder::EncoderConfig::new().bitrate(
        openh264::encoder::BitRate::from_bps(bitrate),
    );
    match openh264::encoder::Encoder::with_api_config(openh264::OpenH264API::from_source(), config) {
        Ok(codec) => Ok(codec),
        Err(e) => Err(e.to_string()),
    }
}

/// Converts a picture of RGBA bytes to the codec's planar format with
/// `YUVBuffer::from_rgba8_source`. The dimensions must be even and fit
/// the data, or the call panics.
#[verifier::external_body]
fn rgba_picture(data: &[u8], width: usize, height: usize) -> (r: openh264::formats::YUVBuffer)
    requires
        width % 2 == 0,
        height % 2 == 0,
        data@.len() == width * height * 4,
{
    openh264::formats::YUVBuffer::from_rgba8_source(
        openh264::formats::RgbaSliceU8::new(data, (width, height)),
    )
}

/// Converts a picture of BGRA bytes to the codec's planar format with
/// `YUVBuffer::from_bgra8_source`. The dimensions must be even and fit
/// the data, or the call panics.
#[verifier::external_body]
fn bgra_picture(data: &[u8], width: usize, height: usize) -> (r: openh264::formats::YUVBuffer)
    requires
        width % 2 == 0,
        height % 2 == 0,
        data@.len() == width * height * 4,
{
    openh264::formats::YUVBuffer::from_bgra8_source(
        openh264::formats::BgraSliceU8::new(data, (width, height)),
    )
}

/// Tells the codec to make the next frame a keyframe
/// (`Encoder::force_intra_frame`).
#[verifier::external_body]
fn force_keyframe(codec: &mut openh264::encoder::Encoder) {
    codec.force_intra_frame();
}

/// Encodes one picture with `Encoder::encode` and copies the bit stream
/// out; a failure gives the text of the codec's error.
#[verifier::external_body]
fn encode_picture(
    codec: &mut openh264::encoder::Encoder,
    picture: &openh264::formats::YUVBuffer,
) -> (r: Result<Vec<u8>, String>) {
    match codec.encode(picture) {
        Ok(stream) => Ok(stream.to_vec()),
        Err(e) => Err(e.to_string()),
    }
}

/// One encoded frame with the note whether it is a keyframe.
#[derive(Debug)]
pub struct EncodedFrame {
    pub frame: Frame,
    pub is_keyframe: bool,
}

/// What becomes of the codec's answer for one picture: a bit stream
/// becomes the frame that carries it, with the picture's dimensions, the
/// quality in force and the given identifier and time; the codec's
/// complaint becomes a `VideoEncoding` error with the same words.
pub open spec fn frame_verdict(
    outcome: Result<Vec<u8>, String>,
    width: u32,
    height: u32,
    quality: Quality,
    is_keyframe: bool,
    id: u128,
    timestamp: u64,
    r: AgentResult<EncodedFrame>,
) -> bool {
    match outcome {
        Ok(data) => {
            &&& r matches Ok(encoded)
            &&& encoded.is_keyframe == is_keyframe
            &&& encoded.frame.id == id
            &&& encoded.frame.timestamp == timestamp
            &&& encoded.frame.width == width
            &&& encoded.frame.height == height
            &&& encoded.frame.data@ == data@
            &&& encoded.frame.format == VideoCodec::H264
            &&& encoded.frame.quality == quality
            &&& encoded.frame.compressed
        },
        Err(text) => r matches Err(e) && e.kind() == ErrorKind::VideoEncoding && e.text() == text@,
    }
}

/// Builds the result of encoding one picture from the codec's answer.
pub fn frame_from(
    outcome: Result<Vec<u8>, String>,
    width: u32,
    height: u32,
    quality: Quality,
    is_keyframe: bool,
    id: u128,
    timestamp: u64,
) -> (r: AgentResult<EncodedFrame>)
    ensures
        frame_verdict(outcome, width, height, quality, is_keyframe, id, timestamp, r),
{
    match outcome {
        Ok(data) => Ok(
            EncodedFrame {
                frame: Frame {
                    id,
                    timestamp,
                    width,
                    height,
                    data,
                    format: VideoCodec::H264,
                    quality,
                    compressed: true,
                },
                is_keyframe,
            },
        ),
        Err(text) => Err(AgentError::VideoEncoding(text)),
    }
}

/// The counters of the keyframe policy.
#[derive(Debug, Clone, Copy, PartialEq, Eq, Structural)]
pub struct KeyframeState {
    /// How many frames were presented for encoding.
    pub frame_count: u64,
    /// The number of the last keyframe; 0 before the first.
    pub last_keyframe: u64,
}

/// The counters after one more frame at the given frame rate.
pub open spec fn after_frame(state: KeyframeState, framerate: u32) -> KeyframeState {
    let number = (state.frame_count + 1) as u64;
    KeyframeState {
        frame_count: number,
        last_keyframe: if keyframe_due(number, state.last_keyframe, framerate) {
            number
        } else {
            state.last_keyframe
        },
    }
}

/// Keyframes come at least once per interval: after any frame, the last
/// keyframe lies less than one interval back, provided the interval is
/// not empty and the counters were in step before.
pub proof fn law_keyframes_recur(state: KeyframeState, framerate: u32)
    requires
        state.frame_count < u64::MAX,
        state.last_keyframe <= state.frame_count,
        keyframe_interval(framerate) > 0,
        state.frame_count - state.last_keyframe < keyframe_interval(framerate) || state.frame_count
            == 0,
    ensures
        after_frame(state, framerate).last_keyframe <= after_frame(state, framerate).frame_count,
        after_frame(state, framerate).frame_count - after_frame(state, framerate).last_keyframe
            < keyframe_interval(framerate),
{
}

/// The video encoder.
pub struct VideoEncoder {
    config: CaptureConfig,
    codec: Option<openh264::encoder::Encoder>,
    state: KeyframeState,
}

impl VideoEncoder {
    /// The configuration in force.
    pub closed spec fn config(&self) -> CaptureConfig {
        self.config
    }

    /// Whether the codec is open.
    pub closed spec fn initialized(&self) -> bool {
        self.codec is Some
    }

    /// The counters of the keyframe policy.
    pub closed spec fn state(&self) -> KeyframeState {
        self.state
    }

    /// Whether a picture of these dimensions and this many bytes gets as
    /// far as the codec: the codec is open, the picture is sound, and the
    /// frame counter can go one further.
    pub open spec fn reaches_codec(&self, width: u32, height: u32, len: nat) -> bool {
        self.initialized() && picture_fault(width, height, len) is None && self.state().frame_count
            < u64::MAX
    }

    /// What a call that does not get as far as the codec reports, in the
    /// order in which the checks are made.
    pub open spec fn refusal(&self, width: u32, height: u32, len: nat, e: AgentError) -> bool {
        if !self.initialized() {
            e.kind() == ErrorKind::EncoderNotInitialized
        } else if picture_fault(width, height, len) is Some {
            e.kind() == ErrorKind::VideoEncoding && e.text() == picture_fault(width, height, len)->Some_0
        } else {
            e.kind() == ErrorKind::VideoEncoding && e.text() == counter_exhausted_text()
        }
    }

    /// The counters never run ahead of themselves.
    #[verifier::type_invariant]
    pub open spec fn wf(&self) -> bool {
        self.state().last_keyframe <= self.state().frame_count
    }

    /// An encoder whose codec is not open yet.
    pub fn new(config: CaptureConfig) -> (r: AgentResult<Self>)
        ensures
            r is Ok,
            r->Ok_0.config() == config,
            !r->Ok_0.initialized(),
            r->Ok_0.state() == (KeyframeState { frame_count: 0, last_keyframe: 0 }),
    {
        Ok(VideoEncoder { config, codec: None, state: KeyframeState { frame_count: 0, last_keyframe: 0 } })
    }

    /// Opens the codec at the bitrate of the configured quality. Where
    /// the codec refuses, its error is reported and the encoder stays as
    /// it was.
    pub fn initialize(&mut self) -> (r: AgentResult<()>)
        ensures
            r is Ok ==> final(self).initialized(),
            r matches Err(e) ==> e.kind() == ErrorKind::OpenH264 && final(self).initialized() == old(
                self,
            ).initialized(),
            final(self).config() == old(self).config(),
            final(self).state() == old(self).state(),
    {
        proof {
            use_type_invariant(&*self);
        }
        match open_codec(bitrate_for(self.config.quality)) {
            Ok(codec) => {
                self.codec = Some(codec);
                Ok(())
            },
            Err(text) => Err(AgentError::OpenH264(text)),
        }
    }

    /// Closes the codec.
    pub fn shutdown(&mut self) -> (r: AgentResult<()>)
        ensures
            r is Ok,
            !final(self).initialized(),
            final(self).config() == old(self).config(),
            final(self).state() == old(self).state(),
    {
        proof {
            use_type_invariant(&*self);
        }
        self.codec = None;
        Ok(())
    }

    /// Whether the codec is open.
    pub fn is_initialized(&self) -> (r: bool)
        ensures
            r == self.initialized(),
    {
        self.codec.is_some()
    }

    /// The target bitrate of the configured quality.
    pub fn get_bitrate(&self) -> (r: u32)
        ensures
            r == bitrate_of(self.config().quality),
    {
        bitrate_for(self.config.quality)
    }

    /// How many frames were presented for encoding.
    pub fn frame_count(&self) -> (r: u64)
        ensures
            r == self.state().frame_count,
    {
        self.state.frame_count
    }

    /// Changes the quality. An open codec is opened anew at the new
    /// bitrate; if that fails, the error is reported and the old codec
    /// and quality stay.
    pub fn set_quality(&mut self, quality: Quality) -> (r: AgentResult<()>)
        ensures
            r is Ok ==> final(self).config() == (CaptureConfig { quality, ..old(self).config() }),
            r matches Err(e) ==> e.kind() == ErrorKind::OpenH264 && final(self).config() == old(
                self,
            ).config(),
            !old(self).initialized() ==> r is Ok,
            final(self).initialized() == old(self).initialized(),
            final(self).state() == old(self).state(),
    {
        proof {
            use_type_invariant(&*self);
        }
        if self.codec.is_some() {
            match open_codec(bitrate_for(quality)) {
                Ok(codec) => {
                    self.codec = Some(codec);
                },
                Err(text) => {
                    return Err(AgentError::OpenH264(text));
                },
            }
        }
        self.config.quality = quality;
        Ok(())
    }

    /// Changes the frame rate, which sets the distance of the keyframes.
    pub fn set_framerate(&mut self, framerate: u32)
        ensures
            final(self).config() == (CaptureConfig { framerate, ..old(self).config() }),
            final(self).initialized() == old(self).initialized(),
            final(self).state() == old(self).state(),
    {
        proof {
            use_type_invariant(&*self);
        }
        self.config.framerate = framerate;
    }

    /// Checks a picture's dimensions against its data and the codec's
    /// limits.
    pub fn check_picture(width: u32, height: u32, len: usize) -> (r: AgentResult<()>)
        ensures
            match picture_fault(width, height, len as nat) {
                None => r is Ok,
                Some(fault) => r is Err && r->Err_0.kind() == ErrorKind::VideoEncoding
                    && r->Err_0.text() == fault,
            },
    {
        if width == 0 || height == 0 || width % 2 != 0 || height % 2 != 0 {
            return Err(
                AgentError::VideoEncoding(String::from_str("Frame dimensions must be even and not zero")),
            );
        }
        if width > MAX_LONG_SIDE || height > MAX_LONG_SIDE || (width > MAX_SHORT_SIDE && height
            > MAX_SHORT_SIDE) {
            return Err(AgentError::VideoEncoding(String::from_str("Frame is larger than the codec allows")));
        }
        assert(width as u64 * height as u64 <= 3840 * 3840) by (nonlinear_arith)
            requires
                width <= 3840,
                height <= 3840,
        ;
        let expected: u64 = (width as u64) * (height as u64) * 4;
        if len as u64 != expected {
            return Err(
                AgentError::VideoEncoding(String::from_str("Frame data does not match its dimensions")),
            );
        }
        Ok(())
    }

    /// Counts one more frame and says whether it is a keyframe.
    fn advance(&mut self) -> (r: bool)
        requires
            old(self).state().frame_count < u64::MAX,
        ensures
            final(self).state() == after_frame(old(self).state(), old(self).config().framerate),
            r == keyframe_due(
                (old(self).state().frame_count + 1) as u64,
                old(self).state().last_keyframe,
                old(self).config().framerate,
            ),
            final(self).config() == old(self).config(),
            final(self).initialized() == old(self).initialized(),
    {
        proof {
            use_type_invariant(&*self);
        }
        let number = self.state.frame_count + 1;
        let interval: u64 = (self.config.framerate as u64) * KEYFRAME_SECONDS;
        let due = number == 1 || number - self.state.last_keyframe >= interval;
        let state = KeyframeState {
            frame_count: number,
            last_keyframe: if due {
                number
            } else {
                self.state.last_keyframe
            },
        };
        self.state = state;
        due
    }

    /// Encodes one captured frame. The frame is counted, the keyframe
    /// policy decides whether a keyframe is forced, the picture is
    /// converted to the codec's planar format and handed to the codec.
    ///
    /// Fails with `EncoderNotInitialized` before `initialize`, with a
    /// `VideoEncoding` error for a picture the codec cannot take, and
    /// with the codec's own error; the caller skips the frame and goes
    /// on. A frame that is refused before the codec sees it is not
    /// counted.
    pub fn encode(&mut self, raw: &RawFrame) -> (r: AgentResult<EncodedFrame>)
        ensures
            !old(self).reaches_codec(raw.width, raw.height, raw.data@.len()) ==> r is Err && old(
                self,
            ).refusal(raw.width, raw.height, raw.data@.len(), r->Err_0) && final(self).state()
                == old(self).state(),
            old(self).reaches_codec(raw.width, raw.height, raw.data@.len()) ==> final(self).state()
                == after_frame(old(self).state(), old(self).config().framerate) && exists|
                outcome: Result<Vec<u8>, String>,
                id: u128,
                timestamp: u64,
            |
                #[trigger] frame_verdict(
                    outcome,
                    raw.width,
                    raw.height,
                    old(self).config().quality,
                    keyframe_due(
                        (old(self).state().frame_count + 1) as u64,
                        old(self).state().last_keyframe,
                        old(self).config().framerate,
                    ),
                    id,
                    timestamp,
                    r,
                ),
            r matches Ok(encoded) ==> {
                &&& old(self).reaches_codec(raw.width, raw.height, raw.data@.len())
                &&& encoded.is_keyframe == keyframe_due(
                    (old(self).state().frame_count + 1) as u64,
                    old(self).state().last_keyframe,
                    old(self).config().framerate,
                )
                &&& encoded.frame.width == raw.width
                &&& encoded.frame.height == raw.height
                &&& encoded.frame.format == VideoCodec::H264
                &&& encoded.frame.quality == old(self).config().quality
                &&& encoded.frame.compressed
            },
            r matches Err(e) ==> e.kind() == ErrorKind::EncoderNotInitialized || e.kind()
                == ErrorKind::VideoEncoding,
            r matches Err(e) && e.kind() == ErrorKind::EncoderNotInitialized ==> !old(
                self,
            ).initialized(),
            final(self).config() == old(self).config(),
            final(self).initialized() == old(self).initialized(),
    {
        proof {
            use_type_invariant(&*self);
        }
        if self.codec.is_none() {
            return Err(AgentError::EncoderNotInitialized);
        }
        match Self::check_picture(raw.width, raw.height, raw.data.len()) {
            Ok(()) => {},
            Err(e) => {
                return Err(e);
            },
        }
        if self.state.frame_count == u64::MAX {
            return Err(AgentError::VideoEncoding(String::from_str("Frame counter is exhausted")));
        }
        let is_keyframe = self.advance();
        let width = raw.width as usize;
        let height = raw.height as usize;
        assert(width * height * 4 == raw.data@.len()) by (nonlinear_arith)
            requires
                width == raw.width,
                height == raw.height,
                raw.data@.len() == raw.width as nat * raw.height as nat * 4,
        ;
        let picture = match raw.pixel_format {
            PixelFormat::Rgba => rgba_picture(raw.data.as_slice(), width, height),
            PixelFormat::Bgra => bgra_picture(raw.data.as_slice(), width, height),
        };
        let mut codec_slot: Option<openh264::encoder::Encoder> = None;
        std::mem::swap(&mut codec_slot, &mut self.codec);
        let mut codec = codec_slot.unwrap();
        if is_keyframe {
            force_keyframe(&mut codec);
        }
        let outcome = encode_picture(&mut codec, &picture);
        self.codec = Some(codec);
        let id = random_uuid_value();
        let timestamp = get_timestamp();
        let ghost answer = outcome;
        let r = frame_from(outcome, raw.width, raw.height, self.config.quality, is_keyframe, id, timestamp);
        assert(frame_verdict(
            answer,
            raw.width,
            raw.height,
            self.config.quality,
            is_keyframe,
            id,
            timestamp,
            r,
        ));
        r
    }

    /// Encodes one picture of RGBA bytes with the given dimensions and
    /// returns the bit stream.
    pub fn encode_frame(&mut self, rgba_data: Vec<u8>, width: u32, height: u32) -> (r: AgentResult<Vec<u8>>)
        ensures
            !old(self).reaches_codec(width, height, rgba_data@.len()) ==> r is Err && old(
                self,
            ).refusal(width, height, rgba_data@.len(), r->Err_0) && final(self).state() == old(
                self,
            ).state(),
            old(self).reaches_codec(width, height, rgba_data@.len()) ==> final(self).state()
                == after_frame(old(self).state(), old(self).config().framerate),
            r is Ok ==> old(self).reaches_codec(width, height, rgba_data@.len()),
            r matches Err(e) ==> e.kind() == ErrorKind::EncoderNotInitialized || e.kind()
                == ErrorKind::VideoEncoding,
            r matches Err(e) && e.kind() == ErrorKind::EncoderNotInitialized ==> !old(
                self,
            ).initialized(),
            final(self).config() == old(self).config(),
            final(self).initialized() == old(self).initialized(),
    {
        match self.encode_frame_to_frame(rgba_data, width, height) {
            Ok(frame) => Ok(frame.data),
            Err(e) => Err(e),
        }
    }

    /// Encodes one picture of RGBA bytes with the given dimensions into
    /// a frame.
    pub fn encode_frame_to_frame(&mut self, rgba_data: Vec<u8>, width: u32, height: u32) -> (r: AgentResult<
        Frame,
    >)
        ensures
            !old(self).reaches_codec(width, height, rgba_data@.len()) ==> r is Err && old(
                self,
            ).refusal(width, height, rgba_data@.len(), r->Err_0) && final(self).state() == old(
                self,
            ).state(),
            old(self).reaches_codec(width, height, rgba_data@.len()) ==> final(self).state()
                == after_frame(old(self).state(), old(self).config().framerate),
            r matches Ok(frame) ==> old(self).reaches_codec(width, height, rgba_data@.len())
                && frame.width == width && frame.height == height && frame.format
                == VideoCodec::H264 && frame.quality == old(self).config().quality
                && frame.compressed,
            r matches Err(e) ==> e.kind() == ErrorKind::EncoderNotInitialized || e.kind()
                == ErrorKind::VideoEncoding,
            r matches Err(e) && e.kind() == ErrorKind::EncoderNotInitialized ==> !old(
                self,
            ).initialized(),
            final(self).config() == old(self).config(),
            final(self).initialized() == old(self).initialized(),
    {
        let raw = RawFrame {
            width,
            height,
            pixel_format: PixelFormat::Rgba,
            data: rgba_data,
            display_id: 0,
            capture_timestamp: 0,
        };
        match self.encode(&raw) {
            Ok(encoded) => Ok(encoded.frame),
            Err(e) => Err(e),
        }
    }
}

} // verus!
