//! The capture pipeline's pacing: when a frame is due, what to do with
//! each answer of the capture backend, and the metrics kept on the way.
//! The caller owns the backend and the clock; it asks `tick` what to do,
//! does it, and reports back.

use vstd::prelude::*;
use vstd::string::*;
use crate::config::CaptureConfig;
use crate::error::{AgentError, AgentResult, ErrorKind};
use crate::types::{Display, Metrics, Quality, RawFrame};

verus! {

/// How long one call of the capture backend may wait, in milliseconds.
pub const CAPTURE_TIMEOUT_MS: u64 = 50;

/// How long the pipeline rests when no frame is due, in milliseconds.
pub const IDLE_WAIT_MS: u64 = 1;

/// How long the pipeline backs off after a backend error unless told
/// otherwise, in milliseconds.
pub const DEFAULT_RETRY_DELAY_MS: u64 = 100;

/// The count of consecutive timeouts is not carried beyond this.
pub const SOFT_MISS_THRESHOLD: u32 = 10;

/// So many failures in a row to create a capture context are fatal.
pub const MAX_CONTEXT_FAILURES: u32 = 3;

/// What the capture backend answered to one call.
#[derive(Debug)]
pub enum CaptureOutcome {
    /// A frame was captured.
    Frame(RawFrame),
    /// No frame arrived in time.
    Timeout,
    /// The capture surface became invalid.
    Lost,
    /// Any other failure.
    Error(AgentError),
}

/// The kinds of answer of the capture backend.
#[derive(Debug, Clone, Copy, PartialEq, Eq, Structural)]
pub enum OutcomeKind {
    Frame,
    Timeout,
    Lost,
    Error,
}

impl CaptureOutcome {
    /// The kind of this answer.
    pub open spec fn kind(self) -> OutcomeKind {
        match self {
            CaptureOutcome::Frame(_) => OutcomeKind::Frame,
            CaptureOutcome::Timeout => OutcomeKind::Timeout,
            CaptureOutcome::Lost => OutcomeKind::Lost,
            CaptureOutcome::Error(_) => OutcomeKind::Error,
        }
    }
}

/// What the pipeline is to do next.
#[derive(Debug, Clone, Copy, PartialEq, Eq, Structural)]
pub enum CaptureStep {
    /// Call the capture backend once, waiting at most this long.
    Capture { timeout_ms: u64 },
    /// No frame is due: rest this long, then ask again.
    Wait { millis: u64 },
    /// The pipeline is stopped: end the task.
    Stop,
}

/// What is to be done with an answer of the capture backend.
#[derive(Debug)]
pub enum CaptureReaction {
    /// Hand this frame to the sink, then report whether it was taken.
    Deliver(RawFrame),
    /// Nothing arrived: ask again at the next tick.
    Retry,
    /// Create the backend's capture context anew, then ask again.
    Recreate,
    /// Rest this long, then ask again.
    Backoff { millis: u64 },
    /// The pipeline is stopped: the answer is dropped.
    Discard,
}

/// The kinds of reaction.
#[derive(Debug, Clone, Copy, PartialEq, Eq, Structural)]
pub enum ReactionKind {
    Deliver,
    Retry,
    Recreate,
    Backoff { millis: u64 },
    Discard,
}

impl CaptureReaction {
    /// The kind of this reaction.
    pub open spec fn kind(self) -> ReactionKind {
        match self {
            CaptureReaction::Deliver(_) => ReactionKind::Deliver,
            CaptureReaction::Retry => ReactionKind::Retry,
            CaptureReaction::Recreate => ReactionKind::Recreate,
            CaptureReaction::Backoff { millis } => ReactionKind::Backoff { millis },
            CaptureReaction::Discard => ReactionKind::Discard,
        }
    }
}

/// The moving parts of the pipeline. Times are milliseconds of the
/// caller's clock.
#[derive(Debug, Clone, Copy, PartialEq, Eq, Structural)]
pub struct PipelineState {
    pub capturing: bool,
    pub has_sink: bool,
    /// When the last delivered frame was due.
    pub last_frame_time: u64,
    pub frames_captured: u64,
    /// Timeouts in a row, counted up to the soft threshold.
    pub misses: u32,
    /// Failures in a row to create the capture context.
    pub context_failures: u32,
    pub metrics: Metrics,
}

/// Milliseconds between two frames at a frame rate.
pub open spec fn frame_interval(framerate: u32) -> u64
    recommends
        framerate > 0,
{
    (1000int / framerate as int) as u64
}

/// The frame rate that an interval stands for, in thousandths of a frame
/// per second; the largest number where the interval is zero.
pub open spec fn paced_fps(framerate: u32) -> u32
    recommends
        framerate > 0,
{
    if frame_interval(framerate) == 0 {
        u32::MAX
    } else {
        (1_000_000int / frame_interval(framerate) as int) as u32
    }
}

/// Whether a frame is due at time `now`.
pub open spec fn frame_due(state: PipelineState, framerate: u32, now: u64) -> bool {
    now >= state.last_frame_time && now - state.last_frame_time >= frame_interval(framerate)
}

/// What the pipeline is to do at time `now`.
pub open spec fn step_at(state: PipelineState, framerate: u32, now: u64) -> CaptureStep {
    if !state.capturing {
        CaptureStep::Stop
    } else if frame_due(state, framerate, now) {
        CaptureStep::Capture { timeout_ms: CAPTURE_TIMEOUT_MS }
    } else {
        CaptureStep::Wait { millis: IDLE_WAIT_MS }
    }
}

/// `n + 1`, or `n` where that would not fit.
pub open spec fn bumped(n: u32) -> u32 {
    if n < u32::MAX {
        (n + 1) as u32
    } else {
        n
    }
}

/// The state after an answer of the capture backend.
pub open spec fn after_outcome(state: PipelineState, kind: OutcomeKind) -> PipelineState {
    if !state.capturing {
        state
    } else {
        match kind {
            OutcomeKind::Frame => PipelineState { misses: 0, context_failures: 0, ..state },
            OutcomeKind::Timeout => PipelineState {
                misses: if state.misses < SOFT_MISS_THRESHOLD {
                    (state.misses + 1) as u32
                } else {
                    state.misses
                },
                ..state
            },
            OutcomeKind::Lost | OutcomeKind::Error => PipelineState {
                metrics: Metrics { frame_drops: bumped(state.metrics.frame_drops), ..state.metrics },
                ..state
            },
        }
    }
}

/// What is to be done with an answer of the capture backend.
pub open spec fn reaction_to(state: PipelineState, kind: OutcomeKind, retry_delay_ms: u64) -> ReactionKind {
    if !state.capturing {
        ReactionKind::Discard
    } else {
        match kind {
            OutcomeKind::Frame => ReactionKind::Deliver,
            OutcomeKind::Timeout => ReactionKind::Retry,
            OutcomeKind::Lost => ReactionKind::Recreate,
            OutcomeKind::Error => ReactionKind::Backoff { millis: retry_delay_ms },
        }
    }
}

/// The state after the sink has been offered the frame that was due at
/// `tick_time`: a frame that was taken is counted and paces the next one;
/// a sink that is gone ends the capture.
pub open spec fn after_delivery(state: PipelineState, framerate: u32, tick_time: u64, delivered: bool) -> PipelineState {
    if !state.capturing {
        state
    } else if delivered {
        PipelineState {
            last_frame_time: tick_time,
            frames_captured: if state.frames_captured < u64::MAX {
                (state.frames_captured + 1) as u64
            } else {
                state.frames_captured
            },
            metrics: Metrics { fps: paced_fps(framerate), ..state.metrics },
            ..state
        }
    } else {
        PipelineState { capturing: false, ..state }
    }
}

/// The state after the frame that was due at `tick_time` could not be
/// encoded: the frame is skipped and counted as dropped, the next one is
/// paced from `tick_time`, and the capture goes on.
pub open spec fn after_skip(state: PipelineState, tick_time: u64) -> PipelineState {
    if !state.capturing {
        state
    } else {
        PipelineState {
            last_frame_time: tick_time,
            metrics: Metrics { frame_drops: bumped(state.metrics.frame_drops), ..state.metrics },
            ..state
        }
    }
}

/// The state after an attempt to create the capture context: success
/// clears the count of failures; the last allowed failure in a row ends
/// the capture.
pub open spec fn after_context(state: PipelineState, created: bool) -> PipelineState {
    if created {
        PipelineState { context_failures: 0, ..state }
    } else if state.context_failures + 1 >= MAX_CONTEXT_FAILURES {
        PipelineState { context_failures: MAX_CONTEXT_FAILURES, capturing: false, ..state }
    } else {
        PipelineState { context_failures: (state.context_failures + 1) as u32, ..state }
    }
}

/// Whether an attempt to create the capture context was the fatal one.
pub open spec fn context_fatal(state: PipelineState, created: bool) -> bool {
    !created && state.context_failures + 1 >= MAX_CONTEXT_FAILURES
}

/// A lost capture surface, a timeout or a backend error never ends the
/// capture: a capturing pipeline is still capturing afterwards, and as
/// soon as a frame is due it asks the backend again.
pub proof fn law_capture_survives_backend_trouble(
    state: PipelineState,
    framerate: u32,
    kind: OutcomeKind,
    now: u64,
)
    requires
        state.capturing,
        framerate > 0,
    ensures
        after_outcome(state, kind).capturing,
        after_outcome(state, kind).last_frame_time == state.last_frame_time,
        frame_due(state, framerate, now) ==> step_at(after_outcome(state, kind), framerate, now)
            == (CaptureStep::Capture { timeout_ms: CAPTURE_TIMEOUT_MS }),
{
}

/// A frame that cannot be encoded never ends the capture: it is counted
/// as dropped and not as captured, and the next frame is asked for one
/// interval later.
pub proof fn law_capture_survives_encoder_trouble(state: PipelineState, framerate: u32, tick_time: u64, now: u64)
    requires
        state.capturing,
        framerate > 0,
        now >= tick_time,
    ensures
        after_skip(state, tick_time).capturing,
        after_skip(state, tick_time).frames_captured == state.frames_captured,
        after_skip(state, tick_time).metrics.frame_drops == bumped(state.metrics.frame_drops),
        step_at(after_skip(state, tick_time), framerate, now) == if now - tick_time >= frame_interval(
            framerate,
        ) {
            CaptureStep::Capture { timeout_ms: CAPTURE_TIMEOUT_MS }
        } else {
            CaptureStep::Wait { millis: IDLE_WAIT_MS }
        },
{
}

/// Frames are paced: after a delivered frame, no capture is asked for
/// before a whole interval has passed, and one is asked for as soon as it
/// has.
pub proof fn law_frames_are_paced(state: PipelineState, framerate: u32, tick_time: u64, now: u64)
    requires
        state.capturing,
        framerate > 0,
        now >= tick_time,
    ensures
        ({
            let next = after_delivery(state, framerate, tick_time, true);
            step_at(next, framerate, now) == if now - tick_time >= frame_interval(framerate) {
                CaptureStep::Capture { timeout_ms: CAPTURE_TIMEOUT_MS }
            } else {
                CaptureStep::Wait { millis: IDLE_WAIT_MS }
            }
        }),
{
}

/// The state after a tick at time `now` of a pipeline whose backend hands
/// over a frame whenever one is asked for and whose sink takes it.
pub open spec fn after_smooth_tick(state: PipelineState, framerate: u32, now: u64) -> PipelineState {
    if frame_due(state, framerate, now) {
        after_delivery(after_outcome(state, OutcomeKind::Frame), framerate, now, true)
    } else {
        state
    }
}

/// The state after such ticks at the given times, one after the other.
pub open spec fn after_smooth_run(state: PipelineState, framerate: u32, ticks: Seq<u64>) -> PipelineState
    decreases ticks.len(),
{
    if ticks.len() == 0 {
        state
    } else {
        after_smooth_tick(after_smooth_run(state, framerate, ticks.drop_last()), framerate, ticks.last())
    }
}

/// How many frames reach the sink in such a run.
pub open spec fn frames_in_run(state: PipelineState, framerate: u32, ticks: Seq<u64>) -> nat
    decreases ticks.len(),
{
    if ticks.len() == 0 {
        0
    } else {
        let before = after_smooth_run(state, framerate, ticks.drop_last());
        frames_in_run(state, framerate, ticks.drop_last()) + if frame_due(before, framerate, ticks.last()) {
            1nat
        } else {
            0nat
        }
    }
}

/// Ticks that follow one another from `start` on, each no more than
/// `jitter` after the one before.
pub open spec fn steady_ticks(ticks: Seq<u64>, start: u64, jitter: u64) -> bool {
    forall|i: int|
        0 <= i < ticks.len() ==> {
            let before = if i == 0 {
                start
            } else {
                ticks[i - 1]
            };
            before <= #[trigger] ticks[i] && ticks[i] - before <= jitter
        }
}

/// The longest that two frames of a smooth run lie apart.
pub open spec fn longest_gap(framerate: u32, jitter: u64) -> int {
    if frame_interval(framerate) == 0 {
        jitter as int
    } else {
        frame_interval(framerate) + jitter - 1
    }
}

/// The longest that the end of a smooth run lies after its last frame.
pub open spec fn longest_tail(framerate: u32) -> int {
    if frame_interval(framerate) == 0 {
        0
    } else {
        frame_interval(framerate) - 1
    }
}

/// Over any window of a smooth run the number of frames that reach the
/// sink follows the frame rate: the frames lie at least one interval
/// apart, and no further apart than the interval and the jitter of the
/// ticks allow. Each of them is counted, and the metrics show the paced
/// rate.
pub proof fn law_frames_follow_the_rate(state: PipelineState, framerate: u32, ticks: Seq<u64>, jitter: u64)
    requires
        state.capturing,
        framerate > 0,
        steady_ticks(ticks, state.last_frame_time, jitter),
        state.frames_captured + ticks.len() <= u64::MAX,
    ensures
        ({
            let end = after_smooth_run(state, framerate, ticks);
            let frames = frames_in_run(state, framerate, ticks);
            let now = if ticks.len() == 0 {
                state.last_frame_time
            } else {
                ticks.last()
            };
            let window = now - state.last_frame_time;
            &&& end.capturing
            &&& state.last_frame_time <= end.last_frame_time <= now
            &&& frames <= ticks.len()
            &&& frames * frame_interval(framerate) <= end.last_frame_time - state.last_frame_time
            &&& frames * frame_interval(framerate) <= window
            &&& window <= frames * longest_gap(framerate, jitter) + longest_tail(framerate)
            &&& end.frames_captured == state.frames_captured + frames
            &&& frames > 0 ==> end.metrics.fps == paced_fps(framerate)
        }),
{
    lemma_smooth_run(state, framerate, ticks, jitter);
}

/// What holds after every tick of a smooth run.
proof fn lemma_smooth_run(state: PipelineState, framerate: u32, ticks: Seq<u64>, jitter: u64)
    requires
        state.capturing,
        framerate > 0,
        steady_ticks(ticks, state.last_frame_time, jitter),
        state.frames_captured + ticks.len() <= u64::MAX,
    ensures
        ({
            let end = after_smooth_run(state, framerate, ticks);
            let frames = frames_in_run(state, framerate, ticks);
            let now = if ticks.len() == 0 {
                state.last_frame_time
            } else {
                ticks.last()
            };
            &&& end.capturing
            &&& state.last_frame_time <= end.last_frame_time <= now
            &&& frames <= ticks.len()
            &&& frames * frame_interval(framerate) <= end.last_frame_time - state.last_frame_time
            &&& end.last_frame_time - state.last_frame_time <= frames * longest_gap(framerate, jitter)
            &&& now - end.last_frame_time <= longest_tail(framerate)
            &&& end.frames_captured == state.frames_captured + frames
            &&& frames > 0 ==> end.metrics.fps == paced_fps(framerate)
        }),
    decreases ticks.len(),
{
    if ticks.len() > 0 {
        let front = ticks.drop_last();
        let now = ticks.last();
        assert(steady_ticks(front, state.last_frame_time, jitter)) by {
            assert forall|i: int| 0 <= i < front.len() implies ({
                let before = if i == 0 {
                    state.last_frame_time
                } else {
                    front[i - 1]
                };
                before <= #[trigger] front[i] && front[i] - before <= jitter
            }) by {
                assert(front[i] == ticks[i]);
                if i > 0 {
                    assert(front[i - 1] == ticks[i - 1]);
                }
            }
        }
        lemma_smooth_run(state, framerate, front, jitter);
        let before = after_smooth_run(state, framerate, front);
        let n = frames_in_run(state, framerate, front);
        let interval = frame_interval(framerate) as int;
        let gap = longest_gap(framerate, jitter);
        let previous = if front.len() == 0 {
            state.last_frame_time
        } else {
            front.last()
        };
        assert(previous <= now && now - previous <= jitter) by {
            assert(ticks[ticks.len() - 1] == now);
            if front.len() > 0 {
                assert(front.last() == ticks[ticks.len() - 2]);
            }
        }
        if frame_due(before, framerate, now) {
            assert((n + 1) * interval == n * interval + interval) by (nonlinear_arith);
            assert((n + 1) * gap == n * gap + gap) by (nonlinear_arith);
        }
    }
}

/// At thirty frames a second, with a tick every millisecond, exactly
/// thirty frames reach the sink in any second that begins with a frame,
/// and the metrics show 30.303 frames a second, the rate of one frame
/// every 33 milliseconds.
pub proof fn law_thirty_frames_in_a_second(state: PipelineState, ticks: Seq<u64>)
    requires
        state.capturing,
        steady_ticks(ticks, state.last_frame_time, IDLE_WAIT_MS),
        ticks.len() > 0,
        ticks.last() - state.last_frame_time == 1000,
        state.frames_captured + ticks.len() <= u64::MAX,
    ensures
        frames_in_run(state, 30, ticks) == 30,
        after_smooth_run(state, 30, ticks).frames_captured == state.frames_captured + 30,
        after_smooth_run(state, 30, ticks).metrics.fps == 30303,
{
    law_frames_follow_the_rate(state, 30, ticks, IDLE_WAIT_MS);
    let frames = frames_in_run(state, 30, ticks);
    assert(frame_interval(30) == 33);
    assert(longest_gap(30, IDLE_WAIT_MS) == 33);
    assert(longest_tail(30) == 32);
    assert(frames * 33 <= 1000);
    assert(1000 <= frames * 33 + 32);
}

/// Once stopped, the pipeline neither asks for frames nor hands any on.
pub proof fn law_stopped_pipeline_is_silent(state: PipelineState, framerate: u32, kind: OutcomeKind, now: u64)
    requires
        !state.capturing,
    ensures
        step_at(state, framerate, now) == CaptureStep::Stop,
        reaction_to(state, kind, DEFAULT_RETRY_DELAY_MS) == ReactionKind::Discard,
        after_outcome(state, kind) == state,
{
}

/// The capture pipeline.
pub struct CaptureManager {
    config: CaptureConfig,
    displays: Vec<Display>,
    state: PipelineState,
    retry_delay_ms: u64,
}

impl CaptureManager {
    /// The configuration in force.
    pub closed spec fn config(self) -> CaptureConfig {
        self.config
    }

    /// The displays found by the last discovery pass.
    pub closed spec fn displays(self) -> Seq<Display> {
        self.displays@
    }

    /// The moving parts.
    pub closed spec fn state(self) -> PipelineState {
        self.state
    }

    /// How long the pipeline backs off after a backend error.
    pub closed spec fn retry_delay_ms(self) -> u64 {
        self.retry_delay_ms
    }

    /// While capturing, the frame rate is not zero.
    #[verifier::type_invariant]
    pub open spec fn wf(self) -> bool {
        self.state().capturing ==> self.config().framerate > 0
    }

    /// The state of a pipeline that has not been started.
    pub open spec fn idle() -> PipelineState {
        PipelineState {
            capturing: false,
            has_sink: false,
            last_frame_time: 0,
            frames_captured: 0,
            misses: 0,
            context_failures: 0,
            metrics: Metrics::zero(),
        }
    }

    /// A pipeline that is not capturing yet.
    pub fn new(config: CaptureConfig) -> (r: AgentResult<Self>)
        ensures
            r is Ok,
            r->Ok_0.config() == config,
            r->Ok_0.displays() == Seq::<Display>::empty(),
            r->Ok_0.state() == Self::idle(),
            r->Ok_0.retry_delay_ms() == DEFAULT_RETRY_DELAY_MS,
    {
        Ok(
            CaptureManager {
                config,
                displays: Vec::new(),
                state: PipelineState {
                    capturing: false,
                    has_sink: false,
                    last_frame_time: 0,
                    frames_captured: 0,
                    misses: 0,
                    context_failures: 0,
                    metrics: Metrics::default(),
                },
                retry_delay_ms: DEFAULT_RETRY_DELAY_MS,
            },
        )
    }

    /// The display reported where a platform cannot enumerate displays:
    /// one primary display of 1920 by 1080 at 60 Hz.
    pub fn fallback_display() -> (r: Display)
        ensures
            r.id == 0,
            r.name@ == "Primary Display"@,
            r.width == 1920,
            r.height == 1080,
            r.x == 0,
            r.y == 0,
            r.is_primary,
            r.refresh_rate == 60,
    {
        Display {
            id: 0,
            name: String::from_str("Primary Display"),
            width: 1920,
            height: 1080,
            x: 0,
            y: 0,
            is_primary: true,
            refresh_rate: 60,
        }
    }

    /// Notes whether a sink for the captured frames is attached.
    pub fn set_frame_sender(&mut self, attached: bool)
        ensures
            final(self).state() == (PipelineState { has_sink: attached, ..old(self).state() }),
            final(self).config() == old(self).config(),
            final(self).displays() == old(self).displays(),
            final(self).retry_delay_ms() == old(self).retry_delay_ms(),
    {
        proof {
            use_type_invariant(&*self);
        }
        self.state.has_sink = attached;
    }

    /// Sets how long the pipeline backs off after a backend error.
    pub fn set_retry_delay(&mut self, millis: u64)
        ensures
            final(self).retry_delay_ms() == millis,
            final(self).state() == old(self).state(),
            final(self).config() == old(self).config(),
            final(self).displays() == old(self).displays(),
    {
        proof {
            use_type_invariant(&*self);
        }
        self.retry_delay_ms = millis;
    }

    /// Replaces the known displays by the result of a discovery pass.
    pub fn set_displays(&mut self, displays: Vec<Display>)
        ensures
            final(self).displays() == displays@,
            final(self).state() == old(self).state(),
            final(self).config() == old(self).config(),
            final(self).retry_delay_ms() == old(self).retry_delay_ms(),
    {
        proof {
            use_type_invariant(&*self);
        }
        self.displays = displays;
    }

    /// Why the pipeline cannot start capturing, if it cannot.
    pub open spec fn start_fault(self) -> Option<Seq<char>> {
        if !self.config().video {
            None
        } else if !self.state().has_sink {
            Some("Frame sender not set"@)
        } else if self.config().framerate == 0 {
            Some("Framerate cannot be 0"@)
        } else {
            None
        }
    }

    /// Starts the pipeline at time `now` with the displays that the
    /// backend has found. Where video is enabled, capture begins, paced
    /// from `now`; this needs a frame sink and a frame rate above zero.
    pub fn start(&mut self, displays: Vec<Display>, now: u64) -> (r: AgentResult<()>)
        ensures
            final(self).displays() == displays@,
            final(self).config() == old(self).config(),
            final(self).retry_delay_ms() == old(self).retry_delay_ms(),
            match old(self).start_fault() {
                Some(fault) => r is Err && r->Err_0.kind() == ErrorKind::Config && r->Err_0.text()
                    == fault && final(self).state() == old(self).state(),
                None => r is Ok && final(self).state() == if old(self).config().video {
                    PipelineState {
                        capturing: true,
                        last_frame_time: now,
                        misses: 0,
                        context_failures: 0,
                        ..old(self).state()
                    }
                } else {
                    old(self).state()
                },
            },
    {
        proof {
            use_type_invariant(&*self);
        }
        self.displays = displays;
        if !self.config.video {
            return Ok(());
        }
        if !self.state.has_sink {
            return Err(AgentError::Config(String::from_str("Frame sender not set")));
        }
        if self.config.framerate == 0 {
            return Err(AgentError::Config(String::from_str("Framerate cannot be 0")));
        }
        let state = PipelineState {
            capturing: true,
            last_frame_time: now,
            misses: 0,
            context_failures: 0,
            ..self.state
        };
        self.state = state;
        Ok(())
    }

    /// Stops the pipeline. From now on `tick` answers `Stop` and every
    /// answer of the backend is discarded.
    pub fn stop(&mut self) -> (r: AgentResult<()>)
        ensures
            r is Ok,
            final(self).state() == (PipelineState { capturing: false, ..old(self).state() }),
            final(self).config() == old(self).config(),
            final(self).displays() == old(self).displays(),
            final(self).retry_delay_ms() == old(self).retry_delay_ms(),
    {
        proof {
            use_type_invariant(&*self);
        }
        self.state.capturing = false;
        Ok(())
    }

    /// Whether the pipeline is capturing.
    pub fn is_capturing(&self) -> (r: bool)
        ensures
            r == self.state().capturing,
    {
        self.state.capturing
    }

    /// How many frames were delivered.
    pub fn frames_captured(&self) -> (r: u64)
        ensures
            r == self.state().frames_captured,
    {
        self.state.frames_captured
    }

    /// The displays found by the last discovery pass.
    pub fn get_displays(&self) -> (r: Vec<Display>)
        ensures
            r@ == self.displays(),
    {
        let mut out: Vec<Display> = Vec::new();
        let mut i: usize = 0;
        while i < self.displays.len()
            invariant
                i <= self.displays@.len(),
                out@ == self.displays@.take(i as int),
            decreases self.displays.len() - i,
        {
            out.push(self.displays[i].clone());
            assert(self.displays@.take(i + 1) =~= self.displays@.take(i as int).push(
                self.displays@[i as int],
            ));
            i += 1;
        }
        assert(self.displays@.take(i as int) =~= self.displays@);
        out
    }

    /// The capture metrics.
    pub fn get_metrics(&self) -> (r: AgentResult<Metrics>)
        ensures
            r == Ok::<Metrics, AgentError>(self.state().metrics),
    {
        Ok(self.state.metrics)
    }

    /// The configuration in force.
    pub fn get_config(&self) -> (r: CaptureConfig)
        ensures
            r == self.config(),
    {
        self.config
    }

    /// Sets the quality; it holds from the next capture on.
    pub fn set_quality(&mut self, quality: Quality) -> (r: AgentResult<()>)
        ensures
            r is Ok,
            final(self).config() == (CaptureConfig { quality, ..old(self).config() }),
            final(self).state() == old(self).state(),
            final(self).displays() == old(self).displays(),
            final(self).retry_delay_ms() == old(self).retry_delay_ms(),
    {
        proof {
            use_type_invariant(&*self);
        }
        self.config.quality = quality;
        Ok(())
    }

    /// Sets the frame rate; it paces the captures from the next tick on.
    /// A frame rate of zero is refused and changes nothing.
    pub fn set_framerate(&mut self, framerate: u32) -> (r: AgentResult<()>)
        ensures
            framerate > 0 ==> r is Ok && final(self).config() == (CaptureConfig {
                framerate,
                ..old(self).config()
            }),
            framerate == 0 ==> r is Err && r->Err_0.kind() == ErrorKind::Config && r->Err_0.text()
                == "Framerate cannot be 0"@ && final(self).config() == old(self).config(),
            final(self).state() == old(self).state(),
            final(self).displays() == old(self).displays(),
            final(self).retry_delay_ms() == old(self).retry_delay_ms(),
    {
        proof {
            use_type_invariant(&*self);
        }
        if framerate == 0 {
            return Err(AgentError::Config(String::from_str("Framerate cannot be 0")));
        }
        self.config.framerate = framerate;
        Ok(())
    }

    /// Says what to do at time `now`: capture if a frame is due, rest if
    /// none is, stop if the pipeline was stopped.
    pub fn tick(&self, now: u64) -> (r: CaptureStep)
        ensures
            r == step_at(self.state(), self.config().framerate, now),
    {
        proof {
            use_type_invariant(self);
        }
        if !self.state.capturing {
            return CaptureStep::Stop;
        }
        let interval: u64 = (1000 / self.config.framerate) as u64;
        if now >= self.state.last_frame_time && now - self.state.last_frame_time >= interval {
            CaptureStep::Capture { timeout_ms: CAPTURE_TIMEOUT_MS }
        } else {
            CaptureStep::Wait { millis: IDLE_WAIT_MS }
        }
    }

    /// Takes an answer of the capture backend and says what to do with
    /// it. A frame is to be delivered. A timeout is a harmless miss. A
    /// lost surface calls for a new capture context. Any other error
    /// calls for a rest. None of them ends the capture.
    pub fn on_capture_result(&mut self, outcome: CaptureOutcome) -> (r: CaptureReaction)
        ensures
            final(self).state() == after_outcome(old(self).state(), outcome.kind()),
            r.kind() == reaction_to(old(self).state(), outcome.kind(), old(self).retry_delay_ms()),
            r matches CaptureReaction::Deliver(frame) ==> outcome == CaptureOutcome::Frame(frame),
            final(self).config() == old(self).config(),
            final(self).displays() == old(self).displays(),
            final(self).retry_delay_ms() == old(self).retry_delay_ms(),
    {
        proof {
            use_type_invariant(&*self);
        }
        if !self.state.capturing {
            return CaptureReaction::Discard;
        }
        match outcome {
            CaptureOutcome::Frame(frame) => {
                self.state.misses = 0;
                self.state.context_failures = 0;
                CaptureReaction::Deliver(frame)
            },
            CaptureOutcome::Timeout => {
                if self.state.misses < SOFT_MISS_THRESHOLD {
                    self.state.misses = self.state.misses + 1;
                }
                CaptureReaction::Retry
            },
            CaptureOutcome::Lost => {
                if self.state.metrics.frame_drops < u32::MAX {
                    self.state.metrics.frame_drops = self.state.metrics.frame_drops + 1;
                }
                CaptureReaction::Recreate
            },
            CaptureOutcome::Error(_) => {
                if self.state.metrics.frame_drops < u32::MAX {
                    self.state.metrics.frame_drops = self.state.metrics.frame_drops + 1;
                }
                CaptureReaction::Backoff { millis: self.retry_delay_ms }
            },
        }
    }

    /// Reports whether the sink took the frame that was due at
    /// `tick_time`. A frame that was taken is counted and paces the next
    /// one; a sink that is gone ends the capture.
    pub fn on_delivery(&mut self, tick_time: u64, delivered: bool)
        ensures
            final(self).state() == after_delivery(
                old(self).state(),
                old(self).config().framerate,
                tick_time,
                delivered,
            ),
            final(self).config() == old(self).config(),
            final(self).displays() == old(self).displays(),
            final(self).retry_delay_ms() == old(self).retry_delay_ms(),
    {
        proof {
            use_type_invariant(&*self);
        }
        if !self.state.capturing {
            return ;
        }
        if delivered {
            let interval: u64 = (1000 / self.config.framerate) as u64;
            let fps: u32 = if interval == 0 {
                u32::MAX
            } else {
                (1_000_000 / interval) as u32
            };
            let frames = if self.state.frames_captured < u64::MAX {
                self.state.frames_captured + 1
            } else {
                self.state.frames_captured
            };
            let state = PipelineState {
                last_frame_time: tick_time,
                frames_captured: frames,
                metrics: Metrics { fps, ..self.state.metrics },
                ..self.state
            };
            self.state = state;
        } else {
            self.state.capturing = false;
        }
    }

    /// Reports that the frame that was due at `tick_time` could not be
    /// encoded. The frame is skipped and counted as dropped; the capture
    /// goes on with the next frame.
    pub fn on_encode_failure(&mut self, tick_time: u64)
        ensures
            final(self).state() == after_skip(old(self).state(), tick_time),
            final(self).config() == old(self).config(),
            final(self).displays() == old(self).displays(),
            final(self).retry_delay_ms() == old(self).retry_delay_ms(),
    {
        proof {
            use_type_invariant(&*self);
        }
        if !self.state.capturing {
            return ;
        }
        let drops = if self.state.metrics.frame_drops < u32::MAX {
            self.state.metrics.frame_drops + 1
        } else {
            self.state.metrics.frame_drops
        };
        let state = PipelineState {
            last_frame_time: tick_time,
            metrics: Metrics { frame_drops: drops, ..self.state.metrics },
            ..self.state
        };
        self.state = state;
    }

    /// Reports whether the backend could create its capture context. One
    /// failure is borne; the third in a row ends the capture and is
    /// reported as a capture error that the agent must treat as fatal.
    pub fn on_context_result(&mut self, created: bool) -> (r: AgentResult<()>)
        ensures
            final(self).state() == after_context(old(self).state(), created),
            context_fatal(old(self).state(), created) ==> r is Err && r->Err_0.kind()
                == ErrorKind::Capture && r->Err_0.text()
                == "Capture backend could not be initialized"@,
            !context_fatal(old(self).state(), created) ==> r is Ok,
            final(self).config() == old(self).config(),
            final(self).displays() == old(self).displays(),
            final(self).retry_delay_ms() == old(self).retry_delay_ms(),
    {
        proof {
            use_type_invariant(&*self);
        }
        if created {
            self.state.context_failures = 0;
            Ok(())
        } else if self.state.context_failures >= MAX_CONTEXT_FAILURES - 1 {
            let state = PipelineState {
                context_failures: MAX_CONTEXT_FAILURES,
                capturing: false,
                ..self.state
            };
            self.state = state;
            Err(AgentError::Capture(String::from_str("Capture backend could not be initialized")))
        } else {
            self.state.context_failures = self.state.context_failures + 1;
            Ok(())
        }
    }
}

/// Status of the desktop duplication when no frame arrived in time.
pub const DXGI_ERROR_WAIT_TIMEOUT: u32 = 0x887A_0027;

/// Status of the desktop duplication when the capture surface is gone.
pub const DXGI_ERROR_ACCESS_LOST: u32 = 0x887A_0026;

/// The answer that a failed call of the desktop duplication stands for:
/// a timeout, a lost surface, or an error that quotes the platform's
/// words.
pub fn outcome_of_status(status: u32, detail: &str) -> (r: CaptureOutcome)
    ensures
        status == DXGI_ERROR_WAIT_TIMEOUT ==> r == CaptureOutcome::Timeout,
        status == DXGI_ERROR_ACCESS_LOST ==> r == CaptureOutcome::Lost,
        status != DXGI_ERROR_WAIT_TIMEOUT && status != DXGI_ERROR_ACCESS_LOST ==> r
            is Error && r->Error_0.kind() == ErrorKind::Capture && r->Error_0.text()
            == "DXGI capture failed: "@ + detail@,
{
    if status == DXGI_ERROR_WAIT_TIMEOUT {
        CaptureOutcome::Timeout
    } else if status == DXGI_ERROR_ACCESS_LOST {
        CaptureOutcome::Lost
    } else {
        CaptureOutcome::Error(AgentError::Capture(crate::text::join2("DXGI capture failed: ", detail)))
    }
}

/// The bytes of the pixel at column `x` of row `y` in red, green, blue,
/// alpha order, read from rows of `pitch` bytes that hold blue, green,
/// red, alpha; nothing where the pixel lies outside the data.
pub open spec fn pixel_rgba(data: Seq<u8>, pitch: nat, y: nat, x: nat) -> Seq<u8> {
    let at: int = (y * pitch + x * 4) as int;
    if at + 3 < data.len() {
        seq![data[at + 2], data[at + 1], data[at], data[at + 3]]
    } else {
        Seq::empty()
    }
}

/// The first `n` pixels of row `y`, converted.
pub open spec fn row_rgba(data: Seq<u8>, pitch: nat, y: nat, n: nat) -> Seq<u8>
    decreases n,
{
    if n == 0 {
        Seq::empty()
    } else {
        row_rgba(data, pitch, y, (n - 1) as nat) + pixel_rgba(data, pitch, y, (n - 1) as nat)
    }
}

/// The first `rows` rows of `width` pixels each, converted.
pub open spec fn rows_rgba(data: Seq<u8>, width: nat, pitch: nat, rows: nat) -> Seq<u8>
    decreases rows,
{
    if rows == 0 {
        Seq::empty()
    } else {
        rows_rgba(data, width, pitch, (rows - 1) as nat) + row_rgba(
            data,
            pitch,
            (rows - 1) as nat,
            width,
        )
    }
}

/// Converts a mapped surface of blue, green, red, alpha pixels, whose
/// rows are `pitch` bytes apart, into tightly packed red, green, blue,
/// alpha bytes. Pixels that lie outside the data are left out.
pub fn bgra_to_rgba(data: &[u8], width: usize, height: usize, pitch: usize) -> (r: Vec<u8>)
    ensures
        r@ == rows_rgba(data@, width as nat, pitch as nat, height as nat),
{
    let mut out: Vec<u8> = Vec::new();
    let mut y: usize = 0;
    while y < height
        invariant
            y <= height,
            out@ == rows_rgba(data@, width as nat, pitch as nat, y as nat),
        decreases height - y,
    {
        let ghost before = out@;
        assert((y as u128) * (pitch as u128) <= 0xffff_ffff_ffff_ffff * 0xffff_ffff_ffff_ffff)
            by (nonlinear_arith)
            requires
                y <= 0xffff_ffff_ffff_ffff,
                pitch <= 0xffff_ffff_ffff_ffff,
        ;
        let row: u128 = (y as u128) * (pitch as u128);
        let mut x: usize = 0;
        while x < width
            invariant
                x <= width,
                row == y * pitch,
                out@ == before + row_rgba(data@, pitch as nat, y as nat, x as nat),
            decreases width - x,
        {
            let ghost sofar = out@;
            if row < data.len() as u128 {
                let at: u128 = row + (x as u128) * 4;
                if at + 3 < data.len() as u128 {
                    let i: usize = at as usize;
                    out.push(data[i + 2]);
                    out.push(data[i + 1]);
                    out.push(data[i]);
                    out.push(data[i + 3]);
                }
            }
            assert(out@ =~= sofar + pixel_rgba(data@, pitch as nat, y as nat, x as nat));
            assert(out@ =~= before + row_rgba(data@, pitch as nat, y as nat, (x + 1) as nat));
            x += 1;
        }
        y += 1;
    }
    out
}

} // verus!
