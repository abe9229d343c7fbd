//! The agent: it owns the capture pipeline, the input and transport
//! managers and the session registry, routes inbound messages, and keeps
//! the status snapshot.

use vstd::prelude::*;
use vstd::string::*;
use crate::capture::CaptureManager;
use crate::config::Config;
use crate::encoder::bitrate_of;
use crate::encoder::bitrate_for;
use crate::error::{AgentError, AgentResult, ErrorKind};
use crate::input::InputManager;
use crate::session::{
    distinct_ids, evicted, expired, find, ids_of, survivors, texts, touched, with_session, without,
    SessionRegistry,
};
use crate::text::{
    has_prefix, lines_of, replace_all, replaced, same_text, split_lines, starts_with, trim, trim_matches,
    trimmed, trimmed_of,
};
use crate::transport::{
    after_activity, json_string_member, on_connection, read_string_member, ConnectionModel,
    TransportManager,
};
use crate::types::{
    AgentStatus, ClientCapabilities, Message, Metrics, Quality, Session, SessionStats, SystemInfo,
};
use crate::utils::{generate_session_id, unix_seconds};

verus! {

/// Seconds between two sweeps of the session registry.
pub const SESSION_SWEEP_INTERVAL_SECS: u64 = 30;

/// Seconds between two refreshes of the status snapshot.
pub const STATUS_REFRESH_INTERVAL_SECS: u64 = 5;

/// The message types the agent acts on.
#[derive(Debug, Clone, Copy, PartialEq, Eq, Structural)]
pub enum MessageKind {
    SessionCreate,
    SessionDestroy,
    InputMouse,
    InputKeyboard,
    InputTouch,
    InputWheel,
    QualitySet,
    FramerateSet,
    StatusRequest,
}

/// The kind that a message type names, if the agent knows it.
pub open spec fn message_kind_of(message_type: Seq<char>) -> Option<MessageKind> {
    if message_type == "session.create"@ {
        Some(MessageKind::SessionCreate)
    } else if message_type == "session.destroy"@ {
        Some(MessageKind::SessionDestroy)
    } else if message_type == "input.mouse"@ {
        Some(MessageKind::InputMouse)
    } else if message_type == "input.keyboard"@ {
        Some(MessageKind::InputKeyboard)
    } else if message_type == "input.touch"@ {
        Some(MessageKind::InputTouch)
    } else if message_type == "input.wheel"@ {
        Some(MessageKind::InputWheel)
    } else if message_type == "quality.set"@ {
        Some(MessageKind::QualitySet)
    } else if message_type == "framerate.set"@ {
        Some(MessageKind::FramerateSet)
    } else if message_type == "status.request"@ {
        Some(MessageKind::StatusRequest)
    } else {
        None
    }
}

/// Reads the kind of a message from its type. A type the agent does not
/// know has no kind; such a message is ignored.
pub fn message_kind(message_type: &str) -> (r: Option<MessageKind>)
    ensures
        r == message_kind_of(message_type@),
{
    if same_text(message_type, "session.create") {
        Some(MessageKind::SessionCreate)
    } else if same_text(message_type, "session.destroy") {
        Some(MessageKind::SessionDestroy)
    } else if same_text(message_type, "input.mouse") {
        Some(MessageKind::InputMouse)
    } else if same_text(message_type, "input.keyboard") {
        Some(MessageKind::InputKeyboard)
    } else if same_text(message_type, "input.touch") {
        Some(MessageKind::InputTouch)
    } else if same_text(message_type, "input.wheel") {
        Some(MessageKind::InputWheel)
    } else if same_text(message_type, "quality.set") {
        Some(MessageKind::QualitySet)
    } else if same_text(message_type, "framerate.set") {
        Some(MessageKind::FramerateSet)
    } else if same_text(message_type, "status.request") {
        Some(MessageKind::StatusRequest)
    } else {
        None
    }
}

/// The platforms the agent knows how to describe.
#[derive(Debug, Clone, Copy, PartialEq, Eq, Structural)]
pub enum Platform {
    Windows,
    Linux,
    MacOs,
    Other,
}

/// The memory assumed where it is not measured: 8 GiB.
pub const DEFAULT_MEMORY_BYTES: u64 = 8 * 1024 * 1024 * 1024;

/// The first line that begins with `prefix`, if there is one.
pub open spec fn first_with_prefix(lines: Seq<Seq<char>>, prefix: Seq<char>) -> Option<Seq<char>>
    decreases lines.len(),
{
    if lines.len() == 0 {
        None
    } else if has_prefix(lines[0], prefix) {
        Some(lines[0])
    } else {
        first_with_prefix(lines.drop_first(), prefix)
    }
}

/// The first line of `text` that begins with `prefix`, if there is one.
pub fn find_line(text: &str, prefix: &str) -> (r: Option<String>)
    ensures
        match first_with_prefix(lines_of(text@), prefix@) {
            Some(line) => r is Some && r->Some_0@ == line,
            None => r is None,
        },
{
    let lines = split_lines(text);
    let ghost all = lines_of(text@);
    let mut i: usize = 0;
    assert(all.skip(0) =~= all);
    while i < lines.len()
        invariant
            i <= lines@.len(),
            all == lines_of(text@),
            lines@.len() == all.len(),
            forall|k: int| 0 <= k < lines@.len() ==> #[trigger] lines@[k]@ == all[k],
            first_with_prefix(all, prefix@) == first_with_prefix(all.skip(i as int), prefix@),
        decreases lines.len() - i,
    {
        assert(all.skip(i as int)[0] == all[i as int]);
        assert(all.skip(i as int).drop_first() =~= all.skip(i + 1));
        assert(lines@[i as int]@ == all[i as int]);
        if starts_with(lines[i].as_str(), prefix) {
            return Some(lines[i].clone());
        }
        i += 1;
    }
    None
}

/// The version a Linux system gives itself: the value of the first
/// `PRETTY_NAME=` line of its release file, without the quotes around
/// it; `Unknown` where there is no such line.
pub open spec fn linux_version(release: Seq<char>) -> Seq<char> {
    match first_with_prefix(lines_of(release), "PRETTY_NAME="@) {
        Some(line) => trimmed_of(replaced(line, "PRETTY_NAME="@, ""@), '"'),
        None => "Unknown"@,
    }
}

/// The version a macOS system reports: the value of the first
/// `ProductVersion:` line, without the white space around it; `Unknown`
/// where there is no such line.
pub open spec fn macos_version(report: Seq<char>) -> Seq<char> {
    match first_with_prefix(lines_of(report), "ProductVersion:"@) {
        Some(line) => trimmed(replaced(line, "ProductVersion:"@, ""@)),
        None => "Unknown"@,
    }
}

/// A number of processors as the system information reports it.
pub open spec fn reported_cores(n: usize) -> u32 {
    if n <= u32::MAX {
        n as u32
    } else {
        u32::MAX
    }
}

/// What describing a system gives: its name and version read from the
/// platform's own report, the architecture and processor count as
/// given, 8 GiB of memory, and no displays yet. An unknown platform is a
/// system error.
pub open spec fn system_described(
    platform: Platform,
    report: Seq<char>,
    architecture: Seq<char>,
    cpu_cores: usize,
    r: AgentResult<SystemInfo>,
) -> bool {
    match platform {
        Platform::Other => r is Err && r->Err_0.kind() == ErrorKind::System && r->Err_0.text()
            == "Unsupported operating system"@,
        _ => r is Ok && {
            let info = r->Ok_0;
            &&& info.os@ == match platform {
                Platform::Windows => "Windows"@,
                Platform::Linux => "Linux"@,
                _ => "macOS"@,
            }
            &&& info.version@ == match platform {
                Platform::Windows => trimmed(report),
                Platform::Linux => linux_version(report),
                _ => macos_version(report),
            }
            &&& info.architecture@ == architecture
            &&& info.cpu_cores == reported_cores(cpu_cores)
            &&& info.memory_total == DEFAULT_MEMORY_BYTES
            &&& info.memory_available == DEFAULT_MEMORY_BYTES
            &&& info.displays@.len() == 0
        },
    }
}

/// Counts the processors with `num_cpus::get`.
#[verifier::external_body]
fn processor_count() -> (r: usize) {
    num_cpus::get()
}

/// Describes the system from what the platform reports about itself:
/// the output of `ver` on Windows, the release file on Linux, the output
/// of `sw_vers` on macOS.
pub fn describe_system(platform: Platform, report: &str, architecture: &str, cpu_cores: usize) -> (r:
    AgentResult<SystemInfo>)
    ensures
        system_described(platform, report@, architecture@, cpu_cores, r),
{
    let (os, version) = match platform {
        Platform::Windows => (String::from_str("Windows"), trim(report)),
        Platform::Linux => {
            let version = match find_line(report, "PRETTY_NAME=") {
                Some(line) => {
                    let value = replace_all(line.as_str(), "PRETTY_NAME=", "");
                    trim_matches(value.as_str(), '"')
                },
                None => String::from_str("Unknown"),
            };
            (String::from_str("Linux"), version)
        },
        Platform::MacOs => {
            let version = match find_line(report, "ProductVersion:") {
                Some(line) => {
                    let value = replace_all(line.as_str(), "ProductVersion:", "");
                    trim(value.as_str())
                },
                None => String::from_str("Unknown"),
            };
            (String::from_str("macOS"), version)
        },
        Platform::Other => {
            return Err(AgentError::System(String::from_str("Unsupported operating system")));
        },
    };
    let cores: u32 = if cpu_cores <= 0xffff_ffff {
        cpu_cores as u32
    } else {
        u32::MAX
    };
    Ok(
        SystemInfo {
            os,
            version,
            architecture: String::from_str(architecture),
            cpu_cores: cores,
            memory_total: DEFAULT_MEMORY_BYTES,
            memory_available: DEFAULT_MEMORY_BYTES,
            displays: Vec::new(),
        },
    )
}

/// Describes the system from the platform's report, counting the
/// processors of this machine.
pub fn get_system_info(platform: Platform, report: &str, architecture: &str) -> (r: AgentResult<SystemInfo>)
    ensures
        exists|cpu_cores: usize| system_described(platform, report@, architecture@, cpu_cores, r),
{
    let cpu_cores = processor_count();
    let r = describe_system(platform, report, architecture, cpu_cores);
    assert(system_described(platform, report@, architecture@, cpu_cores, r));
    r
}

/// What the background tasks of a started agent are paced by.
#[derive(Debug, Clone, Copy, PartialEq, Eq, Structural)]
pub struct BackgroundPlan {
    pub sweep_interval_secs: u64,
    pub status_interval_secs: u64,
}

/// A number of sessions as the status reports it.
pub open spec fn reported_count(n: nat) -> u32 {
    if n <= u32::MAX {
        n as u32
    } else {
        u32::MAX
    }
}

/// The longest a session may stay idle, in whole seconds of the session
/// clock, for a timeout given in milliseconds.
pub open spec fn idle_limit(timeout_ms: u64) -> u64 {
    timeout_ms / 1000
}

/// A session is past the idle limit exactly when its idle time, taken in
/// milliseconds, is more than the timeout.
pub proof fn law_idle_limit_is_the_timeout(session: Session, now: u64, timeout_ms: u64)
    ensures
        expired(session, now, idle_limit(timeout_ms)) <==> now > session.last_activity && (now
            - session.last_activity) * 1000 > timeout_ms,
{
}

/// Seconds from `start` to `now`; none if the clock went backwards.
pub open spec fn elapsed(start: u64, now: u64) -> u64 {
    if now >= start {
        (now - start) as u64
    } else {
        0
    }
}

/// What is reported when a drawn session identifier is already in use.
pub open spec fn identifier_taken_text() -> Seq<char> {
    "Session identifier is already in use"@
}

/// A session as it is when it has just been created.
pub open spec fn new_session(
    id: Seq<char>,
    client_id: Seq<char>,
    quality: Quality,
    capabilities: ClientCapabilities,
    now: u64,
    session: Session,
) -> bool {
    &&& session.id@ == id
    &&& session.client_id@ == client_id
    &&& session.start_time == now
    &&& session.last_activity == now
    &&& session.quality == quality
    &&& session.capabilities == capabilities
    &&& session.stats == SessionStats::zero()
}

/// The agent.
pub struct Agent {
    config: Config,
    capture_manager: CaptureManager,
    input_manager: InputManager,
    transport_manager: TransportManager,
    sessions: SessionRegistry,
    status: AgentStatus,
    start_time: u64,
    running: bool,
}

impl Agent {
    /// The registered sessions, oldest registration first.
    pub closed spec fn sessions(&self) -> Seq<Session> {
        self.sessions.entries()
    }

    /// The connections of the transport layer, oldest first.
    pub open spec fn connections(&self) -> Seq<ConnectionModel> {
        self.transport().entries()
    }

    /// The configuration the agent was made with.
    pub closed spec fn config(&self) -> Config {
        self.config
    }

    /// The status snapshot as last refreshed.
    pub closed spec fn status(&self) -> AgentStatus {
        self.status
    }

    /// When the agent was created, in seconds of the caller's clock.
    pub closed spec fn start_time(&self) -> u64 {
        self.start_time
    }

    /// Whether the agent's background tasks are meant to run.
    pub closed spec fn running(&self) -> bool {
        self.running
    }

    /// The capture pipeline.
    pub closed spec fn capture(&self) -> CaptureManager {
        self.capture_manager
    }

    /// The input manager.
    pub closed spec fn input(&self) -> InputManager {
        self.input_manager
    }

    /// The transport manager.
    pub closed spec fn transport(&self) -> TransportManager {
        self.transport_manager
    }

    /// The capture metrics.
    pub open spec fn capture_metrics(&self) -> Metrics {
        self.capture().state().metrics
    }

    /// What the session functions leave alone.
    pub open spec fn same_frame(&self, other: &Self) -> bool {
        &&& self.config() == other.config()
        &&& self.start_time() == other.start_time()
        &&& self.running() == other.running()
        &&& self.connections() == other.connections()
        &&& self.capture_metrics() == other.capture_metrics()
    }

    /// What the session functions leave alone in the status: everything
    /// but the number of sessions.
    pub open spec fn same_report(&self, other: &Self) -> bool {
        &&& self.status().version == other.status().version
        &&& self.status().uptime == other.status().uptime
        &&& self.status().system_info == other.status().system_info
        &&& self.status().metrics == other.status().metrics
    }

    /// An agent with no sessions and no connections, created at time
    /// `now`.
    pub fn new(config: Config, system_info: SystemInfo, now: u64) -> (r: AgentResult<Self>)
        ensures
            r is Ok,
            r->Ok_0.sessions() == Seq::<Session>::empty(),
            r->Ok_0.connections() == Seq::<ConnectionModel>::empty(),
            r->Ok_0.config() == config,
            r->Ok_0.start_time() == now,
            !r->Ok_0.running(),
            r->Ok_0.status().version@ == crate::VERSION@,
            r->Ok_0.status().uptime == 0,
            r->Ok_0.status().sessions == 0,
            r->Ok_0.status().system_info == system_info,
            r->Ok_0.status().metrics == Metrics::zero(),
    {
        let capture_manager = match CaptureManager::new(config.capture) {
            Ok(m) => m,
            Err(e) => {
                return Err(e);
            },
        };
        let input_manager = match InputManager::new(config.input) {
            Ok(m) => m,
            Err(e) => {
                return Err(e);
            },
        };
        let transport_manager = match TransportManager::new(config.transport.clone()) {
            Ok(m) => m,
            Err(e) => {
                return Err(e);
            },
        };
        let status = AgentStatus {
            version: String::from_str(crate::VERSION),
            uptime: 0,
            sessions: 0,
            system_info,
            metrics: Metrics::default(),
        };
        Ok(
            Agent {
                config,
                capture_manager,
                input_manager,
                transport_manager,
                sessions: SessionRegistry::new(),
                status,
                start_time: now,
                running: false,
            },
        )
    }

    /// Starts the agent and says how its background tasks are paced: the
    /// session sweep every 30 seconds, the status refresh every 5.
    pub fn start(&mut self) -> (r: AgentResult<BackgroundPlan>)
        ensures
            r == Ok::<BackgroundPlan, AgentError>(
                BackgroundPlan {
                    sweep_interval_secs: SESSION_SWEEP_INTERVAL_SECS,
                    status_interval_secs: STATUS_REFRESH_INTERVAL_SECS,
                },
            ),
            final(self).running(),
            final(self).sessions() == old(self).sessions(),
            final(self).connections() == old(self).connections(),
            final(self).config() == old(self).config(),
            final(self).start_time() == old(self).start_time(),
    {
        self.running = true;
        Ok(
            BackgroundPlan {
                sweep_interval_secs: SESSION_SWEEP_INTERVAL_SECS,
                status_interval_secs: STATUS_REFRESH_INTERVAL_SECS,
            },
        )
    }

    /// Stops the agent: every session is destroyed and the background
    /// tasks are to end. Returns the identifiers of the destroyed
    /// sessions.
    pub fn stop(&mut self) -> (r: AgentResult<Vec<String>>)
        ensures
            r is Ok,
            texts(r->Ok_0@) == ids_of(old(self).sessions()),
            final(self).sessions() == Seq::<Session>::empty(),
            !final(self).running(),
            final(self).status().sessions == 0,
            final(self).connections() == old(self).connections(),
            final(self).config() == old(self).config(),
            final(self).start_time() == old(self).start_time(),
            final(self).same_report(old(self)),
    {
        let ids = self.sessions.clear();
        self.status.sessions = 0;
        self.running = false;
        Ok(ids)
    }

    /// Whether the agent's background tasks are meant to run.
    pub fn is_running(&self) -> (r: bool)
        ensures
            r == self.running(),
    {
        self.running
    }

    /// The number of sessions as the status reports it.
    fn counted(n: usize) -> (r: u32)
        ensures
            r == reported_count(n as nat),
    {
        if n <= 0xffff_ffff {
            n as u32
        } else {
            u32::MAX
        }
    }

    /// Registers a session for `client_id` under the identifier `id`,
    /// started at time `now`, with the configured quality and fresh
    /// counters. A session that stood under the same identifier is
    /// replaced.
    pub fn register_session(&mut self, id: String, client_id: String, capabilities: ClientCapabilities, now: u64)
        ensures
            final(self).sessions().len() == without(old(self).sessions(), id@).len() + 1,
            final(self).sessions().drop_last() == without(old(self).sessions(), id@),
            new_session(
                id@,
                client_id@,
                old(self).config().capture.quality,
                capabilities,
                now,
                final(self).sessions().last(),
            ),
            find(final(self).sessions(), id@) == Some(final(self).sessions().last()),
            final(self).status().sessions == reported_count(final(self).sessions().len()),
            final(self).same_frame(old(self)),
            final(self).same_report(old(self)),
    {
        let session = Session {
            id,
            client_id,
            start_time: now,
            last_activity: now,
            quality: self.config.capture.quality,
            capabilities,
            stats: SessionStats::default(),
        };
        proof {
            crate::session::law_register_find_remove(self.sessions.entries(), session);
            assert(with_session(self.sessions.entries(), session).drop_last() =~= without(
                self.sessions.entries(),
                session.id@,
            ));
        }
        self.sessions.insert(session);
        self.status.sessions = Self::counted(self.sessions.count());
    }

    /// Admits a session for `client_id` under the drawn identifier `id`,
    /// given what the clock said. An identifier that is already in use is
    /// refused, and so is a clock that could not be read; then nothing
    /// changes. Otherwise the session is registered last, with the
    /// configured quality and fresh counters, and its identifier is
    /// returned.
    pub fn admit_session(
        &mut self,
        id: String,
        client_id: String,
        capabilities: ClientCapabilities,
        clock: AgentResult<u64>,
    ) -> (r: AgentResult<String>)
        ensures
            if find(old(self).sessions(), id@) is Some {
                &&& r matches Err(e)
                &&& e.kind() == ErrorKind::System
                &&& e.text() == identifier_taken_text()
            } else {
                match clock {
                    Ok(now) => {
                        &&& r matches Ok(given)
                        &&& given@ == id@
                        &&& final(self).sessions().len() == old(self).sessions().len() + 1
                        &&& final(self).sessions().drop_last() == old(self).sessions()
                        &&& new_session(
                            id@,
                            client_id@,
                            old(self).config().capture.quality,
                            capabilities,
                            now,
                            final(self).sessions().last(),
                        )
                        &&& find(final(self).sessions(), id@) == Some(final(self).sessions().last())
                        &&& final(self).status().sessions == reported_count(
                            final(self).sessions().len(),
                        )
                    },
                    Err(e) => r == Err::<String, AgentError>(e),
                }
            },
            r is Err ==> final(self).sessions() == old(self).sessions() && final(self).status()
                == old(self).status(),
            final(self).same_frame(old(self)),
            final(self).same_report(old(self)),
    {
        if self.sessions.contains(id.as_str()) {
            return Err(AgentError::System(String::from_str("Session identifier is already in use")));
        }
        match clock {
            Ok(now) => {
                proof {
                    crate::session::lemma_without_unknown(self.sessions(), id@);
                }
                self.register_session(id.clone(), client_id, capabilities, now);
                Ok(id)
            },
            Err(e) => Err(e),
        }
    }

    /// Creates a session for `client_id` under a fresh random identifier
    /// and returns the identifier. Fails if the clock cannot be read or
    /// the identifier drawn is already in use; then nothing changes.
    pub fn create_session(&mut self, client_id: String, capabilities: ClientCapabilities) -> (r: AgentResult<
        String,
    >)
        ensures
            match r {
                Ok(id) => {
                    &&& id@.len() == 36
                    &&& find(old(self).sessions(), id@) is None
                    &&& final(self).sessions().len() == old(self).sessions().len() + 1
                    &&& final(self).sessions().drop_last() == old(self).sessions()
                    &&& find(final(self).sessions(), id@) == Some(final(self).sessions().last())
                    &&& final(self).sessions().last().id@ == id@
                    &&& final(self).sessions().last().client_id@ == client_id@
                    &&& final(self).sessions().last().capabilities == capabilities
                    &&& final(self).sessions().last().quality == old(self).config().capture.quality
                    &&& final(self).sessions().last().start_time == final(self).sessions().last().last_activity
                    &&& final(self).sessions().last().stats == SessionStats::zero()
                    &&& final(self).status().sessions == reported_count(final(self).sessions().len())
                },
                Err(e) => {
                    &&& e.kind() == ErrorKind::SystemTime || (e.kind() == ErrorKind::System && e.text()
                        == identifier_taken_text())
                    &&& final(self).sessions() == old(self).sessions()
                    &&& final(self).status() == old(self).status()
                },
            },
            final(self).same_frame(old(self)),
            final(self).same_report(old(self)),
    {
        let session_id = generate_session_id();
        let clock = unix_seconds();
        self.admit_session(session_id, client_id, capabilities, clock)
    }

    /// Destroys the session `session_id`. Destroying a session that does
    /// not exist changes nothing and is no error.
    pub fn destroy_session(&mut self, session_id: &str) -> (r: AgentResult<()>)
        ensures
            r is Ok,
            final(self).sessions() == without(old(self).sessions(), session_id@),
            find(final(self).sessions(), session_id@) is None,
            find(old(self).sessions(), session_id@) is None ==> final(self).sessions() == old(
                self,
            ).sessions(),
            final(self).status().sessions == reported_count(final(self).sessions().len()),
            final(self).same_frame(old(self)),
            final(self).same_report(old(self)),
    {
        proof {
            crate::session::lemma_without_absent(self.sessions.entries(), session_id@);
        }
        let _ = self.sessions.remove(session_id);
        self.status.sessions = Self::counted(self.sessions.count());
        Ok(())
    }

    /// The session `session_id`, if it exists.
    pub fn get_session(&self, session_id: &str) -> (r: Option<Session>)
        ensures
            r == find(self.sessions(), session_id@),
    {
        self.sessions.get(session_id)
    }

    /// Every session, oldest registration first.
    pub fn get_all_sessions(&self) -> (r: Vec<Session>)
        ensures
            r@ == self.sessions(),
    {
        self.sessions.get_all()
    }

    /// How many sessions exist.
    pub fn session_count(&self) -> (r: usize)
        ensures
            r == self.sessions().len(),
            distinct_ids(self.sessions()),
    {
        proof {
            use_type_invariant(&self.sessions);
        }
        self.sessions.count()
    }

    /// Records activity at time `now` on the session `session_id` and
    /// tells whether the session exists.
    pub fn touch_session(&mut self, session_id: &str, now: u64) -> (r: bool)
        ensures
            final(self).sessions() == touched(old(self).sessions(), session_id@, now),
            r == find(old(self).sessions(), session_id@) is Some,
            final(self).status() == old(self).status(),
            final(self).same_frame(old(self)),
    {
        self.sessions.touch(session_id, now)
    }

    /// Sweeps the sessions at time `now`, in seconds: every session that
    /// has been idle for more than the configured session timeout is
    /// evicted, and no other. Returns the identifiers of the evicted
    /// sessions.
    pub fn sweep_sessions(&mut self, now: u64) -> (r: Vec<String>)
        ensures
            final(self).sessions() == survivors(
                old(self).sessions(),
                now,
                idle_limit(old(self).config().auth.session_timeout),
            ),
            texts(r@) == ids_of(
                evicted(
                    old(self).sessions(),
                    now,
                    idle_limit(old(self).config().auth.session_timeout),
                ),
            ),
            final(self).status().sessions == reported_count(final(self).sessions().len()),
            final(self).same_frame(old(self)),
            final(self).same_report(old(self)),
    {
        let gone = self.sessions.sweep(now, self.config.auth.session_timeout / 1000);
        self.status.sessions = Self::counted(self.sessions.count());
        gone
    }

    /// Recomputes the status snapshot at time `now`: the uptime, the
    /// session count, and the metrics of the capture pipeline with the
    /// bitrate of the configured quality.
    pub fn refresh_status(&mut self, now: u64)
        ensures
            final(self).status().uptime == elapsed(old(self).start_time(), now),
            final(self).status().sessions == reported_count(old(self).sessions().len()),
            final(self).status().metrics == (Metrics {
                bitrate: bitrate_of(old(self).config().capture.quality),
                ..old(self).capture_metrics()
            }),
            final(self).status().version == old(self).status().version,
            final(self).status().system_info == old(self).status().system_info,
            final(self).sessions() == old(self).sessions(),
            final(self).same_frame(old(self)),
    {
        let uptime = if now >= self.start_time {
            now - self.start_time
        } else {
            0
        };
        let captured = match self.capture_manager.get_metrics() {
            Ok(m) => m,
            Err(_) => Metrics::default(),
        };
        self.status.uptime = uptime;
        self.status.sessions = Self::counted(self.sessions.count());
        self.status.metrics = Metrics { bitrate: bitrate_for(self.config.capture.quality), ..captured };
    }

    /// The status at time `now`: the version, the uptime and the number
    /// of sessions as they are at this moment, with the description of the
    /// machine and the metrics as last refreshed.
    pub fn get_status(&mut self, now: u64) -> (r: AgentStatus)
        ensures
            r.version@ == crate::VERSION@,
            r.uptime == elapsed(old(self).start_time(), now),
            r.sessions == reported_count(old(self).sessions().len()),
            r.system_info.same_as(&old(self).status().system_info),
            r.metrics == old(self).status().metrics,
            final(self).status() == (AgentStatus {
                uptime: r.uptime,
                sessions: r.sessions,
                ..old(self).status()
            }),
            final(self).sessions() == old(self).sessions(),
            final(self).same_frame(old(self)),
    {
        let uptime = if now >= self.start_time {
            now - self.start_time
        } else {
            0
        };
        let sessions = Self::counted(self.sessions.count());
        self.status.uptime = uptime;
        self.status.sessions = sessions;
        AgentStatus {
            version: String::from_str(crate::VERSION),
            uptime,
            sessions,
            system_info: self.status.system_info.clone(),
            metrics: self.status.metrics,
        }
    }

    /// Handles an inbound message at time `now`: the connection that its
    /// payload names in `connection_id` and the session that it names in
    /// `session_id` are marked active, and the kind of the message is
    /// returned for the caller to act on. A message of a type the agent
    /// does not know has no kind.
    pub fn route_message(&mut self, message: &Message, now: u64) -> (r: Option<MessageKind>)
        ensures
            r == message_kind_of(message.message_type@),
            match json_string_member(message.data@, "connection_id"@) {
                Some(id) => final(self).connections() == on_connection(
                    old(self).connections(),
                    id,
                    |c: ConnectionModel| after_activity(c, now),
                ),
                None => final(self).connections() == old(self).connections(),
            },
            final(self).transport().same_settings(old(self).transport()),
            final(self).capture() == old(self).capture(),
            final(self).input() == old(self).input(),
            final(self).start_time() == old(self).start_time(),
            final(self).sessions() == match json_string_member(message.data@, "session_id"@) {
                Some(id) => touched(old(self).sessions(), id, now),
                None => old(self).sessions(),
            },
            final(self).status() == old(self).status(),
            final(self).config() == old(self).config(),
            final(self).running() == old(self).running(),
    {
        let _ = self.transport_manager.process_inbound(message, now);
        match read_string_member(message.data.as_str(), "session_id") {
            Some(id) => {
                let _ = self.sessions.touch(id.as_str(), now);
            },
            None => {},
        }
        message_kind(message.message_type.as_str())
    }

    /// What the getters of the managers leave alone.
    pub open spec fn same_core(&self, other: &Self) -> bool {
        &&& self.sessions() == other.sessions()
        &&& self.config() == other.config()
        &&& self.status() == other.status()
        &&& self.start_time() == other.start_time()
        &&& self.running() == other.running()
    }

    /// The capture pipeline, to read and to drive.
    pub fn get_capture_manager(&mut self) -> (r: &mut CaptureManager)
        ensures
            *r == old(self).capture(),
            final(self).capture() == *final(r),
            final(self).input() == old(self).input(),
            final(self).transport() == old(self).transport(),
            final(self).same_core(old(self)),
    {
        &mut self.capture_manager
    }

    /// The input manager, to read and to drive.
    pub fn get_input_manager(&mut self) -> (r: &mut InputManager)
        ensures
            *r == old(self).input(),
            final(self).input() == *final(r),
            final(self).capture() == old(self).capture(),
            final(self).transport() == old(self).transport(),
            final(self).same_core(old(self)),
    {
        &mut self.input_manager
    }

    /// The transport manager, to read and to drive.
    pub fn get_transport_manager(&mut self) -> (r: &mut TransportManager)
        ensures
            *r == old(self).transport(),
            final(self).transport() == *final(r),
            final(self).capture() == old(self).capture(),
            final(self).input() == old(self).input(),
            final(self).same_core(old(self)),
    {
        &mut self.transport_manager
    }
}

} // verus!
