//! The transport layer's bookkeeping: which connections exist, in which
//! state, what waits to be sent on each, and the decisions on sending,
//! broadcasting and closing. The sockets themselves live with the caller,
//! who carries out what these functions decide.

use vstd::prelude::*;
use vstd::string::*;
use crate::config::TransportConfig;
use crate::error::{AgentError, AgentResult, ErrorKind};
use crate::session::texts;
use crate::text::same_text;
use crate::types::{ConnectionState, Frame, Message, TransportType};
use crate::utils::{generate_session_id, unix_seconds};

verus! {

/// What a full frame queue gives up.
#[derive(Debug, Clone, Copy, PartialEq, Eq, Structural)]
pub enum DropPolicy {
    /// The frame that has waited longest leaves; the new one enters.
    DropOldest,
    /// The new frame is turned away.
    DropNewest,
}

/// The frames of `q` after `frame` has been offered to a queue of the
/// given capacity and policy.
pub open spec fn queue_after_push(q: Seq<Frame>, capacity: usize, policy: DropPolicy, frame: Frame) -> Seq<
    Frame,
> {
    if q.len() < capacity {
        q.push(frame)
    } else if policy == DropPolicy::DropOldest && q.len() > 0 {
        q.drop_first().push(frame)
    } else {
        q
    }
}

/// The frame that is lost when `frame` is offered to a queue of the given
/// capacity and policy, if any.
pub open spec fn queue_dropped(q: Seq<Frame>, capacity: usize, policy: DropPolicy, frame: Frame) -> Option<
    Frame,
> {
    if q.len() < capacity {
        None
    } else if policy == DropPolicy::DropOldest && q.len() > 0 {
        Some(q[0])
    } else {
        Some(frame)
    }
}

/// A bounded first-in first-out buffer of frames that never blocks: when
/// it is full, a frame is dropped.
#[derive(Debug)]
pub struct FrameQueue {
    capacity: usize,
    policy: DropPolicy,
    frames: Vec<Frame>,
}

impl FrameQueue {
    /// The frames that wait, oldest first.
    pub closed spec fn view(&self) -> Seq<Frame> {
        self.frames@
    }

    /// How many frames the queue holds at most.
    pub closed spec fn capacity(&self) -> usize {
        self.capacity
    }

    /// What the queue gives up when it is full.
    pub closed spec fn policy(&self) -> DropPolicy {
        self.policy
    }

    /// The queue never holds more frames than its capacity.
    #[verifier::type_invariant]
    pub open spec fn wf(&self) -> bool {
        self@.len() <= self.capacity()
    }

    /// An empty queue.
    pub fn new(capacity: usize, policy: DropPolicy) -> (r: Self)
        ensures
            r@ == Seq::<Frame>::empty(),
            r.capacity() == capacity,
            r.policy() == policy,
    {
        FrameQueue { capacity, policy, frames: Vec::new() }
    }

    /// How many frames wait.
    pub fn len(&self) -> (r: usize)
        ensures
            r == self@.len(),
            r <= self.capacity(),
    {
        proof {
            use_type_invariant(self);
        }
        self.frames.len()
    }

    /// Offers a frame. It enters at the back if there is room. If the
    /// queue is full, the oldest frame leaves to make room (drop-oldest)
    /// or the new frame is turned away (drop-newest, or no capacity at
    /// all). The frame that was lost is returned.
    pub fn push(&mut self, frame: Frame) -> (r: Option<Frame>)
        ensures
            final(self)@ == queue_after_push(old(self)@, old(self).capacity(), old(self).policy(), frame),
            r == queue_dropped(old(self)@, old(self).capacity(), old(self).policy(), frame),
            final(self).capacity() == old(self).capacity(),
            final(self).policy() == old(self).policy(),
    {
        proof {
            use_type_invariant(&*self);
        }
        let mut frames: Vec<Frame> = Vec::new();
        std::mem::swap(&mut frames, &mut self.frames);
        let dropped = if frames.len() < self.capacity {
            frames.push(frame);
            None
        } else {
            match self.policy {
                DropPolicy::DropOldest => {
                    if frames.len() > 0 {
                        let oldest = frames.remove(0);
                        assert(frames@ =~= old(self)@.drop_first());
                        frames.push(frame);
                        Some(oldest)
                    } else {
                        Some(frame)
                    }
                },
                DropPolicy::DropNewest => Some(frame),
            }
        };
        self.frames = frames;
        dropped
    }

    /// Takes the frame that has waited longest.
    pub fn pop(&mut self) -> (r: Option<Frame>)
        ensures
            old(self)@.len() == 0 ==> r is None && final(self)@ == old(self)@,
            old(self)@.len() > 0 ==> r == Some(old(self)@[0]) && final(self)@ == old(self)@.drop_first(),
            final(self).capacity() == old(self).capacity(),
            final(self).policy() == old(self).policy(),
    {
        proof {
            use_type_invariant(&*self);
        }
        let mut frames: Vec<Frame> = Vec::new();
        std::mem::swap(&mut frames, &mut self.frames);
        let taken = if frames.len() > 0 {
            let oldest = frames.remove(0);
            assert(frames@ =~= old(self)@.drop_first());
            Some(oldest)
        } else {
            None
        };
        self.frames = frames;
        taken
    }
}

/// What is known of one connection. The two times are seconds since the
/// Unix epoch.
#[derive(Debug)]
pub struct ConnectionInfo {
    pub id: String,
    pub transport_type: TransportType,
    pub state: ConnectionState,
    pub client_id: String,
    pub start_time: u64,
    pub last_activity: u64,
}

impl Clone for ConnectionInfo {
    fn clone(&self) -> (r: Self)
        ensures
            r == *self,
    {
        ConnectionInfo {
            id: self.id.clone(),
            transport_type: self.transport_type,
            state: self.state,
            client_id: self.client_id.clone(),
            start_time: self.start_time,
            last_activity: self.last_activity,
        }
    }
}

/// One connection as the contracts see it: what is known of it, whether
/// its channel is attached, and what waits to be sent on it.
pub struct ConnectionModel {
    pub info: ConnectionInfo,
    /// Whether the underlying peer connection or socket exists.
    pub attached: bool,
    /// Control messages that wait, oldest first.
    pub outbox: Seq<Message>,
    /// Frames that wait, oldest first.
    pub media: Seq<Frame>,
    /// How many frames may wait.
    pub media_capacity: usize,
    /// What is given up when that many wait.
    pub media_policy: DropPolicy,
}

/// One connection with its queues.
struct Connection {
    info: ConnectionInfo,
    attached: bool,
    outbox: Vec<Message>,
    media: FrameQueue,
}

impl Connection {
    spec fn model(self) -> ConnectionModel {
        ConnectionModel {
            info: self.info,
            attached: self.attached,
            outbox: self.outbox@,
            media: self.media@,
            media_capacity: self.media.capacity(),
            media_policy: self.media.policy(),
        }
    }
}

/// No two connections of `s` share an identifier.
pub open spec fn distinct_connections(s: Seq<ConnectionModel>) -> bool {
    forall|i: int, j: int| 0 <= i < j < s.len() ==> s[i].info.id@ != s[j].info.id@
}

/// The connection of `s` with identifier `id`, if there is one.
pub open spec fn lookup(s: Seq<ConnectionModel>, id: Seq<char>) -> Option<ConnectionModel> {
    if exists|i: int| 0 <= i < s.len() && s[i].info.id@ == id {
        Some(s[choose|i: int| 0 <= i < s.len() && s[i].info.id@ == id])
    } else {
        None
    }
}

/// The connections of `s` other than the one with identifier `id`.
pub open spec fn closed(s: Seq<ConnectionModel>, id: Seq<char>) -> Seq<ConnectionModel> {
    s.filter(|c: ConnectionModel| c.info.id@ != id)
}

/// What is reported when a drawn connection identifier is already in
/// use.
pub open spec fn identifier_taken_text() -> Seq<char> {
    "Connection identifier is already in use"@
}

/// A connection that has just been created: connecting, no channel yet,
/// nothing waiting.
pub open spec fn fresh_connection(
    id: Seq<char>,
    kind: TransportType,
    client_id: Seq<char>,
    c: ConnectionModel,
) -> bool {
    &&& c.info.id@ == id
    &&& c.info.transport_type == kind
    &&& c.info.state == ConnectionState::Connecting
    &&& c.info.client_id@ == client_id
    &&& c.info.last_activity == c.info.start_time
    &&& !c.attached
    &&& c.outbox == Seq::<Message>::empty()
    &&& c.media == Seq::<Frame>::empty()
}

/// The member `key` of the JSON object written in `text`, where the text
/// is sound JSON, the member exists and it is a string.
pub uninterp spec fn json_string_member(text: Seq<char>, key: Seq<char>) -> Option<Seq<char>>;

/// Parses `text` with `serde_json::from_str` and reads the member `key`
/// with `Value::get` and `Value::as_str`. The contract only names the
/// result.
#[verifier::external_body]
pub(crate) fn read_string_member(text: &str, key: &str) -> (r: Option<String>)
    ensures
        match r {
            Some(value) => json_string_member(text@, key@) == Some(value@),
            None => json_string_member(text@, key@) is None,
        },
{
    match serde_json::from_str::<serde_json::Value>(text) {
        Ok(value) => value.get(key).and_then(|member| member.as_str()).map(|s| s.to_string()),
        Err(_) => None,
    }
}

/// `s` with `f` applied to the connection that stands under `id`.
pub open spec fn on_connection(
    s: Seq<ConnectionModel>,
    id: Seq<char>,
    f: spec_fn(ConnectionModel) -> ConnectionModel,
) -> Seq<ConnectionModel> {
    Seq::new(
        s.len(),
        |i: int|
            if s[i].info.id@ == id {
                f(s[i])
            } else {
                s[i]
            },
    )
}

/// A connection whose channel has been attached.
pub open spec fn after_attach(c: ConnectionModel) -> ConnectionModel {
    ConnectionModel { attached: true, ..c }
}

/// A connection moved to the state `next`.
pub open spec fn in_state(c: ConnectionModel, next: ConnectionState) -> ConnectionModel {
    ConnectionModel { info: ConnectionInfo { state: next, ..c.info }, ..c }
}

/// A connection after `frame` has been offered to its frame queue.
pub open spec fn after_frame(c: ConnectionModel, frame: Frame) -> ConnectionModel {
    if c.attached {
        ConnectionModel {
            media: queue_after_push(c.media, c.media_capacity, c.media_policy, frame),
            ..c
        }
    } else {
        c
    }
}

/// A connection after the oldest waiting message has been taken.
pub open spec fn after_next_message(c: ConnectionModel) -> ConnectionModel {
    if c.outbox.len() > 0 {
        ConnectionModel { outbox: c.outbox.drop_first(), ..c }
    } else {
        c
    }
}

/// A connection after the oldest waiting frame has been taken.
pub open spec fn after_next_frame(c: ConnectionModel) -> ConnectionModel {
    if c.media.len() > 0 {
        ConnectionModel { media: c.media.drop_first(), ..c }
    } else {
        c
    }
}

/// The channels that are attached in `s`: identifier and kind, in order.
pub open spec fn channels(s: Seq<ConnectionModel>) -> Seq<(Seq<char>, TransportType)> {
    s.filter(|c: ConnectionModel| c.attached).map_values(
        |c: ConnectionModel| (c.info.id@, c.info.transport_type),
    )
}

/// The identifiers and kinds held by a list of released channels.
pub open spec fn released_view(v: Seq<(String, TransportType)>) -> Seq<(Seq<char>, TransportType)> {
    Seq::new(v.len(), |i: int| (v[i].0@, v[i].1))
}

/// What an operation on one connection answers and leaves: a `Transport`
/// error and no change where the connection is unknown or has the fault
/// `fault`; else success and the connection changed by `f`.
pub open spec fn outcome_on(
    before: Seq<ConnectionModel>,
    id: Seq<char>,
    fault: spec_fn(ConnectionModel) -> Option<Seq<char>>,
    f: spec_fn(ConnectionModel) -> ConnectionModel,
    failed: Option<AgentError>,
    after: Seq<ConnectionModel>,
) -> bool {
    match lookup(before, id) {
        None => failed is Some && failed->Some_0.kind() == ErrorKind::Transport
            && failed->Some_0.text() == "Connection not found"@ && after == before,
        Some(c) => match fault(c) {
            Some(why) => failed is Some && failed->Some_0.kind() == ErrorKind::Transport
                && failed->Some_0.text() == why && after == before,
            None => failed is None && after == on_connection(before, id, f),
        },
    }
}

/// The failure of a result, if it is one.
pub open spec fn failure_of<T>(r: AgentResult<T>) -> Option<AgentError> {
    match r {
        Ok(_) => None,
        Err(e) => Some(e),
    }
}

/// Why a message or frame cannot be sent on a connection, if it cannot.
pub open spec fn send_fault(c: ConnectionModel) -> Option<Seq<char>> {
    if c.attached {
        None
    } else {
        match c.info.transport_type {
            TransportType::WebRTC => Some("WebRTC connection not found"@),
            TransportType::WebSocket => Some("WebSocket connection not found"@),
        }
    }
}

/// A connection after `message` has been sent on it: the message waits at
/// the back of the outbox, unless the connection has no channel.
pub open spec fn after_send(c: ConnectionModel, message: Message) -> ConnectionModel {
    if c.attached {
        ConnectionModel { outbox: c.outbox.push(message), ..c }
    } else {
        c
    }
}

/// `s` after `message` has been sent on every connection.
pub open spec fn broadcast_to(s: Seq<ConnectionModel>, message: Message) -> Seq<ConnectionModel> {
    Seq::new(s.len(), |i: int| after_send(s[i], message))
}

/// What one attempt of a broadcast reports.
pub open spec fn attempt_matches(c: ConnectionModel, attempt: (String, AgentResult<()>)) -> bool {
    &&& attempt.0@ == c.info.id@
    &&& match send_fault(c) {
        None => attempt.1 is Ok,
        Some(fault) => attempt.1 is Err && attempt.1->Err_0.kind() == ErrorKind::Transport
            && attempt.1->Err_0.text() == fault,
    }
}

/// The connection with its last activity moved to `now`, never backwards.
pub open spec fn after_activity(c: ConnectionModel, now: u64) -> ConnectionModel {
    ConnectionModel {
        info: ConnectionInfo {
            last_activity: if now > c.info.last_activity {
                now
            } else {
                c.info.last_activity
            },
            ..c.info
        },
        ..c
    }
}

/// In a list without duplicate identifiers, the connection found under an
/// identifier is the one that carries it.
pub proof fn lemma_lookup_at(s: Seq<ConnectionModel>, i: int)
    requires
        distinct_connections(s),
        0 <= i < s.len(),
    ensures
        lookup(s, s[i].info.id@) == Some(s[i]),
{
    let id = s[i].info.id@;
    let k = choose|k: int| 0 <= k < s.len() && s[k].info.id@ == id;
    if k < i {
        assert(s[k].info.id@ != s[i].info.id@);
    } else if i < k {
        assert(s[i].info.id@ != s[k].info.id@);
    }
}

/// Removing the connections with one identifier from a list that holds
/// none changes nothing.
pub proof fn lemma_closed_absent(s: Seq<ConnectionModel>, id: Seq<char>)
    requires
        forall|i: int| 0 <= i < s.len() ==> s[i].info.id@ != id,
    ensures
        closed(s, id) == s,
    decreases s.len(),
{
    reveal(Seq::filter);
    if s.len() > 0 {
        lemma_closed_absent(s.drop_last(), id);
        assert(s.drop_last().push(s.last()) =~= s);
    }
}

/// Closing a connection twice is closing it once: the second close finds
/// nothing under the identifier and leaves every connection as it is.
pub proof fn law_close_is_idempotent(s: Seq<ConnectionModel>, id: Seq<char>)
    ensures
        lookup(closed(s, id), id) is None,
        closed(closed(s, id), id) == closed(s, id),
{
    broadcast use vstd::seq_lib::group_filter_ensures;

    let once = closed(s, id);
    assert forall|i: int| 0 <= i < once.len() implies once[i].info.id@ != id by {
        assert(once[i].info.id@ != id);
    }
    lemma_closed_absent(once, id);
}

/// A broadcast attempts every connection, and what happens on one
/// connection does not depend on the others: each connection with a
/// channel has the message at the back of its outbox, whether or not the
/// send failed elsewhere.
pub proof fn law_broadcast_reaches_each(s: Seq<ConnectionModel>, message: Message, failing: int, other: int)
    requires
        0 <= failing < s.len(),
        0 <= other < s.len(),
        send_fault(s[failing]) is Some,
        send_fault(s[other]) is None,
    ensures
        broadcast_to(s, message).len() == s.len(),
        broadcast_to(s, message)[other].outbox == s[other].outbox.push(message),
        broadcast_to(s, message)[failing] == s[failing],
{
}

/// Filtering a list without duplicate identifiers leaves none.
proof fn lemma_filter_distinct(s: Seq<ConnectionModel>, pred: spec_fn(ConnectionModel) -> bool)
    requires
        distinct_connections(s),
    ensures
        distinct_connections(s.filter(pred)),
        forall|k: int|
            0 <= k < s.filter(pred).len() ==> exists|j: int|
                0 <= j < s.len() && s[j] == #[trigger] s.filter(pred)[k],
    decreases s.len(),
{
    reveal(Seq::filter);
    if s.len() > 0 {
        let front = s.drop_last();
        lemma_filter_distinct(front, pred);
        let kept = front.filter(pred);
        let all = s.filter(pred);
        assert forall|k: int| 0 <= k < all.len() implies exists|j: int|
            0 <= j < s.len() && s[j] == #[trigger] all[k] by {
            if k < kept.len() {
                let j = choose|j: int| 0 <= j < front.len() && front[j] == kept[k];
                assert(s[j] == all[k]);
            } else {
                assert(s[s.len() - 1] == all[k]);
            }
        }
        if pred(s.last()) {
            assert forall|i: int, j: int| 0 <= i < j < all.len() implies all[i].info.id@
                != all[j].info.id@ by {
                if j == kept.len() {
                    let k = choose|k: int| 0 <= k < front.len() && front[k] == kept[i];
                    assert(s[k].info.id@ != s[s.len() - 1].info.id@);
                }
            }
        }
    }
}

/// What a freshly started transport layer has to bring up.
#[derive(Debug)]
pub struct TransportStartPlan {
    /// Whether the peer-connection signalling is to be started.
    pub webrtc_signaling: bool,
    /// The ICE servers for peer connections, one URL each, without
    /// credentials; empty where signalling stays off.
    pub ice_servers: Vec<String>,
    /// Whether the socket server is to be started.
    pub websocket_server: bool,
}

/// The connections of the agent and what waits on each.
pub struct TransportManager {
    config: TransportConfig,
    connections: Vec<Connection>,
    media_capacity: usize,
    media_policy: DropPolicy,
}

/// How many frames wait per connection unless the caller says otherwise.
pub const DEFAULT_MEDIA_CAPACITY: usize = 8;

impl TransportManager {
    /// The connections, oldest first.
    pub closed spec fn entries(self) -> Seq<ConnectionModel> {
        Seq::new(self.connections@.len(), |i: int| self.connections@[i].model())
    }

    /// The configuration the manager was made with.
    pub closed spec fn config(self) -> TransportConfig {
        self.config
    }

    /// The capacity of each connection's frame queue.
    pub closed spec fn media_capacity(self) -> usize {
        self.media_capacity
    }

    /// The policy of each connection's frame queue.
    pub closed spec fn media_policy(self) -> DropPolicy {
        self.media_policy
    }

    /// No two connections share an identifier.
    #[verifier::type_invariant]
    pub open spec fn wf(self) -> bool {
        distinct_connections(self.entries())
    }

    /// What the other functions leave alone.
    pub open spec fn same_settings(self, other: Self) -> bool {
        &&& self.config() == other.config()
        &&& self.media_capacity() == other.media_capacity()
        &&& self.media_policy() == other.media_policy()
    }

    /// A transport layer without connections, whose frame queues hold 8
    /// frames and drop the oldest.
    pub fn new(config: TransportConfig) -> (r: AgentResult<Self>)
        ensures
            r is Ok,
            r->Ok_0.entries() == Seq::<ConnectionModel>::empty(),
            r->Ok_0.config() == config,
            r->Ok_0.media_capacity() == DEFAULT_MEDIA_CAPACITY,
            r->Ok_0.media_policy() == DropPolicy::DropOldest,
    {
        let manager = TransportManager {
            config,
            connections: Vec::new(),
            media_capacity: DEFAULT_MEDIA_CAPACITY,
            media_policy: DropPolicy::DropOldest,
        };
        assert(manager.entries() =~= Seq::<ConnectionModel>::empty());
        Ok(manager)
    }

    /// Sets the capacity and the policy of the frame queues of the
    /// connections created from now on.
    pub fn set_backpressure(&mut self, capacity: usize, policy: DropPolicy)
        ensures
            final(self).entries() == old(self).entries(),
            final(self).config() == old(self).config(),
            final(self).media_capacity() == capacity,
            final(self).media_policy() == policy,
    {
        proof {
            use_type_invariant(&*self);
        }
        self.media_capacity = capacity;
        self.media_policy = policy;
    }

    /// How many connections there are.
    pub fn connection_count(&self) -> (r: usize)
        ensures
            r == self.entries().len(),
    {
        self.connections.len()
    }

    /// Where the connection with identifier `id` stands, if there is one.
    fn position(&self, id: &str) -> (r: Option<usize>)
        ensures
            match r {
                Some(i) => i < self.entries().len() && self.entries()[i as int].info.id@ == id@
                    && lookup(self.entries(), id@) == Some(self.entries()[i as int]),
                None => lookup(self.entries(), id@) is None && forall|k: int|
                    0 <= k < self.entries().len() ==> self.entries()[k].info.id@ != id@,
            },
    {
        proof {
            use_type_invariant(self);
        }
        let mut i: usize = 0;
        while i < self.connections.len()
            invariant
                i <= self.connections@.len(),
                self.entries().len() == self.connections@.len(),
                distinct_connections(self.entries()),
                forall|k: int| 0 <= k < i ==> self.entries()[k].info.id@ != id@,
            decreases self.connections.len() - i,
        {
            if same_text(self.connections[i].info.id.as_str(), id) {
                proof {
                    lemma_lookup_at(self.entries(), i as int);
                }
                return Some(i);
            }
            i += 1;
        }
        None
    }

    /// What is known of the connection with identifier `id`.
    pub fn get_connection_info(&self, connection_id: &str) -> (r: Option<ConnectionInfo>)
        ensures
            match lookup(self.entries(), connection_id@) {
                Some(c) => r == Some(c.info),
                None => r is None,
            },
    {
        match self.position(connection_id) {
            Some(i) => Some(self.connections[i].info.clone()),
            None => None,
        }
    }

    /// What is known of every connection, oldest first.
    pub fn get_all_connections(&self) -> (r: Vec<ConnectionInfo>)
        ensures
            r@.len() == self.entries().len(),
            forall|i: int| 0 <= i < r@.len() ==> r@[i] == self.entries()[i].info,
    {
        let mut out: Vec<ConnectionInfo> = Vec::new();
        let mut i: usize = 0;
        while i < self.connections.len()
            invariant
                i <= self.connections@.len(),
                self.entries().len() == self.connections@.len(),
                out@.len() == i,
                forall|k: int| 0 <= k < i ==> out@[k] == self.entries()[k].info,
            decreases self.connections.len() - i,
        {
            out.push(self.connections[i].info.clone());
            i += 1;
        }
        out
    }

    /// The identifiers of the connections, oldest first.
    pub fn connection_ids(&self) -> (r: Vec<String>)
        ensures
            r@.len() == self.entries().len(),
            forall|i: int| 0 <= i < r@.len() ==> r@[i]@ == self.entries()[i].info.id@,
    {
        let mut out: Vec<String> = Vec::new();
        let mut i: usize = 0;
        while i < self.connections.len()
            invariant
                i <= self.connections@.len(),
                self.entries().len() == self.connections@.len(),
                out@.len() == i,
                forall|k: int| 0 <= k < i ==> out@[k]@ == self.entries()[k].info.id@,
            decreases self.connections.len() - i,
        {
            out.push(self.connections[i].info.id.clone());
            i += 1;
        }
        out
    }

    /// Enters a new connection under `id`, in state `Connecting`, with no
    /// channel attached and nothing waiting. A connection that stood under
    /// the same identifier is replaced.
    pub fn register_connection(&mut self, id: String, kind: TransportType, client_id: String, now: u64)
        ensures
            final(self).entries().len() == closed(old(self).entries(), id@).len() + 1,
            final(self).entries().drop_last() == closed(old(self).entries(), id@),
            fresh_connection(id@, kind, client_id@, final(self).entries().last()),
            final(self).entries().last().info.start_time == now,
            final(self).same_settings(*old(self)),
    {
        proof {
            use_type_invariant(&*self);
        }
        let ghost before = self.entries();
        let ghost pred = |c: ConnectionModel| c.info.id@ != id@;
        let mut connections: Vec<Connection> = Vec::new();
        std::mem::swap(&mut connections, &mut self.connections);
        match Self::index_in(&connections, id.as_str()) {
            Some(i) => {
                let _ = connections.remove(i);
                proof {
                    Self::lemma_remove_is_closed(before, i as int);
                }
            },
            None => {
                proof {
                    lemma_closed_absent(before, id@);
                }
            },
        }
        assert(Seq::new(connections@.len(), |k: int| connections@[k].model()) =~= closed(before, id@));
        proof {
            lemma_filter_distinct(before, pred);
            broadcast use vstd::seq_lib::group_filter_ensures;

            assert forall|k: int| 0 <= k < closed(before, id@).len() implies closed(
                before,
                id@,
            )[k].info.id@ != id@ by {
                assert(pred(closed(before, id@)[k]));
            }
        }
        let connection = Connection {
            info: ConnectionInfo {
                id,
                transport_type: kind,
                state: ConnectionState::Connecting,
                client_id,
                start_time: now,
                last_activity: now,
            },
            attached: false,
            outbox: Vec::new(),
            media: FrameQueue::new(self.media_capacity, self.media_policy),
        };
        connections.push(connection);
        proof {
            let after = Seq::new(connections@.len(), |k: int| connections@[k].model());
            let rest = closed(before, connection.info.id@);
            assert(after.drop_last() =~= rest);
            assert forall|i: int, j: int| 0 <= i < j < after.len() implies after[i].info.id@
                != after[j].info.id@ by {
                assert(after[i] == rest[i]);
                if j < rest.len() {
                    assert(after[j] == rest[j]);
                }
            }
        }
        self.connections = connections;
    }

    /// Where the connection with identifier `id` stands in `connections`.
    fn index_in(connections: &Vec<Connection>, id: &str) -> (r: Option<usize>)
        ensures
            match r {
                Some(i) => i < connections@.len() && connections@[i as int].info.id@ == id@,
                None => forall|k: int| 0 <= k < connections@.len() ==> connections@[k].info.id@ != id@,
            },
    {
        let mut i: usize = 0;
        while i < connections.len()
            invariant
                i <= connections@.len(),
                forall|k: int| 0 <= k < i ==> connections@[k].info.id@ != id@,
            decreases connections.len() - i,
        {
            if same_text(connections[i].info.id.as_str(), id) {
                return Some(i);
            }
            i += 1;
        }
        None
    }

    /// In a list without duplicate identifiers, taking out the connection
    /// at `i` is closing its identifier.
    proof fn lemma_remove_is_closed(s: Seq<ConnectionModel>, i: int)
        requires
            distinct_connections(s),
            0 <= i < s.len(),
        ensures
            closed(s, s[i].info.id@) == s.remove(i),
        decreases s.len(),
    {
        reveal(Seq::filter);
        let id = s[i].info.id@;
        let front = s.drop_last();
        if i == s.len() - 1 {
            assert forall|k: int| 0 <= k < front.len() implies front[k].info.id@ != id by {
                assert(s[k].info.id@ != s[i].info.id@);
            }
            lemma_closed_absent(front, id);
            assert(s.remove(i) =~= front);
        } else {
            Self::lemma_remove_is_closed(front, i);
            assert(s[i].info.id@ != s[s.len() - 1].info.id@);
            assert(s.remove(i) =~= front.remove(i).push(s.last()));
        }
    }

    /// Admits a connection of the given kind for `client_id` under the
    /// drawn identifier `id`, given what the clock said. An identifier
    /// that is already in use is refused, and so is a clock that could not
    /// be read; then nothing changes. Otherwise the connection is entered
    /// last, in state `Connecting`, and its identifier is returned.
    pub fn admit_connection(
        &mut self,
        id: String,
        kind: TransportType,
        client_id: String,
        clock: AgentResult<u64>,
    ) -> (r: AgentResult<String>)
        ensures
            if lookup(old(self).entries(), id@) is Some {
                &&& r matches Err(e)
                &&& e.kind() == ErrorKind::Transport
                &&& e.text() == identifier_taken_text()
            } else {
                match clock {
                    Ok(now) => {
                        &&& r matches Ok(given)
                        &&& given@ == id@
                        &&& final(self).entries().len() == old(self).entries().len() + 1
                        &&& final(self).entries().drop_last() == old(self).entries()
                        &&& fresh_connection(id@, kind, client_id@, final(self).entries().last())
                        &&& final(self).entries().last().info.start_time == now
                    },
                    Err(e) => r == Err::<String, AgentError>(e),
                }
            },
            r is Err ==> final(self).entries() == old(self).entries(),
            final(self).same_settings(*old(self)),
    {
        if self.position(id.as_str()).is_some() {
            return Err(
                AgentError::Transport(String::from_str("Connection identifier is already in use")),
            );
        }
        match clock {
            Ok(now) => {
                proof {
                    lemma_closed_absent(self.entries(), id@);
                }
                self.register_connection(id.clone(), kind, client_id, now);
                Ok(id)
            },
            Err(e) => Err(e),
        }
    }

    /// Creates a connection over a peer channel for `client_id`, under a
    /// fresh random identifier, and returns the identifier. Fails if the
    /// clock cannot be read or the identifier drawn is already in use;
    /// then nothing changes.
    pub fn create_webrtc_connection(&mut self, client_id: String) -> (r: AgentResult<String>)
        ensures
            match r {
                Ok(id) => {
                    &&& id@.len() == 36
                    &&& lookup(old(self).entries(), id@) is None
                    &&& final(self).entries().len() == old(self).entries().len() + 1
                    &&& final(self).entries().drop_last() == old(self).entries()
                    &&& fresh_connection(id@, TransportType::WebRTC, client_id@, final(self).entries().last())
                },
                Err(e) => {
                    &&& e.kind() == ErrorKind::SystemTime || (e.kind() == ErrorKind::Transport
                        && e.text() == identifier_taken_text())
                    &&& final(self).entries() == old(self).entries()
                },
            },
            final(self).same_settings(*old(self)),
    {
        self.create_connection(client_id, TransportType::WebRTC)
    }

    /// Creates a connection over a socket for `client_id`, under a fresh
    /// random identifier, and returns the identifier. Fails if the clock
    /// cannot be read or the identifier drawn is already in use; then
    /// nothing changes.
    pub fn create_websocket_connection(&mut self, client_id: String) -> (r: AgentResult<String>)
        ensures
            match r {
                Ok(id) => {
                    &&& id@.len() == 36
                    &&& lookup(old(self).entries(), id@) is None
                    &&& final(self).entries().len() == old(self).entries().len() + 1
                    &&& final(self).entries().drop_last() == old(self).entries()
                    &&& fresh_connection(id@, TransportType::WebSocket, client_id@, final(self).entries().last())
                },
                Err(e) => {
                    &&& e.kind() == ErrorKind::SystemTime || (e.kind() == ErrorKind::Transport
                        && e.text() == identifier_taken_text())
                    &&& final(self).entries() == old(self).entries()
                },
            },
            final(self).same_settings(*old(self)),
    {
        self.create_connection(client_id, TransportType::WebSocket)
    }

    /// Creates a connection of the given kind for `client_id`, under a
    /// fresh random identifier.
    pub fn create_connection(&mut self, client_id: String, kind: TransportType) -> (r: AgentResult<String>)
        ensures
            match r {
                Ok(id) => {
                    &&& id@.len() == 36
                    &&& lookup(old(self).entries(), id@) is None
                    &&& final(self).entries().len() == old(self).entries().len() + 1
                    &&& final(self).entries().drop_last() == old(self).entries()
                    &&& fresh_connection(id@, kind, client_id@, final(self).entries().last())
                },
                Err(e) => {
                    &&& e.kind() == ErrorKind::SystemTime || (e.kind() == ErrorKind::Transport
                        && e.text() == identifier_taken_text())
                    &&& final(self).entries() == old(self).entries()
                },
            },
            final(self).same_settings(*old(self)),
    {
        let connection_id = generate_session_id();
        let clock = unix_seconds();
        self.admit_connection(connection_id, kind, client_id, clock)
    }
}

impl TransportManager {
    /// Takes the connection at `i` out of the registry.
    fn take_at(&mut self, i: usize) -> (c: Connection)
        requires
            i < old(self).entries().len(),
        ensures
            c.model() == old(self).entries()[i as int],
            final(self).entries() == old(self).entries().remove(i as int),
            final(self).same_settings(*old(self)),
    {
        proof {
            use_type_invariant(&*self);
        }
        let mut connections: Vec<Connection> = Vec::new();
        std::mem::swap(&mut connections, &mut self.connections);
        let c = connections.remove(i);
        proof {
            let before = old(self).entries();
            let after = Seq::new(connections@.len(), |k: int| connections@[k].model());
            assert(after =~= before.remove(i as int));
            assert forall|a: int, b: int| 0 <= a < b < after.len() implies after[a].info.id@
                != after[b].info.id@ by {
                let a0 = if a < i { a } else { a + 1 };
                let b0 = if b < i { b } else { b + 1 };
                assert(before[a0].info.id@ != before[b0].info.id@);
            }
        }
        self.connections = connections;
        c
    }

    /// Puts a connection into the registry at `i`.
    fn restore_at(&mut self, i: usize, c: Connection)
        requires
            i <= old(self).entries().len(),
            forall|k: int| 0 <= k < old(self).entries().len() ==> old(self).entries()[k].info.id@
                != c.info.id@,
        ensures
            final(self).entries() == old(self).entries().insert(i as int, c.model()),
            final(self).same_settings(*old(self)),
    {
        proof {
            use_type_invariant(&*self);
        }
        let mut connections: Vec<Connection> = Vec::new();
        std::mem::swap(&mut connections, &mut self.connections);
        connections.insert(i, c);
        proof {
            let before = old(self).entries();
            let after = Seq::new(connections@.len(), |k: int| connections@[k].model());
            assert(after =~= before.insert(i as int, c.model()));
            assert forall|a: int, b: int| 0 <= a < b < after.len() implies after[a].info.id@
                != after[b].info.id@ by {
                if a != i && b != i {
                    let a0 = if a < i { a } else { a - 1 };
                    let b0 = if b < i { b } else { b - 1 };
                    assert(before[a0].info.id@ != before[b0].info.id@);
                } else if a == i {
                    assert(before[b - 1].info.id@ != c.info.id@);
                } else {
                    assert(before[a].info.id@ != c.info.id@);
                }
            }
        }
        self.connections = connections;
    }

    /// Taking a connection out and putting a changed one with the same
    /// identifier back is changing the connection under that identifier.
    proof fn lemma_replace(
        s: Seq<ConnectionModel>,
        i: int,
        f: spec_fn(ConnectionModel) -> ConnectionModel,
    )
        requires
            distinct_connections(s),
            0 <= i < s.len(),
        ensures
            s.remove(i).insert(i, f(s[i])) == on_connection(s, s[i].info.id@, f),
            forall|k: int| 0 <= k < s.remove(i).len() ==> s.remove(i)[k].info.id@ != s[i].info.id@,
    {
        let id = s[i].info.id@;
        assert forall|k: int| 0 <= k < s.len() && k != i implies s[k].info.id@ != id by {
            if k < i {
                assert(s[k].info.id@ != s[i].info.id@);
            } else {
                assert(s[i].info.id@ != s[k].info.id@);
            }
        }
        assert(s.remove(i).insert(i, f(s[i])) =~= on_connection(s, id, f));
    }

    /// Applying a change under an identifier that no connection carries
    /// changes nothing.
    proof fn lemma_absent(s: Seq<ConnectionModel>, id: Seq<char>, f: spec_fn(ConnectionModel) -> ConnectionModel)
        requires
            forall|k: int| 0 <= k < s.len() ==> s[k].info.id@ != id,
        ensures
            on_connection(s, id, f) == s,
    {
        assert(on_connection(s, id, f) =~= s);
    }

    /// Notes that the channel of the connection `connection_id` exists
    /// now, so that messages and frames can be sent on it.
    pub fn attach_channel(&mut self, connection_id: &str) -> (r: AgentResult<()>)
        ensures
            outcome_on(
                old(self).entries(),
                connection_id@,
                |c: ConnectionModel| None::<Seq<char>>,
                |c: ConnectionModel| after_attach(c),
                failure_of(r),
                final(self).entries(),
            ),
            final(self).same_settings(*old(self)),
    {
        proof {
            use_type_invariant(&*self);
        }
        match self.position(connection_id) {
            Some(i) => {
                let mut c = self.take_at(i);
                proof {
                    Self::lemma_replace(old(self).entries(), i as int, |c: ConnectionModel| after_attach(c));
                }
                c.attached = true;
                self.restore_at(i, c);
                Ok(())
            },
            None => Err(AgentError::Transport(String::from_str("Connection not found"))),
        }
    }

    /// Moves the connection `connection_id` to the state `next`, if the
    /// connection's state allows that.
    pub fn set_connection_state(&mut self, connection_id: &str, next: ConnectionState) -> (r: AgentResult<()>)
        ensures
            outcome_on(
                old(self).entries(),
                connection_id@,
                |c: ConnectionModel|
                    if c.info.state.allows(next) {
                        None
                    } else {
                        Some("Invalid connection state transition"@)
                    },
                |c: ConnectionModel| in_state(c, next),
                failure_of(r),
                final(self).entries(),
            ),
            final(self).same_settings(*old(self)),
    {
        proof {
            use_type_invariant(&*self);
        }
        match self.position(connection_id) {
            Some(i) => {
                if !self.connections[i].info.state.can_transition_to(next) {
                    return Err(
                        AgentError::Transport(String::from_str("Invalid connection state transition")),
                    );
                }
                let mut c = self.take_at(i);
                proof {
                    Self::lemma_replace(old(self).entries(), i as int, |c: ConnectionModel| in_state(c, next));
                }
                c.info.state = next;
                self.restore_at(i, c);
                Ok(())
            },
            None => Err(AgentError::Transport(String::from_str("Connection not found"))),
        }
    }

    /// The error for a connection whose channel is missing.
    fn channel_missing(kind: TransportType) -> (e: AgentError)
        ensures
            e.kind() == ErrorKind::Transport,
            e.text() == match kind {
                TransportType::WebRTC => "WebRTC connection not found"@,
                TransportType::WebSocket => "WebSocket connection not found"@,
            },
    {
        match kind {
            TransportType::WebRTC => AgentError::Transport(String::from_str("WebRTC connection not found")),
            TransportType::WebSocket => AgentError::Transport(
                String::from_str("WebSocket connection not found"),
            ),
        }
    }

    /// Sends `message` on the connection `connection_id`: the message
    /// joins the back of the connection's outbox, from which messages
    /// leave in the order in which they were sent. Fails if there is no
    /// such connection or it has no channel; then nothing changes.
    pub fn send_message(&mut self, connection_id: &str, message: Message) -> (r: AgentResult<()>)
        ensures
            outcome_on(
                old(self).entries(),
                connection_id@,
                |c: ConnectionModel| send_fault(c),
                |c: ConnectionModel| after_send(c, message),
                failure_of(r),
                final(self).entries(),
            ),
            final(self).same_settings(*old(self)),
    {
        proof {
            use_type_invariant(&*self);
        }
        match self.position(connection_id) {
            Some(i) => {
                if !self.connections[i].attached {
                    return Err(Self::channel_missing(self.connections[i].info.transport_type));
                }
                let mut c = self.take_at(i);
                proof {
                    Self::lemma_replace(
                        old(self).entries(),
                        i as int,
                        |c: ConnectionModel| after_send(c, message),
                    );
                }
                c.outbox.push(message);
                self.restore_at(i, c);
                Ok(())
            },
            None => Err(AgentError::Transport(String::from_str("Connection not found"))),
        }
    }

    /// Offers `frame` to the frame queue of the connection
    /// `connection_id`. This never waits: where the queue is full a frame
    /// is dropped as the queue's policy says, and the dropped frame is
    /// returned. Fails if there is no such connection or it has no
    /// channel; then nothing changes.
    pub fn send_frame(&mut self, connection_id: &str, frame: Frame) -> (r: AgentResult<Option<Frame>>)
        ensures
            outcome_on(
                old(self).entries(),
                connection_id@,
                |c: ConnectionModel| send_fault(c),
                |c: ConnectionModel| after_frame(c, frame),
                failure_of(r),
                final(self).entries(),
            ),
            r matches Ok(dropped) ==> {
                let c = lookup(old(self).entries(), connection_id@)->Some_0;
                dropped == queue_dropped(c.media, c.media_capacity, c.media_policy, frame)
            },
            final(self).same_settings(*old(self)),
    {
        proof {
            use_type_invariant(&*self);
        }
        match self.position(connection_id) {
            Some(i) => {
                if !self.connections[i].attached {
                    return Err(Self::channel_missing(self.connections[i].info.transport_type));
                }
                let mut c = self.take_at(i);
                proof {
                    Self::lemma_replace(
                        old(self).entries(),
                        i as int,
                        |c: ConnectionModel| after_frame(c, frame),
                    );
                }
                let dropped = c.media.push(frame);
                self.restore_at(i, c);
                Ok(dropped)
            },
            None => Err(AgentError::Transport(String::from_str("Connection not found"))),
        }
    }

    /// Takes the message that has waited longest on the connection
    /// `connection_id`, if there is such a connection and a message waits.
    pub fn next_message(&mut self, connection_id: &str) -> (r: Option<Message>)
        ensures
            final(self).entries() == on_connection(
                old(self).entries(),
                connection_id@,
                |c: ConnectionModel| after_next_message(c),
            ),
            r == match lookup(old(self).entries(), connection_id@) {
                Some(c) => if c.outbox.len() > 0 {
                    Some(c.outbox[0])
                } else {
                    None
                },
                None => None,
            },
            final(self).same_settings(*old(self)),
    {
        proof {
            use_type_invariant(&*self);
        }
        match self.position(connection_id) {
            Some(i) => {
                let mut c = self.take_at(i);
                proof {
                    Self::lemma_replace(
                        old(self).entries(),
                        i as int,
                        |c: ConnectionModel| after_next_message(c),
                    );
                }
                let taken = if c.outbox.len() > 0 {
                    let m = c.outbox.remove(0);
                    assert(c.outbox@ =~= old(self).entries()[i as int].outbox.drop_first());
                    Some(m)
                } else {
                    None
                };
                self.restore_at(i, c);
                taken
            },
            None => {
                proof {
                    Self::lemma_absent(
                        self.entries(),
                        connection_id@,
                        |c: ConnectionModel| after_next_message(c),
                    );
                }
                None
            },
        }
    }

    /// Takes the frame that has waited longest on the connection
    /// `connection_id`, if there is such a connection and a frame waits.
    pub fn next_frame(&mut self, connection_id: &str) -> (r: Option<Frame>)
        ensures
            final(self).entries() == on_connection(
                old(self).entries(),
                connection_id@,
                |c: ConnectionModel| after_next_frame(c),
            ),
            r == match lookup(old(self).entries(), connection_id@) {
                Some(c) => if c.media.len() > 0 {
                    Some(c.media[0])
                } else {
                    None
                },
                None => None,
            },
            final(self).same_settings(*old(self)),
    {
        proof {
            use_type_invariant(&*self);
        }
        match self.position(connection_id) {
            Some(i) => {
                let mut c = self.take_at(i);
                proof {
                    Self::lemma_replace(
                        old(self).entries(),
                        i as int,
                        |c: ConnectionModel| after_next_frame(c),
                    );
                }
                let taken = c.media.pop();
                self.restore_at(i, c);
                taken
            },
            None => {
                proof {
                    Self::lemma_absent(
                        self.entries(),
                        connection_id@,
                        |c: ConnectionModel| after_next_frame(c),
                    );
                }
                None
            },
        }
    }

    /// Records activity at time `now` on the connection `connection_id`
    /// and tells whether there is such a connection. The last activity
    /// never moves backwards.
    pub fn record_activity(&mut self, connection_id: &str, now: u64) -> (r: bool)
        ensures
            final(self).entries() == on_connection(
                old(self).entries(),
                connection_id@,
                |c: ConnectionModel| after_activity(c, now),
            ),
            r == lookup(old(self).entries(), connection_id@) is Some,
            final(self).same_settings(*old(self)),
    {
        proof {
            use_type_invariant(&*self);
        }
        match self.position(connection_id) {
            Some(i) => {
                let mut c = self.take_at(i);
                proof {
                    Self::lemma_replace(
                        old(self).entries(),
                        i as int,
                        |c: ConnectionModel| after_activity(c, now),
                    );
                }
                if now > c.info.last_activity {
                    c.info.last_activity = now;
                }
                self.restore_at(i, c);
                true
            },
            None => {
                proof {
                    Self::lemma_absent(
                        self.entries(),
                        connection_id@,
                        |c: ConnectionModel| after_activity(c, now),
                    );
                }
                false
            },
        }
    }

    /// Handles an inbound message at time `now`: where its payload names
    /// a connection in the member `connection_id`, that connection's last
    /// activity is updated. Tells whether a connection was updated.
    pub fn process_inbound(&mut self, message: &Message, now: u64) -> (r: bool)
        ensures
            match json_string_member(message.data@, "connection_id"@) {
                Some(id) => final(self).entries() == on_connection(
                    old(self).entries(),
                    id,
                    |c: ConnectionModel| after_activity(c, now),
                ) && r == lookup(old(self).entries(), id) is Some,
                None => final(self).entries() == old(self).entries() && !r,
            },
            final(self).same_settings(*old(self)),
    {
        match read_string_member(message.data.as_str(), "connection_id") {
            Some(id) => self.record_activity(id.as_str(), now),
            None => false,
        }
    }

    /// Sends `message` on every connection, oldest first, and reports one
    /// attempt per connection. A connection on which the message cannot
    /// be sent is reported with its error and does not keep the message
    /// from the others.
    pub fn broadcast_message(&mut self, message: Message) -> (r: Vec<(String, AgentResult<()>)>)
        ensures
            r@.len() == old(self).entries().len(),
            forall|i: int| 0 <= i < r@.len() ==> attempt_matches(old(self).entries()[i], #[trigger] r@[i]),
            final(self).entries() == broadcast_to(old(self).entries(), message),
            final(self).same_settings(*old(self)),
    {
        proof {
            use_type_invariant(&*self);
        }
        let ghost before = self.entries();
        let mut connections: Vec<Connection> = Vec::new();
        std::mem::swap(&mut connections, &mut self.connections);
        let mut attempts: Vec<(String, AgentResult<()>)> = Vec::new();
        let mut i: usize = 0;
        while i < connections.len()
            invariant
                i <= connections@.len(),
                connections@.len() == before.len(),
                attempts@.len() == i,
                forall|k: int| 0 <= k < i ==> attempt_matches(before[k], #[trigger] attempts@[k]),
                forall|k: int| 0 <= k < i ==> connections@[k].model() == after_send(before[k], message),
                forall|k: int| i <= k < before.len() ==> connections@[k].model() == before[k],
            decreases connections.len() - i,
        {
            let ghost snapshot = connections@;
            let mut c = connections.remove(i);
            let id = c.info.id.clone();
            let attempt = if c.attached {
                c.outbox.push(message.clone());
                Ok(())
            } else {
                Err(Self::channel_missing(c.info.transport_type))
            };
            attempts.push((id, attempt));
            connections.insert(i, c);
            assert(connections@ =~= snapshot.update(i as int, c));
            i += 1;
        }
        proof {
            let after = Seq::new(connections@.len(), |k: int| connections@[k].model());
            assert(after =~= broadcast_to(before, message));
            assert forall|a: int, b: int| 0 <= a < b < after.len() implies after[a].info.id@
                != after[b].info.id@ by {
                assert(before[a].info.id@ != before[b].info.id@);
            }
        }
        self.connections = connections;
        attempts
    }

    /// Closes the connection `connection_id`: it leaves the registry with
    /// everything that waited on it. Where it had a channel, the
    /// channel's identifier and kind are returned for release. Closing an
    /// identifier that is unknown or already closed changes nothing and
    /// is no error.
    pub fn close_connection(&mut self, connection_id: &str) -> (r: AgentResult<Option<(String, TransportType)>>)
        ensures
            r is Ok,
            final(self).entries() == closed(old(self).entries(), connection_id@),
            match lookup(old(self).entries(), connection_id@) {
                Some(c) => if c.attached {
                    r->Ok_0 is Some && r->Ok_0->Some_0.0@ == connection_id@ && r->Ok_0->Some_0.1
                        == c.info.transport_type
                } else {
                    r->Ok_0 is None
                },
                None => r->Ok_0 is None && final(self).entries() == old(self).entries(),
            },
            final(self).same_settings(*old(self)),
    {
        proof {
            use_type_invariant(&*self);
        }
        match self.position(connection_id) {
            Some(i) => {
                proof {
                    Self::lemma_remove_is_closed(self.entries(), i as int);
                }
                let c = self.take_at(i);
                if c.attached {
                    Ok(Some((c.info.id, c.info.transport_type)))
                } else {
                    Ok(None)
                }
            },
            None => {
                proof {
                    lemma_closed_absent(self.entries(), connection_id@);
                }
                Ok(None)
            },
        }
    }

    /// Closes every connection and returns the channels to release, in
    /// the order of the connections. Afterwards the registry is empty.
    pub fn close_all_connections(&mut self) -> (r: AgentResult<Vec<(String, TransportType)>>)
        ensures
            r is Ok,
            released_view(r->Ok_0@) == channels(old(self).entries()),
            final(self).entries() == Seq::<ConnectionModel>::empty(),
            final(self).same_settings(*old(self)),
    {
        let ghost before = self.entries();
        let ghost open = |c: ConnectionModel| c.attached;
        let ghost label = |c: ConnectionModel| (c.info.id@, c.info.transport_type);
        let mut connections: Vec<Connection> = Vec::new();
        std::mem::swap(&mut connections, &mut self.connections);
        assert(self.entries() =~= Seq::<ConnectionModel>::empty());
        let mut released: Vec<(String, TransportType)> = Vec::new();
        let mut i: usize = 0;
        assert(before.take(0).filter(open) =~= Seq::<ConnectionModel>::empty()) by {
            reveal(Seq::filter);
        }
        assert(released_view(released@) =~= before.take(0).filter(open).map_values(label));
        while i < connections.len()
            invariant
                i <= connections@.len(),
                connections@.len() == before.len(),
                forall|k: int| 0 <= k < before.len() ==> connections@[k].model() == before[k],
                released_view(released@) == before.take(i as int).filter(open).map_values(label),
                open == |c: ConnectionModel| c.attached,
                label == |c: ConnectionModel| (c.info.id@, c.info.transport_type),
            decreases connections.len() - i,
        {
            proof {
                assert(before.take(i + 1) =~= before.take(i as int).push(before[i as int]));
                before.take(i as int).lemma_filter_push(before[i as int], open);
            }
            if connections[i].attached {
                released.push((connections[i].info.id.clone(), connections[i].info.transport_type));
                proof {
                    let kept = before.take(i as int).filter(open);
                    let added = before[i as int];
                    assert(released_view(released@) =~= released_view(released@.drop_last()).push(
                        label(added),
                    ));
                    assert(kept.push(added).map_values(label) =~= kept.map_values(label).push(
                        label(added),
                    ));
                }
            }
            i += 1;
        }
        assert(before.take(i as int) =~= before);
        Ok(released)
    }

    /// Stops the transport layer: every connection is closed, and the
    /// channels to release are returned.
    pub fn stop(&mut self) -> (r: AgentResult<Vec<(String, TransportType)>>)
        ensures
            r is Ok,
            released_view(r->Ok_0@) == channels(old(self).entries()),
            final(self).entries() == Seq::<ConnectionModel>::empty(),
            final(self).same_settings(*old(self)),
    {
        self.close_all_connections()
    }

    /// The ICE servers for peer connections: the configured URLs, or none
    /// where peer connections are switched off.
    pub open spec fn planned_ice_servers(config: TransportConfig) -> Seq<Seq<char>> {
        if config.webrtc_enabled {
            texts(config.ice_servers@)
        } else {
            Seq::empty()
        }
    }

    /// Says what has to be brought up for the configured transports.
    pub fn start(&mut self) -> (r: AgentResult<TransportStartPlan>)
        ensures
            r is Ok,
            r->Ok_0.webrtc_signaling == old(self).config().webrtc_enabled,
            r->Ok_0.websocket_server == old(self).config().websocket_enabled,
            texts(r->Ok_0.ice_servers@) == Self::planned_ice_servers(old(self).config()),
            final(self).entries() == old(self).entries(),
            final(self).same_settings(*old(self)),
    {
        let mut ice_servers: Vec<String> = Vec::new();
        if self.config.webrtc_enabled {
            let mut i: usize = 0;
            assert(texts(ice_servers@) =~= texts(self.config.ice_servers@.take(0)));
            while i < self.config.ice_servers.len()
                invariant
                    i <= self.config.ice_servers@.len(),
                    texts(ice_servers@) == texts(self.config.ice_servers@.take(i as int)),
                decreases self.config.ice_servers.len() - i,
            {
                ice_servers.push(self.config.ice_servers[i].clone());
                proof {
                    let source = self.config.ice_servers@;
                    assert(source.take(i + 1) =~= source.take(i as int).push(source[i as int]));
                    assert(texts(ice_servers@) =~= texts(ice_servers@.drop_last()).push(
                        source[i as int]@,
                    ));
                    assert(texts(source.take(i + 1)) =~= texts(source.take(i as int)).push(
                        source[i as int]@,
                    ));
                }
                i += 1;
            }
            assert(self.config.ice_servers@.take(i as int) =~= self.config.ice_servers@);
        } else {
            assert(texts(ice_servers@) =~= Seq::<Seq<char>>::empty());
        }
        Ok(
            TransportStartPlan {
                webrtc_signaling: self.config.webrtc_enabled,
                ice_servers,
                websocket_server: self.config.websocket_enabled,
            },
        )
    }
}

} // verus!
