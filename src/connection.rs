//! The state of one gateway connection and the dispatcher that moves it on
//! each frame read from the socket.
use vstd::prelude::*;
use crate::api_schema::{decode, decoded, result_view, Envelope, ProtocolError, WsMessage};
use crate::incoming::{event_kind, event_matches, well_shaped, IncomingWsEvent};
use crate::json::{int_member, str_member};

verus! {

/// Where a connection stands.
#[derive(Debug, Clone, Copy, PartialEq, Eq, Structural)]
pub enum Phase {
    Connecting,
    AwaitingHello,
    Identifying,
    Established,
    Closing,
    Closed,
}

/// The state of one connection. `last_sequence` is the largest sequence
/// number seen, or `-1` before the first; it is the one value that the
/// heartbeat task reads, through an atomic cell that mirrors it.
#[derive(Debug)]
pub struct ConnectionState {
    pub phase: Phase,
    pub last_sequence: i64,
    pub session_id: Option<String>,
    pub heartbeat_started: bool,
}

/// The model of a connection's state.
pub struct ConnModel {
    pub phase: Phase,
    pub last_sequence: int,
    pub session_id: Option<Seq<char>>,
    pub heartbeat_started: bool,
}

impl View for ConnectionState {
    type V = ConnModel;

    open spec fn view(&self) -> ConnModel {
        ConnModel {
            phase: self.phase,
            last_sequence: self.last_sequence as int,
            session_id: match self.session_id {
                Some(s) => Some(s@),
                None => None,
            },
            heartbeat_started: self.heartbeat_started,
        }
    }
}

/// What the dispatcher asks for after a frame.
#[derive(Debug)]
pub struct FrameOutcome {
    /// The event read, or why the frame could not be read; either way the
    /// connection goes on.
    pub event: Result<IncomingWsEvent, ProtocolError>,
    /// Start the heartbeat task with this interval, in milliseconds.
    pub start_heartbeat: Option<u64>,
    /// The frame carried a sequence number below the largest seen so far:
    /// a protocol violation to report, on which nothing is done.
    pub sequence_regressed: bool,
}

pub open spec fn is_closing(p: Phase) -> bool {
    p == Phase::Closing || p == Phase::Closed
}

/// The heartbeat interval of a well-shaped hello frame.
pub open spec fn hello_interval(e: Envelope) -> Option<int> {
    if event_kind(e) is Hello && well_shaped(e) {
        int_member(e.d->0, "heartbeat_interval"@)
    } else {
        None
    }
}

/// The session of a well-shaped ready frame.
pub open spec fn ready_session(e: Envelope) -> Option<Seq<char>> {
    if event_kind(e) is Ready && well_shaped(e) {
        str_member(e.d->0, "session_id"@)
    } else {
        None
    }
}

/// The largest sequence number after a frame: a smaller one is not taken.
pub open spec fn next_sequence(cur: int, e: Envelope) -> int {
    match e.s {
        Some(s) => if s > cur {
            s
        } else {
            cur
        },
        None => cur,
    }
}

pub open spec fn next_phase(p: Phase, e: Envelope) -> Phase {
    if p == Phase::AwaitingHello && hello_interval(e) is Some {
        Phase::Identifying
    } else if (p == Phase::AwaitingHello || p == Phase::Identifying) && ready_session(e) is Some {
        Phase::Established
    } else {
        p
    }
}

/// A frame that starts the heartbeat from state `st`: a hello with a
/// positive interval on an open connection whose heartbeat has not started.
pub open spec fn starts_heartbeat(st: ConnModel, f: Result<Envelope, ProtocolError>) -> bool {
    &&& !is_closing(st.phase)
    &&& !st.heartbeat_started
    &&& f matches Ok(e) && hello_interval(e) matches Some(h) && h > 0
}

/// The state after one frame. A frame that could not be read changes
/// nothing; neither does any frame once the connection is closing.
pub open spec fn step(st: ConnModel, f: Result<Envelope, ProtocolError>) -> ConnModel {
    match f {
        Err(_) => st,
        Ok(e) => if is_closing(st.phase) {
            st
        } else {
            ConnModel {
                phase: next_phase(st.phase, e),
                last_sequence: next_sequence(st.last_sequence, e),
                session_id: if st.session_id is None {
                    ready_session(e)
                } else {
                    st.session_id
                },
                heartbeat_started: st.heartbeat_started || starts_heartbeat(st, f),
            }
        },
    }
}

/// The state after a run of frames.
pub open spec fn run(st: ConnModel, fs: Seq<Result<Envelope, ProtocolError>>) -> ConnModel
    decreases fs.len(),
{
    if fs.len() == 0 {
        st
    } else {
        run(step(st, fs[0]), fs.drop_first())
    }
}

/// How many frames of a run start the heartbeat.
pub open spec fn heartbeat_starts(st: ConnModel, fs: Seq<Result<Envelope, ProtocolError>>) -> nat
    decreases fs.len(),
{
    if fs.len() == 0 {
        0
    } else {
        (if starts_heartbeat(st, fs[0]) {
            1nat
        } else {
            0nat
        }) + heartbeat_starts(step(st, fs[0]), fs.drop_first())
    }
}

/// A frame read on an open connection with a sequence number below the
/// largest seen.
pub open spec fn regresses(st: ConnModel, f: Result<Envelope, ProtocolError>) -> bool {
    &&& !is_closing(st.phase)
    &&& f matches Ok(e) && e.s matches Some(s) && s < st.last_sequence
}

/// A hello with a positive interval.
pub open spec fn is_hello(f: Result<Envelope, ProtocolError>) -> bool {
    f matches Ok(e) && hello_interval(e) matches Some(h) && h > 0
}

/// The sequence number of a frame that was read and carries one.
pub open spec fn carries_sequence(f: Result<Envelope, ProtocolError>, s: int) -> bool {
    f matches Ok(e) && e.s == Some(s)
}

impl ConnectionState {
    /// A connection whose socket is being opened.
    pub fn new() -> (r: ConnectionState)
        ensures
            r@ == (ConnModel {
                phase: Phase::Connecting,
                last_sequence: -1,
                session_id: None,
                heartbeat_started: false,
            }),
    {
        ConnectionState {
            phase: Phase::Connecting,
            last_sequence: -1,
            session_id: None,
            heartbeat_started: false,
        }
    }

    /// The socket is open: the connection waits for the hello.
    pub fn on_socket_open(&mut self)
        ensures
            final(self)@ == (ConnModel {
                phase: if old(self).phase == Phase::Connecting {
                    Phase::AwaitingHello
                } else {
                    old(self).phase
                },
                ..old(self)@
            }),
    {
        if self.phase == Phase::Connecting {
            self.phase = Phase::AwaitingHello;
        }
    }

    /// A disconnect was asked for, or the command queue closed.
    pub fn begin_close(&mut self)
        ensures
            final(self)@ == (ConnModel {
                phase: if old(self).phase == Phase::Closed {
                    Phase::Closed
                } else {
                    Phase::Closing
                },
                ..old(self)@
            }),
    {
        if self.phase != Phase::Closed {
            self.phase = Phase::Closing;
        }
    }

    /// The socket is gone: nothing more is read or written.
    pub fn on_socket_closed(&mut self)
        ensures
            final(self)@ == (ConnModel { phase: Phase::Closed, ..old(self)@ }),
    {
        self.phase = Phase::Closed;
    }

    /// Handles a frame that was decoded, or could not be.
    pub fn on_message(&mut self, frame: Result<WsMessage, ProtocolError>) -> (out: FrameOutcome)
        ensures
            final(self)@ == step(old(self)@, result_view(frame)),
            out.start_heartbeat == (if starts_heartbeat(old(self)@, result_view(frame)) {
                Some(hello_interval(frame->Ok_0@)->0 as u64)
            } else {
                None
            }),
            out.sequence_regressed == regresses(old(self)@, result_view(frame)),
            match (frame, out.event) {
                (Ok(m), Ok(ev)) => event_matches(m@, ev),
                (Err(e1), Err(e2)) => e1 == e2,
                _ => false,
            },
    {
        let m = match frame {
            Err(e) => {
                return FrameOutcome { event: Err(e), start_heartbeat: None, sequence_regressed: false };
            },
            Ok(m) => m,
        };
        let ev = IncomingWsEvent::from_message(&m);
        if self.phase == Phase::Closing || self.phase == Phase::Closed {
            return FrameOutcome { event: Ok(ev), start_heartbeat: None, sequence_regressed: false };
        }
        let mut regressed = false;
        match m.s {
            Some(s) => {
                if s > self.last_sequence {
                    self.last_sequence = s;
                } else if s < self.last_sequence {
                    regressed = true;
                }
            },
            None => {},
        }
        let mut start: Option<u64> = None;
        match &ev {
            IncomingWsEvent::Hello { heartbeat_interval } => {
                if *heartbeat_interval > 0 && !self.heartbeat_started {
                    self.heartbeat_started = true;
                    start = Some(*heartbeat_interval as u64);
                }
                if self.phase == Phase::AwaitingHello {
                    self.phase = Phase::Identifying;
                }
            },
            IncomingWsEvent::Ready { session_id, .. } => {
                if self.session_id.is_none() {
                    self.session_id = Some(session_id.clone());
                }
                if self.phase == Phase::AwaitingHello || self.phase == Phase::Identifying {
                    self.phase = Phase::Established;
                }
            },
            _ => {},
        }
        FrameOutcome { event: Ok(ev), start_heartbeat: start, sequence_regressed: regressed }
    }

    /// Handles a text read from the socket.
    pub fn on_frame(&mut self, text: &str) -> (out: FrameOutcome)
        ensures
            final(self)@ == step(old(self)@, decoded(text@)),
            out.start_heartbeat == (if starts_heartbeat(old(self)@, decoded(text@)) {
                Some(hello_interval(decoded(text@)->Ok_0)->0 as u64)
            } else {
                None
            }),
            match (decoded(text@), out.event) {
                (Ok(e), Ok(ev)) => event_matches(e, ev),
                (Err(e1), Err(e2)) => e1 == e2,
                _ => false,
            },
    {
        let frame = decode(text);
        self.on_message(frame)
    }
}

/// A frame that could not be read leaves the state as it was; in particular
/// it never changes the phase.
pub proof fn lemma_malformed_frame_changes_nothing(st: ConnModel, e: ProtocolError)
    ensures
        step(st, Err(e)) == st,
        !starts_heartbeat(st, Err(e)),
{
}

/// Once started, the heartbeat stays started.
proof fn lemma_started_stays(st: ConnModel, fs: Seq<Result<Envelope, ProtocolError>>)
    requires
        st.heartbeat_started,
    ensures
        heartbeat_starts(st, fs) == 0,
        run(st, fs).heartbeat_started,
    decreases fs.len(),
{
    if fs.len() > 0 {
        lemma_started_stays(step(st, fs[0]), fs.drop_first());
    }
}

/// On an open connection, whatever the frames, the heartbeat is started at
/// most once; and exactly once when a hello with a positive interval comes
/// and it had not started before. Duplicate hellos start nothing more.
pub proof fn lemma_heartbeat_starts_once(st: ConnModel, fs: Seq<Result<Envelope, ProtocolError>>)
    requires
        !is_closing(st.phase),
    ensures
        heartbeat_starts(st, fs) <= 1,
        st.heartbeat_started ==> heartbeat_starts(st, fs) == 0,
        !st.heartbeat_started ==> (heartbeat_starts(st, fs) == 1 <==> exists|i: int|
            0 <= i < fs.len() && #[trigger] is_hello(fs[i])),
    decreases fs.len(),
{
    if fs.len() == 0 {
        return;
    }
    let next = step(st, fs[0]);
    let rest = fs.drop_first();
    assert(!is_closing(next.phase));
    lemma_heartbeat_starts_once(next, rest);
    if st.heartbeat_started {
        lemma_started_stays(st, fs);
    } else if starts_heartbeat(st, fs[0]) {
        lemma_started_stays(next, rest);
        assert(is_hello(fs[0]));
    } else {
        assert(!is_hello(fs[0]));
        assert(!next.heartbeat_started);
        if heartbeat_starts(st, fs) == 1 {
            let i = choose|i: int| 0 <= i < rest.len() && #[trigger] is_hello(rest[i]);
            assert(is_hello(fs[i + 1]));
        }
        if exists|i: int| 0 <= i < fs.len() && #[trigger] is_hello(fs[i]) {
            let i = choose|i: int| 0 <= i < fs.len() && #[trigger] is_hello(fs[i]);
            assert(i != 0);
            assert(is_hello(rest[i - 1]));
        }
    }
}

/// On an open connection, the counter after a run of frames, read or not,
/// is the largest of its start value and of every sequence number that a
/// frame which was read carried.
pub proof fn lemma_sequence_is_maximum(st: ConnModel, fs: Seq<Result<Envelope, ProtocolError>>)
    requires
        !is_closing(st.phase),
    ensures
        run(st, fs).last_sequence >= st.last_sequence,
        forall|i: int, s: int|
            0 <= i < fs.len() && #[trigger] carries_sequence(fs[i], s) ==> run(st, fs).last_sequence
                >= s,
        run(st, fs).last_sequence == st.last_sequence || exists|i: int|
            0 <= i < fs.len() && #[trigger] carries_sequence(fs[i], run(st, fs).last_sequence),
    decreases fs.len(),
{
    if fs.len() == 0 {
        return;
    }
    let next = step(st, fs[0]);
    let rest = fs.drop_first();
    lemma_sequence_is_maximum(next, rest);
    let r = run(st, fs);
    assert(r == run(next, rest));
    assert forall|i: int, s: int|
        0 <= i < fs.len() && #[trigger] carries_sequence(fs[i], s) implies r.last_sequence >= s by {
        if i > 0 {
            assert(carries_sequence(rest[i - 1], s));
        }
    }
    if r.last_sequence != st.last_sequence {
        if r.last_sequence == next.last_sequence {
            assert(carries_sequence(fs[0], r.last_sequence));
        } else {
            let i = choose|i: int|
                0 <= i < rest.len() && #[trigger] carries_sequence(rest[i], r.last_sequence);
            assert(carries_sequence(fs[i + 1], r.last_sequence));
        }
    }
}

} // verus!
