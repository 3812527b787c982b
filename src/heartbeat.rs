//! The heartbeat scheduler's decisions: when each heartbeat is due and what
//! it carries. The task that sleeps and enqueues lives with the runtime.
use vstd::prelude::*;
use rand::Rng;
use crate::api_schema::WsMessageType;

verus! {

/// Relies on rand's `thread_rng().gen_range(0..bound)`: a value drawn
/// uniformly below `bound`; it panics on an empty range, which `requires`
/// leaves out.
#[verifier::external_body]
fn random_below(bound: u64) -> (r: u64)
    requires
        bound > 0,
    ensures
        r < bound,
{
    rand::thread_rng().gen_range(0..bound)
}

/// A running heartbeat: a random first delay below the interval, then one
/// heartbeat every interval, until the command queue refuses one.
#[derive(Debug)]
pub struct HeartbeatScheduler {
    pub interval_ms: u64,
    pub first_delay_ms: u64,
    pub sent: u64,
    pub stopped: bool,
}

/// The time, from the start, at which heartbeat `k` (from 0) is due.
pub open spec fn due_time(first_delay: int, interval: int, k: nat) -> int
    decreases k,
{
    if k == 0 {
        first_delay
    } else {
        due_time(first_delay, interval, (k - 1) as nat) + interval
    }
}

/// The command of a heartbeat, given the shared counter: `-1` (or any
/// negative value) means that no sequence number has been seen.
pub open spec fn heartbeat_of(last_sequence: i64) -> WsMessageType {
    WsMessageType::Heartbeat(if last_sequence < 0 { None } else { Some(last_sequence) })
}

impl HeartbeatScheduler {
    /// Starts a heartbeat for a negotiated interval, drawing the first delay.
    pub fn start(interval_ms: u64) -> (r: HeartbeatScheduler)
        requires
            interval_ms > 0,
        ensures
            r.interval_ms == interval_ms,
            r.first_delay_ms < interval_ms,
            r.sent == 0,
            !r.stopped,
    {
        let first_delay_ms = random_below(interval_ms);
        HeartbeatScheduler::with_first_delay(interval_ms, first_delay_ms)
    }

    /// A heartbeat with a given first delay.
    pub fn with_first_delay(interval_ms: u64, first_delay_ms: u64) -> (r: HeartbeatScheduler)
        requires
            first_delay_ms < interval_ms,
        ensures
            r.interval_ms == interval_ms,
            r.first_delay_ms == first_delay_ms,
            r.sent == 0,
            !r.stopped,
    {
        HeartbeatScheduler { interval_ms, first_delay_ms, sent: 0, stopped: false }
    }

    /// How long to wait before the next heartbeat: the first delay before
    /// the first, the interval before every later one.
    pub fn next_delay(&self) -> (r: u64)
        ensures
            r == if self.sent == 0 {
                self.first_delay_ms
            } else {
                self.interval_ms
            },
    {
        if self.sent == 0 {
            self.first_delay_ms
        } else {
            self.interval_ms
        }
    }

    /// The heartbeat to enqueue now, or `None` once stopped.
    pub fn tick(&mut self, last_sequence: i64) -> (r: Option<WsMessageType>)
        ensures
            final(self).interval_ms == old(self).interval_ms,
            final(self).first_delay_ms == old(self).first_delay_ms,
            final(self).stopped == old(self).stopped,
            old(self).stopped ==> r is None && final(self).sent == old(self).sent,
            !old(self).stopped ==> r == Some(heartbeat_of(last_sequence)) && final(self).sent == (
            if old(self).sent == u64::MAX {
                u64::MAX
            } else {
                (old(self).sent + 1) as u64
            }),
    {
        if self.stopped {
            return None;
        }
        if self.sent < u64::MAX {
            self.sent = self.sent + 1;
        }
        if last_sequence < 0 {
            Some(WsMessageType::Heartbeat(None))
        } else {
            Some(WsMessageType::Heartbeat(Some(last_sequence)))
        }
    }

    /// The queue took the heartbeat, or refused it because it is closed:
    /// then the scheduler stops, without error.
    pub fn on_enqueued(&mut self, accepted: bool)
        ensures
            final(self).stopped == (old(self).stopped || !accepted),
            final(self).interval_ms == old(self).interval_ms,
            final(self).first_delay_ms == old(self).first_delay_ms,
            final(self).sent == old(self).sent,
    {
        if !accepted {
            self.stopped = true;
        }
    }
}

/// The first heartbeat is due at an offset below the interval, and each
/// later one exactly one interval after the one before.
pub proof fn lemma_heartbeat_spacing(s: HeartbeatScheduler, k: nat)
    requires
        s.first_delay_ms < s.interval_ms,
    ensures
        0 <= due_time(s.first_delay_ms as int, s.interval_ms as int, 0) < s.interval_ms,
        due_time(s.first_delay_ms as int, s.interval_ms as int, k + 1) - due_time(
            s.first_delay_ms as int,
            s.interval_ms as int,
            k,
        ) == s.interval_ms,
        due_time(s.first_delay_ms as int, s.interval_ms as int, k) == s.first_delay_ms + k
            * s.interval_ms,
    decreases k,
{
    if k > 0 {
        lemma_heartbeat_spacing(s, (k - 1) as nat);
        assert(k * s.interval_ms == (k - 1) * s.interval_ms + s.interval_ms) by (nonlinear_arith);
    }
}

} // verus!
