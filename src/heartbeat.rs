//! Heartbeat supervisor: watches the arrival times of heartbeats from the
//! flight computer and raises the abort signal, once, when a check finds
//! that more than the timeout has passed since the last one.
use vstd::prelude::*;

verus! {

/// Default heartbeat timeout, in milliseconds.
pub const HEARTBEAT_TIME_LIMIT_MS: u64 = 250;

/// What the supervisor observes, each with the time in milliseconds.
#[derive(Debug, Clone, Copy, PartialEq, Eq, Structural)]
pub enum SupervisorEvent {
    /// A valid heartbeat arrived.
    Heartbeat(u64),
    /// The supervisor looks at the clock.
    Check(u64),
}

/// Supervisor state: when the last heartbeat arrived, the timeout, and
/// whether the abort signal has been raised.
#[derive(Debug, Clone, Copy, PartialEq, Eq, Structural)]
pub struct Supervisor {
    pub last_seen: u64,
    pub timeout: u64,
    pub aborted: bool,
}

/// Time from `since` to `now`; zero if the clock reads earlier than `since`.
pub open spec fn elapsed(since: u64, now: u64) -> int {
    if now >= since {
        now - since
    } else {
        0
    }
}

/// The state after `ev`, and whether `ev` raised the abort signal.
pub open spec fn spec_step(s: Supervisor, ev: SupervisorEvent) -> (Supervisor, bool) {
    match ev {
        SupervisorEvent::Heartbeat(t) => (Supervisor { last_seen: t, ..s }, false),
        SupervisorEvent::Check(t) => {
            let late = elapsed(s.last_seen, t) > s.timeout;
            if !s.aborted && late {
                (Supervisor { aborted: true, ..s }, true)
            } else {
                (s, false)
            }
        },
    }
}

/// The state after a stream of events, and how many times the signal was raised.
pub open spec fn run(s: Supervisor, evs: Seq<SupervisorEvent>) -> (Supervisor, nat)
    decreases evs.len(),
{
    if evs.len() == 0 {
        (s, 0)
    } else {
        let (s1, n) = run(s, evs.drop_last());
        let (s2, raised) = spec_step(s1, evs.last());
        (s2, if raised { n + 1 } else { n })
    }
}

/// Time of the last heartbeat in `evs`, or `start` if there is none.
pub open spec fn last_heartbeat(start: u64, evs: Seq<SupervisorEvent>) -> u64
    decreases evs.len(),
{
    if evs.len() == 0 {
        start
    } else {
        match evs.last() {
            SupervisorEvent::Heartbeat(t) => t,
            SupervisorEvent::Check(_) => last_heartbeat(start, evs.drop_last()),
        }
    }
}

/// Event `i` is a check that comes more than `timeout` after the last
/// heartbeat before it.
pub open spec fn late_check(start: u64, timeout: u64, evs: Seq<SupervisorEvent>, i: int) -> bool {
    match evs[i] {
        SupervisorEvent::Check(t) => elapsed(last_heartbeat(start, evs.take(i)), t) > timeout,
        SupervisorEvent::Heartbeat(_) => false,
    }
}

impl Supervisor {
    /// A supervisor armed at time `now`.
    pub fn new(now: u64, timeout: u64) -> (r: Supervisor)
        ensures
            r == (Supervisor { last_seen: now, timeout, aborted: false }),
    {
        Supervisor { last_seen: now, timeout, aborted: false }
    }

    /// Records a heartbeat that arrived at `now`.
    pub fn on_heartbeat(&mut self, now: u64)
        ensures
            (*final(self), false) == spec_step(*old(self), SupervisorEvent::Heartbeat(now)),
    {
        self.last_seen = now;
    }

    /// Looks at the clock; returns true when this check raises the abort
    /// signal, which happens at most once.
    pub fn check(&mut self, now: u64) -> (r: bool)
        ensures
            (*final(self), r) == spec_step(*old(self), SupervisorEvent::Check(now)),
    {
        let el: u64 = if now >= self.last_seen { now - self.last_seen } else { 0 };
        if !self.aborted && el > self.timeout {
            self.aborted = true;
            true
        } else {
            false
        }
    }

    /// Handles one event; returns true when it raises the abort signal.
    pub fn step(&mut self, ev: SupervisorEvent) -> (r: bool)
        ensures
            (*final(self), r) == spec_step(*old(self), ev),
    {
        match ev {
            SupervisorEvent::Heartbeat(t) => {
                self.on_heartbeat(t);
                false
            },
            SupervisorEvent::Check(t) => self.check(t),
        }
    }
}

/// Over any stream of events, a freshly armed supervisor raises the abort
/// signal exactly once if some check comes more than the timeout after the
/// last heartbeat before it, and never otherwise. In particular heartbeats
/// that keep every check within the timeout never cause an abort.
pub proof fn lemma_abort_exactly_once(start: u64, timeout: u64, evs: Seq<SupervisorEvent>)
    ensures
        run(Supervisor { last_seen: start, timeout, aborted: false }, evs).1
            == if exists|i: int| 0 <= i < evs.len() && #[trigger] late_check(start, timeout, evs, i) {
            1nat
        } else {
            0nat
        },
    decreases evs.len(),
{
    lemma_run_state(start, timeout, evs);
}

/// What a run keeps track of: the last heartbeat, the timeout, whether a
/// late check happened, and one signal exactly when it did.
proof fn lemma_run_state(start: u64, timeout: u64, evs: Seq<SupervisorEvent>)
    ensures
        ({
            let (s, n) = run(Supervisor { last_seen: start, timeout, aborted: false }, evs);
            let any_late = exists|i: int| 0 <= i < evs.len() && #[trigger] late_check(start, timeout, evs, i);
            &&& s.last_seen == last_heartbeat(start, evs)
            &&& s.timeout == timeout
            &&& s.aborted == any_late
            &&& n == if any_late { 1nat } else { 0nat }
        }),
    decreases evs.len(),
{
    if evs.len() > 0 {
        let pre = evs.drop_last();
        let k = evs.len() - 1;
        lemma_run_state(start, timeout, pre);
        assert(evs.take(k) =~= pre);
        assert forall|i: int| 0 <= i < k implies late_check(start, timeout, evs, i) == late_check(start, timeout, pre, i) by {
            assert(evs.take(i) =~= pre.take(i));
        }
        let any_pre = exists|i: int| 0 <= i < pre.len() && #[trigger] late_check(start, timeout, pre, i);
        let any_all = exists|i: int| 0 <= i < evs.len() && #[trigger] late_check(start, timeout, evs, i);
        if any_pre {
            let i = choose|i: int| 0 <= i < pre.len() && #[trigger] late_check(start, timeout, pre, i);
            assert(late_check(start, timeout, evs, i));
        }
        if any_all && !any_pre {
            let i = choose|i: int| 0 <= i < evs.len() && #[trigger] late_check(start, timeout, evs, i);
            assert(i == k);
        }
        if late_check(start, timeout, evs, k) {
            assert(any_all);
        }
    }
}

} // verus!
