//! Board state machine: start-up, connection to the flight computer,
//! polling, and abort. Each state names the work to do; the outcome of that
//! work decides the next state.
use vstd::prelude::*;
use crate::command::{init_gpio, safe_banks};
use crate::controllers::Controllers;
use crate::adc::{spec_node_id, Measurement};
use crate::scheduler::{lemma_current_loop_board_polls, spec_poll_plan, Source};

verus! {

/// Phase of the board.
#[derive(Debug, Clone, Copy, PartialEq, Eq, Structural)]
pub enum State {
    /// Nothing configured yet.
    Init,
    /// Converters configured; no session with the flight computer.
    Connect,
    /// In session; `poll` counts the polls done in it.
    MainLoop { poll: u64 },
    /// The supervisor found the flight computer silent.
    Abort,
}

/// The work that a state asks for.
#[derive(Debug, Clone, Copy, PartialEq, Eq, Structural)]
pub enum Action {
    /// Put the outputs in their safe state, build and program the converters.
    InitHardware,
    /// Resolve the flight computer, open the sockets, exchange identities,
    /// and arm a new supervisor.
    Handshake,
    /// Run pending commands; unless the supervisor has signalled, take poll
    /// number `poll` and send its records.
    Poll { poll: u64 },
    /// Put every actuation output in its safe state.
    SafeOutputs,
}

/// What came of the work.
#[derive(Debug, Clone, Copy, PartialEq, Eq, Structural)]
pub enum Outcome {
    /// The work finished.
    Done,
    /// The handshake failed and is to be tried again.
    ConnectFailed,
    /// The supervisor signalled abort; no poll was taken.
    AbortSignaled,
}

pub open spec fn spec_action(s: State) -> Action {
    match s {
        State::Init => Action::InitHardware,
        State::Connect => Action::Handshake,
        State::MainLoop { poll } => Action::Poll { poll },
        State::Abort => Action::SafeOutputs,
    }
}

/// Successor of poll counter `p`, wrapping at the top.
pub open spec fn next_poll(p: u64) -> u64 {
    if p < u64::MAX {
        (p + 1) as u64
    } else {
        0
    }
}

pub open spec fn spec_next(s: State, o: Outcome) -> State {
    match (s, o) {
        (State::Init, Outcome::Done) => State::Connect,
        (State::Connect, Outcome::Done) => State::MainLoop { poll: 0 },
        (State::Connect, Outcome::ConnectFailed) => State::Connect,
        (State::MainLoop { poll }, Outcome::Done) => State::MainLoop { poll: next_poll(poll) },
        (State::MainLoop { .. }, Outcome::AbortSignaled) => State::Abort,
        (State::Abort, Outcome::Done) => State::Connect,
        _ => s,
    }
}

impl State {
    /// The work to do in this state.
    pub fn action(&self) -> (r: Action)
        ensures
            r == spec_action(*self),
    {
        match *self {
            State::Init => Action::InitHardware,
            State::Connect => Action::Handshake,
            State::MainLoop { poll } => Action::Poll { poll },
            State::Abort => Action::SafeOutputs,
        }
    }

    /// The state that follows when the work of this state had `outcome`.
    /// Start-up leads to connecting; a failed handshake is retried; a
    /// session polls until the supervisor signals, then aborts; an abort
    /// leads back to connecting. An outcome that the state's work cannot
    /// have leaves the state as it is.
    pub fn next(self, outcome: Outcome) -> (r: State)
        ensures
            r == spec_next(self, outcome),
    {
        match (self, outcome) {
            (State::Init, Outcome::Done) => State::Connect,
            (State::Connect, Outcome::Done) => State::MainLoop { poll: 0 },
            (State::Connect, Outcome::ConnectFailed) => State::Connect,
            (State::MainLoop { poll }, Outcome::Done) => State::MainLoop {
                poll: if poll < u64::MAX {
                    poll + 1
                } else {
                    0
                },
            },
            (State::MainLoop { .. }, Outcome::AbortSignaled) => State::Abort,
            (State::Abort, Outcome::Done) => State::Connect,
            _ => self,
        }
    }
}

/// Number of identity messages sent before a handshake gives up.
pub const HANDSHAKE_TRIES: u32 = 5;

/// What came of one identity message.
#[derive(Debug, Clone, Copy, PartialEq, Eq, Structural)]
pub enum HandshakeEvent {
    /// The flight computer answered with its identity.
    Acknowledged,
    /// No valid answer came in time.
    NoReply,
}

/// What the handshake does next.
#[derive(Debug, Clone, Copy, PartialEq, Eq, Structural)]
pub enum HandshakeStep {
    Connected,
    SendIdentity,
    GiveUp,
}

/// The handshake's next step after `attempts` identity messages, the last
/// of which had `event`: connected on an answer, another try while the
/// budget lasts, else give up (and connect again from the start).
pub fn handshake_step(attempts: u32, event: HandshakeEvent) -> (r: HandshakeStep)
    ensures
        r == if event == HandshakeEvent::Acknowledged {
            HandshakeStep::Connected
        } else if attempts < HANDSHAKE_TRIES {
            HandshakeStep::SendIdentity
        } else {
            HandshakeStep::GiveUp
        },
{
    match event {
        HandshakeEvent::Acknowledged => HandshakeStep::Connected,
        HandshakeEvent::NoReply => if attempts < HANDSHAKE_TRIES {
            HandshakeStep::SendIdentity
        } else {
            HandshakeStep::GiveUp
        },
    }
}

/// The abort transition's effect on the battery-management board's outputs:
/// every actuation output goes to its safe state. (The acquisition board's
/// counterpart is `pinout::sam_safe_state`.)
pub fn abort(ctl: &mut Controllers)
    requires
        old(ctl).wf(),
    ensures
        final(ctl).wf(),
        final(ctl).banks@ == safe_banks(old(ctl).banks@),
{
    init_gpio(ctl);
}

/// From start-up, a board whose work all succeeds connects and then takes
/// polls 0, 1 and 2 of its first session. With one six-channel current-loop
/// converter and the onboard rail converter those three polls take 21
/// readings, the converter's carrying channel ids 1 to 6 in each poll.
pub proof fn lemma_first_session(s0: State)
    requires
        s0 == State::Init,
    ensures
        ({
            let s1 = spec_next(s0, Outcome::Done);
            let s2 = spec_next(s1, Outcome::Done);
            let s3 = spec_next(s2, Outcome::Done);
            let s4 = spec_next(s3, Outcome::Done);
            let kinds = seq![Measurement::CurrentLoopPt];
            let first = spec_poll_plan(kinds, true, 0);
            let second = spec_poll_plan(kinds, true, 1);
            let third = spec_poll_plan(kinds, true, 2);
            &&& spec_action(s0) == Action::InitHardware
            &&& spec_action(s1) == Action::Handshake
            &&& spec_action(s2) == (Action::Poll { poll: 0 })
            &&& spec_action(s3) == (Action::Poll { poll: 1 })
            &&& spec_action(s4) == (Action::Poll { poll: 2 })
            &&& first.len() + second.len() + third.len() == 21
            &&& forall|i: int| 0 <= i < 6 ==> {
                &&& (#[trigger] first[i]).source == Source::Converter(0)
                &&& spec_node_id(first[i].measurement, first[i].iteration) == i + 1
                &&& second[i] == first[i]
                &&& third[i] == first[i]
            }
        }),
{
    lemma_current_loop_board_polls(0);
}

} // verus!
