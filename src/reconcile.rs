//! The reconciliation loop as a state machine.
//!
//! The loop reads one connection event, then queries the idle time and the
//! current power state afresh, then writes the power state if the decision
//! calls for it, and only then reads the next event. The machine here decides
//! each of those steps; whoever drives it performs the command it names and
//! hands back what came of it.
use vstd::prelude::*;

use crate::ConnectionState;

verus! {

/// Whether to write the power state, and which one: `Some(true)` powers the
/// display on, `Some(false)` off, `None` leaves it alone.
///
/// A connection always powers on a dark display. A disconnection powers a lit
/// display off only once the user has been idle for longer than the timeout.
pub open spec fn decide(
    is_powered_on: bool,
    event: ConnectionState,
    idle_ms: u64,
    timeout_secs: u64,
) -> Option<bool> {
    if !is_powered_on && event == ConnectionState::Connected {
        Some(true)
    } else if is_powered_on && event == ConnectionState::Disconnected && idle_ms > timeout_secs
        * 1000 {
        Some(false)
    } else {
        None
    }
}

/// Decides the power write for one event, from the power state and idle
/// time (in milliseconds) queried for it and the idle timeout (in seconds).
pub fn power_decision(is_powered_on: bool, event: ConnectionState, idle_ms: u64, timeout_secs: u64) -> (r: Option<bool>)
    ensures
        r == decide(is_powered_on, event, idle_ms, timeout_secs),
{
    match event {
        ConnectionState::Connected => {
            if !is_powered_on {
                Some(true)
            } else {
                None
            }
        },
        ConnectionState::Disconnected => {
            if is_powered_on && (idle_ms as u128) > (timeout_secs as u128) * 1000 {
                Some(false)
            } else {
                None
            }
        },
    }
}

/// Where the loop stands.
#[derive(Debug, Clone, Copy, PartialEq, Eq, Structural)]
pub enum Phase {
    /// No event is being handled: the next one may be read.
    Waiting,
    /// An event was read; the idle time is being queried.
    QueryingIdle(ConnectionState),
    /// The idle time (in milliseconds) came back; the power state is being queried.
    QueryingPower(ConnectionState, u64),
    /// The power state is being written.
    Writing(bool),
    /// The event stream ended: the loop is over.
    Finished,
    /// An operation failed: the loop is over and the failure is passed on.
    Failed,
}

/// What came of the last command.
#[derive(Debug, Clone, Copy, PartialEq, Eq, Structural)]
pub enum Input {
    /// The next event was read.
    Event(ConnectionState),
    /// Reading the event stream failed.
    StreamFailed,
    /// The event stream has no more events.
    StreamEnded,
    /// The idle time, in milliseconds.
    IdleTime(u64),
    /// The current power state.
    PowerState(bool),
    /// The power state was written.
    WriteDone,
    /// The query or write failed.
    OperationFailed,
}

/// What to do next.
#[derive(Debug, Clone, Copy, PartialEq, Eq, Structural)]
pub enum Command {
    ReadEvent,
    QueryIdle,
    QueryPower,
    SetPower(bool),
    /// Leave the loop normally.
    Finish,
    /// Leave the loop and pass the failure on.
    Fail,
}

/// The command that a phase waits on.
pub open spec fn command_of(phase: Phase) -> Command {
    match phase {
        Phase::Waiting => Command::ReadEvent,
        Phase::QueryingIdle(_) => Command::QueryIdle,
        Phase::QueryingPower(_, _) => Command::QueryPower,
        Phase::Writing(on) => Command::SetPower(on),
        Phase::Finished => Command::Finish,
        Phase::Failed => Command::Fail,
    }
}

/// The phase after `input` arrives in `phase`. An input that does not answer
/// the phase's command leaves the phase as it is.
pub open spec fn next_phase(phase: Phase, input: Input, timeout_secs: u64) -> Phase {
    match (phase, input) {
        (Phase::Waiting, Input::Event(s)) => Phase::QueryingIdle(s),
        (Phase::Waiting, Input::StreamEnded) => Phase::Finished,
        (Phase::Waiting, Input::StreamFailed) => Phase::Failed,
        (Phase::QueryingIdle(s), Input::IdleTime(ms)) => Phase::QueryingPower(s, ms),
        (Phase::QueryingPower(s, ms), Input::PowerState(on)) => match decide(
            on,
            s,
            ms,
            timeout_secs,
        ) {
            Some(target) => Phase::Writing(target),
            None => Phase::Waiting,
        },
        (Phase::Writing(_), Input::WriteDone) => Phase::Waiting,
        (Phase::QueryingIdle(_), Input::OperationFailed) => Phase::Failed,
        (Phase::QueryingPower(_, _), Input::OperationFailed) => Phase::Failed,
        (Phase::Writing(_), Input::OperationFailed) => Phase::Failed,
        _ => phase,
    }
}

/// Whether an event is being handled.
pub open spec fn is_reconciling(phase: Phase) -> bool {
    phase is QueryingIdle || phase is QueryingPower || phase is Writing
}

/// The reconciliation loop's decisions, one event at a time.
pub struct Reconciler {
    timeout_secs: u64,
    phase: Phase,
}

impl Reconciler {
    pub closed spec fn timeout_secs(&self) -> u64 {
        self.timeout_secs
    }

    pub closed spec fn phase(&self) -> Phase {
        self.phase
    }

    /// A loop that powers the display off after `timeout_secs` seconds of
    /// idleness, waiting for its first event.
    pub fn new(timeout_secs: u64) -> (r: Self)
        ensures
            r.timeout_secs() == timeout_secs,
            r.phase() == Phase::Waiting,
    {
        Reconciler { timeout_secs, phase: Phase::Waiting }
    }

    /// Where the loop stands.
    pub fn current_phase(&self) -> (r: Phase)
        ensures
            r == self.phase(),
    {
        self.phase
    }

    /// The command to perform now.
    pub fn command(&self) -> (r: Command)
        ensures
            r == command_of(self.phase()),
    {
        match self.phase {
            Phase::Waiting => Command::ReadEvent,
            Phase::QueryingIdle(_) => Command::QueryIdle,
            Phase::QueryingPower(_, _) => Command::QueryPower,
            Phase::Writing(on) => Command::SetPower(on),
            Phase::Finished => Command::Finish,
            Phase::Failed => Command::Fail,
        }
    }

    /// Takes in what came of the current command.
    pub fn step(&mut self, input: Input)
        ensures
            final(self).timeout_secs() == old(self).timeout_secs(),
            final(self).phase() == next_phase(old(self).phase(), input, old(self).timeout_secs()),
    {
        let next = match (self.phase, input) {
            (Phase::Waiting, Input::Event(s)) => Phase::QueryingIdle(s),
            (Phase::Waiting, Input::StreamEnded) => Phase::Finished,
            (Phase::Waiting, Input::StreamFailed) => Phase::Failed,
            (Phase::QueryingIdle(s), Input::IdleTime(ms)) => Phase::QueryingPower(s, ms),
            (Phase::QueryingPower(s, ms), Input::PowerState(on)) => {
                match power_decision(on, s, ms, self.timeout_secs) {
                    Some(target) => Phase::Writing(target),
                    None => Phase::Waiting,
                }
            },
            (Phase::Writing(_), Input::WriteDone) => Phase::Waiting,
            (Phase::QueryingIdle(_), Input::OperationFailed) => Phase::Failed,
            (Phase::QueryingPower(_, _), Input::OperationFailed) => Phase::Failed,
            (Phase::Writing(_), Input::OperationFailed) => Phase::Failed,
            _ => self.phase,
        };
        self.phase = next;
    }
}

/// The commands named while the inputs arrive one after another, starting in
/// `phase`: the command of each phase passed through, the last one included.
pub open spec fn run_commands(phase: Phase, inputs: Seq<Input>, timeout_secs: u64) -> Seq<Command>
    decreases inputs.len(),
{
    if inputs.len() == 0 {
        seq![command_of(phase)]
    } else {
        seq![command_of(phase)] + run_commands(
            next_phase(phase, inputs[0], timeout_secs),
            inputs.drop_first(),
            timeout_secs,
        )
    }
}

/// Handling a connection while the display is dark, whatever the idle time
/// and the timeout: the event, the idle query, the power query, then one
/// power-on write and nothing else, before the next event is asked for.
pub proof fn lemma_connect_run_powers_on_once(idle_ms: u64, timeout_secs: u64)
    ensures
        run_commands(
            Phase::Waiting,
            seq![
                Input::Event(ConnectionState::Connected),
                Input::IdleTime(idle_ms),
                Input::PowerState(false),
                Input::WriteDone,
            ],
            timeout_secs,
        ) == seq![
            Command::ReadEvent,
            Command::QueryIdle,
            Command::QueryPower,
            Command::SetPower(true),
            Command::ReadEvent,
        ],
{
    let inputs = seq![
        Input::Event(ConnectionState::Connected),
        Input::IdleTime(idle_ms),
        Input::PowerState(false),
        Input::WriteDone,
    ];
    let p1 = Phase::QueryingIdle(ConnectionState::Connected);
    let p2 = Phase::QueryingPower(ConnectionState::Connected, idle_ms);
    let p3 = Phase::Writing(true);
    let i1 = inputs.drop_first();
    let i2 = i1.drop_first();
    let i3 = i2.drop_first();
    assert(i1 =~= seq![Input::IdleTime(idle_ms), Input::PowerState(false), Input::WriteDone]);
    assert(i2 =~= seq![Input::PowerState(false), Input::WriteDone]);
    assert(i3 =~= seq![Input::WriteDone]);
    assert(i3.drop_first() =~= Seq::<Input>::empty());
    assert(run_commands(Phase::Waiting, i3.drop_first(), timeout_secs) == seq![Command::ReadEvent]);
    assert(run_commands(p3, i3, timeout_secs) =~= seq![Command::SetPower(true), Command::ReadEvent]);
    assert(run_commands(p2, i2, timeout_secs) =~= seq![
        Command::QueryPower,
        Command::SetPower(true),
        Command::ReadEvent,
    ]);
    assert(run_commands(p1, i1, timeout_secs) =~= seq![
        Command::QueryIdle,
        Command::QueryPower,
        Command::SetPower(true),
        Command::ReadEvent,
    ]);
    assert(run_commands(Phase::Waiting, inputs, timeout_secs) =~= seq![
        Command::ReadEvent,
        Command::QueryIdle,
        Command::QueryPower,
        Command::SetPower(true),
        Command::ReadEvent,
    ]);
}

/// A connection to a dark display leads to exactly one power-on write,
/// whatever the idle time: the power reading starts the write, and the
/// write's completion ends the event's handling.
pub proof fn lemma_connect_powers_on(idle_ms: u64, timeout_secs: u64)
    ensures
        next_phase(
            Phase::QueryingPower(ConnectionState::Connected, idle_ms),
            Input::PowerState(false),
            timeout_secs,
        ) == Phase::Writing(true),
        next_phase(Phase::Writing(true), Input::WriteDone, timeout_secs) == Phase::Waiting,
{
}

/// A disconnection from a lit display after more idle time than the
/// timeout leads to exactly one power-off write.
pub proof fn lemma_idle_disconnect_powers_off(idle_ms: u64, timeout_secs: u64)
    requires
        idle_ms > timeout_secs * 1000,
    ensures
        next_phase(
            Phase::QueryingPower(ConnectionState::Disconnected, idle_ms),
            Input::PowerState(true),
            timeout_secs,
        ) == Phase::Writing(false),
        next_phase(Phase::Writing(false), Input::WriteDone, timeout_secs) == Phase::Waiting,
{
}

/// A disconnection while the user was active within the timeout writes
/// nothing: the event's handling ends at the power reading.
pub proof fn lemma_recent_disconnect_keeps_power(idle_ms: u64, timeout_secs: u64)
    requires
        idle_ms <= timeout_secs * 1000,
    ensures
        next_phase(
            Phase::QueryingPower(ConnectionState::Disconnected, idle_ms),
            Input::PowerState(true),
            timeout_secs,
        ) == Phase::Waiting,
{
}

/// Events are handled one at a time, in the order they are read: the next
/// event is asked for only when no event is being handled; an event that
/// arrives while one is handled is not taken in; handling ends only when the
/// write completes, or when the power reading calls for no write; every
/// event handled starts with fresh idle and power queries; and once the loop
/// is over it stays over.
pub proof fn lemma_one_event_at_a_time(phase: Phase, input: Input, timeout_secs: u64)
    ensures
        command_of(next_phase(phase, input, timeout_secs)) == Command::ReadEvent ==> next_phase(
            phase,
            input,
            timeout_secs,
        ) == Phase::Waiting,
        is_reconciling(phase) && input is Event ==> next_phase(phase, input, timeout_secs)
            == phase,
        is_reconciling(phase) && next_phase(phase, input, timeout_secs) == Phase::Waiting ==> {
            ||| phase is Writing && input == Input::WriteDone
            ||| phase matches Phase::QueryingPower(s, ms) && input matches Input::PowerState(on)
                && decide(on, s, ms, timeout_secs) is None
        },
        phase == Phase::Waiting && input is Event ==> next_phase(phase, input, timeout_secs)
            == Phase::QueryingIdle(input->Event_0),
        phase is Finished || phase is Failed ==> next_phase(phase, input, timeout_secs) == phase,
{
}

} // verus!
