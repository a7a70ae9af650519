use vstd::prelude::*;

verus! {

/// A control message to the clock's background loop.
#[derive(Clone, Copy, Debug, PartialEq, Eq, Structural)]
pub enum ClockCommand {
    Pause,
    Resume,
    Shutdown,
}

/// What the background loop's timed wait ended with.
#[derive(Clone, Copy, Debug, PartialEq, Eq, Structural)]
pub enum ClockEvent {
    /// A control message came before the deadline.
    Received(ClockCommand),
    /// A sixtieth of a second passed with no message.
    TimedOut,
    /// The controlling side is gone.
    Disconnected,
}

/// What the background loop does next.
#[derive(Clone, Copy, Debug, PartialEq, Eq, Structural)]
pub enum ClockAction {
    /// Tick every registered timer once, then wait again.
    TickAll,
    /// Wait again.
    Wait,
    /// Leave the loop.
    Exit,
}

/// The background loop after an event: whether it is paused and what it does.
/// A timeout is the tick trigger, so the cadence needs no sleep of its own.
pub open spec fn clock_step_spec(paused: bool, event: ClockEvent) -> (bool, ClockAction) {
    match event {
        ClockEvent::Received(ClockCommand::Pause) => (true, ClockAction::Wait),
        ClockEvent::Received(ClockCommand::Resume) => (false, ClockAction::Wait),
        ClockEvent::Received(ClockCommand::Shutdown) => (paused, ClockAction::Exit),
        ClockEvent::TimedOut => (paused, if paused {
            ClockAction::Wait
        } else {
            ClockAction::TickAll
        }),
        ClockEvent::Disconnected => (paused, ClockAction::Exit),
    }
}

/// Decides the background loop's next move from whether it is paused and
/// how its last wait ended.
pub fn clock_step(paused: bool, event: ClockEvent) -> (r: (bool, ClockAction))
    ensures
        r == clock_step_spec(paused, event),
{
    match event {
        ClockEvent::Received(ClockCommand::Pause) => (true, ClockAction::Wait),
        ClockEvent::Received(ClockCommand::Resume) => (false, ClockAction::Wait),
        ClockEvent::Received(ClockCommand::Shutdown) => (paused, ClockAction::Exit),
        ClockEvent::TimedOut => {
            if paused {
                (paused, ClockAction::Wait)
            } else {
                (paused, ClockAction::TickAll)
            }
        },
        ClockEvent::Disconnected => (paused, ClockAction::Exit),
    }
}

/// Where the clock stands in its life: made, running its background loop, or
/// stopped for good.
#[derive(Clone, Copy, Debug, PartialEq, Eq, Structural)]
pub enum ClockState {
    Created,
    Running,
    Stopped,
}

/// `start` from a state: the state after it, and whether the background loop
/// is to be spawned. Only a clock that never ran starts.
pub open spec fn start_spec(s: ClockState) -> (ClockState, bool) {
    match s {
        ClockState::Created => (ClockState::Running, true),
        _ => (s, false),
    }
}

/// `shutdown` from a state: the state after it, and whether the loop is to be
/// told to stop and then joined. Safe from every state; only a running clock
/// has a loop to stop.
pub open spec fn shutdown_spec(s: ClockState) -> (ClockState, bool) {
    (ClockState::Stopped, s == ClockState::Running)
}

/// Decides what `start` does.
pub fn start_transition(s: ClockState) -> (r: (ClockState, bool))
    ensures
        r == start_spec(s),
{
    match s {
        ClockState::Created => (ClockState::Running, true),
        _ => (s, false),
    }
}

/// Decides what `shutdown` does.
pub fn shutdown_transition(s: ClockState) -> (r: (ClockState, bool))
    ensures
        r == shutdown_spec(s),
{
    match s {
        ClockState::Running => (ClockState::Stopped, true),
        _ => (ClockState::Stopped, false),
    }
}

/// Whether pause and resume are passed on: only to a running loop.
pub fn forwards_commands(s: ClockState) -> (r: bool)
    ensures
        r == (s == ClockState::Running),
{
    match s {
        ClockState::Running => true,
        _ => false,
    }
}

/// Shutting down twice does no more than shutting down once: the second time
/// there is no loop left to stop.
pub proof fn lemma_shutdown_idempotent(s: ClockState)
    ensures
        shutdown_spec(shutdown_spec(s).0) == (ClockState::Stopped, false),
        shutdown_spec(shutdown_spec(s).0).0 == shutdown_spec(s).0,
{
}

} // verus!
