//! The shutdown coordinator: a one-shot, irreversible state machine
//! that stops the accept loop on the first termination signal and lets
//! requests already accepted run to completion before the process
//! exits.
//!
//! The coordinator itself performs no I/O. The surrounding process
//! watches the two signal sources, races them, and feeds the winning
//! event to [`Coordinator::on_event`]; the returned [`Action`] tells it
//! what to do next.

use vstd::prelude::*;

verus! {

/// The phase of the process's lifetime.
#[derive(Clone, Copy, Debug, PartialEq, Eq, Structural)]
pub enum State {
    /// Accepting new connections; no termination signal seen yet.
    Running,
    /// A termination signal was seen: no new connections are accepted,
    /// and requests already in flight are draining.
    ShuttingDown,
    /// Every in-flight request has finished; the process exits.
    Stopped,
}

/// An occurrence the coordinator reacts to.
#[derive(Clone, Copy, Debug, PartialEq, Eq, Structural)]
pub enum Event {
    /// The interactive interrupt signal fired.
    Interrupt,
    /// The termination request signal fired (on platforms that have
    /// one; elsewhere its watcher never resolves and this event never
    /// arrives).
    Terminate,
    /// Every request accepted before shutdown began has completed.
    DrainComplete,
}

/// What the surrounding process must do after an event.
#[derive(Clone, Copy, Debug, PartialEq, Eq, Structural)]
pub enum Action {
    /// Stop accepting new connections at once; keep serving the
    /// requests already accepted.
    StopAccepting,
    /// Exit the process.
    Exit,
    /// Do nothing.
    Ignore,
}

/// Whether an event is one of the two termination signals.
pub open spec fn is_signal(e: Event) -> bool {
    e == Event::Interrupt || e == Event::Terminate
}

/// The state after an event. The first signal moves `Running` to
/// `ShuttingDown`; draining moves `ShuttingDown` to `Stopped`; nothing
/// ever moves a state back towards `Running`.
pub open spec fn next_spec(s: State, e: Event) -> State {
    match s {
        State::Running => if is_signal(e) {
            State::ShuttingDown
        } else {
            State::Running
        },
        State::ShuttingDown => if e == Event::DrainComplete {
            State::Stopped
        } else {
            State::ShuttingDown
        },
        State::Stopped => State::Stopped,
    }
}

/// The action owed after an event: stop accepting on the first signal,
/// exit once the drain completes, and otherwise do nothing.
pub open spec fn action_spec(s: State, e: Event) -> Action {
    match s {
        State::Running => if is_signal(e) {
            Action::StopAccepting
        } else {
            Action::Ignore
        },
        State::ShuttingDown => if e == Event::DrainComplete {
            Action::Exit
        } else {
            Action::Ignore
        },
        State::Stopped => Action::Ignore,
    }
}

/// The shutdown coordinator. It starts `Running` and steps through
/// [`next_spec`] on each event.
pub struct Coordinator {
    state: State,
}

impl Coordinator {
    /// The state the coordinator is in.
    pub closed spec fn view(&self) -> State {
        self.state
    }

    /// A fresh coordinator, in the `Running` state.
    pub fn new() -> (c: Coordinator)
        ensures
            c@ == State::Running,
    {
        Coordinator { state: State::Running }
    }

    /// The current state, readable by the surrounding process.
    pub fn state(&self) -> (s: State)
        ensures
            s == self@,
    {
        self.state
    }

    /// Step the machine on one event and say what the surrounding
    /// process must do.
    pub fn on_event(&mut self, e: Event) -> (a: Action)
        ensures
            final(self)@ == next_spec(old(self)@, e),
            a == action_spec(old(self)@, e),
    {
        let s = self.state;
        match s {
            State::Running => {
                if matches!(e, Event::Interrupt | Event::Terminate) {
                    self.state = State::ShuttingDown;
                    Action::StopAccepting
                } else {
                    Action::Ignore
                }
            },
            State::ShuttingDown => {
                if matches!(e, Event::DrainComplete) {
                    self.state = State::Stopped;
                    Action::Exit
                } else {
                    Action::Ignore
                }
            },
            State::Stopped => Action::Ignore,
        }
    }
}

/// Shutdown is one-shot and idempotent: the first signal starts it,
/// and a second signal, in whatever order the two arrived, changes
/// nothing and asks for nothing.
pub proof fn lemma_second_signal_ignored(e1: Event, e2: Event)
    requires
        is_signal(e1),
        is_signal(e2),
    ensures
        next_spec(State::Running, e1) == State::ShuttingDown,
        action_spec(State::Running, e1) == Action::StopAccepting,
        next_spec(next_spec(State::Running, e1), e2) == next_spec(State::Running, e1),
        action_spec(next_spec(State::Running, e1), e2) == Action::Ignore,
{
}

/// The race between the two signal watchers has one outcome: whichever
/// signal fires first, the machine moves to the same state and asks
/// for the same action.
pub proof fn lemma_race_winner_irrelevant(e1: Event, e2: Event)
    requires
        is_signal(e1),
        is_signal(e2),
    ensures
        next_spec(State::Running, e1) == next_spec(State::Running, e2),
        action_spec(State::Running, e1) == action_spec(State::Running, e2),
{
}

/// Shutdown is irreversible: once the machine has left `Running`, no
/// event brings it back.
pub proof fn lemma_no_return_to_running(s: State, e: Event)
    requires
        s != State::Running,
    ensures
        next_spec(s, e) != State::Running,
{
}

/// The process exits only after the drain: the `Exit` action is asked
/// for exactly when shutdown has begun and every in-flight request has
/// completed.
pub proof fn lemma_exit_only_after_drain(s: State, e: Event)
    ensures
        action_spec(s, e) == Action::Exit <==> s == State::ShuttingDown && e
            == Event::DrainComplete,
{
}

/// The accept loop is stopped exactly once, and immediately on the
/// first signal: `StopAccepting` is asked for exactly on a signal
/// received while still `Running`.
pub proof fn lemma_stop_accepting_once(s: State, e: Event)
    ensures
        action_spec(s, e) == Action::StopAccepting <==> s == State::Running && is_signal(e),
{
}

} // verus!
