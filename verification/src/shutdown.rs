//! Graceful shutdown as a state machine: the first of two signals starts
//! the drain, and the end of the last request in flight ends it.

use vstd::prelude::*;

verus! {

/// Where the service stands between start and exit.
#[derive(Clone, Copy, Debug, PartialEq, Eq, Structural)]
pub enum ShutdownState {
    /// New connections are accepted.
    Running,
    /// No new connection is accepted; requests in flight run to their end.
    Draining,
    /// Every request has ended. There is no way back from here.
    Stopped,
}

/// What can happen to a service that is shutting down.
#[derive(Clone, Copy, Debug, PartialEq, Eq, Structural)]
pub enum ShutdownEvent {
    /// The interactive interrupt signal arrived.
    Interrupt,
    /// The termination signal arrived.
    Terminate,
    /// The last request in flight has ended.
    Drained,
}

/// What the service has to do after an event.
#[derive(Clone, Copy, Debug, PartialEq, Eq, Structural)]
pub enum ShutdownAction {
    /// Nothing: the event changes nothing.
    Ignore,
    /// Announce the shutdown and stop accepting connections.
    StopAccepting,
    /// Leave the process.
    Exit,
}

impl ShutdownEvent {
    /// Whether the event is one of the two signals that ask for a shutdown.
    pub open spec fn is_signal(self) -> bool {
        self == ShutdownEvent::Interrupt || self == ShutdownEvent::Terminate
    }
}

impl ShutdownState {
    /// How far the shutdown has come: 0 while running, 2 when stopped.
    pub open spec fn progress(self) -> nat {
        match self {
            ShutdownState::Running => 0,
            ShutdownState::Draining => 1,
            ShutdownState::Stopped => 2,
        }
    }

    /// The state after `event`. A signal moves a running service to the
    /// drain and is ignored later; the end of the drain stops a draining
    /// service and means nothing otherwise.
    pub open spec fn next(self, event: ShutdownEvent) -> ShutdownState {
        match (self, event) {
            (ShutdownState::Running, ShutdownEvent::Interrupt) => ShutdownState::Draining,
            (ShutdownState::Running, ShutdownEvent::Terminate) => ShutdownState::Draining,
            (ShutdownState::Draining, ShutdownEvent::Drained) => ShutdownState::Stopped,
            _ => self,
        }
    }

    /// What `event` asks of a service in this state.
    pub open spec fn action(self, event: ShutdownEvent) -> ShutdownAction {
        match (self, event) {
            (ShutdownState::Running, ShutdownEvent::Interrupt) => ShutdownAction::StopAccepting,
            (ShutdownState::Running, ShutdownEvent::Terminate) => ShutdownAction::StopAccepting,
            (ShutdownState::Draining, ShutdownEvent::Drained) => ShutdownAction::Exit,
            _ => ShutdownAction::Ignore,
        }
    }

    /// Takes one event: the state that follows, and what to do now.
    pub fn step(self, event: ShutdownEvent) -> (after: (ShutdownState, ShutdownAction))
        ensures
            after.0 == self.next(event),
            after.1 == self.action(event),
    {
        match self {
            ShutdownState::Running => match event {
                ShutdownEvent::Interrupt | ShutdownEvent::Terminate => (
                    ShutdownState::Draining,
                    ShutdownAction::StopAccepting,
                ),
                ShutdownEvent::Drained => (ShutdownState::Running, ShutdownAction::Ignore),
            },
            ShutdownState::Draining => match event {
                ShutdownEvent::Drained => (ShutdownState::Stopped, ShutdownAction::Exit),
                _ => (ShutdownState::Draining, ShutdownAction::Ignore),
            },
            ShutdownState::Stopped => (ShutdownState::Stopped, ShutdownAction::Ignore),
        }
    }

    /// The state after the events of `events`, taken in order.
    pub open spec fn run(self, events: Seq<ShutdownEvent>) -> ShutdownState
        decreases events.len(),
    {
        if events.len() == 0 {
            self
        } else {
            self.next(events.first()).run(events.drop_first())
        }
    }

    /// How often the events of `events`, taken in order, ask for `wanted`.
    pub open spec fn times_asked(
        self,
        events: Seq<ShutdownEvent>,
        wanted: ShutdownAction,
    ) -> nat
        decreases events.len(),
    {
        if events.len() == 0 {
            0
        } else {
            let now: nat = if self.action(events.first()) == wanted {
                1
            } else {
                0
            };
            now + self.next(events.first()).times_asked(events.drop_first(), wanted)
        }
    }
}

/// A shutdown only moves forward: no run of events brings a service back
/// to an earlier state.
pub proof fn lemma_shutdown_moves_forward(state: ShutdownState, events: Seq<ShutdownEvent>)
    ensures
        state.progress() <= state.run(events).progress(),
    decreases events.len(),
{
    if events.len() > 0 {
        lemma_shutdown_moves_forward(state.next(events.first()), events.drop_first());
    }
}

/// `Stopped` is final: a stopped service stays stopped, and no event asks
/// anything of it.
pub proof fn lemma_stopped_is_final(events: Seq<ShutdownEvent>, wanted: ShutdownAction)
    ensures
        ShutdownState::Stopped.run(events) == ShutdownState::Stopped,
        wanted != ShutdownAction::Ignore ==> ShutdownState::Stopped.times_asked(events, wanted)
            == 0,
    decreases events.len(),
{
    if events.len() > 0 {
        lemma_stopped_is_final(events.drop_first(), wanted);
    }
}

/// Of two signals only the first counts: however many arrive, the service
/// is asked to stop accepting at most once, and to exit at most once.
pub proof fn lemma_one_signal_wins(state: ShutdownState, events: Seq<ShutdownEvent>)
    ensures
        state.times_asked(events, ShutdownAction::StopAccepting) <= 1,
        state.times_asked(events, ShutdownAction::Exit) <= 1,
        state != ShutdownState::Running ==> state.times_asked(
            events,
            ShutdownAction::StopAccepting,
        ) == 0,
        state == ShutdownState::Stopped ==> state.times_asked(events, ShutdownAction::Exit) == 0,
    decreases events.len(),
{
    if events.len() > 0 {
        lemma_one_signal_wins(state.next(events.first()), events.drop_first());
    }
}

/// A running service that gets a signal drains, whichever signal it was
/// and whatever signals follow; it stops once the drain has ended.
pub proof fn lemma_signal_starts_drain(
    signal: ShutdownEvent,
    later: Seq<ShutdownEvent>,
)
    requires
        signal.is_signal(),
        forall|i: int| 0 <= i < later.len() ==> (#[trigger] later[i]).is_signal(),
    ensures
        ShutdownState::Running.next(signal) == ShutdownState::Draining,
        ShutdownState::Running.action(signal) == ShutdownAction::StopAccepting,
        ShutdownState::Draining.run(later) == ShutdownState::Draining,
        ShutdownState::Draining.run(later.push(ShutdownEvent::Drained)) == ShutdownState::Stopped,
    decreases later.len(),
{
    if later.len() > 0 {
        assert(later[0].is_signal());
        let rest = later.drop_first();
        assert forall|i: int| 0 <= i < rest.len() implies (#[trigger] rest[i]).is_signal() by {
            assert(rest[i] == later[i + 1]);
        }
        lemma_signal_starts_drain(signal, rest);
        assert(later.push(ShutdownEvent::Drained).drop_first() == rest.push(
            ShutdownEvent::Drained,
        ));
    } else {
        let last = later.push(ShutdownEvent::Drained);
        assert(last.drop_first().len() == 0);
        assert(ShutdownState::Stopped.run(last.drop_first()) == ShutdownState::Stopped);
    }
}

} // verus!
