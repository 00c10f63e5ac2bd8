//! Waiting for the signal that stops the daemon.
use vstd::prelude::*;

verus! {

/// Which signals a wait for shutdown listens for.
#[derive(Clone, Copy, Debug, PartialEq, Eq, Structural)]
pub enum Stopper {
    /// `SIGINT` or `SIGTERM`.
    InterruptOrTerminate,
    /// `SIGINT` only, because `SIGTERM` cannot be listened for.
    InterruptOnly,
    /// `SIGTERM` only, because `SIGINT` cannot be listened for.
    TerminateOnly,
    /// None, because neither can be listened for: the wait does not end.
    Nobody,
}

/// What a wait for shutdown is told.
#[derive(Clone, Copy, Debug, PartialEq, Eq, Structural)]
pub enum StopEvent {
    /// Listening for `SIGINT` ended, with a signal or with an error.
    Interrupt {
        /// Whether listening failed.
        failed: bool,
    },
    /// `SIGTERM` came.
    Terminate,
}

/// What a wait for shutdown does on an event.
#[derive(Clone, Copy, Debug, PartialEq, Eq, Structural)]
pub enum StopStep {
    /// Stop the daemon.
    Stop,
    /// Wait on, for these signals.
    WaitOn(Stopper),
}

/// Whether a wait for `stopper` can be told of `event`.
pub open spec fn admits(stopper: Stopper, event: StopEvent) -> bool {
    match event {
        StopEvent::Interrupt { .. } => {
            stopper == Stopper::InterruptOrTerminate || stopper == Stopper::InterruptOnly
        },
        StopEvent::Terminate => {
            stopper == Stopper::InterruptOrTerminate || stopper == Stopper::TerminateOnly
        },
    }
}

/// Whether a signal was received.
pub open spec fn received(event: StopEvent) -> bool {
    event != StopEvent::Interrupt { failed: true }
}

/// What to do on an event: a signal stops the daemon; where `SIGINT` cannot be
/// listened for, what else was listened for has to do.
pub open spec fn step(stopper: Stopper, event: StopEvent) -> StopStep {
    match event {
        StopEvent::Interrupt { failed: true } => StopStep::WaitOn(
            if stopper == Stopper::InterruptOrTerminate {
                Stopper::TerminateOnly
            } else {
                Stopper::Nobody
            },
        ),
        _ => StopStep::Stop,
    }
}

/// The signals to wait for at first: where the handler for `SIGTERM` cannot be
/// installed, `SIGINT` has to do.
pub open spec fn first_stopper(sigterm_installed: bool) -> Stopper {
    if sigterm_installed {
        Stopper::InterruptOrTerminate
    } else {
        Stopper::InterruptOnly
    }
}

/// Which signals to wait for at first.
pub fn wait_for_shutdown_signal(sigterm_installed: bool) -> (r: Stopper)
    ensures
        r == first_stopper(sigterm_installed),
{
    if sigterm_installed {
        Stopper::InterruptOrTerminate
    } else {
        Stopper::InterruptOnly
    }
}

/// What to do on an event.
pub fn stopped(stopper: Stopper, event: StopEvent) -> (r: StopStep)
    requires
        admits(stopper, event),
    ensures
        r == step(stopper, event),
{
    match event {
        StopEvent::Interrupt { failed: true } => match stopper {
            Stopper::InterruptOrTerminate => StopStep::WaitOn(Stopper::TerminateOnly),
            _ => StopStep::WaitOn(Stopper::Nobody),
        },
        _ => StopStep::Stop,
    }
}

/// What a wait comes to after a run of events from its start.
pub open spec fn after(sigterm_installed: bool, events: Seq<StopEvent>) -> StopStep
    decreases events.len(),
{
    if events.len() == 0 {
        StopStep::WaitOn(first_stopper(sigterm_installed))
    } else {
        match after(sigterm_installed, events.drop_last()) {
            StopStep::WaitOn(stopper) => step(stopper, events.last()),
            StopStep::Stop => StopStep::Stop,
        }
    }
}

/// A run of events that a wait can see from its start: it sees nothing once it
/// has stopped, and before that only what it waits for.
pub open spec fn possible(sigterm_installed: bool, events: Seq<StopEvent>) -> bool
    decreases events.len(),
{
    events.len() == 0 || {
        &&& possible(sigterm_installed, events.drop_last())
        &&& match after(sigterm_installed, events.drop_last()) {
            StopStep::WaitOn(stopper) => admits(stopper, events.last()),
            StopStep::Stop => false,
        }
    }
}

/// The wait ends exactly when a signal is received: a run that ends in one has
/// stopped, and one in which none was received has not.
pub proof fn law_only_a_signal_stops(sigterm_installed: bool, events: Seq<StopEvent>)
    requires
        possible(sigterm_installed, events),
    ensures
        after(sigterm_installed, events) is Stop <==> events.len() > 0 && received(events.last()),
        after(sigterm_installed, events) is Stop <==> exists|i: int|
            0 <= i < events.len() && received(#[trigger] events[i]),
    decreases events.len(),
{
    if events.len() > 0 {
        let before = events.drop_last();
        law_only_a_signal_stops(sigterm_installed, before);
        if received(events.last()) {
            assert(received(events[events.len() - 1]));
        } else {
            assert forall|i: int| 0 <= i < events.len() implies !received(
                #[trigger] events[i],
            ) by {
                if i < before.len() {
                    assert(before[i] == events[i]);
                }
            }
        }
    }
}

/// `SIGTERM` is waited for, until one of the two signals is received, wherever
/// its handler could be installed; and so is `SIGINT` while listening for it has
/// not failed.
pub proof fn law_what_can_be_heard_is_waited_for(sigterm_installed: bool, events: Seq<StopEvent>)
    requires
        possible(sigterm_installed, events),
        after(sigterm_installed, events) is WaitOn,
    ensures
        admits(after(sigterm_installed, events)->WaitOn_0, StopEvent::Terminate)
            == sigterm_installed,
        admits(after(sigterm_installed, events)->WaitOn_0, StopEvent::Interrupt { failed: false })
            == (events.len() == 0),
    decreases events.len(),
{
    if events.len() > 0 {
        law_what_can_be_heard_is_waited_for(sigterm_installed, events.drop_last());
    }
}

} // verus!
