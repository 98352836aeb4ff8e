//! The accept loop of one bound socket, as a state machine.
//!
//! Whoever runs the listener waits for two things at once, a new inbound
//! connection and the shutdown signal, and feeds in whichever comes first.
//! It also feeds in the end of every connection handler that it started.
//! While accepting, every inbound connection gets a handler of its own and
//! accepting goes on at once. After the shutdown signal nothing is admitted
//! any more, and completion is reported when the last handler has ended.

use crate::forwarder::Strategy;
use vstd::prelude::*;

verus! {

/// Where a listener stands.
#[derive(Debug, PartialEq, Eq, Clone, Copy)]
pub enum ListenerPhase {
    /// Inbound connections are admitted.
    Accepting,
    /// The shutdown signal fired; the handlers still at work are waited for.
    Draining,
    /// The listener has ended and has said so.
    Finished,
}

/// What is fed into a listener.
#[derive(Debug, PartialEq, Eq, Clone, Copy)]
pub enum ListenerEvent {
    /// An inbound connection is ready.
    Incoming,
    /// A connection handler that this listener started has ended.
    HandlerEnded,
    /// The shutdown signal fired.
    Shutdown,
}

/// What a listener asks of whoever runs it.
#[derive(Debug, PartialEq, Eq, Clone, Copy)]
pub enum ListenerAction {
    /// Start a connection handler of this kind for the inbound connection
    /// and go on accepting.
    Forward { strategy: Strategy },
    /// Close the inbound connection unserved.
    Refuse,
    /// Go on waiting.
    Continue,
    /// Stop accepting and wait for the handlers at work to end.
    Drain,
    /// Stop accepting, if that is not done yet, and report to the supervisor
    /// that the listener has ended.
    Complete,
    /// The event does not apply in this phase and changed nothing.
    Ignored,
}

/// A listener as the contracts see it.
pub struct ListenerView {
    pub listen_port: u16,
    pub strategy: Strategy,
    pub phase: ListenerPhase,
    /// The number of handlers started and not yet ended.
    pub in_flight: nat,
}

/// The outcome of one transition of a listener.
pub struct ListenerStep {
    pub listener: ListenerView,
    pub action: ListenerAction,
}

/// The largest number of handlers that a listener keeps count of. A
/// connection that arrives while so many are at work is refused.
pub open spec fn handler_limit() -> nat {
    usize::MAX as nat
}

/// The transition relation of a listener.
pub open spec fn listener_transition(listener: ListenerView, event: ListenerEvent) -> ListenerStep {
    match (listener.phase, event) {
        (ListenerPhase::Accepting, ListenerEvent::Incoming) => {
            if listener.in_flight < handler_limit() {
                ListenerStep {
                    listener: ListenerView { in_flight: listener.in_flight + 1, ..listener },
                    action: ListenerAction::Forward { strategy: listener.strategy },
                }
            } else {
                ListenerStep { listener, action: ListenerAction::Refuse }
            }
        },
        (ListenerPhase::Accepting, ListenerEvent::HandlerEnded) => {
            if listener.in_flight > 0 {
                ListenerStep {
                    listener: ListenerView { in_flight: (listener.in_flight - 1) as nat, ..listener },
                    action: ListenerAction::Continue,
                }
            } else {
                ListenerStep { listener, action: ListenerAction::Ignored }
            }
        },
        (ListenerPhase::Accepting, ListenerEvent::Shutdown) => {
            if listener.in_flight == 0 {
                ListenerStep {
                    listener: ListenerView { phase: ListenerPhase::Finished, ..listener },
                    action: ListenerAction::Complete,
                }
            } else {
                ListenerStep {
                    listener: ListenerView { phase: ListenerPhase::Draining, ..listener },
                    action: ListenerAction::Drain,
                }
            }
        },
        (ListenerPhase::Draining, ListenerEvent::HandlerEnded) => {
            if listener.in_flight <= 1 {
                ListenerStep {
                    listener: ListenerView { phase: ListenerPhase::Finished, in_flight: 0, ..listener },
                    action: ListenerAction::Complete,
                }
            } else {
                ListenerStep {
                    listener: ListenerView { in_flight: (listener.in_flight - 1) as nat, ..listener },
                    action: ListenerAction::Continue,
                }
            }
        },
        (_, ListenerEvent::Incoming) => ListenerStep { listener, action: ListenerAction::Refuse },
        _ => ListenerStep { listener, action: ListenerAction::Ignored },
    }
}

/// The accept loop of one bound socket.
pub struct ListenerTask {
    listen_port: u16,
    strategy: Strategy,
    phase: ListenerPhase,
    in_flight: usize,
}

impl View for ListenerTask {
    type V = ListenerView;

    closed spec fn view(&self) -> ListenerView {
        ListenerView {
            listen_port: self.listen_port,
            strategy: self.strategy,
            phase: self.phase,
            in_flight: self.in_flight as nat,
        }
    }
}

impl ListenerTask {
    /// A listener on `listen_port` that accepts, with no handler at work.
    pub fn new(listen_port: u16, strategy: Strategy) -> (listener: Self)
        ensures
            listener@ == (ListenerView {
                listen_port,
                strategy,
                phase: ListenerPhase::Accepting,
                in_flight: 0,
            }),
    {
        ListenerTask { listen_port, strategy, phase: ListenerPhase::Accepting, in_flight: 0 }
    }

    /// The loopback port that the listener is bound to.
    pub fn listen_port(&self) -> (port: u16)
        ensures
            port == self@.listen_port,
    {
        self.listen_port
    }

    /// The kind of connection handler that the listener starts.
    pub fn strategy(&self) -> (strategy: Strategy)
        ensures
            strategy == self@.strategy,
    {
        self.strategy
    }

    pub fn phase(&self) -> (phase: ListenerPhase)
        ensures
            phase == self@.phase,
    {
        self.phase
    }

    /// The number of handlers started and not yet ended.
    pub fn in_flight(&self) -> (count: usize)
        ensures
            count == self@.in_flight,
    {
        self.in_flight
    }

    /// Handles one event and says what is to be done.
    pub fn step(&mut self, event: ListenerEvent) -> (action: ListenerAction)
        ensures
            final(self)@ == listener_transition(old(self)@, event).listener,
            action == listener_transition(old(self)@, event).action,
    {
        match self.phase {
            ListenerPhase::Accepting => match event {
                ListenerEvent::Incoming => {
                    if self.in_flight < usize::MAX {
                        self.in_flight = self.in_flight + 1;
                        ListenerAction::Forward { strategy: self.strategy }
                    } else {
                        ListenerAction::Refuse
                    }
                },
                ListenerEvent::HandlerEnded => {
                    if self.in_flight > 0 {
                        self.in_flight = self.in_flight - 1;
                        ListenerAction::Continue
                    } else {
                        ListenerAction::Ignored
                    }
                },
                ListenerEvent::Shutdown => {
                    if self.in_flight == 0 {
                        self.phase = ListenerPhase::Finished;
                        ListenerAction::Complete
                    } else {
                        self.phase = ListenerPhase::Draining;
                        ListenerAction::Drain
                    }
                },
            },
            ListenerPhase::Draining => match event {
                ListenerEvent::Incoming => ListenerAction::Refuse,
                ListenerEvent::HandlerEnded => {
                    if self.in_flight <= 1 {
                        self.in_flight = 0;
                        self.phase = ListenerPhase::Finished;
                        ListenerAction::Complete
                    } else {
                        self.in_flight = self.in_flight - 1;
                        ListenerAction::Continue
                    }
                },
                ListenerEvent::Shutdown => ListenerAction::Ignored,
            },
            ListenerPhase::Finished => match event {
                ListenerEvent::Incoming => ListenerAction::Refuse,
                _ => ListenerAction::Ignored,
            },
        }
    }
}

impl ListenerView {
    /// What holds of every listener that began by accepting with no handler
    /// at work: it drains only while handlers are at work, and it has
    /// finished only when none is.
    pub open spec fn is_consistent(self) -> bool {
        &&& self.phase is Draining ==> self.in_flight > 0
        &&& self.phase is Finished ==> self.in_flight == 0
    }
}

/// Where a listener stands after `events` were handled in order. The action
/// is the one that answered the last event.
pub open spec fn listener_run(listener: ListenerView, events: Seq<ListenerEvent>) -> ListenerStep
    decreases events.len(),
{
    if events.len() == 0 {
        ListenerStep { listener, action: ListenerAction::Continue }
    } else {
        listener_transition(listener_run(listener, events.drop_last()).listener, events.last())
    }
}

/// The number of handlers that the listener started while it handled
/// `events`.
pub open spec fn handlers_started(listener: ListenerView, events: Seq<ListenerEvent>) -> nat
    decreases events.len(),
{
    if events.len() == 0 {
        0
    } else {
        let earlier = handlers_started(listener, events.drop_last());
        if listener_run(listener, events).action is Forward {
            earlier + 1
        } else {
            earlier
        }
    }
}

/// The number of handlers whose end the listener took note of while it
/// handled `events`.
pub open spec fn handlers_ended(listener: ListenerView, events: Seq<ListenerEvent>) -> nat
    decreases events.len(),
{
    if events.len() == 0 {
        0
    } else {
        let earlier = handlers_ended(listener, events.drop_last());
        if events.last() is HandlerEnded && listener_run(listener, events.drop_last()).listener.in_flight > 0
            && !(listener_run(listener, events.drop_last()).listener.phase is Finished) {
            earlier + 1
        } else {
            earlier
        }
    }
}

/// The number of times the listener reported its end while it handled
/// `events`.
pub open spec fn completions(listener: ListenerView, events: Seq<ListenerEvent>) -> nat
    decreases events.len(),
{
    if events.len() == 0 {
        0
    } else {
        let earlier = completions(listener, events.drop_last());
        if listener_run(listener, events).action is Complete {
            earlier + 1
        } else {
            earlier
        }
    }
}

/// A consistent listener stays consistent, and keeps its port and its kind
/// of handler, whatever events arrive.
pub proof fn lemma_listener_stays_consistent(listener: ListenerView, events: Seq<ListenerEvent>)
    requires
        listener.is_consistent(),
    ensures
        listener_run(listener, events).listener.is_consistent(),
        listener_run(listener, events).listener.listen_port == listener.listen_port,
        listener_run(listener, events).listener.strategy == listener.strategy,
    decreases events.len(),
{
    if events.len() > 0 {
        lemma_listener_stays_consistent(listener, events.drop_last());
    }
}

/// The shutdown signal takes effect at once: whatever the listener was
/// doing, it does not accept afterwards.
pub proof fn lemma_shutdown_stops_accepting(listener: ListenerView)
    ensures
        !(listener_transition(listener, ListenerEvent::Shutdown).listener.phase is Accepting),
        listener.phase is Accepting ==> listener_transition(listener, ListenerEvent::Shutdown).action
            == (if listener.in_flight == 0 {
            ListenerAction::Complete
        } else {
            ListenerAction::Drain
        }),
{
}

/// Once a listener has stopped accepting it never accepts again: whatever
/// events arrive, no handler is started and every inbound connection is
/// refused.
pub proof fn lemma_nothing_admitted_after_shutdown(listener: ListenerView, events: Seq<ListenerEvent>)
    requires
        !(listener.phase is Accepting),
    ensures
        !(listener_run(listener, events).listener.phase is Accepting),
        !(listener_run(listener, events).action is Forward),
        events.len() > 0 && events.last() is Incoming ==> listener_run(listener, events).action
            is Refuse,
        handlers_started(listener, events) == 0,
        listener_run(listener, events).listener.in_flight <= listener.in_flight,
    decreases events.len(),
{
    if events.len() > 0 {
        lemma_nothing_admitted_after_shutdown(listener, events.drop_last());
    }
}

/// Every handler is accounted for: those at work at the start and those
/// started since are either still counted as at work or have ended. The
/// listener reports its end only when none is at work, so all connections
/// that it admitted have run to their end by then.
pub proof fn lemma_completion_waits_for_handlers(listener: ListenerView, events: Seq<ListenerEvent>)
    requires
        listener.is_consistent(),
    ensures
        listener.in_flight + handlers_started(listener, events) == handlers_ended(listener, events)
            + listener_run(listener, events).listener.in_flight,
        listener_run(listener, events).action is Complete ==> {
            &&& listener_run(listener, events).listener.phase is Finished
            &&& listener_run(listener, events).listener.in_flight == 0
            &&& handlers_ended(listener, events) == listener.in_flight + handlers_started(
                listener,
                events,
            )
        },
    decreases events.len(),
{
    if events.len() > 0 {
        lemma_listener_stays_consistent(listener, events.drop_last());
        lemma_completion_waits_for_handlers(listener, events.drop_last());
    }
}

/// A listener reports its end exactly once: it has reported it if and only
/// if it has finished.
pub proof fn lemma_completes_once(listener: ListenerView, events: Seq<ListenerEvent>)
    requires
        !(listener.phase is Finished),
    ensures
        completions(listener, events) == (if listener_run(listener, events).listener.phase
            is Finished {
            1nat
        } else {
            0nat
        }),
    decreases events.len(),
{
    if events.len() > 0 {
        lemma_completes_once(listener, events.drop_last());
    }
}

} // verus!
