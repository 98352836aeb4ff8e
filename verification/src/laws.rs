//! What holds of the supervisor, the listener and the connection handlers
//! taken together.

use crate::config::TargetView;
use crate::forwarder::{
    forwarder_transition, ForwarderActionView, ForwarderEvent, ForwarderPhaseView, ForwarderView,
    Strategy,
};
use crate::listener::{
    handlers_ended, handlers_started, lemma_completion_waits_for_handlers, listener_run,
    ListenerEvent, ListenerView,
};
use crate::supervisor::{run, transition, EventView, Phase};
use vstd::prelude::*;

verus! {

/// Once an enabling update has been applied, every unit of work that a
/// connection handler takes up is dialled to the target of that update, by
/// either strategy, for as long as no later update is applied.
pub proof fn lemma_new_work_follows_last_update<S, T>(
    phase: Phase<S, T>,
    target: Option<TargetView>,
    events: Seq<EventView<S, T>>,
    strategy: Strategy,
)
    requires
        events.len() > 0,
        events.last() is Update,
        events.last()->Update_0 is Enabled,
        events.last()->Update_0.is_valid(),
        run(phase, target, events.drop_last()).phase is Idle || run(
            phase,
            target,
            events.drop_last(),
        ).phase is Running,
    ensures
        forwarder_transition(
            ForwarderView { strategy, phase: ForwarderPhaseView::Waiting },
            run(phase, target, events).target,
            ForwarderEvent::WorkArrived,
        ).action == (ForwarderActionView::Dial { target: events.last()->Update_0->target }),
{
}

/// A supervisor that started idle never lets a connection handler find the
/// registry empty: whenever a listener may be there to start handlers, a
/// target is registered, and work that arrives is dialled to it.
pub proof fn lemma_work_finds_a_target_while_listening<S, T>(
    target: Option<TargetView>,
    events: Seq<EventView<S, T>>,
    strategy: Strategy,
)
    requires
        !(run(Phase::<S, T>::Idle, target, events).phase is Idle),
    ensures
        run(Phase::<S, T>::Idle, target, events).target is Some,
        forwarder_transition(
            ForwarderView { strategy, phase: ForwarderPhaseView::Waiting },
            run(Phase::<S, T>::Idle, target, events).target,
            ForwarderEvent::WorkArrived,
        ).action is Dial,
{
    crate::supervisor::lemma_target_registered_while_listening::<S, T>(target, events);
}

/// A disabling update is reported as done when the listener is reported
/// drained, and a listener reports its end only when every connection that
/// it admitted has run to its end. So if the end of the listener is passed
/// on to the supervisor when the listener reports it, the update is done
/// after the last admitted connection has ended, and not before.
pub proof fn lemma_disable_is_done_after_drain<S, T>(
    listen_port: u16,
    target: Option<TargetView>,
    listener: ListenerView,
    events: Seq<ListenerEvent>,
    event: EventView<S, T>,
)
    requires
        listener.is_consistent(),
    ensures
        transition(Phase::<S, T>::Stopping { listen_port }, target, event).action is Done ==> event
            is Drained,
        listener_run(listener, events).action is Complete ==> {
            &&& listener_run(listener, events).listener.in_flight == 0
            &&& handlers_ended(listener, events) == listener.in_flight + handlers_started(
                listener,
                events,
            )
            &&& transition(
                Phase::<S, T>::Stopping { listen_port },
                target,
                EventView::<S, T>::Drained,
            ).action is Done
        },
{
    lemma_completion_waits_for_handlers(listener, events);
}

} // verus!
