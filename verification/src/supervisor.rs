//! The control actor that switches the proxy on and off.
//!
//! The supervisor is a state machine. Whoever runs it feeds it one event at a
//! time and carries out the action that comes back: it binds sockets, fires
//! shutdown signals and waits for listeners to drain, and reports how that
//! went as the next event. A configuration update is handled to its end,
//! until [`Action::Done`], [`Action::Rejected`] or [`Action::Fatal`] comes
//! back, before the next update is fed in.
//!
//! | phase   | update   | what happens                                        |
//! |---------|----------|-----------------------------------------------------|
//! | idle    | disabled | nothing                                             |
//! | idle    | enabled  | the target is written; a listener is asked for      |
//! | running | disabled | the listener is told to stop and is waited for      |
//! | running | enabled  | the target is written; the listener stays as it is  |
//!
//! A listener keeps the port it was bound to until it is stopped: an update
//! that names another listening port while the proxy runs changes the target
//! and nothing else.

use crate::config::{rejection_message, ConfigView, ProxyConfig, TargetView};
use crate::registry::TargetRegistry;
use crate::text::{append_decimal, decimal};
use vstd::prelude::*;

verus! {

/// The record of a listener that is bound: the handle through which it is
/// told to stop and the handle through which its end is awaited. The
/// supervisor keeps the record and never looks into the handles.
#[derive(Debug, PartialEq)]
pub struct RunningProxy<S, T> {
    pub shutdown_handle: S,
    pub task_handle: T,
}

/// Where the supervisor stands.
#[derive(Debug, PartialEq)]
pub enum Phase<S, T> {
    /// No listener is bound.
    Idle,
    /// A listener on `listen_port` was asked for; the answer is awaited.
    Binding { listen_port: u16 },
    /// The listener recorded in `proxy` is bound to `listen_port`.
    Running { listen_port: u16, proxy: RunningProxy<S, T> },
    /// The listener on `listen_port` was told to stop; its end is awaited.
    Stopping { listen_port: u16 },
    /// A shutdown signal could not be delivered. Nothing is handled any more.
    Halted,
}

/// Why a transition was turned down.
#[derive(Debug, PartialEq, Eq, Clone, Copy)]
pub enum TransitionError {
    /// The update would make the proxy forward to its own listening port.
    InvalidConfiguration,
    /// The listening port could not be bound.
    BindFailed { listen_port: u16 },
}

/// The text that tells of a listening port that could not be bound, up to
/// the port itself.
pub open spec fn bind_failure_prefix() -> Seq<char> {
    "Cannot listen on port "@
}

impl TransitionError {
    /// The text that tells whoever sent the update what went wrong.
    pub open spec fn text(self) -> Seq<char> {
        match self {
            TransitionError::InvalidConfiguration => rejection_message(),
            TransitionError::BindFailed { listen_port } => bind_failure_prefix() + decimal(
                listen_port as nat,
            ),
        }
    }

    /// The text that tells whoever sent the update what went wrong.
    pub fn message(&self) -> (message: String)
        ensures
            message@ == self.text(),
    {
        match self {
            TransitionError::InvalidConfiguration => "Cannot forward to listening port".to_owned(),
            TransitionError::BindFailed { listen_port } => {
                let mut message = "Cannot listen on port ".to_owned();
                append_decimal(&mut message, *listen_port);
                message
            },
        }
    }
}

/// What is fed into the supervisor.
#[derive(Debug, PartialEq)]
pub enum Event<S, T> {
    /// A configuration update arrived.
    Update(ProxyConfig),
    /// The listener that was asked for is bound and accepting.
    Bound(RunningProxy<S, T>),
    /// The listener that was asked for could not be bound.
    BindFailed,
    /// The listener that was told to stop has ended, all its connections
    /// included.
    Drained,
    /// The shutdown signal found nobody to receive it.
    SignalLost,
}

/// An event as the contracts see it.
pub enum EventView<S, T> {
    Update(ConfigView),
    Bound(RunningProxy<S, T>),
    BindFailed,
    Drained,
    SignalLost,
}

impl<S, T> View for Event<S, T> {
    type V = EventView<S, T>;

    open spec fn view(&self) -> EventView<S, T> {
        match *self {
            Event::Update(config) => EventView::Update(config@),
            Event::Bound(proxy) => EventView::Bound(proxy),
            Event::BindFailed => EventView::BindFailed,
            Event::Drained => EventView::Drained,
            Event::SignalLost => EventView::SignalLost,
        }
    }
}

/// What the supervisor asks of whoever runs it.
#[derive(Debug, PartialEq)]
pub enum Action<S, T> {
    /// The update is applied. Nothing is left to do.
    Done,
    /// Bind a loopback listener to `listen_port` and start it. Answer with
    /// [`Event::Bound`] or [`Event::BindFailed`].
    Bind { listen_port: u16 },
    /// Fire the shutdown signal of `proxy` and wait for its task to end.
    /// Answer with [`Event::Drained`] or [`Event::SignalLost`].
    Shutdown { proxy: RunningProxy<S, T> },
    /// The update is turned down and `error` goes to whoever sent it.
    Rejected { error: TransitionError },
    /// The supervisor has halted: a recorded listener cannot be told to stop.
    Fatal,
    /// The event was not awaited in this phase and changed nothing. A record
    /// that came with it is handed back in `surplus`.
    Unexpected { surplus: Option<RunningProxy<S, T>> },
}

/// The outcome of one transition: the phase and the registered target after
/// it, and the action asked for.
pub struct Step<S, T> {
    pub phase: Phase<S, T>,
    pub target: Option<TargetView>,
    pub action: Action<S, T>,
}

/// The answer to an event that is not awaited: nothing changes.
pub open spec fn untimely<S, T>(
    phase: Phase<S, T>,
    target: Option<TargetView>,
    event: EventView<S, T>,
) -> Step<S, T> {
    Step {
        phase,
        target,
        action: Action::Unexpected {
            surplus: match event {
                EventView::Bound(proxy) => Some(proxy),
                _ => None,
            },
        },
    }
}

/// The transition relation of the supervisor.
pub open spec fn transition<S, T>(
    phase: Phase<S, T>,
    target: Option<TargetView>,
    event: EventView<S, T>,
) -> Step<S, T> {
    match (phase, event) {
        (Phase::Idle, EventView::Update(config)) => {
            if !config.is_valid() {
                Step { phase, target, action: Action::Rejected { error: TransitionError::InvalidConfiguration } }
            } else {
                match config {
                    ConfigView::Disabled => Step { phase, target, action: Action::Done },
                    ConfigView::Enabled { listen_port, target: new_target } => Step {
                        phase: Phase::Binding { listen_port },
                        target: Some(new_target),
                        action: Action::Bind { listen_port },
                    },
                }
            }
        },
        (Phase::Running { listen_port, proxy }, EventView::Update(config)) => {
            if !config.is_valid() {
                Step { phase, target, action: Action::Rejected { error: TransitionError::InvalidConfiguration } }
            } else {
                match config {
                    ConfigView::Disabled => Step {
                        phase: Phase::Stopping { listen_port },
                        target,
                        action: Action::Shutdown { proxy },
                    },
                    ConfigView::Enabled { target: new_target, .. } => Step {
                        phase,
                        target: Some(new_target),
                        action: Action::Done,
                    },
                }
            }
        },
        (Phase::Binding { listen_port }, EventView::Bound(proxy)) => Step {
            phase: Phase::Running { listen_port, proxy },
            target,
            action: Action::Done,
        },
        (Phase::Binding { listen_port }, EventView::BindFailed) => Step {
            phase: Phase::Idle,
            target,
            action: Action::Rejected { error: TransitionError::BindFailed { listen_port } },
        },
        (Phase::Stopping { .. }, EventView::Drained) => Step { phase: Phase::Idle, target, action: Action::Done },
        (Phase::Stopping { .. }, EventView::SignalLost) => Step {
            phase: Phase::Halted,
            target,
            action: Action::Fatal,
        },
        _ => untimely(phase, target, event),
    }
}

/// The control actor. It owns the record of the running listener, if there
/// is one, and is the only writer of the target registry.
pub struct Supervisor<S, T> {
    phase: Phase<S, T>,
}

impl<S, T> View for Supervisor<S, T> {
    type V = Phase<S, T>;

    closed spec fn view(&self) -> Phase<S, T> {
        self.phase
    }
}

impl<S, T> Supervisor<S, T> {
    /// A supervisor with no listener.
    pub fn new() -> (supervisor: Self)
        ensures
            supervisor@ is Idle,
    {
        Supervisor { phase: Phase::Idle }
    }

    /// True iff a listener is recorded as bound.
    pub fn is_running(&self) -> (running: bool)
        ensures
            running == (self@ is Running),
    {
        match &self.phase {
            Phase::Running { .. } => true,
            _ => false,
        }
    }

    /// True iff no update is being handled: the supervisor is idle or
    /// running, and the next update may be fed in.
    pub fn is_settled(&self) -> (settled: bool)
        ensures
            settled == (self@ is Idle || self@ is Running),
    {
        match &self.phase {
            Phase::Idle => true,
            Phase::Running { .. } => true,
            _ => false,
        }
    }

    /// True iff the supervisor has halted.
    pub fn is_halted(&self) -> (halted: bool)
        ensures
            halted == (self@ is Halted),
    {
        match &self.phase {
            Phase::Halted => true,
            _ => false,
        }
    }

    /// The port that a listener is bound to, is being bound to or is being
    /// released from.
    pub fn bound_port(&self) -> (port: Option<u16>)
        ensures
            port == match self@ {
                Phase::Binding { listen_port } => Some(listen_port),
                Phase::Running { listen_port, .. } => Some(listen_port),
                Phase::Stopping { listen_port } => Some(listen_port),
                _ => None,
            },
    {
        match &self.phase {
            Phase::Binding { listen_port } => Some(*listen_port),
            Phase::Running { listen_port, .. } => Some(*listen_port),
            Phase::Stopping { listen_port } => Some(*listen_port),
            _ => None,
        }
    }

    /// Handles one event: moves to the next phase, writes the target of a
    /// valid enabling update into `registry`, and says what is to be done.
    pub fn step(&mut self, registry: &mut TargetRegistry, event: Event<S, T>) -> (action: Action<S, T>)
        ensures
            final(self)@ == transition(old(self)@, old(registry)@, event@).phase,
            final(registry)@ == transition(old(self)@, old(registry)@, event@).target,
            action == transition(old(self)@, old(registry)@, event@).action,
    {
        let mut phase = Phase::Idle;
        core::mem::swap(&mut self.phase, &mut phase);
        match phase {
            Phase::Idle => match event {
                Event::Update(config) => {
                    if config.validate().is_err() {
                        Action::Rejected { error: TransitionError::InvalidConfiguration }
                    } else {
                        match config.0 {
                            None => Action::Done,
                            Some((listen_port, target)) => {
                                registry.set_target(target);
                                self.phase = Phase::Binding { listen_port };
                                Action::Bind { listen_port }
                            },
                        }
                    }
                },
                Event::Bound(proxy) => Action::Unexpected { surplus: Some(proxy) },
                _ => Action::Unexpected { surplus: None },
            },
            Phase::Running { listen_port, proxy } => match event {
                Event::Update(config) => {
                    if config.validate().is_err() {
                        self.phase = Phase::Running { listen_port, proxy };
                        Action::Rejected { error: TransitionError::InvalidConfiguration }
                    } else {
                        match config.0 {
                            None => {
                                self.phase = Phase::Stopping { listen_port };
                                Action::Shutdown { proxy }
                            },
                            Some((_, target)) => {
                                registry.set_target(target);
                                self.phase = Phase::Running { listen_port, proxy };
                                Action::Done
                            },
                        }
                    }
                },
                Event::Bound(surplus) => {
                    self.phase = Phase::Running { listen_port, proxy };
                    Action::Unexpected { surplus: Some(surplus) }
                },
                _ => {
                    self.phase = Phase::Running { listen_port, proxy };
                    Action::Unexpected { surplus: None }
                },
            },
            Phase::Binding { listen_port } => match event {
                Event::Bound(proxy) => {
                    self.phase = Phase::Running { listen_port, proxy };
                    Action::Done
                },
                Event::BindFailed => Action::Rejected { error: TransitionError::BindFailed { listen_port } },
                _ => {
                    self.phase = Phase::Binding { listen_port };
                    Action::Unexpected { surplus: None }
                },
            },
            Phase::Stopping { listen_port } => match event {
                Event::Drained => Action::Done,
                Event::SignalLost => {
                    self.phase = Phase::Halted;
                    Action::Fatal
                },
                Event::Bound(proxy) => {
                    self.phase = Phase::Stopping { listen_port };
                    Action::Unexpected { surplus: Some(proxy) }
                },
                _ => {
                    self.phase = Phase::Stopping { listen_port };
                    Action::Unexpected { surplus: None }
                },
            },
            Phase::Halted => {
                self.phase = Phase::Halted;
                match event {
                    Event::Bound(proxy) => Action::Unexpected { surplus: Some(proxy) },
                    _ => Action::Unexpected { surplus: None },
                }
            },
        }
    }
}

/// Where the supervisor stands after `events` were handled in order,
/// starting in `phase` with `target` registered. The action is the one that
/// answered the last event.
pub open spec fn run<S, T>(
    phase: Phase<S, T>,
    target: Option<TargetView>,
    events: Seq<EventView<S, T>>,
) -> Step<S, T>
    decreases events.len(),
{
    if events.len() == 0 {
        Step { phase, target, action: Action::Done }
    } else {
        let before = run(phase, target, events.drop_last());
        transition(before.phase, before.target, events.last())
    }
}

/// The number of records that a supervisor in `phase` holds.
pub open spec fn records_held<S, T>(phase: Phase<S, T>) -> nat {
    if phase is Running {
        1
    } else {
        0
    }
}

/// The number of records that the supervisor took in while it handled
/// `events`: the listeners reported bound while one was awaited.
pub open spec fn records_taken<S, T>(
    phase: Phase<S, T>,
    target: Option<TargetView>,
    events: Seq<EventView<S, T>>,
) -> nat
    decreases events.len(),
{
    if events.len() == 0 {
        0
    } else {
        let earlier = records_taken(phase, target, events.drop_last());
        if run(phase, target, events.drop_last()).phase is Binding && events.last() is Bound {
            earlier + 1
        } else {
            earlier
        }
    }
}

/// The number of records that the supervisor handed out to be shut down
/// while it handled `events`.
pub open spec fn records_released<S, T>(
    phase: Phase<S, T>,
    target: Option<TargetView>,
    events: Seq<EventView<S, T>>,
) -> nat
    decreases events.len(),
{
    if events.len() == 0 {
        0
    } else {
        let earlier = records_released(phase, target, events.drop_last());
        if run(phase, target, events).action is Shutdown {
            earlier + 1
        } else {
            earlier
        }
    }
}

/// The number of listeners that a supervisor in `phase` has asked for and
/// not yet seen fail or end.
pub open spec fn listeners_outstanding<S, T>(phase: Phase<S, T>) -> nat {
    if phase is Idle {
        0
    } else {
        1
    }
}

/// The number of listeners that the supervisor asked for while it handled
/// `events`.
pub open spec fn listeners_asked<S, T>(
    phase: Phase<S, T>,
    target: Option<TargetView>,
    events: Seq<EventView<S, T>>,
) -> nat
    decreases events.len(),
{
    if events.len() == 0 {
        0
    } else {
        let earlier = listeners_asked(phase, target, events.drop_last());
        if run(phase, target, events).action is Bind {
            earlier + 1
        } else {
            earlier
        }
    }
}

/// The number of listeners whose failure to bind, or whose end, the
/// supervisor accepted while it handled `events`.
pub open spec fn listeners_ended<S, T>(
    phase: Phase<S, T>,
    target: Option<TargetView>,
    events: Seq<EventView<S, T>>,
) -> nat
    decreases events.len(),
{
    if events.len() == 0 {
        0
    } else {
        let earlier = listeners_ended(phase, target, events.drop_last());
        let before = run(phase, target, events.drop_last()).phase;
        if (before is Binding && events.last() is BindFailed) || (before is Stopping
            && events.last() is Drained) {
            earlier + 1
        } else {
            earlier
        }
    }
}

/// Whatever events arrive in whatever order, the supervisor holds at most one
/// record of a running listener: every record it ever took in is either the
/// one it holds or was handed out again to be shut down.
pub proof fn lemma_at_most_one_running_proxy<S, T>(
    phase: Phase<S, T>,
    target: Option<TargetView>,
    events: Seq<EventView<S, T>>,
)
    ensures
        records_held(phase) + records_taken(phase, target, events) == records_released(
            phase,
            target,
            events,
        ) + records_held(run(phase, target, events).phase),
        records_held(run(phase, target, events).phase) <= 1,
    decreases events.len(),
{
    if events.len() > 0 {
        lemma_at_most_one_running_proxy(phase, target, events.drop_last());
    }
}

/// Whatever events arrive in whatever order, at most one listener is asked
/// for and not yet ended: a new one is asked for only after the one before
/// it failed to bind or was reported drained.
pub proof fn lemma_at_most_one_listener<S, T>(
    phase: Phase<S, T>,
    target: Option<TargetView>,
    events: Seq<EventView<S, T>>,
)
    ensures
        listeners_outstanding(phase) + listeners_asked(phase, target, events) == listeners_ended(
            phase,
            target,
            events,
        ) + listeners_outstanding(run(phase, target, events).phase),
        listeners_outstanding(run(phase, target, events).phase) <= 1,
        run(phase, target, events).action is Bind ==> events.len() > 0 && run(
            phase,
            target,
            events.drop_last(),
        ).phase is Idle,
    decreases events.len(),
{
    if events.len() > 0 {
        lemma_at_most_one_listener(phase, target, events.drop_last());
    }
}

/// The record handed out to be shut down is the one that was held, and it is
/// handed out only in answer to a disabling update.
pub proof fn lemma_shutdown_releases_held_record<S, T>(
    phase: Phase<S, T>,
    target: Option<TargetView>,
    event: EventView<S, T>,
)
    requires
        transition(phase, target, event).action is Shutdown,
    ensures
        phase is Running,
        event == EventView::<S, T>::Update(ConfigView::Disabled),
        transition(phase, target, event).action->Shutdown_proxy == phase->Running_proxy,
        transition(phase, target, event).phase == (Phase::<S, T>::Stopping {
            listen_port: phase->Running_listen_port,
        }),
{
}

/// An update that would make the proxy forward to its own listening port is
/// turned down in every phase in which updates are taken, and changes neither
/// the phase nor the registered target.
pub proof fn lemma_invalid_update_changes_nothing<S, T>(
    phase: Phase<S, T>,
    target: Option<TargetView>,
    config: ConfigView,
)
    requires
        !config.is_valid(),
        phase is Idle || phase is Running,
    ensures
        transition(phase, target, EventView::Update(config)) == (Step {
            phase,
            target,
            action: Action::Rejected { error: TransitionError::InvalidConfiguration },
        }),
{
}

/// While a listener runs, a valid enabling update replaces the registered
/// target and changes nothing else: the listener stays bound to the port it
/// has, whatever listening port the update names.
pub proof fn lemma_retarget_keeps_listener<S, T>(
    listen_port: u16,
    proxy: RunningProxy<S, T>,
    target: Option<TargetView>,
    new_listen_port: u16,
    new_target: TargetView,
)
    requires
        (ConfigView::Enabled { listen_port: new_listen_port, target: new_target }).is_valid(),
    ensures
        transition(
            Phase::Running { listen_port, proxy },
            target,
            EventView::Update(ConfigView::Enabled { listen_port: new_listen_port, target: new_target }),
        ) == (Step {
            phase: Phase::Running { listen_port, proxy },
            target: Some(new_target),
            action: Action::Done,
        }),
{
}

/// No sequence of enabling updates, valid or not, moves a running listener:
/// after all of them the same record is held on the same port, and none of
/// them asked for a listener or for a shutdown.
pub proof fn lemma_enabling_updates_never_rebind<S, T>(
    listen_port: u16,
    proxy: RunningProxy<S, T>,
    target: Option<TargetView>,
    events: Seq<EventView<S, T>>,
)
    requires
        forall|i: int|
            0 <= i < events.len() ==> (#[trigger] events[i]) is Update && events[i]->Update_0 is Enabled,
    ensures
        run(Phase::Running { listen_port, proxy }, target, events).phase == (Phase::Running {
            listen_port,
            proxy,
        }),
        !(run(Phase::Running { listen_port, proxy }, target, events).action is Bind),
        !(run(Phase::Running { listen_port, proxy }, target, events).action is Shutdown),
        listeners_asked(Phase::Running { listen_port, proxy }, target, events) == 0,
    decreases events.len(),
{
    if events.len() > 0 {
        lemma_enabling_updates_never_rebind(listen_port, proxy, target, events.drop_last());
    }
}

/// After the last of a sequence of valid enabling updates the registered
/// target is the target of that last update.
pub proof fn lemma_last_update_sets_target<S, T>(
    phase: Phase<S, T>,
    target: Option<TargetView>,
    events: Seq<EventView<S, T>>,
)
    requires
        events.len() > 0,
        events.last() is Update,
        events.last()->Update_0 is Enabled,
        events.last()->Update_0.is_valid(),
        run(phase, target, events.drop_last()).phase is Idle || run(
            phase,
            target,
            events.drop_last(),
        ).phase is Running,
    ensures
        run(phase, target, events).target == Some(events.last()->Update_0->target),
{
}

/// A disabling update, the end of the listener, an enabling update and a
/// successful bind, in this order, take a running supervisor to a listener on
/// the new port with the new target registered.
pub proof fn lemma_cycle_rebinds<S, T>(
    listen_port: u16,
    proxy: RunningProxy<S, T>,
    target: Option<TargetView>,
    new_listen_port: u16,
    new_target: TargetView,
    new_proxy: RunningProxy<S, T>,
)
    requires
        (ConfigView::Enabled { listen_port: new_listen_port, target: new_target }).is_valid(),
    ensures
        ({
            let enable = EventView::<S, T>::Update(
                ConfigView::Enabled { listen_port: new_listen_port, target: new_target },
            );
            let events = seq![
                EventView::<S, T>::Update(ConfigView::Disabled),
                EventView::<S, T>::Drained,
                enable,
                EventView::<S, T>::Bound(new_proxy),
            ];
            let start = Phase::Running { listen_port, proxy };
            &&& run(start, target, events.take(1)) == (Step {
                phase: Phase::Stopping { listen_port },
                target,
                action: Action::Shutdown { proxy },
            })
            &&& run(start, target, events.take(2)) == (Step::<S, T> {
                phase: Phase::Idle,
                target,
                action: Action::Done,
            })
            &&& run(start, target, events.take(3)) == (Step::<S, T> {
                phase: Phase::Binding { listen_port: new_listen_port },
                target: Some(new_target),
                action: Action::Bind { listen_port: new_listen_port },
            })
            &&& run(start, target, events) == (Step {
                phase: Phase::Running { listen_port: new_listen_port, proxy: new_proxy },
                target: Some(new_target),
                action: Action::Done,
            })
        }),
{
    let enable = EventView::<S, T>::Update(
        ConfigView::Enabled { listen_port: new_listen_port, target: new_target },
    );
    let events = seq![
        EventView::<S, T>::Update(ConfigView::Disabled),
        EventView::<S, T>::Drained,
        enable,
        EventView::<S, T>::Bound(new_proxy),
    ];
    let start = Phase::Running { listen_port, proxy };
    assert(events.take(1).drop_last() =~= events.take(0));
    assert(events.take(2).drop_last() =~= events.take(1));
    assert(events.take(3).drop_last() =~= events.take(2));
    assert(events.drop_last() =~= events.take(3));
    assert(events.take(0).len() == 0);
    reveal_with_fuel(run, 5);
}

/// A supervisor that is stopping a listener reports the disabling update as
/// done only when the listener is reported drained; every other event leaves
/// it waiting.
pub proof fn lemma_disable_completes_on_drain_only<S, T>(
    listen_port: u16,
    target: Option<TargetView>,
    event: EventView<S, T>,
)
    ensures
        transition(Phase::<S, T>::Stopping { listen_port }, target, event).action is Done <==> event is Drained,
        !(event is Drained) && !(event is SignalLost) ==> transition(
            Phase::<S, T>::Stopping { listen_port },
            target,
            event,
        ).phase == (Phase::<S, T>::Stopping { listen_port }),
{
}

/// Once a target is registered it stays registered, and a supervisor that
/// started idle has a target registered whenever it is not idle: no listener
/// ever exists without a target to forward to.
pub proof fn lemma_target_registered_while_listening<S, T>(
    target: Option<TargetView>,
    events: Seq<EventView<S, T>>,
)
    ensures
        target is Some ==> run(Phase::<S, T>::Idle, target, events).target is Some,
        !(run(Phase::<S, T>::Idle, target, events).phase is Idle) ==> run(
            Phase::<S, T>::Idle,
            target,
            events,
        ).target is Some,
    decreases events.len(),
{
    if events.len() > 0 {
        lemma_target_registered_while_listening::<S, T>(target, events.drop_last());
    }
}

/// Nothing but a valid enabling update that is taken writes the registered
/// target, and what it writes is its own target.
pub proof fn lemma_only_enabling_updates_write_target<S, T>(
    phase: Phase<S, T>,
    target: Option<TargetView>,
    event: EventView<S, T>,
)
    ensures
        ({
            let written = event is Update && event->Update_0 is Enabled && event->Update_0.is_valid()
                && (phase is Idle || phase is Running);
            let after = transition(phase, target, event).target;
            &&& written ==> after == Some(event->Update_0->target)
            &&& !written ==> after == target
        }),
{
}

/// An update fed to a supervisor that is idle or running is handled in at
/// most two steps. Either the first step ends it, with the supervisor idle or
/// running again, or it asks for one piece of outside work, and whichever
/// way that work turns out, the second step ends it: the supervisor is idle
/// or running again, or it has halted because the shutdown signal was lost.
pub proof fn lemma_update_is_handled_in_two_steps<S, T>(
    phase: Phase<S, T>,
    target: Option<TargetView>,
    config: ConfigView,
    proxy: RunningProxy<S, T>,
)
    requires
        phase is Idle || phase is Running,
    ensures
        ({
            let first = transition(phase, target, EventView::Update(config));
            let settled = |step: Step<S, T>|
                (step.phase is Idle || step.phase is Running) && (step.action is Done || step.action
                    is Rejected);
            ||| settled(first)
            ||| {
                &&& first.action is Bind
                &&& first.phase is Binding
                &&& settled(transition(first.phase, first.target, EventView::Bound(proxy)))
                &&& settled(transition(first.phase, first.target, EventView::BindFailed))
            }
            ||| {
                &&& first.action is Shutdown
                &&& first.phase is Stopping
                &&& settled(transition(first.phase, first.target, EventView::Drained))
                &&& transition(first.phase, first.target, EventView::SignalLost).phase is Halted
                &&& transition(first.phase, first.target, EventView::SignalLost).action is Fatal
            }
        }),
{
}

} // verus!
