//! The work done for one inbound connection, as a state machine.
//!
//! A connection handler serves units of work. Relaying raw bytes, the whole
//! connection is the one unit. Relaying HTTP/1.1, every request with its
//! response is a unit, and the inbound connection outlives them. At the start
//! of each unit the handler reads the target registry once; the target it
//! found there is the target of that unit to its end, whatever is written to
//! the registry meanwhile.
//!
//! Whoever runs the handler dials, shakes hands and moves the bytes, and
//! feeds in how that went. A failure ends the unit of work it happened in and
//! reaches nobody else.

use crate::config::{ForwardTarget, TargetView};
use crate::registry::TargetRegistry;
use vstd::prelude::*;

verus! {

/// How an inbound connection is served.
#[derive(Debug, PartialEq, Eq, Clone, Copy)]
pub enum Strategy {
    /// Bytes are relayed both ways, unread.
    Tcp,
    /// The connection is a sequence of HTTP/1.1 exchanges, each relayed over
    /// an outbound connection of its own.
    Http,
}

/// Why a unit of work failed.
#[derive(Debug, PartialEq, Eq, Clone, Copy)]
pub enum ForwardError {
    /// No target has been registered yet.
    TargetUndefined,
    /// The target could not be resolved or did not take the connection.
    DialFailed,
    /// The target took the connection and then did not speak HTTP/1.1.
    HandshakeFailed,
    /// The relay broke off: a transport error, or malformed HTTP on either
    /// side.
    RelayFailed,
}

/// Where a connection handler stands.
#[derive(Debug, PartialEq)]
pub enum ForwarderPhase {
    /// The next unit of work is awaited.
    Waiting,
    /// An outbound connection to `target` is being opened.
    Dialing { target: ForwardTarget },
    /// The outbound connection to `target` is open; the HTTP/1.1 handshake
    /// is under way.
    Handshaking { target: ForwardTarget },
    /// Traffic flows between the inbound connection and `target`.
    Relaying { target: ForwardTarget },
    /// The handler has ended.
    Closed,
}

/// The phase of a connection handler as the contracts see it.
pub enum ForwarderPhaseView {
    Waiting,
    Dialing { target: TargetView },
    Handshaking { target: TargetView },
    Relaying { target: TargetView },
    Closed,
}

impl View for ForwarderPhase {
    type V = ForwarderPhaseView;

    open spec fn view(&self) -> ForwarderPhaseView {
        match *self {
            ForwarderPhase::Waiting => ForwarderPhaseView::Waiting,
            ForwarderPhase::Dialing { target } => ForwarderPhaseView::Dialing { target: target@ },
            ForwarderPhase::Handshaking { target } => ForwarderPhaseView::Handshaking { target: target@ },
            ForwarderPhase::Relaying { target } => ForwarderPhaseView::Relaying { target: target@ },
            ForwarderPhase::Closed => ForwarderPhaseView::Closed,
        }
    }
}

impl ForwarderPhaseView {
    /// The target of the unit of work under way, if one is.
    pub open spec fn target(self) -> Option<TargetView> {
        match self {
            ForwarderPhaseView::Dialing { target } => Some(target),
            ForwarderPhaseView::Handshaking { target } => Some(target),
            ForwarderPhaseView::Relaying { target } => Some(target),
            _ => None,
        }
    }
}

/// What is fed into a connection handler.
#[derive(Debug, PartialEq, Eq, Clone, Copy)]
pub enum ForwarderEvent {
    /// A unit of work is there: the accepted connection, or the next request
    /// read from it.
    WorkArrived,
    /// The outbound connection is open.
    Connected,
    /// The outbound connection could not be opened.
    DialFailed,
    /// The HTTP/1.1 handshake with the target succeeded.
    HandshakeDone,
    /// The HTTP/1.1 handshake with the target failed.
    HandshakeFailed,
    /// The relay ran to its end: one side closed the byte stream, or the
    /// response was streamed back in full.
    RelayEnded,
    /// The relay broke off. `inbound_usable` says whether the inbound
    /// connection can still carry another exchange.
    RelayFailed { inbound_usable: bool },
    /// The client closed the inbound connection.
    InboundClosed,
}

/// What a connection handler asks of whoever runs it.
#[derive(Debug, PartialEq)]
pub enum ForwarderAction {
    /// Open a new outbound connection to `target`.
    Dial { target: ForwardTarget },
    /// Perform the HTTP/1.1 handshake on the outbound connection.
    Handshake,
    /// Move the traffic: bytes both ways until either side closes, or one
    /// request out and its response back.
    Relay,
    /// Close the outbound connection and wait for the next request.
    AwaitRequest,
    /// Close the outbound connection if there is one, answer the request
    /// with an error that tells of `cause`, and wait for the next request.
    AnswerError { cause: ForwardError },
    /// Close what is open. The handler has ended, and `failure` says why if
    /// it did not end well.
    Close { failure: Option<ForwardError> },
    /// The event does not apply in this phase and changed nothing.
    Ignored,
}

/// An action of a connection handler as the contracts see it.
pub enum ForwarderActionView {
    Dial { target: TargetView },
    Handshake,
    Relay,
    AwaitRequest,
    AnswerError { cause: ForwardError },
    Close { failure: Option<ForwardError> },
    Ignored,
}

impl View for ForwarderAction {
    type V = ForwarderActionView;

    open spec fn view(&self) -> ForwarderActionView {
        match *self {
            ForwarderAction::Dial { target } => ForwarderActionView::Dial { target: target@ },
            ForwarderAction::Handshake => ForwarderActionView::Handshake,
            ForwarderAction::Relay => ForwarderActionView::Relay,
            ForwarderAction::AwaitRequest => ForwarderActionView::AwaitRequest,
            ForwarderAction::AnswerError { cause } => ForwarderActionView::AnswerError { cause },
            ForwarderAction::Close { failure } => ForwarderActionView::Close { failure },
            ForwarderAction::Ignored => ForwarderActionView::Ignored,
        }
    }
}

/// A connection handler as the contracts see it.
pub struct ForwarderView {
    pub strategy: Strategy,
    pub phase: ForwarderPhaseView,
}

/// The outcome of one transition of a connection handler.
pub struct ForwarderStep {
    pub forwarder: ForwarderView,
    pub action: ForwarderActionView,
}

/// What a failure does to the unit of work it happens in. Relaying raw
/// bytes, the connection is the unit and ends with it. Relaying HTTP, the
/// request is answered with an error and the connection goes on.
pub open spec fn failed(strategy: Strategy, cause: ForwardError) -> ForwarderStep {
    match strategy {
        Strategy::Tcp => ForwarderStep {
            forwarder: ForwarderView { strategy, phase: ForwarderPhaseView::Closed },
            action: ForwarderActionView::Close { failure: Some(cause) },
        },
        Strategy::Http => ForwarderStep {
            forwarder: ForwarderView { strategy, phase: ForwarderPhaseView::Waiting },
            action: ForwarderActionView::AnswerError { cause },
        },
    }
}

/// The transition relation of a connection handler. `registered` is what
/// the target registry holds when the event is handled.
pub open spec fn forwarder_transition(
    forwarder: ForwarderView,
    registered: Option<TargetView>,
    event: ForwarderEvent,
) -> ForwarderStep {
    let strategy = forwarder.strategy;
    match (forwarder.phase, event) {
        (ForwarderPhaseView::Closed, _) => ForwarderStep { forwarder, action: ForwarderActionView::Ignored },
        (_, ForwarderEvent::InboundClosed) => ForwarderStep {
            forwarder: ForwarderView { strategy, phase: ForwarderPhaseView::Closed },
            action: ForwarderActionView::Close { failure: None },
        },
        (ForwarderPhaseView::Waiting, ForwarderEvent::WorkArrived) => match registered {
            Some(target) => ForwarderStep {
                forwarder: ForwarderView { strategy, phase: ForwarderPhaseView::Dialing { target } },
                action: ForwarderActionView::Dial { target },
            },
            None => failed(strategy, ForwardError::TargetUndefined),
        },
        (ForwarderPhaseView::Dialing { target }, ForwarderEvent::Connected) => match strategy {
            Strategy::Tcp => ForwarderStep {
                forwarder: ForwarderView { strategy, phase: ForwarderPhaseView::Relaying { target } },
                action: ForwarderActionView::Relay,
            },
            Strategy::Http => ForwarderStep {
                forwarder: ForwarderView { strategy, phase: ForwarderPhaseView::Handshaking { target } },
                action: ForwarderActionView::Handshake,
            },
        },
        (ForwarderPhaseView::Dialing { .. }, ForwarderEvent::DialFailed) => failed(
            strategy,
            ForwardError::DialFailed,
        ),
        (ForwarderPhaseView::Handshaking { target }, ForwarderEvent::HandshakeDone) => ForwarderStep {
            forwarder: ForwarderView { strategy, phase: ForwarderPhaseView::Relaying { target } },
            action: ForwarderActionView::Relay,
        },
        (ForwarderPhaseView::Handshaking { .. }, ForwarderEvent::HandshakeFailed) => failed(
            strategy,
            ForwardError::HandshakeFailed,
        ),
        (ForwarderPhaseView::Relaying { .. }, ForwarderEvent::RelayEnded) => match strategy {
            Strategy::Tcp => ForwarderStep {
                forwarder: ForwarderView { strategy, phase: ForwarderPhaseView::Closed },
                action: ForwarderActionView::Close { failure: None },
            },
            Strategy::Http => ForwarderStep {
                forwarder: ForwarderView { strategy, phase: ForwarderPhaseView::Waiting },
                action: ForwarderActionView::AwaitRequest,
            },
        },
        (ForwarderPhaseView::Relaying { .. }, ForwarderEvent::RelayFailed { inbound_usable }) => {
            if inbound_usable {
                failed(strategy, ForwardError::RelayFailed)
            } else {
                ForwarderStep {
                    forwarder: ForwarderView { strategy, phase: ForwarderPhaseView::Closed },
                    action: ForwarderActionView::Close { failure: Some(ForwardError::RelayFailed) },
                }
            }
        },
        _ => ForwarderStep { forwarder, action: ForwarderActionView::Ignored },
    }
}

/// The handler of one inbound connection.
pub struct ConnectionForwarder {
    strategy: Strategy,
    phase: ForwarderPhase,
}

impl View for ConnectionForwarder {
    type V = ForwarderView;

    closed spec fn view(&self) -> ForwarderView {
        ForwarderView { strategy: self.strategy, phase: self.phase@ }
    }
}

impl ConnectionForwarder {
    /// A handler that waits for its first unit of work.
    pub fn new(strategy: Strategy) -> (forwarder: Self)
        ensures
            forwarder@ == (ForwarderView { strategy, phase: ForwarderPhaseView::Waiting }),
    {
        ConnectionForwarder { strategy, phase: ForwarderPhase::Waiting }
    }

    pub fn strategy(&self) -> (strategy: Strategy)
        ensures
            strategy == self@.strategy,
    {
        self.strategy
    }

    /// True iff the handler has ended.
    pub fn is_closed(&self) -> (closed: bool)
        ensures
            closed == (self@.phase is Closed),
    {
        match &self.phase {
            ForwarderPhase::Closed => true,
            _ => false,
        }
    }

    /// The target of the unit of work under way, if one is.
    pub fn target(&self) -> (target: Option<ForwardTarget>)
        ensures
            self@.phase.target() is None ==> target is None,
            self@.phase.target() is Some ==> target is Some && Some(target->0@) == self@.phase.target(),
    {
        match &self.phase {
            ForwarderPhase::Dialing { target } => Some(target.clone()),
            ForwarderPhase::Handshaking { target } => Some(target.clone()),
            ForwarderPhase::Relaying { target } => Some(target.clone()),
            _ => None,
        }
    }

    /// What a failure does to the unit of work under way.
    fn fail(&mut self, cause: ForwardError) -> (action: ForwarderAction)
        ensures
            final(self)@ == failed(old(self)@.strategy, cause).forwarder,
            action@ == failed(old(self)@.strategy, cause).action,
    {
        match self.strategy {
            Strategy::Tcp => {
                self.phase = ForwarderPhase::Closed;
                ForwarderAction::Close { failure: Some(cause) }
            },
            Strategy::Http => {
                self.phase = ForwarderPhase::Waiting;
                ForwarderAction::AnswerError { cause }
            },
        }
    }

    /// Handles one event and says what is to be done. The registry is read
    /// when a unit of work arrives and at no other time.
    pub fn step(&mut self, registry: &TargetRegistry, event: ForwarderEvent) -> (action: ForwarderAction)
        ensures
            final(self)@ == forwarder_transition(old(self)@, registry@, event).forwarder,
            action@ == forwarder_transition(old(self)@, registry@, event).action,
    {
        let mut phase = ForwarderPhase::Closed;
        core::mem::swap(&mut self.phase, &mut phase);
        match phase {
            ForwarderPhase::Closed => ForwarderAction::Ignored,
            ForwarderPhase::Waiting => match event {
                ForwarderEvent::InboundClosed => ForwarderAction::Close { failure: None },
                ForwarderEvent::WorkArrived => match registry.current() {
                    Some(target) => {
                        self.phase = ForwarderPhase::Dialing { target: target.clone() };
                        ForwarderAction::Dial { target }
                    },
                    None => self.fail(ForwardError::TargetUndefined),
                },
                _ => {
                    self.phase = ForwarderPhase::Waiting;
                    ForwarderAction::Ignored
                },
            },
            ForwarderPhase::Dialing { target } => match event {
                ForwarderEvent::InboundClosed => ForwarderAction::Close { failure: None },
                ForwarderEvent::Connected => match self.strategy {
                    Strategy::Tcp => {
                        self.phase = ForwarderPhase::Relaying { target };
                        ForwarderAction::Relay
                    },
                    Strategy::Http => {
                        self.phase = ForwarderPhase::Handshaking { target };
                        ForwarderAction::Handshake
                    },
                },
                ForwarderEvent::DialFailed => self.fail(ForwardError::DialFailed),
                _ => {
                    self.phase = ForwarderPhase::Dialing { target };
                    ForwarderAction::Ignored
                },
            },
            ForwarderPhase::Handshaking { target } => match event {
                ForwarderEvent::InboundClosed => ForwarderAction::Close { failure: None },
                ForwarderEvent::HandshakeDone => {
                    self.phase = ForwarderPhase::Relaying { target };
                    ForwarderAction::Relay
                },
                ForwarderEvent::HandshakeFailed => self.fail(ForwardError::HandshakeFailed),
                _ => {
                    self.phase = ForwarderPhase::Handshaking { target };
                    ForwarderAction::Ignored
                },
            },
            ForwarderPhase::Relaying { target } => match event {
                ForwarderEvent::InboundClosed => ForwarderAction::Close { failure: None },
                ForwarderEvent::RelayEnded => match self.strategy {
                    Strategy::Tcp => ForwarderAction::Close { failure: None },
                    Strategy::Http => {
                        self.phase = ForwarderPhase::Waiting;
                        ForwarderAction::AwaitRequest
                    },
                },
                ForwarderEvent::RelayFailed { inbound_usable } => {
                    if inbound_usable {
                        self.fail(ForwardError::RelayFailed)
                    } else {
                        ForwarderAction::Close { failure: Some(ForwardError::RelayFailed) }
                    }
                },
                _ => {
                    self.phase = ForwarderPhase::Relaying { target };
                    ForwarderAction::Ignored
                },
            },
        }
    }
}

/// Where a connection handler stands after `events` were handled in order,
/// `registered[i]` being what the registry held when `events[i]` was
/// handled. The action is the one that answered the last event.
pub open spec fn forwarder_run(
    forwarder: ForwarderView,
    registered: Seq<Option<TargetView>>,
    events: Seq<ForwarderEvent>,
) -> ForwarderStep
    recommends
        registered.len() == events.len(),
    decreases events.len(),
{
    if events.len() == 0 {
        ForwarderStep { forwarder, action: ForwarderActionView::Ignored }
    } else {
        forwarder_transition(
            forwarder_run(forwarder, registered.drop_last(), events.drop_last()).forwarder,
            registered.last(),
            events.last(),
        )
    }
}

/// The number of outbound connections that the handler asked for while it
/// handled `events`.
pub open spec fn dials(
    forwarder: ForwarderView,
    registered: Seq<Option<TargetView>>,
    events: Seq<ForwarderEvent>,
) -> nat
    recommends
        registered.len() == events.len(),
    decreases events.len(),
{
    if events.len() == 0 {
        0
    } else {
        let earlier = dials(forwarder, registered.drop_last(), events.drop_last());
        if forwarder_run(forwarder, registered, events).action is Dial {
            earlier + 1
        } else {
            earlier
        }
    }
}

/// A unit of work that arrives is forwarded to the target that is
/// registered at that moment.
pub proof fn lemma_work_goes_to_registered_target(strategy: Strategy, target: TargetView)
    ensures
        forwarder_transition(
            ForwarderView { strategy, phase: ForwarderPhaseView::Waiting },
            Some(target),
            ForwarderEvent::WorkArrived,
        ) == (ForwarderStep {
            forwarder: ForwarderView { strategy, phase: ForwarderPhaseView::Dialing { target } },
            action: ForwarderActionView::Dial { target },
        }),
{
}

/// The registry is read when a unit of work arrives at a waiting handler
/// and at no other time: every other transition is the same whatever is
/// registered.
pub proof fn lemma_registry_read_only_on_arrival(
    forwarder: ForwarderView,
    registered: Option<TargetView>,
    other: Option<TargetView>,
    event: ForwarderEvent,
)
    requires
        !(forwarder.phase is Waiting && event is WorkArrived),
    ensures
        forwarder_transition(forwarder, registered, event) == forwarder_transition(
            forwarder,
            other,
            event,
        ),
{
}

/// A unit of work keeps its target: after any event, with anything
/// registered, the handler is at work on the same target or the unit has
/// ended.
pub proof fn lemma_unit_keeps_its_target(
    forwarder: ForwarderView,
    registered: Option<TargetView>,
    event: ForwarderEvent,
)
    requires
        forwarder.phase.target() is Some,
    ensures
        ({
            let after = forwarder_transition(forwarder, registered, event).forwarder.phase;
            after.target() == forwarder.phase.target() || (after.target() is None && (after
                is Waiting || after is Closed))
        }),
        !(forwarder_transition(forwarder, registered, event).action is Dial),
{
}

/// A failure ends the unit of work it happens in and nothing else: the
/// handler is left waiting for the next request or closed, with no target.
pub proof fn lemma_failure_ends_the_unit(
    forwarder: ForwarderView,
    registered: Option<TargetView>,
    event: ForwarderEvent,
)
    requires
        (forwarder.phase is Dialing && event is DialFailed) || (forwarder.phase is Handshaking
            && event is HandshakeFailed) || (forwarder.phase is Relaying && event is RelayFailed),
    ensures
        ({
            let step = forwarder_transition(forwarder, registered, event);
            &&& step.forwarder.phase is Waiting || step.forwarder.phase is Closed
            &&& step.forwarder.phase is Waiting <==> step.action is AnswerError
            &&& step.forwarder.phase is Closed <==> step.action is Close
            &&& forwarder.strategy is Tcp ==> step.forwarder.phase is Closed
            &&& forwarder.strategy is Http && !(event is RelayFailed && !event->inbound_usable)
                ==> step.forwarder.phase is Waiting
        }),
{
}

/// A handler that has ended stays ended and asks for nothing.
pub proof fn lemma_closed_is_final(
    strategy: Strategy,
    registered: Seq<Option<TargetView>>,
    events: Seq<ForwarderEvent>,
)
    requires
        registered.len() == events.len(),
    ensures
        forwarder_run(
            ForwarderView { strategy, phase: ForwarderPhaseView::Closed },
            registered,
            events,
        ) == (ForwarderStep {
            forwarder: ForwarderView { strategy, phase: ForwarderPhaseView::Closed },
            action: ForwarderActionView::Ignored,
        }),
    decreases events.len(),
{
    if events.len() > 0 {
        lemma_closed_is_final(strategy, registered.drop_last(), events.drop_last());
    }
}

/// A handler keeps its strategy, whatever events arrive.
pub proof fn lemma_strategy_is_fixed(
    forwarder: ForwarderView,
    registered: Seq<Option<TargetView>>,
    events: Seq<ForwarderEvent>,
)
    requires
        registered.len() == events.len(),
    ensures
        forwarder_run(forwarder, registered, events).forwarder.strategy == forwarder.strategy,
    decreases events.len(),
{
    if events.len() > 0 {
        lemma_strategy_is_fixed(forwarder, registered.drop_last(), events.drop_last());
    }
}

/// A handler that relays raw bytes serves one unit of work: it dials at
/// most once, and once it has left its first wait it never waits again.
pub proof fn lemma_tcp_dials_at_most_once(
    phase: ForwarderPhaseView,
    registered: Seq<Option<TargetView>>,
    events: Seq<ForwarderEvent>,
)
    requires
        registered.len() == events.len(),
    ensures
        ({
            let start = ForwarderView { strategy: Strategy::Tcp, phase };
            let end = forwarder_run(start, registered, events).forwarder.phase;
            &&& dials(start, registered, events) <= 1
            &&& !(phase is Waiting) ==> dials(start, registered, events) == 0 && !(end is Waiting)
            &&& dials(start, registered, events) == 1 ==> !(end is Waiting)
        }),
    decreases events.len(),
{
    if events.len() > 0 {
        let start = ForwarderView { strategy: Strategy::Tcp, phase };
        lemma_tcp_dials_at_most_once(phase, registered.drop_last(), events.drop_last());
        lemma_strategy_is_fixed(start, registered.drop_last(), events.drop_last());
    }
}

/// A handler that relays HTTP dials anew for every exchange. An exchange
/// that runs to its end closes its outbound connection and leaves the
/// handler waiting; the next request is dialled to what is registered then.
pub proof fn lemma_http_dials_for_every_exchange(
    target: TargetView,
    later: Option<TargetView>,
    next_target: TargetView,
)
    ensures
        ({
            let start = ForwarderView { strategy: Strategy::Http, phase: ForwarderPhaseView::Waiting };
            let events = seq![
                ForwarderEvent::WorkArrived,
                ForwarderEvent::Connected,
                ForwarderEvent::HandshakeDone,
                ForwarderEvent::RelayEnded,
                ForwarderEvent::WorkArrived,
            ];
            let registered = seq![Some(target), later, later, later, Some(next_target)];
            &&& forwarder_run(start, registered.take(1), events.take(1)).action
                == ForwarderActionView::Dial { target }
            &&& forwarder_run(start, registered.take(2), events.take(2)).action
                == ForwarderActionView::Handshake
            &&& forwarder_run(start, registered.take(3), events.take(3)) == (ForwarderStep {
                forwarder: ForwarderView {
                    strategy: Strategy::Http,
                    phase: ForwarderPhaseView::Relaying { target },
                },
                action: ForwarderActionView::Relay,
            })
            &&& forwarder_run(start, registered.take(4), events.take(4)) == (ForwarderStep {
                forwarder: start,
                action: ForwarderActionView::AwaitRequest,
            })
            &&& forwarder_run(start, registered, events).action == ForwarderActionView::Dial {
                target: next_target,
            }
            &&& dials(start, registered, events) == 2
        }),
{
    let start = ForwarderView { strategy: Strategy::Http, phase: ForwarderPhaseView::Waiting };
    let events = seq![
        ForwarderEvent::WorkArrived,
        ForwarderEvent::Connected,
        ForwarderEvent::HandshakeDone,
        ForwarderEvent::RelayEnded,
        ForwarderEvent::WorkArrived,
    ];
    let registered = seq![Some(target), later, later, later, Some(next_target)];
    assert(events.take(1).drop_last() =~= events.take(0));
    assert(events.take(2).drop_last() =~= events.take(1));
    assert(events.take(3).drop_last() =~= events.take(2));
    assert(events.take(4).drop_last() =~= events.take(3));
    assert(events.drop_last() =~= events.take(4));
    assert(registered.take(1).drop_last() =~= registered.take(0));
    assert(registered.take(2).drop_last() =~= registered.take(1));
    assert(registered.take(3).drop_last() =~= registered.take(2));
    assert(registered.take(4).drop_last() =~= registered.take(3));
    assert(registered.drop_last() =~= registered.take(4));
    reveal_with_fuel(forwarder_run, 6);
    reveal_with_fuel(dials, 6);
}

} // verus!
