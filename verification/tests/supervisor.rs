use port_switch::{
    Action, ConnectionForwarder, Event, ForwardTarget, ForwarderAction, ForwarderEvent,
    ListenerAction, ListenerEvent, ListenerTask, Phase, ProxyConfig, RunningProxy, Strategy,
    Supervisor, TargetRegistry, TransitionError,
};

type Sup = Supervisor<u32, u32>;

fn target(domain: &str, port: u16) -> ForwardTarget {
    ForwardTarget { domain: domain.to_owned(), port }
}

fn enable(listen_port: u16, domain: &str, port: u16) -> Event<u32, u32> {
    Event::Update(ProxyConfig(Some((listen_port, target(domain, port)))))
}

fn disable() -> Event<u32, u32> {
    Event::Update(ProxyConfig(None))
}

fn record(id: u32) -> RunningProxy<u32, u32> {
    RunningProxy { shutdown_handle: id, task_handle: id + 1000 }
}

fn running(listen_port: u16, domain: &str, port: u16, id: u32) -> (Sup, TargetRegistry) {
    let mut sup = Sup::new();
    let mut reg = TargetRegistry::new();
    assert_eq!(
        sup.step(&mut reg, enable(listen_port, domain, port)),
        Action::Bind { listen_port }
    );
    assert_eq!(sup.step(&mut reg, Event::Bound(record(id))), Action::Done);
    (sup, reg)
}

#[test]
fn new_supervisor_is_idle() {
    let sup = Sup::new();
    assert!(!sup.is_running());
    assert!(sup.is_settled());
    assert!(!sup.is_halted());
    assert_eq!(sup.bound_port(), None);
}

#[test]
fn idle_disabled_is_a_no_op() {
    let mut sup = Sup::new();
    let mut reg = TargetRegistry::new();
    assert_eq!(sup.step(&mut reg, disable()), Action::Done);
    assert!(!sup.is_running());
    assert!(sup.is_settled());
    assert!(!reg.is_defined());
}

#[test]
fn idle_enabled_writes_target_and_asks_for_listener() {
    let mut sup = Sup::new();
    let mut reg = TargetRegistry::new();
    assert_eq!(
        sup.step(&mut reg, enable(9000, "localhost", 9100)),
        Action::Bind { listen_port: 9000 }
    );
    assert_eq!(reg.current(), Some(target("localhost", 9100)));
    assert!(!sup.is_running());
    assert!(!sup.is_settled());
    assert_eq!(sup.bound_port(), Some(9000));
    assert_eq!(sup.step(&mut reg, Event::Bound(record(1))), Action::Done);
    assert!(sup.is_running());
    assert!(sup.is_settled());
    assert_eq!(sup.bound_port(), Some(9000));
}

#[test]
fn bind_failure_is_reported_and_leaves_supervisor_idle() {
    let mut sup = Sup::new();
    let mut reg = TargetRegistry::new();
    assert_eq!(
        sup.step(&mut reg, enable(9000, "localhost", 9100)),
        Action::Bind { listen_port: 9000 }
    );
    assert_eq!(
        sup.step(&mut reg, Event::BindFailed),
        Action::Rejected { error: TransitionError::BindFailed { listen_port: 9000 } }
    );
    assert!(!sup.is_running());
    assert!(sup.is_settled());
    assert_eq!(sup.bound_port(), None);
    assert_eq!(
        sup.step(&mut reg, enable(9001, "localhost", 9100)),
        Action::Bind { listen_port: 9001 }
    );
}

#[test]
fn running_disabled_hands_out_the_record_and_waits_for_drain() {
    let (mut sup, mut reg) = running(9000, "localhost", 9100, 7);
    assert_eq!(sup.step(&mut reg, disable()), Action::Shutdown { proxy: record(7) });
    assert!(!sup.is_running());
    assert!(!sup.is_settled());
    assert_eq!(sup.bound_port(), Some(9000));
    assert_eq!(sup.step(&mut reg, Event::Drained), Action::Done);
    assert!(sup.is_settled());
    assert!(!sup.is_running());
    assert_eq!(sup.bound_port(), None);
    assert_eq!(reg.current(), Some(target("localhost", 9100)));
}

#[test]
fn running_enabled_changes_target_only() {
    let (mut sup, mut reg) = running(9000, "localhost", 9100, 7);
    assert_eq!(sup.step(&mut reg, enable(9000, "example.com", 443)), Action::Done);
    assert_eq!(reg.current(), Some(target("example.com", 443)));
    assert!(sup.is_running());
    assert_eq!(sup.bound_port(), Some(9000));
}

#[test]
fn listen_port_change_while_running_has_no_effect() {
    let (mut sup, mut reg) = running(9000, "localhost", 9100, 7);
    assert_eq!(sup.step(&mut reg, enable(9555, "localhost", 9200)), Action::Done);
    assert_eq!(sup.bound_port(), Some(9000));
    assert_eq!(reg.current(), Some(target("localhost", 9200)));
    assert_eq!(sup.step(&mut reg, disable()), Action::Shutdown { proxy: record(7) });
    assert_eq!(sup.step(&mut reg, Event::Drained), Action::Done);
    assert_eq!(
        sup.step(&mut reg, enable(9555, "localhost", 9200)),
        Action::Bind { listen_port: 9555 }
    );
    assert_eq!(sup.step(&mut reg, Event::Bound(record(8))), Action::Done);
    assert_eq!(sup.bound_port(), Some(9555));
}

#[test]
fn reenabling_after_disable_registers_the_new_target() {
    let (mut sup, mut reg) = running(9000, "localhost", 9100, 1);
    assert_eq!(sup.step(&mut reg, disable()), Action::Shutdown { proxy: record(1) });
    assert_eq!(sup.step(&mut reg, Event::Drained), Action::Done);
    assert_eq!(
        sup.step(&mut reg, enable(9000, "localhost", 9300)),
        Action::Bind { listen_port: 9000 }
    );
    assert_eq!(sup.step(&mut reg, Event::Bound(record(2))), Action::Done);
    assert_eq!(reg.get_target(), target("localhost", 9300));
    assert_eq!(sup.step(&mut reg, disable()), Action::Shutdown { proxy: record(2) });
}

#[test]
fn self_forwarding_update_is_rejected_and_proxy_unaffected() {
    let (mut sup, mut reg) = running(9000, "localhost", 9100, 3);
    assert_eq!(
        sup.step(&mut reg, enable(9000, "localhost", 9000)),
        Action::Rejected { error: TransitionError::InvalidConfiguration }
    );
    assert_eq!(
        TransitionError::InvalidConfiguration.message(),
        "Cannot forward to listening port"
    );
    assert!(sup.is_running());
    assert_eq!(sup.bound_port(), Some(9000));
    assert_eq!(reg.get_target(), target("localhost", 9100));
    assert_eq!(sup.step(&mut reg, disable()), Action::Shutdown { proxy: record(3) });
}

#[test]
fn self_forwarding_update_is_rejected_when_idle() {
    let mut sup = Sup::new();
    let mut reg = TargetRegistry::new();
    assert_eq!(
        sup.step(&mut reg, enable(9000, "localhost", 9000)),
        Action::Rejected { error: TransitionError::InvalidConfiguration }
    );
    assert!(sup.is_settled());
    assert!(!sup.is_running());
    assert!(!reg.is_defined());
}

#[test]
fn equal_ports_on_another_host_are_accepted() {
    let mut sup = Sup::new();
    let mut reg = TargetRegistry::new();
    assert_eq!(
        sup.step(&mut reg, enable(9000, "example.com", 9000)),
        Action::Bind { listen_port: 9000 }
    );
}

#[test]
fn undeliverable_shutdown_signal_halts_the_supervisor() {
    let (mut sup, mut reg) = running(9000, "localhost", 9100, 3);
    assert_eq!(sup.step(&mut reg, disable()), Action::Shutdown { proxy: record(3) });
    assert_eq!(sup.step(&mut reg, Event::SignalLost), Action::Fatal);
    assert!(sup.is_halted());
    assert!(!sup.is_settled());
    assert_eq!(sup.step(&mut reg, disable()), Action::Unexpected { surplus: None });
    assert_eq!(
        sup.step(&mut reg, enable(9000, "localhost", 9100)),
        Action::Unexpected { surplus: None }
    );
    assert_eq!(
        sup.step(&mut reg, Event::Bound(record(4))),
        Action::Unexpected { surplus: Some(record(4)) }
    );
    assert!(sup.is_halted());
}

#[test]
fn events_out_of_turn_change_nothing() {
    let mut sup = Sup::new();
    let mut reg = TargetRegistry::new();
    assert_eq!(sup.step(&mut reg, Event::Drained), Action::Unexpected { surplus: None });
    assert_eq!(sup.step(&mut reg, Event::BindFailed), Action::Unexpected { surplus: None });
    assert_eq!(sup.step(&mut reg, Event::SignalLost), Action::Unexpected { surplus: None });
    assert_eq!(
        sup.step(&mut reg, Event::Bound(record(9))),
        Action::Unexpected { surplus: Some(record(9)) }
    );
    assert!(sup.is_settled());
    assert!(!sup.is_running());

    let (mut sup, mut reg) = running(9000, "localhost", 9100, 1);
    assert_eq!(
        sup.step(&mut reg, Event::Bound(record(2))),
        Action::Unexpected { surplus: Some(record(2)) }
    );
    assert_eq!(sup.step(&mut reg, Event::Drained), Action::Unexpected { surplus: None });
    assert_eq!(sup.step(&mut reg, Event::BindFailed), Action::Unexpected { surplus: None });
    assert!(sup.is_running());
    assert_eq!(sup.step(&mut reg, disable()), Action::Shutdown { proxy: record(1) });
}

#[test]
fn updates_are_not_taken_while_one_is_being_handled() {
    let mut sup = Sup::new();
    let mut reg = TargetRegistry::new();
    assert_eq!(
        sup.step(&mut reg, enable(9000, "localhost", 9100)),
        Action::Bind { listen_port: 9000 }
    );
    assert_eq!(
        sup.step(&mut reg, enable(9001, "localhost", 9200)),
        Action::Unexpected { surplus: None }
    );
    assert_eq!(sup.step(&mut reg, disable()), Action::Unexpected { surplus: None });
    assert_eq!(reg.get_target(), target("localhost", 9100));
    assert_eq!(sup.bound_port(), Some(9000));
    assert_eq!(sup.step(&mut reg, Event::Bound(record(1))), Action::Done);
    assert_eq!(sup.step(&mut reg, disable()), Action::Shutdown { proxy: record(1) });
    assert_eq!(sup.step(&mut reg, disable()), Action::Unexpected { surplus: None });
    assert_eq!(
        sup.step(&mut reg, Event::Bound(record(2))),
        Action::Unexpected { surplus: Some(record(2)) }
    );
    assert_eq!(sup.step(&mut reg, Event::Drained), Action::Done);
}

#[test]
fn at_most_one_listener_over_a_long_run() {
    let mut sup = Sup::new();
    let mut reg = TargetRegistry::new();
    let mut live: i32 = 0;
    let mut next_id: u32 = 0;
    let updates = [true, true, false, false, true, false, true, true, true, false, false, true];
    for (i, on) in updates.iter().enumerate() {
        let event = if *on { enable(9000 + i as u16, "localhost", 100) } else { disable() };
        match sup.step(&mut reg, event) {
            Action::Done => {}
            Action::Bind { .. } => {
                assert_eq!(live, 0);
                live += 1;
                next_id += 1;
                assert_eq!(sup.step(&mut reg, Event::Bound(record(next_id))), Action::Done);
            }
            Action::Shutdown { proxy } => {
                assert_eq!(proxy, record(next_id));
                assert_eq!(live, 1);
                live -= 1;
                assert_eq!(sup.step(&mut reg, Event::Drained), Action::Done);
            }
            other => panic!("unexpected action {:?}", other),
        }
        assert!(live == 0 || live == 1);
        assert_eq!(sup.is_running(), live == 1);
    }
}

#[test]
fn bind_failure_message_names_the_port() {
    assert_eq!(
        TransitionError::BindFailed { listen_port: 9000 }.message(),
        "Cannot listen on port 9000"
    );
    assert_eq!(
        TransitionError::BindFailed { listen_port: 0 }.message(),
        "Cannot listen on port 0"
    );
}

#[test]
fn phase_values_compare() {
    let a: Phase<u32, u32> = Phase::Running { listen_port: 1, proxy: record(1) };
    let b: Phase<u32, u32> = Phase::Running { listen_port: 1, proxy: record(1) };
    assert_eq!(a, b);
    assert_ne!(a, Phase::Idle);
}

#[test]
fn proxy_to_9100_survives_a_rejected_update_to_its_own_port() {
    let mut sup = Sup::new();
    let mut reg = TargetRegistry::new();
    assert_eq!(
        sup.step(&mut reg, enable(9000, "localhost", 9100)),
        Action::Bind { listen_port: 9000 }
    );
    let mut listener = ListenerTask::new(9000, Strategy::Tcp);
    assert_eq!(sup.step(&mut reg, Event::Bound(record(1))), Action::Done);

    assert_eq!(
        listener.step(ListenerEvent::Incoming),
        ListenerAction::Forward { strategy: Strategy::Tcp }
    );
    let mut first = ConnectionForwarder::new(Strategy::Tcp);
    let dial = first.step(&reg, ForwarderEvent::WorkArrived);
    assert_eq!(dial, ForwarderAction::Dial { target: target("localhost", 9100) });
    assert_eq!(target("localhost", 9100).address(), "localhost:9100");
    assert_eq!(first.step(&reg, ForwarderEvent::Connected), ForwarderAction::Relay);

    let rejected = sup.step(&mut reg, enable(9000, "localhost", 9000));
    assert_eq!(rejected, Action::Rejected { error: TransitionError::InvalidConfiguration });
    assert_eq!(
        ProxyConfig(Some((9000, target("localhost", 9000)))).validate(),
        Err("Cannot forward to listening port".to_owned())
    );
    assert!(sup.is_running());
    assert_eq!(sup.bound_port(), Some(9000));
    assert_eq!(reg.get_target(), target("localhost", 9100));
    assert_eq!(listener.in_flight(), 1);

    assert_eq!(first.target(), Some(target("localhost", 9100)));
    assert_eq!(
        first.step(&reg, ForwarderEvent::RelayEnded),
        ForwarderAction::Close { failure: None }
    );
    assert_eq!(listener.step(ListenerEvent::HandlerEnded), ListenerAction::Continue);

    assert_eq!(
        listener.step(ListenerEvent::Incoming),
        ListenerAction::Forward { strategy: Strategy::Tcp }
    );
    let mut second = ConnectionForwarder::new(Strategy::Tcp);
    assert_eq!(
        second.step(&reg, ForwarderEvent::WorkArrived),
        ForwarderAction::Dial { target: target("localhost", 9100) }
    );
}

#[test]
fn disable_waits_for_connections_in_flight() {
    let (mut sup, mut reg) = running(9000, "localhost", 9100, 1);
    let mut listener = ListenerTask::new(9000, Strategy::Tcp);
    listener.step(ListenerEvent::Incoming);
    listener.step(ListenerEvent::Incoming);

    assert_eq!(sup.step(&mut reg, disable()), Action::Shutdown { proxy: record(1) });
    assert_eq!(listener.step(ListenerEvent::Shutdown), ListenerAction::Drain);
    assert_eq!(listener.step(ListenerEvent::Incoming), ListenerAction::Refuse);
    assert!(!sup.is_settled());
    assert_eq!(listener.step(ListenerEvent::HandlerEnded), ListenerAction::Continue);
    assert!(!sup.is_settled());
    assert_eq!(listener.step(ListenerEvent::HandlerEnded), ListenerAction::Complete);
    assert_eq!(sup.step(&mut reg, Event::Drained), Action::Done);
    assert!(sup.is_settled());
    assert!(!sup.is_running());
}

#[test]
fn new_connections_follow_the_target_of_the_last_update() {
    let (mut sup, mut reg) = running(9000, "localhost", 9100, 1);
    assert_eq!(sup.step(&mut reg, disable()), Action::Shutdown { proxy: record(1) });
    assert_eq!(sup.step(&mut reg, Event::Drained), Action::Done);
    assert_eq!(
        sup.step(&mut reg, enable(9000, "example.com", 80)),
        Action::Bind { listen_port: 9000 }
    );
    assert_eq!(sup.step(&mut reg, Event::Bound(record(2))), Action::Done);
    for strategy in [Strategy::Tcp, Strategy::Http] {
        for _ in 0..3 {
            let mut handler = ConnectionForwarder::new(strategy);
            assert_eq!(
                handler.step(&reg, ForwarderEvent::WorkArrived),
                ForwarderAction::Dial { target: target("example.com", 80) }
            );
        }
    }
}
