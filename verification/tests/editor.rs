use port_switch::editor::{position, App, ForwardPort, Pages};
use port_switch::{DynamicProxy, ForwardTarget, ProxyConfig};
use std::sync::mpsc::{channel, Receiver};

fn entry(name: &str, domain: &str, port: u16) -> ForwardPort {
    ForwardPort {
        target: ForwardTarget { domain: domain.to_owned(), port },
        name: name.to_owned(),
        error: None,
    }
}

fn enabled(listen_port: u16, domain: &str, port: u16) -> ProxyConfig {
    ProxyConfig(Some((listen_port, ForwardTarget { domain: domain.to_owned(), port })))
}

fn app_with_handle() -> (App, Receiver<ProxyConfig>) {
    let (tx, rx) = channel();
    let mut app = App::init_state();
    app.proxy_handle = Some(DynamicProxy(tx));
    (app, rx)
}

fn names(app: &App) -> Vec<String> {
    app.forward_ports.iter().map(|p| p.name.clone()).collect()
}

fn ports(app: &App) -> Vec<u16> {
    app.forward_ports.iter().map(|p| p.target.port).collect()
}

#[test]
fn default_entry_is_port_8080_named_new_port() {
    let e = ForwardPort::default();
    assert_eq!(e.target, ForwardTarget { domain: "localhost".to_owned(), port: 8080 });
    assert_eq!(e.name, "New Port");
    assert_eq!(e.error, None);
}

#[test]
fn entries_are_the_same_by_target_not_by_name() {
    assert!(entry("a", "localhost", 80).same_target(&entry("b", "localhost", 80)));
    assert!(!entry("a", "localhost", 80).same_target(&entry("a", "localhost", 81)));
    assert!(!entry("a", "localhost", 80).same_target(&entry("a", "example.com", 80)));
    let mut with_error = entry("a", "localhost", 80);
    with_error.error = Some("x".to_owned());
    assert!(with_error.same_target(&entry("a", "localhost", 80)));
}

#[test]
fn entry_clone_copies_every_field() {
    let mut e = entry("a", "example.com", 80);
    e.error = Some("oops".to_owned());
    let c = e.clone();
    assert_eq!(c.target, e.target);
    assert_eq!(c.name, e.name);
    assert_eq!(c.error, e.error);
}

#[test]
fn position_finds_the_first_entry_with_the_target() {
    let list = vec![
        entry("a", "localhost", 1),
        entry("b", "localhost", 2),
        entry("c", "localhost", 2),
        entry("d", "example.com", 2),
    ];
    assert_eq!(position(&list, &entry("x", "localhost", 1)), Some(0));
    assert_eq!(position(&list, &entry("x", "localhost", 2)), Some(1));
    assert_eq!(position(&list, &entry("x", "example.com", 2)), Some(3));
    assert_eq!(position(&list, &entry("x", "localhost", 3)), None);
    assert_eq!(position(&Vec::new(), &entry("x", "localhost", 3)), None);
}

#[test]
fn default_state_is_empty() {
    let app = App::default();
    assert_eq!(app.listen_port, 0);
    assert!(!app.is_enabled);
    assert!(app.forward_ports.is_empty());
    assert!(app.active_forward_port.is_none());
    assert!(matches!(app.active_page, Pages::List));
    assert!(app.proxy_handle.is_none());
    assert_eq!(app.error, None);
}

#[test]
fn initial_state_listens_on_8080() {
    let app = App::init_state();
    assert_eq!(app.listen_port, 8080);
    assert!(!app.is_enabled);
    assert!(app.forward_ports.is_empty());
    assert!(app.active_forward_port.is_none());
    assert!(matches!(app.active_page, Pages::List));
    assert!(app.proxy_handle.is_none());
    assert_eq!(app.error, None);
}

#[test]
fn next_update_is_off_unless_enabled_with_an_active_entry() {
    let mut app = App::init_state();
    assert_eq!(app.next_update(), ProxyConfig(None));
    app.is_enabled = true;
    assert_eq!(app.next_update(), ProxyConfig(None));
    app.is_enabled = false;
    app.active_forward_port = Some(entry("a", "localhost", 9100));
    assert_eq!(app.next_update(), ProxyConfig(None));
    app.is_enabled = true;
    assert_eq!(app.next_update(), enabled(8080, "localhost", 9100));
    app.listen_port = 9000;
    assert_eq!(app.next_update(), enabled(9000, "localhost", 9100));
}

#[test]
fn update_backend_queues_a_valid_update_and_clears_the_error() {
    let (mut app, rx) = app_with_handle();
    app.error = Some("old".to_owned());
    app.is_enabled = true;
    app.active_forward_port = Some(entry("a", "localhost", 9100));
    app.update_backend();
    assert_eq!(app.error, None);
    assert!(app.is_enabled);
    assert_eq!(rx.try_recv().ok(), Some(enabled(8080, "localhost", 9100)));
    assert!(rx.try_recv().is_err());
}

#[test]
fn update_backend_queues_off_when_disabled() {
    let (mut app, rx) = app_with_handle();
    app.active_forward_port = Some(entry("a", "localhost", 9100));
    app.update_backend();
    assert_eq!(app.error, None);
    assert!(!app.is_enabled);
    assert_eq!(rx.try_recv().ok(), Some(ProxyConfig(None)));
}

#[test]
fn update_backend_keeps_a_rejection_and_switches_off() {
    let (mut app, rx) = app_with_handle();
    app.is_enabled = true;
    app.active_forward_port = Some(entry("a", "localhost", 8080));
    app.update_backend();
    assert_eq!(app.error, Some("Cannot forward to listening port".to_owned()));
    assert!(!app.is_enabled);
    assert!(rx.try_recv().is_err());
    assert_eq!(app.listen_port, 8080);
    assert!(app.active_forward_port.is_some());
}

#[test]
fn update_backend_rejects_without_a_handle() {
    let mut app = App::init_state();
    app.is_enabled = true;
    app.active_forward_port = Some(entry("a", "localhost", 8080));
    app.update_backend();
    assert_eq!(app.error, Some("Cannot forward to listening port".to_owned()));
    assert!(!app.is_enabled);
}

#[test]
fn update_backend_accepts_equal_ports_on_another_host() {
    let (mut app, rx) = app_with_handle();
    app.is_enabled = true;
    app.active_forward_port = Some(entry("a", "example.com", 8080));
    app.update_backend();
    assert_eq!(app.error, None);
    assert_eq!(rx.try_recv().ok(), Some(enabled(8080, "example.com", 8080)));
}

#[test]
fn save_on_the_list_page_does_nothing() {
    let mut app = App::init_state();
    app.forward_ports.push(entry("a", "localhost", 1));
    app.save();
    assert!(matches!(app.active_page, Pages::List));
    assert_eq!(names(&app), vec!["a"]);
}

#[test]
fn save_appends_a_new_entry_and_returns_to_the_list() {
    let mut app = App::init_state();
    app.forward_ports.push(entry("a", "localhost", 1));
    let mut form = entry("b", "localhost", 2);
    form.error = Some("stale".to_owned());
    app.active_page = Pages::Creation(form);
    app.save();
    assert!(matches!(app.active_page, Pages::List));
    assert_eq!(names(&app), vec!["a", "b"]);
    assert_eq!(ports(&app), vec![1, 2]);
    assert_eq!(app.forward_ports[1].error, None);
}

#[test]
fn save_refuses_a_new_entry_with_a_target_of_the_list() {
    let mut app = App::init_state();
    app.forward_ports.push(entry("a", "localhost", 1));
    app.active_page = Pages::Creation(entry("b", "localhost", 1));
    app.save();
    assert_eq!(names(&app), vec!["a"]);
    match &app.active_page {
        Pages::Creation(form) => {
            assert_eq!(form.name, "b");
            assert_eq!(form.target.port, 1);
            assert_eq!(form.error, Some("Port Already exist".to_owned()));
        }
        other => panic!("unexpected page {:?}", other),
    }
}

#[test]
fn save_replaces_an_edited_entry_in_place() {
    let mut app = App::init_state();
    app.forward_ports.push(entry("a", "localhost", 1));
    app.forward_ports.push(entry("b", "localhost", 2));
    app.forward_ports.push(entry("c", "localhost", 3));
    app.active_page = Pages::Edit(1, entry("renamed", "example.com", 20));
    app.save();
    assert!(matches!(app.active_page, Pages::List));
    assert_eq!(names(&app), vec!["a", "renamed", "c"]);
    assert_eq!(ports(&app), vec![1, 20, 3]);
    assert_eq!(app.forward_ports[1].target.domain, "example.com");
}

#[test]
fn save_lets_an_edited_entry_keep_its_own_target() {
    let mut app = App::init_state();
    app.forward_ports.push(entry("a", "localhost", 1));
    app.forward_ports.push(entry("b", "localhost", 2));
    app.active_page = Pages::Edit(1, entry("renamed", "localhost", 2));
    app.save();
    assert!(matches!(app.active_page, Pages::List));
    assert_eq!(names(&app), vec!["a", "renamed"]);
    assert_eq!(ports(&app), vec![1, 2]);
}

#[test]
fn save_refuses_an_edit_that_takes_the_target_of_another_entry() {
    let mut app = App::init_state();
    app.forward_ports.push(entry("a", "localhost", 1));
    app.forward_ports.push(entry("b", "localhost", 2));
    app.active_page = Pages::Edit(1, entry("b2", "localhost", 1));
    app.save();
    assert_eq!(names(&app), vec!["a", "b"]);
    assert_eq!(ports(&app), vec![1, 2]);
    match &app.active_page {
        Pages::Edit(index, form) => {
            assert_eq!(*index, 1);
            assert_eq!(form.name, "b2");
            assert_eq!(form.error, Some("Port Already exist".to_owned()));
        }
        other => panic!("unexpected page {:?}", other),
    }
}

#[test]
fn remove_takes_out_every_entry_with_the_target() {
    let mut app = App::init_state();
    app.forward_ports.push(entry("a", "localhost", 1));
    app.forward_ports.push(entry("b", "localhost", 2));
    app.forward_ports.push(entry("c", "localhost", 1));
    app.forward_ports.push(entry("d", "example.com", 1));
    app.remove(&entry("whatever", "localhost", 1));
    assert_eq!(names(&app), vec!["b", "d"]);
    app.remove(&entry("whatever", "localhost", 7));
    assert_eq!(names(&app), vec!["b", "d"]);
    app.remove(&entry("whatever", "example.com", 1));
    app.remove(&entry("whatever", "localhost", 2));
    assert!(app.forward_ports.is_empty());
    app.remove(&entry("whatever", "localhost", 2));
    assert!(app.forward_ports.is_empty());
}

#[test]
fn toggle_port_activates_and_deactivates() {
    let (mut app, rx) = app_with_handle();
    app.is_enabled = true;
    let a = entry("a", "localhost", 9100);
    let b = entry("b", "localhost", 9200);
    app.forward_ports.push(a.clone());
    app.forward_ports.push(b.clone());
    assert!(!app.is_active(&a));
    app.toggle_port(&a);
    assert!(app.is_active(&a));
    assert!(!app.is_active(&b));
    assert_eq!(rx.try_recv().ok(), Some(enabled(8080, "localhost", 9100)));
    app.toggle_port(&b);
    assert!(app.is_active(&b));
    assert!(!app.is_active(&a));
    assert_eq!(rx.try_recv().ok(), Some(enabled(8080, "localhost", 9200)));
    app.toggle_port(&b);
    assert!(!app.is_active(&b));
    assert!(app.active_forward_port.is_none());
    assert_eq!(rx.try_recv().ok(), Some(ProxyConfig(None)));
    assert!(app.is_enabled);
    assert_eq!(names(&app), vec!["a", "b"]);
}

#[test]
fn toggle_port_onto_the_listening_port_is_rejected() {
    let (mut app, rx) = app_with_handle();
    app.is_enabled = true;
    let own = entry("self", "localhost", 8080);
    app.forward_ports.push(own.clone());
    app.toggle_port(&own);
    assert_eq!(app.error, Some("Cannot forward to listening port".to_owned()));
    assert!(!app.is_enabled);
    assert!(app.is_active(&own));
    assert!(rx.try_recv().is_err());
}

#[test]
fn toggle_enabled_switches_on_and_off() {
    let (mut app, rx) = app_with_handle();
    app.active_forward_port = Some(entry("a", "localhost", 9100));
    app.toggle_enabled();
    assert!(app.is_enabled);
    assert_eq!(rx.try_recv().ok(), Some(enabled(8080, "localhost", 9100)));
    app.toggle_enabled();
    assert!(!app.is_enabled);
    assert_eq!(rx.try_recv().ok(), Some(ProxyConfig(None)));
}

#[test]
fn toggle_enabled_onto_the_listening_port_is_rejected() {
    let (mut app, rx) = app_with_handle();
    app.active_forward_port = Some(entry("a", "localhost", 8080));
    app.toggle_enabled();
    assert!(!app.is_enabled);
    assert_eq!(app.error, Some("Cannot forward to listening port".to_owned()));
    assert!(rx.try_recv().is_err());
}
