use port_switch::{ForwardTarget, TargetRegistry};

fn target(domain: &str, port: u16) -> ForwardTarget {
    ForwardTarget { domain: domain.to_owned(), port }
}

#[test]
fn new_registry_is_undefined() {
    let registry = TargetRegistry::new();
    assert!(!registry.is_defined());
    assert_eq!(registry.current(), None);
}

#[test]
fn registry_hands_out_what_was_written() {
    let mut registry = TargetRegistry::new();
    registry.set_target(target("localhost", 9100));
    assert!(registry.is_defined());
    assert_eq!(registry.get_target(), target("localhost", 9100));
    assert_eq!(registry.current(), Some(target("localhost", 9100)));
}

#[test]
fn registry_write_replaces_the_whole_target() {
    let mut registry = TargetRegistry::new();
    registry.set_target(target("localhost", 9100));
    registry.set_target(target("example.com", 443));
    assert_eq!(registry.get_target(), target("example.com", 443));
    assert_eq!(registry.get_target(), target("example.com", 443));
}
