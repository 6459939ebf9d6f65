use lau_shell_spawn::{PortConfig, ShellKind, ShellStatus};

#[test]
fn shellkind_is_sandboxed() {
    assert!(ShellKind::ZeroClaw.is_sandboxed());
    assert!(ShellKind::CUDAClaw.is_sandboxed());
    assert!(!ShellKind::Hermes.is_sandboxed());
    assert!(!ShellKind::Ensign.is_sandboxed());
    assert!(!ShellKind::Custom("X".into()).is_sandboxed());
}

#[test]
fn shellkind_label() {
    assert_eq!(ShellKind::Hermes.label(), "Hermes");
    assert_eq!(ShellKind::ZeroClaw.label(), "ZeroClaw");
    assert_eq!(ShellKind::CUDAClaw.label(), "CUDAClaw");
    assert_eq!(ShellKind::Ensign.label(), "Ensign");
    assert_eq!(ShellKind::Custom("Foo".into()).label(), "Custom(Foo)");
}

#[test]
fn shellkind_default_apis() {
    assert_eq!(ShellKind::Hermes.default_apis(), vec!["read", "write", "network"]);
    assert_eq!(ShellKind::ZeroClaw.default_apis(), vec!["read"]);
    assert!(ShellKind::CUDAClaw.default_apis().contains(&"cuda".into()));
}

#[test]
fn shellkind_display() {
    assert_eq!(ShellKind::Hermes.to_string(), "Hermes");
}

#[test]
fn shell_status_display() {
    assert_eq!(ShellStatus::Running.to_string(), "Running");
    assert_eq!(ShellStatus::Error("oops".into()).to_string(), "Error(oops)");
}

#[test]
fn shell_status_equality() {
    assert_eq!(ShellStatus::Idle, ShellStatus::Idle);
    assert_ne!(ShellStatus::Initializing, ShellStatus::Running);
}

#[test]
fn port_config_new() {
    let p = PortConfig::new("http", "in", "0.0.0.0:8080");
    assert_eq!(p.protocol, "http");
    assert_eq!(p.direction, "in");
    assert_eq!(p.target, "0.0.0.0:8080");
    assert!(p.enabled);
    assert_eq!(p.permissions, vec!["read"]);
}

#[test]
fn port_config_equality() {
    let a = PortConfig::new("tcp", "in", "x");
    let b = PortConfig::new("tcp", "in", "x");
    assert_eq!(a, b);
}

#[test]
fn kind_labels_of_other_states_and_kinds() {
    assert_eq!(ShellStatus::Initializing.to_string(), "Initializing");
    assert_eq!(ShellStatus::Idle.to_string(), "Idle");
    assert_eq!(ShellStatus::Destroyed.to_string(), "Destroyed");
    assert_eq!(ShellKind::Custom(String::new()).label(), "Custom()");
    assert_eq!(ShellKind::Ensign.default_apis(), vec!["read", "write"]);
    assert_eq!(ShellKind::CUDAClaw.default_apis(), vec!["read", "compute", "cuda"]);
    assert_eq!(ShellKind::Custom("Z".into()).default_apis(), vec!["read"]);
}

#[test]
fn clones_are_equal() {
    let k = ShellKind::Custom("Bar".into());
    assert_eq!(k.clone(), k);
    let s = ShellStatus::Error("e".into());
    assert_eq!(s.clone(), s);
    let p = PortConfig::new("a", "b", "c");
    assert_eq!(p.clone(), p);
}
