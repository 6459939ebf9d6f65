use lau_shell_spawn::{PortConfig, ShellKind, ShellTemplate};

#[test]
fn template_zeroclaw() {
    let t = ShellTemplate::zeroclaw();
    assert_eq!(t.name, "zeroclaw");
    assert_eq!(t.kind, ShellKind::ZeroClaw);
    assert_eq!(t.default_rooms, vec!["main"]);
    assert_eq!(t.max_children, 0);
}

#[test]
fn template_cudaclaw() {
    let t = ShellTemplate::cudaclaw();
    assert_eq!(t.kind, ShellKind::CUDAClaw);
    assert!(t.default_apis.contains(&"cuda".into()));
    assert_eq!(f64::from_bits(t.default_budget), 500.0);
}

#[test]
fn template_telegram_bot() {
    let t = ShellTemplate::telegram_bot();
    assert!(t.default_ports[0].protocol == "telegram");
}

#[test]
fn template_underwater_vehicle() {
    let t = ShellTemplate::underwater_vehicle();
    assert_eq!(t.default_ports.len(), 2);
    assert_eq!(t.max_children, 2);
}

#[test]
fn template_media_center() {
    let t = ShellTemplate::media_center();
    assert_eq!(f64::from_bits(t.default_budget), 300.0);
}

#[test]
fn template_custom() {
    let t = ShellTemplate::custom("mybot");
    assert_eq!(t.name, "mybot");
    assert_eq!(t.kind, ShellKind::Custom("mybot".into()));
}

#[test]
fn template_builder_chain() {
    let t = ShellTemplate::custom("x")
        .with_port(PortConfig::new("tcp", "out", "10.0.0.1"))
        .with_api("fly")
        .with_room("cockpit")
        .with_budget(999.0f64.to_bits());
    assert_eq!(t.default_ports.len(), 1);
    assert!(t.default_apis.contains(&"fly".into()));
    assert!(t.default_rooms.contains(&"cockpit".into()));
    assert_eq!(f64::from_bits(t.default_budget), 999.0);
}

#[test]
fn template_with_api_no_dup() {
    let t = ShellTemplate::custom("x").with_api("read").with_api("read");
    assert_eq!(t.default_apis.iter().filter(|a| **a == "read").count(), 1);
}

#[test]
fn template_with_room_no_dup() {
    let t = ShellTemplate::custom("x").with_room("r1").with_room("r1");
    assert_eq!(t.default_rooms.len(), 1);
}

#[test]
fn builtin_template_budgets_and_levels() {
    let z = ShellTemplate::zeroclaw();
    assert_eq!(f64::from_bits(z.default_budget), 100.0);
    assert_eq!(z.autonomy_level, 1);
    assert_eq!(z.default_ports, vec![PortConfig::new("local", "in", "localhost")]);
    let t = ShellTemplate::telegram_bot();
    assert_eq!(f64::from_bits(t.default_budget), 200.0);
    assert_eq!(t.autonomy_level, 3);
    assert_eq!(t.kind, ShellKind::Custom("TelegramBot".into()));
    assert_eq!(t.default_apis, vec!["read", "write", "telegram"]);
    let u = ShellTemplate::underwater_vehicle();
    assert_eq!(f64::from_bits(u.default_budget), 1000.0);
    assert_eq!(u.autonomy_level, 5);
    assert_eq!(u.default_ports[1], PortConfig::new("navigation", "out", "serial://thrusters"));
    let m = ShellTemplate::media_center();
    assert_eq!(m.max_children, 4);
    assert_eq!(m.kind, ShellKind::Custom("MediaCenter".into()));
    let c = ShellTemplate::custom("q");
    assert_eq!(f64::from_bits(c.default_budget), 100.0);
    assert!(c.default_ports.is_empty());
    assert!(c.default_rooms.is_empty());
    assert_eq!(c.default_apis, vec!["read"]);
}

#[test]
fn template_clone_is_equal() {
    let t = ShellTemplate::cudaclaw().with_room("extra");
    let u = t.clone();
    assert_eq!(u.name, t.name);
    assert_eq!(u.default_ports, t.default_ports);
    assert_eq!(u.default_apis, t.default_apis);
    assert_eq!(u.default_rooms, t.default_rooms);
    assert_eq!(u.default_budget, t.default_budget);
}
