use lau_shell_spawn::{ChildShell, PortConfig, ShellKind, ShellStatus};

#[test]
fn child_shell_new() {
    let c = ChildShell::new("test-child", ShellKind::ZeroClaw, "/parent", 1700000000, 7);
    assert_eq!(c.name, "test-child");
    assert_eq!(c.kind, ShellKind::ZeroClaw);
    assert!(c.id.starts_with("shell-"));
    assert_eq!(c.universe_path, "/parent/test-child");
    assert_eq!(c.parent_path, "/parent");
    assert_eq!(c.status, ShellStatus::Initializing);
}

#[test]
fn child_shell_add_port() {
    let mut c = ChildShell::new("c", ShellKind::Hermes, "/p", 0, 0);
    c.add_port(PortConfig::new("ws", "in", "0.0.0.0:9000"));
    assert_eq!(c.ports.len(), 1);
    assert_eq!(c.ports[0].protocol, "ws");
}

#[test]
fn child_shell_grant_api() {
    let mut c = ChildShell::new("c", ShellKind::Hermes, "/p", 0, 0);
    c.grant_api("compute");
    assert!(c.apis.contains(&"compute".into()));
}

#[test]
fn child_shell_grant_api_no_dup() {
    let mut c = ChildShell::new("c", ShellKind::Hermes, "/p", 0, 0);
    c.grant_api("read");
    c.grant_api("read");
    assert_eq!(c.apis.iter().filter(|a| **a == "read").count(), 1);
}

#[test]
fn child_shell_revoke_api() {
    let mut c = ChildShell::new("c", ShellKind::Hermes, "/p", 0, 0);
    c.grant_api("compute");
    c.revoke_api("compute");
    assert!(!c.apis.contains(&"compute".into()));
}

#[test]
fn child_shell_grant_room() {
    let mut c = ChildShell::new("c", ShellKind::Hermes, "/p", 0, 0);
    c.grant_room("lab");
    assert!(c.rooms.contains(&"lab".into()));
}

#[test]
fn child_shell_grant_room_no_dup() {
    let mut c = ChildShell::new("c", ShellKind::Hermes, "/p", 0, 0);
    c.grant_room("lab");
    c.grant_room("lab");
    assert_eq!(c.rooms.len(), 1);
}

#[test]
fn child_shell_can_access_path_sandboxed() {
    let c = ChildShell::new("zc", ShellKind::ZeroClaw, "/shells/hermes", 0, 0);
    assert!(c.can_access_path("/shells/hermes/zc/data"));
    assert!(!c.can_access_path("/shells/hermes/other/data"));
    assert!(!c.can_access_path("/etc/passwd"));
}

#[test]
fn child_shell_can_access_path_unsandboxed() {
    let c = ChildShell::new("h", ShellKind::Hermes, "/shells/hermes", 0, 0);
    assert!(c.can_access_path("/any/path"));
    assert!(c.can_access_path("/etc/passwd"));
}

#[test]
fn child_shell_describe() {
    let c = ChildShell::new("bot", ShellKind::ZeroClaw, "/p", 0, 0);
    let desc = c.describe("0.00", "0.00");
    assert!(desc.contains("bot"));
    assert!(desc.contains("ZeroClaw"));
    assert!(desc.contains("sandboxed: true"));
}

#[test]
fn child_shell_status() {
    let c = ChildShell::new("c", ShellKind::Hermes, "/p", 0, 0);
    assert_eq!(c.status(), ShellStatus::Initializing);
}

#[test]
fn child_id_is_decimal_stamp_and_sequence() {
    let c = ChildShell::new("n", ShellKind::Ensign, "/p", 1712345678, 42);
    assert_eq!(c.id, "shell-1712345678-42");
    let z = ChildShell::new("n", ShellKind::Ensign, "/p", 0, 0);
    assert_eq!(z.id, "shell-0-0");
    let m = ChildShell::new("n", ShellKind::Ensign, "/p", u64::MAX, 10);
    assert_eq!(m.id, format!("shell-{}-10", u64::MAX));
}

#[test]
fn child_new_starts_empty_with_zero_budget() {
    let c = ChildShell::new("n", ShellKind::CUDAClaw, "/p", 1, 2);
    assert!(c.ports.is_empty());
    assert!(c.apis.is_empty());
    assert!(c.rooms.is_empty());
    assert_eq!(c.created_at, 1);
    assert_eq!(c.autonomy_level, 0);
    assert_eq!(f64::from_bits(c.conservation_budget), 0.0);
    assert_eq!(f64::from_bits(c.conservation_used), 0.0);
}

#[test]
fn child_shell_budget() {
    let mut c = ChildShell::new("c", ShellKind::Hermes, "/p", 0, 0);
    c.set_budget(100.0f64.to_bits());
    assert_eq!(f64::from_bits(c.conservation_budget), 100.0);
    c.conservation_used = 150.0f64.to_bits();
    assert_eq!(f64::from_bits(c.conservation_used), 150.0);
}

#[test]
fn sibling_with_extended_name_is_hidden() {
    let c = ChildShell::new("zc", ShellKind::ZeroClaw, "/shells/hermes", 0, 0);
    assert!(!c.can_access_path("/shells/hermes/zc2/data"));
    assert!(!c.can_access_path("/shells/hermes/zc2"));
    assert!(c.can_access_path("/shells/hermes/zc"));
    assert!(c.can_access_path("/shells/hermes/zc/data"));
}

#[test]
fn set_budget_stores_bit_pattern() {
    let mut c = ChildShell::new("c", ShellKind::Hermes, "/p", 0, 0);
    c.set_budget(100.0f64.to_bits());
    assert_eq!(f64::from_bits(c.conservation_budget), 100.0);
}

#[test]
fn describe_exact_text() {
    let mut c = ChildShell::new("bot", ShellKind::ZeroClaw, "/p", 5, 3);
    c.grant_api("read");
    c.grant_api("write");
    c.add_port(PortConfig::new("tcp", "in", "x"));
    c.grant_room("lab");
    assert_eq!(
        c.describe("1.50", "10.00"),
        "[shell-5-3] bot (ZeroClaw) \u{2014} Initializing | ports: 1 | apis: read,write | rooms: 1 | budget: 1.50/10.00 | sandboxed: true"
    );
    let h = ChildShell::new("h", ShellKind::Hermes, "/p", 0, 0);
    assert!(h.describe("0.00", "0.00").ends_with("apis:  | rooms: 0 | budget: 0.00/0.00 | sandboxed: false"));
}

#[test]
fn revoke_keeps_order_and_removes_all_copies() {
    let mut c = ChildShell::new("c", ShellKind::Hermes, "/p", 0, 0);
    c.apis = vec!["a".into(), "x".into(), "b".into(), "x".into(), "c".into()];
    c.revoke_api("x");
    assert_eq!(c.apis, vec!["a", "b", "c"]);
    c.revoke_api("absent");
    assert_eq!(c.apis, vec!["a", "b", "c"]);
}

#[test]
fn grant_then_revoke_restores_list() {
    let mut c = ChildShell::new("c", ShellKind::Hermes, "/p", 0, 0);
    c.grant_api("read");
    c.grant_api("write");
    let before = c.apis.clone();
    c.grant_api("fly");
    c.revoke_api("fly");
    assert_eq!(c.apis, before);
}

#[test]
fn sandbox_prefix_edge_cases() {
    let c = ChildShell::new("a", ShellKind::ZeroClaw, "/p", 0, 0);
    assert!(c.can_access_path("/p/a"));
    assert!(c.can_access_path("/p/a/deep/file"));
    assert!(!c.can_access_path("/p"));
    assert!(!c.can_access_path("/p/"));
    assert!(!c.can_access_path(""));
    // a sibling whose name extends this one stays out of reach
    assert!(!c.can_access_path("/p/ab"));
    assert!(!c.can_access_path("/p/ab/file"));
    assert!(!c.can_access_path("/p/b/file"));
    assert!(c.can_access_path("/p/a/"));
    let u = ChildShell::new("é", ShellKind::CUDAClaw, "/π", 0, 0);
    assert!(u.can_access_path("/π/é/x"));
    assert!(!u.can_access_path("/π/e/x"));
}
