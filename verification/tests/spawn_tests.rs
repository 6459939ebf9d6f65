use lau_shell_spawn::{PortConfig, ShellKind, ShellSpawn, ShellStatus, ShellTemplate, SpawnError};

fn spawn_instance() -> ShellSpawn {
    ShellSpawn::new("/shells/hermes")
}

const NOW: u64 = 1_700_000_000;

#[test]
fn spawn_new() {
    let s = spawn_instance();
    assert_eq!(s.parent_path, "/shells/hermes");
    assert_eq!(s.child_count(), 0);
}

#[test]
fn spawn_child() {
    let mut s = spawn_instance();
    let child = s.spawn(ShellKind::ZeroClaw, "zc-1", NOW, 0).unwrap();
    assert_eq!(child.name, "zc-1");
    assert_eq!(child.kind, ShellKind::ZeroClaw);
    assert_eq!(child.status, ShellStatus::Running);
    assert_eq!(s.child_count(), 1);
}

#[test]
fn spawn_child_default_apis() {
    let mut s = spawn_instance();
    let child = s.spawn(ShellKind::Hermes, "h1", NOW, 0).unwrap();
    assert!(child.apis.contains(&"read".into()));
    assert!(child.apis.contains(&"write".into()));
    assert!(child.apis.contains(&"network".into()));
}

#[test]
fn spawn_duplicate_name() {
    let mut s = spawn_instance();
    s.spawn(ShellKind::ZeroClaw, "dup", NOW, 0).unwrap();
    let err = s.spawn(ShellKind::ZeroClaw, "dup", NOW, 1).unwrap_err();
    assert_eq!(err, SpawnError::NameExists("dup".into()));
}

#[test]
fn spawn_from_template() {
    let mut s = spawn_instance();
    s.register_template(ShellTemplate::zeroclaw());
    let child = s.spawn_from_template("zeroclaw", "zc-tpl", NOW, 0).unwrap();
    assert_eq!(child.kind, ShellKind::ZeroClaw);
    assert_eq!(child.apis, vec!["read"]);
    assert_eq!(child.rooms, vec!["main"]);
    assert_eq!(f64::from_bits(child.conservation_budget), 100.0);
    assert_eq!(child.autonomy_level, 1);
}

#[test]
fn spawn_from_template_not_found() {
    let mut s = spawn_instance();
    let err = s.spawn_from_template("nonexistent", "x", NOW, 0).unwrap_err();
    assert_eq!(err, SpawnError::TemplateNotFound("nonexistent".into()));
}

#[test]
fn spawn_from_template_duplicate_name() {
    let mut s = spawn_instance();
    s.register_template(ShellTemplate::zeroclaw());
    s.spawn_from_template("zeroclaw", "dup", NOW, 0).unwrap();
    let err = s.spawn_from_template("zeroclaw", "dup", NOW, 1).unwrap_err();
    assert_eq!(err, SpawnError::NameExists("dup".into()));
}

#[test]
fn get_child() {
    let mut s = spawn_instance();
    s.spawn(ShellKind::Hermes, "h1", NOW, 0).unwrap();
    assert!(s.get_child("h1").is_some());
    assert!(s.get_child("nope").is_none());
}

#[test]
fn get_child_mut() {
    let mut s = spawn_instance();
    s.spawn(ShellKind::Hermes, "h1", NOW, 0).unwrap();
    let child = s.get_child_mut("h1").unwrap();
    child.grant_room("lab");
    assert!(s.get_child("h1").unwrap().rooms.contains(&"lab".into()));
}

#[test]
fn list_children() {
    let mut s = spawn_instance();
    s.spawn(ShellKind::ZeroClaw, "a", NOW, 0).unwrap();
    s.spawn(ShellKind::CUDAClaw, "b", NOW, 1).unwrap();
    s.spawn(ShellKind::Hermes, "c", NOW, 2).unwrap();
    assert_eq!(s.list_children().len(), 3);
}

#[test]
fn destroy_child() {
    let mut s = spawn_instance();
    s.spawn(ShellKind::ZeroClaw, "gone", NOW, 0).unwrap();
    assert_eq!(s.child_count(), 1);
    s.destroy("gone").unwrap();
    assert_eq!(s.child_count(), 0);
    assert!(s.get_child("gone").is_none());
}

#[test]
fn destroy_nonexistent() {
    let mut s = spawn_instance();
    let err = s.destroy("ghost").unwrap_err();
    assert!(matches!(err, SpawnError::NameExists(_)));
}

#[test]
fn child_count() {
    let mut s = spawn_instance();
    assert_eq!(s.child_count(), 0);
    s.spawn(ShellKind::Ensign, "e1", NOW, 0).unwrap();
    assert_eq!(s.child_count(), 1);
    s.spawn(ShellKind::Ensign, "e2", NOW, 1).unwrap();
    assert_eq!(s.child_count(), 2);
    s.destroy("e1").unwrap();
    assert_eq!(s.child_count(), 1);
}

#[test]
fn spawn_error_display() {
    assert!(SpawnError::NameExists("x".into()).to_string().contains("x"));
    assert!(SpawnError::MaxChildrenReached(5).to_string().contains("5"));
    assert!(SpawnError::PathConflict("/bad".into()).to_string().contains("/bad"));
    assert!(SpawnError::TemplateNotFound("t".into()).to_string().contains("t"));
    assert!(SpawnError::SandboxViolation("/s".into()).to_string().contains("/s"));
}

#[test]
fn full_lifecycle() {
    let mut spawner = ShellSpawn::new("/shells/hermes");

    spawner.register_template(ShellTemplate::zeroclaw());
    spawner.register_template(ShellTemplate::cudaclaw());
    spawner.register_template(
        ShellTemplate::custom("sensor")
            .with_port(PortConfig::new("i2c", "in", "/dev/i2c-1"))
            .with_api("sensor_read")
            .with_room("sensor-lab")
            .with_budget(50.0f64.to_bits()),
    );

    let zc = spawner.spawn_from_template("zeroclaw", "zc-1", NOW, 0).unwrap();
    assert_eq!(zc.kind, ShellKind::ZeroClaw);
    assert_eq!(zc.rooms, vec!["main"]);

    let cc = spawner.spawn_from_template("cudaclaw", "cc-1", NOW, 1).unwrap();
    assert!(cc.apis.contains(&"cuda".into()));

    let sensor = spawner.spawn_from_template("sensor", "s-1", NOW, 2).unwrap();
    assert!(sensor.ports.iter().any(|p| p.protocol == "i2c"));

    let ensign = spawner.spawn(ShellKind::Ensign, "ensign-1", NOW, 3).unwrap();
    assert_eq!(ensign.kind, ShellKind::Ensign);

    spawner.get_child_mut("zc-1").unwrap().grant_room("extra");
    assert!(spawner.get_child("zc-1").unwrap().rooms.contains(&"extra".into()));

    spawner.get_child_mut("cc-1").unwrap().conservation_used = 400.0f64.to_bits();
    assert_eq!(f64::from_bits(spawner.get_child("cc-1").unwrap().conservation_used), 400.0);

    assert!(!spawner.get_child("zc-1").unwrap().can_access_path("/etc/passwd"));
    assert!(spawner.get_child("ensign-1").unwrap().can_access_path("/etc/passwd"));

    assert_eq!(spawner.child_count(), 4);
    assert_eq!(spawner.list_children().len(), 4);

    spawner.destroy("s-1").unwrap();
    assert_eq!(spawner.child_count(), 3);
    assert!(spawner.get_child("s-1").is_none());
}

#[test]
fn multiple_templates_same_kind() {
    let mut s = spawn_instance();
    s.register_template(ShellTemplate::custom("bot-a"));
    s.register_template(ShellTemplate::custom("bot-b"));
    let a = s.spawn_from_template("bot-a", "a", NOW, 0).unwrap();
    let b = s.spawn_from_template("bot-b", "b", NOW, 1).unwrap();
    assert_ne!(a.id, b.id);
    assert_eq!(s.child_count(), 2);
}

#[test]
fn sandboxed_cannot_escape() {
    let mut s = spawn_instance();
    s.register_template(ShellTemplate::zeroclaw());
    let child = s.spawn_from_template("zeroclaw", "sandboxed", NOW, 0).unwrap();
    let path = &child.universe_path;
    assert!(child.can_access_path(path));
    assert!(child.can_access_path(&format!("{}/deep/file", path)));
    assert!(!child.can_access_path("/shells/hermes"));
}

#[test]
fn register_template_replaces_same_name() {
    let mut s = spawn_instance();
    s.register_template(ShellTemplate::custom("t"));
    s.register_template(ShellTemplate::custom("t").with_api("extra"));
    let c = s.spawn_from_template("t", "c", NOW, 0).unwrap();
    assert_eq!(c.apis, vec!["read", "extra"]);
}

#[test]
fn template_checked_before_name() {
    let mut s = spawn_instance();
    s.spawn(ShellKind::Hermes, "taken", NOW, 0).unwrap();
    let err = s.spawn_from_template("missing", "taken", NOW, 1).unwrap_err();
    assert_eq!(err, SpawnError::TemplateNotFound("missing".into()));
    assert_eq!(s.child_count(), 1);
}

#[test]
fn destroy_error_message_and_state_kept() {
    let mut s = spawn_instance();
    s.spawn(ShellKind::Hermes, "keep", NOW, 0).unwrap();
    let err = s.destroy("ghost").unwrap_err();
    assert_eq!(err, SpawnError::NameExists("ghost: not found".into()));
    assert_eq!(err.to_string(), "child 'ghost: not found' already exists");
    assert_eq!(s.child_count(), 1);
}

#[test]
fn spawn_then_destroy_then_respawn() {
    let mut s = spawn_instance();
    s.spawn(ShellKind::ZeroClaw, "x", NOW, 0).unwrap();
    s.destroy("x").unwrap();
    assert!(s.get_child("x").is_none());
    let again = s.spawn(ShellKind::Hermes, "x", NOW, 1).unwrap();
    assert_eq!(again.kind, ShellKind::Hermes);
    assert_eq!(s.get_child("x").unwrap().id, again.id);
}

#[test]
fn spawned_child_fields() {
    let mut s = spawn_instance();
    let c = s.spawn(ShellKind::CUDAClaw, "g", 12, 34).unwrap();
    assert_eq!(c.id, "shell-12-34");
    assert_eq!(c.universe_path, "/shells/hermes/g");
    assert_eq!(c.parent_path, "/shells/hermes");
    assert_eq!(c.apis, vec!["read", "compute", "cuda"]);
    assert!(c.ports.is_empty());
    let stored = s.get_child("g").unwrap();
    assert_eq!(stored.id, c.id);
    assert_eq!(stored.apis, c.apis);
    let listed = s.list_children();
    assert_eq!(listed[0].name, "g");
}

#[test]
fn spawn_error_texts_exact() {
    assert_eq!(SpawnError::NameExists("x".into()).to_string(), "child 'x' already exists");
    assert_eq!(SpawnError::MaxChildrenReached(5).to_string(), "max children (5) reached");
    assert_eq!(SpawnError::PathConflict("/bad".into()).to_string(), "path conflict: /bad");
    assert_eq!(SpawnError::TemplateNotFound("t".into()).to_string(), "template 't' not found");
    assert_eq!(SpawnError::SandboxViolation("/s".into()).to_string(), "sandbox violation: /s");
}

#[test]
fn well_formedness_check() {
    let mut s = spawn_instance();
    s.spawn(ShellKind::Hermes, "a", NOW, 0).unwrap();
    s.register_template(ShellTemplate::zeroclaw());
    assert!(s.is_well_formed());
    let dup = s.children[0].1.clone();
    s.children.push(("a".into(), dup));
    assert!(!s.is_well_formed());
}
