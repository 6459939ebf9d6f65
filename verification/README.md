# lau_shell_spawn

A parent shell spawns child shells with scoped capabilities (APIs, rooms,
ports), a sandboxed path subtree and a resource budget. The library is
written in Verus: every function in `src/` carries a contract over a
mathematical view of its types and is proved against it.

## Layout

- `src/text.rs` — decimal rendering, prefix test, membership and joining of
  strings, each with an exact specification.
- `src/kind.rs` — `ShellStatus` and `ShellKind` (sandboxing, labels, default APIs).
- `src/port.rs` — `PortConfig`.
- `src/child.rs` — `ChildShell`: identity, capability grants and revokes, the
  sandbox check and the one-line summary.
- `src/template.rs` — `ShellTemplate`: built-in blueprints and the builder.
- `src/error.rs` — `SpawnError` and its messages.
- `src/registry.rs` — name-keyed registries kept as vectors of entries with
  distinct names, and their meaning as finite maps.
- `src/spawn.rs` — `ShellSpawn`: spawning directly or from templates, lookup,
  listing, counting and teardown.
- `src/laws.rs` — properties across calls: distinct identifiers, sandbox
  isolation, grant/revoke algebra, spawn/destroy round trips.
- `app/lib.rs` — the clock and process-wide counter that stamp identifiers, the
  floating-point budget comparison and formatting, and serde-ready copies of
  the types with `Display`.

## Representation notes

- Budget amounts are carried as the bit pattern of the binary64 value
  (`f64::to_bits`); the library stores and copies them, `app/` compares and
  formats them.
- A child's identifier is `shell-<created_at>-<seq>`; the caller supplies the
  creation second and the sequence number (`app::id_stamp` reads the clock and
  a process-wide counter).
