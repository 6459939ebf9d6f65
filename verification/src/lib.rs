//! Child shells spawned by a parent shell: capabilities, sandboxed paths and a
//! registry of children and templates.
use vstd::prelude::*;

pub mod child;
pub mod error;
pub mod kind;
pub mod laws;
pub mod port;
pub mod registry;
pub mod spawn;
pub mod template;
pub mod text;

pub use child::ChildShell;
pub use error::SpawnError;
pub use kind::{ShellKind, ShellStatus};
pub use port::PortConfig;
pub use spawn::ShellSpawn;
pub use template::ShellTemplate;

verus! {

} // verus!
