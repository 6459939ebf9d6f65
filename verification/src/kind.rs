//! Lifecycle states and kinds of shells.
use vstd::prelude::*;

use crate::text::views;

verus! {

/// Where a shell is in its lifecycle.
#[derive(Debug, PartialEq)]
pub enum ShellStatus {
    Initializing,
    Running,
    Idle,
    Error(String),
    Destroyed,
}

/// A status with its error message taken by its characters.
pub ghost enum StatusView {
    Initializing,
    Running,
    Idle,
    Error(Seq<char>),
    Destroyed,
}

impl View for ShellStatus {
    type V = StatusView;

    open spec fn view(&self) -> StatusView {
        match self {
            ShellStatus::Initializing => StatusView::Initializing,
            ShellStatus::Running => StatusView::Running,
            ShellStatus::Idle => StatusView::Idle,
            ShellStatus::Error(e) => StatusView::Error(e@),
            ShellStatus::Destroyed => StatusView::Destroyed,
        }
    }
}

/// The text a status is shown as.
pub open spec fn status_text(s: StatusView) -> Seq<char> {
    match s {
        StatusView::Initializing => "Initializing"@,
        StatusView::Running => "Running"@,
        StatusView::Idle => "Idle"@,
        StatusView::Error(e) => "Error("@ + e + ")"@,
        StatusView::Destroyed => "Destroyed"@,
    }
}

impl Clone for ShellStatus {
    fn clone(&self) -> (r: Self)
        ensures
            r == *self,
            r@ == self@,
    {
        match self {
            ShellStatus::Initializing => ShellStatus::Initializing,
            ShellStatus::Running => ShellStatus::Running,
            ShellStatus::Idle => ShellStatus::Idle,
            ShellStatus::Error(e) => ShellStatus::Error(e.clone()),
            ShellStatus::Destroyed => ShellStatus::Destroyed,
        }
    }
}

impl ShellStatus {
    /// The text this status is shown as, such as `Running` or `Error(oops)`.
    pub fn to_string(&self) -> (r: String)
        ensures
            r@ == status_text(self@),
    {
        match self {
            ShellStatus::Initializing => String::from_str("Initializing"),
            ShellStatus::Running => String::from_str("Running"),
            ShellStatus::Idle => String::from_str("Idle"),
            ShellStatus::Error(e) => {
                let mut r = String::from_str("Error(");
                r.append(e.as_str());
                r.append(")");
                r
            },
            ShellStatus::Destroyed => String::from_str("Destroyed"),
        }
    }
}

/// The kind of a shell; it decides sandboxing and the APIs granted on spawn.
#[derive(Debug, PartialEq)]
pub enum ShellKind {
    Hermes,
    ZeroClaw,
    CUDAClaw,
    Ensign,
    Custom(String),
}

/// A kind with a custom name taken by its characters.
pub ghost enum KindView {
    Hermes,
    ZeroClaw,
    CUDAClaw,
    Ensign,
    Custom(Seq<char>),
}

impl View for ShellKind {
    type V = KindView;

    open spec fn view(&self) -> KindView {
        match self {
            ShellKind::Hermes => KindView::Hermes,
            ShellKind::ZeroClaw => KindView::ZeroClaw,
            ShellKind::CUDAClaw => KindView::CUDAClaw,
            ShellKind::Ensign => KindView::Ensign,
            ShellKind::Custom(n) => KindView::Custom(n@),
        }
    }
}

/// Sandboxed kinds may only reach paths under their own universe path.
pub open spec fn kind_is_sandboxed(k: KindView) -> bool {
    k is ZeroClaw || k is CUDAClaw
}

/// The human-readable name of a kind.
pub open spec fn kind_label(k: KindView) -> Seq<char> {
    match k {
        KindView::Hermes => "Hermes"@,
        KindView::ZeroClaw => "ZeroClaw"@,
        KindView::CUDAClaw => "CUDAClaw"@,
        KindView::Ensign => "Ensign"@,
        KindView::Custom(n) => "Custom("@ + n + ")"@,
    }
}

/// The APIs a shell of kind `k` is granted when it is spawned directly.
pub open spec fn kind_default_apis(k: KindView) -> Seq<Seq<char>> {
    match k {
        KindView::Hermes => seq!["read"@, "write"@, "network"@],
        KindView::ZeroClaw => seq!["read"@],
        KindView::CUDAClaw => seq!["read"@, "compute"@, "cuda"@],
        KindView::Ensign => seq!["read"@, "write"@],
        KindView::Custom(_) => seq!["read"@],
    }
}

impl Clone for ShellKind {
    fn clone(&self) -> (r: Self)
        ensures
            r == *self,
            r@ == self@,
    {
        match self {
            ShellKind::Hermes => ShellKind::Hermes,
            ShellKind::ZeroClaw => ShellKind::ZeroClaw,
            ShellKind::CUDAClaw => ShellKind::CUDAClaw,
            ShellKind::Ensign => ShellKind::Ensign,
            ShellKind::Custom(n) => ShellKind::Custom(n.clone()),
        }
    }
}

impl ShellKind {
    /// Whether shells of this kind are confined to their own subtree.
    pub fn is_sandboxed(&self) -> (r: bool)
        ensures
            r == kind_is_sandboxed(self@),
    {
        match self {
            ShellKind::ZeroClaw | ShellKind::CUDAClaw => true,
            _ => false,
        }
    }

    /// The human-readable name of this kind, such as `Hermes` or `Custom(Foo)`.
    pub fn label(&self) -> (r: String)
        ensures
            r@ == kind_label(self@),
    {
        match self {
            ShellKind::Hermes => String::from_str("Hermes"),
            ShellKind::ZeroClaw => String::from_str("ZeroClaw"),
            ShellKind::CUDAClaw => String::from_str("CUDAClaw"),
            ShellKind::Ensign => String::from_str("Ensign"),
            ShellKind::Custom(name) => {
                let mut r = String::from_str("Custom(");
                r.append(name.as_str());
                r.append(")");
                r
            },
        }
    }

    /// The text this kind is shown as: its label.
    pub fn to_string(&self) -> (r: String)
        ensures
            r@ == kind_label(self@),
    {
        self.label()
    }

    /// The APIs granted on a direct spawn of this kind, in order.
    pub fn default_apis(&self) -> (r: Vec<String>)
        ensures
            views(r@) == kind_default_apis(self@),
    {
        let mut r: Vec<String> = Vec::new();
        r.push(String::from_str("read"));
        match self {
            ShellKind::Hermes => {
                r.push(String::from_str("write"));
                r.push(String::from_str("network"));
            },
            ShellKind::CUDAClaw => {
                r.push(String::from_str("compute"));
                r.push(String::from_str("cuda"));
            },
            ShellKind::Ensign => {
                r.push(String::from_str("write"));
            },
            _ => {},
        }
        assert(views(r@) =~= kind_default_apis(self@));
        r
    }
}

} // verus!
