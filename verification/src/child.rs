//! A spawned child shell: identity, capabilities, sandbox and budget.
use vstd::prelude::*;

use crate::kind::{
    kind_is_sandboxed, kind_label, status_text, KindView, ShellKind, ShellStatus, StatusView,
};
use crate::port::{port_views, PortConfig, PortView};
use crate::text::{
    contains_string, decimal, join, join_strings, push_decimal, str_starts_with, views,
};

verus! {

/// A child shell with its identity, capabilities and resource budget.
///
/// The budget fields hold the IEEE-754 binary64 bit pattern of the amount
/// (as given by `f64::to_bits`); this library only stores and copies them.
#[derive(Debug)]
pub struct ChildShell {
    pub id: String,
    pub name: String,
    pub kind: ShellKind,
    pub universe_path: String,
    pub parent_path: String,
    pub ports: Vec<PortConfig>,
    pub apis: Vec<String>,
    pub rooms: Vec<String>,
    pub status: ShellStatus,
    pub created_at: u64,
    pub autonomy_level: u32,
    pub conservation_budget: u64,
    pub conservation_used: u64,
}

/// The contents of a [`ChildShell`], with every string taken by its characters.
pub ghost struct ChildView {
    pub id: Seq<char>,
    pub name: Seq<char>,
    pub kind: KindView,
    pub universe_path: Seq<char>,
    pub parent_path: Seq<char>,
    pub ports: Seq<PortView>,
    pub apis: Seq<Seq<char>>,
    pub rooms: Seq<Seq<char>>,
    pub status: StatusView,
    pub created_at: u64,
    pub autonomy_level: u32,
    pub conservation_budget: u64,
    pub conservation_used: u64,
}

impl View for ChildShell {
    type V = ChildView;

    open spec fn view(&self) -> ChildView {
        ChildView {
            id: self.id@,
            name: self.name@,
            kind: self.kind@,
            universe_path: self.universe_path@,
            parent_path: self.parent_path@,
            ports: port_views(self.ports@),
            apis: views(self.apis@),
            rooms: views(self.rooms@),
            status: self.status@,
            created_at: self.created_at,
            autonomy_level: self.autonomy_level,
            conservation_budget: self.conservation_budget,
            conservation_used: self.conservation_used,
        }
    }
}

/// The identifier of a shell created at second `created_at` with sequence number `seq`.
pub open spec fn shell_id(created_at: u64, seq: u64) -> Seq<char> {
    "shell-"@ + decimal(created_at as nat) + "-"@ + decimal(seq as nat)
}

/// The subtree owned by a child `name` of the parent at `parent_path`.
pub open spec fn universe_of(parent_path: Seq<char>, name: Seq<char>) -> Seq<char> {
    parent_path + "/"@ + name
}

/// `list` with `item` appended, unless it already holds it.
pub open spec fn with_unique(list: Seq<Seq<char>>, item: Seq<char>) -> Seq<Seq<char>> {
    if list.contains(item) {
        list
    } else {
        list.push(item)
    }
}

/// The test that keeps every string other than `item`.
pub open spec fn differs_from(item: Seq<char>) -> spec_fn(Seq<char>) -> bool {
    |a: Seq<char>| a != item
}

/// `list` without any occurrence of `item`, order kept.
pub open spec fn without(list: Seq<Seq<char>>, item: Seq<char>) -> Seq<Seq<char>> {
    list.filter(differs_from(item))
}

/// Whether `path` lies in the subtree rooted at `root`: it is `root` itself
/// or starts with `root` followed by `/`.
pub open spec fn in_subtree(root: Seq<char>, path: Seq<char>) -> bool {
    path == root || (root + "/"@).is_prefix_of(path)
}

/// Whether a shell may touch `path`: unsandboxed shells may touch anything,
/// sandboxed ones exactly the subtree rooted at their universe path.
pub open spec fn may_access(c: ChildView, path: Seq<char>) -> bool {
    !kind_is_sandboxed(c.kind) || in_subtree(c.universe_path, path)
}

/// The one-line summary of a shell, given the texts of its used and total budget.
pub open spec fn describe_text(c: ChildView, used: Seq<char>, budget: Seq<char>) -> Seq<char> {
    "["@ + c.id + "] "@ + c.name + " ("@ + kind_label(c.kind) + ") \u{2014} "@ + status_text(
        c.status,
    ) + " | ports: "@ + decimal(c.ports.len()) + " | apis: "@ + join(c.apis, ","@)
        + " | rooms: "@ + decimal(c.rooms.len()) + " | budget: "@ + used + "/"@ + budget
        + " | sandboxed: "@ + (if kind_is_sandboxed(c.kind) {
        "true"@
    } else {
        "false"@
    })
}

impl ChildShell {
    /// A fresh child `name` of `parent_path`, created at second `created_at` and
    /// numbered `seq`: no ports, APIs or rooms, status `Initializing`, zero budget.
    pub fn new(name: &str, kind: ShellKind, parent_path: &str, created_at: u64, seq: u64) -> (r:
        Self)
        ensures
            r@ == (ChildView {
                id: shell_id(created_at, seq),
                name: name@,
                kind: kind@,
                universe_path: universe_of(parent_path@, name@),
                parent_path: parent_path@,
                ports: Seq::empty(),
                apis: Seq::empty(),
                rooms: Seq::empty(),
                status: StatusView::Initializing,
                created_at: created_at,
                autonomy_level: 0,
                conservation_budget: 0,
                conservation_used: 0,
            }),
    {
        let mut id = String::from_str("shell-");
        push_decimal(&mut id, created_at);
        id.append("-");
        push_decimal(&mut id, seq);
        let mut universe_path = String::from_str(parent_path);
        universe_path.append("/");
        universe_path.append(name);
        let ports: Vec<PortConfig> = Vec::new();
        let apis: Vec<String> = Vec::new();
        let rooms: Vec<String> = Vec::new();
        let r = ChildShell {
            id,
            name: String::from_str(name),
            kind,
            universe_path,
            parent_path: String::from_str(parent_path),
            ports,
            apis,
            rooms,
            status: ShellStatus::Initializing,
            created_at,
            autonomy_level: 0,
            conservation_budget: 0,
            conservation_used: 0,
        };
        assert(r@.ports =~= Seq::<PortView>::empty());
        assert(r@.apis =~= Seq::<Seq<char>>::empty());
        assert(r@.rooms =~= Seq::<Seq<char>>::empty());
        r
    }

    /// The current lifecycle state.
    pub fn status(&self) -> (r: ShellStatus)
        ensures
            r == self.status,
            r@ == self@.status,
    {
        self.status.clone()
    }

    /// Attaches a communication endpoint after the existing ones.
    pub fn add_port(&mut self, port: PortConfig)
        ensures
            final(self)@ == (ChildView { ports: old(self)@.ports.push(port@), ..old(self)@ }),
    {
        self.ports.push(port);
        assert(port_views(self.ports@) =~= port_views(old(self).ports@).push(port@));
    }

    /// Grants `api`, unless it is already granted.
    pub fn grant_api(&mut self, api: &str)
        ensures
            final(self)@ == (ChildView { apis: with_unique(old(self)@.apis, api@), ..old(self)@ }),
    {
        let a = String::from_str(api);
        if !contains_string(&self.apis, &a) {
            self.apis.push(a);
            assert(views(self.apis@) =~= views(old(self).apis@).push(api@));
        }
    }

    /// Revokes every grant of `api`; the other APIs keep their order.
    pub fn revoke_api(&mut self, api: &str)
        ensures
            final(self)@ == (ChildView { apis: without(old(self)@.apis, api@), ..old(self)@ }),
    {
        let a = String::from_str(api);
        let mut kept: Vec<String> = Vec::new();
        let ghost all = views(self.apis@);
        let mut i: usize = 0;
        while i < self.apis.len()
            invariant
                i <= self.apis.len(),
                self == old(self),
                all == views(self.apis@),
                a@ == api@,
                views(kept@) == without(all.take(i as int), api@),
            decreases self.apis.len() - i,
        {
            proof {
                reveal(Seq::filter);
                assert(all.take(i + 1).drop_last() =~= all.take(i as int));
            }
            if !(self.apis[i] == a) {
                kept.push(self.apis[i].clone());
                assert(views(kept@) =~= without(all.take(i as int), api@).push(all[i as int]));
            }
            i = i + 1;
        }
        assert(all.take(self.apis.len() as int) =~= all);
        self.apis = kept;
    }

    /// Joins room `room_id`, unless already in it.
    pub fn grant_room(&mut self, room_id: &str)
        ensures
            final(self)@ == (ChildView {
                rooms: with_unique(old(self)@.rooms, room_id@),
                ..old(self)@
            }),
    {
        let r = String::from_str(room_id);
        if !contains_string(&self.rooms, &r) {
            self.rooms.push(r);
            assert(views(self.rooms@) =~= views(old(self).rooms@).push(room_id@));
        }
    }

    /// Sets the resource ceiling, given by its binary64 bit pattern.
    pub fn set_budget(&mut self, budget: u64)
        ensures
            final(self)@ == (ChildView { conservation_budget: budget, ..old(self)@ }),
    {
        self.conservation_budget = budget;
    }

    /// Whether this shell may touch `path`: always for unsandboxed kinds; for
    /// sandboxed kinds exactly when `path` is the universe path or lies below it.
    pub fn can_access_path(&self, path: &str) -> (r: bool)
        ensures
            r == may_access(self@, path@),
            (self.kind is Hermes || self.kind is Ensign || self.kind is Custom) ==> r,
            (self.kind is ZeroClaw || self.kind is CUDAClaw) ==> (r <==> (path@ == self@.universe_path
                || (self@.universe_path + seq!['/']).is_prefix_of(path@))),
    {
        proof {
            reveal_strlit("/");
            assert("/"@ =~= seq!['/']);
        }
        if !self.kind.is_sandboxed() {
            return true;
        }
        if String::from_str(path) == self.universe_path {
            return true;
        }
        let mut root = self.universe_path.clone();
        root.append("/");
        str_starts_with(path, root.as_str())
    }

    /// The one-line summary of this shell; `used` and `budget` are the texts
    /// the budget amounts are shown as.
    pub fn describe(&self, used: &str, budget: &str) -> (r: String)
        ensures
            r@ == describe_text(self@, used@, budget@),
    {
        let mut r = String::from_str("[");
        r.append(self.id.as_str());
        r.append("] ");
        r.append(self.name.as_str());
        r.append(" (");
        let label = self.kind.label();
        r.append(label.as_str());
        r.append(") \u{2014} ");
        let status = self.status.to_string();
        r.append(status.as_str());
        r.append(" | ports: ");
        push_decimal(&mut r, self.ports.len() as u64);
        r.append(" | apis: ");
        let apis = join_strings(&self.apis, ",");
        r.append(apis.as_str());
        r.append(" | rooms: ");
        push_decimal(&mut r, self.rooms.len() as u64);
        r.append(" | budget: ");
        r.append(used);
        r.append("/");
        r.append(budget);
        r.append(" | sandboxed: ");
        if self.kind.is_sandboxed() {
            r.append("true");
        } else {
            r.append("false");
        }
        r
    }
}

impl Clone for ChildShell {
    fn clone(&self) -> (r: Self)
        ensures
            r@ == self@,
    {
        let ports = self.ports.clone();
        let apis = self.apis.clone();
        let rooms = self.rooms.clone();
        assert(port_views(ports@) =~= port_views(self.ports@));
        assert(views(apis@) =~= views(self.apis@));
        assert(views(rooms@) =~= views(self.rooms@));
        ChildShell {
            id: self.id.clone(),
            name: self.name.clone(),
            kind: self.kind.clone(),
            universe_path: self.universe_path.clone(),
            parent_path: self.parent_path.clone(),
            ports,
            apis,
            rooms,
            status: self.status.clone(),
            created_at: self.created_at,
            autonomy_level: self.autonomy_level,
            conservation_budget: self.conservation_budget,
            conservation_used: self.conservation_used,
        }
    }
}

} // verus!
