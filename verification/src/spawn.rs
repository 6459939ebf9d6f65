//! The spawner: a parent path, its live children and its registered templates.
use vstd::prelude::*;

use crate::child::{shell_id, universe_of, ChildShell, ChildView};
use crate::error::{ErrorView, SpawnError};
use crate::kind::{kind_default_apis, KindView, ShellKind, ShellStatus, StatusView};
use crate::port::PortView;
use crate::registry::{
    find_key, has_key, keys_are_distinct, keys_distinct, lemma_push_distinct, lemma_to_map_dom, lemma_to_map_len,
    lemma_to_map_remove, lemma_to_map_update, lemma_to_map_value, to_map,
};
use crate::template::{ShellTemplate, TemplateView};

verus! {

/// A parent shell and everything it spawned.
///
/// `children` and `templates` are registries keyed by name: no name occurs
/// twice in either (see [`ShellSpawn::wf`]).
#[derive(Debug)]
pub struct ShellSpawn {
    pub parent_path: String,
    pub children: Vec<(String, ChildShell)>,
    pub templates: Vec<(String, ShellTemplate)>,
}

/// The contents of a [`ShellSpawn`]: its parent path and its children and
/// templates as maps from names.
pub ghost struct SpawnView {
    pub parent_path: Seq<char>,
    pub children: Map<Seq<char>, ChildView>,
    pub templates: Map<Seq<char>, TemplateView>,
}

/// The child entries with names and children taken by their views.
pub open spec fn child_entries(s: Seq<(String, ChildShell)>) -> Seq<(Seq<char>, ChildView)> {
    s.map_values(|e: (String, ChildShell)| (e.0@, e.1@))
}

/// The template entries with names and templates taken by their views.
pub open spec fn template_entries(s: Seq<(String, ShellTemplate)>) -> Seq<(Seq<char>, TemplateView)> {
    s.map_values(|e: (String, ShellTemplate)| (e.0@, e.1@))
}

impl View for ShellSpawn {
    type V = SpawnView;

    open spec fn view(&self) -> SpawnView {
        SpawnView {
            parent_path: self.parent_path@,
            children: to_map(child_entries(self.children@)),
            templates: to_map(template_entries(self.templates@)),
        }
    }
}

/// The child that a direct spawn of `kind` under `name` creates.
pub open spec fn spawned_child(
    parent_path: Seq<char>,
    name: Seq<char>,
    kind: KindView,
    created_at: u64,
    seq: u64,
) -> ChildView {
    ChildView {
        id: shell_id(created_at, seq),
        name: name,
        kind: kind,
        universe_path: universe_of(parent_path, name),
        parent_path: parent_path,
        ports: Seq::empty(),
        apis: kind_default_apis(kind),
        rooms: Seq::empty(),
        status: StatusView::Running,
        created_at: created_at,
        autonomy_level: 0,
        conservation_budget: 0,
        conservation_used: 0,
    }
}

/// The child that a spawn from template `t` under `name` creates: the
/// template's kind, ports, APIs, rooms, budget and autonomy level.
pub open spec fn child_from_template(
    parent_path: Seq<char>,
    name: Seq<char>,
    t: TemplateView,
    created_at: u64,
    seq: u64,
) -> ChildView {
    ChildView {
        id: shell_id(created_at, seq),
        name: name,
        kind: t.kind,
        universe_path: universe_of(parent_path, name),
        parent_path: parent_path,
        ports: t.default_ports,
        apis: t.default_apis,
        rooms: t.default_rooms,
        status: StatusView::Running,
        created_at: created_at,
        autonomy_level: t.autonomy_level,
        conservation_budget: t.default_budget,
        conservation_used: 0,
    }
}

/// `after` is `before` with child `c` added under the new name `name`.
pub open spec fn adds_child(before: SpawnView, after: SpawnView, name: Seq<char>, c: ChildView) -> bool {
    &&& !before.children.contains_key(name)
    &&& after == (SpawnView { children: before.children.insert(name, c), ..before })
}

/// `after` is `before` without its child named `name`.
pub open spec fn removes_child(before: SpawnView, after: SpawnView, name: Seq<char>) -> bool {
    &&& before.children.contains_key(name)
    &&& after == (SpawnView { children: before.children.remove(name), ..before })
}

impl ShellSpawn {
    /// No name occurs twice among the children, nor among the templates.
    pub open spec fn wf(&self) -> bool {
        &&& keys_distinct(child_entries(self.children@))
        &&& keys_distinct(template_entries(self.templates@))
    }

    /// Whether no name occurs twice among the children, nor among the templates;
    /// for spawners assembled from the public fields.
    pub fn is_well_formed(&self) -> (r: bool)
        ensures
            r == self.wf(),
    {
        let c = keys_are_distinct(&self.children);
        let t = keys_are_distinct(&self.templates);
        proof {
            let ce = child_entries(self.children@);
            let te = template_entries(self.templates@);
            assert(forall|i: int| 0 <= i < ce.len() ==> #[trigger] ce[i].0 == self.children@[i].0@);
            assert(forall|i: int| 0 <= i < te.len() ==> #[trigger] te[i].0 == self.templates@[i].0@);
            if !c {
                let (i, j) = choose|i: int, j: int|
                    0 <= i < self.children@.len() && 0 <= j < self.children@.len() && i != j
                        && #[trigger] self.children@[i].0@ == #[trigger] self.children@[j].0@;
                assert(ce[i].0 == ce[j].0);
            }
            if !t {
                let (i, j) = choose|i: int, j: int|
                    0 <= i < self.templates@.len() && 0 <= j < self.templates@.len() && i != j
                        && #[trigger] self.templates@[i].0@ == #[trigger] self.templates@[j].0@;
                assert(te[i].0 == te[j].0);
            }
        }
        c && t
    }

    /// A spawner for the parent at `parent_path`, with no children or templates.
    pub fn new(parent_path: &str) -> (r: Self)
        ensures
            r.wf(),
            r@ == (SpawnView {
                parent_path: parent_path@,
                children: Map::empty(),
                templates: Map::empty(),
            }),
    {
        let r = ShellSpawn {
            parent_path: String::from_str(parent_path),
            children: Vec::new(),
            templates: Vec::new(),
        };
        assert(child_entries(r.children@) =~= Seq::empty());
        assert(template_entries(r.templates@) =~= Seq::empty());
        r
    }

    /// Registers `template` under its name, replacing any template of that name.
    pub fn register_template(&mut self, template: ShellTemplate)
        requires
            old(self).wf(),
        ensures
            final(self).wf(),
            final(self)@ == (SpawnView {
                templates: old(self)@.templates.insert(template@.name, template@),
                ..old(self)@
            }),
    {
        let ghost tv = template@;
        let key = template.name.clone();
        let ghost before = template_entries(self.templates@);
        match find_key(&self.templates, &key) {
            Some(i) => {
                self.templates.set(i, (key, template));
                proof {
                    lemma_to_map_update(before, i as int, tv);
                    assert(template_entries(self.templates@) =~= before.update(
                        i as int,
                        (before[i as int].0, tv),
                    ));
                }
            },
            None => {
                self.templates.push((key, template));
                proof {
                    if has_key(before, tv.name) {
                        let j = choose|j: int| 0 <= j < before.len() && #[trigger] before[j].0 == tv.name;
                        assert(self.templates@[j].0@ == tv.name);
                    }
                    lemma_push_distinct(before, tv.name, tv);
                    assert(template_entries(self.templates@) =~= before.push((tv.name, tv)));
                }
            },
        }
    }

    /// The position of the child registered under `key`, if any.
    fn find_child(&self, key: &String) -> (r: Option<usize>)
        requires
            self.wf(),
        ensures
            match r {
                Some(i) => i < self.children@.len() && self.children@[i as int].0@ == key@
                    && self@.children.contains_key(key@),
                None => !self@.children.contains_key(key@) && !has_key(
                    child_entries(self.children@),
                    key@,
                ),
            },
    {
        let r = find_key(&self.children, key);
        proof {
            let e = child_entries(self.children@);
            lemma_to_map_dom(e, key@);
            match r {
                Some(i) => {
                    assert(e[i as int].0 == key@);
                },
                None => {
                    if has_key(e, key@) {
                        let j = choose|j: int| 0 <= j < e.len() && #[trigger] e[j].0 == key@;
                        assert(self.children@[j].0@ == key@);
                    }
                },
            }
        }
        r
    }

    /// Spawns a child `name` of `kind`, created at second `created_at` and
    /// numbered `seq`, granted the kind's default APIs and `Running`.
    /// Refused with `NameExists(name)` when a child of that name exists.
    pub fn spawn(&mut self, kind: ShellKind, name: &str, created_at: u64, seq: u64) -> (r: Result<
        ChildShell,
        SpawnError,
    >)
        requires
            old(self).wf(),
        ensures
            final(self).wf(),
            match r {
                Ok(c) => {
                    &&& adds_child(old(self)@, final(self)@, name@, c@)
                    &&& c@ == spawned_child(old(self)@.parent_path, name@, kind@, created_at, seq)
                    &&& c@.status == StatusView::Running
                    &&& c@.name == name@
                    &&& c@.kind == kind@
                    &&& c@.universe_path == old(self)@.parent_path + "/"@ + name@
                    &&& c@.apis == kind_default_apis(kind@)
                    &&& final(self)@.children[name@] == c@
                },
                Err(e) => {
                    &&& old(self)@.children.contains_key(name@)
                    &&& e@ == ErrorView::NameExists(name@)
                    &&& final(self)@ == old(self)@
                },
            },
    {
        let key = String::from_str(name);
        if self.find_child(&key).is_some() {
            return Err(SpawnError::NameExists(key));
        }
        let apis = kind.default_apis();
        let mut child = ChildShell::new(name, kind, self.parent_path.as_str(), created_at, seq);
        child.apis = apis;
        child.status = ShellStatus::Running;
        let ghost cv = child@;
        let ghost before = child_entries(self.children@);
        self.children.push((key, child.clone()));
        proof {
            lemma_push_distinct(before, name@, cv);
            assert(child_entries(self.children@) =~= before.push((name@, cv)));
        }
        Ok(child)
    }

    /// Spawns a child `name` from the template registered as `template_name`,
    /// created at second `created_at` and numbered `seq`, with the template's
    /// defaults and `Running`. Refused with `TemplateNotFound(template_name)`
    /// when no such template is registered, else with `NameExists(name)` when a
    /// child of that name exists.
    pub fn spawn_from_template(
        &mut self,
        template_name: &str,
        name: &str,
        created_at: u64,
        seq: u64,
    ) -> (r: Result<ChildShell, SpawnError>)
        requires
            old(self).wf(),
        ensures
            final(self).wf(),
            match r {
                Ok(c) => {
                    &&& old(self)@.templates.contains_key(template_name@)
                    &&& adds_child(old(self)@, final(self)@, name@, c@)
                    &&& c@ == child_from_template(
                        old(self)@.parent_path,
                        name@,
                        old(self)@.templates[template_name@],
                        created_at,
                        seq,
                    )
                    &&& c@.status == StatusView::Running
                    &&& c@.name == name@
                    &&& c@.universe_path == old(self)@.parent_path + "/"@ + name@
                    &&& c@.kind == old(self)@.templates[template_name@].kind
                    &&& c@.ports == old(self)@.templates[template_name@].default_ports
                    &&& c@.apis == old(self)@.templates[template_name@].default_apis
                    &&& c@.rooms == old(self)@.templates[template_name@].default_rooms
                    &&& c@.conservation_budget == old(self)@.templates[template_name@].default_budget
                    &&& c@.autonomy_level == old(self)@.templates[template_name@].autonomy_level
                    &&& final(self)@.children[name@] == c@
                },
                Err(e) => {
                    &&& final(self)@ == old(self)@
                    &&& if !old(self)@.templates.contains_key(template_name@) {
                        e@ == ErrorView::TemplateNotFound(template_name@)
                    } else {
                        &&& old(self)@.children.contains_key(name@)
                        &&& e@ == ErrorView::NameExists(name@)
                    }
                },
            },
    {
        let tkey = String::from_str(template_name);
        let ti = match find_key(&self.templates, &tkey) {
            Some(i) => i,
            None => {
                proof {
                    let e = template_entries(self.templates@);
                    lemma_to_map_dom(e, template_name@);
                    if has_key(e, template_name@) {
                        let j = choose|j: int| 0 <= j < e.len() && #[trigger] e[j].0 == template_name@;
                        assert(self.templates@[j].0@ == template_name@);
                    }
                }
                return Err(SpawnError::TemplateNotFound(tkey));
            },
        };
        proof {
            let e = template_entries(self.templates@);
            assert(e[ti as int].0 == template_name@);
            lemma_to_map_value(e, ti as int);
        }
        let template = self.templates[ti].1.clone();
        let key = String::from_str(name);
        if self.find_child(&key).is_some() {
            return Err(SpawnError::NameExists(key));
        }
        let mut child = ChildShell::new(name, template.kind, self.parent_path.as_str(), created_at, seq);
        child.ports = template.default_ports;
        child.apis = template.default_apis;
        child.rooms = template.default_rooms;
        child.conservation_budget = template.default_budget;
        child.autonomy_level = template.autonomy_level;
        child.status = ShellStatus::Running;
        let ghost cv = child@;
        let ghost before = child_entries(self.children@);
        self.children.push((key, child.clone()));
        proof {
            lemma_push_distinct(before, name@, cv);
            assert(child_entries(self.children@) =~= before.push((name@, cv)));
        }
        Ok(child)
    }

    /// The child registered as `name`, if any.
    pub fn get_child(&self, name: &str) -> (r: Option<&ChildShell>)
        requires
            self.wf(),
        ensures
            match r {
                Some(c) => self@.children.contains_key(name@) && c@ == self@.children[name@],
                None => !self@.children.contains_key(name@),
            },
    {
        let key = String::from_str(name);
        match self.find_child(&key) {
            Some(i) => {
                proof {
                    lemma_to_map_value(child_entries(self.children@), i as int);
                }
                Some(&self.children[i].1)
            },
            None => None,
        }
    }

    /// Mutable access to the child registered as `name`, if any; whatever is
    /// written through it becomes that child, under the same name.
    pub fn get_child_mut(&mut self, name: &str) -> (r: Option<&mut ChildShell>)
        requires
            old(self).wf(),
        ensures
            final(self).wf(),
            match r {
                Some(c) => {
                    &&& old(self)@.children.contains_key(name@)
                    &&& c@ == old(self)@.children[name@]
                    &&& final(self)@ == (SpawnView {
                        children: old(self)@.children.insert(name@, final(c)@),
                        ..old(self)@
                    })
                },
                None => {
                    &&& !old(self)@.children.contains_key(name@)
                    &&& final(self)@ == old(self)@
                },
            },
    {
        let key = String::from_str(name);
        match self.find_child(&key) {
            Some(i) => {
                proof {
                    lemma_to_map_value(child_entries(self.children@), i as int);
                }
                let ghost before = child_entries(self.children@);
                let ghost old_children = self.children@;
                let entry = &mut self.children[i];
                let c = &mut entry.1;
                proof {
                    lemma_to_map_update(before, i as int, (*final(c))@);
                    assert(child_entries(
                        old_children.update(i as int, (old_children[i as int].0, *final(c))),
                    ) =~= before.update(i as int, (before[i as int].0, (*final(c))@)));
                }
                Some(c)
            },
            None => None,
        }
    }

    /// Every live child, once each, in the order they were spawned.
    pub fn list_children(&self) -> (r: Vec<&ChildShell>)
        requires
            self.wf(),
        ensures
            r@.len() == self.children@.len(),
            r@.len() == self@.children.len(),
            forall|i: int| 0 <= i < r@.len() ==> *r@[i] == self.children@[i].1,
            forall|i: int|
                0 <= i < r@.len() ==> {
                    &&& self@.children.contains_key(#[trigger] self.children@[i].0@)
                    &&& self@.children[self.children@[i].0@] == r@[i]@
                },
            forall|k: Seq<char>|
                #[trigger] self@.children.contains_key(k) ==> exists|i: int|
                    0 <= i < r@.len() && #[trigger] self.children@[i].0@ == k,
    {
        let mut r: Vec<&ChildShell> = Vec::new();
        let mut i: usize = 0;
        while i < self.children.len()
            invariant
                i <= self.children@.len(),
                r@.len() == i,
                forall|j: int| 0 <= j < i ==> *r@[j] == self.children@[j].1,
            decreases self.children.len() - i,
        {
            r.push(&self.children[i].1);
            i = i + 1;
        }
        proof {
            let e = child_entries(self.children@);
            lemma_to_map_len(e);
            assert forall|j: int| 0 <= j < r@.len() implies {
                &&& self@.children.contains_key(#[trigger] self.children@[j].0@)
                &&& self@.children[self.children@[j].0@] == r@[j]@
            } by {
                lemma_to_map_value(e, j);
            }
            assert forall|k: Seq<char>| #[trigger] self@.children.contains_key(k) implies exists|j: int|
                0 <= j < r@.len() && #[trigger] self.children@[j].0@ == k by {
                lemma_to_map_dom(e, k);
                let j = choose|j: int| 0 <= j < e.len() && #[trigger] e[j].0 == k;
                assert(self.children@[j].0@ == k);
            }
        }
        r
    }

    /// The number of live children.
    pub fn child_count(&self) -> (r: usize)
        requires
            self.wf(),
        ensures
            r == self@.children.len(),
    {
        proof {
            lemma_to_map_len(child_entries(self.children@));
        }
        self.children.len()
    }

    /// Tears down the child registered as `name`. Refused with
    /// `NameExists("<name>: not found")` when there is none.
    pub fn destroy(&mut self, name: &str) -> (r: Result<(), SpawnError>)
        requires
            old(self).wf(),
        ensures
            final(self).wf(),
            match r {
                Ok(()) => removes_child(old(self)@, final(self)@, name@),
                Err(e) => {
                    &&& !old(self)@.children.contains_key(name@)
                    &&& e@ == ErrorView::NameExists(name@ + ": not found"@)
                    &&& final(self)@ == old(self)@
                },
            },
    {
        let key = String::from_str(name);
        match self.find_child(&key) {
            Some(i) => {
                let ghost before = child_entries(self.children@);
                let (_, mut child) = self.children.remove(i);
                child.status = ShellStatus::Destroyed;
                proof {
                    lemma_to_map_remove(before, i as int);
                    assert(child_entries(self.children@) =~= before.remove(i as int));
                }
                Ok(())
            },
            None => {
                let mut msg = key;
                msg.append(": not found");
                Err(SpawnError::NameExists(msg))
            },
        }
    }
}

impl Clone for ShellSpawn {
    fn clone(&self) -> (r: Self)
        ensures
            r@ == self@,
            r.wf() == self.wf(),
    {
        let mut children: Vec<(String, ChildShell)> = Vec::new();
        let mut i: usize = 0;
        while i < self.children.len()
            invariant
                i <= self.children@.len(),
                child_entries(children@) == child_entries(self.children@).take(i as int),
            decreases self.children.len() - i,
        {
            let ghost before = children@;
            children.push((self.children[i].0.clone(), self.children[i].1.clone()));
            assert(child_entries(children@) =~= child_entries(before).push(
                child_entries(self.children@)[i as int],
            ));
            assert(child_entries(self.children@).take(i + 1) =~= child_entries(self.children@).take(
                i as int,
            ).push(child_entries(self.children@)[i as int]));
            i = i + 1;
        }
        let mut templates: Vec<(String, ShellTemplate)> = Vec::new();
        let mut j: usize = 0;
        while j < self.templates.len()
            invariant
                j <= self.templates@.len(),
                template_entries(templates@) == template_entries(self.templates@).take(j as int),
            decreases self.templates.len() - j,
        {
            let ghost before = templates@;
            templates.push((self.templates[j].0.clone(), self.templates[j].1.clone()));
            assert(template_entries(templates@) =~= template_entries(before).push(
                template_entries(self.templates@)[j as int],
            ));
            assert(template_entries(self.templates@).take(j + 1) =~= template_entries(
                self.templates@,
            ).take(j as int).push(template_entries(self.templates@)[j as int]));
            j = j + 1;
        }
        assert(child_entries(children@) =~= child_entries(self.children@));
        assert(template_entries(templates@) =~= template_entries(self.templates@));
        ShellSpawn { parent_path: self.parent_path.clone(), children, templates }
    }
}

} // verus!
