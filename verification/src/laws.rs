//! Properties of the library that span several calls or hold of every input.
use vstd::prelude::*;

use crate::child::{
    describe_text, differs_from, in_subtree, may_access, shell_id, universe_of, with_unique, without, ChildShell, ChildView,
};
use crate::kind::{kind_is_sandboxed, kind_label, status_text, KindView, StatusView};
use crate::registry::lemma_to_map_finite;
use crate::spawn::{
    adds_child, child_entries, child_from_template, removes_child, spawned_child, ShellSpawn,
};
use crate::template::TemplateView;
use crate::text::{decimal, digit_char, join};

verus! {

/// The number a digit character stands for.
pub open spec fn digit_value(c: char) -> nat {
    if c == '1' {
        1
    } else if c == '2' {
        2
    } else if c == '3' {
        3
    } else if c == '4' {
        4
    } else if c == '5' {
        5
    } else if c == '6' {
        6
    } else if c == '7' {
        7
    } else if c == '8' {
        8
    } else if c == '9' {
        9
    } else {
        0
    }
}

/// The number a string of decimal digits stands for.
pub open spec fn decimal_value(s: Seq<char>) -> nat
    decreases s.len(),
{
    if s.len() == 0 {
        0
    } else {
        decimal_value(s.drop_last()) * 10 + digit_value(s.last())
    }
}

/// Each digit character reads back as its digit.
proof fn lemma_digit_roundtrip(d: nat)
    requires
        d < 10,
    ensures
        digit_value(digit_char(d)) == d,
        digit_char(d) != '-',
{
}

/// Two strings split at a separator that neither first part holds are equal
/// only when both parts are.
proof fn lemma_split_at_separator(a1: Seq<char>, b1: Seq<char>, a2: Seq<char>, b2: Seq<char>, sep: char)
    requires
        a1 + seq![sep] + b1 == a2 + seq![sep] + b2,
        forall|i: int| 0 <= i < a1.len() ==> a1[i] != sep,
        forall|i: int| 0 <= i < a2.len() ==> a2[i] != sep,
    ensures
        a1 == a2,
        b1 == b2,
{
    let x = a1 + seq![sep] + b1;
    let y = a2 + seq![sep] + b2;
    if a1.len() < a2.len() {
        assert(x[a1.len() as int] == sep);
        assert(y[a1.len() as int] == a2[a1.len() as int]);
    }
    if a2.len() < a1.len() {
        assert(y[a2.len() as int] == sep);
        assert(x[a2.len() as int] == a1[a2.len() as int]);
    }
    assert(a1 =~= x.subrange(0, a1.len() as int));
    assert(a2 =~= y.subrange(0, a2.len() as int));
    assert(b1 =~= x.subrange(a1.len() + 1int, x.len() as int));
    assert(b2 =~= y.subrange(a2.len() + 1int, y.len() as int));
}

/// Reading back the decimal rendering of `n` gives `n`; the rendering holds
/// digits only.
pub proof fn lemma_decimal_roundtrip(n: nat)
    ensures
        decimal_value(decimal(n)) == n,
        decimal(n).len() > 0,
        forall|i: int| 0 <= i < decimal(n).len() ==> #[trigger] decimal(n)[i] != '-',
    decreases n,
{
    lemma_digit_roundtrip(n % 10);
    if n >= 10 {
        lemma_decimal_roundtrip(n / 10);
        let d = decimal(n);
        assert(d.drop_last() =~= decimal(n / 10));
        assert(d.last() == digit_char(n % 10));
        assert((n / 10) * 10 + n % 10 == n);
        assert(decimal_value(d) == decimal_value(d.drop_last()) * 10 + digit_value(d.last()));
        assert forall|i: int| 0 <= i < d.len() implies #[trigger] d[i] != '-' by {
            if i < d.len() - 1 {
                assert(d[i] == decimal(n / 10)[i]);
            }
        }
    } else {
        let d = decimal(n);
        assert(d.drop_last() =~= Seq::<char>::empty());
        assert(decimal_value(d) == decimal_value(d.drop_last()) * 10 + digit_value(d.last()));
        assert(decimal_value(d.drop_last()) == 0);
    }
}

/// Shells created at different seconds, or numbered differently, have
/// different identifiers.
pub proof fn law_shell_ids_distinct(created_a: u64, seq_a: u64, created_b: u64, seq_b: u64)
    requires
        created_a != created_b || seq_a != seq_b,
    ensures
        shell_id(created_a, seq_a) != shell_id(created_b, seq_b),
{
    reveal_strlit("-");
    let p = "shell-"@;
    let da = decimal(created_a as nat);
    let db = decimal(created_b as nat);
    let sa = decimal(seq_a as nat);
    let sb = decimal(seq_b as nat);
    let xa = da + seq!['-'] + sa;
    let xb = db + seq!['-'] + sb;
    lemma_decimal_roundtrip(created_a as nat);
    lemma_decimal_roundtrip(created_b as nat);
    lemma_decimal_roundtrip(seq_a as nat);
    lemma_decimal_roundtrip(seq_b as nat);
    assert(shell_id(created_a, seq_a) =~= p + xa);
    assert(shell_id(created_b, seq_b) =~= p + xb);
    if shell_id(created_a, seq_a) == shell_id(created_b, seq_b) {
        assert(xa =~= (p + xa).subrange(p.len() as int, (p + xa).len() as int));
        assert(xb =~= (p + xb).subrange(p.len() as int, (p + xb).len() as int));
        lemma_split_at_separator(da, sa, db, sb, '-');
    }
}

/// A shell may touch its own universe path and everything below it.
pub proof fn law_own_subtree_accessible(c: ChildShell, rest: Seq<char>)
    ensures
        may_access(c@, c@.universe_path),
        may_access(c@, c@.universe_path + "/"@ + rest),
{
    let root = c@.universe_path + "/"@;
    assert((root + rest).subrange(0, root.len() as int) =~= root);
    assert(c@.universe_path + "/"@ + rest == root + rest);
}

/// A sandboxed child spawned under `parent` cannot touch its parent's path.
pub proof fn law_parent_hidden(c: ChildShell, parent: Seq<char>, name: Seq<char>)
    requires
        kind_is_sandboxed(c@.kind),
        c@.universe_path == universe_of(parent, name),
    ensures
        !may_access(c@, parent),
{
    reveal_strlit("/");
    assert(universe_of(parent, name).len() > parent.len());
}

/// A sandboxed child `name` of `parent` cannot touch anything in the subtree
/// of a different sibling `sibling`, when neither name holds a `/`.
pub proof fn law_sibling_hidden(
    c: ChildShell,
    parent: Seq<char>,
    name: Seq<char>,
    sibling: Seq<char>,
    rest: Seq<char>,
)
    requires
        kind_is_sandboxed(c@.kind),
        c@.universe_path == universe_of(parent, name),
        !name.contains('/'),
        !sibling.contains('/'),
        name != sibling,
    ensures
        !may_access(c@, universe_of(parent, sibling)),
        !may_access(c@, universe_of(parent, sibling) + "/"@ + rest),
{
    reveal_strlit("/");
    assert("/"@ =~= seq!['/']);
    lemma_sibling_outside(parent, name, sibling, seq![]);
    lemma_sibling_outside(parent, name, sibling, seq!['/'] + rest);
    assert(universe_of(parent, sibling) + seq![] =~= universe_of(parent, sibling));
    assert(universe_of(parent, sibling) + "/"@ + rest =~= universe_of(parent, sibling) + (seq!['/']
        + rest));
}

/// The path `parent/sibling` followed by `tail`, where `tail` is empty or starts
/// with `/`, is outside the subtree of `parent/name`.
proof fn lemma_sibling_outside(
    parent: Seq<char>,
    name: Seq<char>,
    sibling: Seq<char>,
    tail: Seq<char>,
)
    requires
        "/"@ == seq!['/'],
        !name.contains('/'),
        !sibling.contains('/'),
        name != sibling,
        tail.len() == 0 || tail[0] == '/',
    ensures
        !in_subtree(universe_of(parent, name), universe_of(parent, sibling) + tail),
{
    let u = universe_of(parent, name);
    let path = universe_of(parent, sibling) + tail;
    let off: int = parent.len() + 1int;
    assert(forall|i: int| 0 <= i < name.len() ==> u[off + i] == name[i]);
    assert(forall|i: int| 0 <= i < sibling.len() ==> path[off + i] == sibling[i]);
    assert(tail.len() > 0 ==> path[off + sibling.len() as int] == '/');
    assert(path.len() == off + sibling.len() + tail.len());
    if path == u {
        if name.len() == sibling.len() {
            assert(tail.len() == 0);
            assert forall|i: int| 0 <= i < name.len() implies name[i] == sibling[i] by {
                assert(u[off + i] == path[off + i]);
            }
            assert(name =~= sibling);
        } else if name.len() < sibling.len() {
            assert(path.len() > u.len());
        } else {
            let i = sibling.len() as int;
            assert(u[off + i] == name[i]);
            assert(name.contains('/'));
        }
    }
    let root = u + "/"@;
    if root.is_prefix_of(path) {
        assert(root[off + name.len() as int] == '/');
        if name.len() < sibling.len() {
            let i = name.len() as int;
            assert(path[off + i] == root[off + i]);
            assert(sibling[i] == '/');
            assert(sibling.contains('/'));
        } else if name.len() > sibling.len() {
            let i = sibling.len() as int;
            assert(root[off + i] == name[i]);
            assert(path[off + i] == '/');
            assert(name.contains('/'));
        } else {
            assert forall|i: int| 0 <= i < name.len() implies name[i] == sibling[i] by {
                assert(root[off + i] == path[off + i]);
                assert(root[off + i] == u[off + i]);
            }
            assert(name =~= sibling);
        }
    }
}

/// Granting the same capability twice is the same as granting it once.
pub proof fn law_grant_idempotent(list: Seq<Seq<char>>, item: Seq<char>)
    ensures
        with_unique(with_unique(list, item), item) == with_unique(list, item),
{
    if !list.contains(item) {
        assert(list.push(item)[list.len() as int] == item);
    }
}

/// After a grant the capability is held, and whatever was held before still is.
pub proof fn law_grant_holds(list: Seq<Seq<char>>, item: Seq<char>, other: Seq<char>)
    ensures
        with_unique(list, item).contains(item),
        list.contains(other) ==> with_unique(list, item).contains(other),
{
    if !list.contains(item) {
        assert(list.push(item)[list.len() as int] == item);
        if list.contains(other) {
            let i = choose|i: int| 0 <= i < list.len() && list[i] == other;
            assert(list.push(item)[i] == other);
        }
    }
}

/// Granting keeps a list free of repeats.
pub proof fn law_grant_keeps_distinct(list: Seq<Seq<char>>, item: Seq<char>)
    requires
        list.no_duplicates(),
    ensures
        with_unique(list, item).no_duplicates(),
{
    if !list.contains(item) {
        let l = list.push(item);
        assert forall|i: int, j: int| 0 <= i < l.len() && 0 <= j < l.len() && i != j implies l[i]
            != l[j] by {
            if i == list.len() {
                assert(list[j] == l[j]);
            } else if j == list.len() {
                assert(list[i] == l[i]);
            }
        }
    }
}

/// Revoking keeps a list free of repeats.
pub proof fn law_revoke_keeps_distinct(list: Seq<Seq<char>>, item: Seq<char>)
    requires
        list.no_duplicates(),
    ensures
        without(list, item).no_duplicates(),
    decreases list.len(),
{
    reveal(Seq::filter);
    if list.len() > 0 {
        let dl = list.drop_last();
        assert forall|i: int, j: int| 0 <= i < dl.len() && 0 <= j < dl.len() && i != j implies dl[i]
            != dl[j] by {
            assert(dl[i] == list[i] && dl[j] == list[j]);
        }
        law_revoke_keeps_distinct(dl, item);
        let f = differs_from(item);
        let sub = dl.filter(f);
        if f(list.last()) {
            if sub.contains(list.last()) {
                dl.lemma_filter_contains_rev(f, list.last());
                let k = choose|k: int| 0 <= k < dl.len() && dl[k] == list.last();
                assert(list[k] == list[list.len() - 1]);
            }
            let l = sub.push(list.last());
            assert forall|i: int, j: int| 0 <= i < l.len() && 0 <= j < l.len() && i != j implies l[i]
                != l[j] by {
                if i == sub.len() {
                    assert(l[j] == sub[j]);
                } else if j == sub.len() {
                    assert(l[i] == sub[i]);
                } else {
                    assert(l[i] == sub[i] && l[j] == sub[j]);
                }
            }
        }
    }
}

/// After a revoke the capability is gone, and every other one is held exactly
/// when it was held before.
pub proof fn law_revoke_removes(list: Seq<Seq<char>>, item: Seq<char>, other: Seq<char>)
    ensures
        !without(list, item).contains(item),
        other != item ==> (without(list, item).contains(other) <==> list.contains(other)),
{
    broadcast use vstd::seq_lib::group_filter_ensures;

    let f = differs_from(item);
    if without(list, item).contains(item) {
        let i = choose|i: int| 0 <= i < without(list, item).len() && without(list, item)[i] == item;
        assert(f(list.filter(f)[i]));
    }
    if other != item && list.contains(other) {
        let i = choose|i: int| 0 <= i < list.len() && list[i] == other;
        assert(list.filter(f).contains(list[i]));
    }
    if without(list, item).contains(other) {
        list.lemma_filter_contains_rev(f, other);
    }
}

/// Granting a capability that was not held and then revoking it gives back the
/// original list.
pub proof fn law_grant_then_revoke(list: Seq<Seq<char>>, item: Seq<char>)
    requires
        !list.contains(item),
    ensures
        without(with_unique(list, item), item) == list,
{
    reveal(Seq::filter);
    let l2 = list.push(item);
    assert(l2.drop_last() =~= list);
    lemma_filter_keeps_all(list, item);
}

/// Filtering out an absent item keeps the list as it is.
proof fn lemma_filter_keeps_all(list: Seq<Seq<char>>, item: Seq<char>)
    requires
        !list.contains(item),
    ensures
        without(list, item) == list,
    decreases list.len(),
{
    reveal(Seq::filter);
    if list.len() > 0 {
        let dl = list.drop_last();
        if dl.contains(item) {
            let i = choose|i: int| 0 <= i < dl.len() && dl[i] == item;
            assert(list[i] == item);
        }
        lemma_filter_keeps_all(dl, item);
        assert(list.last() != item);
        assert(dl.push(list.last()) =~= list);
    }
}

/// A spawn followed by a destroy of the same name leaves the spawner as it
/// was before the spawn.
pub proof fn law_spawn_then_destroy(
    before: ShellSpawn,
    spawned: ShellSpawn,
    destroyed: ShellSpawn,
    name: Seq<char>,
    c: ChildView,
)
    requires
        before.wf(),
        adds_child(before@, spawned@, name, c),
        removes_child(spawned@, destroyed@, name),
    ensures
        destroyed@ == before@,
{
    assert(before@.children.insert(name, c).remove(name) =~= before@.children);
}

/// After a spawn the new child is found under its name, every other child is
/// unchanged, and there is one child more.
pub proof fn law_spawn_then_lookup(
    before: ShellSpawn,
    after: ShellSpawn,
    name: Seq<char>,
    c: ChildView,
    other: Seq<char>,
)
    requires
        before.wf(),
        adds_child(before@, after@, name, c),
    ensures
        after@.children.contains_key(name),
        after@.children[name] == c,
        other != name ==> after@.children.contains_key(other) == before@.children.contains_key(
            other,
        ) && after@.children[other] == before@.children[other],
        after@.children.len() == before@.children.len() + 1,
        after@.templates == before@.templates,
{
    lemma_to_map_finite(child_entries(before.children@));
}

/// After a destroy the child is gone, every other child is unchanged, and there
/// is one child fewer.
pub proof fn law_destroy_then_lookup(
    before: ShellSpawn,
    after: ShellSpawn,
    name: Seq<char>,
    other: Seq<char>,
)
    requires
        before.wf(),
        removes_child(before@, after@, name),
    ensures
        !after@.children.contains_key(name),
        other != name ==> after@.children.contains_key(other) == before@.children.contains_key(
            other,
        ) && after@.children[other] == before@.children[other],
        after@.children.len() == before@.children.len() - 1,
        after@.templates == before@.templates,
{
    lemma_to_map_finite(child_entries(before.children@));
}

/// Every child spawned directly is started, lives at `parent/name`, and holds
/// the read API; a directly spawned custom shell holds exactly the read API.
pub proof fn law_direct_spawn_child(
    parent: Seq<char>,
    name: Seq<char>,
    kind: KindView,
    created_at: u64,
    seq: u64,
)
    ensures
        spawned_child(parent, name, kind, created_at, seq).status == StatusView::Running,
        spawned_child(parent, name, kind, created_at, seq).name == name,
        spawned_child(parent, name, kind, created_at, seq).kind == kind,
        spawned_child(parent, name, kind, created_at, seq).universe_path == parent + seq!['/']
            + name,
        spawned_child(parent, name, kind, created_at, seq).apis.len() >= 1,
        spawned_child(parent, name, kind, created_at, seq).apis[0] == "read"@,
        kind is Custom ==> spawned_child(parent, name, kind, created_at, seq).apis == seq![
            "read"@,
        ],
{
    reveal_strlit("/");
    assert("/"@ =~= seq!['/']);
}

/// Every child spawned from a template is started, lives at `parent/name` (the
/// name it is spawned under, not the template's), and takes the template's
/// kind, ports, APIs, rooms, budget and autonomy level.
pub proof fn law_template_spawn_child(
    parent: Seq<char>,
    name: Seq<char>,
    t: TemplateView,
    created_at: u64,
    seq: u64,
)
    ensures
        child_from_template(parent, name, t, created_at, seq).status == StatusView::Running,
        child_from_template(parent, name, t, created_at, seq).name == name,
        child_from_template(parent, name, t, created_at, seq).universe_path == parent + seq!['/']
            + name,
        child_from_template(parent, name, t, created_at, seq).kind == t.kind,
        child_from_template(parent, name, t, created_at, seq).ports == t.default_ports,
        child_from_template(parent, name, t, created_at, seq).apis == t.default_apis,
        child_from_template(parent, name, t, created_at, seq).rooms == t.default_rooms,
        child_from_template(parent, name, t, created_at, seq).conservation_budget
            == t.default_budget,
        child_from_template(parent, name, t, created_at, seq).autonomy_level == t.autonomy_level,
{
    reveal_strlit("/");
    assert("/"@ =~= seq!['/']);
}

/// Children spawned under different names get different universe paths,
/// whether spawned directly or from templates, and even from one template.
pub proof fn law_universes_distinct(
    parent: Seq<char>,
    name_a: Seq<char>,
    name_b: Seq<char>,
    t_a: TemplateView,
    t_b: TemplateView,
    kind_a: KindView,
    kind_b: KindView,
    created_at: u64,
    seq_a: u64,
    seq_b: u64,
)
    requires
        name_a != name_b,
    ensures
        child_from_template(parent, name_a, t_a, created_at, seq_a).universe_path
            != child_from_template(parent, name_b, t_b, created_at, seq_b).universe_path,
        spawned_child(parent, name_a, kind_a, created_at, seq_a).universe_path != spawned_child(
            parent,
            name_b,
            kind_b,
            created_at,
            seq_b,
        ).universe_path,
        child_from_template(parent, name_a, t_a, created_at, seq_a).universe_path
            != spawned_child(parent, name_b, kind_b, created_at, seq_b).universe_path,
{
    law_direct_spawn_child(parent, name_a, kind_a, created_at, seq_a);
    law_direct_spawn_child(parent, name_b, kind_b, created_at, seq_b);
    law_template_spawn_child(parent, name_a, t_a, created_at, seq_a);
    law_template_spawn_child(parent, name_b, t_b, created_at, seq_b);
    let pre = parent + seq!['/'];
    let ua = parent + seq!['/'] + name_a;
    let ub = parent + seq!['/'] + name_b;
    if ua == ub {
        assert(name_a =~= ua.subrange(pre.len() as int, ua.len() as int));
        assert(name_b =~= ub.subrange(pre.len() as int, ub.len() as int));
    }
}

/// Hermes, Ensign and every custom shell may touch every path.
pub proof fn law_unsandboxed_reach_everything(c: ChildShell, path: Seq<char>)
    requires
        c@.kind is Hermes || c@.kind is Ensign || c@.kind is Custom,
    ensures
        may_access(c@, path),
{
}

/// ZeroClaw and CUDAClaw shells may touch exactly their universe path and the
/// paths below it.
pub proof fn law_sandboxed_reach_exactly_subtree(c: ChildShell, path: Seq<char>)
    requires
        c@.kind is ZeroClaw || c@.kind is CUDAClaw,
    ensures
        may_access(c@, path) <==> (path == c@.universe_path || (c@.universe_path + seq![
            '/',
        ]).is_prefix_of(path)),
{
    reveal_strlit("/");
    assert("/"@ =~= seq!['/']);
}

/// The summary ends with the number of ports, the APIs joined by commas, the
/// number of rooms, the two budget texts and whether the shell is sandboxed.
pub proof fn law_describe_tail(c: ChildShell, used: Seq<char>, budget: Seq<char>)
    ensures
        (" | ports: "@ + decimal(c@.ports.len()) + " | apis: "@ + join(c@.apis, ","@)
            + " | rooms: "@ + decimal(c@.rooms.len()) + " | budget: "@ + used + "/"@ + budget
            + " | sandboxed: "@ + (if c@.kind is ZeroClaw || c@.kind is CUDAClaw {
            "true"@
        } else {
            "false"@
        })).is_suffix_of(describe_text(c@, used, budget)),
{
    let v = c@;
    let head = "["@ + v.id + "] "@ + v.name + " ("@ + kind_label(v.kind) + ") \u{2014} "@
        + status_text(v.status);
    let flag = if v.kind is ZeroClaw || v.kind is CUDAClaw {
        "true"@
    } else {
        "false"@
    };
    let tail = " | ports: "@ + decimal(v.ports.len()) + " | apis: "@ + join(v.apis, ","@)
        + " | rooms: "@ + decimal(v.rooms.len()) + " | budget: "@ + used + "/"@ + budget
        + " | sandboxed: "@ + flag;
    assert(describe_text(v, used, budget) =~= head + tail);
    let d = head + tail;
    assert(tail =~= d.subrange(head.len() as int, d.len() as int));
}

/// The summary starts with the bracketed identifier, the name, the kind's label
/// in parentheses and the status text.
pub proof fn law_describe_head(c: ChildShell, used: Seq<char>, budget: Seq<char>)
    ensures
        ("["@ + c@.id + "] "@ + c@.name + " ("@ + kind_label(c@.kind) + ") \u{2014} "@
            + status_text(c@.status)).is_prefix_of(describe_text(c@, used, budget)),
{
    let v = c@;
    let head = "["@ + v.id + "] "@ + v.name + " ("@ + kind_label(v.kind) + ") \u{2014} "@
        + status_text(v.status);
    let tail = " | ports: "@ + decimal(v.ports.len()) + " | apis: "@ + join(v.apis, ","@)
        + " | rooms: "@ + decimal(v.rooms.len()) + " | budget: "@ + used + "/"@ + budget
        + " | sandboxed: "@ + (if kind_is_sandboxed(v.kind) {
        "true"@
    } else {
        "false"@
    });
    assert(describe_text(v, used, budget) =~= head + tail);
    let d = head + tail;
    assert(head =~= d.subrange(0, head.len() as int));
}

} // verus!
