//! Laws of the RAM filesystem model across operations: names stay unique
//! within a directory, and an entry that was deleted is no longer found.

use vstd::prelude::*;
use crate::kernel::drivers::filesystem::{
    add_entry, create_error, delete_error, directory_model, find_child, initial_ram_model, insert_pos,
    last_slash, lookup_spec, path_components, ram_create, ram_delete, ram_wf, remove_child, remove_entry, scan_path,
    split_path_spec, step, trim_trailing_slashes, walk, written_model, write_error, open_directory_outcome,
    open_file_outcome, entry_deleted, mutation_gate, Filesystem, InodeModel, RamModel,
};

verus! {

/// No two entries of a listing share a name.
pub open spec fn distinct_names(c: Seq<(Seq<char>, u64)>) -> bool {
    forall|a: int, b: int| #![trigger c[a], c[b]] 0 <= a < c.len() && 0 <= b < c.len() && a != b ==> c[a].0 != c[b].0
}

/// Every directory listing of the model has distinct names.
pub open spec fn names_unique(m: RamModel) -> bool {
    forall|i: int|
        0 <= i < m.inodes.len() && (#[trigger] m.inodes[i]).children is Some ==> distinct_names(
            m.inodes[i].children.unwrap(),
        )
}

proof fn lemma_find_none(c: Seq<(Seq<char>, u64)>, name: Seq<char>)
    requires
        forall|j: int| 0 <= j < c.len() ==> (#[trigger] c[j]).0 != name,
    ensures
        find_child(c, name) is None,
    decreases c.len(),
{
    if c.len() > 0 {
        assert(c[0].0 != name);
        assert forall|j: int| 0 <= j < c.drop_first().len() implies (#[trigger] c.drop_first()[j]).0 != name by {
            assert(c.drop_first()[j] == c[j + 1]);
        }
        lemma_find_none(c.drop_first(), name);
    }
}

proof fn lemma_find_some(c: Seq<(Seq<char>, u64)>, name: Seq<char>, j: int)
    requires
        0 <= j < c.len(),
        c[j].0 == name,
    ensures
        find_child(c, name) is Some,
    decreases c.len(),
{
    if c[0].0 != name {
        assert(c.drop_first()[j - 1] == c[j]);
        lemma_find_some(c.drop_first(), name, j - 1);
    }
}

proof fn lemma_remove_absent(c: Seq<(Seq<char>, u64)>, name: Seq<char>)
    requires
        forall|j: int| 0 <= j < c.len() ==> (#[trigger] c[j]).0 != name,
    ensures
        remove_child(c, name) == c,
    decreases c.len(),
{
    if c.len() > 0 {
        assert(c[0].0 != name);
        assert forall|j: int| 0 <= j < c.drop_first().len() implies (#[trigger] c.drop_first()[j]).0 != name by {
            assert(c.drop_first()[j] == c[j + 1]);
        }
        lemma_remove_absent(c.drop_first(), name);
        assert(seq![c[0]] + c.drop_first() =~= c);
    }
}

proof fn lemma_remove_first_at(c: Seq<(Seq<char>, u64)>, name: Seq<char>, i: int)
    requires
        0 <= i < c.len(),
        c[i].0 == name,
        forall|j: int| 0 <= j < i ==> (#[trigger] c[j]).0 != name,
    ensures
        remove_child(c, name) == c.remove(i),
    decreases c.len(),
{
    if i == 0 {
        assert(c.drop_first() =~= c.remove(0));
    } else {
        assert(c[0].0 != name);
        assert forall|j: int| 0 <= j < i - 1 implies (#[trigger] c.drop_first()[j]).0 != name by {
            assert(c.drop_first()[j] == c[j + 1]);
        }
        lemma_remove_first_at(c.drop_first(), name, i - 1);
        assert(seq![c[0]] + c.drop_first().remove(i - 1) =~= c.remove(i));
    }
}

/// Removing `name` from a listing with distinct names leaves no entry of
/// that name, and the names distinct.
proof fn lemma_remove_distinct(c: Seq<(Seq<char>, u64)>, name: Seq<char>)
    requires
        distinct_names(c),
    ensures
        forall|j: int| 0 <= j < remove_child(c, name).len() ==> (#[trigger] remove_child(c, name)[j]).0 != name,
        distinct_names(remove_child(c, name)),
{
    if exists|i: int| 0 <= i < c.len() && c[i].0 == name {
        let i = choose|i: int| 0 <= i < c.len() && c[i].0 == name;
        assert forall|j: int| 0 <= j < i implies (#[trigger] c[j]).0 != name by {
            assert(c[j].0 != c[i].0);
        }
        lemma_remove_first_at(c, name, i);
        let r = c.remove(i);
        assert forall|j: int| 0 <= j < r.len() implies (#[trigger] r[j]).0 != name by {
            if j < i {
                assert(r[j] == c[j]);
                assert(c[j].0 != c[i].0);
            } else {
                assert(r[j] == c[j + 1]);
                assert(c[j + 1].0 != c[i].0);
            }
        }
        assert forall|a: int, b: int| 0 <= a < r.len() && 0 <= b < r.len() && a != b implies r[a].0 != r[b].0 by {
            let ia = if a < i { a } else { a + 1 };
            let ib = if b < i { b } else { b + 1 };
            assert(r[a] == c[ia]);
            assert(r[b] == c[ib]);
            assert(c[ia].0 != c[ib].0);
        }
    } else {
        lemma_remove_absent(c, name);
    }
}

/// Removing `name` does not change where any other name leads.
proof fn lemma_remove_other(c: Seq<(Seq<char>, u64)>, name: Seq<char>, x: Seq<char>)
    requires
        x != name,
    ensures
        find_child(remove_child(c, name), x) == find_child(c, x),
    decreases c.len(),
{
    if c.len() > 0 {
        if c[0].0 == name {
        } else {
            let r = seq![c[0]] + remove_child(c.drop_first(), name);
            assert(r[0] == c[0]);
            assert(r.drop_first() =~= remove_child(c.drop_first(), name));
            lemma_remove_other(c.drop_first(), name, x);
        }
    }
}

/// A walk through the model after `name` is removed from directory `pid`
/// either ends where it ended before, or stops at the removed name.
proof fn lemma_walk_after_remove(m: RamModel, pid: u64, name: Seq<char>, cur: u64, comps: Seq<Seq<char>>)
    requires
        pid < m.inodes.len(),
        m.inodes[pid as int].children is Some,
        forall|j: int|
            0 <= j < remove_child(m.inodes[pid as int].children.unwrap(), name).len() ==> (#[trigger] remove_child(
                m.inodes[pid as int].children.unwrap(),
                name,
            )[j]).0 != name,
        walk(m, cur, comps) is Ok,
    ensures
        walk(remove_entry(m, pid, name), cur, comps) == walk(m, cur, comps) || walk(
            remove_entry(m, pid, name),
            cur,
            comps,
        ) == Err::<u64, &'static str>("Path component not found"),
    decreases comps.len(),
{
    let m2 = remove_entry(m, pid, name);
    if comps.len() > 0 {
        let c0 = comps[0];
        assert(step(m, cur, c0) is Ok);
        let next = step(m, cur, c0)->Ok_0;
        if cur != pid {
            assert(m2.inodes[cur as int] == m.inodes[cur as int]);
            assert(step(m2, cur, c0) == step(m, cur, c0));
            lemma_walk_after_remove(m, pid, name, next, comps.drop_first());
        } else {
            let kids = m.inodes[pid as int].children.unwrap();
            assert(m2.inodes[pid as int].children == Some(remove_child(kids, name)));
            if c0 != name {
                lemma_remove_other(kids, name, c0);
                assert(step(m2, cur, c0) == step(m, cur, c0));
                lemma_walk_after_remove(m, pid, name, next, comps.drop_first());
            } else {
                lemma_find_none(remove_child(kids, name), name);
                assert(step(m2, cur, c0) == Err::<u64, &'static str>("Path component not found"));
            }
        }
    }
}

/// Walking one more name is one more step after the walk.
proof fn lemma_walk_push(m: RamModel, cur: u64, a: Seq<Seq<char>>, x: Seq<char>)
    ensures
        walk(m, cur, a.push(x)) == match walk(m, cur, a) {
            Ok(y) => step(m, y, x),
            Err(e) => Err(e),
        },
    decreases a.len(),
{
    if a.len() == 0 {
        assert(a.push(x).drop_first() =~= Seq::<Seq<char>>::empty());
        assert(a.push(x)[0] == x);
        match step(m, cur, x) {
            Ok(next) => assert(walk(m, next, Seq::<Seq<char>>::empty()) == Ok::<u64, &'static str>(next)),
            Err(_) => {},
        }
    } else {
        assert(a.push(x)[0] == a[0]);
        assert(a.push(x).drop_first() =~= a.drop_first().push(x));
        match step(m, cur, a[0]) {
            Ok(next) => lemma_walk_push(m, next, a.drop_first(), x),
            Err(_) => {},
        }
    }
}

proof fn lemma_scan_slash(p: Seq<char>)
    ensures
        scan_path(p.push('/')) == (path_components(p), Seq::<char>::empty()),
        path_components(p.push('/')) == path_components(p),
{
    assert(p.push('/').drop_last() =~= p);
}

proof fn lemma_components_trim(p: Seq<char>)
    ensures
        path_components(trim_trailing_slashes(p)) == path_components(p),
    decreases p.len(),
{
    if p.len() > 0 && p.last() == '/' {
        lemma_components_trim(p.drop_last());
        lemma_scan_slash(p.drop_last());
        assert(p.drop_last().push('/') =~= p);
    }
}

proof fn lemma_scan_word(q: Seq<char>, w: Seq<char>)
    requires
        forall|i: int| 0 <= i < w.len() ==> w[i] != '/',
    ensures
        scan_path(q + w) == (scan_path(q).0, scan_path(q).1 + w),
    decreases w.len(),
{
    if w.len() == 0 {
        assert(q + w =~= q);
        assert(scan_path(q).1 + w =~= scan_path(q).1);
    } else {
        assert((q + w).drop_last() =~= q + w.drop_last());
        assert((q + w).last() == w.last());
        assert(w.last() == w[w.len() - 1]);
        lemma_scan_word(q, w.drop_last());
        assert((scan_path(q).1 + w.drop_last()).push(w.last()) =~= scan_path(q).1 + w);
    }
}

proof fn lemma_last_slash(t: Seq<char>)
    ensures
        match last_slash(t) {
            Some(k) => 0 <= k < t.len() && t[k] == '/' && forall|i: int| k < i < t.len() ==> t[i] != '/',
            None => forall|i: int| 0 <= i < t.len() ==> t[i] != '/',
        },
    decreases t.len(),
{
    if t.len() > 0 && t.last() != '/' {
        lemma_last_slash(t.drop_last());
        assert forall|i: int| 0 <= i < t.len() - 1 implies t[i] == t.drop_last()[i] by {}
    }
}

/// The components of a path are those of its parent, then its name.
pub proof fn lemma_split_components(path: Seq<char>)
    requires
        split_path_spec(path) is Ok,
    ensures
        path_components(path) == path_components(split_path_spec(path)->Ok_0.0).push(
            split_path_spec(path)->Ok_0.1,
        ),
{
    let t = trim_trailing_slashes(path);
    lemma_components_trim(path);
    lemma_last_slash(t);
    lemma_scan_slash(Seq::<char>::empty());
    assert(seq!['/'] =~= Seq::<char>::empty().push('/'));
    match last_slash(t) {
        Some(k) => {
            let name = t.skip(k + 1);
            assert(t =~= t.take(k).push('/') + name);
            assert forall|i: int| 0 <= i < name.len() implies name[i] != '/' by {
                assert(name[i] == t[k + 1 + i]);
            }
            lemma_scan_word(t.take(k).push('/'), name);
            lemma_scan_slash(t.take(k));
            assert(Seq::<char>::empty() + name =~= name);
            if k == 0 {
                assert(t.take(0) =~= Seq::<char>::empty());
            }
        },
        None => {
            assert(Seq::<char>::empty() + t =~= t);
            lemma_scan_word(Seq::<char>::empty(), t);
            assert(Seq::<char>::empty() + t =~= t);
        },
    }
}

/// After a deletion at `path` succeeds on a model whose listings have
/// distinct names, the path is no longer found, and the parent directory
/// lists no entry of that name.
pub proof fn lemma_deleted_not_found(m: RamModel, path: Seq<char>)
    requires
        ram_wf(m),
        names_unique(m),
        ram_delete(m, path) is Ok,
    ensures
        lookup_spec(ram_delete(m, path)->Ok_0, path) == Err::<u64, &'static str>("Path component not found"),
        ({
            let pn = split_path_spec(path)->Ok_0;
            let pid = lookup_spec(m, pn.0)->Ok_0;
            let kids = ram_delete(m, path)->Ok_0.inodes[pid as int].children.unwrap();
            forall|j: int| 0 <= j < kids.len() ==> (#[trigger] kids[j]).0 != pn.1
        }),
{
    let pn = split_path_spec(path)->Ok_0;
    let pid = lookup_spec(m, pn.0)->Ok_0;
    let name = pn.1;
    let m2 = remove_entry(m, pid, name);
    let kids = m.inodes[pid as int].children.unwrap();
    assert(delete_error(m, pid, name) is None);
    assert(names_unique(m) ==> distinct_names(kids)) by {
        assert(m.inodes[pid as int].children is Some);
    }
    lemma_remove_distinct(kids, name);
    assert(m2.inodes[pid as int].children.unwrap() == remove_child(kids, name));
    lemma_split_components(path);
    let parent_comps = path_components(pn.0);
    lemma_walk_push(m2, m2.root, parent_comps, name);
    lemma_walk_after_remove(m, pid, name, m.root, parent_comps);
    if walk(m2, m2.root, parent_comps) == walk(m, m.root, parent_comps) {
        lemma_find_none(remove_child(kids, name), name);
    }
}

/// The model that a filesystem starts from has distinct names in every
/// listing.
pub proof fn lemma_initial_names_unique()
    ensures
        names_unique(initial_ram_model()),
{
    let m = initial_ram_model();
    assert forall|i: int| 0 <= i < m.inodes.len() && (#[trigger] m.inodes[i]).children is Some implies distinct_names(
        m.inodes[i].children.unwrap(),
    ) by {
        assert(m.inodes[i] == directory_model());
    }
}

proof fn lemma_insert_pos_bounds(c: Seq<(Seq<char>, u64)>, name: Seq<char>)
    ensures
        0 <= insert_pos(c, name) <= c.len(),
    decreases c.len(),
{
    if c.len() > 0 {
        lemma_insert_pos_bounds(c.drop_first(), name);
    }
}

/// Creating an entry keeps the names of every listing distinct, where the
/// new inode's own listing, if any, starts empty.
pub proof fn lemma_create_keeps_names_unique(m: RamModel, path: Seq<char>, node: InodeModel)
    requires
        ram_wf(m),
        names_unique(m),
        node.children is Some ==> node.children.unwrap().len() == 0,
        ram_create(m, path, node) is Ok,
    ensures
        names_unique(ram_create(m, path, node)->Ok_0),
{
    let pn = split_path_spec(path)->Ok_0;
    let pid = lookup_spec(m, pn.0)->Ok_0;
    let name = pn.1;
    assert(create_error(m, pid, name) is None);
    let m2 = add_entry(m, pid, name, node);
    let kids = m.inodes[pid as int].children.unwrap();
    let pos = insert_pos(kids, name);
    lemma_insert_pos_bounds(kids, name);
    let nk = kids.insert(pos, (name, m.next_id));
    assert(distinct_names(kids));
    assert forall|j: int| 0 <= j < kids.len() implies (#[trigger] kids[j]).0 != name by {
        if kids[j].0 == name {
            lemma_find_some(kids, name, j);
        }
    }
    assert(distinct_names(nk)) by {
        assert forall|a: int, b: int| 0 <= a < nk.len() && 0 <= b < nk.len() && a != b implies nk[a].0 != nk[b].0 by {
            let ia = if a < pos { a } else { a - 1 };
            let ib = if b < pos { b } else { b - 1 };
            if a != pos && b != pos {
                assert(nk[a] == kids[ia]);
                assert(nk[b] == kids[ib]);
                assert(kids[ia].0 != kids[ib].0);
            } else if a == pos {
                assert(nk[b] == kids[ib]);
            } else {
                assert(nk[a] == kids[ia]);
            }
        }
    }
    assert forall|i: int| 0 <= i < m2.inodes.len() && (#[trigger] m2.inodes[i]).children is Some implies distinct_names(
        m2.inodes[i].children.unwrap(),
    ) by {
        if i == pid {
            assert(m2.inodes[i].children.unwrap() == nk);
        } else if i == m.inodes.len() {
            assert(m2.inodes[i] == node);
        } else {
            assert(m2.inodes[i] == m.inodes[i]);
        }
    }
}

/// Deleting an entry keeps the names of every listing distinct.
pub proof fn lemma_delete_keeps_names_unique(m: RamModel, path: Seq<char>)
    requires
        ram_wf(m),
        names_unique(m),
        ram_delete(m, path) is Ok,
    ensures
        names_unique(ram_delete(m, path)->Ok_0),
{
    let pn = split_path_spec(path)->Ok_0;
    let pid = lookup_spec(m, pn.0)->Ok_0;
    let name = pn.1;
    assert(delete_error(m, pid, name) is None);
    let m2 = remove_entry(m, pid, name);
    let kids = m.inodes[pid as int].children.unwrap();
    assert(distinct_names(kids));
    lemma_remove_distinct(kids, name);
    assert forall|i: int| 0 <= i < m2.inodes.len() && (#[trigger] m2.inodes[i]).children is Some implies distinct_names(
        m2.inodes[i].children.unwrap(),
    ) by {
        if i != pid {
            assert(m2.inodes[i] == m.inodes[i]);
        }
    }
}

/// Writing into a file leaves every listing as it was.
pub proof fn lemma_write_keeps_names_unique(m: RamModel, id: u64, buf: Seq<u8>, offset: u64)
    requires
        names_unique(m),
        write_error(m, id) is None,
    ensures
        names_unique(written_model(m, id, buf, offset)),
{
    let m2 = written_model(m, id, buf, offset);
    assert forall|i: int| 0 <= i < m2.inodes.len() && (#[trigger] m2.inodes[i]).children is Some implies distinct_names(
        m2.inodes[i].children.unwrap(),
    ) by {
        assert(m2.inodes[i].children == m.inodes[i].children);
    }
}

/// After `delete_entry(path)` succeeds on a filesystem whose listings have
/// distinct names, opening `path` as a file or as a directory is refused
/// with "Path component not found".
pub proof fn lemma_deleted_path_refused(before: Filesystem, after: Filesystem, path: Seq<char>, readonly: bool)
    requires
        before.wf(),
        before.model().ram is Some ==> names_unique(before.model().ram.unwrap()),
        entry_deleted(before, after, path, Ok(())),
    ensures
        open_file_outcome(after.model(), path, readonly) == Err::<Option<u64>, &'static str>(
            "Path component not found",
        ),
        open_directory_outcome(after.model(), path) == Some(
            Err::<u64, &'static str>("Path component not found"),
        ),
{
    before.lemma_ram_model_wf();
    let gate = mutation_gate(
        before.model(),
        "Cannot delete entry on readonly filesystem",
        "Delete operation not implemented for this filesystem type",
    );
    assert(gate is None);
    let m = before.model().ram.unwrap();
    assert(ram_delete(m, path) is Ok);
    lemma_deleted_not_found(m, path);
    assert(after.model().ram == Some(ram_delete(m, path)->Ok_0));
}

} // verus!
