use crate::ftp::metadata::{MetaView, Timestamp};
use crate::ftp::model::{occurrences, without, FilesView, Operation, PathView};
use crate::path::{lemma_parent_differs, parent_of, root};
use vstd::prelude::*;

verus! {

/// Adding `y` at the end adds one occurrence of `y` and none of any other path.
pub proof fn lemma_occurrences_push(s: Seq<PathView>, y: PathView, x: PathView)
    ensures
        occurrences(s.push(y), x) == occurrences(s, x) + if y == x {
            1nat
        } else {
            0nat
        },
{
    assert(s.push(y).drop_last() =~= s);
}

/// A path occurs in a list as often as zero exactly when the list does not hold it.
pub proof fn lemma_occurrences_none(s: Seq<PathView>, x: PathView)
    ensures
        occurrences(s, x) == 0 <==> !s.contains(x),
    decreases s.len(),
{
    if s.len() > 0 {
        lemma_occurrences_none(s.drop_last(), x);
        if s.last() != x && s.contains(x) {
            let i = choose|i: int| 0 <= i < s.len() && s[i] == x;
            assert(s.drop_last()[i] == x);
        }
    }
}

/// Taking `p` out leaves no occurrence of `p` and every occurrence of any other path.
pub proof fn lemma_without_occurrences(s: Seq<PathView>, p: PathView, x: PathView)
    ensures
        occurrences(without(s, p), x) == if x == p {
            0nat
        } else {
            occurrences(s, x)
        },
    decreases s.len(),
{
    if s.len() > 0 {
        lemma_without_occurrences(s.drop_last(), p, x);
        if s.last() != p {
            lemma_occurrences_push(without(s.drop_last(), p), s.last(), x);
        }
    }
}

/// What is left after taking `p` out was there before, and is not `p`.
pub proof fn lemma_without_members(s: Seq<PathView>, p: PathView)
    ensures
        without(s, p).len() <= s.len(),
        forall|i: int|
            0 <= i < without(s, p).len() ==> s.contains(#[trigger] without(s, p)[i]) && without(
                s,
                p,
            )[i] != p,
        !s.contains(p) ==> without(s, p) == s,
    decreases s.len(),
{
    if s.len() > 0 {
        lemma_without_members(s.drop_last(), p);
    }
}

/// A fresh index is consistent.
pub proof fn lemma_fresh_consistent(now: Timestamp)
    ensures
        FilesView::fresh(now).consistent(),
{
}

/// Storing a file keeps the index well formed. It keeps a closed index
/// closed where the path is new, and a consistent index consistent where
/// moreover the attributes are those of a valid entry that is no
/// directory.
pub proof fn lemma_put_keeps(v: FilesView, path: PathView, meta: MetaView)
    requires
        v.wf(),
        v.put(path, meta) is Ok,
    ensures
        v.put(path, meta)->Ok_0.wf(),
        v.closed() && !v.files.contains_key(path) ==> v.put(path, meta)->Ok_0.closed(),
        v.consistent() && !v.files.contains_key(path) && meta.valid() && !meta.is_dir ==> v.put(
            path,
            meta,
        )->Ok_0.consistent(),
{
    let d = v.home_of(path)->0;
    let w = v.put(path, meta)->Ok_0;
    if v.closed() && !v.files.contains_key(path) {
        lemma_occurrences_none(v.folders[d], path);
        assert forall|p: PathView|
            (#[trigger] w.files.contains_key(p)) && p != root() implies w.home_of(p) is Some
            && occurrences(w.folders[w.home_of(p)->0], p) == 1 by {
            lemma_occurrences_push(v.folders[d], path, p);
        }
    }
}

/// Deleting an entry keeps the index well formed. It keeps a closed index
/// closed, and a consistent index consistent, where the entry is no
/// directory.
pub proof fn lemma_del_keeps(v: FilesView, path: PathView)
    requires
        v.wf(),
        v.del(path) is Ok,
    ensures
        v.del(path)->Ok_0.wf(),
        v.closed() && !v.files[path].is_dir ==> v.del(path)->Ok_0.closed(),
        v.consistent() && !v.files[path].is_dir ==> v.del(path)->Ok_0.consistent(),
{
    let d = v.home_of(path)->0;
    let w = v.del(path)->Ok_0;
    lemma_without_members(v.folders[d], path);
    if v.closed() {
        assert forall|p: PathView|
            (#[trigger] w.files.contains_key(p)) && p != root() implies w.home_of(p) is Some
            && occurrences(w.folders[w.home_of(p)->0], p) == 1 by {
            lemma_without_occurrences(v.folders[d], path, p);
        }
    }
}

/// Making a directory keeps the index well formed, a closed index closed
/// and a consistent index consistent.
pub proof fn lemma_mkd_keeps(v: FilesView, path: PathView, now: Timestamp)
    requires
        v.wf(),
        v.mkd(path, now) is Ok,
    ensures
        v.mkd(path, now)->Ok_0.wf(),
        v.closed() ==> v.mkd(path, now)->Ok_0.closed(),
        v.consistent() ==> v.mkd(path, now)->Ok_0.consistent(),
{
    let d = v.home_of(path)->0;
    let w = v.mkd(path, now)->Ok_0;
    lemma_parent_differs(path);
    if v.closed() {
        lemma_occurrences_none(v.folders[d], path);
        assert forall|p: PathView|
            (#[trigger] w.files.contains_key(p)) && p != root() implies w.home_of(p) is Some
            && occurrences(w.folders[w.home_of(p)->0], p) == 1 by {
            lemma_occurrences_push(v.folders[d], path, p);
        }
    }
}

/// Removing a directory keeps the index well formed, a closed index
/// closed and a consistent index consistent.
pub proof fn lemma_rmd_keeps(v: FilesView, path: PathView)
    requires
        v.wf(),
        v.rmd(path) is Ok,
    ensures
        v.rmd(path)->Ok_0.wf(),
        v.closed() ==> v.rmd(path)->Ok_0.closed(),
        v.consistent() ==> v.rmd(path)->Ok_0.consistent(),
{
    let d = v.home_of(path)->0;
    let w = v.rmd(path)->Ok_0;
    lemma_parent_differs(path);
    lemma_without_members(v.folders[d], path);
    if v.closed() {
        assert forall|p: PathView|
            (#[trigger] w.files.contains_key(p)) && p != root() implies w.home_of(p) is Some
            && occurrences(w.folders[w.home_of(p)->0], p) == 1 by {
            let e = v.home_of(p)->0;
            if e == path {
                lemma_occurrences_none(v.folders[path], p);
            }
            lemma_without_occurrences(v.folders[d], path, p);
        }
    }
}

/// Moving a file keeps the index well formed. It keeps a closed index
/// closed, and a consistent index consistent, where nothing stands at the
/// new path, or the new path is the old one.
pub proof fn lemma_rename_keeps(v: FilesView, from: PathView, to: PathView)
    requires
        v.wf(),
        v.rename(from, to) is Ok,
    ensures
        v.rename(from, to)->Ok_0.wf(),
        v.closed() && (!v.files.contains_key(to) || to == from) ==> v.rename(
            from,
            to,
        )->Ok_0.closed(),
        v.consistent() && (!v.files.contains_key(to) || to == from) ==> v.rename(
            from,
            to,
        )->Ok_0.consistent(),
{
    let df = v.home_of(from)->0;
    let dt = v.home_of(to)->0;
    let u = v.unlisting(df, from);
    let w = v.rename(from, to)->Ok_0;
    lemma_without_members(v.folders[df], from);
    assert(forall|e: PathView, i: int|
        u.folders.contains_key(e) && 0 <= i < u.folders[e].len() ==> v.files.contains_key(
            #[trigger] u.folders[e][i],
        ) && parent_of(u.folders[e][i]) == Some(e) && u.folders[e][i] != from);
    if v.closed() && (!v.files.contains_key(to) || to == from) {
        lemma_occurrences_none(u.folders[dt], to);
        assert forall|p: PathView|
            (#[trigger] w.files.contains_key(p)) && p != root() implies w.home_of(p) is Some
            && occurrences(w.folders[w.home_of(p)->0], p) == 1 by {
            lemma_without_occurrences(v.folders[df], from, p);
            lemma_occurrences_push(u.folders[dt], to, p);
        }
    }
}

/// One change keeps the index well formed, whether it succeeds or is
/// refused. It keeps a closed index that admits it closed, and a
/// consistent index consistent where moreover it is sound.
pub proof fn lemma_apply_keeps(v: FilesView, op: Operation)
    requires
        v.wf(),
    ensures
        v.apply(op).wf(),
        v.closed() && v.admits(op) ==> v.apply(op).closed(),
        v.consistent() && v.admits(op) && op.sound() ==> v.apply(op).consistent(),
{
    if v.attempt(op) is Ok {
        match op {
            Operation::Mkd { path, now } => lemma_mkd_keeps(v, path, now),
            Operation::Put { path, meta } => lemma_put_keeps(v, path, meta),
            Operation::Del { path } => lemma_del_keeps(v, path),
            Operation::Rmd { path } => lemma_rmd_keeps(v, path),
            Operation::Rename { from, to } => lemma_rename_keeps(v, from, to),
        }
    }
}

/// The index stays closed: after every step of a run of changes that
/// begins with a closed index and admits each change at its turn, every
/// listed child has an entry, and every entry but the root is listed
/// exactly once by the directory above it. Where the index is consistent
/// at the beginning and every change is sound, it is consistent after
/// every step.
pub proof fn lemma_run_keeps(v: FilesView, ops: Seq<Operation>, k: int)
    requires
        v.closed(),
        v.admits_all(ops),
        0 <= k <= ops.len(),
    ensures
        v.run(ops.take(k)).closed(),
        v.run(ops.take(k)).wf(),
        v.run(ops.take(k)).entries_listed_once(),
        v.consistent() && (forall|j: int| 0 <= j < ops.len() ==> (#[trigger] ops[j]).sound())
            ==> v.run(ops.take(k)).consistent(),
    decreases k,
{
    if k > 0 {
        lemma_run_keeps(v, ops, k - 1);
        assert(ops.take(k).drop_last() == ops.take(k - 1));
        lemma_apply_keeps(v.run(ops.take(k - 1)), ops[k - 1]);
    }
}

} // verus!
