//! Depth-bounded, filter-aware traversal of a directory tree.
//!
//! The tree is a plain model of the part of the filesystem the search reads:
//! entry names and the file/directory distinction, nothing else. `walk`
//! performs a depth-first pre-order traversal, prunes denylisted directories,
//! stops below `MAX_DEPTH`, and appends the full path of every file whose
//! name equals the target case-insensitively, in encounter order.

use vstd::prelude::*;
use vstd::string::StringExecFns;
use crate::filter::Platform;
use crate::filter::should_prune;
use crate::filter::spec_should_prune;
use crate::text::lower_of;
use crate::text::to_lower;

verus! {

broadcast use vstd::std_specs::vec::group_vec_axioms;

/// One node of the traversed tree.
pub enum FsEntry {
    File { name: String },
    Dir { name: String, entries: Vec<FsEntry> },
}

/// Hard bound on recursion depth; directories deeper than this are never
/// entered.
pub const MAX_DEPTH: u32 = 8;

/// After this many entries processed in one directory, a cooperative host
/// should be given a chance to run.
pub const YIELD_INTERVAL: u64 = 100;

/// The path separator the given platform writes between segments.
pub open spec fn spec_separator(p: Platform) -> char {
    match p {
        Platform::Windows => '\\',
        Platform::Posix => '/',
    }
}

/// The separator as a string slice.
pub fn separator_str(p: Platform) -> (s: &'static str)
    ensures
        s@ == seq![spec_separator(p)],
{
    match p {
        Platform::Windows => {
            let s = "\\";
            proof {
                reveal_strlit("\\");
                assert(s@ =~= seq![spec_separator(Platform::Windows)]);
            }
            s
        },
        Platform::Posix => {
            let s = "/";
            proof {
                reveal_strlit("/");
                assert(s@ =~= seq![spec_separator(Platform::Posix)]);
            }
            s
        },
    }
}

/// The full path of an entry named `name` inside the directory at `dir`.
pub open spec fn spec_join(dir: Seq<char>, p: Platform, name: Seq<char>) -> Seq<char> {
    dir + seq![spec_separator(p)] + name
}

/// Joins a directory path and an entry name with the platform separator.
pub fn join_path(dir: &str, p: Platform, name: &str) -> (r: String)
    ensures
        r@ == spec_join(dir@, p, name@),
{
    let mut s = dir.to_owned();
    s.append(separator_str(p));
    s.append(name);
    s
}

/// Case-insensitive filename match: the lower-cased name equals the
/// lower-cased requested filename.
pub fn filename_matches(name: &str, target: &str) -> (r: bool)
    ensures
        r == (lower_of(name@) == lower_of(target@)),
{
    let nl = to_lower(name);
    let tl = to_lower(target);
    nl == tl
}

/// Whether a cooperative pause is due after `entries_seen` entries.
pub fn should_yield(entries_seen: u64) -> (r: bool)
    ensures
        r == (entries_seen % YIELD_INTERVAL == 0),
{
    entries_seen % YIELD_INTERVAL == 0
}

/// The matches the walker appends when it enters `e` at full path `path`
/// with the given depth: nothing for a file, nothing beyond the depth bound
/// or for a pruned directory, and otherwise the children's matches in
/// encounter order.
pub open spec fn spec_walk_entry(
    e: FsEntry,
    path: Seq<char>,
    target_lower: Seq<char>,
    depth: int,
    p: Platform,
) -> Seq<Seq<char>>
    decreases e, 0int,
{
    match e {
        FsEntry::File { .. } => Seq::empty(),
        FsEntry::Dir { name, entries } => {
            if depth > MAX_DEPTH as int {
                Seq::empty()
            } else if spec_should_prune(lower_of(name@), lower_of(path), p) {
                Seq::empty()
            } else {
                spec_walk_entries(entries@, 0, path, target_lower, depth, p)
            }
        },
    }
}

/// The matches contributed by the children of a directory at `dir_path`,
/// from child index `i` on: a matching file contributes its full path, a
/// subdirectory contributes its own traversal at `depth + 1`, in order.
pub open spec fn spec_walk_entries(
    es: Seq<FsEntry>,
    i: int,
    dir_path: Seq<char>,
    target_lower: Seq<char>,
    depth: int,
    p: Platform,
) -> Seq<Seq<char>>
    decreases es, es.len() - i + 1,
{
    if i < 0 || i >= es.len() {
        Seq::empty()
    } else {
        let head = match es[i] {
            FsEntry::File { name } => if lower_of(name@) == target_lower {
                seq![spec_join(dir_path, p, name@)]
            } else {
                Seq::empty()
            },
            FsEntry::Dir { name, .. } => spec_walk_entry(
                es[i],
                spec_join(dir_path, p, name@),
                target_lower,
                depth + 1,
                p,
            ),
        };
        head + spec_walk_entries(es, i + 1, dir_path, target_lower, depth, p)
    }
}

/// How many directory entries the walker examines when it enters `e`:
/// zero beyond the depth bound or for a pruned directory.
pub open spec fn spec_visit_count(e: FsEntry, path: Seq<char>, depth: int, p: Platform) -> nat
    decreases e, 0int,
{
    match e {
        FsEntry::File { .. } => 0,
        FsEntry::Dir { name, entries } => {
            if depth > MAX_DEPTH as int {
                0
            } else if spec_should_prune(lower_of(name@), lower_of(path), p) {
                0
            } else {
                spec_visit_count_entries(entries@, 0, path, depth, p)
            }
        },
    }
}

/// Entries examined among the children of a directory, from index `i` on.
pub open spec fn spec_visit_count_entries(
    es: Seq<FsEntry>,
    i: int,
    dir_path: Seq<char>,
    depth: int,
    p: Platform,
) -> nat
    decreases es, es.len() - i + 1,
{
    if i < 0 || i >= es.len() {
        0
    } else {
        let below = match es[i] {
            FsEntry::File { .. } => 0nat,
            FsEntry::Dir { name, .. } => spec_visit_count(
                es[i],
                spec_join(dir_path, p, name@),
                depth + 1,
                p,
            ),
        };
        1 + below + spec_visit_count_entries(es, i + 1, dir_path, depth, p)
    }
}

/// Beyond the depth bound the walker does nothing: it visits zero entries
/// and appends zero matches, whatever the directory holds.
pub proof fn lemma_depth_bound_stops_walk(
    e: FsEntry,
    path: Seq<char>,
    target_lower: Seq<char>,
    depth: int,
    p: Platform,
)
    requires
        depth > MAX_DEPTH as int,
    ensures
        spec_walk_entry(e, path, target_lower, depth, p) == Seq::<Seq<char>>::empty(),
        spec_visit_count(e, path, depth, p) == 0,
{
}

/// A pruned directory contributes nothing either.
pub proof fn lemma_pruned_dir_stops_walk(
    name: String,
    entries: Vec<FsEntry>,
    path: Seq<char>,
    target_lower: Seq<char>,
    depth: int,
    p: Platform,
)
    requires
        spec_should_prune(lower_of(name@), lower_of(path), p),
    ensures
        spec_walk_entry(FsEntry::Dir { name, entries }, path, target_lower, depth, p)
            == Seq::<Seq<char>>::empty(),
        spec_visit_count(FsEntry::Dir { name, entries }, path, depth, p) == 0,
{
}

/// Traversal with the target filename already lower-cased; appends the
/// matches of `spec_walk_entry` to `found` in order.
pub fn walk_lowered(
    e: &FsEntry,
    path: &str,
    target_lower: &String,
    depth: u32,
    p: Platform,
    found: &mut Vec<String>,
)
    ensures
        final(found).deep_view() == old(found).deep_view() + spec_walk_entry(
            *e,
            path@,
            target_lower@,
            depth as int,
            p,
        ),
    decreases *e,
{
    match e {
        FsEntry::File { .. } => {
            assert(found.deep_view() =~= old(found).deep_view() + Seq::<Seq<char>>::empty());
        },
        FsEntry::Dir { name, entries } => {
            if depth > MAX_DEPTH {
                assert(found.deep_view() =~= old(found).deep_view() + Seq::<Seq<char>>::empty());
                return ;
            }
            if should_prune(name.as_str(), path, p) {
                assert(found.deep_view() =~= old(found).deep_view() + Seq::<Seq<char>>::empty());
                return ;
            }
            let ghost es = entries@;
            let ghost base = found.deep_view();
            let mut i: usize = 0;
            while i < entries.len()
                invariant
                    i <= es.len(),
                    entries@ == es,
                    *e is Dir,
                    (*e)->Dir_entries@ == es,
                    depth <= MAX_DEPTH,
                    base + spec_walk_entries(es, 0, path@, target_lower@, depth as int, p)
                        == found.deep_view() + spec_walk_entries(
                        es,
                        i as int,
                        path@,
                        target_lower@,
                        depth as int,
                        p,
                    ),
                decreases es.len() - i,
            {
                let ghost found_before = found.deep_view();
                let entry = &entries[i];
                match entry {
                    FsEntry::File { name: fname } => {
                        let tl = to_lower(fname.as_str());
                        if tl == *target_lower {
                            let full = join_path(path, p, fname.as_str());
                            found.push(full);
                            assert(found.deep_view() =~= found_before + seq![
                                spec_join(path@, p, fname@),
                            ]);
                        } else {
                            assert(found.deep_view() =~= found_before + Seq::<Seq<char>>::empty());
                        }
                    },
                    FsEntry::Dir { name: dname, .. } => {
                        proof {
                            assert(decreases_to!(*e => (*e)->Dir_entries));
                            assert(decreases_to!((*e)->Dir_entries => (*e)->Dir_entries@));
                            assert(decreases_to!(es => es[i as int]));
                        }
                        let sub = join_path(path, p, dname.as_str());
                        walk_lowered(entry, sub.as_str(), target_lower, depth + 1, p, found);
                    },
                }
                proof {
                    let d = depth as int;
                    let head = match es[i as int] {
                        FsEntry::File { name } => if lower_of(name@) == target_lower@ {
                            seq![spec_join(path@, p, name@)]
                        } else {
                            Seq::<Seq<char>>::empty()
                        },
                        FsEntry::Dir { name, .. } => spec_walk_entry(
                            es[i as int],
                            spec_join(path@, p, name@),
                            target_lower@,
                            d + 1,
                            p,
                        ),
                    };
                    assert(spec_walk_entries(es, i as int, path@, target_lower@, d, p) == head
                        + spec_walk_entries(es, i as int + 1, path@, target_lower@, d, p));
                    assert(found.deep_view() == found_before + head);
                    assert(base + spec_walk_entries(es, 0, path@, target_lower@, d, p)
                        =~= found.deep_view() + spec_walk_entries(
                        es,
                        i as int + 1,
                        path@,
                        target_lower@,
                        d,
                        p,
                    ));
                }
                i += 1;
            }
            assert(spec_walk_entries(es, es.len() as int, path@, target_lower@, depth as int, p)
                =~= Seq::<Seq<char>>::empty());
            assert(found.deep_view() =~= base + spec_walk_entries(
                es,
                0,
                path@,
                target_lower@,
                depth as int,
                p,
            ));
        },
    }
}

/// Depth-first, depth-bounded, filter-aware traversal of `e` at full path
/// `path`: appends to `found`, in encounter order, the full path of every
/// file whose name matches `target` case-insensitively.
pub fn walk(
    e: &FsEntry,
    path: &str,
    target: &str,
    depth: u32,
    p: Platform,
    found: &mut Vec<String>,
)
    ensures
        final(found).deep_view() == old(found).deep_view() + spec_walk_entry(
            *e,
            path@,
            lower_of(target@),
            depth as int,
            p,
        ),
{
    let tl = to_lower(target);
    walk_lowered(e, path, &tl, depth, p, found);
}

} // verus!
