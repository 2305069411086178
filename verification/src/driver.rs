//! The whole search, end to end, over directory tree models.
//!
//! `search_trees` runs the orchestrator over a list of candidate roots whose
//! contents are given as trees (`None` standing for a root that does not
//! exist), exactly as a host drives it over the real filesystem: one
//! progress record per root between the start and completion records, every
//! value no smaller than the one before, matches accumulated in root order,
//! and the manual-selection fallback when nothing was found.

use vstd::prelude::*;
use vstd::string::StringExecFns;
use crate::filter::Platform;
use crate::search::spec_root_progress;
use crate::search::DialogRequest;
use crate::search::SearchOrchestrator;
use crate::search::SearchProgress;
use crate::text::lower_of;
use crate::walker::spec_walk_entry;
use crate::walker::walk;
use crate::walker::FsEntry;

verus! {

/// One candidate root: its path, and the directory tree found there, or
/// `None` when no such root exists (it is then skipped without error).
pub struct SearchRoot {
    pub path: String,
    pub tree: Option<FsEntry>,
}

/// What one candidate root contributes: its traversal at depth zero when it
/// exists, nothing otherwise.
pub open spec fn spec_root_matches(
    root: SearchRoot,
    target_lower: Seq<char>,
    p: Platform,
) -> Seq<Seq<char>> {
    match root.tree {
        Option::Some(t) => spec_walk_entry(t, root.path@, target_lower, 0, p),
        Option::None => Seq::empty(),
    }
}

/// The matches of a full search from root index `i` on: each existing
/// root's traversal at depth zero, concatenated in root order.
pub open spec fn spec_search_matches(
    roots: Seq<SearchRoot>,
    i: int,
    target_lower: Seq<char>,
    p: Platform,
) -> Seq<Seq<char>>
    decreases roots.len() - i,
{
    if i < 0 || i >= roots.len() {
        Seq::empty()
    } else {
        spec_root_matches(roots[i], target_lower, p) + spec_search_matches(
            roots,
            i + 1,
            target_lower,
            p,
        )
    }
}

/// With no existing root there is nothing to traverse, so a search finds
/// nothing — and, by `search_trees`' contract, requests manual selection
/// without raising an error.
pub proof fn lemma_no_existing_roots_no_matches(
    roots: Seq<SearchRoot>,
    i: int,
    target_lower: Seq<char>,
    p: Platform,
)
    requires
        forall|j: int| 0 <= j < roots.len() ==> roots[j].tree is None,
    ensures
        spec_search_matches(roots, i, target_lower, p) == Seq::<Seq<char>>::empty(),
    decreases roots.len() - i,
{
    if 0 <= i < roots.len() {
        lemma_no_existing_roots_no_matches(roots, i + 1, target_lower, p);
        assert(spec_search_matches(roots, i, target_lower, p) =~= Seq::<Seq<char>>::empty());
    }
}

/// Runs one whole search over the given roots. The returned records are the
/// progress events in emission order; the matches are every existing root's
/// traversal result, concatenated in root order; the request is the
/// manual-selection fallback, present exactly when no match was found.
pub fn search_trees(filename: &str, roots: Vec<SearchRoot>, p: Platform) -> (r: (
    Vec<SearchProgress>,
    Option<DialogRequest>,
    Vec<String>,
))
    ensures
        r.0@.len() == roots@.len() + 2,
        r.0@[0].current == 0,
        forall|i: int|
            0 <= i < roots@.len() ==> #[trigger] r.0@[i + 1].current as int == spec_root_progress(
                i,
                roots@.len() as int,
            ),
        forall|i: int| 0 <= i < r.0@.len() - 1 ==> #[trigger] r.0@[i].current <= r.0@[i + 1].current,
        r.2.deep_view() == spec_search_matches(roots@, 0, lower_of(filename@), p),
        r.2.deep_view().len() > 0 ==> (r.0@[r.0@.len() - 1].current == 100 && r.1 is None),
        r.2.deep_view().len() == 0 ==> (r.0@[r.0@.len() - 1].current == 90 && (
        r.1 matches Some(d) && d.filename@ == filename@)),
{
    let ghost target_lower = lower_of(filename@);
    let n = roots.len();
    let mut names: Vec<String> = Vec::new();
    let mut k: usize = 0;
    while k < n
        invariant
            k <= n,
            n == roots@.len(),
            names@.len() == k,
            forall|j: int| 0 <= j < k ==> #[trigger] names@[j]@ == roots@[j].path@,
        decreases n - k,
    {
        names.push(roots[k].path.clone());
        k += 1;
    }
    let (mut orch, start) = SearchOrchestrator::new(String::from_str(filename), names);
    let mut events: Vec<SearchProgress> = Vec::new();
    events.push(start);
    let mut idx: usize = 0;
    while idx < n
        invariant
            idx <= n,
            n == roots@.len(),
            target_lower == lower_of(filename@),
            orch.wf(),
            !orch.spec_finished(),
            orch.spec_filename() == filename@,
            orch.spec_roots().len() == n,
            forall|j: int| 0 <= j < n ==> #[trigger] orch.spec_roots()[j] == roots@[j].path@,
            orch.spec_next_root() == idx,
            orch.spec_found() + spec_search_matches(roots@, idx as int, target_lower, p)
                == spec_search_matches(roots@, 0, target_lower, p),
            events@.len() == idx + 1,
            events@[0].current == 0,
            forall|j: int|
                0 <= j < idx ==> #[trigger] events@[j + 1].current as int == spec_root_progress(
                    j,
                    n as int,
                ),
            forall|j: int|
                0 <= j < events@.len() - 1 ==> #[trigger] events@[j].current <= events@[j
                    + 1].current,
            events@[events@.len() - 1].current as int == orch.spec_last_progress(),
        decreases n - idx,
    {
        let ghost found_before = orch.spec_found();
        let (_root_name, progress) = orch.begin_root();
        events.push(progress);
        match &roots[idx].tree {
            Option::Some(t) => {
                let mut found: Vec<String> = Vec::new();
                proof {
                    assert(found.deep_view() =~= Seq::<Seq<char>>::empty());
                }
                walk(t, roots[idx].path.as_str(), filename, 0, p, &mut found);
                orch.record_matches(found);
                proof {
                    assert(roots@[idx as int].tree == Option::Some(*t));
                    assert(orch.spec_found() =~= found_before + spec_root_matches(
                        roots@[idx as int],
                        target_lower,
                        p,
                    ));
                }
            },
            Option::None => {
                proof {
                    assert(spec_root_matches(roots@[idx as int], target_lower, p)
                        =~= Seq::<Seq<char>>::empty());
                    assert(orch.spec_found() =~= found_before + spec_root_matches(
                        roots@[idx as int],
                        target_lower,
                        p,
                    ));
                }
            },
        }
        proof {
            assert(spec_search_matches(roots@, idx as int, target_lower, p) == spec_root_matches(
                roots@[idx as int],
                target_lower,
                p,
            ) + spec_search_matches(roots@, idx as int + 1, target_lower, p));
            assert(orch.spec_found() + spec_search_matches(roots@, idx as int + 1, target_lower, p)
                =~= spec_search_matches(roots@, 0, target_lower, p));
        }
        idx += 1;
    }
    let (done, dialog, matches) = orch.finish();
    events.push(done);
    proof {
        assert(spec_search_matches(roots@, n as int, target_lower, p)
            =~= Seq::<Seq<char>>::empty());
        assert(matches.deep_view() =~= spec_search_matches(roots@, 0, target_lower, p));
    }
    (events, dialog, matches)
}

} // verus!
