//! Search orchestration: the ordered root list, incremental progress
//! reporting, and the empty-result fallback.
//!
//! The orchestrator is a state machine the host drives: `begin_root` hands
//! out the next root to traverse together with the progress record to emit,
//! `record_matches` appends what the traversal found, and `finish` produces
//! the completion record — or, when nothing was found, the manual-selection
//! request. Progress values never decrease across one search.

use vstd::prelude::*;
use vstd::arithmetic::div_mod::lemma_div_by_multiple;
use vstd::arithmetic::div_mod::lemma_div_is_ordered;
use vstd::arithmetic::div_mod::lemma_div_pos_is_pos;
use vstd::string::StringExecFns;
use crate::text::push_char;

verus! {

/// One progress record emitted during a search.
pub struct SearchProgress {
    pub current: u32,
    pub total: u32,
    pub message: String,
    pub found_count: usize,
}

/// The request to open the manual file picker, emitted when the automated
/// search found nothing.
pub struct DialogRequest {
    pub filename: String,
    pub message: String,
}

/// The digit character for one decimal digit.
pub open spec fn spec_digit_char(d: int) -> char {
    if d == 0 {
        '0'
    } else if d == 1 {
        '1'
    } else if d == 2 {
        '2'
    } else if d == 3 {
        '3'
    } else if d == 4 {
        '4'
    } else if d == 5 {
        '5'
    } else if d == 6 {
        '6'
    } else if d == 7 {
        '7'
    } else if d == 8 {
        '8'
    } else {
        '9'
    }
}

/// The decimal notation of a non-negative integer, most significant digit
/// first.
pub open spec fn spec_decimal(n: int) -> Seq<char>
    decreases n,
{
    if n < 10 {
        seq![spec_digit_char(n)]
    } else {
        spec_decimal(n / 10) + seq![spec_digit_char(n % 10)]
    }
}

/// The digit character of `d`.
fn digit_char(d: usize) -> (c: char)
    requires
        d < 10,
    ensures
        c == spec_digit_char(d as int),
{
    if d == 0 {
        '0'
    } else if d == 1 {
        '1'
    } else if d == 2 {
        '2'
    } else if d == 3 {
        '3'
    } else if d == 4 {
        '4'
    } else if d == 5 {
        '5'
    } else if d == 6 {
        '6'
    } else if d == 7 {
        '7'
    } else if d == 8 {
        '8'
    } else {
        '9'
    }
}

/// Renders a count in decimal notation.
pub fn decimal_string(n: usize) -> (r: String)
    ensures
        r@ == spec_decimal(n as int),
    decreases n,
{
    if n < 10 {
        let mut s = String::new();
        push_char(&mut s, digit_char(n));
        proof {
            assert(s@ =~= spec_decimal(n as int));
        }
        s
    } else {
        let mut s = decimal_string(n / 10);
        push_char(&mut s, digit_char(n % 10));
        proof {
            assert(s@ =~= spec_decimal(n as int));
        }
        s
    }
}

/// The progress value emitted when root number `i` (zero-based) of `n` is
/// about to be traversed: the share of the 0–80 range that `i + 1` roots
/// out of `n` represent, with a guarded denominator.
pub open spec fn spec_root_progress(i: int, n: int) -> int {
    ((i + 1) * 80) / (if n < 1 {
        1int
    } else {
        n
    })
}

/// Root progress is monotone in the root index and never exceeds 80 while
/// an index within range remains.
pub proof fn lemma_root_progress_monotone(i: int, j: int, n: int)
    requires
        0 <= i <= j,
    ensures
        0 <= spec_root_progress(i, n) <= spec_root_progress(j, n),
        j < n ==> spec_root_progress(j, n) <= 80,
{
    let d = if n < 1 {
        1int
    } else {
        n
    };
    lemma_div_pos_is_pos((i + 1) * 80, d);
    lemma_div_is_ordered((i + 1) * 80, (j + 1) * 80, d);
    if j < n {
        lemma_div_is_ordered((j + 1) * 80, 80 * d, d);
        lemma_div_by_multiple(80, d);
    }
}

/// Drives one search over an ordered root list, reporting progress and
/// accumulating matches.
pub struct SearchOrchestrator {
    filename: String,
    roots: Vec<String>,
    next_root: usize,
    found: Vec<String>,
    last_progress: u32,
    finished: bool,
}

impl SearchOrchestrator {
    /// The requested filename.
    pub closed spec fn spec_filename(&self) -> Seq<char> {
        self.filename@
    }

    /// The ordered root list the search runs over.
    pub closed spec fn spec_roots(&self) -> Seq<Seq<char>> {
        self.roots.deep_view()
    }

    /// The index of the next root to traverse.
    pub closed spec fn spec_next_root(&self) -> int {
        self.next_root as int
    }

    /// The matches accumulated so far, in discovery order.
    pub closed spec fn spec_found(&self) -> Seq<Seq<char>> {
        self.found.deep_view()
    }

    /// The progress value most recently emitted.
    pub closed spec fn spec_last_progress(&self) -> int {
        self.last_progress as int
    }

    /// Whether `finish` has already run.
    pub closed spec fn spec_finished(&self) -> bool {
        self.finished
    }

    /// Internal consistency: the next-root index is in range and, until the
    /// search is finished, the last emitted progress is exactly the value
    /// for the root most recently begun.
    pub closed spec fn wf(&self) -> bool {
        &&& self.next_root <= self.roots@.len()
        &&& (self.finished || self.last_progress as int == (
        if self.next_root == 0 {
            0int
        } else {
            spec_root_progress(self.next_root - 1, self.roots@.len() as int)
        }))
    }

    /// Starts a search; the returned record is the initial progress event.
    pub fn new(filename: String, roots: Vec<String>) -> (r: (SearchOrchestrator, SearchProgress))
        ensures
            r.0.wf(),
            !r.0.spec_finished(),
            r.0.spec_filename() == filename@,
            r.0.spec_roots() == roots.deep_view(),
            r.0.spec_next_root() == 0,
            r.0.spec_found() == Seq::<Seq<char>>::empty(),
            r.0.spec_last_progress() == 0,
            r.1.current == 0,
            r.1.total == 100,
            r.1.found_count == 0,
            r.1.message@ == "Starting search..."@,
    {
        let orch = SearchOrchestrator {
            filename,
            roots,
            next_root: 0,
            found: Vec::new(),
            last_progress: 0,
            finished: false,
        };
        let progress = SearchProgress {
            current: 0,
            total: 100,
            message: String::from_str("Starting search..."),
            found_count: 0,
        };
        proof {
            assert(orch.found.deep_view() =~= Seq::<Seq<char>>::empty());
        }
        (orch, progress)
    }

    /// Whether a root remains to be traversed.
    pub fn has_next_root(&self) -> (r: bool)
        ensures
            r == (self.spec_next_root() < self.spec_roots().len()),
    {
        self.next_root < self.roots.len()
    }

    /// The number of matches recorded so far.
    pub fn found_count(&self) -> (r: usize)
        ensures
            r == self.spec_found().len(),
    {
        self.found.len()
    }

    /// Hands out the next root to traverse, together with the progress
    /// record to emit for it. The emitted value never falls below the
    /// previous one.
    pub fn begin_root(&mut self) -> (r: (String, SearchProgress))
        requires
            old(self).wf(),
            !old(self).spec_finished(),
            old(self).spec_next_root() < old(self).spec_roots().len(),
        ensures
            final(self).wf(),
            !final(self).spec_finished(),
            final(self).spec_filename() == old(self).spec_filename(),
            final(self).spec_roots() == old(self).spec_roots(),
            final(self).spec_found() == old(self).spec_found(),
            final(self).spec_next_root() == old(self).spec_next_root() + 1,
            r.0@ == old(self).spec_roots()[old(self).spec_next_root()],
            r.1.total == 100,
            r.1.found_count == old(self).spec_found().len(),
            r.1.current as int == spec_root_progress(
                old(self).spec_next_root(),
                old(self).spec_roots().len() as int,
            ),
            r.1.current as int >= old(self).spec_last_progress(),
            final(self).spec_last_progress() == r.1.current as int,
            r.1.message@ == "Searching in: "@ + r.0@,
    {
        let i = self.next_root;
        let n = self.roots.len();
        let denom: u128 = if n < 1 {
            1
        } else {
            n as u128
        };
        let numer: u128 = (i as u128 + 1) * 80;
        let quotient: u128 = numer / denom;
        proof {
            lemma_root_progress_monotone(i as int, i as int, n as int);
            if i > 0 {
                lemma_root_progress_monotone(i as int - 1, i as int, n as int);
            }
            assert(quotient as int == spec_root_progress(i as int, n as int));
        }
        let progress_value: u32 = quotient as u32;
        let root = self.roots[i].clone();
        let mut message = String::from_str("Searching in: ");
        message.append(root.as_str());
        let found_count = self.found.len();
        self.next_root = i + 1;
        self.last_progress = progress_value;
        proof {
            assert(self.roots.deep_view()[i as int] == self.roots@[i as int]@);
        }
        let progress = SearchProgress { current: progress_value, total: 100, message, found_count };
        (root, progress)
    }

    /// Appends the matches one root traversal produced, in their order.
    pub fn record_matches(&mut self, matches: Vec<String>)
        requires
            old(self).wf(),
            !old(self).spec_finished(),
        ensures
            final(self).wf(),
            !final(self).spec_finished(),
            final(self).spec_filename() == old(self).spec_filename(),
            final(self).spec_roots() == old(self).spec_roots(),
            final(self).spec_next_root() == old(self).spec_next_root(),
            final(self).spec_last_progress() == old(self).spec_last_progress(),
            final(self).spec_found() == old(self).spec_found() + matches.deep_view(),
    {
        let ghost f0 = self.found;
        let ghost m0 = matches;
        let mut incoming = matches;
        self.found.append(&mut incoming);
        proof {
            assert forall|j: int| 0 <= j < self.found.deep_view().len() implies #[trigger] self
                .found
                .deep_view()[j] == (f0.deep_view() + m0.deep_view())[j] by {
                assert(self.found.deep_view()[j] == self.found@[j].deep_view());
                if j < f0@.len() {
                    assert(f0.deep_view()[j] == f0@[j].deep_view());
                } else {
                    assert(m0.deep_view()[j - f0@.len()] == m0@[j - f0@.len()].deep_view());
                }
            }
            assert(self.found.deep_view() =~= f0.deep_view() + m0.deep_view());
        }
    }

    /// Ends the search. With at least one match the completion record says
    /// 100 and the matches are returned; with none, the fallback record says
    /// 90 and the manual-selection request is returned alongside an empty
    /// sequence. Either way the emitted value never falls below the previous
    /// one.
    pub fn finish(&mut self) -> (r: (SearchProgress, Option<DialogRequest>, Vec<String>))
        requires
            old(self).wf(),
            !old(self).spec_finished(),
            old(self).spec_next_root() == old(self).spec_roots().len(),
        ensures
            final(self).spec_finished(),
            final(self).wf(),
            r.2.deep_view() == old(self).spec_found(),
            r.0.total == 100,
            r.0.current as int >= old(self).spec_last_progress(),
            old(self).spec_found().len() > 0 ==> {
                &&& r.0.current == 100
                &&& r.0.found_count == old(self).spec_found().len()
                &&& r.0.message@ == "Search completed! Found "@ + spec_decimal(
                    old(self).spec_found().len() as int,
                ) + " files"@
                &&& r.1 is None
            },
            old(self).spec_found().len() == 0 ==> {
                &&& r.0.current == 90
                &&& r.0.found_count == 0
                &&& r.0.message@
                    == "File not found in predefined paths. Please select file manually..."@
                &&& r.1 matches Some(d) && d.filename@ == old(self).spec_filename()
                    && d.message@
                    == "File not found in predefined paths. Please select the file manually."@
            },
    {
        proof {
            if self.next_root > 0 {
                lemma_root_progress_monotone(
                    self.next_root as int - 1,
                    self.next_root as int - 1,
                    self.roots@.len() as int,
                );
            }
        }
        let mut out: Vec<String> = Vec::new();
        core::mem::swap(&mut out, &mut self.found);
        self.finished = true;
        if out.len() > 0 {
            let count = out.len();
            let mut message = String::from_str("Search completed! Found ");
            message.append(decimal_string(count).as_str());
            message.append(" files");
            self.last_progress = 100;
            let progress = SearchProgress { current: 100, total: 100, message, found_count: count };
            (progress, None, out)
        } else {
            let progress = SearchProgress {
                current: 90,
                total: 100,
                message: String::from_str(
                    "File not found in predefined paths. Please select file manually...",
                ),
                found_count: 0,
            };
            let dialog = DialogRequest {
                filename: self.filename.clone(),
                message: String::from_str(
                    "File not found in predefined paths. Please select the file manually.",
                ),
            };
            self.last_progress = 90;
            (progress, Some(dialog), out)
        }
    }
}

/// The fixed install-location guesses searched before anything else, in
/// priority order.
pub fn get_predefined_search_paths() -> (r: Vec<String>)
    ensures
        r.deep_view() =~= seq![
            "C:\\Program Files (x86)\\Diablo II Resurrected"@,
            "C:\\Program Files\\Diablo II Resurrected"@,
            "C:\\Games\\Diablo II Resurrected"@,
            "D:\\Games\\Diablo II Resurrected"@,
            "E:\\Games\\Diablo II Resurrected"@,
        ],
{
    let mut paths: Vec<String> = Vec::new();
    paths.push(String::from_str("C:\\Program Files (x86)\\Diablo II Resurrected"));
    paths.push(String::from_str("C:\\Program Files\\Diablo II Resurrected"));
    paths.push(String::from_str("C:\\Games\\Diablo II Resurrected"));
    paths.push(String::from_str("D:\\Games\\Diablo II Resurrected"));
    paths.push(String::from_str("E:\\Games\\Diablo II Resurrected"));
    proof {
        assert(paths.deep_view() =~= seq![
            "C:\\Program Files (x86)\\Diablo II Resurrected"@,
            "C:\\Program Files\\Diablo II Resurrected"@,
            "C:\\Games\\Diablo II Resurrected"@,
            "D:\\Games\\Diablo II Resurrected"@,
            "E:\\Games\\Diablo II Resurrected"@,
        ]);
    }
    paths
}

/// The decision behind selected-path validation: an existing path is echoed
/// back, a missing one is the typed error.
pub fn validate_selection(file_path: String, exists: bool) -> (r: Result<String, String>)
    ensures
        exists ==> (r matches Ok(chosen) && chosen@ == file_path@),
        !exists ==> (r matches Err(m) && m@ == "Selected file does not exist"@),
{
    if exists {
        Ok(file_path)
    } else {
        Err(String::from_str("Selected file does not exist"))
    }
}

/// The decision behind the manual picker's outcome: a picked path that
/// converted to text is echoed, the two failure shapes get their typed
/// errors.
pub fn dialog_outcome(picked: bool, utf8_path: Option<String>) -> (r: Result<String, String>)
    ensures
        (picked && utf8_path is Some) ==> (r matches Ok(s) && s@ == utf8_path->Some_0@),
        (picked && utf8_path is None) ==> (r matches Err(m) && m@ == "Invalid file path"@),
        !picked ==> (r matches Err(m) && m@ == "No file selected"@),
{
    if !picked {
        Err(String::from_str("No file selected"))
    } else {
        match utf8_path {
            Some(s) => Ok(s),
            None => Err(String::from_str("Invalid file path")),
        }
    }
}

} // verus!
