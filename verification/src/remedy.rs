//! Write-access remediation: a per-path state machine and its batch driver.
//!
//! Remediation of one path runs four states in a fixed line: inspect the
//! target's metadata, clear a read-only flag (with a command-line fallback on
//! Windows), escalate permissions best-effort, and probe writability by an
//! actual open-for-append. The host performs each OS action and feeds the
//! outcome back; every transition accepts every outcome, so a path's
//! remediation always reaches its report and a batch never aborts early.

use vstd::prelude::*;
use vstd::string::StrSliceExecFns;
use vstd::string::StringExecFns;
use crate::filter::Platform;
use crate::walker::spec_separator;

verus! {

broadcast use vstd::std_specs::vec::group_vec_axioms;

/// The outcome of remediating one path.
pub struct RemediationReport {
    pub path: String,
    pub is_readonly: bool,
    pub removed_readonly: bool,
    pub granted_acl: bool,
    pub writable: bool,
    pub error: Option<String>,
}

/// Where a path's remediation stands; each phase names the OS action the
/// host must perform next.
#[derive(Clone, Copy, PartialEq, Eq, Structural, Debug)]
pub enum RemedyPhase {
    Inspect,
    ClearNative,
    ClearFallback,
    Escalate,
    Probe,
    Done,
}

/// The number of characters of `s` before its last `sep`; zero when no
/// separator occurs.
pub open spec fn spec_parent_len(s: Seq<char>, sep: char) -> int
    decreases s.len(),
{
    if s.len() == 0 {
        0
    } else if s[s.len() - 1] == sep {
        s.len() - 1
    } else {
        spec_parent_len(s.drop_last(), sep)
    }
}

/// The parent of a path: everything before the last separator, empty when
/// there is none.
pub open spec fn spec_parent(s: Seq<char>, sep: char) -> Seq<char> {
    s.subrange(0, spec_parent_len(s, sep))
}

proof fn lemma_parent_len_at(s: Seq<char>, sep: char, j: int)
    requires
        0 <= j < s.len(),
        s[j] == sep,
        forall|k: int| j < k < s.len() ==> s[k] != sep,
    ensures
        spec_parent_len(s, sep) == j,
    decreases s.len(),
{
    if j < s.len() - 1 {
        lemma_parent_len_at(s.drop_last(), sep, j);
    }
}

proof fn lemma_parent_len_none(s: Seq<char>, sep: char)
    requires
        forall|k: int| 0 <= k < s.len() ==> s[k] != sep,
    ensures
        spec_parent_len(s, sep) == 0,
    decreases s.len(),
{
    if s.len() > 0 {
        lemma_parent_len_none(s.drop_last(), sep);
    }
}

/// The parent directory of `path` under the platform's separator.
pub fn parent_of(path: &str, p: Platform) -> (r: String)
    ensures
        r@ == spec_parent(path@, spec_separator(p)),
{
    let sep = match p {
        Platform::Windows => '\\',
        Platform::Posix => '/',
    };
    let len = path.unicode_len();
    let mut j: usize = len;
    while j > 0
        invariant
            j <= len,
            len == path@.len(),
            sep == spec_separator(p),
            forall|k: int| j <= k < len ==> path@[k] != sep,
        decreases j,
    {
        let c = path.get_char(j - 1);
        if c == sep {
            proof {
                lemma_parent_len_at(path@, sep, j - 1);
            }
            let parent = path.substring_char(0, j - 1);
            return parent.to_owned();
        }
        j -= 1;
    }
    proof {
        lemma_parent_len_none(path@, sep);
        assert(path@.subrange(0, 0) =~= Seq::<char>::empty());
    }
    String::new()
}

/// Remediation of one path, driven outcome by outcome.
pub struct Remediation {
    path: String,
    target: String,
    platform: Platform,
    phase: RemedyPhase,
    is_readonly: bool,
    removed_readonly: bool,
    granted_acl: bool,
    writable: bool,
    error: Option<String>,
}

impl Remediation {
    /// The path being remediated.
    pub closed spec fn spec_path(&self) -> Seq<char> {
        self.path@
    }

    /// The attribute target: the path itself when it exists, its parent
    /// otherwise.
    pub closed spec fn spec_target(&self) -> Seq<char> {
        self.target@
    }

    /// The platform whose permission conventions apply.
    pub closed spec fn spec_platform(&self) -> Platform {
        self.platform
    }

    /// The current phase.
    pub closed spec fn spec_phase(&self) -> RemedyPhase {
        self.phase
    }

    /// Whether inspection saw a read-only flag.
    pub closed spec fn spec_is_readonly(&self) -> bool {
        self.is_readonly
    }

    /// Whether the read-only flag was actually cleared.
    pub closed spec fn spec_removed_readonly(&self) -> bool {
        self.removed_readonly
    }

    /// Whether the permission escalation reported success.
    pub closed spec fn spec_granted_acl(&self) -> bool {
        self.granted_acl
    }

    /// Whether the open-for-append probe succeeded.
    pub closed spec fn spec_writable(&self) -> bool {
        self.writable
    }

    /// The first diagnostic recorded, if any.
    pub closed spec fn spec_error(&self) -> Option<Seq<char>> {
        match self.error {
            Option::None => Option::None,
            Option::Some(e) => Option::Some(e@),
        }
    }

    /// Starts remediating `path`. The attribute target is the path itself
    /// when it exists, else its parent: a path yet to be created needs its
    /// parent writable.
    pub fn start(path: String, exists: bool, p: Platform) -> (r: Remediation)
        ensures
            r.spec_phase() is Inspect,
            r.spec_path() == path@,
            exists ==> r.spec_target() == path@,
            !exists ==> r.spec_target() == spec_parent(path@, spec_separator(p)),
            r.spec_platform() == p,
            !r.spec_is_readonly(),
            !r.spec_removed_readonly(),
            !r.spec_granted_acl(),
            !r.spec_writable(),
            r.spec_error() is None,
    {
        let target = if exists {
            path.clone()
        } else {
            parent_of(path.as_str(), p)
        };
        Remediation {
            path,
            target,
            platform: p,
            phase: RemedyPhase::Inspect,
            is_readonly: false,
            removed_readonly: false,
            granted_acl: false,
            writable: false,
            error: None,
        }
    }

    /// The attribute target the host's OS actions must aim at.
    pub fn target(&self) -> (r: &String)
        ensures
            r@ == self.spec_target(),
    {
        &self.target
    }

    /// The current phase, naming the next OS action.
    pub fn phase(&self) -> (r: RemedyPhase)
        ensures
            r == self.spec_phase(),
    {
        self.phase
    }

    /// Feeds in the metadata inspection outcome: the read-only flag, or the
    /// failure diagnostic. A failure leaves the read-only fields untouched
    /// and processing continues; clearing is next only when a read-only flag
    /// was actually seen.
    pub fn on_inspect(&mut self, metadata_readonly: Result<bool, String>)
        requires
            old(self).spec_phase() is Inspect,
        ensures
            final(self).spec_path() == old(self).spec_path(),
            final(self).spec_target() == old(self).spec_target(),
            final(self).spec_platform() == old(self).spec_platform(),
            final(self).spec_removed_readonly() == old(self).spec_removed_readonly(),
            final(self).spec_granted_acl() == old(self).spec_granted_acl(),
            final(self).spec_writable() == old(self).spec_writable(),
            metadata_readonly matches Ok(ro) ==> (final(self).spec_is_readonly() == ro
                && final(self).spec_error() == old(self).spec_error()),
            metadata_readonly matches Err(m) ==> (final(self).spec_is_readonly() == old(
                self,
            ).spec_is_readonly() && ((final(self)).spec_error() matches Some(e) && e == m@)),
            final(self).spec_phase() is ClearNative <==> (metadata_readonly matches Ok(ro) && ro),
            !(final(self).spec_phase() is ClearNative) ==> final(self).spec_phase() is Escalate,
    {
        match metadata_readonly {
            Ok(ro) => {
                self.is_readonly = ro;
                self.phase = if ro {
                    RemedyPhase::ClearNative
                } else {
                    RemedyPhase::Escalate
                };
            },
            Err(m) => {
                self.error = Some(m);
                self.phase = RemedyPhase::Escalate;
            },
        }
    }

    /// Feeds in the outcome of clearing the read-only flag through the
    /// native permission API. On failure, Windows falls back to the OS
    /// attribute-clearing command; other platforms have no equivalent and
    /// move on to escalation.
    pub fn on_clear_native(&mut self, ok: bool)
        requires
            old(self).spec_phase() is ClearNative,
        ensures
            final(self).spec_path() == old(self).spec_path(),
            final(self).spec_target() == old(self).spec_target(),
            final(self).spec_platform() == old(self).spec_platform(),
            final(self).spec_is_readonly() == old(self).spec_is_readonly(),
            final(self).spec_error() == old(self).spec_error(),
            final(self).spec_granted_acl() == old(self).spec_granted_acl(),
            final(self).spec_writable() == old(self).spec_writable(),
            final(self).spec_removed_readonly() == ok,
            ok ==> final(self).spec_phase() is Escalate,
            (!ok && old(self).spec_platform() is Windows)
                ==> final(self).spec_phase() is ClearFallback,
            (!ok && old(self).spec_platform() is Posix) ==> final(self).spec_phase() is Escalate,
    {
        self.removed_readonly = ok;
        self.phase = if ok {
            RemedyPhase::Escalate
        } else {
            match self.platform {
                Platform::Windows => RemedyPhase::ClearFallback,
                Platform::Posix => RemedyPhase::Escalate,
            }
        };
    }

    /// Feeds in the outcome of the attribute-clearing command fallback.
    pub fn on_clear_fallback(&mut self, ok: bool)
        requires
            old(self).spec_phase() is ClearFallback,
        ensures
            final(self).spec_path() == old(self).spec_path(),
            final(self).spec_target() == old(self).spec_target(),
            final(self).spec_platform() == old(self).spec_platform(),
            final(self).spec_is_readonly() == old(self).spec_is_readonly(),
            final(self).spec_error() == old(self).spec_error(),
            final(self).spec_granted_acl() == old(self).spec_granted_acl(),
            final(self).spec_writable() == old(self).spec_writable(),
            final(self).spec_removed_readonly() == ok,
            final(self).spec_phase() is Escalate,
    {
        self.removed_readonly = ok;
        self.phase = RemedyPhase::Escalate;
    }

    /// Feeds in the outcome of the best-effort permission escalation; its
    /// failure never aborts the sequence.
    pub fn on_escalate(&mut self, ok: bool)
        requires
            old(self).spec_phase() is Escalate,
        ensures
            final(self).spec_path() == old(self).spec_path(),
            final(self).spec_target() == old(self).spec_target(),
            final(self).spec_platform() == old(self).spec_platform(),
            final(self).spec_is_readonly() == old(self).spec_is_readonly(),
            final(self).spec_removed_readonly() == old(self).spec_removed_readonly(),
            final(self).spec_error() == old(self).spec_error(),
            final(self).spec_writable() == old(self).spec_writable(),
            final(self).spec_granted_acl() == ok,
            final(self).spec_phase() is Probe,
    {
        self.granted_acl = ok;
        self.phase = RemedyPhase::Probe;
    }

    /// Feeds in the outcome of the writability probe, the ground truth:
    /// `writable` is set only by a successful open-for-append. A probe
    /// failure is surfaced only when no earlier diagnostic was recorded.
    pub fn on_probe(&mut self, result: Result<(), String>)
        requires
            old(self).spec_phase() is Probe,
        ensures
            final(self).spec_path() == old(self).spec_path(),
            final(self).spec_target() == old(self).spec_target(),
            final(self).spec_platform() == old(self).spec_platform(),
            final(self).spec_is_readonly() == old(self).spec_is_readonly(),
            final(self).spec_removed_readonly() == old(self).spec_removed_readonly(),
            final(self).spec_granted_acl() == old(self).spec_granted_acl(),
            final(self).spec_phase() is Done,
            final(self).spec_writable() == (result is Ok),
            result is Ok ==> final(self).spec_error() == old(self).spec_error(),
            (result is Err && old(self).spec_error() is None) ==> ((final(self)).spec_error() matches Some(e) && e == result->Err_0@),
            (result is Err && old(self).spec_error() is Some)
                ==> final(self).spec_error() == old(self).spec_error(),
    {
        match result {
            Ok(_) => {
                self.writable = true;
            },
            Err(m) => {
                self.writable = false;
                if self.error.is_none() {
                    self.error = Some(m);
                }
            },
        }
        self.phase = RemedyPhase::Done;
    }

    /// The finished report; emitted however many states failed.
    pub fn into_report(self) -> (r: RemediationReport)
        requires
            self.spec_phase() is Done,
        ensures
            r.path@ == self.spec_path(),
            r.is_readonly == self.spec_is_readonly(),
            r.removed_readonly == self.spec_removed_readonly(),
            r.granted_acl == self.spec_granted_acl(),
            r.writable == self.spec_writable(),
            self.spec_error() is None ==> r.error is None,
            self.spec_error() matches Some(e) ==> (r.error matches Some(e2) && e2@ == e),
    {
        RemediationReport {
            path: self.path,
            is_readonly: self.is_readonly,
            removed_readonly: self.removed_readonly,
            granted_acl: self.granted_acl,
            writable: self.writable,
            error: self.error,
        }
    }
}

/// A batch of paths to remediate, processed independently in input order.
pub struct RemediationBatch {
    inputs: Vec<String>,
    next: usize,
    reports: Vec<RemediationReport>,
}

impl RemediationBatch {
    /// The input paths, in order.
    pub closed spec fn spec_inputs(&self) -> Seq<Seq<char>> {
        self.inputs.deep_view()
    }

    /// How many paths have been completed.
    pub closed spec fn spec_next(&self) -> int {
        self.next as int
    }

    /// The reports collected so far.
    pub closed spec fn spec_reports(&self) -> Seq<RemediationReport> {
        self.reports@
    }

    /// One report stands for each completed input, in input order.
    pub closed spec fn wf(&self) -> bool {
        &&& self.next <= self.inputs@.len()
        &&& self.reports@.len() == self.next as int
        &&& forall|i: int|
            0 <= i < self.next as int ==> #[trigger] self.reports@[i].path@
                == self.inputs.deep_view()[i]
    }

    /// Starts a batch over the given paths.
    pub fn new(paths: Vec<String>) -> (r: RemediationBatch)
        ensures
            r.wf(),
            r.spec_inputs() == paths.deep_view(),
            r.spec_next() == 0,
            r.spec_reports() == Seq::<RemediationReport>::empty(),
    {
        let b = RemediationBatch { inputs: paths, next: 0, reports: Vec::new() };
        proof {
            assert(b.reports@ =~= Seq::<RemediationReport>::empty());
        }
        b
    }

    /// Whether a path remains to be remediated.
    pub fn has_next(&self) -> (r: bool)
        ensures
            r == (self.spec_next() < self.spec_inputs().len()),
    {
        self.next < self.inputs.len()
    }

    /// The next path to remediate.
    pub fn next_path(&self) -> (r: String)
        requires
            self.spec_next() < self.spec_inputs().len(),
        ensures
            r@ == self.spec_inputs()[self.spec_next()],
    {
        proof {
            assert(self.inputs.deep_view()[self.next as int] == self.inputs@[self.next as int]@);
        }
        self.inputs[self.next].clone()
    }

    /// Records the finished report for the current path. Any report content
    /// is accepted: per-path failures never abort the batch.
    pub fn push_report(&mut self, report: RemediationReport)
        requires
            old(self).wf(),
            old(self).spec_next() < old(self).spec_inputs().len(),
            report.path@ == old(self).spec_inputs()[old(self).spec_next()],
        ensures
            final(self).wf(),
            final(self).spec_inputs() == old(self).spec_inputs(),
            final(self).spec_next() == old(self).spec_next() + 1,
            final(self).spec_reports() == old(self).spec_reports().push(report),
    {
        proof {
            assert(self.inputs.deep_view().len() == self.inputs@.len());
        }
        let n = self.inputs.len();
        assert(self.next < n);
        self.reports.push(report);
        self.next = self.next + 1;
    }

    /// The completed batch's reports.
    pub fn finish(self) -> (r: Vec<RemediationReport>)
        requires
            self.wf(),
            self.spec_next() == self.spec_inputs().len(),
        ensures
            r@ == self.spec_reports(),
            r@.len() == self.spec_inputs().len(),
            forall|i: int|
                0 <= i < self.spec_inputs().len() ==> #[trigger] r@[i].path@
                    == self.spec_inputs()[i],
    {
        self.reports
    }
}

/// A completed remediation batch holds exactly one report per input path,
/// in input order.
pub proof fn lemma_batch_one_report_per_path(b: RemediationBatch)
    requires
        b.wf(),
        b.spec_next() == b.spec_inputs().len(),
    ensures
        b.spec_reports().len() == b.spec_inputs().len(),
        forall|i: int|
            0 <= i < b.spec_inputs().len() ==> #[trigger] b.spec_reports()[i].path@
                == b.spec_inputs()[i],
{
}

} // verus!
