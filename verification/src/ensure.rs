//! Idempotent directory creation over a batch of paths.
//!
//! For each path in order: a regular file sitting at the path is deleted
//! first (a directory there is left alone), then the full directory chain is
//! created. Unlike remediation, a creation failure is batch-fatal: the
//! remaining paths are abandoned and a single error naming the offending
//! path is surfaced. Already-created directories are not rolled back.

use vstd::prelude::*;
use vstd::string::StringExecFns;

verus! {

broadcast use vstd::std_specs::vec::group_vec_axioms;

/// Whether the entry currently at a target path must be deleted before the
/// directory is created: only a regular file conflicts; a directory is kept
/// and creation relied on to succeed on it.
pub fn must_delete_conflict(exists: bool, is_regular_file: bool) -> (r: bool)
    ensures
        r == (exists && is_regular_file),
{
    exists && is_regular_file
}

/// Drives one batch of directory-creation requests, in input order, with a
/// batch-fatal stop on the first creation failure.
pub struct DirectoryEnsurer {
    inputs: Vec<String>,
    next: usize,
    failed: bool,
}

impl DirectoryEnsurer {
    /// The requested directory paths, in order.
    pub closed spec fn spec_inputs(&self) -> Seq<Seq<char>> {
        self.inputs.deep_view()
    }

    /// How many paths have been confirmed.
    pub closed spec fn spec_next(&self) -> int {
        self.next as int
    }

    /// Whether a creation failure has stopped the batch.
    pub closed spec fn spec_failed(&self) -> bool {
        self.failed
    }

    /// The confirmed index stays within the input list.
    pub closed spec fn wf(&self) -> bool {
        self.next <= self.inputs@.len()
    }

    /// Starts a batch over the given paths.
    pub fn new(paths: Vec<String>) -> (r: DirectoryEnsurer)
        ensures
            r.wf(),
            r.spec_inputs() == paths.deep_view(),
            r.spec_next() == 0,
            !r.spec_failed(),
    {
        DirectoryEnsurer { inputs: paths, next: 0, failed: false }
    }

    /// Whether a path remains to be ensured.
    pub fn has_next(&self) -> (r: bool)
        ensures
            r == (self.spec_next() < self.spec_inputs().len() && !self.spec_failed()),
    {
        !self.failed && self.next < self.inputs.len()
    }

    /// The next path to ensure.
    pub fn next_path(&self) -> (r: String)
        requires
            self.spec_next() < self.spec_inputs().len(),
            !self.spec_failed(),
        ensures
            r@ == self.spec_inputs()[self.spec_next()],
    {
        proof {
            assert(self.inputs.deep_view()[self.next as int] == self.inputs@[self.next as int]@);
        }
        self.inputs[self.next].clone()
    }

    /// Records the outcome of creating the current path (after any
    /// conflicting file was deleted). Success confirms the path and moves
    /// on; failure stops the whole batch and surfaces one error naming the
    /// offending path.
    pub fn step(&mut self, create_ok: bool) -> (r: Option<String>)
        requires
            old(self).wf(),
            old(self).spec_next() < old(self).spec_inputs().len(),
            !old(self).spec_failed(),
        ensures
            final(self).wf(),
            final(self).spec_inputs() == old(self).spec_inputs(),
            create_ok ==> (r is None && !final(self).spec_failed() && final(self).spec_next()
                == old(self).spec_next() + 1),
            !create_ok ==> (final(self).spec_failed() && final(self).spec_next() == old(
                self,
            ).spec_next() && (r matches Some(m) && m@ == "Failed to create directory: "@ + old(
                self,
            ).spec_inputs()[old(self).spec_next()])),
    {
        if create_ok {
            proof {
                assert(self.inputs.deep_view().len() == self.inputs@.len());
            }
            let n = self.inputs.len();
            assert(self.next < n);
            self.next = self.next + 1;
            None
        } else {
            let mut message = String::from_str("Failed to create directory: ");
            let path = self.next_path();
            message.append(path.as_str());
            self.failed = true;
            Some(message)
        }
    }

    /// The confirmed batch: the input sequence echoed back on success.
    pub fn finish(self) -> (r: Vec<String>)
        requires
            self.wf(),
            !self.spec_failed(),
            self.spec_next() == self.spec_inputs().len(),
        ensures
            r.deep_view() == self.spec_inputs(),
    {
        self.inputs
    }
}

} // verus!
