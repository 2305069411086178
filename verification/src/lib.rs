//! Locates a named file under a set of candidate roots and repairs write
//! access on chosen paths.
//!
//! The crate is organised around five pieces: a pure pruning predicate over
//! directory names and path fragments (`filter`), a depth-bounded walker over
//! a directory tree model (`walker`), a progress-reporting search driver
//! (`search`), a per-path write-access remediation state machine (`remedy`),
//! and a batch directory-creation planner (`ensure`). Filesystem reads and
//! writes themselves happen outside the crate; callers feed their outcomes
//! into the state machines, which decide every step.

pub mod driver;
pub mod ensure;
pub mod filter;
pub mod remedy;
pub mod search;
pub mod text;
pub mod walker;
