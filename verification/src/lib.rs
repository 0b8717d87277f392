//! Declarative symlink provisioning: a verified link-reconciliation engine.
//!
//! The library decides, for each requested symbolic link, whether it is safe
//! to create, what existing filesystem state blocks it, and how conflicts are
//! retried after user confirmation.  Filesystem probes and mutations are
//! performed by the surrounding program, which drives the state machines
//! defined here; the decision logic itself is verified against a model
//! filesystem.

use vstd::prelude::*;

pub mod answer;
pub mod decimal;
pub mod descriptor;
pub mod fs_model;
pub mod materializer;
pub mod outcome;
pub mod queue;
pub mod recipe;

verus! {

/// Self-updating of the executable is not yet available; reports that no
/// update was performed.
pub fn selfupdate() -> (updated: bool)
    ensures
        !updated,
{
    false
}

} // verus!
