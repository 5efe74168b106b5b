//! What keeps a child process from outliving the application.
use vstd::prelude::*;

verus! {

#[verifier::external_type_specification]
#[verifier::external_body]
pub struct ExChild(tokio::process::Child);

/// On Unix a child needs no tracking beyond the handle itself: children are
/// spawned to be killed when their handle is dropped.
pub struct ProcessTracker;

impl ProcessTracker {
    /// The tracker of `child`; there always is one.
    pub fn new_for_child(_child: &tokio::process::Child) -> (r: Option<Self>)
        ensures
            r is Some,
    {
        Some(ProcessTracker)
    }
}

} // verus!
