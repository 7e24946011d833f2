use vstd::prelude::*;

verus! {

/// The screen to open next.
#[derive(Debug, Clone, Copy, PartialEq, Eq, Structural)]
pub enum NextActivity {
    NextIssueAcitivity,
    NextProjectActivity,
}

} // verus!
