//! Positions inside a text buffer.
//!
//! An anchor is a stable position token: the buffer collaborator re-resolves
//! it to a live offset after edits elsewhere in the buffer. The completion
//! logic never inspects buffer contents; it only compares anchors for
//! equality (context matching) and for order (edit placement), so an anchor
//! is carried here as its resolved offset, and a buffer as its identity.

use vstd::prelude::*;

verus! {

/// Identity of one text buffer, as handed out by the buffer collaborator.
#[derive(Clone, Copy, PartialEq, Eq, Structural, Debug)]
pub struct BufferId {
    pub id: u64,
}

/// A stable position token in a buffer, carried as its resolved offset.
#[derive(Clone, Copy, PartialEq, Eq, Structural, Debug)]
pub struct Anchor {
    pub offset: u64,
}

/// A pair of anchors delimiting a span of the buffer.
#[derive(Clone, Copy, PartialEq, Eq, Structural, Debug)]
pub struct AnchorRange {
    pub start: Anchor,
    pub end: Anchor,
}

impl AnchorRange {
    /// A range is ordered: it never ends before it starts.
    pub open spec fn wf(self) -> bool {
        self.start.offset <= self.end.offset
    }

    /// Whether the range is ordered, as `wf` states.
    pub fn is_well_formed(&self) -> (r: bool)
        ensures
            r == self.wf(),
    {
        self.start.offset <= self.end.offset
    }
}

} // verus!
