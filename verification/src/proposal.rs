//! Proposed edits.
//!
//! A completion proposal is one candidate suggestion: an ordered sequence of
//! atomic text replacements. The edits of one proposal must be ordered and
//! non-overlapping, so that applying them in sequence order is always sound
//! (several simultaneous insertions, as in multi-cursor completions), and a
//! proposal is never empty: "no suggestion" is an absent proposal, not an
//! empty one. Both rules are enforced by construction: `CompletionProposal::new`
//! rejects any sequence of edits that breaks them.

use vstd::prelude::*;

use crate::position::AnchorRange;

verus! {

/// One atomic text replacement: a span of the buffer and its new content.
pub struct CompletionEdit {
    /// The replacement content.
    pub text: String,
    /// The span being replaced; an empty span is a pure insertion.
    pub range: AnchorRange,
}

impl Clone for CompletionEdit {
    /// A cloned edit equals the original.
    fn clone(&self) -> (r: Self)
        ensures
            r == *self,
    {
        CompletionEdit { text: self.text.clone(), range: self.range }
    }
}

/// An edit is well-formed when its range is ordered.
pub open spec fn edit_wf(e: CompletionEdit) -> bool {
    e.range.wf()
}

/// A sequence of edits forms a proposal when it is non-empty, every edit is
/// well-formed, and consecutive edits do not overlap and appear in buffer
/// order.
pub open spec fn proposal_edits_wf(es: Seq<CompletionEdit>) -> bool {
    &&& es.len() > 0
    &&& forall|i: int| 0 <= i < es.len() ==> edit_wf(#[trigger] es[i])
    &&& forall|i: int|
        0 <= i && i + 1 < es.len() ==> (#[trigger] es[i]).range.end.offset
            <= es[i + 1].range.start.offset
}

impl Clone for CompletionProposal {
    /// A cloned proposal carries the same edits as the original.
    fn clone(&self) -> (r: Self)
        ensures
            r.edit_seq() == self.edit_seq(),
    {
        let edits = self.edits.clone();
        proof {
            assert(edits@ =~= self.edits@);
        }
        CompletionProposal { edits }
    }
}

/// Checks the proposal rules over an edit list: non-empty, each range
/// ordered, consecutive edits in buffer order without overlap. The one
/// place the rules are checked; `new` and `is_well_formed` both rely on it.
fn edits_well_formed(edits: &Vec<CompletionEdit>) -> (r: bool)
    ensures
        r == proposal_edits_wf(edits@),
{
    if edits.len() == 0 {
        return false;
    }
    let mut i: usize = 0;
    while i < edits.len()
        invariant
            0 <= i <= edits.len(),
            forall|k: int| 0 <= k < i ==> edit_wf(#[trigger] edits@[k]),
        decreases edits.len() - i,
    {
        if !edits[i].range.is_well_formed() {
            return false;
        }
        i = i + 1;
    }
    let mut j: usize = 0;
    while j + 1 < edits.len()
        invariant
            0 <= j,
            edits.len() > 0,
            j + 1 <= edits.len(),
            forall|k: int|
                0 <= k && k + 1 < j + 1 ==> (#[trigger] edits@[k]).range.end.offset
                    <= edits@[k + 1].range.start.offset,
        decreases edits.len() - j,
    {
        if edits[j].range.end.offset > edits[j + 1].range.start.offset {
            return false;
        }
        j = j + 1;
    }
    true
}

/// One candidate suggestion: an ordered, non-overlapping sequence of edits.
///
/// Values of this type can only be built through `new`, which rejects any
/// edit sequence that is empty, has an unordered range, or has edits out of
/// buffer order, so every proposal in circulation satisfies `wf`.
pub struct CompletionProposal {
    edits: Vec<CompletionEdit>,
}

impl CompletionProposal {
    /// The edits of this proposal, as a sequence.
    pub closed spec fn edit_seq(self) -> Seq<CompletionEdit> {
        self.edits@
    }

    /// Well-formedness: ordered, non-overlapping, non-empty edits.
    pub open spec fn wf(self) -> bool {
        proposal_edits_wf(self.edit_seq())
    }

    /// Builds a proposal from `edits`, or refuses them: the result is `Some`
    /// exactly when the edits are non-empty, each range is ordered, and
    /// consecutive edits appear in buffer order without overlap.
    pub fn new(edits: Vec<CompletionEdit>) -> (r: Option<CompletionProposal>)
        ensures
            match r {
                Some(p) => p.edit_seq() == edits@ && proposal_edits_wf(edits@),
                None => !proposal_edits_wf(edits@),
            },
    {
        if edits_well_formed(&edits) {
            Some(CompletionProposal { edits })
        } else {
            None
        }
    }

    /// Read access to the edits.
    pub fn edits(&self) -> (r: &Vec<CompletionEdit>)
        ensures
            r@ == self.edit_seq(),
    {
        &self.edits
    }

    /// How many edits the proposal carries.
    pub fn edit_count(&self) -> (r: usize)
        ensures
            r == self.edit_seq().len(),
    {
        self.edits.len()
    }

    /// Whether the proposal satisfies `wf`.
    pub fn is_well_formed(&self) -> (r: bool)
        ensures
            r == self.wf(),
    {
        edits_well_formed(&self.edits)
    }
}

/// Applying the edits of a well-formed proposal in sequence order never
/// produces overlapping ranges: every earlier edit ends no later than any
/// later edit starts, not only adjacent ones.
pub proof fn lemma_edits_nonoverlapping(es: Seq<CompletionEdit>, i: int, j: int)
    requires
        proposal_edits_wf(es),
        0 <= i < j < es.len(),
    ensures
        es[i].range.end.offset <= es[j].range.start.offset,
    decreases j - i,
{
    if i + 1 < j {
        lemma_edits_nonoverlapping(es, i + 1, j);
        assert(edit_wf(es[i + 1]));
    }
}

/// The same statement, phrased on a proposal value.
pub proof fn lemma_proposal_edits_nonoverlapping(p: CompletionProposal, i: int, j: int)
    requires
        p.wf(),
        0 <= i < j < p.edit_seq().len(),
    ensures
        p.edit_seq()[i].range.end.offset <= p.edit_seq()[j].range.start.offset,
{
    lemma_edits_nonoverlapping(p.edit_seq(), i, j);
}

} // verus!
