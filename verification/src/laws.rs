//! Lifecycle laws.
//!
//! These proof functions state, over the protocol transitions of
//! `crate::protocol`, the guarantees the provider contract gives the editor:
//! stale results are suppressed, reads are gated on the context, cycling
//! wraps around and supersedes whatever was still pending, accept and
//! discard silence every later read until a new request lands, and a burst
//! of debounced refreshes costs at most one computation. Because every verb of `crate::provider` pins its state
//! change to the matching transition, each law holds of every engine that
//! meets the contract.

use vstd::prelude::*;

use crate::proposal::CompletionProposal;
use crate::protocol::{
    active_text, cleared_state, complete_step, cycle_action, cycle_step, debounce_action,
    lemma_wrapped_index, proposals_ok, refresh_action, refresh_step, state_wf, CompletionContext,
    PendingRequest, ProtocolState, ProviderAction, Direction,
};

verus! {

/// Staleness suppression: when a refresh for `c1` is followed by a refresh
/// for `c2` before the first computation completes, the first result is
/// dropped unchanged whenever it arrives, and in either completion order the
/// state that remains is the one produced by `c2`'s result — candidates from
/// `p2`, or no suggestion at all, but never `c1`'s result.
pub proof fn lemma_staleness_suppression(
    s: ProtocolState,
    c1: CompletionContext,
    d1: bool,
    c2: CompletionContext,
    d2: bool,
    p1: Seq<CompletionProposal>,
    p2: Seq<CompletionProposal>,
)
    requires
        state_wf(s),
        s.next_request + 2 <= u64::MAX,
    ensures
        ({
            let r1 = s.next_request;
            let s1 = refresh_step(s, c1, d1);
            let r2 = s1.next_request;
            let s2 = refresh_step(s1, c2, d2);
            &&& complete_step(s2, r1, p1) == s2
            &&& complete_step(complete_step(s2, r1, p1), r2, p2) == complete_step(s2, r2, p2)
            &&& complete_step(complete_step(s2, r2, p2), r1, p1) == complete_step(s2, r2, p2)
            &&& (complete_step(s2, r2, p2).context == Some(c2) || complete_step(
                s2,
                r2,
                p2,
            ).context is None)
            &&& (complete_step(s2, r2, p2).candidates == p2 || complete_step(s2, r2, p2).candidates
                == Seq::<CompletionProposal>::empty())
        }),
{
}

/// Context-gated read: a read returns a proposal only when the caller's
/// context is exactly the one the cached candidates were computed for, and
/// then it returns the active one of them, well-formed; at any other context
/// it returns nothing.
pub proof fn lemma_context_gated_read(s: ProtocolState, ctx: CompletionContext)
    requires
        state_wf(s),
    ensures
        active_text(s, ctx) is Some ==> s.context == Some(ctx) && active_text(s, ctx) == Some(
            s.candidates[s.active_index],
        ),
        s.context != Some(ctx) ==> active_text(s, ctx) is None,
        active_text(s, ctx) matches Some(p) ==> p.wf(),
{
}

/// The read after a successful completion: the result of the request that
/// was still pending becomes readable exactly at the context it was computed
/// for, with the first candidate active, and at no other context.
pub proof fn lemma_completion_read(
    s: ProtocolState,
    pend: PendingRequest,
    proposals: Seq<CompletionProposal>,
    other: CompletionContext,
)
    requires
        state_wf(s),
        s.pending == Some(pend),
        proposals_ok(proposals),
    ensures
        ({
            let t = complete_step(s, pend.id, proposals);
            &&& active_text(t, pend.context) == Some(proposals[0])
            &&& other != pend.context ==> active_text(t, other) is None
        }),
{
}

/// Cycle wraparound: with candidates cached for exactly this context, a
/// cycle moves the active index — one forward or one back, modulo the
/// number of candidates — and asks the host for nothing; with a single
/// candidate it is a no-op on the index. The cycle also supersedes any
/// request that was still pending.
pub proof fn lemma_cycle_wraparound(s: ProtocolState, ctx: CompletionContext, direction: Direction)
    requires
        state_wf(s),
        s.context == Some(ctx),
    ensures
        ({
            let n = s.candidates.len() as int;
            let t = cycle_step(s, ctx, direction);
            &&& t.candidates == s.candidates
            &&& t.context == s.context
            &&& t.pending is None
            &&& t.next_request == s.next_request
            &&& 0 <= t.active_index < n
            &&& direction is Next ==> t.active_index == (s.active_index + 1) % n
            &&& direction is Prev ==> t.active_index == (s.active_index - 1 + n) % n
            &&& n == 1 ==> t.active_index == s.active_index
            &&& cycle_action(s, ctx, direction) == ProviderAction::Idle
        }),
{
    lemma_wrapped_index(s.active_index, s.candidates.len() as int, direction);
}

/// A cycle is a superseding event: last-writer-wins goes by request
/// recency, and the cycle is the newest request. Whatever the direction and
/// whichever branch the cycle took, a computation that was in flight when
/// the cycle was issued is dropped when it later completes — it cannot
/// overwrite the cycle's outcome — and a debounce timer armed before the
/// cycle starts nothing.
pub proof fn lemma_cycle_supersedes_pending(
    s: ProtocolState,
    pend: PendingRequest,
    ctx: CompletionContext,
    direction: Direction,
    proposals: Seq<CompletionProposal>,
)
    requires
        state_wf(s),
        s.pending == Some(pend),
    ensures
        ({
            let t = cycle_step(s, ctx, direction);
            &&& complete_step(t, pend.id, proposals) == t
            &&& debounce_action(t, pend.id) == ProviderAction::Idle
        }),
{
    let t = cycle_step(s, ctx, direction);
    if !(s.context == Some(ctx) && s.candidates.len() > 0) {
        assert(t.pending == Some(PendingRequest { id: s.next_request, context: ctx, debounced: false }));
        assert(pend.id != s.next_request);
    }
}

/// Without candidates cached for this exact context, a cycle is a forced,
/// non-debounced refresh.
pub proof fn lemma_cycle_without_cache_refreshes(
    s: ProtocolState,
    ctx: CompletionContext,
    direction: Direction,
)
    requires
        state_wf(s),
        s.context != Some(ctx),
    ensures
        cycle_step(s, ctx, direction) == refresh_step(s, ctx, false),
        cycle_action(s, ctx, direction) == refresh_action(s, ctx, false),
{
}

/// Accept/discard clear state: after the clear both verbs perform, a read
/// at any context returns nothing, and it keeps returning nothing — a late
/// computation result is dropped and a dead debounce timer starts nothing —
/// until a new refresh or cycle populates a proposal.
pub proof fn lemma_clear_silences_reads(
    s: ProtocolState,
    ctx: CompletionContext,
    request: u64,
    proposals: Seq<CompletionProposal>,
)
    ensures
        ({
            let t = cleared_state(s);
            &&& active_text(t, ctx) is None
            &&& complete_step(t, request, proposals) == t
            &&& debounce_action(t, request) == ProviderAction::Idle
            &&& state_wf(t)
        }),
{
}

/// A burst of debounced refreshes, folded in order.
pub open spec fn refresh_burst(s: ProtocolState, contexts: Seq<CompletionContext>) -> ProtocolState
    decreases contexts.len(),
{
    if contexts.len() == 0 {
        s
    } else {
        refresh_burst(
            refresh_step(s, contexts[0], true),
            contexts.subrange(1, contexts.len() as int),
        )
    }
}

/// Debounce coalescing: after any number of debounced refreshes inside one
/// debounce window, only the last request is still pending, so of all the
/// timers started by the burst only the last one's expiry starts a
/// computation — at most one, and for the final context supplied. The
/// cached candidates are untouched by the whole burst.
pub proof fn lemma_debounce_coalescing(s: ProtocolState, contexts: Seq<CompletionContext>)
    requires
        contexts.len() > 0,
        s.next_request + contexts.len() <= u64::MAX,
    ensures
        ({
            let t = refresh_burst(s, contexts);
            let last_id = (s.next_request + contexts.len() - 1) as u64;
            &&& t.next_request == s.next_request + contexts.len()
            &&& t.pending == Some(
                PendingRequest { id: last_id, context: contexts.last(), debounced: true },
            )
            &&& t.candidates == s.candidates
            &&& t.active_index == s.active_index
            &&& t.context == s.context
            &&& forall|r: u64|
                r != last_id ==> #[trigger] debounce_action(t, r) == ProviderAction::Idle
            &&& debounce_action(t, last_id) == ProviderAction::Compute {
                request: last_id,
                context: contexts.last(),
            }
        }),
    decreases contexts.len(),
{
    if contexts.len() == 1 {
        assert(refresh_burst(refresh_step(s, contexts[0], true), contexts.subrange(1, 1))
            == refresh_step(s, contexts[0], true));
    } else {
        let s1 = refresh_step(s, contexts[0], true);
        let rest = contexts.subrange(1, contexts.len() as int);
        lemma_debounce_coalescing(s1, rest);
        assert(rest.last() == contexts.last());
        assert(refresh_burst(s, contexts) == refresh_burst(s1, rest));
    }
}

} // verus!
