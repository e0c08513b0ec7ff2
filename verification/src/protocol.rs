//! The provider lifecycle protocol.
//!
//! Every suggestion engine, whatever it computes, moves through the same
//! lifecycle: a refresh issues a request for the current cursor context, a
//! debounced request waits for the keystrokes to settle, a finished
//! computation is applied only if no newer request has superseded it
//! (last-writer-wins by request recency, not by completion order), cycling
//! steps through the cached candidates with wraparound, and accept or discard
//! clears the suggestion state. This module states that lifecycle once, as a
//! mathematical state machine: a state, a well-formedness condition, and one
//! transition per verb. The provider contract in `crate::provider` pins each
//! exec method to the matching transition, so the laws proved in
//! `crate::laws` hold of every engine that meets the contract.
//!
//! Stale results are told apart by a monotone request sequence number: each
//! refresh takes the next number, and a finished computation is applied only
//! if it carries the number of the one still-pending request.

use vstd::prelude::*;

use crate::position::{Anchor, BufferId};
use crate::proposal::CompletionProposal;

verus! {

/// Which way `cycle` moves through the cached candidates.
#[derive(Clone, Copy, PartialEq, Eq, Structural, Debug)]
pub enum Direction {
    Prev,
    Next,
}

/// The cursor context a request or a proposal belongs to: which buffer, and
/// where in it.
#[derive(Clone, Copy, PartialEq, Eq, Structural, Debug)]
pub struct CompletionContext {
    pub buffer: BufferId,
    pub cursor: Anchor,
}

/// The one request that may still produce a proposal: its sequence number,
/// the context it was issued for, and whether it is waiting out the debounce
/// window.
#[derive(Clone, Copy, PartialEq, Eq, Structural, Debug)]
pub struct PendingRequest {
    pub id: u64,
    pub context: CompletionContext,
    pub debounced: bool,
}

/// What the host must do next on behalf of the provider. The provider itself
/// never performs outside work: it hands one of these back, and the host
/// (timer plumbing, background computation, telemetry) carries it out and
/// reports back through `debounce_elapsed` and `computation_finished`.
#[derive(Clone, Copy, PartialEq, Eq, Structural, Debug)]
pub enum ProviderAction {
    /// Nothing to do.
    Idle,
    /// Start (or restart) the debounce timer for this request.
    ScheduleDebounce { request: u64 },
    /// Start the possibly expensive computation of candidates for `context`.
    Compute { request: u64, context: CompletionContext },
    /// Emit the usage-analytics event for a genuine user dismissal.
    ReportDiscarded,
}

/// The protocol-visible state of a provider: the cached candidate proposals
/// with the context they were computed for and the index of the active one,
/// the still-pending request if any, and the next free request number.
#[verifier::ext_equal]
pub struct ProtocolState {
    pub candidates: Seq<CompletionProposal>,
    pub active_index: int,
    pub context: Option<CompletionContext>,
    pub pending: Option<PendingRequest>,
    pub next_request: u64,
}

/// Packs a buffer identity and a cursor anchor into one context value.
pub open spec fn ctx_of(buffer: BufferId, cursor: Anchor) -> CompletionContext {
    CompletionContext { buffer, cursor }
}

/// The state a provider starts in: nothing cached, nothing pending.
pub open spec fn initial_state() -> ProtocolState {
    ProtocolState {
        candidates: Seq::empty(),
        active_index: 0,
        context: None,
        pending: None,
        next_request: 0,
    }
}

/// Well-formedness of a protocol state. Candidates are cached exactly when a
/// context is recorded for them; the active index stays inside the cache;
/// every cached proposal is well-formed; a pending request carries an
/// already-issued sequence number.
pub open spec fn state_wf(s: ProtocolState) -> bool {
    &&& (s.context is Some <==> s.candidates.len() > 0)
    &&& 0 <= s.active_index
    &&& (s.candidates.len() > 0 ==> s.active_index < s.candidates.len())
    &&& (s.candidates.len() == 0 ==> s.active_index == 0)
    &&& (forall|i: int| 0 <= i < s.candidates.len() ==> (#[trigger] s.candidates[i]).wf())
    &&& (s.pending matches Some(p) ==> p.id < s.next_request)
}

/// A refresh issues the next request number for `ctx` and records it as the
/// one pending request, superseding any earlier one. The cached candidates
/// stay visible until a newer result replaces them.
pub open spec fn refresh_step(s: ProtocolState, ctx: CompletionContext, debounce: bool) -> ProtocolState {
    ProtocolState {
        pending: Some(PendingRequest { id: s.next_request, context: ctx, debounced: debounce }),
        next_request: (s.next_request + 1) as u64,
        ..s
    }
}

/// What the host must do for a refresh: wait out the debounce window, or
/// compute at once on an explicit trigger.
pub open spec fn refresh_action(s: ProtocolState, ctx: CompletionContext, debounce: bool) -> ProviderAction {
    if debounce {
        ProviderAction::ScheduleDebounce { request: s.next_request }
    } else {
        ProviderAction::Compute { request: s.next_request, context: ctx }
    }
}

/// When a debounce timer fires, the computation starts only if the timer's
/// request is still the pending one and still debounced: the timer of a
/// superseded request does nothing, so a burst of keystrokes costs at most
/// one computation. The state itself does not change.
pub open spec fn debounce_action(s: ProtocolState, request: u64) -> ProviderAction {
    match s.pending {
        Some(p) => if p.id == request && p.debounced {
            ProviderAction::Compute { request, context: p.context }
        } else {
            ProviderAction::Idle
        },
        None => ProviderAction::Idle,
    }
}

/// A set of candidate proposals is acceptable when it is non-empty and every
/// proposal in it is well-formed.
pub open spec fn proposals_ok(ps: Seq<CompletionProposal>) -> bool {
    &&& ps.len() > 0
    &&& forall|i: int| 0 <= i < ps.len() ==> (#[trigger] ps[i]).wf()
}

/// A finished computation is applied only if it answers the one request that
/// is still pending; a result for any superseded request is dropped
/// unchanged. An acceptable result becomes the cached candidate set for the
/// pending request's context, with the first candidate active; a failed or
/// empty result resolves to "no suggestion" rather than surfacing anything.
pub open spec fn complete_step(s: ProtocolState, request: u64, proposals: Seq<CompletionProposal>) -> ProtocolState {
    match s.pending {
        Some(p) => if p.id == request {
            if proposals_ok(proposals) {
                ProtocolState {
                    candidates: proposals,
                    active_index: 0,
                    context: Some(p.context),
                    pending: None,
                    next_request: s.next_request,
                }
            } else {
                ProtocolState {
                    candidates: Seq::empty(),
                    active_index: 0,
                    context: None,
                    pending: None,
                    next_request: s.next_request,
                }
            }
        } else {
            s
        },
        None => s,
    }
}

/// The active index after one cycle step over `n` candidates: one forward or
/// one back, with wraparound.
pub open spec fn wrapped_index(i: int, n: int, direction: Direction) -> int {
    if direction is Next {
        (i + 1) % n
    } else {
        (i - 1 + n) % n
    }
}

/// Cycling moves the active index through the cached candidates with
/// wraparound — but only if the candidates were computed for exactly the
/// context the caller asks about. For any other context it behaves as a
/// forced, non-debounced refresh. Either way the cycle is the newest
/// request: it cancels whatever was pending before it, so an in-flight
/// result or a still-armed debounce timer cannot overwrite its outcome.
pub open spec fn cycle_step(s: ProtocolState, ctx: CompletionContext, direction: Direction) -> ProtocolState {
    if s.context == Some(ctx) && s.candidates.len() > 0 {
        ProtocolState {
            active_index: wrapped_index(s.active_index, s.candidates.len() as int, direction),
            pending: None,
            ..s
        }
    } else {
        refresh_step(s, ctx, false)
    }
}

/// What the host must do for a cycle: nothing when the index merely moved,
/// or start the forced computation when the context did not match.
pub open spec fn cycle_action(s: ProtocolState, ctx: CompletionContext, direction: Direction) -> ProviderAction {
    if s.context == Some(ctx) && s.candidates.len() > 0 {
        ProviderAction::Idle
    } else {
        refresh_action(s, ctx, false)
    }
}

/// Accept and discard both clear the suggestion state: the cached candidates
/// go away, and the pending request (with its debounce timer, and any
/// in-flight computation) is cancelled, so nothing can resurface until a new
/// refresh or cycle populates a proposal.
pub open spec fn cleared_state(s: ProtocolState) -> ProtocolState {
    ProtocolState {
        candidates: Seq::empty(),
        active_index: 0,
        context: None,
        pending: None,
        next_request: s.next_request,
    }
}

/// What a read of the active proposal returns: the active candidate, but
/// only if the caller's context is exactly the one the candidates were
/// computed for. A proposal computed for one position is never surfaced at
/// another.
pub open spec fn active_text(s: ProtocolState, ctx: CompletionContext) -> Option<CompletionProposal> {
    if s.context == Some(ctx) && s.candidates.len() > 0 {
        Some(s.candidates[s.active_index])
    } else {
        None
    }
}

/// The wrapped index stays inside the candidate range, and coincides with
/// the direct successor or predecessor except at the two wrap points.
pub proof fn lemma_wrapped_index(i: int, n: int, direction: Direction)
    requires
        0 <= i < n,
    ensures
        0 <= wrapped_index(i, n, direction) < n,
        direction is Next ==> wrapped_index(i, n, direction) == if i + 1 == n { 0int } else { i + 1 },
        direction is Prev ==> wrapped_index(i, n, direction) == if i == 0 { n - 1 } else { i - 1 },
{
    if direction is Next {
        if i + 1 == n {
            assert(n % n == 0) by (nonlinear_arith)
                requires n > 0;
        } else {
            assert((i + 1) % n == i + 1) by (nonlinear_arith)
                requires 0 <= i + 1 < n;
        }
    } else {
        if i == 0 {
            assert((n - 1) % n == n - 1) by (nonlinear_arith)
                requires n > 0;
        } else {
            assert((i - 1 + n) % n == i - 1) by (nonlinear_arith)
                requires 1 <= i < n;
        }
    }
}

} // verus!
