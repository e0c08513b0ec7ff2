//! The provider capability contract and the handle the editor holds.
//!
//! `InlineCompletionProvider` is the six-verb interface a suggestion engine
//! offers, extended by the two callbacks the host uses to report finished
//! outside work (an elapsed debounce window, a completed computation). Each
//! verb's contract pins the engine's protocol-visible state to the matching
//! transition of `crate::protocol`, so the lifecycle laws hold of every
//! conforming engine; what stays engine-specific is the enablement policy
//! and the candidates its computations produce.
//!
//! `InlineCompletionProviderHandle` is the same interface as the editor sees
//! it, and `ProviderHost` implements it for any concrete engine: the host
//! owns the engine exclusively, so every mutation is serialized through one
//! `&mut` entry point and no two mutations of the same engine can race.

use vstd::prelude::*;

use crate::position::{Anchor, BufferId};
use crate::proposal::CompletionProposal;
use crate::protocol::{
    active_text, cleared_state, complete_step, ctx_of, cycle_action, cycle_step, debounce_action,
    refresh_action, refresh_step, state_wf, CompletionContext, Direction, ProtocolState,
    ProviderAction,
};

verus! {

/// The capability contract of one suggestion engine.
///
/// Pure queries (`is_enabled`, `active_completion_text`) take `&self`;
/// every verb that mutates suggestion state takes `&mut self`, so the
/// owner serializes mutations. The `requires` on the mutating verbs hold
/// the protocol well-formedness that `new`-style constructors establish
/// and every verb re-ensures, plus headroom for the next request number,
/// which must fit in a machine word.
pub trait InlineCompletionProvider: Sized {
    /// The protocol-visible part of the engine's state.
    spec fn model(&self) -> ProtocolState;

    /// The engine's enablement policy for a cursor context. Policy is
    /// engine-specific (wrong language, comment region, ...) and opaque
    /// here; it is advisory, and callers must not refresh where it is
    /// false.
    spec fn enabled_for(&self, ctx: CompletionContext) -> bool;

    /// The engine's name, for display.
    fn name() -> (r: &'static str);

    /// Whether this engine should be consulted at all for this context.
    /// Pure query; no mutation.
    fn is_enabled(&self, buffer: BufferId, cursor_position: Anchor) -> (r: bool)
        ensures
            r == self.enabled_for(ctx_of(buffer, cursor_position)),
    ;

    /// Requests (re)computation of a proposal for the given cursor context,
    /// superseding any earlier request. With `debounce` the expensive work
    /// waits for the keystrokes to settle; without, it starts at once.
    /// Callers must not refresh where the enablement policy says no: that
    /// is the one demand `is_enabled` places on them.
    fn refresh(&mut self, buffer: BufferId, cursor_position: Anchor, debounce: bool) -> (action:
        ProviderAction)
        requires
            state_wf(old(self).model()),
            old(self).model().next_request < u64::MAX,
            old(self).enabled_for(ctx_of(buffer, cursor_position)),
        ensures
            final(self).model() == refresh_step(
                old(self).model(),
                ctx_of(buffer, cursor_position),
                debounce,
            ),
            action == refresh_action(old(self).model(), ctx_of(buffer, cursor_position), debounce),
            state_wf(final(self).model()),
    ;

    /// The host reports that the debounce window of `request` has elapsed.
    /// The state does not change; the returned action starts the computation
    /// only if `request` is still the pending debounced one.
    fn debounce_elapsed(&mut self, request: u64) -> (action: ProviderAction)
        requires
            state_wf(old(self).model()),
        ensures
            final(self).model() == old(self).model(),
            action == debounce_action(old(self).model(), request),
            state_wf(final(self).model()),
    ;

    /// The host reports that the computation for `request` finished with
    /// `proposals` (empty on an internal failure). The result is applied
    /// only if `request` is still the pending one — a stale result is
    /// dropped, never surfaced — and a failed or unacceptable result
    /// resolves to "no suggestion".
    fn computation_finished(&mut self, request: u64, proposals: Vec<CompletionProposal>)
        requires
            state_wf(old(self).model()),
        ensures
            final(self).model() == complete_step(old(self).model(), request, proposals@),
            state_wf(final(self).model()),
    ;

    /// Moves the active candidate one step in `direction`, with wraparound,
    /// if candidates are cached for exactly this context; otherwise behaves
    /// as a forced, non-debounced refresh. Either way the cycle supersedes
    /// any request still pending: a result that was in flight when the
    /// cycle was issued is dropped when it completes.
    fn cycle(&mut self, buffer: BufferId, cursor_position: Anchor, direction: Direction) -> (action:
        ProviderAction)
        requires
            state_wf(old(self).model()),
            old(self).model().next_request < u64::MAX,
        ensures
            final(self).model() == cycle_step(
                old(self).model(),
                ctx_of(buffer, cursor_position),
                direction,
            ),
            action == cycle_action(old(self).model(), ctx_of(buffer, cursor_position), direction),
            state_wf(final(self).model()),
    ;

    /// Commits the active proposal as applied and clears the suggestion
    /// state. Safe to call with no active proposal: still a clear.
    fn accept(&mut self)
        requires
            state_wf(old(self).model()),
        ensures
            final(self).model() == cleared_state(old(self).model()),
            state_wf(final(self).model()),
    ;

    /// Clears the active proposal without applying it. The flag says whether
    /// this was a genuine user rejection, to be reported to analytics, or
    /// mechanical consistency work that must not pollute acceptance metrics.
    fn discard(&mut self, should_report_inline_completion_event: bool) -> (action: ProviderAction)
        requires
            state_wf(old(self).model()),
        ensures
            final(self).model() == cleared_state(old(self).model()),
            action == if should_report_inline_completion_event {
                ProviderAction::ReportDiscarded
            } else {
                ProviderAction::Idle
            },
            state_wf(final(self).model()),
    ;

    /// Pure read of the active proposal, gated on the context: the cached
    /// candidate is returned only if `buffer`/`cursor_position` are exactly
    /// what it was computed for; otherwise nothing is surfaced.
    fn active_completion_text(&self, buffer: BufferId, cursor_position: Anchor) -> (r: Option<
        &CompletionProposal,
    >)
        requires
            state_wf(self.model()),
        ensures
            match r {
                Some(p) => active_text(self.model(), ctx_of(buffer, cursor_position)) == Some(*p),
                None => active_text(self.model(), ctx_of(buffer, cursor_position)) is None,
            },
    ;

    /// How many requests the engine has issued so far; the next request
    /// takes this number. The host checks it against the machine limit
    /// before a refresh or cycle.
    fn requests_issued(&self) -> (r: u64)
        ensures
            r == self.model().next_request,
    ;
}

/// The interface the editor holds: the same verbs, routed through whatever
/// owns the engine. The editor needs no generic parameter and never touches
/// engine state directly.
pub trait InlineCompletionProviderHandle {
    /// The protocol-visible state of the engine behind the handle.
    spec fn model(&self) -> ProtocolState;

    /// The engine's enablement policy, as seen through the handle.
    spec fn enabled_for(&self, ctx: CompletionContext) -> bool;

    fn is_enabled(&self, buffer: BufferId, cursor_position: Anchor) -> (r: bool)
        ensures
            r == self.enabled_for(ctx_of(buffer, cursor_position)),
    ;

    fn refresh(&mut self, buffer: BufferId, cursor_position: Anchor, debounce: bool) -> (action:
        ProviderAction)
        requires
            state_wf(old(self).model()),
            old(self).model().next_request < u64::MAX,
            old(self).enabled_for(ctx_of(buffer, cursor_position)),
        ensures
            final(self).model() == refresh_step(
                old(self).model(),
                ctx_of(buffer, cursor_position),
                debounce,
            ),
            action == refresh_action(old(self).model(), ctx_of(buffer, cursor_position), debounce),
            state_wf(final(self).model()),
    ;

    fn debounce_elapsed(&mut self, request: u64) -> (action: ProviderAction)
        requires
            state_wf(old(self).model()),
        ensures
            final(self).model() == old(self).model(),
            action == debounce_action(old(self).model(), request),
            state_wf(final(self).model()),
    ;

    fn computation_finished(&mut self, request: u64, proposals: Vec<CompletionProposal>)
        requires
            state_wf(old(self).model()),
        ensures
            final(self).model() == complete_step(old(self).model(), request, proposals@),
            state_wf(final(self).model()),
    ;

    fn cycle(&mut self, buffer: BufferId, cursor_position: Anchor, direction: Direction) -> (action:
        ProviderAction)
        requires
            state_wf(old(self).model()),
            old(self).model().next_request < u64::MAX,
        ensures
            final(self).model() == cycle_step(
                old(self).model(),
                ctx_of(buffer, cursor_position),
                direction,
            ),
            action == cycle_action(old(self).model(), ctx_of(buffer, cursor_position), direction),
            state_wf(final(self).model()),
    ;

    fn accept(&mut self)
        requires
            state_wf(old(self).model()),
        ensures
            final(self).model() == cleared_state(old(self).model()),
            state_wf(final(self).model()),
    ;

    fn discard(&mut self, should_report_inline_completion_event: bool) -> (action: ProviderAction)
        requires
            state_wf(old(self).model()),
        ensures
            final(self).model() == cleared_state(old(self).model()),
            action == if should_report_inline_completion_event {
                ProviderAction::ReportDiscarded
            } else {
                ProviderAction::Idle
            },
            state_wf(final(self).model()),
    ;

    fn active_completion_text(&self, buffer: BufferId, cursor_position: Anchor) -> (r: Option<
        &CompletionProposal,
    >)
        requires
            state_wf(self.model()),
        ensures
            match r {
                Some(p) => active_text(self.model(), ctx_of(buffer, cursor_position)) == Some(*p),
                None => active_text(self.model(), ctx_of(buffer, cursor_position)) is None,
            },
    ;

    fn requests_issued(&self) -> (r: u64)
        ensures
            r == self.model().next_request,
    ;
}

/// Owns one concrete engine and exposes it through the handle interface.
///
/// The host is the single owner of the engine's mutable state: every
/// mutating verb goes through the host's one `&mut` entry point, so at most
/// one mutation of a given engine executes at a time and re-entrant
/// mutation is impossible — the exclusive-update discipline a reactive
/// object container would otherwise supply.
pub struct ProviderHost<T: InlineCompletionProvider> {
    provider: T,
}

impl<T: InlineCompletionProvider> ProviderHost<T> {
    /// Wraps a concrete engine, fixing it for the life of the host.
    pub fn new(provider: T) -> (r: ProviderHost<T>)
        ensures
            r.model() == provider.model(),
            forall|ctx: CompletionContext| #[trigger]
                r.enabled_for(ctx) == provider.enabled_for(ctx),
    {
        ProviderHost { provider }
    }
}

impl<T: InlineCompletionProvider> InlineCompletionProviderHandle for ProviderHost<T> {
    closed spec fn model(&self) -> ProtocolState {
        self.provider.model()
    }

    closed spec fn enabled_for(&self, ctx: CompletionContext) -> bool {
        self.provider.enabled_for(ctx)
    }

    fn is_enabled(&self, buffer: BufferId, cursor_position: Anchor) -> (r: bool) {
        self.provider.is_enabled(buffer, cursor_position)
    }

    fn refresh(&mut self, buffer: BufferId, cursor_position: Anchor, debounce: bool) -> (action:
        ProviderAction) {
        self.provider.refresh(buffer, cursor_position, debounce)
    }

    fn debounce_elapsed(&mut self, request: u64) -> (action: ProviderAction) {
        self.provider.debounce_elapsed(request)
    }

    fn computation_finished(&mut self, request: u64, proposals: Vec<CompletionProposal>) {
        self.provider.computation_finished(request, proposals)
    }

    fn cycle(&mut self, buffer: BufferId, cursor_position: Anchor, direction: Direction) -> (action:
        ProviderAction) {
        self.provider.cycle(buffer, cursor_position, direction)
    }

    fn accept(&mut self) {
        self.provider.accept()
    }

    fn discard(&mut self, should_report_inline_completion_event: bool) -> (action: ProviderAction) {
        self.provider.discard(should_report_inline_completion_event)
    }

    fn active_completion_text(&self, buffer: BufferId, cursor_position: Anchor) -> (r: Option<
        &CompletionProposal,
    >) {
        self.provider.active_completion_text(buffer, cursor_position)
    }

    fn requests_issued(&self) -> (r: u64) {
        self.provider.requests_issued()
    }
}

} // verus!
