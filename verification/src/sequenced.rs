//! A reference engine that realises the provider contract.
//!
//! The engine keeps the protocol state as plain fields and tells stale
//! results apart with a monotone request sequence number, as the protocol
//! prescribes: each refresh takes the next number, and a finished
//! computation is applied only if it carries the number of the one request
//! still pending. What the candidates *are* is not this engine's concern:
//! the host computes them (however slowly, and possibly failing) and hands
//! them back through `computation_finished`.

use vstd::prelude::*;

use crate::position::{Anchor, BufferId};
use crate::proposal::CompletionProposal;
use crate::protocol::{
    cleared_state, complete_step, ctx_of, cycle_step, initial_state, lemma_wrapped_index,
    proposals_ok, refresh_step, state_wf, wrapped_index, CompletionContext, Direction,
    PendingRequest, ProtocolState, ProviderAction,
};
use crate::provider::InlineCompletionProvider;

verus! {

/// A provider driven purely by request sequencing.
pub struct SequencedProvider {
    /// The construction-time enablement policy.
    enabled: bool,
    /// The next free request sequence number.
    next_request: u64,
    /// The one request that may still produce a proposal.
    pending: Option<PendingRequest>,
    /// The cached candidate proposals.
    candidates: Vec<CompletionProposal>,
    /// Which candidate is active.
    active_index: usize,
    /// The context the candidates were computed for.
    context: Option<CompletionContext>,
}

impl SequencedProvider {
    /// A fresh engine: nothing cached, nothing pending, enabled as asked.
    pub fn new(enabled: bool) -> (r: SequencedProvider)
        ensures
            r.model() == initial_state(),
            state_wf(r.model()),
            forall|ctx: CompletionContext| #[trigger] r.enabled_for(ctx) == enabled,
    {
        let r = SequencedProvider {
            enabled,
            next_request: 0,
            pending: None,
            candidates: Vec::new(),
            active_index: 0,
            context: None,
        };
        proof {
            assert(r.model() =~= initial_state());
        }
        r
    }
}

impl InlineCompletionProvider for SequencedProvider {
    closed spec fn model(&self) -> ProtocolState {
        ProtocolState {
            candidates: self.candidates@,
            active_index: self.active_index as int,
            context: self.context,
            pending: self.pending,
            next_request: self.next_request,
        }
    }

    closed spec fn enabled_for(&self, ctx: CompletionContext) -> bool {
        self.enabled
    }

    fn name() -> (r: &'static str) {
        "sequenced"
    }

    fn is_enabled(&self, buffer: BufferId, cursor_position: Anchor) -> (r: bool) {
        self.enabled
    }

    fn refresh(&mut self, buffer: BufferId, cursor_position: Anchor, debounce: bool) -> (action:
        ProviderAction) {
        let ctx = CompletionContext { buffer, cursor: cursor_position };
        let id = self.next_request;
        self.next_request = id + 1;
        self.pending = Some(PendingRequest { id, context: ctx, debounced: debounce });
        proof {
            assert(self.model() =~= refresh_step(old(self).model(), ctx_of(buffer, cursor_position), debounce));
        }
        if debounce {
            ProviderAction::ScheduleDebounce { request: id }
        } else {
            ProviderAction::Compute { request: id, context: ctx }
        }
    }

    fn debounce_elapsed(&mut self, request: u64) -> (action: ProviderAction) {
        match self.pending {
            Some(p) => if p.id == request && p.debounced {
                ProviderAction::Compute { request, context: p.context }
            } else {
                ProviderAction::Idle
            },
            None => ProviderAction::Idle,
        }
    }

    fn computation_finished(&mut self, request: u64, proposals: Vec<CompletionProposal>) {
        let pend = match self.pending {
            Some(p) => p,
            None => {
                return;
            },
        };
        if pend.id != request {
            // A result for a superseded request: dropped, never surfaced.
            return;
        }
        let ctx = pend.context;
        let mut acceptable = proposals.len() > 0;
        let mut i: usize = 0;
        while i < proposals.len()
            invariant
                0 <= i <= proposals.len(),
                acceptable == (proposals.len() > 0 && forall|k: int|
                    0 <= k < i ==> (#[trigger] proposals@[k]).wf()),
            decreases proposals.len() - i,
        {
            if !proposals[i].is_well_formed() {
                acceptable = false;
            }
            i = i + 1;
        }
        if acceptable {
            assert(proposals_ok(proposals@));
            self.candidates = proposals;
            self.active_index = 0;
            self.context = Some(ctx);
            self.pending = None;
            proof {
                assert(self.model() =~= complete_step(old(self).model(), request, proposals@));
            }
        } else {
            assert(!proposals_ok(proposals@));
            self.candidates = Vec::new();
            self.active_index = 0;
            self.context = None;
            self.pending = None;
            proof {
                assert(self.model() =~= complete_step(old(self).model(), request, proposals@));
            }
        }
    }

    fn cycle(&mut self, buffer: BufferId, cursor_position: Anchor, direction: Direction) -> (action:
        ProviderAction) {
        let ctx = CompletionContext { buffer, cursor: cursor_position };
        let cached_here = match self.context {
            Some(c) => c.buffer.id == ctx.buffer.id && c.cursor.offset == ctx.cursor.offset,
            None => false,
        };
        if cached_here && self.candidates.len() > 0 {
            let n = self.candidates.len();
            let i = self.active_index;
            let j = match direction {
                Direction::Next => if i + 1 == n {
                    0
                } else {
                    i + 1
                },
                Direction::Prev => if i == 0 {
                    n - 1
                } else {
                    i - 1
                },
            };
            self.active_index = j;
            // The cycle is the newest request: whatever was pending before
            // it is superseded and must never be applied.
            self.pending = None;
            proof {
                lemma_wrapped_index(old(self).model().active_index, n as int, direction);
                assert(j as int == wrapped_index(old(self).model().active_index, n as int, direction));
                assert(self.model() =~= cycle_step(old(self).model(), ctx_of(buffer, cursor_position), direction));
            }
            ProviderAction::Idle
        } else {
            let id = self.next_request;
            self.next_request = id + 1;
            self.pending = Some(PendingRequest { id, context: ctx, debounced: false });
            proof {
                assert(self.model() =~= refresh_step(old(self).model(), ctx_of(buffer, cursor_position), false));
            }
            ProviderAction::Compute { request: id, context: ctx }
        }
    }

    fn accept(&mut self) {
        self.candidates = Vec::new();
        self.active_index = 0;
        self.context = None;
        self.pending = None;
        proof {
            assert(self.model() =~= cleared_state(old(self).model()));
        }
    }

    fn discard(&mut self, should_report_inline_completion_event: bool) -> (action: ProviderAction) {
        self.candidates = Vec::new();
        self.active_index = 0;
        self.context = None;
        self.pending = None;
        proof {
            assert(self.model() =~= cleared_state(old(self).model()));
        }
        if should_report_inline_completion_event {
            ProviderAction::ReportDiscarded
        } else {
            ProviderAction::Idle
        }
    }

    fn active_completion_text(&self, buffer: BufferId, cursor_position: Anchor) -> (r: Option<
        &CompletionProposal,
    >) {
        let cached_here = match self.context {
            Some(c) => c.buffer.id == buffer.id && c.cursor.offset == cursor_position.offset,
            None => false,
        };
        if cached_here && self.candidates.len() > 0 {
            Some(&self.candidates[self.active_index])
        } else {
            None
        }
    }

    fn requests_issued(&self) -> (r: u64) {
        self.next_request
    }
}

} // verus!
