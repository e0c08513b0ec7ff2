use inline_completion::position::{Anchor, AnchorRange, BufferId};
use inline_completion::proposal::{CompletionEdit, CompletionProposal};
use inline_completion::protocol::{CompletionContext, Direction, ProviderAction};
use inline_completion::provider::{
    InlineCompletionProvider, InlineCompletionProviderHandle, ProviderHost,
};
use inline_completion::sequenced::SequencedProvider;

fn buf(id: u64) -> BufferId {
    BufferId { id }
}

fn anchor(offset: u64) -> Anchor {
    Anchor { offset }
}

fn ctx(buffer: u64, offset: u64) -> CompletionContext {
    CompletionContext { buffer: buf(buffer), cursor: anchor(offset) }
}

fn insertion(text: &str, at: u64) -> CompletionProposal {
    let e = CompletionEdit {
        text: text.to_string(),
        range: AnchorRange { start: anchor(at), end: anchor(at) },
    };
    CompletionProposal::new(vec![e]).expect("a single ordered edit forms a proposal")
}

fn active_texts(p: &SequencedProvider, buffer: u64, offset: u64) -> Option<String> {
    p.active_completion_text(buf(buffer), anchor(offset))
        .map(|proposal| proposal.edits()[0].text.clone())
}

#[test]
fn provider_name_is_fixed() {
    assert_eq!(<SequencedProvider as InlineCompletionProvider>::name(), "sequenced");
}

#[test]
fn enablement_policy_is_fixed_at_construction() {
    let on = SequencedProvider::new(true);
    let off = SequencedProvider::new(false);
    assert!(on.is_enabled(buf(1), anchor(0)));
    assert!(!off.is_enabled(buf(1), anchor(0)));
}

#[test]
fn refresh_without_debounce_computes_at_once() {
    let mut p = SequencedProvider::new(true);
    let action = p.refresh(buf(1), anchor(5), false);
    assert_eq!(action, ProviderAction::Compute { request: 0, context: ctx(1, 5) });
    assert_eq!(p.requests_issued(), 1);
}

#[test]
fn refresh_with_debounce_schedules_a_timer() {
    let mut p = SequencedProvider::new(true);
    let action = p.refresh(buf(1), anchor(5), true);
    assert_eq!(action, ProviderAction::ScheduleDebounce { request: 0 });
}

#[test]
fn completed_request_becomes_readable() {
    let mut p = SequencedProvider::new(true);
    p.refresh(buf(1), anchor(5), false);
    p.computation_finished(0, vec![insertion("suggestion", 5)]);
    assert_eq!(active_texts(&p, 1, 5), Some("suggestion".to_string()));
}

#[test]
fn stale_result_is_suppressed() {
    let mut p = SequencedProvider::new(true);
    p.refresh(buf(1), anchor(5), false);
    p.refresh(buf(1), anchor(9), false);
    // The first computation finishes after the second request was issued:
    // its result must be dropped, not surfaced anywhere.
    p.computation_finished(0, vec![insertion("old", 5)]);
    assert_eq!(active_texts(&p, 1, 5), None);
    assert_eq!(active_texts(&p, 1, 9), None);
    p.computation_finished(1, vec![insertion("new", 9)]);
    assert_eq!(active_texts(&p, 1, 9), Some("new".to_string()));
    assert_eq!(active_texts(&p, 1, 5), None);
}

#[test]
fn stale_result_is_suppressed_in_either_completion_order() {
    let mut p = SequencedProvider::new(true);
    p.refresh(buf(1), anchor(5), false);
    p.refresh(buf(1), anchor(9), false);
    p.computation_finished(1, vec![insertion("new", 9)]);
    p.computation_finished(0, vec![insertion("old", 5)]);
    assert_eq!(active_texts(&p, 1, 9), Some("new".to_string()));
    assert_eq!(active_texts(&p, 1, 5), None);
}

#[test]
fn read_is_context_gated() {
    let mut p = SequencedProvider::new(true);
    p.refresh(buf(1), anchor(5), false);
    p.computation_finished(0, vec![insertion("here", 5)]);
    assert_eq!(active_texts(&p, 1, 5), Some("here".to_string()));
    // The cursor moved on, or another buffer asks: nothing is surfaced.
    assert_eq!(active_texts(&p, 1, 6), None);
    assert_eq!(active_texts(&p, 2, 5), None);
}

#[test]
fn failed_computation_resolves_to_no_proposal() {
    let mut p = SequencedProvider::new(true);
    p.refresh(buf(1), anchor(5), false);
    p.computation_finished(0, vec![insertion("shown", 5)]);
    p.refresh(buf(1), anchor(5), false);
    p.computation_finished(1, Vec::new());
    assert_eq!(active_texts(&p, 1, 5), None);
}

#[test]
fn cycle_wraps_around_forwards_and_backwards() {
    let mut p = SequencedProvider::new(true);
    p.refresh(buf(1), anchor(5), false);
    p.computation_finished(
        0,
        vec![insertion("a", 5), insertion("b", 5), insertion("c", 5)],
    );
    assert_eq!(active_texts(&p, 1, 5), Some("a".to_string()));
    assert_eq!(p.cycle(buf(1), anchor(5), Direction::Next), ProviderAction::Idle);
    assert_eq!(active_texts(&p, 1, 5), Some("b".to_string()));
    p.cycle(buf(1), anchor(5), Direction::Next);
    assert_eq!(active_texts(&p, 1, 5), Some("c".to_string()));
    p.cycle(buf(1), anchor(5), Direction::Next);
    assert_eq!(active_texts(&p, 1, 5), Some("a".to_string()));
    p.cycle(buf(1), anchor(5), Direction::Prev);
    assert_eq!(active_texts(&p, 1, 5), Some("c".to_string()));
    p.cycle(buf(1), anchor(5), Direction::Prev);
    assert_eq!(active_texts(&p, 1, 5), Some("b".to_string()));
}

#[test]
fn cycle_with_one_candidate_keeps_it_active() {
    let mut p = SequencedProvider::new(true);
    p.refresh(buf(1), anchor(5), false);
    p.computation_finished(0, vec![insertion("only", 5)]);
    p.cycle(buf(1), anchor(5), Direction::Next);
    assert_eq!(active_texts(&p, 1, 5), Some("only".to_string()));
    p.cycle(buf(1), anchor(5), Direction::Prev);
    assert_eq!(active_texts(&p, 1, 5), Some("only".to_string()));
}

#[test]
fn cycle_supersedes_an_in_flight_result() {
    let mut p = SequencedProvider::new(true);
    p.refresh(buf(1), anchor(5), false);
    p.computation_finished(0, vec![insertion("a", 5), insertion("b", 5)]);
    // A newer refresh is in flight when the user cycles at the cached
    // position: the cycle is newer still and supersedes it.
    p.refresh(buf(1), anchor(9), false);
    p.cycle(buf(1), anchor(5), Direction::Next);
    assert_eq!(active_texts(&p, 1, 5), Some("b".to_string()));
    // The superseded result is dropped when it later completes: it must
    // not overwrite the cycle's outcome.
    p.computation_finished(1, vec![insertion("late", 9)]);
    assert_eq!(active_texts(&p, 1, 5), Some("b".to_string()));
    assert_eq!(active_texts(&p, 1, 9), None);
}

#[test]
fn cycle_cancels_a_pending_debounce() {
    let mut p = SequencedProvider::new(true);
    p.refresh(buf(1), anchor(5), false);
    p.computation_finished(0, vec![insertion("kept", 5)]);
    // A debounced refresh is waiting out its window when the user cycles
    // at the cached position: the timer is dead afterwards.
    p.refresh(buf(1), anchor(9), true);
    p.cycle(buf(1), anchor(5), Direction::Next);
    assert_eq!(p.debounce_elapsed(1), ProviderAction::Idle);
    assert_eq!(active_texts(&p, 1, 5), Some("kept".to_string()));
}

#[test]
fn cycle_without_cached_context_forces_a_refresh() {
    let mut p = SequencedProvider::new(true);
    let action = p.cycle(buf(1), anchor(5), Direction::Next);
    assert_eq!(action, ProviderAction::Compute { request: 0, context: ctx(1, 5) });
    p.computation_finished(0, vec![insertion("fresh", 5)]);
    assert_eq!(active_texts(&p, 1, 5), Some("fresh".to_string()));
}

#[test]
fn accept_clears_the_suggestion_state() {
    let mut p = SequencedProvider::new(true);
    p.refresh(buf(1), anchor(5), false);
    p.computation_finished(0, vec![insertion("taken", 5)]);
    p.accept();
    assert_eq!(active_texts(&p, 1, 5), None);
    // A result still in flight when accept ran must not resurface anything.
    p.computation_finished(0, vec![insertion("late", 5)]);
    assert_eq!(active_texts(&p, 1, 5), None);
    // Only a new request populates a proposal again.
    p.refresh(buf(1), anchor(5), false);
    p.computation_finished(1, vec![insertion("again", 5)]);
    assert_eq!(active_texts(&p, 1, 5), Some("again".to_string()));
}

#[test]
fn discard_clears_and_reports_only_user_dismissals() {
    let mut p = SequencedProvider::new(true);
    p.refresh(buf(1), anchor(5), false);
    p.computation_finished(0, vec![insertion("shown", 5)]);
    assert_eq!(p.discard(true), ProviderAction::ReportDiscarded);
    assert_eq!(active_texts(&p, 1, 5), None);
    p.refresh(buf(1), anchor(5), false);
    p.computation_finished(1, vec![insertion("shown", 5)]);
    assert_eq!(p.discard(false), ProviderAction::Idle);
    assert_eq!(active_texts(&p, 1, 5), None);
}

#[test]
fn debounced_refreshes_coalesce_into_one_computation() {
    let mut p = SequencedProvider::new(true);
    assert_eq!(p.refresh(buf(1), anchor(5), true), ProviderAction::ScheduleDebounce { request: 0 });
    assert_eq!(p.refresh(buf(1), anchor(6), true), ProviderAction::ScheduleDebounce { request: 1 });
    assert_eq!(p.refresh(buf(1), anchor(7), true), ProviderAction::ScheduleDebounce { request: 2 });
    // Even if every timer fires, only the latest request computes, and it
    // computes for the final context supplied.
    assert_eq!(p.debounce_elapsed(0), ProviderAction::Idle);
    assert_eq!(p.debounce_elapsed(1), ProviderAction::Idle);
    assert_eq!(p.debounce_elapsed(2), ProviderAction::Compute { request: 2, context: ctx(1, 7) });
    p.computation_finished(2, vec![insertion("settled", 7)]);
    assert_eq!(active_texts(&p, 1, 7), Some("settled".to_string()));
}

#[test]
fn non_debounced_refresh_supersedes_a_pending_debounce() {
    let mut p = SequencedProvider::new(true);
    p.refresh(buf(1), anchor(5), true);
    let action = p.refresh(buf(1), anchor(5), false);
    assert_eq!(action, ProviderAction::Compute { request: 1, context: ctx(1, 5) });
    // The superseded timer does nothing when it fires.
    assert_eq!(p.debounce_elapsed(0), ProviderAction::Idle);
}

#[test]
fn accept_cancels_a_pending_debounce() {
    let mut p = SequencedProvider::new(true);
    p.refresh(buf(1), anchor(5), true);
    p.accept();
    assert_eq!(p.debounce_elapsed(0), ProviderAction::Idle);
}

#[test]
fn handle_routes_all_verbs_to_the_engine() {
    let mut h = ProviderHost::new(SequencedProvider::new(true));
    assert!(h.is_enabled(buf(1), anchor(0)));
    assert_eq!(h.refresh(buf(1), anchor(5), false), ProviderAction::Compute {
        request: 0,
        context: ctx(1, 5),
    });
    h.computation_finished(0, vec![insertion("via handle", 5)]);
    let text = h
        .active_completion_text(buf(1), anchor(5))
        .map(|p| p.edits()[0].text.clone());
    assert_eq!(text, Some("via handle".to_string()));
    assert_eq!(h.cycle(buf(1), anchor(5), Direction::Next), ProviderAction::Idle);
    assert_eq!(h.discard(false), ProviderAction::Idle);
    assert!(h.active_completion_text(buf(1), anchor(5)).is_none());
    h.accept();
    assert_eq!(h.requests_issued(), 1);
}

#[test]
fn requests_issued_counts_every_refresh_and_forced_cycle() {
    let mut p = SequencedProvider::new(true);
    assert_eq!(p.requests_issued(), 0);
    p.refresh(buf(1), anchor(1), true);
    p.refresh(buf(1), anchor(2), false);
    p.cycle(buf(1), anchor(3), Direction::Next);
    assert_eq!(p.requests_issued(), 3);
}
