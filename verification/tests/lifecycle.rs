use resource_join::lifecycle::count_ready_events;
use resource_join::{ReadyTracker, RenderContext, Slot, SlotError, Verdict};

#[test]
fn ready_event_fires_exactly_once_across_lifecycle() {
    let mut tracker = ReadyTracker::new();
    let loading = vec![Slot::Unresolved, Slot::Unresolved];
    let half = vec![Slot::Resolved(Ok(50)), Slot::Unresolved];
    let done = vec![Slot::Resolved(Ok(50)), Slot::Resolved(Ok(1000))];

    let (verdict, fired) = tracker.evaluate(&loading);
    assert_eq!(verdict, Verdict::Loading);
    assert!(!fired);

    let (verdict, fired) = tracker.evaluate(&half);
    assert_eq!(verdict, Verdict::Loading);
    assert!(!fired);

    let (verdict, fired) = tracker.evaluate(&done);
    assert_eq!(verdict, Verdict::Ready(vec![50, 1000]));
    assert!(fired);

    let (verdict, fired) = tracker.evaluate(&done);
    assert_eq!(verdict, Verdict::Ready(vec![50, 1000]));
    assert!(!fired);
}

#[test]
fn reevaluation_of_resolved_pair_is_idempotent() {
    let mut tracker = ReadyTracker::new();
    let done = vec![Slot::Resolved(Ok(7)), Slot::Resolved(Ok(8))];
    let mut fires = 0;
    for _ in 0..5 {
        let (verdict, fired) = tracker.evaluate(&done);
        assert_eq!(verdict, Verdict::Ready(vec![7, 8]));
        if fired {
            fires += 1;
        }
    }
    assert_eq!(fires, 1);
}

#[test]
fn counted_events_over_scripted_lifecycle() {
    let snapshots = vec![
        vec![Slot::Unresolved, Slot::Unresolved],
        vec![Slot::Resolved(Ok(1)), Slot::Unresolved],
        vec![Slot::Resolved(Ok(1)), Slot::Resolved(Ok(2))],
        vec![Slot::Resolved(Ok(1)), Slot::Resolved(Ok(2))],
        vec![Slot::Resolved(Ok(1)), Slot::Resolved(Ok(2))],
    ];
    assert_eq!(count_ready_events(&snapshots), 1);
}

#[test]
fn no_event_without_a_ready_evaluation() {
    let snapshots = vec![
        vec![Slot::Unresolved, Slot::Unresolved],
        vec![Slot::Resolved(Err(SlotError)), Slot::Unresolved],
        vec![Slot::Resolved(Err(SlotError)), Slot::Resolved(Ok(2))],
    ];
    assert_eq!(count_ready_events(&snapshots), 0);
}

#[test]
fn no_event_over_empty_lifecycle() {
    let snapshots: Vec<Vec<Slot>> = Vec::new();
    assert_eq!(count_ready_events(&snapshots), 0);
}

#[test]
fn render_context_tracks_resolutions() {
    let mut context = RenderContext::new(2);

    let (verdict, fired) = context.evaluate();
    assert_eq!(verdict, Verdict::Loading);
    assert!(!fired);

    context.resolve(0, Ok(50));
    let (verdict, fired) = context.evaluate();
    assert_eq!(verdict, Verdict::Loading);
    assert!(!fired);

    context.resolve(1, Ok(1000));
    let (verdict, fired) = context.evaluate();
    assert_eq!(verdict, Verdict::Ready(vec![50, 1000]));
    assert!(fired);

    let (verdict, fired) = context.evaluate();
    assert_eq!(verdict, Verdict::Ready(vec![50, 1000]));
    assert!(!fired);
}

#[test]
fn slot_updates_trigger_synchronous_reevaluation() {
    let mut context = RenderContext::new(2);
    let (verdict, fired) = context.on_slot_update(1, Ok(1000));
    assert_eq!(verdict, Verdict::Loading);
    assert!(!fired);
    let (verdict, fired) = context.on_slot_update(0, Ok(50));
    assert_eq!(verdict, Verdict::Ready(vec![50, 1000]));
    assert!(fired);
}

#[test]
fn render_context_reports_failure() {
    let mut context = RenderContext::new(2);
    context.resolve(0, Err(SlotError));
    context.resolve(1, Ok(5));
    let (verdict, fired) = context.evaluate();
    assert_eq!(verdict, Verdict::Failed);
    assert!(!fired);
}
