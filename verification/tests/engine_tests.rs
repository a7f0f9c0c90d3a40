use tracker::cross::CrossEntry;
use tracker::differ::{DiffEngine, JsonPatchDiffer};
use tracker::engine::{AlignedTracker, AlignmentOutcome, OutputMode, Side, TrackerRun};
use tracker::extract::{AlignmentKeyExtractor, JsonPathExtractor};
use tracker::json::JsonVal;

fn keyed_event(key: &str) -> JsonVal {
    JsonVal::Obj(vec![(String::from("type"), JsonVal::Str(String::from(key)))])
}

fn type_tracker() -> AlignedTracker {
    let differ = JsonPatchDiffer::new(false, DiffEngine::JsonPatch);
    let extractor = AlignmentKeyExtractor::Path(JsonPathExtractor::new("type"));
    AlignedTracker::new(differ, extractor)
}

fn round_run(max_rounds: Option<usize>) -> TrackerRun {
    let mut tracker = type_tracker().with_round_end_signal(String::from("END"));
    if let Some(m) = max_rounds {
        tracker = tracker.with_max_rounds(m);
    }
    tracker.begin()
}

#[test]
fn continuous_aligned_diffs_once() {
    let mut run = type_tracker().begin();
    let first = run.on_event(Side::Left, keyed_event("A"), 1);
    match first.alignment {
        Some(AlignmentOutcome::LeftOnly { left_key }) => assert_eq!(left_key, "A"),
        _ => panic!("expected left-only while waiting for the right side"),
    }
    let second = run.on_event(Side::Right, keyed_event("A"), 2);
    match second.alignment {
        Some(AlignmentOutcome::Aligned { key, .. }) => assert_eq!(key, "A"),
        _ => panic!("expected exactly one aligned (diff) outcome"),
    }
    assert!(second.round.is_none());
    assert!(!second.exit);
}

#[test]
fn continuous_different_keys_report_out_of_sync() {
    let mut run = type_tracker().begin();
    run.on_event(Side::Left, keyed_event("A"), 1);
    let second = run.on_event(Side::Right, keyed_event("B"), 2);
    match second.alignment {
        Some(AlignmentOutcome::OutOfSync { left_key, right_key }) => {
            assert_eq!(left_key, "A");
            assert_eq!(right_key, "B");
        }
        _ => panic!("expected one out-of-sync report and zero diffs"),
    }
}

#[test]
fn continuous_unkeyed_sides_are_idle() {
    let mut run = type_tracker().begin();
    let out = run.on_event(Side::Left, JsonVal::Null, 1);
    assert!(matches!(out.alignment, Some(AlignmentOutcome::Idle)));
}

fn assert_single_match_round(report: tracker::engine::RoundReport) {
    assert_eq!(report.round_number, 1);
    let mut matched_on_x = 0;
    for entry in &report.entries {
        match entry {
            CrossEntry::Matched { key, .. } => {
                if key == "X" {
                    matched_on_x += 1;
                }
            }
            CrossEntry::MissingOnRight { .. } | CrossEntry::OnlyOnRight { .. } => {
                panic!("no missing-key warning expected");
            }
        }
    }
    assert_eq!(matched_on_x, 1);
    // The END events match each other too.
    assert_eq!(report.entries.len(), 2);
}

#[test]
fn round_completes_left_first() {
    let mut run = round_run(None);
    assert!(run.on_event(Side::Left, keyed_event("X"), 1).round.is_none());
    assert!(run.on_event(Side::Left, keyed_event("END"), 2).round.is_none());
    assert!(run.on_event(Side::Right, keyed_event("X"), 3).round.is_none());
    let out = run.on_event(Side::Right, keyed_event("END"), 4);
    let report = out.round.expect("round must complete");
    assert_single_match_round(report);
    assert_eq!(run.rounds_completed(), 1);
    assert!(!out.exit);
}

#[test]
fn round_completes_interleaved() {
    let mut run = round_run(None);
    assert!(run.on_event(Side::Left, keyed_event("X"), 1).round.is_none());
    assert!(run.on_event(Side::Right, keyed_event("X"), 2).round.is_none());
    assert!(run.on_event(Side::Right, keyed_event("END"), 3).round.is_none());
    let out = run.on_event(Side::Left, keyed_event("END"), 4);
    let report = out.round.expect("round must complete");
    assert_single_match_round(report);
    assert_eq!(run.rounds_completed(), 1);
}

#[test]
fn round_buffers_empty_after_completion() {
    let mut run = round_run(None);
    run.on_event(Side::Left, keyed_event("X"), 1);
    run.on_event(Side::Right, keyed_event("X"), 2);
    run.on_event(Side::Left, keyed_event("END"), 3);
    let out = run.on_event(Side::Right, keyed_event("END"), 4);
    assert!(out.round.is_some());
    // The next round starts from empty buffers: a lone END on each side
    // completes a round whose only entries are the ENDs themselves.
    run.on_event(Side::Left, keyed_event("END"), 5);
    let next = run.on_event(Side::Right, keyed_event("END"), 6);
    let report = next.round.expect("second round must complete");
    assert_eq!(report.round_number, 2);
    assert_eq!(report.left_states.len(), 1);
    assert_eq!(report.right_states.len(), 1);
}

#[test]
fn round_missing_key_reported_once() {
    let mut run = round_run(None);
    run.on_event(Side::Left, keyed_event("X"), 1);
    run.on_event(Side::Left, keyed_event("END"), 2);
    let out = run.on_event(Side::Right, keyed_event("END"), 3);
    let report = out.round.expect("round must complete");
    let mut missing_x = 0;
    for entry in &report.entries {
        match entry {
            CrossEntry::MissingOnRight { key, .. } => {
                assert_eq!(key, "X");
                missing_x += 1;
            }
            CrossEntry::Matched { key, .. } => {
                // Only the END events may match; X has no partner.
                assert_eq!(key, "END");
            }
            CrossEntry::OnlyOnRight { .. } => panic!("right side has no extra key"),
        }
    }
    assert_eq!(missing_x, 1);
}

#[test]
fn max_rounds_two_terminates_successfully() {
    let mut run = round_run(Some(2));
    run.on_event(Side::Left, keyed_event("END"), 1);
    let first = run.on_event(Side::Right, keyed_event("END"), 2);
    assert!(first.round.is_some());
    assert!(!first.exit);
    run.on_event(Side::Left, keyed_event("END"), 3);
    let second = run.on_event(Side::Right, keyed_event("END"), 4);
    assert!(second.round.is_some());
    assert!(second.exit);
    assert_eq!(run.rounds_completed(), 2);
    // Sources keep producing: the run is inert and still signals exit.
    let extra = run.on_event(Side::Left, keyed_event("X"), 5);
    assert!(extra.round.is_none());
    assert!(extra.exit);
    assert_eq!(run.rounds_completed(), 2);
}

#[test]
fn once_means_one_round() {
    let mut run = round_run(Some(1));
    run.on_event(Side::Left, keyed_event("END"), 1);
    let out = run.on_event(Side::Right, keyed_event("END"), 2);
    assert!(out.round.is_some());
    assert!(out.exit);
}

#[test]
fn cancellation_with_half_complete_round_reports_nothing() {
    let mut run = round_run(None);
    run.on_event(Side::Left, keyed_event("X"), 1);
    let out = run.on_event(Side::Left, keyed_event("END"), 2);
    // left-complete is set, right-complete is not; the external interrupt
    // arrives now: the loop stops calling and closes the run.
    assert!(out.round.is_none());
    run.on_close();
    assert_eq!(run.rounds_completed(), 0);
}

#[test]
fn output_mode_priority() {
    let t = type_tracker();
    assert_eq!(t.output_mode(), OutputMode::Logs);
    let t = type_tracker().with_pretty_diff(true);
    assert_eq!(t.output_mode(), OutputMode::PrettyDiff);
    let t = type_tracker().with_pretty_diff(true).with_visual(true);
    assert_eq!(t.output_mode(), OutputMode::Visual);
}

#[test]
fn round_mode_emits_no_alignment_outcomes() {
    let mut run = round_run(None);
    let out = run.on_event(Side::Left, keyed_event("A"), 1);
    assert!(out.alignment.is_none());
}
