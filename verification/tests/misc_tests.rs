use tracker::differ::{usize_to_string, DiffEngine, DiffOutcome, JsonPatchDiffer};
use tracker::engine::Side;
use tracker::extract::JsonPathExtractor;
use tracker::json::{parse_json, JsonVal};
use tracker::stream::RandomStream;
use tracker::tracker::{RawStepOutcome, Tracker};
use tracker::visual::TimelineVisualizer;
use tracker::websocket::{next_backoff, WebSocketSource, INITIAL_BACKOFF_SECS};

#[test]
fn backoff_doubles_and_caps() {
    let mut delay = INITIAL_BACKOFF_SECS;
    let mut seen = Vec::new();
    for _ in 0..7 {
        seen.push(delay);
        delay = next_backoff(delay);
    }
    assert_eq!(seen, vec![1, 2, 4, 8, 16, 30, 30]);
    assert_eq!(next_backoff(30), 30);
}

#[test]
fn websocket_source_keeps_name_and_url() {
    let src = WebSocketSource::new("left", "ws://localhost:9000");
    assert_eq!(src.name, "left");
    assert_eq!(src.url, "ws://localhost:9000");
}

#[test]
fn differ_detects_identical_documents() {
    let differ = JsonPatchDiffer::new(false, DiffEngine::JsonPatch);
    let a = parse_json("{\"x\": 1}").unwrap();
    let b = parse_json("{\"x\": 1}").unwrap();
    assert_eq!(
        differ.print_diff("left", "right", &a, &b),
        DiffOutcome::Identical
    );
    let c = parse_json("{\"x\": 2}").unwrap();
    assert_eq!(
        differ.print_diff("left", "right", &a, &c),
        DiffOutcome::Different
    );
}

#[test]
fn differ_detects_identity_in_every_rendering() {
    let a = parse_json("{\"x\": [1, 2]}").unwrap();
    let b = parse_json("{\"x\": [1, 2]}").unwrap();
    for differ in [
        JsonPatchDiffer::new(true, DiffEngine::JsonPatch),
        JsonPatchDiffer::new(false, DiffEngine::SerdeDiff),
        JsonPatchDiffer::default(),
    ] {
        assert_eq!(
            differ.print_diff("l", "r", &a, &b),
            DiffOutcome::Identical
        );
        assert_eq!(
            differ.print_diff("l", "r", &a, &JsonVal::Null),
            DiffOutcome::Different
        );
    }
}

#[test]
fn raw_tracker_waits_then_compares() {
    let mut t = Tracker::new(JsonPatchDiffer::default());
    let a = parse_json("{\"n\": 1}").unwrap();
    match t.on_event(Side::Left, a) {
        RawStepOutcome::Waiting => {}
        _ => panic!("one-sided update must wait"),
    }
    let b = parse_json("{\"n\": 1}").unwrap();
    match t.on_event(Side::Right, b) {
        RawStepOutcome::Compared(DiffOutcome::Identical) => {}
        _ => panic!("equal payloads must compare as identical"),
    }
    let c = parse_json("{\"n\": 2}").unwrap();
    match t.on_event(Side::Right, c) {
        RawStepOutcome::Compared(DiffOutcome::Different) => {}
        _ => panic!("unequal payloads must compare as different"),
    }
}

#[test]
fn visualizer_history_is_bounded() {
    let mut viz = TimelineVisualizer::new(2, 40);
    viz.add_left("a");
    viz.add_left("b");
    viz.add_left("c");
    viz.add_right("r");
    viz.clear_history();
    viz.add_left("after");
    viz.render();
}

#[test]
fn format_state_box_pads_and_truncates() {
    let viz = TimelineVisualizer::new(2, 40);
    let short = viz.format_state_box("abc");
    assert_eq!(short.chars().count(), 40);
    assert!(short.starts_with("abc"));
    let long_input = "x".repeat(50);
    let long = viz.format_state_box(&long_input);
    assert_eq!(long.chars().count(), 40);
    assert!(long.contains("..."));
}

#[test]
fn decimal_text_is_exact() {
    assert_eq!(usize_to_string(0), "0");
    assert_eq!(usize_to_string(7), "7");
    assert_eq!(usize_to_string(105), "105");
    assert_eq!(usize_to_string(99000), "99000");
}

#[test]
fn random_stream_events_carry_a_known_type() {
    let stream = RandomStream::new("left", 10);
    let extractor = JsonPathExtractor::new("event_type");
    let known = [
        "user.login",
        "user.logout",
        "order.created",
        "order.updated",
        "order.completed",
        "payment.processed",
        "inventory.changed",
    ];
    for _ in 0..20 {
        let event = stream.generate_event();
        let key = extractor.extract_key(&event).expect("event_type must exist");
        assert!(known.contains(&key.as_str()));
    }
}

#[test]
fn random_stream_custom_types_are_used() {
    let stream = RandomStream::with_event_types(
        "right",
        5,
        vec![String::from("only.kind")],
    );
    let extractor = JsonPathExtractor::new("event_type");
    let event = stream.generate_event();
    assert_eq!(
        extractor.extract_key(&event),
        Some(String::from("only.kind"))
    );
}
