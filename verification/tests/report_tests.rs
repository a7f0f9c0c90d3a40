use tracker::json::JsonVal;
use tracker::report::{round_report_path, HtmlReporter};
use tracker::state::State;

fn keyed(key: Option<&str>) -> State {
    State {
        data: JsonVal::Null,
        alignment_key: key.map(String::from),
        timestamp_ms: 0,
    }
}

#[test]
fn counts_over_paired_positions() {
    let mut rep = HtmlReporter::new();
    rep.add_left(keyed(Some("a")));
    rep.add_left(keyed(Some("b")));
    rep.add_left(keyed(None));
    rep.add_left(keyed(Some("d")));
    rep.add_right(keyed(Some("a")));
    rep.add_right(keyed(Some("x")));
    rep.add_right(keyed(Some("c")));
    // Position 0 matches, position 1 mismatches, position 2 pairs a missing
    // key with "c" (neither matched nor mismatched), position 3 is unpaired.
    assert_eq!(rep.count_matched(), 1);
    assert_eq!(rep.count_mismatched(), 1);
}

#[test]
fn counts_on_empty_record_are_zero() {
    let rep = HtmlReporter::new();
    assert_eq!(rep.count_matched(), 0);
    assert_eq!(rep.count_mismatched(), 0);
}

#[test]
fn appends_preserve_order() {
    let mut rep = HtmlReporter::new();
    rep.add_left(keyed(Some("first")));
    rep.add_left(keyed(Some("second")));
    let left = rep.left_states();
    assert_eq!(left.len(), 2);
    assert_eq!(left[0].alignment_key.as_deref(), Some("first"));
    assert_eq!(left[1].alignment_key.as_deref(), Some("second"));
    assert!(rep.right_states().is_empty());
}

#[test]
fn session_id_has_uuid_shape() {
    let rep = HtmlReporter::new();
    let id = rep.session_id();
    assert_eq!(id.len(), 36);
    assert_eq!(id.chars().filter(|c| *c == '-').count(), 4);
}

#[test]
fn report_path_is_stamped_before_extension() {
    assert_eq!(
        round_report_path("report.html", "20240101_120000"),
        "report_20240101_120000.html"
    );
    assert_eq!(
        round_report_path("out/report.html", "S"),
        "out/report_S.html"
    );
}

#[test]
fn report_path_without_extension_is_suffixed() {
    assert_eq!(round_report_path("report", "S"), "report_S");
    assert_eq!(round_report_path("a", "S"), "a_S");
    assert_eq!(round_report_path("", "S"), "_S");
}
