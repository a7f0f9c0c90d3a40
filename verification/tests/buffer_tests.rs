use tracker::json::JsonVal;
use tracker::state::{State, StateBuffer};

fn numbered_state(n: usize) -> State {
    State {
        data: JsonVal::Num(n.to_string()),
        alignment_key: Some(n.to_string()),
        timestamp_ms: n as i64,
    }
}

#[test]
fn buffer_retains_last_n_in_order() {
    let mut buf = StateBuffer::new(3);
    for n in 0..5 {
        buf.push(numbered_state(n));
    }
    let states = buf.states();
    assert_eq!(states.len(), 3);
    let keys: Vec<String> = states
        .iter()
        .map(|s| s.alignment_key.clone().unwrap())
        .collect();
    assert_eq!(keys, vec!["2".to_string(), "3".to_string(), "4".to_string()]);
}

#[test]
fn buffer_under_capacity_keeps_everything() {
    let mut buf = StateBuffer::new(10);
    for n in 0..4 {
        buf.push(numbered_state(n));
    }
    assert_eq!(buf.len(), 4);
    let states = buf.states();
    for (i, s) in states.iter().enumerate() {
        assert_eq!(s.alignment_key.as_deref(), Some(i.to_string().as_str()));
    }
}

#[test]
fn buffer_capacity_zero_stays_empty() {
    let mut buf = StateBuffer::new(0);
    buf.push(numbered_state(1));
    assert!(buf.is_empty());
    assert!(buf.latest().is_none());
}

#[test]
fn latest_and_latest_key() {
    let mut buf = StateBuffer::new(5);
    assert!(buf.latest().is_none());
    assert!(buf.latest_alignment_key().is_none());
    buf.push(numbered_state(7));
    assert_eq!(buf.latest_alignment_key(), Some("7".to_string()));
    buf.push(State {
        data: JsonVal::Null,
        alignment_key: None,
        timestamp_ms: 8,
    });
    assert!(buf.latest().is_some());
    assert!(buf.latest_alignment_key().is_none());
}

#[test]
fn clear_empties_the_buffer() {
    let mut buf = StateBuffer::new(5);
    buf.push(numbered_state(1));
    buf.push(numbered_state(2));
    assert_eq!(buf.len(), 2);
    assert!(!buf.is_empty());
    buf.clear();
    assert_eq!(buf.len(), 0);
    assert!(buf.is_empty());
}

#[test]
fn state_constructors_carry_data_and_key() {
    let s = State::new(JsonVal::Bool(true), Some("k".to_string()));
    assert_eq!(s.alignment_key.as_deref(), Some("k"));
    let s = State::with_data(JsonVal::Bool(false));
    assert!(s.alignment_key.is_none());
    let copy = s.duplicate();
    assert!(copy.alignment_key.is_none());
    assert_eq!(copy.timestamp_ms, s.timestamp_ms);
}
