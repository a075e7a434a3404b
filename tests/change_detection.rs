use gnostr_time::log_state::LogWidgetState;
use gnostr_time::monitor::{is_advanced, Monitor, Signal, ValueSnapshot};
use gnostr_time::numeric::{rank_current, rank_previous};

fn snap(w: &str, b: &str, o: &str) -> ValueSnapshot {
    ValueSnapshot::new(w.to_string(), b.to_string(), o.to_string())
}

fn monitor_at(tick: u64, first: ValueSnapshot) -> (Monitor, LogWidgetState) {
    let mut log = LogWidgetState::new();
    let mut m = Monitor::start(first, &mut log);
    for _ in 0..tick {
        let fresh = m.snapshot.clone();
        m.end_tick(&mut log, &fresh);
    }
    log.flush();
    (m, log)
}

#[test]
fn growth_advances_after_first_tick() {
    assert!(is_advanced("100", "150", 1));
    assert!(is_advanced("100", "100", 3));
    assert!(is_advanced("-5", "-5", 1));
}

#[test]
fn decline_does_not_advance() {
    assert!(!is_advanced("150", "100", 1));
    assert!(!is_advanced("0", "-1", 9));
}

#[test]
fn first_tick_never_advances() {
    assert!(!is_advanced("100", "150", 0));
    assert!(!is_advanced("x", "abc", 0));
}

#[test]
fn unreadable_current_advances() {
    assert!(is_advanced("2147483647", "abc", 1));
    assert!(is_advanced("200", "", 1));
}

#[test]
fn unreadable_previous_ranks_as_zero() {
    assert!(is_advanced("abc", "0", 1));
    assert!(is_advanced("abc", "7", 1));
    assert!(!is_advanced("abc", "-5", 1));
}

#[test]
fn ranks_of_readable_and_unreadable_values() {
    assert_eq!(rank_current("150"), 150);
    assert_eq!(rank_current("+42"), 42);
    assert_eq!(rank_current("-42"), -42);
    assert_eq!(rank_current("abc"), i32::MAX);
    assert_eq!(rank_current(" 5"), i32::MAX);
    assert_eq!(rank_current("+"), i32::MAX);
    assert_eq!(rank_current("2147483648"), i32::MAX);
    assert_eq!(rank_current("-2147483648"), i32::MIN);
    assert_eq!(rank_previous("150"), 150);
    assert_eq!(rank_previous("abc"), 0);
    assert_eq!(rank_previous(""), 0);
    assert_eq!(rank_previous("-"), 0);
}

#[test]
fn weeble_growth_updates_snapshot_and_logs() {
    let (mut m, mut log) = monitor_at(1, snap("100", "200", "300"));
    let fresh = snap("150", "201", "301");
    let changed = m.observe(&mut log, Signal::Weeble, "150".to_string(), &fresh);
    assert!(changed);
    assert_eq!(m.snapshot.weeble, "150");
    assert_eq!(m.snapshot.blockheight, "200");
    assert_eq!(log.len(), 1);
    assert!(log.history[0].contains("150"));
    assert_eq!(log.history[0], "150/201/301");
}

#[test]
fn unreadable_blockheight_counts_as_advanced() {
    let (mut m, mut log) = monitor_at(1, snap("100", "200", "300"));
    let fresh = snap("100", "abc", "300");
    let changed = m.observe(&mut log, Signal::Blockheight, "abc".to_string(), &fresh);
    assert!(changed);
    assert_eq!(m.snapshot.blockheight, "abc");
    assert_eq!(log.len(), 1);
    assert_eq!(log.history[0], "100/abc/300");
}

#[test]
fn decline_leaves_snapshot_and_log() {
    let (mut m, mut log) = monitor_at(2, snap("100", "200", "300"));
    let fresh = snap("100", "200", "250");
    let changed = m.observe(&mut log, Signal::Wobble, "250".to_string(), &fresh);
    assert!(!changed);
    assert_eq!(m.snapshot.wobble, "300");
    assert_eq!(log.len(), 0);
}

#[test]
fn first_tick_observe_changes_nothing() {
    let (mut m, mut log) = monitor_at(0, snap("100", "200", "300"));
    let fresh = snap("999", "200", "300");
    assert!(!m.observe(&mut log, Signal::Weeble, "999".to_string(), &fresh));
    assert_eq!(m.snapshot.weeble, "100");
    assert!(log.history.is_empty());
}

#[test]
fn start_logs_first_values() {
    let mut log = LogWidgetState::new();
    let m = Monitor::start(snap("1", "2", "3"), &mut log);
    assert_eq!(m.tick, 0);
    assert_eq!(log.history, vec!["1/2/3"]);
}

#[test]
fn end_tick_logs_and_counts() {
    let mut log = LogWidgetState::new();
    let mut m = Monitor::start(snap("1", "2", "3"), &mut log);
    m.end_tick(&mut log, &snap("4", "5", "6"));
    assert_eq!(m.tick, 1);
    assert_eq!(m.snapshot.weeble, "1");
    assert_eq!(log.history, vec!["1/2/3", "4/5/6"]);
}

#[test]
fn end_tick_count_stops_at_max() {
    let mut log = LogWidgetState::new();
    let mut m = Monitor::start(snap("1", "2", "3"), &mut log);
    m.tick = u64::MAX;
    m.end_tick(&mut log, &snap("1", "2", "3"));
    assert_eq!(m.tick, u64::MAX);
}

#[test]
fn snapshot_get_and_set() {
    let mut s = snap("1", "2", "3");
    s.set(Signal::Wobble, "9".to_string());
    assert_eq!(s.get(Signal::Wobble), "9");
    assert_eq!(s.get(Signal::Weeble), "1");
    assert_eq!(s.get(Signal::Blockheight), "2");
}

#[test]
fn line_and_title_text() {
    let s = snap("10", "20", "30");
    assert_eq!(s.line(), "10/20/30");
    assert_eq!(
        s.title(),
        "──[\"GNOSTR\",{\"weeble\": 10, \"blockheight\": 20, \"wobble\": 30}]"
    );
}
