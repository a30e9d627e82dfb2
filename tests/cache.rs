use std::sync::Arc;

use mconfig::cell::{GetAction, ValueCell};
use mconfig::error::MConfigError;
use mconfig::handler::{
    actionable_value, fetch_value, ChangeEvent, MConfigChangeResult, MConfigEntry, OperationType,
};
use mconfig::watch::{WatchAction, WatchEvent, WatchLoop, WatchState, LIVENESS_SECS, RECONNECT_DELAY_SECS};

fn change(op: OperationType, key: &str, value: Option<&str>) -> ChangeEvent<String> {
    ChangeEvent {
        operation_type: op,
        affected_key: key.to_string(),
        new_value: value.map(|v| MConfigChangeResult::new(v.to_string())),
    }
}

fn applied(a: WatchAction<String>) -> Option<String> {
    match a {
        WatchAction::Apply(v) => Some(v),
        _ => None,
    }
}

fn streaming_loop(key: &str) -> WatchLoop {
    let mut w = WatchLoop::new(key.to_string());
    assert!(matches!(w.step::<String>(WatchEvent::Opened), WatchAction::AwaitEvent));
    w
}

#[test]
fn end_to_end_update_flow() {
    let mut cell: ValueCell<String> = ValueCell::new(true);
    let mut lookups = 0;
    let first = cell.begin_get();
    let second = cell.begin_get();
    assert!(first.start_watcher);
    assert!(!second.start_watcher);
    for step in [&first, &second] {
        if matches!(step.action, GetAction::Fetch) {
            lookups += 1;
        }
    }
    assert!(matches!(second.action, GetAction::Wait));
    assert_eq!(lookups, 1);
    let found = fetch_value(&"aaa".to_string(), Ok(Some(MConfigEntry::new("aaa".to_string(), "1111".to_string()))));
    let shared = cell.finish_fetch(found.map(Arc::new)).ok().unwrap();
    let handle_one = shared.clone();
    let handle_two = shared;
    assert_eq!(handle_one.as_str(), "1111");
    assert_eq!(handle_two.as_str(), "1111");

    let mut watcher = streaming_loop("aaa");
    let action = watcher.step(WatchEvent::Change(change(OperationType::Update, "aaa", Some("11111"))));
    let new_value = applied(action).unwrap();
    let published = cell.apply_change(Arc::new(new_value.clone()));
    assert!(published);
    assert_eq!(new_value, "11111");
    match cell.begin_get().action {
        GetAction::Ready(v) => assert_eq!(v.as_str(), "11111"),
        _ => panic!("the cell should hold a snapshot"),
    }
    assert_eq!(handle_one.as_str(), "1111");
    assert_eq!(handle_two.as_str(), "1111");
}

#[test]
fn concurrent_gets_share_one_lookup() {
    let mut cell: ValueCell<String> = ValueCell::new(false);
    let steps: Vec<_> = (0..5).map(|_| cell.begin_get()).collect();
    assert!(matches!(steps[0].action, GetAction::Fetch));
    assert!(steps[1..].iter().all(|s| matches!(s.action, GetAction::Wait)));
    assert_eq!(steps.iter().filter(|s| s.start_watcher).count(), 1);
    let r = cell.finish_fetch(Ok(Arc::new("v".to_string())));
    assert_eq!(r.ok().unwrap().as_str(), "v");
    assert!(matches!(cell.begin_get().action, GetAction::Ready(_)));
}

#[test]
fn missing_key_is_retried_until_it_appears() {
    let mut cell: ValueCell<String> = ValueCell::new(false);
    for _ in 0..3 {
        let step = cell.begin_get();
        assert!(matches!(step.action, GetAction::Fetch));
        let outcome = fetch_value::<String>(&"aaa".to_string(), Ok(None));
        let r = cell.finish_fetch(outcome.map(Arc::new));
        let e = r.err().unwrap();
        assert!(e.key_not_found());
        assert_eq!(e.missing_key().unwrap(), "aaa");
    }
    assert!(matches!(cell.begin_get().action, GetAction::Fetch));
    let entry = MConfigEntry::new("aaa".to_string(), "1".to_string());
    let r = cell.finish_fetch(fetch_value(&"aaa".to_string(), Ok(Some(entry))).map(Arc::new));
    assert_eq!(r.ok().unwrap().as_str(), "1");
    assert!(matches!(cell.begin_get().action, GetAction::Ready(_)));
}

#[test]
fn watcher_starts_once_and_not_after_close() {
    let mut cell: ValueCell<String> = ValueCell::new(false);
    assert!(!cell.close());
    assert!(!cell.begin_get().start_watcher);
    let mut open: ValueCell<String> = ValueCell::new(false);
    assert!(open.begin_get().start_watcher);
    let _ = open.finish_fetch(Err(MConfigError::KeyNotExists { key: "k".to_string() }));
    assert!(!open.begin_get().start_watcher);
    assert!(open.close());
    assert!(!open.close());
}

#[test]
fn publishing_needs_notifications_and_an_open_cell() {
    let mut quiet: ValueCell<String> = ValueCell::new(false);
    assert!(!quiet.apply_change(Arc::new("x".to_string())));
    let mut loud: ValueCell<String> = ValueCell::new(true);
    assert!(loud.apply_change(Arc::new("x".to_string())));
    loud.close();
    assert!(!loud.apply_change(Arc::new("y".to_string())));
}

#[test]
fn only_changes_of_the_key_with_a_value_count() {
    let key = "aaa".to_string();
    assert_eq!(actionable_value(&key, change(OperationType::Insert, "aaa", Some("1"))), Some("1".to_string()));
    assert_eq!(actionable_value(&key, change(OperationType::Update, "aaa", Some("2"))), Some("2".to_string()));
    assert_eq!(actionable_value(&key, change(OperationType::Replace, "aaa", Some("3"))), Some("3".to_string()));
    assert_eq!(actionable_value(&key, change(OperationType::Delete, "aaa", Some("4"))), None);
    assert_eq!(actionable_value(&key, change(OperationType::Invalidate, "aaa", Some("5"))), None);
    assert_eq!(actionable_value(&key, change(OperationType::Update, "aaa", None)), None);
    assert_eq!(actionable_value(&key, change(OperationType::Update, "bbb", Some("6"))), None);
}

#[test]
fn streamed_changes_are_applied_in_order() {
    let mut w = streaming_loop("aaa");
    let events = vec![
        change(OperationType::Update, "aaa", Some("1")),
        change(OperationType::Delete, "aaa", None),
        change(OperationType::Insert, "aaa", Some("2")),
        change(OperationType::Update, "aaa", None),
        change(OperationType::Replace, "aaa", Some("3")),
    ];
    let values: Vec<String> = events.into_iter().filter_map(|e| applied(w.step(WatchEvent::Change(e)))).collect();
    assert_eq!(values, vec!["1".to_string(), "2".to_string(), "3".to_string()]);
    assert_eq!(w.state, WatchState::Streaming);
}

#[test]
fn failed_open_waits_before_retrying() {
    let mut w = WatchLoop::new("aaa".to_string());
    assert_eq!(w.state, WatchState::Connecting);
    assert!(matches!(w.step::<String>(WatchEvent::OpenFailed), WatchAction::Sleep { secs: 10 }));
    assert_eq!(w.state, WatchState::Backoff);
    assert!(matches!(w.step::<String>(WatchEvent::DelayElapsed), WatchAction::Open));
    assert_eq!(w.state, WatchState::Connecting);
    assert_eq!(RECONNECT_DELAY_SECS, 10);
    assert_eq!(LIVENESS_SECS, 60);
}

#[test]
fn ended_or_dead_stream_reconnects_at_once() {
    let mut w = streaming_loop("aaa");
    assert!(matches!(w.step::<String>(WatchEvent::LivenessTick { alive: true }), WatchAction::AwaitEvent));
    assert_eq!(w.state, WatchState::Streaming);
    assert!(matches!(w.step::<String>(WatchEvent::LivenessTick { alive: false }), WatchAction::Open));
    assert_eq!(w.state, WatchState::Connecting);
    assert!(matches!(w.step::<String>(WatchEvent::Opened), WatchAction::AwaitEvent));
    assert!(matches!(w.step::<String>(WatchEvent::StreamEnded), WatchAction::Open));
    assert_eq!(w.state, WatchState::Connecting);
}

#[test]
fn closed_loop_does_nothing_more() {
    let mut w = streaming_loop("aaa");
    assert!(matches!(w.step::<String>(WatchEvent::Close), WatchAction::Stop));
    assert_eq!(w.state, WatchState::Closed);
    assert!(matches!(w.step(WatchEvent::Change(change(OperationType::Update, "aaa", Some("1")))), WatchAction::Stop));
    assert!(matches!(w.step::<String>(WatchEvent::Opened), WatchAction::Stop));
    assert_eq!(w.state, WatchState::Closed);
}

#[test]
fn missing_key_error_text() {
    let e = MConfigError::KeyNotExists { key: "aaa".to_string() };
    assert_eq!(e.describe(), "key aaa not found");
    assert!(e.missing_key().is_some());
}
