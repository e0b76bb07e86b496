use clipwatch::config::Config;
use clipwatch::content::{ClipContent, ClipboardSnapshot, ReadError, SinkError};
use clipwatch::detector::{observe, WatcherState};
use clipwatch::scheduler::{Phase, Watcher};

fn config(base: u64, cap: u64, threshold: u64) -> Config {
    Config {
        base_interval_ms: base,
        max_backoff_ms: cap,
        error_threshold: threshold,
        read_timeout_ms: 50,
    }
}

fn started(c: Config) -> Watcher {
    let mut w = Watcher::new(c).expect("configuration should be valid");
    w.start();
    w
}

fn text(s: &str) -> Result<ClipContent, ReadError> {
    Ok(ClipContent::Text(String::from(s)))
}

#[test]
fn new_watcher_is_idle_and_start_begins_polling() {
    let mut w = Watcher::new(Config::default()).expect("configuration should be valid");
    assert_eq!(w.phase(), Phase::Idle);
    assert!(!w.is_running());
    w.start();
    assert_eq!(w.phase(), Phase::Polling);
    assert!(w.is_running());
    // starting again changes nothing
    w.start();
    assert_eq!(w.phase(), Phase::Polling);
}

#[test]
fn invalid_config_is_rejected_before_polling() {
    assert!(Watcher::new(config(0, 5000, 3)).is_err());
}

#[test]
fn notifications_equal_deduplicated_sequence() {
    // observed: A, A, B, B, B, A — notified: A, B, A
    let mut w = started(Config::default());
    let mut notes = Vec::new();
    for (i, s) in ["A", "A", "B", "B", "B", "A"].iter().enumerate() {
        if let Some(n) = w.on_read(text(s), i as u64) {
            notes.push(n);
        }
    }
    assert_eq!(notes, vec![
        String::from("A"),
        String::from("B"),
        String::from("A"),
    ]);
}

#[test]
fn same_content_notifies_exactly_once() {
    let mut w = started(Config::default());
    assert_eq!(w.on_read(text("hello"), 0), Some(String::from("hello")));
    for i in 1..10u64 {
        assert_eq!(w.on_read(text("hello"), i), None);
    }
}

#[test]
fn round_trip_through_non_text_renotifies() {
    let mut w = started(Config::default());
    let mut notes = Vec::new();
    for (i, outcome) in [
        text("A"),
        Ok(ClipContent::NonText),
        text("A"),
    ]
    .into_iter()
    .enumerate()
    {
        if let Some(n) = w.on_read(outcome, i as u64) {
            notes.push(n);
        }
    }
    // "A" is reported twice: the non-text observation in between was kept
    assert_eq!(notes, vec![String::from("A"), String::from("A")]);
}

#[test]
fn non_text_is_kept_but_never_notified() {
    let mut w = started(Config::default());
    assert_eq!(w.on_read(Ok(ClipContent::NonText), 0), None);
    assert_eq!(w.on_read(Ok(ClipContent::NonText), 1), None);
    assert_eq!(w.on_read(text("A"), 2), Some(String::from("A")));
}

#[test]
fn empty_string_is_distinct_from_non_text_and_from_nothing() {
    let mut w = started(Config::default());
    // first observation ever: empty text is a value of its own and notifies
    assert_eq!(w.on_read(text(""), 0), Some(String::from("")));
    // unchanged empty text does not
    assert_eq!(w.on_read(text(""), 1), None);
    // empty text -> non-text is a change (kept, not notified)
    assert_eq!(w.on_read(Ok(ClipContent::NonText), 2), None);
    // non-text -> empty text is a change again, and notifies
    assert_eq!(w.on_read(text(""), 3), Some(String::from("")));
}

#[test]
fn interval_escalates_after_threshold_and_resets_on_success() {
    // config {base_interval_ms: 100, error_threshold: 3}
    let mut w = started(config(100, 5000, 3));
    assert_eq!(w.on_read(Err(ReadError::AccessDenied), 0), None);
    assert_eq!(w.current_interval_ms(), 100);
    assert_eq!(w.phase(), Phase::Polling);
    assert_eq!(w.on_read(Err(ReadError::AccessDenied), 1), None);
    assert_eq!(w.current_interval_ms(), 100);
    assert_eq!(w.on_read(Err(ReadError::AccessDenied), 2), None);
    // interval escalates after the 3rd error
    assert_eq!(w.phase(), Phase::Backoff);
    assert_eq!(w.current_interval_ms(), 200);
    assert_eq!(w.consecutive_errors(), 3);
    // then resets to 100ms and one notification fires
    assert_eq!(w.on_read(text("hello"), 3), Some(String::from("hello")));
    assert_eq!(w.phase(), Phase::Polling);
    assert_eq!(w.current_interval_ms(), 100);
    assert_eq!(w.consecutive_errors(), 0);
}

#[test]
fn backoff_is_monotone_and_capped() {
    let mut w = started(config(100, 300, 1));
    let mut previous = w.current_interval_ms();
    for i in 0..6u64 {
        w.on_read(Err(ReadError::PlatformUnavailable), i);
        let current = w.current_interval_ms();
        assert!(current >= previous, "interval must not shrink under errors");
        assert!(current <= 300, "interval must not pass the cap");
        previous = current;
    }
    assert_eq!(w.current_interval_ms(), 300);
    // first success resets to base
    w.on_read(text("x"), 7);
    assert_eq!(w.current_interval_ms(), 100);
}

#[test]
fn errors_in_backoff_keep_doubling_until_cap() {
    let mut w = started(config(100, 5000, 3));
    for i in 0..3u64 {
        w.on_read(Err(ReadError::Timeout), i);
    }
    assert_eq!(w.current_interval_ms(), 200);
    w.on_read(Err(ReadError::Timeout), 3);
    assert_eq!(w.current_interval_ms(), 400);
    w.on_read(Err(ReadError::Timeout), 4);
    assert_eq!(w.current_interval_ms(), 800);
}

#[test]
fn stop_mid_backoff_is_terminal_and_idempotent() {
    let mut w = started(config(100, 5000, 2));
    w.on_read(Err(ReadError::AccessDenied), 0);
    w.on_read(Err(ReadError::AccessDenied), 1);
    assert_eq!(w.phase(), Phase::Backoff);
    // stop() called mid-backoff: the watcher is Stopped and no read is due
    w.stop();
    assert_eq!(w.phase(), Phase::Stopped);
    assert!(w.is_stopped());
    assert!(!w.is_running());
    // stopping an already-stopped watcher is a no-op, not an error
    w.stop();
    assert_eq!(w.phase(), Phase::Stopped);
}

#[test]
fn kept_snapshot_carries_timestamp_and_sequence() {
    let mut w = started(Config::default());
    w.on_read(text("A"), 11);
    match w.last_snapshot() {
        Some(sn) => {
            assert!(matches!(&sn.content, ClipContent::Text(t) if t == "A"));
            assert_eq!(sn.timestamp_ms, 11);
            assert_eq!(sn.sequence, 0);
        },
        None => panic!("a change must be kept"),
    }
    // an unchanged read leaves the kept snapshot as it was
    w.on_read(text("A"), 22);
    match w.last_snapshot() {
        Some(sn) => {
            assert_eq!(sn.timestamp_ms, 11);
            assert_eq!(sn.sequence, 0);
        },
        None => panic!("the kept snapshot must stay"),
    }
    // the next change gets the next sequence number
    w.on_read(text("B"), 33);
    match w.last_snapshot() {
        Some(sn) => {
            assert_eq!(sn.timestamp_ms, 33);
            assert_eq!(sn.sequence, 1);
        },
        None => panic!("a change must be kept"),
    }
}

#[test]
fn read_errors_do_not_disturb_the_kept_snapshot() {
    let mut w = started(Config::default());
    w.on_read(text("A"), 0);
    for i in 1..5u64 {
        w.on_read(Err(ReadError::AccessDenied), i);
    }
    match w.last_snapshot() {
        Some(sn) => assert!(matches!(&sn.content, ClipContent::Text(t) if t == "A")),
        None => panic!("the kept snapshot must survive read errors"),
    }
    // the old value is still the one compared against
    assert_eq!(w.on_read(text("A"), 9), None);
}

#[test]
fn sink_errors_are_counted_and_never_stop_polling() {
    let mut w = started(Config::default());
    assert_eq!(w.sink_errors(), 0);
    assert_eq!(w.on_sink_error(SinkError::ConsumerUnavailable), 1);
    assert_eq!(w.on_sink_error(SinkError::DeliveryTimeout), 2);
    assert_eq!(w.sink_errors(), 2);
    assert_eq!(w.phase(), Phase::Polling);
    assert!(w.is_running());
}

#[test]
fn observe_replaces_on_change_and_keeps_otherwise() {
    let mut state = WatcherState {
        last_snapshot: None,
        consecutive_error_count: 7,
        current_interval_ms: 250,
    };
    let first = ClipboardSnapshot {
        content: ClipContent::Text(String::from("A")),
        timestamp_ms: 1,
        sequence: 0,
    };
    let reported = observe(first, &mut state);
    assert!(reported.is_some());
    let again = ClipboardSnapshot {
        content: ClipContent::Text(String::from("A")),
        timestamp_ms: 2,
        sequence: 1,
    };
    assert!(observe(again, &mut state).is_none());
    // the detector touches nothing but the kept snapshot
    assert_eq!(state.consecutive_error_count, 7);
    assert_eq!(state.current_interval_ms, 250);
    match &state.last_snapshot {
        Some(sn) => assert_eq!(sn.timestamp_ms, 1),
        None => panic!("the first observation must be kept"),
    }
}
