use phishguard::stream::{
    disconnect, poll_cycle, poll_step, select_newest, subscribe, ActivityEvent, PollOutcome,
    StreamMessage,
};

fn event(id: u64, principal: &str, threat: bool) -> ActivityEvent {
    ActivityEvent {
        activity_id: id,
        principal_id: principal.to_string(),
        is_threat: threat,
        url_ref: format!("ref-{}", id),
        threat_type: if threat { Some("phishing".to_string()) } else { None },
        threat_level: if threat { "HIGH".to_string() } else { "SAFE".to_string() },
        confidence_millionths: 900_000,
        action_taken: "blocked".to_string(),
        timestamp: 1_700_000_000 + id as i64,
    }
}

fn expect_alert(m: StreamMessage) -> u64 {
    match m {
        StreamMessage::Alert(a) => a.activity_id,
        StreamMessage::Heartbeat => panic!("expected an alert, got a heartbeat"),
    }
}

#[test]
fn test_stream_filtering_and_cursoring() {
    // An activity log for principal P that grows while the subscription
    // runs; of its five events, three are flagged as threats.
    let mut s = subscribe();
    assert!(s.cursor.is_none());

    // Cycle 1: the log holds events 1 (benign) and 2 (threat); the newest
    // matching event is surfaced and becomes the cursor.
    let log = vec![event(1, "P", false), event(2, "P", true)];
    let m = poll_cycle(&mut s, &log, "P");
    assert_eq!(expect_alert(m), 2);
    assert_eq!(s.cursor, Some(2));

    // Cycle 2: one more benign event; nothing new matches, so the
    // subscriber gets a heartbeat and the cursor stays.
    let log = vec![event(1, "P", false), event(2, "P", true), event(3, "P", false)];
    let m = poll_cycle(&mut s, &log, "P");
    assert!(matches!(m, StreamMessage::Heartbeat));
    assert_eq!(s.cursor, Some(2));

    // Cycle 3: a new threat arrived; exactly it is surfaced.
    let log = vec![
        event(1, "P", false),
        event(2, "P", true),
        event(3, "P", false),
        event(4, "P", true),
    ];
    let m = poll_cycle(&mut s, &log, "P");
    assert_eq!(expect_alert(m), 4);
    assert_eq!(s.cursor, Some(4));

    // Cycle 4: another threat; again exactly one event per cycle.
    let log = vec![
        event(1, "P", false),
        event(2, "P", true),
        event(3, "P", false),
        event(4, "P", true),
        event(5, "P", true),
    ];
    let m = poll_cycle(&mut s, &log, "P");
    assert_eq!(expect_alert(m), 5);
    assert_eq!(s.cursor, Some(5));

    // Disconnect ends the subscription; the poll functions require a live
    // state, so no further query can be issued for it.
    disconnect(&mut s);
    assert!(!s.live);
}

#[test]
fn test_at_most_one_event_per_cycle() {
    // Several threats accumulated before the first cycle: only the single
    // newest is surfaced.
    let log = vec![event(1, "P", true), event(2, "P", true), event(3, "P", true)];
    let mut s = subscribe();
    let m = poll_cycle(&mut s, &log, "P");
    assert_eq!(expect_alert(m), 3);
    assert_eq!(s.cursor, Some(3));
}

#[test]
fn test_static_log_emits_newest_once_then_idles() {
    // Five pre-existing events, three flagged as threats. Only the newest
    // threat is surfaced; the older ones are never replayed, and nothing
    // is ever emitted twice: the later cycles heartbeat.
    let log = vec![
        event(1, "P", true),
        event(2, "P", false),
        event(3, "P", true),
        event(4, "P", false),
        event(5, "P", true),
    ];
    let mut s = subscribe();

    let m = poll_cycle(&mut s, &log, "P");
    assert_eq!(expect_alert(m), 5);
    assert_eq!(s.cursor, Some(5));

    let m = poll_cycle(&mut s, &log, "P");
    assert!(matches!(m, StreamMessage::Heartbeat));
    assert_eq!(s.cursor, Some(5));

    let m = poll_cycle(&mut s, &log, "P");
    assert!(matches!(m, StreamMessage::Heartbeat));
    assert_eq!(s.cursor, Some(5));
}

#[test]
fn test_older_events_are_never_emitted() {
    // Once the cursor stands at an id, an older threat in the log is not
    // surfaced and cannot move the cursor backwards.
    let mut s = subscribe();
    let m = poll_cycle(&mut s, &vec![event(5, "P", true)], "P");
    assert_eq!(expect_alert(m), 5);

    let older_only = vec![event(1, "P", true)];
    let m = poll_cycle(&mut s, &older_only, "P");
    assert!(matches!(m, StreamMessage::Heartbeat));
    assert_eq!(s.cursor, Some(5));
}

#[test]
fn test_other_principals_are_filtered_out() {
    let log = vec![event(1, "P", true), event(2, "Q", true), event(3, "Q", true)];
    let mut s = subscribe();
    let m = poll_cycle(&mut s, &log, "P");
    assert_eq!(expect_alert(m), 1);

    // Only principal Q's events remain unseen, so P's stream idles.
    let m = poll_cycle(&mut s, &log, "P");
    assert!(matches!(m, StreamMessage::Heartbeat));
}

#[test]
fn test_failed_poll_is_a_heartbeat() {
    // A failed activity-log query is absorbed: the subscriber sees a
    // heartbeat, not an error, and the cursor is untouched.
    let mut s = subscribe();
    let log = vec![event(9, "P", true)];
    let m = poll_cycle(&mut s, &log, "P");
    assert_eq!(expect_alert(m), 9);

    let m = poll_step(&mut s, PollOutcome::Failed);
    assert!(matches!(m, StreamMessage::Heartbeat));
    assert_eq!(s.cursor, Some(9));
    assert!(s.live);
}

#[test]
fn test_select_newest_empty_log() {
    let log: Vec<ActivityEvent> = vec![];
    assert_eq!(select_newest(&log, "P", None), None);
}

#[test]
fn test_alert_carries_event_fields() {
    let log = vec![event(7, "P", true)];
    let mut s = subscribe();
    match poll_cycle(&mut s, &log, "P") {
        StreamMessage::Alert(a) => {
            assert_eq!(a.activity_id, 7);
            assert_eq!(a.url_ref, "ref-7");
            assert_eq!(a.threat_type.as_deref(), Some("phishing"));
            assert_eq!(a.threat_level, "HIGH");
            assert_eq!(a.confidence_millionths, 900_000);
            assert_eq!(a.timestamp, 1_700_000_007);
        }
        StreamMessage::Heartbeat => panic!("expected an alert"),
    }
}
