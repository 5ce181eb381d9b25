use dnp3_tester::telemetry::{
    FrameDirection, LogDirection, LogStore, FRAME_CAPACITY, LOG_CAPACITY,
};

#[test]
fn new_store_is_empty_with_the_documented_capacities() {
    let store = LogStore::new();
    assert!(store.get_logs().is_empty());
    assert!(store.get_frames().is_empty());
    assert_eq!(LOG_CAPACITY, 1000);
    assert_eq!(FRAME_CAPACITY, 500);
    assert_eq!(store.logs.capacity(), 1000);
    assert_eq!(store.raw_frames.capacity(), 500);
}

#[test]
fn log_lines_are_numbered_and_kept_in_order() {
    let mut store = LogStore::new();
    assert_eq!(store.add_log_at(LogDirection::System, "first", 0, 10), 0);
    assert_eq!(store.add_log_at(LogDirection::Tx, "second", 7, 20), 1);
    let logs = store.get_logs();
    assert_eq!(logs.len(), 2);
    assert_eq!(logs[0].id, 0);
    assert_eq!(logs[0].timestamp, 10);
    assert_eq!(logs[0].direction, LogDirection::System);
    assert_eq!(logs[0].message, "first");
    assert_eq!(logs[0].transaction_id, 0);
    assert_eq!(logs[1].id, 1);
    assert_eq!(logs[1].timestamp, 20);
    assert_eq!(logs[1].direction, LogDirection::Tx);
    assert_eq!(logs[1].message, "second");
    assert_eq!(logs[1].transaction_id, 7);
}

#[test]
fn log_ring_evicts_the_oldest_beyond_a_thousand() {
    let mut store = LogStore::new();
    for k in 0..1250u64 {
        let id = store.add_log_at(LogDirection::Rx, &format!("line {}", k), 0, k as i64);
        assert_eq!(id, k);
    }
    let logs = store.get_logs();
    assert_eq!(logs.len(), 1000);
    for (i, entry) in logs.iter().enumerate() {
        assert_eq!(entry.id, 250 + i as u64);
        assert_eq!(entry.message, format!("line {}", 250 + i));
    }
    // the frame ring has its own counter
    assert_eq!(store.capture_raw_frame_at(FrameDirection::Tx, vec![5, 100], 1), 0);
}

#[test]
fn frame_ring_evicts_the_oldest_beyond_five_hundred() {
    let mut store = LogStore::new();
    for k in 0..600u64 {
        let id = store.capture_raw_frame_at(FrameDirection::Rx, vec![k as u8, (k >> 8) as u8], k as i64);
        assert_eq!(id, k);
    }
    let frames = store.get_frames();
    assert_eq!(frames.len(), 500);
    for (i, frame) in frames.iter().enumerate() {
        let k = 100 + i as u64;
        assert_eq!(frame.id, k);
        assert_eq!(frame.data, vec![k as u8, (k >> 8) as u8]);
        assert_eq!(frame.direction, FrameDirection::Rx);
        assert_eq!(frame.timestamp, k as i64);
    }
    assert!(store.get_logs().is_empty());
}

#[test]
fn lost_entries_leave_gaps_and_no_duplicates() {
    let mut store = LogStore::new();
    assert_eq!(store.add_log_at(LogDirection::System, "a", 0, 1), 0);
    assert_eq!(store.lose_log(), 1);
    assert_eq!(store.lose_log(), 2);
    assert_eq!(store.add_log_at(LogDirection::System, "b", 0, 2), 3);
    let ids: Vec<u64> = store.get_logs().iter().map(|e| e.id).collect();
    assert_eq!(ids, vec![0, 3]);

    assert_eq!(store.lose_frame(), 0);
    assert_eq!(store.capture_raw_frame_at(FrameDirection::Tx, vec![1], 3), 1);
    let ids: Vec<u64> = store.get_frames().iter().map(|e| e.id).collect();
    assert_eq!(ids, vec![1]);
}

#[test]
fn entries_are_stamped_with_the_clock() {
    let mut store = LogStore::new();
    let before = chrono::Utc::now().timestamp_millis();
    store.add_log(LogDirection::Error, "now", 3);
    store.capture_raw_frame(FrameDirection::Tx, vec![5, 100, 5]);
    let after = chrono::Utc::now().timestamp_millis();
    let logs = store.get_logs();
    let frames = store.get_frames();
    assert!(before <= logs[0].timestamp && logs[0].timestamp <= after);
    assert!(before <= frames[0].timestamp && frames[0].timestamp <= after);
    assert!(logs[0].timestamp > 1_600_000_000_000);
    assert_eq!(logs[0].direction, LogDirection::Error);
    assert_eq!(frames[0].data, vec![5, 100, 5]);
}

#[test]
fn directions_have_their_labels() {
    assert_eq!(LogDirection::Tx.label(), "TX");
    assert_eq!(LogDirection::Rx.label(), "RX");
    assert_eq!(LogDirection::System.label(), "System");
    assert_eq!(LogDirection::Error.label(), "Error");
    assert_eq!(FrameDirection::Tx.label(), "TX");
    assert_eq!(FrameDirection::Rx.label(), "RX");
}

#[test]
fn snapshots_are_copies() {
    let mut store = LogStore::new();
    store.add_log_at(LogDirection::System, "kept", 0, 1);
    let mut copy = store.get_logs();
    copy[0].message.push_str(" changed");
    copy.clear();
    assert_eq!(store.get_logs()[0].message, "kept");
}
