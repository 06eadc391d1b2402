use ecdh_test::message_log::MessageLog;

#[test]
fn new_log_is_empty() {
    let log = MessageLog::new();
    assert_eq!(log.len(), 0);
}

#[test]
fn length_tracks_appends_up_to_capacity() {
    let mut log = MessageLog::new();
    for i in 0..20 {
        log.append(&format!("msg{}", i));
        assert_eq!(log.len(), i + 1);
    }
    for i in 0..20 {
        assert_eq!(log.entry(i).as_str(), format!("msg{}", i).as_str());
    }
}

#[test]
fn length_stays_at_capacity_beyond_twenty_appends() {
    let mut log = MessageLog::new();
    for i in 0..33 {
        log.append(&format!("msg{}", i));
    }
    assert_eq!(log.len(), 20);
    // 33 appends: the earliest survivor is the (33 - 19)th appended entry.
    assert_eq!(log.entry(0).as_str(), "msg13");
    assert_eq!(log.entry(19).as_str(), "msg32");
}

#[test]
fn fifo_eviction_of_twenty_one_distinct_entries() {
    let mut log = MessageLog::new();
    for i in 0..21 {
        log.append(&format!("msg{}", i));
    }
    assert_eq!(log.len(), 20);
    // "msg0" is evicted; "msg1".."msg20" survive in insertion order.
    for i in 0..20 {
        assert_eq!(log.entry(i).as_str(), format!("msg{}", i + 1).as_str());
    }
}

#[test]
fn clear_empties_any_log() {
    let mut log = MessageLog::new();
    log.clear();
    assert_eq!(log.len(), 0);
    for i in 0..25 {
        log.append(&format!("msg{}", i));
    }
    log.clear();
    assert_eq!(log.len(), 0);
    log.append("after");
    assert_eq!(log.len(), 1);
    log.clear();
    assert_eq!(log.len(), 0);
}

#[test]
fn over_long_entry_is_truncated() {
    let mut log = MessageLog::new();
    let long = "a".repeat(600);
    log.append(&long);
    assert_eq!(log.len(), 1);
    assert_eq!(log.entry(0).as_str().chars().count(), 512);
    assert_eq!(log.entry(0).as_str(), "a".repeat(512).as_str());
}

#[test]
fn newest_first_reverses_insertion_order() {
    let mut log = MessageLog::new();
    log.append("first");
    log.append("second");
    log.append("third");
    let rev = log.newest_first();
    assert_eq!(rev.len(), 3);
    assert_eq!(rev[0].as_str(), "third");
    assert_eq!(rev[1].as_str(), "second");
    assert_eq!(rev[2].as_str(), "first");
    // The log itself is unchanged.
    assert_eq!(log.len(), 3);
    assert_eq!(log.entry(0).as_str(), "first");
}
