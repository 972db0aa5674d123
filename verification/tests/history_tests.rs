use interaction::history::History;

#[test]
fn append_within_limit_keeps_all() {
    let mut h = History::new(3);
    h.append(b"a".to_vec());
    h.append(b"b".to_vec());
    assert_eq!(h.len(), 2);
    assert_eq!(h.entry_at(0).as_slice(), b"a");
    assert_eq!(h.entry_at(1).as_slice(), b"b");
}

#[test]
fn append_at_capacity_evicts_oldest() {
    let mut h = History::new(2);
    h.append(b"one".to_vec());
    h.append(b"two".to_vec());
    h.append(b"three".to_vec());
    assert_eq!(h.len(), 2);
    assert_eq!(h.entry_at(0).as_slice(), b"two");
    assert_eq!(h.entry_at(1).as_slice(), b"three");
}

#[test]
fn capacity_holds_under_many_appends() {
    let mut h = History::new(4);
    for i in 0..50u8 {
        h.append(vec![i]);
    }
    assert_eq!(h.len(), 4);
    // Exactly the most recent four, oldest first.
    assert_eq!(h.entry_at(0).as_slice(), &[46]);
    assert_eq!(h.entry_at(1).as_slice(), &[47]);
    assert_eq!(h.entry_at(2).as_slice(), &[48]);
    assert_eq!(h.entry_at(3).as_slice(), &[49]);
}

#[test]
fn zero_limit_is_unbounded() {
    let mut h = History::new(0);
    for i in 0..100u8 {
        h.append(vec![i]);
    }
    assert_eq!(h.len(), 100);
    assert_eq!(h.entry_at(0).as_slice(), &[0]);
}

#[test]
fn browse_round_trip_returns_to_live_edit() {
    let mut h = History::new(0);
    h.append(b"a".to_vec());
    h.append(b"b".to_vec());
    h.append(b"c".to_vec());
    // Three prev steps each return an entry, newest first.
    assert_eq!(h.prev().unwrap(), b"c".to_vec());
    assert_eq!(h.prev().unwrap(), b"b".to_vec());
    assert_eq!(h.prev().unwrap(), b"a".to_vec());
    // At the oldest entry, prev returns nothing.
    assert!(h.prev().is_none());
    // Stepping forward skips to the next entry each time...
    assert_eq!(h.next().unwrap(), b"b".to_vec());
    assert_eq!(h.next().unwrap(), b"c".to_vec());
    // ...and the final step lands back at the live edit with nothing.
    assert!(h.next().is_none());
    assert!(h.next().is_none());
}

#[test]
fn prev_on_empty_returns_nothing() {
    let mut h = History::new(0);
    assert!(h.prev().is_none());
    assert!(h.next().is_none());
}

#[test]
fn append_resets_browsing_to_live_edit() {
    let mut h = History::new(0);
    h.append(b"a".to_vec());
    h.append(b"b".to_vec());
    assert_eq!(h.prev().unwrap(), b"b".to_vec());
    h.append(b"c".to_vec());
    // Browsing restarts from the live edit: prev now yields the newest.
    assert_eq!(h.prev().unwrap(), b"c".to_vec());
}

#[test]
fn save_bytes_writes_newline_delimited() {
    let mut h = History::new(0);
    h.append(b"abc".to_vec());
    h.append(b"de".to_vec());
    assert_eq!(h.save_bytes(), b"abc\nde\n".to_vec());
}

#[test]
fn load_bytes_reads_newline_delimited() {
    let mut h = History::new(0);
    h.load_bytes(&b"abc\nde\n".to_vec());
    assert_eq!(h.len(), 2);
    assert_eq!(h.entry_at(0).as_slice(), b"abc");
    assert_eq!(h.entry_at(1).as_slice(), b"de");
    // Loading leaves the cursor at the live edit: prev yields the newest.
    assert_eq!(h.prev().unwrap(), b"de".to_vec());
}

#[test]
fn load_bytes_takes_trailing_entry_without_newline() {
    let mut h = History::new(0);
    h.load_bytes(&b"abc\nde".to_vec());
    assert_eq!(h.len(), 2);
    assert_eq!(h.entry_at(1).as_slice(), b"de");
}

#[test]
fn load_bytes_folds_leading_newlines_into_next_entry() {
    // A newline that would close an empty line is kept as a byte of the
    // entry that follows it.
    let mut h = History::new(0);
    h.load_bytes(&b"\na\n".to_vec());
    assert_eq!(h.len(), 1);
    assert_eq!(h.entry_at(0).as_slice(), b"\na");
}

#[test]
fn load_bytes_respects_capacity() {
    let mut h = History::new(2);
    h.load_bytes(&b"a\nb\nc\nd\n".to_vec());
    assert_eq!(h.len(), 2);
    assert_eq!(h.entry_at(0).as_slice(), b"c");
    assert_eq!(h.entry_at(1).as_slice(), b"d");
}

#[test]
fn save_then_load_round_trips() {
    let mut h = History::new(5);
    h.append(b"abc".to_vec());
    h.append(b"de".to_vec());
    let bytes = h.save_bytes();
    let mut fresh = History::new(5);
    fresh.load_bytes(&bytes);
    assert_eq!(fresh.len(), 2);
    assert_eq!(fresh.entry_at(0).as_slice(), b"abc");
    assert_eq!(fresh.entry_at(1).as_slice(), b"de");
}

#[test]
fn load_on_empty_bytes_loads_nothing() {
    let mut h = History::new(0);
    h.load_bytes(&Vec::new());
    assert_eq!(h.len(), 0);
}
