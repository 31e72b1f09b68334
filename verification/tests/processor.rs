use bulletproof::BulletProofProcessor;

#[test]
fn new_starts_at_zero() {
    let p = BulletProofProcessor::new(true);
    assert_eq!(p.processed_count, 0);
    let s = p.get_stats();
    assert_eq!(s.processed_count, 0);
    assert!(s.verbose);
}

#[test]
fn stats_verbose_follows_construction() {
    let p = BulletProofProcessor::new(false);
    assert!(!p.get_stats().verbose);
    let q = BulletProofProcessor::new(true);
    assert!(q.get_stats().verbose);
}

#[test]
fn process_numbers_items_in_order() {
    let mut p = BulletProofProcessor::new(false);
    for k in 1..=3usize {
        let r = p.process("line");
        assert!(r.success);
        let d = r.data.expect("data is always present");
        assert_eq!(d.item_number, k);
    }
    assert_eq!(p.get_stats().processed_count, 3);
}

#[test]
fn process_empty_string_has_length_zero() {
    let mut p = BulletProofProcessor::new(false);
    let r = p.process("");
    let d = r.data.expect("data is always present");
    assert_eq!(d.length, 0);
    assert_eq!(d.item_number, 1);
}

#[test]
fn process_counts_characters_not_bytes() {
    let mut p = BulletProofProcessor::new(false);
    let r = p.process("h\u{e9}llo");
    let d = r.data.expect("data is always present");
    assert_eq!(d.length, 5);
}

#[test]
fn process_message_carries_the_count() {
    let mut p = BulletProofProcessor::new(false);
    let r = p.process("a");
    assert_eq!(r.message, "Successfully processed item #1");
    let mut last = String::new();
    for _ in 0..11 {
        last = p.process("a").message;
    }
    assert_eq!(last, "Successfully processed item #12");
}

#[test]
fn message_string_renders_decimals() {
    assert_eq!(bulletproof::message_string(0), "Successfully processed item #0");
    assert_eq!(bulletproof::message_string(7), "Successfully processed item #7");
    assert_eq!(bulletproof::message_string(10), "Successfully processed item #10");
    assert_eq!(bulletproof::message_string(120), "Successfully processed item #120");
    assert_eq!(
        bulletproof::message_string(usize::MAX),
        format!("Successfully processed item #{}", usize::MAX)
    );
}

#[test]
fn processed_at_is_an_rfc3339_timestamp() {
    let mut p = BulletProofProcessor::new(false);
    let r = p.process("a");
    let d = r.data.expect("data is always present");
    assert!(chrono::DateTime::parse_from_rfc3339(&d.processed_at).is_ok());
}
