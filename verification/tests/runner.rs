use bulletproof::{default_input, process_items, process_text};

#[test]
fn items_fed_to_a_fresh_processor_are_numbered_from_one() {
    let items = vec![String::from(""), String::from("xy"), String::from("z"), String::from("")];
    let (results, stats) = process_items(false, &items);
    assert_eq!(results.len(), 4);
    for (i, r) in results.iter().enumerate() {
        let d = r.data.as_ref().expect("data is always present");
        assert_eq!(d.item_number, i + 1);
        assert_eq!(d.length, items[i].chars().count());
    }
    assert_eq!(stats.processed_count, 4);
}

#[test]
fn default_input_is_empty() {
    assert_eq!(default_input(), "");
}

#[test]
fn empty_input_processes_nothing() {
    let (results, stats) = process_text(true, "");
    assert_eq!(results.len(), 0);
    assert_eq!(stats.processed_count, 0);
    assert!(stats.verbose);
}

#[test]
fn default_input_yields_zero_count() {
    let input = default_input();
    let (results, stats) = process_text(false, &input);
    assert_eq!(results.len(), 0);
    assert_eq!(stats.processed_count, 0);
}

#[test]
fn three_lines_yield_three_records_in_order() {
    let (results, stats) = process_text(false, "alpha\nbeta\ngamma\n");
    assert_eq!(results.len(), 3);
    for (i, r) in results.iter().enumerate() {
        assert!(r.success);
        assert_eq!(r.message, format!("Successfully processed item #{}", i + 1));
        let d = r.data.as_ref().expect("data is always present");
        assert_eq!(d.item_number, i + 1);
    }
    assert_eq!(results[0].data.as_ref().unwrap().length, 5);
    assert_eq!(results[1].data.as_ref().unwrap().length, 4);
    assert_eq!(results[2].data.as_ref().unwrap().length, 5);
    assert_eq!(stats.processed_count, 3);
    assert!(!stats.verbose);
}

#[test]
fn runner_verbose_flag_reaches_the_stats() {
    let (_, stats) = process_text(true, "a\nb");
    assert!(stats.verbose);
    let (_, stats) = process_text(false, "a\nb");
    assert!(!stats.verbose);
}
