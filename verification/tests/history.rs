use desk_tools::history::ClipboardHistory;

fn pushed<const N: usize>(items: &[&str]) -> ClipboardHistory<N> {
    let mut history: ClipboardHistory<N> = ClipboardHistory::new();
    for item in items {
        history.push(item.to_string());
    }
    history
}

fn strings(items: &[&str]) -> Vec<String> {
    items.iter().map(|item| item.to_string()).collect()
}

#[test]
fn test_clipboard_history_size_is_fixed() {
    let mut history: ClipboardHistory<5> = ClipboardHistory::new();
    assert!(!history.is_full());
    assert_eq!(history.len(), 5);

    history.push("a".to_string());
    history.push("b".to_string());
    history.push("c".to_string());
    history.push("d".to_string());
    history.push("e".to_string());

    assert!(history.is_full());
    assert_eq!(history.len(), 5);

    history.push("f".to_string());

    assert!(history.is_full());
    assert_eq!(history.len(), 5);
}

#[test]
fn new_history_is_empty() {
    let history: ClipboardHistory<3> = ClipboardHistory::new();
    assert_eq!(history.occupancy(), 0);
    assert!(history.items().is_empty());
    assert!(!history.is_full());
}

#[test]
fn capacity_does_not_depend_on_occupancy() {
    let mut history: ClipboardHistory<4> = ClipboardHistory::new();
    assert_eq!(history.len(), 4);
    assert_eq!(history.capacity(), 4);
    history.push("one".to_string());
    assert_eq!(history.len(), 4);
    assert_eq!(history.capacity(), 4);
    for n in 0..10 {
        history.push(format!("item {}", n));
    }
    assert_eq!(history.len(), 4);
    assert_eq!(history.capacity(), 4);
}

#[test]
fn fewer_pushes_than_capacity_leave_room() {
    let history = pushed::<4>(&["a", "b", "c"]);
    assert!(!history.is_full());
    assert_eq!(history.occupancy(), 3);
    assert_eq!(history.items(), strings(&["a", "b", "c"]));
}

#[test]
fn occupancy_counts_each_push_while_filling() {
    let mut history: ClipboardHistory<6> = ClipboardHistory::new();
    for n in 0..5usize {
        assert_eq!(history.occupancy(), n);
        assert!(!history.is_full());
        history.push(n.to_string());
    }
    assert_eq!(history.occupancy(), 5);
    assert!(!history.is_full());
}

#[test]
fn exactly_capacity_pushes_fill_the_buffer() {
    let history = pushed::<3>(&["a", "b", "c"]);
    assert!(history.is_full());
    assert_eq!(history.occupancy(), 3);
    assert_eq!(history.items(), strings(&["a", "b", "c"]));
}

#[test]
fn one_push_past_capacity_evicts_the_oldest() {
    let history = pushed::<3>(&["a", "b", "c", "d"]);
    assert!(history.is_full());
    assert_eq!(history.occupancy(), 3);
    assert_eq!(history.items(), strings(&["b", "c", "d"]));
}

#[test]
fn three_items_into_capacity_two() {
    let history = pushed::<2>(&["a", "b", "c"]);
    assert_eq!(history.items(), strings(&["b", "c"]));
}

#[test]
fn full_buffer_stays_full() {
    let mut history = pushed::<2>(&["a", "b"]);
    for n in 0..20 {
        assert!(history.is_full());
        assert_eq!(history.occupancy(), 2);
        history.push(n.to_string());
    }
    assert!(history.is_full());
    assert_eq!(history.items(), strings(&["18", "19"]));
}

#[test]
fn capacity_one_keeps_only_the_newest() {
    let mut history: ClipboardHistory<1> = ClipboardHistory::new();
    assert!(!history.is_full());
    history.push("first".to_string());
    assert!(history.is_full());
    assert_eq!(history.items(), strings(&["first"]));
    history.push("second".to_string());
    assert!(history.is_full());
    assert_eq!(history.occupancy(), 1);
    assert_eq!(history.items(), strings(&["second"]));
}

#[test]
fn equal_items_are_kept_apart() {
    let history = pushed::<3>(&["same", "same", "other", "same"]);
    assert_eq!(history.items(), strings(&["same", "other", "same"]));
}

#[test]
fn items_are_not_altered() {
    let history = pushed::<2>(&["  padded \n", ""]);
    assert_eq!(history.items(), strings(&["  padded \n", ""]));
}

#[test]
fn items_leaves_the_history_as_it_was() {
    let history = pushed::<3>(&["a", "b"]);
    let first = history.items();
    let second = history.items();
    assert_eq!(first, second);
    assert_eq!(history.occupancy(), 2);
}

#[test]
fn try_new_rejects_zero_capacity() {
    assert!(ClipboardHistory::<0>::try_new().is_none());
}

#[test]
fn try_new_accepts_positive_capacity() {
    let made = ClipboardHistory::<7>::try_new();
    assert!(made.is_some());
    let history = made.unwrap();
    assert_eq!(history.capacity(), 7);
    assert_eq!(history.occupancy(), 0);
    assert!(!history.is_full());
}
