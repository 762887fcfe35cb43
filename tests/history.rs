use overdraw::history::History;

fn history_of(cap: i32, items: &[u32]) -> History<u32> {
    let mut h = History::new();
    h.set_capacity(cap);
    for &i in items {
        h.push_back(i);
    }
    h
}

#[test]
fn new_history_is_empty_with_ten_steps() {
    let h: History<u32> = History::new();
    assert_eq!(h.stack.len(), 0);
    assert_eq!(h.max_undos, 10);
    assert_eq!(h.redo_count(), 0);
}

#[test]
fn capacity_three_keeps_four_of_five_pushes() {
    let h = history_of(3, &[1, 2, 3, 4, 5]);
    assert_eq!(h.stack.len(), 4);
    assert_eq!(h.stack.iter().copied().collect::<Vec<u32>>(), vec![2, 3, 4, 5]);
    assert_eq!(*h.get_current(), 5);
}

#[test]
fn push_resets_redo_count() {
    let mut h = history_of(10, &[1, 2, 3]);
    h.undo();
    assert_eq!(h.redo_count(), 1);
    h.push_back(9);
    assert_eq!(h.redo_count(), 0);
    h.redo();
    assert_eq!(*h.get_current(), 9);
    assert_eq!(h.redo_count(), 0);
}

#[test]
fn undo_clamps_at_oldest_entry() {
    let mut h = history_of(10, &[1, 2, 3]);
    h.undo();
    h.undo();
    assert_eq!(*h.get_current(), 1);
    h.undo();
    assert_eq!(h.redo_count(), 2);
    assert_eq!(*h.get_current(), 1);
}

#[test]
fn undo_on_empty_history_does_nothing() {
    let mut h: History<u32> = History::new();
    h.undo();
    assert_eq!(h.redo_count(), 0);
}

#[test]
fn redo_clamps_at_tip() {
    let mut h = history_of(10, &[1, 2]);
    h.redo();
    assert_eq!(h.redo_count(), 0);
    h.undo();
    assert_eq!(*h.get_current(), 1);
    h.redo();
    assert_eq!(*h.get_current(), 2);
}

#[test]
fn discard_after_two_undos_drops_two_entries() {
    let mut h = history_of(10, &[1, 2, 3, 4]);
    h.undo();
    h.undo();
    let before = *h.get_current();
    h.pop_undos();
    assert_eq!(h.stack.len(), 2);
    assert_eq!(h.redo_count(), 0);
    assert_eq!(*h.get_current(), before);
    assert_eq!(*h.get_current(), 2);
}

#[test]
fn lowered_capacity_trims_only_one_per_push() {
    let mut h = history_of(10, &[1, 2, 3, 4, 5]);
    h.set_capacity(1);
    h.push_back(6);
    assert_eq!(h.stack.iter().copied().collect::<Vec<u32>>(), vec![2, 3, 4, 5, 6]);
}

#[test]
fn zero_capacity_keeps_only_current() {
    let h = history_of(0, &[1, 2, 3]);
    assert_eq!(h.stack.len(), 1);
    assert_eq!(*h.get_current(), 3);
}

#[test]
fn pop_back_keeps_undone_count_while_it_fits() {
    let mut h = history_of(10, &[1, 2, 3, 4]);
    h.undo();
    h.pop_back();
    assert_eq!(h.stack.iter().copied().collect::<Vec<u32>>(), vec![1, 2, 3]);
    assert_eq!(h.redo_count(), 1);
    assert_eq!(*h.get_current(), 2);
}

#[test]
fn pop_back_clamps_undone_count_to_new_length() {
    let mut h = history_of(10, &[1, 2, 3]);
    h.undo();
    h.undo();
    h.pop_back();
    assert_eq!(h.stack.len(), 2);
    assert_eq!(h.redo_count(), 1);
    assert_eq!(*h.get_current(), 1);
    h.pop_back();
    h.pop_back();
    assert_eq!(h.stack.len(), 0);
    assert_eq!(h.redo_count(), 0);
}

#[test]
fn set_capacity_keeps_entries() {
    let mut h = history_of(10, &[1, 2, 3, 4]);
    h.undo();
    h.set_capacity(3);
    assert_eq!(h.max_undos, 3);
    assert_eq!(h.stack.len(), 4);
    assert_eq!(h.redo_count(), 1);
}

#[test]
fn pop_front_removes_oldest() {
    let mut h = history_of(10, &[1, 2, 3]);
    h.undo();
    h.undo();
    h.pop_front();
    assert_eq!(h.stack.iter().copied().collect::<Vec<u32>>(), vec![2, 3]);
    assert_eq!(h.redo_count(), 1);
    assert_eq!(*h.get_current(), 2);
}

#[test]
fn bounds_hold_over_a_mixed_sequence() {
    let mut h = history_of(2, &[0]);
    for i in 1..40u32 {
        match i % 4 {
            0 => h.push_back(i),
            1 => h.undo(),
            2 => h.redo(),
            _ => h.pop_undos(),
        }
        if i % 3 == 0 {
            h.push_back(i + 100);
        }
        assert!(h.stack.len() >= 1 && h.stack.len() <= 3);
        assert!(h.redo_count() < h.stack.len());
    }
}
