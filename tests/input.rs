use overdraw::input::{Input, Key, Point};

#[test]
fn key_just_pressed_and_released() {
    let mut input = Input::new();
    input.poll(vec![], vec![]);
    input.poll(vec![Key::A], vec![]);
    assert!(input.get_key_down(Key::A));
    assert!(!input.get_key_down(Key::Other(1)));
    assert!(input.get_key(Key::A));
    assert!(!input.get_key_up(Key::A));
    input.poll(vec![], vec![]);
    assert!(input.get_key_up(Key::A));
    assert!(!input.get_key_down(Key::A));
    assert!(!input.get_key(Key::A));
}

#[test]
fn held_key_is_not_pressed_again() {
    let mut input = Input::new();
    input.poll(vec![Key::Z], vec![]);
    input.poll(vec![Key::Z, Key::LControl], vec![]);
    assert!(input.get_key(Key::Z));
    assert!(!input.get_key_down(Key::Z));
    assert!(input.get_key_down(Key::LControl));
}

#[test]
fn button_edges() {
    let mut input = Input::new();
    input.poll(vec![], vec![false, true, false]);
    assert!(input.get_button(1));
    assert!(input.get_button_down(1));
    assert!(!input.get_button(2));
    input.poll(vec![], vec![false, true, false]);
    assert!(!input.get_button_down(1));
    input.poll(vec![], vec![false, false, false]);
    assert!(input.get_button_up(1));
}

#[test]
fn missing_button_index_is_up() {
    let mut input = Input::new();
    assert!(!input.get_button(1));
    assert!(!input.get_button_down(4));
    assert!(!input.get_button_up(4));
    input.poll(vec![], vec![false, true]);
    input.poll(vec![], vec![]);
    assert!(!input.get_button(1));
    assert!(input.get_button_up(1));
    assert!(!input.get_button(7));
}

#[test]
fn cursor_positions_shift() {
    let mut input = Input::new();
    assert_eq!(input.get_cursor_pos(), Point { x: 0, y: 0 });
    input.set_cursor_pos(Point { x: 3, y: 4 });
    input.set_cursor_pos(Point { x: 7, y: -2 });
    assert_eq!(input.get_cursor_pos(), Point { x: 7, y: -2 });
    assert_eq!(input.get_prev_cursor_pos(), Point { x: 3, y: 4 });
}
