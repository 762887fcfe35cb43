use vstd::prelude::*;

verus! {

/// A keyboard key, as far as the gestures tell keys apart. Any other key is
/// carried by its device code.
#[derive(Clone, Copy, Debug, PartialEq, Eq, Structural)]
pub enum Key {
    LControl,
    LAlt,
    A,
    Y,
    Z,
    Other(u32),
}

/// A pointer position in window-local pixels.
#[derive(Clone, Copy, Debug, PartialEq, Eq, Structural)]
pub struct Point {
    pub x: i32,
    pub y: i32,
}

/// What the tracker holds: the keys and mouse buttons down in this frame and
/// in the one before, and the last two cursor positions.
pub struct InputSnapshot {
    pub keys: Seq<Key>,
    pub prev_keys: Seq<Key>,
    pub buttons: Seq<bool>,
    pub prev_buttons: Seq<bool>,
    pub cursor: Point,
    pub prev_cursor: Point,
}

/// Button `b` in a device report; an index that the report lacks is up.
pub open spec fn button_in(report: Seq<bool>, b: int) -> bool {
    0 <= b < report.len() && report[b]
}

impl InputSnapshot {
    pub open spec fn key_held(self, k: Key) -> bool {
        self.keys.contains(k)
    }

    pub open spec fn key_pressed(self, k: Key) -> bool {
        self.keys.contains(k) && !self.prev_keys.contains(k)
    }

    pub open spec fn key_released(self, k: Key) -> bool {
        !self.keys.contains(k) && self.prev_keys.contains(k)
    }

    pub open spec fn button_held(self, b: int) -> bool {
        button_in(self.buttons, b)
    }

    pub open spec fn button_pressed(self, b: int) -> bool {
        button_in(self.buttons, b) && !button_in(self.prev_buttons, b)
    }

    pub open spec fn button_released(self, b: int) -> bool {
        !button_in(self.buttons, b) && button_in(self.prev_buttons, b)
    }
}

fn holds_key(keys: &Vec<Key>, key: Key) -> (r: bool)
    ensures
        r == keys@.contains(key),
{
    let mut i: usize = 0;
    while i < keys.len()
        invariant
            i <= keys.len(),
            forall|j: int| 0 <= j < i ==> keys@[j] != key,
        decreases keys.len() - i,
    {
        if keys[i] == key {
            assert(keys@[i as int] == key);
            return true;
        }
        i = i + 1;
    }
    assert(!keys@.contains(key)) by {
        assert(forall|j: int| 0 <= j < keys@.len() ==> keys@[j] != key);
    }
    false
}

fn reads_button(report: &Vec<bool>, button: usize) -> (r: bool)
    ensures
        r == button_in(report@, button as int),
{
    if button < report.len() {
        report[button]
    } else {
        false
    }
}

/// Edge-triggered view of a polled keyboard and mouse.
pub struct Input {
    keys: Vec<Key>,
    prev_keys: Vec<Key>,
    buttons: Vec<bool>,
    prev_buttons: Vec<bool>,
    prev_rel_cursor_pos: Point,
    rel_cursor_pos: Point,
}

impl View for Input {
    type V = InputSnapshot;

    closed spec fn view(&self) -> InputSnapshot {
        InputSnapshot {
            keys: self.keys@,
            prev_keys: self.prev_keys@,
            buttons: self.buttons@,
            prev_buttons: self.prev_buttons@,
            cursor: self.rel_cursor_pos,
            prev_cursor: self.prev_rel_cursor_pos,
        }
    }
}

impl Input {
    /// A tracker that has seen nothing down, with the cursor at the origin.
    pub fn new() -> (r: Input)
        ensures
            r@.keys.len() == 0,
            r@.prev_keys.len() == 0,
            r@.buttons.len() == 0,
            r@.prev_buttons.len() == 0,
            r@.cursor == (Point { x: 0, y: 0 }),
            r@.prev_cursor == (Point { x: 0, y: 0 }),
    {
        Input {
            keys: Vec::new(),
            prev_keys: Vec::new(),
            buttons: Vec::new(),
            prev_buttons: Vec::new(),
            prev_rel_cursor_pos: Point { x: 0, y: 0 },
            rel_cursor_pos: Point { x: 0, y: 0 },
        }
    }

    /// Takes one frame's device report: the keys down, and the state of
    /// each mouse button by its index. What was current becomes previous.
    pub fn poll(&mut self, keys: Vec<Key>, buttons: Vec<bool>)
        ensures
            final(self)@.keys == keys@,
            final(self)@.buttons == buttons@,
            final(self)@.prev_keys == old(self)@.keys,
            final(self)@.prev_buttons == old(self)@.buttons,
            final(self)@.cursor == old(self)@.cursor,
            final(self)@.prev_cursor == old(self)@.prev_cursor,
    {
        std::mem::swap(&mut self.prev_keys, &mut self.keys);
        self.keys = keys;
        std::mem::swap(&mut self.prev_buttons, &mut self.buttons);
        self.buttons = buttons;
    }

    /// Whether `key` is down in this frame.
    pub fn get_key(&self, key: Key) -> (r: bool)
        ensures
            r == self@.key_held(key),
    {
        holds_key(&self.keys, key)
    }

    /// Whether `key` went down in this frame.
    pub fn get_key_down(&self, key: Key) -> (r: bool)
        ensures
            r == self@.key_pressed(key),
    {
        holds_key(&self.keys, key) && !holds_key(&self.prev_keys, key)
    }

    /// Whether `key` went up in this frame.
    pub fn get_key_up(&self, key: Key) -> (r: bool)
        ensures
            r == self@.key_released(key),
    {
        !holds_key(&self.keys, key) && holds_key(&self.prev_keys, key)
    }

    /// Whether mouse button `button` is down in this frame.
    pub fn get_button(&self, button: usize) -> (r: bool)
        ensures
            r == self@.button_held(button as int),
    {
        reads_button(&self.buttons, button)
    }

    /// Whether mouse button `button` went down in this frame.
    pub fn get_button_down(&self, button: usize) -> (r: bool)
        ensures
            r == self@.button_pressed(button as int),
    {
        reads_button(&self.buttons, button) && !reads_button(&self.prev_buttons, button)
    }

    /// Whether mouse button `button` went up in this frame.
    pub fn get_button_up(&self, button: usize) -> (r: bool)
        ensures
            r == self@.button_released(button as int),
    {
        !reads_button(&self.buttons, button) && reads_button(&self.prev_buttons, button)
    }

    /// Records the pointer position of this frame; the last one becomes the
    /// previous position.
    pub fn set_cursor_pos(&mut self, pos: Point)
        ensures
            final(self)@.cursor == pos,
            final(self)@.prev_cursor == old(self)@.cursor,
            final(self)@.keys == old(self)@.keys,
            final(self)@.prev_keys == old(self)@.prev_keys,
            final(self)@.buttons == old(self)@.buttons,
            final(self)@.prev_buttons == old(self)@.prev_buttons,
    {
        self.prev_rel_cursor_pos = self.rel_cursor_pos;
        self.rel_cursor_pos = pos;
    }

    pub fn get_cursor_pos(&self) -> (r: Point)
        ensures
            r == self@.cursor,
    {
        self.rel_cursor_pos
    }

    pub fn get_prev_cursor_pos(&self) -> (r: Point)
        ensures
            r == self@.prev_cursor,
    {
        self.prev_rel_cursor_pos
    }
}

} // verus!
