use crate::history::{History, HistoryState};
use crate::input::{Input, InputSnapshot, Key, Point};
use vstd::prelude::*;

verus! {

/// The mouse button that paints, and that drags the brush size with Alt.
pub const PRIMARY: usize = 1;

/// The mouse button that erases, and that clears the surface with Alt.
pub const SECONDARY: usize = 2;

/// The brush size of a fresh session.
pub const START_BRUSH_SIZE: i32 = 5;

/// A paint operation between two pointer positions of consecutive frames.
#[derive(Clone, Copy, Debug, PartialEq, Eq, Structural)]
pub struct Stroke {
    pub from: Point,
    pub to: Point,
    /// Paint fully transparent rather than in the foreground color.
    pub erase: bool,
}

/// What a frame asks of the graphics side, on the current surface.
#[derive(Clone, Copy, Debug, PartialEq, Eq, Structural)]
pub struct FrameOps {
    pub stroke: Option<Stroke>,
    pub clear: bool,
    /// Where the brush preview is drawn.
    pub cursor: Point,
}

pub open spec fn abs_int(v: int) -> int {
    if v < 0 {
        -v
    } else {
        v
    }
}

/// The brush size while dragging with Alt: the horizontal distance travelled
/// since the anchor, added to the size at the anchor, at least 1 and at most
/// the largest `i32`.
pub open spec fn dragged_brush(x: int, anchor_x: int, anchor_size: int) -> int {
    let m = abs_int(x + anchor_size - anchor_x);
    if m < 1 {
        1
    } else if m > i32::MAX {
        i32::MAX as int
    } else {
        m
    }
}

/// The undo and redo shortcuts applied to a history.
pub open spec fn shortcuts_applied<T>(h: HistoryState<T>, v: InputSnapshot) -> HistoryState<T> {
    let ctrl = v.key_held(Key::LControl);
    let h1 = if ctrl && v.key_pressed(Key::Z) {
        h.undone()
    } else {
        h
    };
    if ctrl && v.key_pressed(Key::Y) {
        h1.redone()
    } else {
        h1
    }
}

pub open spec fn stroke_held(v: InputSnapshot) -> bool {
    v.button_held(PRIMARY as int) || v.button_held(SECONDARY as int)
}

/// A stroke begins on a newly pressed paint or erase button without Alt, or,
/// before the first click since editing was switched on, on one that is
/// merely held.
pub open spec fn starts_stroke(v: InputSnapshot, first_click: bool) -> bool {
    &&& !v.key_held(Key::LAlt)
    &&& v.button_pressed(PRIMARY as int) || v.button_pressed(SECONDARY as int) || (!first_click
        && stroke_held(v))
}

/// A brush resize begins on the primary button with Alt, on the same terms.
pub open spec fn starts_resize(v: InputSnapshot, first_click: bool) -> bool {
    &&& v.key_held(Key::LAlt)
    &&& v.button_pressed(PRIMARY as int) || (!first_click && v.button_held(PRIMARY as int))
}

/// With Alt held, Ctrl not held and the secondary button newly pressed, a
/// frame off the user interface starts no stroke and leaves the history as it
/// was: the surface is cleared in place, with no new entry.
pub proof fn lemma_alt_secondary_clears<T>(h: HistoryState<T>, v: InputSnapshot, first_click: bool)
    requires
        v.key_held(Key::LAlt),
        !v.key_held(Key::LControl),
        v.button_pressed(SECONDARY as int),
    ensures
        !starts_stroke(v, first_click),
        shortcuts_applied(h, v) == h,
{
}

/// The per-session state of the paint tool: its history, its brush, and the
/// anchor of a brush resize in progress.
pub struct Session<T> {
    pub history: History<T>,
    pub brush_size: i32,
    /// Set once the first press since editing was switched on has been handled.
    pub first_click: bool,
    pub anchor_cursor: Point,
    pub anchor_brush_size: i32,
}

impl<T: Clone> Session<T> {
    pub open spec fn wf(&self) -> bool {
        &&& self.history.wf()
        &&& self.history.state().stack.len() > 0
        &&& self.brush_size >= 1
    }

    /// A session whose history holds `seed` alone.
    pub fn new(seed: T) -> (r: Self)
        ensures
            r.wf(),
            r.history.state().stack == seq![seed],
            r.history.state().undos == 0,
            r.history.capacity() == 10,
            r.brush_size == START_BRUSH_SIZE,
            r.anchor_brush_size == START_BRUSH_SIZE,
            r.anchor_cursor == (Point { x: 0, y: 0 }),
            !r.first_click,
    {
        let mut history = History::new();
        history.push_back(seed);
        assert(history.state().stack =~= seq![seed]);
        Session {
            history,
            brush_size: START_BRUSH_SIZE,
            first_click: false,
            anchor_cursor: Point { x: 0, y: 0 },
            anchor_brush_size: START_BRUSH_SIZE,
        }
    }

    /// Editing starts again: the next held button counts as a first press.
    pub fn begin_editing(&mut self)
        ensures
            !final(self).first_click,
            final(self).history == old(self).history,
            final(self).brush_size == old(self).brush_size,
            final(self).anchor_cursor == old(self).anchor_cursor,
            final(self).anchor_brush_size == old(self).anchor_brush_size,
    {
        self.first_click = false;
    }

    /// Runs the gestures of one frame over the tracked input. `hovered` is
    /// whether the pointer is over a control of the user interface; the undo
    /// and redo shortcuts apply even then, the canvas gestures do not.
    pub fn update(&mut self, input: &Input, hovered: bool) -> (r: FrameOps)
        requires
            old(self).wf(),
        ensures
            final(self).wf(),
            final(self).history.capacity() == old(self).history.capacity(),
            ({
                let v = input@;
                let h = shortcuts_applied(old(self).history.state(), v);
                let alt = v.key_held(Key::LAlt);
                let stroke = !hovered && starts_stroke(v, old(self).first_click);
                let resize = !hovered && starts_resize(v, old(self).first_click);
                let dragging = !hovered && alt && v.button_held(PRIMARY as int);
                let anchor = if resize {
                    v.cursor
                } else {
                    old(self).anchor_cursor
                };
                let anchor_size = if resize {
                    old(self).brush_size
                } else {
                    old(self).anchor_brush_size
                };
                let fin = final(self).history.state();
                &&& stroke ==> {
                    let d = h.tail_discarded();
                    &&& fin == d.pushed(old(self).history.capacity(), fin.stack.last())
                    &&& cloned(d.current(), fin.stack.last())
                }
                &&& !stroke ==> fin == h
                &&& final(self).first_click == (old(self).first_click || stroke || resize)
                &&& final(self).anchor_cursor == anchor
                &&& final(self).anchor_brush_size == anchor_size
                &&& final(self).brush_size == if dragging {
                    dragged_brush(v.cursor.x as int, anchor.x as int, anchor_size as int) as i32
                } else {
                    old(self).brush_size
                }
                &&& r.stroke == if !hovered && !alt && !stroke && stroke_held(v) {
                    Some(
                        Stroke {
                            from: v.prev_cursor,
                            to: v.cursor,
                            erase: v.button_held(SECONDARY as int),
                        },
                    )
                } else {
                    None
                }
                &&& r.clear == (!hovered && alt && v.button_pressed(SECONDARY as int))
                &&& r.cursor == if dragging {
                    anchor
                } else {
                    v.cursor
                }
            }),
    {
        let ctrl = input.get_key(Key::LControl);
        if ctrl && input.get_key_down(Key::Z) {
            self.history.undo();
        }
        if ctrl && input.get_key_down(Key::Y) {
            self.history.redo();
        }
        let cursor = input.get_cursor_pos();
        let mut ops = FrameOps { stroke: None, clear: false, cursor };
        if hovered {
            return ops;
        }
        let alt = input.get_key(Key::LAlt);
        let held_primary = input.get_button(PRIMARY);
        let held_secondary = input.get_button(SECONDARY);
        let pressed_primary = input.get_button_down(PRIMARY);
        let pressed_secondary = input.get_button_down(SECONDARY);
        if !alt {
            if pressed_primary || pressed_secondary || (!self.first_click && (held_primary
                || held_secondary)) {
                self.history.pop_undos();
                let copy = self.history.get_current().clone();
                self.history.push_back(copy);
                self.first_click = true;
            } else if held_primary || held_secondary {
                ops.stroke = Some(
                    Stroke { from: input.get_prev_cursor_pos(), to: cursor, erase: held_secondary },
                );
            }
        } else {
            if pressed_primary || (!self.first_click && held_primary) {
                self.anchor_cursor = cursor;
                self.anchor_brush_size = self.brush_size;
                self.first_click = true;
            }
            if held_primary {
                self.brush_size = resized_brush_size(
                    cursor.x,
                    self.anchor_cursor.x,
                    self.anchor_brush_size,
                );
                ops.cursor = self.anchor_cursor;
            }
            ops.clear = pressed_secondary;
        }
        ops
    }
}

/// Whether this frame toggles editing: Ctrl and Alt held while A goes down.
pub fn edit_toggle_pressed(input: &Input) -> (r: bool)
    ensures
        r == (input@.key_held(Key::LControl) && input@.key_held(Key::LAlt) && input@.key_pressed(
            Key::A,
        )),
{
    input.get_key(Key::LControl) && input.get_key(Key::LAlt) && input.get_key_down(Key::A)
}

/// Whether the user interface keeps the pointer from the canvas: it does
/// while the pointer is over one of its controls, unless the erase button
/// is held.
pub fn ui_captures_pointer(over_control: bool, input: &Input) -> (r: bool)
    ensures
        r == (over_control && !input@.button_held(SECONDARY as int)),
{
    over_control && !input.get_button(SECONDARY)
}

/// The side of the square block of pixels that a dispatch of the paint
/// kernel covers.
pub const PAINT_BLOCK: u32 = 10;

/// The extent that a stroke touches along one axis: the distance travelled
/// plus the brush on both ends, within the surface.
pub open spec fn stroke_extent(from: int, to: int, brush: int, limit: int) -> int {
    let e = abs_int(to - from) + 2 * brush;
    if e < 0 {
        0
    } else if e > limit {
        limit
    } else {
        e
    }
}

pub open spec fn blocks_for(extent: int) -> int {
    (extent + PAINT_BLOCK - 1) / PAINT_BLOCK as int
}

/// How many blocks of the paint kernel a stroke needs along each axis, on a
/// surface of `width` by `height` pixels.
pub fn paint_dispatch_size(stroke: &Stroke, brush_size: i32, width: u32, height: u32) -> (r: (
    u32,
    u32,
))
    ensures
        r.0 == blocks_for(
            stroke_extent(stroke.from.x as int, stroke.to.x as int, brush_size as int, width as int),
        ),
        r.1 == blocks_for(
            stroke_extent(stroke.from.y as int, stroke.to.y as int, brush_size as int, height as int),
        ),
{
    (
        blocks_along(stroke.from.x, stroke.to.x, brush_size, width),
        blocks_along(stroke.from.y, stroke.to.y, brush_size, height),
    )
}

fn blocks_along(from: i32, to: i32, brush: i32, limit: u32) -> (r: u32)
    ensures
        r == blocks_for(stroke_extent(from as int, to as int, brush as int, limit as int)),
{
    let d: i64 = to as i64 - from as i64;
    let e: i64 = if d < 0 {
        -d
    } else {
        d
    } + 2 * brush as i64;
    let clamped: u64 = if e < 0 {
        0
    } else if e > limit as i64 {
        limit as u64
    } else {
        e as u64
    };
    ((clamped + (PAINT_BLOCK as u64 - 1)) / PAINT_BLOCK as u64) as u32
}

/// The brush size after dragging from `anchor_x`, where the size was
/// `anchor_size`, to `x`.
pub fn resized_brush_size(x: i32, anchor_x: i32, anchor_size: i32) -> (r: i32)
    ensures
        r == dragged_brush(x as int, anchor_x as int, anchor_size as int),
        r >= 1,
{
    let d: i64 = x as i64 + anchor_size as i64 - anchor_x as i64;
    let m: i64 = if d < 0 {
        -d
    } else {
        d
    };
    if m < 1 {
        1
    } else if m > i32::MAX as i64 {
        i32::MAX
    } else {
        m as i32
    }
}

} // verus!
