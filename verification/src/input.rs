//! Normalized input snapshot and its effect on the global uniform block.
//!
//! The windowing collaborator delivers keyboard, cursor and mouse-button
//! events; they are reduced here to boolean key flags plus a mouse position
//! mapped into `[-1, 1]` on each axis with the vertical axis inverted
//! relative to raw pixel coordinates. The normalized position is kept in
//! thousandths so the mapping is exact.

use crate::uniform::Uniform;
use vstd::prelude::*;

verus! {

broadcast use vstd::array::group_array_axioms;

/// The keys the renderer reacts to; anything else is `Other`.
#[derive(Clone, Copy, PartialEq, Eq, Structural)]
pub enum KeyId {
    ArrowUp,
    ArrowDown,
    ArrowLeft,
    ArrowRight,
    Slash,
    ShiftRight,
    Enter,
    Space,
    Other,
}

/// A window event reduced to what the input snapshot consumes. Cursor
/// positions are window pixels with the origin at the top-left corner.
#[derive(Clone, Copy, PartialEq, Eq, Structural)]
pub enum InputEvent {
    Key { key: KeyId, pressed: bool },
    CursorMoved { x: u32, y: u32 },
    MouseLeft { pressed: bool },
    Other,
}

/// Boolean flags for the tracked keys and primary mouse button, plus the
/// normalized mouse position in thousandths of `[-1, 1]` per axis.
pub struct Input {
    pub up_pressed: bool,
    pub down_pressed: bool,
    pub right_pressed: bool,
    pub left_pressed: bool,
    pub slash_pressed: bool,
    pub right_shift_pressed: bool,
    pub enter_pressed: bool,
    pub space_pressed: bool,
    pub left_mouse_pressed: bool,
    pub mouse_position: [i32; 2],
}

/// Horizontal pixel position mapped to thousandths of `[-1, 1]`.
pub open spec fn spec_norm_x(x: int, width: int) -> int
    recommends
        width > 0,
{
    2000 * x / width - 1000
}

/// Vertical pixel position mapped to thousandths of `[-1, 1]`, inverted so
/// that the axis points up.
pub open spec fn spec_norm_y(y: int, height: int) -> int
    recommends
        height > 0,
{
    1000 - 2000 * y / height
}

/// An input snapshot after a key flag changed.
pub open spec fn spec_key_update(s: Input, key: KeyId, pressed: bool) -> Input {
    match key {
        KeyId::ArrowUp => Input { up_pressed: pressed, ..s },
        KeyId::ArrowDown => Input { down_pressed: pressed, ..s },
        KeyId::ArrowLeft => Input { left_pressed: pressed, ..s },
        KeyId::ArrowRight => Input { right_pressed: pressed, ..s },
        KeyId::Slash => Input { slash_pressed: pressed, ..s },
        KeyId::ShiftRight => Input { right_shift_pressed: pressed, ..s },
        KeyId::Enter => Input { enter_pressed: pressed, ..s },
        KeyId::Space => Input { space_pressed: pressed, ..s },
        KeyId::Other => s,
    }
}

/// Maps a cursor position inside a window of the given size to thousandths
/// of `[-1, 1]` per axis, vertical axis inverted.
pub fn normalize_mouse(x: u32, y: u32, width: u32, height: u32) -> (m: [i32; 2])
    requires
        width > 0,
        height > 0,
        x <= width,
        y <= height,
    ensures
        m[0] == spec_norm_x(x as int, width as int),
        m[1] == spec_norm_y(y as int, height as int),
        -1000 <= m[0] <= 1000,
        -1000 <= m[1] <= 1000,
{
    proof {
        lemma_scaled_div_bounded(x as int, width as int);
        lemma_scaled_div_bounded(y as int, height as int);
    }
    let nx: u64 = 2000u64 * (x as u64) / (width as u64);
    let ny: u64 = 2000u64 * (y as u64) / (height as u64);
    [((nx as i64) - 1000) as i32, (1000 - (ny as i64)) as i32]
}

/// `2000 * v / span` stays within `[0, 2000]` whenever `0 <= v <= span`.
proof fn lemma_scaled_div_bounded(v: int, span: int)
    requires
        span > 0,
        0 <= v <= span,
    ensures
        0 <= 2000 * v / span <= 2000,
{
    assert(2000 * v >= 0) by (nonlinear_arith)
        requires
            v >= 0,
    ;
    assert(2000 * v <= 2000 * span) by (nonlinear_arith)
        requires
            v <= span && span > 0,
    ;
    vstd::arithmetic::div_mod::lemma_div_is_ordered(0, 2000 * v, span);
    vstd::arithmetic::div_mod::lemma_div_is_ordered(2000 * v, 2000 * span, span);
    vstd::arithmetic::div_mod::lemma_div_multiples_vanish(2000, span);
}

/// Contribution of one held directional key: one step while held.
pub open spec fn dir_step(pressed: bool) -> int {
    if pressed {
        1
    } else {
        0
    }
}

impl Input {
    /// A fresh snapshot: nothing pressed, mouse at the center.
    pub fn new() -> (s: Self)
        ensures
            s == spec_input_zero(),
    {
        Input {
            up_pressed: false,
            down_pressed: false,
            right_pressed: false,
            left_pressed: false,
            slash_pressed: false,
            right_shift_pressed: false,
            enter_pressed: false,
            space_pressed: false,
            left_mouse_pressed: false,
            mouse_position: [0, 0],
        }
    }

    /// Folds one window event into the snapshot. Key events flip exactly the
    /// flag of their key; a cursor move renormalizes the mouse position
    /// against the current window size; a primary-button event sets the
    /// pressed flag. The result is `false` exactly for an untracked key.
    pub fn update(&mut self, event: &InputEvent, width: u32, height: u32) -> (handled: bool)
        requires
            *event matches InputEvent::CursorMoved { x, y } ==> width > 0 && height > 0 && x
                <= width && y <= height,
        ensures
            match *event {
                InputEvent::Key { key, pressed } => *final(self) == spec_key_update(
                    *old(self),
                    key,
                    pressed,
                ) && handled == (key != KeyId::Other),
                InputEvent::CursorMoved { x, y } => handled && *final(self) == Input {
                    mouse_position: [
                        spec_norm_x(x as int, width as int) as i32,
                        spec_norm_y(y as int, height as int) as i32,
                    ],
                    ..*old(self)
                },
                InputEvent::MouseLeft { pressed } => handled && *final(self) == Input {
                    left_mouse_pressed: pressed,
                    ..*old(self)
                },
                InputEvent::Other => handled && *final(self) == *old(self),
            },
    {
        match *event {
            InputEvent::Key { key, pressed } => {
                match key {
                    KeyId::ArrowUp => {
                        self.up_pressed = pressed;
                    },
                    KeyId::ArrowDown => {
                        self.down_pressed = pressed;
                    },
                    KeyId::ArrowLeft => {
                        self.left_pressed = pressed;
                    },
                    KeyId::ArrowRight => {
                        self.right_pressed = pressed;
                    },
                    KeyId::Slash => {
                        self.slash_pressed = pressed;
                    },
                    KeyId::ShiftRight => {
                        self.right_shift_pressed = pressed;
                    },
                    KeyId::Enter => {
                        self.enter_pressed = pressed;
                    },
                    KeyId::Space => {
                        self.space_pressed = pressed;
                    },
                    KeyId::Other => {
                        return false;
                    },
                }
                true
            },
            InputEvent::CursorMoved { x, y } => {
                self.mouse_position = normalize_mouse(x, y, width, height);
                proof {
                    assert(self.mouse_position =~= [
                        spec_norm_x(x as int, width as int) as i32,
                        spec_norm_y(y as int, height as int) as i32,
                    ]);
                }
                true
            },
            InputEvent::MouseLeft { pressed } => {
                self.left_mouse_pressed = pressed;
                true
            },
            InputEvent::Other => true,
        }
    }

    /// Applies the held directional keys to the uniform block's position
    /// offset, one step per axis per call, and copies the mouse state into
    /// the block. Timing, frame and resolution fields are untouched.
    pub fn process_position(&self, uniform: &mut Uniform)
        requires
            i64::MIN < old(uniform).pos[0] < i64::MAX,
            i64::MIN < old(uniform).pos[1] < i64::MAX,
            i64::MIN < old(uniform).pos[2] < i64::MAX,
        ensures
            final(uniform).pos[0] == old(uniform).pos[0] + dir_step(self.right_pressed) - dir_step(
                self.left_pressed,
            ),
            final(uniform).pos[1] == old(uniform).pos[1] + dir_step(self.up_pressed) - dir_step(
                self.down_pressed,
            ),
            final(uniform).pos[2] == old(uniform).pos[2] + dir_step(
                self.right_shift_pressed,
            ) - dir_step(self.slash_pressed),
            final(uniform).mouse == self.mouse_position,
            final(uniform).mouse_pressed == self.left_mouse_pressed,
            final(uniform).time_ns == old(uniform).time_ns,
            final(uniform).time_delta_ns == old(uniform).time_delta_ns,
            final(uniform).frame == old(uniform).frame,
            final(uniform).resolution == old(uniform).resolution,
    {
        let mut px = uniform.pos[0];
        let mut py = uniform.pos[1];
        let mut pz = uniform.pos[2];
        if self.left_pressed {
            px = px - 1;
        }
        if self.right_pressed {
            px = px + 1;
        }
        if self.down_pressed {
            py = py - 1;
        }
        if self.up_pressed {
            py = py + 1;
        }
        if self.slash_pressed {
            pz = pz - 1;
        }
        if self.right_shift_pressed {
            pz = pz + 1;
        }
        uniform.pos = [px, py, pz];
        uniform.mouse_pressed = self.left_mouse_pressed;
        uniform.mouse = self.mouse_position;
    }
}

/// The snapshot [`Input::new`] returns.
pub open spec fn spec_input_zero() -> Input {
    Input {
        up_pressed: false,
        down_pressed: false,
        right_pressed: false,
        left_pressed: false,
        slash_pressed: false,
        right_shift_pressed: false,
        enter_pressed: false,
        space_pressed: false,
        left_mouse_pressed: false,
        mouse_position: [0, 0],
    }
}

/// One axis of the position offset after `n` frames during which the same
/// pair of opposing keys is held.
pub open spec fn spec_accumulated_offset(start: int, plus: bool, minus: bool, n: nat) -> int
    decreases n,
{
    if n == 0 {
        start
    } else {
        spec_accumulated_offset(start, plus, minus, (n - 1) as nat) + dir_step(plus) - dir_step(
            minus,
        )
    }
}

/// Repeated directional-input updates accumulate additively: holding the
/// same keys for `n` frames moves the axis by exactly `n` times the fixed
/// per-frame step, as each single frame's step is what
/// [`Input::process_position`] guarantees.
pub proof fn lemma_position_accumulates(start: int, plus: bool, minus: bool, n: nat)
    ensures
        spec_accumulated_offset(start, plus, minus, n) == start + n * (dir_step(plus) - dir_step(
            minus,
        )),
    decreases n,
{
    let step = dir_step(plus) - dir_step(minus);
    if n > 0 {
        lemma_position_accumulates(start, plus, minus, (n - 1) as nat);
        assert(n * step == (n - 1) * step + step) by (nonlinear_arith);
    }
}

} // verus!
