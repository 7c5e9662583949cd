//! The per-frame global uniform block.
//!
//! This is the single block of scalar state every GPU stage reads. One writer
//! mutates its fields once per frame and uploads the whole block; the field
//! set and their order never change after construction. Quantities the GPU
//! consumes as floating point are held here in exact integer form and scaled
//! at upload time by the unverified shell: the position offset counts steps
//! of one hundredth of a unit, and the mouse position is in thousandths of
//! the normalized `[-1, 1]` range.

use vstd::prelude::*;

verus! {

/// Per-frame scalar state read by every GPU stage.
#[derive(Clone, Copy)]
pub struct Uniform {
    /// Nanoseconds since the renderer's timeline origin.
    pub time_ns: u64,
    /// Nanoseconds between the two most recent frame samples.
    pub time_delta_ns: u64,
    /// Index of the current frame.
    pub frame: u32,
    /// Current window size in pixels, width then height.
    pub resolution: [u32; 2],
    /// Position offset in steps of one hundredth of a unit per axis.
    pub pos: [i64; 3],
    /// Mouse position in thousandths of the normalized `[-1, 1]` range per
    /// axis, vertical axis pointing up.
    pub mouse: [i32; 2],
    /// Whether the primary mouse button is held.
    pub mouse_pressed: bool,
}

/// The all-zero uniform block a renderer starts from.
pub open spec fn spec_uniform_zero() -> Uniform {
    Uniform {
        time_ns: 0,
        time_delta_ns: 0,
        frame: 0,
        resolution: [0, 0],
        pos: [0, 0, 0],
        mouse: [0, 0],
        mouse_pressed: false,
    }
}

impl Default for Uniform {
    /// The block before the first update: all fields zero.
    fn default() -> (u: Self)
        ensures
            u == spec_uniform_zero(),
    {
        Uniform {
            time_ns: 0,
            time_delta_ns: 0,
            frame: 0,
            resolution: [0, 0],
            pos: [0, 0, 0],
            mouse: [0, 0],
            mouse_pressed: false,
        }
    }
}

} // verus!
