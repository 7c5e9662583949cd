//! Orbit camera state.
//!
//! The camera is kept in orbit form — distance from a fixed target point,
//! yaw and pitch around it — so that zoom and rotate input deltas are plain
//! additive updates. Angles and lengths are held in millionths of a radian
//! or unit; the unverified shell scales them when it builds the view and
//! projection matrices for upload. The aspect ratio is kept as the exact
//! width/height pair it was last resized to.

use vstd::prelude::*;

verus! {

/// Orbit camera parameters: distance, yaw and pitch in millionths, a fixed
/// target point, and the aspect ratio as a width/height pair.
pub struct Camera {
    pub distance: i64,
    pub yaw: i64,
    pub pitch: i64,
    pub target: [i64; 3],
    pub aspect_width: u32,
    pub aspect_height: u32,
}

impl Camera {
    /// A camera at the given orbit position, aimed at `target`, with the
    /// aspect ratio `aspect_width / aspect_height`.
    pub fn new(
        distance: i64,
        yaw: i64,
        pitch: i64,
        target: [i64; 3],
        aspect_width: u32,
        aspect_height: u32,
    ) -> (c: Self)
        requires
            aspect_width > 0,
            aspect_height > 0,
        ensures
            c.distance == distance,
            c.yaw == yaw,
            c.pitch == pitch,
            c.target == target,
            c.aspect_width == aspect_width,
            c.aspect_height == aspect_height,
    {
        Camera { distance, yaw, pitch, target, aspect_width, aspect_height }
    }

    /// Adds a scroll-derived delta to the orbit distance; nothing else moves
    /// and no clamp is applied.
    pub fn add_zoom(&mut self, delta: i64)
        requires
            i64::MIN <= old(self).distance + delta <= i64::MAX,
        ensures
            final(self).distance == old(self).distance + delta,
            final(self).yaw == old(self).yaw,
            final(self).pitch == old(self).pitch,
            final(self).target == old(self).target,
            final(self).aspect_width == old(self).aspect_width,
            final(self).aspect_height == old(self).aspect_height,
    {
        self.distance = self.distance + delta;
    }

    /// Adds a motion-derived delta to the yaw; nothing else moves and no
    /// clamp is applied.
    pub fn add_yaw(&mut self, delta: i64)
        requires
            i64::MIN <= old(self).yaw + delta <= i64::MAX,
        ensures
            final(self).yaw == old(self).yaw + delta,
            final(self).distance == old(self).distance,
            final(self).pitch == old(self).pitch,
            final(self).target == old(self).target,
            final(self).aspect_width == old(self).aspect_width,
            final(self).aspect_height == old(self).aspect_height,
    {
        self.yaw = self.yaw + delta;
    }

    /// Adds a motion-derived delta to the pitch; nothing else moves and no
    /// clamp is applied.
    pub fn add_pitch(&mut self, delta: i64)
        requires
            i64::MIN <= old(self).pitch + delta <= i64::MAX,
        ensures
            final(self).pitch == old(self).pitch + delta,
            final(self).distance == old(self).distance,
            final(self).yaw == old(self).yaw,
            final(self).target == old(self).target,
            final(self).aspect_width == old(self).aspect_width,
            final(self).aspect_height == old(self).aspect_height,
    {
        self.pitch = self.pitch + delta;
    }

    /// Sets the aspect ratio to exactly `width / height`; the orbit
    /// parameters are untouched.
    pub fn set_aspect(&mut self, width: u32, height: u32)
        requires
            width > 0,
            height > 0,
        ensures
            final(self).aspect_width == width,
            final(self).aspect_height == height,
            final(self).distance == old(self).distance,
            final(self).yaw == old(self).yaw,
            final(self).pitch == old(self).pitch,
            final(self).target == old(self).target,
    {
        self.aspect_width = width;
        self.aspect_height = height;
    }
}

/// The sum of a sequence of input deltas.
pub open spec fn spec_delta_sum(deltas: Seq<int>) -> int
    decreases deltas.len(),
{
    if deltas.len() == 0 {
        0
    } else {
        spec_delta_sum(deltas.drop_last()) + deltas.last()
    }
}

/// An orbit parameter after a sequence of additive updates, applied first to
/// last.
pub open spec fn spec_apply_deltas(start: int, deltas: Seq<int>) -> int
    decreases deltas.len(),
{
    if deltas.len() == 0 {
        start
    } else {
        spec_apply_deltas(start, deltas.drop_last()) + deltas.last()
    }
}

/// Repeated scroll and motion deltas accumulate additively on an orbit
/// parameter, with no clamp: applying a sequence of deltas one by one — what
/// [`Camera::add_zoom`], [`Camera::add_yaw`] and [`Camera::add_pitch`]
/// guarantee per step — lands on the start value plus their sum.
pub proof fn lemma_deltas_accumulate(start: int, deltas: Seq<int>)
    ensures
        spec_apply_deltas(start, deltas) == start + spec_delta_sum(deltas),
    decreases deltas.len(),
{
    if deltas.len() > 0 {
        lemma_deltas_accumulate(start, deltas.drop_last());
    }
}

} // verus!
