//! Frame timing and GPU timestamp bookkeeping.
//!
//! All host times are nanoseconds from a monotonic clock; GPU times are raw
//! timer ticks as resolved from a timestamp query. Converting ticks to
//! nanoseconds multiplies by the device's fractional tick period, which is
//! floating point and therefore left to the unverified shell; the tick
//! difference itself is computed and bounded here.

use vstd::prelude::*;

verus! {

/// Two raw GPU timer values resolved from a timestamp query pair: query index
/// 0 is written before the raycast dispatch, index 1 after it.
#[derive(Clone, Copy, PartialEq, Eq, Structural)]
pub struct TimestampData {
    pub start: u64,
    pub end: u64,
}

/// Size in bytes of the host-visible buffer holding one [`TimestampData`]:
/// two 64-bit timer values.
pub const TIMESTAMP_BUFFER_BYTES: u64 = 16;

/// Number of timestamp queries resolved around the raycast dispatch.
pub const TIMESTAMP_QUERY_COUNT: u32 = 2;

/// Elapsed ticks between the two timer values of a readback. The result is a
/// plain difference and, being unsigned, never negative.
pub fn elapsed_ticks(data: TimestampData) -> (d: u64)
    requires
        data.start <= data.end,
    ensures
        d == data.end - data.start,
{
    data.end - data.start
}

/// Per-frame timing samples: a frame index and the host-time delta between
/// the two most recent samples.
pub struct FrameCounter {
    pub frame_count: u32,
    pub last_sample_ns: u64,
    pub delta_ns: u64,
}

impl FrameCounter {
    /// Starts counting at frame 0 from the given instant.
    pub fn new(now_ns: u64) -> (c: Self)
        ensures
            c.frame_count == 0,
            c.last_sample_ns == now_ns,
            c.delta_ns == 0,
    {
        FrameCounter { frame_count: 0, last_sample_ns: now_ns, delta_ns: 0 }
    }

    /// Records one frame: advances the frame index by one and measures the
    /// time passed since the previous sample.
    pub fn record(&mut self, now_ns: u64)
        requires
            old(self).last_sample_ns <= now_ns,
            old(self).frame_count < u32::MAX,
        ensures
            final(self).frame_count == old(self).frame_count + 1,
            final(self).delta_ns == now_ns - old(self).last_sample_ns,
            final(self).last_sample_ns == now_ns,
    {
        self.delta_ns = now_ns - self.last_sample_ns;
        self.last_sample_ns = now_ns;
        self.frame_count = self.frame_count + 1;
    }

    /// The host-time delta measured by the latest [`FrameCounter::record`].
    pub fn time_delta(&self) -> (d: u64)
        ensures
            d == self.delta_ns,
    {
        self.delta_ns
    }
}

} // verus!
