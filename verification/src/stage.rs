//! The chained compute stages: one-shot volume synthesis and the per-frame
//! raycast dispatch, with GPU timestamp profiling.
//!
//! The volume dataset is synthesized exactly once, before any raycast; the
//! raycast then runs once per frame over the HDR target's fixed resolution,
//! bracketed by a pair of timestamp queries. Every hundredth frame the
//! timestamp buffer is read back over a bounded wait; this is the renderer's
//! only host/device synchronization point.

use crate::binding::{spec_raycast_slots, spec_xor_slots, BindingSlot, PipelineLayout};
use crate::texture::{
    spec_volume_texture_desc, volume_texture_desc, HdrBackBuffer, TextureDesc, VOLUME_EDGE,
};
use crate::timing::{TimestampData, TIMESTAMP_BUFFER_BYTES, TIMESTAMP_QUERY_COUNT};
use crate::utils::{dispatch_optimal, spec_dispatch_count, spec_dispatch_padding};
use vstd::prelude::*;

verus! {

/// Workgroup tile edge of the raycast dispatch, in each spatial axis.
pub const RAYCAST_TILE: u32 = 8;

/// Workgroup count per axis of the one-shot volume synthesis dispatch.
pub const XOR_GROUPS: u32 = 32;

/// A timestamp readback runs once every this many frames.
pub const PROFILE_INTERVAL: u32 = 100;

/// Whether `frame` is one of the frames on which the profiling readback
/// runs.
pub open spec fn spec_is_profile_frame(frame: u32) -> bool {
    frame % PROFILE_INTERVAL == 0
}

/// Two distinct profiling frames are at least a whole interval apart, so the
/// blocking readback happens at most once per interval.
pub proof fn lemma_profile_frames_spaced(a: u32, b: u32)
    requires
        spec_is_profile_frame(a),
        spec_is_profile_frame(b),
        a < b,
    ensures
        b - a >= PROFILE_INTERVAL,
{
    let p = PROFILE_INTERVAL as int;
    vstd::arithmetic::div_mod::lemma_fundamental_div_mod(a as int, p);
    vstd::arithmetic::div_mod::lemma_fundamental_div_mod(b as int, p);
    let qa = a as int / p;
    let qb = b as int / p;
    assert(p * qb - p * qa >= p) by (nonlinear_arith)
        requires
            p > 0 && qb > qa,
    ;
}

/// One recorded compute dispatch: its workgroup grid.
#[derive(Clone, Copy, PartialEq, Eq, Structural)]
pub struct DispatchRecord {
    pub groups_x: u32,
    pub groups_y: u32,
    pub groups_z: u32,
}

/// One recorded raycast dispatch: the workgroup grid plus the two timestamp
/// queries bracketing it, resolved into the readback buffer.
#[derive(Clone, Copy, PartialEq, Eq, Structural)]
pub struct RaycastRecord {
    pub groups_x: u32,
    pub groups_y: u32,
    pub groups_z: u32,
    pub timestamp_start_index: u32,
    pub timestamp_end_index: u32,
}

/// The volume-synthesis compute pipeline and the two 3D textures it fills:
/// density and normals, each a 256-cubed float texture.
pub struct XorCompute {
    pub layout: PipelineLayout,
    pub volume_desc: TextureDesc,
    pub normal_desc: TextureDesc,
}

impl XorCompute {
    /// Declares the pipeline's fixed slots and the two volume textures.
    pub fn new() -> (x: Self)
        ensures
            x.layout@ == spec_xor_slots(),
            x.volume_desc == spec_volume_texture_desc(),
            x.normal_desc == spec_volume_texture_desc(),
    {
        XorCompute {
            layout: PipelineLayout::xor_generate(),
            volume_desc: volume_texture_desc(),
            normal_desc: volume_texture_desc(),
        }
    }

    /// Records the synthesis dispatch: a fixed 32x32x32 grid covering the
    /// 256-cubed domain, with the bindings standing exactly at the declared
    /// slots.
    pub fn record(&self, bound: &Vec<BindingSlot>) -> (d: DispatchRecord)
        requires
            bound@ == self.layout@,
        ensures
            d == (DispatchRecord { groups_x: XOR_GROUPS, groups_y: XOR_GROUPS, groups_z: XOR_GROUPS }),
            d.groups_x * 8 == VOLUME_EDGE,
    {
        DispatchRecord { groups_x: XOR_GROUPS, groups_y: XOR_GROUPS, groups_z: XOR_GROUPS }
    }
}

/// The raycast compute pipeline: only its fixed slot declaration.
pub struct RaycastPipeline {
    pub layout: PipelineLayout,
}

impl RaycastPipeline {
    /// Declares the pipeline's fixed slots.
    pub fn new() -> (p: Self)
        ensures
            p.layout@ == spec_raycast_slots(),
    {
        RaycastPipeline { layout: PipelineLayout::raycast() }
    }
}

/// The two compute stages with their profiling apparatus: the query set, the
/// readback buffer, counters of the dispatches submitted so far, and the
/// history of protocol operations they stand for.
pub struct XorStage {
    pub xor_texture: XorCompute,
    pub raycast_single: RaycastPipeline,
    pub timestamp_query_count: u32,
    pub timestamp_buffer_bytes: u64,
    /// Volume-synthesis dispatches submitted so far; never exceeds one.
    pub volume_dispatches: u64,
    /// Raycast dispatches submitted so far.
    pub raycast_dispatches: u64,
    /// Timestamp readbacks performed so far.
    pub readbacks: u64,
    /// The operations performed on this stage, in submission order.
    pub trace: Ghost<Seq<StageOp>>,
}

impl XorStage {
    /// Well-formedness: the pipelines declare their fixed slots, the query
    /// apparatus holds exactly one timestamp pair, the recorded history
    /// respects every operation's precondition, and the volume has been
    /// synthesized at most once — exactly as often as the history says.
    pub open spec fn wf(&self) -> bool {
        &&& self.xor_texture.layout@ == spec_xor_slots()
        &&& self.raycast_single.layout@ == spec_raycast_slots()
        &&& self.timestamp_query_count == TIMESTAMP_QUERY_COUNT
        &&& self.timestamp_buffer_bytes == TIMESTAMP_BUFFER_BYTES
        &&& self.volume_dispatches <= 1
        &&& spec_run_enabled(0, self.trace@)
        &&& self.volume_dispatches == spec_run_volume(0, self.trace@)
    }

    /// Allocates both pipelines, the timestamp query set and the readback
    /// buffer. Construction is side-effect free: nothing has been dispatched.
    pub fn new() -> (s: Self)
        ensures
            s.wf(),
            s.volume_dispatches == 0,
            s.raycast_dispatches == 0,
            s.readbacks == 0,
            s.trace@ == Seq::<StageOp>::empty(),
    {
        XorStage {
            xor_texture: XorCompute::new(),
            raycast_single: RaycastPipeline::new(),
            timestamp_query_count: TIMESTAMP_QUERY_COUNT,
            timestamp_buffer_bytes: TIMESTAMP_BUFFER_BYTES,
            volume_dispatches: 0,
            raycast_dispatches: 0,
            readbacks: 0,
            trace: Ghost(Seq::empty()),
        }
    }

    /// The one-shot volume synthesis: submits the 32x32x32 generation
    /// dispatch. It runs exactly once, before any raycast; afterwards the
    /// volume is immutable and only read.
    pub fn seed(&mut self, bound: &Vec<BindingSlot>) -> (d: DispatchRecord)
        requires
            old(self).wf(),
            old(self).volume_dispatches == 0,
            bound@ == spec_xor_slots(),
        ensures
            final(self).wf(),
            final(self).volume_dispatches == 1,
            d == (DispatchRecord { groups_x: XOR_GROUPS, groups_y: XOR_GROUPS, groups_z: XOR_GROUPS }),
            final(self).raycast_dispatches == old(self).raycast_dispatches,
            final(self).readbacks == old(self).readbacks,
            final(self).xor_texture == old(self).xor_texture,
            final(self).raycast_single == old(self).raycast_single,
            final(self).timestamp_query_count == old(self).timestamp_query_count,
            final(self).timestamp_buffer_bytes == old(self).timestamp_buffer_bytes,
            final(self).trace@ == old(self).trace@.push(StageOp::Seed),
    {
        let d = self.xor_texture.record(bound);
        self.volume_dispatches = 1;
        proof {
            lemma_run_enabled_push(0, self.trace@, StageOp::Seed);
        }
        self.trace = Ghost(self.trace@.push(StageOp::Seed));
        d
    }

    /// Per-frame raycast dispatch over the HDR target: ceiling-division
    /// workgroup counts in the two spatial axes with the fixed tile edge,
    /// timestamp queries written before (index 0) and after (index 1) the
    /// dispatch and resolved into the readback buffer. Requires the volume
    /// to have been synthesized.
    pub fn render(&mut self, hdr: &HdrBackBuffer, bound: &Vec<BindingSlot>) -> (r: RaycastRecord)
        requires
            old(self).wf(),
            old(self).volume_dispatches == 1,
            old(self).raycast_dispatches < u64::MAX,
            bound@ == spec_raycast_slots(),
            hdr.width + spec_dispatch_padding(hdr.width as int, RAYCAST_TILE as int) <= u32::MAX,
            hdr.height + spec_dispatch_padding(hdr.height as int, RAYCAST_TILE as int) <= u32::MAX,
        ensures
            final(self).wf(),
            r.groups_x == spec_dispatch_count(hdr.width as int, RAYCAST_TILE as int),
            r.groups_y == spec_dispatch_count(hdr.height as int, RAYCAST_TILE as int),
            r.groups_z == 1,
            r.timestamp_start_index == 0,
            r.timestamp_end_index == 1,
            final(self).volume_dispatches == 1,
            final(self).raycast_dispatches == old(self).raycast_dispatches + 1,
            final(self).readbacks == old(self).readbacks,
            final(self).xor_texture == old(self).xor_texture,
            final(self).raycast_single == old(self).raycast_single,
            final(self).timestamp_query_count == old(self).timestamp_query_count,
            final(self).timestamp_buffer_bytes == old(self).timestamp_buffer_bytes,
            final(self).trace@ == old(self).trace@.push(StageOp::Raycast),
    {
        let groups_x = dispatch_optimal(hdr.width, RAYCAST_TILE);
        let groups_y = dispatch_optimal(hdr.height, RAYCAST_TILE);
        self.raycast_dispatches = self.raycast_dispatches + 1;
        proof {
            lemma_run_enabled_push(0, self.trace@, StageOp::Raycast);
        }
        self.trace = Ghost(self.trace@.push(StageOp::Raycast));
        RaycastRecord {
            groups_x,
            groups_y,
            groups_z: 1,
            timestamp_start_index: 0,
            timestamp_end_index: 1,
        }
    }

    /// Whether this frame is one on which the timestamp buffer is mapped and
    /// read back.
    pub fn should_profile(&self, frame: u32) -> (b: bool)
        ensures
            b == spec_is_profile_frame(frame),
    {
        frame % PROFILE_INTERVAL == 0
    }

    /// Consumes one mapped readback of the timestamp buffer: the raw tick
    /// difference between the end and start queries. The shell performs the
    /// bounded wait, hands the two ticks in, and afterwards unmaps the
    /// buffer and scales the result by the device's tick period.
    pub fn profile(&mut self, data: TimestampData) -> (ticks: u64)
        requires
            old(self).wf(),
            data.start <= data.end,
            old(self).readbacks < u64::MAX,
        ensures
            final(self).wf(),
            ticks == data.end - data.start,
            final(self).readbacks == old(self).readbacks + 1,
            final(self).volume_dispatches == old(self).volume_dispatches,
            final(self).raycast_dispatches == old(self).raycast_dispatches,
            final(self).xor_texture == old(self).xor_texture,
            final(self).raycast_single == old(self).raycast_single,
            final(self).timestamp_query_count == old(self).timestamp_query_count,
            final(self).timestamp_buffer_bytes == old(self).timestamp_buffer_bytes,
            final(self).trace@ == old(self).trace@.push(StageOp::Profile),
    {
        self.readbacks = self.readbacks + 1;
        proof {
            lemma_run_enabled_push(0, self.trace@, StageOp::Profile);
        }
        self.trace = Ghost(self.trace@.push(StageOp::Profile));
        crate::timing::elapsed_ticks(data)
    }
}

/// An operation of the stage protocol, abstracted to what it does to the
/// dispatch counters.
#[derive(Clone, Copy, PartialEq, Eq, Structural)]
pub enum StageOp {
    /// One volume-synthesis dispatch ([`XorStage::seed`]).
    Seed,
    /// One raycast dispatch ([`XorStage::render`]).
    Raycast,
    /// One timestamp readback ([`XorStage::profile`]).
    Profile,
}

/// Whether an operation's precondition on the volume-dispatch count holds:
/// synthesis requires a virgin volume, a raycast requires the synthesized
/// one.
pub open spec fn spec_op_enabled(volume: nat, op: StageOp) -> bool {
    match op {
        StageOp::Seed => volume == 0,
        StageOp::Raycast => volume == 1,
        StageOp::Profile => true,
    }
}

/// The volume-dispatch count after an operation.
pub open spec fn spec_op_volume(volume: nat, op: StageOp) -> nat {
    match op {
        StageOp::Seed => 1,
        StageOp::Raycast => volume,
        StageOp::Profile => volume,
    }
}

/// Whether a whole run of operations respects each operation's precondition,
/// starting from the given volume-dispatch count.
pub open spec fn spec_run_enabled(volume: nat, ops: Seq<StageOp>) -> bool
    decreases ops.len(),
{
    ops.len() == 0 || (spec_op_enabled(volume, ops.first()) && spec_run_enabled(
        spec_op_volume(volume, ops.first()),
        ops.drop_first(),
    ))
}

/// The volume-dispatch count a run of operations ends at.
pub open spec fn spec_run_volume(volume: nat, ops: Seq<StageOp>) -> nat
    decreases ops.len(),
{
    if ops.len() == 0 {
        volume
    } else {
        spec_run_volume(spec_op_volume(volume, ops.first()), ops.drop_first())
    }
}

/// How many volume-synthesis dispatches a run of operations submits.
pub open spec fn spec_count_seeds(ops: Seq<StageOp>) -> nat
    decreases ops.len(),
{
    if ops.len() == 0 {
        0nat
    } else {
        (if ops.first() == StageOp::Seed {
            1nat
        } else {
            0nat
        }) + spec_count_seeds(ops.drop_first())
    }
}

/// Along any run that respects the stage's preconditions, the
/// volume-dispatch count is exactly the starting count plus the synthesis
/// dispatches submitted, and never exceeds one.
pub proof fn lemma_volume_count(volume: nat, ops: Seq<StageOp>)
    requires
        volume <= 1,
        spec_run_enabled(volume, ops),
    ensures
        spec_run_volume(volume, ops) == volume + spec_count_seeds(ops),
        volume + spec_count_seeds(ops) <= 1,
    decreases ops.len(),
{
    if ops.len() > 0 {
        lemma_volume_count(spec_op_volume(volume, ops.first()), ops.drop_first());
    }
}

/// From process start — a stage with nothing dispatched — to any raycast
/// dispatch of an enabled run, exactly one volume-synthesis dispatch has
/// been submitted, and the queue order puts it before the raycast.
pub proof fn lemma_one_seed_before_raycast(ops: Seq<StageOp>, i: int)
    requires
        spec_run_enabled(0, ops),
        0 <= i < ops.len(),
        ops[i] == StageOp::Raycast,
    ensures
        spec_count_seeds(ops.take(i)) == 1,
        spec_run_volume(0, ops.take(i)) == 1,
    decreases i,
{
    if i == 0 {
        assert(spec_op_enabled(0, ops.first()));
        assert(ops.first() == StageOp::Raycast);
        assert(false);
    } else {
        let rest = ops.drop_first();
        let v1 = spec_op_volume(0, ops.first());
        assert(rest[i - 1] == StageOp::Raycast);
        if ops.first() == StageOp::Seed {
            lemma_run_volume_prefix(1, rest, i - 1);
            lemma_volume_count(1, rest.take(i - 1));
            assert(spec_count_seeds(rest.take(i - 1)) == 0);
            assert(ops.take(i).drop_first() =~= rest.take(i - 1));
            assert(spec_count_seeds(ops.take(i)) == 1);
            assert(spec_run_volume(0, ops.take(i)) == spec_run_volume(1, rest.take(i - 1)));
        } else {
            assert(spec_op_enabled(0, ops.first()));
            assert(ops.first() == StageOp::Profile);
            lemma_one_seed_before_raycast(rest, i - 1);
            assert(ops.take(i).drop_first() =~= rest.take(i - 1));
            assert(spec_count_seeds(ops.take(i)) == spec_count_seeds(rest.take(i - 1)));
            assert(spec_run_volume(0, ops.take(i)) == spec_run_volume(0, rest.take(i - 1)));
        }
    }
}

/// Appending one enabled operation keeps a run enabled, and moves the
/// volume-dispatch count by exactly that operation's step.
pub proof fn lemma_run_enabled_push(volume: nat, ops: Seq<StageOp>, op: StageOp)
    requires
        spec_run_enabled(volume, ops),
        spec_op_enabled(spec_run_volume(volume, ops), op),
    ensures
        spec_run_enabled(volume, ops.push(op)),
        spec_run_volume(volume, ops.push(op)) == spec_op_volume(
            spec_run_volume(volume, ops),
            op,
        ),
    decreases ops.len(),
{
    let pushed = ops.push(op);
    if ops.len() == 0 {
        assert(pushed.first() == op);
        assert(pushed.drop_first() =~= Seq::<StageOp>::empty());
        assert(spec_run_enabled(spec_op_volume(volume, op), pushed.drop_first()));
        assert(spec_run_volume(spec_op_volume(volume, op), pushed.drop_first())
            == spec_op_volume(volume, op));
    } else {
        let v1 = spec_op_volume(volume, ops.first());
        lemma_run_enabled_push(v1, ops.drop_first(), op);
        assert(pushed.first() == ops.first());
        assert(pushed.drop_first() =~= ops.drop_first().push(op));
        assert(spec_run_enabled(v1, pushed.drop_first()));
        assert(spec_run_volume(volume, pushed) == spec_run_volume(v1, pushed.drop_first()));
    }
}

/// The stage's own history obeys the one-shot law: wherever its trace holds
/// a raycast dispatch, exactly one volume-synthesis dispatch stands before
/// it in submission order.
pub proof fn lemma_stage_history_single_seed(s: &XorStage, i: int)
    requires
        s.wf(),
        0 <= i < s.trace@.len(),
        s.trace@[i] == StageOp::Raycast,
    ensures
        spec_count_seeds(s.trace@.take(i)) == 1,
{
    lemma_one_seed_before_raycast(s.trace@, i);
}

/// A prefix of an enabled run is itself enabled.
pub proof fn lemma_run_volume_prefix(volume: nat, ops: Seq<StageOp>, i: int)
    requires
        spec_run_enabled(volume, ops),
        0 <= i <= ops.len(),
    ensures
        spec_run_enabled(volume, ops.take(i)),
    decreases i,
{
    if i > 0 {
        let rest = ops.drop_first();
        lemma_run_volume_prefix(spec_op_volume(volume, ops.first()), rest, i - 1);
        assert(ops.take(i).drop_first() =~= rest.take(i - 1));
        assert(ops.take(i).first() == ops.first());
    }
}

} // verus!
