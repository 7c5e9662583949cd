//! Named resource-binding slots.
//!
//! Every pipeline declares, at construction, which resource occupies which
//! ordinal bind-group slot; the same ordinals must be used, unchanged, by the
//! per-frame binding calls. Rather than trusting positional wiring, each
//! pipeline here carries its declared slot list and per-frame bindings are
//! validated against it.

use vstd::prelude::*;

verus! {

/// The resources a pipeline stage can bind, by name.
#[derive(Clone, Copy, PartialEq, Eq, Structural)]
pub enum BindingSlot {
    /// The per-frame global uniform block.
    GlobalUniform,
    /// The camera's view/projection pair.
    Camera,
    /// The two volume textures as writable compute storage.
    VolumeStorage,
    /// The two volume textures as sampled inputs.
    VolumeSampled,
    /// The HDR target's writable storage view.
    HdrStorage,
    /// The HDR target's readable sampled view.
    HdrSampled,
}

/// Slot ordinals of the volume-generation compute pipeline: the global
/// uniform at slot 0 and the volume storage views at slot 1.
pub open spec fn spec_xor_slots() -> Seq<BindingSlot> {
    seq![BindingSlot::GlobalUniform, BindingSlot::VolumeStorage]
}

/// Slot ordinals of the raycast compute pipeline: global uniform at 0,
/// camera at 1, volume data at 2 and the HDR storage view at 3.
pub open spec fn spec_raycast_slots() -> Seq<BindingSlot> {
    seq![
        BindingSlot::GlobalUniform,
        BindingSlot::Camera,
        BindingSlot::VolumeStorage,
        BindingSlot::HdrStorage,
    ]
}

/// Slot ordinals of the present render pipeline: global uniform at 0, camera
/// at 1, and the HDR target's readable view in its own group at 2.
pub open spec fn spec_present_slots() -> Seq<BindingSlot> {
    seq![BindingSlot::GlobalUniform, BindingSlot::Camera, BindingSlot::HdrSampled]
}

/// Slot ordinals of the plain camera-aware fullscreen pipeline: the global
/// uniform at slot 0 and the camera at slot 1.
pub open spec fn spec_basic_slots() -> Seq<BindingSlot> {
    seq![BindingSlot::GlobalUniform, BindingSlot::Camera]
}

/// A pipeline's declared bind-group slot list, fixed at construction and
/// never reordered afterwards.
pub struct PipelineLayout {
    slots: Vec<BindingSlot>,
}

impl View for PipelineLayout {
    type V = Seq<BindingSlot>;

    closed spec fn view(&self) -> Seq<BindingSlot> {
        self.slots@
    }
}

impl PipelineLayout {
    /// Declares a layout with the given slot ordinals.
    pub fn new(slots: Vec<BindingSlot>) -> (l: Self)
        ensures
            l@ == slots@,
    {
        PipelineLayout { slots }
    }

    /// The volume-generation pipeline's layout.
    pub fn xor_generate() -> (l: Self)
        ensures
            l@ == spec_xor_slots(),
    {
        let mut slots: Vec<BindingSlot> = Vec::new();
        slots.push(BindingSlot::GlobalUniform);
        slots.push(BindingSlot::VolumeStorage);
        proof {
            assert(slots@ =~= spec_xor_slots());
        }
        PipelineLayout { slots }
    }

    /// The raycast pipeline's layout.
    pub fn raycast() -> (l: Self)
        ensures
            l@ == spec_raycast_slots(),
    {
        let mut slots: Vec<BindingSlot> = Vec::new();
        slots.push(BindingSlot::GlobalUniform);
        slots.push(BindingSlot::Camera);
        slots.push(BindingSlot::VolumeStorage);
        slots.push(BindingSlot::HdrStorage);
        proof {
            assert(slots@ =~= spec_raycast_slots());
        }
        PipelineLayout { slots }
    }

    /// The present pipeline's layout.
    pub fn present() -> (l: Self)
        ensures
            l@ == spec_present_slots(),
    {
        let mut slots: Vec<BindingSlot> = Vec::new();
        slots.push(BindingSlot::GlobalUniform);
        slots.push(BindingSlot::Camera);
        slots.push(BindingSlot::HdrSampled);
        proof {
            assert(slots@ =~= spec_present_slots());
        }
        PipelineLayout { slots }
    }

    /// The number of bind groups the pipeline declares.
    pub fn len(&self) -> (n: usize)
        ensures
            n == self@.len(),
    {
        self.slots.len()
    }

    /// The camera-aware fullscreen pipeline's layout.
    pub fn basic_with_camera() -> (l: Self)
        ensures
            l@ == spec_basic_slots(),
    {
        let mut slots: Vec<BindingSlot> = Vec::new();
        slots.push(BindingSlot::GlobalUniform);
        slots.push(BindingSlot::Camera);
        proof {
            assert(slots@ =~= spec_basic_slots());
        }
        PipelineLayout { slots }
    }

    /// Checks a per-frame binding list against the declared ordinals: true
    /// exactly when the same resources stand at the same slots.
    pub fn matches_bindings(&self, bound: &Vec<BindingSlot>) -> (ok: bool)
        ensures
            ok == (self@ =~= bound@),
    {
        if self.slots.len() != bound.len() {
            return false;
        }
        let n = self.slots.len();
        let mut i: usize = 0;
        while i < n
            invariant
                i <= n,
                n == self.slots@.len(),
                n == bound@.len(),
                forall|j: int| 0 <= j < i ==> self.slots@[j] == bound@[j],
            decreases n - i,
        {
            if self.slots[i] != bound[i] {
                return false;
            }
            i = i + 1;
        }
        true
    }
}

/// One recorded draw call of a fullscreen pipeline.
#[derive(Clone, Copy, PartialEq, Eq, Structural)]
pub struct DrawRecord {
    pub vertices: u32,
    pub instances: u32,
}

/// A fullscreen render pipeline bound to the global uniform and the camera:
/// no vertex input, one oversized triangle covering the whole target.
pub struct BasicPipeline {
    pub layout: PipelineLayout,
    pub surface_format: crate::texture::TextureFormat,
}

impl BasicPipeline {
    /// Declares the pipeline against the target's format with its two fixed
    /// slots.
    pub fn new(surface_format: crate::texture::TextureFormat) -> (p: Self)
        ensures
            p.layout@ == spec_basic_slots(),
            p.surface_format == surface_format,
    {
        BasicPipeline { layout: PipelineLayout::basic_with_camera(), surface_format }
    }

    /// Records the fullscreen draw — three vertices, one instance — with the
    /// bindings standing exactly at the declared slots.
    pub fn record(&self, bound: &Vec<BindingSlot>) -> (d: DrawRecord)
        requires
            bound@ == self.layout@,
        ensures
            d == (DrawRecord { vertices: 3, instances: 1 }),
    {
        DrawRecord { vertices: 3, instances: 1 }
    }
}

} // verus!
