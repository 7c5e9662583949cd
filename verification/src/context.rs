//! The render context: device-facing state, resize protocol and the present
//! pass.
//!
//! The context owns the presentation surface configuration, the
//! window-sized presentation copy target, the fixed-resolution HDR back
//! buffer, the camera and the global uniform block. `update` mutates and
//! uploads per-frame state, `resize` reconfigures the surface, and `render`
//! records the present pass for an acquired surface image. The unverified
//! shell owns the actual device objects and mirrors each operation
//! one-for-one.

use crate::binding::{spec_present_slots, PipelineLayout};
use crate::camera::Camera;
use crate::input::{dir_step, Input};
use crate::texture::{
    spec_rgb_framebuffer_desc, HdrBackBuffer, TextureDesc, TextureDimension, TextureFormat,
    TextureUsage, HDR_DEFAULT_HEIGHT, HDR_DEFAULT_WIDTH,
};
use crate::timing::FrameCounter;
use crate::uniform::{spec_uniform_zero, Uniform};
use vstd::prelude::*;

verus! {

broadcast use vstd::array::group_array_axioms;

/// Errors the presentation surface can report when the next image is
/// acquired.
#[derive(Clone, Copy, Debug, PartialEq, Eq, Structural)]
pub enum SurfaceError {
    /// The surface was lost and must be reconfigured before the next frame.
    Lost,
    /// The device is out of memory; rendering cannot continue.
    OutOfMemory,
    /// The surface no longer matches the window and should be retried.
    Outdated,
    /// Acquiring the image took too long; the frame is skipped.
    Timeout,
}

/// The presentation surface's configuration: window size and the fixed
/// 8-bit presentation format, frame-paced to the display.
#[derive(Clone, Copy, PartialEq, Eq, Structural)]
pub struct SurfaceConfig {
    pub width: u32,
    pub height: u32,
    pub format: TextureFormat,
}

/// What one successful present pass submits: a fullscreen triangle drawn
/// over both the acquired surface image and the presentation copy target,
/// each cleared first.
#[derive(Clone, Copy, PartialEq, Eq, Structural)]
pub struct FrameSubmission {
    pub surface_width: u32,
    pub surface_height: u32,
    pub copy_width: u32,
    pub copy_height: u32,
    pub vertices: u32,
    pub color_attachments: u32,
    pub cleared: bool,
}

/// The presentation copy target for a surface of the given configuration: an
/// 8-bit RGBA texture of exactly the window size.
pub fn create_rgb_framebuffer(config: &SurfaceConfig) -> (d: TextureDesc)
    ensures
        d == spec_rgb_framebuffer_desc(config.width, config.height),
{
    TextureDesc {
        width: config.width,
        height: config.height,
        depth_or_array_layers: 1,
        mip_level_count: 1,
        sample_count: 1,
        dimension: TextureDimension::D2,
        format: TextureFormat::Rgba8Unorm,
        usage: TextureUsage {
            render_attachment: true,
            storage_binding: false,
            texture_binding: false,
            copy_src: true,
            copy_dst: false,
        },
    }
}

/// Host-side state of the renderer's device objects.
pub struct Context {
    pub surface_config: SurfaceConfig,
    pub width: u32,
    pub height: u32,
    pub rgb_texture: TextureDesc,
    pub render_backbuffer: HdrBackBuffer,
    pub camera: Camera,
    pub global_uniform: Uniform,
    /// The uniform block as last written to the device buffer.
    pub uploaded_uniform: Uniform,
    pub uniform_uploads: u64,
    pub camera_uploads: u64,
    /// Timeline origin in host nanoseconds.
    pub start_ns: u64,
    pub submissions: u64,
    pub presents: u64,
    pub present_layout: PipelineLayout,
}

/// The context one resize call leaves behind: untouched when either
/// dimension is zero; otherwise the surface configuration tracks the new
/// size, the presentation copy target is recreated at that size, and the
/// camera aspect ratio becomes exactly the new width over height. The HDR
/// back buffer is never part of this.
pub open spec fn spec_resize(c: Context, width: u32, height: u32) -> Context {
    if width == 0 || height == 0 {
        c
    } else {
        Context {
            width,
            height,
            surface_config: SurfaceConfig { width, height, format: c.surface_config.format },
            rgb_texture: spec_rgb_framebuffer_desc(width, height),
            camera: Camera { aspect_width: width, aspect_height: height, ..c.camera },
            ..c
        }
    }
}

/// A context after a whole sequence of resize calls, applied first to last.
pub open spec fn spec_resize_all(c: Context, sizes: Seq<(u32, u32)>) -> Context
    decreases sizes.len(),
{
    if sizes.len() == 0 {
        c
    } else {
        spec_resize(spec_resize_all(c, sizes.drop_last()), sizes.last().0, sizes.last().1)
    }
}

/// The HDR back buffer's resolution is invariant under any sequence of
/// resize calls: it stays exactly what construction fixed it to.
pub proof fn lemma_hdr_fixed_under_resizes(c: Context, sizes: Seq<(u32, u32)>)
    ensures
        spec_resize_all(c, sizes).render_backbuffer == c.render_backbuffer,
    decreases sizes.len(),
{
    if sizes.len() > 0 {
        lemma_hdr_fixed_under_resizes(c, sizes.drop_last());
    }
}

impl Context {
    /// Well-formedness: the surface tracks the window size in the fixed
    /// presentation format, the copy target matches the window, the camera's
    /// aspect pair is the window size, and the HDR back buffer sits at its
    /// fixed default resolution.
    pub open spec fn wf(&self) -> bool {
        &&& self.width > 0
        &&& self.height > 0
        &&& self.surface_config == SurfaceConfig {
            width: self.width,
            height: self.height,
            format: TextureFormat::Bgra8Unorm,
        }
        &&& self.rgb_texture == spec_rgb_framebuffer_desc(self.width, self.height)
        &&& self.camera.aspect_width == self.width
        &&& self.camera.aspect_height == self.height
        &&& self.render_backbuffer.width == HDR_DEFAULT_WIDTH
        &&& self.render_backbuffer.height == HDR_DEFAULT_HEIGHT
        &&& self.present_layout@ == spec_present_slots()
    }

    /// Builds the context for a window of the given size: the surface is
    /// configured to it, the copy target allocated at it, the HDR back
    /// buffer at its fixed default resolution, and the uniform block zeroed.
    /// Nothing has been submitted or presented yet.
    pub fn new(width: u32, height: u32, camera: Camera, now_ns: u64) -> (ctx: Self)
        requires
            width > 0,
            height > 0,
            camera.aspect_width == width,
            camera.aspect_height == height,
        ensures
            ctx.wf(),
            ctx.width == width,
            ctx.height == height,
            ctx.camera == camera,
            ctx.global_uniform == spec_uniform_zero(),
            ctx.uploaded_uniform == spec_uniform_zero(),
            ctx.start_ns == now_ns,
            ctx.uniform_uploads == 0,
            ctx.camera_uploads == 0,
            ctx.submissions == 0,
            ctx.presents == 0,
    {
        let surface_config = SurfaceConfig { width, height, format: TextureFormat::Bgra8Unorm };
        let rgb_texture = create_rgb_framebuffer(&surface_config);
        Context {
            surface_config,
            width,
            height,
            rgb_texture,
            render_backbuffer: HdrBackBuffer::new(HDR_DEFAULT_WIDTH, HDR_DEFAULT_HEIGHT),
            camera,
            global_uniform: Uniform::default(),
            uploaded_uniform: Uniform::default(),
            uniform_uploads: 0,
            camera_uploads: 0,
            start_ns: now_ns,
            submissions: 0,
            presents: 0,
            present_layout: PipelineLayout::present(),
        }
    }

    /// Per-frame host update: advances the uniform clock, frame delta, frame
    /// index and resolution, folds the input snapshot into the position
    /// offset and mouse fields, and uploads the uniform block and camera to
    /// the device. No GPU dispatch is recorded here, and no device object is
    /// created or resized.
    pub fn update(&mut self, frame_counter: &FrameCounter, input: &Input, now_ns: u64)
        requires
            old(self).start_ns <= now_ns,
            i64::MIN < old(self).global_uniform.pos[0] < i64::MAX,
            i64::MIN < old(self).global_uniform.pos[1] < i64::MAX,
            i64::MIN < old(self).global_uniform.pos[2] < i64::MAX,
            old(self).uniform_uploads < u64::MAX,
            old(self).camera_uploads < u64::MAX,
        ensures
            final(self).global_uniform.time_ns == now_ns - old(self).start_ns,
            final(self).global_uniform.time_delta_ns == frame_counter.delta_ns,
            final(self).global_uniform.frame == frame_counter.frame_count,
            final(self).global_uniform.resolution == [old(self).width, old(self).height],
            final(self).global_uniform.pos[0] == old(self).global_uniform.pos[0] + dir_step(
                input.right_pressed,
            ) - dir_step(input.left_pressed),
            final(self).global_uniform.pos[1] == old(self).global_uniform.pos[1] + dir_step(
                input.up_pressed,
            ) - dir_step(input.down_pressed),
            final(self).global_uniform.pos[2] == old(self).global_uniform.pos[2] + dir_step(
                input.right_shift_pressed,
            ) - dir_step(input.slash_pressed),
            final(self).global_uniform.mouse == input.mouse_position,
            final(self).global_uniform.mouse_pressed == input.left_mouse_pressed,
            final(self).uploaded_uniform == final(self).global_uniform,
            final(self).uniform_uploads == old(self).uniform_uploads + 1,
            final(self).camera_uploads == old(self).camera_uploads + 1,
            *final(self) == (Context {
                global_uniform: final(self).global_uniform,
                uploaded_uniform: final(self).uploaded_uniform,
                uniform_uploads: final(self).uniform_uploads,
                camera_uploads: final(self).camera_uploads,
                ..*old(self)
            }),
            old(self).wf() ==> final(self).wf(),
    {
        self.global_uniform.time_ns = now_ns - self.start_ns;
        self.global_uniform.time_delta_ns = frame_counter.time_delta();
        self.global_uniform.frame = frame_counter.frame_count;
        self.global_uniform.resolution = [self.width, self.height];
        input.process_position(&mut self.global_uniform);
        self.uploaded_uniform = self.global_uniform;
        self.uniform_uploads = self.uniform_uploads + 1;
        self.camera_uploads = self.camera_uploads + 1;
    }

    /// Resize protocol: a no-op when either dimension is zero; otherwise the
    /// surface is reconfigured to the new size, the presentation copy target
    /// recreated at it, and the camera aspect ratio set to exactly
    /// `width / height`. The HDR back buffer is never touched.
    pub fn resize(&mut self, width: u32, height: u32)
        ensures
            *final(self) == spec_resize(*old(self), width, height),
            width == 0 || height == 0 ==> *final(self) == *old(self),
            width > 0 && height > 0 ==> final(self).camera.aspect_width == width
                && final(self).camera.aspect_height == height,
            final(self).render_backbuffer == old(self).render_backbuffer,
            old(self).wf() ==> final(self).wf(),
    {
        if width == 0 || height == 0 {
            return ;
        }
        self.width = width;
        self.height = height;
        self.surface_config.width = width;
        self.surface_config.height = height;
        self.rgb_texture = create_rgb_framebuffer(&self.surface_config);
        self.camera.set_aspect(width, height);
    }

    /// Records and submits the present pass for an acquired surface image.
    /// The acquire outcome is handed in by the shell: on an error nothing is
    /// recorded, the error is returned as is, and the context is unchanged.
    /// On success the pass clears both the surface image and the copy target
    /// and draws the fullscreen triangle (three vertices, two color
    /// attachments) over both, all work is submitted in one batch, and the
    /// image is presented.
    pub fn render(&mut self, acquire: Result<(), SurfaceError>) -> (r: Result<
        FrameSubmission,
        SurfaceError,
    >)
        requires
            old(self).submissions < u64::MAX,
            old(self).presents < u64::MAX,
        ensures
            (match acquire {
                Ok(_) => {
                    &&& r matches Ok(sub) && sub == (FrameSubmission {
                        surface_width: old(self).width,
                        surface_height: old(self).height,
                        copy_width: old(self).rgb_texture.width,
                        copy_height: old(self).rgb_texture.height,
                        vertices: 3,
                        color_attachments: 2,
                        cleared: true,
                    })
                    &&& *final(self) == (Context {
                        submissions: (old(self).submissions + 1) as u64,
                        presents: (old(self).presents + 1) as u64,
                        ..*old(self)
                    })
                },
                Err(e) => r == Result::<FrameSubmission, SurfaceError>::Err(e) && *final(self)
                    == *old(self),
            }),
            old(self).wf() ==> final(self).wf(),
    {
        match acquire {
            Ok(_) => {
                let sub = FrameSubmission {
                    surface_width: self.width,
                    surface_height: self.height,
                    copy_width: self.rgb_texture.width,
                    copy_height: self.rgb_texture.height,
                    vertices: 3,
                    color_attachments: 2,
                    cleared: true,
                };
                self.submissions = self.submissions + 1;
                self.presents = self.presents + 1;
                Ok(sub)
            },
            Err(e) => Err(e),
        }
    }
}

} // verus!
