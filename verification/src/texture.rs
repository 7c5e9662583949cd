//! Texture descriptors and the fixed-resolution HDR intermediate target.
//!
//! Each GPU texture the renderer creates is prescribed here as a plain
//! descriptor value; the unverified shell translates descriptors one-for-one
//! into device calls. The high-dynamic-range back buffer keeps a resolution
//! chosen at construction — by default 1280x720 — and is never resized,
//! however the window changes.

use vstd::prelude::*;

verus! {

/// Pixel formats the renderer uses: a 16-bit float format for the HDR
/// target, and two 8-bit formats for presentation and its copy target.
#[derive(Clone, Copy, PartialEq, Eq, Structural)]
pub enum TextureFormat {
    Rgba16Float,
    Rgba8Unorm,
    Bgra8Unorm,
}

/// Dimensionality of a texture.
#[derive(Clone, Copy, PartialEq, Eq, Structural)]
pub enum TextureDimension {
    D2,
    D3,
}

/// The ways a texture may be bound or copied.
#[derive(Clone, Copy, PartialEq, Eq, Structural)]
pub struct TextureUsage {
    pub render_attachment: bool,
    pub storage_binding: bool,
    pub texture_binding: bool,
    pub copy_src: bool,
    pub copy_dst: bool,
}

/// Everything the device needs to allocate a texture.
#[derive(Clone, Copy, PartialEq, Eq, Structural)]
pub struct TextureDesc {
    pub width: u32,
    pub height: u32,
    pub depth_or_array_layers: u32,
    pub mip_level_count: u32,
    pub sample_count: u32,
    pub dimension: TextureDimension,
    pub format: TextureFormat,
    pub usage: TextureUsage,
}

/// Default width of the HDR back buffer.
pub const HDR_DEFAULT_WIDTH: u32 = 1280;

/// Default height of the HDR back buffer.
pub const HDR_DEFAULT_HEIGHT: u32 = 720;

/// Edge length of the cubic volume dataset.
pub const VOLUME_EDGE: u32 = 256;

/// Descriptor of the HDR back buffer texture: a single-sample 2D float
/// target that can be rendered to, written as compute storage, sampled, and
/// copied out.
pub open spec fn spec_hdr_texture_desc(width: u32, height: u32) -> TextureDesc {
    TextureDesc {
        width,
        height,
        depth_or_array_layers: 1,
        mip_level_count: 1,
        sample_count: 1,
        dimension: TextureDimension::D2,
        format: TextureFormat::Rgba16Float,
        usage: TextureUsage {
            render_attachment: true,
            storage_binding: true,
            texture_binding: true,
            copy_src: true,
            copy_dst: false,
        },
    }
}

/// Descriptor of one cubic volume texture: a 3D float texture bindable both
/// as compute storage (while generated) and for sampling (when raycast).
pub open spec fn spec_volume_texture_desc() -> TextureDesc {
    TextureDesc {
        width: VOLUME_EDGE,
        height: VOLUME_EDGE,
        depth_or_array_layers: VOLUME_EDGE,
        mip_level_count: 1,
        sample_count: 1,
        dimension: TextureDimension::D3,
        format: TextureFormat::Rgba16Float,
        usage: TextureUsage {
            render_attachment: false,
            storage_binding: true,
            texture_binding: true,
            copy_src: false,
            copy_dst: false,
        },
    }
}

/// Descriptor of the presentation copy target: an 8-bit RGBA texture sized
/// to the window, written by the present pass and readable by later copies.
pub open spec fn spec_rgb_framebuffer_desc(width: u32, height: u32) -> TextureDesc {
    TextureDesc {
        width,
        height,
        depth_or_array_layers: 1,
        mip_level_count: 1,
        sample_count: 1,
        dimension: TextureDimension::D2,
        format: TextureFormat::Rgba8Unorm,
        usage: TextureUsage {
            render_attachment: true,
            storage_binding: false,
            texture_binding: false,
            copy_src: true,
            copy_dst: false,
        },
    }
}

/// The fixed-resolution HDR intermediate render target. Its size is set once
/// at construction and decoupled from the window; resizing the window never
/// touches it.
pub struct HdrBackBuffer {
    pub width: u32,
    pub height: u32,
}

impl HdrBackBuffer {
    /// Allocates the target at the given fixed resolution.
    pub fn new(width: u32, height: u32) -> (b: Self)
        requires
            width > 0,
            height > 0,
        ensures
            b.width == width,
            b.height == height,
    {
        HdrBackBuffer { width, height }
    }

    /// The default fixed resolution, 1280x720.
    pub fn default_resolution() -> (r: (u32, u32))
        ensures
            r.0 == HDR_DEFAULT_WIDTH,
            r.1 == HDR_DEFAULT_HEIGHT,
    {
        (HDR_DEFAULT_WIDTH, HDR_DEFAULT_HEIGHT)
    }

    /// The texture the device allocates for this target.
    pub fn texture_desc(&self) -> (d: TextureDesc)
        ensures
            d == spec_hdr_texture_desc(self.width, self.height),
    {
        TextureDesc {
            width: self.width,
            height: self.height,
            depth_or_array_layers: 1,
            mip_level_count: 1,
            sample_count: 1,
            dimension: TextureDimension::D2,
            format: TextureFormat::Rgba16Float,
            usage: TextureUsage {
                render_attachment: true,
                storage_binding: true,
                texture_binding: true,
                copy_src: true,
                copy_dst: false,
            },
        }
    }
}

/// The texture the device allocates for one of the two volume datasets.
pub fn volume_texture_desc() -> (d: TextureDesc)
    ensures
        d == spec_volume_texture_desc(),
{
    TextureDesc {
        width: VOLUME_EDGE,
        height: VOLUME_EDGE,
        depth_or_array_layers: VOLUME_EDGE,
        mip_level_count: 1,
        sample_count: 1,
        dimension: TextureDimension::D3,
        format: TextureFormat::Rgba16Float,
        usage: TextureUsage {
            render_attachment: false,
            storage_binding: true,
            texture_binding: true,
            copy_src: false,
            copy_dst: false,
        },
    }
}

} // verus!
