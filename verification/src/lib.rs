//! Orchestration core of a volumetric raycasting renderer.
//!
//! The crate models the host-side state of a GPU renderer: the presentation
//! surface and its resize protocol, a fixed-resolution high-dynamic-range
//! intermediate target, the one-shot volume synthesis stage, the per-frame
//! raycast dispatch with timestamp profiling, the present pass, and the
//! per-frame uniform/camera update protocol. Every function carries a
//! contract; the device itself is driven by a thin unverified shell that
//! performs exactly the submissions this core prescribes.

mod binding;
mod camera;
mod context;
mod driver;
mod input;
mod stage;
mod texture;
mod timing;
mod uniform;
mod utils;

pub use binding::{BasicPipeline, BindingSlot, DrawRecord, PipelineLayout};
pub use camera::Camera;
pub use context::{create_rgb_framebuffer, Context, FrameSubmission, SurfaceConfig, SurfaceError};
pub use driver::{Driver, DriverAction};
pub use input::{normalize_mouse, Input, InputEvent, KeyId};
pub use stage::{
    DispatchRecord, RaycastPipeline, RaycastRecord, StageOp, XorCompute, XorStage,
    PROFILE_INTERVAL, RAYCAST_TILE, XOR_GROUPS,
};
pub use texture::{
    volume_texture_desc, HdrBackBuffer, TextureDesc, TextureDimension, TextureFormat, TextureUsage,
    HDR_DEFAULT_HEIGHT, HDR_DEFAULT_WIDTH, VOLUME_EDGE,
};
pub use timing::{
    elapsed_ticks, FrameCounter, TimestampData, TIMESTAMP_BUFFER_BYTES, TIMESTAMP_QUERY_COUNT,
};
pub use uniform::Uniform;
pub use utils::{dispatch_optimal, ContinuousHashMap};
