//! Unit tests for the leaf components: dispatch sizing, the push map, frame
//! timing, input normalization, camera updates, binding layouts and texture
//! descriptors.

use vokselis::dispatch_optimal;
use vokselis::elapsed_ticks;
use vokselis::normalize_mouse;
use vokselis::volume_texture_desc;
use vokselis::BasicPipeline;
use vokselis::BindingSlot;
use vokselis::Camera;
use vokselis::ContinuousHashMap;
use vokselis::FrameCounter;
use vokselis::HdrBackBuffer;
use vokselis::Input;
use vokselis::InputEvent;
use vokselis::KeyId;
use vokselis::PipelineLayout;
use vokselis::TextureDimension;
use vokselis::TextureFormat;
use vokselis::TimestampData;
use vokselis::Uniform;

#[test]
fn dispatch_count_matches_ceiling_division() {
    assert_eq!(dispatch_optimal(1280, 8), 160);
    assert_eq!(dispatch_optimal(13, 8), 2);
    assert_eq!(dispatch_optimal(0, 8), 0);
    assert_eq!(dispatch_optimal(720, 8), 90);
    assert_eq!(dispatch_optimal(16, 8), 2);
    assert_eq!(dispatch_optimal(17, 8), 3);
    assert_eq!(dispatch_optimal(1, 1), 1);
    assert_eq!(dispatch_optimal(7, 64), 1);
}

#[test]
fn push_map_keeps_every_value_in_order() {
    let mut m: ContinuousHashMap<u32> = ContinuousHashMap::new();
    assert!(m.get(7).is_none());
    m.push_value(7, 10);
    m.push_value(7, 11);
    m.push_value(9, 12);
    let under_seven = m.get(7).unwrap();
    assert_eq!(under_seven.len(), 2);
    assert_eq!(under_seven[0], 10);
    assert_eq!(under_seven[1], 11);
    let under_nine = m.get(9).unwrap();
    assert_eq!(under_nine.len(), 1);
    assert_eq!(under_nine[0], 12);
    assert!(m.get(8).is_none());
}

#[test]
fn frame_counter_measures_deltas() {
    let mut c = FrameCounter::new(1_000);
    assert_eq!(c.frame_count, 0);
    assert_eq!(c.time_delta(), 0);
    c.record(3_500);
    assert_eq!(c.frame_count, 1);
    assert_eq!(c.time_delta(), 2_500);
    c.record(3_500);
    assert_eq!(c.frame_count, 2);
    assert_eq!(c.time_delta(), 0);
}

#[test]
fn elapsed_ticks_is_end_minus_start() {
    assert_eq!(elapsed_ticks(TimestampData { start: 5, end: 25 }), 20);
    assert_eq!(elapsed_ticks(TimestampData { start: 42, end: 42 }), 0);
}

#[test]
fn mouse_normalization_covers_the_square() {
    assert_eq!(normalize_mouse(0, 0, 100, 100), [-1000, 1000]);
    assert_eq!(normalize_mouse(50, 50, 100, 100), [0, 0]);
    assert_eq!(normalize_mouse(100, 100, 100, 100), [1000, -1000]);
    assert_eq!(normalize_mouse(25, 75, 100, 100), [-500, -500]);
    assert_eq!(normalize_mouse(640, 0, 1280, 720), [0, 1000]);
}

#[test]
fn input_tracks_key_flags() {
    let mut input = Input::new();
    assert!(!input.up_pressed);
    assert!(input.update(
        &InputEvent::Key { key: KeyId::ArrowUp, pressed: true },
        1280,
        720
    ));
    assert!(input.up_pressed);
    assert!(input.update(
        &InputEvent::Key { key: KeyId::ArrowUp, pressed: false },
        1280,
        720
    ));
    assert!(!input.up_pressed);
    assert!(input.update(
        &InputEvent::Key { key: KeyId::ShiftRight, pressed: true },
        1280,
        720
    ));
    assert!(input.right_shift_pressed);
    assert!(!input.update(
        &InputEvent::Key { key: KeyId::Other, pressed: true },
        1280,
        720
    ));
}

#[test]
fn input_tracks_cursor_and_button() {
    let mut input = Input::new();
    assert!(input.update(&InputEvent::CursorMoved { x: 320, y: 180 }, 1280, 720));
    assert_eq!(input.mouse_position, [-500, 500]);
    assert!(input.update(&InputEvent::MouseLeft { pressed: true }, 1280, 720));
    assert!(input.left_mouse_pressed);
    assert!(input.update(&InputEvent::Other, 1280, 720));
    assert!(input.left_mouse_pressed);
}

#[test]
fn directional_input_accumulates_additively() {
    let mut input = Input::new();
    input.update(
        &InputEvent::Key { key: KeyId::ArrowRight, pressed: true },
        1280,
        720,
    );
    input.update(
        &InputEvent::Key { key: KeyId::ArrowUp, pressed: true },
        1280,
        720,
    );
    let mut uniform = Uniform::default();
    for _ in 0..3 {
        input.process_position(&mut uniform);
    }
    assert_eq!(uniform.pos, [3, 3, 0]);
    input.update(
        &InputEvent::Key { key: KeyId::Slash, pressed: true },
        1280,
        720,
    );
    input.process_position(&mut uniform);
    assert_eq!(uniform.pos, [4, 4, -1]);
}

#[test]
fn opposing_keys_cancel() {
    let mut input = Input::new();
    input.update(
        &InputEvent::Key { key: KeyId::ArrowLeft, pressed: true },
        1280,
        720,
    );
    input.update(
        &InputEvent::Key { key: KeyId::ArrowRight, pressed: true },
        1280,
        720,
    );
    let mut uniform = Uniform::default();
    input.process_position(&mut uniform);
    assert_eq!(uniform.pos, [0, 0, 0]);
}

#[test]
fn process_position_copies_mouse_state() {
    let mut input = Input::new();
    input.update(&InputEvent::CursorMoved { x: 0, y: 0 }, 200, 100);
    input.update(&InputEvent::MouseLeft { pressed: true }, 200, 100);
    let mut uniform = Uniform::default();
    uniform.time_ns = 77;
    uniform.frame = 9;
    input.process_position(&mut uniform);
    assert_eq!(uniform.mouse, [-1000, 1000]);
    assert!(uniform.mouse_pressed);
    assert_eq!(uniform.time_ns, 77);
    assert_eq!(uniform.frame, 9);
}

#[test]
fn camera_deltas_accumulate_additively() {
    let mut camera = Camera::new(3_000_000, -500_000, 1_000_000, [0, 0, 0], 1280, 720);
    camera.add_zoom(5_000);
    camera.add_zoom(-2_000);
    assert_eq!(camera.distance, 3_003_000);
    camera.add_yaw(10_000);
    camera.add_yaw(10_000);
    camera.add_yaw(10_000);
    assert_eq!(camera.yaw, -470_000);
    camera.add_pitch(-1_000_000);
    assert_eq!(camera.pitch, 0);
    assert_eq!(camera.aspect_width, 1280);
    assert_eq!(camera.aspect_height, 720);
}

#[test]
fn camera_aspect_follows_resize_exactly() {
    let mut camera = Camera::new(3_000_000, 0, 0, [0, 0, 0], 1280, 720);
    camera.set_aspect(800, 600);
    assert_eq!(camera.aspect_width, 800);
    assert_eq!(camera.aspect_height, 600);
    assert_eq!(camera.distance, 3_000_000);
}

#[test]
fn pipeline_layouts_declare_fixed_ordinals() {
    let raycast = PipelineLayout::raycast();
    assert_eq!(raycast.len(), 4);
    let bound = vec![
        BindingSlot::GlobalUniform,
        BindingSlot::Camera,
        BindingSlot::VolumeStorage,
        BindingSlot::HdrStorage,
    ];
    assert!(raycast.matches_bindings(&bound));
    let reordered = vec![
        BindingSlot::Camera,
        BindingSlot::GlobalUniform,
        BindingSlot::VolumeStorage,
        BindingSlot::HdrStorage,
    ];
    assert!(!raycast.matches_bindings(&reordered));
    let short = vec![BindingSlot::GlobalUniform];
    assert!(!raycast.matches_bindings(&short));

    let xor = PipelineLayout::xor_generate();
    assert!(xor.matches_bindings(&vec![
        BindingSlot::GlobalUniform,
        BindingSlot::VolumeStorage,
    ]));
    let present = PipelineLayout::present();
    assert!(present.matches_bindings(&vec![
        BindingSlot::GlobalUniform,
        BindingSlot::Camera,
        BindingSlot::HdrSampled,
    ]));
}

#[test]
fn basic_pipeline_draws_one_fullscreen_triangle() {
    let pipeline = BasicPipeline::new(TextureFormat::Bgra8Unorm);
    assert!(pipeline.surface_format == TextureFormat::Bgra8Unorm);
    let bound = vec![BindingSlot::GlobalUniform, BindingSlot::Camera];
    assert!(pipeline.layout.matches_bindings(&bound));
    let draw = pipeline.record(&bound);
    assert_eq!(draw.vertices, 3);
    assert_eq!(draw.instances, 1);
}

#[test]
fn texture_descriptors_are_exact() {
    let volume = volume_texture_desc();
    assert_eq!(volume.width, 256);
    assert_eq!(volume.height, 256);
    assert_eq!(volume.depth_or_array_layers, 256);
    assert!(volume.dimension == TextureDimension::D3);
    assert!(volume.format == TextureFormat::Rgba16Float);
    assert!(volume.usage.storage_binding);
    assert!(volume.usage.texture_binding);
    assert!(!volume.usage.render_attachment);

    let hdr = HdrBackBuffer::new(1280, 720);
    let desc = hdr.texture_desc();
    assert_eq!(desc.width, 1280);
    assert_eq!(desc.height, 720);
    assert!(desc.format == TextureFormat::Rgba16Float);
    assert!(desc.usage.storage_binding);
    assert!(desc.usage.texture_binding);
    assert!(desc.usage.render_attachment);

    assert_eq!(HdrBackBuffer::default_resolution(), (1280, 720));
}
