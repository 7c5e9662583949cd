//! Scenario tests for the render context, the compute stages and the frame
//! driver: the resize protocol, the one-shot volume synthesis, the raycast
//! dispatch with profiling, and a resized end-to-end frame.

use vokselis::create_rgb_framebuffer;
use vokselis::BindingSlot;
use vokselis::Camera;
use vokselis::Context;
use vokselis::Driver;
use vokselis::DriverAction;
use vokselis::FrameCounter;
use vokselis::Input;
use vokselis::InputEvent;
use vokselis::KeyId;
use vokselis::SurfaceError;
use vokselis::TextureFormat;
use vokselis::TimestampData;
use vokselis::XorStage;

fn fresh_context(width: u32, height: u32) -> Context {
    let camera = Camera::new(3_000_000, -500_000, 1_000_000, [0, 0, 0], width, height);
    Context::new(width, height, camera, 0)
}

#[test]
fn context_starts_configured_to_the_window() {
    let ctx = fresh_context(1280, 720);
    assert_eq!(ctx.width, 1280);
    assert_eq!(ctx.height, 720);
    assert_eq!(ctx.surface_config.width, 1280);
    assert_eq!(ctx.surface_config.height, 720);
    assert!(ctx.surface_config.format == TextureFormat::Bgra8Unorm);
    assert_eq!(ctx.rgb_texture.width, 1280);
    assert_eq!(ctx.rgb_texture.height, 720);
    assert!(ctx.rgb_texture.format == TextureFormat::Rgba8Unorm);
    assert_eq!(ctx.render_backbuffer.width, 1280);
    assert_eq!(ctx.render_backbuffer.height, 720);
    assert_eq!(ctx.submissions, 0);
    assert_eq!(ctx.presents, 0);
}

#[test]
fn zero_sized_resize_changes_nothing() {
    let mut ctx = fresh_context(1280, 720);
    ctx.resize(0, 600);
    assert_eq!(ctx.width, 1280);
    assert_eq!(ctx.height, 720);
    assert_eq!(ctx.surface_config.width, 1280);
    assert_eq!(ctx.surface_config.height, 720);
    assert_eq!(ctx.rgb_texture.width, 1280);
    assert_eq!(ctx.rgb_texture.height, 720);
    assert_eq!(ctx.camera.aspect_width, 1280);
    assert_eq!(ctx.camera.aspect_height, 720);
    ctx.resize(800, 0);
    assert_eq!(ctx.surface_config.width, 1280);
    assert_eq!(ctx.surface_config.height, 720);
    assert_eq!(ctx.rgb_texture.width, 1280);
    assert_eq!(ctx.rgb_texture.height, 720);
}

#[test]
fn resize_reconfigures_surface_copy_target_and_aspect() {
    let mut ctx = fresh_context(1280, 720);
    ctx.resize(800, 600);
    assert_eq!(ctx.width, 800);
    assert_eq!(ctx.height, 600);
    assert_eq!(ctx.surface_config.width, 800);
    assert_eq!(ctx.surface_config.height, 600);
    assert_eq!(ctx.rgb_texture.width, 800);
    assert_eq!(ctx.rgb_texture.height, 600);
    assert_eq!(ctx.camera.aspect_width, 800);
    assert_eq!(ctx.camera.aspect_height, 600);
    assert_eq!(ctx.camera.distance, 3_000_000);
}

#[test]
fn hdr_target_survives_any_resizes() {
    let mut ctx = fresh_context(1280, 720);
    let sizes = [
        (800u32, 600u32),
        (0, 0),
        (1, 1),
        (1920, 1080),
        (0, 1080),
        (333, 444),
    ];
    for (w, h) in sizes {
        ctx.resize(w, h);
        assert_eq!(ctx.render_backbuffer.width, 1280);
        assert_eq!(ctx.render_backbuffer.height, 720);
    }
}

#[test]
fn update_advances_uniform_and_uploads() {
    let mut ctx = fresh_context(1280, 720);
    let mut counter = FrameCounter::new(0);
    counter.record(16_000_000);
    let mut input = Input::new();
    input.update(
        &InputEvent::Key { key: KeyId::ArrowRight, pressed: true },
        1280,
        720,
    );
    ctx.update(&counter, &input, 20_000_000);
    assert_eq!(ctx.global_uniform.time_ns, 20_000_000);
    assert_eq!(ctx.global_uniform.time_delta_ns, 16_000_000);
    assert_eq!(ctx.global_uniform.frame, 1);
    assert_eq!(ctx.global_uniform.resolution, [1280, 720]);
    assert_eq!(ctx.global_uniform.pos, [1, 0, 0]);
    assert_eq!(ctx.uniform_uploads, 1);
    assert_eq!(ctx.camera_uploads, 1);
    assert_eq!(ctx.uploaded_uniform.frame, 1);
    assert_eq!(ctx.uploaded_uniform.pos, [1, 0, 0]);
}

#[test]
fn render_passes_errors_through_untouched() {
    let mut ctx = fresh_context(1280, 720);
    let r = ctx.render(Err(SurfaceError::Lost));
    assert!(r == Err(SurfaceError::Lost));
    assert_eq!(ctx.submissions, 0);
    assert_eq!(ctx.presents, 0);
    let r = ctx.render(Err(SurfaceError::OutOfMemory));
    assert!(r == Err(SurfaceError::OutOfMemory));
    let r = ctx.render(Err(SurfaceError::Outdated));
    assert!(r == Err(SurfaceError::Outdated));
    let r = ctx.render(Err(SurfaceError::Timeout));
    assert!(r == Err(SurfaceError::Timeout));
    assert_eq!(ctx.submissions, 0);
}

#[test]
fn render_submits_one_batch_and_presents() {
    let mut ctx = fresh_context(1280, 720);
    let sub = ctx.render(Ok(())).unwrap();
    assert_eq!(sub.surface_width, 1280);
    assert_eq!(sub.surface_height, 720);
    assert_eq!(sub.copy_width, 1280);
    assert_eq!(sub.copy_height, 720);
    assert_eq!(sub.vertices, 3);
    assert_eq!(sub.color_attachments, 2);
    assert!(sub.cleared);
    assert_eq!(ctx.submissions, 1);
    assert_eq!(ctx.presents, 1);
}

#[test]
fn copy_target_descriptor_tracks_the_surface() {
    let ctx = fresh_context(640, 480);
    let d = create_rgb_framebuffer(&ctx.surface_config);
    assert_eq!(d.width, 640);
    assert_eq!(d.height, 480);
    assert!(d.format == TextureFormat::Rgba8Unorm);
    assert!(d.usage.render_attachment);
    assert!(d.usage.copy_src);
}

#[test]
fn volume_is_synthesized_exactly_once_before_raycast() {
    let mut stage = XorStage::new();
    assert_eq!(stage.volume_dispatches, 0);
    assert_eq!(stage.raycast_dispatches, 0);
    let seed = stage.seed(&vec![
        BindingSlot::GlobalUniform,
        BindingSlot::VolumeStorage,
    ]);
    assert_eq!(seed.groups_x, 32);
    assert_eq!(seed.groups_y, 32);
    assert_eq!(seed.groups_z, 32);
    assert_eq!(stage.volume_dispatches, 1);

    let ctx = fresh_context(1280, 720);
    let rec = stage.render(
        &ctx.render_backbuffer,
        &vec![
            BindingSlot::GlobalUniform,
            BindingSlot::Camera,
            BindingSlot::VolumeStorage,
            BindingSlot::HdrStorage,
        ],
    );
    assert_eq!(rec.groups_x, 160);
    assert_eq!(rec.groups_y, 90);
    assert_eq!(rec.groups_z, 1);
    assert_eq!(rec.timestamp_start_index, 0);
    assert_eq!(rec.timestamp_end_index, 1);
    assert_eq!(stage.volume_dispatches, 1);
    assert_eq!(stage.raycast_dispatches, 1);
}

#[test]
fn profiling_runs_every_hundredth_frame() {
    let mut stage = XorStage::new();
    assert!(stage.should_profile(0));
    assert!(!stage.should_profile(1));
    assert!(!stage.should_profile(99));
    assert!(stage.should_profile(100));
    assert!(!stage.should_profile(101));
    assert!(stage.should_profile(200));
    let ticks = stage.profile(TimestampData { start: 100, end: 350 });
    assert_eq!(ticks, 250);
    assert_eq!(stage.readbacks, 1);
}

fn fresh_driver(width: u32, height: u32) -> Driver {
    let camera = Camera::new(3_000_000, -500_000, 1_000_000, [0, 0, 0], width, height);
    let (driver, seed) = Driver::new(width, height, camera, 0);
    assert_eq!(seed.groups_x, 32);
    assert_eq!(seed.groups_y, 32);
    assert_eq!(seed.groups_z, 32);
    driver
}

#[test]
fn driver_seeds_the_volume_once_at_startup() {
    let driver = fresh_driver(1280, 720);
    assert_eq!(driver.stage.volume_dispatches, 1);
    assert_eq!(driver.stage.raycast_dispatches, 0);
    assert!(!driver.exited);
}

#[test]
fn end_to_end_resize_then_render() {
    let mut driver = fresh_driver(1280, 720);

    // Frame 0 is a profiling frame, so the idle step consumes a readback.
    let (action, profiled) =
        driver.about_to_wait(1_000, Some(TimestampData { start: 10, end: 30 }));
    assert!(action == DriverAction::RequestRedraw);
    assert_eq!(profiled, Some(20));

    driver.window_resized(800, 600);
    assert_eq!(driver.context.width, 800);
    assert_eq!(driver.context.height, 600);
    assert_eq!(driver.context.camera.aspect_width, 800);
    assert_eq!(driver.context.camera.aspect_height, 600);

    let (action, raycast, submission) = driver.redraw_requested(2_000, Ok(()));
    assert!(action == DriverAction::Proceed);
    let submission = submission.unwrap();
    assert_eq!(submission.surface_width, 800);
    assert_eq!(submission.surface_height, 600);
    assert_eq!(submission.copy_width, 800);
    assert_eq!(submission.copy_height, 600);
    assert_eq!(submission.vertices, 3);
    assert_eq!(submission.color_attachments, 2);
    // The raycast still covers the fixed HDR resolution...
    assert_eq!(raycast.groups_x, 160);
    assert_eq!(raycast.groups_y, 90);
    // ...while the presented image is the new window size.
    assert_eq!(driver.context.submissions, 1);
    assert_eq!(driver.context.presents, 1);
    assert_eq!(driver.context.surface_config.width, 800);
    assert_eq!(driver.context.surface_config.height, 600);
    assert_eq!(driver.context.rgb_texture.width, 800);
    assert_eq!(driver.context.rgb_texture.height, 600);
    // The HDR target never moved.
    assert_eq!(driver.context.render_backbuffer.width, 1280);
    assert_eq!(driver.context.render_backbuffer.height, 720);
    // Exactly one volume dispatch has ever been submitted.
    assert_eq!(driver.stage.volume_dispatches, 1);
    assert_eq!(driver.stage.raycast_dispatches, 1);
    assert_eq!(driver.frame_counter.frame_count, 1);
}

#[test]
fn readback_happens_once_per_interval() {
    let mut driver = fresh_driver(1280, 720);
    let mut readbacks: u64 = 0;
    for i in 0..=200u64 {
        let profile = driver
            .stage
            .should_profile(driver.frame_counter.frame_count);
        let ticks = if profile {
            Some(TimestampData { start: 0, end: i })
        } else {
            None
        };
        let (_, profiled) = driver.about_to_wait(i * 1_000_000, ticks);
        assert_eq!(profiled.is_some(), profile);
        if profiled.is_some() {
            readbacks += 1;
        }
        let (_, _, _) = driver.redraw_requested(i * 1_000_000 + 500_000, Ok(()));
    }
    // Frames 0, 100 and 200 are the only profiling frames among the 201.
    assert_eq!(readbacks, 3);
    assert_eq!(driver.stage.readbacks, 3);
    assert_eq!(driver.stage.raycast_dispatches, 201);
    assert_eq!(driver.stage.volume_dispatches, 1);
    assert_eq!(driver.context.presents, 201);
}

#[test]
fn zero_sized_window_resize_is_ignored() {
    let mut driver = fresh_driver(1280, 720);
    driver.window_resized(0, 0);
    driver.window_resized(0, 600);
    driver.window_resized(800, 0);
    assert_eq!(driver.context.width, 1280);
    assert_eq!(driver.context.height, 720);
    assert_eq!(driver.context.rgb_texture.width, 1280);
    assert_eq!(driver.context.camera.aspect_width, 1280);
}

#[test]
fn lost_surface_reconfigures_and_retries() {
    let mut driver = fresh_driver(1280, 720);
    let (action, _, submission) = driver.redraw_requested(1_000, Err(SurfaceError::Lost));
    assert!(submission.is_none());
    assert!(action == DriverAction::RequestRedraw);
    assert!(!driver.exited);
    assert_eq!(driver.context.width, 1280);
    assert_eq!(driver.context.height, 720);
    assert_eq!(driver.context.presents, 0);
}

#[test]
fn out_of_memory_exits_the_loop() {
    let mut driver = fresh_driver(1280, 720);
    let (action, _, _) = driver.redraw_requested(1_000, Err(SurfaceError::OutOfMemory));
    assert!(action == DriverAction::Exit);
    assert!(driver.exited);
}

#[test]
fn other_render_errors_just_retry() {
    let mut driver = fresh_driver(1280, 720);
    let (action, _, _) = driver.redraw_requested(1_000, Err(SurfaceError::Outdated));
    assert!(action == DriverAction::RequestRedraw);
    assert!(!driver.exited);
    let (action, _, _) = driver.redraw_requested(2_000, Err(SurfaceError::Timeout));
    assert!(action == DriverAction::RequestRedraw);
    assert!(!driver.exited);
    assert_eq!(driver.stage.raycast_dispatches, 2);
}

#[test]
fn close_or_escape_exits() {
    let mut driver = fresh_driver(1280, 720);
    driver.exit_requested();
    assert!(driver.exited);
}

#[test]
fn device_mouse_events_need_focus() {
    let mut driver = fresh_driver(1280, 720);
    let start_distance = driver.context.camera.distance;

    driver.mouse_wheel(2_000);
    assert_eq!(driver.context.camera.distance, start_distance);
    driver.mouse_button(true);
    assert!(!driver.mouse_dragged);

    driver.focus_changed(true);
    driver.mouse_wheel(2_000);
    assert_eq!(driver.context.camera.distance, start_distance - 2_000);
    driver.mouse_button(true);
    assert!(driver.mouse_dragged);

    let yaw = driver.context.camera.yaw;
    let pitch = driver.context.camera.pitch;
    driver.mouse_motion(300, -150);
    assert_eq!(driver.context.camera.yaw, yaw - 300);
    assert_eq!(driver.context.camera.pitch, pitch - 150);

    driver.mouse_button(false);
    driver.mouse_motion(300, -150);
    assert_eq!(driver.context.camera.yaw, yaw - 300);
}

#[test]
fn window_input_uses_current_window_size() {
    let mut driver = fresh_driver(1280, 720);
    driver.window_resized(200, 100);
    assert!(driver.window_input(&InputEvent::CursorMoved { x: 50, y: 25 }));
    assert_eq!(driver.input.mouse_position, [-500, 500]);
    assert!(driver.window_input(&InputEvent::Key { key: KeyId::Space, pressed: true }));
    assert!(driver.input.space_pressed);
    assert!(!driver.window_input(&InputEvent::Key { key: KeyId::Other, pressed: true }));
}
