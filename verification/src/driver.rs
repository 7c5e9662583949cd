//! The frame driver: the decisions of the single-threaded event loop.
//!
//! The loop itself — waiting on the platform, translating its events,
//! performing device work — lives in the unverified shell. Each loop arm
//! calls one method here; the method advances the model state and returns
//! what the shell must do next. Construction submits the one-shot volume
//! synthesis, so by the first raycast dispatch exactly one volume dispatch
//! has been submitted, and no later event ever adds another.

use crate::binding::{spec_raycast_slots, spec_xor_slots, BindingSlot};
use crate::camera::Camera;
use crate::context::{spec_resize, Context, FrameSubmission, SurfaceError};
use crate::input::{spec_input_zero, spec_key_update, spec_norm_x, spec_norm_y, Input, InputEvent};
use crate::stage::{
    spec_is_profile_frame, DispatchRecord, RaycastRecord, StageOp, XorStage, RAYCAST_TILE,
    XOR_GROUPS,
};
use crate::timing::{FrameCounter, TimestampData};
use crate::utils::spec_dispatch_count;
use vstd::prelude::*;

verus! {

/// What the shell must do after an event was handled.
#[derive(Clone, Copy, PartialEq, Eq, Structural)]
pub enum DriverAction {
    /// Nothing further for this event.
    Proceed,
    /// Ask the window for another redraw.
    RequestRedraw,
    /// Leave the event loop.
    Exit,
}

/// Everything the event loop owns: the render context, the compute stages,
/// frame timing, the input snapshot and the loop's own flags.
pub struct Driver {
    pub context: Context,
    pub stage: XorStage,
    pub frame_counter: FrameCounter,
    pub input: Input,
    pub focused: bool,
    pub mouse_dragged: bool,
    pub exited: bool,
}

impl Driver {
    /// Well-formedness: the context and stage are well-formed and the volume
    /// has been synthesized exactly once.
    pub open spec fn wf(&self) -> bool {
        &&& self.context.wf()
        &&& self.stage.wf()
        &&& self.stage.volume_dispatches == 1
    }

    /// Builds the renderer for a window of the given size and submits the
    /// one-shot volume synthesis; the returned record is the dispatch the
    /// shell must submit before the first frame. No raycast has run yet, so
    /// process start reaches the first raycast dispatch with exactly one
    /// volume-generation dispatch submitted.
    pub fn new(width: u32, height: u32, camera: Camera, now_ns: u64) -> (r: (Self, DispatchRecord))
        requires
            width > 0,
            height > 0,
            camera.aspect_width == width,
            camera.aspect_height == height,
        ensures
            r.0.wf(),
            !r.0.exited,
            !r.0.focused,
            !r.0.mouse_dragged,
            r.0.context.width == width,
            r.0.context.height == height,
            r.0.context.camera == camera,
            r.0.context.start_ns == now_ns,
            r.0.context.submissions == 0,
            r.0.context.presents == 0,
            r.0.stage.volume_dispatches == 1,
            r.0.stage.raycast_dispatches == 0,
            r.0.stage.readbacks == 0,
            r.0.stage.trace@ == seq![StageOp::Seed],
            r.0.frame_counter.frame_count == 0,
            r.0.input == spec_input_zero(),
            r.1 == (DispatchRecord {
                groups_x: XOR_GROUPS,
                groups_y: XOR_GROUPS,
                groups_z: XOR_GROUPS,
            }),
    {
        let context = Context::new(width, height, camera, now_ns);
        let mut stage = XorStage::new();
        let mut bound: Vec<BindingSlot> = Vec::new();
        bound.push(BindingSlot::GlobalUniform);
        bound.push(BindingSlot::VolumeStorage);
        proof {
            assert(bound@ =~= spec_xor_slots());
        }
        let seed_record = stage.seed(&bound);
        proof {
            assert(stage.trace@ =~= seq![StageOp::Seed]);
        }
        let driver = Driver {
            context,
            stage,
            frame_counter: FrameCounter::new(now_ns),
            input: Input::new(),
            focused: false,
            mouse_dragged: false,
            exited: false,
        };
        (driver, seed_record)
    }

    /// The idle step before the loop blocks: updates and uploads the
    /// per-frame state, runs the profiling check — on every hundredth frame
    /// the shell hands in the mapped timestamp pair and receives the tick
    /// difference to report — and requests a redraw.
    pub fn about_to_wait(&mut self, now_ns: u64, ticks: Option<TimestampData>) -> (r: (
        DriverAction,
        Option<u64>,
    ))
        requires
            old(self).wf(),
            old(self).context.start_ns <= now_ns,
            i64::MIN < old(self).context.global_uniform.pos[0] < i64::MAX,
            i64::MIN < old(self).context.global_uniform.pos[1] < i64::MAX,
            i64::MIN < old(self).context.global_uniform.pos[2] < i64::MAX,
            old(self).context.uniform_uploads < u64::MAX,
            old(self).context.camera_uploads < u64::MAX,
            old(self).stage.readbacks < u64::MAX,
            spec_is_profile_frame(old(self).frame_counter.frame_count) ==> (ticks matches Some(t)
                && t.start <= t.end),
        ensures
            final(self).wf(),
            r.0 == DriverAction::RequestRedraw,
            final(self).context.global_uniform.frame == old(self).frame_counter.frame_count,
            final(self).context.global_uniform.time_ns == now_ns - old(self).context.start_ns,
            final(self).context.uploaded_uniform == final(self).context.global_uniform,
            final(self).context.uniform_uploads == old(self).context.uniform_uploads + 1,
            final(self).context.camera_uploads == old(self).context.camera_uploads + 1,
            spec_is_profile_frame(old(self).frame_counter.frame_count) ==> (ticks matches Some(d)
                && r.1 == Some((d.end - d.start) as u64)
                && final(self).stage.readbacks == old(self).stage.readbacks + 1
                && final(self).stage.trace@ == old(self).stage.trace@.push(StageOp::Profile)),
            !spec_is_profile_frame(old(self).frame_counter.frame_count) ==> r.1 is None
                && final(self).stage == old(self).stage,
            final(self).stage.volume_dispatches == 1,
            final(self).stage.raycast_dispatches == old(self).stage.raycast_dispatches,
            final(self).frame_counter == old(self).frame_counter,
            final(self).input == old(self).input,
            final(self).focused == old(self).focused,
            final(self).mouse_dragged == old(self).mouse_dragged,
            final(self).exited == old(self).exited,
            final(self).context.width == old(self).context.width,
            final(self).context.height == old(self).context.height,
            final(self).context.camera == old(self).context.camera,
            final(self).context.render_backbuffer == old(self).context.render_backbuffer,
            final(self).context.submissions == old(self).context.submissions,
            final(self).context.presents == old(self).context.presents,
    {
        self.context.update(&self.frame_counter, &self.input, now_ns);
        let frame = self.context.global_uniform.frame;
        let profiled: Option<u64> = if self.stage.should_profile(frame) {
            match ticks {
                Some(data) => Some(self.stage.profile(data)),
                None => None,
            }
        } else {
            None
        };
        (DriverAction::RequestRedraw, profiled)
    }

    /// One redraw: records a frame-timing sample, submits the raycast
    /// dispatch over the HDR target, then renders and presents. A lost
    /// surface is reconfigured at the current size and a redraw requested;
    /// out-of-memory exits the loop; any other presentation error is logged
    /// by the shell and a redraw requested.
    pub fn redraw_requested(&mut self, now_ns: u64, acquire: Result<(), SurfaceError>) -> (r: (
        DriverAction,
        RaycastRecord,
        Option<FrameSubmission>,
    ))
        requires
            old(self).wf(),
            old(self).frame_counter.last_sample_ns <= now_ns,
            old(self).frame_counter.frame_count < u32::MAX,
            old(self).stage.raycast_dispatches < u64::MAX,
            old(self).context.submissions < u64::MAX,
            old(self).context.presents < u64::MAX,
        ensures
            final(self).wf(),
            final(self).frame_counter.frame_count == old(self).frame_counter.frame_count + 1,
            final(self).stage.raycast_dispatches == old(self).stage.raycast_dispatches + 1,
            final(self).stage.volume_dispatches == 1,
            final(self).stage.readbacks == old(self).stage.readbacks,
            final(self).stage.trace@ == old(self).stage.trace@.push(StageOp::Raycast),
            r.1.groups_x == spec_dispatch_count(
                old(self).context.render_backbuffer.width as int,
                RAYCAST_TILE as int,
            ),
            r.1.groups_y == spec_dispatch_count(
                old(self).context.render_backbuffer.height as int,
                RAYCAST_TILE as int,
            ),
            r.1.groups_z == 1,
            r.1.timestamp_start_index == 0,
            r.1.timestamp_end_index == 1,
            final(self).input == old(self).input,
            final(self).focused == old(self).focused,
            final(self).mouse_dragged == old(self).mouse_dragged,
            (match acquire {
                Ok(_) => {
                    &&& r.0 == DriverAction::Proceed
                    &&& !final(self).exited == !old(self).exited
                    &&& r.2 == Some(
                        FrameSubmission {
                            surface_width: old(self).context.width,
                            surface_height: old(self).context.height,
                            copy_width: old(self).context.rgb_texture.width,
                            copy_height: old(self).context.rgb_texture.height,
                            vertices: 3,
                            color_attachments: 2,
                            cleared: true,
                        },
                    )
                    &&& final(self).context == (Context {
                        submissions: (old(self).context.submissions + 1) as u64,
                        presents: (old(self).context.presents + 1) as u64,
                        ..old(self).context
                    })
                },
                Err(SurfaceError::OutOfMemory) => {
                    &&& r.0 == DriverAction::Exit
                    &&& final(self).exited
                    &&& r.2 is None
                    &&& final(self).context == old(self).context
                },
                Err(_) => {
                    &&& r.0 == DriverAction::RequestRedraw
                    &&& final(self).exited == old(self).exited
                    &&& r.2 is None
                    &&& final(self).context == old(self).context
                },
            }),
    {
        self.frame_counter.record(now_ns);
        let mut bound: Vec<BindingSlot> = Vec::new();
        bound.push(BindingSlot::GlobalUniform);
        bound.push(BindingSlot::Camera);
        bound.push(BindingSlot::VolumeStorage);
        bound.push(BindingSlot::HdrStorage);
        proof {
            assert(bound@ =~= spec_raycast_slots());
        }
        let rec = self.stage.render(&self.context.render_backbuffer, &bound);
        let (action, submission) = match self.context.render(acquire) {
            Ok(sub) => (DriverAction::Proceed, Some(sub)),
            Err(SurfaceError::Lost) => {
                let width = self.context.width;
                let height = self.context.height;
                self.context.resize(width, height);
                proof {
                    assert(self.context =~= old(self).context);
                }
                (DriverAction::RequestRedraw, None)
            },
            Err(SurfaceError::OutOfMemory) => {
                self.exited = true;
                (DriverAction::Exit, None)
            },
            Err(_) => (DriverAction::RequestRedraw, None),
        };
        (action, rec, submission)
    }

    /// Tracks whether the renderer's window has focus; device-level mouse
    /// events are ignored without it.
    pub fn focus_changed(&mut self, focused: bool)
        ensures
            *final(self) == (Driver { focused, ..*old(self) }),
    {
        self.focused = focused;
    }

    /// A close request or the escape key: the loop terminates.
    pub fn exit_requested(&mut self)
        ensures
            *final(self) == (Driver { exited: true, ..*old(self) }),
    {
        self.exited = true;
    }

    /// Folds a window input event — key, cursor or mouse button — into the
    /// input snapshot, normalizing cursor positions against the current
    /// window size. Nothing else moves.
    pub fn window_input(&mut self, event: &InputEvent) -> (handled: bool)
        requires
            old(self).wf(),
            *event matches InputEvent::CursorMoved { x, y } ==> x <= old(self).context.width && y
                <= old(self).context.height,
        ensures
            final(self).wf(),
            *final(self) == (Driver { input: final(self).input, ..*old(self) }),
            (match *event {
                InputEvent::Key { key, pressed } => final(self).input == spec_key_update(
                    old(self).input,
                    key,
                    pressed,
                ) && handled == (key != crate::input::KeyId::Other),
                InputEvent::CursorMoved { x, y } => handled && final(self).input == (Input {
                    mouse_position: [
                        spec_norm_x(x as int, old(self).context.width as int) as i32,
                        spec_norm_y(y as int, old(self).context.height as int) as i32,
                    ],
                    ..old(self).input
                }),
                InputEvent::MouseLeft { pressed } => handled && final(self).input == (Input {
                    left_mouse_pressed: pressed,
                    ..old(self).input
                }),
                InputEvent::Other => handled && final(self).input == old(self).input,
            }),
    {
        let width = self.context.width;
        let height = self.context.height;
        self.input.update(event, width, height)
    }

    /// A window resize: applied only with two non-zero dimensions, and then
    /// exactly the context's resize protocol. The HDR back buffer never
    /// changes.
    pub fn window_resized(&mut self, width: u32, height: u32)
        requires
            old(self).wf(),
        ensures
            final(self).wf(),
            final(self).context == spec_resize(old(self).context, width, height),
            final(self).context.render_backbuffer == old(self).context.render_backbuffer,
            *final(self) == (Driver { context: final(self).context, ..*old(self) }),
    {
        if width != 0 && height != 0 {
            self.context.resize(width, height);
        }
    }

    /// A device-level primary-button event: while the window is focused it
    /// starts or ends a camera drag.
    pub fn mouse_button(&mut self, pressed: bool)
        ensures
            old(self).focused ==> *final(self) == (Driver {
                mouse_dragged: pressed,
                ..*old(self)
            }),
            !old(self).focused ==> *final(self) == *old(self),
    {
        if self.focused {
            self.mouse_dragged = pressed;
        }
    }

    /// A scroll event, already scaled to zoom micro-units by the shell:
    /// while the window is focused the camera distance moves by its
    /// negation, so scrolling up zooms in. No clamp is applied.
    pub fn mouse_wheel(&mut self, delta: i64)
        requires
            old(self).wf(),
            delta > i64::MIN,
            old(self).focused ==> i64::MIN <= old(self).context.camera.distance - delta
                <= i64::MAX,
        ensures
            final(self).wf(),
            old(self).focused ==> *final(self) == (Driver {
                context: (Context {
                    camera: (Camera {
                        distance: (old(self).context.camera.distance - delta) as i64,
                        ..old(self).context.camera
                    }),
                    ..old(self).context
                }),
                ..*old(self)
            }),
            !old(self).focused ==> *final(self) == *old(self),
    {
        if self.focused {
            self.context.camera.add_zoom(-delta);
        }
    }

    /// A mouse-motion event, already scaled to rotation micro-units by the
    /// shell: while dragging with focus, yaw moves by the negated horizontal
    /// delta and pitch by the vertical delta. No clamp is applied.
    pub fn mouse_motion(&mut self, dx: i64, dy: i64)
        requires
            old(self).wf(),
            dx > i64::MIN,
            old(self).focused && old(self).mouse_dragged ==> i64::MIN
                <= old(self).context.camera.yaw - dx <= i64::MAX,
            old(self).focused && old(self).mouse_dragged ==> i64::MIN
                <= old(self).context.camera.pitch + dy <= i64::MAX,
        ensures
            final(self).wf(),
            old(self).focused && old(self).mouse_dragged ==> *final(self) == (Driver {
                context: (Context {
                    camera: (Camera {
                        yaw: (old(self).context.camera.yaw - dx) as i64,
                        pitch: (old(self).context.camera.pitch + dy) as i64,
                        ..old(self).context.camera
                    }),
                    ..old(self).context
                }),
                ..*old(self)
            }),
            !(old(self).focused && old(self).mouse_dragged) ==> *final(self) == *old(self),
    {
        if self.focused && self.mouse_dragged {
            self.context.camera.add_yaw(-dx);
            self.context.camera.add_pitch(dy);
        }
    }
}

} // verus!
