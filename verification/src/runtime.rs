//! The per-frame runtime: a state machine that, once per scheduled frame,
//! runs resize detection, drains the event queue front to back, folds the
//! drained events into the camera and the key tracker, derives movement from
//! the held keys and the elapsed time, and applies it to the camera. The
//! host's scheduling glue calls `tick` once per frame and submits one draw
//! from the camera state it leaves behind; after `cleanup` no tick does
//! anything.

use vstd::prelude::*;
use crate::camera::{
    camera_after_mouse, camera_after_move, camera_with_aspect, Camera, MAX_MOVE_MICRO,
};
use crate::event::{after_detect, expected_size_spec, Event, EventQueue, KeyTracker, KeyboardKey};

verus! {

/// The movement speed: half a unit per second, in micro-units per second.
pub const SPEED_MICRO_PER_SEC: i64 = 500000;

/// Microseconds in a second.
pub const MICROS_PER_SEC: u64 = 1000000;

/// The lifecycle of the runtime. A runtime is ready once constructed, running
/// from its first frame on, and terminated after cleanup, when no further
/// frame executes.
#[derive(Clone, Copy, PartialEq, Eq, Structural, Debug)]
pub enum Phase {
    Ready,
    Running,
    Terminated,
}

/// A frame-submission failure reported by the graphics backend.
#[derive(Clone, Copy, PartialEq, Eq, Structural, Debug)]
pub enum SurfaceIssue {
    Lost,
    Outdated,
    Timeout,
    OutOfMemory,
    Other,
}

/// What the runtime does about a frame-submission failure. It never
/// terminates the loop: a lost or outdated surface is reconfigured and the
/// frame retried on the next schedule; anything else drops the one frame.
#[derive(Clone, Copy, PartialEq, Eq, Structural, Debug)]
pub enum FrameRecovery {
    ReconfigureSurface,
    SkipFrame,
}

/// The recovery that a frame-submission failure calls for: reconfigure on a
/// lost or outdated surface, drop the frame otherwise. No failure terminates
/// the frame loop.
pub fn recovery_action(issue: SurfaceIssue) -> (r: FrameRecovery)
    ensures
        r == (match issue {
            SurfaceIssue::Lost => FrameRecovery::ReconfigureSurface,
            SurfaceIssue::Outdated => FrameRecovery::ReconfigureSurface,
            _ => FrameRecovery::SkipFrame,
        }),
{
    match issue {
        SurfaceIssue::Lost => FrameRecovery::ReconfigureSurface,
        SurfaceIssue::Outdated => FrameRecovery::ReconfigureSurface,
        _ => FrameRecovery::SkipFrame,
    }
}

/// The camera after folding a sequence of events in order: mouse motion turns
/// it, a resize re-derives its aspect, key events leave it alone.
pub open spec fn camera_after_events(cam: Camera, evs: Seq<Event>) -> Camera
    decreases evs.len(),
{
    if evs.len() == 0 {
        cam
    } else {
        let prev = camera_after_events(cam, evs.drop_last());
        match evs.last() {
            Event::MouseMove(m) => camera_after_mouse(prev, m.movement_x as int, m.movement_y as int),
            Event::CanvasResize(d) => camera_with_aspect(prev, d.new_width, d.new_height),
            _ => prev,
        }
    }
}

/// The surface reconfigurations that a sequence of events calls for, in
/// order: one per resize event whose dimensions are both positive; a resize
/// report with a zero dimension is ignored.
pub open spec fn resize_requests(evs: Seq<Event>) -> Seq<(u32, u32)>
    decreases evs.len(),
{
    if evs.len() == 0 {
        Seq::empty()
    } else {
        let rest = resize_requests(evs.drop_last());
        match evs.last() {
            Event::CanvasResize(d) => if d.new_width >= 1 && d.new_height >= 1 {
                rest.push((d.new_width, d.new_height))
            } else {
                rest
            },
            _ => rest,
        }
    }
}

/// Whether a key is held after folding a sequence of events in order over a
/// tracker's state: the latest key event for the key decides; with none, the
/// tracker decides.
pub open spec fn key_held_after(t: KeyTracker, evs: Seq<Event>, k: KeyboardKey) -> bool
    decreases evs.len(),
{
    if evs.len() == 0 {
        t.key_state(k)
    } else {
        match evs.last() {
            Event::KeyDown(d) => if d.key == k {
                true
            } else {
                key_held_after(t, evs.drop_last(), k)
            },
            Event::KeyUp(d) => if d.key == k {
                false
            } else {
                key_held_after(t, evs.drop_last(), k)
            },
            _ => key_held_after(t, evs.drop_last(), k),
        }
    }
}

/// A movement axis from its two opposing keys.
pub open spec fn axis_value(positive: bool, negative: bool) -> int {
    (if positive {
        1int
    } else {
        0int
    }) - (if negative {
        1int
    } else {
        0int
    })
}

/// The movement magnitude of a frame: speed times elapsed time, capped at the
/// largest single-step delta.
pub open spec fn move_magnitude(dt_micros: int) -> int {
    let raw = (SPEED_MICRO_PER_SEC as int) * dt_micros / (MICROS_PER_SEC as int);
    if raw > MAX_MOVE_MICRO {
        MAX_MOVE_MICRO as int
    } else {
        raw
    }
}

/// The forward axis after a drain: the 'w' key against the 's' key.
pub open spec fn forward_axis(t: KeyTracker, evs: Seq<Event>) -> int {
    axis_value(
        key_held_after(t, evs, KeyboardKey::Character('w')),
        key_held_after(t, evs, KeyboardKey::Character('s')),
    )
}

/// The right axis after a drain: the 'd' key against the 'a' key.
pub open spec fn right_axis(t: KeyTracker, evs: Seq<Event>) -> int {
    axis_value(
        key_held_after(t, evs, KeyboardKey::Character('d')),
        key_held_after(t, evs, KeyboardKey::Character('a')),
    )
}

/// The up axis after a drain: the space key against the shift key.
pub open spec fn up_axis(t: KeyTracker, evs: Seq<Event>) -> int {
    axis_value(
        key_held_after(t, evs, KeyboardKey::Character(' ')),
        key_held_after(t, evs, KeyboardKey::Shift),
    )
}

/// What one frame hands back to the host's scheduling glue: the surface
/// reconfigurations to apply in order, and the frame's elapsed time. The draw
/// itself is submitted by the host from the runtime's camera state.
pub struct FrameOutput {
    pub resizes: Vec<(u32, u32)>,
    pub dt_micros: u64,
}

/// The per-frame owner of all simulation state.
pub struct Runtime {
    pub camera: Camera,
    pub keyboard: KeyTracker,
    pub queue: EventQueue,
    pub frames: u128,
    pub last_frame_micros: u64,
    pub phase: Phase,
}

impl Runtime {
    /// A ready runtime around a camera and a canvas of the given size. The
    /// session start stands in for the previous frame's timestamp, so the
    /// first frame sees no spurious elapsed time.
    pub fn new(camera: Camera, canvas_width: u32, canvas_height: u32, start_micros: u64) -> (rt:
        Runtime)
        requires
            camera.wf(),
        ensures
            rt.camera == camera,
            forall|k: KeyboardKey| !(#[trigger] rt.keyboard.key_state(k)),
            rt.queue.events@.len() == 0,
            rt.queue.canvas_width == canvas_width,
            rt.queue.canvas_height == canvas_height,
            rt.frames == 0,
            rt.last_frame_micros == start_micros,
            rt.phase == Phase::Ready,
    {
        Runtime {
            camera,
            keyboard: KeyTracker::new(),
            queue: EventQueue::new(canvas_width, canvas_height),
            frames: 0,
            last_frame_micros: start_micros,
            phase: Phase::Ready,
        }
    }

    /// Folds one event into the state: key events into the key tracker, mouse
    /// motion and resizes into the camera. A resize whose dimensions are both
    /// positive is returned so the host reconfigures its surface; everything
    /// else returns nothing.
    pub fn handle_event(&mut self, event: Event) -> (resize: Option<(u32, u32)>)
        requires
            old(self).camera.wf(),
        ensures
            final(self).queue == old(self).queue,
            final(self).frames == old(self).frames,
            final(self).last_frame_micros == old(self).last_frame_micros,
            final(self).phase == old(self).phase,
            final(self).camera == camera_after_events(old(self).camera, seq![event]),
            final(self).camera.wf(),
            forall|k: KeyboardKey| #[trigger]
                final(self).keyboard.key_state(k) == key_held_after(
                    old(self).keyboard,
                    seq![event],
                    k,
                ),
            resize == (match event {
                Event::CanvasResize(d) => if d.new_width >= 1 && d.new_height >= 1 {
                    Some((d.new_width, d.new_height))
                } else {
                    None
                },
                _ => None,
            }),
    {
        proof {
            assert(seq![event].drop_last() =~= Seq::<Event>::empty());
            assert(seq![event].last() == event);
            assert(camera_after_events(old(self).camera, Seq::<Event>::empty())
                == old(self).camera);
        }
        let r = match event {
            Event::CanvasResize(d) => {
                if d.new_width >= 1 && d.new_height >= 1 {
                    self.camera.set_aspect(d.new_width, d.new_height);
                    Some((d.new_width, d.new_height))
                } else {
                    proof {
                        assert(camera_with_aspect(self.camera, d.new_width, d.new_height)
                            == self.camera);
                    }
                    None
                }
            },
            Event::MouseMove(m) => {
                self.camera.apply_mouse(m.movement_x, m.movement_y);
                None
            },
            Event::KeyDown(d) => {
                self.keyboard.set_key_down(d.key);
                None
            },
            Event::KeyUp(d) => {
                self.keyboard.set_key_up(d.key);
                None
            },
            _ => None,
        };
        proof {
            assert forall|k: KeyboardKey| #[trigger]
                self.keyboard.key_state(k) == key_held_after(old(self).keyboard, seq![event], k) by {
                assert(key_held_after(old(self).keyboard, Seq::<Event>::empty(), k) == old(
                    self,
                ).keyboard.key_state(k));
            };
        }
        r
    }

    /// Runs one frame at the given timestamp, with the canvas client size the
    /// host reports: detects a resize, drains the whole queue in order, folds
    /// every drained event, derives movement from the held keys over the
    /// elapsed time, and applies it. Returns the frame's output, or nothing
    /// after cleanup, when no frame may run.
    pub fn tick(&mut self, now_micros: u64, client_width: i32, client_height: i32) -> (out: Option<
        FrameOutput,
    >)
        requires
            old(self).camera.wf(),
        ensures
            old(self).phase == Phase::Terminated ==> out is None && *final(self) == *old(self),
            old(self).phase != Phase::Terminated ==> ({
                let drained = after_detect(old(self).queue, client_width, client_height);
                let dt = if now_micros >= old(self).last_frame_micros {
                    now_micros - old(self).last_frame_micros
                } else {
                    0
                };
                let folded = camera_after_events(old(self).camera, drained);
                let mag = move_magnitude(dt as int);
                &&& out is Some
                &&& out->0.dt_micros == dt
                &&& out->0.resizes@ == resize_requests(drained)
                &&& final(self).phase == Phase::Running
                &&& final(self).frames == (if old(self).frames < u128::MAX {
                    old(self).frames + 1
                } else {
                    old(self).frames as int
                })
                &&& final(self).last_frame_micros == now_micros
                &&& final(self).queue.events@.len() == 0
                &&& (final(self).queue.canvas_width, final(self).queue.canvas_height)
                    == expected_size_spec(client_width, client_height)
                &&& forall|k: KeyboardKey| #[trigger]
                    final(self).keyboard.key_state(k) == key_held_after(
                        old(self).keyboard,
                        drained,
                        k,
                    )
                &&& final(self).camera == camera_after_move(
                    folded,
                    forward_axis(old(self).keyboard, drained) * mag,
                    right_axis(old(self).keyboard, drained) * mag,
                    up_axis(old(self).keyboard, drained) * mag,
                )
                &&& final(self).camera.wf()
            }),
    {
        if self.phase == Phase::Terminated {
            return None;
        }
        let ghost cam0 = self.camera;
        let ghost kb0 = self.keyboard;

        let dt_micros = if now_micros >= self.last_frame_micros {
            now_micros - self.last_frame_micros
        } else {
            0
        };
        self.last_frame_micros = now_micros;

        self.queue.detect_resize(client_width, client_height);
        let ghost drained = self.queue.events@;

        let mut resizes: Vec<(u32, u32)> = Vec::new();
        let ghost mut done: int = 0;
        proof {
            assert(drained.subrange(0, 0) =~= Seq::<Event>::empty());
            assert(drained.subrange(0, drained.len() as int) =~= drained);
        }
        loop
            invariant
                0 <= done <= drained.len(),
                self.queue.events@ == drained.subrange(done, drained.len() as int),
                self.queue.canvas_width == expected_size_spec(client_width, client_height).0,
                self.queue.canvas_height == expected_size_spec(client_width, client_height).1,
                self.camera == camera_after_events(cam0, drained.subrange(0, done)),
                self.camera.wf(),
                forall|k: KeyboardKey| #[trigger]
                    self.keyboard.key_state(k) == key_held_after(
                        kb0,
                        drained.subrange(0, done),
                        k,
                    ),
                resizes@ == resize_requests(drained.subrange(0, done)),
                self.frames == old(self).frames,
                self.last_frame_micros == now_micros,
                self.phase == old(self).phase,
            ensures
                self.queue.events@.len() == 0,
                self.queue.canvas_width == expected_size_spec(client_width, client_height).0,
                self.queue.canvas_height == expected_size_spec(client_width, client_height).1,
                self.camera == camera_after_events(cam0, drained),
                self.camera.wf(),
                forall|k: KeyboardKey| #[trigger]
                    self.keyboard.key_state(k) == key_held_after(kb0, drained, k),
                resizes@ == resize_requests(drained),
                self.frames == old(self).frames,
                self.last_frame_micros == now_micros,
                self.phase == old(self).phase,
            decreases drained.len() - done,
        {
            let next = self.queue.pop();
            match next {
                None => {
                    proof {
                        assert(drained.subrange(done, drained.len() as int).len() == 0);
                        assert(done == drained.len());
                        assert(drained.subrange(0, done) =~= drained);
                    }
                    break;
                },
                Some(ev) => {
                    proof {
                        assert(drained.subrange(done, drained.len() as int)[0] == drained[done]);
                        assert(drained.subrange(done, drained.len() as int).drop_first()
                            =~= drained.subrange(done + 1, drained.len() as int));
                        assert(drained.subrange(0, done + 1).drop_last() =~= drained.subrange(
                            0,
                            done,
                        ));
                        assert(drained.subrange(0, done + 1).last() == drained[done]);
                    }
                    let ghost pre_keys = self.keyboard;
                    let ghost pre_cam = self.camera;
                    let r = self.handle_event(ev);
                    if let Some(dims) = r {
                        resizes.push(dims);
                    }
                    proof {
                        done = done + 1;
                        let pre = drained.subrange(0, done - 1);
                        let cur = drained.subrange(0, done);
                        assert(cur.drop_last() =~= pre);
                        assert(cur.last() == ev);
                        assert(seq![ev].drop_last() =~= Seq::<Event>::empty());
                        assert(seq![ev].last() == ev);
                        assert(pre_cam == camera_after_events(cam0, pre));
                        assert(camera_after_events(pre_cam, Seq::<Event>::empty()) == pre_cam);
                        assert(self.camera == camera_after_events(pre_cam, seq![ev]));
                        assert(self.camera == camera_after_events(cam0, cur));
                        assert(resizes@ == resize_requests(cur));
                        assert forall|k: KeyboardKey| #[trigger]
                            self.keyboard.key_state(k) == key_held_after(kb0, cur, k) by {
                            assert(self.keyboard.key_state(k) == key_held_after(
                                pre_keys,
                                seq![ev],
                                k,
                            ));
                            assert(key_held_after(pre_keys, Seq::<Event>::empty(), k)
                                == pre_keys.key_state(k));
                            assert(pre_keys.key_state(k) == key_held_after(kb0, pre, k));
                        };
                    }
                },
            }
        }

        proof {
            assert(drained.subrange(0, drained.len() as int) =~= drained);
        }
        let w = self.keyboard.is_key_down(KeyboardKey::Character('w'));
        let s = self.keyboard.is_key_down(KeyboardKey::Character('s'));
        let d = self.keyboard.is_key_down(KeyboardKey::Character('d'));
        let a = self.keyboard.is_key_down(KeyboardKey::Character('a'));
        let space = self.keyboard.is_key_down(KeyboardKey::Character(' '));
        let shift = self.keyboard.is_key_down(KeyboardKey::Shift);

        let mag = move_magnitude_exec(dt_micros);
        let fa = axis_exec(w, s);
        let ra = axis_exec(d, a);
        let ua = axis_exec(space, shift);
        proof {
            assert(-MAX_MOVE_MICRO <= (fa as int) * (mag as int) <= MAX_MOVE_MICRO
                && -MAX_MOVE_MICRO <= (ra as int) * (mag as int) <= MAX_MOVE_MICRO
                && -MAX_MOVE_MICRO <= (ua as int) * (mag as int) <= MAX_MOVE_MICRO)
                by (nonlinear_arith)
                requires
                    -1 <= (fa as int) <= 1,
                    -1 <= (ra as int) <= 1,
                    -1 <= (ua as int) <= 1,
                    0 <= (mag as int) <= MAX_MOVE_MICRO as int,
            ;
        }
        let df = fa * mag;
        let dr = ra * mag;
        let du = ua * mag;
        self.camera.do_move(df, dr, du);

        if self.frames < u128::MAX {
            self.frames = self.frames + 1;
        }
        self.phase = Phase::Running;
        Some(FrameOutput { resizes, dt_micros })
    }

    /// Releases the runtime's claim on frame scheduling: after this, `tick`
    /// does nothing and no further frame executes.
    pub fn cleanup(&mut self)
        ensures
            final(self).phase == Phase::Terminated,
            final(self).camera == old(self).camera,
            final(self).keyboard == old(self).keyboard,
            final(self).queue == old(self).queue,
            final(self).frames == old(self).frames,
            final(self).last_frame_micros == old(self).last_frame_micros,
    {
        self.phase = Phase::Terminated;
    }
}

fn axis_exec(positive: bool, negative: bool) -> (r: i64)
    ensures
        r == axis_value(positive, negative),
        -1 <= r <= 1,
{
    let p: i64 = if positive {
        1
    } else {
        0
    };
    let n: i64 = if negative {
        1
    } else {
        0
    };
    p - n
}

fn move_magnitude_exec(dt_micros: u64) -> (mag: i64)
    ensures
        mag == move_magnitude(dt_micros as int),
        0 <= mag <= MAX_MOVE_MICRO,
{
    let raw = (SPEED_MICRO_PER_SEC as u128) * (dt_micros as u128) / (MICROS_PER_SEC as u128);
    proof {
        vstd::arithmetic::div_mod::lemma_div_pos_is_pos(
            (SPEED_MICRO_PER_SEC as int) * (dt_micros as int),
            MICROS_PER_SEC as int,
        );
        assert(0 <= (SPEED_MICRO_PER_SEC as int) * (dt_micros as int)) by (nonlinear_arith)
            requires
                0 <= dt_micros as int,
                SPEED_MICRO_PER_SEC == 500000i64,
        ;
        assert((SPEED_MICRO_PER_SEC as int) * (dt_micros as int) <= 500000 * 0xffff_ffff_ffff_ffff)
            by (nonlinear_arith)
            requires
                0 <= dt_micros as int <= 0xffff_ffff_ffff_ffff,
                SPEED_MICRO_PER_SEC == 500000i64,
        ;
    }
    if raw > (MAX_MOVE_MICRO as u128) {
        MAX_MOVE_MICRO
    } else {
        raw as i64
    }
}

} // verus!
