//! The orbit-camera controller: a camera held on a sphere around a focus
//! point. Scroll input zooms the sphere's radius (clamped to a floor), and
//! each frame contributes a yaw/pitch rotation derived from the per-frame
//! rotation input and the viewport size.
//!
//! Angles and distances are fixed-point scalars ([`crate::fixed::Fx`],
//! millionths of a unit), so every contract below pins the result to the
//! exact raw count.

use vstd::prelude::*;
use crate::fixed::{Fx, mul_raw, trunc_div, lemma_mul_raw_bound, lemma_trunc_div_bound};

verus! {

/// Radius floor, raw counts: 0.05 units. Zooming never goes below it.
pub const MIN_RADIUS: i64 = 50_000;

/// Zoom sensitivity, raw counts: 0.2. One scroll unit shrinks the radius
/// by a fifth of its current value.
pub const ZOOM_SENSITIVITY: i64 = 200_000;

/// Bootstrap radius, raw counts: 55 units.
pub const INITIAL_RADIUS: i64 = 55_000_000;

/// Auto-rotation rate, raw counts: 120 input units per second.
pub const AUTO_ROTATE_RATE: i64 = 120_000_000;

/// One full turn (two pi radians) in millionths of a radian.
pub const TAU_FX: i64 = 6_283_185;

/// Pitch angle factor: pitch is twice as sensitive per pixel as yaw.
pub const PITCH_FACTOR: i64 = 2 * TAU_FX;

/// Magnitude cap on one scroll event or frame input, raw counts
/// (a million units): keeps per-frame sums inside the machine range.
pub const FX_LIMIT: i64 = 1_000_000_000_000;

/// Cap on scroll events drained in one frame.
pub const MAX_SCROLL_EVENTS: usize = 1_000_000;

/// Cap on one frame's elapsed time, raw counts: an hour.
pub const MAX_FRAME_DT: i64 = 3_600_000_000;

/// A 2D fixed-point vector: the per-frame rotation input.
#[derive(Clone, Copy, PartialEq, Eq, Structural, Debug)]
pub struct Vec2Fx {
    pub x: Fx,
    pub y: Fx,
}

/// A 3D fixed-point point: the orbit's focus.
#[derive(Clone, Copy, PartialEq, Eq, Structural, Debug)]
pub struct Vec3Fx {
    pub x: Fx,
    pub y: Fx,
    pub z: Fx,
}

impl Vec3Fx {
    /// The origin.
    pub fn origin() -> (r: Vec3Fx)
        ensures
            r.x.raw == 0 && r.y.raw == 0 && r.z.raw == 0,
    {
        Vec3Fx { x: Fx { raw: 0 }, y: Fx { raw: 0 }, z: Fx { raw: 0 } }
    }
}

/// The persistent orbit parameters, mutated once per frame.
#[derive(Clone, Copy, PartialEq, Eq, Structural, Debug)]
pub struct PanOrbitCamera {
    /// The point the camera always looks at; never mutated by the update.
    pub focus: Vec3Fx,
    /// Distance from focus to camera; always at least [`MIN_RADIUS`].
    pub radius: Fx,
    /// Flips the yaw sign when the camera's up vector has inverted.
    pub upside_down: bool,
}

impl PanOrbitCamera {
    /// A state is well formed when its radius is at or above the floor.
    pub open spec fn wf(self) -> bool {
        self.radius.raw >= MIN_RADIUS
    }
}

impl Default for PanOrbitCamera {
    /// The bootstrap state: focus at the origin, radius 55 units, right
    /// side up.
    fn default() -> (cam: PanOrbitCamera)
        ensures
            cam.focus.x.raw == 0 && cam.focus.y.raw == 0 && cam.focus.z.raw == 0,
            cam.radius.raw == INITIAL_RADIUS,
            !cam.upside_down,
            cam.wf(),
    {
        PanOrbitCamera {
            focus: Vec3Fx::origin(),
            radius: Fx { raw: INITIAL_RADIUS },
            upside_down: false,
        }
    }
}

/// What one frame's zoom does to the radius: no scroll leaves it alone;
/// any scroll shrinks it in proportion to its current value, then clamps
/// it to the floor.
pub open spec fn zoom_step(radius: int, scroll: int) -> int {
    if scroll != 0 {
        vstd::math::max(
            radius - mul_raw(mul_raw(scroll, radius), ZOOM_SENSITIVITY as int),
            MIN_RADIUS as int,
        )
    } else {
        radius
    }
}

/// The unsigned yaw angle for this frame: the horizontal rotation input,
/// spread over the viewport width, scaled to a full turn per width.
pub open spec fn yaw_base(rm_x: int, width: int) -> int {
    mul_raw(trunc_div(rm_x, width), TAU_FX as int)
}

/// The yaw angle for this frame, negated when the camera is upside down.
pub open spec fn yaw_delta(rm_x: int, width: int, upside_down: bool) -> int {
    if upside_down {
        -yaw_base(rm_x, width)
    } else {
        yaw_base(rm_x, width)
    }
}

/// The pitch angle for this frame: the vertical rotation input, spread
/// over the viewport height, twice as sensitive per pixel as yaw.
pub open spec fn pitch_delta(rm_y: int, height: int) -> int {
    mul_raw(trunc_div(rm_y, height), PITCH_FACTOR as int)
}

/// Rotation runs only on a nonzero rotation input and a non-degenerate
/// viewport; a zero-sized viewport skips rotation for the frame.
pub open spec fn rotation_applies(rm: Vec2Fx, width: u32, height: u32) -> bool {
    (rm.x.raw != 0 || rm.y.raw != 0) && width > 0 && height > 0
}

/// The rotation the caller must apply to the camera transform this frame:
/// when `rotate` holds, yaw about the world vertical axis by
/// `-delta_yaw`, then pitch about the camera's local right axis by
/// `-delta_pitch`, and re-place the camera `radius` away from the focus.
#[derive(Clone, Copy, PartialEq, Eq, Structural, Debug)]
pub struct FrameRotation {
    pub rotate: bool,
    pub delta_yaw: Fx,
    pub delta_pitch: Fx,
}

/// One frame of the orbit update: zoom the radius by `scroll`, then derive
/// the frame's yaw and pitch from `rotation_move` and the viewport.
///
/// The `requires` only keep each intermediate product inside the machine
/// range; any input within those limits is accepted.
pub fn orbit_update_step(
    cam: &mut PanOrbitCamera,
    rotation_move: Vec2Fx,
    scroll: Fx,
    width: u32,
    height: u32,
) -> (step: FrameRotation)
    requires
        scroll.raw != 0 ==> i64::MIN
            <= mul_raw(scroll.raw as int, old(cam).radius.raw as int) <= i64::MAX,
        scroll.raw != 0 ==> i64::MIN <= old(cam).radius.raw - mul_raw(
            mul_raw(scroll.raw as int, old(cam).radius.raw as int),
            ZOOM_SENSITIVITY as int,
        ) <= i64::MAX,
        rotation_applies(rotation_move, width, height) ==> i64::MIN
            < yaw_base(rotation_move.x.raw as int, width as int) <= i64::MAX,
        rotation_applies(rotation_move, width, height) ==> i64::MIN
            <= pitch_delta(rotation_move.y.raw as int, height as int) <= i64::MAX,
    ensures
        final(cam).focus == old(cam).focus,
        final(cam).upside_down == old(cam).upside_down,
        final(cam).radius.raw == zoom_step(old(cam).radius.raw as int, scroll.raw as int),
        scroll.raw != 0 ==> final(cam).radius.raw >= MIN_RADIUS,
        old(cam).wf() ==> final(cam).wf(),
        step.rotate == rotation_applies(rotation_move, width, height),
        step.rotate ==> step.delta_yaw.raw == yaw_delta(
            rotation_move.x.raw as int,
            width as int,
            old(cam).upside_down,
        ),
        step.rotate ==> step.delta_pitch.raw == pitch_delta(
            rotation_move.y.raw as int,
            height as int,
        ),
        !step.rotate ==> step.delta_yaw.raw == 0 && step.delta_pitch.raw == 0,
        scroll.raw == 0 && rotation_move.x.raw == 0 && rotation_move.y.raw == 0
            ==> *final(cam) == *old(cam) && !step.rotate,
{
    if scroll.raw != 0 {
        let scaled = scroll.mul_scaled(cam.radius);
        proof {
            lemma_mul_raw_bound(
                scaled.raw as int,
                ZOOM_SENSITIVITY as int,
                0x8000_0000_0000_0000,
                ZOOM_SENSITIVITY as int,
            );
        }
        let shrink = scaled.mul_scaled(Fx { raw: ZOOM_SENSITIVITY });
        let lowered = cam.radius.sub(shrink);
        cam.radius = lowered.max_with(Fx { raw: MIN_RADIUS });
    }
    if (rotation_move.x.raw != 0 || rotation_move.y.raw != 0) && width > 0 && height > 0 {
        let yaw_spread = rotation_move.x.div_int(width as i64);
        let yaw_unsigned = yaw_spread.mul_scaled(Fx { raw: TAU_FX });
        let delta_yaw = if cam.upside_down {
            yaw_unsigned.neg()
        } else {
            yaw_unsigned
        };
        let pitch_spread = rotation_move.y.div_int(height as i64);
        let delta_pitch = pitch_spread.mul_scaled(Fx { raw: PITCH_FACTOR });
        FrameRotation { rotate: true, delta_yaw, delta_pitch }
    } else {
        FrameRotation { rotate: false, delta_yaw: Fx { raw: 0 }, delta_pitch: Fx { raw: 0 } }
    }
}

/// The sum of a frame's scroll deltas, in raw counts.
pub open spec fn scroll_sum(events: Seq<Fx>) -> int
    decreases events.len(),
{
    if events.len() == 0 {
        0
    } else {
        scroll_sum(events.drop_last()) + events.last().raw
    }
}

/// Drain the frame's queued scroll events into one scalar: the sum of
/// their vertical deltas. The caller owns the queue and passes each
/// frame's events exactly once, so none is counted twice.
pub fn accumulate_scroll(events: &Vec<Fx>) -> (total: Fx)
    requires
        forall|i: int| 0 <= i < events@.len() ==> -FX_LIMIT <= (#[trigger] events@[i]).raw
            <= FX_LIMIT,
        events@.len() <= MAX_SCROLL_EVENTS,
    ensures
        total.raw == scroll_sum(events@),
{
    let mut total: i64 = 0;
    let mut idx: usize = 0;
    while idx < events.len()
        invariant
            0 <= idx <= events@.len(),
            events@.len() <= MAX_SCROLL_EVENTS,
            forall|i: int| 0 <= i < events@.len() ==> -FX_LIMIT <= (#[trigger] events@[i]).raw
                <= FX_LIMIT,
            total == scroll_sum(events@.take(idx as int)),
            -(idx as int) * (FX_LIMIT as int) <= total <= (idx as int) * (FX_LIMIT as int),
        decreases events@.len() - idx,
    {
        let e = events[idx];
        total = total + e.raw;
        idx = idx + 1;
        proof {
            assert(events@.take(idx as int).drop_last() =~= events@.take(idx as int - 1));
        }
    }
    proof {
        assert(events@.take(events@.len() as int) =~= events@);
    }
    Fx { raw: total }
}

/// The per-frame rotation input: a fixed auto-rotation of
/// [`AUTO_ROTATE_RATE`] input units per elapsed second along the
/// horizontal axis, and none along the vertical. The camera spins on its
/// own; user input only zooms.
pub fn rotation_input(dt: Fx) -> (rm: Vec2Fx)
    requires
        0 <= dt.raw <= MAX_FRAME_DT,
    ensures
        rm.x.raw == mul_raw(AUTO_ROTATE_RATE as int, dt.raw as int),
        rm.y.raw == 0,
        0 <= rm.x.raw <= FX_LIMIT,
{
    proof {
        lemma_mul_raw_bound(
            AUTO_ROTATE_RATE as int,
            dt.raw as int,
            AUTO_ROTATE_RATE as int,
            MAX_FRAME_DT as int,
        );
    }
    let x = Fx { raw: AUTO_ROTATE_RATE }.mul_scaled(dt);
    Vec2Fx { x, y: Fx { raw: 0 } }
}

/// One whole frame of the controller, as the frame driver calls it: drain
/// the scroll queue, derive the auto-rotation input from the elapsed time,
/// then run the orbit update.
pub fn frame_step(
    cam: &mut PanOrbitCamera,
    scroll_events: &Vec<Fx>,
    dt: Fx,
    width: u32,
    height: u32,
) -> (step: FrameRotation)
    requires
        forall|i: int| 0 <= i < scroll_events@.len() ==> -FX_LIMIT
            <= (#[trigger] scroll_events@[i]).raw <= FX_LIMIT,
        scroll_events@.len() <= MAX_SCROLL_EVENTS,
        0 <= dt.raw <= MAX_FRAME_DT,
        scroll_sum(scroll_events@) != 0 ==> i64::MIN
            <= mul_raw(scroll_sum(scroll_events@), old(cam).radius.raw as int) <= i64::MAX,
        scroll_sum(scroll_events@) != 0 ==> i64::MIN <= old(cam).radius.raw - mul_raw(
            mul_raw(scroll_sum(scroll_events@), old(cam).radius.raw as int),
            ZOOM_SENSITIVITY as int,
        ) <= i64::MAX,
    ensures
        final(cam).focus == old(cam).focus,
        final(cam).upside_down == old(cam).upside_down,
        final(cam).radius.raw == zoom_step(
            old(cam).radius.raw as int,
            scroll_sum(scroll_events@),
        ),
        old(cam).wf() ==> final(cam).wf(),
        step.rotate == rotation_applies(
            Vec2Fx {
                x: Fx { raw: mul_raw(AUTO_ROTATE_RATE as int, dt.raw as int) as i64 },
                y: Fx { raw: 0 },
            },
            width,
            height,
        ),
        step.rotate ==> step.delta_yaw.raw == yaw_delta(
            mul_raw(AUTO_ROTATE_RATE as int, dt.raw as int),
            width as int,
            old(cam).upside_down,
        ),
        step.rotate ==> step.delta_pitch.raw == 0,
{
    let scroll = accumulate_scroll(scroll_events);
    let rotation_move = rotation_input(dt);
    proof {
        if rotation_applies(rotation_move, width, height) {
            lemma_trunc_div_bound(rotation_move.x.raw as int, width as int, FX_LIMIT as int);
            lemma_mul_raw_bound(
                trunc_div(rotation_move.x.raw as int, width as int),
                TAU_FX as int,
                FX_LIMIT as int,
                TAU_FX as int,
            );
            lemma_trunc_div_bound(0, height as int, FX_LIMIT as int);
            lemma_mul_raw_bound(
                trunc_div(0, height as int),
                PITCH_FACTOR as int,
                FX_LIMIT as int,
                PITCH_FACTOR as int,
            );
        }
    }
    orbit_update_step(cam, rotation_move, scroll, width, height)
}

/// The radius after a run of frames, one scroll scalar per frame.
pub open spec fn radius_after(r0: int, scrolls: Seq<i64>) -> int
    decreases scrolls.len(),
{
    if scrolls.len() == 0 {
        r0
    } else {
        zoom_step(radius_after(r0, scrolls.drop_last()), scrolls.last() as int)
    }
}

/// Law: from any state at or above the radius floor, every sequence of
/// scroll inputs leaves the radius at or above [`MIN_RADIUS`], whatever
/// the sign or magnitude of each scroll.
pub proof fn lemma_radius_floor(r0: int, scrolls: Seq<i64>)
    requires
        r0 >= MIN_RADIUS,
    ensures
        radius_after(r0, scrolls) >= MIN_RADIUS,
    decreases scrolls.len(),
{
    if scrolls.len() > 0 {
        lemma_radius_floor(r0, scrolls.drop_last());
    }
}

/// Law: for the same rotation input and viewport width, the upside-down
/// yaw delta is the exact negation of the right-side-up one; whenever the
/// delta is nonzero, the two have opposite signs.
pub proof fn lemma_yaw_sign_flip(rm_x: int, width: int)
    ensures
        yaw_delta(rm_x, width, true) == -yaw_delta(rm_x, width, false),
        yaw_delta(rm_x, width, false) != 0 ==> ((yaw_delta(rm_x, width, true) < 0) <==> (
        yaw_delta(rm_x, width, false) > 0)),
{
}

} // verus!
