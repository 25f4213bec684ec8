//! Camera-orientation controller: accumulates raw pointer-motion deltas
//! into a yaw/pitch rotation state. Yaw wraps around a full turn; pitch is
//! clamped to a configured limit so the view can never flip past vertical.
//!
//! Angles are held in millidegrees (one thousandth of a degree), and the
//! sensitivity is the number of millidegrees added per device unit of
//! pointer motion, so a sensitivity of 0.035 degrees per unit is held as 35.
use vstd::prelude::*;
use vstd::arithmetic::div_mod::lemma_fundamental_div_mod;
use vstd::arithmetic::div_mod::lemma_fundamental_div_mod_converse;
use vstd::arithmetic::div_mod::lemma_mod_bound;

verus! {

/// One full turn (360 degrees), in millidegrees.
pub const FULL_TURN_MILLIDEG: i64 = 360000;

/// A quarter turn (90 degrees, straight up or down), in millidegrees.
pub const QUARTER_TURN_MILLIDEG: i64 = 90000;

/// A camera orientation: yaw around the world vertical axis, then pitch
/// around the camera's local horizontal axis, both in millidegrees.
#[derive(Clone, Copy, PartialEq, Eq, Structural, Debug)]
pub struct Rotation {
    pub yaw: i64,
    pub pitch: i64,
}

/// Per-camera controller state: how strongly pointer motion turns the
/// view, the accumulated rotation, and the pitch limit in millidegrees.
#[derive(Clone, Copy, PartialEq, Eq, Structural, Debug)]
pub struct CameraController {
    pub sensitivity: i64,
    pub rotation: Rotation,
    pub rotation_lock: i64,
}

/// Yaw reduced to the canonical range `[0, FULL_TURN_MILLIDEG)`; turning
/// is periodic, so this loses no orientation information.
pub open spec fn wrap_yaw(x: int) -> int {
    x % (FULL_TURN_MILLIDEG as int)
}

/// Pitch clamped to `[-lock, lock]`.
pub open spec fn clamp_pitch(x: int, lock: int) -> int {
    if x < -lock {
        -lock
    } else if x > lock {
        lock
    } else {
        x
    }
}

/// Well-formed controller state: positive sensitivity, a pitch limit in
/// `(0, 90]` degrees, yaw in canonical range, and pitch within the limit.
pub open spec fn camera_wf(c: CameraController) -> bool {
    &&& 0 < c.sensitivity
    &&& 0 < c.rotation_lock <= QUARTER_TURN_MILLIDEG
    &&& 0 <= c.rotation.yaw < FULL_TURN_MILLIDEG
    &&& -c.rotation_lock <= c.rotation.pitch <= c.rotation_lock
}

/// The controller state after consuming one pointer delta `(dx, dy)`:
/// yaw advances by `dx * sensitivity` and wraps, pitch advances by
/// `dy * sensitivity` and is clamped; configuration is untouched.
pub open spec fn updated(c: CameraController, dx: i64, dy: i64) -> CameraController {
    CameraController {
        sensitivity: c.sensitivity,
        rotation: Rotation {
            yaw: wrap_yaw(c.rotation.yaw + dx * c.sensitivity) as i64,
            pitch: clamp_pitch(
                c.rotation.pitch + dy * c.sensitivity,
                c.rotation_lock as int,
            ) as i64,
        },
        rotation_lock: c.rotation_lock,
    }
}

/// The controller state after consuming a whole sequence of pointer deltas.
pub open spec fn apply_updates(c: CameraController, ds: Seq<(i64, i64)>) -> CameraController
    decreases ds.len(),
{
    if ds.len() == 0 {
        c
    } else {
        apply_updates(updated(c, ds[0].0, ds[0].1), ds.drop_first())
    }
}

/// The product of two machine integers fits comfortably inside `i128`.
proof fn lemma_i64_product_fits(a: i64, b: i64)
    ensures
        -0x4000_0000_0000_0000_0000_0000_0000_0000 <= (a as int) * (b as int)
            <= 0x4000_0000_0000_0000_0000_0000_0000_0000,
{
    assert(-0x4000_0000_0000_0000_0000_0000_0000_0000 <= (a as int) * (b as int)
        <= 0x4000_0000_0000_0000_0000_0000_0000_0000) by (nonlinear_arith)
        requires
            -0x8000_0000_0000_0000 <= a as int <= 0x7FFF_FFFF_FFFF_FFFF,
            -0x8000_0000_0000_0000 <= b as int <= 0x7FFF_FFFF_FFFF_FFFF,
    ;
}

/// One pointer update keeps a controller well formed: the wrapped yaw lies
/// in `[0, FULL_TURN_MILLIDEG)` and the clamped pitch within the limit.
pub proof fn lemma_updated_preserves_wf(c: CameraController, dx: i64, dy: i64)
    requires
        camera_wf(c),
    ensures
        camera_wf(updated(c, dx, dy)),
        updated(c, dx, dy).sensitivity == c.sensitivity,
        updated(c, dx, dy).rotation_lock == c.rotation_lock,
{
    lemma_mod_bound(c.rotation.yaw + dx * c.sensitivity, FULL_TURN_MILLIDEG as int);
}

/// After any sequence of pointer updates applied to a well-formed
/// controller, the pitch still lies within `[-rotation_lock,
/// rotation_lock]`, and the configuration is unchanged.
pub proof fn lemma_pitch_stays_clamped(c: CameraController, ds: Seq<(i64, i64)>)
    requires
        camera_wf(c),
    ensures
        camera_wf(apply_updates(c, ds)),
        apply_updates(c, ds).rotation_lock == c.rotation_lock,
        -c.rotation_lock <= apply_updates(c, ds).rotation.pitch <= c.rotation_lock,
    decreases ds.len(),
{
    if ds.len() > 0 {
        lemma_updated_preserves_wf(c, ds[0].0, ds[0].1);
        lemma_pitch_stays_clamped(updated(c, ds[0].0, ds[0].1), ds.drop_first());
    }
}

/// Reduce an accumulated yaw total to the canonical range. The argument is
/// bounded well inside `i128`, as produced by `update`.
fn wrap_yaw_exec(total: i128) -> (r: i64)
    requires
        -0x4100_0000_0000_0000_0000_0000_0000_0000 <= total
            <= 0x4100_0000_0000_0000_0000_0000_0000_0000,
    ensures
        r as int == wrap_yaw(total as int),
        0 <= r < FULL_TURN_MILLIDEG,
{
    proof {
        lemma_mod_bound(total as int, FULL_TURN_MILLIDEG as int);
    }
    if total >= 0 {
        let r: u128 = (total as u128) % 360000;
        r as i64
    } else {
        let t: u128 = (-total) as u128;
        let a: u128 = t % 360000;
        proof {
            lemma_fundamental_div_mod(t as int, 360000);
            let q = (t as int) / 360000;
            if a == 0 {
                lemma_fundamental_div_mod_converse(total as int, 360000, -q, 0);
            } else {
                lemma_fundamental_div_mod_converse(
                    total as int,
                    360000,
                    -q - 1,
                    360000 - (a as int),
                );
            }
        }
        if a == 0 {
            0
        } else {
            (360000 - a) as i64
        }
    }
}

impl CameraController {
    /// A fresh controller looking straight ahead, with the given
    /// sensitivity (millidegrees per device unit) and pitch limit.
    pub fn new(sensitivity: i64, rotation_lock: i64) -> (c: CameraController)
        requires
            0 < sensitivity,
            0 < rotation_lock <= QUARTER_TURN_MILLIDEG,
        ensures
            camera_wf(c),
            c.sensitivity == sensitivity,
            c.rotation_lock == rotation_lock,
            c.rotation == (Rotation { yaw: 0, pitch: 0 }),
    {
        CameraController { sensitivity, rotation: Rotation { yaw: 0, pitch: 0 }, rotation_lock }
    }

    /// Consume one frame's pointer delta and return the orientation to
    /// apply to the camera: yaw accumulates (wrapping a full turn), pitch
    /// accumulates under the clamp.
    pub fn update(&mut self, dx: i64, dy: i64) -> (r: Rotation)
        requires
            camera_wf(*old(self)),
        ensures
            *final(self) == updated(*old(self), dx, dy),
            camera_wf(*final(self)),
            r == final(self).rotation,
    {
        proof {
            lemma_i64_product_fits(dx, self.sensitivity);
            lemma_i64_product_fits(dy, self.sensitivity);
            lemma_updated_preserves_wf(*self, dx, dy);
        }
        let sens: i128 = self.sensitivity as i128;
        let yaw_total: i128 = self.rotation.yaw as i128 + dx as i128 * sens;
        let new_yaw: i64 = wrap_yaw_exec(yaw_total);
        let pitch_total: i128 = self.rotation.pitch as i128 + dy as i128 * sens;
        let lock: i128 = self.rotation_lock as i128;
        let new_pitch: i64 = if pitch_total < -lock {
            -self.rotation_lock
        } else if pitch_total > lock {
            self.rotation_lock
        } else {
            pitch_total as i64
        };
        self.rotation = Rotation { yaw: new_yaw, pitch: new_pitch };
        self.rotation
    }
}

} // verus!
