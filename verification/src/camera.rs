//! The angular state of a first-person camera.
//!
//! Angles are whole numbers of millionths of a degree, so that each update is
//! exact: yaw is kept within one full turn, pitch within 89 degrees either
//! way. The direction vectors and the view matrix follow from the two angles
//! and are the caller's to compute.

use vstd::prelude::*;

verus! {

/// Angle units in one degree.
pub const UNITS_PER_DEGREE: i64 = 1_000_000;

/// One full turn of yaw, 360 degrees.
pub const FULL_TURN: i64 = 360_000_000;

/// The steepest pitch either way, 89 degrees: short of looking straight up
/// or down, where the view would flip.
pub const PITCH_LIMIT: i64 = 89_000_000;

/// The angle by which one count of pointer motion turns the camera: 0.002
/// radians, to the nearest unit.
pub const SENSITIVITY: i64 = 114_592;

/// What an [`FPSCamera`] stands for: its two angles.
pub struct Angles {
    pub yaw: int,
    pub pitch: int,
}

/// `pitch`, held to the pitch limit: a pitch within the limits, the limits
/// themselves included, stays as it is.
pub open spec fn clamp_pitch(pitch: int) -> int {
    if pitch > PITCH_LIMIT {
        PITCH_LIMIT as int
    } else if pitch < -PITCH_LIMIT {
        -PITCH_LIMIT as int
    } else {
        pitch
    }
}

impl Angles {
    /// Yaw lies within one turn and pitch within the limits.
    pub open spec fn wf(self) -> bool {
        &&& 0 <= self.yaw < FULL_TURN
        &&& -PITCH_LIMIT <= self.pitch <= PITCH_LIMIT
    }

    /// The angles after a pointer motion of `xrel` counts across and `yrel`
    /// counts down: yaw goes round the turn, pitch stops at the limits.
    pub open spec fn moved(self, xrel: int, yrel: int) -> Angles {
        Angles {
            yaw: (self.yaw + xrel * SENSITIVITY) % (FULL_TURN as int),
            pitch: clamp_pitch(self.pitch + yrel * SENSITIVITY),
        }
    }

    /// The angles after a run of pointer motions, the first of them first.
    pub open spec fn moved_by_all(self, motions: Seq<(i32, i32)>) -> Angles
        decreases motions.len(),
    {
        if motions.len() == 0 {
            self
        } else {
            self.moved(motions[0].0 as int, motions[0].1 as int).moved_by_all(
                motions.drop_first(),
            )
        }
    }
}

/// A first-person camera's orientation: yaw and pitch.
#[derive(Debug)]
pub struct FPSCamera {
    yaw: i64,
    pitch: i64,
}

impl View for FPSCamera {
    type V = Angles;

    closed spec fn view(&self) -> Angles {
        Angles { yaw: self.yaw as int, pitch: self.pitch as int }
    }
}

impl FPSCamera {
    #[verifier::type_invariant]
    spec fn inv(&self) -> bool {
        self@.wf()
    }

    /// A camera with yaw and pitch at zero.
    pub fn new() -> (camera: FPSCamera)
        ensures
            camera@ == (Angles { yaw: 0, pitch: 0 }),
    {
        FPSCamera { yaw: 0, pitch: 0 }
    }

    /// The yaw, in angle units, within one full turn.
    pub fn yaw(&self) -> (yaw: i64)
        ensures
            yaw == self@.yaw,
            0 <= yaw < FULL_TURN,
    {
        proof {
            use_type_invariant(self);
        }
        self.yaw
    }

    /// The pitch, in angle units, within the pitch limits.
    pub fn pitch(&self) -> (pitch: i64)
        ensures
            pitch == self@.pitch,
            -PITCH_LIMIT <= pitch <= PITCH_LIMIT,
    {
        proof {
            use_type_invariant(self);
        }
        self.pitch
    }

    /// Turns the camera by a relative pointer motion of `xrel` counts across
    /// and `yrel` counts down. Each count is worth [`SENSITIVITY`] units;
    /// pitch is clamped after the motion is added.
    pub fn handle_mouse_motion(&mut self, xrel: i32, yrel: i32)
        ensures
            final(self)@ == old(self)@.moved(xrel as int, yrel as int),
            final(self)@.wf(),
    {
        proof {
            use_type_invariant(&*self);
        }
        let turned: i64 = self.yaw + (xrel as i64) * SENSITIVITY;
        let rest: i64 = turned % FULL_TURN;
        let yaw: i64 = if rest < 0 {
            rest + FULL_TURN
        } else {
            rest
        };
        let tilted: i64 = self.pitch + (yrel as i64) * SENSITIVITY;
        let pitch: i64 = if tilted > PITCH_LIMIT {
            PITCH_LIMIT
        } else if tilted < -PITCH_LIMIT {
            -PITCH_LIMIT
        } else {
            tilted
        };
        self.yaw = yaw;
        self.pitch = pitch;
    }
}

/// Whatever the angles were, after a pointer motion yaw lies within one turn
/// and pitch within the limits.
pub proof fn lemma_moved_is_wf(angles: Angles, xrel: int, yrel: int)
    ensures
        angles.moved(xrel, yrel).wf(),
{
}

/// No run of pointer motions takes yaw out of the turn or pitch beyond the
/// limits.
pub proof fn lemma_moved_by_all_is_wf(angles: Angles, motions: Seq<(i32, i32)>)
    requires
        angles.wf(),
    ensures
        angles.moved_by_all(motions).wf(),
    decreases motions.len(),
{
    if motions.len() > 0 {
        let next = angles.moved(motions[0].0 as int, motions[0].1 as int);
        lemma_moved_is_wf(angles, motions[0].0 as int, motions[0].1 as int);
        lemma_moved_by_all_is_wf(next, motions.drop_first());
    }
}

/// A motion of no counts changes nothing.
pub proof fn lemma_zero_motion_changes_nothing(angles: Angles)
    requires
        angles.wf(),
    ensures
        angles.moved(0, 0) == angles,
{
}

/// A motion down never lowers the pitch and never takes it beyond the upper
/// limit; a pitch at the upper limit stays there.
pub proof fn lemma_motion_down_raises_pitch(angles: Angles, xrel: int, yrel: int)
    requires
        angles.wf(),
        yrel >= 0,
    ensures
        angles.pitch <= angles.moved(xrel, yrel).pitch <= PITCH_LIMIT,
        angles.pitch == PITCH_LIMIT ==> angles.moved(xrel, yrel).pitch == PITCH_LIMIT,
{
    assert(yrel * SENSITIVITY >= 0) by (nonlinear_arith)
        requires
            yrel >= 0,
    ;
}

/// A motion up never raises the pitch and never takes it beyond the lower
/// limit; a pitch at the lower limit stays there.
pub proof fn lemma_motion_up_lowers_pitch(angles: Angles, xrel: int, yrel: int)
    requires
        angles.wf(),
        yrel <= 0,
    ensures
        -PITCH_LIMIT <= angles.moved(xrel, yrel).pitch <= angles.pitch,
        angles.pitch == -PITCH_LIMIT ==> angles.moved(xrel, yrel).pitch == -PITCH_LIMIT,
{
    assert(yrel * SENSITIVITY <= 0) by (nonlinear_arith)
        requires
            yrel <= 0,
    ;
}

/// A motion that is worth the whole range of pitch puts the pitch at the
/// limit on its side, wherever it was.
pub proof fn lemma_large_motion_reaches_limit(angles: Angles, xrel: int, yrel: int)
    requires
        angles.wf(),
    ensures
        yrel * SENSITIVITY >= 2 * PITCH_LIMIT ==> angles.moved(xrel, yrel).pitch == PITCH_LIMIT,
        yrel * SENSITIVITY <= -2 * PITCH_LIMIT ==> angles.moved(xrel, yrel).pitch == -PITCH_LIMIT,
{
}

/// A run of `times` pointer motions, each of `yrel` counts down and none
/// across.
pub open spec fn repeated(yrel: i32, times: nat) -> Seq<(i32, i32)> {
    Seq::new(times, |i: int| (0i32, yrel))
}

/// Motions repeated in one direction add up until the pitch meets the limit
/// and stay there: after `times` motions of `yrel` counts the pitch is what
/// one motion of `times * yrel` counts would have left. So any motion down,
/// repeated often enough, takes the pitch to the upper limit and never
/// beyond it, and any motion up to the lower limit.
pub proof fn lemma_repeated_motion_meets_limit(angles: Angles, yrel: i32, times: nat)
    requires
        angles.wf(),
    ensures
        angles.moved_by_all(repeated(yrel, times)).pitch == clamp_pitch(
            angles.pitch + times * yrel * SENSITIVITY,
        ),
        times * yrel * SENSITIVITY >= 2 * PITCH_LIMIT ==> angles.moved_by_all(
            repeated(yrel, times),
        ).pitch == PITCH_LIMIT,
        times * yrel * SENSITIVITY <= -2 * PITCH_LIMIT ==> angles.moved_by_all(
            repeated(yrel, times),
        ).pitch == -PITCH_LIMIT,
    decreases times,
{
    if times > 0 {
        let motions = repeated(yrel, times);
        let fewer = (times - 1) as nat;
        let next = angles.moved(0, yrel as int);
        lemma_moved_is_wf(angles, 0, yrel as int);
        assert(motions[0] == (0i32, yrel));
        assert(motions.drop_first() =~= repeated(yrel, fewer));
        lemma_repeated_motion_meets_limit(next, yrel, fewer);
        let step = yrel * SENSITIVITY;
        assert(times * yrel * SENSITIVITY == step + fewer * yrel * SENSITIVITY) by (nonlinear_arith)
            requires
                times == fewer + 1,
                step == yrel * SENSITIVITY,
        ;
        if yrel >= 0 {
            assert(step >= 0 && fewer * yrel * SENSITIVITY >= 0) by (nonlinear_arith)
                requires
                    yrel >= 0,
                    fewer >= 0,
                    step == yrel * SENSITIVITY,
            ;
        } else {
            assert(step <= 0 && fewer * yrel * SENSITIVITY <= 0) by (nonlinear_arith)
                requires
                    yrel < 0,
                    fewer >= 0,
                    step == yrel * SENSITIVITY,
            ;
        }
    }
}

/// The counts across of a run of pointer motions, added up.
pub open spec fn total_across(motions: Seq<(i32, i32)>) -> int
    decreases motions.len(),
{
    if motions.len() == 0 {
        0
    } else {
        motions[0].0 + total_across(motions.drop_first())
    }
}

/// Keeping yaw within one turn loses nothing: after any run of pointer
/// motions the yaw is where the sum of all the motions across would have
/// taken it, counted round the turn.
pub proof fn lemma_yaw_is_the_total_turned(angles: Angles, motions: Seq<(i32, i32)>)
    requires
        angles.wf(),
    ensures
        angles.moved_by_all(motions).yaw == (angles.yaw + total_across(motions) * SENSITIVITY) % (
        FULL_TURN as int),
    decreases motions.len(),
{
    let turn = FULL_TURN as int;
    if motions.len() > 0 {
        let first = motions[0].0 as int;
        let rest = total_across(motions.drop_first());
        let next = angles.moved(first, motions[0].1 as int);
        lemma_moved_is_wf(angles, first, motions[0].1 as int);
        lemma_yaw_is_the_total_turned(next, motions.drop_first());
        vstd::arithmetic::div_mod::lemma_add_mod_noop_right(
            rest * SENSITIVITY,
            angles.yaw + first * SENSITIVITY,
            turn,
        );
        assert((first + rest) * SENSITIVITY == first * SENSITIVITY + rest * SENSITIVITY)
            by (nonlinear_arith);
    }
}

} // verus!
