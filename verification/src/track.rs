//! The track entity: one followed object's kinematic state, confidence,
//! fall-risk bookkeeping and lifecycle state.

use vstd::prelude::*;

use crate::fixed::{ACC_LIM, FP, LIM, div_wide, sat, sat_narrow, tdiv, descale, mul_wide};
use crate::vec2::{Vec2, vec2_wf};

verus! {

/// A fall-risk score above this value (thousandths) classifies the track
/// as falling.
pub const FALL_THRESHOLD: i64 = 700;

/// Lifecycle state of a track. `Lost` is terminal: a lost track is
/// removed from the live set rather than stored.
#[derive(Debug, Clone, Copy, PartialEq, Eq, Structural)]
pub enum TargetState {
    Tracking,
    Falling,
    Lost,
    Predicted,
}

/// One followed object. Positions are fixed-point thousandths of a unit,
/// velocities thousandths per second, accelerations thousandths per
/// second squared; confidence and fall probability live in `[0, FP]`;
/// timestamps are milliseconds.
#[derive(Debug, Clone, Copy)]
pub struct TrackedTarget {
    pub id: u32,
    pub antenna_id: u8,
    pub position: Vec2,
    pub velocity: Vec2,
    pub acceleration: Vec2,
    pub state: TargetState,
    pub confidence: i64,
    pub last_update: u64,
    pub prediction_count: u32,
    pub fall_probability: i64,
}

/// Well-formedness: kinematics saturated, confidence and fall
/// probability clamped to `[0, FP]`.
pub open spec fn track_wf(t: TrackedTarget) -> bool {
    &&& vec2_wf(t.position)
    &&& vec2_wf(t.velocity)
    &&& vec2_wf(t.acceleration)
    &&& 0 <= t.confidence <= FP
    &&& 0 <= t.fall_probability <= FP
}

/// Confidence after a successful measurement update: exponential
/// smoothing toward one, clamped.
pub open spec fn conf_gain(c: int) -> int {
    let g = tdiv(c * 800 + 200 * (FP as int), FP as int);
    if g > FP { FP as int } else { g }
}

/// Confidence after a coast cycle: multiplicative decay.
pub open spec fn conf_decay(c: int) -> int {
    tdiv(c * 900, FP as int)
}

/// A coast-cycle counter bumped by one, saturating at its type bound.
pub open spec fn bump(c: u32) -> u32 {
    if c < u32::MAX { (c + 1) as u32 } else { c }
}

/// Bump a coast-cycle counter, saturating at its type bound.
pub fn bump_exec(c: u32) -> (r: u32)
    ensures
        r == bump(c),
{
    if c < u32::MAX {
        c + 1
    } else {
        c
    }
}

/// A finite-difference rate: `delta` per `dt` milliseconds, expressed
/// per second, saturated.
pub open spec fn rate_of(delta: int, dt: int) -> int {
    sat(tdiv(delta * (FP as int), dt))
}

/// Kinematic position extrapolation: `p + v dt + a dt^2 / 2` in fixed
/// point, each term rescaled and the sum saturated.
pub open spec fn kin_pos(p: int, v: int, a: int, dt: int) -> int {
    let dtc = sat(dt);
    let half = sat(tdiv(dtc * dtc, 2 * (FP as int)));
    sat(p + descale(v * dtc) + descale(a * half))
}

/// Exponential smoothing of the confidence toward one.
pub fn conf_gain_exec(c: i64) -> (r: i64)
    requires
        0 <= c <= FP,
    ensures
        r == conf_gain(c as int),
        0 <= r <= FP,
{
    let raw: u64 = ((c as u64) * 800 + 200 * (FP as u64)) / (FP as u64);
    let r: i64 = if raw > FP as u64 { FP } else { raw as i64 };
    proof {
        assert(raw == tdiv(c * 800 + 200 * (FP as int), FP as int));
    }
    r
}

/// Multiplicative decay of the confidence.
pub fn conf_decay_exec(c: i64) -> (r: i64)
    requires
        0 <= c <= FP,
    ensures
        r == conf_decay(c as int),
        0 <= r <= FP,
{
    let raw: u64 = ((c as u64) * 900) / (FP as u64);
    proof {
        assert(raw == tdiv(c * 900, FP as int));
        assert(c * 900 / (FP as int) <= FP) by (nonlinear_arith)
            requires
                0 <= c <= FP,
        ;
    }
    raw as i64
}

/// Finite-difference rate, saturated.
pub fn rate(delta: i64, dt: u64) -> (r: i64)
    requires
        -2 * LIM <= delta <= 2 * LIM,
        dt > 0,
    ensures
        r == rate_of(delta as int, dt as int),
        -LIM <= r <= LIM,
{
    let num: i128 = (delta as i128) * 1000;
    proof {
        assert(num == delta * (FP as int));
        assert(-ACC_LIM <= num <= ACC_LIM);
    }
    sat_narrow(div_wide(num, dt as i128))
}

impl TrackedTarget {
    /// A fresh track: position from the detection, zero velocity and
    /// acceleration, full confidence, `Tracking` state.
    pub fn new(id: u32, antenna_id: u8, position: Vec2, now: u64) -> (t: TrackedTarget)
        requires
            vec2_wf(position),
        ensures
            t == (TrackedTarget {
                id,
                antenna_id,
                position,
                velocity: Vec2 { x: 0, y: 0 },
                acceleration: Vec2 { x: 0, y: 0 },
                state: TargetState::Tracking,
                confidence: FP,
                last_update: now,
                prediction_count: 0,
                fall_probability: 0,
            }),
            track_wf(t),
    {
        TrackedTarget {
            id,
            antenna_id,
            position,
            velocity: Vec2::zeros(),
            acceleration: Vec2::zeros(),
            state: TargetState::Tracking,
            confidence: FP,
            last_update: now,
            prediction_count: 0,
            fall_probability: 0,
        }
    }

    /// Commit a new position measured `dt` milliseconds after the last
    /// one: velocity and acceleration from finite differences, the coast
    /// counter reset, the confidence smoothed toward one. A zero `dt` is
    /// a benign no-op.
    pub fn update_position(&mut self, new_position: Vec2, dt: u64, now: u64)
        requires
            track_wf(*old(self)),
            vec2_wf(new_position),
        ensures
            track_wf(*final(self)),
            dt == 0 ==> *final(self) == *old(self),
            dt > 0 ==> *final(self) == (TrackedTarget {
                position: new_position,
                velocity: Vec2 {
                    x: rate_of(new_position.x - old(self).position.x, dt as int) as i64,
                    y: rate_of(new_position.y - old(self).position.y, dt as int) as i64,
                },
                acceleration: Vec2 {
                    x: rate_of(
                        rate_of(new_position.x - old(self).position.x, dt as int)
                            - old(self).velocity.x,
                        dt as int,
                    ) as i64,
                    y: rate_of(
                        rate_of(new_position.y - old(self).position.y, dt as int)
                            - old(self).velocity.y,
                        dt as int,
                    ) as i64,
                },
                confidence: conf_gain(old(self).confidence as int) as i64,
                last_update: now,
                prediction_count: 0,
                ..*old(self)
            }),
    {
        if dt > 0 {
            let vx: i64 = rate(new_position.x - self.position.x, dt);
            let vy: i64 = rate(new_position.y - self.position.y, dt);
            let ax: i64 = rate(vx - self.velocity.x, dt);
            let ay: i64 = rate(vy - self.velocity.y, dt);
            self.acceleration = Vec2 { x: ax, y: ay };
            self.velocity = Vec2 { x: vx, y: vy };
            self.position = new_position;
            self.last_update = now;
            self.prediction_count = 0;
            self.confidence = conf_gain_exec(self.confidence);
        }
    }

    /// Kinematic extrapolation of the position `dt` milliseconds ahead;
    /// the track itself is not changed.
    pub fn predict_position(&mut self, dt: u64) -> (r: Vec2)
        requires
            track_wf(*old(self)),
        ensures
            *final(self) == *old(self),
            r == (Vec2 {
                x: kin_pos(
                    old(self).position.x as int,
                    old(self).velocity.x as int,
                    old(self).acceleration.x as int,
                    dt as int,
                ) as i64,
                y: kin_pos(
                    old(self).position.y as int,
                    old(self).velocity.y as int,
                    old(self).acceleration.y as int,
                    dt as int,
                ) as i64,
            }),
            vec2_wf(r),
    {
        let dtc: i64 = sat_narrow(dt as i128);
        let half: i64 = sat_narrow(div_wide(mul_wide(dtc, dtc), 2 * (FP as i128)));
        let vx_term: i64 = crate::fixed::descale_wide(mul_wide(self.velocity.x, dtc));
        let vy_term: i64 = crate::fixed::descale_wide(mul_wide(self.velocity.y, dtc));
        let ax_term: i64 = crate::fixed::descale_wide(mul_wide(self.acceleration.x, half));
        let ay_term: i64 = crate::fixed::descale_wide(mul_wide(self.acceleration.y, half));
        let x: i64 = sat_narrow((self.position.x as i128) + (vx_term as i128) + (ax_term as i128));
        let y: i64 = sat_narrow((self.position.y as i128) + (vy_term as i128) + (ay_term as i128));
        Vec2 { x, y }
    }

    /// Whether the current fall-risk score classifies the track as
    /// falling.
    pub fn is_falling(&self) -> (r: bool)
        ensures
            r == (self.fall_probability > FALL_THRESHOLD),
    {
        self.fall_probability > FALL_THRESHOLD
    }
}

} // verus!
