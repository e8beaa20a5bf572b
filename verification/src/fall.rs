//! Fall-risk scoring and short-horizon ballistic trajectory prediction.
//!
//! The detector is a pure function of a track's current kinematics: risk
//! accumulates additively from four threshold conditions and is capped at
//! one. The trajectory preview integrates the constant-gravity kinematic
//! step `p += v dt + g dt^2 / 2; v += g dt` with a fixed 50 ms step; it
//! never mutates the track it reads.

use vstd::prelude::*;

use crate::buffers::{TrajectoryBuf, traj_points_of};
use crate::fixed::{FP, LIM, descale, descale_wide, iabs, mul_wide, sat, sat_narrow, sat_plus, tdiv};
use crate::track::{TrackedTarget, track_wf};
use crate::vec2::{Vec2, norm_sq, norm_sq_wide, vec2_wf};

verus! {

/// Gravitational acceleration along y, in thousandths per second squared.
pub const GRAVITY_Y: i64 = -9810;

/// The fixed trajectory integration step, in milliseconds.
pub const TRAJ_STEP_MS: u64 = 50;

/// The stateless fall-risk detector: fixed thresholds, no mutable state.
#[derive(Debug)]
pub struct FallDetector {
    /// Downward acceleration below this is gravity-like free fall.
    pub gravity_threshold: i64,
    /// Downward velocity below the negation of this adds risk; twice this
    /// bounds the velocity magnitude check.
    pub velocity_threshold: i64,
    /// Acceleration magnitude above this adds risk.
    pub acceleration_threshold: i64,
    /// Observation window kept for future use.
    pub time_window_ms: u64,
}

/// Thresholds within the saturation bound; the magnitude thresholds are
/// non-negative so squared comparisons agree with magnitude comparisons.
pub open spec fn fd_wf(d: FallDetector) -> bool {
    &&& -LIM <= d.gravity_threshold <= LIM
    &&& 0 <= d.velocity_threshold <= LIM
    &&& 0 <= d.acceleration_threshold <= LIM
}

/// The fall-risk score of a track's kinematics: additive contributions
/// from free-fall-like acceleration, fast downward velocity, a large
/// acceleration magnitude and a large velocity magnitude, capped at one.
pub open spec fn risk_score(d: FallDetector, t: TrackedTarget) -> int {
    let r1: int = if t.acceleration.y < d.gravity_threshold { 400 } else { 0 };
    let r2: int = if t.velocity.y < -d.velocity_threshold { 300 } else { 0 };
    let r3: int = if norm_sq(t.acceleration) > d.acceleration_threshold * d.acceleration_threshold {
        200
    } else {
        0
    };
    let r4: int = if norm_sq(t.velocity) > (2 * d.velocity_threshold) * (2 * d.velocity_threshold) {
        100
    } else {
        0
    };
    let s = r1 + r2 + r3 + r4;
    if s > FP { FP as int } else { s }
}

/// One trajectory integration step under constant gravity: the position
/// advances by `v dt + g dt^2 / 2`, then the velocity by `g dt`.
pub open spec fn traj_next(p: Vec2, v: Vec2) -> (Vec2, Vec2) {
    let np = Vec2 {
        x: sat(p.x + descale(v.x * (TRAJ_STEP_MS as int))) as i64,
        y: sat(
            p.y + descale(v.y * (TRAJ_STEP_MS as int)) + tdiv(
                (GRAVITY_Y as int) * (TRAJ_STEP_MS as int) * (TRAJ_STEP_MS as int),
                2 * (FP as int) * (FP as int),
            ),
        ) as i64,
    };
    let nv = Vec2 { x: v.x, y: sat(v.y + descale((GRAVITY_Y as int) * (TRAJ_STEP_MS as int))) as i64 };
    (np, nv)
}

/// Position and velocity after `k` trajectory steps.
pub open spec fn traj_state(p: Vec2, v: Vec2, k: nat) -> (Vec2, Vec2)
    decreases k,
{
    if k == 0 {
        (p, v)
    } else {
        let prev = traj_state(p, v, (k - 1) as nat);
        traj_next(prev.0, prev.1)
    }
}

impl FallDetector {
    /// The fixed thresholds of the monitoring application.
    pub fn new() -> (d: FallDetector)
        ensures
            d == (FallDetector {
                gravity_threshold: -9500i64,
                velocity_threshold: 2000i64,
                acceleration_threshold: 15000i64,
                time_window_ms: 500u64,
            }),
            fd_wf(d),
    {
        FallDetector {
            gravity_threshold: -9500,
            velocity_threshold: 2000,
            acceleration_threshold: 15000,
            time_window_ms: 500,
        }
    }

    /// The observation window, kept for future use.
    pub fn get_time_window(&self) -> (r: u64)
        ensures
            r == self.time_window_ms,
    {
        self.time_window_ms
    }

    /// Score a track's current kinematics.
    pub fn analyze_fall_risk(&self, target: &TrackedTarget) -> (r: i64)
        requires
            fd_wf(*self),
            track_wf(*target),
        ensures
            r == risk_score(*self, *target),
            0 <= r <= FP,
    {
        let mut risk: i64 = 0;
        if target.acceleration.y < self.gravity_threshold {
            risk = risk + 400;
        }
        if target.velocity.y < -self.velocity_threshold {
            risk = risk + 300;
        }
        let accel_sq: i128 = norm_sq_wide(target.acceleration);
        if accel_sq > mul_wide(self.acceleration_threshold, self.acceleration_threshold) {
            risk = risk + 200;
        }
        let vel_sq: i128 = norm_sq_wide(target.velocity);
        let double_vt: i64 = 2 * self.velocity_threshold;
        if vel_sq > mul_wide(double_vt, double_vt) {
            risk = risk + 100;
        }
        if risk > FP {
            FP
        } else {
            risk
        }
    }

    /// Produce `time_steps` future positions of the track under constant
    /// gravity, starting from its current position and velocity. The
    /// track is read, never changed.
    pub fn predict_fall_trajectory(&self, target: &TrackedTarget, time_steps: usize) -> (r:
        TrajectoryBuf)
        requires
            track_wf(*target),
        ensures
            traj_points_of(r).len() == time_steps,
            forall|i: int|
                0 <= i < time_steps ==> #[trigger] traj_points_of(r)[i] == traj_state(
                    target.position,
                    target.velocity,
                    (i + 1) as nat,
                ).0,
            forall|i: int| 0 <= i < time_steps ==> vec2_wf(#[trigger] traj_points_of(r)[i]),
    {
        let mut trajectory: TrajectoryBuf = TrajectoryBuf::new();
        let mut position: Vec2 = target.position;
        let mut velocity: Vec2 = target.velocity;
        // Per-step constants: g dt^2 / 2 and g dt, brought to single scale.
        let g_pos_step: i64 = -12;
        let g_vel_step: i64 = -490;
        proof {
            assert((GRAVITY_Y as int) * (TRAJ_STEP_MS as int) == -490500int) by (nonlinear_arith)
                requires
                    GRAVITY_Y == -9810,
                    TRAJ_STEP_MS == 50,
            ;
            assert((GRAVITY_Y as int) * (TRAJ_STEP_MS as int) * (TRAJ_STEP_MS as int)
                == -24525000int) by (nonlinear_arith)
                requires
                    GRAVITY_Y == -9810,
                    TRAJ_STEP_MS == 50,
            ;
            assert(2 * (FP as int) * (FP as int) == 2000000int);
            vstd::arithmetic::div_mod::lemma_fundamental_div_mod_converse(
                24525000int,
                2000000int,
                12int,
                525000int,
            );
            assert(iabs(-24525000int) / iabs(2000000int) == 12int);
            assert(g_pos_step == tdiv(
                (GRAVITY_Y as int) * (TRAJ_STEP_MS as int) * (TRAJ_STEP_MS as int),
                2 * (FP as int) * (FP as int),
            ));
            vstd::arithmetic::div_mod::lemma_fundamental_div_mod_converse(
                490500int,
                1000int,
                490int,
                500int,
            );
            assert(iabs(-490500int) / iabs(1000int) == 490int);
            assert(g_vel_step == descale((GRAVITY_Y as int) * (TRAJ_STEP_MS as int)));
        }
        let mut k: usize = 0;
        while k < time_steps
            invariant
                k <= time_steps,
                vec2_wf(position),
                vec2_wf(velocity),
                (position, velocity) == traj_state(target.position, target.velocity, k as nat),
                traj_points_of(trajectory).len() == k,
                g_pos_step == tdiv(
                    (GRAVITY_Y as int) * (TRAJ_STEP_MS as int) * (TRAJ_STEP_MS as int),
                    2 * (FP as int) * (FP as int),
                ),
                g_vel_step == descale((GRAVITY_Y as int) * (TRAJ_STEP_MS as int)),
                forall|i: int|
                    0 <= i < k ==> #[trigger] traj_points_of(trajectory)[i] == traj_state(
                        target.position,
                        target.velocity,
                        (i + 1) as nat,
                    ).0,
                forall|i: int| 0 <= i < k ==> vec2_wf(#[trigger] traj_points_of(trajectory)[i]),
            decreases time_steps - k,
        {
            let vx_term: i64 = descale_wide(mul_wide(velocity.x, TRAJ_STEP_MS as i64));
            let vy_term: i64 = descale_wide(mul_wide(velocity.y, TRAJ_STEP_MS as i64));
            let new_position = Vec2 {
                x: sat_plus(position.x, vx_term),
                y: sat_narrow((position.y as i128) + (vy_term as i128) + (g_pos_step as i128)),
            };
            let new_velocity = Vec2 { x: velocity.x, y: sat_plus(velocity.y, g_vel_step) };
            proof {
                assert((new_position, new_velocity) == traj_next(position, velocity));
                assert(traj_state(target.position, target.velocity, (k + 1) as nat) == traj_next(
                    position,
                    velocity,
                ));
            }
            position = new_position;
            velocity = new_velocity;
            trajectory.push(position);
            k += 1;
        }
        trajectory
    }
}

} // verus!
