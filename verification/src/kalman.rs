//! Per-track state estimator: a fixed-point Kalman filter over a
//! six-dimensional kinematic state (position, velocity, acceleration in
//! two dimensions) corrected by position-only measurements.
//!
//! Policy notes, settled deliberately:
//! - The measurement model is the fixed position-extraction matrix, so the
//!   innovation covariance is the top-left 2x2 block of the state
//!   covariance plus the measurement noise, and the gain is formed from
//!   the first two columns of the state covariance.
//! - The gain-weighted innovation is committed to the position rows of the
//!   state only; velocity and acceleration keep their predicted values.
//!   The covariance correction is applied in full.
//! - Inversion of the innovation covariance is fallible: a zero
//!   determinant makes `update` return `false` and leave the filter
//!   unchanged, so one degenerate measurement can never abort tracking.

use vstd::prelude::*;

use crate::fixed::{FP, LIM, descale, descale_wide, div_wide, mul_wide, sat, sat_narrow, sat_plus,
    tdiv};
use crate::mat::{diag36, ma_mat, mat_add, mat_diag, mat_mul, mat_transition, mat_transpose,
    mat_vec_mul, mat_wf, mm_mat, mt_mat, mv_vec, trans_mat, vec6_wf};
use crate::vec2::{Vec2, vec2_wf};

verus! {

/// Initial covariance diagonal: uncertainty dominates at creation.
pub const INIT_COV: i64 = 100_000;

/// Process noise diagonal (0.1 in fixed point).
pub const PROC_NOISE: i64 = 100;

/// Measurement noise diagonal (1.0 in fixed point).
pub const MEAS_NOISE: i64 = 1000;

/// Well-formed 2x2 matrix of saturated entries, row-major.
pub open spec fn mat2_wf(m: Seq<i64>) -> bool {
    m.len() == 4 && forall|k: int| 0 <= k < 4 ==> -LIM <= #[trigger] m[k] <= LIM
}

/// Diagonal 2x2 matrix.
pub open spec fn diag2(v: i64) -> Seq<i64> {
    Seq::new(4, |k: int| if k == 0 || k == 3 { v } else { 0i64 })
}

/// Entry (a, b) of the innovation covariance: the top-left 2x2 block of
/// the state covariance plus the measurement noise.
pub open spec fn s_entry(p: Seq<i64>, r: Seq<i64>, a: int, b: int) -> int {
    p[6 * a + b] + r[2 * a + b]
}

/// Determinant of the innovation covariance (double scale).
pub open spec fn s_det(p: Seq<i64>, r: Seq<i64>) -> int {
    s_entry(p, r, 0, 0) * s_entry(p, r, 1, 1) - s_entry(p, r, 0, 1) * s_entry(p, r, 1, 0)
}

/// Entry (a, b) of the fixed-point inverse of the innovation covariance:
/// the adjugate over the determinant, brought to single scale.
pub open spec fn sinv_entry(p: Seq<i64>, r: Seq<i64>, a: int, b: int) -> int {
    let adj = if a == 0 && b == 0 {
        s_entry(p, r, 1, 1)
    } else if a == 1 && b == 1 {
        s_entry(p, r, 0, 0)
    } else if a == 0 && b == 1 {
        -s_entry(p, r, 0, 1)
    } else {
        -s_entry(p, r, 1, 0)
    };
    sat(tdiv(adj * ((FP as int) * (FP as int)), s_det(p, r)))
}

/// Entry (i, c) of the Kalman gain: row `i` of the first two covariance
/// columns times column `c` of the inverted innovation covariance.
pub open spec fn gain_entry(p: Seq<i64>, r: Seq<i64>, i: int, c: int) -> int {
    descale(p[6 * i] * sinv_entry(p, r, 0, c) + p[6 * i + 1] * sinv_entry(p, r, 1, c))
}

/// Gain-weighted innovation committed to state row `i`.
pub open spec fn su_entry(p: Seq<i64>, r: Seq<i64>, s: Seq<i64>, z: Vec2, i: int) -> int {
    descale(gain_entry(p, r, i, 0) * (z.x - s[0]) + gain_entry(p, r, i, 1) * (z.y - s[1]))
}

/// The corrected state: position rows absorb the gain-weighted
/// innovation, the remaining rows keep their predicted values.
pub open spec fn upd_state(p: Seq<i64>, r: Seq<i64>, s: Seq<i64>, z: Vec2) -> Seq<i64> {
    Seq::new(
        6,
        |i: int|
            if i < 2 {
                sat(s[i] + su_entry(p, r, s, z, i)) as i64
            } else {
                s[i]
            },
    )
}

/// Entry (i, j) of the covariance correction factor: the identity minus
/// the gain spread over the two measured columns.
pub open spec fn corr_entry(p: Seq<i64>, r: Seq<i64>, i: int, j: int) -> int {
    if j < 2 {
        sat((if i == j { FP as int } else { 0 }) - gain_entry(p, r, i, j))
    } else if i == j {
        FP as int
    } else {
        0
    }
}

/// The covariance correction factor as a matrix.
pub open spec fn corr_mat(p: Seq<i64>, r: Seq<i64>) -> Seq<i64> {
    Seq::new(36, |k: int| corr_entry(p, r, k / 6, k % 6) as i64)
}

/// The corrected covariance.
pub open spec fn upd_cov(p: Seq<i64>, r: Seq<i64>) -> Seq<i64> {
    mm_mat(corr_mat(p, r), p)
}

/// The per-track state estimator.
#[derive(Debug)]
pub struct KalmanFilter {
    /// State vector `[x, y, vx, vy, ax, ay]` in fixed point.
    pub state: Vec<i64>,
    /// State covariance, 6x6.
    pub covariance: Vec<i64>,
    /// Process noise, 6x6, fixed at construction.
    pub process_noise: Vec<i64>,
    /// Measurement noise, 2x2, fixed at construction.
    pub measurement_noise: Vec<i64>,
    /// Transition matrix of the most recent prediction.
    pub state_transition: Vec<i64>,
}

/// Well-formedness: every block has its shape and saturated entries.
pub open spec fn kf_wf(kf: &KalmanFilter) -> bool {
    &&& vec6_wf(kf.state@)
    &&& mat_wf(kf.covariance@)
    &&& mat_wf(kf.process_noise@)
    &&& mat2_wf(kf.measurement_noise@)
    &&& mat_wf(kf.state_transition@)
}

impl KalmanFilter {
    /// A fresh estimator: position from the first detection, velocity and
    /// acceleration zero, covariance a large multiple of the identity.
    pub fn new(initial_position: Vec2) -> (kf: KalmanFilter)
        requires
            vec2_wf(initial_position),
        ensures
            kf_wf(&kf),
            kf.state@ == seq![initial_position.x, initial_position.y, 0i64, 0i64, 0i64, 0i64],
            kf.covariance@ == diag36(INIT_COV),
            kf.process_noise@ == diag36(PROC_NOISE),
            kf.measurement_noise@ == diag2(MEAS_NOISE),
            kf.state_transition@ == diag36(FP),
    {
        let mut state: Vec<i64> = Vec::new();
        state.push(initial_position.x);
        state.push(initial_position.y);
        state.push(0);
        state.push(0);
        state.push(0);
        state.push(0);
        let mut measurement_noise: Vec<i64> = Vec::new();
        measurement_noise.push(MEAS_NOISE);
        measurement_noise.push(0);
        measurement_noise.push(0);
        measurement_noise.push(MEAS_NOISE);
        proof {
            assert(state@ =~= seq![
                initial_position.x,
                initial_position.y,
                0i64,
                0i64,
                0i64,
                0i64,
            ]);
            assert(measurement_noise@ =~= diag2(MEAS_NOISE));
        }
        KalmanFilter {
            state,
            covariance: mat_diag(INIT_COV),
            process_noise: mat_diag(PROC_NOISE),
            measurement_noise,
            state_transition: mat_diag(FP),
        }
    }

    /// Advance the state by `dt` milliseconds under the
    /// constant-acceleration model and propagate the covariance through
    /// the freshly built transition matrix plus the process noise.
    pub fn predict(&mut self, dt: u64)
        requires
            kf_wf(old(self)),
        ensures
            kf_wf(final(self)),
            final(self).process_noise@ == old(self).process_noise@,
            final(self).measurement_noise@ == old(self).measurement_noise@,
            final(self).state_transition@ == trans_mat(dt as int),
            final(self).state@ == mv_vec(trans_mat(dt as int), old(self).state@),
            final(self).covariance@ == ma_mat(
                mm_mat(
                    mm_mat(trans_mat(dt as int), old(self).covariance@),
                    mt_mat(trans_mat(dt as int)),
                ),
                old(self).process_noise@,
            ),
    {
        let f: Vec<i64> = mat_transition(dt);
        let new_state: Vec<i64> = mat_vec_mul(&f, &self.state);
        let fp_mat: Vec<i64> = mat_mul(&f, &self.covariance);
        let ft: Vec<i64> = mat_transpose(&f);
        let fpft: Vec<i64> = mat_mul(&fp_mat, &ft);
        let new_cov: Vec<i64> = mat_add(&fpft, &self.process_noise);
        self.state = new_state;
        self.covariance = new_cov;
        self.state_transition = f;
    }

    /// Correct the prediction with a position measurement. Returns `false`
    /// and leaves the filter unchanged when the innovation covariance is
    /// singular; otherwise commits the corrected state and covariance.
    pub fn update(&mut self, measurement: Vec2) -> (ok: bool)
        requires
            kf_wf(old(self)),
            vec2_wf(measurement),
        ensures
            kf_wf(final(self)),
            final(self).process_noise@ == old(self).process_noise@,
            final(self).measurement_noise@ == old(self).measurement_noise@,
            final(self).state_transition@ == old(self).state_transition@,
            ok <==> s_det(old(self).covariance@, old(self).measurement_noise@) != 0,
            !ok ==> final(self).state@ == old(self).state@ && final(self).covariance@ == old(
                self,
            ).covariance@,
            ok ==> final(self).state@ == upd_state(
                old(self).covariance@,
                old(self).measurement_noise@,
                old(self).state@,
                measurement,
            ),
            ok ==> final(self).covariance@ == upd_cov(
                old(self).covariance@,
                old(self).measurement_noise@,
            ),
    {
        let s00: i64 = self.covariance[0] + self.measurement_noise[0];
        let s01: i64 = self.covariance[1] + self.measurement_noise[1];
        let s10: i64 = self.covariance[6] + self.measurement_noise[2];
        let s11: i64 = self.covariance[7] + self.measurement_noise[3];
        let det: i128 = mul_wide(s00, s11) - mul_wide(s01, s10);
        if det == 0 {
            return false;
        }
        let f2: i128 = 1_000_000;
        proof {
            assert(f2 == (FP as int) * (FP as int));
        }
        let inv00: i64 = sat_narrow(div_wide((s11 as i128) * f2, det));
        let inv01: i64 = sat_narrow(div_wide((-(s01 as i128)) * f2, det));
        let inv10: i64 = sat_narrow(div_wide((-(s10 as i128)) * f2, det));
        let inv11: i64 = sat_narrow(div_wide((s00 as i128) * f2, det));
        let ghost p: Seq<i64> = self.covariance@;
        let ghost r: Seq<i64> = self.measurement_noise@;
        proof {
            assert(inv00 == sinv_entry(p, r, 0, 0));
            assert(inv01 == sinv_entry(p, r, 0, 1));
            assert(inv10 == sinv_entry(p, r, 1, 0));
            assert(inv11 == sinv_entry(p, r, 1, 1));
        }
        let mut gains: Vec<i64> = Vec::new();
        let mut i: usize = 0;
        while i < 6
            invariant
                kf_wf(self),
                self.covariance@ == p,
                self.measurement_noise@ == r,
                -LIM <= inv00 <= LIM,
                -LIM <= inv01 <= LIM,
                -LIM <= inv10 <= LIM,
                -LIM <= inv11 <= LIM,
                inv00 == sinv_entry(p, r, 0, 0),
                inv01 == sinv_entry(p, r, 0, 1),
                inv10 == sinv_entry(p, r, 1, 0),
                inv11 == sinv_entry(p, r, 1, 1),
                i <= 6,
                gains@.len() == 2 * i,
                forall|t: int|
                    0 <= t < gains@.len() ==> #[trigger] gains@[t] == gain_entry(
                        p,
                        r,
                        t / 2,
                        t % 2,
                    ) && -LIM <= gains@[t] <= LIM,
            decreases 6 - i,
        {
            let row: usize = 6 * i;
            let g0: i64 = descale_wide(
                mul_wide(self.covariance[row], inv00) + mul_wide(self.covariance[row + 1], inv10),
            );
            let g1: i64 = descale_wide(
                mul_wide(self.covariance[row], inv01) + mul_wide(self.covariance[row + 1], inv11),
            );
            proof {
                assert((2 * i) / 2 == i as int && (2 * i) % 2 == 0 && (2 * i + 1) / 2 == i as int
                    && (2 * i + 1) % 2 == 1) by (nonlinear_arith)
                    requires
                        0 <= i < 6,
                ;
            }
            gains.push(g0);
            gains.push(g1);
            i += 1;
        }
        let inn0: i64 = measurement.x - self.state[0];
        let inn1: i64 = measurement.y - self.state[1];
        let su0: i64 = descale_wide(mul_wide(gains[0], inn0) + mul_wide(gains[1], inn1));
        let su1: i64 = descale_wide(mul_wide(gains[2], inn0) + mul_wide(gains[3], inn1));
        let ghost s_old: Seq<i64> = self.state@;
        let ns0: i64 = sat_plus(self.state[0], su0);
        let ns1: i64 = sat_plus(self.state[1], su1);
        self.state.set(0, ns0);
        self.state.set(1, ns1);
        proof {
            assert(su0 == su_entry(p, r, s_old, measurement, 0));
            assert(su1 == su_entry(p, r, s_old, measurement, 1));
            assert(self.state@ =~= upd_state(p, r, s_old, measurement));
        }
        let mut corr: Vec<i64> = Vec::new();
        let mut ci: usize = 0;
        while ci < 6
            invariant
                gains@.len() == 12,
                forall|t: int|
                    0 <= t < gains@.len() ==> #[trigger] gains@[t] == gain_entry(
                        p,
                        r,
                        t / 2,
                        t % 2,
                    ) && -LIM <= gains@[t] <= LIM,
                ci <= 6,
                corr@.len() == 6 * ci,
                forall|k: int|
                    0 <= k < corr@.len() ==> #[trigger] corr@[k] == corr_entry(p, r, k / 6, k % 6),
            decreases 6 - ci,
        {
            let mut cj: usize = 0;
            while cj < 6
                invariant
                    gains@.len() == 12,
                    forall|t: int|
                        0 <= t < gains@.len() ==> #[trigger] gains@[t] == gain_entry(
                            p,
                            r,
                            t / 2,
                            t % 2,
                        ) && -LIM <= gains@[t] <= LIM,
                    ci < 6,
                    cj <= 6,
                    corr@.len() == 6 * ci + cj,
                    forall|k: int|
                        0 <= k < corr@.len() ==> #[trigger] corr@[k] == corr_entry(
                            p,
                            r,
                            k / 6,
                            k % 6,
                        ),
                decreases 6 - cj,
            {
                proof {
                    assert((6 * ci + cj) / 6 == ci as int && (6 * ci + cj) % 6 == cj as int)
                        by (nonlinear_arith)
                        requires
                            0 <= ci < 6,
                            0 <= cj < 6,
                    ;
                }
                if cj < 2 {
                    proof {
                        assert((2 * ci + cj) / 2 == ci as int && (2 * ci + cj) % 2 == cj as int)
                            by (nonlinear_arith)
                            requires
                                0 <= ci < 6,
                                0 <= cj < 2,
                        ;
                    }
                    let delta: i128 = if ci == cj {
                        FP as i128
                    } else {
                        0
                    };
                    corr.push(sat_narrow(delta - (gains[2 * ci + cj] as i128)));
                } else if ci == cj {
                    corr.push(FP);
                } else {
                    corr.push(0);
                }
                cj += 1;
            }
            ci += 1;
        }
        proof {
            assert(corr@ =~= corr_mat(p, r));
        }
        let new_cov: Vec<i64> = mat_mul(&corr, &self.covariance);
        self.covariance = new_cov;
        true
    }

    /// The filtered position.
    pub fn get_position(&self) -> (r: Vec2)
        requires
            kf_wf(self),
        ensures
            r == (Vec2 { x: self.state@[0], y: self.state@[1] }),
            vec2_wf(r),
    {
        Vec2 { x: self.state[0], y: self.state[1] }
    }

    /// The filtered velocity.
    pub fn get_velocity(&self) -> (r: Vec2)
        requires
            kf_wf(self),
        ensures
            r == (Vec2 { x: self.state@[2], y: self.state@[3] }),
            vec2_wf(r),
    {
        Vec2 { x: self.state[2], y: self.state[3] }
    }

    /// The filtered acceleration.
    pub fn get_acceleration(&self) -> (r: Vec2)
        requires
            kf_wf(self),
        ensures
            r == (Vec2 { x: self.state@[4], y: self.state@[5] }),
            vec2_wf(r),
    {
        Vec2 { x: self.state[4], y: self.state[5] }
    }
}

} // verus!
