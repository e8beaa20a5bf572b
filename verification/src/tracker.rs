//! The tracking manager: the single owner of every live track and its
//! estimator, detection-to-track association, per-channel capacity,
//! the predict/update cycle, and pruning of stale tracks.
//!
//! A track and its Kalman filter live in one `TrackEntry`, so they are
//! created and destroyed together by construction: no orphaned estimator
//! can outlive its track.

use vstd::prelude::*;

use crate::buffers::TrajectoryBuf;
use crate::buffers::traj_points_of;
use crate::fall::{FallDetector, fd_wf, risk_score, traj_state};
use crate::fixed::{lemma_descale_scaled, lemma_descale_zero};
use crate::fixed::FP;
use crate::kalman::{INIT_COV, KalmanFilter, MEAS_NOISE, PROC_NOISE, diag2, gain_entry, kf_wf,
    s_det, su_entry, upd_cov, upd_state};
use crate::mat::{diag36, lemma_trans_mat_row, ma_mat, mm_mat, mt_mat, mv_vec, trans_mat};
use crate::track::{FALL_THRESHOLD, TargetState, TrackedTarget, bump, bump_exec, conf_decay,
    conf_decay_exec, conf_gain, track_wf};
use crate::vec2::{Vec2, dist_sq, dist_sq_wide, vec2_wf};

verus! {

/// Default per-channel track capacity.
pub const DEFAULT_MAX_TARGETS_PER_ANTENNA: usize = 8;

/// Gating distance for association, in thousandths of a unit.
pub const GATING_DISTANCE: i64 = 2000;

/// The gating distance squared, for comparisons against squared
/// Euclidean distances.
pub const GATE_SQ: i64 = GATING_DISTANCE * GATING_DISTANCE;

/// Tracks whose confidence falls below this floor are pruned.
pub const CONFIDENCE_FLOOR: i64 = 100;

/// Tracks that coasted more than this many consecutive cycles are pruned.
pub const MAX_COAST_CYCLES: u32 = 10;

/// One live track together with its estimator. Keeping the pair in one
/// entry makes their lifecycles equal by construction.
#[derive(Debug)]
pub struct TrackEntry {
    pub target: TrackedTarget,
    pub filter: KalmanFilter,
}

/// What `associate_or_create` did with a detection.
#[derive(Debug, Clone, Copy, PartialEq, Eq, Structural)]
pub enum AssociationResult {
    /// The detection matched a live track, which was updated.
    Updated(u32),
    /// No track was within the gating distance; a new one was created.
    Created(u32),
    /// No match, and the channel already holds its maximum of tracks:
    /// the detection was dropped.
    CapacityExceeded,
}

/// The multi-target tracking manager.
#[derive(Debug)]
pub struct MultiTargetTracker {
    /// Live tracks with their estimators, in ascending id order.
    pub targets: Vec<TrackEntry>,
    /// The stateless fall-risk detector.
    pub fall_detector: FallDetector,
    /// The next id to allocate; ids are never reused.
    pub next_target_id: u32,
    /// Per-channel capacity.
    pub max_targets_per_antenna: usize,
    /// Number of acquisition channels, kept for validation.
    pub antenna_count: u8,
}

/// A well-formed entry: its track and filter are both well-formed.
pub open spec fn entry_wf(e: TrackEntry) -> bool {
    track_wf(e.target) && kf_wf(&e.filter)
}

/// All entries well-formed.
pub open spec fn entries_wf(s: Seq<TrackEntry>) -> bool {
    forall|i: int| 0 <= i < s.len() ==> entry_wf(#[trigger] s[i])
}

/// Ids strictly increase along the sequence, so every id is unique.
pub open spec fn ids_increasing(s: Seq<TrackEntry>) -> bool {
    forall|i: int, j: int|
        0 <= i < j < s.len() ==> #[trigger] s[i].target.id < #[trigger] s[j].target.id
}

/// Every id lies below the allocation counter.
pub open spec fn ids_below(s: Seq<TrackEntry>, n: u32) -> bool {
    forall|i: int| 0 <= i < s.len() ==> #[trigger] s[i].target.id < n
}

/// How many live tracks a channel holds.
pub open spec fn antenna_count_of(s: Seq<TrackEntry>, a: u8) -> int
    decreases s.len(),
{
    if s.len() == 0 {
        0
    } else {
        antenna_count_of(s.drop_last(), a) + if s.last().target.antenna_id == a {
            1int
        } else {
            0int
        }
    }
}

/// No channel exceeds the capacity.
pub open spec fn capacity_ok(s: Seq<TrackEntry>, max: usize) -> bool {
    forall|a: u8| antenna_count_of(s, a) <= max
}

/// The manager's invariant.
pub open spec fn tracker_wf(t: &MultiTargetTracker) -> bool {
    &&& entries_wf(t.targets@)
    &&& ids_increasing(t.targets@)
    &&& ids_below(t.targets@, t.next_target_id)
    &&& capacity_ok(t.targets@, t.max_targets_per_antenna)
    &&& fd_wf(t.fall_detector)
}

/// Whether some live track carries this id.
pub open spec fn has_id(s: Seq<TrackEntry>, id: u32) -> bool {
    exists|i: int| 0 <= i < s.len() && #[trigger] s[i].target.id == id
}

/// The tracks, in order, without their filters.
pub open spec fn tracks_of(s: Seq<TrackEntry>) -> Seq<TrackedTarget> {
    s.map_values(|e: TrackEntry| e.target)
}

/// The tracks currently classified as falling, in order.
pub open spec fn falling_of(s: Seq<TrackEntry>) -> Seq<TrackedTarget>
    decreases s.len(),
{
    if s.len() == 0 {
        Seq::empty()
    } else {
        falling_of(s.drop_last()) + if s.last().target.fall_probability > FALL_THRESHOLD {
            seq![s.last().target]
        } else {
            Seq::empty()
        }
    }
}

/// The tracks of one channel, in order.
pub open spec fn antenna_targets_of(s: Seq<TrackEntry>, a: u8) -> Seq<TrackedTarget>
    decreases s.len(),
{
    if s.len() == 0 {
        Seq::empty()
    } else {
        antenna_targets_of(s.drop_last(), a) + if s.last().target.antenna_id == a {
            seq![s.last().target]
        } else {
            Seq::empty()
        }
    }
}

/// A freshly created track.
pub open spec fn fresh_track(id: u32, antenna_id: u8, pos: Vec2, now: u64) -> TrackedTarget {
    TrackedTarget {
        id,
        antenna_id,
        position: pos,
        velocity: Vec2 { x: 0, y: 0 },
        acceleration: Vec2 { x: 0, y: 0 },
        state: TargetState::Tracking,
        confidence: FP,
        last_update: now,
        prediction_count: 0,
        fall_probability: 0,
    }
}

/// A freshly constructed estimator for a first detection at `pos`.
pub open spec fn fresh_filter(kf: KalmanFilter, pos: Vec2) -> bool {
    &&& kf.state@ == seq![pos.x, pos.y, 0i64, 0i64, 0i64, 0i64]
    &&& kf.covariance@ == diag36(INIT_COV)
    &&& kf.process_noise@ == diag36(PROC_NOISE)
    &&& kf.measurement_noise@ == diag2(MEAS_NOISE)
    &&& kf.state_transition@ == diag36(FP)
}

/// A freshly created entry.
pub open spec fn fresh_entry(e: TrackEntry, id: u32, antenna_id: u8, pos: Vec2, now: u64) -> bool {
    e.target == fresh_track(id, antenna_id, pos, now) && fresh_filter(e.filter, pos)
}

/// Creation appended exactly one fresh entry.
pub open spec fn add_effect(
    pre: Seq<TrackEntry>,
    post: Seq<TrackEntry>,
    id: u32,
    antenna_id: u8,
    pos: Vec2,
    now: u64,
) -> bool {
    &&& post.len() == pre.len() + 1
    &&& post.subrange(0, pre.len() as int) == pre
    &&& fresh_entry(post.last(), id, antenna_id, pos, now)
}

/// The filter fields after a prediction over `dt` milliseconds.
pub open spec fn predicted_filter(pre: KalmanFilter, post: KalmanFilter, dt: int) -> bool {
    &&& post.state@ == mv_vec(trans_mat(dt), pre.state@)
    &&& post.covariance@ == ma_mat(
        mm_mat(mm_mat(trans_mat(dt), pre.covariance@), mt_mat(trans_mat(dt))),
        pre.process_noise@,
    )
    &&& post.process_noise@ == pre.process_noise@
    &&& post.measurement_noise@ == pre.measurement_noise@
    &&& post.state_transition@ == trans_mat(dt)
}

/// A track after a coast cycle: kinematics from the predicted state,
/// `Predicted` lifecycle state, one more coast cycle, decayed confidence.
pub open spec fn coasted_target(t: TrackedTarget, s1: Seq<i64>) -> TrackedTarget {
    TrackedTarget {
        position: Vec2 { x: s1[0], y: s1[1] },
        velocity: Vec2 { x: s1[2], y: s1[3] },
        acceleration: Vec2 { x: s1[4], y: s1[5] },
        state: TargetState::Predicted,
        confidence: conf_decay(t.confidence as int) as i64,
        prediction_count: bump(t.prediction_count),
        ..t
    }
}

/// One entry after a coast cycle of `dt` milliseconds.
pub open spec fn coast_effect(e: TrackEntry, e2: TrackEntry, dt: int) -> bool {
    &&& predicted_filter(e.filter, e2.filter, dt)
    &&& e2.target == coasted_target(e.target, mv_vec(trans_mat(dt), e.filter.state@))
}

/// A track after a committed measurement: kinematics from the corrected
/// state `s2`, refreshed bookkeeping, fall risk recomputed, and the
/// lifecycle state branching on that risk.
pub open spec fn measured_target(
    fd: FallDetector,
    t: TrackedTarget,
    s2: Seq<i64>,
    now: u64,
) -> TrackedTarget {
    let kin = TrackedTarget {
        position: Vec2 { x: s2[0], y: s2[1] },
        velocity: Vec2 { x: s2[2], y: s2[3] },
        acceleration: Vec2 { x: s2[4], y: s2[5] },
        ..t
    };
    let risk = risk_score(fd, kin);
    TrackedTarget {
        state: if risk > FALL_THRESHOLD {
            TargetState::Falling
        } else {
            TargetState::Tracking
        },
        confidence: conf_gain(t.confidence as int) as i64,
        last_update: now,
        prediction_count: 0,
        fall_probability: risk as i64,
        ..kin
    }
}

/// One entry after predict-then-correct with measurement `z` over `dt`
/// milliseconds.
pub open spec fn measure_effect(
    fd: FallDetector,
    e: TrackEntry,
    e2: TrackEntry,
    z: Vec2,
    dt: int,
    now: u64,
) -> bool {
    let s1 = mv_vec(trans_mat(dt), e.filter.state@);
    let c1 = ma_mat(
        mm_mat(mm_mat(trans_mat(dt), e.filter.covariance@), mt_mat(trans_mat(dt))),
        e.filter.process_noise@,
    );
    let r = e.filter.measurement_noise@;
    let s2 = upd_state(c1, r, s1, z);
    &&& e2.filter.state@ == s2
    &&& e2.filter.covariance@ == upd_cov(c1, r)
    &&& e2.filter.process_noise@ == e.filter.process_noise@
    &&& e2.filter.measurement_noise@ == r
    &&& e2.filter.state_transition@ == trans_mat(dt)
    &&& e2.target == measured_target(fd, e.target, s2, now)
}

/// Whether the measurement correction can run after prediction over
/// `dt`: the predicted innovation covariance is invertible.
pub open spec fn update_ok(e: TrackEntry, dt: int) -> bool {
    s_det(
        ma_mat(
            mm_mat(mm_mat(trans_mat(dt), e.filter.covariance@), mt_mat(trans_mat(dt))),
            e.filter.process_noise@,
        ),
        e.filter.measurement_noise@,
    ) != 0
}

/// Whether an update at time `now` commits a measurement to entry `e`:
/// time must have advanced and the correction must be possible.
pub open spec fn upd_flag(e: TrackEntry, now: u64) -> bool {
    now > e.target.last_update && update_ok(e, now - e.target.last_update)
}

/// Only position `i` may differ between `pre` and `post`.
pub open spec fn only_changed_at(pre: Seq<TrackEntry>, post: Seq<TrackEntry>, i: int) -> bool {
    post.len() == pre.len() && forall|j: int|
        0 <= j < pre.len() && j != i ==> post[j] == #[trigger] pre[j]
}

/// What an update against the track at position `i` did: a no-op on a
/// degenerate time delta; otherwise predict, then either the committed
/// correction or the degraded coast cycle when the innovation covariance
/// is singular.
pub open spec fn update_effect_at(
    fd: FallDetector,
    pre: Seq<TrackEntry>,
    post: Seq<TrackEntry>,
    i: int,
    z: Vec2,
    now: u64,
    updated: bool,
) -> bool {
    let e = pre[i];
    if now <= e.target.last_update {
        post == pre && !updated
    } else {
        let dt = now - e.target.last_update;
        &&& only_changed_at(pre, post, i)
        &&& updated == update_ok(e, dt)
        &&& (updated ==> measure_effect(fd, e, post[i], z, dt, now))
        &&& (!updated ==> coast_effect(e, post[i], dt))
    }
}

/// What an update against id `id` did to the whole live set.
pub open spec fn update_effect(
    fd: FallDetector,
    pre: Seq<TrackEntry>,
    post: Seq<TrackEntry>,
    id: u32,
    z: Vec2,
    now: u64,
    updated: bool,
) -> bool {
    if !has_id(pre, id) {
        post == pre && !updated
    } else {
        exists|i: int|
            #![auto]
            0 <= i < pre.len() && pre[i].target.id == id && update_effect_at(
                fd,
                pre,
                post,
                i,
                z,
                now,
                updated,
            )
    }
}

/// Milliseconds elapsed since `lu` at time `now`, saturating at zero as
/// the platform's monotonic clock difference does.
pub open spec fn elapsed_since(now: u64, lu: u64) -> int {
    if now >= lu {
        now - lu
    } else {
        0
    }
}

/// Whether a pruning pass keeps an entry: recently updated, confident
/// enough, and not coasting too long.
pub open spec fn keep_entry(e: TrackEntry, timeout_ms: u64, now: u64) -> bool {
    &&& elapsed_since(now, e.target.last_update) <= timeout_ms
    &&& e.target.confidence >= CONFIDENCE_FLOOR
    &&& e.target.prediction_count <= MAX_COAST_CYCLES
}

/// The live set after a pruning pass.
pub open spec fn pruned(s: Seq<TrackEntry>, timeout_ms: u64, now: u64) -> Seq<TrackEntry> {
    s.filter(|e: TrackEntry| keep_entry(e, timeout_ms, now))
}

/// Whether any live track lies within the gating distance of `z`.
pub open spec fn has_candidate(s: Seq<TrackEntry>, z: Vec2) -> bool {
    exists|i: int| 0 <= i < s.len() && dist_sq(z, #[trigger] s[i].target.position) <= GATE_SQ
}

/// Position `i` holds the nearest track within the gating distance,
/// ties broken by the lowest position (hence the lowest id).
pub open spec fn best_match(s: Seq<TrackEntry>, z: Vec2, i: int) -> bool {
    &&& 0 <= i < s.len()
    &&& dist_sq(z, s[i].target.position) <= GATE_SQ
    &&& forall|j: int|
        0 <= j < i ==> dist_sq(z, #[trigger] s[j].target.position) > dist_sq(
            z,
            s[i].target.position,
        )
    &&& forall|j: int|
        i <= j < s.len() ==> dist_sq(z, #[trigger] s[j].target.position) >= dist_sq(
            z,
            s[i].target.position,
        )
}

/// Appending an entry raises its own channel's count by one and leaves
/// every other channel's count unchanged.
proof fn lemma_count_push(s: Seq<TrackEntry>, e: TrackEntry, a: u8)
    ensures
        antenna_count_of(s.push(e), a) == antenna_count_of(s, a) + if e.target.antenna_id == a {
            1int
        } else {
            0int
        },
{
    assert(s.push(e).drop_last() =~= s);
    assert(s.push(e).last() == e);
}

/// Extending a prefix by one element adds that element's contribution.
proof fn lemma_count_take_step(s: Seq<TrackEntry>, i: int, a: u8)
    requires
        0 <= i < s.len(),
    ensures
        antenna_count_of(s.take(i + 1), a) == antenna_count_of(s.take(i), a) + if s[i].target.antenna_id
            == a {
            1int
        } else {
            0int
        },
{
    assert(s.take(i + 1).drop_last() =~= s.take(i));
    assert(s.take(i + 1).last() == s[i]);
}

/// Replacing an entry with one on the same channel leaves every
/// channel's count unchanged.
proof fn lemma_count_update(s: Seq<TrackEntry>, i: int, e: TrackEntry, a: u8)
    requires
        0 <= i < s.len(),
        e.target.antenna_id == s[i].target.antenna_id,
    ensures
        antenna_count_of(s.update(i, e), a) == antenna_count_of(s, a),
    decreases s.len(),
{
    if i == s.len() - 1 {
        assert(s.update(i, e).drop_last() =~= s.drop_last());
        assert(s.update(i, e).last() == e);
    } else {
        assert(s.update(i, e).drop_last() =~= s.drop_last().update(i, e));
        assert(s.update(i, e).last() == s.last());
        lemma_count_update(s.drop_last(), i, e, a);
    }
}

/// Extending the pruned prefix by one element keeps it when the element
/// passes the filter and drops it otherwise.
proof fn lemma_pruned_step(s: Seq<TrackEntry>, i: int, timeout_ms: u64, now: u64)
    requires
        0 <= i < s.len(),
    ensures
        pruned(s.take(i + 1), timeout_ms, now) == (if keep_entry(s[i], timeout_ms, now) {
            pruned(s.take(i), timeout_ms, now).push(s[i])
        } else {
            pruned(s.take(i), timeout_ms, now)
        }),
{
    reveal_with_fuel(Seq::filter, 2);
    assert(s.take(i + 1).drop_last() =~= s.take(i));
    assert(s.take(i + 1).last() == s[i]);
}

impl MultiTargetTracker {
    /// A fresh manager for `antenna_count` channels: no tracks, ids from
    /// zero, the default capacity and thresholds.
    pub fn new(antenna_count: u8) -> (t: MultiTargetTracker)
        ensures
            tracker_wf(&t),
            t.targets@.len() == 0,
            t.next_target_id == 0,
            t.max_targets_per_antenna == DEFAULT_MAX_TARGETS_PER_ANTENNA,
            t.antenna_count == antenna_count,
            t.fall_detector == (FallDetector {
                gravity_threshold: -9500i64,
                velocity_threshold: 2000i64,
                acceleration_threshold: 15000i64,
                time_window_ms: 500u64,
            }),
    {
        let t = MultiTargetTracker {
            targets: Vec::new(),
            fall_detector: FallDetector::new(),
            next_target_id: 0,
            max_targets_per_antenna: DEFAULT_MAX_TARGETS_PER_ANTENNA,
            antenna_count,
        };
        proof {
            assert forall|a: u8| antenna_count_of(t.targets@, a) <= t.max_targets_per_antenna by {
                assert(antenna_count_of(t.targets@, a) == 0);
            }
        }
        t
    }

    /// The number of acquisition channels this manager was built for.
    pub fn get_antenna_count(&self) -> (r: u8)
        ensures
            r == self.antenna_count,
    {
        self.antenna_count
    }

    /// The number of live tracks.
    pub fn get_target_count(&self) -> (r: usize)
        ensures
            r == self.targets@.len(),
    {
        self.targets.len()
    }

    /// The number of live tracks on one channel.
    pub fn get_target_count_by_antenna(&self, antenna_id: u8) -> (r: usize)
        ensures
            r == antenna_count_of(self.targets@, antenna_id),
    {
        let ghost s = self.targets@;
        let mut count: usize = 0;
        let mut i: usize = 0;
        while i < self.targets.len()
            invariant
                self.targets@ == s,
                i <= s.len(),
                count <= i,
                count == antenna_count_of(s.take(i as int), antenna_id),
            decreases s.len() - i,
        {
            proof {
                lemma_count_take_step(s, i as int, antenna_id);
            }
            if self.targets[i].target.antenna_id == antenna_id {
                count += 1;
            }
            i += 1;
        }
        proof {
            assert(s.take(s.len() as int) =~= s);
        }
        count
    }

    /// All live tracks, in ascending id order.
    pub fn get_all_targets(&self) -> (r: Vec<TrackedTarget>)
        ensures
            r@ == tracks_of(self.targets@),
    {
        let mut out: Vec<TrackedTarget> = Vec::new();
        let mut i: usize = 0;
        while i < self.targets.len()
            invariant
                i <= self.targets@.len(),
                out@.len() == i,
                forall|j: int| 0 <= j < i ==> out@[j] == #[trigger] self.targets@[j].target,
            decreases self.targets@.len() - i,
        {
            out.push(self.targets[i].target);
            i += 1;
        }
        proof {
            assert(out@ =~= tracks_of(self.targets@));
        }
        out
    }

    /// The live tracks currently classified as falling.
    pub fn get_falling_targets(&self) -> (r: Vec<TrackedTarget>)
        ensures
            r@ == falling_of(self.targets@),
    {
        let ghost s = self.targets@;
        let mut out: Vec<TrackedTarget> = Vec::new();
        let mut i: usize = 0;
        while i < self.targets.len()
            invariant
                self.targets@ == s,
                i <= s.len(),
                out@ == falling_of(s.take(i as int)),
            decreases s.len() - i,
        {
            proof {
                assert(s.take(i + 1).drop_last() =~= s.take(i as int));
                assert(s.take(i + 1).last() == s[i as int]);
            }
            if self.targets[i].target.is_falling() {
                out.push(self.targets[i].target);
                proof {
                    assert(out@ =~= falling_of(s.take(i + 1)));
                }
            } else {
                proof {
                    assert(out@ =~= falling_of(s.take(i + 1)));
                }
            }
            i += 1;
        }
        proof {
            assert(s.take(s.len() as int) =~= s);
        }
        out
    }

    /// The live tracks of one channel.
    pub fn get_targets_by_antenna(&self, antenna_id: u8) -> (r: Vec<TrackedTarget>)
        ensures
            r@ == antenna_targets_of(self.targets@, antenna_id),
    {
        let ghost s = self.targets@;
        let mut out: Vec<TrackedTarget> = Vec::new();
        let mut i: usize = 0;
        while i < self.targets.len()
            invariant
                self.targets@ == s,
                i <= s.len(),
                out@ == antenna_targets_of(s.take(i as int), antenna_id),
            decreases s.len() - i,
        {
            proof {
                assert(s.take(i + 1).drop_last() =~= s.take(i as int));
                assert(s.take(i + 1).last() == s[i as int]);
            }
            if self.targets[i].target.antenna_id == antenna_id {
                out.push(self.targets[i].target);
                proof {
                    assert(out@ =~= antenna_targets_of(s.take(i + 1), antenna_id));
                }
            } else {
                proof {
                    assert(out@ =~= antenna_targets_of(s.take(i + 1), antenna_id));
                }
            }
            i += 1;
        }
        proof {
            assert(s.take(s.len() as int) =~= s);
        }
        out
    }

    /// Remove every live track and its estimator.
    pub fn clear_all_targets(&mut self)
        requires
            tracker_wf(old(self)),
        ensures
            tracker_wf(final(self)),
            final(self).targets@.len() == 0,
            final(self).next_target_id == old(self).next_target_id,
            final(self).fall_detector == old(self).fall_detector,
            final(self).max_targets_per_antenna == old(self).max_targets_per_antenna,
            final(self).antenna_count == old(self).antenna_count,
    {
        self.targets = Vec::new();
        proof {
            assert forall|a: u8|
                antenna_count_of(self.targets@, a) <= self.max_targets_per_antenna by {
                assert(antenna_count_of(self.targets@, a) == 0);
            }
        }
    }

    /// Create a track for a detection on a channel, if the channel has
    /// room: the next id is allocated, and the track and its estimator
    /// are inserted together. On a full channel nothing changes and no
    /// id is returned.
    pub fn add_target(&mut self, antenna_id: u8, position: Vec2, now: u64) -> (r: Option<u32>)
        requires
            tracker_wf(old(self)),
            vec2_wf(position),
            old(self).next_target_id < u32::MAX,
        ensures
            tracker_wf(final(self)),
            final(self).fall_detector == old(self).fall_detector,
            final(self).max_targets_per_antenna == old(self).max_targets_per_antenna,
            final(self).antenna_count == old(self).antenna_count,
            antenna_count_of(old(self).targets@, antenna_id) >= old(self).max_targets_per_antenna
                ==> (r is None && final(self).targets@ == old(self).targets@
                && final(self).next_target_id == old(self).next_target_id),
            antenna_count_of(old(self).targets@, antenna_id) < old(self).max_targets_per_antenna
                ==> (r == Some(old(self).next_target_id)
                && final(self).next_target_id == old(self).next_target_id + 1
                && add_effect(
                old(self).targets@,
                final(self).targets@,
                old(self).next_target_id,
                antenna_id,
                position,
                now,
            )),
    {
        let current_count: usize = self.get_target_count_by_antenna(antenna_id);
        if current_count >= self.max_targets_per_antenna {
            return None;
        }
        let target_id: u32 = self.next_target_id;
        self.next_target_id = target_id + 1;
        let target = TrackedTarget::new(target_id, antenna_id, position, now);
        let filter = KalmanFilter::new(position);
        let ghost pre = self.targets@;
        self.targets.push(TrackEntry { target, filter });
        proof {
            let post = self.targets@;
            assert(post.subrange(0, pre.len() as int) =~= pre);
            assert forall|a: u8| antenna_count_of(post, a) <= self.max_targets_per_antenna by {
                lemma_count_push(pre, post.last(), a);
            }
        }
        Some(target_id)
    }

    /// Feed a position measurement to the track with this id. On a
    /// known id with positive elapsed time, the estimator predicts and
    /// then corrects; the corrected kinematics, a refreshed confidence
    /// and a recomputed fall risk are committed to the track, whose
    /// state becomes `Falling` or `Tracking` by that risk. A singular
    /// innovation covariance degrades the cycle to a coast instead.
    /// Returns whether a measurement was committed.
    #[verifier::rlimit(100)]
    pub fn update_target(&mut self, target_id: u32, new_position: Vec2, now: u64) -> (updated:
        bool)
        requires
            tracker_wf(old(self)),
            vec2_wf(new_position),
        ensures
            tracker_wf(final(self)),
            final(self).next_target_id == old(self).next_target_id,
            final(self).fall_detector == old(self).fall_detector,
            final(self).max_targets_per_antenna == old(self).max_targets_per_antenna,
            final(self).antenna_count == old(self).antenna_count,
            update_effect(
                old(self).fall_detector,
                old(self).targets@,
                final(self).targets@,
                target_id,
                new_position,
                now,
                updated,
            ),
    {
        let ghost pre = self.targets@;
        let n: usize = self.targets.len();
        let mut idx: usize = 0;
        while idx < n && self.targets[idx].target.id != target_id
            invariant
                self.targets@ == pre,
                n == pre.len(),
                idx <= n,
                forall|j: int| 0 <= j < idx ==> #[trigger] pre[j].target.id != target_id,
            decreases n - idx,
        {
            idx += 1;
        }
        if idx == n {
            proof {
                assert(!has_id(pre, target_id));
            }
            return false;
        }
        let mut entry: TrackEntry = self.targets.remove(idx);
        let ghost e0 = pre[idx as int];
        if now <= entry.target.last_update {
            self.targets.insert(idx, entry);
            proof {
                assert(self.targets@ =~= pre);
                assert(update_effect_at(
                    self.fall_detector,
                    pre,
                    self.targets@,
                    idx as int,
                    new_position,
                    now,
                    false,
                ));
            }
            return false;
        }
        let dt: u64 = now - entry.target.last_update;
        entry.filter.predict(dt);
        let ok: bool = entry.filter.update(new_position);
        if ok {
            let filtered_pos: Vec2 = entry.filter.get_position();
            entry.target.update_position(filtered_pos, dt, now);
            entry.target.velocity = entry.filter.get_velocity();
            entry.target.acceleration = entry.filter.get_acceleration();
            let risk: i64 = self.fall_detector.analyze_fall_risk(&entry.target);
            entry.target.fall_probability = risk;
            if risk > FALL_THRESHOLD {
                entry.target.state = TargetState::Falling;
            } else {
                entry.target.state = TargetState::Tracking;
            }
            proof {
                assert(measure_effect(
                    self.fall_detector,
                    e0,
                    entry,
                    new_position,
                    dt as int,
                    now,
                ));
            }
            self.targets.insert(idx, entry);
            proof {
                self.lemma_update_commit(pre, idx as int, new_position, now, true);
            }
            true
        } else {
            // Degrade to a coast cycle: the prediction stands, no
            // measurement is committed.
            entry.target.position = entry.filter.get_position();
            entry.target.velocity = entry.filter.get_velocity();
            entry.target.acceleration = entry.filter.get_acceleration();
            entry.target.state = TargetState::Predicted;
            entry.target.prediction_count = bump_exec(entry.target.prediction_count);
            entry.target.confidence = conf_decay_exec(entry.target.confidence);
            proof {
                assert(coast_effect(e0, entry, dt as int));
            }
            self.targets.insert(idx, entry);
            proof {
                self.lemma_update_commit(pre, idx as int, new_position, now, false);
            }
            false
        }
    }

    /// After writing the transformed entry back at `i`, the whole-set
    /// update effect and the manager invariant hold again.
    #[verifier::rlimit(100)]
    proof fn lemma_update_commit(
        &self,
        pre: Seq<TrackEntry>,
        i: int,
        z: Vec2,
        now: u64,
        updated: bool,
    )
        requires
            0 <= i < pre.len(),
            entries_wf(pre),
            ids_increasing(pre),
            capacity_ok(pre, self.max_targets_per_antenna),
            ids_below(pre, self.next_target_id),
            fd_wf(self.fall_detector),
            self.targets@.len() == pre.len(),
            forall|j: int| 0 <= j < pre.len() && j != i ==> self.targets@[j] == #[trigger] pre[j],
            entry_wf(self.targets@[i]),
            self.targets@[i].target.id == pre[i].target.id,
            self.targets@[i].target.antenna_id == pre[i].target.antenna_id,
            now > pre[i].target.last_update,
            updated == update_ok(pre[i], now - pre[i].target.last_update),
            updated ==> measure_effect(
                self.fall_detector,
                pre[i],
                self.targets@[i],
                z,
                now - pre[i].target.last_update,
                now,
            ),
            !updated ==> coast_effect(pre[i], self.targets@[i], now - pre[i].target.last_update),
        ensures
            tracker_wf(self),
            update_effect(
                self.fall_detector,
                pre,
                self.targets@,
                pre[i].target.id,
                z,
                now,
                updated,
            ),
    {
        let post = self.targets@;
        assert(post =~= pre.update(i, post[i]));
        assert forall|a: u8| antenna_count_of(post, a) <= self.max_targets_per_antenna by {
            lemma_count_update(pre, i, post[i], a);
        }
        assert(has_id(pre, pre[i].target.id));
        assert(update_effect_at(self.fall_detector, pre, post, i, z, now, updated));
    }

    /// Advance every live track by prediction only: no measurement, the
    /// lifecycle state becomes `Predicted`, the coast counter grows and
    /// the confidence decays.
    pub fn predict_all_targets(&mut self, prediction_time_ms: u64)
        requires
            tracker_wf(old(self)),
        ensures
            tracker_wf(final(self)),
            final(self).next_target_id == old(self).next_target_id,
            final(self).fall_detector == old(self).fall_detector,
            final(self).max_targets_per_antenna == old(self).max_targets_per_antenna,
            final(self).antenna_count == old(self).antenna_count,
            final(self).targets@.len() == old(self).targets@.len(),
            forall|i: int|
                0 <= i < old(self).targets@.len() ==> coast_effect(
                    old(self).targets@[i],
                    #[trigger] final(self).targets@[i],
                    prediction_time_ms as int,
                ),
    {
        let ghost pre = self.targets@;
        let ghost fd = self.fall_detector;
        let ghost next = self.next_target_id;
        let ghost max = self.max_targets_per_antenna;
        let ghost ac = self.antenna_count;
        let mut i: usize = 0;
        while i < self.targets.len()
            invariant
                tracker_wf(self),
                self.fall_detector == fd,
                self.next_target_id == next,
                self.max_targets_per_antenna == max,
                self.antenna_count == ac,
                entries_wf(pre),
                self.targets@.len() == pre.len(),
                i <= pre.len(),
                forall|j: int|
                    0 <= j < i ==> coast_effect(
                        pre[j],
                        #[trigger] self.targets@[j],
                        prediction_time_ms as int,
                    ),
                forall|j: int| i <= j < pre.len() ==> self.targets@[j] == #[trigger] pre[j],
            decreases pre.len() - i,
        {
            let ghost before = self.targets@;
            let mut entry: TrackEntry = self.targets.remove(i);
            entry.filter.predict(prediction_time_ms);
            entry.target.position = entry.filter.get_position();
            entry.target.velocity = entry.filter.get_velocity();
            entry.target.acceleration = entry.filter.get_acceleration();
            entry.target.state = TargetState::Predicted;
            entry.target.prediction_count = bump_exec(entry.target.prediction_count);
            entry.target.confidence = conf_decay_exec(entry.target.confidence);
            proof {
                assert(coast_effect(pre[i as int], entry, prediction_time_ms as int));
            }
            self.targets.insert(i, entry);
            proof {
                assert(self.targets@ =~= before.update(i as int, entry));
                assert forall|a: u8|
                    antenna_count_of(self.targets@, a) <= self.max_targets_per_antenna by {
                    lemma_count_update(before, i as int, entry, a);
                }
            }
            i += 1;
        }
    }

    /// Remove every track whose idle time exceeds the timeout, whose
    /// confidence fell below the floor, or which coasted too many
    /// consecutive cycles — each together with its estimator, since the
    /// two live in one entry.
    pub fn remove_lost_targets(&mut self, timeout_ms: u64, now: u64)
        requires
            tracker_wf(old(self)),
        ensures
            tracker_wf(final(self)),
            final(self).next_target_id == old(self).next_target_id,
            final(self).fall_detector == old(self).fall_detector,
            final(self).max_targets_per_antenna == old(self).max_targets_per_antenna,
            final(self).antenna_count == old(self).antenna_count,
            final(self).targets@ == pruned(old(self).targets@, timeout_ms, now),
            forall|j: int|
                0 <= j < final(self).targets@.len() ==> keep_entry(
                    #[trigger] final(self).targets@[j],
                    timeout_ms,
                    now,
                ),
    {
        let ghost s = self.targets@;
        let mut kept: Vec<TrackEntry> = Vec::new();
        let ghost mut i: int = 0;
        while self.targets.len() > 0
            invariant
                entries_wf(s),
                ids_increasing(s),
                ids_below(s, self.next_target_id),
                self.next_target_id == old(self).next_target_id,
                self.fall_detector == old(self).fall_detector,
                self.max_targets_per_antenna == old(self).max_targets_per_antenna,
                self.antenna_count == old(self).antenna_count,
                0 <= i,
                i + self.targets@.len() == s.len(),
                self.targets@ == s.subrange(i, s.len() as int),
                kept@ == pruned(s.take(i), timeout_ms, now),
                forall|p: int|
                    0 <= p < kept@.len() ==> keep_entry(#[trigger] kept@[p], timeout_ms, now),
                forall|p: int| 0 <= p < kept@.len() ==> entry_wf(#[trigger] kept@[p]),
                forall|p: int|
                    0 <= p < kept@.len() ==> #[trigger] kept@[p].target.id < self.next_target_id,
                ids_increasing(kept@),
                forall|p: int, j: int|
                    0 <= p < kept@.len() && i <= j < s.len() ==> #[trigger] kept@[p].target.id
                        < #[trigger] s[j].target.id,
                forall|a: u8|
                    antenna_count_of(kept@, a) <= antenna_count_of(s.take(i as int), a),
            decreases self.targets@.len(),
        {
            let entry: TrackEntry = self.targets.remove(0);
            proof {
                assert(entry == s[i]);
                assert(self.targets@ =~= s.subrange(i + 1, s.len() as int));
                assert(s.take(i + 1).drop_last() =~= s.take(i));
                assert(s.take(i + 1).last() == s[i]);
            }
            let elapsed: u64 = if now >= entry.target.last_update {
                now - entry.target.last_update
            } else {
                0
            };
            let ghost kept_before = kept@;
            if elapsed <= timeout_ms && entry.target.confidence >= CONFIDENCE_FLOOR
                && entry.target.prediction_count <= MAX_COAST_CYCLES {
                kept.push(entry);
                proof {
                    assert(keep_entry(s[i], timeout_ms, now));
                    lemma_pruned_step(s, i, timeout_ms, now);
                    assert(kept@ =~= pruned(s.take(i + 1), timeout_ms, now));
                    assert forall|a: u8|
                        antenna_count_of(kept@, a) <= antenna_count_of(s.take(i + 1), a) by {
                        lemma_count_push(kept_before, s[i], a);
                        lemma_count_take_step(s, i, a);
                    }
                }
            } else {
                proof {
                    assert(!keep_entry(s[i], timeout_ms, now));
                    lemma_pruned_step(s, i, timeout_ms, now);
                    assert(kept@ =~= pruned(s.take(i + 1), timeout_ms, now));
                    assert forall|a: u8|
                        antenna_count_of(kept@, a) <= antenna_count_of(s.take(i + 1), a) by {
                        lemma_count_take_step(s, i, a);
                    }
                }
            }
            proof {
                i = i + 1;
            }
        }
        proof {
            assert(s.take(s.len() as int) =~= s);
        }
        self.targets = kept;
        proof {
            assert forall|a: u8|
                antenna_count_of(self.targets@, a) <= self.max_targets_per_antenna by {
                assert(antenna_count_of(kept@, a) <= antenna_count_of(s, a));
            }
        }
    }

    /// Associate a detection with the nearest live track within the
    /// gating distance (ties broken by the lowest position, hence the
    /// lowest id) and update that track; with no track in range, create
    /// a new one, subject to the channel's capacity. A detection that
    /// neither matches nor fits is dropped and reported as a
    /// capacity-exceeded condition, never an error.
    pub fn associate_or_create(&mut self, antenna_id: u8, position: Vec2, now: u64) -> (r:
        AssociationResult)
        requires
            tracker_wf(old(self)),
            vec2_wf(position),
            old(self).next_target_id < u32::MAX,
        ensures
            tracker_wf(final(self)),
            final(self).fall_detector == old(self).fall_detector,
            final(self).max_targets_per_antenna == old(self).max_targets_per_antenna,
            final(self).antenna_count == old(self).antenna_count,
            has_candidate(old(self).targets@, position) ==> exists|i: int|
                #![auto]
                best_match(old(self).targets@, position, i) && r == AssociationResult::Updated(
                    old(self).targets@[i].target.id,
                ) && final(self).next_target_id == old(self).next_target_id && update_effect(
                    old(self).fall_detector,
                    old(self).targets@,
                    final(self).targets@,
                    old(self).targets@[i].target.id,
                    position,
                    now,
                    upd_flag(old(self).targets@[i], now),
                ),
            !has_candidate(old(self).targets@, position) && antenna_count_of(
                old(self).targets@,
                antenna_id,
            ) >= old(self).max_targets_per_antenna ==> (r == AssociationResult::CapacityExceeded
                && final(self).targets@ == old(self).targets@ && final(self).next_target_id == old(
                self,
            ).next_target_id),
            !has_candidate(old(self).targets@, position) && antenna_count_of(
                old(self).targets@,
                antenna_id,
            ) < old(self).max_targets_per_antenna ==> (r == AssociationResult::Created(
                old(self).next_target_id,
            ) && final(self).next_target_id == old(self).next_target_id + 1 && add_effect(
                old(self).targets@,
                final(self).targets@,
                old(self).next_target_id,
                antenna_id,
                position,
                now,
            )),
    {
        let ghost pre = self.targets@;
        let n: usize = self.targets.len();
        if n > 0 {
            let mut best_idx: usize = 0;
            let mut best_d: i128 = dist_sq_wide(position, self.targets[0].target.position);
            let mut j: usize = 1;
            while j < n
                invariant
                    tracker_wf(self),
                    self.targets@ == pre,
                    vec2_wf(position),
                    n == pre.len(),
                    0 < n,
                    best_idx < j <= n,
                    best_d == dist_sq(position, pre[best_idx as int].target.position),
                    forall|k: int|
                        0 <= k < best_idx ==> dist_sq(
                            position,
                            #[trigger] pre[k].target.position,
                        ) > best_d,
                    forall|k: int|
                        best_idx <= k < j ==> dist_sq(
                            position,
                            #[trigger] pre[k].target.position,
                        ) >= best_d,
                decreases n - j,
            {
                let d: i128 = dist_sq_wide(position, self.targets[j].target.position);
                if d < best_d {
                    best_idx = j;
                    best_d = d;
                }
                j += 1;
            }
            if best_d <= GATE_SQ as i128 {
                let target_id: u32 = self.targets[best_idx].target.id;
                proof {
                    assert(best_match(pre, position, best_idx as int));
                    assert(has_candidate(pre, position));
                }
                self.update_target(target_id, position, now);
                return AssociationResult::Updated(target_id);
            }
            proof {
                assert forall|i: int| 0 <= i < pre.len() implies dist_sq(
                    position,
                    #[trigger] pre[i].target.position,
                ) > GATE_SQ by {}
                assert(!has_candidate(pre, position));
            }
        }
        proof {
            if pre.len() == 0 {
                assert(!has_candidate(pre, position));
            }
        }
        match self.add_target(antenna_id, position, now) {
            Some(new_id) => AssociationResult::Created(new_id),
            None => AssociationResult::CapacityExceeded,
        }
    }

    /// Trajectory preview for one track id: the predicted ballistic path
    /// of that track, or nothing for an unknown id.
    pub fn get_fall_predictions(&self, target_id: u32, time_steps: usize) -> (r: Option<
        TrajectoryBuf,
    >)
        requires
            tracker_wf(self),
        ensures
            (r is Some) == has_id(self.targets@, target_id),
            r is Some ==> exists|i: int|
                #![auto]
                0 <= i < self.targets@.len() && self.targets@[i].target.id == target_id && {
                    let points = traj_points_of(r->0);
                    &&& points.len() == time_steps
                    &&& forall|j: int|
                        0 <= j < time_steps ==> points[j] == traj_state(
                            self.targets@[i].target.position,
                            self.targets@[i].target.velocity,
                            (j + 1) as nat,
                        ).0
                },
    {
        let n: usize = self.targets.len();
        let mut idx: usize = 0;
        while idx < n && self.targets[idx].target.id != target_id
            invariant
                n == self.targets@.len(),
                idx <= n,
                forall|j: int| 0 <= j < idx ==> #[trigger] self.targets@[j].target.id != target_id,
            decreases n - idx,
        {
            idx += 1;
        }
        if idx == n {
            proof {
                assert(!has_id(self.targets@, target_id));
            }
            None
        } else {
            Some(self.fall_detector.predict_fall_trajectory(&self.targets[idx].target, time_steps))
        }
    }
}

/// Law: for every well-formed manager, each track's confidence and
/// fall-risk score lie in `[0, FP]`; since every operation yields a
/// well-formed manager, the bounds hold after any sequence of updates,
/// coasts, prunes and creations.
pub proof fn lemma_scores_bounded(t: &MultiTargetTracker)
    requires
        tracker_wf(t),
    ensures
        forall|i: int|
            0 <= i < t.targets@.len() ==> 0 <= #[trigger] t.targets@[i].target.confidence <= FP
                && 0 <= t.targets@[i].target.fall_probability <= FP,
{
}

/// Law: for every well-formed manager, no channel holds more live
/// tracks than the configured capacity; since every operation yields a
/// well-formed manager, the bound holds after any sequence of calls.
pub proof fn lemma_capacity_bounded(t: &MultiTargetTracker)
    requires
        tracker_wf(t),
    ensures
        forall|a: u8| antenna_count_of(t.targets@, a) <= t.max_targets_per_antenna,
{
}

/// Law: a track created at a position and immediately given a
/// measurement of that same position keeps the position exactly and
/// zero velocity and acceleration, for every positive elapsed time --
/// whether the correction commits or degrades to a coast cycle.
#[verifier::rlimit(100)]
pub proof fn lemma_same_position_update_is_stationary(
    e: TrackEntry,
    e2: TrackEntry,
    fd: FallDetector,
    z: Vec2,
    id: u32,
    antenna_id: u8,
    created: u64,
    dt: int,
    now: u64,
)
    requires
        vec2_wf(z),
        fresh_entry(e, id, antenna_id, z, created),
        dt > 0,
        measure_effect(fd, e, e2, z, dt, now) || coast_effect(e, e2, dt),
    ensures
        e2.target.position.x == z.x,
        e2.target.position.y == z.y,
        e2.target.velocity.x == 0,
        e2.target.velocity.y == 0,
        e2.target.acceleration.x == 0,
        e2.target.acceleration.y == 0,
{
    let s0 = seq![z.x, z.y, 0i64, 0i64, 0i64, 0i64];
    let f = trans_mat(dt);
    assert(e.filter.state@ == s0);
    lemma_trans_mat_row(dt, 0);
    lemma_trans_mat_row(dt, 1);
    lemma_trans_mat_row(dt, 2);
    lemma_trans_mat_row(dt, 3);
    lemma_trans_mat_row(dt, 4);
    lemma_trans_mat_row(dt, 5);
    lemma_descale_scaled(z.x as int);
    lemma_descale_scaled(z.y as int);
    lemma_descale_zero();
    let s1 = mv_vec(f, s0);
    assert(s1[0] == z.x);
    assert(s1[1] == z.y);
    assert(s1[2] == 0 && s1[3] == 0 && s1[4] == 0 && s1[5] == 0);
    if measure_effect(fd, e, e2, z, dt, now) {
        let c1 = ma_mat(
            mm_mat(mm_mat(f, e.filter.covariance@), mt_mat(f)),
            e.filter.process_noise@,
        );
        let r = e.filter.measurement_noise@;
        let s2 = upd_state(c1, r, s1, z);
        let g00 = gain_entry(c1, r, 0, 0);
        let g01 = gain_entry(c1, r, 0, 1);
        let g10 = gain_entry(c1, r, 1, 0);
        let g11 = gain_entry(c1, r, 1, 1);
        let d0 = z.x - s1[0];
        let d1 = z.y - s1[1];
        assert(d0 == 0 && d1 == 0);
        assert(g00 * d0 == 0 && g01 * d1 == 0 && g10 * d0 == 0 && g11 * d1 == 0)
            by (nonlinear_arith)
            requires
                d0 == 0,
                d1 == 0,
        ;
        assert(su_entry(c1, r, s1, z, 0) == 0);
        assert(su_entry(c1, r, s1, z, 1) == 0);
        assert(s2[0] == z.x && s2[1] == z.y);
        assert(s2[2] == 0 && s2[3] == 0 && s2[4] == 0 && s2[5] == 0);
    }
}

} // verus!
