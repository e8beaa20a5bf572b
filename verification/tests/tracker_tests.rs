use hexar::fall::FallDetector;
use hexar::kalman::KalmanFilter;
use hexar::track::{TargetState, TrackedTarget};
use hexar::tracker::{AssociationResult, MultiTargetTracker};
use hexar::vec2::Vec2;

#[test]
fn test_target_creation() {
    let target = TrackedTarget::new(1, 0, Vec2::new(1000, 2000), 0);
    assert_eq!(target.id, 1);
    assert_eq!(target.antenna_id, 0);
    assert_eq!(target.position.x, 1000);
    assert_eq!(target.position.y, 2000);
}

#[test]
fn test_multi_target_tracker() {
    let mut tracker = MultiTargetTracker::new(4);

    let target_id = tracker.add_target(0, Vec2::new(1000, 1000), 0);
    assert!(target_id.is_some());

    assert_eq!(tracker.get_target_count(), 1);
    assert_eq!(tracker.get_target_count_by_antenna(0), 1);
}

#[test]
fn test_fall_detector() {
    let detector = FallDetector::new();
    let mut target = TrackedTarget::new(1, 0, Vec2::new(0, 10000), 0);
    target.velocity = Vec2::new(0, -5000);
    target.acceleration = Vec2::new(0, -10000);

    let risk = detector.analyze_fall_risk(&target);
    assert!(risk > 500);
}

#[test]
fn test_kalman_filter() {
    let mut kf = KalmanFilter::new(Vec2::new(0, 0));

    kf.predict(100);
    let ok = kf.update(Vec2::new(1000, 1000));
    assert!(ok);

    let pos = kf.get_position();
    assert!(pos.x > 0);
    assert!(pos.y > 0);
}

#[test]
fn stationary_track_keeps_position_on_same_measurement() {
    // A fresh track corrected with the very position it was created at
    // keeps that position exactly and zero velocity and acceleration.
    let mut tracker = MultiTargetTracker::new(2);
    let id = tracker.add_target(0, Vec2::new(3000, 4000), 0).unwrap();
    tracker.update_target(id, Vec2::new(3000, 4000), 100);

    let targets = tracker.get_all_targets();
    assert_eq!(targets.len(), 1);
    assert_eq!(targets[0].position.x, 3000);
    assert_eq!(targets[0].position.y, 4000);
    assert_eq!(targets[0].velocity.x, 0);
    assert_eq!(targets[0].velocity.y, 0);
    assert_eq!(targets[0].acceleration.x, 0);
    assert_eq!(targets[0].acceleration.y, 0);
}

#[test]
fn confidence_and_risk_stay_in_range_over_many_cycles() {
    // Confidence and fall-risk score stay within [0, 1000] through an
    // arbitrary mix of updates, coasts and prunes.
    let mut tracker = MultiTargetTracker::new(2);
    let id = tracker.add_target(0, Vec2::new(0, 0), 0).unwrap();
    let mut now: u64 = 0;
    for step in 1..40u64 {
        now += 37;
        if step % 3 == 0 {
            tracker.predict_all_targets(37);
        } else {
            tracker.update_target(id, Vec2::new((step as i64) * 10, -(step as i64) * 25), now);
        }
        if step % 7 == 0 {
            tracker.remove_lost_targets(30_000, now);
        }
        for t in tracker.get_all_targets() {
            assert!(0 <= t.confidence && t.confidence <= 1000);
            assert!(0 <= t.fall_probability && t.fall_probability <= 1000);
        }
    }
}

#[test]
fn update_with_degenerate_time_delta_is_a_noop() {
    let mut tracker = MultiTargetTracker::new(2);
    let id = tracker.add_target(0, Vec2::new(500, 500), 100).unwrap();
    // Same timestamp: benign no-op, not an error.
    assert!(!tracker.update_target(id, Vec2::new(900, 900), 100));
    // Earlier timestamp: also a no-op.
    assert!(!tracker.update_target(id, Vec2::new(900, 900), 50));
    let targets = tracker.get_all_targets();
    assert_eq!(targets[0].position.x, 500);
}

#[test]
fn update_of_unknown_id_reports_not_found() {
    let mut tracker = MultiTargetTracker::new(2);
    assert!(!tracker.update_target(42, Vec2::new(0, 0), 10));
    assert!(tracker.get_fall_predictions(42, 3).is_none());
}

#[test]
fn association_updates_track_within_gating_distance() {
    // A detection within the gating distance of exactly one live track
    // updates that track and creates no new one.
    let mut tracker = MultiTargetTracker::new(2);
    let r0 = tracker.associate_or_create(0, Vec2::new(0, 0), 0);
    let id = match r0 {
        AssociationResult::Created(id) => id,
        _ => panic!("first detection must create a track"),
    };
    assert_eq!(tracker.get_target_count(), 1);

    // 1.0 unit away: within the 2.0-unit gate.
    let r1 = tracker.associate_or_create(0, Vec2::new(1000, 0), 50);
    assert_eq!(r1, AssociationResult::Updated(id));
    assert_eq!(tracker.get_target_count(), 1);

    // Too distant for association, so a second track appears.
    let r2 = tracker.associate_or_create(0, Vec2::new(50_000, 50_000), 100);
    match r2 {
        AssociationResult::Created(new_id) => assert_ne!(new_id, id),
        _ => panic!("distant detection must create a track"),
    }
    assert_eq!(tracker.get_target_count(), 2);
}

#[test]
fn falling_scenario_classifies_track_as_falling() {
    // Velocity (0, -5.0) and acceleration (0, -10.0) trip the free-fall
    // and downward-velocity conditions (0.4 + 0.3) plus the velocity
    // magnitude condition (0.1): score 0.8 > 0.7, hence Falling.
    let detector = FallDetector::new();
    let mut target = TrackedTarget::new(1, 0, Vec2::new(0, 10_000), 0);
    target.velocity = Vec2::new(0, -5000);
    target.acceleration = Vec2::new(0, -10_000);

    let risk = detector.analyze_fall_risk(&target);
    assert_eq!(risk, 800);
    assert!(risk > 700);
    target.fall_probability = risk;
    assert!(target.is_falling());
}

#[test]
fn trajectory_preview_first_step_is_half_gravity() {
    // From rest at the origin, one 50 ms step falls by about
    // 0.5 * 9.81 * 0.05^2 units: -12 thousandths after truncation.
    let detector = FallDetector::new();
    let target = TrackedTarget::new(1, 0, Vec2::new(0, 0), 0);
    let trajectory = detector.predict_fall_trajectory(&target, 1);
    assert_eq!(trajectory.len(), 1);
    let p = trajectory.get(0).unwrap();
    assert_eq!(p.x, 0);
    assert_eq!(p.y, -12);
}

#[test]
fn trajectory_preview_does_not_mutate_the_track() {
    let mut tracker = MultiTargetTracker::new(2);
    let id = tracker.add_target(0, Vec2::new(700, 800), 0).unwrap();
    let before = tracker.get_all_targets();
    let trajectory = tracker.get_fall_predictions(id, 5).unwrap();
    assert_eq!(trajectory.len(), 5);
    let after = tracker.get_all_targets();
    assert_eq!(before[0].position.x, after[0].position.x);
    assert_eq!(before[0].position.y, after[0].position.y);
    assert_eq!(before[0].confidence, after[0].confidence);
}

#[test]
fn capacity_scenario_eight_tracks_two_drops() {
    // With per-channel capacity 8, ten far-apart detections on one empty
    // channel leave exactly 8 live tracks and 2 capacity-exceeded
    // conditions.
    let mut tracker = MultiTargetTracker::new(1);
    let mut exceeded = 0;
    for i in 0..10i64 {
        let r = tracker.associate_or_create(0, Vec2::new(i * 10_000, 0), (i as u64) * 10);
        if r == AssociationResult::CapacityExceeded {
            exceeded += 1;
        }
    }
    assert_eq!(tracker.get_target_count_by_antenna(0), 8);
    assert_eq!(tracker.get_target_count(), 8);
    assert_eq!(exceeded, 2);
}

#[test]
fn capacity_is_per_channel() {
    let mut tracker = MultiTargetTracker::new(2);
    for i in 0..8i64 {
        assert!(tracker.add_target(0, Vec2::new(i * 10_000, 0), 0).is_some());
    }
    assert!(tracker.add_target(0, Vec2::new(990_000, 0), 0).is_none());
    // The other channel still has room.
    assert!(tracker.add_target(1, Vec2::new(0, 990_000), 0).is_some());
}

#[test]
fn pruning_removes_stale_track_and_its_estimator() {
    // A track whose last update exceeds the timeout is absent after
    // pruning, and its estimator went with it: a trajectory request for
    // the id finds nothing.
    let mut tracker = MultiTargetTracker::new(2);
    let stale = tracker.add_target(0, Vec2::new(0, 0), 0).unwrap();
    let fresh = tracker.add_target(0, Vec2::new(9000, 9000), 40_000).unwrap();
    tracker.remove_lost_targets(30_000, 50_000);
    assert_eq!(tracker.get_target_count(), 1);
    assert!(tracker.get_fall_predictions(stale, 1).is_none());
    assert!(tracker.get_fall_predictions(fresh, 1).is_some());
}

#[test]
fn pruning_removes_low_confidence_and_long_coasting_tracks() {
    let mut tracker = MultiTargetTracker::new(2);
    tracker.add_target(0, Vec2::new(0, 0), 0).unwrap();
    // Eleven consecutive coast cycles exceed the bound of ten, and decay
    // the confidence toward the floor as well.
    for _ in 0..11 {
        tracker.predict_all_targets(100);
    }
    let t = &tracker.get_all_targets()[0];
    assert_eq!(t.prediction_count, 11);
    assert_eq!(t.state, TargetState::Predicted);
    tracker.remove_lost_targets(1_000_000, 100);
    assert_eq!(tracker.get_target_count(), 0);
}

#[test]
fn coast_cycle_decays_confidence_and_counts() {
    let mut tracker = MultiTargetTracker::new(2);
    tracker.add_target(0, Vec2::new(1000, 1000), 0).unwrap();
    tracker.predict_all_targets(50);
    let t = &tracker.get_all_targets()[0];
    assert_eq!(t.confidence, 900);
    assert_eq!(t.prediction_count, 1);
    assert_eq!(t.state, TargetState::Predicted);
}

#[test]
fn measurement_update_refreshes_confidence_and_state() {
    let mut tracker = MultiTargetTracker::new(2);
    let id = tracker.add_target(0, Vec2::new(1000, 1000), 0).unwrap();
    tracker.predict_all_targets(50);
    assert!(tracker.update_target(id, Vec2::new(1010, 1010), 100));
    let t = &tracker.get_all_targets()[0];
    // 900 * 0.8 + 0.2 in thousandths.
    assert_eq!(t.confidence, 920);
    assert_eq!(t.prediction_count, 0);
    assert_eq!(t.state, TargetState::Tracking);
    assert_eq!(t.last_update, 100);
}

#[test]
fn falling_targets_query_returns_only_falling_tracks() {
    let mut tracker = MultiTargetTracker::new(2);
    let calm = tracker.add_target(0, Vec2::new(0, 0), 0).unwrap();
    let faller = tracker.add_target(0, Vec2::new(9000, 9000), 0).unwrap();
    assert_eq!(tracker.get_falling_targets().len(), 0);
    // Mark the second track as falling; the query must return exactly
    // the live tracks whose score exceeds the threshold.
    for entry in tracker.targets.iter_mut() {
        if entry.target.id == faller {
            entry.target.fall_probability = 800;
            entry.target.state = TargetState::Falling;
        }
    }
    let falling = tracker.get_falling_targets();
    assert_eq!(falling.len(), 1);
    assert_eq!(falling[0].id, faller);
    assert!(falling.iter().all(|t| t.id != calm));
    assert_eq!(falling[0].state, TargetState::Falling);
    assert!(falling[0].fall_probability > 700);
}

#[test]
fn targets_by_antenna_filters_by_channel() {
    let mut tracker = MultiTargetTracker::new(3);
    tracker.add_target(0, Vec2::new(0, 0), 0).unwrap();
    tracker.add_target(1, Vec2::new(5000, 0), 0).unwrap();
    tracker.add_target(1, Vec2::new(0, 5000), 0).unwrap();
    assert_eq!(tracker.get_targets_by_antenna(0).len(), 1);
    assert_eq!(tracker.get_targets_by_antenna(1).len(), 2);
    assert_eq!(tracker.get_targets_by_antenna(2).len(), 0);
    assert_eq!(tracker.get_antenna_count(), 3);
}

#[test]
fn clear_all_targets_empties_the_live_set_and_keeps_ids_monotonic() {
    let mut tracker = MultiTargetTracker::new(2);
    let first = tracker.add_target(0, Vec2::new(0, 0), 0).unwrap();
    tracker.clear_all_targets();
    assert_eq!(tracker.get_target_count(), 0);
    // Ids are never reused, even across a clear.
    let second = tracker.add_target(0, Vec2::new(0, 0), 0).unwrap();
    assert!(second > first);
}

#[test]
fn predict_position_extrapolates_without_mutation() {
    let mut target = TrackedTarget::new(1, 0, Vec2::new(1000, 1000), 0);
    target.velocity = Vec2::new(1000, 0);
    // One second at one unit per second: one unit further along x.
    let p = target.predict_position(1000);
    assert_eq!(p.x, 2000);
    assert_eq!(p.y, 1000);
    assert_eq!(target.position.x, 1000);
}
