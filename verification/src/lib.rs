//! Multi-target tracking engine for a radar-based fall-detection system.
//!
//! The crate maintains a set of tracked objects from noisy 2D position
//! detections: per-target state estimation, track lifecycle management,
//! nearest-detection association, fall-risk scoring, and short-horizon
//! trajectory prediction. All kinematic quantities are represented in
//! fixed-point thousandths (milli-units), so that every computation is
//! exact integer arithmetic with an explicit saturation policy.
//!
//! The core lives in [`tracker`] (the manager owning every track and its
//! estimator), [`kalman`] (the per-track filter over the [`mat`] and
//! [`fixed`] arithmetic), [`track`] (the track entity) and [`fall`]
//! (risk scoring and trajectory preview). Around it, [`frames`],
//! [`ld2412`] and [`ld2450`] hold the radar wire protocol, and
//! [`config`], [`monitoring`], [`safety`] and [`parser`] the vocabulary
//! shared with the surrounding application.

pub mod buffers;
pub mod config;
pub mod fall;
pub mod frames;
pub mod fixed;
pub mod kalman;
pub mod ld2412;
pub mod ld2450;
pub mod mat;
pub mod monitoring;
pub mod parser;
pub mod safety;
pub mod track;
pub mod tracker;
pub mod vec2;
