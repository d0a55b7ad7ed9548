//! A 2D LIDAR ranging core in fixed-point arithmetic.
//!
//! The library simulates a spinning range finder: a periodic scheduler gates
//! full 360-degree sweeps, and each sweep casts a configurable number of rays
//! from a sensor pose, reporting for every ray the nearest obstacle that lies
//! inside a small angular tolerance cone around the ray's direction. Results
//! are exposed both as a compact per-ray sample buffer and as a
//! ROS-`LaserScan`-shaped message.
//!
//! All quantities are integers with fixed units so that every computation can
//! be specified and verified exactly:
//! - lengths and distances are millimeters (`i64`),
//! - angles are microradians (`u64`), with a full turn rounded to
//!   `TURN_URAD = 6_283_185`,
//! - time is microseconds (`u64`),
//! - scan rates are millihertz (`u64`),
//! - unit-vector and quaternion components are millionths (`i64` scaled by
//!   `UNIT = 1_000_000`).
//!
//! Gaussian measurement noise is injected by the host: the host draws the
//! samples (millimeters, one per ray) and hands them to
//! [`LidarSensor::apply_noise`], which perturbs hit distances only and never
//! turns a miss into a hit.

pub mod fixed;
pub mod geom;
pub mod scheduler;
pub mod sensor;
pub mod sweep;
pub mod trig;
