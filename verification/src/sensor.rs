//! The LIDAR sensor: configuration, derived parameters, and the per-ray
//! result buffer of the last completed sweep.
//!
//! Raw parameters (`range_min`, `range_max`, `scan_rate`, `rays_per_scan`,
//! `noise_stddev`) may be mutated freely; [`LidarSensor::update_parameters`]
//! then recomputes the derived angular resolution and scan period, and the
//! setters do both steps at once. A sweep demands a well-formed sensor, so an
//! invalid configuration is rejected before scanning, never during it.

use crate::fixed::{NOISE_LIMIT, PERIOD_SCALE, RANGE_LIMIT, RATE_LIMIT, RAYS_LIMIT, TURN_URAD};
use crate::geom::Vec3Mm;
use crate::scheduler::ScanScheduler;
use vstd::arithmetic::div_mod::{lemma_div_basics, lemma_div_by_self, lemma_div_is_ordered, lemma_div_is_ordered_by_denominator};
use vstd::prelude::*;

verus! {

/// Default minimum range: 0.2 m in millimeters.
pub const DEFAULT_RANGE_MIN: u64 = 200;

/// Default maximum range: 12 m in millimeters.
pub const DEFAULT_RANGE_MAX: u64 = 12_000;

/// Default scan rate: 10 Hz in millihertz.
pub const DEFAULT_SCAN_RATE: u64 = 10_000;

/// Default number of rays per sweep: one every ten degrees.
pub const DEFAULT_RAYS_PER_SCAN: usize = 36;

/// One measurement of a completed sweep.
#[derive(Clone, Copy, Debug, PartialEq, Eq, Structural)]
pub struct RaySample {
    /// The ray's angle in microradians, measured from the sensor's forward
    /// (+X) direction, counter-clockwise.
    pub angle: u64,
    /// The measured distance in millimeters; `range_max` when nothing was
    /// hit. Noise may push a hit distance outside the configured range.
    pub distance: i64,
    /// Whether an obstacle was detected on this ray.
    pub hit: bool,
}

/// Why a configuration was rejected.
#[derive(Clone, Copy, Debug, PartialEq, Eq, Structural)]
pub enum ConfigError {
    /// `rays_per_scan` is zero or beyond `RAYS_LIMIT`.
    InvalidRays,
    /// The range interval is empty, starts at zero, or exceeds `RANGE_LIMIT`.
    InvalidRange,
    /// `scan_rate` is zero or beyond `RATE_LIMIT`.
    InvalidScanRate,
    /// `noise_stddev` exceeds `NOISE_LIMIT`.
    InvalidNoise,
}

/// A simulated spinning range finder.
pub struct LidarSensor {
    /// Minimum measurable range (millimeters).
    pub range_min: u64,
    /// Maximum measurable range (millimeters).
    pub range_max: u64,
    /// Sweep rate (millihertz).
    pub scan_rate: u64,
    /// Number of rays in one full sweep.
    pub rays_per_scan: usize,
    /// Derived: angle between consecutive rays (microradians),
    /// `TURN_URAD / rays_per_scan`. Maintained by `update_parameters`.
    pub angular_resolution: u64,
    /// Derived: repeating timer with period `PERIOD_SCALE / scan_rate`
    /// microseconds. Maintained by `update_parameters`.
    pub scan_timer: ScanScheduler,
    /// Mounting offset from the carrying body (millimeters); not used by the
    /// sweep itself, which receives the finished world pose.
    pub offset: Vec3Mm,
    /// Whether a host visualizer should draw this sensor's rays.
    pub visualize: bool,
    /// Angle of the visualization cursor (microradians).
    pub current_angle: u64,
    /// Index of the visualization cursor into `scan_results`.
    pub current_ray: usize,
    /// The last completed sweep, one sample per ray, replaced wholesale.
    pub scan_results: Vec<RaySample>,
    /// Whether the host should log completed sweeps.
    pub enable_logging: bool,
    /// Standard deviation of the distance noise (millimeters); zero disables
    /// noise.
    pub noise_stddev: u64,
}

impl LidarSensor {
    /// The raw parameters lie in their documented ranges.
    pub open spec fn valid_params(self) -> bool {
        &&& 1 <= self.rays_per_scan <= RAYS_LIMIT
        &&& 1 <= self.range_min < self.range_max <= RANGE_LIMIT
        &&& 1 <= self.scan_rate <= RATE_LIMIT
        &&& self.noise_stddev <= NOISE_LIMIT as u64
    }

    /// The derived fields agree with the raw parameters.
    pub open spec fn derived_ok(self) -> bool {
        &&& self.angular_resolution == TURN_URAD as int / self.rays_per_scan as int
        &&& self.scan_timer.period_us == PERIOD_SCALE as int / self.scan_rate as int
    }

    /// A sensor fit for sweeping: parameters valid, derived fields current.
    pub open spec fn wf(self) -> bool {
        &&& self.valid_params()
        &&& self.derived_ok()
        &&& self.scan_timer.wf()
    }

    /// Checks the raw parameters, reporting the first violation in field
    /// order: rays, range, scan rate, noise.
    pub fn validate(&self) -> (r: Result<(), ConfigError>)
        ensures
            r is Ok <==> self.valid_params(),
            r == Err::<(), ConfigError>(ConfigError::InvalidRays) <==> !(1 <= self.rays_per_scan
                <= RAYS_LIMIT),
            r == Err::<(), ConfigError>(ConfigError::InvalidRange) <==> (1 <= self.rays_per_scan
                <= RAYS_LIMIT && !(1 <= self.range_min < self.range_max <= RANGE_LIMIT)),
            r == Err::<(), ConfigError>(ConfigError::InvalidScanRate) <==> (1
                <= self.rays_per_scan <= RAYS_LIMIT && 1 <= self.range_min < self.range_max
                <= RANGE_LIMIT && !(1 <= self.scan_rate <= RATE_LIMIT)),
            r == Err::<(), ConfigError>(ConfigError::InvalidNoise) <==> (1 <= self.rays_per_scan
                <= RAYS_LIMIT && 1 <= self.range_min < self.range_max <= RANGE_LIMIT && 1
                <= self.scan_rate <= RATE_LIMIT && !(self.noise_stddev <= NOISE_LIMIT as u64)),
    {
        if self.rays_per_scan < 1 || self.rays_per_scan > RAYS_LIMIT {
            Err(ConfigError::InvalidRays)
        } else if self.range_min < 1 || self.range_min >= self.range_max || self.range_max
            > RANGE_LIMIT {
            Err(ConfigError::InvalidRange)
        } else if self.scan_rate < 1 || self.scan_rate > RATE_LIMIT {
            Err(ConfigError::InvalidScanRate)
        } else if self.noise_stddev > (NOISE_LIMIT as u64) {
            Err(ConfigError::InvalidNoise)
        } else {
            Ok(())
        }
    }

    /// The observable effect of `update_parameters`: raw parameters and
    /// cursor kept, derived fields recomputed, accumulated time carried over,
    /// and the result buffer discarded when its length no longer matches
    /// `rays_per_scan`.
    pub open spec fn spec_updated_from(pre: LidarSensor, post: LidarSensor) -> bool {
        &&& post.range_min == pre.range_min
        &&& post.range_max == pre.range_max
        &&& post.scan_rate == pre.scan_rate
        &&& post.rays_per_scan == pre.rays_per_scan
        &&& post.noise_stddev == pre.noise_stddev
        &&& post.offset == pre.offset
        &&& post.visualize == pre.visualize
        &&& post.enable_logging == pre.enable_logging
        &&& post.current_ray == pre.current_ray
        &&& post.current_angle == pre.current_angle
        &&& post.angular_resolution == TURN_URAD as int / pre.rays_per_scan as int
        &&& post.scan_timer.period_us == PERIOD_SCALE as int / pre.scan_rate as int
        &&& post.scan_timer.acc_us == pre.scan_timer.acc_us
        &&& post.scan_results@ == if pre.scan_results@.len() == pre.rays_per_scan {
            pre.scan_results@
        } else {
            Seq::<RaySample>::empty()
        }
    }

    /// Recomputes the derived fields from the raw parameters: the angular
    /// resolution, the scan period (accumulated time carries over), and the
    /// result buffer, which is discarded when its length no longer matches
    /// `rays_per_scan`. Calling this twice in a row changes nothing further:
    /// see `lemma_update_parameters_idempotent`.
    pub fn update_parameters(&mut self)
        requires
            old(self).valid_params(),
            old(self).scan_timer.wf(),
        ensures
            final(self).wf(),
            LidarSensor::spec_updated_from(*old(self), *final(self)),
    {
        self.angular_resolution = TURN_URAD / (self.rays_per_scan as u64);
        let period: u64 = PERIOD_SCALE / self.scan_rate;
        proof {
            lemma_div_is_ordered(self.scan_rate as int, PERIOD_SCALE as int, self.scan_rate as int);
            lemma_div_by_self(self.scan_rate as int);
            lemma_div_is_ordered_by_denominator(PERIOD_SCALE as int, 1, self.scan_rate as int);
            lemma_div_basics(PERIOD_SCALE as int);
        }
        self.scan_timer.set_period(period);
        if self.scan_results.len() != self.rays_per_scan {
            self.scan_results = Vec::new();
        }
    }

    /// Sets the number of rays per sweep and eagerly recomputes the derived
    /// fields; rejects an out-of-bounds count and then changes nothing.
    pub fn set_rays_per_scan(&mut self, n: usize) -> (r: Result<(), ConfigError>)
        requires
            old(self).wf(),
        ensures
            r is Ok <==> 1 <= n <= RAYS_LIMIT,
            r is Err ==> *final(self) == *old(self) && r == Err::<(), ConfigError>(
                ConfigError::InvalidRays,
            ),
            r is Ok ==> final(self).wf() && final(self).rays_per_scan == n && final(self).range_min == old(self).range_min && final(self).range_max == old(self).range_max
                && final(self).scan_rate == old(self).scan_rate && final(self).noise_stddev == old(self).noise_stddev,
    {
        if n < 1 || n > RAYS_LIMIT {
            return Err(ConfigError::InvalidRays);
        }
        self.rays_per_scan = n;
        self.update_parameters();
        Ok(())
    }

    /// Sets the scan rate (millihertz) and eagerly recomputes the derived
    /// fields; rejects an out-of-bounds rate and then changes nothing.
    pub fn set_scan_rate(&mut self, millihertz: u64) -> (r: Result<(), ConfigError>)
        requires
            old(self).wf(),
        ensures
            r is Ok <==> 1 <= millihertz <= RATE_LIMIT,
            r is Err ==> *final(self) == *old(self) && r == Err::<(), ConfigError>(
                ConfigError::InvalidScanRate,
            ),
            r is Ok ==> final(self).wf() && final(self).scan_rate == millihertz && final(self).rays_per_scan == old(self).rays_per_scan && final(self).range_min == old(self).range_min && final(self).range_max == old(self).range_max && final(self).noise_stddev == old(self).noise_stddev,
    {
        if millihertz < 1 || millihertz > RATE_LIMIT {
            return Err(ConfigError::InvalidScanRate);
        }
        self.scan_rate = millihertz;
        self.update_parameters();
        Ok(())
    }

    /// Advances the scan timer by `dt_us` microseconds and reports whether a
    /// sweep is due this tick; see [`ScanScheduler::tick`].
    pub fn tick(&mut self, dt_us: u64) -> (fired: bool)
        requires
            old(self).wf(),
            dt_us <= crate::fixed::TICK_LIMIT,
        ensures
            final(self).wf(),
            fired <==> old(self).scan_timer.acc_us + dt_us >= old(self).scan_timer.period_us,
            final(self).scan_timer.period_us == old(self).scan_timer.period_us,
            final(self).scan_timer.acc_us == (old(self).scan_timer.acc_us + dt_us) as int % old(
                self,
            ).scan_timer.period_us as int,
            final(self).range_min == old(self).range_min,
            final(self).range_max == old(self).range_max,
            final(self).scan_rate == old(self).scan_rate,
            final(self).rays_per_scan == old(self).rays_per_scan,
            final(self).angular_resolution == old(self).angular_resolution,
            final(self).noise_stddev == old(self).noise_stddev,
            final(self).scan_results == old(self).scan_results,
            final(self).current_ray == old(self).current_ray,
            final(self).current_angle == old(self).current_angle,
            final(self).offset == old(self).offset,
            final(self).visualize == old(self).visualize,
            final(self).enable_logging == old(self).enable_logging,
    {
        self.scan_timer.tick(dt_us)
    }

    /// Advances the visualization cursor by one ray, wrapping around the last
    /// completed sweep; does nothing while no sweep has completed.
    pub fn advance_cursor(&mut self)
        ensures
            final(self).scan_results == old(self).scan_results,
            old(self).scan_results@.len() == 0 ==> *final(self) == *old(self),
            old(self).scan_results@.len() > 0 ==> final(self).current_ray == (old(self).current_ray as int % old(self).scan_results@.len() as int + 1) % old(self).scan_results@.len() as int,
            old(self).scan_results@.len() > 0 ==> final(self).current_angle == old(self).scan_results@[final(self).current_ray as int].angle,
            final(self).range_min == old(self).range_min,
            final(self).range_max == old(self).range_max,
            final(self).scan_rate == old(self).scan_rate,
            final(self).rays_per_scan == old(self).rays_per_scan,
            final(self).angular_resolution == old(self).angular_resolution,
            final(self).scan_timer == old(self).scan_timer,
            final(self).noise_stddev == old(self).noise_stddev,
    {
        if self.scan_results.len() > 0 {
            let cur: usize = self.current_ray % self.scan_results.len();
            let next: usize = (cur + 1) % self.scan_results.len();
            self.current_ray = next;
            self.current_angle = self.scan_results[next].angle;
        }
    }
}

/// Reconfiguration is idempotent: a second `update_parameters` with
/// unchanged raw parameters observably changes nothing.
pub proof fn lemma_update_parameters_idempotent(s1: LidarSensor, s2: LidarSensor, s3: LidarSensor)
    requires
        s1.valid_params(),
        LidarSensor::spec_updated_from(s1, s2),
        LidarSensor::spec_updated_from(s2, s3),
    ensures
        s3.range_min == s2.range_min,
        s3.range_max == s2.range_max,
        s3.scan_rate == s2.scan_rate,
        s3.rays_per_scan == s2.rays_per_scan,
        s3.noise_stddev == s2.noise_stddev,
        s3.offset == s2.offset,
        s3.visualize == s2.visualize,
        s3.enable_logging == s2.enable_logging,
        s3.current_ray == s2.current_ray,
        s3.current_angle == s2.current_angle,
        s3.angular_resolution == s2.angular_resolution,
        s3.scan_timer == s2.scan_timer,
        s3.scan_results@ == s2.scan_results@,
{
}

impl Default for LidarSensor {
    /// The stock configuration of a small indoor range finder: 0.2 m to 12 m,
    /// 10 Hz, 36 rays, no noise, nothing scanned yet.
    fn default() -> (r: LidarSensor)
        ensures
            r.range_min == DEFAULT_RANGE_MIN,
            r.range_max == DEFAULT_RANGE_MAX,
            r.scan_rate == DEFAULT_SCAN_RATE,
            r.rays_per_scan == DEFAULT_RAYS_PER_SCAN,
            r.angular_resolution == TURN_URAD as int / DEFAULT_RAYS_PER_SCAN as int,
            r.scan_timer.period_us == PERIOD_SCALE as int / DEFAULT_SCAN_RATE as int,
            r.scan_timer.acc_us == 0,
            r.offset == (Vec3Mm { x: 0i64, y: 0i64, z: 0i64 }),
            r.visualize,
            r.enable_logging,
            r.current_angle == 0 && r.current_ray == 0,
            r.scan_results@.len() == 0,
            r.noise_stddev == 0,
            r.wf(),
    {
        LidarSensor {
            range_min: DEFAULT_RANGE_MIN,
            range_max: DEFAULT_RANGE_MAX,
            scan_rate: DEFAULT_SCAN_RATE,
            rays_per_scan: DEFAULT_RAYS_PER_SCAN,
            angular_resolution: TURN_URAD / (DEFAULT_RAYS_PER_SCAN as u64),
            scan_timer: ScanScheduler::new(PERIOD_SCALE / DEFAULT_SCAN_RATE),
            offset: Vec3Mm { x: 0, y: 0, z: 0 },
            visualize: true,
            current_angle: 0,
            current_ray: 0,
            scan_results: Vec::new(),
            enable_logging: true,
            noise_stddev: 0,
        }
    }
}

} // verus!
