//! The ranging sweep: for each of `rays_per_scan` rays, find the nearest
//! obstacle inside the ray's angular tolerance cone and within the
//! configured range band, and report the results both as per-ray samples and
//! as a `LaserScan`-shaped message.
//!
//! The whole sweep is specified by pure functions over the obstacle
//! sequence. An obstacle qualifies for a ray when its distance band check and
//! its cone check pass; the cone check compares the squared dot product of
//! the ray direction with the displacement against the squared cosine of the
//! tolerance, scaled to integers, which is exact. The reported distance is
//! the floor square root of the smallest qualifying squared distance, so
//! equally distant obstacles are indistinguishable and the outcome does not
//! depend on the order of the obstacle list.

use crate::fixed::{
    mul_checked, sqrt_floor, isqrt, lemma_sqrt_floor_bounds, lemma_sqrt_floor_monotone,
    lemma_sqrt_floor_unique, COS_TOL_SQ_DEN, COS_TOL_SQ_NUM, NOISE_LIMIT, RANGE_LIMIT, RAYS_LIMIT,
    TURN_URAD,
};
use crate::geom::{ray_world_dir, spec_dist_sq, spec_ray_dir, SensorPose, Vec3Mm, WORLD_DIR_BOUND};
use crate::sensor::{LidarSensor, RaySample};
use vstd::arithmetic::div_mod::{
    lemma_div_is_ordered_by_denominator, lemma_fundamental_div_mod,
};
use vstd::prelude::*;

verus! {

/// A ROS-`LaserScan`-shaped message describing one completed sweep.
///
/// Angles are microradians and times are microseconds, as everywhere in this
/// crate; a host serializing for ROS tooling converts to radians and
/// seconds. A range of `None` stands for "no return", which the float wire
/// format encodes as positive infinity.
#[derive(Clone, Debug)]
pub struct LaserScan {
    /// Start angle of the scan: always 0.
    pub angle_min: u64,
    /// End angle of the scan: always a full turn.
    pub angle_max: u64,
    /// Angle between consecutive measurements (microradians).
    pub angle_increment: u64,
    /// Time between measurements: always 0, rays are simultaneous.
    pub time_increment: u64,
    /// Time between sweeps (microseconds).
    pub scan_time: u64,
    /// Minimum measurable range (millimeters).
    pub range_min: u64,
    /// Maximum measurable range (millimeters).
    pub range_max: u64,
    /// Measured distance per ray (millimeters); `None` for no return.
    pub ranges: Vec<Option<i64>>,
    /// `1` for a return, `0` for none, per ray.
    pub intensities: Vec<u8>,
}

/// Whether the displacement `(dx, dy, dz)` from the sensor lies inside the
/// angular tolerance cone of the ray direction `w`: the directions agree
/// within the tolerance exactly when the dot product is positive and its
/// square, against the squared magnitudes, beats the squared cosine bound.
pub open spec fn spec_in_cone(w: (int, int, int), dx: int, dy: int, dz: int) -> bool {
    let dot = w.0 * dx + w.1 * dy + w.2 * dz;
    let wsq = w.0 * w.0 + w.1 * w.1 + w.2 * w.2;
    let dsq = dx * dx + dy * dy + dz * dz;
    dot > 0 && dot * dot * COS_TOL_SQ_DEN > COS_TOL_SQ_NUM * wsq * dsq
}

/// Whether obstacle `o` can reflect the ray with direction `w` cast from
/// `pos`: its distance lies in the closed band `[rmin, rmax]` and it sits
/// inside the ray's tolerance cone.
pub open spec fn spec_qualifies(rmin: int, rmax: int, pos: Vec3Mm, w: (int, int, int), o: Vec3Mm) -> bool {
    let sq = spec_dist_sq(pos, o);
    &&& rmin * rmin <= sq <= rmax * rmax
    &&& spec_in_cone(w, o.x - pos.x, o.y - pos.y, o.z - pos.z)
}

/// The smallest squared distance of any qualifying obstacle, or `None` when
/// no obstacle qualifies; nearest wins, and exact ties collapse because only
/// the distance is kept.
pub open spec fn spec_best_sq(
    rmin: int,
    rmax: int,
    pos: Vec3Mm,
    w: (int, int, int),
    obs: Seq<Vec3Mm>,
) -> Option<int>
    decreases obs.len(),
{
    if obs.len() == 0 {
        None
    } else {
        let prev = spec_best_sq(rmin, rmax, pos, w, obs.drop_last());
        let o = obs.last();
        if spec_qualifies(rmin, rmax, pos, w, o) {
            let sq = spec_dist_sq(pos, o);
            match prev {
                Option::None => Some(sq),
                Option::Some(m) => Some(if sq < m { sq } else { m }),
            }
        } else {
            prev
        }
    }
}

/// What `spec_best_sq` computes, membership-wise: `None` exactly when no
/// obstacle qualifies, and otherwise the minimum squared distance among the
/// qualifying obstacles.
pub proof fn lemma_best_sq_characterization(
    rmin: int,
    rmax: int,
    pos: Vec3Mm,
    w: (int, int, int),
    obs: Seq<Vec3Mm>,
)
    ensures
        spec_best_sq(rmin, rmax, pos, w, obs) is None <==> (forall|j: int|
            0 <= j < obs.len() ==> !spec_qualifies(rmin, rmax, pos, w, #[trigger] obs[j])),
        spec_best_sq(rmin, rmax, pos, w, obs) matches Some(m) ==> (exists|j: int|
            0 <= j < obs.len() && spec_qualifies(rmin, rmax, pos, w, #[trigger] obs[j])
                && spec_dist_sq(pos, obs[j]) == m),
        spec_best_sq(rmin, rmax, pos, w, obs) matches Some(m) ==> (forall|j: int|
            0 <= j < obs.len() && spec_qualifies(rmin, rmax, pos, w, #[trigger] obs[j])
                ==> m <= spec_dist_sq(pos, obs[j])),
    decreases obs.len(),
{
    if obs.len() == 0 {
    } else {
        let pre = obs.drop_last();
        let o = obs.last();
        lemma_best_sq_characterization(rmin, rmax, pos, w, pre);
        assert(forall|j: int| 0 <= j < pre.len() ==> pre[j] == #[trigger] obs[j]);
        assert(obs[obs.len() - 1] == o);
        if spec_qualifies(rmin, rmax, pos, w, o) {
            let m = spec_best_sq(rmin, rmax, pos, w, obs)->Some_0;
            if spec_best_sq(rmin, rmax, pos, w, pre) is Some {
                let mp = spec_best_sq(rmin, rmax, pos, w, pre)->Some_0;
                if spec_dist_sq(pos, o) < mp {
                    assert(spec_dist_sq(pos, obs[obs.len() - 1]) == m);
                } else {
                    let jw = choose|j: int|
                        0 <= j < pre.len() && spec_qualifies(rmin, rmax, pos, w, #[trigger] pre[j])
                            && spec_dist_sq(pos, pre[j]) == mp;
                    assert(spec_qualifies(rmin, rmax, pos, w, obs[jw]));
                    assert(spec_dist_sq(pos, obs[jw]) == m);
                }
            } else {
                assert(spec_dist_sq(pos, obs[obs.len() - 1]) == m);
            }
        } else {
            if spec_best_sq(rmin, rmax, pos, w, obs) is Some {
                let m = spec_best_sq(rmin, rmax, pos, w, obs)->Some_0;
                let jw = choose|j: int|
                    0 <= j < pre.len() && spec_qualifies(rmin, rmax, pos, w, #[trigger] pre[j])
                        && spec_dist_sq(pos, pre[j]) == m;
                assert(spec_qualifies(rmin, rmax, pos, w, obs[jw]));
            }
        }
    }
}

/// The sample recorded for ray `i`: the ray angle grows by the angular
/// resolution per ray; a miss reports `range_max` and no hit; a hit reports
/// the floor square root of the smallest qualifying squared distance.
pub open spec fn spec_sample(s: LidarSensor, pose: SensorPose, obs: Seq<Vec3Mm>, i: int) -> RaySample {
    let ang = i * s.angular_resolution;
    let w = spec_ray_dir(pose.rotation, ang);
    match spec_best_sq(s.range_min as int, s.range_max as int, pose.position, w, obs) {
        Option::None => RaySample { angle: ang as u64, distance: s.range_max as i64, hit: false },
        Option::Some(m) => RaySample {
            angle: ang as u64,
            distance: sqrt_floor(m as nat) as i64,
            hit: true,
        },
    }
}

/// One full sweep: the sample of every ray, in ray order.
pub open spec fn spec_scan_results(s: LidarSensor, pose: SensorPose, obs: Seq<Vec3Mm>) -> Seq<
    RaySample,
> {
    Seq::new(s.rays_per_scan as nat, |i: int| spec_sample(s, pose, obs, i))
}

/// The `LaserScan` range entry derived from a sample: the hit distance, or
/// `None` (infinity on the wire) for a miss.
pub open spec fn spec_range_of(sample: RaySample) -> Option<i64> {
    if sample.hit {
        Some(sample.distance)
    } else {
        None
    }
}

/// The `LaserScan` intensity derived from a sample: 1 for a hit, 0 for none.
pub open spec fn spec_intensity_of(sample: RaySample) -> u8 {
    if sample.hit {
        1
    } else {
        0
    }
}

/// Ray angles are well behaved under a valid configuration: the resolution
/// is at least one microradian, and every ray angle, `i` times the
/// resolution, stays below a full turn.
pub proof fn lemma_ray_angle_bounds(rays: int, res: int, i: int)
    requires
        1 <= rays <= RAYS_LIMIT,
        res == TURN_URAD as int / rays,
        0 <= i < rays,
    ensures
        1 <= res <= TURN_URAD,
        0 <= i * res <= (rays - 1) * res,
        (rays - 1) * res < TURN_URAD,
{
    lemma_div_is_ordered_by_denominator(TURN_URAD as int, rays, RAYS_LIMIT as int);
    lemma_div_is_ordered_by_denominator(TURN_URAD as int, 1, rays);
    vstd::arithmetic::div_mod::lemma_div_basics(TURN_URAD as int);
    lemma_fundamental_div_mod(TURN_URAD as int, rays);
    vstd::arithmetic::div_mod::lemma_mod_bound(TURN_URAD as int, rays);
    assert(rays * res <= TURN_URAD);
    assert(i * res <= (rays - 1) * res) by (nonlinear_arith)
        requires
            i <= rays - 1,
            res >= 0,
    ;
    assert(0 <= i * res) by (nonlinear_arith)
        requires
            i >= 0,
            res >= 0,
    ;
    assert((rays - 1) * res == rays * res - res) by (nonlinear_arith);
}

impl LidarSensor {
    /// Performs one complete sweep from `pose` against the obstacle snapshot:
    /// replaces `scan_results` with one sample per ray, resets the
    /// visualization cursor, and returns the matching `LaserScan` message.
    /// The sweep is a pure function of the configuration, the pose, and the
    /// obstacles: no noise is involved here, so equal inputs give equal
    /// results.
    #[verifier::loop_isolation(false)]
    pub fn sweep(&mut self, pose: &SensorPose, obstacles: &Vec<Vec3Mm>) -> (scan: LaserScan)
        requires
            old(self).wf(),
            pose.bounded(),
            forall|k: int| 0 <= k < obstacles@.len() ==> (#[trigger] obstacles@[k]).bounded(),
        ensures
            final(self).wf(),
            final(self).range_min == old(self).range_min,
            final(self).range_max == old(self).range_max,
            final(self).scan_rate == old(self).scan_rate,
            final(self).rays_per_scan == old(self).rays_per_scan,
            final(self).angular_resolution == old(self).angular_resolution,
            final(self).scan_timer == old(self).scan_timer,
            final(self).offset == old(self).offset,
            final(self).visualize == old(self).visualize,
            final(self).enable_logging == old(self).enable_logging,
            final(self).noise_stddev == old(self).noise_stddev,
            final(self).current_ray == 0,
            final(self).current_angle == 0,
            final(self).scan_results@ == spec_scan_results(*old(self), *pose, obstacles@),
            scan.angle_min == 0,
            scan.angle_max == TURN_URAD,
            scan.angle_increment == old(self).angular_resolution,
            scan.time_increment == 0,
            scan.scan_time == old(self).scan_timer.period_us,
            scan.range_min == old(self).range_min,
            scan.range_max == old(self).range_max,
            scan.ranges@.len() == old(self).rays_per_scan,
            scan.intensities@.len() == old(self).rays_per_scan,
            forall|k: int|
                0 <= k < old(self).rays_per_scan ==> #[trigger] scan.ranges@[k] == spec_range_of(
                    final(self).scan_results@[k],
                ),
            forall|k: int|
                0 <= k < old(self).rays_per_scan ==> #[trigger] scan.intensities@[k]
                    == spec_intensity_of(final(self).scan_results@[k]),
    {
        let ghost s0: LidarSensor = *self;
        let rays: usize = self.rays_per_scan;
        let res: u64 = self.angular_resolution;
        let rmin: u64 = self.range_min;
        let rmax: u64 = self.range_max;
        let rmin2: i128 = mul_checked(
            rmin as i128,
            rmin as i128,
            Ghost(100_000_000int),
            Ghost(100_000_000int),
        );
        let rmax2: i128 = mul_checked(
            rmax as i128,
            rmax as i128,
            Ghost(100_000_000int),
            Ghost(100_000_000int),
        );
        let mut results: Vec<RaySample> = Vec::new();
        let mut ranges: Vec<Option<i64>> = Vec::new();
        let mut intensities: Vec<u8> = Vec::new();
        let mut i: usize = 0;
        while i < rays
            invariant
                i <= rays,
                results@.len() == i,
                ranges@.len() == i,
                intensities@.len() == i,
                forall|k: int|
                    0 <= k < i ==> #[trigger] results@[k] == spec_sample(
                        s0,
                        *pose,
                        obstacles@,
                        k,
                    ),
                forall|k: int|
                    0 <= k < i ==> #[trigger] ranges@[k] == spec_range_of(
                        spec_sample(s0, *pose, obstacles@, k),
                    ),
                forall|k: int|
                    0 <= k < i ==> #[trigger] intensities@[k] == spec_intensity_of(
                        spec_sample(s0, *pose, obstacles@, k),
                    ),
            decreases rays - i,
        {
            proof {
                lemma_ray_angle_bounds(rays as int, res as int, i as int);
            }
            let angle: u64 = (i as u64) * res;
            let w: (i64, i64, i64) = ray_world_dir(&pose.rotation, angle);
            let ghost wspec: (int, int, int) = spec_ray_dir(pose.rotation, angle as int);
            let mut best: i128 = 0;
            let mut found: bool = false;
            let mut j: usize = 0;
            while j < obstacles.len()
                invariant
                    j <= obstacles@.len(),
                    found ==> spec_best_sq(
                        rmin as int,
                        rmax as int,
                        pose.position,
                        wspec,
                        obstacles@.take(j as int),
                    ) == Some(best as int),
                    !found ==> spec_best_sq(
                        rmin as int,
                        rmax as int,
                        pose.position,
                        wspec,
                        obstacles@.take(j as int),
                    ) is None,
                    found ==> 0 <= best <= 30_000_000_000_000_000,
                decreases obstacles@.len() - j,
            {
                let o: Vec3Mm = obstacles[j];
                assert(obstacles@[j as int].bounded());
                let dx: i64 = o.x - pose.position.x;
                let dy: i64 = o.y - pose.position.y;
                let dz: i64 = o.z - pose.position.z;
                let dxl: i128 = dx as i128;
                let dyl: i128 = dy as i128;
                let dzl: i128 = dz as i128;
                let sq: i128 = mul_checked(dxl, dxl, Ghost(100_000_000int), Ghost(100_000_000int))
                    + mul_checked(dyl, dyl, Ghost(100_000_000int), Ghost(100_000_000int))
                    + mul_checked(dzl, dzl, Ghost(100_000_000int), Ghost(100_000_000int));
                assert(sq == spec_dist_sq(pose.position, o));
                let mut qualifies: bool = false;
                if rmin2 <= sq && sq <= rmax2 {
                    let dot: i128 = mul_checked(
                        w.0 as i128,
                        dxl,
                        Ghost(13_900_000int),
                        Ghost(100_000_000int),
                    ) + mul_checked(w.1 as i128, dyl, Ghost(13_900_000int), Ghost(100_000_000int))
                        + mul_checked(
                        w.2 as i128,
                        dzl,
                        Ghost(13_900_000int),
                        Ghost(100_000_000int),
                    );
                    if dot > 0 {
                        let wsq: i128 = mul_checked(
                            w.0 as i128,
                            w.0 as i128,
                            Ghost(13_900_000int),
                            Ghost(13_900_000int),
                        ) + mul_checked(
                            w.1 as i128,
                            w.1 as i128,
                            Ghost(13_900_000int),
                            Ghost(13_900_000int),
                        ) + mul_checked(
                            w.2 as i128,
                            w.2 as i128,
                            Ghost(13_900_000int),
                            Ghost(13_900_000int),
                        );
                        let dotsq: i128 = mul_checked(
                            dot,
                            dot,
                            Ghost(4_200_000_000_000_000int),
                            Ghost(4_200_000_000_000_000int),
                        );
                        let lhs: i128 = mul_checked(
                            dotsq,
                            COS_TOL_SQ_DEN,
                            Ghost(17_640_000_000_000_000_000_000_000_000_000int),
                            Ghost(1_000_000int),
                        );
                        let numw: i128 = mul_checked(
                            COS_TOL_SQ_NUM,
                            wsq,
                            Ghost(1_000_000int),
                            Ghost(600_000_000_000_000int),
                        );
                        let rhs: i128 = mul_checked(
                            numw,
                            sq,
                            Ghost(600_000_000_000_000_000_000int),
                            Ghost(30_000_000_000_000_000int),
                        );
                        if lhs > rhs {
                            qualifies = true;
                            assert(spec_qualifies(rmin as int, rmax as int, pose.position, wspec, o));
                        } else {
                            assert(!spec_qualifies(rmin as int, rmax as int, pose.position, wspec, o));
                        }
                    } else {
                        assert(!spec_qualifies(rmin as int, rmax as int, pose.position, wspec, o));
                    }
                } else {
                    assert(!spec_qualifies(rmin as int, rmax as int, pose.position, wspec, o));
                }
                let ghost found0: bool = found;
                let ghost best0: i128 = best;
                if qualifies {
                    if !found || sq < best {
                        best = sq;
                    }
                    found = true;
                }
                proof {
                    let t1 = obstacles@.take(j + 1);
                    assert(t1.drop_last() =~= obstacles@.take(j as int));
                    assert(t1.last() == obstacles@[j as int]);
                    assert(t1.len() == j + 1);
                }
                j = j + 1;
            }
            proof {
                assert(obstacles@.take(obstacles@.len() as int) =~= obstacles@);
            }
            if found {
                let d: u64 = isqrt(best as u64);
                results.push(RaySample { angle, distance: d as i64, hit: true });
                ranges.push(Some(d as i64));
                intensities.push(1);
            } else {
                results.push(RaySample { angle, distance: rmax as i64, hit: false });
                ranges.push(None);
                intensities.push(0);
            }
            proof {
                assert(results@[i as int] == spec_sample(s0, *pose, obstacles@, i as int));
            }
            i = i + 1;
        }
        self.scan_results = results;
        self.current_ray = 0;
        self.current_angle = 0;
        proof {
            assert(self.scan_results@ =~= spec_scan_results(s0, *pose, obstacles@));
        }
        LaserScan {
            angle_min: 0,
            angle_max: TURN_URAD,
            angle_increment: res,
            time_increment: 0,
            scan_time: self.scan_timer.period_us,
            range_min: rmin,
            range_max: rmax,
            ranges,
            intensities,
        }
    }

    /// Perturbs the last sweep by per-ray noise samples (millimeters), as a
    /// host draws them from a zero-mean Gaussian with the configured standard
    /// deviation. Noise lands only on hit distances, never turns a miss into
    /// a hit or back, and is not clamped: a perturbed distance may leave the
    /// configured range band.
    #[verifier::loop_isolation(false)]
    pub fn apply_noise(&mut self, samples: &Vec<i64>)
        requires
            samples@.len() == old(self).scan_results@.len(),
            forall|k: int|
                0 <= k < samples@.len() ==> -NOISE_LIMIT <= #[trigger] samples@[k] <= NOISE_LIMIT,
            forall|k: int|
                0 <= k < old(self).scan_results@.len() ==> -(RANGE_LIMIT as int) <= (
                #[trigger] old(self).scan_results@[k]).distance <= RANGE_LIMIT as int,
        ensures
            final(self).scan_results@.len() == old(self).scan_results@.len(),
            forall|k: int|
                0 <= k < old(self).scan_results@.len() && old(self).scan_results@[k].hit
                    ==> #[trigger] final(self).scan_results@[k] == (RaySample {
                    angle: old(self).scan_results@[k].angle,
                    distance: (old(self).scan_results@[k].distance + samples@[k]) as i64,
                    hit: true,
                }),
            forall|k: int|
                0 <= k < old(self).scan_results@.len() && !old(self).scan_results@[k].hit
                    ==> #[trigger] final(self).scan_results@[k] == old(self).scan_results@[k],
            final(self).range_min == old(self).range_min,
            final(self).range_max == old(self).range_max,
            final(self).scan_rate == old(self).scan_rate,
            final(self).rays_per_scan == old(self).rays_per_scan,
            final(self).angular_resolution == old(self).angular_resolution,
            final(self).scan_timer == old(self).scan_timer,
            final(self).offset == old(self).offset,
            final(self).visualize == old(self).visualize,
            final(self).enable_logging == old(self).enable_logging,
            final(self).noise_stddev == old(self).noise_stddev,
            final(self).current_ray == old(self).current_ray,
            final(self).current_angle == old(self).current_angle,
    {
        let n: usize = self.scan_results.len();
        let mut out: Vec<RaySample> = Vec::new();
        let mut k: usize = 0;
        while k < n
            invariant
                k <= n,
                out@.len() == k,
                forall|m: int|
                    0 <= m < k && self.scan_results@[m].hit ==> #[trigger] out@[m] == (RaySample {
                        angle: self.scan_results@[m].angle,
                        distance: (self.scan_results@[m].distance + samples@[m]) as i64,
                        hit: true,
                    }),
                forall|m: int|
                    0 <= m < k && !self.scan_results@[m].hit ==> #[trigger] out@[m]
                        == self.scan_results@[m],
            decreases n - k,
        {
            let sample: RaySample = self.scan_results[k];
            if sample.hit {
                out.push(
                    RaySample {
                        angle: sample.angle,
                        distance: sample.distance + samples[k],
                        hit: true,
                    },
                );
            } else {
                out.push(sample);
            }
            k = k + 1;
        }
        self.scan_results = out;
    }

    /// Rebuilds the `LaserScan` message from the stored sweep and the current
    /// configuration. Per ray, the range is the hit distance and the
    /// intensity 1; a miss carries no return (`None`, infinity on the wire)
    /// and intensity 0.
    #[verifier::loop_isolation(false)]
    pub fn to_laser_scan(&self) -> (scan: LaserScan)
        ensures
            scan.angle_min == 0,
            scan.angle_max == TURN_URAD,
            scan.angle_increment == self.angular_resolution,
            scan.time_increment == 0,
            scan.scan_time == self.scan_timer.period_us,
            scan.range_min == self.range_min,
            scan.range_max == self.range_max,
            scan.ranges@.len() == self.scan_results@.len(),
            scan.intensities@.len() == self.scan_results@.len(),
            forall|k: int|
                0 <= k < self.scan_results@.len() ==> #[trigger] scan.ranges@[k] == spec_range_of(
                    self.scan_results@[k],
                ),
            forall|k: int|
                0 <= k < self.scan_results@.len() ==> #[trigger] scan.intensities@[k]
                    == spec_intensity_of(self.scan_results@[k]),
    {
        let n: usize = self.scan_results.len();
        let mut ranges: Vec<Option<i64>> = Vec::new();
        let mut intensities: Vec<u8> = Vec::new();
        let mut k: usize = 0;
        while k < n
            invariant
                k <= n,
                ranges@.len() == k,
                intensities@.len() == k,
                forall|m: int|
                    0 <= m < k ==> #[trigger] ranges@[m] == spec_range_of(self.scan_results@[m]),
                forall|m: int|
                    0 <= m < k ==> #[trigger] intensities@[m] == spec_intensity_of(
                        self.scan_results@[m],
                    ),
            decreases n - k,
        {
            let sample: RaySample = self.scan_results[k];
            if sample.hit {
                ranges.push(Some(sample.distance));
                intensities.push(1);
            } else {
                ranges.push(None);
                intensities.push(0);
            }
            k = k + 1;
        }
        LaserScan {
            angle_min: 0,
            angle_max: TURN_URAD,
            angle_increment: self.angular_resolution,
            time_increment: 0,
            scan_time: self.scan_timer.period_us,
            range_min: self.range_min,
            range_max: self.range_max,
            ranges,
            intensities,
        }
    }
}

/// Under a valid configuration a sweep always yields `rays_per_scan`
/// samples, whose angles start at zero, grow strictly by the angular
/// resolution, and stay below a full turn.
pub proof fn lemma_scan_shape(s: LidarSensor, pose: SensorPose, obs: Seq<Vec3Mm>)
    requires
        s.wf(),
    ensures
        spec_scan_results(s, pose, obs).len() == s.rays_per_scan,
        forall|i: int|
            0 <= i < s.rays_per_scan ==> #[trigger] spec_scan_results(s, pose, obs)[i].angle == i
                * s.angular_resolution,
        forall|i: int, j: int|
            0 <= i < j < s.rays_per_scan ==> spec_scan_results(s, pose, obs)[i].angle
                < spec_scan_results(s, pose, obs)[j].angle,
        forall|i: int|
            0 <= i < s.rays_per_scan ==> #[trigger] spec_scan_results(s, pose, obs)[i].angle
                < TURN_URAD,
{
    let rays = s.rays_per_scan as int;
    let res = s.angular_resolution as int;
    assert forall|i: int| 0 <= i < rays implies #[trigger] spec_scan_results(s, pose, obs)[i].angle
        == i * res && spec_scan_results(s, pose, obs)[i].angle < TURN_URAD by {
        lemma_ray_angle_bounds(rays, res, i);
    }
    assert forall|i: int, j: int| 0 <= i < j < rays implies spec_scan_results(s, pose, obs)[i].angle
        < spec_scan_results(s, pose, obs)[j].angle by {
        lemma_ray_angle_bounds(rays, res, i);
        lemma_ray_angle_bounds(rays, res, j);
        assert(i * res < j * res) by (nonlinear_arith)
            requires
                i < j,
                res >= 1,
        ;
    }
}

/// An obstacle whose distance from the sensor falls outside the closed band
/// `[range_min, range_max]` can never cause a hit: adding it to the snapshot
/// leaves every ray's sample unchanged.
pub proof fn lemma_out_of_range_never_hits(
    s: LidarSensor,
    pose: SensorPose,
    obs: Seq<Vec3Mm>,
    o: Vec3Mm,
)
    requires
        spec_dist_sq(pose.position, o) < s.range_min * s.range_min || spec_dist_sq(pose.position, o)
            > s.range_max * s.range_max,
    ensures
        spec_scan_results(s, pose, obs.push(o)) == spec_scan_results(s, pose, obs),
{
    assert forall|i: int| 0 <= i < s.rays_per_scan implies spec_sample(s, pose, obs.push(o), i)
        == spec_sample(s, pose, obs, i) by {
        let w = spec_ray_dir(pose.rotation, i * s.angular_resolution);
        assert(obs.push(o).drop_last() =~= obs);
        assert(obs.push(o).last() == o);
        assert(!spec_qualifies(s.range_min as int, s.range_max as int, pose.position, w, o));
    }
    assert(spec_scan_results(s, pose, obs.push(o)) =~= spec_scan_results(s, pose, obs));
}

/// Every hit reports a distance inside the configured range band, and the
/// distance is the rounded-down distance of an actual qualifying obstacle.
pub proof fn lemma_hit_within_range(s: LidarSensor, pose: SensorPose, obs: Seq<Vec3Mm>, i: int)
    requires
        s.wf(),
        0 <= i < s.rays_per_scan,
        spec_scan_results(s, pose, obs)[i].hit,
    ensures
        s.range_min <= spec_scan_results(s, pose, obs)[i].distance <= s.range_max,
        exists|j: int|
            0 <= j < obs.len() && spec_qualifies(
                s.range_min as int,
                s.range_max as int,
                pose.position,
                spec_ray_dir(pose.rotation, i * s.angular_resolution),
                #[trigger] obs[j],
            ) && sqrt_floor(spec_dist_sq(pose.position, obs[j]) as nat) == spec_scan_results(
                s,
                pose,
                obs,
            )[i].distance,
{
    let rmin = s.range_min as int;
    let rmax = s.range_max as int;
    let w = spec_ray_dir(pose.rotation, i * s.angular_resolution);
    lemma_best_sq_characterization(rmin, rmax, pose.position, w, obs);
    let m = spec_best_sq(rmin, rmax, pose.position, w, obs)->Some_0;
    let jw = choose|j: int|
        0 <= j < obs.len() && spec_qualifies(rmin, rmax, pose.position, w, #[trigger] obs[j])
            && spec_dist_sq(pose.position, obs[j]) == m;
    assert(rmin * rmin <= m <= rmax * rmax);
    assert(rmin * rmin < (rmin + 1) * (rmin + 1)) by (nonlinear_arith)
        requires
            rmin >= 0,
    ;
    assert(rmax * rmax < (rmax + 1) * (rmax + 1)) by (nonlinear_arith)
        requires
            rmax >= 0,
    ;
    lemma_sqrt_floor_unique((rmin * rmin) as nat, rmin as nat);
    lemma_sqrt_floor_unique((rmax * rmax) as nat, rmax as nat);
    lemma_sqrt_floor_monotone((rmin * rmin) as nat, m as nat);
    lemma_sqrt_floor_monotone(m as nat, (rmax * rmax) as nat);
    assert(spec_dist_sq(pose.position, obs[jw]) == m);
}

/// A noise-free sweep is a pure function of configuration, pose, and
/// obstacles: two results derived from the same inputs are identical.
pub proof fn lemma_sweep_deterministic(
    s: LidarSensor,
    pose: SensorPose,
    obs: Seq<Vec3Mm>,
    r1: Seq<RaySample>,
    r2: Seq<RaySample>,
)
    requires
        r1 == spec_scan_results(s, pose, obs),
        r2 == spec_scan_results(s, pose, obs),
    ensures
        r1 == r2,
{
}

/// Two obstacle snapshots holding the same positions give the same nearest
/// qualifying squared distance, whatever their order or duplication.
pub proof fn lemma_best_sq_same_members(
    rmin: int,
    rmax: int,
    pos: Vec3Mm,
    w: (int, int, int),
    s1: Seq<Vec3Mm>,
    s2: Seq<Vec3Mm>,
)
    requires
        forall|v: Vec3Mm| s1.contains(v) <==> s2.contains(v),
    ensures
        spec_best_sq(rmin, rmax, pos, w, s1) == spec_best_sq(rmin, rmax, pos, w, s2),
{
    lemma_best_sq_characterization(rmin, rmax, pos, w, s1);
    lemma_best_sq_characterization(rmin, rmax, pos, w, s2);
    let b1 = spec_best_sq(rmin, rmax, pos, w, s1);
    let b2 = spec_best_sq(rmin, rmax, pos, w, s2);
    if b1 is Some {
        let m1 = b1->Some_0;
        let j1 = choose|j: int|
            0 <= j < s1.len() && spec_qualifies(rmin, rmax, pos, w, #[trigger] s1[j])
                && spec_dist_sq(pos, s1[j]) == m1;
        let v1 = s1[j1];
        assert(s1.contains(v1));
        let k1 = choose|k: int| 0 <= k < s2.len() && s2[k] == v1;
        assert(spec_qualifies(rmin, rmax, pos, w, s2[k1]));
        assert(b2 is Some);
    }
    if b2 is Some {
        let m2 = b2->Some_0;
        let j2 = choose|j: int|
            0 <= j < s2.len() && spec_qualifies(rmin, rmax, pos, w, #[trigger] s2[j])
                && spec_dist_sq(pos, s2[j]) == m2;
        let v2 = s2[j2];
        assert(s2.contains(v2));
        let k2 = choose|k: int| 0 <= k < s1.len() && s1[k] == v2;
        assert(spec_qualifies(rmin, rmax, pos, w, s1[k2]));
        assert(b1 is Some);
    }
    if b1 is Some && b2 is Some {
        let m1 = b1->Some_0;
        let m2 = b2->Some_0;
        assert(m1 <= m2 && m2 <= m1);
    }
}

/// The sweep does not depend on how the obstacle snapshot is ordered: two
/// snapshots holding the same positions produce identical results. In
/// particular, listing either of two equally distant, equally aligned
/// obstacles first changes nothing, since only the winning distance is
/// reported.
pub proof fn lemma_scan_order_independent(
    s: LidarSensor,
    pose: SensorPose,
    obs1: Seq<Vec3Mm>,
    obs2: Seq<Vec3Mm>,
)
    requires
        forall|v: Vec3Mm| obs1.contains(v) <==> obs2.contains(v),
    ensures
        spec_scan_results(s, pose, obs1) == spec_scan_results(s, pose, obs2),
{
    assert forall|i: int| 0 <= i < s.rays_per_scan implies spec_sample(s, pose, obs1, i)
        == spec_sample(s, pose, obs2, i) by {
        let w = spec_ray_dir(pose.rotation, i * s.angular_resolution);
        lemma_best_sq_same_members(
            s.range_min as int,
            s.range_max as int,
            pose.position,
            w,
            obs1,
            obs2,
        );
    }
    assert(spec_scan_results(s, pose, obs1) =~= spec_scan_results(s, pose, obs2));
}

} // verus!
