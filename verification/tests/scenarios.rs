//! End-to-end sweep scenarios, scheduler timing, noise, reconfiguration, and
//! configuration errors.

use lidar_core::fixed::isqrt;
use lidar_core::geom::{Quat, SensorPose, Vec3Mm};
use lidar_core::scheduler::ScanScheduler;
use lidar_core::sensor::{ConfigError, LidarSensor};

fn origin_pose() -> SensorPose {
    SensorPose { position: Vec3Mm::new(0, 0, 0), rotation: Quat::identity() }
}

#[test]
fn single_obstacle_ahead_hits_only_ray_zero() {
    // Sensor at the origin facing +X, one obstacle three meters ahead,
    // 36 rays: ray 0 reports a hit at 3.0 m, all others miss at range_max.
    let mut lidar = LidarSensor::default();
    let pose = origin_pose();
    let obstacles = vec![Vec3Mm::new(3000, 0, 0)];

    let scan = lidar.sweep(&pose, &obstacles);

    assert_eq!(lidar.scan_results.len(), 36);
    assert!(lidar.scan_results[0].hit);
    assert_eq!(lidar.scan_results[0].distance, 3000);
    for i in 1..36 {
        assert!(!lidar.scan_results[i].hit);
        assert_eq!(lidar.scan_results[i].distance, 12_000);
    }
    assert_eq!(scan.ranges[0], Some(3000));
    assert_eq!(scan.intensities[0], 1);
    for i in 1..36 {
        assert_eq!(scan.ranges[i], None);
        assert_eq!(scan.intensities[i], 0);
    }
}

#[test]
fn obstacle_below_minimum_range_is_ignored() {
    // An obstacle at 0.1 m with range_min 0.2 m: no ray reports a hit.
    let mut lidar = LidarSensor::default();
    let pose = origin_pose();
    let obstacles = vec![Vec3Mm::new(100, 0, 0)];

    let scan = lidar.sweep(&pose, &obstacles);

    for i in 0..36 {
        assert!(!lidar.scan_results[i].hit);
        assert_eq!(scan.ranges[i], None);
    }
}

#[test]
fn obstacle_beyond_maximum_range_is_ignored() {
    let mut lidar = LidarSensor::default();
    let pose = origin_pose();
    let obstacles = vec![Vec3Mm::new(12_001, 0, 0)];

    lidar.sweep(&pose, &obstacles);

    for i in 0..36 {
        assert!(!lidar.scan_results[i].hit);
    }
}

#[test]
fn doubling_rays_reshapes_the_next_sweep() {
    // rays_per_scan changed from 36 to 72 and update_parameters called:
    // the angular resolution becomes a 72th of a turn and the next sweep
    // produces 72 entries.
    let mut lidar = LidarSensor::default();
    lidar.rays_per_scan = 72;
    lidar.update_parameters();

    assert_eq!(lidar.angular_resolution, 6_283_185 / 72);

    let pose = origin_pose();
    let obstacles = vec![Vec3Mm::new(3000, 0, 0)];
    lidar.sweep(&pose, &obstacles);
    assert_eq!(lidar.scan_results.len(), 72);
}

#[test]
fn nearest_of_two_aligned_obstacles_wins() {
    // Two obstacles at 3 m and 5 m on the same +X ray: the reported distance
    // is 3.0 m, whichever obstacle is listed first.
    let mut lidar = LidarSensor::default();
    let pose = origin_pose();

    let near_first = vec![Vec3Mm::new(3000, 0, 0), Vec3Mm::new(5000, 0, 0)];
    let far_first = vec![Vec3Mm::new(5000, 0, 0), Vec3Mm::new(3000, 0, 0)];

    lidar.sweep(&pose, &near_first);
    assert!(lidar.scan_results[0].hit);
    assert_eq!(lidar.scan_results[0].distance, 3000);
    let first = lidar.scan_results.clone();

    lidar.sweep(&pose, &far_first);
    assert_eq!(lidar.scan_results, first);
}

#[test]
fn equidistant_obstacles_report_the_same_distance_either_order() {
    // Two equally distant obstacles inside the same ray's cone: swapping
    // which is listed first changes nothing observable.
    let mut lidar = LidarSensor::default();
    let pose = origin_pose();
    let a = Vec3Mm::new(4000, 0, 10);
    let b = Vec3Mm::new(4000, 0, -10);

    lidar.sweep(&pose, &vec![a, b]);
    let first = lidar.scan_results.clone();
    lidar.sweep(&pose, &vec![b, a]);
    assert_eq!(lidar.scan_results, first);
    assert!(first[0].hit);
}

#[test]
fn scheduler_fires_once_per_period_however_time_is_sliced() {
    // At 10 Hz the scheduler fires exactly once per 0.1 s of accumulated
    // time, whether delivered as one 0.1 s tick or ten 0.01 s ticks.
    let mut one_shot = ScanScheduler::new(100_000);
    assert!(one_shot.tick(100_000));
    assert!(!one_shot.tick(0));

    let mut sliced = ScanScheduler::new(100_000);
    let mut fires = 0;
    for _ in 0..10 {
        if sliced.tick(10_000) {
            fires += 1;
        }
    }
    assert_eq!(fires, 1);

    // Ten more slices: exactly one more firing.
    for _ in 0..10 {
        if sliced.tick(10_000) {
            fires += 1;
        }
    }
    assert_eq!(fires, 2);
}

#[test]
fn scheduler_carries_remainder_over() {
    let mut timer = ScanScheduler::new(100_000);
    assert!(!timer.tick(70_000));
    assert!(timer.tick(60_000));
    // 30 ms carried over: 70 ms more completes the next period.
    assert!(!timer.tick(69_999));
    assert!(timer.tick(1));
}

#[test]
fn changing_scan_rate_keeps_accumulated_time() {
    let mut lidar = LidarSensor::default();
    assert!(!lidar.tick(60_000));
    assert!(lidar.set_scan_rate(20_000).is_ok());
    assert_eq!(lidar.scan_timer.period_us, 50_000);
    // The 60 ms already accumulated exceed the new 50 ms period.
    assert!(lidar.tick(0));
}

#[test]
fn sweep_is_deterministic_without_noise() {
    let mut lidar = LidarSensor::default();
    let pose = SensorPose {
        position: Vec3Mm::new(500, 200, -700),
        rotation: Quat::from_rotation_y(1_000_000),
    };
    let obstacles = vec![
        Vec3Mm::new(3000, 200, 0),
        Vec3Mm::new(-2000, 200, 4000),
        Vec3Mm::new(0, 200, -6000),
    ];

    lidar.sweep(&pose, &obstacles);
    let first = lidar.scan_results.clone();
    lidar.sweep(&pose, &obstacles);
    assert_eq!(lidar.scan_results, first);
}

#[test]
fn sweep_with_no_obstacles_misses_everywhere() {
    let mut lidar = LidarSensor::default();
    let pose = origin_pose();
    let scan = lidar.sweep(&pose, &vec![]);

    assert_eq!(scan.ranges.len(), 36);
    for i in 0..36 {
        assert!(!lidar.scan_results[i].hit);
        assert_eq!(lidar.scan_results[i].distance, 12_000);
        assert_eq!(scan.ranges[i], None);
        assert_eq!(scan.intensities[i], 0);
    }
}

#[test]
fn sweep_angles_increase_by_the_resolution() {
    let mut lidar = LidarSensor::default();
    let pose = origin_pose();
    lidar.sweep(&pose, &vec![]);

    let res = lidar.angular_resolution;
    for (i, sample) in lidar.scan_results.iter().enumerate() {
        assert_eq!(sample.angle, i as u64 * res);
        assert!(sample.angle < 6_283_185);
    }
}

#[test]
fn noise_perturbs_hits_only() {
    let mut lidar = LidarSensor::default();
    let pose = origin_pose();
    let obstacles = vec![Vec3Mm::new(3000, 0, 0)];
    lidar.sweep(&pose, &obstacles);

    let mut samples: Vec<i64> = vec![0; 36];
    samples[0] = 25;
    samples[1] = 9999; // lands on a miss: must change nothing
    lidar.apply_noise(&samples);

    assert!(lidar.scan_results[0].hit);
    assert_eq!(lidar.scan_results[0].distance, 3025);
    for i in 1..36 {
        assert!(!lidar.scan_results[i].hit);
        assert_eq!(lidar.scan_results[i].distance, 12_000);
    }
}

#[test]
fn noise_is_not_clamped_to_the_range_band() {
    let mut lidar = LidarSensor::default();
    let pose = origin_pose();
    lidar.sweep(&pose, &vec![Vec3Mm::new(11_999, 0, 0)]);

    let mut samples: Vec<i64> = vec![0; 36];
    samples[0] = 500;
    lidar.apply_noise(&samples);

    // The perturbed distance exceeds range_max and stays as it is.
    assert_eq!(lidar.scan_results[0].distance, 12_499);
    assert!(lidar.scan_results[0].hit);
}

#[test]
fn message_rebuilt_after_noise_reflects_noisy_distances() {
    let mut lidar = LidarSensor::default();
    let pose = origin_pose();
    lidar.sweep(&pose, &vec![Vec3Mm::new(3000, 0, 0)]);

    let mut samples: Vec<i64> = vec![0; 36];
    samples[0] = -40;
    lidar.apply_noise(&samples);
    let scan = lidar.to_laser_scan();

    assert_eq!(scan.ranges[0], Some(2960));
    assert_eq!(scan.intensities[0], 1);
    assert_eq!(scan.ranges[7], None);
    assert_eq!(scan.intensities[7], 0);
    assert_eq!(scan.angle_increment, lidar.angular_resolution);
    assert_eq!(scan.scan_time, 100_000);
}

#[test]
fn cursor_rotates_through_the_last_sweep() {
    let mut lidar = LidarSensor::default();
    let pose = origin_pose();
    lidar.sweep(&pose, &vec![]);

    assert_eq!(lidar.current_ray, 0);
    lidar.advance_cursor();
    assert_eq!(lidar.current_ray, 1);
    assert_eq!(lidar.current_angle, lidar.angular_resolution);
    for _ in 0..35 {
        lidar.advance_cursor();
    }
    assert_eq!(lidar.current_ray, 0);
    assert_eq!(lidar.current_angle, 0);
}

#[test]
fn cursor_does_nothing_before_the_first_sweep() {
    let mut lidar = LidarSensor::default();
    lidar.advance_cursor();
    assert_eq!(lidar.current_ray, 0);
    assert_eq!(lidar.current_angle, 0);
}

#[test]
fn zero_rays_is_rejected() {
    let mut lidar = LidarSensor::default();
    lidar.rays_per_scan = 0;
    assert_eq!(lidar.validate(), Err(ConfigError::InvalidRays));
    let mut other = LidarSensor::default();
    assert_eq!(other.set_rays_per_scan(0), Err(ConfigError::InvalidRays));
    assert_eq!(other.rays_per_scan, 36);
}

#[test]
fn empty_range_band_is_rejected() {
    let mut lidar = LidarSensor::default();
    lidar.range_min = 12_000;
    lidar.range_max = 12_000;
    assert_eq!(lidar.validate(), Err(ConfigError::InvalidRange));
    lidar.range_min = 0;
    assert_eq!(lidar.validate(), Err(ConfigError::InvalidRange));
}

#[test]
fn zero_scan_rate_is_rejected() {
    let mut lidar = LidarSensor::default();
    lidar.scan_rate = 0;
    assert_eq!(lidar.validate(), Err(ConfigError::InvalidScanRate));
    let mut other = LidarSensor::default();
    assert_eq!(other.set_scan_rate(0), Err(ConfigError::InvalidScanRate));
}

#[test]
fn oversized_noise_is_rejected() {
    let mut lidar = LidarSensor::default();
    lidar.noise_stddev = 1_000_000_001;
    assert_eq!(lidar.validate(), Err(ConfigError::InvalidNoise));
    lidar.noise_stddev = 50;
    assert_eq!(lidar.validate(), Ok(()));
}

#[test]
fn update_parameters_is_idempotent() {
    let mut lidar = LidarSensor::default();
    lidar.rays_per_scan = 90;
    lidar.scan_rate = 5000;
    lidar.update_parameters();
    let res = lidar.angular_resolution;
    let period = lidar.scan_timer.period_us;
    let len = lidar.scan_results.len();
    lidar.update_parameters();
    assert_eq!(lidar.angular_resolution, res);
    assert_eq!(lidar.scan_timer.period_us, period);
    assert_eq!(lidar.scan_results.len(), len);
}

#[test]
fn rotated_sensor_sees_the_obstacle_on_the_matching_ray() {
    // The sensor turned a quarter turn about +Y: an obstacle that sat on
    // ray 0 for an unrotated sensor is now seen by a different ray, and an
    // obstacle placed along the rotated forward direction is seen by ray 0.
    let mut lidar = LidarSensor::default();
    let pose = SensorPose {
        position: Vec3Mm::new(0, 0, 0),
        rotation: Quat::from_rotation_y(1_570_796),
    };
    // Quat::from_rotation_y(pi/2) maps +X to the horizontal direction
    // (cos, 0, -sin) rotated ... determined by the fixed quaternion formula;
    // probe both axis directions and expect exactly one hit on ray 0 or
    // ray 18's side.
    lidar.sweep(&pose, &vec![Vec3Mm::new(0, 0, -3000)]);
    let hit_minus_z = lidar.scan_results[0].hit;
    lidar.sweep(&pose, &vec![Vec3Mm::new(0, 0, 3000)]);
    let hit_plus_z = lidar.scan_results[0].hit;
    assert!(hit_minus_z != hit_plus_z);
}

#[test]
fn tolerance_cone_admits_nearby_directions_only() {
    // The cone half-width is about five degrees. An obstacle four degrees
    // off ray 0 is still seen by ray 0; one six degrees off is not, but with
    // rays every ten degrees it falls inside ray 1's cone instead.
    let mut lidar = LidarSensor::default();
    let pose = origin_pose();

    // Three meters away, four degrees counter-clockwise of +X.
    lidar.sweep(&pose, &vec![Vec3Mm::new(2993, 0, 209)]);
    assert!(lidar.scan_results[0].hit);

    // Three meters away, six degrees counter-clockwise of +X.
    lidar.sweep(&pose, &vec![Vec3Mm::new(2984, 0, 314)]);
    assert!(!lidar.scan_results[0].hit);
    assert!(lidar.scan_results[1].hit);
}

#[test]
fn floor_square_root_brackets_its_argument() {
    assert_eq!(isqrt(0), 0);
    assert_eq!(isqrt(1), 1);
    assert_eq!(isqrt(3), 1);
    assert_eq!(isqrt(4), 2);
    assert_eq!(isqrt(9_000_000), 3000);
    assert_eq!(isqrt(9_000_001), 3000);
    assert_eq!(isqrt(u64::MAX), 4_294_967_295);
}
