//! Sensor configuration, message format, and ray-geometry checks.
//!
//! Fixed-point units: millimeters, microradians, microseconds, millihertz;
//! the assertions convert to meters, radians, and seconds where they compare
//! against physical values.

use lidar_core::fixed::{isqrt, TURN_URAD};
use lidar_core::sensor::LidarSensor;
use lidar_core::sweep::LaserScan;
use lidar_core::trig::{cos_scaled, sin_scaled};
use std::f64::consts::PI;

#[test]
fn test_lidar_sensor_defaults() {
    let lidar = LidarSensor::default();

    // Default values match the RPLIDAR A1M8 specifications.
    assert!((lidar.range_min as f64 / 1000.0 - 0.2).abs() < 0.01);
    assert!((lidar.range_max as f64 / 1000.0 - 12.0).abs() < 0.01);
    assert!((lidar.scan_rate as f64 / 1000.0 - 10.0).abs() < 0.01);
    assert_eq!(lidar.rays_per_scan, 36);

    // Angular resolution should be 2 pi / rays_per_scan.
    let expected_resolution = 2.0 * PI / 36.0;
    assert!((lidar.angular_resolution as f64 / 1_000_000.0 - expected_resolution).abs() < 0.001);

    // Initial state.
    assert!(lidar.visualize);
    assert!(lidar.enable_logging);
    assert!((lidar.noise_stddev as f64 / 1000.0).abs() < 0.001);
    assert!(lidar.scan_results.is_empty());
}

#[test]
fn test_lidar_parameter_update() {
    let mut lidar = LidarSensor::default();

    // Double the resolution.
    lidar.rays_per_scan = 72;
    lidar.update_parameters();

    let expected_resolution = 2.0 * PI / 72.0;
    assert!((lidar.angular_resolution as f64 / 1_000_000.0 - expected_resolution).abs() < 0.001);
}

#[test]
fn test_laser_scan_message_format() {
    let laser_scan = LaserScan {
        angle_min: 0,
        angle_max: TURN_URAD,
        angle_increment: 17_453, // one degree in microradians
        time_increment: 0,
        scan_time: 100_000, // 10 Hz
        range_min: 200,
        range_max: 12_000,
        ranges: vec![Some(1000), Some(2000), Some(3000), None, Some(5000)],
        intensities: vec![1; 5],
    };

    // The message structure matches the ROS LaserScan format.
    assert!((laser_scan.angle_min as f64 / 1_000_000.0).abs() < 0.001);
    assert!((laser_scan.angle_max as f64 / 1_000_000.0 - 2.0 * PI).abs() < 0.001);
    assert!((laser_scan.angle_increment as f64 / 1_000_000.0 - PI / 180.0).abs() < 0.001);
    assert_eq!(laser_scan.ranges.len(), 5);
    assert_eq!(laser_scan.intensities.len(), 5);

    // A missing return (infinity on the wire) is properly represented.
    assert!(laser_scan.ranges[3].is_none());
}

#[test]
fn test_lidar_range_validation() {
    let lidar = LidarSensor::default();
    let test_ranges: Vec<u64> = vec![100, 200, 1000, 5000, 12_000, 15_000];

    for &range in &test_ranges {
        let is_valid = range >= lidar.range_min && range <= lidar.range_max;

        if range < 200 {
            assert!(!is_valid, "Range {} should be below minimum", range);
        } else if range > 12_000 {
            assert!(!is_valid, "Range {} should be above maximum", range);
        } else {
            assert!(is_valid, "Range {} should be valid", range);
        }
    }
}

#[test]
fn test_lidar_angle_calculations() {
    let lidar = LidarSensor::default();

    for i in 0..lidar.rays_per_scan {
        let angle = i as u64 * lidar.angular_resolution;

        // Angle lies in [0, 2 pi).
        assert!(angle as f64 >= 0.0, "Angle should be non-negative");
        assert!(angle < TURN_URAD, "Angle should be less than 2\u{3c0}");

        // Direction vector calculation (ROS standard: +X forward, +Z left).
        let x = cos_scaled(angle);
        let z = sin_scaled(angle);

        // Direction should be unit length.
        let length = ((x as f64).powi(2) + (z as f64).powi(2)).sqrt() / 1_000_000.0;
        assert!((length - 1.0).abs() < 0.001);
    }
}

#[test]
fn test_lidar_sensor_configuration() {
    let mut lidar = LidarSensor::default();

    // High-resolution scan.
    lidar.rays_per_scan = 360;
    lidar.update_parameters();
    assert!((lidar.angular_resolution as f64 / 1_000_000.0 - 2.0 * PI / 360.0).abs() < 0.001);

    // Low-resolution scan (for performance).
    lidar.rays_per_scan = 18;
    lidar.update_parameters();
    assert!((lidar.angular_resolution as f64 / 1_000_000.0 - 2.0 * PI / 18.0).abs() < 0.001);

    // Noise configuration: 5 cm standard deviation.
    lidar.noise_stddev = 50;
    assert!((lidar.noise_stddev as f64 / 1000.0 - 0.05).abs() < 0.001);
}

#[test]
fn test_obstacle_detection_logic() {
    // Obstacle detection calculations: sensor at (0, 0.5, 0), obstacle at
    // (3, 0.5, 0), ray pointing along +X.
    let lidar_pos: (i64, i64, i64) = (0, 500, 0);
    let obstacle_pos: (i64, i64, i64) = (3000, 500, 0);
    let ray_direction: (i64, i64, i64) = (1_000_000, 0, 0);

    let to_obstacle = (
        obstacle_pos.0 - lidar_pos.0,
        obstacle_pos.1 - lidar_pos.1,
        obstacle_pos.2 - lidar_pos.2,
    );
    let sq = to_obstacle.0 * to_obstacle.0 + to_obstacle.1 * to_obstacle.1 + to_obstacle.2
        * to_obstacle.2;
    let distance = isqrt(sq as u64);

    // Dot product of the unit ray with the normalized displacement.
    let dot = ray_direction.0 * to_obstacle.0 + ray_direction.1 * to_obstacle.1 + ray_direction.2
        * to_obstacle.2;
    let dot_product = dot as f64 / (1_000_000.0 * distance as f64);

    assert!((distance as f64 / 1000.0 - 3.0).abs() < 0.001);
    assert!(dot_product > 0.99, "Obstacle should be in ray direction");
}

#[test]
fn test_scan_data_validation() {
    // Scan data meets the expected format.
    let ranges: Vec<Option<i64>> = vec![Some(1000), Some(2500), None, Some(800), Some(12_000)];
    let intensities: Vec<u8> = vec![1, 1, 0, 1, 1];

    assert_eq!(
        ranges.len(),
        intensities.len(),
        "Ranges and intensities should have same length"
    );

    for (i, range) in ranges.iter().enumerate() {
        if let Some(r) = range {
            assert!(*r >= 0, "Range should be non-negative");
            assert!(
                intensities[i] <= 1,
                "Intensity should be normalized"
            );
        } else {
            // A missing return means no hit.
            assert_eq!(intensities[i], 0, "No return should have zero intensity");
        }
    }
}

#[test]
fn test_distance_calculations() {
    // 3D distance calculations for sensor detection.
    let robot_pos: (i64, i64, i64) = (0, 500, 0);
    let wall_pos: (i64, i64, i64) = (5000, 500, 0);

    let d = (
        wall_pos.0 - robot_pos.0,
        wall_pos.1 - robot_pos.1,
        wall_pos.2 - robot_pos.2,
    );
    let distance = isqrt((d.0 * d.0 + d.1 * d.1 + d.2 * d.2) as u64);
    assert!((distance as f64 / 1000.0 - 5.0).abs() < 0.001);

    // Diagonal distance: a 3-4-5 triangle.
    let diagonal_pos: (i64, i64, i64) = (3000, 500, 4000);
    let dd = (
        diagonal_pos.0 - robot_pos.0,
        diagonal_pos.1 - robot_pos.1,
        diagonal_pos.2 - robot_pos.2,
    );
    let diagonal_distance = isqrt((dd.0 * dd.0 + dd.1 * dd.1 + dd.2 * dd.2) as u64);
    assert!((diagonal_distance as f64 / 1000.0 - 5.0).abs() < 0.001);
}

#[test]
fn test_direction_vectors() {
    // Direction vector calculations for LIDAR rays at 0, 90, 180, 270
    // degrees.
    let angles: Vec<u64> = vec![0, 1_570_796, 3_141_593, 4_712_389];
    let expected_directions: Vec<(f64, f64, f64)> = vec![
        (1.0, 0.0, 0.0),
        (0.0, 0.0, 1.0),
        (-1.0, 0.0, 0.0),
        (0.0, 0.0, -1.0),
    ];

    for (angle, expected) in angles.iter().zip(expected_directions.iter()) {
        let x = cos_scaled(*angle) as f64 / 1_000_000.0;
        let z = sin_scaled(*angle) as f64 / 1_000_000.0;
        assert!((x - expected.0).abs() < 0.001);
        assert!((z - expected.2).abs() < 0.001);
        // The LIDAR scans in a horizontal plane: the Y component is zero by
        // construction.
        assert!((0.0f64 - expected.1).abs() < 0.001);
    }
}
