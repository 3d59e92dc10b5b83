use hole_layout::{
    edge_distances, round_to_hundredths, ConfigError, LayoutConfig,
    Quadrant, MAX_DIMENSION,
};

const MM: i64 = 1_000_000;

#[test]
fn worked_example_step_count() {
    let c = LayoutConfig::new(5 * MM, 2 * MM, 60 * MM, 3 * MM, Quadrant::Four).unwrap();
    assert_eq!(c.padded_radius(), 27 * MM);
    assert_eq!(c.step(), 7 * MM);
    assert_eq!(c.max_step(), 3);
    let table = edge_distances(&c);
    assert_eq!(table.len(), 4);
    for (k, e) in table.iter().enumerate() {
        assert_eq!(e.step, k as i64);
        assert_eq!(e.radial_offset, k as i64 * 7 * MM);
    }
    assert_eq!(table[0].boundary_distance, 27 * MM);
    // sqrt(27^2 - 21^2) = sqrt(288) = 16.970562...
    assert_eq!(table[3].boundary_distance, 16_970_562);
    // sqrt(27^2 - 7^2) = sqrt(680) = 26.076809...
    assert_eq!(table[1].boundary_distance, 26_076_809);
}

#[test]
fn rejects_negative_dimensions() {
    assert_eq!(LayoutConfig::new(-1, 2 * MM, 60 * MM, 3 * MM, Quadrant::One), Err(ConfigError::NegativeDimension));
    assert_eq!(LayoutConfig::new(5 * MM, 2 * MM, 60 * MM, -3, Quadrant::One), Err(ConfigError::NegativeDimension));
}

#[test]
fn rejects_oversized_dimensions() {
    assert_eq!(
        LayoutConfig::new(5 * MM, 2 * MM, MAX_DIMENSION + 1, 3 * MM, Quadrant::One),
        Err(ConfigError::DimensionTooLarge)
    );
    assert!(LayoutConfig::new(5 * MM, 2 * MM, MAX_DIMENSION, 3 * MM, Quadrant::One).is_ok());
}

#[test]
fn rejects_zero_and_tiny_steps() {
    assert_eq!(LayoutConfig::new(0, 0, 60 * MM, 3 * MM, Quadrant::One), Err(ConfigError::StepBelowPrecision));
    assert_eq!(LayoutConfig::new(4_000, 5_999, 60 * MM, 3 * MM, Quadrant::One), Err(ConfigError::StepBelowPrecision));
    assert!(LayoutConfig::new(4_000, 6_000, 60 * MM, 3 * MM, Quadrant::One).is_ok());
}

#[test]
fn rejects_clearance_reaching_radius() {
    assert_eq!(LayoutConfig::new(5 * MM, 2 * MM, 60 * MM, 30 * MM, Quadrant::One), Err(ConfigError::ClearanceTooLarge));
    assert_eq!(LayoutConfig::new(5 * MM, 2 * MM, 60 * MM, 31 * MM, Quadrant::One), Err(ConfigError::ClearanceTooLarge));
    let c = LayoutConfig::new(5 * MM, 2 * MM, 60 * MM, 30 * MM - 1, Quadrant::One).unwrap();
    assert_eq!(c.max_step(), 0);
}

#[test]
fn new_keeps_the_fields() {
    let c = LayoutConfig::new(5, 10_000, 7, 1, Quadrant::Two).unwrap();
    assert_eq!(c.hole_pitch, 5);
    assert_eq!(c.hole_diameter, 10_000);
    assert_eq!(c.plate_diameter, 7);
    assert_eq!(c.edge_clearance, 1);
    assert_eq!(c.coverage, Quadrant::Two);
}

#[test]
fn rounding_to_hundredths() {
    assert_eq!(round_to_hundredths(0), 0);
    assert_eq!(round_to_hundredths(4_999), 0);
    assert_eq!(round_to_hundredths(5_000), 1);
    assert_eq!(round_to_hundredths(2_469_134), 247);
    assert_eq!(round_to_hundredths(-4_999), 0);
    assert_eq!(round_to_hundredths(-5_000), -1);
    assert_eq!(round_to_hundredths(-2_469_134), -247);
    assert_eq!(round_to_hundredths(i64::MAX), 922_337_203_685_478);
    assert_eq!(round_to_hundredths(i64::MIN), -922_337_203_685_478);
}

#[test]
fn rounding_is_idempotent() {
    for v in [0i64, 1, 4_999, 5_000, 15_000, 2_469_134, -5_000, -2_469_134, 123_456_789] {
        let h = round_to_hundredths(v);
        assert_eq!(round_to_hundredths(h * 10_000), h);
    }
}
