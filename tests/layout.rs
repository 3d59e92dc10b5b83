use hole_layout::{generate_layout, insert_hole, HolePosition, HoleType, LayoutConfig, Quadrant};

const MM: i64 = 1_000_000;

fn coords(holes: &[HolePosition]) -> Vec<(i64, i64)> {
    holes.iter().map(|h| (h.x, h.z)).collect()
}

fn worked_example(coverage: Quadrant) -> LayoutConfig {
    LayoutConfig::new(5 * MM, 2 * MM, 60 * MM, 3 * MM, coverage).unwrap()
}

#[test]
fn worked_example_full_coverage() {
    let holes = generate_layout(&worked_example(Quadrant::Four));
    let expected: Vec<(i64, i64)> = vec![
        (0, 0),
        (700, 0), (0, 700), (-700, 0), (0, -700),
        (700, 700), (-700, -700), (-700, 700), (700, -700),
        (1400, 0), (0, 1400), (-1400, 0), (0, -1400),
        (1400, 700), (700, 1400), (-1400, 700), (700, -1400), (1400, -700),
        (1400, 1400), (-1400, -1400), (-1400, 1400), (1400, -1400),
        (2100, 0), (0, 2100), (-2100, 0), (0, -2100),
        (2100, 700), (700, 2100), (-2100, 700), (700, -2100), (2100, -700),
        (2100, 1400), (1400, 2100), (-2100, 1400), (1400, -2100), (2100, -1400),
    ];
    assert_eq!(coords(&holes), expected);
    for h in &holes {
        assert_eq!(*h, HolePosition::new(h.x, h.z));
    }
}

#[test]
fn worked_example_steps_stop_at_the_edge() {
    let holes = generate_layout(&worked_example(Quadrant::Four));
    // At step 3 (21 mm) the half chord is about 16.97 mm: 21 mm up is outside.
    assert!(!holes.iter().any(|h| h.x == 2100 && h.z == 2100));
    assert!(holes.iter().any(|h| h.x == 2100 && h.z == 1400));
    assert!(holes.iter().all(|h| h.x.abs() <= 2100 && h.z.abs() <= 2100));
}

#[test]
fn coverage_one_keeps_quadrant_one() {
    let holes = generate_layout(&worked_example(Quadrant::One));
    let expected: Vec<(i64, i64)> = vec![
        (0, 0), (700, 0), (0, 700), (700, 700), (1400, 0), (0, 1400), (1400, 700), (700, 1400),
        (1400, 1400), (2100, 0), (0, 2100), (2100, 700), (700, 2100), (2100, 1400), (1400, 2100),
    ];
    assert_eq!(coords(&holes), expected);
    for h in &holes {
        assert!(h.is_center() || h.quadrant() == Some(Quadrant::One));
    }
}

#[test]
fn coverage_threshold_bounds_quadrants() {
    for t in [Quadrant::One, Quadrant::Two, Quadrant::Three, Quadrant::Four] {
        let holes = generate_layout(&worked_example(t));
        for h in &holes {
            if let Some(q) = h.quadrant() {
                assert!(q.within(t));
            }
        }
    }
    let two = generate_layout(&worked_example(Quadrant::Two));
    assert!(two.iter().any(|h| h.quadrant() == Some(Quadrant::Two)));
    let three = generate_layout(&worked_example(Quadrant::Three));
    assert!(three.iter().any(|h| h.quadrant() == Some(Quadrant::Three)));
    assert!(!three.iter().any(|h| h.quadrant() == Some(Quadrant::Four)));
}

#[test]
fn exactly_one_center_at_origin() {
    for t in [Quadrant::One, Quadrant::Four] {
        let holes = generate_layout(&worked_example(t));
        let centers: Vec<&HolePosition> = holes.iter().filter(|h| h.hole_type == HoleType::Center).collect();
        assert_eq!(centers.len(), 1);
        assert_eq!((centers[0].x, centers[0].z), (0, 0));
        assert!(holes[0].is_center());
    }
}

#[test]
fn smallest_plate_has_only_the_center() {
    let c = LayoutConfig::new(5 * MM, 2 * MM, 12 * MM, 1, Quadrant::Four).unwrap();
    assert_eq!(c.max_step(), 0);
    assert_eq!(coords(&generate_layout(&c)), vec![(0, 0)]);
}

#[test]
fn coordinates_are_rounded_to_hundredths() {
    // A step of 1.234567 units: step 2 lies at 2.469134, which rounds to 2.47.
    let c = LayoutConfig::new(1_234_567, 0, 10 * MM, MM, Quadrant::Four).unwrap();
    let holes = generate_layout(&c);
    assert_eq!(holes.len(), 31);
    assert_eq!(
        coords(&holes[..12]),
        vec![
            (0, 0), (123, 0), (0, 123), (-123, 0), (0, -123), (123, 123), (-123, -123),
            (-123, 123), (123, -123), (247, 0), (0, 247), (-247, 0),
        ]
    );
}

#[test]
fn larger_plate_counts() {
    let four = LayoutConfig::new(MM, MM, 20 * MM, MM, Quadrant::Four).unwrap();
    assert_eq!(generate_layout(&four).len(), 54);
    let one = LayoutConfig::new(MM, MM, 20 * MM, MM, Quadrant::One).unwrap();
    assert_eq!(generate_layout(&one).len(), 22);
}

#[test]
fn generating_twice_gives_the_same_layout() {
    let c = worked_example(Quadrant::Three);
    assert_eq!(generate_layout(&c), generate_layout(&c));
}

#[test]
fn insert_hole_off_diagonal() {
    let c = worked_example(Quadrant::Four);
    let mut holes = vec![HolePosition::create_center()];
    insert_hole(2, 1, &c, &mut holes);
    assert_eq!(coords(&holes), vec![(0, 0), (1400, 700), (700, 1400), (-1400, 700), (700, -1400), (1400, -700)]);
}

#[test]
fn insert_hole_on_diagonal_and_axis() {
    let c = worked_example(Quadrant::Four);
    let mut holes = Vec::new();
    insert_hole(1, 1, &c, &mut holes);
    assert_eq!(coords(&holes), vec![(700, 700), (-700, -700), (-700, 700), (700, -700)]);
    let mut axis = Vec::new();
    insert_hole(3, 0, &c, &mut axis);
    assert_eq!(coords(&axis), vec![(2100, 0), (0, 2100), (-2100, 0), (0, -2100)]);
    assert_eq!(axis[2].hole_type, HoleType::Axis(Quadrant::Three));
    assert_eq!(axis[3].hole_type, HoleType::Axis(Quadrant::Three));
}

#[test]
fn insert_hole_respects_coverage() {
    let c = worked_example(Quadrant::Two);
    let mut holes = Vec::new();
    insert_hole(2, 1, &c, &mut holes);
    assert_eq!(coords(&holes), vec![(1400, 700), (700, 1400), (-1400, 700)]);
}
