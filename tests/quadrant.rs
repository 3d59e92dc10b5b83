use hole_layout::{classify, HolePosition, HoleType, Quadrant};

#[test]
fn classify_interior_points() {
    assert_eq!(classify(3, 4), Quadrant::One);
    assert_eq!(classify(-3, 4), Quadrant::Two);
    assert_eq!(classify(-3, -4), Quadrant::Three);
    assert_eq!(classify(3, -4), Quadrant::Four);
}

#[test]
fn classify_axes_and_origin() {
    assert_eq!(classify(0, 0), Quadrant::One);
    assert_eq!(classify(5, 0), Quadrant::One);
    assert_eq!(classify(0, 5), Quadrant::One);
    assert_eq!(classify(-5, 0), Quadrant::Three);
    assert_eq!(classify(0, -5), Quadrant::Three);
}

#[test]
fn classify_extremes() {
    assert_eq!(classify(i64::MAX, i64::MAX), Quadrant::One);
    assert_eq!(classify(i64::MIN, 1), Quadrant::Two);
    assert_eq!(classify(i64::MIN, i64::MIN), Quadrant::Three);
    assert_eq!(classify(1, i64::MIN), Quadrant::Four);
}

#[test]
fn quadrant_order() {
    assert_eq!(Quadrant::One.rank(), 1);
    assert_eq!(Quadrant::Four.rank(), 4);
    assert!(Quadrant::One < Quadrant::Two && Quadrant::Two < Quadrant::Three);
    assert!(Quadrant::Two.within(Quadrant::Two));
    assert!(Quadrant::Two.within(Quadrant::Four));
    assert!(!Quadrant::Three.within(Quadrant::Two));
}

#[test]
fn new_types_points() {
    assert_eq!(HolePosition::new(0, 0).hole_type, HoleType::Center);
    assert_eq!(HolePosition::new(0, 0), HolePosition::create_center());
    assert_eq!(HolePosition::new(-7, 0).hole_type, HoleType::Axis(Quadrant::Three));
    assert_eq!(HolePosition::new(0, 7).hole_type, HoleType::Axis(Quadrant::One));
    assert_eq!(HolePosition::new(-7, 2).hole_type, HoleType::Area(Quadrant::Two));
    assert_eq!(HolePosition::new(7, -2).hole_type, HoleType::Area(Quadrant::Four));
    assert!(HolePosition::new(0, 0).is_center());
    assert_eq!(HolePosition::new(0, 0).quadrant(), None);
    assert_eq!(HolePosition::new(-7, -2).quadrant(), Some(Quadrant::Three));
}

#[test]
fn transforms_of_center_are_absent() {
    let c = HolePosition::create_center();
    assert_eq!(c.mirror(), None);
    assert_eq!(c.mirror_x(), None);
    assert_eq!(c.rotate(), None);
    assert_eq!(c.mirror_x_then_rotate(), None);
}

#[test]
fn transforms_retype_the_result() {
    let h = HolePosition::new(5, 2);
    assert_eq!(h.mirror(), Some(HolePosition::new(-5, -2)));
    assert_eq!(h.mirror().unwrap().hole_type, HoleType::Area(Quadrant::Three));
    assert_eq!(h.mirror_x(), Some(HolePosition::new(-5, 2)));
    assert_eq!(h.rotate(), Some(HolePosition::new(2, 5)));
    assert_eq!(h.mirror_x_then_rotate(), Some(HolePosition::new(2, -5)));
    assert_eq!(h.mirror_x_then_rotate().unwrap().hole_type, HoleType::Area(Quadrant::Four));
    let a = HolePosition::new(5, 0);
    assert_eq!(a.mirror_x_then_rotate().unwrap().hole_type, HoleType::Axis(Quadrant::Three));
    assert_eq!(a.rotate().unwrap().hole_type, HoleType::Axis(Quadrant::One));
}
