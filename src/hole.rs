use vstd::prelude::*;
use crate::quadrant::{classify, quadrant_of, Quadrant};

verus! {

/// What kind of point a hole centre is.
#[derive(PartialEq, Eq, Structural, Clone, Copy, Debug)]
pub enum HoleType {
    /// The plate centre `(0, 0)`; it belongs to no quadrant.
    Center,
    /// A point on the X or the Z axis, other than the centre.
    Axis(Quadrant),
    /// A point off both axes.
    Area(Quadrant),
}

/// The type that the point `(x, z)` has.
pub open spec fn hole_type_of(x: int, z: int) -> HoleType {
    if x == 0 && z == 0 {
        HoleType::Center
    } else if x == 0 || z == 0 {
        HoleType::Axis(quadrant_of(x, z))
    } else {
        HoleType::Area(quadrant_of(x, z))
    }
}

/// The centre of one hole, in hundredths of the drawing unit, with its type.
#[derive(PartialEq, Eq, Structural, Clone, Copy, Debug)]
pub struct HolePosition {
    pub x: i64,
    pub z: i64,
    pub hole_type: HoleType,
}

/// The hole at `(x, z)`, typed by its coordinates.
pub open spec fn hole_at(x: i64, z: i64) -> HolePosition {
    HolePosition { x, z, hole_type: hole_type_of(x as int, z as int) }
}

/// Whether both coordinates can be negated within `i64`.
pub open spec fn negatable(h: HolePosition) -> bool {
    h.x > i64::MIN && h.z > i64::MIN
}

impl HolePosition {
    /// The type of the hole agrees with its coordinates.
    pub open spec fn wf(self) -> bool {
        self.hole_type == hole_type_of(self.x as int, self.z as int)
    }

    /// Whether this hole is the plate centre.
    pub open spec fn spec_is_center(self) -> bool {
        self.hole_type == HoleType::Center
    }

    /// The quadrant of the hole; the centre has none.
    pub open spec fn spec_quadrant(self) -> Option<Quadrant> {
        match self.hole_type {
            HoleType::Center => None,
            HoleType::Axis(q) => Some(q),
            HoleType::Area(q) => Some(q),
        }
    }

    /// Both coordinates negated.
    pub open spec fn spec_mirror(self) -> Option<HolePosition> {
        if self.spec_is_center() {
            None
        } else {
            Some(hole_at(-self.x as i64, -self.z as i64))
        }
    }

    /// The X coordinate negated.
    pub open spec fn spec_mirror_x(self) -> Option<HolePosition> {
        if self.spec_is_center() {
            None
        } else {
            Some(hole_at(-self.x as i64, self.z))
        }
    }

    /// The two coordinates swapped.
    pub open spec fn spec_rotate(self) -> Option<HolePosition> {
        if self.spec_is_center() {
            None
        } else {
            Some(hole_at(self.z, self.x))
        }
    }

    /// The X coordinate negated, then the two coordinates swapped.
    pub open spec fn spec_mirror_x_then_rotate(self) -> Option<HolePosition> {
        if self.spec_is_center() {
            None
        } else {
            Some(hole_at(self.z, -self.x as i64))
        }
    }

    /// The hole at `(x, z)`, typed by its coordinates.
    pub fn new(x: i64, z: i64) -> (r: HolePosition)
        ensures
            r == hole_at(x, z),
            r.wf(),
    {
        if x == 0 && z == 0 {
            HolePosition::create_center()
        } else if x == 0 || z == 0 {
            HolePosition { x, z, hole_type: HoleType::Axis(classify(x, z)) }
        } else {
            HolePosition { x, z, hole_type: HoleType::Area(classify(x, z)) }
        }
    }

    /// The hole at the plate centre.
    pub fn create_center() -> (r: HolePosition)
        ensures
            r == hole_at(0, 0),
            r.hole_type == HoleType::Center,
            r.wf(),
    {
        HolePosition { x: 0, z: 0, hole_type: HoleType::Center }
    }

    /// Whether this hole is the plate centre.
    pub fn is_center(&self) -> (r: bool)
        ensures
            r == self.spec_is_center(),
    {
        match self.hole_type {
            HoleType::Center => true,
            _ => false,
        }
    }

    /// The quadrant of the hole; the centre has none.
    pub fn quadrant(&self) -> (r: Option<Quadrant>)
        ensures
            r == self.spec_quadrant(),
    {
        match self.hole_type {
            HoleType::Center => None,
            HoleType::Axis(q) => Some(q),
            HoleType::Area(q) => Some(q),
        }
    }

    /// The hole reflected through the centre; `None` for the centre itself.
    pub fn mirror(&self) -> (r: Option<HolePosition>)
        requires
            negatable(*self),
        ensures
            r == self.spec_mirror(),
    {
        if self.is_center() {
            None
        } else {
            Some(HolePosition::new(-self.x, -self.z))
        }
    }

    /// The hole reflected across the Z axis; `None` for the centre.
    pub fn mirror_x(&self) -> (r: Option<HolePosition>)
        requires
            negatable(*self),
        ensures
            r == self.spec_mirror_x(),
    {
        if self.is_center() {
            None
        } else {
            Some(HolePosition::new(-self.x, self.z))
        }
    }

    /// The hole reflected across the diagonal `x == z`; `None` for the centre.
    pub fn rotate(&self) -> (r: Option<HolePosition>)
        ensures
            r == self.spec_rotate(),
    {
        if self.is_center() {
            None
        } else {
            Some(HolePosition::new(self.z, self.x))
        }
    }

    /// The hole reflected across the Z axis and then across the diagonal;
    /// `None` for the centre.
    pub fn mirror_x_then_rotate(&self) -> (r: Option<HolePosition>)
        requires
            self.wf(),
            negatable(*self),
        ensures
            r == self.spec_mirror_x_then_rotate(),
    {
        match self.mirror_x() {
            Some(m) => m.rotate(),
            None => None,
        }
    }
}

} // verus!
