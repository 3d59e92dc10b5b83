use vstd::prelude::*;

verus! {

/// One of the four quarter planes around the plate centre.
///
/// The quadrants are totally ordered, `One < Two < Three < Four`, so that a
/// quadrant can serve as an inclusive coverage threshold.
#[derive(PartialEq, Eq, Structural, Clone, Copy, Debug, PartialOrd, Ord, Hash)]
pub enum Quadrant {
    One,
    Two,
    Three,
    Four,
}

impl Quadrant {
    /// Position of the quadrant in the order `One < Two < Three < Four`.
    pub open spec fn spec_rank(self) -> int {
        match self {
            Quadrant::One => 1,
            Quadrant::Two => 2,
            Quadrant::Three => 3,
            Quadrant::Four => 4,
        }
    }

    /// Position of the quadrant in the order, from 1 to 4.
    pub fn rank(self) -> (r: u8)
        ensures
            r == self.spec_rank(),
            1 <= r <= 4,
    {
        match self {
            Quadrant::One => 1,
            Quadrant::Two => 2,
            Quadrant::Three => 3,
            Quadrant::Four => 4,
        }
    }

    /// Whether a coverage threshold of `threshold` includes this quadrant.
    pub open spec fn spec_within(self, threshold: Quadrant) -> bool {
        self.spec_rank() <= threshold.spec_rank()
    }

    /// Whether a coverage threshold of `threshold` includes this quadrant.
    pub fn within(self, threshold: Quadrant) -> (r: bool)
        ensures
            r == self.spec_within(threshold),
    {
        self.rank() <= threshold.rank()
    }
}

/// The quadrant of the point `(x, z)`.
///
/// The non-negative half axes and the origin belong to quadrant One, the
/// negative half axes to quadrant Three.
pub open spec fn quadrant_of(x: int, z: int) -> Quadrant {
    if x >= 0 && z >= 0 {
        Quadrant::One
    } else if x < 0 && z > 0 {
        Quadrant::Two
    } else if x <= 0 && z <= 0 {
        Quadrant::Three
    } else {
        Quadrant::Four
    }
}

/// Classifies the point `(x, z)` into its quadrant.
pub fn classify(x: i64, z: i64) -> (q: Quadrant)
    ensures
        q == quadrant_of(x as int, z as int),
        x >= 0 && z >= 0 ==> q == Quadrant::One,
        x < 0 && z > 0 ==> q == Quadrant::Two,
        x <= 0 && z <= 0 && !(x == 0 && z == 0) ==> q == Quadrant::Three,
        x > 0 && z < 0 ==> q == Quadrant::Four,
{
    if x >= 0 && z >= 0 {
        Quadrant::One
    } else if x < 0 && z > 0 {
        Quadrant::Two
    } else if x <= 0 && z <= 0 {
        Quadrant::Three
    } else {
        Quadrant::Four
    }
}

} // verus!
