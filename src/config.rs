use vstd::prelude::*;
use crate::quadrant::Quadrant;

verus! {

/// Largest accepted dimension, in micro-units.
pub const MAX_DIMENSION: i64 = 2_000_000_000;

/// Micro-units in one hundredth of the drawing unit.
pub const MICROS_PER_HUNDREDTH: i64 = 10_000;

/// The dimensions of a plate and of its holes, in micro-units, with the
/// number of quadrants to fill.
#[derive(PartialEq, Eq, Structural, Clone, Copy, Debug)]
pub struct LayoutConfig {
    /// Free gap between two neighbouring holes.
    pub hole_pitch: i64,
    pub hole_diameter: i64,
    pub plate_diameter: i64,
    /// Minimum distance kept between a hole centre and the plate edge.
    pub edge_clearance: i64,
    /// Highest quadrant that receives holes.
    pub coverage: Quadrant,
}

/// Why a configuration cannot be laid out.
#[derive(PartialEq, Eq, Structural, Clone, Copy, Debug)]
pub enum ConfigError {
    /// A dimension is below zero.
    NegativeDimension,
    /// A dimension is above `MAX_DIMENSION`.
    DimensionTooLarge,
    /// Pitch plus hole diameter is less than one hundredth of the unit, the
    /// precision of the output (this includes a zero step).
    StepBelowPrecision,
    /// The edge clearance reaches the plate radius: no hole pitch fits.
    ClearanceTooLarge,
}

/// The error that `LayoutConfig::new` reports for these dimensions, if any.
/// The checks are made in the order of the variants of `ConfigError`.
pub open spec fn config_error(
    hole_pitch: int,
    hole_diameter: int,
    plate_diameter: int,
    edge_clearance: int,
) -> Option<ConfigError> {
    if hole_pitch < 0 || hole_diameter < 0 || plate_diameter < 0 || edge_clearance < 0 {
        Some(ConfigError::NegativeDimension)
    } else if hole_pitch > MAX_DIMENSION || hole_diameter > MAX_DIMENSION || plate_diameter
        > MAX_DIMENSION || edge_clearance > MAX_DIMENSION {
        Some(ConfigError::DimensionTooLarge)
    } else if hole_pitch + hole_diameter < MICROS_PER_HUNDREDTH {
        Some(ConfigError::StepBelowPrecision)
    } else if edge_clearance >= plate_diameter / 2 {
        Some(ConfigError::ClearanceTooLarge)
    } else {
        None
    }
}

/// `v` micro-units rounded to hundredths, halves away from zero.
pub open spec fn rounded(v: int) -> int {
    if v >= 0 {
        (v + 5000) / 10000
    } else {
        -((-v + 5000) / 10000)
    }
}

impl LayoutConfig {
    /// The dimensions are accepted by `new`.
    pub open spec fn wf(self) -> bool {
        config_error(
            self.hole_pitch as int,
            self.hole_diameter as int,
            self.plate_diameter as int,
            self.edge_clearance as int,
        ) is None
    }

    /// Distance between the centres of two neighbouring holes.
    pub open spec fn spec_step(self) -> int {
        self.hole_pitch + self.hole_diameter
    }

    /// The plate radius, to the micro-unit below.
    pub open spec fn spec_plate_radius(self) -> int {
        self.plate_diameter / 2
    }

    /// The plate radius less the edge clearance.
    pub open spec fn spec_padded_radius(self) -> int {
        self.spec_plate_radius() - self.edge_clearance
    }

    /// The number of whole steps that fit in the padded radius.
    pub open spec fn spec_max_step(self) -> int {
        self.spec_padded_radius() / self.spec_step()
    }

    /// The whole steps counted by `spec_max_step` fit in the padded radius.
    pub proof fn lemma_max_step_fits(self)
        requires
            self.wf(),
        ensures
            0 <= self.spec_max_step(),
            self.spec_max_step() * self.spec_step() <= self.spec_padded_radius(),
            0 < self.spec_padded_radius() <= MAX_DIMENSION / 2,
            0 < self.spec_step(),
    {
        let p = self.spec_padded_radius();
        let d = self.spec_step();
        assert((p / d) * d <= p) by (nonlinear_arith)
            requires
                d > 0,
                p >= 0,
        ;
    }

    /// Checks the dimensions and builds the configuration.
    pub fn new(
        hole_pitch: i64,
        hole_diameter: i64,
        plate_diameter: i64,
        edge_clearance: i64,
        coverage: Quadrant,
    ) -> (r: Result<LayoutConfig, ConfigError>)
        ensures
            r == (match config_error(
                hole_pitch as int,
                hole_diameter as int,
                plate_diameter as int,
                edge_clearance as int,
            ) {
                None => Ok(
                    LayoutConfig { hole_pitch, hole_diameter, plate_diameter, edge_clearance, coverage },
                ),
                Some(e) => Err(e),
            }),
            r is Ok ==> r->Ok_0.wf(),
    {
        if hole_pitch < 0 || hole_diameter < 0 || plate_diameter < 0 || edge_clearance < 0 {
            Err(ConfigError::NegativeDimension)
        } else if hole_pitch > MAX_DIMENSION || hole_diameter > MAX_DIMENSION || plate_diameter
            > MAX_DIMENSION || edge_clearance > MAX_DIMENSION {
            Err(ConfigError::DimensionTooLarge)
        } else if hole_pitch + hole_diameter < MICROS_PER_HUNDREDTH {
            Err(ConfigError::StepBelowPrecision)
        } else if edge_clearance >= plate_diameter / 2 {
            Err(ConfigError::ClearanceTooLarge)
        } else {
            Ok(LayoutConfig { hole_pitch, hole_diameter, plate_diameter, edge_clearance, coverage })
        }
    }

    /// Distance between the centres of two neighbouring holes.
    pub fn step(&self) -> (r: i64)
        requires
            self.wf(),
        ensures
            r == self.spec_step(),
            MICROS_PER_HUNDREDTH <= r <= 2 * MAX_DIMENSION,
    {
        self.hole_pitch + self.hole_diameter
    }

    /// The plate radius less the edge clearance.
    pub fn padded_radius(&self) -> (r: i64)
        requires
            self.wf(),
        ensures
            r == self.spec_padded_radius(),
            0 < r <= MAX_DIMENSION / 2,
    {
        self.plate_diameter / 2 - self.edge_clearance
    }

    /// The number of whole steps that fit in the padded radius.
    pub fn max_step(&self) -> (r: i64)
        requires
            self.wf(),
        ensures
            r == self.spec_max_step(),
            0 <= r,
            r * self.spec_step() <= self.spec_padded_radius(),
    {
        let p = self.padded_radius();
        let d = self.step();
        let r = p / d;
        proof {
            assert(r * d <= p) by (nonlinear_arith)
                requires
                    r == p / d,
                    d > 0,
                    p >= 0,
            ;
        }
        r
    }
}

/// Rounds `v` micro-units to hundredths of the unit, halves away from zero.
pub fn round_to_hundredths(v: i64) -> (r: i64)
    ensures
        r == rounded(v as int),
{
    if v >= 0 {
        let u = v as u64;
        let q = u / 10000;
        let up: u64 = if u % 10000 >= 5000 { 1 } else { 0 };
        proof {
            assert((u + 5000) / 10000 == q + up) by (nonlinear_arith)
                requires
                    q == u / 10000,
                    up == (if u % 10000 >= 5000 { 1int } else { 0int }),
            ;
        }
        (q + up) as i64
    } else {
        let u = (-(v + 1)) as u64 + 1;
        let q = u / 10000;
        let up: u64 = if u % 10000 >= 5000 { 1 } else { 0 };
        proof {
            assert((u + 5000) / 10000 == q + up) by (nonlinear_arith)
                requires
                    q == u / 10000,
                    up == (if u % 10000 >= 5000 { 1int } else { 0int }),
            ;
        }
        -((q + up) as i64)
    }
}

/// Rounding is idempotent: a value already rounded to hundredths, written
/// back in micro-units, rounds to itself.
pub proof fn lemma_rounding_idempotent(v: int)
    ensures
        rounded(rounded(v) * MICROS_PER_HUNDREDTH) == rounded(v),
{
    let h = rounded(v);
    if h >= 0 {
        assert((h * 10000 + 5000) / 10000 == h) by (nonlinear_arith)
            requires
                h >= 0,
        ;
    } else {
        assert((-(h * 10000) + 5000) / 10000 == -h) by (nonlinear_arith)
            requires
                h < 0,
        ;
    }
}

} // verus!
