//! Hole layout for a circular plate.
//!
//! Holes sit on a square grid around the plate centre. The generator scans
//! one octant of the grid, radial step by radial step, keeps the points that
//! stay inside the padded plate, and replicates each of them into the other
//! quadrants by mirroring and rotating. A coverage threshold selects how many
//! quadrants are materialised.
//!
//! All lengths are integers. The configuration is given in micro-units
//! (millionths of the drawing unit); hole coordinates are rounded to
//! hundredths of the drawing unit, which is the precision of the output.

pub mod config;
pub mod edge;
pub mod hole;
pub mod layout;
pub mod quadrant;
pub mod render;

pub use config::{round_to_hundredths, ConfigError, LayoutConfig, MAX_DIMENSION, MICROS_PER_HUNDREDTH};
pub use edge::{edge_distances, DistanceToEdge};
pub use hole::{HolePosition, HoleType};
pub use layout::{generate_layout, insert_hole};
pub use quadrant::{classify, Quadrant};
pub use render::{format_hundredths, hole_label, macro_lines, render_layout};
