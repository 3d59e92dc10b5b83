use vstd::prelude::*;
use crate::config::{LayoutConfig, MAX_DIMENSION};

verus! {

/// The boundary of the padded plate at one radial step.
#[derive(PartialEq, Eq, Structural, Clone, Copy, Debug)]
pub struct DistanceToEdge {
    /// The step number, from 0.
    pub step: i64,
    /// `step` times the hole step, in micro-units.
    pub radial_offset: i64,
    /// Half the chord of the padded circle at `radial_offset`, in micro-units,
    /// rounded down.
    pub boundary_distance: i64,
}

/// The square of the half chord of the padded circle at step `k`.
pub open spec fn chord_sq(c: LayoutConfig, k: int) -> int {
    c.spec_padded_radius() * c.spec_padded_radius() - (k * c.spec_step()) * (k * c.spec_step())
}

/// `r` is the integer square root of `n`, rounded down.
pub open spec fn is_floor_sqrt(r: int, n: int) -> bool {
    0 <= r && r * r <= n < (r + 1) * (r + 1)
}

/// The entry of the edge table for step `k`.
pub open spec fn edge_entry(c: LayoutConfig, k: int, e: DistanceToEdge) -> bool {
    &&& e.step == k
    &&& e.radial_offset == k * c.spec_step()
    &&& is_floor_sqrt(e.boundary_distance as int, chord_sq(c, k))
}

/// The integer square root of `n`, rounded down.
fn floor_sqrt(n: u64) -> (r: u64)
    requires
        n <= 1_000_000_000_000_000_000,
    ensures
        is_floor_sqrt(r as int, n as int),
{
    let mut lo: u64 = 0;
    let mut hi: u64 = 1_000_000_001;
    assert(hi * hi > n) by (nonlinear_arith)
        requires
            hi == 1_000_000_001,
            n <= 1_000_000_000_000_000_000,
    ;
    while hi - lo > 1
        invariant
            lo < hi <= 1_000_000_001,
            lo * lo <= n,
            n < hi * hi,
        decreases hi - lo,
    {
        let mid = lo + (hi - lo) / 2;
        assert(mid * mid <= 1_000_000_001 * 1_000_000_001) by (nonlinear_arith)
            requires
                0 <= mid <= 1_000_000_001,
        ;
        if mid * mid <= n {
            lo = mid;
        } else {
            hi = mid;
        }
    }
    lo
}

/// The half chord of the padded circle at every step from 0 to the last
/// step that fits in the padded radius.
pub fn edge_distances(config: &LayoutConfig) -> (table: Vec<DistanceToEdge>)
    requires
        config.wf(),
    ensures
        table@.len() == config.spec_max_step() + 1,
        forall|k: int| 0 <= k < table@.len() ==> edge_entry(*config, k, #[trigger] table@[k]),
{
    let p = config.padded_radius();
    let d = config.step();
    let n = config.max_step();
    let mut table: Vec<DistanceToEdge> = Vec::new();
    let mut k: i64 = 0;
    while k <= n
        invariant
            0 <= k <= n + 1,
            n == config.spec_max_step(),
            n * d <= p,
            p == config.spec_padded_radius(),
            d == config.spec_step(),
            0 < p <= MAX_DIMENSION / 2,
            d > 0,
            table@.len() == k,
            forall|m: int| 0 <= m < k ==> edge_entry(*config, m, #[trigger] table@[m]),
        decreases n + 1 - k,
    {
        assert(0 <= k * d <= n * d) by (nonlinear_arith)
            requires
                0 <= k <= n,
                d > 0,
        ;
        let offset = k * d;
        assert(0 <= p * p - offset * offset <= p * p <= 1_000_000_000_000_000_000) by (nonlinear_arith)
            requires
                0 <= offset <= p,
                p <= 1_000_000_000,
        ;
        let sq = (p * p - offset * offset) as u64;
        let boundary = floor_sqrt(sq);
        assert(boundary <= 1_000_000_000) by (nonlinear_arith)
            requires
                boundary * boundary <= sq,
                sq <= 1_000_000_000_000_000_000,
        ;
        table.push(DistanceToEdge { step: k, radial_offset: offset, boundary_distance: boundary as i64 });
        k = k + 1;
    }
    table
}

} // verus!
