use vstd::prelude::*;
use crate::config::{round_to_hundredths, rounded, LayoutConfig, MAX_DIMENSION};
use crate::edge::{chord_sq, edge_distances, edge_entry, DistanceToEdge};
use crate::hole::{hole_at, HolePosition};
use crate::quadrant::Quadrant;

verus! {

/// Whether `h` has a quadrant and the threshold includes it.
pub open spec fn admits(threshold: Quadrant, h: HolePosition) -> bool {
    match h.spec_quadrant() {
        Some(q) => q.spec_within(threshold),
        None => false,
    }
}

/// The candidate `h` as it enters the layout: alone if it exists and the
/// threshold admits it, else not at all.
pub open spec fn keep(threshold: Quadrant, h: Option<HolePosition>) -> Seq<HolePosition> {
    match h {
        Some(p) => if admits(threshold, p) {
            seq![p]
        } else {
            seq![]
        },
        None => seq![],
    }
}

/// A coordinate of the grid: `k` steps, rounded to hundredths.
pub open spec fn grid_coord(c: LayoutConfig, k: int) -> i64 {
    rounded(k * c.spec_step()) as i64
}

/// The scanned point at radial step `i` and height `j`.
pub open spec fn base_hole(c: LayoutConfig, i: int, j: int) -> HolePosition {
    hole_at(grid_coord(c, i), grid_coord(c, j))
}

/// The point at height `j` of radial step `i` is inside the padded plate.
pub open spec fn in_plate(c: LayoutConfig, i: int, j: int) -> bool {
    (j * c.spec_step()) * (j * c.spec_step()) <= chord_sq(c, i)
}

/// What the scanned point at `(i, j)` contributes, in order: the point, its
/// mirror image through the centre on the diagonal (its swap elsewhere), its
/// reflection across the Z axis, that reflection swapped, and below the X
/// axis its reflection across the X axis. Each only if the threshold admits
/// it.
pub open spec fn candidates(c: LayoutConfig, i: int, j: int) -> Seq<HolePosition> {
    let b = base_hole(c, i, j);
    let t = c.coverage;
    keep(t, Some(b)) + keep(t, if j == i { b.spec_mirror() } else { b.spec_rotate() }) + keep(
        t,
        b.spec_mirror_x(),
    ) + keep(t, b.spec_mirror_x_then_rotate()) + keep(
        t,
        if j != 0 && j != i { Some(hole_at(b.x, -b.z as i64)) } else { None },
    )
}

/// The first height from `j` on at which the scan of step `i` stops: past
/// the diagonal or outside the plate.
pub open spec fn scan_end(c: LayoutConfig, i: int, j: int) -> int
    decreases i + 1 - j,
{
    if j > i || !in_plate(c, i, j) {
        j
    } else {
        scan_end(c, i, j + 1)
    }
}

/// The contributions of heights `0..n` of step `i`.
pub open spec fn row_prefix(c: LayoutConfig, i: int, n: nat) -> Seq<HolePosition>
    decreases n,
{
    if n == 0 {
        seq![]
    } else {
        row_prefix(c, i, (n - 1) as nat) + candidates(c, i, n - 1)
    }
}

/// The contributions of step `i`, up to where its scan stops.
pub open spec fn row(c: LayoutConfig, i: int) -> Seq<HolePosition> {
    row_prefix(c, i, scan_end(c, i, 0) as nat)
}

/// The centre, then the rows of steps `1..n`.
pub open spec fn layout_prefix(c: LayoutConfig, n: nat) -> Seq<HolePosition>
    decreases n,
{
    if n <= 1 {
        seq![hole_at(0, 0)]
    } else {
        layout_prefix(c, (n - 1) as nat) + row(c, n - 1)
    }
}

/// The hole layout of a configuration.
pub open spec fn layout(c: LayoutConfig) -> Seq<HolePosition> {
    layout_prefix(c, (c.spec_max_step() + 1) as nat)
}

/// Appends `h` to `holes` if it exists and the coverage admits it.
fn push_admitted(threshold: Quadrant, h: Option<HolePosition>, holes: &mut Vec<HolePosition>)
    ensures
        final(holes)@ == old(holes)@ + keep(threshold, h),
{
    match h {
        Some(p) => {
            match p.quadrant() {
                Some(q) => {
                    if q.within(threshold) {
                        holes.push(p);
                    }
                },
                None => {},
            }
        },
        None => {},
    }
}

/// Appends to `holes` what the scanned point at radial step `i` and height
/// `j` contributes, replicated into the quadrants that the coverage admits.
pub fn insert_hole(i: i64, j: i64, config: &LayoutConfig, holes: &mut Vec<HolePosition>)
    requires
        config.wf(),
        1 <= i <= config.spec_max_step(),
        0 <= j <= i,
    ensures
        final(holes)@ == old(holes)@ + candidates(*config, i as int, j as int),
{
    let d = config.step();
    let p = config.padded_radius();
    proof {
        config.lemma_max_step_fits();
    }
    assert(j * d <= i * d <= config.spec_max_step() * d <= p) by (nonlinear_arith)
        requires
            0 <= j <= i <= config.spec_max_step(),
            d > 0,
            config.spec_max_step() * d <= p,
    ;
    let x = round_to_hundredths(i * d);
    let z = round_to_hundredths(j * d);
    assert(0 <= z && z <= x <= MAX_DIMENSION) by (nonlinear_arith)
        requires
            x == rounded(i * d),
            z == rounded(j * d),
            0 <= j * d <= i * d <= MAX_DIMENSION,
    ;
    let base = HolePosition::new(x, z);
    let t = config.coverage;
    let first = if j == i { base.mirror() } else { base.rotate() };
    let beside = base.mirror_x();
    let across = base.mirror_x_then_rotate();
    let below = if j != 0 && j != i { Some(HolePosition::new(x, -z)) } else { None };
    push_admitted(t, Some(base), holes);
    push_admitted(t, first, holes);
    push_admitted(t, beside, holes);
    push_admitted(t, across, holes);
    push_admitted(t, below, holes);
    assert(holes@ =~= old(holes)@ + candidates(*config, i as int, j as int));
}

/// Appends to `holes` the row of radial step `i`, scanning heights up the
/// diagonal and stopping at the first one outside the padded plate.
fn insert_row(i: i64, config: &LayoutConfig, entry: DistanceToEdge, holes: &mut Vec<HolePosition>)
    requires
        config.wf(),
        1 <= i <= config.spec_max_step(),
        edge_entry(*config, i as int, entry),
    ensures
        final(holes)@ == old(holes)@ + row(*config, i as int),
{
    let d = config.step();
    let ghost start = holes@;
    let mut j: i64 = 0;
    while j <= i
        invariant_except_break
            0 <= j <= i + 1,
            scan_end(*config, i as int, j as int) == scan_end(*config, i as int, 0),
            holes@ == start + row_prefix(*config, i as int, j as nat),
        invariant
            config.wf(),
            1 <= i <= config.spec_max_step(),
            d == config.spec_step(),
            edge_entry(*config, i as int, entry),
        ensures
            holes@ == start + row(*config, i as int),
        decreases i + 1 - j,
    {
        assert(0 <= j * d <= i * d <= 2 * MAX_DIMENSION * MAX_DIMENSION) by (nonlinear_arith)
            requires
                0 <= j <= i <= MAX_DIMENSION,
                0 < d <= 2 * MAX_DIMENSION,
        ;
        let z = j * d;
        let b = entry.boundary_distance;
        assert((z > b) == !in_plate(*config, i as int, j as int)) by (nonlinear_arith)
            requires
                z == j * d,
                d == config.spec_step(),
                z >= 0,
                b >= 0,
                b * b <= chord_sq(*config, i as int) < (b + 1) * (b + 1),
        ;
        if z > b {
            break;
        }
        insert_hole(i, j, config, holes);
        assert(holes@ =~= start + row_prefix(*config, i as int, (j + 1) as nat));
        j = j + 1;
    }
}

/// The hole layout: the centre, then for each radial step outward the
/// scanned points inside the padded plate, replicated into the quadrants
/// up to the configured coverage, in the order they are found.
pub fn generate_layout(config: &LayoutConfig) -> (holes: Vec<HolePosition>)
    requires
        config.wf(),
    ensures
        holes@ == layout(*config),
{
    let table = edge_distances(config);
    let n = config.max_step();
    let mut holes: Vec<HolePosition> = Vec::new();
    holes.push(HolePosition::create_center());
    let mut i: i64 = 1;
    while i <= n
        invariant
            config.wf(),
            n == config.spec_max_step(),
            table@.len() == n + 1,
            forall|k: int| 0 <= k < table@.len() ==> edge_entry(*config, k, #[trigger] table@[k]),
            1 <= i <= n + 1,
            holes@ == layout_prefix(*config, i as nat),
        decreases n + 1 - i,
    {
        let entry = table[i as usize];
        insert_row(i, config, entry, &mut holes);
        i = i + 1;
    }
    holes
}

/// Every hole of `s` is well typed and admitted by `threshold`.
pub open spec fn all_admitted(threshold: Quadrant, s: Seq<HolePosition>) -> bool {
    forall|k: int|
        0 <= k < s.len() ==> (#[trigger] s[k]).wf() && admits(threshold, s[k])
}

proof fn lemma_concat_admitted(t: Quadrant, a: Seq<HolePosition>, b: Seq<HolePosition>)
    requires
        all_admitted(t, a),
        all_admitted(t, b),
    ensures
        all_admitted(t, a + b),
{
    assert forall|k: int| 0 <= k < (a + b).len() implies (#[trigger] (a + b)[k]).wf() && admits(
        t,
        (a + b)[k],
    ) by {
        if k >= a.len() {
            assert((a + b)[k] == b[k - a.len()]);
        }
    }
}

proof fn lemma_keep_admitted(t: Quadrant, h: Option<HolePosition>)
    requires
        h is Some ==> h->Some_0.wf(),
    ensures
        all_admitted(t, keep(t, h)),
{
}

proof fn lemma_candidates_admitted(c: LayoutConfig, i: int, j: int)
    ensures
        all_admitted(c.coverage, candidates(c, i, j)),
{
    let b = base_hole(c, i, j);
    let t = c.coverage;
    let k0 = keep(t, Some(b));
    let k1 = keep(t, if j == i { b.spec_mirror() } else { b.spec_rotate() });
    let k2 = keep(t, b.spec_mirror_x());
    let k3 = keep(t, b.spec_mirror_x_then_rotate());
    let k4 = keep(t, if j != 0 && j != i { Some(hole_at(b.x, -b.z as i64)) } else { None });
    lemma_keep_admitted(t, Some(b));
    lemma_keep_admitted(t, if j == i { b.spec_mirror() } else { b.spec_rotate() });
    lemma_keep_admitted(t, b.spec_mirror_x());
    lemma_keep_admitted(t, b.spec_mirror_x_then_rotate());
    lemma_keep_admitted(t, if j != 0 && j != i { Some(hole_at(b.x, -b.z as i64)) } else { None });
    lemma_concat_admitted(t, k0, k1);
    lemma_concat_admitted(t, k0 + k1, k2);
    lemma_concat_admitted(t, k0 + k1 + k2, k3);
    lemma_concat_admitted(t, k0 + k1 + k2 + k3, k4);
}

/// Every hole that a row contributes is well typed and admitted.
proof fn lemma_row_prefix_admitted(c: LayoutConfig, i: int, n: nat)
    ensures
        all_admitted(c.coverage, row_prefix(c, i, n)),
    decreases n,
{
    if n > 0 {
        lemma_row_prefix_admitted(c, i, (n - 1) as nat);
        lemma_candidates_admitted(c, i, n - 1);
        lemma_concat_admitted(c.coverage, row_prefix(c, i, (n - 1) as nat), candidates(c, i, n - 1));
    }
}

/// The first hole of a layout is the centre; every other one is well typed
/// and admitted by the coverage.
proof fn lemma_layout_prefix_shape(c: LayoutConfig, n: nat)
    ensures
        layout_prefix(c, n).len() >= 1,
        layout_prefix(c, n)[0] == hole_at(0, 0),
        all_admitted(c.coverage, layout_prefix(c, n).drop_first()),
    decreases n,
{
    if n > 1 {
        lemma_layout_prefix_shape(c, (n - 1) as nat);
        let prev = layout_prefix(c, (n - 1) as nat);
        let r = row(c, n - 1);
        lemma_row_prefix_admitted(c, n - 1, scan_end(c, n - 1, 0) as nat);
        lemma_concat_admitted(c.coverage, prev.drop_first(), r);
        assert(layout_prefix(c, n).drop_first() =~= prev.drop_first() + r);
    }
}

/// The centre comes first; every later hole is well typed and admitted.
proof fn lemma_layout_shape(c: LayoutConfig)
    ensures
        layout(c).len() >= 1,
        layout(c)[0] == hole_at(0, 0),
        forall|k: int|
            1 <= k < layout(c).len() ==> (#[trigger] layout(c)[k]).wf() && admits(
                c.coverage,
                layout(c)[k],
            ),
{
    let l = layout(c);
    lemma_layout_prefix_shape(c, (c.spec_max_step() + 1) as nat);
    assert forall|k: int| 1 <= k < l.len() implies (#[trigger] l[k]).wf() && admits(
        c.coverage,
        l[k],
    ) by {
        assert(l[k] == l.drop_first()[k - 1]);
    }
}

/// Every hole of a layout has the type that its coordinates give.
pub proof fn lemma_layout_well_typed(c: LayoutConfig)
    requires
        c.wf(),
    ensures
        forall|k: int| 0 <= k < layout(c).len() ==> (#[trigger] layout(c)[k]).wf(),
{
    lemma_layout_shape(c);
}

/// Every hole of a layout that has a quadrant lies in a quadrant that the
/// coverage threshold includes.
pub proof fn lemma_layout_within_coverage(c: LayoutConfig)
    requires
        c.wf(),
    ensures
        forall|k: int|
            0 <= k < layout(c).len() && (#[trigger] layout(c)[k]).spec_quadrant() is Some
                ==> layout(c)[k].spec_quadrant()->Some_0.spec_within(c.coverage),
{
    lemma_layout_shape(c);
}

/// A layout holds exactly one centre hole: the first, at `(0, 0)`.
pub proof fn lemma_single_center(c: LayoutConfig)
    requires
        c.wf(),
    ensures
        layout(c).len() >= 1,
        layout(c)[0].x == 0 && layout(c)[0].z == 0,
        forall|k: int|
            0 <= k < layout(c).len() ==> ((#[trigger] layout(c)[k]).spec_is_center() <==> k
                == 0),
        forall|k: int|
            0 <= k < layout(c).len() && (#[trigger] layout(c)[k]).spec_is_center() ==> layout(
                c,
            )[k].x == 0 && layout(c)[k].z == 0,
{
    lemma_layout_shape(c);
}

/// With a coverage of quadrant One, a layout holds the centre and holes of
/// quadrant One only.
pub proof fn lemma_coverage_one(c: LayoutConfig)
    requires
        c.wf(),
        c.coverage == Quadrant::One,
    ensures
        forall|k: int|
            0 <= k < layout(c).len() ==> (#[trigger] layout(c)[k]).spec_is_center() || layout(
                c,
            )[k].spec_quadrant() == Some(Quadrant::One),
{
    lemma_layout_shape(c);
}

} // verus!
