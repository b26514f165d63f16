//! Assembly of the per-line outlines of a text into one positioned mesh.
use vstd::prelude::*;
use crate::layout::{
    get_x_offset, get_y_offset, get_z_offset, x_offset, y_offset, z_offset, DepthLayout,
    HorizontalLayout, VerticalLayout, HALF_EM, UNITS_PER_EM,
};

verus! {

/// A vertex of a glyph outline, in `1 / UNITS_PER_EM` of an em. `z` is a
/// fraction of the extrusion depth in the same fixed point.
#[derive(Clone, Copy, Debug, PartialEq, Eq, Structural)]
pub struct OutlineVertex {
    pub x: i32,
    pub y: i32,
    pub z: i32,
}

/// A mesh position, in `1 / UNITS_PER_EM` of a micrometre.
#[derive(Clone, Copy, Debug, PartialEq, Eq, Structural)]
pub struct Position {
    pub x: i128,
    pub y: i128,
    pub z: i128,
}

/// An axis-aligned box given by its two extreme corners.
#[derive(Clone, Copy, Debug, PartialEq, Eq, Structural)]
pub struct Aabb {
    pub min: Position,
    pub max: Position,
}

/// A triangle list: every three consecutive positions form a triangle.
/// `line_groups[i]` is the half-open range of `positions` that holds line `i`.
pub struct GeneratedMesh {
    pub positions: Vec<Position>,
    pub line_groups: Vec<(usize, usize)>,
    pub aabb: Option<Aabb>,
}

/// The outlines of all lines, as sequences.
pub open spec fn outlines_view(lines: Seq<Vec<OutlineVertex>>) -> Seq<Seq<OutlineVertex>> {
    lines.map_values(|l: Vec<OutlineVertex>| l@)
}

/// The largest outline X of a line; 0 for a line without vertices.
pub open spec fn max_x(line: Seq<OutlineVertex>) -> int
    decreases line.len(),
{
    if line.len() == 0 {
        0
    } else if line.len() == 1 {
        line[0].x as int
    } else {
        let m = max_x(line.drop_last());
        if line.last().x > m {
            line.last().x as int
        } else {
            m
        }
    }
}

/// The rendered width of a line at `height` micrometres per em.
pub open spec fn line_width(line: Seq<OutlineVertex>, height: int) -> int {
    max_x(line) * height
}

/// The coordinates of a position as integers.
pub open spec fn coords(p: Position) -> (int, int, int) {
    (p.x as int, p.y as int, p.z as int)
}

/// The coordinates of each position of `ps`.
pub open spec fn coords_of(ps: Seq<Position>) -> Seq<(int, int, int)> {
    ps.map_values(|p: Position| coords(p))
}

/// Where an outline vertex lands once scaled and shifted by the offsets.
pub open spec fn place(
    v: OutlineVertex,
    height: int,
    depth: int,
    dx: int,
    dy: int,
    dz: int,
) -> (int, int, int) {
    (v.x * height + dx, v.y * height + dy, v.z * depth + dz)
}

/// The positions of line `index` of `total` lines, in outline order.
pub open spec fn placed_line(
    line: Seq<OutlineVertex>,
    index: int,
    total: int,
    height: int,
    depth: int,
    vertical: VerticalLayout,
    horizontal: HorizontalLayout,
    depth_layout: DepthLayout,
) -> Seq<(int, int, int)> {
    let dx = x_offset(horizontal, line_width(line, height));
    let dy = y_offset(vertical, height, total, index);
    let dz = z_offset(depth_layout, depth);
    line.map_values(|v: OutlineVertex| place(v, height, depth, dx, dy, dz))
}

/// The number of vertices in the first `count` lines.
pub open spec fn start_of(lines: Seq<Seq<OutlineVertex>>, count: int) -> int
    decreases count,
{
    if count <= 0 {
        0
    } else {
        start_of(lines, count - 1) + lines[count - 1].len()
    }
}

/// `b` contains every position of `ps` and each of its faces touches one.
pub open spec fn is_tight_box(b: Aabb, ps: Seq<Position>) -> bool {
    &&& forall|k: int|
        0 <= k < ps.len() ==> {
            &&& b.min.x <= #[trigger] ps[k].x <= b.max.x
            &&& b.min.y <= ps[k].y <= b.max.y
            &&& b.min.z <= ps[k].z <= b.max.z
        }
    &&& exists|k: int| 0 <= k < ps.len() && #[trigger] ps[k].x == b.min.x
    &&& exists|k: int| 0 <= k < ps.len() && #[trigger] ps[k].y == b.min.y
    &&& exists|k: int| 0 <= k < ps.len() && #[trigger] ps[k].z == b.min.z
    &&& exists|k: int| 0 <= k < ps.len() && #[trigger] ps[k].x == b.max.x
    &&& exists|k: int| 0 <= k < ps.len() && #[trigger] ps[k].y == b.max.y
    &&& exists|k: int| 0 <= k < ps.len() && #[trigger] ps[k].z == b.max.z
}

/// The bounding box of `ps`: none when there are no positions.
pub open spec fn is_bounding_box(aabb: Option<Aabb>, ps: Seq<Position>) -> bool {
    match aabb {
        None => ps.len() == 0,
        Some(b) => ps.len() > 0 && is_tight_box(b, ps),
    }
}

/// `mesh` holds exactly the placed outlines of `lines`, line after line.
pub open spec fn assembled_from(
    mesh: GeneratedMesh,
    lines: Seq<Seq<OutlineVertex>>,
    height: int,
    depth: int,
    vertical: VerticalLayout,
    horizontal: HorizontalLayout,
    depth_layout: DepthLayout,
) -> bool {
    let n = lines.len();
    &&& mesh.line_groups@.len() == n
    &&& mesh.positions@.len() == start_of(lines, n as int)
    &&& forall|i: int|
        0 <= i < n ==> (#[trigger] mesh.line_groups@[i]).0 == start_of(lines, i)
            && mesh.line_groups@[i].1 == start_of(lines, i + 1)
    &&& forall|i: int|
        0 <= i < n ==> #[trigger] coords_of(
            mesh.positions@.subrange(start_of(lines, i), start_of(lines, i + 1)),
        ) == placed_line(lines[i], i, n as int, height, depth, vertical, horizontal, depth_layout)
    &&& is_bounding_box(mesh.aabb, mesh.positions@)
}

proof fn lemma_start_of_monotone(lines: Seq<Seq<OutlineVertex>>, a: int, b: int)
    requires
        a <= b,
    ensures
        start_of(lines, a) <= start_of(lines, b),
    decreases b - a,
{
    if a < b {
        lemma_start_of_monotone(lines, a, b - 1);
    }
}

proof fn lemma_max_x_bounds(line: Seq<OutlineVertex>)
    ensures
        i32::MIN <= max_x(line) <= i32::MAX,
        forall|k: int| 0 <= k < line.len() ==> #[trigger] line[k].x <= max_x(line),
        line.len() > 0 ==> exists|k: int| 0 <= k < line.len() && #[trigger] line[k].x == max_x(line),
    decreases line.len(),
{
    if line.len() > 1 {
        let init = line.drop_last();
        lemma_max_x_bounds(init);
        assert forall|k: int| 0 <= k < line.len() implies #[trigger] line[k].x <= max_x(line) by {
            if k < line.len() - 1 {
                assert(line[k] == init[k]);
            }
        }
        if line.last().x <= max_x(init) {
            let k = choose|k: int| 0 <= k < init.len() && #[trigger] init[k].x == max_x(init);
            assert(line[k] == init[k]);
        }
    }
}

/// The largest outline X among the vertices of `line`, or 0 if it has none.
fn line_max_x(line: &Vec<OutlineVertex>) -> (r: i32)
    ensures
        r == max_x(line@),
{
    let mut m: i32 = 0;
    let mut j: usize = 0;
    while j < line.len()
        invariant
            j <= line@.len(),
            m == max_x(line@.take(j as int)),
        decreases line@.len() - j,
    {
        assert(line@.take(j + 1).drop_last() == line@.take(j as int));
        if j == 0 || line[j].x > m {
            m = line[j].x;
        }
        j += 1;
    }
    assert(line@.take(j as int) == line@);
    m
}

proof fn lemma_offsets_bounded(
    line: Seq<OutlineVertex>,
    index: int,
    total: int,
    height: int,
    vertical: VerticalLayout,
)
    requires
        0 <= height <= u32::MAX,
        0 <= index < total <= usize::MAX,
    ensures
        -0x1_0000_0000_0000_0000 <= line_width(line, height) <= 0x1_0000_0000_0000_0000,
        -0x10_0000_0000_0000_0000_0000_0000_0000 <= y_offset(vertical, height, total, index)
            <= 0x10_0000_0000_0000_0000_0000_0000_0000,
{
    lemma_max_x_bounds(line);
    let m = max_x(line);
    assert(-0x1_0000_0000_0000_0000 <= m * height <= 0x1_0000_0000_0000_0000) by (nonlinear_arith)
        requires
            i32::MIN <= m <= i32::MAX,
            0 <= height <= u32::MAX,
    ;
    let em = height * UNITS_PER_EM;
    assert(0 <= em <= 0x1_0000_0000_0000) by (nonlinear_arith)
        requires
            em == height * UNITS_PER_EM,
            0 <= height <= u32::MAX,
    ;
    assert(0 <= em * (index + 1) <= 0x1_0000_0000_0000_0000_0000_0000_0000) by (nonlinear_arith)
        requires
            0 <= em <= 0x1_0000_0000_0000,
            0 <= index < usize::MAX,
    ;
    assert(0 <= em * index <= 0x1_0000_0000_0000_0000_0000_0000_0000) by (nonlinear_arith)
        requires
            0 <= em <= 0x1_0000_0000_0000,
            0 <= index < usize::MAX,
    ;
    assert(0 <= height * HALF_EM * total <= 0x1_0000_0000_0000_0000_0000_0000_0000)
        by (nonlinear_arith)
        requires
            0 <= height <= u32::MAX,
            0 <= total <= usize::MAX,
    ;
}

/// The smallest axis-aligned box that holds every position of `ps`, or
/// none when `ps` is empty.
pub fn bounding_box(ps: &Vec<Position>) -> (r: Option<Aabb>)
    ensures
        is_bounding_box(r, ps@),
{
    if ps.len() == 0 {
        return None;
    }
    let mut lo = ps[0];
    let mut hi = ps[0];
    let mut k: usize = 1;
    while k < ps.len()
        invariant
            1 <= k <= ps@.len(),
            forall|m: int|
                0 <= m < k ==> {
                    &&& lo.x <= #[trigger] ps@[m].x <= hi.x
                    &&& lo.y <= ps@[m].y <= hi.y
                    &&& lo.z <= ps@[m].z <= hi.z
                },
            exists|m: int| 0 <= m < k && #[trigger] ps@[m].x == lo.x,
            exists|m: int| 0 <= m < k && #[trigger] ps@[m].y == lo.y,
            exists|m: int| 0 <= m < k && #[trigger] ps@[m].z == lo.z,
            exists|m: int| 0 <= m < k && #[trigger] ps@[m].x == hi.x,
            exists|m: int| 0 <= m < k && #[trigger] ps@[m].y == hi.y,
            exists|m: int| 0 <= m < k && #[trigger] ps@[m].z == hi.z,
        decreases ps@.len() - k,
    {
        let p = ps[k];
        let ghost lo0 = lo;
        let ghost hi0 = hi;
        if p.x < lo.x {
            lo.x = p.x;
        }
        if p.y < lo.y {
            lo.y = p.y;
        }
        if p.z < lo.z {
            lo.z = p.z;
        }
        if p.x > hi.x {
            hi.x = p.x;
        }
        if p.y > hi.y {
            hi.y = p.y;
        }
        if p.z > hi.z {
            hi.z = p.z;
        }
        assert forall|m: int| 0 <= m < k + 1 implies {
            &&& lo.x <= #[trigger] ps@[m].x <= hi.x
            &&& lo.y <= ps@[m].y <= hi.y
            &&& lo.z <= ps@[m].z <= hi.z
        } by {
            if m < k {
                assert(lo0.x <= ps@[m].x <= hi0.x);
            }
        }
        k += 1;
    }
    Some(Aabb { min: lo, max: hi })
}

/// Lays out the outlines of the lines of a text, `lines[i]` being the
/// outline of line `i` (the top line is 0), and merges them into one mesh.
/// Each vertex is scaled by `height` (X and Y) and `depth` (Z), both in
/// micrometres, then shifted by the offsets of the three layouts; the
/// horizontal offset is computed from the width of the vertex's own line.
pub fn assemble_mesh(
    lines: &Vec<Vec<OutlineVertex>>,
    height: u32,
    depth: u32,
    vertical: &VerticalLayout,
    horizontal: &HorizontalLayout,
    depth_layout: &DepthLayout,
) -> (mesh: GeneratedMesh)
    ensures
        assembled_from(
            mesh,
            outlines_view(lines@),
            height as int,
            depth as int,
            *vertical,
            *horizontal,
            *depth_layout,
        ),
{
    let ghost outlines = outlines_view(lines@);
    let n = lines.len();
    let h = height as i128;
    let d = depth as i128;
    let dz = get_z_offset(depth_layout, depth);
    let mut positions: Vec<Position> = Vec::new();
    let mut line_groups: Vec<(usize, usize)> = Vec::new();
    let mut i: usize = 0;
    while i < n
        invariant
            n == lines@.len(),
            outlines == outlines_view(lines@),
            h == height,
            d == depth,
            dz == z_offset(*depth_layout, depth as int),
            0 <= i <= n,
            positions@.len() == start_of(outlines, i as int),
            line_groups@.len() == i,
            forall|k: int|
                0 <= k < i ==> (#[trigger] line_groups@[k]).0 == start_of(outlines, k)
                    && line_groups@[k].1 == start_of(outlines, k + 1),
            forall|k: int|
                0 <= k < i ==> #[trigger] coords_of(
                    positions@.subrange(start_of(outlines, k), start_of(outlines, k + 1)),
                ) == placed_line(
                    outlines[k],
                    k,
                    n as int,
                    height as int,
                    depth as int,
                    *vertical,
                    *horizontal,
                    *depth_layout,
                ),
        decreases n - i,
    {
        let line = &lines[i];
        let ghost outline = outlines[i as int];
        assert(outline == line@);
        proof {
            lemma_offsets_bounded(outline, i as int, n as int, height as int, *vertical);
        }
        let width = line_max_x(line) as i128 * h;
        let dx = get_x_offset(horizontal, width);
        let dy = get_y_offset(vertical, height, n, i);
        let ghost placed = placed_line(
            outline,
            i as int,
            n as int,
            height as int,
            depth as int,
            *vertical,
            *horizontal,
            *depth_layout,
        );
        let ghost before = positions@;
        let start = positions.len();
        let mut j: usize = 0;
        while j < line.len()
            invariant
                line@ == outline,
                h == height,
                d == depth,
                dz == z_offset(*depth_layout, depth as int),
                dx == x_offset(*horizontal, line_width(outline, height as int)),
                dy == y_offset(*vertical, height as int, n as int, i as int),
                -0x1_0000_0000_0000_0000 <= line_width(outline, height as int) <= 0x1_0000_0000_0000_0000,
                -0x10_0000_0000_0000_0000_0000_0000_0000 <= dy <= 0x10_0000_0000_0000_0000_0000_0000_0000,
                placed == placed_line(
                    outline,
                    i as int,
                    n as int,
                    height as int,
                    depth as int,
                    *vertical,
                    *horizontal,
                    *depth_layout,
                ),
                start == before.len(),
                j <= line@.len(),
                positions@.len() == start + j,
                positions@.subrange(0, start as int) == before,
                coords_of(positions@.subrange(start as int, start + j)) == placed.take(j as int),
            decreases line@.len() - j,
        {
            let v = line[j];
            proof {
                assert(-0x1_0000_0000_0000_0000 <= v.x * h <= 0x1_0000_0000_0000_0000)
                    by (nonlinear_arith)
                    requires
                        i32::MIN <= v.x <= i32::MAX,
                        0 <= h <= u32::MAX,
                ;
                assert(-0x1_0000_0000_0000_0000 <= v.y * h <= 0x1_0000_0000_0000_0000)
                    by (nonlinear_arith)
                    requires
                        i32::MIN <= v.y <= i32::MAX,
                        0 <= h <= u32::MAX,
                ;
                assert(-0x1_0000_0000_0000_0000 <= v.z * d <= 0x1_0000_0000_0000_0000)
                    by (nonlinear_arith)
                    requires
                        i32::MIN <= v.z <= i32::MAX,
                        0 <= d <= u32::MAX,
                ;
                assert(-0x1_0000_0000_0000 <= dz <= 0x1_0000_0000_0000) by (nonlinear_arith)
                    requires
                        dz == z_offset(*depth_layout, d as int),
                        0 <= d <= u32::MAX,
                ;
            }
            let p = Position {
                x: v.x as i128 * h + dx,
                y: v.y as i128 * h + dy,
                z: v.z as i128 * d + dz,
            };
            let ghost prev = positions@;
            positions.push(p);
            proof {
                assert(positions@.subrange(0, start as int) == prev.subrange(0, start as int));
                assert(positions@.subrange(start as int, start + j + 1) == prev.subrange(
                    start as int,
                    start + j,
                ).push(p));
                assert(coords_of(positions@.subrange(start as int, start + j + 1)) == placed.take(
                    j + 1,
                ));
            }
            j += 1;
        }
        proof {
            assert(placed.take(j as int) == placed);
            assert forall|k: int| 0 <= k < i implies #[trigger] coords_of(
                positions@.subrange(start_of(outlines, k), start_of(outlines, k + 1)),
            ) == placed_line(
                outlines[k],
                k,
                n as int,
                height as int,
                depth as int,
                *vertical,
                *horizontal,
                *depth_layout,
            ) by {
                lemma_start_of_monotone(outlines, k + 1, i as int);
                lemma_start_of_monotone(outlines, k, k + 1);
                lemma_start_of_monotone(outlines, 0, k);
                assert(positions@.subrange(start_of(outlines, k), start_of(outlines, k + 1))
                    =~= before.subrange(start_of(outlines, k), start_of(outlines, k + 1)));
            }
        }
        let ghost groups0 = line_groups@;
        line_groups.push((start, positions.len()));
        assert(start_of(outlines, i + 1) == start_of(outlines, i as int) + outline.len());
        assert forall|k: int| 0 <= k < i + 1 implies (#[trigger] line_groups@[k]).0 == start_of(
            outlines,
            k,
        ) && line_groups@[k].1 == start_of(outlines, k + 1) by {
            if k < i {
                assert(line_groups@[k] == groups0[k]);
            }
        }
        i += 1;
    }
    let aabb = bounding_box(&positions);
    GeneratedMesh { positions, line_groups, aabb }
}

impl GeneratedMesh {
    /// The number of vertices.
    pub fn vertex_count(&self) -> (r: usize)
        ensures
            r == self.positions@.len(),
    {
        self.positions.len()
    }

    /// The number of triangles: one per three vertices.
    pub fn triangle_count(&self) -> (r: usize)
        ensures
            r == self.positions@.len() / 3,
    {
        self.positions.len() / 3
    }

    /// The number of lines the mesh was assembled from.
    pub fn line_count(&self) -> (r: usize)
        ensures
            r == self.line_groups@.len(),
    {
        self.line_groups.len()
    }
}

/// Right alignment puts the rightmost vertex of a line at X = 0 and every
/// vertex at or left of it; when the outline starts at X = 0, the leftmost
/// vertex is at X = -w, `w` being the rendered width of the line.
pub proof fn right_alignment_spans_line(
    line: Seq<OutlineVertex>,
    index: int,
    total: int,
    height: int,
    depth: int,
    vertical: VerticalLayout,
    depth_layout: DepthLayout,
)
    requires
        0 <= height,
        line.len() > 0,
    ensures
        ({
            let ps = placed_line(
                line,
                index,
                total,
                height,
                depth,
                vertical,
                HorizontalLayout::Right,
                depth_layout,
            );
            &&& forall|j: int| 0 <= j < ps.len() ==> #[trigger] ps[j].0 <= 0
            &&& exists|j: int| 0 <= j < ps.len() && #[trigger] ps[j].0 == 0
            &&& (forall|j: int| 0 <= j < line.len() ==> #[trigger] line[j].x >= 0) && (exists|j: int|
                0 <= j < line.len() && #[trigger] line[j].x == 0) ==> exists|j: int|
                0 <= j < ps.len() && #[trigger] ps[j].0 == -line_width(line, height)
        }),
{
    lemma_max_x_bounds(line);
    let m = max_x(line);
    let ps = placed_line(
        line,
        index,
        total,
        height,
        depth,
        vertical,
        HorizontalLayout::Right,
        depth_layout,
    );
    assert forall|j: int| 0 <= j < ps.len() implies #[trigger] ps[j].0 <= 0 by {
        let x = line[j].x as int;
        assert(x <= m);
        assert(x * height - m * height <= 0) by (nonlinear_arith)
            requires
                x <= m,
                0 <= height,
        ;
    }
    let top = choose|j: int| 0 <= j < line.len() && #[trigger] line[j].x == m;
    assert(ps[top].0 == 0);
    if exists|j: int| 0 <= j < line.len() && #[trigger] line[j].x == 0 {
        let low = choose|j: int| 0 <= j < line.len() && #[trigger] line[j].x == 0;
        assert(ps[low].0 == -line_width(line, height));
    }
}

/// Front alignment moves every vertex of a line by exactly half the depth
/// toward -Z compared with centred depth alignment, and leaves X and Y as
/// they are.
pub proof fn front_shifts_half_depth(
    line: Seq<OutlineVertex>,
    index: int,
    total: int,
    height: int,
    depth: int,
    vertical: VerticalLayout,
    horizontal: HorizontalLayout,
)
    ensures
        placed_line(line, index, total, height, depth, vertical, horizontal, DepthLayout::Front)
            == placed_line(
            line,
            index,
            total,
            height,
            depth,
            vertical,
            horizontal,
            DepthLayout::Centered,
        ).map_values(|p: (int, int, int)| (p.0, p.1, p.2 - depth * HALF_EM)),
{
    assert(placed_line(line, index, total, height, depth, vertical, horizontal, DepthLayout::Front)
        =~= placed_line(
        line,
        index,
        total,
        height,
        depth,
        vertical,
        horizontal,
        DepthLayout::Centered,
    ).map_values(|p: (int, int, int)| (p.0, p.1, p.2 - depth * HALF_EM)));
}

} // verus!
