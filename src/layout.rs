//! Alignment policies: one enum per axis, each mapping the measurements of
//! its axis to an offset in position units.
use vstd::prelude::*;

verus! {

/// Outline coordinates are fixed-point numbers with this many units per em.
pub const UNITS_PER_EM: i128 = 65536;

/// Half an em in outline units; an em has an even number of units, so
/// halving a length measured in ems is exact.
pub const HALF_EM: i128 = 32768;

/// Where the origin is placed along the depth axis.
#[derive(Clone, Copy, Debug, PartialEq, Eq, Hash, Structural)]
pub enum DepthLayout {
    Centered,
    Front,
    Back,
}

/// Where the origin is placed along the horizontal axis.
#[derive(Clone, Copy, Debug, PartialEq, Eq, Hash, Structural)]
pub enum HorizontalLayout {
    Centered,
    Left,
    Right,
}

/// Where the origin is placed along the vertical axis.
#[derive(Clone, Copy, Debug, PartialEq, Eq, Hash, Structural)]
pub enum VerticalLayout {
    Centered,
    Top,
    Bottom,
}

impl Default for DepthLayout {
    fn default() -> (r: Self)
        ensures
            r == DepthLayout::Centered,
    {
        DepthLayout::Centered
    }
}

impl Default for HorizontalLayout {
    fn default() -> (r: Self)
        ensures
            r == HorizontalLayout::Left,
    {
        HorizontalLayout::Left
    }
}

impl Default for VerticalLayout {
    fn default() -> (r: Self)
        ensures
            r == VerticalLayout::Bottom,
    {
        VerticalLayout::Bottom
    }
}

/// Offset along Z, for an extrusion `depth` micrometres deep.
pub open spec fn z_offset(layout: DepthLayout, depth: int) -> int {
    match layout {
        DepthLayout::Centered => 0,
        DepthLayout::Front => -depth * HALF_EM,
        DepthLayout::Back => depth * HALF_EM,
    }
}

/// Offset along X for a line whose rendered width is `line_width` position
/// units. Centring halves the width, rounding toward negative infinity.
pub open spec fn x_offset(layout: HorizontalLayout, line_width: int) -> int {
    match layout {
        HorizontalLayout::Centered => -(line_width / 2),
        HorizontalLayout::Left => 0,
        HorizontalLayout::Right => -line_width,
    }
}

/// Offset along Y of line `current_line` (the top line is 0) in a block of
/// `total_lines` lines, each `line_height` micrometres high.
pub open spec fn y_offset(
    layout: VerticalLayout,
    line_height: int,
    total_lines: int,
    current_line: int,
) -> int {
    let em = line_height * UNITS_PER_EM;
    match layout {
        VerticalLayout::Centered => -(em * (current_line + 1)) + line_height * HALF_EM * total_lines,
        VerticalLayout::Top => -(em * (current_line + 1)),
        VerticalLayout::Bottom => em * current_line,
    }
}

/// The Z offset of `layout` for an extrusion `depth` micrometres deep.
pub fn get_z_offset(layout: &DepthLayout, depth: u32) -> (r: i128)
    ensures
        r == z_offset(*layout, depth as int),
{
    let d = depth as i128;
    match layout {
        DepthLayout::Centered => 0,
        DepthLayout::Front => -d * HALF_EM,
        DepthLayout::Back => d * HALF_EM,
    }
}

/// The X offset of `layout` for a line `line_width` position units wide.
pub fn get_x_offset(layout: &HorizontalLayout, line_width: i128) -> (r: i128)
    requires
        -0x1_0000_0000_0000_0000_0000_0000 <= line_width <= 0x1_0000_0000_0000_0000_0000_0000,
    ensures
        r == x_offset(*layout, line_width as int),
{
    match layout {
        HorizontalLayout::Centered => {
            let half: i128 = if line_width >= 0 {
                line_width / 2
            } else {
                -((1 - line_width) / 2)
            };
            proof {
                assert(half == line_width as int / 2) by (nonlinear_arith)
                    requires
                        line_width >= 0 ==> half == line_width / 2,
                        line_width < 0 ==> half == -((1 - line_width) / 2),
                ;
            }
            -half
        },
        HorizontalLayout::Left => 0,
        HorizontalLayout::Right => -line_width,
    }
}

/// The Y offset of line `current_line` of `total_lines`, each
/// `line_height` micrometres high, under `layout`.
pub fn get_y_offset(
    layout: &VerticalLayout,
    line_height: u32,
    total_lines: usize,
    current_line: usize,
) -> (r: i128)
    ensures
        r == y_offset(*layout, line_height as int, total_lines as int, current_line as int),
{
    let h = line_height as i128;
    let n = total_lines as i128;
    let i = current_line as i128;
    proof {
        assert(0 <= h * UNITS_PER_EM <= 0x1_0000_0000_0000) by (nonlinear_arith)
            requires
                0 <= h <= 0xffff_ffff,
        ;
        assert(0 <= h * UNITS_PER_EM * (i + 1) <= 0x1_0000_0000_0000_0000_0000_0000_0000)
            by (nonlinear_arith)
            requires
                0 <= h * UNITS_PER_EM <= 0x1_0000_0000_0000,
                0 <= i <= 0xffff_ffff_ffff_ffff,
        ;
        assert(0 <= h * UNITS_PER_EM * i <= 0x1_0000_0000_0000_0000_0000_0000_0000)
            by (nonlinear_arith)
            requires
                0 <= h * UNITS_PER_EM <= 0x1_0000_0000_0000,
                0 <= i <= 0xffff_ffff_ffff_ffff,
        ;
        assert(0 <= h * HALF_EM * n <= 0x1_0000_0000_0000_0000_0000_0000_0000) by (nonlinear_arith)
            requires
                0 <= h <= 0xffff_ffff,
                0 <= n <= 0xffff_ffff_ffff_ffff,
        ;
    }
    let em = h * UNITS_PER_EM;
    match layout {
        VerticalLayout::Centered => -(em * (i + 1)) + h * HALF_EM * n,
        VerticalLayout::Top => -(em * (i + 1)),
        VerticalLayout::Bottom => em * i,
    }
}

/// The sum of the centred offsets of the first `count` of `total_lines`
/// lines, each `line_height` micrometres high.
pub open spec fn centered_offset_sum(line_height: int, total_lines: int, count: int) -> int
    decreases count,
{
    if count <= 0 {
        0
    } else {
        centered_offset_sum(line_height, total_lines, count - 1) + y_offset(
            VerticalLayout::Centered,
            line_height,
            total_lines,
            count - 1,
        )
    }
}

proof fn lemma_centered_partial_sum(line_height: int, total_lines: int, count: int)
    requires
        0 <= count,
    ensures
        centered_offset_sum(line_height, total_lines, count) + count * (line_height * HALF_EM)
            == line_height * HALF_EM * count * (total_lines - count),
    decreases count,
{
    if count > 0 {
        lemma_centered_partial_sum(line_height, total_lines, count - 1);
        let k = count;
        let e = line_height * HALF_EM;
        let prev = centered_offset_sum(line_height, total_lines, k - 1);
        let off = y_offset(VerticalLayout::Centered, line_height, total_lines, k - 1);
        assert(off == -(2 * e * k) + e * total_lines) by (nonlinear_arith)
            requires
                off == -(line_height * UNITS_PER_EM * k) + line_height * HALF_EM * total_lines,
                e == line_height * HALF_EM,
        ;
        assert(prev + off + k * e == e * k * (total_lines - k)) by (nonlinear_arith)
            requires
                prev + (k - 1) * e == e * (k - 1) * (total_lines - (k - 1)),
                off == -(2 * e * k) + e * total_lines,
        ;
    } else {
        assert(line_height * HALF_EM * count * (total_lines - count) == 0) by (nonlinear_arith)
            requires
                count == 0,
        ;
    }
}

/// Centred lines are balanced about the origin: the offsets of all the
/// lines of a block add up to minus half a line per line, so the midpoints
/// of the lines (half a line above their offsets) average to 0.
pub proof fn centered_lines_balance(line_height: int, total_lines: int)
    requires
        0 <= line_height,
        1 <= total_lines,
    ensures
        centered_offset_sum(line_height, total_lines, total_lines) == -(total_lines * (line_height
            * HALF_EM)),
{
    lemma_centered_partial_sum(line_height, total_lines, total_lines);
    assert(line_height * HALF_EM * total_lines * (total_lines - total_lines) == 0) by (
    nonlinear_arith);
}

} // verus!
