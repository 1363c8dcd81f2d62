use vstd::prelude::*;

verus! {

/// Where a signed position lands on an axis of `size` cells: positions below
/// the axis go to its first cell, positions past it to its last cell. An axis
/// of no cells maps everything to 0.
pub open spec fn clamp_axis(size: int, v: int) -> int {
    if size <= 0 || v < 0 {
        0
    } else if v >= size {
        size - 1
    } else {
        v
    }
}

/// The cell `coord + delta` on a grid of `sz` (width, height), with each axis
/// clamped on its own into the grid.
///
/// A move that leaves the grid on one axis only is clamped on that axis as
/// well, so the result is a cell of the grid whenever the grid has one.
pub fn safe_neighbor(sz: (u16, u16), coord: (u16, u16), delta: (i8, i8)) -> (r: (u16, u16))
    ensures
        r.0 == clamp_axis(sz.0 as int, coord.0 + delta.0),
        r.1 == clamp_axis(sz.1 as int, coord.1 + delta.1),
{
    (clamp_to(sz.0, coord.0, delta.0), clamp_to(sz.1, coord.1, delta.1))
}

fn clamp_to(size: u16, at: u16, delta: i8) -> (r: u16)
    ensures
        r == clamp_axis(size as int, at + delta),
{
    let v: i32 = at as i32 + delta as i32;
    if size == 0 || v < 0 {
        0
    } else if v >= size as i32 {
        size - 1
    } else {
        v as u16
    }
}

/// Moving by no offset from a cell of the grid stays on that cell.
pub proof fn lemma_zero_delta_is_identity(sz: (u16, u16), p: (u16, u16))
    requires
        p.0 < sz.0,
        p.1 < sz.1,
    ensures
        clamp_axis(sz.0 as int, p.0 + 0) == p.0,
        clamp_axis(sz.1 as int, p.1 + 0) == p.1,
{
}

/// Every move from anywhere lands inside a grid that has at least one cell.
pub proof fn lemma_neighbor_in_bounds(sz: (u16, u16), p: (u16, u16), d: (i8, i8))
    requires
        sz.0 > 0,
        sz.1 > 0,
    ensures
        0 <= clamp_axis(sz.0 as int, p.0 + d.0) < sz.0,
        0 <= clamp_axis(sz.1 as int, p.1 + d.1) < sz.1,
{
}

/// A move that leaves the grid on one axis only: that axis stops at the
/// grid's edge and the other axis moves as asked.
pub proof fn lemma_single_axis_overflow(sz: (u16, u16), p: (u16, u16), d: (i8, i8))
    requires
        sz.0 > 0,
        p.0 + d.0 >= sz.0 || p.0 + d.0 < 0,
        0 <= p.1 + d.1 < sz.1,
    ensures
        clamp_axis(sz.0 as int, p.0 + d.0) == if p.0 + d.0 < 0 {
            0
        } else {
            sz.0 - 1
        },
        clamp_axis(sz.1 as int, p.1 + d.1) == p.1 + d.1,
{
}

} // verus!
