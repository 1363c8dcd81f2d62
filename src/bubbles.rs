use vstd::prelude::*;
use crate::grid::{Grid, GridView, lemma_get_set, lemma_index_in_range};
use crate::neighbor::{clamp_axis, safe_neighbor};

verus! {

/// Number of glyphs in a bubble's life.
pub const FRAME_COUNT: usize = 7;

/// The glyphs of a bubble's life, from just spawned to about to vanish.
pub open spec fn frames() -> Seq<char> {
    seq!['\u{b7}', '\u{22c5}', '\u{25cc}', '\u{2299}', '\u{229a}', '\u{29be}', '\u{205c}']
}

/// Position of `c` in the life of a bubble, or -1 for a glyph that is no bubble.
pub open spec fn frame_pos(c: char) -> int {
    if c == frames()[0] {
        0
    } else if c == frames()[1] {
        1
    } else if c == frames()[2] {
        2
    } else if c == frames()[3] {
        3
    } else if c == frames()[4] {
        4
    } else if c == frames()[5] {
        5
    } else if c == frames()[6] {
        6
    } else {
        -1
    }
}

/// A cell where a bubble may spawn: empty, or holding a blank.
pub open spec fn is_vacant(c: Option<char>) -> bool {
    c is None || c == Some(' ')
}

/// The neighbour of (x, y) at offset (dx, dy), clamped into the grid.
pub open spec fn neighbor_of(g: GridView, x: int, y: int, dx: int, dy: int) -> (int, int) {
    (clamp_axis(g.width as int, x + dx), clamp_axis(g.height as int, y + dy))
}

/// One cell's update within a tick.
///
/// A vacant cell gets a new bubble when its draw falls below `threshold`. A
/// cell holding frame `i` is emptied and frame `i + 1` (if there is one) is
/// placed on the cell above; when that cell was already taken and the bubble
/// is past half its life, the two cells diagonally above are emptied too (the
/// bubble pops). Any other glyph is left alone.
pub open spec fn step_cell(g: GridView, x: int, y: int, draw: u32, threshold: u32) -> GridView {
    let here = g.get(x, y);
    if is_vacant(here) {
        if draw < threshold {
            g.set(x, y, Some(frames()[0]))
        } else {
            g
        }
    } else {
        let i = frame_pos(here->0);
        if i < 0 {
            g
        } else {
            let cleared = g.set(x, y, None);
            let above = neighbor_of(g, x, y, 0, -1);
            let taken = !is_vacant(cleared.get(above.0, above.1));
            let placed = if i + 1 < FRAME_COUNT {
                cleared.set(above.0, above.1, Some(frames()[i + 1]))
            } else {
                cleared
            };
            if taken && i > FRAME_COUNT / 2 {
                let right = neighbor_of(g, x, y, 1, -1);
                let left = neighbor_of(g, x, y, -1, -1);
                placed.set(right.0, right.1, None).set(left.0, left.1, None)
            } else {
                placed
            }
        }
    }
}

/// Row `y` of a grid `w` cells wide, its first `n` cells updated in order,
/// the cell (x, y) with draw `draws[y * w + x]`.
pub open spec fn sweep_row(
    g: GridView,
    draws: Seq<u32>,
    threshold: u32,
    w: nat,
    y: int,
    n: nat,
) -> GridView
    decreases n,
{
    if n == 0 {
        g
    } else {
        let x = n - 1;
        step_cell(sweep_row(g, draws, threshold, w, y, x as nat), x, y, draws[y * w + x], threshold)
    }
}

/// The first `rows` rows updated, each from left to right.
pub open spec fn sweep_rows(g: GridView, draws: Seq<u32>, threshold: u32, w: nat, rows: nat) -> GridView
    decreases rows,
{
    if rows == 0 {
        g
    } else {
        let y = rows - 1;
        sweep_row(sweep_rows(g, draws, threshold, w, y as nat), draws, threshold, w, y, w)
    }
}

/// One tick of the simulation: every cell updated in raster order, each
/// seeing what the cells before it left, with one draw per cell.
pub open spec fn advance_spec(g: GridView, draws: Seq<u32>, threshold: u32) -> GridView {
    sweep_rows(g, draws, threshold, g.width, g.height)
}

pub proof fn lemma_set_keeps_shape(g: GridView, x: int, y: int, v: Option<char>)
    requires
        g.wf(),
    ensures
        g.set(x, y, v).wf(),
        g.set(x, y, v).width == g.width,
        g.set(x, y, v).height == g.height,
{
    lemma_get_set(g, x, y, v, 0, 0);
}

pub proof fn lemma_step_keeps_shape(g: GridView, x: int, y: int, draw: u32, threshold: u32)
    requires
        g.wf(),
    ensures
        step_cell(g, x, y, draw, threshold).wf(),
        step_cell(g, x, y, draw, threshold).width == g.width,
        step_cell(g, x, y, draw, threshold).height == g.height,
{
    let here = g.get(x, y);
    lemma_set_keeps_shape(g, x, y, Some(frames()[0]));
    if !is_vacant(here) && frame_pos(here->0) >= 0 {
        let i = frame_pos(here->0);
        let cleared = g.set(x, y, None);
        lemma_set_keeps_shape(g, x, y, None);
        let above = neighbor_of(g, x, y, 0, -1);
        let placed = if i + 1 < FRAME_COUNT {
            cleared.set(above.0, above.1, Some(frames()[i + 1]))
        } else {
            cleared
        };
        if i + 1 < FRAME_COUNT {
            lemma_set_keeps_shape(cleared, above.0, above.1, Some(frames()[i + 1]));
        }
        let right = neighbor_of(g, x, y, 1, -1);
        let left = neighbor_of(g, x, y, -1, -1);
        lemma_set_keeps_shape(placed, right.0, right.1, None);
        lemma_set_keeps_shape(placed.set(right.0, right.1, None), left.0, left.1, None);
    }
}

/// A bubble below its last frame, with a vacant cell above it, leaves its cell
/// empty and shows its next frame on the cell above.
///
/// Stated for cells below the top row: on the top row the cell above clamps to
/// the cell itself, which then shows the next frame.
pub proof fn lemma_bubble_rises(g: GridView, x: int, y: int, i: int, draw: u32, threshold: u32)
    requires
        g.wf(),
        g.in_bounds(x, y),
        y >= 1,
        0 <= i < FRAME_COUNT - 1,
        g.get(x, y) == Some(frames()[i]),
        is_vacant(g.get(x, y - 1)),
    ensures
        step_cell(g, x, y, draw, threshold).get(x, y) is None,
        step_cell(g, x, y, draw, threshold).get(x, y - 1) == Some(frames()[i + 1]),
{
    assert(frame_pos(frames()[i]) == i);
    let cleared = g.set(x, y, None);
    lemma_get_set(g, x, y, None, x, y - 1);
    lemma_get_set(g, x, y, None, x, y);
    assert(neighbor_of(g, x, y, 0, -1) == (x, y - 1));
    lemma_get_set(cleared, x, y - 1, Some(frames()[i + 1]), x, y);
    lemma_get_set(cleared, x, y - 1, Some(frames()[i + 1]), x, y - 1);
}

/// A bubble on its last frame vanishes: its cell is empty afterwards and no
/// cell gains a glyph (a pop may only empty cells).
pub proof fn lemma_last_frame_vanishes(
    g: GridView,
    x: int,
    y: int,
    draw: u32,
    threshold: u32,
    qx: int,
    qy: int,
)
    requires
        g.wf(),
        g.in_bounds(x, y),
        g.get(x, y) == Some(frames()[FRAME_COUNT - 1]),
    ensures
        step_cell(g, x, y, draw, threshold).get(x, y) is None,
        step_cell(g, x, y, draw, threshold).get(qx, qy) is None || step_cell(
            g,
            x,
            y,
            draw,
            threshold,
        ).get(qx, qy) == g.get(qx, qy),
{
    assert(frame_pos(frames()[FRAME_COUNT - 1]) == FRAME_COUNT - 1);
    let cleared = g.set(x, y, None);
    lemma_get_set(g, x, y, None, x, y);
    lemma_get_set(g, x, y, None, qx, qy);
    let right = neighbor_of(g, x, y, 1, -1);
    let left = neighbor_of(g, x, y, -1, -1);
    lemma_set_keeps_shape(g, x, y, None);
    let r1 = cleared.set(right.0, right.1, None);
    lemma_get_set(cleared, right.0, right.1, None, x, y);
    lemma_get_set(cleared, right.0, right.1, None, qx, qy);
    lemma_set_keeps_shape(cleared, right.0, right.1, None);
    lemma_get_set(r1, left.0, left.1, None, x, y);
    lemma_get_set(r1, left.0, left.1, None, qx, qy);
}

/// The glyph of frame `i`.
pub fn frame_glyph(i: usize) -> (r: char)
    requires
        i < FRAME_COUNT,
    ensures
        r == frames()[i as int],
{
    if i == 0 {
        '\u{b7}'
    } else if i == 1 {
        '\u{22c5}'
    } else if i == 2 {
        '\u{25cc}'
    } else if i == 3 {
        '\u{2299}'
    } else if i == 4 {
        '\u{229a}'
    } else if i == 5 {
        '\u{29be}'
    } else {
        '\u{205c}'
    }
}

/// The frame that `c` shows, if it is a bubble glyph.
pub fn frame_index(c: char) -> (r: Option<usize>)
    ensures
        match r {
            Some(i) => i < FRAME_COUNT && frame_pos(c) == i,
            None => frame_pos(c) == -1,
        },
{
    let mut i: usize = 0;
    while i < FRAME_COUNT
        invariant
            i <= FRAME_COUNT,
            forall|j: int| 0 <= j < i ==> frames()[j] != c,
        decreases FRAME_COUNT - i,
    {
        if frame_glyph(i) == c {
            return Some(i);
        }
        i = i + 1;
    }
    None
}

fn vacant(c: Option<char>) -> (r: bool)
    ensures
        r == is_vacant(c),
{
    match c {
        None => true,
        Some(ch) => ch == ' ',
    }
}

/// Updates the cell (x, y) as one step of a tick (see `step_cell`).
pub fn advance_cell(grid: &mut Grid, x: u16, y: u16, draw: u32, threshold: u32)
    requires
        old(grid).wf(),
    ensures
        final(grid).wf(),
        final(grid)@ == step_cell(old(grid)@, x as int, y as int, draw, threshold),
{
    let size = grid.size();
    let here = grid.get(x, y);
    if vacant(here) {
        if draw < threshold {
            grid.put(x, y, frame_glyph(0));
        }
    } else if let Some(c) = here {
        if let Some(i) = frame_index(c) {
            grid.erase(x, y);
            let above = safe_neighbor(size, (x, y), (0, -1));
            let taken = !vacant(grid.get(above.0, above.1));
            if i + 1 < FRAME_COUNT {
                grid.put(above.0, above.1, frame_glyph(i + 1));
            }
            if taken && i > FRAME_COUNT / 2 {
                let right = safe_neighbor(size, (x, y), (1, -1));
                grid.erase(right.0, right.1);
                let left = safe_neighbor(size, (x, y), (-1, -1));
                grid.erase(left.0, left.1);
            }
        }
    }
}

/// One tick of the simulation over the whole grid: each cell, row after row
/// and left to right, updated with its own draw (`draws[y * width + x]`).
pub fn advance(grid: &mut Grid, draws: &Vec<u32>, threshold: u32)
    requires
        old(grid).wf(),
        draws@.len() == old(grid)@.width * old(grid)@.height,
    ensures
        final(grid).wf(),
        final(grid)@ == advance_spec(old(grid)@, draws@, threshold),
{
    let ghost g0 = grid@;
    let (w, h) = grid.size();
    let mut y: u16 = 0;
    while y < h
        invariant
            y <= h,
            g0.wf(),
            g0.width == w,
            g0.height == h,
            draws@.len() == w * h,
            grid.wf(),
            grid@.width == w,
            grid@.height == h,
            grid@ == sweep_rows(g0, draws@, threshold, w as nat, y as nat),
        decreases h - y,
    {
        let ghost before_row = grid@;
        let mut x: u16 = 0;
        while x < w
            invariant
                x <= w,
                y < h,
                g0.wf(),
                g0.width == w,
                g0.height == h,
                draws@.len() == w * h,
                grid.wf(),
                grid@.width == w,
                grid@.height == h,
                before_row == sweep_rows(g0, draws@, threshold, w as nat, y as nat),
                grid@ == sweep_row(before_row, draws@, threshold, w as nat, y as int, x as nat),
            decreases w - x,
        {
            let _n = draws.len();
            proof {
                lemma_index_in_range(g0, x as int, y as int);
                assert(y as int * w as int <= g0.index(x as int, y as int));
            }
            let row: usize = y as usize * w as usize;
            let d = draws[row + x as usize];
            proof {
                lemma_step_keeps_shape(grid@, x as int, y as int, d, threshold);
            }
            advance_cell(grid, x, y, d, threshold);
            x = x + 1;
        }
        y = y + 1;
    }
}

} // verus!
