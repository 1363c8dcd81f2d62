use vstd::prelude::*;
use crate::bubbles::{
    advance_spec, frames, lemma_step_keeps_shape, step_cell, sweep_row, sweep_rows,
};
use crate::draws::{chacha8_word, stream_words};
use crate::grid::{GridView, lemma_get_set, lemma_index_in_range, lemma_index_injective};

verus! {

/// What a tick on an empty grid `w` cells wide leaves at (x, y) once the first
/// `k` cells in raster order are done: a new bubble where the cell's draw fell
/// below `threshold`, nothing elsewhere.
pub open spec fn spawned(draws: Seq<u32>, threshold: u32, w: nat, k: int, x: int, y: int) -> Option<
    char,
> {
    if y * w + x < k && draws[y * w + x] < threshold {
        Some(frames()[0])
    } else {
        None
    }
}

pub open spec fn matches_spawned(g: GridView, draws: Seq<u32>, threshold: u32, k: int) -> bool {
    forall|qx: int, qy: int|
        g.in_bounds(qx, qy) ==> #[trigger] g.get(qx, qy) == spawned(
            draws,
            threshold,
            g.width,
            k,
            qx,
            qy,
        )
}

proof fn lemma_row_spawns(g: GridView, draws: Seq<u32>, threshold: u32, y: int, n: nat)
    requires
        g.wf(),
        0 <= y < g.height,
        n <= g.width,
        matches_spawned(g, draws, threshold, y * g.width),
    ensures
        sweep_row(g, draws, threshold, g.width, y, n).wf(),
        sweep_row(g, draws, threshold, g.width, y, n).width == g.width,
        sweep_row(g, draws, threshold, g.width, y, n).height == g.height,
        matches_spawned(sweep_row(g, draws, threshold, g.width, y, n), draws, threshold, y * g.width + n),
    decreases n,
{
    if n > 0 {
        let x = n - 1;
        let w = g.width;
        let k = y * w + x;
        lemma_row_spawns(g, draws, threshold, y, (n - 1) as nat);
        let prev = sweep_row(g, draws, threshold, w, y, (n - 1) as nat);
        let d = draws[k];
        lemma_step_keeps_shape(prev, x, y, d, threshold);
        let next = step_cell(prev, x, y, d, threshold);
        assert(prev.get(x, y) is None);
        assert forall|qx: int, qy: int| next.in_bounds(qx, qy) implies #[trigger] next.get(qx, qy)
            == spawned(draws, threshold, w, k + 1, qx, qy) by {
            lemma_get_set(prev, x, y, Some(frames()[0]), qx, qy);
            assert(prev.get(qx, qy) == spawned(draws, threshold, w, k, qx, qy));
            if qx != x || qy != y {
                lemma_index_injective(prev, x, y, qx, qy);
            }
        }
    }
}

proof fn lemma_rows_spawn(g: GridView, draws: Seq<u32>, threshold: u32, rows: nat)
    requires
        g == GridView::empty(g.width, g.height),
        rows <= g.height,
    ensures
        sweep_rows(g, draws, threshold, g.width, rows).wf(),
        sweep_rows(g, draws, threshold, g.width, rows).width == g.width,
        sweep_rows(g, draws, threshold, g.width, rows).height == g.height,
        matches_spawned(sweep_rows(g, draws, threshold, g.width, rows), draws, threshold, (rows * g.width) as int),
    decreases rows,
{
    let w = g.width;
    if rows == 0 {
        assert forall|qx: int, qy: int| g.in_bounds(qx, qy) implies #[trigger] g.get(qx, qy)
            == spawned(draws, threshold, w, 0, qx, qy) by {
            lemma_index_in_range(g, qx, qy);
        }
    } else {
        let y = rows - 1;
        lemma_rows_spawn(g, draws, threshold, y as nat);
        let prev = sweep_rows(g, draws, threshold, w, y as nat);
        assert(y * w + w == rows * w) by (nonlinear_arith)
            requires
                y == rows - 1,
        ;
        lemma_row_spawns(prev, draws, threshold, y, w);
    }
}

/// On an empty grid, one tick leaves a new bubble on exactly the cells whose
/// draw fell below the threshold, and every other cell empty.
pub proof fn lemma_first_tick_spawns(
    width: nat,
    height: nat,
    draws: Seq<u32>,
    threshold: u32,
    x: int,
    y: int,
)
    requires
        draws.len() == width * height,
        0 <= x < width,
        0 <= y < height,
    ensures
        advance_spec(GridView::empty(width, height), draws, threshold).get(x, y) == if draws[y
            * width + x] < threshold {
            Some(frames()[0])
        } else {
            None
        },
{
    let g = GridView::empty(width, height);
    lemma_rows_spawn(g, draws, threshold, height);
    let r = advance_spec(g, draws, threshold);
    assert(r.get(x, y) == spawned(draws, threshold, width, (height * width) as int, x, y));
    lemma_index_in_range(g, x, y);
    assert(width * height == height * width) by (nonlinear_arith);
}

/// Seeded runs are reproducible: on an empty grid, the first tick of a
/// stream seeded with `seed` spawns bubbles on exactly the cells whose word of
/// that stream, in raster order, is below the threshold. The outcome depends
/// on the seed, the grid size and the threshold alone.
pub proof fn lemma_seeded_spawns_reproducible(
    seed: u64,
    width: nat,
    height: nat,
    threshold: u32,
    x: int,
    y: int,
)
    requires
        width <= 0xffff,
        height <= 0xffff,
        0 <= x < width,
        0 <= y < height,
    ensures
        advance_spec(
            GridView::empty(width, height),
            stream_words(seed, 0, width * height),
            threshold,
        ).get(x, y) == if chacha8_word(seed, (y * width + x) as u64) < threshold {
            Some(frames()[0])
        } else {
            None
        },
{
    let g = GridView::empty(width, height);
    lemma_index_in_range(g, x, y);
    assert(width * height <= 0xffff * 0xffff) by (nonlinear_arith)
        requires
            width <= 0xffff,
            height <= 0xffff,
    ;
    lemma_first_tick_spawns(width, height, stream_words(seed, 0, width * height), threshold, x, y);
}

} // verus!
