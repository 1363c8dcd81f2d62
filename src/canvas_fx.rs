use vstd::prelude::*;
use crate::bubbles::{advance, advance_spec};
use crate::clock::{period_for, FrameClock};
use crate::controls::START_FPS;
use crate::draws::{stream_pos, stream_words, DrawStream};
use crate::grid::{Grid, GridView};
use crate::overlay::{draw_overlay, lemma_overlay_cell, overlay};

verus! {

/// The overlay text is redrawn on every tick whose count is a multiple of this.
pub const OVERLAY_EVERY: u64 = 4;

/// Spawn threshold of about 1%: a vacant cell gets a bubble when its uniform
/// 32-bit draw is below it.
pub const DEFAULT_SPAWN_THRESHOLD: u32 = 42_949_673;

/// `g` at the size (w, h): kept as it is when the size is the same, else an
/// empty grid of the new size.
pub open spec fn resized(g: GridView, w: nat, h: nat) -> GridView {
    if g.width == w && g.height == h {
        g
    } else {
        GridView::empty(w, h)
    }
}

/// The grid that tick number `ticks` simulates on: resized, with the overlay
/// text redrawn on every `OVERLAY_EVERY`-th tick.
pub open spec fn prepared(g: GridView, text: Seq<char>, ticks: u64, w: nat, h: nat) -> GridView {
    let r = resized(g, w, h);
    if ticks % OVERLAY_EVERY == 0 {
        overlay(r, text)
    } else {
        r
    }
}

/// The animated canvas: a clock that gates the ticks, the stream of draws
/// that decides where bubbles spawn, and the spawn threshold.
pub struct CanvasFX {
    pub clock: FrameClock,
    pub draws: DrawStream,
    pub threshold: u32,
}

impl CanvasFX {
    /// A canvas at time 0 and the starting rate, drawing from the stream of
    /// `seed`, with the default spawn threshold.
    pub fn new(seed: u64) -> (r: CanvasFX)
        ensures
            r.clock.last_us == 0,
            r.clock.ticks == 0,
            r.clock.period_us == period_for(START_FPS),
            r.draws.seed == seed,
            r.draws.cursor == 0,
            r.threshold == DEFAULT_SPAWN_THRESHOLD,
    {
        Self::with_threshold(seed, DEFAULT_SPAWN_THRESHOLD)
    }

    /// As `new`, with the spawn threshold `threshold`.
    pub fn with_threshold(seed: u64, threshold: u32) -> (r: CanvasFX)
        ensures
            r.clock.last_us == 0,
            r.clock.ticks == 0,
            r.clock.period_us == period_for(START_FPS),
            r.draws.seed == seed,
            r.draws.cursor == 0,
            r.threshold == threshold,
    {
        CanvasFX { clock: FrameClock::new(START_FPS), draws: DrawStream::new(seed), threshold }
    }

    /// One step of the bubbles over the whole grid, with the next
    /// width * height draws of the stream.
    pub fn simulate(&mut self, grid: &mut Grid)
        requires
            old(grid).wf(),
        ensures
            final(grid).wf(),
            final(grid)@ == advance_spec(
                old(grid)@,
                stream_words(
                    old(self).draws.seed,
                    old(self).draws.cursor,
                    old(grid)@.width * old(grid)@.height,
                ),
                old(self).threshold,
            ),
            final(self).draws.seed == old(self).draws.seed,
            final(self).draws.cursor == stream_pos(
                old(self).draws.cursor,
                (old(grid)@.width * old(grid)@.height) as int,
            ),
            final(self).clock == old(self).clock,
            final(self).threshold == old(self).threshold,
    {
        let (w, h) = grid.size();
        assert(w as int * h as int <= 0xffff * 0xffff) by (nonlinear_arith)
            requires
                w <= 0xffff,
                h <= 0xffff,
        ;
        let n: usize = w as usize * h as usize;
        let draws = self.draws.take(n);
        advance(grid, &draws, self.threshold);
    }

    /// Called by the host at `now_us` (microseconds since start), with the
    /// current rate and canvas size. Does nothing until the clock is due;
    /// then commits a tick: the grid takes the new size, the overlay `text`
    /// is redrawn on every `OVERLAY_EVERY`-th tick, and the bubbles move.
    pub fn on_tick(
        &mut self,
        grid: &mut Grid,
        text: &str,
        now_us: u64,
        fps: i32,
        width: u16,
        height: u16,
    ) -> (ticked: bool)
        requires
            old(grid).wf(),
        ensures
            final(grid).wf(),
            ticked == old(self).clock.is_due(now_us),
            !ticked ==> *final(self) == *old(self) && final(grid)@ == old(grid)@,
            ticked ==> ({
                let ticks = ((old(self).clock.ticks + 1) % 0x1_0000_0000_0000_0000) as u64;
                &&& final(self).clock.last_us == now_us
                &&& final(self).clock.period_us == period_for(fps)
                &&& final(self).clock.ticks == ticks
                &&& final(self).draws.seed == old(self).draws.seed
                &&& final(self).draws.cursor == stream_pos(
                    old(self).draws.cursor,
                    width * height,
                )
                &&& final(self).threshold == old(self).threshold
                &&& final(grid)@ == advance_spec(
                    prepared(old(grid)@, text@, ticks, width as nat, height as nat),
                    stream_words(old(self).draws.seed, old(self).draws.cursor, (width * height) as nat),
                    old(self).threshold,
                )
            }),
    {
        if !self.clock.poll(now_us, fps) {
            return false;
        }
        grid.resize(width, height);
        let ghost sized = grid@;
        if self.clock.ticks % OVERLAY_EVERY == 0 {
            draw_overlay(grid, text);
            proof {
                lemma_overlay_cell(sized, text@, text@.len(), 0, 0);
            }
        }
        self.simulate(grid);
        true
    }
}

} // verus!
