use vstd::prelude::*;
use crate::grid::{Grid, GridView, lemma_get_set};

verus! {

/// Where the cursor stands after the first `n` characters of `text`: a line
/// break goes to the start of the next row, any other character one column on.
pub open spec fn cursor_after(text: Seq<char>, n: nat) -> (int, int)
    decreases n,
{
    if n == 0 || n > text.len() {
        (0, 0)
    } else {
        let (c, r) = cursor_after(text, (n - 1) as nat);
        if text[n - 1] == '\n' {
            (0, r + 1)
        } else {
            (c + 1, r)
        }
    }
}

/// `g` after the first `n` characters of `text` are written from (0, 0): each
/// character other than a line break is placed at the cursor (cells outside
/// the grid are skipped).
pub open spec fn overlay_prefix(g: GridView, text: Seq<char>, n: nat) -> GridView
    decreases n,
{
    if n == 0 || n > text.len() {
        g
    } else {
        let prev = overlay_prefix(g, text, (n - 1) as nat);
        let (c, r) = cursor_after(text, (n - 1) as nat);
        if text[n - 1] == '\n' {
            prev
        } else {
            prev.set(c, r, Some(text[n - 1]))
        }
    }
}

/// `g` with all of `text` written on it from (0, 0).
pub open spec fn overlay(g: GridView, text: Seq<char>) -> GridView {
    overlay_prefix(g, text, text.len())
}

/// Cells that the first `n` characters of `text` write to.
pub open spec fn overlay_touches(w: nat, h: nat, text: Seq<char>, n: nat, x: int, y: int) -> bool
    decreases n,
{
    if n == 0 || n > text.len() {
        false
    } else {
        let (c, r) = cursor_after(text, (n - 1) as nat);
        overlay_touches(w, h, text, (n - 1) as nat, x, y) || (text[n - 1] != '\n' && c == x && r
            == y && 0 <= x < w && 0 <= y < h)
    }
}

/// The last character that the first `n` characters of `text` write at (x, y).
pub open spec fn overlay_glyph(text: Seq<char>, n: nat, x: int, y: int) -> char
    decreases n,
{
    if n == 0 || n > text.len() {
        ' '
    } else {
        let (c, r) = cursor_after(text, (n - 1) as nat);
        if text[n - 1] != '\n' && c == x && r == y {
            text[n - 1]
        } else {
            overlay_glyph(text, (n - 1) as nat, x, y)
        }
    }
}

/// The cells that an overlay writes depend on the text alone, and every other
/// cell keeps what it held.
pub proof fn lemma_overlay_cell(g: GridView, text: Seq<char>, n: nat, x: int, y: int)
    requires
        g.wf(),
        n <= text.len(),
    ensures
        overlay_prefix(g, text, n).wf(),
        overlay_prefix(g, text, n).width == g.width,
        overlay_prefix(g, text, n).height == g.height,
        overlay_prefix(g, text, n).get(x, y) == if overlay_touches(
            g.width,
            g.height,
            text,
            n,
            x,
            y,
        ) {
            Some(overlay_glyph(text, n, x, y))
        } else {
            g.get(x, y)
        },
    decreases n,
{
    if n > 0 {
        let prev = overlay_prefix(g, text, (n - 1) as nat);
        lemma_overlay_cell(g, text, (n - 1) as nat, x, y);
        let (c, r) = cursor_after(text, (n - 1) as nat);
        if text[n - 1] != '\n' {
            lemma_get_set(prev, c, r, Some(text[n - 1]), x, y);
        }
    }
}

/// Writing the same text twice leaves the grid as writing it once.
pub proof fn lemma_overlay_idempotent(g: GridView, text: Seq<char>)
    requires
        g.wf(),
    ensures
        overlay(overlay(g, text), text) == overlay(g, text),
{
    let once = overlay(g, text);
    let twice = overlay(once, text);
    lemma_overlay_cell(g, text, text.len(), 0, 0);
    lemma_overlay_cell(once, text, text.len(), 0, 0);
    assert forall|i: int| 0 <= i < once.cells.len() implies twice.cells[i] == once.cells[i] by {
        let w = g.width as int;
        let x = i % w;
        let y = i / w;
        assert(w > 0) by (nonlinear_arith)
            requires
                0 <= i < g.width * g.height,
                w == g.width,
        ;
        assert(0 <= x < w && 0 <= y < g.height && y * w + x == i) by (nonlinear_arith)
            requires
                0 <= i < g.width * g.height,
                w == g.width,
                w > 0,
                x == i % w,
                y == i / w,
        ;
        lemma_overlay_cell(g, text, text.len(), x, y);
        lemma_overlay_cell(once, text, text.len(), x, y);
    }
    assert(twice.cells =~= once.cells);
}

spec fn capped(v: int) -> int {
    if v < 0x10000 {
        v
    } else {
        0x10000
    }
}

/// Writes `text` onto `grid` from (0, 0): a line break moves to the start of
/// the next row, any other character is placed at the cursor and moves it one
/// column on. There is no wrapping; characters that fall outside the grid are
/// dropped.
pub fn draw_overlay(grid: &mut Grid, text: &str)
    requires
        old(grid).wf(),
    ensures
        final(grid).wf(),
        final(grid)@ == overlay(old(grid)@, text@),
{
    broadcast use vstd::string::axiom_spec_iter;

    let ghost g0 = grid@;
    let w = grid.width();
    let h = grid.height();
    let mut col: u32 = 0;
    let mut row: u32 = 0;
    for ch in it: text.chars()
        invariant
            g0.wf(),
            grid.wf(),
            grid@.width == w,
            grid@.height == h,
            it.seq() == text@,
            grid@ == overlay_prefix(g0, text@, it.index() as nat),
            col as int == capped(cursor_after(text@, it.index() as nat).0),
            row as int == capped(cursor_after(text@, it.index() as nat).1),
    {
        proof {
            lemma_overlay_cell(g0, text@, it.index() as nat, 0, 0);
        }
        if ch == '\n' {
            col = 0;
            if row < 0x10000 {
                row = row + 1;
            }
        } else {
            if col < w as u32 && row < h as u32 {
                grid.put(col as u16, row as u16, ch);
            }
            if col < 0x10000 {
                col = col + 1;
            }
        }
    }
}

} // verus!
