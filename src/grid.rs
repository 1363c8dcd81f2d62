use vstd::prelude::*;

verus! {

/// What a grid holds: its size and its cells in raster order (row after row),
/// each empty (`None`) or holding one glyph.
pub struct GridView {
    pub width: nat,
    pub height: nat,
    pub cells: Seq<Option<char>>,
}

impl GridView {
    pub open spec fn wf(self) -> bool {
        self.cells.len() == self.width * self.height
    }

    pub open spec fn in_bounds(self, x: int, y: int) -> bool {
        0 <= x < self.width && 0 <= y < self.height
    }

    /// Raster position of the cell (x, y).
    pub open spec fn index(self, x: int, y: int) -> int {
        y * self.width + x
    }

    /// The content of (x, y); outside the grid there is nothing.
    pub open spec fn get(self, x: int, y: int) -> Option<char> {
        if self.in_bounds(x, y) {
            self.cells[self.index(x, y)]
        } else {
            None
        }
    }

    /// The grid with (x, y) set to `v`; a cell outside the grid changes nothing.
    pub open spec fn set(self, x: int, y: int, v: Option<char>) -> GridView {
        if self.in_bounds(x, y) {
            GridView { cells: self.cells.update(self.index(x, y), v), ..self }
        } else {
            self
        }
    }

    pub open spec fn empty(width: nat, height: nat) -> GridView {
        GridView { width, height, cells: Seq::new(width * height, |i: int| None) }
    }
}

pub proof fn lemma_index_in_range(g: GridView, x: int, y: int)
    requires
        g.in_bounds(x, y),
    ensures
        0 <= g.index(x, y) < g.width * g.height,
{
    assert(0 <= y * g.width + x < g.width * g.height) by (nonlinear_arith)
        requires
            0 <= x < g.width,
            0 <= y < g.height,
    ;
}

pub proof fn lemma_index_injective(g: GridView, x1: int, y1: int, x2: int, y2: int)
    requires
        g.in_bounds(x1, y1),
        g.in_bounds(x2, y2),
        x1 != x2 || y1 != y2,
    ensures
        g.index(x1, y1) != g.index(x2, y2),
{
    if y1 == y2 {
    } else if y1 < y2 {
        assert(y1 * g.width + x1 < y2 * g.width + x2) by (nonlinear_arith)
            requires
                0 <= x1 < g.width,
                0 <= x2,
                y1 < y2,
        ;
    } else {
        assert(y2 * g.width + x2 < y1 * g.width + x1) by (nonlinear_arith)
            requires
                0 <= x2 < g.width,
                0 <= x1,
                y2 < y1,
        ;
    }
}

/// Reading a cell after setting one: the set cell holds the new value, any
/// other cell what it held before.
pub proof fn lemma_get_set(g: GridView, x: int, y: int, v: Option<char>, qx: int, qy: int)
    requires
        g.wf(),
    ensures
        g.set(x, y, v).wf(),
        g.set(x, y, v).width == g.width,
        g.set(x, y, v).height == g.height,
        g.set(x, y, v).get(qx, qy) == if g.in_bounds(x, y) && qx == x && qy == y {
            v
        } else {
            g.get(qx, qy)
        },
{
    if g.in_bounds(x, y) {
        lemma_index_in_range(g, x, y);
        if g.in_bounds(qx, qy) {
            lemma_index_in_range(g, qx, qy);
            if qx != x || qy != y {
                lemma_index_injective(g, x, y, qx, qy);
            }
        }
    }
}

/// A dense character grid, the surface that the effect draws on.
pub struct Grid {
    width: u16,
    height: u16,
    cells: Vec<Option<char>>,
}

impl View for Grid {
    type V = GridView;

    closed spec fn view(&self) -> GridView {
        GridView { width: self.width as nat, height: self.height as nat, cells: self.cells@ }
    }
}

impl Grid {
    pub open spec fn wf(&self) -> bool {
        self@.wf()
    }

    /// An empty grid of `width` x `height` cells.
    pub fn new(width: u16, height: u16) -> (r: Grid)
        ensures
            r.wf(),
            r@ == GridView::empty(width as nat, height as nat),
    {
        assert(width as int * height as int <= 0xffff * 0xffff) by (nonlinear_arith)
            requires
                width <= 0xffff,
                height <= 0xffff,
        ;
        let n: usize = width as usize * height as usize;
        let mut cells: Vec<Option<char>> = Vec::new();
        while cells.len() < n
            invariant
                cells.len() <= n,
                forall|i: int| 0 <= i < cells.len() ==> cells[i] is None,
            decreases n - cells.len(),
        {
            cells.push(None);
        }
        let r = Grid { width, height, cells };
        assert(r@.cells =~= GridView::empty(width as nat, height as nat).cells);
        r
    }

    pub fn width(&self) -> (r: u16)
        ensures
            r == self@.width,
    {
        self.width
    }

    pub fn height(&self) -> (r: u16)
        ensures
            r == self@.height,
    {
        self.height
    }

    /// (width, height)
    pub fn size(&self) -> (r: (u16, u16))
        ensures
            r.0 == self@.width,
            r.1 == self@.height,
    {
        (self.width, self.height)
    }

    fn index_of(&self, x: u16, y: u16) -> (r: usize)
        requires
            self.wf(),
            self@.in_bounds(x as int, y as int),
        ensures
            r == self@.index(x as int, y as int),
            r < self.cells@.len(),
    {
        let n = self.cells.len();
        proof {
            lemma_index_in_range(self@, x as int, y as int);
            assert(y as int * self.width as int <= self@.index(x as int, y as int));
        }
        let row: usize = y as usize * self.width as usize;
        row + x as usize
    }

    /// The content of (x, y): `None` where the cell is empty or outside the grid.
    pub fn get(&self, x: u16, y: u16) -> (r: Option<char>)
        requires
            self.wf(),
        ensures
            r == self@.get(x as int, y as int),
    {
        if x < self.width && y < self.height {
            let i = self.index_of(x, y);
            self.cells[i]
        } else {
            None
        }
    }

    /// Places `c` at (x, y); a cell outside the grid is left alone.
    pub fn put(&mut self, x: u16, y: u16, c: char)
        requires
            old(self).wf(),
        ensures
            final(self).wf(),
            final(self)@ == old(self)@.set(x as int, y as int, Some(c)),
    {
        self.set_cell(x, y, Some(c));
    }

    /// Empties (x, y); a cell outside the grid is left alone.
    pub fn erase(&mut self, x: u16, y: u16)
        requires
            old(self).wf(),
        ensures
            final(self).wf(),
            final(self)@ == old(self)@.set(x as int, y as int, None),
    {
        self.set_cell(x, y, None);
    }

    fn set_cell(&mut self, x: u16, y: u16, v: Option<char>)
        requires
            old(self).wf(),
        ensures
            final(self).wf(),
            final(self)@ == old(self)@.set(x as int, y as int, v),
    {
        if x < self.width && y < self.height {
            let i = self.index_of(x, y);
            self.cells.set(i, v);
            assert(self@.cells =~= old(self)@.set(x as int, y as int, v).cells);
        }
    }

    /// Takes on a new size: a grid that changes size starts over empty, one
    /// that keeps its size keeps its cells.
    pub fn resize(&mut self, width: u16, height: u16)
        requires
            old(self).wf(),
        ensures
            final(self).wf(),
            final(self)@ == if old(self)@.width == width && old(self)@.height == height {
                old(self)@
            } else {
                GridView::empty(width as nat, height as nat)
            },
    {
        if self.width != width || self.height != height {
            *self = Grid::new(width, height);
        }
    }
}

} // verus!
