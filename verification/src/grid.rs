//! The grid of cell colours: a square two-dimensional array of colour
//! indices, every cell starting at the unpainted sentinel.

use vstd::prelude::*;

verus! {

/// The colour index stored in a cell that no step has painted yet. It
/// compares unequal to every valid colour index, since a rule can have at
/// most `usize::MAX` entries and valid indices lie strictly below the rule
/// length.
pub const UNPAINTED: usize = usize::MAX;

/// One row of cells; each cell holds a colour index or `UNPAINTED`.
pub struct Row {
    pub cells: Vec<usize>,
}

impl View for Row {
    type V = Seq<usize>;

    open spec fn view(&self) -> Seq<usize> {
        self.cells@
    }
}

impl Row {
    /// A row of `num_cells` cells, each holding `clr_idx`.
    pub fn new(num_cells: usize, clr_idx: usize) -> (r: Row)
        ensures
            r@.len() == num_cells,
            forall|i: int| 0 <= i < num_cells ==> r@[i] == clr_idx,
    {
        let mut r = Row { cells: Vec::new() };
        r.cells.resize(num_cells, clr_idx);
        r
    }
}

/// The state of every cell, encoded as a colour index in `[0, n)` where the
/// rule has `n` turns, or as `UNPAINTED`.
pub struct Grid {
    pub rows: Vec<Row>,
}

impl View for Grid {
    type V = Seq<Seq<usize>>;

    open spec fn view(&self) -> Seq<Seq<usize>> {
        self.rows@.map(|i: int, r: Row| r@)
    }
}

impl Grid {
    /// Every row is as long as the grid is tall.
    pub open spec fn is_square(&self) -> bool {
        forall|y: int| 0 <= y < self@.len() ==> (#[trigger] self@[y]).len() == self@.len()
    }

    /// A grid of `num_rows` rows of `num_cols` cells, each holding `clr_idx`.
    pub fn new(num_rows: usize, num_cols: usize, clr_idx: usize) -> (g: Grid)
        ensures
            g@.len() == num_rows,
            forall|y: int| 0 <= y < num_rows ==> (#[trigger] g@[y]).len() == num_cols,
            forall|y: int, x: int|
                0 <= y < num_rows && 0 <= x < num_cols ==> #[trigger] g@[y][x] == clr_idx,
    {
        let mut g = Grid { rows: Vec::with_capacity(num_rows) };
        while g.rows.len() != num_rows
            invariant
                g.rows@.len() <= num_rows,
                forall|y: int| 0 <= y < g.rows@.len() ==> (#[trigger] g.rows@[y])@.len() == num_cols,
                forall|y: int, x: int|
                    0 <= y < g.rows@.len() && 0 <= x < num_cols
                        ==> #[trigger] g.rows@[y]@[x] == clr_idx,
            decreases num_rows - g.rows@.len(),
        {
            g.rows.push(Row::new(num_cols, clr_idx));
        }
        proof {
            assert forall|y: int| 0 <= y < num_rows implies (#[trigger] g@[y]).len() == num_cols by {
                assert(g@[y] == g.rows@[y]@);
            }
            assert forall|y: int, x: int|
                0 <= y < num_rows && 0 <= x < num_cols implies #[trigger] g@[y][x] == clr_idx by {
                assert(g@[y] == g.rows@[y]@);
            }
        }
        g
    }

    /// The side length of the grid.
    pub fn dim(&self) -> (d: usize)
        ensures
            d == self@.len(),
    {
        self.rows.len()
    }

    /// The colour index currently held at `(x, y)`.
    pub fn get(&self, x: usize, y: usize) -> (c: usize)
        requires
            y < self@.len(),
            x < self@[y as int].len(),
        ensures
            c == self@[y as int][x as int],
    {
        self.rows[y].cells[x]
    }

    /// Repaint the cell at `(x, y)` with `clr_idx`, leaving every other cell
    /// unchanged.
    pub fn set(&mut self, x: usize, y: usize, clr_idx: usize)
        requires
            y < old(self)@.len(),
            x < old(self)@[y as int].len(),
        ensures
            final(self)@ == old(self)@.update(
                y as int,
                old(self)@[y as int].update(x as int, clr_idx),
            ),
    {
        let row: &mut Row = &mut self.rows[y];
        row.cells[x] = clr_idx;
        proof {
            assert(self@ =~~= old(self)@.update(
                y as int,
                old(self)@[y as int].update(x as int, clr_idx),
            ));
        }
    }
}

} // verus!
