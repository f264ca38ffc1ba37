//! The playing field: a fixed `NUM_ROWS x NUM_COLS` matrix of cells, with
//! occupancy queries, row-completeness queries, cell writes, and removal of
//! full rows with downward compaction.
use vstd::prelude::*;

use crate::tetris::TBlockColor;
use crate::NUM_COLS;
use crate::NUM_ROWS;

verus! {

/// A coordinate lies inside the playing field.
pub open spec fn in_bounds(x: int, y: int) -> bool {
    0 <= x < NUM_COLS && 0 <= y < NUM_ROWS
}

/// The cell at (x, y) of an in-bounds coordinate is not `Empty`.
pub open spec fn occupied_at(g: Seq<Seq<TBlockColor>>, x: int, y: int) -> bool {
    g[y][x] != TBlockColor::Empty
}

/// The single boundary-plus-occupancy predicate that gates every transform:
/// a coordinate collides when it leaves the field or lands on an occupied cell.
pub open spec fn colliding_at(g: Seq<Seq<TBlockColor>>, x: int, y: int) -> bool {
    !in_bounds(x, y) || occupied_at(g, x, y)
}

/// The field holds `NUM_ROWS` rows of `NUM_COLS` cells each.
pub open spec fn grid_wf(g: Seq<Seq<TBlockColor>>) -> bool {
    &&& g.len() == NUM_ROWS
    &&& forall|y: int| 0 <= y < g.len() ==> (#[trigger] g[y]).len() == NUM_COLS
}

/// Every cell of the row is occupied.
pub open spec fn row_full(r: Seq<TBlockColor>) -> bool {
    forall|x: int| 0 <= x < r.len() ==> #[trigger] r[x] != TBlockColor::Empty
}

/// A row of `NUM_COLS` empty cells.
pub open spec fn empty_row() -> Seq<TBlockColor> {
    Seq::new(NUM_COLS as nat, |x: int| TBlockColor::Empty)
}

/// `n` empty rows.
pub open spec fn empty_rows(n: int) -> Seq<Seq<TBlockColor>> {
    Seq::new(n as nat, |y: int| empty_row())
}

/// The grid of all empty rows.
pub open spec fn empty_grid() -> Seq<Seq<TBlockColor>> {
    empty_rows(NUM_ROWS as int)
}

/// The grid with the cell at (x, y) overwritten by `c`.
pub open spec fn place(g: Seq<Seq<TBlockColor>>, x: int, y: int, c: TBlockColor) -> Seq<
    Seq<TBlockColor>,
> {
    g.update(y, g[y].update(x, c))
}

/// The rows among the first `i` of `g` that are not full, in order.
pub open spec fn kept_upto(g: Seq<Seq<TBlockColor>>, i: int) -> Seq<Seq<TBlockColor>>
    decreases i,
{
    if i <= 0 {
        Seq::empty()
    } else if row_full(g[i - 1]) {
        kept_upto(g, i - 1)
    } else {
        kept_upto(g, i - 1).push(g[i - 1])
    }
}

/// The rows of `g` that are not full, in their original top-to-bottom order.
pub open spec fn kept_rows(g: Seq<Seq<TBlockColor>>) -> Seq<Seq<TBlockColor>> {
    kept_upto(g, g.len() as int)
}

/// How many of the first `i` rows of `g` are full.
pub open spec fn full_count_upto(g: Seq<Seq<TBlockColor>>, i: int) -> int
    decreases i,
{
    if i <= 0 {
        0
    } else {
        full_count_upto(g, i - 1) + if row_full(g[i - 1]) {
            1int
        } else {
            0int
        }
    }
}

/// How many rows of `g` are full.
pub open spec fn full_count(g: Seq<Seq<TBlockColor>>) -> int {
    full_count_upto(g, g.len() as int)
}

/// The grid after removing every full row: the surviving rows keep their
/// relative order and sink to the bottom, and the vacated top rows are empty.
pub open spec fn compacted(g: Seq<Seq<TBlockColor>>) -> Seq<Seq<TBlockColor>> {
    empty_rows(g.len() - kept_rows(g).len()) + kept_rows(g)
}

/// Within the first `i` rows, the non-full and the full rows together account
/// for all `i`.
pub proof fn lemma_row_partition(g: Seq<Seq<TBlockColor>>, i: int)
    requires
        0 <= i,
    ensures
        kept_upto(g, i).len() + full_count_upto(g, i) == i,
        0 <= full_count_upto(g, i),
        kept_upto(g, i).len() <= i,
    decreases i,
{
    if i > 0 {
        lemma_row_partition(g, i - 1);
    }
}

/// The fixed-size occupancy matrix of the playing field.
pub struct Grid {
    cells: Vec<Vec<TBlockColor>>,
}

impl View for Grid {
    type V = Seq<Seq<TBlockColor>>;

    closed spec fn view(&self) -> Seq<Seq<TBlockColor>> {
        Seq::new(self.cells@.len(), |y: int| self.cells@[y]@)
    }
}

impl Grid {
    /// The field's dimensions never change.
    pub open spec fn wf(&self) -> bool {
        grid_wf(self@)
    }

    /// A fresh, fully empty field.
    pub fn new() -> (r: Grid)
        ensures
            r.wf(),
            r@ == empty_grid(),
    {
        let mut cells: Vec<Vec<TBlockColor>> = Vec::new();
        let mut y: usize = 0;
        while y < NUM_ROWS
            invariant
                y <= NUM_ROWS,
                cells@.len() == y,
                forall|j: int| 0 <= j < y ==> #[trigger] cells@[j]@ == empty_row(),
            decreases NUM_ROWS - y,
        {
            cells.push(Self::empty_row_vec());
            y = y + 1;
        }
        let r = Grid { cells };
        proof {
            assert(r@ =~= empty_grid());
        }
        r
    }

    /// One row of `NUM_COLS` empty cells.
    fn empty_row_vec() -> (r: Vec<TBlockColor>)
        ensures
            r@ == empty_row(),
    {
        let mut row: Vec<TBlockColor> = Vec::new();
        let mut x: usize = 0;
        while x < NUM_COLS
            invariant
                x <= NUM_COLS,
                row@.len() == x,
                forall|j: int| 0 <= j < x ==> #[trigger] row@[j] == TBlockColor::Empty,
            decreases NUM_COLS - x,
        {
            row.push(TBlockColor::Empty);
            x = x + 1;
        }
        proof {
            assert(row@ =~= empty_row());
        }
        row
    }

    /// The color held by an in-bounds cell.
    pub fn cell(&self, x: usize, y: usize) -> (r: TBlockColor)
        requires
            self.wf(),
            x < NUM_COLS,
            y < NUM_ROWS,
        ensures
            r == self@[y as int][x as int],
    {
        proof {
            assert(self@[y as int].len() == NUM_COLS);
        }
        self.cells[y][x]
    }

    /// Whether the in-bounds cell at (x, y) is occupied. Callers bounds-check
    /// first; out-of-range coordinates are a boundary violation, answered by
    /// the collision predicate, never by this query.
    pub fn occupied(&self, x: usize, y: usize) -> (r: bool)
        requires
            self.wf(),
            x < NUM_COLS,
            y < NUM_ROWS,
        ensures
            r == occupied_at(self@, x as int, y as int),
    {
        proof {
            assert(self@[y as int].len() == NUM_COLS);
        }
        match self.cells[y][x] {
            TBlockColor::Empty => false,
            _ => true,
        }
    }

    /// Writes a non-empty cell; used only when locking a piece.
    pub fn set(&mut self, x: usize, y: usize, color: TBlockColor)
        requires
            old(self).wf(),
            x < NUM_COLS,
            y < NUM_ROWS,
            color != TBlockColor::Empty,
        ensures
            final(self).wf(),
            final(self)@ == place(old(self)@, x as int, y as int, color),
    {
        let ghost g0 = self@;
        proof {
            assert(self@[y as int].len() == NUM_COLS);
        }
        self.cells[y][x] = color;
        proof {
            assert(self@ =~= place(g0, x as int, y as int, color));
        }
    }

    /// Whether every cell of row `y` is occupied.
    pub fn row_is_full(&self, y: usize) -> (r: bool)
        requires
            self.wf(),
            y < NUM_ROWS,
        ensures
            r == row_full(self@[y as int]),
    {
        Self::row_full_check(&self.cells[y])
    }

    /// Whether every cell of the row is occupied.
    fn row_full_check(row: &Vec<TBlockColor>) -> (r: bool)
        ensures
            r == row_full(row@),
    {
        let mut x: usize = 0;
        while x < row.len()
            invariant
                x <= row@.len(),
                forall|j: int| 0 <= j < x ==> #[trigger] row@[j] != TBlockColor::Empty,
            decreases row@.len() - x,
        {
            match row[x] {
                TBlockColor::Empty => {
                    return false;
                },
                _ => {},
            }
            x = x + 1;
        }
        true
    }

    /// An exact copy of a row.
    fn copy_row(row: &Vec<TBlockColor>) -> (r: Vec<TBlockColor>)
        ensures
            r@ == row@,
    {
        let mut out: Vec<TBlockColor> = Vec::new();
        let mut x: usize = 0;
        while x < row.len()
            invariant
                x <= row@.len(),
                out@.len() == x,
                forall|j: int| 0 <= j < x ==> #[trigger] out@[j] == row@[j],
            decreases row@.len() - x,
        {
            out.push(row[x]);
            x = x + 1;
        }
        proof {
            assert(out@ =~= row@);
        }
        out
    }

    /// Removes every full row in one compaction pass: the surviving rows keep
    /// their top-to-bottom order and sink to the bottom, the vacated top rows
    /// are filled with empty cells, and the number of removed rows is returned.
    pub fn clear_and_compact(&mut self) -> (n: usize)
        requires
            old(self).wf(),
        ensures
            final(self).wf(),
            final(self)@ == compacted(old(self)@),
            n as int == full_count(old(self)@),
    {
        let ghost g0 = self@;
        let mut kept: Vec<Vec<TBlockColor>> = Vec::new();
        let mut full: usize = 0;
        let mut y: usize = 0;
        while y < NUM_ROWS
            invariant
                grid_wf(g0),
                self@ == g0,
                self.wf(),
                y <= NUM_ROWS,
                full as int == full_count_upto(g0, y as int),
                full <= y,
                Seq::new(kept@.len(), |i: int| kept@[i]@) == kept_upto(g0, y as int),
                forall|j: int| 0 <= j < kept@.len() ==> (#[trigger] kept@[j])@.len() == NUM_COLS,
            decreases NUM_ROWS - y,
        {
            if Self::row_full_check(&self.cells[y]) {
                full = full + 1;
            } else {
                kept.push(Self::copy_row(&self.cells[y]));
            }
            proof {
                assert(Seq::new(kept@.len(), |i: int| kept@[i]@) =~= kept_upto(
                    g0,
                    y as int + 1,
                ));
            }
            y = y + 1;
        }
        proof {
            lemma_row_partition(g0, NUM_ROWS as int);
        }
        let mut cells: Vec<Vec<TBlockColor>> = Vec::new();
        let mut k: usize = 0;
        while k < full
            invariant
                k <= full,
                cells@.len() == k,
                forall|j: int| 0 <= j < k ==> #[trigger] cells@[j]@ == empty_row(),
            decreases full - k,
        {
            cells.push(Self::empty_row_vec());
            k = k + 1;
        }
        cells.append(&mut kept);
        self.cells = cells;
        proof {
            assert(self@ =~= compacted(g0));
        }
        full
    }
}

} // verus!
