//! The rectangle of cells a screen shows, with one dirty flag per row.

use vstd::prelude::*;
use vstd::string::StringExecFns;

use crate::cell::{blank_cell, Cell, CellView};
use crate::text::{decimal, push_decimal};

verus! {

/// A row of `width` blank cells.
pub open spec fn blank_row(width: int) -> Seq<CellView> {
    Seq::new(width as nat, |x: int| blank_cell())
}

/// The views of the cells of a row.
pub open spec fn row_view(cells: Seq<Cell>) -> Seq<CellView> {
    Seq::new(cells.len(), |x: int| cells[x]@)
}

/// A grid as contracts see it: `height` rows of `width` cells each, and for
/// each row whether it changed since the flags were last cleared.
pub struct GridView {
    pub width: int,
    pub height: int,
    pub rows: Seq<Seq<CellView>>,
    pub dirty: Seq<bool>,
}

impl GridView {
    pub open spec fn wf(self) -> bool {
        &&& 0 <= self.width
        &&& 0 <= self.height
        &&& self.rows.len() == self.height
        &&& self.dirty.len() == self.height
        &&& forall|y: int| 0 <= y < self.height ==> (#[trigger] self.rows[y]).len() == self.width
    }

    /// Whether column `x` of row `y` lies on the grid.
    pub open spec fn contains(self, x: int, y: int) -> bool {
        0 <= x < self.width && 0 <= y < self.height
    }

    /// A grid of blank cells with every row dirty.
    pub open spec fn blank(width: int, height: int) -> GridView {
        GridView {
            width,
            height,
            rows: Seq::new(height as nat, |y: int| blank_row(width)),
            dirty: Seq::new(height as nat, |y: int| true),
        }
    }

    /// The grid with row `y` marked dirty.
    pub open spec fn touch(self, y: int) -> GridView {
        GridView { dirty: self.dirty.update(y, true), ..self }
    }

    /// The grid with `cell` at column `x` of row `y`, and that row dirty.
    pub open spec fn set(self, x: int, y: int, cell: CellView) -> GridView {
        GridView {
            rows: self.rows.update(y, self.rows[y].update(x, cell)),
            dirty: self.dirty.update(y, true),
            ..self
        }
    }

    /// The grid with `row` in place of row `y`, and that row dirty.
    pub open spec fn with_row(self, y: int, row: Seq<CellView>) -> GridView {
        GridView { rows: self.rows.update(y, row), dirty: self.dirty.update(y, true), ..self }
    }

    /// The grid with every row dirty.
    pub open spec fn all_dirty(self) -> GridView {
        GridView { dirty: Seq::new(self.height as nat, |y: int| true), ..self }
    }

    /// The grid with no row dirty.
    pub open spec fn all_clean(self) -> GridView {
        GridView { dirty: Seq::new(self.height as nat, |y: int| false), ..self }
    }

    /// A grid of the new size that keeps every cell of the old one that
    /// still lies on it, has blank cells elsewhere, and is dirty throughout.
    pub open spec fn resized(self, width: int, height: int) -> GridView {
        GridView {
            width,
            height,
            rows: Seq::new(
                height as nat,
                |y: int|
                    Seq::new(
                        width as nat,
                        |x: int|
                            if x < self.width && y < self.height {
                                self.rows[y][x]
                            } else {
                                blank_cell()
                            },
                    ),
            ),
            dirty: Seq::new(height as nat, |y: int| true),
        }
    }

    /// Row `y` with the cells of columns `from..to` blank.
    pub open spec fn row_erased(self, y: int, from: int, to: int) -> Seq<CellView> {
        Seq::new(
            self.width as nat,
            |x: int|
                if from <= x < to {
                    blank_cell()
                } else {
                    self.rows[y][x]
                },
        )
    }

    /// The grid with columns `from..to` of row `y` blank, and that row dirty.
    pub open spec fn erase_in_row(self, y: int, from: int, to: int) -> GridView {
        self.with_row(y, self.row_erased(y, from, to))
    }

    /// The grid with the rows `from..to` blank and dirty.
    pub open spec fn erase_rows(self, from: int, to: int) -> GridView {
        GridView {
            rows: Seq::new(
                self.height as nat,
                |y: int|
                    if from <= y < to {
                        blank_row(self.width)
                    } else {
                        self.rows[y]
                    },
            ),
            dirty: Seq::new(
                self.height as nat,
                |y: int|
                    if from <= y < to {
                        true
                    } else {
                        self.dirty[y]
                    },
            ),
            ..self
        }
    }

    /// The grid after the rows `top..=bottom` moved up by `n`: the first `n`
    /// of them are gone, `n` blank rows fill the end of the range, and every
    /// row of the range is dirty.
    pub open spec fn shift_up(self, top: int, bottom: int, n: int) -> GridView {
        GridView {
            rows: Seq::new(
                self.height as nat,
                |y: int|
                    if top <= y <= bottom {
                        if y + n <= bottom {
                            self.rows[y + n]
                        } else {
                            blank_row(self.width)
                        }
                    } else {
                        self.rows[y]
                    },
            ),
            dirty: Seq::new(
                self.height as nat,
                |y: int|
                    if top <= y <= bottom {
                        true
                    } else {
                        self.dirty[y]
                    },
            ),
            ..self
        }
    }

    /// The grid after the rows `top..=bottom` moved down by `n`: the last `n`
    /// of them are gone, `n` blank rows fill the start of the range, and
    /// every row of the range is dirty.
    pub open spec fn shift_down(self, top: int, bottom: int, n: int) -> GridView {
        GridView {
            rows: Seq::new(
                self.height as nat,
                |y: int|
                    if top <= y <= bottom {
                        if y - n >= top {
                            self.rows[y - n]
                        } else {
                            blank_row(self.width)
                        }
                    } else {
                        self.rows[y]
                    },
            ),
            dirty: Seq::new(
                self.height as nat,
                |y: int|
                    if top <= y <= bottom {
                        true
                    } else {
                        self.dirty[y]
                    },
            ),
            ..self
        }
    }

    /// Row `y` after `n` blank cells were inserted at column `x`: the cells
    /// from `x` on moved right by `n`, and those pushed past the edge are
    /// gone.
    pub open spec fn row_with_insertion(self, x: int, y: int, n: int) -> Seq<CellView> {
        Seq::new(
            self.width as nat,
            |k: int|
                if k < x {
                    self.rows[y][k]
                } else if k < x + n {
                    blank_cell()
                } else {
                    self.rows[y][k - n]
                },
        )
    }

    /// Row `y` after `n` cells were deleted at column `x`: the cells behind
    /// them moved left by `n`, and blank cells fill the end of the row.
    pub open spec fn row_with_deletion(self, x: int, y: int, n: int) -> Seq<CellView> {
        Seq::new(
            self.width as nat,
            |k: int|
                if k < x {
                    self.rows[y][k]
                } else if k + n < self.width {
                    self.rows[y][k + n]
                } else {
                    blank_cell()
                },
        )
    }

    pub open spec fn insert_cells(self, x: int, y: int, n: int) -> GridView {
        self.with_row(y, self.row_with_insertion(x, y, n))
    }

    pub open spec fn delete_cells(self, x: int, y: int, n: int) -> GridView {
        self.with_row(y, self.row_with_deletion(x, y, n))
    }
}

/// Why a cell could not be written.
#[derive(Debug, Clone, Copy, PartialEq, Eq, Structural)]
pub enum GridError {
    /// The position lies outside the grid.
    OutOfBounds { x: usize, y: usize },
}

/// The text of the message for a position outside the grid.
pub open spec fn out_of_bounds_message(x: usize, y: usize) -> Seq<char> {
    "Position out of bounds: ("@ + decimal(x as nat) + ", "@ + decimal(y as nat) + ")"@
}

impl GridError {
    /// The error in words.
    pub fn message(&self) -> (s: String)
        ensures
            match *self {
                GridError::OutOfBounds { x, y } => s@ == out_of_bounds_message(x, y),
            },
    {
        match *self {
            GridError::OutOfBounds { x, y } => {
                let mut s = String::from_str("Position out of bounds: (");
                push_decimal(&mut s, x as u64);
                s.append(", ");
                push_decimal(&mut s, y as u64);
                s.append(")");
                assert(s@ =~= out_of_bounds_message(x, y));
                s
            },
        }
    }
}

/// A rectangle of cells in row-major order, with a dirty flag per row.
#[derive(Debug)]
pub struct Grid {
    cells: Vec<Cell>,
    dirty_rows: Vec<bool>,
    width: usize,
    height: usize,
}

proof fn lemma_index_in_range(x: int, y: int, width: int, height: int)
    requires
        0 <= x < width,
        0 <= y < height,
    ensures
        0 <= y * width <= y * width + x < width * height,
        y * width + width <= width * height,
{
    assert(y * width >= 0) by (nonlinear_arith)
        requires
            y >= 0,
            width > 0,
    ;
    assert(y * width + width <= width * height) by (nonlinear_arith)
        requires
            0 <= y < height,
            width > 0,
    ;
}

proof fn lemma_index_unique(x1: int, y1: int, x2: int, y2: int, width: int)
    requires
        0 <= x1 < width,
        0 <= x2 < width,
        0 <= y1,
        0 <= y2,
        y1 * width + x1 == y2 * width + x2,
    ensures
        x1 == x2,
        y1 == y2,
{
    if y1 < y2 {
        assert(y1 * width + width <= y2 * width) by (nonlinear_arith)
            requires
                y1 < y2,
                width > 0,
        ;
    } else if y2 < y1 {
        assert(y2 * width + width <= y1 * width) by (nonlinear_arith)
            requires
                y2 < y1,
                width > 0,
        ;
    }
}

/// The rows that cells stored in row-major order stand for.
pub closed spec fn rows_of(cells: Seq<Cell>, width: int, height: int) -> Seq<Seq<CellView>> {
    Seq::new(height as nat, |y: int| Seq::new(width as nat, |x: int| cells[y * width + x]@))
}

/// Replacing the cell of one position changes that position of the rows and
/// nothing else.
proof fn lemma_cell_replaced(cells: Seq<Cell>, width: int, height: int, x: int, y: int, cell: Cell)
    requires
        cells.len() == width * height,
        0 <= x < width,
        0 <= y < height,
    ensures
        0 <= y * width + x < cells.len(),
        rows_of(cells.update(y * width + x, cell), width, height) == rows_of(
            cells,
            width,
            height,
        ).update(y, rows_of(cells, width, height)[y].update(x, cell@)),
{
    lemma_index_in_range(x, y, width, height);
    let before = rows_of(cells, width, height);
    let after = rows_of(cells.update(y * width + x, cell), width, height);
    let expected = before.update(y, before[y].update(x, cell@));
    assert forall|y2: int| 0 <= y2 < height implies #[trigger] after[y2] =~= expected[y2] by {
        assert forall|x2: int| 0 <= x2 < width implies after[y2][x2] == expected[y2][x2] by {
            lemma_index_in_range(x2, y2, width, height);
            if y2 * width + x2 == y * width + x {
                lemma_index_unique(x2, y2, x, y, width);
            }
        }
    }
    assert(after =~= expected);
}

impl View for Grid {
    type V = GridView;

    closed spec fn view(&self) -> GridView {
        GridView {
            width: self.width as int,
            height: self.height as int,
            rows: rows_of(self.cells@, self.width as int, self.height as int),
            dirty: self.dirty_rows@,
        }
    }
}

impl Clone for Grid {
    fn clone(&self) -> (g: Self)
        ensures
            self.wf() ==> g.wf() && g@ == self@,
    {
        let cells = self.cells.clone();
        let dirty_rows = self.dirty_rows.clone();
        let g = Grid { cells, dirty_rows, width: self.width, height: self.height };
        proof {
            if self.wf() {
                assert(g.dirty_rows@ =~= self.dirty_rows@);
                assert forall|i: int| 0 <= i < self.cells.len() implies g.cells@[i]@
                    == self.cells@[i]@ by {
                    assert(cloned(self.cells@[i], g.cells@[i]));
                    lemma_cell_clone(self.cells@[i], g.cells@[i]);
                }
                assert forall|y: int| 0 <= y < self.height implies #[trigger] g@.rows[y]
                    =~= self@.rows[y] by {
                    assert forall|x: int| 0 <= x < self.width implies g@.rows[y][x]
                        == self@.rows[y][x] by {
                        lemma_index_in_range(x, y, self.width as int, self.height as int);
                    }
                }
                assert(g@.rows =~= self@.rows);
            }
        }
        g
    }
}

/// What `Cell::clone` promises, for a pair of cells known only to be clones.
proof fn lemma_cell_clone(a: Cell, b: Cell)
    requires
        cloned(a, b),
    ensures
        a@ == b@,
{
}

impl Grid {
    /// What holds of every grid: there is a cell for each position and a
    /// flag for each row.
    pub closed spec fn wf(&self) -> bool {
        &&& self.cells.len() == self.width * self.height
        &&& self.dirty_rows.len() == self.height
    }

    /// A well-formed grid has a well-formed view.
    pub proof fn lemma_view_wf(&self)
        requires
            self.wf(),
        ensures
            self@.wf(),
    {
    }

    /// The cells of a grid can be counted in a `usize`.
    pub proof fn lemma_size_fits(&self)
        requires
            self.wf(),
        ensures
            self@.width * self@.height <= usize::MAX,
    {
    }

    /// A grid of blank cells. Every row starts dirty.
    pub fn new(width: usize, height: usize) -> (g: Self)
        requires
            width * height <= usize::MAX,
        ensures
            g.wf(),
            g@ == GridView::blank(width as int, height as int),
    {
        let total: usize = width * height;
        let mut cells: Vec<Cell> = Vec::new();
        let mut i: usize = 0;
        while i < total
            invariant
                i <= total,
                cells.len() == i,
                forall|k: int| 0 <= k < i ==> (#[trigger] cells@[k])@ == blank_cell(),
            decreases total - i,
        {
            cells.push(Cell::default());
            i += 1;
        }
        let mut dirty_rows: Vec<bool> = Vec::new();
        let mut y: usize = 0;
        while y < height
            invariant
                y <= height,
                dirty_rows.len() == y,
                forall|k: int| 0 <= k < y ==> #[trigger] dirty_rows@[k],
            decreases height - y,
        {
            dirty_rows.push(true);
            y += 1;
        }
        let g = Grid { cells, dirty_rows, width, height };
        proof {
            assert(g@.dirty =~= GridView::blank(width as int, height as int).dirty);
            assert forall|y: int| 0 <= y < height implies #[trigger] g@.rows[y] =~= blank_row(
                width as int,
            ) by {
                assert forall|x: int| 0 <= x < width implies g@.rows[y][x] == blank_cell() by {
                    lemma_index_in_range(x, y, width as int, height as int);
                }
            }
            assert(g@.rows =~= GridView::blank(width as int, height as int).rows);
        }
        g
    }

    pub fn width(&self) -> (w: usize)
        ensures
            w == self@.width,
    {
        self.width
    }

    pub fn height(&self) -> (h: usize)
        ensures
            h == self@.height,
    {
        self.height
    }

    /// The cell at column `x` of row `y`, if the position lies on the grid.
    pub fn get(&self, x: usize, y: usize) -> (r: Option<&Cell>)
        requires
            self.wf(),
        ensures
            r is Some <==> self@.contains(x as int, y as int),
            r matches Some(c) ==> c@ == self@.rows[y as int][x as int],
    {
        if x >= self.width || y >= self.height {
            return None;
        }
        proof {
            lemma_index_in_range(x as int, y as int, self.width as int, self.height as int);
        }
        Some(&self.cells[y * self.width + x])
    }

    /// The cell at column `x` of row `y` for writing, if the position lies
    /// on the grid. The row counts as changed from the moment it is handed
    /// out.
    pub fn get_mut(&mut self, x: usize, y: usize) -> (r: Option<&mut Cell>)
        requires
            old(self).wf(),
        ensures
            final(self).wf(),
            r is Some <==> old(self)@.contains(x as int, y as int),
            r is None ==> final(self)@ == old(self)@,
            r matches Some(c) ==> c@ == old(self)@.rows[y as int][x as int] && final(self)@
                == old(self)@.set(x as int, y as int, final(c)@),
    {
        if x >= self.width || y >= self.height {
            return None;
        }
        proof {
            lemma_index_in_range(x as int, y as int, self.width as int, self.height as int);
        }
        self.dirty_rows.set(y, true);
        let idx = y * self.width + x;
        let ghost cells = self.cells@;
        let cell = &mut self.cells[idx];
        proof {
            lemma_cell_replaced(
                cells,
                old(self).width as int,
                old(self).height as int,
                x as int,
                y as int,
                *final(cell),
            );
        }
        Some(cell)
    }

    /// Puts `cell` at column `x` of row `y` and marks the row dirty. Fails,
    /// and changes nothing, if the position lies outside the grid.
    pub fn set(&mut self, x: usize, y: usize, cell: Cell) -> (r: Result<(), GridError>)
        requires
            old(self).wf(),
        ensures
            final(self).wf(),
            old(self)@.contains(x as int, y as int) ==> r is Ok && final(self)@ == old(self)@.set(
                x as int,
                y as int,
                cell@,
            ),
            !old(self)@.contains(x as int, y as int) ==> r == Err::<(), GridError>(
                GridError::OutOfBounds { x, y },
            ) && final(self)@ == old(self)@,
    {
        if x >= self.width || y >= self.height {
            return Err(GridError::OutOfBounds { x, y });
        }
        proof {
            lemma_index_in_range(x as int, y as int, self.width as int, self.height as int);
        }
        let ghost before = *self;
        let idx = y * self.width + x;
        self.cells.set(idx, cell);
        self.dirty_rows.set(y, true);
        proof {
            lemma_cell_replaced(
                before.cells@,
                self.width as int,
                self.height as int,
                x as int,
                y as int,
                cell,
            );
        }
        Ok(())
    }

    /// Makes every cell blank and every row dirty.
    pub fn clear(&mut self)
        requires
            old(self).wf(),
        ensures
            final(self).wf(),
            final(self)@ == GridView::blank(old(self)@.width, old(self)@.height),
    {
        let total = self.cells.len();
        let mut i: usize = 0;
        while i < total
            invariant
                i <= total,
                self.cells.len() == total,
                self.width == old(self).width,
                self.height == old(self).height,
                self.dirty_rows == old(self).dirty_rows,
                forall|k: int| 0 <= k < i ==> (#[trigger] self.cells@[k])@ == blank_cell(),
            decreases total - i,
        {
            self.cells.set(i, Cell::default());
            i += 1;
        }
        self.mark_all_dirty();
        proof {
            let blank = GridView::blank(old(self)@.width, old(self)@.height);
            assert(self@.dirty =~= blank.dirty);
            assert forall|y: int| 0 <= y < self.height implies #[trigger] self@.rows[y]
                =~= blank.rows[y] by {
                assert forall|x: int| 0 <= x < self.width implies self@.rows[y][x]
                    == blank_cell() by {
                    lemma_index_in_range(x, y, self.width as int, self.height as int);
                }
            }
            assert(self@.rows =~= blank.rows);
        }
    }

    /// Changes the size of the grid. Cells that lie on both the old and the
    /// new grid keep their content; all others are blank. Every row of the
    /// new grid is dirty.
    pub fn resize(&mut self, new_width: usize, new_height: usize)
        requires
            old(self).wf(),
            new_width * new_height <= usize::MAX,
        ensures
            final(self).wf(),
            final(self)@ == old(self)@.resized(new_width as int, new_height as int),
    {
        let mut fresh = Grid::new(new_width, new_height);
        let copy_width = if self.width < new_width {
            self.width
        } else {
            new_width
        };
        let copy_height = if self.height < new_height {
            self.height
        } else {
            new_height
        };
        let ghost target = self@.resized(new_width as int, new_height as int);
        let mut y: usize = 0;
        while y < copy_height
            invariant
                self.wf(),
                fresh.wf(),
                y <= copy_height,
                copy_height <= self.height,
                copy_height <= new_height,
                copy_width <= self.width,
                copy_width <= new_width,
                copy_width == vstd::math::min(self.width as int, new_width as int),
                copy_height == vstd::math::min(self.height as int, new_height as int),
                target == self@.resized(new_width as int, new_height as int),
                fresh@.width == new_width,
                fresh@.height == new_height,
                fresh@.wf(),
                fresh@.dirty == target.dirty,
                forall|j: int| 0 <= j < y ==> #[trigger] fresh@.rows[j] == target.rows[j],
                forall|j: int|
                    y <= j < new_height ==>
                        #[trigger] fresh@.rows[j] == blank_row(new_width as int),
            decreases copy_height - y,
        {
            let mut x: usize = 0;
            while x < copy_width
                invariant
                    self.wf(),
                    fresh.wf(),
                    y < copy_height,
                    x <= copy_width,
                    copy_height <= self.height,
                    copy_height <= new_height,
                    copy_width <= self.width,
                    copy_width <= new_width,
                    target == self@.resized(new_width as int, new_height as int),
                    fresh@.width == new_width,
                    fresh@.height == new_height,
                    fresh@.wf(),
                    fresh@.dirty == target.dirty,
                    forall|j: int| 0 <= j < y ==> #[trigger] fresh@.rows[j] == target.rows[j],
                    forall|j: int|
                        y < j < new_height ==>
                            #[trigger] fresh@.rows[j] == blank_row(new_width as int),
                    forall|k: int|
                        0 <= k < x ==>
                            #[trigger] fresh@.rows[y as int][k] == target.rows[y as int][k],
                    forall|k: int|
                        x <= k < new_width ==> #[trigger] fresh@.rows[y as int][k] == blank_cell(),
                decreases copy_width - x,
            {
                let cell = match self.get(x, y) {
                    Some(c) => c.clone(),
                    None => Cell::default(),
                };
                let ghost prev = fresh@;
                let _ = fresh.set(x, y, cell);
                proof {
                    fresh.lemma_view_wf();
                    assert(fresh@.dirty =~= target.dirty);
                    assert forall|j: int|
                        0 <= j < new_height && j != y implies
                        #[trigger] fresh@.rows[j] == prev.rows[j] by {}
                }
                x += 1;
            }
            proof {
                assert(fresh@.rows[y as int] =~= target.rows[y as int]);
            }
            y += 1;
        }
        proof {
            assert forall|j: int|
                0 <= j < new_height implies #[trigger] fresh@.rows[j] =~= target.rows[j] by {
                if j >= y {
                    assert(fresh@.rows[j] == blank_row(new_width as int));
                }
            }
            assert(fresh@.rows =~= target.rows);
        }
        *self = fresh;
    }

    /// The cells of row `y`, if the grid has such a row.
    pub fn row(&self, y: usize) -> (r: Option<&[Cell]>)
        requires
            self.wf(),
        ensures
            r is Some <==> y < self@.height,
            r matches Some(cells) ==> row_view(cells@) == self@.rows[y as int],
    {
        if y >= self.height {
            return None;
        }
        if self.width == 0 {
            let cells = vstd::slice::slice_subrange(self.cells.as_slice(), 0, 0);
            assert(row_view(cells@) =~= self@.rows[y as int]);
            return Some(cells);
        }
        proof {
            lemma_index_in_range(0, y as int, self.width as int, self.height as int);
        }
        let start = y * self.width;
        let end = start + self.width;
        let cells = vstd::slice::slice_subrange(self.cells.as_slice(), start, end);
        assert(row_view(cells@) =~= self@.rows[y as int]);
        Some(cells)
    }

    /// Copies the cells of row `from` over those of row `to`.
    pub(crate) fn copy_row(&mut self, from: usize, to: usize)
        requires
            old(self).wf(),
            from < old(self)@.height,
            to < old(self)@.height,
        ensures
            final(self).wf(),
            final(self)@ == old(self)@.with_row(to as int, old(self)@.rows[from as int]),
    {
        self.mark_row_dirty(to);
        let width = self.width;
        let mut x: usize = 0;
        while x < width
            invariant
                self.wf(),
                self@.wf(),
                old(self)@.wf(),
                x <= width,
                width == self@.width,
                self@.width == old(self)@.width,
                self@.height == old(self)@.height,
                self@.dirty == old(self)@.dirty.update(to as int, true),
                self@.rows.len() == self@.height,
                self@.rows[to as int].len() == width,
                old(self)@.rows[from as int].len() == width,
                from < self@.height,
                to < self@.height,
                forall|j: int|
                    0 <= j < self@.height && j != to ==> self@.rows[j] == old(self)@.rows[j],
                forall|k: int|
                    0 <= k < x ==> self@.rows[to as int][k] == old(self)@.rows[from as int][k],
                forall|k: int|
                    x <= k < width ==> self@.rows[to as int][k] == old(self)@.rows[to as int][k],
            decreases width - x,
        {
            let cell = match self.get(x, from) {
                Some(c) => c.clone(),
                None => Cell::default(),
            };
            let _ = self.set(x, to, cell);
            assert(self@.dirty =~= old(self)@.dirty.update(to as int, true));
            x += 1;
        }
        assert(self@.rows[to as int] =~= old(self)@.rows[from as int]);
        assert(self@.rows =~= old(self)@.rows.update(to as int, old(self)@.rows[from as int]));
    }

    /// Blanks the cells of columns `from..to` of row `y`.
    pub(crate) fn erase_in_row(&mut self, y: usize, from: usize, to: usize)
        requires
            old(self).wf(),
            y < old(self)@.height,
        ensures
            final(self).wf(),
            final(self)@ == old(self)@.erase_in_row(y as int, from as int, to as int),
    {
        self.mark_row_dirty(y);
        let end = if to < self.width {
            to
        } else {
            self.width
        };
        let mut x: usize = from;
        while x < end
            invariant
                self.wf(),
                self@.wf(),
                old(self)@.wf(),
                from <= x,
                x <= end || x == from,
                end <= self@.width,
                end == vstd::math::min(to as int, self@.width),
                self@.width == old(self)@.width,
                self@.height == old(self)@.height,
                self@.dirty == old(self)@.dirty.update(y as int, true),
                self@.rows.len() == self@.height,
                self@.rows[y as int].len() == self@.width,
                y < self@.height,
                forall|j: int|
                    0 <= j < self@.height && j != y ==> self@.rows[j] == old(self)@.rows[j],
                forall|k: int|
                    0 <= k < self@.width ==> self@.rows[y as int][k] == if from <= k < x {
                        blank_cell()
                    } else {
                        old(self)@.rows[y as int][k]
                    },
            decreases end - x,
        {
            let _ = self.set(x, y, Cell::default());
            assert(self@.dirty =~= old(self)@.dirty.update(y as int, true));
            x += 1;
        }
        assert(self@.rows[y as int] =~= old(self)@.row_erased(y as int, from as int, to as int));
        assert(self@.rows =~= old(self)@.erase_in_row(y as int, from as int, to as int).rows);
    }

    /// Blanks the rows `from..to`.
    pub(crate) fn erase_rows(&mut self, from: usize, to: usize)
        requires
            old(self).wf(),
        ensures
            final(self).wf(),
            final(self)@ == old(self)@.erase_rows(from as int, to as int),
    {
        let end = if to < self.height {
            to
        } else {
            self.height
        };
        let width = self.width;
        let mut y: usize = from;
        while y < end
            invariant
                self.wf(),
                self@.wf(),
                old(self)@.wf(),
                from <= y,
                y <= end || y == from,
                end <= self@.height,
                end == vstd::math::min(to as int, self@.height),
                width == self@.width,
                self@.width == old(self)@.width,
                self@.height == old(self)@.height,
                self@.rows.len() == self@.height,
                self@.dirty.len() == self@.height,
                forall|j: int|
                    0 <= j < self@.height ==> #[trigger] self@.rows[j] == if from <= j < y {
                        blank_row(self@.width)
                    } else {
                        old(self)@.rows[j]
                    },
                forall|j: int|
                    0 <= j < self@.height ==> #[trigger] self@.dirty[j] == if from <= j < y {
                        true
                    } else {
                        old(self)@.dirty[j]
                    },
            decreases end - y,
        {
            self.erase_in_row(y, 0, width);
            assert(self@.rows[y as int] =~= blank_row(self@.width));
            y += 1;
        }
        assert(self@.rows =~= old(self)@.erase_rows(from as int, to as int).rows);
        assert(self@.dirty =~= old(self)@.erase_rows(from as int, to as int).dirty);
    }

    /// Moves the rows `top..=bottom` up by `n`, filling with blank rows.
    pub(crate) fn shift_up(&mut self, top: usize, bottom: usize, n: usize)
        requires
            old(self).wf(),
            top <= bottom < old(self)@.height,
        ensures
            final(self).wf(),
            final(self)@ == old(self)@.shift_up(top as int, bottom as int, n as int),
    {
        let width = self.width;
        let mut y: usize = top;
        while y <= bottom
            invariant
                self.wf(),
                self@.wf(),
                old(self)@.wf(),
                top <= y <= bottom + 1,
                bottom < self@.height,
                width == self@.width,
                self@.width == old(self)@.width,
                self@.height == old(self)@.height,
                self@.rows.len() == self@.height,
                self@.dirty.len() == self@.height,
                forall|j: int|
                    0 <= j < self@.height ==> #[trigger] self@.rows[j] == if top <= j < y {
                        if j + n <= bottom {
                            old(self)@.rows[j + n]
                        } else {
                            blank_row(self@.width)
                        }
                    } else {
                        old(self)@.rows[j]
                    },
                forall|j: int|
                    0 <= j < self@.height ==> #[trigger] self@.dirty[j] == if top <= j < y {
                        true
                    } else {
                        old(self)@.dirty[j]
                    },
            decreases bottom + 1 - y,
        {
            if n <= bottom - y {
                self.copy_row(y + n, y);
            } else {
                self.erase_in_row(y, 0, width);
                assert(self@.rows[y as int] =~= blank_row(self@.width));
            }
            y += 1;
        }
        assert(self@.rows =~= old(self)@.shift_up(top as int, bottom as int, n as int).rows);
        assert(self@.dirty =~= old(self)@.shift_up(top as int, bottom as int, n as int).dirty);
    }

    /// Moves the rows `top..=bottom` down by `n`, filling with blank rows.
    pub(crate) fn shift_down(&mut self, top: usize, bottom: usize, n: usize)
        requires
            old(self).wf(),
            top <= bottom < old(self)@.height,
        ensures
            final(self).wf(),
            final(self)@ == old(self)@.shift_down(top as int, bottom as int, n as int),
    {
        let width = self.width;
        let mut y: usize = bottom + 1;
        while y > top
            invariant
                self.wf(),
                self@.wf(),
                old(self)@.wf(),
                top <= y <= bottom + 1,
                bottom < self@.height,
                width == self@.width,
                self@.width == old(self)@.width,
                self@.height == old(self)@.height,
                self@.rows.len() == self@.height,
                self@.dirty.len() == self@.height,
                forall|j: int|
                    0 <= j < self@.height ==> #[trigger] self@.rows[j] == if y <= j <= bottom {
                        if j - n >= top {
                            old(self)@.rows[j - n]
                        } else {
                            blank_row(self@.width)
                        }
                    } else {
                        old(self)@.rows[j]
                    },
                forall|j: int|
                    0 <= j < self@.height ==> #[trigger] self@.dirty[j] == if y <= j <= bottom {
                        true
                    } else {
                        old(self)@.dirty[j]
                    },
            decreases y - top,
        {
            y -= 1;
            if n <= y - top {
                self.copy_row(y - n, y);
            } else {
                self.erase_in_row(y, 0, width);
                assert(self@.rows[y as int] =~= blank_row(self@.width));
            }
        }
        assert(self@.rows =~= old(self)@.shift_down(top as int, bottom as int, n as int).rows);
        assert(self@.dirty =~= old(self)@.shift_down(top as int, bottom as int, n as int).dirty);
    }

    /// Inserts `n` blank cells at column `x` of row `y`.
    pub(crate) fn insert_cells(&mut self, x: usize, y: usize, n: usize)
        requires
            old(self).wf(),
            x < old(self)@.width,
            y < old(self)@.height,
        ensures
            final(self).wf(),
            final(self)@ == old(self)@.insert_cells(x as int, y as int, n as int),
    {
        self.mark_row_dirty(y);
        let width = self.width;
        let mut k: usize = width;
        while k > x
            invariant
                self.wf(),
                self@.wf(),
                old(self)@.wf(),
                x <= k <= width,
                width == self@.width,
                self@.width == old(self)@.width,
                self@.height == old(self)@.height,
                self@.dirty == old(self)@.dirty.update(y as int, true),
                self@.rows.len() == self@.height,
                self@.rows[y as int].len() == width,
                y < self@.height,
                forall|j: int|
                    0 <= j < self@.height && j != y ==> self@.rows[j] == old(self)@.rows[j],
                forall|i: int|
                    0 <= i < width ==> self@.rows[y as int][i] == if i < k {
                        old(self)@.rows[y as int][i]
                    } else if i < x + n {
                        blank_cell()
                    } else {
                        old(self)@.rows[y as int][i - n]
                    },
            decreases k - x,
        {
            k -= 1;
            let cell = if n <= k - x {
                match self.get(k - n, y) {
                    Some(c) => c.clone(),
                    None => Cell::default(),
                }
            } else {
                Cell::default()
            };
            let _ = self.set(k, y, cell);
            assert(self@.dirty =~= old(self)@.dirty.update(y as int, true));
        }
        assert(self@.rows[y as int] =~= old(self)@.row_with_insertion(
            x as int,
            y as int,
            n as int,
        ));
        assert(self@.rows =~= old(self)@.insert_cells(x as int, y as int, n as int).rows);
    }

    /// Deletes `n` cells at column `x` of row `y`.
    pub(crate) fn delete_cells(&mut self, x: usize, y: usize, n: usize)
        requires
            old(self).wf(),
            x < old(self)@.width,
            y < old(self)@.height,
        ensures
            final(self).wf(),
            final(self)@ == old(self)@.delete_cells(x as int, y as int, n as int),
    {
        self.mark_row_dirty(y);
        let width = self.width;
        let mut k: usize = x;
        while k < width
            invariant
                self.wf(),
                self@.wf(),
                old(self)@.wf(),
                x <= k <= width,
                width == self@.width,
                self@.width == old(self)@.width,
                self@.height == old(self)@.height,
                self@.dirty == old(self)@.dirty.update(y as int, true),
                self@.rows.len() == self@.height,
                self@.rows[y as int].len() == width,
                y < self@.height,
                forall|j: int|
                    0 <= j < self@.height && j != y ==> self@.rows[j] == old(self)@.rows[j],
                forall|i: int|
                    0 <= i < width ==> self@.rows[y as int][i] == if i < x || i >= k {
                        old(self)@.rows[y as int][i]
                    } else if i + n < width {
                        old(self)@.rows[y as int][i + n]
                    } else {
                        blank_cell()
                    },
            decreases width - k,
        {
            let cell = if n < width - k {
                match self.get(k + n, y) {
                    Some(c) => c.clone(),
                    None => Cell::default(),
                }
            } else {
                Cell::default()
            };
            let _ = self.set(k, y, cell);
            assert(self@.dirty =~= old(self)@.dirty.update(y as int, true));
            k += 1;
        }
        assert(self@.rows[y as int] =~= old(self)@.row_with_deletion(x as int, y as int, n as int));
        assert(self@.rows =~= old(self)@.delete_cells(x as int, y as int, n as int).rows);
    }

    /// Whether row `y` changed since the flags were last cleared. A row the
    /// grid does not have never did.
    pub fn is_row_dirty(&self, y: usize) -> (d: bool)
        requires
            self.wf(),
        ensures
            d == (y < self@.height && self@.dirty[y as int]),
    {
        if y < self.dirty_rows.len() {
            self.dirty_rows[y]
        } else {
            false
        }
    }

    /// Marks row `y` dirty, if the grid has such a row.
    pub fn mark_row_dirty(&mut self, y: usize)
        requires
            old(self).wf(),
        ensures
            final(self).wf(),
            final(self)@ == if y < old(self)@.height {
                old(self)@.touch(y as int)
            } else {
                old(self)@
            },
    {
        if y < self.height {
            self.dirty_rows.set(y, true);
        }
    }

    pub fn mark_all_dirty(&mut self)
        requires
            old(self).wf(),
        ensures
            final(self).wf(),
            final(self)@ == old(self)@.all_dirty(),
    {
        self.fill_dirty(true);
        assert(self@.dirty =~= old(self)@.all_dirty().dirty);
    }

    /// Marks every row clean: what the host calls once it has drawn a frame.
    pub fn clear_dirty(&mut self)
        requires
            old(self).wf(),
        ensures
            final(self).wf(),
            final(self)@ == old(self)@.all_clean(),
    {
        self.fill_dirty(false);
        assert(self@.dirty =~= old(self)@.all_clean().dirty);
    }

    fn fill_dirty(&mut self, value: bool)
        requires
            old(self).wf(),
        ensures
            final(self).wf(),
            final(self).cells == old(self).cells,
            final(self).width == old(self).width,
            final(self).height == old(self).height,
            forall|y: int| 0 <= y < final(self).height ==> final(self).dirty_rows@[y] == value,
    {
        let height = self.height;
        let mut y: usize = 0;
        while y < height
            invariant
                y <= height,
                height == self.height,
                self.dirty_rows.len() == height,
                self.cells == old(self).cells,
                self.width == old(self).width,
                self.height == old(self).height,
                forall|k: int| 0 <= k < y ==> self.dirty_rows@[k] == value,
            decreases height - y,
        {
            self.dirty_rows.set(y, value);
            y += 1;
        }
    }

    /// Whether any row is dirty.
    pub fn has_dirty_rows(&self) -> (d: bool)
        requires
            self.wf(),
        ensures
            d == exists|y: int| 0 <= y < self@.height && self@.dirty[y],
    {
        let mut y: usize = 0;
        while y < self.height
            invariant
                self.wf(),
                y <= self.height,
                forall|k: int| 0 <= k < y ==> !self@.dirty[k],
            decreases self.height - y,
        {
            if self.dirty_rows[y] {
                assert(0 <= y < self@.height && self@.dirty[y as int]);
                return true;
            }
            y += 1;
        }
        false
    }
}

} // verus!
