use vstd::prelude::*;
use crate::cell::Cell;

verus! {

/// The mathematical picture of one row: the cells it stores, the first
/// column that is shown and the column where the shown part ends.
pub struct RowView {
    pub cells: Seq<Cell>,
    pub left_start: nat,
    pub cols: nat,
}

impl RowView {
    /// Every shown column has a stored cell.
    pub open spec fn consistent(self) -> bool {
        self.cols <= self.cells.len()
    }

    /// A new row of `cols` background cells, shown from column 0.
    pub open spec fn fresh(cols: nat) -> RowView {
        RowView { cells: Seq::new(cols, |i: int| Cell::Base), left_start: 0, cols }
    }

    /// The row after `Pattern::shift_right`.
    pub open spec fn shifted_right(self) -> RowView {
        RowView {
            cells: self.cells.insert(0, Cell::Base),
            left_start: self.left_start + 1,
            cols: self.cols + 1,
        }
    }

    /// The row after `Pattern::shift_left`.
    pub open spec fn shifted_left(self) -> RowView {
        if self.left_start > 0 {
            RowView {
                cells: self.cells,
                left_start: (self.left_start - 1) as nat,
                cols: (self.cols - 1) as nat,
            }
        } else {
            RowView { cells: self.cells.remove(0), left_start: 0, cols: (self.cols - 1) as nat }
        }
    }

    /// The row after `Pattern::add_col_left`.
    pub open spec fn with_col_left(self) -> RowView {
        RowView {
            cells: self.cells.insert(0, Cell::Base),
            left_start: self.left_start,
            cols: self.cols + 1,
        }
    }

    /// The row after `Pattern::remove_col_left`.
    pub open spec fn without_col_left(self) -> RowView {
        RowView { cells: self.cells, left_start: self.left_start + 1, cols: self.cols }
    }

    /// The row after `Pattern::add_col_right`.
    pub open spec fn with_col_right(self) -> RowView {
        RowView {
            cells: if self.cells.len() == self.cols {
                self.cells.push(Cell::Base)
            } else {
                self.cells
            },
            left_start: self.left_start,
            cols: self.cols + 1,
        }
    }

    /// The row after `Pattern::remove_col_right`.
    pub open spec fn without_col_right(self) -> RowView {
        RowView { cells: self.cells, left_start: self.left_start, cols: (self.cols - 1) as nat }
    }

    /// The row with the cell at `col` replaced by `c`.
    pub open spec fn with_cell(self, col: int, c: Cell) -> RowView {
        RowView { cells: self.cells.update(col, c), left_start: self.left_start, cols: self.cols }
    }

    /// The cells drawn for this row, from `left_start` up to `cols`.
    pub open spec fn visible(self) -> Seq<Cell> {
        if self.left_start <= self.cols {
            self.cells.subrange(self.left_start as int, self.cols as int)
        } else {
            Seq::empty()
        }
    }
}

/// Every row of the sequence is consistent.
pub open spec fn rows_consistent(rows: Seq<RowView>) -> bool {
    forall|i: int| 0 <= i < rows.len() ==> #[trigger] rows[i].consistent()
}

/// One row as stored: its cells, the first shown column and the column
/// where the shown part ends.
struct Row {
    cell_data: Vec<Cell>,
    left_offset: usize,
    cell_count: usize,
}

impl View for Row {
    type V = RowView;

    closed spec fn view(&self) -> RowView {
        RowView {
            cells: self.cell_data@,
            left_start: self.left_offset as nat,
            cols: self.cell_count as nat,
        }
    }
}

impl Row {
    fn new(cols: usize) -> (r: Row)
        ensures
            r@ == RowView::fresh(cols as nat),
    {
        let mut cell_data: Vec<Cell> = Vec::new();
        let mut i: usize = 0;
        while i < cols
            invariant
                i <= cols,
                cell_data@ == Seq::new(i as nat, |j: int| Cell::Base),
            decreases cols - i,
        {
            cell_data.push(Cell::Base);
            i = i + 1;
        }
        Row { cell_data, left_offset: 0, cell_count: cols }
    }

    fn shift_right(&mut self)
        requires
            old(self)@.consistent(),
            old(self).left_offset < usize::MAX,
        ensures
            final(self)@ == old(self)@.shifted_right(),
            final(self)@.consistent(),
    {
        self.cell_data.insert(0, Cell::Base);
        proof {
            // a vector's length always fits in `usize`
            assert(self.cell_data.len() <= usize::MAX);
        }
        self.left_offset = self.left_offset + 1;
        self.cell_count = self.cell_count + 1;
    }

    fn shift_left(&mut self)
        requires
            old(self)@.consistent(),
            old(self).cell_count > 0,
        ensures
            final(self)@ == old(self)@.shifted_left(),
            final(self)@.consistent(),
    {
        if self.left_offset > 0 {
            self.left_offset = self.left_offset - 1;
        } else {
            self.cell_data.remove(0);
        }
        self.cell_count = self.cell_count - 1;
    }

    fn add_col_left(&mut self)
        requires
            old(self)@.consistent(),
        ensures
            final(self)@ == old(self)@.with_col_left(),
            final(self)@.consistent(),
    {
        self.cell_data.insert(0, Cell::Base);
        proof {
            // a vector's length always fits in `usize`
            assert(self.cell_data.len() <= usize::MAX);
        }
        self.cell_count = self.cell_count + 1;
    }

    fn remove_col_left(&mut self)
        requires
            old(self)@.consistent(),
            old(self).left_offset < usize::MAX,
        ensures
            final(self)@ == old(self)@.without_col_left(),
            final(self)@.consistent(),
    {
        self.left_offset = self.left_offset + 1;
    }

    fn add_col_right(&mut self)
        requires
            old(self)@.consistent(),
        ensures
            final(self)@ == old(self)@.with_col_right(),
            final(self)@.consistent(),
    {
        if self.cell_data.len() == self.cell_count {
            self.cell_data.push(Cell::Base);
        }
        proof {
            assert(self.cell_data.len() <= usize::MAX);
        }
        self.cell_count = self.cell_count + 1;
    }

    fn remove_col_right(&mut self)
        requires
            old(self)@.consistent(),
            old(self).cell_count > 0,
        ensures
            final(self)@ == old(self)@.without_col_right(),
            final(self)@.consistent(),
    {
        self.cell_count = self.cell_count - 1;
    }
}

/// A pattern: a list of rows.
pub struct Pattern {
    rows_data: Vec<Row>,
    rows_count: usize,
}

impl View for Pattern {
    type V = Seq<RowView>;

    closed spec fn view(&self) -> Seq<RowView> {
        self.rows_data@.map_values(|r: Row| r@)
    }
}

impl Pattern {
    /// The row counter matches the rows held.
    pub closed spec fn count_agrees(&self) -> bool {
        self.rows_count == self.rows_data@.len()
    }

    /// The pattern's invariant: the row counter matches the rows held,
    /// and in every row each shown column has a stored cell.
    pub open spec fn wf(&self) -> bool {
        &&& self.count_agrees()
        &&& rows_consistent(self@)
    }

    proof fn lemma_view_len(&self)
        ensures
            self@.len() == self.rows_data@.len(),
            forall|i: int| 0 <= i < self@.len() ==> #[trigger] self@[i] == self.rows_data@[i]@,
    {
    }

    /// A pattern never holds more rows than a `usize` counts.
    pub(crate) proof fn lemma_rows_fit(&self)
        requires
            self.wf(),
        ensures
            self@.len() <= usize::MAX,
    {
        self.lemma_view_len();
    }

    /// Appends a row of `cols` background cells.
    pub fn add_row(&mut self, cols: usize)
        requires
            old(self).wf(),
        ensures
            final(self).wf(),
            final(self)@ == old(self)@.push(RowView::fresh(cols as nat)),
    {
        let row = Row::new(cols);
        self.rows_data.push(row);
        proof {
            assert(self.rows_data.len() <= usize::MAX);
        }
        self.rows_count = self.rows_count + 1;
        assert(self@ =~= old(self)@.push(RowView::fresh(cols as nat)));
    }

    /// Moves the shown part of `row` one column to the right, padding the
    /// row with a background cell in front.
    pub fn shift_right(&mut self, row: usize)
        requires
            old(self).wf(),
            row < old(self)@.len(),
            old(self)@[row as int].left_start < usize::MAX,
        ensures
            final(self).wf(),
            final(self)@ == old(self)@.update(row as int, old(self)@[row as int].shifted_right()),
    {
        proof {
            self.lemma_view_len();
            assert(self@[row as int].consistent());
        }
        self.rows_data[row].shift_right();
        proof { self.lemma_view_len(); }
        assert(self@ =~= old(self)@.update(row as int, old(self)@[row as int].shifted_right()));
    }

    /// Moves the shown part of `row` one column to the left: the first shown
    /// column moves back when it is past 0, otherwise the row's first stored
    /// cell is dropped; the row shows one column less at its right end.
    pub fn shift_left(&mut self, row: usize)
        requires
            old(self).wf(),
            row < old(self)@.len(),
            old(self)@[row as int].cols > 0,
        ensures
            final(self).wf(),
            final(self)@ == old(self)@.update(row as int, old(self)@[row as int].shifted_left()),
    {
        proof {
            self.lemma_view_len();
            assert(self@[row as int].consistent());
        }
        self.rows_data[row].shift_left();
        proof { self.lemma_view_len(); }
        assert(self@ =~= old(self)@.update(row as int, old(self)@[row as int].shifted_left()));
    }

    /// Puts a background cell in front of `row`; the stored cells move one
    /// column to the right and the row ends one column later.
    pub fn add_col_left(&mut self, row: usize)
        requires
            old(self).wf(),
            row < old(self)@.len(),
        ensures
            final(self).wf(),
            final(self)@ == old(self)@.update(row as int, old(self)@[row as int].with_col_left()),
    {
        proof {
            self.lemma_view_len();
            assert(self@[row as int].consistent());
        }
        self.rows_data[row].add_col_left();
        proof { self.lemma_view_len(); }
        assert(self@ =~= old(self)@.update(row as int, old(self)@[row as int].with_col_left()));
    }

    /// Hides the first shown column of `row`.
    pub fn remove_col_left(&mut self, row: usize)
        requires
            old(self).wf(),
            row < old(self)@.len(),
            old(self)@[row as int].left_start < usize::MAX,
        ensures
            final(self).wf(),
            final(self)@ == old(self)@.update(row as int, old(self)@[row as int].without_col_left()),
    {
        proof {
            self.lemma_view_len();
            assert(self@[row as int].consistent());
        }
        self.rows_data[row].remove_col_left();
        proof { self.lemma_view_len(); }
        assert(self@ =~= old(self)@.update(row as int, old(self)@[row as int].without_col_left()));
    }

    /// Shows one more column at the right end of `row`, storing a new
    /// background cell there when the row has no hidden cell to show.
    pub fn add_col_right(&mut self, row: usize)
        requires
            old(self).wf(),
            row < old(self)@.len(),
        ensures
            final(self).wf(),
            final(self)@ == old(self)@.update(row as int, old(self)@[row as int].with_col_right()),
    {
        proof {
            self.lemma_view_len();
            assert(self@[row as int].consistent());
        }
        self.rows_data[row].add_col_right();
        proof { self.lemma_view_len(); }
        assert(self@ =~= old(self)@.update(row as int, old(self)@[row as int].with_col_right()));
    }

    /// Hides the last shown column of `row`; its cell stays stored.
    pub fn remove_col_right(&mut self, row: usize)
        requires
            old(self).wf(),
            row < old(self)@.len(),
            old(self)@[row as int].cols > 0,
        ensures
            final(self).wf(),
            final(self)@ == old(self)@.update(row as int, old(self)@[row as int].without_col_right()),
    {
        proof {
            self.lemma_view_len();
            assert(self@[row as int].consistent());
        }
        self.rows_data[row].remove_col_right();
        proof { self.lemma_view_len(); }
        assert(self@ =~= old(self)@.update(row as int, old(self)@[row as int].without_col_right()));
    }

    /// The cell stored at column `col` of `row`.
    pub fn cell(&self, row: usize, col: usize) -> (c: &Cell)
        requires
            self.wf(),
            row < self@.len(),
            col < self@[row as int].cells.len(),
        ensures
            *c == self@[row as int].cells[col as int],
    {
        proof { self.lemma_view_len(); }
        &self.rows_data[row].cell_data[col]
    }

    /// Mutable access to the cell stored at column `col` of `row`; whatever
    /// is written there is the only change to the pattern.
    pub fn cell_mut(&mut self, row: usize, col: usize) -> (c: &mut Cell)
        requires
            old(self).wf(),
            row < old(self)@.len(),
            col < old(self)@[row as int].cells.len(),
        ensures
            *c == old(self)@[row as int].cells[col as int],
            final(self).wf(),
            final(self)@ == old(self)@.update(
                row as int,
                old(self)@[row as int].with_cell(col as int, *final(c)),
            ),
    {
        proof {
            self.lemma_view_len();
            assert forall|i: int| 0 <= i < self.rows_data@.len() implies (#[trigger] self.rows_data@[i])@.consistent() by {
                assert(self@[i].consistent());
            }
        }
        &mut self.rows_data[row].cell_data[col]
    }

    /// The number of rows.
    pub fn rows(&self) -> (n: usize)
        requires
            self.wf(),
        ensures
            n == self@.len(),
    {
        proof { self.lemma_view_len(); }
        self.rows_count
    }

    /// The column where the shown part of `row` ends.
    pub fn cols(&self, row: usize) -> (n: usize)
        requires
            self.wf(),
            row < self@.len(),
        ensures
            n == self@[row as int].cols,
    {
        proof {
            self.lemma_view_len();
            assert(self@[row as int].consistent());
        }
        self.rows_data[row].cell_count
    }

    /// The first shown column of `row`.
    pub fn left_start(&self, row: usize) -> (n: usize)
        requires
            self.wf(),
            row < self@.len(),
        ensures
            n == self@[row as int].left_start,
    {
        proof {
            self.lemma_view_len();
            assert(self@[row as int].consistent());
        }
        self.rows_data[row].left_offset
    }
}

/// The width of row `r` in the starter pattern: 20 columns, one more
/// after every eighth row.
pub open spec fn starter_cols(r: int) -> nat {
    if r < 8 {
        20
    } else if r < 16 {
        21
    } else if r < 24 {
        22
    } else {
        23
    }
}

/// The number of rows of the starter pattern.
pub open spec fn starter_rows() -> nat {
    27
}

impl Pattern {
    /// The pattern the editor starts from (and returns to on reset): 27
    /// rows of background cells, 20 wide, growing by one column after rows
    /// 7, 15 and 23.
    pub fn initial() -> (p: Pattern)
        ensures
            p.wf(),
            p@.len() == starter_rows(),
            forall|r: int| 0 <= r < p@.len() ==> #[trigger] p@[r] == RowView::fresh(starter_cols(r)),
    {
        let mut pattern = Pattern::default();
        let mut cols: usize = 20;
        let mut r: usize = 0;
        while r < 27
            invariant
                r <= 27,
                pattern.wf(),
                pattern@.len() == r,
                cols == starter_cols(r as int),
                forall|i: int| 0 <= i < r ==> #[trigger] pattern@[i] == RowView::fresh(starter_cols(i)),
            decreases 27 - r,
        {
            pattern.add_row(cols);
            if r == 7 || r == 15 || r == 23 {
                cols = cols + 1;
            }
            r = r + 1;
        }
        pattern
    }

    /// Flips the cell at column `col` of `row` between background and
    /// colour, as a click on it in the editor does.
    pub fn toggle_cell(&mut self, row: usize, col: usize)
        requires
            old(self).wf(),
            row < old(self)@.len(),
            col < old(self)@[row as int].cells.len(),
        ensures
            final(self).wf(),
            final(self)@ == old(self)@.update(
                row as int,
                old(self)@[row as int].with_cell(
                    col as int,
                    old(self)@[row as int].cells[col as int].toggled(),
                ),
            ),
    {
        if self.cell(row, col).is_base() {
            *self.cell_mut(row, col) = Cell::Color1;
        } else {
            *self.cell_mut(row, col) = Cell::Base;
        }
    }
}

impl Default for Pattern {
    /// The empty pattern.
    fn default() -> (p: Pattern)
        ensures
            p.wf(),
            p@ == Seq::<RowView>::empty(),
    {
        let p = Pattern { rows_data: Vec::new(), rows_count: 0 };
        assert(p@ =~= Seq::<RowView>::empty());
        p
    }
}

} // verus!
