use vstd::prelude::*;
use crate::cell::Cell;
use crate::edit::EditAction;
use crate::pattern::{RowView, rows_consistent};

verus! {

/// Every row operation keeps a consistent row consistent: a shown column
/// always has a stored cell.
pub proof fn lemma_row_ops_keep_consistent(r: RowView, col: int, c: Cell)
    requires
        r.consistent(),
    ensures
        r.shifted_right().consistent(),
        r.cols > 0 ==> r.shifted_left().consistent(),
        r.with_col_left().consistent(),
        r.without_col_left().consistent(),
        r.with_col_right().consistent(),
        r.cols > 0 ==> r.without_col_right().consistent(),
        0 <= col < r.cells.len() ==> r.with_cell(col, c).consistent(),
        forall|a: EditAction| r.edit_allowed(a) ==> (#[trigger] r.edited(a)).consistent(),
{
}

/// Shifting a row right does not change what it shows: the same cells
/// are drawn, one column further right.
pub proof fn lemma_shift_right_keeps_visible(r: RowView)
    requires
        r.consistent(),
    ensures
        r.shifted_right().visible() == r.visible(),
        r.shifted_right().left_start == r.left_start + 1,
        r.shifted_right().cols == r.cols + 1,
{
    if r.left_start <= r.cols {
        assert(r.shifted_right().visible() =~= r.visible());
    }
}

/// Shifting right and then left brings back the row's window (its first
/// shown column and its end column), with a background cell stored in
/// front; a shift by itself keeps the number of shown columns when the
/// row is not shown from column 0.
pub proof fn lemma_shift_left_undoes_shift_right(r: RowView)
    requires
        r.consistent(),
    ensures
        r.shifted_right().shifted_left() == (RowView {
            cells: r.cells.insert(0, Cell::Base),
            left_start: r.left_start,
            cols: r.cols,
        }),
        r.shifted_right().cols - r.shifted_right().left_start == r.cols - r.left_start,
        r.left_start > 0 && r.cols > 0 ==> r.shifted_left().cols - r.shifted_left().left_start
            == r.cols - r.left_start,
{
}

/// On a row shown from column 0, shifting left undoes adding a column at
/// the left.
pub proof fn lemma_shift_left_undoes_add_col_left(r: RowView)
    requires
        r.consistent(),
        r.left_start == 0,
    ensures
        r.with_col_left().shifted_left() == r,
{
    assert(r.with_col_left().shifted_left().cells =~= r.cells);
}

/// Adding a column at the right undoes removing one there, exactly.
pub proof fn lemma_add_col_right_undoes_remove(r: RowView)
    requires
        r.consistent(),
        r.cols > 0,
    ensures
        r.without_col_right().with_col_right() == r,
{
}

/// Removing a column at the right after adding one brings back the shown
/// window and shown cells; at most a hidden background cell stays stored.
pub proof fn lemma_remove_col_right_undoes_add(r: RowView)
    requires
        r.consistent(),
    ensures
        r.with_col_right().without_col_right().left_start == r.left_start,
        r.with_col_right().without_col_right().cols == r.cols,
        r.with_col_right().without_col_right().visible() == r.visible(),
        r.with_col_right().without_col_right().cells == r.cells
            || r.with_col_right().without_col_right().cells == r.cells.push(Cell::Base),
{
    if r.left_start <= r.cols {
        assert(r.with_col_right().without_col_right().visible() =~= r.visible());
    }
}

/// Growing a row at the left after shrinking it there brings back the
/// shown window and shown cells.
pub proof fn lemma_grow_left_undoes_shrink_left(r: RowView)
    requires
        r.consistent(),
    ensures
        r.edited(EditAction::ShrinkLeft).edited(EditAction::GrowLeft).left_start == r.left_start,
        r.edited(EditAction::ShrinkLeft).edited(EditAction::GrowLeft).cols == r.cols,
        r.edited(EditAction::ShrinkLeft).edited(EditAction::GrowLeft).visible() == r.visible(),
{
    if r.left_start <= r.cols {
        assert(r.edited(EditAction::ShrinkLeft).edited(EditAction::GrowLeft).visible()
            =~= r.visible());
    }
}

/// Growing a row at the right and shrinking it there again brings back
/// the shown window and shown cells.
pub proof fn lemma_shrink_right_undoes_grow_right(r: RowView)
    requires
        r.consistent(),
    ensures
        r.edited(EditAction::GrowRight).edited(EditAction::ShrinkRight).left_start == r.left_start,
        r.edited(EditAction::GrowRight).edited(EditAction::ShrinkRight).cols == r.cols,
        r.edited(EditAction::GrowRight).edited(EditAction::ShrinkRight).visible() == r.visible(),
{
    lemma_remove_col_right_undoes_add(r);
}

/// On a row shown from a column past 0, growing at the left shows exactly
/// one more stored cell in front of the shown ones.
pub proof fn lemma_grow_left_shows_one_more(r: RowView)
    requires
        r.consistent(),
        0 < r.left_start <= r.cols,
    ensures
        r.edited(EditAction::GrowLeft).left_start == r.left_start - 1,
        r.edited(EditAction::GrowLeft).cols == r.cols,
        r.edited(EditAction::GrowLeft).visible() == r.cells.subrange(
            r.left_start - 1,
            r.cols as int,
        ),
{
    assert(r.edited(EditAction::GrowLeft).visible() =~= r.cells.subrange(
        r.left_start - 1,
        r.cols as int,
    ));
}

/// Growing at the right shows one more column at the right end: the
/// stored cell there, or a new background cell when none was stored.
pub proof fn lemma_grow_right_shows_one_more(r: RowView)
    requires
        r.consistent(),
        r.left_start <= r.cols,
    ensures
        r.edited(EditAction::GrowRight).visible() == r.visible().push(
            if r.cols < r.cells.len() {
                r.cells[r.cols as int]
            } else {
                Cell::Base
            },
        ),
{
    assert(r.edited(EditAction::GrowRight).visible() =~= r.visible().push(
        if r.cols < r.cells.len() {
            r.cells[r.cols as int]
        } else {
            Cell::Base
        },
    ));
}

/// Toggling a cell twice gives back the cell.
pub proof fn lemma_toggle_twice(c: Cell)
    ensures
        c.toggled().toggled() == c,
        c.toggled() != c,
{
}

/// Writing a cell and reading it back gives what was written; every other
/// cell of the pattern, and every row's window, is unchanged.
pub proof fn lemma_read_after_write(rows: Seq<RowView>, row: int, col: int, c: Cell)
    requires
        rows_consistent(rows),
        0 <= row < rows.len(),
        0 <= col < rows[row].cells.len(),
    ensures
        ({
            let after = rows.update(row, rows[row].with_cell(col, c));
            &&& rows_consistent(after)
            &&& after.len() == rows.len()
            &&& after[row].cells[col] == c
            &&& forall|i: int, j: int|
                0 <= i < rows.len() && 0 <= j < rows[i].cells.len() && (i != row || j != col)
                    ==> #[trigger] after[i].cells[j] == rows[i].cells[j]
            &&& forall|i: int|
                0 <= i < rows.len() ==> (#[trigger] after[i]).left_start == rows[i].left_start
                    && after[i].cols == rows[i].cols && after[i].cells.len() == rows[i].cells.len()
        }),
{
    let after = rows.update(row, rows[row].with_cell(col, c));
    assert forall|i: int| 0 <= i < after.len() implies #[trigger] after[i].consistent() by {
        assert(rows[i].consistent());
    }
}

/// A new row holds `n` background cells, all shown, from column 0.
pub proof fn lemma_fresh_row_is_background(n: nat)
    ensures
        RowView::fresh(n).cells.len() == n,
        RowView::fresh(n).left_start == 0,
        RowView::fresh(n).cols == n,
        forall|i: int| 0 <= i < n ==> #[trigger] RowView::fresh(n).cells[i] == Cell::Base,
{
}

/// Shifting right stores a background cell in front of every stored cell,
/// which all move one index up, and moves both window ends one column right.
pub proof fn lemma_shift_right_moves_cells(r: RowView)
    ensures
        r.shifted_right().cells.len() == r.cells.len() + 1,
        r.shifted_right().cells[0] == Cell::Base,
        forall|i: int| 0 <= i < r.cells.len() ==> #[trigger] r.shifted_right().cells[i + 1] == r.cells[i],
        r.shifted_right().left_start == r.left_start + 1,
        r.shifted_right().cols == r.cols + 1,
{
}

/// Shifting left: a row shown from a column past 0 keeps every stored
/// cell and moves both window ends one column left; a row shown from
/// column 0 loses its first stored cell, the others move one index down,
/// and its end moves one column left.
pub proof fn lemma_shift_left_moves_cells(r: RowView)
    requires
        r.consistent(),
        r.cols > 0,
    ensures
        r.shifted_left().cols == r.cols - 1,
        r.left_start > 0 ==> r.shifted_left().cells == r.cells
            && r.shifted_left().left_start == r.left_start - 1,
        r.left_start == 0 ==> r.shifted_left().left_start == 0
            && r.shifted_left().cells.len() == r.cells.len() - 1
            && forall|i: int| 0 <= i < r.cells.len() - 1 ==> #[trigger] r.shifted_left().cells[i] == r.cells[i + 1],
{
}

/// Adding a column at the left stores a background cell at index 0 and
/// moves every stored cell one index up, whatever the first shown column
/// is; the first shown column stays and the end moves one column right.
pub proof fn lemma_add_col_left_inserts_in_front(r: RowView)
    ensures
        r.with_col_left().cells.len() == r.cells.len() + 1,
        r.with_col_left().cells[0] == Cell::Base,
        forall|i: int| 0 <= i < r.cells.len() ==> #[trigger] r.with_col_left().cells[i + 1] == r.cells[i],
        r.with_col_left().left_start == r.left_start,
        r.with_col_left().cols == r.cols + 1,
{
}

/// Removing a column at the left only moves the first shown column one
/// right: every stored cell, shown or hidden, stays, and the end stays.
pub proof fn lemma_remove_col_left_keeps_cells(r: RowView)
    ensures
        r.without_col_left().cells.len() == r.cells.len(),
        forall|i: int| 0 <= i < r.cells.len() ==> #[trigger] r.without_col_left().cells[i] == r.cells[i],
        r.without_col_left().left_start == r.left_start + 1,
        r.without_col_left().cols == r.cols,
{
}

/// Removing a column at the right only moves the end one column left:
/// every stored cell and the first shown column stay.
pub proof fn lemma_remove_col_right_keeps_cells(r: RowView)
    requires
        r.cols > 0,
    ensures
        r.without_col_right().cells.len() == r.cells.len(),
        forall|i: int| 0 <= i < r.cells.len() ==> #[trigger] r.without_col_right().cells[i] == r.cells[i],
        r.without_col_right().left_start == r.left_start,
        r.without_col_right().cols == r.cols - 1,
{
}

/// Adding a column at the right keeps every stored cell and the first
/// shown column, moves the end one column right, and the newly shown
/// column holds the cell stored there, or a new background cell.
pub proof fn lemma_add_col_right_keeps_cells(r: RowView)
    requires
        r.consistent(),
    ensures
        r.with_col_right().cols == r.cols + 1,
        r.with_col_right().left_start == r.left_start,
        r.with_col_right().consistent(),
        forall|i: int| 0 <= i < r.cells.len() ==> #[trigger] r.with_col_right().cells[i] == r.cells[i],
        r.cols < r.cells.len() ==> r.with_col_right().cells.len() == r.cells.len(),
        r.cols == r.cells.len() ==> r.with_col_right().cells.len() == r.cells.len() + 1
            && r.with_col_right().cells[r.cols as int] == Cell::Base,
{
}

/// Hiding a column at the right and then one at the left keeps the hidden
/// right cell stored, so growing at the right shows it again.
pub proof fn lemma_hidden_right_cell_survives_left_removal(r: RowView)
    requires
        r.consistent(),
        r.cols > 0,
    ensures
        r.without_col_right().without_col_left().with_col_right().cells[r.cols - 1]
            == r.cells[r.cols - 1],
        r.without_col_right().without_col_left().with_col_right().cols == r.cols,
{
}

/// The left grow button on a row shown from column 0 moves the shown cells
/// one column left: the first stored cell is dropped, the window keeps its
/// place, and the last shown column holds the next stored cell, or a new
/// background cell.
pub proof fn lemma_grow_left_at_column_zero_moves_cells_left(r: RowView)
    requires
        r.consistent(),
        r.left_start == 0,
        r.cols > 0,
    ensures
        r.edited(EditAction::GrowLeft).left_start == 0,
        r.edited(EditAction::GrowLeft).cols == r.cols,
        r.edited(EditAction::GrowLeft).consistent(),
        forall|i: int| 0 <= i < r.cols - 1 ==> #[trigger] r.edited(EditAction::GrowLeft).cells[i]
            == r.cells[i + 1],
        r.edited(EditAction::GrowLeft).cells[r.cols - 1] == (if r.cols < r.cells.len() {
            r.cells[r.cols as int]
        } else {
            Cell::Base
        }),
{
}

/// The left grow button on a row shown from a column past 0 keeps the
/// stored cells in place and shows one more column at the left.
pub proof fn lemma_grow_left_past_zero_keeps_cells(r: RowView)
    requires
        r.consistent(),
        r.left_start > 0,
    ensures
        r.edited(EditAction::GrowLeft).left_start == r.left_start - 1,
        r.edited(EditAction::GrowLeft).cols == r.cols,
        forall|i: int| 0 <= i < r.cells.len() ==> #[trigger] r.edited(EditAction::GrowLeft).cells[i]
            == r.cells[i],
{
}

/// The other buttons: shrinking at either end and growing at the right
/// keep every stored cell in place.
pub proof fn lemma_other_buttons_keep_cells(r: RowView)
    requires
        r.consistent(),
    ensures
        forall|i: int| 0 <= i < r.cells.len() ==> #[trigger] r.edited(EditAction::ShrinkLeft).cells[i]
            == r.cells[i],
        r.edited(EditAction::ShrinkLeft).left_start == r.left_start + 1,
        r.edited(EditAction::ShrinkLeft).cols == r.cols,
        r.cols > 0 ==> r.edited(EditAction::ShrinkRight).cols == r.cols - 1
            && r.edited(EditAction::ShrinkRight).left_start == r.left_start
            && forall|i: int| 0 <= i < r.cells.len() ==> #[trigger] r.edited(EditAction::ShrinkRight).cells[i]
                == r.cells[i],
        r.edited(EditAction::GrowRight).cols == r.cols + 1,
        r.edited(EditAction::GrowRight).left_start == r.left_start,
        forall|i: int| 0 <= i < r.cells.len() ==> #[trigger] r.edited(EditAction::GrowRight).cells[i]
            == r.cells[i],
{
}

/// Writing a cell replaces that stored cell and nothing else.
pub proof fn lemma_with_cell_replaces_one(r: RowView, col: int, c: Cell)
    requires
        0 <= col < r.cells.len(),
    ensures
        r.with_cell(col, c).cells.len() == r.cells.len(),
        r.with_cell(col, c).cells[col] == c,
        forall|i: int| 0 <= i < r.cells.len() && i != col ==> #[trigger] r.with_cell(col, c).cells[i]
            == r.cells[i],
        r.with_cell(col, c).left_start == r.left_start,
        r.with_cell(col, c).cols == r.cols,
{
}

} // verus!
