use vstd::prelude::*;
use crate::pattern::{Pattern, RowView, rows_consistent};

verus! {

/// The column buttons beside a row of the editor. Each applies to that
/// row and to every row above it.
#[derive(Copy, Clone, Debug, PartialEq, Eq, Structural)]
pub enum EditAction {
    /// Show one more column at the left end (the left "<" button).
    GrowLeft,
    /// Hide the first shown column (the left ">" button).
    ShrinkLeft,
    /// Hide the last shown column (the right "<" button).
    ShrinkRight,
    /// Show one more column at the right end (the right ">" button).
    GrowRight,
}

impl RowView {
    /// What `action` does to one row.
    pub open spec fn edited(self, action: EditAction) -> RowView {
        match action {
            EditAction::GrowLeft => self.with_col_right().shifted_left(),
            EditAction::ShrinkLeft => self.without_col_left(),
            EditAction::ShrinkRight => self.without_col_right(),
            EditAction::GrowRight => self.with_col_right(),
        }
    }

    /// The row can take `action` without running out of columns or past
    /// the largest machine index.
    pub open spec fn edit_allowed(self, action: EditAction) -> bool {
        match action {
            EditAction::GrowLeft => true,
            EditAction::ShrinkLeft => self.left_start < usize::MAX,
            EditAction::ShrinkRight => self.cols > 0,
            EditAction::GrowRight => true,
        }
    }
}

/// The rows after `action` was applied to rows `0..=row`.
pub open spec fn edited_up_to(rows: Seq<RowView>, row: int, action: EditAction) -> Seq<RowView> {
    Seq::new(rows.len(), |i: int| if i <= row { rows[i].edited(action) } else { rows[i] })
}

impl Pattern {
    /// Applies `action` to `row` and to every row above it, as the column
    /// buttons beside `row` do.
    pub fn apply_edit(&mut self, row: usize, action: EditAction)
        requires
            old(self).wf(),
            row < old(self)@.len(),
            forall|i: int| 0 <= i <= row ==> #[trigger] old(self)@[i].edit_allowed(action),
        ensures
            final(self).wf(),
            final(self)@ == edited_up_to(old(self)@, row as int, action),
    {
        let ghost start = self@;
        proof { self.lemma_rows_fit(); }
        let mut i: usize = 0;
        while i <= row
            invariant
                self.wf(),
                row < start.len() <= usize::MAX,
                i <= row + 1,
                rows_consistent(start),
                forall|k: int| 0 <= k <= row ==> #[trigger] start[k].edit_allowed(action),
                self@ == edited_up_to(start, i as int - 1, action),
            decreases row + 1 - i,
        {
            proof {
                assert(start[i as int].consistent());
                assert(self@[i as int] == start[i as int]);
                assert(start[i as int].edit_allowed(action));
            }
            match action {
                EditAction::GrowLeft => {
                    self.add_col_right(i);
                    self.shift_left(i);
                },
                EditAction::ShrinkLeft => {
                    self.remove_col_left(i);
                },
                EditAction::ShrinkRight => {
                    self.remove_col_right(i);
                },
                EditAction::GrowRight => {
                    self.add_col_right(i);
                },
            }
            assert(self@ =~= edited_up_to(start, i as int, action));
            i = i + 1;
        }
    }
}

} // verus!
