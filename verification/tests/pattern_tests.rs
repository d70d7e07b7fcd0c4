use pattern_grid::cell::Cell;
use pattern_grid::edit::EditAction;
use pattern_grid::pattern::Pattern;

fn row_cells(p: &Pattern, row: usize, n: usize) -> Vec<Cell> {
    (0..n).map(|c| *p.cell(row, c)).collect()
}

#[test]
fn default_pattern_is_empty() {
    let p = Pattern::default();
    assert_eq!(p.rows(), 0);
}

#[test]
fn add_row_appends_background_row() {
    let mut p = Pattern::default();
    p.add_row(3);
    p.add_row(0);
    assert_eq!(p.rows(), 2);
    assert_eq!(p.cols(0), 3);
    assert_eq!(p.left_start(0), 0);
    assert_eq!(row_cells(&p, 0, 3), vec![Cell::Base; 3]);
    assert_eq!(p.cols(1), 0);
}

#[test]
fn initial_pattern_shape() {
    let p = Pattern::initial();
    assert_eq!(p.rows(), 27);
    for r in 0..27 {
        let expected = if r < 8 { 20 } else if r < 16 { 21 } else if r < 24 { 22 } else { 23 };
        assert_eq!(p.cols(r), expected, "row {}", r);
        assert_eq!(p.left_start(r), 0);
        assert!(p.cell(r, expected - 1).is_base());
    }
}

#[test]
fn shift_right_pads_front_and_moves_window() {
    let mut p = Pattern::default();
    p.add_row(2);
    *p.cell_mut(0, 1) = Cell::Color1;
    p.shift_right(0);
    assert_eq!(p.left_start(0), 1);
    assert_eq!(p.cols(0), 3);
    assert_eq!(row_cells(&p, 0, 3), vec![Cell::Base, Cell::Base, Cell::Color1]);
}

#[test]
fn shift_left_with_offset_moves_window_back() {
    let mut p = Pattern::default();
    p.add_row(2);
    p.shift_right(0);
    p.shift_left(0);
    assert_eq!(p.left_start(0), 0);
    assert_eq!(p.cols(0), 2);
    // the padding cell stays stored
    assert_eq!(row_cells(&p, 0, 3), vec![Cell::Base; 3]);
}

#[test]
fn shift_left_at_zero_drops_first_cell() {
    let mut p = Pattern::default();
    p.add_row(3);
    *p.cell_mut(0, 1) = Cell::Color1;
    p.shift_left(0);
    assert_eq!(p.left_start(0), 0);
    assert_eq!(p.cols(0), 2);
    assert_eq!(row_cells(&p, 0, 2), vec![Cell::Color1, Cell::Base]);
}

#[test]
fn add_col_left_inserts_in_front() {
    let mut p = Pattern::default();
    p.add_row(1);
    *p.cell_mut(0, 0) = Cell::Color1;
    p.add_col_left(0);
    assert_eq!(p.cols(0), 2);
    assert_eq!(p.left_start(0), 0);
    assert_eq!(row_cells(&p, 0, 2), vec![Cell::Base, Cell::Color1]);
}

#[test]
fn add_col_left_then_shift_left_restores_row() {
    let mut p = Pattern::default();
    p.add_row(2);
    *p.cell_mut(0, 0) = Cell::Color1;
    p.add_col_left(0);
    p.shift_left(0);
    assert_eq!(p.cols(0), 2);
    assert_eq!(p.left_start(0), 0);
    assert_eq!(row_cells(&p, 0, 2), vec![Cell::Color1, Cell::Base]);
}

#[test]
fn remove_col_left_hides_first_column() {
    let mut p = Pattern::default();
    p.add_row(4);
    p.remove_col_left(0);
    p.remove_col_left(0);
    assert_eq!(p.left_start(0), 2);
    assert_eq!(p.cols(0), 4);
}

#[test]
fn add_col_right_reuses_hidden_cell() {
    let mut p = Pattern::default();
    p.add_row(3);
    *p.cell_mut(0, 2) = Cell::Color1;
    p.remove_col_right(0);
    assert_eq!(p.cols(0), 2);
    // the hidden cell keeps its colour
    assert_eq!(*p.cell(0, 2), Cell::Color1);
    p.add_col_right(0);
    assert_eq!(p.cols(0), 3);
    assert_eq!(row_cells(&p, 0, 3), vec![Cell::Base, Cell::Base, Cell::Color1]);
}

#[test]
fn add_col_right_stores_new_cell_when_full() {
    let mut p = Pattern::default();
    p.add_row(1);
    p.add_col_right(0);
    assert_eq!(p.cols(0), 2);
    assert_eq!(*p.cell(0, 1), Cell::Base);
}

#[test]
fn operations_touch_only_their_row() {
    let mut p = Pattern::default();
    p.add_row(2);
    p.add_row(2);
    p.shift_right(1);
    p.add_col_left(1);
    assert_eq!(p.cols(0), 2);
    assert_eq!(p.left_start(0), 0);
    assert_eq!(p.cols(1), 4);
    assert_eq!(p.left_start(1), 1);
}

#[test]
fn cell_mut_write_then_read() {
    let mut p = Pattern::default();
    p.add_row(2);
    p.add_row(2);
    *p.cell_mut(1, 0) = Cell::Color1;
    assert_eq!(*p.cell(1, 0), Cell::Color1);
    assert_eq!(*p.cell(1, 1), Cell::Base);
    assert_eq!(*p.cell(0, 0), Cell::Base);
}

#[test]
fn toggle_cell_twice_restores() {
    let mut p = Pattern::initial();
    p.toggle_cell(3, 4);
    assert!(p.cell(3, 4).is_color());
    assert!(p.cell(3, 5).is_base());
    p.toggle_cell(3, 4);
    assert!(p.cell(3, 4).is_base());
}

#[test]
fn apply_edit_shrink_left_rows_up_to() {
    let mut p = Pattern::initial();
    p.apply_edit(5, EditAction::ShrinkLeft);
    for r in 0..=5 {
        assert_eq!(p.left_start(r), 1);
    }
    assert_eq!(p.left_start(6), 0);
}

#[test]
fn apply_edit_grow_left_after_shrink_left() {
    let mut p = Pattern::initial();
    p.apply_edit(2, EditAction::ShrinkLeft);
    p.apply_edit(2, EditAction::GrowLeft);
    for r in 0..=2 {
        assert_eq!(p.left_start(r), 0);
        assert_eq!(p.cols(r), 20);
    }
}

#[test]
fn apply_edit_grow_left_on_unshifted_row_drops_front_cell() {
    let mut p = Pattern::default();
    p.add_row(3);
    *p.cell_mut(0, 0) = Cell::Color1;
    p.apply_edit(0, EditAction::GrowLeft);
    assert_eq!(p.left_start(0), 0);
    assert_eq!(p.cols(0), 3);
    assert_eq!(row_cells(&p, 0, 3), vec![Cell::Base; 3]);
}

#[test]
fn apply_edit_right_buttons() {
    let mut p = Pattern::initial();
    p.apply_edit(10, EditAction::GrowRight);
    assert_eq!(p.cols(0), 21);
    assert_eq!(p.cols(10), 22);
    assert_eq!(p.cols(11), 21);
    p.apply_edit(10, EditAction::ShrinkRight);
    p.apply_edit(10, EditAction::ShrinkRight);
    assert_eq!(p.cols(0), 19);
    assert_eq!(p.cols(10), 20);
    assert_eq!(p.cols(11), 21);
}

#[test]
fn cell_predicates_and_color() {
    assert!(Cell::Base.is_base());
    assert!(!Cell::Base.is_color());
    assert!(Cell::Color1.is_color());
    assert!(!Cell::Color1.is_base());
    assert_eq!(Cell::Base.color(1u32, 2u32), 1);
    assert_eq!(Cell::Color1.color(1u32, 2u32), 2);
}
