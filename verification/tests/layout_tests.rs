use pattern_grid::layout::{CellRect, GridLayout};

fn layout(draw_grid: bool, thick: i32) -> GridLayout {
    GridLayout { thick, start_x: 250, start_y: 50, grid_width: 20, grid_height: 20, draw_grid }
}

#[test]
fn rect_with_grid_lines() {
    let g = layout(true, 4);
    assert!(g.rect_in_range(2, 3));
    assert_eq!(g.rect_for_cell(2, 3), CellRect { x: 312, y: 92, w: 16, h: 16 });
}

#[test]
fn rect_without_grid_lines() {
    let g = layout(false, 4);
    assert_eq!(g.rect_for_cell(2, 3), CellRect { x: 310, y: 90, w: 20, h: 20 });
}

#[test]
fn rect_for_button_columns_left_of_grid() {
    let g = layout(false, 4);
    assert_eq!(g.rect_for_cell(0, -2), CellRect { x: 210, y: 50, w: 20, h: 20 });
    assert_eq!(g.rect_for_cell(1, -1), CellRect { x: 230, y: 70, w: 20, h: 20 });
}

#[test]
fn rect_odd_negative_thickness_rounds_toward_zero() {
    let g = GridLayout { thick: -3, start_x: 0, start_y: 0, grid_width: 10, grid_height: 10, draw_grid: true };
    assert_eq!(g.rect_for_cell(0, 0), CellRect { x: -1, y: -1, w: 13, h: 13 });
    let g = GridLayout { thick: 5, start_x: 0, start_y: 0, grid_width: 10, grid_height: 10, draw_grid: true };
    assert_eq!(g.rect_for_cell(1, 1), CellRect { x: 12, y: 12, w: 5, h: 5 });
}

#[test]
fn outline_is_whole_square() {
    let g = layout(true, 4);
    assert!(g.outline_in_range(2, 3));
    assert_eq!(g.outline_for_cell(2, 3), CellRect { x: 310, y: 90, w: 20, h: 20 });
}

#[test]
fn ranges_detect_overflow() {
    let g = GridLayout { thick: 4, start_x: i32::MAX - 1, start_y: 0, grid_width: 20, grid_height: 20, draw_grid: true };
    assert!(!g.rect_in_range(0, 0));
    assert!(g.outline_in_range(0, 0));
    assert!(!g.outline_in_range(0, 1));
    let g = GridLayout { thick: 0, start_x: 0, start_y: 0, grid_width: i32::MAX, grid_height: 1, draw_grid: false };
    assert!(!g.rect_in_range(0, 2));
    assert!(g.rect_in_range(0, 1));
}
