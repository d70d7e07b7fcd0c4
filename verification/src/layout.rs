use vstd::prelude::*;

verus! {

/// A screen rectangle in pixels.
#[derive(Copy, Clone, Debug, PartialEq, Eq, Structural)]
pub struct CellRect {
    pub x: i32,
    pub y: i32,
    pub w: i32,
    pub h: i32,
}

/// Where and how large the pattern's squares are drawn on screen.
#[derive(Copy, Clone, Debug, PartialEq, Eq, Structural)]
pub struct GridLayout {
    /// Width of the grid lines drawn between squares.
    pub thick: i32,
    /// Screen position of column 0, row 0.
    pub start_x: i32,
    pub start_y: i32,
    /// Size of one square.
    pub grid_width: i32,
    pub grid_height: i32,
    /// Whether grid lines are drawn; squares shrink to leave room for them.
    pub draw_grid: bool,
}

/// Whether `v` is a value of `i32`.
pub open spec fn fits_i32(v: int) -> bool {
    i32::MIN <= v <= i32::MAX
}

/// Half of `v`, rounded toward zero, as integer division on `i32` does.
pub open spec fn half_toward_zero(v: int) -> int {
    if v >= 0 {
        v / 2
    } else {
        -((-v) / 2)
    }
}

impl GridLayout {
    /// The width of the grid lines that squares leave room for.
    pub open spec fn border(self) -> int {
        if self.draw_grid {
            self.thick as int
        } else {
            0
        }
    }

    /// How far a square's button sits inside its grid square.
    pub open spec fn inset(self) -> int {
        half_toward_zero(self.border())
    }

    /// Left edge of the grid square of column `col`.
    pub open spec fn square_x(self, col: int) -> int {
        self.start_x + col * self.grid_width
    }

    /// Top edge of the grid square of row `row`.
    pub open spec fn square_y(self, row: int) -> int {
        self.start_y + row * self.grid_height
    }

    /// Every step of the computation of `rect_for_cell(row, col)` stays
    /// within `i32`.
    pub open spec fn rect_fits(self, row: int, col: int) -> bool {
        &&& fits_i32(self.start_x + self.inset())
        &&& fits_i32(col * self.grid_width)
        &&& fits_i32(self.start_x + self.inset() + col * self.grid_width)
        &&& fits_i32(self.start_y + self.inset())
        &&& fits_i32(row * self.grid_height)
        &&& fits_i32(self.start_y + self.inset() + row * self.grid_height)
        &&& fits_i32(self.grid_width - self.border())
        &&& fits_i32(self.grid_height - self.border())
    }

    /// Every step of the computation of `outline_for_cell(row, col)` stays
    /// within `i32`.
    pub open spec fn outline_fits(self, row: int, col: int) -> bool {
        &&& fits_i32(col * self.grid_width)
        &&& fits_i32(self.square_x(col))
        &&& fits_i32(row * self.grid_height)
        &&& fits_i32(self.square_y(row))
    }

    /// The clickable square of the cell at `row`, `col`: its grid square,
    /// shrunk by the grid line width when grid lines are drawn.
    pub fn rect_for_cell(&self, row: i32, col: i32) -> (r: CellRect)
        requires
            self.rect_fits(row as int, col as int),
        ensures
            r.x == self.square_x(col as int) + self.inset(),
            r.y == self.square_y(row as int) + self.inset(),
            r.w == self.grid_width - self.border(),
            r.h == self.grid_height - self.border(),
    {
        let thick: i32 = if self.draw_grid { self.thick } else { 0 };
        let x: i32 = self.start_x + thick / 2 + col * self.grid_width;
        let y: i32 = self.start_y + thick / 2 + row * self.grid_height;
        let w: i32 = self.grid_width - thick;
        let h: i32 = self.grid_height - thick;
        CellRect { x, y, w, h }
    }

    /// The grid square of the cell at `row`, `col`, where its grid line
    /// is drawn.
    pub fn outline_for_cell(&self, row: i32, col: i32) -> (r: CellRect)
        requires
            self.outline_fits(row as int, col as int),
        ensures
            r.x == self.square_x(col as int),
            r.y == self.square_y(row as int),
            r.w == self.grid_width,
            r.h == self.grid_height,
    {
        let x: i32 = self.start_x + col * self.grid_width;
        let y: i32 = self.start_y + row * self.grid_height;
        CellRect { x, y, w: self.grid_width, h: self.grid_height }
    }

    /// Whether `rect_for_cell(row, col)` can be computed within `i32`.
    pub fn rect_in_range(&self, row: i32, col: i32) -> (b: bool)
        ensures
            b == self.rect_fits(row as int, col as int),
    {
        let thick: i64 = if self.draw_grid { self.thick as i64 } else { 0 };
        let inset: i64 = thick / 2;
        let col_off: i64 = product(col, self.grid_width);
        let row_off: i64 = product(row, self.grid_height);
        in_i32(self.start_x as i64 + inset) && in_i32(col_off)
            && in_i32(self.start_x as i64 + inset + col_off) && in_i32(self.start_y as i64 + inset)
            && in_i32(row_off) && in_i32(self.start_y as i64 + inset + row_off)
            && in_i32(self.grid_width as i64 - thick) && in_i32(self.grid_height as i64 - thick)
    }

    /// Whether `outline_for_cell(row, col)` can be computed within `i32`.
    pub fn outline_in_range(&self, row: i32, col: i32) -> (b: bool)
        ensures
            b == self.outline_fits(row as int, col as int),
    {
        let col_off: i64 = product(col, self.grid_width);
        let row_off: i64 = product(row, self.grid_height);
        in_i32(col_off) && in_i32(self.start_x as i64 + col_off) && in_i32(row_off)
            && in_i32(self.start_y as i64 + row_off)
    }
}

/// The product of two `i32` values, which always fits in `i64`.
fn product(a: i32, b: i32) -> (p: i64)
    ensures
        p == a as int * b as int,
{
    proof {
        assert(-0x8000_0000_0000_0000 <= a as int * b as int <= 0x7fff_ffff_ffff_ffff) by (nonlinear_arith)
            requires
                fits_i32(a as int),
                fits_i32(b as int),
        {
        }
    }
    a as i64 * b as i64
}

fn in_i32(v: i64) -> (b: bool)
    ensures
        b == fits_i32(v as int),
{
    i32::MIN as i64 <= v && v <= i32::MAX as i64
}

} // verus!
