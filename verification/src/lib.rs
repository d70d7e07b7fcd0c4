//! A knitting-style pattern grid: rows of cells, each row with a visible
//! window of columns that can be widened, narrowed and shifted, plus the
//! screen layout of the grid.

pub mod cell;
pub mod pattern;
pub mod edit;
pub mod layout;
pub mod laws;
