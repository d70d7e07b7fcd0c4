use vstd::prelude::*;

verus! {

/// The content of one square of the pattern.
#[derive(Copy, Clone, Debug, PartialEq, Eq, Structural)]
pub enum Cell {
    Base,
    Color1,
}

impl Cell {
    /// The other kind of cell.
    pub open spec fn toggled(self) -> Cell {
        match self {
            Cell::Base => Cell::Color1,
            Cell::Color1 => Cell::Base,
        }
    }

    /// Picks the colour a cell is drawn in: `color_1` for a coloured cell,
    /// `base_color` for a background one.
    pub fn color<T: Copy>(&self, base_color: T, color_1: T) -> (c: T)
        ensures
            c == (if *self == Cell::Color1 { color_1 } else { base_color }),
    {
        match self {
            Cell::Color1 => color_1,
            _ => base_color,
        }
    }

    /// True for the background cell.
    pub fn is_base(&self) -> (r: bool)
        ensures
            r == (*self == Cell::Base),
    {
        match self {
            Cell::Base => true,
            _ => false,
        }
    }

    /// True for a coloured cell.
    pub fn is_color(&self) -> (r: bool)
        ensures
            r == (*self == Cell::Color1),
    {
        match self {
            Cell::Color1 => true,
            _ => false,
        }
    }
}

} // verus!
