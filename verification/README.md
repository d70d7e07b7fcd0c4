# pattern_grid

A grid of pattern cells edited row by row, as in a knitting or bead-weaving
pattern editor. Each row stores its cells and shows a window of them, from a
first shown column to an end column; the window can be widened, narrowed and
shifted from either side.

- `src/cell.rs`: the cell kinds, and which colour a cell is drawn in.
- `src/pattern.rs`: the pattern, its row operations and its model
  (`Seq<RowView>`) with the invariant that every shown column has a stored cell.
- `src/edit.rs`: the column buttons beside a row, applied to that row and every
  row above it.
- `src/layout.rs`: where a cell's square and button lie on screen.
- `src/laws.rs`: properties that relate the operations.
- `app/`: the OpenGL/SDL editor window around the library.
