//! Terminal window geometry: a semantic record of rows, columns and cell
//! pixel sizes. The OS window-size record is built from these four fields by
//! whoever issues the resize control operation.

use vstd::prelude::*;

verus! {

/// Semantic window geometry of a terminal: character grid size and the pixel
/// size of one character cell.
#[allow(non_snake_case)]
pub struct WindowSize {
    pub numRows: u16,
    pub numCols: u16,
    pub cellWidth: u16,
    pub cellHeight: u16,
}

impl WindowSize {
    /// Builds a geometry value from its four components.
    pub fn new(rows: u16, cols: u16, cell_width: u16, cell_height: u16) -> (w: WindowSize)
        ensures
            w.numRows == rows,
            w.numCols == cols,
            w.cellWidth == cell_width,
            w.cellHeight == cell_height,
    {
        WindowSize { numRows: rows, numCols: cols, cellWidth: cell_width, cellHeight: cell_height }
    }

    /// The field order of the OS window-size record: rows, columns,
    /// horizontal pixels, vertical pixels.
    pub fn to_winsize(&self) -> (r: (u16, u16, u16, u16))
        ensures
            r == (self.numRows, self.numCols, self.cellWidth, self.cellHeight),
    {
        (self.numRows, self.numCols, self.cellWidth, self.cellHeight)
    }
}

} // verus!
