//! The cell states a grid position can take, anchor positions, and the
//! 4x4 occupancy matrix a piece materializes to.

use vstd::prelude::*;

verus! {

/// One grid or matrix position is either empty or occupied.
#[derive(Clone, Copy, Debug, PartialEq, Eq, Structural)]
pub enum Cell {
    Empty,
    Solid,
}

/// A materialized matrix holds 4 rows of 4 cells.
pub const MATRIX_CELLS: usize = 16;

/// A grid coordinate: the anchor of a piece is the position of its
/// matrix's top-left cell.
#[derive(Clone, Copy, Debug, PartialEq, Eq, Structural)]
pub struct Point {
    pub x: usize,
    pub y: usize,
}

/// A materialized 4x4 occupancy matrix, row-major.
#[derive(Clone, Debug)]
pub struct CellMatrix {
    pub data: Vec<Cell>,
}

impl CellMatrix {
    /// A matrix is well formed when it holds exactly 16 cells.
    pub open spec fn wf(self) -> bool {
        self.data@.len() == MATRIX_CELLS
    }

    pub fn new(data: Vec<Cell>) -> (m: CellMatrix)
        requires
            data@.len() == MATRIX_CELLS,
        ensures
            m.wf(),
            m.data@ == data@,
    {
        CellMatrix { data }
    }
}

/// Whether at least one cell of a 16-cell matrix is solid.
pub open spec fn has_solid(s: Seq<Cell>) -> bool {
    exists|t: int| 0 <= t < 16 && s[t] == Cell::Solid
}

} // verus!
