use vstd::prelude::*;

verus! {

/// A 1-based source coordinate: `row` is the line and `col` the column of a
/// character, counted from the start of the input.
#[derive(Clone, Copy, Debug, PartialEq, Eq, Structural)]
pub struct Pos {
    pub col: usize,
    pub row: usize,
}

impl Pos {
    pub fn new(col: usize, row: usize) -> (r: Pos)
        ensures
            r.col == col,
            r.row == row,
    {
        Pos { col, row }
    }
}

} // verus!
