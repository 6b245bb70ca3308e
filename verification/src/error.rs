use vstd::prelude::*;
use crate::pos::Pos;

verus! {

/// A lexing or parsing failure: a message, an optional chained parent error
/// for context layering, and the source position of the offending token.
#[derive(Debug)]
pub struct Error {
    pub msg: String,
    pub parent: Option<Box<Error>>,
    pub pos: Pos,
}

impl Error {
    pub fn new(msg: String, parent: Option<Box<Error>>, col: usize, row: usize) -> (r: Error)
        ensures
            r.msg == msg,
            r.parent == parent,
            r.pos.col == col,
            r.pos.row == row,
    {
        Error { msg, parent, pos: Pos { col, row } }
    }

    /// The row and column this error points at.
    pub fn pos(&self) -> (r: Pos)
        ensures
            r == self.pos,
    {
        self.pos
    }
}

} // verus!
