//! A cursor position inside a document: `x` is a character offset within a
//! line, `y` is a line index. Both are 0-based; no negative values exist.

use vstd::prelude::*;

verus! {

#[derive(Clone, Copy, Debug, PartialEq, Eq, Structural)]
pub struct Position {
    pub x: usize,
    pub y: usize,
}

} // verus!
