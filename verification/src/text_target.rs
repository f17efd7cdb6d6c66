//! What a delete-class command acts on.

use vstd::prelude::*;

verus! {

#[derive(Clone, Copy, Debug)]
pub enum TextTarget {
    Nothing,
    All,
    WholeRow,
    RowAfterCursor,
    UnderCursor,
    Char(char),
}

} // verus!
