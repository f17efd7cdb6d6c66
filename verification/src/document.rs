//! The line-oriented text buffer: an ordered sequence of rows, mutated
//! through position-indexed operations. The buffer knows nothing of keys,
//! modes, or rendering; positions handed to it must satisfy the stated
//! preconditions (upstream cursor-bounding is the callers' duty).
//!
//! The view of a document is the sequence of its rows' character sequences.
//! Every mutation is specified by a spec-level transition function over that
//! view; the round-trip laws at the end of the file are proved over the same
//! functions.

use vstd::prelude::*;
use crate::position::Position;
use crate::row::Row;
use crate::text::string_of_chars;
use crate::text_target::TextTarget;

verus! {

pub struct Document {
    pub rows: Vec<Row>,
    pub file_name: String,
}

impl View for Document {
    type V = Seq<Seq<char>>;

    open spec fn view(&self) -> Seq<Seq<char>> {
        self.rows@.map_values(|r: Row| r@)
    }
}

/// The length of line `y`, or 0 when `y` is out of range.
pub open spec fn line_len(rows: Seq<Seq<char>>, y: int) -> nat {
    if 0 <= y < rows.len() {
        rows[y].len()
    } else {
        0
    }
}

/// A position that addresses an existing line, at a column no further than
/// one past its last character.
pub open spec fn valid_pos(rows: Seq<Seq<char>>, x: int, y: int) -> bool {
    0 <= y < rows.len() && 0 <= x <= rows[y].len()
}

/// Effect of `insert`: the character becomes the one at offset `x` of line
/// `y`; a line one past the end is first created empty.
pub open spec fn spec_insert(rows: Seq<Seq<char>>, x: int, y: int, c: char) -> Seq<Seq<char>> {
    if y < rows.len() {
        rows.update(y, rows[y].insert(x, c))
    } else {
        rows.push(seq![c])
    }
}

/// Effect of `insert_str`: the text is spliced into line `y` at offset `x`;
/// a line one past the end is first created empty.
pub open spec fn spec_insert_text(rows: Seq<Seq<char>>, x: int, y: int, text: Seq<char>) -> Seq<
    Seq<char>,
> {
    if y < rows.len() {
        rows.update(y, rows[y].subrange(0, x) + text + rows[y].subrange(x, rows[y].len() as int))
    } else {
        rows.push(text)
    }
}

/// Effect of `remove_behind` (backspace) on the buffer and the cursor:
/// at `(0, 0)` nothing happens; at `(0, y)` line `y` is merged onto line
/// `y - 1` and the cursor lands at the join point; otherwise the character
/// before the cursor is removed and the cursor steps left.
pub open spec fn spec_remove_behind(rows: Seq<Seq<char>>, x: int, y: int) -> (
    Seq<Seq<char>>,
    int,
    int,
) {
    if x == 0 {
        if y == 0 {
            (rows, 0, 0)
        } else {
            (rows.remove(y).update(y - 1, rows[y - 1] + rows[y]), rows[y - 1].len() as int, y - 1)
        }
    } else {
        (rows.update(y, rows[y].remove(x - 1)), x - 1, y)
    }
}

/// Effect of `remove_ahead` (delete-forward): past the last line nothing
/// happens; at end of a line the following line (if any) is appended to it,
/// with no single character removed; otherwise the character under the
/// cursor is removed and returned.
pub open spec fn spec_remove_ahead(rows: Seq<Seq<char>>, x: int, y: int) -> (
    Seq<Seq<char>>,
    Option<char>,
) {
    if y >= rows.len() {
        (rows, None)
    } else if x == rows[y].len() {
        if y + 1 >= rows.len() {
            (rows, None)
        } else {
            (rows.remove(y + 1).update(y, rows[y] + rows[y + 1]), None)
        }
    } else {
        (rows.update(y, rows[y].remove(x)), Some(rows[y][x]))
    }
}

/// Effect of `add_line` (Enter): line `y` is split at column `x`; the suffix
/// becomes a new line right after it. A no-op when `y` is out of range.
pub open spec fn spec_add_line(rows: Seq<Seq<char>>, x: int, y: int) -> Seq<Seq<char>> {
    if y >= rows.len() {
        rows
    } else {
        rows.update(y, rows[y].subrange(0, x)).insert(
            y + 1,
            rows[y].subrange(x, rows[y].len() as int),
        )
    }
}

/// Effect of `delete` on the buffer, with the removed text.
pub open spec fn spec_delete(rows: Seq<Seq<char>>, x: int, y: int, target: TextTarget) -> (
    Seq<Seq<char>>,
    Seq<char>,
) {
    match target {
        TextTarget::UnderCursor => {
            let (rows2, removed) = spec_remove_ahead(rows, x, y);
            (
                rows2,
                match removed {
                    Some(c) => seq![c],
                    None => Seq::<char>::empty(),
                },
            )
        },
        TextTarget::WholeRow => (rows.remove(y), rows[y]),
        TextTarget::RowAfterCursor => {
            if y < rows.len() {
                (rows.update(y, rows[y].subrange(0, x)), rows[y].subrange(x, rows[y].len() as int))
            } else {
                (rows, Seq::<char>::empty())
            }
        },
        _ => (rows, Seq::<char>::empty()),
    }
}

/// What `delete` demands of the position, per target. Reserved targets
/// (`Nothing`, `All`, `Char`) demand nothing: they are defined no-ops.
pub open spec fn delete_pre(rows: Seq<Seq<char>>, x: int, y: int, target: TextTarget) -> bool {
    match target {
        TextTarget::UnderCursor => y < rows.len() ==> x <= rows[y].len(),
        TextTarget::WholeRow => 0 <= y < rows.len(),
        TextTarget::RowAfterCursor => y < rows.len() ==> x <= rows[y].len(),
        _ => true,
    }
}

impl Document {
    /// The number of lines in the document.
    pub fn len(&self) -> (r: usize)
        ensures
            r == self@.len(),
    {
        self.rows.len()
    }

    /// Whether the document has no lines at all. An empty document is
    /// distinct from a document with one empty line.
    pub fn is_empty(&self) -> (r: bool)
        ensures
            r <==> self@.len() == 0,
    {
        self.rows.is_empty()
    }

    /// The length of the line the position addresses, or 0 when its line
    /// index is out of range.
    pub fn current_row_length(&self, at: &Position) -> (r: usize)
        ensures
            r == line_len(self@, at.y as int),
    {
        if at.y < self.rows.len() {
            let row = &self.rows[at.y];
            row.len()
        } else {
            0
        }
    }

    /// Inserts `c` at `(at.x, at.y)`. A line index one past the end first
    /// creates that line empty; a column out of range of an existing line is
    /// out of contract.
    pub fn insert(&mut self, at: &Position, c: char)
        requires
            at.y <= old(self)@.len(),
            at.x <= line_len(old(self)@, at.y as int),
        ensures
            final(self)@ == spec_insert(old(self)@, at.x as int, at.y as int, c),
            final(self).file_name@ == old(self).file_name@,
    {
        if at.y < self.rows.len() {
            let row = &mut self.rows[at.y];
            row.insert_char(at.x, c);
            proof {
                assert(self@ =~= spec_insert(old(self)@, at.x as int, at.y as int, c));
            }
        } else {
            let mut row = Row::empty();
            row.insert_char(at.x, c);
            self.rows.insert(at.y, row);
            proof {
                assert(row@ =~= seq![c]);
                assert(self@ =~= spec_insert(old(self)@, at.x as int, at.y as int, c));
            }
        }
    }

    /// Inserts `text` at `(at.x, at.y)`, with the same line-creation policy
    /// as `insert`.
    pub fn insert_str(&mut self, at: &Position, text: &str)
        requires
            at.y <= old(self)@.len(),
            at.x <= line_len(old(self)@, at.y as int),
        ensures
            final(self)@ == spec_insert_text(old(self)@, at.x as int, at.y as int, text@),
            final(self).file_name@ == old(self).file_name@,
    {
        if at.y < self.rows.len() {
            let row = &mut self.rows[at.y];
            row.insert_text(at.x, text);
            proof {
                assert(self@ =~= spec_insert_text(old(self)@, at.x as int, at.y as int, text@));
            }
        } else {
            let mut row = Row::empty();
            row.insert_text(at.x, text);
            self.rows.insert(at.y, row);
            proof {
                assert(row@ =~= text@);
                assert(self@ =~= spec_insert_text(old(self)@, at.x as int, at.y as int, text@));
            }
        }
    }

    /// Backspace at `at`, moving the cursor with the edit: a no-op at the
    /// very start of the document; a merge with the previous line at column
    /// 0 elsewhere; otherwise removal of the character before the cursor.
    pub fn remove_behind(&mut self, at: &mut Position)
        requires
            (old(at).x == 0 && old(at).y == 0) || valid_pos(
                old(self)@,
                old(at).x as int,
                old(at).y as int,
            ),
        ensures
            ({
                let (rows2, x2, y2) = spec_remove_behind(
                    old(self)@,
                    old(at).x as int,
                    old(at).y as int,
                );
                final(self)@ == rows2 && final(at).x == x2 && final(at).y == y2
            }),
            final(self).file_name@ == old(self).file_name@,
    {
        if at.x == 0 {
            if at.y == 0 {
                return ;
            }
            let removed = self.rows.remove(at.y);
            let prev = &mut self.rows[at.y - 1];
            at.x = prev.len();
            prev.append_row(removed);
            at.y = at.y - 1;
            proof {
                assert(self@ =~= spec_remove_behind(
                    old(self)@,
                    old(at).x as int,
                    old(at).y as int,
                ).0);
            }
        } else {
            let row = &mut self.rows[at.y];
            row.remove_char(at.x - 1);
            at.x = at.x - 1;
            proof {
                assert(self@ =~= spec_remove_behind(
                    old(self)@,
                    old(at).x as int,
                    old(at).y as int,
                ).0);
            }
        }
    }

    /// Delete-forward at `at`. The cursor itself never moves. At the end of
    /// a line the next line is pulled up (no character returned); at the end
    /// of the document nothing happens; otherwise the character under the
    /// cursor is removed and returned.
    pub fn remove_ahead(&mut self, at: &mut Position) -> (r: Option<char>)
        requires
            old(at).y < old(self)@.len() ==> old(at).x <= old(self)@[old(at).y as int].len(),
        ensures
            ({
                let (rows2, removed) = spec_remove_ahead(
                    old(self)@,
                    old(at).x as int,
                    old(at).y as int,
                );
                final(self)@ == rows2 && r == removed
            }),
            *final(at) == *old(at),
            final(self).file_name@ == old(self).file_name@,
    {
        if at.y >= self.rows.len() {
            return None;
        }
        let row_len = {
            let row = &self.rows[at.y];
            row.len()
        };
        if at.x == row_len {
            if at.y + 1 >= self.rows.len() {
                return None;
            }
            let next = self.rows.remove(at.y + 1);
            let row = &mut self.rows[at.y];
            row.append_row(next);
            proof {
                assert(self@ =~= spec_remove_ahead(
                    old(self)@,
                    old(at).x as int,
                    old(at).y as int,
                ).0);
            }
            None
        } else {
            let row = &mut self.rows[at.y];
            let c = row.remove_char(at.x);
            proof {
                assert(self@ =~= spec_remove_ahead(
                    old(self)@,
                    old(at).x as int,
                    old(at).y as int,
                ).0);
            }
            Some(c)
        }
    }

    /// Inserts a blank line at `min(at.y, len)`.
    pub fn _add_blank_line(&mut self, at: &Position)
        ensures
            final(self)@ == old(self)@.insert(
                if at.y < old(self)@.len() {
                    at.y as int
                } else {
                    old(self)@.len() as int
                },
                Seq::<char>::empty(),
            ),
            final(self).file_name@ == old(self).file_name@,
    {
        let n = self.rows.len();
        let index = if at.y < n {
            at.y
        } else {
            n
        };
        self.rows.insert(index, Row::empty());
        proof {
            assert(self@ =~= old(self)@.insert(index as int, Seq::<char>::empty()));
        }
    }

    /// Inserts a new line at `min(at.y, len)` pre-filled with `at.x` spaces,
    /// for opening a line above or below with the cursor already indented.
    pub fn add_line_with_spaces_to_cursor(&mut self, at: &Position)
        ensures
            final(self)@ == old(self)@.insert(
                if at.y < old(self)@.len() {
                    at.y as int
                } else {
                    old(self)@.len() as int
                },
                Seq::new(at.x as nat, |i: int| ' '),
            ),
            final(self).file_name@ == old(self).file_name@,
    {
        let n = self.rows.len();
        let index = if at.y < n {
            at.y
        } else {
            n
        };
        self.rows.insert(index, Row::of_spaces(at.x));
        proof {
            assert(self@ =~= old(self)@.insert(
                index as int,
                Seq::new(at.x as nat, |i: int| ' '),
            ));
        }
    }

    /// Enter at `at`: splits line `at.y` at column `at.x`; the suffix
    /// becomes a new line right after it. A no-op when the line index is out
    /// of range.
    pub fn add_line(&mut self, at: &Position)
        requires
            at.y < old(self)@.len() ==> at.x <= old(self)@[at.y as int].len(),
        ensures
            final(self)@ == spec_add_line(old(self)@, at.x as int, at.y as int),
            final(self).file_name@ == old(self).file_name@,
    {
        if at.y >= self.rows.len() {
            return ;
        }
        let suffix = {
            let row = &self.rows[at.y];
            row.suffix_from(at.x)
        };
        self.rows.insert(at.y + 1, suffix);
        let row = &mut self.rows[at.y];
        row.truncate(at.x);
        proof {
            assert(self@ =~= spec_add_line(old(self)@, at.x as int, at.y as int));
        }
    }

    /// Removes what `target` selects, returning the removed text: the
    /// character under the cursor, the whole line, or the rest of the line
    /// after the cursor. Reserved targets remove nothing. The cursor is
    /// never moved.
    pub fn delete(&mut self, at: &mut Position, target: &TextTarget) -> (r: String)
        requires
            delete_pre(old(self)@, old(at).x as int, old(at).y as int, *target),
        ensures
            ({
                let (rows2, removed) = spec_delete(
                    old(self)@,
                    old(at).x as int,
                    old(at).y as int,
                    *target,
                );
                final(self)@ == rows2 && r@ == removed
            }),
            *final(at) == *old(at),
            final(self).file_name@ == old(self).file_name@,
    {
        match target {
            TextTarget::UnderCursor => {
                match self.remove_ahead(at) {
                    Some(c) => {
                        let mut v: Vec<char> = Vec::new();
                        v.push(c);
                        let s = string_of_chars(&v);
                        proof {
                            assert(v@ =~= seq![c]);
                        }
                        s
                    },
                    None => String::new(),
                }
            },
            TextTarget::WholeRow => {
                let removed = self.rows.remove(at.y);
                proof {
                    assert(self@ =~= old(self)@.remove(at.y as int));
                }
                removed.text()
            },
            TextTarget::RowAfterCursor => {
                if at.y < self.rows.len() {
                    let suffix = {
                        let row = &self.rows[at.y];
                        row.suffix_from(at.x)
                    };
                    let removed_text = suffix.text();
                    let row = &mut self.rows[at.y];
                    row.truncate(at.x);
                    proof {
                        assert(self@ =~= spec_delete(
                            old(self)@,
                            old(at).x as int,
                            old(at).y as int,
                            *target,
                        ).0);
                    }
                    removed_text
                } else {
                    String::new()
                }
            },
            _ => String::new(),
        }
    }
}

impl Default for Document {
    /// An empty document with no file name.
    fn default() -> (r: Document)
        ensures
            r@ == Seq::<Seq<char>>::empty(),
            r.file_name@ == Seq::<char>::empty(),
    {
        Document { rows: Vec::new(), file_name: String::new() }
    }
}

/// Backspace right after an insertion undoes it: inserting `c` at `(x, y)`
/// and then removing behind `(x + 1, y)` restores the buffer and puts the
/// cursor back at `(x, y)`, for every character and every valid column.
pub proof fn lemma_insert_then_remove_behind(rows: Seq<Seq<char>>, x: int, y: int, c: char)
    requires
        valid_pos(rows, x, y),
    ensures
        spec_remove_behind(spec_insert(rows, x, y, c), x + 1, y) == (rows, x, y),
{
    let rows2 = spec_insert(rows, x, y, c);
    assert(rows2[y].remove(x) =~= rows[y]);
    assert(spec_remove_behind(rows2, x + 1, y).0 =~= rows);
}

/// Backspace at the very start of the document changes nothing: neither the
/// buffer nor the cursor.
pub proof fn lemma_remove_behind_origin(rows: Seq<Seq<char>>)
    ensures
        spec_remove_behind(rows, 0, 0) == (rows, 0int, 0int),
{
}

/// Backspace at column 0 of a later line merges that line onto the previous
/// one: the previous line becomes the concatenation, every other line keeps
/// its text, and the cursor lands at the previous line's pre-merge length.
pub proof fn lemma_remove_behind_merges(rows: Seq<Seq<char>>, y: int)
    requires
        0 < y < rows.len(),
    ensures
        ({
            let (rows2, x2, y2) = spec_remove_behind(rows, 0, y);
            rows2.len() == rows.len() - 1 && rows2[y - 1] == rows[y - 1] + rows[y] && x2 == rows[y
                - 1].len() && y2 == y - 1 && (forall|i: int| 0 <= i < y - 1 ==> rows2[i] == rows[i])
                && (forall|i: int| y <= i < rows2.len() ==> rows2[i] == rows[i + 1])
        }),
{
}

/// Splitting a line and immediately merging the two halves back is the
/// identity: `add_line` at `(x, y)` followed by backspace at `(0, y + 1)`
/// returns the buffer to its prior state and the cursor to `(x, y)`.
pub proof fn lemma_add_line_then_remove_behind(rows: Seq<Seq<char>>, x: int, y: int)
    requires
        valid_pos(rows, x, y),
    ensures
        spec_remove_behind(spec_add_line(rows, x, y), 0, y + 1) == (rows, x, y),
{
    let rows2 = spec_add_line(rows, x, y);
    assert(rows2[y] + rows2[y + 1] =~= rows[y]);
    assert(spec_remove_behind(rows2, 0, y + 1).0 =~= rows);
    assert(rows2[y].len() == x);
}

} // verus!
