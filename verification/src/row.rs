//! One line of a document. A row owns its character storage; its view is the
//! sequence of characters it holds.

use vstd::prelude::*;
use crate::text::{chars_of_str, string_of_chars};

verus! {

pub struct Row {
    chars: Vec<char>,
}

impl View for Row {
    type V = Seq<char>;

    closed spec fn view(&self) -> Seq<char> {
        self.chars@
    }
}

/// The bounds `render` clips a requested `[start, end)` window to: `end` is
/// clamped to the line length, then `start` is clamped to the clamped `end`.
pub open spec fn render_bounds(line: Seq<char>, start: int, end: int) -> (int, int) {
    let e = if end > line.len() { line.len() as int } else { end };
    let s = if start > e { e } else { start };
    (s, e)
}

impl Row {
    /// An empty row.
    pub fn empty() -> (r: Row)
        ensures
            r@ == Seq::<char>::empty(),
    {
        Row { chars: Vec::new() }
    }

    /// A row holding the characters of `text`.
    pub fn of_text(text: &str) -> (r: Row)
        ensures
            r@ == text@,
    {
        Row { chars: chars_of_str(text) }
    }

    /// A row holding the given characters.
    pub fn of_chars(chars: Vec<char>) -> (r: Row)
        ensures
            r@ == chars@,
    {
        Row { chars }
    }

    /// A row of `n` spaces.
    pub fn of_spaces(n: usize) -> (r: Row)
        ensures
            r@ == Seq::new(n as nat, |i: int| ' '),
    {
        let chars: Vec<char> = vec![' '; n];
        proof {
            assert(chars@ =~= Seq::new(n as nat, |i: int| ' '));
        }
        Row { chars }
    }

    /// The number of characters in the row.
    pub fn len(&self) -> (r: usize)
        ensures
            r == self@.len(),
    {
        self.chars.len()
    }

    /// The character at offset `i`.
    pub fn char_at(&self, i: usize) -> (r: char)
        requires
            i < self@.len(),
        ensures
            r == self@[i as int],
    {
        self.chars[i]
    }

    /// The row's full text.
    pub fn text(&self) -> (r: String)
        ensures
            r@ == self@,
    {
        string_of_chars(&self.chars)
    }

    /// The window of the row between `start` and `end`, clipped so that any
    /// request is answered: `end` never reaches past the line, `start` never
    /// past the clipped `end`. The result never holds more characters than
    /// the row itself.
    pub fn render(&self, start: usize, end: usize) -> (r: String)
        ensures
            r@ == self@.subrange(
                render_bounds(self@, start as int, end as int).0,
                render_bounds(self@, start as int, end as int).1,
            ),
            r@.len() <= self@.len(),
    {
        let n = self.chars.len();
        let e = if end > n { n } else { end };
        let s = if start > e { e } else { start };
        let mut out: Vec<char> = Vec::new();
        let mut i: usize = s;
        while i < e
            invariant
                s <= i <= e <= self.chars@.len(),
                out@ == self.chars@.subrange(s as int, i as int),
            decreases e - i,
        {
            let c = self.chars[i];
            out.push(c);
            proof {
                assert(out@ =~= self.chars@.subrange(s as int, i + 1 as int));
            }
            i += 1;
        }
        string_of_chars(&out)
    }

    /// Inserts `c` so that it becomes the character at offset `x`.
    pub fn insert_char(&mut self, x: usize, c: char)
        requires
            x <= old(self)@.len(),
        ensures
            final(self)@ == old(self)@.insert(x as int, c),
    {
        self.chars.insert(x, c);
    }

    /// Removes and returns the character at offset `x`.
    pub fn remove_char(&mut self, x: usize) -> (r: char)
        requires
            x < old(self)@.len(),
        ensures
            final(self)@ == old(self)@.remove(x as int),
            r == old(self)@[x as int],
    {
        self.chars.remove(x)
    }

    /// Appends all characters of `other` to this row.
    pub fn append_row(&mut self, other: Row)
        ensures
            final(self)@ == old(self)@ + other@,
    {
        let mut tail = other.chars;
        self.chars.append(&mut tail);
    }

    /// Inserts the characters of `text` so that they start at offset `x`.
    pub fn insert_text(&mut self, x: usize, text: &str)
        requires
            x <= old(self)@.len(),
        ensures
            final(self)@ == old(self)@.subrange(0, x as int) + text@ + old(self)@.subrange(
                x as int,
                old(self)@.len() as int,
            ),
    {
        let incoming = chars_of_str(text);
        let mut i: usize = 0;
        let n = incoming.len();
        while i < n
            invariant
                i <= n,
                n == incoming@.len(),
                incoming@ == text@,
                x <= old(self)@.len(),
                x + i <= self.chars.len(),
                self.chars@.len() == old(self)@.len() + i,
                self.chars@ == old(self)@.subrange(0, x as int) + incoming@.subrange(0, i as int)
                    + old(self)@.subrange(x as int, old(self)@.len() as int),
            decreases n - i,
        {
            let c = incoming[i];
            self.chars.insert(x + i, c);
            proof {
                assert(self.chars@ =~= old(self)@.subrange(0, x as int) + incoming@.subrange(
                    0,
                    i + 1 as int,
                ) + old(self)@.subrange(x as int, old(self)@.len() as int));
            }
            i += 1;
        }
        proof {
            assert(incoming@.subrange(0, n as int) =~= text@);
            assert(self.chars@ =~= old(self)@.subrange(0, x as int) + text@ + old(self)@.subrange(
                x as int,
                old(self)@.len() as int,
            ));
        }
    }

    /// Shortens the row to its first `x` characters.
    pub fn truncate(&mut self, x: usize)
        requires
            x <= old(self)@.len(),
        ensures
            final(self)@ == old(self)@.subrange(0, x as int),
    {
        self.chars.truncate(x);
        proof {
            assert(self.chars@ =~= old(self)@.subrange(0, x as int));
        }
    }

    /// A new row holding the characters from offset `x` to the end.
    pub fn suffix_from(&self, x: usize) -> (r: Row)
        requires
            x <= self@.len(),
        ensures
            r@ == self@.subrange(x as int, self@.len() as int),
    {
        let n = self.chars.len();
        let mut out: Vec<char> = Vec::new();
        let mut i: usize = x;
        while i < n
            invariant
                x <= i <= n,
                n == self.chars@.len(),
                out@ == self.chars@.subrange(x as int, i as int),
            decreases n - i,
        {
            let c = self.chars[i];
            out.push(c);
            proof {
                assert(out@ =~= self.chars@.subrange(x as int, i + 1 as int));
            }
            i += 1;
        }
        Row { chars: out }
    }
}

impl Default for Row {
    /// An empty row.
    fn default() -> (r: Row)
        ensures
            r@ == Seq::<char>::empty(),
    {
        Row { chars: Vec::new() }
    }
}

} // verus!
