//! The document's file form. Opening splits a file's text into lines —
//! a line ends at `'\n'` or at `"\r\n"`, and a final newline adds no line —
//! and expands each tab to four spaces before storage. Saving writes every
//! line followed by `'\n'`. The round-trip law at the end of the file says
//! the two are inverse on documents whose lines such a file can carry.

use vstd::prelude::*;
use crate::document::Document;
use crate::row::Row;
use crate::text::{chars_of_str, string_of_chars};

verus! {

/// Four spaces, what one tab becomes.
pub open spec fn tab_spaces() -> Seq<char> {
    seq![' ', ' ', ' ', ' ']
}

/// A trailing carriage return dropped: what remains of a segment when the
/// newline that closed it turned out to complete a `"\r\n"` ending.
pub open spec fn strip_cr(line: Seq<char>) -> Seq<char> {
    if line.len() > 0 && line.last() == '\r' {
        line.drop_last()
    } else {
        line
    }
}

/// Each tab expanded to four spaces; every other character kept.
pub open spec fn expand_tabs(line: Seq<char>) -> Seq<char>
    decreases line.len(),
{
    if line.len() == 0 {
        Seq::<char>::empty()
    } else {
        expand_tabs(line.drop_last()) + (if line.last() == '\t' {
            tab_spaces()
        } else {
            seq![line.last()]
        })
    }
}

/// The segments of a text between its line endings, a line ending being
/// `'\n'` or `"\r\n"`. Read from the left: a newline closes the current
/// segment (dropping the carriage return of a `"\r\n"` ending) and opens a
/// new one. The final segment — what follows the last line ending — is
/// always present, possibly empty: a text with `k` line endings has `k + 1`
/// segments.
pub open spec fn split_segments(s: Seq<char>) -> Seq<Seq<char>>
    decreases s.len(),
{
    if s.len() == 0 {
        seq![Seq::<char>::empty()]
    } else {
        let init = split_segments(s.drop_last());
        let n = init.len() - 1;
        if s.last() == '\n' {
            init.update(n, strip_cr(init[n])).push(Seq::<char>::empty())
        } else {
            init.update(n, init[n].push(s.last()))
        }
    }
}

/// The stored lines of a file's text: its segments, without the final one
/// when that is empty (a trailing newline creates no line), each with tabs
/// expanded.
pub open spec fn parse_rows(s: Seq<char>) -> Seq<Seq<char>> {
    let segs = split_segments(s);
    let kept = if segs.last().len() == 0 {
        segs.drop_last()
    } else {
        segs
    };
    kept.map_values(|line: Seq<char>| expand_tabs(line))
}

/// A document's file form: every line followed by `'\n'`.
pub open spec fn serialize_rows(rows: Seq<Seq<char>>) -> Seq<char>
    decreases rows.len(),
{
    if rows.len() == 0 {
        Seq::<char>::empty()
    } else {
        serialize_rows(rows.drop_last()) + rows.last() + seq!['\n']
    }
}

/// A line a saved file can carry back unchanged: no newline (it would split
/// the line), no tab (it would come back as spaces), and no carriage return
/// at the end (it would read as part of a CRLF ending).
pub open spec fn persistable_line(line: Seq<char>) -> bool {
    !line.contains('\n') && !line.contains('\t') && (line.len() > 0 ==> line.last() != '\r')
}

/// A text always has at least one segment.
pub proof fn lemma_split_segments_nonempty(s: Seq<char>)
    ensures
        split_segments(s).len() >= 1,
    decreases s.len(),
{
    if s.len() > 0 {
        lemma_split_segments_nonempty(s.drop_last());
    }
}

/// Expansion never turns text into nothing, nor nothing into text.
pub proof fn lemma_expand_tabs_empty(line: Seq<char>)
    ensures
        expand_tabs(line).len() == 0 <==> line.len() == 0,
    decreases line.len(),
{
    if line.len() > 0 {
        lemma_expand_tabs_empty(line.drop_last());
    }
}

/// A line's expansion ends the way the line ends: with the same character,
/// or with a space where the line ends with a tab.
pub proof fn lemma_expand_tabs_last(line: Seq<char>)
    requires
        line.len() > 0,
    ensures
        expand_tabs(line).len() > 0,
        expand_tabs(line).last() == (if line.last() == '\t' {
            ' '
        } else {
            line.last()
        }),
        line.last() == '\r' ==> expand_tabs(line) == expand_tabs(line.drop_last()).push('\r'),
{
    lemma_expand_tabs_empty(line.drop_last());
    if line.last() == '\r' {
        assert(expand_tabs(line) =~= expand_tabs(line.drop_last()).push('\r'));
    }
}

/// A line without tabs expands to itself.
pub proof fn lemma_expand_tabs_identity(line: Seq<char>)
    requires
        !line.contains('\t'),
    ensures
        expand_tabs(line) == line,
    decreases line.len(),
{
    if line.len() > 0 {
        assert(line.last() != '\t');
        assert(!line.drop_last().contains('\t')) by {
            assert(forall|i: int|
                0 <= i < line.drop_last().len() ==> line.drop_last()[i] == line[i]);
        }
        lemma_expand_tabs_identity(line.drop_last());
        assert(expand_tabs(line) =~= line);
    }
}

/// Writing a newline-free line into a text extends its final segment by
/// exactly that line.
pub proof fn lemma_split_append_line(s: Seq<char>, line: Seq<char>)
    requires
        !line.contains('\n'),
    ensures
        ({
            let segs = split_segments(s);
            let n = segs.len() - 1;
            split_segments(s + line) == segs.update(n, segs[n] + line)
        }),
    decreases line.len(),
{
    lemma_split_segments_nonempty(s);
    let segs = split_segments(s);
    let n = segs.len() - 1;
    if line.len() == 0 {
        assert(s + line =~= s);
        assert(segs.update(n, segs[n] + line) =~~= segs);
    } else {
        assert(!line.drop_last().contains('\n')) by {
            assert(forall|i: int|
                0 <= i < line.drop_last().len() ==> line.drop_last()[i] == line[i]);
        }
        lemma_split_append_line(s, line.drop_last());
        let whole = s + line;
        assert(whole.len() > 0);
        assert(whole.last() == line.last());
        assert(whole.drop_last() =~= s + line.drop_last());
        assert(line.last() != '\n');
        let init = split_segments(s + line.drop_last());
        assert(init == segs.update(n, segs[n] + line.drop_last()));
        assert(init.len() - 1 == n);
        assert(split_segments(whole) == init.update(n, init[n].push(line.last())));
        assert(init[n].push(line.last()) =~= segs[n] + line);
        assert(split_segments(s + line) =~~= segs.update(n, segs[n] + line));
    }
}

/// The segments of a document's file form are its lines, with one empty
/// segment after the final newline.
pub proof fn lemma_split_serialized(rows: Seq<Seq<char>>)
    requires
        forall|i: int| 0 <= i < rows.len() ==> persistable_line(#[trigger] rows[i]),
    ensures
        split_segments(serialize_rows(rows)) == rows.push(Seq::<char>::empty()),
    decreases rows.len(),
{
    if rows.len() == 0 {
        assert(split_segments(serialize_rows(rows)) =~~= rows.push(Seq::<char>::empty()));
    } else {
        assert(forall|i: int|
            0 <= i < rows.drop_last().len() ==> persistable_line(#[trigger] rows.drop_last()[i]));
        lemma_split_serialized(rows.drop_last());
        let prior = serialize_rows(rows.drop_last());
        let segs = split_segments(prior);
        assert(segs == rows.drop_last().push(Seq::<char>::empty()));
        let line = rows.last();
        lemma_split_append_line(prior, line);
        let n = segs.len() - 1;
        assert(segs[n] == Seq::<char>::empty());
        assert(segs[n] + line =~= line);
        let mid = split_segments(prior + line);
        assert(mid == segs.update(n, segs[n] + line));
        assert(mid[n] == segs[n] + line);
        let whole = serialize_rows(rows);
        assert(whole == prior + line + seq!['\n']);
        assert(whole.len() > 0);
        assert(whole.last() == '\n');
        assert(whole.drop_last() =~= prior + line);
        assert(line.len() > 0 ==> line.last() != '\r');
        assert(strip_cr(mid[n]) == line) by {
            assert(segs[n] + line =~= line);
        }
        assert(split_segments(whole) == mid.update(n, strip_cr(mid[n])).push(
            Seq::<char>::empty(),
        ));
        assert(split_segments(whole) =~~= rows.push(Seq::<char>::empty()));
    }
}

/// Saving and re-opening reproduces a document line for line, whenever every
/// line is one a file can carry: free of newlines and tabs and not ending in
/// a carriage return.
pub proof fn lemma_parse_serialize(rows: Seq<Seq<char>>)
    requires
        forall|i: int| 0 <= i < rows.len() ==> persistable_line(#[trigger] rows[i]),
    ensures
        parse_rows(serialize_rows(rows)) == rows,
{
    lemma_split_serialized(rows);
    let segs = split_segments(serialize_rows(rows));
    assert(segs.last().len() == 0);
    assert(segs.drop_last() =~~= rows);
    assert forall|i: int| 0 <= i < rows.len() implies expand_tabs(#[trigger] rows[i])
        == rows[i] by {
        lemma_expand_tabs_identity(rows[i]);
    }
    assert(parse_rows(serialize_rows(rows)) =~~= rows);
}

impl Document {
    /// Builds a document from a file's text: lines end at `'\n'` or
    /// `"\r\n"`, a final newline adds no line, and each tab becomes four
    /// spaces. The file's name is kept for a later save.
    pub fn from_text(file_name: String, contents: &str) -> (r: Document)
        ensures
            r@ == parse_rows(contents@),
            r.file_name@ == file_name@,
    {
        let chars = chars_of_str(contents);
        let mut done: Vec<Row> = Vec::new();
        let mut cur: Vec<char> = Vec::new();
        let n = chars.len();
        let mut i: usize = 0;
        proof {
            assert(chars@.subrange(0, 0) =~= Seq::<char>::empty());
        }
        while i < n
            invariant
                i <= n,
                n == chars@.len(),
                chars@ == contents@,
                split_segments(chars@.subrange(0, i as int)).len() == done@.len() + 1,
                forall|k: int|
                    0 <= k < done@.len() ==> (#[trigger] done@[k])@ == expand_tabs(
                        split_segments(chars@.subrange(0, i as int))[k],
                    ),
                cur@ == expand_tabs(split_segments(chars@.subrange(0, i as int)).last()),
            decreases n - i,
        {
            let ghost prefix = chars@.subrange(0, i as int);
            let ghost segs = split_segments(prefix);
            let ghost m = segs.len() - 1;
            let c = chars[i];
            proof {
                lemma_split_segments_nonempty(prefix);
                assert(chars@.subrange(0, i + 1 as int) =~= prefix.push(c));
                assert(prefix.push(c).drop_last() =~= prefix);
            }
            if c == '\n' {
                proof {
                    assert(split_segments(prefix.push(c)) == segs.update(m, strip_cr(segs[m])).push(
                        Seq::<char>::empty(),
                    ));
                    if segs[m].len() > 0 {
                        lemma_expand_tabs_last(segs[m]);
                    }
                    lemma_expand_tabs_empty(segs[m]);
                }
                if cur.len() > 0 {
                    let last_char = cur[cur.len() - 1];
                    if last_char == '\r' {
                        cur.pop();
                    }
                }
                proof {
                    assert(cur@ == expand_tabs(strip_cr(segs[m])));
                }
                let finished = cur;
                cur = Vec::new();
                done.push(Row::of_chars(finished));
            } else {
                proof {
                    assert(split_segments(prefix.push(c)) == segs.update(m, segs[m].push(c)));
                    assert(segs[m].push(c).drop_last() =~= segs[m]);
                    assert(expand_tabs(segs[m].push(c)) == expand_tabs(segs[m]) + (if c == '\t' {
                        tab_spaces()
                    } else {
                        seq![c]
                    }));
                }
                if c == '\t' {
                    cur.push(' ');
                    cur.push(' ');
                    cur.push(' ');
                    cur.push(' ');
                    proof {
                        assert(cur@ =~= expand_tabs(segs[m]) + tab_spaces());
                    }
                } else {
                    cur.push(c);
                    proof {
                        assert(cur@ =~= expand_tabs(segs[m]) + seq![c]);
                    }
                }
            }
            i += 1;
        }
        let ghost segs = split_segments(chars@);
        proof {
            assert(chars@.subrange(0, n as int) =~= chars@);
            lemma_split_segments_nonempty(chars@);
            lemma_expand_tabs_empty(segs.last());
        }
        if cur.len() > 0 {
            done.push(Row::of_chars(cur));
            proof {
                assert(done@.map_values(|r: Row| r@) =~~= parse_rows(contents@));
            }
        } else {
            proof {
                assert(done@.map_values(|r: Row| r@) =~~= parse_rows(contents@));
            }
        }
        Document { rows: done, file_name }
    }

    /// The document's file form: every line followed by a newline.
    pub fn to_text(&self) -> (r: String)
        ensures
            r@ == serialize_rows(self@),
    {
        let mut out: Vec<char> = Vec::new();
        let n = self.rows.len();
        let mut i: usize = 0;
        proof {
            assert(self@.subrange(0, 0) =~= Seq::<Seq<char>>::empty());
        }
        while i < n
            invariant
                i <= n,
                n == self@.len(),
                n == self.rows@.len(),
                self@ == self.rows@.map_values(|r: Row| r@),
                out@ == serialize_rows(self@.subrange(0, i as int)),
            decreases n - i,
        {
            let row_len = {
                let row = &self.rows[i];
                row.len()
            };
            let mut j: usize = 0;
            while j < row_len
                invariant
                    j <= row_len,
                    i < n,
                    n == self@.len(),
                    n == self.rows@.len(),
                    self@ == self.rows@.map_values(|r: Row| r@),
                    row_len == self@[i as int].len(),
                    out@ == serialize_rows(self@.subrange(0, i as int)) + self@[i as int].subrange(
                        0,
                        j as int,
                    ),
                decreases row_len - j,
            {
                let ch = {
                    let row = &self.rows[i];
                    row.char_at(j)
                };
                out.push(ch);
                proof {
                    assert(out@ =~= serialize_rows(self@.subrange(0, i as int))
                        + self@[i as int].subrange(0, j + 1 as int));
                }
                j += 1;
            }
            out.push('\n');
            proof {
                let sub = self@.subrange(0, i + 1 as int);
                assert(sub.drop_last() =~= self@.subrange(0, i as int));
                assert(sub.last() == self@[i as int]);
                assert(self@[i as int].subrange(0, row_len as int) =~= self@[i as int]);
                assert(out@ =~= serialize_rows(sub.drop_last()) + sub.last() + seq!['\n']);
                assert(out@ == serialize_rows(sub));
            }
            i += 1;
        }
        proof {
            assert(self@.subrange(0, n as int) =~= self@);
        }
        string_of_chars(&out)
    }
}

} // verus!
