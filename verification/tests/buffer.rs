use textist::document::Document;
use textist::position::Position;
use textist::row::Row;
use textist::text_target::TextTarget;

fn doc_of(lines: &[&str]) -> Document {
    let mut rows: Vec<Row> = Vec::new();
    for line in lines {
        rows.push(Row::of_text(line));
    }
    Document { rows, file_name: String::new() }
}

fn lines_of(doc: &Document) -> Vec<String> {
    let mut out: Vec<String> = Vec::new();
    for row in &doc.rows {
        out.push(row.text());
    }
    out
}

#[test]
fn insert_then_remove_behind_restores_line() {
    // every printable char at every valid column of "hello"
    for c in ['q', ' ', '!', 'Z'] {
        for x in 0..=5usize {
            let mut doc = doc_of(&["hello"]);
            let at = Position { x, y: 0 };
            doc.insert(&at, c);
            let mut cursor = Position { x: x + 1, y: 0 };
            doc.remove_behind(&mut cursor);
            assert_eq!(lines_of(&doc), vec!["hello".to_string()]);
            assert_eq!(cursor.x, x);
            assert_eq!(cursor.y, 0);
        }
    }
}

#[test]
fn remove_behind_at_origin_is_noop() {
    let mut doc = doc_of(&["abc", "def"]);
    let mut cursor = Position { x: 0, y: 0 };
    doc.remove_behind(&mut cursor);
    assert_eq!(lines_of(&doc), vec!["abc".to_string(), "def".to_string()]);
    assert_eq!(cursor.x, 0);
    assert_eq!(cursor.y, 0);
}

#[test]
fn remove_behind_at_origin_of_empty_buffer_is_noop() {
    let mut doc = doc_of(&[]);
    let mut cursor = Position { x: 0, y: 0 };
    doc.remove_behind(&mut cursor);
    assert_eq!(doc.len(), 0);
    assert!(doc.is_empty());
    assert_eq!(cursor.x, 0);
    assert_eq!(cursor.y, 0);
}

#[test]
fn remove_behind_at_column_zero_merges_lines() {
    let mut doc = doc_of(&["ab", "cd", "ef"]);
    let mut cursor = Position { x: 0, y: 1 };
    doc.remove_behind(&mut cursor);
    assert_eq!(lines_of(&doc), vec!["abcd".to_string(), "ef".to_string()]);
    // cursor lands at the previous line's pre-merge length
    assert_eq!(cursor.x, 2);
    assert_eq!(cursor.y, 0);
}

#[test]
fn remove_behind_mid_line_removes_previous_char() {
    let mut doc = doc_of(&["abc"]);
    let mut cursor = Position { x: 2, y: 0 };
    doc.remove_behind(&mut cursor);
    assert_eq!(lines_of(&doc), vec!["ac".to_string()]);
    assert_eq!(cursor.x, 1);
    assert_eq!(cursor.y, 0);
}

#[test]
fn add_line_then_remove_behind_round_trips() {
    for x in 0..=5usize {
        let mut doc = doc_of(&["hello", "tail"]);
        let at = Position { x, y: 0 };
        doc.add_line(&at);
        let mut cursor = Position { x: 0, y: 1 };
        doc.remove_behind(&mut cursor);
        assert_eq!(lines_of(&doc), vec!["hello".to_string(), "tail".to_string()]);
        assert_eq!(cursor.x, x);
        assert_eq!(cursor.y, 0);
    }
}

#[test]
fn add_line_splits_at_column() {
    let mut doc = doc_of(&["hello"]);
    let at = Position { x: 2, y: 0 };
    doc.add_line(&at);
    assert_eq!(lines_of(&doc), vec!["he".to_string(), "llo".to_string()]);
}

#[test]
fn add_line_out_of_range_is_noop() {
    let mut doc = doc_of(&["hello"]);
    let at = Position { x: 0, y: 9 };
    doc.add_line(&at);
    assert_eq!(lines_of(&doc), vec!["hello".to_string()]);
}

#[test]
fn insert_past_end_creates_the_line() {
    let mut doc = doc_of(&["a"]);
    let at = Position { x: 0, y: 1 };
    doc.insert(&at, 'b');
    assert_eq!(lines_of(&doc), vec!["a".to_string(), "b".to_string()]);
}

#[test]
fn insert_str_splices_text() {
    let mut doc = doc_of(&["horse"]);
    let at = Position { x: 1, y: 0 };
    doc.insert_str(&at, "ou");
    assert_eq!(lines_of(&doc), vec!["houorse".to_string()]);
}

#[test]
fn insert_str_past_end_creates_the_line() {
    let mut doc = doc_of(&[]);
    let at = Position { x: 0, y: 0 };
    doc.insert_str(&at, "new");
    assert_eq!(lines_of(&doc), vec!["new".to_string()]);
}

#[test]
fn remove_ahead_returns_char_under_cursor() {
    let mut doc = doc_of(&["abc"]);
    let mut cursor = Position { x: 1, y: 0 };
    let removed = doc.remove_ahead(&mut cursor);
    assert_eq!(removed, Some('b'));
    assert_eq!(lines_of(&doc), vec!["ac".to_string()]);
    assert_eq!(cursor.x, 1);
    assert_eq!(cursor.y, 0);
}

#[test]
fn remove_ahead_at_end_of_line_joins_next() {
    let mut doc = doc_of(&["ab", "cd"]);
    let mut cursor = Position { x: 2, y: 0 };
    let removed = doc.remove_ahead(&mut cursor);
    assert_eq!(removed, None);
    assert_eq!(lines_of(&doc), vec!["abcd".to_string()]);
}

#[test]
fn remove_ahead_at_end_of_file_is_noop() {
    let mut doc = doc_of(&["ab"]);
    let mut cursor = Position { x: 2, y: 0 };
    let removed = doc.remove_ahead(&mut cursor);
    assert_eq!(removed, None);
    assert_eq!(lines_of(&doc), vec!["ab".to_string()]);
}

#[test]
fn remove_ahead_past_last_line_is_noop() {
    let mut doc = doc_of(&["ab"]);
    let mut cursor = Position { x: 0, y: 5 };
    let removed = doc.remove_ahead(&mut cursor);
    assert_eq!(removed, None);
    assert_eq!(lines_of(&doc), vec!["ab".to_string()]);
}

#[test]
fn delete_under_cursor_yanks_the_char() {
    let mut doc = doc_of(&["abc"]);
    let mut cursor = Position { x: 1, y: 0 };
    let yanked = doc.delete(&mut cursor, &TextTarget::UnderCursor);
    assert_eq!(yanked, "b");
    assert_eq!(lines_of(&doc), vec!["ac".to_string()]);
    assert_eq!(cursor.x, 1);
    assert_eq!(cursor.y, 0);
}

#[test]
fn delete_whole_row_yanks_the_line() {
    let mut doc = doc_of(&["one", "two", "three"]);
    let mut cursor = Position { x: 0, y: 1 };
    let yanked = doc.delete(&mut cursor, &TextTarget::WholeRow);
    assert_eq!(yanked, "two");
    assert_eq!(lines_of(&doc), vec!["one".to_string(), "three".to_string()]);
}

#[test]
fn delete_row_after_cursor_yanks_the_suffix() {
    let mut doc = doc_of(&["abcdef"]);
    let mut cursor = Position { x: 2, y: 0 };
    let yanked = doc.delete(&mut cursor, &TextTarget::RowAfterCursor);
    assert_eq!(yanked, "cdef");
    assert_eq!(lines_of(&doc), vec!["ab".to_string()]);
}

#[test]
fn delete_reserved_targets_are_noops() {
    for target in [TextTarget::Nothing, TextTarget::All, TextTarget::Char('z')] {
        let mut doc = doc_of(&["abc"]);
        let mut cursor = Position { x: 1, y: 0 };
        let yanked = doc.delete(&mut cursor, &target);
        assert_eq!(yanked, "");
        assert_eq!(lines_of(&doc), vec!["abc".to_string()]);
    }
}

#[test]
fn blank_line_insertions_clamp_to_length() {
    let mut doc = doc_of(&["a"]);
    doc._add_blank_line(&Position { x: 0, y: 7 });
    assert_eq!(lines_of(&doc), vec!["a".to_string(), "".to_string()]);
    let mut doc = doc_of(&["a", "b"]);
    doc._add_blank_line(&Position { x: 0, y: 1 });
    assert_eq!(lines_of(&doc), vec!["a".to_string(), "".to_string(), "b".to_string()]);
}

#[test]
fn open_line_with_indent_prefills_spaces() {
    let mut doc = doc_of(&["abcd"]);
    doc.add_line_with_spaces_to_cursor(&Position { x: 3, y: 1 });
    assert_eq!(lines_of(&doc), vec!["abcd".to_string(), "   ".to_string()]);
}

#[test]
fn render_clips_and_never_panics() {
    let doc = doc_of(&["hello"]);
    let line = &doc.rows[0];
    // a huge end is clamped to the line length
    assert_eq!(line.render(0, usize::MAX), "hello");
    assert_eq!(line.render(3, usize::MAX), "lo");
    assert_eq!(line.render(1, 4), "ell");
    // start past the clamped end collapses to the empty window
    assert_eq!(line.render(9, usize::MAX), "");
    assert_eq!(line.render(4, 2), "");
    assert!(line.render(0, usize::MAX).chars().count() <= line.len());
}

#[test]
fn queries_on_positions() {
    let doc = doc_of(&["ab", "c"]);
    assert_eq!(doc.len(), 2);
    assert!(!doc.is_empty());
    assert_eq!(doc.current_row_length(&Position { x: 0, y: 0 }), 2);
    assert_eq!(doc.current_row_length(&Position { x: 0, y: 1 }), 1);
    assert_eq!(doc.current_row_length(&Position { x: 0, y: 2 }), 0);
    assert_eq!(doc.rows[0].len(), 2);
    assert_eq!(doc.rows[0].char_at(1), 'b');
}

#[test]
fn from_text_splits_lines_and_expands_tabs() {
    let doc = Document::from_text("notes.txt".to_string(), "a\tb\nsecond\r\nthird\n");
    assert_eq!(
        lines_of(&doc),
        vec!["a    b".to_string(), "second".to_string(), "third".to_string()]
    );
    assert_eq!(doc.file_name, "notes.txt");
}

#[test]
fn from_text_edge_shapes() {
    assert_eq!(Document::from_text(String::new(), "").len(), 0);
    assert_eq!(lines_of(&Document::from_text(String::new(), "\n")), vec!["".to_string()]);
    assert_eq!(lines_of(&Document::from_text(String::new(), "a")), vec!["a".to_string()]);
    // a carriage return not followed by a newline is kept
    assert_eq!(lines_of(&Document::from_text(String::new(), "a\r")), vec!["a\r".to_string()]);
    assert_eq!(
        lines_of(&Document::from_text(String::new(), "a\n\nb")),
        vec!["a".to_string(), "".to_string(), "b".to_string()]
    );
}

#[test]
fn to_text_writes_every_line_with_newline() {
    assert_eq!(doc_of(&[]).to_text(), "");
    assert_eq!(doc_of(&["x"]).to_text(), "x\n");
    assert_eq!(doc_of(&["a", "", "b"]).to_text(), "a\n\nb\n");
}

#[test]
fn save_then_open_round_trips_lines() {
    let doc = doc_of(&["first", "", "third with spaces", "fourth"]);
    let saved = doc.to_text();
    let reopened = Document::from_text(String::new(), &saved);
    assert_eq!(lines_of(&reopened), lines_of(&doc));
}

#[test]
fn save_then_open_normalizes_tabs_and_final_newline() {
    // tabs become four spaces on open, irreversibly; a missing final
    // newline is added by save
    let doc = Document::from_text(String::new(), "a\tb\nlast");
    let saved = doc.to_text();
    assert_eq!(saved, "a    b\nlast\n");
    let reopened = Document::from_text(String::new(), &saved);
    assert_eq!(lines_of(&reopened), lines_of(&doc));
}
