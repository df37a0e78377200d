use hecto::Document;
use hecto::Position;

fn doc_from(text: &str) -> Document {
    Document::open(text, "test.txt".to_string())
}

fn rows_of(doc: &Document) -> Vec<String> {
    let mut rows = Vec::new();
    let mut i = 0;
    while let Some(row) = doc.row(i) {
        rows.push(row.to_string());
        i += 1;
    }
    rows
}

#[test]
fn open_splits_on_line_breaks() {
    let doc = doc_from("hello\nworld");
    assert_eq!(rows_of(&doc), vec!["hello".to_string(), "world".to_string()]);
    assert_eq!(doc.len(), 2);
    assert!(!doc.is_dirty());
}

#[test]
fn open_keeps_interior_empty_lines() {
    let doc = doc_from("a\n\nb");
    assert_eq!(rows_of(&doc), vec!["a".to_string(), "".to_string(), "b".to_string()]);
}

#[test]
fn open_drops_no_row_for_trailing_line_break() {
    let doc = doc_from("a\nb\n");
    assert_eq!(rows_of(&doc), vec!["a".to_string(), "b".to_string()]);
}

#[test]
fn open_of_empty_text_is_empty() {
    let doc = doc_from("");
    assert!(doc.is_empty());
    assert_eq!(doc.len(), 0);
}

#[test]
fn round_trip_without_trailing_line_break() {
    for text in ["", "a", "hello\nworld", "a\n\nb", "\na", "line with spaces  \n end"] {
        let doc = doc_from(text);
        assert_eq!(doc.serialize(), text);
    }
}

#[test]
fn serialize_drops_exactly_one_trailing_line_break() {
    let doc = doc_from("a\nb\n");
    assert_eq!(doc.serialize(), "a\nb");
}

#[test]
fn row_access_is_bounds_checked() {
    let doc = doc_from("one");
    assert!(doc.row(0).is_some());
    assert!(doc.row(1).is_none());
    assert!(doc.row(100).is_none());
}

#[test]
fn insert_plain_character_marks_dirty() {
    let mut doc = doc_from("ac");
    doc.insert(&Position { x: 1, y: 0 }, 'b');
    assert_eq!(rows_of(&doc), vec!["abc".to_string()]);
    assert!(doc.is_dirty());
}

#[test]
fn insert_on_row_past_last_opens_new_row() {
    let mut doc = doc_from("a");
    doc.insert(&Position { x: 0, y: 1 }, 'b');
    assert_eq!(rows_of(&doc), vec!["a".to_string(), "b".to_string()]);
}

#[test]
fn insert_beyond_rows_is_silent_no_op() {
    let mut doc = doc_from("a");
    doc.insert(&Position { x: 0, y: 5 }, 'b');
    assert_eq!(rows_of(&doc), vec!["a".to_string()]);
    assert!(!doc.is_dirty());
}

#[test]
fn split_on_line_break_insert() {
    // One row "abcd"; a line break at (2, 0) yields rows "ab" and "cd".
    let mut doc = doc_from("abcd");
    doc.insert(&Position { x: 2, y: 0 }, '\n');
    assert_eq!(rows_of(&doc), vec!["ab".to_string(), "cd".to_string()]);
    assert!(doc.is_dirty());
}

#[test]
fn line_break_at_row_end_opens_empty_row() {
    let mut doc = doc_from("ab");
    doc.insert(&Position { x: 2, y: 0 }, '\n');
    assert_eq!(rows_of(&doc), vec!["ab".to_string(), "".to_string()]);
}

#[test]
fn join_on_delete_at_end_of_row() {
    // Rows "ab", "cd"; a delete at (2, 0) joins them into "abcd".
    let mut doc = doc_from("ab\ncd");
    doc.delete(&Position { x: 2, y: 0 });
    assert_eq!(rows_of(&doc), vec!["abcd".to_string()]);
    assert!(doc.is_dirty());
}

#[test]
fn delete_inside_row_removes_cluster() {
    let mut doc = doc_from("abc");
    doc.delete(&Position { x: 1, y: 0 });
    assert_eq!(rows_of(&doc), vec!["ac".to_string()]);
}

#[test]
fn delete_past_last_row_is_no_op() {
    let mut doc = doc_from("abc");
    doc.delete(&Position { x: 0, y: 3 });
    assert_eq!(rows_of(&doc), vec!["abc".to_string()]);
    assert!(!doc.is_dirty());
}

#[test]
fn delete_at_end_of_last_row_changes_nothing() {
    let mut doc = doc_from("abc");
    doc.delete(&Position { x: 3, y: 0 });
    assert_eq!(rows_of(&doc), vec!["abc".to_string()]);
    assert!(doc.is_dirty());
}

#[test]
fn mark_saved_clears_dirty() {
    let mut doc = doc_from("a");
    doc.insert(&Position { x: 1, y: 0 }, 'b');
    assert!(doc.is_dirty());
    doc.mark_saved();
    assert!(!doc.is_dirty());
    assert_eq!(rows_of(&doc), vec!["ab".to_string()]);
}

#[test]
fn file_name_tracking() {
    let mut doc = Document::default();
    assert!(!doc.has_file_name());
    assert_eq!(doc.get_file_name(), None);
    doc.set_file_name("out.txt".to_string());
    assert!(doc.has_file_name());
    assert_eq!(doc.get_file_name(), Some("out.txt".to_string()));
    let opened = doc_from("x");
    assert_eq!(opened.get_file_name(), Some("test.txt".to_string()));
}

#[test]
fn default_document_is_clean_and_untitled() {
    let doc = Document::default();
    assert!(doc.is_empty());
    assert!(!doc.is_dirty());
    assert!(!doc.has_file_name());
    assert_eq!(doc.serialize(), "");
}

#[test]
fn edits_on_multibyte_rows_round_trip() {
    let mut doc = doc_from("a\u{310}b\n\u{1F1F7}\u{1F1FA}c");
    doc.delete(&Position { x: 0, y: 1 });
    assert_eq!(rows_of(&doc), vec!["a\u{310}b".to_string(), "c".to_string()]);
    doc.insert(&Position { x: 1, y: 0 }, 'x');
    assert_eq!(rows_of(&doc), vec!["a\u{310}xb".to_string(), "c".to_string()]);
}
