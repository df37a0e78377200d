use hecto::Row;

#[test]
fn row_from_str_round_trips() {
    let row = Row::from_str("hello");
    assert_eq!(row.to_string(), "hello");
    assert_eq!(row.len(), 5);
    assert!(!row.is_empty());
}

#[test]
fn row_new_is_empty() {
    let row = Row::new();
    assert!(row.is_empty());
    assert_eq!(row.len(), 0);
    assert_eq!(row.to_string(), "");
}

#[test]
fn row_len_counts_grapheme_clusters_not_chars() {
    // Three clusters, each a base letter plus a combining mark.
    let row = Row::from_str("a\u{310}e\u{301}o\u{308}\u{332}");
    assert_eq!(row.len(), 3);
    // Two regional-indicator flags, four chars in all.
    let flags = Row::from_str("\u{1F1F7}\u{1F1FA}\u{1F1F8}\u{1F1F9}");
    assert_eq!(flags.len(), 2);
}

#[test]
fn row_insert_appends_past_end() {
    let mut row = Row::from_str("ab");
    row.insert(10, 'c');
    assert_eq!(row.to_string(), "abc");
}

#[test]
fn row_insert_at_cluster_boundary() {
    let mut row = Row::from_str("ad");
    row.insert(1, 'b');
    assert_eq!(row.to_string(), "abd");
    row.insert(0, 'x');
    assert_eq!(row.to_string(), "xabd");
}

#[test]
fn row_insert_respects_combining_marks() {
    // Inserting at offset 1 must land after the whole first cluster,
    // not between its base letter and its combining mark.
    let mut row = Row::from_str("a\u{310}b");
    row.insert(1, 'x');
    assert_eq!(row.to_string(), "a\u{310}xb");
}

#[test]
fn row_delete_removes_whole_cluster() {
    let mut row = Row::from_str("a\u{310}e\u{301}b");
    row.delete(0);
    assert_eq!(row.to_string(), "e\u{301}b");
    assert_eq!(row.len(), 2);
}

#[test]
fn row_delete_past_end_is_no_op() {
    let mut row = Row::from_str("ab");
    row.delete(2);
    assert_eq!(row.to_string(), "ab");
    row.delete(100);
    assert_eq!(row.to_string(), "ab");
}

#[test]
fn row_edits_on_multibyte_text_never_panic() {
    let mut row = Row::from_str("\u{1F1F7}\u{1F1FA}x\u{1F1F8}\u{1F1F9}");
    for at in 0..6 {
        row.insert(at, 'y');
        row.delete(at);
    }
    // The inserts at offsets four and five appended past the end, where
    // the matching deletes are no-ops: those two characters remain.
    assert_eq!(row.len(), 5);
    assert_eq!(row.to_string(), "\u{1F1F7}\u{1F1FA}x\u{1F1F8}\u{1F1F9}yy");
}

#[test]
fn row_append_concatenates() {
    let mut row = Row::from_str("ab");
    let other = Row::from_str("cd");
    row.append(&other);
    assert_eq!(row.to_string(), "abcd");
}

#[test]
fn row_split_at_boundary() {
    let mut row = Row::from_str("abcd");
    let tail = row.split(2);
    assert_eq!(row.to_string(), "ab");
    assert_eq!(tail.to_string(), "cd");
}

#[test]
fn row_split_past_end_keeps_everything() {
    let mut row = Row::from_str("ab");
    let tail = row.split(7);
    assert_eq!(row.to_string(), "ab");
    assert_eq!(tail.to_string(), "");
}

#[test]
fn row_render_clamps_bounds() {
    let row = Row::from_str("hello");
    assert_eq!(row.render(1, 3), "el");
    assert_eq!(row.render(0, 100), "hello");
    assert_eq!(row.render(7, 9), "");
    assert_eq!(row.render(4, 2), "");
}

#[test]
fn row_render_shows_tab_as_two_spaces() {
    let row = Row::from_str("a\tb");
    assert_eq!(row.render(0, 3), "a  b");
    assert_eq!(row.len(), 3);
}

#[test]
fn row_render_keeps_clusters_whole() {
    let row = Row::from_str("a\u{310}e\u{301}o\u{308}\u{332}");
    assert_eq!(row.render(1, 2), "e\u{301}");
}
