use kernel_shell::editor::{copy_buffer, Editor, MAX_HISTORY, MAX_INPUT};

fn type_str(e: &mut Editor, s: &str) {
    for b in s.bytes() {
        e.insert_char(b);
    }
}

#[test]
fn insert_at_cursor_shifts_tail_right() {
    let mut e = Editor::new();
    type_str(&mut e, "ac");
    e.move_cursor_left();
    e.insert_char(b'b');
    assert_eq!(e.buffer_copy(), b"abc".to_vec());
    assert_eq!(e.cursor(), 2);
}

#[test]
fn insert_into_full_line_is_noop() {
    let mut e = Editor::new();
    for _ in 0..MAX_INPUT - 1 {
        e.insert_char(b'x');
    }
    assert_eq!(e.buffer_len(), MAX_INPUT - 1);
    e.insert_char(b'y');
    assert_eq!(e.buffer_len(), MAX_INPUT - 1);
    assert!(e.buffer_copy().iter().all(|&b| b == b'x'));
}

#[test]
fn delete_removes_byte_before_cursor() {
    let mut e = Editor::new();
    type_str(&mut e, "abc");
    e.move_cursor_left();
    e.delete_char();
    assert_eq!(e.buffer_copy(), b"ac".to_vec());
    assert_eq!(e.cursor(), 1);
}

#[test]
fn delete_at_start_is_noop() {
    let mut e = Editor::new();
    type_str(&mut e, "ab");
    e.move_cursor_left();
    e.move_cursor_left();
    e.delete_char();
    assert_eq!(e.buffer_copy(), b"ab".to_vec());
    assert_eq!(e.cursor(), 0);
}

#[test]
fn cursor_moves_clamp_at_both_ends() {
    let mut e = Editor::new();
    type_str(&mut e, "ab");
    e.move_cursor_right();
    assert_eq!(e.cursor(), 2);
    e.move_cursor_left();
    e.move_cursor_left();
    e.move_cursor_left();
    assert_eq!(e.cursor(), 0);
}

#[test]
fn submit_pushes_to_front_of_history() {
    let mut e = Editor::new();
    type_str(&mut e, "first");
    e.add_to_history();
    e.reset_line();
    type_str(&mut e, "second");
    e.add_to_history();
    e.reset_line();
    assert_eq!(e.history_count(), 2);
    assert_eq!(e.history_entry(0), b"second".to_vec());
    assert_eq!(e.history_entry(1), b"first".to_vec());
}

#[test]
fn history_keeps_only_the_most_recent_entries() {
    let mut e = Editor::new();
    // Submit more distinct lines than the history holds.
    for i in 0..MAX_HISTORY + 3 {
        type_str(&mut e, &format!("line{}", i));
        e.add_to_history();
        e.reset_line();
    }
    assert_eq!(e.history_count(), MAX_HISTORY);
    // Most recent first; the oldest three are gone.
    for j in 0..MAX_HISTORY {
        let expect = format!("line{}", MAX_HISTORY + 2 - j);
        assert_eq!(e.history_entry(j), expect.into_bytes());
    }
}

#[test]
fn blank_line_leaves_no_history_entry() {
    let mut e = Editor::new();
    e.add_to_history();
    assert_eq!(e.history_count(), 0);
    type_str(&mut e, "   ");
    e.add_to_history();
    assert_eq!(e.history_count(), 0);
    e.reset_line();
    type_str(&mut e, "\t ");
    e.add_to_history();
    assert_eq!(e.history_count(), 0);
}

#[test]
fn recall_older_walks_toward_oldest_and_clamps() {
    let mut e = Editor::new();
    for s in ["one", "two", "three"] {
        type_str(&mut e, s);
        e.add_to_history();
        e.reset_line();
    }
    assert!(e.recall_older());
    assert_eq!(e.buffer_copy(), b"three".to_vec());
    assert_eq!(e.cursor(), 5);
    assert!(e.recall_older());
    assert_eq!(e.buffer_copy(), b"two".to_vec());
    assert!(e.recall_older());
    assert_eq!(e.buffer_copy(), b"one".to_vec());
    // At the oldest entry the index clamps and the line is reloaded.
    assert!(e.recall_older());
    assert_eq!(e.buffer_copy(), b"one".to_vec());
    assert_eq!(e.history_index(), 2);
}

#[test]
fn recall_newer_walks_back_and_stops_at_most_recent() {
    let mut e = Editor::new();
    for s in ["one", "two"] {
        type_str(&mut e, s);
        e.add_to_history();
        e.reset_line();
    }
    assert!(e.recall_older());
    assert!(e.recall_older());
    assert_eq!(e.buffer_copy(), b"one".to_vec());
    assert!(e.recall_newer());
    assert_eq!(e.buffer_copy(), b"two".to_vec());
    // At the most recent entry the line is left unchanged.
    assert!(!e.recall_newer());
    assert_eq!(e.buffer_copy(), b"two".to_vec());
    assert_eq!(e.history_index(), 0);
}

#[test]
fn recall_on_empty_history_does_nothing() {
    let mut e = Editor::new();
    type_str(&mut e, "draft");
    assert!(!e.recall_older());
    assert!(!e.recall_newer());
    assert_eq!(e.buffer_copy(), b"draft".to_vec());
}

#[test]
fn typing_leaves_browsing() {
    let mut e = Editor::new();
    type_str(&mut e, "cmd");
    e.add_to_history();
    e.reset_line();
    assert!(e.recall_older());
    assert!(e.is_browsing());
    e.stop_browsing();
    assert!(!e.is_browsing());
}

#[test]
fn copy_buffer_copies_exactly() {
    assert_eq!(copy_buffer(b"abc"), b"abc".to_vec());
    assert_eq!(copy_buffer(b""), Vec::<u8>::new());
}
