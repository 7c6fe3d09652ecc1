use kernel_shell::commands::HwAction;
use kernel_shell::keyboard::{KEY_DOWN, KEY_LEFT, KEY_RIGHT, KEY_UP};
use kernel_shell::shell::{Shell, PROMPT_LEN};
use kernel_shell::vga::{Display, BLANK_CELL, VGA_WIDTH};

fn row_text(d: &Display, row: usize) -> String {
    let mut s = String::new();
    for col in 0..VGA_WIDTH {
        s.push((d.cell_at(row, col) & 0xFF) as u8 as char);
    }
    s.trim_end().to_string()
}

/// The text of the input line as displayed on the cursor's row, after the
/// prompt.
fn displayed_line(s: &Shell) -> String {
    let d = s.display();
    let row = d.cursor_row();
    let mut t = String::new();
    for col in PROMPT_LEN..VGA_WIDTH {
        t.push((d.cell_at(row, col) & 0xFF) as u8 as char);
    }
    t.trim_end().to_string()
}

fn type_line(s: &mut Shell, line: &str) {
    for b in line.bytes() {
        assert_eq!(s.handle_key(b), HwAction::Nothing);
    }
}

fn submit_line(s: &mut Shell, line: &str) -> HwAction {
    type_line(s, line);
    s.handle_key(b'\n')
}

#[test]
fn start_clears_and_prints_banner_and_prompt() {
    let mut s = Shell::new();
    s.start();
    assert_eq!(row_text(s.display(), 0), "Kernel Rust 64-bit iniciado!");
    assert_eq!(row_text(s.display(), 1), ">");
    assert_eq!(s.display().cursor_row(), 1);
    assert_eq!(s.display().cursor_col(), PROMPT_LEN);
}

#[test]
fn displayed_line_tracks_buffer_and_cursor_through_edits() {
    let mut s = Shell::new();
    s.start();
    type_line(&mut s, "ac");
    assert_eq!(displayed_line(&s), "ac");
    assert_eq!(s.display().cursor_col(), PROMPT_LEN + 2);

    s.handle_key(KEY_LEFT);
    assert_eq!(s.display().cursor_col(), PROMPT_LEN + 1);
    type_line(&mut s, "b");
    assert_eq!(displayed_line(&s), "abc");
    assert_eq!(s.editor().buffer_copy(), b"abc".to_vec());
    assert_eq!(s.display().cursor_col(), PROMPT_LEN + 2);

    s.handle_key(0x08);
    assert_eq!(displayed_line(&s), "ac");
    assert_eq!(s.editor().buffer_copy(), b"ac".to_vec());
    assert_eq!(s.display().cursor_col(), PROMPT_LEN + 1);

    s.handle_key(KEY_RIGHT);
    assert_eq!(s.display().cursor_col(), PROMPT_LEN + 2);
    // The display always mirrors the editor.
    assert_eq!(
        s.display().cursor_col(),
        PROMPT_LEN + s.editor().cursor()
    );
}

#[test]
fn cursor_moves_clamp_and_stay_in_sync() {
    let mut s = Shell::new();
    s.start();
    type_line(&mut s, "xy");
    s.handle_key(KEY_RIGHT);
    assert_eq!(s.display().cursor_col(), PROMPT_LEN + 2);
    for _ in 0..5 {
        s.handle_key(KEY_LEFT);
    }
    assert_eq!(s.editor().cursor(), 0);
    assert_eq!(s.display().cursor_col(), PROMPT_LEN);
}

#[test]
fn submit_echoes_newline_and_reprompts() {
    let mut s = Shell::new();
    s.start();
    let act = submit_line(&mut s, "echo hi");
    assert_eq!(act, HwAction::Nothing);
    assert_eq!(row_text(s.display(), 1), "> echo hi");
    assert_eq!(row_text(s.display(), 2), "hi");
    assert_eq!(row_text(s.display(), 3), ">");
    assert_eq!(s.display().cursor_row(), 3);
    assert_eq!(s.display().cursor_col(), PROMPT_LEN);
    assert_eq!(s.editor().buffer_len(), 0);
}

#[test]
fn submit_returns_the_hardware_action() {
    let mut s = Shell::new();
    s.start();
    assert_eq!(submit_line(&mut s, "reboot"), HwAction::Reboot);
    assert_eq!(submit_line(&mut s, "shutdown"), HwAction::Shutdown);
    assert_eq!(submit_line(&mut s, "help"), HwAction::Nothing);
}

#[test]
fn blank_submit_gives_no_output_and_no_history_entry() {
    let mut s = Shell::new();
    s.start();
    assert_eq!(submit_line(&mut s, "   "), HwAction::Nothing);
    assert_eq!(s.editor().history_count(), 0);
    // Only the echoed newline and a fresh prompt: no diagnostic line.
    assert_eq!(row_text(s.display(), 1), ">");
    assert_eq!(row_text(s.display(), 2), ">");
    assert_eq!(s.display().cursor_row(), 2);

    assert_eq!(submit_line(&mut s, ""), HwAction::Nothing);
    assert_eq!(s.editor().history_count(), 0);
}

#[test]
fn submitted_lines_build_most_recent_first_history() {
    let mut s = Shell::new();
    s.start();
    submit_line(&mut s, "echo a");
    submit_line(&mut s, "echo b");
    assert_eq!(s.editor().history_count(), 2);
    assert_eq!(s.editor().history_entry(0), b"echo b".to_vec());
    assert_eq!(s.editor().history_entry(1), b"echo a".to_vec());
}

#[test]
fn history_over_capacity_drops_the_oldest() {
    let mut s = Shell::new();
    s.start();
    let capacity = 10;
    for i in 0..capacity + 2 {
        submit_line(&mut s, &format!("echo n{}", i));
    }
    assert_eq!(s.editor().history_count(), capacity);
    for j in 0..capacity {
        let expect = format!("echo n{}", capacity + 1 - j);
        assert_eq!(s.editor().history_entry(j), expect.into_bytes());
    }
}

#[test]
fn arrow_up_recalls_and_redraws_previous_lines() {
    let mut s = Shell::new();
    s.start();
    submit_line(&mut s, "echo one");
    submit_line(&mut s, "echo two");
    s.handle_key(KEY_UP);
    assert_eq!(displayed_line(&s), "echo two");
    assert_eq!(s.editor().buffer_copy(), b"echo two".to_vec());
    assert_eq!(s.display().cursor_col(), PROMPT_LEN + 8);
    s.handle_key(KEY_UP);
    assert_eq!(displayed_line(&s), "echo one");
    // Clamped at the oldest entry.
    s.handle_key(KEY_UP);
    assert_eq!(displayed_line(&s), "echo one");
    // Down walks back toward the most recent, then stays.
    s.handle_key(KEY_DOWN);
    assert_eq!(displayed_line(&s), "echo two");
    s.handle_key(KEY_DOWN);
    assert_eq!(displayed_line(&s), "echo two");
}

#[test]
fn typing_after_recall_edits_the_recalled_line() {
    let mut s = Shell::new();
    s.start();
    submit_line(&mut s, "echo x");
    s.handle_key(KEY_UP);
    assert!(s.editor().is_browsing());
    type_line(&mut s, "!");
    assert!(!s.editor().is_browsing());
    assert_eq!(s.editor().buffer_copy(), b"echo x!".to_vec());
    assert_eq!(displayed_line(&s), "echo x!");
}

#[test]
fn unrecognized_event_bytes_change_nothing() {
    let mut s = Shell::new();
    s.start();
    type_line(&mut s, "abc");
    s.handle_key(0x01);
    s.handle_key(0x1B);
    s.handle_key(0x9F);
    assert_eq!(s.editor().buffer_copy(), b"abc".to_vec());
    assert_eq!(displayed_line(&s), "abc");
}

#[test]
fn clear_command_through_the_shell_blanks_the_screen() {
    let mut s = Shell::new();
    s.start();
    submit_line(&mut s, "echo filler");
    let act = submit_line(&mut s, "clear");
    assert_eq!(act, HwAction::Nothing);
    // The screen was cleared, then the fresh prompt printed at the top.
    assert_eq!(row_text(s.display(), 0), ">");
    assert_eq!(s.display().cursor_row(), 0);
    assert_eq!(s.display().cursor_col(), PROMPT_LEN);
    for col in PROMPT_LEN..VGA_WIDTH {
        assert_eq!(s.display().cell_at(0, col), BLANK_CELL);
    }
}

#[test]
fn unknown_command_through_the_shell_prints_diagnostic() {
    let mut s = Shell::new();
    s.start();
    submit_line(&mut s, "clearx");
    assert_eq!(row_text(s.display(), 2), "Comando desconhecido: clearx");
    // The shell goes on: the next line still works.
    submit_line(&mut s, "echo ok");
    assert_eq!(row_text(s.display(), 4), "ok");
}
