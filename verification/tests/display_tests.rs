use kernel_shell::vga::{Display, BLANK_CELL, VGA_HEIGHT, VGA_WIDTH};

fn cell(c: u8) -> u16 {
    0x0F00u16 + c as u16
}

fn row_text(d: &Display, row: usize) -> String {
    let mut s = String::new();
    for col in 0..VGA_WIDTH {
        s.push((d.cell_at(row, col) & 0xFF) as u8 as char);
    }
    s.trim_end().to_string()
}

#[test]
fn fresh_display_is_blank() {
    let d = Display::new();
    for row in 0..VGA_HEIGHT {
        for col in 0..VGA_WIDTH {
            assert_eq!(d.cell_at(row, col), BLANK_CELL);
        }
    }
    assert_eq!(d.cursor_col(), 0);
    assert_eq!(d.cursor_row(), 0);
}

#[test]
fn putchar_stores_cell_and_advances() {
    let mut d = Display::new();
    d.putchar(b'A');
    assert_eq!(d.cell_at(0, 0), cell(b'A'));
    assert_eq!(d.cursor_col(), 1);
    assert_eq!(d.cursor_row(), 0);
}

#[test]
fn newline_moves_to_next_row() {
    let mut d = Display::new();
    d.putchar(b'A');
    d.putchar(b'\n');
    assert_eq!(d.cursor_col(), 0);
    assert_eq!(d.cursor_row(), 1);
}

#[test]
fn backspace_blanks_previous_cell() {
    let mut d = Display::new();
    d.putchar(b'A');
    d.putchar(b'B');
    d.putchar(0x08);
    assert_eq!(d.cell_at(0, 1), BLANK_CELL);
    assert_eq!(d.cursor_col(), 1);
}

#[test]
fn backspace_at_column_zero_is_noop() {
    let mut d = Display::new();
    d.putchar(0x08);
    assert_eq!(d.cursor_col(), 0);
    assert_eq!(d.cursor_row(), 0);
    assert_eq!(d.cell_at(0, 0), BLANK_CELL);
}

#[test]
fn other_control_bytes_are_ignored() {
    let mut d = Display::new();
    d.putchar(0x07);
    d.putchar(0x1B);
    assert_eq!(d.cursor_col(), 0);
    assert_eq!(d.cell_at(0, 0), BLANK_CELL);
}

#[test]
fn long_line_wraps_to_next_row() {
    let mut d = Display::new();
    for _ in 0..VGA_WIDTH {
        d.putchar(b'x');
    }
    assert_eq!(d.cursor_col(), 0);
    assert_eq!(d.cursor_row(), 1);
    assert_eq!(d.cell_at(0, VGA_WIDTH - 1), cell(b'x'));
    d.putchar(b'y');
    assert_eq!(d.cell_at(1, 0), cell(b'y'));
}

#[test]
fn overflow_scrolls_one_row_up_with_blank_last_row() {
    let mut d = Display::new();
    // One distinct letter per row, for every row of the display.
    for i in 0..VGA_HEIGHT {
        d.putchar(b'a' + (i as u8 % 26));
        if i < VGA_HEIGHT - 1 {
            d.putchar(b'\n');
        }
    }
    assert_eq!(d.cursor_row(), VGA_HEIGHT - 1);
    // Writing one more line scrolls exactly one row up.
    d.putchar(b'\n');
    for i in 0..VGA_HEIGHT - 1 {
        assert_eq!(d.cell_at(i, 0), cell(b'a' + ((i + 1) as u8 % 26)));
    }
    // The last row is blank, and the first row's old content is gone.
    for col in 0..VGA_WIDTH {
        assert_eq!(d.cell_at(VGA_HEIGHT - 1, col), BLANK_CELL);
    }
    assert_eq!(d.cursor_row(), VGA_HEIGHT - 1);
    assert_eq!(d.cursor_col(), 0);
}

#[test]
fn scroll_does_not_duplicate_content() {
    let mut d = Display::new();
    for i in 0..VGA_HEIGHT {
        d.putchar(b'a' + (i as u8 % 26));
        if i < VGA_HEIGHT - 1 {
            d.putchar(b'\n');
        }
    }
    d.putchar(b'\n');
    // Each letter still appears exactly once in its column.
    let mut seen = Vec::new();
    for row in 0..VGA_HEIGHT {
        let c = d.cell_at(row, 0);
        if c != BLANK_CELL {
            assert!(!seen.contains(&c));
            seen.push(c);
        }
    }
    assert_eq!(seen.len(), VGA_HEIGHT - 1);
}

#[test]
fn clear_blanks_everything_and_homes_cursor() {
    let mut d = Display::new();
    d.print(b"some text\nmore");
    d.clear();
    for row in 0..VGA_HEIGHT {
        assert_eq!(row_text(&d, row), "");
    }
    assert_eq!(d.cursor_col(), 0);
    assert_eq!(d.cursor_row(), 0);
}

#[test]
fn print_writes_bytes_in_order() {
    let mut d = Display::new();
    d.print(b"hi there");
    assert_eq!(row_text(&d, 0), "hi there");
    assert_eq!(d.cursor_col(), 8);
}

#[test]
fn update_cursor_splits_linear_offset() {
    let mut d = Display::new();
    assert_eq!(d.update_cursor(), (0, 0));
    d.print(b"\n\n\n");
    d.print(b"abcd");
    // Offset 3 * 80 + 4 = 244: high byte 0, low byte 244.
    assert_eq!(d.update_cursor(), (0, 244));
    d.print(b"\n");
    // Offset 4 * 80 = 320: high byte 1, low byte 64.
    assert_eq!(d.update_cursor(), (1, 64));
}

#[test]
fn set_cursor_x_clamps_to_last_column() {
    let mut d = Display::new();
    d.set_cursor_x(10);
    assert_eq!(d.cursor_col(), 10);
    d.set_cursor_x(400);
    assert_eq!(d.cursor_col(), VGA_WIDTH - 1);
}

#[test]
fn rewrite_input_redraws_row_and_blanks_tail() {
    let mut d = Display::new();
    d.print(b"> garbage here");
    d.rewrite_input(2, b"ok");
    assert_eq!(row_text(&d, 0), "> ok");
    for col in 4..VGA_WIDTH {
        assert_eq!(d.cell_at(0, col), BLANK_CELL);
    }
}
