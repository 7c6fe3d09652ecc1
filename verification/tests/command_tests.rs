use kernel_shell::commands::{cmd_match, commands, process_cmd, CmdKind, HwAction};
use kernel_shell::vga::{Display, BLANK_CELL, VGA_WIDTH};

fn row_text(d: &Display, row: usize) -> String {
    let mut s = String::new();
    for col in 0..VGA_WIDTH {
        s.push((d.cell_at(row, col) & 0xFF) as u8 as char);
    }
    s.trim_end().to_string()
}

#[test]
fn name_matches_exact_input() {
    assert!(cmd_match(b"clear", b"clear"));
}

#[test]
fn name_matches_input_with_argument() {
    assert!(cmd_match(b"clear anything", b"clear"));
}

#[test]
fn name_does_not_match_longer_token() {
    assert!(!cmd_match(b"clearx", b"clear"));
    assert!(!cmd_match(b"clea", b"clear"));
    assert!(!cmd_match(b"cleat", b"clear"));
}

#[test]
fn registry_is_in_registration_order() {
    let reg = commands();
    let names: Vec<&[u8]> = reg.iter().map(|c| c.name.as_slice()).collect();
    assert_eq!(
        names,
        vec![
            b"help".as_slice(),
            b"clear".as_slice(),
            b"cls".as_slice(),
            b"reboot".as_slice(),
            b"shutdown".as_slice(),
            b"echo".as_slice(),
        ]
    );
    assert_eq!(reg[2].kind, CmdKind::Clear);
}

#[test]
fn echo_prints_argument_and_line_break() {
    let mut d = Display::new();
    let act = process_cmd(&mut d, b"echo hello world");
    assert_eq!(act, HwAction::Nothing);
    assert_eq!(row_text(&d, 0), "hello world");
    assert_eq!(d.cursor_row(), 1);
    assert_eq!(d.cursor_col(), 0);
}

#[test]
fn echo_with_no_argument_prints_empty_line() {
    let mut d = Display::new();
    let act = process_cmd(&mut d, b"echo");
    assert_eq!(act, HwAction::Nothing);
    assert_eq!(row_text(&d, 0), "");
    assert_eq!(d.cursor_row(), 1);
}

#[test]
fn argument_is_trimmed_of_leading_spaces() {
    let mut d = Display::new();
    process_cmd(&mut d, b"echo    spaced");
    assert_eq!(row_text(&d, 0), "spaced");
}

#[test]
fn leading_whitespace_before_name_is_trimmed() {
    let mut d = Display::new();
    let act = process_cmd(&mut d, b"   reboot");
    assert_eq!(act, HwAction::Reboot);
}

#[test]
fn clear_and_alias_blank_the_display() {
    let mut d = Display::new();
    d.print(b"junk\nmore junk\n");
    let act = process_cmd(&mut d, b"clear");
    assert_eq!(act, HwAction::Nothing);
    assert_eq!(d.cell_at(0, 0), BLANK_CELL);
    assert_eq!(d.cursor_row(), 0);
    assert_eq!(d.cursor_col(), 0);

    d.print(b"junk again");
    process_cmd(&mut d, b"cls");
    assert_eq!(d.cell_at(0, 0), BLANK_CELL);
}

#[test]
fn clear_with_argument_still_matches() {
    let mut d = Display::new();
    d.print(b"junk");
    let act = process_cmd(&mut d, b"clear anything");
    assert_eq!(act, HwAction::Nothing);
    assert_eq!(d.cell_at(0, 0), BLANK_CELL);
}

#[test]
fn prefix_of_longer_token_is_unknown() {
    let mut d = Display::new();
    let act = process_cmd(&mut d, b"clearx");
    assert_eq!(act, HwAction::Nothing);
    assert_eq!(row_text(&d, 0), "Comando desconhecido: clearx");
}

#[test]
fn unknown_command_echoes_the_input() {
    let mut d = Display::new();
    let act = process_cmd(&mut d, b"frobnicate now");
    assert_eq!(act, HwAction::Nothing);
    assert_eq!(row_text(&d, 0), "Comando desconhecido: frobnicate now");
    assert_eq!(d.cursor_row(), 1);
}

#[test]
fn reboot_and_shutdown_request_hardware_actions() {
    let mut d = Display::new();
    assert_eq!(process_cmd(&mut d, b"reboot"), HwAction::Reboot);
    assert_eq!(process_cmd(&mut d, b"shutdown"), HwAction::Shutdown);
    // Neither writes to the display.
    assert_eq!(row_text(&d, 0), "");
}

#[test]
fn blank_input_is_a_noop() {
    let mut d = Display::new();
    assert_eq!(process_cmd(&mut d, b""), HwAction::Nothing);
    assert_eq!(process_cmd(&mut d, b"   "), HwAction::Nothing);
    assert_eq!(process_cmd(&mut d, b" \t "), HwAction::Nothing);
    for row in 0..3 {
        assert_eq!(row_text(&d, row), "");
    }
    assert_eq!(d.cursor_row(), 0);
    assert_eq!(d.cursor_col(), 0);
}

#[test]
fn help_lists_every_command_with_description() {
    let mut d = Display::new();
    let act = process_cmd(&mut d, b"help");
    assert_eq!(act, HwAction::Nothing);
    assert_eq!(row_text(&d, 0), "help - mostra esta ajuda");
    assert_eq!(row_text(&d, 1), "clear - limpa a tela");
    assert_eq!(row_text(&d, 2), "cls - alias para clear");
    assert_eq!(row_text(&d, 3), "reboot - reinicia o sistema");
    assert_eq!(row_text(&d, 4), "shutdown - desliga o sistema");
    assert_eq!(row_text(&d, 5), "echo - imprime texto");
    assert_eq!(d.cursor_row(), 6);
}

#[test]
fn first_match_wins_in_registration_order() {
    // "cls" is an alias registered after "clear"; both clear. A name that
    // prefixes another ("clear" vs "clearx" input) must not shadow: the
    // dispatch is by whole token only.
    let mut d = Display::new();
    d.print(b"x");
    process_cmd(&mut d, b"cls extra args");
    assert_eq!(d.cell_at(0, 0), BLANK_CELL);
}
