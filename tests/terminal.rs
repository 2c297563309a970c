use retro_console::os::split_lines;
use retro_console::{Key, Terminal, OS};

fn screen_lines(t: &Terminal) -> Vec<String> {
    t.get_screen().split('\n').map(|l| l.to_string()).collect()
}

fn type_line(t: &mut Terminal, line: &str) {
    for ch in line.chars() {
        let key = if ch == ' ' { Key::Space } else { Key::Character(ch.to_string()) };
        assert!(t.handle_keyboard_input(&key).is_none());
    }
}

fn row(s: &str, width: usize) -> String {
    format!("{:<width$}", s, width = width)
}

#[test]
fn enter_hands_over_the_typed_command() {
    let mut t = Terminal::new(20, 4);
    type_line(&mut t, "echo hi");
    let command = t.handle_keyboard_input(&Key::Enter).unwrap();
    assert_eq!(command.program, "echo");
    assert_eq!(command.args, vec!["hi".to_string()]);
    assert_eq!(screen_lines(&t)[2], row("  echo hi", 20));
    assert_eq!(screen_lines(&t)[3], format!("█{}", " ".repeat(19)));
}

#[test]
fn command_output_lands_on_the_row_after_the_prompt() {
    let mut t = Terminal::new(20, 4);
    type_line(&mut t, "echo hi");
    let command = t.handle_keyboard_input(&Key::Enter).unwrap();
    assert_eq!(command.program, "echo");
    t.finish_command(Some(b"hi\n".to_vec()));
    let lines = screen_lines(&t);
    assert_eq!(lines[1], row("  echo hi", 20));
    assert_eq!(lines[2], row("hi", 20));
    assert_eq!(lines[3], format!("█{}", " ".repeat(19)));
    // The input line was emptied: a bare Enter now asks for nothing.
    assert!(t.handle_keyboard_input(&Key::Enter).is_none());
}

#[test]
fn failed_command_shows_failure_and_console_keeps_working() {
    let mut t = Terminal::new(30, 4);
    type_line(&mut t, "no-such-program-here");
    let command = t.handle_keyboard_input(&Key::Enter).unwrap();
    assert_eq!(command.program, "no-such-program-here");
    t.finish_command(None);
    let lines = screen_lines(&t);
    assert_eq!(lines[2], row("Failed to execute command", 30));
    type_line(&mut t, "ls");
    assert_eq!(screen_lines(&t)[3], format!("ls█{}", " ".repeat(27)));
    let command = t.handle_keyboard_input(&Key::Enter).unwrap();
    assert_eq!(command.program, "ls");
    assert!(command.args.is_empty());
}

#[test]
fn empty_line_asks_for_nothing() {
    let mut t = Terminal::new(10, 3);
    assert!(t.handle_keyboard_input(&Key::Enter).is_none());
    type_line(&mut t, "   ");
    assert!(t.handle_keyboard_input(&Key::Enter).is_none());
}

#[test]
fn backspace_edits_the_input_line() {
    let mut t = Terminal::new(10, 3);
    type_line(&mut t, "lsx");
    t.handle_keyboard_input(&Key::Backspace);
    let command = t.handle_keyboard_input(&Key::Enter).unwrap();
    assert_eq!(command.program, "ls");
}

#[test]
fn backspace_at_column_zero_still_shortens_input() {
    let mut t = Terminal::new(4, 3);
    type_line(&mut t, "ab");
    // The second character wrapped the row: the cursor is at column 0.
    assert_eq!(screen_lines(&t)[2], "█   ");
    let before = t.get_screen();
    t.handle_keyboard_input(&Key::Backspace);
    assert_eq!(t.get_screen(), before);
    let command = t.handle_keyboard_input(&Key::Enter).unwrap();
    assert_eq!(command.program, "a");
}

#[test]
fn control_characters_do_not_reach_the_input() {
    let mut t = Terminal::new(10, 3);
    type_line(&mut t, "l");
    t.handle_keyboard_input(&Key::Character("\u{8}".to_string()));
    type_line(&mut t, "s");
    let command = t.handle_keyboard_input(&Key::Enter).unwrap();
    assert_eq!(command.program, "ls");
}

#[test]
fn long_output_wraps_at_the_last_column() {
    let mut t = Terminal::new(4, 5);
    t.handle_keyboard_input(&Key::Enter);
    t.finish_command(Some(b"abcdefghij\n".to_vec()));
    assert_eq!(screen_lines(&t), vec!["    ", "abcd", "efgh", "ij  ", "█   "]);
}

#[test]
fn output_of_exactly_one_row_scrolls_once() {
    let mut t = Terminal::new(4, 4);
    t.handle_keyboard_input(&Key::Enter);
    t.finish_command(Some(b"abcd".to_vec()));
    assert_eq!(screen_lines(&t), vec!["    ", "    ", "abcd", "█   "]);
}

#[test]
fn empty_output_lines_are_skipped() {
    let mut t = Terminal::new(4, 4);
    t.handle_keyboard_input(&Key::Enter);
    t.finish_command(Some(b"a\n\r\nb\r\n".to_vec()));
    assert_eq!(screen_lines(&t), vec!["    ", "a   ", "b   ", "█   "]);
}

#[test]
fn undecodable_output_shows_the_decoding_error() {
    let mut t = Terminal::new(50, 3);
    t.handle_keyboard_input(&Key::Enter);
    t.finish_command(Some(vec![0x66, 0xFF]));
    assert_eq!(screen_lines(&t)[1], row("invalid utf-8 sequence of 1 bytes from index 1", 50));
}

#[test]
fn parse_command_splits_at_white_space() {
    let os = OS;
    let command = os.parse_command("  ls \t -la   /tmp \n").unwrap();
    assert_eq!(command.program, "ls");
    assert_eq!(command.args, vec!["-la".to_string(), "/tmp".to_string()]);
    assert!(os.parse_command("").is_none());
    assert!(os.parse_command(" \t\u{3000} ").is_none());
}

#[test]
fn output_text_of_each_outcome() {
    let os = OS;
    assert_eq!(os.output_text(None), "Failed to execute command");
    assert_eq!(os.output_text(Some(b"hi\n".to_vec())), "hi\n");
    assert_eq!(os.output_text(Some("é".as_bytes().to_vec())), "é");
    assert_eq!(os.output_text(Some(vec![])), "");
}

#[test]
fn split_lines_like_str_lines() {
    let expect = |s: &str| -> Vec<Vec<char>> { s.lines().map(|l| l.chars().collect()).collect() };
    for s in ["", "a", "a\n", "a\r\nb\n\nc", "foo\r\nbar\n\r\nbaz\r", "\n\n", "x\ry\n"] {
        assert_eq!(split_lines(s), expect(s), "text {:?}", s);
    }
}

#[test]
fn empty_text_key_leaves_input_alone() {
    let mut t = Terminal::new(10, 3);
    type_line(&mut t, "l");
    let before = t.get_screen();
    assert!(t.handle_keyboard_input(&Key::Character(String::new())).is_none());
    assert_eq!(t.get_screen(), before);
    type_line(&mut t, "s");
    let command = t.handle_keyboard_input(&Key::Enter).unwrap();
    assert_eq!(command.program, "ls");
}
