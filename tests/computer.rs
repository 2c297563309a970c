use retro_console::{Computer, Key};

fn screen_lines(c: &Computer) -> Vec<String> {
    c.get_screen().split('\n').map(|l| l.to_string()).collect()
}

fn cursor_column(c: &Computer) -> usize {
    let lines = screen_lines(c);
    lines.last().unwrap().chars().position(|ch| ch == '█').unwrap()
}

fn text(s: &str) -> Key {
    Key::Character(s.to_string())
}

fn row(s: &str, width: usize) -> String {
    format!("{:<width$}", s, width = width)
}

#[test]
fn new_console_is_blank_with_cursor_at_prompt() {
    let c = Computer::new(80, 25);
    let lines = screen_lines(&c);
    assert_eq!(lines.len(), 25);
    for l in &lines[..24] {
        assert_eq!(l, &row("", 80));
    }
    assert_eq!(lines[24], format!("  █{}", " ".repeat(77)));
    assert!(!c.get_screen().ends_with('\n'));
}

#[test]
fn narrow_console_starts_cursor_inside_row() {
    let c = Computer::new(1, 1);
    assert_eq!(c.get_screen(), "█");
    let c = Computer::new(2, 1);
    assert_eq!(c.get_screen(), " █");
}

#[test]
fn typing_writes_under_cursor_and_advances() {
    let mut c = Computer::new(10, 3);
    c.handle_keyboard_input(&text("h"));
    c.handle_keyboard_input(&text("i"));
    assert_eq!(screen_lines(&c)[2], "  hi█     ");
    assert_eq!(cursor_column(&c), 4);
}

#[test]
fn space_types_a_blank() {
    let mut c = Computer::new(6, 2);
    c.handle_keyboard_input(&Key::Enter);
    c.handle_keyboard_input(&text("a"));
    c.handle_keyboard_input(&Key::Space);
    c.handle_keyboard_input(&text("b"));
    assert_eq!(screen_lines(&c)[1], "a b█  ");
}

#[test]
fn character_key_types_its_first_character() {
    let mut c = Computer::new(6, 2);
    c.handle_keyboard_input(&Key::Enter);
    c.handle_keyboard_input(&text("xy"));
    assert_eq!(screen_lines(&c)[1], "x█    ");
}

#[test]
fn control_characters_are_ignored() {
    let mut c = Computer::new(6, 2);
    let before = c.get_screen();
    c.handle_keyboard_input(&text("\u{7}"));
    c.handle_keyboard_input(&text("a\u{1b}"));
    c.handle_keyboard_input(&Key::Other);
    assert_eq!(c.get_screen(), before);
}

#[test]
fn characters_outside_the_code_page_type_a_question_mark() {
    let mut c = Computer::new(6, 2);
    c.handle_keyboard_input(&Key::Enter);
    c.handle_keyboard_input(&text("€"));
    c.handle_keyboard_input(&text("é"));
    assert_eq!(screen_lines(&c)[1], "?é█   ");
}

#[test]
fn enter_scrolls_and_returns_to_column_zero() {
    let mut c = Computer::new(6, 3);
    c.handle_keyboard_input(&text("a"));
    c.handle_keyboard_input(&Key::Enter);
    let lines = screen_lines(&c);
    assert_eq!(lines, vec![row("", 6), row("  a", 6), "█     ".to_string()]);
}

#[test]
fn scroll_moves_every_row_up_and_adds_a_blank_row() {
    let mut c = Computer::new(4, 3);
    c.handle_keyboard_input(&Key::Enter);
    c.handle_keyboard_input(&text("a"));
    c.handle_keyboard_input(&Key::Enter);
    c.handle_keyboard_input(&text("b"));
    c.handle_keyboard_input(&Key::Enter);
    assert_eq!(screen_lines(&c), vec!["a   ", "b   ", "█   "]);
    c.handle_keyboard_input(&Key::Enter);
    assert_eq!(screen_lines(&c), vec!["b   ", "    ", "█   "]);
}

#[test]
fn scrolling_once_per_row_clears_the_grid() {
    let mut c = Computer::new(4, 3);
    for _ in 0..3 {
        c.handle_keyboard_input(&text("z"));
        c.handle_keyboard_input(&Key::Enter);
        c.handle_keyboard_input(&text("q"));
    }
    for _ in 0..3 {
        c.handle_keyboard_input(&Key::Enter);
    }
    assert_eq!(screen_lines(&c), vec!["    ", "    ", "█   "]);
}

#[test]
fn typing_a_full_row_wraps_once() {
    let mut c = Computer::new(5, 3);
    c.handle_keyboard_input(&Key::Enter);
    let before = screen_lines(&c);
    for ch in ["a", "b", "c", "d", "e"] {
        c.handle_keyboard_input(&text(ch));
    }
    let lines = screen_lines(&c);
    assert_eq!(lines[0], before[1]);
    assert_eq!(lines[1], "abcde");
    assert_eq!(lines[2], "█    ");
    assert_eq!(cursor_column(&c), 0);
}

#[test]
fn wrap_happens_only_at_the_last_column() {
    let mut c = Computer::new(5, 2);
    c.handle_keyboard_input(&Key::Enter);
    for ch in ["a", "b", "c", "d"] {
        c.handle_keyboard_input(&text(ch));
    }
    assert_eq!(screen_lines(&c), vec!["     ", "abcd█"]);
    c.handle_keyboard_input(&Key::Space);
    assert_eq!(screen_lines(&c), vec!["abcd ", "█    "]);
}

#[test]
fn backspace_at_column_zero_changes_nothing() {
    let mut c = Computer::new(5, 2);
    c.handle_keyboard_input(&text("a"));
    c.handle_keyboard_input(&Key::Enter);
    let before = c.get_screen();
    c.handle_keyboard_input(&Key::Backspace);
    assert_eq!(c.get_screen(), before);
    assert_eq!(cursor_column(&c), 0);
}

#[test]
fn backspace_clears_under_cursor_and_steps_back() {
    let mut c = Computer::new(6, 1);
    c.handle_keyboard_input(&text("a"));
    c.handle_keyboard_input(&text("b"));
    assert_eq!(c.get_screen(), "  ab█ ");
    c.handle_keyboard_input(&Key::Backspace);
    assert_eq!(c.get_screen(), "  a█  ");
    c.handle_keyboard_input(&Key::Backspace);
    assert_eq!(c.get_screen(), "  █   ");
    c.handle_keyboard_input(&Key::Backspace);
    assert_eq!(c.get_screen(), " █    ");
}

#[test]
fn cursor_stays_in_row_under_many_keys() {
    let mut c = Computer::new(3, 2);
    let keys = [
        text("a"),
        Key::Space,
        text("b"),
        Key::Backspace,
        text("c"),
        text("d"),
        Key::Enter,
        Key::Backspace,
        text("e"),
        Key::Other,
        text("\u{0}"),
        text("f"),
        text("g"),
    ];
    for key in keys.iter() {
        c.handle_keyboard_input(key);
        assert!(cursor_column(&c) < 3);
        assert_eq!(screen_lines(&c).len(), 2);
        assert!(screen_lines(&c).iter().all(|l| l.chars().count() == 3));
    }
}

#[test]
fn empty_text_key_changes_nothing() {
    let mut c = Computer::new(6, 2);
    let before = c.get_screen();
    c.handle_keyboard_input(&text(""));
    assert_eq!(c.get_screen(), before);
    c.handle_keyboard_input(&text("a"));
    assert_eq!(screen_lines(&c)[1], "  a█  ");
}
