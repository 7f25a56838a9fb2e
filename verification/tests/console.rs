use os_gaming::gui::console::{Console, ConsoleKey};

fn type_str(c: &mut Console, s: &str) {
    for ch in s.chars() {
        c.handle_key(ch);
    }
}

#[test]
fn new_console_greets() {
    let c = Console::new();
    assert_eq!(c.lines(), vec!["OS Gaming Console v0.1.0".to_string(), "Type 'help' for commands".to_string()]);
    assert_eq!(c.input(), "");
    assert_eq!(c.cursor(), 0);
}

#[test]
fn typing_inserts_at_the_cursor_and_enter_submits() {
    let mut c = Console::new();
    type_str(&mut c, "hlp");
    c.handle_special_key(ConsoleKey::ArrowLeft);
    c.handle_special_key(ConsoleKey::ArrowLeft);
    c.handle_key('e');
    assert_eq!(c.input(), "help");
    assert_eq!(c.cursor(), 2);
    assert!(c.handle_key('\n'));
    assert_eq!(c.lines().last().unwrap(), "> help");
    assert_eq!(c.input(), "");
    assert_eq!(c.cursor(), 0);
}

#[test]
fn backspace_deletes_before_the_cursor() {
    let mut c = Console::new();
    type_str(&mut c, "abc");
    c.handle_key('\u{8}');
    assert_eq!(c.input(), "ab");
    c.handle_special_key(ConsoleKey::Home);
    c.handle_key('\u{8}');
    assert_eq!(c.input(), "ab");
    c.handle_special_key(ConsoleKey::End);
    assert_eq!(c.cursor(), 2);
    assert!(!c.handle_key('\u{1B}'));
    assert_eq!(c.input(), "ab");
}

#[test]
fn history_browses_up_and_down() {
    let mut c = Console::new();
    type_str(&mut c, "one\n");
    type_str(&mut c, "two\n");
    c.handle_key('\n');
    // the empty line is not recorded
    c.handle_special_key(ConsoleKey::ArrowUp);
    assert_eq!(c.input(), "two");
    assert_eq!(c.cursor(), 3);
    c.handle_special_key(ConsoleKey::ArrowUp);
    assert_eq!(c.input(), "one");
    // up from the oldest wraps to the newest
    c.handle_special_key(ConsoleKey::ArrowUp);
    assert_eq!(c.input(), "two");
    // down from the newest wraps to the oldest
    c.handle_special_key(ConsoleKey::ArrowDown);
    assert_eq!(c.input(), "one");
}

#[test]
fn down_without_browsing_does_nothing() {
    let mut c = Console::new();
    type_str(&mut c, "cmd\n");
    type_str(&mut c, "x");
    c.handle_special_key(ConsoleKey::ArrowDown);
    assert_eq!(c.input(), "x");
    c.handle_special_key(ConsoleKey::Other);
    assert_eq!(c.input(), "x");
}

#[test]
fn println_keeps_the_last_thousand_lines() {
    let mut c = Console::new();
    for i in 0..1000 {
        c.println(&format!("line {}", i));
    }
    let lines = c.lines();
    assert_eq!(lines.len(), 1000);
    assert_eq!(lines[0], "line 0");
    assert_eq!(lines[999], "line 999");
}

#[test]
fn history_keeps_the_last_hundred_commands() {
    let mut c = Console::new();
    for i in 0..101 {
        type_str(&mut c, &format!("c{}\n", i));
    }
    // the oldest command is the second one typed
    c.handle_special_key(ConsoleKey::ArrowUp);
    c.handle_special_key(ConsoleKey::ArrowUp);
    assert_eq!(c.input(), "c99");
    for _ in 0..99 {
        c.handle_special_key(ConsoleKey::ArrowUp);
    }
    assert_eq!(c.input(), "c100");
}

#[test]
fn cursor_counts_bytes_of_multibyte_characters() {
    let mut c = Console::new();
    c.handle_key('é');
    assert_eq!(c.cursor(), 1);
    assert_eq!(c.input(), "é");
    c.handle_special_key(ConsoleKey::End);
    assert_eq!(c.cursor(), 2);
    c.handle_key('!');
    assert_eq!(c.input(), "é!");
}
