use mysh::editor::{edit_step, KeyEvent, LoopSignal};

fn buffer_of(s: &str) -> Vec<char> {
    s.chars().collect()
}

fn as_string(buffer: &[char]) -> String {
    buffer.iter().collect()
}

#[test]
fn a_character_is_appended_and_editing_goes_on() {
    let mut buffer = buffer_of("ab");
    let mut history: Vec<String> = Vec::new();
    let mut cursor: usize = 0;
    let sig = edit_step(&mut buffer, &mut history, &mut cursor, KeyEvent::Char('c'));
    assert_eq!(sig, LoopSignal::Edited);
    assert_eq!(as_string(&buffer), "abc");
}

#[test]
fn backspace_removes_the_last_character() {
    let mut buffer = buffer_of("abc");
    let mut history: Vec<String> = Vec::new();
    let mut cursor: usize = 0;
    edit_step(&mut buffer, &mut history, &mut cursor, KeyEvent::Backspace);
    assert_eq!(as_string(&buffer), "ab");
}

#[test]
fn backspace_on_an_empty_line_is_a_no_op() {
    let mut buffer: Vec<char> = Vec::new();
    let mut history: Vec<String> = Vec::new();
    let mut cursor: usize = 0;
    let sig = edit_step(&mut buffer, &mut history, &mut cursor, KeyEvent::Backspace);
    assert_eq!(sig, LoopSignal::Edited);
    assert!(buffer.is_empty());
}

#[test]
fn up_recalls_backwards_and_stops_with_an_empty_line() {
    let mut buffer = buffer_of("typed");
    let mut history = vec!["one".to_string(), "two".to_string()];
    let mut cursor: usize = 2;
    edit_step(&mut buffer, &mut history, &mut cursor, KeyEvent::Up);
    assert_eq!(as_string(&buffer), "two");
    assert_eq!(cursor, 1);
    edit_step(&mut buffer, &mut history, &mut cursor, KeyEvent::Up);
    assert_eq!(as_string(&buffer), "one");
    assert_eq!(cursor, 0);
    edit_step(&mut buffer, &mut history, &mut cursor, KeyEvent::Up);
    assert_eq!(as_string(&buffer), "");
    assert_eq!(cursor, 0);
    assert_eq!(history.len(), 2);
}

#[test]
fn down_recalls_forwards_and_clears_at_the_newest() {
    let mut buffer: Vec<char> = Vec::new();
    let mut history = vec!["one".to_string(), "two".to_string()];
    let mut cursor: usize = 0;
    edit_step(&mut buffer, &mut history, &mut cursor, KeyEvent::Down);
    assert_eq!(as_string(&buffer), "two");
    assert_eq!(cursor, 1);
    edit_step(&mut buffer, &mut history, &mut cursor, KeyEvent::Down);
    assert_eq!(as_string(&buffer), "");
    assert_eq!(cursor, 1);
}

#[test]
fn enter_submits_and_escape_quits() {
    let mut buffer = buffer_of("pwd");
    let mut history: Vec<String> = Vec::new();
    let mut cursor: usize = 0;
    assert_eq!(
        edit_step(&mut buffer, &mut history, &mut cursor, KeyEvent::Enter),
        LoopSignal::Submitted
    );
    assert_eq!(as_string(&buffer), "pwd");
    assert_eq!(
        edit_step(&mut buffer, &mut history, &mut cursor, KeyEvent::Escape),
        LoopSignal::Quit
    );
    assert_eq!(as_string(&buffer), "pwd");
}

#[test]
fn unhandled_keys_change_nothing() {
    let mut buffer = buffer_of("pwd");
    let mut history = vec!["one".to_string()];
    let mut cursor: usize = 1;
    let sig = edit_step(&mut buffer, &mut history, &mut cursor, KeyEvent::Other);
    assert_eq!(sig, LoopSignal::Edited);
    assert_eq!(as_string(&buffer), "pwd");
    assert_eq!(cursor, 1);
}
