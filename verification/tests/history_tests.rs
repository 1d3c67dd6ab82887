use mysh::history::{append, get_next_command, get_prev_command};

fn sample_history() -> Vec<String> {
    vec!["one".to_string(), "two".to_string(), "three".to_string()]
}

#[test]
fn prev_walks_back_and_stops_at_oldest() {
    let mut commands = sample_history();
    let mut cursor: usize = 3;
    assert_eq!(get_prev_command(&mut commands, &mut cursor), "three");
    assert_eq!(cursor, 2);
    assert_eq!(get_prev_command(&mut commands, &mut cursor), "two");
    assert_eq!(cursor, 1);
    assert_eq!(get_prev_command(&mut commands, &mut cursor), "one");
    assert_eq!(cursor, 0);
    assert_eq!(get_prev_command(&mut commands, &mut cursor), "");
    assert_eq!(cursor, 0);
    assert_eq!(commands.len(), 3);
}

#[test]
fn next_walks_forward_and_returns_empty_at_newest() {
    let mut commands = sample_history();
    let mut cursor: usize = 0;
    assert_eq!(get_next_command(&mut commands, &mut cursor), "two");
    assert_eq!(cursor, 1);
    assert_eq!(get_next_command(&mut commands, &mut cursor), "three");
    assert_eq!(cursor, 2);
    assert_eq!(get_next_command(&mut commands, &mut cursor), "");
    assert_eq!(cursor, 2);
}

#[test]
fn next_at_reset_cursor_returns_empty() {
    let mut commands = sample_history();
    let mut cursor: usize = commands.len();
    assert_eq!(get_next_command(&mut commands, &mut cursor), "");
    assert_eq!(cursor, 3);
}

#[test]
fn navigation_on_empty_history_returns_empty() {
    let mut commands: Vec<String> = Vec::new();
    let mut cursor: usize = 0;
    assert_eq!(get_prev_command(&mut commands, &mut cursor), "");
    assert_eq!(get_next_command(&mut commands, &mut cursor), "");
    assert_eq!(cursor, 0);
}

#[test]
fn cursor_never_leaves_range_under_mixed_navigation() {
    let mut commands = sample_history();
    let mut cursor: usize = commands.len();
    for round in 0..20 {
        if round % 3 == 0 {
            get_prev_command(&mut commands, &mut cursor);
        } else {
            get_next_command(&mut commands, &mut cursor);
        }
        assert!(cursor <= commands.len());
    }
}

#[test]
fn append_records_a_line_and_resets_cursor() {
    let mut commands = sample_history();
    let mut cursor: usize = 1;
    let recorded = append(&mut commands, &mut cursor, "ls -l");
    assert!(recorded);
    assert_eq!(commands.len(), 4);
    assert_eq!(commands[3], "ls -l");
    assert_eq!(cursor, 4);
}

#[test]
fn append_of_blank_line_keeps_history_length() {
    let mut commands = sample_history();
    let mut cursor: usize = 0;
    assert!(!append(&mut commands, &mut cursor, ""));
    assert_eq!(commands.len(), 3);
    assert!(!append(&mut commands, &mut cursor, "   \t  "));
    assert_eq!(commands.len(), 3);
    assert_eq!(cursor, 3);
}
