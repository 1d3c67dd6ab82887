use mysh::render::paint;
use mysh::customization::Color;
use mysh::text::{line_is_blank, parse_line, prompt_line, str_eq, tokenize, trim};

#[test]
fn blank_lines_are_recognized() {
    assert!(line_is_blank(""));
    assert!(line_is_blank(" \t \r\n"));
    assert!(!line_is_blank(" a "));
    assert!(!line_is_blank("pwd"));
}

#[test]
fn string_equality_compares_contents() {
    assert!(str_eq("", ""));
    assert!(str_eq("abc", "abc"));
    assert!(!str_eq("abc", "abd"));
    assert!(!str_eq("abc", "ab"));
}

#[test]
fn trim_removes_surrounding_whitespace_only() {
    assert_eq!(trim("  x y  "), "x y");
    assert_eq!(trim("\tyes\n"), "yes");
    assert_eq!(trim("   "), "");
    assert_eq!(trim(""), "");
    assert_eq!(trim("plain"), "plain");
}

#[test]
fn the_prompt_line_brackets_the_text() {
    assert_eq!(prompt_line("PROMPT"), "[<PROMPT>] ");
    assert_eq!(prompt_line(""), "[<>] ");
}

#[test]
fn tokenize_splits_on_any_whitespace_run() {
    assert_eq!(tokenize("ls | wc"), vec!["ls", "|", "wc"]);
    assert_eq!(tokenize("  cd\t/tmp \n"), vec!["cd", "/tmp"]);
    assert_eq!(tokenize("pwd"), vec!["pwd"]);
    assert_eq!(tokenize("   "), Vec::<String>::new());
    assert_eq!(tokenize(""), Vec::<String>::new());
}

#[test]
fn parse_line_separates_command_and_arguments() {
    let (command, args) = parse_line("customize Text_Color Blue").unwrap();
    assert_eq!(command, "customize");
    assert_eq!(args, vec!["Text_Color", "Blue"]);
    assert_eq!(parse_line("  \t ").map(|p| p.0), None);
    let (command, args) = parse_line(" kill ").unwrap();
    assert_eq!(command, "kill");
    assert!(args.is_empty());
}

#[test]
fn painting_keeps_the_message_readable() {
    let painted = paint("hello", Color::Green);
    assert!(painted.contains("hello"));
}
