use mysh::command::{
    check_path_exists, get_command_enum, handle_dircontent, make_file_allowed, operation_report,
    peek_next, plan_command, removal_decision, strip_display_prefix, Command, RemoveOutcome,
    ReportKind, Step,
};
use mysh::customization::{get_customization_options, Color, Configuration, CustomizeOutcome};
use mysh::validator::{validate_new_file, Rule, Validator};

fn plan(command: &str, args: &[&str]) -> (Step, Vec<Configuration>) {
    let mut configs = get_customization_options();
    let args: Vec<String> = args.iter().map(|s| s.to_string()).collect();
    let step = plan_command(command, &args, &mut configs);
    (step, configs)
}

#[test]
fn command_tokens_resolve_to_their_operations() {
    assert_eq!(get_command_enum("cd"), Command::CD);
    assert_eq!(get_command_enum("ls"), Command::LS);
    assert_eq!(get_command_enum("mkdir"), Command::MKDIR);
    assert_eq!(get_command_enum("++"), Command::PLUSPLUS);
    assert_eq!(get_command_enum("--"), Command::MINUSMINUS);
    assert_eq!(get_command_enum("pwd"), Command::PWD);
    assert_eq!(get_command_enum("kill"), Command::KILL);
    assert_eq!(get_command_enum("help"), Command::HELP);
    assert_eq!(get_command_enum("dircontent"), Command::DIRCONTENT);
    assert_eq!(get_command_enum("clear"), Command::CLEAR);
    assert_eq!(get_command_enum("customize"), Command::CUSTOMIZE);
    assert_eq!(get_command_enum("frobnicate"), Command::UNKNOWN);
    assert_eq!(get_command_enum(""), Command::UNKNOWN);
}

#[test]
fn peek_next_reads_without_consuming() {
    let args = vec!["|".to_string(), "wc".to_string()];
    assert_eq!(peek_next(&args, 0), Some("|".to_string()));
    assert_eq!(peek_next(&args, 1), Some("wc".to_string()));
    assert_eq!(peek_next(&args, 2), None);
}

#[test]
fn cd_defaults_to_the_root_directory() {
    let (step, _) = plan("cd", &[]);
    match step {
        Step::ChangeDir { path } => assert_eq!(path, "/"),
        other => panic!("unexpected step: {:?}", other),
    }
}

#[test]
fn cd_takes_the_given_directory() {
    let (step, _) = plan("cd", &["/tmp"]);
    match step {
        Step::ChangeDir { path } => assert_eq!(path, "/tmp"),
        other => panic!("unexpected step: {:?}", other),
    }
}

#[test]
fn cd_failure_is_reported_in_the_error_color() {
    let mut configs = get_customization_options();
    assert_eq!(operation_report(true, &mut configs), None);
    assert_eq!(operation_report(false, &mut configs), Some(Color::Red));
}

#[test]
fn ls_defaults_to_the_current_directory() {
    let (step, _) = plan("ls", &[]);
    match step {
        Step::ListDir { path } => assert_eq!(path, "."),
        other => panic!("unexpected step: {:?}", other),
    }
}

#[test]
fn ls_with_pipe_feeds_the_named_command() {
    let (step, _) = plan("ls", &["|", "wc"]);
    match step {
        Step::PipeList { target } => assert_eq!(target, "wc"),
        other => panic!("unexpected step: {:?}", other),
    }
}

#[test]
fn ls_with_a_bare_pipe_lists_the_current_directory() {
    let (step, _) = plan("ls", &["|"]);
    match step {
        Step::ListDir { path } => assert_eq!(path, "."),
        other => panic!("unexpected step: {:?}", other),
    }
}

#[test]
fn mkdir_without_a_name_is_a_reported_no_op() {
    let (step, _) = plan("mkdir", &[]);
    match step {
        Step::Report { about, color } => {
            assert_eq!(about, ReportKind::MissingDirName);
            assert_eq!(color, Color::Red);
        },
        other => panic!("unexpected step: {:?}", other),
    }
}

#[test]
fn mkdir_decides_to_create_all_levels_and_repeats_identically() {
    let (first, _) = plan("mkdir", &["a/b/c"]);
    let (second, _) = plan("mkdir", &["a/b/c"]);
    match (first, second) {
        (Step::MakeDirAll { path: p1 }, Step::MakeDirAll { path: p2 }) => {
            assert_eq!(p1, "a/b/c");
            assert_eq!(p2, "a/b/c");
        },
        other => panic!("unexpected steps: {:?}", other),
    }
}

#[test]
fn plusplus_without_a_name_is_a_reported_no_op() {
    let (step, _) = plan("++", &[]);
    match step {
        Step::Report { about, .. } => assert_eq!(about, ReportKind::MissingFileName),
        other => panic!("unexpected step: {:?}", other),
    }
}

#[test]
fn plusplus_with_a_name_decides_to_create_the_file() {
    let (step, _) = plan("++", &["notes.txt"]);
    match step {
        Step::CreateFile { name } => assert_eq!(name, "notes.txt"),
        other => panic!("unexpected step: {:?}", other),
    }
}

#[test]
fn minusminus_without_a_name_is_a_reported_no_op() {
    let (step, _) = plan("--", &[]);
    match step {
        Step::Report { about, .. } => assert_eq!(about, ReportKind::MissingRemoveTarget),
        other => panic!("unexpected step: {:?}", other),
    }
}

#[test]
fn fixed_commands_map_to_their_steps() {
    assert!(matches!(plan("kill", &[]).0, Step::Exit));
    assert!(matches!(plan("help", &[]).0, Step::ShowHelp));
    assert!(matches!(plan("clear", &[]).0, Step::ClearHistory));
    assert!(matches!(plan("pwd", &[]).0, Step::ShowWorkingDir { color: Color::Red }));
    match plan("--", &["f.txt"]).0 {
        Step::ConfirmRemove { name } => assert_eq!(name, "f.txt"),
        other => panic!("unexpected step: {:?}", other),
    }
}

#[test]
fn unknown_command_is_reported_in_the_error_color() {
    let (step, _) = plan("frobnicate", &["x"]);
    match step {
        Step::Report { about, color } => {
            assert_eq!(about, ReportKind::UnknownCommand);
            assert_eq!(color, Color::Red);
        },
        other => panic!("unexpected step: {:?}", other),
    }
}

#[test]
fn customize_runs_through_the_dispatcher() {
    let (step, mut configs) = plan("customize", &["Text_Color", "Blue"]);
    match step {
        Step::Customized { outcome } => match outcome {
            CustomizeOutcome::ChangedColor { color, .. } => assert_eq!(color, Color::Blue),
            other => panic!("unexpected outcome: {:?}", other),
        },
        other => panic!("unexpected step: {:?}", other),
    }
    assert_eq!(
        mysh::customization::get_color(
            mysh::customization::CustomizationOptions::TextColor,
            &mut configs
        ),
        Color::Blue
    );
}

#[test]
fn dircontent_defaults_to_the_root() {
    let args: Vec<String> = Vec::new();
    assert_eq!(handle_dircontent(&args), "/");
    let args = vec!["/tmp".to_string()];
    assert_eq!(handle_dircontent(&args), "/tmp");
}

#[test]
fn listed_entries_lose_the_source_prefix() {
    assert_eq!(strip_display_prefix("src/main.rs"), "main.rs");
    assert_eq!(strip_display_prefix("src/"), "");
    assert_eq!(strip_display_prefix("src"), "src");
    assert_eq!(strip_display_prefix("other/src/x"), "other/src/x");
    assert_eq!(strip_display_prefix(""), "");
}

#[test]
fn creating_over_an_existing_file_fails_validation() {
    assert!(validate_new_file("notes.txt", false));
    assert!(!validate_new_file("notes.txt", true));
    assert!(!validate_new_file("", false));
}

#[test]
fn validator_reports_the_first_failing_rule() {
    let mut validator = Validator::new();
    validator.add_rule(Rule::NameNonEmpty);
    validator.add_rule(Rule::PathAbsent);
    assert!(validator.validate("name", false));
    assert!(!validator.validate("", false));
    assert_eq!(validator.first_failure("", false), Some(Rule::NameNonEmpty));
    assert_eq!(validator.first_failure("name", true), Some(Rule::PathAbsent));
    assert_eq!(validator.first_failure("name", false), None);
    assert_eq!(Rule::NameNonEmpty.name(), "file_name");
    assert_eq!(Rule::PathAbsent.name(), "file_does_not_exist");
}

#[test]
fn empty_file_name_is_never_allowed() {
    assert!(!make_file_allowed(""));
}

#[test]
fn creating_over_an_existing_path_is_never_allowed() {
    assert!(!make_file_allowed("/"));
}

#[test]
fn the_root_path_exists() {
    assert!(check_path_exists("/"));
}

#[test]
fn removal_of_a_missing_file_is_not_found() {
    assert_eq!(removal_decision(false, "yes"), RemoveOutcome::NotFound);
}

#[test]
fn removal_proceeds_only_on_the_literal_yes() {
    assert_eq!(removal_decision(true, "yes"), RemoveOutcome::Delete);
    assert_eq!(removal_decision(true, "yes\n"), RemoveOutcome::Delete);
    assert_eq!(removal_decision(true, "  yes  "), RemoveOutcome::Delete);
}

#[test]
fn removal_is_canceled_on_any_other_answer() {
    assert_eq!(removal_decision(true, "no"), RemoveOutcome::Canceled);
    assert_eq!(removal_decision(true, "yEs"), RemoveOutcome::Canceled);
    assert_eq!(removal_decision(true, ""), RemoveOutcome::Canceled);
    assert_eq!(removal_decision(true, "yess"), RemoveOutcome::Canceled);
}
