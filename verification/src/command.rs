//! The command dispatcher: maps a typed token to one of the closed set
//! of built-in operations and decides, from the arguments and the
//! configuration record, exactly what the surrounding program must do.
//! Filesystem and process side effects themselves happen outside; every
//! decision here is verified.

use vstd::prelude::*;
use crate::customization::{
    cfg_value, customize_post, get_color, handle_customize, spec_get_color, Color, Configuration,
    CustomizationOptions, CustomizeOutcome,
};
use crate::text::{str_eq, trim, trimmed};
use crate::validator::validate_new_file;

verus! {

/// The closed set of command tokens the shell understands.
#[derive(Clone, Copy, Debug, PartialEq, Eq, Structural)]
pub enum Command {
    CD,
    LS,
    MKDIR,
    PLUSPLUS,
    MINUSMINUS,
    KILL,
    UNKNOWN,
    PWD,
    HELP,
    DIRCONTENT,
    CLEAR,
    CUSTOMIZE,
}

/// The command a token resolves to; any unrecognized token is UNKNOWN.
pub open spec fn spec_command_of(s: Seq<char>) -> Command {
    if s == "cd"@ {
        Command::CD
    } else if s == "ls"@ {
        Command::LS
    } else if s == "mkdir"@ {
        Command::MKDIR
    } else if s == "++"@ {
        Command::PLUSPLUS
    } else if s == "--"@ {
        Command::MINUSMINUS
    } else if s == "pwd"@ {
        Command::PWD
    } else if s == "kill"@ {
        Command::KILL
    } else if s == "help"@ {
        Command::HELP
    } else if s == "dircontent"@ {
        Command::DIRCONTENT
    } else if s == "clear"@ {
        Command::CLEAR
    } else if s == "customize"@ {
        Command::CUSTOMIZE
    } else {
        Command::UNKNOWN
    }
}

/// Maps a given command string to its corresponding enum variant.
pub fn get_command_enum(command: &str) -> (c: Command)
    ensures
        c == spec_command_of(command@),
{
    if str_eq(command, "cd") {
        Command::CD
    } else if str_eq(command, "ls") {
        Command::LS
    } else if str_eq(command, "mkdir") {
        Command::MKDIR
    } else if str_eq(command, "++") {
        Command::PLUSPLUS
    } else if str_eq(command, "--") {
        Command::MINUSMINUS
    } else if str_eq(command, "pwd") {
        Command::PWD
    } else if str_eq(command, "kill") {
        Command::KILL
    } else if str_eq(command, "help") {
        Command::HELP
    } else if str_eq(command, "dircontent") {
        Command::DIRCONTENT
    } else if str_eq(command, "clear") {
        Command::CLEAR
    } else if str_eq(command, "customize") {
        Command::CUSTOMIZE
    } else {
        Command::UNKNOWN
    }
}

/// Peek at the argument at the given position without consuming it.
pub fn peek_next(args: &Vec<String>, position: usize) -> (r: Option<String>)
    ensures
        position < args@.len() ==> r.deep_view() == Some(args.deep_view()[position as int]),
        position >= args@.len() ==> r is None,
{
    if position < args.len() {
        Some(args[position].clone())
    } else {
        None
    }
}

/// The recoverable conditions the dispatcher reports instead of acting.
#[derive(Clone, Copy, Debug, PartialEq, Eq, Structural)]
pub enum ReportKind {
    /// `mkdir` was given no directory name.
    MissingDirName,
    /// `++` was given no file name.
    MissingFileName,
    /// `--` was given no file name.
    MissingRemoveTarget,
    /// The command token is not in the operation table.
    UnknownCommand,
}

/// What the dispatcher decided: the one action the surrounding program
/// is to perform, or the report to render.
#[derive(Debug)]
pub enum Step {
    /// Change the working directory to the given path.
    ChangeDir { path: String },
    /// List the entries of the given directory.
    ListDir { path: String },
    /// Spawn the listing and feed it to the named external command.
    PipeList { target: String },
    /// Create the directory and all of its missing ancestors.
    MakeDirAll { path: String },
    /// Create a new file of the given name, after validation.
    CreateFile { name: String },
    /// Ask for confirmation, then delete the named file.
    ConfirmRemove { name: String },
    /// Print the working directory in the given color.
    ShowWorkingDir { color: Color },
    /// Terminate the shell with a success status.
    Exit,
    /// Print the static usage summary.
    ShowHelp,
    /// Print the bordered listing under the given directory.
    ShowDirContent { path: String },
    /// Delete the history file and reinitialize it as empty.
    ClearHistory,
    /// The `customize` command ran; the record may have been mutated.
    Customized { outcome: CustomizeOutcome },
    /// Nothing is to be done; report the condition in the given color.
    Report { about: ReportKind, color: Color },
}

/// The full contract of the dispatcher: which step is decided for the
/// given token and arguments, and that only `customize` touches the
/// configuration record `s1`.
pub open spec fn plan_post(
    command: Seq<char>,
    args: Seq<Seq<char>>,
    s1: Seq<Configuration>,
    s2: Seq<Configuration>,
    step: Step,
) -> bool {
    match spec_command_of(command) {
        Command::CD => s2 == s1 && (match step {
            Step::ChangeDir { path } => path@ == (if args.len() > 0 {
                args[0]
            } else {
                "/"@
            }),
            _ => false,
        }),
        Command::LS => s2 == s1 && (if args.len() >= 1 && args[0] == "|"@ {
            if args.len() >= 2 {
                match step {
                    Step::PipeList { target } => target@ == args[1],
                    _ => false,
                }
            } else {
                match step {
                    Step::ListDir { path } => path@ == "."@,
                    _ => false,
                }
            }
        } else {
            match step {
                Step::ListDir { path } => path@ == (if args.len() >= 1 {
                    args[0]
                } else {
                    "."@
                }),
                _ => false,
            }
        }),
        Command::MKDIR => s2 == s1 && (if args.len() == 0 {
            step == (Step::Report { about: ReportKind::MissingDirName, color: Color::Red })
        } else {
            match step {
                Step::MakeDirAll { path } => path@ == args[0],
                _ => false,
            }
        }),
        Command::PLUSPLUS => s2 == s1 && (if args.len() == 0 {
            step == (Step::Report {
                about: ReportKind::MissingFileName,
                color: spec_get_color(s1, CustomizationOptions::ErrorColor),
            })
        } else {
            match step {
                Step::CreateFile { name } => name@ == args[0],
                _ => false,
            }
        }),
        Command::MINUSMINUS => s2 == s1 && (if args.len() == 0 {
            step == (Step::Report { about: ReportKind::MissingRemoveTarget, color: Color::Red })
        } else {
            match step {
                Step::ConfirmRemove { name } => name@ == args[0],
                _ => false,
            }
        }),
        Command::KILL => s2 == s1 && step == Step::Exit,
        Command::PWD => s2 == s1 && step == (Step::ShowWorkingDir {
            color: spec_get_color(s1, CustomizationOptions::TextColor),
        }),
        Command::HELP => s2 == s1 && step == Step::ShowHelp,
        Command::DIRCONTENT => s2 == s1 && (match step {
            Step::ShowDirContent { path } => path@ == (if args.len() > 0 {
                args[0]
            } else {
                "/"@
            }),
            _ => false,
        }),
        Command::CLEAR => s2 == s1 && step == Step::ClearHistory,
        Command::CUSTOMIZE => match step {
            Step::Customized { outcome } => customize_post(s1, s2, args, outcome),
            _ => false,
        },
        Command::UNKNOWN => s2 == s1 && step == (Step::Report {
            about: ReportKind::UnknownCommand,
            color: spec_get_color(s1, CustomizationOptions::ErrorColor),
        }),
    }
}

/// Resolves the command token and decides the one step the surrounding
/// program must perform; only `customize` mutates the record.
pub fn plan_command(command: &str, args: &Vec<String>, current_config: &mut Vec<Configuration>) -> (
    step: Step)
    ensures
        plan_post(command@, args.deep_view(), old(current_config)@, final(current_config)@, step),
{
    proof {
        if args@.len() > 0 {
            assert(args.deep_view()[0] == args@[0]@);
        }
        if args@.len() > 1 {
            assert(args.deep_view()[1] == args@[1]@);
        }
    }
    match get_command_enum(command) {
        Command::CD => {
            let path = if args.len() > 0 {
                args[0].clone()
            } else {
                "/".to_owned()
            };
            Step::ChangeDir { path }
        },
        Command::LS => {
            let first = peek_next(args, 0);
            let piped = match &first {
                Some(word) => str_eq(word.as_str(), "|"),
                None => false,
            };
            if piped {
                if args.len() >= 2 {
                    Step::PipeList { target: args[1].clone() }
                } else {
                    Step::ListDir { path: ".".to_owned() }
                }
            } else {
                let path = if args.len() > 0 {
                    args[0].clone()
                } else {
                    ".".to_owned()
                };
                Step::ListDir { path }
            }
        },
        Command::MKDIR => {
            if args.len() == 0 {
                Step::Report { about: ReportKind::MissingDirName, color: Color::Red }
            } else {
                Step::MakeDirAll { path: args[0].clone() }
            }
        },
        Command::PLUSPLUS => {
            if args.len() == 0 {
                let color = get_color(CustomizationOptions::ErrorColor, current_config);
                Step::Report { about: ReportKind::MissingFileName, color }
            } else {
                Step::CreateFile { name: args[0].clone() }
            }
        },
        Command::MINUSMINUS => {
            if args.len() == 0 {
                Step::Report { about: ReportKind::MissingRemoveTarget, color: Color::Red }
            } else {
                Step::ConfirmRemove { name: args[0].clone() }
            }
        },
        Command::KILL => Step::Exit,
        Command::PWD => {
            let color = get_color(CustomizationOptions::TextColor, current_config);
            Step::ShowWorkingDir { color }
        },
        Command::HELP => Step::ShowHelp,
        Command::DIRCONTENT => {
            let path = handle_dircontent(args);
            Step::ShowDirContent { path }
        },
        Command::CLEAR => Step::ClearHistory,
        Command::CUSTOMIZE => {
            let outcome = handle_customize(args, current_config);
            Step::Customized { outcome }
        },
        Command::UNKNOWN => {
            let color = get_color(CustomizationOptions::ErrorColor, current_config);
            Step::Report { about: ReportKind::UnknownCommand, color }
        },
    }
}

/// The directory whose contents are to be shown: the given argument, or
/// the filesystem root when none was given.
pub fn handle_dircontent(args: &Vec<String>) -> (path: String)
    ensures
        path@ == (if args.deep_view().len() > 0 {
            args.deep_view()[0]
        } else {
            "/"@
        }),
{
    proof {
        if args@.len() > 0 {
            assert(args.deep_view()[0] == args@[0]@);
        }
    }
    if args.len() > 0 {
        args[0].clone()
    } else {
        "/".to_owned()
    }
}

/// A listed entry as the bordered listing displays it: with the literal
/// source-directory prefix stripped.
pub open spec fn display_entry(s: Seq<char>) -> Seq<char> {
    if s.len() >= 4 && s.subrange(0, 4) == "src/"@ {
        s.subrange(4, s.len() as int)
    } else {
        s
    }
}

/// Strips the displayed prefix from one listed path.
pub fn strip_display_prefix(path: &str) -> (r: String)
    ensures
        r@ == display_entry(path@),
{
    let len = path.unicode_len();
    if len >= 4 {
        let head = path.substring_char(0, 4);
        if str_eq(head, "src/") {
            let tail = path.substring_char(4, len);
            return tail.to_owned();
        }
    }
    path.to_owned()
}

/// Relies on `std::path::Path::exists`: asks the filesystem whether
/// anything lies at the given path. The answer depends on the machine's
/// disk, so nothing is assumed of it.
#[verifier::external_body]
pub fn check_path_exists(path: &str) -> bool {
    std::path::Path::new(path).exists()
}

/// Asks the filesystem about the candidate path and validates the name:
/// creation is allowed only for a non-empty name, and never where the
/// filesystem answered that something already exists.
pub fn make_file_allowed(file_name: &str) -> (ok: bool)
    ensures
        ok ==> file_name@.len() > 0,
{
    let exists = check_path_exists(file_name);
    validate_new_file(file_name, exists)
}

/// The outcome of the confirmation-gated file removal.
#[derive(Clone, Copy, Debug, PartialEq, Eq, Structural)]
pub enum RemoveOutcome {
    /// Nothing lies at the resolved path; nothing is deleted.
    NotFound,
    /// The user answered exactly `yes`: the file is to be deleted.
    Delete,
    /// Any other answer cancels the deletion.
    Canceled,
}

/// Decides the confirmation-gated removal: a missing file is reported
/// as not found, only the literal answer `yes` (after trimming) deletes,
/// and every other answer cancels.
pub fn removal_decision(path_exists: bool, response: &str) -> (r: RemoveOutcome)
    ensures
        !path_exists ==> r == RemoveOutcome::NotFound,
        path_exists && trimmed(response@) == "yes"@ ==> r == RemoveOutcome::Delete,
        path_exists && trimmed(response@) != "yes"@ ==> r == RemoveOutcome::Canceled,
{
    if !path_exists {
        return RemoveOutcome::NotFound;
    }
    let answer = trim(response);
    if str_eq(answer.as_str(), "yes") {
        RemoveOutcome::Delete
    } else {
        RemoveOutcome::Canceled
    }
}

/// Whether and how the result of a dispatched action is reported back:
/// a failure is reported in the configured error color, success reports
/// nothing.
pub fn operation_report(ok: bool, config: &mut Vec<Configuration>) -> (r: Option<Color>)
    ensures
        *final(config) == *old(config),
        ok <==> r is None,
        !ok ==> r == Some(spec_get_color(old(config)@, CustomizationOptions::ErrorColor)),
{
    if ok {
        None
    } else {
        Some(get_color(CustomizationOptions::ErrorColor, config))
    }
}

} // verus!
