//! Classification of an invocation's argument vector into the directive the
//! process must carry out: print help, report a usage error, dump tokens or
//! the AST of a file, or execute a file or an inline code string.
//!
//! The classification is deliberately lenient about help: any first argument
//! that merely begins with `-h` asks for help. As a top-level command, only
//! the exact `--help` form of a `--` argument is recognized; every other `--`
//! argument is an unknown command.
use vstd::prelude::*;
use vstd::string::StringExecFns;
use crate::options::ExecutionOptions;
use crate::options::ExecutionOptionsView;
use crate::options::parse_exec_flags;
use crate::options::parse_execution_args;
use crate::text::has_prefix;
use crate::text::str_eq_str;
use crate::text::str_has_prefix;

verus! {

/// Spec-level image of [`Directive`].
pub enum DirectiveView {
    Help,
    Fail { message: Seq<char>, show_help: bool },
    DumpTokens { file: Seq<char> },
    DumpAst { file: Seq<char> },
    RunFile { file: Seq<char>, options: ExecutionOptionsView },
    RunCode { code: Seq<char>, options: ExecutionOptionsView },
}

/// What the process is to do for a given argument vector. `Help` and
/// `DumpTokens`/`DumpAst`/`RunFile`/`RunCode` exit successfully (a dump still
/// needs its file read, which may fail later); `Fail` prints `message` to
/// standard error, follows it with the help page when `show_help` is set, and
/// exits with failure.
pub enum Directive {
    Help,
    Fail { message: String, show_help: bool },
    DumpTokens { file: String },
    DumpAst { file: String },
    RunFile { file: String, options: ExecutionOptions },
    RunCode { code: String, options: ExecutionOptions },
}

impl View for Directive {
    type V = DirectiveView;

    open spec fn view(&self) -> DirectiveView {
        match self {
            Directive::Help => DirectiveView::Help,
            Directive::Fail { message, show_help } => DirectiveView::Fail {
                message: message@,
                show_help: *show_help,
            },
            Directive::DumpTokens { file } => DirectiveView::DumpTokens { file: file@ },
            Directive::DumpAst { file } => DirectiveView::DumpAst { file: file@ },
            Directive::RunFile { file, options } => DirectiveView::RunFile {
                file: file@,
                options: options@,
            },
            Directive::RunCode { code, options } => DirectiveView::RunCode {
                code: code@,
                options: options@,
            },
        }
    }
}

/// The diagnostic for an unrecognized first argument.
pub open spec fn unknown_command_text(head: Seq<char>) -> Seq<char> {
    "Unknown COMMAND \""@ + head + "\""@
}

/// The diagnostic for an unrecognized token in the flag region.
pub open spec fn unknown_execution_arg_text(token: Seq<char>) -> Seq<char> {
    "Unknown EXECUTION_ARG \""@ + token + "\""@
}

/// The diagnostic for `-e` without a code string.
pub open spec fn missing_code_text() -> Seq<char> {
    "CODE argument for \"-e\" is missing"@
}

/// The diagnostic for a dump command without exactly one file argument.
pub open spec fn wrong_arity_text(command: Seq<char>) -> Seq<char> {
    "\""@ + command + "\" requires exactly one file argument"@
}

/// The diagnostic for a file that could not be opened or read.
pub open spec fn file_unavailable_text(detail: Seq<char>) -> Seq<char> {
    "FILE can not be read "@ + detail
}

pub fn unknown_command_message(head: &str) -> (r: String)
    ensures
        r@ == unknown_command_text(head@),
{
    let mut s = String::from_str("Unknown COMMAND \"");
    s.append(head);
    s.append("\"");
    s
}

pub fn unknown_execution_arg_message(token: &str) -> (r: String)
    ensures
        r@ == unknown_execution_arg_text(token@),
{
    let mut s = String::from_str("Unknown EXECUTION_ARG \"");
    s.append(token);
    s.append("\"");
    s
}

pub fn missing_code_message() -> (r: String)
    ensures
        r@ == missing_code_text(),
{
    String::from_str("CODE argument for \"-e\" is missing")
}

pub fn wrong_arity_message(command: &str) -> (r: String)
    ensures
        r@ == wrong_arity_text(command@),
{
    let mut s = String::from_str("\"");
    s.append(command);
    s.append("\" requires exactly one file argument");
    s
}

pub fn file_unavailable_message(detail: &str) -> (r: String)
    ensures
        r@ == file_unavailable_text(detail@),
{
    let mut s = String::from_str("FILE can not be read ");
    s.append(detail);
    s
}

/// What an argument vector means. `args` holds the user-supplied arguments,
/// the binary's name already removed.
pub open spec fn plan_spec(args: Seq<Seq<char>>) -> DirectiveView {
    if args.len() == 0 {
        DirectiveView::Help
    } else {
        let head = args[0];
        if has_prefix(head, "-h"@) {
            DirectiveView::Help
        } else if has_prefix(head, "--"@) {
            if head == "--help"@ {
                DirectiveView::Help
            } else {
                DirectiveView::Fail { message: unknown_command_text(head), show_help: true }
            }
        } else if head == "-e"@ {
            if args.len() < 2 {
                DirectiveView::Fail { message: missing_code_text(), show_help: true }
            } else {
                match parse_exec_flags(args.skip(2)) {
                    Ok(o) => DirectiveView::RunCode { code: args[1], options: o },
                    Err(t) => DirectiveView::Fail {
                        message: unknown_execution_arg_text(t),
                        show_help: true,
                    },
                }
            }
        } else if !has_prefix(head, "-"@) {
            match parse_exec_flags(args.skip(1)) {
                Ok(o) => DirectiveView::RunFile { file: head, options: o },
                Err(t) => DirectiveView::Fail {
                    message: unknown_execution_arg_text(t),
                    show_help: true,
                },
            }
        } else if head == "-printTokens"@ {
            if args.len() != 2 {
                DirectiveView::Fail { message: wrong_arity_text("printTokens"@), show_help: true }
            } else {
                DirectiveView::DumpTokens { file: args[1] }
            }
        } else if head == "-printAST"@ {
            if args.len() != 2 {
                DirectiveView::Fail { message: wrong_arity_text("printAST"@), show_help: true }
            } else {
                DirectiveView::DumpAst { file: args[1] }
            }
        } else {
            DirectiveView::Fail { message: unknown_command_text(head), show_help: true }
        }
    }
}

/// A token that begins with `--` does not begin with `-h`, and the other way
/// round.
proof fn lemma_help_and_dashes_prefixes_disjoint(head: Seq<char>)
    ensures
        !(has_prefix(head, "--"@) && has_prefix(head, "-h"@)),
{
    reveal_strlit("--");
    reveal_strlit("-h");
    if has_prefix(head, "--"@) && has_prefix(head, "-h"@) {
        assert(head.subrange(0, 2)[1] == head[1]);
        assert(false);
    }
}

/// Classifies the argument vector. Every invocation whose first argument
/// begins with `-h` yields help, whatever its tail; every first argument
/// beginning with `--` other than exactly `--help` yields the unknown-command
/// diagnostic and a failure exit.
pub fn plan_invocation(args: &Vec<String>) -> (d: Directive)
    ensures
        d@ == plan_spec(args.deep_view()),
        args.deep_view().len() > 0 && has_prefix(args.deep_view()[0], "-h"@) ==> (d@
            == DirectiveView::Help),
        args.deep_view().len() > 0 && has_prefix(args.deep_view()[0], "--"@)
            && args.deep_view()[0] != "--help"@ ==> d@ == (DirectiveView::Fail {
            message: unknown_command_text(args.deep_view()[0]),
            show_help: true,
        }),
{
    proof {
        if args.deep_view().len() > 0 {
            lemma_help_and_dashes_prefixes_disjoint(args.deep_view()[0]);
        }
    }
    if args.len() == 0 {
        return Directive::Help;
    }
    let head = &args[0];
    proof {
        assert(args.deep_view()[0] == head@);
    }
    if str_has_prefix(head.as_str(), "-h") {
        return Directive::Help;
    }
    if str_has_prefix(head.as_str(), "--") {
        if str_eq_str(head.as_str(), "--help") {
            return Directive::Help;
        }
        return Directive::Fail {
            message: unknown_command_message(head.as_str()),
            show_help: true,
        };
    }
    if str_eq_str(head.as_str(), "-e") {
        if args.len() < 2 {
            return Directive::Fail { message: missing_code_message(), show_help: true };
        }
        return match parse_execution_args(args, 2) {
            Ok(o) => Directive::RunCode { code: args[1].clone(), options: o },
            Err(t) => Directive::Fail {
                message: unknown_execution_arg_message(t.as_str()),
                show_help: true,
            },
        };
    }
    if !str_has_prefix(head.as_str(), "-") {
        return match parse_execution_args(args, 1) {
            Ok(o) => Directive::RunFile { file: head.clone(), options: o },
            Err(t) => Directive::Fail {
                message: unknown_execution_arg_message(t.as_str()),
                show_help: true,
            },
        };
    }
    if str_eq_str(head.as_str(), "-printTokens") {
        if args.len() != 2 {
            return Directive::Fail {
                message: wrong_arity_message("printTokens"),
                show_help: true,
            };
        }
        return Directive::DumpTokens { file: args[1].clone() };
    }
    if str_eq_str(head.as_str(), "-printAST") {
        if args.len() != 2 {
            return Directive::Fail { message: wrong_arity_message("printAST"), show_help: true };
        }
        return Directive::DumpAst { file: args[1].clone() };
    }
    Directive::Fail { message: unknown_command_message(head.as_str()), show_help: true }
}

} // verus!
