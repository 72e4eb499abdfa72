use lang_cli::invocation::plan_invocation;
use lang_cli::invocation::Directive;
use lang_cli::invocation::file_unavailable_message;
use lang_cli::options::parse_execution_args;

fn argv(args: &[&str]) -> Vec<String> {
    args.iter().map(|s| s.to_string()).collect()
}

#[test]
fn empty_argv_asks_for_help() {
    let d = plan_invocation(&argv(&[]));
    assert!(matches!(d, Directive::Help));
}

#[test]
fn exact_help_flag_asks_for_help() {
    let d = plan_invocation(&argv(&["--help"]));
    assert!(matches!(d, Directive::Help));
}

#[test]
fn help_prefix_is_lenient() {
    let d = plan_invocation(&argv(&["-h"]));
    assert!(matches!(d, Directive::Help));
    let d = plan_invocation(&argv(&["-hwhatever", "junk", "--", "more"]));
    assert!(matches!(d, Directive::Help));
}

#[test]
fn unknown_double_dash_command_fails() {
    let d = plan_invocation(&argv(&["--foo"]));
    match d {
        Directive::Fail { message, show_help } => {
            assert_eq!(message, "Unknown COMMAND \"--foo\"");
            assert!(show_help);
        },
        _ => panic!("expected a failure directive"),
    }
}

#[test]
fn bare_double_dash_is_an_unknown_command() {
    let d = plan_invocation(&argv(&["--"]));
    match d {
        Directive::Fail { message, show_help } => {
            assert_eq!(message, "Unknown COMMAND \"--\"");
            assert!(show_help);
        },
        _ => panic!("expected a failure directive"),
    }
}

#[test]
fn unknown_single_dash_command_fails() {
    let d = plan_invocation(&argv(&["-bogus"]));
    match d {
        Directive::Fail { message, show_help } => {
            assert_eq!(message, "Unknown COMMAND \"-bogus\"");
            assert!(show_help);
        },
        _ => panic!("expected a failure directive"),
    }
}

#[test]
fn inline_code_with_print_returned_value() {
    let d = plan_invocation(&argv(&["-e", "print(1+1)", "-printReturnedValue"]));
    match d {
        Directive::RunCode { code, options } => {
            assert_eq!(code, "print(1+1)");
            assert!(options.print_returned_value);
            assert!(!options.print_translations);
            assert!(!options.warnings);
            assert!(options.lang_args.is_none());
        },
        _ => panic!("expected an inline-code directive"),
    }
}

#[test]
fn missing_code_for_inline_execution_fails() {
    let d = plan_invocation(&argv(&["-e"]));
    match d {
        Directive::Fail { message, show_help } => {
            assert_eq!(message, "CODE argument for \"-e\" is missing");
            assert!(show_help);
        },
        _ => panic!("expected a failure directive"),
    }
}

#[test]
fn file_execution_with_delimited_program_args() {
    let d = plan_invocation(&argv(&["script.lang", "-warnings", "--", "a", "-printTranslations", "b"]));
    match d {
        Directive::RunFile { file, options } => {
            assert_eq!(file, "script.lang");
            assert!(options.warnings);
            assert!(!options.print_translations);
            assert!(!options.print_returned_value);
            assert_eq!(options.lang_args, Some(argv(&["a", "-printTranslations", "b"])));
        },
        _ => panic!("expected a file-execution directive"),
    }
}

#[test]
fn lang_args_delimiter_spelled_out_is_equivalent() {
    let with_alias = plan_invocation(&argv(&["f.lang", "-langArgs", "x"]));
    match with_alias {
        Directive::RunFile { file, options } => {
            assert_eq!(file, "f.lang");
            assert_eq!(options.lang_args, Some(argv(&["x"])));
        },
        _ => panic!("expected a file-execution directive"),
    }
}

#[test]
fn repeated_boolean_flags_are_idempotent() {
    let d = plan_invocation(&argv(&["f.lang", "-warnings", "-warnings", "-printTranslations"]));
    match d {
        Directive::RunFile { options, .. } => {
            assert!(options.warnings);
            assert!(options.print_translations);
            assert!(!options.print_returned_value);
            assert!(options.lang_args.is_none());
        },
        _ => panic!("expected a file-execution directive"),
    }
}

#[test]
fn unknown_execution_arg_fails() {
    let d = plan_invocation(&argv(&["f.lang", "-bogus"]));
    match d {
        Directive::Fail { message, show_help } => {
            assert_eq!(message, "Unknown EXECUTION_ARG \"-bogus\"");
            assert!(show_help);
        },
        _ => panic!("expected a failure directive"),
    }
}

#[test]
fn tokens_after_delimiter_are_never_flags() {
    let d = plan_invocation(&argv(&["-e", "code", "--", "-warnings", "-bogus", "--"]));
    match d {
        Directive::RunCode { code, options } => {
            assert_eq!(code, "code");
            assert!(!options.warnings);
            assert_eq!(options.lang_args, Some(argv(&["-warnings", "-bogus", "--"])));
        },
        _ => panic!("expected an inline-code directive"),
    }
}

#[test]
fn print_tokens_needs_exactly_one_file() {
    let d = plan_invocation(&argv(&["-printTokens"]));
    match d {
        Directive::Fail { message, show_help } => {
            assert_eq!(message, "\"printTokens\" requires exactly one file argument");
            assert!(show_help);
        },
        _ => panic!("expected a failure directive"),
    }
    let d = plan_invocation(&argv(&["-printTokens", "a.lang", "b.lang"]));
    assert!(matches!(d, Directive::Fail { .. }));
    let d = plan_invocation(&argv(&["-printTokens", "a.lang"]));
    match d {
        Directive::DumpTokens { file } => assert_eq!(file, "a.lang"),
        _ => panic!("expected a token-dump directive"),
    }
}

#[test]
fn print_ast_needs_exactly_one_file() {
    let d = plan_invocation(&argv(&["-printAST"]));
    match d {
        Directive::Fail { message, show_help } => {
            assert_eq!(message, "\"printAST\" requires exactly one file argument");
            assert!(show_help);
        },
        _ => panic!("expected a failure directive"),
    }
    let d = plan_invocation(&argv(&["-printAST", "a.lang"]));
    match d {
        Directive::DumpAst { file } => assert_eq!(file, "a.lang"),
        _ => panic!("expected an AST-dump directive"),
    }
}

#[test]
fn empty_first_argument_is_a_file_path() {
    let d = plan_invocation(&argv(&[""]));
    match d {
        Directive::RunFile { file, options } => {
            assert_eq!(file, "");
            assert!(options.lang_args.is_none());
        },
        _ => panic!("expected a file-execution directive"),
    }
}

#[test]
fn execution_args_parse_from_given_start() {
    let args = argv(&["-warnings", "--", "a", "-printTranslations", "b"]);
    let parsed = parse_execution_args(&args, 0).unwrap();
    assert!(parsed.warnings);
    assert!(!parsed.print_translations);
    assert_eq!(parsed.lang_args, Some(argv(&["a", "-printTranslations", "b"])));

    match parse_execution_args(&argv(&["-nope"]), 0) {
        Err(token) => assert_eq!(token, "-nope"),
        Ok(_) => panic!("expected the unrecognized token to be rejected"),
    }
}

#[test]
fn file_unavailable_message_carries_the_detail() {
    assert_eq!(
        file_unavailable_message("No such file or directory (os error 2)"),
        "FILE can not be read No such file or directory (os error 2)",
    );
}
