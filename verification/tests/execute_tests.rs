use lang_cli::engine::derive_script_identity;
use lang_cli::engine::execute_source;
use lang_cli::engine::inline_code_identity;
use lang_cli::engine::ExitStatus;
use lang_cli::options::ExecutionOptions;

#[test]
fn inline_identity_has_empty_file_name() {
    let identity = inline_code_identity(".".to_string());
    assert_eq!(identity.directory, ".");
    assert_eq!(identity.file_name, "");
}

#[test]
fn script_identity_keeps_the_file_name() {
    let identity = derive_script_identity("some/dir/script.lang").expect("an identity");
    assert_eq!(identity.file_name, "script.lang");
    assert!(!identity.directory.is_empty());
}

#[test]
fn executing_inline_code_succeeds() {
    let identity = inline_code_identity(".".to_string());
    let status = execute_source(&identity, "$x = 1\n", ExecutionOptions::new());
    assert!(matches!(status, ExitStatus::Success));
}

#[test]
fn execution_reports_success_even_for_broken_code() {
    let identity = inline_code_identity(".".to_string());
    let mut options = ExecutionOptions::new();
    options.print_returned_value = true;
    options.lang_args = Some(vec!["a".to_string(), "b".to_string()]);
    let status = execute_source(&identity, "this is no lang code (", options);
    assert!(matches!(status, ExitStatus::Success));
}
