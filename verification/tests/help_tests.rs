use lang_cli::help::help_page;

#[test]
fn help_header_names_the_versions() {
    let page = help_page(None);
    let first = page.lines().next().unwrap();
    assert!(first.starts_with("langRS version"));
    assert_eq!(first, "langRS version v1.0.0 (lang-cli 0.1.0)");
}

#[test]
fn help_rule_matches_the_header_length() {
    let page = help_page(None);
    let mut lines = page.lines();
    let first = lines.next().unwrap();
    let second = lines.next().unwrap();
    assert_eq!(second.chars().count(), first.chars().count());
    assert!(second.chars().all(|c| c == '='));
}

#[test]
fn help_uses_the_fallback_binary_name() {
    let page = help_page(None);
    assert!(page.contains("Usage: lang COMMAND [ARGs]... | lang -e CODE"));
}

#[test]
fn help_uses_the_observed_binary_name() {
    let page = help_page(Some("mybin"));
    assert!(page.contains("Usage: mybin COMMAND [ARGs]... | mybin -e CODE"));
    assert!(page.contains("| mybin FILE [EXECUTION_ARGs]... [LANG_ARGs]..."));
}

#[test]
fn help_lists_the_commands_and_flags() {
    let page = help_page(None);
    assert!(page.contains("COMMANDs"));
    assert!(page.contains("-printAST FILE"));
    assert!(page.contains("-printTokens FILE"));
    assert!(page.contains("-h, --help"));
    assert!(page.contains("IN-LINE CODE"));
    assert!(page.contains("-e CODE"));
    assert!(page.contains("EXECUTION_ARGs"));
    assert!(page.contains("-printTranslations"));
    assert!(page.contains("-printReturnedValue"));
    assert!(page.contains("-warnings"));
    assert!(page.contains("-langArgs"));
    assert!(page.contains("Alias for \"-langArgs\""));
}

#[test]
fn help_page_has_all_lines() {
    let page = help_page(None);
    assert_eq!(page.lines().count(), 24);
    assert!(page.ends_with('\n'));
}
