use lang_cli::diagnostics::ast_dump;
use lang_cli::diagnostics::token_dump;
use lang_interpreter::lexer::Lexer;
use lang_interpreter::parser::Parser;

const SAMPLE: &str = "$x = 40\n$y = 2\nfunc.println($x + $y)\n";

#[test]
fn token_dump_round_trips_through_a_fresh_lexer() {
    let direct = Lexer::new()
        .read_tokens(SAMPLE)
        .iter()
        .map(ToString::to_string)
        .collect::<Vec<_>>()
        .join("\n");
    assert_eq!(token_dump(SAMPLE), direct);
}

#[test]
fn token_dump_is_not_the_source_text() {
    assert_ne!(token_dump("$x"), "$x");
    assert!(!token_dump("$x").is_empty());
}

#[test]
fn token_dump_is_deterministic() {
    assert_eq!(token_dump(SAMPLE), token_dump(SAMPLE));
}

#[test]
fn ast_dump_round_trips_through_a_fresh_parser() {
    let direct = Parser::new().parse_lines(SAMPLE).unwrap().to_string();
    assert_eq!(ast_dump(SAMPLE), Some(direct));
}

#[test]
fn ast_dump_of_empty_source_matches_a_fresh_parser() {
    let direct = Parser::new().parse_lines("").map(|ast| ast.to_string());
    assert_eq!(ast_dump(""), direct);
}
