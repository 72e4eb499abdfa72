//! The two diagnostic modes: the lexer-token dump and the parser-AST dump.
//! The engine's lexer and parser do the analysis; this module fixes what the
//! dumps are made of: one canonical token line per token, joined by newlines,
//! and the AST's canonical printed form.
use vstd::prelude::*;
use vstd::string::StringExecFns;

verus! {

/// The canonical one-line string forms of the tokens a freshly constructed
/// engine lexer produces for `code`, in production order.
pub uninterp spec fn token_lines_of(code: Seq<char>) -> Seq<Seq<char>>;

/// The canonical printed form of the AST a freshly constructed engine parser
/// produces for `code`, or `None` where parsing produces nothing.
pub uninterp spec fn ast_text_of(code: Seq<char>) -> Option<Seq<char>>;

/// Relies on `lang_interpreter::lexer::Lexer::read_tokens` on a freshly
/// constructed `Lexer`, and on `Token`'s `Display` form: both are functions of
/// the source text alone; one string per token, in production order.
#[verifier::external_body]
fn lex_token_lines(code: &str) -> (r: Vec<String>)
    ensures
        r.deep_view() == token_lines_of(code@),
{
    lang_interpreter::lexer::Lexer::new().read_tokens(code).iter().map(
        |t| t.to_string(),
    ).collect()
}

/// Relies on `lang_interpreter::parser::Parser::parse_lines` on a freshly
/// constructed `Parser`, and on `AST`'s `Display` form: both are functions of
/// the source text alone.
#[verifier::external_body]
fn parse_ast_text(code: &str) -> (r: Option<String>)
    ensures
        r.deep_view() == ast_text_of(code@),
{
    lang_interpreter::parser::Parser::new().parse_lines(code).map(|ast| ast.to_string())
}

/// The lines joined in order, a newline between each two.
pub open spec fn joined_with_newlines(lines: Seq<Seq<char>>) -> Seq<char>
    decreases lines.len(),
{
    if lines.len() == 0 {
        Seq::empty()
    } else if lines.len() == 1 {
        lines[0]
    } else {
        lines[0] + "\n"@ + joined_with_newlines(lines.drop_first())
    }
}

/// Appending one more line to a join appends a newline and the line.
proof fn lemma_join_push(lines: Seq<Seq<char>>, x: Seq<char>)
    ensures
        joined_with_newlines(lines.push(x)) == if lines.len() == 0 {
            x
        } else {
            joined_with_newlines(lines) + "\n"@ + x
        },
    decreases lines.len(),
{
    if lines.len() == 0 {
        assert(lines.push(x).len() == 1);
        assert(lines.push(x)[0] == x);
    } else {
        assert(lines.push(x)[0] == lines[0]);
        assert(lines.push(x).drop_first() =~= lines.drop_first().push(x));
        lemma_join_push(lines.drop_first(), x);
    }
}

/// The lines joined in order, a newline between each two.
fn join_lines(lines: &Vec<String>) -> (r: String)
    ensures
        r@ == joined_with_newlines(lines.deep_view()),
{
    let ghost dv = lines.deep_view();
    let mut s = String::new();
    let mut i: usize = 0;
    while i < lines.len()
        invariant
            0 <= i <= lines.len(),
            dv == lines.deep_view(),
            dv.len() == lines.len(),
            s@ == joined_with_newlines(dv.take(i as int)),
        decreases lines.len() - i,
    {
        proof {
            lemma_join_push(dv.take(i as int), dv[i as int]);
            assert(dv.take(i as int).push(dv[i as int]) =~= dv.take(i as int + 1));
        }
        if i > 0 {
            s.append("\n");
        }
        s.append(lines[i].as_str());
        proof {
            if i == 0 {
                assert(s@ =~= dv[0]);
            }
        }
        i += 1;
    }
    proof {
        assert(dv.take(lines.len() as int) =~= dv);
    }
    s
}

/// The token dump for `code`: the canonical line of every token the engine's
/// lexer produces for exactly this text, in production order, joined by
/// newlines.
pub fn token_dump(code: &str) -> (r: String)
    ensures
        r@ == joined_with_newlines(token_lines_of(code@)),
{
    let lines = lex_token_lines(code);
    join_lines(&lines)
}

/// The AST dump for `code`: the canonical printed form of the AST the engine's
/// parser produces for exactly this text, or `None` where parsing produces
/// nothing (the caller must fail then).
pub fn ast_dump(code: &str) -> (r: Option<String>)
    ensures
        r.deep_view() == ast_text_of(code@),
{
    parse_ast_text(code)
}

} // verus!
