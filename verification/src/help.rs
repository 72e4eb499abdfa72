//! The usage page: a title line combining the engine version and this
//! driver's own version, a rule of equal signs as long as the title, a purpose
//! line, the usage synopsis for the three invocation shapes, and the tables of
//! commands and execution flags. The binary name interpolated into the
//! synopsis is the observed invocation name, or a fixed fallback when none was
//! supplied.
use vstd::prelude::*;
use vstd::string::StrSliceExecFns;
use vstd::string::StringExecFns;
use crate::engine::engine_version;

verus! {

/// This driver's own version, as interpolated into the help title.
pub fn cli_version() -> (r: &'static str)
    ensures
        r@ == "0.1.0"@,
{
    "0.1.0"
}

/// The help title line.
pub open spec fn help_header_text(engine_version: Seq<char>, cli_version: Seq<char>) -> Seq<
    char,
> {
    "langRS version "@ + engine_version + " (lang-cli "@ + cli_version + ")"@
}

/// A rule of `n` equal signs.
pub open spec fn equals_rule(n: nat) -> Seq<char> {
    Seq::new(n, |i: int| '=')
}

/// The usage synopsis, with the binary name interpolated three times.
pub open spec fn usage_text(binary: Seq<char>) -> Seq<char> {
    "Usage: "@ + binary + " COMMAND [ARGs]... | "@ + binary
        + " -e CODE [EXECUTION_ARGs]... [LANG_ARGs]... | "@ + binary
        + " FILE [EXECUTION_ARGs]... [LANG_ARGs]..."@
}

/// The whole help page, each line ended by a newline.
pub open spec fn help_page_text(
    binary: Seq<char>,
    engine_version: Seq<char>,
    cli_version: Seq<char>,
) -> Seq<char> {
    let header = help_header_text(engine_version, cli_version);
    header + "\n"@ + equals_rule(header.len()) + "\nInterprets Lang code & files\n\n"@
        + usage_text(binary) + "\n\nCOMMANDs\n--------\n"@
        + "    -printAST FILE                   Prints the AST of a Lang file to standard output\n"@
        + "    -printTokens FILE                Prints the tokens of a Lang file to standard output\n\n"@
        + "    -h, --help                        Prints this help page\n\n"@
        + "IN-LINE CODE\n------------\n"@
        + "    -e CODE                           Executes CODE in the OS shell\n\n"@
        + "EXECUTION_ARGs\n--------------\n"@
        + "    -printTranslations                Prints all Translations after the execution of the Lang file finished to standard output\n"@
        + "    -printReturnedValue               Prints the returned or thrown value of the Lang file if any\n"@
        + "    -warnings                         Enables the output of warnings which occur\n"@
        + "    -langArgs                         Indicates the start of the Lang args arguments (Everything after this argument will be interpreted as Lang args)\n"@
        + "    --                                Alias for \"-langArgs\"\n"@
}

/// The fallback binary name, and the name a given invocation resolves to.
pub open spec fn resolved_binary_name(binary_name: Option<Seq<char>>) -> Seq<char> {
    match binary_name {
        Some(b) => b,
        None => "lang"@,
    }
}

/// The help title line for the given version strings.
fn help_header(engine_ver: &str, cli_ver: &str) -> (r: String)
    ensures
        r@ == help_header_text(engine_ver@, cli_ver@),
{
    let mut s = String::from_str("langRS version ");
    s.append(engine_ver);
    s.append(" (lang-cli ");
    s.append(cli_ver);
    s.append(")");
    s
}

/// A string of `n` equal signs.
fn equals_rule_string(n: usize) -> (r: String)
    ensures
        r@ == equals_rule(n as nat),
{
    let mut s = String::new();
    let mut i: usize = 0;
    proof {
        assert(s@ =~= equals_rule(0));
    }
    while i < n
        invariant
            0 <= i <= n,
            s@ == equals_rule(i as nat),
        decreases n - i,
    {
        s.append("=");
        proof {
            reveal_strlit("=");
            assert(s@ =~= equals_rule((i + 1) as nat));
        }
        i += 1;
    }
    s
}

/// The usage synopsis for the given binary name.
fn usage_line(binary: &str) -> (r: String)
    ensures
        r@ == usage_text(binary@),
{
    let mut s = String::from_str("Usage: ");
    s.append(binary);
    s.append(" COMMAND [ARGs]... | ");
    s.append(binary);
    s.append(" -e CODE [EXECUTION_ARGs]... [LANG_ARGs]... | ");
    s.append(binary);
    s.append(" FILE [EXECUTION_ARGs]... [LANG_ARGs]...");
    s
}

/// Renders the whole help page for the given invocation name (or the
/// fallback), with the engine's version in the title.
pub fn help_page(binary_name: Option<&str>) -> (r: String)
    ensures
        r@ == help_page_text(
            resolved_binary_name(
                match binary_name {
                    Some(b) => Some(b@),
                    None => None,
                },
            ),
            "v1.0.0"@,
            "0.1.0"@,
        ),
{
    let binary = match binary_name {
        Some(b) => b,
        None => "lang",
    };
    let header = help_header(engine_version(), cli_version());
    let rule = equals_rule_string(header.as_str().unicode_len());
    let usage = usage_line(binary);
    let mut s = header;
    s.append("\n");
    s.append(rule.as_str());
    s.append("\nInterprets Lang code & files\n\n");
    s.append(usage.as_str());
    s.append("\n\nCOMMANDs\n--------\n");
    s.append("    -printAST FILE                   Prints the AST of a Lang file to standard output\n");
    s.append("    -printTokens FILE                Prints the tokens of a Lang file to standard output\n\n");
    s.append("    -h, --help                        Prints this help page\n\n");
    s.append("IN-LINE CODE\n------------\n");
    s.append("    -e CODE                           Executes CODE in the OS shell\n\n");
    s.append("EXECUTION_ARGs\n--------------\n");
    s.append("    -printTranslations                Prints all Translations after the execution of the Lang file finished to standard output\n");
    s.append("    -printReturnedValue               Prints the returned or thrown value of the Lang file if any\n");
    s.append("    -warnings                         Enables the output of warnings which occur\n");
    s.append("    -langArgs                         Indicates the start of the Lang args arguments (Everything after this argument will be interpreted as Lang args)\n");
    s.append("    --                                Alias for \"-langArgs\"\n");
    s
}

} // verus!
