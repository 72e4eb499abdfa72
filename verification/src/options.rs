//! Execution-time options for the two execute modes, and the parser for the
//! flag tail that follows the mode-identifying positionals.
//!
//! Recognized tokens are the three boolean flags `-printTranslations`,
//! `-printReturnedValue` and `-warnings`, and the two equivalent delimiters
//! `-langArgs` and `--`. A delimiter ends flag parsing: everything after it is
//! delivered verbatim as program arguments for the interpreted code. Any other
//! token is rejected.
use vstd::prelude::*;
use crate::text::str_eq_str;

verus! {

/// Spec-level image of [`ExecutionOptions`].
pub struct ExecutionOptionsView {
    pub print_translations: bool,
    pub print_returned_value: bool,
    pub warnings: bool,
    pub lang_args: Option<Seq<Seq<char>>>,
}

/// Options that govern how a script execution is carried out: the three
/// boolean execution flags and the optional program arguments handed to the
/// interpreted code.
pub struct ExecutionOptions {
    pub print_translations: bool,
    pub print_returned_value: bool,
    pub warnings: bool,
    pub lang_args: Option<Vec<String>>,
}

impl View for ExecutionOptions {
    type V = ExecutionOptionsView;

    open spec fn view(&self) -> ExecutionOptionsView {
        ExecutionOptionsView {
            print_translations: self.print_translations,
            print_returned_value: self.print_returned_value,
            warnings: self.warnings,
            lang_args: match self.lang_args {
                Some(v) => Some(v.deep_view()),
                None => None,
            },
        }
    }
}

/// The defaults: every flag off, no program arguments.
pub open spec fn default_options() -> ExecutionOptionsView {
    ExecutionOptionsView {
        print_translations: false,
        print_returned_value: false,
        warnings: false,
        lang_args: None,
    }
}

impl ExecutionOptions {
    /// The defaults: every flag off, no program arguments.
    pub fn new() -> (r: ExecutionOptions)
        ensures
            r@ == default_options(),
    {
        ExecutionOptions {
            print_translations: false,
            print_returned_value: false,
            warnings: false,
            lang_args: None,
        }
    }
}

/// The token is one of the three recognized boolean execution flags.
pub open spec fn is_boolean_flag(t: Seq<char>) -> bool {
    t == "-printTranslations"@ || t == "-printReturnedValue"@ || t == "-warnings"@
}

/// The token ends flag parsing and starts the program arguments.
pub open spec fn is_lang_args_delimiter(t: Seq<char>) -> bool {
    t == "-langArgs"@ || t == "--"@
}

/// No token is both a boolean flag and a delimiter.
pub proof fn lemma_flag_tokens_distinct()
    ensures
        forall|t: Seq<char>| is_boolean_flag(t) ==> !is_lang_args_delimiter(t),
{
    reveal_strlit("-printTranslations");
    reveal_strlit("-printReturnedValue");
    reveal_strlit("-warnings");
    reveal_strlit("-langArgs");
    reveal_strlit("--");
    assert("-printTranslations"@.len() == 18 && "-printReturnedValue"@.len() == 19
        && "-warnings"@.len() == 9 && "-langArgs"@.len() == 9 && "--"@.len() == 2);
    assert("-warnings"@[1] == 'w' && "-langArgs"@[1] == 'l');
}

/// The accumulator with the boolean flag `t` switched on.
pub open spec fn set_boolean_flag(acc: ExecutionOptionsView, t: Seq<char>) -> ExecutionOptionsView {
    if t == "-printTranslations"@ {
        ExecutionOptionsView { print_translations: true, ..acc }
    } else if t == "-printReturnedValue"@ {
        ExecutionOptionsView { print_returned_value: true, ..acc }
    } else {
        ExecutionOptionsView { warnings: true, ..acc }
    }
}

/// One step per token: boolean flags accumulate, the first delimiter fixes the
/// program arguments to the verbatim remainder, anything else is the error.
pub open spec fn parse_flags_from(
    tail: Seq<Seq<char>>,
    acc: ExecutionOptionsView,
) -> Result<ExecutionOptionsView, Seq<char>>
    decreases tail.len(),
{
    if tail.len() == 0 {
        Ok(acc)
    } else {
        let t = tail[0];
        if is_boolean_flag(t) {
            parse_flags_from(tail.drop_first(), set_boolean_flag(acc, t))
        } else if is_lang_args_delimiter(t) {
            Ok(ExecutionOptionsView {
                print_translations: acc.print_translations,
                print_returned_value: acc.print_returned_value,
                warnings: acc.warnings,
                lang_args: Some(tail.drop_first()),
            })
        } else {
            Err(t)
        }
    }
}

/// What the flag tail of an execute invocation means, starting from the
/// defaults: the accepted options, or the first unrecognized token.
pub open spec fn parse_exec_flags(tail: Seq<Seq<char>>) -> Result<
    ExecutionOptionsView,
    Seq<char>,
> {
    parse_flags_from(tail, default_options())
}

/// Helper: the accumulator's boolean fields influence neither whether parsing
/// succeeds, nor the delivered program arguments, nor the rejected token.
proof fn lemma_acc_bools_irrelevant(
    tail: Seq<Seq<char>>,
    a: ExecutionOptionsView,
    b: ExecutionOptionsView,
)
    requires
        a.lang_args == b.lang_args,
    ensures
        ({
            let ra = parse_flags_from(tail, a);
            let rb = parse_flags_from(tail, b);
            &&& (ra is Ok <==> rb is Ok)
            &&& (ra is Ok ==> ra->Ok_0.lang_args == rb->Ok_0.lang_args)
            &&& (ra is Err ==> ra == rb)
        }),
    decreases tail.len(),
{
    if tail.len() > 0 && is_boolean_flag(tail[0]) {
        lemma_acc_bools_irrelevant(
            tail.drop_first(),
            set_boolean_flag(a, tail[0]),
            set_boolean_flag(b, tail[0]),
        );
    }
}

/// Helper for the removal law, generalized over the accumulator.
proof fn lemma_flag_removal_rec(tail: Seq<Seq<char>>, i: int, acc: ExecutionOptionsView)
    requires
        0 <= i < tail.len(),
        is_boolean_flag(tail[i]),
        forall|j: int| 0 <= j < i ==> is_boolean_flag(#[trigger] tail[j]),
    ensures
        ({
            let full = parse_flags_from(tail, acc);
            let removed = parse_flags_from(tail.remove(i), acc);
            &&& (full is Ok <==> removed is Ok)
            &&& (full is Ok ==> full->Ok_0.lang_args == removed->Ok_0.lang_args)
            &&& (full is Err ==> full == removed)
        }),
    decreases i,
{
    if i == 0 {
        assert(tail.remove(0) =~= tail.drop_first());
        lemma_acc_bools_irrelevant(tail.drop_first(), set_boolean_flag(acc, tail[0]), acc);
    } else {
        assert(tail.remove(i).drop_first() =~= tail.drop_first().remove(i - 1));
        lemma_flag_removal_rec(tail.drop_first(), i - 1, set_boolean_flag(acc, tail[0]));
    }
}

/// Law: dropping any one recognized boolean execution flag from the flag
/// region (every token before it also a recognized boolean flag) changes
/// neither whether the tail is accepted nor the delivered program arguments.
/// Dropping several is dropping one at a time. A repeated flag is idempotent
/// by the same token: dropping one of its occurrences delivers the same
/// program arguments.
pub proof fn lemma_boolean_flag_removal_preserves_lang_args(tail: Seq<Seq<char>>, i: int)
    requires
        0 <= i < tail.len(),
        is_boolean_flag(tail[i]),
        forall|j: int| 0 <= j < i ==> is_boolean_flag(#[trigger] tail[j]),
    ensures
        parse_exec_flags(tail) is Ok <==> parse_exec_flags(tail.remove(i)) is Ok,
        parse_exec_flags(tail) is Ok ==> parse_exec_flags(tail)->Ok_0.lang_args
            == parse_exec_flags(tail.remove(i))->Ok_0.lang_args,
        parse_exec_flags(tail) is Err ==> parse_exec_flags(tail) == parse_exec_flags(
            tail.remove(i),
        ),
{
    lemma_flag_removal_rec(tail, i, default_options());
}

/// Helper for the delimiter law, generalized over the accumulator.
proof fn lemma_delimiter_rec(tail: Seq<Seq<char>>, d: int, acc: ExecutionOptionsView)
    requires
        0 <= d < tail.len(),
        is_lang_args_delimiter(tail[d]),
        forall|j: int| 0 <= j < d ==> is_boolean_flag(#[trigger] tail[j]),
    ensures
        parse_flags_from(tail, acc) is Ok,
        parse_flags_from(tail, acc)->Ok_0.lang_args == Some(tail.skip(d + 1)),
    decreases d,
{
    lemma_flag_tokens_distinct();
    if d == 0 {
        assert(tail.drop_first() =~= tail.skip(1));
    } else {
        lemma_delimiter_rec(tail.drop_first(), d - 1, set_boolean_flag(acc, tail[0]));
        assert(tail.drop_first().skip(d) =~= tail.skip(d + 1));
    }
}

/// Law: when a delimiter (`-langArgs` or `--`) ends the flag region, parsing
/// succeeds and the delivered program arguments are exactly the entries after
/// the delimiter, in order and verbatim; none of them is inspected as a flag.
pub proof fn lemma_delimiter_fixes_lang_args(tail: Seq<Seq<char>>, d: int)
    requires
        0 <= d < tail.len(),
        is_lang_args_delimiter(tail[d]),
        forall|j: int| 0 <= j < d ==> is_boolean_flag(#[trigger] tail[j]),
    ensures
        parse_exec_flags(tail) is Ok,
        parse_exec_flags(tail)->Ok_0.lang_args == Some(tail.skip(d + 1)),
{
    lemma_delimiter_rec(tail, d, default_options());
}

/// Clones of the entries of `v` from index `from` on, in order.
pub fn clone_suffix(v: &Vec<String>, from: usize) -> (r: Vec<String>)
    requires
        from <= v.len(),
    ensures
        r.deep_view() == v.deep_view().subrange(from as int, v.len() as int),
{
    let mut r: Vec<String> = Vec::new();
    let mut i: usize = from;
    while i < v.len()
        invariant
            from <= i <= v.len(),
            r.deep_view() =~= v.deep_view().subrange(from as int, i as int),
        decreases v.len() - i,
    {
        let ghost prev = r.deep_view();
        let elem = v[i].clone();
        proof {
            assert(elem.deep_view() == v.deep_view()[i as int]);
        }
        r.push(elem);
        proof {
            assert(r.deep_view() =~= prev.push(v.deep_view()[i as int]));
            assert(r.deep_view() =~= v.deep_view().subrange(from as int, i as int + 1));
        }
        i += 1;
    }
    proof {
        assert(r.deep_view() =~= v.deep_view().subrange(from as int, v.len() as int));
    }
    r
}

/// Parses the flag tail `args[start..]`. On success the returned options are
/// exactly what the tail means; on failure the returned token is the first
/// unrecognized one, verbatim.
pub fn parse_execution_args(args: &Vec<String>, start: usize) -> (r: Result<
    ExecutionOptions,
    String,
>)
    requires
        start <= args.len(),
    ensures
        match r {
            Ok(o) => parse_exec_flags(args.deep_view().skip(start as int)) == Ok::<
                ExecutionOptionsView,
                Seq<char>,
            >(o@),
            Err(t) => parse_exec_flags(args.deep_view().skip(start as int)) == Err::<
                ExecutionOptionsView,
                Seq<char>,
            >(t@),
        },
{
    let mut opts = ExecutionOptions::new();
    let mut i: usize = start;
    while i < args.len()
        invariant
            start <= i <= args.len(),
            parse_exec_flags(args.deep_view().skip(start as int)) == parse_flags_from(
                args.deep_view().skip(i as int),
                opts@,
            ),
        decreases args.len() - i,
    {
        proof {
            assert(args.deep_view().skip(i as int)[0] == args.deep_view()[i as int]);
            assert(args.deep_view().skip(i as int).drop_first() =~= args.deep_view().skip(
                i as int + 1,
            ));
        }
        let arg = &args[i];
        if str_eq_str(arg.as_str(), "-printTranslations") {
            opts.print_translations = true;
        } else if str_eq_str(arg.as_str(), "-printReturnedValue") {
            opts.print_returned_value = true;
        } else if str_eq_str(arg.as_str(), "-warnings") {
            opts.warnings = true;
        } else if str_eq_str(arg.as_str(), "-langArgs") || str_eq_str(arg.as_str(), "--") {
            let rest = clone_suffix(args, i + 1);
            proof {
                assert(rest.deep_view() =~= args.deep_view().skip(i as int).drop_first());
            }
            opts.lang_args = Some(rest);
            return Ok(opts);
        } else {
            return Err(arg.clone());
        }
        i += 1;
    }
    proof {
        assert(args.deep_view().skip(i as int) =~= Seq::<Seq<char>>::empty());
    }
    Ok(opts)
}

} // verus!
