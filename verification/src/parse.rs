//! Parsing an invocation into flags, variable assignments and a command tail.
//!
//! A token of the shape `KEY=VALUE` is split at the first `=`: the key is
//! everything before it, the value everything after it (further `=` characters
//! are kept verbatim). The whole invocation is parsed in two phases: flags and
//! `KEY=VALUE` tokens are consumed greedily until a `--` separator, after
//! which every token belongs verbatim to the command and its arguments.

use vstd::prelude::*;
use vstd::string::*;

verus! {

/// True when `s` holds at least one `=` character.
pub open spec fn has_equals(s: Seq<char>) -> bool {
    exists|i: int| 0 <= i < s.len() && s[i] == '='
}

/// Index of the first `=` in `s`; meaningful only when `has_equals(s)`.
pub open spec fn first_equals(s: Seq<char>) -> int
    decreases s.len(),
{
    if s.len() == 0 {
        0
    } else if s[0] == '=' {
        0
    } else {
        1 + first_equals(s.subrange(1, s.len() as int))
    }
}

/// The key of a `KEY=VALUE` token: everything before the first `=`.
pub open spec fn variable_key(s: Seq<char>) -> Seq<char> {
    s.subrange(0, first_equals(s))
}

/// The value of a `KEY=VALUE` token: everything after the first `=`, verbatim.
pub open spec fn variable_value(s: Seq<char>) -> Seq<char> {
    s.subrange(first_equals(s) + 1, s.len() as int)
}

/// The message reported for a token that holds no `=`: it names the token.
pub open spec fn invalid_variable_message(s: Seq<char>) -> Seq<char> {
    "\""@ + s + "\" is not a equals-sign-separated key-value pair"@
}

/// An index holding `=` with none before it is the first `=`.
pub proof fn lemma_first_equals_at(s: Seq<char>, i: int)
    requires
        0 <= i < s.len(),
        s[i] == '=',
        forall|j: int| 0 <= j < i ==> s[j] != '=',
    ensures
        first_equals(s) == i,
    decreases i,
{
    if i > 0 {
        let t = s.subrange(1, s.len() as int);
        assert(t[i - 1] == '=');
        assert(forall|j: int| 0 <= j < i - 1 ==> t[j] != '=');
        lemma_first_equals_at(t, i - 1);
    }
}

/// When `s` holds an `=`, `first_equals(s)` is a valid index of an `=`
/// and nothing before it is an `=`.
pub proof fn lemma_first_equals_props(s: Seq<char>)
    requires
        has_equals(s),
    ensures
        0 <= first_equals(s) < s.len(),
        s[first_equals(s)] == '=',
        forall|j: int| 0 <= j < first_equals(s) ==> s[j] != '=',
    decreases s.len(),
{
    if s.len() > 0 && s[0] != '=' {
        let t = s.subrange(1, s.len() as int);
        let w = choose|i: int| 0 <= i < s.len() && s[i] == '=';
        assert(t[w - 1] == '=');
        lemma_first_equals_props(t);
        assert forall|j: int| 0 <= j < first_equals(s) implies s[j] != '=' by {
            if j > 0 {
                assert(t[j - 1] != '=');
            }
        }
    }
}

/// The `--` separator: everything after it is the command and its arguments.
pub open spec fn is_separator(t: Seq<char>) -> bool {
    t == "--"@
}

/// The flag meaning "do not inherit the parent's environment".
pub open spec fn is_ignore_flag(t: Seq<char>) -> bool {
    t == "-i"@ || t == "--ignore-environment"@
}

/// The flag requesting the usage text.
pub open spec fn is_help_flag(t: Seq<char>) -> bool {
    t == "-h"@ || t == "--help"@
}

/// A token that looks like an option flag (it is at least `-x`): such a
/// token is never read as a `KEY=VALUE` assignment.
pub open spec fn looks_like_option(t: Seq<char>) -> bool {
    t.len() >= 2 && t[0] == '-'
}

/// The mathematical model of a parsed invocation.
#[verifier::ext_equal]
pub struct ArgsModel {
    /// Start the child from an empty environment instead of the parent's.
    pub ignore_environment: bool,
    /// The `KEY=VALUE` assignments, split, in order of appearance.
    pub variables: Seq<(Seq<char>, Seq<char>)>,
    /// The command and its arguments, verbatim.
    pub command_and_args: Seq<Seq<char>>,
}

/// The mathematical model of a parse failure.
pub enum ParseFailureModel {
    /// A positional token held no `=`; the message names it.
    InvalidVariable { message: Seq<char> },
    /// A token shaped like an option that is none of the known flags.
    UnrecognizedOption { option: Seq<char> },
    /// The usage text was requested with `-h` or `--help`.
    HelpRequested,
}

/// Parses `tokens` with the flag and variables gathered so far. Flags and
/// `KEY=VALUE` tokens are consumed greedily; at `--` the remaining tokens
/// become the command tail verbatim; a malformed or unknown token fails.
pub open spec fn spec_parse_from(
    tokens: Seq<Seq<char>>,
    ignore_environment: bool,
    variables: Seq<(Seq<char>, Seq<char>)>,
) -> Result<ArgsModel, ParseFailureModel>
    decreases tokens.len(),
{
    if tokens.len() == 0 {
        Ok(ArgsModel {
            ignore_environment,
            variables,
            command_and_args: Seq::empty(),
        })
    } else {
        let t = tokens[0];
        let rest = tokens.drop_first();
        if is_separator(t) {
            Ok(ArgsModel { ignore_environment, variables, command_and_args: rest })
        } else if is_ignore_flag(t) {
            spec_parse_from(rest, true, variables)
        } else if is_help_flag(t) {
            Err(ParseFailureModel::HelpRequested)
        } else if looks_like_option(t) {
            Err(ParseFailureModel::UnrecognizedOption { option: t })
        } else if has_equals(t) {
            spec_parse_from(rest, ignore_environment, variables.push((variable_key(t), variable_value(t))))
        } else {
            Err(ParseFailureModel::InvalidVariable { message: invalid_variable_message(t) })
        }
    }
}

/// Parsing a whole invocation: no flag set, no variables gathered yet.
pub open spec fn spec_parse(tokens: Seq<Seq<char>>) -> Result<ArgsModel, ParseFailureModel> {
    spec_parse_from(tokens, false, Seq::empty())
}

/// The view of a sequence of key-value string pairs.
pub open spec fn pairs_view(pairs: Seq<(String, String)>) -> Seq<(Seq<char>, Seq<char>)> {
    pairs.map_values(|p: (String, String)| (p.0@, p.1@))
}

/// The view of a sequence of strings.
pub open spec fn strings_view(strings: Seq<String>) -> Seq<Seq<char>> {
    strings.map_values(|s: String| s@)
}

/// A parsed invocation.
pub struct ParsedArguments {
    /// Start the child from an empty environment instead of the parent's.
    pub ignore_environment: bool,
    /// The `KEY=VALUE` assignments, split, in order of appearance.
    pub variables: Vec<(String, String)>,
    /// The command and its arguments, verbatim.
    pub command_and_args: Vec<String>,
}

impl View for ParsedArguments {
    type V = ArgsModel;

    open spec fn view(&self) -> ArgsModel {
        ArgsModel {
            ignore_environment: self.ignore_environment,
            variables: pairs_view(self.variables@),
            command_and_args: strings_view(self.command_and_args@),
        }
    }
}

/// Why an invocation failed to parse.
pub enum ParseError {
    /// A positional token held no `=`; the message names it.
    InvalidVariable { message: String },
    /// A token shaped like an option that is none of the known flags.
    UnrecognizedOption { option: String },
    /// The usage text was requested with `-h` or `--help`.
    HelpRequested,
}

impl View for ParseError {
    type V = ParseFailureModel;

    open spec fn view(&self) -> ParseFailureModel {
        match self {
            ParseError::InvalidVariable { message } => ParseFailureModel::InvalidVariable {
                message: message@,
            },
            ParseError::UnrecognizedOption { option } => ParseFailureModel::UnrecognizedOption {
                option: option@,
            },
            ParseError::HelpRequested => ParseFailureModel::HelpRequested,
        }
    }
}

/// The view of a parse result.
pub open spec fn parse_result_view(r: Result<ParsedArguments, ParseError>) -> Result<
    ArgsModel,
    ParseFailureModel,
> {
    match r {
        Ok(p) => Ok(p@),
        Err(e) => Err(e@),
    }
}

/// Character-by-character string equality, proved against the string views.
fn str_eq(a: &str, b: &str) -> (r: bool)
    ensures
        r == (a@ == b@),
{
    let a_len = a.unicode_len();
    let b_len = b.unicode_len();
    if a_len != b_len {
        return false;
    }
    let mut i: usize = 0;
    while i < a_len
        invariant
            a_len == a@.len(),
            b_len == b@.len(),
            a_len == b_len,
            i <= a_len,
            forall|j: int| 0 <= j < i ==> a@[j] == b@[j],
        decreases a_len - i,
    {
        if a.get_char(i) != b.get_char(i) {
            return false;
        }
        i += 1;
    }
    proof {
        assert(a@ =~= b@);
    }
    true
}

/// Splits a `KEY=VALUE` token at its first `=`. A token with no `=` is
/// rejected with a message naming it.
pub fn parse_variable(s: &str) -> (r: Result<(String, String), String>)
    ensures
        r is Ok <==> has_equals(s@),
        r matches Ok(kv) ==> kv.0@ == variable_key(s@) && kv.1@ == variable_value(s@),
        r matches Err(m) ==> m@ == invalid_variable_message(s@),
{
    let len = s.unicode_len();
    let mut i: usize = 0;
    while i < len
        invariant
            len == s@.len(),
            i <= len,
            forall|j: int| 0 <= j < i ==> s@[j] != '=',
        decreases len - i,
    {
        if s.get_char(i) == '=' {
            proof {
                lemma_first_equals_at(s@, i as int);
            }
            let key = s.substring_char(0, i).to_owned();
            let value = s.substring_char(i + 1, len).to_owned();
            return Ok((key, value));
        }
        i += 1;
    }
    let mut message = String::from_str("\"");
    message.append(s);
    message.append("\" is not a equals-sign-separated key-value pair");
    proof {
        assert(message@ =~= invalid_variable_message(s@));
    }
    Err(message)
}

/// Parses a whole invocation: flags and `KEY=VALUE` tokens greedily, then,
/// after a `--` separator, the command and its arguments verbatim. The
/// result is exactly `spec_parse` of the tokens.
#[verifier::loop_isolation(false)]
pub fn parse_arguments(tokens: &Vec<String>) -> (r: Result<ParsedArguments, ParseError>)
    ensures
        parse_result_view(r) == spec_parse(strings_view(tokens@)),
{
    let ghost all: Seq<Seq<char>> = strings_view(tokens@);
    let mut ignore_environment = false;
    let mut variables: Vec<(String, String)> = Vec::new();
    let n = tokens.len();
    let mut i: usize = 0;
    proof {
        assert(all.skip(0) =~= all);
        assert(pairs_view(variables@) =~= Seq::<(Seq<char>, Seq<char>)>::empty());
    }
    while i < n
        invariant
            i <= n,
            spec_parse(all) == spec_parse_from(
                all.skip(i as int),
                ignore_environment,
                pairs_view(variables@),
            ),
        decreases n - i,
    {
        let ghost rem = all.skip(i as int);
        proof {
            assert(rem[0] == tokens@[i as int]@);
            assert(rem.drop_first() =~= all.skip(i as int + 1));
        }
        let t = &tokens[i];
        if str_eq(t.as_str(), "--") {
            let mut command_and_args: Vec<String> = Vec::new();
            let mut j: usize = i + 1;
            proof {
                assert(strings_view(command_and_args@) =~= all.subrange(
                    i as int + 1,
                    j as int,
                ));
            }
            while j < n
                invariant
                    i + 1 <= j <= n,
                    strings_view(command_and_args@) == all.subrange(i as int + 1, j as int),
                decreases n - j,
            {
                command_and_args.push(tokens[j].clone());
                j += 1;
                proof {
                    assert(strings_view(command_and_args@) =~= all.subrange(
                        i as int + 1,
                        j as int,
                    ));
                }
            }
            proof {
                assert(all.subrange(i as int + 1, n as int) =~= rem.drop_first());
            }
            return Ok(ParsedArguments { ignore_environment, variables, command_and_args });
        } else if str_eq(t.as_str(), "-i") || str_eq(t.as_str(), "--ignore-environment") {
            ignore_environment = true;
        } else if str_eq(t.as_str(), "-h") || str_eq(t.as_str(), "--help") {
            return Err(ParseError::HelpRequested);
        } else {
            let t_len = t.as_str().unicode_len();
            if t_len >= 2 && t.as_str().get_char(0) == '-' {
                return Err(ParseError::UnrecognizedOption { option: t.clone() });
            }
            match parse_variable(t.as_str()) {
                Ok(kv) => {
                    proof {
                        assert(pairs_view(variables@.push(kv)) =~= pairs_view(variables@).push(
                            (variable_key(rem[0]), variable_value(rem[0])),
                        ));
                    }
                    variables.push(kv);
                },
                Err(message) => {
                    return Err(ParseError::InvalidVariable { message });
                },
            }
        }
        i += 1;
    }
    proof {
        assert(all.skip(n as int) =~= Seq::<Seq<char>>::empty());
        assert(strings_view(Seq::<String>::empty()) =~= Seq::<Seq<char>>::empty());
    }
    Ok(ParsedArguments { ignore_environment, variables, command_and_args: Vec::new() })
}

/// The usage text printed for `-h` or `--help`.
pub open spec fn help_text() -> Seq<char> {
    "Run a command with a modified environment\n\nUsage: envr [OPTIONS] [KEY=VALUE]... [-- <COMMAND> [ARGS]...]\n\nOptions:\n  -i, --ignore-environment  Do not inherit environment variables from the parent process\n  -h, --help                Print help\n"@
}

/// The message reported for each parse failure.
pub open spec fn parse_failure_message(e: ParseFailureModel) -> Seq<char> {
    match e {
        ParseFailureModel::InvalidVariable { message } => message,
        ParseFailureModel::UnrecognizedOption { option } => "unrecognized option \""@ + option
            + "\""@,
        ParseFailureModel::HelpRequested => help_text(),
    }
}

/// The exit code of each parse failure: a help request prints the usage
/// text and succeeds; everything else is bad usage.
pub open spec fn parse_failure_exit_code(e: ParseFailureModel) -> int {
    if e is HelpRequested {
        0
    } else {
        2
    }
}

impl ParseError {
    /// The human-readable message for this failure.
    pub fn message(&self) -> (m: String)
        ensures
            m@ == parse_failure_message(self@),
    {
        match self {
            ParseError::InvalidVariable { message } => message.clone(),
            ParseError::UnrecognizedOption { option } => {
                let mut m = String::from_str("unrecognized option \"");
                m.append(option.as_str());
                m.append("\"");
                proof {
                    assert(m@ =~= parse_failure_message(self@));
                }
                m
            },
            ParseError::HelpRequested => String::from_str(
                "Run a command with a modified environment\n\nUsage: envr [OPTIONS] [KEY=VALUE]... [-- <COMMAND> [ARGS]...]\n\nOptions:\n  -i, --ignore-environment  Do not inherit environment variables from the parent process\n  -h, --help                Print help\n",
            ),
        }
    }

    /// The exit code for this failure.
    pub fn exit_code(&self) -> (c: i32)
        ensures
            c as int == parse_failure_exit_code(self@),
    {
        match self {
            ParseError::HelpRequested => 0,
            _ => 2,
        }
    }

    /// True for a help request, whose text belongs on standard output.
    pub fn is_help(&self) -> (b: bool)
        ensures
            b == (self@ is HelpRequested),
    {
        match self {
            ParseError::HelpRequested => true,
            _ => false,
        }
    }
}

/// Parsing is a pure function of the invocation: two parses of the same
/// token sequence yield the same result, with no hidden state involved.
pub proof fn lemma_parse_deterministic(
    tokens: Seq<Seq<char>>,
    r1: Result<ArgsModel, ParseFailureModel>,
    r2: Result<ArgsModel, ParseFailureModel>,
)
    requires
        r1 == spec_parse(tokens),
        r2 == spec_parse(tokens),
    ensures
        r1 == r2,
{
}

} // verus!
