//! Deciding what to launch and how every outcome is reported.
//!
//! A parsed invocation either yields a child process specification or one of
//! the terminal outcomes; every outcome carries a deterministic message and
//! exit code. The parent mirrors a successfully waited-for child's exit
//! status, so callers see the true status of the wrapped command.

use vstd::prelude::*;
use vstd::string::*;
use crate::parse::ArgsModel;
use crate::parse::ParseError;
use crate::parse::ParseFailureModel;
use crate::parse::ParsedArguments;
use crate::parse::parse_arguments;
use crate::parse::parse_failure_exit_code;
use crate::parse::parse_failure_message;
use crate::parse::parse_result_view;
use crate::parse::spec_parse;
use crate::parse::strings_view;

verus! {

/// Exit code when the invocation names no command to run.
pub const MISSING_COMMAND_EXIT_CODE: i32 = 101;

/// Exit code when the child process could not be spawned.
pub const SPAWN_FAILURE_EXIT_CODE: i32 = 102;

/// Exit code when waiting for the spawned child failed.
pub const WAIT_FAILURE_EXIT_CODE: i32 = 103;

/// The mathematical model of a child process specification.
#[verifier::ext_equal]
pub struct ChildSpecModel {
    /// The executable to run.
    pub program: Seq<char>,
    /// Its arguments, in order.
    pub args: Seq<Seq<char>>,
    /// Start from an empty environment instead of the parent's.
    pub clear_environment: bool,
    /// The `KEY=VALUE` pairs applied on top of the base environment.
    pub environment_overlay: Seq<(Seq<char>, Seq<char>)>,
}

/// What to spawn: the executable, its arguments, and how to build its
/// environment.
pub struct ChildProcessSpec {
    /// The executable to run.
    pub program: String,
    /// Its arguments, in order.
    pub args: Vec<String>,
    /// Start from an empty environment instead of the parent's.
    pub clear_environment: bool,
    /// The `KEY=VALUE` pairs applied on top of the base environment.
    pub environment_overlay: Vec<(String, String)>,
}

impl View for ChildProcessSpec {
    type V = ChildSpecModel;

    open spec fn view(&self) -> ChildSpecModel {
        ChildSpecModel {
            program: self.program@,
            args: strings_view(self.args@),
            clear_environment: self.clear_environment,
            environment_overlay: crate::parse::pairs_view(self.environment_overlay@),
        }
    }
}

/// The mathematical model of a terminal outcome.
pub enum OutcomeModel {
    /// The child ran; the parent mirrors its exit status.
    Success { child_code: i32 },
    /// The invocation did not parse.
    UsageError { error: ParseFailureModel },
    /// The invocation named no command to run.
    MissingCommand,
    /// The operating system could not create the child process.
    SpawnFailure { command_line: Seq<char>, os_error: Seq<char> },
    /// The operating system failed while waiting for the child.
    WaitFailure { os_error: Seq<char> },
}

/// A terminal outcome of the program, with its message and exit code.
pub enum Outcome {
    /// The child ran; the parent mirrors its exit status.
    Success { child_code: i32 },
    /// The invocation did not parse.
    UsageError { error: ParseError },
    /// The invocation named no command to run.
    MissingCommand,
    /// The operating system could not create the child process.
    SpawnFailure { command_line: String, os_error: String },
    /// The operating system failed while waiting for the child.
    WaitFailure { os_error: String },
}

impl View for Outcome {
    type V = OutcomeModel;

    open spec fn view(&self) -> OutcomeModel {
        match self {
            Outcome::Success { child_code } => OutcomeModel::Success { child_code: *child_code },
            Outcome::UsageError { error } => OutcomeModel::UsageError { error: error@ },
            Outcome::MissingCommand => OutcomeModel::MissingCommand,
            Outcome::SpawnFailure { command_line, os_error } => OutcomeModel::SpawnFailure {
                command_line: command_line@,
                os_error: os_error@,
            },
            Outcome::WaitFailure { os_error } => OutcomeModel::WaitFailure { os_error: os_error@ },
        }
    }
}

/// The exit code of each outcome: the child's own status on success, the
/// usage code for a parse failure, and one documented code per failure kind.
pub open spec fn spec_exit_code(o: OutcomeModel) -> int {
    match o {
        OutcomeModel::Success { child_code } => child_code as int,
        OutcomeModel::UsageError { error } => parse_failure_exit_code(error),
        OutcomeModel::MissingCommand => MISSING_COMMAND_EXIT_CODE as int,
        OutcomeModel::SpawnFailure { .. } => SPAWN_FAILURE_EXIT_CODE as int,
        OutcomeModel::WaitFailure { .. } => WAIT_FAILURE_EXIT_CODE as int,
    }
}

/// The message of each outcome; success reports nothing.
pub open spec fn spec_message(o: OutcomeModel) -> Option<Seq<char>> {
    match o {
        OutcomeModel::Success { .. } => None,
        OutcomeModel::UsageError { error } => Some(parse_failure_message(error)),
        OutcomeModel::MissingCommand => Some("fatal: command not specified"@),
        OutcomeModel::SpawnFailure { command_line, os_error } => Some(
            "fatal: command \""@ + command_line + "\" failed to spawn: "@ + os_error,
        ),
        OutcomeModel::WaitFailure { os_error } => Some(
            "fatal: unable to wait for command to complete: "@ + os_error,
        ),
    }
}

/// The view of an optional message.
pub open spec fn message_view(m: Option<String>) -> Option<Seq<char>> {
    match m {
        None => None,
        Some(s) => Some(s@),
    }
}

impl Outcome {
    /// The exit code the parent terminates with for this outcome.
    pub fn exit_code(&self) -> (c: i32)
        ensures
            c as int == spec_exit_code(self@),
    {
        match self {
            Outcome::Success { child_code } => *child_code,
            Outcome::UsageError { error } => error.exit_code(),
            Outcome::MissingCommand => MISSING_COMMAND_EXIT_CODE,
            Outcome::SpawnFailure { .. } => SPAWN_FAILURE_EXIT_CODE,
            Outcome::WaitFailure { .. } => WAIT_FAILURE_EXIT_CODE,
        }
    }

    /// The message reported for this outcome; success reports nothing.
    pub fn message(&self) -> (m: Option<String>)
        ensures
            message_view(m) == spec_message(self@),
    {
        match self {
            Outcome::Success { .. } => None,
            Outcome::UsageError { error } => Some(error.message()),
            Outcome::MissingCommand => Some(String::from_str("fatal: command not specified")),
            Outcome::SpawnFailure { command_line, os_error } => {
                let mut m = String::from_str("fatal: command \"");
                m.append(command_line.as_str());
                m.append("\" failed to spawn: ");
                m.append(os_error.as_str());
                proof {
                    assert(m@ =~= spec_message(self@)->Some_0);
                }
                Some(m)
            },
            Outcome::WaitFailure { os_error } => {
                let mut m = String::from_str("fatal: unable to wait for command to complete: ");
                m.append(os_error.as_str());
                Some(m)
            },
        }
    }

    /// True for a help request, whose text belongs on standard output.
    pub fn is_help(&self) -> (b: bool)
        ensures
            b == (self@ matches OutcomeModel::UsageError { error }
                && error is HelpRequested),
    {
        match self {
            Outcome::UsageError { error } => error.is_help(),
            _ => false,
        }
    }
}

/// The child specification derived from a parsed invocation: the first
/// command token is the executable, the rest are its arguments.
pub open spec fn spec_child_spec(m: ArgsModel) -> ChildSpecModel {
    ChildSpecModel {
        program: m.command_and_args[0],
        args: m.command_and_args.drop_first(),
        clear_environment: m.ignore_environment,
        environment_overlay: m.variables,
    }
}

/// Turns a parsed invocation into a child specification. An invocation with
/// no command is rejected before any spawn is attempted, with the missing
/// command outcome and nothing else.
pub fn build_child_spec(parsed: ParsedArguments) -> (r: Result<ChildProcessSpec, Outcome>)
    ensures
        r is Ok <==> parsed@.command_and_args.len() > 0,
        r matches Err(o) ==> o@ == OutcomeModel::MissingCommand,
        r matches Ok(s) ==> s@ == spec_child_spec(parsed@),
{
    let ParsedArguments { ignore_environment, variables, command_and_args } = parsed;
    let mut command_and_args = command_and_args;
    if command_and_args.len() == 0 {
        return Err(Outcome::MissingCommand);
    }
    let program = command_and_args.remove(0);
    let spec = ChildProcessSpec {
        program,
        args: command_and_args,
        clear_environment: ignore_environment,
        environment_overlay: variables,
    };
    proof {
        assert(strings_view(spec.args@) =~= spec_child_spec(parsed@).args);
        assert(spec@ =~= spec_child_spec(parsed@));
    }
    Ok(spec)
}

/// The plan for a whole invocation: the child specification to spawn, or
/// the terminal outcome when parsing fails or no command is named.
pub open spec fn spec_plan(tokens: Seq<Seq<char>>) -> Result<ChildSpecModel, OutcomeModel> {
    match spec_parse(tokens) {
        Err(e) => Err(OutcomeModel::UsageError { error: e }),
        Ok(m) => if m.command_and_args.len() == 0 {
            Err(OutcomeModel::MissingCommand)
        } else {
            Ok(spec_child_spec(m))
        },
    }
}

/// The view of a plan result.
pub open spec fn plan_result_view(r: Result<ChildProcessSpec, Outcome>) -> Result<
    ChildSpecModel,
    OutcomeModel,
> {
    match r {
        Ok(s) => Ok(s@),
        Err(o) => Err(o@),
    }
}

/// Parses the invocation and decides what to do: spawn the returned child
/// specification, or terminate with the returned outcome.
pub fn plan_invocation(tokens: &Vec<String>) -> (r: Result<ChildProcessSpec, Outcome>)
    ensures
        plan_result_view(r) == spec_plan(strings_view(tokens@)),
{
    match parse_arguments(tokens) {
        Err(e) => Err(Outcome::UsageError { error: e }),
        Ok(parsed) => build_child_spec(parsed),
    }
}

/// An invocation that parses but names no command plans no child at all —
/// there is nothing to spawn — and its outcome reports "command not
/// specified" with the missing-command exit code.
pub proof fn lemma_missing_command(tokens: Seq<Seq<char>>)
    requires
        spec_parse(tokens) matches Ok(m) && m.command_and_args.len() == 0,
    ensures
        spec_plan(tokens) == Err::<ChildSpecModel, OutcomeModel>(OutcomeModel::MissingCommand),
        spec_exit_code(OutcomeModel::MissingCommand) == 101,
        spec_message(OutcomeModel::MissingCommand) == Some("fatal: command not specified"@),
{
}

/// The command line as reported in a spawn failure: the program followed by
/// its arguments, separated by single spaces.
pub open spec fn spec_command_line(program: Seq<char>, args: Seq<Seq<char>>) -> Seq<char>
    decreases args.len(),
{
    if args.len() == 0 {
        program
    } else {
        spec_command_line(program, args.drop_last()) + " "@ + args.last()
    }
}

/// Renders the attempted command line for failure messages.
#[verifier::loop_isolation(false)]
pub fn render_command_line(program: &String, args: &Vec<String>) -> (r: String)
    ensures
        r@ == spec_command_line(program@, strings_view(args@)),
{
    let ghost all = strings_view(args@);
    let mut r = program.clone();
    let mut i: usize = 0;
    proof {
        assert(all.take(0) =~= Seq::<Seq<char>>::empty());
    }
    while i < args.len()
        invariant
            i <= args@.len(),
            r@ == spec_command_line(program@, all.take(i as int)),
        decreases args@.len() - i,
    {
        r.append(" ");
        r.append(args[i].as_str());
        i += 1;
        proof {
            assert(all.take(i as int).drop_last() =~= all.take(i as int - 1));
            assert(all.take(i as int).last() == all[i as int - 1]);
        }
    }
    proof {
        assert(all.take(all.len() as int) =~= all);
    }
    r
}

} // verus!
