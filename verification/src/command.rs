//! Subprocesses as values: what to run, and what came back.
//!
//! The library plans commands and judges outcomes; the caller spawns the
//! process and reports what it observed.

use vstd::prelude::*;
use vstd::string::*;
use crate::text::{decode_lossy, lossy_text, texts};

verus! {

/// A subprocess to run: the program, its arguments in order, and the
/// environment variables that are set for it on top of the inherited ones.
#[derive(Clone, Debug, PartialEq, Eq)]
pub struct Command {
    pub program: String,
    pub args: Vec<String>,
    pub env: Vec<(String, String)>,
}

/// The mathematical content of a [`Command`].
pub struct CommandModel {
    pub program: Seq<char>,
    pub args: Seq<Seq<char>>,
    pub env: Seq<(Seq<char>, Seq<char>)>,
}

/// The name and value of each variable of an environment, in order.
pub open spec fn bindings(env: Seq<(String, String)>) -> Seq<(Seq<char>, Seq<char>)> {
    Seq::new(env.len(), |i: int| (env[i].0@, env[i].1@))
}

/// Appends the variable `name` with the value `value` to `env`.
pub fn push_binding(env: &mut Vec<(String, String)>, name: &str, value: String)
    ensures
        bindings(final(env)@) == bindings(old(env)@).push((name@, value@)),
{
    env.push((String::from_str(name), value));
    assert(bindings(env@) =~= bindings(old(env)@).push((name@, value@)));
}

impl View for Command {
    type V = CommandModel;

    open spec fn view(&self) -> CommandModel {
        CommandModel { program: self.program@, args: texts(self.args@), env: bindings(self.env@) }
    }
}

/// What the caller observed of one step: whether it succeeded, and the text
/// that the subprocess wrote to standard error.
#[derive(Clone, Debug, PartialEq, Eq)]
pub struct StepOutcome {
    pub ok: bool,
    pub stderr: String,
}

/// The mathematical content of a [`StepOutcome`].
pub struct StepOutcomeModel {
    pub ok: bool,
    pub stderr: Seq<char>,
}

impl View for StepOutcome {
    type V = StepOutcomeModel;

    open spec fn view(&self) -> StepOutcomeModel {
        StepOutcomeModel { ok: self.ok, stderr: self.stderr@ }
    }
}

/// The content of each outcome, in order.
pub open spec fn outcome_models(outcomes: Seq<StepOutcome>) -> Seq<StepOutcomeModel> {
    Seq::new(outcomes.len(), |i: int| outcomes[i]@)
}

/// What a finished subprocess left behind: its exit code (none where a signal
/// ended it) and the bytes it wrote to its two streams.
#[derive(Clone, Debug, PartialEq, Eq)]
pub struct ProcessOutput {
    pub exit_code: Option<i32>,
    pub stdout: Vec<u8>,
    pub stderr: Vec<u8>,
}

/// The mathematical content of a [`ProcessOutput`].
pub struct ProcessOutputModel {
    pub exit_code: Option<i32>,
    pub stdout: Seq<u8>,
    pub stderr: Seq<u8>,
}

impl View for ProcessOutput {
    type V = ProcessOutputModel;

    open spec fn view(&self) -> ProcessOutputModel {
        ProcessOutputModel {
            exit_code: self.exit_code,
            stdout: self.stdout@,
            stderr: self.stderr@,
        }
    }
}

/// A process succeeded if it exited with code zero.
pub open spec fn exited_cleanly(exit_code: Option<i32>) -> bool {
    exit_code == Some(0i32)
}

/// Whether a process with this exit code succeeded.
pub fn is_clean_exit(exit_code: Option<i32>) -> (r: bool)
    ensures
        r == exited_cleanly(exit_code),
{
    match exit_code {
        Some(code) => code == 0,
        None => false,
    }
}

impl StepOutcome {
    /// The outcome of a step that ran a subprocess: it succeeded if the
    /// process exited cleanly, and its standard error is kept as text.
    pub fn of_output(output: &ProcessOutput) -> (r: StepOutcome)
        ensures
            r@ == (StepOutcomeModel {
                ok: exited_cleanly(output.exit_code),
                stderr: lossy_text(output.stderr@),
            }),
    {
        StepOutcome {
            ok: is_clean_exit(output.exit_code),
            stderr: decode_lossy(output.stderr.as_slice()),
        }
    }

    /// The outcome of a step that asked a yes-or-no question of the system.
    pub fn of_answer(yes: bool) -> (r: StepOutcome)
        ensures
            r@ == (StepOutcomeModel { ok: yes, stderr: Seq::empty() }),
    {
        StepOutcome { ok: yes, stderr: String::new() }
    }
}

} // verus!
