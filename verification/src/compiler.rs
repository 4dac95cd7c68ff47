//! Compilation to bytecode, for the analyser that consumes bytecode rather
//! than source: how the compiler is called, and where in its output the
//! bytecode stands.

use vstd::prelude::*;
use vstd::string::*;
use crate::analyzer::{isolated_env, isolation};
use crate::command::{
    bindings, exited_cleanly, is_clean_exit, push_binding, Command, CommandModel, ProcessOutput,
    ProcessOutputModel,
};
use crate::installer::{pinned_compiler, pinned_compiler_version};
use crate::paths::{executable_path, resolve_executable_path, Platform};
use crate::text::{
    decode_lossy, decode_strict, find_last_non_blank_line, last_non_blank_line, lossy_text,
    push_text, strict_text, text_of, texts,
};

verus! {

/// Why compilation yielded no bytecode.
#[derive(Clone, Debug, PartialEq, Eq)]
pub enum CompileError {
    /// The compiler did not exit cleanly; `stderr` is what it wrote to
    /// standard error.
    CompileFailed { stderr: String },
    /// The compiler's output is not text.
    UnreadableOutput,
    /// The compiler's output holds no line that is not blank.
    NoBytecode,
}

/// The mathematical content of a [`CompileError`].
pub enum CompileErrorModel {
    CompileFailed { stderr: Seq<char> },
    UnreadableOutput,
    NoBytecode,
}

impl View for CompileError {
    type V = CompileErrorModel;

    open spec fn view(&self) -> CompileErrorModel {
        match self {
            CompileError::CompileFailed { stderr } => CompileErrorModel::CompileFailed {
                stderr: stderr@,
            },
            CompileError::UnreadableOutput => CompileErrorModel::UnreadableOutput,
            CompileError::NoBytecode => CompileErrorModel::NoBytecode,
        }
    }
}

/// The call of the compiler on the contract at `contract`, pinned to its
/// version through the environment.
pub open spec fn compile_command(
    contract: Seq<char>,
    root: Seq<char>,
    platform: Platform,
    inherited: Seq<char>,
) -> CommandModel {
    CommandModel {
        program: executable_path(root, "solc"@, platform),
        args: seq!["--bin"@, "--optimize"@, contract],
        env: seq![isolation(root, platform, inherited), ("SOLC_VERSION"@, pinned_compiler())],
    }
}

/// Plans the call of the compiler.
pub fn plan_compile(contract_path: &str, venv_path: &str, platform: Platform, inherited_path: &str) -> (c:
    Command)
    ensures
        c@ == compile_command(contract_path@, venv_path@, platform, inherited_path@),
{
    let mut args: Vec<String> = Vec::new();
    push_text(&mut args, "--bin");
    push_text(&mut args, "--optimize");
    push_text(&mut args, contract_path);
    assert(texts(args@) =~= seq!["--bin"@, "--optimize"@, contract_path@]);
    let mut env = isolated_env(venv_path, platform, inherited_path);
    push_binding(&mut env, "SOLC_VERSION", pinned_compiler_version());
    assert(bindings(env@) =~= seq![
        isolation(venv_path@, platform, inherited_path@),
        ("SOLC_VERSION"@, pinned_compiler()),
    ]);
    Command { program: resolve_executable_path(venv_path, "solc", platform), args, env }
}

/// The bytecode that a compiler run yields, given its exit code and its two
/// streams read as text (standard output is `None` where it is not text):
/// the last line of standard output that is not blank, provided that the
/// compiler exited cleanly.
pub open spec fn bytecode_in(exit_code: Option<i32>, stdout: Option<Seq<char>>, stderr: Seq<char>) -> Result<
    Seq<char>,
    CompileErrorModel,
> {
    if !exited_cleanly(exit_code) {
        Err(CompileErrorModel::CompileFailed { stderr })
    } else {
        match stdout {
            None => Err(CompileErrorModel::UnreadableOutput),
            Some(text) => match last_non_blank_line(text) {
                Some(line) => Ok(line),
                None => Err(CompileErrorModel::NoBytecode),
            },
        }
    }
}

/// The bytecode that a finished compiler run yields, with standard output
/// read strictly as UTF-8 and standard error read lossily.
pub open spec fn bytecode_of(output: ProcessOutputModel) -> Result<Seq<char>, CompileErrorModel> {
    bytecode_in(output.exit_code, strict_text(output.stdout), lossy_text(output.stderr))
}

/// Selects the bytecode from a compiler run, given its exit code and its two
/// streams read as text.
pub fn select_bytecode(exit_code: Option<i32>, stdout: Option<String>, stderr: String) -> (r: Result<
    String,
    CompileError,
>)
    ensures
        match r {
            Ok(code) => bytecode_in(exit_code, text_of(stdout), stderr@) == Ok::<
                Seq<char>,
                CompileErrorModel,
            >(code@),
            Err(e) => bytecode_in(exit_code, text_of(stdout), stderr@) == Err::<
                Seq<char>,
                CompileErrorModel,
            >(e@),
        },
{
    if !is_clean_exit(exit_code) {
        return Err(CompileError::CompileFailed { stderr });
    }
    match stdout {
        None => Err(CompileError::UnreadableOutput),
        Some(text) => match find_last_non_blank_line(text.as_str()) {
            Some(line) => Ok(line),
            None => Err(CompileError::NoBytecode),
        },
    }
}

/// Extracts the bytecode from a finished compiler run.
pub fn extract_bytecode(output: &ProcessOutput) -> (r: Result<String, CompileError>)
    ensures
        match r {
            Ok(code) => bytecode_of(output@) == Ok::<Seq<char>, CompileErrorModel>(code@),
            Err(e) => bytecode_of(output@) == Err::<Seq<char>, CompileErrorModel>(e@),
        },
{
    select_bytecode(
        output.exit_code,
        decode_strict(output.stdout.as_slice()),
        decode_lossy(output.stderr.as_slice()),
    )
}

} // verus!
