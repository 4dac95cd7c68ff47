//! The process invoker: how each analyser is called from inside its isolated
//! environment, and how the outcome of a call is told apart from a crash.
//!
//! An analyser may exit with a failure code because it found issues, so the
//! exit code alone decides nothing. Each toolset has a [`SuccessPolicy`]: the
//! static analyser writes its result to a side-channel file, and the run
//! counts as a success exactly if that file is there and not empty; the
//! symbolic analyser prints to standard output, and a failure code is forgiven
//! where standard error holds a known marker.

use vstd::prelude::*;
use vstd::string::*;
use crate::command::{
    bindings, exited_cleanly, is_clean_exit, push_binding, Command, CommandModel,
};
use crate::installer::{pinned_compiler, pinned_compiler_version, ToolKind};
use crate::paths::{
    executable_dir, executable_path, prepend_search_path, resolve_executable_dir,
    resolve_executable_path, search_path, Platform,
};
use crate::text::{
    contains_text, decode_lossy, decode_strict, lossy_text, occurs_in, push_text, strict_text,
    text_of, texts,
};

verus! {

/// Where an analyser delivers its result.
#[derive(Clone, Copy, Debug, PartialEq, Eq, Structural)]
pub enum OutputMode {
    /// On standard output.
    Stdout,
    /// In a side-channel file whose path it is given.
    TempFile,
}

/// How the success of a run is decided: by the output mode, and for standard
/// output by the markers in standard error that mean "ran, and found issues".
#[derive(Clone, Debug, PartialEq, Eq)]
pub struct SuccessPolicy {
    pub mode: OutputMode,
    pub markers: Vec<String>,
}

/// The mathematical content of a [`SuccessPolicy`].
pub struct PolicyModel {
    pub mode: OutputMode,
    pub markers: Seq<Seq<char>>,
}

impl View for SuccessPolicy {
    type V = PolicyModel;

    open spec fn view(&self) -> PolicyModel {
        PolicyModel { mode: self.mode, markers: texts(self.markers@) }
    }
}

/// The policy of each engine.
pub open spec fn policy_of(kind: ToolKind) -> PolicyModel {
    match kind {
        ToolKind::Slither => PolicyModel { mode: OutputMode::TempFile, markers: seq![] },
        ToolKind::Mythril => PolicyModel {
            mode: OutputMode::Stdout,
            markers: seq!["issues were found"@],
        },
    }
}

impl SuccessPolicy {
    /// The policy of the engine `kind`.
    pub fn for_tool(kind: ToolKind) -> (p: SuccessPolicy)
        ensures
            p@ == policy_of(kind),
    {
        let mut markers: Vec<String> = Vec::new();
        match kind {
            ToolKind::Slither => {
                assert(texts(markers@) =~= seq![]);
                SuccessPolicy { mode: OutputMode::TempFile, markers }
            },
            ToolKind::Mythril => {
                push_text(&mut markers, "issues were found");
                assert(texts(markers@) =~= seq!["issues were found"@]);
                SuccessPolicy { mode: OutputMode::Stdout, markers }
            },
        }
    }
}

/// What the caller found of the side-channel file after the process ended:
/// its length in bytes, and its contents where they could be read as text.
#[derive(Clone, Debug, PartialEq, Eq)]
pub struct ArtifactRecord {
    pub length: u64,
    pub contents: Option<String>,
}

/// The outcome of running one analyser: the raw bytes of its two streams, its
/// exit code, and the side-channel file where there is one.
#[derive(Clone, Debug, PartialEq, Eq)]
pub struct InvocationResult {
    pub stdout: Vec<u8>,
    pub stderr: Vec<u8>,
    pub exit_code: Option<i32>,
    pub artifact: Option<ArtifactRecord>,
}

/// The mathematical content of an [`ArtifactRecord`].
pub struct ArtifactModel {
    pub length: u64,
    pub contents: Option<Seq<char>>,
}

impl View for ArtifactRecord {
    type V = ArtifactModel;

    open spec fn view(&self) -> ArtifactModel {
        ArtifactModel { length: self.length, contents: text_of(self.contents) }
    }
}

/// The content of a side-channel file that may be absent.
pub open spec fn artifact_of(artifact: Option<ArtifactRecord>) -> Option<ArtifactModel> {
    match artifact {
        Some(record) => Some(record@),
        None => None,
    }
}

/// The mathematical content of an [`InvocationResult`].
pub struct InvocationModel {
    pub stdout: Seq<u8>,
    pub stderr: Seq<u8>,
    pub exit_code: Option<i32>,
    pub artifact: Option<ArtifactModel>,
}

impl View for InvocationResult {
    type V = InvocationModel;

    open spec fn view(&self) -> InvocationModel {
        InvocationModel {
            stdout: self.stdout@,
            stderr: self.stderr@,
            exit_code: self.exit_code,
            artifact: artifact_of(self.artifact),
        }
    }
}

/// Why an invocation yielded no result.
#[derive(Clone, Debug, PartialEq, Eq)]
pub enum InvokeError {
    /// The run does not count as a success; `stderr` is what the process wrote
    /// to standard error.
    InvokeFailed { stderr: String },
    /// The run counts as a success, but its result could not be read as text.
    MissingOutputArtifact,
}

/// The mathematical content of an [`InvokeError`].
pub enum InvokeErrorModel {
    InvokeFailed { stderr: Seq<char> },
    MissingOutputArtifact,
}

impl View for InvokeError {
    type V = InvokeErrorModel;

    open spec fn view(&self) -> InvokeErrorModel {
        match self {
            InvokeError::InvokeFailed { stderr } => InvokeErrorModel::InvokeFailed {
                stderr: stderr@,
            },
            InvokeError::MissingOutputArtifact => InvokeErrorModel::MissingOutputArtifact,
        }
    }
}

/// One of `markers` stands in `stderr`.
pub open spec fn marker_found(markers: Seq<Seq<char>>, stderr: Seq<char>) -> bool {
    exists|i: int| 0 <= i < markers.len() && occurs_in(#[trigger] markers[i], stderr)
}

/// The side-channel file is there and not empty.
pub open spec fn artifact_delivered(artifact: Option<ArtifactModel>) -> bool {
    artifact matches Some(record) && record.length > 0
}

/// What a run yields under `policy`, given its exit code, its two streams
/// read as text (standard output is `None` where it is not text), and the
/// side-channel file: the result text, or why there is none.
///
/// With a side-channel file the run counts as a success exactly if the file
/// is there and not empty, and the result is the file's contents. On standard
/// output it counts as a success exactly if the process exited cleanly or
/// standard error holds one of the policy's markers, and the result is
/// standard output. A run that does not count as a success fails with its
/// standard error; a success whose result cannot be read lacks its artifact.
pub open spec fn verdict(
    policy: PolicyModel,
    exit_code: Option<i32>,
    stdout: Option<Seq<char>>,
    stderr: Seq<char>,
    artifact: Option<ArtifactModel>,
) -> Result<Seq<char>, InvokeErrorModel> {
    let success = match policy.mode {
        OutputMode::TempFile => artifact_delivered(artifact),
        OutputMode::Stdout => exited_cleanly(exit_code) || marker_found(policy.markers, stderr),
    };
    let delivered = match policy.mode {
        OutputMode::TempFile => match artifact {
            Some(record) => record.contents,
            None => None,
        },
        OutputMode::Stdout => stdout,
    };
    if !success {
        Err(InvokeErrorModel::InvokeFailed { stderr })
    } else {
        match delivered {
            Some(text) => Ok(text),
            None => Err(InvokeErrorModel::MissingOutputArtifact),
        }
    }
}

/// What a run yields under `policy`: its verdict, with standard output read
/// strictly as UTF-8 and standard error read lossily.
pub open spec fn payload(policy: PolicyModel, result: InvocationModel) -> Result<
    Seq<char>,
    InvokeErrorModel,
> {
    verdict(
        policy,
        result.exit_code,
        strict_text(result.stdout),
        lossy_text(result.stderr),
        result.artifact,
    )
}

/// Whether one of `markers` stands in `stderr`.
pub fn has_marker(markers: &Vec<String>, stderr: &str) -> (r: bool)
    ensures
        r == marker_found(texts(markers@), stderr@),
{
    let mut i: usize = 0;
    while i < markers.len()
        invariant
            i <= markers.len(),
            forall|k: int| 0 <= k < i ==> !occurs_in(#[trigger] texts(markers@)[k], stderr@),
        decreases markers.len() - i,
    {
        if contains_text(stderr, markers[i].as_str()) {
            assert(occurs_in(texts(markers@)[i as int], stderr@));
            return true;
        }
        i += 1;
    }
    false
}

/// Judges a run under `policy`, given its exit code, its two streams read as
/// text, and the side-channel file.
pub fn judge(
    policy: &SuccessPolicy,
    exit_code: Option<i32>,
    stdout: Option<String>,
    stderr: String,
    artifact: &Option<ArtifactRecord>,
) -> (r: Result<String, InvokeError>)
    ensures
        match r {
            Ok(text) => verdict(
                policy@,
                exit_code,
                text_of(stdout),
                stderr@,
                artifact_of(*artifact),
            ) == Ok::<Seq<char>, InvokeErrorModel>(text@),
            Err(e) => verdict(
                policy@,
                exit_code,
                text_of(stdout),
                stderr@,
                artifact_of(*artifact),
            ) == Err::<Seq<char>, InvokeErrorModel>(e@),
        },
{
    match policy.mode {
        OutputMode::TempFile => {
            match artifact {
                Some(record) => {
                    if record.length == 0 {
                        return Err(InvokeError::InvokeFailed { stderr });
                    }
                    match &record.contents {
                        Some(text) => Ok(text.clone()),
                        None => Err(InvokeError::MissingOutputArtifact),
                    }
                },
                None => Err(InvokeError::InvokeFailed { stderr }),
            }
        },
        OutputMode::Stdout => {
            if is_clean_exit(exit_code) || has_marker(&policy.markers, stderr.as_str()) {
                match stdout {
                    Some(text) => Ok(text),
                    None => Err(InvokeError::MissingOutputArtifact),
                }
            } else {
                Err(InvokeError::InvokeFailed { stderr })
            }
        },
    }
}

/// Judges a finished run under `policy` and hands out its result text.
pub fn extract_payload(policy: &SuccessPolicy, result: &InvocationResult) -> (r: Result<
    String,
    InvokeError,
>)
    ensures
        match r {
            Ok(text) => payload(policy@, result@) == Ok::<Seq<char>, InvokeErrorModel>(text@),
            Err(e) => payload(policy@, result@) == Err::<Seq<char>, InvokeErrorModel>(e@),
        },
{
    judge(
        policy,
        result.exit_code,
        decode_strict(result.stdout.as_slice()),
        decode_lossy(result.stderr.as_slice()),
        &result.artifact,
    )
}

/// With a side-channel file, neither the exit code nor standard output
/// decides anything: runs that differ in these alone yield the same.
pub proof fn lemma_side_channel_ignores_exit_code(
    policy: PolicyModel,
    code: Option<i32>,
    other_code: Option<i32>,
    stdout: Option<Seq<char>>,
    other_stdout: Option<Seq<char>>,
    stderr: Seq<char>,
    artifact: Option<ArtifactModel>,
)
    requires
        policy.mode == OutputMode::TempFile,
    ensures
        verdict(policy, code, stdout, stderr, artifact) == verdict(
            policy,
            other_code,
            other_stdout,
            stderr,
            artifact,
        ),
{
}

/// A side-channel file that is there, not empty and readable makes the run a
/// success that yields the file's contents, whatever the exit code.
pub proof fn lemma_delivered_side_channel_succeeds(
    policy: PolicyModel,
    code: Option<i32>,
    stdout: Option<Seq<char>>,
    stderr: Seq<char>,
    record: ArtifactModel,
    text: Seq<char>,
)
    requires
        policy.mode == OutputMode::TempFile,
        record.length > 0,
        record.contents == Some(text),
    ensures
        verdict(policy, code, stdout, stderr, Some(record)) == Ok::<Seq<char>, InvokeErrorModel>(
            text,
        ),
{
}

/// With a side-channel file that is absent or empty, the run is a failure that
/// carries the captured standard error, whatever the exit code.
pub proof fn lemma_missing_side_channel_fails(
    policy: PolicyModel,
    code: Option<i32>,
    stdout: Option<Seq<char>>,
    stderr: Seq<char>,
    artifact: Option<ArtifactModel>,
)
    requires
        policy.mode == OutputMode::TempFile,
        artifact is None || artifact->0.length == 0,
    ensures
        verdict(policy, code, stdout, stderr, artifact) == Err::<Seq<char>, InvokeErrorModel>(
            InvokeErrorModel::InvokeFailed { stderr },
        ),
{
}

/// The variable that makes a subprocess find the executables of the
/// environment at `root` before any other.
pub open spec fn isolation(root: Seq<char>, platform: Platform, inherited: Seq<char>) -> (
    Seq<char>,
    Seq<char>,
) {
    ("PATH"@, search_path(executable_dir(root, platform), inherited))
}

/// The call of the static analyser on the contract at `contract`, with its
/// result written to `side_channel`.
pub open spec fn slither_command(
    contract: Seq<char>,
    root: Seq<char>,
    platform: Platform,
    inherited: Seq<char>,
    side_channel: Seq<char>,
) -> CommandModel {
    CommandModel {
        program: executable_path(root, "slither"@, platform),
        args: seq![contract, "--json"@, side_channel, "--solc-solcs-select"@, pinned_compiler()],
        env: seq![isolation(root, platform, inherited)],
    }
}

/// The call of the symbolic analyser on `bytecode`, with its result printed as JSON.
pub open spec fn mythril_command(
    bytecode: Seq<char>,
    root: Seq<char>,
    platform: Platform,
    inherited: Seq<char>,
) -> CommandModel {
    CommandModel {
        program: executable_path(root, "myth"@, platform),
        args: seq!["analyze"@, "-c"@, bytecode, "-o"@, "json"@],
        env: seq![isolation(root, platform, inherited)],
    }
}

/// The environment of a subprocess that runs inside the environment at `root`.
pub fn isolated_env(root: &str, platform: Platform, inherited: &str) -> (env: Vec<(String, String)>)
    ensures
        bindings(env@) == seq![isolation(root@, platform, inherited@)],
{
    let dir = resolve_executable_dir(root, platform);
    let mut env: Vec<(String, String)> = Vec::new();
    assert(bindings(env@) =~= seq![]);
    push_binding(&mut env, "PATH", prepend_search_path(dir.as_str(), inherited));
    assert(bindings(env@) =~= seq![isolation(root@, platform, inherited@)]);
    env
}

/// Plans the call of the static analyser.
pub fn plan_slither_analysis(
    contract_path: &str,
    venv_path: &str,
    platform: Platform,
    inherited_path: &str,
    side_channel: &str,
) -> (c: Command)
    ensures
        c@ == slither_command(
            contract_path@,
            venv_path@,
            platform,
            inherited_path@,
            side_channel@,
        ),
{
    let mut args: Vec<String> = Vec::new();
    push_text(&mut args, contract_path);
    push_text(&mut args, "--json");
    push_text(&mut args, side_channel);
    push_text(&mut args, "--solc-solcs-select");
    push_text(&mut args, pinned_compiler_version().as_str());
    assert(texts(args@) =~= seq![
        contract_path@,
        "--json"@,
        side_channel@,
        "--solc-solcs-select"@,
        pinned_compiler(),
    ]);
    Command {
        program: resolve_executable_path(venv_path, "slither", platform),
        args,
        env: isolated_env(venv_path, platform, inherited_path),
    }
}

/// Plans the call of the symbolic analyser.
pub fn plan_mythril_analysis(
    bytecode: &str,
    venv_path: &str,
    platform: Platform,
    inherited_path: &str,
) -> (c: Command)
    ensures
        c@ == mythril_command(bytecode@, venv_path@, platform, inherited_path@),
{
    let mut args: Vec<String> = Vec::new();
    push_text(&mut args, "analyze");
    push_text(&mut args, "-c");
    push_text(&mut args, bytecode);
    push_text(&mut args, "-o");
    push_text(&mut args, "json");
    assert(texts(args@) =~= seq!["analyze"@, "-c"@, bytecode@, "-o"@, "json"@]);
    Command {
        program: resolve_executable_path(venv_path, "myth", platform),
        args,
        env: isolated_env(venv_path, platform, inherited_path),
    }
}

} // verus!
