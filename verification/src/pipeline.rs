//! The pipeline coordinator: the phases that one toolset goes through in one
//! run, from the readiness check to the findings.
//!
//! The coordinator decides; the caller acts. [`plan_action`] says what to do
//! in a state and [`advance`] says which state the observed event leads to.
//! Each toolset has a state of its own, so the failure of one toolset changes
//! nothing for another.

use vstd::prelude::*;
use vstd::string::*;
use crate::analyzer::{
    extract_payload, mythril_command, payload, plan_mythril_analysis, plan_slither_analysis,
    policy_of, slither_command, InvocationModel, InvocationResult, InvokeError, InvokeErrorModel,
    SuccessPolicy,
};
use crate::command::{Command, CommandModel, ProcessOutput, ProcessOutputModel};
use crate::compiler::{
    bytecode_of, compile_command, extract_bytecode, plan_compile, CompileError, CompileErrorModel,
};
use crate::installer::{
    default_candidates, toolset_of, Environment, EnvironmentModel, PlanModel, ProvisionError,
    ProvisionErrorModel, ProvisionPlan, ProvisionStep, ToolKind,
};
use crate::paths::{
    environment_dir, environment_dir_path, joined, side_channel_name, side_channel_path, Platform,
};
use crate::serialize::{findings_reading, parse_text, FindingSet, FindingSetModel, ParseError};
use crate::text::text_of;

verus! {

/// The phases of a run, in their order, and the two ways in which a run ends.
#[derive(Clone, Copy, Debug, PartialEq, Eq, Structural)]
pub enum Phase {
    NotProvisioned,
    Provisioning,
    Ready,
    Compiling,
    Invoking,
    Parsing,
    Done,
    Failed,
}

/// Why a run failed.
#[derive(Clone, Debug, PartialEq, Eq)]
pub enum FailureReason {
    /// Provisioning failed.
    Provision(ProvisionError),
    /// Provisioning ended without a ready environment.
    EnvironmentMissing,
    /// Compilation to bytecode failed.
    Compile(CompileError),
    /// The analyser's run yielded no result.
    Invoke(InvokeError),
    /// The analyser's output is no report.
    Parse(ParseError),
    /// The caller reported an event that the phase does not wait for.
    UnexpectedEvent,
}

/// The mathematical content of a [`FailureReason`].
pub enum ReasonModel {
    Provision(ProvisionErrorModel),
    EnvironmentMissing,
    Compile(CompileErrorModel),
    Invoke(InvokeErrorModel),
    Parse(Seq<char>),
    UnexpectedEvent,
}

impl View for FailureReason {
    type V = ReasonModel;

    open spec fn view(&self) -> ReasonModel {
        match self {
            FailureReason::Provision(e) => ReasonModel::Provision(e@),
            FailureReason::EnvironmentMissing => ReasonModel::EnvironmentMissing,
            FailureReason::Compile(e) => ReasonModel::Compile(e@),
            FailureReason::Invoke(e) => ReasonModel::Invoke(e@),
            FailureReason::Parse(e) => ReasonModel::Parse(e@),
            FailureReason::UnexpectedEvent => ReasonModel::UnexpectedEvent,
        }
    }
}

/// A failed run: the phase that failed, and why.
#[derive(Clone, Debug, PartialEq, Eq)]
pub struct Failure {
    pub phase: Phase,
    pub reason: FailureReason,
}

/// The mathematical content of a [`Failure`].
pub struct FailureModel {
    pub phase: Phase,
    pub reason: ReasonModel,
}

impl View for Failure {
    type V = FailureModel;

    open spec fn view(&self) -> FailureModel {
        FailureModel { phase: self.phase, reason: self.reason@ }
    }
}

/// Where the run of one toolset stands.
#[derive(Clone, Debug, PartialEq, Eq)]
pub enum PipelineState {
    /// Waiting to learn whether the toolset's environment is ready.
    NotProvisioned,
    /// Waiting for the provisioner.
    Provisioning,
    /// The environment is ready; nothing has run yet.
    Ready,
    /// Waiting for the compiler.
    Compiling,
    /// Waiting for the analyser, which is given `input`: the path of the
    /// contract, or its bytecode.
    Invoking { input: String },
    /// The analyser's output is at hand and not yet read.
    Parsing { payload: String },
    /// The run yielded these findings.
    Done(FindingSet),
    /// The run failed.
    Failed(Failure),
}

/// The mathematical content of a [`PipelineState`].
pub enum PipelineModel {
    NotProvisioned,
    Provisioning,
    Ready,
    Compiling,
    Invoking { input: Seq<char> },
    Parsing { payload: Seq<char> },
    Done(FindingSetModel),
    Failed(FailureModel),
}

impl View for PipelineState {
    type V = PipelineModel;

    open spec fn view(&self) -> PipelineModel {
        match self {
            PipelineState::NotProvisioned => PipelineModel::NotProvisioned,
            PipelineState::Provisioning => PipelineModel::Provisioning,
            PipelineState::Ready => PipelineModel::Ready,
            PipelineState::Compiling => PipelineModel::Compiling,
            PipelineState::Invoking { input } => PipelineModel::Invoking { input: input@ },
            PipelineState::Parsing { payload } => PipelineModel::Parsing { payload: payload@ },
            PipelineState::Done(set) => PipelineModel::Done(set@),
            PipelineState::Failed(failure) => PipelineModel::Failed(failure@),
        }
    }
}

/// What the caller observed.
#[derive(Debug, PartialEq, Eq)]
pub enum PipelineEvent {
    /// Whether the environment's root directory exists.
    EnvironmentChecked { ready: bool },
    /// How provisioning ended.
    Provisioned(Result<Environment, ProvisionError>),
    /// Nothing: the phase needs no outside work.
    Proceed,
    /// How the compiler's process ended.
    Compiled(ProcessOutput),
    /// How the analyser's process ended.
    Invoked(InvocationResult),
}

/// The mathematical content of a [`PipelineEvent`].
pub enum EventModel {
    EnvironmentChecked { ready: bool },
    Provisioned(Result<EnvironmentModel, ProvisionErrorModel>),
    Proceed,
    Compiled(ProcessOutputModel),
    Invoked(InvocationModel),
}

impl View for PipelineEvent {
    type V = EventModel;

    open spec fn view(&self) -> EventModel {
        match self {
            PipelineEvent::EnvironmentChecked { ready } => EventModel::EnvironmentChecked {
                ready: *ready,
            },
            PipelineEvent::Provisioned(Ok(environment)) => EventModel::Provisioned(
                Ok(environment@),
            ),
            PipelineEvent::Provisioned(Err(error)) => EventModel::Provisioned(Err(error@)),
            PipelineEvent::Proceed => EventModel::Proceed,
            PipelineEvent::Compiled(output) => EventModel::Compiled(output@),
            PipelineEvent::Invoked(result) => EventModel::Invoked(result@),
        }
    }
}

/// What is analysed, and the host's side of it: where environments and
/// temporary files live, the inherited search path, the platform, and the
/// token that makes the names of side-channel files unique.
#[derive(Clone, Debug, PartialEq, Eq)]
pub struct RunContext {
    pub contract_path: String,
    pub data_root: String,
    pub temp_dir: String,
    pub inherited_path: String,
    pub platform: Platform,
    pub token: u32,
}

/// The mathematical content of a [`RunContext`].
pub struct ContextModel {
    pub contract_path: Seq<char>,
    pub data_root: Seq<char>,
    pub temp_dir: Seq<char>,
    pub inherited_path: Seq<char>,
    pub platform: Platform,
    pub token: nat,
}

impl View for RunContext {
    type V = ContextModel;

    open spec fn view(&self) -> ContextModel {
        ContextModel {
            contract_path: self.contract_path@,
            data_root: self.data_root@,
            temp_dir: self.temp_dir@,
            inherited_path: self.inherited_path@,
            platform: self.platform,
            token: self.token as nat,
        }
    }
}

/// What the caller does next.
#[derive(Clone, Debug, PartialEq, Eq)]
pub enum PipelineAction {
    /// Report whether this directory exists.
    CheckEnvironment(String),
    /// Run the provisioner on this plan and report how it ended.
    Provision(ProvisionPlan),
    /// Report `Proceed`.
    Proceed,
    /// Run the compiler and report how it ended.
    Compile(Command),
    /// Run the analyser and report how it ended, with the side-channel file
    /// at this path where there is one.
    Invoke { command: Command, side_channel: Option<String> },
    /// Nothing: the run is over.
    Finish,
}

/// The mathematical content of a [`PipelineAction`].
pub enum PipelineActionModel {
    CheckEnvironment(Seq<char>),
    Provision(PlanModel),
    Proceed,
    Compile(CommandModel),
    Invoke { command: CommandModel, side_channel: Option<Seq<char>> },
    Finish,
}

impl View for PipelineAction {
    type V = PipelineActionModel;

    open spec fn view(&self) -> PipelineActionModel {
        match self {
            PipelineAction::CheckEnvironment(path) => PipelineActionModel::CheckEnvironment(path@),
            PipelineAction::Provision(plan) => PipelineActionModel::Provision(plan@),
            PipelineAction::Proceed => PipelineActionModel::Proceed,
            PipelineAction::Compile(command) => PipelineActionModel::Compile(command@),
            PipelineAction::Invoke { command, side_channel } => PipelineActionModel::Invoke {
                command: command@,
                side_channel: text_of(*side_channel),
            },
            PipelineAction::Finish => PipelineActionModel::Finish,
        }
    }
}

/// The phase of a state.
pub open spec fn phase_of(state: PipelineModel) -> Phase {
    match state {
        PipelineModel::NotProvisioned => Phase::NotProvisioned,
        PipelineModel::Provisioning => Phase::Provisioning,
        PipelineModel::Ready => Phase::Ready,
        PipelineModel::Compiling => Phase::Compiling,
        PipelineModel::Invoking { .. } => Phase::Invoking,
        PipelineModel::Parsing { .. } => Phase::Parsing,
        PipelineModel::Done(_) => Phase::Done,
        PipelineModel::Failed(_) => Phase::Failed,
    }
}

impl PipelineState {
    /// The phase of this state.
    pub fn phase(&self) -> (p: Phase)
        ensures
            p == phase_of(self@),
    {
        match self {
            PipelineState::NotProvisioned => Phase::NotProvisioned,
            PipelineState::Provisioning => Phase::Provisioning,
            PipelineState::Ready => Phase::Ready,
            PipelineState::Compiling => Phase::Compiling,
            PipelineState::Invoking { .. } => Phase::Invoking,
            PipelineState::Parsing { .. } => Phase::Parsing,
            PipelineState::Done(_) => Phase::Done,
            PipelineState::Failed(_) => Phase::Failed,
        }
    }
}

/// Whether the analyser of `kind` consumes bytecode rather than source.
pub open spec fn needs_bytecode(kind: ToolKind) -> bool {
    kind == ToolKind::Mythril
}

/// Whether the analyser of `kind` consumes bytecode rather than source.
pub fn consumes_bytecode(kind: ToolKind) -> (r: bool)
    ensures
        r == needs_bytecode(kind),
{
    match kind {
        ToolKind::Slither => false,
        ToolKind::Mythril => true,
    }
}

/// The failure of the phase of `state` for `reason`.
pub open spec fn failure_in(state: PipelineModel, reason: ReasonModel) -> PipelineModel {
    PipelineModel::Failed(FailureModel { phase: phase_of(state), reason })
}

/// The state that follows `state` once `event` was observed.
///
/// A ready environment skips provisioning. Provisioning leads to `Ready` or
/// fails. From `Ready` the run goes on to the compiler where the analyser
/// consumes bytecode, else to the analyser with the contract's path. The
/// compiler's bytecode is the analyser's input. The analyser's run is judged
/// by the policy of its engine, and its result text is then read as a report.
/// The two last states are final. Any other event fails the phase.
pub open spec fn following(
    kind: ToolKind,
    context: ContextModel,
    state: PipelineModel,
    event: EventModel,
) -> PipelineModel {
    match (state, event) {
        (PipelineModel::Done(set), _) => PipelineModel::Done(set),
        (PipelineModel::Failed(failure), _) => PipelineModel::Failed(failure),
        (PipelineModel::NotProvisioned, EventModel::EnvironmentChecked { ready }) => if ready {
            PipelineModel::Ready
        } else {
            PipelineModel::Provisioning
        },
        (PipelineModel::Provisioning, EventModel::Provisioned(Ok(environment))) => if environment.ready {
            PipelineModel::Ready
        } else {
            failure_in(state, ReasonModel::EnvironmentMissing)
        },
        (PipelineModel::Provisioning, EventModel::Provisioned(Err(error))) => failure_in(
            state,
            ReasonModel::Provision(error),
        ),
        (PipelineModel::Ready, EventModel::Proceed) => if needs_bytecode(kind) {
            PipelineModel::Compiling
        } else {
            PipelineModel::Invoking { input: context.contract_path }
        },
        (PipelineModel::Compiling, EventModel::Compiled(output)) => match bytecode_of(output) {
            Ok(code) => PipelineModel::Invoking { input: code },
            Err(error) => failure_in(state, ReasonModel::Compile(error)),
        },
        (PipelineModel::Invoking { .. }, EventModel::Invoked(result)) => match payload(
            policy_of(kind),
            result,
        ) {
            Ok(text) => PipelineModel::Parsing { payload: text },
            Err(error) => failure_in(state, ReasonModel::Invoke(error)),
        },
        (PipelineModel::Parsing { payload }, EventModel::Proceed) => match findings_reading(
            kind,
            payload,
        ) {
            Ok(set) => PipelineModel::Done(set),
            Err(reason) => failure_in(state, ReasonModel::Parse(reason)),
        },
        _ => failure_in(state, ReasonModel::UnexpectedEvent),
    }
}

/// Where a run starts.
pub fn start() -> (s: PipelineState)
    ensures
        s@ == PipelineModel::NotProvisioned,
{
    PipelineState::NotProvisioned
}

fn fail(phase: Phase, reason: FailureReason) -> (s: PipelineState)
    ensures
        s@ == PipelineModel::Failed(FailureModel { phase, reason: reason@ }),
{
    PipelineState::Failed(Failure { phase, reason })
}

/// Takes the run of the toolset `kind` from `state` to the state that `event`
/// leads to.
pub fn advance(kind: ToolKind, context: &RunContext, state: PipelineState, event: PipelineEvent) -> (next:
    PipelineState)
    ensures
        next@ == following(kind, context@, state@, event@),
{
    match state {
        PipelineState::Done(set) => PipelineState::Done(set),
        PipelineState::Failed(failure) => PipelineState::Failed(failure),
        PipelineState::NotProvisioned => match event {
            PipelineEvent::EnvironmentChecked { ready } => {
                if ready {
                    PipelineState::Ready
                } else {
                    PipelineState::Provisioning
                }
            },
            _ => fail(Phase::NotProvisioned, FailureReason::UnexpectedEvent),
        },
        PipelineState::Provisioning => match event {
            PipelineEvent::Provisioned(Ok(environment)) => {
                if environment.ready {
                    PipelineState::Ready
                } else {
                    fail(Phase::Provisioning, FailureReason::EnvironmentMissing)
                }
            },
            PipelineEvent::Provisioned(Err(error)) => fail(
                Phase::Provisioning,
                FailureReason::Provision(error),
            ),
            _ => fail(Phase::Provisioning, FailureReason::UnexpectedEvent),
        },
        PipelineState::Ready => match event {
            PipelineEvent::Proceed => {
                if consumes_bytecode(kind) {
                    PipelineState::Compiling
                } else {
                    PipelineState::Invoking { input: context.contract_path.clone() }
                }
            },
            _ => fail(Phase::Ready, FailureReason::UnexpectedEvent),
        },
        PipelineState::Compiling => match event {
            PipelineEvent::Compiled(output) => match extract_bytecode(&output) {
                Ok(code) => PipelineState::Invoking { input: code },
                Err(error) => fail(Phase::Compiling, FailureReason::Compile(error)),
            },
            _ => fail(Phase::Compiling, FailureReason::UnexpectedEvent),
        },
        PipelineState::Invoking { input } => match event {
            PipelineEvent::Invoked(result) => {
                let policy = SuccessPolicy::for_tool(kind);
                match extract_payload(&policy, &result) {
                    Ok(text) => PipelineState::Parsing { payload: text },
                    Err(error) => fail(Phase::Invoking, FailureReason::Invoke(error)),
                }
            },
            _ => fail(Phase::Invoking, FailureReason::UnexpectedEvent),
        },
        PipelineState::Parsing { payload } => match event {
            PipelineEvent::Proceed => match parse_text(payload.as_str(), kind) {
                Ok(set) => PipelineState::Done(set),
                Err(error) => fail(Phase::Parsing, FailureReason::Parse(error)),
            },
            _ => fail(Phase::Parsing, FailureReason::UnexpectedEvent),
        },
    }
}

/// The root directory of the environment of the toolset `kind`.
pub open spec fn environment_root(kind: ToolKind, context: ContextModel) -> Seq<char> {
    environment_dir(context.data_root, toolset_of(kind).name, context.platform)
}

/// The path of the side-channel file of the toolset `kind` in this run.
pub open spec fn side_channel_of(kind: ToolKind, context: ContextModel) -> Seq<char> {
    joined(
        context.temp_dir,
        side_channel_name(toolset_of(kind).name, context.token),
        context.platform,
    )
}

/// The provisioning of the toolset `kind` in its own environment, with the
/// default interpreters to try.
pub open spec fn provisioning_plan(kind: ToolKind, context: ContextModel) -> PlanModel {
    PlanModel {
        toolset: toolset_of(kind),
        root: environment_root(kind, context),
        platform: context.platform,
        candidates: seq!["python3"@, "python"@],
    }
}

/// The run of the analyser of `kind` on `input`: the static analyser with a
/// side-channel file, the symbolic analyser without.
pub open spec fn invocation(kind: ToolKind, context: ContextModel, input: Seq<char>) -> PipelineActionModel {
    match kind {
        ToolKind::Slither => PipelineActionModel::Invoke {
            command: slither_command(
                input,
                environment_root(kind, context),
                context.platform,
                context.inherited_path,
                side_channel_of(kind, context),
            ),
            side_channel: Some(side_channel_of(kind, context)),
        },
        ToolKind::Mythril => PipelineActionModel::Invoke {
            command: mythril_command(
                input,
                environment_root(kind, context),
                context.platform,
                context.inherited_path,
            ),
            side_channel: None,
        },
    }
}

/// What the caller does in `state`.
pub open spec fn planned_step(kind: ToolKind, context: ContextModel, state: PipelineModel) -> PipelineActionModel {
    match state {
        PipelineModel::NotProvisioned => PipelineActionModel::CheckEnvironment(
            environment_root(kind, context),
        ),
        PipelineModel::Provisioning => PipelineActionModel::Provision(
            provisioning_plan(kind, context),
        ),
        PipelineModel::Ready => PipelineActionModel::Proceed,
        PipelineModel::Compiling => PipelineActionModel::Compile(
            compile_command(
                context.contract_path,
                environment_root(kind, context),
                context.platform,
                context.inherited_path,
            ),
        ),
        PipelineModel::Invoking { input } => invocation(kind, context, input),
        PipelineModel::Parsing { .. } => PipelineActionModel::Proceed,
        PipelineModel::Done(_) => PipelineActionModel::Finish,
        PipelineModel::Failed(_) => PipelineActionModel::Finish,
    }
}

/// The root directory of the environment of the toolset `kind`.
pub fn environment_root_path(kind: ToolKind, context: &RunContext) -> (r: String)
    ensures
        r@ == environment_root(kind, context@),
{
    match kind {
        ToolKind::Slither => environment_dir_path(
            context.data_root.as_str(),
            "slither",
            context.platform,
        ),
        ToolKind::Mythril => environment_dir_path(
            context.data_root.as_str(),
            "mythril",
            context.platform,
        ),
    }
}

/// What the caller does in `state`.
pub fn plan_action(kind: ToolKind, context: &RunContext, state: &PipelineState) -> (action:
    PipelineAction)
    ensures
        action@ == planned_step(kind, context@, state@),
{
    match state {
        PipelineState::NotProvisioned => PipelineAction::CheckEnvironment(
            environment_root_path(kind, context),
        ),
        PipelineState::Provisioning => PipelineAction::Provision(
            ProvisionPlan {
                toolset: kind.descriptor(),
                root: environment_root_path(kind, context),
                platform: context.platform,
                candidates: default_candidates(),
            },
        ),
        PipelineState::Ready => PipelineAction::Proceed,
        PipelineState::Compiling => {
            let root = environment_root_path(kind, context);
            PipelineAction::Compile(
                plan_compile(
                    context.contract_path.as_str(),
                    root.as_str(),
                    context.platform,
                    context.inherited_path.as_str(),
                ),
            )
        },
        PipelineState::Invoking { input } => {
            let root = environment_root_path(kind, context);
            match kind {
                ToolKind::Slither => {
                    let path = side_channel_path(
                        context.temp_dir.as_str(),
                        "slither",
                        context.token,
                        context.platform,
                    );
                    let command = plan_slither_analysis(
                        input.as_str(),
                        root.as_str(),
                        context.platform,
                        context.inherited_path.as_str(),
                        path.as_str(),
                    );
                    PipelineAction::Invoke { command, side_channel: Some(path) }
                },
                ToolKind::Mythril => {
                    let command = plan_mythril_analysis(
                        input.as_str(),
                        root.as_str(),
                        context.platform,
                        context.inherited_path.as_str(),
                    );
                    PipelineAction::Invoke { command, side_channel: None }
                },
            }
        },
        PipelineState::Parsing { .. } => PipelineAction::Proceed,
        PipelineState::Done(_) => PipelineAction::Finish,
        PipelineState::Failed(_) => PipelineAction::Finish,
    }
}

/// A final state stays what it is, whatever is observed afterwards: findings
/// stay findings, and a run that failed never turns into findings.
pub proof fn lemma_final_states_stay(
    kind: ToolKind,
    context: ContextModel,
    state: PipelineModel,
    event: EventModel,
    next: PipelineModel,
)
    requires
        next == following(kind, context, state, event),
        state is Done || state is Failed,
    ensures
        next == state,
{
}

/// The compiler runs only for an analyser that consumes bytecode, and only
/// from `Ready`.
pub proof fn lemma_compiling_only_for_bytecode(
    kind: ToolKind,
    context: ContextModel,
    state: PipelineModel,
    event: EventModel,
    next: PipelineModel,
)
    requires
        next == following(kind, context, state, event),
        next is Compiling,
    ensures
        needs_bytecode(kind),
        state is Ready,
        event is Proceed,
{
}

/// Findings come from the parsing phase alone, and only where the output is a
/// report: no other step ends in `Done`, so a run that failed to start, to
/// run or to parse never looks like a run that found nothing.
pub proof fn lemma_done_only_after_parsing(
    kind: ToolKind,
    context: ContextModel,
    state: PipelineModel,
    event: EventModel,
    next: PipelineModel,
)
    requires
        next == following(kind, context, state, event),
        next is Done,
        !(state is Done),
    ensures
        state is Parsing,
        event is Proceed,
        findings_reading(kind, state->payload) == Ok::<FindingSetModel, Seq<char>>(
            next->Done_0,
        ),
{
}

/// The name under which a phase appears in a diagnostic.
pub open spec fn phase_name(phase: Phase) -> Seq<char> {
    match phase {
        Phase::NotProvisioned => "readiness check"@,
        Phase::Provisioning => "provisioning"@,
        Phase::Ready => "start"@,
        Phase::Compiling => "compilation"@,
        Phase::Invoking => "invocation"@,
        Phase::Parsing => "parsing"@,
        Phase::Done => "done"@,
        Phase::Failed => "failed"@,
    }
}

/// The name under which an engine appears in a diagnostic.
pub open spec fn tool_name(kind: ToolKind) -> Seq<char> {
    match kind {
        ToolKind::Slither => "Slither"@,
        ToolKind::Mythril => "Mythril"@,
    }
}

/// What a diagnostic says of a failed provisioning: which step failed, and
/// what its subprocess wrote to standard error.
pub open spec fn provision_message(error: ProvisionErrorModel) -> Seq<char> {
    match error {
        ProvisionErrorModel::NoCompatibleRuntime => "No compatible interpreter was found."@,
        ProvisionErrorModel::ExecutableNotFound => "Executable not found after installation."@,
        ProvisionErrorModel::ProvisionStepFailed { step, stderr } => match step {
            ProvisionStep::CreateEnvironment => "Failed to create venv: "@ + stderr,
            ProvisionStep::InstallPackages => "Failed to install packages: "@ + stderr,
            ProvisionStep::InstallCompiler => "Failed to install solc: "@ + stderr,
            _ => "Provisioning failed: "@ + stderr,
        },
    }
}

/// What a diagnostic says of the reason of a failure of the engine `kind`.
/// Where a subprocess failed, its standard error is part of it.
pub open spec fn reason_message(kind: ToolKind, reason: ReasonModel) -> Seq<char> {
    match reason {
        ReasonModel::Provision(error) => provision_message(error),
        ReasonModel::EnvironmentMissing => "The environment is not installed."@,
        ReasonModel::Compile(CompileErrorModel::CompileFailed { stderr }) => "solc failed: "@
            + stderr,
        ReasonModel::Compile(CompileErrorModel::UnreadableOutput) => "Failed to read solc output."@,
        ReasonModel::Compile(CompileErrorModel::NoBytecode) =>
            "Could not find bytecode in solc output."@,
        ReasonModel::Invoke(InvokeErrorModel::InvokeFailed { stderr }) => tool_name(kind)
            + " failed: "@ + stderr,
        ReasonModel::Invoke(InvokeErrorModel::MissingOutputArtifact) => "Failed to read "@
            + tool_name(kind) + " output."@,
        ReasonModel::Parse(reason) => "Failed to parse "@ + tool_name(kind) + " output: "@ + reason,
        ReasonModel::UnexpectedEvent => "Unexpected event."@,
    }
}

/// The diagnostic of a failed run: the phase that failed, a colon, and the
/// reason.
pub open spec fn diagnostic(kind: ToolKind, failure: FailureModel) -> Seq<char> {
    phase_name(failure.phase) + ": "@ + reason_message(kind, failure.reason)
}

/// The name under which `phase` appears in a diagnostic.
pub fn phase_label(phase: Phase) -> (r: &'static str)
    ensures
        r@ == phase_name(phase),
{
    match phase {
        Phase::NotProvisioned => "readiness check",
        Phase::Provisioning => "provisioning",
        Phase::Ready => "start",
        Phase::Compiling => "compilation",
        Phase::Invoking => "invocation",
        Phase::Parsing => "parsing",
        Phase::Done => "done",
        Phase::Failed => "failed",
    }
}

/// The name under which the engine `kind` appears in a diagnostic.
pub fn tool_label(kind: ToolKind) -> (r: &'static str)
    ensures
        r@ == tool_name(kind),
{
    match kind {
        ToolKind::Slither => "Slither",
        ToolKind::Mythril => "Mythril",
    }
}

fn two(a: &str, b: &str) -> (r: String)
    ensures
        r@ == a@ + b@,
{
    let mut r = String::from_str(a);
    r.append(b);
    r
}

fn three(a: &str, b: &str, c: &str) -> (r: String)
    ensures
        r@ == a@ + b@ + c@,
{
    let mut r = String::from_str(a);
    r.append(b);
    r.append(c);
    r
}

/// Says why provisioning failed.
pub fn describe_provision_error(error: &ProvisionError) -> (r: String)
    ensures
        r@ == provision_message(error@),
{
    match error {
        ProvisionError::NoCompatibleRuntime => String::from_str(
            "No compatible interpreter was found.",
        ),
        ProvisionError::ExecutableNotFound => String::from_str(
            "Executable not found after installation.",
        ),
        ProvisionError::ProvisionStepFailed { step, stderr } => match step {
            ProvisionStep::CreateEnvironment => two("Failed to create venv: ", stderr.as_str()),
            ProvisionStep::InstallPackages => two("Failed to install packages: ", stderr.as_str()),
            ProvisionStep::InstallCompiler => two("Failed to install solc: ", stderr.as_str()),
            _ => two("Provisioning failed: ", stderr.as_str()),
        },
    }
}

/// Says which phase of the run of `kind` failed, and why.
pub fn describe_failure(kind: ToolKind, failure: &Failure) -> (r: String)
    ensures
        r@ == diagnostic(kind, failure@),
{
    let reason = match &failure.reason {
        FailureReason::Provision(error) => describe_provision_error(error),
        FailureReason::EnvironmentMissing => String::from_str("The environment is not installed."),
        FailureReason::Compile(CompileError::CompileFailed { stderr }) => two(
            "solc failed: ",
            stderr.as_str(),
        ),
        FailureReason::Compile(CompileError::UnreadableOutput) => String::from_str(
            "Failed to read solc output.",
        ),
        FailureReason::Compile(CompileError::NoBytecode) => String::from_str(
            "Could not find bytecode in solc output.",
        ),
        FailureReason::Invoke(InvokeError::InvokeFailed { stderr }) => three(
            tool_label(kind),
            " failed: ",
            stderr.as_str(),
        ),
        FailureReason::Invoke(InvokeError::MissingOutputArtifact) => three(
            "Failed to read ",
            tool_label(kind),
            " output.",
        ),
        FailureReason::Parse(ParseError::ParseFailed { reason }) => {
            let mut r = three("Failed to parse ", tool_label(kind), " output: ");
            r.append(reason.as_str());
            r
        },
        FailureReason::UnexpectedEvent => String::from_str("Unexpected event."),
    };
    three(phase_label(failure.phase), ": ", reason.as_str())
}

} // verus!
