//! The environment provisioner: which steps set up the isolated environment of
//! a toolset, in which order, and what each outcome leads to.
//!
//! Provisioning alternates subprocesses and decisions. The decisions are here:
//! [`planned_action`] says what to do in a state, and [`advance`] says which
//! state an observed outcome leads to. The caller performs the action.

use vstd::prelude::*;
use vstd::string::*;
use crate::command::{
    bindings, outcome_models, Command, CommandModel, StepOutcome, StepOutcomeModel,
};
use crate::paths::{executable_path, resolve_executable_path, Platform};
use crate::text::{push_text, texts};

verus! {

/// The analysis engines that the pipeline knows.
#[derive(Clone, Copy, Debug, PartialEq, Eq, Structural)]
pub enum ToolKind {
    Slither,
    Mythril,
}

/// One analysis engine: its name, the packages that its environment needs, the
/// compiler version that it is pinned to, and the name of its executable.
#[derive(Clone, Debug, PartialEq, Eq)]
pub struct ToolsetDescriptor {
    pub name: String,
    pub packages: Vec<String>,
    pub compiler: Option<String>,
    pub executable: String,
}

/// The mathematical content of a [`ToolsetDescriptor`].
pub struct ToolsetModel {
    pub name: Seq<char>,
    pub packages: Seq<Seq<char>>,
    pub compiler: Option<Seq<char>>,
    pub executable: Seq<char>,
}

impl View for ToolsetDescriptor {
    type V = ToolsetModel;

    open spec fn view(&self) -> ToolsetModel {
        ToolsetModel {
            name: self.name@,
            packages: texts(self.packages@),
            compiler: match self.compiler {
                Some(v) => Some(v@),
                None => None,
            },
            executable: self.executable@,
        }
    }
}

/// The compiler version that both toolsets are pinned to.
pub open spec fn pinned_compiler() -> Seq<char> {
    "0.8.20"@
}

/// The compiler version that both toolsets are pinned to.
pub fn pinned_compiler_version() -> (r: String)
    ensures
        r@ == pinned_compiler(),
{
    String::from_str("0.8.20")
}

impl ToolsetDescriptor {
    /// The static analyser.
    pub fn slither() -> (t: ToolsetDescriptor)
        ensures
            t@ == (ToolsetModel {
                name: "slither"@,
                packages: seq!["slither-analyzer"@, "solc-select"@],
                compiler: Some(pinned_compiler()),
                executable: "slither"@,
            }),
    {
        let mut packages: Vec<String> = Vec::new();
        push_text(&mut packages, "slither-analyzer");
        push_text(&mut packages, "solc-select");
        assert(texts(packages@) =~= seq!["slither-analyzer"@, "solc-select"@]);
        ToolsetDescriptor {
            name: String::from_str("slither"),
            packages,
            compiler: Some(pinned_compiler_version()),
            executable: String::from_str("slither"),
        }
    }

    /// The symbolic analyser.
    pub fn mythril() -> (t: ToolsetDescriptor)
        ensures
            t@ == (ToolsetModel {
                name: "mythril"@,
                packages: seq!["mythril"@, "solc-select"@],
                compiler: Some(pinned_compiler()),
                executable: "myth"@,
            }),
    {
        let mut packages: Vec<String> = Vec::new();
        push_text(&mut packages, "mythril");
        push_text(&mut packages, "solc-select");
        assert(texts(packages@) =~= seq!["mythril"@, "solc-select"@]);
        ToolsetDescriptor {
            name: String::from_str("mythril"),
            packages,
            compiler: Some(pinned_compiler_version()),
            executable: String::from_str("myth"),
        }
    }
}

/// The toolset of each engine.
pub open spec fn toolset_of(kind: ToolKind) -> ToolsetModel {
    match kind {
        ToolKind::Slither => ToolsetModel {
            name: "slither"@,
            packages: seq!["slither-analyzer"@, "solc-select"@],
            compiler: Some(pinned_compiler()),
            executable: "slither"@,
        },
        ToolKind::Mythril => ToolsetModel {
            name: "mythril"@,
            packages: seq!["mythril"@, "solc-select"@],
            compiler: Some(pinned_compiler()),
            executable: "myth"@,
        },
    }
}

impl ToolKind {
    /// The toolset of this engine.
    pub fn descriptor(self) -> (t: ToolsetDescriptor)
        ensures
            t@ == toolset_of(self),
    {
        match self {
            ToolKind::Slither => ToolsetDescriptor::slither(),
            ToolKind::Mythril => ToolsetDescriptor::mythril(),
        }
    }
}

/// The interpreters that provisioning tries where the caller names none.
pub fn default_candidates() -> (v: Vec<String>)
    ensures
        texts(v@) == seq!["python3"@, "python"@],
{
    let mut v: Vec<String> = Vec::new();
    push_text(&mut v, "python3");
    push_text(&mut v, "python");
    assert(texts(v@) =~= seq!["python3"@, "python"@]);
    v
}

/// The path of the static analyser's executable in the environment at
/// `venv_path`.
pub fn get_slither_binary_path(venv_path: &str, platform: Platform) -> (r: String)
    ensures
        r@ == executable_path(venv_path@, "slither"@, platform),
{
    resolve_executable_path(venv_path, "slither", platform)
}

/// The steps of provisioning, in the order in which they are attempted.
#[derive(Clone, Copy, Debug, PartialEq, Eq, Structural)]
pub enum ProvisionStep {
    LocateRuntime,
    CreateEnvironment,
    UpgradePackageManager,
    InstallPackages,
    InstallCompiler,
    LocateExecutable,
}

/// Why provisioning failed.
#[derive(Clone, Debug, PartialEq, Eq)]
pub enum ProvisionError {
    /// No candidate interpreter answered the version query.
    NoCompatibleRuntime,
    /// The subprocess of `step` failed; `stderr` is what it wrote to standard error.
    ProvisionStepFailed { step: ProvisionStep, stderr: String },
    /// Every step succeeded, but the toolset's executable is not where it belongs.
    ExecutableNotFound,
}

/// The mathematical content of a [`ProvisionError`].
pub enum ProvisionErrorModel {
    NoCompatibleRuntime,
    ProvisionStepFailed { step: ProvisionStep, stderr: Seq<char> },
    ExecutableNotFound,
}

impl View for ProvisionError {
    type V = ProvisionErrorModel;

    open spec fn view(&self) -> ProvisionErrorModel {
        match self {
            ProvisionError::NoCompatibleRuntime => ProvisionErrorModel::NoCompatibleRuntime,
            ProvisionError::ProvisionStepFailed { step, stderr } =>
                ProvisionErrorModel::ProvisionStepFailed { step: *step, stderr: stderr@ },
            ProvisionError::ExecutableNotFound => ProvisionErrorModel::ExecutableNotFound,
        }
    }
}

/// An isolated environment: its root directory, and whether it is ready.
#[derive(Clone, Debug, PartialEq, Eq)]
pub struct Environment {
    pub root: String,
    pub ready: bool,
}

/// The mathematical content of an [`Environment`].
pub struct EnvironmentModel {
    pub root: Seq<char>,
    pub ready: bool,
}

impl View for Environment {
    type V = EnvironmentModel;

    open spec fn view(&self) -> EnvironmentModel {
        EnvironmentModel { root: self.root@, ready: self.ready }
    }
}

impl Environment {
    /// The environment at `root`, of which the caller observed whether the root
    /// directory exists. It is ready exactly if the directory exists.
    pub fn observed(root: String, exists: bool) -> (e: Environment)
        ensures
            e@ == (EnvironmentModel { root: root@, ready: exists }),
    {
        Environment { root, ready: exists }
    }

    /// The readiness check.
    pub fn is_ready(&self) -> (r: bool)
        ensures
            r == self@.ready,
    {
        self.ready
    }
}

/// What is provisioned, where, and with which interpreters to try, most
/// specific first.
#[derive(Clone, Debug, PartialEq, Eq)]
pub struct ProvisionPlan {
    pub toolset: ToolsetDescriptor,
    pub root: String,
    pub platform: Platform,
    pub candidates: Vec<String>,
}

/// The mathematical content of a [`ProvisionPlan`].
pub struct PlanModel {
    pub toolset: ToolsetModel,
    pub root: Seq<char>,
    pub platform: Platform,
    pub candidates: Seq<Seq<char>>,
}

impl View for ProvisionPlan {
    type V = PlanModel;

    open spec fn view(&self) -> PlanModel {
        PlanModel {
            toolset: self.toolset@,
            root: self.root@,
            platform: self.platform,
            candidates: texts(self.candidates@),
        }
    }
}

/// Where provisioning stands. Each state but the last two waits for the outcome
/// of one action.
#[derive(Clone, Debug, PartialEq, Eq)]
pub enum ProvisionState {
    /// Waiting to learn whether the environment's root directory exists.
    Checking,
    /// Waiting for the version query of the candidate with this index.
    Probing { candidate: usize },
    /// Waiting for the interpreter with this index to create the environment.
    Creating { runtime: usize },
    /// Waiting for the package manager's self-upgrade.
    Upgrading,
    /// Waiting for the batch install of the declared packages.
    Installing,
    /// Waiting for the install of the pinned compiler version.
    SelectingCompiler,
    /// Waiting to learn whether the toolset's executable exists.
    Locating,
    /// The environment is ready.
    Ready,
    /// Provisioning failed.
    Failed(ProvisionError),
}

/// The mathematical content of a [`ProvisionState`].
pub enum StateModel {
    Checking,
    Probing { candidate: nat },
    Creating { runtime: nat },
    Upgrading,
    Installing,
    SelectingCompiler,
    Locating,
    Ready,
    Failed(ProvisionErrorModel),
}

impl View for ProvisionState {
    type V = StateModel;

    open spec fn view(&self) -> StateModel {
        match self {
            ProvisionState::Checking => StateModel::Checking,
            ProvisionState::Probing { candidate } => StateModel::Probing {
                candidate: *candidate as nat,
            },
            ProvisionState::Creating { runtime } => StateModel::Creating { runtime: *runtime as nat },
            ProvisionState::Upgrading => StateModel::Upgrading,
            ProvisionState::Installing => StateModel::Installing,
            ProvisionState::SelectingCompiler => StateModel::SelectingCompiler,
            ProvisionState::Locating => StateModel::Locating,
            ProvisionState::Ready => StateModel::Ready,
            ProvisionState::Failed(e) => StateModel::Failed(e@),
        }
    }
}

/// What the caller does next.
#[derive(Clone, Debug, PartialEq, Eq)]
pub enum ProvisionAction {
    /// Report whether this path exists.
    CheckPath(String),
    /// Run this command and report how it ended.
    Run(Command),
    /// Nothing: provisioning is over.
    Nothing,
}

/// The mathematical content of a [`ProvisionAction`].
pub enum ActionModel {
    CheckPath(Seq<char>),
    Run(CommandModel),
    Nothing,
}

impl View for ProvisionAction {
    type V = ActionModel;

    open spec fn view(&self) -> ActionModel {
        match self {
            ProvisionAction::CheckPath(p) => ActionModel::CheckPath(p@),
            ProvisionAction::Run(c) => ActionModel::Run(c@),
            ProvisionAction::Nothing => ActionModel::Nothing,
        }
    }
}

/// The failure of `step` with the standard error of `outcome`.
pub open spec fn step_failed(step: ProvisionStep, outcome: StepOutcomeModel) -> StateModel {
    StateModel::Failed(ProvisionErrorModel::ProvisionStepFailed { step, stderr: outcome.stderr })
}

/// The state that follows `state` once `outcome` was observed of its action.
///
/// An existing root directory means ready, with no step run. The candidates
/// are probed in order and the first that answers creates the environment.
/// A failed step ends provisioning with its standard error, except the package
/// manager's self-upgrade, after which the batch install follows either way.
/// The compiler step is skipped where the toolset pins no version. The two
/// last states are final.
pub open spec fn next_state(plan: PlanModel, state: StateModel, outcome: StepOutcomeModel) -> StateModel {
    match state {
        StateModel::Checking => if outcome.ok {
            StateModel::Ready
        } else if plan.candidates.len() == 0 {
            StateModel::Failed(ProvisionErrorModel::NoCompatibleRuntime)
        } else {
            StateModel::Probing { candidate: 0 }
        },
        StateModel::Probing { candidate } => if candidate >= plan.candidates.len() {
            StateModel::Failed(ProvisionErrorModel::NoCompatibleRuntime)
        } else if outcome.ok {
            StateModel::Creating { runtime: candidate }
        } else if candidate + 1 < plan.candidates.len() {
            StateModel::Probing { candidate: candidate + 1 }
        } else {
            StateModel::Failed(ProvisionErrorModel::NoCompatibleRuntime)
        },
        StateModel::Creating { runtime } => if runtime >= plan.candidates.len() {
            StateModel::Failed(ProvisionErrorModel::NoCompatibleRuntime)
        } else if outcome.ok {
            StateModel::Upgrading
        } else {
            step_failed(ProvisionStep::CreateEnvironment, outcome)
        },
        StateModel::Upgrading => StateModel::Installing,
        StateModel::Installing => if !outcome.ok {
            step_failed(ProvisionStep::InstallPackages, outcome)
        } else if plan.toolset.compiler is Some {
            StateModel::SelectingCompiler
        } else {
            StateModel::Locating
        },
        StateModel::SelectingCompiler => if outcome.ok {
            StateModel::Locating
        } else {
            step_failed(ProvisionStep::InstallCompiler, outcome)
        },
        StateModel::Locating => if outcome.ok {
            StateModel::Ready
        } else {
            StateModel::Failed(ProvisionErrorModel::ExecutableNotFound)
        },
        StateModel::Ready => StateModel::Ready,
        StateModel::Failed(e) => StateModel::Failed(e),
    }
}

/// The warning that `outcome` raises in `state`: the standard error of a
/// failed self-upgrade of the package manager, which does not stop provisioning.
pub open spec fn warning_of(state: StateModel, outcome: StepOutcomeModel) -> Option<Seq<char>> {
    if state is Upgrading && !outcome.ok {
        Some(outcome.stderr)
    } else {
        None
    }
}

/// The result of one step of the provisioner.
#[derive(Clone, Debug, PartialEq, Eq)]
pub struct Transition {
    pub state: ProvisionState,
    pub warning: Option<String>,
}

/// The mathematical content of a [`Transition`].
pub struct TransitionModel {
    pub state: StateModel,
    pub warning: Option<Seq<char>>,
}

impl View for Transition {
    type V = TransitionModel;

    open spec fn view(&self) -> TransitionModel {
        TransitionModel {
            state: self.state@,
            warning: match self.warning {
                Some(w) => Some(w@),
                None => None,
            },
        }
    }
}

/// Where provisioning starts.
pub fn initial_state() -> (s: ProvisionState)
    ensures
        s@ == StateModel::Checking,
{
    ProvisionState::Checking
}

fn failed_step(step: ProvisionStep, outcome: StepOutcome) -> (s: ProvisionState)
    ensures
        s@ == step_failed(step, outcome@),
{
    ProvisionState::Failed(ProvisionError::ProvisionStepFailed { step, stderr: outcome.stderr })
}

/// Takes the provisioner from `state` to the state that `outcome` leads to.
pub fn advance(plan: &ProvisionPlan, state: ProvisionState, outcome: StepOutcome) -> (t: Transition)
    ensures
        t@ == (TransitionModel {
            state: next_state(plan@, state@, outcome@),
            warning: warning_of(state@, outcome@),
        }),
{
    let n = plan.candidates.len();
    assert(texts(plan.candidates@).len() == n);
    match state {
        ProvisionState::Checking => {
            let next = if outcome.ok {
                ProvisionState::Ready
            } else if n == 0 {
                ProvisionState::Failed(ProvisionError::NoCompatibleRuntime)
            } else {
                ProvisionState::Probing { candidate: 0 }
            };
            Transition { state: next, warning: None }
        },
        ProvisionState::Probing { candidate } => {
            let next = if candidate >= n {
                ProvisionState::Failed(ProvisionError::NoCompatibleRuntime)
            } else if outcome.ok {
                ProvisionState::Creating { runtime: candidate }
            } else if candidate + 1 < n {
                ProvisionState::Probing { candidate: candidate + 1 }
            } else {
                ProvisionState::Failed(ProvisionError::NoCompatibleRuntime)
            };
            Transition { state: next, warning: None }
        },
        ProvisionState::Creating { runtime } => {
            let next = if runtime >= n {
                ProvisionState::Failed(ProvisionError::NoCompatibleRuntime)
            } else if outcome.ok {
                ProvisionState::Upgrading
            } else {
                failed_step(ProvisionStep::CreateEnvironment, outcome)
            };
            Transition { state: next, warning: None }
        },
        ProvisionState::Upgrading => {
            let warning = if outcome.ok {
                None
            } else {
                Some(outcome.stderr)
            };
            Transition { state: ProvisionState::Installing, warning }
        },
        ProvisionState::Installing => {
            let next = if !outcome.ok {
                failed_step(ProvisionStep::InstallPackages, outcome)
            } else if plan.toolset.compiler.is_some() {
                ProvisionState::SelectingCompiler
            } else {
                ProvisionState::Locating
            };
            Transition { state: next, warning: None }
        },
        ProvisionState::SelectingCompiler => {
            let next = if outcome.ok {
                ProvisionState::Locating
            } else {
                failed_step(ProvisionStep::InstallCompiler, outcome)
            };
            Transition { state: next, warning: None }
        },
        ProvisionState::Locating => {
            let next = if outcome.ok {
                ProvisionState::Ready
            } else {
                ProvisionState::Failed(ProvisionError::ExecutableNotFound)
            };
            Transition { state: next, warning: None }
        },
        ProvisionState::Ready => Transition { state: ProvisionState::Ready, warning: None },
        ProvisionState::Failed(e) => Transition { state: ProvisionState::Failed(e), warning: None },
    }
}

/// The version query that probes the interpreter `candidate`.
pub open spec fn probe_command(candidate: Seq<char>) -> CommandModel {
    CommandModel { program: candidate, args: seq!["--version"@], env: seq![] }
}

/// The command by which the interpreter `runtime` creates the environment at `root`.
pub open spec fn create_command(runtime: Seq<char>, root: Seq<char>) -> CommandModel {
    CommandModel { program: runtime, args: seq!["-m"@, "venv"@, root], env: seq![] }
}

/// The self-upgrade of the environment's package manager.
pub open spec fn upgrade_command(root: Seq<char>, platform: Platform) -> CommandModel {
    CommandModel {
        program: executable_path(root, "pip"@, platform),
        args: seq!["install"@, "--upgrade"@, "pip"@],
        env: seq![],
    }
}

/// The one call that installs all of `packages` into the environment.
pub open spec fn install_command(
    root: Seq<char>,
    platform: Platform,
    packages: Seq<Seq<char>>,
) -> CommandModel {
    CommandModel {
        program: executable_path(root, "pip"@, platform),
        args: seq!["install"@] + packages,
        env: seq![],
    }
}

/// The call of the environment's version-selection helper that installs the
/// compiler `version`.
pub open spec fn compiler_command(
    root: Seq<char>,
    platform: Platform,
    version: Seq<char>,
) -> CommandModel {
    CommandModel {
        program: executable_path(root, "solc-select"@, platform),
        args: seq!["install"@, version],
        env: seq![],
    }
}

/// What the caller does in `state`. A state that names a candidate that the
/// plan does not hold asks for nothing.
pub open spec fn planned(plan: PlanModel, state: StateModel) -> ActionModel {
    match state {
        StateModel::Checking => ActionModel::CheckPath(plan.root),
        StateModel::Probing { candidate } => if candidate < plan.candidates.len() {
            ActionModel::Run(probe_command(plan.candidates[candidate as int]))
        } else {
            ActionModel::Nothing
        },
        StateModel::Creating { runtime } => if runtime < plan.candidates.len() {
            ActionModel::Run(create_command(plan.candidates[runtime as int], plan.root))
        } else {
            ActionModel::Nothing
        },
        StateModel::Upgrading => ActionModel::Run(upgrade_command(plan.root, plan.platform)),
        StateModel::Installing => ActionModel::Run(
            install_command(plan.root, plan.platform, plan.toolset.packages),
        ),
        StateModel::SelectingCompiler => match plan.toolset.compiler {
            Some(version) => ActionModel::Run(compiler_command(plan.root, plan.platform, version)),
            None => ActionModel::Nothing,
        },
        StateModel::Locating => ActionModel::CheckPath(
            executable_path(plan.root, plan.toolset.executable, plan.platform),
        ),
        StateModel::Ready => ActionModel::Nothing,
        StateModel::Failed(_) => ActionModel::Nothing,
    }
}

fn plain_command(program: String, args: Vec<String>) -> (c: Command)
    ensures
        c@ == (CommandModel { program: program@, args: texts(args@), env: seq![] }),
{
    let c = Command { program, args, env: Vec::new() };
    assert(bindings(c.env@) =~= seq![]);
    c
}

/// What the caller does in `state`.
pub fn planned_action(plan: &ProvisionPlan, state: &ProvisionState) -> (a: ProvisionAction)
    ensures
        a@ == planned(plan@, state@),
{
    assert(texts(plan.candidates@).len() == plan.candidates.len());
    match state {
        ProvisionState::Checking => ProvisionAction::CheckPath(plan.root.clone()),
        ProvisionState::Probing { candidate } => {
            if *candidate < plan.candidates.len() {
                let mut args: Vec<String> = Vec::new();
                push_text(&mut args, "--version");
                assert(texts(args@) =~= seq!["--version"@]);
                ProvisionAction::Run(plain_command(plan.candidates[*candidate].clone(), args))
            } else {
                ProvisionAction::Nothing
            }
        },
        ProvisionState::Creating { runtime } => {
            if *runtime < plan.candidates.len() {
                let mut args: Vec<String> = Vec::new();
                push_text(&mut args, "-m");
                push_text(&mut args, "venv");
                push_text(&mut args, plan.root.as_str());
                assert(texts(args@) =~= seq!["-m"@, "venv"@, plan.root@]);
                ProvisionAction::Run(plain_command(plan.candidates[*runtime].clone(), args))
            } else {
                ProvisionAction::Nothing
            }
        },
        ProvisionState::Upgrading => {
            let mut args: Vec<String> = Vec::new();
            push_text(&mut args, "install");
            push_text(&mut args, "--upgrade");
            push_text(&mut args, "pip");
            assert(texts(args@) =~= seq!["install"@, "--upgrade"@, "pip"@]);
            let pip = resolve_executable_path(plan.root.as_str(), "pip", plan.platform);
            ProvisionAction::Run(plain_command(pip, args))
        },
        ProvisionState::Installing => {
            let mut args: Vec<String> = Vec::new();
            push_text(&mut args, "install");
            let ghost packages = texts(plan.toolset.packages@);
            let mut i: usize = 0;
            while i < plan.toolset.packages.len()
                invariant
                    i <= plan.toolset.packages.len(),
                    packages == texts(plan.toolset.packages@),
                    texts(args@) == seq!["install"@] + packages.take(i as int),
                decreases plan.toolset.packages.len() - i,
            {
                push_text(&mut args, plan.toolset.packages[i].as_str());
                assert(packages.take(i + 1) =~= packages.take(i as int).push(packages[i as int]));
                assert(texts(args@) =~= seq!["install"@] + packages.take(i + 1));
                i += 1;
            }
            assert(packages.take(i as int) =~= packages);
            let pip = resolve_executable_path(plan.root.as_str(), "pip", plan.platform);
            ProvisionAction::Run(plain_command(pip, args))
        },
        ProvisionState::SelectingCompiler => {
            match &plan.toolset.compiler {
                Some(version) => {
                    let mut args: Vec<String> = Vec::new();
                    push_text(&mut args, "install");
                    push_text(&mut args, version.as_str());
                    assert(texts(args@) =~= seq!["install"@, version@]);
                    let helper = resolve_executable_path(
                        plan.root.as_str(),
                        "solc-select",
                        plan.platform,
                    );
                    ProvisionAction::Run(plain_command(helper, args))
                },
                None => ProvisionAction::Nothing,
            }
        },
        ProvisionState::Locating => ProvisionAction::CheckPath(
            resolve_executable_path(
                plan.root.as_str(),
                plan.toolset.executable.as_str(),
                plan.platform,
            ),
        ),
        ProvisionState::Ready => ProvisionAction::Nothing,
        ProvisionState::Failed(_) => ProvisionAction::Nothing,
    }
}

/// What provisioning came to in `state`: the ready environment, the failure,
/// or nothing yet.
pub open spec fn conclusion(plan: PlanModel, state: StateModel) -> Option<
    Result<EnvironmentModel, ProvisionErrorModel>,
> {
    match state {
        StateModel::Ready => Some(Ok(EnvironmentModel { root: plan.root, ready: true })),
        StateModel::Failed(e) => Some(Err(e)),
        _ => None,
    }
}

/// The content of what provisioning came to.
pub open spec fn conclusion_model(r: Option<Result<Environment, ProvisionError>>) -> Option<
    Result<EnvironmentModel, ProvisionErrorModel>,
> {
    match r {
        Some(Ok(environment)) => Some(Ok(environment@)),
        Some(Err(error)) => Some(Err(error@)),
        None => None,
    }
}

/// What provisioning came to in `state`.
pub fn conclude(plan: &ProvisionPlan, state: ProvisionState) -> (r: Option<
    Result<Environment, ProvisionError>,
>)
    ensures
        conclusion_model(r) == conclusion(plan@, state@),
{
    match state {
        ProvisionState::Ready => Some(Ok(Environment { root: plan.root.clone(), ready: true })),
        ProvisionState::Failed(e) => Some(Err(e)),
        _ => None,
    }
}

/// The state that the provisioner reaches from `state` when it observes
/// `outcomes` one after the other.
pub open spec fn run(plan: PlanModel, state: StateModel, outcomes: Seq<StepOutcomeModel>) -> StateModel
    decreases outcomes.len(),
{
    if outcomes.len() == 0 {
        state
    } else {
        run(plan, next_state(plan, state, outcomes[0]), outcomes.drop_first())
    }
}

/// Replays recorded `outcomes` from `state`.
pub fn replay(plan: &ProvisionPlan, state: ProvisionState, outcomes: &Vec<StepOutcome>) -> (r:
    ProvisionState)
    ensures
        r@ == run(plan@, state@, outcome_models(outcomes@)),
{
    let ghost all = outcome_models(outcomes@);
    let mut current = state;
    let mut i: usize = 0;
    assert(all.skip(0) =~= all);
    while i < outcomes.len()
        invariant
            i <= outcomes.len(),
            all == outcome_models(outcomes@),
            run(plan@, state@, all) == run(plan@, current@, all.skip(i as int)),
        decreases outcomes.len() - i,
    {
        let outcome = StepOutcome { ok: outcomes[i].ok, stderr: outcomes[i].stderr.clone() };
        assert(outcome@ == all[i as int]);
        assert(all.skip(i as int)[0] == all[i as int]);
        assert(all.skip(i as int).drop_first() =~= all.skip(i + 1));
        current = advance(plan, current, outcome).state;
        i += 1;
    }
    current
}

/// What provisioning comes to when `outcomes` are observed in order from the
/// start: the ready environment, the failure, or nothing where the outcomes
/// end before provisioning does.
pub fn ensure_ready(plan: &ProvisionPlan, outcomes: &Vec<StepOutcome>) -> (r: Option<
    Result<Environment, ProvisionError>,
>)
    ensures
        conclusion_model(r) == conclusion(
            plan@,
            run(plan@, StateModel::Checking, outcome_models(outcomes@)),
        ),
{
    conclude(plan, replay(plan, initial_state(), outcomes))
}

/// Readiness follows the root directory: the readiness check reports ready
/// exactly where the directory exists, and every run that ends in `Ready`
/// hands out an environment at the plan's root that is ready.
pub proof fn lemma_readiness(
    plan: PlanModel,
    check: StepOutcomeModel,
    outcomes: Seq<StepOutcomeModel>,
)
    ensures
        next_state(plan, StateModel::Checking, check) is Ready <==> check.ok,
        run(plan, StateModel::Checking, outcomes) is Ready ==> conclusion(
            plan,
            run(plan, StateModel::Checking, outcomes),
        ) == Some(
            Ok::<EnvironmentModel, ProvisionErrorModel>(
                EnvironmentModel { root: plan.root, ready: true },
            ),
        ),
{
}

/// A final state stays what it is, whatever is observed afterwards.
pub proof fn lemma_final_states_absorb(
    plan: PlanModel,
    state: StateModel,
    outcomes: Seq<StepOutcomeModel>,
)
    requires
        state is Ready || state is Failed,
    ensures
        run(plan, state, outcomes) == state,
    decreases outcomes.len(),
{
    if outcomes.len() > 0 {
        lemma_final_states_absorb(plan, state, outcomes.drop_first());
    }
}

/// The probe selects the first candidate that answers: if the candidates
/// from `from` up to `winner` do not answer and `winner` does, the
/// interpreter `winner` creates the environment.
pub proof fn lemma_first_responder_wins(
    plan: PlanModel,
    from: nat,
    winner: nat,
    answers: Seq<StepOutcomeModel>,
)
    requires
        from <= winner < plan.candidates.len(),
        answers.len() == winner - from + 1,
        forall|i: int| 0 <= i < winner - from ==> !answers[i].ok,
        answers[winner - from].ok,
    ensures
        run(plan, StateModel::Probing { candidate: from }, answers) == (StateModel::Creating {
            runtime: winner,
        }),
    decreases winner - from,
{
    let start = StateModel::Probing { candidate: from };
    if from == winner {
        assert(answers.drop_first().len() == 0);
        assert(run(plan, next_state(plan, start, answers[0]), answers.drop_first()) == next_state(
            plan,
            start,
            answers[0],
        ));
    } else {
        let rest = answers.drop_first();
        assert forall|i: int| 0 <= i < winner - (from + 1) implies !rest[i].ok by {
            assert(rest[i] == answers[i + 1]);
        }
        lemma_first_responder_wins(plan, from + 1, winner, rest);
    }
}

/// Where no candidate answers, provisioning fails with `NoCompatibleRuntime`.
pub proof fn lemma_no_responder_fails(plan: PlanModel, from: nat, answers: Seq<StepOutcomeModel>)
    requires
        from < plan.candidates.len(),
        answers.len() == plan.candidates.len() - from,
        forall|i: int| 0 <= i < answers.len() ==> !answers[i].ok,
    ensures
        run(plan, StateModel::Probing { candidate: from }, answers) == StateModel::Failed(
            ProvisionErrorModel::NoCompatibleRuntime,
        ),
    decreases plan.candidates.len() - from,
{
    let start = StateModel::Probing { candidate: from };
    let rest = answers.drop_first();
    if from + 1 < plan.candidates.len() {
        assert forall|i: int| 0 <= i < rest.len() implies !rest[i].ok by {
            assert(rest[i] == answers[i + 1]);
        }
        lemma_no_responder_fails(plan, from + 1, rest);
    } else {
        assert(rest.len() == 0);
        assert(run(plan, next_state(plan, start, answers[0]), rest) == next_state(
            plan,
            start,
            answers[0],
        ));
    }
}

} // verus!
