use sudoaudit::command::{Command, StepOutcome};
use sudoaudit::installer::{
    advance, conclude, default_candidates, get_slither_binary_path, initial_state, planned_action,
    replay, Environment, ProvisionAction, ProvisionError, ProvisionPlan, ProvisionState,
    ProvisionStep, ToolKind, ToolsetDescriptor,
};
use sudoaudit::paths::Platform;

fn plan_with(candidates: &[&str]) -> ProvisionPlan {
    ProvisionPlan {
        toolset: ToolsetDescriptor::slither(),
        root: "/data/slither-env".to_string(),
        platform: Platform::Posix,
        candidates: candidates.iter().map(|s| s.to_string()).collect(),
    }
}

fn ok() -> StepOutcome {
    StepOutcome { ok: true, stderr: String::new() }
}

fn bad(stderr: &str) -> StepOutcome {
    StepOutcome { ok: false, stderr: stderr.to_string() }
}

fn run(program: &str, args: &[&str]) -> ProvisionAction {
    ProvisionAction::Run(Command {
        program: program.to_string(),
        args: args.iter().map(|s| s.to_string()).collect(),
        env: vec![],
    })
}

#[test]
fn slither_binary_path_depends_on_the_platform() {
    assert_eq!(get_slither_binary_path("/v", Platform::Posix), "/v/bin/slither");
    assert_eq!(get_slither_binary_path("C:\\v", Platform::Windows), "C:\\v\\Scripts\\slither.exe");
}

#[test]
fn toolsets_are_pinned_to_one_compiler() {
    let s = ToolKind::Slither.descriptor();
    assert_eq!(s.name, "slither");
    assert_eq!(s.packages, vec!["slither-analyzer".to_string(), "solc-select".to_string()]);
    assert_eq!(s.compiler, Some("0.8.20".to_string()));
    assert_eq!(s.executable, "slither");
    let m = ToolKind::Mythril.descriptor();
    assert_eq!(m.name, "mythril");
    assert_eq!(m.packages, vec!["mythril".to_string(), "solc-select".to_string()]);
    assert_eq!(m.compiler, Some("0.8.20".to_string()));
    assert_eq!(m.executable, "myth");
    assert_eq!(default_candidates(), vec!["python3".to_string(), "python".to_string()]);
}

#[test]
fn absent_directory_is_not_ready_and_a_successful_run_is() {
    for kind in [ToolKind::Slither, ToolKind::Mythril] {
        let plan = ProvisionPlan {
            toolset: kind.descriptor(),
            root: "/data/env".to_string(),
            platform: Platform::Posix,
            candidates: default_candidates(),
        };
        assert!(!Environment::observed("/data/env".to_string(), false).is_ready());
        assert!(Environment::observed("/data/env".to_string(), true).is_ready());
        let first = advance(&plan, initial_state(), bad("")).state;
        assert_eq!(first, ProvisionState::Probing { candidate: 0 });
        assert_eq!(conclude(&plan, first), None);
        let end = replay(&plan, initial_state(), &vec![bad(""), ok(), ok(), ok(), ok(), ok(), ok()]);
        assert_eq!(end, ProvisionState::Ready);
        let env = conclude(&plan, end).unwrap().unwrap();
        assert!(env.is_ready());
        assert_eq!(env.root, "/data/env");
    }
}

#[test]
fn existing_directory_is_ready_without_any_step() {
    let plan = plan_with(&["python3", "python"]);
    assert_eq!(planned_action(&plan, &initial_state()), ProvisionAction::CheckPath("/data/slither-env".to_string()));
    let t = advance(&plan, initial_state(), ok());
    assert_eq!(t.state, ProvisionState::Ready);
    assert_eq!(t.warning, None);
    assert_eq!(planned_action(&plan, &t.state), ProvisionAction::Nothing);
}

#[test]
fn probe_selects_the_first_candidate_that_responds() {
    let plan = plan_with(&["v-A", "v-B", "generic"]);
    let state = replay(&plan, ProvisionState::Probing { candidate: 0 }, &vec![bad(""), bad(""), ok()]);
    assert_eq!(state, ProvisionState::Creating { runtime: 2 });
    assert_eq!(planned_action(&plan, &state), run("generic", &["-m", "venv", "/data/slither-env"]));
    let first = replay(&plan, ProvisionState::Probing { candidate: 0 }, &vec![ok()]);
    assert_eq!(first, ProvisionState::Creating { runtime: 0 });
}

#[test]
fn probe_without_any_response_finds_no_runtime() {
    let plan = plan_with(&["v-A", "v-B", "generic"]);
    let state = replay(&plan, ProvisionState::Probing { candidate: 0 }, &vec![bad(""), bad(""), bad("")]);
    assert_eq!(state, ProvisionState::Failed(ProvisionError::NoCompatibleRuntime));
    assert_eq!(conclude(&plan, state), Some(Err(ProvisionError::NoCompatibleRuntime)));
    let none = plan_with(&[]);
    assert_eq!(
        advance(&none, initial_state(), bad("")).state,
        ProvisionState::Failed(ProvisionError::NoCompatibleRuntime)
    );
}

#[test]
fn each_state_plans_its_command() {
    let plan = plan_with(&["python3", "python"]);
    assert_eq!(planned_action(&plan, &ProvisionState::Probing { candidate: 0 }), run("python3", &["--version"]));
    assert_eq!(planned_action(&plan, &ProvisionState::Probing { candidate: 1 }), run("python", &["--version"]));
    assert_eq!(planned_action(&plan, &ProvisionState::Probing { candidate: 2 }), ProvisionAction::Nothing);
    assert_eq!(
        planned_action(&plan, &ProvisionState::Creating { runtime: 1 }),
        run("python", &["-m", "venv", "/data/slither-env"])
    );
    assert_eq!(
        planned_action(&plan, &ProvisionState::Upgrading),
        run("/data/slither-env/bin/pip", &["install", "--upgrade", "pip"])
    );
    assert_eq!(
        planned_action(&plan, &ProvisionState::Installing),
        run("/data/slither-env/bin/pip", &["install", "slither-analyzer", "solc-select"])
    );
    assert_eq!(
        planned_action(&plan, &ProvisionState::SelectingCompiler),
        run("/data/slither-env/bin/solc-select", &["install", "0.8.20"])
    );
    assert_eq!(
        planned_action(&plan, &ProvisionState::Locating),
        ProvisionAction::CheckPath("/data/slither-env/bin/slither".to_string())
    );
    assert_eq!(
        planned_action(&plan, &ProvisionState::Failed(ProvisionError::ExecutableNotFound)),
        ProvisionAction::Nothing
    );
}

#[test]
fn failed_self_upgrade_is_a_warning_only() {
    let plan = plan_with(&["python3"]);
    let t = advance(&plan, ProvisionState::Upgrading, bad("pip is too old"));
    assert_eq!(t.state, ProvisionState::Installing);
    assert_eq!(t.warning, Some("pip is too old".to_string()));
    let t = advance(&plan, ProvisionState::Upgrading, ok());
    assert_eq!(t.state, ProvisionState::Installing);
    assert_eq!(t.warning, None);
}

#[test]
fn hard_failures_carry_the_standard_error() {
    let plan = plan_with(&["python3"]);
    assert_eq!(
        advance(&plan, ProvisionState::Creating { runtime: 0 }, bad("no venv module")).state,
        ProvisionState::Failed(ProvisionError::ProvisionStepFailed {
            step: ProvisionStep::CreateEnvironment,
            stderr: "no venv module".to_string(),
        })
    );
    assert_eq!(
        advance(&plan, ProvisionState::Installing, bad("network down")).state,
        ProvisionState::Failed(ProvisionError::ProvisionStepFailed {
            step: ProvisionStep::InstallPackages,
            stderr: "network down".to_string(),
        })
    );
    assert_eq!(
        advance(&plan, ProvisionState::SelectingCompiler, bad("unknown version")).state,
        ProvisionState::Failed(ProvisionError::ProvisionStepFailed {
            step: ProvisionStep::InstallCompiler,
            stderr: "unknown version".to_string(),
        })
    );
    assert_eq!(
        advance(&plan, ProvisionState::Locating, bad("")).state,
        ProvisionState::Failed(ProvisionError::ExecutableNotFound)
    );
}

#[test]
fn chain_fails_fast_and_stays_failed() {
    let plan = plan_with(&["python3"]);
    let end = replay(
        &plan,
        initial_state(),
        &vec![bad(""), ok(), ok(), bad("warn"), bad("boom"), ok(), ok(), ok()],
    );
    assert_eq!(
        end,
        ProvisionState::Failed(ProvisionError::ProvisionStepFailed {
            step: ProvisionStep::InstallPackages,
            stderr: "boom".to_string(),
        })
    );
}

#[test]
fn compiler_step_is_skipped_without_a_pinned_version() {
    let mut plan = plan_with(&["python3"]);
    plan.toolset.compiler = None;
    assert_eq!(advance(&plan, ProvisionState::Installing, ok()).state, ProvisionState::Locating);
    assert_eq!(planned_action(&plan, &ProvisionState::SelectingCompiler), ProvisionAction::Nothing);
    let pinned = plan_with(&["python3"]);
    assert_eq!(advance(&pinned, ProvisionState::Installing, ok()).state, ProvisionState::SelectingCompiler);
    assert_eq!(advance(&pinned, ProvisionState::SelectingCompiler, ok()).state, ProvisionState::Locating);
    assert_eq!(advance(&pinned, ProvisionState::Locating, ok()).state, ProvisionState::Ready);
}

#[test]
fn windows_environment_uses_scripts() {
    let plan = ProvisionPlan {
        toolset: ToolsetDescriptor::mythril(),
        root: "C:\\data\\mythril-env".to_string(),
        platform: Platform::Windows,
        candidates: default_candidates(),
    };
    assert_eq!(
        planned_action(&plan, &ProvisionState::Installing),
        run("C:\\data\\mythril-env\\Scripts\\pip.exe", &["install", "mythril", "solc-select"])
    );
    assert_eq!(
        planned_action(&plan, &ProvisionState::Locating),
        ProvisionAction::CheckPath("C:\\data\\mythril-env\\Scripts\\myth.exe".to_string())
    );
}
