use sudoaudit::analyzer::{ArtifactRecord, InvocationResult, InvokeError};
use sudoaudit::command::{Command, ProcessOutput};
use sudoaudit::compiler::CompileError;
use sudoaudit::installer::{
    default_candidates, Environment, ProvisionError, ProvisionStep, ToolKind,
};
use sudoaudit::paths::Platform;
use sudoaudit::pipeline::{
    advance, consumes_bytecode, describe_failure, describe_provision_error, environment_root_path,
    phase_label, plan_action, start, tool_label, Failure, FailureReason, Phase, PipelineAction,
    PipelineEvent, PipelineState, RunContext,
};
use sudoaudit::serialize::{Finding, FindingSet, ParseError};

fn context() -> RunContext {
    RunContext {
        contract_path: "Token.sol".to_string(),
        data_root: "/home/u/.sudoaudit".to_string(),
        temp_dir: "/tmp".to_string(),
        inherited_path: "/usr/bin".to_string(),
        platform: Platform::Posix,
        token: 77,
    }
}

fn invoked(code: Option<i32>, stdout: &str, stderr: &str, artifact: Option<(u64, &str)>) -> PipelineEvent {
    PipelineEvent::Invoked(InvocationResult {
        stdout: stdout.as_bytes().to_vec(),
        stderr: stderr.as_bytes().to_vec(),
        exit_code: code,
        artifact: artifact.map(|(length, text)| ArtifactRecord { length, contents: Some(text.to_string()) }),
    })
}

fn failed(phase: Phase, reason: FailureReason) -> PipelineState {
    PipelineState::Failed(Failure { phase, reason })
}

#[test]
fn slither_runs_from_source_to_findings() {
    let ctx = context();
    let kind = ToolKind::Slither;
    let mut state = start();
    assert_eq!(state.phase(), Phase::NotProvisioned);
    assert_eq!(
        plan_action(kind, &ctx, &state),
        PipelineAction::CheckEnvironment("/home/u/.sudoaudit/slither-env".to_string())
    );
    state = advance(kind, &ctx, state, PipelineEvent::EnvironmentChecked { ready: true });
    assert_eq!(state, PipelineState::Ready);
    assert_eq!(plan_action(kind, &ctx, &state), PipelineAction::Proceed);
    state = advance(kind, &ctx, state, PipelineEvent::Proceed);
    assert_eq!(state, PipelineState::Invoking { input: "Token.sol".to_string() });
    assert_eq!(
        plan_action(kind, &ctx, &state),
        PipelineAction::Invoke {
            command: Command {
                program: "/home/u/.sudoaudit/slither-env/bin/slither".to_string(),
                args: vec![
                    "Token.sol".to_string(),
                    "--json".to_string(),
                    "/tmp/slither-out-77.json".to_string(),
                    "--solc-solcs-select".to_string(),
                    "0.8.20".to_string(),
                ],
                env: vec![("PATH".to_string(), "/home/u/.sudoaudit/slither-env/bin:/usr/bin".to_string())],
            },
            side_channel: Some("/tmp/slither-out-77.json".to_string()),
        }
    );
    let json = "{\"success\":true,\"results\":{\"detectors\":[{\"check\":\"reentrancy\",\"impact\":\"High\",\"confidence\":\"Medium\",\"description\":\"...\"}]}}";
    state = advance(kind, &ctx, state, invoked(Some(1), "", "", Some((json.len() as u64, json))));
    assert_eq!(state, PipelineState::Parsing { payload: json.to_string() });
    assert_eq!(plan_action(kind, &ctx, &state), PipelineAction::Proceed);
    state = advance(kind, &ctx, state, PipelineEvent::Proceed);
    let expected = FindingSet {
        success: true,
        findings: vec![Finding {
            severity: "High".to_string(),
            confidence: Some("Medium".to_string()),
            title: "reentrancy".to_string(),
            description: "...".to_string(),
        }],
    };
    assert_eq!(state, PipelineState::Done(expected.clone()));
    assert_eq!(state.phase(), Phase::Done);
    assert_eq!(plan_action(kind, &ctx, &state), PipelineAction::Finish);
    state = advance(kind, &ctx, state, PipelineEvent::Proceed);
    assert_eq!(state, PipelineState::Done(expected));
}

#[test]
fn mythril_compiles_before_it_runs() {
    let ctx = context();
    let kind = ToolKind::Mythril;
    assert!(consumes_bytecode(kind));
    assert!(!consumes_bytecode(ToolKind::Slither));
    let mut state = advance(kind, &ctx, start(), PipelineEvent::EnvironmentChecked { ready: false });
    assert_eq!(state, PipelineState::Provisioning);
    match plan_action(kind, &ctx, &state) {
        PipelineAction::Provision(plan) => {
            assert_eq!(plan.toolset, kind.descriptor());
            assert_eq!(plan.root, "/home/u/.sudoaudit/mythril-env");
            assert_eq!(plan.platform, Platform::Posix);
            assert_eq!(plan.candidates, default_candidates());
        }
        other => panic!("unexpected action {:?}", other),
    }
    state = advance(
        kind,
        &ctx,
        state,
        PipelineEvent::Provisioned(Ok(Environment { root: "/home/u/.sudoaudit/mythril-env".to_string(), ready: true })),
    );
    assert_eq!(state, PipelineState::Ready);
    state = advance(kind, &ctx, state, PipelineEvent::Proceed);
    assert_eq!(state, PipelineState::Compiling);
    assert_eq!(
        plan_action(kind, &ctx, &state),
        PipelineAction::Compile(Command {
            program: "/home/u/.sudoaudit/mythril-env/bin/solc".to_string(),
            args: vec!["--bin".to_string(), "--optimize".to_string(), "Token.sol".to_string()],
            env: vec![
                ("PATH".to_string(), "/home/u/.sudoaudit/mythril-env/bin:/usr/bin".to_string()),
                ("SOLC_VERSION".to_string(), "0.8.20".to_string()),
            ],
        })
    );
    state = advance(
        kind,
        &ctx,
        state,
        PipelineEvent::Compiled(ProcessOutput { exit_code: Some(0), stdout: b"Binary:\n6080\n".to_vec(), stderr: vec![] }),
    );
    assert_eq!(state, PipelineState::Invoking { input: "6080".to_string() });
    assert_eq!(
        plan_action(kind, &ctx, &state),
        PipelineAction::Invoke {
            command: Command {
                program: "/home/u/.sudoaudit/mythril-env/bin/myth".to_string(),
                args: vec!["analyze".to_string(), "-c".to_string(), "6080".to_string(), "-o".to_string(), "json".to_string()],
                env: vec![("PATH".to_string(), "/home/u/.sudoaudit/mythril-env/bin:/usr/bin".to_string())],
            },
            side_channel: None,
        }
    );
    state = advance(kind, &ctx, state, invoked(Some(1), "{\"success\":true,\"issues\":null}", "1 issues were found", None));
    assert_eq!(state, PipelineState::Parsing { payload: "{\"success\":true,\"issues\":null}".to_string() });
    state = advance(kind, &ctx, state, PipelineEvent::Proceed);
    assert_eq!(state, PipelineState::Done(FindingSet { success: true, findings: vec![] }));
}

#[test]
fn each_phase_fails_with_its_own_reason() {
    let ctx = context();
    let kind = ToolKind::Mythril;
    assert_eq!(
        advance(kind, &ctx, PipelineState::Provisioning, PipelineEvent::Provisioned(Err(ProvisionError::NoCompatibleRuntime))),
        failed(Phase::Provisioning, FailureReason::Provision(ProvisionError::NoCompatibleRuntime))
    );
    assert_eq!(
        advance(
            kind,
            &ctx,
            PipelineState::Provisioning,
            PipelineEvent::Provisioned(Ok(Environment { root: "/x".to_string(), ready: false }))
        ),
        failed(Phase::Provisioning, FailureReason::EnvironmentMissing)
    );
    assert_eq!(
        advance(
            kind,
            &ctx,
            PipelineState::Compiling,
            PipelineEvent::Compiled(ProcessOutput { exit_code: Some(1), stdout: vec![], stderr: b"syntax".to_vec() })
        ),
        failed(Phase::Compiling, FailureReason::Compile(CompileError::CompileFailed { stderr: "syntax".to_string() }))
    );
    assert_eq!(
        advance(kind, &ctx, PipelineState::Invoking { input: "6080".to_string() }, invoked(Some(2), "{}", "crash", None)),
        failed(Phase::Invoking, FailureReason::Invoke(InvokeError::InvokeFailed { stderr: "crash".to_string() }))
    );
    assert_eq!(
        advance(kind, &ctx, PipelineState::Parsing { payload: "{\"issues\":[]}".to_string() }, PipelineEvent::Proceed),
        failed(
            Phase::Parsing,
            FailureReason::Parse(ParseError::ParseFailed { reason: "missing field `success`".to_string() })
        )
    );
    match advance(kind, &ctx, PipelineState::Parsing { payload: "{".to_string() }, PipelineEvent::Proceed) {
        PipelineState::Failed(Failure { phase: Phase::Parsing, reason: FailureReason::Parse(_) }) => {}
        other => panic!("unexpected state {:?}", other),
    }
}

#[test]
fn slither_without_side_channel_fails_the_invocation() {
    let ctx = context();
    let state = advance(
        ToolKind::Slither,
        &ctx,
        PipelineState::Invoking { input: "Token.sol".to_string() },
        invoked(Some(0), "{\"success\":true,\"results\":{}}", "no file", None),
    );
    assert_eq!(
        state,
        failed(Phase::Invoking, FailureReason::Invoke(InvokeError::InvokeFailed { stderr: "no file".to_string() }))
    );
}

#[test]
fn unexpected_event_fails_the_phase_and_failure_stays() {
    let ctx = context();
    let kind = ToolKind::Slither;
    let state = advance(kind, &ctx, start(), PipelineEvent::Proceed);
    assert_eq!(state, failed(Phase::NotProvisioned, FailureReason::UnexpectedEvent));
    assert_eq!(state.phase(), Phase::Failed);
    assert_eq!(plan_action(kind, &ctx, &state), PipelineAction::Finish);
    let after = advance(kind, &ctx, state, PipelineEvent::EnvironmentChecked { ready: true });
    assert_eq!(after, failed(Phase::NotProvisioned, FailureReason::UnexpectedEvent));
    assert_eq!(
        advance(kind, &ctx, PipelineState::Ready, PipelineEvent::EnvironmentChecked { ready: true }),
        failed(Phase::Ready, FailureReason::UnexpectedEvent)
    );
}

#[test]
fn environments_are_separate_for_each_toolset() {
    let ctx = context();
    assert_eq!(environment_root_path(ToolKind::Slither, &ctx), "/home/u/.sudoaudit/slither-env");
    assert_eq!(environment_root_path(ToolKind::Mythril, &ctx), "/home/u/.sudoaudit/mythril-env");
}

#[test]
fn diagnostics_name_the_phase_and_carry_the_standard_error() {
    let f = |phase, reason| Failure { phase, reason };
    assert_eq!(
        describe_failure(
            ToolKind::Slither,
            &f(Phase::Invoking, FailureReason::Invoke(InvokeError::InvokeFailed { stderr: "boom".to_string() }))
        ),
        "invocation: Slither failed: boom"
    );
    assert_eq!(
        describe_failure(ToolKind::Mythril, &f(Phase::Invoking, FailureReason::Invoke(InvokeError::MissingOutputArtifact))),
        "invocation: Failed to read Mythril output."
    );
    assert_eq!(
        describe_failure(
            ToolKind::Mythril,
            &f(Phase::Compiling, FailureReason::Compile(CompileError::CompileFailed { stderr: "E1".to_string() }))
        ),
        "compilation: solc failed: E1"
    );
    assert_eq!(
        describe_failure(ToolKind::Mythril, &f(Phase::Compiling, FailureReason::Compile(CompileError::NoBytecode))),
        "compilation: Could not find bytecode in solc output."
    );
    assert_eq!(
        describe_failure(ToolKind::Mythril, &f(Phase::Compiling, FailureReason::Compile(CompileError::UnreadableOutput))),
        "compilation: Failed to read solc output."
    );
    assert_eq!(
        describe_failure(
            ToolKind::Slither,
            &f(Phase::Parsing, FailureReason::Parse(ParseError::ParseFailed { reason: "missing field `success`".to_string() }))
        ),
        "parsing: Failed to parse Slither output: missing field `success`"
    );
    assert_eq!(
        describe_failure(ToolKind::Slither, &f(Phase::Provisioning, FailureReason::EnvironmentMissing)),
        "provisioning: The environment is not installed."
    );
    assert_eq!(
        describe_failure(ToolKind::Slither, &f(Phase::Ready, FailureReason::UnexpectedEvent)),
        "start: Unexpected event."
    );
    assert_eq!(
        describe_failure(
            ToolKind::Slither,
            &f(Phase::Provisioning, FailureReason::Provision(ProvisionError::ExecutableNotFound))
        ),
        "provisioning: Executable not found after installation."
    );
    let step = |step, stderr: &str| ProvisionError::ProvisionStepFailed { step, stderr: stderr.to_string() };
    assert_eq!(describe_provision_error(&ProvisionError::NoCompatibleRuntime), "No compatible interpreter was found.");
    assert_eq!(describe_provision_error(&step(ProvisionStep::CreateEnvironment, "a")), "Failed to create venv: a");
    assert_eq!(describe_provision_error(&step(ProvisionStep::InstallPackages, "b")), "Failed to install packages: b");
    assert_eq!(describe_provision_error(&step(ProvisionStep::InstallCompiler, "c")), "Failed to install solc: c");
    assert_eq!(describe_provision_error(&step(ProvisionStep::LocateRuntime, "d")), "Provisioning failed: d");
    assert_eq!(phase_label(Phase::NotProvisioned), "readiness check");
    assert_eq!(phase_label(Phase::Done), "done");
    assert_eq!(phase_label(Phase::Failed), "failed");
    assert_eq!(tool_label(ToolKind::Slither), "Slither");
}
