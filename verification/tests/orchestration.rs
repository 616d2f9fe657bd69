use rerun_bootstrap::behavior::RerunBehavior;
use rerun_bootstrap::config::{
    Capabilities, ConnectDirective, IpAddress, RerunArgs, SocketAddress,
};
use rerun_bootstrap::orchestrate::{Orchestrator, RunAction, RunEvent, RunOutcome};

fn plain_args() -> RerunArgs {
    RerunArgs {
        spawn: true,
        save: None,
        connect: ConnectDirective::Absent,
        serve: false,
    }
}

fn all_caps() -> Capabilities {
    Capabilities { web_viewer: true, native_viewer: true }
}

#[test]
fn disabled_run_invokes_user_logic_once_and_builds_no_sink() {
    let mut orch = Orchestrator::new(plain_args(), all_caps());
    let mut actions = Vec::new();
    actions.push(orch.step(RunEvent::Started));
    actions.push(orch.step(RunEvent::SessionParams { enabled: false }));
    actions.push(orch.step(RunEvent::UserLogicReturned));
    assert_eq!(
        actions,
        vec![
            RunAction::BuildSessionParams,
            RunAction::InvokeUserDisabled,
            RunAction::Finish { outcome: RunOutcome::Success },
        ]
    );
    let invocations = actions
        .iter()
        .filter(|a| {
            matches!(
                a,
                RunAction::InvokeUser
                    | RunAction::InvokeUserDisabled
                    | RunAction::DelegateToNativeViewer
            )
        })
        .count();
    assert_eq!(invocations, 1);
    assert!(!actions
        .iter()
        .any(|a| matches!(a, RunAction::ConstructSink { .. } | RunAction::ConstructSession)));
}

#[test]
fn save_run_builds_the_file_sink_then_flushes_and_succeeds() {
    let args = RerunArgs {
        spawn: true,
        save: Some("/tmp/x.bin".to_string()),
        connect: ConnectDirective::Absent,
        serve: false,
    };
    let mut orch = Orchestrator::new(args, all_caps());
    assert_eq!(orch.step(RunEvent::Started), RunAction::BuildSessionParams);
    assert_eq!(
        orch.step(RunEvent::SessionParams { enabled: true }),
        RunAction::ConstructSink { behavior: RerunBehavior::Save("/tmp/x.bin".to_string()) }
    );
    assert_eq!(
        orch.step(RunEvent::SinkConstructed { ok: true }),
        RunAction::ConstructSession
    );
    assert_eq!(
        orch.step(RunEvent::SessionConstructed { ok: true }),
        RunAction::InvokeUser
    );
    assert_eq!(orch.step(RunEvent::UserLogicReturned), RunAction::RequestFlush);
    assert_eq!(
        orch.step(RunEvent::FlushIssued),
        RunAction::Finish { outcome: RunOutcome::Success }
    );
}

#[test]
fn connect_run_dials_exactly_the_given_address() {
    let explicit = SocketAddress {
        ip: IpAddress::V4 { a: 127, b: 0, c: 0, d: 1 },
        port: 9000,
    };
    let args = RerunArgs {
        spawn: true,
        save: None,
        connect: ConnectDirective::Explicit(explicit),
        serve: false,
    };
    let mut orch = Orchestrator::new(args, all_caps());
    assert_eq!(orch.step(RunEvent::Started), RunAction::BuildSessionParams);
    assert_eq!(
        orch.step(RunEvent::SessionParams { enabled: true }),
        RunAction::ConstructSink { behavior: RerunBehavior::Connect(explicit) }
    );
}

#[test]
fn serve_run_waits_for_shutdown_after_the_flush_then_succeeds() {
    let args = RerunArgs {
        spawn: true,
        save: None,
        connect: ConnectDirective::Absent,
        serve: true,
    };
    let mut orch = Orchestrator::new(args, all_caps());
    assert_eq!(orch.step(RunEvent::Started), RunAction::BuildSessionParams);
    assert_eq!(
        orch.step(RunEvent::SessionParams { enabled: true }),
        RunAction::ConstructSink { behavior: RerunBehavior::Serve }
    );
    assert_eq!(
        orch.step(RunEvent::SinkConstructed { ok: true }),
        RunAction::ConstructSession
    );
    assert_eq!(
        orch.step(RunEvent::SessionConstructed { ok: true }),
        RunAction::InvokeUser
    );
    assert_eq!(orch.step(RunEvent::UserLogicReturned), RunAction::RequestFlush);
    assert_eq!(orch.step(RunEvent::FlushIssued), RunAction::AwaitShutdown);
    assert_eq!(
        orch.step(RunEvent::ShutdownEnded { received: true }),
        RunAction::Finish { outcome: RunOutcome::Success }
    );
}

#[test]
fn serve_run_fails_when_the_signal_source_closes_first() {
    let args = RerunArgs {
        spawn: true,
        save: None,
        connect: ConnectDirective::Absent,
        serve: true,
    };
    let mut orch = Orchestrator::new(args, all_caps());
    orch.step(RunEvent::Started);
    orch.step(RunEvent::SessionParams { enabled: true });
    orch.step(RunEvent::SinkConstructed { ok: true });
    orch.step(RunEvent::SessionConstructed { ok: true });
    orch.step(RunEvent::UserLogicReturned);
    orch.step(RunEvent::FlushIssued);
    assert_eq!(
        orch.step(RunEvent::ShutdownEnded { received: false }),
        RunAction::Finish { outcome: RunOutcome::ShutdownFailure }
    );
}

#[test]
fn sink_failure_ends_the_run_before_user_logic() {
    let args = RerunArgs {
        spawn: true,
        save: Some("/no/such/dir/x.bin".to_string()),
        connect: ConnectDirective::Absent,
        serve: false,
    };
    let mut orch = Orchestrator::new(args, all_caps());
    let mut actions = Vec::new();
    actions.push(orch.step(RunEvent::Started));
    actions.push(orch.step(RunEvent::SessionParams { enabled: true }));
    actions.push(orch.step(RunEvent::SinkConstructed { ok: false }));
    assert_eq!(
        actions[2],
        RunAction::Finish { outcome: RunOutcome::SinkFailure }
    );
    assert!(!actions
        .iter()
        .any(|a| matches!(a, RunAction::InvokeUser | RunAction::InvokeUserDisabled)));
}

#[test]
fn session_failure_ends_the_run_before_user_logic() {
    let args = RerunArgs {
        spawn: true,
        save: Some("/tmp/x.bin".to_string()),
        connect: ConnectDirective::Absent,
        serve: false,
    };
    let mut orch = Orchestrator::new(args, all_caps());
    orch.step(RunEvent::Started);
    orch.step(RunEvent::SessionParams { enabled: true });
    orch.step(RunEvent::SinkConstructed { ok: true });
    assert_eq!(
        orch.step(RunEvent::SessionConstructed { ok: false }),
        RunAction::Finish { outcome: RunOutcome::SessionFailure }
    );
}

#[test]
fn unresolvable_configuration_ends_the_run_at_once() {
    let caps = Capabilities { web_viewer: false, native_viewer: false };
    let mut orch = Orchestrator::new(plain_args(), caps);
    assert_eq!(orch.step(RunEvent::Started), RunAction::BuildSessionParams);
    assert_eq!(
        orch.step(RunEvent::SessionParams { enabled: true }),
        RunAction::Finish { outcome: RunOutcome::ConfigFailure }
    );
}

#[test]
fn spawn_fallback_delegates_to_the_native_viewer() {
    let mut orch = Orchestrator::new(plain_args(), all_caps());
    assert_eq!(orch.step(RunEvent::Started), RunAction::BuildSessionParams);
    assert_eq!(
        orch.step(RunEvent::SessionParams { enabled: true }),
        RunAction::DelegateToNativeViewer
    );
    assert_eq!(
        orch.step(RunEvent::SpawnFinished { ok: true }),
        RunAction::Finish { outcome: RunOutcome::Success }
    );
}

#[test]
fn failed_delegation_surfaces_a_spawn_failure() {
    let mut orch = Orchestrator::new(plain_args(), all_caps());
    orch.step(RunEvent::Started);
    orch.step(RunEvent::SessionParams { enabled: true });
    assert_eq!(
        orch.step(RunEvent::SpawnFinished { ok: false }),
        RunAction::Finish { outcome: RunOutcome::SpawnFailure }
    );
}
