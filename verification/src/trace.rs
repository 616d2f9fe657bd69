//! Laws about whole runs: what any sequence of accepted events can make the
//! orchestrator do.
//!
//! A run is a sequence of events fed to the step function from a starting
//! phase. The lemmas here state the run-level guarantees: the caller's
//! logic is invoked exactly once on every successful run and never on an
//! early failure, a disabled run never requests a sink, the pipeline stages
//! occur in their fixed order, and the shutdown wait is the last action
//! before the final report.

use vstd::prelude::*;
use crate::config::{Capabilities, RerunArgs};
use crate::orchestrate::{RunAction, RunEvent, RunOutcome, RunPhase, spec_step};

verus! {

/// Whether every event of the sequence is accepted in turn, starting from
/// this phase.
pub open spec fn trace_ok(
    args: RerunArgs,
    caps: Capabilities,
    phase: RunPhase,
    events: Seq<RunEvent>,
) -> bool
    decreases events.len(),
{
    if events.len() == 0 {
        true
    } else {
        match spec_step(args, caps, phase, events[0]) {
            Some(step) => trace_ok(args, caps, step.0, events.drop_first()),
            None => false,
        }
    }
}

/// The phase reached after feeding the whole sequence of events.
pub open spec fn trace_end(
    args: RerunArgs,
    caps: Capabilities,
    phase: RunPhase,
    events: Seq<RunEvent>,
) -> RunPhase
    decreases events.len(),
{
    if events.len() == 0 {
        phase
    } else {
        match spec_step(args, caps, phase, events[0]) {
            Some(step) => trace_end(args, caps, step.0, events.drop_first()),
            None => phase,
        }
    }
}

/// The actions the orchestrator prescribes along the sequence of events.
pub open spec fn trace_actions(
    args: RerunArgs,
    caps: Capabilities,
    phase: RunPhase,
    events: Seq<RunEvent>,
) -> Seq<RunAction>
    decreases events.len(),
{
    if events.len() == 0 {
        Seq::empty()
    } else {
        match spec_step(args, caps, phase, events[0]) {
            Some(step) => seq![step.1] + trace_actions(args, caps, step.0, events.drop_first()),
            None => Seq::empty(),
        }
    }
}

/// Whether this action hands the caller's logic its one invocation — with a
/// live handle, with the disabled handle, or by delegating the invocation to
/// the local-viewer launcher.
pub open spec fn is_user_invocation(action: RunAction) -> bool {
    ||| action is InvokeUser
    ||| action is InvokeUserDisabled
    ||| action is DelegateToNativeViewer
}

/// How many actions of the sequence invoke the caller's logic.
pub open spec fn invocation_count(actions: Seq<RunAction>) -> int
    decreases actions.len(),
{
    if actions.len() == 0 {
        0
    } else {
        (if is_user_invocation(actions[0]) {
            1int
        } else {
            0int
        }) + invocation_count(actions.drop_first())
    }
}

/// How many invocations of the caller's logic a run has prescribed by the
/// time it reaches this phase.
pub open spec fn invocations_before(phase: RunPhase) -> int {
    match phase {
        RunPhase::Idle => 0,
        RunPhase::ResolvingSession => 0,
        RunPhase::ConstructingSink { .. } => 0,
        RunPhase::ConstructingSession { .. } => 0,
        RunPhase::RunningUser { .. } => 1,
        RunPhase::Flushing { .. } => 1,
        RunPhase::AwaitingShutdown => 1,
        RunPhase::Delegated => 1,
        RunPhase::Done { outcome } => match outcome {
            RunOutcome::Success => 1,
            RunOutcome::SpawnFailure => 1,
            RunOutcome::ShutdownFailure => 1,
            RunOutcome::ConfigFailure => 0,
            RunOutcome::SinkFailure => 0,
            RunOutcome::SessionFailure => 0,
        },
    }
}

/// Where a phase stands in the fixed stage order of a run.
pub open spec fn phase_rank(phase: RunPhase) -> int {
    match phase {
        RunPhase::Idle => 0,
        RunPhase::ResolvingSession => 1,
        RunPhase::ConstructingSink { .. } => 2,
        RunPhase::ConstructingSession { .. } => 3,
        RunPhase::RunningUser { .. } => 4,
        RunPhase::Flushing { .. } => 5,
        RunPhase::AwaitingShutdown => 6,
        RunPhase::Delegated => 6,
        RunPhase::Done { .. } => 7,
    }
}

/// Where an action stands in the fixed stage order of a run: the rank of
/// the phase it leads into.
pub open spec fn action_rank(action: RunAction) -> int {
    match action {
        RunAction::BuildSessionParams => 1,
        RunAction::ConstructSink { .. } => 2,
        RunAction::ConstructSession => 3,
        RunAction::InvokeUserDisabled => 4,
        RunAction::InvokeUser => 4,
        RunAction::RequestFlush => 5,
        RunAction::AwaitShutdown => 6,
        RunAction::DelegateToNativeViewer => 6,
        RunAction::Finish { .. } => 7,
    }
}

/// Each accepted step moves strictly forward in the stage order, its action
/// sits exactly at the rank of the phase it enters, and the step adds one
/// invocation of the caller's logic exactly when its action is one.
proof fn lemma_step_bookkeeping(
    args: RerunArgs,
    caps: Capabilities,
    phase: RunPhase,
    event: RunEvent,
)
    requires
        spec_step(args, caps, phase, event) is Some,
    ensures
        ({
            let step = spec_step(args, caps, phase, event)->0;
            &&& phase_rank(phase) < phase_rank(step.0)
            &&& action_rank(step.1) == phase_rank(step.0)
            &&& invocations_before(step.0) == invocations_before(phase) + (
            if is_user_invocation(step.1) {
                1int
            } else {
                0int
            })
        }),
{
}

/// Once a run is done, no further event is accepted.
pub proof fn lemma_done_is_final(
    args: RerunArgs,
    caps: Capabilities,
    outcome: RunOutcome,
    events: Seq<RunEvent>,
)
    requires
        trace_ok(args, caps, RunPhase::Done { outcome }, events),
    ensures
        events.len() == 0,
{
}

/// Accounting for a whole run: the number of invocations of the caller's
/// logic prescribed along the way is exactly what the final phase owes over
/// the starting one.
pub proof fn lemma_trace_invocation_count(
    args: RerunArgs,
    caps: Capabilities,
    phase: RunPhase,
    events: Seq<RunEvent>,
)
    requires
        trace_ok(args, caps, phase, events),
    ensures
        invocation_count(trace_actions(args, caps, phase, events)) == invocations_before(
            trace_end(args, caps, phase, events),
        ) - invocations_before(phase),
    decreases events.len(),
{
    if events.len() == 0 {
    } else {
        let step = spec_step(args, caps, phase, events[0])->0;
        let rest = events.drop_first();
        lemma_step_bookkeeping(args, caps, phase, events[0]);
        lemma_trace_invocation_count(args, caps, step.0, rest);
        let actions = trace_actions(args, caps, phase, events);
        let rest_actions = trace_actions(args, caps, step.0, rest);
        assert(actions == seq![step.1] + rest_actions);
        assert(actions[0] == step.1);
        assert(actions.drop_first() =~= rest_actions);
    }
}

/// Every action prescribed from a phase stands strictly later in the stage
/// order than that phase.
pub proof fn lemma_actions_outrank_phase(
    args: RerunArgs,
    caps: Capabilities,
    phase: RunPhase,
    events: Seq<RunEvent>,
)
    requires
        trace_ok(args, caps, phase, events),
    ensures
        forall|i: int|
            0 <= i < trace_actions(args, caps, phase, events).len() ==> phase_rank(phase)
                < action_rank(#[trigger] trace_actions(args, caps, phase, events)[i]),
    decreases events.len(),
{
    if events.len() == 0 {
    } else {
        let step = spec_step(args, caps, phase, events[0])->0;
        let rest = events.drop_first();
        lemma_step_bookkeeping(args, caps, phase, events[0]);
        lemma_actions_outrank_phase(args, caps, step.0, rest);
        let actions = trace_actions(args, caps, phase, events);
        let rest_actions = trace_actions(args, caps, step.0, rest);
        assert forall|i: int| 0 <= i < actions.len() implies phase_rank(phase) < action_rank(
            actions[i],
        ) by {
            if i > 0 {
                assert(actions[i] == rest_actions[i - 1]);
            }
        }
    }
}

/// The actions of any accepted run occur in strictly increasing stage
/// order: session parameters, sink, session, the caller's logic, the flush,
/// the shutdown wait or the delegation, and the final report — so no stage
/// is ever repeated or reordered.
pub proof fn lemma_actions_in_stage_order(
    args: RerunArgs,
    caps: Capabilities,
    phase: RunPhase,
    events: Seq<RunEvent>,
    i: int,
    j: int,
)
    requires
        trace_ok(args, caps, phase, events),
        0 <= i < j < trace_actions(args, caps, phase, events).len(),
    ensures
        action_rank(trace_actions(args, caps, phase, events)[i]) < action_rank(
            trace_actions(args, caps, phase, events)[j],
        ),
    decreases events.len(),
{
    let step = spec_step(args, caps, phase, events[0])->0;
    let rest = events.drop_first();
    let actions = trace_actions(args, caps, phase, events);
    let rest_actions = trace_actions(args, caps, step.0, rest);
    lemma_step_bookkeeping(args, caps, phase, events[0]);
    if i == 0 {
        lemma_actions_outrank_phase(args, caps, step.0, rest);
        assert(actions[j] == rest_actions[j - 1]);
    } else {
        lemma_actions_in_stage_order(args, caps, step.0, rest, i - 1, j - 1);
        assert(actions[i] == rest_actions[i - 1]);
        assert(actions[j] == rest_actions[j - 1]);
    }
}

/// Any complete run that ends successfully has invoked the caller's logic
/// exactly once, whichever path — disabled short-circuit, sink pipeline, or
/// delegation — it took.
pub proof fn lemma_user_logic_runs_once_on_success(
    args: RerunArgs,
    caps: Capabilities,
    events: Seq<RunEvent>,
)
    requires
        trace_ok(args, caps, RunPhase::Idle, events),
        trace_end(args, caps, RunPhase::Idle, events) == (RunPhase::Done {
            outcome: RunOutcome::Success,
        }),
    ensures
        invocation_count(trace_actions(args, caps, RunPhase::Idle, events)) == 1,
{
    lemma_trace_invocation_count(args, caps, RunPhase::Idle, events);
}

/// On a run that ends in a configuration, sink-construction, or
/// session-construction failure, the caller's logic was never invoked; on a
/// shutdown-wait or delegation failure it had already run exactly once.
pub proof fn lemma_invocations_on_failure(
    args: RerunArgs,
    caps: Capabilities,
    events: Seq<RunEvent>,
    outcome: RunOutcome,
)
    requires
        trace_ok(args, caps, RunPhase::Idle, events),
        trace_end(args, caps, RunPhase::Idle, events) == (RunPhase::Done { outcome }),
    ensures
        (outcome is ConfigFailure || outcome is SinkFailure || outcome is SessionFailure)
            ==> invocation_count(trace_actions(args, caps, RunPhase::Idle, events)) == 0,
        (outcome is ShutdownFailure || outcome is SpawnFailure) ==> invocation_count(
            trace_actions(args, caps, RunPhase::Idle, events),
        ) == 1,
{
    lemma_trace_invocation_count(args, caps, RunPhase::Idle, events);
}

/// The shutdown wait, when a run has one, is its last action before the
/// final report: nothing but `Finish` can follow it.
pub proof fn lemma_shutdown_wait_is_last(
    args: RerunArgs,
    caps: Capabilities,
    events: Seq<RunEvent>,
    i: int,
    j: int,
)
    requires
        trace_ok(args, caps, RunPhase::Idle, events),
        0 <= i < j < trace_actions(args, caps, RunPhase::Idle, events).len(),
        trace_actions(args, caps, RunPhase::Idle, events)[i] is AwaitShutdown,
    ensures
        trace_actions(args, caps, RunPhase::Idle, events)[j] is Finish,
{
    lemma_actions_in_stage_order(args, caps, RunPhase::Idle, events, i, j);
}

/// A run whose session parameters report logging disabled invokes the
/// caller's logic exactly once (with the disabled handle), never requests a
/// sink or a session, and — if it completes — ends successfully.
pub proof fn lemma_disabled_run(args: RerunArgs, caps: Capabilities, events: Seq<RunEvent>)
    requires
        trace_ok(args, caps, RunPhase::Idle, events),
        events.len() >= 2,
        events[0] is Started,
        events[1] == (RunEvent::SessionParams { enabled: false }),
        trace_end(args, caps, RunPhase::Idle, events) is Done,
    ensures
        trace_end(args, caps, RunPhase::Idle, events) == (RunPhase::Done {
            outcome: RunOutcome::Success,
        }),
        invocation_count(trace_actions(args, caps, RunPhase::Idle, events)) == 1,
        forall|i: int|
            0 <= i < trace_actions(args, caps, RunPhase::Idle, events).len() ==> !(
            #[trigger] trace_actions(args, caps, RunPhase::Idle, events)[i] is ConstructSink)
                && !(trace_actions(args, caps, RunPhase::Idle, events)[i] is ConstructSession),
{
    let rest1 = events.drop_first();
    let rest2 = rest1.drop_first();
    assert(rest1[0] == events[1]);
    let disabled = RunPhase::RunningUser { enabled: false, serve: false };
    assert(spec_step(args, caps, RunPhase::Idle, events[0]) == Some(
        (RunPhase::ResolvingSession, RunAction::BuildSessionParams),
    ));
    assert(trace_ok(args, caps, RunPhase::ResolvingSession, rest1));
    assert(trace_end(args, caps, RunPhase::Idle, events) == trace_end(
        args,
        caps,
        RunPhase::ResolvingSession,
        rest1,
    ));
    assert(spec_step(args, caps, RunPhase::ResolvingSession, rest1[0]) == Some(
        (disabled, RunAction::InvokeUserDisabled),
    ));
    assert(trace_ok(args, caps, disabled, rest2));
    assert(trace_end(args, caps, RunPhase::ResolvingSession, rest1) == trace_end(
        args,
        caps,
        disabled,
        rest2,
    ));
    if rest2.len() == 0 {
        assert(trace_end(args, caps, disabled, rest2) == disabled);
        assert(false);
    }
    assert(spec_step(args, caps, disabled, rest2[0]) is Some);
    assert(rest2[0] is UserLogicReturned);
    let done = RunPhase::Done { outcome: RunOutcome::Success };
    let rest3 = rest2.drop_first();
    assert(spec_step(args, caps, disabled, rest2[0]) == Some(
        (done, RunAction::Finish { outcome: RunOutcome::Success }),
    ));
    assert(trace_ok(args, caps, done, rest3));
    lemma_done_is_final(args, caps, RunOutcome::Success, rest3);
    assert(trace_end(args, caps, done, rest3) == done);
    assert(trace_end(args, caps, disabled, rest2) == done);
    lemma_trace_invocation_count(args, caps, RunPhase::Idle, events);
    assert(trace_actions(args, caps, done, rest3) =~= Seq::<RunAction>::empty());
    assert(trace_actions(args, caps, disabled, rest2) =~= seq![
        RunAction::Finish { outcome: RunOutcome::Success },
    ]);
    assert(trace_actions(args, caps, RunPhase::ResolvingSession, rest1) =~= seq![
        RunAction::InvokeUserDisabled,
        RunAction::Finish { outcome: RunOutcome::Success },
    ]);
    assert(trace_actions(args, caps, RunPhase::Idle, events) =~= seq![
        RunAction::BuildSessionParams,
        RunAction::InvokeUserDisabled,
        RunAction::Finish { outcome: RunOutcome::Success },
    ]);
}

} // verus!
