//! The run orchestration, as a verified decision machine.
//!
//! A run resolves session parameters, picks a behavior, constructs a sink
//! and a session, invokes the caller's logic exactly once, requests a flush,
//! and — for the serve behavior only — waits for an external shutdown
//! signal. The I/O behind each of those stages (the async runtime, sinks,
//! sessions, signal sources) cannot be verified, so this module holds only
//! the decisions: a step function from the current phase and an observed
//! event to the next phase and the next action. The embedding application
//! performs each action and reports what happened back as the next event.

use vstd::prelude::*;
use crate::config::{Capabilities, RerunArgs};
use crate::behavior::{RerunBehavior, spec_resolve};

verus! {

/// How a completed run ended.
#[derive(Clone, Copy, Debug, PartialEq, Eq, Structural)]
pub enum RunOutcome {
    /// The run completed normally.
    Success,
    /// No behavior could be resolved from the directives.
    ConfigFailure,
    /// The chosen sink could not be constructed.
    SinkFailure,
    /// The session could not be constructed around the sink.
    SessionFailure,
    /// The delegated local-viewer launch failed.
    SpawnFailure,
    /// The shutdown-signal source closed before a signal arrived.
    ShutdownFailure,
}

/// What the orchestrator has observed so far in the current run.
#[derive(Clone, Copy, Debug, PartialEq, Eq, Structural)]
pub enum RunPhase {
    /// Nothing has happened yet.
    Idle,
    /// Session parameters (the enablement decision) are being built.
    ResolvingSession,
    /// A sink for the resolved behavior is being constructed.
    ConstructingSink { serve: bool },
    /// A session around the constructed sink is being constructed.
    ConstructingSession { serve: bool },
    /// The caller's logic is running with its handle.
    RunningUser { enabled: bool, serve: bool },
    /// A flush of the session has been requested.
    Flushing { serve: bool },
    /// The run is blocked until an external shutdown signal arrives.
    AwaitingShutdown,
    /// The local-viewer launcher has taken over the rest of the run.
    Delegated,
    /// The run is over.
    Done { outcome: RunOutcome },
}

/// What the embedding application observed while performing the last action.
#[derive(Clone, Copy, Debug, PartialEq, Eq, Structural)]
pub enum RunEvent {
    /// The run was entered.
    Started,
    /// The session parameters were built; `enabled` is the enablement
    /// decision (honoring the environment override).
    SessionParams { enabled: bool },
    /// Sink construction finished, successfully or not.
    SinkConstructed { ok: bool },
    /// Session construction finished, successfully or not.
    SessionConstructed { ok: bool },
    /// The caller's logic ran to completion and returned.
    UserLogicReturned,
    /// The asynchronous flush request was issued.
    FlushIssued,
    /// The delegated local-viewer launch returned, successfully or not.
    SpawnFinished { ok: bool },
    /// The shutdown wait ended: a signal arrived (`received`), or the
    /// signal source closed first (`!received`).
    ShutdownEnded { received: bool },
}

/// What the embedding application must do next.
#[derive(Clone, Debug, PartialEq, Eq)]
pub enum RunAction {
    /// Build the session parameters (enablement, identity, buffering).
    BuildSessionParams,
    /// Invoke the caller's logic once, with a disabled no-op handle.
    InvokeUserDisabled,
    /// Construct the sink for this behavior.
    ConstructSink { behavior: RerunBehavior },
    /// Construct a session around the constructed sink.
    ConstructSession,
    /// Invoke the caller's logic once, with a live session handle.
    InvokeUser,
    /// Request an asynchronous, non-blocking flush of the session.
    RequestFlush,
    /// Block until an external shutdown signal arrives.
    AwaitShutdown,
    /// Hand the session parameters and the caller's logic to the
    /// local-viewer launcher, which takes over the rest of the run.
    DelegateToNativeViewer,
    /// Report this outcome to the caller; the run is over.
    Finish { outcome: RunOutcome },
}

/// The transition relation of a run: from the current phase and an observed
/// event to the next phase and the next action, or `None` when the event
/// cannot occur in that phase. A disabled session short-circuits straight to
/// the caller's logic; a resolution error, a sink failure, or a session
/// failure ends the run before the caller's logic is ever invoked; the
/// spawn behavior delegates instead of entering the sink pipeline; and only
/// the serve behavior inserts the shutdown wait after the flush.
pub open spec fn spec_step(
    args: RerunArgs,
    caps: Capabilities,
    phase: RunPhase,
    event: RunEvent,
) -> Option<(RunPhase, RunAction)> {
    match phase {
        RunPhase::Idle => match event {
            RunEvent::Started => Some(
                (RunPhase::ResolvingSession, RunAction::BuildSessionParams),
            ),
            _ => None,
        },
        RunPhase::ResolvingSession => match event {
            RunEvent::SessionParams { enabled } => if !enabled {
                Some(
                    (
                        RunPhase::RunningUser { enabled: false, serve: false },
                        RunAction::InvokeUserDisabled,
                    ),
                )
            } else {
                match spec_resolve(args, caps) {
                    Err(_) => Some(
                        (
                            RunPhase::Done { outcome: RunOutcome::ConfigFailure },
                            RunAction::Finish { outcome: RunOutcome::ConfigFailure },
                        ),
                    ),
                    Ok(behavior) => if behavior is Spawn {
                        Some((RunPhase::Delegated, RunAction::DelegateToNativeViewer))
                    } else {
                        Some(
                            (
                                RunPhase::ConstructingSink { serve: behavior is Serve },
                                RunAction::ConstructSink { behavior },
                            ),
                        )
                    },
                }
            },
            _ => None,
        },
        RunPhase::ConstructingSink { serve } => match event {
            RunEvent::SinkConstructed { ok } => if ok {
                Some((RunPhase::ConstructingSession { serve }, RunAction::ConstructSession))
            } else {
                Some(
                    (
                        RunPhase::Done { outcome: RunOutcome::SinkFailure },
                        RunAction::Finish { outcome: RunOutcome::SinkFailure },
                    ),
                )
            },
            _ => None,
        },
        RunPhase::ConstructingSession { serve } => match event {
            RunEvent::SessionConstructed { ok } => if ok {
                Some((RunPhase::RunningUser { enabled: true, serve }, RunAction::InvokeUser))
            } else {
                Some(
                    (
                        RunPhase::Done { outcome: RunOutcome::SessionFailure },
                        RunAction::Finish { outcome: RunOutcome::SessionFailure },
                    ),
                )
            },
            _ => None,
        },
        RunPhase::RunningUser { enabled, serve } => match event {
            RunEvent::UserLogicReturned => if enabled {
                Some((RunPhase::Flushing { serve }, RunAction::RequestFlush))
            } else {
                Some(
                    (
                        RunPhase::Done { outcome: RunOutcome::Success },
                        RunAction::Finish { outcome: RunOutcome::Success },
                    ),
                )
            },
            _ => None,
        },
        RunPhase::Flushing { serve } => match event {
            RunEvent::FlushIssued => if serve {
                Some((RunPhase::AwaitingShutdown, RunAction::AwaitShutdown))
            } else {
                Some(
                    (
                        RunPhase::Done { outcome: RunOutcome::Success },
                        RunAction::Finish { outcome: RunOutcome::Success },
                    ),
                )
            },
            _ => None,
        },
        RunPhase::AwaitingShutdown => match event {
            RunEvent::ShutdownEnded { received } => if received {
                Some(
                    (
                        RunPhase::Done { outcome: RunOutcome::Success },
                        RunAction::Finish { outcome: RunOutcome::Success },
                    ),
                )
            } else {
                Some(
                    (
                        RunPhase::Done { outcome: RunOutcome::ShutdownFailure },
                        RunAction::Finish { outcome: RunOutcome::ShutdownFailure },
                    ),
                )
            },
            _ => None,
        },
        RunPhase::Delegated => match event {
            RunEvent::SpawnFinished { ok } => if ok {
                Some(
                    (
                        RunPhase::Done { outcome: RunOutcome::Success },
                        RunAction::Finish { outcome: RunOutcome::Success },
                    ),
                )
            } else {
                Some(
                    (
                        RunPhase::Done { outcome: RunOutcome::SpawnFailure },
                        RunAction::Finish { outcome: RunOutcome::SpawnFailure },
                    ),
                )
            },
            _ => None,
        },
        RunPhase::Done { .. } => None,
    }
}

/// The orchestrator of one run: the directives, the capabilities, and the
/// phase reached so far. The embedding application performs the action each
/// step returns and reports the result as the next event.
pub struct Orchestrator {
    pub args: RerunArgs,
    pub caps: Capabilities,
    pub state: RunPhase,
}

impl Orchestrator {
    /// A fresh orchestrator for one run of these directives under these
    /// capabilities.
    pub fn new(args: RerunArgs, caps: Capabilities) -> (orch: Orchestrator)
        ensures
            orch.args == args,
            orch.caps == caps,
            orch.state == RunPhase::Idle,
    {
        Orchestrator { args, caps, state: RunPhase::Idle }
    }

    /// Whether this event can occur in the current phase.
    pub open spec fn accepts(&self, event: RunEvent) -> bool {
        spec_step(self.args, self.caps, self.state, event) is Some
    }

    /// Advances the run by one observed event and returns the next action,
    /// exactly as the transition relation prescribes. The directives and
    /// capabilities never change during a run.
    pub fn step(&mut self, event: RunEvent) -> (action: RunAction)
        requires
            old(self).accepts(event),
        ensures
            final(self).args == old(self).args,
            final(self).caps == old(self).caps,
            spec_step(old(self).args, old(self).caps, old(self).state, event) == Some(
                (final(self).state, action),
            ),
    {
        match (self.state, event) {
            (RunPhase::Idle, RunEvent::Started) => {
                self.state = RunPhase::ResolvingSession;
                RunAction::BuildSessionParams
            },
            (RunPhase::ResolvingSession, RunEvent::SessionParams { enabled }) => {
                if !enabled {
                    self.state = RunPhase::RunningUser { enabled: false, serve: false };
                    RunAction::InvokeUserDisabled
                } else {
                    match self.args.to_behavior(&self.caps) {
                        Err(_) => {
                            self.state = RunPhase::Done { outcome: RunOutcome::ConfigFailure };
                            RunAction::Finish { outcome: RunOutcome::ConfigFailure }
                        },
                        Ok(RerunBehavior::Spawn) => {
                            self.state = RunPhase::Delegated;
                            RunAction::DelegateToNativeViewer
                        },
                        Ok(behavior) => {
                            let serve: bool = match &behavior {
                                RerunBehavior::Serve => true,
                                _ => false,
                            };
                            self.state = RunPhase::ConstructingSink { serve };
                            RunAction::ConstructSink { behavior }
                        },
                    }
                }
            },
            (RunPhase::ConstructingSink { serve }, RunEvent::SinkConstructed { ok }) => {
                if ok {
                    self.state = RunPhase::ConstructingSession { serve };
                    RunAction::ConstructSession
                } else {
                    self.state = RunPhase::Done { outcome: RunOutcome::SinkFailure };
                    RunAction::Finish { outcome: RunOutcome::SinkFailure }
                }
            },
            (RunPhase::ConstructingSession { serve }, RunEvent::SessionConstructed { ok }) => {
                if ok {
                    self.state = RunPhase::RunningUser { enabled: true, serve };
                    RunAction::InvokeUser
                } else {
                    self.state = RunPhase::Done { outcome: RunOutcome::SessionFailure };
                    RunAction::Finish { outcome: RunOutcome::SessionFailure }
                }
            },
            (RunPhase::RunningUser { enabled, serve }, RunEvent::UserLogicReturned) => {
                if enabled {
                    self.state = RunPhase::Flushing { serve };
                    RunAction::RequestFlush
                } else {
                    self.state = RunPhase::Done { outcome: RunOutcome::Success };
                    RunAction::Finish { outcome: RunOutcome::Success }
                }
            },
            (RunPhase::Flushing { serve }, RunEvent::FlushIssued) => {
                if serve {
                    self.state = RunPhase::AwaitingShutdown;
                    RunAction::AwaitShutdown
                } else {
                    self.state = RunPhase::Done { outcome: RunOutcome::Success };
                    RunAction::Finish { outcome: RunOutcome::Success }
                }
            },
            (RunPhase::AwaitingShutdown, RunEvent::ShutdownEnded { received }) => {
                if received {
                    self.state = RunPhase::Done { outcome: RunOutcome::Success };
                    RunAction::Finish { outcome: RunOutcome::Success }
                } else {
                    self.state = RunPhase::Done { outcome: RunOutcome::ShutdownFailure };
                    RunAction::Finish { outcome: RunOutcome::ShutdownFailure }
                }
            },
            (RunPhase::Delegated, RunEvent::SpawnFinished { ok }) => {
                if ok {
                    self.state = RunPhase::Done { outcome: RunOutcome::Success };
                    RunAction::Finish { outcome: RunOutcome::Success }
                } else {
                    self.state = RunPhase::Done { outcome: RunOutcome::SpawnFailure };
                    RunAction::Finish { outcome: RunOutcome::SpawnFailure }
                }
            },
            _ => unreached(),
        }
    }
}

} // verus!
