//! The lifecycle of a cue, from its admission through the mailbox to its end.
use crate::actor_producer::ActorRegistry;
use crate::context::{Attempt, DiagnosticProducerError, SpanEventAdmission};
use crate::effect_producer::{EffectRegistry, OwnerEvent};
use crate::event::{
    caused_by, copy_id, follows_from, CausalLink, CausalRelation, CounterKind, DiagnosticScope,
    EventCandidate, InstantDetail, SpanOutcome, SpanStartDetail, TerminalSpan,
};
use crate::identifier::{numbered_id, IdCounter};
use crate::run::{DiagnosticRun, DiagnosticRuns, RuntimeProducerError};
use crate::runtime_producer::RuntimeProducerRegistry;
use crate::scene_producer::{SceneRegistry, SceneScope};
use std::collections::HashMap;
use vstd::prelude::*;

verus! {

broadcast use vstd::std_specs::hash::group_hash_axioms;

/// What the runtime announces of a cue.
#[derive(Clone, Copy, Debug, PartialEq, Eq, Structural)]
pub enum CueHook {
    Admitted,
    Dispatched,
    CancelRequested,
    CallerFinished { caller: CueCallerOutcome },
}

/// What the runtime announces of a cue in a mailbox.
#[derive(Clone, Copy, Debug, PartialEq, Eq, Structural)]
pub enum CueMailboxHook {
    Enqueued,
    Retired,
}

/// How a cue ended.
#[derive(Clone, Copy, Debug, PartialEq, Eq, Structural)]
pub enum CueTerminalOutcome {
    Completed,
    Failed,
    Cancelled,
    CleanupFailed,
}

/// What the caller of a cue did with what it returned.
#[derive(Clone, Copy, Debug, PartialEq, Eq, Structural)]
pub enum CueCallerOutcome {
    Consumed,
    Abandoned,
}

/// Where a fact of a cue hangs in the run.
#[derive(Debug, PartialEq, Eq)]
pub struct CueLineageSnapshot {
    pub run: usize,
    pub cue_scope: DiagnosticScope,
    pub containing_span_id: u64,
}

/// How far a cue has come, with the facts that the next step builds on.
#[derive(Clone, Copy, Debug, PartialEq, Eq, Structural)]
pub enum CuePhase {
    Starting,
    Admitted { admitted_sequence: u64 },
    Enqueued { enqueued_sequence: u64, wait_span_id: u64 },
    Dispatched { execution_span_id: u64 },
    Terminal { terminal_sequence: Option<u64> },
}

/// What is known of a cue.
#[derive(Clone, Copy, Debug, PartialEq, Eq, Structural)]
pub struct CueLifecycleState {
    pub phase: CuePhase,
    pub cancel_sequence: Option<u64>,
    pub caller_finished: bool,
    pub producer_failed: bool,
}

/// Reports the lifecycle of one cue.
#[derive(Debug, PartialEq, Eq)]
pub struct CueLifecycleProducer {
    pub run: usize,
    pub cued_key: usize,
    pub cue_scope: DiagnosticScope,
    pub actor_scope: DiagnosticScope,
    pub scene_span_id: u64,
    pub state: CueLifecycleState,
}

/// What is left to report of a cue that ends, once its effects know.
#[derive(Clone, Copy, Debug, PartialEq, Eq)]
pub struct CueEnding {
    pub span_id: Option<u64>,
    pub terminal: TerminalSpan,
    pub source: u64,
    pub relation: CausalRelation,
}

/// How the open span of a cue ends.
pub open spec fn spec_terminal_span(outcome: CueTerminalOutcome, phase: CuePhase) -> TerminalSpan {
    match outcome {
        CueTerminalOutcome::Completed => TerminalSpan::spec_completed(),
        CueTerminalOutcome::Cancelled => TerminalSpan::spec_cancelled("cue-cancelled"),
        CueTerminalOutcome::CleanupFailed => TerminalSpan::spec_failed("cue-cleanup-failed"),
        CueTerminalOutcome::Failed => TerminalSpan::spec_failed(
            if phase is Dispatched {
                "cue-execution-failed"
            } else {
                "cue-dispatch-failed"
            },
        ),
    }
}

pub fn terminal_span(outcome: CueTerminalOutcome, phase: CuePhase) -> (terminal: TerminalSpan)
    ensures
        terminal == spec_terminal_span(outcome, phase),
{
    match outcome {
        CueTerminalOutcome::Completed => TerminalSpan::completed(),
        CueTerminalOutcome::Cancelled => TerminalSpan::cancelled("cue-cancelled"),
        CueTerminalOutcome::CleanupFailed => TerminalSpan::failed("cue-cleanup-failed"),
        CueTerminalOutcome::Failed => {
            if matches!(phase, CuePhase::Dispatched { .. }) {
                TerminalSpan::failed("cue-execution-failed")
            } else {
                TerminalSpan::failed("cue-dispatch-failed")
            }
        },
    }
}

/// How many cues a mailbox holds, with the one that runs.
pub open spec fn spec_mailbox_depth(queued: usize, running: bool) -> int {
    queued + if running {
        1int
    } else {
        0int
    }
}

pub fn mailbox_depth(queued: usize, running: bool) -> (depth: Result<u64, &'static str>)
    ensures
        depth == if spec_mailbox_depth(queued, running) > usize::MAX {
            Err::<u64, &'static str>("cue.mailbox-depth-overflow")
        } else {
            Ok(spec_mailbox_depth(queued, running) as u64)
        },
{
    if running {
        if queued == usize::MAX {
            return Err("cue.mailbox-depth-overflow");
        }
        Ok((queued + 1) as u64)
    } else {
        Ok(queued as u64)
    }
}

impl CueLifecycleProducer {
    /// The cue with another state.
    pub open spec fn with(self, state: CueLifecycleState) -> Self {
        CueLifecycleProducer { state, ..self }
    }

    /// The cue in another phase.
    pub open spec fn in_phase(self, phase: CuePhase) -> Self {
        self.with(CueLifecycleState { phase, ..self.state })
    }

    pub open spec fn failed(self) -> Self {
        self.with(CueLifecycleState { producer_failed: true, ..self.state })
    }

    /// A hook is out of place.
    pub open spec fn fails<A: SpanEventAdmission>(
        self,
        after: Self,
        run: DiagnosticRun<A>,
        run_after: DiagnosticRun<A>,
        code: &'static str,
    ) -> bool {
        &&& after == self.failed()
        &&& run_after == run.with_state_failure(code)
    }

    /// That the cue was admitted, and that it is active.
    pub open spec fn admission_plan(self) -> spec_fn(Seq<u64>) -> Option<EventCandidate> {
        |accepted: Seq<u64>|
            if accepted.len() == 0 {
                Some(
                    EventCandidate::instant(
                        self.cue_scope,
                        InstantDetail::CueAdmitted,
                        Some(self.scene_span_id),
                        None,
                    ),
                )
            } else if accepted.len() == 1 {
                Some(
                    EventCandidate::counter(
                        self.cue_scope,
                        CounterKind::CueActive,
                        1,
                        CausalLink::after(accepted[0]),
                    ),
                )
            } else {
                None
            }
    }

    pub open spec fn on_admitted<A: SpanEventAdmission>(
        self,
        after: Self,
        run: DiagnosticRun<A>,
        run_after: DiagnosticRun<A>,
    ) -> bool {
        if self.state.phase !is Starting {
            self.fails(after, run, run_after, "cue.admission-transition-invalid")
        } else {
            &&& run_after.follows(run, self.admission_plan())
            &&& after == if run_after.stopped_since(run) {
                self.failed()
            } else {
                self.in_phase(
                    CuePhase::Admitted { admitted_sequence: run_after.accepted_since(run)[0] },
                )
            }
        }
    }

    /// The cue is admitted.
    pub fn admitted<A: SpanEventAdmission>(&mut self, run: &mut DiagnosticRun<A>)
        ensures
            old(self).on_admitted(*final(self), *old(run), *final(run)),
    {
        if self.state.phase != CuePhase::Starting {
            self.fail_state(run, "cue.admission-transition-invalid");
            return;
        }
        let admitted_sequence = match run.context.emit_instant_with_causes(
            self.cue_scope.clone(),
            InstantDetail::CueAdmitted,
            Some(self.scene_span_id),
            None,
        ) {
            Ok(sequence) => sequence,
            Err(error) => {
                self.fail_diagnostic(run, error);
                return;
            },
        };
        if let Err(error) = run.context.emit_counter(
            self.cue_scope.clone(),
            CounterKind::CueActive,
            1,
            follows_from(admitted_sequence),
        ) {
            self.fail_diagnostic(run, error);
            return;
        }
        self.state.phase = CuePhase::Admitted { admitted_sequence };
    }

    /// That the cue was enqueued, its wait, and how deep the mailbox is, where that is a number.
    pub open spec fn enqueue_plan(
        self,
        admitted_sequence: u64,
        depth: Option<u64>,
    ) -> spec_fn(Seq<u64>) -> Option<EventCandidate> {
        |accepted: Seq<u64>|
            if accepted.len() == 0 {
                Some(
                    EventCandidate::instant(
                        self.cue_scope,
                        InstantDetail::CueEnqueued,
                        Some(self.scene_span_id),
                        CausalLink::after(admitted_sequence),
                    ),
                )
            } else if accepted.len() == 1 {
                Some(
                    EventCandidate::started(
                        self.cue_scope,
                        SpanStartDetail::CueMailboxWait,
                        Some(self.scene_span_id),
                        CausalLink::after(accepted[0]),
                    ),
                )
            } else if accepted.len() == 2 && depth is Some {
                Some(
                    EventCandidate::counter(
                        self.actor_scope,
                        CounterKind::ActorMailboxDepth,
                        depth->0,
                        CausalLink::after(accepted[0]),
                    ),
                )
            } else {
                None
            }
    }

    pub open spec fn on_enqueued<A: SpanEventAdmission>(
        self,
        after: Self,
        run: DiagnosticRun<A>,
        run_after: DiagnosticRun<A>,
        queued: usize,
        running: bool,
    ) -> bool {
        if self.state.producer_failed {
            after == self && run_after == run
        } else {
            match self.state.phase {
                CuePhase::Admitted { admitted_sequence } => {
                    if !running {
                        self.fails(after, run, run_after, "cue.mailbox-running-snapshot-invalid")
                    } else if spec_mailbox_depth(queued, running) > usize::MAX {
                        exists|run_between: DiagnosticRun<A>|
                            {
                                &&& #[trigger] run_between.follows(
                                    run,
                                    self.enqueue_plan(admitted_sequence, None),
                                )
                                &&& after == self.failed()
                                &&& run_after == if run_between.stopped_since(run) {
                                    run_between
                                } else {
                                    run_between.with_state_failure("cue.mailbox-depth-overflow")
                                }
                            }
                    } else {
                        let depth = spec_mailbox_depth(queued, running) as u64;
                        &&& run_after.follows(
                            run,
                            self.enqueue_plan(admitted_sequence, Some(depth)),
                        )
                        &&& after == if run_after.stopped_since(run) {
                            self.failed()
                        } else {
                            self.in_phase(
                                CuePhase::Enqueued {
                                    enqueued_sequence: run_after.accepted_since(run)[0],
                                    wait_span_id: run_after.accepted_since(run)[1],
                                },
                            )
                        }
                    }
                },
                _ => self.fails(after, run, run_after, "cue.enqueue-transition-invalid"),
            }
        }
    }

    /// The cue waits in the mailbox of its actor.
    pub fn enqueued<A: SpanEventAdmission>(
        &mut self,
        run: &mut DiagnosticRun<A>,
        queued: usize,
        running: bool,
    )
        ensures
            old(self).on_enqueued(*final(self), *old(run), *final(run), queued, running),
    {
        if self.state.producer_failed {
            return;
        }
        let admitted_sequence = match self.state.phase {
            CuePhase::Admitted { admitted_sequence } => admitted_sequence,
            _ => {
                self.fail_state(run, "cue.enqueue-transition-invalid");
                return;
            },
        };
        if !running {
            self.fail_state(run, "cue.mailbox-running-snapshot-invalid");
            return;
        }
        let enqueued_sequence = match run.context.emit_instant_with_causes(
            self.cue_scope.clone(),
            InstantDetail::CueEnqueued,
            Some(self.scene_span_id),
            follows_from(admitted_sequence),
        ) {
            Ok(sequence) => sequence,
            Err(error) => {
                self.fail_diagnostic(run, error);
                assert(run.follows(*old(run), old(self).enqueue_plan(admitted_sequence, None)));
                return;
            },
        };
        let wait_span_id = match run.context.start_span_with_causes(
            self.cue_scope.clone(),
            SpanStartDetail::CueMailboxWait,
            Some(self.scene_span_id),
            follows_from(enqueued_sequence),
        ) {
            Ok(span_id) => span_id,
            Err(error) => {
                self.fail_diagnostic(run, error);
                assert(run.follows(*old(run), old(self).enqueue_plan(admitted_sequence, None)));
                return;
            },
        };
        let depth = match mailbox_depth(queued, running) {
            Ok(depth) => depth,
            Err(code) => {
                assert(run.follows(*old(run), old(self).enqueue_plan(admitted_sequence, None)));
                self.fail_state(run, code);
                return;
            },
        };
        if let Err(error) = run.context.emit_counter(
            self.actor_scope.clone(),
            CounterKind::ActorMailboxDepth,
            depth,
            follows_from(enqueued_sequence),
        ) {
            self.fail_diagnostic(run, error);
            return;
        }
        self.state.phase = CuePhase::Enqueued { enqueued_sequence, wait_span_id };
    }

    /// The dispatch, the end of the wait, and the execution.
    pub open spec fn dispatch_plan(
        self,
        enqueued_sequence: u64,
        wait_span_id: u64,
    ) -> spec_fn(Seq<u64>) -> Option<EventCandidate> {
        |accepted: Seq<u64>|
            if accepted.len() == 0 {
                Some(
                    EventCandidate::instant(
                        self.cue_scope,
                        InstantDetail::CueDispatched,
                        Some(wait_span_id),
                        CausalLink::to(enqueued_sequence, CausalRelation::Dispatch),
                    ),
                )
            } else if accepted.len() == 1 {
                Some(
                    EventCandidate::finished(
                        self.cue_scope,
                        wait_span_id,
                        SpanOutcome::Completed,
                        None,
                        CausalLink::to(accepted[0], CausalRelation::Dispatch),
                    ),
                )
            } else if accepted.len() == 2 {
                Some(
                    EventCandidate::started(
                        self.cue_scope,
                        SpanStartDetail::CueExecution,
                        Some(self.scene_span_id),
                        CausalLink::to(accepted[0], CausalRelation::Dispatch),
                    ),
                )
            } else {
                None
            }
    }

    pub open spec fn on_dispatched<A: SpanEventAdmission>(
        self,
        after: Self,
        run: DiagnosticRun<A>,
        run_after: DiagnosticRun<A>,
    ) -> bool {
        if self.state.producer_failed {
            after == self && run_after == run
        } else {
            match self.state.phase {
                CuePhase::Enqueued { enqueued_sequence, wait_span_id } => {
                    &&& run_after.follows(run, self.dispatch_plan(enqueued_sequence, wait_span_id))
                    &&& after == if run_after.stopped_since(run) {
                        self.failed()
                    } else {
                        self.in_phase(
                            CuePhase::Dispatched {
                                execution_span_id: run_after.accepted_since(run)[2],
                            },
                        )
                    }
                },
                _ => self.fails(after, run, run_after, "cue.dispatch-transition-invalid"),
            }
        }
    }

    /// The cue leaves the mailbox and runs.
    pub fn dispatched<A: SpanEventAdmission>(&mut self, run: &mut DiagnosticRun<A>)
        ensures
            old(self).on_dispatched(*final(self), *old(run), *final(run)),
    {
        if self.state.producer_failed {
            return;
        }
        let (enqueued_sequence, wait_span_id) = match self.state.phase {
            CuePhase::Enqueued { enqueued_sequence, wait_span_id } => {
                (enqueued_sequence, wait_span_id)
            },
            _ => {
                self.fail_state(run, "cue.dispatch-transition-invalid");
                return;
            },
        };
        let dispatched_sequence = match run.context.emit_instant_with_causes(
            self.cue_scope.clone(),
            InstantDetail::CueDispatched,
            Some(wait_span_id),
            caused_by(enqueued_sequence, CausalRelation::Dispatch),
        ) {
            Ok(sequence) => sequence,
            Err(error) => {
                self.fail_diagnostic(run, error);
                return;
            },
        };
        if let Err(error) = run.context.finish_span_with_causes(
            self.cue_scope.clone(),
            wait_span_id,
            SpanOutcome::Completed,
            None,
            caused_by(dispatched_sequence, CausalRelation::Dispatch),
        ) {
            self.fail_diagnostic(run, error);
            return;
        }
        let execution_span_id = match run.context.start_span_with_causes(
            self.cue_scope.clone(),
            SpanStartDetail::CueExecution,
            Some(self.scene_span_id),
            caused_by(dispatched_sequence, CausalRelation::Dispatch),
        ) {
            Ok(span_id) => span_id,
            Err(error) => {
                self.fail_diagnostic(run, error);
                return;
            },
        };
        self.state.phase = CuePhase::Dispatched { execution_span_id };
    }

    /// What a cancellation comes after, and the span that contains it.
    pub open spec fn cancel_point(self) -> Option<(u64, u64)> {
        match self.state.phase {
            CuePhase::Admitted { admitted_sequence } => {
                Some((admitted_sequence, self.scene_span_id))
            },
            CuePhase::Enqueued { enqueued_sequence, wait_span_id } => {
                Some((enqueued_sequence, wait_span_id))
            },
            CuePhase::Dispatched { execution_span_id } => {
                Some((execution_span_id, execution_span_id))
            },
            CuePhase::Starting | CuePhase::Terminal { .. } => None,
        }
    }

    pub open spec fn on_cancel_requested<A: SpanEventAdmission>(
        self,
        after: Self,
        run: DiagnosticRun<A>,
        run_after: DiagnosticRun<A>,
    ) -> bool {
        if self.state.producer_failed {
            after == self && run_after == run
        } else {
            match self.cancel_point() {
                Some((source, containing_span_id)) if self.state.cancel_sequence is None => {
                    &&& run_after.follows(
                        run,
                        EventCandidate::instant(
                            self.cue_scope,
                            InstantDetail::CueCancelRequested,
                            Some(containing_span_id),
                            CausalLink::to(source, CausalRelation::Handoff),
                        ).alone(),
                    )
                    &&& after == self.with(
                        CueLifecycleState {
                            cancel_sequence: Attempt::nth(run_after.accepted_since(run), 0),
                            producer_failed: run_after.stopped_since(run),
                            ..self.state
                        },
                    )
                },
                _ => self.fails(after, run, run_after, "cue.cancel-request-transition-invalid"),
            }
        }
    }

    /// A cancellation of the cue is requested, once, before it ends.
    pub fn cancel_requested<A: SpanEventAdmission>(&mut self, run: &mut DiagnosticRun<A>)
        ensures
            old(self).on_cancel_requested(*final(self), *old(run), *final(run)),
    {
        if self.state.producer_failed {
            return;
        }
        if self.state.cancel_sequence.is_some() {
            self.fail_state(run, "cue.cancel-request-transition-invalid");
            return;
        }
        let (source, containing_span_id) = match self.state.phase {
            CuePhase::Admitted { admitted_sequence } => (admitted_sequence, self.scene_span_id),
            CuePhase::Enqueued { enqueued_sequence, wait_span_id } => {
                (enqueued_sequence, wait_span_id)
            },
            CuePhase::Dispatched { execution_span_id } => (execution_span_id, execution_span_id),
            CuePhase::Starting | CuePhase::Terminal { .. } => {
                self.fail_state(run, "cue.cancel-request-transition-invalid");
                return;
            },
        };
        match run.context.emit_instant_with_causes(
            self.cue_scope.clone(),
            InstantDetail::CueCancelRequested,
            Some(containing_span_id),
            caused_by(source, CausalRelation::Handoff),
        ) {
            Ok(sequence) => self.state.cancel_sequence = Some(sequence),
            Err(error) => self.fail_diagnostic(run, error),
        }
    }

    pub open spec fn on_caller_finished<A: SpanEventAdmission>(
        self,
        after: Self,
        run: DiagnosticRun<A>,
        run_after: DiagnosticRun<A>,
    ) -> bool {
        if self.state.caller_finished {
            self.fails(after, run, run_after, "cue.caller-finish-transition-invalid")
        } else {
            &&& after == self.with(CueLifecycleState { caller_finished: true, ..self.state })
            &&& run_after == run
        }
    }

    /// The caller of the cue is done with it, once.
    pub fn caller_finished<A: SpanEventAdmission>(&mut self, run: &mut DiagnosticRun<A>)
        ensures
            old(self).on_caller_finished(*final(self), *old(run), *final(run)),
    {
        if self.state.caller_finished {
            self.fail_state(run, "cue.caller-finish-transition-invalid");
            return;
        }
        self.state.caller_finished = true;
    }

    /// What is left to report of a cue that ends, or why it cannot end so.
    pub open spec fn spec_ending(self, outcome: CueTerminalOutcome) -> Result<
        CueEnding,
        &'static str,
    > {
        match self.state.phase {
            CuePhase::Starting | CuePhase::Terminal { .. } => Err("cue.terminal-transition-invalid"),
            _ => if outcome is Completed && self.state.phase !is Dispatched {
                Err("cue.completed-before-dispatch")
            } else {
                let (span_id, fallback) = match self.state.phase {
                    CuePhase::Enqueued { enqueued_sequence, wait_span_id } => {
                        (Some(wait_span_id), enqueued_sequence)
                    },
                    CuePhase::Dispatched { execution_span_id } => {
                        (Some(execution_span_id), execution_span_id)
                    },
                    CuePhase::Admitted { admitted_sequence } => (None, admitted_sequence),
                    _ => (None, 0),
                };
                Ok(
                    CueEnding {
                        span_id,
                        terminal: spec_terminal_span(outcome, self.state.phase),
                        source: match self.state.cancel_sequence {
                            Some(sequence) => sequence,
                            None => fallback,
                        },
                        relation: if self.state.cancel_sequence is Some {
                            CausalRelation::Handoff
                        } else {
                            CausalRelation::Return
                        },
                    },
                )
            },
        }
    }

    pub open spec fn on_terminal_begun<A: SpanEventAdmission>(
        self,
        after: Self,
        run: DiagnosticRun<A>,
        run_after: DiagnosticRun<A>,
        outcome: CueTerminalOutcome,
        has_error: bool,
        ending: Option<CueEnding>,
    ) -> bool {
        let over = CuePhase::Terminal { terminal_sequence: None };
        if self.state.producer_failed {
            after == self.in_phase(over) && run_after == run && ending is None
        } else if outcome !is Completed && !has_error {
            self.in_phase(over).fails(after, run, run_after, "cue.terminal-error-unavailable")
                && ending is None
        } else {
            match self.spec_ending(outcome) {
                Err(code) => self.fails(after, run, run_after, code) && ending is None,
                Ok(known) => after == self && run_after == run && ending == Some(known),
            }
        }
    }

    /// Decides how the cue ends. Without an ending there is nothing left to report.
    pub fn begin_terminal<A: SpanEventAdmission>(
        &mut self,
        run: &mut DiagnosticRun<A>,
        outcome: CueTerminalOutcome,
        has_error: bool,
    ) -> (ending: Option<CueEnding>)
        ensures
            old(self).on_terminal_begun(
                *final(self),
                *old(run),
                *final(run),
                outcome,
                has_error,
                ending,
            ),
    {
        let completed = matches!(outcome, CueTerminalOutcome::Completed);
        if self.state.producer_failed {
            self.state.phase = CuePhase::Terminal { terminal_sequence: None };
            return None;
        }
        if !completed && !has_error {
            self.fail_state(run, "cue.terminal-error-unavailable");
            self.state.phase = CuePhase::Terminal { terminal_sequence: None };
            return None;
        }
        let terminal = terminal_span(outcome, self.state.phase);
        let (span_id, fallback) = match self.state.phase {
            CuePhase::Enqueued { enqueued_sequence, wait_span_id } => {
                (Some(wait_span_id), enqueued_sequence)
            },
            CuePhase::Dispatched { execution_span_id } => {
                (Some(execution_span_id), execution_span_id)
            },
            CuePhase::Admitted { admitted_sequence } => (None, admitted_sequence),
            CuePhase::Starting | CuePhase::Terminal { .. } => {
                self.fail_state(run, "cue.terminal-transition-invalid");
                return None;
            },
        };
        if completed && !matches!(self.state.phase, CuePhase::Dispatched { .. }) {
            self.fail_state(run, "cue.completed-before-dispatch");
            return None;
        }
        let source: u64 = self.state.cancel_sequence.unwrap_or(fallback);
        let relation = if self.state.cancel_sequence.is_some() {
            CausalRelation::Handoff
        } else {
            CausalRelation::Return
        };
        Some(CueEnding { span_id, terminal, source, relation })
    }

    /// The end of the open span where there is one, then that the cue is not active.
    pub open spec fn end_plan(self, ending: CueEnding) -> spec_fn(Seq<u64>) -> Option<
        EventCandidate,
    > {
        |accepted: Seq<u64>|
            match ending.span_id {
                Some(span_id) => if accepted.len() == 0 {
                    Some(
                        EventCandidate::finished(
                            self.cue_scope,
                            span_id,
                            ending.terminal.outcome,
                            ending.terminal.code(),
                            CausalLink::to(ending.source, ending.relation),
                        ),
                    )
                } else if accepted.len() == 1 {
                    Some(
                        EventCandidate::counter(
                            self.cue_scope,
                            CounterKind::CueActive,
                            0,
                            CausalLink::after(accepted[0]),
                        ),
                    )
                } else {
                    None
                },
                None => if accepted.len() == 0 {
                    Some(
                        EventCandidate::counter(
                            self.cue_scope,
                            CounterKind::CueActive,
                            0,
                            CausalLink::after(ending.source),
                        ),
                    )
                } else {
                    None
                },
            }
    }

    pub open spec fn on_terminal_ended<A: SpanEventAdmission>(
        self,
        after: Self,
        run: DiagnosticRun<A>,
        run_after: DiagnosticRun<A>,
        ending: CueEnding,
    ) -> bool {
        &&& run_after.follows(run, self.end_plan(ending))
        &&& after == if run_after.stopped_since(run) {
            self.failed()
        } else {
            self.in_phase(
                CuePhase::Terminal {
                    terminal_sequence: Some(run_after.accepted_since(run).last()),
                },
            )
        }
    }

    /// Reports the end of the cue, after its effects know of it.
    pub fn end_terminal<A: SpanEventAdmission>(
        &mut self,
        run: &mut DiagnosticRun<A>,
        ending: CueEnding,
    )
        ensures
            old(self).on_terminal_ended(*final(self), *old(run), *final(run), ending),
    {
        let terminal_sequence = match ending.span_id {
            Some(span_id) => {
                match run.context.finish_span_with_causes(
                    self.cue_scope.clone(),
                    span_id,
                    ending.terminal.outcome,
                    ending.terminal.event_code(),
                    caused_by(ending.source, ending.relation),
                ) {
                    Ok(sequence) => sequence,
                    Err(error) => {
                        self.fail_diagnostic(run, error);
                        return;
                    },
                }
            },
            None => ending.source,
        };
        let inactive_sequence = match run.context.emit_counter(
            self.cue_scope.clone(),
            CounterKind::CueActive,
            0,
            follows_from(terminal_sequence),
        ) {
            Ok(sequence) => sequence,
            Err(error) => {
                self.fail_diagnostic(run, error);
                return;
            },
        };
        self.state.phase = CuePhase::Terminal { terminal_sequence: Some(inactive_sequence) };
    }

    pub open spec fn on_retired<A: SpanEventAdmission>(
        self,
        after: Self,
        run: DiagnosticRun<A>,
        run_after: DiagnosticRun<A>,
        queued: usize,
        running: bool,
    ) -> bool {
        match self.state.phase {
            CuePhase::Terminal { terminal_sequence } => {
                if self.state.producer_failed {
                    after == self && run_after == run
                } else if spec_mailbox_depth(queued, running) > usize::MAX {
                    self.fails(after, run, run_after, "cue.mailbox-depth-overflow")
                } else {
                    &&& run_after.follows(
                        run,
                        EventCandidate::counter(
                            self.actor_scope,
                            CounterKind::ActorMailboxDepth,
                            spec_mailbox_depth(queued, running) as u64,
                            match terminal_sequence {
                                Some(sequence) => CausalLink::after(sequence),
                                None => None,
                            },
                        ).alone(),
                    )
                    &&& after == if run_after.stopped_since(run) {
                        self.failed()
                    } else {
                        self
                    }
                }
            },
            _ => self.fails(after, run, run_after, "cue.mailbox-retire-transition-invalid"),
        }
    }

    /// The cue leaves the mailbox for good.
    pub fn retired<A: SpanEventAdmission>(
        &mut self,
        run: &mut DiagnosticRun<A>,
        queued: usize,
        running: bool,
    )
        ensures
            old(self).on_retired(*final(self), *old(run), *final(run), queued, running),
    {
        let terminal_sequence = match self.state.phase {
            CuePhase::Terminal { terminal_sequence } => terminal_sequence,
            _ => {
                self.fail_state(run, "cue.mailbox-retire-transition-invalid");
                return;
            },
        };
        if self.state.producer_failed {
            return;
        }
        let depth = match mailbox_depth(queued, running) {
            Ok(depth) => depth,
            Err(code) => {
                self.fail_state(run, code);
                return;
            },
        };
        let cause = match terminal_sequence {
            Some(sequence) => follows_from(sequence),
            None => None,
        };
        if let Err(error) = run.context.emit_counter(
            self.actor_scope.clone(),
            CounterKind::ActorMailboxDepth,
            depth,
            cause,
        ) {
            self.fail_diagnostic(run, error);
        }
    }

    pub open spec fn spec_lineage(self) -> Option<CueLineageSnapshot> {
        match self.state.phase {
            CuePhase::Dispatched { execution_span_id } => Some(
                CueLineageSnapshot {
                    run: self.run,
                    cue_scope: self.cue_scope,
                    containing_span_id: execution_span_id,
                },
            ),
            _ => None,
        }
    }

    /// Where a fact of the cue hangs, while it runs.
    pub fn lineage(&self) -> (snapshot: Option<CueLineageSnapshot>)
        ensures
            snapshot == self.spec_lineage(),
    {
        match self.state.phase {
            CuePhase::Dispatched { execution_span_id } => Some(
                CueLineageSnapshot {
                    run: self.run,
                    cue_scope: self.cue_scope.clone(),
                    containing_span_id: execution_span_id,
                },
            ),
            _ => None,
        }
    }

    fn fail_diagnostic<A: SpanEventAdmission>(
        &mut self,
        run: &mut DiagnosticRun<A>,
        error: DiagnosticProducerError,
    )
        ensures
            *final(self) == old(self).failed(),
            *final(run) == old(run).with_failure(RuntimeProducerError::Diagnostic(error)),
    {
        self.state.producer_failed = true;
        run.latch_diagnostic_failure(error);
    }

    fn fail_state<A: SpanEventAdmission>(&mut self, run: &mut DiagnosticRun<A>, code: &'static str)
        ensures
            old(self).fails(*final(self), *old(run), *final(run), code),
    {
        self.state.producer_failed = true;
        run.latch_state_failure(code);
    }
}

/// A cue of the runtime: the key that it is known by, the binding of its run, and the scene and the
/// actor that it plays in, as far as they are still there.
#[derive(Debug, PartialEq, Eq)]
pub struct CueOperation {
    pub cued_key: usize,
    pub binding_key: Option<usize>,
    pub scene: Option<SceneScope>,
    pub actor_key: Option<usize>,
}

/// The cues that are under way, by their keys.
pub struct CueRegistry {
    pub producers: HashMap<usize, CueLifecycleProducer>,
    pub next_cue_id: IdCounter,
}

impl View for CueRegistry {
    type V = Map<usize, CueLifecycleProducer>;

    open spec fn view(&self) -> Map<usize, CueLifecycleProducer> {
        self.producers@
    }
}

/// The key that a cue is known by.
pub fn operation_key(operation: &CueOperation) -> (key: usize)
    ensures
        key == operation.cued_key,
{
    operation.cued_key
}

impl CueRegistry {
    /// Every cue reports through a run that is open.
    pub open spec fn fits<A: SpanEventAdmission>(self, runs: DiagnosticRuns<A>) -> bool {
        forall|key: usize| #[trigger] self@.contains_key(key) ==> self@[key].run < runs@.len()
    }

    pub fn new() -> (registry: Self)
        ensures
            registry@ == Map::<usize, CueLifecycleProducer>::empty(),
            registry.next_cue_id.next == 1,
    {
        CueRegistry { producers: HashMap::new(), next_cue_id: IdCounter::new() }
    }

    pub open spec fn spec_lineage(self, cued_key: usize) -> Option<CueLineageSnapshot> {
        if self@.contains_key(cued_key) {
            self@[cued_key].spec_lineage()
        } else {
            None
        }
    }

    /// Where a fact of a cue hangs, while the cue runs.
    pub fn lineage_snapshot(&self, cued_key: usize) -> (snapshot: Option<CueLineageSnapshot>)
        ensures
            snapshot == self.spec_lineage(cued_key),
    {
        match self.producers.get(&cued_key) {
            Some(producer) => producer.lineage(),
            None => None,
        }
    }

    /// Why a cue cannot begin.
    pub open spec fn prepare_problem(
        self,
        scenes: SceneRegistry,
        actors: ActorRegistry,
        operation: CueOperation,
    ) -> Option<&'static str> {
        match (operation.scene, operation.actor_key) {
            (None, _) => Some("cue.scene-lineage-unavailable"),
            (Some(_), None) => Some("cue.actor-lineage-unavailable"),
            (Some(scene), Some(actor_key)) => match (
                scenes.spec_snapshot_for(scene.key),
                actors.spec_lineage(actor_key),
            ) {
                (None, _) => Some("cue.scene-lineage-unavailable"),
                (Some(_), None) => Some("cue.actor-lineage-unavailable"),
                (Some(scene), Some(actor)) => if scene.scope.scene_id is None {
                    Some("cue.scene-identifier-unavailable")
                } else if actor.scope.actor_id is None {
                    Some("cue.actor-identifier-unavailable")
                } else if self.next_cue_id.next == u64::MAX {
                    Some("cue.identifier-exhausted")
                } else {
                    None
                },
            },
        }
    }

    /// A cue that begins with the next number.
    pub open spec fn is_prepared(
        self,
        producer: CueLifecycleProducer,
        scenes: SceneRegistry,
        actors: ActorRegistry,
        operation: CueOperation,
        run: usize,
    ) -> bool {
        let scene = scenes.spec_snapshot_for(operation.scene->0.key)->0;
        let actor = actors.spec_lineage(operation.actor_key->0)->0;
        &&& producer.cue_scope.cue_id matches Some(cue_id) && cue_id@
            == crate::identifier::numbered("cue-"@, self.next_cue_id.next)
        &&& producer == (CueLifecycleProducer {
            run,
            cued_key: operation.cued_key,
            cue_scope: DiagnosticScope {
                scene_id: scene.scope.scene_id,
                actor_id: actor.scope.actor_id,
                cue_id: producer.cue_scope.cue_id,
                ..DiagnosticScope::of_run()
            },
            actor_scope: DiagnosticScope {
                actor_id: actor.scope.actor_id,
                ..DiagnosticScope::of_run()
            },
            scene_span_id: scene.scene_span_id,
            state: CueLifecycleState {
                phase: CuePhase::Starting,
                cancel_sequence: None,
                caller_finished: false,
                producer_failed: false,
            },
        })
    }

    /// Prepares the producer of a cue. A run without diagnostics has none.
    pub fn prepare(
        &mut self,
        runtimes: &RuntimeProducerRegistry,
        scenes: &SceneRegistry,
        actors: &ActorRegistry,
        operation: &CueOperation,
    ) -> (result: Result<Option<CueLifecycleProducer>, &'static str>)
        requires
            runtimes.wf(),
        ensures
            final(self)@ == old(self)@,
            match runtimes.spec_run_bound(operation.binding_key) {
                None => {
                    &&& result == Ok::<Option<CueLifecycleProducer>, &'static str>(None)
                    &&& final(self).next_cue_id == old(self).next_cue_id
                },
                Some(run) => match old(self).prepare_problem(*scenes, *actors, *operation) {
                    Some(code) => {
                        &&& result == Err::<Option<CueLifecycleProducer>, &'static str>(code)
                        &&& final(self).next_cue_id == old(self).next_cue_id
                    },
                    None => {
                        &&& final(self).next_cue_id.next == old(self).next_cue_id.next + 1
                        &&& result matches Ok(Some(producer))
                        &&& old(self).is_prepared(producer, *scenes, *actors, *operation, run)
                    },
                },
            },
    {
        let run = match runtimes.run_bound(operation.binding_key) {
            Some(run) => run,
            None => return Ok(None),
        };
        let scene = match &operation.scene {
            Some(scene) => scene,
            None => return Err("cue.scene-lineage-unavailable"),
        };
        let actor_key = match operation.actor_key {
            Some(actor_key) => actor_key,
            None => return Err("cue.actor-lineage-unavailable"),
        };
        let scene_lineage = match scenes.snapshot_for_scene(scene) {
            Some(lineage) => lineage,
            None => return Err("cue.scene-lineage-unavailable"),
        };
        let actor_lineage = match actors.lineage_snapshot(actor_key) {
            Some(lineage) => lineage,
            None => return Err("cue.actor-lineage-unavailable"),
        };
        if scene_lineage.scope.scene_id.is_none() {
            return Err("cue.scene-identifier-unavailable");
        }
        if actor_lineage.scope.actor_id.is_none() {
            return Err("cue.actor-identifier-unavailable");
        }
        let value = match self.next_cue_id.take() {
            Some(value) => value,
            None => return Err("cue.identifier-exhausted"),
        };
        let cue_scope = DiagnosticScope {
            scene_id: copy_id(&scene_lineage.scope.scene_id),
            actor_id: copy_id(&actor_lineage.scope.actor_id),
            cue_id: Some(numbered_id("cue-", value)),
            effect_id: None,
            act_id: None,
            tool_call_id: None,
            session_generation: None,
        };
        let actor_scope = DiagnosticScope {
            scene_id: None,
            actor_id: copy_id(&actor_lineage.scope.actor_id),
            cue_id: None,
            effect_id: None,
            act_id: None,
            tool_call_id: None,
            session_generation: None,
        };
        Ok(
            Some(
                CueLifecycleProducer {
                    run,
                    cued_key: operation.cued_key,
                    cue_scope,
                    actor_scope,
                    scene_span_id: scene_lineage.scene_span_id,
                    state: CueLifecycleState {
                        phase: CuePhase::Starting,
                        cancel_sequence: None,
                        caller_finished: false,
                        producer_failed: false,
                    },
                },
            ),
        )
    }

    pub open spec fn on_admitted<A: SpanEventAdmission>(
        self,
        after: Self,
        runtimes: RuntimeProducerRegistry,
        scenes: SceneRegistry,
        actors: ActorRegistry,
        runs: DiagnosticRuns<A>,
        runs_after: DiagnosticRuns<A>,
        operation: CueOperation,
    ) -> bool {
        if self@.contains_key(operation.cued_key) {
            &&& after@ == self@
            &&& after.next_cue_id == self.next_cue_id
            &&& runtimes.latched_for(
                runs_after,
                runs,
                operation.binding_key,
                "cue.lifecycle-already-started",
            )
        } else {
            match runtimes.spec_run_bound(operation.binding_key) {
                None => {
                    &&& after@ == self@
                    &&& after.next_cue_id == self.next_cue_id
                    &&& runs_after == runs
                },
                Some(run) => match self.prepare_problem(scenes, actors, operation) {
                    Some(code) => {
                        &&& after@ == self@
                        &&& after.next_cue_id == self.next_cue_id
                        &&& runtimes.latched_for(runs_after, runs, operation.binding_key, code)
                    },
                    None => {
                        &&& after.next_cue_id.next == self.next_cue_id.next + 1
                        &&& runs_after.only_changes(runs, run as int)
                        &&& exists|producer: CueLifecycleProducer|
                            {
                                &&& #[trigger] self.is_prepared(
                                    producer,
                                    scenes,
                                    actors,
                                    operation,
                                    run,
                                )
                                &&& after@.contains_key(operation.cued_key)
                                &&& after@ =~= self@.insert(
                                    operation.cued_key,
                                    after@[operation.cued_key],
                                )
                                &&& producer.on_admitted(
                                    after@[operation.cued_key],
                                    runs@[run as int],
                                    runs_after@[run as int],
                                )
                            }
                    },
                },
            }
        }
    }

    /// A cue is admitted.
    pub fn admitted<A: SpanEventAdmission>(
        &mut self,
        runtimes: &RuntimeProducerRegistry,
        scenes: &SceneRegistry,
        actors: &ActorRegistry,
        runs: &mut DiagnosticRuns<A>,
        operation: &CueOperation,
    )
        requires
            old(self).fits(*old(runs)),
            runtimes.wf(),
            runtimes.fits(*old(runs)),
        ensures
            final(self).fits(*final(runs)),
            final(runs)@.len() == old(runs)@.len(),
            old(self).on_admitted(
                *final(self),
                *runtimes,
                *scenes,
                *actors,
                *old(runs),
                *final(runs),
                *operation,
            ),
    {
        let key: usize = operation_key(operation);
        if self.producers.contains_key(&key) {
            self.latch_missing(runtimes, runs, operation, "cue.lifecycle-already-started");
            return;
        }
        let mut producer = match self.prepare(runtimes, scenes, actors, operation) {
            Ok(Some(producer)) => producer,
            Ok(None) => return,
            Err(code) => {
                self.latch_missing(runtimes, runs, operation, code);
                return;
            },
        };
        let ghost prepared = producer;
        let run: usize = producer.run;
        producer.admitted(&mut runs.runs[run]);
        self.producers.insert(key, producer);
        assert(old(self).is_prepared(prepared, *scenes, *actors, *operation, run));
    }

    /// A hook came for a cue that is not under way.
    pub fn latch_missing<A: SpanEventAdmission>(
        &self,
        runtimes: &RuntimeProducerRegistry,
        runs: &mut DiagnosticRuns<A>,
        operation: &CueOperation,
        code: &'static str,
    )
        requires
            runtimes.wf(),
            runtimes.fits(*old(runs)),
        ensures
            final(runs)@.len() == old(runs)@.len(),
            runtimes.latched_for(*final(runs), *old(runs), operation.binding_key, code),
    {
        runtimes.latch_for_binding(runs, operation.binding_key, code);
    }

    /// The cue with the key has become `producer`, and only its run has changed.
    pub open spec fn stepped<A: SpanEventAdmission>(
        self,
        after: Self,
        runs: DiagnosticRuns<A>,
        runs_after: DiagnosticRuns<A>,
        key: usize,
    ) -> bool {
        &&& after.next_cue_id == self.next_cue_id
        &&& runs_after.only_changes(runs, self@[key].run as int)
        &&& after@.contains_key(key)
        &&& after@ =~= self@.insert(key, after@[key])
    }

    /// A hook came for a cue that is not under way: the run hears of it.
    pub open spec fn missed<A: SpanEventAdmission>(
        self,
        after: Self,
        runtimes: RuntimeProducerRegistry,
        runs: DiagnosticRuns<A>,
        runs_after: DiagnosticRuns<A>,
        operation: CueOperation,
        code: &'static str,
    ) -> bool {
        &&& after@ == self@
        &&& after.next_cue_id == self.next_cue_id
        &&& runtimes.latched_for(runs_after, runs, operation.binding_key, code)
    }

    pub open spec fn on_dispatched<A: SpanEventAdmission>(
        self,
        after: Self,
        runtimes: RuntimeProducerRegistry,
        runs: DiagnosticRuns<A>,
        runs_after: DiagnosticRuns<A>,
        operation: CueOperation,
    ) -> bool {
        let key = operation.cued_key;
        let run = self@[key].run as int;
        if self@.contains_key(key) {
            &&& self.stepped(after, runs, runs_after, key)
            &&& self@[key].on_dispatched(after@[key], runs@[run], runs_after@[run])
        } else {
            self.missed(after, runtimes, runs, runs_after, operation, "cue.lifecycle-unavailable")
        }
    }

    pub open spec fn on_cancel_requested<A: SpanEventAdmission>(
        self,
        after: Self,
        runtimes: RuntimeProducerRegistry,
        runs: DiagnosticRuns<A>,
        runs_after: DiagnosticRuns<A>,
        operation: CueOperation,
    ) -> bool {
        let key = operation.cued_key;
        let run = self@[key].run as int;
        if self@.contains_key(key) {
            &&& self.stepped(after, runs, runs_after, key)
            &&& self@[key].on_cancel_requested(after@[key], runs@[run], runs_after@[run])
        } else {
            self.missed(after, runtimes, runs, runs_after, operation, "cue.lifecycle-unavailable")
        }
    }

    /// The effects of the cue hear of the caller first, then the cue does.
    pub open spec fn on_caller_finished<A: SpanEventAdmission>(
        self,
        after: Self,
        effects: EffectRegistry,
        effects_after: EffectRegistry,
        runs: DiagnosticRuns<A>,
        runs_after: DiagnosticRuns<A>,
        operation: CueOperation,
        caller: CueCallerOutcome,
    ) -> bool {
        let key = operation.cued_key;
        let run = self@[key].run as int;
        exists|runs_between: DiagnosticRuns<A>|
            {
                &&& #[trigger] EffectRegistry::all_told(
                    effects@,
                    effects_after@,
                    runs@,
                    runs_between@,
                    key,
                    OwnerEvent::CallerFinished { caller },
                )
                &&& if self@.contains_key(key) {
                    &&& self.stepped(after, runs_between, runs_after, key)
                    &&& self@[key].on_caller_finished(
                        after@[key],
                        runs_between@[run],
                        runs_after@[run],
                    )
                } else {
                    &&& after@ == self@
                    &&& after.next_cue_id == self.next_cue_id
                    &&& runs_after == runs_between
                }
            }
    }

    /// What came of a hook of a cue.
    pub open spec fn on_observed<A: SpanEventAdmission>(
        self,
        after: Self,
        runtimes: RuntimeProducerRegistry,
        scenes: SceneRegistry,
        actors: ActorRegistry,
        effects: EffectRegistry,
        effects_after: EffectRegistry,
        runs: DiagnosticRuns<A>,
        runs_after: DiagnosticRuns<A>,
        operation: CueOperation,
        hook: CueHook,
    ) -> bool {
        match hook {
            CueHook::Admitted => self.on_admitted(
                after,
                runtimes,
                scenes,
                actors,
                runs,
                runs_after,
                operation,
            ),
            CueHook::Dispatched => self.on_dispatched(
                after,
                runtimes,
                runs,
                runs_after,
                operation,
            ),
            CueHook::CancelRequested => self.on_cancel_requested(
                after,
                runtimes,
                runs,
                runs_after,
                operation,
            ),
            CueHook::CallerFinished { caller } => self.on_caller_finished(
                after,
                effects,
                effects_after,
                runs,
                runs_after,
                operation,
                caller,
            ),
        }
    }

    /// Takes a hook of a cue.
    pub fn observe<A: SpanEventAdmission>(
        &mut self,
        runtimes: &RuntimeProducerRegistry,
        scenes: &SceneRegistry,
        actors: &ActorRegistry,
        effects: &mut EffectRegistry,
        runs: &mut DiagnosticRuns<A>,
        operation: &CueOperation,
        hook: CueHook,
    )
        requires
            old(self).fits(*old(runs)),
            runtimes.wf(),
            runtimes.fits(*old(runs)),
            old(effects).wf(),
            old(effects).fits(*old(runs)),
        ensures
            final(self).fits(*final(runs)),
            final(effects).wf(),
            final(effects).fits(*final(runs)),
            final(effects).next_effect_id == old(effects).next_effect_id,
            final(runs)@.len() == old(runs)@.len(),
            hook !is CallerFinished ==> *final(effects) == *old(effects),
            old(self).on_observed(
                *final(self),
                *runtimes,
                *scenes,
                *actors,
                *old(effects),
                *final(effects),
                *old(runs),
                *final(runs),
                *operation,
                hook,
            ),
    {
        let key: usize = operation_key(operation);
        match hook {
            CueHook::Admitted => self.admitted(runtimes, scenes, actors, runs, operation),
            CueHook::Dispatched => {
                match self.producers.remove(&key) {
                    Some(producer) => {
                        let mut producer = producer;
                        let run: usize = producer.run;
                        producer.dispatched(&mut runs.runs[run]);
                        self.producers.insert(key, producer);
                    },
                    None => {
                        assert(self@ =~= old(self)@);
                        self.latch_missing(runtimes, runs, operation, "cue.lifecycle-unavailable");
                    },
                }
            },
            CueHook::CancelRequested => {
                match self.producers.remove(&key) {
                    Some(producer) => {
                        let mut producer = producer;
                        let run: usize = producer.run;
                        producer.cancel_requested(&mut runs.runs[run]);
                        self.producers.insert(key, producer);
                    },
                    None => {
                        assert(self@ =~= old(self)@);
                        self.latch_missing(runtimes, runs, operation, "cue.lifecycle-unavailable");
                    },
                }
            },
            CueHook::CallerFinished { caller } => {
                effects.caller_finished(runs, key, caller);
                let ghost between = *runs;
                assert(EffectRegistry::all_told(
                    old(effects)@,
                    effects@,
                    old(runs)@,
                    between@,
                    key,
                    OwnerEvent::CallerFinished { caller },
                ));
                match self.producers.remove(&key) {
                    Some(producer) => {
                        let mut producer = producer;
                        let run: usize = producer.run;
                        producer.caller_finished(&mut runs.runs[run]);
                        self.producers.insert(key, producer);
                        assert(old(self).stepped(*self, between, *runs, key));
                    },
                    None => {
                        assert(self@ =~= old(self)@);
                    },
                }
            },
        }
    }

    pub open spec fn on_mailbox_changed<A: SpanEventAdmission>(
        self,
        after: Self,
        runtimes: RuntimeProducerRegistry,
        runs: DiagnosticRuns<A>,
        runs_after: DiagnosticRuns<A>,
        operation: CueOperation,
        hook: CueMailboxHook,
        queued: usize,
        running: bool,
    ) -> bool {
        let key = operation.cued_key;
        let run = self@[key].run as int;
        match hook {
            CueMailboxHook::Enqueued => if self@.contains_key(key) {
                &&& self.stepped(after, runs, runs_after, key)
                &&& self@[key].on_enqueued(
                    after@[key],
                    runs@[run],
                    runs_after@[run],
                    queued,
                    running,
                )
            } else {
                self.missed(
                    after,
                    runtimes,
                    runs,
                    runs_after,
                    operation,
                    "cue.lifecycle-unavailable",
                )
            },
            CueMailboxHook::Retired => if self@.contains_key(key) {
                &&& after@ =~= self@.remove(key)
                &&& after.next_cue_id == self.next_cue_id
                &&& runs_after.only_changes(runs, run)
                &&& exists|producer_after: CueLifecycleProducer| #[trigger]
                    self@[key].on_retired(
                        producer_after,
                        runs@[run],
                        runs_after@[run],
                        queued,
                        running,
                    )
            } else {
                self.missed(
                    after,
                    runtimes,
                    runs,
                    runs_after,
                    operation,
                    "cue.mailbox-retire-without-lifecycle",
                )
            },
        }
    }

    /// The mailbox of a cue has changed. A cue that was retired is forgotten.
    pub fn mailbox_changed<A: SpanEventAdmission>(
        &mut self,
        runtimes: &RuntimeProducerRegistry,
        runs: &mut DiagnosticRuns<A>,
        operation: &CueOperation,
        hook: CueMailboxHook,
        queued: usize,
        running: bool,
    )
        requires
            old(self).fits(*old(runs)),
            runtimes.wf(),
            runtimes.fits(*old(runs)),
        ensures
            final(self).fits(*final(runs)),
            final(runs)@.len() == old(runs)@.len(),
            old(self).on_mailbox_changed(
                *final(self),
                *runtimes,
                *old(runs),
                *final(runs),
                *operation,
                hook,
                queued,
                running,
            ),
    {
        let key: usize = operation_key(operation);
        match self.producers.remove(&key) {
            Some(producer) => {
                let mut producer = producer;
                let run: usize = producer.run;
                match hook {
                    CueMailboxHook::Enqueued => {
                        producer.enqueued(&mut runs.runs[run], queued, running);
                        self.producers.insert(key, producer);
                    },
                    CueMailboxHook::Retired => {
                        producer.retired(&mut runs.runs[run], queued, running);
                        assert(old(self)@[key].on_retired(
                            producer,
                            old(runs)@[run as int],
                            runs@[run as int],
                            queued,
                            running,
                        ));
                    },
                }
            },
            None => {
                assert(self@ =~= old(self)@);
                let code = match hook {
                    CueMailboxHook::Enqueued => "cue.lifecycle-unavailable",
                    CueMailboxHook::Retired => "cue.mailbox-retire-without-lifecycle",
                };
                self.latch_missing(runtimes, runs, operation, code);
            },
        }
    }

    /// What the end of a cue does: the cue decides, its effects hear of it, then the cue reports
    /// it.
    pub open spec fn ended<A: SpanEventAdmission>(
        self,
        producer_after: CueLifecycleProducer,
        effects: EffectRegistry,
        effects_after: EffectRegistry,
        runs: DiagnosticRuns<A>,
        runs_after: DiagnosticRuns<A>,
        key: usize,
        outcome: CueTerminalOutcome,
        has_error: bool,
    ) -> bool {
        let producer = self@[key];
        let run = producer.run as int;
        match (producer.spec_ending(outcome), producer.state.producer_failed) {
            (Ok(ending), false) if outcome is Completed || has_error => exists|
                runs_between: DiagnosticRuns<A>,
            |
                {
                    &&& #[trigger] EffectRegistry::all_told(
                        effects@,
                        effects_after@,
                        runs@,
                        runs_between@,
                        key,
                        OwnerEvent::Terminal { outcome, source: ending.source },
                    )
                    &&& runs_after.only_changes(runs_between, run)
                    &&& producer.on_terminal_ended(
                        producer_after,
                        runs_between@[run],
                        runs_after@[run],
                        ending,
                    )
                },
            _ => {
                &&& effects_after@ == effects@
                &&& runs_after.only_changes(runs, run)
                &&& producer.on_terminal_begun(
                    producer_after,
                    runs@[run],
                    runs_after@[run],
                    outcome,
                    has_error,
                    None,
                )
            },
        }
    }

    pub open spec fn on_terminal<A: SpanEventAdmission>(
        self,
        after: Self,
        runtimes: RuntimeProducerRegistry,
        effects: EffectRegistry,
        effects_after: EffectRegistry,
        runs: DiagnosticRuns<A>,
        runs_after: DiagnosticRuns<A>,
        operation: CueOperation,
        outcome: CueTerminalOutcome,
        has_error: bool,
    ) -> bool {
        let key = operation.cued_key;
        if !self@.contains_key(key) {
            &&& effects_after@ == effects@
            &&& self.missed(
                after,
                runtimes,
                runs,
                runs_after,
                operation,
                "cue.terminal-without-lifecycle",
            )
        } else {
            exists|producer_after: CueLifecycleProducer|
                {
                    &&& #[trigger] self.ended(
                        producer_after,
                        effects,
                        effects_after,
                        runs,
                        runs_after,
                        key,
                        outcome,
                        has_error,
                    )
                    &&& after.next_cue_id == self.next_cue_id
                    &&& after@ =~= if operation.actor_key is None {
                        self@.remove(key)
                    } else {
                        self@.insert(key, producer_after)
                    }
                }
        }
    }

    /// A cue has ended. `error_available` tells whether the error is at hand that a cue which did
    /// not complete has to end with. A cue without an actor has no mailbox to leave and is
    /// forgotten.
    pub fn terminal<A: SpanEventAdmission>(
        &mut self,
        runtimes: &RuntimeProducerRegistry,
        effects: &mut EffectRegistry,
        runs: &mut DiagnosticRuns<A>,
        operation: &CueOperation,
        outcome: CueTerminalOutcome,
        error_available: bool,
    )
        requires
            old(self).fits(*old(runs)),
            runtimes.wf(),
            runtimes.fits(*old(runs)),
            old(effects).wf(),
            old(effects).fits(*old(runs)),
        ensures
            final(self).fits(*final(runs)),
            final(effects).wf(),
            final(effects).fits(*final(runs)),
            final(effects).next_effect_id == old(effects).next_effect_id,
            final(runs)@.len() == old(runs)@.len(),
            old(self).on_terminal(
                *final(self),
                *runtimes,
                *old(effects),
                *final(effects),
                *old(runs),
                *final(runs),
                *operation,
                outcome,
                error_available,
            ),
    {
        let key: usize = operation_key(operation);
        let mut producer = match self.producers.remove(&key) {
            Some(producer) => producer,
            None => {
                assert(self@ =~= old(self)@);
                self.latch_missing(runtimes, runs, operation, "cue.terminal-without-lifecycle");
                return;
            },
        };
        let run: usize = producer.run;
        let has_error = matches!(outcome, CueTerminalOutcome::Completed) || error_available;
        let ghost before = producer;
        if let Some(ending) = producer.begin_terminal(&mut runs.runs[run], outcome, has_error) {
            assert(runs@ =~= old(runs)@);
            effects.cue_terminal(runs, key, outcome, ending.source);
            let ghost between = *runs;
            producer.end_terminal(&mut runs.runs[run], ending);
            assert(EffectRegistry::all_told(
                old(effects)@,
                effects@,
                old(runs)@,
                between@,
                key,
                OwnerEvent::Terminal { outcome, source: ending.source },
            ));
        }
        let ghost producer_after = producer;
        if operation.actor_key.is_some() {
            self.producers.insert(key, producer);
        }
        assert(old(self).ended(
            producer_after,
            *old(effects),
            *effects,
            *old(runs),
            *runs,
            key,
            outcome,
            error_available,
        ));
    }
}

/// A cue that has ended is not reported any more, but for the depth of the mailbox that it leaves.
pub proof fn ended_cue_rests<A: SpanEventAdmission>(
    cue: CueLifecycleProducer,
    after: CueLifecycleProducer,
    run: DiagnosticRun<A>,
    run_after: DiagnosticRun<A>,
    queued: usize,
    running: bool,
    outcome: CueTerminalOutcome,
    has_error: bool,
    ending: Option<CueEnding>,
)
    requires
        cue.state.phase is Terminal,
        cue.on_admitted(after, run, run_after) || cue.on_enqueued(
            after,
            run,
            run_after,
            queued,
            running,
        ) || cue.on_dispatched(after, run, run_after) || cue.on_cancel_requested(
            after,
            run,
            run_after,
        ) || cue.on_caller_finished(after, run, run_after) || (cue.on_terminal_begun(
            after,
            run,
            run_after,
            outcome,
            has_error,
            ending,
        ) && ending is None),
    ensures
        run_after.context == run.context,
        after.state.phase is Terminal,
{
}

/// A cue that has ended cannot end again.
pub proof fn cue_ends_once<A: SpanEventAdmission>(
    cue: CueLifecycleProducer,
    after: CueLifecycleProducer,
    run: DiagnosticRun<A>,
    run_after: DiagnosticRun<A>,
    outcome: CueTerminalOutcome,
    has_error: bool,
    ending: Option<CueEnding>,
)
    requires
        cue.state.phase is Terminal,
        cue.on_terminal_begun(after, run, run_after, outcome, has_error, ending),
    ensures
        ending is None,
{
}

impl CueLifecycleProducer {
    /// What the facts of the cue refer to is in the trace.
    pub open spec fn is_rooted(self, trace: Seq<Attempt>) -> bool {
        &&& crate::references::begun_in(trace, self.scene_span_id)
        &&& match self.state.phase {
            CuePhase::Starting => true,
            CuePhase::Admitted { admitted_sequence } => {
                crate::references::accepted_in(trace, admitted_sequence)
            },
            CuePhase::Enqueued { enqueued_sequence, wait_span_id } => {
                &&& crate::references::accepted_in(trace, enqueued_sequence)
                &&& crate::references::begun_in(trace, wait_span_id)
            },
            CuePhase::Dispatched { execution_span_id } => {
                crate::references::begun_in(trace, execution_span_id)
            },
            CuePhase::Terminal { terminal_sequence } => terminal_sequence matches Some(sequence)
                ==> crate::references::accepted_in(trace, sequence),
        }
        &&& self.state.cancel_sequence matches Some(sequence) ==> crate::references::accepted_in(
            trace,
            sequence,
        )
    }

    /// Something happened to the cue that it reports.
    pub open spec fn steps_to<A: SpanEventAdmission>(
        self,
        after: Self,
        run: DiagnosticRun<A>,
        run_after: DiagnosticRun<A>,
    ) -> bool {
        ||| self.on_admitted(after, run, run_after)
        ||| exists|queued: usize, running: bool| #[trigger]
            self.on_enqueued(after, run, run_after, queued, running)
        ||| self.on_dispatched(after, run, run_after)
        ||| self.on_cancel_requested(after, run, run_after)
        ||| self.on_caller_finished(after, run, run_after)
        ||| exists|outcome: CueTerminalOutcome, ending: CueEnding|
            #[trigger] self.spec_ending(outcome) == Ok::<CueEnding, &'static str>(ending)
                && #[trigger] self.on_terminal_ended(after, run, run_after, ending)
        ||| exists|queued: usize, running: bool| #[trigger]
            self.on_retired(after, run, run_after, queued, running)
    }

    proof fn admission_refers_back<A: SpanEventAdmission>(
        self,
        after: Self,
        run: DiagnosticRun<A>,
        run_after: DiagnosticRun<A>,
    )
        requires
            crate::references::refer_back(run.context.trace()),
            self.is_rooted(run.context.trace()),
            self.on_admitted(after, run, run_after),
            run_after.context != run.context,
        ensures
            crate::references::refer_back(run_after.context.trace()),
            crate::references::goes_on(run.context.trace(), run_after.context.trace()),
            after.is_rooted(run_after.context.trace()),
    {
        let plan = self.admission_plan();
        assert forall|accepted: Seq<u64>|
            #[trigger] crate::references::sound_after(plan, run.context.trace(), accepted) by {
            assert(accepted.len() == 1 ==> accepted.contains(accepted[0]));
        }
        crate::references::sound_plans_refer_back(run_after.context, run.context, plan);
        if !run_after.stopped_since(run) {
            assert(crate::references::accepted_in(
                run_after.context.trace(),
                run_after.accepted_since(run)[0],
            ));
        }
    }

    proof fn enqueuing_refers_back<A: SpanEventAdmission>(
        self,
        run: DiagnosticRun<A>,
        run_after: DiagnosticRun<A>,
        admitted_sequence: u64,
        depth: Option<u64>,
    )
        requires
            crate::references::refer_back(run.context.trace()),
            crate::references::begun_in(run.context.trace(), self.scene_span_id),
            crate::references::accepted_in(run.context.trace(), admitted_sequence),
            run_after.follows(run, self.enqueue_plan(admitted_sequence, depth)),
        ensures
            crate::references::refer_back(run_after.context.trace()),
            crate::references::goes_on(run.context.trace(), run_after.context.trace()),
            run_after.accepted_since(run).len() >= 2 ==> {
                &&& crate::references::accepted_in(
                    run_after.context.trace(),
                    run_after.accepted_since(run)[0],
                )
                &&& crate::references::begun_in(
                    run_after.context.trace(),
                    run_after.accepted_since(run)[1],
                )
            },
    {
        let plan = self.enqueue_plan(admitted_sequence, depth);
        assert forall|accepted: Seq<u64>|
            #[trigger] crate::references::sound_after(plan, run.context.trace(), accepted) by {
            assert(accepted.len() >= 1 ==> accepted.contains(accepted[0]));
        }
        crate::references::sound_plans_refer_back(run_after.context, run.context, plan);
        let accepted = run_after.accepted_since(run);
        if accepted.len() >= 2 {
            assert(crate::references::starts_at(plan, accepted, 1));
            assert(crate::references::accepted_in(run_after.context.trace(), accepted[0]));
        }
    }

    proof fn dispatch_refers_back<A: SpanEventAdmission>(
        self,
        after: Self,
        run: DiagnosticRun<A>,
        run_after: DiagnosticRun<A>,
    )
        requires
            crate::references::refer_back(run.context.trace()),
            self.is_rooted(run.context.trace()),
            self.on_dispatched(after, run, run_after),
            run_after.context != run.context,
        ensures
            crate::references::refer_back(run_after.context.trace()),
            crate::references::goes_on(run.context.trace(), run_after.context.trace()),
            after.is_rooted(run_after.context.trace()),
    {
        let plan = self.dispatch_plan(
            self.state.phase->enqueued_sequence,
            self.state.phase->wait_span_id,
        );
        assert forall|accepted: Seq<u64>|
            #[trigger] crate::references::sound_after(plan, run.context.trace(), accepted) by {
            assert(accepted.len() >= 1 ==> accepted.contains(accepted[0]));
        }
        crate::references::sound_plans_refer_back(run_after.context, run.context, plan);
        let accepted = run_after.accepted_since(run);
        if !run_after.stopped_since(run) {
            assert(crate::references::starts_at(plan, accepted, 2));
        }
    }

    proof fn ending_refers_back<A: SpanEventAdmission>(
        self,
        after: Self,
        run: DiagnosticRun<A>,
        run_after: DiagnosticRun<A>,
        outcome: CueTerminalOutcome,
        ending: CueEnding,
    )
        requires
            crate::references::refer_back(run.context.trace()),
            self.is_rooted(run.context.trace()),
            self.spec_ending(outcome) == Ok::<CueEnding, &'static str>(ending),
            self.on_terminal_ended(after, run, run_after, ending),
        ensures
            crate::references::refer_back(run_after.context.trace()),
            crate::references::goes_on(run.context.trace(), run_after.context.trace()),
            after.is_rooted(run_after.context.trace()),
    {
        let plan = self.end_plan(ending);
        assert forall|accepted: Seq<u64>|
            #[trigger] crate::references::sound_after(plan, run.context.trace(), accepted) by {
            assert(accepted.len() >= 1 ==> accepted.contains(accepted[0]));
        }
        crate::references::sound_plans_refer_back(run_after.context, run.context, plan);
        let accepted = run_after.accepted_since(run);
        if !run_after.stopped_since(run) {
            assert(accepted.len() > 0);
            assert(crate::references::accepted_in(
                run_after.context.trace(),
                accepted[accepted.len() - 1],
            ));
        }
    }
}

/// Whatever a cue reports refers only to what was reported before.
pub proof fn facts_of_a_cue_refer_back<A: SpanEventAdmission>(
    cue: CueLifecycleProducer,
    after: CueLifecycleProducer,
    run: DiagnosticRun<A>,
    run_after: DiagnosticRun<A>,
)
    requires
        crate::references::refer_back(run.context.trace()),
        cue.is_rooted(run.context.trace()),
        cue.steps_to(after, run, run_after),
    ensures
        crate::references::refer_back(run_after.context.trace()),
        crate::references::goes_on(run.context.trace(), run_after.context.trace()),
        after.is_rooted(run_after.context.trace()),
{
    crate::references::what_began_stays_begun(run.context.trace(), run.context.trace());
    if cue.on_admitted(after, run, run_after) {
        if run_after.context != run.context {
            cue.admission_refers_back(after, run, run_after);
        }
    } else if exists|queued: usize, running: bool| #[trigger]
        cue.on_enqueued(after, run, run_after, queued, running) {
        let (queued, running) = choose|queued: usize, running: bool| #[trigger]
            cue.on_enqueued(after, run, run_after, queued, running);
        if run_after.context != run.context {
            let admitted_sequence = cue.state.phase->admitted_sequence;
            if spec_mailbox_depth(queued, running) > usize::MAX {
                let plan = cue.enqueue_plan(admitted_sequence, None);
                let run_between = choose|run_between: DiagnosticRun<A>|
                    {
                        &&& #[trigger] run_between.follows(run, plan)
                        &&& after == cue.failed()
                        &&& run_after == if run_between.stopped_since(run) {
                            run_between
                        } else {
                            run_between.with_state_failure("cue.mailbox-depth-overflow")
                        }
                    };
                cue.enqueuing_refers_back(run, run_between, admitted_sequence, None);
            } else {
                let depth = spec_mailbox_depth(queued, running) as u64;
                cue.enqueuing_refers_back(run, run_after, admitted_sequence, Some(depth));
            }
        }
    } else if cue.on_dispatched(after, run, run_after) {
        if run_after.context != run.context {
            cue.dispatch_refers_back(after, run, run_after);
        }
    } else if cue.on_cancel_requested(after, run, run_after) {
        if run_after.context != run.context {
            let (source, containing_span_id) = cue.cancel_point()->0;
            crate::references::one_fact_refers_back(
                run_after.context,
                run.context,
                EventCandidate::instant(
                    cue.cue_scope,
                    InstantDetail::CueCancelRequested,
                    Some(containing_span_id),
                    CausalLink::to(source, CausalRelation::Handoff),
                ),
            );
        }
    } else if cue.on_caller_finished(after, run, run_after) {
    } else if exists|outcome: CueTerminalOutcome, ending: CueEnding|
        #[trigger] cue.spec_ending(outcome) == Ok::<CueEnding, &'static str>(ending)
            && #[trigger] cue.on_terminal_ended(after, run, run_after, ending) {
        let (outcome, ending) = choose|outcome: CueTerminalOutcome, ending: CueEnding|
            #[trigger] cue.spec_ending(outcome) == Ok::<CueEnding, &'static str>(ending)
                && #[trigger] cue.on_terminal_ended(after, run, run_after, ending);
        cue.ending_refers_back(after, run, run_after, outcome, ending);
    } else {
        let (queued, running) = choose|queued: usize, running: bool| #[trigger]
            cue.on_retired(after, run, run_after, queued, running);
        if run_after.context != run.context {
            crate::references::one_fact_refers_back(
                run_after.context,
                run.context,
                EventCandidate::counter(
                    cue.actor_scope,
                    CounterKind::ActorMailboxDepth,
                    spec_mailbox_depth(queued, running) as u64,
                    match cue.state.phase->terminal_sequence {
                        Some(sequence) => CausalLink::after(sequence),
                        None => None,
                    },
                ),
            );
        }
    }
}

/// Two cues that began one after the other have different identifiers.
pub proof fn prepared_cues_are_apart(
    cues: CueRegistry,
    later: CueRegistry,
    first: CueLifecycleProducer,
    second: CueLifecycleProducer,
    scenes: SceneRegistry,
    actors: ActorRegistry,
    operation: CueOperation,
    run: usize,
    later_scenes: SceneRegistry,
    later_actors: ActorRegistry,
    later_operation: CueOperation,
    later_run: usize,
)
    requires
        cues.is_prepared(first, scenes, actors, operation, run),
        cues.next_cue_id.next < later.next_cue_id.next,
        later.is_prepared(second, later_scenes, later_actors, later_operation, later_run),
    ensures
        first.cue_scope.cue_id->0@ != second.cue_scope.cue_id->0@,
{
    crate::identifier::numbered_ids_are_distinct(
        "cue-"@,
        cues.next_cue_id.next,
        later.next_cue_id.next,
    );
}

/// The open span of a cue ends as the cue did: it completed exactly where the cue completed, was
/// cancelled exactly where the cue was cancelled, and failed exactly where the cue or its cleanup
/// failed. It has a code exactly where it did not complete. Then the cue is no longer active.
pub proof fn cue_ends_as_it_did<A: SpanEventAdmission>(
    cue: CueLifecycleProducer,
    after: CueLifecycleProducer,
    run: DiagnosticRun<A>,
    run_between: DiagnosticRun<A>,
    run_after: DiagnosticRun<A>,
    outcome: CueTerminalOutcome,
    has_error: bool,
    ending: CueEnding,
)
    requires
        cue.on_terminal_begun(cue, run, run_between, outcome, has_error, Some(ending)),
        cue.on_terminal_ended(after, run_between, run_after, ending),
    ensures
        ({
            let facts = run_after.steps_since(run_between);
            let open = match cue.state.phase {
                CuePhase::Enqueued { wait_span_id, .. } => Some(wait_span_id),
                CuePhase::Dispatched { execution_span_id } => Some(execution_span_id),
                _ => None,
            };
            &&& outcome is Completed ==> cue.state.phase is Dispatched
            &&& forall|i: int|
                0 <= i < facts.len() && (#[trigger] facts[i]).candidate.body is SpanFinished ==> {
                    let body = facts[i].candidate.body;
                    &&& i == 0
                    &&& Some(body->SpanFinished_span_id) == open
                    &&& body->outcome is Completed <==> outcome is Completed
                    &&& body->outcome is Cancelled <==> outcome is Cancelled
                    &&& body->outcome is Failed <==> outcome is Failed || outcome is CleanupFailed
                    &&& outcome is Cancelled ==> body->error_code->0@ == "cue-cancelled"@
                    &&& outcome is CleanupFailed ==> body->error_code->0@ == "cue-cleanup-failed"@
                    &&& outcome is Failed ==> body->error_code->0@ == if cue.state.phase
                        is Dispatched {
                        "cue-execution-failed"@
                    } else {
                        "cue-dispatch-failed"@
                    }
                    &&& body->error_code is None <==> outcome is Completed
                    &&& facts[i].candidate.cause matches Some(cause)
                    &&& cause.relation is Handoff <==> cue.state.cancel_sequence is Some
                    &&& cue.state.cancel_sequence matches Some(asked) ==> cause.sequence == asked
                }
            &&& open is Some ==> facts.len() > 0 && facts[0].candidate.body is SpanFinished
            &&& open is Some && cue.state.cancel_sequence is None ==> facts[0].candidate.cause
                == Some(
                CausalLink {
                    sequence: match cue.state.phase {
                        CuePhase::Enqueued { enqueued_sequence, .. } => enqueued_sequence,
                        _ => cue.state.phase->execution_span_id,
                    },
                    relation: CausalRelation::Return,
                },
            )
            &&& facts.len() == 2 ==> facts[1].candidate.cause == Some(
                CausalLink { sequence: facts[0].reply->Ok_0, relation: CausalRelation::FollowsFrom },
            )
            &&& open is None && facts.len() == 1 ==> facts[0].candidate.cause == Some(
                CausalLink {
                    sequence: match cue.state.cancel_sequence {
                        Some(asked) => asked,
                        None => cue.state.phase->admitted_sequence,
                    },
                    relation: CausalRelation::FollowsFrom,
                },
            )
            &&& after.state.phase is Terminal <==> forall|i: int|
                0 <= i < facts.len() ==> (#[trigger] facts[i]).reply is Ok
            &&& after.state.phase is Terminal ==> {
                &&& facts.len() == if open is Some { 2int } else { 1int }
                &&& facts.last().candidate.body == (crate::event::EventBody::CounterSampled {
                    kind: CounterKind::CueActive,
                    value: 0,
                })
                &&& !after.state.producer_failed || cue.state.producer_failed
            }
            &&& forall|i: int|
                0 <= i < facts.len() ==> (#[trigger] facts[i]).candidate.scope == cue.cue_scope
                    && !facts[i].candidate.unheard
        }),
{
    let plan = cue.end_plan(ending);
    crate::references::planned_facts(run_between.context, run_after.context, plan);
    let facts = run_after.steps_since(run_between);
    let given = |i: int| crate::references::sequences(facts, i);
    assert(plan(given(0)) is Some);
    assert(plan(given(2)) is None);
    if ending.span_id is None {
        assert(plan(given(1)) is None);
    }
    assert(facts.len() <= 2) by {
        if facts.len() > 2 {
            assert(plan(given(2)) == Some(facts[2].candidate));
        }
    }
}

/// A cue that is admitted is told in its scene, and counts as active from then on.
pub proof fn admitted_cue_becomes_active<A: SpanEventAdmission>(
    cue: CueLifecycleProducer,
    after: CueLifecycleProducer,
    run: DiagnosticRun<A>,
    run_after: DiagnosticRun<A>,
)
    requires
        cue.on_admitted(after, run, run_after),
        cue.state.phase is Starting,
    ensures
        ({
            let facts = run_after.steps_since(run);
            &&& 1 <= facts.len() <= 2
            &&& facts[0].candidate.cause is None
            &&& facts[0].candidate.body == (crate::event::EventBody::InstantOccurred {
                instant: InstantDetail::CueAdmitted,
                containing_span_id: Some(cue.scene_span_id),
            })
            &&& facts.len() == 2 ==> {
                &&& facts[1].candidate.body == (crate::event::EventBody::CounterSampled {
                    kind: CounterKind::CueActive,
                    value: 1,
                })
                &&& facts[1].candidate.cause == Some(
                    CausalLink {
                        sequence: facts[0].reply->Ok_0,
                        relation: CausalRelation::FollowsFrom,
                    },
                )
            }
            &&& forall|i: int|
                0 <= i < facts.len() ==> (#[trigger] facts[i]).candidate.scope == cue.cue_scope
            &&& after.state.phase is Admitted <==> facts.len() == 2 && facts[1].reply is Ok
            &&& after.state.phase matches CuePhase::Admitted { admitted_sequence }
                ==> admitted_sequence == facts[0].reply->Ok_0
            &&& run.failure is None ==> (run_after.failure is Some <==> after.state.phase
                !is Admitted)
        }),
{
    let plan = cue.admission_plan();
    crate::references::planned_facts(run.context, run_after.context, plan);
    let facts = run_after.steps_since(run);
    let given = |i: int| crate::references::sequences(facts, i);
    assert(plan(given(0)) is Some);
    assert(plan(given(1)) is Some);
    assert(plan(given(2)) is None);
    assert(facts.len() <= 2) by {
        if facts.len() > 2 {
            assert(plan(given(2)) == Some(facts[2].candidate));
        }
    }
}

/// A cue that is put into a mailbox is told in its scene, begins to wait there, and the depth of the
/// mailbox is told of its actor: those that are queued, and the one that runs.
pub proof fn enqueued_cue_waits<A: SpanEventAdmission>(
    cue: CueLifecycleProducer,
    after: CueLifecycleProducer,
    run: DiagnosticRun<A>,
    run_after: DiagnosticRun<A>,
    queued: usize,
)
    requires
        cue.on_enqueued(after, run, run_after, queued, true),
        cue.state.phase is Admitted,
        !cue.state.producer_failed,
        queued < usize::MAX,
    ensures
        ({
            let facts = run_after.steps_since(run);
            &&& 1 <= facts.len() <= 3
            &&& facts[0].candidate.body == (crate::event::EventBody::InstantOccurred {
                instant: InstantDetail::CueEnqueued,
                containing_span_id: Some(cue.scene_span_id),
            })
            &&& facts[0].candidate.scope == cue.cue_scope
            &&& facts[0].candidate.cause == Some(
                CausalLink {
                    sequence: cue.state.phase->admitted_sequence,
                    relation: CausalRelation::FollowsFrom,
                },
            )
            &&& facts.len() >= 2 ==> {
                &&& facts[1].candidate.cause == Some(
                    CausalLink { sequence: facts[0].reply->Ok_0, relation: CausalRelation::FollowsFrom },
                )
                &&& facts[1].candidate.body == (crate::event::EventBody::SpanStarted {
                    detail: SpanStartDetail::CueMailboxWait,
                    parent_span_id: Some(cue.scene_span_id),
                })
                &&& facts[1].candidate.scope == cue.cue_scope
            }
            &&& facts.len() == 3 ==> {
                &&& facts[2].candidate.cause == Some(
                    CausalLink { sequence: facts[0].reply->Ok_0, relation: CausalRelation::FollowsFrom },
                )
                &&& facts[2].candidate.body == (crate::event::EventBody::CounterSampled {
                    kind: CounterKind::ActorMailboxDepth,
                    value: (queued + 1) as u64,
                })
                &&& facts[2].candidate.scope == cue.actor_scope
            }
            &&& after.state.phase is Enqueued <==> facts.len() == 3 && facts[2].reply is Ok
            &&& after.state.phase matches CuePhase::Enqueued { enqueued_sequence, wait_span_id } ==> {
                &&& enqueued_sequence == facts[0].reply->Ok_0
                &&& wait_span_id == facts[1].reply->Ok_0
            }
        }),
{
    let depth = spec_mailbox_depth(queued, true) as u64;
    let plan = cue.enqueue_plan(cue.state.phase->admitted_sequence, Some(depth));
    crate::references::planned_facts(run.context, run_after.context, plan);
    let facts = run_after.steps_since(run);
    let given = |i: int| crate::references::sequences(facts, i);
    assert(plan(given(0)) is Some);
    assert(plan(given(1)) is Some);
    assert(plan(given(2)) is Some);
    assert(plan(given(3)) is None);
    assert(facts.len() <= 3) by {
        if facts.len() > 3 {
            assert(plan(given(3)) == Some(facts[3].candidate));
        }
    }
}

/// A cue that is dispatched has waited to the end, and its execution begins in its scene. Both come of
/// the dispatch.
pub proof fn dispatched_cue_runs<A: SpanEventAdmission>(
    cue: CueLifecycleProducer,
    after: CueLifecycleProducer,
    run: DiagnosticRun<A>,
    run_after: DiagnosticRun<A>,
)
    requires
        cue.on_dispatched(after, run, run_after),
        cue.state.phase is Enqueued,
        !cue.state.producer_failed,
    ensures
        ({
            let facts = run_after.steps_since(run);
            let waited = cue.state.phase->wait_span_id;
            &&& 1 <= facts.len() <= 3
            &&& facts[0].candidate.body == (crate::event::EventBody::InstantOccurred {
                instant: InstantDetail::CueDispatched,
                containing_span_id: Some(waited),
            })
            &&& facts[0].candidate.cause == Some(
                CausalLink {
                    sequence: cue.state.phase->enqueued_sequence,
                    relation: CausalRelation::Dispatch,
                },
            )
            &&& facts.len() >= 2 ==> facts[1].candidate.body == (
            crate::event::EventBody::SpanFinished {
                span_id: waited,
                outcome: SpanOutcome::Completed,
                error_code: None,
            })
            &&& facts.len() == 3 ==> facts[2].candidate.body == (
            crate::event::EventBody::SpanStarted {
                detail: SpanStartDetail::CueExecution,
                parent_span_id: Some(cue.scene_span_id),
            })
            &&& forall|i: int|
                1 <= i < facts.len() ==> (#[trigger] facts[i]).candidate.cause == Some(
                    CausalLink {
                        sequence: facts[0].reply->Ok_0,
                        relation: CausalRelation::Dispatch,
                    },
                )
            &&& forall|i: int|
                0 <= i < facts.len() ==> (#[trigger] facts[i]).candidate.scope == cue.cue_scope
            &&& after.state.phase is Dispatched <==> facts.len() == 3 && facts[2].reply is Ok
            &&& after.state.phase matches CuePhase::Dispatched { execution_span_id }
                ==> execution_span_id == facts[2].reply->Ok_0
        }),
{
    let plan = cue.dispatch_plan(
        cue.state.phase->enqueued_sequence,
        cue.state.phase->wait_span_id,
    );
    crate::references::planned_facts(run.context, run_after.context, plan);
    let facts = run_after.steps_since(run);
    let given = |i: int| crate::references::sequences(facts, i);
    assert(plan(given(0)) is Some);
    assert(plan(given(1)) is Some);
    assert(plan(given(2)) is Some);
    assert(plan(given(3)) is None);
    assert(facts.len() <= 3) by {
        if facts.len() > 3 {
            assert(plan(given(3)) == Some(facts[3].candidate));
        }
    }
}

/// A request to cancel a cue is told once, in the span that is open, and comes of what the cue did
/// last. It does not move the cue.
pub proof fn cancel_request_is_told_where_the_cue_is<A: SpanEventAdmission>(
    cue: CueLifecycleProducer,
    after: CueLifecycleProducer,
    run: DiagnosticRun<A>,
    run_after: DiagnosticRun<A>,
)
    requires
        cue.on_cancel_requested(after, run, run_after),
    ensures
        after.state.phase == cue.state.phase,
        cue.state.cancel_sequence is Some ==> {
            &&& run_after.context == run.context
            &&& after.state.cancel_sequence == cue.state.cancel_sequence
        },
        cue.state.cancel_sequence is None && !cue.state.producer_failed && (
        cue.state.phase is Admitted || cue.state.phase is Enqueued || cue.state.phase
            is Dispatched) ==> {
            let facts = run_after.steps_since(run);
            &&& facts.len() == 1
            &&& facts[0].candidate.scope == cue.cue_scope
            &&& facts[0].candidate.body matches crate::event::EventBody::InstantOccurred {
                instant,
                containing_span_id,
            }
            &&& instant is CueCancelRequested
            &&& facts[0].candidate.cause matches Some(cause)
            &&& cause.relation is Handoff
            &&& match cue.state.phase {
                CuePhase::Admitted { admitted_sequence } => {
                    containing_span_id == Some(cue.scene_span_id) && cause.sequence
                        == admitted_sequence
                },
                CuePhase::Enqueued { enqueued_sequence, wait_span_id } => {
                    containing_span_id == Some(wait_span_id) && cause.sequence == enqueued_sequence
                },
                CuePhase::Dispatched { execution_span_id } => {
                    containing_span_id == Some(execution_span_id) && cause.sequence
                        == execution_span_id
                },
                _ => false,
            }
            &&& after.state.cancel_sequence == match facts[0].reply {
                Ok(sequence) => Some(sequence),
                Err(_) => None,
            }
            &&& after.state.producer_failed <==> facts[0].reply is Err
        },
{
    if let Some((source, containing_span_id)) = cue.cancel_point() {
        if cue.state.cancel_sequence is None && !cue.state.producer_failed {
            crate::references::lone_fact(
                run.context,
                run_after.context,
                EventCandidate::instant(
                    cue.cue_scope,
                    InstantDetail::CueCancelRequested,
                    Some(containing_span_id),
                    CausalLink::to(source, CausalRelation::Handoff),
                ),
            );
        }
    }
}

/// A cue that leaves its mailbox tells how many are left there, of its actor.
pub proof fn retired_cue_tells_the_depth<A: SpanEventAdmission>(
    cue: CueLifecycleProducer,
    after: CueLifecycleProducer,
    run: DiagnosticRun<A>,
    run_after: DiagnosticRun<A>,
    queued: usize,
    running: bool,
)
    requires
        cue.on_retired(after, run, run_after, queued, running),
        cue.state.phase is Terminal,
        !cue.state.producer_failed,
        queued < usize::MAX,
    ensures
        ({
            let facts = run_after.steps_since(run);
            &&& facts.len() == 1
            &&& facts[0].candidate.scope == cue.actor_scope
            &&& facts[0].candidate.body matches crate::event::EventBody::CounterSampled {
                kind,
                value,
            }
            &&& kind is ActorMailboxDepth
            &&& running ==> value == queued + 1
            &&& !running ==> value == queued
            &&& facts[0].candidate.cause is Some <==> cue.state.phase->terminal_sequence is Some
        }),
{
    crate::references::lone_fact(
        run.context,
        run_after.context,
        EventCandidate::counter(
            cue.actor_scope,
            CounterKind::ActorMailboxDepth,
            spec_mailbox_depth(queued, running) as u64,
            match cue.state.phase->terminal_sequence {
                Some(sequence) => CausalLink::after(sequence),
                None => None,
            },
        ),
    );
}

/// A cue belongs to its scene and its actor: its facts carry both, with an identifier of its own, and
/// what is told of its mailbox carries its actor alone.
pub proof fn cue_belongs_to_its_scene_and_actor(
    cues: CueRegistry,
    cue: CueLifecycleProducer,
    scenes: SceneRegistry,
    actors: ActorRegistry,
    operation: CueOperation,
    run: usize,
)
    requires
        cues.is_prepared(cue, scenes, actors, operation, run),
        cues.prepare_problem(scenes, actors, operation) is None,
    ensures
        operation.scene matches Some(scene) && scenes.spec_snapshot_for(scene.key) matches Some(
            within,
        ) && {
            &&& cue.cue_scope.scene_id == within.scope.scene_id
            &&& cue.scene_span_id == within.scene_span_id
        },
        operation.actor_key matches Some(key) && actors.spec_lineage(key) matches Some(actor) && {
            &&& cue.cue_scope.actor_id == actor.scope.actor_id
            &&& cue.actor_scope.actor_id == actor.scope.actor_id
        },
        cue.cue_scope.scene_id is Some && cue.cue_scope.actor_id is Some && cue.cue_scope.cue_id
            is Some,
        cue.cue_scope.effect_id is None && cue.cue_scope.act_id is None
            && cue.cue_scope.tool_call_id is None,
        cue.actor_scope.scene_id is None && cue.actor_scope.cue_id is None,
        cue.run == run,
        cue.cued_key == operation.cued_key,
        cue.state.phase is Starting,
{
}

/// A hook of a cue tells what happened: an admission that the cue was admitted, a dispatch that it
/// was dispatched, a request to cancel that it was asked for, each of this cue and in its own run;
/// that its caller is done tells nothing of the cue itself.
pub proof fn hooks_of_cues_tell_what_happened<A: SpanEventAdmission>(
    cues: CueRegistry,
    after: CueRegistry,
    runtimes: RuntimeProducerRegistry,
    scenes: SceneRegistry,
    actors: ActorRegistry,
    effects: EffectRegistry,
    effects_after: EffectRegistry,
    runs: DiagnosticRuns<A>,
    runs_after: DiagnosticRuns<A>,
    operation: CueOperation,
    hook: CueHook,
)
    requires
        cues.fits(runs),
        runtimes.wf(),
        runtimes.fits(runs),
        cues.on_observed(
            after,
            runtimes,
            scenes,
            actors,
            effects,
            effects_after,
            runs,
            runs_after,
            operation,
            hook,
        ),
    ensures
        ({
            let key = operation.cued_key;
            let known = cues@.contains_key(key);
            let cue = cues@[key];
            let facts = runs_after@[cue.run as int].steps_since(runs@[cue.run as int]);
            let bound = runtimes.spec_run_bound(operation.binding_key);
            let told = runs_after@[bound->0 as int].steps_since(runs@[bound->0 as int]);
            &&& known && hook is Dispatched && cue.state.phase is Enqueued
                && !cue.state.producer_failed ==> {
                &&& facts.len() >= 1
                &&& facts[0].candidate.scope == cue.cue_scope
                &&& facts[0].candidate.body is InstantOccurred
                &&& facts[0].candidate.body->instant is CueDispatched
            }
            &&& known && hook is CancelRequested && (cue.state.phase is Admitted || cue.state.phase
                is Enqueued || cue.state.phase is Dispatched) && cue.state.cancel_sequence is None
                && !cue.state.producer_failed ==> {
                &&& facts.len() == 1
                &&& facts[0].candidate.scope == cue.cue_scope
                &&& facts[0].candidate.body is InstantOccurred
                &&& facts[0].candidate.body->instant is CueCancelRequested
                &&& after@[key].state.phase == cue.state.phase
            }
            &&& !known && hook is Admitted && bound is Some && cues.prepare_problem(
                scenes,
                actors,
                operation,
            ) is None ==> {
                &&& after@.contains_key(key)
                &&& after@[key].run == bound->0
                &&& told.len() >= 1
                &&& told[0].candidate.body is InstantOccurred
                &&& told[0].candidate.body->instant is CueAdmitted
                &&& told[0].candidate.scope == after@[key].cue_scope
            }
            &&& !known && hook !is Admitted ==> !after@.contains_key(key)
            &&& known && hook is Admitted ==> after@ == cues@
            &&& forall|other: usize|
                other != key ==> (#[trigger] after@.contains_key(other) <==> cues@.contains_key(
                    other,
                )) && (cues@.contains_key(other) ==> after@[other] == cues@[other])
        }),
{
    let key = operation.cued_key;
    let cue = cues@[key];
    let run = cue.run as int;
    if cues@.contains_key(key) {
        if hook is Dispatched && cue.state.phase is Enqueued && !cue.state.producer_failed {
            dispatched_cue_runs(cue, after@[key], runs@[run], runs_after@[run]);
        }
        if hook is CancelRequested {
            cancel_request_is_told_where_the_cue_is(cue, after@[key], runs@[run], runs_after@[run]);
        }
    } else if hook is Admitted && cues.prepare_problem(scenes, actors, operation) is None {
        if let Some(bound) = runtimes.spec_run_bound(operation.binding_key) {
            let producer = choose|producer: CueLifecycleProducer|
                {
                    &&& #[trigger] cues.is_prepared(producer, scenes, actors, operation, bound)
                    &&& after@.contains_key(key)
                    &&& after@ =~= cues@.insert(key, after@[key])
                    &&& producer.on_admitted(
                        after@[key],
                        runs@[bound as int],
                        runs_after@[bound as int],
                    )
                };
            admitted_cue_becomes_active(
                producer,
                after@[key],
                runs@[bound as int],
                runs_after@[bound as int],
            );
        }
    }
}

/// A cue can end exactly while it is admitted, waits or runs, and complete exactly while it runs.
/// It ends the span that is open, if any, because of the request to cancel it where there was one,
/// handed over, and else of what it did last.
pub proof fn cues_end_where_they_are(cue: CueLifecycleProducer, outcome: CueTerminalOutcome)
    ensures
        ({
            let ending = cue.spec_ending(outcome);
            let phase = cue.state.phase;
            &&& ending is Ok <==> (phase is Admitted || phase is Enqueued || phase is Dispatched) && (
            outcome is Completed ==> phase is Dispatched)
            &&& ending matches Ok(end) ==> {
                &&& end.span_id is None <==> phase is Admitted
                &&& phase matches CuePhase::Enqueued { wait_span_id, .. } ==> end.span_id == Some(
                    wait_span_id,
                )
                &&& phase matches CuePhase::Dispatched { execution_span_id } ==> end.span_id
                    == Some(execution_span_id)
                &&& end.relation is Handoff <==> cue.state.cancel_sequence is Some
                &&& end.relation is Return <==> cue.state.cancel_sequence is None
                &&& cue.state.cancel_sequence matches Some(asked) ==> end.source == asked
                &&& cue.state.cancel_sequence is None ==> match phase {
                    CuePhase::Admitted { admitted_sequence } => end.source == admitted_sequence,
                    CuePhase::Enqueued { enqueued_sequence, .. } => end.source == enqueued_sequence,
                    CuePhase::Dispatched { execution_span_id } => end.source == execution_span_id,
                    _ => false,
                }
                &&& end.terminal.outcome is Completed <==> outcome is Completed
                &&& end.terminal.outcome is Cancelled <==> outcome is Cancelled
                &&& end.terminal.error_code is None <==> outcome is Completed
            }
        }),
{
}

/// The end of a cue is reported exactly where its producer has not failed, it can end, and an error
/// comes with every end but a completion. What cannot be reported is a fault of the run, and tells
/// nothing.
pub proof fn ends_of_cues_are_owed<A: SpanEventAdmission>(
    cue: CueLifecycleProducer,
    after: CueLifecycleProducer,
    run: DiagnosticRun<A>,
    run_after: DiagnosticRun<A>,
    outcome: CueTerminalOutcome,
    has_error: bool,
    ending: Option<CueEnding>,
)
    requires
        cue.on_terminal_begun(after, run, run_after, outcome, has_error, ending),
    ensures
        ({
            let phase = cue.state.phase;
            let can = (phase is Admitted || phase is Enqueued || phase is Dispatched) && (outcome
                is Completed ==> phase is Dispatched);
            &&& ending is Some <==> !cue.state.producer_failed && can && (outcome is Completed
                || has_error)
            &&& run_after.context == run.context
            &&& ending is Some ==> after == cue && run_after == run
            &&& ending is None && !cue.state.producer_failed ==> after.state.producer_failed
                && run_after.failure is Some
            &&& ending is None && !cue.state.producer_failed && run.failure is None
                ==> run_after.failure->0.spec_code() == if outcome !is Completed && !has_error {
                "cue.terminal-error-unavailable"@
            } else if phase is Starting || phase is Terminal {
                "cue.terminal-transition-invalid"@
            } else {
                "cue.completed-before-dispatch"@
            }
        }),
{
}

/// The caller of a cue is done with it once: the second time is a fault. Neither tells anything.
pub proof fn callers_of_cues_are_done_once<A: SpanEventAdmission>(
    cue: CueLifecycleProducer,
    after: CueLifecycleProducer,
    run: DiagnosticRun<A>,
    run_after: DiagnosticRun<A>,
)
    requires
        cue.on_caller_finished(after, run, run_after),
    ensures
        after.state.caller_finished,
        run_after.context == run.context,
        cue.state.caller_finished ==> run_after.failure is Some && after.state.producer_failed,
        !cue.state.caller_finished ==> run_after == run && after.state.producer_failed
            == cue.state.producer_failed,
        after.state.phase == cue.state.phase,
{
}

/// A cue is put into a mailbox only once it is admitted and while the mailbox runs one, and
/// dispatched only once it waits. Out of order nothing is told, the cue stays where it is, and its
/// producer has failed with the run.
pub proof fn cues_move_in_order<A: SpanEventAdmission>(
    cue: CueLifecycleProducer,
    after: CueLifecycleProducer,
    run: DiagnosticRun<A>,
    run_after: DiagnosticRun<A>,
    queued: usize,
    running: bool,
    dispatches: bool,
)
    requires
        !cue.state.producer_failed,
        if dispatches {
            cue.on_dispatched(after, run, run_after)
        } else {
            cue.on_enqueued(after, run, run_after, queued, running)
        },
    ensures
        ({
            let taken = if dispatches {
                cue.state.phase is Enqueued
            } else {
                cue.state.phase is Admitted && running
            };
            &&& taken ==> run_after.steps_since(run).len() > 0
            &&& !taken ==> {
                &&& run_after.context == run.context
                &&& run_after.failure is Some
                &&& after.state.producer_failed
                &&& after.state.phase == cue.state.phase
                &&& run.failure is None ==> run_after.failure->0.spec_code() == if dispatches {
                    "cue.dispatch-transition-invalid"@
                } else if cue.state.phase is Admitted {
                    "cue.mailbox-running-snapshot-invalid"@
                } else {
                    "cue.enqueue-transition-invalid"@
                }
            }
        }),
{
    if dispatches && cue.state.phase is Enqueued {
        dispatched_cue_runs(cue, after, run, run_after);
    }
    if !dispatches && cue.state.phase is Admitted && running {
        if queued < usize::MAX {
            enqueued_cue_waits(cue, after, run, run_after, queued);
        } else {
            let plan = cue.enqueue_plan(cue.state.phase->admitted_sequence, None);
            let between = choose|between: DiagnosticRun<A>|
                {
                    &&& #[trigger] between.follows(run, plan)
                    &&& after == cue.failed()
                    &&& run_after == if between.stopped_since(run) {
                        between
                    } else {
                        between.with_state_failure("cue.mailbox-depth-overflow")
                    }
                };
            crate::references::planned_facts(run.context, between.context, plan);
            assert(plan(crate::references::sequences(between.steps_since(run), 0)) is Some);
            assert(run_after.context == between.context);
        }
    }
}

/// A fact hangs in a cue exactly while the cue runs, in the span of its execution and in its own scope.
pub proof fn cues_hold_facts_while_they_run(cues: CueRegistry, key: usize)
    ensures
        cues.spec_lineage(key) is Some <==> cues@.contains_key(key) && cues@[key].state.phase
            is Dispatched,
        cues.spec_lineage(key) matches Some(snapshot) ==> {
            &&& snapshot.run == cues@[key].run
            &&& snapshot.cue_scope == cues@[key].cue_scope
            &&& cues@[key].state.phase == (CuePhase::Dispatched {
                execution_span_id: snapshot.containing_span_id,
            })
        },
{
}

/// A cue that ends tells it in its own run, as it ended, and its effects end with it: an effect of
/// the cue that is under way was cancelled where the cue was cancelled, and failed where the cue or
/// its cleanup failed, or completed without returning it.
pub proof fn cues_end_with_their_effects<A: SpanEventAdmission>(
    cues: CueRegistry,
    after: CueRegistry,
    runtimes: RuntimeProducerRegistry,
    effects: EffectRegistry,
    effects_after: EffectRegistry,
    runs: DiagnosticRuns<A>,
    runs_after: DiagnosticRuns<A>,
    operation: CueOperation,
    outcome: CueTerminalOutcome,
    has_error: bool,
    place: int,
)
    requires
        cues.fits(runs),
        effects.fits(runs),
        cues.on_terminal(
            after,
            runtimes,
            effects,
            effects_after,
            runs,
            runs_after,
            operation,
            outcome,
            has_error,
        ),
        cues@.contains_key(operation.cued_key),
        !cues@[operation.cued_key].state.producer_failed,
        cues@[operation.cued_key].state.phase is Dispatched,
        outcome is Completed || has_error,
    ensures
        ({
            let cue = cues@[operation.cued_key];
            let run = cue.run as int;
            let before = runs@[run].context.trace();
            let trace = runs_after@[run].context.trace();
            &&& exists|k: int|
                {
                    &&& before.len() <= k < trace.len()
                    &&& (#[trigger] trace[k]).candidate.scope == cue.cue_scope
                    &&& trace[k].candidate.body matches crate::event::EventBody::SpanFinished {
                        span_id,
                        outcome: told,
                        error_code,
                    } && {
                        &&& span_id == cue.state.phase->execution_span_id
                        &&& told is Completed <==> outcome is Completed
                        &&& told is Cancelled <==> outcome is Cancelled
                        &&& told is Failed <==> outcome is Failed || outcome is CleanupFailed
                        &&& error_code is None <==> outcome is Completed
                    }
                }
            &&& operation.actor_key is None ==> !after@.contains_key(operation.cued_key)
            &&& operation.actor_key is Some ==> after@.contains_key(operation.cued_key)
            &&& (0 <= place < effects@.len() && effects@[place].owner_key == operation.cued_key
                && !effects@[place].state.producer_failed && !effects@[place].state.finish_attempted
                && effects@[place].state.owner_terminal is None) ==> {
                let effect = effects@[place];
                &&& outcome is Cancelled ==> crate::effect_producer::end_was_told(
                    effect,
                    runs@,
                    runs_after@,
                    SpanOutcome::Cancelled,
                )
                &&& outcome is Failed || outcome is CleanupFailed || (outcome is Completed
                    && effect.state.returned_sequence is None)
                    ==> crate::effect_producer::end_was_told(
                    effect,
                    runs@,
                    runs_after@,
                    SpanOutcome::Failed,
                )
                &&& outcome is Completed && effect.state.returned_sequence is Some
                    && effect.state.caller_outcome == Some(CueCallerOutcome::Consumed)
                    ==> crate::effect_producer::end_was_told(
                    effect,
                    runs@,
                    runs_after@,
                    SpanOutcome::Completed,
                )
            }
        }),
{
    let key = operation.cued_key;
    let cue = cues@[key];
    let run = cue.run as int;
    let cue_after = choose|cue_after: CueLifecycleProducer|
        {
            &&& #[trigger] cues.ended(
                cue_after,
                effects,
                effects_after,
                runs,
                runs_after,
                key,
                outcome,
                has_error,
            )
            &&& after.next_cue_id == cues.next_cue_id
            &&& after@ =~= if operation.actor_key is None {
                cues@.remove(key)
            } else {
                cues@.insert(key, cue_after)
            }
        };
    let ending = cue.spec_ending(outcome)->Ok_0;
    let between = choose|between: DiagnosticRuns<A>|
        {
            &&& #[trigger] EffectRegistry::all_told(
                effects@,
                effects_after@,
                runs@,
                between@,
                key,
                OwnerEvent::Terminal { outcome, source: ending.source },
            )
            &&& runs_after.only_changes(between, run)
            &&& cue.on_terminal_ended(cue_after, between@[run], runs_after@[run], ending)
        };
    crate::effect_producer::all_hearing_goes_on(
        effects@,
        effects_after@,
        runs@,
        between@,
        key,
        OwnerEvent::Terminal { outcome, source: ending.source },
    );
    let earlier = between@[run].context.trace();
    let trace = runs_after@[run].context.trace();
    assert(runs@[run].context.trace().len() <= earlier.len());
    cue_ends_as_it_did(
        cue,
        cue_after,
        between@[run],
        between@[run],
        runs_after@[run],
        outcome,
        has_error,
        ending,
    );
    let facts = runs_after@[run].steps_since(between@[run]);
    assert(facts[0] == trace[earlier.len() as int]);
    assert(trace[earlier.len() as int].candidate.body is SpanFinished);
    if 0 <= place < effects@.len() && effects@[place].owner_key == key
        && !effects@[place].state.producer_failed && !effects@[place].state.finish_attempted
        && effects@[place].state.owner_terminal is None {
        crate::effect_producer::effects_of_a_cue_end_with_it(
            effects@,
            effects_after@,
            runs@,
            between@,
            key,
            outcome,
            ending.source,
            place,
        );
        let effect = effects@[place];
        let at = effect.run as int;
        assert forall|k: int| 0 <= k < between@[at].context.trace().len() implies {
            &&& k < runs_after@[at].context.trace().len()
            &&& #[trigger] runs_after@[at].context.trace()[k] == between@[at].context.trace()[k]
        } by {
            if at == run {
                let begun = trace.take(earlier.len() as int);
                assert(begun =~= earlier);
                assert(begun[k] == trace[k]);
            }
        }
        let told = if outcome is Cancelled {
            SpanOutcome::Cancelled
        } else if outcome is Completed && effect.state.returned_sequence is Some {
            SpanOutcome::Completed
        } else {
            SpanOutcome::Failed
        };
        if crate::effect_producer::end_was_told(effect, runs@, between@, told) {
            let was = between@[at].context.trace();
            let k = choose|k: int|
                {
                    &&& runs@[at].context.trace().len() <= k < was.len()
                    &&& (#[trigger] was[k]).candidate.scope == effect.scope
                    &&& if told is Completed {
                        was[k].candidate.body == (crate::event::EventBody::InstantOccurred {
                            instant: InstantDetail::EffectConsumed(effect.detail),
                            containing_span_id: Some(effect.lifecycle_span_id),
                        })
                    } else {
                        was[k].candidate.body matches crate::event::EventBody::SpanFinished {
                            span_id,
                            outcome: ended,
                            error_code,
                        } && span_id == effect.lifecycle_span_id && ended == told && error_code
                            is Some
                    }
                };
            assert(runs_after@[at].context.trace()[k] == was[k]);
            assert(crate::effect_producer::end_was_told(effect, runs@, runs_after@, told));
        }
    }
}

/// A cue is prepared exactly where its scene and its actor are named and under way and both have
/// identifiers, and there is a number left for it. What is missing first is what is told.
pub proof fn cues_are_prepared_where_all_is_known(
    cues: CueRegistry,
    scenes: SceneRegistry,
    actors: ActorRegistry,
    operation: CueOperation,
)
    ensures
        ({
            let problem = cues.prepare_problem(scenes, actors, operation);
            let scene = if operation.scene is Some {
                scenes.spec_snapshot_for(operation.scene->0.key)
            } else {
                None
            };
            let actor = if operation.actor_key is Some {
                actors.spec_lineage(operation.actor_key->0)
            } else {
                None
            };
            let named = operation.scene is Some && operation.actor_key is Some;
            &&& problem is None <==> scene is Some && actor is Some && scene->0.scope.scene_id
                is Some && actor->0.scope.actor_id is Some && cues.next_cue_id.next < u64::MAX
            &&& operation.scene is None || (named && scene is None) ==> problem->0@
                == "cue.scene-lineage-unavailable"@
            &&& operation.scene is Some && (operation.actor_key is None || (scene is Some && actor
                is None)) ==> problem->0@ == "cue.actor-lineage-unavailable"@
            &&& scene is Some && actor is Some ==> {
                &&& scene->0.scope.scene_id is None ==> problem->0@
                    == "cue.scene-identifier-unavailable"@
                &&& scene->0.scope.scene_id is Some && actor->0.scope.actor_id is None
                    ==> problem->0@ == "cue.actor-identifier-unavailable"@
            }
        }),
{
}

/// Cues bear identifiers of their kind, with their number.
pub proof fn cues_are_numbered(
    cues: CueRegistry,
    cue: CueLifecycleProducer,
    scenes: SceneRegistry,
    actors: ActorRegistry,
    operation: CueOperation,
    run: usize,
)
    requires
        cues.is_prepared(cue, scenes, actors, operation, run),
    ensures
        cue.cue_scope.cue_id is Some,
        cue.cue_scope.cue_id->0@ =~= "cue-"@ + crate::identifier::decimal(
            cues.next_cue_id.next as nat,
        ),
{
}

} // verus!
