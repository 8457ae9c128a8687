//! The lifecycle of a production's run, from its first span to its last.
use crate::context::{Attempt, DiagnosticRunContext, SpanEventAdmission};
use crate::event::{
    empty_scope, DiagnosticScope, EventCandidate, SpanOutcome, SpanStartDetail, TerminalSpan,
};
use crate::python_error::ErrorClass;
use crate::run::{DiagnosticRun, DiagnosticRuns, RuntimeProducerError};
use std::collections::HashMap;
use vstd::prelude::*;

verus! {

broadcast use vstd::std_specs::hash::group_hash_axioms;

/// What the runtime announces of a run.
#[derive(Clone, Copy, Debug, PartialEq, Eq, Structural)]
pub enum RuntimeHook {
    ProductionCreated,
    RunStarted,
    ProductionStartEntered,
    ProductionStartReturned,
    SceneEntered,
    SceneReturned,
    ProductionStopEntered,
    ProductionStopReturned,
    ShutdownRequested,
    RunLifecycleReturned,
    RunFinished,
}

/// The phase that a task of the runtime works for.
#[derive(Clone, Copy, Debug, PartialEq, Eq, Structural)]
pub enum RuntimeTaskPhase {
    Start,
    Stop,
}

/// A phase of the run: not yet entered, open with its span, or closed with how it ended.
#[derive(Clone, Copy, Debug, PartialEq, Eq)]
pub enum PhaseState {
    NotEntered,
    Open(u64),
    Closed(TerminalSpan),
}

/// Where a task of the runtime hangs in the run.
#[derive(Debug, PartialEq, Eq)]
pub struct RuntimeLineageSnapshot {
    pub run: usize,
    pub scope: DiagnosticScope,
    pub containing_span_id: u64,
}

/// What is known of a run.
#[derive(Clone, Copy, Debug, PartialEq, Eq)]
pub struct RuntimeLifecycleState {
    pub run_span_id: u64,
    pub run_started: bool,
    pub start: PhaseState,
    pub stop: PhaseState,
    pub shutdown: PhaseState,
    pub first_user_failure: Option<TerminalSpan>,
    pub lifecycle_terminal: Option<TerminalSpan>,
    pub run_closed: bool,
}

/// Reports the lifecycle of one run. `run` is the place of the run among the open runs.
#[derive(Debug, PartialEq, Eq)]
pub struct RuntimeLifecycleProducer {
    pub run: usize,
    pub core_key: usize,
    pub binding_key: usize,
    pub state: RuntimeLifecycleState,
}

impl RuntimeLifecycleState {
    /// A run whose span has just started.
    pub open spec fn started(run_span_id: u64) -> Self {
        RuntimeLifecycleState {
            run_span_id,
            run_started: false,
            start: PhaseState::NotEntered,
            stop: PhaseState::NotEntered,
            shutdown: PhaseState::NotEntered,
            first_user_failure: None,
            lifecycle_terminal: None,
            run_closed: false,
        }
    }

    /// The start of a span within the run's span.
    pub open spec fn child(self, detail: SpanStartDetail) -> EventCandidate {
        EventCandidate::started(DiagnosticScope::of_run(), detail, Some(self.run_span_id), None)
    }

    /// The end of a span of the run.
    pub open spec fn end_of(span_id: u64, terminal: TerminalSpan) -> EventCandidate {
        EventCandidate::finished(
            DiagnosticScope::of_run(),
            span_id,
            terminal.outcome,
            terminal.code(),
            None,
        )
    }

    /// How a phase ended.
    pub open spec fn phase_end(
        error: Option<ErrorClass>,
        cancelled_code: &'static str,
        failed_code: &'static str,
    ) -> TerminalSpan {
        match error {
            None => TerminalSpan::spec_completed(),
            Some(error) => if error.cancelled {
                TerminalSpan::spec_cancelled(cancelled_code)
            } else {
                TerminalSpan::spec_failed(failed_code)
            },
        }
    }

    /// The hook is out of place: it changes nothing but for the failure.
    pub open spec fn refuses<A: SpanEventAdmission>(
        self,
        after: Self,
        run: DiagnosticRun<A>,
        run_after: DiagnosticRun<A>,
        code: &'static str,
    ) -> bool {
        &&& after == self
        &&& run_after == run.with_state_failure(code)
    }

    /// The run begins, once.
    pub open spec fn on_run_started<A: SpanEventAdmission>(
        self,
        after: Self,
        run: DiagnosticRun<A>,
        run_after: DiagnosticRun<A>,
    ) -> bool {
        if self.run_started || self.run_closed {
            self.refuses(after, run, run_after, "runtime.run-start-transition-invalid")
        } else {
            &&& after == (RuntimeLifecycleState { run_started: true, ..self })
            &&& run_after == run
        }
    }

    /// The start phase opens a span, once, in a begun run.
    pub open spec fn on_start_entered<A: SpanEventAdmission>(
        self,
        after: Self,
        run: DiagnosticRun<A>,
        run_after: DiagnosticRun<A>,
    ) -> bool {
        if !self.run_started || self.start !is NotEntered {
            self.refuses(after, run, run_after, "runtime.production-start-transition-invalid")
        } else {
            &&& run_after.follows(run, self.child(SpanStartDetail::ProductionStart).alone())
            &&& after == match Attempt::nth(run_after.accepted_since(run), 0) {
                Some(span_id) => RuntimeLifecycleState { start: PhaseState::Open(span_id), ..self },
                None => self,
            }
        }
    }

    /// The start phase closes its span. A failed start is the first user failure.
    pub open spec fn on_start_returned<A: SpanEventAdmission>(
        self,
        after: Self,
        run: DiagnosticRun<A>,
        run_after: DiagnosticRun<A>,
        error: Option<ErrorClass>,
    ) -> bool {
        match self.start {
            PhaseState::Open(span_id) => {
                let terminal = RuntimeLifecycleState::phase_end(
                    error,
                    "production-start-cancelled",
                    "production-start-failed",
                );
                &&& run_after.follows(
                    run,
                    RuntimeLifecycleState::end_of(span_id, terminal).alone(),
                )
                &&& after == (RuntimeLifecycleState {
                    start: if run_after.stopped_since(run) {
                        self.start
                    } else {
                        PhaseState::Closed(terminal)
                    },
                    first_user_failure: if error is Some {
                        Some(terminal)
                    } else {
                        self.first_user_failure
                    },
                    ..self
                })
            },
            _ => self.refuses(
                after,
                run,
                run_after,
                "runtime.production-start-return-without-entry",
            ),
        }
    }

    /// A scene that failed is the first user failure, unless one came before. A cancelled scene is
    /// none.
    pub open spec fn on_scene_returned<A: SpanEventAdmission>(
        self,
        after: Self,
        run: DiagnosticRun<A>,
        run_after: DiagnosticRun<A>,
        error: Option<ErrorClass>,
    ) -> bool {
        &&& run_after == run
        &&& after == match error {
            Some(error) if !error.cancelled && self.first_user_failure is None => {
                RuntimeLifecycleState {
                    first_user_failure: Some(TerminalSpan::spec_failed("production-scene-failed")),
                    ..self
                }
            },
            _ => self,
        }
    }

    /// The phase has ended well.
    pub open spec fn completed(phase: PhaseState) -> bool {
        phase matches PhaseState::Closed(terminal) && terminal.outcome is Completed
    }

    /// The stop phase opens a span, once, after a start that completed.
    pub open spec fn on_stop_entered<A: SpanEventAdmission>(
        self,
        after: Self,
        run: DiagnosticRun<A>,
        run_after: DiagnosticRun<A>,
    ) -> bool {
        if !self.run_started || !RuntimeLifecycleState::completed(self.start)
            || self.stop !is NotEntered {
            self.refuses(after, run, run_after, "runtime.production-stop-transition-invalid")
        } else {
            &&& run_after.follows(run, self.child(SpanStartDetail::ProductionStop).alone())
            &&& after == match Attempt::nth(run_after.accepted_since(run), 0) {
                Some(span_id) => RuntimeLifecycleState { stop: PhaseState::Open(span_id), ..self },
                None => self,
            }
        }
    }

    /// The stop phase closes its span. A failed stop is the first user failure, unless one came
    /// before.
    pub open spec fn on_stop_returned<A: SpanEventAdmission>(
        self,
        after: Self,
        run: DiagnosticRun<A>,
        run_after: DiagnosticRun<A>,
        error: Option<ErrorClass>,
    ) -> bool {
        match self.stop {
            PhaseState::Open(span_id) => {
                let terminal = RuntimeLifecycleState::phase_end(
                    error,
                    "production-stop-cancelled",
                    "production-stop-failed",
                );
                &&& run_after.follows(
                    run,
                    RuntimeLifecycleState::end_of(span_id, terminal).alone(),
                )
                &&& after == (RuntimeLifecycleState {
                    stop: if run_after.stopped_since(run) {
                        self.stop
                    } else {
                        PhaseState::Closed(terminal)
                    },
                    first_user_failure: if error is Some && self.first_user_failure is None {
                        Some(terminal)
                    } else {
                        self.first_user_failure
                    },
                    ..self
                })
            },
            _ => self.refuses(
                after,
                run,
                run_after,
                "runtime.production-stop-return-without-entry",
            ),
        }
    }

    /// A shutdown opens a span, once, while the run is open.
    pub open spec fn on_shutdown_requested<A: SpanEventAdmission>(
        self,
        after: Self,
        run: DiagnosticRun<A>,
        run_after: DiagnosticRun<A>,
    ) -> bool {
        if self.run_closed {
            after == self && run_after == run
        } else if self.shutdown !is NotEntered {
            self.refuses(after, run, run_after, "runtime.production-shutdown-transition-invalid")
        } else {
            &&& run_after.follows(run, self.child(SpanStartDetail::ProductionShutdown).alone())
            &&& after == match Attempt::nth(run_after.accepted_since(run), 0) {
                Some(span_id) => RuntimeLifecycleState {
                    shutdown: PhaseState::Open(span_id),
                    ..self
                },
                None => self,
            }
        }
    }

    /// The phases prove how the lifecycle went: the start completed and the stop has ended, or the
    /// start did not complete and there was no stop.
    pub open spec fn phases_are_proven(self) -> bool {
        self.start matches PhaseState::Closed(start) && if start.outcome is Completed {
            self.stop is Closed
        } else {
            self.stop is NotEntered
        }
    }

    /// The result of the lifecycle decides how the run ends. A cancellation overrides the first
    /// user failure, which overrides any later failure.
    pub open spec fn on_lifecycle_returned<A: SpanEventAdmission>(
        self,
        after: Self,
        run: DiagnosticRun<A>,
        run_after: DiagnosticRun<A>,
        error: Option<ErrorClass>,
    ) -> bool {
        if self.lifecycle_terminal is Some || self.run_closed {
            self.refuses(after, run, run_after, "runtime.lifecycle-return-transition-invalid")
        } else if !self.phases_are_proven() {
            self.refuses(after, run, run_after, "runtime.lifecycle-return-with-unproven-phases")
        } else if error is None && self.first_user_failure is Some {
            self.refuses(after, run, run_after, "runtime.lifecycle-success-after-phase-failure")
        } else {
            &&& run_after == run
            &&& after == (RuntimeLifecycleState {
                lifecycle_terminal: Some(
                    match error {
                        None => TerminalSpan::spec_completed(),
                        Some(error) => if error.cancelled {
                            TerminalSpan::spec_cancelled("production-lifecycle-cancelled")
                        } else {
                            match self.first_user_failure {
                                Some(first) => first,
                                None => TerminalSpan::spec_failed("production-lifecycle-failed"),
                            }
                        },
                    },
                ),
                ..self
            })
        }
    }

    /// How an open shutdown ends with the run.
    pub open spec fn shutdown_end(run_terminal: TerminalSpan) -> TerminalSpan {
        match run_terminal.outcome {
            SpanOutcome::Completed => TerminalSpan::spec_completed(),
            SpanOutcome::Cancelled => TerminalSpan::spec_cancelled("production-shutdown-cancelled"),
            SpanOutcome::Failed => TerminalSpan::spec_failed("production-shutdown-failed"),
        }
    }

    /// The end of an open shutdown, then the end of the run.
    pub open spec fn finish_plan(self, run_terminal: TerminalSpan) -> spec_fn(Seq<u64>) -> Option<
        EventCandidate,
    > {
        |accepted: Seq<u64>|
            match self.shutdown {
                PhaseState::Open(span_id) => if accepted.len() == 0 {
                    Some(
                        RuntimeLifecycleState::end_of(
                            span_id,
                            RuntimeLifecycleState::shutdown_end(run_terminal),
                        ),
                    )
                } else if accepted.len() == 1 {
                    Some(RuntimeLifecycleState::end_of(self.run_span_id, run_terminal))
                } else {
                    None
                },
                _ => if accepted.len() == 0 {
                    Some(RuntimeLifecycleState::end_of(self.run_span_id, run_terminal))
                } else {
                    None
                },
            }
    }

    /// The run closes, once, with the result that the lifecycle returned.
    pub open spec fn on_run_finished<A: SpanEventAdmission>(
        self,
        after: Self,
        run: DiagnosticRun<A>,
        run_after: DiagnosticRun<A>,
    ) -> bool {
        if self.run_closed {
            self.refuses(after, run, run_after, "runtime.run-finish-transition-invalid")
        } else if self.lifecycle_terminal is None {
            self.refuses(after, run, run_after, "runtime.run-finished-before-lifecycle-return")
        } else if self.start is Open || self.stop is Open {
            self.refuses(after, run, run_after, "runtime.run-finished-with-open-phase")
        } else {
            let run_terminal = self.lifecycle_terminal->0;
            &&& run_after.follows(run, self.finish_plan(run_terminal))
            &&& after == (RuntimeLifecycleState {
                shutdown: if self.shutdown is Open && run_after.accepted_since(run).len() > 0 {
                    PhaseState::Closed(RuntimeLifecycleState::shutdown_end(run_terminal))
                } else {
                    self.shutdown
                },
                run_closed: !run_after.stopped_since(run),
                ..self
            })
        }
    }

    /// What a hook does. After a failure no hook does anything.
    pub open spec fn on_hook<A: SpanEventAdmission>(
        self,
        after: Self,
        run: DiagnosticRun<A>,
        run_after: DiagnosticRun<A>,
        hook: RuntimeHook,
        error: Option<ErrorClass>,
    ) -> bool {
        if run.failure is Some {
            after == self && run_after == run
        } else {
            match hook {
                RuntimeHook::RunStarted => self.on_run_started(after, run, run_after),
                RuntimeHook::ProductionStartEntered => self.on_start_entered(after, run, run_after),
                RuntimeHook::ProductionStartReturned => {
                    self.on_start_returned(after, run, run_after, error)
                },
                RuntimeHook::SceneReturned => self.on_scene_returned(after, run, run_after, error),
                RuntimeHook::ProductionStopEntered => self.on_stop_entered(after, run, run_after),
                RuntimeHook::ProductionStopReturned => {
                    self.on_stop_returned(after, run, run_after, error)
                },
                RuntimeHook::ShutdownRequested => self.on_shutdown_requested(after, run, run_after),
                RuntimeHook::RunLifecycleReturned => {
                    self.on_lifecycle_returned(after, run, run_after, error)
                },
                RuntimeHook::RunFinished => self.on_run_finished(after, run, run_after),
                RuntimeHook::ProductionCreated | RuntimeHook::SceneEntered => {
                    after == self && run_after == run
                },
            }
        }
    }
}

/// How a phase ended.
fn phase_terminal(
    error: Option<ErrorClass>,
    cancelled_code: &'static str,
    failed_code: &'static str,
) -> (terminal: TerminalSpan)
    ensures
        terminal == RuntimeLifecycleState::phase_end(error, cancelled_code, failed_code),
{
    match error {
        None => TerminalSpan::completed(),
        Some(error) => if error.cancelled {
            TerminalSpan::cancelled(cancelled_code)
        } else {
            TerminalSpan::failed(failed_code)
        },
    }
}

impl RuntimeLifecycleState {
    pub fn run_started<A: SpanEventAdmission>(&mut self, run: &mut DiagnosticRun<A>)
        ensures
            old(self).on_run_started(*final(self), *old(run), *final(run)),
    {
        if self.run_started || self.run_closed {
            run.latch_state_failure("runtime.run-start-transition-invalid");
            return;
        }
        self.run_started = true;
    }

    pub fn enter_start<A: SpanEventAdmission>(&mut self, run: &mut DiagnosticRun<A>)
        ensures
            old(self).on_start_entered(*final(self), *old(run), *final(run)),
    {
        if !self.run_started || !matches!(self.start, PhaseState::NotEntered) {
            run.latch_state_failure("runtime.production-start-transition-invalid");
            return;
        }
        match run.context.start_span(
            empty_scope(),
            SpanStartDetail::ProductionStart,
            Some(self.run_span_id),
        ) {
            Ok(span_id) => self.start = PhaseState::Open(span_id),
            Err(error) => run.latch_diagnostic_failure(error),
        }
    }

    pub fn finish_start<A: SpanEventAdmission>(
        &mut self,
        run: &mut DiagnosticRun<A>,
        error: Option<ErrorClass>,
    )
        ensures
            old(self).on_start_returned(*final(self), *old(run), *final(run), error),
    {
        let span_id = match self.start {
            PhaseState::Open(span_id) => span_id,
            _ => {
                run.latch_state_failure("runtime.production-start-return-without-entry");
                return;
            },
        };
        let terminal = phase_terminal(error, "production-start-cancelled", "production-start-failed");
        if error.is_some() {
            self.first_user_failure = Some(terminal);
        }
        match run.context.finish_span(
            empty_scope(),
            span_id,
            terminal.outcome,
            terminal.event_code(),
        ) {
            Ok(()) => self.start = PhaseState::Closed(terminal),
            Err(error) => run.latch_diagnostic_failure(error),
        }
    }

    pub fn observe_scene_return<A: SpanEventAdmission>(
        &mut self,
        run: &mut DiagnosticRun<A>,
        error: Option<ErrorClass>,
    )
        ensures
            old(self).on_scene_returned(*final(self), *old(run), *final(run), error),
    {
        let error = match error {
            Some(error) => error,
            None => return,
        };
        if !error.cancelled && self.first_user_failure.is_none() {
            self.first_user_failure = Some(TerminalSpan::failed("production-scene-failed"));
        }
    }

    pub fn enter_stop<A: SpanEventAdmission>(&mut self, run: &mut DiagnosticRun<A>)
        ensures
            old(self).on_stop_entered(*final(self), *old(run), *final(run)),
    {
        let start_completed = match self.start {
            PhaseState::Closed(terminal) => matches!(terminal.outcome, SpanOutcome::Completed),
            _ => false,
        };
        if !self.run_started || !start_completed || !matches!(self.stop, PhaseState::NotEntered) {
            run.latch_state_failure("runtime.production-stop-transition-invalid");
            return;
        }
        match run.context.start_span(
            empty_scope(),
            SpanStartDetail::ProductionStop,
            Some(self.run_span_id),
        ) {
            Ok(span_id) => self.stop = PhaseState::Open(span_id),
            Err(error) => run.latch_diagnostic_failure(error),
        }
    }

    pub fn finish_stop<A: SpanEventAdmission>(
        &mut self,
        run: &mut DiagnosticRun<A>,
        error: Option<ErrorClass>,
    )
        ensures
            old(self).on_stop_returned(*final(self), *old(run), *final(run), error),
    {
        let span_id = match self.stop {
            PhaseState::Open(span_id) => span_id,
            _ => {
                run.latch_state_failure("runtime.production-stop-return-without-entry");
                return;
            },
        };
        let terminal = phase_terminal(error, "production-stop-cancelled", "production-stop-failed");
        if error.is_some() && self.first_user_failure.is_none() {
            self.first_user_failure = Some(terminal);
        }
        match run.context.finish_span(
            empty_scope(),
            span_id,
            terminal.outcome,
            terminal.event_code(),
        ) {
            Ok(()) => self.stop = PhaseState::Closed(terminal),
            Err(error) => run.latch_diagnostic_failure(error),
        }
    }

    pub fn enter_shutdown<A: SpanEventAdmission>(&mut self, run: &mut DiagnosticRun<A>)
        ensures
            old(self).on_shutdown_requested(*final(self), *old(run), *final(run)),
    {
        if self.run_closed {
            return;
        }
        if !matches!(self.shutdown, PhaseState::NotEntered) {
            run.latch_state_failure("runtime.production-shutdown-transition-invalid");
            return;
        }
        match run.context.start_span(
            empty_scope(),
            SpanStartDetail::ProductionShutdown,
            Some(self.run_span_id),
        ) {
            Ok(span_id) => self.shutdown = PhaseState::Open(span_id),
            Err(error) => run.latch_diagnostic_failure(error),
        }
    }

    pub fn lifecycle_returned<A: SpanEventAdmission>(
        &mut self,
        run: &mut DiagnosticRun<A>,
        error: Option<ErrorClass>,
    )
        ensures
            old(self).on_lifecycle_returned(*final(self), *old(run), *final(run), error),
    {
        if self.lifecycle_terminal.is_some() || self.run_closed {
            run.latch_state_failure("runtime.lifecycle-return-transition-invalid");
            return;
        }
        let phases_are_proven = match (self.start, self.stop) {
            (PhaseState::Closed(start), PhaseState::Closed(_)) => {
                matches!(start.outcome, SpanOutcome::Completed)
            },
            (PhaseState::Closed(start), PhaseState::NotEntered) => {
                !matches!(start.outcome, SpanOutcome::Completed)
            },
            _ => false,
        };
        if !phases_are_proven {
            run.latch_state_failure("runtime.lifecycle-return-with-unproven-phases");
            return;
        }
        let terminal = match error {
            None => {
                if self.first_user_failure.is_some() {
                    run.latch_state_failure("runtime.lifecycle-success-after-phase-failure");
                    return;
                }
                TerminalSpan::completed()
            },
            Some(error) => if error.cancelled {
                TerminalSpan::cancelled("production-lifecycle-cancelled")
            } else {
                match self.first_user_failure {
                    Some(first) => first,
                    None => TerminalSpan::failed("production-lifecycle-failed"),
                }
            },
        };
        self.lifecycle_terminal = Some(terminal);
    }

    pub fn finish_run<A: SpanEventAdmission>(&mut self, run: &mut DiagnosticRun<A>)
        ensures
            old(self).on_run_finished(*final(self), *old(run), *final(run)),
    {
        if self.run_closed {
            run.latch_state_failure("runtime.run-finish-transition-invalid");
            return;
        }
        let run_terminal = match self.lifecycle_terminal {
            Some(terminal) => terminal,
            None => {
                run.latch_state_failure("runtime.run-finished-before-lifecycle-return");
                return;
            },
        };
        if matches!(self.start, PhaseState::Open(_)) || matches!(self.stop, PhaseState::Open(_)) {
            run.latch_state_failure("runtime.run-finished-with-open-phase");
            return;
        }
        if let PhaseState::Open(span_id) = self.shutdown {
            let shutdown_terminal = match run_terminal.outcome {
                SpanOutcome::Completed => TerminalSpan::completed(),
                SpanOutcome::Cancelled => TerminalSpan::cancelled("production-shutdown-cancelled"),
                SpanOutcome::Failed => TerminalSpan::failed("production-shutdown-failed"),
            };
            if let Err(error) = run.context.finish_span(
                empty_scope(),
                span_id,
                shutdown_terminal.outcome,
                shutdown_terminal.event_code(),
            ) {
                run.latch_diagnostic_failure(error);
                return;
            }
            self.shutdown = PhaseState::Closed(shutdown_terminal);
        }
        match run.context.finish_span(
            empty_scope(),
            self.run_span_id,
            run_terminal.outcome,
            run_terminal.event_code(),
        ) {
            Ok(()) => self.run_closed = true,
            Err(error) => run.latch_diagnostic_failure(error),
        }
    }

    /// Takes a hook of the runtime.
    pub fn observe<A: SpanEventAdmission>(
        &mut self,
        run: &mut DiagnosticRun<A>,
        hook: RuntimeHook,
        error: Option<ErrorClass>,
    )
        ensures
            old(self).on_hook(*final(self), *old(run), *final(run), hook, error),
    {
        if run.failure.is_some() {
            return;
        }
        match hook {
            RuntimeHook::RunStarted => self.run_started(run),
            RuntimeHook::ProductionStartEntered => self.enter_start(run),
            RuntimeHook::ProductionStartReturned => self.finish_start(run, error),
            RuntimeHook::SceneReturned => self.observe_scene_return(run, error),
            RuntimeHook::ProductionStopEntered => self.enter_stop(run),
            RuntimeHook::ProductionStopReturned => self.finish_stop(run, error),
            RuntimeHook::ShutdownRequested => self.enter_shutdown(run),
            RuntimeHook::RunLifecycleReturned => self.lifecycle_returned(run, error),
            RuntimeHook::RunFinished => self.finish_run(run),
            RuntimeHook::ProductionCreated | RuntimeHook::SceneEntered => {},
        }
    }
}

impl RuntimeLifecycleProducer {
    /// The start of the run's own span.
    pub open spec fn run_span() -> EventCandidate {
        EventCandidate::started(
            DiagnosticScope::of_run(),
            SpanStartDetail::RunLifecycle,
            None,
            None,
        )
    }

    /// Starts the span of a run. Where that is refused there is no producer, and nothing is
    /// latched.
    pub fn start<A: SpanEventAdmission>(
        place: usize,
        core_key: usize,
        binding_key: usize,
        run: &mut DiagnosticRun<A>,
    ) -> (result: Result<Self, RuntimeProducerError>)
        ensures
            final(run).reports(*old(run), RuntimeLifecycleProducer::run_span().alone()),
            final(run).failure == old(run).failure,
            match result {
                Ok(producer) => {
                    &&& final(run).accepted_since(*old(run)).len() == 1
                    &&& producer == (RuntimeLifecycleProducer {
                        run: place,
                        core_key,
                        binding_key,
                        state: RuntimeLifecycleState::started(
                            final(run).accepted_since(*old(run))[0],
                        ),
                    })
                },
                Err(error) => {
                    &&& final(run).stopped_since(*old(run))
                    &&& error == RuntimeProducerError::Diagnostic(
                        Attempt::refusal(final(run).steps_since(*old(run))),
                    )
                },
            },
    {
        match run.context.start_span(empty_scope(), SpanStartDetail::RunLifecycle, None) {
            Ok(run_span_id) => Ok(
                RuntimeLifecycleProducer {
                    run: place,
                    core_key,
                    binding_key,
                    state: RuntimeLifecycleState {
                        run_span_id,
                        run_started: false,
                        start: PhaseState::NotEntered,
                        stop: PhaseState::NotEntered,
                        shutdown: PhaseState::NotEntered,
                        first_user_failure: None,
                        lifecycle_terminal: None,
                        run_closed: false,
                    },
                },
            ),
            Err(error) => Err(RuntimeProducerError::Diagnostic(error)),
        }
    }

    pub fn run_span_id(&self) -> (span_id: u64)
        ensures
            span_id == self.state.run_span_id,
    {
        self.state.run_span_id
    }

    /// How the run ended, once it has closed without a failure.
    pub open spec fn spec_terminal_outcome<A: SpanEventAdmission>(self, run: DiagnosticRun<A>) -> Result<
        SpanOutcome,
        RuntimeProducerError,
    > {
        match run.failure {
            Some(failure) => Err::<SpanOutcome, RuntimeProducerError>(failure),
            None => if !self.state.run_closed {
                Err(
                    RuntimeProducerError::State {
                        code: "runtime.terminal-outcome-before-run-finished",
                    },
                )
            } else {
                match self.state.lifecycle_terminal {
                    Some(terminal) => Ok(terminal.outcome),
                    None => Err(
                        RuntimeProducerError::State { code: "runtime.terminal-outcome-missing" },
                    ),
                }
            },
        }
    }

    pub fn terminal_outcome<A: SpanEventAdmission>(&self, run: &DiagnosticRun<A>) -> (result: Result<
        SpanOutcome,
        RuntimeProducerError,
    >)
        ensures
            result == self.spec_terminal_outcome(*run),
    {
        if let Some(failure) = run.failure() {
            return Err(failure);
        }
        if !self.state.run_closed {
            return Err(RuntimeProducerError::state("runtime.terminal-outcome-before-run-finished"));
        }
        match self.state.lifecycle_terminal {
            Some(terminal) => Ok(terminal.outcome),
            None => Err(RuntimeProducerError::state("runtime.terminal-outcome-missing")),
        }
    }

    /// Where a task of a phase hangs: in the phase's span while it is open and nothing failed.
    pub open spec fn spec_lineage<A: SpanEventAdmission>(
        self,
        run: DiagnosticRun<A>,
        phase: RuntimeTaskPhase,
    ) -> Option<RuntimeLineageSnapshot> {
        let state = match phase {
            RuntimeTaskPhase::Start => self.state.start,
            RuntimeTaskPhase::Stop => self.state.stop,
        };
        match state {
            PhaseState::Open(span_id) if run.failure is None && !self.state.run_closed => Some(
                RuntimeLineageSnapshot {
                    run: self.run,
                    scope: DiagnosticScope::of_run(),
                    containing_span_id: span_id,
                },
            ),
            _ => None,
        }
    }

    pub fn lineage_snapshot<A: SpanEventAdmission>(
        &self,
        run: &DiagnosticRun<A>,
        phase: RuntimeTaskPhase,
    ) -> (snapshot: Option<RuntimeLineageSnapshot>)
        ensures
            snapshot == self.spec_lineage(*run, phase),
    {
        if run.failure.is_some() || self.state.run_closed {
            return None;
        }
        let phase_state = match phase {
            RuntimeTaskPhase::Start => self.state.start,
            RuntimeTaskPhase::Stop => self.state.stop,
        };
        match phase_state {
            PhaseState::Open(span_id) => Some(
                RuntimeLineageSnapshot {
                    run: self.run,
                    scope: empty_scope(),
                    containing_span_id: span_id,
                },
            ),
            PhaseState::NotEntered | PhaseState::Closed(_) => None,
        }
    }
}

/// The producers of all runs. A producer keeps its place for good. It is found by its core and by
/// its binding until its run has finished.
pub struct RuntimeProducerRegistry {
    pub producers: Vec<RuntimeLifecycleProducer>,
    pub by_core: HashMap<usize, usize>,
    pub by_binding: HashMap<usize, usize>,
}

impl RuntimeProducerRegistry {
    /// A producer that is found by its core is found by its binding, and the other way round. Each
    /// producer has a run of its own, which keeps its failure.
    pub open spec fn wf(self) -> bool {
        &&& forall|i: int, j: int|
            0 <= i < j < self.producers@.len() ==> (#[trigger] self.producers@[i]).run != (
            #[trigger] self.producers@[j]).run
        &&& forall|core_key: usize| #[trigger]
            self.by_core@.contains_key(core_key) ==> {
                let place = self.by_core@[core_key];
                &&& place < self.producers@.len()
                &&& self.producers@[place as int].core_key == core_key
                &&& self.by_binding@.contains_key(self.producers@[place as int].binding_key)
                &&& self.by_binding@[self.producers@[place as int].binding_key] == place
            }
        &&& forall|binding_key: usize| #[trigger]
            self.by_binding@.contains_key(binding_key) ==> {
                let place = self.by_binding@[binding_key];
                &&& place < self.producers@.len()
                &&& self.producers@[place as int].binding_key == binding_key
                &&& self.by_core@.contains_key(self.producers@[place as int].core_key)
                &&& self.by_core@[self.producers@[place as int].core_key] == place
            }
    }

    /// Every producer reports through a run that is open.
    pub open spec fn fits<A: SpanEventAdmission>(self, runs: DiagnosticRuns<A>) -> bool {
        forall|place: int|
            0 <= place < self.producers@.len() ==> (#[trigger] self.producers@[place]).run
                < runs@.len()
    }

    /// The producer at `place` has taken a hook, and nothing else has changed among the producers
    /// and the runs.
    pub open spec fn hooked<A: SpanEventAdmission>(
        self,
        before: Self,
        runs: DiagnosticRuns<A>,
        runs_before: DiagnosticRuns<A>,
        place: usize,
        hook: RuntimeHook,
        error: Option<ErrorClass>,
    ) -> bool {
        let run = before.producers@[place as int].run;
        let state = before.producers@[place as int].state;
        let state_after = self.producers@[place as int].state;
        &&& self.producers@ =~= before.producers@.update(
            place as int,
            RuntimeLifecycleProducer { state: state_after, ..before.producers@[place as int] },
        )
        &&& runs.only_changes(runs_before, run as int)
        &&& state.on_hook(state_after, runs_before@[run as int], runs@[run as int], hook, error)
    }

    /// The producer at `place` is as it was before, and so is its run with its failure.
    pub open spec fn spares<A: SpanEventAdmission>(
        self,
        before: Self,
        runs: DiagnosticRuns<A>,
        runs_before: DiagnosticRuns<A>,
        place: int,
    ) -> bool {
        let run = before.producers@[place].run as int;
        &&& self.producers@[place] == before.producers@[place]
        &&& runs@[run] == runs_before@[run]
    }

    /// A failure was latched in the run of the producer at `place`.
    pub open spec fn latched<A: SpanEventAdmission>(
        self,
        runs: DiagnosticRuns<A>,
        runs_before: DiagnosticRuns<A>,
        place: usize,
        code: &'static str,
    ) -> bool {
        let run = self.producers@[place as int].run;
        runs@ =~= runs_before@.update(
            run as int,
            runs_before@[run as int].with_state_failure(code),
        )
    }

    pub fn new() -> (registry: Self)
        ensures
            registry.wf(),
            registry.producers@.len() == 0,
            registry.by_core@ == Map::<usize, usize>::empty(),
            registry.by_binding@ == Map::<usize, usize>::empty(),
    {
        RuntimeProducerRegistry {
            producers: Vec::new(),
            by_core: HashMap::new(),
            by_binding: HashMap::new(),
        }
    }

    /// What came of starting a producer that reports through a channel. It gets a run of its own,
    /// without a failure, also where others report through the same hub.
    pub open spec fn on_install<A: SpanEventAdmission>(
        self,
        after: Self,
        runs: DiagnosticRuns<A>,
        runs_after: DiagnosticRuns<A>,
        context: DiagnosticRunContext<A>,
        core_key: usize,
        binding_key: usize,
        result: Result<usize, RuntimeProducerError>,
    ) -> bool {
        if self.by_core@.contains_key(core_key) || self.by_binding@.contains_key(
            binding_key,
        ) {
            &&& after == self
            &&& runs_after == runs
            &&& result == Err::<usize, RuntimeProducerError>(
                RuntimeProducerError::State {
                    code: "runtime.diagnostic-producer-already-installed",
                },
            )
        } else {
            let run_before = DiagnosticRun { context, failure: None };
            let run_after = runs_after@.last();
            &&& runs_after@ == runs@.push(run_after)
            &&& run_after.reports(run_before, RuntimeLifecycleProducer::run_span().alone())
            &&& run_after.failure is None
            &&& match result {
                Ok(place) => {
                    &&& run_after.accepted_since(run_before).len() == 1
                    &&& place == self.producers@.len()
                    &&& after.producers@ == self.producers@.push(
                        RuntimeLifecycleProducer {
                            run: runs@.len() as usize,
                            core_key,
                            binding_key,
                            state: RuntimeLifecycleState::started(
                                run_after.accepted_since(run_before)[0],
                            ),
                        },
                    )
                    &&& after.by_core@ == self.by_core@.insert(core_key, place)
                    &&& after.by_binding@ == self.by_binding@.insert(
                        binding_key,
                        place,
                    )
                },
                Err(error) => {
                    &&& after == self
                    &&& run_after.stopped_since(run_before)
                    &&& error == RuntimeProducerError::Diagnostic(
                        Attempt::refusal(run_after.steps_since(run_before)),
                    )
                },
            }
        }
    }

    /// Starts the producer of a run. A core and a binding have one producer at most.
    pub fn install<A: SpanEventAdmission>(
        &mut self,
        runs: &mut DiagnosticRuns<A>,
        context: DiagnosticRunContext<A>,
        core_key: usize,
        binding_key: usize,
    ) -> (result: Result<usize, RuntimeProducerError>)
        requires
            old(self).wf(),
            old(self).fits(*old(runs)),
        ensures
            final(self).wf(),
            final(self).fits(*final(runs)),
            final(runs)@.len() >= old(runs)@.len(),
            old(self).on_install(
                *final(self),
                *old(runs),
                *final(runs),
                context,
                core_key,
                binding_key,
                result,
            ),
    {
        if self.by_core.contains_key(&core_key) || self.by_binding.contains_key(&binding_key) {
            return Err(RuntimeProducerError::state("runtime.diagnostic-producer-already-installed"));
        }
        let run: usize = runs.open_with(context);
        let started = RuntimeLifecycleProducer::start(
            run,
            core_key,
            binding_key,
            &mut runs.runs[run],
        );
        assert(runs@ =~= old(runs)@.push(runs@.last()));
        let producer = match started {
            Ok(producer) => producer,
            Err(error) => return Err(error),
        };
        let place: usize = self.producers.len();
        self.producers.push(producer);
        self.by_core.insert(core_key, place);
        self.by_binding.insert(binding_key, place);
        Ok(place)
    }

    pub open spec fn spec_for_binding(self, binding_key: usize) -> Option<usize> {
        if self.by_binding@.contains_key(binding_key) {
            Some(self.by_binding@[binding_key])
        } else {
            None
        }
    }

    pub fn producer_for_binding(&self, binding_key: usize) -> (place: Option<usize>)
        ensures
            place == self.spec_for_binding(binding_key),
    {
        match self.by_binding.get(&binding_key) {
            Some(place) => Some(*place),
            None => None,
        }
    }

    pub fn producer_for_core(&self, core_key: usize) -> (place: Option<usize>)
        ensures
            place == if self.by_core@.contains_key(core_key) {
                Some(self.by_core@[core_key])
            } else {
                None
            },
    {
        match self.by_core.get(&core_key) {
            Some(place) => Some(*place),
            None => None,
        }
    }

    pub fn lineage_snapshot<A: SpanEventAdmission>(
        &self,
        runs: &DiagnosticRuns<A>,
        binding_key: usize,
        phase: RuntimeTaskPhase,
    ) -> (snapshot: Option<RuntimeLineageSnapshot>)
        requires
            self.wf(),
            self.fits(*runs),
        ensures
            snapshot == match self.spec_for_binding(binding_key) {
                Some(place) => {
                    let producer = self.producers@[place as int];
                    producer.spec_lineage(runs@[producer.run as int], phase)
                },
                None => None,
            },
    {
        match self.producer_for_binding(binding_key) {
            Some(place) => {
                let producer = &self.producers[place];
                producer.lineage_snapshot(&runs.runs[producer.run], phase)
            },
            None => None,
        }
    }

    /// A finished run is no longer found.
    pub fn detach(&mut self, place: usize)
        requires
            old(self).wf(),
            place < old(self).producers@.len(),
        ensures
            final(self).wf(),
            final(self).producers == old(self).producers,
            ({
                let producer = old(self).producers@[place as int];
                let found = old(self).by_core@.contains_key(producer.core_key)
                    && old(self).by_core@[producer.core_key] == place;
                &&& final(self).by_core@ == if found {
                    old(self).by_core@.remove(producer.core_key)
                } else {
                    old(self).by_core@
                }
                &&& final(self).by_binding@ == if found {
                    old(self).by_binding@.remove(producer.binding_key)
                } else {
                    old(self).by_binding@
                }
            }),
    {
        let core_key: usize = self.producers[place].core_key;
        let binding_key: usize = self.producers[place].binding_key;
        let of_core = match self.by_core.get(&core_key) {
            Some(current) => *current == place,
            None => false,
        };
        let of_binding = match self.by_binding.get(&binding_key) {
            Some(current) => *current == place,
            None => false,
        };
        if of_core {
            self.by_core.remove(&core_key);
        }
        if of_binding {
            self.by_binding.remove(&binding_key);
        }
    }

    /// What comes of a hook that names the core of a run.
    pub open spec fn on_core_hook<A: SpanEventAdmission>(
        self,
        after: Self,
        runs: DiagnosticRuns<A>,
        runs_after: DiagnosticRuns<A>,
        core_key: usize,
        hook: RuntimeHook,
    ) -> bool {
        if self.by_core@.contains_key(core_key) {
            let place = self.by_core@[core_key];
            let binding_key = self.producers@[place as int].binding_key;
            &&& after.hooked(self, runs_after, runs, place, hook, None)
            &&& after.by_core@ == if hook is RunFinished {
                self.by_core@.remove(core_key)
            } else {
                self.by_core@
            }
            &&& after.by_binding@ == if hook is RunFinished {
                self.by_binding@.remove(binding_key)
            } else {
                self.by_binding@
            }
        } else {
            after == self && runs_after == runs
        }
    }

    /// Takes a hook that names the core of a run. The run's producer is detached once the run has
    /// finished.
    pub fn observe_core<A: SpanEventAdmission>(
        &mut self,
        runs: &mut DiagnosticRuns<A>,
        core_key: usize,
        hook: RuntimeHook,
    )
        requires
            old(self).wf(),
            old(self).fits(*old(runs)),
        ensures
            final(self).wf(),
            final(self).fits(*final(runs)),
            old(self).on_core_hook(*final(self), *old(runs), *final(runs), core_key, hook),
    {
        let place = match self.producer_for_core(core_key) {
            Some(place) => place,
            None => return,
        };
        let run: usize = self.producers[place].run;
        self.producers[place].state.observe(&mut runs.runs[run], hook, None);
        if matches!(hook, RuntimeHook::RunFinished) {
            self.detach(place);
        }
    }

    /// The run of a core begins under a binding. Both have to name the same producer.
    pub fn run_started<A: SpanEventAdmission>(
        &mut self,
        runs: &mut DiagnosticRuns<A>,
        core_key: usize,
        binding_key: usize,
    )
        requires
            old(self).wf(),
            old(self).fits(*old(runs)),
        ensures
            final(self).wf(),
            final(self).fits(*final(runs)),
            final(self).by_core@ == old(self).by_core@,
            final(self).by_binding@ == old(self).by_binding@,
            forall|other: int|
                0 <= other < old(self).producers@.len() && !(old(self).by_core@.contains_key(
                    core_key,
                ) && other == old(self).by_core@[core_key]) ==> #[trigger] final(self).spares(
                    *old(self),
                    *final(runs),
                    *old(runs),
                    other,
                ),
            if old(self).by_core@.contains_key(core_key) {
                let place = old(self).by_core@[core_key];
                match old(self).spec_for_binding(binding_key) {
                    Some(bound) => if bound == place {
                        final(self).hooked(
                            *old(self),
                            *final(runs),
                            *old(runs),
                            place,
                            RuntimeHook::RunStarted,
                            None,
                        )
                    } else {
                        &&& final(self).producers@ == old(self).producers@
                        &&& old(self).latched(
                            *final(runs),
                            *old(runs),
                            place,
                            "runtime.run-binding-producer-mismatch",
                        )
                    },
                    None => exists|runs_between: DiagnosticRuns<A>|
                        {
                            &&& #[trigger] final(self).hooked(
                                *old(self),
                                runs_between,
                                *old(runs),
                                place,
                                RuntimeHook::RunStarted,
                                None,
                            )
                            &&& old(self).latched(
                                *final(runs),
                                runs_between,
                                place,
                                "runtime.run-binding-producer-missing",
                            )
                        },
                }
            } else {
                final(self).producers@ == old(self).producers@ && *final(runs) == *old(runs)
            },
    {
        let place = match self.producer_for_core(core_key) {
            Some(place) => place,
            None => return,
        };
        let run: usize = self.producers[place].run;
        let bound = match self.producer_for_binding(binding_key) {
            Some(bound) => bound,
            None => {
                self.producers[place].state.observe(
                    &mut runs.runs[run],
                    RuntimeHook::RunStarted,
                    None,
                );
                let ghost between = *runs;
                assert(self.hooked(
                    *old(self),
                    between,
                    *old(runs),
                    place,
                    RuntimeHook::RunStarted,
                    None,
                ));
                runs.runs[run].latch_state_failure("runtime.run-binding-producer-missing");
                return;
            },
        };
        if place != bound {
            runs.runs[run].latch_state_failure("runtime.run-binding-producer-mismatch");
            return;
        }
        self.producers[place].state.observe(&mut runs.runs[run], RuntimeHook::RunStarted, None);
    }

    /// Hooks of a production as a whole change nothing.
    pub fn observe_production(&mut self, hook: RuntimeHook)
        ensures
            *final(self) == *old(self),
    {
    }

    /// Takes a hook that names the binding of a run, with what is known of the error it came with.
    pub fn observe_binding<A: SpanEventAdmission>(
        &mut self,
        runs: &mut DiagnosticRuns<A>,
        binding_key: usize,
        hook: RuntimeHook,
        error: Option<ErrorClass>,
    )
        requires
            old(self).wf(),
            old(self).fits(*old(runs)),
        ensures
            final(self).wf(),
            final(self).fits(*final(runs)),
            final(self).by_core@ == old(self).by_core@,
            final(self).by_binding@ == old(self).by_binding@,
            match old(self).spec_for_binding(binding_key) {
                Some(place) => final(self).hooked(
                    *old(self),
                    *final(runs),
                    *old(runs),
                    place,
                    hook,
                    error,
                ),
                None => final(self).producers@ == old(self).producers@ && *final(runs) == *old(
                    runs,
                ),
            },
    {
        if let Some(place) = self.producer_for_binding(binding_key) {
            let run: usize = self.producers[place].run;
            self.producers[place].state.observe(&mut runs.runs[run], hook, error);
        }
    }

    /// Takes a hook that names the binding of a run, with the error that it came with.
    pub fn observe_binding_error<A: SpanEventAdmission>(
        &mut self,
        runs: &mut DiagnosticRuns<A>,
        binding_key: usize,
        hook: RuntimeHook,
        error: Option<&pyo3::PyErr>,
    )
        requires
            old(self).wf(),
            old(self).fits(*old(runs)),
        ensures
            final(self).wf(),
            final(self).fits(*final(runs)),
            final(self).by_core@ == old(self).by_core@,
            final(self).by_binding@ == old(self).by_binding@,
            match old(self).spec_for_binding(binding_key) {
                Some(place) => exists|class: Option<ErrorClass>|
                    ErrorClass::is_of_result(class, error) && #[trigger] final(self).hooked(
                        *old(self),
                        *final(runs),
                        *old(runs),
                        place,
                        hook,
                        class,
                    ),
                None => final(self).producers@ == old(self).producers@ && *final(runs) == *old(
                    runs,
                ),
            },
    {
        self.observe_binding(runs, binding_key, hook, ErrorClass::of_result(error));
    }

    /// The producer that a binding leads to, where there is a binding and it has one.
    pub open spec fn spec_bound(self, binding_key: Option<usize>) -> Option<usize> {
        match binding_key {
            Some(binding_key) => self.spec_for_binding(binding_key),
            None => None,
        }
    }

    pub fn producer_bound(&self, binding_key: Option<usize>) -> (place: Option<usize>)
        ensures
            place == self.spec_bound(binding_key),
    {
        match binding_key {
            Some(binding_key) => self.producer_for_binding(binding_key),
            None => None,
        }
    }

    /// The run that a binding leads to.
    pub open spec fn spec_run_bound(self, binding_key: Option<usize>) -> Option<usize> {
        match self.spec_bound(binding_key) {
            Some(place) => Some(self.producers@[place as int].run),
            None => None,
        }
    }

    pub fn run_bound(&self, binding_key: Option<usize>) -> (run: Option<usize>)
        requires
            self.wf(),
        ensures
            run == self.spec_run_bound(binding_key),
    {
        match self.producer_bound(binding_key) {
            Some(place) => Some(self.producers[place].run),
            None => None,
        }
    }

    /// A failure was latched in the run that a binding leads to. Without one nothing has changed.
    pub open spec fn latched_for<A: SpanEventAdmission>(
        self,
        runs: DiagnosticRuns<A>,
        runs_before: DiagnosticRuns<A>,
        binding_key: Option<usize>,
        code: &'static str,
    ) -> bool {
        match self.spec_bound(binding_key) {
            Some(place) => self.latched(runs, runs_before, place, code),
            None => runs == runs_before,
        }
    }

    /// Latches a failure in the run that a binding leads to.
    pub fn latch_for_binding<A: SpanEventAdmission>(
        &self,
        runs: &mut DiagnosticRuns<A>,
        binding_key: Option<usize>,
        code: &'static str,
    )
        requires
            self.wf(),
            self.fits(*old(runs)),
        ensures
            self.fits(*final(runs)),
            final(runs)@.len() == old(runs)@.len(),
            self.latched_for(*final(runs), *old(runs), binding_key, code),
    {
        if let Some(place) = self.producer_bound(binding_key) {
            runs.runs[self.producers[place].run].latch_state_failure(code);
        }
    }
}

impl RuntimeLifecycleState {
    /// A run closes only after its lifecycle has returned, and a lifecycle returns only after its
    /// phases have ended.
    pub open spec fn is_consistent(self) -> bool {
        &&& self.run_closed ==> self.lifecycle_terminal is Some
        &&& self.lifecycle_terminal is Some ==> self.phases_are_proven()
    }
}

/// What holds of a run that has just started holds after every hook.
pub proof fn hooks_keep_runs_consistent<A: SpanEventAdmission>(
    state: RuntimeLifecycleState,
    after: RuntimeLifecycleState,
    run: DiagnosticRun<A>,
    run_after: DiagnosticRun<A>,
    hook: RuntimeHook,
    error: Option<ErrorClass>,
)
    requires
        state.is_consistent(),
        state.on_hook(after, run, run_after, hook, error),
    ensures
        after.is_consistent(),
        RuntimeLifecycleState::started(state.run_span_id).is_consistent(),
{
}

/// A run that has failed reports nothing more, and nothing about it changes.
pub proof fn failed_run_rests<A: SpanEventAdmission>(
    state: RuntimeLifecycleState,
    after: RuntimeLifecycleState,
    run: DiagnosticRun<A>,
    run_after: DiagnosticRun<A>,
    hook: RuntimeHook,
    error: Option<ErrorClass>,
)
    requires
        run.failure is Some,
        state.on_hook(after, run, run_after, hook, error),
    ensures
        after == state,
        run_after == run,
{
}

/// A run that is closed reports nothing more and stays closed.
pub proof fn closed_run_rests<A: SpanEventAdmission>(
    state: RuntimeLifecycleState,
    after: RuntimeLifecycleState,
    run: DiagnosticRun<A>,
    run_after: DiagnosticRun<A>,
    hook: RuntimeHook,
    error: Option<ErrorClass>,
)
    requires
        state.is_consistent(),
        state.run_closed,
        state.on_hook(after, run, run_after, hook, error),
    ensures
        after.run_closed,
        run_after.context == run.context,
{
}

/// A phase that has ended does not end again, and it is never entered again.
pub proof fn phases_end_once<A: SpanEventAdmission>(
    state: RuntimeLifecycleState,
    after: RuntimeLifecycleState,
    run: DiagnosticRun<A>,
    run_after: DiagnosticRun<A>,
    hook: RuntimeHook,
    error: Option<ErrorClass>,
)
    requires
        state.on_hook(after, run, run_after, hook, error),
    ensures
        state.start is Closed ==> after.start == state.start,
        state.stop is Closed ==> after.stop == state.stop,
        state.shutdown is Closed ==> after.shutdown == state.shutdown,
        after.run_span_id == state.run_span_id,
{
}

/// A run closes when none of its phases is open.
pub proof fn run_closes_last<A: SpanEventAdmission>(
    state: RuntimeLifecycleState,
    after: RuntimeLifecycleState,
    run: DiagnosticRun<A>,
    run_after: DiagnosticRun<A>,
    hook: RuntimeHook,
    error: Option<ErrorClass>,
)
    requires
        state.on_hook(after, run, run_after, hook, error),
        !state.run_closed,
        after.run_closed,
    ensures
        hook == RuntimeHook::RunFinished,
        after.start !is Open,
        after.stop !is Open,
        after.shutdown !is Open,
{
    let run_terminal = state.lifecycle_terminal->0;
    let steps = run_after.steps_since(run);
    if state.shutdown is Open {
        assert(Attempt::carry_out(state.finish_plan(run_terminal), steps));
        assert(Attempt::accepted(steps).len() == steps.len());
        if steps.len() == 0 {
            assert((state.finish_plan(run_terminal))(Attempt::accepted(steps)) is None);
        }
    }
}

impl RuntimeLifecycleState {
    /// The spans that the run still has to end have begun.
    pub open spec fn is_rooted(self, trace: Seq<Attempt>) -> bool {
        &&& crate::references::begun_in(trace, self.run_span_id)
        &&& self.start matches PhaseState::Open(span_id) ==> crate::references::begun_in(
            trace,
            span_id,
        )
        &&& self.stop matches PhaseState::Open(span_id) ==> crate::references::begun_in(
            trace,
            span_id,
        )
        &&& self.shutdown matches PhaseState::Open(span_id) ==> crate::references::begun_in(
            trace,
            span_id,
        )
    }
}

/// A run that starts has begun its span.
pub proof fn started_run_refers_back<A: SpanEventAdmission>(run: DiagnosticRun<A>, run_after: DiagnosticRun<A>)
    requires
        crate::references::refer_back(run.context.trace()),
        run_after.reports(run, RuntimeLifecycleProducer::run_span().alone()),
    ensures
        crate::references::refer_back(run_after.context.trace()),
        crate::references::goes_on(run.context.trace(), run_after.context.trace()),
        Attempt::nth(run_after.accepted_since(run), 0) matches Some(run_span_id)
            ==> RuntimeLifecycleState::started(run_span_id).is_rooted(run_after.context.trace()),
{
    crate::references::one_fact_refers_back(
        run_after.context,
        run.context,
        RuntimeLifecycleProducer::run_span(),
    );
}

/// Whatever a run reports of itself refers only to spans that have begun.
pub proof fn facts_of_a_run_refer_back<A: SpanEventAdmission>(
    state: RuntimeLifecycleState,
    after: RuntimeLifecycleState,
    run: DiagnosticRun<A>,
    run_after: DiagnosticRun<A>,
    hook: RuntimeHook,
    error: Option<ErrorClass>,
)
    requires
        crate::references::refer_back(run.context.trace()),
        state.is_rooted(run.context.trace()),
        state.on_hook(after, run, run_after, hook, error),
    ensures
        crate::references::refer_back(run_after.context.trace()),
        crate::references::goes_on(run.context.trace(), run_after.context.trace()),
        after.is_rooted(run_after.context.trace()),
{
    crate::references::what_began_stays_begun(run.context.trace(), run.context.trace());
    if run_after.context != run.context {
        match hook {
            RuntimeHook::ProductionStartEntered => {
                crate::references::one_fact_refers_back(
                    run_after.context,
                    run.context,
                    state.child(SpanStartDetail::ProductionStart),
                );
            },
            RuntimeHook::ProductionStopEntered => {
                crate::references::one_fact_refers_back(
                    run_after.context,
                    run.context,
                    state.child(SpanStartDetail::ProductionStop),
                );
            },
            RuntimeHook::ShutdownRequested => {
                crate::references::one_fact_refers_back(
                    run_after.context,
                    run.context,
                    state.child(SpanStartDetail::ProductionShutdown),
                );
            },
            RuntimeHook::ProductionStartReturned => {
                let terminal = RuntimeLifecycleState::phase_end(
                    error,
                    "production-start-cancelled",
                    "production-start-failed",
                );
                crate::references::one_fact_refers_back(
                    run_after.context,
                    run.context,
                    RuntimeLifecycleState::end_of(state.start->Open_0, terminal),
                );
            },
            RuntimeHook::ProductionStopReturned => {
                let terminal = RuntimeLifecycleState::phase_end(
                    error,
                    "production-stop-cancelled",
                    "production-stop-failed",
                );
                crate::references::one_fact_refers_back(
                    run_after.context,
                    run.context,
                    RuntimeLifecycleState::end_of(state.stop->Open_0, terminal),
                );
            },
            _ => {
                crate::references::plain_plans_refer_back(
                    run_after.context,
                    run.context,
                    state.finish_plan(state.lifecycle_terminal->0),
                );
            },
        }
    }
}

/// A hook of one producer leaves every other producer alone, with its run and its failure, also where
/// they report through the same hub.
pub proof fn hooks_touch_one_producer<A: SpanEventAdmission>(
    before: RuntimeProducerRegistry,
    after: RuntimeProducerRegistry,
    runs_before: DiagnosticRuns<A>,
    runs_after: DiagnosticRuns<A>,
    place: usize,
    hook: RuntimeHook,
    error: Option<ErrorClass>,
    other: int,
)
    requires
        before.wf(),
        before.fits(runs_before),
        place < before.producers@.len(),
        after.hooked(before, runs_after, runs_before, place, hook, error),
        0 <= other < before.producers@.len(),
        other != place,
    ensures
        after.spares(before, runs_after, runs_before, other),
{
    runs_apart(before, place as int, other);
}

/// A failure that is latched for one producer leaves every other producer alone.
pub proof fn failures_touch_one_producer<A: SpanEventAdmission>(
    registry: RuntimeProducerRegistry,
    runs_before: DiagnosticRuns<A>,
    runs_after: DiagnosticRuns<A>,
    place: usize,
    code: &'static str,
    other: int,
)
    requires
        registry.wf(),
        registry.fits(runs_before),
        place < registry.producers@.len(),
        registry.latched(runs_after, runs_before, place, code),
        0 <= other < registry.producers@.len(),
        other != place,
    ensures
        registry.spares(registry, runs_after, runs_before, other),
        runs_after@[registry.producers@[place as int].run as int].failure is Some,
{
    runs_apart(registry, place as int, other);
}

/// Two producers have two runs.
proof fn runs_apart(registry: RuntimeProducerRegistry, one: int, other: int)
    requires
        registry.wf(),
        0 <= one < registry.producers@.len(),
        0 <= other < registry.producers@.len(),
        one != other,
    ensures
        registry.producers@[one].run != registry.producers@[other].run,
{
    if one < other {
        assert(registry.producers@[one].run != registry.producers@[other].run);
    } else {
        assert(registry.producers@[other].run != registry.producers@[one].run);
    }
}

/// A phase of a production is told as it went. Its span begins in the span of the run when the
/// phase is entered, and ends when it returns: completed exactly where nothing was raised,
/// cancelled exactly where a cancellation was raised, and failed otherwise, with a code exactly
/// where it did not complete. What was raised first is kept as the failure of user code.
pub proof fn phases_are_told_as_they_went<A: SpanEventAdmission>(
    state: RuntimeLifecycleState,
    after: RuntimeLifecycleState,
    run: DiagnosticRun<A>,
    run_after: DiagnosticRun<A>,
    hook: RuntimeHook,
    error: Option<ErrorClass>,
)
    requires
        state.on_hook(after, run, run_after, hook, error),
        run.failure is None,
    ensures
        ({
            let facts = run_after.steps_since(run);
            let starting = hook is ProductionStartReturned;
            let phase = if starting { state.start } else { state.stop };
            let phase_after = if starting { after.start } else { after.stop };
            let returned = hook is ProductionStartReturned || hook is ProductionStopReturned;
            &&& returned && phase is Open ==> {
                &&& facts.len() == 1
                &&& facts[0].candidate.scope == DiagnosticScope::of_run()
                &&& facts[0].candidate.body matches crate::event::EventBody::SpanFinished {
                    span_id,
                    outcome,
                    error_code,
                } && {
                    &&& phase == PhaseState::Open(span_id)
                    &&& error is Some ==> error_code->0@ == if starting {
                        if error->0.cancelled {
                            "production-start-cancelled"@
                        } else {
                            "production-start-failed"@
                        }
                    } else {
                        if error->0.cancelled {
                            "production-stop-cancelled"@
                        } else {
                            "production-stop-failed"@
                        }
                    }
                    &&& outcome is Completed <==> error is None
                    &&& outcome is Cancelled <==> error is Some && error->0.cancelled
                    &&& outcome is Failed <==> error is Some && !error->0.cancelled
                    &&& error_code is None <==> error is None
                }
                &&& facts[0].reply is Ok ==> (phase_after matches PhaseState::Closed(told) && {
                    &&& told.outcome is Completed <==> error is None
                    &&& told.outcome is Cancelled <==> error is Some && error->0.cancelled
                })
                &&& error is None ==> after.first_user_failure == state.first_user_failure
                &&& error is Some && (starting || state.first_user_failure is None)
                    ==> after.first_user_failure is Some && (
                after.first_user_failure->0.outcome is Cancelled <==> error->0.cancelled) && (
                after.first_user_failure->0.outcome is Failed <==> !error->0.cancelled)
                &&& error is Some && !starting && state.first_user_failure is Some
                    ==> after.first_user_failure == state.first_user_failure
                &&& starting ==> after.stop == state.stop
                &&& !starting ==> after.start == state.start
            }
            &&& returned && phase !is Open ==> run_after.failure is Some && after == state
                && run_after.context == run.context
            &&& hook is ProductionStartEntered && state.run_started && state.start is NotEntered
                ==> {
                &&& facts.len() == 1
                &&& facts[0].candidate.body == (crate::event::EventBody::SpanStarted {
                    detail: SpanStartDetail::ProductionStart,
                    parent_span_id: Some(state.run_span_id),
                })
                &&& facts[0].reply is Ok ==> after.start == PhaseState::Open(facts[0].reply->Ok_0)
                &&& after.stop == state.stop && after.shutdown == state.shutdown
            }
            &&& hook is ProductionStopEntered && state.run_started && state.stop is NotEntered && (
            state.start matches PhaseState::Closed(started) && started.outcome is Completed) ==> {
                &&& facts.len() == 1
                &&& facts[0].candidate.body == (crate::event::EventBody::SpanStarted {
                    detail: SpanStartDetail::ProductionStop,
                    parent_span_id: Some(state.run_span_id),
                })
                &&& facts[0].reply is Ok ==> after.stop == PhaseState::Open(facts[0].reply->Ok_0)
                &&& after.start == state.start && after.shutdown == state.shutdown
            }
            &&& hook is ProductionStopEntered && !(state.run_started && state.stop is NotEntered
                && (state.start matches PhaseState::Closed(started) && started.outcome
                is Completed)) ==> run_after.failure is Some && after == state
                && run_after.context == run.context
            &&& hook is ProductionStartEntered && !(state.run_started && state.start is NotEntered)
                ==> run_after.failure is Some && after == state && run_after.context == run.context
        }),
{
    if hook is ProductionStartReturned {
        if let PhaseState::Open(span_id) = state.start {
            crate::references::lone_fact(
                run.context,
                run_after.context,
                RuntimeLifecycleState::end_of(
                    span_id,
                    RuntimeLifecycleState::phase_end(
                        error,
                        "production-start-cancelled",
                        "production-start-failed",
                    ),
                ),
            );
        }
    } else if hook is ProductionStopReturned {
        if let PhaseState::Open(span_id) = state.stop {
            crate::references::lone_fact(
                run.context,
                run_after.context,
                RuntimeLifecycleState::end_of(
                    span_id,
                    RuntimeLifecycleState::phase_end(
                        error,
                        "production-stop-cancelled",
                        "production-stop-failed",
                    ),
                ),
            );
        }
    } else if hook is ProductionStartEntered && state.run_started && state.start is NotEntered {
        crate::references::lone_fact(
            run.context,
            run_after.context,
            state.child(SpanStartDetail::ProductionStart),
        );
    } else if hook is ProductionStopEntered && state.run_started && state.stop is NotEntered
        && RuntimeLifecycleState::completed(state.start) {
        crate::references::lone_fact(
            run.context,
            run_after.context,
            state.child(SpanStartDetail::ProductionStop),
        );
    }
}

/// What a production came to is what its run ends with. It completed exactly where nothing was raised,
/// was cancelled exactly where a cancellation was raised at the end, and failed otherwise, as its first
/// failure did where there was one that is no cancellation. It cannot have completed where user code
/// has failed before, nor before its phases are over.
pub proof fn lifecycle_comes_to_what_was_raised<A: SpanEventAdmission>(
    state: RuntimeLifecycleState,
    after: RuntimeLifecycleState,
    run: DiagnosticRun<A>,
    run_after: DiagnosticRun<A>,
    error: Option<ErrorClass>,
)
    requires
        state.on_lifecycle_returned(after, run, run_after, error),
        state.lifecycle_terminal is None,
        after.lifecycle_terminal is Some,
    ensures
        ({
            let told = after.lifecycle_terminal->0;
            &&& error is None ==> told.outcome is Completed && told.error_code is None
            &&& error is Some && error->0.cancelled ==> told.outcome is Cancelled
                && told.error_code is Some && told.error_code->0@
                == "production-lifecycle-cancelled"@
            &&& error is Some && !error->0.cancelled && state.first_user_failure is None
                ==> told.outcome is Failed && told.error_code is Some && told.error_code->0@
                == "production-lifecycle-failed"@
            &&& error is Some && !error->0.cancelled && state.first_user_failure is Some
                ==> state.first_user_failure == Some(told)
            &&& error is None ==> state.first_user_failure is None
            &&& state.start is Closed
            &&& state.start->Closed_0.outcome is Completed ==> state.stop is Closed
            &&& state.start->Closed_0.outcome !is Completed ==> state.stop is NotEntered
            &&& !state.run_closed
            &&& run_after == run
            &&& after.start == state.start && after.stop == state.stop && after.shutdown
                == state.shutdown
        }),
{
}

/// A run that has finished ends its span with what its production came to, and, where it was told to
/// shut down, the span of the shutdown before, in the same way. Then it is closed.
pub proof fn run_ends_with_its_lifecycle<A: SpanEventAdmission>(
    state: RuntimeLifecycleState,
    after: RuntimeLifecycleState,
    run: DiagnosticRun<A>,
    run_after: DiagnosticRun<A>,
)
    requires
        state.on_run_finished(after, run, run_after),
        !state.run_closed,
        state.lifecycle_terminal is Some,
        state.start !is Open && state.stop !is Open,
    ensures
        ({
            let facts = run_after.steps_since(run);
            let told = state.lifecycle_terminal->0;
            let last = if state.shutdown is Open { 1int } else { 0int };
            &&& 1 <= facts.len() <= last + 1
            &&& forall|i: int|
                0 <= i < facts.len() ==> {
                    &&& (#[trigger] facts[i]).candidate.body is SpanFinished
                    &&& facts[i].candidate.body->outcome == told.outcome
                    &&& facts[i].candidate.scope == DiagnosticScope::of_run()
                }
            &&& state.shutdown is Open ==> {
                &&& state.shutdown == PhaseState::Open(
                    facts[0].candidate.body->SpanFinished_span_id,
                )
                &&& facts[0].candidate.body->error_code is None <==> told.outcome is Completed
                &&& told.outcome is Cancelled ==> facts[0].candidate.body->error_code->0@
                    == "production-shutdown-cancelled"@
                &&& told.outcome is Failed ==> facts[0].candidate.body->error_code->0@
                    == "production-shutdown-failed"@
            }
            &&& facts.len() == last + 1 ==> {
                &&& facts[last].candidate.body->SpanFinished_span_id == state.run_span_id
                &&& facts[last].candidate.body->error_code == match told.error_code {
                    Some(code) => Some(crate::event::ErrorCode::Stable(code)),
                    None => None,
                }
            }
            &&& after.run_closed <==> facts.len() == last + 1 && facts[last].reply is Ok
            &&& after.lifecycle_terminal == state.lifecycle_terminal
        }),
{
    let plan = state.finish_plan(state.lifecycle_terminal->0);
    crate::references::planned_facts(run.context, run_after.context, plan);
    let facts = run_after.steps_since(run);
    let given = |i: int| crate::references::sequences(facts, i);
    assert(plan(given(0)) is Some);
    assert(plan(given(2)) is None);
    if state.shutdown is Open {
        assert(plan(given(1)) is Some);
        assert(facts.len() <= 2) by {
            if facts.len() > 2 {
                assert(plan(given(2)) == Some(facts[2].candidate));
            }
        }
    } else {
        assert(plan(given(1)) is None);
        assert(facts.len() <= 1) by {
            if facts.len() > 1 {
                assert(plan(given(1)) == Some(facts[1].candidate));
            }
        }
    }
}

/// A scene that failed counts as a failure of user code, unless it was cancelled or something failed
/// before. A run starts once. A shutdown is asked for once, and is told in the span of the run.
pub proof fn other_news_of_a_run<A: SpanEventAdmission>(
    state: RuntimeLifecycleState,
    after: RuntimeLifecycleState,
    run: DiagnosticRun<A>,
    run_after: DiagnosticRun<A>,
    hook: RuntimeHook,
    error: Option<ErrorClass>,
)
    requires
        state.on_hook(after, run, run_after, hook, error),
        run.failure is None,
    ensures
        hook is SceneReturned ==> {
            &&& run_after == run
            &&& error is Some && !error->0.cancelled && state.first_user_failure is None
                ==> after.first_user_failure is Some && after.first_user_failure->0.outcome
                is Failed && after.first_user_failure->0.error_code is Some
                && after.first_user_failure->0.error_code->0@ == "production-scene-failed"@
            &&& error is None || error->0.cancelled || state.first_user_failure is Some
                ==> after == state
        },
        hook is RunStarted && !state.run_started && !state.run_closed ==> after.run_started
            && run_after == run,
        hook is RunStarted && (state.run_started || state.run_closed) ==> run_after.failure is Some
            && after == state,
        hook is ShutdownRequested && state.run_closed ==> run_after == run && after == state,
        hook is ShutdownRequested && !state.run_closed && state.shutdown is NotEntered ==> {
            let facts = run_after.steps_since(run);
            &&& facts.len() == 1
            &&& facts[0].candidate.body == (crate::event::EventBody::SpanStarted {
                detail: SpanStartDetail::ProductionShutdown,
                parent_span_id: Some(state.run_span_id),
            })
            &&& facts[0].reply is Ok ==> after.shutdown == PhaseState::Open(facts[0].reply->Ok_0)
        },
        hook is ShutdownRequested && !state.run_closed && state.shutdown !is NotEntered
            ==> run_after.failure is Some && after == state,
{
    if hook is ShutdownRequested && !state.run_closed && state.shutdown is NotEntered {
        crate::references::lone_fact(
            run.context,
            run_after.context,
            state.child(SpanStartDetail::ProductionShutdown),
        );
    }
}

/// How a run ended is known exactly once it has closed with its lifecycle over and without a
/// failure, and is how its lifecycle ended. A failure of the run is told before anything else.
pub proof fn run_ended_as_its_lifecycle_did<A: SpanEventAdmission>(
    producer: RuntimeLifecycleProducer,
    run: DiagnosticRun<A>,
)
    ensures
        ({
            let ended = producer.spec_terminal_outcome(run);
            let terminal = producer.state.lifecycle_terminal;
            &&& ended is Ok <==> run.failure is None && producer.state.run_closed && terminal is Some
            &&& ended matches Ok(outcome) ==> outcome == terminal->0.outcome
            &&& run.failure is Some ==> ended == Err::<SpanOutcome, RuntimeProducerError>(
                run.failure->0,
            )
        }),
{
}

/// A task of a phase hangs in the span of that phase, and of no other, while that is open, the run
/// is not closed and nothing failed.
pub proof fn tasks_hang_in_their_own_phase<A: SpanEventAdmission>(
    producer: RuntimeLifecycleProducer,
    run: DiagnosticRun<A>,
    phase: RuntimeTaskPhase,
)
    ensures
        ({
            let snapshot = producer.spec_lineage(run, phase);
            let open = (phase is Start && producer.state.start is Open) || (phase is Stop
                && producer.state.stop is Open);
            &&& snapshot is Some <==> open && run.failure is None && !producer.state.run_closed
            &&& snapshot matches Some(given) ==> {
                &&& given.run == producer.run
                &&& phase is Start ==> producer.state.start == PhaseState::Open(
                    given.containing_span_id,
                )
                &&& phase is Stop ==> producer.state.stop == PhaseState::Open(
                    given.containing_span_id,
                )
                &&& given.scope.scene_id is None && given.scope.actor_id is None
                    && given.scope.cue_id is None && given.scope.act_id is None
            }
        }),
{
}

/// A run is found by the binding that it was installed for, and a binding that none was installed
/// for finds none.
pub proof fn runs_are_found_by_their_binding(
    registry: RuntimeProducerRegistry,
    binding_key: Option<usize>,
)
    requires
        registry.wf(),
    ensures
        ({
            let bound = registry.spec_bound(binding_key);
            let run = registry.spec_run_bound(binding_key);
            &&& bound is Some <==> binding_key is Some && registry.by_binding@.contains_key(
                binding_key->0,
            )
            &&& bound matches Some(place) ==> {
                &&& place < registry.producers@.len()
                &&& registry.producers@[place as int].binding_key == binding_key->0
                &&& run == Some(registry.producers@[place as int].run)
            }
            &&& bound is None ==> run is None
        }),
{
}

/// That the lifecycle of a run is over is taken exactly once, before the run is closed, after its
/// phases are over, and as a success only where user code has not failed; and a run finishes
/// exactly once, after its lifecycle is over and with no phase open. Anything else is a fault, and
/// tells and changes nothing.
pub proof fn runs_end_in_order<A: SpanEventAdmission>(
    state: RuntimeLifecycleState,
    after: RuntimeLifecycleState,
    run: DiagnosticRun<A>,
    run_after: DiagnosticRun<A>,
    hook: RuntimeHook,
    error: Option<ErrorClass>,
)
    requires
        state.on_hook(after, run, run_after, hook, error),
        run.failure is None,
    ensures
        ({
            let started = state.start is Closed;
            let well = started && state.start->Closed_0.outcome is Completed;
            let over = started && (well ==> state.stop is Closed) && (!well ==> state.stop
                is NotEntered);
            let may_return = state.lifecycle_terminal is None && !state.run_closed && over && (error
                is None ==> state.first_user_failure is None);
            let may_finish = !state.run_closed && state.lifecycle_terminal is Some && state.start
                !is Open && state.stop !is Open;
            &&& hook is RunLifecycleReturned && may_return ==> after.lifecycle_terminal is Some
                && run_after == run
            &&& hook is RunLifecycleReturned && !may_return ==> after == state && run_after.failure
                is Some && run_after.context == run.context
            &&& hook is RunFinished && may_finish ==> run_after.steps_since(run).len() > 0
            &&& hook is RunFinished && !may_finish ==> after == state && run_after.failure is Some
                && run_after.context == run.context
            &&& hook is ProductionCreated || hook is SceneEntered ==> after == state && run_after
                == run
            &&& hook is RunLifecycleReturned && !may_return ==> run_after.failure->0.spec_code()
                == if state.lifecycle_terminal is Some || state.run_closed {
                "runtime.lifecycle-return-transition-invalid"@
            } else if !over {
                "runtime.lifecycle-return-with-unproven-phases"@
            } else {
                "runtime.lifecycle-success-after-phase-failure"@
            }
            &&& hook is RunFinished && !may_finish ==> run_after.failure->0.spec_code()
                == if state.run_closed {
                "runtime.run-finish-transition-invalid"@
            } else if state.lifecycle_terminal is None {
                "runtime.run-finished-before-lifecycle-return"@
            } else {
                "runtime.run-finished-with-open-phase"@
            }
            &&& run_after.failure is Some && hook is RunStarted ==> run_after.failure->0.spec_code()
                == "runtime.run-start-transition-invalid"@
            &&& run_after.failure is Some && run_after.context == run.context ==> {
                let told = run_after.failure->0.spec_code();
                &&& hook is ProductionStartEntered ==> told
                    == "runtime.production-start-transition-invalid"@
                &&& hook is ProductionStopEntered ==> told
                    == "runtime.production-stop-transition-invalid"@
                &&& hook is ProductionStartReturned ==> told
                    == "runtime.production-start-return-without-entry"@
                &&& hook is ProductionStopReturned ==> told
                    == "runtime.production-stop-return-without-entry"@
                &&& hook is ShutdownRequested ==> told
                    == "runtime.production-shutdown-transition-invalid"@
            }
        }),
{
    if hook is RunFinished && !state.run_closed && state.lifecycle_terminal is Some && state.start
        !is Open && state.stop !is Open {
        run_ends_with_its_lifecycle(state, after, run, run_after);
    }
    if run_after.context == run.context {
        assert(run_after.steps_since(run).len() == 0);
        phases_are_told_as_they_went(state, after, run, run_after, hook, error);
        other_news_of_a_run(state, after, run, run_after, hook, error);
    }
}

/// A hook that names the core of a run is taken by the run of that core and by no other, and a run
/// that has finished is no longer found by its core or its binding. A core that no run was
/// installed for changes nothing.
pub proof fn hooks_reach_the_run_of_their_core<A: SpanEventAdmission>(
    registry: RuntimeProducerRegistry,
    after: RuntimeProducerRegistry,
    runs: DiagnosticRuns<A>,
    runs_after: DiagnosticRuns<A>,
    core_key: usize,
    hook: RuntimeHook,
)
    requires
        registry.wf(),
        registry.on_core_hook(after, runs, runs_after, core_key, hook),
    ensures
        !registry.by_core@.contains_key(core_key) ==> after == registry && runs_after == runs,
        registry.by_core@.contains_key(core_key) ==> {
            let place = registry.by_core@[core_key] as int;
            let run = registry.producers@[place].run as int;
            &&& registry.producers@[place].state.on_hook(
                after.producers@[place].state,
                runs@[run],
                runs_after@[run],
                hook,
                None,
            )
            &&& hook is RunFinished <==> !after.by_core@.contains_key(core_key)
            &&& hook is RunFinished ==> after.spec_for_binding(
                registry.producers@[place].binding_key,
            ) is None
            &&& forall|other: int|
                0 <= other < runs@.len() && other != run ==> #[trigger] runs_after@[other]
                    == runs@[other]
            &&& forall|other: int|
                0 <= other < registry.producers@.len() && other != place
                    ==> #[trigger] after.producers@[other] == registry.producers@[other]
        },
{
}

/// What is told of a run hangs in the run alone and comes of nothing that was told before: its
/// phases follow on user code.
pub proof fn facts_of_a_run_come_of_nothing<A: SpanEventAdmission>(
    state: RuntimeLifecycleState,
    after: RuntimeLifecycleState,
    run: DiagnosticRun<A>,
    run_after: DiagnosticRun<A>,
    hook: RuntimeHook,
    error: Option<ErrorClass>,
    place: int,
)
    requires
        state.on_hook(after, run, run_after, hook, error),
        0 <= place < run_after.steps_since(run).len(),
    ensures
        run_after.steps_since(run)[place].candidate.cause is None,
        !run_after.steps_since(run)[place].candidate.unheard,
        ({
            let scope = run_after.steps_since(run)[place].candidate.scope;
            &&& scope.scene_id is None && scope.actor_id is None && scope.cue_id is None
            &&& scope.effect_id is None && scope.act_id is None && scope.tool_call_id is None
            &&& scope.session_generation is None
        }),
{
    let facts = run_after.steps_since(run);
    if run_after.context != run.context {
        match hook {
            RuntimeHook::ProductionStartEntered => crate::references::lone_fact(
                run.context,
                run_after.context,
                state.child(SpanStartDetail::ProductionStart),
            ),
            RuntimeHook::ProductionStopEntered => crate::references::lone_fact(
                run.context,
                run_after.context,
                state.child(SpanStartDetail::ProductionStop),
            ),
            RuntimeHook::ShutdownRequested => crate::references::lone_fact(
                run.context,
                run_after.context,
                state.child(SpanStartDetail::ProductionShutdown),
            ),
            RuntimeHook::ProductionStartReturned => crate::references::lone_fact(
                run.context,
                run_after.context,
                RuntimeLifecycleState::end_of(
                    state.start->Open_0,
                    RuntimeLifecycleState::phase_end(
                        error,
                        "production-start-cancelled",
                        "production-start-failed",
                    ),
                ),
            ),
            RuntimeHook::ProductionStopReturned => crate::references::lone_fact(
                run.context,
                run_after.context,
                RuntimeLifecycleState::end_of(
                    state.stop->Open_0,
                    RuntimeLifecycleState::phase_end(
                        error,
                        "production-stop-cancelled",
                        "production-stop-failed",
                    ),
                ),
            ),
            RuntimeHook::RunFinished => {
                let plan = state.finish_plan(state.lifecycle_terminal->0);
                crate::references::planned_facts(run.context, run_after.context, plan);
                let given = crate::references::sequences(facts, place);
                assert(plan(given) == Some(facts[place].candidate));
            },
            _ => {},
        }
    } else {
        assert(facts.len() == 0);
    }
}

} // verus!
