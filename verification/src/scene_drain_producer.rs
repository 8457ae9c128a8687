//! How a scene drains: its driver exits, admission closes, and the cleanup takes over.
use crate::context::{Attempt, DiagnosticProducerError, DiagnosticRunContext, SpanEventAdmission};
use crate::event::{
    caused_by, CausalLink, CausalRelation, DiagnosticEventKind, EventBody, EventCandidate,
    ObservationGap, SpanStartDetail, TerminalSpan,
};
use crate::python_error::ErrorClass;
use crate::run::{DiagnosticRuns, RuntimeProducerError};
use crate::runtime_producer::RuntimeProducerRegistry;
use crate::scene_producer::{SceneLineageSnapshot, SceneRegistry, SceneScope};
use std::collections::HashMap;
use vstd::prelude::*;

verus! {

broadcast use vstd::std_specs::hash::group_hash_axioms;

/// What the runtime announces of a scene that drains.
#[derive(Clone, Copy, Debug, PartialEq, Eq, Structural)]
pub enum SceneDrainHook {
    AdmissionClosed,
    CancellationStarted,
    CleanupStarted,
    CleanupFinished,
}

/// How the driver of a scene left it.
#[derive(Clone, Copy, Debug, PartialEq, Eq, Structural)]
pub enum SceneDriverExit {
    Returned,
    Closed,
    Cleared,
}

/// What is known of the driver of a scene.
#[derive(Clone, Copy, Debug, PartialEq, Eq)]
pub enum DriverObservation {
    Pending,
    Observed { drain: TerminalSpan, cleanup: TerminalSpan },
    Lost,
}

/// What is known of how a scene drains.
#[derive(Clone, Copy, Debug, PartialEq, Eq)]
pub struct SceneDrainState {
    pub driver: DriverObservation,
    pub admission_closed: bool,
    pub cancellation_started: bool,
    pub cleanup_started: bool,
    pub drain_span_id: Option<u64>,
    pub gap_sequence: Option<u64>,
    pub cleanup_span_id: Option<u64>,
    pub finished: bool,
    pub producer_failed: bool,
}

/// Reports how one scene drains. `owner` is the place of the run that hears of its failures.
#[derive(Debug, PartialEq, Eq)]
pub struct SceneDrainProducer {
    pub owner: usize,
    pub lineage: SceneLineageSnapshot,
    pub state: SceneDrainState,
}

/// How a driver that returned ends the drain.
pub open spec fn spec_returned_terminal(error: Option<ErrorClass>) -> TerminalSpan {
    match error {
        None => TerminalSpan::spec_completed(),
        Some(error) => if error.stop_iteration {
            TerminalSpan::spec_completed()
        } else if error.cancelled {
            TerminalSpan::spec_cancelled("scene-drain-cancelled")
        } else {
            TerminalSpan::spec_failed("scene-drain-failed")
        },
    }
}

pub fn returned_terminal(error: Option<ErrorClass>) -> (terminal: TerminalSpan)
    ensures
        terminal == spec_returned_terminal(error),
{
    match error {
        None => TerminalSpan::completed(),
        Some(error) => if error.stop_iteration {
            TerminalSpan::completed()
        } else if error.cancelled {
            TerminalSpan::cancelled("scene-drain-cancelled")
        } else {
            TerminalSpan::failed("scene-drain-failed")
        },
    }
}

/// What an exit of the driver tells. A driver that was closed cancels the drain, and an error then
/// belongs to the cleanup. A driver that was cleared tells nothing.
pub open spec fn spec_driver_observation(
    exit: SceneDriverExit,
    error: Option<ErrorClass>,
) -> DriverObservation {
    match exit {
        SceneDriverExit::Returned => DriverObservation::Observed {
            drain: spec_returned_terminal(error),
            cleanup: TerminalSpan::spec_completed(),
        },
        SceneDriverExit::Closed => DriverObservation::Observed {
            drain: TerminalSpan::spec_cancelled("scene-drain-cancelled"),
            cleanup: if error is Some {
                TerminalSpan::spec_failed("scene-cleanup-failed")
            } else {
                TerminalSpan::spec_completed()
            },
        },
        SceneDriverExit::Cleared => DriverObservation::Lost,
    }
}

pub fn driver_observation(exit: SceneDriverExit, error: Option<ErrorClass>) -> (observation:
    DriverObservation)
    ensures
        observation == spec_driver_observation(exit, error),
{
    match exit {
        SceneDriverExit::Returned => DriverObservation::Observed {
            drain: returned_terminal(error),
            cleanup: TerminalSpan::completed(),
        },
        SceneDriverExit::Closed => DriverObservation::Observed {
            drain: TerminalSpan::cancelled("scene-drain-cancelled"),
            cleanup: if error.is_some() {
                TerminalSpan::failed("scene-cleanup-failed")
            } else {
                TerminalSpan::completed()
            },
        },
        SceneDriverExit::Cleared => DriverObservation::Lost,
    }
}

impl SceneDrainProducer {
    /// A scene that does not drain yet.
    pub open spec fn fresh(owner: usize, lineage: SceneLineageSnapshot) -> Self {
        SceneDrainProducer {
            owner,
            lineage,
            state: SceneDrainState {
                driver: DriverObservation::Pending,
                admission_closed: false,
                cancellation_started: false,
                cleanup_started: false,
                drain_span_id: None,
                gap_sequence: None,
                cleanup_span_id: None,
                finished: false,
                producer_failed: false,
            },
        }
    }

    pub fn new(owner: usize, lineage: SceneLineageSnapshot) -> (producer: Self)
        ensures
            producer == SceneDrainProducer::fresh(owner, lineage),
            producer.wf(),
    {
        SceneDrainProducer {
            owner,
            lineage,
            state: SceneDrainState {
                driver: DriverObservation::Pending,
                admission_closed: false,
                cancellation_started: false,
                cleanup_started: false,
                drain_span_id: None,
                gap_sequence: None,
                cleanup_span_id: None,
                finished: false,
                producer_failed: false,
            },
        }
    }

    /// What holds until something has failed: once admission is closed there is a drain span where
    /// the driver was observed and a gap where it was lost, and the steps come in their order.
    pub open spec fn wf(self) -> bool {
        let state = self.state;
        !state.producer_failed ==> {
            &&& state.drain_span_id is Some == (state.admission_closed && state.driver is Observed)
            &&& state.gap_sequence is Some == (state.admission_closed && state.driver is Lost)
            &&& state.admission_closed ==> state.driver !is Pending
            &&& state.cleanup_started == state.cleanup_span_id is Some
            &&& state.cleanup_started ==> state.admission_closed
            &&& state.cancellation_started ==> state.cleanup_started
            &&& state.finished ==> state.cleanup_started
        }
    }

    pub open spec fn failed(self) -> Self {
        SceneDrainProducer {
            state: SceneDrainState { producer_failed: true, ..self.state },
            ..self
        }
    }

    /// A hook is out of place.
    pub open spec fn fails<A: SpanEventAdmission>(
        self,
        after: Self,
        context: DiagnosticRunContext<A>,
        context_after: DiagnosticRunContext<A>,
        failure: Option<RuntimeProducerError>,
        code: &'static str,
    ) -> bool {
        &&& after == self.failed()
        &&& context_after == context
        &&& failure == Some(RuntimeProducerError::State { code })
    }

    /// The failure that a refusal since `context` is reported as.
    pub open spec fn refusal<A: SpanEventAdmission>(
        context: DiagnosticRunContext<A>,
        context_after: DiagnosticRunContext<A>,
    ) -> Option<RuntimeProducerError> {
        match context_after.refusal_since(context) {
            Some(error) => Some(RuntimeProducerError::Diagnostic(error)),
            None => None,
        }
    }

    pub open spec fn on_driver_exited(
        self,
        after: Self,
        failure: Option<RuntimeProducerError>,
        observation: DriverObservation,
    ) -> bool {
        if self.state.producer_failed {
            after == self && failure is None
        } else if self.state.driver !is Pending || self.state.admission_closed
            || self.state.finished {
            &&& after == self.failed()
            &&& failure == Some(
                RuntimeProducerError::State { code: "scene.driver-terminal-transition-invalid" },
            )
        } else {
            &&& failure is None
            &&& after == (SceneDrainProducer {
                state: SceneDrainState { driver: observation, ..self.state },
                ..self
            })
        }
    }

    /// The driver has left the scene. Gives the failure to latch.
    pub fn driver_exited(&mut self, exit: SceneDriverExit, error: Option<ErrorClass>) -> (failure:
        Option<RuntimeProducerError>)
        requires
            old(self).wf(),
        ensures
            final(self).wf(),
            old(self).on_driver_exited(
                *final(self),
                failure,
                spec_driver_observation(exit, error),
            ),
    {
        if self.state.producer_failed {
            return None;
        }
        if !matches!(self.state.driver, DriverObservation::Pending) || self.state.admission_closed
            || self.state.finished {
            return self.fail_state("scene.driver-terminal-transition-invalid");
        }
        self.state.driver = driver_observation(exit, error);
        None
    }

    /// The start of the drain's span, or the gap that stands for it.
    pub open spec fn close_event(self) -> EventCandidate {
        let cause = CausalLink::after(self.lineage.scene_span_id);
        if self.state.driver is Observed {
            EventCandidate::started(
                self.lineage.scope,
                SpanStartDetail::SceneDrain,
                Some(self.lineage.scene_span_id),
                cause,
            )
        } else {
            EventCandidate {
                unheard: false,
                scope: self.lineage.scope,
                cause,
                body: EventBody::ObservationGap(
                    ObservationGap {
                        producer: "runtime",
                        component: Some("scene-drain"),
                        reason: "scene-driver-terminal-unobserved",
                        lost_count: Some(1),
                        lost_bytes: None,
                        affected_kind: Some(DiagnosticEventKind::SpanFinished),
                        affected_scope: Some(self.lineage.scope),
                    },
                ),
            }
        }
    }

    pub open spec fn on_admission_closed<A: SpanEventAdmission>(
        self,
        after: Self,
        context: DiagnosticRunContext<A>,
        context_after: DiagnosticRunContext<A>,
        failure: Option<RuntimeProducerError>,
    ) -> bool {
        if self.state.producer_failed {
            after == self && context_after == context && failure is None
        } else if self.state.admission_closed || self.state.finished {
            self.fails(
                after,
                context,
                context_after,
                failure,
                "scene.drain-admission-transition-invalid",
            )
        } else {
            let sequence = Attempt::nth(context_after.accepted_since(context), 0);
            &&& context_after.reports(context, self.close_event().alone())
            &&& failure == SceneDrainProducer::refusal(context, context_after)
            &&& after == (SceneDrainProducer {
                state: SceneDrainState {
                    driver: if self.state.driver is Pending {
                        DriverObservation::Lost
                    } else {
                        self.state.driver
                    },
                    admission_closed: true,
                    drain_span_id: if self.state.driver is Observed {
                        sequence
                    } else {
                        self.state.drain_span_id
                    },
                    gap_sequence: if self.state.driver is Observed {
                        self.state.gap_sequence
                    } else {
                        sequence
                    },
                    producer_failed: context_after.stopped_since(context),
                    ..self.state
                },
                ..self
            })
        }
    }

    /// The scene takes no more work. A driver that was not heard of by then is lost.
    pub fn admission_closed<A: SpanEventAdmission>(
        &mut self,
        context: &mut DiagnosticRunContext<A>,
    ) -> (failure: Option<RuntimeProducerError>)
        requires
            old(self).wf(),
        ensures
            final(self).wf(),
            old(self).on_admission_closed(*final(self), *old(context), *final(context), failure),
    {
        if self.state.producer_failed {
            return None;
        }
        if self.state.admission_closed || self.state.finished {
            return self.fail_state("scene.drain-admission-transition-invalid");
        }
        self.state.admission_closed = true;
        if matches!(self.state.driver, DriverObservation::Pending) {
            self.state.driver = DriverObservation::Lost;
        }
        let scope = self.lineage.scope.clone();
        let cause = caused_by(self.lineage.scene_span_id, CausalRelation::FollowsFrom);
        match self.state.driver {
            DriverObservation::Observed { .. } => {
                match context.start_span_with_causes(
                    scope,
                    SpanStartDetail::SceneDrain,
                    Some(self.lineage.scene_span_id),
                    cause,
                ) {
                    Ok(span_id) => {
                        self.state.drain_span_id = Some(span_id);
                        None
                    },
                    Err(error) => self.fail_diagnostic(error),
                }
            },
            _ => {
                let affected_scope = Some(self.lineage.scope.clone());
                match context.emit_observation_gap(
                    scope,
                    ObservationGap {
                        producer: "runtime",
                        component: Some("scene-drain"),
                        reason: "scene-driver-terminal-unobserved",
                        lost_count: Some(1),
                        lost_bytes: None,
                        affected_kind: Some(DiagnosticEventKind::SpanFinished),
                        affected_scope,
                    },
                    cause,
                ) {
                    Ok(sequence) => {
                        self.state.gap_sequence = Some(sequence);
                        None
                    },
                    Err(error) => self.fail_diagnostic(error),
                }
            },
        }
    }

    /// The start of the cleanup's span, which the drain hands over to.
    pub open spec fn cleanup_event(self) -> EventCandidate {
        let source = match (self.state.drain_span_id, self.state.gap_sequence) {
            (Some(span_id), _) => span_id,
            (None, Some(sequence)) => sequence,
            (None, None) => self.lineage.scene_span_id,
        };
        EventCandidate::started(
            self.lineage.scope,
            SpanStartDetail::SceneCleanup,
            Some(self.lineage.scene_span_id),
            CausalLink::to(source, CausalRelation::Handoff),
        )
    }

    pub open spec fn on_cleanup_started<A: SpanEventAdmission>(
        self,
        after: Self,
        context: DiagnosticRunContext<A>,
        context_after: DiagnosticRunContext<A>,
        failure: Option<RuntimeProducerError>,
    ) -> bool {
        if self.state.producer_failed {
            after == self && context_after == context && failure is None
        } else if !self.state.admission_closed || self.state.cleanup_started
            || self.state.finished {
            self.fails(
                after,
                context,
                context_after,
                failure,
                "scene.cleanup-start-transition-invalid",
            )
        } else {
            &&& context_after.reports(context, self.cleanup_event().alone())
            &&& failure == SceneDrainProducer::refusal(context, context_after)
            &&& after == (SceneDrainProducer {
                state: SceneDrainState {
                    cleanup_started: true,
                    cleanup_span_id: Attempt::nth(context_after.accepted_since(context), 0),
                    producer_failed: context_after.stopped_since(context),
                    ..self.state
                },
                ..self
            })
        }
    }

    /// The cleanup takes over from the drain.
    pub fn cleanup_started<A: SpanEventAdmission>(
        &mut self,
        context: &mut DiagnosticRunContext<A>,
    ) -> (failure: Option<RuntimeProducerError>)
        requires
            old(self).wf(),
        ensures
            final(self).wf(),
            old(self).on_cleanup_started(*final(self), *old(context), *final(context), failure),
    {
        if self.state.producer_failed {
            return None;
        }
        if !self.state.admission_closed || self.state.cleanup_started || self.state.finished {
            return self.fail_state("scene.cleanup-start-transition-invalid");
        }
        self.state.cleanup_started = true;
        let source = match (self.state.drain_span_id, self.state.gap_sequence) {
            (Some(span_id), _) => span_id,
            (None, Some(sequence)) => sequence,
            (None, None) => self.lineage.scene_span_id,
        };
        match context.start_span_with_causes(
            self.lineage.scope.clone(),
            SpanStartDetail::SceneCleanup,
            Some(self.lineage.scene_span_id),
            caused_by(source, CausalRelation::Handoff),
        ) {
            Ok(span_id) => {
                self.state.cleanup_span_id = Some(span_id);
                None
            },
            Err(error) => self.fail_diagnostic(error),
        }
    }

    pub open spec fn on_cancellation_started(
        self,
        after: Self,
        failure: Option<RuntimeProducerError>,
    ) -> bool {
        if self.state.producer_failed {
            after == self && failure is None
        } else if !self.state.cleanup_started || self.state.cancellation_started
            || self.state.finished {
            &&& after == self.failed()
            &&& failure == Some(
                RuntimeProducerError::State { code: "scene.cancellation-transition-invalid" },
            )
        } else {
            &&& failure is None
            &&& after == (SceneDrainProducer {
                state: SceneDrainState { cancellation_started: true, ..self.state },
                ..self
            })
        }
    }

    /// The cleanup cancels what is left of the drain.
    pub fn cancellation_started(&mut self) -> (failure: Option<RuntimeProducerError>)
        requires
            old(self).wf(),
        ensures
            final(self).wf(),
            old(self).on_cancellation_started(*final(self), failure),
    {
        if self.state.producer_failed {
            return None;
        }
        if !self.state.admission_closed || !self.state.cleanup_started
            || self.state.cancellation_started || self.state.finished {
            return self.fail_state("scene.cancellation-transition-invalid");
        }
        self.state.cancellation_started = true;
        None
    }

    /// The end of the drain's span where there is one, then the end of the cleanup's span.
    pub open spec fn finish_plan(self) -> spec_fn(Seq<u64>) -> Option<EventCandidate> {
        let scope = self.lineage.scope;
        let cleanup_span_id = self.state.cleanup_span_id->0;
        |accepted: Seq<u64>|
            match self.state.driver {
                DriverObservation::Observed { drain, cleanup } => {
                    let drain_span_id = self.state.drain_span_id->0;
                    if accepted.len() == 0 {
                        Some(
                            EventCandidate::finished(
                                scope,
                                drain_span_id,
                                drain.outcome,
                                drain.code(),
                                CausalLink::to(
                                    drain_span_id,
                                    if self.state.cancellation_started {
                                        CausalRelation::Handoff
                                    } else {
                                        CausalRelation::FollowsFrom
                                    },
                                ),
                            ),
                        )
                    } else if accepted.len() == 1 {
                        Some(
                            EventCandidate::finished(
                                scope,
                                cleanup_span_id,
                                cleanup.outcome,
                                cleanup.code(),
                                CausalLink::to(accepted[0], CausalRelation::Handoff),
                            ),
                        )
                    } else {
                        None
                    }
                },
                _ => if accepted.len() == 0 {
                    Some(
                        EventCandidate::finished(
                            scope,
                            cleanup_span_id,
                            TerminalSpan::spec_completed().outcome,
                            TerminalSpan::spec_completed().code(),
                            CausalLink::after(cleanup_span_id),
                        ),
                    )
                } else {
                    None
                },
            }
    }

    pub open spec fn on_cleanup_finished<A: SpanEventAdmission>(
        self,
        after: Self,
        context: DiagnosticRunContext<A>,
        context_after: DiagnosticRunContext<A>,
        failure: Option<RuntimeProducerError>,
    ) -> bool {
        let done = SceneDrainProducer {
            state: SceneDrainState { finished: true, ..self.state },
            ..self
        };
        if self.state.producer_failed {
            after == done && context_after == context && failure is None
        } else if !self.state.cleanup_started || self.state.finished {
            done.fails(
                after,
                context,
                context_after,
                failure,
                "scene.cleanup-terminal-transition-invalid",
            )
        } else {
            &&& context_after.reports(context, self.finish_plan())
            &&& failure == SceneDrainProducer::refusal(context, context_after)
            &&& after == (SceneDrainProducer {
                state: SceneDrainState {
                    producer_failed: context_after.stopped_since(context),
                    ..done.state
                },
                ..done
            })
        }
    }

    /// The cleanup has ended, and with it the drain. Nothing follows.
    pub fn cleanup_finished<A: SpanEventAdmission>(
        &mut self,
        context: &mut DiagnosticRunContext<A>,
    ) -> (failure: Option<RuntimeProducerError>)
        requires
            old(self).wf(),
        ensures
            final(self).wf(),
            old(self).on_cleanup_finished(*final(self), *old(context), *final(context), failure),
    {
        if self.state.producer_failed {
            self.state.finished = true;
            return None;
        }
        if !self.state.admission_closed || !self.state.cleanup_started || self.state.finished {
            let failure = self.fail_state("scene.cleanup-terminal-transition-invalid");
            self.state.finished = true;
            return failure;
        }
        self.state.finished = true;
        let cleanup_terminal = match self.state.driver {
            DriverObservation::Observed { cleanup, .. } => cleanup,
            _ => TerminalSpan::completed(),
        };
        let drain_finish_sequence = match (self.state.drain_span_id, self.state.driver) {
            (Some(span_id), DriverObservation::Observed { drain, .. }) => {
                let relation = if self.state.cancellation_started {
                    CausalRelation::Handoff
                } else {
                    CausalRelation::FollowsFrom
                };
                match context.finish_span_with_causes(
                    self.lineage.scope.clone(),
                    span_id,
                    drain.outcome,
                    drain.event_code(),
                    caused_by(span_id, relation),
                ) {
                    Ok(sequence) => Some(sequence),
                    Err(error) => return self.fail_diagnostic(error),
                }
            },
            (None, DriverObservation::Lost) => None,
            _ => return self.fail_state("scene.drain-terminal-state-invalid"),
        };
        let cleanup_span_id = match self.state.cleanup_span_id {
            Some(span_id) => span_id,
            None => return self.fail_state("scene.cleanup-terminal-without-start"),
        };
        let cause = match drain_finish_sequence {
            Some(sequence) => caused_by(sequence, CausalRelation::Handoff),
            None => caused_by(cleanup_span_id, CausalRelation::FollowsFrom),
        };
        match context.finish_span_with_causes(
            self.lineage.scope.clone(),
            cleanup_span_id,
            cleanup_terminal.outcome,
            cleanup_terminal.event_code(),
            cause,
        ) {
            Ok(_) => None,
            Err(error) => self.fail_diagnostic(error),
        }
    }

    pub open spec fn on_hook<A: SpanEventAdmission>(
        self,
        after: Self,
        context: DiagnosticRunContext<A>,
        context_after: DiagnosticRunContext<A>,
        failure: Option<RuntimeProducerError>,
        hook: SceneDrainHook,
    ) -> bool {
        match hook {
            SceneDrainHook::AdmissionClosed => {
                self.on_admission_closed(after, context, context_after, failure)
            },
            SceneDrainHook::CleanupStarted => {
                self.on_cleanup_started(after, context, context_after, failure)
            },
            SceneDrainHook::CancellationStarted => {
                context_after == context && self.on_cancellation_started(after, failure)
            },
            SceneDrainHook::CleanupFinished => {
                self.on_cleanup_finished(after, context, context_after, failure)
            },
        }
    }

    /// Takes a hook of a scene that drains. Gives the failure to latch.
    pub fn observe<A: SpanEventAdmission>(
        &mut self,
        context: &mut DiagnosticRunContext<A>,
        hook: SceneDrainHook,
    ) -> (failure: Option<RuntimeProducerError>)
        requires
            old(self).wf(),
        ensures
            final(self).wf(),
            final(self).owner == old(self).owner,
            final(self).lineage == old(self).lineage,
            old(self).on_hook(*final(self), *old(context), *final(context), failure, hook),
    {
        match hook {
            SceneDrainHook::AdmissionClosed => self.admission_closed(context),
            SceneDrainHook::CancellationStarted => self.cancellation_started(),
            SceneDrainHook::CleanupStarted => self.cleanup_started(context),
            SceneDrainHook::CleanupFinished => self.cleanup_finished(context),
        }
    }

    fn fail_diagnostic(&mut self, error: DiagnosticProducerError) -> (failure: Option<
        RuntimeProducerError,
    >)
        ensures
            *final(self) == old(self).failed(),
            failure == Some(RuntimeProducerError::Diagnostic(error)),
    {
        self.state.producer_failed = true;
        Some(RuntimeProducerError::Diagnostic(error))
    }

    fn fail_state(&mut self, code: &'static str) -> (failure: Option<RuntimeProducerError>)
        ensures
            *final(self) == old(self).failed(),
            failure == Some(RuntimeProducerError::State { code }),
    {
        self.state.producer_failed = true;
        Some(RuntimeProducerError::state(code))
    }
}

/// The scenes that drain, by their keys.
pub struct SceneDrainRegistry {
    pub producers: HashMap<usize, SceneDrainProducer>,
}

impl View for SceneDrainRegistry {
    type V = Map<usize, SceneDrainProducer>;

    open spec fn view(&self) -> Map<usize, SceneDrainProducer> {
        self.producers@
    }
}

impl SceneDrainRegistry {
    pub open spec fn wf(self) -> bool {
        forall|key: usize| #[trigger] self@.contains_key(key) ==> self@[key].wf()
    }

    /// Every drain reports through a run that is open.
    pub open spec fn fits<A: SpanEventAdmission>(self, runs: DiagnosticRuns<A>) -> bool {
        forall|key: usize| #[trigger]
            self@.contains_key(key) ==> self@[key].owner < runs@.len()
                && self@[key].lineage.run < runs@.len()
    }

    pub fn new() -> (registry: Self)
        ensures
            registry@ == Map::<usize, SceneDrainProducer>::empty(),
            registry.wf(),
    {
        SceneDrainRegistry { producers: HashMap::new() }
    }

    /// The drain of a scene. The first hook of a scene that is under way begins it, in a run that
    /// has not failed.
    pub open spec fn current<A: SpanEventAdmission>(
        self,
        runtimes: RuntimeProducerRegistry,
        scenes: SceneRegistry,
        runs: DiagnosticRuns<A>,
        scene: SceneScope,
    ) -> Option<SceneDrainProducer> {
        if self@.contains_key(scene.key) {
            Some(self@[scene.key])
        } else {
            match runtimes.spec_bound(scene.binding_key) {
                Some(place) => {
                    let owner = runtimes.producers@[place as int].run;
                    match scenes.spec_snapshot_for(scene.key) {
                        Some(lineage) if runs@[owner as int].failure is None => Some(
                            SceneDrainProducer::fresh(owner, lineage),
                        ),
                        _ => None,
                    }
                },
                None => None,
            }
        }
    }

    fn take_or_new<A: SpanEventAdmission>(
        &mut self,
        runtimes: &RuntimeProducerRegistry,
        scenes: &SceneRegistry,
        runs: &DiagnosticRuns<A>,
        scene: &SceneScope,
    ) -> (producer: Option<SceneDrainProducer>)
        requires
            old(self).wf(),
            old(self).fits(*runs),
            runtimes.wf(),
            runtimes.fits(*runs),
            scenes.fits(*runs),
        ensures
            final(self)@ =~= old(self)@.remove(scene.key),
            producer == old(self).current(*runtimes, *scenes, *runs, *scene),
            producer matches Some(producer) ==> {
                &&& producer.wf()
                &&& producer.owner < runs@.len()
                &&& producer.lineage.run < runs@.len()
            },
    {
        if let Some(producer) = self.producers.remove(&scene.key) {
            return Some(producer);
        }
        assert(self@ =~= old(self)@.remove(scene.key));
        let place = match runtimes.producer_bound(scene.binding_key) {
            Some(place) => place,
            None => return None,
        };
        let owner: usize = runtimes.producers[place].run;
        if runs.runs[owner].failure.is_some() {
            return None;
        }
        match scenes.snapshot_for_scene(scene) {
            Some(lineage) => Some(SceneDrainProducer::new(owner, lineage)),
            None => None,
        }
    }

    pub open spec fn on_hook<A: SpanEventAdmission>(
        self,
        after: Self,
        runtimes: RuntimeProducerRegistry,
        scenes: SceneRegistry,
        runs: DiagnosticRuns<A>,
        runs_after: DiagnosticRuns<A>,
        scene: SceneScope,
        hook: SceneDrainHook,
    ) -> bool {
        match self.current(runtimes, scenes, runs, scene) {
            None => after@ == self@ && runs_after == runs,
            Some(producer) => {
                let reporting = producer.lineage.run as int;
                exists|producer_after: SceneDrainProducer, failure: Option<RuntimeProducerError>|
                    {
                        &&& #[trigger] producer.on_hook(
                            producer_after,
                            runs@[reporting].context,
                            runs_after@[reporting].context,
                            failure,
                            hook,
                        )
                        &&& runs_after.stepped(
                            runs,
                            producer.lineage.run,
                            Some(producer.owner),
                            failure,
                        )
                        &&& after@ == if hook is CleanupFinished {
                            self@.remove(scene.key)
                        } else {
                            self@.insert(scene.key, producer_after)
                        }
                    }
            },
        }
    }

    /// Takes a hook of a scene that drains. The end of the cleanup ends the drain.
    pub fn observe<A: SpanEventAdmission>(
        &mut self,
        runtimes: &RuntimeProducerRegistry,
        scenes: &SceneRegistry,
        runs: &mut DiagnosticRuns<A>,
        scene: &SceneScope,
        hook: SceneDrainHook,
    )
        requires
            old(self).wf(),
            old(self).fits(*old(runs)),
            runtimes.wf(),
            runtimes.fits(*old(runs)),
            scenes.fits(*old(runs)),
        ensures
            final(self).wf(),
            final(self).fits(*final(runs)),
            final(runs)@.len() == old(runs)@.len(),
            old(self).on_hook(
                *final(self),
                *runtimes,
                *scenes,
                *old(runs),
                *final(runs),
                *scene,
                hook,
            ),
    {
        let mut producer = match self.take_or_new(runtimes, scenes, runs, scene) {
            Some(producer) => producer,
            None => {
                assert(self@ =~= old(self)@);
                return;
            },
        };
        let ghost before = producer;
        let reporting: usize = producer.lineage.run;
        let owner: usize = producer.owner;
        let failure = producer.observe(&mut runs.runs[reporting].context, hook);
        let ghost latched = failure;
        runs.latch_at(Some(owner), failure);
        assert(before.on_hook(
            producer,
            old(runs)@[reporting as int].context,
            runs@[reporting as int].context,
            latched,
            hook,
        ));
        assert(runs.stepped(*old(runs), reporting, Some(owner), latched));
        let ghost producer_after = producer;
        if !matches!(hook, SceneDrainHook::CleanupFinished) {
            self.producers.insert(scene.key, producer);
            assert(self@ =~= old(self)@.insert(scene.key, producer_after));
        }
    }

    pub open spec fn on_driver_exited<A: SpanEventAdmission>(
        self,
        after: Self,
        runtimes: RuntimeProducerRegistry,
        scenes: SceneRegistry,
        runs: DiagnosticRuns<A>,
        runs_after: DiagnosticRuns<A>,
        scene: SceneScope,
        observation: DriverObservation,
    ) -> bool {
        match self.current(runtimes, scenes, runs, scene) {
            None => after@ == self@ && runs_after == runs,
            Some(producer) => exists|
                producer_after: SceneDrainProducer,
                failure: Option<RuntimeProducerError>,
            |
                {
                    &&& #[trigger] producer.on_driver_exited(producer_after, failure, observation)
                    &&& runs_after@ == DiagnosticRuns::latched_at(
                        runs@,
                        Some(producer.owner),
                        failure,
                    )
                    &&& after@ == self@.insert(scene.key, producer_after)
                },
        }
    }

    /// The driver of a scene has left it, with what is known of the error.
    pub fn driver_left<A: SpanEventAdmission>(
        &mut self,
        runtimes: &RuntimeProducerRegistry,
        scenes: &SceneRegistry,
        runs: &mut DiagnosticRuns<A>,
        scene: &SceneScope,
        exit: SceneDriverExit,
        error: Option<ErrorClass>,
    )
        requires
            old(self).wf(),
            old(self).fits(*old(runs)),
            runtimes.wf(),
            runtimes.fits(*old(runs)),
            scenes.fits(*old(runs)),
        ensures
            final(self).wf(),
            final(self).fits(*final(runs)),
            final(runs)@.len() == old(runs)@.len(),
            old(self).on_driver_exited(
                *final(self),
                *runtimes,
                *scenes,
                *old(runs),
                *final(runs),
                *scene,
                spec_driver_observation(exit, error),
            ),
    {
        let mut producer = match self.take_or_new(runtimes, scenes, runs, scene) {
            Some(producer) => producer,
            None => {
                assert(self@ =~= old(self)@);
                return;
            },
        };
        let ghost before = producer;
        let owner: usize = producer.owner;
        let failure = producer.driver_exited(exit, error);
        assert(before.on_driver_exited(producer, failure, spec_driver_observation(exit, error)));
        runs.latch_at(Some(owner), failure);
        let ghost producer_after = producer;
        self.producers.insert(scene.key, producer);
        assert(self@ =~= old(self)@.insert(scene.key, producer_after));
    }

    /// The driver of a scene has left it, with the error that it raised.
    pub fn driver_exited<A: SpanEventAdmission>(
        &mut self,
        runtimes: &RuntimeProducerRegistry,
        scenes: &SceneRegistry,
        runs: &mut DiagnosticRuns<A>,
        scene: &SceneScope,
        exit: SceneDriverExit,
        error: Option<&pyo3::PyErr>,
    )
        requires
            old(self).wf(),
            old(self).fits(*old(runs)),
            runtimes.wf(),
            runtimes.fits(*old(runs)),
            scenes.fits(*old(runs)),
        ensures
            final(self).wf(),
            final(self).fits(*final(runs)),
            final(runs)@.len() == old(runs)@.len(),
            exists|class: Option<ErrorClass>|
                ErrorClass::is_of_result(class, error) && old(self).on_driver_exited(
                    *final(self),
                    *runtimes,
                    *scenes,
                    *old(runs),
                    *final(runs),
                    *scene,
                    #[trigger] spec_driver_observation(exit, class),
                ),
    {
        self.driver_left(runtimes, scenes, runs, scene, exit, ErrorClass::of_result(error));
    }
}

/// A drain that has failed or ended reports nothing more.
pub proof fn ended_drain_rests<A: SpanEventAdmission>(
    drain: SceneDrainProducer,
    after: SceneDrainProducer,
    context: DiagnosticRunContext<A>,
    context_after: DiagnosticRunContext<A>,
    failure: Option<RuntimeProducerError>,
    hook: SceneDrainHook,
)
    requires
        drain.state.producer_failed || drain.state.finished,
        drain.on_hook(after, context, context_after, failure, hook),
    ensures
        context_after == context,
        drain.state.finished ==> after.state.finished,
        drain.state.producer_failed ==> after.state.producer_failed && failure is None,
{
}

impl SceneDrainProducer {
    /// What the facts of the drain refer to is in the trace.
    pub open spec fn is_rooted(self, trace: Seq<Attempt>) -> bool {
        &&& self.lineage.is_rooted(trace)
        &&& self.state.drain_span_id matches Some(span_id) ==> crate::references::begun_in(
            trace,
            span_id,
        )
        &&& self.state.gap_sequence matches Some(sequence) ==> crate::references::accepted_in(
            trace,
            sequence,
        )
        &&& self.state.cleanup_span_id matches Some(span_id) ==> crate::references::begun_in(
            trace,
            span_id,
        )
    }
}

/// Whatever a drain reports refers only to what was reported before.
pub proof fn facts_of_a_drain_refer_back<A: SpanEventAdmission>(
    drain: SceneDrainProducer,
    after: SceneDrainProducer,
    context: DiagnosticRunContext<A>,
    context_after: DiagnosticRunContext<A>,
    failure: Option<RuntimeProducerError>,
)
    requires
        drain.wf(),
        crate::references::refer_back(context.trace()),
        drain.is_rooted(context.trace()),
        drain.on_admission_closed(after, context, context_after, failure)
            || drain.on_cleanup_started(after, context, context_after, failure)
            || drain.on_cleanup_finished(after, context, context_after, failure),
    ensures
        crate::references::refer_back(context_after.trace()),
        crate::references::goes_on(context.trace(), context_after.trace()),
        after.is_rooted(context_after.trace()),
{
    crate::references::what_began_stays_begun(context.trace(), context.trace());
    if context_after != context {
        if drain.on_admission_closed(after, context, context_after, failure) {
            crate::references::one_fact_refers_back(context_after, context, drain.close_event());
        } else if drain.on_cleanup_started(after, context, context_after, failure) {
            crate::references::one_fact_refers_back(context_after, context, drain.cleanup_event());
        } else {
            let plan = drain.finish_plan();
            assert forall|accepted: Seq<u64>|
                #[trigger] crate::references::sound_after(plan, context.trace(), accepted) by {}
            crate::references::sound_plans_refer_back(context_after, context, plan);
        }
    }
}

/// How the driver of a scene left says how the scene was drained and cleaned up. A driver that returned
/// has drained the scene exactly as it returned: completed where nothing or the end of an iteration was
/// raised, cancelled where a cancellation was raised, failed otherwise; and it has cleaned up. One that
/// was closed was cancelled, and its cleanup failed exactly where something was raised. One that was
/// cleared was not seen.
pub proof fn driver_is_seen_as_it_left(exit: SceneDriverExit, error: Option<ErrorClass>)
    ensures
        spec_driver_observation(exit, error) is Lost <==> exit is Cleared,
        spec_driver_observation(exit, error) is Observed <==> exit !is Cleared,
        spec_driver_observation(exit, error) matches DriverObservation::Observed {
            drain,
            cleanup,
        } ==> {
            &&& exit is Returned ==> {
                &&& drain.outcome is Completed <==> error is None || error->0.stop_iteration
                &&& drain.outcome is Cancelled <==> error is Some && !error->0.stop_iteration
                    && error->0.cancelled
                &&& drain.outcome is Failed <==> error is Some && !error->0.stop_iteration
                    && !error->0.cancelled
                &&& cleanup.outcome is Completed
            }
            &&& exit is Closed ==> {
                &&& drain.outcome is Cancelled
                &&& cleanup.outcome is Failed <==> error is Some
                &&& cleanup.outcome is Completed <==> error is None
            }
            &&& drain.outcome is Cancelled ==> drain.error_code->0@ == "scene-drain-cancelled"@
            &&& drain.outcome is Failed ==> drain.error_code->0@ == "scene-drain-failed"@
            &&& cleanup.outcome is Failed ==> cleanup.error_code->0@ == "scene-cleanup-failed"@
            &&& drain.error_code is None <==> drain.outcome is Completed
            &&& cleanup.error_code is None <==> cleanup.outcome is Completed
        },
{
}

/// The spans of a scene's drain and of its cleanup end as its driver was seen to leave, the drain
/// first; without a driver that was seen there is no drain to end, and the cleanup completed.
pub proof fn drain_ends_as_its_driver_left<A: SpanEventAdmission>(
    scene: SceneDrainProducer,
    after: SceneDrainProducer,
    context: DiagnosticRunContext<A>,
    context_after: DiagnosticRunContext<A>,
    failure: Option<RuntimeProducerError>,
)
    requires
        scene.wf(),
        scene.on_cleanup_finished(after, context, context_after, failure),
        !scene.state.producer_failed,
        scene.state.cleanup_started,
        !scene.state.finished,
    ensures
        ({
            let facts = context_after.steps_since(context);
            let last = if scene.state.driver is Observed { 1int } else { 0int };
            &&& 1 <= facts.len() <= last + 1
            &&& forall|i: int|
                0 <= i < facts.len() ==> (#[trigger] facts[i]).candidate.body is SpanFinished
                    && facts[i].candidate.scope == scene.lineage.scope
            &&& scene.state.driver matches DriverObservation::Observed { drain, cleanup } ==> {
                &&& Some(facts[0].candidate.body->SpanFinished_span_id) == scene.state.drain_span_id
                &&& facts[0].candidate.body->outcome == drain.outcome
                &&& facts[0].candidate.body->error_code is Some <==> drain.error_code is Some
                &&& drain.error_code is Some ==> facts[0].candidate.body->error_code->0@
                    == drain.error_code->0@
                &&& facts[0].candidate.cause->0.relation is Handoff
                    <==> scene.state.cancellation_started
                &&& facts.len() == 2 ==> {
                    &&& facts[1].candidate.body->outcome == cleanup.outcome
                    &&& facts[1].candidate.body->error_code is Some <==> cleanup.error_code is Some
                    &&& cleanup.error_code is Some ==> facts[1].candidate.body->error_code->0@
                        == cleanup.error_code->0@
                    &&& facts[1].candidate.cause == Some(
                        CausalLink {
                            sequence: facts[0].reply->Ok_0,
                            relation: CausalRelation::Handoff,
                        },
                    )
                }
            }
            &&& scene.state.driver !is Observed ==> facts[0].candidate.body->outcome is Completed
                && facts[0].candidate.body->error_code is None
            &&& facts.len() == last + 1 ==> Some(
                facts[last].candidate.body->SpanFinished_span_id,
            ) == scene.state.cleanup_span_id
            &&& after.state.finished
            &&& failure is Some <==> facts.last().reply is Err
            &&& after.state.producer_failed <==> facts.last().reply is Err
        }),
{
    let plan = scene.finish_plan();
    crate::references::planned_facts(context, context_after, plan);
    let facts = context_after.steps_since(context);
    let given = |i: int| crate::references::sequences(facts, i);
    assert(plan(given(0)) is Some);
    assert(plan(given(2)) is None);
    if scene.state.driver is Observed {
        assert(plan(given(1)) is Some);
        assert(facts.len() <= 2) by {
            if facts.len() > 2 {
                assert(plan(given(2)) == Some(facts[2].candidate));
            }
        }
    } else {
        assert(plan(given(1)) is None);
        assert(facts.len() <= 1) by {
            if facts.len() > 1 {
                assert(plan(given(1)) == Some(facts[1].candidate));
            }
        }
    }
}

/// A scene that takes no more begins to drain, in its span, where its driver was seen to leave.
/// Where it was not, that its end is missing is told instead, once. Its cleanup begins in its span,
/// handed over from what came before.
pub proof fn drain_begins_where_the_driver_was_seen<A: SpanEventAdmission>(
    scene: SceneDrainProducer,
    after: SceneDrainProducer,
    context: DiagnosticRunContext<A>,
    context_after: DiagnosticRunContext<A>,
    failure: Option<RuntimeProducerError>,
    cleans: bool,
)
    requires
        scene.wf(),
        !scene.state.producer_failed,
        if cleans {
            &&& scene.on_cleanup_started(after, context, context_after, failure)
            &&& scene.state.admission_closed && !scene.state.cleanup_started
                && !scene.state.finished
        } else {
            &&& scene.on_admission_closed(after, context, context_after, failure)
            &&& !scene.state.admission_closed && !scene.state.finished
        },
    ensures
        ({
            let facts = context_after.steps_since(context);
            let event = facts[0].candidate;
            &&& facts.len() == 1
            &&& event.scope == scene.lineage.scope
            &&& !cleans ==> {
                &&& event.cause == Some(
                    CausalLink {
                        sequence: scene.lineage.scene_span_id,
                        relation: CausalRelation::FollowsFrom,
                    },
                )
                &&& scene.state.driver is Observed ==> {
                    &&& event.body == (EventBody::SpanStarted {
                        detail: SpanStartDetail::SceneDrain,
                        parent_span_id: Some(scene.lineage.scene_span_id),
                    })
                    &&& facts[0].reply is Ok ==> after.state.drain_span_id == Some(
                        facts[0].reply->Ok_0,
                    )
                    &&& after.state.driver == scene.state.driver
                }
                &&& scene.state.driver !is Observed ==> {
                    &&& event.body matches EventBody::ObservationGap(gap) && {
                        &&& gap.lost_count == Some(1u64)
                        &&& gap.affected_kind == Some(DiagnosticEventKind::SpanFinished)
                        &&& gap.affected_scope == Some(scene.lineage.scope)
                    }
                    &&& after.state.driver is Lost
                    &&& after.state.drain_span_id is None
                }
                &&& after.state.admission_closed
            }
            &&& cleans ==> {
                &&& event.body == (EventBody::SpanStarted {
                    detail: SpanStartDetail::SceneCleanup,
                    parent_span_id: Some(scene.lineage.scene_span_id),
                })
                &&& event.cause matches Some(cause) && {
                    &&& cause.relation is Handoff
                    &&& scene.state.driver is Observed ==> Some(cause.sequence)
                        == scene.state.drain_span_id
                    &&& scene.state.driver is Lost ==> Some(cause.sequence)
                        == scene.state.gap_sequence
                }
                &&& facts[0].reply is Ok ==> after.state.cleanup_span_id == Some(
                    facts[0].reply->Ok_0,
                )
                &&& after.state.cleanup_started
            }
            &&& failure is Some <==> facts[0].reply is Err
            &&& after.state.producer_failed <==> facts[0].reply is Err
        }),
{
    crate::references::lone_fact(
        context,
        context_after,
        if cleans {
            scene.cleanup_event()
        } else {
            scene.close_event()
        },
    );
}

/// A scene drains in order: its driver leaves once and before the scene takes no more, the scene
/// takes no more once, its cleanup begins once and after that, a cancellation comes once, during
/// the cleanup, and the cleanup ends once, after it began. What is in order is taken, and what is
/// not fails the scene's producer and tells nothing.
pub proof fn scenes_drain_in_order<A: SpanEventAdmission>(
    scene: SceneDrainProducer,
    after: SceneDrainProducer,
    context: DiagnosticRunContext<A>,
    context_after: DiagnosticRunContext<A>,
    failure: Option<RuntimeProducerError>,
    hook: SceneDrainHook,
)
    requires
        scene.wf(),
        !scene.state.producer_failed,
        scene.on_hook(after, context, context_after, failure, hook),
    ensures
        ({
            let state = scene.state;
            let taken = match hook {
                SceneDrainHook::AdmissionClosed => !state.admission_closed && !state.finished,
                SceneDrainHook::CleanupStarted => state.admission_closed && !state.cleanup_started
                    && !state.finished,
                SceneDrainHook::CancellationStarted => state.cleanup_started
                    && !state.cancellation_started && !state.finished,
                SceneDrainHook::CleanupFinished => state.cleanup_started && !state.finished,
            };
            let facts = context_after.steps_since(context);
            &&& taken && hook !is CancellationStarted ==> facts.len() > 0
            &&& !taken ==> context_after == context && failure is Some
                && after.state.producer_failed
            &&& !taken ==> failure->0.spec_code() == (match hook {
                SceneDrainHook::AdmissionClosed => "scene.drain-admission-transition-invalid"@,
                SceneDrainHook::CleanupStarted => "scene.cleanup-start-transition-invalid"@,
                SceneDrainHook::CancellationStarted => "scene.cancellation-transition-invalid"@,
                SceneDrainHook::CleanupFinished => "scene.cleanup-terminal-transition-invalid"@,
            })
            &&& hook is CancellationStarted ==> context_after == context
            &&& hook is CancellationStarted && taken ==> failure is None
                && after.state.cancellation_started && !after.state.producer_failed
            &&& taken && hook is AdmissionClosed ==> after.state.admission_closed
            &&& taken && hook is CleanupStarted ==> after.state.cleanup_started
            &&& taken && hook is CleanupFinished ==> after.state.finished
            &&& taken && hook !is CancellationStarted ==> (failure is Some
                <==> facts.last().reply is Err)
        }),
{
    let state = scene.state;
    match hook {
        SceneDrainHook::AdmissionClosed => {
            if !state.admission_closed && !state.finished {
                crate::references::lone_fact(context, context_after, scene.close_event());
            }
        },
        SceneDrainHook::CleanupStarted => {
            if state.admission_closed && !state.cleanup_started && !state.finished {
                crate::references::lone_fact(context, context_after, scene.cleanup_event());
            }
        },
        SceneDrainHook::CancellationStarted => {},
        SceneDrainHook::CleanupFinished => {
            if state.cleanup_started && !state.finished {
                drain_ends_as_its_driver_left(scene, after, context, context_after, failure);
            }
        },
    }
}

/// The driver of a scene leaves once, before the scene takes no more, and is kept as it was seen.
pub proof fn drivers_leave_once(
    scene: SceneDrainProducer,
    after: SceneDrainProducer,
    failure: Option<RuntimeProducerError>,
    observation: DriverObservation,
)
    requires
        !scene.state.producer_failed,
        scene.on_driver_exited(after, failure, observation),
    ensures
        failure is None <==> scene.state.driver is Pending && !scene.state.admission_closed
            && !scene.state.finished,
        failure is None ==> after.state.driver == observation && !after.state.producer_failed,
        failure is Some ==> after.state.producer_failed && after.state.driver == scene.state.driver,
        after.lineage == scene.lineage && after.owner == scene.owner,
{
}

/// A scene that drains is the one that is known, and one that is not known yet drains in the run
/// that it is bound to while that has not failed, where the scene has not ended. Its hooks are
/// taken in the run of the scene, and it is forgotten once its cleanup is over.
pub proof fn drains_are_of_their_own_scene<A: SpanEventAdmission>(
    drains: SceneDrainRegistry,
    after: SceneDrainRegistry,
    runtimes: RuntimeProducerRegistry,
    scenes: SceneRegistry,
    runs: DiagnosticRuns<A>,
    runs_after: DiagnosticRuns<A>,
    scene: SceneScope,
    hook: SceneDrainHook,
)
    requires
        drains.on_hook(after, runtimes, scenes, runs, runs_after, scene, hook),
    ensures
        ({
            let known = drains@.contains_key(scene.key);
            let bound = runtimes.spec_run_bound(scene.binding_key);
            let begins = !known && bound is Some && runs@[bound->0 as int].failure is None
                && scenes.spec_snapshot_for(scene.key) is Some;
            &&& !known && !begins ==> after@ == drains@ && runs_after == runs
            &&& known || begins ==> (after@.contains_key(scene.key) <==> hook !is CleanupFinished)
            &&& begins && hook !is CleanupFinished ==> after@[scene.key].lineage
                == scenes.spec_snapshot_for(scene.key)->0 && after@[scene.key].owner == bound->0
            &&& known && hook !is CleanupFinished ==> after@[scene.key].lineage
                == drains@[scene.key].lineage && after@[scene.key].owner == drains@[scene.key].owner
            &&& forall|other: usize|
                other != scene.key ==> (#[trigger] after@.contains_key(other)
                    <==> drains@.contains_key(other)) && (drains@.contains_key(other)
                    ==> after@[other] == drains@[other])
        }),
{
}

} // verus!
