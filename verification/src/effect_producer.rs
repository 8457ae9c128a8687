//! The lifecycle of an effect, from its construction to the moment when it is consumed or lost.
use crate::context::{DiagnosticProducerError, SpanEventAdmission};
use crate::cue_producer::{CueCallerOutcome, CueLineageSnapshot, CueTerminalOutcome};
use crate::event::{
    caused_by, copy_id, stable_code, CausalLink, CausalRelation, DiagnosticScope, EffectDetail,
    EventCandidate, InstantDetail, RunLocalId, SpanOutcome, SpanStartDetail,
};
use crate::identifier::{numbered_id, IdCounter};
use crate::python_error::ErrorClass;
use crate::run::{DiagnosticRun, DiagnosticRuns, RuntimeProducerError};
use vstd::prelude::*;

verus! {

/// What the runtime announces of an effect.
#[derive(Clone, Copy, Debug, PartialEq, Eq, Structural)]
pub enum EffectHook {
    Created,
    Returned,
}

/// What is known of an effect.
#[derive(Clone, Copy, Debug, PartialEq, Eq, Structural)]
pub struct EffectLifecycleState {
    pub created_sequence: Option<u64>,
    pub construction_finished: bool,
    pub returned_sequence: Option<u64>,
    pub owner_terminal: Option<CueTerminalOutcome>,
    pub caller_outcome: Option<CueCallerOutcome>,
    pub cleared: bool,
    pub finish_attempted: bool,
    pub producer_failed: bool,
}

/// Reports the lifecycle of one effect.
#[derive(Debug, PartialEq, Eq)]
pub struct EffectLifecycleProducer {
    pub run: usize,
    pub scope: DiagnosticScope,
    pub detail: EffectDetail,
    pub lifecycle_span_id: u64,
    pub identity_key: usize,
    pub owner_key: usize,
    pub state: EffectLifecycleState,
}

/// How an effect ends, and what made it end.
#[derive(Clone, Copy, Debug, PartialEq, Eq)]
pub struct EffectTerminal {
    pub outcome: SpanOutcome,
    pub error_code: Option<&'static str>,
    pub causal_source: u64,
    pub relation: CausalRelation,
}

impl EffectTerminal {
    pub open spec fn spec_completed(causal_source: u64) -> Self {
        EffectTerminal {
            outcome: SpanOutcome::Completed,
            error_code: None,
            causal_source,
            relation: CausalRelation::FollowsFrom,
        }
    }

    pub open spec fn spec_cancelled(
        error_code: &'static str,
        causal_source: u64,
        relation: CausalRelation,
    ) -> Self {
        EffectTerminal {
            outcome: SpanOutcome::Cancelled,
            error_code: Some(error_code),
            causal_source,
            relation,
        }
    }

    pub open spec fn spec_failed(
        error_code: &'static str,
        causal_source: u64,
        relation: CausalRelation,
    ) -> Self {
        EffectTerminal {
            outcome: SpanOutcome::Failed,
            error_code: Some(error_code),
            causal_source,
            relation,
        }
    }

    pub fn completed(causal_source: u64) -> (terminal: Self)
        ensures
            terminal == EffectTerminal::spec_completed(causal_source),
    {
        EffectTerminal {
            outcome: SpanOutcome::Completed,
            error_code: None,
            causal_source,
            relation: CausalRelation::FollowsFrom,
        }
    }

    pub fn cancelled(
        error_code: &'static str,
        causal_source: u64,
        relation: CausalRelation,
    ) -> (terminal: Self)
        ensures
            terminal == EffectTerminal::spec_cancelled(error_code, causal_source, relation),
    {
        EffectTerminal {
            outcome: SpanOutcome::Cancelled,
            error_code: Some(error_code),
            causal_source,
            relation,
        }
    }

    pub fn failed(
        error_code: &'static str,
        causal_source: u64,
        relation: CausalRelation,
    ) -> (terminal: Self)
        ensures
            terminal == EffectTerminal::spec_failed(error_code, causal_source, relation),
    {
        EffectTerminal {
            outcome: SpanOutcome::Failed,
            error_code: Some(error_code),
            causal_source,
            relation,
        }
    }
}

impl EffectLifecycleState {
    pub open spec fn fresh() -> Self {
        EffectLifecycleState {
            created_sequence: None,
            construction_finished: false,
            returned_sequence: None,
            owner_terminal: None,
            caller_outcome: None,
            cleared: false,
            finish_attempted: false,
            producer_failed: false,
        }
    }

    pub fn new() -> (state: Self)
        ensures
            state == EffectLifecycleState::fresh(),
    {
        EffectLifecycleState {
            created_sequence: None,
            construction_finished: false,
            returned_sequence: None,
            owner_terminal: None,
            caller_outcome: None,
            cleared: false,
            finish_attempted: false,
            producer_failed: false,
        }
    }
}

/// The scope of an effect within its cue, or what is missing for it.
pub open spec fn spec_effect_scope(cue_scope: DiagnosticScope, effect_id: RunLocalId) -> Result<
    DiagnosticScope,
    &'static str,
> {
    if cue_scope.scene_id is None {
        Err("effect.scene-identifier-unavailable")
    } else if cue_scope.actor_id is None {
        Err("effect.actor-identifier-unavailable")
    } else if cue_scope.cue_id is None {
        Err("effect.cue-identifier-unavailable")
    } else {
        Ok(
            DiagnosticScope {
                scene_id: cue_scope.scene_id,
                actor_id: cue_scope.actor_id,
                cue_id: cue_scope.cue_id,
                effect_id: Some(effect_id),
                ..DiagnosticScope::of_run()
            },
        )
    }
}

pub fn effect_scope(cue_scope: &DiagnosticScope, effect_id: RunLocalId) -> (scope: Result<
    DiagnosticScope,
    &'static str,
>)
    ensures
        scope == spec_effect_scope(*cue_scope, effect_id),
{
    if cue_scope.scene_id.is_none() {
        return Err("effect.scene-identifier-unavailable");
    }
    if cue_scope.actor_id.is_none() {
        return Err("effect.actor-identifier-unavailable");
    }
    if cue_scope.cue_id.is_none() {
        return Err("effect.cue-identifier-unavailable");
    }
    Ok(
        DiagnosticScope {
            scene_id: copy_id(&cue_scope.scene_id),
            actor_id: copy_id(&cue_scope.actor_id),
            cue_id: copy_id(&cue_scope.cue_id),
            effect_id: Some(effect_id),
            act_id: None,
            tool_call_id: None,
            session_generation: None,
        },
    )
}

impl EffectLifecycleProducer {
    /// The effect with another state.
    pub open spec fn with(self, state: EffectLifecycleState) -> Self {
        EffectLifecycleProducer { state, ..self }
    }

    /// The effect after it has failed.
    pub open spec fn failed(self) -> Self {
        self.with(
            EffectLifecycleState { producer_failed: true, finish_attempted: true, ..self.state },
        )
    }

    /// A hook is out of place: the effect is over.
    pub open spec fn fails<A: SpanEventAdmission>(
        self,
        after: Self,
        run: DiagnosticRun<A>,
        run_after: DiagnosticRun<A>,
        code: &'static str,
    ) -> bool {
        &&& after == self.failed()
        &&& run_after == run.with_state_failure(code)
    }

    /// The end of the effect's span.
    pub open spec fn end_event(self, terminal: EffectTerminal) -> EventCandidate {
        EventCandidate::finished(
            self.scope,
            self.lifecycle_span_id,
            terminal.outcome,
            crate::event::spec_stable_code(terminal.error_code),
            CausalLink::to(terminal.causal_source, terminal.relation),
        )
    }

    /// The effect ends as `terminal` says.
    pub open spec fn ends<A: SpanEventAdmission>(
        self,
        after: Self,
        run: DiagnosticRun<A>,
        run_after: DiagnosticRun<A>,
        terminal: EffectTerminal,
    ) -> bool {
        &&& run_after.follows(run, self.end_event(terminal).alone())
        &&& after == self.with(
            EffectLifecycleState {
                finish_attempted: true,
                producer_failed: run_after.stopped_since(run),
                ..self.state
            },
        )
    }

    /// Something that happened to the effect.
    pub open spec fn moment(
        self,
        detail: InstantDetail,
        source: u64,
        relation: CausalRelation,
    ) -> EventCandidate {
        EventCandidate::instant(
            self.scope,
            detail,
            Some(self.lifecycle_span_id),
            CausalLink::to(source, relation),
        )
    }

    fn finish<A: SpanEventAdmission>(
        &mut self,
        run: &mut DiagnosticRun<A>,
        terminal: EffectTerminal,
    ) -> (over: bool)
        requires
            !old(self).state.producer_failed,
        ensures
            over,
            if old(self).state.finish_attempted {
                old(self).fails(
                    *final(self),
                    *old(run),
                    *final(run),
                    "effect.lifecycle-finish-transition-invalid",
                )
            } else {
                old(self).ends(*final(self), *old(run), *final(run), terminal)
            },
    {
        if self.state.finish_attempted {
            return self.fail_state(run, "effect.lifecycle-finish-transition-invalid");
        }
        self.state.finish_attempted = true;
        if let Err(error) = run.context.finish_span_with_causes(
            self.scope.clone(),
            self.lifecycle_span_id,
            terminal.outcome,
            stable_code(terminal.error_code),
            caused_by(terminal.causal_source, terminal.relation),
        ) {
            self.state.producer_failed = true;
            run.latch_diagnostic_failure(error);
        }
        true
    }

    fn fail_diagnostic<A: SpanEventAdmission>(
        &mut self,
        run: &mut DiagnosticRun<A>,
        error: DiagnosticProducerError,
    ) -> (over: bool)
        ensures
            over,
            *final(self) == old(self).failed(),
            *final(run) == old(run).with_failure(RuntimeProducerError::Diagnostic(error)),
    {
        self.state.producer_failed = true;
        self.state.finish_attempted = true;
        run.latch_diagnostic_failure(error);
        true
    }

    fn fail_state<A: SpanEventAdmission>(
        &mut self,
        run: &mut DiagnosticRun<A>,
        code: &'static str,
    ) -> (over: bool)
        ensures
            over,
            old(self).fails(*final(self), *old(run), *final(run), code),
    {
        self.state.producer_failed = true;
        self.state.finish_attempted = true;
        run.latch_state_failure(code);
        true
    }

    pub open spec fn on_created<A: SpanEventAdmission>(
        self,
        after: Self,
        run: DiagnosticRun<A>,
        run_after: DiagnosticRun<A>,
        over: bool,
    ) -> bool {
        if self.state.producer_failed || self.state.finish_attempted {
            after == self && run_after == run && over
        } else if self.state.created_sequence is Some || self.state.construction_finished {
            self.fails(after, run, run_after, "effect.created-transition-invalid") && over
        } else {
            &&& run_after.follows(
                run,
                self.moment(
                    InstantDetail::EffectCreated(self.detail),
                    self.lifecycle_span_id,
                    CausalRelation::FollowsFrom,
                ).alone(),
            )
            &&& over == run_after.stopped_since(run)
            &&& after == if over {
                self.failed()
            } else {
                self.with(
                    EffectLifecycleState {
                        created_sequence: Some(run_after.accepted_since(run)[0]),
                        ..self.state
                    },
                )
            }
        }
    }

    /// The effect exists. Tells whether it is over.
    pub fn created<A: SpanEventAdmission>(&mut self, run: &mut DiagnosticRun<A>) -> (over: bool)
        ensures
            old(self).on_created(*final(self), *old(run), *final(run), over),
    {
        if self.state.producer_failed || self.state.finish_attempted {
            return true;
        }
        if self.state.created_sequence.is_some() || self.state.construction_finished {
            return self.fail_state(run, "effect.created-transition-invalid");
        }
        match run.context.emit_instant_with_causes(
            self.scope.clone(),
            InstantDetail::EffectCreated(self.detail.clone()),
            Some(self.lifecycle_span_id),
            caused_by(self.lifecycle_span_id, CausalRelation::FollowsFrom),
        ) {
            Ok(sequence) => {
                self.state.created_sequence = Some(sequence);
                false
            },
            Err(error) => self.fail_diagnostic(run, error),
        }
    }

    /// How a construction that raised an error ends the effect.
    pub open spec fn construction_end(self, error: ErrorClass) -> EffectTerminal {
        let source = match self.state.created_sequence {
            Some(sequence) => sequence,
            None => self.lifecycle_span_id,
        };
        if error.cancelled {
            EffectTerminal::spec_cancelled(
                "effect-construction-cancelled",
                source,
                CausalRelation::FollowsFrom,
            )
        } else {
            EffectTerminal::spec_failed(
                "effect-construction-failed",
                source,
                CausalRelation::FollowsFrom,
            )
        }
    }

    pub open spec fn on_construction_finished<A: SpanEventAdmission>(
        self,
        after: Self,
        run: DiagnosticRun<A>,
        run_after: DiagnosticRun<A>,
        error: Option<ErrorClass>,
        over: bool,
    ) -> bool {
        let done = self.with(EffectLifecycleState { construction_finished: true, ..self.state });
        if self.state.producer_failed || self.state.finish_attempted {
            after == self && run_after == run && over
        } else if self.state.construction_finished {
            self.fails(
                after,
                run,
                run_after,
                "effect.construction-terminal-transition-invalid",
            ) && over
        } else {
            match error {
                None => if self.state.created_sequence is None {
                    done.fails(
                        after,
                        run,
                        run_after,
                        "effect.construction-finished-without-create",
                    ) && over
                } else {
                    after == done && run_after == run && !over
                },
                Some(error) => {
                    done.ends(after, run, run_after, self.construction_end(error)) && over
                },
            }
        }
    }

    /// The construction of the effect has ended. Tells whether the effect is over.
    pub fn construction_finished<A: SpanEventAdmission>(
        &mut self,
        run: &mut DiagnosticRun<A>,
        error: Option<ErrorClass>,
    ) -> (over: bool)
        ensures
            old(self).on_construction_finished(*final(self), *old(run), *final(run), error, over),
    {
        if self.state.producer_failed || self.state.finish_attempted {
            return true;
        }
        if self.state.construction_finished {
            return self.fail_state(run, "effect.construction-terminal-transition-invalid");
        }
        self.state.construction_finished = true;
        let error = match error {
            Some(error) => error,
            None => {
                if self.state.created_sequence.is_none() {
                    return self.fail_state(run, "effect.construction-finished-without-create");
                }
                return false;
            },
        };
        let source: u64 = self.state.created_sequence.unwrap_or(self.lifecycle_span_id);
        let terminal = if error.cancelled {
            EffectTerminal::cancelled(
                "effect-construction-cancelled",
                source,
                CausalRelation::FollowsFrom,
            )
        } else {
            EffectTerminal::failed(
                "effect-construction-failed",
                source,
                CausalRelation::FollowsFrom,
            )
        };
        self.finish(run, terminal)
    }

    pub open spec fn on_returned<A: SpanEventAdmission>(
        self,
        after: Self,
        run: DiagnosticRun<A>,
        run_after: DiagnosticRun<A>,
        over: bool,
    ) -> bool {
        if self.state.producer_failed || self.state.finish_attempted {
            after == self && run_after == run && over
        } else if self.state.returned_sequence is Some {
            after == self && run_after == run && !over
        } else {
            match self.state.created_sequence {
                None => {
                    self.fails(after, run, run_after, "effect.returned-without-create") && over
                },
                Some(created_sequence) => {
                    if !self.state.construction_finished || self.state.owner_terminal is Some {
                        self.fails(after, run, run_after, "effect.returned-transition-invalid")
                            && over
                    } else {
                        &&& run_after.follows(
                            run,
                            self.moment(
                                InstantDetail::EffectReturned(self.detail),
                                created_sequence,
                                CausalRelation::Return,
                            ).alone(),
                        )
                        &&& over == run_after.stopped_since(run)
                        &&& after == if over {
                            self.failed()
                        } else {
                            self.with(
                                EffectLifecycleState {
                                    returned_sequence: Some(run_after.accepted_since(run)[0]),
                                    ..self.state
                                },
                            )
                        }
                    }
                },
            }
        }
    }

    /// The effect was returned from its cue. An effect may be returned in several places at once:
    /// the first counts. Tells whether the effect is over.
    pub fn returned<A: SpanEventAdmission>(&mut self, run: &mut DiagnosticRun<A>) -> (over: bool)
        ensures
            old(self).on_returned(*final(self), *old(run), *final(run), over),
    {
        if self.state.producer_failed || self.state.finish_attempted {
            return true;
        }
        if self.state.returned_sequence.is_some() {
            return false;
        }
        let created_sequence = match self.state.created_sequence {
            Some(sequence) => sequence,
            None => return self.fail_state(run, "effect.returned-without-create"),
        };
        if !self.state.construction_finished || self.state.owner_terminal.is_some() {
            return self.fail_state(run, "effect.returned-transition-invalid");
        }
        match run.context.emit_instant_with_causes(
            self.scope.clone(),
            InstantDetail::EffectReturned(self.detail.clone()),
            Some(self.lifecycle_span_id),
            caused_by(created_sequence, CausalRelation::Return),
        ) {
            Ok(sequence) => {
                self.state.returned_sequence = Some(sequence);
                false
            },
            Err(error) => self.fail_diagnostic(run, error),
        }
    }

    /// How an effect ends that nobody took.
    pub open spec fn abandoned(returned_sequence: u64) -> EffectTerminal {
        EffectTerminal::spec_cancelled(
            "effect-consumer-abandoned",
            returned_sequence,
            CausalRelation::Handoff,
        )
    }

    /// That the effect was consumed, then its end.
    pub open spec fn consume_plan(self, returned_sequence: u64) -> spec_fn(Seq<u64>) -> Option<
        EventCandidate,
    > {
        |accepted: Seq<u64>|
            if accepted.len() == 0 {
                Some(
                    self.moment(
                        InstantDetail::EffectConsumed(self.detail),
                        returned_sequence,
                        CausalRelation::Handoff,
                    ),
                )
            } else if accepted.len() == 1 {
                Some(self.end_event(EffectTerminal::spec_completed(accepted[0])))
            } else {
                None
            }
    }

    /// What becomes of a returned effect once both its cue and its caller are known: the caller
    /// consumes it or abandons it.
    pub open spec fn resolves<A: SpanEventAdmission>(
        self,
        after: Self,
        run: DiagnosticRun<A>,
        run_after: DiagnosticRun<A>,
        returned_sequence: u64,
        outcome: CueCallerOutcome,
    ) -> bool {
        match outcome {
            CueCallerOutcome::Consumed => {
                &&& run_after.follows(run, self.consume_plan(returned_sequence))
                &&& after == self.with(
                    EffectLifecycleState {
                        finish_attempted: true,
                        producer_failed: run_after.stopped_since(run),
                        ..self.state
                    },
                )
            },
            CueCallerOutcome::Abandoned => self.ends(
                after,
                run,
                run_after,
                EffectLifecycleProducer::abandoned(returned_sequence),
            ),
        }
    }

    fn abandon_and_finish<A: SpanEventAdmission>(
        &mut self,
        run: &mut DiagnosticRun<A>,
        returned_sequence: u64,
    ) -> (over: bool)
        requires
            !old(self).state.producer_failed,
            !old(self).state.finish_attempted,
        ensures
            over,
            old(self).resolves(
                *final(self),
                *old(run),
                *final(run),
                returned_sequence,
                CueCallerOutcome::Abandoned,
            ),
    {
        self.finish(
            run,
            EffectTerminal::cancelled(
                "effect-consumer-abandoned",
                returned_sequence,
                CausalRelation::Handoff,
            ),
        )
    }

    fn consume_and_finish<A: SpanEventAdmission>(&mut self, run: &mut DiagnosticRun<A>) -> (over:
        bool)
        requires
            !old(self).state.producer_failed,
            !old(self).state.finish_attempted,
            old(self).state.returned_sequence is Some,
        ensures
            over,
            old(self).resolves(
                *final(self),
                *old(run),
                *final(run),
                old(self).state.returned_sequence->0,
                CueCallerOutcome::Consumed,
            ),
    {
        let returned_sequence = match self.state.returned_sequence {
            Some(sequence) => sequence,
            None => return self.fail_state(run, "effect.consumed-without-return"),
        };
        let consumed_sequence = match run.context.emit_instant_with_causes(
            self.scope.clone(),
            InstantDetail::EffectConsumed(self.detail.clone()),
            Some(self.lifecycle_span_id),
            caused_by(returned_sequence, CausalRelation::Handoff),
        ) {
            Ok(sequence) => sequence,
            Err(error) => return self.fail_diagnostic(run, error),
        };
        self.finish(run, EffectTerminal::completed(consumed_sequence))
    }

    pub open spec fn on_owner_terminal<A: SpanEventAdmission>(
        self,
        after: Self,
        run: DiagnosticRun<A>,
        run_after: DiagnosticRun<A>,
        outcome: CueTerminalOutcome,
        source: u64,
        over: bool,
    ) -> bool {
        let owned = self.with(
            EffectLifecycleState { owner_terminal: Some(outcome), ..self.state },
        );
        if self.state.producer_failed || self.state.finish_attempted {
            after == self && run_after == run && over
        } else if self.state.owner_terminal is Some {
            self.fails(after, run, run_after, "effect.owner-terminal-transition-invalid") && over
        } else {
            match outcome {
                CueTerminalOutcome::Completed => match self.state.returned_sequence {
                    None => owned.ends(
                        after,
                        run,
                        run_after,
                        EffectTerminal::spec_failed(
                            "effect-not-returned",
                            source,
                            CausalRelation::Return,
                        ),
                    ) && over,
                    Some(returned_sequence) => match self.state.caller_outcome {
                        Some(caller) => {
                            owned.resolves(after, run, run_after, returned_sequence, caller) && over
                        },
                        None => if self.state.cleared {
                            owned.resolves(
                                after,
                                run,
                                run_after,
                                returned_sequence,
                                CueCallerOutcome::Abandoned,
                            ) && over
                        } else {
                            after == owned && run_after == run && !over
                        },
                    },
                },
                CueTerminalOutcome::Cancelled => owned.ends(
                    after,
                    run,
                    run_after,
                    EffectTerminal::spec_cancelled(
                        "effect-owner-cancelled",
                        source,
                        CausalRelation::Handoff,
                    ),
                ) && over,
                CueTerminalOutcome::Failed => owned.ends(
                    after,
                    run,
                    run_after,
                    EffectTerminal::spec_failed(
                        "effect-owner-failed",
                        source,
                        CausalRelation::Return,
                    ),
                ) && over,
                CueTerminalOutcome::CleanupFailed => owned.ends(
                    after,
                    run,
                    run_after,
                    EffectTerminal::spec_failed(
                        "effect-owner-cleanup-failed",
                        source,
                        CausalRelation::Handoff,
                    ),
                ) && over,
            }
        }
    }

    /// The cue that owns the effect has ended. Tells whether the effect is over.
    pub fn owner_terminal<A: SpanEventAdmission>(
        &mut self,
        run: &mut DiagnosticRun<A>,
        outcome: CueTerminalOutcome,
        source: u64,
    ) -> (over: bool)
        ensures
            old(self).on_owner_terminal(
                *final(self),
                *old(run),
                *final(run),
                outcome,
                source,
                over,
            ),
    {
        if self.state.producer_failed || self.state.finish_attempted {
            return true;
        }
        if self.state.owner_terminal.is_some() {
            return self.fail_state(run, "effect.owner-terminal-transition-invalid");
        }
        self.state.owner_terminal = Some(outcome);
        match outcome {
            CueTerminalOutcome::Completed => {
                let returned_sequence = match self.state.returned_sequence {
                    Some(sequence) => sequence,
                    None => return self.finish(
                        run,
                        EffectTerminal::failed(
                            "effect-not-returned",
                            source,
                            CausalRelation::Return,
                        ),
                    ),
                };
                match self.state.caller_outcome {
                    Some(CueCallerOutcome::Consumed) => self.consume_and_finish(run),
                    Some(CueCallerOutcome::Abandoned) => {
                        self.abandon_and_finish(run, returned_sequence)
                    },
                    None => {
                        if self.state.cleared {
                            self.abandon_and_finish(run, returned_sequence)
                        } else {
                            false
                        }
                    },
                }
            },
            CueTerminalOutcome::Cancelled => self.finish(
                run,
                EffectTerminal::cancelled(
                    "effect-owner-cancelled",
                    source,
                    CausalRelation::Handoff,
                ),
            ),
            CueTerminalOutcome::Failed => self.finish(
                run,
                EffectTerminal::failed("effect-owner-failed", source, CausalRelation::Return),
            ),
            CueTerminalOutcome::CleanupFailed => self.finish(
                run,
                EffectTerminal::failed(
                    "effect-owner-cleanup-failed",
                    source,
                    CausalRelation::Handoff,
                ),
            ),
        }
    }

    pub open spec fn on_caller_finished<A: SpanEventAdmission>(
        self,
        after: Self,
        run: DiagnosticRun<A>,
        run_after: DiagnosticRun<A>,
        outcome: CueCallerOutcome,
        over: bool,
    ) -> bool {
        let called = self.with(
            EffectLifecycleState { caller_outcome: Some(outcome), ..self.state },
        );
        if self.state.producer_failed || self.state.finish_attempted {
            after == self && run_after == run && over
        } else if self.state.caller_outcome is Some {
            after == self && run_after == run && !over
        } else {
            match self.state.returned_sequence {
                Some(returned_sequence) if self.state.owner_terminal == Some(
                    CueTerminalOutcome::Completed,
                ) => called.resolves(after, run, run_after, returned_sequence, outcome) && over,
                _ => after == called && run_after == run && !over,
            }
        }
    }

    /// The caller of the cue has taken or left what it returned. The first outcome counts. Tells
    /// whether the effect is over.
    pub fn caller_finished<A: SpanEventAdmission>(
        &mut self,
        run: &mut DiagnosticRun<A>,
        outcome: CueCallerOutcome,
    ) -> (over: bool)
        ensures
            old(self).on_caller_finished(*final(self), *old(run), *final(run), outcome, over),
    {
        if self.state.producer_failed || self.state.finish_attempted {
            return true;
        }
        if self.state.caller_outcome.is_some() {
            return false;
        }
        self.state.caller_outcome = Some(outcome);
        match (self.state.owner_terminal, self.state.returned_sequence) {
            (Some(CueTerminalOutcome::Completed), Some(returned_sequence)) => match outcome {
                CueCallerOutcome::Consumed => self.consume_and_finish(run),
                CueCallerOutcome::Abandoned => self.abandon_and_finish(run, returned_sequence),
            },
            _ => false,
        }
    }

    pub open spec fn on_cleared<A: SpanEventAdmission>(
        self,
        after: Self,
        run: DiagnosticRun<A>,
        run_after: DiagnosticRun<A>,
        over: bool,
    ) -> bool {
        let cleared = self.with(EffectLifecycleState { cleared: true, ..self.state });
        if self.state.producer_failed || self.state.finish_attempted {
            after == self && run_after == run && over
        } else if self.state.cleared {
            after == self && run_after == run && !over
        } else {
            match self.state.returned_sequence {
                Some(returned_sequence) if self.state.owner_terminal == Some(
                    CueTerminalOutcome::Completed,
                ) => cleared.resolves(
                    after,
                    run,
                    run_after,
                    returned_sequence,
                    CueCallerOutcome::Abandoned,
                ) && over,
                _ => after == cleared && run_after == run && !over,
            }
        }
    }

    /// The effect object is gone. Tells whether the effect is over.
    pub fn cleared<A: SpanEventAdmission>(&mut self, run: &mut DiagnosticRun<A>) -> (over: bool)
        ensures
            old(self).on_cleared(*final(self), *old(run), *final(run), over),
    {
        if self.state.producer_failed || self.state.finish_attempted {
            return true;
        }
        if self.state.cleared {
            return false;
        }
        self.state.cleared = true;
        match (self.state.owner_terminal, self.state.returned_sequence) {
            (Some(CueTerminalOutcome::Completed), Some(returned_sequence)) => {
                self.abandon_and_finish(run, returned_sequence)
            },
            _ => false,
        }
    }
}

/// The construction of an effect: the key of the effect, the key of the cue that owns it, and the
/// name of its type, where that is text.
#[derive(Debug, PartialEq, Eq)]
pub struct EffectConstruction {
    pub identity_key: usize,
    pub owner_key: usize,
    pub effect_type: Option<String>,
}

/// What a cue tells its effects.
#[derive(Clone, Copy, Debug, PartialEq, Eq, Structural)]
pub enum OwnerEvent {
    Terminal { outcome: CueTerminalOutcome, source: u64 },
    CallerFinished { caller: CueCallerOutcome },
}

/// The effects that are under way, in the order in which they began.
pub struct EffectRegistry {
    pub producers: Vec<EffectLifecycleProducer>,
    pub next_effect_id: IdCounter,
}

impl View for EffectRegistry {
    type V = Seq<EffectLifecycleProducer>;

    open spec fn view(&self) -> Seq<EffectLifecycleProducer> {
        self.producers@
    }
}

impl EffectRegistry {
    /// No effect is under way twice.
    pub open spec fn wf(self) -> bool {
        EffectRegistry::distinct(self@)
    }

    pub open spec fn distinct(producers: Seq<EffectLifecycleProducer>) -> bool {
        forall|i: int, j: int|
            0 <= i < j < producers.len() ==> (#[trigger] producers[i]).identity_key != (
            #[trigger] producers[j]).identity_key
    }

    /// Every effect reports through a run that is open.
    pub open spec fn fits<A: SpanEventAdmission>(self, runs: DiagnosticRuns<A>) -> bool {
        forall|i: int| 0 <= i < self@.len() ==> (#[trigger] self@[i]).run < runs@.len()
    }

    /// The effect at `place` is the one with the key.
    pub open spec fn holds_at(self, place: int, identity_key: usize) -> bool {
        0 <= place < self@.len() && self@[place].identity_key == identity_key
    }

    pub open spec fn contains(self, identity_key: usize) -> bool {
        exists|place: int| #[trigger] self.holds_at(place, identity_key)
    }

    pub fn new() -> (registry: Self)
        ensures
            registry@ == Seq::<EffectLifecycleProducer>::empty(),
            registry.next_effect_id.next == 1,
            registry.wf(),
    {
        EffectRegistry { producers: Vec::new(), next_effect_id: IdCounter::new() }
    }

    fn find(&self, identity_key: usize) -> (place: Option<usize>)
        ensures
            match place {
                Some(place) => self.holds_at(place as int, identity_key),
                None => !self.contains(identity_key),
            },
    {
        let mut i: usize = 0;
        while i < self.producers.len()
            invariant
                i <= self@.len(),
                forall|j: int| 0 <= j < i ==> !#[trigger] self.holds_at(j, identity_key),
            decreases self@.len() - i,
        {
            if self.producers[i].identity_key == identity_key {
                return Some(i);
            }
            i = i + 1;
        }
        None
    }

    /// What an effect's start is reported as.
    pub open spec fn start_event(
        lineage: CueLineageSnapshot,
        scope: DiagnosticScope,
        detail: EffectDetail,
    ) -> EventCandidate {
        EventCandidate::started(
            scope,
            SpanStartDetail::EffectLifecycle(detail),
            Some(lineage.containing_span_id),
            None,
        )
    }

    /// Why an effect cannot start, before anything is reported.
    pub open spec fn start_problem(
        self,
        lineage: CueLineageSnapshot,
        construction: EffectConstruction,
    ) -> Option<&'static str> {
        if self.contains(construction.identity_key) {
            Some("effect.lifecycle-already-started")
        } else if self.next_effect_id.next == u64::MAX {
            Some("effect.identifier-exhausted")
        } else if lineage.cue_scope.scene_id is None {
            Some("effect.scene-identifier-unavailable")
        } else if lineage.cue_scope.actor_id is None {
            Some("effect.actor-identifier-unavailable")
        } else if lineage.cue_scope.cue_id is None {
            Some("effect.cue-identifier-unavailable")
        } else if construction.effect_type is None {
            Some("effect.type-name-not-utf8")
        } else {
            None
        }
    }

    /// The next number after an effect was to start: it is taken before anything else of the effect
    /// is looked at, unless the effect has started already or there is none left.
    pub open spec fn number_after(self, construction: EffectConstruction) -> int {
        if self.contains(construction.identity_key) || self.next_effect_id.next == u64::MAX {
            self.next_effect_id.next as int
        } else {
            self.next_effect_id.next + 1
        }
    }

    /// The effect started under an identifier with the next number.
    pub open spec fn started_as<A: SpanEventAdmission>(
        self,
        after: Self,
        run: DiagnosticRun<A>,
        run_after: DiagnosticRun<A>,
        lineage: CueLineageSnapshot,
        construction: EffectConstruction,
        effect_id: RunLocalId,
    ) -> bool {
        let detail = EffectDetail { effect_type: construction.effect_type->0 };
        let scope = DiagnosticScope {
            scene_id: lineage.cue_scope.scene_id,
            actor_id: lineage.cue_scope.actor_id,
            cue_id: lineage.cue_scope.cue_id,
            effect_id: Some(effect_id),
            ..DiagnosticScope::of_run()
        };
        &&& effect_id@ == crate::identifier::numbered("effect-"@, self.next_effect_id.next)
        &&& run_after.follows(
            run,
            EffectRegistry::start_event(lineage, scope, detail).alone(),
        )
        &&& after@ =~= if run_after.stopped_since(run) {
            self@
        } else {
            self@.push(
                EffectLifecycleProducer {
                    run: lineage.run,
                    scope,
                    detail,
                    lifecycle_span_id: run_after.accepted_since(run)[0],
                    identity_key: construction.identity_key,
                    owner_key: construction.owner_key,
                    state: EffectLifecycleState::fresh(),
                },
            )
        }
    }

    /// An effect is being constructed in a cue. Outside of a dispatched cue, or in a run that has
    /// failed, nothing is reported.
    pub fn construction_started<A: SpanEventAdmission>(
        &mut self,
        runs: &mut DiagnosticRuns<A>,
        lineage: Option<CueLineageSnapshot>,
        construction: &EffectConstruction,
    )
        requires
            old(self).wf(),
            old(self).fits(*old(runs)),
            lineage matches Some(lineage) ==> lineage.run < old(runs)@.len(),
        ensures
            final(self).wf(),
            final(self).fits(*final(runs)),
            final(runs)@.len() == old(runs)@.len(),
            match lineage {
                None => {
                    &&& final(self)@ == old(self)@
                    &&& final(self).next_effect_id == old(self).next_effect_id
                    &&& *final(runs) == *old(runs)
                },
                Some(lineage) => {
                    let run = old(runs)@[lineage.run as int];
                    let run_after = final(runs)@[lineage.run as int];
                    if run.failure is Some {
                        &&& final(self)@ == old(self)@
                        &&& final(self).next_effect_id == old(self).next_effect_id
                        &&& *final(runs) == *old(runs)
                    } else {
                        &&& final(runs).only_changes(*old(runs), lineage.run as int)
                        &&& match old(self).start_problem(lineage, *construction) {
                            Some(code) => {
                                &&& final(self)@ == old(self)@
                                &&& final(self).next_effect_id.next == old(
                                    self,
                                ).number_after(*construction)
                                &&& run_after == run.with_state_failure(code)
                            },
                            None => {
                                &&& final(self).next_effect_id.next == old(
                                    self,
                                ).number_after(*construction)
                                &&& exists|effect_id: RunLocalId| #[trigger]
                                    old(self).started_as(
                                        *final(self),
                                        run,
                                        run_after,
                                        lineage,
                                        *construction,
                                        effect_id,
                                    )
                            },
                        }
                    }
                },
            },
    {
        let lineage = match lineage {
            Some(lineage) => lineage,
            None => return,
        };
        let run: usize = lineage.run;
        if runs.runs[run].failure.is_some() {
            return;
        }
        if self.find(construction.identity_key).is_some() {
            runs.runs[run].latch_state_failure("effect.lifecycle-already-started");
            return;
        }
        let value = match self.next_effect_id.take() {
            Some(value) => value,
            None => {
                runs.runs[run].latch_state_failure("effect.identifier-exhausted");
                return;
            },
        };
        let effect_id = numbered_id("effect-", value);
        let ghost id = effect_id;
        let scope = match effect_scope(&lineage.cue_scope, effect_id) {
            Ok(scope) => scope,
            Err(code) => {
                runs.runs[run].latch_state_failure(code);
                return;
            },
        };
        let detail = match &construction.effect_type {
            Some(effect_type) => EffectDetail { effect_type: effect_type.clone() },
            None => {
                runs.runs[run].latch_state_failure("effect.type-name-not-utf8");
                return;
            },
        };
        match runs.runs[run].context.start_span(
            scope.clone(),
            SpanStartDetail::EffectLifecycle(detail.clone()),
            Some(lineage.containing_span_id),
        ) {
            Ok(lifecycle_span_id) => {
                self.producers.push(
                    EffectLifecycleProducer {
                        run,
                        scope,
                        detail,
                        lifecycle_span_id,
                        identity_key: construction.identity_key,
                        owner_key: construction.owner_key,
                        state: EffectLifecycleState::new(),
                    },
                );
                proof {
                    assert forall|i: int, j: int| 0 <= i < j < self@.len() implies (
                    #[trigger] self@[i]).identity_key != (#[trigger] self@[j]).identity_key by {
                        if j == old(self)@.len() {
                            assert(!old(self).holds_at(i, construction.identity_key));
                        }
                    }
                }
            },
            Err(error) => runs.runs[run].latch_diagnostic_failure(error),
        }
        assert(old(self).started_as(
            *self,
            old(runs)@[run as int],
            runs@[run as int],
            lineage,
            *construction,
            id,
        ));
    }

    /// What is left after a step of the effect at `place`: an effect that is over is forgotten.
    pub open spec fn stepped(
        self,
        after: Self,
        place: int,
        producer_after: EffectLifecycleProducer,
        over: bool,
    ) -> bool {
        &&& after.next_effect_id == self.next_effect_id
        &&& after@ =~= if over {
            self@.remove(place)
        } else {
            self@.update(place, producer_after)
        }
    }

    fn settle(&mut self, place: usize, over: bool)
        requires
            place < old(self)@.len(),
        ensures
            final(self).next_effect_id == old(self).next_effect_id,
            final(self)@ == if over {
                old(self)@.remove(place as int)
            } else {
                old(self)@
            },
    {
        if over {
            self.producers.remove(place);
        }
    }

    /// What is known of the error of a construction, where it raised one.
    pub open spec fn error_of(outcome: Result<usize, ErrorClass>) -> Option<ErrorClass> {
        match outcome {
            Ok(_) => None,
            Err(error) => Some(error),
        }
    }

    pub open spec fn on_construction_finished<A: SpanEventAdmission>(
        self,
        after: Self,
        runs: DiagnosticRuns<A>,
        runs_after: DiagnosticRuns<A>,
        identity_key: usize,
        outcome: Result<usize, ErrorClass>,
    ) -> bool {
        if !self.contains(identity_key) {
            after == self && runs_after == runs
        } else {
            exists|place: int|
                {
                    &&& #[trigger] self.holds_at(place, identity_key)
                    &&& runs_after.only_changes(runs, self@[place].run as int)
                    &&& self.construction_finished_at(
                        after,
                        runs@[self@[place].run as int],
                        runs_after@[self@[place].run as int],
                        place,
                        outcome,
                    )
                }
        }
    }

    /// The construction of the effect at `place` has ended. It has to give the effect that was
    /// begun.
    pub open spec fn construction_finished_at<A: SpanEventAdmission>(
        self,
        after: Self,
        run: DiagnosticRun<A>,
        run_after: DiagnosticRun<A>,
        place: int,
        outcome: Result<usize, ErrorClass>,
    ) -> bool {
        let producer = self@[place];
        if outcome matches Ok(constructed) && constructed != producer.identity_key {
            &&& run_after == run.with_state_failure("effect.construction-identity-changed")
            &&& self.stepped(after, place, producer, true)
        } else {
            exists|producer_after: EffectLifecycleProducer, over: bool|
                {
                    &&& #[trigger] producer.on_construction_finished(
                        producer_after,
                        run,
                        run_after,
                        EffectRegistry::error_of(outcome),
                        over,
                    )
                    &&& self.stepped(after, place, producer_after, over)
                }
        }
    }

    /// The construction of an effect has ended, with the key of the effect or with what is known of
    /// the error.
    pub fn construction_ended<A: SpanEventAdmission>(
        &mut self,
        runs: &mut DiagnosticRuns<A>,
        identity_key: usize,
        outcome: Result<usize, ErrorClass>,
    )
        requires
            old(self).wf(),
            old(self).fits(*old(runs)),
        ensures
            final(self).wf(),
            final(self).fits(*final(runs)),
            final(runs)@.len() == old(runs)@.len(),
            old(self).on_construction_finished(
                *final(self),
                *old(runs),
                *final(runs),
                identity_key,
                outcome,
            ),
    {
        let place = match self.find(identity_key) {
            Some(place) => place,
            None => return,
        };
        let run: usize = self.producers[place].run;
        let error = match outcome {
            Ok(constructed) => {
                if constructed != identity_key {
                    runs.runs[run].latch_state_failure("effect.construction-identity-changed");
                    self.settle(place, true);
                    assert(old(self).holds_at(place as int, identity_key));
                    return;
                }
                None
            },
            Err(error) => Some(error),
        };
        let over = self.producers[place].construction_finished(&mut runs.runs[run], error);
        let ghost producer_after = self@[place as int];
        self.settle(place, over);
        assert(old(self)@[place as int].on_construction_finished(
            producer_after,
            old(runs)@[run as int],
            runs@[run as int],
            error,
            over,
        ));
        assert(old(self).stepped(*self, place as int, producer_after, over));
        assert(old(self).construction_finished_at(
            *self,
            old(runs)@[run as int],
            runs@[run as int],
            place as int,
            outcome,
        ));
        assert(old(self).holds_at(place as int, identity_key));
    }

    /// The construction of an effect has ended, with the key of the effect or with the error that
    /// it raised.
    pub fn construction_finished<A: SpanEventAdmission>(
        &mut self,
        runs: &mut DiagnosticRuns<A>,
        identity_key: usize,
        outcome: Result<usize, &pyo3::PyErr>,
    )
        requires
            old(self).wf(),
            old(self).fits(*old(runs)),
        ensures
            final(self).wf(),
            final(self).fits(*final(runs)),
            final(runs)@.len() == old(runs)@.len(),
            exists|class: Result<usize, ErrorClass>|
                {
                    &&& match outcome {
                        Ok(constructed) => class == Ok::<usize, ErrorClass>(constructed),
                        Err(error) => class is Err && class->Err_0.is_of(*error),
                    }
                    &&& #[trigger] old(self).on_construction_finished(
                        *final(self),
                        *old(runs),
                        *final(runs),
                        identity_key,
                        class,
                    )
                },
    {
        let class = match outcome {
            Ok(constructed) => Ok(constructed),
            Err(error) => Err(ErrorClass::of(error)),
        };
        self.construction_ended(runs, identity_key, class);
    }

    pub open spec fn on_hook<A: SpanEventAdmission>(
        self,
        after: Self,
        runs: DiagnosticRuns<A>,
        runs_after: DiagnosticRuns<A>,
        identity_key: usize,
        hook: EffectHook,
        lineage: Option<CueLineageSnapshot>,
    ) -> bool {
        if !self.contains(identity_key) {
            &&& after == self
            &&& match lineage {
                Some(lineage) if hook is Created => runs_after@ =~= runs@.update(
                    lineage.run as int,
                    runs@[lineage.run as int].with_state_failure("effect.lifecycle-unavailable"),
                ),
                _ => runs_after == runs,
            }
        } else {
            exists|place: int|
                {
                    &&& #[trigger] self.holds_at(place, identity_key)
                    &&& runs_after.only_changes(runs, self@[place].run as int)
                    &&& self.hooked_at(
                        after,
                        runs@[self@[place].run as int],
                        runs_after@[self@[place].run as int],
                        place,
                        hook,
                    )
                }
        }
    }

    /// The effect at `place` has taken a hook.
    pub open spec fn hooked_at<A: SpanEventAdmission>(
        self,
        after: Self,
        run: DiagnosticRun<A>,
        run_after: DiagnosticRun<A>,
        place: int,
        hook: EffectHook,
    ) -> bool {
        exists|producer_after: EffectLifecycleProducer, over: bool|
            {
                &&& match hook {
                    EffectHook::Created => self@[place].on_created(
                        producer_after,
                        run,
                        run_after,
                        over,
                    ),
                    EffectHook::Returned => self@[place].on_returned(
                        producer_after,
                        run,
                        run_after,
                        over,
                    ),
                }
                &&& #[trigger] self.stepped(after, place, producer_after, over)
            }
    }

    /// Takes a hook of an effect. `lineage` is that of the cue that owns it.
    pub fn observe<A: SpanEventAdmission>(
        &mut self,
        runs: &mut DiagnosticRuns<A>,
        identity_key: usize,
        hook: EffectHook,
        lineage: Option<CueLineageSnapshot>,
    )
        requires
            old(self).wf(),
            old(self).fits(*old(runs)),
            lineage matches Some(lineage) ==> lineage.run < old(runs)@.len(),
        ensures
            final(self).wf(),
            final(self).fits(*final(runs)),
            final(runs)@.len() == old(runs)@.len(),
            old(self).on_hook(
                *final(self),
                *old(runs),
                *final(runs),
                identity_key,
                hook,
                lineage,
            ),
    {
        let place = match self.find(identity_key) {
            Some(place) => place,
            None => {
                if matches!(hook, EffectHook::Created) {
                    if let Some(lineage) = lineage {
                        runs.runs[lineage.run].latch_state_failure("effect.lifecycle-unavailable");
                    }
                }
                return;
            },
        };
        let run: usize = self.producers[place].run;
        let over = match hook {
            EffectHook::Created => self.producers[place].created(&mut runs.runs[run]),
            EffectHook::Returned => self.producers[place].returned(&mut runs.runs[run]),
        };
        let ghost producer_after = self@[place as int];
        self.settle(place, over);
        assert(old(self).stepped(*self, place as int, producer_after, over));
        assert(old(self).hooked_at(
            *self,
            old(runs)@[run as int],
            runs@[run as int],
            place as int,
            hook,
        ));
        assert(old(self).holds_at(place as int, identity_key));
    }

    /// An effect object is gone.
    pub fn cleared<A: SpanEventAdmission>(
        &mut self,
        runs: &mut DiagnosticRuns<A>,
        identity_key: usize,
    )
        requires
            old(self).wf(),
            old(self).fits(*old(runs)),
        ensures
            final(self).wf(),
            final(self).fits(*final(runs)),
            final(runs)@.len() == old(runs)@.len(),
            if !old(self).contains(identity_key) {
                *final(self) == *old(self) && *final(runs) == *old(runs)
            } else {
                exists|place: int, producer_after: EffectLifecycleProducer, over: bool|
                    {
                        let run = old(self)@[place].run as int;
                        &&& old(self).holds_at(place, identity_key)
                        &&& final(runs).only_changes(*old(runs), run)
                        &&& old(self)@[place].on_cleared(
                            producer_after,
                            old(runs)@[run],
                            final(runs)@[run],
                            over,
                        )
                        &&& #[trigger] old(self).stepped(*final(self), place, producer_after, over)
                    }
            },
    {
        let place = match self.find(identity_key) {
            Some(place) => place,
            None => return,
        };
        let run: usize = self.producers[place].run;
        let over = self.producers[place].cleared(&mut runs.runs[run]);
        let ghost producer_after = self@[place as int];
        self.settle(place, over);
        assert(old(self).holds_at(place as int, identity_key));
        assert(old(self).stepped(*self, place as int, producer_after, over));
    }

    /// What an event of a cue does to one effect. An effect of another cue takes no notice.
    pub open spec fn told<A: SpanEventAdmission>(
        producer: EffectLifecycleProducer,
        producer_after: EffectLifecycleProducer,
        runs: Seq<DiagnosticRun<A>>,
        runs_after: Seq<DiagnosticRun<A>>,
        owner_key: usize,
        event: OwnerEvent,
        over: bool,
    ) -> bool {
        let run = producer.run as int;
        if producer.owner_key != owner_key {
            producer_after == producer && runs_after =~= runs && !over
        } else {
            &&& DiagnosticRuns::changes_at(runs_after, runs, run)
            &&& match event {
                OwnerEvent::Terminal { outcome, source } => producer.on_owner_terminal(
                    producer_after,
                    runs[run],
                    runs_after[run],
                    outcome,
                    source,
                    over,
                ),
                OwnerEvent::CallerFinished { caller } => producer.on_caller_finished(
                    producer_after,
                    runs[run],
                    runs_after[run],
                    caller,
                    over,
                ),
            }
        }
    }

    /// What an event of a cue does to the effects, one after the other. An effect that is over is
    /// forgotten.
    pub open spec fn all_told<A: SpanEventAdmission>(
        producers: Seq<EffectLifecycleProducer>,
        after: Seq<EffectLifecycleProducer>,
        runs: Seq<DiagnosticRun<A>>,
        runs_after: Seq<DiagnosticRun<A>>,
        owner_key: usize,
        event: OwnerEvent,
    ) -> bool
        decreases producers.len(),
    {
        if producers.len() == 0 {
            after.len() == 0 && runs_after =~= runs
        } else {
            exists|
                after_init: Seq<EffectLifecycleProducer>,
                runs_between: Seq<DiagnosticRun<A>>,
                producer_after: EffectLifecycleProducer,
                over: bool,
            |
                {
                    &&& EffectRegistry::all_told(
                        producers.drop_last(),
                        after_init,
                        runs,
                        runs_between,
                        owner_key,
                        event,
                    )
                    &&& #[trigger] EffectRegistry::told(
                        producers.last(),
                        producer_after,
                        runs_between,
                        runs_after,
                        owner_key,
                        event,
                        over,
                    )
                    &&& #[trigger] EffectRegistry::kept(after, after_init, producer_after, over)
                }
        }
    }

    /// An effect stays behind those before it, unless it is over.
    pub open spec fn kept(
        after: Seq<EffectLifecycleProducer>,
        before_it: Seq<EffectLifecycleProducer>,
        producer: EffectLifecycleProducer,
        over: bool,
    ) -> bool {
        after =~= if over {
            before_it
        } else {
            before_it.push(producer)
        }
    }

    /// Tells the effects of a cue what happened to it.
    fn tell<A: SpanEventAdmission>(
        &mut self,
        runs: &mut DiagnosticRuns<A>,
        owner_key: usize,
        event: OwnerEvent,
    )
        requires
            old(self).wf(),
            old(self).fits(*old(runs)),
        ensures
            final(self).wf(),
            final(self).fits(*final(runs)),
            final(runs)@.len() == old(runs)@.len(),
            final(self).next_effect_id == old(self).next_effect_id,
            EffectRegistry::all_told(
                old(self)@,
                final(self)@,
                old(runs)@,
                final(runs)@,
                owner_key,
                event,
            ),
    {
        let ghost all = self@;
        let ghost mut told: int = 0;
        let mut i: usize = 0;
        assert(self@.take(0) =~= Seq::<EffectLifecycleProducer>::empty());
        assert(EffectRegistry::all_told(
            all.take(0),
            self@.take(0),
            old(runs)@,
            runs@,
            owner_key,
            event,
        ));
        while i < self.producers.len()
            invariant
                all == old(self)@,
                0 <= told <= all.len(),
                i <= self@.len(),
                self@.skip(i as int) =~= all.skip(told),
                self.wf(),
                self.fits(*runs),
                runs@.len() == old(runs)@.len(),
                self.next_effect_id == old(self).next_effect_id,
                EffectRegistry::all_told(
                    all.take(told),
                    self@.take(i as int),
                    old(runs)@,
                    runs@,
                    owner_key,
                    event,
                ),
            decreases all.len() - told,
        {
            let ghost before = self@;
            let ghost runs_before = runs@;
            let ghost kept = self@.take(i as int);
            assert(before.skip(i as int).len() == all.skip(told).len());
            assert forall|k: int| i <= k < before.len() implies before[k] == all[told + k - i] by {
                assert(before.skip(i as int)[k - i] == all.skip(told)[k - i]);
            }
            let mut over = false;
            if self.producers[i].owner_key == owner_key {
                let run: usize = self.producers[i].run;
                over = match event {
                    OwnerEvent::Terminal { outcome, source } => {
                        self.producers[i].owner_terminal(&mut runs.runs[run], outcome, source)
                    },
                    OwnerEvent::CallerFinished { caller } => {
                        self.producers[i].caller_finished(&mut runs.runs[run], caller)
                    },
                };
            }
            let ghost producer_after = self@[i as int];
            assert(EffectRegistry::told(
                all[told],
                producer_after,
                runs_before,
                runs@,
                owner_key,
                event,
                over,
            ));
            self.settle(i, over);
            proof {
                assert(all.take(told + 1).drop_last() =~= all.take(told));
                assert(all.take(told + 1).last() == all[told]);
                assert(EffectRegistry::all_told(
                    all.take(told + 1).drop_last(),
                    kept,
                    old(runs)@,
                    runs_before,
                    owner_key,
                    event,
                ));
                assert(EffectRegistry::told(
                    all.take(told + 1).last(),
                    producer_after,
                    runs_before,
                    runs@,
                    owner_key,
                    event,
                    over,
                ));
                let next = if over {
                    i as int
                } else {
                    i + 1
                };
                assert(self@.skip(next) =~= all.skip(told + 1));
                assert(EffectRegistry::kept(self@.take(next), kept, producer_after, over));
                told = told + 1;
            }
            if !over {
                i = i + 1;
            }
        }
        assert(self@.take(i as int) =~= self@);
        assert(all.take(told) =~= all) by {
            assert(all.skip(told).len() == 0);
        }
    }

    /// The cue that owns some effects has ended.
    pub fn cue_terminal<A: SpanEventAdmission>(
        &mut self,
        runs: &mut DiagnosticRuns<A>,
        owner_key: usize,
        outcome: CueTerminalOutcome,
        source: u64,
    )
        requires
            old(self).wf(),
            old(self).fits(*old(runs)),
        ensures
            final(self).wf(),
            final(self).fits(*final(runs)),
            final(runs)@.len() == old(runs)@.len(),
            final(self).next_effect_id == old(self).next_effect_id,
            EffectRegistry::all_told(
                old(self)@,
                final(self)@,
                old(runs)@,
                final(runs)@,
                owner_key,
                OwnerEvent::Terminal { outcome, source },
            ),
    {
        self.tell(runs, owner_key, OwnerEvent::Terminal { outcome, source });
    }

    /// The caller of the cue that owns some effects has taken or left what it returned.
    pub fn caller_finished<A: SpanEventAdmission>(
        &mut self,
        runs: &mut DiagnosticRuns<A>,
        owner_key: usize,
        caller: CueCallerOutcome,
    )
        requires
            old(self).wf(),
            old(self).fits(*old(runs)),
        ensures
            final(self).wf(),
            final(self).fits(*final(runs)),
            final(runs)@.len() == old(runs)@.len(),
            final(self).next_effect_id == old(self).next_effect_id,
            EffectRegistry::all_told(
                old(self)@,
                final(self)@,
                old(runs)@,
                final(runs)@,
                owner_key,
                OwnerEvent::CallerFinished { caller },
            ),
    {
        self.tell(runs, owner_key, OwnerEvent::CallerFinished { caller });
    }
}

/// An effect that is over reports nothing more, and nothing about it changes.
pub proof fn ended_effect_rests<A: SpanEventAdmission>(
    effect: EffectLifecycleProducer,
    after: EffectLifecycleProducer,
    run: DiagnosticRun<A>,
    run_after: DiagnosticRun<A>,
    error: Option<ErrorClass>,
    owner: CueTerminalOutcome,
    source: u64,
    caller: CueCallerOutcome,
    over: bool,
)
    requires
        effect.state.finish_attempted,
        effect.on_created(after, run, run_after, over) || effect.on_construction_finished(
            after,
            run,
            run_after,
            error,
            over,
        ) || effect.on_returned(after, run, run_after, over) || effect.on_owner_terminal(
            after,
            run,
            run_after,
            owner,
            source,
            over,
        ) || effect.on_caller_finished(after, run, run_after, caller, over) || effect.on_cleared(
            after,
            run,
            run_after,
            over,
        ),
    ensures
        over,
        after == effect,
        run_after == run,
{
}

/// It does not matter whether the cue of a returned effect ends first or its caller: the effect is
/// consumed or abandoned by the second of the two, as the caller says.
pub proof fn effect_resolves_in_either_order<A: SpanEventAdmission>(
    effect: EffectLifecycleProducer,
    first: EffectLifecycleProducer,
    second: EffectLifecycleProducer,
    run: DiagnosticRun<A>,
    run_first: DiagnosticRun<A>,
    run_second: DiagnosticRun<A>,
    source: u64,
    caller: CueCallerOutcome,
    over_first: bool,
    over_second: bool,
    owner_first: bool,
)
    requires
        !effect.state.finish_attempted,
        !effect.state.producer_failed,
        !effect.state.cleared,
        effect.state.returned_sequence is Some,
        effect.state.owner_terminal is None,
        effect.state.caller_outcome is None,
        if owner_first {
            &&& effect.on_owner_terminal(
                first,
                run,
                run_first,
                CueTerminalOutcome::Completed,
                source,
                over_first,
            )
            &&& first.on_caller_finished(second, run_first, run_second, caller, over_second)
        } else {
            &&& effect.on_caller_finished(first, run, run_first, caller, over_first)
            &&& first.on_owner_terminal(
                second,
                run_first,
                run_second,
                CueTerminalOutcome::Completed,
                source,
                over_second,
            )
        },
    ensures
        !over_first,
        run_first == run,
        over_second,
        effect.with(
            EffectLifecycleState {
                owner_terminal: Some(CueTerminalOutcome::Completed),
                caller_outcome: Some(caller),
                ..effect.state
            },
        ).resolves(second, run, run_second, effect.state.returned_sequence->0, caller),
{
}

impl EffectLifecycleProducer {
    /// What the facts of the effect refer to is in the trace.
    pub open spec fn is_rooted(self, trace: Seq<crate::context::Attempt>) -> bool {
        &&& crate::references::begun_in(trace, self.lifecycle_span_id)
        &&& self.state.created_sequence matches Some(sequence) ==> crate::references::accepted_in(
            trace,
            sequence,
        )
        &&& self.state.returned_sequence matches Some(sequence) ==> crate::references::accepted_in(
            trace,
            sequence,
        )
    }

    /// Something happened to the effect that it reports. The end of its owner was reported before.
    pub open spec fn steps_to<A: SpanEventAdmission>(
        self,
        after: Self,
        run: DiagnosticRun<A>,
        run_after: DiagnosticRun<A>,
        over: bool,
    ) -> bool {
        ||| self.on_created(after, run, run_after, over)
        ||| exists|error: Option<ErrorClass>| #[trigger]
            self.on_construction_finished(after, run, run_after, error, over)
        ||| self.on_returned(after, run, run_after, over)
        ||| exists|outcome: CueTerminalOutcome, source: u64|
            crate::references::accepted_in(run.context.trace(), source)
                && #[trigger] self.on_owner_terminal(after, run, run_after, outcome, source, over)
        ||| exists|outcome: CueCallerOutcome| #[trigger]
            self.on_caller_finished(after, run, run_after, outcome, over)
        ||| self.on_cleared(after, run, run_after, over)
    }

    proof fn end_refers_back<A: SpanEventAdmission>(
        self,
        after: Self,
        run: DiagnosticRun<A>,
        run_after: DiagnosticRun<A>,
        terminal: EffectTerminal,
    )
        requires
            crate::references::refer_back(run.context.trace()),
            self.is_rooted(run.context.trace()),
            crate::references::accepted_in(run.context.trace(), terminal.causal_source),
            self.ends(after, run, run_after, terminal),
        ensures
            crate::references::refer_back(run_after.context.trace()),
            crate::references::goes_on(run.context.trace(), run_after.context.trace()),
            after.is_rooted(run_after.context.trace()),
    {
        crate::references::one_fact_refers_back(
            run_after.context,
            run.context,
            self.end_event(terminal),
        );
    }

    proof fn resolution_refers_back<A: SpanEventAdmission>(
        self,
        after: Self,
        run: DiagnosticRun<A>,
        run_after: DiagnosticRun<A>,
        returned_sequence: u64,
        outcome: CueCallerOutcome,
    )
        requires
            crate::references::refer_back(run.context.trace()),
            self.is_rooted(run.context.trace()),
            crate::references::accepted_in(run.context.trace(), returned_sequence),
            self.resolves(after, run, run_after, returned_sequence, outcome),
        ensures
            crate::references::refer_back(run_after.context.trace()),
            crate::references::goes_on(run.context.trace(), run_after.context.trace()),
            after.is_rooted(run_after.context.trace()),
    {
        if outcome is Consumed {
            let plan = self.consume_plan(returned_sequence);
            assert forall|accepted: Seq<u64>|
                #[trigger] crate::references::sound_after(plan, run.context.trace(), accepted) by {
                assert(accepted.len() >= 1 ==> accepted.contains(accepted[0]));
            }
            crate::references::sound_plans_refer_back(run_after.context, run.context, plan);
        } else {
            self.end_refers_back(
                after,
                run,
                run_after,
                EffectLifecycleProducer::abandoned(returned_sequence),
            );
        }
    }

    proof fn owner_end_refers_back<A: SpanEventAdmission>(
        self,
        after: Self,
        run: DiagnosticRun<A>,
        run_after: DiagnosticRun<A>,
        outcome: CueTerminalOutcome,
        source: u64,
        over: bool,
    )
        requires
            crate::references::refer_back(run.context.trace()),
            self.is_rooted(run.context.trace()),
            crate::references::accepted_in(run.context.trace(), source),
            self.on_owner_terminal(after, run, run_after, outcome, source, over),
            run_after.context != run.context,
        ensures
            crate::references::refer_back(run_after.context.trace()),
            crate::references::goes_on(run.context.trace(), run_after.context.trace()),
            after.is_rooted(run_after.context.trace()),
    {
        let owned = self.with(
            EffectLifecycleState { owner_terminal: Some(outcome), ..self.state },
        );
        if let Some(returned_sequence) = self.state.returned_sequence {
            if outcome is Completed {
                let caller = match self.state.caller_outcome {
                    Some(caller) => caller,
                    None => CueCallerOutcome::Abandoned,
                };
                owned.resolution_refers_back(after, run, run_after, returned_sequence, caller);
            }
        }
        if outcome !is Completed || self.state.returned_sequence is None {
            let terminal = match outcome {
                CueTerminalOutcome::Completed => EffectTerminal::spec_failed(
                    "effect-not-returned",
                    source,
                    CausalRelation::Return,
                ),
                CueTerminalOutcome::Cancelled => EffectTerminal::spec_cancelled(
                    "effect-owner-cancelled",
                    source,
                    CausalRelation::Handoff,
                ),
                CueTerminalOutcome::Failed => EffectTerminal::spec_failed(
                    "effect-owner-failed",
                    source,
                    CausalRelation::Return,
                ),
                CueTerminalOutcome::CleanupFailed => EffectTerminal::spec_failed(
                    "effect-owner-cleanup-failed",
                    source,
                    CausalRelation::Handoff,
                ),
            };
            owned.end_refers_back(after, run, run_after, terminal);
        }
    }
}

/// Whatever an effect reports refers only to what was reported before.
pub proof fn facts_of_an_effect_refer_back<A: SpanEventAdmission>(
    effect: EffectLifecycleProducer,
    after: EffectLifecycleProducer,
    run: DiagnosticRun<A>,
    run_after: DiagnosticRun<A>,
    over: bool,
)
    requires
        crate::references::refer_back(run.context.trace()),
        effect.is_rooted(run.context.trace()),
        effect.steps_to(after, run, run_after, over),
    ensures
        crate::references::refer_back(run_after.context.trace()),
        crate::references::goes_on(run.context.trace(), run_after.context.trace()),
        after.is_rooted(run_after.context.trace()),
{
    crate::references::what_began_stays_begun(run.context.trace(), run.context.trace());
    if run_after.context != run.context {
        if effect.on_created(after, run, run_after, over) {
            crate::references::one_fact_refers_back(
                run_after.context,
                run.context,
                effect.moment(
                    InstantDetail::EffectCreated(effect.detail),
                    effect.lifecycle_span_id,
                    CausalRelation::FollowsFrom,
                ),
            );
        } else if exists|error: Option<ErrorClass>| #[trigger]
            effect.on_construction_finished(after, run, run_after, error, over) {
            let error = choose|error: Option<ErrorClass>| #[trigger]
                effect.on_construction_finished(after, run, run_after, error, over);
            let done = effect.with(
                EffectLifecycleState { construction_finished: true, ..effect.state },
            );
            done.end_refers_back(after, run, run_after, effect.construction_end(error->0));
        } else if effect.on_returned(after, run, run_after, over) {
            crate::references::one_fact_refers_back(
                run_after.context,
                run.context,
                effect.moment(
                    InstantDetail::EffectReturned(effect.detail),
                    effect.state.created_sequence->0,
                    CausalRelation::Return,
                ),
            );
        } else if exists|outcome: CueTerminalOutcome, source: u64|
            crate::references::accepted_in(run.context.trace(), source)
                && #[trigger] effect.on_owner_terminal(
                after,
                run,
                run_after,
                outcome,
                source,
                over,
            ) {
            let (outcome, source) = choose|outcome: CueTerminalOutcome, source: u64|
                crate::references::accepted_in(run.context.trace(), source)
                    && #[trigger] effect.on_owner_terminal(
                    after,
                    run,
                    run_after,
                    outcome,
                    source,
                    over,
                );
            effect.owner_end_refers_back(after, run, run_after, outcome, source, over);
        } else if exists|outcome: CueCallerOutcome| #[trigger]
            effect.on_caller_finished(after, run, run_after, outcome, over) {
            let outcome = choose|outcome: CueCallerOutcome| #[trigger]
                effect.on_caller_finished(after, run, run_after, outcome, over);
            let called = effect.with(
                EffectLifecycleState { caller_outcome: Some(outcome), ..effect.state },
            );
            called.resolution_refers_back(
                after,
                run,
                run_after,
                effect.state.returned_sequence->0,
                outcome,
            );
        } else {
            let cleared = effect.with(EffectLifecycleState { cleared: true, ..effect.state });
            cleared.resolution_refers_back(
                after,
                run,
                run_after,
                effect.state.returned_sequence->0,
                CueCallerOutcome::Abandoned,
            );
        }
    }
}

/// An effect that starts within a cue whose span has begun has begun itself.
pub proof fn started_effect_refers_back<A: SpanEventAdmission>(
    effects: EffectRegistry,
    after: EffectRegistry,
    run: DiagnosticRun<A>,
    run_after: DiagnosticRun<A>,
    lineage: CueLineageSnapshot,
    construction: EffectConstruction,
    effect_id: RunLocalId,
)
    requires
        crate::references::refer_back(run.context.trace()),
        crate::references::begun_in(run.context.trace(), lineage.containing_span_id),
        effects.started_as(after, run, run_after, lineage, construction, effect_id),
    ensures
        crate::references::refer_back(run_after.context.trace()),
        crate::references::goes_on(run.context.trace(), run_after.context.trace()),
        !run_after.stopped_since(run) ==> after@.last().is_rooted(run_after.context.trace()),
{
    let detail = EffectDetail { effect_type: construction.effect_type->0 };
    let scope = DiagnosticScope {
        scene_id: lineage.cue_scope.scene_id,
        actor_id: lineage.cue_scope.actor_id,
        cue_id: lineage.cue_scope.cue_id,
        effect_id: Some(effect_id),
        ..DiagnosticScope::of_run()
    };
    crate::references::one_fact_refers_back(
        run_after.context,
        run.context,
        EffectRegistry::start_event(lineage, scope, detail),
    );
}

/// Two effects that started one after the other have different identifiers.
pub proof fn started_effects_are_apart<A: SpanEventAdmission>(
    effects: EffectRegistry,
    effects_after: EffectRegistry,
    later: EffectRegistry,
    later_after: EffectRegistry,
    run: DiagnosticRun<A>,
    run_after: DiagnosticRun<A>,
    lineage: CueLineageSnapshot,
    construction: EffectConstruction,
    first: RunLocalId,
    later_run: DiagnosticRun<A>,
    later_run_after: DiagnosticRun<A>,
    later_lineage: CueLineageSnapshot,
    later_construction: EffectConstruction,
    second: RunLocalId,
)
    requires
        effects.started_as(effects_after, run, run_after, lineage, construction, first),
        effects.next_effect_id.next < later.next_effect_id.next,
        later.started_as(
            later_after,
            later_run,
            later_run_after,
            later_lineage,
            later_construction,
            second,
        ),
    ensures
        first@ != second@,
{
    crate::identifier::numbered_ids_are_distinct(
        "effect-"@,
        effects.next_effect_id.next,
        later.next_effect_id.next,
    );
}

impl EffectLifecycleProducer {
    /// The facts are the end of the effect's span, with this outcome, and before it that the effect was
    /// consumed, exactly where the span completed.
    pub open spec fn told_end(self, facts: Seq<crate::context::Attempt>, outcome: SpanOutcome) -> bool {
        let end = if outcome is Completed { 1int } else { 0int };
        &&& 1 <= facts.len() <= end + 1
        &&& outcome is Completed ==> facts[0].candidate.body == (
        crate::event::EventBody::InstantOccurred {
            instant: InstantDetail::EffectConsumed(self.detail),
            containing_span_id: Some(self.lifecycle_span_id),
        })
        &&& facts.len() == end + 1 ==> (facts[end].candidate.body matches
            crate::event::EventBody::SpanFinished { span_id, outcome: told, error_code } && {
            &&& span_id == self.lifecycle_span_id
            &&& told == outcome
            &&& error_code is None <==> outcome is Completed
        })
        &&& facts.len() == 2 ==> facts[1].candidate.cause == Some(
            CausalLink {
                sequence: facts[0].reply->Ok_0,
                relation: CausalRelation::FollowsFrom,
            },
        )
        &&& facts.len() <= end ==> facts.last().reply is Err
        &&& forall|i: int|
            0 <= i < facts.len() ==> (#[trigger] facts[i]).candidate.scope == self.scope
    }

    proof fn end_is_told<A: SpanEventAdmission>(
        self,
        after: Self,
        run: DiagnosticRun<A>,
        run_after: DiagnosticRun<A>,
        terminal: EffectTerminal,
    )
        requires
            self.ends(after, run, run_after, terminal),
            terminal.outcome !is Completed && terminal.error_code is Some,
        ensures
            self.told_end(run_after.steps_since(run), terminal.outcome),
            run_after.steps_since(run)[0].candidate.cause == Some(
                CausalLink { sequence: terminal.causal_source, relation: terminal.relation },
            ),
            run_after.steps_since(run)[0].candidate.body->error_code->0@ == terminal.error_code->0@,
    {
        crate::references::lone_fact(run.context, run_after.context, self.end_event(terminal));
    }

    proof fn resolution_is_told<A: SpanEventAdmission>(
        self,
        after: Self,
        run: DiagnosticRun<A>,
        run_after: DiagnosticRun<A>,
        returned_sequence: u64,
        outcome: CueCallerOutcome,
    )
        requires
            self.resolves(after, run, run_after, returned_sequence, outcome),
        ensures
            outcome is Consumed ==> self.told_end(
                run_after.steps_since(run),
                SpanOutcome::Completed,
            ),
            outcome is Abandoned ==> self.told_end(
                run_after.steps_since(run),
                SpanOutcome::Cancelled,
            ),
            run_after.steps_since(run)[0].candidate.cause == Some(
                CausalLink { sequence: returned_sequence, relation: CausalRelation::Handoff },
            ),
            outcome is Abandoned ==> run_after.steps_since(run)[0].candidate.body->error_code->0@
                == "effect-consumer-abandoned"@,
    {
        if outcome is Consumed {
            let plan = self.consume_plan(returned_sequence);
            crate::references::planned_facts(run.context, run_after.context, plan);
            let facts = run_after.steps_since(run);
            let given = |i: int| crate::references::sequences(facts, i);
            assert(plan(given(0)) is Some);
            assert(plan(given(1)) is Some);
            assert(plan(given(2)) is None);
            assert(facts.len() <= 2) by {
                if facts.len() > 2 {
                    assert(plan(given(2)) == Some(facts[2].candidate));
                }
            }
        } else {
            self.end_is_told(
                after,
                run,
                run_after,
                EffectLifecycleProducer::abandoned(returned_sequence),
            );
        }
    }
}

/// An effect ends with its cue: it was cancelled exactly where its cue was cancelled, or where its cue
/// completed and no one took it. It failed where its cue or the cue's cleanup failed, or where its cue
/// completed and did not return it. It completed exactly where its cue completed, returned it, and its
/// caller consumed it. Until it is known whether someone takes it, it does not end.
pub proof fn effect_ends_with_its_cue<A: SpanEventAdmission>(
    effect: EffectLifecycleProducer,
    after: EffectLifecycleProducer,
    run: DiagnosticRun<A>,
    run_after: DiagnosticRun<A>,
    outcome: CueTerminalOutcome,
    source: u64,
    over: bool,
)
    requires
        effect.on_owner_terminal(after, run, run_after, outcome, source, over),
        !effect.state.producer_failed && !effect.state.finish_attempted,
        effect.state.owner_terminal is None,
    ensures
        ({
            let facts = run_after.steps_since(run);
            let taken = effect.state.returned_sequence is Some;
            let caller = effect.state.caller_outcome;
            &&& outcome is Cancelled ==> effect.told_end(facts, SpanOutcome::Cancelled)
            &&& outcome is Failed || outcome is CleanupFailed ==> effect.told_end(
                facts,
                SpanOutcome::Failed,
            )
            &&& outcome is Completed && !taken ==> effect.told_end(facts, SpanOutcome::Failed)
            &&& outcome is Completed && taken && caller == Some(CueCallerOutcome::Consumed)
                ==> effect.told_end(facts, SpanOutcome::Completed)
            &&& outcome is Completed && taken && (caller == Some(CueCallerOutcome::Abandoned) || (
            caller is None && effect.state.cleared)) ==> effect.told_end(
                facts,
                SpanOutcome::Cancelled,
            )
            &&& outcome is Completed && taken && caller is None && !effect.state.cleared
                ==> facts.len() == 0 && !over
            &&& over <==> facts.len() > 0
            &&& outcome !is Completed || !taken ==> facts[0].candidate.cause->0.sequence == source
            &&& outcome is Cancelled ==> facts[0].candidate.body->error_code->0@
                == "effect-owner-cancelled"@
            &&& outcome is Failed ==> facts[0].candidate.body->error_code->0@
                == "effect-owner-failed"@
            &&& outcome is CleanupFailed ==> facts[0].candidate.body->error_code->0@
                == "effect-owner-cleanup-failed"@
            &&& outcome is Completed && !taken ==> facts[0].candidate.body->error_code->0@
                == "effect-not-returned"@
            &&& outcome is Completed && taken && caller == Some(CueCallerOutcome::Abandoned)
                ==> facts[0].candidate.body->error_code->0@ == "effect-consumer-abandoned"@
            &&& after.state.owner_terminal == Some(outcome)
        }),
{
    let owned = effect.with(
        EffectLifecycleState { owner_terminal: Some(outcome), ..effect.state },
    );
    match outcome {
        CueTerminalOutcome::Completed => match effect.state.returned_sequence {
            None => owned.end_is_told(
                after,
                run,
                run_after,
                EffectTerminal::spec_failed("effect-not-returned", source, CausalRelation::Return),
            ),
            Some(returned_sequence) => match effect.state.caller_outcome {
                Some(caller) => {
                    owned.resolution_is_told(after, run, run_after, returned_sequence, caller)
                },
                None => if effect.state.cleared {
                    owned.resolution_is_told(
                        after,
                        run,
                        run_after,
                        returned_sequence,
                        CueCallerOutcome::Abandoned,
                    )
                } else {
                    assert(run_after.steps_since(run).len() == 0);
                },
            },
        },
        CueTerminalOutcome::Cancelled => owned.end_is_told(
            after,
            run,
            run_after,
            EffectTerminal::spec_cancelled(
                "effect-owner-cancelled",
                source,
                CausalRelation::Handoff,
            ),
        ),
        CueTerminalOutcome::Failed => owned.end_is_told(
            after,
            run,
            run_after,
            EffectTerminal::spec_failed("effect-owner-failed", source, CausalRelation::Return),
        ),
        CueTerminalOutcome::CleanupFailed => owned.end_is_told(
            after,
            run,
            run_after,
            EffectTerminal::spec_failed(
                "effect-owner-cleanup-failed",
                source,
                CausalRelation::Handoff,
            ),
        ),
    }
}

/// An effect that its cue has completed with and returned ends when its caller has decided: it
/// completed where the caller consumed it, and was cancelled where the caller abandoned it or where the
/// object is gone. Before that, what the caller did is kept, and nothing is told.
pub proof fn returned_effect_ends_with_its_caller<A: SpanEventAdmission>(
    effect: EffectLifecycleProducer,
    after: EffectLifecycleProducer,
    run: DiagnosticRun<A>,
    run_after: DiagnosticRun<A>,
    caller: Option<CueCallerOutcome>,
    over: bool,
)
    requires
        match caller {
            Some(outcome) => effect.on_caller_finished(after, run, run_after, outcome, over)
                && effect.state.caller_outcome is None,
            None => effect.on_cleared(after, run, run_after, over) && !effect.state.cleared,
        },
        !effect.state.producer_failed && !effect.state.finish_attempted,
    ensures
        ({
            let facts = run_after.steps_since(run);
            let decided = effect.state.returned_sequence is Some && effect.state.owner_terminal
                == Some(CueTerminalOutcome::Completed);
            &&& over <==> decided
            &&& decided && caller == Some(CueCallerOutcome::Consumed) ==> effect.told_end(
                facts,
                SpanOutcome::Completed,
            )
            &&& decided && caller != Some(CueCallerOutcome::Consumed) ==> effect.told_end(
                facts,
                SpanOutcome::Cancelled,
            ) && facts[0].candidate.body->error_code->0@ == "effect-consumer-abandoned"@
            &&& !decided ==> facts.len() == 0
            &&& caller is Some ==> after.state.caller_outcome == caller
            &&& caller is None ==> after.state.cleared
        }),
{
    let returned = effect.state.returned_sequence;
    if returned is Some && effect.state.owner_terminal == Some(CueTerminalOutcome::Completed) {
        match caller {
            Some(outcome) => effect.with(
                EffectLifecycleState { caller_outcome: Some(outcome), ..effect.state },
            ).resolution_is_told(after, run, run_after, returned->0, outcome),
            None => effect.with(
                EffectLifecycleState { cleared: true, ..effect.state },
            ).resolution_is_told(after, run, run_after, returned->0, CueCallerOutcome::Abandoned),
        }
    } else {
        assert(run_after.steps_since(run).len() == 0);
    }
}

/// An effect whose construction raised an error ends at once: it was cancelled exactly where the error
/// is a cancellation, and failed otherwise. One that was constructed goes on.
pub proof fn failed_construction_ends_the_effect<A: SpanEventAdmission>(
    effect: EffectLifecycleProducer,
    after: EffectLifecycleProducer,
    run: DiagnosticRun<A>,
    run_after: DiagnosticRun<A>,
    error: Option<ErrorClass>,
    over: bool,
)
    requires
        effect.on_construction_finished(after, run, run_after, error, over),
        !effect.state.producer_failed && !effect.state.finish_attempted,
        !effect.state.construction_finished,
    ensures
        error matches Some(raised) ==> {
            &&& over
            &&& run_after.steps_since(run)[0].candidate.body->error_code->0@ == if raised.cancelled {
                "effect-construction-cancelled"@
            } else {
                "effect-construction-failed"@
            }
            &&& raised.cancelled ==> effect.told_end(
                run_after.steps_since(run),
                SpanOutcome::Cancelled,
            )
            &&& !raised.cancelled ==> effect.told_end(
                run_after.steps_since(run),
                SpanOutcome::Failed,
            )
            &&& run_after.steps_since(run)[0].candidate.cause == Some(
                CausalLink {
                    sequence: match effect.state.created_sequence {
                        Some(created) => created,
                        None => effect.lifecycle_span_id,
                    },
                    relation: CausalRelation::FollowsFrom,
                },
            )
        },
        error is None ==> {
            &&& run_after.context == run.context
            &&& over <==> effect.state.created_sequence is None
            &&& after.state.construction_finished
            &&& effect.state.created_sequence is None && run.failure is None
                ==> run_after.failure is Some
        },
{
    if let Some(raised) = error {
        effect.with(
            EffectLifecycleState { construction_finished: true, ..effect.state },
        ).end_is_told(after, run, run_after, effect.construction_end(raised));
    }
}

/// An effect is created once, within its span, and returned once, after it was created and
/// constructed and before its cue has ended.
pub proof fn effect_is_created_and_returned_once<A: SpanEventAdmission>(
    effect: EffectLifecycleProducer,
    after: EffectLifecycleProducer,
    run: DiagnosticRun<A>,
    run_after: DiagnosticRun<A>,
    returned: bool,
    over: bool,
)
    requires
        if returned {
            effect.on_returned(after, run, run_after, over)
        } else {
            effect.on_created(after, run, run_after, over)
        },
        !effect.state.producer_failed && !effect.state.finish_attempted,
    ensures
        ({
            let facts = run_after.steps_since(run);
            let told = if returned {
                effect.state.returned_sequence is None && effect.state.created_sequence is Some
                    && effect.state.construction_finished && effect.state.owner_terminal is None
            } else {
                effect.state.created_sequence is None && !effect.state.construction_finished
            };
            &&& facts.len() == if told { 1int } else { 0int }
            &&& told ==> {
                &&& facts[0].candidate.scope == effect.scope
                &&& facts[0].candidate.body matches crate::event::EventBody::InstantOccurred {
                    instant,
                    containing_span_id,
                }
                &&& containing_span_id == Some(effect.lifecycle_span_id)
                &&& facts[0].candidate.cause matches Some(cause)
                &&& if returned {
                    &&& instant == InstantDetail::EffectReturned(effect.detail)
                    &&& cause.relation is Return
                    &&& Some(cause.sequence) == effect.state.created_sequence
                    &&& facts[0].reply is Ok ==> after.state.returned_sequence == Some(
                        facts[0].reply->Ok_0,
                    )
                } else {
                    &&& instant == InstantDetail::EffectCreated(effect.detail)
                    &&& cause.relation is FollowsFrom
                    &&& cause.sequence == effect.lifecycle_span_id
                    &&& facts[0].reply is Ok ==> after.state.created_sequence == Some(
                        facts[0].reply->Ok_0,
                    )
                }
                &&& over <==> facts[0].reply is Err
            }
            &&& !told && !(returned && effect.state.returned_sequence is Some) ==> over
                && after.state.producer_failed
        }),
{
    if returned && effect.state.returned_sequence is None && effect.state.created_sequence is Some
        && effect.state.construction_finished && effect.state.owner_terminal is None {
        crate::references::lone_fact(
            run.context,
            run_after.context,
            effect.moment(
                InstantDetail::EffectReturned(effect.detail),
                effect.state.created_sequence->0,
                CausalRelation::Return,
            ),
        );
    } else if !returned && effect.state.created_sequence is None
        && !effect.state.construction_finished {
        crate::references::lone_fact(
            run.context,
            run_after.context,
            effect.moment(
                InstantDetail::EffectCreated(effect.detail),
                effect.lifecycle_span_id,
                CausalRelation::FollowsFrom,
            ),
        );
    } else {
        assert(run_after.steps_since(run).len() == 0);
    }
}

/// An effect that starts hangs in the span of its cue's execution, under the scene, the actor and the
/// cue, with an identifier of its own and with its type.
pub proof fn started_effect_hangs_in_its_cue<A: SpanEventAdmission>(
    effects: EffectRegistry,
    after: EffectRegistry,
    run: DiagnosticRun<A>,
    run_after: DiagnosticRun<A>,
    lineage: CueLineageSnapshot,
    construction: EffectConstruction,
    effect_id: RunLocalId,
)
    requires
        effects.started_as(after, run, run_after, lineage, construction, effect_id),
    ensures
        ({
            let facts = run_after.steps_since(run);
            let scope = facts[0].candidate.scope;
            &&& facts.len() == 1
            &&& facts[0].candidate.body matches crate::event::EventBody::SpanStarted {
                detail: SpanStartDetail::EffectLifecycle(detail),
                parent_span_id,
            } && {
                &&& Some(detail.effect_type) == construction.effect_type
                    || construction.effect_type is None
                &&& parent_span_id == Some(lineage.containing_span_id)
            }
            &&& scope.scene_id == lineage.cue_scope.scene_id
            &&& scope.actor_id == lineage.cue_scope.actor_id
            &&& scope.cue_id == lineage.cue_scope.cue_id
            &&& scope.effect_id == Some(effect_id)
            &&& scope.act_id is None && scope.tool_call_id is None
            &&& facts[0].reply is Ok ==> {
                &&& after@.len() == effects@.len() + 1
                &&& after@.last().lifecycle_span_id == facts[0].reply->Ok_0
                &&& after@.last().identity_key == construction.identity_key
                &&& after@.last().owner_key == construction.owner_key
                &&& after@.last().run == lineage.run
                &&& after@.last().scope == scope
            }
            &&& facts[0].reply is Err ==> after@ == effects@
        }),
{
    let detail = EffectDetail { effect_type: construction.effect_type->0 };
    let scope = DiagnosticScope {
        scene_id: lineage.cue_scope.scene_id,
        actor_id: lineage.cue_scope.actor_id,
        cue_id: lineage.cue_scope.cue_id,
        effect_id: Some(effect_id),
        ..DiagnosticScope::of_run()
    };
    crate::references::lone_fact(
        run.context,
        run_after.context,
        EffectRegistry::start_event(lineage, scope, detail),
    );
}

/// What was reported in every run before is still there, and what comes after it.
pub open spec fn all_go_on<A: SpanEventAdmission>(
    runs: Seq<DiagnosticRun<A>>,
    after: Seq<DiagnosticRun<A>>,
) -> bool {
    &&& after.len() == runs.len()
    &&& forall|j: int|
        0 <= j < runs.len() ==> {
            &&& (#[trigger] runs[j]).context.trace().len() <= after[j].context.trace().len()
            &&& forall|k: int|
                0 <= k < runs[j].context.trace().len() ==> #[trigger] after[j].context.trace()[k]
                    == runs[j].context.trace()[k]
        }
}

/// A fact came to the run at `run` that ends the span of the effect with this outcome, or, where
/// the outcome is a completion, tells that the effect was consumed.
pub open spec fn end_was_told<A: SpanEventAdmission>(
    effect: EffectLifecycleProducer,
    runs: Seq<DiagnosticRun<A>>,
    after: Seq<DiagnosticRun<A>>,
    outcome: SpanOutcome,
) -> bool {
    let before = runs[effect.run as int].context.trace();
    let trace = after[effect.run as int].context.trace();
    exists|k: int|
        {
            &&& before.len() <= k < trace.len()
            &&& (#[trigger] trace[k]).candidate.scope == effect.scope
            &&& if outcome is Completed {
                trace[k].candidate.body == (crate::event::EventBody::InstantOccurred {
                    instant: InstantDetail::EffectConsumed(effect.detail),
                    containing_span_id: Some(effect.lifecycle_span_id),
                })
            } else {
                trace[k].candidate.body matches crate::event::EventBody::SpanFinished {
                    span_id,
                    outcome: told,
                    error_code,
                } && span_id == effect.lifecycle_span_id && told == outcome && error_code is Some
            }
        }
}

proof fn hearing_goes_on<A: SpanEventAdmission>(
    producer: EffectLifecycleProducer,
    producer_after: EffectLifecycleProducer,
    runs: Seq<DiagnosticRun<A>>,
    runs_after: Seq<DiagnosticRun<A>>,
    owner_key: usize,
    event: OwnerEvent,
    over: bool,
)
    requires
        EffectRegistry::told(
            producer,
            producer_after,
            runs,
            runs_after,
            owner_key,
            event,
            over,
        ),
    ensures
        all_go_on(runs, runs_after),
{
    let run = producer.run as int;
    if producer.owner_key == owner_key {
        assert(runs_after[run].context.trace().len() >= runs[run].context.trace().len());
        assert forall|k: int| 0 <= k < runs[run].context.trace().len() implies
            #[trigger] runs_after[run].context.trace()[k] == runs[run].context.trace()[k] by {
            if runs_after[run].context != runs[run].context {
                let begun = runs_after[run].context.trace().take(
                    runs[run].context.trace().len() as int,
                );
                assert(begun =~= runs[run].context.trace());
                assert(begun[k] == runs_after[run].context.trace()[k]);
            }
        }
    }
}

/// Each effect hears of its cue once, among what the others hear.
proof fn each_hears_once<A: SpanEventAdmission>(
    producers: Seq<EffectLifecycleProducer>,
    after: Seq<EffectLifecycleProducer>,
    runs: Seq<DiagnosticRun<A>>,
    runs_after: Seq<DiagnosticRun<A>>,
    owner_key: usize,
    event: OwnerEvent,
    place: int,
) -> (heard: (Seq<DiagnosticRun<A>>, Seq<DiagnosticRun<A>>, EffectLifecycleProducer, bool))
    requires
        EffectRegistry::all_told(producers, after, runs, runs_after, owner_key, event),
        0 <= place < producers.len(),
    ensures
        all_go_on(runs, heard.0),
        all_go_on(heard.1, runs_after),
        EffectRegistry::told(
            producers[place],
            heard.2,
            heard.0,
            heard.1,
            owner_key,
            event,
            heard.3,
        ),
    decreases producers.len(),
{
    let (after_init, runs_between, producer_after, over) = choose|
        after_init: Seq<EffectLifecycleProducer>,
        runs_between: Seq<DiagnosticRun<A>>,
        producer_after: EffectLifecycleProducer,
        over: bool,
    |
        {
            &&& EffectRegistry::all_told(
                producers.drop_last(),
                after_init,
                runs,
                runs_between,
                owner_key,
                event,
            )
            &&& #[trigger] EffectRegistry::told(
                producers.last(),
                producer_after,
                runs_between,
                runs_after,
                owner_key,
                event,
                over,
            )
            &&& #[trigger] EffectRegistry::kept(after, after_init, producer_after, over)
        };
    hearing_goes_on(
        producers.last(),
        producer_after,
        runs_between,
        runs_after,
        owner_key,
        event,
        over,
    );
    if place == producers.len() - 1 {
        all_hearing_goes_on(
            producers.drop_last(),
            after_init,
            runs,
            runs_between,
            owner_key,
            event,
        );
        (runs_between, runs_after, producer_after, over)
    } else {
        let heard = each_hears_once(
            producers.drop_last(),
            after_init,
            runs,
            runs_between,
            owner_key,
            event,
            place,
        );
        going_on_carries_on(heard.1, runs_between, runs_after);
        heard
    }
}

/// Whatever effects hear, what was reported before stays.
pub proof fn all_hearing_goes_on<A: SpanEventAdmission>(
    producers: Seq<EffectLifecycleProducer>,
    after: Seq<EffectLifecycleProducer>,
    runs: Seq<DiagnosticRun<A>>,
    runs_after: Seq<DiagnosticRun<A>>,
    owner_key: usize,
    event: OwnerEvent,
)
    requires
        EffectRegistry::all_told(producers, after, runs, runs_after, owner_key, event),
    ensures
        all_go_on(runs, runs_after),
    decreases producers.len(),
{
    if producers.len() > 0 {
        let (after_init, runs_between, producer_after, over) = choose|
            after_init: Seq<EffectLifecycleProducer>,
            runs_between: Seq<DiagnosticRun<A>>,
            producer_after: EffectLifecycleProducer,
            over: bool,
        |
            {
                &&& EffectRegistry::all_told(
                    producers.drop_last(),
                    after_init,
                    runs,
                    runs_between,
                    owner_key,
                    event,
                )
                &&& #[trigger] EffectRegistry::told(
                    producers.last(),
                    producer_after,
                    runs_between,
                    runs_after,
                    owner_key,
                    event,
                    over,
                )
                &&& #[trigger] EffectRegistry::kept(after, after_init, producer_after, over)
            };
        all_hearing_goes_on(
            producers.drop_last(),
            after_init,
            runs,
            runs_between,
            owner_key,
            event,
        );
        hearing_goes_on(
            producers.last(),
            producer_after,
            runs_between,
            runs_after,
            owner_key,
            event,
            over,
        );
        going_on_carries_on(runs, runs_between, runs_after);
    }
}

proof fn going_on_carries_on<A: SpanEventAdmission>(
    first: Seq<DiagnosticRun<A>>,
    second: Seq<DiagnosticRun<A>>,
    third: Seq<DiagnosticRun<A>>,
)
    requires
        all_go_on(first, second),
        all_go_on(second, third),
    ensures
        all_go_on(first, third),
{
    assert forall|j: int| 0 <= j < first.len() implies {
        &&& (#[trigger] first[j]).context.trace().len() <= third[j].context.trace().len()
        &&& forall|k: int|
            0 <= k < first[j].context.trace().len() ==> #[trigger] third[j].context.trace()[k]
                == first[j].context.trace()[k]
    } by {
        assert(second[j].context.trace().len() <= third[j].context.trace().len());
        assert forall|k: int| 0 <= k < first[j].context.trace().len() implies
            #[trigger] third[j].context.trace()[k] == first[j].context.trace()[k] by {
            assert(second[j].context.trace()[k] == first[j].context.trace()[k]);
        }
    }
}

/// What was told between is told at the end.
proof fn told_between_is_told<A: SpanEventAdmission>(
    effect: EffectLifecycleProducer,
    runs: Seq<DiagnosticRun<A>>,
    before: Seq<DiagnosticRun<A>>,
    between: Seq<DiagnosticRun<A>>,
    after: Seq<DiagnosticRun<A>>,
    outcome: SpanOutcome,
)
    requires
        effect.run < runs.len(),
        all_go_on(runs, before),
        all_go_on(between, after),
        before.len() == between.len(),
        before[effect.run as int].context.trace().len()
            <= between[effect.run as int].context.trace().len(),
        effect.told_end(
            between[effect.run as int].steps_since(before[effect.run as int]),
            outcome,
        ),
    ensures
        end_was_told(effect, runs, after, outcome),
{
    let run = effect.run as int;
    let facts = between[run].steps_since(before[run]);
    let k = before[run].context.trace().len() as int;
    assert(facts[0] == between[run].context.trace()[k]);
    assert(runs[run].context.trace().len() <= k);
    assert(between[run].context.trace().len() <= after[run].context.trace().len());
    assert(after[run].context.trace()[k] == between[run].context.trace()[k]);
    if outcome !is Completed {
        assert(facts.len() == 1);
    }
}

/// Every effect of a cue that ends hears of it and ends with it, in its own run: it was cancelled
/// where its cue was cancelled, or where its cue completed and no one takes it; it failed where its
/// cue or the cue's cleanup failed, or where its cue completed and did not return it; and it was
/// consumed where its cue completed and returned it and its caller consumed it. What is not of the
/// cue stays as it was.
pub proof fn effects_of_a_cue_end_with_it<A: SpanEventAdmission>(
    producers: Seq<EffectLifecycleProducer>,
    after: Seq<EffectLifecycleProducer>,
    runs: Seq<DiagnosticRun<A>>,
    runs_after: Seq<DiagnosticRun<A>>,
    owner_key: usize,
    outcome: CueTerminalOutcome,
    source: u64,
    place: int,
)
    requires
        EffectRegistry::all_told(
            producers,
            after,
            runs,
            runs_after,
            owner_key,
            OwnerEvent::Terminal { outcome, source },
        ),
        0 <= place < producers.len(),
        producers[place].owner_key == owner_key,
        producers[place].run < runs.len(),
        !producers[place].state.producer_failed && !producers[place].state.finish_attempted,
        producers[place].state.owner_terminal is None,
    ensures
        ({
            let effect = producers[place];
            let taken = effect.state.returned_sequence is Some;
            let caller = effect.state.caller_outcome;
            &&& outcome is Cancelled ==> end_was_told(
                effect,
                runs,
                runs_after,
                SpanOutcome::Cancelled,
            )
            &&& outcome is Failed || outcome is CleanupFailed || (outcome is Completed && !taken)
                ==> end_was_told(effect, runs, runs_after, SpanOutcome::Failed)
            &&& outcome is Completed && taken && caller == Some(CueCallerOutcome::Consumed)
                ==> end_was_told(effect, runs, runs_after, SpanOutcome::Completed)
            &&& outcome is Completed && taken && caller == Some(CueCallerOutcome::Abandoned)
                ==> end_was_told(effect, runs, runs_after, SpanOutcome::Cancelled)
        }),
{
    let effect = producers[place];
    let run = effect.run as int;
    let (before, between, effect_after, over) = each_hears_once(
        producers,
        after,
        runs,
        runs_after,
        owner_key,
        OwnerEvent::Terminal { outcome, source },
        place,
    );
    hearing_goes_on(
        effect,
        effect_after,
        before,
        between,
        owner_key,
        OwnerEvent::Terminal { outcome, source },
        over,
    );
    assert(before[run].context.trace().len() <= between[run].context.trace().len());
    effect_ends_with_its_cue(
        effect,
        effect_after,
        before[run],
        between[run],
        outcome,
        source,
        over,
    );
    let facts = between[run].steps_since(before[run]);
    if effect.told_end(facts, SpanOutcome::Cancelled) {
        told_between_is_told(effect, runs, before, between, runs_after, SpanOutcome::Cancelled);
    }
    if effect.told_end(facts, SpanOutcome::Failed) {
        told_between_is_told(effect, runs, before, between, runs_after, SpanOutcome::Failed);
    }
    if effect.told_end(facts, SpanOutcome::Completed) {
        told_between_is_told(effect, runs, before, between, runs_after, SpanOutcome::Completed);
    }
}

/// Every effect that a completed cue has returned ends with what the cue's caller does, in its own
/// run: it was consumed where the caller consumed it and was cancelled where the caller abandoned
/// it.
pub proof fn returned_effects_end_with_the_caller<A: SpanEventAdmission>(
    producers: Seq<EffectLifecycleProducer>,
    after: Seq<EffectLifecycleProducer>,
    runs: Seq<DiagnosticRun<A>>,
    runs_after: Seq<DiagnosticRun<A>>,
    owner_key: usize,
    caller: CueCallerOutcome,
    place: int,
)
    requires
        EffectRegistry::all_told(
            producers,
            after,
            runs,
            runs_after,
            owner_key,
            OwnerEvent::CallerFinished { caller },
        ),
        0 <= place < producers.len(),
        producers[place].owner_key == owner_key,
        producers[place].run < runs.len(),
        !producers[place].state.producer_failed && !producers[place].state.finish_attempted,
        producers[place].state.caller_outcome is None,
        producers[place].state.returned_sequence is Some,
        producers[place].state.owner_terminal == Some(CueTerminalOutcome::Completed),
    ensures
        caller is Consumed ==> end_was_told(
            producers[place],
            runs,
            runs_after,
            SpanOutcome::Completed,
        ),
        caller is Abandoned ==> end_was_told(
            producers[place],
            runs,
            runs_after,
            SpanOutcome::Cancelled,
        ),
{
    let effect = producers[place];
    let run = effect.run as int;
    let event = OwnerEvent::CallerFinished { caller };
    let (before, between, effect_after, over) = each_hears_once(
        producers,
        after,
        runs,
        runs_after,
        owner_key,
        event,
        place,
    );
    hearing_goes_on(effect, effect_after, before, between, owner_key, event, over);
    assert(before[run].context.trace().len() <= between[run].context.trace().len());
    returned_effect_ends_with_its_caller(
        effect,
        effect_after,
        before[run],
        between[run],
        Some(caller),
        over,
    );
    let outcome = if caller is Consumed {
        SpanOutcome::Completed
    } else {
        SpanOutcome::Cancelled
    };
    told_between_is_told(effect, runs, before, between, runs_after, outcome);
}

/// An effect starts exactly where it is not there already, there is a number left for it, its cue
/// names its scene, its actor and itself, and its type can be written down. What is missing first
/// is what is told.
pub proof fn effects_start_where_their_cue_names_all(
    effects: EffectRegistry,
    lineage: CueLineageSnapshot,
    construction: EffectConstruction,
)
    ensures
        ({
            let problem = effects.start_problem(lineage, construction);
            let there = exists|i: int|
                0 <= i < effects@.len() && (#[trigger] effects@[i]).identity_key
                    == construction.identity_key;
            let scope = lineage.cue_scope;
            &&& problem is None <==> !there && effects.next_effect_id.next < u64::MAX
                && scope.scene_id is Some && scope.actor_id is Some && scope.cue_id is Some
                && construction.effect_type is Some
            &&& there ==> problem->0@ == "effect.lifecycle-already-started"@
            &&& !there && effects.next_effect_id.next == u64::MAX ==> problem->0@
                == "effect.identifier-exhausted"@
            &&& !there && effects.next_effect_id.next < u64::MAX ==> {
                &&& scope.scene_id is None ==> problem->0@ == "effect.scene-identifier-unavailable"@
                &&& scope.scene_id is Some && scope.actor_id is None ==> problem->0@
                    == "effect.actor-identifier-unavailable"@
                &&& scope.scene_id is Some && scope.actor_id is Some && scope.cue_id is None
                    ==> problem->0@ == "effect.cue-identifier-unavailable"@
                &&& scope.scene_id is Some && scope.actor_id is Some && scope.cue_id is Some
                    && construction.effect_type is None ==> problem->0@
                    == "effect.type-name-not-utf8"@
            }
            &&& effects.number_after(construction) == effects.next_effect_id.next + (if there
                || effects.next_effect_id.next == u64::MAX {
                0int
            } else {
                1int
            })
        }),
{
    if effects.contains(construction.identity_key) {
        let place = choose|place: int| #[trigger]
            effects.holds_at(place, construction.identity_key);
        assert(effects@[place].identity_key == construction.identity_key);
    } else {
        assert forall|i: int| 0 <= i < effects@.len() implies (#[trigger] effects@[i]).identity_key
            != construction.identity_key by {
            assert(!effects.holds_at(i, construction.identity_key));
        }
    }
}

/// Effects bear identifiers of their kind, with their number.
pub proof fn effects_are_numbered<A: SpanEventAdmission>(
    effects: EffectRegistry,
    after: EffectRegistry,
    run: DiagnosticRun<A>,
    run_after: DiagnosticRun<A>,
    lineage: CueLineageSnapshot,
    construction: EffectConstruction,
    effect_id: RunLocalId,
)
    requires
        effects.started_as(after, run, run_after, lineage, construction, effect_id),
    ensures
        effect_id@ =~= "effect-"@ + crate::identifier::decimal(effects.next_effect_id.next as nat),
{
}

} // verus!
