//! The lifecycle of an act: its caller, the agent's turn, and the usage that closes it.
use crate::agent::{
    AgentSessionDiagnosticMetadata, AgentTurnDiagnosticIdentity, AgentTurnDiagnosticMetadata,
    AgentTurnDiagnosticOutcome, AgentTurnDiagnosticSettlement,
};
use crate::context::{Attempt, DiagnosticProducerError, SpanEventAdmission};
use crate::event::{
    caused_by, copy_id, copy_text, follows_from, stable_code, AgentSessionDetail, CausalLink,
    CausalRelation, CounterKind, DiagnosticScope, EventCandidate, InstantDetail, RunLocalId,
    SpanOutcome, SpanStartDetail, TerminalSpan,
};
use crate::python_error::ErrorClass;
use crate::run::DiagnosticRun;
use crate::usage_finalization::{
    UsageFinalizationAck, UsageFinalizationIdentity, UsageFinalizationSettlement,
    UsageFinalizationSlot,
};
use vstd::prelude::*;

verus! {

/// What the runtime announces of an act.
#[derive(Clone, Copy, Debug, PartialEq, Eq, Structural)]
pub enum ActHook {
    Admitted,
    DriverStarted,
    CancelRequested,
}

/// How the caller of an act left it.
#[derive(Clone, Copy, Debug, PartialEq, Eq, Structural)]
pub enum ActCallerExit {
    Returned,
    AdmissionFailed,
    Cancelled,
    Closed,
    Cleared,
}

/// Where a fact of an act hangs in the run.
#[derive(Debug, PartialEq, Eq)]
pub struct ActLineageSnapshot {
    pub run: usize,
    pub act_scope: DiagnosticScope,
    pub event_scope: DiagnosticScope,
    pub act_span_id: u64,
    pub containing_span_id: u64,
}

/// What is known of an act: the sequence of each fact that was reported of it, and how its parts
/// ended.
#[derive(Debug, PartialEq, Eq)]
pub struct ActLifecycleState {
    pub act_span_id: Option<u64>,
    pub caller_span_id: Option<u64>,
    pub admitted_sequence: Option<u64>,
    pub waiting_sequence: Option<u64>,
    pub prompt_sequence: Option<u64>,
    pub turn_span_id: Option<u64>,
    pub turn_scope: Option<DiagnosticScope>,
    pub turn_activity_sequence: Option<u64>,
    pub cancel_sequence: Option<u64>,
    pub handoff_sequence: Option<u64>,
    pub turn_terminal_sequence: Option<u64>,
    pub turn_terminal: Option<TerminalSpan>,
    pub settlement: Option<UsageFinalizationSettlement>,
    pub caller_terminal: Option<TerminalSpan>,
    pub usage_slot: Option<UsageFinalizationSlot>,
    pub settlement_notified: bool,
    pub usage_ack_sequence: Option<u64>,
    pub finish_attempted: bool,
    pub producer_failed: bool,
}

/// Reports the lifecycle of one act. `run` is the place of the run that it reports through.
#[derive(Debug, PartialEq, Eq)]
pub struct ActLifecycleProducer {
    pub run: usize,
    pub control_key: usize,
    pub act_id: RunLocalId,
    pub identity: AgentTurnDiagnosticIdentity,
    pub session: AgentSessionDiagnosticMetadata,
    pub act_scope: DiagnosticScope,
    pub usage: UsageFinalizationIdentity,
    pub state: ActLifecycleState,
}

/// The first of two that is there.
pub open spec fn spec_either(first: Option<u64>, second: Option<u64>) -> Option<u64> {
    if first is Some {
        first
    } else {
        second
    }
}

fn either(first: Option<u64>, second: Option<u64>) -> (found: Option<u64>)
    ensures
        found == spec_either(first, second),
{
    if first.is_some() {
        first
    } else {
        second
    }
}

impl ActLifecycleState {
    /// An act of which nothing was reported yet.
    pub open spec fn fresh(usage_slot: UsageFinalizationSlot) -> Self {
        ActLifecycleState {
            act_span_id: None,
            caller_span_id: None,
            admitted_sequence: None,
            waiting_sequence: None,
            prompt_sequence: None,
            turn_span_id: None,
            turn_scope: None,
            turn_activity_sequence: None,
            cancel_sequence: None,
            handoff_sequence: None,
            turn_terminal_sequence: None,
            turn_terminal: None,
            settlement: None,
            caller_terminal: None,
            usage_slot: Some(usage_slot),
            settlement_notified: false,
            usage_ack_sequence: None,
            finish_attempted: false,
            producer_failed: false,
        }
    }

    pub fn new(usage_slot: UsageFinalizationSlot) -> (state: Self)
        ensures
            state == ActLifecycleState::fresh(usage_slot),
    {
        ActLifecycleState {
            act_span_id: None,
            caller_span_id: None,
            admitted_sequence: None,
            waiting_sequence: None,
            prompt_sequence: None,
            turn_span_id: None,
            turn_scope: None,
            turn_activity_sequence: None,
            cancel_sequence: None,
            handoff_sequence: None,
            turn_terminal_sequence: None,
            turn_terminal: None,
            settlement: None,
            caller_terminal: None,
            usage_slot: Some(usage_slot),
            settlement_notified: false,
            usage_ack_sequence: None,
            finish_attempted: false,
            producer_failed: false,
        }
    }
}

/// The usage settlement that the agent runtime's settlement stands for.
pub open spec fn spec_usage_settlement(settlement: AgentTurnDiagnosticSettlement) ->
    UsageFinalizationSettlement {
    match settlement {
        AgentTurnDiagnosticSettlement::NotSubmitted => UsageFinalizationSettlement::NotSubmitted,
        AgentTurnDiagnosticSettlement::Authoritative => UsageFinalizationSettlement::Authoritative,
        AgentTurnDiagnosticSettlement::Unknown => UsageFinalizationSettlement::Unknown,
    }
}

pub fn usage_settlement(settlement: AgentTurnDiagnosticSettlement) -> (usage:
    UsageFinalizationSettlement)
    ensures
        usage == spec_usage_settlement(settlement),
{
    match settlement {
        AgentTurnDiagnosticSettlement::NotSubmitted => UsageFinalizationSettlement::NotSubmitted,
        AgentTurnDiagnosticSettlement::Authoritative => UsageFinalizationSettlement::Authoritative,
        AgentTurnDiagnosticSettlement::Unknown => UsageFinalizationSettlement::Unknown,
    }
}

/// How a turn's span ends. A completed turn carries no code.
pub open spec fn spec_terminal_span(
    outcome: AgentTurnDiagnosticOutcome,
    error_code: Option<&'static str>,
) -> TerminalSpan {
    match outcome {
        AgentTurnDiagnosticOutcome::Completed => TerminalSpan::spec_completed(),
        AgentTurnDiagnosticOutcome::Cancelled => TerminalSpan {
            outcome: SpanOutcome::Cancelled,
            error_code,
        },
        AgentTurnDiagnosticOutcome::Failed => TerminalSpan {
            outcome: SpanOutcome::Failed,
            error_code,
        },
    }
}

pub fn terminal_span(
    outcome: AgentTurnDiagnosticOutcome,
    error_code: Option<&'static str>,
) -> (terminal: TerminalSpan)
    ensures
        terminal == spec_terminal_span(outcome, error_code),
{
    match outcome {
        AgentTurnDiagnosticOutcome::Completed => TerminalSpan::completed(),
        AgentTurnDiagnosticOutcome::Cancelled => TerminalSpan {
            outcome: SpanOutcome::Cancelled,
            error_code,
        },
        AgentTurnDiagnosticOutcome::Failed => TerminalSpan {
            outcome: SpanOutcome::Failed,
            error_code,
        },
    }
}

/// A turn carries an error code exactly where it did not complete.
pub fn terminal_detail_is_valid(
    outcome: AgentTurnDiagnosticOutcome,
    error_code: Option<&'static str>,
) -> (valid: bool)
    ensures
        valid == (error_code is None <==> outcome is Completed),
{
    match outcome {
        AgentTurnDiagnosticOutcome::Completed => error_code.is_none(),
        AgentTurnDiagnosticOutcome::Cancelled | AgentTurnDiagnosticOutcome::Failed => {
            error_code.is_some()
        },
    }
}

/// How the caller's span ends. A return is a success only where it carries the value of a
/// coroutine.
pub open spec fn spec_caller_terminal(
    exit: ActCallerExit,
    error: Option<ErrorClass>,
) -> TerminalSpan {
    match exit {
        ActCallerExit::Returned => match error {
            Some(error) => if error.stop_iteration {
                TerminalSpan::spec_completed()
            } else if error.cancelled {
                TerminalSpan::spec_cancelled("act-caller-cancelled")
            } else {
                TerminalSpan::spec_failed("act-caller-failed")
            },
            None => TerminalSpan::spec_failed("act-caller-failed"),
        },
        ActCallerExit::AdmissionFailed => TerminalSpan::spec_failed("act-caller-failed"),
        ActCallerExit::Cancelled | ActCallerExit::Closed | ActCallerExit::Cleared => {
            TerminalSpan::spec_cancelled("act-caller-cancelled")
        },
    }
}

pub fn caller_terminal(exit: ActCallerExit, error: Option<ErrorClass>) -> (terminal: TerminalSpan)
    ensures
        terminal == spec_caller_terminal(exit, error),
{
    match exit {
        ActCallerExit::Returned => match error {
            Some(error) => if error.stop_iteration {
                TerminalSpan::completed()
            } else if error.cancelled {
                TerminalSpan::cancelled("act-caller-cancelled")
            } else {
                TerminalSpan::failed("act-caller-failed")
            },
            None => TerminalSpan::failed("act-caller-failed"),
        },
        ActCallerExit::AdmissionFailed => TerminalSpan::failed("act-caller-failed"),
        ActCallerExit::Cancelled | ActCallerExit::Closed | ActCallerExit::Cleared => {
            TerminalSpan::cancelled("act-caller-cancelled")
        },
    }
}

/// How the act ends. A turn that did not complete decides, then a caller that failed, then the
/// turn, then the caller.
pub open spec fn spec_act_terminal(caller: TerminalSpan, remote: Option<TerminalSpan>) ->
    TerminalSpan {
    match remote {
        Some(remote) => if remote.outcome is Completed && caller.outcome is Failed {
            caller
        } else {
            remote
        },
        None => caller,
    }
}

pub fn act_terminal(caller: TerminalSpan, remote: Option<TerminalSpan>) -> (terminal: TerminalSpan)
    ensures
        terminal == spec_act_terminal(caller, remote),
{
    match remote {
        Some(remote) => {
            if !matches!(remote.outcome, SpanOutcome::Completed) {
                remote
            } else if matches!(caller.outcome, SpanOutcome::Failed) {
                caller
            } else {
                remote
            }
        },
        None => caller,
    }
}

/// The scope of an act within its cue, or what is missing for it.
pub open spec fn spec_scope_for_act(
    cue_scope: DiagnosticScope,
    act_id: RunLocalId,
    generation: Option<u64>,
) -> Result<DiagnosticScope, &'static str> {
    if cue_scope.scene_id is None {
        Err("act.scene-identifier-unavailable")
    } else if cue_scope.actor_id is None {
        Err("act.actor-identifier-unavailable")
    } else if cue_scope.cue_id is None {
        Err("act.cue-identifier-unavailable")
    } else {
        Ok(
            DiagnosticScope {
                scene_id: cue_scope.scene_id,
                actor_id: cue_scope.actor_id,
                cue_id: cue_scope.cue_id,
                effect_id: None,
                act_id: Some(act_id),
                tool_call_id: None,
                session_generation: generation,
            },
        )
    }
}

pub fn scope_for_act(
    cue_scope: &DiagnosticScope,
    act_id: RunLocalId,
    generation: Option<u64>,
) -> (scope: Result<DiagnosticScope, &'static str>)
    ensures
        scope == spec_scope_for_act(*cue_scope, act_id, generation),
{
    if cue_scope.scene_id.is_none() {
        return Err("act.scene-identifier-unavailable");
    }
    if cue_scope.actor_id.is_none() {
        return Err("act.actor-identifier-unavailable");
    }
    if cue_scope.cue_id.is_none() {
        return Err("act.cue-identifier-unavailable");
    }
    Ok(
        DiagnosticScope {
            scene_id: copy_id(&cue_scope.scene_id),
            actor_id: copy_id(&cue_scope.actor_id),
            cue_id: copy_id(&cue_scope.cue_id),
            effect_id: None,
            act_id: Some(act_id),
            tool_call_id: None,
            session_generation: generation,
        },
    )
}

/// The scope of a turn within its act.
pub open spec fn spec_scope_for_turn(
    act_scope: DiagnosticScope,
    metadata: AgentTurnDiagnosticMetadata,
) -> DiagnosticScope {
    DiagnosticScope {
        effect_id: None,
        tool_call_id: None,
        session_generation: Some(metadata.session_generation),
        ..act_scope
    }
}

fn scope_for_turn(act_scope: &DiagnosticScope, metadata: &AgentTurnDiagnosticMetadata) -> (scope:
    DiagnosticScope)
    ensures
        scope == spec_scope_for_turn(*act_scope, *metadata),
{
    DiagnosticScope {
        scene_id: copy_id(&act_scope.scene_id),
        actor_id: copy_id(&act_scope.actor_id),
        cue_id: copy_id(&act_scope.cue_id),
        effect_id: None,
        act_id: copy_id(&act_scope.act_id),
        tool_call_id: None,
        session_generation: Some(metadata.session_generation),
    }
}

pub open spec fn spec_session_detail(metadata: AgentSessionDiagnosticMetadata) ->
    AgentSessionDetail {
    AgentSessionDetail {
        provider: metadata.provider,
        model: metadata.effective_model,
        effort: metadata.effective_effort,
    }
}

fn session_detail(metadata: &AgentSessionDiagnosticMetadata) -> (detail: AgentSessionDetail)
    ensures
        detail == spec_session_detail(*metadata),
{
    AgentSessionDetail {
        provider: metadata.provider.clone(),
        model: copy_text(&metadata.effective_model),
        effort: copy_text(&metadata.effective_effort),
    }
}

pub open spec fn spec_turn_session_detail(metadata: AgentTurnDiagnosticMetadata) ->
    AgentSessionDetail {
    AgentSessionDetail {
        provider: metadata.provider,
        model: Some(metadata.effective_model),
        effort: metadata.effective_effort,
    }
}

fn turn_session_detail(metadata: &AgentTurnDiagnosticMetadata) -> (detail: AgentSessionDetail)
    ensures
        detail == spec_turn_session_detail(*metadata),
{
    AgentSessionDetail {
        provider: metadata.provider.clone(),
        model: Some(metadata.effective_model.clone()),
        effort: copy_text(&metadata.effective_effort),
    }
}

impl ActLifecycleProducer {
    /// The slot that the act has not given away is its own.
    pub open spec fn keeps_own_slot(self) -> bool {
        &&& self.usage.act_id@ == self.act_id@
        &&& self.state.usage_slot matches Some(slot) ==> {
            &&& slot.act_id@ == self.act_id@
            &&& slot.serial == self.usage.serial
        }
    }

    /// What holds of an act until it has failed: its spans come together, its turn comes as a
    /// whole, and its usage knows what the act knows.
    pub open spec fn wf(self) -> bool {
        let state = self.state;
        &&& self.keeps_own_slot()
        &&& !state.producer_failed ==> {
            &&& state.act_span_id is Some == state.caller_span_id is Some
            &&& state.act_span_id is Some == state.admitted_sequence is Some
            &&& state.waiting_sequence is Some ==> state.admitted_sequence is Some
            &&& state.prompt_sequence is Some ==> state.waiting_sequence is Some
            &&& state.prompt_sequence is Some == state.turn_span_id is Some
            &&& state.prompt_sequence is Some == state.turn_scope is Some
            &&& state.prompt_sequence is Some == state.turn_activity_sequence is Some
            &&& state.prompt_sequence is Some == self.usage.prompt_submitted
            &&& state.turn_terminal is Some ==> state.turn_span_id is Some
            &&& state.turn_terminal is Some == state.turn_terminal_sequence is Some
            &&& self.usage.settlement == state.settlement
            &&& state.settlement matches Some(settlement) ==> {
                &&& self.usage.allows(settlement)
                &&& settlement !is NotSubmitted ==> state.turn_terminal is Some
            }
            &&& state.turn_terminal is Some ==> state.settlement is Some
            &&& state.caller_terminal is Some ==> state.caller_span_id is Some
            &&& state.usage_ack_sequence is Some ==> state.settlement is Some
            &&& state.finish_attempted ==> {
                &&& state.act_span_id is Some
                &&& state.caller_terminal is Some
                &&& state.settlement is Some
                &&& state.usage_ack_sequence is Some
            }
        }
    }

    /// The act after it has failed.
    pub open spec fn failed(self) -> Self {
        ActLifecycleProducer {
            state: ActLifecycleState { producer_failed: true, ..self.state },
            ..self
        }
    }

    /// A hook is out of place: the act has failed, and the run knows the code.
    pub open spec fn fails<A: SpanEventAdmission>(
        self,
        after: Self,
        run: DiagnosticRun<A>,
        run_after: DiagnosticRun<A>,
        code: &'static str,
    ) -> bool {
        &&& after == self.failed()
        &&& run_after == run.with_state_failure(code)
    }

    /// The act's span, the caller's span within it, and the admission.
    pub open spec fn start_plan(self) -> spec_fn(Seq<u64>) -> Option<EventCandidate> {
        |accepted: Seq<u64>|
            if accepted.len() == 0 {
                Some(
                    EventCandidate::started(
                        self.act_scope,
                        SpanStartDetail::ActLifecycle(spec_session_detail(self.session)),
                        None,
                        None,
                    ),
                )
            } else if accepted.len() == 1 {
                Some(
                    EventCandidate::started(
                        self.act_scope,
                        SpanStartDetail::ActCaller,
                        Some(accepted[0]),
                        None,
                    ),
                )
            } else if accepted.len() == 2 {
                Some(
                    EventCandidate::instant(
                        self.act_scope,
                        InstantDetail::ActAdmitted,
                        Some(accepted[0]),
                        CausalLink::after(accepted[1]),
                    ),
                )
            } else {
                None
            }
    }

    /// What the start of an act leaves behind.
    pub open spec fn is_started<A: SpanEventAdmission>(
        self,
        after: Self,
        run: DiagnosticRun<A>,
        run_after: DiagnosticRun<A>,
    ) -> bool {
        after == (ActLifecycleProducer {
            state: ActLifecycleState {
                act_span_id: Attempt::nth(run_after.accepted_since(run), 0),
                caller_span_id: Attempt::nth(run_after.accepted_since(run), 1),
                admitted_sequence: Attempt::nth(run_after.accepted_since(run), 2),
                producer_failed: run_after.stopped_since(run),
                ..self.state
            },
            ..self
        })
    }

    /// Begins to report the act.
    pub fn start<A: SpanEventAdmission>(&mut self, run: &mut DiagnosticRun<A>)
        requires
            old(self).wf(),
            old(self).state.act_span_id is None,
            !old(self).state.producer_failed,
        ensures
            final(self).wf(),
            final(run).follows(*old(run), old(self).start_plan()),
            old(self).is_started(*final(self), *old(run), *final(run)),
    {
        let act_span_id = match run.context.start_span(
            self.act_scope.clone(),
            SpanStartDetail::ActLifecycle(session_detail(&self.session)),
            None,
        ) {
            Ok(span_id) => span_id,
            Err(error) => {
                self.fail_diagnostic(run, error);
                return;
            },
        };
        self.state.act_span_id = Some(act_span_id);
        let caller_span_id = match run.context.start_span(
            self.act_scope.clone(),
            SpanStartDetail::ActCaller,
            Some(act_span_id),
        ) {
            Ok(span_id) => span_id,
            Err(error) => {
                self.fail_diagnostic(run, error);
                return;
            },
        };
        self.state.caller_span_id = Some(caller_span_id);
        let admitted_sequence = match run.context.emit_instant_with_causes(
            self.act_scope.clone(),
            InstantDetail::ActAdmitted,
            Some(act_span_id),
            follows_from(caller_span_id),
        ) {
            Ok(sequence) => sequence,
            Err(error) => {
                self.fail_diagnostic(run, error);
                return;
            },
        };
        self.state.admitted_sequence = Some(admitted_sequence);
    }

    pub open spec fn on_driver_started<A: SpanEventAdmission>(
        self,
        after: Self,
        run: DiagnosticRun<A>,
        run_after: DiagnosticRun<A>,
    ) -> bool {
        if self.state.producer_failed {
            after == self && run_after == run
        } else {
            match (self.state.act_span_id, self.state.admitted_sequence) {
                (Some(act_span_id), Some(admitted_sequence)) => {
                    if self.state.waiting_sequence is Some || self.state.caller_terminal is Some {
                        self.fails(after, run, run_after, "act.driver-transition-invalid")
                    } else {
                        &&& run_after.follows(
                            run,
                            EventCandidate::instant(
                                self.act_scope,
                                InstantDetail::ActWaitingReady,
                                Some(act_span_id),
                                CausalLink::after(admitted_sequence),
                            ).alone(),
                        )
                        &&& after == (ActLifecycleProducer {
                            state: ActLifecycleState {
                                waiting_sequence: Attempt::nth(run_after.accepted_since(run), 0),
                                producer_failed: run_after.stopped_since(run),
                                ..self.state
                            },
                            ..self
                        })
                    }
                },
                _ => self.fails(after, run, run_after, "act.driver-before-lifecycle"),
            }
        }
    }

    /// The driver waits for the agent.
    pub fn driver_started<A: SpanEventAdmission>(&mut self, run: &mut DiagnosticRun<A>)
        requires
            old(self).wf(),
        ensures
            final(self).wf(),
            old(self).on_driver_started(*final(self), *old(run), *final(run)),
    {
        if self.state.producer_failed {
            return;
        }
        let (act_span_id, admitted_sequence) = match (
            self.state.act_span_id,
            self.state.admitted_sequence,
        ) {
            (Some(act_span_id), Some(admitted_sequence)) => (act_span_id, admitted_sequence),
            _ => {
                self.fail_state(run, "act.driver-before-lifecycle");
                return;
            },
        };
        if self.state.waiting_sequence.is_some() || self.state.caller_terminal.is_some() {
            self.fail_state(run, "act.driver-transition-invalid");
            return;
        }
        match run.context.emit_instant_with_causes(
            self.act_scope.clone(),
            InstantDetail::ActWaitingReady,
            Some(act_span_id),
            follows_from(admitted_sequence),
        ) {
            Ok(sequence) => self.state.waiting_sequence = Some(sequence),
            Err(error) => self.fail_diagnostic(run, error),
        }
    }

    /// The latest fact of the act that a cancellation comes after.
    pub open spec fn latest_for_cancel(self) -> Option<u64> {
        spec_either(
            self.state.turn_terminal_sequence,
            spec_either(
                self.state.handoff_sequence,
                spec_either(
                    self.state.turn_activity_sequence,
                    spec_either(
                        self.state.prompt_sequence,
                        spec_either(self.state.waiting_sequence, self.state.admitted_sequence),
                    ),
                ),
            ),
        )
    }

    pub open spec fn on_cancel_requested<A: SpanEventAdmission>(
        self,
        after: Self,
        run: DiagnosticRun<A>,
        run_after: DiagnosticRun<A>,
    ) -> bool {
        if self.state.producer_failed || self.state.cancel_sequence is Some {
            after == self && run_after == run
        } else {
            match self.state.caller_span_id {
                Some(caller_span_id) => {
                    if self.state.caller_terminal is Some {
                        after == self && run_after == run
                    } else {
                        &&& run_after.follows(
                            run,
                            EventCandidate::instant(
                                self.act_scope,
                                InstantDetail::ActCancelRequested,
                                Some(caller_span_id),
                                CausalLink::to(
                                    self.latest_for_cancel()->0,
                                    CausalRelation::Handoff,
                                ),
                            ).alone(),
                        )
                        &&& after == (ActLifecycleProducer {
                            state: ActLifecycleState {
                                cancel_sequence: Attempt::nth(run_after.accepted_since(run), 0),
                                producer_failed: run_after.stopped_since(run),
                                ..self.state
                            },
                            ..self
                        })
                    }
                },
                None => self.fails(after, run, run_after, "act.cancel-before-lifecycle"),
            }
        }
    }

    /// The caller asks for a cancellation. The first request counts.
    pub fn cancel_requested<A: SpanEventAdmission>(&mut self, run: &mut DiagnosticRun<A>)
        requires
            old(self).wf(),
        ensures
            final(self).wf(),
            old(self).on_cancel_requested(*final(self), *old(run), *final(run)),
    {
        if self.state.producer_failed || self.state.cancel_sequence.is_some() {
            return;
        }
        let caller_span_id = match (self.state.act_span_id, self.state.caller_span_id) {
            (Some(_), Some(caller_span_id)) => caller_span_id,
            _ => {
                self.fail_state(run, "act.cancel-before-lifecycle");
                return;
            },
        };
        if self.state.caller_terminal.is_some() {
            return;
        }
        let source = either(
            self.state.turn_terminal_sequence,
            either(
                self.state.handoff_sequence,
                either(
                    self.state.turn_activity_sequence,
                    either(
                        self.state.prompt_sequence,
                        either(self.state.waiting_sequence, self.state.admitted_sequence),
                    ),
                ),
            ),
        ).unwrap();
        match run.context.emit_instant_with_causes(
            self.act_scope.clone(),
            InstantDetail::ActCancelRequested,
            Some(caller_span_id),
            caused_by(source, CausalRelation::Handoff),
        ) {
            Ok(sequence) => self.state.cancel_sequence = Some(sequence),
            Err(error) => self.fail_diagnostic(run, error),
        }
    }

    /// Why a turn is not the turn of this act.
    pub open spec fn turn_mismatch(self, metadata: AgentTurnDiagnosticMetadata) -> Option<
        &'static str,
    > {
        if !metadata.identity.is(self.identity) {
            Some("act.turn-identity-mismatch")
        } else if metadata.provider@ != self.session.provider@ {
            Some("act.turn-provider-mismatch")
        } else if self.session.generation is Some && self.session.generation
            != Some(metadata.session_generation) {
            Some("act.turn-generation-mismatch")
        } else {
            None
        }
    }

    pub fn validate_turn_metadata(&self, metadata: &AgentTurnDiagnosticMetadata) -> (result: Result<
        (),
        &'static str,
    >)
        ensures
            match result {
                Ok(()) => self.turn_mismatch(*metadata) is None,
                Err(code) => self.turn_mismatch(*metadata) == Some(code),
            },
    {
        if !metadata.identity.same(&self.identity) {
            return Err("act.turn-identity-mismatch");
        }
        if metadata.provider != self.session.provider {
            return Err("act.turn-provider-mismatch");
        }
        if let Some(generation) = self.session.generation {
            if generation != metadata.session_generation {
                return Err("act.turn-generation-mismatch");
            }
        }
        Ok(())
    }

    /// The prompt, the turn's span, that a turn is active, and its first activity.
    pub open spec fn prompt_plan(
        self,
        metadata: AgentTurnDiagnosticMetadata,
        act_span_id: u64,
        waiting_sequence: u64,
    ) -> spec_fn(Seq<u64>) -> Option<EventCandidate> {
        let turn_scope = spec_scope_for_turn(self.act_scope, metadata);
        |accepted: Seq<u64>|
            if accepted.len() == 0 {
                Some(
                    EventCandidate::instant(
                        self.act_scope,
                        InstantDetail::ActPromptSubmitted,
                        Some(act_span_id),
                        CausalLink::after(waiting_sequence),
                    ),
                )
            } else if accepted.len() == 1 {
                Some(
                    EventCandidate::started(
                        turn_scope,
                        SpanStartDetail::AgentTurn(spec_turn_session_detail(metadata)),
                        Some(act_span_id),
                        CausalLink::to(accepted[0], CausalRelation::Dispatch),
                    ),
                )
            } else if accepted.len() == 2 {
                Some(
                    EventCandidate::counter(
                        turn_scope,
                        CounterKind::AgentTurnActive,
                        1,
                        CausalLink::after(accepted[1]),
                    ),
                )
            } else if accepted.len() == 3 {
                Some(
                    EventCandidate::instant(
                        turn_scope,
                        InstantDetail::AgentTurnActivity,
                        Some(accepted[1]),
                        CausalLink::after(accepted[2]),
                    ),
                )
            } else {
                None
            }
    }

    pub open spec fn on_prompt_submitted<A: SpanEventAdmission>(
        self,
        after: Self,
        run: DiagnosticRun<A>,
        run_after: DiagnosticRun<A>,
        metadata: AgentTurnDiagnosticMetadata,
    ) -> bool {
        let state = self.state;
        if state.producer_failed {
            after == self && run_after == run
        } else if self.turn_mismatch(metadata) is Some {
            self.fails(after, run, run_after, self.turn_mismatch(metadata)->0)
        } else {
            match (state.act_span_id, state.waiting_sequence) {
                (Some(act_span_id), Some(waiting_sequence)) => {
                    if state.prompt_sequence is Some || state.caller_terminal is Some
                        || state.settlement is Some {
                        self.fails(after, run, run_after, "act.prompt-transition-invalid")
                    } else {
                        let accepted = run_after.accepted_since(run);
                        &&& run_after.follows(
                            run,
                            self.prompt_plan(metadata, act_span_id, waiting_sequence),
                        )
                        &&& after == (ActLifecycleProducer {
                            usage: UsageFinalizationIdentity {
                                prompt_submitted: true,
                                ..self.usage
                            },
                            state: if run_after.stopped_since(run) {
                                ActLifecycleState { producer_failed: true, ..state }
                            } else {
                                ActLifecycleState {
                                    prompt_sequence: Some(accepted[0]),
                                    turn_span_id: Some(accepted[1]),
                                    turn_scope: Some(spec_scope_for_turn(self.act_scope, metadata)),
                                    turn_activity_sequence: Some(accepted[3]),
                                    ..state
                                }
                            },
                            ..self
                        })
                    }
                },
                _ => self.fails(after, run, run_after, "act.prompt-before-driver"),
            }
        }
    }

    /// The prompt has gone to the agent: the turn begins.
    pub fn prompt_submitted<A: SpanEventAdmission>(
        &mut self,
        run: &mut DiagnosticRun<A>,
        metadata: &AgentTurnDiagnosticMetadata,
    )
        requires
            old(self).wf(),
        ensures
            final(self).wf(),
            old(self).on_prompt_submitted(*final(self), *old(run), *final(run), *metadata),
    {
        if self.state.producer_failed {
            return;
        }
        if let Err(code) = self.validate_turn_metadata(metadata) {
            self.fail_state(run, code);
            return;
        }
        let (act_span_id, waiting_sequence) = match (
            self.state.act_span_id,
            self.state.waiting_sequence,
        ) {
            (Some(act_span_id), Some(waiting_sequence)) => (act_span_id, waiting_sequence),
            _ => {
                self.fail_state(run, "act.prompt-before-driver");
                return;
            },
        };
        if self.state.prompt_sequence.is_some() || self.state.turn_span_id.is_some()
            || self.state.caller_terminal.is_some() || self.state.settlement.is_some() {
            self.fail_state(run, "act.prompt-transition-invalid");
            return;
        }
        if let Err(code) = self.usage.mark_prompt_submitted() {
            self.fail_state(run, code);
            return;
        }
        let prompt_sequence = match run.context.emit_instant_with_causes(
            self.act_scope.clone(),
            InstantDetail::ActPromptSubmitted,
            Some(act_span_id),
            follows_from(waiting_sequence),
        ) {
            Ok(sequence) => sequence,
            Err(error) => {
                self.fail_diagnostic(run, error);
                return;
            },
        };
        let turn_scope = scope_for_turn(&self.act_scope, metadata);
        let turn_span_id = match run.context.start_span_with_causes(
            turn_scope.clone(),
            SpanStartDetail::AgentTurn(turn_session_detail(metadata)),
            Some(act_span_id),
            caused_by(prompt_sequence, CausalRelation::Dispatch),
        ) {
            Ok(span_id) => span_id,
            Err(error) => {
                self.fail_diagnostic(run, error);
                return;
            },
        };
        let active_sequence = match run.context.emit_counter(
            turn_scope.clone(),
            CounterKind::AgentTurnActive,
            1,
            follows_from(turn_span_id),
        ) {
            Ok(sequence) => sequence,
            Err(error) => {
                self.fail_diagnostic(run, error);
                return;
            },
        };
        let activity_sequence = match run.context.emit_instant_with_causes(
            turn_scope.clone(),
            InstantDetail::AgentTurnActivity,
            Some(turn_span_id),
            follows_from(active_sequence),
        ) {
            Ok(sequence) => sequence,
            Err(error) => {
                self.fail_diagnostic(run, error);
                return;
            },
        };
        self.state.prompt_sequence = Some(prompt_sequence);
        self.state.turn_span_id = Some(turn_span_id);
        self.state.turn_scope = Some(turn_scope);
        self.state.turn_activity_sequence = Some(activity_sequence);
    }

    pub open spec fn on_supervisor_handoff<A: SpanEventAdmission>(
        self,
        after: Self,
        run: DiagnosticRun<A>,
        run_after: DiagnosticRun<A>,
        metadata: AgentTurnDiagnosticMetadata,
    ) -> bool {
        let state = self.state;
        if state.producer_failed {
            after == self && run_after == run
        } else if self.turn_mismatch(metadata) is Some {
            self.fails(after, run, run_after, self.turn_mismatch(metadata)->0)
        } else {
            match (state.act_span_id, state.turn_activity_sequence) {
                (Some(act_span_id), Some(activity_sequence)) => {
                    if state.handoff_sequence is Some || state.turn_terminal is Some {
                        self.fails(after, run, run_after, "act.handoff-transition-invalid")
                    } else {
                        let source = spec_either(state.cancel_sequence, Some(activity_sequence))->0;
                        &&& run_after.follows(
                            run,
                            EventCandidate::instant(
                                self.act_scope,
                                InstantDetail::ActSupervisorHandoff,
                                Some(act_span_id),
                                CausalLink::to(source, CausalRelation::Handoff),
                            ).alone(),
                        )
                        &&& after == (ActLifecycleProducer {
                            state: ActLifecycleState {
                                handoff_sequence: Attempt::nth(run_after.accepted_since(run), 0),
                                producer_failed: run_after.stopped_since(run),
                                ..state
                            },
                            ..self
                        })
                    }
                },
                _ => self.fails(after, run, run_after, "act.handoff-before-turn"),
            }
        }
    }

    /// The turn goes on without its caller.
    pub fn supervisor_handoff<A: SpanEventAdmission>(
        &mut self,
        run: &mut DiagnosticRun<A>,
        metadata: &AgentTurnDiagnosticMetadata,
    )
        requires
            old(self).wf(),
        ensures
            final(self).wf(),
            old(self).on_supervisor_handoff(*final(self), *old(run), *final(run), *metadata),
    {
        if self.state.producer_failed {
            return;
        }
        if let Err(code) = self.validate_turn_metadata(metadata) {
            self.fail_state(run, code);
            return;
        }
        let (act_span_id, activity_sequence) = match (
            self.state.act_span_id,
            self.state.turn_activity_sequence,
        ) {
            (Some(act_span_id), Some(activity_sequence)) => (act_span_id, activity_sequence),
            _ => {
                self.fail_state(run, "act.handoff-before-turn");
                return;
            },
        };
        if self.state.handoff_sequence.is_some() || self.state.turn_terminal.is_some() {
            self.fail_state(run, "act.handoff-transition-invalid");
            return;
        }
        let source: u64 = self.state.cancel_sequence.unwrap_or(activity_sequence);
        match run.context.emit_instant_with_causes(
            self.act_scope.clone(),
            InstantDetail::ActSupervisorHandoff,
            Some(act_span_id),
            caused_by(source, CausalRelation::Handoff),
        ) {
            Ok(sequence) => self.state.handoff_sequence = Some(sequence),
            Err(error) => self.fail_diagnostic(run, error),
        }
    }

    fn fail_diagnostic<A: SpanEventAdmission>(
        &mut self,
        run: &mut DiagnosticRun<A>,
        error: DiagnosticProducerError,
    )
        ensures
            *final(self) == old(self).failed(),
            *final(run) == old(run).with_failure(
                crate::run::RuntimeProducerError::Diagnostic(error),
            ),
    {
        self.state.producer_failed = true;
        run.latch_diagnostic_failure(error);
    }

    pub fn fail_state<A: SpanEventAdmission>(
        &mut self,
        run: &mut DiagnosticRun<A>,
        code: &'static str,
    )
        ensures
            old(self).fails(*final(self), *old(run), *final(run), code),
    {
        self.state.producer_failed = true;
        run.latch_state_failure(code);
    }
}

impl ActLifecycleProducer {
    /// Everything that the end of the act needs is there.
    pub open spec fn can_finish(self) -> bool {
        &&& self.state.act_span_id is Some
        &&& self.state.caller_terminal is Some
        &&& self.state.settlement is Some
        &&& self.state.usage_ack_sequence is Some
    }

    /// How the act ends. A turn that was never submitted has no say.
    pub open spec fn terminal(self) -> TerminalSpan {
        spec_act_terminal(
            self.state.caller_terminal->0,
            if self.state.settlement == Some(UsageFinalizationSettlement::NotSubmitted) {
                None
            } else {
                self.state.turn_terminal
            },
        )
    }

    /// The end of the act's span, after the usage was finalized.
    pub open spec fn finish_event(self) -> EventCandidate {
        EventCandidate::finished(
            self.act_scope,
            self.state.act_span_id->0,
            self.terminal().outcome,
            self.terminal().code(),
            CausalLink::after(self.state.usage_ack_sequence->0),
        )
    }

    /// The act's span ends, once, as soon as everything is there. `finished` tells whether the act
    /// is over.
    pub open spec fn on_maybe_finish<A: SpanEventAdmission>(
        self,
        after: Self,
        run: DiagnosticRun<A>,
        run_after: DiagnosticRun<A>,
        finished: bool,
    ) -> bool {
        if self.state.finish_attempted || self.state.producer_failed {
            &&& after == self
            &&& run_after == run
            &&& finished == self.state.finish_attempted
        } else if !self.can_finish() {
            &&& after == self
            &&& run_after == run
            &&& !finished
        } else {
            &&& run_after.follows(run, self.finish_event().alone())
            &&& after == (ActLifecycleProducer {
                state: ActLifecycleState {
                    finish_attempted: true,
                    producer_failed: run_after.stopped_since(run),
                    ..self.state
                },
                ..self
            })
            &&& finished == !run_after.stopped_since(run)
        }
    }

    pub fn maybe_finish<A: SpanEventAdmission>(&mut self, run: &mut DiagnosticRun<A>) -> (finished:
        bool)
        requires
            old(self).wf(),
        ensures
            final(self).wf(),
            old(self).on_maybe_finish(*final(self), *old(run), *final(run), finished),
    {
        if self.state.finish_attempted || self.state.producer_failed {
            return self.state.finish_attempted;
        }
        let (act_span_id, caller, settlement, usage_sequence) = match (
            self.state.act_span_id,
            self.state.caller_terminal,
            self.state.settlement,
            self.state.usage_ack_sequence,
        ) {
            (Some(act_span_id), Some(caller), Some(settlement), Some(usage_sequence)) => {
                (act_span_id, caller, settlement, usage_sequence)
            },
            _ => return false,
        };
        let remote = match settlement {
            UsageFinalizationSettlement::NotSubmitted => None,
            UsageFinalizationSettlement::Authoritative | UsageFinalizationSettlement::Unknown => {
                match self.state.turn_terminal {
                    Some(remote) => Some(remote),
                    None => {
                        self.fail_state(run, "act.finish-before-turn-terminal");
                        return false;
                    },
                }
            },
        };
        let terminal = act_terminal(caller, remote);
        self.state.finish_attempted = true;
        if let Err(error) = run.context.finish_span_with_causes(
            self.act_scope.clone(),
            act_span_id,
            terminal.outcome,
            terminal.event_code(),
            follows_from(usage_sequence),
        ) {
            self.fail_diagnostic(run, error);
            return false;
        }
        true
    }

    /// The turn's end, that it settled where that is certain, the end of its span, and that no turn
    /// is active.
    pub open spec fn turn_end_plan(
        self,
        settlement: UsageFinalizationSettlement,
        outcome: AgentTurnDiagnosticOutcome,
        error_code: Option<&'static str>,
    ) -> spec_fn(Seq<u64>) -> Option<EventCandidate> {
        let turn_scope = self.state.turn_scope->0;
        let turn_span_id = self.state.turn_span_id->0;
        let source = spec_either(
            self.state.handoff_sequence,
            self.state.turn_activity_sequence,
        )->0;
        let code = crate::event::spec_stable_code(error_code);
        let settled: int = if settlement is Authoritative {
            1
        } else {
            0
        };
        |accepted: Seq<u64>|
            if accepted.len() == 0 {
                Some(
                    EventCandidate::instant(
                        turn_scope,
                        InstantDetail::AgentTurnTerminal { error_code: code },
                        Some(turn_span_id),
                        CausalLink::to(source, CausalRelation::Return),
                    ),
                )
            } else if accepted.len() == 1 && settlement is Authoritative {
                Some(
                    EventCandidate::instant(
                        turn_scope,
                        InstantDetail::AgentTurnSettled { error_code: code },
                        Some(turn_span_id),
                        CausalLink::after(accepted[0]),
                    ),
                )
            } else if accepted.len() == 1 + settled {
                Some(
                    EventCandidate::finished(
                        turn_scope,
                        turn_span_id,
                        spec_terminal_span(outcome, error_code).outcome,
                        code,
                        CausalLink::to(accepted[settled], CausalRelation::Return),
                    ),
                )
            } else if accepted.len() == 2 + settled {
                Some(
                    EventCandidate::counter(
                        turn_scope,
                        CounterKind::AgentTurnActive,
                        0,
                        CausalLink::after(accepted[1 + settled]),
                    ),
                )
            } else {
                None
            }
    }

    /// The act after its prompt was settled as never submitted.
    pub open spec fn settled_as_not_submitted(self) -> Self {
        ActLifecycleProducer {
            usage: UsageFinalizationIdentity {
                settlement: Some(UsageFinalizationSettlement::NotSubmitted),
                ..self.usage
            },
            state: ActLifecycleState {
                settlement: Some(UsageFinalizationSettlement::NotSubmitted),
                ..self.state
            },
            ..self
        }
    }

    /// The act after its turn has ended and settled.
    pub open spec fn with_turn_ended(
        self,
        settlement: UsageFinalizationSettlement,
        terminal: TerminalSpan,
        inactive_sequence: u64,
    ) -> Self {
        ActLifecycleProducer {
            usage: UsageFinalizationIdentity { settlement: Some(settlement), ..self.usage },
            state: ActLifecycleState {
                turn_terminal_sequence: Some(inactive_sequence),
                turn_terminal: Some(terminal),
                settlement: Some(settlement),
                ..self.state
            },
            ..self
        }
    }

    pub open spec fn on_turn_terminal<A: SpanEventAdmission>(
        self,
        after: Self,
        run: DiagnosticRun<A>,
        run_after: DiagnosticRun<A>,
        metadata: AgentTurnDiagnosticMetadata,
        settlement: UsageFinalizationSettlement,
        outcome: AgentTurnDiagnosticOutcome,
        error_code: Option<&'static str>,
        finished: bool,
    ) -> bool {
        let state = self.state;
        if state.producer_failed {
            after == self && run_after == run && !finished
        } else if self.turn_mismatch(metadata) is Some {
            self.fails(after, run, run_after, self.turn_mismatch(metadata)->0) && !finished
        } else if settlement is NotSubmitted && state.settlement == Some(settlement) {
            self.on_maybe_finish(after, run, run_after, finished)
        } else if state.settlement is Some {
            self.fails(after, run, run_after, "act.turn-terminal-transition-invalid") && !finished
        } else if error_code is None != outcome is Completed {
            self.fails(after, run, run_after, "act.turn-terminal-detail-invalid") && !finished
        } else if settlement is NotSubmitted {
            if state.prompt_sequence is Some {
                self.fails(after, run, run_after, "act.not-submitted-after-turn-start")
                    && !finished
            } else {
                self.settled_as_not_submitted().on_maybe_finish(after, run, run_after, finished)
            }
        } else if state.prompt_sequence is None {
            self.fails(after, run, run_after, "act.turn-terminal-before-start") && !finished
        } else {
            exists|run_between: DiagnosticRun<A>|
                {
                    &&& #[trigger] run_between.follows(
                        run,
                        self.turn_end_plan(settlement, outcome, error_code),
                    )
                    &&& if run_between.stopped_since(run) {
                        after == self.failed() && run_after == run_between && !finished
                    } else {
                        self.with_turn_ended(
                            settlement,
                            spec_terminal_span(outcome, error_code),
                            run_between.accepted_since(run).last(),
                        ).on_maybe_finish(after, run_between, run_after, finished)
                    }
                }
        }
    }

    /// The turn has ended. Tells whether the act is over.
    pub fn turn_terminal<A: SpanEventAdmission>(
        &mut self,
        run: &mut DiagnosticRun<A>,
        metadata: &AgentTurnDiagnosticMetadata,
        settlement: AgentTurnDiagnosticSettlement,
        outcome: AgentTurnDiagnosticOutcome,
        error_code: Option<&'static str>,
    ) -> (finished: bool)
        requires
            old(self).wf(),
        ensures
            final(self).wf(),
            old(self).on_turn_terminal(
                *final(self),
                *old(run),
                *final(run),
                *metadata,
                spec_usage_settlement(settlement),
                outcome,
                error_code,
                finished,
            ),
    {
        if self.state.producer_failed {
            return false;
        }
        if let Err(code) = self.validate_turn_metadata(metadata) {
            self.fail_state(run, code);
            return false;
        }
        let settlement = usage_settlement(settlement);
        if let Some(current) = self.state.settlement {
            if current == settlement && settlement == UsageFinalizationSettlement::NotSubmitted {
                return self.maybe_finish(run);
            }
        }
        if self.state.settlement.is_some() || self.state.turn_terminal.is_some() {
            self.fail_state(run, "act.turn-terminal-transition-invalid");
            return false;
        }
        if !terminal_detail_is_valid(outcome, error_code) {
            self.fail_state(run, "act.turn-terminal-detail-invalid");
            return false;
        }
        if settlement == UsageFinalizationSettlement::NotSubmitted {
            if self.state.prompt_sequence.is_some() || self.state.turn_span_id.is_some() {
                self.fail_state(run, "act.not-submitted-after-turn-start");
                return false;
            }
            if let Err(code) = self.usage.settle(settlement) {
                self.fail_state(run, code);
                return false;
            }
            self.state.settlement = Some(settlement);
            return self.maybe_finish(run);
        }
        let (turn_span_id, turn_scope, activity_sequence) = match (
            self.state.turn_span_id,
            &self.state.turn_scope,
            self.state.turn_activity_sequence,
        ) {
            (Some(turn_span_id), Some(turn_scope), Some(activity_sequence)) => {
                (turn_span_id, turn_scope.clone(), activity_sequence)
            },
            _ => {
                self.fail_state(run, "act.turn-terminal-before-start");
                return false;
            },
        };
        let source: u64 = self.state.handoff_sequence.unwrap_or(activity_sequence);
        let terminal_sequence = match run.context.emit_instant_with_causes(
            turn_scope.clone(),
            InstantDetail::AgentTurnTerminal { error_code: stable_code(error_code) },
            Some(turn_span_id),
            caused_by(source, CausalRelation::Return),
        ) {
            Ok(sequence) => sequence,
            Err(error) => {
                self.fail_diagnostic(run, error);
                assert(run.follows(
                    *old(run),
                    old(self).turn_end_plan(settlement, outcome, error_code),
                ));
                return false;
            },
        };
        let settlement_sequence = if settlement == UsageFinalizationSettlement::Authoritative {
            match run.context.emit_instant_with_causes(
                turn_scope.clone(),
                InstantDetail::AgentTurnSettled { error_code: stable_code(error_code) },
                Some(turn_span_id),
                follows_from(terminal_sequence),
            ) {
                Ok(sequence) => sequence,
                Err(error) => {
                    self.fail_diagnostic(run, error);
                    assert(run.follows(
                        *old(run),
                        old(self).turn_end_plan(settlement, outcome, error_code),
                    ));
                    return false;
                },
            }
        } else {
            terminal_sequence
        };
        let terminal = terminal_span(outcome, error_code);
        let finish_sequence = match run.context.finish_span_with_causes(
            turn_scope.clone(),
            turn_span_id,
            terminal.outcome,
            stable_code(error_code),
            caused_by(settlement_sequence, CausalRelation::Return),
        ) {
            Ok(sequence) => sequence,
            Err(error) => {
                self.fail_diagnostic(run, error);
                assert(run.follows(
                    *old(run),
                    old(self).turn_end_plan(settlement, outcome, error_code),
                ));
                return false;
            },
        };
        let inactive_sequence = match run.context.emit_counter(
            turn_scope,
            CounterKind::AgentTurnActive,
            0,
            follows_from(finish_sequence),
        ) {
            Ok(sequence) => sequence,
            Err(error) => {
                self.fail_diagnostic(run, error);
                assert(run.follows(
                    *old(run),
                    old(self).turn_end_plan(settlement, outcome, error_code),
                ));
                return false;
            },
        };
        assert(run.follows(*old(run), old(self).turn_end_plan(settlement, outcome, error_code)));
        if let Err(code) = self.usage.settle(settlement) {
            self.fail_state(run, code);
            return false;
        }
        self.state.turn_terminal_sequence = Some(inactive_sequence);
        self.state.turn_terminal = Some(terminal);
        self.state.settlement = Some(settlement);
        self.maybe_finish(run)
    }

    /// The latest fact of the act that the caller's end comes after.
    pub open spec fn latest_for_caller(self) -> Option<u64> {
        spec_either(
            self.state.cancel_sequence,
            spec_either(
                self.state.turn_terminal_sequence,
                spec_either(
                    self.state.turn_activity_sequence,
                    spec_either(self.state.waiting_sequence, self.state.admitted_sequence),
                ),
            ),
        )
    }

    /// The end of the caller's span.
    pub open spec fn caller_end(self, terminal: TerminalSpan) -> EventCandidate {
        EventCandidate::finished(
            self.act_scope,
            self.state.caller_span_id->0,
            terminal.outcome,
            terminal.code(),
            CausalLink::to(
                self.latest_for_caller()->0,
                if terminal.outcome is Cancelled {
                    CausalRelation::Handoff
                } else {
                    CausalRelation::Return
                },
            ),
        )
    }

    /// The act after its caller has left. An act without a prompt is settled by that.
    pub open spec fn with_caller_ended(self, terminal: TerminalSpan) -> Self {
        let ended = ActLifecycleProducer {
            state: ActLifecycleState { caller_terminal: Some(terminal), ..self.state },
            ..self
        };
        if self.state.prompt_sequence is None && self.state.settlement is None {
            ended.settled_as_not_submitted()
        } else {
            ended
        }
    }

    pub open spec fn on_caller_finished<A: SpanEventAdmission>(
        self,
        after: Self,
        run: DiagnosticRun<A>,
        run_after: DiagnosticRun<A>,
        terminal: TerminalSpan,
        finished: bool,
    ) -> bool {
        if self.state.producer_failed {
            after == self && run_after == run && !finished
        } else if self.state.caller_span_id is None {
            self.fails(after, run, run_after, "act.caller-finish-before-start") && !finished
        } else if self.state.caller_terminal is Some {
            self.fails(after, run, run_after, "act.caller-finish-transition-invalid") && !finished
        } else {
            exists|run_between: DiagnosticRun<A>|
                {
                    &&& #[trigger] run_between.follows(run, self.caller_end(terminal).alone())
                    &&& if run_between.stopped_since(run) {
                        after == self.failed() && run_after == run_between && !finished
                    } else {
                        self.with_caller_ended(terminal).on_maybe_finish(
                            after,
                            run_between,
                            run_after,
                            finished,
                        )
                    }
                }
        }
    }

    /// The caller has left the act. Tells whether the act is over.
    pub fn caller_finished<A: SpanEventAdmission>(
        &mut self,
        run: &mut DiagnosticRun<A>,
        exit: ActCallerExit,
        error: Option<ErrorClass>,
    ) -> (finished: bool)
        requires
            old(self).wf(),
        ensures
            final(self).wf(),
            old(self).on_caller_finished(
                *final(self),
                *old(run),
                *final(run),
                spec_caller_terminal(exit, error),
                finished,
            ),
    {
        let terminal = caller_terminal(exit, error);
        if self.state.producer_failed {
            return false;
        }
        let caller_span_id = match self.state.caller_span_id {
            Some(caller_span_id) => caller_span_id,
            None => {
                self.fail_state(run, "act.caller-finish-before-start");
                return false;
            },
        };
        if self.state.caller_terminal.is_some() {
            self.fail_state(run, "act.caller-finish-transition-invalid");
            return false;
        }
        let source = either(
            self.state.cancel_sequence,
            either(
                self.state.turn_terminal_sequence,
                either(
                    self.state.turn_activity_sequence,
                    either(self.state.waiting_sequence, self.state.admitted_sequence),
                ),
            ),
        ).unwrap();
        let relation = if matches!(terminal.outcome, SpanOutcome::Cancelled) {
            CausalRelation::Handoff
        } else {
            CausalRelation::Return
        };
        if let Err(error) = run.context.finish_span_with_causes(
            self.act_scope.clone(),
            caller_span_id,
            terminal.outcome,
            terminal.event_code(),
            caused_by(source, relation),
        ) {
            self.fail_diagnostic(run, error);
            assert(run.follows(*old(run), old(self).caller_end(terminal).alone()));
            return false;
        }
        assert(run.follows(*old(run), old(self).caller_end(terminal).alone()));
        self.state.caller_terminal = Some(terminal);
        if self.state.prompt_sequence.is_none() && self.state.settlement.is_none() {
            let settlement = UsageFinalizationSettlement::NotSubmitted;
            if let Err(code) = self.usage.settle(settlement) {
                self.fail_state(run, code);
                return false;
            }
            self.state.settlement = Some(settlement);
        }
        self.maybe_finish(run)
    }

    /// An act that is under way gives away its slot, if it still has it.
    pub open spec fn gives_slot(self, after: Self, slot: Option<UsageFinalizationSlot>) -> bool {
        if self.state.producer_failed || self.state.act_span_id is None
            || self.state.finish_attempted {
            slot is None && after == self
        } else {
            &&& slot == self.state.usage_slot
            &&& after == (ActLifecycleProducer {
                state: ActLifecycleState { usage_slot: None, ..self.state },
                ..self
            })
        }
    }

    /// Gives the slot away, once, while the act is under way.
    pub fn take_usage_slot(&mut self) -> (slot: Option<UsageFinalizationSlot>)
        requires
            old(self).wf(),
        ensures
            final(self).wf(),
            old(self).gives_slot(*final(self), slot),
    {
        if self.state.producer_failed || self.state.act_span_id.is_none()
            || self.state.finish_attempted {
            return None;
        }
        self.state.usage_slot.take()
    }

    /// The act is settled and nobody was told.
    pub open spec fn owes_settlement_notice(self) -> bool {
        !self.state.producer_failed && self.state.settlement is Some
            && !self.state.settlement_notified
    }

    /// Tells, once, that the act is settled.
    pub fn take_settlement_notification(&mut self) -> (owed: bool)
        requires
            old(self).wf(),
        ensures
            final(self).wf(),
            owed == old(self).owes_settlement_notice(),
            *final(self) == (ActLifecycleProducer {
                state: ActLifecycleState {
                    settlement_notified: old(self).state.settlement_notified || owed,
                    ..old(self).state
                },
                ..*old(self)
            }),
    {
        if self.state.producer_failed || self.state.settlement.is_none()
            || self.state.settlement_notified {
            return false;
        }
        self.state.settlement_notified = true;
        true
    }

    pub open spec fn on_usage_finalized<A: SpanEventAdmission>(
        self,
        after: Self,
        run: DiagnosticRun<A>,
        run_after: DiagnosticRun<A>,
        ack: UsageFinalizationAck,
        finished: bool,
    ) -> bool {
        if self.state.producer_failed {
            after == self && run_after == run && !finished
        } else if self.usage.serial != ack.serial || self.state.usage_slot is Some
            || self.state.usage_ack_sequence is Some || self.state.settlement is None {
            self.fails(after, run, run_after, "act.usage-ack-transition-invalid") && !finished
        } else {
            (ActLifecycleProducer {
                state: ActLifecycleState {
                    usage_ack_sequence: Some(ack.usage_sequence),
                    ..self.state
                },
                ..self
            }).on_maybe_finish(after, run, run_after, finished)
        }
    }

    /// The usage of the act is final. Tells whether the act is over.
    pub fn usage_finalized<A: SpanEventAdmission>(
        &mut self,
        run: &mut DiagnosticRun<A>,
        ack: UsageFinalizationAck,
    ) -> (finished: bool)
        requires
            old(self).wf(),
        ensures
            final(self).wf(),
            old(self).on_usage_finalized(*final(self), *old(run), *final(run), ack, finished),
    {
        if self.state.producer_failed {
            return false;
        }
        if !self.usage.matches(&ack) || self.state.usage_slot.is_some()
            || self.state.usage_ack_sequence.is_some() || self.state.settlement.is_none() {
            self.fail_state(run, "act.usage-ack-transition-invalid");
            return false;
        }
        self.state.usage_ack_sequence = Some(ack.usage_sequence);
        self.maybe_finish(run)
    }

    /// Where a fact of the act hangs: in the turn while it runs, else in the act.
    pub open spec fn spec_snapshot(self) -> Option<ActLineageSnapshot> {
        match self.state.act_span_id {
            Some(act_span_id) if !self.state.producer_failed && !self.state.finish_attempted => {
                Some(
                    ActLineageSnapshot {
                        run: self.run,
                        act_scope: self.act_scope,
                        event_scope: match self.state.turn_scope {
                            Some(turn_scope) => turn_scope,
                            None => self.act_scope,
                        },
                        act_span_id,
                        containing_span_id: match self.state.turn_span_id {
                            Some(turn_span_id) if self.state.turn_terminal is None => turn_span_id,
                            _ => act_span_id,
                        },
                    },
                )
            },
            _ => None,
        }
    }

    pub fn snapshot(&self) -> (snapshot: Option<ActLineageSnapshot>)
        ensures
            snapshot == self.spec_snapshot(),
    {
        if self.state.producer_failed || self.state.finish_attempted {
            return None;
        }
        let act_span_id = match self.state.act_span_id {
            Some(act_span_id) => act_span_id,
            None => return None,
        };
        let event_scope = match &self.state.turn_scope {
            Some(turn_scope) => turn_scope.clone(),
            None => self.act_scope.clone(),
        };
        let containing_span_id = match (self.state.turn_span_id, self.state.turn_terminal) {
            (Some(turn_span_id), None) => turn_span_id,
            _ => act_span_id,
        };
        Some(
            ActLineageSnapshot {
                run: self.run,
                act_scope: self.act_scope.clone(),
                event_scope,
                act_span_id,
                containing_span_id,
            },
        )
    }
}

/// The span of an act ends only when its caller has left, its turn is settled and its usage is
/// final, and it ends once.
pub proof fn act_ends_when_all_is_known<A: SpanEventAdmission>(
    act: ActLifecycleProducer,
    after: ActLifecycleProducer,
    run: DiagnosticRun<A>,
    run_after: DiagnosticRun<A>,
    finished: bool,
)
    requires
        act.on_maybe_finish(after, run, run_after, finished),
    ensures
        after.state.finish_attempted && !act.state.finish_attempted ==> {
            &&& act.state.caller_terminal is Some
            &&& act.state.settlement is Some
            &&& act.state.usage_ack_sequence is Some
        },
        act.state.finish_attempted ==> run_after == run && after == act,
{
}

/// An act that has failed, or whose span has ended, reports nothing more.
pub proof fn ended_act_rests<A: SpanEventAdmission>(
    act: ActLifecycleProducer,
    after: ActLifecycleProducer,
    run: DiagnosticRun<A>,
    run_after: DiagnosticRun<A>,
    metadata: AgentTurnDiagnosticMetadata,
    settlement: UsageFinalizationSettlement,
    outcome: AgentTurnDiagnosticOutcome,
    error_code: Option<&'static str>,
    terminal: TerminalSpan,
    ack: UsageFinalizationAck,
    finished: bool,
)
    requires
        act.wf(),
        act.state.finish_attempted || act.state.producer_failed,
        act.on_driver_started(after, run, run_after) || act.on_cancel_requested(
            after,
            run,
            run_after,
        ) || act.on_prompt_submitted(after, run, run_after, metadata) || act.on_supervisor_handoff(
            after,
            run,
            run_after,
            metadata,
        ) || act.on_turn_terminal(
            after,
            run,
            run_after,
            metadata,
            settlement,
            outcome,
            error_code,
            finished,
        ) || act.on_caller_finished(after, run, run_after, terminal, finished)
            || act.on_usage_finalized(after, run, run_after, ack, finished),
    ensures
        run_after.context == run.context,
        act.state.finish_attempted ==> after.state.finish_attempted,
        act.state.producer_failed ==> after == act && run_after == run,
{
}

impl ActLifecycleState {
    /// What the facts of the act refer to is in the trace.
    pub open spec fn is_rooted(self, trace: Seq<Attempt>) -> bool {
        &&& self.act_span_id matches Some(span_id) ==> crate::references::begun_in(trace, span_id)
        &&& self.caller_span_id matches Some(span_id) ==> crate::references::begun_in(
            trace,
            span_id,
        )
        &&& self.turn_span_id matches Some(span_id) ==> crate::references::begun_in(trace, span_id)
        &&& self.admitted_sequence matches Some(sequence) ==> crate::references::accepted_in(
            trace,
            sequence,
        )
        &&& self.waiting_sequence matches Some(sequence) ==> crate::references::accepted_in(
            trace,
            sequence,
        )
        &&& self.prompt_sequence matches Some(sequence) ==> crate::references::accepted_in(
            trace,
            sequence,
        )
        &&& self.turn_activity_sequence matches Some(sequence) ==> crate::references::accepted_in(
            trace,
            sequence,
        )
        &&& self.cancel_sequence matches Some(sequence) ==> crate::references::accepted_in(
            trace,
            sequence,
        )
        &&& self.handoff_sequence matches Some(sequence) ==> crate::references::accepted_in(
            trace,
            sequence,
        )
        &&& self.turn_terminal_sequence matches Some(sequence) ==> crate::references::accepted_in(
            trace,
            sequence,
        )
        &&& self.usage_ack_sequence matches Some(sequence) ==> crate::references::accepted_in(
            trace,
            sequence,
        )
    }

    /// What is in a trace is in it still when it goes on.
    proof fn stays_rooted(self, trace: Seq<Attempt>, later: Seq<Attempt>)
        requires
            self.is_rooted(trace),
            crate::references::goes_on(trace, later),
        ensures
            self.is_rooted(later),
    {
    }
}

impl ActLifecycleProducer {
    /// The agent's turn ended.
    pub open spec fn turn_ends<A: SpanEventAdmission>(
        self,
        after: Self,
        run: DiagnosticRun<A>,
        run_after: DiagnosticRun<A>,
    ) -> bool {
        exists|
            metadata: AgentTurnDiagnosticMetadata,
            settlement: UsageFinalizationSettlement,
            outcome: AgentTurnDiagnosticOutcome,
            error_code: Option<&'static str>,
            finished: bool,
        | #[trigger]
            self.on_turn_terminal(
                after,
                run,
                run_after,
                metadata,
                settlement,
                outcome,
                error_code,
                finished,
            )
    }

    /// Something happened to the act that it reports. The final usage was reported before it is
    /// acknowledged.
    pub open spec fn steps_to<A: SpanEventAdmission>(
        self,
        after: Self,
        run: DiagnosticRun<A>,
        run_after: DiagnosticRun<A>,
    ) -> bool {
        ||| self.on_driver_started(after, run, run_after)
        ||| self.on_cancel_requested(after, run, run_after)
        ||| exists|metadata: AgentTurnDiagnosticMetadata| #[trigger]
            self.on_prompt_submitted(after, run, run_after, metadata)
        ||| exists|metadata: AgentTurnDiagnosticMetadata| #[trigger]
            self.on_supervisor_handoff(after, run, run_after, metadata)
        ||| self.turn_ends(after, run, run_after)
        ||| exists|terminal: TerminalSpan, finished: bool| #[trigger]
            self.on_caller_finished(after, run, run_after, terminal, finished)
        ||| exists|ack: UsageFinalizationAck, finished: bool|
            crate::references::accepted_in(run.context.trace(), ack.usage_sequence)
                && #[trigger] self.on_usage_finalized(after, run, run_after, ack, finished)
    }

    proof fn finish_refers_back<A: SpanEventAdmission>(
        self,
        after: Self,
        run: DiagnosticRun<A>,
        run_after: DiagnosticRun<A>,
        finished: bool,
    )
        requires
            crate::references::refer_back(run.context.trace()),
            self.state.is_rooted(run.context.trace()),
            self.on_maybe_finish(after, run, run_after, finished),
        ensures
            crate::references::refer_back(run_after.context.trace()),
            crate::references::goes_on(run.context.trace(), run_after.context.trace()),
            after.state.is_rooted(run_after.context.trace()),
    {
        crate::references::what_began_stays_begun(run.context.trace(), run.context.trace());
        if run_after.context != run.context {
            crate::references::one_fact_refers_back(
                run_after.context,
                run.context,
                self.finish_event(),
            );
        }
    }

    proof fn prompt_refers_back<A: SpanEventAdmission>(
        self,
        after: Self,
        run: DiagnosticRun<A>,
        run_after: DiagnosticRun<A>,
        metadata: AgentTurnDiagnosticMetadata,
    )
        requires
            crate::references::refer_back(run.context.trace()),
            self.state.is_rooted(run.context.trace()),
            self.on_prompt_submitted(after, run, run_after, metadata),
            run_after.context != run.context,
        ensures
            crate::references::refer_back(run_after.context.trace()),
            crate::references::goes_on(run.context.trace(), run_after.context.trace()),
            after.state.is_rooted(run_after.context.trace()),
    {
        let plan = self.prompt_plan(
            metadata,
            self.state.act_span_id->0,
            self.state.waiting_sequence->0,
        );
        assert forall|accepted: Seq<u64>|
            #[trigger] crate::references::sound_after(plan, run.context.trace(), accepted) by {
            assert(accepted.len() >= 1 ==> accepted.contains(accepted[0]));
            assert(accepted.len() >= 2 ==> accepted.contains(accepted[1]));
            assert(accepted.len() >= 3 ==> accepted.contains(accepted[2]));
            if accepted.len() == 3 {
                assert(crate::references::starts_at(plan, accepted, 1));
            }
        }
        crate::references::sound_plans_refer_back(run_after.context, run.context, plan);
        if !run_after.stopped_since(run) {
            let accepted = run_after.accepted_since(run);
            assert(crate::references::starts_at(plan, accepted, 1));
            assert(crate::references::accepted_in(run_after.context.trace(), accepted[0]));
            assert(crate::references::accepted_in(run_after.context.trace(), accepted[3]));
        }
    }

    proof fn turn_end_refers_back<A: SpanEventAdmission>(
        self,
        run: DiagnosticRun<A>,
        run_after: DiagnosticRun<A>,
        settlement: UsageFinalizationSettlement,
        outcome: AgentTurnDiagnosticOutcome,
        error_code: Option<&'static str>,
    )
        requires
            crate::references::refer_back(run.context.trace()),
            self.wf(),
            !self.state.producer_failed,
            self.state.prompt_sequence is Some,
            self.state.is_rooted(run.context.trace()),
            run_after.follows(run, self.turn_end_plan(settlement, outcome, error_code)),
        ensures
            crate::references::refer_back(run_after.context.trace()),
            crate::references::goes_on(run.context.trace(), run_after.context.trace()),
            !run_after.stopped_since(run) ==> crate::references::accepted_in(
                run_after.context.trace(),
                run_after.accepted_since(run).last(),
            ),
    {
        let plan = self.turn_end_plan(settlement, outcome, error_code);
        assert forall|accepted: Seq<u64>|
            #[trigger] crate::references::sound_after(plan, run.context.trace(), accepted) by {
            assert(accepted.len() >= 1 ==> accepted.contains(accepted[0]));
            assert(accepted.len() >= 2 ==> accepted.contains(accepted[1]));
            assert(accepted.len() >= 3 ==> accepted.contains(accepted[2]));
        }
        crate::references::sound_plans_refer_back(run_after.context, run.context, plan);
        if !run_after.stopped_since(run) {
            let accepted = run_after.accepted_since(run);
            assert(accepted.len() > 0);
            assert(crate::references::accepted_in(
                run_after.context.trace(),
                accepted[accepted.len() - 1],
            ));
        }
    }

    proof fn turn_terminal_refers_back<A: SpanEventAdmission>(
        self,
        after: Self,
        run: DiagnosticRun<A>,
        run_after: DiagnosticRun<A>,
        metadata: AgentTurnDiagnosticMetadata,
        settlement: UsageFinalizationSettlement,
        outcome: AgentTurnDiagnosticOutcome,
        error_code: Option<&'static str>,
        finished: bool,
    )
        requires
            crate::references::refer_back(run.context.trace()),
            self.wf(),
            self.state.is_rooted(run.context.trace()),
            self.on_turn_terminal(
                after,
                run,
                run_after,
                metadata,
                settlement,
                outcome,
                error_code,
                finished,
            ),
            run_after.context != run.context,
        ensures
            crate::references::refer_back(run_after.context.trace()),
            crate::references::goes_on(run.context.trace(), run_after.context.trace()),
            after.state.is_rooted(run_after.context.trace()),
    {
        if settlement is NotSubmitted {
            if self.state.settlement == Some(settlement) {
                self.finish_refers_back(after, run, run_after, finished);
            } else {
                self.settled_as_not_submitted().finish_refers_back(
                    after,
                    run,
                    run_after,
                    finished,
                );
            }
        } else {
            let plan = self.turn_end_plan(settlement, outcome, error_code);
            let terminal = spec_terminal_span(outcome, error_code);
            let between = choose|between: DiagnosticRun<A>|
                {
                    &&& #[trigger] between.follows(run, plan)
                    &&& if between.stopped_since(run) {
                        after == self.failed() && run_after == between && !finished
                    } else {
                        self.with_turn_ended(
                            settlement,
                            terminal,
                            between.accepted_since(run).last(),
                        ).on_maybe_finish(after, between, run_after, finished)
                    }
                };
            self.turn_end_refers_back(run, between, settlement, outcome, error_code);
            self.state.stays_rooted(run.context.trace(), between.context.trace());
            if !between.stopped_since(run) {
                self.with_turn_ended(
                    settlement,
                    terminal,
                    between.accepted_since(run).last(),
                ).finish_refers_back(after, between, run_after, finished);
                crate::references::goes_on_and_on(
                    run.context.trace(),
                    between.context.trace(),
                    run_after.context.trace(),
                );
            }
        }
    }

    proof fn latest_is_known(self, trace: Seq<Attempt>)
        requires
            self.wf(),
            !self.state.producer_failed,
            self.state.caller_span_id is Some,
            self.state.is_rooted(trace),
        ensures
            self.latest_for_caller() is Some,
            crate::references::accepted_in(trace, self.latest_for_caller()->0),
    {
    }

    proof fn caller_end_refers_back<A: SpanEventAdmission>(
        self,
        after: Self,
        run: DiagnosticRun<A>,
        run_after: DiagnosticRun<A>,
        terminal: TerminalSpan,
        finished: bool,
    )
        requires
            crate::references::refer_back(run.context.trace()),
            self.wf(),
            self.state.is_rooted(run.context.trace()),
            self.on_caller_finished(after, run, run_after, terminal, finished),
            run_after.context != run.context,
        ensures
            crate::references::refer_back(run_after.context.trace()),
            crate::references::goes_on(run.context.trace(), run_after.context.trace()),
            after.state.is_rooted(run_after.context.trace()),
    {
        let event = self.caller_end(terminal);
        let between = choose|between: DiagnosticRun<A>|
            {
                &&& #[trigger] between.follows(run, event.alone())
                &&& if between.stopped_since(run) {
                    after == self.failed() && run_after == between && !finished
                } else {
                    self.with_caller_ended(terminal).on_maybe_finish(
                        after,
                        between,
                        run_after,
                        finished,
                    )
                }
            };
        self.latest_is_known(run.context.trace());
        crate::references::one_fact_refers_back(between.context, run.context, event);
        self.state.stays_rooted(run.context.trace(), between.context.trace());
        if !between.stopped_since(run) {
            self.with_caller_ended(terminal).finish_refers_back(
                after,
                between,
                run_after,
                finished,
            );
            crate::references::goes_on_and_on(
                run.context.trace(),
                between.context.trace(),
                run_after.context.trace(),
            );
        }
    }
}

/// An act that starts leaves a trace whose facts refer back, and what it keeps of it is in there.
pub proof fn started_act_refers_back<A: SpanEventAdmission>(
    act: ActLifecycleProducer,
    after: ActLifecycleProducer,
    run: DiagnosticRun<A>,
    run_after: DiagnosticRun<A>,
)
    requires
        crate::references::refer_back(run.context.trace()),
        act.state.is_rooted(run.context.trace()),
        run_after.follows(run, act.start_plan()),
        act.is_started(after, run, run_after),
    ensures
        crate::references::refer_back(run_after.context.trace()),
        crate::references::goes_on(run.context.trace(), run_after.context.trace()),
        after.state.is_rooted(run_after.context.trace()),
{
    let plan = act.start_plan();
    assert forall|accepted: Seq<u64>|
        #[trigger] crate::references::sound_after(plan, run.context.trace(), accepted) by {
        if accepted.len() == 1 || accepted.len() == 2 {
            assert(crate::references::starts_at(plan, accepted, 0));
            assert(accepted.len() == 2 ==> accepted.contains(accepted[1]));
        }
    }
    crate::references::sound_plans_refer_back(run_after.context, run.context, plan);
    let accepted = run_after.accepted_since(run);
    if accepted.len() >= 1 {
        assert(crate::references::starts_at(plan, accepted, 0));
    }
    if accepted.len() >= 2 {
        assert(crate::references::starts_at(plan, accepted, 1));
    }
    if accepted.len() >= 3 {
        assert(crate::references::accepted_in(run_after.context.trace(), accepted[2]));
    }
}

/// Whatever an act reports refers only to what was reported before.
pub proof fn facts_of_an_act_refer_back<A: SpanEventAdmission>(
    act: ActLifecycleProducer,
    after: ActLifecycleProducer,
    run: DiagnosticRun<A>,
    run_after: DiagnosticRun<A>,
)
    requires
        crate::references::refer_back(run.context.trace()),
        act.wf(),
        act.state.is_rooted(run.context.trace()),
        act.steps_to(after, run, run_after),
    ensures
        crate::references::refer_back(run_after.context.trace()),
        crate::references::goes_on(run.context.trace(), run_after.context.trace()),
        after.state.is_rooted(run_after.context.trace()),
{
    crate::references::what_began_stays_begun(run.context.trace(), run.context.trace());
    if act.on_driver_started(after, run, run_after) {
        if run_after.context != run.context {
            crate::references::one_fact_refers_back(
                run_after.context,
                run.context,
                EventCandidate::instant(
                    act.act_scope,
                    InstantDetail::ActWaitingReady,
                    act.state.act_span_id,
                    CausalLink::after(act.state.admitted_sequence->0),
                ),
            );
        }
    } else if act.on_cancel_requested(after, run, run_after) {
        if run_after.context != run.context {
            crate::references::one_fact_refers_back(
                run_after.context,
                run.context,
                EventCandidate::instant(
                    act.act_scope,
                    InstantDetail::ActCancelRequested,
                    act.state.caller_span_id,
                    CausalLink::to(act.latest_for_cancel()->0, CausalRelation::Handoff),
                ),
            );
        }
    } else if exists|metadata: AgentTurnDiagnosticMetadata| #[trigger]
        act.on_prompt_submitted(after, run, run_after, metadata) {
        let metadata = choose|metadata: AgentTurnDiagnosticMetadata| #[trigger]
            act.on_prompt_submitted(after, run, run_after, metadata);
        if run_after.context != run.context {
            act.prompt_refers_back(after, run, run_after, metadata);
        }
    } else if exists|metadata: AgentTurnDiagnosticMetadata| #[trigger]
        act.on_supervisor_handoff(after, run, run_after, metadata) {
        let metadata = choose|metadata: AgentTurnDiagnosticMetadata| #[trigger]
            act.on_supervisor_handoff(after, run, run_after, metadata);
        if run_after.context != run.context {
            crate::references::one_fact_refers_back(
                run_after.context,
                run.context,
                EventCandidate::instant(
                    act.act_scope,
                    InstantDetail::ActSupervisorHandoff,
                    act.state.act_span_id,
                    CausalLink::to(
                        spec_either(
                            act.state.cancel_sequence,
                            act.state.turn_activity_sequence,
                        )->0,
                        CausalRelation::Handoff,
                    ),
                ),
            );
        }
    } else if act.turn_ends(after, run, run_after) {
        let (metadata, settlement, outcome, error_code, finished) = choose|
            metadata: AgentTurnDiagnosticMetadata,
            settlement: UsageFinalizationSettlement,
            outcome: AgentTurnDiagnosticOutcome,
            error_code: Option<&'static str>,
            finished: bool,
        | #[trigger]
            act.on_turn_terminal(
                after,
                run,
                run_after,
                metadata,
                settlement,
                outcome,
                error_code,
                finished,
            );
        if run_after.context != run.context {
            act.turn_terminal_refers_back(
                after,
                run,
                run_after,
                metadata,
                settlement,
                outcome,
                error_code,
                finished,
            );
        }
    } else if exists|terminal: TerminalSpan, finished: bool| #[trigger]
        act.on_caller_finished(after, run, run_after, terminal, finished) {
        let (terminal, finished) = choose|terminal: TerminalSpan, finished: bool| #[trigger]
            act.on_caller_finished(after, run, run_after, terminal, finished);
        if run_after.context != run.context {
            act.caller_end_refers_back(after, run, run_after, terminal, finished);
        }
    } else {
        let (ack, finished) = choose|ack: UsageFinalizationAck, finished: bool|
            crate::references::accepted_in(run.context.trace(), ack.usage_sequence)
                && #[trigger] act.on_usage_finalized(after, run, run_after, ack, finished);
        let acknowledged = ActLifecycleProducer {
            state: ActLifecycleState {
                usage_ack_sequence: Some(ack.usage_sequence),
                ..act.state
            },
            ..act
        };
        if run_after.context != run.context {
            acknowledged.finish_refers_back(after, run, run_after, finished);
        }
    }
}

/// What the turn of an act is told to have come to is what the run tells of it: the span of the turn
/// completed, was cancelled or failed exactly as the agent runtime said, with its code, and the turn is
/// no longer active. That the turn was settled is told exactly where its settlement is authoritative.
pub proof fn turn_ends_as_the_agent_said<A: SpanEventAdmission>(
    act: ActLifecycleProducer,
    after: ActLifecycleProducer,
    run: DiagnosticRun<A>,
    run_after: DiagnosticRun<A>,
    metadata: AgentTurnDiagnosticMetadata,
    settlement: UsageFinalizationSettlement,
    outcome: AgentTurnDiagnosticOutcome,
    error_code: Option<&'static str>,
    finished: bool,
)
    requires
        act.wf(),
        act.on_turn_terminal(
            after,
            run,
            run_after,
            metadata,
            settlement,
            outcome,
            error_code,
            finished,
        ),
        act.state.turn_terminal is None,
        after.state.turn_terminal is Some,
    ensures
        ({
            let facts = run_after.steps_since(run);
            let settled = if settlement is Authoritative { 1int } else { 0int };
            let turn = act.state.turn_span_id->0;
            &&& settlement !is NotSubmitted
            &&& after.state.settlement == Some(settlement)
            &&& act.state.turn_span_id is Some
            &&& facts.len() >= 3 + settled
            &&& facts[0].candidate.body matches crate::event::EventBody::InstantOccurred {
                instant: InstantDetail::AgentTurnTerminal { error_code: told },
                containing_span_id: Some(within),
            } && within == turn && (told is Some <==> outcome !is Completed)
            &&& facts[0].candidate.cause == Some(
                CausalLink {
                    sequence: match act.state.handoff_sequence {
                        Some(handoff) => handoff,
                        None => act.state.turn_activity_sequence->0,
                    },
                    relation: CausalRelation::Return,
                },
            )
            &&& settlement is Authoritative <==> (exists|i: int|
                0 <= i < 3 + settled && ((#[trigger] facts[i]).candidate.body matches
                    crate::event::EventBody::InstantOccurred {
                    instant: InstantDetail::AgentTurnSettled { .. },
                    ..
                }))
            &&& facts[1 + settled].candidate.body matches crate::event::EventBody::SpanFinished {
                span_id,
                outcome: told,
                error_code: code,
            } && {
                &&& span_id == turn
                &&& told is Completed <==> outcome is Completed
                &&& told is Cancelled <==> outcome is Cancelled
                &&& told is Failed <==> outcome is Failed
                &&& code is Some <==> outcome !is Completed
                &&& error_code matches Some(given) ==> code == Some(
                    crate::event::ErrorCode::Stable(given),
                )
            }
            &&& settlement is Authoritative ==> facts[1].candidate.cause == Some(
                CausalLink { sequence: facts[0].reply->Ok_0, relation: CausalRelation::FollowsFrom },
            )
            &&& facts[1 + settled].candidate.cause == Some(
                CausalLink { sequence: facts[settled].reply->Ok_0, relation: CausalRelation::Return },
            )
            &&& facts[2 + settled].candidate.cause == Some(
                CausalLink { sequence: facts[1 + settled].reply->Ok_0, relation: CausalRelation::FollowsFrom },
            )
            &&& facts[2 + settled].candidate.body == (crate::event::EventBody::CounterSampled {
                kind: CounterKind::AgentTurnActive,
                value: 0,
            })
            &&& forall|i: int|
                0 <= i < 3 + settled ==> Some((#[trigger] facts[i]).candidate.scope)
                    == act.state.turn_scope && facts[i].reply is Ok
            &&& after.state.turn_terminal matches Some(kept) && {
                &&& kept.outcome is Completed <==> outcome is Completed
                &&& kept.outcome is Cancelled <==> outcome is Cancelled
                &&& kept.outcome is Failed <==> outcome is Failed
                &&& kept.error_code == error_code
            }
            &&& after.state.turn_terminal_sequence == Some(facts[2 + settled].reply->Ok_0)
            &&& facts.len() > 3 + settled ==> {
                &&& facts.len() == 4 + settled
                &&& facts[3 + settled].candidate.body matches
                    crate::event::EventBody::SpanFinished { span_id, outcome: told, .. } && {
                    &&& Some(span_id) == act.state.act_span_id
                    &&& outcome is Cancelled ==> told is Cancelled
                    &&& outcome is Failed ==> told is Failed
                }
            }
        }),
{
    let plan = act.turn_end_plan(settlement, outcome, error_code);
    let between = choose|between: DiagnosticRun<A>|
        {
            &&& #[trigger] between.follows(run, plan)
            &&& if between.stopped_since(run) {
                after == act.failed() && run_after == between && !finished
            } else {
                act.with_turn_ended(
                    settlement,
                    spec_terminal_span(outcome, error_code),
                    between.accepted_since(run).last(),
                ).on_maybe_finish(after, between, run_after, finished)
            }
        };
    crate::references::planned_facts(run.context, between.context, plan);
    let first = between.steps_since(run);
    let facts = run_after.steps_since(run);
    let settled = if settlement is Authoritative { 1int } else { 0int };
    let given = |i: int| crate::references::sequences(first, i);
    assert(plan(given(0)) is Some);
    assert(plan(given(1)) is Some);
    assert(plan(given(2)) is Some);
    assert(plan(given(2 + settled)) is Some);
    assert(plan(given(3 + settled)) is None);
    assert(first.len() <= 3 + settled) by {
        if first.len() > 3 + settled {
            assert(plan(given(3 + settled)) == Some(first[3 + settled].candidate));
        }
    }
    assert(first.len() == 3 + settled);
    let ended = act.with_turn_ended(
        settlement,
        spec_terminal_span(outcome, error_code),
        between.accepted_since(run).last(),
    );
    if ended.can_finish() {
        crate::references::lone_fact(between.context, run_after.context, ended.finish_event());
        assert(facts =~= first + run_after.steps_since(between));
    } else {
        assert(facts =~= first);
    }
    if settlement is Authoritative {
        assert(facts[1].candidate.body matches crate::event::EventBody::InstantOccurred {
            instant: InstantDetail::AgentTurnSettled { .. },
            ..
        });
    }
}

/// The span of an act ends as the act did. A turn that was cancelled or failed decides. Where the turn
/// completed, or there was none, the act failed exactly where its caller failed; without a turn it ends
/// as its caller did. The end follows from the usage that is final.
pub proof fn act_ends_as_its_parts_did<A: SpanEventAdmission>(
    act: ActLifecycleProducer,
    after: ActLifecycleProducer,
    run: DiagnosticRun<A>,
    run_after: DiagnosticRun<A>,
    finished: bool,
)
    requires
        act.wf(),
        act.on_maybe_finish(after, run, run_after, finished),
        !act.state.finish_attempted,
        !act.state.producer_failed,
    ensures
        after.state.finish_attempted <==> run_after.steps_since(run).len() > 0,
        after.state.finish_attempted <==> act.state.act_span_id is Some
            && act.state.caller_terminal is Some && act.state.settlement is Some
            && act.state.usage_ack_sequence is Some,
        finished <==> after.state.finish_attempted && run_after.steps_since(run)[0].reply is Ok,
        after.state.finish_attempted ==> {
            let facts = run_after.steps_since(run);
            let caller = act.state.caller_terminal->0;
            let turn = act.state.turn_terminal;
            &&& facts.len() == 1
            &&& facts[0].candidate.scope == act.act_scope
            &&& facts[0].candidate.cause == Some(
                CausalLink {
                    sequence: act.state.usage_ack_sequence->0,
                    relation: CausalRelation::FollowsFrom,
                },
            )
            &&& facts[0].candidate.body matches crate::event::EventBody::SpanFinished {
                span_id,
                outcome,
                error_code,
            } && {
                &&& Some(span_id) == act.state.act_span_id
                &&& turn matches Some(turn) ==> {
                    &&& turn.outcome is Cancelled ==> outcome is Cancelled
                    &&& turn.outcome is Failed ==> outcome is Failed
                    &&& turn.outcome is Completed ==> (outcome is Failed <==> caller.outcome
                        is Failed)
                    &&& turn.outcome is Completed ==> outcome !is Cancelled
                }
                &&& turn is None ==> outcome == caller.outcome
                &&& turn is None || (turn->0.outcome is Completed && caller.outcome is Failed) ==> (
                error_code is Some <==> caller.error_code is Some) && (error_code is Some
                    ==> error_code->0@ == caller.error_code->0@)
                &&& turn is Some && !(turn->0.outcome is Completed && caller.outcome is Failed) ==> (
                error_code is Some <==> turn->0.error_code is Some) && (error_code is Some
                    ==> error_code->0@ == turn->0.error_code->0@)
                &&& error_code is Some ==> {
                    ||| error_code == Some(crate::event::ErrorCode::Stable(caller.error_code->0))
                    ||| turn is Some && error_code == Some(
                        crate::event::ErrorCode::Stable(turn->0.error_code->0),
                    )
                }
            }
        },
{
    if act.can_finish() {
        crate::references::lone_fact(run.context, run_after.context, act.finish_event());
    } else {
        assert(run_after.steps_since(run).len() == 0);
    }
}

/// The caller of an act leaves it as it did: its span completed exactly where it returned the value of
/// a coroutine, was cancelled exactly where it was cancelled, closed or cleared, or returned with a
/// cancellation, and failed otherwise. It has a code exactly where it did not complete.
pub proof fn caller_leaves_as_it_did<A: SpanEventAdmission>(
    act: ActLifecycleProducer,
    after: ActLifecycleProducer,
    run: DiagnosticRun<A>,
    run_after: DiagnosticRun<A>,
    exit: ActCallerExit,
    error: Option<ErrorClass>,
    finished: bool,
)
    requires
        act.wf(),
        act.on_caller_finished(
            after,
            run,
            run_after,
            spec_caller_terminal(exit, error),
            finished,
        ),
        !act.state.producer_failed,
        act.state.caller_span_id is Some,
        act.state.caller_terminal is None,
    ensures
        ({
            let facts = run_after.steps_since(run);
            let returned = exit is Returned && error is Some;
            let completed = returned && error->0.stop_iteration;
            let cancelled = exit is Cancelled || exit is Closed || exit is Cleared || (returned
                && !error->0.stop_iteration && error->0.cancelled);
            &&& 1 <= facts.len() <= 2
            &&& facts[0].candidate.scope == act.act_scope
            &&& facts[0].candidate.body matches crate::event::EventBody::SpanFinished {
                span_id,
                outcome,
                error_code,
            } && {
                &&& Some(span_id) == act.state.caller_span_id
                &&& outcome is Completed <==> completed
                &&& outcome is Cancelled <==> cancelled
                &&& outcome is Failed <==> !completed && !cancelled
                &&& error_code is None <==> completed
                &&& cancelled ==> error_code->0@ == "act-caller-cancelled"@
                &&& !completed && !cancelled ==> error_code->0@ == "act-caller-failed"@
            }
            &&& facts[0].candidate.cause matches Some(cause) && {
                &&& cause.relation is Handoff <==> cancelled
                &&& cause.relation is Return <==> !cancelled
                &&& act.state.cancel_sequence matches Some(asked) ==> cause.sequence == asked
                &&& act.state.cancel_sequence is None ==> {
                    &&& act.state.turn_terminal_sequence matches Some(ended) ==> cause.sequence
                        == ended
                    &&& act.state.turn_terminal_sequence is None ==> {
                        &&& act.state.turn_activity_sequence matches Some(active) ==> cause.sequence
                            == active
                        &&& act.state.turn_activity_sequence is None ==> cause.sequence
                            == match act.state.waiting_sequence {
                            Some(waiting) => waiting,
                            None => act.state.admitted_sequence->0,
                        }
                    }
                }
            }
            &&& facts[0].reply is Ok ==> {
                &&& after.state.caller_terminal matches Some(kept)
                &&& kept.outcome is Completed <==> completed
                &&& kept.outcome is Cancelled <==> cancelled
                &&& act.state.prompt_sequence is None ==> after.state.settlement
                    == match act.state.settlement {
                    Some(settlement) => Some(settlement),
                    None => Some(UsageFinalizationSettlement::NotSubmitted),
                }
                &&& act.state.prompt_sequence is Some ==> after.state.settlement
                    == act.state.settlement
            }
            &&& facts[0].reply is Err ==> after.state.producer_failed && facts.len() == 1
        }),
{
    let terminal = spec_caller_terminal(exit, error);
    let event = act.caller_end(terminal);
    let between = choose|between: DiagnosticRun<A>|
        {
            &&& #[trigger] between.follows(run, event.alone())
            &&& if between.stopped_since(run) {
                after == act.failed() && run_after == between && !finished
            } else {
                act.with_caller_ended(terminal).on_maybe_finish(
                    after,
                    between,
                    run_after,
                    finished,
                )
            }
        };
    crate::references::lone_fact(run.context, between.context, event);
    let ended = act.with_caller_ended(terminal);
    let facts = run_after.steps_since(run);
    if between.stopped_since(run) {
        assert(facts =~= between.steps_since(run));
    } else if ended.can_finish() {
        crate::references::lone_fact(between.context, run_after.context, ended.finish_event());
        assert(facts =~= between.steps_since(run) + run_after.steps_since(between));
    } else {
        assert(facts =~= between.steps_since(run));
    }
}

/// An act that is admitted begins, with its caller within it, and that it was admitted is told within
/// it.
pub proof fn admitted_act_begins_with_its_caller<A: SpanEventAdmission>(
    act: ActLifecycleProducer,
    after: ActLifecycleProducer,
    run: DiagnosticRun<A>,
    run_after: DiagnosticRun<A>,
)
    requires
        run_after.follows(run, act.start_plan()),
        act.is_started(after, run, run_after),
        act.state.act_span_id is None && act.state.caller_span_id is None
            && act.state.admitted_sequence is None,
    ensures
        ({
            let facts = run_after.steps_since(run);
            &&& 1 <= facts.len() <= 3
            &&& facts[0].candidate.body matches crate::event::EventBody::SpanStarted {
                detail: SpanStartDetail::ActLifecycle(session),
                parent_span_id: None,
            } && {
                &&& session.provider == act.session.provider
                &&& session.model == act.session.effective_model
                &&& session.effort == act.session.effective_effort
            }
            &&& facts[0].candidate.cause is None
            &&& facts.len() >= 2 ==> facts[1].candidate.cause is None
            &&& facts.len() >= 2 ==> facts[1].candidate.body == (
            crate::event::EventBody::SpanStarted {
                detail: SpanStartDetail::ActCaller,
                parent_span_id: Some(facts[0].reply->Ok_0),
            })
            &&& facts.len() == 3 ==> {
                &&& facts[2].candidate.body == (crate::event::EventBody::InstantOccurred {
                    instant: InstantDetail::ActAdmitted,
                    containing_span_id: Some(facts[0].reply->Ok_0),
                })
                &&& facts[2].candidate.cause == Some(
                    CausalLink {
                        sequence: facts[1].reply->Ok_0,
                        relation: CausalRelation::FollowsFrom,
                    },
                )
            }
            &&& forall|i: int|
                0 <= i < facts.len() ==> (#[trigger] facts[i]).candidate.scope == act.act_scope
            &&& after.state.producer_failed <==> facts.last().reply is Err
            &&& !after.state.producer_failed ==> {
                &&& facts.len() == 3
                &&& after.state.act_span_id == Some(facts[0].reply->Ok_0)
                &&& after.state.caller_span_id == Some(facts[1].reply->Ok_0)
                &&& after.state.admitted_sequence == Some(facts[2].reply->Ok_0)
            }
        }),
{
    let plan = act.start_plan();
    crate::references::planned_facts(run.context, run_after.context, plan);
    let facts = run_after.steps_since(run);
    let given = |i: int| crate::references::sequences(facts, i);
    assert(plan(given(0)) is Some);
    assert(plan(given(1)) is Some);
    assert(plan(given(2)) is Some);
    assert(plan(given(3)) is None);
    assert(facts.len() <= 3) by {
        if facts.len() > 3 {
            assert(plan(given(3)) == Some(facts[3].candidate));
        }
    }
}

/// An act whose driver has started waits, within its span, once: before its caller has left.
pub proof fn started_driver_waits<A: SpanEventAdmission>(
    act: ActLifecycleProducer,
    after: ActLifecycleProducer,
    run: DiagnosticRun<A>,
    run_after: DiagnosticRun<A>,
)
    requires
        act.wf(),
        act.on_driver_started(after, run, run_after),
        !act.state.producer_failed,
        act.state.act_span_id is Some,
    ensures
        act.state.waiting_sequence is Some || act.state.caller_terminal is Some
            ==> run_after.context == run.context && after.state.producer_failed,
        act.state.waiting_sequence is None && act.state.caller_terminal is None ==> {
            let facts = run_after.steps_since(run);
            &&& facts.len() == 1
            &&& facts[0].candidate.scope == act.act_scope
            &&& facts[0].candidate.body == (crate::event::EventBody::InstantOccurred {
                instant: InstantDetail::ActWaitingReady,
                containing_span_id: act.state.act_span_id,
            })
            &&& facts[0].candidate.cause == Some(
                CausalLink {
                    sequence: act.state.admitted_sequence->0,
                    relation: CausalRelation::FollowsFrom,
                },
            )
            &&& facts[0].reply is Ok ==> after.state.waiting_sequence == Some(facts[0].reply->Ok_0)
            &&& after.state.producer_failed <==> facts[0].reply is Err
        },
{
    if act.state.waiting_sequence is None && act.state.caller_terminal is None {
        crate::references::lone_fact(
            run.context,
            run_after.context,
            EventCandidate::instant(
                act.act_scope,
                InstantDetail::ActWaitingReady,
                Some(act.state.act_span_id->0),
                CausalLink::after(act.state.admitted_sequence->0),
            ),
        );
    }
}

/// A prompt that is submitted is told in the act, the turn begins in the act because of it, counts as
/// active, and its activity is told within it.
pub proof fn submitted_prompt_begins_the_turn<A: SpanEventAdmission>(
    act: ActLifecycleProducer,
    after: ActLifecycleProducer,
    run: DiagnosticRun<A>,
    run_after: DiagnosticRun<A>,
    metadata: AgentTurnDiagnosticMetadata,
)
    requires
        act.wf(),
        act.on_prompt_submitted(after, run, run_after, metadata),
        !act.state.producer_failed,
        act.state.prompt_sequence is None,
        after.usage.prompt_submitted,
    ensures
        ({
            let facts = run_after.steps_since(run);
            &&& act.state.waiting_sequence is Some && act.state.caller_terminal is None
                && act.state.settlement is None
            &&& 1 <= facts.len() <= 4
            &&& facts[0].candidate.body == (crate::event::EventBody::InstantOccurred {
                instant: InstantDetail::ActPromptSubmitted,
                containing_span_id: act.state.act_span_id,
            })
            &&& facts[0].candidate.scope == act.act_scope
            &&& facts[0].candidate.cause == Some(
                CausalLink {
                    sequence: act.state.waiting_sequence->0,
                    relation: CausalRelation::FollowsFrom,
                },
            )
            &&& facts.len() >= 2 ==> {
                &&& facts[1].candidate.body matches crate::event::EventBody::SpanStarted {
                    detail: SpanStartDetail::AgentTurn(session),
                    parent_span_id,
                } && {
                    &&& parent_span_id == act.state.act_span_id
                    &&& session.provider == metadata.provider
                    &&& session.model == Some(metadata.effective_model)
                    &&& session.effort == metadata.effective_effort
                }
                &&& facts[1].candidate.cause == Some(
                    CausalLink {
                        sequence: facts[0].reply->Ok_0,
                        relation: CausalRelation::Dispatch,
                    },
                )
            }
            &&& facts.len() >= 3 ==> facts[2].candidate.body == (
            crate::event::EventBody::CounterSampled {
                kind: CounterKind::AgentTurnActive,
                value: 1,
            })
            &&& facts.len() >= 3 ==> facts[2].candidate.cause == Some(
                CausalLink { sequence: facts[1].reply->Ok_0, relation: CausalRelation::FollowsFrom },
            )
            &&& facts.len() == 4 ==> facts[3].candidate.cause == Some(
                CausalLink { sequence: facts[2].reply->Ok_0, relation: CausalRelation::FollowsFrom },
            )
            &&& facts.len() == 4 ==> facts[3].candidate.body == (
            crate::event::EventBody::InstantOccurred {
                instant: InstantDetail::AgentTurnActivity,
                containing_span_id: Some(facts[1].reply->Ok_0),
            })
            &&& forall|i: int|
                1 <= i < facts.len() ==> {
                    let scope = (#[trigger] facts[i]).candidate.scope;
                    &&& scope.act_id == act.act_scope.act_id
                    &&& scope.cue_id == act.act_scope.cue_id
                    &&& scope.actor_id == act.act_scope.actor_id
                    &&& scope.scene_id == act.act_scope.scene_id
                    &&& scope.tool_call_id is None && scope.effect_id is None
                    &&& scope.session_generation == Some(metadata.session_generation)
                }
            &&& after.state.producer_failed <==> facts.last().reply is Err
            &&& !after.state.producer_failed ==> {
                &&& facts.len() == 4
                &&& after.state.prompt_sequence == Some(facts[0].reply->Ok_0)
                &&& after.state.turn_span_id == Some(facts[1].reply->Ok_0)
                &&& after.state.turn_activity_sequence == Some(facts[3].reply->Ok_0)
                &&& after.state.turn_scope == Some(facts[1].candidate.scope)
            }
        }),
{
    let plan = act.prompt_plan(metadata, act.state.act_span_id->0, act.state.waiting_sequence->0);
    assert(run_after.follows(run, plan));
    crate::references::planned_facts(run.context, run_after.context, plan);
    let facts = run_after.steps_since(run);
    let given = |i: int| crate::references::sequences(facts, i);
    assert(plan(given(0)) is Some);
    assert(plan(given(1)) is Some);
    assert(plan(given(2)) is Some);
    assert(plan(given(3)) is Some);
    assert(plan(given(4)) is None);
    assert(facts.len() <= 4) by {
        if facts.len() > 4 {
            assert(plan(given(4)) == Some(facts[4].candidate));
        }
    }
}

/// A turn is taken for the act's own only where the agent runtime names the act, its turn and its
/// session, its provider, and its generation where that is known.
pub proof fn turn_is_the_acts_own(
    act: ActLifecycleProducer,
    metadata: AgentTurnDiagnosticMetadata,
)
    ensures
        act.turn_mismatch(metadata) is None <==> {
            &&& metadata.identity.act_id@ == act.identity.act_id@
            &&& metadata.identity.turn_id@ == act.identity.turn_id@
            &&& metadata.identity.context.actor_id@ == act.identity.context.actor_id@
            &&& metadata.identity.context.session_id@ == act.identity.context.session_id@
            &&& metadata.provider@ == act.session.provider@
            &&& act.session.generation is None || act.session.generation == Some(
                metadata.session_generation,
            )
        },
{
}

/// A request to cancel an act is told once, within its caller's span, while the caller is there. It
/// comes of the latest that is known of the act. A hand-over to the supervisor is told once, within the
/// act, while its turn goes on; it comes of the request to cancel, where there was one.
pub proof fn cancelling_and_handing_over_are_told_once<A: SpanEventAdmission>(
    act: ActLifecycleProducer,
    after: ActLifecycleProducer,
    run: DiagnosticRun<A>,
    run_after: DiagnosticRun<A>,
    metadata: AgentTurnDiagnosticMetadata,
    cancels: bool,
)
    requires
        act.wf(),
        !act.state.producer_failed,
        act.state.act_span_id is Some,
        if cancels {
            act.on_cancel_requested(after, run, run_after)
        } else {
            act.on_supervisor_handoff(after, run, run_after, metadata) && act.turn_mismatch(
                metadata,
            ) is None
        },
    ensures
        ({
            let facts = run_after.steps_since(run);
            let told = if cancels {
                act.state.cancel_sequence is None && act.state.caller_terminal is None
            } else {
                act.state.handoff_sequence is None && act.state.turn_terminal is None
                    && act.state.turn_activity_sequence is Some
            };
            &&& facts.len() == if told { 1int } else { 0int }
            &&& told ==> {
                &&& facts[0].candidate.scope == act.act_scope
                &&& facts[0].candidate.cause matches Some(cause)
                &&& cause.relation is Handoff
                &&& if cancels {
                    &&& facts[0].candidate.body == (crate::event::EventBody::InstantOccurred {
                        instant: InstantDetail::ActCancelRequested,
                        containing_span_id: act.state.caller_span_id,
                    })
                    &&& act.state.turn_terminal_sequence matches Some(ended) ==> cause.sequence
                        == ended
                    &&& act.state.turn_terminal_sequence is None ==> {
                        &&& act.state.handoff_sequence matches Some(given) ==> cause.sequence
                            == given
                        &&& act.state.handoff_sequence is None ==> {
                            &&& act.state.turn_activity_sequence matches Some(active)
                                ==> cause.sequence == active
                            &&& act.state.turn_activity_sequence is None ==> cause.sequence
                                == match act.state.waiting_sequence {
                                Some(waiting) => waiting,
                                None => act.state.admitted_sequence->0,
                            }
                        }
                    }
                    &&& facts[0].reply is Ok ==> after.state.cancel_sequence == Some(
                        facts[0].reply->Ok_0,
                    )
                } else {
                    &&& facts[0].candidate.body == (crate::event::EventBody::InstantOccurred {
                        instant: InstantDetail::ActSupervisorHandoff,
                        containing_span_id: act.state.act_span_id,
                    })
                    &&& cause.sequence == match act.state.cancel_sequence {
                        Some(asked) => asked,
                        None => act.state.turn_activity_sequence->0,
                    }
                    &&& facts[0].reply is Ok ==> after.state.handoff_sequence == Some(
                        facts[0].reply->Ok_0,
                    )
                }
                &&& after.state.producer_failed <==> facts[0].reply is Err
            }
        }),
{
    if cancels && act.state.cancel_sequence is None && act.state.caller_terminal is None {
        crate::references::lone_fact(
            run.context,
            run_after.context,
            EventCandidate::instant(
                act.act_scope,
                InstantDetail::ActCancelRequested,
                Some(act.state.caller_span_id->0),
                CausalLink::to(act.latest_for_cancel()->0, CausalRelation::Handoff),
            ),
        );
    } else if !cancels && act.state.handoff_sequence is None && act.state.turn_terminal is None
        && act.state.turn_activity_sequence is Some {
        let source = spec_either(act.state.cancel_sequence, act.state.turn_activity_sequence)->0;
        crate::references::lone_fact(
            run.context,
            run_after.context,
            EventCandidate::instant(
                act.act_scope,
                InstantDetail::ActSupervisorHandoff,
                Some(act.state.act_span_id->0),
                CausalLink::to(source, CausalRelation::Handoff),
            ),
        );
    } else {
        assert(run_after.steps_since(run).len() == 0);
    }
}

/// A settlement of the agent runtime is kept under its own name.
pub proof fn settlements_keep_their_names(settlement: AgentTurnDiagnosticSettlement)
    ensures
        spec_usage_settlement(settlement) is NotSubmitted <==> settlement is NotSubmitted,
        spec_usage_settlement(settlement) is Authoritative <==> settlement is Authoritative,
        spec_usage_settlement(settlement) is Unknown <==> settlement is Unknown,
{
}

/// What hangs in an act hangs in its turn while the turn goes on, and in the act otherwise, under the
/// scope of the turn once there was one. An act that is over has nothing hang in it.
pub proof fn facts_hang_in_the_turn_while_it_goes_on(act: ActLifecycleProducer)
    requires
        act.wf(),
    ensures
        act.spec_snapshot() is Some <==> act.state.act_span_id is Some && !act.state.producer_failed
            && !act.state.finish_attempted,
        act.spec_snapshot() matches Some(snapshot) ==> {
            &&& Some(snapshot.act_span_id) == act.state.act_span_id
            &&& snapshot.act_scope == act.act_scope
            &&& snapshot.run == act.run
            &&& act.state.turn_span_id is Some && act.state.turn_terminal is None ==> Some(
                snapshot.containing_span_id,
            ) == act.state.turn_span_id
            &&& act.state.turn_span_id is None || act.state.turn_terminal is Some
                ==> snapshot.containing_span_id == snapshot.act_span_id
            &&& act.state.turn_scope is Some ==> Some(snapshot.event_scope) == act.state.turn_scope
            &&& act.state.turn_scope is None ==> snapshot.event_scope == act.act_scope
        },
{
}

/// The usage of an act is final once: with the acknowledgement of its own slot, which was given away,
/// after the act was settled.
pub proof fn usage_is_acknowledged_once<A: SpanEventAdmission>(
    act: ActLifecycleProducer,
    after: ActLifecycleProducer,
    run: DiagnosticRun<A>,
    run_after: DiagnosticRun<A>,
    ack: UsageFinalizationAck,
    finished: bool,
)
    requires
        act.on_usage_finalized(after, run, run_after, ack, finished),
        !act.state.producer_failed,
    ensures
        after.state.usage_ack_sequence != act.state.usage_ack_sequence ==> {
            &&& act.state.usage_ack_sequence is None
            &&& after.state.usage_ack_sequence == Some(ack.usage_sequence)
            &&& ack.serial == act.usage.serial
            &&& act.state.usage_slot is None
            &&& act.state.settlement is Some
        },
        act.state.usage_ack_sequence is None && ack.serial == act.usage.serial
            && act.state.usage_slot is None && act.state.settlement is Some
            ==> after.state.usage_ack_sequence == Some(ack.usage_sequence),
        after.state.usage_ack_sequence == act.state.usage_ack_sequence
            && act.state.usage_ack_sequence is None ==> after.state.producer_failed,
{
}

/// A prompt is taken exactly where it is of this act's turn and in order: after the driver has
/// started, before another prompt, before the caller has left and before the act was settled. Out
/// of order nothing is told, and the act's producer has failed.
pub proof fn prompts_are_taken_in_order<A: SpanEventAdmission>(
    act: ActLifecycleProducer,
    after: ActLifecycleProducer,
    run: DiagnosticRun<A>,
    run_after: DiagnosticRun<A>,
    metadata: AgentTurnDiagnosticMetadata,
)
    requires
        act.wf(),
        act.on_prompt_submitted(after, run, run_after, metadata),
        !act.state.producer_failed,
        !act.usage.prompt_submitted,
    ensures
        ({
            let taken = act.turn_mismatch(metadata) is None && act.state.act_span_id is Some
                && act.state.waiting_sequence is Some && act.state.prompt_sequence is None
                && act.state.caller_terminal is None && act.state.settlement is None;
            &&& taken <==> run_after.steps_since(run).len() > 0
            &&& taken <==> after.usage.prompt_submitted
            &&& !taken ==> after.state.producer_failed && run_after.failure is Some
            &&& !taken && run.failure is None && act.turn_mismatch(metadata) is None
                ==> run_after.failure->0.spec_code() == if act.state.act_span_id is None
                || act.state.waiting_sequence is None {
                "act.prompt-before-driver"@
            } else {
                "act.prompt-transition-invalid"@
            }
            &&& taken ==> (after.state.producer_failed <==> run_after.steps_since(run).last().reply
                is Err)
            &&& taken && !after.state.producer_failed ==> after.state.prompt_sequence is Some
                && after.state.turn_span_id is Some && after.state.turn_activity_sequence is Some
        }),
{
    let taken = act.turn_mismatch(metadata) is None && act.state.act_span_id is Some
        && act.state.waiting_sequence is Some && act.state.prompt_sequence is None
        && act.state.caller_terminal is None && act.state.settlement is None;
    let facts = run_after.steps_since(run);
    if taken {
        let plan = act.prompt_plan(
            metadata,
            act.state.act_span_id->0,
            act.state.waiting_sequence->0,
        );
        crate::references::planned_facts(run.context, run_after.context, plan);
        assert(plan(crate::references::sequences(facts, 0)) is Some);
    } else {
        assert(facts.len() == 0);
    }
}

/// The end of a turn is taken exactly where it is of this act's turn and in order: before the act
/// was settled, with a code exactly where it did not complete, as not submitted only before a
/// prompt and otherwise only after one. Out of order nothing is told, and the act's producer has
/// failed.
pub proof fn turn_ends_are_taken_in_order<A: SpanEventAdmission>(
    act: ActLifecycleProducer,
    after: ActLifecycleProducer,
    run: DiagnosticRun<A>,
    run_after: DiagnosticRun<A>,
    metadata: AgentTurnDiagnosticMetadata,
    settlement: UsageFinalizationSettlement,
    outcome: AgentTurnDiagnosticOutcome,
    error_code: Option<&'static str>,
    finished: bool,
)
    requires
        act.wf(),
        act.on_turn_terminal(
            after,
            run,
            run_after,
            metadata,
            settlement,
            outcome,
            error_code,
            finished,
        ),
        !act.state.producer_failed,
        act.state.settlement is None,
    ensures
        ({
            let detailed = error_code is Some <==> outcome !is Completed;
            let own = act.turn_mismatch(metadata) is None;
            let ends = own && detailed && settlement !is NotSubmitted && act.state.prompt_sequence
                is Some;
            let never = own && detailed && settlement is NotSubmitted && act.state.prompt_sequence
                is None;
            &&& ends ==> run_after.steps_since(run).len() > 0
            &&& ends && after.state.producer_failed ==> run_after.steps_since(run).last().reply
                is Err
            &&& ends && run_after.steps_since(run).last().reply is Ok ==> after.state.turn_terminal
                is Some && after.state.settlement == Some(settlement)
            &&& never ==> after.state.settlement == Some(UsageFinalizationSettlement::NotSubmitted)
            &&& !ends && !never ==> {
                &&& run_after.steps_since(run).len() == 0
                &&& after.state.producer_failed
                &&& run_after.failure is Some
                &&& !finished
                &&& after.state.settlement is None
                &&& run.failure is None && own ==> run_after.failure->0.spec_code()
                    == if !detailed {
                    "act.turn-terminal-detail-invalid"@
                } else if settlement is NotSubmitted {
                    "act.not-submitted-after-turn-start"@
                } else {
                    "act.turn-terminal-before-start"@
                }
            }
        }),
{
    let detailed = error_code is Some <==> outcome !is Completed;
    let own = act.turn_mismatch(metadata) is None;
    let facts = run_after.steps_since(run);
    if own && detailed && settlement !is NotSubmitted && act.state.prompt_sequence is Some {
        let plan = act.turn_end_plan(settlement, outcome, error_code);
        let between = choose|between: DiagnosticRun<A>|
            {
                &&& #[trigger] between.follows(run, plan)
                &&& if between.stopped_since(run) {
                    after == act.failed() && run_after == between && !finished
                } else {
                    act.with_turn_ended(
                        settlement,
                        spec_terminal_span(outcome, error_code),
                        between.accepted_since(run).last(),
                    ).on_maybe_finish(after, between, run_after, finished)
                }
            };
        crate::references::planned_facts(run.context, between.context, plan);
        let first = between.steps_since(run);
        assert(plan(crate::references::sequences(first, 0)) is Some);
        assert(first.len() > 0);
        if !between.stopped_since(run) {
            let ended = act.with_turn_ended(
                settlement,
                spec_terminal_span(outcome, error_code),
                between.accepted_since(run).last(),
            );
            if ended.can_finish() {
                crate::references::lone_fact(
                    between.context,
                    run_after.context,
                    ended.finish_event(),
                );
                assert(run_after.steps_since(run) =~= first + run_after.steps_since(between));
            } else {
                assert(run_after.steps_since(run) =~= first);
            }
        }
    } else if !(own && detailed && settlement is NotSubmitted && act.state.prompt_sequence is None) {
        assert(facts.len() == 0);
    }
}

/// A turn that is not the act's own is told by what differs: what it is called, who serves it, or
/// its generation, in that order.
pub proof fn foreign_turns_are_told_by_what_differs(
    act: ActLifecycleProducer,
    metadata: AgentTurnDiagnosticMetadata,
)
    ensures
        ({
            let told = act.turn_mismatch(metadata);
            let called = metadata.identity.act_id@ == act.identity.act_id@
                && metadata.identity.turn_id@ == act.identity.turn_id@
                && metadata.identity.context.actor_id@ == act.identity.context.actor_id@
                && metadata.identity.context.session_id@ == act.identity.context.session_id@;
            let served = metadata.provider@ == act.session.provider@;
            &&& !called ==> told->0@ == "act.turn-identity-mismatch"@
            &&& called && !served ==> told->0@ == "act.turn-provider-mismatch"@
            &&& called && served && told is Some ==> told->0@ == "act.turn-generation-mismatch"@
        }),
{
}

} // verus!
