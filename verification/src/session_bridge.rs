//! The sessions of agents, as the run records them.
use crate::agent::{AgentSessionDiagnosticContext, AgentSessionDiagnosticMetadata};
use crate::context::{DiagnosticRunContext, ReportFault, SpanEventAdmission};
use crate::event::{
    caused_by, copy_text, follows_from, AgentSessionDetail, CausalLink, CausalRelation,
    DiagnosticScope, ErrorCode, EventBody, EventCandidate, InstantDetail, RunLocalId, SpanOutcome,
    SpanStartDetail,
};
use vstd::prelude::*;

verus! {

/// A span that has started, with the scope that it ends in.
#[derive(Debug, PartialEq, Eq)]
pub struct OpenSpan {
    pub span_id: u64,
    pub scope: DiagnosticScope,
}

impl Clone for OpenSpan {
    fn clone(&self) -> (copy: Self)
        ensures
            copy == *self,
    {
        OpenSpan { span_id: self.span_id, scope: self.scope.clone() }
    }
}

/// What the agent runtime tells of a session.
#[derive(Debug, PartialEq, Eq)]
pub struct SessionNotice {
    pub metadata: AgentSessionDiagnosticMetadata,
    /// The id of the session's actor can serve as an identifier.
    pub actor_id_valid: bool,
}

/// The identifier of a session's actor, where its id can serve as one.
pub open spec fn spec_actor_of(context: AgentSessionDiagnosticContext, valid: bool) -> Option<
    RunLocalId,
> {
    if valid {
        Some(RunLocalId { text: context.actor_id })
    } else {
        None
    }
}

pub fn actor_of(context: &AgentSessionDiagnosticContext, valid: bool) -> (actor_id: Option<
    RunLocalId,
>)
    ensures
        actor_id == spec_actor_of(*context, valid),
{
    if valid {
        Some(RunLocalId { text: context.actor_id.clone() })
    } else {
        None
    }
}

impl SessionNotice {
    /// The identifier of the session's actor, where its id can serve as one.
    pub open spec fn spec_actor_id(self) -> Option<RunLocalId> {
        spec_actor_of(self.metadata.context, self.actor_id_valid)
    }

    pub fn actor_id(&self) -> (actor_id: Option<RunLocalId>)
        ensures
            actor_id == self.spec_actor_id(),
    {
        actor_of(&self.metadata.context, self.actor_id_valid)
    }
}

/// The stable code of a refusal.
pub open spec fn spec_fault_code(fault: ReportFault) -> &'static str {
    match fault {
        ReportFault::Clock => "observation_clock_failed",
        ReportFault::Hub => "canonical_admission_failed",
    }
}

pub fn fault_code(fault: ReportFault) -> (code: &'static str)
    ensures
        code == spec_fault_code(fault),
{
    match fault {
        ReportFault::Clock => "observation_clock_failed",
        ReportFault::Hub => "canonical_admission_failed",
    }
}

/// The scope of a session.
pub open spec fn spec_session_scope(actor_id: RunLocalId, generation: Option<u64>) ->
    DiagnosticScope {
    DiagnosticScope {
        actor_id: Some(actor_id),
        session_generation: generation,
        ..DiagnosticScope::of_run()
    }
}

pub fn session_scope(actor_id: &RunLocalId, generation: Option<u64>) -> (scope: DiagnosticScope)
    ensures
        scope == spec_session_scope(*actor_id, generation),
{
    DiagnosticScope {
        scene_id: None,
        actor_id: Some(actor_id.clone()),
        cue_id: None,
        effect_id: None,
        act_id: None,
        tool_call_id: None,
        session_generation: generation,
    }
}

/// The model that a session uses: the one in effect, else the requested one.
pub open spec fn spec_effective_model(metadata: AgentSessionDiagnosticMetadata) -> Option<String> {
    match metadata.effective_model {
        Some(model) => Some(model),
        None => Some(metadata.requested_model),
    }
}

/// The effort that a session makes: the one in effect, else the requested one, if any.
pub open spec fn spec_effective_effort(metadata: AgentSessionDiagnosticMetadata) -> Option<String> {
    match metadata.effective_effort {
        Some(effort) => Some(effort),
        None => metadata.requested_effort,
    }
}

pub open spec fn spec_session_detail(metadata: AgentSessionDiagnosticMetadata) ->
    AgentSessionDetail {
    AgentSessionDetail {
        provider: metadata.provider,
        model: spec_effective_model(metadata),
        effort: spec_effective_effort(metadata),
    }
}

pub fn effective_model(metadata: &AgentSessionDiagnosticMetadata) -> (model: Option<String>)
    ensures
        model == spec_effective_model(*metadata),
{
    match &metadata.effective_model {
        Some(model) => Some(model.clone()),
        None => Some(metadata.requested_model.clone()),
    }
}

pub fn effective_effort(metadata: &AgentSessionDiagnosticMetadata) -> (effort: Option<String>)
    ensures
        effort == spec_effective_effort(*metadata),
{
    match &metadata.effective_effort {
        Some(effort) => Some(effort.clone()),
        None => copy_text(&metadata.requested_effort),
    }
}

pub fn session_detail(metadata: &AgentSessionDiagnosticMetadata) -> (detail: AgentSessionDetail)
    ensures
        detail == spec_session_detail(*metadata),
{
    AgentSessionDetail {
        provider: metadata.provider.clone(),
        model: effective_model(metadata),
        effort: effective_effort(metadata),
    }
}

/// An attempt to open a session, by its generation.
#[derive(Debug, PartialEq, Eq)]
pub struct OpeningAttempt {
    pub generation: u64,
    pub span: OpenSpan,
}

/// How far a session has come.
#[derive(Debug, PartialEq, Eq)]
pub struct SessionProjection {
    pub key: AgentSessionDiagnosticContext,
    pub provider: String,
    pub requested_model: String,
    pub lifecycle: OpenSpan,
    pub opening: Option<OpeningAttempt>,
    pub closing: Option<OpenSpan>,
    pub ready: bool,
    pub broken_code: Option<&'static str>,
    pub closed: bool,
    pub last_sequence: u64,
}

/// What came of facts that were to be reported one after the other: the code of the refusal that
/// stopped them, if any.
pub open spec fn refusal_code<A: SpanEventAdmission>(
    context: DiagnosticRunContext<A>,
    before: DiagnosticRunContext<A>,
) -> Option<&'static str> {
    if context.stopped_since(before) {
        Some(spec_fault_code(context.steps_since(before).last().fault()))
    } else {
        None
    }
}

/// The last sequence that the hub gave, else the one before.
pub open spec fn latest(accepted: Seq<u64>, before: u64) -> u64 {
    if accepted.len() > 0 {
        accepted.last()
    } else {
        before
    }
}

/// A step that a session does not allow.
pub open spec fn invalid() -> &'static str {
    "observation_session_transition_invalid"
}

impl SessionProjection {
    /// The notice is of this session.
    pub open spec fn concerns(self, metadata: AgentSessionDiagnosticMetadata) -> bool {
        &&& self.provider@ == metadata.provider@
        &&& self.requested_model@ == metadata.requested_model@
    }

    pub fn accepts(&self, metadata: &AgentSessionDiagnosticMetadata) -> (accepted: bool)
        ensures
            accepted == self.concerns(*metadata),
    {
        self.provider == metadata.provider && self.requested_model == metadata.requested_model
    }

    /// The start of a session's span.
    pub open spec fn lifecycle_event(actor_id: RunLocalId, metadata: AgentSessionDiagnosticMetadata) ->
        EventCandidate {
        EventCandidate::started(
            spec_session_scope(actor_id, None),
            SpanStartDetail::AgentSessionLifecycle(spec_session_detail(metadata)),
            None,
            None,
        )
    }

    /// A session whose span has just started.
    pub open spec fn begun(
        actor_id: RunLocalId,
        metadata: AgentSessionDiagnosticMetadata,
        span_id: u64,
    ) -> Self {
        SessionProjection {
            key: metadata.context,
            provider: metadata.provider,
            requested_model: metadata.requested_model,
            lifecycle: OpenSpan { span_id, scope: spec_session_scope(actor_id, None) },
            opening: None,
            closing: None,
            ready: false,
            broken_code: None,
            closed: false,
            last_sequence: span_id,
        }
    }

    /// What came of the start of a session.
    pub open spec fn begins<A: SpanEventAdmission>(
        context: DiagnosticRunContext<A>,
        context_after: DiagnosticRunContext<A>,
        notice: SessionNotice,
        session: Result<Self, &'static str>,
    ) -> bool {
        match notice.spec_actor_id() {
            None => {
                &&& session == Err::<Self, &'static str>("observation_identifier_invalid")
                &&& context_after == context
            },
            Some(actor_id) => {
                &&& context_after.reports(
                    context,
                    SessionProjection::lifecycle_event(actor_id, notice.metadata).alone(),
                )
                &&& match refusal_code(context_after, context) {
                    Some(code) => session == Err::<Self, &'static str>(code),
                    None => session == Ok::<Self, &'static str>(
                        SessionProjection::begun(
                            actor_id,
                            notice.metadata,
                            context_after.accepted_since(context)[0],
                        ),
                    ),
                }
            },
        }
    }

    /// Starts the span of a session.
    pub fn begin<A: SpanEventAdmission>(
        context: &mut DiagnosticRunContext<A>,
        notice: &SessionNotice,
    ) -> (session: Result<Self, &'static str>)
        ensures
            SessionProjection::begins(*old(context), *final(context), *notice, session),
    {
        let known = notice.actor_id();
        let actor_id = match &known {
            Some(actor_id) => actor_id,
            None => return Err("observation_identifier_invalid"),
        };
        let metadata = &notice.metadata;
        let scope = session_scope(actor_id, None);
        match context.report_or_why(
            EventCandidate {
                unheard: false,
                scope: scope.clone(),
                cause: None,
                body: EventBody::SpanStarted {
                    detail: SpanStartDetail::AgentSessionLifecycle(session_detail(metadata)),
                    parent_span_id: None,
                },
            },
        ) {
            Err(fault) => Err(fault_code(fault)),
            Ok(span_id) => Ok(
                SessionProjection {
                    key: metadata.context.clone(),
                    provider: metadata.provider.clone(),
                    requested_model: metadata.requested_model.clone(),
                    lifecycle: OpenSpan { span_id, scope },
                    opening: None,
                    closing: None,
                    ready: false,
                    broken_code: None,
                    closed: false,
                    last_sequence: span_id,
                },
            ),
        }
    }

    /// An attempt to open the session is allowed: it is neither ready nor closing, and the
    /// generation is newer than that of the attempt before.
    pub open spec fn may_attempt(self, generation: u64) -> bool {
        &&& !self.ready
        &&& self.closing is None
        &&& !self.closed
        &&& match self.opening {
            Some(previous) => previous.generation < generation,
            None => true,
        }
    }

    /// The end of the attempt before.
    pub open spec fn retried(self, opening: OpenSpan) -> EventCandidate {
        EventCandidate::finished(
            opening.scope,
            opening.span_id,
            SpanOutcome::Failed,
            Some(ErrorCode::Stable("agent-session-opening-retried")),
            CausalLink::after(self.last_sequence),
        )
    }

    /// The attempt before ends, where there is one, and the new one starts within the session's
    /// span.
    pub open spec fn attempt_plan(
        self,
        actor_id: Option<RunLocalId>,
        metadata: AgentSessionDiagnosticMetadata,
        generation: u64,
    ) -> spec_fn(Seq<u64>) -> Option<EventCandidate> {
        let ends: int = if self.opening is Some {
            1
        } else {
            0
        };
        |accepted: Seq<u64>|
            if accepted.len() < ends {
                Some(self.retried(self.opening->0.span))
            } else if accepted.len() == ends && actor_id is Some {
                Some(
                    EventCandidate::started(
                        spec_session_scope(actor_id->0, Some(generation)),
                        SpanStartDetail::AgentSessionOpening(spec_session_detail(metadata)),
                        Some(self.lifecycle.span_id),
                        CausalLink::to(
                            latest(accepted, self.last_sequence),
                            if self.opening is Some {
                                CausalRelation::Retry
                            } else {
                                CausalRelation::Dispatch
                            },
                        ),
                    ),
                )
            } else {
                None
            }
    }

    /// What came of an attempt to open the session.
    pub open spec fn on_attempt<A: SpanEventAdmission>(
        self,
        after: Self,
        context: DiagnosticRunContext<A>,
        context_after: DiagnosticRunContext<A>,
        notice: SessionNotice,
        result: Result<(), &'static str>,
    ) -> bool {
        match notice.metadata.generation {
            Some(generation) if self.concerns(notice.metadata) && self.may_attempt(generation) => {
                let accepted = context_after.accepted_since(context);
                &&& context_after.reports(
                    context,
                    self.attempt_plan(notice.spec_actor_id(), notice.metadata, generation),
                )
                &&& result == match refusal_code(context_after, context) {
                    Some(code) => Err::<(), &'static str>(code),
                    None => if notice.spec_actor_id() is Some {
                        Ok(())
                    } else {
                        Err("observation_identifier_invalid")
                    },
                }
                &&& after == SessionProjection {
                    opening: if result is Ok {
                        Some(
                            OpeningAttempt {
                                generation,
                                span: OpenSpan {
                                    span_id: accepted.last(),
                                    scope: spec_session_scope(
                                        notice.spec_actor_id()->0,
                                        Some(generation),
                                    ),
                                },
                            },
                        )
                    } else {
                        None
                    },
                    last_sequence: latest(accepted, self.last_sequence),
                    ..self
                }
            },
            _ => {
                &&& result == Err::<(), &'static str>(invalid())
                &&& after == self
                &&& context_after == context
            },
        }
    }

    /// Takes an attempt to open the session.
    pub fn opening_attempt<A: SpanEventAdmission>(
        &mut self,
        context: &mut DiagnosticRunContext<A>,
        notice: &SessionNotice,
    ) -> (result: Result<(), &'static str>)
        ensures
            old(self).on_attempt(*final(self), *old(context), *final(context), *notice, result),
    {
        let metadata = &notice.metadata;
        let generation = match metadata.generation {
            Some(generation) => generation,
            None => return Err("observation_session_transition_invalid"),
        };
        if !self.accepts(metadata) || self.ready || self.closing.is_some() || self.closed {
            return Err("observation_session_transition_invalid");
        }
        if let Some(previous) = &self.opening {
            if generation <= previous.generation {
                return Err("observation_session_transition_invalid");
            }
        }
        let mut relation = CausalRelation::Dispatch;
        if let Some(attempt) = self.opening.take() {
            let previous = attempt.span;
            match context.report_or_why(
                EventCandidate {
                    unheard: false,
                    scope: previous.scope,
                    cause: follows_from(self.last_sequence),
                    body: EventBody::SpanFinished {
                        span_id: previous.span_id,
                        outcome: SpanOutcome::Failed,
                        error_code: Some(ErrorCode::Stable("agent-session-opening-retried")),
                    },
                },
            ) {
                Err(fault) => return Err(fault_code(fault)),
                Ok(sequence) => {
                    self.last_sequence = sequence;
                },
            }
            relation = CausalRelation::Retry;
        }
        let known = notice.actor_id();
        let actor_id = match &known {
            Some(actor_id) => actor_id,
            None => return Err("observation_identifier_invalid"),
        };
        let scope = session_scope(actor_id, Some(generation));
        match context.report_or_why(
            EventCandidate {
                unheard: false,
                scope: scope.clone(),
                cause: caused_by(self.last_sequence, relation),
                body: EventBody::SpanStarted {
                    detail: SpanStartDetail::AgentSessionOpening(session_detail(metadata)),
                    parent_span_id: Some(self.lifecycle.span_id),
                },
            },
        ) {
            Err(fault) => Err(fault_code(fault)),
            Ok(span_id) => {
                self.opening = Some(
                    OpeningAttempt { generation, span: OpenSpan { span_id, scope } },
                );
                self.last_sequence = span_id;
                Ok(())
            },
        }
    }

    /// The session becomes ready, and the attempt to open it ends.
    pub open spec fn ready_plan(self, metadata: AgentSessionDiagnosticMetadata) -> spec_fn(
        Seq<u64>,
    ) -> Option<EventCandidate> {
        let opening = self.opening->0.span;
        |accepted: Seq<u64>|
            if accepted.len() == 0 {
                Some(
                    EventCandidate::instant(
                        opening.scope,
                        InstantDetail::AgentSessionReady(spec_session_detail(metadata)),
                        Some(opening.span_id),
                        CausalLink::after(self.last_sequence),
                    ),
                )
            } else if accepted.len() == 1 {
                Some(
                    EventCandidate::finished(
                        opening.scope,
                        opening.span_id,
                        SpanOutcome::Completed,
                        None,
                        CausalLink::after(accepted[0]),
                    ),
                )
            } else {
                None
            }
    }

    /// The session may become ready: it is being opened in this generation.
    pub open spec fn may_be_ready(self, metadata: AgentSessionDiagnosticMetadata) -> bool {
        &&& self.concerns(metadata)
        &&& !self.ready
        &&& !self.closed
        &&& self.opening is Some
        &&& metadata.generation == Some(self.opening->0.generation)
    }

    /// What came of the news that the session is ready.
    pub open spec fn on_ready<A: SpanEventAdmission>(
        self,
        after: Self,
        context: DiagnosticRunContext<A>,
        context_after: DiagnosticRunContext<A>,
        metadata: AgentSessionDiagnosticMetadata,
        result: Result<(), &'static str>,
    ) -> bool {
        if self.may_be_ready(metadata) {
            &&& context_after.reports(context, self.ready_plan(metadata))
            &&& match refusal_code(context_after, context) {
                Some(code) => {
                    &&& result == Err::<(), &'static str>(code)
                    &&& after == SessionProjection { opening: None, ..self }
                },
                None => {
                    &&& result == Ok::<(), &'static str>(())
                    &&& after == SessionProjection {
                        opening: None,
                        ready: true,
                        last_sequence: context_after.accepted_since(context)[1],
                        ..self
                    }
                },
            }
        } else {
            &&& result == Err::<(), &'static str>(invalid())
            &&& after == self
            &&& context_after == context
        }
    }

    /// Takes the news that the session is ready.
    pub fn become_ready<A: SpanEventAdmission>(
        &mut self,
        context: &mut DiagnosticRunContext<A>,
        metadata: &AgentSessionDiagnosticMetadata,
    ) -> (result: Result<(), &'static str>)
        ensures
            old(self).on_ready(*final(self), *old(context), *final(context), *metadata, result),
    {
        let generation = match metadata.generation {
            Some(generation) => generation,
            None => return Err("observation_session_transition_invalid"),
        };
        if !self.accepts(metadata) || self.ready || self.closed {
            return Err("observation_session_transition_invalid");
        }
        match &self.opening {
            None => return Err("observation_session_transition_invalid"),
            Some(attempt) => {
                if attempt.generation != generation {
                    return Err("observation_session_transition_invalid");
                }
            },
        }
        let opening = match self.opening.take() {
            Some(attempt) => attempt.span,
            None => return Err("observation_session_transition_invalid"),
        };
        let ready_sequence = match context.report_or_why(
            EventCandidate {
                unheard: false,
                scope: opening.scope.clone(),
                cause: follows_from(self.last_sequence),
                body: EventBody::InstantOccurred {
                    instant: InstantDetail::AgentSessionReady(session_detail(metadata)),
                    containing_span_id: Some(opening.span_id),
                },
            },
        ) {
            Err(fault) => return Err(fault_code(fault)),
            Ok(sequence) => sequence,
        };
        match context.report_or_why(
            EventCandidate {
                unheard: false,
                scope: opening.scope,
                cause: follows_from(ready_sequence),
                body: EventBody::SpanFinished {
                    span_id: opening.span_id,
                    outcome: SpanOutcome::Completed,
                    error_code: None,
                },
            },
        ) {
            Err(fault) => Err(fault_code(fault)),
            Ok(sequence) => {
                self.ready = true;
                self.last_sequence = sequence;
                Ok(())
            },
        }
    }

    /// The news that the session is broken: in the attempt to open it, else in the session itself.
    pub open spec fn broken_event(
        self,
        actor_id: RunLocalId,
        metadata: AgentSessionDiagnosticMetadata,
        error_code: &'static str,
    ) -> EventCandidate {
        EventCandidate::instant(
            spec_session_scope(actor_id, metadata.generation),
            InstantDetail::AgentSessionBroken {
                session: spec_session_detail(metadata),
                broken_code: ErrorCode::Stable(error_code),
            },
            Some(
                match self.opening {
                    Some(attempt) => attempt.span.span_id,
                    None => self.lifecycle.span_id,
                },
            ),
            CausalLink::after(self.last_sequence),
        )
    }

    /// What came of the news that the session is broken.
    pub open spec fn on_broken<A: SpanEventAdmission>(
        self,
        after: Self,
        context: DiagnosticRunContext<A>,
        context_after: DiagnosticRunContext<A>,
        notice: SessionNotice,
        error_code: &'static str,
        result: Result<(), &'static str>,
    ) -> bool {
        if !self.concerns(notice.metadata) || self.broken_code is Some || self.closed {
            &&& result == Err::<(), &'static str>(invalid())
            &&& after == self
            &&& context_after == context
        } else {
            match notice.spec_actor_id() {
                None => {
                    &&& result == Err::<(), &'static str>("observation_identifier_invalid")
                    &&& after == self
                    &&& context_after == context
                },
                Some(actor_id) => {
                    &&& context_after.reports(
                        context,
                        self.broken_event(actor_id, notice.metadata, error_code).alone(),
                    )
                    &&& match refusal_code(context_after, context) {
                        Some(code) => {
                            &&& result == Err::<(), &'static str>(code)
                            &&& after == self
                        },
                        None => {
                            &&& result == Ok::<(), &'static str>(())
                            &&& after == SessionProjection {
                                broken_code: Some(error_code),
                                last_sequence: context_after.accepted_since(context)[0],
                                ..self
                            }
                        },
                    }
                },
            }
        }
    }

    /// Takes the news that the session is broken.
    pub fn become_broken<A: SpanEventAdmission>(
        &mut self,
        context: &mut DiagnosticRunContext<A>,
        notice: &SessionNotice,
        error_code: &'static str,
    ) -> (result: Result<(), &'static str>)
        ensures
            old(self).on_broken(
                *final(self),
                *old(context),
                *final(context),
                *notice,
                error_code,
                result,
            ),
    {
        let metadata = &notice.metadata;
        if !self.accepts(metadata) || self.broken_code.is_some() || self.closed {
            return Err("observation_session_transition_invalid");
        }
        let containing_span_id = match &self.opening {
            Some(attempt) => attempt.span.span_id,
            None => self.lifecycle.span_id,
        };
        let known = notice.actor_id();
        let actor_id = match &known {
            Some(actor_id) => actor_id,
            None => return Err("observation_identifier_invalid"),
        };
        match context.report_or_why(
            EventCandidate {
                unheard: false,
                scope: session_scope(actor_id, metadata.generation),
                cause: follows_from(self.last_sequence),
                body: EventBody::InstantOccurred {
                    instant: InstantDetail::AgentSessionBroken {
                        session: session_detail(metadata),
                        broken_code: ErrorCode::Stable(error_code),
                    },
                    containing_span_id: Some(containing_span_id),
                },
            },
        ) {
            Err(fault) => Err(fault_code(fault)),
            Ok(sequence) => {
                self.broken_code = Some(error_code);
                self.last_sequence = sequence;
                Ok(())
            },
        }
    }

    /// The end of an attempt that the session closes in.
    pub open spec fn abandoned(self, opening: OpenSpan) -> EventCandidate {
        EventCandidate::finished(
            opening.scope,
            opening.span_id,
            SpanOutcome::Failed,
            Some(
                ErrorCode::Stable(
                    match self.broken_code {
                        Some(code) => code,
                        None => "agent-session-opening-abandoned",
                    },
                ),
            ),
            CausalLink::after(self.last_sequence),
        )
    }

    /// The attempt to open the session ends, where there is one, and closing starts within the
    /// session's span.
    pub open spec fn closing_plan(
        self,
        actor_id: Option<RunLocalId>,
        metadata: AgentSessionDiagnosticMetadata,
    ) -> spec_fn(Seq<u64>) -> Option<EventCandidate> {
        let ends: int = if self.opening is Some {
            1
        } else {
            0
        };
        |accepted: Seq<u64>|
            if accepted.len() < ends {
                Some(self.abandoned(self.opening->0.span))
            } else if accepted.len() == ends && actor_id is Some {
                Some(
                    EventCandidate::started(
                        spec_session_scope(actor_id->0, metadata.generation),
                        SpanStartDetail::AgentSessionClosing(spec_session_detail(metadata)),
                        Some(self.lifecycle.span_id),
                        CausalLink::after(latest(accepted, self.last_sequence)),
                    ),
                )
            } else {
                None
            }
    }

    /// What came of the news that the session closes.
    pub open spec fn on_closing<A: SpanEventAdmission>(
        self,
        after: Self,
        context: DiagnosticRunContext<A>,
        context_after: DiagnosticRunContext<A>,
        notice: SessionNotice,
        result: Result<(), &'static str>,
    ) -> bool {
        if !self.concerns(notice.metadata) || self.closing is Some || self.closed {
            &&& result == Err::<(), &'static str>(invalid())
            &&& after == self
            &&& context_after == context
        } else {
            let accepted = context_after.accepted_since(context);
            &&& context_after.reports(
                context,
                self.closing_plan(notice.spec_actor_id(), notice.metadata),
            )
            &&& result == match refusal_code(context_after, context) {
                Some(code) => Err::<(), &'static str>(code),
                None => if notice.spec_actor_id() is Some {
                    Ok(())
                } else {
                    Err("observation_identifier_invalid")
                },
            }
            &&& after == SessionProjection {
                opening: None,
                closing: if result is Ok {
                    Some(
                        OpenSpan {
                            span_id: accepted.last(),
                            scope: spec_session_scope(
                                notice.spec_actor_id()->0,
                                notice.metadata.generation,
                            ),
                        },
                    )
                } else {
                    None
                },
                last_sequence: latest(accepted, self.last_sequence),
                ..self
            }
        }
    }

    /// Takes the news that the session closes.
    pub fn begin_closing<A: SpanEventAdmission>(
        &mut self,
        context: &mut DiagnosticRunContext<A>,
        notice: &SessionNotice,
    ) -> (result: Result<(), &'static str>)
        ensures
            old(self).on_closing(*final(self), *old(context), *final(context), *notice, result),
    {
        let metadata = &notice.metadata;
        if !self.accepts(metadata) || self.closing.is_some() || self.closed {
            return Err("observation_session_transition_invalid");
        }
        if let Some(attempt) = self.opening.take() {
            let opening = attempt.span;
            let error_code = match self.broken_code {
                Some(code) => code,
                None => "agent-session-opening-abandoned",
            };
            match context.report_or_why(
                EventCandidate {
                    unheard: false,
                    scope: opening.scope,
                    cause: follows_from(self.last_sequence),
                    body: EventBody::SpanFinished {
                        span_id: opening.span_id,
                        outcome: SpanOutcome::Failed,
                        error_code: Some(ErrorCode::Stable(error_code)),
                    },
                },
            ) {
                Err(fault) => return Err(fault_code(fault)),
                Ok(sequence) => {
                    self.last_sequence = sequence;
                },
            }
        }
        let known = notice.actor_id();
        let actor_id = match &known {
            Some(actor_id) => actor_id,
            None => return Err("observation_identifier_invalid"),
        };
        let scope = session_scope(actor_id, metadata.generation);
        match context.report_or_why(
            EventCandidate {
                unheard: false,
                scope: scope.clone(),
                cause: follows_from(self.last_sequence),
                body: EventBody::SpanStarted {
                    detail: SpanStartDetail::AgentSessionClosing(session_detail(metadata)),
                    parent_span_id: Some(self.lifecycle.span_id),
                },
            },
        ) {
            Err(fault) => Err(fault_code(fault)),
            Ok(span_id) => {
                self.closing = Some(OpenSpan { span_id, scope });
                self.last_sequence = span_id;
                Ok(())
            },
        }
    }

    /// Closing ends, and then the session: as failed where it was broken.
    pub open spec fn closed_plan(self) -> spec_fn(Seq<u64>) -> Option<EventCandidate> {
        let closing = self.closing->0;
        |accepted: Seq<u64>|
            if accepted.len() == 0 {
                Some(
                    EventCandidate::finished(
                        closing.scope,
                        closing.span_id,
                        SpanOutcome::Completed,
                        None,
                        CausalLink::after(self.last_sequence),
                    ),
                )
            } else if accepted.len() == 1 {
                Some(
                    EventCandidate::finished(
                        self.lifecycle.scope,
                        self.lifecycle.span_id,
                        if self.broken_code is Some {
                            SpanOutcome::Failed
                        } else {
                            SpanOutcome::Completed
                        },
                        crate::event::spec_stable_code(self.broken_code),
                        CausalLink::after(accepted[0]),
                    ),
                )
            } else {
                None
            }
    }

    /// What came of the news that the session is closed.
    pub open spec fn on_closed<A: SpanEventAdmission>(
        self,
        after: Self,
        context: DiagnosticRunContext<A>,
        context_after: DiagnosticRunContext<A>,
        metadata: AgentSessionDiagnosticMetadata,
        result: Result<(), &'static str>,
    ) -> bool {
        if !self.concerns(metadata) || self.closing is None {
            &&& result == Err::<(), &'static str>(invalid())
            &&& after == self
            &&& context_after == context
        } else if self.closed {
            &&& result == Err::<(), &'static str>(invalid())
            &&& after == SessionProjection { closing: None, ..self }
            &&& context_after == context
        } else {
            &&& context_after.reports(context, self.closed_plan())
            &&& match refusal_code(context_after, context) {
                Some(code) => {
                    &&& result == Err::<(), &'static str>(code)
                    &&& after == SessionProjection { closing: None, ..self }
                },
                None => {
                    &&& result == Ok::<(), &'static str>(())
                    &&& after == SessionProjection {
                        closing: None,
                        closed: true,
                        last_sequence: context_after.accepted_since(context)[1],
                        ..self
                    }
                },
            }
        }
    }

    /// Takes the news that the session is closed.
    pub fn become_closed<A: SpanEventAdmission>(
        &mut self,
        context: &mut DiagnosticRunContext<A>,
        metadata: &AgentSessionDiagnosticMetadata,
    ) -> (result: Result<(), &'static str>)
        ensures
            old(self).on_closed(*final(self), *old(context), *final(context), *metadata, result),
    {
        if !self.accepts(metadata) {
            return Err("observation_session_transition_invalid");
        }
        let closing = match self.closing.take() {
            Some(closing) => closing,
            None => return Err("observation_session_transition_invalid"),
        };
        if self.closed {
            return Err("observation_session_transition_invalid");
        }
        let closing_sequence = match context.report_or_why(
            EventCandidate {
                unheard: false,
                scope: closing.scope,
                cause: follows_from(self.last_sequence),
                body: EventBody::SpanFinished {
                    span_id: closing.span_id,
                    outcome: SpanOutcome::Completed,
                    error_code: None,
                },
            },
        ) {
            Err(fault) => return Err(fault_code(fault)),
            Ok(sequence) => sequence,
        };
        let (outcome, error_code) = match self.broken_code {
            Some(code) => (SpanOutcome::Failed, Some(ErrorCode::Stable(code))),
            None => (SpanOutcome::Completed, None),
        };
        match context.report_or_why(
            EventCandidate {
                unheard: false,
                scope: self.lifecycle.scope.clone(),
                cause: follows_from(closing_sequence),
                body: EventBody::SpanFinished {
                    span_id: self.lifecycle.span_id,
                    outcome,
                    error_code,
                },
            },
        ) {
            Err(fault) => Err(fault_code(fault)),
            Ok(sequence) => {
                self.closed = true;
                self.last_sequence = sequence;
                Ok(())
            },
        }
    }
}

impl SessionProjection {
    /// What came of some news of the session.
    pub open spec fn on_news<A: SpanEventAdmission>(
        self,
        after: Self,
        context: DiagnosticRunContext<A>,
        context_after: DiagnosticRunContext<A>,
        notice: SessionNotice,
        error_code: &'static str,
        result: Result<(), &'static str>,
    ) -> bool {
        ||| self.on_attempt(after, context, context_after, notice, result)
        ||| self.on_ready(after, context, context_after, notice.metadata, result)
        ||| self.on_broken(after, context, context_after, notice, error_code, result)
        ||| self.on_closing(after, context, context_after, notice, result)
        ||| self.on_closed(after, context, context_after, notice.metadata, result)
    }
}

/// A session that is closed takes no more news and reports nothing more.
pub proof fn closed_session_is_final<A: SpanEventAdmission>(
    session: SessionProjection,
    after: SessionProjection,
    context: DiagnosticRunContext<A>,
    context_after: DiagnosticRunContext<A>,
    notice: SessionNotice,
    error_code: &'static str,
    result: Result<(), &'static str>,
)
    requires
        session.closed,
        session.closing is None,
        session.on_news(after, context, context_after, notice, error_code, result),
    ensures
        after == session,
        context_after == context,
        result is Err,
{
}

/// A session has one span at a time beside its own: it is never opening and closing at once.
pub proof fn opening_and_closing_exclude_each_other<A: SpanEventAdmission>(
    session: SessionProjection,
    after: SessionProjection,
    context: DiagnosticRunContext<A>,
    context_after: DiagnosticRunContext<A>,
    notice: SessionNotice,
    error_code: &'static str,
    result: Result<(), &'static str>,
)
    requires
        session.opening is None || session.closing is None,
        session.on_news(after, context, context_after, notice, error_code, result),
    ensures
        after.opening is None || after.closing is None,
{
}

/// Once broken, a session stays broken with the code that it broke with.
pub proof fn broken_session_stays_broken<A: SpanEventAdmission>(
    session: SessionProjection,
    after: SessionProjection,
    context: DiagnosticRunContext<A>,
    context_after: DiagnosticRunContext<A>,
    notice: SessionNotice,
    error_code: &'static str,
    result: Result<(), &'static str>,
)
    requires
        session.broken_code is Some,
        session.on_news(after, context, context_after, notice, error_code, result),
    ensures
        after.broken_code == session.broken_code,
{
}

impl SessionProjection {
    /// What the facts of the session refer to is in the trace.
    pub open spec fn is_rooted(self, trace: Seq<crate::context::Attempt>) -> bool {
        &&& crate::references::begun_in(trace, self.lifecycle.span_id)
        &&& crate::references::accepted_in(trace, self.last_sequence)
        &&& self.opening matches Some(opening) ==> crate::references::begun_in(
            trace,
            opening.span.span_id,
        )
        &&& self.closing matches Some(closing) ==> crate::references::begun_in(
            trace,
            closing.span_id,
        )
    }

    proof fn attempt_refers_back<A: SpanEventAdmission>(
        self,
        after: Self,
        context: DiagnosticRunContext<A>,
        context_after: DiagnosticRunContext<A>,
        notice: SessionNotice,
        result: Result<(), &'static str>,
    )
        requires
            crate::references::refer_back(context.trace()),
            self.is_rooted(context.trace()),
            self.on_attempt(after, context, context_after, notice, result),
            context_after != context,
        ensures
            crate::references::refer_back(context_after.trace()),
            crate::references::goes_on(context.trace(), context_after.trace()),
            after.is_rooted(context_after.trace()),
    {
        let plan = self.attempt_plan(
            notice.spec_actor_id(),
            notice.metadata,
            notice.metadata.generation->0,
        );
        assert forall|accepted: Seq<u64>|
            #[trigger] crate::references::sound_after(plan, context.trace(), accepted) by {
            assert(accepted.len() > 0 ==> accepted.contains(accepted.last()));
        }
        crate::references::sound_plans_refer_back(context_after, context, plan);
        let accepted = context_after.accepted_since(context);
        if accepted.len() > 0 {
            assert(crate::references::accepted_in(
                context_after.trace(),
                accepted[accepted.len() - 1],
            ));
        }
        if result is Ok {
            assert(accepted.len() > 0);
            assert(crate::references::starts_at(plan, accepted, accepted.len() - 1));
        }
    }

    proof fn closing_refers_back<A: SpanEventAdmission>(
        self,
        after: Self,
        context: DiagnosticRunContext<A>,
        context_after: DiagnosticRunContext<A>,
        notice: SessionNotice,
        result: Result<(), &'static str>,
    )
        requires
            crate::references::refer_back(context.trace()),
            self.is_rooted(context.trace()),
            self.on_closing(after, context, context_after, notice, result),
            context_after != context,
        ensures
            crate::references::refer_back(context_after.trace()),
            crate::references::goes_on(context.trace(), context_after.trace()),
            after.is_rooted(context_after.trace()),
    {
        let plan = self.closing_plan(notice.spec_actor_id(), notice.metadata);
        assert forall|accepted: Seq<u64>|
            #[trigger] crate::references::sound_after(plan, context.trace(), accepted) by {
            assert(accepted.len() > 0 ==> accepted.contains(accepted.last()));
        }
        crate::references::sound_plans_refer_back(context_after, context, plan);
        let accepted = context_after.accepted_since(context);
        if accepted.len() > 0 {
            assert(crate::references::accepted_in(
                context_after.trace(),
                accepted[accepted.len() - 1],
            ));
        }
        if result is Ok {
            assert(accepted.len() > 0);
            assert(crate::references::starts_at(plan, accepted, accepted.len() - 1));
        }
    }
}

/// A session that begins leaves a trace whose facts refer back, and what it keeps of it is in
/// there.
pub proof fn begun_session_refers_back<A: SpanEventAdmission>(
    context: DiagnosticRunContext<A>,
    context_after: DiagnosticRunContext<A>,
    notice: SessionNotice,
    session: Result<SessionProjection, &'static str>,
)
    requires
        crate::references::refer_back(context.trace()),
        SessionProjection::begins(context, context_after, notice, session),
    ensures
        crate::references::refer_back(context_after.trace()),
        crate::references::goes_on(context.trace(), context_after.trace()),
        session matches Ok(session) ==> session.is_rooted(context_after.trace()),
{
    crate::references::what_began_stays_begun(context.trace(), context.trace());
    if let Some(actor_id) = notice.spec_actor_id() {
        crate::references::one_fact_refers_back(
            context_after,
            context,
            SessionProjection::lifecycle_event(actor_id, notice.metadata),
        );
    }
}

/// Whatever a session reports refers only to what was reported before.
pub proof fn facts_of_a_session_refer_back<A: SpanEventAdmission>(
    session: SessionProjection,
    after: SessionProjection,
    context: DiagnosticRunContext<A>,
    context_after: DiagnosticRunContext<A>,
    notice: SessionNotice,
    error_code: &'static str,
    result: Result<(), &'static str>,
)
    requires
        crate::references::refer_back(context.trace()),
        session.is_rooted(context.trace()),
        session.on_news(after, context, context_after, notice, error_code, result),
    ensures
        crate::references::refer_back(context_after.trace()),
        crate::references::goes_on(context.trace(), context_after.trace()),
        after.is_rooted(context_after.trace()),
{
    crate::references::what_began_stays_begun(context.trace(), context.trace());
    if context_after != context {
        if session.on_attempt(after, context, context_after, notice, result) {
            session.attempt_refers_back(after, context, context_after, notice, result);
        } else if session.on_ready(after, context, context_after, notice.metadata, result) {
            let plan = session.ready_plan(notice.metadata);
            assert forall|accepted: Seq<u64>|
                #[trigger] crate::references::sound_after(plan, context.trace(), accepted) by {
                assert(accepted.len() >= 1 ==> accepted.contains(accepted[0]));
            }
            crate::references::sound_plans_refer_back(context_after, context, plan);
            if !context_after.stopped_since(context) {
                assert(crate::references::accepted_in(
                    context_after.trace(),
                    context_after.accepted_since(context)[1],
                ));
            }
        } else if session.on_broken(after, context, context_after, notice, error_code, result) {
            crate::references::one_fact_refers_back(
                context_after,
                context,
                session.broken_event(notice.spec_actor_id()->0, notice.metadata, error_code),
            );
        } else if session.on_closing(after, context, context_after, notice, result) {
            session.closing_refers_back(after, context, context_after, notice, result);
        } else {
            let plan = session.closed_plan();
            assert forall|accepted: Seq<u64>|
                #[trigger] crate::references::sound_after(plan, context.trace(), accepted) by {
                assert(accepted.len() >= 1 ==> accepted.contains(accepted[0]));
            }
            crate::references::sound_plans_refer_back(context_after, context, plan);
            if !context_after.stopped_since(context) {
                assert(crate::references::accepted_in(
                    context_after.trace(),
                    context_after.accepted_since(context)[1],
                ));
            }
        }
    }
}

/// A session begins with one span of its actor that says what serves it: the provider, and the
/// model and effort that came into force, where that is known, else those that were asked for.
/// Nothing was opened, broken or closed in it yet. Without an actor nothing is told.
pub proof fn session_begins_with_what_serves_it<A: SpanEventAdmission>(
    context: DiagnosticRunContext<A>,
    context_after: DiagnosticRunContext<A>,
    notice: SessionNotice,
    session: Result<SessionProjection, &'static str>,
)
    requires
        SessionProjection::begins(context, context_after, notice, session),
    ensures
        ({
            let facts = context_after.steps_since(context);
            let said = notice.metadata;
            &&& !notice.actor_id_valid ==> facts.len() == 0 && session is Err
            &&& notice.actor_id_valid ==> {
                &&& facts.len() == 1
                &&& facts[0].candidate.scope == (DiagnosticScope {
                    scene_id: None,
                    actor_id: Some(RunLocalId { text: said.context.actor_id }),
                    cue_id: None,
                    effect_id: None,
                    act_id: None,
                    tool_call_id: None,
                    session_generation: None,
                })
                &&& facts[0].candidate.cause is None
                &&& facts[0].candidate.body matches EventBody::SpanStarted {
                    detail: SpanStartDetail::AgentSessionLifecycle(told),
                    parent_span_id: None,
                } && {
                    &&& told.provider == said.provider
                    &&& told.model is Some
                    &&& told.model == said.effective_model || (said.effective_model is None
                        && told.model == Some(said.requested_model))
                    &&& told.effort == said.effective_effort || (said.effective_effort is None
                        && told.effort == said.requested_effort)
                }
                &&& session is Ok <==> facts[0].reply is Ok
                &&& session matches Ok(begun) ==> {
                    &&& begun.lifecycle.span_id == facts[0].reply->Ok_0
                    &&& begun.lifecycle.scope == facts[0].candidate.scope
                    &&& begun.last_sequence == facts[0].reply->Ok_0
                    &&& begun.opening is None && begun.closing is None && begun.broken_code is None
                    &&& !begun.ready && !begun.closed
                    &&& begun.key == said.context
                    &&& begun.provider == said.provider
                    &&& begun.requested_model == said.requested_model
                }
                &&& session matches Err(code) ==> code == (if facts[0].elapsed is Err {
                    "observation_clock_failed"
                } else {
                    "canonical_admission_failed"
                })
            }
        }),
{
    if let Some(actor_id) = notice.spec_actor_id() {
        crate::references::lone_fact(
            context,
            context_after,
            SessionProjection::lifecycle_event(actor_id, notice.metadata),
        );
    } else {
        assert(context_after.steps_since(context).len() == 0);
    }
}

/// An attempt to open a session is taken exactly where the session is of the same provider and
/// model, is neither ready nor closing nor closed, and no attempt of the same or a later generation
/// is under way. An attempt that was under way ends as failed, and the new one comes as its retry,
/// in its own generation; the first comes as dispatched. What follows on what was told last comes
/// after it.
pub proof fn attempts_come_one_after_the_other<A: SpanEventAdmission>(
    session: SessionProjection,
    after: SessionProjection,
    context: DiagnosticRunContext<A>,
    context_after: DiagnosticRunContext<A>,
    notice: SessionNotice,
    result: Result<(), &'static str>,
)
    requires
        session.on_attempt(after, context, context_after, notice, result),
    ensures
        ({
            let facts = context_after.steps_since(context);
            let said = notice.metadata;
            let taken = said.generation is Some && session.provider@ == said.provider@
                && session.requested_model@ == said.requested_model@ && !session.ready
                && session.closing is None && !session.closed && (session.opening is Some
                ==> session.opening->0.generation < said.generation->0);
            let last = if session.opening is Some { 1int } else { 0int };
            &&& !taken ==> facts.len() == 0 && after == session && result is Err
            &&& taken ==> {
                &&& facts.len() <= last + 1
                &&& session.opening is Some ==> {
                    &&& facts.len() >= 1
                    &&& facts[0].candidate.scope == session.opening->0.span.scope
                    &&& facts[0].candidate.cause == Some(
                        CausalLink {
                            sequence: session.last_sequence,
                            relation: CausalRelation::FollowsFrom,
                        },
                    )
                    &&& facts[0].candidate.body matches EventBody::SpanFinished {
                        span_id,
                        outcome: SpanOutcome::Failed,
                        error_code: Some(code),
                    } && span_id == session.opening->0.span.span_id && code@
                        == "agent-session-opening-retried"@
                }
                &&& notice.actor_id_valid && (session.opening is Some ==> facts[0].reply is Ok)
                    ==> facts.len() == last + 1
                &&& facts.len() == last + 1 ==> {
                    &&& facts[last].candidate.scope == (DiagnosticScope {
                        scene_id: None,
                        actor_id: Some(RunLocalId { text: said.context.actor_id }),
                        cue_id: None,
                        effect_id: None,
                        act_id: None,
                        tool_call_id: None,
                        session_generation: said.generation,
                    })
                    &&& facts[last].candidate.cause == Some(
                        (if session.opening is Some {
                            CausalLink {
                                sequence: facts[0].reply->Ok_0,
                                relation: CausalRelation::Retry,
                            }
                        } else {
                            CausalLink {
                                sequence: session.last_sequence,
                                relation: CausalRelation::Dispatch,
                            }
                        }),
                    )
                    &&& facts[last].candidate.body matches EventBody::SpanStarted {
                        detail: SpanStartDetail::AgentSessionOpening(told),
                        parent_span_id: Some(parent),
                    } && {
                        &&& parent == session.lifecycle.span_id
                        &&& told.provider == said.provider
                        &&& told.model == said.effective_model || (said.effective_model is None
                            && told.model == Some(said.requested_model))
                    }
                }
                &&& result is Ok <==> facts.len() == last + 1 && facts[last].reply is Ok
                &&& result is Ok ==> {
                    &&& after.opening is Some
                    &&& after.opening->0.span.span_id == facts[last].reply->Ok_0
                    &&& after.opening->0.span.scope == facts[last].candidate.scope
                    &&& Some(after.opening->0.generation) == said.generation
                    &&& after.last_sequence == facts[last].reply->Ok_0
                }
                &&& result is Err ==> after.opening is None
                &&& after.ready == session.ready && after.broken_code == session.broken_code
                &&& after.closing == session.closing && after.closed == session.closed
            }
        }),
{
    let facts = context_after.steps_since(context);
    if notice.metadata.generation is Some && session.concerns(notice.metadata)
        && session.may_attempt(notice.metadata.generation->0) {
        let plan = session.attempt_plan(
            notice.spec_actor_id(),
            notice.metadata,
            notice.metadata.generation->0,
        );
        crate::references::planned_facts(context, context_after, plan);
        let given = |i: int| crate::references::sequences(facts, i);
        let last = if session.opening is Some { 1int } else { 0int };
        assert(plan(given(last + 1)) is None);
        assert(facts.len() <= last + 1) by {
            if facts.len() > last + 1 {
                assert(plan(given(last + 1)) == Some(facts[last + 1].candidate));
            }
        }
        if session.opening is Some {
            assert(plan(given(0)) is Some);
        }
        if notice.actor_id_valid {
            assert(plan(given(last)) is Some);
        } else {
            assert(plan(given(last)) is None);
            if facts.len() > last {
                assert(plan(given(last)) == Some(facts[last].candidate));
            }
        }
    } else {
        assert(facts.len() == 0);
    }
}

/// A session becomes ready exactly in the attempt of that generation: its readiness is told in that
/// attempt, which ends as completed and follows on it.
pub proof fn readiness_ends_the_attempt_well<A: SpanEventAdmission>(
    session: SessionProjection,
    after: SessionProjection,
    context: DiagnosticRunContext<A>,
    context_after: DiagnosticRunContext<A>,
    metadata: AgentSessionDiagnosticMetadata,
    result: Result<(), &'static str>,
)
    requires
        session.on_ready(after, context, context_after, metadata, result),
    ensures
        ({
            let facts = context_after.steps_since(context);
            let taken = session.provider@ == metadata.provider@ && session.requested_model@
                == metadata.requested_model@ && !session.ready && !session.closed
                && session.opening is Some && metadata.generation == Some(
                session.opening->0.generation,
            );
            &&& !taken ==> facts.len() == 0 && after == session && result is Err
            &&& taken ==> {
                let attempt = session.opening->0.span;
                &&& 1 <= facts.len() <= 2
                &&& facts[0].candidate.scope == attempt.scope
                &&& facts[0].candidate.cause == Some(
                    CausalLink {
                        sequence: session.last_sequence,
                        relation: CausalRelation::FollowsFrom,
                    },
                )
                &&& (facts[0].candidate.body matches EventBody::InstantOccurred {
                    instant: InstantDetail::AgentSessionReady(told),
                    containing_span_id: Some(within),
                } && {
                    &&& within == attempt.span_id
                    &&& told.provider == metadata.provider
                    &&& told.model == metadata.effective_model || (metadata.effective_model is None
                        && told.model == Some(metadata.requested_model))
                    &&& told.effort == metadata.effective_effort || (metadata.effective_effort
                        is None && told.effort == metadata.requested_effort)
                })
                &&& facts[0].reply is Ok ==> facts.len() == 2
                &&& facts.len() == 2 ==> {
                    &&& facts[1].candidate.scope == attempt.scope
                    &&& facts[1].candidate.cause == Some(
                        CausalLink {
                            sequence: facts[0].reply->Ok_0,
                            relation: CausalRelation::FollowsFrom,
                        },
                    )
                    &&& facts[1].candidate.body == (EventBody::SpanFinished {
                        span_id: attempt.span_id,
                        outcome: SpanOutcome::Completed,
                        error_code: None,
                    })
                }
                &&& result is Ok <==> facts.last().reply is Ok
                &&& after.ready <==> result is Ok
                &&& after.opening is None
                &&& result is Ok ==> after.last_sequence == facts[1].reply->Ok_0
                &&& after.broken_code == session.broken_code && after.closing == session.closing
                &&& !after.closed
            }
        }),
{
    let facts = context_after.steps_since(context);
    if session.may_be_ready(metadata) {
        let plan = session.ready_plan(metadata);
        crate::references::planned_facts(context, context_after, plan);
        let given = |i: int| crate::references::sequences(facts, i);
        assert(plan(given(0)) is Some);
        assert(plan(given(1)) is Some);
        assert(plan(given(2)) is None);
        assert(facts.len() <= 2) by {
            if facts.len() > 2 {
                assert(plan(given(2)) == Some(facts[2].candidate));
            }
        }
    } else {
        assert(facts.len() == 0);
    }
}

/// That a session is broken is told once, with the code that it broke with: in the attempt to open
/// it where one is under way, else in the session itself. It is kept exactly where it was told.
pub proof fn breaking_is_told_once<A: SpanEventAdmission>(
    session: SessionProjection,
    after: SessionProjection,
    context: DiagnosticRunContext<A>,
    context_after: DiagnosticRunContext<A>,
    notice: SessionNotice,
    error_code: &'static str,
    result: Result<(), &'static str>,
)
    requires
        session.on_broken(after, context, context_after, notice, error_code, result),
    ensures
        ({
            let facts = context_after.steps_since(context);
            let said = notice.metadata;
            let taken = session.provider@ == said.provider@ && session.requested_model@
                == said.requested_model@ && session.broken_code is None && !session.closed
                && notice.actor_id_valid;
            &&& !taken ==> facts.len() == 0 && after == session && result is Err
            &&& taken ==> {
                &&& facts.len() == 1
                &&& facts[0].candidate.scope == (DiagnosticScope {
                    scene_id: None,
                    actor_id: Some(RunLocalId { text: said.context.actor_id }),
                    cue_id: None,
                    effect_id: None,
                    act_id: None,
                    tool_call_id: None,
                    session_generation: said.generation,
                })
                &&& facts[0].candidate.cause == Some(
                    CausalLink {
                        sequence: session.last_sequence,
                        relation: CausalRelation::FollowsFrom,
                    },
                )
                &&& (facts[0].candidate.body matches EventBody::InstantOccurred {
                    instant: InstantDetail::AgentSessionBroken { session: told, broken_code },
                    containing_span_id: Some(within),
                } && {
                    &&& told.provider == said.provider
                    &&& broken_code@ == error_code@
                    &&& session.opening is Some ==> within == session.opening->0.span.span_id
                    &&& session.opening is None ==> within == session.lifecycle.span_id
                })
                &&& result is Ok <==> facts[0].reply is Ok
                &&& result is Err ==> after == session
                &&& result is Ok ==> {
                    &&& after.broken_code == Some(error_code)
                    &&& after.last_sequence == facts[0].reply->Ok_0
                    &&& after.ready == session.ready && after.opening == session.opening
                    &&& after.closing == session.closing && after.closed == session.closed
                }
            }
        }),
{
    if context_after == context {
        assert(context_after.steps_since(context).len() == 0);
    }
    if session.concerns(notice.metadata) && session.broken_code is None && !session.closed {
        if let Some(actor_id) = notice.spec_actor_id() {
            crate::references::lone_fact(
                context,
                context_after,
                session.broken_event(actor_id, notice.metadata, error_code),
            );
        }
    }
}

/// A session closes once. An attempt to open it that is under way ends as failed, with the code
/// that the session broke with where it broke. Closing begins in the session's span and follows on
/// what came last.
pub proof fn closing_ends_what_was_being_opened<A: SpanEventAdmission>(
    session: SessionProjection,
    after: SessionProjection,
    context: DiagnosticRunContext<A>,
    context_after: DiagnosticRunContext<A>,
    notice: SessionNotice,
    result: Result<(), &'static str>,
)
    requires
        session.on_closing(after, context, context_after, notice, result),
    ensures
        ({
            let facts = context_after.steps_since(context);
            let said = notice.metadata;
            let taken = session.provider@ == said.provider@ && session.requested_model@
                == said.requested_model@ && session.closing is None && !session.closed;
            let last = if session.opening is Some { 1int } else { 0int };
            &&& !taken ==> facts.len() == 0 && after == session && result is Err
            &&& taken ==> {
                &&& facts.len() <= last + 1
                &&& session.opening is Some ==> {
                    &&& facts.len() >= 1
                    &&& facts[0].candidate.scope == session.opening->0.span.scope
                    &&& facts[0].candidate.cause == Some(
                        CausalLink {
                            sequence: session.last_sequence,
                            relation: CausalRelation::FollowsFrom,
                        },
                    )
                    &&& (facts[0].candidate.body matches EventBody::SpanFinished {
                        span_id,
                        outcome: SpanOutcome::Failed,
                        error_code: Some(code),
                    } && {
                        &&& span_id == session.opening->0.span.span_id
                        &&& session.broken_code is Some ==> code@ == session.broken_code->0@
                        &&& session.broken_code is None ==> code@ == "agent-session-opening-abandoned"@
                    })
                }
                &&& notice.actor_id_valid && (session.opening is Some ==> facts[0].reply is Ok)
                    ==> facts.len() == last + 1
                &&& facts.len() == last + 1 ==> {
                    &&& facts[last].candidate.scope == (DiagnosticScope {
                        scene_id: None,
                        actor_id: Some(RunLocalId { text: said.context.actor_id }),
                        cue_id: None,
                        effect_id: None,
                        act_id: None,
                        tool_call_id: None,
                        session_generation: said.generation,
                    })
                    &&& facts[last].candidate.cause == Some(
                        CausalLink {
                            sequence: if session.opening is Some {
                                facts[0].reply->Ok_0
                            } else {
                                session.last_sequence
                            },
                            relation: CausalRelation::FollowsFrom,
                        },
                    )
                    &&& facts[last].candidate.body matches EventBody::SpanStarted {
                        detail: SpanStartDetail::AgentSessionClosing(told),
                        parent_span_id: Some(parent),
                    } && {
                        &&& parent == session.lifecycle.span_id
                        &&& told.provider == said.provider
                        &&& told.model == said.effective_model || (said.effective_model is None
                            && told.model == Some(said.requested_model))
                    }
                }
                &&& result is Ok <==> facts.len() == last + 1 && facts[last].reply is Ok
                &&& result is Ok ==> {
                    &&& after.closing is Some
                    &&& after.closing->0.span_id == facts[last].reply->Ok_0
                    &&& after.closing->0.scope == facts[last].candidate.scope
                    &&& after.last_sequence == facts[last].reply->Ok_0
                }
                &&& result is Err ==> after.closing is None
                &&& after.opening is None
                &&& after.ready == session.ready && after.broken_code == session.broken_code
                &&& !after.closed
            }
        }),
{
    let facts = context_after.steps_since(context);
    if session.concerns(notice.metadata) && session.closing is None && !session.closed {
        let plan = session.closing_plan(notice.spec_actor_id(), notice.metadata);
        crate::references::planned_facts(context, context_after, plan);
        let given = |i: int| crate::references::sequences(facts, i);
        let last = if session.opening is Some { 1int } else { 0int };
        assert(plan(given(last + 1)) is None);
        assert(facts.len() <= last + 1) by {
            if facts.len() > last + 1 {
                assert(plan(given(last + 1)) == Some(facts[last + 1].candidate));
            }
        }
        if session.opening is Some {
            assert(plan(given(0)) is Some);
        }
        if notice.actor_id_valid {
            assert(plan(given(last)) is Some);
        } else {
            assert(plan(given(last)) is None);
            if facts.len() > last {
                assert(plan(given(last)) == Some(facts[last].candidate));
            }
        }
    } else {
        assert(facts.len() == 0);
    }
}

/// A session that closes ends as it went: its closing as completed, and the session after it as
/// failed, with the code that it broke with, exactly where it broke, else as completed.
pub proof fn session_ends_as_it_went<A: SpanEventAdmission>(
    session: SessionProjection,
    after: SessionProjection,
    context: DiagnosticRunContext<A>,
    context_after: DiagnosticRunContext<A>,
    metadata: AgentSessionDiagnosticMetadata,
    result: Result<(), &'static str>,
)
    requires
        session.on_closed(after, context, context_after, metadata, result),
    ensures
        ({
            let facts = context_after.steps_since(context);
            let taken = session.provider@ == metadata.provider@ && session.requested_model@
                == metadata.requested_model@ && session.closing is Some && !session.closed;
            &&& !taken ==> facts.len() == 0 && result is Err && after.closed == session.closed
            &&& taken ==> {
                let closing = session.closing->0;
                &&& 1 <= facts.len() <= 2
                &&& facts[0].candidate.scope == closing.scope
                &&& facts[0].candidate.cause == Some(
                    CausalLink {
                        sequence: session.last_sequence,
                        relation: CausalRelation::FollowsFrom,
                    },
                )
                &&& facts[0].candidate.body == (EventBody::SpanFinished {
                    span_id: closing.span_id,
                    outcome: SpanOutcome::Completed,
                    error_code: None,
                })
                &&& facts[0].reply is Ok ==> facts.len() == 2
                &&& facts.len() == 2 ==> {
                    &&& facts[1].candidate.scope == session.lifecycle.scope
                    &&& facts[1].candidate.cause == Some(
                        CausalLink {
                            sequence: facts[0].reply->Ok_0,
                            relation: CausalRelation::FollowsFrom,
                        },
                    )
                    &&& facts[1].candidate.body matches EventBody::SpanFinished {
                        span_id,
                        outcome,
                        error_code,
                    } && {
                        &&& span_id == session.lifecycle.span_id
                        &&& outcome is Failed <==> session.broken_code is Some
                        &&& outcome is Completed <==> session.broken_code is None
                        &&& error_code is Some <==> session.broken_code is Some
                        &&& error_code is Some ==> error_code->0@ == session.broken_code->0@
                    }
                }
                &&& result is Ok <==> facts.last().reply is Ok
                &&& after.closed <==> result is Ok
                &&& after.closing is None
                &&& result is Ok ==> after.last_sequence == facts[1].reply->Ok_0
                &&& after.broken_code == session.broken_code && after.opening == session.opening
                &&& after.ready == session.ready
            }
        }),
{
    let facts = context_after.steps_since(context);
    if session.concerns(metadata) && session.closing is Some && !session.closed {
        let plan = session.closed_plan();
        crate::references::planned_facts(context, context_after, plan);
        let given = |i: int| crate::references::sequences(facts, i);
        assert(plan(given(0)) is Some);
        assert(plan(given(1)) is Some);
        assert(plan(given(2)) is None);
        assert(facts.len() <= 2) by {
            if facts.len() > 2 {
                assert(plan(given(2)) == Some(facts[2].candidate));
            }
        }
    } else {
        assert(facts.len() == 0);
    }
}

} // verus!
