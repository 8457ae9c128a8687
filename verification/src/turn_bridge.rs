//! The turns of agents, as the run records them.
use crate::agent::{AgentTurnDiagnosticIdentity, AgentTurnDiagnosticOutcome};
use crate::context::{
    Attempt, DiagnosticProducerError, DiagnosticRunContext, SpanEventAdmission,
};
use crate::event::{
    copy_id, copy_text, follows_from, stable_code, CausalLink, DiagnosticEventKind,
    DiagnosticScope, EventBody, EventCandidate, InstantDetail, ObservationGap, RunLocalId,
    SpanOutcome, SpanStartDetail, ToolCallDetail,
};
use crate::identifier::{numbered_id, same_text};
use crate::session_bridge::OpenSpan;
use crate::sink_projection::{SinkOnlyToolPayload, ToolPayloadSource};
use vstd::prelude::*;

verus! {

/// A part of a message.
#[derive(Debug, PartialEq, Eq)]
pub struct MessageDelta {
    pub message_id: String,
    pub source_message_id: Option<String>,
    pub text_delta: String,
    pub elapsed_ns: u64,
}

/// A message that is complete.
#[derive(Debug, PartialEq, Eq)]
pub struct MessageCompleted {
    pub message_id: String,
    pub utf8_bytes: u64,
    pub unicode_scalar_count: u64,
    pub truncated: bool,
    pub elapsed_ns: u64,
}

/// Something that the agent's reports leave out.
#[derive(Debug, PartialEq, Eq)]
pub struct SourceGap {
    pub reason: &'static str,
    pub source_tool_call_id: Option<String>,
    pub elapsed_ns: u64,
}

/// What an agent's thinking does.
#[derive(Clone, Copy, Debug, PartialEq, Eq, Structural)]
pub enum ThinkingPhase {
    Start,
    Progress,
    Finish,
}

/// A tool call as the agent describes it.
#[derive(Debug, PartialEq, Eq)]
pub struct ToolMetadata {
    pub source_tool_call_id: String,
    pub title: String,
    pub tool_kind: String,
    pub status: String,
}

/// How a tool call ended.
#[derive(Clone, Copy, Debug, PartialEq, Eq, Structural)]
pub enum ToolOutcome {
    Completed,
    Failed,
    Cancelled,
}

/// The end of a tool call.
#[derive(Debug, PartialEq, Eq)]
pub struct ToolFinished {
    pub source_tool_call_id: String,
    pub outcome: ToolOutcome,
    pub error_code: Option<&'static str>,
    pub elapsed_ns: u64,
}

/// What is to be recorded of a turn.
#[derive(Debug, PartialEq, Eq)]
pub enum TurnCandidate {
    MessageDelta(MessageDelta),
    MessageCompleted(MessageCompleted),
    MessageGap(SourceGap),
    Thinking { phase: ThinkingPhase, thinking_ns: u64 },
    ThinkingGap(SourceGap),
    ToolStarted { started: ToolMetadata, started_ns: u64 },
    ToolUpdated { updated: ToolMetadata, updated_ns: u64 },
    ToolFinished(ToolFinished),
    ToolGap(SourceGap),
    Unsupported,
}

/// A payload of a tool call that waits for the event that it goes with.
pub struct PendingToolPayload {
    pub tool_call_id: String,
    pub payload: SinkOnlyToolPayload,
}

/// A tool call that has started.
#[derive(Debug, PartialEq, Eq)]
pub struct ToolProjection {
    pub source_tool_call_id: String,
    pub span_id: u64,
    pub scope: DiagnosticScope,
    pub finished: bool,
}

/// How far a turn has come.
pub struct TurnProjection {
    pub identity: AgentTurnDiagnosticIdentity,
    pub session_generation: u64,
    pub thinking_span: Option<OpenSpan>,
    pub tool_spans: Vec<ToolProjection>,
    pub pending_tool_payloads: Vec<PendingToolPayload>,
    pub last_sequence: u64,
    pub last_rejection_count: u64,
    pub pending_rejection_sequence: Option<u64>,
}

/// What a turn holds.
#[verifier::ext_equal]
pub struct TurnModel {
    pub identity: AgentTurnDiagnosticIdentity,
    pub session_generation: u64,
    pub thinking_span: Option<OpenSpan>,
    pub tool_spans: Seq<ToolProjection>,
    pub pending_tool_payloads: Seq<PendingToolPayload>,
    pub last_sequence: u64,
    pub last_rejection_count: u64,
    pub pending_rejection_sequence: Option<u64>,
}

impl View for TurnProjection {
    type V = TurnModel;

    open spec fn view(&self) -> TurnModel {
        TurnModel {
            identity: self.identity,
            session_generation: self.session_generation,
            thinking_span: self.thinking_span,
            tool_spans: self.tool_spans@,
            pending_tool_payloads: self.pending_tool_payloads@,
            last_sequence: self.last_sequence,
            last_rejection_count: self.last_rejection_count,
            pending_rejection_sequence: self.pending_rejection_sequence,
        }
    }
}

/// Which part of a turn the normalizers are asked about.
#[derive(Clone, Copy, Debug, PartialEq, Eq, Structural)]
pub enum TurnRequest {
    /// The message chunk at hand.
    MessageChunk,
    /// Something other than a message has come.
    OtherThanMessage,
    MessagesEnd,
    /// The thinking activity at hand.
    Thinking,
    ThinkingEnds,
    /// The tool activity at hand.
    Tool,
    ToolsEnd,
}

/// A call of the ports, with what was answered.
pub enum TurnCall {
    Normalize {
        request: TurnRequest,
        act_id: Seq<char>,
        elapsed_ns: u64,
        reply: Result<Seq<TurnCandidate>, &'static str>,
    },
    Payload {
        act_id: Seq<char>,
        canonical_tool_call_id: Seq<char>,
        payload: PendingToolPayload,
    },
}

/// Calls of the ports, in order.
pub type TurnLog = Seq<TurnCall>;

/// The normalizers of the agent's reports, and the sinks of the acts. Nothing is promised of what
/// they answer, only that it is known what was asked of them. The report at hand is known to them.
pub trait TurnPorts {
    /// Every call so far.
    spec fn told(&self) -> TurnLog;

    /// What is to be recorded of a turn, or the code of what is wrong with the report.
    fn normalize(&mut self, request: TurnRequest, act_id: &str, elapsed_ns: u64) -> (reply: Result<
        Vec<TurnCandidate>,
        &'static str,
    >)
        ensures
            final(self).told() == old(self).told().push(
                TurnCall::Normalize { request, act_id: act_id@, elapsed_ns, reply: answer(reply) },
            ),
    ;

    /// Hands a payload to the sink of an act. The event that it goes with follows.
    fn deliver_tool_payload(
        &mut self,
        act_id: &str,
        canonical_tool_call_id: &str,
        payload: PendingToolPayload,
    )
        ensures
            final(self).told() == old(self).told().push(
                TurnCall::Payload {
                    act_id: act_id@,
                    canonical_tool_call_id: canonical_tool_call_id@,
                    payload,
                },
            ),
    ;
}

/// A call of the ports, with the number of facts that were reported before it.
pub enum PortCall {
    Normalize {
        request: TurnRequest,
        act_id: Seq<char>,
        elapsed_ns: u64,
        reported: nat,
        reply: Result<Seq<TurnCandidate>, &'static str>,
    },
    Payload {
        act_id: Seq<char>,
        canonical_tool_call_id: Seq<char>,
        payload: PendingToolPayload,
        reported: nat,
    },
}

impl PortCall {
    /// The call itself.
    pub open spec fn call(self) -> TurnCall {
        match self {
            PortCall::Normalize { request, act_id, elapsed_ns, reply, .. } => {
                TurnCall::Normalize { request, act_id, elapsed_ns, reply }
            },
            PortCall::Payload { act_id, canonical_tool_call_id, payload, .. } => {
                TurnCall::Payload { act_id, canonical_tool_call_id, payload }
            },
        }
    }

    /// The calls themselves.
    pub open spec fn all(calls: Seq<PortCall>) -> Seq<TurnCall> {
        calls.map_values(|call: PortCall| call.call())
    }
}

/// What the normalizers have answered.
pub open spec fn answer(reply: Result<Vec<TurnCandidate>, &'static str>) -> Result<
    Seq<TurnCandidate>,
    &'static str,
> {
    match reply {
        Ok(candidates) => Ok(candidates@),
        Err(code) => Err(code),
    }
}

/// The ports with a record of their calls.
pub struct RecordedPorts<P> {
    pub ports: P,
    /// Acts have sinks.
    pub subscribers: bool,
    pub calls: Ghost<Seq<PortCall>>,
    /// The calls before those of the record.
    pub earlier: Ghost<Seq<TurnCall>>,
}

impl<P: TurnPorts> RecordedPorts<P> {
    /// The ports were asked what the record tells, and nothing else.
    pub open spec fn witnessed(self) -> bool {
        self.ports.told() == self.earlier@ + PortCall::all(self.calls@)
    }

    /// The record is still that of what the ports were asked.
    pub open spec fn stays_witnessed(self, before: Self) -> bool {
        self.earlier@ == before.earlier@ && (before.witnessed() ==> self.witnessed())
    }

    pub fn new(ports: P, subscribers: bool) -> (recorded: Self)
        ensures
            recorded.ports == ports,
            recorded.subscribers == subscribers,
            recorded.calls@ == Seq::<PortCall>::empty(),
            recorded.witnessed(),
    {
        let recorded = RecordedPorts {
            ports,
            subscribers,
            calls: Ghost(Seq::empty()),
            earlier: Ghost(ports.told()),
        };
        assert(recorded.ports.told() =~= recorded.earlier@ + PortCall::all(recorded.calls@));
        recorded
    }

    fn normalize<A: SpanEventAdmission>(
        &mut self,
        context: &DiagnosticRunContext<A>,
        request: TurnRequest,
        act_id: &str,
        elapsed_ns: u64,
    ) -> (reply: Result<Vec<TurnCandidate>, &'static str>)
        ensures
            final(self).subscribers == old(self).subscribers,
            final(self).stays_witnessed(*old(self)),
            final(self).calls@ == old(self).calls@.push(
                PortCall::Normalize {
                    request,
                    act_id: act_id@,
                    elapsed_ns,
                    reported: context.trace().len(),
                    reply: answer(reply),
                },
            ),
    {
        let ghost before = self.calls@;
        let reply = self.ports.normalize(request, act_id, elapsed_ns);
        proof {
            self.calls@ = before.push(
                PortCall::Normalize {
                    request,
                    act_id: act_id@,
                    elapsed_ns,
                    reported: context.trace().len(),
                    reply: answer(reply),
                },
            );
            assert(PortCall::all(self.calls@) =~= PortCall::all(before).push(
                self.calls@.last().call(),
            ));
            assert(self.earlier@ + PortCall::all(self.calls@) =~= (self.earlier@
                + PortCall::all(before)).push(self.calls@.last().call()));
        }
        reply
    }

    fn deliver<A: SpanEventAdmission>(
        &mut self,
        context: &DiagnosticRunContext<A>,
        act_id: &str,
        canonical_tool_call_id: &str,
        payload: PendingToolPayload,
    )
        ensures
            final(self).subscribers == old(self).subscribers,
            final(self).stays_witnessed(*old(self)),
            final(self).calls@ == old(self).calls@.push(
                PortCall::Payload {
                    act_id: act_id@,
                    canonical_tool_call_id: canonical_tool_call_id@,
                    payload,
                    reported: context.trace().len(),
                },
            ),
    {
        let ghost before = self.calls@;
        let ghost given = payload;
        self.ports.deliver_tool_payload(act_id, canonical_tool_call_id, payload);
        proof {
            self.calls@ = before.push(
                PortCall::Payload {
                    act_id: act_id@,
                    canonical_tool_call_id: canonical_tool_call_id@,
                    payload: given,
                    reported: context.trace().len(),
                },
            );
            assert(PortCall::all(self.calls@) =~= PortCall::all(before).push(
                self.calls@.last().call(),
            ));
            assert(self.earlier@ + PortCall::all(self.calls@) =~= (self.earlier@
                + PortCall::all(before)).push(self.calls@.last().call()));
        }
    }
}

/// Where a turn stands: what it holds, the next tool's number, and what was reported and asked.
#[verifier::ext_equal]
pub struct TurnProgress {
    pub turn: TurnModel,
    pub next_tool_id: u64,
    pub trace: Seq<Attempt>,
    pub calls: Seq<PortCall>,
}

/// Where a turn hangs in the run, how it ends where it ends, and whether acts have sinks.
pub struct TurnSetting {
    pub scope: DiagnosticScope,
    pub containing_span_id: u64,
    pub outcome: Option<AgentTurnDiagnosticOutcome>,
    pub subscribers: bool,
}

/// What a candidate asks for.
pub enum Advance {
    /// It is not allowed.
    Fails { code: &'static str },
    /// It is to be noted only.
    Quiet,
    /// An event is to be reported, once the turn is `ready` for it.
    Reports { ready: TurnProgress, elapsed_ns: u64, event: EventCandidate },
}

pub open spec fn spec_tool_detail(metadata: ToolMetadata) -> ToolCallDetail {
    ToolCallDetail {
        title: metadata.title,
        tool_kind: metadata.tool_kind,
        status: metadata.status,
        error_code: None,
    }
}

fn tool_detail(metadata: &ToolMetadata) -> (detail: ToolCallDetail)
    ensures
        detail == spec_tool_detail(*metadata),
{
    ToolCallDetail {
        title: metadata.title.clone(),
        tool_kind: metadata.tool_kind.clone(),
        status: metadata.status.clone(),
        error_code: None,
    }
}

/// How the span of a tool call ends. The code of the agent goes before that of the outcome.
pub open spec fn spec_tool_terminal(outcome: ToolOutcome) -> (SpanOutcome, Option<&'static str>) {
    match outcome {
        ToolOutcome::Completed => (SpanOutcome::Completed, None),
        ToolOutcome::Failed => (SpanOutcome::Failed, Some("tool_failed")),
        ToolOutcome::Cancelled => (SpanOutcome::Cancelled, Some("tool_cancelled")),
    }
}

pub fn tool_terminal(outcome: ToolOutcome) -> (terminal: (SpanOutcome, Option<&'static str>))
    ensures
        terminal == spec_tool_terminal(outcome),
{
    match outcome {
        ToolOutcome::Completed => (SpanOutcome::Completed, None),
        ToolOutcome::Failed => (SpanOutcome::Failed, Some("tool_failed")),
        ToolOutcome::Cancelled => (SpanOutcome::Cancelled, Some("tool_cancelled")),
    }
}

/// How the span of an agent's thinking ends.
pub open spec fn spec_thinking_terminal(outcome: Option<AgentTurnDiagnosticOutcome>) -> (
    SpanOutcome,
    Option<&'static str>,
) {
    match outcome {
        None | Some(AgentTurnDiagnosticOutcome::Completed) => (SpanOutcome::Completed, None),
        Some(AgentTurnDiagnosticOutcome::Cancelled) => (
            SpanOutcome::Cancelled,
            Some("agent-thinking-cancelled"),
        ),
        Some(AgentTurnDiagnosticOutcome::Failed) => (
            SpanOutcome::Failed,
            Some("agent-thinking-failed"),
        ),
    }
}

pub fn thinking_terminal(outcome: Option<AgentTurnDiagnosticOutcome>) -> (terminal: (
    SpanOutcome,
    Option<&'static str>,
))
    ensures
        terminal == spec_thinking_terminal(outcome),
{
    match outcome {
        None | Some(AgentTurnDiagnosticOutcome::Completed) => (SpanOutcome::Completed, None),
        Some(AgentTurnDiagnosticOutcome::Cancelled) => (
            SpanOutcome::Cancelled,
            Some("agent-thinking-cancelled"),
        ),
        Some(AgentTurnDiagnosticOutcome::Failed) => (
            SpanOutcome::Failed,
            Some("agent-thinking-failed"),
        ),
    }
}

/// The scope of a tool call.
pub open spec fn spec_tool_scope(scope: DiagnosticScope, tool_call_id: RunLocalId) ->
    DiagnosticScope {
    DiagnosticScope { effect_id: None, tool_call_id: Some(tool_call_id), ..scope }
}

pub fn tool_scope(scope: &DiagnosticScope, tool_call_id: RunLocalId) -> (tool: DiagnosticScope)
    ensures
        tool == spec_tool_scope(*scope, tool_call_id),
{
    DiagnosticScope {
        scene_id: copy_id(&scope.scene_id),
        actor_id: copy_id(&scope.actor_id),
        cue_id: copy_id(&scope.cue_id),
        effect_id: None,
        act_id: copy_id(&scope.act_id),
        tool_call_id: Some(tool_call_id),
        session_generation: scope.session_generation,
    }
}

/// The place of a tool call among those from `place` on.
pub open spec fn tool_from(tools: Seq<ToolProjection>, source: Seq<char>, place: int) -> Option<int>
    decreases tools.len() - place,
{
    if place >= tools.len() {
        None
    } else if tools[place].source_tool_call_id@ == source {
        Some(place)
    } else {
        tool_from(tools, source, place + 1)
    }
}

/// The place of a payload among those from `place` on.
pub open spec fn payload_from(
    payloads: Seq<PendingToolPayload>,
    tool_call_id: Seq<char>,
    source: ToolPayloadSource,
    place: int,
) -> Option<int>
    decreases payloads.len() - place,
{
    if place >= payloads.len() {
        None
    } else if payloads[place].tool_call_id@ == tool_call_id && payloads[place].payload.source
        == source {
        Some(place)
    } else {
        payload_from(payloads, tool_call_id, source, place + 1)
    }
}

/// A gap in what is known of a turn.
pub open spec fn gap_event(
    scope: DiagnosticScope,
    producer: &'static str,
    gap: SourceGap,
    affected_kind: Option<DiagnosticEventKind>,
    affected_scope: Option<DiagnosticScope>,
    cause: Option<CausalLink>,
) -> EventCandidate {
    EventCandidate {
        unheard: false,
        scope,
        cause,
        body: EventBody::ObservationGap(
            ObservationGap {
                producer,
                component: None,
                reason: gap.reason,
                lost_count: None,
                lost_bytes: None,
                affected_kind,
                affected_scope,
            },
        ),
    }
}

impl TurnProgress {
    pub open spec fn with_turn(self, turn: TurnModel) -> TurnProgress {
        TurnProgress { turn, ..self }
    }

    pub open spec fn with_call(self, call: PortCall) -> TurnProgress {
        TurnProgress { calls: self.calls.push(call), ..self }
    }

    pub open spec fn with_attempt(self, attempt: Attempt) -> TurnProgress {
        TurnProgress { trace: self.trace.push(attempt), ..self }
    }

    /// The link of the next event of the turn: it follows from the last one.
    pub open spec fn next_cause(self) -> Option<CausalLink> {
        CausalLink::after(self.turn.last_sequence)
    }

    /// The payload that waits for this part of a tool call has gone to the sink, where there is
    /// one.
    pub open spec fn delivered(
        self,
        setting: TurnSetting,
        source_tool_call_id: Seq<char>,
        source: ToolPayloadSource,
        canonical_tool_call_id: Seq<char>,
    ) -> TurnProgress {
        let payloads = self.turn.pending_tool_payloads;
        match payload_from(payloads, source_tool_call_id, source, 0) {
            Some(place) if setting.subscribers => self.with_turn(
                TurnModel { pending_tool_payloads: payloads.remove(place), ..self.turn },
            ).with_call(
                PortCall::Payload {
                    act_id: self.turn.identity.act_id@,
                    canonical_tool_call_id,
                    payload: payloads[place],
                    reported: self.trace.len(),
                },
            ),
            _ => self,
        }
    }

    /// What a candidate asks for. `tool_id` is the identifier of the next tool call.
    pub open spec fn advance(
        self,
        candidate: TurnCandidate,
        setting: TurnSetting,
        tool_id: RunLocalId,
    ) -> Advance {
        let tools = self.turn.tool_spans;
        match candidate {
            TurnCandidate::MessageDelta(delta) => Advance::Reports {
                ready: self,
                elapsed_ns: delta.elapsed_ns,
                event: EventCandidate {
                    unheard: false,
                    scope: setting.scope,
                    cause: self.next_cause(),
                    body: EventBody::AgentMessageDelta {
                        message_id: delta.message_id,
                        source_message_id: delta.source_message_id,
                        text_delta: delta.text_delta,
                    },
                },
            },
            TurnCandidate::MessageCompleted(completed) => Advance::Reports {
                ready: self,
                elapsed_ns: completed.elapsed_ns,
                event: EventCandidate {
                    unheard: false,
                    scope: setting.scope,
                    cause: self.next_cause(),
                    body: EventBody::AgentMessageCompleted {
                        message_id: completed.message_id,
                        utf8_bytes: completed.utf8_bytes,
                        unicode_scalar_count: completed.unicode_scalar_count,
                        truncated: completed.truncated,
                    },
                },
            },
            TurnCandidate::MessageGap(gap) => Advance::Reports {
                ready: self,
                elapsed_ns: gap.elapsed_ns,
                event: gap_event(
                    setting.scope,
                    "agent.message",
                    gap,
                    Some(DiagnosticEventKind::AgentMessageDelta),
                    None,
                    self.next_cause(),
                ),
            },
            TurnCandidate::Thinking { phase, thinking_ns } => match (
                phase,
                self.turn.thinking_span,
            ) {
                (ThinkingPhase::Start, None) => Advance::Reports {
                    ready: self,
                    elapsed_ns: thinking_ns,
                    event: EventCandidate::started(
                        setting.scope,
                        SpanStartDetail::AgentThinking,
                        Some(setting.containing_span_id),
                        self.next_cause(),
                    ),
                },
                (ThinkingPhase::Progress, Some(_)) => Advance::Quiet,
                (ThinkingPhase::Finish, Some(span)) => Advance::Reports {
                    ready: self.with_turn(TurnModel { thinking_span: None, ..self.turn }),
                    elapsed_ns: thinking_ns,
                    event: EventCandidate::finished(
                        span.scope,
                        span.span_id,
                        spec_thinking_terminal(setting.outcome).0,
                        crate::event::spec_stable_code(spec_thinking_terminal(setting.outcome).1),
                        self.next_cause(),
                    ),
                },
                _ => Advance::Fails { code: "observation_thinking_transition_invalid" },
            },
            TurnCandidate::ThinkingGap(gap) => Advance::Reports {
                ready: self,
                elapsed_ns: gap.elapsed_ns,
                event: gap_event(
                    setting.scope,
                    "agent.thinking",
                    gap,
                    None,
                    None,
                    self.next_cause(),
                ),
            },
            TurnCandidate::ToolStarted { started, started_ns } => if tool_from(
                tools,
                started.source_tool_call_id@,
                0,
            ) is Some {
                Advance::Fails { code: "observation_tool_transition_invalid" }
            } else if self.next_tool_id == u64::MAX {
                Advance::Fails { code: "observation_identifier_invalid" }
            } else {
                Advance::Reports {
                    ready: TurnProgress {
                        next_tool_id: (self.next_tool_id + 1) as u64,
                        ..self
                    }.delivered(
                        setting,
                        started.source_tool_call_id@,
                        ToolPayloadSource::Started,
                        tool_id@,
                    ),
                    elapsed_ns: started_ns,
                    event: EventCandidate::started(
                        spec_tool_scope(setting.scope, tool_id),
                        SpanStartDetail::ToolCall(spec_tool_detail(started)),
                        Some(setting.containing_span_id),
                        self.next_cause(),
                    ),
                }
            },
            TurnCandidate::ToolUpdated { updated, updated_ns } => match tool_from(
                tools,
                updated.source_tool_call_id@,
                0,
            ) {
                Some(place) if !tools[place].finished => {
                    match tools[place].scope.tool_call_id {
                        None => Advance::Fails { code: "observation_identifier_invalid" },
                        Some(canonical) => Advance::Reports {
                            ready: self.delivered(
                                setting,
                                updated.source_tool_call_id@,
                                ToolPayloadSource::Updated,
                                canonical@,
                            ),
                            elapsed_ns: updated_ns,
                            event: EventCandidate::instant(
                                tools[place].scope,
                                InstantDetail::ToolUpdated(spec_tool_detail(updated)),
                                Some(tools[place].span_id),
                                self.next_cause(),
                            ),
                        },
                    }
                },
                _ => Advance::Fails { code: "observation_tool_transition_invalid" },
            },
            TurnCandidate::ToolFinished(finished) => match tool_from(
                tools,
                finished.source_tool_call_id@,
                0,
            ) {
                Some(place) if !tools[place].finished => Advance::Reports {
                    ready: self,
                    elapsed_ns: finished.elapsed_ns,
                    event: EventCandidate::finished(
                        tools[place].scope,
                        tools[place].span_id,
                        spec_tool_terminal(finished.outcome).0,
                        crate::event::spec_stable_code(
                            match finished.error_code {
                                Some(code) => Some(code),
                                None => spec_tool_terminal(finished.outcome).1,
                            },
                        ),
                        self.next_cause(),
                    ),
                },
                _ => Advance::Fails { code: "observation_tool_transition_invalid" },
            },
            TurnCandidate::ToolGap(gap) => Advance::Reports {
                ready: self,
                elapsed_ns: gap.elapsed_ns,
                event: gap_event(
                    setting.scope,
                    "agent.tool",
                    gap,
                    None,
                    match gap.source_tool_call_id {
                        Some(source) => match tool_from(tools, source@, 0) {
                            Some(place) => Some(tools[place].scope),
                            None => None,
                        },
                        None => None,
                    },
                    self.next_cause(),
                ),
            },
            TurnCandidate::Unsupported => Advance::Fails {
                code: "observation_candidate_unsupported",
            },
        }
    }

    /// The turn once the hub has accepted the event of a candidate.
    pub open spec fn settled(
        self,
        candidate: TurnCandidate,
        setting: TurnSetting,
        tool_id: RunLocalId,
        sequence: u64,
    ) -> TurnProgress {
        let turn = TurnModel { last_sequence: sequence, ..self.turn };
        match candidate {
            TurnCandidate::Thinking { phase: ThinkingPhase::Start, .. } => self.with_turn(
                TurnModel {
                    thinking_span: Some(OpenSpan { span_id: sequence, scope: setting.scope }),
                    ..turn
                },
            ),
            TurnCandidate::ToolStarted { started, .. } => self.with_turn(
                TurnModel {
                    tool_spans: turn.tool_spans.push(
                        ToolProjection {
                            source_tool_call_id: started.source_tool_call_id,
                            span_id: sequence,
                            scope: spec_tool_scope(setting.scope, tool_id),
                            finished: false,
                        },
                    ),
                    ..turn
                },
            ),
            TurnCandidate::ToolFinished(finished) => {
                let place = tool_from(turn.tool_spans, finished.source_tool_call_id@, 0)->0;
                self.with_turn(
                    TurnModel {
                        tool_spans: turn.tool_spans.update(
                            place,
                            ToolProjection { finished: true, ..turn.tool_spans[place] },
                        ),
                        ..turn
                    },
                )
            },
            _ => self.with_turn(turn),
        }
    }

    /// A candidate was recorded, or not: `result` says why.
    pub open spec fn steps(
        self,
        after: TurnProgress,
        candidate: TurnCandidate,
        setting: TurnSetting,
        tool_id: RunLocalId,
        result: Result<(), &'static str>,
    ) -> bool {
        &&& tool_id@ == crate::identifier::numbered("tool-"@, self.next_tool_id)
        &&& match self.advance(candidate, setting, tool_id) {
            Advance::Fails { code } => result == Err::<(), &'static str>(code) && after =~= self,
            Advance::Quiet => result == Ok::<(), &'static str>(()) && after =~= self,
            Advance::Reports { ready, elapsed_ns, event } => {
                let attempt = after.trace.last();
                &&& after.trace.len() > 0
                &&& attempt.candidate == event
                &&& attempt.elapsed == Ok::<u64, crate::context::TimeError>(elapsed_ns)
                &&& attempt.faithful()
                &&& match attempt.reply {
                    Ok(sequence) => {
                        &&& result == Ok::<(), &'static str>(())
                        &&& after =~= ready.with_attempt(attempt).settled(
                            candidate,
                            setting,
                            tool_id,
                            sequence,
                        )
                    },
                    Err(_) => {
                        &&& result == Err::<(), &'static str>("canonical_admission_failed")
                        &&& after =~= ready.with_attempt(attempt)
                    },
                }
            },
        }
    }

    /// A candidate was recorded, or not, under the identifier of the next tool call.
    pub open spec fn step(
        self,
        after: TurnProgress,
        candidate: TurnCandidate,
        setting: TurnSetting,
        result: Result<(), &'static str>,
    ) -> bool {
        exists|tool_id: RunLocalId| #[trigger]
            self.steps(after, candidate, setting, tool_id, result)
    }

    /// The candidates were recorded one after the other along `path`. The first that was not ended
    /// it.
    pub open spec fn projects(
        self,
        after: TurnProgress,
        candidates: Seq<TurnCandidate>,
        setting: TurnSetting,
        result: Result<(), &'static str>,
        path: Seq<TurnProgress>,
    ) -> bool {
        &&& 1 <= path.len() <= candidates.len() + 1
        &&& path[0] == self
        &&& path.last() == after
        &&& forall|i: int|
            0 <= i < path.len() - 2 ==> (#[trigger] path[i]).step(
                path[i + 1],
                candidates[i],
                setting,
                Ok(()),
            )
        &&& path.len() > 1 ==> path[path.len() - 2].step(
            after,
            candidates[path.len() - 2],
            setting,
            result,
        )
        &&& result is Ok ==> path.len() == candidates.len() + 1
        &&& result is Err ==> path.len() > 1
    }

    /// The candidates were recorded one after the other.
    #[verifier::opaque]
    pub open spec fn projected(
        self,
        after: TurnProgress,
        candidates: Seq<TurnCandidate>,
        setting: TurnSetting,
        result: Result<(), &'static str>,
    ) -> bool {
        exists|path: Seq<TurnProgress>| #[trigger]
            self.projects(after, candidates, setting, result, path)
    }

    /// The normalizers were asked and gave `reply`, and what they answered was recorded.
    pub open spec fn answered(
        self,
        after: TurnProgress,
        request: TurnRequest,
        elapsed_ns: u64,
        reply: Result<Seq<TurnCandidate>, &'static str>,
        setting: TurnSetting,
        result: Result<(), &'static str>,
    ) -> bool {
        let asked = self.with_call(
            PortCall::Normalize {
                request,
                act_id: self.turn.identity.act_id@,
                elapsed_ns,
                reported: self.trace.len(),
                reply,
            },
        );
        match reply {
            Err(code) => result == Err::<(), &'static str>(code) && after == asked,
            Ok(candidates) => asked.projected(after, candidates, setting, result),
        }
    }

    /// The normalizers were asked, and what they answered was recorded.
    #[verifier::opaque]
    pub open spec fn heard(
        self,
        after: TurnProgress,
        request: TurnRequest,
        elapsed_ns: u64,
        setting: TurnSetting,
        result: Result<(), &'static str>,
    ) -> bool {
        exists|reply: Result<Seq<TurnCandidate>, &'static str>| #[trigger]
            self.answered(after, request, elapsed_ns, reply, setting, result)
    }
}

impl TurnProjection {
    /// A turn of which nothing was recorded yet.
    pub open spec fn fresh(
        identity: AgentTurnDiagnosticIdentity,
        session_generation: u64,
        initial_sequence: u64,
    ) -> TurnModel {
        TurnModel {
            identity,
            session_generation,
            thinking_span: None,
            tool_spans: Seq::empty(),
            pending_tool_payloads: Seq::empty(),
            last_sequence: initial_sequence,
            last_rejection_count: 0,
            pending_rejection_sequence: None,
        }
    }

    pub fn new(
        identity: &AgentTurnDiagnosticIdentity,
        session_generation: u64,
        initial_sequence: u64,
    ) -> (turn: Self)
        ensures
            turn@ == TurnProjection::fresh(*identity, session_generation, initial_sequence),
    {
        TurnProjection {
            identity: identity.clone(),
            session_generation,
            thinking_span: None,
            tool_spans: Vec::new(),
            pending_tool_payloads: Vec::new(),
            last_sequence: initial_sequence,
            last_rejection_count: 0,
            pending_rejection_sequence: None,
        }
    }

    /// Where the turn stands.
    pub open spec fn progress<A: SpanEventAdmission, P>(
        self,
        next_tool_id: u64,
        context: DiagnosticRunContext<A>,
        ports: RecordedPorts<P>,
    ) -> TurnProgress {
        TurnProgress {
            turn: self@,
            next_tool_id,
            trace: context.trace(),
            calls: ports.calls@,
        }
    }

    fn find_tool(&self, source: &str) -> (place: Option<usize>)
        ensures
            match place {
                Some(place) => {
                    &&& place < self.tool_spans@.len()
                    &&& tool_from(self.tool_spans@, source@, 0) == Some(place as int)
                },
                None => tool_from(self.tool_spans@, source@, 0) is None,
            },
    {
        let mut place: usize = 0;
        while place < self.tool_spans.len()
            invariant
                place <= self.tool_spans@.len(),
                tool_from(self.tool_spans@, source@, 0) == tool_from(
                    self.tool_spans@,
                    source@,
                    place as int,
                ),
            decreases self.tool_spans.len() - place,
        {
            if same_text(self.tool_spans[place].source_tool_call_id.as_str(), source) {
                return Some(place);
            }
            place = place + 1;
        }
        None
    }

    fn find_payload(&self, tool_call_id: &str, source: ToolPayloadSource) -> (place: Option<usize>)
        ensures
            match place {
                Some(place) => {
                    &&& place < self.pending_tool_payloads@.len()
                    &&& payload_from(self.pending_tool_payloads@, tool_call_id@, source, 0) == Some(
                        place as int,
                    )
                },
                None => payload_from(
                    self.pending_tool_payloads@,
                    tool_call_id@,
                    source,
                    0,
                ) is None,
            },
    {
        let mut place: usize = 0;
        while place < self.pending_tool_payloads.len()
            invariant
                place <= self.pending_tool_payloads@.len(),
                payload_from(self.pending_tool_payloads@, tool_call_id@, source, 0)
                    == payload_from(
                    self.pending_tool_payloads@,
                    tool_call_id@,
                    source,
                    place as int,
                ),
            decreases self.pending_tool_payloads.len() - place,
        {
            let pending = &self.pending_tool_payloads[place];
            if same_text(pending.tool_call_id.as_str(), tool_call_id) && pending.payload.source
                == source {
                return Some(place);
            }
            place = place + 1;
        }
        None
    }

    fn deliver_pending_tool_payload<A: SpanEventAdmission, P: TurnPorts>(
        &mut self,
        next_tool_id: u64,
        context: &DiagnosticRunContext<A>,
        ports: &mut RecordedPorts<P>,
        setting: &TurnSetting,
        source_tool_call_id: &str,
        source: ToolPayloadSource,
        canonical_tool_call_id: &str,
    )
        requires
            setting.subscribers == old(ports).subscribers,
        ensures
            final(ports).stays_witnessed(*old(ports)),
            final(ports).subscribers == old(ports).subscribers,
            final(self).progress(next_tool_id, *context, *final(ports)) =~= old(self).progress(
                next_tool_id,
                *context,
                *old(ports),
            ).delivered(*setting, source_tool_call_id@, source, canonical_tool_call_id@),
    {
        if !ports.subscribers {
            return;
        }
        let place = match self.find_payload(source_tool_call_id, source) {
            Some(place) => place,
            None => return,
        };
        let payload = self.pending_tool_payloads.remove(place);
        ports.deliver(context, self.identity.act_id.as_str(), canonical_tool_call_id, payload);
    }

    /// Takes note of what the hub has answered to the event of a candidate.
    fn noted(&mut self, reply: Result<u64, DiagnosticProducerError>) -> (result: Result<
        (),
        &'static str,
    >)
        ensures
            match reply {
                Ok(sequence) => {
                    &&& result == Ok::<(), &'static str>(())
                    &&& *final(self) == (TurnProjection { last_sequence: sequence, ..*old(self) })
                },
                Err(_) => {
                    &&& result == Err::<(), &'static str>("canonical_admission_failed")
                    &&& *final(self) == *old(self)
                },
            },
    {
        match reply {
            Ok(sequence) => {
                self.last_sequence = sequence;
                Ok(())
            },
            Err(_) => Err("canonical_admission_failed"),
        }
    }

    /// Records a candidate of a message, or a gap.
    fn advance_message<A: SpanEventAdmission, P: TurnPorts>(
        &mut self,
        next_tool_id: u64,
        context: &mut DiagnosticRunContext<A>,
        ports: &RecordedPorts<P>,
        setting: &TurnSetting,
        tool_id: &RunLocalId,
        candidate: &TurnCandidate,
    ) -> (result: Result<(), &'static str>)
        requires
            tool_id@ == crate::identifier::numbered("tool-"@, next_tool_id),
            candidate is MessageDelta || candidate is MessageCompleted || candidate is MessageGap
                || candidate is ThinkingGap || candidate is ToolGap || candidate is Unsupported,
        ensures
            final(context).readings() == old(context).readings(),
            final(context).stays_witnessed(*old(context)),
            old(self).progress(next_tool_id, *old(context), *ports).steps(
                final(self).progress(next_tool_id, *final(context), *ports),
                *candidate,
                *setting,
                *tool_id,
                result,
            ),
    {
        let cause = follows_from(self.last_sequence);
        match candidate {
            TurnCandidate::MessageDelta(delta) => {
                let event = EventCandidate {
                    unheard: false,
                    scope: setting.scope.clone(),
                    cause,
                    body: EventBody::AgentMessageDelta {
                        message_id: delta.message_id.clone(),
                        source_message_id: copy_text(&delta.source_message_id),
                        text_delta: delta.text_delta.clone(),
                    },
                };
                let reply = context.report_at(delta.elapsed_ns, event);
                self.noted(reply)
            },
            TurnCandidate::MessageCompleted(completed) => {
                let event = EventCandidate {
                    unheard: false,
                    scope: setting.scope.clone(),
                    cause,
                    body: EventBody::AgentMessageCompleted {
                        message_id: completed.message_id.clone(),
                        utf8_bytes: completed.utf8_bytes,
                        unicode_scalar_count: completed.unicode_scalar_count,
                        truncated: completed.truncated,
                    },
                };
                let reply = context.report_at(completed.elapsed_ns, event);
                self.noted(reply)
            },
            TurnCandidate::MessageGap(gap) => {
                let event = gap_of(
                    &setting.scope,
                    "agent.message",
                    gap,
                    Some(DiagnosticEventKind::AgentMessageDelta),
                    None,
                    cause,
                );
                let reply = context.report_at(gap.elapsed_ns, event);
                self.noted(reply)
            },
            TurnCandidate::ThinkingGap(gap) => {
                let event = gap_of(&setting.scope, "agent.thinking", gap, None, None, cause);
                let reply = context.report_at(gap.elapsed_ns, event);
                self.noted(reply)
            },
            TurnCandidate::ToolGap(gap) => {
                let affected_scope = match &gap.source_tool_call_id {
                    Some(source) => match self.find_tool(source.as_str()) {
                        Some(place) => Some(self.tool_spans[place].scope.clone()),
                        None => None,
                    },
                    None => None,
                };
                let event = gap_of(&setting.scope, "agent.tool", gap, None, affected_scope, cause);
                let reply = context.report_at(gap.elapsed_ns, event);
                self.noted(reply)
            },
            _ => Err("observation_candidate_unsupported"),
        }
    }

    /// Records a candidate of the agent's thinking.
    fn advance_thinking<A: SpanEventAdmission, P: TurnPorts>(
        &mut self,
        next_tool_id: u64,
        context: &mut DiagnosticRunContext<A>,
        ports: &RecordedPorts<P>,
        setting: &TurnSetting,
        tool_id: &RunLocalId,
        candidate: &TurnCandidate,
    ) -> (result: Result<(), &'static str>)
        requires
            tool_id@ == crate::identifier::numbered("tool-"@, next_tool_id),
            candidate is Thinking,
        ensures
            final(context).readings() == old(context).readings(),
            final(context).stays_witnessed(*old(context)),
            old(self).progress(next_tool_id, *old(context), *ports).steps(
                final(self).progress(next_tool_id, *final(context), *ports),
                *candidate,
                *setting,
                *tool_id,
                result,
            ),
    {
        let cause = follows_from(self.last_sequence);
        let (phase, elapsed_ns) = match candidate {
            TurnCandidate::Thinking { phase, thinking_ns } => (*phase, *thinking_ns),
            _ => return Err("observation_candidate_unsupported"),
        };
        match phase {
            ThinkingPhase::Start => {
                if self.thinking_span.is_some() {
                    return Err("observation_thinking_transition_invalid");
                }
                let event = EventCandidate {
                    unheard: false,
                    scope: setting.scope.clone(),
                    cause,
                    body: EventBody::SpanStarted {
                        detail: SpanStartDetail::AgentThinking,
                        parent_span_id: Some(setting.containing_span_id),
                    },
                };
                match context.report_at(elapsed_ns, event) {
                    Ok(span_id) => {
                        self.thinking_span = Some(
                            OpenSpan { span_id, scope: setting.scope.clone() },
                        );
                        self.last_sequence = span_id;
                        Ok(())
                    },
                    Err(_) => Err("canonical_admission_failed"),
                }
            },
            ThinkingPhase::Progress => {
                if self.thinking_span.is_none() {
                    return Err("observation_thinking_transition_invalid");
                }
                Ok(())
            },
            ThinkingPhase::Finish => {
                let span = match self.thinking_span.take() {
                    Some(span) => span,
                    None => return Err("observation_thinking_transition_invalid"),
                };
                let (outcome, error_code) = thinking_terminal(setting.outcome);
                let event = EventCandidate {
                    unheard: false,
                    scope: span.scope,
                    cause,
                    body: EventBody::SpanFinished {
                        span_id: span.span_id,
                        outcome,
                        error_code: stable_code(error_code),
                    },
                };
                let reply = context.report_at(elapsed_ns, event);
                self.noted(reply)
            },
        }
    }

    /// Records a candidate of a tool call.
    fn advance_tool<A: SpanEventAdmission, P: TurnPorts>(
        &mut self,
        next_tool_id: &mut u64,
        context: &mut DiagnosticRunContext<A>,
        ports: &mut RecordedPorts<P>,
        setting: &TurnSetting,
        tool_id: &RunLocalId,
        candidate: &TurnCandidate,
    ) -> (result: Result<(), &'static str>)
        requires
            tool_id@ == crate::identifier::numbered("tool-"@, *old(next_tool_id)),
            setting.subscribers == old(ports).subscribers,
            candidate is ToolStarted || candidate is ToolUpdated || candidate is ToolFinished,
        ensures
            final(ports).subscribers == old(ports).subscribers,
            final(context).readings() == old(context).readings(),
            final(context).stays_witnessed(*old(context)),
            final(ports).stays_witnessed(*old(ports)),
            old(self).progress(*old(next_tool_id), *old(context), *old(ports)).steps(
                final(self).progress(*final(next_tool_id), *final(context), *final(ports)),
                *candidate,
                *setting,
                *tool_id,
                result,
            ),
    {
        let cause = follows_from(self.last_sequence);
        match candidate {
            TurnCandidate::ToolStarted { started, started_ns } => {
                if self.find_tool(started.source_tool_call_id.as_str()).is_some() {
                    return Err("observation_tool_transition_invalid");
                }
                if *next_tool_id == u64::MAX {
                    return Err("observation_identifier_invalid");
                }
                *next_tool_id = *next_tool_id + 1;
                let scope = tool_scope(&setting.scope, tool_id.clone());
                self.deliver_pending_tool_payload(
                    *next_tool_id,
                    &*context,
                    ports,
                    setting,
                    started.source_tool_call_id.as_str(),
                    ToolPayloadSource::Started,
                    tool_id.as_str(),
                );
                let event = EventCandidate {
                    unheard: false,
                    scope: scope.clone(),
                    cause,
                    body: EventBody::SpanStarted {
                        detail: SpanStartDetail::ToolCall(tool_detail(started)),
                        parent_span_id: Some(setting.containing_span_id),
                    },
                };
                match context.report_at(*started_ns, event) {
                    Ok(span_id) => {
                        self.tool_spans.push(
                            ToolProjection {
                                source_tool_call_id: started.source_tool_call_id.clone(),
                                span_id,
                                scope,
                                finished: false,
                            },
                        );
                        self.last_sequence = span_id;
                        Ok(())
                    },
                    Err(_) => Err("canonical_admission_failed"),
                }
            },
            TurnCandidate::ToolUpdated { updated, updated_ns } => {
                let place = match self.find_tool(updated.source_tool_call_id.as_str()) {
                    Some(place) => place,
                    None => return Err("observation_tool_transition_invalid"),
                };
                if self.tool_spans[place].finished {
                    return Err("observation_tool_transition_invalid");
                }
                let scope = self.tool_spans[place].scope.clone();
                let span_id = self.tool_spans[place].span_id;
                let canonical = match &scope.tool_call_id {
                    Some(canonical) => canonical.clone(),
                    None => return Err("observation_identifier_invalid"),
                };
                self.deliver_pending_tool_payload(
                    *next_tool_id,
                    &*context,
                    ports,
                    setting,
                    updated.source_tool_call_id.as_str(),
                    ToolPayloadSource::Updated,
                    canonical.as_str(),
                );
                let event = EventCandidate {
                    unheard: false,
                    scope,
                    cause,
                    body: EventBody::InstantOccurred {
                        instant: InstantDetail::ToolUpdated(tool_detail(updated)),
                        containing_span_id: Some(span_id),
                    },
                };
                let reply = context.report_at(*updated_ns, event);
                self.noted(reply)
            },
            TurnCandidate::ToolFinished(finished) => {
                let place = match self.find_tool(finished.source_tool_call_id.as_str()) {
                    Some(place) => place,
                    None => return Err("observation_tool_transition_invalid"),
                };
                if self.tool_spans[place].finished {
                    return Err("observation_tool_transition_invalid");
                }
                let (outcome, fallback) = tool_terminal(finished.outcome);
                let error_code = match finished.error_code {
                    Some(code) => Some(code),
                    None => fallback,
                };
                let event = EventCandidate {
                    unheard: false,
                    scope: self.tool_spans[place].scope.clone(),
                    cause,
                    body: EventBody::SpanFinished {
                        span_id: self.tool_spans[place].span_id,
                        outcome,
                        error_code: stable_code(error_code),
                    },
                };
                match context.report_at(finished.elapsed_ns, event) {
                    Ok(sequence) => {
                        self.tool_spans[place].finished = true;
                        self.last_sequence = sequence;
                        Ok(())
                    },
                    Err(_) => Err("canonical_admission_failed"),
                }
            },
            _ => Err("observation_candidate_unsupported"),
        }
    }

    /// Records one candidate.
    pub fn advance<A: SpanEventAdmission, P: TurnPorts>(
        &mut self,
        next_tool_id: &mut u64,
        context: &mut DiagnosticRunContext<A>,
        ports: &mut RecordedPorts<P>,
        setting: &TurnSetting,
        candidate: &TurnCandidate,
    ) -> (result: Result<(), &'static str>)
        requires
            setting.subscribers == old(ports).subscribers,
        ensures
            final(ports).subscribers == old(ports).subscribers,
            final(context).readings() == old(context).readings(),
            final(context).stays_witnessed(*old(context)),
            final(ports).stays_witnessed(*old(ports)),
            old(self).progress(*old(next_tool_id), *old(context), *old(ports)).step(
                final(self).progress(*final(next_tool_id), *final(context), *final(ports)),
                *candidate,
                *setting,
                result,
            ),
    {
        let tool_id = numbered_id("tool-", *next_tool_id);
        let ghost before = self.progress(*next_tool_id, *context, *ports);
        let result = match candidate {
            TurnCandidate::Thinking { .. } => self.advance_thinking(
                *next_tool_id,
                context,
                &*ports,
                setting,
                &tool_id,
                candidate,
            ),
            TurnCandidate::ToolStarted { .. }
            | TurnCandidate::ToolUpdated { .. }
            | TurnCandidate::ToolFinished(_) => self.advance_tool(
                next_tool_id,
                context,
                ports,
                setting,
                &tool_id,
                candidate,
            ),
            _ => self.advance_message(
                *next_tool_id,
                context,
                &*ports,
                setting,
                &tool_id,
                candidate,
            ),
        };
        assert(before.steps(
            self.progress(*next_tool_id, *context, *ports),
            *candidate,
            *setting,
            tool_id,
            result,
        ));
        result
    }

    /// Records candidates one after the other, up to the first that cannot be recorded. Gives the
    /// number of facts that were reported.
    pub fn project_candidates<A: SpanEventAdmission, P: TurnPorts>(
        &mut self,
        next_tool_id: &mut u64,
        context: &mut DiagnosticRunContext<A>,
        ports: &mut RecordedPorts<P>,
        setting: &TurnSetting,
        candidates: &Vec<TurnCandidate>,
    ) -> (result: Result<usize, &'static str>)
        requires
            setting.subscribers == old(ports).subscribers,
        ensures
            final(ports).subscribers == old(ports).subscribers,
            final(context).readings() == old(context).readings(),
            final(context).stays_witnessed(*old(context)),
            final(ports).stays_witnessed(*old(ports)),
            result is Ok ==> final(context).trace().len() == old(context).trace().len()
                + result->Ok_0,
            old(self).progress(*old(next_tool_id), *old(context), *old(ports)).projected(
                final(self).progress(*final(next_tool_id), *final(context), *final(ports)),
                candidates@,
                *setting,
                without_count(result),
            ),
    {
        let ghost start = self.progress(*next_tool_id, *context, *ports);
        let ghost mut path = seq![start];
        let mut place: usize = 0;
        let mut reported: usize = 0;
        while place < candidates.len()
            invariant
                reported <= place <= candidates@.len(),
                setting.subscribers == ports.subscribers,
                ports.subscribers == old(ports).subscribers,
                context.readings() == old(context).readings(),
                context.stays_witnessed(*old(context)),
                ports.stays_witnessed(*old(ports)),
                context.trace().len() == old(context).trace().len() + reported,
                start == old(self).progress(*old(next_tool_id), *old(context), *old(ports)),
                path.len() == place + 1,
                path[0] == start,
                path.last() == self.progress(*next_tool_id, *context, *ports),
                forall|i: int|
                    0 <= i < path.len() - 1 ==> (#[trigger] path[i]).step(
                        path[i + 1],
                        candidates@[i],
                        *setting,
                        Ok(()),
                    ),
            decreases candidates.len() - place,
        {
            let ghost here = self.progress(*next_tool_id, *context, *ports);
            let result = self.advance(
                next_tool_id,
                context,
                ports,
                setting,
                &candidates[place],
            );
            let ghost there = self.progress(*next_tool_id, *context, *ports);
            let ghost longer = path.push(there);
            if let Err(code) = result {
                proof {
                    reveal(TurnProgress::projected);
                    assert(start.projects(there, candidates@, *setting, Err(code), longer));
                }
                return Err(code);
            }
            proof {
                assert(here.step(there, candidates@[place as int], *setting, Ok(())));
                assert forall|i: int| 0 <= i < longer.len() - 1 implies (#[trigger] longer[i]).step(
                    longer[i + 1],
                    candidates@[i],
                    *setting,
                    Ok(()),
                ) by {
                    if i < path.len() - 1 {
                        assert(path[i].step(path[i + 1], candidates@[i], *setting, Ok(())));
                    }
                }
                path = longer;
                here.step_reports(there, candidates@[place as int], *setting);
            }
            if !is_quiet(&candidates[place]) {
                reported = reported + 1;
            }
            place = place + 1;
        }
        proof {
            reveal(TurnProgress::projected);
            assert(start.projects(path.last(), candidates@, *setting, Ok(()), path));
        }
        Ok(reported)
    }

    /// Asks the normalizers and records what they answer. Gives the number of facts that were
    /// reported.
    pub fn hear<A: SpanEventAdmission, P: TurnPorts>(
        &mut self,
        next_tool_id: &mut u64,
        context: &mut DiagnosticRunContext<A>,
        ports: &mut RecordedPorts<P>,
        setting: &TurnSetting,
        request: TurnRequest,
        elapsed_ns: u64,
    ) -> (result: Result<usize, &'static str>)
        requires
            setting.subscribers == old(ports).subscribers,
        ensures
            final(ports).subscribers == old(ports).subscribers,
            final(context).readings() == old(context).readings(),
            final(context).stays_witnessed(*old(context)),
            final(ports).stays_witnessed(*old(ports)),
            result is Ok ==> final(context).trace().len() == old(context).trace().len()
                + result->Ok_0,
            old(self).progress(*old(next_tool_id), *old(context), *old(ports)).heard(
                final(self).progress(*final(next_tool_id), *final(context), *final(ports)),
                request,
                elapsed_ns,
                *setting,
                without_count(result),
            ),
    {
        proof {
            reveal(TurnProgress::heard);
        }
        let ghost before = self.progress(*next_tool_id, *context, *ports);
        let candidates = match ports.normalize(
            &*context,
            request,
            self.identity.act_id.as_str(),
            elapsed_ns,
        ) {
            Ok(candidates) => candidates,
            Err(code) => {
                assert(before.answered(
                    self.progress(*next_tool_id, *context, *ports),
                    request,
                    elapsed_ns,
                    Err(code),
                    *setting,
                    Err(code),
                ));
                return Err(code);
            },
        };
        let result = self.project_candidates(
            next_tool_id,
            context,
            ports,
            setting,
            &candidates,
        );
        assert(before.answered(
            self.progress(*next_tool_id, *context, *ports),
            request,
            elapsed_ns,
            Ok(candidates@),
            *setting,
            without_count(result),
        ));
        result
    }
}

fn is_quiet(candidate: &TurnCandidate) -> (quiet: bool)
    ensures
        quiet == candidate.spec_quiet(),
{
    match candidate {
        TurnCandidate::Thinking { phase, .. } => *phase == ThinkingPhase::Progress,
        _ => false,
    }
}

impl TurnCandidate {
    /// The candidate is to be noted only.
    pub open spec fn spec_quiet(self) -> bool {
        self matches TurnCandidate::Thinking { phase, .. } && phase == ThinkingPhase::Progress
    }
}

impl TurnProgress {
    /// A candidate that is recorded is one fact, unless it is to be noted only.
    pub proof fn step_reports(
        self,
        after: TurnProgress,
        candidate: TurnCandidate,
        setting: TurnSetting,
    )
        requires
            self.step(after, candidate, setting, Ok(())),
        ensures
            after.trace.len() == self.trace.len() + if candidate.spec_quiet() {
                0int
            } else {
                1int
            },
    {
    }
}

/// What came of candidates, without their number.
pub open spec fn without_count(result: Result<usize, &'static str>) -> Result<(), &'static str> {
    match result {
        Ok(_) => Ok(()),
        Err(code) => Err(code),
    }
}

fn gap_of(
    scope: &DiagnosticScope,
    producer: &'static str,
    gap: &SourceGap,
    affected_kind: Option<DiagnosticEventKind>,
    affected_scope: Option<DiagnosticScope>,
    cause: Option<CausalLink>,
) -> (event: EventCandidate)
    ensures
        event == gap_event(*scope, producer, *gap, affected_kind, affected_scope, cause),
{
    EventCandidate {
        unheard: false,
        scope: scope.clone(),
        cause,
        body: EventBody::ObservationGap(
            ObservationGap {
                producer,
                component: None,
                reason: gap.reason,
                lost_count: None,
                lost_bytes: None,
                affected_kind,
                affected_scope,
            },
        ),
    }
}

/// The facts of a turn form a chain: each follows from the one before, and the one that was accepted
/// last is what the next follows from.
pub proof fn facts_of_a_turn_form_a_chain(
    before: TurnProgress,
    after: TurnProgress,
    candidate: TurnCandidate,
    setting: TurnSetting,
    result: Result<(), &'static str>,
)
    requires
        before.step(after, candidate, setting, result),
    ensures
        after.trace.len() > before.trace.len() ==> {
            let attempt = after.trace.last();
            &&& after.trace =~= before.trace.push(attempt)
            &&& attempt.candidate.cause == before.next_cause()
            &&& attempt.candidate.cause == Some(
                CausalLink {
                    sequence: before.turn.last_sequence,
                    relation: crate::event::CausalRelation::FollowsFrom,
                },
            )
            &&& attempt.reply matches Ok(sequence) ==> after.turn.last_sequence == sequence
            &&& attempt.reply is Err ==> after.turn.last_sequence == before.turn.last_sequence
        },
        after.trace.len() == before.trace.len() ==> after.turn.last_sequence
            == before.turn.last_sequence,
{
}

/// The numbers of tool calls only grow, so that no two tool calls share an identifier.
pub proof fn tool_numbers_only_grow(
    before: TurnProgress,
    after: TurnProgress,
    candidate: TurnCandidate,
    setting: TurnSetting,
    result: Result<(), &'static str>,
)
    requires
        before.step(after, candidate, setting, result),
    ensures
        after.next_tool_id >= before.next_tool_id,
        after.turn.tool_spans.len() > before.turn.tool_spans.len() ==> {
            &&& after.next_tool_id == before.next_tool_id + 1
            &&& after.turn.tool_spans.last().scope.tool_call_id matches Some(id)
            &&& id@ == crate::identifier::numbered("tool-"@, before.next_tool_id)
        },
{
    if let TurnCandidate::ToolFinished(finished) = candidate {
        tool_is_in_place(before.turn.tool_spans, finished.source_tool_call_id@, 0);
    }
}

/// A tool call that has finished stays finished, and no tool call of a turn is forgotten.
pub proof fn finished_tools_stay_finished(
    before: TurnProgress,
    after: TurnProgress,
    candidate: TurnCandidate,
    setting: TurnSetting,
    result: Result<(), &'static str>,
    place: int,
)
    requires
        before.step(after, candidate, setting, result),
        0 <= place < before.turn.tool_spans.len(),
    ensures
        place < after.turn.tool_spans.len(),
        after.turn.tool_spans[place].span_id == before.turn.tool_spans[place].span_id,
        before.turn.tool_spans[place].finished ==> after.turn.tool_spans[place].finished,
{
    let tool_id = choose|tool_id: RunLocalId| #[trigger]
        before.steps(after, candidate, setting, tool_id, result);
    assert(before.steps(after, candidate, setting, tool_id, result));
    if let TurnCandidate::ToolFinished(finished) = candidate {
        tool_is_in_place(before.turn.tool_spans, finished.source_tool_call_id@, 0);
    }
}

/// A tool call that is found is one of the turn's.
proof fn tool_is_in_place(tools: Seq<ToolProjection>, source: Seq<char>, from: int)
    requires
        0 <= from,
    ensures
        tool_from(tools, source, from) matches Some(place) ==> from <= place < tools.len()
            && tools[place].source_tool_call_id@ == source,
    decreases tools.len() - from,
{
    if from < tools.len() && tools[from].source_tool_call_id@ != source {
        tool_is_in_place(tools, source, from + 1);
    }
}

/// A tool call that has finished takes no more news: nothing is reported, and nothing changes.
pub proof fn finished_tool_takes_no_news(
    before: TurnProgress,
    after: TurnProgress,
    finished: ToolFinished,
    setting: TurnSetting,
    result: Result<(), &'static str>,
)
    requires
        before.step(after, TurnCandidate::ToolFinished(finished), setting, result),
        tool_from(before.turn.tool_spans, finished.source_tool_call_id@, 0) matches Some(place)
            && before.turn.tool_spans[place].finished,
    ensures
        result == Err::<(), &'static str>("observation_tool_transition_invalid"),
        after =~= before,
{
}

impl TurnModel {
    /// What the facts of the turn refer to is in the trace.
    pub open spec fn is_rooted(self, trace: Seq<Attempt>) -> bool {
        &&& crate::references::accepted_in(trace, self.last_sequence)
        &&& self.thinking_span matches Some(span) ==> crate::references::begun_in(
            trace,
            span.span_id,
        )
        &&& forall|i: int|
            0 <= i < self.tool_spans.len() ==> crate::references::begun_in(
                trace,
                (#[trigger] self.tool_spans[i]).span_id,
            )
    }
}

impl TurnProgress {
    proof fn advance_refers_back(
        self,
        candidate: TurnCandidate,
        setting: TurnSetting,
        tool_id: RunLocalId,
    )
        requires
            crate::references::begun_in(self.trace, setting.containing_span_id),
            self.turn.is_rooted(self.trace),
        ensures
            self.advance(candidate, setting, tool_id) matches Advance::Reports { ready, event, .. }
                ==> {
                &&& crate::references::refers_to(event, self.trace)
                &&& ready.trace == self.trace
                &&& ready.turn.is_rooted(self.trace)
                &&& ready.turn.tool_spans == self.turn.tool_spans
            },
    {
        match candidate {
            TurnCandidate::ToolUpdated { updated, .. } => {
                tool_is_in_place(self.turn.tool_spans, updated.source_tool_call_id@, 0);
            },
            TurnCandidate::ToolFinished(finished) => {
                tool_is_in_place(self.turn.tool_spans, finished.source_tool_call_id@, 0);
            },
            _ => {},
        }
    }

    proof fn settlement_is_rooted(
        self,
        candidate: TurnCandidate,
        setting: TurnSetting,
        tool_id: RunLocalId,
        sequence: u64,
    )
        requires
            self.turn.is_rooted(self.trace),
            crate::references::accepted_in(self.trace, sequence),
            candidate is ToolStarted || (candidate matches TurnCandidate::Thinking { phase, .. }
                && phase == ThinkingPhase::Start) ==> crate::references::begun_in(
                self.trace,
                sequence,
            ),
            candidate matches TurnCandidate::ToolFinished(finished) ==> tool_from(
                self.turn.tool_spans,
                finished.source_tool_call_id@,
                0,
            ) is Some,
        ensures
            self.settled(candidate, setting, tool_id, sequence).turn.is_rooted(self.trace),
    {
        if let TurnCandidate::ToolFinished(finished) = candidate {
            tool_is_in_place(self.turn.tool_spans, finished.source_tool_call_id@, 0);
        }
    }
}

/// Whatever is recorded of a turn refers only to what was reported before: to the span that the turn
/// hangs in, to the tool calls and the thoughts that have begun in the turn, and to the fact before.
pub proof fn facts_of_a_turn_refer_back(
    before: TurnProgress,
    after: TurnProgress,
    candidate: TurnCandidate,
    setting: TurnSetting,
    result: Result<(), &'static str>,
)
    requires
        crate::references::refer_back(before.trace),
        crate::references::begun_in(before.trace, setting.containing_span_id),
        before.turn.is_rooted(before.trace),
        before.step(after, candidate, setting, result),
    ensures
        crate::references::refer_back(after.trace),
        crate::references::goes_on(before.trace, after.trace),
        after.turn.is_rooted(after.trace),
{
    crate::references::what_began_stays_begun(before.trace, before.trace);
    let tool_id = choose|tool_id: RunLocalId| #[trigger]
        before.steps(after, candidate, setting, tool_id, result);
    before.advance_refers_back(candidate, setting, tool_id);
    if let Advance::Reports { ready, event, .. } = before.advance(candidate, setting, tool_id) {
        let attempt = after.trace.last();
        crate::references::appended_fact_refers_back(before.trace, attempt);
        let reported = ready.with_attempt(attempt);
        assert(reported.trace == before.trace.push(attempt));
        assert(reported.turn.is_rooted(reported.trace));
        if let Ok(sequence) = attempt.reply {
            reported.settlement_is_rooted(candidate, setting, tool_id, sequence);
        }
    }
}

/// A tool call that ends is told as it ended: the span of that tool call, of which no end was told
/// before, completed, failed or was cancelled exactly as the tool call did. It has a code exactly where
/// it did not complete or the agent gave one, and then the agent's comes first. Only that tool call is
/// over since.
pub proof fn tool_ends_as_it_did(
    before: TurnProgress,
    after: TurnProgress,
    finished: ToolFinished,
    setting: TurnSetting,
    result: Result<(), &'static str>,
)
    requires
        before.step(after, TurnCandidate::ToolFinished(finished), setting, result),
    ensures
        after.trace.len() > before.trace.len() <==> exists|place: int|
            is_first_tool(before.turn.tool_spans, place, finished.source_tool_call_id@)
                && !(#[trigger] before.turn.tool_spans[place]).finished,
        after.trace.len() > before.trace.len() ==> exists|place: int|
            {
                let tool = #[trigger] before.turn.tool_spans[place];
                let attempt = after.trace.last();
                &&& is_first_tool(before.turn.tool_spans, place, finished.source_tool_call_id@)
                &&& !tool.finished
                &&& attempt.elapsed == Ok::<u64, crate::context::TimeError>(finished.elapsed_ns)
                &&& attempt.candidate.scope == tool.scope
                &&& attempt.candidate.body matches EventBody::SpanFinished {
                    span_id,
                    outcome,
                    error_code,
                }
                &&& span_id == tool.span_id
                &&& outcome is Completed <==> finished.outcome is Completed
                &&& outcome is Failed <==> finished.outcome is Failed
                &&& outcome is Cancelled <==> finished.outcome is Cancelled
                &&& error_code is Some <==> finished.outcome !is Completed
                    || finished.error_code is Some
                &&& finished.error_code matches Some(code) ==> error_code == Some(
                    crate::event::ErrorCode::Stable(code),
                )
                &&& finished.error_code is None && finished.outcome is Failed ==> error_code->0@
                    == "tool_failed"@
                &&& finished.error_code is None && finished.outcome is Cancelled ==> error_code->0@
                    == "tool_cancelled"@
                &&& attempt.reply is Ok ==> after.turn.tool_spans =~= before.turn.tool_spans.update(
                    place,
                    ToolProjection { finished: true, ..tool },
                )
                &&& attempt.reply is Err ==> after.turn.tool_spans == before.turn.tool_spans
            },
        result is Ok <==> after.trace.len() > before.trace.len() && after.trace.last().reply is Ok,
{
    let tools = before.turn.tool_spans;
    let source = finished.source_tool_call_id@;
    first_tool_is_found(tools, source, 0);
    if let Some(place) = tool_from(tools, source, 0) {
        assert(is_first_tool(tools, place, source));
        let tool = tools[place];
        if !tool.finished {
            assert(after.trace =~= before.trace.push(after.trace.last()));
        } else {
            assert forall|other: int| is_first_tool(tools, other, source) implies (
            #[trigger] tools[other]).finished by {
                only_one_is_first(tools, place, other, source);
            }
        }
    }
}

/// The tool call at `place` is the first one that the agent knows by `source`.
pub open spec fn is_first_tool(tools: Seq<ToolProjection>, place: int, source: Seq<char>) -> bool {
    &&& 0 <= place < tools.len()
    &&& tools[place].source_tool_call_id@ == source
    &&& forall|earlier: int|
        0 <= earlier < place ==> (#[trigger] tools[earlier]).source_tool_call_id@ != source
}

proof fn only_one_is_first(tools: Seq<ToolProjection>, one: int, other: int, source: Seq<char>)
    requires
        is_first_tool(tools, one, source),
        is_first_tool(tools, other, source),
    ensures
        one == other,
{
    if one < other {
        assert(tools[one].source_tool_call_id@ != source);
    }
    if other < one {
        assert(tools[other].source_tool_call_id@ != source);
    }
}

proof fn first_tool_is_found(tools: Seq<ToolProjection>, source: Seq<char>, from: int)
    requires
        0 <= from <= tools.len(),
        forall|earlier: int|
            0 <= earlier < from ==> (#[trigger] tools[earlier]).source_tool_call_id@ != source,
    ensures
        match tool_from(tools, source, from) {
            Some(place) => is_first_tool(tools, place, source),
            None => forall|place: int|
                0 <= place < tools.len() ==> (#[trigger] tools[place]).source_tool_call_id@ != source,
        },
    decreases tools.len() - from,
{
    if from < tools.len() && tools[from].source_tool_call_id@ != source {
        first_tool_is_found(tools, source, from + 1);
    }
}

/// A tool call that starts or goes on is told as the agent described it. It starts, once, in the
/// span of the turn, under the turn's scope and an identifier of its own; its news are told in its
/// own span until it has ended.
pub proof fn tools_are_told_as_described(
    before: TurnProgress,
    after: TurnProgress,
    metadata: ToolMetadata,
    at_ns: u64,
    starts: bool,
    setting: TurnSetting,
    result: Result<(), &'static str>,
)
    requires
        before.step(
            after,
            if starts {
                TurnCandidate::ToolStarted { started: metadata, started_ns: at_ns }
            } else {
                TurnCandidate::ToolUpdated { updated: metadata, updated_ns: at_ns }
            },
            setting,
            result,
        ),
    ensures
        starts ==> (after.trace.len() > before.trace.len() <==> before.next_tool_id < u64::MAX && (
        forall|place: int|
            0 <= place < before.turn.tool_spans.len() ==> (
            #[trigger] before.turn.tool_spans[place]).source_tool_call_id@
                != metadata.source_tool_call_id@)),
        after.trace.len() > before.trace.len() ==> {
            let attempt = after.trace.last();
            let event = attempt.candidate;
            &&& attempt.elapsed == Ok::<u64, crate::context::TimeError>(at_ns)
            &&& event.scope.act_id == setting.scope.act_id || !starts
            &&& starts ==> {
                &&& event.body matches EventBody::SpanStarted {
                    detail: SpanStartDetail::ToolCall(detail),
                    parent_span_id,
                } && {
                    &&& parent_span_id == Some(setting.containing_span_id)
                    &&& detail.title == metadata.title
                    &&& detail.tool_kind == metadata.tool_kind
                    &&& detail.status == metadata.status
                    &&& detail.error_code is None
                }
                &&& event.scope.scene_id == setting.scope.scene_id
                &&& event.scope.actor_id == setting.scope.actor_id
                &&& event.scope.cue_id == setting.scope.cue_id
                &&& event.scope.session_generation == setting.scope.session_generation
                &&& event.scope.effect_id is None
                &&& event.scope.tool_call_id is Some
                &&& event.scope.tool_call_id->0@ == crate::identifier::numbered(
                    "tool-"@,
                    before.next_tool_id,
                )
                &&& after.next_tool_id == before.next_tool_id + 1
                &&& attempt.reply is Ok ==> {
                    &&& after.turn.tool_spans.len() == before.turn.tool_spans.len() + 1
                    &&& after.turn.tool_spans.last().span_id == attempt.reply->Ok_0
                    &&& after.turn.tool_spans.last().source_tool_call_id
                        == metadata.source_tool_call_id
                    &&& after.turn.tool_spans.last().scope == event.scope
                    &&& !after.turn.tool_spans.last().finished
                }
            }
            &&& !starts ==> {
                &&& exists|place: int|
                    {
                        &&& is_first_tool(
                            before.turn.tool_spans,
                            place,
                            metadata.source_tool_call_id@,
                        )
                        &&& !(#[trigger] before.turn.tool_spans[place]).finished
                        &&& event.scope == before.turn.tool_spans[place].scope
                        &&& event.body matches EventBody::InstantOccurred {
                            instant: InstantDetail::ToolUpdated(detail),
                            containing_span_id,
                        }
                        &&& containing_span_id == Some(before.turn.tool_spans[place].span_id)
                        &&& detail.title == metadata.title
                        &&& detail.tool_kind == metadata.tool_kind
                        &&& detail.status == metadata.status
                        &&& detail.error_code is None
                    }
                &&& after.turn.tool_spans == before.turn.tool_spans
            }
        },
        result is Ok <==> after.trace.len() > before.trace.len() && after.trace.last().reply is Ok,
{
    let tools = before.turn.tool_spans;
    let source = metadata.source_tool_call_id@;
    first_tool_is_found(tools, source, 0);
    let candidate = if starts {
        TurnCandidate::ToolStarted { started: metadata, started_ns: at_ns }
    } else {
        TurnCandidate::ToolUpdated { updated: metadata, updated_ns: at_ns }
    };
    let tool_id = choose|tool_id: RunLocalId| #[trigger]
        before.steps(after, candidate, setting, tool_id, result);
    assert(before.steps(after, candidate, setting, tool_id, result));
    if let Some(place) = tool_from(tools, source, 0) {
        assert(is_first_tool(tools, place, source));
        assert(tools[place].source_tool_call_id@ == source);
        if !starts && !tools[place].finished {
            assert(!tools[place].finished);
        }
    }
}

/// A payload goes to the sink of its act before the event that it belongs to, once: the one that
/// waits for this part of this tool call, under the tool call's own identifier, and only where acts
/// have sinks. No other payload is touched.
pub proof fn payload_goes_with_its_tool_call(
    before: TurnProgress,
    setting: TurnSetting,
    source_tool_call_id: Seq<char>,
    source: ToolPayloadSource,
    canonical_tool_call_id: Seq<char>,
)
    ensures
        ({
            let after = before.delivered(
                setting,
                source_tool_call_id,
                source,
                canonical_tool_call_id,
            );
            let waiting = before.turn.pending_tool_payloads;
            &&& after.trace == before.trace
            &&& after.turn.tool_spans == before.turn.tool_spans
            &&& after.turn.last_sequence == before.turn.last_sequence
            &&& after.calls.len() == before.calls.len() || after.calls.len() == before.calls.len()
                + 1
            &&& after.calls.len() > before.calls.len() <==> setting.subscribers && exists|place: int|
                0 <= place < waiting.len() && (#[trigger] waiting[place]).tool_call_id@
                    == source_tool_call_id && waiting[place].payload.source == source
            &&& after.calls.len() > before.calls.len() ==> exists|place: int|
                {
                    &&& 0 <= place < waiting.len()
                    &&& (#[trigger] waiting[place]).tool_call_id@ == source_tool_call_id
                    &&& waiting[place].payload.source == source
                    &&& after.turn.pending_tool_payloads == waiting.remove(place)
                    &&& after.calls.last() == PortCall::Payload {
                        act_id: before.turn.identity.act_id@,
                        canonical_tool_call_id,
                        payload: waiting[place],
                        reported: before.trace.len(),
                    }
                }
            &&& after.calls.len() == before.calls.len() ==> after == before
        }),
{
    let waiting = before.turn.pending_tool_payloads;
    payload_is_found(waiting, source_tool_call_id, source, 0);
    if let Some(place) = payload_from(waiting, source_tool_call_id, source, 0) {
        assert(waiting[place].tool_call_id@ == source_tool_call_id);
    }
}

proof fn payload_is_found(
    payloads: Seq<PendingToolPayload>,
    tool_call_id: Seq<char>,
    source: ToolPayloadSource,
    from: int,
)
    requires
        0 <= from <= payloads.len(),
    ensures
        match payload_from(payloads, tool_call_id, source, from) {
            Some(place) => from <= place < payloads.len() && payloads[place].tool_call_id@
                == tool_call_id && payloads[place].payload.source == source,
            None => forall|place: int|
                from <= place < payloads.len() ==> !((#[trigger] payloads[place]).tool_call_id@
                    == tool_call_id && payloads[place].payload.source == source),
        },
    decreases payloads.len() - from,
{
    if from < payloads.len() && !(payloads[from].tool_call_id@ == tool_call_id
        && payloads[from].payload.source == source) {
        payload_is_found(payloads, tool_call_id, source, from + 1);
    }
}

/// The start of a tool call takes along the payload of its start, and its news the payload of its news.
/// Nothing else that is recorded of a turn sends a payload.
pub proof fn only_tool_news_send_payloads(
    before: TurnProgress,
    after: TurnProgress,
    candidate: TurnCandidate,
    setting: TurnSetting,
    result: Result<(), &'static str>,
)
    requires
        before.step(after, candidate, setting, result),
        after.calls.len() > before.calls.len(),
    ensures
        after.calls.len() == before.calls.len() + 1,
        after.calls.last() matches PortCall::Payload { act_id, payload, reported, .. } && {
            &&& act_id == before.turn.identity.act_id@
            &&& reported == before.trace.len()
            &&& candidate matches TurnCandidate::ToolStarted { started, .. } ==> {
                &&& payload.payload.source is Started
                &&& payload.tool_call_id@ == started.source_tool_call_id@
            }
            &&& candidate matches TurnCandidate::ToolUpdated { updated, .. } ==> {
                &&& payload.payload.source is Updated
                &&& payload.tool_call_id@ == updated.source_tool_call_id@
            }
        },
        after.calls.last()->canonical_tool_call_id
            == after.trace.last().candidate.scope.tool_call_id->0@,
        candidate is ToolStarted || candidate is ToolUpdated,
        setting.subscribers,
        after.trace.len() == before.trace.len() + 1,
{
    let tool_id = choose|tool_id: RunLocalId| #[trigger]
        before.steps(after, candidate, setting, tool_id, result);
    assert(before.steps(after, candidate, setting, tool_id, result));
    match candidate {
        TurnCandidate::ToolStarted { started, .. } => payload_is_found(
            before.turn.pending_tool_payloads,
            started.source_tool_call_id@,
            ToolPayloadSource::Started,
            0,
        ),
        TurnCandidate::ToolUpdated { updated, .. } => payload_is_found(
            before.turn.pending_tool_payloads,
            updated.source_tool_call_id@,
            ToolPayloadSource::Updated,
            0,
        ),
        _ => {},
    }
}

/// An agent that thinks is told to, once at a time. Its thinking begins in the span of the turn and
/// ends what has begun: as the turn ends where the turn ends with it, and completed otherwise.
/// Progress is not told.
pub proof fn thinking_is_told_while_it_lasts(
    before: TurnProgress,
    after: TurnProgress,
    phase: ThinkingPhase,
    thinking_ns: u64,
    setting: TurnSetting,
    result: Result<(), &'static str>,
)
    requires
        before.step(after, TurnCandidate::Thinking { phase, thinking_ns }, setting, result),
    ensures
        phase is Start ==> (after.trace.len() > before.trace.len() <==> before.turn.thinking_span
            is None),
        phase is Finish ==> (after.trace.len() > before.trace.len() <==> before.turn.thinking_span
            is Some),
        phase is Progress ==> after =~= before && (result is Ok <==> before.turn.thinking_span
            is Some),
        after.trace.len() == before.trace.len() && phase !is Progress ==> result is Err && after
            =~= before,
        after.trace.len() > before.trace.len() ==> {
            let attempt = after.trace.last();
            &&& attempt.elapsed == Ok::<u64, crate::context::TimeError>(thinking_ns)
            &&& phase is Start ==> {
                &&& attempt.candidate.scope == setting.scope
                &&& attempt.candidate.body == (EventBody::SpanStarted {
                    detail: SpanStartDetail::AgentThinking,
                    parent_span_id: Some(setting.containing_span_id),
                })
                &&& attempt.reply is Ok ==> after.turn.thinking_span == Some(
                    OpenSpan { span_id: attempt.reply->Ok_0, scope: setting.scope },
                )
            }
            &&& phase is Finish ==> {
                let span = before.turn.thinking_span->0;
                &&& attempt.candidate.scope == span.scope
                &&& attempt.candidate.body matches EventBody::SpanFinished {
                    span_id,
                    outcome,
                    error_code,
                } && {
                    &&& span_id == span.span_id
                    &&& outcome is Completed <==> setting.outcome is None || setting.outcome
                        == Some(AgentTurnDiagnosticOutcome::Completed)
                    &&& outcome is Cancelled <==> setting.outcome == Some(
                        AgentTurnDiagnosticOutcome::Cancelled,
                    )
                    &&& outcome is Failed <==> setting.outcome == Some(
                        AgentTurnDiagnosticOutcome::Failed,
                    )
                    &&& error_code is None <==> outcome is Completed
                    &&& outcome is Cancelled ==> error_code->0@ == "agent-thinking-cancelled"@
                    &&& outcome is Failed ==> error_code->0@ == "agent-thinking-failed"@
                }
                &&& after.turn.thinking_span is None
            }
            &&& after.turn.tool_spans == before.turn.tool_spans
        },
{
}

/// What an agent says is told word for word, under the scope of its turn and at its time, and what its
/// reports leave out is told as missing, with the tool call that it belongs to where that is known.
pub proof fn messages_and_gaps_are_told_as_they_are(
    before: TurnProgress,
    after: TurnProgress,
    candidate: TurnCandidate,
    setting: TurnSetting,
    result: Result<(), &'static str>,
)
    requires
        before.step(after, candidate, setting, result),
        candidate is MessageDelta || candidate is MessageCompleted || candidate is MessageGap
            || candidate is ThinkingGap || candidate is ToolGap,
    ensures
        after.trace.len() == before.trace.len() + 1,
        result is Ok <==> after.trace.last().reply is Ok,
        after.trace.last().candidate.scope == setting.scope,
        after.turn.tool_spans == before.turn.tool_spans,
        after.turn.thinking_span == before.turn.thinking_span,
        ({
            let attempt = after.trace.last();
            let body = attempt.candidate.body;
            &&& candidate matches TurnCandidate::MessageDelta(delta) ==> {
                &&& attempt.elapsed == Ok::<u64, crate::context::TimeError>(delta.elapsed_ns)
                &&& body matches EventBody::AgentMessageDelta {
                    message_id,
                    source_message_id,
                    text_delta,
                } && message_id == delta.message_id && source_message_id == delta.source_message_id
                    && text_delta == delta.text_delta
            }
            &&& candidate matches TurnCandidate::MessageCompleted(completed) ==> {
                &&& attempt.elapsed == Ok::<u64, crate::context::TimeError>(completed.elapsed_ns)
                &&& body matches EventBody::AgentMessageCompleted {
                    message_id,
                    utf8_bytes,
                    unicode_scalar_count,
                    truncated,
                } && message_id == completed.message_id && utf8_bytes == completed.utf8_bytes
                    && unicode_scalar_count == completed.unicode_scalar_count && truncated
                    == completed.truncated
            }
            &&& candidate matches TurnCandidate::MessageGap(gap) ==> {
                &&& attempt.elapsed == Ok::<u64, crate::context::TimeError>(gap.elapsed_ns)
                &&& body matches EventBody::ObservationGap(told) && told.reason == gap.reason
                    && told.affected_kind == Some(DiagnosticEventKind::AgentMessageDelta)
                    && told.affected_scope is None && told.lost_count is None && told.producer
                    == "agent.message"
            }
            &&& candidate matches TurnCandidate::ThinkingGap(gap) ==> {
                &&& attempt.elapsed == Ok::<u64, crate::context::TimeError>(gap.elapsed_ns)
                &&& body matches EventBody::ObservationGap(told) && told.reason == gap.reason
                    && told.affected_kind is None && told.affected_scope is None && told.producer
                    == "agent.thinking"
            }
            &&& candidate matches TurnCandidate::ToolGap(gap) ==> {
                &&& attempt.elapsed == Ok::<u64, crate::context::TimeError>(gap.elapsed_ns)
                &&& body matches EventBody::ObservationGap(told) && {
                    &&& told.reason == gap.reason
                    &&& told.affected_kind is None
                    &&& told.producer == "agent.tool"
                    &&& told.affected_scope is Some <==> gap.source_tool_call_id is Some
                        && exists|place: int| #[trigger]
                        is_first_tool(
                            before.turn.tool_spans,
                            place,
                            gap.source_tool_call_id->0@,
                        )
                    &&& forall|place: int|
                        gap.source_tool_call_id is Some && #[trigger] is_first_tool(
                            before.turn.tool_spans,
                            place,
                            gap.source_tool_call_id->0@,
                        ) ==> told.affected_scope == Some(before.turn.tool_spans[place].scope)
                }
            }
        }),
{
    if let TurnCandidate::ToolGap(gap) = candidate {
        if let Some(source) = gap.source_tool_call_id {
            let tools = before.turn.tool_spans;
            first_tool_is_found(tools, source@, 0);
            if let Some(place) = tool_from(tools, source@, 0) {
                assert(is_first_tool(tools, place, source@));
                assert(tools[place].source_tool_call_id@ == source@);
                assert forall|other: int| #[trigger] is_first_tool(tools, other, source@) implies other
                    == place by {
                    only_one_is_first(tools, place, other, source@);
                }
            }
        }
    }
}

/// A step of a turn only adds: what was told and asked before stays, at most one fact comes to it,
/// what is asked in it are payloads, and the turn stays the same turn.
proof fn step_only_adds(
    before: TurnProgress,
    after: TurnProgress,
    candidate: TurnCandidate,
    setting: TurnSetting,
    result: Result<(), &'static str>,
)
    requires
        before.step(after, candidate, setting, result),
    ensures
        before.trace.len() <= after.trace.len() <= before.trace.len() + 1,
        forall|i: int| 0 <= i < before.trace.len() ==> #[trigger] after.trace[i] == before.trace[i],
        before.calls.len() <= after.calls.len(),
        forall|i: int| 0 <= i < before.calls.len() ==> #[trigger] after.calls[i] == before.calls[i],
        forall|i: int|
            before.calls.len() <= i < after.calls.len() ==> #[trigger] after.calls[i] is Payload,
        after.turn.identity == before.turn.identity,
        after.turn.session_generation == before.turn.session_generation,
        after.turn.last_rejection_count == before.turn.last_rejection_count,
        after.turn.pending_rejection_sequence == before.turn.pending_rejection_sequence,
{
}

proof fn path_only_adds(
    before: TurnProgress,
    after: TurnProgress,
    candidates: Seq<TurnCandidate>,
    setting: TurnSetting,
    result: Result<(), &'static str>,
    path: Seq<TurnProgress>,
    upto: int,
)
    requires
        before.projects(after, candidates, setting, result, path),
        0 <= upto < path.len(),
    ensures
        before.trace.len() <= path[upto].trace.len() <= before.trace.len() + upto,
        forall|i: int|
            0 <= i < before.trace.len() ==> #[trigger] path[upto].trace[i] == before.trace[i],
        before.calls.len() <= path[upto].calls.len(),
        forall|i: int|
            0 <= i < before.calls.len() ==> #[trigger] path[upto].calls[i] == before.calls[i],
        forall|i: int|
            before.calls.len() <= i < path[upto].calls.len()
                ==> #[trigger] path[upto].calls[i] is Payload,
        path[upto].turn.identity == before.turn.identity,
        path[upto].turn.session_generation == before.turn.session_generation,
        path[upto].turn.last_rejection_count == before.turn.last_rejection_count,
        path[upto].turn.pending_rejection_sequence == before.turn.pending_rejection_sequence,
    decreases upto,
{
    if upto > 0 {
        path_only_adds(before, after, candidates, setting, result, path, upto - 1);
        let came = if upto == path.len() - 1 {
            result
        } else {
            Ok(())
        };
        assert(path[upto - 1].step(path[upto], candidates[upto - 1], setting, came));
        step_only_adds(path[upto - 1], path[upto], candidates[upto - 1], setting, came);
    }
}

/// What is observed of a turn is asked about first, once, under the turn's own act and with the
/// time at hand, and what is answered is told after it: at most one fact for each candidate, none
/// where the answer is a failure, which is passed on. All that was told and asked before stays.
pub proof fn hearing_asks_once_and_only_adds(
    before: TurnProgress,
    after: TurnProgress,
    request: TurnRequest,
    elapsed_ns: u64,
    setting: TurnSetting,
    result: Result<(), &'static str>,
)
    requires
        before.heard(after, request, elapsed_ns, setting, result),
    ensures
        before.calls.len() < after.calls.len(),
        forall|i: int| 0 <= i < before.calls.len() ==> #[trigger] after.calls[i] == before.calls[i],
        forall|i: int|
            before.calls.len() < i < after.calls.len() ==> #[trigger] after.calls[i] is Payload,
        before.trace.len() <= after.trace.len(),
        forall|i: int| 0 <= i < before.trace.len() ==> #[trigger] after.trace[i] == before.trace[i],
        after.turn.identity == before.turn.identity,
        after.turn.session_generation == before.turn.session_generation,
        after.turn.last_rejection_count == before.turn.last_rejection_count,
        after.turn.pending_rejection_sequence == before.turn.pending_rejection_sequence,
        after.calls[before.calls.len() as int] matches PortCall::Normalize {
            request: asked,
            act_id,
            elapsed_ns: at,
            reported,
            reply,
        } && {
            &&& asked == request
            &&& act_id == before.turn.identity.act_id@
            &&& at == elapsed_ns
            &&& reported == before.trace.len()
            &&& reply matches Err(code) ==> result == Err::<(), &'static str>(code) && after.trace
                == before.trace && after.turn == before.turn
            &&& reply matches Ok(candidates) ==> after.trace.len() <= before.trace.len()
                + candidates.len() && (candidates.len() == 0 ==> result is Ok && after.turn
                == before.turn)
        },
{
    reveal(TurnProgress::heard);
    reveal(TurnProgress::projected);
    let reply = choose|reply: Result<Seq<TurnCandidate>, &'static str>| #[trigger]
        before.answered(after, request, elapsed_ns, reply, setting, result);
    let asked = before.with_call(
        PortCall::Normalize {
            request,
            act_id: before.turn.identity.act_id@,
            elapsed_ns,
            reported: before.trace.len(),
            reply,
        },
    );
    if let Ok(candidates) = reply {
        assert(asked.projected(after, candidates, setting, result));
        let path = choose|path: Seq<TurnProgress>| #[trigger]
            asked.projects(after, candidates, setting, result, path);
        path_only_adds(asked, after, candidates, setting, result, path, path.len() - 1);
        assert(after.calls[before.calls.len() as int] == asked.calls[before.calls.len() as int]);
        assert forall|i: int| 0 <= i < before.calls.len() implies #[trigger] after.calls[i]
            == before.calls[i] by {
            assert(asked.calls[i] == before.calls[i]);
        }
    }
}

} // verus!
