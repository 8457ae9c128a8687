//! What of a run's events the sink of one act receives.
use crate::event::{
    CounterKind, DiagnosticScope, EventBody, EventCandidate, InstantKind, SpanKind,
};
use crate::hooks::DiagnosticCaptureConfig;
use crate::json::write_json_value;
use std::sync::Arc;
use vstd::prelude::*;

verus! {

/// A JSON value that only a sink may see.
pub struct SinkOnlyJsonValue {
    pub value: serde_json::Value,
}

/// A place in a file that a tool worked on.
#[derive(Debug)]
pub struct SinkOnlyToolLocation {
    pub path: String,
    pub line: Option<u32>,
}

/// What a tool was given.
pub struct SinkOnlyToolInput {
    pub raw_input: Option<SinkOnlyJsonValue>,
    pub truncated: bool,
}

/// What a tool gave back.
pub struct SinkOnlyToolOutput {
    pub raw_output: Option<SinkOnlyJsonValue>,
    pub content: Vec<SinkOnlyJsonValue>,
    pub locations: Vec<SinkOnlyToolLocation>,
    pub truncated: bool,
}

/// Which event of a tool call a payload belongs to.
#[derive(Clone, Copy, Debug, PartialEq, Eq, Structural)]
pub enum ToolPayloadSource {
    Started,
    Updated,
}

/// What went into a tool and what came out of it, within the budget of its act.
pub struct SinkOnlyToolPayload {
    pub source: ToolPayloadSource,
    pub input: Option<SinkOnlyToolInput>,
    pub output: Option<SinkOnlyToolOutput>,
}

/// A JSON value as a sink receives it.
#[derive(PartialEq, Eq)]
pub struct SinkProjectedJsonValue {
    pub canonical_json: String,
}

impl SinkProjectedJsonValue {
    /// This is the canonical text of `value`.
    pub open spec fn shows(self, value: SinkOnlyJsonValue) -> bool {
        self.canonical_json@ == crate::json::json_value_text(value.value)
    }

    pub fn from_sink_only(value: &SinkOnlyJsonValue) -> (projected: Self)
        ensures
            projected.shows(*value),
    {
        SinkProjectedJsonValue { canonical_json: write_json_value(&value.value) }
    }

    pub fn canonical_json(&self) -> (text: &str)
        ensures
            text@ == self.canonical_json@,
    {
        self.canonical_json.as_str()
    }

    pub fn from_canonical_json_for_test(value: String) -> (projected: Self)
        ensures
            projected.canonical_json == value,
    {
        SinkProjectedJsonValue { canonical_json: value }
    }

    /// Describes the value without showing it.
    pub fn describe(&self) -> (text: String)
        ensures
            text@ == "SinkProjectedJsonValue(<redacted>)"@,
    {
        "SinkProjectedJsonValue(<redacted>)".to_owned()
    }
}

/// A place in a file as a sink receives it.
#[derive(Debug, PartialEq, Eq)]
pub struct SinkProjectedToolLocation {
    pub path: String,
    pub line: Option<u32>,
}

impl SinkProjectedToolLocation {
    pub open spec fn shows(self, location: SinkOnlyToolLocation) -> bool {
        self.path == location.path && self.line == location.line
    }

    pub fn path(&self) -> (path: &str)
        ensures
            path@ == self.path@,
    {
        self.path.as_str()
    }

    pub fn line(&self) -> (line: Option<u32>)
        ensures
            line == self.line,
    {
        self.line
    }

    pub fn new_for_test(path: String, line: Option<u32>) -> (location: Self)
        ensures
            location.path == path,
            location.line == line,
    {
        SinkProjectedToolLocation { path, line }
    }
}

/// Both are absent, or the one shows the other.
pub open spec fn shows_optional(
    projected: Option<SinkProjectedJsonValue>,
    value: Option<SinkOnlyJsonValue>,
) -> bool {
    match (projected, value) {
        (Some(projected), Some(value)) => projected.shows(value),
        (None, None) => true,
        _ => false,
    }
}

fn project_optional(value: &Option<SinkOnlyJsonValue>) -> (projected: Option<
    SinkProjectedJsonValue,
>)
    ensures
        shows_optional(projected, *value),
{
    match value {
        Some(value) => Some(SinkProjectedJsonValue::from_sink_only(value)),
        None => None,
    }
}

/// What a tool was given, as a sink receives it.
#[derive(PartialEq, Eq)]
pub struct SinkProjectedToolInput {
    pub raw_input: Option<SinkProjectedJsonValue>,
    pub truncated: bool,
}

impl SinkProjectedToolInput {
    pub open spec fn shows(self, input: SinkOnlyToolInput) -> bool {
        shows_optional(self.raw_input, input.raw_input) && self.truncated == input.truncated
    }

    pub fn raw_input(&self) -> (raw_input: Option<&SinkProjectedJsonValue>)
        ensures
            match self.raw_input {
                Some(value) => raw_input == Some(&value),
                None => raw_input is None,
            },
    {
        match &self.raw_input {
            Some(value) => Some(value),
            None => None,
        }
    }

    pub fn truncated(&self) -> (truncated: bool)
        ensures
            truncated == self.truncated,
    {
        self.truncated
    }

    pub fn new_for_test(raw_input: Option<SinkProjectedJsonValue>, truncated: bool) -> (input: Self)
        ensures
            input.raw_input == raw_input,
            input.truncated == truncated,
    {
        SinkProjectedToolInput { raw_input, truncated }
    }
}

/// What a tool gave back, as a sink receives it.
#[derive(PartialEq, Eq)]
pub struct SinkProjectedToolOutput {
    pub raw_output: Option<SinkProjectedJsonValue>,
    pub content: Vec<SinkProjectedJsonValue>,
    pub locations: Vec<SinkProjectedToolLocation>,
    pub truncated: bool,
}

impl SinkProjectedToolOutput {
    pub open spec fn shows(self, output: SinkOnlyToolOutput) -> bool {
        &&& shows_optional(self.raw_output, output.raw_output)
        &&& self.content@.len() == output.content@.len()
        &&& forall|i: int|
            0 <= i < self.content@.len() ==> (#[trigger] self.content@[i]).shows(output.content@[i])
        &&& self.locations@.len() == output.locations@.len()
        &&& forall|i: int|
            0 <= i < self.locations@.len() ==> (#[trigger] self.locations@[i]).shows(
                output.locations@[i],
            )
        &&& self.truncated == output.truncated
    }

    pub fn raw_output(&self) -> (raw_output: Option<&SinkProjectedJsonValue>)
        ensures
            match self.raw_output {
                Some(value) => raw_output == Some(&value),
                None => raw_output is None,
            },
    {
        match &self.raw_output {
            Some(value) => Some(value),
            None => None,
        }
    }

    pub fn content(&self) -> (content: &[SinkProjectedJsonValue])
        ensures
            content@ == self.content@,
    {
        self.content.as_slice()
    }

    pub fn locations(&self) -> (locations: &[SinkProjectedToolLocation])
        ensures
            locations@ == self.locations@,
    {
        self.locations.as_slice()
    }

    pub fn truncated(&self) -> (truncated: bool)
        ensures
            truncated == self.truncated,
    {
        self.truncated
    }

    pub fn new_for_test(
        raw_output: Option<SinkProjectedJsonValue>,
        content: Vec<SinkProjectedJsonValue>,
        locations: Vec<SinkProjectedToolLocation>,
        truncated: bool,
    ) -> (output: Self)
        ensures
            output == (SinkProjectedToolOutput { raw_output, content, locations, truncated }),
    {
        SinkProjectedToolOutput { raw_output, content, locations, truncated }
    }
}

fn project_input(input: &SinkOnlyToolInput) -> (projected: SinkProjectedToolInput)
    ensures
        projected.shows(*input),
{
    SinkProjectedToolInput {
        raw_input: project_optional(&input.raw_input),
        truncated: input.truncated,
    }
}

fn project_output(output: &SinkOnlyToolOutput) -> (projected: SinkProjectedToolOutput)
    ensures
        projected.shows(*output),
{
    let mut content: Vec<SinkProjectedJsonValue> = Vec::new();
    for i in 0..output.content.len()
        invariant
            content@.len() == i,
            forall|k: int| 0 <= k < i ==> (#[trigger] content@[k]).shows(output.content@[k]),
    {
        content.push(SinkProjectedJsonValue::from_sink_only(&output.content[i]));
    }
    let mut locations: Vec<SinkProjectedToolLocation> = Vec::new();
    for i in 0..output.locations.len()
        invariant
            locations@.len() == i,
            forall|k: int| 0 <= k < i ==> (#[trigger] locations@[k]).shows(output.locations@[k]),
    {
        let location = &output.locations[i];
        locations.push(
            SinkProjectedToolLocation { path: location.path.clone(), line: location.line },
        );
    }
    SinkProjectedToolOutput {
        raw_output: project_optional(&output.raw_output),
        content,
        locations,
        truncated: output.truncated,
    }
}

/// A payload of a tool call, ready to go with the event that it belongs to.
#[derive(PartialEq, Eq)]
pub struct PreparedSinkToolPayload {
    pub tool_call_id: String,
    pub source: ToolPayloadSource,
    pub input: Option<Arc<SinkProjectedToolInput>>,
    pub output: Option<Arc<SinkProjectedToolOutput>>,
}

impl PreparedSinkToolPayload {
    /// This is `payload`, of the tool call with this identifier.
    pub open spec fn shows(
        self,
        canonical_tool_call_id: Seq<char>,
        payload: SinkOnlyToolPayload,
    ) -> bool {
        &&& self.tool_call_id@ == canonical_tool_call_id
        &&& self.source == payload.source
        &&& match (self.input, payload.input) {
            (Some(projected), Some(input)) => projected.shows(input),
            (None, None) => true,
            _ => false,
        }
        &&& match (self.output, payload.output) {
            (Some(projected), Some(output)) => projected.shows(output),
            (None, None) => true,
            _ => false,
        }
    }

    pub fn tool_call_id(&self) -> (id: &str)
        ensures
            id@ == self.tool_call_id@,
    {
        self.tool_call_id.as_str()
    }

    pub fn source(&self) -> (source: ToolPayloadSource)
        ensures
            source == self.source,
    {
        self.source
    }

    pub fn input(&self) -> (input: Option<&SinkProjectedToolInput>)
        ensures
            match self.input {
                Some(value) => input == Some(&*value),
                None => input is None,
            },
    {
        match &self.input {
            Some(value) => Some(&**value),
            None => None,
        }
    }

    pub fn output(&self) -> (output: Option<&SinkProjectedToolOutput>)
        ensures
            match self.output {
                Some(value) => output == Some(&*value),
                None => output is None,
            },
    {
        match &self.output {
            Some(value) => Some(&**value),
            None => None,
        }
    }

    pub fn new_for_test(
        tool_call_id: String,
        source: ToolPayloadSource,
        input: Option<SinkProjectedToolInput>,
        output: Option<SinkProjectedToolOutput>,
    ) -> (payload: Self)
        ensures
            payload.tool_call_id == tool_call_id,
            payload.source == source,
            match input {
                Some(input) => payload.input is Some && *payload.input->0 == input,
                None => payload.input is None,
            },
            match output {
                Some(output) => payload.output is Some && *payload.output->0 == output,
                None => payload.output is None,
            },
    {
        let input = match input {
            Some(input) => Some(Arc::new(input)),
            None => None,
        };
        let output = match output {
            Some(output) => Some(Arc::new(output)),
            None => None,
        };
        PreparedSinkToolPayload { tool_call_id, source, input, output }
    }
}

/// Prepares a payload that the budget of its act was applied to. The budget is the agent runtime's, and
/// what it leaves of a payload is what comes in here.
pub fn prepare_sink_tool_payload(canonical_tool_call_id: &str, payload: &SinkOnlyToolPayload) -> (
    prepared: PreparedSinkToolPayload)
    ensures
        prepared.shows(canonical_tool_call_id@, *payload),
{
    let input = match &payload.input {
        Some(input) => Some(Arc::new(project_input(input))),
        None => None,
    };
    let output = match &payload.output {
        Some(output) => Some(Arc::new(project_output(output))),
        None => None,
    };
    PreparedSinkToolPayload {
        tool_call_id: canonical_tool_call_id.to_owned(),
        source: payload.source,
        input,
        output,
    }
}

/// An event that has its place in the run.
#[derive(Debug, PartialEq, Eq)]
pub struct AcceptedDiagnosticEvent {
    pub sequence: u64,
    pub elapsed_ns: u64,
    pub event: EventCandidate,
    /// The kind of the span that the event starts or ends.
    pub built_in_span_kind: Option<SpanKind>,
    /// Only the sink of one act hears of the event.
    pub subscriber_local: bool,
    pub canonical_bytes: Vec<u8>,
}

/// An event as the sink of an act receives it.
#[derive(PartialEq, Eq)]
pub struct SinkProjectedEvent {
    pub canonical: Arc<AcceptedDiagnosticEvent>,
    pub captured_input: Option<Arc<SinkProjectedToolInput>>,
    pub captured_output: Option<Arc<SinkProjectedToolOutput>>,
}

impl SinkProjectedEvent {
    pub fn canonical(&self) -> (canonical: &AcceptedDiagnosticEvent)
        ensures
            *canonical == *self.canonical,
    {
        &*self.canonical
    }

    pub fn event(&self) -> (event: &EventCandidate)
        ensures
            *event == self.canonical.event,
    {
        &self.canonical.event
    }

    pub fn canonical_bytes(&self) -> (bytes: &[u8])
        ensures
            bytes@ == self.canonical.canonical_bytes@,
    {
        self.canonical.canonical_bytes.as_slice()
    }

    pub fn captured_input(&self) -> (input: Option<&SinkProjectedToolInput>)
        ensures
            match self.captured_input {
                Some(value) => input == Some(&*value),
                None => input is None,
            },
    {
        match &self.captured_input {
            Some(value) => Some(&**value),
            None => None,
        }
    }

    pub fn captured_output(&self) -> (output: Option<&SinkProjectedToolOutput>)
        ensures
            match self.captured_output {
                Some(value) => output == Some(&*value),
                None => output is None,
            },
    {
        match &self.captured_output {
            Some(value) => Some(&**value),
            None => None,
        }
    }
}

/// Both scopes name the same act.
pub open spec fn of_same_act(left: DiagnosticScope, right: DiagnosticScope) -> bool {
    match (left.act_id, right.act_id) {
        (Some(left), Some(right)) => left@ == right@,
        _ => false,
    }
}

/// The scope that an event speaks of: for a gap, where something is missing.
pub open spec fn affected_scope(event: EventCandidate) -> DiagnosticScope {
    match event.body {
        EventBody::ObservationGap(gap) => match gap.affected_scope {
            Some(scope) => scope,
            None => event.scope,
        },
        _ => event.scope,
    }
}

/// Spans of the act and of its turn are always selected, thinking with messages, and tool calls on
/// request.
pub open spec fn selects_span(kind: SpanKind, capture: DiagnosticCaptureConfig) -> bool {
    match kind {
        SpanKind::ActLifecycle | SpanKind::ActCaller | SpanKind::AgentTurn => true,
        SpanKind::AgentThinking => capture.agent_messages,
        SpanKind::ToolCall => capture.tool_calls,
        _ => false,
    }
}

/// Moments of the act and of its turn are always selected, tool updates and result validation on
/// request.
pub open spec fn selects_instant(kind: InstantKind, capture: DiagnosticCaptureConfig) -> bool {
    match kind {
        InstantKind::ActAdmitted
        | InstantKind::ActWaitingReady
        | InstantKind::ActPromptSubmitted
        | InstantKind::ActCancelRequested
        | InstantKind::ActSupervisorHandoff
        | InstantKind::AgentTurnActivity
        | InstantKind::AgentTurnTerminal
        | InstantKind::AgentTurnSettled => true,
        InstantKind::ToolUpdated => capture.tool_calls,
        InstantKind::ResultSubmitted
        | InstantKind::ResultRejected
        | InstantKind::ResultRepairRequested
        | InstantKind::ResultAccepted
        | InstantKind::ResultMissing => capture.result_validation,
        _ => false,
    }
}

/// The number of active turns and of dropped events are always selected, rejections with result
/// validation.
pub open spec fn selects_counter(kind: CounterKind, capture: DiagnosticCaptureConfig) -> bool {
    match kind {
        CounterKind::AgentTurnActive | CounterKind::DiagnosticDroppedEvents => true,
        CounterKind::ResultValidationRejections => capture.result_validation,
        _ => false,
    }
}

/// The kind of this event is selected.
pub open spec fn selects_event(
    canonical: AcceptedDiagnosticEvent,
    capture: DiagnosticCaptureConfig,
) -> bool {
    match canonical.event.body {
        EventBody::SpanStarted { detail, .. } => selects_span(detail.spec_kind(), capture),
        EventBody::SpanFinished { .. } => match canonical.built_in_span_kind {
            Some(kind) => selects_span(kind, capture),
            None => false,
        },
        EventBody::InstantOccurred { instant, .. } => selects_instant(
            instant.spec_kind(),
            capture,
        ),
        EventBody::CounterSampled { kind, .. } => selects_counter(kind, capture),
        EventBody::AgentMessageDelta { .. }
        | EventBody::AgentMessageCompleted { .. } => capture.agent_messages,
        EventBody::AgentPlanSnapshot { .. } => capture.plans,
        EventBody::ContextUsageSampled(_) | EventBody::ActTokenUsageFinalized { .. } => {
            capture.usage
        },
        EventBody::ObservationGap(_) => true,
        EventBody::CustomSpanStarted { .. }
        | EventBody::CustomSpanFinished { .. }
        | EventBody::CustomInstantOccurred { .. }
        | EventBody::CustomCounterSampled { .. } => capture.custom_events,
    }
}

/// The sink of the act with this scope receives the event.
pub open spec fn projects(
    canonical: AcceptedDiagnosticEvent,
    current_act_scope: DiagnosticScope,
    capture: DiagnosticCaptureConfig,
) -> bool {
    &&& of_same_act(affected_scope(canonical.event), current_act_scope)
    &&& selects_event(canonical, capture)
}

/// The part of a tool call that an event reports.
pub open spec fn payload_source(event: EventCandidate) -> Option<ToolPayloadSource> {
    match event.body {
        EventBody::SpanStarted { detail, .. } => if detail.spec_kind() == SpanKind::ToolCall {
            Some(ToolPayloadSource::Started)
        } else {
            None
        },
        EventBody::InstantOccurred { instant, .. } => if instant.spec_kind()
            == InstantKind::ToolUpdated {
            Some(ToolPayloadSource::Updated)
        } else {
            None
        },
        _ => None,
    }
}

/// A payload belongs to an event: the same part of the same tool call.
pub open spec fn belongs_to(payload: PreparedSinkToolPayload, event: EventCandidate) -> bool {
    &&& payload_source(event) == Some(payload.source)
    &&& event.scope.tool_call_id is Some
    &&& event.scope.tool_call_id->0@ == payload.tool_call_id@
}

/// What goes into the tool, where it belongs to the event and is captured.
pub open spec fn captures_input(
    event: EventCandidate,
    capture: DiagnosticCaptureConfig,
    payload: Option<PreparedSinkToolPayload>,
) -> Option<Arc<SinkProjectedToolInput>> {
    match payload {
        Some(payload) => if belongs_to(payload, event) && capture.tool_calls
            && capture.tool_inputs {
            payload.input
        } else {
            None
        },
        None => None,
    }
}

/// What comes out of the tool, where it belongs to the event and is captured.
pub open spec fn captures_output(
    event: EventCandidate,
    capture: DiagnosticCaptureConfig,
    payload: Option<PreparedSinkToolPayload>,
) -> Option<Arc<SinkProjectedToolOutput>> {
    match payload {
        Some(payload) => if belongs_to(payload, event) && capture.tool_calls
            && capture.tool_outputs {
            payload.output
        } else {
            None
        },
        None => None,
    }
}

/// The payload that a reference holds, if any.
pub open spec fn held(payload: Option<&PreparedSinkToolPayload>) -> Option<
    PreparedSinkToolPayload,
> {
    match payload {
        Some(payload) => Some(*payload),
        None => None,
    }
}

/// Projects an event to the sink of an act: none where the event is not for it.
pub fn project_act_event(
    canonical: &Arc<AcceptedDiagnosticEvent>,
    current_act_scope: &DiagnosticScope,
    capture: DiagnosticCaptureConfig,
    payload: Option<&PreparedSinkToolPayload>,
) -> (projected: Option<SinkProjectedEvent>)
    ensures
        if projects(**canonical, *current_act_scope, capture) {
            projected == Some(
                (SinkProjectedEvent {
                    canonical: *canonical,
                    captured_input: captures_input(canonical.event, capture, held(payload)),
                    captured_output: captures_output(canonical.event, capture, held(payload)),
                }),
            )
        } else {
            projected is None
        },
{
    if !event_impacts_current_act(&canonical.event, current_act_scope) || !event_selected(
        &**canonical,
        capture,
    ) {
        return None;
    }
    let (captured_input, captured_output) = projected_tool_payload(
        &canonical.event,
        capture,
        payload,
    );
    Some(SinkProjectedEvent { canonical: canonical.clone(), captured_input, captured_output })
}

pub fn event_impacts_current_act(event: &EventCandidate, current_act_scope: &DiagnosticScope) -> (
    impacts: bool)
    ensures
        impacts == of_same_act(affected_scope(*event), *current_act_scope),
{
    let affected = match &event.body {
        EventBody::ObservationGap(gap) => match &gap.affected_scope {
            Some(scope) => scope,
            None => &event.scope,
        },
        _ => &event.scope,
    };
    same_act(affected, current_act_scope)
}

pub fn same_act(left: &DiagnosticScope, right: &DiagnosticScope) -> (same: bool)
    ensures
        same == of_same_act(*left, *right),
{
    match (&left.act_id, &right.act_id) {
        (Some(left), Some(right)) => left.same(right),
        _ => false,
    }
}

pub fn event_selected(
    canonical: &AcceptedDiagnosticEvent,
    capture: DiagnosticCaptureConfig,
) -> (selected: bool)
    ensures
        selected == selects_event(*canonical, capture),
{
    match &canonical.event.body {
        EventBody::SpanStarted { detail, .. } => span_selected(detail.kind(), capture),
        EventBody::SpanFinished { .. } => match canonical.built_in_span_kind {
            Some(kind) => span_selected(kind, capture),
            None => false,
        },
        EventBody::InstantOccurred { instant, .. } => instant_selected(instant.kind(), capture),
        EventBody::CounterSampled { kind, .. } => counter_selected(*kind, capture),
        EventBody::AgentMessageDelta { .. }
        | EventBody::AgentMessageCompleted { .. } => capture.agent_messages,
        EventBody::AgentPlanSnapshot { .. } => capture.plans,
        EventBody::ContextUsageSampled(_) | EventBody::ActTokenUsageFinalized { .. } => {
            capture.usage
        },
        EventBody::ObservationGap(_) => true,
        EventBody::CustomSpanStarted { .. }
        | EventBody::CustomSpanFinished { .. }
        | EventBody::CustomInstantOccurred { .. }
        | EventBody::CustomCounterSampled { .. } => capture.custom_events,
    }
}

pub fn span_selected(kind: SpanKind, capture: DiagnosticCaptureConfig) -> (selected: bool)
    ensures
        selected == selects_span(kind, capture),
{
    match kind {
        SpanKind::ActLifecycle | SpanKind::ActCaller | SpanKind::AgentTurn => true,
        SpanKind::AgentThinking => capture.agent_messages,
        SpanKind::ToolCall => capture.tool_calls,
        SpanKind::RunLifecycle
        | SpanKind::ProductionPathResolution
        | SpanKind::ProductionLoad
        | SpanKind::ProductionConstruct
        | SpanKind::ProductionStart
        | SpanKind::ProductionStop
        | SpanKind::ProductionShutdown
        | SpanKind::SceneLifecycle
        | SpanKind::SceneDrain
        | SpanKind::SceneCleanup
        | SpanKind::ActorHandleLifetime
        | SpanKind::CueMailboxWait
        | SpanKind::CueExecution
        | SpanKind::EffectLifecycle
        | SpanKind::AgentSessionOpening
        | SpanKind::AgentSessionLifecycle
        | SpanKind::AgentSessionClosing => false,
    }
}

pub fn instant_selected(kind: InstantKind, capture: DiagnosticCaptureConfig) -> (selected: bool)
    ensures
        selected == selects_instant(kind, capture),
{
    match kind {
        InstantKind::ActAdmitted
        | InstantKind::ActWaitingReady
        | InstantKind::ActPromptSubmitted
        | InstantKind::ActCancelRequested
        | InstantKind::ActSupervisorHandoff
        | InstantKind::AgentTurnActivity
        | InstantKind::AgentTurnTerminal
        | InstantKind::AgentTurnSettled => true,
        InstantKind::ToolUpdated => capture.tool_calls,
        InstantKind::ResultSubmitted
        | InstantKind::ResultRejected
        | InstantKind::ResultRepairRequested
        | InstantKind::ResultAccepted
        | InstantKind::ResultMissing => capture.result_validation,
        InstantKind::ActorCast
        | InstantKind::CueAdmitted
        | InstantKind::CueEnqueued
        | InstantKind::CueDispatched
        | InstantKind::CueCancelRequested
        | InstantKind::EffectCreated
        | InstantKind::EffectReturned
        | InstantKind::EffectConsumed
        | InstantKind::AgentSessionReady
        | InstantKind::AgentSessionBroken
        | InstantKind::DiagnosticComponentFailed => false,
    }
}

pub fn counter_selected(kind: CounterKind, capture: DiagnosticCaptureConfig) -> (selected: bool)
    ensures
        selected == selects_counter(kind, capture),
{
    match kind {
        CounterKind::AgentTurnActive | CounterKind::DiagnosticDroppedEvents => true,
        CounterKind::ResultValidationRejections => capture.result_validation,
        CounterKind::ActorMailboxDepth | CounterKind::CueActive => false,
    }
}

/// What of a payload goes with an event.
pub fn projected_tool_payload(
    event: &EventCandidate,
    capture: DiagnosticCaptureConfig,
    payload: Option<&PreparedSinkToolPayload>,
) -> (captured: (Option<Arc<SinkProjectedToolInput>>, Option<Arc<SinkProjectedToolOutput>>))
    ensures
        captured.0 == captures_input(*event, capture, held(payload)),
        captured.1 == captures_output(*event, capture, held(payload)),
{
    let payload = match payload {
        Some(payload) => payload,
        None => return (None, None),
    };
    if !payload_matches_event(payload, event) {
        return (None, None);
    }
    let input = if capture.tool_calls && capture.tool_inputs {
        match &payload.input {
            Some(input) => Some(input.clone()),
            None => None,
        }
    } else {
        None
    };
    let output = if capture.tool_calls && capture.tool_outputs {
        match &payload.output {
            Some(output) => Some(output.clone()),
            None => None,
        }
    } else {
        None
    };
    (input, output)
}

pub fn payload_matches_event(payload: &PreparedSinkToolPayload, event: &EventCandidate) -> (matches:
    bool)
    ensures
        matches == belongs_to(*payload, *event),
{
    let source = match &event.body {
        EventBody::SpanStarted { detail, .. } => {
            if detail.kind() != SpanKind::ToolCall {
                return false;
            }
            ToolPayloadSource::Started
        },
        EventBody::InstantOccurred { instant, .. } => {
            if instant.kind() != InstantKind::ToolUpdated {
                return false;
            }
            ToolPayloadSource::Updated
        },
        _ => return false,
    };
    source == payload.source && match &event.scope.tool_call_id {
        Some(id) => id.text == payload.tool_call_id,
        None => false,
    }
}

/// The sink of an act never receives an event that speaks of another act.
pub proof fn sink_sees_its_own_act_only(
    canonical: AcceptedDiagnosticEvent,
    current_act_scope: DiagnosticScope,
    capture: DiagnosticCaptureConfig,
)
    requires
        projects(canonical, current_act_scope, capture),
    ensures
        current_act_scope.act_id is Some,
        affected_scope(canonical.event).act_id is Some,
        affected_scope(canonical.event).act_id->0@ == current_act_scope.act_id->0@,
{
}

/// No payload of a tool goes to a sink that captures no tool calls.
pub proof fn payloads_need_tool_calls(
    event: EventCandidate,
    capture: DiagnosticCaptureConfig,
    payload: Option<PreparedSinkToolPayload>,
)
    requires
        !capture.tool_calls,
    ensures
        captures_input(event, capture, payload) is None,
        captures_output(event, capture, payload) is None,
{
}

/// Whoever asks for more receives at least what they received before.
pub proof fn capturing_more_selects_more(
    canonical: AcceptedDiagnosticEvent,
    current_act_scope: DiagnosticScope,
    less: DiagnosticCaptureConfig,
    more: DiagnosticCaptureConfig,
)
    requires
        less.agent_messages ==> more.agent_messages,
        less.plans ==> more.plans,
        less.tool_calls ==> more.tool_calls,
        less.result_validation ==> more.result_validation,
        less.usage ==> more.usage,
        less.custom_events ==> more.custom_events,
        projects(canonical, current_act_scope, less),
    ensures
        projects(canonical, current_act_scope, more),
{
}

/// A missing part of an act's record is told to its sink, whatever it captures.
pub proof fn gaps_are_always_told(
    canonical: AcceptedDiagnosticEvent,
    current_act_scope: DiagnosticScope,
    capture: DiagnosticCaptureConfig,
)
    requires
        canonical.event.body is ObservationGap,
        of_same_act(affected_scope(canonical.event), current_act_scope),
    ensures
        projects(canonical, current_act_scope, capture),
{
}

/// Each kind of event of an act goes to the act's sink exactly where the flag of its name is set,
/// whatever the other flags are. What makes up the act itself, its caller, its turn and their
/// moments, always goes; what is no part of an act never does.
pub proof fn each_kind_has_its_own_flag(
    canonical: AcceptedDiagnosticEvent,
    current_act_scope: DiagnosticScope,
    capture: DiagnosticCaptureConfig,
)
    requires
        canonical.event.body !is ObservationGap,
        canonical.event.scope.act_id is Some && current_act_scope.act_id is Some,
        canonical.event.scope.act_id->0@ == current_act_scope.act_id->0@,
    ensures
        ({
            let goes = projects(canonical, current_act_scope, capture);
            let body = canonical.event.body;
            &&& body is AgentMessageDelta || body is AgentMessageCompleted ==> (goes
                <==> capture.agent_messages)
            &&& body is AgentPlanSnapshot ==> (goes <==> capture.plans)
            &&& body is ContextUsageSampled || body is ActTokenUsageFinalized ==> (goes
                <==> capture.usage)
            &&& body is CustomSpanStarted || body is CustomSpanFinished || body
                is CustomInstantOccurred || body is CustomCounterSampled ==> (goes
                <==> capture.custom_events)
            &&& body matches EventBody::SpanStarted { detail, .. } ==> {
                &&& detail is ToolCall ==> (goes <==> capture.tool_calls)
                &&& detail is AgentThinking ==> (goes <==> capture.agent_messages)
                &&& detail is ActLifecycle || detail is ActCaller || detail is AgentTurn ==> goes
                &&& goes ==> detail is ToolCall || detail is AgentThinking || detail is ActLifecycle
                    || detail is ActCaller || detail is AgentTurn
            }
            &&& body is SpanFinished ==> {
                let kind = canonical.built_in_span_kind;
                &&& kind == Some(SpanKind::ToolCall) ==> (goes <==> capture.tool_calls)
                &&& kind == Some(SpanKind::AgentThinking) ==> (goes <==> capture.agent_messages)
                &&& kind == Some(SpanKind::ActLifecycle) || kind == Some(SpanKind::ActCaller)
                    || kind == Some(SpanKind::AgentTurn) ==> goes
                &&& goes ==> kind == Some(SpanKind::ToolCall) || kind == Some(
                    SpanKind::AgentThinking,
                ) || kind == Some(SpanKind::ActLifecycle) || kind == Some(SpanKind::ActCaller)
                    || kind == Some(SpanKind::AgentTurn)
            }
            &&& body matches EventBody::InstantOccurred { instant, .. } ==> {
                let of_result = instant is ResultSubmitted || instant is ResultRejected || instant
                    is ResultRepairRequested || instant is ResultAccepted || instant
                    is ResultMissing;
                let of_act = instant is ActAdmitted || instant is ActWaitingReady || instant
                    is ActPromptSubmitted || instant is ActCancelRequested || instant
                    is ActSupervisorHandoff || instant is AgentTurnActivity || instant
                    is AgentTurnTerminal || instant is AgentTurnSettled;
                &&& instant is ToolUpdated ==> (goes <==> capture.tool_calls)
                &&& of_result ==> (goes <==> capture.result_validation)
                &&& of_act ==> goes
                &&& goes ==> of_act || of_result || instant is ToolUpdated
            }
            &&& body matches EventBody::CounterSampled { kind, .. } ==> {
                &&& kind is ResultValidationRejections ==> (goes <==> capture.result_validation)
                &&& kind is AgentTurnActive || kind is DiagnosticDroppedEvents ==> goes
                &&& kind is CueActive || kind is ActorMailboxDepth ==> !goes
            }
        }),
{
}

/// Which events an act's sink receives depends on nothing but their kind, the flag of that kind and
/// the act: of two sinks of the same act that agree on the six kinds, both receive an event or
/// neither does, and what either captures of tools makes no difference.
pub proof fn only_the_six_flags_choose_events(
    canonical: AcceptedDiagnosticEvent,
    one_scope: DiagnosticScope,
    other_scope: DiagnosticScope,
    one: DiagnosticCaptureConfig,
    other: DiagnosticCaptureConfig,
)
    requires
        one.agent_messages == other.agent_messages,
        one.plans == other.plans,
        one.tool_calls == other.tool_calls,
        one.result_validation == other.result_validation,
        one.usage == other.usage,
        one.custom_events == other.custom_events,
        one_scope.act_id is Some && other_scope.act_id is Some,
        one_scope.act_id->0@ == other_scope.act_id->0@,
    ensures
        projects(canonical, one_scope, one) == projects(canonical, other_scope, other),
{
}

/// An event goes to the sink of the act that it belongs to, and to no other: that of its own scope, or,
/// where something is missing, that of the scope that it is missing from, where that is known.
pub proof fn events_go_to_the_act_they_speak_of(
    canonical: AcceptedDiagnosticEvent,
    current_act_scope: DiagnosticScope,
    capture: DiagnosticCaptureConfig,
)
    ensures
        ({
            let goes = projects(canonical, current_act_scope, capture);
            let spoken_of = match canonical.event.body {
                EventBody::ObservationGap(gap) if gap.affected_scope is Some => {
                    gap.affected_scope->0.act_id
                },
                _ => canonical.event.scope.act_id,
            };
            &&& goes ==> spoken_of is Some && current_act_scope.act_id is Some && spoken_of->0@
                == current_act_scope.act_id->0@
            &&& canonical.event.body is ObservationGap ==> (goes <==> spoken_of is Some
                && current_act_scope.act_id is Some && spoken_of->0@
                == current_act_scope.act_id->0@)
        }),
{
}

/// What a sink captures of a tool call is what the tool call was given or gave: the input exactly
/// where the sink captures tool calls and their inputs, the output exactly where it captures tool
/// calls and their outputs, and only with the event of that part of that tool call: what came with
/// its start goes with its start, what came with its news goes with its news.
pub proof fn payloads_go_with_their_own_event(
    event: EventCandidate,
    capture: DiagnosticCaptureConfig,
    payload: PreparedSinkToolPayload,
)
    ensures
        ({
            let starts = event.body matches EventBody::SpanStarted { detail, .. } && detail is ToolCall;
            let updates = event.body matches EventBody::InstantOccurred { instant, .. } && instant
                is ToolUpdated;
            let own = event.scope.tool_call_id is Some && event.scope.tool_call_id->0@
                == payload.tool_call_id@ && ((starts && payload.source is Started) || (updates
                && payload.source is Updated));
            let input = captures_input(event, capture, Some(payload));
            let output = captures_output(event, capture, Some(payload));
            &&& own && capture.tool_calls && capture.tool_inputs ==> input == payload.input
            &&& own && capture.tool_calls && capture.tool_outputs ==> output == payload.output
            &&& !(own && capture.tool_calls && capture.tool_inputs) ==> input is None
            &&& !(own && capture.tool_calls && capture.tool_outputs) ==> output is None
        }),
{
}

/// Without a payload nothing is captured of a tool.
pub proof fn nothing_is_captured_of_nothing(event: EventCandidate, capture: DiagnosticCaptureConfig)
    ensures
        captures_input(event, capture, None) is None,
        captures_output(event, capture, None) is None,
{
}

/// A payload shows what came, under the tool call's own identifier: each part that there was, none that
/// there was not, in the same order, and cut exactly where it was cut.
pub proof fn prepared_payload_shows_what_came(
    prepared: PreparedSinkToolPayload,
    canonical_tool_call_id: Seq<char>,
    payload: SinkOnlyToolPayload,
)
    requires
        prepared.shows(canonical_tool_call_id, payload),
    ensures
        prepared.tool_call_id@ == canonical_tool_call_id,
        prepared.source is Started <==> payload.source is Started,
        prepared.source is Updated <==> payload.source is Updated,
        prepared.input is Some <==> payload.input is Some,
        prepared.output is Some <==> payload.output is Some,
        prepared.input is Some ==> {
            let shown = *prepared.input->0;
            let came = payload.input->0;
            &&& shown.truncated == came.truncated
            &&& shown.raw_input is Some <==> came.raw_input is Some
            &&& shown.raw_input is Some ==> shown.raw_input->0.canonical_json@
                == crate::json::json_value_text(came.raw_input->0.value)
        },
        prepared.output is Some ==> {
            let shown = *prepared.output->0;
            let came = payload.output->0;
            &&& shown.truncated == came.truncated
            &&& shown.raw_output is Some <==> came.raw_output is Some
            &&& shown.raw_output is Some ==> shown.raw_output->0.canonical_json@
                == crate::json::json_value_text(came.raw_output->0.value)
            &&& shown.content@.len() == came.content@.len()
            &&& shown.locations@.len() == came.locations@.len()
            &&& forall|i: int|
                0 <= i < shown.content@.len() ==> (#[trigger] shown.content@[i]).canonical_json@
                    == crate::json::json_value_text(came.content@[i].value)
            &&& forall|i: int|
                0 <= i < shown.locations@.len() ==> (#[trigger] shown.locations@[i]).path
                    == came.locations@[i].path && shown.locations@[i].line
                    == came.locations@[i].line
        },
{
    if prepared.input is Some {
        assert(prepared.input->0.shows(payload.input->0));
    }
    if prepared.output is Some {
        let shown = *prepared.output->0;
        let came = payload.output->0;
        assert(shown.shows(came));
        assert forall|i: int| 0 <= i < shown.content@.len() implies (
        #[trigger] shown.content@[i]).canonical_json@ == crate::json::json_value_text(
            came.content@[i].value,
        ) by {
            assert(shown.content@[i].shows(came.content@[i]));
        }
        assert forall|i: int| 0 <= i < shown.locations@.len() implies (
        #[trigger] shown.locations@[i]).path == came.locations@[i].path && shown.locations@[i].line
            == came.locations@[i].line by {
            assert(shown.locations@[i].shows(came.locations@[i]));
        }
    }
}

} // verus!
