//! The facts that a diagnostic run reports, as plain values.
use vstd::prelude::*;

verus! {

/// An identifier that is unique within one run.
#[derive(Debug, PartialEq, Eq)]
pub struct RunLocalId {
    pub text: String,
}

impl View for RunLocalId {
    type V = Seq<char>;

    open spec fn view(&self) -> Seq<char> {
        self.text@
    }
}

impl Clone for RunLocalId {
    fn clone(&self) -> (copy: Self)
        ensures
            copy == *self,
    {
        RunLocalId { text: self.text.clone() }
    }
}

impl RunLocalId {
    pub fn as_str(&self) -> (text: &str)
        ensures
            text@ == self@,
    {
        self.text.as_str()
    }

    pub fn same(&self, other: &RunLocalId) -> (same: bool)
        ensures
            same == (self@ == other@),
    {
        self.text == other.text
    }
}

/// Copies an optional identifier.
pub fn copy_id(id: &Option<RunLocalId>) -> (copy: Option<RunLocalId>)
    ensures
        copy == *id,
{
    match id {
        Some(id) => Some(id.clone()),
        None => None,
    }
}

/// Copies an optional text.
pub fn copy_text(text: &Option<String>) -> (copy: Option<String>)
    ensures
        copy == *text,
{
    match text {
        Some(text) => Some(text.clone()),
        None => None,
    }
}

/// Where in the run a fact belongs. Each part is present where it applies.
#[derive(Debug, PartialEq, Eq)]
pub struct DiagnosticScope {
    pub scene_id: Option<RunLocalId>,
    pub actor_id: Option<RunLocalId>,
    pub cue_id: Option<RunLocalId>,
    pub effect_id: Option<RunLocalId>,
    pub act_id: Option<RunLocalId>,
    pub tool_call_id: Option<RunLocalId>,
    pub session_generation: Option<u64>,
}

impl Clone for DiagnosticScope {
    fn clone(&self) -> (copy: Self)
        ensures
            copy == *self,
    {
        DiagnosticScope {
            scene_id: copy_id(&self.scene_id),
            actor_id: copy_id(&self.actor_id),
            cue_id: copy_id(&self.cue_id),
            effect_id: copy_id(&self.effect_id),
            act_id: copy_id(&self.act_id),
            tool_call_id: copy_id(&self.tool_call_id),
            session_generation: self.session_generation,
        }
    }
}

impl DiagnosticScope {
    /// The scope of the run as a whole.
    pub open spec fn of_run() -> DiagnosticScope {
        DiagnosticScope {
            scene_id: None,
            actor_id: None,
            cue_id: None,
            effect_id: None,
            act_id: None,
            tool_call_id: None,
            session_generation: None,
        }
    }
}

/// Both identifiers are absent, or both have the same text.
pub open spec fn ids_agree(left: Option<RunLocalId>, right: Option<RunLocalId>) -> bool {
    match (left, right) {
        (Some(left), Some(right)) => left@ == right@,
        (None, None) => true,
        _ => false,
    }
}

pub fn same_ids(left: &Option<RunLocalId>, right: &Option<RunLocalId>) -> (same: bool)
    ensures
        same == ids_agree(*left, *right),
{
    match (left, right) {
        (Some(left), Some(right)) => left.same(right),
        (None, None) => true,
        _ => false,
    }
}

impl DiagnosticScope {
    /// Both scopes name the same parts of the run.
    pub open spec fn agrees(self, other: Self) -> bool {
        &&& ids_agree(self.scene_id, other.scene_id)
        &&& ids_agree(self.actor_id, other.actor_id)
        &&& ids_agree(self.cue_id, other.cue_id)
        &&& ids_agree(self.effect_id, other.effect_id)
        &&& ids_agree(self.act_id, other.act_id)
        &&& ids_agree(self.tool_call_id, other.tool_call_id)
        &&& self.session_generation == other.session_generation
    }

    pub fn same(&self, other: &Self) -> (same: bool)
        ensures
            same == self.agrees(*other),
    {
        same_ids(&self.scene_id, &other.scene_id) && same_ids(&self.actor_id, &other.actor_id)
            && same_ids(&self.cue_id, &other.cue_id) && same_ids(&self.effect_id, &other.effect_id)
            && same_ids(&self.act_id, &other.act_id) && same_ids(
            &self.tool_call_id,
            &other.tool_call_id,
        ) && self.session_generation == other.session_generation
    }
}

/// The scope that names no part of the run.
pub fn empty_scope() -> (scope: DiagnosticScope)
    ensures
        scope == DiagnosticScope::of_run(),
{
    DiagnosticScope {
        scene_id: None,
        actor_id: None,
        cue_id: None,
        effect_id: None,
        act_id: None,
        tool_call_id: None,
        session_generation: None,
    }
}

/// How an event relates to the earlier event that caused it.
#[derive(Clone, Copy, Debug, PartialEq, Eq, Structural)]
pub enum CausalRelation {
    FollowsFrom,
    Dispatch,
    Return,
    Handoff,
    Retry,
}

/// The earlier event that caused an event.
#[derive(Clone, Copy, Debug, PartialEq, Eq, Structural)]
pub struct CausalLink {
    pub sequence: u64,
    pub relation: CausalRelation,
}

impl CausalLink {
    /// The link of an event that follows from the event with sequence `source`.
    pub open spec fn after(source: u64) -> Option<CausalLink> {
        CausalLink::to(source, CausalRelation::FollowsFrom)
    }

    /// The link of an event that relates to the event with sequence `source`.
    pub open spec fn to(source: u64, relation: CausalRelation) -> Option<CausalLink> {
        Some(CausalLink { sequence: source, relation })
    }
}

/// A link to an event that this event follows from.
pub fn follows_from(source: u64) -> (link: Option<CausalLink>)
    ensures
        link == CausalLink::after(source),
{
    caused_by(source, CausalRelation::FollowsFrom)
}

/// A link to the event that caused this event.
pub fn caused_by(source: u64, relation: CausalRelation) -> (link: Option<CausalLink>)
    ensures
        link == CausalLink::to(source, relation),
{
    Some(CausalLink { sequence: source, relation })
}

/// How a span ended.
#[derive(Clone, Copy, Debug, PartialEq, Eq, Structural)]
pub enum SpanOutcome {
    Completed,
    Cancelled,
    Failed,
}

/// The stable code of a failure that a span ended with.
#[derive(Debug, PartialEq, Eq)]
pub enum ErrorCode {
    /// A code of this library or of the agent runtime.
    Stable(&'static str),
    /// A code that user code reported.
    Reported(String),
}

impl View for ErrorCode {
    type V = Seq<char>;

    open spec fn view(&self) -> Seq<char> {
        match self {
            ErrorCode::Stable(code) => code@,
            ErrorCode::Reported(code) => code@,
        }
    }
}

impl Clone for ErrorCode {
    fn clone(&self) -> (copy: Self)
        ensures
            copy == *self,
    {
        match self {
            ErrorCode::Stable(code) => ErrorCode::Stable(*code),
            ErrorCode::Reported(code) => ErrorCode::Reported(code.clone()),
        }
    }
}

impl ErrorCode {
    pub fn as_str(&self) -> (code: &str)
        ensures
            code@ == self@,
    {
        match self {
            ErrorCode::Stable(code) => *code,
            ErrorCode::Reported(code) => code.as_str(),
        }
    }
}

/// How a span ends: the outcome, and the stable code of what went wrong.
#[derive(Clone, Copy, Debug, PartialEq, Eq)]
pub struct TerminalSpan {
    pub outcome: SpanOutcome,
    pub error_code: Option<&'static str>,
}

impl TerminalSpan {
    pub open spec fn spec_completed() -> TerminalSpan {
        TerminalSpan { outcome: SpanOutcome::Completed, error_code: None }
    }

    pub open spec fn spec_cancelled(code: &'static str) -> TerminalSpan {
        TerminalSpan { outcome: SpanOutcome::Cancelled, error_code: Some(code) }
    }

    pub open spec fn spec_failed(code: &'static str) -> TerminalSpan {
        TerminalSpan { outcome: SpanOutcome::Failed, error_code: Some(code) }
    }

    /// The code as an event carries it.
    pub open spec fn code(self) -> Option<ErrorCode> {
        match self.error_code {
            Some(code) => Some(ErrorCode::Stable(code)),
            None => None,
        }
    }

    pub fn completed() -> (terminal: Self)
        ensures
            terminal == TerminalSpan::spec_completed(),
    {
        TerminalSpan { outcome: SpanOutcome::Completed, error_code: None }
    }

    pub fn cancelled(code: &'static str) -> (terminal: Self)
        ensures
            terminal == TerminalSpan::spec_cancelled(code),
    {
        TerminalSpan { outcome: SpanOutcome::Cancelled, error_code: Some(code) }
    }

    pub fn failed(code: &'static str) -> (terminal: Self)
        ensures
            terminal == TerminalSpan::spec_failed(code),
    {
        TerminalSpan { outcome: SpanOutcome::Failed, error_code: Some(code) }
    }

    pub fn event_code(&self) -> (code: Option<ErrorCode>)
        ensures
            code == self.code(),
    {
        stable_code(self.error_code)
    }
}

/// The code as an event carries it.
pub open spec fn spec_stable_code(code: Option<&'static str>) -> Option<ErrorCode> {
    match code {
        Some(code) => Some(ErrorCode::Stable(code)),
        None => None,
    }
}

pub fn stable_code(code: Option<&'static str>) -> (event_code: Option<ErrorCode>)
    ensures
        event_code == spec_stable_code(code),
{
    match code {
        Some(code) => Some(ErrorCode::Stable(code)),
        None => None,
    }
}

/// The session that an agent works in.
#[derive(Debug, PartialEq, Eq)]
pub struct AgentSessionDetail {
    pub provider: String,
    pub model: Option<String>,
    pub effort: Option<String>,
}

/// An actor, by its display name and its type.
#[derive(Debug, PartialEq, Eq)]
pub struct ActorDetail {
    pub display_name: String,
    pub actor_type: String,
}

impl Clone for ActorDetail {
    fn clone(&self) -> (copy: Self)
        ensures
            copy == *self,
    {
        ActorDetail {
            display_name: self.display_name.clone(),
            actor_type: self.actor_type.clone(),
        }
    }
}

impl ActorDetail {
    /// Both describe the same actor.
    pub open spec fn is(self, other: Self) -> bool {
        self.display_name@ == other.display_name@ && self.actor_type@ == other.actor_type@
    }

    pub fn same(&self, other: &Self) -> (same: bool)
        ensures
            same == self.is(*other),
    {
        self.display_name == other.display_name && self.actor_type == other.actor_type
    }
}

/// An effect, by its type.
#[derive(Debug, PartialEq, Eq)]
pub struct EffectDetail {
    pub effect_type: String,
}

impl Clone for EffectDetail {
    fn clone(&self) -> (copy: Self)
        ensures
            copy == *self,
    {
        EffectDetail { effect_type: self.effect_type.clone() }
    }
}

/// A tool call as the agent describes it.
#[derive(Debug, PartialEq, Eq)]
pub struct ToolCallDetail {
    pub title: String,
    pub tool_kind: String,
    pub status: String,
    pub error_code: Option<ErrorCode>,
}

/// A step in the validation of an act's result, as the agent runtime describes it.
#[derive(Debug, PartialEq, Eq)]
pub struct ResultTransitionDetail {
    pub description: String,
}

/// What a span is about.
#[derive(Debug, PartialEq, Eq)]
pub enum SpanStartDetail {
    RunLifecycle,
    ProductionPathResolution { production_root: String, package: String },
    ProductionLoad { package: String },
    ProductionConstruct { package: String, class_name: &'static str },
    ProductionStart,
    ProductionStop,
    ProductionShutdown,
    SceneLifecycle,
    SceneDrain,
    SceneCleanup,
    ActorHandleLifetime(ActorDetail),
    CueMailboxWait,
    CueExecution,
    EffectLifecycle(EffectDetail),
    AgentSessionOpening(AgentSessionDetail),
    AgentSessionLifecycle(AgentSessionDetail),
    AgentSessionClosing(AgentSessionDetail),
    ActLifecycle(AgentSessionDetail),
    ActCaller,
    AgentTurn(AgentSessionDetail),
    AgentThinking,
    ToolCall(ToolCallDetail),
}

/// The kinds of spans.
#[derive(Clone, Copy, Debug, PartialEq, Eq, Structural)]
pub enum SpanKind {
    RunLifecycle,
    ProductionPathResolution,
    ProductionLoad,
    ProductionConstruct,
    ProductionStart,
    ProductionStop,
    ProductionShutdown,
    SceneLifecycle,
    SceneDrain,
    SceneCleanup,
    ActorHandleLifetime,
    CueMailboxWait,
    CueExecution,
    EffectLifecycle,
    AgentSessionOpening,
    AgentSessionLifecycle,
    AgentSessionClosing,
    ActLifecycle,
    ActCaller,
    AgentTurn,
    AgentThinking,
    ToolCall,
}

impl SpanStartDetail {
    /// What kind of span starts.
    pub open spec fn spec_kind(self) -> SpanKind {
        match self {
            SpanStartDetail::RunLifecycle => SpanKind::RunLifecycle,
            SpanStartDetail::ProductionPathResolution { .. } => SpanKind::ProductionPathResolution,
            SpanStartDetail::ProductionLoad { .. } => SpanKind::ProductionLoad,
            SpanStartDetail::ProductionConstruct { .. } => SpanKind::ProductionConstruct,
            SpanStartDetail::ProductionStart => SpanKind::ProductionStart,
            SpanStartDetail::ProductionStop => SpanKind::ProductionStop,
            SpanStartDetail::ProductionShutdown => SpanKind::ProductionShutdown,
            SpanStartDetail::SceneLifecycle => SpanKind::SceneLifecycle,
            SpanStartDetail::SceneDrain => SpanKind::SceneDrain,
            SpanStartDetail::SceneCleanup => SpanKind::SceneCleanup,
            SpanStartDetail::ActorHandleLifetime(_) => SpanKind::ActorHandleLifetime,
            SpanStartDetail::CueMailboxWait => SpanKind::CueMailboxWait,
            SpanStartDetail::CueExecution => SpanKind::CueExecution,
            SpanStartDetail::EffectLifecycle(_) => SpanKind::EffectLifecycle,
            SpanStartDetail::AgentSessionOpening(_) => SpanKind::AgentSessionOpening,
            SpanStartDetail::AgentSessionLifecycle(_) => SpanKind::AgentSessionLifecycle,
            SpanStartDetail::AgentSessionClosing(_) => SpanKind::AgentSessionClosing,
            SpanStartDetail::ActLifecycle(_) => SpanKind::ActLifecycle,
            SpanStartDetail::ActCaller => SpanKind::ActCaller,
            SpanStartDetail::AgentTurn(_) => SpanKind::AgentTurn,
            SpanStartDetail::AgentThinking => SpanKind::AgentThinking,
            SpanStartDetail::ToolCall(_) => SpanKind::ToolCall,
        }
    }

    pub fn kind(&self) -> (kind: SpanKind)
        ensures
            kind == self.spec_kind(),
    {
        match self {
            SpanStartDetail::RunLifecycle => SpanKind::RunLifecycle,
            SpanStartDetail::ProductionPathResolution { .. } => SpanKind::ProductionPathResolution,
            SpanStartDetail::ProductionLoad { .. } => SpanKind::ProductionLoad,
            SpanStartDetail::ProductionConstruct { .. } => SpanKind::ProductionConstruct,
            SpanStartDetail::ProductionStart => SpanKind::ProductionStart,
            SpanStartDetail::ProductionStop => SpanKind::ProductionStop,
            SpanStartDetail::ProductionShutdown => SpanKind::ProductionShutdown,
            SpanStartDetail::SceneLifecycle => SpanKind::SceneLifecycle,
            SpanStartDetail::SceneDrain => SpanKind::SceneDrain,
            SpanStartDetail::SceneCleanup => SpanKind::SceneCleanup,
            SpanStartDetail::ActorHandleLifetime(_) => SpanKind::ActorHandleLifetime,
            SpanStartDetail::CueMailboxWait => SpanKind::CueMailboxWait,
            SpanStartDetail::CueExecution => SpanKind::CueExecution,
            SpanStartDetail::EffectLifecycle(_) => SpanKind::EffectLifecycle,
            SpanStartDetail::AgentSessionOpening(_) => SpanKind::AgentSessionOpening,
            SpanStartDetail::AgentSessionLifecycle(_) => SpanKind::AgentSessionLifecycle,
            SpanStartDetail::AgentSessionClosing(_) => SpanKind::AgentSessionClosing,
            SpanStartDetail::ActLifecycle(_) => SpanKind::ActLifecycle,
            SpanStartDetail::ActCaller => SpanKind::ActCaller,
            SpanStartDetail::AgentTurn(_) => SpanKind::AgentTurn,
            SpanStartDetail::AgentThinking => SpanKind::AgentThinking,
            SpanStartDetail::ToolCall(_) => SpanKind::ToolCall,
        }
    }
}

/// Where in the delivery to a sink something failed.
#[derive(Clone, Copy, Debug, PartialEq, Eq, Structural)]
pub enum ComponentFailureStage {
    Enqueue,
    Callback,
}

/// What failed in the delivery to a sink.
#[derive(Clone, Copy, Debug, PartialEq, Eq, Structural)]
pub enum ComponentFailureErrorCode {
    DeliveryQueueUnavailable,
    CallbackRaised,
    CallbackInvalidReturn,
}

/// A failure in the delivery to a sink, with the event that it concerns.
#[derive(Debug, PartialEq, Eq)]
pub struct ComponentFailure {
    pub component_id: RunLocalId,
    pub stage: ComponentFailureStage,
    pub error_code: ComponentFailureErrorCode,
    pub related: Option<u64>,
}

/// What happened at one moment.
#[derive(Debug, PartialEq, Eq)]
pub enum InstantDetail {
    ActorCast(ActorDetail),
    CueAdmitted,
    CueEnqueued,
    CueDispatched,
    CueCancelRequested,
    EffectCreated(EffectDetail),
    EffectReturned(EffectDetail),
    EffectConsumed(EffectDetail),
    ActAdmitted,
    ActWaitingReady,
    ActPromptSubmitted,
    ActCancelRequested,
    ActSupervisorHandoff,
    AgentTurnActivity,
    AgentTurnTerminal { error_code: Option<ErrorCode> },
    AgentTurnSettled { error_code: Option<ErrorCode> },
    AgentSessionReady(AgentSessionDetail),
    AgentSessionBroken { session: AgentSessionDetail, broken_code: ErrorCode },
    ToolUpdated(ToolCallDetail),
    ResultSubmitted(ResultTransitionDetail),
    ResultRejected(ResultTransitionDetail),
    ResultRepairRequested(ResultTransitionDetail),
    ResultAccepted(ResultTransitionDetail),
    ResultMissing(ResultTransitionDetail),
    DiagnosticComponentFailed(ComponentFailure),
}

/// The kinds of moments.
#[derive(Clone, Copy, Debug, PartialEq, Eq, Structural)]
pub enum InstantKind {
    ActorCast,
    CueAdmitted,
    CueEnqueued,
    CueDispatched,
    CueCancelRequested,
    EffectCreated,
    EffectReturned,
    EffectConsumed,
    ActAdmitted,
    ActWaitingReady,
    ActPromptSubmitted,
    ActCancelRequested,
    ActSupervisorHandoff,
    AgentTurnActivity,
    AgentTurnTerminal,
    AgentTurnSettled,
    AgentSessionReady,
    AgentSessionBroken,
    ToolUpdated,
    ResultSubmitted,
    ResultRejected,
    ResultRepairRequested,
    ResultAccepted,
    ResultMissing,
    DiagnosticComponentFailed,
}

impl InstantDetail {
    /// What kind of moment it is.
    pub open spec fn spec_kind(self) -> InstantKind {
        match self {
            InstantDetail::ActorCast(_) => InstantKind::ActorCast,
            InstantDetail::CueAdmitted => InstantKind::CueAdmitted,
            InstantDetail::CueEnqueued => InstantKind::CueEnqueued,
            InstantDetail::CueDispatched => InstantKind::CueDispatched,
            InstantDetail::CueCancelRequested => InstantKind::CueCancelRequested,
            InstantDetail::EffectCreated(_) => InstantKind::EffectCreated,
            InstantDetail::EffectReturned(_) => InstantKind::EffectReturned,
            InstantDetail::EffectConsumed(_) => InstantKind::EffectConsumed,
            InstantDetail::ActAdmitted => InstantKind::ActAdmitted,
            InstantDetail::ActWaitingReady => InstantKind::ActWaitingReady,
            InstantDetail::ActPromptSubmitted => InstantKind::ActPromptSubmitted,
            InstantDetail::ActCancelRequested => InstantKind::ActCancelRequested,
            InstantDetail::ActSupervisorHandoff => InstantKind::ActSupervisorHandoff,
            InstantDetail::AgentTurnActivity => InstantKind::AgentTurnActivity,
            InstantDetail::AgentTurnTerminal { .. } => InstantKind::AgentTurnTerminal,
            InstantDetail::AgentTurnSettled { .. } => InstantKind::AgentTurnSettled,
            InstantDetail::AgentSessionReady(_) => InstantKind::AgentSessionReady,
            InstantDetail::AgentSessionBroken { .. } => InstantKind::AgentSessionBroken,
            InstantDetail::ToolUpdated(_) => InstantKind::ToolUpdated,
            InstantDetail::ResultSubmitted(_) => InstantKind::ResultSubmitted,
            InstantDetail::ResultRejected(_) => InstantKind::ResultRejected,
            InstantDetail::ResultRepairRequested(_) => InstantKind::ResultRepairRequested,
            InstantDetail::ResultAccepted(_) => InstantKind::ResultAccepted,
            InstantDetail::ResultMissing(_) => InstantKind::ResultMissing,
            InstantDetail::DiagnosticComponentFailed(_) => InstantKind::DiagnosticComponentFailed,
        }
    }

    pub fn kind(&self) -> (kind: InstantKind)
        ensures
            kind == self.spec_kind(),
    {
        match self {
            InstantDetail::ActorCast(_) => InstantKind::ActorCast,
            InstantDetail::CueAdmitted => InstantKind::CueAdmitted,
            InstantDetail::CueEnqueued => InstantKind::CueEnqueued,
            InstantDetail::CueDispatched => InstantKind::CueDispatched,
            InstantDetail::CueCancelRequested => InstantKind::CueCancelRequested,
            InstantDetail::EffectCreated(_) => InstantKind::EffectCreated,
            InstantDetail::EffectReturned(_) => InstantKind::EffectReturned,
            InstantDetail::EffectConsumed(_) => InstantKind::EffectConsumed,
            InstantDetail::ActAdmitted => InstantKind::ActAdmitted,
            InstantDetail::ActWaitingReady => InstantKind::ActWaitingReady,
            InstantDetail::ActPromptSubmitted => InstantKind::ActPromptSubmitted,
            InstantDetail::ActCancelRequested => InstantKind::ActCancelRequested,
            InstantDetail::ActSupervisorHandoff => InstantKind::ActSupervisorHandoff,
            InstantDetail::AgentTurnActivity => InstantKind::AgentTurnActivity,
            InstantDetail::AgentTurnTerminal { .. } => InstantKind::AgentTurnTerminal,
            InstantDetail::AgentTurnSettled { .. } => InstantKind::AgentTurnSettled,
            InstantDetail::AgentSessionReady(_) => InstantKind::AgentSessionReady,
            InstantDetail::AgentSessionBroken { .. } => InstantKind::AgentSessionBroken,
            InstantDetail::ToolUpdated(_) => InstantKind::ToolUpdated,
            InstantDetail::ResultSubmitted(_) => InstantKind::ResultSubmitted,
            InstantDetail::ResultRejected(_) => InstantKind::ResultRejected,
            InstantDetail::ResultRepairRequested(_) => InstantKind::ResultRepairRequested,
            InstantDetail::ResultAccepted(_) => InstantKind::ResultAccepted,
            InstantDetail::ResultMissing(_) => InstantKind::ResultMissing,
            InstantDetail::DiagnosticComponentFailed(_) => InstantKind::DiagnosticComponentFailed,
        }
    }
}

/// The kinds of numbers that are sampled.
#[derive(Clone, Copy, Debug, PartialEq, Eq, Structural)]
pub enum CounterKind {
    ActorMailboxDepth,
    CueActive,
    AgentTurnActive,
    ResultValidationRejections,
    DiagnosticDroppedEvents,
}

/// The kinds of events.
#[derive(Clone, Copy, Debug, PartialEq, Eq, Structural)]
pub enum DiagnosticEventKind {
    SpanStarted,
    SpanFinished,
    InstantOccurred,
    CounterSampled,
    AgentMessageDelta,
    AgentMessageCompleted,
    AgentPlanSnapshot,
    ContextUsageSampled,
    ActTokenUsageFinalized,
    ObservationGap,
    CustomSpanStarted,
    CustomSpanFinished,
    CustomInstantOccurred,
    CustomCounterSampled,
}

/// Where the numbers of a context sample come from.
#[derive(Clone, Copy, Debug, PartialEq, Eq, Structural)]
pub enum ContextSampleOrigin {
    Provider,
    CarriedForward,
}

/// How serious a fact of user code is.
#[derive(Clone, Copy, Debug, PartialEq, Eq, Structural)]
pub enum CustomSeverity {
    Debug,
    Info,
    Warning,
    Error,
}

/// A value that user code attaches to a fact.
#[derive(Debug, PartialEq, Eq)]
pub enum DiagnosticScalar {
    Null,
    Boolean(bool),
    Integer(String),
    Decimal(String),
    Text(String),
}

/// A value, or a list of values, that user code attaches to a fact.
#[derive(Debug, PartialEq, Eq)]
pub enum DiagnosticAttributeValue {
    Scalar(DiagnosticScalar),
    List(Vec<DiagnosticScalar>),
}

/// A value that a counter of user code is divided by.
#[derive(Debug, PartialEq, Eq)]
pub enum DiagnosticDimension {
    Boolean(bool),
    Integer(String),
    Decimal(String),
    Text(String),
}

/// A number that user code samples.
#[derive(Debug, PartialEq, Eq)]
pub enum CustomNumber {
    Integer(String),
    Decimal(String),
}

/// The attributes of a fact of user code, by name.
#[derive(Debug, PartialEq, Eq)]
pub struct DiagnosticAttributes {
    pub entries: Vec<(String, DiagnosticAttributeValue)>,
}

/// The dimensions of a counter of user code, by name.
#[derive(Debug, PartialEq, Eq)]
pub struct DiagnosticDimensions {
    pub entries: Vec<(String, DiagnosticDimension)>,
}

/// A step of an agent's plan.
#[derive(Debug, PartialEq, Eq)]
pub struct AgentPlanEntry {
    pub content: String,
    pub status: String,
    pub priority: String,
}

/// What is missing from the record, as far as it is known.
#[derive(Debug, PartialEq, Eq)]
pub struct ObservationGap {
    pub producer: &'static str,
    pub component: Option<&'static str>,
    pub reason: &'static str,
    pub lost_count: Option<u64>,
    pub lost_bytes: Option<u64>,
    pub affected_kind: Option<DiagnosticEventKind>,
    pub affected_scope: Option<DiagnosticScope>,
}

/// How full an agent's context is, and what it has cost.
#[derive(Debug, PartialEq, Eq)]
pub struct ContextUsage {
    pub used_tokens: Option<u64>,
    pub window_tokens: Option<u64>,
    pub cost_amount: Option<String>,
    pub cost_currency: Option<String>,
    pub origin: ContextSampleOrigin,
    pub observed_elapsed_ns: Option<u64>,
}

/// What an event states.
#[derive(Debug, PartialEq, Eq)]
pub enum EventBody {
    SpanStarted { detail: SpanStartDetail, parent_span_id: Option<u64> },
    SpanFinished { span_id: u64, outcome: SpanOutcome, error_code: Option<ErrorCode> },
    InstantOccurred { instant: InstantDetail, containing_span_id: Option<u64> },
    CounterSampled { kind: CounterKind, value: u64 },
    AgentMessageDelta {
        message_id: String,
        source_message_id: Option<String>,
        text_delta: String,
    },
    AgentMessageCompleted {
        message_id: String,
        utf8_bytes: u64,
        unicode_scalar_count: u64,
        truncated: bool,
    },
    AgentPlanSnapshot { entries: Vec<AgentPlanEntry>, truncated: bool },
    ContextUsageSampled(ContextUsage),
    ActTokenUsageFinalized { description: String },
    ObservationGap(ObservationGap),
    CustomSpanStarted { name: String, parent_id: Option<u64>, attributes: DiagnosticAttributes },
    CustomSpanFinished { custom_span_id: u64, custom_outcome: SpanOutcome },
    CustomInstantOccurred {
        name: String,
        containing_id: Option<u64>,
        severity: Option<CustomSeverity>,
        attributes: DiagnosticAttributes,
    },
    CustomCounterSampled {
        name: String,
        number: CustomNumber,
        unit: Option<String>,
        dimensions: DiagnosticDimensions,
    },
}

impl EventBody {
    /// What kind of event it is.
    pub open spec fn spec_kind(self) -> DiagnosticEventKind {
        match self {
            EventBody::SpanStarted { .. } => DiagnosticEventKind::SpanStarted,
            EventBody::SpanFinished { .. } => DiagnosticEventKind::SpanFinished,
            EventBody::InstantOccurred { .. } => DiagnosticEventKind::InstantOccurred,
            EventBody::CounterSampled { .. } => DiagnosticEventKind::CounterSampled,
            EventBody::AgentMessageDelta { .. } => DiagnosticEventKind::AgentMessageDelta,
            EventBody::AgentMessageCompleted { .. } => DiagnosticEventKind::AgentMessageCompleted,
            EventBody::AgentPlanSnapshot { .. } => DiagnosticEventKind::AgentPlanSnapshot,
            EventBody::ContextUsageSampled(_) => DiagnosticEventKind::ContextUsageSampled,
            EventBody::ActTokenUsageFinalized { .. } => DiagnosticEventKind::ActTokenUsageFinalized,
            EventBody::ObservationGap(_) => DiagnosticEventKind::ObservationGap,
            EventBody::CustomSpanStarted { .. } => DiagnosticEventKind::CustomSpanStarted,
            EventBody::CustomSpanFinished { .. } => DiagnosticEventKind::CustomSpanFinished,
            EventBody::CustomInstantOccurred { .. } => DiagnosticEventKind::CustomInstantOccurred,
            EventBody::CustomCounterSampled { .. } => DiagnosticEventKind::CustomCounterSampled,
        }
    }

    pub fn kind(&self) -> (kind: DiagnosticEventKind)
        ensures
            kind == self.spec_kind(),
    {
        match self {
            EventBody::SpanStarted { .. } => DiagnosticEventKind::SpanStarted,
            EventBody::SpanFinished { .. } => DiagnosticEventKind::SpanFinished,
            EventBody::InstantOccurred { .. } => DiagnosticEventKind::InstantOccurred,
            EventBody::CounterSampled { .. } => DiagnosticEventKind::CounterSampled,
            EventBody::AgentMessageDelta { .. } => DiagnosticEventKind::AgentMessageDelta,
            EventBody::AgentMessageCompleted { .. } => DiagnosticEventKind::AgentMessageCompleted,
            EventBody::AgentPlanSnapshot { .. } => DiagnosticEventKind::AgentPlanSnapshot,
            EventBody::ContextUsageSampled(_) => DiagnosticEventKind::ContextUsageSampled,
            EventBody::ActTokenUsageFinalized { .. } => DiagnosticEventKind::ActTokenUsageFinalized,
            EventBody::ObservationGap(_) => DiagnosticEventKind::ObservationGap,
            EventBody::CustomSpanStarted { .. } => DiagnosticEventKind::CustomSpanStarted,
            EventBody::CustomSpanFinished { .. } => DiagnosticEventKind::CustomSpanFinished,
            EventBody::CustomInstantOccurred { .. } => DiagnosticEventKind::CustomInstantOccurred,
            EventBody::CustomCounterSampled { .. } => DiagnosticEventKind::CustomCounterSampled,
        }
    }
}

/// An event before the hub has given it a place in the run.
#[derive(Debug, PartialEq, Eq)]
pub struct EventCandidate {
    /// No subscriber of an act hears of the event.
    pub unheard: bool,
    pub scope: DiagnosticScope,
    pub cause: Option<CausalLink>,
    pub body: EventBody,
}

impl EventCandidate {
    /// The start of a span.
    pub open spec fn started(
        scope: DiagnosticScope,
        detail: SpanStartDetail,
        parent_span_id: Option<u64>,
        cause: Option<CausalLink>,
    ) -> EventCandidate {
        EventCandidate { unheard: false, scope, cause, body: EventBody::SpanStarted { detail, parent_span_id } }
    }

    /// The end of a span.
    pub open spec fn finished(
        scope: DiagnosticScope,
        span_id: u64,
        outcome: SpanOutcome,
        error_code: Option<ErrorCode>,
        cause: Option<CausalLink>,
    ) -> EventCandidate {
        EventCandidate {
            unheard: false,
            scope,
            cause,
            body: EventBody::SpanFinished { span_id, outcome, error_code },
        }
    }

    /// A moment.
    pub open spec fn instant(
        scope: DiagnosticScope,
        detail: InstantDetail,
        containing_span_id: Option<u64>,
        cause: Option<CausalLink>,
    ) -> EventCandidate {
        EventCandidate {
            unheard: false,
            scope,
            cause,
            body: EventBody::InstantOccurred { instant: detail, containing_span_id },
        }
    }

    /// The event when no subscriber of an act is to hear of it.
    pub open spec fn without_act_subscriber(self) -> EventCandidate {
        EventCandidate { unheard: true, ..self }
    }

    /// A sampled number.
    pub open spec fn counter(
        scope: DiagnosticScope,
        kind: CounterKind,
        value: u64,
        cause: Option<CausalLink>,
    ) -> EventCandidate {
        EventCandidate { unheard: false, scope, cause, body: EventBody::CounterSampled { kind, value } }
    }
}

/// A span is of the kind that its detail is of, and of no other.
pub proof fn spans_are_of_the_kind_of_their_detail(detail: SpanStartDetail)
    ensures
        detail.spec_kind() is RunLifecycle <==> detail is RunLifecycle,
        detail.spec_kind() is ProductionPathResolution <==> detail is ProductionPathResolution,
        detail.spec_kind() is ProductionLoad <==> detail is ProductionLoad,
        detail.spec_kind() is ProductionConstruct <==> detail is ProductionConstruct,
        detail.spec_kind() is ProductionStart <==> detail is ProductionStart,
        detail.spec_kind() is ProductionStop <==> detail is ProductionStop,
        detail.spec_kind() is ProductionShutdown <==> detail is ProductionShutdown,
        detail.spec_kind() is SceneLifecycle <==> detail is SceneLifecycle,
        detail.spec_kind() is SceneDrain <==> detail is SceneDrain,
        detail.spec_kind() is SceneCleanup <==> detail is SceneCleanup,
        detail.spec_kind() is ActorHandleLifetime <==> detail is ActorHandleLifetime,
        detail.spec_kind() is CueMailboxWait <==> detail is CueMailboxWait,
        detail.spec_kind() is CueExecution <==> detail is CueExecution,
        detail.spec_kind() is EffectLifecycle <==> detail is EffectLifecycle,
        detail.spec_kind() is AgentSessionOpening <==> detail is AgentSessionOpening,
        detail.spec_kind() is AgentSessionLifecycle <==> detail is AgentSessionLifecycle,
        detail.spec_kind() is AgentSessionClosing <==> detail is AgentSessionClosing,
        detail.spec_kind() is ActLifecycle <==> detail is ActLifecycle,
        detail.spec_kind() is ActCaller <==> detail is ActCaller,
        detail.spec_kind() is AgentTurn <==> detail is AgentTurn,
        detail.spec_kind() is AgentThinking <==> detail is AgentThinking,
        detail.spec_kind() is ToolCall <==> detail is ToolCall,
{
}

/// A moment is of the kind that its detail is of, and of no other.
pub proof fn moments_are_of_the_kind_of_their_detail(detail: InstantDetail)
    ensures
        detail.spec_kind() is ActorCast <==> detail is ActorCast,
        detail.spec_kind() is CueAdmitted <==> detail is CueAdmitted,
        detail.spec_kind() is CueEnqueued <==> detail is CueEnqueued,
        detail.spec_kind() is CueDispatched <==> detail is CueDispatched,
        detail.spec_kind() is CueCancelRequested <==> detail is CueCancelRequested,
        detail.spec_kind() is EffectCreated <==> detail is EffectCreated,
        detail.spec_kind() is EffectReturned <==> detail is EffectReturned,
        detail.spec_kind() is EffectConsumed <==> detail is EffectConsumed,
        detail.spec_kind() is ActAdmitted <==> detail is ActAdmitted,
        detail.spec_kind() is ActWaitingReady <==> detail is ActWaitingReady,
        detail.spec_kind() is ActPromptSubmitted <==> detail is ActPromptSubmitted,
        detail.spec_kind() is ActCancelRequested <==> detail is ActCancelRequested,
        detail.spec_kind() is ActSupervisorHandoff <==> detail is ActSupervisorHandoff,
        detail.spec_kind() is AgentTurnActivity <==> detail is AgentTurnActivity,
        detail.spec_kind() is AgentTurnTerminal <==> detail is AgentTurnTerminal,
        detail.spec_kind() is AgentTurnSettled <==> detail is AgentTurnSettled,
        detail.spec_kind() is AgentSessionReady <==> detail is AgentSessionReady,
        detail.spec_kind() is AgentSessionBroken <==> detail is AgentSessionBroken,
        detail.spec_kind() is ToolUpdated <==> detail is ToolUpdated,
        detail.spec_kind() is ResultSubmitted <==> detail is ResultSubmitted,
        detail.spec_kind() is ResultRejected <==> detail is ResultRejected,
        detail.spec_kind() is ResultRepairRequested <==> detail is ResultRepairRequested,
        detail.spec_kind() is ResultAccepted <==> detail is ResultAccepted,
        detail.spec_kind() is ResultMissing <==> detail is ResultMissing,
        detail.spec_kind() is DiagnosticComponentFailed <==> detail is DiagnosticComponentFailed,
{
}

/// An event is of the kind that its body is of, and of no other.
pub proof fn events_are_of_the_kind_of_their_body(body: EventBody)
    ensures
        body.spec_kind() is SpanStarted <==> body is SpanStarted,
        body.spec_kind() is SpanFinished <==> body is SpanFinished,
        body.spec_kind() is InstantOccurred <==> body is InstantOccurred,
        body.spec_kind() is CounterSampled <==> body is CounterSampled,
        body.spec_kind() is AgentMessageDelta <==> body is AgentMessageDelta,
        body.spec_kind() is AgentMessageCompleted <==> body is AgentMessageCompleted,
        body.spec_kind() is AgentPlanSnapshot <==> body is AgentPlanSnapshot,
        body.spec_kind() is ContextUsageSampled <==> body is ContextUsageSampled,
        body.spec_kind() is ActTokenUsageFinalized <==> body is ActTokenUsageFinalized,
        body.spec_kind() is ObservationGap <==> body is ObservationGap,
        body.spec_kind() is CustomSpanStarted <==> body is CustomSpanStarted,
        body.spec_kind() is CustomSpanFinished <==> body is CustomSpanFinished,
        body.spec_kind() is CustomInstantOccurred <==> body is CustomInstantOccurred,
        body.spec_kind() is CustomCounterSampled <==> body is CustomCounterSampled,
{
}

/// The end of a span without a code is one that completed, and what ends with a code keeps it.
pub proof fn ends_of_spans_keep_their_codes(code: &'static str)
    ensures
        TerminalSpan::spec_completed().outcome is Completed,
        TerminalSpan::spec_completed().code() is None,
        TerminalSpan::spec_cancelled(code).outcome is Cancelled,
        TerminalSpan::spec_cancelled(code).code() is Some,
        TerminalSpan::spec_cancelled(code).code()->0@ == code@,
        TerminalSpan::spec_failed(code).outcome is Failed,
        TerminalSpan::spec_failed(code).code() is Some,
        TerminalSpan::spec_failed(code).code()->0@ == code@,
        spec_stable_code(Some(code)) is Some && spec_stable_code(Some(code))->0@ == code@,
        spec_stable_code(None) is None,
{
}

/// Two scopes agree exactly where every part of theirs does: each names the same in both, or
/// nothing in both. A scope agrees with itself, and two that agree with a third agree.
pub proof fn scopes_agree_in_every_part(one: DiagnosticScope, two: DiagnosticScope, three: DiagnosticScope)
    ensures
        one.agrees(one),
        one.agrees(two) == two.agrees(one),
        one.agrees(two) && two.agrees(three) ==> one.agrees(three),
        one.agrees(two) ==> one.session_generation == two.session_generation,
        one.agrees(two) && one.scene_id is Some ==> two.scene_id is Some && one.scene_id->0@
            == two.scene_id->0@,
        one.agrees(two) && one.actor_id is Some ==> two.actor_id is Some && one.actor_id->0@
            == two.actor_id->0@,
        one.agrees(two) && one.cue_id is Some ==> two.cue_id is Some && one.cue_id->0@
            == two.cue_id->0@,
        one.agrees(two) && one.effect_id is Some ==> two.effect_id is Some && one.effect_id->0@
            == two.effect_id->0@,
        one.agrees(two) && one.act_id is Some ==> two.act_id is Some && one.act_id->0@
            == two.act_id->0@,
        one.agrees(two) && one.tool_call_id is Some ==> two.tool_call_id is Some
            && one.tool_call_id->0@ == two.tool_call_id->0@,
{
}

} // verus!
