use diagnostic_runtime::context::{HubAdmissionError, HubRefusal, SpanEventAdmission, TimeError};
#[allow(unused_imports)]
use diagnostic_runtime::event::{
    CausalLink, CausalRelation, CounterKind, DiagnosticScope, ErrorCode, EventBody, EventCandidate,
    InstantKind, RunLocalId, SpanKind, SpanOutcome,
};
#[allow(unused_imports)]
use diagnostic_runtime::run::{DiagnosticRun, DiagnosticRuns, RuntimeProducerError};
use std::cell::{Cell, RefCell};
use std::rc::Rc;
use diagnostic_runtime::act_registry::{ActRegistry, AgentTurnControl, StandaloneActAdmission};
use diagnostic_runtime::agent::{
    AgentSessionDiagnosticContext, AgentSessionDiagnosticMetadata, AgentTurnDiagnosticIdentity,
};
use diagnostic_runtime::context::DiagnosticProducerError;
use diagnostic_runtime::custom_act_binding::{
    ActAuthorities, ActAuthority, AuthorityPhase, CuedRef, LineageReplacement, Lookup,
    PreparedActAuthority, TaskRef,
};
use diagnostic_runtime::event::{
    ComponentFailureErrorCode, ComponentFailureStage, DiagnosticEventKind, InstantDetail,
    SpanStartDetail, ToolCallDetail,
};
use diagnostic_runtime::hooks::{DiagnosticAdmissionProfile, DiagnosticCaptureConfig};
use diagnostic_runtime::runtime_producer::RuntimeProducerRegistry;
use diagnostic_runtime::scene_producer::TaskLineage;
use diagnostic_runtime::sink_admission::{
    admission_state_error, prepare, sink_state_path, standalone_act, standalone_error,
    ActAdmission, ActRequest, AdmissionError, AdmissionFault, AdmissionResources, SinkRequest,
    SinkStatePath,
};
use diagnostic_runtime::sink_binding::{
    act_admission_path, act_outcome, bind_usage, capability_path, commit_settlement, dropped_events,
    prepare_settlement, try_reserve, ActAdmissionPath, ActOutcome, ActSettlementError,
    ActSettlementSinkCommit, ActSinkAdmissionCapability, ActSinkSubscriber, AdmissionOutcome, AuthorityOnlySubscriber,
    AuthoritySettlement, CapabilityPath, DeliveryFactEmitter, RecordedSettlement, RecordedSink,
    SinkDeliveryFailure, SinkQueue, SinkRuntime, StandaloneFailureOwner, UsageBinding,
};
use diagnostic_runtime::sink_projection::{
    event_selected, prepare_sink_tool_payload, project_act_event, AcceptedDiagnosticEvent,
    PreparedSinkToolPayload, SinkOnlyJsonValue, SinkOnlyToolInput, SinkOnlyToolLocation,
    SinkOnlyToolOutput, SinkOnlyToolPayload, SinkProjectedEvent, SinkProjectedJsonValue,
    SinkProjectedToolInput, ToolPayloadSource,
};
use diagnostic_runtime::sink_registry::{
    ActSinkRegistry, ActSubscriber, StandaloneCue, StandaloneLineages,
};
use std::sync::Arc;

#[derive(Debug, PartialEq)]
enum Seen {
    Started { kind: SpanKind, parent: Option<u64> },
    Finished { span_id: u64, outcome: SpanOutcome, code: Option<String> },
    Instant { kind: InstantKind, containing: Option<u64> },
    Counter { kind: CounterKind, value: u64 },
    Gap { producer: &'static str, reason: &'static str },
    CustomStarted { name: String, parent: Option<u64> },
    CustomFinished { span_id: u64, outcome: SpanOutcome },
    CustomInstant { name: String, containing: Option<u64> },
    Other,
}

#[allow(dead_code)]
struct Fact {
    sequence: u64,
    elapsed_ns: u64,
    scope: DiagnosticScope,
    cause: Option<CausalLink>,
    seen: Seen,
    unheard: bool,
    text: String,
}

type Log = Rc<RefCell<Vec<Fact>>>;

/// A hub that numbers events from 1, and refuses the attempt that it is told to.
struct Recorder {
    log: Log,
    attempts: usize,
    fail_on_attempt: Option<usize>,
    clock: u64,
    /// The subscribers of acts hear of its events.
    heard: Rc<Cell<bool>>,
}

impl SpanEventAdmission for Recorder {
    fn told(&self) -> diagnostic_runtime::context::AdmissionLog {
        unreachable!()
    }

    fn hub(&self) -> diagnostic_runtime::context::HubIdentity {
        unreachable!()
    }

    fn share(&self) -> Self {
        Recorder {
            log: self.log.clone(),
            attempts: self.attempts,
            fail_on_attempt: self.fail_on_attempt,
            clock: self.clock,
            heard: self.heard.clone(),
        }
    }

    fn install_act_subscribers(&mut self) -> Result<(), String> {
        if self.heard.replace(true) {
            Err("Act subscribers are already installed".to_owned())
        } else {
            Ok(())
        }
    }

    fn elapsed_now(&mut self) -> Result<u64, TimeError> {
        self.clock += 10;
        Ok(self.clock)
    }

    fn admit_event(
        &mut self,
        elapsed_ns: u64,
        candidate: &EventCandidate,
    ) -> Result<u64, HubAdmissionError> {
        self.attempts += 1;
        if self.fail_on_attempt == Some(self.attempts) {
            return Err(HubAdmissionError {
                refusal: HubRefusal::Reservation,
                message: "injected diagnostic admission failure".to_owned(),
            });
        }
        let sequence = self.log.borrow().len() as u64 + 1;
        let seen = match &candidate.body {
            EventBody::SpanStarted { detail, parent_span_id } => {
                Seen::Started { kind: detail.kind(), parent: *parent_span_id }
            }
            EventBody::SpanFinished { span_id, outcome, error_code } => Seen::Finished {
                span_id: *span_id,
                outcome: *outcome,
                code: error_code.as_ref().map(|code| match code {
                    ErrorCode::Stable(code) => (*code).to_owned(),
                    ErrorCode::Reported(code) => code.clone(),
                }),
            },
            EventBody::InstantOccurred { instant, containing_span_id } => {
                Seen::Instant { kind: instant.kind(), containing: *containing_span_id }
            }
            EventBody::CounterSampled { kind, value } => {
                Seen::Counter { kind: *kind, value: *value }
            }
            EventBody::ObservationGap(gap) => {
                Seen::Gap { producer: gap.producer, reason: gap.reason }
            }
            EventBody::CustomSpanStarted { name, parent_id, .. } => {
                Seen::CustomStarted { name: name.clone(), parent: *parent_id }
            }
            EventBody::CustomSpanFinished { custom_span_id, custom_outcome } => {
                Seen::CustomFinished { span_id: *custom_span_id, outcome: *custom_outcome }
            }
            EventBody::CustomInstantOccurred { name, containing_id, .. } => {
                Seen::CustomInstant { name: name.clone(), containing: *containing_id }
            }
            _ => Seen::Other,
        };
        self.log.borrow_mut().push(Fact {
            sequence,
            elapsed_ns,
            scope: candidate.scope.clone(),
            cause: candidate.cause,
            seen,
            unheard: candidate.unheard,
            text: format!("{candidate:?}"),
        });
        Ok(sequence)
    }
}

fn recorder(fail_on_attempt: Option<usize>) -> (Recorder, Log) {
    let log: Log = Rc::new(RefCell::new(Vec::new()));
    (Recorder { log: log.clone(), attempts: 0, fail_on_attempt, clock: 0, heard: Rc::default() }, log)
}

#[allow(dead_code)]
fn failure_code(run: &DiagnosticRun<Recorder>) -> Option<String> {
    run.failure().map(|failure| failure.code().to_owned())
}

#[allow(dead_code)]
fn assert_start(log: &Log, index: usize, kind: SpanKind, parent: Option<u64>) {
    let facts = log.borrow();
    assert_eq!(facts[index].sequence, index as u64 + 1);
    assert_eq!(facts[index].seen, Seen::Started { kind, parent });
}

#[allow(dead_code)]
fn assert_finish(
    log: &Log,
    index: usize,
    span_id: u64,
    outcome: SpanOutcome,
    error_code: Option<&str>,
) {
    let facts = log.borrow();
    assert_eq!(facts[index].sequence, index as u64 + 1);
    assert_eq!(
        facts[index].seen,
        Seen::Finished { span_id, outcome, code: error_code.map(str::to_owned) }
    );
}

#[allow(dead_code)]
fn assert_instant(log: &Log, index: usize, kind: InstantKind, containing: Option<u64>) {
    let facts = log.borrow();
    assert_eq!(facts[index].sequence, index as u64 + 1);
    assert_eq!(facts[index].seen, Seen::Instant { kind, containing });
}

#[allow(dead_code)]
fn assert_cause(log: &Log, index: usize, sequence: u64, relation: CausalRelation) {
    assert_eq!(log.borrow()[index].cause, Some(CausalLink { sequence, relation }));
}


/// Every fact refers only to spans that have begun and to facts that came before it.
#[allow(dead_code)]
fn assert_facts_refer_back(log: &Log) {
    let facts = log.borrow();
    let mut begun: Vec<u64> = Vec::new();
    for fact in facts.iter() {
        let (within, ended) = match &fact.seen {
            Seen::Started { parent, .. } | Seen::CustomStarted { parent, .. } => (*parent, None),
            Seen::Instant { containing, .. } | Seen::CustomInstant { containing, .. } => {
                (*containing, None)
            }
            Seen::Finished { span_id, .. } | Seen::CustomFinished { span_id, .. } => {
                (None, Some(*span_id))
            }
            _ => (None, None),
        };
        assert!(within.is_none_or(|span_id| begun.contains(&span_id)), "{}", fact.text);
        assert!(ended.is_none_or(|span_id| begun.contains(&span_id)), "{}", fact.text);
        assert!(fact.cause.is_none_or(|cause| cause.sequence < fact.sequence), "{}", fact.text);
        if matches!(fact.seen, Seen::Started { .. } | Seen::CustomStarted { .. }) {
            begun.push(fact.sequence);
        }
    }
}

fn id(text: &str) -> RunLocalId {
    RunLocalId { text: text.to_owned() }
}

fn act_scope(act_id: &str) -> DiagnosticScope {
    DiagnosticScope {
        scene_id: Some(id("scene-1")),
        actor_id: Some(id("actor-1")),
        cue_id: Some(id("cue-1")),
        effect_id: None,
        act_id: Some(id(act_id)),
        tool_call_id: None,
        session_generation: Some(3),
    }
}

fn nothing() -> DiagnosticCaptureConfig {
    DiagnosticCaptureConfig::new(false, false, false, false, false, false, false, false)
}

fn everything() -> DiagnosticCaptureConfig {
    DiagnosticCaptureConfig::new(true, true, true, true, true, true, true, true)
}

fn accepted(sequence: u64, scope: DiagnosticScope, body: EventBody) -> AcceptedDiagnosticEvent {
    AcceptedDiagnosticEvent {
        sequence,
        elapsed_ns: sequence * 10,
        event: EventCandidate { unheard: false, scope, cause: None, body },
        built_in_span_kind: None,
        subscriber_local: false,
        canonical_bytes: vec![7; 40],
    }
}

fn tool_started(sequence: u64) -> AcceptedDiagnosticEvent {
    let mut scope = act_scope("act-1");
    scope.tool_call_id = Some(id("tool-1"));
    accepted(
        sequence,
        scope,
        EventBody::SpanStarted {
            detail: SpanStartDetail::ToolCall(ToolCallDetail {
                title: "List files".to_owned(),
                tool_kind: "read".to_owned(),
                status: "pending".to_owned(),
                error_code: None,
            }),
            parent_span_id: Some(6),
        },
    )
}

fn act_finished(outcome: SpanOutcome) -> AcceptedDiagnosticEvent {
    let mut event = accepted(
        20,
        act_scope("act-1"),
        EventBody::SpanFinished { span_id: 1, outcome, error_code: None },
    );
    event.built_in_span_kind = Some(SpanKind::ActLifecycle);
    event
}

fn waiting(sequence: u64, act_id: &str) -> AcceptedDiagnosticEvent {
    accepted(
        sequence,
        act_scope(act_id),
        EventBody::InstantOccurred {
            instant: InstantDetail::ActWaitingReady,
            containing_span_id: Some(1),
        },
    )
}

fn payload() -> SinkOnlyToolPayload {
    SinkOnlyToolPayload {
        source: ToolPayloadSource::Started,
        input: Some(SinkOnlyToolInput {
            raw_input: Some(SinkOnlyJsonValue {
                value: serde_json::from_str("{ \"path\" : \"/tmp\", \"depth\": 2 }").unwrap(),
            }),
            truncated: true,
        }),
        output: Some(SinkOnlyToolOutput {
            raw_output: None,
            content: vec![SinkOnlyJsonValue { value: serde_json::Value::Null }],
            locations: vec![SinkOnlyToolLocation { path: "/tmp".to_owned(), line: Some(4) }],
            truncated: false,
        }),
    }
}

#[test]
fn payloads_are_written_in_canonical_json() {
    let prepared = prepare_sink_tool_payload("tool-1", &payload());
    assert_eq!(prepared.tool_call_id(), "tool-1");
    assert_eq!(prepared.source(), ToolPayloadSource::Started);
    let input = prepared.input().expect("the input is kept");
    assert!(input.truncated());
    assert_eq!(
        input.raw_input().expect("the input has a value").canonical_json(),
        "{\"path\":\"/tmp\",\"depth\":2}"
    );
    let output = prepared.output().expect("the output is kept");
    assert!(output.raw_output().is_none());
    assert_eq!(output.content()[0].canonical_json(), "null");
    assert_eq!(output.locations()[0].path(), "/tmp");
    assert_eq!(output.locations()[0].line(), Some(4));
    let hidden = SinkProjectedJsonValue::from_canonical_json_for_test("{\"key\":1}".to_owned());
    assert!(!hidden.describe().contains("key"));
}

#[test]
fn a_sink_sees_its_own_act_only() {
    let canonical = Arc::new(waiting(4, "act-1"));
    assert!(project_act_event(&canonical, &act_scope("act-1"), nothing(), None).is_some());
    assert!(project_act_event(&canonical, &act_scope("act-2"), nothing(), None).is_none());
    let mut anonymous = act_scope("act-1");
    anonymous.act_id = None;
    assert!(project_act_event(&canonical, &anonymous, everything(), None).is_none());
}

#[test]
fn payloads_need_tool_calls_to_be_captured() {
    let canonical = Arc::new(tool_started(9));
    let prepared = prepare_sink_tool_payload("tool-1", &payload());
    let project = |capture| {
        project_act_event(&canonical, &act_scope("act-1"), capture, Some(&prepared))
    };
    let mut capture = everything();
    let projected = project(capture).expect("tool calls are captured");
    assert!(projected.captured_input().is_some());
    assert!(projected.captured_output().is_some());
    assert_eq!(projected.canonical().sequence, 9);
    capture.tool_inputs = false;
    let projected = project(capture).expect("tool calls are captured");
    assert!(projected.captured_input().is_none());
    assert!(projected.captured_output().is_some());
    capture.tool_calls = false;
    assert!(project(capture).is_none());

    let other = prepare_sink_tool_payload("tool-2", &payload());
    let projected =
        project_act_event(&canonical, &act_scope("act-1"), everything(), Some(&other))
            .expect("tool calls are captured");
    assert!(projected.captured_input().is_none());
}

#[test]
fn capturing_more_selects_more() {
    let events = [
        (waiting(1, "act-1"), true),
        (tool_started(2), false),
        (
            accepted(
                3,
                act_scope("act-1"),
                EventBody::AgentMessageDelta {
                    message_id: "m".to_owned(),
                    source_message_id: None,
                    text_delta: "t".to_owned(),
                },
            ),
            false,
        ),
        (
            accepted(
                4,
                act_scope("act-1"),
                EventBody::AgentPlanSnapshot { entries: Vec::new(), truncated: false },
            ),
            false,
        ),
        (
            accepted(
                5,
                act_scope("act-1"),
                EventBody::CounterSampled { kind: CounterKind::AgentTurnActive, value: 1 },
            ),
            true,
        ),
    ];
    for (event, always) in events {
        assert_eq!(event_selected(&event, nothing()), always);
        assert!(event_selected(&event, everything()));
    }
    let counter = |kind| {
        accepted(6, act_scope("act-1"), EventBody::CounterSampled { kind, value: 1 })
    };
    assert!(!event_selected(&counter(CounterKind::CueActive), everything()));
}

/// A queue of a sink, which is told how to answer.
struct Queue {
    sidecar: Option<usize>,
    admission: Option<AdmissionOutcome>,
    log: Rc<RefCell<Vec<String>>>,
    settled: Result<(), &'static str>,
}

impl SinkQueue for Queue {
    fn told(&self) -> diagnostic_runtime::sink_binding::SinkLog {
        unreachable!()
    }

    fn record_source_gaps(&mut self, count: usize) {
        self.log.borrow_mut().push(format!("gaps {count}"));
    }

    fn record_truncated_payloads(&mut self, count: usize) {
        self.log.borrow_mut().push(format!("truncated {count}"));
    }

    fn materialize(&mut self, projected: &SinkProjectedEvent) -> Option<usize> {
        self.log.borrow_mut().push(format!("materialize {}", projected.canonical().sequence));
        self.sidecar
    }

    fn try_enqueue(
        &mut self,
        sequence: u64,
        _kind: DiagnosticEventKind,
        encoded_bytes: usize,
        structural: bool,
    ) -> Option<AdmissionOutcome> {
        self.log.borrow_mut().push(format!("enqueue {sequence} {encoded_bytes} {structural}"));
        self.admission.take()
    }

    fn try_enqueue_terminal(
        &mut self,
        sequence: u64,
        _kind: DiagnosticEventKind,
        encoded_bytes: usize,
    ) -> Option<AdmissionOutcome> {
        self.log.borrow_mut().push(format!("last {sequence} {encoded_bytes}"));
        self.admission.take()
    }

    fn settle(&mut self, outcome: ActOutcome) -> Result<(), &'static str> {
        self.log.borrow_mut().push(format!("settle {outcome:?}"));
        self.settled
    }
}

struct Delivery {
    subscriber: ActSinkSubscriber,
    sink: RecordedSink<Queue>,
    runs: DiagnosticRuns<Recorder>,
    log: Log,
    calls: Rc<RefCell<Vec<String>>>,
}

impl Delivery {
    fn new(sidecar: Option<usize>, admission: Option<AdmissionOutcome>) -> Self {
        let (recorder, log) = recorder(None);
        let mut runs = DiagnosticRuns::new();
        runs.open(recorder);
        let calls = Rc::new(RefCell::new(Vec::new()));
        Delivery {
            subscriber: ActSinkSubscriber::new(0, 0, everything(), act_scope("act-1"), 12),
            sink: RecordedSink::new(Queue {
                sidecar,
                admission,
                log: calls.clone(),
                settled: Ok(()),
            }),
            runs,
            log,
            calls,
        }
    }

    fn deliver(&mut self, event: AcceptedDiagnosticEvent) -> Result<(), &'static str> {
        self.subscriber.deliver(
            &mut None,
            &mut self.runs,
            &mut self.sink,
            true,
            &Arc::new(event),
        )
    }
}

fn enqueued() -> Option<AdmissionOutcome> {
    Some(AdmissionOutcome::Enqueued { evicted: Vec::new() })
}

#[test]
fn an_event_goes_through_the_queue_of_its_sink() {
    let mut delivery = Delivery::new(Some(2), enqueued());
    delivery.subscriber.deliver_tool_payload(prepare_sink_tool_payload("tool-1", &payload()));
    assert_eq!(delivery.deliver(tool_started(9)), Ok(()));
    let calls = delivery.calls.borrow().clone();
    assert!(calls.contains(&"truncated 1".to_owned()));
    assert!(calls.contains(&"materialize 9".to_owned()));
    assert!(calls.iter().any(|call| call.starts_with("enqueue 9 42")));
    assert!(delivery.subscriber.pending.is_empty());
    assert!(delivery.log.borrow().is_empty());
}

#[test]
fn an_event_of_another_act_goes_nowhere() {
    let mut delivery = Delivery::new(Some(0), enqueued());
    assert_eq!(delivery.deliver(waiting(4, "act-2")), Ok(()));
    assert!(delivery.calls.borrow().is_empty());
}

#[test]
fn drops_of_a_sink_are_counted_and_told() {
    let mut delivery = Delivery::new(
        Some(0),
        Some(AdmissionOutcome::Enqueued { evicted: vec![2, 3] }),
    );
    assert_eq!(delivery.deliver(waiting(4, "act-1")), Ok(()));
    assert_eq!(delivery.subscriber.dropped, 5);
    assert_eq!(
        delivery.log.borrow()[0].seen,
        Seen::Counter { kind: CounterKind::DiagnosticDroppedEvents, value: 5 }
    );
    assert_cause(&delivery.log, 0, 4, CausalRelation::FollowsFrom);
    assert!(delivery.log.borrow()[0].unheard);
    assert_eq!(dropped_events(&AdmissionOutcome::Dropped { events: 3 }), 3);
    assert_eq!(
        dropped_events(&AdmissionOutcome::Terminalized { dropped: vec![usize::MAX, 1] }),
        usize::MAX
    );
}

#[test]
fn a_failed_delivery_is_told_once() {
    let mut delivery = Delivery::new(Some(0), None);
    assert_eq!(delivery.deliver(waiting(4, "act-1")), Err("sink_delivery_failed"));
    assert_eq!(delivery.deliver(waiting(5, "act-1")), Err("sink_delivery_failed"));
    let log = delivery.log.borrow();
    assert_eq!(log.len(), 1);
    assert!(log[0].unheard);
    assert_eq!(
        log[0].seen,
        Seen::Instant { kind: InstantKind::DiagnosticComponentFailed, containing: None }
    );
    assert!(log[0].text.contains("component_id: RunLocalId { text: \"sink-12\" }"));
    assert!(log[0].text.contains("error_code: DeliveryQueueUnavailable"));
}

#[test]
fn the_last_event_of_an_act_settles_its_sink() {
    let mut delivery = Delivery::new(
        Some(0),
        Some(AdmissionOutcome::Terminalized { dropped: Vec::new() }),
    );
    assert_eq!(delivery.deliver(act_finished(SpanOutcome::Cancelled)), Ok(()));
    let calls = delivery.calls.borrow().clone();
    assert!(calls.contains(&"last 20 40".to_owned()));
    assert_eq!(calls.last(), Some(&"settle Cancelled".to_owned()));
    assert!(delivery.subscriber.terminal_enqueued);

    let mut refused = Delivery::new(
        Some(0),
        Some(AdmissionOutcome::Terminalized { dropped: Vec::new() }),
    );
    refused.sink.queue.settled = Err("sealed");
    assert_eq!(
        refused.deliver(act_finished(SpanOutcome::Completed)),
        Err("sink_settlement_failed")
    );
    assert_eq!(act_outcome(&act_finished(SpanOutcome::Failed)), Some(ActOutcome::Failed));
    assert_eq!(act_outcome(&waiting(4, "act-1")), None);
}

#[test]
fn failures_of_callbacks_have_their_codes() {
    for (failure, stage, code, related) in [
        (
            SinkDeliveryFailure::CallbackRaised { event_sequence: 4 },
            ComponentFailureStage::Callback,
            ComponentFailureErrorCode::CallbackRaised,
            Some(4),
        ),
        (
            SinkDeliveryFailure::CallbackInvalidReturn { event_sequence: 5 },
            ComponentFailureStage::Callback,
            ComponentFailureErrorCode::CallbackInvalidReturn,
            Some(5),
        ),
    ] {
        let (recorder, log) = recorder(None);
        let mut runs = DiagnosticRuns::new();
        runs.open(recorder);
        let mut emitter = DeliveryFactEmitter::new(0, 0, act_scope("act-1"), 2);
        emitter.delivery_failed(&mut runs, true, failure);
        emitter.delivery_failed(&mut runs, true, failure);
        let log = log.borrow();
        assert_eq!(log.len(), 1);
        assert!(log[0].text.contains(&format!("stage: {stage:?}")));
        assert!(log[0].text.contains(&format!("error_code: {code:?}")));
        assert!(log[0].text.contains(&format!("related: {related:?}")));
    }
}

fn authority() -> ActAuthority {
    ActAuthority {
        binding_key: 11,
        runtime: 0,
        act_id: id("act-1"),
        act_scope: act_scope("act-1"),
        generation: 8,
        caller_task: TaskRef { key: 1, serial: 1 },
        caller_base_lineage: lineage(),
        phase: AuthorityPhase { caller_active: true, generation_active: true },
    }
}

fn lineage() -> TaskLineage {
    TaskLineage {
        active: true,
        runtime: None,
        cued_key: Some(40),
        scene: None,
        act_authority: None,
    }
}

struct Coordinator {
    asked: usize,
}

impl AuthoritySettlement for Coordinator {
    fn told(&self) -> diagnostic_runtime::sink_binding::SettlementLog {
        unreachable!()
    }

    fn settle_authority_only(&mut self) -> Result<(), &'static str> {
        self.asked += 1;
        Ok(())
    }
}

#[test]
fn an_authority_without_a_sink_retires_with_its_act() {
    let (recorder, _) = recorder(None);
    let mut runs = DiagnosticRuns::new();
    runs.open(recorder);
    let mut registry = ActSinkRegistry::new();
    registry.reserve(&id("act-1")).expect("reserve the act");
    registry.publish("act-1", ActSubscriber::Authority { generation: 8 });
    let subscriber = AuthorityOnlySubscriber { owner: 0, act_id: id("act-1") };
    let mut settlement = RecordedSettlement::new(Coordinator { asked: 0 });
    let mut authority = authority();
    subscriber
        .deliver(
            &mut authority,
            &mut registry,
            &mut runs,
            &mut settlement,
            true,
            &waiting(4, "act-1"),
        )
        .expect("nothing ends");
    assert_eq!(settlement.coordinator.asked, 0);
    subscriber
        .deliver(
            &mut authority,
            &mut registry,
            &mut runs,
            &mut settlement,
            true,
            &act_finished(SpanOutcome::Completed),
        )
        .expect("the act ends");
    assert_eq!(settlement.coordinator.asked, 1);
    assert_eq!(registry.entry("act-1"), None);
}

#[test]
fn registrations_of_sinks_come_and_go() {
    let mut registry = ActSinkRegistry::new();
    registry.reserve(&id("act-1")).expect("reserve the act");
    let taken = registry.reserve(&id("act-1")).expect_err("an act has one subscriber");
    assert_eq!(taken.describe(), "diagnostic Act subscriber identity is already registered");
    registry.release("act-1");
    assert_eq!(registry.entry("act-1"), None);
    registry.reserve(&id("act-1")).expect("reserve the act again");
    assert_eq!(registry.bound("act-1"), None);
    registry.publish("act-1", ActSubscriber::Bound { sink_id: 4 });
    assert_eq!(registry.bound("act-1"), Some(4));
    assert_eq!(registry.bound_all(), [4]);
    assert!(registry.contains_bound_sink("act-1", 4));
    assert!(!registry.retire_expected("act-1", 5));
    assert!(registry.retire_expected("act-1", 4));
    assert_eq!(registry.subscriber("act-1"), None);
}

#[test]
fn standalone_lineages_are_stable() {
    let mut lineages = StandaloneLineages::new();
    let cue = StandaloneCue { scene_key: 1, actor_key: 2, cue_key: 3 };
    let first = lineages.resolve(cue).expect("resolve a lineage");
    assert_eq!(lineages.resolve(cue).expect("resolve it again"), first);
    assert_eq!(first.cue_scope.scene_id, Some(id("standalone-scene-1")));
    assert_eq!(first.cue_scope.actor_id, Some(id("standalone-actor-1")));
    assert_eq!(first.cue_scope.cue_id, Some(id("standalone-cue-1")));
    assert_eq!(first.session.session_id, "standalone-session-1");
    let second = lineages
        .resolve(StandaloneCue { scene_key: 1, actor_key: 2, cue_key: 4 })
        .expect("resolve another cue");
    assert_eq!(second.cue_scope.cue_id, Some(id("standalone-cue-2")));
    assert_eq!(second.session, first.session);
}

#[test]
fn settlements_need_their_sink() {
    let mut registry = ActSinkRegistry::new();
    let missing = prepare_settlement(&registry, "act-1", 4, Ok(())).expect_err("no sink is bound");
    assert_eq!(missing.code, "act.sink-retire-missing");
    registry.reserve(&id("act-1")).expect("reserve the act");
    registry.publish("act-1", ActSubscriber::Bound { sink_id: 4 });
    assert_eq!(prepare_settlement(&registry, "act-1", 4, Ok(())), Ok(()));
    let sealed = ActSettlementError { code: "sealed", message: "sealed" };
    assert_eq!(prepare_settlement(&registry, "act-1", 4, Err(sealed)), Err(sealed));
    assert_eq!(
        commit_settlement(
            &mut registry,
            "act-1",
            4,
            ActSettlementSinkCommit::Rejected(sealed)
        ),
        ActSettlementSinkCommit::Rejected(sealed)
    );
    assert_eq!(
        commit_settlement(&mut registry, "act-1", 4, ActSettlementSinkCommit::Committed),
        ActSettlementSinkCommit::Committed
    );
    assert!(matches!(
        commit_settlement(&mut registry, "act-1", 4, ActSettlementSinkCommit::Committed),
        ActSettlementSinkCommit::CommittedWithFailure(_)
    ));
}

#[test]
fn ways_of_admission_are_chosen() {
    assert_eq!(act_admission_path(true, false, false), ActAdmissionPath::Capability);
    assert_eq!(act_admission_path(false, false, true), ActAdmissionPath::ReportOnly);
    assert_eq!(act_admission_path(false, true, true), ActAdmissionPath::CapabilityMissing);
    assert_eq!(act_admission_path(false, true, false), ActAdmissionPath::Standalone);
    let durable = DiagnosticAdmissionProfile::ProductionDurable;
    let volatile = DiagnosticAdmissionProfile::SinkOnlyVolatile;
    assert_eq!(capability_path(durable, true), CapabilityPath::Bind);
    assert_eq!(capability_path(durable, false), CapabilityPath::AdmitWithoutSink);
    assert_eq!(capability_path(volatile, false), CapabilityPath::Nothing);
    assert_eq!(try_reserve(1, 8 * 1024 * 1024), Ok(()));
    let refused = try_reserve(1, 8 * 1024 * 1024 + 1).expect_err("the event is too large");
    assert_eq!(
        refused.describe(),
        "standalone diagnostic event exceeds its in-memory bound"
    );
    assert!(try_reserve(2, 1).is_err());
    assert_eq!(sink_state_path("UNBOUND"), SinkStatePath::Fresh);
    assert_eq!(sink_state_path("BOUND"), SinkStatePath::Used);
    assert_eq!(sink_state_path("LOST"), SinkStatePath::Corrupt);
}

#[test]
fn the_first_failure_of_a_standalone_act_stays() {
    let mut owner = StandaloneFailureOwner::new();
    owner.observer_failed("message", "observation_clock_failed");
    assert_eq!(owner.first_failure.as_deref(), Some("message:observation_clock_failed"));
    owner.latch_state_failure("act.later");
    owner.usage_finalization_failed("act-1", "late");
    owner.latch_diagnostic_failure(&DiagnosticProducerError::new("code", "message"));
    assert_eq!(owner.first_failure.as_deref(), Some("message:observation_clock_failed"));
}

#[test]
fn usage_that_is_not_bound_fails_its_run() {
    let bind = |profile, binding| {
        let (recorder, _) = recorder(None);
        let mut runs = DiagnosticRuns::new();
        runs.open(recorder);
        let result = bind_usage(&mut runs, 0, profile, binding);
        (result, failure_code(&runs.runs[0]))
    };
    let durable = DiagnosticAdmissionProfile::ProductionDurable;
    let volatile = DiagnosticAdmissionProfile::SinkOnlyVolatile;
    assert_eq!(bind(durable, UsageBinding::Bound), (Ok(()), None));
    assert_eq!(
        bind(durable, UsageBinding::Late),
        (
            Err("mandatory Production diagnostic usage binding missed the admitted Act".to_owned()),
            Some("act.production-usage-bind-late".to_owned())
        )
    );
    assert_eq!(
        bind(volatile, UsageBinding::Failed { reason: "gone".to_owned() }),
        (
            Err("bind standalone diagnostic usage: gone".to_owned()),
            Some("act.standalone-usage-bind-failed".to_owned())
        )
    );
}

/// What an admission needs from outside, with one thing that fails.
struct Resources {
    calls: Rc<RefCell<Vec<&'static str>>>,
    fail: Option<&'static str>,
}

impl Resources {
    fn take(&mut self, name: &'static str) -> Result<(), AdmissionFault> {
        self.calls.borrow_mut().push(name);
        if self.fail == Some(name) {
            Err(AdmissionFault::Refused { reason: name.to_owned() })
        } else {
            Ok(())
        }
    }
}

impl AdmissionResources for Resources {
    fn steps(&self) -> diagnostic_runtime::sink_admission::AdmissionSteps {
        unreachable!()
    }

    fn given_back(&self) -> diagnostic_runtime::sink_admission::AdmissionReturns {
        unreachable!()
    }

    fn usages(&self) -> diagnostic_runtime::sink_admission::UsageSteps {
        unreachable!()
    }

    fn register_sink(&mut self, _act_id: &RunLocalId) -> Result<u64, AdmissionFault> {
        self.take("register").map(|()| 12)
    }

    fn install_failure_observer(&mut self, sink_id: u64) -> Result<(), AdmissionFault> {
        assert_eq!(sink_id, 12);
        self.take("observer")
    }

    fn install_authority_expiry(&mut self, _authority: usize) -> Result<(), AdmissionFault> {
        self.take("expiry")
    }

    fn install_diagnostic_context(
        &mut self,
        identity: &AgentTurnDiagnosticIdentity,
        _capture: DiagnosticCaptureConfig,
    ) -> Result<(), AdmissionFault> {
        assert_eq!(identity.act_id, "act-1");
        self.take("context")
    }

    fn share_lineage(&mut self, replacement: &LineageReplacement) -> bool {
        assert!(replacement.replacement.act_authority.is_some());
        self.calls.borrow_mut().push("share");
        true
    }

    fn give_lineage_back(&mut self, replacement: &LineageReplacement) -> bool {
        assert!(replacement.replacement.act_authority.is_none());
        self.calls.borrow_mut().push("unshare");
        true
    }

    fn bind_sink(&mut self) -> Result<(), AdmissionFault> {
        self.take("bind")
    }

    fn bind_usage(&mut self, act_id: &str) -> UsageBinding {
        assert_eq!(act_id, "act-1");
        self.calls.borrow_mut().push("usage");
        UsageBinding::Bound
    }
}

fn session() -> AgentSessionDiagnosticMetadata {
    AgentSessionDiagnosticMetadata {
        context: AgentSessionDiagnosticContext {
            actor_id: "actor-1".to_owned(),
            session_id: "session-1".to_owned(),
        },
        provider: "acme".to_owned(),
        generation: Some(3),
        requested_model: "default".to_owned(),
        requested_effort: None,
        effective_model: None,
        effective_effort: None,
    }
}

/// Admits an act with a sink and an authority, where one resource may fail.
fn admission(
    fail: Option<&'static str>,
) -> (Result<(), AdmissionError>, Vec<&'static str>, ActSinkRegistry, ActRegistry, usize) {
    let (recorder, log) = recorder(None);
    let mut runs = DiagnosticRuns::new();
    runs.open(recorder);
    let mut acts = ActRegistry::new();
    let mut registry = ActSinkRegistry::new();
    let mut cue_scope = act_scope("act-1");
    cue_scope.act_id = None;
    cue_scope.session_generation = None;
    let prepared = prepare(
        &mut acts,
        &mut runs,
        None,
        None,
        &AgentTurnControl { key: 70, session: Some(session()) },
        Some(StandaloneActAdmission { run: 0, cue_scope, session: session() }),
    )
    .expect("the act can be admitted");
    let calls = Rc::new(RefCell::new(Vec::new()));
    let mut resources = Resources { calls: calls.clone(), fail };
    let admission = ActAdmission {
        owner: 0,
        profile: DiagnosticAdmissionProfile::SinkOnlyVolatile,
        act_id: id("act-1"),
        identity: prepared.identity().clone(),
        capture: Some(everything()),
        authority: Some(PreparedActAuthority {
            authority: 0,
            generation: 8,
            binding_key: 11,
            task: TaskRef { key: 1, serial: 1 },
            original: lineage(),
            staged: false,
            committed: false,
        }),
    };
    let result =
        admission.admit_prepared(&mut registry, &mut acts, &mut runs, &mut resources, prepared, Some(0));
    let calls = calls.borrow().clone();
    let reported = log.borrow().len();
    (result, calls, registry, acts, reported)
}

#[test]
fn an_act_with_a_sink_is_bound_and_reported() {
    let (result, calls, registry, acts, reported) = admission(None);
    assert_eq!(result, Ok(()));
    assert_eq!(
        calls,
        ["register", "observer", "expiry", "context", "share", "bind", "usage"]
    );
    assert_eq!(registry.bound("act-1"), Some(12));
    assert!(acts.producer_for_act("act-1").is_some());
    assert_eq!(reported, 3);
}

#[test]
fn a_failed_admission_leaves_nothing() {
    for (fail, shared) in [
        ("register", false),
        ("observer", false),
        ("expiry", false),
        ("context", false),
        ("bind", true),
    ] {
        let (result, calls, registry, acts, reported) = admission(Some(fail));
        assert!(matches!(result, Err(AdmissionError::Failed { .. })), "{fail}");
        assert_eq!(calls.contains(&"unshare"), shared, "{fail}");
        assert!(!calls.contains(&"usage"), "{fail}");
        assert_eq!(registry.entry("act-1"), None, "{fail}");
        assert!(acts.producer_for_act("act-1").is_none(), "{fail}");
        assert_eq!(reported, 0, "{fail}");
    }
    assert_eq!(AdmissionError::Raised.describe(), None);
    assert_eq!(
        AdmissionError::AlreadyRegistered.describe().as_deref(),
        Some("diagnostic Act subscriber identity is already registered")
    );
    assert_eq!(
        admission_state_error("act.lost"),
        AdmissionError::Failed { text: "diagnostic sink admission failed [act.lost]".to_owned() }
    );
}

#[test]
fn projected_values_can_be_made_for_tests() {
    let input = SinkProjectedToolInput::new_for_test(None, true);
    let payload = PreparedSinkToolPayload::new_for_test(
        "tool-1".to_owned(),
        ToolPayloadSource::Updated,
        Some(input),
        None,
    );
    assert!(payload.input().expect("an input").truncated());
    assert!(payload.output().is_none());
}

fn request() -> ActRequest {
    ActRequest {
        owner: 0,
        profile: DiagnosticAdmissionProfile::SinkOnlyVolatile,
        runtime_run: None,
        cue: None,
        control: AgentTurnControl { key: 70, session: Some(session()) },
        binding_key: 11,
        cued: CuedRef { key: 5, binding_key: Some(11) },
        lineage: Lookup::Found(lineage()),
        task: Lookup::Found(TaskRef { key: 1, serial: 1 }),
    }
}

#[test]
fn a_sink_is_bound_once_and_only_from_a_sound_state() {
    let standalone = || {
        let mut cue_scope = act_scope("act-1");
        cue_scope.act_id = None;
        cue_scope.session_generation = None;
        Some(StandaloneActAdmission { run: 0, cue_scope, session: session() })
    };
    for (state, outcome, expected) in [
        (
            "UNBOUND",
            None,
            vec!["register", "observer", "context", "bind", "usage"],
        ),
        ("BOUND", Some("bind"), vec!["bind"]),
        ("ODD", Some("diagnostic sink lifecycle state is corrupt"), Vec::new()),
    ] {
        let (recorder, log) = recorder(None);
        let mut runs = DiagnosticRuns::new();
        runs.open(recorder);
        let mut acts = ActRegistry::new();
        let mut registry = ActSinkRegistry::new();
        let mut authorities = ActAuthorities::new();
        let calls = Rc::new(RefCell::new(Vec::new()));
        let fail = if state == "BOUND" { Some("bind") } else { None };
        let mut resources = Resources { calls: calls.clone(), fail };
        let result = request().bind(
            state,
            standalone(),
            everything(),
            &RuntimeProducerRegistry::new(),
            &mut registry,
            &mut acts,
            &mut authorities,
            &mut runs,
            &mut resources,
        );
        match outcome {
            None => assert_eq!(result, Ok(())),
            Some(text) => {
                assert_eq!(result, Err(AdmissionError::Failed { text: text.to_owned() }));
            }
        }
        assert_eq!(*calls.borrow(), expected);
        assert_eq!(registry.bound("act-1").is_some(), state == "UNBOUND");
        assert_eq!(log.borrow().len(), if state == "UNBOUND" { 3 } else { 0 });
        if state == "UNBOUND" {
            let slot = acts.take_usage_finalization_slot("act-1").expect("the act has its slot");
            assert_eq!(slot.act_id, "act-1");
            assert!(acts.take_usage_finalization_slot("act-1").is_none());
        }
    }
}

#[test]
fn an_act_without_diagnostics_is_admitted_silently() {
    let (recorder, log) = recorder(None);
    let mut runs = DiagnosticRuns::new();
    runs.open(recorder);
    let mut acts = ActRegistry::new();
    let mut registry = ActSinkRegistry::new();
    let mut authorities = ActAuthorities::new();
    let calls = Rc::new(RefCell::new(Vec::new()));
    let mut resources = Resources { calls: calls.clone(), fail: None };
    let mut run = |request: ActRequest| {
        request.admit_without_sink(
            &RuntimeProducerRegistry::new(),
            &mut registry,
            &mut acts,
            &mut authorities,
            &mut runs,
            &mut resources,
        )
    };
    assert_eq!(run(request()), Ok(()));
    assert!(calls.borrow().is_empty());
    let mut unknown = request();
    unknown.runtime_run = Some(0);
    assert_eq!(
        run(unknown),
        Err(AdmissionError::Failed {
            text: "Act diagnostic admission failed [act.cue-lineage-unavailable]".to_owned(),
        })
    );
    assert!(calls.borrow().is_empty());
    assert!(log.borrow().is_empty());
}

#[test]
fn an_act_without_its_capability_is_told_why() {
    assert_eq!(
        act_admission_path(false, true, true).describe().as_deref(),
        Some("Production diagnostics did not install its mandatory Act sink capability")
    );
    assert_eq!(act_admission_path(false, true, false).describe(), None);
}

#[test]
fn acts_without_a_production_are_named_and_belong_to_their_run() {
    let mut lineages = StandaloneLineages::new();
    let cue = StandaloneCue { scene_key: 1, actor_key: 2, cue_key: 3 };
    let lineage = lineages.resolve(cue).expect("name the cue");
    let scope = lineage.cue_scope.clone();
    let admission = standalone_act(4, Ok(lineage), Ok(session())).expect("the session is known");
    assert_eq!(admission.run, 4);
    assert_eq!(admission.cue_scope, scope);
    assert_eq!(admission.session, session());

    let lineage = lineages.resolve(cue);
    assert_eq!(
        standalone_act(4, lineage, Err("closed".to_owned())),
        Err(AdmissionError::Failed {
            text: "snapshot standalone diagnostic session: closed".to_owned()
        })
    );
    assert_eq!(
        standalone_act(4, Err("act.standalone-identifier-exhausted"), Ok(session())),
        Err(admission_state_error("act.standalone-identifier-exhausted"))
    );
    assert_eq!(
        standalone_error("no clock"),
        AdmissionError::Failed { text: "initialize standalone diagnostics: no clock".to_owned() }
    );
}

#[test]
fn a_capability_without_a_sink_admits_only_for_a_production() {
    for profile in [
        DiagnosticAdmissionProfile::SinkOnlyVolatile,
        DiagnosticAdmissionProfile::ProductionDurable,
    ] {
        let (recorder, log) = recorder(None);
        let mut runs = DiagnosticRuns::new();
        runs.open(recorder);
        let mut acts = ActRegistry::new();
        let mut registry = ActSinkRegistry::new();
        let mut authorities = ActAuthorities::new();
        let calls = Rc::new(RefCell::new(Vec::new()));
        let mut resources = Resources { calls: calls.clone(), fail: None };
        let mut asked = request();
        asked.profile = profile;
        asked.runtime_run = Some(0);
        let result = asked.take_act(
            None,
            None,
            &RuntimeProducerRegistry::new(),
            &mut registry,
            &mut acts,
            &mut authorities,
            &mut runs,
            &mut resources,
        );
        assert_eq!(result.is_ok(), profile == DiagnosticAdmissionProfile::SinkOnlyVolatile);
        assert!(calls.borrow().is_empty());
        assert!(log.borrow().is_empty());
    }
    let (recorder, _) = recorder(None);
    let mut runs = DiagnosticRuns::new();
    runs.open(recorder);
    let mut resources = Resources { calls: Rc::default(), fail: None };
    assert_eq!(
        request().take_act(
            Some(SinkRequest { state: "ODD".to_owned(), capture: everything() }),
            None,
            &RuntimeProducerRegistry::new(),
            &mut ActSinkRegistry::new(),
            &mut ActRegistry::new(),
            &mut ActAuthorities::new(),
            &mut runs,
            &mut resources,
        ),
        Err(AdmissionError::Failed {
            text: "diagnostic sink lifecycle state is corrupt".to_owned()
        })
    );
}

/// The runtime that sinks run in.
struct Sinks {
    calls: Vec<String>,
    fail: &'static [&'static str],
}

impl Sinks {
    fn take(&mut self, call: String) -> Result<(), ActSettlementError> {
        let failed = self.fail.iter().find(|failing| **failing == call).copied();
        self.calls.push(call);
        match failed {
            Some(code) => Err(ActSettlementError { code, message: "refused" }),
            None => Ok(()),
        }
    }
}

impl SinkRuntime for Sinks {
    fn told(&self) -> diagnostic_runtime::sink_binding::SinkRuntimeLog {
        unreachable!()
    }

    fn begin_runtime_shutdown(&mut self, sink_id: u64) -> Result<(), ActSettlementError> {
        self.take(format!("begin {sink_id}"))
    }

    fn shutdown(&mut self) {
        self.calls.push("shutdown".to_owned());
    }

    fn publish_latched_summary(&mut self, sink_id: u64) -> Result<(), ActSettlementError> {
        self.take(format!("publish {sink_id}"))
    }
}

#[test]
fn the_sinks_of_a_capability_go_with_it() {
    for (fail, latched) in [
        (&[][..], None),
        (&["publish 4"][..], Some("publish 4")),
        (&["begin 4", "publish 3"][..], Some("begin 4")),
    ] {
        let (recorder, log) = recorder(None);
        let mut runs = DiagnosticRuns::new();
        let run = runs.open(recorder);
        let mut capability = ActSinkAdmissionCapability::standalone(run);
        for (act_id, sink_id) in [("act-1", 3), ("act-2", 4)] {
            capability.registry.reserve(&id(act_id)).expect("the act is new");
            capability.registry.publish(act_id, ActSubscriber::Bound { sink_id });
        }
        capability.registry.reserve(&id("act-3")).expect("the act is new");
        let mut sinks = Sinks { calls: Vec::new(), fail };
        capability.retire(&RuntimeProducerRegistry::new(), &mut runs, &mut sinks);
        assert_eq!(
            sinks.calls,
            ["begin 3", "begin 4", "shutdown", "publish 3", "publish 4"]
        );
        assert_eq!(failure_code(&runs.runs[run]).as_deref(), latched);
        assert!(log.borrow().is_empty());
    }
}
