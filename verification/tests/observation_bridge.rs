use diagnostic_runtime::context::{HubAdmissionError, HubRefusal, SpanEventAdmission, TimeError};
#[allow(unused_imports)]
use diagnostic_runtime::event::{
    CausalLink, CausalRelation, CounterKind, DiagnosticScope, ErrorCode, EventBody, EventCandidate,
    InstantKind, RunLocalId, SpanKind, SpanOutcome,
};
#[allow(unused_imports)]
use diagnostic_runtime::run::{DiagnosticRun, DiagnosticRuns, RuntimeProducerError};
use std::cell::{Cell, RefCell};
use std::rc::Rc;
use diagnostic_runtime::act_producer::ActHook;
use diagnostic_runtime::act_registry::{ActRegistry, AgentTurnControl, AgentTurnObservation};
use diagnostic_runtime::agent::{
    AgentSessionDiagnosticContext, AgentSessionDiagnosticMetadata, AgentTurnDiagnosticIdentity,
    AgentTurnDiagnosticMetadata, AgentTurnDiagnosticOutcome, AgentTurnDiagnosticSettlement,
};
use diagnostic_runtime::cue_producer::CueLineageSnapshot;
use diagnostic_runtime::event::{AgentPlanEntry, ResultTransitionDetail};
use diagnostic_runtime::observation_bridge::{
    AgentCandidate, AgentDiagnosticObservation, CanonicalObservationBridge, ContextOccupancy,
    CostCandidate, ObservationDisposition, ObservationOwner, ResultCandidate, SessionNews,
};
use diagnostic_runtime::session_bridge::SessionNotice;
use diagnostic_runtime::sink_projection::{SinkOnlyToolPayload, ToolPayloadSource};
use diagnostic_runtime::turn_bridge::{
    thinking_terminal, tool_terminal, MessageDelta, PendingToolPayload, SourceGap, ThinkingPhase,
    ToolFinished, ToolMetadata, ToolOutcome, TurnCandidate, TurnPorts, TurnRequest,
};
use std::collections::VecDeque;

#[derive(Debug, PartialEq)]
enum Seen {
    Started { kind: SpanKind, parent: Option<u64> },
    Finished { span_id: u64, outcome: SpanOutcome, code: Option<String> },
    Instant { kind: InstantKind, containing: Option<u64> },
    Counter { kind: CounterKind, value: u64 },
    Gap { producer: &'static str, reason: &'static str },
    CustomStarted { name: String, parent: Option<u64> },
    CustomFinished { span_id: u64, outcome: SpanOutcome },
    CustomInstant { name: String, containing: Option<u64> },
    Other,
}

#[allow(dead_code)]
struct Fact {
    sequence: u64,
    elapsed_ns: u64,
    scope: DiagnosticScope,
    cause: Option<CausalLink>,
    seen: Seen,
    unheard: bool,
    text: String,
}

type Log = Rc<RefCell<Vec<Fact>>>;

/// A hub that numbers events from 1, and refuses the attempt that it is told to.
struct Recorder {
    log: Log,
    attempts: usize,
    fail_on_attempt: Option<usize>,
    clock: u64,
    /// The subscribers of acts hear of its events.
    heard: Rc<Cell<bool>>,
}

impl SpanEventAdmission for Recorder {
    fn told(&self) -> diagnostic_runtime::context::AdmissionLog {
        unreachable!()
    }

    fn hub(&self) -> diagnostic_runtime::context::HubIdentity {
        unreachable!()
    }

    fn share(&self) -> Self {
        Recorder {
            log: self.log.clone(),
            attempts: self.attempts,
            fail_on_attempt: self.fail_on_attempt,
            clock: self.clock,
            heard: self.heard.clone(),
        }
    }

    fn install_act_subscribers(&mut self) -> Result<(), String> {
        if self.heard.replace(true) {
            Err("Act subscribers are already installed".to_owned())
        } else {
            Ok(())
        }
    }

    fn elapsed_now(&mut self) -> Result<u64, TimeError> {
        self.clock += 10;
        Ok(self.clock)
    }

    fn admit_event(
        &mut self,
        elapsed_ns: u64,
        candidate: &EventCandidate,
    ) -> Result<u64, HubAdmissionError> {
        self.attempts += 1;
        if self.fail_on_attempt == Some(self.attempts) {
            return Err(HubAdmissionError {
                refusal: HubRefusal::Reservation,
                message: "injected diagnostic admission failure".to_owned(),
            });
        }
        let sequence = self.log.borrow().len() as u64 + 1;
        let seen = match &candidate.body {
            EventBody::SpanStarted { detail, parent_span_id } => {
                Seen::Started { kind: detail.kind(), parent: *parent_span_id }
            }
            EventBody::SpanFinished { span_id, outcome, error_code } => Seen::Finished {
                span_id: *span_id,
                outcome: *outcome,
                code: error_code.as_ref().map(|code| match code {
                    ErrorCode::Stable(code) => (*code).to_owned(),
                    ErrorCode::Reported(code) => code.clone(),
                }),
            },
            EventBody::InstantOccurred { instant, containing_span_id } => {
                Seen::Instant { kind: instant.kind(), containing: *containing_span_id }
            }
            EventBody::CounterSampled { kind, value } => {
                Seen::Counter { kind: *kind, value: *value }
            }
            EventBody::ObservationGap(gap) => {
                Seen::Gap { producer: gap.producer, reason: gap.reason }
            }
            EventBody::CustomSpanStarted { name, parent_id, .. } => {
                Seen::CustomStarted { name: name.clone(), parent: *parent_id }
            }
            EventBody::CustomSpanFinished { custom_span_id, custom_outcome } => {
                Seen::CustomFinished { span_id: *custom_span_id, outcome: *custom_outcome }
            }
            EventBody::CustomInstantOccurred { name, containing_id, .. } => {
                Seen::CustomInstant { name: name.clone(), containing: *containing_id }
            }
            _ => Seen::Other,
        };
        self.log.borrow_mut().push(Fact {
            sequence,
            elapsed_ns,
            scope: candidate.scope.clone(),
            cause: candidate.cause,
            seen,
            unheard: candidate.unheard,
            text: format!("{candidate:?}"),
        });
        Ok(sequence)
    }
}

fn recorder(fail_on_attempt: Option<usize>) -> (Recorder, Log) {
    let log: Log = Rc::new(RefCell::new(Vec::new()));
    (Recorder { log: log.clone(), attempts: 0, fail_on_attempt, clock: 0, heard: Rc::default() }, log)
}

#[allow(dead_code)]
fn failure_code(run: &DiagnosticRun<Recorder>) -> Option<String> {
    run.failure().map(|failure| failure.code().to_owned())
}

#[allow(dead_code)]
fn assert_start(log: &Log, index: usize, kind: SpanKind, parent: Option<u64>) {
    let facts = log.borrow();
    assert_eq!(facts[index].sequence, index as u64 + 1);
    assert_eq!(facts[index].seen, Seen::Started { kind, parent });
}

#[allow(dead_code)]
fn assert_finish(
    log: &Log,
    index: usize,
    span_id: u64,
    outcome: SpanOutcome,
    error_code: Option<&str>,
) {
    let facts = log.borrow();
    assert_eq!(facts[index].sequence, index as u64 + 1);
    assert_eq!(
        facts[index].seen,
        Seen::Finished { span_id, outcome, code: error_code.map(str::to_owned) }
    );
}

#[allow(dead_code)]
fn assert_instant(log: &Log, index: usize, kind: InstantKind, containing: Option<u64>) {
    let facts = log.borrow();
    assert_eq!(facts[index].sequence, index as u64 + 1);
    assert_eq!(facts[index].seen, Seen::Instant { kind, containing });
}

#[allow(dead_code)]
fn assert_cause(log: &Log, index: usize, sequence: u64, relation: CausalRelation) {
    assert_eq!(log.borrow()[index].cause, Some(CausalLink { sequence, relation }));
}


/// Every fact refers only to spans that have begun and to facts that came before it.
#[allow(dead_code)]
fn assert_facts_refer_back(log: &Log) {
    let facts = log.borrow();
    let mut begun: Vec<u64> = Vec::new();
    for fact in facts.iter() {
        let (within, ended) = match &fact.seen {
            Seen::Started { parent, .. } | Seen::CustomStarted { parent, .. } => (*parent, None),
            Seen::Instant { containing, .. } | Seen::CustomInstant { containing, .. } => {
                (*containing, None)
            }
            Seen::Finished { span_id, .. } | Seen::CustomFinished { span_id, .. } => {
                (None, Some(*span_id))
            }
            _ => (None, None),
        };
        assert!(within.is_none_or(|span_id| begun.contains(&span_id)), "{}", fact.text);
        assert!(ended.is_none_or(|span_id| begun.contains(&span_id)), "{}", fact.text);
        assert!(fact.cause.is_none_or(|cause| cause.sequence < fact.sequence), "{}", fact.text);
        if matches!(fact.seen, Seen::Started { .. } | Seen::CustomStarted { .. }) {
            begun.push(fact.sequence);
        }
    }
}

const CONTROL: usize = 70;

fn id(text: &str) -> RunLocalId {
    RunLocalId { text: text.to_owned() }
}

fn session_metadata(generation: Option<u64>) -> AgentSessionDiagnosticMetadata {
    AgentSessionDiagnosticMetadata {
        context: AgentSessionDiagnosticContext {
            actor_id: "actor-1".to_owned(),
            session_id: "session-1".to_owned(),
        },
        provider: "acme".to_owned(),
        generation,
        requested_model: "default".to_owned(),
        requested_effort: Some("high".to_owned()),
        effective_model: None,
        effective_effort: None,
    }
}

fn notice(generation: Option<u64>) -> SessionNotice {
    SessionNotice { metadata: session_metadata(generation), actor_id_valid: true }
}

/// What normalizers answer, and what sinks are handed.
struct Ports {
    answers: VecDeque<Result<Vec<TurnCandidate>, &'static str>>,
    requests: Rc<RefCell<Vec<TurnRequest>>>,
    payloads: Rc<RefCell<Vec<(String, String)>>>,
}

impl TurnPorts for Ports {
    fn told(&self) -> diagnostic_runtime::turn_bridge::TurnLog {
        unreachable!()
    }

    fn normalize(
        &mut self,
        request: TurnRequest,
        _act_id: &str,
        _elapsed_ns: u64,
    ) -> Result<Vec<TurnCandidate>, &'static str> {
        self.requests.borrow_mut().push(request);
        match request {
            TurnRequest::MessageChunk | TurnRequest::Thinking | TurnRequest::Tool => {
                self.answers.pop_front().unwrap_or(Ok(Vec::new()))
            }
            _ => Ok(Vec::new()),
        }
    }

    fn deliver_tool_payload(
        &mut self,
        act_id: &str,
        canonical_tool_call_id: &str,
        _payload: PendingToolPayload,
    ) {
        self.payloads.borrow_mut().push((act_id.to_owned(), canonical_tool_call_id.to_owned()));
    }
}

struct Stage {
    bridge: CanonicalObservationBridge<Ports>,
    acts: ActRegistry,
    runs: DiagnosticRuns<Recorder>,
    log: Log,
    requests: Rc<RefCell<Vec<TurnRequest>>>,
    payloads: Rc<RefCell<Vec<(String, String)>>>,
}

impl Stage {
    fn new() -> Self {
        let (recorder, log) = recorder(None);
        let mut runs = DiagnosticRuns::new();
        runs.open(recorder);
        let requests = Rc::new(RefCell::new(Vec::new()));
        let payloads = Rc::new(RefCell::new(Vec::new()));
        let ports = Ports {
            answers: VecDeque::new(),
            requests: requests.clone(),
            payloads: payloads.clone(),
        };
        Stage {
            bridge: CanonicalObservationBridge::new(0, ports, true),
            acts: ActRegistry::new(),
            runs,
            log,
            requests,
            payloads,
        }
    }

    fn tell(
        &mut self,
        observation: AgentDiagnosticObservation,
    ) -> Result<ObservationDisposition, &'static str> {
        self.bridge.observe(&mut self.acts, &mut self.runs, observation)
    }

    fn session(&mut self, news: SessionNews) -> Result<ObservationDisposition, &'static str> {
        self.tell(AgentDiagnosticObservation::Session(news))
    }

    fn candidate(
        &mut self,
        candidate: AgentCandidate,
    ) -> Result<ObservationDisposition, &'static str> {
        self.tell(AgentDiagnosticObservation::Candidate(candidate))
    }

    /// An act whose turn has begun (events 1 to 8).
    fn turn(&mut self) -> AgentTurnDiagnosticMetadata {
        let cue_scope = DiagnosticScope {
            scene_id: Some(id("scene-1")),
            actor_id: Some(id("actor-1")),
            cue_id: Some(id("cue-1")),
            effect_id: None,
            act_id: None,
            tool_call_id: None,
            session_generation: None,
        };
        self.acts.admitted(
            &mut self.runs,
            Some(0),
            Some(CueLineageSnapshot { run: 0, cue_scope, containing_span_id: 1 }),
            &AgentTurnControl { key: CONTROL, session: Some(session_metadata(Some(3))) },
        );
        self.acts.observe(&mut self.runs, CONTROL, ActHook::DriverStarted);
        let identity = self.acts.diagnostic_identity(CONTROL).expect("the act is known");
        let submitted = || AgentTurnDiagnosticMetadata {
            identity: identity.clone(),
            provider: "acme".to_owned(),
            session_generation: 3,
            effective_model: "large".to_owned(),
            effective_effort: None,
        };
        self.tell(AgentDiagnosticObservation::Turn(AgentTurnObservation::Submitted {
            metadata: submitted(),
        }))
        .expect("the turn begins");
        assert_eq!(self.log.borrow().len(), 8);
        submitted()
    }

    fn answer(&mut self, candidates: Vec<TurnCandidate>) {
        self.bridge.ports.ports.answers.push_back(Ok(candidates));
    }

    fn seen_from(&self, index: usize) -> Vec<String> {
        self.log.borrow()[index..].iter().map(|fact| format!("{:?}", fact.seen)).collect()
    }
}

fn again(turn: &AgentTurnDiagnosticMetadata) -> AgentTurnDiagnosticMetadata {
    AgentTurnDiagnosticMetadata {
        identity: AgentTurnDiagnosticIdentity {
            context: turn.identity.context.clone(),
            act_id: turn.identity.act_id.clone(),
            turn_id: turn.identity.turn_id.clone(),
        },
        provider: turn.provider.clone(),
        session_generation: turn.session_generation,
        effective_model: turn.effective_model.clone(),
        effective_effort: turn.effective_effort.clone(),
    }
}

fn tool(status: &str) -> ToolMetadata {
    ToolMetadata {
        source_tool_call_id: "call-a".to_owned(),
        title: "List files".to_owned(),
        tool_kind: "read".to_owned(),
        status: status.to_owned(),
    }
}

fn ended(turn: &AgentTurnDiagnosticMetadata) -> AgentDiagnosticObservation {
    AgentDiagnosticObservation::Turn(AgentTurnObservation::Terminal {
        metadata: again(turn),
        settlement: AgentTurnDiagnosticSettlement::Authoritative,
        outcome: AgentTurnDiagnosticOutcome::Completed,
        error_code: None,
    })
}

fn instant(kind: InstantKind, containing: u64) -> String {
    format!("{:?}", Seen::Instant { kind, containing: Some(containing) })
}

fn started(kind: SpanKind, parent: Option<u64>) -> String {
    format!("{:?}", Seen::Started { kind, parent })
}

fn finished(span_id: u64, outcome: SpanOutcome, code: Option<&str>) -> String {
    format!("{:?}", Seen::Finished { span_id, outcome, code: code.map(str::to_owned) })
}

#[test]
fn a_session_opens_and_closes_within_its_span() {
    let mut stage = Stage::new();
    for news in [
        SessionNews::Opening(notice(None)),
        SessionNews::OpeningAttempt(notice(Some(1))),
        SessionNews::OpeningAttempt(notice(Some(2))),
        SessionNews::Ready(notice(Some(2))),
        SessionNews::Closing(notice(Some(2))),
        SessionNews::Closed(notice(Some(2))),
    ] {
        stage.session(news).expect("the session moves on");
    }
    assert_eq!(
        stage.seen_from(0),
        [
            started(SpanKind::AgentSessionLifecycle, None),
            started(SpanKind::AgentSessionOpening, Some(1)),
            finished(2, SpanOutcome::Failed, Some("agent-session-opening-retried")),
            started(SpanKind::AgentSessionOpening, Some(1)),
            instant(InstantKind::AgentSessionReady, 4),
            finished(4, SpanOutcome::Completed, None),
            started(SpanKind::AgentSessionClosing, Some(1)),
            finished(7, SpanOutcome::Completed, None),
            finished(1, SpanOutcome::Completed, None),
        ]
    );
    assert!(stage.log.borrow()[0].text.contains("model: Some(\"default\")"));
    assert!(stage.log.borrow()[0].text.contains("effort: Some(\"high\")"));
    assert_facts_refer_back(&stage.log);
}

#[test]
fn a_session_that_closed_is_final() {
    let mut stage = Stage::new();
    stage.session(SessionNews::Opening(notice(None))).expect("the session opens");
    stage.session(SessionNews::OpeningAttempt(notice(Some(1)))).expect("it is attempted");
    assert_eq!(
        stage.session(SessionNews::OpeningAttempt(notice(Some(1)))),
        Err("observation_session_transition_invalid")
    );
    stage.session(SessionNews::Closing(notice(Some(1)))).expect("the session closes");
    stage.session(SessionNews::Closed(notice(Some(1)))).expect("the session closed");
    assert!(stage
        .seen_from(0)
        .contains(&finished(2, SpanOutcome::Failed, Some("agent-session-opening-abandoned"))));
    let reported = stage.log.borrow().len();
    for news in [
        SessionNews::OpeningAttempt(notice(Some(9))),
        SessionNews::Ready(notice(Some(9))),
        SessionNews::Broken { broken: notice(Some(9)), error_code: "late" },
        SessionNews::Closing(notice(Some(9))),
    ] {
        assert!(stage.session(news).is_err());
    }
    assert_eq!(stage.log.borrow().len(), reported);
}

#[test]
fn a_broken_session_stays_broken() {
    let mut stage = Stage::new();
    stage.session(SessionNews::Opening(notice(None))).expect("the session opens");
    stage.session(SessionNews::OpeningAttempt(notice(Some(1)))).expect("it is attempted");
    stage
        .session(SessionNews::Broken { broken: notice(Some(1)), error_code: "agent-crashed" })
        .expect("the session breaks");
    assert_eq!(stage.seen_from(2), [instant(InstantKind::AgentSessionBroken, 2)]);
    assert_eq!(
        stage.session(SessionNews::Broken { broken: notice(Some(1)), error_code: "again" }),
        Err("observation_session_transition_invalid")
    );
    stage.session(SessionNews::Closing(notice(Some(1)))).expect("it closes");
    stage.session(SessionNews::Closed(notice(Some(1)))).expect("it closed");
    assert!(stage
        .seen_from(0)
        .contains(&finished(2, SpanOutcome::Failed, Some("agent-crashed"))));
    assert_eq!(
        stage.seen_from(0).last(),
        Some(&finished(1, SpanOutcome::Failed, Some("agent-crashed")))
    );
}

#[test]
fn a_session_of_nobody_is_refused() {
    let mut stage = Stage::new();
    let mut nameless = notice(None);
    nameless.actor_id_valid = false;
    assert_eq!(
        stage.session(SessionNews::Opening(nameless)),
        Err("observation_identifier_invalid")
    );
    assert!(stage.log.borrow().is_empty());
}

#[test]
fn messages_tools_and_thoughts_of_a_turn_are_reported() {
    let mut stage = Stage::new();
    let turn = stage.turn();
    stage.answer(vec![TurnCandidate::MessageDelta(MessageDelta {
        message_id: "message-1".to_owned(),
        source_message_id: None,
        text_delta: "hello".to_owned(),
        elapsed_ns: 5,
    })]);
    assert_eq!(
        stage.candidate(AgentCandidate::MessageChunk { turn: again(&turn) }),
        Ok(ObservationDisposition::Admitted)
    );
    stage.answer(vec![TurnCandidate::Thinking { phase: ThinkingPhase::Start, thinking_ns: 6 }]);
    stage.candidate(AgentCandidate::Thinking { turn: again(&turn) }).expect("thinking starts");
    stage.answer(vec![TurnCandidate::Thinking { phase: ThinkingPhase::Finish, thinking_ns: 7 }]);
    stage.candidate(AgentCandidate::Thinking { turn: again(&turn) }).expect("thinking ends");
    stage.answer(vec![TurnCandidate::ToolStarted { started: tool("pending"), started_ns: 8 }]);
    stage.candidate(AgentCandidate::Tool { turn: again(&turn) }).expect("a tool starts");
    stage.answer(vec![TurnCandidate::ToolUpdated { updated: tool("running"), updated_ns: 9 }]);
    stage.candidate(AgentCandidate::Tool { turn: again(&turn) }).expect("it goes on");
    stage.answer(vec![TurnCandidate::ToolFinished(ToolFinished {
        source_tool_call_id: "call-a".to_owned(),
        outcome: ToolOutcome::Completed,
        error_code: None,
        elapsed_ns: 10,
    })]);
    stage.candidate(AgentCandidate::Tool { turn: again(&turn) }).expect("it ends");
    assert_eq!(
        stage.seen_from(8),
        [
            "Other".to_owned(),
            started(SpanKind::AgentThinking, Some(6)),
            finished(10, SpanOutcome::Completed, None),
            started(SpanKind::ToolCall, Some(6)),
            instant(InstantKind::ToolUpdated, 12),
            finished(12, SpanOutcome::Completed, None),
        ]
    );
    let log = stage.log.borrow();
    assert!(log[8].text.contains("text_delta: \"hello\""));
    assert_eq!(log[11].scope.tool_call_id, Some(id("tool-1")));
    for index in 9..14 {
        assert_eq!(log[index].cause.map(|cause| cause.sequence), Some(index as u64));
    }
    drop(log);
    assert_facts_refer_back(&stage.log);

    stage.answer(vec![TurnCandidate::ToolUpdated { updated: tool("late"), updated_ns: 11 }]);
    assert_eq!(
        stage.candidate(AgentCandidate::Tool { turn: again(&turn) }),
        Err("observation_tool_transition_invalid")
    );
}

#[test]
fn gaps_of_a_turn_are_told() {
    let mut stage = Stage::new();
    let turn = stage.turn();
    stage.answer(vec![TurnCandidate::MessageGap(SourceGap {
        reason: "message-dropped",
        source_tool_call_id: None,
        elapsed_ns: 5,
    })]);
    stage.candidate(AgentCandidate::MessageChunk { turn: again(&turn) }).expect("a gap");
    stage.answer(vec![TurnCandidate::ToolGap(SourceGap {
        reason: "tool-dropped",
        source_tool_call_id: None,
        elapsed_ns: 6,
    })]);
    stage.candidate(AgentCandidate::Tool { turn: again(&turn) }).expect("another gap");
    assert_eq!(
        stage.seen_from(8),
        [
            format!("{:?}", Seen::Gap { producer: "agent.message", reason: "message-dropped" }),
            format!("{:?}", Seen::Gap { producer: "agent.tool", reason: "tool-dropped" }),
        ]
    );
}

#[test]
fn payloads_of_tools_reach_their_sinks() {
    let mut stage = Stage::new();
    let turn = stage.turn();
    let payload = PendingToolPayload {
        tool_call_id: "call-a".to_owned(),
        payload: SinkOnlyToolPayload {
            source: ToolPayloadSource::Started,
            input: None,
            output: None,
        },
    };
    assert_eq!(
        stage.candidate(AgentCandidate::ToolPayload { turn: again(&turn), payload }),
        Ok(ObservationDisposition::SinkOnlyPayload)
    );
    assert!(stage.payloads.borrow().is_empty());
    stage.answer(vec![TurnCandidate::ToolStarted { started: tool("pending"), started_ns: 8 }]);
    stage.candidate(AgentCandidate::Tool { turn: again(&turn) }).expect("a tool starts");
    assert_eq!(*stage.payloads.borrow(), [("act-1".to_owned(), "tool-1".to_owned())]);
}

#[test]
fn a_turn_that_ends_winds_up_what_is_open() {
    let mut stage = Stage::new();
    let turn = stage.turn();
    stage.answer(vec![TurnCandidate::Thinking { phase: ThinkingPhase::Start, thinking_ns: 6 }]);
    stage.candidate(AgentCandidate::Thinking { turn: again(&turn) }).expect("thinking starts");
    stage.tell(ended(&turn)).expect("the turn ends");
    let requests = stage.requests.borrow().clone();
    assert_eq!(
        requests[requests.len() - 3..],
        [TurnRequest::MessagesEnd, TurnRequest::ThinkingEnds, TurnRequest::ToolsEnd]
    );
    assert!(stage.seen_from(9).contains(&instant(InstantKind::AgentTurnTerminal, 6)));
}

#[test]
fn plans_contexts_costs_and_results_are_reported() {
    let mut stage = Stage::new();
    let turn = stage.turn();
    let owner = || ObservationOwner::Turn(again(&turn));
    stage
        .candidate(AgentCandidate::Plan {
            owner: owner(),
            entries: vec![AgentPlanEntry {
                content: "look around".to_owned(),
                status: "pending".to_owned(),
                priority: "high".to_owned(),
            }],
            truncated: false,
        })
        .expect("a plan");
    stage
        .candidate(AgentCandidate::Occupancy {
            owner: owner(),
            occupancy: ContextOccupancy { used_tokens: Some(10), window_tokens: Some(100) },
        })
        .expect("an occupancy");
    stage
        .candidate(AgentCandidate::Cost(CostCandidate {
            session: session_metadata(Some(3)).context,
            actor_id_valid: true,
            session_generation: Some(3),
            amount: "0.25".to_owned(),
            currency: "EUR".to_owned(),
        }))
        .expect("a cost");
    let result = |kind| AgentCandidate::Result {
        identity: again(&turn).identity,
        session_generation: 3,
        result: kind,
    };
    stage
        .candidate(result(ResultCandidate::Transition {
            kind: InstantKind::ResultSubmitted,
            detail: ResultTransitionDetail { description: "first".to_owned() },
        }))
        .expect("a result");
    stage
        .candidate(result(ResultCandidate::Transition {
            kind: InstantKind::ResultRejected,
            detail: ResultTransitionDetail { description: "no".to_owned() },
        }))
        .expect("a rejection");
    stage
        .candidate(result(ResultCandidate::Rejections {
            counter: CounterKind::ResultValidationRejections,
            value: 1,
        }))
        .expect("a count");
    let log = stage.log.borrow();
    assert!(log[8].text.contains("look around"));
    assert!(log[9].text.contains("used_tokens: Some(10)"));
    assert!(log[9].text.contains("origin: Provider"));
    assert!(log[10].text.contains("cost_amount: Some(\"0.25\")"));
    assert!(log[10].text.contains("used_tokens: Some(10)"));
    assert!(log[10].text.contains("origin: CarriedForward"));
    assert_eq!(
        log[11].seen,
        Seen::Instant { kind: InstantKind::ResultSubmitted, containing: Some(6) }
    );
    assert_eq!(
        log[13].seen,
        Seen::Counter { kind: CounterKind::ResultValidationRejections, value: 1 }
    );
    drop(log);
    assert_eq!(
        stage.candidate(result(ResultCandidate::Neither)),
        Err("observation_result_transition_invalid")
    );
    assert_eq!(
        stage.candidate(AgentCandidate::Unsupported),
        Err("observation_candidate_unsupported")
    );
    assert_eq!(
        stage.candidate(AgentCandidate::TurnUsage),
        Ok(ObservationDisposition::DeferredUsage)
    );
}

#[test]
fn an_act_that_is_not_under_way_has_no_turn() {
    let mut stage = Stage::new();
    let turn = stage.turn();
    let mut other = again(&turn);
    other.identity.act_id = "act-9".to_owned();
    assert_eq!(
        stage.candidate(AgentCandidate::MessageChunk { turn: other }),
        Err("observation_act_lineage_unavailable")
    );
    let mut strange = again(&turn);
    strange.identity.turn_id = "turn-9".to_owned();
    stage
        .candidate(AgentCandidate::MessageChunk { turn: again(&turn) })
        .expect("the turn is heard");
    assert_eq!(
        stage.candidate(AgentCandidate::MessageChunk { turn: strange }),
        Err("observation_turn_identity_mismatch")
    );
}

#[test]
fn ends_of_tools_and_thoughts_have_their_codes() {
    assert_eq!(tool_terminal(ToolOutcome::Completed), (SpanOutcome::Completed, None));
    assert_eq!(tool_terminal(ToolOutcome::Failed), (SpanOutcome::Failed, Some("tool_failed")));
    assert_eq!(
        tool_terminal(ToolOutcome::Cancelled),
        (SpanOutcome::Cancelled, Some("tool_cancelled"))
    );
    assert_eq!(thinking_terminal(None), (SpanOutcome::Completed, None));
    assert_eq!(
        thinking_terminal(Some(AgentTurnDiagnosticOutcome::Cancelled)),
        (SpanOutcome::Cancelled, Some("agent-thinking-cancelled"))
    );
    assert_eq!(
        thinking_terminal(Some(AgentTurnDiagnosticOutcome::Failed)),
        (SpanOutcome::Failed, Some("agent-thinking-failed"))
    );
}
