use diagnostic_runtime::context::{HubAdmissionError, HubRefusal, SpanEventAdmission, TimeError};
#[allow(unused_imports)]
use diagnostic_runtime::event::{
    CausalLink, CausalRelation, CounterKind, DiagnosticScope, ErrorCode, EventBody, EventCandidate,
    InstantKind, RunLocalId, SpanKind, SpanOutcome,
};
#[allow(unused_imports)]
use diagnostic_runtime::run::{DiagnosticRun, DiagnosticRuns, RuntimeProducerError};
use std::cell::{Cell, RefCell};
use std::rc::Rc;
use diagnostic_runtime::act_producer::{
    act_terminal, caller_terminal, scope_for_act, terminal_detail_is_valid, ActCallerExit, ActHook,
};
use diagnostic_runtime::act_registry::{
    ActRegistry, AgentTurnControl, AgentTurnObservation, StandaloneActAdmission,
};
use diagnostic_runtime::agent::{
    AgentSessionDiagnosticContext, AgentSessionDiagnosticMetadata, AgentTurnDiagnosticIdentity,
    AgentTurnDiagnosticMetadata, AgentTurnDiagnosticOutcome, AgentTurnDiagnosticSettlement,
};
use diagnostic_runtime::cue_producer::CueLineageSnapshot;
use diagnostic_runtime::event::TerminalSpan;
use diagnostic_runtime::python_error::ErrorClass;
use diagnostic_runtime::usage_finalization::{
    install_usage_finalization_bridge, usage_finalization_bridge, usage_finalization_bridge_slot,
    UsageFinalizationBridge, UsageFinalizationIdentity, UsageFinalizationSettlement,
};
use pyo3::exceptions::{PyRuntimeError, PyStopIteration};
use pyo3::Python;

#[derive(Debug, PartialEq)]
enum Seen {
    Started { kind: SpanKind, parent: Option<u64> },
    Finished { span_id: u64, outcome: SpanOutcome, code: Option<String> },
    Instant { kind: InstantKind, containing: Option<u64> },
    Counter { kind: CounterKind, value: u64 },
    Gap { producer: &'static str, reason: &'static str },
    CustomStarted { name: String, parent: Option<u64> },
    CustomFinished { span_id: u64, outcome: SpanOutcome },
    CustomInstant { name: String, containing: Option<u64> },
    Other,
}

#[allow(dead_code)]
struct Fact {
    sequence: u64,
    elapsed_ns: u64,
    scope: DiagnosticScope,
    cause: Option<CausalLink>,
    seen: Seen,
    unheard: bool,
    text: String,
}

type Log = Rc<RefCell<Vec<Fact>>>;

/// A hub that numbers events from 1, and refuses the attempt that it is told to.
struct Recorder {
    log: Log,
    attempts: usize,
    fail_on_attempt: Option<usize>,
    clock: u64,
    /// The subscribers of acts hear of its events.
    heard: Rc<Cell<bool>>,
}

impl SpanEventAdmission for Recorder {
    fn told(&self) -> diagnostic_runtime::context::AdmissionLog {
        unreachable!()
    }

    fn hub(&self) -> diagnostic_runtime::context::HubIdentity {
        unreachable!()
    }

    fn share(&self) -> Self {
        Recorder {
            log: self.log.clone(),
            attempts: self.attempts,
            fail_on_attempt: self.fail_on_attempt,
            clock: self.clock,
            heard: self.heard.clone(),
        }
    }

    fn install_act_subscribers(&mut self) -> Result<(), String> {
        if self.heard.replace(true) {
            Err("Act subscribers are already installed".to_owned())
        } else {
            Ok(())
        }
    }

    fn elapsed_now(&mut self) -> Result<u64, TimeError> {
        self.clock += 10;
        Ok(self.clock)
    }

    fn admit_event(
        &mut self,
        elapsed_ns: u64,
        candidate: &EventCandidate,
    ) -> Result<u64, HubAdmissionError> {
        self.attempts += 1;
        if self.fail_on_attempt == Some(self.attempts) {
            return Err(HubAdmissionError {
                refusal: HubRefusal::Reservation,
                message: "injected diagnostic admission failure".to_owned(),
            });
        }
        let sequence = self.log.borrow().len() as u64 + 1;
        let seen = match &candidate.body {
            EventBody::SpanStarted { detail, parent_span_id } => {
                Seen::Started { kind: detail.kind(), parent: *parent_span_id }
            }
            EventBody::SpanFinished { span_id, outcome, error_code } => Seen::Finished {
                span_id: *span_id,
                outcome: *outcome,
                code: error_code.as_ref().map(|code| match code {
                    ErrorCode::Stable(code) => (*code).to_owned(),
                    ErrorCode::Reported(code) => code.clone(),
                }),
            },
            EventBody::InstantOccurred { instant, containing_span_id } => {
                Seen::Instant { kind: instant.kind(), containing: *containing_span_id }
            }
            EventBody::CounterSampled { kind, value } => {
                Seen::Counter { kind: *kind, value: *value }
            }
            EventBody::ObservationGap(gap) => {
                Seen::Gap { producer: gap.producer, reason: gap.reason }
            }
            EventBody::CustomSpanStarted { name, parent_id, .. } => {
                Seen::CustomStarted { name: name.clone(), parent: *parent_id }
            }
            EventBody::CustomSpanFinished { custom_span_id, custom_outcome } => {
                Seen::CustomFinished { span_id: *custom_span_id, outcome: *custom_outcome }
            }
            EventBody::CustomInstantOccurred { name, containing_id, .. } => {
                Seen::CustomInstant { name: name.clone(), containing: *containing_id }
            }
            _ => Seen::Other,
        };
        self.log.borrow_mut().push(Fact {
            sequence,
            elapsed_ns,
            scope: candidate.scope.clone(),
            cause: candidate.cause,
            seen,
            unheard: candidate.unheard,
            text: format!("{candidate:?}"),
        });
        Ok(sequence)
    }
}

fn recorder(fail_on_attempt: Option<usize>) -> (Recorder, Log) {
    let log: Log = Rc::new(RefCell::new(Vec::new()));
    (Recorder { log: log.clone(), attempts: 0, fail_on_attempt, clock: 0, heard: Rc::default() }, log)
}

#[allow(dead_code)]
fn failure_code(run: &DiagnosticRun<Recorder>) -> Option<String> {
    run.failure().map(|failure| failure.code().to_owned())
}

#[allow(dead_code)]
fn assert_start(log: &Log, index: usize, kind: SpanKind, parent: Option<u64>) {
    let facts = log.borrow();
    assert_eq!(facts[index].sequence, index as u64 + 1);
    assert_eq!(facts[index].seen, Seen::Started { kind, parent });
}

#[allow(dead_code)]
fn assert_finish(
    log: &Log,
    index: usize,
    span_id: u64,
    outcome: SpanOutcome,
    error_code: Option<&str>,
) {
    let facts = log.borrow();
    assert_eq!(facts[index].sequence, index as u64 + 1);
    assert_eq!(
        facts[index].seen,
        Seen::Finished { span_id, outcome, code: error_code.map(str::to_owned) }
    );
}

#[allow(dead_code)]
fn assert_instant(log: &Log, index: usize, kind: InstantKind, containing: Option<u64>) {
    let facts = log.borrow();
    assert_eq!(facts[index].sequence, index as u64 + 1);
    assert_eq!(facts[index].seen, Seen::Instant { kind, containing });
}

#[allow(dead_code)]
fn assert_cause(log: &Log, index: usize, sequence: u64, relation: CausalRelation) {
    assert_eq!(log.borrow()[index].cause, Some(CausalLink { sequence, relation }));
}


/// Every fact refers only to spans that have begun and to facts that came before it.
#[allow(dead_code)]
fn assert_facts_refer_back(log: &Log) {
    let facts = log.borrow();
    let mut begun: Vec<u64> = Vec::new();
    for fact in facts.iter() {
        let (within, ended) = match &fact.seen {
            Seen::Started { parent, .. } | Seen::CustomStarted { parent, .. } => (*parent, None),
            Seen::Instant { containing, .. } | Seen::CustomInstant { containing, .. } => {
                (*containing, None)
            }
            Seen::Finished { span_id, .. } | Seen::CustomFinished { span_id, .. } => {
                (None, Some(*span_id))
            }
            _ => (None, None),
        };
        assert!(within.is_none_or(|span_id| begun.contains(&span_id)), "{}", fact.text);
        assert!(ended.is_none_or(|span_id| begun.contains(&span_id)), "{}", fact.text);
        assert!(fact.cause.is_none_or(|cause| cause.sequence < fact.sequence), "{}", fact.text);
        if matches!(fact.seen, Seen::Started { .. } | Seen::CustomStarted { .. }) {
            begun.push(fact.sequence);
        }
    }
}

const CONTROL: usize = 70;

fn id(text: &str) -> RunLocalId {
    RunLocalId { text: text.to_owned() }
}

fn cue_scope() -> DiagnosticScope {
    DiagnosticScope {
        scene_id: Some(id("scene-1")),
        actor_id: Some(id("actor-1")),
        cue_id: Some(id("cue-1")),
        effect_id: None,
        act_id: None,
        tool_call_id: None,
        session_generation: None,
    }
}

fn session_context() -> AgentSessionDiagnosticContext {
    AgentSessionDiagnosticContext {
        actor_id: "actor-1".to_owned(),
        session_id: "session-1".to_owned(),
    }
}

fn session() -> AgentSessionDiagnosticMetadata {
    AgentSessionDiagnosticMetadata {
        context: session_context(),
        provider: "acme".to_owned(),
        generation: Some(3),
        requested_model: "default".to_owned(),
        requested_effort: None,
        effective_model: Some("large".to_owned()),
        effective_effort: None,
    }
}

fn control() -> AgentTurnControl {
    AgentTurnControl { key: CONTROL, session: Some(session()) }
}

fn turn(identity: &AgentTurnDiagnosticIdentity) -> AgentTurnDiagnosticMetadata {
    AgentTurnDiagnosticMetadata {
        identity: identity.clone(),
        provider: "acme".to_owned(),
        session_generation: 3,
        effective_model: "large".to_owned(),
        effective_effort: None,
    }
}

fn lineage() -> Option<CueLineageSnapshot> {
    Some(CueLineageSnapshot { run: 0, cue_scope: cue_scope(), containing_span_id: 1 })
}

struct Stage {
    acts: ActRegistry,
    runs: DiagnosticRuns<Recorder>,
    log: Log,
}

impl Stage {
    fn new(fail_on_attempt: Option<usize>) -> Self {
        let (recorder, log) = recorder(fail_on_attempt);
        let mut runs = DiagnosticRuns::new();
        runs.open(recorder);
        let mut acts = ActRegistry::new();
        acts.bridge = Some(UsageFinalizationBridge::new());
        Stage { acts, runs, log }
    }

    fn begin_act(&mut self) -> AgentTurnDiagnosticIdentity {
        self.acts.admitted(&mut self.runs, Some(0), lineage(), &control());
        self.acts.diagnostic_identity(CONTROL).expect("the act is known")
    }

    fn observe(&mut self, observation: AgentTurnObservation) {
        self.acts.observe_agent(&mut self.runs, &observation);
    }

    fn failure(&self) -> Option<String> {
        failure_code(&self.runs.runs[0])
    }

    fn seen_from(&self, index: usize) -> Vec<String> {
        self.log.borrow()[index..].iter().map(|fact| format!("{:?}", fact.seen)).collect()
    }

    /// Acknowledges the usage of the act that is under way.
    fn acknowledge(&mut self, act_id: &str, usage_sequence: u64) {
        let slot = self
            .acts
            .bridge
            .as_mut()
            .expect("a bridge is installed")
            .slots
            .pop()
            .expect("the act handed its slot over");
        assert_eq!(slot.act_id(), act_id);
        let usage = self.acts.usage_of(act_id).expect("the act is under way");
        let ack = slot.acknowledge(usage, usage_sequence).expect("the usage has settled");
        self.acts.usage_finalized(&mut self.runs, ack);
    }
}

fn instant(kind: InstantKind, containing: u64) -> String {
    format!("{:?}", Seen::Instant { kind, containing: Some(containing) })
}

fn started(kind: SpanKind, parent: Option<u64>) -> String {
    format!("{:?}", Seen::Started { kind, parent })
}

fn finished(span_id: u64, outcome: SpanOutcome, code: Option<&str>) -> String {
    format!("{:?}", Seen::Finished { span_id, outcome, code: code.map(str::to_owned) })
}

fn counter(kind: CounterKind, value: u64) -> String {
    format!("{:?}", Seen::Counter { kind, value })
}

#[test]
fn an_act_runs_from_its_admission_to_its_usage() {
    Python::initialize();
    let mut stage = Stage::new(None);
    let identity = stage.begin_act();
    assert_eq!(identity.act_id, "act-1");
    assert_eq!(identity.turn_id, "turn-1");
    stage.acts.observe(&mut stage.runs, CONTROL, ActHook::DriverStarted);
    stage.observe(AgentTurnObservation::Submitted { metadata: turn(&identity) });
    let returned = PyStopIteration::new_err(());
    stage.acts.caller_finished(
        &mut stage.runs,
        CONTROL,
        ActCallerExit::Returned,
        Some(&returned),
    );
    stage.observe(AgentTurnObservation::Terminal {
        metadata: turn(&identity),
        settlement: AgentTurnDiagnosticSettlement::Authoritative,
        outcome: AgentTurnDiagnosticOutcome::Completed,
        error_code: None,
    });
    assert_eq!(
        stage.seen_from(0),
        [
            started(SpanKind::ActLifecycle, None),
            started(SpanKind::ActCaller, Some(1)),
            instant(InstantKind::ActAdmitted, 1),
            instant(InstantKind::ActWaitingReady, 1),
            instant(InstantKind::ActPromptSubmitted, 1),
            started(SpanKind::AgentTurn, Some(1)),
            counter(CounterKind::AgentTurnActive, 1),
            instant(InstantKind::AgentTurnActivity, 6),
            finished(2, SpanOutcome::Completed, None),
            instant(InstantKind::AgentTurnTerminal, 6),
            instant(InstantKind::AgentTurnSettled, 6),
            finished(6, SpanOutcome::Completed, None),
            counter(CounterKind::AgentTurnActive, 0),
        ]
    );
    let bridge = stage.acts.bridge.as_ref().expect("a bridge is installed");
    assert_eq!(bridge.settled_acts, ["act-1"]);
    assert_facts_refer_back(&stage.log);
    stage.acknowledge("act-1", 99);
    assert_eq!(stage.seen_from(13), [finished(1, SpanOutcome::Completed, None)]);
    assert_cause(&stage.log, 13, 99, CausalRelation::FollowsFrom);
    assert!(stage.acts.producer_for_act("act-1").is_none());
    assert_eq!(stage.log.borrow()[5].scope.session_generation, Some(3));
    let (_, settled) = stage.acts.fetch_announced();
    assert_eq!(settled, ["act-1"]);
    let (slots, settled) = stage.acts.fetch_announced();
    assert!(slots.is_empty());
    assert!(settled.is_empty());
    assert_eq!(stage.failure(), None);
}

#[test]
fn an_act_that_was_never_submitted_ends_as_its_caller() {
    Python::initialize();
    let mut stage = Stage::new(None);
    let identity = stage.begin_act();
    let raised = PyRuntimeError::new_err("secret");
    stage.acts.caller_finished(
        &mut stage.runs,
        CONTROL,
        ActCallerExit::Returned,
        Some(&raised),
    );
    stage.observe(AgentTurnObservation::Terminal {
        metadata: turn(&identity),
        settlement: AgentTurnDiagnosticSettlement::NotSubmitted,
        outcome: AgentTurnDiagnosticOutcome::Cancelled,
        error_code: Some("not-submitted"),
    });
    stage.acknowledge("act-1", 50);
    assert_eq!(
        stage.seen_from(3),
        [
            finished(2, SpanOutcome::Failed, Some("act-caller-failed")),
            finished(1, SpanOutcome::Failed, Some("act-caller-failed")),
        ]
    );
    assert!(stage.log.borrow().iter().all(|fact| !fact.text.contains("secret")));
}

#[test]
fn a_handed_off_turn_ends_after_its_caller() {
    let mut stage = Stage::new(None);
    let identity = stage.begin_act();
    stage.acts.observe(&mut stage.runs, CONTROL, ActHook::DriverStarted);
    stage.observe(AgentTurnObservation::Submitted { metadata: turn(&identity) });
    stage.acts.observe(&mut stage.runs, CONTROL, ActHook::CancelRequested);
    stage.observe(AgentTurnObservation::SupervisorHandoff { metadata: turn(&identity) });
    stage.acts.caller_finished(&mut stage.runs, CONTROL, ActCallerExit::Cancelled, None);
    stage.observe(AgentTurnObservation::Terminal {
        metadata: turn(&identity),
        settlement: AgentTurnDiagnosticSettlement::Unknown,
        outcome: AgentTurnDiagnosticOutcome::Failed,
        error_code: Some("turn-lost"),
    });
    assert_facts_refer_back(&stage.log);
    stage.acknowledge("act-1", 60);
    assert_eq!(
        stage.seen_from(8),
        [
            instant(InstantKind::ActCancelRequested, 2),
            instant(InstantKind::ActSupervisorHandoff, 1),
            finished(2, SpanOutcome::Cancelled, Some("act-caller-cancelled")),
            instant(InstantKind::AgentTurnTerminal, 6),
            finished(6, SpanOutcome::Failed, Some("turn-lost")),
            counter(CounterKind::AgentTurnActive, 0),
            finished(1, SpanOutcome::Failed, Some("turn-lost")),
        ]
    );
    assert_eq!(stage.failure(), None);
}

#[test]
fn act_hooks_out_of_place_have_their_codes() {
    let other = |identity: &AgentTurnDiagnosticIdentity| {
        let mut metadata = turn(identity);
        metadata.identity.turn_id = "another".to_owned();
        metadata
    };
    let provider = |identity: &AgentTurnDiagnosticIdentity| {
        let mut metadata = turn(identity);
        metadata.provider = "another".to_owned();
        metadata
    };
    let generation = |identity: &AgentTurnDiagnosticIdentity| {
        let mut metadata = turn(identity);
        metadata.session_generation = 4;
        metadata
    };
    for (metadata, code) in [
        (other as fn(&AgentTurnDiagnosticIdentity) -> _, "act.turn-identity-mismatch"),
        (provider, "act.turn-provider-mismatch"),
        (generation, "act.turn-generation-mismatch"),
    ] {
        let mut stage = Stage::new(None);
        let identity = stage.begin_act();
        stage.acts.observe(&mut stage.runs, CONTROL, ActHook::DriverStarted);
        stage.observe(AgentTurnObservation::Submitted { metadata: metadata(&identity) });
        assert_eq!(stage.failure().as_deref(), Some(code));
    }

    let mut stage = Stage::new(None);
    let identity = stage.begin_act();
    stage.observe(AgentTurnObservation::Submitted { metadata: turn(&identity) });
    assert_eq!(stage.failure().as_deref(), Some("act.prompt-before-driver"));

    let mut stage = Stage::new(None);
    stage.begin_act();
    stage.acts.observe(&mut stage.runs, CONTROL, ActHook::DriverStarted);
    stage.acts.observe(&mut stage.runs, CONTROL, ActHook::DriverStarted);
    assert_eq!(stage.failure().as_deref(), Some("act.driver-transition-invalid"));

    let mut stage = Stage::new(None);
    let identity = stage.begin_act();
    stage.acts.observe(&mut stage.runs, CONTROL, ActHook::DriverStarted);
    stage.observe(AgentTurnObservation::SupervisorHandoff { metadata: turn(&identity) });
    assert_eq!(stage.failure().as_deref(), Some("act.handoff-before-turn"));

    let mut stage = Stage::new(None);
    let identity = stage.begin_act();
    stage.acts.observe(&mut stage.runs, CONTROL, ActHook::DriverStarted);
    stage.observe(AgentTurnObservation::Terminal {
        metadata: turn(&identity),
        settlement: AgentTurnDiagnosticSettlement::Unknown,
        outcome: AgentTurnDiagnosticOutcome::Failed,
        error_code: None,
    });
    assert_eq!(stage.failure().as_deref(), Some("act.turn-terminal-detail-invalid"));

    let mut stage = Stage::new(None);
    stage.begin_act();
    for _ in 0..2 {
        stage.acts.caller_finished(&mut stage.runs, CONTROL, ActCallerExit::Closed, None);
    }
    assert_eq!(stage.failure().as_deref(), Some("act.caller-finish-transition-invalid"));
}

#[test]
fn acts_that_cannot_be_admitted_have_their_codes() {
    let refused = |runtime, lineage, control: AgentTurnControl, standalone| {
        let mut stage = Stage::new(None);
        let error = stage
            .acts
            .prepare_admission(&mut stage.runs, runtime, lineage, &control, standalone)
            .expect_err("the act is refused");
        assert_eq!(stage.failure().as_deref(), Some(error.code()));
        error.code()
    };
    let standalone = || {
        Some(StandaloneActAdmission { run: 0, cue_scope: cue_scope(), session: session() })
    };
    assert_eq!(
        refused(Some(0), lineage(), control(), standalone()),
        "act.standalone-admission-with-production"
    );
    assert_eq!(refused(Some(0), None, control(), None), "act.cue-lineage-unavailable");
    assert_eq!(
        refused(Some(0), lineage(), AgentTurnControl { key: 1, session: None }, None),
        "act.session-metadata-unavailable"
    );
    let mut elsewhere = lineage();
    elsewhere.as_mut().unwrap().run = 1;
    assert_eq!(refused(Some(0), elsewhere, control(), None), "act.runtime-lineage-mismatch");
    let mut sceneless = lineage();
    sceneless.as_mut().unwrap().cue_scope.scene_id = None;
    assert_eq!(refused(Some(0), sceneless, control(), None), "act.scene-identifier-unavailable");
    let mut strange = control();
    strange.session.as_mut().unwrap().context.actor_id = "actor-2".to_owned();
    assert_eq!(
        refused(Some(0), lineage(), strange, None),
        "act.session-actor-identity-mismatch"
    );

    let mut stage = Stage::new(None);
    let prepared = stage
        .acts
        .prepare_admission(&mut stage.runs, None, None, &control(), standalone())
        .expect("a standalone act is prepared")
        .expect("something reports the act");
    assert_eq!(prepared.identity().act_id, "act-1");
    assert_eq!(prepared.act_scope().act_id, Some(id("act-1")));
    stage.acts.commit(&mut stage.runs, prepared);
    assert_eq!(stage.log.borrow().len(), 3);
    assert!(matches!(
        stage.acts.prepare_admission(&mut stage.runs, None, None, &control(), None),
        Ok(None)
    ));
}

#[test]
fn how_an_act_ends_follows_from_its_caller_and_its_turn() {
    let completed = TerminalSpan::completed();
    let failed = TerminalSpan::failed("act-caller-failed");
    let cancelled = TerminalSpan::cancelled("act-caller-cancelled");
    let lost = TerminalSpan::failed("turn-lost");
    assert_eq!(act_terminal(completed, None), completed);
    assert_eq!(act_terminal(failed, Some(completed)), failed);
    assert_eq!(act_terminal(cancelled, Some(completed)), completed);
    assert_eq!(act_terminal(failed, Some(lost)), lost);

    let stop = ErrorClass { stop_iteration: true, cancelled: false };
    let cancel = ErrorClass { stop_iteration: false, cancelled: true };
    let other = ErrorClass { stop_iteration: false, cancelled: false };
    assert_eq!(caller_terminal(ActCallerExit::Returned, Some(stop)), completed);
    assert_eq!(caller_terminal(ActCallerExit::Returned, Some(cancel)), cancelled);
    assert_eq!(caller_terminal(ActCallerExit::Returned, Some(other)), failed);
    assert_eq!(caller_terminal(ActCallerExit::Returned, None), failed);
    assert_eq!(caller_terminal(ActCallerExit::AdmissionFailed, None), failed);
    for exit in [ActCallerExit::Cancelled, ActCallerExit::Closed, ActCallerExit::Cleared] {
        assert_eq!(caller_terminal(exit, None), cancelled);
    }
    assert!(terminal_detail_is_valid(AgentTurnDiagnosticOutcome::Completed, None));
    assert!(!terminal_detail_is_valid(AgentTurnDiagnosticOutcome::Completed, Some("x")));
    assert!(!terminal_detail_is_valid(AgentTurnDiagnosticOutcome::Failed, None));
    assert_eq!(
        scope_for_act(&cue_scope(), id("act-9"), Some(2)).unwrap().act_id,
        Some(id("act-9"))
    );
}

#[test]
fn an_ended_act_rests() {
    let mut stage = Stage::new(None);
    let identity = stage.begin_act();
    stage.acts.caller_finished(&mut stage.runs, CONTROL, ActCallerExit::Closed, None);
    stage.observe(AgentTurnObservation::Terminal {
        metadata: turn(&identity),
        settlement: AgentTurnDiagnosticSettlement::NotSubmitted,
        outcome: AgentTurnDiagnosticOutcome::Cancelled,
        error_code: Some("not-submitted"),
    });
    stage.acknowledge("act-1", 50);
    let reported = stage.log.borrow().len();
    stage.acts.observe(&mut stage.runs, CONTROL, ActHook::CancelRequested);
    stage.acts.caller_finished(&mut stage.runs, CONTROL, ActCallerExit::Closed, None);
    assert_eq!(stage.log.borrow().len(), reported);
}

#[test]
fn an_act_that_cannot_be_reported_fails_its_run() {
    let mut stage = Stage::new(Some(2));
    stage.acts.admitted(&mut stage.runs, Some(0), lineage(), &control());
    assert_eq!(stage.failure().as_deref(), Some("diagnostic.admission-failed"));
    assert_eq!(stage.log.borrow().len(), 1);
}

#[test]
fn usage_settles_once_and_is_acknowledged_once() {
    let (mut usage, slot) = UsageFinalizationIdentity::new(4, "act-1".to_owned());
    assert_eq!(usage.snapshot().settlement(), None);
    assert!(!slot.snapshot(&usage).prompt_submitted());
    let slot = slot.acknowledge(&usage, 1).expect_err("nothing has settled");
    assert!(usage.settle(UsageFinalizationSettlement::Authoritative).is_err());
    usage.mark_prompt_submitted().expect("the prompt is submitted once");
    assert!(usage.mark_prompt_submitted().is_err());
    assert_eq!(usage.settle(UsageFinalizationSettlement::Authoritative), Ok(true));
    assert_eq!(usage.settle(UsageFinalizationSettlement::Authoritative), Ok(false));
    assert!(usage.settle(UsageFinalizationSettlement::Unknown).is_err());
    let ack = slot.acknowledge(&usage, 12).expect("the usage has settled");
    assert_eq!(ack.usage_sequence, 12);
    assert!(usage.matches(&ack));
    let (other, _) = UsageFinalizationIdentity::new(5, "act-1".to_owned());
    assert!(!other.matches(&ack));
}

#[test]
fn one_bridge_takes_the_usage_of_a_run() {
    let mut slot = usage_finalization_bridge_slot();
    assert!(usage_finalization_bridge(&slot).is_none());
    assert!(install_usage_finalization_bridge(&mut slot, UsageFinalizationBridge::new()).is_ok());
    assert!(install_usage_finalization_bridge(&mut slot, UsageFinalizationBridge::new()).is_err());
    assert!(usage_finalization_bridge(&slot).is_some());
}
