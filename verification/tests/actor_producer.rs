use diagnostic_runtime::context::{
    DiagnosticRunContext, HubAdmissionError, HubRefusal, SpanEventAdmission, TimeError,
};
#[allow(unused_imports)]
use diagnostic_runtime::event::{
    CausalLink, CausalRelation, CounterKind, DiagnosticScope, ErrorCode, EventBody, EventCandidate,
    InstantKind, RunLocalId, SpanKind, SpanOutcome,
};
#[allow(unused_imports)]
use diagnostic_runtime::run::{DiagnosticRun, DiagnosticRuns, RuntimeProducerError};
use std::cell::{Cell, RefCell};
use std::rc::Rc;
use diagnostic_runtime::actor_producer::{
    ActorEventSource, ActorHook, ActorNames, ActorRegistry, ProductionConstruction,
};
use diagnostic_runtime::event::{ActorDetail, SpanStartDetail};
use diagnostic_runtime::runtime_producer::{RuntimeHook, RuntimeProducerRegistry};
use pyo3::exceptions::PyRuntimeError;
use pyo3::types::PyAnyMethods;
use pyo3::{PyErr, Python};

#[derive(Debug, PartialEq)]
enum Seen {
    Started { kind: SpanKind, parent: Option<u64> },
    Finished { span_id: u64, outcome: SpanOutcome, code: Option<String> },
    Instant { kind: InstantKind, containing: Option<u64> },
    Counter { kind: CounterKind, value: u64 },
    Gap { producer: &'static str, reason: &'static str },
    CustomStarted { name: String, parent: Option<u64> },
    CustomFinished { span_id: u64, outcome: SpanOutcome },
    CustomInstant { name: String, containing: Option<u64> },
    Other,
}

#[allow(dead_code)]
struct Fact {
    sequence: u64,
    elapsed_ns: u64,
    scope: DiagnosticScope,
    cause: Option<CausalLink>,
    seen: Seen,
    unheard: bool,
    text: String,
}

type Log = Rc<RefCell<Vec<Fact>>>;

/// A hub that numbers events from 1, and refuses the attempt that it is told to.
struct Recorder {
    log: Log,
    attempts: usize,
    fail_on_attempt: Option<usize>,
    clock: u64,
    /// The subscribers of acts hear of its events.
    heard: Rc<Cell<bool>>,
}

impl SpanEventAdmission for Recorder {
    fn told(&self) -> diagnostic_runtime::context::AdmissionLog {
        unreachable!()
    }

    fn hub(&self) -> diagnostic_runtime::context::HubIdentity {
        unreachable!()
    }

    fn share(&self) -> Self {
        Recorder {
            log: self.log.clone(),
            attempts: self.attempts,
            fail_on_attempt: self.fail_on_attempt,
            clock: self.clock,
            heard: self.heard.clone(),
        }
    }

    fn install_act_subscribers(&mut self) -> Result<(), String> {
        if self.heard.replace(true) {
            Err("Act subscribers are already installed".to_owned())
        } else {
            Ok(())
        }
    }

    fn elapsed_now(&mut self) -> Result<u64, TimeError> {
        self.clock += 10;
        Ok(self.clock)
    }

    fn admit_event(
        &mut self,
        elapsed_ns: u64,
        candidate: &EventCandidate,
    ) -> Result<u64, HubAdmissionError> {
        self.attempts += 1;
        if self.fail_on_attempt == Some(self.attempts) {
            return Err(HubAdmissionError {
                refusal: HubRefusal::Reservation,
                message: "injected diagnostic admission failure".to_owned(),
            });
        }
        let sequence = self.log.borrow().len() as u64 + 1;
        let seen = match &candidate.body {
            EventBody::SpanStarted { detail, parent_span_id } => {
                Seen::Started { kind: detail.kind(), parent: *parent_span_id }
            }
            EventBody::SpanFinished { span_id, outcome, error_code } => Seen::Finished {
                span_id: *span_id,
                outcome: *outcome,
                code: error_code.as_ref().map(|code| match code {
                    ErrorCode::Stable(code) => (*code).to_owned(),
                    ErrorCode::Reported(code) => code.clone(),
                }),
            },
            EventBody::InstantOccurred { instant, containing_span_id } => {
                Seen::Instant { kind: instant.kind(), containing: *containing_span_id }
            }
            EventBody::CounterSampled { kind, value } => {
                Seen::Counter { kind: *kind, value: *value }
            }
            EventBody::ObservationGap(gap) => {
                Seen::Gap { producer: gap.producer, reason: gap.reason }
            }
            EventBody::CustomSpanStarted { name, parent_id, .. } => {
                Seen::CustomStarted { name: name.clone(), parent: *parent_id }
            }
            EventBody::CustomSpanFinished { custom_span_id, custom_outcome } => {
                Seen::CustomFinished { span_id: *custom_span_id, outcome: *custom_outcome }
            }
            EventBody::CustomInstantOccurred { name, containing_id, .. } => {
                Seen::CustomInstant { name: name.clone(), containing: *containing_id }
            }
            _ => Seen::Other,
        };
        self.log.borrow_mut().push(Fact {
            sequence,
            elapsed_ns,
            scope: candidate.scope.clone(),
            cause: candidate.cause,
            seen,
            unheard: candidate.unheard,
            text: format!("{candidate:?}"),
        });
        Ok(sequence)
    }
}

fn recorder(fail_on_attempt: Option<usize>) -> (Recorder, Log) {
    let log: Log = Rc::new(RefCell::new(Vec::new()));
    (Recorder { log: log.clone(), attempts: 0, fail_on_attempt, clock: 0, heard: Rc::default() }, log)
}

#[allow(dead_code)]
fn failure_code(run: &DiagnosticRun<Recorder>) -> Option<String> {
    run.failure().map(|failure| failure.code().to_owned())
}

#[allow(dead_code)]
fn assert_start(log: &Log, index: usize, kind: SpanKind, parent: Option<u64>) {
    let facts = log.borrow();
    assert_eq!(facts[index].sequence, index as u64 + 1);
    assert_eq!(facts[index].seen, Seen::Started { kind, parent });
}

#[allow(dead_code)]
fn assert_finish(
    log: &Log,
    index: usize,
    span_id: u64,
    outcome: SpanOutcome,
    error_code: Option<&str>,
) {
    let facts = log.borrow();
    assert_eq!(facts[index].sequence, index as u64 + 1);
    assert_eq!(
        facts[index].seen,
        Seen::Finished { span_id, outcome, code: error_code.map(str::to_owned) }
    );
}

#[allow(dead_code)]
fn assert_instant(log: &Log, index: usize, kind: InstantKind, containing: Option<u64>) {
    let facts = log.borrow();
    assert_eq!(facts[index].sequence, index as u64 + 1);
    assert_eq!(facts[index].seen, Seen::Instant { kind, containing });
}

#[allow(dead_code)]
fn assert_cause(log: &Log, index: usize, sequence: u64, relation: CausalRelation) {
    assert_eq!(log.borrow()[index].cause, Some(CausalLink { sequence, relation }));
}


/// Every fact refers only to spans that have begun and to facts that came before it.
#[allow(dead_code)]
fn assert_facts_refer_back(log: &Log) {
    let facts = log.borrow();
    let mut begun: Vec<u64> = Vec::new();
    for fact in facts.iter() {
        let (within, ended) = match &fact.seen {
            Seen::Started { parent, .. } | Seen::CustomStarted { parent, .. } => (*parent, None),
            Seen::Instant { containing, .. } | Seen::CustomInstant { containing, .. } => {
                (*containing, None)
            }
            Seen::Finished { span_id, .. } | Seen::CustomFinished { span_id, .. } => {
                (None, Some(*span_id))
            }
            _ => (None, None),
        };
        assert!(within.is_none_or(|span_id| begun.contains(&span_id)), "{}", fact.text);
        assert!(ended.is_none_or(|span_id| begun.contains(&span_id)), "{}", fact.text);
        assert!(fact.cause.is_none_or(|cause| cause.sequence < fact.sequence), "{}", fact.text);
        if matches!(fact.seen, Seen::Started { .. } | Seen::CustomStarted { .. }) {
            begun.push(fact.sequence);
        }
    }
}

const CORE: usize = 7;
const BINDING: usize = 11;

/// A run whose production has started.
struct Harness {
    runtimes: RuntimeProducerRegistry,
    runs: DiagnosticRuns<Recorder>,
    log: Log,
}

impl Harness {
    fn new(fail_on_attempt: Option<usize>) -> Self {
        let (recorder, log) = recorder(fail_on_attempt);
        let mut runs = DiagnosticRuns::new();
        let mut runtimes = RuntimeProducerRegistry::new();
        runtimes
            .install(&mut runs, DiagnosticRunContext::new(recorder), CORE, BINDING)
            .expect("install runtime producer");
        runtimes.run_started(&mut runs, CORE, BINDING);
        runtimes.observe_binding(&mut runs, BINDING, RuntimeHook::ProductionStartEntered, None);
        runtimes.observe_binding(&mut runs, BINDING, RuntimeHook::ProductionStartReturned, None);
        Harness { runtimes, runs, log }
    }

    #[allow(dead_code)]
    fn failure(&self) -> Option<String> {
        failure_code(&self.runs.runs[0])
    }

    #[allow(dead_code)]
    fn finish(&mut self) {
        self.runtimes.observe_core(&mut self.runs, CORE, RuntimeHook::ShutdownRequested);
        for hook in [
            RuntimeHook::ProductionStopEntered,
            RuntimeHook::ProductionStopReturned,
            RuntimeHook::RunLifecycleReturned,
        ] {
            self.runtimes.observe_binding(&mut self.runs, BINDING, hook, None);
        }
        self.runtimes.observe_core(&mut self.runs, CORE, RuntimeHook::RunFinished);
        assert_eq!(self.failure(), None);
    }
}

#[allow(dead_code)]
fn id(text: &str) -> RunLocalId {
    RunLocalId { text: text.to_owned() }
}

#[allow(dead_code)]
fn cancelled_error(payload: &str) -> PyErr {
    Python::attach(|py| {
        py.import("asyncio")
            .and_then(|asyncio| asyncio.getattr("CancelledError"))
            .and_then(|cancelled| cancelled.call1((payload,)))
            .map(PyErr::from_value)
            .expect("construct CancelledError")
    })
}

fn names(display_name: &str) -> ActorNames {
    ActorNames {
        display_name: Some(display_name.to_owned()),
        actor_type: Some("Actor".to_owned()),
    }
}

/// The actors of a run.
struct Stage {
    harness: Harness,
    actors: ActorRegistry,
}

impl Stage {
    fn new() -> Self {
        Stage { harness: Harness::new(None), actors: ActorRegistry::new() }
    }

    fn identity(&mut self, key: usize, hook: ActorHook) {
        self.actors.observe_identity(
            &self.harness.runtimes,
            &mut self.harness.runs,
            Some(BINDING),
            key,
            hook,
        );
    }

    fn handle(&mut self, key: usize, handle: u64, hook: ActorHook) {
        self.actors.observe_handle(
            &self.harness.runtimes,
            &mut self.harness.runs,
            Some(BINDING),
            key,
            handle,
            hook,
        );
    }

    fn cast_success(&mut self, key: usize, display_name: &str, handle: u64) {
        self.actors.cast_started(
            &self.harness.runtimes,
            &mut self.harness.runs,
            Some(BINDING),
            None,
            key,
            &names(display_name),
        );
        self.identity(key, ActorHook::Constructed);
        self.handle(key, handle, ActorHook::HandleCreated);
        self.identity(key, ActorHook::RegistryCommitted);
        self.actors.cast_finished(
            &self.harness.runtimes,
            &mut self.harness.runs,
            Some(BINDING),
            key,
            &names(display_name),
            Ok(handle),
        );
    }

    fn actor_id(&self, key: usize) -> RunLocalId {
        self.actors
            .lineage_snapshot(key)
            .expect("actor lineage")
            .scope
            .actor_id
            .expect("actor identifier")
    }

    fn facts_of(&self, actor: &RunLocalId) -> Vec<usize> {
        let log = self.harness.log.borrow();
        (0..log.len()).filter(|index| log[*index].scope.actor_id.as_ref() == Some(actor)).collect()
    }
}

#[test]
fn constructor_cast_is_contained_without_parenting_the_long_lived_handle_span() {
    Python::initialize();
    let (recorder, log) = recorder(None);
    let mut runs = DiagnosticRuns::new();
    let run = runs.open(recorder);
    let scope = DiagnosticScope {
        scene_id: None,
        actor_id: None,
        cue_id: None,
        effect_id: None,
        act_id: None,
        tool_call_id: None,
        session_generation: None,
    };
    let construct_span_id = runs.runs[run]
        .context
        .start_span(
            scope,
            SpanStartDetail::ProductionConstruct {
                package: "production".to_owned(),
                class_name: "Production",
            },
            None,
        )
        .expect("start construction span");
    let runtimes = RuntimeProducerRegistry::new();
    let mut actors = ActorRegistry::new();
    actors.start_actor(
        &mut runs,
        ActorEventSource { run, containing_span_id: Some(construct_span_id), owner: None },
        5,
        ActorDetail { display_name: "worker".to_owned(), actor_type: "Actor".to_owned() },
    );
    let error = PyRuntimeError::new_err("secret profile token");
    actors.cast_finished(&runtimes, &mut runs, None, 5, &names("worker"), Err(&error));

    assert_eq!(log.borrow().len(), 4);
    assert_instant(&log, 1, InstantKind::ActorCast, Some(construct_span_id));
    assert!(log.borrow()[1].scope.session_generation.is_none());
    assert!(log.borrow()[1].text.contains("display_name: \"worker\""));
    assert!(log.borrow()[1].text.contains("actor_type: \"Actor\""));
    assert_start(&log, 2, SpanKind::ActorHandleLifetime, None);
    assert_eq!(log.borrow()[2].scope, log.borrow()[1].scope);
    assert_finish(&log, 3, 3, SpanOutcome::Failed, Some("actor-cast-failed"));
    assert!(log.borrow().iter().all(|fact| !fact.text.contains("secret profile token")));
}

#[test]
fn cancelled_cast_has_a_stable_terminal_without_exception_payload() {
    Python::initialize();
    let (recorder, log) = recorder(None);
    let mut runs = DiagnosticRuns::new();
    let run = runs.open(recorder);
    let runtimes = RuntimeProducerRegistry::new();
    let mut actors = ActorRegistry::new();
    actors.start_actor(
        &mut runs,
        ActorEventSource { run, containing_span_id: None, owner: None },
        5,
        ActorDetail { display_name: "cancelled".to_owned(), actor_type: "Actor".to_owned() },
    );
    let cancelled = cancelled_error("secret cancellation payload");
    actors.cast_finished(&runtimes, &mut runs, None, 5, &names("cancelled"), Err(&cancelled));

    assert_eq!(log.borrow().len(), 3);
    assert_finish(&log, 2, 2, SpanOutcome::Cancelled, Some("actor-cast-cancelled"));
    assert!(log.borrow().iter().all(|fact| !fact.text.contains("secret cancellation payload")));
}

#[test]
fn handles_share_actor_identity_and_finish_only_after_registry_detaches() {
    let mut stage = Stage::new();
    stage.cast_success(5, "shared", 50);
    let actor = stage.actor_id(5);
    assert!(stage.actors.lineage_snapshot(5).unwrap().scope.session_generation.is_none());
    stage.handle(5, 51, ActorHook::HandleCreated);
    stage.handle(5, 50, ActorHook::HandleCleared);
    assert!(stage.actors.lineage_snapshot(5).is_some());
    stage.handle(5, 51, ActorHook::HandleCleared);
    assert!(stage.actors.lineage_snapshot(5).is_some());
    stage.identity(5, ActorHook::RegistryDetached);
    assert!(stage.actors.actors.get(&5).is_none());

    let facts = stage.facts_of(&actor);
    assert_eq!(facts.len(), 3);
    let log = stage.harness.log.clone();
    assert_instant(&log, facts[0], InstantKind::ActorCast, Some(1));
    assert_start(&log, facts[1], SpanKind::ActorHandleLifetime, None);
    assert_finish(&log, facts[2], facts[1] as u64 + 1, SpanOutcome::Completed, None);
    assert_eq!(stage.harness.failure(), None);
    stage.harness.finish();
}

#[test]
fn concurrent_and_reused_names_keep_distinct_actor_scopes() {
    let mut stage = Stage::new();
    stage.cast_success(5, "left", 50);
    stage.cast_success(6, "right", 60);
    let left = stage.actor_id(5);
    let right = stage.actor_id(6);
    assert_ne!(left, right);
    stage.identity(6, ActorHook::RegistryDetached);
    stage.identity(5, ActorHook::RegistryDetached);

    stage.cast_success(7, "left", 70);
    let replacement = stage.actor_id(7);
    assert_ne!(replacement, left);
    stage.identity(7, ActorHook::RegistryDetached);

    let log = stage.harness.log.clone();
    for actor in [&left, &right, &replacement] {
        let facts = stage.facts_of(actor);
        assert_eq!(facts.len(), 3);
        assert!(matches!(log.borrow()[facts[0]].seen, Seen::Instant { .. }));
        assert!(matches!(log.borrow()[facts[1]].seen, Seen::Started { .. }));
        assert!(matches!(log.borrow()[facts[2]].seen, Seen::Finished { .. }));
    }
    assert_eq!(stage.harness.failure(), None);
    stage.harness.finish();
}

#[test]
fn disabled_producer_is_a_noop() {
    Python::initialize();
    let (recorder, log) = recorder(None);
    let mut runs = DiagnosticRuns::new();
    runs.open(recorder);
    let runtimes = RuntimeProducerRegistry::new();
    let mut actors = ActorRegistry::new();
    actors.cast_started(&runtimes, &mut runs, Some(BINDING), None, 5, &names("disabled"));
    let error = PyRuntimeError::new_err("ignored payload");
    actors.cast_finished(&runtimes, &mut runs, Some(BINDING), 5, &names("disabled"), Err(&error));
    assert!(actors.actors.get(&5).is_none());
    assert!(log.borrow().is_empty());
}

#[test]
fn an_actor_ends_once_and_its_hooks_have_their_places() {
    let mut stage = Stage::new();
    stage.cast_success(5, "once", 50);
    stage.identity(5, ActorHook::RegistryDetached);
    let reported = stage.harness.log.borrow().len();
    stage.identity(5, ActorHook::RegistryDetached);
    stage.handle(5, 50, ActorHook::HandleCleared);
    assert_eq!(stage.harness.log.borrow().len(), reported);
    assert_facts_refer_back(&stage.harness.log);

    let mut stage = Stage::new();
    stage.cast_success(5, "twice", 50);
    stage.handle(5, 50, ActorHook::HandleCreated);
    assert_eq!(
        stage.harness.failure().as_deref(),
        Some("actor.handle-create-transition-invalid")
    );
}

#[test]
fn an_actor_of_a_construction_reports_to_its_run() {
    let mut stage = Stage::new();
    let construction = ProductionConstruction { run: 0, construct_span_id: 2 };
    stage.actors.cast_started(
        &stage.harness.runtimes,
        &mut stage.harness.runs,
        None,
        Some(construction),
        9,
        &names("constructed"),
    );
    let log = stage.harness.log.clone();
    assert_instant(&log, 3, InstantKind::ActorCast, Some(2));
    assert_eq!(log.borrow()[3].scope.actor_id, Some(id("actor-1")));
}

#[test]
fn names_that_are_not_text_have_their_codes() {
    for (display_name, actor_type, code) in [
        (None, Some("Actor".to_owned()), "actor.display-name-not-utf8"),
        (Some("worker".to_owned()), None, "actor.type-name-not-utf8"),
    ] {
        let mut stage = Stage::new();
        stage.actors.cast_started(
            &stage.harness.runtimes,
            &mut stage.harness.runs,
            Some(BINDING),
            None,
            9,
            &ActorNames { display_name, actor_type },
        );
        assert_eq!(stage.harness.failure().as_deref(), Some(code));
    }
}
