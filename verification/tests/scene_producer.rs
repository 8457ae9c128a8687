use diagnostic_runtime::context::{
    DiagnosticRunContext, HubAdmissionError, HubRefusal, SpanEventAdmission, TimeError,
};
#[allow(unused_imports)]
use diagnostic_runtime::event::{
    CausalLink, CausalRelation, CounterKind, DiagnosticScope, ErrorCode, EventBody, EventCandidate,
    InstantKind, RunLocalId, SpanKind, SpanOutcome,
};
#[allow(unused_imports)]
use diagnostic_runtime::run::{DiagnosticRun, DiagnosticRuns, RuntimeProducerError};
use std::cell::{Cell, RefCell};
use std::rc::Rc;
use diagnostic_runtime::runtime_producer::{RuntimeHook, RuntimeProducerRegistry};
use diagnostic_runtime::scene_producer::{
    SceneHook, SceneName, SceneRegistry, SceneScope, TaskLineage,
};
use pyo3::exceptions::PyRuntimeError;
use pyo3::types::PyAnyMethods;
use pyo3::{PyErr, Python};

#[derive(Debug, PartialEq)]
enum Seen {
    Started { kind: SpanKind, parent: Option<u64> },
    Finished { span_id: u64, outcome: SpanOutcome, code: Option<String> },
    Instant { kind: InstantKind, containing: Option<u64> },
    Counter { kind: CounterKind, value: u64 },
    Gap { producer: &'static str, reason: &'static str },
    CustomStarted { name: String, parent: Option<u64> },
    CustomFinished { span_id: u64, outcome: SpanOutcome },
    CustomInstant { name: String, containing: Option<u64> },
    Other,
}

#[allow(dead_code)]
struct Fact {
    sequence: u64,
    elapsed_ns: u64,
    scope: DiagnosticScope,
    cause: Option<CausalLink>,
    seen: Seen,
    unheard: bool,
    text: String,
}

type Log = Rc<RefCell<Vec<Fact>>>;

/// A hub that numbers events from 1, and refuses the attempt that it is told to.
struct Recorder {
    log: Log,
    attempts: usize,
    fail_on_attempt: Option<usize>,
    clock: u64,
    /// The subscribers of acts hear of its events.
    heard: Rc<Cell<bool>>,
}

impl SpanEventAdmission for Recorder {
    fn told(&self) -> diagnostic_runtime::context::AdmissionLog {
        unreachable!()
    }

    fn hub(&self) -> diagnostic_runtime::context::HubIdentity {
        unreachable!()
    }

    fn share(&self) -> Self {
        Recorder {
            log: self.log.clone(),
            attempts: self.attempts,
            fail_on_attempt: self.fail_on_attempt,
            clock: self.clock,
            heard: self.heard.clone(),
        }
    }

    fn install_act_subscribers(&mut self) -> Result<(), String> {
        if self.heard.replace(true) {
            Err("Act subscribers are already installed".to_owned())
        } else {
            Ok(())
        }
    }

    fn elapsed_now(&mut self) -> Result<u64, TimeError> {
        self.clock += 10;
        Ok(self.clock)
    }

    fn admit_event(
        &mut self,
        elapsed_ns: u64,
        candidate: &EventCandidate,
    ) -> Result<u64, HubAdmissionError> {
        self.attempts += 1;
        if self.fail_on_attempt == Some(self.attempts) {
            return Err(HubAdmissionError {
                refusal: HubRefusal::Reservation,
                message: "injected diagnostic admission failure".to_owned(),
            });
        }
        let sequence = self.log.borrow().len() as u64 + 1;
        let seen = match &candidate.body {
            EventBody::SpanStarted { detail, parent_span_id } => {
                Seen::Started { kind: detail.kind(), parent: *parent_span_id }
            }
            EventBody::SpanFinished { span_id, outcome, error_code } => Seen::Finished {
                span_id: *span_id,
                outcome: *outcome,
                code: error_code.as_ref().map(|code| match code {
                    ErrorCode::Stable(code) => (*code).to_owned(),
                    ErrorCode::Reported(code) => code.clone(),
                }),
            },
            EventBody::InstantOccurred { instant, containing_span_id } => {
                Seen::Instant { kind: instant.kind(), containing: *containing_span_id }
            }
            EventBody::CounterSampled { kind, value } => {
                Seen::Counter { kind: *kind, value: *value }
            }
            EventBody::ObservationGap(gap) => {
                Seen::Gap { producer: gap.producer, reason: gap.reason }
            }
            EventBody::CustomSpanStarted { name, parent_id, .. } => {
                Seen::CustomStarted { name: name.clone(), parent: *parent_id }
            }
            EventBody::CustomSpanFinished { custom_span_id, custom_outcome } => {
                Seen::CustomFinished { span_id: *custom_span_id, outcome: *custom_outcome }
            }
            EventBody::CustomInstantOccurred { name, containing_id, .. } => {
                Seen::CustomInstant { name: name.clone(), containing: *containing_id }
            }
            _ => Seen::Other,
        };
        self.log.borrow_mut().push(Fact {
            sequence,
            elapsed_ns,
            scope: candidate.scope.clone(),
            cause: candidate.cause,
            seen,
            unheard: candidate.unheard,
            text: format!("{candidate:?}"),
        });
        Ok(sequence)
    }
}

fn recorder(fail_on_attempt: Option<usize>) -> (Recorder, Log) {
    let log: Log = Rc::new(RefCell::new(Vec::new()));
    (Recorder { log: log.clone(), attempts: 0, fail_on_attempt, clock: 0, heard: Rc::default() }, log)
}

#[allow(dead_code)]
fn failure_code(run: &DiagnosticRun<Recorder>) -> Option<String> {
    run.failure().map(|failure| failure.code().to_owned())
}

#[allow(dead_code)]
fn assert_start(log: &Log, index: usize, kind: SpanKind, parent: Option<u64>) {
    let facts = log.borrow();
    assert_eq!(facts[index].sequence, index as u64 + 1);
    assert_eq!(facts[index].seen, Seen::Started { kind, parent });
}

#[allow(dead_code)]
fn assert_finish(
    log: &Log,
    index: usize,
    span_id: u64,
    outcome: SpanOutcome,
    error_code: Option<&str>,
) {
    let facts = log.borrow();
    assert_eq!(facts[index].sequence, index as u64 + 1);
    assert_eq!(
        facts[index].seen,
        Seen::Finished { span_id, outcome, code: error_code.map(str::to_owned) }
    );
}

#[allow(dead_code)]
fn assert_instant(log: &Log, index: usize, kind: InstantKind, containing: Option<u64>) {
    let facts = log.borrow();
    assert_eq!(facts[index].sequence, index as u64 + 1);
    assert_eq!(facts[index].seen, Seen::Instant { kind, containing });
}

#[allow(dead_code)]
fn assert_cause(log: &Log, index: usize, sequence: u64, relation: CausalRelation) {
    assert_eq!(log.borrow()[index].cause, Some(CausalLink { sequence, relation }));
}


/// Every fact refers only to spans that have begun and to facts that came before it.
#[allow(dead_code)]
fn assert_facts_refer_back(log: &Log) {
    let facts = log.borrow();
    let mut begun: Vec<u64> = Vec::new();
    for fact in facts.iter() {
        let (within, ended) = match &fact.seen {
            Seen::Started { parent, .. } | Seen::CustomStarted { parent, .. } => (*parent, None),
            Seen::Instant { containing, .. } | Seen::CustomInstant { containing, .. } => {
                (*containing, None)
            }
            Seen::Finished { span_id, .. } | Seen::CustomFinished { span_id, .. } => {
                (None, Some(*span_id))
            }
            _ => (None, None),
        };
        assert!(within.is_none_or(|span_id| begun.contains(&span_id)), "{}", fact.text);
        assert!(ended.is_none_or(|span_id| begun.contains(&span_id)), "{}", fact.text);
        assert!(fact.cause.is_none_or(|cause| cause.sequence < fact.sequence), "{}", fact.text);
        if matches!(fact.seen, Seen::Started { .. } | Seen::CustomStarted { .. }) {
            begun.push(fact.sequence);
        }
    }
}

const CORE: usize = 7;
const BINDING: usize = 11;

/// A run whose production has started.
struct Harness {
    runtimes: RuntimeProducerRegistry,
    runs: DiagnosticRuns<Recorder>,
    log: Log,
}

impl Harness {
    fn new(fail_on_attempt: Option<usize>) -> Self {
        let (recorder, log) = recorder(fail_on_attempt);
        let mut runs = DiagnosticRuns::new();
        let mut runtimes = RuntimeProducerRegistry::new();
        runtimes
            .install(&mut runs, DiagnosticRunContext::new(recorder), CORE, BINDING)
            .expect("install runtime producer");
        runtimes.run_started(&mut runs, CORE, BINDING);
        runtimes.observe_binding(&mut runs, BINDING, RuntimeHook::ProductionStartEntered, None);
        runtimes.observe_binding(&mut runs, BINDING, RuntimeHook::ProductionStartReturned, None);
        Harness { runtimes, runs, log }
    }

    #[allow(dead_code)]
    fn failure(&self) -> Option<String> {
        failure_code(&self.runs.runs[0])
    }

    #[allow(dead_code)]
    fn finish(&mut self) {
        self.runtimes.observe_core(&mut self.runs, CORE, RuntimeHook::ShutdownRequested);
        for hook in [
            RuntimeHook::ProductionStopEntered,
            RuntimeHook::ProductionStopReturned,
            RuntimeHook::RunLifecycleReturned,
        ] {
            self.runtimes.observe_binding(&mut self.runs, BINDING, hook, None);
        }
        self.runtimes.observe_core(&mut self.runs, CORE, RuntimeHook::RunFinished);
        assert_eq!(self.failure(), None);
    }
}

#[allow(dead_code)]
fn id(text: &str) -> RunLocalId {
    RunLocalId { text: text.to_owned() }
}

#[allow(dead_code)]
fn cancelled_error(payload: &str) -> PyErr {
    Python::attach(|py| {
        py.import("asyncio")
            .and_then(|asyncio| asyncio.getattr("CancelledError"))
            .and_then(|cancelled| cancelled.call1((payload,)))
            .map(PyErr::from_value)
            .expect("construct CancelledError")
    })
}

/// The scenes of a run.
struct Stage {
    harness: Harness,
    scenes: SceneRegistry,
    next_key: usize,
}

impl Stage {
    fn new(fail_on_attempt: Option<usize>) -> Self {
        Stage { harness: Harness::new(fail_on_attempt), scenes: SceneRegistry::new(), next_key: 20 }
    }

    fn scene(&mut self, name: &str) -> SceneScope {
        self.next_key += 1;
        let scene = SceneScope {
            key: self.next_key,
            binding_key: Some(BINDING),
            name: SceneName::Identifier(id(name)),
        };
        self.hook(&scene, SceneHook::SceneCreated);
        scene
    }

    fn hook(&mut self, scene: &SceneScope, hook: SceneHook) {
        self.scenes.observe_scene(
            &self.harness.runtimes,
            &mut self.harness.runs,
            scene,
            hook,
        );
    }

    fn close(&mut self, scene: &SceneScope) {
        self.hook(scene, SceneHook::SceneFinished);
    }

    fn task_finished(&mut self, scene: &SceneScope, error: Option<&PyErr>) {
        self.scenes.task_finished(
            &self.harness.runtimes,
            &mut self.harness.runs,
            scene,
            error,
        );
    }

    fn span_of(&self, scene: &SceneScope) -> u64 {
        self.scenes.snapshot_for_scene(scene).expect("scene is under way").scene_span_id
    }

    fn finish_of(&self, span: u64) -> Option<usize> {
        self.harness
            .log
            .borrow()
            .iter()
            .position(|fact| matches!(fact.seen, Seen::Finished { span_id, .. } if span_id == span))
    }
}

fn task_of(scene: &SceneScope) -> TaskLineage {
    TaskLineage {
        active: true,
        runtime: None,
        cued_key: None,
        scene: Some(scene.clone()),
        act_authority: None,
    }
}

fn scene_id(fact: &Fact) -> Option<String> {
    fact.scope.scene_id.as_ref().map(|id| id.text.clone())
}

#[test]
fn scene_waits_for_task_and_cleanup_in_either_order() {
    let mut stage = Stage::new(None);
    let first = stage.scene("scene-first");
    let second = stage.scene("scene-second");
    let first_span = stage.span_of(&first);
    let second_span = stage.span_of(&second);

    stage.task_finished(&first, None);
    assert!(stage.finish_of(first_span).is_none());
    stage.close(&second);
    assert!(stage.finish_of(second_span).is_none());
    stage.close(&first);
    assert!(stage.finish_of(first_span).is_some());
    assert!(stage.finish_of(second_span).is_none());
    stage.task_finished(&second, None);

    let log = stage.harness.log.clone();
    assert_start(&log, 3, SpanKind::SceneLifecycle, Some(1));
    assert_start(&log, 4, SpanKind::SceneLifecycle, Some(1));
    assert_eq!(scene_id(&log.borrow()[3]).as_deref(), Some("scene-first"));
    assert_eq!(scene_id(&log.borrow()[4]).as_deref(), Some("scene-second"));
    assert!(log.borrow()[3].scope.actor_id.is_none());
    let first_finish = stage.finish_of(first_span).expect("first scene finished");
    let second_finish = stage.finish_of(second_span).expect("second scene finished");
    assert_finish(&log, first_finish, first_span, SpanOutcome::Completed, None);
    assert_finish(&log, second_finish, second_span, SpanOutcome::Completed, None);
    assert_eq!(scene_id(&log.borrow()[first_finish]).as_deref(), Some("scene-first"));
    assert_eq!(scene_id(&log.borrow()[second_finish]).as_deref(), Some("scene-second"));
    assert!(first_finish < second_finish);
    assert_facts_refer_back(&log);
    assert!(log.borrow().windows(2).all(|pair| pair[0].elapsed_ns <= pair[1].elapsed_ns));
    stage.harness.finish();
}

#[test]
fn registered_lineage_gets_an_immutable_scope_and_expires_on_close() {
    let mut stage = Stage::new(None);
    let scene = stage.scene("scene-lineage");
    let mut lineage = task_of(&scene);
    stage.scenes.observe_task(
        &stage.harness.runtimes,
        &mut stage.harness.runs,
        &lineage,
        SceneHook::TaskRegistered,
    );
    let snapshot =
        stage.scenes.lineage_snapshot(&lineage).expect("registered active lineage has scope");
    assert_eq!(snapshot.scope.scene_id, Some(id("scene-lineage")));
    assert_eq!(snapshot.run_span_id, 1);
    assert_eq!(snapshot.scene_span_id, 4);

    stage.close(&scene);
    lineage.active = false;
    assert!(stage.scenes.lineage_snapshot(&lineage).is_none());
    assert_eq!(snapshot.scope.scene_id, Some(id("scene-lineage")));
    stage.task_finished(&scene, None);
    assert!(stage.scenes.snapshot_for_scene(&scene).is_none());
    stage.harness.finish();
}

#[test]
fn failure_and_cancellation_are_normalized_without_payload_capture() {
    Python::initialize();
    let mut stage = Stage::new(None);
    let failed = stage.scene("scene-failed");
    let failed_span = stage.span_of(&failed);
    let failure = PyRuntimeError::new_err("secret Scene failure payload");
    stage.task_finished(&failed, Some(&failure));
    stage.close(&failed);

    let cancelled = stage.scene("scene-cancelled");
    let cancelled_span = stage.span_of(&cancelled);
    let cancellation = cancelled_error("");
    stage.close(&cancelled);
    stage.task_finished(&cancelled, Some(&cancellation));

    let log = stage.harness.log.clone();
    let failed_finish = stage.finish_of(failed_span).expect("failed scene finished");
    let cancelled_finish = stage.finish_of(cancelled_span).expect("cancelled scene finished");
    assert_finish(&log, failed_finish, failed_span, SpanOutcome::Failed, Some("scene-lifecycle-failed"));
    assert_finish(
        &log,
        cancelled_finish,
        cancelled_span,
        SpanOutcome::Cancelled,
        Some("scene-lifecycle-cancelled"),
    );
    assert_eq!(scene_id(&log.borrow()[failed_finish]).as_deref(), Some("scene-failed"));
    assert!(log.borrow().iter().all(|fact| !fact.text.contains("secret Scene failure payload")));
    stage.harness.finish();
}

#[test]
fn scene_finish_admission_failure_latches_runtime_and_expires_lineage() {
    let mut stage = Stage::new(Some(5));
    let scene = stage.scene("scene-admission-failure");
    let lineage = task_of(&scene);
    stage.task_finished(&scene, None);
    stage.close(&scene);

    assert_eq!(stage.harness.log.borrow().len(), 4);
    assert!(stage.scenes.snapshot_for_scene(&scene).is_none());
    assert!(stage.scenes.lineage_snapshot(&lineage).is_none());
    assert_eq!(stage.harness.failure().as_deref(), Some("diagnostic.admission-failed"));
}

#[test]
fn inactive_scene_hooks_do_not_emit_or_allocate_state() {
    let (recorder, log) = recorder(None);
    let mut runs = DiagnosticRuns::new();
    runs.open(recorder);
    let runtimes = RuntimeProducerRegistry::new();
    let mut scenes = SceneRegistry::new();
    let scene = SceneScope {
        key: 3,
        binding_key: Some(BINDING),
        name: SceneName::Identifier(id("scene-inactive")),
    };
    scenes.observe_scene(&runtimes, &mut runs, &scene, SceneHook::SceneCreated);
    scenes.observe_task(&runtimes, &mut runs, &task_of(&scene), SceneHook::TaskRegistered);
    scenes.task_finished(&runtimes, &mut runs, &scene, None);
    scenes.observe_scene(&runtimes, &mut runs, &scene, SceneHook::SceneFinished);
    assert!(scenes.snapshot_for_scene(&scene).is_none());
    assert!(log.borrow().is_empty());
    assert!(runs.runs[0].failure().is_none());
}

#[test]
fn an_ended_scene_rests() {
    let mut stage = Stage::new(None);
    let scene = stage.scene("scene-twice");
    stage.task_finished(&scene, None);
    stage.task_finished(&scene, None);
    assert_eq!(
        stage.harness.failure().as_deref(),
        Some("scene.task-terminal-transition-invalid")
    );
    let reported = stage.harness.log.borrow().len();
    stage.close(&scene);
    stage.close(&scene);
    assert_eq!(stage.harness.log.borrow().len(), reported);
    assert!(stage.scenes.snapshot_for_scene(&scene).is_none());
}

#[test]
fn scenes_without_an_identifier_have_their_codes() {
    let mut stage = Stage::new(None);
    let scene = SceneScope { key: 1, binding_key: Some(BINDING), name: SceneName::NotUtf8 };
    stage.hook(&scene, SceneHook::SceneCreated);
    assert_eq!(stage.harness.failure().as_deref(), Some("scene.name-not-utf8"));

    let mut stage = Stage::new(None);
    let scene = SceneScope { key: 1, binding_key: Some(BINDING), name: SceneName::NotAnIdentifier };
    stage.hook(&scene, SceneHook::SceneCreated);
    assert_eq!(stage.harness.failure().as_deref(), Some("scene.invalid-run-local-id"));

    let mut stage = Stage::new(None);
    let scene = stage.scene("scene-once");
    stage.hook(&scene, SceneHook::SceneCreated);
    assert_eq!(stage.harness.failure().as_deref(), Some("scene.lifecycle-already-started"));
}
