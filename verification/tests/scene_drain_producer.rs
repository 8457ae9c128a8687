use diagnostic_runtime::context::{
    DiagnosticRunContext, HubAdmissionError, HubRefusal, SpanEventAdmission, TimeError,
};
#[allow(unused_imports)]
use diagnostic_runtime::event::{
    CausalLink, CausalRelation, CounterKind, DiagnosticScope, ErrorCode, EventBody, EventCandidate,
    InstantKind, RunLocalId, SpanKind, SpanOutcome,
};
#[allow(unused_imports)]
use diagnostic_runtime::run::{DiagnosticRun, DiagnosticRuns, RuntimeProducerError};
use std::cell::{Cell, RefCell};
use std::rc::Rc;
use diagnostic_runtime::runtime_producer::{RuntimeHook, RuntimeProducerRegistry};
use diagnostic_runtime::scene_drain_producer::{
    SceneDrainHook, SceneDrainRegistry, SceneDriverExit,
};
use diagnostic_runtime::scene_producer::{SceneHook, SceneName, SceneRegistry, SceneScope};
use pyo3::exceptions::{PyRuntimeError, PyStopIteration, PySystemExit, PyTimeoutError};
use pyo3::types::PyAnyMethods;
use pyo3::{PyErr, Python};

#[derive(Debug, PartialEq)]
enum Seen {
    Started { kind: SpanKind, parent: Option<u64> },
    Finished { span_id: u64, outcome: SpanOutcome, code: Option<String> },
    Instant { kind: InstantKind, containing: Option<u64> },
    Counter { kind: CounterKind, value: u64 },
    Gap { producer: &'static str, reason: &'static str },
    CustomStarted { name: String, parent: Option<u64> },
    CustomFinished { span_id: u64, outcome: SpanOutcome },
    CustomInstant { name: String, containing: Option<u64> },
    Other,
}

#[allow(dead_code)]
struct Fact {
    sequence: u64,
    elapsed_ns: u64,
    scope: DiagnosticScope,
    cause: Option<CausalLink>,
    seen: Seen,
    unheard: bool,
    text: String,
}

type Log = Rc<RefCell<Vec<Fact>>>;

/// A hub that numbers events from 1, and refuses the attempt that it is told to.
struct Recorder {
    log: Log,
    attempts: usize,
    fail_on_attempt: Option<usize>,
    clock: u64,
    /// The subscribers of acts hear of its events.
    heard: Rc<Cell<bool>>,
}

impl SpanEventAdmission for Recorder {
    fn told(&self) -> diagnostic_runtime::context::AdmissionLog {
        unreachable!()
    }

    fn hub(&self) -> diagnostic_runtime::context::HubIdentity {
        unreachable!()
    }

    fn share(&self) -> Self {
        Recorder {
            log: self.log.clone(),
            attempts: self.attempts,
            fail_on_attempt: self.fail_on_attempt,
            clock: self.clock,
            heard: self.heard.clone(),
        }
    }

    fn install_act_subscribers(&mut self) -> Result<(), String> {
        if self.heard.replace(true) {
            Err("Act subscribers are already installed".to_owned())
        } else {
            Ok(())
        }
    }

    fn elapsed_now(&mut self) -> Result<u64, TimeError> {
        self.clock += 10;
        Ok(self.clock)
    }

    fn admit_event(
        &mut self,
        elapsed_ns: u64,
        candidate: &EventCandidate,
    ) -> Result<u64, HubAdmissionError> {
        self.attempts += 1;
        if self.fail_on_attempt == Some(self.attempts) {
            return Err(HubAdmissionError {
                refusal: HubRefusal::Reservation,
                message: "injected diagnostic admission failure".to_owned(),
            });
        }
        let sequence = self.log.borrow().len() as u64 + 1;
        let seen = match &candidate.body {
            EventBody::SpanStarted { detail, parent_span_id } => {
                Seen::Started { kind: detail.kind(), parent: *parent_span_id }
            }
            EventBody::SpanFinished { span_id, outcome, error_code } => Seen::Finished {
                span_id: *span_id,
                outcome: *outcome,
                code: error_code.as_ref().map(|code| match code {
                    ErrorCode::Stable(code) => (*code).to_owned(),
                    ErrorCode::Reported(code) => code.clone(),
                }),
            },
            EventBody::InstantOccurred { instant, containing_span_id } => {
                Seen::Instant { kind: instant.kind(), containing: *containing_span_id }
            }
            EventBody::CounterSampled { kind, value } => {
                Seen::Counter { kind: *kind, value: *value }
            }
            EventBody::ObservationGap(gap) => {
                Seen::Gap { producer: gap.producer, reason: gap.reason }
            }
            EventBody::CustomSpanStarted { name, parent_id, .. } => {
                Seen::CustomStarted { name: name.clone(), parent: *parent_id }
            }
            EventBody::CustomSpanFinished { custom_span_id, custom_outcome } => {
                Seen::CustomFinished { span_id: *custom_span_id, outcome: *custom_outcome }
            }
            EventBody::CustomInstantOccurred { name, containing_id, .. } => {
                Seen::CustomInstant { name: name.clone(), containing: *containing_id }
            }
            _ => Seen::Other,
        };
        self.log.borrow_mut().push(Fact {
            sequence,
            elapsed_ns,
            scope: candidate.scope.clone(),
            cause: candidate.cause,
            seen,
            unheard: candidate.unheard,
            text: format!("{candidate:?}"),
        });
        Ok(sequence)
    }
}

fn recorder(fail_on_attempt: Option<usize>) -> (Recorder, Log) {
    let log: Log = Rc::new(RefCell::new(Vec::new()));
    (Recorder { log: log.clone(), attempts: 0, fail_on_attempt, clock: 0, heard: Rc::default() }, log)
}

#[allow(dead_code)]
fn failure_code(run: &DiagnosticRun<Recorder>) -> Option<String> {
    run.failure().map(|failure| failure.code().to_owned())
}

#[allow(dead_code)]
fn assert_start(log: &Log, index: usize, kind: SpanKind, parent: Option<u64>) {
    let facts = log.borrow();
    assert_eq!(facts[index].sequence, index as u64 + 1);
    assert_eq!(facts[index].seen, Seen::Started { kind, parent });
}

#[allow(dead_code)]
fn assert_finish(
    log: &Log,
    index: usize,
    span_id: u64,
    outcome: SpanOutcome,
    error_code: Option<&str>,
) {
    let facts = log.borrow();
    assert_eq!(facts[index].sequence, index as u64 + 1);
    assert_eq!(
        facts[index].seen,
        Seen::Finished { span_id, outcome, code: error_code.map(str::to_owned) }
    );
}

#[allow(dead_code)]
fn assert_instant(log: &Log, index: usize, kind: InstantKind, containing: Option<u64>) {
    let facts = log.borrow();
    assert_eq!(facts[index].sequence, index as u64 + 1);
    assert_eq!(facts[index].seen, Seen::Instant { kind, containing });
}

#[allow(dead_code)]
fn assert_cause(log: &Log, index: usize, sequence: u64, relation: CausalRelation) {
    assert_eq!(log.borrow()[index].cause, Some(CausalLink { sequence, relation }));
}


/// Every fact refers only to spans that have begun and to facts that came before it.
#[allow(dead_code)]
fn assert_facts_refer_back(log: &Log) {
    let facts = log.borrow();
    let mut begun: Vec<u64> = Vec::new();
    for fact in facts.iter() {
        let (within, ended) = match &fact.seen {
            Seen::Started { parent, .. } | Seen::CustomStarted { parent, .. } => (*parent, None),
            Seen::Instant { containing, .. } | Seen::CustomInstant { containing, .. } => {
                (*containing, None)
            }
            Seen::Finished { span_id, .. } | Seen::CustomFinished { span_id, .. } => {
                (None, Some(*span_id))
            }
            _ => (None, None),
        };
        assert!(within.is_none_or(|span_id| begun.contains(&span_id)), "{}", fact.text);
        assert!(ended.is_none_or(|span_id| begun.contains(&span_id)), "{}", fact.text);
        assert!(fact.cause.is_none_or(|cause| cause.sequence < fact.sequence), "{}", fact.text);
        if matches!(fact.seen, Seen::Started { .. } | Seen::CustomStarted { .. }) {
            begun.push(fact.sequence);
        }
    }
}

const CORE: usize = 7;
const BINDING: usize = 11;

/// A run whose production has started.
struct Harness {
    runtimes: RuntimeProducerRegistry,
    runs: DiagnosticRuns<Recorder>,
    log: Log,
}

impl Harness {
    fn new(fail_on_attempt: Option<usize>) -> Self {
        let (recorder, log) = recorder(fail_on_attempt);
        let mut runs = DiagnosticRuns::new();
        let mut runtimes = RuntimeProducerRegistry::new();
        runtimes
            .install(&mut runs, DiagnosticRunContext::new(recorder), CORE, BINDING)
            .expect("install runtime producer");
        runtimes.run_started(&mut runs, CORE, BINDING);
        runtimes.observe_binding(&mut runs, BINDING, RuntimeHook::ProductionStartEntered, None);
        runtimes.observe_binding(&mut runs, BINDING, RuntimeHook::ProductionStartReturned, None);
        Harness { runtimes, runs, log }
    }

    #[allow(dead_code)]
    fn failure(&self) -> Option<String> {
        failure_code(&self.runs.runs[0])
    }

    #[allow(dead_code)]
    fn finish(&mut self) {
        self.runtimes.observe_core(&mut self.runs, CORE, RuntimeHook::ShutdownRequested);
        for hook in [
            RuntimeHook::ProductionStopEntered,
            RuntimeHook::ProductionStopReturned,
            RuntimeHook::RunLifecycleReturned,
        ] {
            self.runtimes.observe_binding(&mut self.runs, BINDING, hook, None);
        }
        self.runtimes.observe_core(&mut self.runs, CORE, RuntimeHook::RunFinished);
        assert_eq!(self.failure(), None);
    }
}

#[allow(dead_code)]
fn id(text: &str) -> RunLocalId {
    RunLocalId { text: text.to_owned() }
}

#[allow(dead_code)]
fn cancelled_error(payload: &str) -> PyErr {
    Python::attach(|py| {
        py.import("asyncio")
            .and_then(|asyncio| asyncio.getattr("CancelledError"))
            .and_then(|cancelled| cancelled.call1((payload,)))
            .map(PyErr::from_value)
            .expect("construct CancelledError")
    })
}

/// The scenes of a run, and how they drain.
struct Stage {
    harness: Harness,
    scenes: SceneRegistry,
    drains: SceneDrainRegistry,
    next_key: usize,
}

impl Stage {
    fn new(fail_on_attempt: Option<usize>) -> Self {
        Stage {
            harness: Harness::new(fail_on_attempt),
            scenes: SceneRegistry::new(),
            drains: SceneDrainRegistry::new(),
            next_key: 20,
        }
    }

    fn scene(&mut self, name: &str) -> SceneScope {
        self.next_key += 1;
        let scene = SceneScope {
            key: self.next_key,
            binding_key: Some(BINDING),
            name: SceneName::Identifier(id(name)),
        };
        self.scenes.observe_scene(
            &self.harness.runtimes,
            &mut self.harness.runs,
            &scene,
            SceneHook::SceneCreated,
        );
        scene
    }

    fn drain(&mut self, scene: &SceneScope, hook: SceneDrainHook) {
        self.drains.observe(
            &self.harness.runtimes,
            &self.scenes,
            &mut self.harness.runs,
            scene,
            hook,
        );
    }

    fn close_scene(
        &mut self,
        scene: &SceneScope,
        exit: Option<(SceneDriverExit, Option<&PyErr>)>,
        cancellation_started: bool,
        task_error: Option<&PyErr>,
    ) {
        if let Some((exit, error)) = exit {
            self.drains.driver_exited(
                &self.harness.runtimes,
                &self.scenes,
                &mut self.harness.runs,
                scene,
                exit,
                error,
            );
        }
        self.drain(scene, SceneDrainHook::AdmissionClosed);
        self.drain(scene, SceneDrainHook::CleanupStarted);
        if cancellation_started {
            self.drain(scene, SceneDrainHook::CancellationStarted);
        }
        self.drain(scene, SceneDrainHook::CleanupFinished);
        self.scenes.observe_scene(
            &self.harness.runtimes,
            &mut self.harness.runs,
            scene,
            SceneHook::SceneFinished,
        );
        self.scenes.task_finished(
            &self.harness.runtimes,
            &mut self.harness.runs,
            scene,
            task_error,
        );
    }

    fn start_of(&self, name: &str, wanted: SpanKind) -> Option<usize> {
        self.harness.log.borrow().iter().position(|fact| {
            fact.scope.scene_id == Some(id(name))
                && matches!(fact.seen, Seen::Started { kind, .. } if kind == wanted)
        })
    }

    fn started(&self, name: &str, wanted: SpanKind) -> usize {
        self.start_of(name, wanted).expect("span started")
    }

    fn finished(&self, name: &str, start: usize) -> usize {
        let span = start as u64 + 1;
        self.harness
            .log
            .borrow()
            .iter()
            .position(|fact| {
                fact.scope.scene_id == Some(id(name))
                    && matches!(fact.seen, Seen::Finished { span_id, .. } if span_id == span)
            })
            .expect("span finished")
    }

    fn assert_terminal(
        &self,
        name: &str,
        kind: SpanKind,
        outcome: SpanOutcome,
        code: Option<&str>,
    ) {
        let start = self.started(name, kind);
        let finish = self.finished(name, start);
        assert_finish(&self.harness.log, finish, start as u64 + 1, outcome, code);
    }
}

#[test]
fn normal_drain_and_cancellation_handoff_have_exact_causal_order() {
    Python::initialize();
    let mut stage = Stage::new(None);
    let returned = PyStopIteration::new_err(());
    let normal = stage.scene("scene-normal-drain");
    stage.close_scene(&normal, Some((SceneDriverExit::Returned, Some(&returned))), false, None);
    let cancelling = stage.scene("scene-cancel-existing");
    stage.close_scene(&cancelling, Some((SceneDriverExit::Returned, Some(&returned))), true, None);

    let log = stage.harness.log.clone();
    for (name, relation) in [
        ("scene-normal-drain", CausalRelation::FollowsFrom),
        ("scene-cancel-existing", CausalRelation::Handoff),
    ] {
        let lifecycle = stage.started(name, SpanKind::SceneLifecycle);
        let drain = stage.started(name, SpanKind::SceneDrain);
        let cleanup = stage.started(name, SpanKind::SceneCleanup);
        let drain_finish = stage.finished(name, drain);
        let cleanup_finish = stage.finished(name, cleanup);
        let lifecycle_finish = stage.finished(name, lifecycle);

        let parent = Some(lifecycle as u64 + 1);
        assert_start(&log, drain, SpanKind::SceneDrain, parent);
        assert_start(&log, cleanup, SpanKind::SceneCleanup, parent);
        assert_cause(&log, drain, lifecycle as u64 + 1, CausalRelation::FollowsFrom);
        assert_cause(&log, cleanup, drain as u64 + 1, CausalRelation::Handoff);
        assert_cause(&log, drain_finish, drain as u64 + 1, relation);
        assert_cause(&log, cleanup_finish, drain_finish as u64 + 1, CausalRelation::Handoff);
        assert_finish(&log, drain_finish, drain as u64 + 1, SpanOutcome::Completed, None);
        assert_finish(&log, cleanup_finish, cleanup as u64 + 1, SpanOutcome::Completed, None);
        assert!(cleanup_finish < lifecycle_finish);
    }
    assert_facts_refer_back(&stage.harness.log);
    stage.harness.finish();
}

#[test]
fn task_failures_and_cancellation_are_normalized_without_payload_capture() {
    Python::initialize();
    let mut stage = Stage::new(None);
    let cases = [
        (
            "scene-user-failure",
            PyRuntimeError::new_err("secret user failure"),
            SpanOutcome::Failed,
            Some("scene-drain-failed"),
        ),
        (
            "scene-system-exit",
            PySystemExit::new_err("secret signal payload"),
            SpanOutcome::Failed,
            Some("scene-drain-failed"),
        ),
        (
            "scene-timeout",
            PyTimeoutError::new_err("secret timeout payload"),
            SpanOutcome::Failed,
            Some("scene-drain-failed"),
        ),
        (
            "scene-cancelled",
            cancelled_error(""),
            SpanOutcome::Cancelled,
            Some("scene-drain-cancelled"),
        ),
    ];
    for (name, error, _, _) in &cases {
        let scene = stage.scene(name);
        stage.close_scene(
            &scene,
            Some((SceneDriverExit::Returned, Some(error))),
            false,
            Some(error),
        );
    }
    for (name, _, outcome, code) in &cases {
        stage.assert_terminal(name, SpanKind::SceneDrain, *outcome, *code);
        stage.assert_terminal(name, SpanKind::SceneCleanup, SpanOutcome::Completed, None);
    }
    assert!(stage.harness.log.borrow().iter().all(|fact| {
        !fact.text.contains("secret user failure")
            && !fact.text.contains("secret signal payload")
            && !fact.text.contains("secret timeout payload")
    }));
    stage.harness.finish();
}

#[test]
fn explicit_close_keeps_drain_cancellation_distinct_from_cleanup_failure() {
    Python::initialize();
    let mut stage = Stage::new(None);
    let closed = stage.scene("scene-closed");
    stage.close_scene(&closed, Some((SceneDriverExit::Closed, None)), false, None);
    let cleanup_failed = stage.scene("scene-cleanup-failed");
    let error = PyRuntimeError::new_err("secret cleanup failure");
    stage.close_scene(
        &cleanup_failed,
        Some((SceneDriverExit::Closed, Some(&error))),
        false,
        Some(&error),
    );

    for name in ["scene-closed", "scene-cleanup-failed"] {
        stage.assert_terminal(
            name,
            SpanKind::SceneDrain,
            SpanOutcome::Cancelled,
            Some("scene-drain-cancelled"),
        );
    }
    stage.assert_terminal("scene-closed", SpanKind::SceneCleanup, SpanOutcome::Completed, None);
    stage.assert_terminal(
        "scene-cleanup-failed",
        SpanKind::SceneCleanup,
        SpanOutcome::Failed,
        Some("scene-cleanup-failed"),
    );
    assert!(stage
        .harness
        .log
        .borrow()
        .iter()
        .all(|fact| !fact.text.contains("secret cleanup failure")));
    stage.harness.finish();
}

#[test]
fn lost_driver_terminal_emits_a_gap_without_a_fake_drain_span() {
    Python::initialize();
    let mut stage = Stage::new(None);
    let cleared = stage.scene("scene-driver-cleared");
    stage.close_scene(&cleared, Some((SceneDriverExit::Cleared, None)), false, None);
    let missing = stage.scene("scene-driver-missing");
    let task_error = PyRuntimeError::new_err("task creation failed before driver handoff");
    stage.close_scene(&missing, None, false, Some(&task_error));

    let log = stage.harness.log.clone();
    for name in ["scene-driver-cleared", "scene-driver-missing"] {
        assert!(stage.start_of(name, SpanKind::SceneDrain).is_none());
        let gap = log
            .borrow()
            .iter()
            .position(|fact| {
                fact.scope.scene_id == Some(id(name)) && matches!(fact.seen, Seen::Gap { .. })
            })
            .expect("lost driver emits a gap");
        assert_eq!(
            log.borrow()[gap].seen,
            Seen::Gap { producer: "runtime", reason: "scene-driver-terminal-unobserved" }
        );
        let text = log.borrow()[gap].text.clone();
        assert!(text.contains("component: Some(\"scene-drain\")"));
        assert!(text.contains("lost_count: Some(1)"));
        assert!(text.contains("affected_kind: Some(SpanFinished)"));
        let lifecycle = stage.started(name, SpanKind::SceneLifecycle);
        assert_cause(&log, gap, lifecycle as u64 + 1, CausalRelation::FollowsFrom);
        stage.assert_terminal(name, SpanKind::SceneCleanup, SpanOutcome::Completed, None);
    }
    assert!(log
        .borrow()
        .iter()
        .all(|fact| !fact.text.contains("task creation failed before driver handoff")));
    stage.harness.finish();
}

#[test]
fn drain_admission_failure_latches_runtime_and_expires_state() {
    Python::initialize();
    let mut stage = Stage::new(Some(5));
    let scene = stage.scene("scene-drain-admission-failure");
    let returned = PyStopIteration::new_err(());
    stage.close_scene(&scene, Some((SceneDriverExit::Returned, Some(&returned))), false, None);

    assert!(stage.drains.producers.get(&scene.key).is_none());
    assert_eq!(stage.harness.failure().as_deref(), Some("diagnostic.admission-failed"));
    assert_eq!(stage.harness.log.borrow().len(), 4);
}

#[test]
fn drain_hooks_out_of_place_have_their_codes() {
    let cases: [(&[SceneDrainHook], &str); 4] = [
        (&[SceneDrainHook::CleanupStarted], "scene.cleanup-start-transition-invalid"),
        (&[SceneDrainHook::CancellationStarted], "scene.cancellation-transition-invalid"),
        (&[SceneDrainHook::CleanupFinished], "scene.cleanup-terminal-transition-invalid"),
        (
            &[SceneDrainHook::AdmissionClosed, SceneDrainHook::AdmissionClosed],
            "scene.drain-admission-transition-invalid",
        ),
    ];
    for (hooks, code) in cases {
        let mut stage = Stage::new(None);
        let scene = stage.scene("scene-out-of-place");
        for hook in hooks {
            stage.drain(&scene, *hook);
        }
        assert_eq!(stage.harness.failure().as_deref(), Some(code));
        let reported = stage.harness.log.borrow().len();
        stage.drain(&scene, SceneDrainHook::AdmissionClosed);
        assert_eq!(stage.harness.log.borrow().len(), reported);
    }
}
