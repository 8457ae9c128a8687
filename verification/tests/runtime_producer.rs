use diagnostic_runtime::context::{
    DiagnosticRunContext, HubAdmissionError, HubRefusal, SpanEventAdmission, TimeError,
};
#[allow(unused_imports)]
use diagnostic_runtime::event::{
    CausalLink, CausalRelation, CounterKind, DiagnosticScope, ErrorCode, EventBody, EventCandidate,
    InstantKind, RunLocalId, SpanKind, SpanOutcome,
};
#[allow(unused_imports)]
use diagnostic_runtime::run::{DiagnosticRun, DiagnosticRuns, RuntimeProducerError};
use std::cell::{Cell, RefCell};
use std::rc::Rc;
use diagnostic_runtime::runtime_producer::{
    RuntimeHook, RuntimeProducerRegistry, RuntimeTaskPhase,
};
use pyo3::exceptions::PyRuntimeError;
use pyo3::types::PyAnyMethods;
use pyo3::{PyErr, Python};

#[derive(Debug, PartialEq)]
enum Seen {
    Started { kind: SpanKind, parent: Option<u64> },
    Finished { span_id: u64, outcome: SpanOutcome, code: Option<String> },
    Instant { kind: InstantKind, containing: Option<u64> },
    Counter { kind: CounterKind, value: u64 },
    Gap { producer: &'static str, reason: &'static str },
    CustomStarted { name: String, parent: Option<u64> },
    CustomFinished { span_id: u64, outcome: SpanOutcome },
    CustomInstant { name: String, containing: Option<u64> },
    Other,
}

#[allow(dead_code)]
struct Fact {
    sequence: u64,
    elapsed_ns: u64,
    scope: DiagnosticScope,
    cause: Option<CausalLink>,
    seen: Seen,
    unheard: bool,
    text: String,
}

type Log = Rc<RefCell<Vec<Fact>>>;

/// A hub that numbers events from 1, and refuses the attempt that it is told to.
struct Recorder {
    log: Log,
    attempts: usize,
    fail_on_attempt: Option<usize>,
    clock: u64,
    /// The subscribers of acts hear of its events.
    heard: Rc<Cell<bool>>,
}

impl SpanEventAdmission for Recorder {
    fn told(&self) -> diagnostic_runtime::context::AdmissionLog {
        unreachable!()
    }

    fn hub(&self) -> diagnostic_runtime::context::HubIdentity {
        unreachable!()
    }

    fn share(&self) -> Self {
        Recorder {
            log: self.log.clone(),
            attempts: self.attempts,
            fail_on_attempt: self.fail_on_attempt,
            clock: self.clock,
            heard: self.heard.clone(),
        }
    }

    fn install_act_subscribers(&mut self) -> Result<(), String> {
        if self.heard.replace(true) {
            Err("Act subscribers are already installed".to_owned())
        } else {
            Ok(())
        }
    }

    fn elapsed_now(&mut self) -> Result<u64, TimeError> {
        self.clock += 10;
        Ok(self.clock)
    }

    fn admit_event(
        &mut self,
        elapsed_ns: u64,
        candidate: &EventCandidate,
    ) -> Result<u64, HubAdmissionError> {
        self.attempts += 1;
        if self.fail_on_attempt == Some(self.attempts) {
            return Err(HubAdmissionError {
                refusal: HubRefusal::Reservation,
                message: "injected diagnostic admission failure".to_owned(),
            });
        }
        let sequence = self.log.borrow().len() as u64 + 1;
        let seen = match &candidate.body {
            EventBody::SpanStarted { detail, parent_span_id } => {
                Seen::Started { kind: detail.kind(), parent: *parent_span_id }
            }
            EventBody::SpanFinished { span_id, outcome, error_code } => Seen::Finished {
                span_id: *span_id,
                outcome: *outcome,
                code: error_code.as_ref().map(|code| match code {
                    ErrorCode::Stable(code) => (*code).to_owned(),
                    ErrorCode::Reported(code) => code.clone(),
                }),
            },
            EventBody::InstantOccurred { instant, containing_span_id } => {
                Seen::Instant { kind: instant.kind(), containing: *containing_span_id }
            }
            EventBody::CounterSampled { kind, value } => {
                Seen::Counter { kind: *kind, value: *value }
            }
            EventBody::ObservationGap(gap) => {
                Seen::Gap { producer: gap.producer, reason: gap.reason }
            }
            EventBody::CustomSpanStarted { name, parent_id, .. } => {
                Seen::CustomStarted { name: name.clone(), parent: *parent_id }
            }
            EventBody::CustomSpanFinished { custom_span_id, custom_outcome } => {
                Seen::CustomFinished { span_id: *custom_span_id, outcome: *custom_outcome }
            }
            EventBody::CustomInstantOccurred { name, containing_id, .. } => {
                Seen::CustomInstant { name: name.clone(), containing: *containing_id }
            }
            _ => Seen::Other,
        };
        self.log.borrow_mut().push(Fact {
            sequence,
            elapsed_ns,
            scope: candidate.scope.clone(),
            cause: candidate.cause,
            seen,
            unheard: candidate.unheard,
            text: format!("{candidate:?}"),
        });
        Ok(sequence)
    }
}

fn recorder(fail_on_attempt: Option<usize>) -> (Recorder, Log) {
    let log: Log = Rc::new(RefCell::new(Vec::new()));
    (Recorder { log: log.clone(), attempts: 0, fail_on_attempt, clock: 0, heard: Rc::default() }, log)
}

#[allow(dead_code)]
fn failure_code(run: &DiagnosticRun<Recorder>) -> Option<String> {
    run.failure().map(|failure| failure.code().to_owned())
}

#[allow(dead_code)]
fn assert_start(log: &Log, index: usize, kind: SpanKind, parent: Option<u64>) {
    let facts = log.borrow();
    assert_eq!(facts[index].sequence, index as u64 + 1);
    assert_eq!(facts[index].seen, Seen::Started { kind, parent });
}

#[allow(dead_code)]
fn assert_finish(
    log: &Log,
    index: usize,
    span_id: u64,
    outcome: SpanOutcome,
    error_code: Option<&str>,
) {
    let facts = log.borrow();
    assert_eq!(facts[index].sequence, index as u64 + 1);
    assert_eq!(
        facts[index].seen,
        Seen::Finished { span_id, outcome, code: error_code.map(str::to_owned) }
    );
}

#[allow(dead_code)]
fn assert_instant(log: &Log, index: usize, kind: InstantKind, containing: Option<u64>) {
    let facts = log.borrow();
    assert_eq!(facts[index].sequence, index as u64 + 1);
    assert_eq!(facts[index].seen, Seen::Instant { kind, containing });
}

#[allow(dead_code)]
fn assert_cause(log: &Log, index: usize, sequence: u64, relation: CausalRelation) {
    assert_eq!(log.borrow()[index].cause, Some(CausalLink { sequence, relation }));
}


/// Every fact refers only to spans that have begun and to facts that came before it.
#[allow(dead_code)]
fn assert_facts_refer_back(log: &Log) {
    let facts = log.borrow();
    let mut begun: Vec<u64> = Vec::new();
    for fact in facts.iter() {
        let (within, ended) = match &fact.seen {
            Seen::Started { parent, .. } | Seen::CustomStarted { parent, .. } => (*parent, None),
            Seen::Instant { containing, .. } | Seen::CustomInstant { containing, .. } => {
                (*containing, None)
            }
            Seen::Finished { span_id, .. } | Seen::CustomFinished { span_id, .. } => {
                (None, Some(*span_id))
            }
            _ => (None, None),
        };
        assert!(within.is_none_or(|span_id| begun.contains(&span_id)), "{}", fact.text);
        assert!(ended.is_none_or(|span_id| begun.contains(&span_id)), "{}", fact.text);
        assert!(fact.cause.is_none_or(|cause| cause.sequence < fact.sequence), "{}", fact.text);
        if matches!(fact.seen, Seen::Started { .. } | Seen::CustomStarted { .. }) {
            begun.push(fact.sequence);
        }
    }
}

const CORE: usize = 7;
const BINDING: usize = 11;

/// The registry and the one run of a test.
struct Stage {
    registry: RuntimeProducerRegistry,
    runs: DiagnosticRuns<Recorder>,
    log: Log,
}

fn stage(fail_on_attempt: Option<usize>) -> Stage {
    let (recorder, log) = recorder(fail_on_attempt);
    let mut runs = DiagnosticRuns::new();
    let mut registry = RuntimeProducerRegistry::new();
    registry
        .install(&mut runs, DiagnosticRunContext::new(recorder), CORE, BINDING)
        .expect("install runtime producer");
    Stage { registry, runs, log }
}

impl Stage {
    fn started(&mut self) {
        self.registry.run_started(&mut self.runs, CORE, BINDING);
    }

    fn observe(&mut self, hook: RuntimeHook, error: Option<&PyErr>) {
        self.registry.observe_binding_error(&mut self.runs, BINDING, hook, error);
    }

    fn shutdown(&mut self) {
        self.registry.observe_core(&mut self.runs, CORE, RuntimeHook::ShutdownRequested);
    }

    fn finished(&mut self) {
        self.registry.observe_core(&mut self.runs, CORE, RuntimeHook::RunFinished);
    }

    fn containing_span(&self, phase: RuntimeTaskPhase) -> Option<u64> {
        self.registry
            .lineage_snapshot(&self.runs, BINDING, phase)
            .map(|snapshot| snapshot.containing_span_id)
    }

    fn failure(&self) -> Option<String> {
        failure_code(&self.runs.runs[0])
    }
}

fn cancelled_error(py: Python<'_>) -> PyErr {
    py.import("asyncio")
        .and_then(|asyncio| asyncio.getattr("CancelledError"))
        .and_then(|cancelled| cancelled.call0())
        .map(PyErr::from_value)
        .expect("construct CancelledError")
}

#[test]
fn success_path_emits_exact_nested_lifecycle_pairs() {
    let mut stage = stage(None);
    stage.started();
    stage.observe(RuntimeHook::ProductionStartEntered, None);
    let lineage = stage
        .registry
        .lineage_snapshot(&stage.runs, BINDING, RuntimeTaskPhase::Start)
        .expect("open start phase exposes lineage");
    assert_eq!(lineage.run, 0);
    assert_eq!(lineage.containing_span_id, 2);
    assert_eq!(lineage.scope, stage.log.borrow()[0].scope);
    stage.observe(RuntimeHook::ProductionStartReturned, None);
    assert!(stage.containing_span(RuntimeTaskPhase::Start).is_none());
    stage.shutdown();
    stage.observe(RuntimeHook::ProductionStopEntered, None);
    assert_eq!(stage.containing_span(RuntimeTaskPhase::Stop), Some(5));
    stage.observe(RuntimeHook::ProductionStopReturned, None);
    assert!(stage.containing_span(RuntimeTaskPhase::Stop).is_none());
    stage.observe(RuntimeHook::RunLifecycleReturned, None);
    stage.finished();

    assert_eq!(stage.failure(), None);
    assert!(stage.registry.producer_for_binding(BINDING).is_none());
    let log = &stage.log;
    assert_eq!(log.borrow().len(), 8);
    assert_start(log, 0, SpanKind::RunLifecycle, None);
    assert_start(log, 1, SpanKind::ProductionStart, Some(1));
    assert_finish(log, 2, 2, SpanOutcome::Completed, None);
    assert_start(log, 3, SpanKind::ProductionShutdown, Some(1));
    assert_start(log, 4, SpanKind::ProductionStop, Some(1));
    assert_finish(log, 5, 5, SpanOutcome::Completed, None);
    assert_finish(log, 6, 4, SpanOutcome::Completed, None);
    assert_finish(log, 7, 1, SpanOutcome::Completed, None);
    assert_facts_refer_back(log);
    let facts = log.borrow();
    assert!(facts.windows(2).all(|pair| pair[0].elapsed_ns <= pair[1].elapsed_ns));
    assert!(facts.iter().all(|fact| fact.scope == facts[0].scope));
    assert_eq!(
        stage.registry.producers[0].terminal_outcome(&stage.runs.runs[0]),
        Ok(SpanOutcome::Completed)
    );
}

#[test]
fn start_failure_closes_only_proven_spans_and_keeps_payload_out() {
    Python::initialize();
    let error = PyRuntimeError::new_err("secret start payload");
    let mut stage = stage(None);
    stage.started();
    stage.observe(RuntimeHook::ProductionStartEntered, None);
    stage.observe(RuntimeHook::ProductionStartReturned, Some(&error));
    stage.observe(RuntimeHook::RunLifecycleReturned, Some(&error));
    stage.finished();

    assert_eq!(stage.failure(), None);
    let log = &stage.log;
    assert_eq!(log.borrow().len(), 4);
    assert_start(log, 0, SpanKind::RunLifecycle, None);
    assert_start(log, 1, SpanKind::ProductionStart, Some(1));
    assert_finish(log, 2, 2, SpanOutcome::Failed, Some("production-start-failed"));
    assert_finish(log, 3, 1, SpanOutcome::Failed, Some("production-start-failed"));
    assert!(log.borrow().iter().all(|fact| !fact.text.contains("secret start payload")));
}

#[test]
fn cancelled_start_is_distinct_and_does_not_invent_stop() {
    Python::initialize();
    let cancelled = Python::attach(cancelled_error);
    let mut stage = stage(None);
    stage.started();
    stage.observe(RuntimeHook::ProductionStartEntered, None);
    stage.shutdown();
    stage.observe(RuntimeHook::ProductionStartReturned, Some(&cancelled));
    stage.observe(RuntimeHook::RunLifecycleReturned, Some(&cancelled));
    stage.finished();

    let log = &stage.log;
    assert_eq!(log.borrow().len(), 6);
    assert_finish(log, 3, 2, SpanOutcome::Cancelled, Some("production-start-cancelled"));
    assert_finish(log, 4, 3, SpanOutcome::Cancelled, Some("production-shutdown-cancelled"));
    assert_finish(log, 5, 1, SpanOutcome::Cancelled, Some("production-lifecycle-cancelled"));
}

#[test]
fn aggregate_failure_after_phase_hooks_uses_authoritative_final_result() {
    Python::initialize();
    let aggregate = PyRuntimeError::new_err("task factory restore payload");
    let mut stage = stage(None);
    stage.started();
    stage.observe(RuntimeHook::ProductionStartEntered, None);
    stage.observe(RuntimeHook::ProductionStartReturned, None);
    stage.shutdown();
    stage.observe(RuntimeHook::ProductionStopEntered, None);
    stage.observe(RuntimeHook::ProductionStopReturned, None);
    stage.observe(RuntimeHook::RunLifecycleReturned, Some(&aggregate));
    stage.finished();

    let log = &stage.log;
    assert_eq!(log.borrow().len(), 8);
    assert_finish(log, 6, 4, SpanOutcome::Failed, Some("production-shutdown-failed"));
    assert_finish(log, 7, 1, SpanOutcome::Failed, Some("production-lifecycle-failed"));
    assert!(log.borrow().iter().all(|fact| !fact.text.contains("task factory restore payload")));
}

#[test]
fn admission_failure_is_latched_without_replacing_user_failure() {
    Python::initialize();
    let error = PyRuntimeError::new_err("original user object");
    let mut stage = stage(Some(3));
    stage.started();
    stage.observe(RuntimeHook::ProductionStartEntered, None);
    stage.observe(RuntimeHook::ProductionStartReturned, Some(&error));
    Python::attach(|py| {
        assert_eq!(error.value(py).to_string(), "original user object");
    });
    assert_eq!(stage.failure().as_deref(), Some("diagnostic.admission-failed"));
    stage.observe(RuntimeHook::RunLifecycleReturned, Some(&error));
    stage.finished();

    assert_eq!(stage.log.borrow().len(), 2);
    assert!(stage.registry.producer_for_binding(BINDING).is_none());
}

#[test]
fn missing_final_result_leaves_run_open_instead_of_guessing() {
    let mut stage = stage(None);
    stage.started();
    stage.observe(RuntimeHook::ProductionStartEntered, None);
    stage.observe(RuntimeHook::ProductionStartReturned, None);
    stage.finished();

    assert_eq!(stage.log.borrow().len(), 3);
    assert_eq!(
        stage.failure().as_deref(),
        Some("runtime.run-finished-before-lifecycle-return")
    );
}

#[test]
fn inactive_hooks_remain_allocation_and_event_free() {
    let (recorder, log) = recorder(None);
    let mut runs = DiagnosticRuns::new();
    runs.open(recorder);
    let mut registry = RuntimeProducerRegistry::new();
    registry.observe_core(&mut runs, CORE, RuntimeHook::ShutdownRequested);
    registry.observe_core(&mut runs, CORE, RuntimeHook::RunFinished);
    assert!(registry.producer_for_core(CORE).is_none());
    assert!(log.borrow().is_empty());
}

#[test]
fn a_core_and_a_binding_have_one_producer() {
    let mut stage = stage(None);
    let context = stage.runs.runs[0].context.share();
    let refused = stage.registry.install(&mut stage.runs, context, CORE, 99);
    assert_eq!(
        refused.map_err(|error| error.code().to_owned()),
        Err("runtime.diagnostic-producer-already-installed".to_owned())
    );
    assert_eq!(stage.log.borrow().len(), 1);
}

#[test]
fn the_first_failure_stays_and_a_failed_run_rests() {
    let mut stage = stage(None);
    stage.observe(RuntimeHook::ProductionStopEntered, None);
    assert_eq!(
        stage.failure().as_deref(),
        Some("runtime.production-stop-transition-invalid")
    );
    stage.started();
    stage.observe(RuntimeHook::ProductionStartEntered, None);
    stage.finished();
    assert_eq!(
        stage.failure().as_deref(),
        Some("runtime.production-stop-transition-invalid")
    );
    assert_eq!(stage.log.borrow().len(), 1);
}

#[test]
fn every_hook_out_of_place_has_its_code() {
    let cases: [(&[RuntimeHook], &str); 8] = [
        (&[RuntimeHook::RunStarted, RuntimeHook::RunStarted], "runtime.run-start-transition-invalid"),
        (
            &[RuntimeHook::ProductionStartEntered],
            "runtime.production-start-transition-invalid",
        ),
        (
            &[RuntimeHook::ProductionStartReturned],
            "runtime.production-start-return-without-entry",
        ),
        (&[RuntimeHook::ProductionStopReturned], "runtime.production-stop-return-without-entry"),
        (
            &[RuntimeHook::ShutdownRequested, RuntimeHook::ShutdownRequested],
            "runtime.production-shutdown-transition-invalid",
        ),
        (&[RuntimeHook::RunLifecycleReturned], "runtime.lifecycle-return-with-unproven-phases"),
        (
            &[
                RuntimeHook::RunStarted,
                RuntimeHook::ProductionStartEntered,
                RuntimeHook::ProductionStartReturned,
                RuntimeHook::ProductionStopEntered,
                RuntimeHook::ProductionStopReturned,
                RuntimeHook::RunLifecycleReturned,
                RuntimeHook::RunLifecycleReturned,
            ],
            "runtime.lifecycle-return-transition-invalid",
        ),
        (&[RuntimeHook::RunFinished], "runtime.run-finished-before-lifecycle-return"),
    ];
    for (hooks, code) in cases {
        let mut stage = stage(None);
        for hook in hooks {
            stage.observe(*hook, None);
        }
        assert_eq!(stage.failure().as_deref(), Some(code));
    }
}

#[test]
fn producers_on_one_hub_fail_apart() {
    let mut stage = stage(None);
    let context = stage.runs.runs[0].context.share();
    let second = stage
        .registry
        .install(&mut stage.runs, context, CORE + 1, BINDING + 1)
        .expect("install a second producer on the same hub");
    assert_eq!(stage.log.borrow().len(), 2);
    let run = stage.registry.producers[second].run;
    assert_ne!(run, stage.registry.producers[0].run);

    stage.registry.run_started(&mut stage.runs, CORE, BINDING + 1);
    assert_eq!(
        failure_code(&stage.runs.runs[0]).as_deref(),
        Some("runtime.run-binding-producer-mismatch")
    );
    assert_eq!(failure_code(&stage.runs.runs[run]), None);
    assert!(!stage.registry.producers[second].state.run_started);
    assert_eq!(stage.log.borrow().len(), 2);

    stage.registry.run_started(&mut stage.runs, CORE + 1, BINDING + 1);
    assert!(stage.registry.producers[second].state.run_started);
    assert_eq!(failure_code(&stage.runs.runs[run]), None);

    let context = stage.runs.runs[0].context.share();
    let third = stage
        .registry
        .install(&mut stage.runs, context, CORE + 2, BINDING + 2)
        .expect("install a producer on the hub of one that has failed");
    assert_eq!(failure_code(&stage.runs.runs[stage.registry.producers[third].run]), None);
}
