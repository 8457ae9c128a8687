use diagnostic_runtime::context::{HubAdmissionError, HubRefusal, SpanEventAdmission, TimeError};
#[allow(unused_imports)]
use diagnostic_runtime::event::{
    CausalLink, CausalRelation, CounterKind, DiagnosticScope, ErrorCode, EventBody, EventCandidate,
    InstantKind, RunLocalId, SpanKind, SpanOutcome,
};
#[allow(unused_imports)]
use diagnostic_runtime::run::{DiagnosticRun, DiagnosticRuns, RuntimeProducerError};
use std::cell::{Cell, RefCell};
use std::rc::Rc;
use diagnostic_runtime::context::{DiagnosticProducerError, DiagnosticRunContext};
use diagnostic_runtime::load_producer::{
    normalized_python_error_code, LoadFailure, LoadProducerError, ObservedProductionClass,
    ProductionLoadProducer, ResolveClassError,
};
use pyo3::exceptions::{PyRuntimeError, PySystemExit};
use pyo3::types::PyAnyMethods;
use pyo3::{PyErr, PyTypeInfo, Python};

#[derive(Debug, PartialEq)]
enum Seen {
    Started { kind: SpanKind, parent: Option<u64> },
    Finished { span_id: u64, outcome: SpanOutcome, code: Option<String> },
    Instant { kind: InstantKind, containing: Option<u64> },
    Counter { kind: CounterKind, value: u64 },
    Gap { producer: &'static str, reason: &'static str },
    CustomStarted { name: String, parent: Option<u64> },
    CustomFinished { span_id: u64, outcome: SpanOutcome },
    CustomInstant { name: String, containing: Option<u64> },
    Other,
}

#[allow(dead_code)]
struct Fact {
    sequence: u64,
    elapsed_ns: u64,
    scope: DiagnosticScope,
    cause: Option<CausalLink>,
    seen: Seen,
    unheard: bool,
    text: String,
}

type Log = Rc<RefCell<Vec<Fact>>>;

/// A hub that numbers events from 1, and refuses the attempt that it is told to.
struct Recorder {
    log: Log,
    attempts: usize,
    fail_on_attempt: Option<usize>,
    clock: u64,
    /// The subscribers of acts hear of its events.
    heard: Rc<Cell<bool>>,
}

impl SpanEventAdmission for Recorder {
    fn told(&self) -> diagnostic_runtime::context::AdmissionLog {
        unreachable!()
    }

    fn hub(&self) -> diagnostic_runtime::context::HubIdentity {
        unreachable!()
    }

    fn share(&self) -> Self {
        Recorder {
            log: self.log.clone(),
            attempts: self.attempts,
            fail_on_attempt: self.fail_on_attempt,
            clock: self.clock,
            heard: self.heard.clone(),
        }
    }

    fn install_act_subscribers(&mut self) -> Result<(), String> {
        if self.heard.replace(true) {
            Err("Act subscribers are already installed".to_owned())
        } else {
            Ok(())
        }
    }

    fn elapsed_now(&mut self) -> Result<u64, TimeError> {
        self.clock += 10;
        Ok(self.clock)
    }

    fn admit_event(
        &mut self,
        elapsed_ns: u64,
        candidate: &EventCandidate,
    ) -> Result<u64, HubAdmissionError> {
        self.attempts += 1;
        if self.fail_on_attempt == Some(self.attempts) {
            return Err(HubAdmissionError {
                refusal: HubRefusal::Reservation,
                message: "injected diagnostic admission failure".to_owned(),
            });
        }
        let sequence = self.log.borrow().len() as u64 + 1;
        let seen = match &candidate.body {
            EventBody::SpanStarted { detail, parent_span_id } => {
                Seen::Started { kind: detail.kind(), parent: *parent_span_id }
            }
            EventBody::SpanFinished { span_id, outcome, error_code } => Seen::Finished {
                span_id: *span_id,
                outcome: *outcome,
                code: error_code.as_ref().map(|code| match code {
                    ErrorCode::Stable(code) => (*code).to_owned(),
                    ErrorCode::Reported(code) => code.clone(),
                }),
            },
            EventBody::InstantOccurred { instant, containing_span_id } => {
                Seen::Instant { kind: instant.kind(), containing: *containing_span_id }
            }
            EventBody::CounterSampled { kind, value } => {
                Seen::Counter { kind: *kind, value: *value }
            }
            EventBody::ObservationGap(gap) => {
                Seen::Gap { producer: gap.producer, reason: gap.reason }
            }
            EventBody::CustomSpanStarted { name, parent_id, .. } => {
                Seen::CustomStarted { name: name.clone(), parent: *parent_id }
            }
            EventBody::CustomSpanFinished { custom_span_id, custom_outcome } => {
                Seen::CustomFinished { span_id: *custom_span_id, outcome: *custom_outcome }
            }
            EventBody::CustomInstantOccurred { name, containing_id, .. } => {
                Seen::CustomInstant { name: name.clone(), containing: *containing_id }
            }
            _ => Seen::Other,
        };
        self.log.borrow_mut().push(Fact {
            sequence,
            elapsed_ns,
            scope: candidate.scope.clone(),
            cause: candidate.cause,
            seen,
            unheard: candidate.unheard,
            text: format!("{candidate:?}"),
        });
        Ok(sequence)
    }
}

fn recorder(fail_on_attempt: Option<usize>) -> (Recorder, Log) {
    let log: Log = Rc::new(RefCell::new(Vec::new()));
    (Recorder { log: log.clone(), attempts: 0, fail_on_attempt, clock: 0, heard: Rc::default() }, log)
}

#[allow(dead_code)]
fn failure_code(run: &DiagnosticRun<Recorder>) -> Option<String> {
    run.failure().map(|failure| failure.code().to_owned())
}

#[allow(dead_code)]
fn assert_start(log: &Log, index: usize, kind: SpanKind, parent: Option<u64>) {
    let facts = log.borrow();
    assert_eq!(facts[index].sequence, index as u64 + 1);
    assert_eq!(facts[index].seen, Seen::Started { kind, parent });
}

#[allow(dead_code)]
fn assert_finish(
    log: &Log,
    index: usize,
    span_id: u64,
    outcome: SpanOutcome,
    error_code: Option<&str>,
) {
    let facts = log.borrow();
    assert_eq!(facts[index].sequence, index as u64 + 1);
    assert_eq!(
        facts[index].seen,
        Seen::Finished { span_id, outcome, code: error_code.map(str::to_owned) }
    );
}

#[allow(dead_code)]
fn assert_instant(log: &Log, index: usize, kind: InstantKind, containing: Option<u64>) {
    let facts = log.borrow();
    assert_eq!(facts[index].sequence, index as u64 + 1);
    assert_eq!(facts[index].seen, Seen::Instant { kind, containing });
}

#[allow(dead_code)]
fn assert_cause(log: &Log, index: usize, sequence: u64, relation: CausalRelation) {
    assert_eq!(log.borrow()[index].cause, Some(CausalLink { sequence, relation }));
}


/// Every fact refers only to spans that have begun and to facts that came before it.
#[allow(dead_code)]
fn assert_facts_refer_back(log: &Log) {
    let facts = log.borrow();
    let mut begun: Vec<u64> = Vec::new();
    for fact in facts.iter() {
        let (within, ended) = match &fact.seen {
            Seen::Started { parent, .. } | Seen::CustomStarted { parent, .. } => (*parent, None),
            Seen::Instant { containing, .. } | Seen::CustomInstant { containing, .. } => {
                (*containing, None)
            }
            Seen::Finished { span_id, .. } | Seen::CustomFinished { span_id, .. } => {
                (None, Some(*span_id))
            }
            _ => (None, None),
        };
        assert!(within.is_none_or(|span_id| begun.contains(&span_id)), "{}", fact.text);
        assert!(ended.is_none_or(|span_id| begun.contains(&span_id)), "{}", fact.text);
        assert!(fact.cause.is_none_or(|cause| cause.sequence < fact.sequence), "{}", fact.text);
        if matches!(fact.seen, Seen::Started { .. } | Seen::CustomStarted { .. }) {
            begun.push(fact.sequence);
        }
    }
}

fn make_producer(
    production_root: &str,
    fail_on_attempt: Option<usize>,
) -> (ProductionLoadProducer, DiagnosticRunContext<Recorder>, Log) {
    let (recorder, log) = recorder(fail_on_attempt);
    let producer = ProductionLoadProducer::new(Some(production_root.to_owned()))
        .expect("the root is text");
    (producer, DiagnosticRunContext::new(recorder), log)
}

/// An error of the loader, which carries its reason.
fn production_load_error(reason: &str) -> PyErr {
    Python::attach(|py| {
        let error = PyRuntimeError::new_err("production could not be loaded");
        error.value(py).setattr("reason", reason).expect("attach the reason");
        error
    })
}

fn python_reason(error: &LoadProducerError) -> String {
    let error = error.python_error().expect("retain original Python error");
    Python::attach(|py| {
        error
            .value(py)
            .getattr("reason")
            .and_then(|reason| reason.extract::<String>())
            .expect("the error carries a stable reason")
    })
}

/// Resolves the path of a package, as the loader finds it.
fn resolve_path(
    producer: &ProductionLoadProducer,
    context: &mut DiagnosticRunContext<Recorder>,
    package: &str,
    outcome: Result<(), PyErr>,
) -> Result<String, LoadProducerError> {
    let phase = producer.begin_path(context, package.to_owned())?;
    let outcome = match outcome {
        Ok(()) => Ok(()),
        Err(raised) => {
            let failure = LoadFailure::of(&raised, true);
            Err((raised, failure))
        }
    };
    producer.finish_path(context, phase, outcome).map(|path| path.package)
}

fn resolve_class(
    producer: &ProductionLoadProducer,
    context: &mut DiagnosticRunContext<Recorder>,
    package: String,
    outcome: Result<&'static str, PyErr>,
) -> Result<ObservedProductionClass<&'static str>, LoadProducerError> {
    let phase = producer.begin_class(context, package)?;
    let outcome = match outcome {
        Ok(class) => Ok(class),
        Err(raised) => {
            let failure = LoadFailure::of(&raised, true);
            Err((raised, failure))
        }
    };
    match producer.finish_class(context, phase, outcome) {
        Ok(class) => Ok(class),
        Err(ResolveClassError::Failed(error)) => Err(error),
        Err(ResolveClassError::RollBack(rollback)) => Err(rollback.into_error(None)),
    }
}

/// Constructs the production, and counts how often user code ran.
fn construct(
    producer: &ProductionLoadProducer,
    context: &mut DiagnosticRunContext<Recorder>,
    class: ObservedProductionClass<&'static str>,
    calls: &mut usize,
    outcome: Result<(), (PyErr, bool)>,
) -> Result<(), LoadProducerError> {
    let (span_id, _class) = match producer.begin_construct(context, class) {
        Ok(begun) => begun,
        Err(rollback) => return Err(rollback.into_error(None)),
    };
    *calls += 1;
    let outcome = match outcome {
        Ok(()) => Ok(()),
        Err((raised, refused)) => {
            let failure = LoadFailure::of(&raised, refused);
            Err((raised, failure))
        }
    };
    producer.finish_construct(context, span_id, outcome)
}

#[test]
fn real_loader_phases_emit_typed_start_finish_pairs_around_construction() {
    let (producer, mut context, log) = make_producer("/srv/diagnostic_load_success", None);
    let mut calls = 0;
    let package = resolve_path(&producer, &mut context, "diagnostic_load_success", Ok(()))
        .expect("resolve path");
    assert_eq!(calls, 0);
    let class = resolve_class(&producer, &mut context, package, Ok("Production"))
        .expect("resolve class");
    assert_eq!(calls, 0);
    construct(&producer, &mut context, class, &mut calls, Ok(())).expect("construct");
    assert_eq!(calls, 1);

    assert_eq!(log.borrow().len(), 6);
    for (index, span_id) in [1_u64, 3, 5].into_iter().enumerate() {
        assert_eq!(log.borrow()[index * 2].sequence, span_id);
        assert_finish(&log, index * 2 + 1, span_id, SpanOutcome::Completed, None);
        assert!(log.borrow()[index * 2].elapsed_ns <= log.borrow()[index * 2 + 1].elapsed_ns);
    }
    assert_start(&log, 0, SpanKind::ProductionPathResolution, None);
    assert!(log.borrow()[0]
        .text
        .contains("production_root: \"/srv/diagnostic_load_success\""));
    assert!(log.borrow()[0].text.contains("package: \"diagnostic_load_success\""));
    assert_start(&log, 2, SpanKind::ProductionLoad, None);
    assert!(log.borrow()[2].text.contains("package: \"diagnostic_load_success\""));
    assert_start(&log, 4, SpanKind::ProductionConstruct, None);
    assert!(log.borrow()[4].text.contains("package: \"diagnostic_load_success\""));
    assert!(log.borrow()[4].text.contains("class_name: \"Production\""));
}

#[test]
fn user_failures_keep_public_python_errors_and_emit_stable_codes() {
    Python::initialize();
    let (producer, mut context, log) = make_producer("/srv/invalid-package-name", None);
    let error = resolve_path(
        &producer,
        &mut context,
        "invalid-package-name",
        Err(production_load_error("invalid-package-name")),
    )
    .expect_err("invalid package must fail");
    assert_eq!(python_reason(&error), "invalid-package-name");
    assert!(error.diagnostic_error().is_none());
    assert_finish(&log, 1, 1, SpanOutcome::Failed, Some("invalid-package-name"));

    let (producer, mut context, log) = make_producer("/srv/diagnostic_import_failure", None);
    let package = resolve_path(&producer, &mut context, "diagnostic_import_failure", Ok(()))
        .expect("resolve valid package path");
    let raised = production_load_error("import-failed");
    Python::attach(|py| {
        raised.value(py).setattr("detail", "secret import payload").expect("attach a detail");
    });
    let error = resolve_class(&producer, &mut context, package, Err(raised))
        .expect_err("import must fail");
    assert_eq!(python_reason(&error), "import-failed");
    assert_finish(&log, 3, 3, SpanOutcome::Failed, Some("import-failed"));
    assert!(log.borrow().iter().all(|fact| !fact.text.contains("secret import payload")));

    let (producer, mut context, log) = make_producer("/srv/diagnostic_construct_failure", None);
    let mut calls = 0;
    let package = resolve_path(&producer, &mut context, "diagnostic_construct_failure", Ok(()))
        .expect("resolve valid package path");
    let class = resolve_class(&producer, &mut context, package, Ok("Production"))
        .expect("resolve valid class");
    let raised = production_load_error("construction-failed");
    Python::attach(|py| {
        raised.value(py).setattr("detail", "secret constructor payload").expect("attach a detail");
    });
    let error = construct(&producer, &mut context, class, &mut calls, Err((raised, true)))
        .expect_err("constructor must fail");
    assert_eq!(python_reason(&error), "construction-failed");
    assert_eq!(calls, 1);
    assert_finish(&log, 5, 5, SpanOutcome::Failed, Some("construction-failed"));
    assert!(log.borrow().iter().all(|fact| !fact.text.contains("secret constructor payload")));
}

#[test]
fn constructor_system_exit_is_not_wrapped_or_replaced() {
    Python::initialize();
    let (producer, mut context, log) = make_producer("/srv/diagnostic_system_exit", None);
    let mut calls = 0;
    let package = resolve_path(&producer, &mut context, "diagnostic_system_exit", Ok(()))
        .expect("resolve valid package path");
    let class = resolve_class(&producer, &mut context, package, Ok("Production"))
        .expect("resolve valid class");
    let exit = PySystemExit::new_err(23);
    let expected = Python::attach(|py| exit.value(py).clone().unbind());
    let error = construct(&producer, &mut context, class, &mut calls, Err((exit, false)))
        .expect_err("SystemExit constructor must fail");
    let python_error = error.python_error().expect("retain SystemExit");
    Python::attach(|py| {
        assert!(python_error.value(py).is(expected.bind(py)));
        assert!(python_error.is_instance(py, &PySystemExit::type_object(py)));
    });
    assert_finish(&log, 5, 5, SpanOutcome::Failed, Some("system-exit"));
}

#[test]
fn admission_failures_gate_operations_and_retain_dual_failure_state() {
    Python::initialize();
    let (producer, mut context, log) =
        make_producer("/srv/diagnostic_start_admission_failure", Some(5));
    let mut calls = 0;
    let package =
        resolve_path(&producer, &mut context, "diagnostic_start_admission_failure", Ok(()))
            .expect("resolve valid package path");
    let class = resolve_class(&producer, &mut context, package, Ok("Production"))
        .expect("resolve valid class");
    let error = construct(&producer, &mut context, class, &mut calls, Ok(()))
        .expect_err("construct start admission must fail");
    assert!(error.python_error().is_none());
    assert_eq!(
        error.diagnostic_error().expect("diagnostic failure").code(),
        "diagnostic.admission-failed"
    );
    assert!(error.cleanup_error().is_none());
    assert_eq!(calls, 0);
    assert_eq!(log.borrow().len(), 4);

    let (producer, mut context, log) = make_producer("/srv/diagnostic_dual_failure", Some(6));
    let package = resolve_path(&producer, &mut context, "diagnostic_dual_failure", Ok(()))
        .expect("resolve valid package path");
    let class = resolve_class(&producer, &mut context, package, Ok("Production"))
        .expect("resolve valid class");
    let error = construct(
        &producer,
        &mut context,
        class,
        &mut calls,
        Err((production_load_error("construction-failed"), true)),
    )
    .expect_err("constructor and finish admission must fail");
    assert_eq!(python_reason(&error), "construction-failed");
    assert_eq!(
        error.diagnostic_error().expect("retain finish failure").code(),
        "diagnostic.admission-failed"
    );
    assert_eq!(calls, 1);
    assert_eq!(log.borrow().len(), 5);
}

#[test]
fn errors_of_user_code_have_their_codes() {
    Python::initialize();
    let code = |raised: PyErr, refused: bool| {
        normalized_python_error_code(&raised, refused, "production-load-failed")
            .as_str()
            .to_owned()
    };
    assert_eq!(code(PyRuntimeError::new_err("secret"), false), "production-load-failed");
    assert_eq!(code(PyRuntimeError::new_err("no reason"), true), "production-load-failed");
    assert_eq!(code(PySystemExit::new_err(1), false), "system-exit");
    assert_eq!(code(production_load_error("import-failed"), true), "import-failed");
    assert_eq!(code(production_load_error("import-failed"), false), "production-load-failed");
}

#[test]
fn failures_of_loading_describe_themselves() {
    Python::initialize();
    let refused = DiagnosticProducerError::new("diagnostic.admission-failed", "no room");
    let text = refused.describe();
    let plain = LoadProducerError::python(PyRuntimeError::new_err("secret"), None);
    assert_eq!(plain.describe(), "Production loading failed");
    let both = LoadProducerError::python(PyRuntimeError::new_err("secret"), Some(refused.clone()));
    assert_eq!(
        both.describe(),
        format!("Production loading failed and its diagnostic finish failed: {text}")
    );
    let diagnostic = LoadProducerError::diagnostic(refused.clone());
    assert_eq!(diagnostic.describe(), text);
    let cleaned = LoadProducerError::Diagnostic {
        error: refused,
        cleanup_error: Some(PyRuntimeError::new_err("secret")),
    };
    assert_eq!(
        cleaned.describe(),
        format!("{text}; transactional Production cleanup also failed")
    );
}

#[test]
fn a_class_that_cannot_be_reported_is_rolled_back() {
    let (producer, mut context, log) = make_producer("/srv/rolled_back", Some(4));
    let package =
        resolve_path(&producer, &mut context, "rolled_back", Ok(())).expect("resolve path");
    let phase = producer.begin_class(&mut context, package).expect("begin class");
    match producer.finish_class(&mut context, phase, Ok("Production")) {
        Err(ResolveClassError::RollBack(rollback)) => {
            assert_eq!(rollback.resolved, "Production");
            assert_eq!(rollback.error.code(), "diagnostic.admission-failed");
        }
        _ => panic!("the class is handed back"),
    }
    assert_eq!(log.borrow().len(), 3);
}

#[test]
fn a_root_that_is_not_text_is_refused() {
    let error = ProductionLoadProducer::new(None).expect_err("the root is not text");
    assert_eq!(error.code(), "diagnostic.production-root-not-utf8");
    assert_eq!(
        error.message(),
        "ready Production root cannot be represented in canonical diagnostic detail"
    );
}
