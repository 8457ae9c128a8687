use diagnostic_runtime::context::{
    DiagnosticRunContext, HubAdmissionError, HubRefusal, SpanEventAdmission, TimeError,
};
#[allow(unused_imports)]
use diagnostic_runtime::event::{
    CausalLink, CausalRelation, CounterKind, DiagnosticScope, ErrorCode, EventBody, EventCandidate,
    InstantKind, RunLocalId, SpanKind, SpanOutcome,
};
#[allow(unused_imports)]
use diagnostic_runtime::run::{DiagnosticRun, DiagnosticRuns, RuntimeProducerError};
use std::cell::{Cell, RefCell};
use std::rc::Rc;
use diagnostic_runtime::act_registry::ActRegistry;
use diagnostic_runtime::cue_producer::CueRegistry;
use diagnostic_runtime::custom_act_binding::{
    ActAuthorities, CustomDomainSnapshot, Lookup, TaskRef,
};
use diagnostic_runtime::custom_binding::{
    CustomBindingRegistry, CustomPublicationError, CustomRunBinding, CustomSources,
    PublicationContext,
};
use diagnostic_runtime::custom_payload::{
    parse_attribute, parse_candidate, parse_dimension, parse_dimensions, parse_number, parse_scalar,
    CustomCandidate,
    CustomPayloadError, Item, NormalizedCandidate, WireEntry, WireNode, WireValue,
};
use diagnostic_runtime::event::{
    CustomNumber, CustomSeverity, DiagnosticAttributeValue, DiagnosticAttributes,
    DiagnosticDimension, DiagnosticScalar,
};
use diagnostic_runtime::runtime_producer::{
    RuntimeHook, RuntimeProducerRegistry, RuntimeTaskPhase,
};
use diagnostic_runtime::scene_producer::{SceneRegistry, TaskLineage};

#[derive(Debug, PartialEq)]
enum Seen {
    Started { kind: SpanKind, parent: Option<u64> },
    Finished { span_id: u64, outcome: SpanOutcome, code: Option<String> },
    Instant { kind: InstantKind, containing: Option<u64> },
    Counter { kind: CounterKind, value: u64 },
    Gap { producer: &'static str, reason: &'static str },
    CustomStarted { name: String, parent: Option<u64> },
    CustomFinished { span_id: u64, outcome: SpanOutcome },
    CustomInstant { name: String, containing: Option<u64> },
    Other,
}

#[allow(dead_code)]
struct Fact {
    sequence: u64,
    elapsed_ns: u64,
    scope: DiagnosticScope,
    cause: Option<CausalLink>,
    seen: Seen,
    unheard: bool,
    text: String,
}

type Log = Rc<RefCell<Vec<Fact>>>;

/// A hub that numbers events from 1, and refuses the attempt that it is told to.
struct Recorder {
    log: Log,
    attempts: usize,
    fail_on_attempt: Option<usize>,
    clock: u64,
    /// The subscribers of acts hear of its events.
    heard: Rc<Cell<bool>>,
}

impl SpanEventAdmission for Recorder {
    fn told(&self) -> diagnostic_runtime::context::AdmissionLog {
        unreachable!()
    }

    fn hub(&self) -> diagnostic_runtime::context::HubIdentity {
        unreachable!()
    }

    fn share(&self) -> Self {
        Recorder {
            log: self.log.clone(),
            attempts: self.attempts,
            fail_on_attempt: self.fail_on_attempt,
            clock: self.clock,
            heard: self.heard.clone(),
        }
    }

    fn install_act_subscribers(&mut self) -> Result<(), String> {
        if self.heard.replace(true) {
            Err("Act subscribers are already installed".to_owned())
        } else {
            Ok(())
        }
    }

    fn elapsed_now(&mut self) -> Result<u64, TimeError> {
        self.clock += 10;
        Ok(self.clock)
    }

    fn admit_event(
        &mut self,
        elapsed_ns: u64,
        candidate: &EventCandidate,
    ) -> Result<u64, HubAdmissionError> {
        self.attempts += 1;
        if self.fail_on_attempt == Some(self.attempts) {
            return Err(HubAdmissionError {
                refusal: HubRefusal::Reservation,
                message: "injected diagnostic admission failure".to_owned(),
            });
        }
        let sequence = self.log.borrow().len() as u64 + 1;
        let seen = match &candidate.body {
            EventBody::SpanStarted { detail, parent_span_id } => {
                Seen::Started { kind: detail.kind(), parent: *parent_span_id }
            }
            EventBody::SpanFinished { span_id, outcome, error_code } => Seen::Finished {
                span_id: *span_id,
                outcome: *outcome,
                code: error_code.as_ref().map(|code| match code {
                    ErrorCode::Stable(code) => (*code).to_owned(),
                    ErrorCode::Reported(code) => code.clone(),
                }),
            },
            EventBody::InstantOccurred { instant, containing_span_id } => {
                Seen::Instant { kind: instant.kind(), containing: *containing_span_id }
            }
            EventBody::CounterSampled { kind, value } => {
                Seen::Counter { kind: *kind, value: *value }
            }
            EventBody::ObservationGap(gap) => {
                Seen::Gap { producer: gap.producer, reason: gap.reason }
            }
            EventBody::CustomSpanStarted { name, parent_id, .. } => {
                Seen::CustomStarted { name: name.clone(), parent: *parent_id }
            }
            EventBody::CustomSpanFinished { custom_span_id, custom_outcome } => {
                Seen::CustomFinished { span_id: *custom_span_id, outcome: *custom_outcome }
            }
            EventBody::CustomInstantOccurred { name, containing_id, .. } => {
                Seen::CustomInstant { name: name.clone(), containing: *containing_id }
            }
            _ => Seen::Other,
        };
        self.log.borrow_mut().push(Fact {
            sequence,
            elapsed_ns,
            scope: candidate.scope.clone(),
            cause: candidate.cause,
            seen,
            unheard: candidate.unheard,
            text: format!("{candidate:?}"),
        });
        Ok(sequence)
    }
}

fn recorder(fail_on_attempt: Option<usize>) -> (Recorder, Log) {
    let log: Log = Rc::new(RefCell::new(Vec::new()));
    (Recorder { log: log.clone(), attempts: 0, fail_on_attempt, clock: 0, heard: Rc::default() }, log)
}

#[allow(dead_code)]
fn failure_code(run: &DiagnosticRun<Recorder>) -> Option<String> {
    run.failure().map(|failure| failure.code().to_owned())
}

#[allow(dead_code)]
fn assert_start(log: &Log, index: usize, kind: SpanKind, parent: Option<u64>) {
    let facts = log.borrow();
    assert_eq!(facts[index].sequence, index as u64 + 1);
    assert_eq!(facts[index].seen, Seen::Started { kind, parent });
}

#[allow(dead_code)]
fn assert_finish(
    log: &Log,
    index: usize,
    span_id: u64,
    outcome: SpanOutcome,
    error_code: Option<&str>,
) {
    let facts = log.borrow();
    assert_eq!(facts[index].sequence, index as u64 + 1);
    assert_eq!(
        facts[index].seen,
        Seen::Finished { span_id, outcome, code: error_code.map(str::to_owned) }
    );
}

#[allow(dead_code)]
fn assert_instant(log: &Log, index: usize, kind: InstantKind, containing: Option<u64>) {
    let facts = log.borrow();
    assert_eq!(facts[index].sequence, index as u64 + 1);
    assert_eq!(facts[index].seen, Seen::Instant { kind, containing });
}

#[allow(dead_code)]
fn assert_cause(log: &Log, index: usize, sequence: u64, relation: CausalRelation) {
    assert_eq!(log.borrow()[index].cause, Some(CausalLink { sequence, relation }));
}


/// Every fact refers only to spans that have begun and to facts that came before it.
#[allow(dead_code)]
fn assert_facts_refer_back(log: &Log) {
    let facts = log.borrow();
    let mut begun: Vec<u64> = Vec::new();
    for fact in facts.iter() {
        let (within, ended) = match &fact.seen {
            Seen::Started { parent, .. } | Seen::CustomStarted { parent, .. } => (*parent, None),
            Seen::Instant { containing, .. } | Seen::CustomInstant { containing, .. } => {
                (*containing, None)
            }
            Seen::Finished { span_id, .. } | Seen::CustomFinished { span_id, .. } => {
                (None, Some(*span_id))
            }
            _ => (None, None),
        };
        assert!(within.is_none_or(|span_id| begun.contains(&span_id)), "{}", fact.text);
        assert!(ended.is_none_or(|span_id| begun.contains(&span_id)), "{}", fact.text);
        assert!(fact.cause.is_none_or(|cause| cause.sequence < fact.sequence), "{}", fact.text);
        if matches!(fact.seen, Seen::Started { .. } | Seen::CustomStarted { .. }) {
            begun.push(fact.sequence);
        }
    }
}

const CORE: usize = 7;
const BINDING: usize = 11;
const TASK: TaskRef = TaskRef { key: 1, serial: 1 };
const CHILD: TaskRef = TaskRef { key: 2, serial: 2 };

fn empty_scope() -> DiagnosticScope {
    DiagnosticScope {
        scene_id: None,
        actor_id: None,
        cue_id: None,
        effect_id: None,
        act_id: None,
        tool_call_id: None,
        session_generation: None,
    }
}

fn no_attributes() -> DiagnosticAttributes {
    DiagnosticAttributes { entries: Vec::new() }
}

fn present(text: &str) -> Item<String> {
    Item::Present(text.to_owned())
}

fn node(tag: &str, value: Item<WireValue>) -> WireNode {
    WireNode::Tagged { tag: present(tag), value }
}

/// A text, with what the two number grammars say of it.
fn text(text: &str, integer: Result<&str, &str>, decimal: Result<&str, &str>) -> Item<WireValue> {
    Item::Present(WireValue::Text {
        text: text.to_owned(),
        integer: integer.map(str::to_owned).map_err(str::to_owned),
        decimal: decimal.map(str::to_owned).map_err(str::to_owned),
    })
}

fn integer(value: &str) -> WireNode {
    node("integer", text(value, Ok(value), Ok(value)))
}

fn decimal(value: &str) -> WireNode {
    node("decimal", text(value, Err("not an integer"), Ok(value)))
}

fn string(value: &str) -> WireNode {
    node("string", text(value, Err("not an integer"), Err("not a decimal")))
}

fn boolean(value: bool) -> WireNode {
    node("boolean", Item::Present(WireValue::Boolean(value)))
}

fn entry(name: &str, node: WireNode) -> WireEntry {
    WireEntry { name: Some(name.to_owned()), node }
}

fn context(task: TaskRef) -> PublicationContext {
    PublicationContext {
        lineage: Lookup::Found(TaskLineage {
            active: true,
            runtime: Some((BINDING, RuntimeTaskPhase::Start)),
            cued_key: None,
            scene: None,
            act_authority: None,
        }),
        task: Lookup::Found(task),
        authority_runtime_alive: true,
        answer: Lookup::Absent,
    }
}

fn instant(name: &str) -> CustomCandidate {
    CustomCandidate::Instant {
        name: name.to_owned(),
        severity: CustomSeverity::Info,
        attributes: no_attributes(),
    }
}

fn span(name: &str) -> CustomCandidate {
    CustomCandidate::SpanStart { span: name.to_owned(), span_attributes: no_attributes() }
}

fn finish(outcome: SpanOutcome) -> CustomCandidate {
    CustomCandidate::SpanFinish { outcome }
}

struct Harness {
    runtimes: RuntimeProducerRegistry,
    runs: DiagnosticRuns<Recorder>,
    log: Log,
    custom: CustomRunBinding,
}

impl Harness {
    fn new(fail_on_attempt: Option<usize>) -> Self {
        let (recorder, log) = recorder(fail_on_attempt);
        let mut runs = DiagnosticRuns::new();
        let mut runtimes = RuntimeProducerRegistry::new();
        runtimes
            .install(&mut runs, DiagnosticRunContext::new(recorder), CORE, BINDING)
            .expect("install runtime producer");
        Harness { runtimes, runs, log, custom: CustomRunBinding::new(BINDING) }
    }

    fn publish(
        &mut self,
        task: TaskRef,
        candidate: CustomCandidate,
    ) -> Result<(), CustomPublicationError> {
        let domain = CustomDomainSnapshot {
            runtime: 0,
            run: 0,
            scope: empty_scope(),
            containing_span_id: self.runtimes.producers[0].run_span_id(),
        };
        self.custom.admit_candidate(&mut self.runs, task, domain, candidate)
    }
}

#[test]
fn native_hook_is_installed_once_and_rejects_publication_without_runtime_authority() {
    let (recorder, log) = recorder(None);
    let mut runs = DiagnosticRuns::new();
    runs.open(recorder);
    let runtimes = RuntimeProducerRegistry::new();
    let cues = CueRegistry::new();
    let scenes = SceneRegistry::new();
    let acts = ActRegistry::new();
    let authorities = ActAuthorities::new();
    let sources = CustomSources {
        runtimes: &runtimes,
        cues: &cues,
        scenes: &scenes,
        acts: &acts,
        authorities: &authorities,
    };
    let mut bindings = CustomBindingRegistry::new();
    let error = bindings
        .publish(
            &sources,
            &mut runs,
            &Vec::new(),
            &NormalizedCandidate::Instant {
                name: present("outside.runtime"),
                severity: present("info"),
                attributes: Item::Present(Vec::new()),
            },
        )
        .expect_err("publication without a runtime must fail");
    assert_eq!(error, CustomPublicationError::NoRuntimeContext);
    assert!(error.is_context_error());
    assert_eq!(
        error.describe().as_deref(),
        Some("diagnostic publication requires an active Runtime context")
    );
    assert!(log.borrow().is_empty());

    assert_eq!(bindings.register_binding(BINDING), Ok(0));
    let refused = bindings.register_binding(BINDING).expect_err("a binding is installed once");
    assert_eq!(
        refused.describe(),
        "custom diagnostic binding is already installed for this Runtime"
    );
}

#[test]
fn normalized_python_candidates_convert_to_closed_core_values() {
    let instant = NormalizedCandidate::Instant {
        name: present("orders.ready"),
        severity: present("warning"),
        attributes: Item::Present(vec![
            entry("attempt", integer("7")),
            entry(
                "labels",
                node(
                    "list",
                    Item::Present(WireValue::List(vec![
                        node("null", Item::Missing),
                        boolean(false),
                        decimal("0.25"),
                        string("east"),
                    ])),
                ),
            ),
        ]),
    };
    let Ok(CustomCandidate::Instant { name, severity, attributes }) = parse_candidate(&instant)
    else {
        panic!("expected instant candidate")
    };
    assert_eq!(name, "orders.ready");
    assert_eq!(severity, CustomSeverity::Warning);
    assert_eq!(
        attributes.entries[0],
        (
            "attempt".to_owned(),
            DiagnosticAttributeValue::Scalar(DiagnosticScalar::Integer("7".to_owned()))
        )
    );
    assert_eq!(
        attributes.entries[1],
        (
            "labels".to_owned(),
            DiagnosticAttributeValue::List(vec![
                DiagnosticScalar::Null,
                DiagnosticScalar::Boolean(false),
                DiagnosticScalar::Decimal("0.25".to_owned()),
                DiagnosticScalar::Text("east".to_owned()),
            ])
        )
    );

    let counter = NormalizedCandidate::Counter {
        counter: present("orders.pending"),
        value: Item::Present(decimal("12.5")),
        unit: Item::Present(present("items")),
        dimensions: Item::Present(vec![
            entry("attempt", integer("2")),
            entry("region", string("east")),
        ]),
    };
    let Ok(CustomCandidate::Counter { counter, value, unit, dimensions }) =
        parse_candidate(&counter)
    else {
        panic!("expected counter candidate")
    };
    assert_eq!(counter, "orders.pending");
    assert_eq!(value, CustomNumber::Decimal("12.5".to_owned()));
    assert_eq!(unit.as_deref(), Some("items"));
    assert_eq!(
        dimensions.entries[0],
        ("attempt".to_owned(), DiagnosticDimension::Integer("2".to_owned()))
    );

    let start = NormalizedCandidate::SpanStart {
        span: present("orders.batch"),
        span_attributes: Item::Present(vec![entry("enabled", boolean(true))]),
    };
    assert!(matches!(
        parse_candidate(&start),
        Ok(CustomCandidate::SpanStart { span, .. }) if span == "orders.batch"
    ));
    let finish = NormalizedCandidate::SpanFinish { outcome: present("cancelled") };
    assert_eq!(
        parse_candidate(&finish),
        Ok(CustomCandidate::SpanFinish { outcome: SpanOutcome::Cancelled })
    );
}

#[test]
fn custom_temporal_parent_is_task_local_and_all_facts_use_the_shared_hub() {
    let mut harness = Harness::new(None);
    for (task, candidate) in [
        (TASK, span("orders.outer")),
        (TASK, instant("orders.inside")),
        (TASK, span("orders.inner")),
        (CHILD, instant("orders.child")),
        (TASK, finish(SpanOutcome::Failed)),
        (TASK, finish(SpanOutcome::Completed)),
    ] {
        harness.publish(task, candidate).expect("admit custom fact");
    }
    let log = harness.log.borrow();
    assert_eq!(log.len(), 7);
    let name = |name: &str| name.to_owned();
    assert_eq!(
        log[1].seen,
        Seen::CustomStarted { name: name("orders.outer"), parent: Some(1) }
    );
    assert_eq!(
        log[2].seen,
        Seen::CustomInstant { name: name("orders.inside"), containing: Some(2) }
    );
    assert_eq!(
        log[3].seen,
        Seen::CustomStarted { name: name("orders.inner"), parent: Some(2) }
    );
    assert_eq!(
        log[4].seen,
        Seen::CustomInstant { name: name("orders.child"), containing: Some(1) }
    );
    assert_eq!(log[5].seen, Seen::CustomFinished { span_id: 4, outcome: SpanOutcome::Failed });
    assert_eq!(log[6].seen, Seen::CustomFinished { span_id: 2, outcome: SpanOutcome::Completed });
    assert!(log.iter().all(|fact| fact.cause.is_none()));
    assert_facts_refer_back(&harness.log);
}

#[test]
fn admission_failure_latches_runtime_and_blocks_caught_continuation() {
    let mut harness = Harness::new(Some(2));
    let first = harness
        .publish(
            TASK,
            CustomCandidate::Instant {
                name: "orders.failure".to_owned(),
                severity: CustomSeverity::Error,
                attributes: no_attributes(),
            },
        )
        .expect_err("injected mandatory admission failure");
    assert!(!first.is_context_error());
    assert_eq!(
        first.describe().as_deref(),
        Some("diagnostic core admission failed [diagnostic.admission-failed]")
    );
    assert_eq!(
        failure_code(&harness.runs.runs[0]).as_deref(),
        Some("diagnostic.admission-failed")
    );
    assert_eq!(harness.log.borrow().len(), 1);

    let second = harness
        .publish(TASK, instant("orders.after_failure"))
        .expect_err("a caught error cannot recover the run");
    assert_eq!(
        second.describe().as_deref(),
        Some("diagnostic core is unavailable [diagnostic.admission-failed]")
    );
    assert_eq!(harness.log.borrow().len(), 1);
}

#[test]
fn a_span_that_is_not_open_cannot_be_closed() {
    let mut harness = Harness::new(None);
    let error =
        harness.publish(TASK, finish(SpanOutcome::Completed)).expect_err("no span is open");
    assert_eq!(error, CustomPublicationError::SpanNotActive);
    assert_eq!(
        error.describe().as_deref(),
        Some("custom span is not active in the current task")
    );

    let before = harness.custom.prepare_span_task(TASK, 1);
    assert!(harness.custom.push_span(TASK, 9));
    assert_eq!(harness.custom.current_parent(TASK, 1), 9);
    assert_eq!(harness.custom.pop_span(TASK), Some(9));
    assert_eq!(harness.custom.current_parent(TASK, 1), before);
}

#[test]
fn a_task_that_took_the_place_of_another_inherits_no_span() {
    let mut harness = Harness::new(None);
    harness.publish(TASK, span("orders.outer")).expect("open span");
    let successor = TaskRef { key: TASK.key, serial: 3 };
    harness.publish(successor, instant("orders.later")).expect("report instant");
    assert_eq!(
        harness.log.borrow()[2].seen,
        Seen::CustomInstant { name: "orders.later".to_owned(), containing: Some(1) }
    );
}

#[test]
fn publications_are_authorized_by_the_lineage_of_their_task() {
    let mut harness = Harness::new(None);
    harness.runtimes.run_started(&mut harness.runs, CORE, BINDING);
    harness.runtimes.observe_binding(
        &mut harness.runs,
        BINDING,
        RuntimeHook::ProductionStartEntered,
        None,
    );
    let cues = CueRegistry::new();
    let scenes = SceneRegistry::new();
    let acts = ActRegistry::new();
    let authorities = ActAuthorities::new();
    let sources = CustomSources {
        runtimes: &harness.runtimes,
        cues: &cues,
        scenes: &scenes,
        acts: &acts,
        authorities: &authorities,
    };
    let mut bindings = CustomBindingRegistry::new();
    bindings.register_binding(BINDING).expect("register binding");
    let candidate = NormalizedCandidate::Instant {
        name: present("orders.starting"),
        severity: present("debug"),
        attributes: Item::Present(Vec::new()),
    };
    bindings
        .publish(&sources, &mut harness.runs, &vec![context(TASK)], &candidate)
        .expect("publish from the start of the production");
    assert_eq!(
        harness.log.borrow()[2].seen,
        Seen::CustomInstant { name: "orders.starting".to_owned(), containing: Some(2) }
    );

    let error = bindings
        .publish(
            &sources,
            &mut harness.runs,
            &vec![context(TASK)],
            &NormalizedCandidate::SpanFinish { outcome: present("elsewhere") },
        )
        .expect_err("no such outcome");
    assert_eq!(error, CustomPublicationError::Payload(CustomPayloadError::InvalidOutcome));
    assert_eq!(
        error.describe().as_deref(),
        Some("normalized custom span outcome is invalid")
    );
}

#[test]
fn two_runtime_contexts_are_too_many() {
    let mut harness = Harness::new(None);
    let (other, _) = recorder(None);
    harness
        .runtimes
        .install(&mut harness.runs, DiagnosticRunContext::new(other), CORE + 1, BINDING + 1)
        .expect("install a second producer");
    for (core, binding) in [(CORE, BINDING), (CORE + 1, BINDING + 1)] {
        harness.runtimes.run_started(&mut harness.runs, core, binding);
        harness.runtimes.observe_binding(
            &mut harness.runs,
            binding,
            RuntimeHook::ProductionStartEntered,
            None,
        );
    }
    let cues = CueRegistry::new();
    let scenes = SceneRegistry::new();
    let acts = ActRegistry::new();
    let authorities = ActAuthorities::new();
    let sources = CustomSources {
        runtimes: &harness.runtimes,
        cues: &cues,
        scenes: &scenes,
        acts: &acts,
        authorities: &authorities,
    };
    let mut bindings = CustomBindingRegistry::new();
    bindings.register_binding(BINDING).expect("register binding");
    bindings.register_binding(BINDING + 1).expect("register second binding");
    let mut second = context(TASK);
    if let Lookup::Found(lineage) = &mut second.lineage {
        lineage.runtime = Some((BINDING + 1, RuntimeTaskPhase::Start));
    }
    let error = bindings
        .publish(
            &sources,
            &mut harness.runs,
            &vec![context(TASK), second],
            &NormalizedCandidate::SpanFinish { outcome: present("completed") },
        )
        .expect_err("two contexts match");
    assert_eq!(error, CustomPublicationError::MultipleContexts);
    assert_eq!(
        failure_code(&harness.runs.runs[0]).as_deref(),
        Some("custom.multiple-runtime-contexts")
    );
    assert_eq!(
        failure_code(&harness.runs.runs[1]).as_deref(),
        Some("custom.multiple-runtime-contexts")
    );
}

#[test]
fn every_malformed_payload_has_its_message() {
    let said = |error: CustomPayloadError| error.describe();
    assert_eq!(
        parse_candidate(&NormalizedCandidate::SpanFinish { outcome: Item::Missing }).map_err(said),
        Err(Some("normalized custom payload is missing outcome".to_owned()))
    );
    assert_eq!(
        parse_candidate(&NormalizedCandidate::SpanFinish { outcome: Item::WrongType })
            .map_err(said),
        Err(None)
    );
    assert_eq!(
        parse_candidate(&NormalizedCandidate::Other).map_err(said),
        Err(Some("custom admission requires an exact normalized candidate".to_owned()))
    );
    assert_eq!(
        parse_candidate(&NormalizedCandidate::Instant {
            name: present("a"),
            severity: present("loud"),
            attributes: Item::Present(Vec::new()),
        })
        .map_err(said),
        Err(Some("normalized custom severity is invalid".to_owned()))
    );
    assert_eq!(
        parse_scalar(&node("list", Item::Missing)).map_err(said),
        Err(Some("normalized custom scalar has an unknown type".to_owned()))
    );
    assert_eq!(
        parse_attribute(&node("date", Item::Missing)).map_err(said),
        Err(Some("normalized custom attribute has an unknown type".to_owned()))
    );
    assert_eq!(
        parse_dimension(&node("null", Item::Missing)).map_err(said),
        Err(Some("normalized custom dimension has an unknown type".to_owned()))
    );
    assert_eq!(
        parse_number(&string("many")).map_err(said),
        Err(Some("normalized custom counter has an unknown number type".to_owned()))
    );
    assert_eq!(
        parse_number(&node("integer", text("1.5", Err("has a fraction"), Ok("1.5"))))
            .map_err(said),
        Err(Some("normalized custom counter integer is invalid: has a fraction".to_owned()))
    );
    assert_eq!(
        parse_scalar(&WireNode::NotAMapping).map_err(said),
        Err(None)
    );
}

#[test]
fn a_released_binding_is_forgotten() {
    let mut bindings = CustomBindingRegistry::new();
    assert_eq!(bindings.register_binding(3), Ok(0));
    assert_eq!(bindings.register_binding(4), Ok(1));
    bindings.release_binding(3);
    assert_eq!(bindings.place_of(3), None);
    assert!(bindings.place_of(4).is_some());
    assert!(bindings.register_binding(3).is_ok());
}

#[test]
fn attributes_and_dimensions_stand_in_the_order_of_their_names() {
    let instant = NormalizedCandidate::Instant {
        name: present("orders.ready"),
        severity: present("warning"),
        attributes: Item::Present(vec![
            entry("zone", integer("1")),
            entry("attempt", integer("2")),
            entry("zone", integer("3")),
            entry("Zone", boolean(true)),
        ]),
    };
    let Ok(CustomCandidate::Instant { attributes, .. }) = parse_candidate(&instant) else {
        panic!("expected instant candidate")
    };
    let number = |value: &str| {
        DiagnosticAttributeValue::Scalar(DiagnosticScalar::Integer(value.to_owned()))
    };
    assert_eq!(
        attributes.entries,
        [
            (
                "Zone".to_owned(),
                DiagnosticAttributeValue::Scalar(DiagnosticScalar::Boolean(true))
            ),
            ("attempt".to_owned(), number("2")),
            ("zone".to_owned(), number("3")),
        ]
    );
    let dimensions = parse_dimensions(&vec![
        entry("b", string("second")),
        entry("a", string("first")),
        entry("b", string("last")),
    ])
    .expect("read the dimensions");
    let names: Vec<&str> = dimensions.entries.iter().map(|(name, _)| name.as_str()).collect();
    assert_eq!(names, ["a", "b"]);
    assert_ne!(dimensions.entries[0].1, dimensions.entries[1].1);
}
