use diagnostic_runtime::context::{
    HubAdmissionError, HubRefusal, SpanEventAdmission, TimeError,
};
#[allow(unused_imports)]
use diagnostic_runtime::event::{
    CausalLink, CausalRelation, CounterKind, DiagnosticScope, ErrorCode, EventBody, EventCandidate,
    InstantKind, RunLocalId, SpanKind, SpanOutcome,
};
#[allow(unused_imports)]
use diagnostic_runtime::run::{DiagnosticRun, DiagnosticRuns, RuntimeProducerError};
use std::cell::{Cell, RefCell};
use std::rc::Rc;
use diagnostic_runtime::activation_sequence::{ActivationConstructions, PendingProductions};
use diagnostic_runtime::custom_binding::CustomBindingRegistry;
use diagnostic_runtime::hooks::{DiagnosticAdmissionProfile, DiagnosticAdmissionSlot};
use diagnostic_runtime::sink_binding::{ActSinkAdmissionCapability, CapabilityOwner};
use diagnostic_runtime::run_binding::{RunBindError, RunBindings};
use diagnostic_runtime::run_identity::CanonicalUuid;
use diagnostic_runtime::runtime_producer::RuntimeProducerRegistry;

#[derive(Debug, PartialEq)]
enum Seen {
    Started { kind: SpanKind, parent: Option<u64> },
    Finished { span_id: u64, outcome: SpanOutcome, code: Option<String> },
    Instant { kind: InstantKind, containing: Option<u64> },
    Counter { kind: CounterKind, value: u64 },
    Gap { producer: &'static str, reason: &'static str },
    CustomStarted { name: String, parent: Option<u64> },
    CustomFinished { span_id: u64, outcome: SpanOutcome },
    CustomInstant { name: String, containing: Option<u64> },
    Other,
}

#[allow(dead_code)]
struct Fact {
    sequence: u64,
    elapsed_ns: u64,
    scope: DiagnosticScope,
    cause: Option<CausalLink>,
    seen: Seen,
    unheard: bool,
    text: String,
}

type Log = Rc<RefCell<Vec<Fact>>>;

/// A hub that numbers events from 1, and refuses the attempt that it is told to.
struct Recorder {
    log: Log,
    attempts: usize,
    fail_on_attempt: Option<usize>,
    clock: u64,
    /// The subscribers of acts hear of its events.
    heard: Rc<Cell<bool>>,
}

impl SpanEventAdmission for Recorder {
    fn told(&self) -> diagnostic_runtime::context::AdmissionLog {
        unreachable!()
    }

    fn hub(&self) -> diagnostic_runtime::context::HubIdentity {
        unreachable!()
    }

    fn share(&self) -> Self {
        Recorder {
            log: self.log.clone(),
            attempts: self.attempts,
            fail_on_attempt: self.fail_on_attempt,
            clock: self.clock,
            heard: self.heard.clone(),
        }
    }

    fn install_act_subscribers(&mut self) -> Result<(), String> {
        if self.heard.replace(true) {
            Err("Act subscribers are already installed".to_owned())
        } else {
            Ok(())
        }
    }

    fn elapsed_now(&mut self) -> Result<u64, TimeError> {
        self.clock += 10;
        Ok(self.clock)
    }

    fn admit_event(
        &mut self,
        elapsed_ns: u64,
        candidate: &EventCandidate,
    ) -> Result<u64, HubAdmissionError> {
        self.attempts += 1;
        if self.fail_on_attempt == Some(self.attempts) {
            return Err(HubAdmissionError {
                refusal: HubRefusal::Reservation,
                message: "injected diagnostic admission failure".to_owned(),
            });
        }
        let sequence = self.log.borrow().len() as u64 + 1;
        let seen = match &candidate.body {
            EventBody::SpanStarted { detail, parent_span_id } => {
                Seen::Started { kind: detail.kind(), parent: *parent_span_id }
            }
            EventBody::SpanFinished { span_id, outcome, error_code } => Seen::Finished {
                span_id: *span_id,
                outcome: *outcome,
                code: error_code.as_ref().map(|code| match code {
                    ErrorCode::Stable(code) => (*code).to_owned(),
                    ErrorCode::Reported(code) => code.clone(),
                }),
            },
            EventBody::InstantOccurred { instant, containing_span_id } => {
                Seen::Instant { kind: instant.kind(), containing: *containing_span_id }
            }
            EventBody::CounterSampled { kind, value } => {
                Seen::Counter { kind: *kind, value: *value }
            }
            EventBody::ObservationGap(gap) => {
                Seen::Gap { producer: gap.producer, reason: gap.reason }
            }
            EventBody::CustomSpanStarted { name, parent_id, .. } => {
                Seen::CustomStarted { name: name.clone(), parent: *parent_id }
            }
            EventBody::CustomSpanFinished { custom_span_id, custom_outcome } => {
                Seen::CustomFinished { span_id: *custom_span_id, outcome: *custom_outcome }
            }
            EventBody::CustomInstantOccurred { name, containing_id, .. } => {
                Seen::CustomInstant { name: name.clone(), containing: *containing_id }
            }
            _ => Seen::Other,
        };
        self.log.borrow_mut().push(Fact {
            sequence,
            elapsed_ns,
            scope: candidate.scope.clone(),
            cause: candidate.cause,
            seen,
            unheard: candidate.unheard,
            text: format!("{candidate:?}"),
        });
        Ok(sequence)
    }
}

fn recorder(fail_on_attempt: Option<usize>) -> (Recorder, Log) {
    let log: Log = Rc::new(RefCell::new(Vec::new()));
    (Recorder { log: log.clone(), attempts: 0, fail_on_attempt, clock: 0, heard: Rc::default() }, log)
}

#[allow(dead_code)]
fn failure_code(run: &DiagnosticRun<Recorder>) -> Option<String> {
    run.failure().map(|failure| failure.code().to_owned())
}

#[allow(dead_code)]
fn assert_start(log: &Log, index: usize, kind: SpanKind, parent: Option<u64>) {
    let facts = log.borrow();
    assert_eq!(facts[index].sequence, index as u64 + 1);
    assert_eq!(facts[index].seen, Seen::Started { kind, parent });
}

#[allow(dead_code)]
fn assert_finish(
    log: &Log,
    index: usize,
    span_id: u64,
    outcome: SpanOutcome,
    error_code: Option<&str>,
) {
    let facts = log.borrow();
    assert_eq!(facts[index].sequence, index as u64 + 1);
    assert_eq!(
        facts[index].seen,
        Seen::Finished { span_id, outcome, code: error_code.map(str::to_owned) }
    );
}

#[allow(dead_code)]
fn assert_instant(log: &Log, index: usize, kind: InstantKind, containing: Option<u64>) {
    let facts = log.borrow();
    assert_eq!(facts[index].sequence, index as u64 + 1);
    assert_eq!(facts[index].seen, Seen::Instant { kind, containing });
}

#[allow(dead_code)]
fn assert_cause(log: &Log, index: usize, sequence: u64, relation: CausalRelation) {
    assert_eq!(log.borrow()[index].cause, Some(CausalLink { sequence, relation }));
}


/// Every fact refers only to spans that have begun and to facts that came before it.
#[allow(dead_code)]
fn assert_facts_refer_back(log: &Log) {
    let facts = log.borrow();
    let mut begun: Vec<u64> = Vec::new();
    for fact in facts.iter() {
        let (within, ended) = match &fact.seen {
            Seen::Started { parent, .. } | Seen::CustomStarted { parent, .. } => (*parent, None),
            Seen::Instant { containing, .. } | Seen::CustomInstant { containing, .. } => {
                (*containing, None)
            }
            Seen::Finished { span_id, .. } | Seen::CustomFinished { span_id, .. } => {
                (None, Some(*span_id))
            }
            _ => (None, None),
        };
        assert!(within.is_none_or(|span_id| begun.contains(&span_id)), "{}", fact.text);
        assert!(ended.is_none_or(|span_id| begun.contains(&span_id)), "{}", fact.text);
        assert!(fact.cause.is_none_or(|cause| cause.sequence < fact.sequence), "{}", fact.text);
        if matches!(fact.seen, Seen::Started { .. } | Seen::CustomStarted { .. }) {
            begun.push(fact.sequence);
        }
    }
}

const CORE: usize = 7;
const BINDING: usize = 11;
const PRODUCTION: usize = 5;

struct Stage {
    bindings: RunBindings,
    slot: DiagnosticAdmissionSlot<ActSinkAdmissionCapability>,
    pending: PendingProductions,
    constructions: ActivationConstructions,
    runs: DiagnosticRuns<Recorder>,
    log: Log,
}

const RUN: CanonicalUuid = CanonicalUuid { value: 1 };

impl Stage {
    fn new(fail_on_attempt: Option<usize>) -> Self {
        let (recorder, log) = recorder(fail_on_attempt);
        let mut runs = DiagnosticRuns::new();
        runs.open(recorder);
        let mut constructions = ActivationConstructions::new();
        let mut pending = PendingProductions::new();
        constructions.enter(RUN);
        pending
            .production_created(&constructions, PRODUCTION, Some(0))
            .expect("the production waits");
        Stage {
            bindings: RunBindings {
                runtimes: RuntimeProducerRegistry::new(),
                customs: CustomBindingRegistry::new(),
            },
            slot: DiagnosticAdmissionSlot::new(),
            pending,
            constructions,
            runs,
            log,
        }
    }

    fn bind(&mut self, production: usize) -> Result<(), RunBindError> {
        self.bindings.bind_run(
            &mut self.pending,
            &mut self.runs,
            &mut self.slot,
            production,
            CORE,
            BINDING,
        )
    }
}

#[test]
fn a_production_that_waits_is_bound_to_its_run() {
    let mut stage = Stage::new(None);
    stage.bind(PRODUCTION + 1).expect("another production is not reported");
    assert!(stage.log.borrow().is_empty());
    stage.bind(PRODUCTION).expect("bind the production");
    assert_start(&stage.log, 0, SpanKind::RunLifecycle, None);
    let capability = stage.slot.capability().expect("the slot has its capability");
    let place = stage.bindings.runtimes.producer_for_binding(BINDING).expect("it is reported");
    assert_eq!(capability.run_id, RUN);
    assert_eq!(capability.context, 0);
    assert_eq!(capability.owner, CapabilityOwner::Producer { place });
    assert_eq!(
        capability.owner.run(&stage.bindings.runtimes),
        Some(stage.bindings.runtimes.producers[place].run)
    );
    assert!(capability.standalone.is_none());
    assert!(capability.registry.entries.is_empty());
    assert_eq!(stage.slot.profile(), Some(DiagnosticAdmissionProfile::ProductionDurable));
    assert!(stage.bindings.customs.place_of(BINDING).is_some());
    stage.bind(PRODUCTION).expect("the production no longer waits");
    assert_eq!(stage.log.borrow().len(), 1);
}

#[test]
fn productions_with_bindings_of_their_own_are_all_bound() {
    let mut stage = Stage::new(None);
    let (other, log) = recorder(None);
    let context = stage.runs.open(other);
    stage
        .pending
        .production_created(&stage.constructions, PRODUCTION + 1, Some(context))
        .expect("the second production waits");
    stage.bind(PRODUCTION).expect("bind the first production");
    let mut slot = DiagnosticAdmissionSlot::new();
    stage
        .bindings
        .bind_run(
            &mut stage.pending,
            &mut stage.runs,
            &mut slot,
            PRODUCTION + 1,
            CORE + 1,
            BINDING + 1,
        )
        .expect("bind the second production");
    assert_eq!(log.borrow().len(), 1);
    assert_eq!(slot.capability().expect("its capability").context, context);
    assert_eq!(stage.slot.capability().expect("its capability").context, 0);
    assert_eq!(stage.bindings.runtimes.producers.len(), 2);
}

#[test]
fn what_is_in_the_way_of_a_binding_is_told() {
    let mut refused = Stage::new(Some(1));
    assert!(matches!(refused.bind(PRODUCTION), Err(RunBindError::Producer { .. })));
    assert!(refused.slot.capability().is_none());

    let mut unheard = Stage::new(None);
    unheard.runs.runs[0].context.install_act_subscribers().expect("no one hears yet");
    assert_eq!(
        unheard.bind(PRODUCTION),
        Err(RunBindError::Subscribers {
            reason: "Act subscribers are already installed".to_owned()
        })
    );
    assert!(unheard.slot.capability().is_none());

    let mut taken = Stage::new(None);
    let standalone = ActSinkAdmissionCapability::standalone(0);
    assert_eq!(standalone.owner, CapabilityOwner::Standalone { run: 0 });
    assert_eq!(standalone.owner.run(&taken.bindings.runtimes), Some(0));
    taken
        .slot
        .install(standalone, DiagnosticAdmissionProfile::SinkOnlyVolatile)
        .expect("the slot is free");
    assert!(matches!(taken.bind(PRODUCTION), Err(RunBindError::Capability { .. })));

    let mut custom = Stage::new(None);
    custom.bindings.customs.register_binding(BINDING).expect("register the binding");
    assert_eq!(custom.bind(PRODUCTION), Err(RunBindError::Custom));
}
