use diagnostic_runtime::context::{
    DiagnosticRunContext, HubAdmissionError, HubRefusal, SpanEventAdmission, TimeError,
};
#[allow(unused_imports)]
use diagnostic_runtime::event::{
    CausalLink, CausalRelation, CounterKind, DiagnosticScope, ErrorCode, EventBody, EventCandidate,
    InstantKind, RunLocalId, SpanKind, SpanOutcome,
};
#[allow(unused_imports)]
use diagnostic_runtime::run::{DiagnosticRun, DiagnosticRuns, RuntimeProducerError};
use std::cell::{Cell, RefCell};
use std::rc::Rc;
use diagnostic_runtime::act_registry::{ActRegistry, AgentTurnControl};
use diagnostic_runtime::agent::{AgentSessionDiagnosticContext, AgentSessionDiagnosticMetadata};
use diagnostic_runtime::cue_producer::CueLineageSnapshot;
use diagnostic_runtime::custom_act_binding::{
    ActAuthorities, ActAuthorityError, ActAuthorityRole, CallerLineageUpdate, CuedRef,
    DomainExtension, Lookup, PreparedActAuthority, PreparedGenerationExpiry, TaskRef,
};
use diagnostic_runtime::runtime_producer::RuntimeProducerRegistry;
use diagnostic_runtime::scene_producer::TaskLineage;

#[derive(Debug, PartialEq)]
enum Seen {
    Started { kind: SpanKind, parent: Option<u64> },
    Finished { span_id: u64, outcome: SpanOutcome, code: Option<String> },
    Instant { kind: InstantKind, containing: Option<u64> },
    Counter { kind: CounterKind, value: u64 },
    Gap { producer: &'static str, reason: &'static str },
    CustomStarted { name: String, parent: Option<u64> },
    CustomFinished { span_id: u64, outcome: SpanOutcome },
    CustomInstant { name: String, containing: Option<u64> },
    Other,
}

#[allow(dead_code)]
struct Fact {
    sequence: u64,
    elapsed_ns: u64,
    scope: DiagnosticScope,
    cause: Option<CausalLink>,
    seen: Seen,
    unheard: bool,
    text: String,
}

type Log = Rc<RefCell<Vec<Fact>>>;

/// A hub that numbers events from 1, and refuses the attempt that it is told to.
struct Recorder {
    log: Log,
    attempts: usize,
    fail_on_attempt: Option<usize>,
    clock: u64,
    /// The subscribers of acts hear of its events.
    heard: Rc<Cell<bool>>,
}

impl SpanEventAdmission for Recorder {
    fn told(&self) -> diagnostic_runtime::context::AdmissionLog {
        unreachable!()
    }

    fn hub(&self) -> diagnostic_runtime::context::HubIdentity {
        unreachable!()
    }

    fn share(&self) -> Self {
        Recorder {
            log: self.log.clone(),
            attempts: self.attempts,
            fail_on_attempt: self.fail_on_attempt,
            clock: self.clock,
            heard: self.heard.clone(),
        }
    }

    fn install_act_subscribers(&mut self) -> Result<(), String> {
        if self.heard.replace(true) {
            Err("Act subscribers are already installed".to_owned())
        } else {
            Ok(())
        }
    }

    fn elapsed_now(&mut self) -> Result<u64, TimeError> {
        self.clock += 10;
        Ok(self.clock)
    }

    fn admit_event(
        &mut self,
        elapsed_ns: u64,
        candidate: &EventCandidate,
    ) -> Result<u64, HubAdmissionError> {
        self.attempts += 1;
        if self.fail_on_attempt == Some(self.attempts) {
            return Err(HubAdmissionError {
                refusal: HubRefusal::Reservation,
                message: "injected diagnostic admission failure".to_owned(),
            });
        }
        let sequence = self.log.borrow().len() as u64 + 1;
        let seen = match &candidate.body {
            EventBody::SpanStarted { detail, parent_span_id } => {
                Seen::Started { kind: detail.kind(), parent: *parent_span_id }
            }
            EventBody::SpanFinished { span_id, outcome, error_code } => Seen::Finished {
                span_id: *span_id,
                outcome: *outcome,
                code: error_code.as_ref().map(|code| match code {
                    ErrorCode::Stable(code) => (*code).to_owned(),
                    ErrorCode::Reported(code) => code.clone(),
                }),
            },
            EventBody::InstantOccurred { instant, containing_span_id } => {
                Seen::Instant { kind: instant.kind(), containing: *containing_span_id }
            }
            EventBody::CounterSampled { kind, value } => {
                Seen::Counter { kind: *kind, value: *value }
            }
            EventBody::ObservationGap(gap) => {
                Seen::Gap { producer: gap.producer, reason: gap.reason }
            }
            EventBody::CustomSpanStarted { name, parent_id, .. } => {
                Seen::CustomStarted { name: name.clone(), parent: *parent_id }
            }
            EventBody::CustomSpanFinished { custom_span_id, custom_outcome } => {
                Seen::CustomFinished { span_id: *custom_span_id, outcome: *custom_outcome }
            }
            EventBody::CustomInstantOccurred { name, containing_id, .. } => {
                Seen::CustomInstant { name: name.clone(), containing: *containing_id }
            }
            _ => Seen::Other,
        };
        self.log.borrow_mut().push(Fact {
            sequence,
            elapsed_ns,
            scope: candidate.scope.clone(),
            cause: candidate.cause,
            seen,
            unheard: candidate.unheard,
            text: format!("{candidate:?}"),
        });
        Ok(sequence)
    }
}

fn recorder(fail_on_attempt: Option<usize>) -> (Recorder, Log) {
    let log: Log = Rc::new(RefCell::new(Vec::new()));
    (Recorder { log: log.clone(), attempts: 0, fail_on_attempt, clock: 0, heard: Rc::default() }, log)
}

#[allow(dead_code)]
fn failure_code(run: &DiagnosticRun<Recorder>) -> Option<String> {
    run.failure().map(|failure| failure.code().to_owned())
}

#[allow(dead_code)]
fn assert_start(log: &Log, index: usize, kind: SpanKind, parent: Option<u64>) {
    let facts = log.borrow();
    assert_eq!(facts[index].sequence, index as u64 + 1);
    assert_eq!(facts[index].seen, Seen::Started { kind, parent });
}

#[allow(dead_code)]
fn assert_finish(
    log: &Log,
    index: usize,
    span_id: u64,
    outcome: SpanOutcome,
    error_code: Option<&str>,
) {
    let facts = log.borrow();
    assert_eq!(facts[index].sequence, index as u64 + 1);
    assert_eq!(
        facts[index].seen,
        Seen::Finished { span_id, outcome, code: error_code.map(str::to_owned) }
    );
}

#[allow(dead_code)]
fn assert_instant(log: &Log, index: usize, kind: InstantKind, containing: Option<u64>) {
    let facts = log.borrow();
    assert_eq!(facts[index].sequence, index as u64 + 1);
    assert_eq!(facts[index].seen, Seen::Instant { kind, containing });
}

#[allow(dead_code)]
fn assert_cause(log: &Log, index: usize, sequence: u64, relation: CausalRelation) {
    assert_eq!(log.borrow()[index].cause, Some(CausalLink { sequence, relation }));
}


/// Every fact refers only to spans that have begun and to facts that came before it.
#[allow(dead_code)]
fn assert_facts_refer_back(log: &Log) {
    let facts = log.borrow();
    let mut begun: Vec<u64> = Vec::new();
    for fact in facts.iter() {
        let (within, ended) = match &fact.seen {
            Seen::Started { parent, .. } | Seen::CustomStarted { parent, .. } => (*parent, None),
            Seen::Instant { containing, .. } | Seen::CustomInstant { containing, .. } => {
                (*containing, None)
            }
            Seen::Finished { span_id, .. } | Seen::CustomFinished { span_id, .. } => {
                (None, Some(*span_id))
            }
            _ => (None, None),
        };
        assert!(within.is_none_or(|span_id| begun.contains(&span_id)), "{}", fact.text);
        assert!(ended.is_none_or(|span_id| begun.contains(&span_id)), "{}", fact.text);
        assert!(fact.cause.is_none_or(|cause| cause.sequence < fact.sequence), "{}", fact.text);
        if matches!(fact.seen, Seen::Started { .. } | Seen::CustomStarted { .. }) {
            begun.push(fact.sequence);
        }
    }
}

const CORE: usize = 7;
const BINDING: usize = 11;
const CUED: usize = 40;
const TASK: TaskRef = TaskRef { key: 1, serial: 1 };

fn id(text: &str) -> RunLocalId {
    RunLocalId { text: text.to_owned() }
}

fn cue_scope() -> DiagnosticScope {
    DiagnosticScope {
        scene_id: Some(id("scene-1")),
        actor_id: Some(id("actor-1")),
        cue_id: Some(id("cue-1")),
        effect_id: None,
        act_id: None,
        tool_call_id: None,
        session_generation: None,
    }
}

fn lineage() -> TaskLineage {
    TaskLineage {
        active: true,
        runtime: None,
        cued_key: Some(CUED),
        scene: None,
        act_authority: None,
    }
}

/// A run with an act under way.
struct Stage {
    runtimes: RuntimeProducerRegistry,
    runs: DiagnosticRuns<Recorder>,
    acts: ActRegistry,
    authorities: ActAuthorities,
    act_scope: DiagnosticScope,
}

impl Stage {
    fn new() -> Self {
        let (recorder, _) = recorder(None);
        let mut runs = DiagnosticRuns::new();
        let mut runtimes = RuntimeProducerRegistry::new();
        runtimes
            .install(&mut runs, DiagnosticRunContext::new(recorder), CORE, BINDING)
            .expect("install runtime producer");
        let mut acts = ActRegistry::new();
        let session = AgentSessionDiagnosticMetadata {
            context: AgentSessionDiagnosticContext {
                actor_id: "actor-1".to_owned(),
                session_id: "session-1".to_owned(),
            },
            provider: "acme".to_owned(),
            generation: None,
            requested_model: "default".to_owned(),
            requested_effort: None,
            effective_model: None,
            effective_effort: None,
        };
        acts.admitted(
            &mut runs,
            Some(0),
            Some(CueLineageSnapshot { run: 0, cue_scope: cue_scope(), containing_span_id: 1 }),
            &AgentTurnControl { key: 70, session: Some(session) },
        );
        let act_scope = acts.lineage_snapshot("act-1").expect("the act is known").act_scope;
        Stage { runtimes, runs, acts, authorities: ActAuthorities::new(), act_scope }
    }

    fn prepare(
        &mut self,
        lineage: Lookup<TaskLineage>,
        task: Lookup<TaskRef>,
    ) -> Result<Option<PreparedActAuthority>, ActAuthorityError> {
        self.authorities.prepare(
            &self.runtimes,
            &mut self.runs,
            BINDING,
            CuedRef { key: CUED, binding_key: Some(BINDING) },
            &self.act_scope,
            lineage,
            task,
        )
    }
}

#[test]
fn a_caller_shares_the_authority_of_its_act() {
    let mut stage = Stage::new();
    let mut prepared = stage
        .prepare(Lookup::Found(lineage()), Lookup::Found(TASK))
        .expect("the caller may publish")
        .expect("the binding reports");
    let staging = prepared.stage_lineage(true).expect("the share can be staged");
    assert_eq!(staging.expected_generation, None);
    let share = staging.replacement.act_authority.expect("the caller has a share");
    assert_eq!(share.role, ActAuthorityRole::Caller);
    prepared.stage(true).expect("the share is staged");
    prepared.commit();
    assert!(prepared.committed);
    assert!(stage.authorities.generation_is_active(&share));

    let child = share.for_registered_child();
    assert_eq!(child.role, ActAuthorityRole::CallerDescendant);
    assert_eq!(child.generation(), share.generation());
    assert!(share.for_supervisor().is_supervisor());
    assert!(stage.authorities.active_supervisor(&share.for_supervisor()));
    let resolved = stage.authorities.authorities[share.authority].resolve(
        &stage.runtimes,
        &stage.acts,
        &mut stage.runs,
        true,
        BINDING,
        share.generation(),
        child.role,
    );
    assert_eq!(resolved.expect("a child may publish").scope.act_id, Some(id("act-1")));
}

#[test]
fn abandoning_undoes_staging() {
    let mut stage = Stage::new();
    let mut prepared = stage
        .prepare(Lookup::Found(lineage()), Lookup::Found(TASK))
        .expect("the caller may publish")
        .expect("the binding reports");
    prepared.stage(true).expect("the share is staged");
    let unstaging = prepared.abandon(true).expect("the share is taken back");
    assert_eq!(unstaging.replacement, lineage());
    assert!(unstaging.expected_generation.is_some());
    PreparedActAuthority::abandoned(&mut stage.runs, Some(0), true);
    assert_eq!(failure_code(&stage.runs.runs[0]), None);
    PreparedActAuthority::abandoned(&mut stage.runs, Some(0), false);
    assert!(failure_code(&stage.runs.runs[0]).is_some());
}

#[test]
fn expired_shares_are_void_until_rolled_back() {
    let mut stage = Stage::new();
    let prepared = stage
        .prepare(Lookup::Found(lineage()), Lookup::Found(TASK))
        .expect("the caller may publish")
        .expect("the binding reports");
    let share = stage.authorities.authorities[prepared.authority()]
        .token(prepared.authority(), ActAuthorityRole::Supervisor);
    let mut expiry: PreparedGenerationExpiry =
        stage.authorities.authorities[0].prepare_expiry().expect("the authority is in use");
    let before = stage.authorities.authorities[0].phase;
    let clearing = expiry.commit(&mut stage.authorities.authorities[0]);
    assert_eq!(clearing.replacement.act_authority, None);
    assert!(!stage.authorities.generation_is_active(&share));
    assert_eq!(
        stage.authorities.authorities[0].prepare_expiry(),
        Err("act.authority-generation-expired")
    );
    expiry.cleared(&mut stage.runs, Some(0), CallerLineageUpdate::Updated);
    let restoring = expiry
        .rollback(0, &mut stage.authorities.authorities[0])
        .expect("the caller gets its share back");
    assert!(restoring.replacement.act_authority.is_some());
    assert_eq!(stage.authorities.authorities[0].phase, before);
    assert!(stage.authorities.generation_is_active(&share));
    expiry.given_back(&mut stage.runs, Some(0), CallerLineageUpdate::Updated);
    assert_eq!(failure_code(&stage.runs.runs[0]), None);
}

#[test]
fn an_authority_is_refused_to_others() {
    let mut stage = Stage::new();
    let mut inactive = lineage();
    inactive.active = false;
    let mut elsewhere = lineage();
    elsewhere.cued_key = Some(CUED + 1);
    for (lineage, task, error) in [
        (Lookup::Raised, Lookup::Found(TASK), ActAuthorityError::Raised),
        (Lookup::Absent, Lookup::Found(TASK), ActAuthorityError::Context),
        (Lookup::Found(inactive), Lookup::Found(TASK), ActAuthorityError::Context),
        (Lookup::Found(elsewhere), Lookup::Found(TASK), ActAuthorityError::Context),
        (Lookup::Found(lineage()), Lookup::Absent, ActAuthorityError::Context),
        (Lookup::Found(lineage()), Lookup::Raised, ActAuthorityError::Raised),
    ] {
        assert_eq!(stage.prepare(lineage, task), Err(error));
    }
    stage.act_scope.act_id = None;
    assert_eq!(
        stage.prepare(Lookup::Found(lineage()), Lookup::Found(TASK)),
        Err(ActAuthorityError::NoActId)
    );
    assert_eq!(
        ActAuthorityError::Context.message(),
        Some("custom diagnostic publication requires an active Act authority")
    );
    assert_eq!(ActAuthorityError::Raised.message(), None);
}

#[test]
fn one_extension_resolves_the_facts_of_acts() {
    let mut extension = DomainExtension::Vacant;
    extension.ensure_domain_extension().expect("the extension is free");
    assert_eq!(extension, DomainExtension::Acts);
    extension.ensure_domain_extension().expect("the extension is ours");
    assert_eq!(extension.install_domain_extension(), Err(ActAuthorityError::ExtensionTaken));
    let mut taken = DomainExtension::Other;
    assert_eq!(taken.ensure_domain_extension(), Err(ActAuthorityError::ExtensionTaken));
}

#[test]
fn an_authority_of_another_binding_resolves_nothing() {
    let mut stage = Stage::new();
    stage
        .prepare(Lookup::Found(lineage()), Lookup::Found(TASK))
        .expect("the caller may publish")
        .expect("the binding reports");
    let resolved = stage.authorities.authorities[0].resolve(
        &stage.runtimes,
        &stage.acts,
        &mut stage.runs,
        true,
        BINDING + 1,
        stage.authorities.authorities[0].generation(),
        ActAuthorityRole::Caller,
    );
    assert_eq!(resolved, Err(ActAuthorityError::Context));
}
