use diagnostic_runtime::context::{
    DiagnosticRunContext, HubAdmissionError, HubRefusal, SpanEventAdmission, TimeError,
};
#[allow(unused_imports)]
use diagnostic_runtime::event::{
    CausalLink, CausalRelation, CounterKind, DiagnosticScope, ErrorCode, EventBody, EventCandidate,
    InstantKind, RunLocalId, SpanKind, SpanOutcome,
};
#[allow(unused_imports)]
use diagnostic_runtime::run::{DiagnosticRun, DiagnosticRuns, RuntimeProducerError};
use std::cell::{Cell, RefCell};
use std::rc::Rc;
use diagnostic_runtime::actor_producer::{ActorHook, ActorNames, ActorRegistry};
use diagnostic_runtime::cue_producer::{
    mailbox_depth, terminal_span, CueCallerOutcome, CueHook, CueMailboxHook, CueOperation, CuePhase,
    CueRegistry, CueTerminalOutcome,
};
use diagnostic_runtime::effect_producer::{
    effect_scope, EffectConstruction, EffectHook, EffectRegistry,
};
use diagnostic_runtime::runtime_producer::{RuntimeHook, RuntimeProducerRegistry};
use diagnostic_runtime::scene_producer::{SceneHook, SceneName, SceneRegistry, SceneScope};
use pyo3::exceptions::PyRuntimeError;
use pyo3::types::PyAnyMethods;
use pyo3::{PyErr, Python};

#[derive(Debug, PartialEq)]
enum Seen {
    Started { kind: SpanKind, parent: Option<u64> },
    Finished { span_id: u64, outcome: SpanOutcome, code: Option<String> },
    Instant { kind: InstantKind, containing: Option<u64> },
    Counter { kind: CounterKind, value: u64 },
    Gap { producer: &'static str, reason: &'static str },
    CustomStarted { name: String, parent: Option<u64> },
    CustomFinished { span_id: u64, outcome: SpanOutcome },
    CustomInstant { name: String, containing: Option<u64> },
    Other,
}

#[allow(dead_code)]
struct Fact {
    sequence: u64,
    elapsed_ns: u64,
    scope: DiagnosticScope,
    cause: Option<CausalLink>,
    seen: Seen,
    unheard: bool,
    text: String,
}

type Log = Rc<RefCell<Vec<Fact>>>;

/// A hub that numbers events from 1, and refuses the attempt that it is told to.
struct Recorder {
    log: Log,
    attempts: usize,
    fail_on_attempt: Option<usize>,
    clock: u64,
    /// The subscribers of acts hear of its events.
    heard: Rc<Cell<bool>>,
}

impl SpanEventAdmission for Recorder {
    fn told(&self) -> diagnostic_runtime::context::AdmissionLog {
        unreachable!()
    }

    fn hub(&self) -> diagnostic_runtime::context::HubIdentity {
        unreachable!()
    }

    fn share(&self) -> Self {
        Recorder {
            log: self.log.clone(),
            attempts: self.attempts,
            fail_on_attempt: self.fail_on_attempt,
            clock: self.clock,
            heard: self.heard.clone(),
        }
    }

    fn install_act_subscribers(&mut self) -> Result<(), String> {
        if self.heard.replace(true) {
            Err("Act subscribers are already installed".to_owned())
        } else {
            Ok(())
        }
    }

    fn elapsed_now(&mut self) -> Result<u64, TimeError> {
        self.clock += 10;
        Ok(self.clock)
    }

    fn admit_event(
        &mut self,
        elapsed_ns: u64,
        candidate: &EventCandidate,
    ) -> Result<u64, HubAdmissionError> {
        self.attempts += 1;
        if self.fail_on_attempt == Some(self.attempts) {
            return Err(HubAdmissionError {
                refusal: HubRefusal::Reservation,
                message: "injected diagnostic admission failure".to_owned(),
            });
        }
        let sequence = self.log.borrow().len() as u64 + 1;
        let seen = match &candidate.body {
            EventBody::SpanStarted { detail, parent_span_id } => {
                Seen::Started { kind: detail.kind(), parent: *parent_span_id }
            }
            EventBody::SpanFinished { span_id, outcome, error_code } => Seen::Finished {
                span_id: *span_id,
                outcome: *outcome,
                code: error_code.as_ref().map(|code| match code {
                    ErrorCode::Stable(code) => (*code).to_owned(),
                    ErrorCode::Reported(code) => code.clone(),
                }),
            },
            EventBody::InstantOccurred { instant, containing_span_id } => {
                Seen::Instant { kind: instant.kind(), containing: *containing_span_id }
            }
            EventBody::CounterSampled { kind, value } => {
                Seen::Counter { kind: *kind, value: *value }
            }
            EventBody::ObservationGap(gap) => {
                Seen::Gap { producer: gap.producer, reason: gap.reason }
            }
            EventBody::CustomSpanStarted { name, parent_id, .. } => {
                Seen::CustomStarted { name: name.clone(), parent: *parent_id }
            }
            EventBody::CustomSpanFinished { custom_span_id, custom_outcome } => {
                Seen::CustomFinished { span_id: *custom_span_id, outcome: *custom_outcome }
            }
            EventBody::CustomInstantOccurred { name, containing_id, .. } => {
                Seen::CustomInstant { name: name.clone(), containing: *containing_id }
            }
            _ => Seen::Other,
        };
        self.log.borrow_mut().push(Fact {
            sequence,
            elapsed_ns,
            scope: candidate.scope.clone(),
            cause: candidate.cause,
            seen,
            unheard: candidate.unheard,
            text: format!("{candidate:?}"),
        });
        Ok(sequence)
    }
}

fn recorder(fail_on_attempt: Option<usize>) -> (Recorder, Log) {
    let log: Log = Rc::new(RefCell::new(Vec::new()));
    (Recorder { log: log.clone(), attempts: 0, fail_on_attempt, clock: 0, heard: Rc::default() }, log)
}

#[allow(dead_code)]
fn failure_code(run: &DiagnosticRun<Recorder>) -> Option<String> {
    run.failure().map(|failure| failure.code().to_owned())
}

#[allow(dead_code)]
fn assert_start(log: &Log, index: usize, kind: SpanKind, parent: Option<u64>) {
    let facts = log.borrow();
    assert_eq!(facts[index].sequence, index as u64 + 1);
    assert_eq!(facts[index].seen, Seen::Started { kind, parent });
}

#[allow(dead_code)]
fn assert_finish(
    log: &Log,
    index: usize,
    span_id: u64,
    outcome: SpanOutcome,
    error_code: Option<&str>,
) {
    let facts = log.borrow();
    assert_eq!(facts[index].sequence, index as u64 + 1);
    assert_eq!(
        facts[index].seen,
        Seen::Finished { span_id, outcome, code: error_code.map(str::to_owned) }
    );
}

#[allow(dead_code)]
fn assert_instant(log: &Log, index: usize, kind: InstantKind, containing: Option<u64>) {
    let facts = log.borrow();
    assert_eq!(facts[index].sequence, index as u64 + 1);
    assert_eq!(facts[index].seen, Seen::Instant { kind, containing });
}

#[allow(dead_code)]
fn assert_cause(log: &Log, index: usize, sequence: u64, relation: CausalRelation) {
    assert_eq!(log.borrow()[index].cause, Some(CausalLink { sequence, relation }));
}


/// Every fact refers only to spans that have begun and to facts that came before it.
#[allow(dead_code)]
fn assert_facts_refer_back(log: &Log) {
    let facts = log.borrow();
    let mut begun: Vec<u64> = Vec::new();
    for fact in facts.iter() {
        let (within, ended) = match &fact.seen {
            Seen::Started { parent, .. } | Seen::CustomStarted { parent, .. } => (*parent, None),
            Seen::Instant { containing, .. } | Seen::CustomInstant { containing, .. } => {
                (*containing, None)
            }
            Seen::Finished { span_id, .. } | Seen::CustomFinished { span_id, .. } => {
                (None, Some(*span_id))
            }
            _ => (None, None),
        };
        assert!(within.is_none_or(|span_id| begun.contains(&span_id)), "{}", fact.text);
        assert!(ended.is_none_or(|span_id| begun.contains(&span_id)), "{}", fact.text);
        assert!(fact.cause.is_none_or(|cause| cause.sequence < fact.sequence), "{}", fact.text);
        if matches!(fact.seen, Seen::Started { .. } | Seen::CustomStarted { .. }) {
            begun.push(fact.sequence);
        }
    }
}

const CORE: usize = 7;
const BINDING: usize = 11;

/// A run whose production has started.
struct Harness {
    runtimes: RuntimeProducerRegistry,
    runs: DiagnosticRuns<Recorder>,
    log: Log,
}

impl Harness {
    fn new(fail_on_attempt: Option<usize>) -> Self {
        let (recorder, log) = recorder(fail_on_attempt);
        let mut runs = DiagnosticRuns::new();
        let mut runtimes = RuntimeProducerRegistry::new();
        runtimes
            .install(&mut runs, DiagnosticRunContext::new(recorder), CORE, BINDING)
            .expect("install runtime producer");
        runtimes.run_started(&mut runs, CORE, BINDING);
        runtimes.observe_binding(&mut runs, BINDING, RuntimeHook::ProductionStartEntered, None);
        runtimes.observe_binding(&mut runs, BINDING, RuntimeHook::ProductionStartReturned, None);
        Harness { runtimes, runs, log }
    }

    #[allow(dead_code)]
    fn failure(&self) -> Option<String> {
        failure_code(&self.runs.runs[0])
    }

    #[allow(dead_code)]
    fn finish(&mut self) {
        self.runtimes.observe_core(&mut self.runs, CORE, RuntimeHook::ShutdownRequested);
        for hook in [
            RuntimeHook::ProductionStopEntered,
            RuntimeHook::ProductionStopReturned,
            RuntimeHook::RunLifecycleReturned,
        ] {
            self.runtimes.observe_binding(&mut self.runs, BINDING, hook, None);
        }
        self.runtimes.observe_core(&mut self.runs, CORE, RuntimeHook::RunFinished);
        assert_eq!(self.failure(), None);
    }
}

#[allow(dead_code)]
fn id(text: &str) -> RunLocalId {
    RunLocalId { text: text.to_owned() }
}

#[allow(dead_code)]
fn cancelled_error(payload: &str) -> PyErr {
    Python::attach(|py| {
        py.import("asyncio")
            .and_then(|asyncio| asyncio.getattr("CancelledError"))
            .and_then(|cancelled| cancelled.call1((payload,)))
            .map(PyErr::from_value)
            .expect("construct CancelledError")
    })
}

const CUED: usize = 40;
const ACTOR: usize = 5;

/// A run with a scene (event 4), an actor (events 5 and 6), and cues.
struct Stage {
    harness: Harness,
    scenes: SceneRegistry,
    actors: ActorRegistry,
    cues: CueRegistry,
    effects: EffectRegistry,
    operation: CueOperation,
}

impl Stage {
    fn new(fail_on_attempt: Option<usize>) -> Self {
        let mut harness = Harness::new(fail_on_attempt);
        let mut scenes = SceneRegistry::new();
        let mut actors = ActorRegistry::new();
        let scene = SceneScope {
            key: 20,
            binding_key: Some(BINDING),
            name: SceneName::Identifier(id("scene-1")),
        };
        scenes.observe_scene(
            &harness.runtimes,
            &mut harness.runs,
            &scene,
            SceneHook::SceneCreated,
        );
        let names = ActorNames {
            display_name: Some("worker".to_owned()),
            actor_type: Some("Actor".to_owned()),
        };
        actors.cast_started(
            &harness.runtimes,
            &mut harness.runs,
            Some(BINDING),
            None,
            ACTOR,
            &names,
        );
        for hook in [ActorHook::Constructed, ActorHook::RegistryCommitted] {
            actors.observe_identity(
                &harness.runtimes,
                &mut harness.runs,
                Some(BINDING),
                ACTOR,
                hook,
            );
            if hook == ActorHook::Constructed {
                actors.observe_handle(
                    &harness.runtimes,
                    &mut harness.runs,
                    Some(BINDING),
                    ACTOR,
                    50,
                    ActorHook::HandleCreated,
                );
            }
        }
        actors.cast_finished(
            &harness.runtimes,
            &mut harness.runs,
            Some(BINDING),
            ACTOR,
            &names,
            Ok(50),
        );
        let operation = CueOperation {
            cued_key: CUED,
            binding_key: Some(BINDING),
            scene: Some(scene),
            actor_key: Some(ACTOR),
        };
        Stage {
            harness,
            scenes,
            actors,
            cues: CueRegistry::new(),
            effects: EffectRegistry::new(),
            operation,
        }
    }

    fn cue(&mut self, hook: CueHook) {
        self.cues.observe(
            &self.harness.runtimes,
            &self.scenes,
            &self.actors,
            &mut self.effects,
            &mut self.harness.runs,
            &self.operation,
            hook,
        );
    }

    fn mailbox(&mut self, hook: CueMailboxHook, queued: usize, running: bool) {
        self.cues.mailbox_changed(
            &self.harness.runtimes,
            &mut self.harness.runs,
            &self.operation,
            hook,
            queued,
            running,
        );
    }

    fn terminal(&mut self, outcome: CueTerminalOutcome) {
        let error_available = outcome != CueTerminalOutcome::Completed;
        self.cues.terminal(
            &self.harness.runtimes,
            &mut self.effects,
            &mut self.harness.runs,
            &self.operation,
            outcome,
            error_available,
        );
    }

    fn dispatch(&mut self) {
        self.cue(CueHook::Admitted);
        self.mailbox(CueMailboxHook::Enqueued, 0, true);
        self.cue(CueHook::Dispatched);
    }

    /// Constructs an effect within the cue.
    fn effect(&mut self, identity_key: usize) {
        self.effects.construction_started(
            &mut self.harness.runs,
            self.cues.lineage_snapshot(CUED),
            &EffectConstruction {
                identity_key,
                owner_key: CUED,
                effect_type: Some("Spawn".to_owned()),
            },
        );
        self.effect_hook(identity_key, EffectHook::Created);
        self.effects.construction_finished(&mut self.harness.runs, identity_key, Ok(identity_key));
    }

    fn effect_hook(&mut self, identity_key: usize, hook: EffectHook) {
        let lineage = self.cues.lineage_snapshot(CUED);
        self.effects.observe(&mut self.harness.runs, identity_key, hook, lineage);
    }

    fn seen_from(&self, index: usize) -> Vec<String> {
        self.harness.log.borrow()[index..].iter().map(|fact| format!("{:?}", fact.seen)).collect()
    }
}

fn instant(kind: InstantKind, containing: u64) -> String {
    format!("{:?}", Seen::Instant { kind, containing: Some(containing) })
}

fn started(kind: SpanKind, parent: u64) -> String {
    format!("{:?}", Seen::Started { kind, parent: Some(parent) })
}

fn finished(span_id: u64, outcome: SpanOutcome, code: Option<&str>) -> String {
    format!("{:?}", Seen::Finished { span_id, outcome, code: code.map(str::to_owned) })
}

fn counter(kind: CounterKind, value: u64) -> String {
    format!("{:?}", Seen::Counter { kind, value })
}

#[test]
fn a_cue_runs_from_its_mailbox_to_its_end() {
    let mut stage = Stage::new(None);
    stage.dispatch();
    stage.terminal(CueTerminalOutcome::Completed);
    stage.mailbox(CueMailboxHook::Retired, 0, false);
    stage.cue(CueHook::CallerFinished { caller: CueCallerOutcome::Consumed });
    assert_eq!(
        stage.seen_from(6),
        [
            instant(InstantKind::CueAdmitted, 4),
            counter(CounterKind::CueActive, 1),
            instant(InstantKind::CueEnqueued, 4),
            started(SpanKind::CueMailboxWait, 4),
            counter(CounterKind::ActorMailboxDepth, 1),
            instant(InstantKind::CueDispatched, 10),
            finished(10, SpanOutcome::Completed, None),
            started(SpanKind::CueExecution, 4),
            finished(14, SpanOutcome::Completed, None),
            counter(CounterKind::CueActive, 0),
            counter(CounterKind::ActorMailboxDepth, 0),
        ]
    );
    let log = stage.harness.log.clone();
    assert_cause(&log, 8, 7, CausalRelation::FollowsFrom);
    assert_cause(&log, 11, 9, CausalRelation::Dispatch);
    assert_cause(&log, 13, 12, CausalRelation::Dispatch);
    assert_cause(&log, 14, 14, CausalRelation::Return);
    assert_eq!(log.borrow()[6].scope.cue_id, Some(id("cue-1")));
    assert_eq!(log.borrow()[10].scope.cue_id, None);
    assert_facts_refer_back(&log);
    assert_eq!(stage.harness.failure(), None);
}

#[test]
fn a_cancelled_cue_is_handed_off() {
    let mut stage = Stage::new(None);
    stage.cue(CueHook::Admitted);
    stage.mailbox(CueMailboxHook::Enqueued, 2, true);
    stage.cue(CueHook::CancelRequested);
    stage.terminal(CueTerminalOutcome::Cancelled);
    assert_eq!(
        stage.seen_from(10),
        [
            counter(CounterKind::ActorMailboxDepth, 3),
            instant(InstantKind::CueCancelRequested, 10),
            finished(10, SpanOutcome::Cancelled, Some("cue-cancelled")),
            counter(CounterKind::CueActive, 0),
        ]
    );
    let log = stage.harness.log.clone();
    assert_cause(&log, 11, 9, CausalRelation::Handoff);
    assert_cause(&log, 12, 12, CausalRelation::Handoff);
}

#[test]
fn an_ended_cue_rests() {
    let mut stage = Stage::new(None);
    stage.dispatch();
    stage.terminal(CueTerminalOutcome::Completed);
    let reported = stage.harness.log.borrow().len();
    stage.terminal(CueTerminalOutcome::Failed);
    assert_eq!(stage.harness.log.borrow().len(), reported);
    assert_eq!(stage.harness.failure().as_deref(), Some("cue.terminal-transition-invalid"));
}

#[test]
fn cue_hooks_out_of_place_have_their_codes() {
    let cases: [(fn(&mut Stage), &str); 8] = [
        (
            |stage| stage.mailbox(CueMailboxHook::Enqueued, 0, false),
            "cue.mailbox-running-snapshot-invalid",
        ),
        (
            |stage| stage.mailbox(CueMailboxHook::Retired, 0, false),
            "cue.mailbox-retire-transition-invalid",
        ),
        (
            |stage| stage.mailbox(CueMailboxHook::Enqueued, usize::MAX, true),
            "cue.mailbox-depth-overflow",
        ),
        (|stage| stage.cue(CueHook::Dispatched), "cue.dispatch-transition-invalid"),
        (
            |stage| stage.terminal(CueTerminalOutcome::Completed),
            "cue.completed-before-dispatch",
        ),
        (
            |stage| {
                stage.cue(CueHook::CancelRequested);
                stage.cue(CueHook::CancelRequested);
            },
            "cue.cancel-request-transition-invalid",
        ),
        (
            |stage| {
                stage.mailbox(CueMailboxHook::Enqueued, 0, true);
                stage.mailbox(CueMailboxHook::Enqueued, 0, true);
            },
            "cue.enqueue-transition-invalid",
        ),
        (
            |stage| {
                let Stage { harness, effects, operation, cues, .. } = stage;
                cues.terminal(
                    &harness.runtimes,
                    effects,
                    &mut harness.runs,
                    operation,
                    CueTerminalOutcome::Failed,
                    false,
                );
            },
            "cue.terminal-error-unavailable",
        ),
    ];
    for (misplace, code) in cases {
        let mut stage = Stage::new(None);
        stage.cue(CueHook::Admitted);
        misplace(&mut stage);
        assert_eq!(stage.harness.failure().as_deref(), Some(code));
    }
}

#[test]
fn how_a_cue_ends_depends_on_how_far_it_came() {
    let waiting = CuePhase::Enqueued { enqueued_sequence: 1, wait_span_id: 2 };
    let running = CuePhase::Dispatched { execution_span_id: 3 };
    let code = |outcome, phase| terminal_span(outcome, phase).error_code;
    assert_eq!(code(CueTerminalOutcome::Completed, running), None);
    assert_eq!(code(CueTerminalOutcome::Failed, running), Some("cue-execution-failed"));
    assert_eq!(code(CueTerminalOutcome::Failed, waiting), Some("cue-dispatch-failed"));
    assert_eq!(code(CueTerminalOutcome::Cancelled, waiting), Some("cue-cancelled"));
    assert_eq!(code(CueTerminalOutcome::CleanupFailed, running), Some("cue-cleanup-failed"));
    assert_eq!(mailbox_depth(3, true), Ok(4));
    assert_eq!(mailbox_depth(3, false), Ok(3));
    assert_eq!(mailbox_depth(usize::MAX, true), Err("cue.mailbox-depth-overflow"));
}

#[test]
fn a_returned_effect_is_consumed_in_either_order() {
    for caller_first in [false, true] {
        let mut stage = Stage::new(None);
        stage.dispatch();
        stage.effect(60);
        stage.effect_hook(60, EffectHook::Returned);
        let consumed = CueHook::CallerFinished { caller: CueCallerOutcome::Consumed };
        if caller_first {
            stage.cue(consumed);
            stage.terminal(CueTerminalOutcome::Completed);
        } else {
            stage.terminal(CueTerminalOutcome::Completed);
            stage.cue(consumed);
        }
        let seen = stage.seen_from(14);
        assert_eq!(
            seen[..3],
            [
                started(SpanKind::EffectLifecycle, 14),
                instant(InstantKind::EffectCreated, 15),
                instant(InstantKind::EffectReturned, 15),
            ]
        );
        assert!(seen.contains(&instant(InstantKind::EffectConsumed, 15)));
        assert!(seen.contains(&finished(15, SpanOutcome::Completed, None)));
        assert_eq!(seen.len(), 7);
        assert!(stage.effects.producers.is_empty());
        assert_eq!(stage.harness.failure(), None);
    }
}

#[test]
fn effects_end_with_their_cue() {
    let cases: [(CueTerminalOutcome, bool, Option<CueCallerOutcome>, &str); 6] = [
        (CueTerminalOutcome::Completed, false, None, "effect-not-returned"),
        (CueTerminalOutcome::Failed, false, None, "effect-owner-failed"),
        (CueTerminalOutcome::Cancelled, false, None, "effect-owner-cancelled"),
        (CueTerminalOutcome::CleanupFailed, false, None, "effect-owner-cleanup-failed"),
        (
            CueTerminalOutcome::Completed,
            true,
            Some(CueCallerOutcome::Abandoned),
            "effect-consumer-abandoned",
        ),
        (CueTerminalOutcome::Failed, true, None, "effect-owner-failed"),
    ];
    for (outcome, returned, caller, code) in cases {
        let mut stage = Stage::new(None);
        stage.dispatch();
        stage.effect(60);
        if returned {
            stage.effect_hook(60, EffectHook::Returned);
        }
        stage.terminal(outcome);
        if let Some(caller) = caller {
            stage.cue(CueHook::CallerFinished { caller });
        }
        let ended = stage
            .harness
            .log
            .borrow()
            .iter()
            .any(|fact| matches!(&fact.seen, Seen::Finished { span_id: 15, code: Some(told), .. } if told == code));
        assert!(ended, "{code}");
        assert_facts_refer_back(&stage.harness.log);
        assert!(stage.effects.producers.is_empty());
        assert_eq!(stage.harness.failure(), None);
    }
}

#[test]
fn a_cleared_effect_is_abandoned() {
    let mut stage = Stage::new(None);
    stage.dispatch();
    stage.effect(60);
    stage.effect_hook(60, EffectHook::Returned);
    stage.terminal(CueTerminalOutcome::Completed);
    stage.effects.cleared(&mut stage.harness.runs, 60);
    let seen = stage.seen_from(14);
    assert!(seen.contains(&finished(15, SpanOutcome::Cancelled, Some("effect-consumer-abandoned"))));
    assert!(stage.effects.producers.is_empty());
}

#[test]
fn a_construction_that_raises_ends_its_effect() {
    Python::initialize();
    for (error, outcome, code) in [
        (
            PyRuntimeError::new_err("secret"),
            SpanOutcome::Failed,
            "effect-construction-failed",
        ),
        (cancelled_error(""), SpanOutcome::Cancelled, "effect-construction-cancelled"),
    ] {
        let mut stage = Stage::new(None);
        stage.dispatch();
        stage.effects.construction_started(
            &mut stage.harness.runs,
            stage.cues.lineage_snapshot(CUED),
            &EffectConstruction {
                identity_key: 60,
                owner_key: CUED,
                effect_type: Some("Spawn".to_owned()),
            },
        );
        stage.effects.construction_finished(&mut stage.harness.runs, 60, Err(&error));
        assert_eq!(stage.seen_from(15), [finished(15, outcome, Some(code))]);
        assert!(stage.harness.log.borrow().iter().all(|fact| !fact.text.contains("secret")));
    }
}

#[test]
fn effect_hooks_out_of_place_have_their_codes() {
    let mut stage = Stage::new(None);
    stage.dispatch();
    stage.effect(60);
    stage.effect_hook(60, EffectHook::Created);
    assert_eq!(stage.harness.failure().as_deref(), Some("effect.created-transition-invalid"));

    let mut stage = Stage::new(None);
    stage.dispatch();
    stage.effects.construction_started(
        &mut stage.harness.runs,
        stage.cues.lineage_snapshot(CUED),
        &EffectConstruction {
            identity_key: 60,
            owner_key: CUED,
            effect_type: Some("Spawn".to_owned()),
        },
    );
    stage.effects.construction_finished(&mut stage.harness.runs, 60, Ok(60));
    assert_eq!(
        stage.harness.failure().as_deref(),
        Some("effect.construction-finished-without-create")
    );

    let scope = |scene: bool, actor: bool, cue: bool| DiagnosticScope {
        scene_id: scene.then_some(id("scene-1")),
        actor_id: actor.then_some(id("actor-1")),
        cue_id: cue.then_some(id("cue-1")),
        effect_id: None,
        act_id: None,
        tool_call_id: None,
        session_generation: None,
    };
    let told = |scene, actor, cue| {
        effect_scope(&scope(scene, actor, cue), id("effect-1")).err()
    };
    assert_eq!(told(false, true, true), Some("effect.scene-identifier-unavailable"));
    assert_eq!(told(true, false, true), Some("effect.actor-identifier-unavailable"));
    assert_eq!(told(true, true, false), Some("effect.cue-identifier-unavailable"));
    assert_eq!(told(true, true, true), None);
}

#[test]
fn a_cue_without_lineage_is_not_admitted() {
    let mut stage = Stage::new(None);
    stage.operation.scene = None;
    stage.cue(CueHook::Admitted);
    assert_eq!(stage.harness.log.borrow().len(), 6);
    assert!(stage.harness.failure().is_some());
    assert!(stage.cues.lineage_snapshot(CUED).is_none());
}

#[test]
fn a_cue_that_cannot_be_reported_fails_its_run() {
    let mut stage = Stage::new(Some(8));
    stage.cue(CueHook::Admitted);
    assert_eq!(stage.harness.failure().as_deref(), Some("diagnostic.admission-failed"));
    assert_eq!(stage.harness.log.borrow().len(), 7);
    stage.mailbox(CueMailboxHook::Enqueued, 0, true);
    assert_eq!(stage.harness.log.borrow().len(), 7);
}

#[test]
fn what_is_not_started_takes_no_number() {
    let mut stage = Stage::new(None);
    assert_eq!(stage.cues.next_cue_id.next, 1);
    stage.dispatch();
    assert_eq!(stage.cues.next_cue_id.next, 2);
    let construction = |identity_key| EffectConstruction {
        identity_key,
        owner_key: CUED,
        effect_type: Some("Spawn".to_owned()),
    };
    stage.effects.construction_started(&mut stage.harness.runs, None, &construction(59));
    assert_eq!(stage.effects.next_effect_id.next, 1);
    stage.effect(60);
    assert_eq!(stage.effects.next_effect_id.next, 2);

    stage.cue(CueHook::Admitted);
    assert_eq!(stage.harness.failure().as_deref(), Some("cue.lifecycle-already-started"));
    assert_eq!(stage.cues.next_cue_id.next, 2);
    let lineage = stage.cues.lineage_snapshot(CUED);
    stage.effects.construction_started(&mut stage.harness.runs, lineage, &construction(61));
    assert_eq!(stage.effects.next_effect_id.next, 2);

    let mut stage = Stage::new(None);
    stage.dispatch();
    let lineage = stage.cues.lineage_snapshot(CUED);
    stage.effects.construction_started(
        &mut stage.harness.runs,
        lineage,
        &EffectConstruction { identity_key: 60, owner_key: CUED, effect_type: None },
    );
    assert_eq!(stage.harness.failure().as_deref(), Some("effect.type-name-not-utf8"));
    assert_eq!(stage.effects.next_effect_id.next, 2);
}
