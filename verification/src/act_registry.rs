//! The acts that are under way, and how they are admitted.
use crate::act_producer::{
    scope_for_act, ActCallerExit, ActHook, ActLifecycleProducer, ActLifecycleState,
    ActLineageSnapshot,
};
use crate::agent::{
    AgentSessionDiagnosticMetadata, AgentTurnDiagnosticIdentity, AgentTurnDiagnosticMetadata,
    AgentTurnDiagnosticOutcome, AgentTurnDiagnosticSettlement,
};
use crate::context::SpanEventAdmission;
use crate::cue_producer::CueLineageSnapshot;
use crate::event::DiagnosticScope;
use crate::identifier::{numbered_id, numbered_text, same_text, IdCounter};
use crate::python_error::ErrorClass;
use crate::run::DiagnosticRuns;
use crate::usage_finalization::{
    UsageFinalizationAck, UsageFinalizationBridge, UsageFinalizationIdentity,
    UsageFinalizationSlot,
};
use vstd::prelude::*;
use vstd::string::StringExecFns;

verus! {

/// The control of a turn: the key that it is known by, and its session, where that is known.
#[derive(Debug, PartialEq, Eq)]
pub struct AgentTurnControl {
    pub key: usize,
    pub session: Option<AgentSessionDiagnosticMetadata>,
}

/// The admission of an act outside of a production: the run that it reports through, and where it
/// belongs.
#[derive(Debug, PartialEq, Eq)]
pub struct StandaloneActAdmission {
    pub run: usize,
    pub cue_scope: DiagnosticScope,
    pub session: AgentSessionDiagnosticMetadata,
}

/// Why an act was not admitted.
#[derive(Clone, Copy, Debug, PartialEq, Eq)]
pub struct ActAdmissionPrepareError {
    pub code: &'static str,
}

impl ActAdmissionPrepareError {
    pub fn code(&self) -> (code: &'static str)
        ensures
            code == self.code,
    {
        self.code
    }

    /// Describes the error to a reader.
    pub fn describe(&self) -> (text: String)
        ensures
            text@ == "Act diagnostic admission failed ["@ + self.code@ + "]"@,
    {
        "Act diagnostic admission failed [".to_owned().concat(self.code).concat("]")
    }
}

/// An act that can be admitted, before anyone knows of it.
#[derive(Debug, PartialEq, Eq)]
pub struct PreparedActAdmission {
    pub producer: ActLifecycleProducer,
}

impl PreparedActAdmission {
    pub fn identity(&self) -> (identity: &AgentTurnDiagnosticIdentity)
        ensures
            *identity == self.producer.identity,
    {
        &self.producer.identity
    }

    pub fn act_scope(&self) -> (scope: &DiagnosticScope)
        ensures
            *scope == self.producer.act_scope,
    {
        &self.producer.act_scope
    }
}

/// Where an act is admitted to, or why it cannot be.
pub enum ActAdmissionSource {
    /// Nothing reports the act.
    Absent,
    /// The run at `owner` hears why there is no act.
    Problem { owner: usize, code: &'static str },
    Known { run: usize, cue_scope: DiagnosticScope, session: AgentSessionDiagnosticMetadata },
}

/// What the agent runtime tells of a turn.
#[derive(Debug, PartialEq, Eq)]
pub enum AgentTurnObservation {
    Submitted { metadata: AgentTurnDiagnosticMetadata },
    SupervisorHandoff { metadata: AgentTurnDiagnosticMetadata },
    Terminal {
        metadata: AgentTurnDiagnosticMetadata,
        settlement: AgentTurnDiagnosticSettlement,
        outcome: AgentTurnDiagnosticOutcome,
        error_code: Option<&'static str>,
    },
}

impl AgentTurnObservation {
    pub open spec fn spec_metadata(self) -> AgentTurnDiagnosticMetadata {
        match self {
            AgentTurnObservation::Submitted { metadata } => metadata,
            AgentTurnObservation::SupervisorHandoff { metadata } => metadata,
            AgentTurnObservation::Terminal { metadata, .. } => metadata,
        }
    }

    pub fn metadata(&self) -> (metadata: &AgentTurnDiagnosticMetadata)
        ensures
            *metadata == self.spec_metadata(),
    {
        match self {
            AgentTurnObservation::Submitted { metadata } => metadata,
            AgentTurnObservation::SupervisorHandoff { metadata } => metadata,
            AgentTurnObservation::Terminal { metadata, .. } => metadata,
        }
    }
}

/// The acts that are under way, in the order in which they began.
pub struct ActRegistry {
    pub producers: Vec<ActLifecycleProducer>,
    pub next_act_id: IdCounter,
    pub bridge: Option<UsageFinalizationBridge>,
}

impl View for ActRegistry {
    type V = Seq<ActLifecycleProducer>;

    open spec fn view(&self) -> Seq<ActLifecycleProducer> {
        self.producers@
    }
}

impl ActRegistry {
    /// No two acts have the same control or the same identifier.
    pub open spec fn distinct(producers: Seq<ActLifecycleProducer>) -> bool {
        forall|i: int, j: int|
            0 <= i < j < producers.len() ==> {
                &&& (#[trigger] producers[i]).control_key != (#[trigger] producers[j]).control_key
                &&& producers[i].act_id@ != producers[j].act_id@
            }
    }

    pub open spec fn wf(self) -> bool {
        &&& ActRegistry::distinct(self@)
        &&& forall|i: int| 0 <= i < self@.len() ==> (#[trigger] self@[i]).wf()
    }

    /// Every act reports through a run that is open.
    pub open spec fn fits<A: SpanEventAdmission>(self, runs: DiagnosticRuns<A>) -> bool {
        forall|i: int| 0 <= i < self@.len() ==> (#[trigger] self@[i]).run < runs@.len()
    }

    pub open spec fn has_control(self, place: int, control_key: usize) -> bool {
        0 <= place < self@.len() && self@[place].control_key == control_key
    }

    pub open spec fn has_act(self, place: int, act_id: Seq<char>) -> bool {
        0 <= place < self@.len() && self@[place].act_id@ == act_id
    }

    pub fn new() -> (registry: Self)
        ensures
            registry@ == Seq::<ActLifecycleProducer>::empty(),
            registry.next_act_id.next == 1,
            registry.bridge is None,
            registry.wf(),
    {
        ActRegistry { producers: Vec::new(), next_act_id: IdCounter::new(), bridge: None }
    }

    /// The place of the act with a control.
    pub fn producer_for_control(&self, control_key: usize) -> (place: Option<usize>)
        ensures
            match place {
                Some(place) => self.has_control(place as int, control_key),
                None => forall|i: int| !#[trigger] self.has_control(i, control_key),
            },
    {
        let mut i: usize = 0;
        while i < self.producers.len()
            invariant
                i <= self@.len(),
                forall|j: int| 0 <= j < i ==> !#[trigger] self.has_control(j, control_key),
            decreases self@.len() - i,
        {
            if self.producers[i].control_key == control_key {
                return Some(i);
            }
            i = i + 1;
        }
        None
    }

    /// The place of the act with an identifier.
    pub fn producer_for_act(&self, act_id: &str) -> (place: Option<usize>)
        ensures
            match place {
                Some(place) => self.has_act(place as int, act_id@),
                None => forall|i: int| !#[trigger] self.has_act(i, act_id@),
            },
    {
        let mut i: usize = 0;
        while i < self.producers.len()
            invariant
                i <= self@.len(),
                forall|j: int| 0 <= j < i ==> !#[trigger] self.has_act(j, act_id@),
            decreases self@.len() - i,
        {
            if same_text(self.producers[i].act_id.as_str(), act_id) {
                return Some(i);
            }
            i = i + 1;
        }
        None
    }

    /// Where an act is admitted to. In a production that is the cue that the act belongs to, in
    /// the production's own run. Outside of one it is what the caller brings along.
    pub open spec fn spec_source(
        runtime_run: Option<usize>,
        lineage: Option<CueLineageSnapshot>,
        control: AgentTurnControl,
        standalone: Option<StandaloneActAdmission>,
    ) -> ActAdmissionSource {
        match runtime_run {
            Some(owner) => if standalone is Some {
                ActAdmissionSource::Problem {
                    owner,
                    code: "act.standalone-admission-with-production",
                }
            } else {
                match (lineage, control.session) {
                    (None, _) => ActAdmissionSource::Problem {
                        owner,
                        code: "act.cue-lineage-unavailable",
                    },
                    (Some(lineage), session) => if lineage.run != owner {
                        ActAdmissionSource::Problem { owner, code: "act.runtime-lineage-mismatch" }
                    } else {
                        match session {
                            None => ActAdmissionSource::Problem {
                                owner,
                                code: "act.session-metadata-unavailable",
                            },
                            Some(session) => ActAdmissionSource::Known {
                                run: owner,
                                cue_scope: lineage.cue_scope,
                                session,
                            },
                        }
                    },
                }
            },
            None => match standalone {
                Some(standalone) => ActAdmissionSource::Known {
                    run: standalone.run,
                    cue_scope: standalone.cue_scope,
                    session: standalone.session,
                },
                None => ActAdmissionSource::Absent,
            },
        }
    }

    fn source(
        runtime_run: Option<usize>,
        lineage: Option<CueLineageSnapshot>,
        control: &AgentTurnControl,
        standalone: Option<StandaloneActAdmission>,
    ) -> (source: ActAdmissionSource)
        ensures
            source == ActRegistry::spec_source(runtime_run, lineage, *control, standalone),
    {
        match runtime_run {
            Some(owner) => {
                if standalone.is_some() {
                    return ActAdmissionSource::Problem {
                        owner,
                        code: "act.standalone-admission-with-production",
                    };
                }
                let lineage = match lineage {
                    Some(lineage) => lineage,
                    None => return ActAdmissionSource::Problem {
                        owner,
                        code: "act.cue-lineage-unavailable",
                    },
                };
                if lineage.run != owner {
                    return ActAdmissionSource::Problem {
                        owner,
                        code: "act.runtime-lineage-mismatch",
                    };
                }
                match &control.session {
                    Some(session) => ActAdmissionSource::Known {
                        run: owner,
                        cue_scope: lineage.cue_scope,
                        session: session.clone(),
                    },
                    None => ActAdmissionSource::Problem {
                        owner,
                        code: "act.session-metadata-unavailable",
                    },
                }
            },
            None => match standalone {
                Some(standalone) => ActAdmissionSource::Known {
                    run: standalone.run,
                    cue_scope: standalone.cue_scope,
                    session: standalone.session,
                },
                None => ActAdmissionSource::Absent,
            },
        }
    }

    /// What is wrong with an act in a cue and a session.
    pub open spec fn admission_problem(
        self,
        cue_scope: DiagnosticScope,
        session: AgentSessionDiagnosticMetadata,
    ) -> Option<&'static str> {
        match cue_scope.actor_id {
            None => Some("act.actor-identifier-unavailable"),
            Some(actor_id) => if actor_id@ != session.context.actor_id@ {
                Some("act.session-actor-identity-mismatch")
            } else if self.next_act_id.next == u64::MAX {
                Some("act.identifier-exhausted")
            } else if cue_scope.scene_id is None {
                Some("act.scene-identifier-unavailable")
            } else if cue_scope.cue_id is None {
                Some("act.cue-identifier-unavailable")
            } else {
                None
            },
        }
    }

    /// The next number after an act was to be prepared: it is taken once the actor is known to be
    /// the session's, unless there is none left.
    pub open spec fn number_after(
        self,
        cue_scope: DiagnosticScope,
        session: AgentSessionDiagnosticMetadata,
    ) -> int {
        match cue_scope.actor_id {
            Some(actor_id) if actor_id@ == session.context.actor_id@ && self.next_act_id.next
                < u64::MAX => self.next_act_id.next + 1,
            _ => self.next_act_id.next as int,
        }
    }

    /// An act with the next number, of which nothing was reported yet.
    pub open spec fn is_prepared(
        self,
        producer: ActLifecycleProducer,
        run: usize,
        control_key: usize,
        cue_scope: DiagnosticScope,
        session: AgentSessionDiagnosticMetadata,
    ) -> bool {
        let number = self.next_act_id.next;
        &&& producer.wf()
        &&& producer.run == run
        &&& producer.control_key == control_key
        &&& producer.act_id@ == crate::identifier::numbered("act-"@, number)
        &&& producer.identity.context == session.context
        &&& producer.identity.act_id == producer.act_id.text
        &&& producer.identity.turn_id@ == crate::identifier::numbered("turn-"@, number)
        &&& producer.session == session
        &&& producer.act_scope == (DiagnosticScope {
            scene_id: cue_scope.scene_id,
            actor_id: cue_scope.actor_id,
            cue_id: cue_scope.cue_id,
            effect_id: None,
            act_id: Some(producer.act_id),
            tool_call_id: None,
            session_generation: session.generation,
        })
        &&& producer.usage == (UsageFinalizationIdentity {
            serial: number,
            act_id: producer.act_id.text,
            prompt_submitted: false,
            settlement: None,
        })
        &&& producer.state == ActLifecycleState::fresh(
            UsageFinalizationSlot { serial: number, act_id: producer.act_id.text },
        )
    }

    pub open spec fn on_prepare<A: SpanEventAdmission>(
        self,
        after: Self,
        runs: DiagnosticRuns<A>,
        runs_after: DiagnosticRuns<A>,
        source: ActAdmissionSource,
        control_key: usize,
        result: Result<Option<PreparedActAdmission>, ActAdmissionPrepareError>,
    ) -> bool {
        &&& after@ == self@
        &&& after.bridge == self.bridge
        &&& match source {
            ActAdmissionSource::Absent => {
                &&& result matches Ok(None)
                &&& after.next_act_id == self.next_act_id
                &&& runs_after == runs
            },
            ActAdmissionSource::Problem { owner, code } => {
                &&& result matches Err(error)
                &&& error.code == code
                &&& after.next_act_id == self.next_act_id
                &&& runs_after@ =~= runs@.update(
                    owner as int,
                    runs@[owner as int].with_state_failure(code),
                )
            },
            ActAdmissionSource::Known { run, cue_scope, session } => {
                match self.admission_problem(cue_scope, session) {
                    Some(code) => {
                        &&& result matches Err(error)
                        &&& error.code == code
                        &&& after.next_act_id.next == self.number_after(cue_scope, session)
                        &&& runs_after@ =~= runs@.update(
                            run as int,
                            runs@[run as int].with_state_failure(code),
                        )
                    },
                    None => {
                        &&& result matches Ok(Some(prepared))
                        &&& self.is_prepared(
                            prepared.producer,
                            run,
                            control_key,
                            cue_scope,
                            session,
                        )
                        &&& after.next_act_id.next == self.number_after(cue_scope, session)
                        &&& runs_after == runs
                    },
                }
            },
        }
    }

    /// Prepares the admission of an act. `runtime_run` is the run of the production, where the act
    /// belongs to one with diagnostics, and `lineage` is that of the act's cue.
    pub fn prepare_admission<A: SpanEventAdmission>(
        &mut self,
        runs: &mut DiagnosticRuns<A>,
        runtime_run: Option<usize>,
        lineage: Option<CueLineageSnapshot>,
        control: &AgentTurnControl,
        standalone: Option<StandaloneActAdmission>,
    ) -> (result: Result<Option<PreparedActAdmission>, ActAdmissionPrepareError>)
        requires
            old(self).wf(),
            old(self).fits(*old(runs)),
            runtime_run matches Some(run) ==> run < old(runs)@.len(),
            standalone matches Some(standalone) ==> standalone.run < old(runs)@.len(),
        ensures
            final(self).wf(),
            final(self).fits(*final(runs)),
            final(runs)@.len() == old(runs)@.len(),
            old(self).on_prepare(
                *final(self),
                *old(runs),
                *final(runs),
                ActRegistry::spec_source(runtime_run, lineage, *control, standalone),
                control.key,
                result,
            ),
    {
        let (run, cue_scope, session) = match ActRegistry::source(
            runtime_run,
            lineage,
            control,
            standalone,
        ) {
            ActAdmissionSource::Absent => return Ok(None),
            ActAdmissionSource::Problem { owner, code } => {
                return Self::prepare_error(runs, owner, code);
            },
            ActAdmissionSource::Known { run, cue_scope, session } => (run, cue_scope, session),
        };
        let actor_matches = match &cue_scope.actor_id {
            Some(actor_id) => actor_id.text == session.context.actor_id,
            None => return Self::prepare_error(runs, run, "act.actor-identifier-unavailable"),
        };
        if !actor_matches {
            return Self::prepare_error(runs, run, "act.session-actor-identity-mismatch");
        }
        let value = match self.next_act_id.take() {
            Some(value) => value,
            None => return Self::prepare_error(runs, run, "act.identifier-exhausted"),
        };
        let act_id = numbered_id("act-", value);
        let turn_id = numbered_text("turn-", value);
        let act_scope = match scope_for_act(&cue_scope, act_id.clone(), session.generation) {
            Ok(scope) => scope,
            Err(code) => return Self::prepare_error(runs, run, code),
        };
        let identity = AgentTurnDiagnosticIdentity {
            context: session.context.clone(),
            act_id: act_id.text.clone(),
            turn_id,
        };
        let (usage, usage_slot) = UsageFinalizationIdentity::new(value, act_id.text.clone());
        Ok(
            Some(
                PreparedActAdmission {
                    producer: ActLifecycleProducer {
                        run,
                        control_key: control.key,
                        act_id,
                        identity,
                        session,
                        act_scope,
                        usage,
                        state: ActLifecycleState::new(usage_slot),
                    },
                },
            ),
        )
    }

    fn prepare_error<A: SpanEventAdmission>(
        runs: &mut DiagnosticRuns<A>,
        owner: usize,
        code: &'static str,
    ) -> (result: Result<Option<PreparedActAdmission>, ActAdmissionPrepareError>)
        requires
            owner < old(runs)@.len(),
        ensures
            result == Err::<Option<PreparedActAdmission>, ActAdmissionPrepareError>(
                ActAdmissionPrepareError { code },
            ),
            final(runs)@ == old(runs)@.update(
                owner as int,
                old(runs)@[owner as int].with_state_failure(code),
            ),
    {
        runs.runs[owner].latch_state_failure(code);
        Err(ActAdmissionPrepareError { code })
    }

    /// The act is under way already.
    pub open spec fn is_known(self, producer: ActLifecycleProducer) -> bool {
        ||| exists|i: int| #[trigger] self.has_control(i, producer.control_key)
        ||| exists|i: int| #[trigger] self.has_act(i, producer.act_id@)
    }

    /// The act after it has given its slot to the bridge, where there is one.
    pub open spec fn offers_slot(
        self,
        after: Self,
        started: ActLifecycleProducer,
        offered: ActLifecycleProducer,
    ) -> bool {
        match (self.bridge, after.bridge) {
            (None, None) => offered == started,
            (Some(bridge), Some(bridge_after)) => {
                let slot = started.state.usage_slot;
                if started.state.producer_failed || started.state.act_span_id is None
                    || started.state.finish_attempted || slot is None {
                    offered == started && bridge_after == bridge
                } else {
                    &&& offered == (ActLifecycleProducer {
                        state: ActLifecycleState { usage_slot: None, ..started.state },
                        ..started
                    })
                    &&& bridge_after.slots@ == bridge.slots@.push(slot->0)
                    &&& bridge_after.settled_acts@ == bridge.settled_acts@
                }
            },
            _ => false,
        }
    }

    pub open spec fn on_commit<A: SpanEventAdmission>(
        self,
        after: Self,
        runs: DiagnosticRuns<A>,
        runs_after: DiagnosticRuns<A>,
        producer: ActLifecycleProducer,
    ) -> bool {
        let run = producer.run as int;
        &&& after.next_act_id == self.next_act_id
        &&& if self.is_known(producer) {
            &&& after@ == self@
            &&& after.bridge == self.bridge
            &&& runs_after@ =~= runs@.update(
                run,
                runs@[run].with_state_failure("act.lifecycle-install-raced"),
            )
        } else {
            &&& runs_after.only_changes(runs, run)
            &&& runs_after@[run].follows(runs@[run], producer.start_plan())
            &&& exists|started: ActLifecycleProducer|
                {
                    &&& #[trigger] producer.is_started(started, runs@[run], runs_after@[run])
                    &&& after@.len() == self@.len() + 1
                    &&& after@ =~= self@.push(after@.last())
                    &&& self.offers_slot(after, started, after@.last())
                }
        }
    }

    /// Admits a prepared act: it begins to be reported, and its slot goes to the bridge.
    pub fn commit<A: SpanEventAdmission>(
        &mut self,
        runs: &mut DiagnosticRuns<A>,
        prepared: PreparedActAdmission,
    )
        requires
            old(self).wf(),
            old(self).fits(*old(runs)),
            prepared.producer.wf(),
            prepared.producer.run < old(runs)@.len(),
            prepared.producer.state.act_span_id is None,
            !prepared.producer.state.producer_failed,
        ensures
            final(self).wf(),
            final(self).fits(*final(runs)),
            final(runs)@.len() == old(runs)@.len(),
            old(self).on_commit(*final(self), *old(runs), *final(runs), prepared.producer),
    {
        let mut producer = prepared.producer;
        let ghost before = producer;
        let run: usize = producer.run;
        let known = self.producer_for_control(producer.control_key).is_some()
            || self.producer_for_act(producer.act_id.as_str()).is_some();
        if known {
            runs.runs[run].latch_state_failure("act.lifecycle-install-raced");
            return;
        }
        assert(!self.is_known(before));
        producer.start(&mut runs.runs[run]);
        let ghost started = producer;
        assert(before.is_started(started, old(runs)@[run as int], runs@[run as int]));
        if let Some(bridge) = &mut self.bridge {
            if let Some(slot) = producer.take_usage_slot() {
                bridge.register_slot(slot);
            }
        }
        let ghost offered = producer;
        self.producers.push(producer);
        proof {
            assert forall|i: int, j: int| 0 <= i < j < self@.len() implies {
                &&& (#[trigger] self@[i]).control_key != (#[trigger] self@[j]).control_key
                &&& self@[i].act_id@ != self@[j].act_id@
            } by {
                if j == old(self)@.len() {
                    assert(!old(self).has_control(i, before.control_key));
                    assert(!old(self).has_act(i, before.act_id@));
                }
            }
        }
        assert(self@.last() == offered);
        assert(old(self).offers_slot(*self, started, offered));
    }
}

impl ActRegistry {
    /// What came of an act that is only reported: where it can be prepared, it is admitted.
    pub open spec fn on_admitted<A: SpanEventAdmission>(
        self,
        after: Self,
        runs: DiagnosticRuns<A>,
        runs_after: DiagnosticRuns<A>,
        source: ActAdmissionSource,
        control_key: usize,
    ) -> bool {
        exists|prepared: Self, runs_prepared: DiagnosticRuns<A>, result|
            {
                &&& #[trigger] self.on_prepare(
                    prepared,
                    runs,
                    runs_prepared,
                    source,
                    control_key,
                    result,
                )
                &&& match result {
                    Ok(Some(act)) => prepared.on_commit(
                        after,
                        runs_prepared,
                        runs_after,
                        act.producer,
                    ),
                    _ => after == prepared && runs_after == runs_prepared,
                }
            }
    }

    /// Admits an act that is only reported. One that cannot be prepared goes unreported.
    pub fn admitted<A: SpanEventAdmission>(
        &mut self,
        runs: &mut DiagnosticRuns<A>,
        runtime_run: Option<usize>,
        lineage: Option<CueLineageSnapshot>,
        control: &AgentTurnControl,
    )
        requires
            old(self).wf(),
            old(self).fits(*old(runs)),
            runtime_run matches Some(run) ==> run < old(runs)@.len(),
        ensures
            final(self).wf(),
            final(self).fits(*final(runs)),
            final(runs)@.len() == old(runs)@.len(),
            old(self).on_admitted(
                *final(self),
                *old(runs),
                *final(runs),
                ActRegistry::spec_source(runtime_run, lineage, *control, None),
                control.key,
            ),
    {
        let ghost source = ActRegistry::spec_source(runtime_run, lineage, *control, None);
        let result = self.prepare_admission(runs, runtime_run, lineage, control, None);
        let ghost prepared = *self;
        let ghost runs_prepared = *runs;
        assert(old(self).on_prepare(
            prepared,
            *old(runs),
            runs_prepared,
            source,
            control.key,
            result,
        ));
        if let Ok(Some(act)) = result {
            self.commit(runs, act);
        }
    }

    /// Only the act at `place` and its run may have changed.
    pub open spec fn stepped<A: SpanEventAdmission>(
        self,
        after: Self,
        runs: DiagnosticRuns<A>,
        runs_after: DiagnosticRuns<A>,
        place: int,
    ) -> bool {
        &&& after.next_act_id == self.next_act_id
        &&& after.bridge == self.bridge
        &&& runs_after.only_changes(runs, self@[place].run as int)
        &&& after@ =~= self@.update(place, after@[place])
    }

    pub open spec fn on_hook<A: SpanEventAdmission>(
        self,
        after: Self,
        runs: DiagnosticRuns<A>,
        runs_after: DiagnosticRuns<A>,
        place: int,
        hook: ActHook,
    ) -> bool {
        let run = runs@[self@[place].run as int];
        let run_after = runs_after@[self@[place].run as int];
        &&& self.stepped(after, runs, runs_after, place)
        &&& match hook {
            ActHook::Admitted => self@[place].fails(
                after@[place],
                run,
                run_after,
                "act.admission-hook-duplicated",
            ),
            ActHook::DriverStarted => self@[place].on_driver_started(after@[place], run, run_after),
            ActHook::CancelRequested => {
                self@[place].on_cancel_requested(after@[place], run, run_after)
            },
        }
    }

    /// Takes a hook of an act. An act that is not under way takes none.
    pub fn observe<A: SpanEventAdmission>(
        &mut self,
        runs: &mut DiagnosticRuns<A>,
        control_key: usize,
        hook: ActHook,
    )
        requires
            old(self).wf(),
            old(self).fits(*old(runs)),
        ensures
            final(self).wf(),
            final(self).fits(*final(runs)),
            final(runs)@.len() == old(runs)@.len(),
            ({
                ||| exists|place: int| #[trigger]
                    old(self).has_control(place, control_key) && old(self).on_hook(
                        *final(self),
                        *old(runs),
                        *final(runs),
                        place,
                        hook,
                    )
                ||| {
                    &&& forall|place: int| !#[trigger] old(self).has_control(place, control_key)
                    &&& *final(self) == *old(self)
                    &&& *final(runs) == *old(runs)
                }
            }),
    {
        let place = match self.producer_for_control(control_key) {
            Some(place) => place,
            None => return,
        };
        let run: usize = self.producers[place].run;
        match hook {
            ActHook::Admitted => {
                self.producers[place].fail_state(
                    &mut runs.runs[run],
                    "act.admission-hook-duplicated",
                );
            },
            ActHook::DriverStarted => self.producers[place].driver_started(&mut runs.runs[run]),
            ActHook::CancelRequested => self.producers[place].cancel_requested(&mut runs.runs[run]),
        }
        assert(old(self).has_control(place as int, control_key));
        assert(old(self).on_hook(*self, *old(runs), *runs, place as int, hook));
    }

    /// What the bridge hears once an act has moved, where there is one.
    pub open spec fn gives_notice(
        self,
        after: Self,
        moved: ActLifecycleProducer,
        noticed: ActLifecycleProducer,
    ) -> bool {
        match (self.bridge, after.bridge) {
            (None, None) => noticed == moved,
            (Some(bridge), Some(bridge_after)) => if moved.owes_settlement_notice() {
                &&& noticed == (ActLifecycleProducer {
                    state: ActLifecycleState { settlement_notified: true, ..moved.state },
                    ..moved
                })
                &&& bridge_after.slots@ == bridge.slots@
                &&& bridge_after.settled_acts@ == bridge.settled_acts@.push(moved.act_id.text)
            } else {
                noticed == moved && bridge_after == bridge
            },
            _ => false,
        }
    }

    /// What is left of an act that has moved: nothing once it is finished.
    pub open spec fn kept(
        self,
        after: Self,
        place: int,
        noticed: ActLifecycleProducer,
        finished: bool,
    ) -> bool {
        &&& after.next_act_id == self.next_act_id
        &&& after@ =~= if finished {
            self@.remove(place)
        } else {
            self@.update(place, noticed)
        }
    }

    /// The act at `place` has moved: the bridge hears of a settlement, and a finished act is
    /// forgotten.
    pub open spec fn moved(
        self,
        after: Self,
        place: int,
        moved: ActLifecycleProducer,
        finished: bool,
    ) -> bool {
        exists|noticed: ActLifecycleProducer| #[trigger]
            self.gives_notice(after, moved, noticed) && self.kept(after, place, noticed, finished)
    }

    fn after_move(&mut self, place: usize, finished: bool)
        requires
            old(self).wf(),
            place < old(self)@.len(),
        ensures
            final(self).wf(),
            old(self).moved(*final(self), place as int, old(self)@[place as int], finished),
            final(self)@.len() <= old(self)@.len(),
            forall|i: int|
                0 <= i < final(self)@.len() ==> exists|j: int|
                    0 <= j < old(self)@.len() && (#[trigger] final(self)@[i]).run == (
                    #[trigger] old(self)@[j]).run,
    {
        if let Some(bridge) = &mut self.bridge {
            if self.producers[place].take_settlement_notification() {
                bridge.settlement_ready(self.producers[place].act_id.text.clone());
            }
        }
        let ghost noticed = self@[place as int];
        if finished {
            self.producers.remove(place);
        }
        assert(old(self).gives_notice(*self, old(self)@[place as int], noticed));
        assert(old(self).kept(*self, place as int, noticed, finished));
        assert forall|i: int| 0 <= i < self@.len() implies exists|j: int|
            0 <= j < old(self)@.len() && (#[trigger] self@[i]).run == (#[trigger] old(
                self,
            )@[j]).run by {
            let j = if finished && i >= place {
                i + 1
            } else {
                i
            };
            assert(self@[i].run == old(self)@[j].run);
        }
    }

    pub open spec fn on_caller_finished<A: SpanEventAdmission>(
        self,
        after: Self,
        runs: DiagnosticRuns<A>,
        runs_after: DiagnosticRuns<A>,
        place: int,
        exit: ActCallerExit,
        error: Option<ErrorClass>,
    ) -> bool {
        let run = self@[place].run as int;
        &&& runs_after.only_changes(runs, run)
        &&& exists|moved: ActLifecycleProducer, finished: bool|
            {
                &&& #[trigger] self@[place].on_caller_finished(
                    moved,
                    runs@[run],
                    runs_after@[run],
                    crate::act_producer::spec_caller_terminal(exit, error),
                    finished,
                )
                &&& self.moved(after, place, moved, finished)
            }
    }

    /// Nothing happens to an act that is not under way.
    pub open spec fn untouched<A: SpanEventAdmission>(
        self,
        after: Self,
        runs: DiagnosticRuns<A>,
        runs_after: DiagnosticRuns<A>,
    ) -> bool {
        after == self && runs_after == runs
    }

    /// The caller of an act has left it, with what is known of the error.
    pub fn caller_left<A: SpanEventAdmission>(
        &mut self,
        runs: &mut DiagnosticRuns<A>,
        control_key: usize,
        exit: ActCallerExit,
        error: Option<ErrorClass>,
    )
        requires
            old(self).wf(),
            old(self).fits(*old(runs)),
        ensures
            final(self).wf(),
            final(self).fits(*final(runs)),
            final(runs)@.len() == old(runs)@.len(),
            ({
                ||| exists|place: int| #[trigger]
                    old(self).has_control(place, control_key) && old(self).on_caller_finished(
                        *final(self),
                        *old(runs),
                        *final(runs),
                        place,
                        exit,
                        error,
                    )
                ||| {
                    &&& forall|place: int| !#[trigger] old(self).has_control(place, control_key)
                    &&& old(self).untouched(*final(self), *old(runs), *final(runs))
                }
            }),
    {
        let place = match self.producer_for_control(control_key) {
            Some(place) => place,
            None => return,
        };
        let run: usize = self.producers[place].run;
        let finished = self.producers[place].caller_finished(&mut runs.runs[run], exit, error);
        let ghost moved = self@[place as int];
        let ghost between = *self;
        self.after_move(place, finished);
        assert(old(self)@[place as int].on_caller_finished(
            moved,
            old(runs)@[run as int],
            runs@[run as int],
            crate::act_producer::spec_caller_terminal(exit, error),
            finished,
        ));
        proof {
            old(self).moved_from(between, *self, place as int, moved, finished);
        }
        assert(old(self).has_control(place as int, control_key));
        assert(old(self).on_caller_finished(
            *self,
            *old(runs),
            *runs,
            place as int,
            exit,
            error,
        ));
    }

    /// To move an act and then to settle it is to move it from where it was.
    proof fn moved_from(
        self,
        between: Self,
        after: Self,
        place: int,
        moved: ActLifecycleProducer,
        finished: bool,
    )
        requires
            0 <= place < self@.len(),
            between@ =~= self@.update(place, moved),
            between.next_act_id == self.next_act_id,
            between.bridge == self.bridge,
            between.moved(after, place, moved, finished),
        ensures
            self.moved(after, place, moved, finished),
    {
        let noticed = choose|noticed: ActLifecycleProducer| #[trigger]
            between.gives_notice(after, moved, noticed) && between.kept(
                after,
                place,
                noticed,
                finished,
            );
        assert(self.gives_notice(after, moved, noticed));
        assert(self.kept(after, place, noticed, finished));
    }

    /// The caller of an act has left it, with the error that it raised.
    pub fn caller_finished<A: SpanEventAdmission>(
        &mut self,
        runs: &mut DiagnosticRuns<A>,
        control_key: usize,
        exit: ActCallerExit,
        error: Option<&pyo3::PyErr>,
    )
        requires
            old(self).wf(),
            old(self).fits(*old(runs)),
        ensures
            final(self).wf(),
            final(self).fits(*final(runs)),
            final(runs)@.len() == old(runs)@.len(),
            ({
                ||| exists|place: int, class: Option<ErrorClass>|
                    {
                        &&& #[trigger] old(self).has_control(place, control_key)
                        &&& ErrorClass::is_of_result(class, error)
                        &&& #[trigger] old(self).on_caller_finished(
                            *final(self),
                            *old(runs),
                            *final(runs),
                            place,
                            exit,
                            class,
                        )
                    }
                ||| {
                    &&& forall|place: int| !#[trigger] old(self).has_control(place, control_key)
                    &&& old(self).untouched(*final(self), *old(runs), *final(runs))
                }
            }),
    {
        self.caller_left(runs, control_key, exit, ErrorClass::of_result(error));
    }

    pub open spec fn on_agent<A: SpanEventAdmission>(
        self,
        after: Self,
        runs: DiagnosticRuns<A>,
        runs_after: DiagnosticRuns<A>,
        place: int,
        observation: AgentTurnObservation,
    ) -> bool {
        let run = self@[place].run as int;
        &&& runs_after.only_changes(runs, run)
        &&& exists|moved: ActLifecycleProducer, finished: bool|
            {
                &&& #[trigger] self.on_turn(
                    moved,
                    runs@[run],
                    runs_after@[run],
                    place,
                    observation,
                    finished,
                )
                &&& self.moved(after, place, moved, finished)
            }
    }

    /// What an observation of a turn does to the act at `place`.
    pub open spec fn on_turn<A: SpanEventAdmission>(
        self,
        moved: ActLifecycleProducer,
        run: crate::run::DiagnosticRun<A>,
        run_after: crate::run::DiagnosticRun<A>,
        place: int,
        observation: AgentTurnObservation,
        finished: bool,
    ) -> bool {
        match observation {
            AgentTurnObservation::Submitted { metadata } => {
                self@[place].on_prompt_submitted(moved, run, run_after, metadata) && !finished
            },
            AgentTurnObservation::SupervisorHandoff { metadata } => {
                self@[place].on_supervisor_handoff(moved, run, run_after, metadata) && !finished
            },
            AgentTurnObservation::Terminal { metadata, settlement, outcome, error_code } => {
                self@[place].on_turn_terminal(
                    moved,
                    run,
                    run_after,
                    metadata,
                    crate::act_producer::spec_usage_settlement(settlement),
                    outcome,
                    error_code,
                    finished,
                )
            },
        }
    }

    /// The act that a turn names, if any, has heard of it.
    pub open spec fn told<A: SpanEventAdmission>(
        self,
        after: Self,
        runs: DiagnosticRuns<A>,
        runs_after: DiagnosticRuns<A>,
        observation: AgentTurnObservation,
    ) -> bool {
        let act_id = observation.spec_metadata().identity.act_id@;
        ||| exists|place: int| #[trigger]
            self.has_act(place, act_id) && self.on_agent(
                after,
                runs,
                runs_after,
                place,
                observation,
            )
        ||| {
            &&& forall|place: int| !#[trigger] self.has_act(place, act_id)
            &&& self.untouched(after, runs, runs_after)
        }
    }

    /// Takes what the agent runtime tells of a turn. It goes to the act that the turn names.
    pub fn observe_agent<A: SpanEventAdmission>(
        &mut self,
        runs: &mut DiagnosticRuns<A>,
        observation: &AgentTurnObservation,
    )
        requires
            old(self).wf(),
            old(self).fits(*old(runs)),
        ensures
            final(self).wf(),
            final(self).fits(*final(runs)),
            final(runs)@.len() == old(runs)@.len(),
            old(self).told(*final(self), *old(runs), *final(runs), *observation),
    {
        let place = match self.producer_for_act(observation.metadata().identity.act_id.as_str()) {
            Some(place) => place,
            None => return,
        };
        let run: usize = self.producers[place].run;
        let finished = match observation {
            AgentTurnObservation::Submitted { metadata } => {
                self.producers[place].prompt_submitted(&mut runs.runs[run], metadata);
                false
            },
            AgentTurnObservation::SupervisorHandoff { metadata } => {
                self.producers[place].supervisor_handoff(&mut runs.runs[run], metadata);
                false
            },
            AgentTurnObservation::Terminal { metadata, settlement, outcome, error_code } => {
                self.producers[place].turn_terminal(
                    &mut runs.runs[run],
                    metadata,
                    *settlement,
                    *outcome,
                    *error_code,
                )
            },
        };
        let ghost moved = self@[place as int];
        let ghost between = *self;
        self.after_move(place, finished);
        assert(old(self).on_turn(
            moved,
            old(runs)@[run as int],
            runs@[run as int],
            place as int,
            *observation,
            finished,
        ));
        proof {
            old(self).moved_from(between, *self, place as int, moved, finished);
        }
        assert(old(self).has_act(
            place as int,
            observation.spec_metadata().identity.act_id@,
        ));
        assert(old(self).on_agent(*self, *old(runs), *runs, place as int, *observation));
    }

    /// The identity that the agent runtime knows an act by.
    pub fn diagnostic_identity(&self, control_key: usize) -> (identity: Option<
        AgentTurnDiagnosticIdentity,
    >)
        ensures
            match identity {
                Some(identity) => exists|place: int| #[trigger]
                    self.has_control(place, control_key) && identity == self@[place].identity,
                None => forall|place: int| !#[trigger] self.has_control(place, control_key),
            },
    {
        match self.producer_for_control(control_key) {
            Some(place) => {
                assert(self.has_control(place as int, control_key));
                Some(self.producers[place].identity.clone())
            },
            None => None,
        }
    }

    /// Where a fact of an act hangs, while the act is under way.
    pub fn lineage_snapshot(&self, act_id: &str) -> (snapshot: Option<ActLineageSnapshot>)
        requires
            self.wf(),
        ensures
            snapshot == self.spec_lineage(act_id@),
    {
        match self.producer_for_act(act_id) {
            Some(place) => {
                proof {
                    self.act_is_unique(act_id@, place as int);
                }
                self.producers[place].snapshot()
            },
            None => None,
        }
    }

    pub open spec fn spec_lineage(self, act_id: Seq<char>) -> Option<ActLineageSnapshot> {
        if exists|place: int| #[trigger] self.has_act(place, act_id) {
            let place = choose|place: int| #[trigger] self.has_act(place, act_id);
            self@[place].spec_snapshot()
        } else {
            None
        }
    }

    /// An identifier names one act at most.
    pub proof fn act_is_unique(self, act_id: Seq<char>, place: int)
        requires
            self.wf(),
            self.has_act(place, act_id),
        ensures
            forall|other: int| #[trigger] self.has_act(other, act_id) ==> other == place,
    {
        assert forall|other: int| #[trigger] self.has_act(other, act_id) implies other == place by {
            if other < place {
                assert(self@[other].act_id@ != self@[place].act_id@);
            }
            if place < other {
                assert(self@[place].act_id@ != self@[other].act_id@);
            }
        }
    }

    /// Fetches what acts have announced to the bridge, where there is one.
    pub fn fetch_announced(&mut self) -> (announced: (Vec<UsageFinalizationSlot>, Vec<String>))
        requires
            old(self).wf(),
        ensures
            final(self).wf(),
            final(self)@ == old(self)@,
            final(self).next_act_id == old(self).next_act_id,
            match (old(self).bridge, final(self).bridge) {
                (Some(bridge), Some(bridge_after)) => {
                    &&& announced.0@ == bridge.slots@
                    &&& announced.1@ == bridge.settled_acts@
                    &&& bridge_after.slots@ == Seq::<UsageFinalizationSlot>::empty()
                    &&& bridge_after.settled_acts@ == Seq::<String>::empty()
                },
                (None, None) => {
                    &&& announced.0@ == Seq::<UsageFinalizationSlot>::empty()
                    &&& announced.1@ == Seq::<String>::empty()
                },
                _ => false,
            },
    {
        match &mut self.bridge {
            Some(bridge) => bridge.fetch(),
            None => (Vec::new(), Vec::new()),
        }
    }

    /// Gives away the slot of an act, once, while the act is under way.
    pub fn take_usage_finalization_slot(&mut self, act_id: &str) -> (slot: Option<
        UsageFinalizationSlot,
    >)
        requires
            old(self).wf(),
        ensures
            final(self).wf(),
            final(self).next_act_id == old(self).next_act_id,
            final(self).bridge == old(self).bridge,
            slot matches Some(slot) ==> slot.act_id@ == act_id@,
            ({
                ||| exists|place: int|
                    {
                        &&& #[trigger] old(self).has_act(place, act_id@)
                        &&& final(self)@ =~= old(self)@.update(place, final(self)@[place])
                        &&& old(self)@[place].gives_slot(final(self)@[place], slot)
                    }
                ||| {
                    &&& forall|place: int| !#[trigger] old(self).has_act(place, act_id@)
                    &&& *final(self) == *old(self)
                    &&& slot is None
                }
            }),
    {
        match self.producer_for_act(act_id) {
            Some(place) => {
                let slot = self.producers[place].take_usage_slot();
                assert(old(self).has_act(place as int, act_id@));
                slot
            },
            None => None,
        }
    }

    pub open spec fn on_usage_finalized<A: SpanEventAdmission>(
        self,
        after: Self,
        runs: DiagnosticRuns<A>,
        runs_after: DiagnosticRuns<A>,
        place: int,
        ack: UsageFinalizationAck,
    ) -> bool {
        let run = self@[place].run as int;
        &&& runs_after.only_changes(runs, run)
        &&& after.bridge == self.bridge
        &&& exists|moved: ActLifecycleProducer, finished: bool|
            {
                &&& #[trigger] self@[place].on_usage_finalized(
                    moved,
                    runs@[run],
                    runs_after@[run],
                    ack,
                    finished,
                )
                &&& self.kept(after, place, moved, finished)
            }
    }

    /// The usage of an act is final.
    pub fn usage_finalized<A: SpanEventAdmission>(
        &mut self,
        runs: &mut DiagnosticRuns<A>,
        ack: UsageFinalizationAck,
    )
        requires
            old(self).wf(),
            old(self).fits(*old(runs)),
        ensures
            final(self).wf(),
            final(self).fits(*final(runs)),
            final(runs)@.len() == old(runs)@.len(),
            ({
                ||| exists|place: int| #[trigger]
                    old(self).has_act(place, ack.act_id@) && old(self).on_usage_finalized(
                        *final(self),
                        *old(runs),
                        *final(runs),
                        place,
                        ack,
                    )
                ||| {
                    &&& forall|place: int| !#[trigger] old(self).has_act(place, ack.act_id@)
                    &&& old(self).untouched(*final(self), *old(runs), *final(runs))
                }
            }),
    {
        let place = match self.producer_for_act(ack.act_id.as_str()) {
            Some(place) => place,
            None => return,
        };
        let run: usize = self.producers[place].run;
        let finished = self.producers[place].usage_finalized(&mut runs.runs[run], ack);
        let ghost moved = self@[place as int];
        if finished {
            self.producers.remove(place);
        }
        assert(old(self)@[place as int].on_usage_finalized(
            moved,
            old(runs)@[run as int],
            runs@[run as int],
            ack,
            finished,
        ));
        assert(old(self).kept(*self, place as int, moved, finished));
        assert(old(self).has_act(place as int, ack.act_id@));
        assert(old(self).on_usage_finalized(*self, *old(runs), *runs, place as int, ack));
    }

    /// The usage of an act, for the holder of its slot.
    pub fn usage_of(&self, act_id: &str) -> (usage: Option<&UsageFinalizationIdentity>)
        ensures
            match usage {
                Some(usage) => exists|place: int| #[trigger]
                    self.has_act(place, act_id@) && *usage == self@[place].usage,
                None => forall|place: int| !#[trigger] self.has_act(place, act_id@),
            },
    {
        match self.producer_for_act(act_id) {
            Some(place) => {
                assert(self.has_act(place as int, act_id@));
                Some(&self.producers[place].usage)
            },
            None => None,
        }
    }
}

/// An act gives its own slot away, and only once: whoever asks the same act again gets none.
pub proof fn slot_is_given_once(
    act: ActLifecycleProducer,
    after: ActLifecycleProducer,
    slot: Option<UsageFinalizationSlot>,
    again: ActLifecycleProducer,
    other: Option<UsageFinalizationSlot>,
)
    requires
        act.wf(),
        act.gives_slot(after, slot),
        after.gives_slot(again, other),
    ensures
        slot matches Some(slot) ==> slot.act_id@ == act.act_id@ && slot.serial == act.usage.serial,
        slot is Some ==> other is None,
        after.keeps_own_slot(),
{
}

/// Two acts that were prepared one after the other have different identifiers, and so have their
/// slots.
pub proof fn prepared_acts_are_apart(
    acts: ActRegistry,
    later: ActRegistry,
    first: ActLifecycleProducer,
    second: ActLifecycleProducer,
    first_run: usize,
    first_control: usize,
    first_scope: DiagnosticScope,
    first_session: AgentSessionDiagnosticMetadata,
    second_run: usize,
    second_control: usize,
    second_scope: DiagnosticScope,
    second_session: AgentSessionDiagnosticMetadata,
)
    requires
        acts.is_prepared(first, first_run, first_control, first_scope, first_session),
        acts.next_act_id.next < later.next_act_id.next,
        later.is_prepared(second, second_run, second_control, second_scope, second_session),
    ensures
        first.act_id@ != second.act_id@,
        first.usage.serial != second.usage.serial,
{
    crate::identifier::numbered_ids_are_distinct(
        "act-"@,
        acts.next_act_id.next,
        later.next_act_id.next,
    );
}

/// The caller of an act leaves it in the act's own run as it did: completed exactly where a
/// coroutine returned its value, cancelled exactly where it was cancelled, closed or cleared, or
/// returned with a cancellation, and failed otherwise. No other act changes.
pub proof fn callers_leave_as_they_did<A: SpanEventAdmission>(
    acts: ActRegistry,
    after: ActRegistry,
    runs: DiagnosticRuns<A>,
    runs_after: DiagnosticRuns<A>,
    place: int,
    exit: ActCallerExit,
    error: Option<ErrorClass>,
)
    requires
        acts.wf(),
        0 <= place < acts@.len(),
        acts.on_caller_finished(after, runs, runs_after, place, exit, error),
        !acts@[place].state.producer_failed,
        acts@[place].state.caller_span_id is Some,
        acts@[place].state.caller_terminal is None,
    ensures
        ({
            let run = acts@[place].run as int;
            let facts = runs_after@[run].steps_since(runs@[run]);
            let returned = exit is Returned && error is Some;
            let completed = returned && error->0.stop_iteration;
            let cancelled = exit is Cancelled || exit is Closed || exit is Cleared || (returned
                && !error->0.stop_iteration && error->0.cancelled);
            &&& facts.len() >= 1
            &&& facts[0].candidate.scope == acts@[place].act_scope
            &&& facts[0].candidate.body matches crate::event::EventBody::SpanFinished {
                span_id,
                outcome,
                error_code,
            } && {
                &&& Some(span_id) == acts@[place].state.caller_span_id
                &&& outcome is Completed <==> completed
                &&& outcome is Cancelled <==> cancelled
                &&& outcome is Failed <==> !completed && !cancelled
                &&& error_code is None <==> completed
            }
            &&& after@ =~= acts@.remove(place) || after@ =~= acts@.update(place, after@[place])
        }),
{
    let run = acts@[place].run as int;
    let (moved, finished) = choose|moved: ActLifecycleProducer, finished: bool|
        {
            &&& #[trigger] acts@[place].on_caller_finished(
                moved,
                runs@[run],
                runs_after@[run],
                crate::act_producer::spec_caller_terminal(exit, error),
                finished,
            )
            &&& acts.moved(after, place, moved, finished)
        };
    crate::act_producer::caller_leaves_as_it_did(
        acts@[place],
        moved,
        runs@[run],
        runs_after@[run],
        exit,
        error,
        finished,
    );
}

/// What an agent says of a turn reaches the act that it names, in that act's own run, and nothing
/// else: a prompt as a prompt, a hand-over as a hand-over, and an end with its settlement, its
/// outcome and its code as they are.
pub proof fn agents_reach_the_act_they_name<A: SpanEventAdmission>(
    acts: ActRegistry,
    after: ActRegistry,
    runs: DiagnosticRuns<A>,
    runs_after: DiagnosticRuns<A>,
    observation: AgentTurnObservation,
    metadata: AgentTurnDiagnosticMetadata,
)
    requires
        acts.wf(),
        acts.told(after, runs, runs_after, observation),
        match observation {
            AgentTurnObservation::Submitted { metadata: said } => said == metadata,
            AgentTurnObservation::SupervisorHandoff { metadata: said } => said == metadata,
            AgentTurnObservation::Terminal { metadata: said, .. } => said == metadata,
        },
    ensures
        (forall|place: int|
            0 <= place < acts@.len() ==> (#[trigger] acts@[place]).act_id@
                != metadata.identity.act_id@) ==> after == acts && runs_after == runs,
        forall|place: int|
            0 <= place < acts@.len() && (#[trigger] acts@[place]).act_id@
                == metadata.identity.act_id@ ==> {
                let run = acts@[place].run as int;
                &&& forall|other: int|
                    0 <= other < runs@.len() && other != run ==> #[trigger] runs_after@[other]
                        == runs@[other]
                &&& after@ =~= acts@.remove(place) || after@ =~= acts@.update(place, after@[place])
                &&& observation is Submitted ==> exists|moved: ActLifecycleProducer|
                    #[trigger] acts@[place].on_prompt_submitted(
                        moved,
                        runs@[run],
                        runs_after@[run],
                        metadata,
                    )
                &&& observation is SupervisorHandoff ==> exists|moved: ActLifecycleProducer|
                    #[trigger] acts@[place].on_supervisor_handoff(
                        moved,
                        runs@[run],
                        runs_after@[run],
                        metadata,
                    )
                &&& observation matches AgentTurnObservation::Terminal {
                    settlement,
                    outcome,
                    error_code,
                    ..
                } ==> exists|
                    moved: ActLifecycleProducer,
                    settled: crate::usage_finalization::UsageFinalizationSettlement,
                    finished: bool,
                |
                    {
                        &&& #[trigger] acts@[place].on_turn_terminal(
                            moved,
                            runs@[run],
                            runs_after@[run],
                            metadata,
                            settled,
                            outcome,
                            error_code,
                            finished,
                        )
                        &&& settled is NotSubmitted <==> settlement is NotSubmitted
                        &&& settled is Authoritative <==> settlement is Authoritative
                        &&& settled is Unknown <==> settlement is Unknown
                        &&& finished <==> after@.len() == acts@.len() - 1
                    }
            },
{
    let act_id = metadata.identity.act_id@;
    if exists|place: int| #[trigger] acts.has_act(place, act_id) {
        let place = choose|place: int| #[trigger]
            acts.has_act(place, act_id) && acts.on_agent(
                after,
                runs,
                runs_after,
                place,
                observation,
            );
        assert forall|other: int|
            0 <= other < acts@.len() && (#[trigger] acts@[other]).act_id@ == act_id implies other
            == place by {
            acts.act_is_unique(act_id, place);
        }
        let run = acts@[place].run as int;
        let (moved, finished) = choose|moved: ActLifecycleProducer, finished: bool|
            {
                &&& #[trigger] acts.on_turn(
                    moved,
                    runs@[run],
                    runs_after@[run],
                    place,
                    observation,
                    finished,
                )
                &&& acts.moved(after, place, moved, finished)
            };
    } else {
        assert forall|place: int| 0 <= place < acts@.len() implies (
        #[trigger] acts@[place]).act_id@ != act_id by {
            assert(!acts.has_act(place, act_id));
        }
    }
}

/// A hook of an act is taken as what it is: the start of its driver as that, a request to cancel as
/// that, and a second admission as a fault. Only this act and its run change.
pub proof fn hooks_of_acts_are_what_they_are<A: SpanEventAdmission>(
    acts: ActRegistry,
    after: ActRegistry,
    runs: DiagnosticRuns<A>,
    runs_after: DiagnosticRuns<A>,
    place: int,
    hook: ActHook,
)
    requires
        acts.wf(),
        0 <= place < acts@.len(),
        acts.on_hook(after, runs, runs_after, place, hook),
    ensures
        ({
            let run = acts@[place].run as int;
            &&& hook is DriverStarted ==> acts@[place].on_driver_started(
                after@[place],
                runs@[run],
                runs_after@[run],
            )
            &&& hook is CancelRequested ==> acts@[place].on_cancel_requested(
                after@[place],
                runs@[run],
                runs_after@[run],
            )
            &&& hook is Admitted ==> runs_after@[run].context == runs@[run].context
                && after@[place].state.producer_failed && runs_after@[run].failure is Some
            &&& after@ =~= acts@.update(place, after@[place])
            &&& forall|other: int|
                0 <= other < runs@.len() && other != run ==> #[trigger] runs_after@[other]
                    == runs@[other]
        }),
{
}

/// An act is admitted in the run that it is in: that of its cue, where there is a production, and
/// its own where it stands alone; never both. Its cue has to be of that run, and its session has to
/// be known.
pub proof fn acts_are_admitted_where_their_cue_is(
    runtime_run: Option<usize>,
    lineage: Option<CueLineageSnapshot>,
    control: AgentTurnControl,
    standalone: Option<StandaloneActAdmission>,
)
    ensures
        ({
            let source = ActRegistry::spec_source(runtime_run, lineage, control, standalone);
            let of_cue = runtime_run is Some && standalone is None && lineage is Some
                && lineage->0.run == runtime_run->0 && control.session is Some;
            let alone = runtime_run is None && standalone is Some;
            &&& source is Known <==> of_cue || alone
            &&& source is Absent <==> runtime_run is None && standalone is None
            &&& source is Problem <==> runtime_run is Some && !of_cue
            &&& source matches ActAdmissionSource::Known { run, cue_scope, session } ==> {
                &&& of_cue ==> run == runtime_run->0 && cue_scope == lineage->0.cue_scope
                    && session == control.session->0
                &&& alone ==> run == standalone->0.run && cue_scope == standalone->0.cue_scope
                    && session == standalone->0.session
            }
            &&& source matches ActAdmissionSource::Problem { owner, .. } ==> owner == runtime_run->0
        }),
{
}

/// An act is prepared exactly where the cue names its scene, its cue and the actor that the session
/// is of, and there is a number left for it. It is of that scene, actor and cue, in the generation
/// of its session, with nothing told of it yet.
pub proof fn acts_are_prepared_where_their_cue_names_all<A: SpanEventAdmission>(
    acts: ActRegistry,
    after: ActRegistry,
    runs: DiagnosticRuns<A>,
    runs_after: DiagnosticRuns<A>,
    run: usize,
    cue_scope: DiagnosticScope,
    session: AgentSessionDiagnosticMetadata,
    control_key: usize,
    result: Result<Option<PreparedActAdmission>, ActAdmissionPrepareError>,
)
    requires
        run < runs@.len(),
        acts.on_prepare(
            after,
            runs,
            runs_after,
            (ActAdmissionSource::Known { run, cue_scope, session }),
            control_key,
            result,
        ),
    ensures
        ({
            let named = cue_scope.actor_id is Some && cue_scope.actor_id->0@
                == session.context.actor_id@ && cue_scope.scene_id is Some && cue_scope.cue_id
                is Some && acts.next_act_id.next < u64::MAX;
            &&& result is Ok <==> named
            &&& after@ == acts@
            &&& !named ==> runs_after@[run as int].failure is Some
                && runs_after@[run as int].context == runs@[run as int].context
            &&& named ==> runs_after == runs && after.next_act_id.next == acts.next_act_id.next + 1
            &&& named ==> (result matches Ok(Some(prepared)) && {
                let act = prepared.producer;
                &&& act.run == run && act.control_key == control_key
                &&& act.session == session
                &&& act.act_scope.scene_id == cue_scope.scene_id
                &&& act.act_scope.actor_id == cue_scope.actor_id
                &&& act.act_scope.cue_id == cue_scope.cue_id
                &&& act.act_scope.act_id == Some(act.act_id)
                &&& act.act_scope.effect_id is None && act.act_scope.tool_call_id is None
                &&& act.act_scope.session_generation == session.generation
                &&& act.identity.context == session.context
                &&& act.identity.act_id@ == act.act_id@
                &&& act.usage.serial == acts.next_act_id.next
                &&& !act.usage.prompt_submitted && act.usage.settlement is None
            })
        }),
{
}

/// An act that is settled is told to the bridge once, by its name, and no other act with it.
pub proof fn settled_acts_are_told_once(
    acts: ActRegistry,
    after: ActRegistry,
    moved: ActLifecycleProducer,
    noticed: ActLifecycleProducer,
)
    requires
        acts.gives_notice(after, moved, noticed),
    ensures
        acts.bridge is Some <==> after.bridge is Some,
        acts.bridge is Some ==> {
            let told = after.bridge->0.settled_acts@;
            let owed = moved.owes_settlement_notice();
            &&& owed ==> told == acts.bridge->0.settled_acts@.push(moved.act_id.text)
            &&& owed ==> noticed.state.settlement_notified && !noticed.owes_settlement_notice()
            &&& !owed ==> told == acts.bridge->0.settled_acts@ && noticed == moved
            &&& after.bridge->0.slots@ == acts.bridge->0.slots@
        },
        noticed.state.settlement == moved.state.settlement,
        noticed.act_id == moved.act_id,
{
}

/// An act that is committed begins in its own run and gives its slot to the bridge, where there is
/// one, once. An act whose control or identifier is there already is not told, and is a fault of
/// the run.
pub proof fn committed_acts_begin_once<A: SpanEventAdmission>(
    acts: ActRegistry,
    after: ActRegistry,
    runs: DiagnosticRuns<A>,
    runs_after: DiagnosticRuns<A>,
    act: ActLifecycleProducer,
)
    requires
        act.run < runs@.len(),
        acts.on_commit(after, runs, runs_after, act),
        act.state.act_span_id is None && act.state.caller_span_id is None
            && act.state.admitted_sequence is None,
    ensures
        ({
            let run = act.run as int;
            let facts = runs_after@[run].steps_since(runs@[run]);
            let known = exists|i: int|
                0 <= i < acts@.len() && ((#[trigger] acts@[i]).control_key == act.control_key
                    || acts@[i].act_id@ == act.act_id@);
            &&& known ==> after@ == acts@ && runs_after@[run].context == runs@[run].context
                && runs_after@[run].failure is Some
            &&& !known ==> {
                &&& after@.len() == acts@.len() + 1
                &&& forall|i: int|
                    0 <= i < acts@.len() ==> #[trigger] after@[i] == acts@[i]
                &&& facts.len() >= 1
                &&& facts[0].candidate.scope == act.act_scope
                &&& facts[0].candidate.body is SpanStarted
                &&& facts[0].candidate.body->SpanStarted_detail is ActLifecycle
                &&& after@.last().act_id == act.act_id
                &&& after.bridge is Some <==> acts.bridge is Some
                &&& after.bridge is Some ==> after.bridge->0.settled_acts@
                    == acts.bridge->0.settled_acts@
                &&& after@.last().state.producer_failed <==> facts.last().reply is Err
                &&& acts.bridge is Some && !after@.last().state.producer_failed
                    && act.state.usage_slot is Some && !act.state.finish_attempted ==> {
                    &&& after.bridge is Some
                    &&& after.bridge->0.slots@ == acts.bridge->0.slots@.push(
                        act.state.usage_slot->0,
                    )
                    &&& after@.last().state.usage_slot is None
                }
            }
        }),
{
    let run = act.run as int;
    if acts.is_known(act) {
        if exists|i: int| #[trigger] acts.has_control(i, act.control_key) {
            let i = choose|i: int| #[trigger] acts.has_control(i, act.control_key);
            assert(acts@[i].control_key == act.control_key);
        } else {
            let i = choose|i: int| #[trigger] acts.has_act(i, act.act_id@);
            assert(acts@[i].act_id@ == act.act_id@);
        }
    } else {
        assert forall|i: int| 0 <= i < acts@.len() implies (#[trigger] acts@[i]).control_key
            != act.control_key && acts@[i].act_id@ != act.act_id@ by {
            assert(!acts.has_control(i, act.control_key));
            assert(!acts.has_act(i, act.act_id@));
        }
        let started = choose|started: ActLifecycleProducer|
            {
                &&& #[trigger] act.is_started(started, runs@[run], runs_after@[run])
                &&& after@.len() == acts@.len() + 1
                &&& after@ =~= acts@.push(after@.last())
                &&& acts.offers_slot(after, started, after@.last())
            };
        crate::act_producer::admitted_act_begins_with_its_caller(
            act,
            started,
            runs@[run],
            runs_after@[run],
        );
    }
}

/// Acts and their turns bear identifiers of their kind, with the number of the act, and an act is
/// found by its own.
pub proof fn acts_are_numbered(
    acts: ActRegistry,
    act: ActLifecycleProducer,
    run: usize,
    control_key: usize,
    cue_scope: DiagnosticScope,
    session: AgentSessionDiagnosticMetadata,
)
    requires
        acts.is_prepared(act, run, control_key, cue_scope, session),
    ensures
        ({
            let number = crate::identifier::decimal(acts.next_act_id.next as nat);
            &&& act.act_id@ =~= "act-"@ + number
            &&& act.identity.turn_id@ =~= "turn-"@ + number
            &&& act.usage.act_id@ == act.act_id@
            &&& act.state.usage_slot is Some && act.state.usage_slot->0.serial
                == acts.next_act_id.next && act.state.usage_slot->0.act_id@ == act.act_id@
        }),
{
}

/// Where the facts of an act hang is where they hang in the act of that name, and nowhere for a
/// name that no act has.
pub proof fn acts_are_found_by_their_name(acts: ActRegistry, act_id: Seq<char>, place: int)
    requires
        acts.wf(),
    ensures
        0 <= place < acts@.len() && acts@[place].act_id@ == act_id ==> acts.spec_lineage(act_id)
            == acts@[place].spec_snapshot(),
        (forall|i: int| 0 <= i < acts@.len() ==> (#[trigger] acts@[i]).act_id@ != act_id)
            ==> acts.spec_lineage(act_id) is None,
{
    if 0 <= place < acts@.len() && acts@[place].act_id@ == act_id {
        assert(acts.has_act(place, act_id));
        acts.act_is_unique(act_id, place);
    }
    if exists|i: int| #[trigger] acts.has_act(i, act_id) {
        let i = choose|i: int| #[trigger] acts.has_act(i, act_id);
        assert(acts@[i].act_id@ == act_id);
    }
}

/// What keeps an act from being prepared is told by what it is, the first of them.
pub proof fn unprepared_acts_are_told_by_what_is_missing(
    acts: ActRegistry,
    cue_scope: DiagnosticScope,
    session: AgentSessionDiagnosticMetadata,
)
    ensures
        ({
            let problem = acts.admission_problem(cue_scope, session);
            let own = cue_scope.actor_id is Some && cue_scope.actor_id->0@
                == session.context.actor_id@;
            &&& cue_scope.actor_id is None ==> problem->0@ == "act.actor-identifier-unavailable"@
            &&& cue_scope.actor_id is Some && !own ==> problem->0@
                == "act.session-actor-identity-mismatch"@
            &&& own && acts.next_act_id.next == u64::MAX ==> problem->0@
                == "act.identifier-exhausted"@
            &&& own && acts.next_act_id.next < u64::MAX ==> {
                &&& cue_scope.scene_id is None ==> problem->0@ == "act.scene-identifier-unavailable"@
                &&& cue_scope.scene_id is Some && cue_scope.cue_id is None ==> problem->0@
                    == "act.cue-identifier-unavailable"@
            }
        }),
{
}

} // verus!
