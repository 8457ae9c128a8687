//! What the agent runtime observes, as the run records it.
use crate::act_producer::ActLineageSnapshot;
use crate::act_registry::{ActRegistry, AgentTurnObservation};
use crate::agent::{
    AgentSessionDiagnosticContext, AgentTurnDiagnosticIdentity, AgentTurnDiagnosticMetadata,
    AgentTurnDiagnosticOutcome,
};
use crate::context::{Attempt, DiagnosticRunContext, SpanEventAdmission, TimeError};
use crate::event::{
    follows_from, AgentPlanEntry, CausalLink, ContextSampleOrigin, ContextUsage, CounterKind,
    DiagnosticScope, EventBody, EventCandidate, InstantDetail, InstantKind, ResultTransitionDetail,
};
use crate::run::DiagnosticRuns;
use crate::session_bridge::{actor_of, session_scope, SessionNotice, SessionProjection};
use crate::turn_bridge::{
    PendingToolPayload, PortCall, RecordedPorts, TurnModel, TurnPorts, TurnProgress,
    TurnProjection, TurnRequest, TurnSetting,
};
use vstd::prelude::*;

verus! {

/// What became of an observation.
#[derive(Clone, Copy, Debug, PartialEq, Eq, Structural)]
pub enum ObservationDisposition {
    Admitted,
    Buffered,
    DeferredUsage,
    SinkOnlyPayload,
}

/// How full an agent's context is.
#[derive(Clone, Copy, Debug, PartialEq, Eq, Structural)]
pub struct ContextOccupancy {
    pub used_tokens: Option<u64>,
    pub window_tokens: Option<u64>,
}

/// What was last known of the context of a session.
#[derive(Debug, PartialEq, Eq)]
pub struct CarriedContext {
    pub key: AgentSessionDiagnosticContext,
    pub generation: Option<u64>,
    pub scope: DiagnosticScope,
    pub occupancy: ContextOccupancy,
    pub observed_elapsed_ns: u64,
    pub sequence: u64,
}

/// What an observation is of: a turn, or a session as a whole.
#[derive(Debug, PartialEq, Eq)]
pub enum ObservationOwner {
    Turn(AgentTurnDiagnosticMetadata),
    Session(SessionNotice),
}

/// What a session has cost.
#[derive(Debug, PartialEq, Eq)]
pub struct CostCandidate {
    pub session: AgentSessionDiagnosticContext,
    /// The id of the session's actor can serve as an identifier.
    pub actor_id_valid: bool,
    pub session_generation: Option<u64>,
    pub amount: String,
    pub currency: String,
}

/// A step in the validation of an act's result.
#[derive(Debug, PartialEq, Eq)]
pub enum ResultCandidate {
    Transition { kind: InstantKind, detail: ResultTransitionDetail },
    Rejections { counter: CounterKind, value: u64 },
    Neither,
}

/// What the agent runtime reports of a turn or a session.
pub enum AgentCandidate {
    TurnUsage,
    ToolPayload { turn: AgentTurnDiagnosticMetadata, payload: PendingToolPayload },
    MessageChunk { turn: AgentTurnDiagnosticMetadata },
    Thinking { turn: AgentTurnDiagnosticMetadata },
    Tool { turn: AgentTurnDiagnosticMetadata },
    Plan { owner: ObservationOwner, entries: Vec<AgentPlanEntry>, truncated: bool },
    Occupancy { owner: ObservationOwner, occupancy: ContextOccupancy },
    OccupancySample {
        owner: ObservationOwner,
        occupancy: ContextOccupancy,
        observed_elapsed_ns: u64,
    },
    Cost(CostCandidate),
    Result {
        identity: AgentTurnDiagnosticIdentity,
        session_generation: u64,
        result: ResultCandidate,
    },
    Unsupported,
}

/// Projects what agents do into one run.
pub struct CanonicalObservationBridge<P> {
    /// The place of the run.
    pub run: usize,
    pub ports: RecordedPorts<P>,
    pub sessions: Vec<SessionProjection>,
    pub turns: Vec<TurnProjection>,
    pub latest_context: Vec<CarriedContext>,
    pub next_tool_id: u64,
}

/// What the bridge holds, and what it has reported and asked.
#[verifier::ext_equal]
pub struct BridgeModel {
    pub sessions: Seq<SessionProjection>,
    pub turns: Seq<TurnModel>,
    pub latest_context: Seq<CarriedContext>,
    pub next_tool_id: u64,
    pub subscribers: bool,
    pub calls: Seq<PortCall>,
    pub trace: Seq<Attempt>,
    pub readings: Seq<Result<u64, TimeError>>,
}

/// The place of a session among those from `place` on.
pub open spec fn session_from(
    sessions: Seq<SessionProjection>,
    key: AgentSessionDiagnosticContext,
    place: int,
) -> Option<int>
    decreases sessions.len() - place,
{
    if place >= sessions.len() {
        None
    } else if sessions[place].key.is(key) {
        Some(place)
    } else {
        session_from(sessions, key, place + 1)
    }
}

/// The place of the turn of an act among those from `place` on.
pub open spec fn turn_from(turns: Seq<TurnModel>, act_id: Seq<char>, place: int) -> Option<int>
    decreases turns.len() - place,
{
    if place >= turns.len() {
        None
    } else if turns[place].identity.act_id@ == act_id {
        Some(place)
    } else {
        turn_from(turns, act_id, place + 1)
    }
}

/// The place of a session's context among those from `place` on.
pub open spec fn context_from(
    contexts: Seq<CarriedContext>,
    key: AgentSessionDiagnosticContext,
    place: int,
) -> Option<int>
    decreases contexts.len() - place,
{
    if place >= contexts.len() {
        None
    } else if contexts[place].key.is(key) {
        Some(place)
    } else {
        context_from(contexts, key, place + 1)
    }
}

/// The contexts with this one in the place of what was known of its session before.
pub open spec fn carried(contexts: Seq<CarriedContext>, context: CarriedContext) -> Seq<
    CarriedContext,
> {
    match context_from(contexts, context.key, 0) {
        Some(place) => contexts.update(place, context),
        None => contexts.push(context),
    }
}

/// Where the facts of a turn hang, or why they cannot be recorded.
pub open spec fn spec_act_lineage(
    acts: ActRegistry,
    act_id: Seq<char>,
    session_generation: u64,
) -> Result<ActLineageSnapshot, &'static str> {
    match acts.spec_lineage(act_id) {
        None => Err("observation_act_lineage_unavailable"),
        Some(lineage) => if lineage.event_scope.session_generation != Some(session_generation) {
            Err("observation_turn_identity_mismatch")
        } else {
            Ok(lineage)
        },
    }
}

pub fn act_lineage(acts: &ActRegistry, act_id: &str, session_generation: u64) -> (lineage: Result<
    ActLineageSnapshot,
    &'static str,
>)
    requires
        acts.wf(),
    ensures
        lineage == spec_act_lineage(*acts, act_id@, session_generation),
{
    let lineage = match acts.lineage_snapshot(act_id) {
        Some(lineage) => lineage,
        None => return Err("observation_act_lineage_unavailable"),
    };
    if lineage.event_scope.session_generation != Some(session_generation) {
        return Err("observation_turn_identity_mismatch");
    }
    Ok(lineage)
}

/// Where the facts of a turn are recorded.
pub open spec fn setting_of(
    lineage: ActLineageSnapshot,
    outcome: Option<AgentTurnDiagnosticOutcome>,
    subscribers: bool,
) -> TurnSetting {
    TurnSetting {
        scope: lineage.event_scope,
        containing_span_id: lineage.containing_span_id,
        outcome,
        subscribers,
    }
}

/// The moment of a step in the validation of a result.
pub open spec fn spec_result_instant(kind: InstantKind, detail: ResultTransitionDetail) -> Result<
    InstantDetail,
    &'static str,
> {
    match kind {
        InstantKind::ResultSubmitted => Ok(InstantDetail::ResultSubmitted(detail)),
        InstantKind::ResultRejected => Ok(InstantDetail::ResultRejected(detail)),
        InstantKind::ResultRepairRequested => Ok(InstantDetail::ResultRepairRequested(detail)),
        InstantKind::ResultAccepted => Ok(InstantDetail::ResultAccepted(detail)),
        InstantKind::ResultMissing => Ok(InstantDetail::ResultMissing(detail)),
        _ => Err("observation_result_transition_invalid"),
    }
}

pub fn result_instant(kind: InstantKind, detail: ResultTransitionDetail) -> (instant: Result<
    InstantDetail,
    &'static str,
>)
    ensures
        instant == spec_result_instant(kind, detail),
{
    match kind {
        InstantKind::ResultSubmitted => Ok(InstantDetail::ResultSubmitted(detail)),
        InstantKind::ResultRejected => Ok(InstantDetail::ResultRejected(detail)),
        InstantKind::ResultRepairRequested => Ok(InstantDetail::ResultRepairRequested(detail)),
        InstantKind::ResultAccepted => Ok(InstantDetail::ResultAccepted(detail)),
        InstantKind::ResultMissing => Ok(InstantDetail::ResultMissing(detail)),
        _ => Err("observation_result_transition_invalid"),
    }
}

impl BridgeModel {
    /// Where the turn at `place` stands.
    pub open spec fn progress_at(self, place: int) -> TurnProgress {
        TurnProgress {
            turn: self.turns[place],
            next_tool_id: self.next_tool_id,
            trace: self.trace,
            calls: self.calls,
        }
    }

    /// The turn at `place` has moved on.
    pub open spec fn with_progress(self, place: int, progress: TurnProgress) -> BridgeModel {
        BridgeModel {
            turns: self.turns.update(place, progress.turn),
            next_tool_id: progress.next_tool_id,
            trace: progress.trace,
            calls: progress.calls,
            ..self
        }
    }

    /// The clock was read.
    pub open spec fn with_reading(self, reading: Result<u64, TimeError>) -> BridgeModel {
        BridgeModel { readings: self.readings.push(reading), ..self }
    }

    /// An event was reported.
    pub open spec fn with_attempt(self, attempt: Attempt) -> BridgeModel {
        BridgeModel { trace: self.trace.push(attempt), ..self }
    }

    /// The place of the turn, and the turns with it, or why it is not the turn that is known.
    pub open spec fn ensured(
        self,
        identity: AgentTurnDiagnosticIdentity,
        session_generation: u64,
        initial_sequence: u64,
    ) -> Result<(BridgeModel, int), &'static str> {
        match turn_from(self.turns, identity.act_id@, 0) {
            Some(place) => if !self.turns[place].identity.is(identity)
                || self.turns[place].session_generation != session_generation {
                Err("observation_turn_identity_mismatch")
            } else {
                Ok((self, place))
            },
            None => Ok(
                (
                    BridgeModel {
                        turns: self.turns.push(
                            TurnProjection::fresh(identity, session_generation, initial_sequence),
                        ),
                        ..self
                    },
                    self.turns.len() as int,
                ),
            ),
        }
    }

    /// The turn that an observation is of has its place, or it is told why not.
    pub open spec fn entered(
        self,
        acts: ActRegistry,
        identity: AgentTurnDiagnosticIdentity,
        session_generation: u64,
    ) -> Result<(BridgeModel, int, ActLineageSnapshot), &'static str> {
        match spec_act_lineage(acts, identity.act_id@, session_generation) {
            Err(code) => Err(code),
            Ok(lineage) => match self.ensured(
                identity,
                session_generation,
                lineage.containing_span_id,
            ) {
                Err(code) => Err(code),
                Ok((model, place)) => Ok((model, place, lineage)),
            },
        }
    }

    /// The normalizers were asked about the turn at `place`, and what they answered was recorded.
    pub open spec fn heard(
        self,
        after: BridgeModel,
        place: int,
        request: TurnRequest,
        elapsed_ns: u64,
        setting: TurnSetting,
        result: Result<(), &'static str>,
    ) -> bool {
        &&& self.progress_at(place).heard(
            after.progress_at(place),
            request,
            elapsed_ns,
            setting,
            result,
        )
        &&& after =~= self.with_progress(place, after.progress_at(place))
    }
}

/// What became of candidates: something was recorded, or there was nothing to record.
pub open spec fn disposition(recorded: bool) -> ObservationDisposition {
    if recorded {
        ObservationDisposition::Admitted
    } else {
        ObservationDisposition::Buffered
    }
}

/// A result without what became of the observation.
pub open spec fn outcome_of(result: Result<ObservationDisposition, &'static str>) -> Result<
    (),
    &'static str,
> {
    match result {
        Ok(_) => Ok(()),
        Err(code) => Err(code),
    }
}

impl BridgeModel {
    /// What messages were held back was recorded.
    pub open spec fn flushed(
        self,
        after: BridgeModel,
        place: int,
        elapsed_ns: u64,
        setting: TurnSetting,
        result: Result<(), &'static str>,
    ) -> bool {
        self.heard(after, place, TurnRequest::OtherThanMessage, elapsed_ns, setting, result)
    }

    /// What messages were held back was recorded, and then something else.
    pub open spec fn took_after(
        self,
        flushed: BridgeModel,
        after: BridgeModel,
        place: int,
        request: TurnRequest,
        elapsed_ns: u64,
        setting: TurnSetting,
        result: Result<ObservationDisposition, &'static str>,
    ) -> bool {
        &&& self.flushed(flushed, place, elapsed_ns, setting, Ok(()))
        &&& flushed.took(after, place, request, elapsed_ns, setting, result)
    }

    /// What was observed of the turn at `place` was recorded.
    pub open spec fn took(
        self,
        after: BridgeModel,
        place: int,
        request: TurnRequest,
        elapsed_ns: u64,
        setting: TurnSetting,
        result: Result<ObservationDisposition, &'static str>,
    ) -> bool {
        &&& self.heard(after, place, request, elapsed_ns, setting, outcome_of(result))
        &&& result is Ok ==> result->Ok_0 == disposition(after.trace.len() > self.trace.len())
    }

    /// What was observed of the turn at `place` was recorded. Messages that were held back go
    /// before anything that is no message.
    pub open spec fn took_in_order(
        self,
        after: BridgeModel,
        place: int,
        request: TurnRequest,
        elapsed_ns: u64,
        setting: TurnSetting,
        result: Result<ObservationDisposition, &'static str>,
    ) -> bool {
        if request == TurnRequest::MessageChunk {
            self.took(after, place, request, elapsed_ns, setting, result)
        } else {
            ||| result is Err && self.flushed(after, place, elapsed_ns, setting, outcome_of(result))
            ||| exists|flushed: BridgeModel| #[trigger]
                self.took_after(flushed, after, place, request, elapsed_ns, setting, result)
        }
    }

    /// An observation of a turn: the clock is read, the turn gets its place, and then something is
    /// recorded, as `request` says.
    pub open spec fn observed_turn(
        self,
        after: BridgeModel,
        acts: ActRegistry,
        turn: AgentTurnDiagnosticMetadata,
        request: TurnRequest,
        result: Result<ObservationDisposition, &'static str>,
    ) -> bool {
        let reading = after.readings.last();
        let read = self.with_reading(reading);
        match reading {
            Err(_) => {
                &&& result == Err::<ObservationDisposition, &'static str>(
                    "observation_clock_failed",
                )
                &&& after =~= read
            },
            Ok(elapsed_ns) => match read.entered(acts, turn.identity, turn.session_generation) {
                Err(code) => {
                    &&& result == Err::<ObservationDisposition, &'static str>(code)
                    &&& after =~= read
                },
                Ok((entered, place, lineage)) => {
                    entered.took_in_order(
                        after,
                        place,
                        request,
                        elapsed_ns,
                        setting_of(lineage, None, self.subscribers),
                        result,
                    )
                },
            },
        }
    }
}

impl<P> CanonicalObservationBridge<P> {
    /// What the bridge holds, and what it has reported and asked.
    pub open spec fn model<A: SpanEventAdmission>(self, context: DiagnosticRunContext<A>) -> BridgeModel {
        BridgeModel {
            sessions: self.sessions@,
            turns: self.turns@.map_values(|turn: TurnProjection| turn@),
            latest_context: self.latest_context@,
            next_tool_id: self.next_tool_id,
            subscribers: self.ports.subscribers,
            calls: self.ports.calls@,
            trace: context.trace(),
            readings: context.readings(),
        }
    }
}

impl<P: TurnPorts> CanonicalObservationBridge<P> {
    pub fn new(run: usize, ports: P, subscribers: bool) -> (bridge: Self)
        ensures
            bridge.run == run,
            bridge.ports.ports == ports,
            bridge.ports.subscribers == subscribers,
            bridge.ports.calls@ == Seq::<PortCall>::empty(),
            bridge.ports.witnessed(),
            bridge.sessions@ == Seq::<SessionProjection>::empty(),
            bridge.turns@ == Seq::<TurnProjection>::empty(),
            bridge.latest_context@ == Seq::<CarriedContext>::empty(),
            bridge.next_tool_id == 1,
    {
        CanonicalObservationBridge {
            run,
            ports: RecordedPorts::new(ports, subscribers),
            sessions: Vec::new(),
            turns: Vec::new(),
            latest_context: Vec::new(),
            next_tool_id: 1,
        }
    }

    fn find_session(&self, key: &AgentSessionDiagnosticContext) -> (place: Option<usize>)
        ensures
            match place {
                Some(place) => {
                    &&& place < self.sessions@.len()
                    &&& session_from(self.sessions@, *key, 0) == Some(place as int)
                },
                None => session_from(self.sessions@, *key, 0) is None,
            },
    {
        let mut place: usize = 0;
        while place < self.sessions.len()
            invariant
                place <= self.sessions@.len(),
                session_from(self.sessions@, *key, 0) == session_from(
                    self.sessions@,
                    *key,
                    place as int,
                ),
            decreases self.sessions.len() - place,
        {
            if self.sessions[place].key.same(key) {
                return Some(place);
            }
            place = place + 1;
        }
        None
    }

    fn find_context(&self, key: &AgentSessionDiagnosticContext) -> (place: Option<usize>)
        ensures
            match place {
                Some(place) => {
                    &&& place < self.latest_context@.len()
                    &&& context_from(self.latest_context@, *key, 0) == Some(place as int)
                },
                None => context_from(self.latest_context@, *key, 0) is None,
            },
    {
        let mut place: usize = 0;
        while place < self.latest_context.len()
            invariant
                place <= self.latest_context@.len(),
                context_from(self.latest_context@, *key, 0) == context_from(
                    self.latest_context@,
                    *key,
                    place as int,
                ),
            decreases self.latest_context.len() - place,
        {
            if self.latest_context[place].key.same(key) {
                return Some(place);
            }
            place = place + 1;
        }
        None
    }

    /// What the turns hold.
    pub open spec fn turn_models(self) -> Seq<TurnModel> {
        self.turns@.map_values(|turn: TurnProjection| turn@)
    }

    fn find_turn(&self, act_id: &str) -> (place: Option<usize>)
        ensures
            match place {
                Some(place) => {
                    &&& place < self.turns@.len()
                    &&& turn_from(self.turn_models(), act_id@, 0) == Some(place as int)
                },
                None => turn_from(self.turn_models(), act_id@, 0) is None,
            },
    {
        let mut place: usize = 0;
        while place < self.turns.len()
            invariant
                place <= self.turns@.len(),
                turn_from(self.turn_models(), act_id@, 0) == turn_from(
                    self.turn_models(),
                    act_id@,
                    place as int,
                ),
            decreases self.turns.len() - place,
        {
            if crate::identifier::same_text(self.turns[place].identity.act_id.as_str(), act_id) {
                return Some(place);
            }
            place = place + 1;
        }
        None
    }

    /// Gives a turn its place, unless another turn of the act has it.
    pub fn ensure_turn<A: SpanEventAdmission>(
        &mut self,
        context: &DiagnosticRunContext<A>,
        identity: &AgentTurnDiagnosticIdentity,
        session_generation: u64,
        initial_sequence: u64,
    ) -> (place: Result<usize, &'static str>)
        ensures
            final(self).ports == old(self).ports,
            final(self).run == old(self).run,
            match old(self).model(*context).ensured(
                *identity,
                session_generation,
                initial_sequence,
            ) {
                Err(code) => {
                    &&& place == Err::<usize, &'static str>(code)
                    &&& final(self).model(*context) == old(self).model(*context)
                },
                Ok((model, found)) => {
                    &&& place is Ok
                    &&& place->Ok_0 == found
                    &&& place->Ok_0 < final(self).turns@.len()
                    &&& final(self).model(*context) == model
                },
            },
    {
        match self.find_turn(identity.act_id.as_str()) {
            Some(place) => {
                if !self.turns[place].identity.same(identity)
                    || self.turns[place].session_generation != session_generation {
                    return Err("observation_turn_identity_mismatch");
                }
                Ok(place)
            },
            None => {
                let ghost before = self.model(*context);
                let place: usize = self.turns.len();
                self.turns.push(TurnProjection::new(identity, session_generation, initial_sequence));
                assert(self.model(*context) =~= before.ensured(
                    *identity,
                    session_generation,
                    initial_sequence,
                )->Ok_0.0);
                Ok(place)
            },
        }
    }

    /// Finds where the facts of a turn hang, and gives the turn its place.
    pub fn enter_turn<A: SpanEventAdmission>(
        &mut self,
        context: &DiagnosticRunContext<A>,
        acts: &ActRegistry,
        identity: &AgentTurnDiagnosticIdentity,
        session_generation: u64,
    ) -> (entered: Result<(usize, ActLineageSnapshot), &'static str>)
        requires
            acts.wf(),
        ensures
            final(self).ports == old(self).ports,
            final(self).run == old(self).run,
            match old(self).model(*context).entered(*acts, *identity, session_generation) {
                Err(code) => {
                    &&& entered == Err::<(usize, ActLineageSnapshot), &'static str>(code)
                    &&& final(self).model(*context) == old(self).model(*context)
                },
                Ok((model, place, lineage)) => {
                    &&& entered is Ok
                    &&& entered->Ok_0.0 == place
                    &&& entered->Ok_0.1 == lineage
                    &&& place < final(self).turns@.len()
                    &&& final(self).model(*context) == model
                },
            },
    {
        let lineage = match act_lineage(acts, identity.act_id.as_str(), session_generation) {
            Ok(lineage) => lineage,
            Err(code) => return Err(code),
        };
        match self.ensure_turn(context, identity, session_generation, lineage.containing_span_id) {
            Ok(place) => Ok((place, lineage)),
            Err(code) => Err(code),
        }
    }
}

impl<P: TurnPorts> CanonicalObservationBridge<P> {
    fn setting(&self, lineage: &ActLineageSnapshot, outcome: Option<AgentTurnDiagnosticOutcome>) -> (
        setting: TurnSetting)
        ensures
            setting == setting_of(*lineage, outcome, self.ports.subscribers),
    {
        TurnSetting {
            scope: lineage.event_scope.clone(),
            containing_span_id: lineage.containing_span_id,
            outcome,
            subscribers: self.ports.subscribers,
        }
    }

    /// Asks the normalizers about the turn at `place` and records what they answer. Gives the
    /// number of facts that were reported.
    fn hear_at<A: SpanEventAdmission>(
        &mut self,
        context: &mut DiagnosticRunContext<A>,
        place: usize,
        setting: &TurnSetting,
        request: TurnRequest,
        elapsed_ns: u64,
    ) -> (result: Result<usize, &'static str>)
        requires
            place < old(self).turns@.len(),
            setting.subscribers == old(self).ports.subscribers,
        ensures
            final(context).readings() == old(context).readings(),
            final(context).stays_witnessed(*old(context)),
            final(self).ports.stays_witnessed(old(self).ports),
            final(self).run == old(self).run,
            final(self).turns@.len() == old(self).turns@.len(),
            final(self).ports.subscribers == old(self).ports.subscribers,
            result is Ok ==> final(context).trace().len() == old(context).trace().len()
                + result->Ok_0,
            old(self).model(*old(context)).heard(
                final(self).model(*final(context)),
                place as int,
                request,
                elapsed_ns,
                *setting,
                crate::turn_bridge::without_count(result),
            ),
    {
        let ghost before = self.model(*context);
        let result = self.turns[place].hear(
            &mut self.next_tool_id,
            context,
            &mut self.ports,
            setting,
            request,
            elapsed_ns,
        );
        assert(self.turns@[place as int].progress(self.next_tool_id, *context, self.ports)
            =~= self.model(*context).progress_at(place as int));
        assert(self.model(*context) =~= before.with_progress(
            place as int,
            self.model(*context).progress_at(place as int),
        ));
        result
    }

    /// Records what was observed of the turn at `place`.
    fn take<A: SpanEventAdmission>(
        &mut self,
        context: &mut DiagnosticRunContext<A>,
        place: usize,
        setting: &TurnSetting,
        request: TurnRequest,
        elapsed_ns: u64,
    ) -> (result: Result<ObservationDisposition, &'static str>)
        requires
            place < old(self).turns@.len(),
            setting.subscribers == old(self).ports.subscribers,
        ensures
            final(context).stays_witnessed(*old(context)),
            final(self).ports.stays_witnessed(old(self).ports),
            final(self).run == old(self).run,
            old(self).model(*old(context)).took(
                final(self).model(*final(context)),
                place as int,
                request,
                elapsed_ns,
                *setting,
                result,
            ),
    {
        match self.hear_at(context, place, setting, request, elapsed_ns) {
            Ok(reported) => if reported == 0 {
                Ok(ObservationDisposition::Buffered)
            } else {
                Ok(ObservationDisposition::Admitted)
            },
            Err(code) => Err(code),
        }
    }

    /// Records what was observed of the turn at `place`, after the messages that were held back.
    fn take_in_order<A: SpanEventAdmission>(
        &mut self,
        context: &mut DiagnosticRunContext<A>,
        place: usize,
        setting: &TurnSetting,
        request: TurnRequest,
        elapsed_ns: u64,
    ) -> (result: Result<ObservationDisposition, &'static str>)
        requires
            place < old(self).turns@.len(),
            setting.subscribers == old(self).ports.subscribers,
        ensures
            final(context).stays_witnessed(*old(context)),
            final(self).ports.stays_witnessed(old(self).ports),
            final(self).run == old(self).run,
            old(self).model(*old(context)).took_in_order(
                final(self).model(*final(context)),
                place as int,
                request,
                elapsed_ns,
                *setting,
                result,
            ),
    {
        if request == TurnRequest::MessageChunk {
            return self.take(context, place, setting, request, elapsed_ns);
        }
        let ghost before = self.model(*context);
        if let Err(code) = self.hear_at(
            context,
            place,
            setting,
            TurnRequest::OtherThanMessage,
            elapsed_ns,
        ) {
            return Err(code);
        }
        let ghost flushed = self.model(*context);
        let result = self.take(context, place, setting, request, elapsed_ns);
        assert(before.took_after(
            flushed,
            self.model(*context),
            place as int,
            request,
            elapsed_ns,
            *setting,
            result,
        ));
        result
    }

    /// Takes a message chunk, thinking or tool activity of a turn.
    pub fn turn_observed<A: SpanEventAdmission>(
        &mut self,
        context: &mut DiagnosticRunContext<A>,
        acts: &ActRegistry,
        turn: &AgentTurnDiagnosticMetadata,
        request: TurnRequest,
    ) -> (result: Result<ObservationDisposition, &'static str>)
        requires
            acts.wf(),
        ensures
            final(context).stays_witnessed(*old(context)),
            final(self).ports.stays_witnessed(old(self).ports),
            final(self).run == old(self).run,
            old(self).model(*old(context)).observed_turn(
                final(self).model(*final(context)),
                *acts,
                *turn,
                request,
                result,
            ),
    {
        let ghost before = self.model(*context);
        let elapsed_ns = match context.read_clock() {
            Some(elapsed_ns) => elapsed_ns,
            None => return Err("observation_clock_failed"),
        };
        assert(self.model(*context) =~= before.with_reading(context.readings().last()));
        let (place, lineage) = match self.enter_turn(
            &*context,
            acts,
            &turn.identity,
            turn.session_generation,
        ) {
            Ok(entered) => entered,
            Err(code) => return Err(code),
        };
        let setting = self.setting(&lineage, None);
        self.take_in_order(context, place, &setting, request, elapsed_ns)
    }
}

/// Where a fact of a turn or a session goes: the place of its owner, its scope, and the fact that it
/// follows from.
#[derive(Debug, PartialEq, Eq)]
pub struct Located {
    pub place: usize,
    pub scope: DiagnosticScope,
    pub previous: u64,
}

/// What became of a fact of a turn or a session: it was recorded, or it was told why not.
#[derive(Debug, PartialEq, Eq)]
pub enum OwnedRecord {
    Recorded { scope: DiagnosticScope, sequence: u64 },
    Refused { code: &'static str },
}

impl BridgeModel {
    /// The owner of a fact was found. For a turn, the messages that were held back were recorded.
    pub open spec fn located(
        self,
        after: BridgeModel,
        acts: ActRegistry,
        owner: ObservationOwner,
        elapsed_ns: u64,
        found: Result<Located, &'static str>,
    ) -> bool {
        match owner {
            ObservationOwner::Turn(turn) => match self.entered(
                acts,
                turn.identity,
                turn.session_generation,
            ) {
                Err(code) => found == Err::<Located, &'static str>(code) && after == self,
                Ok((entered, place, lineage)) => {
                    let setting = setting_of(lineage, None, self.subscribers);
                    match found {
                        Err(code) => entered.flushed(
                            after,
                            place,
                            elapsed_ns,
                            setting,
                            Err(code),
                        ),
                        Ok(located) => {
                            &&& entered.flushed(after, place, elapsed_ns, setting, Ok(()))
                            &&& located.place == place
                            &&& located.scope == lineage.event_scope
                            &&& located.previous == after.turns[place].last_sequence
                        },
                    }
                },
            },
            ObservationOwner::Session(notice) => {
                &&& after == self
                &&& match (
                    notice.spec_actor_id(),
                    session_from(self.sessions, notice.metadata.context, 0),
                ) {
                    (None, _) => found == Err::<Located, &'static str>(
                        "observation_identifier_invalid",
                    ),
                    (Some(_), None) => found == Err::<Located, &'static str>(
                        "observation_session_transition_invalid",
                    ),
                    (Some(actor_id), Some(place)) => {
                        &&& found is Ok
                        &&& found->Ok_0.place == place
                        &&& found->Ok_0.scope == crate::session_bridge::spec_session_scope(
                            actor_id,
                            notice.metadata.generation,
                        )
                        &&& found->Ok_0.previous == self.sessions[place].last_sequence
                    },
                }
            },
        }
    }

    /// The owner of a fact has it as its last.
    pub open spec fn sequenced(
        self,
        owner: ObservationOwner,
        place: int,
        sequence: u64,
    ) -> BridgeModel {
        match owner {
            ObservationOwner::Turn(_) => BridgeModel {
                turns: self.turns.update(
                    place,
                    TurnModel { last_sequence: sequence, ..self.turns[place] },
                ),
                ..self
            },
            ObservationOwner::Session(_) => BridgeModel {
                sessions: self.sessions.update(
                    place,
                    SessionProjection { last_sequence: sequence, ..self.sessions[place] },
                ),
                ..self
            },
        }
    }

    /// The last attempt reported this event at this time.
    pub open spec fn attempted(self, before: BridgeModel, elapsed_ns: u64, event: EventCandidate) -> bool {
        let attempt = self.trace.last();
        &&& self.trace =~= before.trace.push(attempt)
        &&& attempt.candidate == event
        &&& attempt.elapsed == Ok::<u64, TimeError>(elapsed_ns)
        &&& attempt.faithful()
    }

    /// A fact of an owner that was found was recorded, or refused.
    pub open spec fn recorded_at(
        self,
        after: BridgeModel,
        owner: ObservationOwner,
        located: Located,
        elapsed_ns: u64,
        body: EventBody,
        result: OwnedRecord,
    ) -> bool {
        let attempt = after.trace.last();
        let event = EventCandidate {
            unheard: false,
            scope: located.scope,
            cause: CausalLink::after(located.previous),
            body,
        };
        &&& after.attempted(self, elapsed_ns, event)
        &&& match attempt.reply {
            Ok(sequence) => {
                &&& result == OwnedRecord::Recorded { scope: located.scope, sequence }
                &&& after =~= self.with_attempt(attempt).sequenced(
                    owner,
                    located.place as int,
                    sequence,
                )
            },
            Err(_) => {
                &&& result == OwnedRecord::Refused { code: "canonical_admission_failed" }
                &&& after =~= self.with_attempt(attempt)
            },
        }
    }

    /// An owner was found, and then its fact was recorded, or refused.
    pub open spec fn found_and_recorded(
        self,
        found: BridgeModel,
        after: BridgeModel,
        acts: ActRegistry,
        owner: ObservationOwner,
        located: Located,
        elapsed_ns: u64,
        body: EventBody,
        result: OwnedRecord,
    ) -> bool {
        &&& self.located(found, acts, owner, elapsed_ns, Ok(located))
        &&& found.recorded_at(after, owner, located, elapsed_ns, body, result)
    }

    /// A fact of a turn or a session was recorded, or it was told why not.
    pub open spec fn owned(
        self,
        after: BridgeModel,
        acts: ActRegistry,
        owner: ObservationOwner,
        elapsed_ns: u64,
        body: EventBody,
        result: OwnedRecord,
    ) -> bool {
        ||| result is Refused && self.located(
            after,
            acts,
            owner,
            elapsed_ns,
            Err::<Located, &'static str>(result->code),
        )
        ||| exists|found: BridgeModel, located: Located| #[trigger]
            self.found_and_recorded(
                found,
                after,
                acts,
                owner,
                located,
                elapsed_ns,
                body,
                result,
            )
    }
}

impl<P: TurnPorts> CanonicalObservationBridge<P> {
    fn locate<A: SpanEventAdmission>(
        &mut self,
        context: &mut DiagnosticRunContext<A>,
        acts: &ActRegistry,
        owner: &ObservationOwner,
        elapsed_ns: u64,
    ) -> (found: Result<Located, &'static str>)
        requires
            acts.wf(),
        ensures
            final(context).readings() == old(context).readings(),
            final(context).stays_witnessed(*old(context)),
            final(self).ports.stays_witnessed(old(self).ports),
            final(self).run == old(self).run,
            old(self).model(*old(context)).located(
                final(self).model(*final(context)),
                *acts,
                *owner,
                elapsed_ns,
                found,
            ),
            match found {
                Ok(located) => match owner {
                    ObservationOwner::Turn(_) => located.place < final(self).turns@.len(),
                    ObservationOwner::Session(_) => located.place < final(self).sessions@.len(),
                },
                Err(_) => true,
            },
    {
        match owner {
            ObservationOwner::Turn(turn) => {
                let (place, lineage) = match self.enter_turn(
                    &*context,
                    acts,
                    &turn.identity,
                    turn.session_generation,
                ) {
                    Ok(entered) => entered,
                    Err(code) => return Err(code),
                };
                let setting = self.setting(&lineage, None);
                match self.hear_at(
                    context,
                    place,
                    &setting,
                    TurnRequest::OtherThanMessage,
                    elapsed_ns,
                ) {
                    Err(code) => Err(code),
                    Ok(_) => {
                        let previous = self.turns[place].last_sequence;
                        Ok(Located { place, scope: lineage.event_scope, previous })
                    },
                }
            },
            ObservationOwner::Session(notice) => {
                let known = notice.actor_id();
                let actor_id = match &known {
                    Some(actor_id) => actor_id,
                    None => return Err("observation_identifier_invalid"),
                };
                match self.find_session(&notice.metadata.context) {
                    None => Err("observation_session_transition_invalid"),
                    Some(place) => Ok(
                        Located {
                            place,
                            scope: session_scope(actor_id, notice.metadata.generation),
                            previous: self.sessions[place].last_sequence,
                        },
                    ),
                }
            },
        }
    }

    fn record_at<A: SpanEventAdmission>(
        &mut self,
        context: &mut DiagnosticRunContext<A>,
        owner: &ObservationOwner,
        located: Located,
        elapsed_ns: u64,
        body: EventBody,
    ) -> (result: OwnedRecord)
        requires
            match owner {
                ObservationOwner::Turn(_) => located.place < old(self).turns@.len(),
                ObservationOwner::Session(_) => located.place < old(self).sessions@.len(),
            },
        ensures
            final(context).readings() == old(context).readings(),
            final(context).stays_witnessed(*old(context)),
            final(self).ports.stays_witnessed(old(self).ports),
            final(self).run == old(self).run,
            old(self).model(*old(context)).recorded_at(
                final(self).model(*final(context)),
                *owner,
                located,
                elapsed_ns,
                body,
                result,
            ),
    {
        let ghost before = self.model(*context);
        let place = located.place;
        let reply = context.report_at(
            elapsed_ns,
            EventCandidate {
                unheard: false,
                scope: located.scope.clone(),
                cause: follows_from(located.previous),
                body,
            },
        );
        match reply {
            Err(_) => OwnedRecord::Refused { code: "canonical_admission_failed" },
            Ok(sequence) => {
                match owner {
                    ObservationOwner::Turn(_) => {
                        self.turns[place].last_sequence = sequence;
                    },
                    ObservationOwner::Session(_) => {
                        self.sessions[place].last_sequence = sequence;
                    },
                }
                assert(self.model(*context) =~= before.with_attempt(
                    context.trace().last(),
                ).sequenced(*owner, place as int, sequence));
                OwnedRecord::Recorded { scope: located.scope, sequence }
            },
        }
    }

    /// Records a fact of a turn or a session at this time.
    fn record_owned<A: SpanEventAdmission>(
        &mut self,
        context: &mut DiagnosticRunContext<A>,
        acts: &ActRegistry,
        owner: &ObservationOwner,
        elapsed_ns: u64,
        body: EventBody,
    ) -> (result: OwnedRecord)
        requires
            acts.wf(),
        ensures
            final(context).readings() == old(context).readings(),
            final(context).stays_witnessed(*old(context)),
            final(self).ports.stays_witnessed(old(self).ports),
            final(self).run == old(self).run,
            old(self).model(*old(context)).owned(
                final(self).model(*final(context)),
                *acts,
                *owner,
                elapsed_ns,
                body,
                result,
            ),
    {
        let ghost before = self.model(*context);
        let located = match self.locate(context, acts, owner, elapsed_ns) {
            Ok(located) => located,
            Err(code) => return OwnedRecord::Refused { code },
        };
        let ghost found = self.model(*context);
        let ghost here = located;
        let result = self.record_at(context, owner, located, elapsed_ns, body);
        assert(before.found_and_recorded(
            found,
            self.model(*context),
            *acts,
            *owner,
            here,
            elapsed_ns,
            body,
            result,
        ));
        result
    }
}

/// When something was observed: when the agent says, else now.
pub open spec fn observed_at(observed_elapsed_ns: Option<u64>, elapsed_ns: u64) -> u64 {
    match observed_elapsed_ns {
        Some(observed) => observed,
        None => elapsed_ns,
    }
}

/// A result without the record.
pub open spec fn admitted(record: OwnedRecord) -> Result<ObservationDisposition, &'static str> {
    match record {
        OwnedRecord::Recorded { .. } => Ok(ObservationDisposition::Admitted),
        OwnedRecord::Refused { code } => Err(code),
    }
}

impl BridgeModel {
    /// A plan was recorded: the clock is read first.
    pub open spec fn observed_plan(
        self,
        after: BridgeModel,
        acts: ActRegistry,
        owner: ObservationOwner,
        body: EventBody,
        result: Result<ObservationDisposition, &'static str>,
    ) -> bool {
        let reading = after.readings.last();
        let read = self.with_reading(reading);
        match reading {
            Err(_) => {
                &&& result == Err::<ObservationDisposition, &'static str>(
                    "observation_clock_failed",
                )
                &&& after =~= read
            },
            Ok(elapsed_ns) => read.planned(after, acts, owner, elapsed_ns, body, result),
        }
    }

    /// A plan was recorded, or it was told why not.
    pub open spec fn planned(
        self,
        after: BridgeModel,
        acts: ActRegistry,
        owner: ObservationOwner,
        elapsed_ns: u64,
        body: EventBody,
        result: Result<ObservationDisposition, &'static str>,
    ) -> bool {
        exists|record: OwnedRecord| #[trigger]
            self.owned(after, acts, owner, elapsed_ns, body, record) && result == admitted(record)
    }

    /// The session that a fact of the owner is of, and its generation.
    pub open spec fn session_of(owner: ObservationOwner) -> (
        AgentSessionDiagnosticContext,
        Option<u64>,
    ) {
        match owner {
            ObservationOwner::Turn(turn) => (turn.identity.context, Some(turn.session_generation)),
            ObservationOwner::Session(notice) => (
                notice.metadata.context,
                notice.metadata.generation,
            ),
        }
    }

    /// How full a context is, as an event states it.
    pub open spec fn occupancy_body(occupancy: ContextOccupancy) -> EventBody {
        EventBody::ContextUsageSampled(
            ContextUsage {
                used_tokens: occupancy.used_tokens,
                window_tokens: occupancy.window_tokens,
                cost_amount: None,
                cost_currency: None,
                origin: ContextSampleOrigin::Provider,
                observed_elapsed_ns: None,
            },
        )
    }

    /// How full a context is was recorded, and is kept for what the session costs.
    pub open spec fn sampled(
        self,
        recorded: BridgeModel,
        after: BridgeModel,
        acts: ActRegistry,
        owner: ObservationOwner,
        occupancy: ContextOccupancy,
        event_elapsed_ns: u64,
        observed_elapsed_ns: u64,
        record: OwnedRecord,
    ) -> bool {
        &&& self.owned(
            recorded,
            acts,
            owner,
            event_elapsed_ns,
            BridgeModel::occupancy_body(occupancy),
            record,
        )
        &&& after =~= match record {
            OwnedRecord::Refused { .. } => recorded,
            OwnedRecord::Recorded { scope, sequence } => BridgeModel {
                latest_context: carried(
                    recorded.latest_context,
                    CarriedContext {
                        key: BridgeModel::session_of(owner).0,
                        generation: BridgeModel::session_of(owner).1,
                        scope,
                        occupancy,
                        observed_elapsed_ns,
                        sequence,
                    },
                ),
                ..recorded
            },
        }
    }

    /// How full a context is was observed: the clock is read first. Where the agent does not say
    /// when it observed it, it is now.
    pub open spec fn observed_context(
        self,
        after: BridgeModel,
        acts: ActRegistry,
        owner: ObservationOwner,
        occupancy: ContextOccupancy,
        observed_elapsed_ns: Option<u64>,
        result: Result<ObservationDisposition, &'static str>,
    ) -> bool {
        let reading = after.readings.last();
        let read = self.with_reading(reading);
        match reading {
            Err(_) => {
                &&& result == Err::<ObservationDisposition, &'static str>(
                    "observation_clock_failed",
                )
                &&& after =~= read
            },
            Ok(elapsed_ns) => read.sampled_context(
                after,
                acts,
                owner,
                occupancy,
                elapsed_ns,
                observed_at(observed_elapsed_ns, elapsed_ns),
                result,
            ),
        }
    }

    /// How full a context is was recorded, or it was told why not.
    pub open spec fn sampled_context(
        self,
        after: BridgeModel,
        acts: ActRegistry,
        owner: ObservationOwner,
        occupancy: ContextOccupancy,
        event_elapsed_ns: u64,
        observed_elapsed_ns: u64,
        result: Result<ObservationDisposition, &'static str>,
    ) -> bool {
        exists|recorded: BridgeModel, record: OwnedRecord|
            {
                &&& #[trigger] self.sampled(
                    recorded,
                    after,
                    acts,
                    owner,
                    occupancy,
                    event_elapsed_ns,
                    observed_elapsed_ns,
                    record,
                )
                &&& result == admitted(record)
            }
    }
}

impl<P: TurnPorts> CanonicalObservationBridge<P> {
    /// Takes a plan of a turn or a session.
    pub fn plan_observed<A: SpanEventAdmission>(
        &mut self,
        context: &mut DiagnosticRunContext<A>,
        acts: &ActRegistry,
        owner: &ObservationOwner,
        entries: Vec<AgentPlanEntry>,
        truncated: bool,
    ) -> (result: Result<ObservationDisposition, &'static str>)
        requires
            acts.wf(),
        ensures
            final(context).stays_witnessed(*old(context)),
            final(self).ports.stays_witnessed(old(self).ports),
            final(self).run == old(self).run,
            old(self).model(*old(context)).observed_plan(
                final(self).model(*final(context)),
                *acts,
                *owner,
                (EventBody::AgentPlanSnapshot { entries, truncated }),
                result,
            ),
    {
        let ghost before = self.model(*context);
        let elapsed_ns = match context.read_clock() {
            Some(elapsed_ns) => elapsed_ns,
            None => return Err("observation_clock_failed"),
        };
        let ghost read = self.model(*context);
        assert(read =~= before.with_reading(context.readings().last()));
        let body = EventBody::AgentPlanSnapshot { entries, truncated };
        let ghost stated = body;
        let record = self.record_owned(context, acts, owner, elapsed_ns, body);
        let ghost kept = record;
        let result = match record {
            OwnedRecord::Recorded { .. } => Ok(ObservationDisposition::Admitted),
            OwnedRecord::Refused { code } => Err(code),
        };
        assert(read.owned(self.model(*context), *acts, *owner, elapsed_ns, stated, kept));
        result
    }

    fn carry(&mut self, carried_context: CarriedContext)
        ensures
            final(self).sessions == old(self).sessions,
            final(self).turns == old(self).turns,
            final(self).ports == old(self).ports,
            final(self).run == old(self).run,
            final(self).next_tool_id == old(self).next_tool_id,
            final(self).latest_context@ == carried(old(self).latest_context@, carried_context),
    {
        match self.find_context(&carried_context.key) {
            Some(place) => {
                self.latest_context.set(place, carried_context);
            },
            None => {
                self.latest_context.push(carried_context);
            },
        }
    }

    /// Takes how full the context of a turn or a session is. The agent may say when it observed
    /// it.
    pub fn context_observed<A: SpanEventAdmission>(
        &mut self,
        context: &mut DiagnosticRunContext<A>,
        acts: &ActRegistry,
        owner: &ObservationOwner,
        occupancy: ContextOccupancy,
        observed_elapsed_ns: Option<u64>,
    ) -> (result: Result<ObservationDisposition, &'static str>)
        requires
            acts.wf(),
        ensures
            final(context).stays_witnessed(*old(context)),
            final(self).ports.stays_witnessed(old(self).ports),
            final(self).run == old(self).run,
            old(self).model(*old(context)).observed_context(
                final(self).model(*final(context)),
                *acts,
                *owner,
                occupancy,
                observed_elapsed_ns,
                result,
            ),
    {
        let ghost before = self.model(*context);
        let elapsed_ns = match context.read_clock() {
            Some(elapsed_ns) => elapsed_ns,
            None => return Err("observation_clock_failed"),
        };
        let ghost read = self.model(*context);
        assert(read =~= before.with_reading(context.readings().last()));
        let observed_ns: u64 = match observed_elapsed_ns {
            Some(observed_ns) => observed_ns,
            None => elapsed_ns,
        };
        let record = self.record_owned(
            context,
            acts,
            owner,
            elapsed_ns,
            EventBody::ContextUsageSampled(
                ContextUsage {
                    used_tokens: occupancy.used_tokens,
                    window_tokens: occupancy.window_tokens,
                    cost_amount: None,
                    cost_currency: None,
                    origin: ContextSampleOrigin::Provider,
                    observed_elapsed_ns: None,
                },
            ),
        );
        let ghost recorded = self.model(*context);
        let ghost kept = record;
        match record {
            OwnedRecord::Refused { code } => {
                assert(read.sampled(
                    recorded,
                    self.model(*context),
                    *acts,
                    *owner,
                    occupancy,
                    elapsed_ns,
                    observed_ns,
                    kept,
                ));
                Err(code)
            },
            OwnedRecord::Recorded { scope, sequence } => {
                let (key, generation) = match owner {
                    ObservationOwner::Turn(turn) => (
                        turn.identity.context.clone(),
                        Some(turn.session_generation),
                    ),
                    ObservationOwner::Session(notice) => (
                        notice.metadata.context.clone(),
                        notice.metadata.generation,
                    ),
                };
                self.carry(
                    CarriedContext {
                        key,
                        generation,
                        scope,
                        occupancy,
                        observed_elapsed_ns: observed_ns,
                        sequence,
                    },
                );
                assert(read.sampled(
                    recorded,
                    self.model(*context),
                    *acts,
                    *owner,
                    occupancy,
                    elapsed_ns,
                    observed_ns,
                    kept,
                ));
                Ok(ObservationDisposition::Admitted)
            },
        }
    }
}

/// What is known of a session's context where its cost comes in.
pub struct CostBasis {
    pub scope: DiagnosticScope,
    pub cause: Option<CausalLink>,
    pub occupancy: ContextOccupancy,
    pub origin: ContextSampleOrigin,
    pub observed_elapsed_ns: Option<u64>,
}

impl BridgeModel {
    /// What a session's cost is reported with: what was last known of its context in the same
    /// generation, else nothing.
    pub open spec fn cost_basis(self, cost: CostCandidate) -> Result<CostBasis, &'static str> {
        let known = context_from(self.latest_context, cost.session, 0);
        if known is Some && self.latest_context[known->0].generation == cost.session_generation {
            let context = self.latest_context[known->0];
            Ok(
                CostBasis {
                    scope: context.scope,
                    cause: CausalLink::after(context.sequence),
                    occupancy: context.occupancy,
                    origin: ContextSampleOrigin::CarriedForward,
                    observed_elapsed_ns: Some(context.observed_elapsed_ns),
                },
            )
        } else {
            match crate::session_bridge::spec_actor_of(cost.session, cost.actor_id_valid) {
                None => Err("observation_identifier_invalid"),
                Some(actor_id) => Ok(
                    CostBasis {
                        scope: crate::session_bridge::spec_session_scope(
                            actor_id,
                            cost.session_generation,
                        ),
                        cause: match session_from(self.sessions, cost.session, 0) {
                            Some(place) => CausalLink::after(self.sessions[place].last_sequence),
                            None => None,
                        },
                        occupancy: ContextOccupancy { used_tokens: None, window_tokens: None },
                        origin: ContextSampleOrigin::Provider,
                        observed_elapsed_ns: None,
                    },
                ),
            }
        }
    }

    /// What a session has cost was recorded: the clock is read first.
    pub open spec fn observed_cost(
        self,
        after: BridgeModel,
        cost: CostCandidate,
        result: Result<ObservationDisposition, &'static str>,
    ) -> bool {
        let reading = after.readings.last();
        let read = self.with_reading(reading);
        match (reading, self.cost_basis(cost)) {
            (Err(_), _) => {
                &&& result == Err::<ObservationDisposition, &'static str>(
                    "observation_clock_failed",
                )
                &&& after =~= read
            },
            (Ok(_), Err(code)) => {
                &&& result == Err::<ObservationDisposition, &'static str>(code)
                &&& after =~= read
            },
            (Ok(elapsed_ns), Ok(basis)) => {
                let attempt = after.trace.last();
                let event = EventCandidate {
                    unheard: false,
                    scope: basis.scope,
                    cause: basis.cause,
                    body: EventBody::ContextUsageSampled(
                        ContextUsage {
                            used_tokens: basis.occupancy.used_tokens,
                            window_tokens: basis.occupancy.window_tokens,
                            cost_amount: Some(cost.amount),
                            cost_currency: Some(cost.currency),
                            origin: basis.origin,
                            observed_elapsed_ns: basis.observed_elapsed_ns,
                        },
                    ),
                };
                &&& after.attempted(read, elapsed_ns, event)
                &&& match attempt.reply {
                    Err(_) => {
                        &&& result == Err::<ObservationDisposition, &'static str>(
                            "canonical_admission_failed",
                        )
                        &&& after =~= read.with_attempt(attempt)
                    },
                    Ok(sequence) => {
                        let place = session_from(self.sessions, cost.session, 0);
                        let recorded = read.with_attempt(attempt);
                        &&& result == Ok::<ObservationDisposition, &'static str>(
                            ObservationDisposition::Admitted,
                        )
                        &&& after =~= match place {
                            Some(place) => BridgeModel {
                                sessions: recorded.sessions.update(
                                    place,
                                    SessionProjection {
                                        last_sequence: sequence,
                                        ..recorded.sessions[place]
                                    },
                                ),
                                ..recorded
                            },
                            None => recorded,
                        }
                    },
                }
            },
        }
    }
}

impl<P: TurnPorts> CanonicalObservationBridge<P> {
    fn find_cost_basis<A: SpanEventAdmission>(
        &self,
        context: &DiagnosticRunContext<A>,
        cost: &CostCandidate,
    ) -> (basis: Result<CostBasis, &'static str>)
        ensures
            basis == self.model(*context).cost_basis(*cost),
    {
        if let Some(place) = self.find_context(&cost.session) {
            let known = &self.latest_context[place];
            if known.generation == cost.session_generation {
                return Ok(
                    CostBasis {
                        scope: known.scope.clone(),
                        cause: follows_from(known.sequence),
                        occupancy: known.occupancy,
                        origin: ContextSampleOrigin::CarriedForward,
                        observed_elapsed_ns: Some(known.observed_elapsed_ns),
                    },
                );
            }
        }
        let known = actor_of(&cost.session, cost.actor_id_valid);
        let actor_id = match &known {
            Some(actor_id) => actor_id,
            None => return Err("observation_identifier_invalid"),
        };
        let cause = match self.find_session(&cost.session) {
            Some(place) => follows_from(self.sessions[place].last_sequence),
            None => None,
        };
        Ok(
            CostBasis {
                scope: session_scope(actor_id, cost.session_generation),
                cause,
                occupancy: ContextOccupancy { used_tokens: None, window_tokens: None },
                origin: ContextSampleOrigin::Provider,
                observed_elapsed_ns: None,
            },
        )
    }

    /// Takes what a session has cost.
    pub fn cost_observed<A: SpanEventAdmission>(
        &mut self,
        context: &mut DiagnosticRunContext<A>,
        cost: CostCandidate,
    ) -> (result: Result<ObservationDisposition, &'static str>)
        ensures
            final(context).stays_witnessed(*old(context)),
            final(self).ports.stays_witnessed(old(self).ports),
            final(self).run == old(self).run,
            old(self).model(*old(context)).observed_cost(
                final(self).model(*final(context)),
                cost,
                result,
            ),
    {
        let ghost before = self.model(*context);
        let elapsed_ns = match context.read_clock() {
            Some(elapsed_ns) => elapsed_ns,
            None => return Err("observation_clock_failed"),
        };
        assert(self.model(*context) =~= before.with_reading(context.readings().last()));
        let basis = match self.find_cost_basis(&*context, &cost) {
            Ok(basis) => basis,
            Err(code) => return Err(code),
        };
        let place = self.find_session(&cost.session);
        let reply = context.report_at(
            elapsed_ns,
            EventCandidate {
                unheard: false,
                scope: basis.scope,
                cause: basis.cause,
                body: EventBody::ContextUsageSampled(
                    ContextUsage {
                        used_tokens: basis.occupancy.used_tokens,
                        window_tokens: basis.occupancy.window_tokens,
                        cost_amount: Some(cost.amount),
                        cost_currency: Some(cost.currency),
                        origin: basis.origin,
                        observed_elapsed_ns: basis.observed_elapsed_ns,
                    },
                ),
            },
        );
        match reply {
            Err(_) => Err("canonical_admission_failed"),
            Ok(sequence) => {
                if let Some(place) = place {
                    self.sessions[place].last_sequence = sequence;
                }
                Ok(ObservationDisposition::Admitted)
            },
        }
    }
}

/// What a step in the validation of a result asks for.
pub enum ResultAdvance {
    Fails { code: &'static str },
    /// An event is to be reported, once the turn is `ready` for it.
    Reports { ready: TurnModel, event: EventCandidate },
}

/// What a step in the validation of a result asks for. Steps come one at a time: after a rejection
/// the number of rejections is due, and nothing else.
pub open spec fn result_advance(
    turn: TurnModel,
    lineage: ActLineageSnapshot,
    candidate: ResultCandidate,
) -> ResultAdvance {
    let invalid = ResultAdvance::Fails { code: "observation_result_transition_invalid" };
    match candidate {
        ResultCandidate::Transition { kind, detail } => match spec_result_instant(kind, detail) {
            Ok(instant) if turn.pending_rejection_sequence is None => ResultAdvance::Reports {
                ready: turn,
                event: EventCandidate::instant(
                    lineage.event_scope,
                    instant,
                    Some(lineage.containing_span_id),
                    CausalLink::after(turn.last_sequence),
                ),
            },
            _ => invalid,
        },
        ResultCandidate::Rejections { counter, value } => if counter
            == CounterKind::ResultValidationRejections && value == turn.last_rejection_count + 1
            && turn.pending_rejection_sequence is Some {
            ResultAdvance::Reports {
                ready: TurnModel { pending_rejection_sequence: None, ..turn },
                event: EventCandidate::counter(
                    lineage.act_scope,
                    counter,
                    value,
                    CausalLink::after(turn.pending_rejection_sequence->0),
                ),
            }
        } else {
            invalid
        },
        ResultCandidate::Neither => invalid,
    }
}

/// The turn once the hub has accepted a step in the validation of a result.
pub open spec fn result_settled(turn: TurnModel, candidate: ResultCandidate, sequence: u64) ->
    TurnModel {
    match candidate {
        ResultCandidate::Transition { kind, .. } => TurnModel {
            last_sequence: sequence,
            pending_rejection_sequence: if kind == InstantKind::ResultRejected {
                Some(sequence)
            } else {
                turn.pending_rejection_sequence
            },
            ..turn
        },
        ResultCandidate::Rejections { value, .. } => TurnModel {
            last_sequence: sequence,
            last_rejection_count: value,
            ..turn
        },
        ResultCandidate::Neither => turn,
    }
}

impl BridgeModel {
    /// The turn at `place` is another.
    pub open spec fn with_turn(self, place: int, turn: TurnModel) -> BridgeModel {
        BridgeModel { turns: self.turns.update(place, turn), ..self }
    }

    /// A step in the validation of the result of the turn at `place` was recorded, or it was told
    /// why not.
    pub open spec fn stepped_result(
        self,
        after: BridgeModel,
        place: int,
        lineage: ActLineageSnapshot,
        elapsed_ns: u64,
        candidate: ResultCandidate,
        result: Result<ObservationDisposition, &'static str>,
    ) -> bool {
        match result_advance(self.turns[place], lineage, candidate) {
            ResultAdvance::Fails { code } => {
                &&& result == Err::<ObservationDisposition, &'static str>(code)
                &&& after =~= self
            },
            ResultAdvance::Reports { ready, event } => {
                let attempt = after.trace.last();
                let tried = self.with_turn(place, ready).with_attempt(attempt);
                &&& after.attempted(self, elapsed_ns, event)
                &&& match attempt.reply {
                    Err(_) => {
                        &&& result == Err::<ObservationDisposition, &'static str>(
                            "canonical_admission_failed",
                        )
                        &&& after =~= tried
                    },
                    Ok(sequence) => {
                        &&& result == Ok::<ObservationDisposition, &'static str>(
                            ObservationDisposition::Admitted,
                        )
                        &&& after =~= tried.with_turn(
                            place,
                            result_settled(ready, candidate, sequence),
                        )
                    },
                }
            },
        }
    }

    /// The messages that were held back were recorded, and then a step in the validation of a
    /// result.
    pub open spec fn flushed_and_stepped(
        self,
        flushed: BridgeModel,
        after: BridgeModel,
        place: int,
        lineage: ActLineageSnapshot,
        elapsed_ns: u64,
        candidate: ResultCandidate,
        result: Result<ObservationDisposition, &'static str>,
    ) -> bool {
        let setting = setting_of(lineage, None, self.subscribers);
        &&& self.flushed(flushed, place, elapsed_ns, setting, Ok(()))
        &&& flushed.stepped_result(after, place, lineage, elapsed_ns, candidate, result)
    }

    /// A step in the validation of the result of the turn at `place` was taken.
    pub open spec fn took_result(
        self,
        after: BridgeModel,
        place: int,
        lineage: ActLineageSnapshot,
        elapsed_ns: u64,
        candidate: ResultCandidate,
        result: Result<ObservationDisposition, &'static str>,
    ) -> bool {
        let setting = setting_of(lineage, None, self.subscribers);
        ||| result is Err && self.flushed(after, place, elapsed_ns, setting, outcome_of(result))
        ||| exists|flushed: BridgeModel| #[trigger]
            self.flushed_and_stepped(
                flushed,
                after,
                place,
                lineage,
                elapsed_ns,
                candidate,
                result,
            )
    }

    /// A step in the validation of a result was observed: the clock is read first.
    pub open spec fn observed_result(
        self,
        after: BridgeModel,
        acts: ActRegistry,
        identity: AgentTurnDiagnosticIdentity,
        session_generation: u64,
        candidate: ResultCandidate,
        result: Result<ObservationDisposition, &'static str>,
    ) -> bool {
        let reading = after.readings.last();
        let read = self.with_reading(reading);
        match reading {
            Err(_) => {
                &&& result == Err::<ObservationDisposition, &'static str>(
                    "observation_clock_failed",
                )
                &&& after =~= read
            },
            Ok(elapsed_ns) => match read.entered(acts, identity, session_generation) {
                Err(code) => {
                    &&& result == Err::<ObservationDisposition, &'static str>(code)
                    &&& after =~= read
                },
                Ok((entered, place, lineage)) => entered.took_result(
                    after,
                    place,
                    lineage,
                    elapsed_ns,
                    candidate,
                    result,
                ),
            },
        }
    }
}

impl<P: TurnPorts> CanonicalObservationBridge<P> {
    fn step_result<A: SpanEventAdmission>(
        &mut self,
        context: &mut DiagnosticRunContext<A>,
        place: usize,
        lineage: &ActLineageSnapshot,
        elapsed_ns: u64,
        candidate: ResultCandidate,
    ) -> (result: Result<ObservationDisposition, &'static str>)
        requires
            place < old(self).turns@.len(),
        ensures
            final(context).readings() == old(context).readings(),
            final(context).stays_witnessed(*old(context)),
            final(self).ports.stays_witnessed(old(self).ports),
            final(self).run == old(self).run,
            old(self).model(*old(context)).stepped_result(
                final(self).model(*final(context)),
                place as int,
                *lineage,
                elapsed_ns,
                candidate,
                result,
            ),
    {
        let last_sequence = self.turns[place].last_sequence;
        match candidate {
            ResultCandidate::Transition { kind, detail } => {
                if self.turns[place].pending_rejection_sequence.is_some() {
                    return Err("observation_result_transition_invalid");
                }
                let instant = match result_instant(kind, detail) {
                    Ok(instant) => instant,
                    Err(code) => return Err(code),
                };
                let reply = context.report_at(
                    elapsed_ns,
                    EventCandidate {
                        unheard: false,
                        scope: lineage.event_scope.clone(),
                        cause: follows_from(last_sequence),
                        body: EventBody::InstantOccurred {
                            instant,
                            containing_span_id: Some(lineage.containing_span_id),
                        },
                    },
                );
                match reply {
                    Err(_) => Err("canonical_admission_failed"),
                    Ok(sequence) => {
                        self.turns[place].last_sequence = sequence;
                        if kind == InstantKind::ResultRejected {
                            self.turns[place].pending_rejection_sequence = Some(sequence);
                        }
                        Ok(ObservationDisposition::Admitted)
                    },
                }
            },
            ResultCandidate::Rejections { counter, value } => {
                if counter != CounterKind::ResultValidationRejections {
                    return Err("observation_result_transition_invalid");
                }
                let last_count = self.turns[place].last_rejection_count;
                if last_count == u64::MAX || value != last_count + 1 {
                    return Err("observation_result_transition_invalid");
                }
                let source = match self.turns[place].pending_rejection_sequence {
                    Some(source) => source,
                    None => return Err("observation_result_transition_invalid"),
                };
                self.turns[place].pending_rejection_sequence = None;
                let reply = context.report_at(
                    elapsed_ns,
                    EventCandidate {
                        unheard: false,
                        scope: lineage.act_scope.clone(),
                        cause: follows_from(source),
                        body: EventBody::CounterSampled { kind: counter, value },
                    },
                );
                match reply {
                    Err(_) => Err("canonical_admission_failed"),
                    Ok(sequence) => {
                        self.turns[place].last_rejection_count = value;
                        self.turns[place].last_sequence = sequence;
                        Ok(ObservationDisposition::Admitted)
                    },
                }
            },
            ResultCandidate::Neither => Err("observation_result_transition_invalid"),
        }
    }

    /// Takes a step in the validation of an act's result.
    pub fn result_observed<A: SpanEventAdmission>(
        &mut self,
        context: &mut DiagnosticRunContext<A>,
        acts: &ActRegistry,
        identity: &AgentTurnDiagnosticIdentity,
        session_generation: u64,
        candidate: ResultCandidate,
    ) -> (result: Result<ObservationDisposition, &'static str>)
        requires
            acts.wf(),
        ensures
            final(context).stays_witnessed(*old(context)),
            final(self).ports.stays_witnessed(old(self).ports),
            final(self).run == old(self).run,
            old(self).model(*old(context)).observed_result(
                final(self).model(*final(context)),
                *acts,
                *identity,
                session_generation,
                candidate,
                result,
            ),
    {
        let ghost before = self.model(*context);
        let elapsed_ns = match context.read_clock() {
            Some(elapsed_ns) => elapsed_ns,
            None => return Err("observation_clock_failed"),
        };
        assert(self.model(*context) =~= before.with_reading(context.readings().last()));
        let (place, lineage) = match self.enter_turn(
            &*context,
            acts,
            identity,
            session_generation,
        ) {
            Ok(entered) => entered,
            Err(code) => return Err(code),
        };
        let ghost entered = self.model(*context);
        let setting = self.setting(&lineage, None);
        if let Err(code) = self.hear_at(
            context,
            place,
            &setting,
            TurnRequest::OtherThanMessage,
            elapsed_ns,
        ) {
            let result: Result<ObservationDisposition, &'static str> = Err(code);
            assert(entered.flushed(
                self.model(*context),
                place as int,
                elapsed_ns,
                setting,
                outcome_of(result),
            ));
            return result;
        }
        let ghost flushed = self.model(*context);
        let ghost stated = candidate;
        let result = self.step_result(context, place, &lineage, elapsed_ns, candidate);
        assert(entered.flushed_and_stepped(
            flushed,
            self.model(*context),
            place as int,
            lineage,
            elapsed_ns,
            stated,
            result,
        ));
        result
    }
}

impl BridgeModel {
    /// The normalizers were asked for what is left of messages, thinking and tools, in this order.
    /// A rejection whose number is still due ends it after the messages.
    pub open spec fn wound_up(
        self,
        messages: BridgeModel,
        thinking: BridgeModel,
        tools: BridgeModel,
        place: int,
        elapsed_ns: u64,
        quiet: TurnSetting,
        setting: TurnSetting,
        result: Result<(), &'static str>,
    ) -> bool {
        ||| {
            &&& result is Err
            &&& tools == messages
            &&& self.heard(messages, place, TurnRequest::MessagesEnd, elapsed_ns, quiet, result)
        }
        ||| {
            &&& self.heard(messages, place, TurnRequest::MessagesEnd, elapsed_ns, quiet, Ok(()))
            &&& if messages.turns[place].pending_rejection_sequence is Some {
                &&& tools == messages
                &&& result == Err::<(), &'static str>("observation_result_transition_invalid")
            } else {
                ||| {
                    &&& result is Err
                    &&& tools == thinking
                    &&& messages.heard(
                        thinking,
                        place,
                        TurnRequest::ThinkingEnds,
                        elapsed_ns,
                        setting,
                        result,
                    )
                }
                ||| {
                    &&& messages.heard(
                        thinking,
                        place,
                        TurnRequest::ThinkingEnds,
                        elapsed_ns,
                        setting,
                        Ok(()),
                    )
                    &&& thinking.heard(
                        tools,
                        place,
                        TurnRequest::ToolsEnd,
                        elapsed_ns,
                        setting,
                        result,
                    )
                }
            }
        }
    }

    /// What is left of the turn at `place` was recorded, and then the turn was forgotten, unless
    /// something was refused.
    pub open spec fn ended_turn(
        self,
        after: BridgeModel,
        place: int,
        lineage: ActLineageSnapshot,
        elapsed_ns: u64,
        outcome: AgentTurnDiagnosticOutcome,
        result: Result<(), &'static str>,
    ) -> bool {
        exists|messages: BridgeModel, thinking: BridgeModel, tools: BridgeModel|
            {
                &&& #[trigger] self.wound_up(
                    messages,
                    thinking,
                    tools,
                    place,
                    elapsed_ns,
                    setting_of(lineage, None, self.subscribers),
                    setting_of(lineage, Some(outcome), self.subscribers),
                    result,
                )
                &&& after =~= match result {
                    Ok(()) => BridgeModel { turns: tools.turns.remove(place), ..tools },
                    Err(_) => tools,
                }
            }
    }

    /// A turn has ended. Of a turn that nothing was recorded of there is nothing left to record.
    pub open spec fn observed_end(
        self,
        after: BridgeModel,
        acts: ActRegistry,
        turn: AgentTurnDiagnosticMetadata,
        outcome: AgentTurnDiagnosticOutcome,
        result: Result<(), &'static str>,
    ) -> bool {
        let reading = after.readings.last();
        let read = self.with_reading(reading);
        if turn_from(self.turns, turn.identity.act_id@, 0) is None {
            result == Ok::<(), &'static str>(()) && after =~= self
        } else {
            match reading {
                Err(_) => {
                    &&& result == Err::<(), &'static str>("observation_clock_failed")
                    &&& after =~= read
                },
                Ok(elapsed_ns) => match read.entered(acts, turn.identity, turn.session_generation) {
                    Err(code) => result == Err::<(), &'static str>(code) && after =~= read,
                    Ok((entered, place, lineage)) => entered.ended_turn(
                        after,
                        place,
                        lineage,
                        elapsed_ns,
                        outcome,
                        result,
                    ),
                },
            }
        }
    }
}

impl<P: TurnPorts> CanonicalObservationBridge<P> {
    fn wind_up<A: SpanEventAdmission>(
        &mut self,
        context: &mut DiagnosticRunContext<A>,
        place: usize,
        lineage: &ActLineageSnapshot,
        elapsed_ns: u64,
        outcome: AgentTurnDiagnosticOutcome,
    ) -> (result: Result<(), &'static str>)
        requires
            place < old(self).turns@.len(),
        ensures
            result is Ok ==> result == Ok::<(), &'static str>(()),
            final(context).readings() == old(context).readings(),
            final(context).stays_witnessed(*old(context)),
            final(self).ports.stays_witnessed(old(self).ports),
            final(self).run == old(self).run,
            old(self).model(*old(context)).ended_turn(
                final(self).model(*final(context)),
                place as int,
                *lineage,
                elapsed_ns,
                outcome,
                result,
            ),
    {
        let ghost before = self.model(*context);
        let quiet = self.setting(lineage, None);
        let setting = self.setting(lineage, Some(outcome));
        let messages_end = self.hear_at(
            context,
            place,
            &quiet,
            TurnRequest::MessagesEnd,
            elapsed_ns,
        );
        let ghost messages = self.model(*context);
        if let Err(code) = messages_end {
            assert(before.wound_up(
                messages,
                messages,
                messages,
                place as int,
                elapsed_ns,
                quiet,
                setting,
                Err(code),
            ));
            return Err(code);
        }
        if self.turns[place].pending_rejection_sequence.is_some() {
            assert(before.wound_up(
                messages,
                messages,
                messages,
                place as int,
                elapsed_ns,
                quiet,
                setting,
                Err("observation_result_transition_invalid"),
            ));
            return Err("observation_result_transition_invalid");
        }
        let thinking_ends = self.hear_at(
            context,
            place,
            &setting,
            TurnRequest::ThinkingEnds,
            elapsed_ns,
        );
        let ghost thinking = self.model(*context);
        if let Err(code) = thinking_ends {
            assert(before.wound_up(
                messages,
                thinking,
                thinking,
                place as int,
                elapsed_ns,
                quiet,
                setting,
                Err(code),
            ));
            return Err(code);
        }
        let tools_end = self.hear_at(context, place, &setting, TurnRequest::ToolsEnd, elapsed_ns);
        let ghost tools = self.model(*context);
        assert(before.wound_up(
            messages,
            thinking,
            tools,
            place as int,
            elapsed_ns,
            quiet,
            setting,
            crate::turn_bridge::without_count(tools_end),
        ));
        if let Err(code) = tools_end {
            return Err(code);
        }
        self.turns.remove(place);
        assert(self.model(*context) =~= BridgeModel {
            turns: tools.turns.remove(place as int),
            ..tools
        });
        Ok(())
    }

    /// Takes the end of a turn.
    pub fn turn_terminal<A: SpanEventAdmission>(
        &mut self,
        context: &mut DiagnosticRunContext<A>,
        acts: &ActRegistry,
        turn: &AgentTurnDiagnosticMetadata,
        outcome: AgentTurnDiagnosticOutcome,
    ) -> (result: Result<(), &'static str>)
        requires
            acts.wf(),
        ensures
            final(context).stays_witnessed(*old(context)),
            final(self).ports.stays_witnessed(old(self).ports),
            final(self).run == old(self).run,
            result is Ok ==> result == Ok::<(), &'static str>(()),
            old(self).model(*old(context)).observed_end(
                final(self).model(*final(context)),
                *acts,
                *turn,
                outcome,
                result,
            ),
    {
        if self.find_turn(turn.identity.act_id.as_str()).is_none() {
            return Ok(());
        }
        let ghost before = self.model(*context);
        let elapsed_ns = match context.read_clock() {
            Some(elapsed_ns) => elapsed_ns,
            None => return Err("observation_clock_failed"),
        };
        assert(self.model(*context) =~= before.with_reading(context.readings().last()));
        let (place, lineage) = match self.enter_turn(
            &*context,
            acts,
            &turn.identity,
            turn.session_generation,
        ) {
            Ok(entered) => entered,
            Err(code) => return Err(code),
        };
        self.wind_up(context, place, &lineage, elapsed_ns, outcome)
    }
}

/// What the agent runtime tells of a session.
#[derive(Debug, PartialEq, Eq)]
pub enum SessionNews {
    Opening(SessionNotice),
    OpeningAttempt(SessionNotice),
    Ready(SessionNotice),
    Broken { broken: SessionNotice, error_code: &'static str },
    Closing(SessionNotice),
    Closed(SessionNotice),
}

impl SessionNews {
    pub open spec fn spec_notice(self) -> SessionNotice {
        match self {
            SessionNews::Opening(notice) => notice,
            SessionNews::OpeningAttempt(notice) => notice,
            SessionNews::Ready(notice) => notice,
            SessionNews::Broken { broken, .. } => broken,
            SessionNews::Closing(notice) => notice,
            SessionNews::Closed(notice) => notice,
        }
    }

    pub fn notice(&self) -> (notice: &SessionNotice)
        ensures
            *notice == self.spec_notice(),
    {
        match self {
            SessionNews::Opening(notice) => notice,
            SessionNews::OpeningAttempt(notice) => notice,
            SessionNews::Ready(notice) => notice,
            SessionNews::Broken { broken, .. } => broken,
            SessionNews::Closing(notice) => notice,
            SessionNews::Closed(notice) => notice,
        }
    }
}

impl<P> CanonicalObservationBridge<P> {
    /// Nothing has changed but the sessions.
    pub open spec fn keeps_all_but_sessions(self, after: Self) -> bool {
        &&& after.turns == self.turns
        &&& after.ports == self.ports
        &&& after.latest_context == self.latest_context
        &&& after.next_tool_id == self.next_tool_id
    }

    /// What news does to a session that is known.
    pub open spec fn session_moves<A: SpanEventAdmission>(
        session: SessionProjection,
        session_after: SessionProjection,
        context: DiagnosticRunContext<A>,
        context_after: DiagnosticRunContext<A>,
        news: SessionNews,
        result: Result<(), &'static str>,
    ) -> bool {
        match news {
            SessionNews::Opening(_) => {
                &&& result == Err::<(), &'static str>(crate::session_bridge::invalid())
                &&& session_after == session
                &&& context_after == context
            },
            SessionNews::OpeningAttempt(notice) => session.on_attempt(
                session_after,
                context,
                context_after,
                notice,
                result,
            ),
            SessionNews::Ready(notice) => session.on_ready(
                session_after,
                context,
                context_after,
                notice.metadata,
                result,
            ),
            SessionNews::Broken { broken, error_code } => session.on_broken(
                session_after,
                context,
                context_after,
                broken,
                error_code,
                result,
            ),
            SessionNews::Closing(notice) => session.on_closing(
                session_after,
                context,
                context_after,
                notice,
                result,
            ),
            SessionNews::Closed(notice) => session.on_closed(
                session_after,
                context,
                context_after,
                notice.metadata,
                result,
            ),
        }
    }

    /// A session that was not known begins.
    pub open spec fn session_begins<A: SpanEventAdmission>(
        self,
        after: Self,
        context: DiagnosticRunContext<A>,
        context_after: DiagnosticRunContext<A>,
        notice: SessionNotice,
        result: Result<(), &'static str>,
    ) -> bool {
        match result {
            Err(code) => {
                &&& SessionProjection::begins(context, context_after, notice, Err(code))
                &&& after.sessions@ == self.sessions@
            },
            Ok(()) => {
                &&& SessionProjection::begins(
                    context,
                    context_after,
                    notice,
                    Ok(after.sessions@.last()),
                )
                &&& after.sessions@ =~= self.sessions@.push(after.sessions@.last())
            },
        }
    }

    /// What came of news of a session. Only a session that opens may be new.
    pub open spec fn on_session<A: SpanEventAdmission>(
        self,
        after: Self,
        context: DiagnosticRunContext<A>,
        context_after: DiagnosticRunContext<A>,
        news: SessionNews,
        result: Result<(), &'static str>,
    ) -> bool {
        &&& self.keeps_all_but_sessions(after)
        &&& match session_from(self.sessions@, news.spec_notice().metadata.context, 0) {
            Some(place) => {
                &&& after.sessions@ =~= self.sessions@.update(place, after.sessions@[place])
                &&& Self::session_moves(
                    self.sessions@[place],
                    after.sessions@[place],
                    context,
                    context_after,
                    news,
                    result,
                )
            },
            None => if news is Opening {
                self.session_begins(after, context, context_after, news.spec_notice(), result)
            } else {
                &&& result == Err::<(), &'static str>(crate::session_bridge::invalid())
                &&& after.sessions@ == self.sessions@
                &&& context_after == context
            },
        }
    }
}

impl<P: TurnPorts> CanonicalObservationBridge<P> {
    /// Takes news of a session.
    pub fn session_observed<A: SpanEventAdmission>(
        &mut self,
        context: &mut DiagnosticRunContext<A>,
        news: &SessionNews,
    ) -> (result: Result<(), &'static str>)
        ensures
            final(context).stays_witnessed(*old(context)),
            final(self).ports.stays_witnessed(old(self).ports),
            final(self).run == old(self).run,
            old(self).on_session(*final(self), *old(context), *final(context), *news, result),
    {
        let place = match self.find_session(&news.notice().metadata.context) {
            Some(place) => place,
            None => {
                return match news {
                    SessionNews::Opening(notice) => match SessionProjection::begin(
                        context,
                        notice,
                    ) {
                        Ok(session) => {
                            self.sessions.push(session);
                            Ok(())
                        },
                        Err(code) => Err(code),
                    },
                    _ => Err("observation_session_transition_invalid"),
                };
            },
        };
        match news {
            SessionNews::Opening(_) => Err("observation_session_transition_invalid"),
            SessionNews::OpeningAttempt(notice) => self.sessions[place].opening_attempt(
                context,
                notice,
            ),
            SessionNews::Ready(notice) => self.sessions[place].become_ready(
                context,
                &notice.metadata,
            ),
            SessionNews::Broken { broken, error_code } => self.sessions[place].become_broken(
                context,
                broken,
                *error_code,
            ),
            SessionNews::Closing(notice) => self.sessions[place].begin_closing(context, notice),
            SessionNews::Closed(notice) => self.sessions[place].become_closed(
                context,
                &notice.metadata,
            ),
        }
    }

    /// Keeps a payload of a tool call for the event that it goes with, where acts have sinks.
    pub fn payload_observed<A: SpanEventAdmission>(
        &mut self,
        context: &DiagnosticRunContext<A>,
        acts: &ActRegistry,
        turn: &AgentTurnDiagnosticMetadata,
        payload: PendingToolPayload,
    ) -> (result: Result<ObservationDisposition, &'static str>)
        requires
            acts.wf(),
        ensures
            final(self).ports == old(self).ports,
            final(self).run == old(self).run,
            old(self).model(*context).observed_payload(
                final(self).model(*context),
                *acts,
                *turn,
                payload,
                result,
            ),
    {
        if self.ports.subscribers {
            let (place, _) = match self.enter_turn(
                context,
                acts,
                &turn.identity,
                turn.session_generation,
            ) {
                Ok(entered) => entered,
                Err(code) => return Err(code),
            };
            let ghost entered = self.model(*context);
            self.turns[place].pending_tool_payloads.push(payload);
            assert(self.model(*context) =~= entered.with_payload(place as int, payload));
        }
        Ok(ObservationDisposition::SinkOnlyPayload)
    }

    /// Takes what the agent runtime reports of a turn or a session.
    pub fn observe_candidate<A: SpanEventAdmission>(
        &mut self,
        context: &mut DiagnosticRunContext<A>,
        acts: &ActRegistry,
        candidate: AgentCandidate,
    ) -> (result: Result<ObservationDisposition, &'static str>)
        requires
            acts.wf(),
        ensures
            final(context).stays_witnessed(*old(context)),
            final(self).ports.stays_witnessed(old(self).ports),
            final(self).run == old(self).run,
            old(self).model(*old(context)).observed_candidate(
                final(self).model(*final(context)),
                *acts,
                candidate,
                result,
            ),
    {
        match candidate {
            AgentCandidate::TurnUsage => Ok(ObservationDisposition::DeferredUsage),
            AgentCandidate::ToolPayload { turn, payload } => self.payload_observed(
                &*context,
                acts,
                &turn,
                payload,
            ),
            AgentCandidate::MessageChunk { turn } => self.turn_observed(
                context,
                acts,
                &turn,
                TurnRequest::MessageChunk,
            ),
            AgentCandidate::Thinking { turn } => self.turn_observed(
                context,
                acts,
                &turn,
                TurnRequest::Thinking,
            ),
            AgentCandidate::Tool { turn } => self.turn_observed(
                context,
                acts,
                &turn,
                TurnRequest::Tool,
            ),
            AgentCandidate::Plan { owner, entries, truncated } => self.plan_observed(
                context,
                acts,
                &owner,
                entries,
                truncated,
            ),
            AgentCandidate::Occupancy { owner, occupancy } => self.context_observed(
                context,
                acts,
                &owner,
                occupancy,
                None,
            ),
            AgentCandidate::OccupancySample { owner, occupancy, observed_elapsed_ns } => {
                self.context_observed(context, acts, &owner, occupancy, Some(observed_elapsed_ns))
            },
            AgentCandidate::Cost(cost) => self.cost_observed(context, cost),
            AgentCandidate::Result { identity, session_generation, result } => {
                self.result_observed(context, acts, &identity, session_generation, result)
            },
            AgentCandidate::Unsupported => Err("observation_candidate_unsupported"),
        }
    }
}

impl BridgeModel {
    /// A payload waits in the turn at `place`.
    pub open spec fn with_payload(self, place: int, payload: PendingToolPayload) -> BridgeModel {
        self.with_turn(
            place,
            TurnModel {
                pending_tool_payloads: self.turns[place].pending_tool_payloads.push(payload),
                ..self.turns[place]
            },
        )
    }

    /// A payload was kept for its event, where acts have sinks.
    pub open spec fn observed_payload(
        self,
        after: BridgeModel,
        acts: ActRegistry,
        turn: AgentTurnDiagnosticMetadata,
        payload: PendingToolPayload,
        result: Result<ObservationDisposition, &'static str>,
    ) -> bool {
        let kept = Ok::<ObservationDisposition, &'static str>(
            ObservationDisposition::SinkOnlyPayload,
        );
        if !self.subscribers {
            result == kept && after =~= self
        } else {
            match self.entered(acts, turn.identity, turn.session_generation) {
                Err(code) => {
                    &&& result == Err::<ObservationDisposition, &'static str>(code)
                    &&& after =~= self
                },
                Ok((entered, place, _)) => {
                    result == kept && after =~= entered.with_payload(place, payload)
                },
            }
        }
    }

    /// What came of a report of a turn or a session.
    pub open spec fn observed_candidate(
        self,
        after: BridgeModel,
        acts: ActRegistry,
        candidate: AgentCandidate,
        result: Result<ObservationDisposition, &'static str>,
    ) -> bool {
        match candidate {
            AgentCandidate::TurnUsage => {
                &&& result == Ok::<ObservationDisposition, &'static str>(
                    ObservationDisposition::DeferredUsage,
                )
                &&& after =~= self
            },
            AgentCandidate::ToolPayload { turn, payload } => self.observed_payload(
                after,
                acts,
                turn,
                payload,
                result,
            ),
            AgentCandidate::MessageChunk { turn } => self.observed_turn(
                after,
                acts,
                turn,
                TurnRequest::MessageChunk,
                result,
            ),
            AgentCandidate::Thinking { turn } => self.observed_turn(
                after,
                acts,
                turn,
                TurnRequest::Thinking,
                result,
            ),
            AgentCandidate::Tool { turn } => self.observed_turn(
                after,
                acts,
                turn,
                TurnRequest::Tool,
                result,
            ),
            AgentCandidate::Plan { owner, entries, truncated } => self.observed_plan(
                after,
                acts,
                owner,
                EventBody::AgentPlanSnapshot { entries, truncated },
                result,
            ),
            AgentCandidate::Occupancy { owner, occupancy } => self.observed_context(
                after,
                acts,
                owner,
                occupancy,
                None,
                result,
            ),
            AgentCandidate::OccupancySample { owner, occupancy, observed_elapsed_ns } => {
                self.observed_context(
                    after,
                    acts,
                    owner,
                    occupancy,
                    Some(observed_elapsed_ns),
                    result,
                )
            },
            AgentCandidate::Cost(cost) => self.observed_cost(after, cost, result),
            AgentCandidate::Result { identity, session_generation, result: step } => {
                self.observed_result(after, acts, identity, session_generation, step, result)
            },
            AgentCandidate::Unsupported => {
                &&& result == Err::<ObservationDisposition, &'static str>(
                    "observation_candidate_unsupported",
                )
                &&& after =~= self
            },
        }
    }
}

/// What the agent runtime observes.
pub enum AgentDiagnosticObservation {
    Session(SessionNews),
    Turn(AgentTurnObservation),
    Candidate(AgentCandidate),
}

impl<P: TurnPorts> CanonicalObservationBridge<P> {
    /// What came of the end of a turn: what is left of it is recorded first, and then the act hears
    /// of it. `between` is the state of the runs in between.
    pub open spec fn on_turn_end<A: SpanEventAdmission>(
        self,
        after: Self,
        acts: ActRegistry,
        acts_after: ActRegistry,
        runs: DiagnosticRuns<A>,
        between: DiagnosticRuns<A>,
        runs_after: DiagnosticRuns<A>,
        run: usize,
        observation: AgentTurnObservation,
        outcome: AgentTurnDiagnosticOutcome,
        result: Result<ObservationDisposition, &'static str>,
    ) -> bool {
        let context = runs@[run as int].context;
        let context_between = between@[run as int].context;
        &&& between@ =~= DiagnosticRuns::reported_at(runs@, run, context_between)
        &&& self.model(context).observed_end(
            after.model(context_between),
            acts,
            observation.spec_metadata(),
            outcome,
            outcome_of(result),
        )
        &&& match result {
            Err(_) => runs_after@ == between@ && acts_after == acts,
            Ok(disposition) => {
                &&& disposition == ObservationDisposition::Admitted
                &&& acts.told(acts_after, between, runs_after, observation)
            },
        }
    }

    /// What came of an observation.
    pub open spec fn on_observation<A: SpanEventAdmission>(
        self,
        after: Self,
        acts: ActRegistry,
        acts_after: ActRegistry,
        runs: DiagnosticRuns<A>,
        runs_after: DiagnosticRuns<A>,
        observation: AgentDiagnosticObservation,
        result: Result<ObservationDisposition, &'static str>,
    ) -> bool {
        let run = self.run;
        let context = runs@[run as int].context;
        let context_after = runs_after@[run as int].context;
        match observation {
            AgentDiagnosticObservation::Session(news) => {
                &&& acts_after == acts
                &&& runs_after@ =~= DiagnosticRuns::reported_at(runs@, run, context_after)
                &&& self.on_session(after, context, context_after, news, outcome_of(result))
                &&& result is Ok ==> result->Ok_0 == ObservationDisposition::Admitted
            },
            AgentDiagnosticObservation::Candidate(candidate) => {
                &&& acts_after == acts
                &&& runs_after@ =~= DiagnosticRuns::reported_at(runs@, run, context_after)
                &&& self.model(context).observed_candidate(
                    after.model(context_after),
                    acts,
                    candidate,
                    result,
                )
            },
            AgentDiagnosticObservation::Turn(turn) => match turn {
                AgentTurnObservation::Terminal { outcome, .. } => exists|
                    between: DiagnosticRuns<A>,
                | #[trigger]
                    self.on_turn_end(
                        after,
                        acts,
                        acts_after,
                        runs,
                        between,
                        runs_after,
                        run,
                        turn,
                        outcome,
                        result,
                    ),
                _ => {
                    &&& result == Ok::<ObservationDisposition, &'static str>(
                        ObservationDisposition::Buffered,
                    )
                    &&& after == self
                    &&& acts.told(acts_after, runs, runs_after, turn)
                },
            },
        }
    }

    /// Takes what the agent runtime observes.
    pub fn observe<A: SpanEventAdmission>(
        &mut self,
        acts: &mut ActRegistry,
        runs: &mut DiagnosticRuns<A>,
        observation: AgentDiagnosticObservation,
    ) -> (result: Result<ObservationDisposition, &'static str>)
        requires
            old(acts).wf(),
            old(acts).fits(*old(runs)),
            old(self).run < old(runs)@.len(),
        ensures
            final(runs)@[old(self).run as int].context.stays_witnessed(
                old(runs)@[old(self).run as int].context,
            ),
            final(self).ports.stays_witnessed(old(self).ports),
            final(self).run == old(self).run,
            final(acts).wf(),
            final(acts).fits(*final(runs)),
            final(runs)@.len() == old(runs)@.len(),
            old(self).on_observation(
                *final(self),
                *old(acts),
                *final(acts),
                *old(runs),
                *final(runs),
                observation,
                result,
            ),
    {
        let run: usize = self.run;
        match observation {
            AgentDiagnosticObservation::Session(news) => {
                match self.session_observed(&mut runs.runs[run].context, &news) {
                    Ok(()) => Ok(ObservationDisposition::Admitted),
                    Err(code) => Err(code),
                }
            },
            AgentDiagnosticObservation::Candidate(candidate) => self.observe_candidate(
                &mut runs.runs[run].context,
                &*acts,
                candidate,
            ),
            AgentDiagnosticObservation::Turn(turn) => match &turn {
                AgentTurnObservation::Terminal { metadata, outcome, .. } => {
                    let ended = self.turn_terminal(
                        &mut runs.runs[run].context,
                        &*acts,
                        metadata,
                        *outcome,
                    );
                    let ghost between = *runs;
                    if let Err(code) = ended {
                        assert(old(self).on_turn_end(
                            *self,
                            *old(acts),
                            *acts,
                            *old(runs),
                            between,
                            *runs,
                            run,
                            turn,
                            *outcome,
                            Err(code),
                        ));
                        return Err(code);
                    }
                    acts.observe_agent(runs, &turn);
                    assert(old(self).on_turn_end(
                        *self,
                        *old(acts),
                        *acts,
                        *old(runs),
                        between,
                        *runs,
                        run,
                        turn,
                        *outcome,
                        Ok(ObservationDisposition::Admitted),
                    ));
                    Ok(ObservationDisposition::Admitted)
                },
                _ => {
                    acts.observe_agent(runs, &turn);
                    Ok(ObservationDisposition::Buffered)
                },
            },
        }
    }
}

/// The place of a session is that of the first with its key.
proof fn session_is_found_first(
    sessions: Seq<SessionProjection>,
    key: AgentSessionDiagnosticContext,
    from: int,
)
    requires
        0 <= from,
    ensures
        match session_from(sessions, key, from) {
            Some(place) => {
                &&& from <= place < sessions.len()
                &&& sessions[place].key.is(key)
                &&& forall|j: int| from <= j < place ==> !(#[trigger] sessions[j]).key.is(key)
            },
            None => forall|j: int|
                from <= j < sessions.len() ==> !(#[trigger] sessions[j]).key.is(key),
        },
    decreases sessions.len() - from,
{
    if from < sessions.len() && !sessions[from].key.is(key) {
        session_is_found_first(sessions, key, from + 1);
    }
}

proof fn turn_is_found_first(turns: Seq<TurnModel>, act_id: Seq<char>, from: int)
    requires
        0 <= from,
    ensures
        match turn_from(turns, act_id, from) {
            Some(place) => {
                &&& from <= place < turns.len()
                &&& turns[place].identity.act_id@ == act_id
                &&& forall|j: int|
                    from <= j < place ==> (#[trigger] turns[j]).identity.act_id@ != act_id
            },
            None => forall|j: int|
                from <= j < turns.len() ==> (#[trigger] turns[j]).identity.act_id@ != act_id,
        },
    decreases turns.len() - from,
{
    if from < turns.len() && turns[from].identity.act_id@ != act_id {
        turn_is_found_first(turns, act_id, from + 1);
    }
}

proof fn context_is_found_first(
    contexts: Seq<CarriedContext>,
    key: AgentSessionDiagnosticContext,
    from: int,
)
    requires
        0 <= from,
    ensures
        match context_from(contexts, key, from) {
            Some(place) => {
                &&& from <= place < contexts.len()
                &&& contexts[place].key.is(key)
                &&& forall|j: int| from <= j < place ==> !(#[trigger] contexts[j]).key.is(key)
            },
            None => forall|j: int|
                from <= j < contexts.len() ==> !(#[trigger] contexts[j]).key.is(key),
        },
    decreases contexts.len() - from,
{
    if from < contexts.len() && !contexts[from].key.is(key) {
        context_is_found_first(contexts, key, from + 1);
    }
}

/// A fact of a session's actor in a generation.
pub open spec fn is_of_session(
    scope: DiagnosticScope,
    session: AgentSessionDiagnosticContext,
    generation: Option<u64>,
) -> bool {
    &&& scope.actor_id is Some && scope.actor_id->0.text == session.actor_id
    &&& scope.session_generation == generation
    &&& scope.scene_id is None && scope.cue_id is None && scope.effect_id is None
    &&& scope.act_id is None && scope.tool_call_id is None
}

/// What is known of a fact of a turn or a session, however it was found.
proof fn owned_fact(
    model: BridgeModel,
    after: BridgeModel,
    acts: ActRegistry,
    owner: ObservationOwner,
    elapsed_ns: u64,
    body: EventBody,
    record: OwnedRecord,
)
    requires
        model.owned(after, acts, owner, elapsed_ns, body, record),
    ensures
        after.latest_context == model.latest_context,
        after.readings == model.readings,
        record matches OwnedRecord::Recorded { scope, sequence } ==> {
            let fact = after.trace.last();
            &&& after.trace.len() > model.trace.len()
            &&& fact.candidate.body == body
            &&& !fact.candidate.unheard
            &&& fact.candidate.scope == scope
            &&& fact.candidate.cause is Some && fact.candidate.cause->0.relation is FollowsFrom
            &&& fact.elapsed == Ok::<u64, TimeError>(elapsed_ns)
            &&& fact.reply is Ok && fact.reply->Ok_0 == sequence
        },
        owner matches ObservationOwner::Session(notice) ==> {
            let known = exists|j: int|
                0 <= j < model.sessions.len() && (#[trigger] model.sessions[j]).key.is(
                    notice.metadata.context,
                );
            let fact = after.trace.last();
            &&& after.turns == model.turns
            &&& after.calls == model.calls
            &&& known && notice.actor_id_valid ==> {
                &&& after.trace == model.trace.push(fact)
                &&& record is Recorded <==> fact.reply is Ok
                &&& is_of_session(
                    fact.candidate.scope,
                    notice.metadata.context,
                    notice.metadata.generation,
                )
                &&& fact.candidate.body == body
                &&& exists|j: int|
                    0 <= j < model.sessions.len() && (#[trigger] model.sessions[j]).key.is(
                        notice.metadata.context,
                    ) && fact.candidate.cause == Some(
                        CausalLink {
                            sequence: model.sessions[j].last_sequence,
                            relation: crate::event::CausalRelation::FollowsFrom,
                        },
                    ) && (fact.reply matches Ok(sequence) ==> after.sessions[j].last_sequence
                        == sequence)
            }
            &&& !(known && notice.actor_id_valid) ==> after.trace == model.trace && record
                is Refused
        },
        owner matches ObservationOwner::Turn(turn) ==> (record matches OwnedRecord::Recorded {
            scope,
            sequence,
        } ==> {
            &&& acts.spec_lineage(turn.identity.act_id@) is Some
            &&& scope == acts.spec_lineage(turn.identity.act_id@)->0.event_scope
            &&& scope.session_generation == Some(turn.session_generation)
            &&& after.sessions == model.sessions
            &&& exists|j: int|
                0 <= j < after.turns.len() && (#[trigger] after.turns[j]).identity.is(turn.identity)
                    && after.turns[j].session_generation == turn.session_generation
                    && after.turns[j].last_sequence == sequence
        }),
{
    match owner {
        ObservationOwner::Session(notice) => {
            session_is_found_first(model.sessions, notice.metadata.context, 0);
        },
        ObservationOwner::Turn(turn) => {
            turn_is_found_first(model.turns, turn.identity.act_id@, 0);
        },
    }
    if !(record is Refused && model.located(
        after,
        acts,
        owner,
        elapsed_ns,
        Err::<Located, &'static str>(record->code),
    )) {
        let (found, located) = choose|found: BridgeModel, located: Located| #[trigger]
            model.found_and_recorded(found, after, acts, owner, located, elapsed_ns, body, record);
        match owner {
            ObservationOwner::Session(notice) => {
                let place = session_from(model.sessions, notice.metadata.context, 0)->0;
                assert(model.sessions[place].key.is(notice.metadata.context));
            },
            ObservationOwner::Turn(turn) => {
                let (entered, place, lineage) = model.entered(
                    acts,
                    turn.identity,
                    turn.session_generation,
                )->Ok_0;
                let setting = setting_of(lineage, None, model.subscribers);
                crate::turn_bridge::hearing_asks_once_and_only_adds(
                    entered.progress_at(place),
                    found.progress_at(place),
                    TurnRequest::OtherThanMessage,
                    elapsed_ns,
                    setting,
                    Ok(()),
                );
                if record is Recorded {
                    assert(after.turns[place].identity.is(turn.identity));
                }
            },
        }
    }
}

/// A plan is told as it is: its entries, in their order, and whether it was cut. It is told under
/// the act that the turn is of, or of the session's actor, and changes nothing that is known of a
/// context.
pub proof fn plan_is_told_as_it_is(
    model: BridgeModel,
    after: BridgeModel,
    acts: ActRegistry,
    owner: ObservationOwner,
    entries: Vec<AgentPlanEntry>,
    truncated: bool,
    result: Result<ObservationDisposition, &'static str>,
)
    requires
        model.observed_candidate(
            after,
            acts,
            (AgentCandidate::Plan { owner, entries, truncated }),
            result,
        ),
    ensures
        ({
            let fact = after.trace.last();
            &&& after.latest_context == model.latest_context
            &&& after.readings.last() is Err ==> result is Err && after.trace == model.trace
            &&& result matches Ok(disposition) ==> {
                &&& disposition is Admitted
                &&& after.trace.len() > model.trace.len()
                &&& fact.candidate.body == (EventBody::AgentPlanSnapshot { entries, truncated })
                &&& fact.elapsed == after.readings.last()
                &&& fact.reply is Ok
                &&& owner matches ObservationOwner::Turn(turn) ==> fact.candidate.scope
                    == acts.spec_lineage(turn.identity.act_id@)->0.event_scope
            }
            &&& owner matches ObservationOwner::Session(notice) ==> {
                let known = exists|j: int|
                    0 <= j < model.sessions.len() && (#[trigger] model.sessions[j]).key.is(
                        notice.metadata.context,
                    );
                &&& known && notice.actor_id_valid && after.readings.last() is Ok ==> {
                    &&& after.trace == model.trace.push(fact)
                    &&& result is Ok <==> fact.reply is Ok
                    &&& is_of_session(
                        fact.candidate.scope,
                        notice.metadata.context,
                        notice.metadata.generation,
                    )
                }
                &&& !(known && notice.actor_id_valid) ==> result is Err && after.trace
                    == model.trace
            }
        }),
{
    let read = model.with_reading(after.readings.last());
    if let Ok(elapsed_ns) = after.readings.last() {
        let body = EventBody::AgentPlanSnapshot { entries, truncated };
        let record = choose|record: OwnedRecord| #[trigger]
            read.owned(after, acts, owner, elapsed_ns, body, record) && result == admitted(record);
        owned_fact(read, after, acts, owner, elapsed_ns, body, record);
    }
}

/// How full a context is, is told with the numbers that came, as the provider's own and without a
/// cost, and is kept for the session of its owner, in its generation, with when it was observed:
/// when it says, else when it came. What is known of other sessions stays.
proof fn context_is_told_and_kept(
    model: BridgeModel,
    after: BridgeModel,
    acts: ActRegistry,
    owner: ObservationOwner,
    occupancy: ContextOccupancy,
    observed_elapsed_ns: Option<u64>,
    result: Result<ObservationDisposition, &'static str>,
)
    requires
        model.observed_context(after, acts, owner, occupancy, observed_elapsed_ns, result),
    ensures
        context_told(model, after, acts, owner, occupancy, result),
        result is Ok ==> exists|k: int|
            0 <= k < after.latest_context.len() && keeps_context(
                #[trigger] after.latest_context[k],
                after.trace.last(),
                owner,
                occupancy,
                if observed_elapsed_ns is Some {
                    observed_elapsed_ns->0
                } else {
                    after.readings.last()->Ok_0
                },
            ),
{
    let read = model.with_reading(after.readings.last());
    if let Ok(elapsed_ns) = after.readings.last() {
        let observed = observed_at(observed_elapsed_ns, elapsed_ns);
        let (recorded, record) = choose|recorded: BridgeModel, record: OwnedRecord|
            {
                &&& #[trigger] read.sampled(
                    recorded,
                    after,
                    acts,
                    owner,
                    occupancy,
                    elapsed_ns,
                    observed,
                    record,
                )
                &&& result == admitted(record)
            };
        let body = BridgeModel::occupancy_body(occupancy);
        owned_fact(read, recorded, acts, owner, elapsed_ns, body, record);
        if let OwnedRecord::Recorded { scope, sequence } = record {
            let kept = CarriedContext {
                key: BridgeModel::session_of(owner).0,
                generation: BridgeModel::session_of(owner).1,
                scope,
                occupancy,
                observed_elapsed_ns: observed,
                sequence,
            };
            context_is_found_first(recorded.latest_context, kept.key, 0);
            let place = match context_from(recorded.latest_context, kept.key, 0) {
                Some(place) => place,
                None => recorded.latest_context.len() as int,
            };
            assert(after.latest_context[place] == kept);
            assert(keeps_context(
                after.latest_context[place],
                after.trace.last(),
                owner,
                occupancy,
                observed,
            ));
        }
    }
}

/// What is kept of a context that was told in `fact`.
pub open spec fn keeps_context(
    kept: CarriedContext,
    fact: Attempt,
    owner: ObservationOwner,
    occupancy: ContextOccupancy,
    observed_elapsed_ns: u64,
) -> bool {
    &&& owner matches ObservationOwner::Turn(turn) ==> kept.key == turn.identity.context
        && kept.generation == Some(turn.session_generation)
    &&& owner matches ObservationOwner::Session(notice) ==> kept.key == notice.metadata.context
        && kept.generation == notice.metadata.generation
    &&& kept.scope == fact.candidate.scope
    &&& fact.reply == Ok::<u64, crate::context::DiagnosticProducerError>(kept.sequence)
    &&& kept.occupancy.used_tokens == occupancy.used_tokens
    &&& kept.occupancy.window_tokens == occupancy.window_tokens
    &&& kept.observed_elapsed_ns == observed_elapsed_ns
}

/// What is told of a context, and what stays known.
pub open spec fn context_told(
    model: BridgeModel,
    after: BridgeModel,
    acts: ActRegistry,
    owner: ObservationOwner,
    occupancy: ContextOccupancy,
    result: Result<ObservationDisposition, &'static str>,
) -> bool {
    let fact = after.trace.last();
    let key = match owner {
        ObservationOwner::Turn(turn) => turn.identity.context,
        ObservationOwner::Session(notice) => notice.metadata.context,
    };
    &&& result is Err ==> after.latest_context == model.latest_context
    &&& after.readings.last() is Err ==> result is Err && after.trace == model.trace
    &&& forall|k: int|
        0 <= k < model.latest_context.len() ==> {
            &&& k < after.latest_context.len()
            &&& (#[trigger] model.latest_context[k]).key.is(key) || after.latest_context[k]
                == model.latest_context[k]
        }
    &&& result matches Ok(disposition) ==> {
        &&& disposition is Admitted
        &&& after.trace.len() > model.trace.len()
        &&& fact.elapsed == after.readings.last()
        &&& fact.reply is Ok
        &&& owner matches ObservationOwner::Turn(turn) ==> fact.candidate.scope
            == acts.spec_lineage(turn.identity.act_id@)->0.event_scope
        &&& fact.candidate.body matches EventBody::ContextUsageSampled(told) && {
            &&& told.used_tokens == occupancy.used_tokens
            &&& told.window_tokens == occupancy.window_tokens
            &&& told.cost_amount is None && told.cost_currency is None
            &&& told.origin is Provider
            &&& told.observed_elapsed_ns is None
        }
    }
    &&& owner matches ObservationOwner::Session(notice) ==> {
        let known = exists|j: int|
            0 <= j < model.sessions.len() && (#[trigger] model.sessions[j]).key.is(key);
        &&& known && notice.actor_id_valid && after.readings.last() is Ok ==> {
            &&& after.trace == model.trace.push(fact)
            &&& result is Ok <==> fact.reply is Ok
            &&& is_of_session(fact.candidate.scope, key, notice.metadata.generation)
        }
        &&& !(known && notice.actor_id_valid) ==> result is Err && after.trace == model.trace
    }
}

/// How full a context is, is told with the numbers that came and kept as observed when it came.
pub proof fn occupancy_is_told_and_kept(
    model: BridgeModel,
    after: BridgeModel,
    acts: ActRegistry,
    owner: ObservationOwner,
    occupancy: ContextOccupancy,
    result: Result<ObservationDisposition, &'static str>,
)
    requires
        model.observed_candidate(
            after,
            acts,
            (AgentCandidate::Occupancy { owner, occupancy }),
            result,
        ),
    ensures
        context_told(model, after, acts, owner, occupancy, result),
        result is Ok ==> exists|k: int|
            0 <= k < after.latest_context.len() && keeps_context(
                #[trigger] after.latest_context[k],
                after.trace.last(),
                owner,
                occupancy,
                after.readings.last()->Ok_0,
            ),
{
    context_is_told_and_kept(model, after, acts, owner, occupancy, None, result);
}

/// How full a context was, is told with the numbers that came and kept as observed when it says.
pub proof fn sampled_occupancy_is_told_and_kept(
    model: BridgeModel,
    after: BridgeModel,
    acts: ActRegistry,
    owner: ObservationOwner,
    occupancy: ContextOccupancy,
    observed_elapsed_ns: u64,
    result: Result<ObservationDisposition, &'static str>,
)
    requires
        model.observed_candidate(
            after,
            acts,
            (AgentCandidate::OccupancySample { owner, occupancy, observed_elapsed_ns }),
            result,
        ),
    ensures
        context_told(model, after, acts, owner, occupancy, result),
        result is Ok ==> exists|k: int|
            0 <= k < after.latest_context.len() && keeps_context(
                #[trigger] after.latest_context[k],
                after.trace.last(),
                owner,
                occupancy,
                observed_elapsed_ns,
            ),
{
    context_is_told_and_kept(
        model,
        after,
        acts,
        owner,
        occupancy,
        Some(observed_elapsed_ns),
        result,
    );
}

/// A cost is told with the amount and the currency that came. Where a context of that session is
/// known, in the same generation, it is carried forward with it: its numbers, its scope, when it
/// was observed, and the fact that told it as what this follows on. Otherwise the cost stands
/// alone, under the session's actor, and follows on what the session told last, where the session
/// is known.
pub proof fn cost_carries_the_context_forward(
    model: BridgeModel,
    after: BridgeModel,
    acts: ActRegistry,
    cost: CostCandidate,
    result: Result<ObservationDisposition, &'static str>,
)
    requires
        model.observed_candidate(after, acts, AgentCandidate::Cost(cost), result),
    ensures
        ({
            let fact = after.trace.last();
            let told = fact.candidate.body->ContextUsageSampled_0;
            let relation = crate::event::CausalRelation::FollowsFrom;
            &&& after.latest_context == model.latest_context
            &&& after.turns == model.turns
            &&& after.readings.last() is Err ==> result is Err && after.trace == model.trace
            &&& after.readings.last() is Ok && cost.actor_id_valid ==> {
                &&& after.trace == model.trace.push(fact)
                &&& fact.elapsed == after.readings.last()
                &&& result is Ok <==> fact.reply is Ok
                &&& result matches Ok(disposition) ==> disposition is Admitted
                &&& fact.candidate.body is ContextUsageSampled
                &&& told.cost_amount == Some(cost.amount)
                &&& told.cost_currency == Some(cost.currency)
            }
            &&& forall|k: int|
                {
                    &&& 0 <= k < model.latest_context.len()
                    &&& model.latest_context[k].key.is(cost.session)
                    &&& forall|j: int|
                        0 <= j < k ==> !(#[trigger] model.latest_context[j]).key.is(cost.session)
                    &&& model.latest_context[k].generation == cost.session_generation
                    &&& after.readings.last() is Ok
                } ==> {
                    let known = #[trigger] model.latest_context[k];
                    &&& after.trace == model.trace.push(fact)
                    &&& fact.candidate.scope == known.scope
                    &&& fact.candidate.cause == Some(
                        CausalLink { sequence: known.sequence, relation },
                    )
                    &&& told.used_tokens == known.occupancy.used_tokens
                    &&& told.window_tokens == known.occupancy.window_tokens
                    &&& told.origin is CarriedForward
                    &&& told.observed_elapsed_ns == Some(known.observed_elapsed_ns)
                }
            &&& (after.readings.last() is Ok && cost.actor_id_valid && forall|k: int|
                0 <= k < model.latest_context.len() ==> !((
                #[trigger] model.latest_context[k]).key.is(cost.session)
                    && model.latest_context[k].generation == cost.session_generation)) ==> {
                &&& is_of_session(fact.candidate.scope, cost.session, cost.session_generation)
                &&& told.used_tokens is None && told.window_tokens is None
                &&& told.origin is Provider
                &&& told.observed_elapsed_ns is None
                &&& fact.candidate.cause is None <==> (forall|j: int|
                    0 <= j < model.sessions.len() ==> !(#[trigger] model.sessions[j]).key.is(
                        cost.session,
                    ))
                &&& fact.candidate.cause is Some ==> exists|j: int|
                    0 <= j < model.sessions.len() && (#[trigger] model.sessions[j]).key.is(
                        cost.session,
                    ) && fact.candidate.cause == Some(
                        CausalLink { sequence: model.sessions[j].last_sequence, relation },
                    )
            }
            &&& fact.reply is Ok && result is Ok ==> forall|j: int|
                {
                    &&& 0 <= j < model.sessions.len()
                    &&& model.sessions[j].key.is(cost.session)
                    &&& forall|i: int|
                        0 <= i < j ==> !(#[trigger] model.sessions[i]).key.is(cost.session)
                } ==> (#[trigger] after.sessions[j]).last_sequence == fact.reply->Ok_0
        }),
{
    session_is_found_first(model.sessions, cost.session, 0);
    context_is_found_first(model.latest_context, cost.session, 0);
    if let Some(place) = context_from(model.latest_context, cost.session, 0) {
        assert forall|k: int|
            {
                &&& 0 <= k < model.latest_context.len()
                &&& model.latest_context[k].key.is(cost.session)
                &&& forall|j: int|
                    0 <= j < k ==> !(#[trigger] model.latest_context[j]).key.is(cost.session)
            } implies k == place by {
            if k < place {
                assert(!model.latest_context[k].key.is(cost.session));
            }
            if place < k {
                assert(!model.latest_context[place].key.is(cost.session));
            }
        }
    }
    if let Some(place) = session_from(model.sessions, cost.session, 0) {
        assert forall|k: int|
            {
                &&& 0 <= k < model.sessions.len()
                &&& model.sessions[k].key.is(cost.session)
                &&& forall|j: int|
                    0 <= j < k ==> !(#[trigger] model.sessions[j]).key.is(cost.session)
            } implies k == place by {
            if k < place {
                assert(!model.sessions[k].key.is(cost.session));
            }
            if place < k {
                assert(!model.sessions[place].key.is(cost.session));
            }
        }
    }
}

/// A step in the validation of a result is told as the moment of its name, with its detail, in the
/// turn and after what the turn told last; after a rejection, nothing but the number of rejections,
/// which follows on that rejection, is the act's, and is one more than before. Nothing else is
/// taken.
pub proof fn results_are_told_as_they_went(
    model: BridgeModel,
    after: BridgeModel,
    place: int,
    lineage: ActLineageSnapshot,
    elapsed_ns: u64,
    candidate: ResultCandidate,
    result: Result<ObservationDisposition, &'static str>,
)
    requires
        0 <= place < model.turns.len(),
        model.stepped_result(after, place, lineage, elapsed_ns, candidate, result),
    ensures
        ({
            let turn = model.turns[place];
            let turn_after = after.turns[place];
            let fact = after.trace.last();
            let relation = crate::event::CausalRelation::FollowsFrom;
            let taken = match candidate {
                ResultCandidate::Transition { kind, .. } => turn.pending_rejection_sequence is None
                    && (kind is ResultSubmitted || kind is ResultRejected || kind
                    is ResultRepairRequested || kind is ResultAccepted || kind is ResultMissing),
                ResultCandidate::Rejections { counter, value } => counter
                    is ResultValidationRejections && turn.pending_rejection_sequence is Some
                    && value == turn.last_rejection_count + 1,
                ResultCandidate::Neither => false,
            };
            &&& !taken ==> result is Err && after == model
            &&& taken ==> {
                &&& after.trace == model.trace.push(fact)
                &&& fact.elapsed == Ok::<u64, TimeError>(elapsed_ns)
                &&& result is Ok <==> fact.reply is Ok
                &&& result matches Ok(disposition) ==> disposition is Admitted
                &&& fact.reply is Ok ==> turn_after.last_sequence == fact.reply->Ok_0
                &&& fact.reply is Err ==> turn_after.last_sequence == turn.last_sequence
            }
            &&& taken ==> (candidate matches ResultCandidate::Transition { kind, detail } ==> {
                &&& fact.candidate.scope == lineage.event_scope
                &&& fact.candidate.cause == Some(
                    CausalLink { sequence: turn.last_sequence, relation },
                )
                &&& fact.candidate.body matches EventBody::InstantOccurred {
                    instant,
                    containing_span_id: Some(within),
                } && {
                    &&& within == lineage.containing_span_id
                    &&& kind is ResultSubmitted ==> instant == InstantDetail::ResultSubmitted(
                        detail,
                    )
                    &&& kind is ResultRejected ==> instant == InstantDetail::ResultRejected(detail)
                    &&& kind is ResultRepairRequested ==> instant
                        == InstantDetail::ResultRepairRequested(detail)
                    &&& kind is ResultAccepted ==> instant == InstantDetail::ResultAccepted(detail)
                    &&& kind is ResultMissing ==> instant == InstantDetail::ResultMissing(detail)
                }
                &&& turn_after.last_rejection_count == turn.last_rejection_count
                &&& turn_after.pending_rejection_sequence == if kind is ResultRejected
                    && fact.reply is Ok {
                    Some(fact.reply->Ok_0)
                } else {
                    None
                }
            })
            &&& taken ==> (candidate matches ResultCandidate::Rejections { value, .. } ==> {
                &&& fact.candidate.scope == lineage.act_scope
                &&& fact.candidate.cause == Some(
                    CausalLink { sequence: turn.pending_rejection_sequence->0, relation },
                )
                &&& fact.candidate.body == (EventBody::CounterSampled {
                    kind: CounterKind::ResultValidationRejections,
                    value,
                })
                &&& turn_after.pending_rejection_sequence is None
                &&& turn_after.last_rejection_count == if fact.reply is Ok {
                    value
                } else {
                    turn.last_rejection_count
                }
            })
        }),
{
    assert(after.trace.len() >= 0);
}

/// A step in the validation of a result that was taken is told last, after the messages that were
/// held back.
pub proof fn result_is_told_last(
    model: BridgeModel,
    after: BridgeModel,
    acts: ActRegistry,
    identity: AgentTurnDiagnosticIdentity,
    session_generation: u64,
    candidate: ResultCandidate,
    result: Result<ObservationDisposition, &'static str>,
)
    requires
        model.observed_candidate(
            after,
            acts,
            (AgentCandidate::Result { identity, session_generation, result: candidate }),
            result,
        ),
    ensures
        after.readings.last() is Err ==> result is Err && after.trace == model.trace,
        result is Ok ==> {
            let fact = after.trace.last();
            let lineage = acts.spec_lineage(identity.act_id@);
            &&& after.trace.len() > model.trace.len()
            &&& lineage is Some
            &&& lineage->0.event_scope.session_generation == Some(session_generation)
            &&& fact.reply is Ok
            &&& fact.elapsed == after.readings.last()
            &&& candidate matches ResultCandidate::Transition { kind, .. } ==> {
                &&& fact.candidate.scope == lineage->0.event_scope
                &&& fact.candidate.body is InstantOccurred
            }
            &&& candidate matches ResultCandidate::Rejections { value, .. } ==> {
                &&& fact.candidate.scope == lineage->0.act_scope
                &&& fact.candidate.body == (EventBody::CounterSampled {
                    kind: CounterKind::ResultValidationRejections,
                    value,
                })
            }
            &&& candidate !is Neither
        },
{
    let read = model.with_reading(after.readings.last());
    if result is Ok {
        let elapsed_ns = after.readings.last()->Ok_0;
        let (entered, place, lineage) = read.entered(acts, identity, session_generation)->Ok_0;
        turn_is_found_first(read.turns, identity.act_id@, 0);
        let flushed = choose|flushed: BridgeModel| #[trigger]
            entered.flushed_and_stepped(
                flushed,
                after,
                place,
                lineage,
                elapsed_ns,
                candidate,
                result,
            );
        crate::turn_bridge::hearing_asks_once_and_only_adds(
            entered.progress_at(place),
            flushed.progress_at(place),
            TurnRequest::OtherThanMessage,
            elapsed_ns,
            setting_of(lineage, None, entered.subscribers),
            Ok(()),
        );
        results_are_told_as_they_went(
            flushed,
            after,
            place,
            lineage,
            elapsed_ns,
            candidate,
            result,
        );
    }
}

/// What is observed of a turn is asked about under its act: of a message only about the message, of
/// thinking and of tools about the messages that were held back first. It is admitted exactly where
/// something was told. A turn whose act is not known in that generation is not asked about.
pub proof fn turns_are_asked_about_what_came(
    model: BridgeModel,
    after: BridgeModel,
    acts: ActRegistry,
    candidate: AgentCandidate,
    turn: AgentTurnDiagnosticMetadata,
    result: Result<ObservationDisposition, &'static str>,
)
    requires
        model.observed_candidate(after, acts, candidate, result),
        candidate == (AgentCandidate::MessageChunk { turn }) || candidate
            == (AgentCandidate::Thinking { turn }) || candidate == (AgentCandidate::Tool { turn }),
    ensures
        after.readings.last() is Err ==> result is Err && after.trace == model.trace && after.calls
            == model.calls,
        acts.spec_lineage(turn.identity.act_id@) is None ==> result is Err && after.trace
            == model.trace && after.calls == model.calls,
        after.calls.len() > model.calls.len() ==> {
            &&& after.calls[model.calls.len() as int] matches PortCall::Normalize {
                request,
                act_id,
                elapsed_ns,
                reported,
                ..
            } && {
                &&& request is MessageChunk <==> candidate is MessageChunk
                &&& request is OtherThanMessage <==> candidate !is MessageChunk
                &&& act_id == turn.identity.act_id@
                &&& Ok::<u64, TimeError>(elapsed_ns) == after.readings.last()
                &&& reported == model.trace.len()
            }
        },
        result matches Ok(disposition) ==> {
            &&& after.calls.len() > model.calls.len()
            &&& candidate is MessageChunk ==> (disposition is Admitted <==> after.trace.len()
                > model.trace.len())
            &&& candidate is Thinking ==> exists|i: int|
                model.calls.len() < i < after.calls.len() && (
                #[trigger] after.calls[i] matches PortCall::Normalize {
                    request: TurnRequest::Thinking,
                    ..
                })
            &&& candidate is Tool ==> exists|i: int|
                model.calls.len() < i < after.calls.len() && (
                #[trigger] after.calls[i] matches PortCall::Normalize {
                    request: TurnRequest::Tool,
                    ..
                })
            &&& disposition is Admitted || disposition is Buffered
        },
{
    let read = model.with_reading(after.readings.last());
    if let Ok(elapsed_ns) = after.readings.last() {
        if let Ok((entered, place, lineage)) = read.entered(
            acts,
            turn.identity,
            turn.session_generation,
        ) {
            turn_is_found_first(read.turns, turn.identity.act_id@, 0);
            let setting = setting_of(lineage, None, model.subscribers);
            if candidate is MessageChunk {
                crate::turn_bridge::hearing_asks_once_and_only_adds(
                    entered.progress_at(place),
                    after.progress_at(place),
                    TurnRequest::MessageChunk,
                    elapsed_ns,
                    setting,
                    outcome_of(result),
                );
            } else {
                let request = if candidate is Thinking {
                    TurnRequest::Thinking
                } else {
                    TurnRequest::Tool
                };
                if result is Err && entered.flushed(
                    after,
                    place,
                    elapsed_ns,
                    setting,
                    outcome_of(result),
                ) {
                    crate::turn_bridge::hearing_asks_once_and_only_adds(
                        entered.progress_at(place),
                        after.progress_at(place),
                        TurnRequest::OtherThanMessage,
                        elapsed_ns,
                        setting,
                        outcome_of(result),
                    );
                } else {
                    let flushed = choose|flushed: BridgeModel| #[trigger]
                        entered.took_after(
                            flushed,
                            after,
                            place,
                            request,
                            elapsed_ns,
                            setting,
                            result,
                        );
                    crate::turn_bridge::hearing_asks_once_and_only_adds(
                        entered.progress_at(place),
                        flushed.progress_at(place),
                        TurnRequest::OtherThanMessage,
                        elapsed_ns,
                        setting,
                        Ok(()),
                    );
                    crate::turn_bridge::hearing_asks_once_and_only_adds(
                        flushed.progress_at(place),
                        after.progress_at(place),
                        request,
                        elapsed_ns,
                        setting,
                        outcome_of(result),
                    );
                    let asked = flushed.calls.len() as int;
                    assert(after.calls[asked] is Normalize);
                    assert(after.calls[model.calls.len() as int]
                        == flushed.calls[model.calls.len() as int]);
                }
            }
        }
    }
}

/// The payload of a tool call waits with its turn, behind those that wait, where there are sinks to
/// give it to; else it is dropped. Usage waits for the end of its act. Neither tells or asks
/// anything, and neither does what is not supported.
pub proof fn what_only_sinks_see_waits(
    model: BridgeModel,
    after: BridgeModel,
    acts: ActRegistry,
    candidate: AgentCandidate,
    result: Result<ObservationDisposition, &'static str>,
)
    requires
        model.observed_candidate(after, acts, candidate, result),
        candidate is ToolPayload || candidate is TurnUsage || candidate is Unsupported,
    ensures
        after.trace == model.trace,
        after.calls == model.calls,
        after.readings == model.readings,
        after.sessions == model.sessions,
        after.latest_context == model.latest_context,
        candidate is TurnUsage ==> (result matches Ok(disposition) && disposition is DeferredUsage),
        candidate is Unsupported ==> result is Err,
        candidate is TurnUsage || candidate is Unsupported ==> after.turns == model.turns,
        candidate is ToolPayload ==> (result matches Ok(disposition) ==> disposition
            is SinkOnlyPayload),
        candidate is ToolPayload && !model.subscribers ==> result is Ok && after.turns
            == model.turns,
        candidate matches AgentCandidate::ToolPayload { turn, payload } ==> {
            &&& model.subscribers && acts.spec_lineage(turn.identity.act_id@) is None ==> result
                is Err
            &&& model.subscribers && result is Ok ==> exists|k: int|
                {
                    &&& 0 <= k < after.turns.len()
                    &&& (#[trigger] after.turns[k]).identity.is(turn.identity)
                    &&& after.turns[k].session_generation == turn.session_generation
                    &&& after.turns[k].pending_tool_payloads == (if k < model.turns.len() {
                        model.turns[k].pending_tool_payloads.push(payload)
                    } else {
                        seq![payload]
                    })
                    &&& forall|j: int|
                        0 <= j < model.turns.len() && j != k ==> #[trigger] after.turns[j]
                            == model.turns[j]
                }
        },
{
    if let AgentCandidate::ToolPayload { turn, payload } = candidate {
        turn_is_found_first(model.turns, turn.identity.act_id@, 0);
        if model.subscribers {
            if let Ok((entered, place, lineage)) = model.entered(
                acts,
                turn.identity,
                turn.session_generation,
            ) {
                assert(after.turns[place].identity.is(turn.identity));
                assert(place >= model.turns.len() ==> after.turns[place].pending_tool_payloads
                    =~= seq![payload]);
            }
        }
    }
}

/// The end of a turn is asked about in order: its messages, its thinking, its tools. A turn that
/// ended is let go of; it does not end while the number of its rejections is due. A turn that
/// nothing was observed of has nothing to end.
pub proof fn turn_ends_in_order(
    model: BridgeModel,
    after: BridgeModel,
    acts: ActRegistry,
    turn: AgentTurnDiagnosticMetadata,
    outcome: AgentTurnDiagnosticOutcome,
    result: Result<(), &'static str>,
)
    requires
        model.observed_end(after, acts, turn, outcome, result),
    ensures
        ({
            let known = exists|j: int|
                0 <= j < model.turns.len() && (#[trigger] model.turns[j]).identity.act_id@
                    == turn.identity.act_id@;
            &&& !known ==> result is Ok && after.trace == model.trace && after.calls == model.calls
                && after.turns == model.turns
            &&& known && result is Ok ==> {
                &&& after.readings.len() == model.readings.len() + 1
                &&& after.turns.len() == model.turns.len() - 1
                &&& exists|j: int|
                    {
                        &&& 0 <= j < model.turns.len()
                        &&& (#[trigger] model.turns[j]).identity.is(turn.identity)
                        &&& model.turns[j].session_generation == turn.session_generation
                        &&& model.turns[j].pending_rejection_sequence is None
                        &&& after.turns =~= model.turns.remove(j)
                    }
                &&& exists|second: int, third: int|
                    {
                        &&& model.calls.len() < second < third < after.calls.len()
                        &&& after.calls[model.calls.len() as int] matches PortCall::Normalize {
                            request: TurnRequest::MessagesEnd,
                            ..
                        }
                        &&& #[trigger] after.calls[second] matches PortCall::Normalize {
                            request: TurnRequest::ThinkingEnds,
                            ..
                        }
                        &&& (#[trigger] after.calls[third] matches PortCall::Normalize {
                            request: TurnRequest::ToolsEnd,
                            ..
                        })
                    }
            }
            &&& result is Err ==> after.turns.len() == model.turns.len()
        }),
{
    turn_is_found_first(model.turns, turn.identity.act_id@, 0);
    let read = model.with_reading(after.readings.last());
    if turn_from(model.turns, turn.identity.act_id@, 0) is Some && after.readings.last() is Ok {
        let elapsed_ns = after.readings.last()->Ok_0;
        if let Ok((entered, place, lineage)) = read.entered(
            acts,
            turn.identity,
            turn.session_generation,
        ) {
            let quiet = setting_of(lineage, None, entered.subscribers);
            let setting = setting_of(lineage, Some(outcome), entered.subscribers);
            let (messages, thinking, tools) = choose|
                messages: BridgeModel,
                thinking: BridgeModel,
                tools: BridgeModel,
            |
                {
                    &&& #[trigger] entered.wound_up(
                        messages,
                        thinking,
                        tools,
                        place,
                        elapsed_ns,
                        quiet,
                        setting,
                        result,
                    )
                    &&& after =~= match result {
                        Ok(()) => BridgeModel { turns: tools.turns.remove(place), ..tools },
                        Err(_) => tools,
                    }
                };
            if result is Ok {
                crate::turn_bridge::hearing_asks_once_and_only_adds(
                    entered.progress_at(place),
                    messages.progress_at(place),
                    TurnRequest::MessagesEnd,
                    elapsed_ns,
                    quiet,
                    Ok(()),
                );
                crate::turn_bridge::hearing_asks_once_and_only_adds(
                    messages.progress_at(place),
                    thinking.progress_at(place),
                    TurnRequest::ThinkingEnds,
                    elapsed_ns,
                    setting,
                    Ok(()),
                );
                crate::turn_bridge::hearing_asks_once_and_only_adds(
                    thinking.progress_at(place),
                    tools.progress_at(place),
                    TurnRequest::ToolsEnd,
                    elapsed_ns,
                    setting,
                    result,
                );
                let first = model.calls.len() as int;
                let second = messages.calls.len() as int;
                let third = thinking.calls.len() as int;
                assert(messages.calls[first] is Normalize);
                assert(thinking.calls[first] == messages.calls[first]);
                assert(tools.calls[first] == thinking.calls[first]);
                assert(tools.calls[second] == thinking.calls[second]);
                assert(after.calls[second] matches PortCall::Normalize {
                    request: TurnRequest::ThinkingEnds,
                    ..
                });
                assert(after.calls[third] matches PortCall::Normalize {
                    request: TurnRequest::ToolsEnd,
                    ..
                });
                assert(model.turns[place].identity.is(turn.identity));
                assert(after.turns =~= model.turns.remove(place));
            }
        }
    }
}

/// News of a session go to the session of that key, and to no other; only the news that it opens
/// begins one that is not known, and that news of one that is known is refused.
pub proof fn news_go_to_their_session<P: TurnPorts, A: SpanEventAdmission>(
    bridge: CanonicalObservationBridge<P>,
    after: CanonicalObservationBridge<P>,
    context: DiagnosticRunContext<A>,
    context_after: DiagnosticRunContext<A>,
    news: SessionNews,
    notice: SessionNotice,
    result: Result<(), &'static str>,
)
    requires
        bridge.on_session(after, context, context_after, news, result),
        match news {
            SessionNews::Opening(said) => said == notice,
            SessionNews::OpeningAttempt(said) => said == notice,
            SessionNews::Ready(said) => said == notice,
            SessionNews::Broken { broken, .. } => broken == notice,
            SessionNews::Closing(said) => said == notice,
            SessionNews::Closed(said) => said == notice,
        },
    ensures
        ({
            let key = notice.metadata.context;
            let known = exists|j: int|
                0 <= j < bridge.sessions@.len() && (#[trigger] bridge.sessions@[j]).key.is(key);
            &&& after.turns == bridge.turns && after.latest_context == bridge.latest_context
            &&& !known && news !is Opening ==> result is Err && after.sessions@ == bridge.sessions@
                && context_after == context
            &&& known && news is Opening ==> result is Err && after.sessions@ =~= bridge.sessions@
                && context_after == context
            &&& known ==> after.sessions@.len() == bridge.sessions@.len()
            &&& forall|j: int|
                0 <= j < bridge.sessions@.len() && !(#[trigger] bridge.sessions@[j]).key.is(key)
                    ==> after.sessions@[j] == bridge.sessions@[j]
            &&& !known && news is Opening ==> {
                &&& result is Ok <==> after.sessions@.len() == bridge.sessions@.len() + 1
                &&& result is Ok ==> after.sessions@.last().key == key
                    && after.sessions@.last().lifecycle.span_id
                    == context_after.steps_since(context)[0].reply->Ok_0
            }
            &&& known ==> exists|j: int|
                {
                    &&& 0 <= j < bridge.sessions@.len()
                    &&& (#[trigger] bridge.sessions@[j]).key.is(key)
                    &&& news matches SessionNews::OpeningAttempt(said)
                        ==> bridge.sessions@[j].on_attempt(
                        after.sessions@[j],
                        context,
                        context_after,
                        said,
                        result,
                    )
                    &&& news matches SessionNews::Ready(said) ==> bridge.sessions@[j].on_ready(
                        after.sessions@[j],
                        context,
                        context_after,
                        said.metadata,
                        result,
                    )
                    &&& news matches SessionNews::Broken { broken, error_code }
                        ==> bridge.sessions@[j].on_broken(
                        after.sessions@[j],
                        context,
                        context_after,
                        broken,
                        error_code,
                        result,
                    )
                    &&& news matches SessionNews::Closing(said) ==> bridge.sessions@[j].on_closing(
                        after.sessions@[j],
                        context,
                        context_after,
                        said,
                        result,
                    )
                    &&& news matches SessionNews::Closed(said) ==> bridge.sessions@[j].on_closed(
                        after.sessions@[j],
                        context,
                        context_after,
                        said.metadata,
                        result,
                    )
                }
        }),
{
    session_is_found_first(bridge.sessions@, notice.metadata.context, 0);
    if let Some(place) = session_from(bridge.sessions@, notice.metadata.context, 0) {
        assert(bridge.sessions@[place].key.is(notice.metadata.context));
    } else if news is Opening {
        let session: Result<SessionProjection, &'static str> = match result {
            Ok(()) => Ok(after.sessions@.last()),
            Err(code) => Err(code),
        };
        crate::session_bridge::session_begins_with_what_serves_it(
            context,
            context_after,
            notice,
            session,
        );
    }
}

/// A turn that ends is asked about with how it ended: what its thinking and its tools tell then is
/// told under the turn's own act, and as the turn's end came out. What its messages tell is told as
/// before the end.
pub proof fn turns_end_with_their_outcome(
    model: BridgeModel,
    after: BridgeModel,
    acts: ActRegistry,
    turn: AgentTurnDiagnosticMetadata,
    outcome: AgentTurnDiagnosticOutcome,
)
    requires
        model.observed_end(after, acts, turn, outcome, Ok(())),
        exists|j: int|
            0 <= j < model.turns.len() && (#[trigger] model.turns[j]).identity.act_id@
                == turn.identity.act_id@,
    ensures
        exists|
            asked: BridgeModel,
            place: int,
            told: BridgeModel,
            thought: BridgeModel,
            done: BridgeModel,
            quiet: TurnSetting,
            ending: TurnSetting,
        |
            {
                &&& asked.trace == model.trace && asked.turns == model.turns
                &&& #[trigger] asked.heard(
                    told,
                    place,
                    TurnRequest::MessagesEnd,
                    after.readings.last()->Ok_0,
                    quiet,
                    Ok(()),
                )
                &&& #[trigger] told.heard(
                    thought,
                    place,
                    TurnRequest::ThinkingEnds,
                    after.readings.last()->Ok_0,
                    ending,
                    Ok(()),
                )
                &&& #[trigger] thought.heard(
                    done,
                    place,
                    TurnRequest::ToolsEnd,
                    after.readings.last()->Ok_0,
                    ending,
                    Ok(()),
                )
                &&& after.trace == done.trace
                &&& ending.outcome == Some(outcome)
                &&& quiet.outcome is None
                &&& quiet.scope == ending.scope
                &&& Some(ending.scope) == (match acts.spec_lineage(turn.identity.act_id@) {
                    Some(lineage) => Some(lineage.event_scope),
                    None => None,
                })
                &&& ending.subscribers == model.subscribers
            },
{
    turn_is_found_first(model.turns, turn.identity.act_id@, 0);
    let read = model.with_reading(after.readings.last());
    let elapsed_ns = after.readings.last()->Ok_0;
    let (entered, place, lineage) = read.entered(
        acts,
        turn.identity,
        turn.session_generation,
    )->Ok_0;
    let quiet = setting_of(lineage, None, entered.subscribers);
    let ending = setting_of(lineage, Some(outcome), entered.subscribers);
    let result: Result<(), &'static str> = Ok(());
    let (told, thought, done) = choose|
        told: BridgeModel,
        thought: BridgeModel,
        done: BridgeModel,
    |
        {
            &&& #[trigger] entered.wound_up(
                told,
                thought,
                done,
                place,
                elapsed_ns,
                quiet,
                ending,
                result,
            )
            &&& after =~= match result {
                Ok(()) => BridgeModel { turns: done.turns.remove(place), ..done },
                Err(_) => done,
            }
        };
    assert(entered.heard(told, place, TurnRequest::MessagesEnd, elapsed_ns, quiet, Ok(())));
    assert(told.heard(thought, place, TurnRequest::ThinkingEnds, elapsed_ns, ending, Ok(())));
    assert(thought.heard(done, place, TurnRequest::ToolsEnd, elapsed_ns, ending, Ok(())));
}

/// A turn is known by its act: news of an act that is known are of the turn that is known, and are
/// refused where they name another turn or another generation of it. A turn that is not known
/// begins with nothing told, after the span that its facts hang in, behind those that are known.
/// News of an act that is not there, or is there in another generation, are refused.
pub proof fn turns_are_known_by_their_act(
    model: BridgeModel,
    acts: ActRegistry,
    identity: AgentTurnDiagnosticIdentity,
    session_generation: u64,
)
    ensures
        ({
            let entered = model.entered(acts, identity, session_generation);
            let lineage = acts.spec_lineage(identity.act_id@);
            let there = lineage is Some && lineage->0.event_scope.session_generation == Some(
                session_generation,
            );
            let known = exists|j: int|
                0 <= j < model.turns.len() && (#[trigger] model.turns[j]).identity.act_id@
                    == identity.act_id@;
            &&& !there ==> entered is Err
            &&& there && !known ==> entered is Ok
            &&& entered matches Ok((after, place, found)) ==> {
                &&& there && found == lineage->0
                &&& 0 <= place < after.turns.len()
                &&& after.turns[place].identity.context.actor_id@ == identity.context.actor_id@
                &&& after.turns[place].identity.context.session_id@ == identity.context.session_id@
                &&& after.turns[place].identity.act_id@ == identity.act_id@
                &&& after.turns[place].identity.turn_id@ == identity.turn_id@
                &&& after.turns[place].session_generation == session_generation
                &&& known ==> after == model
                &&& !known ==> {
                    let begun = after.turns[place];
                    &&& after.turns.len() == model.turns.len() + 1
                    &&& place == model.turns.len()
                    &&& forall|j: int|
                        0 <= j < model.turns.len() ==> #[trigger] after.turns[j] == model.turns[j]
                    &&& begun.last_sequence == lineage->0.containing_span_id
                    &&& begun.thinking_span is None && begun.tool_spans.len() == 0
                    &&& begun.pending_tool_payloads.len() == 0
                    &&& begun.last_rejection_count == 0
                    &&& begun.pending_rejection_sequence is None
                }
                &&& after.trace == model.trace && after.calls == model.calls
            }
        }),
{
    turn_is_found_first(model.turns, identity.act_id@, 0);
}

/// That a turn has ended reaches its act exactly where what was observed of the turn could be told;
/// where it could not, the act hears nothing. Other news of a turn reach its act as they are, and
/// nothing is told of the turn itself.
pub proof fn ends_of_turns_reach_their_act<P: TurnPorts, A: SpanEventAdmission>(
    bridge: CanonicalObservationBridge<P>,
    after: CanonicalObservationBridge<P>,
    acts: ActRegistry,
    acts_after: ActRegistry,
    runs: DiagnosticRuns<A>,
    runs_after: DiagnosticRuns<A>,
    turn: AgentTurnObservation,
    result: Result<ObservationDisposition, &'static str>,
)
    requires
        bridge.on_observation(
            after,
            acts,
            acts_after,
            runs,
            runs_after,
            AgentDiagnosticObservation::Turn(turn),
            result,
        ),
    ensures
        turn !is Terminal ==> after == bridge && acts.told(acts_after, runs, runs_after, turn) && (
        result matches Ok(disposition) && disposition is Buffered),
        turn is Terminal && result is Err ==> acts_after == acts,
        turn is Terminal && result is Ok ==> (result matches Ok(disposition) && disposition
            is Admitted) && exists|between: DiagnosticRuns<A>| #[trigger]
            acts.told(acts_after, between, runs_after, turn),
        turn matches AgentTurnObservation::Terminal { metadata, outcome, .. } ==> exists|
            between: DiagnosticRuns<A>,
            ended: Result<(), &'static str>,
        |
            {
                &&& #[trigger] bridge.model(runs@[bridge.run as int].context).observed_end(
                    after.model(between@[bridge.run as int].context),
                    acts,
                    metadata,
                    outcome,
                    ended,
                )
                &&& ended is Ok <==> result is Ok
                &&& result is Err ==> ended->Err_0 == result->Err_0 && runs_after@ == between@
            },
{
    if let AgentTurnObservation::Terminal { metadata, outcome, .. } = turn {
        let between = choose|between: DiagnosticRuns<A>| #[trigger]
            bridge.on_turn_end(
                after,
                acts,
                acts_after,
                runs,
                between,
                runs_after,
                bridge.run,
                turn,
                outcome,
                result,
            );
        let run = bridge.run as int;
        assert(bridge.model(runs@[run].context).observed_end(
            after.model(between@[run].context),
            acts,
            metadata,
            outcome,
            outcome_of(result),
        ));
        if result is Ok {
            assert(acts.told(acts_after, between, runs_after, turn));
        }
    }
}

} // verus!
