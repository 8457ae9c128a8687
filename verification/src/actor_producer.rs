//! The lifecycle of an actor, from its cast to the moment when its production lets it go.
use crate::agent::AgentSessionDiagnosticContext;
use crate::context::{DiagnosticProducerError, DiagnosticRunContext, SpanEventAdmission};
use crate::event::{
    ActorDetail, DiagnosticScope, EventCandidate, InstantDetail, RunLocalId, SpanStartDetail,
    TerminalSpan,
};
use crate::identifier::{numbered_id, numbered_text, IdCounter};
use crate::python_error::ErrorClass;
use crate::run::{DiagnosticRuns, RuntimeProducerError};
use crate::runtime_producer::RuntimeProducerRegistry;
use std::collections::HashMap;
use vstd::prelude::*;

verus! {

broadcast use vstd::std_specs::hash::group_hash_axioms;

/// What the runtime announces of an actor.
#[derive(Clone, Copy, Debug, PartialEq, Eq, Structural)]
pub enum ActorHook {
    Constructed,
    HandleCreated,
    HandleCleared,
    RegistryReserved,
    RegistryCommitted,
    RegistryDetached,
}

/// How the cast of an actor ended.
#[derive(Clone, Copy, Debug, PartialEq, Eq, Structural)]
pub enum CastTerminal {
    Succeeded,
    Failed,
    Cancelled,
}

impl CastTerminal {
    pub open spec fn spec_span_terminal(self) -> TerminalSpan {
        match self {
            CastTerminal::Succeeded => TerminalSpan::spec_completed(),
            CastTerminal::Failed => TerminalSpan::spec_failed("actor-cast-failed"),
            CastTerminal::Cancelled => TerminalSpan::spec_cancelled("actor-cast-cancelled"),
        }
    }

    pub fn span_terminal(self) -> (terminal: TerminalSpan)
        ensures
            terminal == self.spec_span_terminal(),
    {
        match self {
            CastTerminal::Succeeded => TerminalSpan::completed(),
            CastTerminal::Failed => TerminalSpan::failed("actor-cast-failed"),
            CastTerminal::Cancelled => TerminalSpan::cancelled("actor-cast-cancelled"),
        }
    }
}

/// A handle to an actor, and whether it was cleared.
#[derive(Clone, Copy, Debug, PartialEq, Eq, Structural)]
pub struct HandleState {
    pub identity: u64,
    pub cleared: bool,
}

/// What is known of an actor.
#[derive(Debug, PartialEq, Eq)]
pub struct ActorLifecycleState {
    pub constructed: bool,
    pub committed: bool,
    pub detached: bool,
    pub handles: Vec<HandleState>,
    pub cast_terminal: Option<CastTerminal>,
    pub finish_attempted: bool,
}

/// What is known of an actor, as a mathematical value.
#[verifier::ext_equal]
pub struct ActorState {
    pub constructed: bool,
    pub committed: bool,
    pub detached: bool,
    pub handles: Seq<HandleState>,
    pub cast_terminal: Option<CastTerminal>,
    pub finish_attempted: bool,
}

impl View for ActorLifecycleState {
    type V = ActorState;

    open spec fn view(&self) -> ActorState {
        ActorState {
            constructed: self.constructed,
            committed: self.committed,
            detached: self.detached,
            handles: self.handles@,
            cast_terminal: self.cast_terminal,
            finish_attempted: self.finish_attempted,
        }
    }
}

/// What a hook of an actor leads to: the end of its span, or a failure.
#[derive(Clone, Copy, Debug, PartialEq, Eq)]
pub struct Transition {
    pub terminal: Option<TerminalSpan>,
    pub state_error: Option<&'static str>,
}

impl Transition {
    pub open spec fn none() -> Self {
        Transition { terminal: None, state_error: None }
    }

    pub open spec fn spec_invalid(code: &'static str) -> Self {
        Transition { terminal: None, state_error: Some(code) }
    }

    pub fn invalid(code: &'static str) -> (transition: Self)
        ensures
            transition == Transition::spec_invalid(code),
    {
        Transition { terminal: None, state_error: Some(code) }
    }
}

impl ActorState {
    /// An actor that was just cast.
    pub open spec fn fresh() -> Self {
        ActorState {
            constructed: false,
            committed: false,
            detached: false,
            handles: Seq::empty(),
            cast_terminal: None,
            finish_attempted: false,
        }
    }

    pub open spec fn has_handle(self, identity: u64) -> bool {
        exists|i: int|
            0 <= i < self.handles.len() && (#[trigger] self.handles[i]).identity == identity
    }

    /// No handle is known twice.
    pub open spec fn wf(self) -> bool {
        forall|i: int, j: int|
            0 <= i < j < self.handles.len() ==> (#[trigger] self.handles[i]).identity != (
            #[trigger] self.handles[j]).identity
    }

    /// The actor's span ends, unless it has.
    pub open spec fn begin_finish(self, terminal: TerminalSpan) -> (Self, Option<TerminalSpan>) {
        if self.finish_attempted {
            (self, None)
        } else {
            (ActorState { finish_attempted: true, ..self }, Some(terminal))
        }
    }

    /// What a hook of the actor itself does. A detached actor ends once its cast has succeeded.
    pub open spec fn on_identity(self, hook: ActorHook) -> (Self, Transition) {
        match hook {
            ActorHook::Constructed => if !self.constructed && self.cast_terminal is None {
                (ActorState { constructed: true, ..self }, Transition::none())
            } else {
                (self, Transition::spec_invalid("actor.constructed-transition-invalid"))
            },
            ActorHook::RegistryCommitted => if !self.committed && self.cast_terminal is None {
                (ActorState { committed: true, ..self }, Transition::none())
            } else {
                (self, Transition::spec_invalid("actor.registry-commit-transition-invalid"))
            },
            ActorHook::RegistryDetached => if !self.detached {
                let detached = ActorState { detached: true, ..self };
                if self.cast_terminal == Some(CastTerminal::Succeeded) {
                    let (after, terminal) = detached.begin_finish(TerminalSpan::spec_completed());
                    (after, Transition { terminal, state_error: None })
                } else {
                    (detached, Transition::none())
                }
            } else {
                (self, Transition::spec_invalid("actor.registry-detach-transition-invalid"))
            },
            ActorHook::RegistryReserved => (self, Transition::none()),
            ActorHook::HandleCreated | ActorHook::HandleCleared => {
                (self, Transition::spec_invalid("actor.identity-hook-kind-invalid"))
            },
        }
    }

    /// A handle can be created while the actor is attached and its cast has not gone wrong.
    pub open spec fn accepts_handle(self, identity: u64) -> bool {
        &&& !self.detached
        &&& !self.finish_attempted
        &&& self.cast_terminal != Some(CastTerminal::Failed)
        &&& self.cast_terminal != Some(CastTerminal::Cancelled)
        &&& !self.has_handle(identity)
    }

    /// What a hook of a handle does.
    pub open spec fn on_handle(
        self,
        after: Self,
        transition: Transition,
        identity: u64,
        hook: ActorHook,
    ) -> bool {
        match hook {
            ActorHook::HandleCreated => if self.accepts_handle(identity) {
                &&& after == (ActorState {
                    handles: self.handles.push(HandleState { identity, cleared: false }),
                    ..self
                })
                &&& transition == Transition::none()
            } else {
                &&& after == self
                &&& transition == Transition::spec_invalid("actor.handle-create-transition-invalid")
            },
            ActorHook::HandleCleared => if !self.has_handle(identity) {
                &&& after == self
                &&& transition == Transition::spec_invalid("actor.handle-clear-without-create")
            } else {
                exists|i: int|
                    {
                        &&& 0 <= i < self.handles.len()
                        &&& (#[trigger] self.handles[i]).identity == identity
                        &&& if self.handles[i].cleared {
                            &&& after == self
                            &&& transition == Transition::spec_invalid(
                                "actor.handle-clear-transition-invalid",
                            )
                        } else {
                            &&& after == (ActorState {
                                handles: self.handles.update(
                                    i,
                                    HandleState { identity, cleared: true },
                                ),
                                ..self
                            })
                            &&& transition == Transition::none()
                        }
                    }
            },
            _ => {
                &&& after == self
                &&& transition == Transition::spec_invalid("actor.handle-hook-kind-invalid")
            },
        }
    }

    /// A cast has succeeded properly where the actor was constructed and committed and the handle
    /// that came back is known.
    pub open spec fn success_is_valid(self, handle: Option<u64>) -> bool {
        &&& self.constructed
        &&& self.committed
        &&& handle matches Some(handle) && self.has_handle(handle)
    }

    /// What the end of the cast does. A cast that went wrong ends the actor, and so does a success
    /// that comes after the actor was detached.
    pub open spec fn on_cast_finished(
        self,
        terminal: CastTerminal,
        handle: Option<u64>,
        detail_matches: bool,
    ) -> (Self, Transition) {
        if self.cast_terminal is Some || self.finish_attempted {
            (self, Transition::spec_invalid("actor.cast-terminal-transition-invalid"))
        } else {
            let cast = ActorState { cast_terminal: Some(terminal), ..self };
            let state_error = if !detail_matches {
                Some("actor.cast-detail-changed")
            } else if terminal is Succeeded && !self.success_is_valid(handle) {
                Some("actor.cast-success-transition-invalid")
            } else {
                None
            };
            if terminal is Succeeded && !self.detached {
                (cast, Transition { terminal: None, state_error })
            } else {
                let (after, end) = cast.begin_finish(terminal.spec_span_terminal());
                (after, Transition { terminal: end, state_error })
            }
        }
    }
}

impl ActorLifecycleState {
    pub fn new() -> (state: Self)
        ensures
            state@ == ActorState::fresh(),
    {
        ActorLifecycleState {
            constructed: false,
            committed: false,
            detached: false,
            handles: Vec::new(),
            cast_terminal: None,
            finish_attempted: false,
        }
    }

    fn begin_finish(&mut self, terminal: TerminalSpan) -> (end: Option<TerminalSpan>)
        ensures
            (final(self)@, end) == old(self)@.begin_finish(terminal),
    {
        if self.finish_attempted {
            return None;
        }
        self.finish_attempted = true;
        Some(terminal)
    }

    /// Takes a hook of the actor itself.
    pub fn observe_identity(&mut self, hook: ActorHook) -> (transition: Transition)
        ensures
            (final(self)@, transition) == old(self)@.on_identity(hook),
    {
        match hook {
            ActorHook::Constructed => {
                if !self.constructed && self.cast_terminal.is_none() {
                    self.constructed = true;
                    Transition { terminal: None, state_error: None }
                } else {
                    Transition::invalid("actor.constructed-transition-invalid")
                }
            },
            ActorHook::RegistryCommitted => {
                if !self.committed && self.cast_terminal.is_none() {
                    self.committed = true;
                    Transition { terminal: None, state_error: None }
                } else {
                    Transition::invalid("actor.registry-commit-transition-invalid")
                }
            },
            ActorHook::RegistryDetached => {
                if !self.detached {
                    self.detached = true;
                    let terminal = match self.cast_terminal {
                        Some(CastTerminal::Succeeded) => {
                            self.begin_finish(TerminalSpan::completed())
                        },
                        _ => None,
                    };
                    Transition { terminal, state_error: None }
                } else {
                    Transition::invalid("actor.registry-detach-transition-invalid")
                }
            },
            ActorHook::RegistryReserved => Transition { terminal: None, state_error: None },
            ActorHook::HandleCreated | ActorHook::HandleCleared => {
                Transition::invalid("actor.identity-hook-kind-invalid")
            },
        }
    }

    /// The place of a handle, where it is known.
    fn find_handle(&self, identity: u64) -> (place: Option<usize>)
        ensures
            match place {
                Some(place) => place < self.handles@.len() && self.handles@[place as int].identity
                    == identity,
                None => !self@.has_handle(identity),
            },
    {
        let mut i: usize = 0;
        while i < self.handles.len()
            invariant
                i <= self.handles@.len(),
                forall|j: int| 0 <= j < i ==> (#[trigger] self.handles@[j]).identity != identity,
            decreases self.handles@.len() - i,
        {
            if self.handles[i].identity == identity {
                return Some(i);
            }
            i = i + 1;
        }
        None
    }

    /// Takes a hook of a handle to the actor.
    pub fn observe_handle(&mut self, identity: u64, hook: ActorHook) -> (transition: Transition)
        requires
            old(self)@.wf(),
        ensures
            final(self)@.wf(),
            old(self)@.on_handle(final(self)@, transition, identity, hook),
    {
        match hook {
            ActorHook::HandleCreated => {
                let cast_went_wrong = matches!(
                    self.cast_terminal,
                    Some(CastTerminal::Failed) | Some(CastTerminal::Cancelled)
                );
                if !self.detached && !self.finish_attempted && !cast_went_wrong
                    && self.find_handle(identity).is_none() {
                    let ghost known = self@;
                    self.handles.push(HandleState { identity, cleared: false });
                    assert forall|i: int, j: int| 0 <= i < j < self@.handles.len() implies (
                    #[trigger] self@.handles[i]).identity != (
                    #[trigger] self@.handles[j]).identity by {
                        assert(self@.handles[i] == known.handles[i]);
                        if j < known.handles.len() {
                            assert(self@.handles[j] == known.handles[j]);
                        }
                    }
                    Transition { terminal: None, state_error: None }
                } else {
                    Transition::invalid("actor.handle-create-transition-invalid")
                }
            },
            ActorHook::HandleCleared => {
                let place = match self.find_handle(identity) {
                    Some(place) => place,
                    None => return Transition::invalid("actor.handle-clear-without-create"),
                };
                if self.handles[place].cleared {
                    return Transition::invalid("actor.handle-clear-transition-invalid");
                }
                let ghost known = self@;
                self.handles.set(place, HandleState { identity, cleared: true });
                assert forall|i: int, j: int| 0 <= i < j < self@.handles.len() implies (
                #[trigger] self@.handles[i]).identity != (
                #[trigger] self@.handles[j]).identity by {
                    assert(known.handles[i].identity != known.handles[j].identity);
                }
                Transition { terminal: None, state_error: None }
            },
            ActorHook::Constructed
            | ActorHook::RegistryReserved
            | ActorHook::RegistryCommitted
            | ActorHook::RegistryDetached => Transition::invalid("actor.handle-hook-kind-invalid"),
        }
    }

    /// The cast has ended.
    pub fn cast_finished(
        &mut self,
        terminal: CastTerminal,
        handle: Option<u64>,
        detail_matches: bool,
    ) -> (transition: Transition)
        ensures
            (final(self)@, transition) == old(self)@.on_cast_finished(
                terminal,
                handle,
                detail_matches,
            ),
    {
        if self.cast_terminal.is_some() || self.finish_attempted {
            return Transition::invalid("actor.cast-terminal-transition-invalid");
        }
        let handle_is_known = match handle {
            Some(handle) => self.find_handle(handle).is_some(),
            None => false,
        };
        self.cast_terminal = Some(terminal);
        let success_is_valid = !matches!(terminal, CastTerminal::Succeeded) || (self.constructed
            && self.committed && handle_is_known);
        let state_error = if !detail_matches {
            Some("actor.cast-detail-changed")
        } else if !success_is_valid {
            Some("actor.cast-success-transition-invalid")
        } else {
            None
        };
        let end = if matches!(terminal, CastTerminal::Succeeded) && !self.detached {
            None
        } else {
            self.begin_finish(terminal.span_terminal())
        };
        Transition { terminal: end, state_error }
    }
}

/// Where a fact of an actor hangs in the run.
#[derive(Debug, PartialEq, Eq)]
pub struct ActorLineageSnapshot {
    pub run: usize,
    pub scope: DiagnosticScope,
    pub handle_span_id: u64,
}

/// Where the cast of an actor is reported: the run, the span that contains the cast, and the run
/// that hears of failures.
#[derive(Clone, Copy, Debug, PartialEq, Eq, Structural)]
pub struct ActorEventSource {
    pub run: usize,
    pub containing_span_id: Option<u64>,
    pub owner: Option<usize>,
}

/// A production that is being constructed.
#[derive(Clone, Copy, Debug, PartialEq, Eq, Structural)]
pub struct ProductionConstruction {
    pub run: usize,
    pub construct_span_id: u64,
}

/// The names of an actor, where they are text.
#[derive(Debug, PartialEq, Eq)]
pub struct ActorNames {
    pub display_name: Option<String>,
    pub actor_type: Option<String>,
}

/// Reports the lifecycle of one actor.
#[derive(Debug, PartialEq, Eq)]
pub struct ActorLifecycleProducer {
    pub run: usize,
    pub owner: Option<usize>,
    pub scope: DiagnosticScope,
    pub session: AgentSessionDiagnosticContext,
    pub detail: ActorDetail,
    pub handle_span_id: u64,
    pub state: ActorLifecycleState,
}

/// The detail of an actor, or which of its names is not text.
pub open spec fn spec_actor_detail(names: ActorNames) -> Result<ActorDetail, &'static str> {
    match (names.display_name, names.actor_type) {
        (None, _) => Err("actor.display-name-not-utf8"),
        (Some(_), None) => Err("actor.type-name-not-utf8"),
        (Some(display_name), Some(actor_type)) => Ok(ActorDetail { display_name, actor_type }),
    }
}

pub fn actor_detail(names: &ActorNames) -> (detail: Result<ActorDetail, &'static str>)
    ensures
        detail == spec_actor_detail(*names),
{
    match (&names.display_name, &names.actor_type) {
        (None, _) => Err("actor.display-name-not-utf8"),
        (Some(_), None) => Err("actor.type-name-not-utf8"),
        (Some(display_name), Some(actor_type)) => Ok(
            ActorDetail { display_name: display_name.clone(), actor_type: actor_type.clone() },
        ),
    }
}

impl ActorLifecycleProducer {
    /// The scope of an actor.
    pub open spec fn scope_of(actor_id: RunLocalId) -> DiagnosticScope {
        DiagnosticScope { actor_id: Some(actor_id), ..DiagnosticScope::of_run() }
    }

    /// The cast, within the span that contains it, then the span of the actor's handles, which
    /// stands alone.
    pub open spec fn start_plan(
        actor_id: RunLocalId,
        detail: ActorDetail,
        containing_span_id: Option<u64>,
    ) -> spec_fn(Seq<u64>) -> Option<EventCandidate> {
        let scope = ActorLifecycleProducer::scope_of(actor_id);
        |accepted: Seq<u64>|
            if accepted.len() == 0 {
                Some(
                    EventCandidate::instant(
                        scope,
                        InstantDetail::ActorCast(detail),
                        containing_span_id,
                        None,
                    ),
                )
            } else if accepted.len() == 1 {
                Some(
                    EventCandidate::started(
                        scope,
                        SpanStartDetail::ActorHandleLifetime(detail),
                        None,
                        None,
                    ),
                )
            } else {
                None
            }
    }

    /// An actor that was just cast.
    pub open spec fn is_started(
        self,
        source: ActorEventSource,
        actor_id: RunLocalId,
        session: AgentSessionDiagnosticContext,
        detail: ActorDetail,
        handle_span_id: u64,
    ) -> bool {
        &&& self.run == source.run
        &&& self.owner == source.owner
        &&& self.scope == ActorLifecycleProducer::scope_of(actor_id)
        &&& self.session == session
        &&& self.detail == detail
        &&& self.handle_span_id == handle_span_id
        &&& self.state@ == ActorState::fresh()
    }

    /// Reports the cast of an actor and starts its span.
    pub fn start<A: SpanEventAdmission>(
        source: ActorEventSource,
        context: &mut DiagnosticRunContext<A>,
        actor_id: RunLocalId,
        session: AgentSessionDiagnosticContext,
        detail: ActorDetail,
    ) -> (result: Result<Self, DiagnosticProducerError>)
        ensures
            final(context).reports(
                *old(context),
                ActorLifecycleProducer::start_plan(actor_id, detail, source.containing_span_id),
            ),
            match result {
                Ok(producer) => {
                    &&& final(context).accepted_since(*old(context)).len() == 2
                    &&& !final(context).stopped_since(*old(context))
                    &&& producer.is_started(
                        source,
                        actor_id,
                        session,
                        detail,
                        final(context).accepted_since(*old(context))[1],
                    )
                },
                Err(error) => final(context).refusal_since(*old(context)) == Some(error),
            },
    {
        let scope = DiagnosticScope {
            scene_id: None,
            actor_id: Some(actor_id),
            cue_id: None,
            effect_id: None,
            act_id: None,
            tool_call_id: None,
            session_generation: None,
        };
        if let Err(error) = context.emit_instant(
            scope.clone(),
            InstantDetail::ActorCast(detail.clone()),
            source.containing_span_id,
        ) {
            return Err(error);
        }
        let handle_span_id = match context.start_span(
            scope.clone(),
            SpanStartDetail::ActorHandleLifetime(detail.clone()),
            None,
        ) {
            Ok(span_id) => span_id,
            Err(error) => return Err(error),
        };
        Ok(
            ActorLifecycleProducer {
                run: source.run,
                owner: source.owner,
                scope,
                session,
                detail,
                handle_span_id,
                state: ActorLifecycleState::new(),
            },
        )
    }

    pub open spec fn spec_snapshot(self) -> Option<ActorLineageSnapshot> {
        if self.state.cast_terminal == Some(CastTerminal::Succeeded) && !self.state.detached
            && !self.state.finish_attempted {
            Some(
                ActorLineageSnapshot {
                    run: self.run,
                    scope: self.scope,
                    handle_span_id: self.handle_span_id,
                },
            )
        } else {
            None
        }
    }

    /// Where a fact of the actor hangs, while it is cast and attached.
    pub fn snapshot(&self) -> (snapshot: Option<ActorLineageSnapshot>)
        ensures
            snapshot == self.spec_snapshot(),
    {
        let succeeded = matches!(self.state.cast_terminal, Some(CastTerminal::Succeeded));
        if !succeeded || self.state.detached || self.state.finish_attempted {
            return None;
        }
        Some(
            ActorLineageSnapshot {
                run: self.run,
                scope: self.scope.clone(),
                handle_span_id: self.handle_span_id,
            },
        )
    }

    /// The names are those that the actor was cast with.
    pub open spec fn is_named(self, names: ActorNames) -> bool {
        spec_actor_detail(names) matches Ok(detail) && detail.is(self.detail)
    }

    /// The end of the actor's span.
    pub open spec fn end_event(self, terminal: TerminalSpan) -> EventCandidate {
        EventCandidate::finished(
            self.scope,
            self.handle_span_id,
            terminal.outcome,
            terminal.code(),
            None,
        )
    }

    /// The run that hears of failures: the actor's own, else the one at hand.
    pub open spec fn failure_owner(self, fallback: Option<usize>) -> Option<usize> {
        match self.owner {
            Some(owner) => Some(owner),
            None => fallback,
        }
    }
}

/// The actors that are under way, by their keys.
pub struct ActorRegistry {
    pub actors: HashMap<usize, ActorLifecycleProducer>,
    pub next_actor_id: IdCounter,
}

impl View for ActorRegistry {
    type V = Map<usize, ActorLifecycleProducer>;

    open spec fn view(&self) -> Map<usize, ActorLifecycleProducer> {
        self.actors@
    }
}

impl ActorRegistry {
    pub open spec fn wf(self) -> bool {
        forall|key: usize| #[trigger] self@.contains_key(key) ==> self@[key].state@.wf()
    }

    /// Every actor reports through a run that is open.
    pub open spec fn fits<A: SpanEventAdmission>(self, runs: DiagnosticRuns<A>) -> bool {
        forall|key: usize| #[trigger]
            self@.contains_key(key) ==> {
                &&& self@[key].run < runs@.len()
                &&& self@[key].owner matches Some(owner) ==> owner < runs@.len()
            }
    }

    pub fn new() -> (registry: Self)
        ensures
            registry@ == Map::<usize, ActorLifecycleProducer>::empty(),
            registry.next_actor_id.next == 1,
            registry.wf(),
    {
        ActorRegistry { actors: HashMap::new(), next_actor_id: IdCounter::new() }
    }

    /// The run that a production reports to: the run of its binding, else the run that it is being
    /// constructed in.
    pub open spec fn spec_source(
        runtimes: RuntimeProducerRegistry,
        binding_key: Option<usize>,
        construction: Option<ProductionConstruction>,
    ) -> Option<ActorEventSource> {
        match runtimes.spec_bound(binding_key) {
            Some(place) => {
                let runtime = runtimes.producers@[place as int];
                Some(
                    ActorEventSource {
                        run: runtime.run,
                        containing_span_id: Some(runtime.state.run_span_id),
                        owner: Some(runtime.run),
                    },
                )
            },
            None => match construction {
                Some(construction) => Some(
                    ActorEventSource {
                        run: construction.run,
                        containing_span_id: Some(construction.construct_span_id),
                        owner: None,
                    },
                ),
                None => None,
            },
        }
    }

    pub fn source_for_production(
        runtimes: &RuntimeProducerRegistry,
        binding_key: Option<usize>,
        construction: Option<ProductionConstruction>,
    ) -> (source: Option<ActorEventSource>)
        requires
            runtimes.wf(),
        ensures
            source == ActorRegistry::spec_source(*runtimes, binding_key, construction),
    {
        if let Some(place) = runtimes.producer_bound(binding_key) {
            let run: usize = runtimes.producers[place].run;
            return Some(
                ActorEventSource {
                    run,
                    containing_span_id: Some(runtimes.producers[place].state.run_span_id),
                    owner: Some(run),
                },
            );
        }
        match construction {
            Some(construction) => Some(
                ActorEventSource {
                    run: construction.run,
                    containing_span_id: Some(construction.construct_span_id),
                    owner: None,
                },
            ),
            None => None,
        }
    }

    /// What the cast of an actor does. Its number is used up even where it cannot be reported.
    pub open spec fn on_cast_started<A: SpanEventAdmission>(
        self,
        after: Self,
        runs: DiagnosticRuns<A>,
        runs_after: DiagnosticRuns<A>,
        source: ActorEventSource,
        key: usize,
        detail: ActorDetail,
    ) -> bool {
        let before = runs@[source.run as int].context;
        let context = runs_after@[source.run as int].context;
        if self@.contains_key(key) {
            &&& after == self
            &&& runs_after@ =~= DiagnosticRuns::latched_at(
                runs@,
                source.owner,
                Some(RuntimeProducerError::State { code: "actor.lifecycle-already-started" }),
            )
        } else if self.next_actor_id.next == u64::MAX {
            &&& after == self
            &&& runs_after@ =~= DiagnosticRuns::latched_at(
                runs@,
                source.owner,
                Some(RuntimeProducerError::State { code: "actor.identifier-exhausted" }),
            )
        } else {
            &&& after.next_actor_id.next == self.next_actor_id.next + 1
            &&& runs_after.stepped(
                runs,
                source.run,
                source.owner,
                RuntimeProducerError::refused(context.refusal_since(before)),
            )
            &&& exists|actor_id: RunLocalId| #[trigger]
                self.cast_as(after, before, context, source, key, detail, actor_id)
        }
    }

    /// The cast was reported under an identifier with the next number. Where nothing was refused,
    /// the actor is under way since.
    pub open spec fn cast_as<A: SpanEventAdmission>(
        self,
        after: Self,
        before: DiagnosticRunContext<A>,
        context: DiagnosticRunContext<A>,
        source: ActorEventSource,
        key: usize,
        detail: ActorDetail,
        actor_id: RunLocalId,
    ) -> bool {
        let number = self.next_actor_id.next;
        &&& actor_id@ == crate::identifier::numbered("actor-"@, number)
        &&& context.reports(
            before,
            ActorLifecycleProducer::start_plan(actor_id, detail, source.containing_span_id),
        )
        &&& if context.stopped_since(before) {
            after@ =~= self@
        } else {
            &&& after@.contains_key(key)
            &&& after@ =~= self@.insert(key, after@[key])
            &&& after@[key].session.actor_id@ == actor_id@
            &&& after@[key].session.session_id@ == crate::identifier::numbered(
                "agent-session-"@,
                number,
            )
            &&& after@[key].is_started(
                source,
                actor_id,
                after@[key].session,
                detail,
                context.accepted_since(before)[1],
            )
        }
    }

    /// An actor is cast.
    pub fn start_actor<A: SpanEventAdmission>(
        &mut self,
        runs: &mut DiagnosticRuns<A>,
        source: ActorEventSource,
        key: usize,
        detail: ActorDetail,
    )
        requires
            old(self).wf(),
            old(self).fits(*old(runs)),
            source.run < old(runs)@.len(),
            source.owner matches Some(owner) ==> owner < old(runs)@.len(),
        ensures
            final(self).wf(),
            final(self).fits(*final(runs)),
            final(runs)@.len() == old(runs)@.len(),
            old(self).on_cast_started(
                *final(self),
                *old(runs),
                *final(runs),
                source,
                key,
                detail,
            ),
    {
        if self.actors.contains_key(&key) {
            runs.latch_at(
                source.owner,
                Some(RuntimeProducerError::state("actor.lifecycle-already-started")),
            );
            return;
        }
        let value = match self.next_actor_id.take() {
            Some(value) => value,
            None => {
                runs.latch_at(
                    source.owner,
                    Some(RuntimeProducerError::state("actor.identifier-exhausted")),
                );
                return;
            },
        };
        let actor_id = numbered_id("actor-", value);
        let session = AgentSessionDiagnosticContext {
            actor_id: actor_id.text.clone(),
            session_id: numbered_text("agent-session-", value),
        };
        let ghost id = actor_id;
        let ghost before = runs@[source.run as int].context;
        let started = ActorLifecycleProducer::start(
            source,
            &mut runs.runs[source.run].context,
            actor_id,
            session,
            detail,
        );
        match started {
            Ok(producer) => {
                self.actors.insert(key, producer);
                assert(runs.stepped(*old(runs), source.run, source.owner, None));
            },
            Err(error) => {
                let failure = Some(RuntimeProducerError::Diagnostic(error));
                let ghost latched = failure;
                runs.latch_at(source.owner, failure);
                assert(runs.stepped(*old(runs), source.run, source.owner, latched));
            },
        }
        assert(old(self).cast_as(
            *self,
            before,
            runs@[source.run as int].context,
            source,
            key,
            detail,
            id,
        ));
    }

    /// A production casts an actor. Where nothing is reported, or the run has failed, nothing
    /// happens.
    pub fn cast_started<A: SpanEventAdmission>(
        &mut self,
        runtimes: &RuntimeProducerRegistry,
        runs: &mut DiagnosticRuns<A>,
        binding_key: Option<usize>,
        construction: Option<ProductionConstruction>,
        key: usize,
        names: &ActorNames,
    )
        requires
            old(self).wf(),
            old(self).fits(*old(runs)),
            runtimes.wf(),
            runtimes.fits(*old(runs)),
            construction matches Some(construction) ==> construction.run < old(runs)@.len(),
        ensures
            final(self).wf(),
            final(self).fits(*final(runs)),
            final(runs)@.len() == old(runs)@.len(),
            match ActorRegistry::spec_source(*runtimes, binding_key, construction) {
                Some(source) => {
                    if source.owner matches Some(owner) && old(runs)@[owner as int].failure
                        is Some {
                        *final(self) == *old(self) && *final(runs) == *old(runs)
                    } else {
                        match spec_actor_detail(*names) {
                            Ok(detail) => old(self).on_cast_started(
                                *final(self),
                                *old(runs),
                                *final(runs),
                                source,
                                key,
                                detail,
                            ),
                            Err(code) => {
                                &&& *final(self) == *old(self)
                                &&& final(runs)@ == DiagnosticRuns::latched_at(
                                    old(runs)@,
                                    source.owner,
                                    Some(RuntimeProducerError::State { code }),
                                )
                            },
                        }
                    }
                },
                None => *final(self) == *old(self) && *final(runs) == *old(runs),
            },
    {
        let source = match ActorRegistry::source_for_production(
            runtimes,
            binding_key,
            construction,
        ) {
            Some(source) => source,
            None => return,
        };
        if let Some(owner) = source.owner {
            if runs.runs[owner].failure.is_some() {
                return;
            }
        }
        let detail = match actor_detail(names) {
            Ok(detail) => detail,
            Err(code) => {
                runs.latch_at(source.owner, Some(RuntimeProducerError::state(code)));
                return;
            },
        };
        self.start_actor(runs, source, key, detail);
    }

    /// What a transition of an actor does. Its failure is latched first. Where it ends the actor,
    /// the end is reported and the actor is forgotten.
    pub open spec fn on_transition<A: SpanEventAdmission>(
        self,
        after: Self,
        runs: DiagnosticRuns<A>,
        runs_after: DiagnosticRuns<A>,
        key: usize,
        producer: ActorLifecycleProducer,
        fallback: Option<usize>,
        transition: Transition,
    ) -> bool {
        let owner = producer.failure_owner(fallback);
        let latched = DiagnosticRuns::latched_at(
            runs@,
            owner,
            match transition.state_error {
                Some(code) => Some(RuntimeProducerError::State { code }),
                None => None,
            },
        );
        let before = latched[producer.run as int].context;
        let context = runs_after@[producer.run as int].context;
        &&& after.next_actor_id == self.next_actor_id
        &&& match transition.terminal {
            None => after@ =~= self@.insert(key, producer) && runs_after@ =~= latched,
            Some(terminal) => {
                &&& after@ =~= self@.remove(key)
                &&& context.reports(before, producer.end_event(terminal).alone())
                &&& runs_after@ =~= DiagnosticRuns::latched_at(
                    DiagnosticRuns::reported_at(latched, producer.run, context),
                    owner,
                    RuntimeProducerError::refused(context.refusal_since(before)),
                )
            },
        }
    }

    fn apply_transition<A: SpanEventAdmission>(
        &mut self,
        runs: &mut DiagnosticRuns<A>,
        key: usize,
        producer: ActorLifecycleProducer,
        fallback: Option<usize>,
        transition: Transition,
    )
        requires
            old(self).wf(),
            old(self).fits(*old(runs)),
            producer.state@.wf(),
            producer.run < old(runs)@.len(),
            producer.owner matches Some(owner) ==> owner < old(runs)@.len(),
            fallback matches Some(owner) ==> owner < old(runs)@.len(),
        ensures
            final(self).wf(),
            final(self).fits(*final(runs)),
            final(runs)@.len() == old(runs)@.len(),
            old(self).on_transition(
                *final(self),
                *old(runs),
                *final(runs),
                key,
                producer,
                fallback,
                transition,
            ),
    {
        let owner = match producer.owner {
            Some(owner) => Some(owner),
            None => fallback,
        };
        let state_failure = match transition.state_error {
            Some(code) => Some(RuntimeProducerError::state(code)),
            None => None,
        };
        runs.latch_at(owner, state_failure);
        let ghost latched = runs@;
        let terminal = match transition.terminal {
            Some(terminal) => terminal,
            None => {
                self.actors.insert(key, producer);
                return;
            },
        };
        let run: usize = producer.run;
        let finished = runs.runs[run].context.finish_span(
            producer.scope.clone(),
            producer.handle_span_id,
            terminal.outcome,
            terminal.event_code(),
        );
        assert(runs@[run as int].context.reports(
            latched[run as int].context,
            producer.end_event(terminal).alone(),
        ));
        let refused = match finished {
            Ok(()) => None,
            Err(error) => Some(RuntimeProducerError::Diagnostic(error)),
        };
        runs.latch_at(owner, refused);
        self.actors.remove(&key);
    }

    /// An actor takes a hook of its own. An actor that is not under way takes none.
    pub fn observe_identity<A: SpanEventAdmission>(
        &mut self,
        runtimes: &RuntimeProducerRegistry,
        runs: &mut DiagnosticRuns<A>,
        binding_key: Option<usize>,
        key: usize,
        hook: ActorHook,
    )
        requires
            old(self).wf(),
            old(self).fits(*old(runs)),
            runtimes.wf(),
            runtimes.fits(*old(runs)),
        ensures
            final(self).wf(),
            final(self).fits(*final(runs)),
            final(runs)@.len() == old(runs)@.len(),
            if hook is RegistryReserved || !old(self)@.contains_key(key) {
                &&& final(self)@ == old(self)@
                &&& final(self).next_actor_id == old(self).next_actor_id
                &&& *final(runs) == *old(runs)
            } else {
                let producer = old(self)@[key];
                let (state, transition) = producer.state@.on_identity(hook);
                exists|producer_after: ActorLifecycleProducer|
                    {
                        &&& producer_after.state@ == state
                        &&& producer_after == (ActorLifecycleProducer {
                            state: producer_after.state,
                            ..producer
                        })
                        &&& #[trigger] old(self).on_transition(
                            *final(self),
                            *old(runs),
                            *final(runs),
                            key,
                            producer_after,
                            runtimes.spec_run_bound(binding_key),
                            transition,
                        )
                    }
            },
    {
        if matches!(hook, ActorHook::RegistryReserved) {
            return;
        }
        let mut producer = match self.actors.remove(&key) {
            Some(producer) => producer,
            None => {
                assert(self@ =~= old(self)@);
                return;
            },
        };
        let fallback = runtimes.run_bound(binding_key);
        let transition = producer.state.observe_identity(hook);
        let ghost producer_after = producer;
        self.apply_transition(runs, key, producer, fallback, transition);
        assert(old(self)@.remove(key).insert(key, producer_after) =~= old(self)@.insert(
            key,
            producer_after,
        ));
        assert(old(self)@.remove(key).remove(key) =~= old(self)@.remove(key));
        assert(old(self).on_transition(
            *self,
            *old(runs),
            *runs,
            key,
            producer_after,
            fallback,
            transition,
        ));
    }

    /// A handle to an actor takes a hook.
    pub fn observe_handle<A: SpanEventAdmission>(
        &mut self,
        runtimes: &RuntimeProducerRegistry,
        runs: &mut DiagnosticRuns<A>,
        binding_key: Option<usize>,
        key: usize,
        handle: u64,
        hook: ActorHook,
    )
        requires
            old(self).wf(),
            old(self).fits(*old(runs)),
            runtimes.wf(),
            runtimes.fits(*old(runs)),
        ensures
            final(self).wf(),
            final(self).fits(*final(runs)),
            final(runs)@.len() == old(runs)@.len(),
            if !old(self)@.contains_key(key) {
                &&& final(self)@ == old(self)@
                &&& final(self).next_actor_id == old(self).next_actor_id
                &&& *final(runs) == *old(runs)
            } else {
                let producer = old(self)@[key];
                exists|producer_after: ActorLifecycleProducer, transition: Transition|
                    {
                        &&& producer.state@.on_handle(
                            producer_after.state@,
                            transition,
                            handle,
                            hook,
                        )
                        &&& producer_after == (ActorLifecycleProducer {
                            state: producer_after.state,
                            ..producer
                        })
                        &&& #[trigger] old(self).on_transition(
                            *final(self),
                            *old(runs),
                            *final(runs),
                            key,
                            producer_after,
                            runtimes.spec_run_bound(binding_key),
                            transition,
                        )
                    }
            },
    {
        let mut producer = match self.actors.remove(&key) {
            Some(producer) => producer,
            None => {
                assert(self@ =~= old(self)@);
                return;
            },
        };
        let fallback = runtimes.run_bound(binding_key);
        let transition = producer.state.observe_handle(handle, hook);
        let ghost producer_after = producer;
        self.apply_transition(runs, key, producer, fallback, transition);
        assert(old(self)@.remove(key).insert(key, producer_after) =~= old(self)@.insert(
            key,
            producer_after,
        ));
        assert(old(self)@.remove(key).remove(key) =~= old(self)@.remove(key));
        assert(old(self).on_transition(
            *self,
            *old(runs),
            *runs,
            key,
            producer_after,
            fallback,
            transition,
        ));
    }

    /// Clearing a raw actor changes nothing: it ends when its production lets it go.
    pub fn cleared(&mut self, key: usize)
        ensures
            *final(self) == *old(self),
    {
    }

    pub open spec fn on_cast_finished<A: SpanEventAdmission>(
        self,
        after: Self,
        runtimes: RuntimeProducerRegistry,
        runs: DiagnosticRuns<A>,
        runs_after: DiagnosticRuns<A>,
        binding_key: Option<usize>,
        key: usize,
        names: ActorNames,
        terminal: CastTerminal,
        handle: Option<u64>,
    ) -> bool {
        if !self@.contains_key(key) {
            &&& after@ == self@
            &&& after.next_actor_id == self.next_actor_id
            &&& runs_after == runs
        } else {
            let producer = self@[key];
            let (state, transition) = producer.state@.on_cast_finished(
                terminal,
                handle,
                producer.is_named(names),
            );
            exists|producer_after: ActorLifecycleProducer|
                {
                    &&& producer_after.state@ == state
                    &&& producer_after == (ActorLifecycleProducer {
                        state: producer_after.state,
                        ..producer
                    })
                    &&& #[trigger] self.on_transition(
                        after,
                        runs,
                        runs_after,
                        key,
                        producer_after,
                        runtimes.spec_run_bound(binding_key),
                        transition,
                    )
                }
        }
    }

    /// What came of the end of a cast, with a handle or with what is known of its error.
    pub open spec fn on_cast_ended<A: SpanEventAdmission>(
        self,
        after: Self,
        runtimes: RuntimeProducerRegistry,
        runs: DiagnosticRuns<A>,
        runs_after: DiagnosticRuns<A>,
        binding_key: Option<usize>,
        key: usize,
        names: ActorNames,
        outcome: Result<u64, ErrorClass>,
    ) -> bool {
        self.on_cast_finished(
            after,
            runtimes,
            runs,
            runs_after,
            binding_key,
            key,
            names,
            match outcome {
                Ok(_) => CastTerminal::Succeeded,
                Err(error) => if error.cancelled {
                    CastTerminal::Cancelled
                } else {
                    CastTerminal::Failed
                },
            },
            match outcome {
                Ok(handle) => Some(handle),
                Err(_) => None,
            },
        )
    }

    /// The cast of an actor has ended, with a handle to it or with what is known of its error.
    pub fn cast_ended<A: SpanEventAdmission>(
        &mut self,
        runtimes: &RuntimeProducerRegistry,
        runs: &mut DiagnosticRuns<A>,
        binding_key: Option<usize>,
        key: usize,
        names: &ActorNames,
        outcome: Result<u64, ErrorClass>,
    )
        requires
            old(self).wf(),
            old(self).fits(*old(runs)),
            runtimes.wf(),
            runtimes.fits(*old(runs)),
        ensures
            final(self).wf(),
            final(self).fits(*final(runs)),
            final(runs)@.len() == old(runs)@.len(),
            old(self).on_cast_ended(
                *final(self),
                *runtimes,
                *old(runs),
                *final(runs),
                binding_key,
                key,
                *names,
                outcome,
            ),
    {
        let mut producer = match self.actors.remove(&key) {
            Some(producer) => producer,
            None => {
                assert(self@ =~= old(self)@);
                return;
            },
        };
        let fallback = runtimes.run_bound(binding_key);
        let detail_matches = match actor_detail(names) {
            Ok(detail) => detail.same(&producer.detail),
            Err(_) => false,
        };
        let (terminal, handle) = match outcome {
            Ok(handle) => (CastTerminal::Succeeded, Some(handle)),
            Err(error) => if error.cancelled {
                (CastTerminal::Cancelled, None)
            } else {
                (CastTerminal::Failed, None)
            },
        };
        let transition = producer.state.cast_finished(terminal, handle, detail_matches);
        let ghost producer_after = producer;
        self.apply_transition(runs, key, producer, fallback, transition);
        assert(old(self)@.remove(key).insert(key, producer_after) =~= old(self)@.insert(
            key,
            producer_after,
        ));
        assert(old(self)@.remove(key).remove(key) =~= old(self)@.remove(key));
        assert(old(self).on_transition(
            *self,
            *old(runs),
            *runs,
            key,
            producer_after,
            fallback,
            transition,
        ));
    }

    /// The cast of an actor has ended, with a handle to it or with the error that it raised.
    pub fn cast_finished<A: SpanEventAdmission>(
        &mut self,
        runtimes: &RuntimeProducerRegistry,
        runs: &mut DiagnosticRuns<A>,
        binding_key: Option<usize>,
        key: usize,
        names: &ActorNames,
        outcome: Result<u64, &pyo3::PyErr>,
    )
        requires
            old(self).wf(),
            old(self).fits(*old(runs)),
            runtimes.wf(),
            runtimes.fits(*old(runs)),
        ensures
            final(self).wf(),
            final(self).fits(*final(runs)),
            final(runs)@.len() == old(runs)@.len(),
            match outcome {
                Ok(handle) => old(self).on_cast_ended(
                    *final(self),
                    *runtimes,
                    *old(runs),
                    *final(runs),
                    binding_key,
                    key,
                    *names,
                    Ok(handle),
                ),
                Err(error) => exists|class: ErrorClass|
                    #[trigger] class.is_of(*error) && old(self).on_cast_ended(
                        *final(self),
                        *runtimes,
                        *old(runs),
                        *final(runs),
                        binding_key,
                        key,
                        *names,
                        Err(class),
                    ),
            },
    {
        let outcome = match outcome {
            Ok(handle) => Ok(handle),
            Err(error) => Err(ErrorClass::of(error)),
        };
        self.cast_ended(runtimes, runs, binding_key, key, names, outcome);
    }

    pub open spec fn spec_lineage(self, key: usize) -> Option<ActorLineageSnapshot> {
        if self@.contains_key(key) {
            self@[key].spec_snapshot()
        } else {
            None
        }
    }

    pub fn lineage_snapshot(&self, key: usize) -> (snapshot: Option<ActorLineageSnapshot>)
        ensures
            snapshot == self.spec_lineage(key),
    {
        match self.actors.get(&key) {
            Some(producer) => producer.snapshot(),
            None => None,
        }
    }

    /// The agent session of an actor that is under way.
    pub fn agent_session_context(&self, key: usize) -> (session: Option<
        AgentSessionDiagnosticContext,
    >)
        ensures
            session == if self@.contains_key(key) {
                Some(self@[key].session)
            } else {
                None
            },
    {
        match self.actors.get(&key) {
            Some(producer) => Some(producer.session.clone()),
            None => None,
        }
    }
}

/// The span of an actor ends once.
pub proof fn actor_ends_once(
    state: ActorState,
    after: ActorState,
    transition: Transition,
    hook: ActorHook,
    identity: u64,
    terminal: CastTerminal,
    handle: Option<u64>,
    detail_matches: bool,
)
    requires
        state.finish_attempted,
        (after, transition) == state.on_identity(hook) || state.on_handle(
            after,
            transition,
            identity,
            hook,
        ) || (after, transition) == state.on_cast_finished(terminal, handle, detail_matches),
    ensures
        transition.terminal is None,
        after.finish_attempted,
{
}

/// An actor whose cast has succeeded ends when it is detached, and one whose cast has not does not.
pub proof fn detached_actor_ends_with_its_cast(state: ActorState)
    requires
        !state.detached,
        !state.finish_attempted,
    ensures
        state.on_identity(ActorHook::RegistryDetached).1.terminal == if state.cast_terminal == Some(
            CastTerminal::Succeeded,
        ) {
            Some(TerminalSpan::spec_completed())
        } else {
            None
        },
{
}

/// The cast of an actor within a span that has begun, or within none, refers only to what was
/// reported before, and the span of the actor's handles has begun since.
pub proof fn cast_refers_back<A: SpanEventAdmission>(
    context: DiagnosticRunContext<A>,
    context_after: DiagnosticRunContext<A>,
    actor_id: RunLocalId,
    detail: ActorDetail,
    containing_span_id: Option<u64>,
)
    requires
        crate::references::refer_back(context.trace()),
        containing_span_id matches Some(span_id) ==> crate::references::begun_in(
            context.trace(),
            span_id,
        ),
        context_after.reports(
            context,
            ActorLifecycleProducer::start_plan(actor_id, detail, containing_span_id),
        ),
    ensures
        crate::references::refer_back(context_after.trace()),
        crate::references::goes_on(context.trace(), context_after.trace()),
        crate::context::Attempt::nth(context_after.accepted_since(context), 1) matches Some(handle_span_id)
            ==> crate::references::begun_in(context_after.trace(), handle_span_id),
{
    let plan = ActorLifecycleProducer::start_plan(actor_id, detail, containing_span_id);
    assert forall|accepted: Seq<u64>|
        #[trigger] crate::references::sound_after(plan, context.trace(), accepted) by {}
    crate::references::sound_plans_refer_back(context_after, context, plan);
    let accepted = context_after.accepted_since(context);
    if accepted.len() >= 2 {
        assert(crate::references::starts_at(plan, accepted, 1));
    }
}

/// The end of an actor refers to the span of its handles.
pub proof fn end_of_an_actor_refers_back<A: SpanEventAdmission>(
    actor: ActorLifecycleProducer,
    context: DiagnosticRunContext<A>,
    context_after: DiagnosticRunContext<A>,
    terminal: TerminalSpan,
)
    requires
        crate::references::refer_back(context.trace()),
        crate::references::begun_in(context.trace(), actor.handle_span_id),
        context_after.reports(context, actor.end_event(terminal).alone()),
    ensures
        crate::references::refer_back(context_after.trace()),
        crate::references::goes_on(context.trace(), context_after.trace()),
{
    crate::references::one_fact_refers_back(context_after, context, actor.end_event(terminal));
}

/// Two actors that were cast one after the other have different identifiers, also where they have
/// the same names.
pub proof fn started_actors_are_apart<A: SpanEventAdmission>(
    actors: ActorRegistry,
    actors_after: ActorRegistry,
    later: ActorRegistry,
    later_after: ActorRegistry,
    before: DiagnosticRunContext<A>,
    context: DiagnosticRunContext<A>,
    source: ActorEventSource,
    key: usize,
    detail: ActorDetail,
    first: RunLocalId,
    later_before: DiagnosticRunContext<A>,
    later_context: DiagnosticRunContext<A>,
    later_source: ActorEventSource,
    later_key: usize,
    later_detail: ActorDetail,
    second: RunLocalId,
)
    requires
        actors.cast_as(actors_after, before, context, source, key, detail, first),
        actors.next_actor_id.next < later.next_actor_id.next,
        later.cast_as(
            later_after,
            later_before,
            later_context,
            later_source,
            later_key,
            later_detail,
            second,
        ),
    ensures
        first@ != second@,
{
    crate::identifier::numbered_ids_are_distinct(
        "actor-"@,
        actors.next_actor_id.next,
        later.next_actor_id.next,
    );
}

/// The cast of an actor that is under way ends with the actor told as it did, or not at all: a cast
/// that failed ends the span of the actor's handles as failed, one that was cancelled as cancelled,
/// one that succeeded leaves it open until the actor is detached, and where it is detached already
/// ends it as completed. Nothing else is told.
pub proof fn actor_ends_as_its_cast_did<A: SpanEventAdmission>(
    actors: ActorRegistry,
    after: ActorRegistry,
    runtimes: RuntimeProducerRegistry,
    runs: DiagnosticRuns<A>,
    runs_after: DiagnosticRuns<A>,
    binding_key: Option<usize>,
    key: usize,
    names: ActorNames,
    terminal: CastTerminal,
    handle: Option<u64>,
)
    requires
        actors.fits(runs),
        runtimes.wf(),
        runtimes.fits(runs),
        actors.on_cast_finished(
            after,
            runtimes,
            runs,
            runs_after,
            binding_key,
            key,
            names,
            terminal,
            handle,
        ),
        actors@.contains_key(key),
    ensures
        ({
            let actor = actors@[key];
            let facts = runs_after@[actor.run as int].context.steps_since(
                runs@[actor.run as int].context,
            );
            let under_way = actor.state.cast_terminal is None && !actor.state.finish_attempted;
            let ends = under_way && (terminal !is Succeeded || actor.state.detached);
            &&& facts.len() == if ends { 1int } else { 0int }
            &&& after@.contains_key(key) <==> !ends
            &&& ends ==> {
                &&& facts[0].candidate.scope == actor.scope
                &&& facts[0].candidate.cause is None
                &&& facts[0].candidate.body matches crate::event::EventBody::SpanFinished {
                    span_id,
                    outcome,
                    error_code,
                } && {
                    &&& span_id == actor.handle_span_id
                    &&& outcome is Completed <==> terminal is Succeeded
                    &&& outcome is Failed <==> terminal is Failed
                    &&& outcome is Cancelled <==> terminal is Cancelled
                    &&& error_code is None <==> terminal is Succeeded
                    &&& terminal is Failed ==> error_code->0@ == "actor-cast-failed"@
                    &&& terminal is Cancelled ==> error_code->0@ == "actor-cast-cancelled"@
                }
            }
            &&& under_way && !ends ==> after@[key].state.cast_terminal == Some(
                CastTerminal::Succeeded,
            ) && !after@[key].state.finish_attempted && after@[key].state.constructed
                == actor.state.constructed && after@[key].state.committed == actor.state.committed
                && after@[key].state.detached == actor.state.detached && after@[key].state.handles@
                == actor.state.handles@
            &&& !under_way ==> after@[key].state@ == actor.state@
            &&& forall|other: usize|
                other != key ==> (#[trigger] after@.contains_key(other) <==> actors@.contains_key(
                    other,
                )) && (actors@.contains_key(other) ==> after@[other] == actors@[other])
        }),
{
    let producer = actors@[key];
    let (state, transition) = producer.state@.on_cast_finished(
        terminal,
        handle,
        producer.is_named(names),
    );
    let fallback = runtimes.spec_run_bound(binding_key);
    let producer_after = choose|producer_after: ActorLifecycleProducer|
        {
            &&& producer_after.state@ == state
            &&& producer_after == (ActorLifecycleProducer {
                state: producer_after.state,
                ..producer
            })
            &&& #[trigger] actors.on_transition(
                after,
                runs,
                runs_after,
                key,
                producer_after,
                fallback,
                transition,
            )
        };
    transition_tells_one_end(actors, after, runs, runs_after, key, producer_after, fallback, transition);
}

/// A transition tells the end of the actor where it has one, and nothing where it has none.
proof fn transition_tells_one_end<A: SpanEventAdmission>(
    actors: ActorRegistry,
    after: ActorRegistry,
    runs: DiagnosticRuns<A>,
    runs_after: DiagnosticRuns<A>,
    key: usize,
    producer: ActorLifecycleProducer,
    fallback: Option<usize>,
    transition: Transition,
)
    requires
        actors.on_transition(after, runs, runs_after, key, producer, fallback, transition),
        producer.run < runs@.len(),
        producer.failure_owner(fallback) matches Some(owner) ==> owner < runs@.len(),
    ensures
        ({
            let facts = runs_after@[producer.run as int].context.steps_since(
                runs@[producer.run as int].context,
            );
            &&& transition.terminal is None ==> facts.len() == 0
            &&& transition.terminal matches Some(terminal) ==> facts.len() == 1
                && facts[0].candidate == producer.end_event(terminal)
        }),
{
    let owner = producer.failure_owner(fallback);
    let latched = DiagnosticRuns::latched_at(
        runs@,
        owner,
        match transition.state_error {
            Some(code) => Some(RuntimeProducerError::State { code }),
            None => None,
        },
    );
    let before = latched[producer.run as int].context;
    assert(before == runs@[producer.run as int].context);
    let context = runs_after@[producer.run as int].context;
    match transition.terminal {
        None => {
            assert(context == before);
            assert(context.steps_since(before).len() == 0);
        },
        Some(terminal) => {
            crate::references::lone_fact(before, context, producer.end_event(terminal));
        },
    }
}

/// A cast is told in its own order: that the actor was cast, within what casts it, and then the
/// start of the span of its handles, both in the actor's own scope and with its names. The actor is
/// under way exactly where both were accepted, with that span and with nothing constructed,
/// committed, detached or ended.
pub proof fn cast_begins_the_actor<A: SpanEventAdmission>(
    actors: ActorRegistry,
    after: ActorRegistry,
    before: DiagnosticRunContext<A>,
    context: DiagnosticRunContext<A>,
    source: ActorEventSource,
    key: usize,
    detail: ActorDetail,
    actor_id: RunLocalId,
)
    requires
        !actors@.contains_key(key),
        actors.cast_as(after, before, context, source, key, detail, actor_id),
    ensures
        ({
            let facts = context.steps_since(before);
            &&& 1 <= facts.len() <= 2
            &&& forall|i: int|
                0 <= i < facts.len() ==> (#[trigger] facts[i]).candidate.scope == (DiagnosticScope {
                    scene_id: None,
                    actor_id: Some(actor_id),
                    cue_id: None,
                    effect_id: None,
                    act_id: None,
                    tool_call_id: None,
                    session_generation: None,
                }) && facts[i].candidate.cause is None
            &&& facts[0].candidate.body == (crate::event::EventBody::InstantOccurred {
                instant: InstantDetail::ActorCast(detail),
                containing_span_id: source.containing_span_id,
            })
            &&& facts[0].reply is Ok ==> facts.len() == 2
            &&& facts.len() == 2 ==> facts[1].candidate.body == (crate::event::EventBody::SpanStarted {
                detail: SpanStartDetail::ActorHandleLifetime(detail),
                parent_span_id: None,
            })
            &&& after@.contains_key(key) <==> facts.last().reply is Ok
            &&& after@.contains_key(key) ==> {
                let actor = after@[key];
                &&& actor.handle_span_id == facts[1].reply->Ok_0
                &&& actor.scope == facts[1].candidate.scope
                &&& actor.detail == detail
                &&& actor.run == source.run && actor.owner == source.owner
                &&& actor.session.actor_id@ == actor_id@
                &&& !actor.state@.constructed && !actor.state@.committed && !actor.state@.detached
                &&& actor.state@.cast_terminal is None && !actor.state@.finish_attempted
                &&& actor.state@.handles.len() == 0
            }
        }),
{
    let plan = ActorLifecycleProducer::start_plan(actor_id, detail, source.containing_span_id);
    crate::references::planned_facts(before, context, plan);
    let facts = context.steps_since(before);
    let given = |i: int| crate::references::sequences(facts, i);
    assert(plan(given(0)) is Some);
    assert(plan(given(1)) is Some);
    assert(plan(given(2)) is None);
    assert(facts.len() <= 2) by {
        if facts.len() > 2 {
            assert(plan(given(2)) == Some(facts[2].candidate));
        }
    }
}

/// An actor is constructed, committed and detached once each; the first two only before its cast
/// ends. Each sets its own mark and no other, a second time is an error that changes nothing, and
/// only detaching can end the actor.
pub proof fn identity_hooks_set_their_own_mark(state: ActorState, hook: ActorHook)
    ensures
        ({
            let (after, transition) = state.on_identity(hook);
            let taken = match hook {
                ActorHook::Constructed => !state.constructed && state.cast_terminal is None,
                ActorHook::RegistryCommitted => !state.committed && state.cast_terminal is None,
                ActorHook::RegistryDetached => !state.detached,
                ActorHook::RegistryReserved => true,
                _ => false,
            };
            &&& transition.state_error is None <==> taken
            &&& !taken ==> after == state && transition.terminal is None
            &&& after.constructed <==> state.constructed || (taken && hook is Constructed)
            &&& after.committed <==> state.committed || (taken && hook is RegistryCommitted)
            &&& after.detached <==> state.detached || (taken && hook is RegistryDetached)
            &&& after.handles == state.handles
            &&& after.cast_terminal == state.cast_terminal
            &&& transition.terminal is Some <==> taken && hook is RegistryDetached
                && state.cast_terminal == Some(CastTerminal::Succeeded) && !state.finish_attempted
            &&& transition.terminal matches Some(terminal) ==> terminal.outcome is Completed
                && terminal.error_code is None
            &&& after.finish_attempted <==> state.finish_attempted || transition.terminal is Some
        }),
{
}

/// A handle is created once, while the actor is there, and cleared once, after it was created. What
/// a handle does changes nothing but that handle and never ends the actor.
pub proof fn handles_are_created_and_cleared_once(
    state: ActorState,
    after: ActorState,
    transition: Transition,
    identity: u64,
    hook: ActorHook,
)
    requires
        state.wf(),
        state.on_handle(after, transition, identity, hook),
    ensures
        ({
            let known = exists|i: int|
                0 <= i < state.handles.len() && (#[trigger] state.handles[i]).identity == identity;
            let open = exists|i: int|
                0 <= i < state.handles.len() && (#[trigger] state.handles[i]).identity == identity
                    && !state.handles[i].cleared;
            let lost = state.cast_terminal matches Some(terminal) && terminal !is Succeeded;
            &&& transition.terminal is None
            &&& hook is HandleCreated ==> (transition.state_error is None <==> !known
                && !state.detached && !state.finish_attempted && !lost)
            &&& hook is HandleCreated && transition.state_error is None ==> after.handles
                == state.handles.push(HandleState { identity, cleared: false })
            &&& hook is HandleCleared ==> (transition.state_error is None <==> open)
            &&& hook is HandleCleared && transition.state_error is None ==> {
                &&& after.handles.len() == state.handles.len()
                &&& forall|i: int|
                    0 <= i < state.handles.len() ==> {
                        &&& (#[trigger] after.handles[i]).identity == state.handles[i].identity
                        &&& after.handles[i].cleared <==> state.handles[i].cleared
                            || state.handles[i].identity == identity
                    }
            }
            &&& hook !is HandleCreated && hook !is HandleCleared ==> transition.state_error is Some
            &&& transition.state_error is Some ==> after == state
            &&& after.constructed == state.constructed && after.committed == state.committed
            &&& after.detached == state.detached && after.cast_terminal == state.cast_terminal
            &&& after.finish_attempted == state.finish_attempted
        }),
{
}

/// A cast that succeeded is in order exactly where the actor was constructed and committed and has
/// the handle that the cast gave; any cast, where the actor is named as it was. A second end of a
/// cast is an error that changes nothing.
pub proof fn successful_cast_has_its_handle(
    state: ActorState,
    terminal: CastTerminal,
    handle: Option<u64>,
    detail_matches: bool,
)
    ensures
        ({
            let (after, transition) = state.on_cast_finished(terminal, handle, detail_matches);
            let under_way = state.cast_terminal is None && !state.finish_attempted;
            let given = handle is Some && exists|i: int|
                0 <= i < state.handles.len() && (#[trigger] state.handles[i]).identity == handle->0;
            &&& transition.state_error is None <==> under_way && detail_matches && (terminal
                is Succeeded ==> state.constructed && state.committed && given)
            &&& !under_way ==> after == state
            &&& under_way ==> after.cast_terminal == Some(terminal)
        }),
{
}

/// An actor can be referred to from when its cast succeeded until it is detached or ended, with its
/// own scope and the span of its handles.
pub proof fn lineage_is_there_while_the_actor_is(actors: ActorRegistry, key: usize)
    ensures
        ({
            let lineage = actors.spec_lineage(key);
            &&& lineage is Some <==> actors@.contains_key(key) && actors@[key].state.cast_terminal
                == Some(CastTerminal::Succeeded) && !actors@[key].state.detached
                && !actors@[key].state.finish_attempted
            &&& lineage matches Some(snapshot) ==> snapshot.scope == actors@[key].scope
                && snapshot.handle_span_id == actors@[key].handle_span_id && snapshot.run
                == actors@[key].run
        }),
{
}

/// An actor is cast within the run of what is bound, and where nothing is bound within the
/// construction that is under way; with neither it is not told.
pub proof fn actors_are_cast_within_what_is_bound(
    runtimes: RuntimeProducerRegistry,
    binding_key: Option<usize>,
    construction: Option<ProductionConstruction>,
)
    ensures
        ({
            let source = ActorRegistry::spec_source(runtimes, binding_key, construction);
            let bound = runtimes.spec_bound(binding_key);
            &&& source is Some <==> bound is Some || construction is Some
            &&& bound matches Some(place) ==> {
                let runtime = runtimes.producers@[place as int];
                &&& source->0.run == runtime.run
                &&& source->0.containing_span_id == Some(runtime.state.run_span_id)
                &&& source->0.owner == Some(runtime.run)
            }
            &&& bound is None && construction is Some ==> {
                &&& source->0.run == construction->0.run
                &&& source->0.containing_span_id == Some(construction->0.construct_span_id)
                &&& source->0.owner is None
            }
        }),
{
}

/// The cast of an actor that is under way ends as it was answered: with an error that is a
/// cancellation the span of the actor's handles ends as cancelled, with any other error as failed,
/// and with a handle as completed, once the actor is detached. A handle makes the cast one that
/// succeeded, and the actor one to refer to.
pub proof fn casts_end_as_they_were_answered<A: SpanEventAdmission>(
    actors: ActorRegistry,
    after: ActorRegistry,
    runtimes: RuntimeProducerRegistry,
    runs: DiagnosticRuns<A>,
    runs_after: DiagnosticRuns<A>,
    binding_key: Option<usize>,
    key: usize,
    names: ActorNames,
    outcome: Result<u64, ErrorClass>,
)
    requires
        actors.fits(runs),
        runtimes.wf(),
        runtimes.fits(runs),
        actors@.contains_key(key),
        actors@[key].state.cast_terminal is None,
        !actors@[key].state.finish_attempted,
        actors.on_cast_ended(
            after,
            runtimes,
            runs,
            runs_after,
            binding_key,
            key,
            names,
            outcome,
        ),
    ensures
        ({
            let actor = actors@[key];
            let facts = runs_after@[actor.run as int].context.steps_since(
                runs@[actor.run as int].context,
            );
            let ends = outcome is Err || actor.state.detached;
            &&& facts.len() == if ends { 1int } else { 0int }
            &&& after@.contains_key(key) <==> !ends
            &&& ends ==> {
                &&& facts[0].candidate.body matches crate::event::EventBody::SpanFinished {
                    span_id,
                    outcome: told,
                    error_code,
                } && {
                    &&& span_id == actor.handle_span_id
                    &&& told is Completed <==> outcome is Ok
                    &&& told is Cancelled <==> outcome is Err && outcome->Err_0.cancelled
                    &&& told is Failed <==> outcome is Err && !outcome->Err_0.cancelled
                    &&& error_code is None <==> outcome is Ok
                }
            }
            &&& !ends ==> after.spec_lineage(key) is Some
        }),
{
    let terminal = match outcome {
        Ok(_) => CastTerminal::Succeeded,
        Err(error) => if error.cancelled {
            CastTerminal::Cancelled
        } else {
            CastTerminal::Failed
        },
    };
    let handle = match outcome {
        Ok(handle) => Some(handle),
        Err(_) => None,
    };
    if actors.on_cast_finished(
        after,
        runtimes,
        runs,
        runs_after,
        binding_key,
        key,
        names,
        terminal,
        handle,
    ) {
        actor_ends_as_its_cast_did(
            actors,
            after,
            runtimes,
            runs,
            runs_after,
            binding_key,
            key,
            names,
            terminal,
            handle,
        );
    }
}

/// An actor is told by the names that it has, each as what it is, and only where both can be
/// written down. It is the same actor exactly where both names are the same.
pub proof fn actors_are_told_by_their_names(names: ActorNames, actor: ActorLifecycleProducer)
    ensures
        spec_actor_detail(names) is Ok <==> names.display_name is Some && names.actor_type is Some,
        spec_actor_detail(names) matches Ok(detail) ==> Some(detail.display_name)
            == names.display_name && Some(detail.actor_type) == names.actor_type,
        actor.is_named(names) <==> names.display_name is Some && names.actor_type is Some
            && names.display_name->0@ == actor.detail.display_name@ && names.actor_type->0@
            == actor.detail.actor_type@,
{
}

/// An actor that cannot be cast again or numbered is not told, and is a failure of its owner. Any
/// other is, under the next number.
pub proof fn casts_are_owed<A: SpanEventAdmission>(
    actors: ActorRegistry,
    after: ActorRegistry,
    runs: DiagnosticRuns<A>,
    runs_after: DiagnosticRuns<A>,
    source: ActorEventSource,
    key: usize,
    detail: ActorDetail,
)
    requires
        source.run < runs@.len(),
        source.owner is Some ==> source.owner->0 < runs@.len(),
        actors.on_cast_started(after, runs, runs_after, source, key, detail),
    ensures
        ({
            let facts = runs_after@[source.run as int].context.steps_since(
                runs@[source.run as int].context,
            );
            let told = !actors@.contains_key(key) && actors.next_actor_id.next < u64::MAX;
            &&& told ==> facts.len() >= 1 && facts[0].candidate.body is InstantOccurred
                && facts[0].candidate.body->instant == InstantDetail::ActorCast(detail)
                && after.next_actor_id.next == actors.next_actor_id.next + 1
            &&& !told ==> facts.len() == 0 && after == actors && (source.owner is Some
                ==> runs_after@[source.owner->0 as int].failure is Some)
        }),
{
    let before = runs@[source.run as int].context;
    let context = runs_after@[source.run as int].context;
    if !actors@.contains_key(key) && actors.next_actor_id.next < u64::MAX {
        let actor_id = choose|actor_id: RunLocalId| #[trigger]
            actors.cast_as(after, before, context, source, key, detail, actor_id);
        cast_begins_the_actor(actors, after, before, context, source, key, detail, actor_id);
    } else {
        assert(context.trace() == before.trace());
        assert(context.steps_since(before).len() == 0);
    }
}

/// A fault of an actor is a failure of the run that owns the actor, and where none does, of the run
/// that is bound.
pub proof fn faults_of_actors_fail_their_owner<A: SpanEventAdmission>(
    actors: ActorRegistry,
    after: ActorRegistry,
    runs: DiagnosticRuns<A>,
    runs_after: DiagnosticRuns<A>,
    key: usize,
    actor: ActorLifecycleProducer,
    fallback: Option<usize>,
    transition: Transition,
)
    requires
        actors.on_transition(after, runs, runs_after, key, actor, fallback, transition),
        actor.run < runs@.len(),
        actor.owner is Some ==> actor.owner->0 < runs@.len(),
        fallback is Some ==> fallback->0 < runs@.len(),
    ensures
        ({
            let owner = if actor.owner is Some {
                actor.owner
            } else {
                fallback
            };
            &&& transition.state_error is Some && owner is Some && runs@[owner->0 as int].failure
                is None ==> runs_after@[owner->0 as int].failure is Some
                && runs_after@[owner->0 as int].failure->0.spec_code()
                == transition.state_error->0@
            &&& transition.state_error is None && transition.terminal is None
                ==> runs_after@ =~= runs@
            &&& forall|other: int|
                0 <= other < runs@.len() && owner != Some(other as usize) ==> (
                #[trigger] runs_after@[other]).failure == runs@[other].failure
            &&& transition.terminal is Some <==> !after@.contains_key(key)
        }),
{
}

/// Actors and their sessions bear identifiers of their kind, with the number of the actor.
pub proof fn actors_are_numbered<A: SpanEventAdmission>(
    actors: ActorRegistry,
    after: ActorRegistry,
    before: DiagnosticRunContext<A>,
    context: DiagnosticRunContext<A>,
    source: ActorEventSource,
    key: usize,
    detail: ActorDetail,
    actor_id: RunLocalId,
)
    requires
        !actors@.contains_key(key),
        actors.cast_as(after, before, context, source, key, detail, actor_id),
    ensures
        ({
            let number = crate::identifier::decimal(actors.next_actor_id.next as nat);
            &&& actor_id@ =~= "actor-"@ + number
            &&& after@.contains_key(key) ==> after@[key].session.session_id@
                =~= "agent-session-"@ + number
        }),
{
}

/// What an actor did out of order is told by what it was.
pub proof fn misplaced_hooks_of_actors_are_named(
    state: ActorState,
    after: ActorState,
    transition: Transition,
    hook: ActorHook,
    identity: u64,
)
    requires
        transition.state_error is Some,
        (after, transition) == state.on_identity(hook) || state.on_handle(
            after,
            transition,
            identity,
            hook,
        ),
    ensures
        ({
            let told = transition.state_error->0@;
            let by_identity = (after, transition) == state.on_identity(hook);
            &&& by_identity ==> {
                &&& hook is Constructed ==> told == "actor.constructed-transition-invalid"@
                &&& hook is RegistryCommitted ==> told
                    == "actor.registry-commit-transition-invalid"@
                &&& hook is RegistryDetached ==> told == "actor.registry-detach-transition-invalid"@
            }
            &&& !by_identity ==> {
                &&& hook is HandleCreated ==> told == "actor.handle-create-transition-invalid"@
                &&& hook is HandleCleared && !state.has_handle(identity) ==> told
                    == "actor.handle-clear-without-create"@
                &&& hook is HandleCleared && state.has_handle(identity) ==> told
                    == "actor.handle-clear-transition-invalid"@
            }
        }),
{
}

} // verus!
