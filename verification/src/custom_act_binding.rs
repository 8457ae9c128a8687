//! The authority by which the tasks of an act publish facts of their own.
use crate::act_producer::ActLineageSnapshot;
use crate::act_registry::ActRegistry;
use crate::context::SpanEventAdmission;
use crate::event::{DiagnosticScope, EventBody, RunLocalId, SpanKind};
use crate::identifier::IdCounter;
use crate::run::{DiagnosticRuns, RuntimeProducerError};
use crate::runtime_producer::RuntimeProducerRegistry;
use crate::scene_producer::TaskLineage;
use crate::sink_projection::AcceptedDiagnosticEvent;
use vstd::prelude::*;

verus! {

/// Which task of an act holds its authority.
#[derive(Clone, Copy, Debug, PartialEq, Eq, Structural)]
pub enum ActAuthorityRole {
    Caller,
    CallerDescendant,
    Supervisor,
}

/// A share in the authority of an act: the authority's place, the generation that the share was
/// handed out in, and who holds it.
#[derive(Clone, Copy, Debug, PartialEq, Eq, Structural)]
pub struct ActTaskAuthority {
    pub generation: u64,
    pub role: ActAuthorityRole,
    pub authority: usize,
}

impl ActTaskAuthority {
    pub fn generation(&self) -> (generation: u64)
        ensures
            generation == self.generation,
    {
        self.generation
    }

    /// The share of a task that the holder starts.
    pub open spec fn child(self) -> Self {
        ActTaskAuthority {
            role: if self.role == ActAuthorityRole::Supervisor {
                ActAuthorityRole::Supervisor
            } else {
                ActAuthorityRole::CallerDescendant
            },
            ..self
        }
    }

    pub fn for_registered_child(&self) -> (child: Self)
        ensures
            child == self.child(),
    {
        let role = match self.role {
            ActAuthorityRole::Caller
            | ActAuthorityRole::CallerDescendant => ActAuthorityRole::CallerDescendant,
            ActAuthorityRole::Supervisor => ActAuthorityRole::Supervisor,
        };
        ActTaskAuthority { generation: self.generation, role, authority: self.authority }
    }

    pub fn for_supervisor(&self) -> (share: Self)
        ensures
            share == (ActTaskAuthority { role: ActAuthorityRole::Supervisor, ..*self }),
    {
        ActTaskAuthority {
            generation: self.generation,
            role: ActAuthorityRole::Supervisor,
            authority: self.authority,
        }
    }

    pub fn is_supervisor(&self) -> (supervisor: bool)
        ensures
            supervisor == (self.role == ActAuthorityRole::Supervisor),
    {
        self.role == ActAuthorityRole::Supervisor
    }
}

/// A task: its key, and a number that tells it from every task that had the key before.
#[derive(Clone, Copy, Debug, PartialEq, Eq, Structural)]
pub struct TaskRef {
    pub key: usize,
    pub serial: u64,
}

/// What came of looking for something that user code may hide.
#[derive(Debug, PartialEq, Eq)]
pub enum Lookup<T> {
    /// The search itself raised an error.
    Raised,
    Absent,
    Found(T),
}

/// Why a task may not publish for an act.
#[derive(Clone, Copy, Debug, PartialEq, Eq, Structural)]
pub enum ActAuthorityError {
    Context,
    AnotherRuntime,
    AnotherScope,
    StagedTwice,
    NoActId,
    GenerationExhausted,
    ExtensionTaken,
    Raised,
}

impl ActAuthorityError {
    /// What the error says. An error that was raised speaks for itself.
    pub open spec fn spec_message(self) -> Option<&'static str> {
        match self {
            ActAuthorityError::Context => Some(
                "custom diagnostic publication requires an active Act authority",
            ),
            ActAuthorityError::AnotherRuntime => Some(
                "custom diagnostic Act authority resolved another Runtime",
            ),
            ActAuthorityError::AnotherScope => Some(
                "custom diagnostic Act authority resolved another Act scope",
            ),
            ActAuthorityError::StagedTwice => Some(
                "custom diagnostic Act authority was staged twice",
            ),
            ActAuthorityError::NoActId => Some("diagnostic Act scope has no Act ID"),
            ActAuthorityError::GenerationExhausted => Some(
                "custom diagnostic Act authority generation is exhausted",
            ),
            ActAuthorityError::ExtensionTaken => Some(
                "custom diagnostic domain extension is already installed",
            ),
            ActAuthorityError::Raised => None,
        }
    }

    pub fn message(&self) -> (message: Option<&'static str>)
        ensures
            message == self.spec_message(),
    {
        match self {
            ActAuthorityError::Context => Some(
                "custom diagnostic publication requires an active Act authority",
            ),
            ActAuthorityError::AnotherRuntime => Some(
                "custom diagnostic Act authority resolved another Runtime",
            ),
            ActAuthorityError::AnotherScope => Some(
                "custom diagnostic Act authority resolved another Act scope",
            ),
            ActAuthorityError::StagedTwice => Some(
                "custom diagnostic Act authority was staged twice",
            ),
            ActAuthorityError::NoActId => Some("diagnostic Act scope has no Act ID"),
            ActAuthorityError::GenerationExhausted => Some(
                "custom diagnostic Act authority generation is exhausted",
            ),
            ActAuthorityError::ExtensionTaken => Some(
                "custom diagnostic domain extension is already installed",
            ),
            ActAuthorityError::Raised => None,
        }
    }

    /// The failure that the error latches.
    pub open spec fn failure(self) -> Option<RuntimeProducerError> {
        match self {
            ActAuthorityError::AnotherRuntime => Some(
                RuntimeProducerError::State { code: "custom.act-authority-runtime-mismatch" },
            ),
            ActAuthorityError::AnotherScope => Some(
                RuntimeProducerError::State { code: "custom.act-authority-scope-mismatch" },
            ),
            ActAuthorityError::GenerationExhausted => Some(
                RuntimeProducerError::State { code: "custom.act-authority-generation-exhausted" },
            ),
            _ => None,
        }
    }
}

/// Where a fact of user code hangs in the run. A failure is latched in `runtime`.
#[derive(Debug, PartialEq, Eq)]
pub struct CustomDomainSnapshot {
    pub runtime: usize,
    pub run: usize,
    pub scope: DiagnosticScope,
    pub containing_span_id: u64,
}

impl Clone for CustomDomainSnapshot {
    fn clone(&self) -> (copy: Self)
        ensures
            copy == *self,
    {
        CustomDomainSnapshot {
            runtime: self.runtime,
            run: self.run,
            scope: self.scope.clone(),
            containing_span_id: self.containing_span_id,
        }
    }
}

/// Who may still use an authority: its caller, and anyone at all.
#[derive(Clone, Copy, Debug, PartialEq, Eq, Structural)]
pub struct AuthorityPhase {
    pub caller_active: bool,
    pub generation_active: bool,
}

/// The authority to publish facts of one act.
#[derive(Debug, PartialEq, Eq)]
pub struct ActAuthority {
    pub binding_key: usize,
    pub runtime: usize,
    pub act_id: RunLocalId,
    pub act_scope: DiagnosticScope,
    pub generation: u64,
    pub caller_task: TaskRef,
    pub caller_base_lineage: TaskLineage,
    pub phase: AuthorityPhase,
}

/// A lineage to be given to a task, where the authority that the task holds now is of the expected
/// generation.
#[derive(Debug, PartialEq, Eq)]
pub struct LineageReplacement {
    pub binding_key: usize,
    pub task: TaskRef,
    pub expected_generation: Option<u64>,
    pub replacement: TaskLineage,
}

/// What came of giving a lineage to a caller.
#[derive(Clone, Copy, Debug, PartialEq, Eq, Structural)]
pub enum CallerLineageUpdate {
    Updated,
    Gone,
    Mismatch,
}

impl ActAuthority {
    pub open spec fn share(self, place: usize, role: ActAuthorityRole) -> ActTaskAuthority {
        ActTaskAuthority { generation: self.generation, role, authority: place }
    }

    /// The share of a task with this role. `place` is the place of this authority.
    pub fn token(&self, place: usize, role: ActAuthorityRole) -> (token: ActTaskAuthority)
        ensures
            token == self.share(place, role),
    {
        ActTaskAuthority { generation: self.generation, role, authority: place }
    }

    pub fn generation(&self) -> (generation: u64)
        ensures
            generation == self.generation,
    {
        self.generation
    }

    /// Shares of this generation are still good.
    pub open spec fn is_active(self, generation: u64) -> bool {
        generation == self.generation && self.phase.generation_active
    }

    pub fn generation_is_active(&self, generation: u64) -> (active: bool)
        ensures
            active == self.is_active(generation),
    {
        generation == self.generation && self.phase.generation_active
    }

    /// A share of this generation with this role may be used.
    pub open spec fn allows(self, generation: u64, role: ActAuthorityRole) -> bool {
        &&& self.is_active(generation)
        &&& role == ActAuthorityRole::Supervisor || self.phase.caller_active
    }

    /// What a share resolves to, where its run is `current` and its act hangs at `lineage`.
    pub open spec fn resolution(
        self,
        runtime_alive: bool,
        current: Option<usize>,
        lineage: Option<ActLineageSnapshot>,
        binding_key: usize,
        generation: u64,
        role: ActAuthorityRole,
    ) -> Result<CustomDomainSnapshot, ActAuthorityError> {
        if !self.allows(generation, role) || self.binding_key != binding_key || !runtime_alive {
            Err(ActAuthorityError::Context)
        } else {
            match current {
                None => Err(ActAuthorityError::Context),
                Some(current) => if current != self.runtime {
                    Err(ActAuthorityError::AnotherRuntime)
                } else {
                    match lineage {
                        None => Err(ActAuthorityError::Context),
                        Some(lineage) => if !lineage.act_scope.agrees(self.act_scope) {
                            Err(ActAuthorityError::AnotherScope)
                        } else {
                            Ok(
                                CustomDomainSnapshot {
                                    runtime: self.runtime,
                                    run: lineage.run,
                                    scope: lineage.event_scope,
                                    containing_span_id: lineage.containing_span_id,
                                },
                            )
                        },
                    }
                },
            }
        }
    }

    /// The failure that a resolution latches.
    pub open spec fn failure_of(
        resolution: Result<CustomDomainSnapshot, ActAuthorityError>,
    ) -> Option<RuntimeProducerError> {
        match resolution {
            Ok(_) => None,
            Err(error) => error.failure(),
        }
    }

    /// Finds where a fact of the act hangs, for the holder of a share.
    pub fn resolve<A: SpanEventAdmission>(
        &self,
        runtimes: &RuntimeProducerRegistry,
        acts: &ActRegistry,
        runs: &mut DiagnosticRuns<A>,
        runtime_alive: bool,
        binding_key: usize,
        generation: u64,
        role: ActAuthorityRole,
    ) -> (resolved: Result<CustomDomainSnapshot, ActAuthorityError>)
        requires
            runtimes.wf(),
            acts.wf(),
            self.runtime < old(runs)@.len(),
        ensures
            resolved == self.resolution(
                runtime_alive,
                runtimes.spec_run_bound(Some(binding_key)),
                acts.spec_lineage(self.act_id@),
                binding_key,
                generation,
                role,
            ),
            final(runs)@ == DiagnosticRuns::latched_at(
                old(runs)@,
                Some(self.runtime),
                ActAuthority::failure_of(resolved),
            ),
            final(runs)@.len() == old(runs)@.len(),
    {
        let caller_role = match role {
            ActAuthorityRole::Caller | ActAuthorityRole::CallerDescendant => true,
            ActAuthorityRole::Supervisor => false,
        };
        if generation != self.generation || !self.phase.generation_active || (caller_role
            && !self.phase.caller_active) {
            return Err(ActAuthorityError::Context);
        }
        if self.binding_key != binding_key || !runtime_alive {
            return Err(ActAuthorityError::Context);
        }
        let current = match runtimes.run_bound(Some(binding_key)) {
            Some(current) => current,
            None => return Err(ActAuthorityError::Context),
        };
        if current != self.runtime {
            runs.runs[self.runtime].latch_state_failure("custom.act-authority-runtime-mismatch");
            return Err(ActAuthorityError::AnotherRuntime);
        }
        let snapshot = match acts.lineage_snapshot(self.act_id.as_str()) {
            Some(snapshot) => snapshot,
            None => return Err(ActAuthorityError::Context),
        };
        if !snapshot.act_scope.same(&self.act_scope) {
            runs.runs[self.runtime].latch_state_failure("custom.act-authority-scope-mismatch");
            return Err(ActAuthorityError::AnotherScope);
        }
        Ok(
            CustomDomainSnapshot {
                runtime: self.runtime,
                run: snapshot.run,
                scope: snapshot.event_scope,
                containing_span_id: snapshot.containing_span_id,
            },
        )
    }

    /// An event is of this act.
    pub open spec fn is_of_act(self, canonical: AcceptedDiagnosticEvent) -> bool {
        match canonical.event.scope.act_id {
            Some(act_id) => act_id@ == self.act_id@,
            None => false,
        }
    }

    /// An event ends the span of the act's caller.
    pub open spec fn ends_caller(canonical: AcceptedDiagnosticEvent) -> bool {
        &&& canonical.event.body is SpanFinished
        &&& canonical.built_in_span_kind == Some(SpanKind::ActCaller)
    }

    /// Hears of an event of the act. Once the caller's span has ended, the caller may not publish
    /// any more. An event of another act is a failure of the run, where the run is still there.
    pub fn observe<A: SpanEventAdmission>(
        &mut self,
        runs: &mut DiagnosticRuns<A>,
        runtime_alive: bool,
        canonical: &AcceptedDiagnosticEvent,
    )
        requires
            old(self).runtime < old(runs)@.len(),
        ensures
            final(runs)@.len() == old(runs)@.len(),
            if !old(self).is_of_act(*canonical) {
                &&& *final(self) == *old(self)
                &&& final(runs)@ == DiagnosticRuns::latched_at(
                    old(runs)@,
                    if runtime_alive {
                        Some(old(self).runtime)
                    } else {
                        None
                    },
                    Some(
                        RuntimeProducerError::State {
                            code: "custom.act-authority-event-scope-mismatch",
                        },
                    ),
                )
            } else {
                &&& final(runs)@ == old(runs)@
                &&& *final(self) == if ActAuthority::ends_caller(*canonical) {
                    ActAuthority {
                        phase: AuthorityPhase { caller_active: false, ..old(self).phase },
                        ..*old(self)
                    }
                } else {
                    *old(self)
                }
            },
    {
        let of_act = match &canonical.event.scope.act_id {
            Some(act_id) => act_id.same(&self.act_id),
            None => false,
        };
        if !of_act {
            if runtime_alive {
                runs.runs[self.runtime].latch_state_failure(
                    "custom.act-authority-event-scope-mismatch",
                );
            }
            return;
        }
        let finished = match &canonical.event.body {
            EventBody::SpanFinished { .. } => true,
            _ => false,
        };
        if finished && canonical.built_in_span_kind == Some(SpanKind::ActCaller) {
            self.phase.caller_active = false;
        }
    }

    /// Prepares to end the generation. A generation that has ended does not end again.
    pub fn prepare_expiry(&self) -> (prepared: Result<PreparedGenerationExpiry, &'static str>)
        ensures
            prepared == if self.phase.generation_active {
                Ok(PreparedGenerationExpiry { previous: None, caller_lineage_cleared: false })
            } else {
                Err::<_, &'static str>("act.authority-generation-expired")
            },
    {
        if !self.phase.generation_active {
            return Err("act.authority-generation-expired");
        }
        Ok(PreparedGenerationExpiry { previous: None, caller_lineage_cleared: false })
    }
}

/// The end of a generation, which can be taken back.
#[derive(Clone, Copy, Debug, PartialEq, Eq)]
pub struct PreparedGenerationExpiry {
    pub previous: Option<AuthorityPhase>,
    pub caller_lineage_cleared: bool,
}

impl PreparedGenerationExpiry {
    /// The authority after its generation has ended.
    pub open spec fn expired(authority: ActAuthority) -> ActAuthority {
        ActAuthority {
            phase: AuthorityPhase { caller_active: false, generation_active: false },
            ..authority
        }
    }

    /// The lineage of the caller without its share.
    pub open spec fn clearing(authority: ActAuthority) -> LineageReplacement {
        LineageReplacement {
            binding_key: authority.binding_key,
            task: authority.caller_task,
            expected_generation: Some(authority.generation),
            replacement: authority.caller_base_lineage,
        }
    }

    /// Ends the generation. The caller is to lose its share: see `cleared`.
    pub fn commit(&mut self, authority: &mut ActAuthority) -> (clearing: LineageReplacement)
        ensures
            *final(authority) == PreparedGenerationExpiry::expired(*old(authority)),
            *final(self) == (PreparedGenerationExpiry {
                previous: Some(old(authority).phase),
                ..*old(self)
            }),
            clearing == PreparedGenerationExpiry::clearing(*old(authority)),
    {
        self.previous = Some(authority.phase);
        authority.phase = AuthorityPhase { caller_active: false, generation_active: false };
        LineageReplacement {
            binding_key: authority.binding_key,
            task: authority.caller_task,
            expected_generation: Some(authority.generation),
            replacement: authority.caller_base_lineage.clone(),
        }
    }

    /// Hears what came of taking the share from the caller.
    pub fn cleared<A: SpanEventAdmission>(
        &mut self,
        runs: &mut DiagnosticRuns<A>,
        runtime: Option<usize>,
        update: CallerLineageUpdate,
    )
        requires
            runtime matches Some(runtime) ==> runtime < old(runs)@.len(),
        ensures
            final(runs)@.len() == old(runs)@.len(),
            final(self).previous == old(self).previous,
            final(self).caller_lineage_cleared == (old(self).caller_lineage_cleared || update
                == CallerLineageUpdate::Updated),
            final(runs)@ == DiagnosticRuns::latched_at(
                old(runs)@,
                runtime,
                if update == CallerLineageUpdate::Mismatch {
                    Some(
                        RuntimeProducerError::State {
                            code: "custom.act-authority-expiry-lineage-mismatch",
                        },
                    )
                } else {
                    None
                },
            ),
    {
        match update {
            CallerLineageUpdate::Updated => {
                self.caller_lineage_cleared = true;
            },
            CallerLineageUpdate::Gone => {},
            CallerLineageUpdate::Mismatch => {
                runs.latch_at(
                    runtime,
                    Some(
                        RuntimeProducerError::state("custom.act-authority-expiry-lineage-mismatch"),
                    ),
                );
            },
        }
    }

    /// The authority after the end of its generation was taken back.
    pub open spec fn restored(self, authority: ActAuthority) -> ActAuthority {
        match self.previous {
            Some(previous) => ActAuthority { phase: previous, ..authority },
            None => authority,
        }
    }

    /// The lineage of the caller with its share.
    pub open spec fn restoring(self, place: usize, authority: ActAuthority) -> Option<
        LineageReplacement,
    > {
        if self.previous is Some && self.caller_lineage_cleared {
            Some(
                LineageReplacement {
                    binding_key: authority.binding_key,
                    task: authority.caller_task,
                    expected_generation: None,
                    replacement: authority.caller_base_lineage.having(
                        Some(authority.share(place, ActAuthorityRole::Caller)),
                    ),
                },
            )
        } else {
            None
        }
    }

    /// Takes the end of the generation back, once. A caller that has lost its share is to get it
    /// back: see `given_back`.
    pub fn rollback(&mut self, place: usize, authority: &mut ActAuthority) -> (restoring: Option<
        LineageReplacement,
    >)
        ensures
            *final(authority) == old(self).restored(*old(authority)),
            final(self).previous is None,
            final(self).caller_lineage_cleared == old(self).caller_lineage_cleared,
            restoring == old(self).restoring(place, *old(authority)),
    {
        let previous = match self.previous {
            Some(previous) => previous,
            None => return None,
        };
        self.previous = None;
        authority.phase = previous;
        if !self.caller_lineage_cleared {
            return None;
        }
        Some(
            LineageReplacement {
                binding_key: authority.binding_key,
                task: authority.caller_task,
                expected_generation: None,
                replacement: authority.caller_base_lineage.with_act_authority(
                    authority.token(place, ActAuthorityRole::Caller),
                ),
            },
        )
    }

    /// Hears what came of giving the share back to the caller.
    pub fn given_back<A: SpanEventAdmission>(
        &self,
        runs: &mut DiagnosticRuns<A>,
        runtime: Option<usize>,
        update: CallerLineageUpdate,
    )
        requires
            runtime matches Some(runtime) ==> runtime < old(runs)@.len(),
        ensures
            final(runs)@.len() == old(runs)@.len(),
            final(runs)@ == DiagnosticRuns::latched_at(
                old(runs)@,
                runtime,
                if update == CallerLineageUpdate::Mismatch {
                    Some(
                        RuntimeProducerError::State {
                            code: "custom.act-authority-rollback-lineage-mismatch",
                        },
                    )
                } else {
                    None
                },
            ),
    {
        if update == CallerLineageUpdate::Mismatch {
            runs.latch_at(
                runtime,
                Some(RuntimeProducerError::state("custom.act-authority-rollback-lineage-mismatch")),
            );
        }
    }
}

/// An expiry that is committed and rolled back leaves the authority as it was, whatever came of the
/// caller's lineage in between.
pub proof fn rollback_undoes_expiry(
    authority: ActAuthority,
    committed: PreparedGenerationExpiry,
)
    requires
        committed.previous == Some(authority.phase),
    ensures
        committed.restored(PreparedGenerationExpiry::expired(authority)) == authority,
{
}

/// Once a generation has ended, none of its shares may be used.
pub proof fn expired_shares_are_void(
    authority: ActAuthority,
    generation: u64,
    role: ActAuthorityRole,
)
    ensures
        !PreparedGenerationExpiry::expired(authority).allows(generation, role),
{
}

/// A share is good for its own generation only.
pub proof fn shares_are_of_one_generation(
    authority: ActAuthority,
    share: ActTaskAuthority,
)
    requires
        authority.allows(share.generation, share.role),
    ensures
        share.generation == authority.generation,
        authority.allows(share.generation, ActAuthorityRole::Supervisor),
{
}

/// A child never has more authority than the task that started it.
pub proof fn children_gain_nothing(authority: ActAuthority, share: ActTaskAuthority)
    ensures
        authority.allows(share.child().generation, share.child().role) == authority.allows(
            share.generation,
            share.role,
        ),
{
}

/// Who resolves facts of user code beyond the run's own lineage.
#[derive(Clone, Copy, Debug, PartialEq, Eq, Structural)]
pub enum DomainExtension {
    Vacant,
    Acts,
    Other,
}

impl DomainExtension {
    /// What comes of letting someone else resolve.
    pub open spec fn on_install(self, after: Self, result: Result<(), ActAuthorityError>) -> bool {
        if self == DomainExtension::Vacant {
            &&& after == DomainExtension::Other
            &&& result == Ok::<(), ActAuthorityError>(())
        } else {
            &&& after == self
            &&& result == Err::<(), _>(ActAuthorityError::ExtensionTaken)
        }
    }

    /// Lets someone else resolve, where no one does yet.
    pub fn install_domain_extension(&mut self) -> (result: Result<(), ActAuthorityError>)
        ensures
            old(self).on_install(*final(self), result),
    {
        match self {
            DomainExtension::Vacant => {
                *self = DomainExtension::Other;
                Ok(())
            },
            _ => Err(ActAuthorityError::ExtensionTaken),
        }
    }

    /// What comes of letting the acts resolve.
    pub open spec fn on_ensure(self, after: Self, result: Result<(), ActAuthorityError>) -> bool {
        if self == DomainExtension::Other {
            &&& after == self
            &&& result == Err::<(), _>(ActAuthorityError::ExtensionTaken)
        } else {
            &&& after == DomainExtension::Acts
            &&& result == Ok::<(), ActAuthorityError>(())
        }
    }

    /// Lets the acts resolve, unless someone else does.
    pub fn ensure_domain_extension(&mut self) -> (result: Result<(), ActAuthorityError>)
        ensures
            old(self).on_ensure(*final(self), result),
    {
        match self {
            DomainExtension::Other => Err(ActAuthorityError::ExtensionTaken),
            _ => {
                *self = DomainExtension::Acts;
                Ok(())
            },
        }
    }
}

/// The authorities of all acts, each at its place for good.
pub struct ActAuthorities {
    pub authorities: Vec<ActAuthority>,
    pub next_generation: IdCounter,
    pub extension: DomainExtension,
}

impl View for ActAuthorities {
    type V = Seq<ActAuthority>;

    open spec fn view(&self) -> Seq<ActAuthority> {
        self.authorities@
    }
}

/// The cue that an act is admitted for: its key, and the binding of its scene.
#[derive(Clone, Copy, Debug, PartialEq, Eq, Structural)]
pub struct CuedRef {
    pub key: usize,
    pub binding_key: Option<usize>,
}

impl ActAuthorities {
    /// Each authority has a generation of its own, and later ones have higher generations.
    pub open spec fn wf(self) -> bool {
        &&& forall|i: int, j: int|
            0 <= i < j < self@.len() ==> (#[trigger] self@[i]).generation < (
            #[trigger] self@[j]).generation
        &&& forall|i: int|
            0 <= i < self@.len() ==> (#[trigger] self@[i]).generation < self.next_generation.next
    }

    /// Every authority is of a run that is open.
    pub open spec fn fits<A: SpanEventAdmission>(self, runs: DiagnosticRuns<A>) -> bool {
        forall|i: int| 0 <= i < self@.len() ==> (#[trigger] self@[i]).runtime < runs@.len()
    }

    pub fn new() -> (authorities: Self)
        ensures
            authorities.wf(),
            authorities@ == Seq::<ActAuthority>::empty(),
            authorities.next_generation.next == 1,
            authorities.extension == DomainExtension::Vacant,
    {
        ActAuthorities {
            authorities: Vec::new(),
            next_generation: IdCounter::new(),
            extension: DomainExtension::Vacant,
        }
    }

    /// A share is still good.
    pub open spec fn share_is_active(self, share: ActTaskAuthority) -> bool {
        share.authority < self@.len() && self@[share.authority as int].is_active(share.generation)
    }

    pub fn generation_is_active(&self, share: &ActTaskAuthority) -> (active: bool)
        ensures
            active == self.share_is_active(*share),
    {
        share.authority < self.authorities.len()
            && self.authorities[share.authority].generation_is_active(share.generation)
    }

    pub fn active_supervisor(&self, share: &ActTaskAuthority) -> (active: bool)
        ensures
            active == (share.role == ActAuthorityRole::Supervisor && self.share_is_active(*share)),
    {
        share.is_supervisor() && self.generation_is_active(share)
    }

    /// What keeps an act from getting an authority, before a generation is taken.
    pub open spec fn problem(
        self,
        binding_key: usize,
        cued: CuedRef,
        act_scope: DiagnosticScope,
        lineage: Lookup<TaskLineage>,
        task: Lookup<TaskRef>,
    ) -> Option<ActAuthorityError> {
        if cued.binding_key != Some(binding_key) {
            Some(ActAuthorityError::Context)
        } else if self.extension == DomainExtension::Other {
            Some(ActAuthorityError::ExtensionTaken)
        } else {
            match lineage {
                Lookup::Raised => Some(ActAuthorityError::Raised),
                Lookup::Absent => Some(ActAuthorityError::Context),
                Lookup::Found(lineage) => if !lineage.active || lineage.cued_key != Some(cued.key)
                    || (lineage.act_authority is Some && self.share_is_active(
                    lineage.act_authority->0,
                )) {
                    Some(ActAuthorityError::Context)
                } else {
                    match task {
                        Lookup::Raised => Some(ActAuthorityError::Raised),
                        Lookup::Absent => Some(ActAuthorityError::Context),
                        Lookup::Found(_) => if act_scope.act_id is None {
                            Some(ActAuthorityError::NoActId)
                        } else {
                            None
                        },
                    }
                },
            }
        }
    }

    /// Whether the acts resolve facts from now on. They do once an act has come this far.
    pub open spec fn extended(self, binding_key: usize, cued: CuedRef) -> DomainExtension {
        if cued.binding_key == Some(binding_key) && self.extension == DomainExtension::Vacant {
            DomainExtension::Acts
        } else {
            self.extension
        }
    }

    /// The authority of an act that has just begun.
    pub open spec fn begun(
        self,
        runtime: usize,
        binding_key: usize,
        act_scope: DiagnosticScope,
        lineage: TaskLineage,
        task: TaskRef,
    ) -> ActAuthority {
        ActAuthority {
            binding_key,
            runtime,
            act_id: act_scope.act_id->0,
            act_scope,
            generation: self.next_generation.next,
            caller_task: task,
            caller_base_lineage: lineage.having(None),
            phase: AuthorityPhase { caller_active: true, generation_active: true },
        }
    }

    /// What came of preparing an authority.
    pub open spec fn on_prepare<A: SpanEventAdmission>(
        self,
        after: Self,
        runs: Seq<crate::run::DiagnosticRun<A>>,
        runs_after: Seq<crate::run::DiagnosticRun<A>>,
        runtime: Option<usize>,
        binding_key: usize,
        cued: CuedRef,
        act_scope: DiagnosticScope,
        lineage: Lookup<TaskLineage>,
        task: Lookup<TaskRef>,
        prepared: Result<Option<PreparedActAuthority>, ActAuthorityError>,
    ) -> bool {
        match runtime {
            None => {
                &&& prepared == Ok::<Option<PreparedActAuthority>, ActAuthorityError>(None)
                &&& after == self
                &&& runs_after == runs
            },
            Some(runtime) => {
                &&& after.extension == self.extended(binding_key, cued)
                &&& match self.problem(binding_key, cued, act_scope, lineage, task) {
                    Some(problem) => {
                        &&& prepared == Err::<Option<PreparedActAuthority>, _>(problem)
                        &&& after@ == self@
                        &&& after.next_generation == self.next_generation
                        &&& runs_after == runs
                    },
                    None => if self.next_generation.next == u64::MAX {
                        &&& prepared == Err::<Option<PreparedActAuthority>, _>(
                            ActAuthorityError::GenerationExhausted,
                        )
                        &&& after@ == self@
                        &&& after.next_generation == self.next_generation
                        &&& runs_after == DiagnosticRuns::latched_at(
                            runs,
                            Some(runtime),
                            ActAuthorityError::GenerationExhausted.failure(),
                        )
                    } else {
                        &&& prepared == Ok::<Option<PreparedActAuthority>, ActAuthorityError>(
                            Some(
                                PreparedActAuthority {
                                    authority: self@.len() as usize,
                                    generation: self.next_generation.next,
                                    binding_key,
                                    task: task->Found_0,
                                    original: lineage->Found_0,
                                    staged: false,
                                    committed: false,
                                },
                            ),
                        )
                        &&& after@ == self@.push(
                            self.begun(
                                runtime,
                                binding_key,
                                act_scope,
                                lineage->Found_0,
                                task->Found_0,
                            ),
                        )
                        &&& after.next_generation.next == self.next_generation.next + 1
                        &&& runs_after == runs
                    },
                }
            },
        }
    }

    /// Prepares the authority of an act for the task that admits it. Without diagnostics there is
    /// none to prepare.
    pub fn prepare<A: SpanEventAdmission>(
        &mut self,
        runtimes: &RuntimeProducerRegistry,
        runs: &mut DiagnosticRuns<A>,
        binding_key: usize,
        cued: CuedRef,
        act_scope: &DiagnosticScope,
        lineage: Lookup<TaskLineage>,
        task: Lookup<TaskRef>,
    ) -> (prepared: Result<Option<PreparedActAuthority>, ActAuthorityError>)
        requires
            old(self).wf(),
            old(self).fits(*old(runs)),
            runtimes.wf(),
            runtimes.fits(*old(runs)),
        ensures
            final(self).wf(),
            final(self).fits(*final(runs)),
            final(runs)@.len() == old(runs)@.len(),
            old(self).on_prepare(
                *final(self),
                old(runs)@,
                final(runs)@,
                runtimes.spec_run_bound(Some(binding_key)),
                binding_key,
                cued,
                *act_scope,
                lineage,
                task,
                prepared,
            ),
    {
        let runtime = match runtimes.run_bound(Some(binding_key)) {
            Some(runtime) => runtime,
            None => return Ok(None),
        };
        if cued.binding_key != Some(binding_key) {
            return Err(ActAuthorityError::Context);
        }
        if let Err(error) = self.extension.ensure_domain_extension() {
            return Err(error);
        }
        let lineage = match lineage {
            Lookup::Raised => return Err(ActAuthorityError::Raised),
            Lookup::Absent => return Err(ActAuthorityError::Context),
            Lookup::Found(lineage) => lineage,
        };
        if !lineage.active {
            return Err(ActAuthorityError::Context);
        }
        if lineage.cued_key != Some(cued.key) {
            return Err(ActAuthorityError::Context);
        }
        if let Some(share) = &lineage.act_authority {
            if self.generation_is_active(share) {
                return Err(ActAuthorityError::Context);
            }
        }
        let task = match task {
            Lookup::Raised => return Err(ActAuthorityError::Raised),
            Lookup::Absent => return Err(ActAuthorityError::Context),
            Lookup::Found(task) => task,
        };
        let act_id = match &act_scope.act_id {
            Some(act_id) => act_id.clone(),
            None => return Err(ActAuthorityError::NoActId),
        };
        let generation = match self.next_generation.take() {
            Some(generation) => generation,
            None => {
                runs.runs[runtime].latch_state_failure(
                    "custom.act-authority-generation-exhausted",
                );
                return Err(ActAuthorityError::GenerationExhausted);
            },
        };
        let place: usize = self.authorities.len();
        self.authorities.push(
            ActAuthority {
                binding_key,
                runtime,
                act_id,
                act_scope: act_scope.clone(),
                generation,
                caller_task: task,
                caller_base_lineage: lineage.without_act_authority(),
                phase: AuthorityPhase { caller_active: true, generation_active: true },
            },
        );
        Ok(
            Some(
                PreparedActAuthority {
                    authority: place,
                    generation,
                    binding_key,
                    task,
                    original: lineage,
                    staged: false,
                    committed: false,
                },
            ),
        )
    }
}

/// The authority of an act that is being admitted.
#[derive(Debug, PartialEq, Eq)]
pub struct PreparedActAuthority {
    pub authority: usize,
    pub generation: u64,
    pub binding_key: usize,
    pub task: TaskRef,
    pub original: TaskLineage,
    pub staged: bool,
    pub committed: bool,
}

impl PreparedActAuthority {
    /// The place of the authority.
    pub fn authority(&self) -> (authority: usize)
        ensures
            authority == self.authority,
    {
        self.authority
    }

    /// The lineage of the admitting task with the caller's share.
    pub open spec fn staging(self) -> LineageReplacement {
        LineageReplacement {
            binding_key: self.binding_key,
            task: self.task,
            expected_generation: match self.original.act_authority {
                Some(share) => Some(share.generation),
                None => None,
            },
            replacement: self.original.having(
                Some(
                    ActTaskAuthority {
                        generation: self.generation,
                        role: ActAuthorityRole::Caller,
                        authority: self.authority,
                    },
                ),
            ),
        }
    }

    /// What the admitting task is to get: see `stage`.
    pub fn stage_lineage(&self, binding_alive: bool) -> (staging: Result<
        LineageReplacement,
        ActAuthorityError,
    >)
        ensures
            staging == if self.staged {
                Err::<LineageReplacement, _>(ActAuthorityError::StagedTwice)
            } else if !binding_alive {
                Err::<LineageReplacement, _>(ActAuthorityError::Context)
            } else {
                Ok(self.staging())
            },
    {
        if self.staged {
            return Err(ActAuthorityError::StagedTwice);
        }
        if !binding_alive {
            return Err(ActAuthorityError::Context);
        }
        let expected_generation = match &self.original.act_authority {
            Some(share) => Some(share.generation),
            None => None,
        };
        let share = ActTaskAuthority {
            generation: self.generation,
            role: ActAuthorityRole::Caller,
            authority: self.authority,
        };
        Ok(
            LineageReplacement {
                binding_key: self.binding_key,
                task: self.task,
                expected_generation,
                replacement: self.original.without_act_authority().with_act_authority(share),
            },
        )
    }

    /// Hears whether the admitting task got its share.
    pub fn stage(&mut self, replaced: bool) -> (result: Result<(), ActAuthorityError>)
        requires
            !old(self).staged,
        ensures
            if replaced {
                &&& result == Ok::<(), ActAuthorityError>(())
                &&& *final(self) == (PreparedActAuthority { staged: true, ..*old(self) })
            } else {
                &&& result == Err::<(), _>(ActAuthorityError::Context)
                &&& *final(self) == *old(self)
            },
    {
        if !replaced {
            return Err(ActAuthorityError::Context);
        }
        self.staged = true;
        Ok(())
    }

    /// Keeps the share with the task.
    pub fn commit(&mut self)
        requires
            old(self).staged,
        ensures
            *final(self) == (PreparedActAuthority { committed: true, ..*old(self) }),
    {
        self.committed = true;
    }

    /// The lineage that the admitting task had before.
    pub open spec fn unstaging(self) -> LineageReplacement {
        LineageReplacement {
            binding_key: self.binding_key,
            task: self.task,
            expected_generation: Some(self.generation),
            replacement: self.original,
        }
    }

    /// What the admitting task is to get when the admission is given up: its lineage from before,
    /// where it was staged and not committed.
    pub fn abandon(self, binding_alive: bool) -> (unstaging: Option<LineageReplacement>)
        ensures
            unstaging == if self.staged && !self.committed && binding_alive {
                Some(self.unstaging())
            } else {
                None
            },
    {
        if !self.staged || self.committed || !binding_alive {
            return None;
        }
        Some(
            LineageReplacement {
                binding_key: self.binding_key,
                task: self.task,
                expected_generation: Some(self.generation),
                replacement: self.original,
            },
        )
    }

    /// Hears whether an abandoned task got its lineage back.
    pub fn abandoned<A: SpanEventAdmission>(
        runs: &mut DiagnosticRuns<A>,
        runtime: Option<usize>,
        replaced: bool,
    )
        requires
            runtime matches Some(runtime) ==> runtime < old(runs)@.len(),
        ensures
            final(runs)@.len() == old(runs)@.len(),
            final(runs)@ == DiagnosticRuns::latched_at(
                old(runs)@,
                runtime,
                if replaced {
                    None
                } else {
                    Some(
                        RuntimeProducerError::State {
                            code: "custom.act-authority-admission-rollback-mismatch",
                        },
                    )
                },
            ),
    {
        if !replaced {
            runs.latch_at(
                runtime,
                Some(
                    RuntimeProducerError::state("custom.act-authority-admission-rollback-mismatch"),
                ),
            );
        }
    }
}

/// A staged admission that is abandoned gives the task back exactly the lineage that staging took
/// from it, and expects exactly the share that staging gave.
pub proof fn abandoning_undoes_staging(prepared: PreparedActAuthority)
    ensures
        prepared.unstaging().replacement == prepared.original,
        prepared.unstaging().expected_generation == Some(
            prepared.staging().replacement.act_authority->0.generation,
        ),
        prepared.staging().replacement.having(prepared.original.act_authority)
            == prepared.original,
{
}

/// A share of an act's authority resolves exactly while it is of the generation in force and that
/// goes on, while the caller goes on where it is not the supervisor's, in the binding and the run
/// that it was given in, and while the act is there in the same scope. It resolves to where the
/// facts of the act hang.
pub proof fn shares_resolve_while_in_force(
    authority: ActAuthority,
    runtime_alive: bool,
    current: Option<usize>,
    lineage: Option<ActLineageSnapshot>,
    binding_key: usize,
    generation: u64,
    role: ActAuthorityRole,
)
    ensures
        ({
            let resolution = authority.resolution(
                runtime_alive,
                current,
                lineage,
                binding_key,
                generation,
                role,
            );
            let in_force = generation == authority.generation && authority.phase.generation_active
                && (role is Supervisor || authority.phase.caller_active) && authority.binding_key
                == binding_key && runtime_alive;
            &&& resolution is Ok <==> in_force && current == Some(authority.runtime) && lineage
                is Some && lineage->0.act_scope.agrees(authority.act_scope)
            &&& resolution matches Ok(domain) ==> {
                &&& domain.runtime == authority.runtime
                &&& domain.run == lineage->0.run
                &&& domain.scope == lineage->0.event_scope
                &&& domain.containing_span_id == lineage->0.containing_span_id
            }
            &&& resolution matches Err(error) ==> {
                &&& error is AnotherRuntime <==> in_force && current is Some && current->0
                    != authority.runtime
                &&& error is AnotherScope <==> in_force && current == Some(authority.runtime)
                    && lineage is Some
                &&& error is AnotherRuntime || error is AnotherScope || error is Context
            }
            &&& ActAuthority::failure_of(resolution) is Some <==> (resolution matches Err(error)
                && !(error is Context))
        }),
{
}

/// A task that is begun by another has a share of the same authority in the same generation: the
/// supervisor's is the supervisor's, every other is that of a descendant of the caller.
pub proof fn children_share_the_authority(share: ActTaskAuthority)
    ensures
        share.child().generation == share.generation,
        share.child().authority == share.authority,
        share.child().role is Supervisor <==> share.role is Supervisor,
        share.child().role is CallerDescendant <==> share.role !is Supervisor,
{
}

/// An event is of the act whose identifier it bears, and ends the caller exactly where it is the
/// end of a caller's span.
pub proof fn acts_hear_their_own_events(
    authority: ActAuthority,
    canonical: AcceptedDiagnosticEvent,
)
    ensures
        authority.is_of_act(canonical) <==> canonical.event.scope.act_id is Some
            && canonical.event.scope.act_id->0@ == authority.act_id@,
        ActAuthority::ends_caller(canonical) <==> canonical.event.body is SpanFinished
            && canonical.built_in_span_kind is Some && canonical.built_in_span_kind->0
            is ActCaller,
{
}

/// An expiry ends the caller and the generation and nothing else of the authority, and the caller
/// is to have the lineage that it had before, where it still has the share of this generation.
/// Where the caller's share was taken and the expiry is taken back, the caller is to have its share
/// again.
pub proof fn expiry_takes_the_share_and_rollback_gives_it_back(
    authority: ActAuthority,
    expiry: PreparedGenerationExpiry,
    place: usize,
)
    ensures
        ({
            let expired = PreparedGenerationExpiry::expired(authority);
            let clearing = PreparedGenerationExpiry::clearing(authority);
            let restoring = expiry.restoring(place, authority);
            &&& !expired.phase.caller_active && !expired.phase.generation_active
            &&& expired.act_id == authority.act_id && expired.generation == authority.generation
            &&& expired.runtime == authority.runtime && expired.binding_key == authority.binding_key
            &&& clearing.task == authority.caller_task
            &&& clearing.binding_key == authority.binding_key
            &&& clearing.expected_generation == Some(authority.generation)
            &&& clearing.replacement == authority.caller_base_lineage
            &&& restoring is Some <==> expiry.previous is Some && expiry.caller_lineage_cleared
            &&& restoring matches Some(given) ==> {
                &&& given.task == authority.caller_task
                &&& given.binding_key == authority.binding_key
                &&& given.expected_generation is None
                &&& given.replacement.act_authority is Some
                &&& given.replacement.act_authority->0.generation == authority.generation
                &&& given.replacement.act_authority->0.role is Caller
                &&& given.replacement.act_authority->0.authority == place
                &&& given.replacement.cued_key == authority.caller_base_lineage.cued_key
                &&& given.replacement.active == authority.caller_base_lineage.active
            }
        }),
{
}

/// An act gets its authority exactly where its cue is of this binding, the run is not extended by
/// something else, the admitting task is active in that cue and has no share in force, and the act
/// has an identifier. It is a new one, of a generation of its own, in force from the start for its
/// caller.
pub proof fn authority_is_given_where_it_is_owed<A: SpanEventAdmission>(
    authorities: ActAuthorities,
    after: ActAuthorities,
    runs: Seq<crate::run::DiagnosticRun<A>>,
    runs_after: Seq<crate::run::DiagnosticRun<A>>,
    runtime: usize,
    binding_key: usize,
    cued: CuedRef,
    act_scope: DiagnosticScope,
    lineage: Lookup<TaskLineage>,
    task: Lookup<TaskRef>,
    prepared: Result<Option<PreparedActAuthority>, ActAuthorityError>,
)
    requires
        authorities.next_generation.next < u64::MAX,
        authorities.on_prepare(
            after,
            runs,
            runs_after,
            Some(runtime),
            binding_key,
            cued,
            act_scope,
            lineage,
            task,
            prepared,
        ),
    ensures
        ({
            let shared = lineage is Found && lineage->Found_0.act_authority is Some && {
                let share = lineage->Found_0.act_authority->0;
                &&& share.authority < authorities@.len()
                &&& authorities@[share.authority as int].generation == share.generation
                &&& authorities@[share.authority as int].phase.generation_active
            };
            let owed = cued.binding_key == Some(binding_key) && authorities.extension !is Other
                && lineage is Found && lineage->Found_0.active && lineage->Found_0.cued_key == Some(
                cued.key,
            ) && !shared && task is Found && act_scope.act_id is Some;
            &&& runs_after == runs
            &&& prepared is Ok <==> owed
            &&& !owed ==> after@ == authorities@
            &&& owed ==> {
                let given = after@.last();
                &&& after@ == authorities@.push(given)
                &&& given.binding_key == binding_key && given.runtime == runtime
                &&& given.act_id@ == act_scope.act_id->0@ && given.act_scope == act_scope
                &&& given.phase.caller_active && given.phase.generation_active
                &&& given.caller_task == task->Found_0
                &&& given.caller_base_lineage.act_authority is None
                &&& given.caller_base_lineage.cued_key == lineage->Found_0.cued_key
                &&& given.generation == authorities.next_generation.next
                &&& after.next_generation.next == authorities.next_generation.next + 1
                &&& after.extension is Acts
                &&& prepared->Ok_0 is Some
                &&& prepared->Ok_0->0.authority == authorities@.len() as usize
                &&& prepared->Ok_0->0.generation == given.generation
                &&& prepared->Ok_0->0.task == task->Found_0
                &&& prepared->Ok_0->0.original == lineage->Found_0
                &&& !prepared->Ok_0->0.staged && !prepared->Ok_0->0.committed
            }
        }),
{
}

/// The admitting task is to get the caller's share of the authority, in its generation, where its
/// lineage is still what it was, and keeps the rest of its lineage.
pub proof fn staging_gives_the_callers_share(prepared: PreparedActAuthority)
    ensures
        ({
            let staging = prepared.staging();
            &&& staging.task == prepared.task && staging.binding_key == prepared.binding_key
            &&& staging.replacement.act_authority == Some(
                ActTaskAuthority {
                    generation: prepared.generation,
                    role: ActAuthorityRole::Caller,
                    authority: prepared.authority,
                },
            )
            &&& staging.replacement.cued_key == prepared.original.cued_key
            &&& staging.replacement.active == prepared.original.active
            &&& staging.expected_generation is Some <==> prepared.original.act_authority is Some
            &&& staging.expected_generation is Some ==> staging.expected_generation->0
                == prepared.original.act_authority->0.generation
        }),
{
}

/// Either the acts resolve facts of user code or someone else does, and whoever came first stays:
/// someone else is let in only where no one is, and the acts unless someone else is.
pub proof fn one_resolves_facts(
    extension: DomainExtension,
    installed: DomainExtension,
    ensured: DomainExtension,
    install: Result<(), ActAuthorityError>,
    ensure: Result<(), ActAuthorityError>,
)
    requires
        extension.on_install(installed, install),
        extension.on_ensure(ensured, ensure),
    ensures
        install is Ok <==> extension is Vacant,
        ensure is Ok <==> extension !is Other,
        install is Ok ==> installed is Other,
        ensure is Ok ==> ensured is Acts,
        install matches Err(error) ==> error is ExtensionTaken && installed == extension,
        ensure matches Err(error) ==> error is ExtensionTaken && ensured == extension,
{
}

} // verus!
