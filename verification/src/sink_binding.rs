//! The sink of an act: what it is handed, and what comes of it.
use crate::context::{DiagnosticProducerError, SpanEventAdmission};
use crate::custom_act_binding::ActAuthority;
use crate::event::{
    follows_from, CausalLink, ComponentFailure, ComponentFailureErrorCode, ComponentFailureStage,
    CounterKind, DiagnosticEventKind, DiagnosticScope, EventBody,
    EventCandidate, InstantDetail, RunLocalId, SpanKind, SpanOutcome,
};
use crate::hooks::{DiagnosticAdmissionProfile, DiagnosticCaptureConfig};
use crate::identifier::numbered_id;
use crate::run::{DiagnosticRuns, RuntimeProducerError};
use crate::run_identity::CanonicalUuid;
use crate::runtime_producer::RuntimeProducerRegistry;
use crate::sink_projection::{
    project_act_event, AcceptedDiagnosticEvent, PreparedSinkToolPayload, SinkProjectedEvent,
};
use crate::sink_registry::{ActSinkRegistry, ActSubscriber, StandaloneLineages};
use std::sync::Arc;
use vstd::prelude::*;
use vstd::string::StringExecFns;

verus! {

/// The largest event that an act without a run can report, in bytes.
pub const STANDALONE_EVENT_MAX_BYTES: usize = 8388608;

/// An event is too large for an act without a run.
#[derive(Clone, Copy, Debug, PartialEq, Eq, Structural)]
pub struct StandaloneReserveError;

impl StandaloneReserveError {
    /// Describes the error to a reader.
    pub fn describe(&self) -> (text: String)
        ensures
            text@ == "standalone diagnostic event exceeds its in-memory bound"@,
    {
        "standalone diagnostic event exceeds its in-memory bound".to_owned()
    }
}

/// Lets one event at a time through, up to the largest size.
pub fn try_reserve(event_count: usize, canonical_bytes: usize) -> (result: Result<
    (),
    StandaloneReserveError,
>)
    ensures
        if event_count == 1 && canonical_bytes <= 8 * 1024 * 1024 {
            result == Ok::<(), StandaloneReserveError>(())
        } else {
            result == Err::<(), StandaloneReserveError>(StandaloneReserveError)
        },
{
    if event_count != 1 || canonical_bytes > STANDALONE_EVENT_MAX_BYTES {
        return Err(StandaloneReserveError);
    }
    Ok(())
}

/// Keeps the first failure of an act without a run, as text.
#[derive(Debug, PartialEq, Eq)]
pub struct StandaloneFailureOwner {
    pub first_failure: Option<String>,
}

impl StandaloneFailureOwner {
    pub fn new() -> (owner: Self)
        ensures
            owner.first_failure is None,
    {
        StandaloneFailureOwner { first_failure: None }
    }

    /// The text of the first failure. It stays.
    pub open spec fn keeps(self, after: Self, text: Seq<char>) -> bool {
        match self.first_failure {
            Some(_) => after == self,
            None => after.first_failure is Some && after.first_failure->0@ == text,
        }
    }

    fn latch(&mut self, text: String)
        ensures
            old(self).keeps(*final(self), text@),
    {
        if self.first_failure.is_none() {
            self.first_failure = Some(text);
        }
    }

    pub fn latch_diagnostic_failure(&mut self, error: &DiagnosticProducerError)
        ensures
            old(self).keeps(*final(self), error.text()),
    {
        self.latch(error.describe());
    }

    pub fn latch_state_failure(&mut self, code: &'static str)
        ensures
            old(self).keeps(*final(self), code@),
    {
        self.latch(code.to_owned());
    }

    pub fn observer_failed(&mut self, observation_kind: &str, error_code: &str)
        ensures
            old(self).keeps(*final(self), observation_kind@ + ":"@ + error_code@),
    {
        self.latch(observation_kind.to_owned().concat(":").concat(error_code));
    }

    pub fn usage_finalization_failed(&mut self, act_id: &str, error_code: &str)
        ensures
            old(self).keeps(*final(self), act_id@ + ":"@ + error_code@),
    {
        self.latch(act_id.to_owned().concat(":").concat(error_code));
    }
}

/// How an act is admitted.
#[derive(Clone, Copy, Debug, PartialEq, Eq, Structural)]
pub enum ActAdmissionPath {
    /// Through the capability that is installed.
    Capability,
    /// The act is reported, and no sink hears of it.
    ReportOnly,
    /// A run without its capability cannot serve a sink.
    CapabilityMissing,
    /// Through a capability of its own, which is installed first.
    Standalone,
}

impl ActAdmissionPath {
    /// Why an act is not admitted, where this path leads nowhere.
    pub fn describe(self) -> (text: Option<String>)
        ensures
            match text {
                Some(text) => {
                    &&& self == ActAdmissionPath::CapabilityMissing
                    &&& text@
                        == "Production diagnostics did not install its mandatory Act sink capability"@
                },
                None => self != ActAdmissionPath::CapabilityMissing,
            },
    {
        match self {
            ActAdmissionPath::CapabilityMissing => Some(
                "Production diagnostics did not install its mandatory Act sink capability".to_owned(),
            ),
            _ => None,
        }
    }
}

/// Who hears of the failures of a capability.
#[derive(Clone, Copy, Debug, PartialEq, Eq, Structural)]
pub enum CapabilityOwner {
    /// The producer at this place.
    Producer { place: usize },
    /// The run itself, which no production has.
    Standalone { run: usize },
}

impl CapabilityOwner {
    /// The run that keeps the failures, where the owner is there.
    pub open spec fn spec_run(self, runtimes: RuntimeProducerRegistry) -> Option<usize> {
        match self {
            CapabilityOwner::Producer { place } => if place < runtimes.producers@.len() {
                Some(runtimes.producers@[place as int].run)
            } else {
                None
            },
            CapabilityOwner::Standalone { run } => Some(run),
        }
    }

    pub fn run(self, runtimes: &RuntimeProducerRegistry) -> (run: Option<usize>)
        ensures
            run == self.spec_run(*runtimes),
    {
        match self {
            CapabilityOwner::Producer { place } => if place < runtimes.producers.len() {
                Some(runtimes.producers[place].run)
            } else {
                None
            },
            CapabilityOwner::Standalone { run } => Some(run),
        }
    }
}

/// The capability to admit acts. `context` is the place of the channel that it reports through.
pub struct ActSinkAdmissionCapability {
    pub run_id: CanonicalUuid,
    pub context: usize,
    pub owner: CapabilityOwner,
    /// The sinks of the acts.
    pub registry: ActSinkRegistry,
    /// What acts without a production belong to.
    pub standalone: Option<StandaloneLineages>,
}

impl ActSinkAdmissionCapability {
    /// The capability reports through this channel and to this owner, and no act has a sink yet.
    pub open spec fn belongs_to(
        self,
        run_id: CanonicalUuid,
        context: usize,
        owner: CapabilityOwner,
    ) -> bool {
        &&& self.run_id == run_id
        &&& self.context == context
        &&& self.owner == owner
        &&& self.registry.wf()
        &&& forall|act_id: Seq<char>| #[trigger] self.registry.spec_entry(act_id) is None
    }

    /// The capability of acts without a production. Its run has a name of its own.
    pub fn standalone(run: usize) -> (capability: Self)
        ensures
            capability.belongs_to(
                capability.run_id,
                run,
                CapabilityOwner::Standalone { run },
            ),
            capability.standalone matches Some(lineages) && lineages.fresh(),
    {
        ActSinkAdmissionCapability {
            run_id: CanonicalUuid::random(),
            context: run,
            owner: CapabilityOwner::Standalone { run },
            registry: ActSinkRegistry::new(),
            standalone: Some(StandaloneLineages::new()),
        }
    }
}

/// The capability of a production: it reports through the production's channel, and its producer
/// hears of failures.
pub fn production_capability(run_id: CanonicalUuid, context: usize, producer: usize) -> (capability:
    ActSinkAdmissionCapability)
    ensures
        capability.belongs_to(run_id, context, CapabilityOwner::Producer { place: producer }),
        capability.standalone is None,
{
    ActSinkAdmissionCapability {
        run_id,
        context,
        owner: CapabilityOwner::Producer { place: producer },
        registry: ActSinkRegistry::new(),
        standalone: None,
    }
}

/// How an act is admitted.
pub open spec fn spec_act_admission_path(
    capability_installed: bool,
    binding_is_active: bool,
    runtime_installed: bool,
) -> ActAdmissionPath {
    if capability_installed {
        ActAdmissionPath::Capability
    } else if !binding_is_active {
        ActAdmissionPath::ReportOnly
    } else if runtime_installed {
        ActAdmissionPath::CapabilityMissing
    } else {
        ActAdmissionPath::Standalone
    }
}

/// Chooses how an act is admitted.
pub fn act_admission_path(
    capability_installed: bool,
    binding_is_active: bool,
    runtime_installed: bool,
) -> (path: ActAdmissionPath)
    ensures
        path == spec_act_admission_path(capability_installed, binding_is_active, runtime_installed),
{
    if capability_installed {
        return ActAdmissionPath::Capability;
    }
    if !binding_is_active {
        return ActAdmissionPath::ReportOnly;
    }
    if runtime_installed {
        return ActAdmissionPath::CapabilityMissing;
    }
    ActAdmissionPath::Standalone
}

/// What a capability does with an act.
#[derive(Clone, Copy, Debug, PartialEq, Eq, Structural)]
pub enum CapabilityPath {
    Bind,
    AdmitWithoutSink,
    Nothing,
}

/// What a capability does with an act.
pub open spec fn spec_capability_path(
    profile: DiagnosticAdmissionProfile,
    binding_is_active: bool,
) -> CapabilityPath {
    if binding_is_active {
        CapabilityPath::Bind
    } else if profile == DiagnosticAdmissionProfile::ProductionDurable {
        CapabilityPath::AdmitWithoutSink
    } else {
        CapabilityPath::Nothing
    }
}

/// Chooses what a capability does with an act: only a run reports an act without a sink.
pub fn capability_path(profile: DiagnosticAdmissionProfile, binding_is_active: bool) -> (path:
    CapabilityPath)
    ensures
        path == spec_capability_path(profile, binding_is_active),
{
    if !binding_is_active {
        if profile == DiagnosticAdmissionProfile::ProductionDurable {
            return CapabilityPath::AdmitWithoutSink;
        }
        return CapabilityPath::Nothing;
    }
    CapabilityPath::Bind
}

/// What a queue did with an event: it took it, perhaps in the place of others, dropped it, or took
/// it as the last one.
#[derive(Debug, PartialEq, Eq)]
pub enum AdmissionOutcome {
    Enqueued { evicted: Vec<usize> },
    Dropped { events: usize },
    Terminalized { dropped: Vec<usize> },
}

/// The sum of the first `count` numbers.
pub open spec fn total(numbers: Seq<usize>, count: int) -> int
    decreases count,
{
    if count <= 0 {
        0
    } else {
        total(numbers, count - 1) + numbers[count - 1]
    }
}

/// The sum, as far as it can be counted.
pub open spec fn capped(sum: int) -> int {
    if sum > usize::MAX {
        usize::MAX as int
    } else {
        sum
    }
}

impl AdmissionOutcome {
    /// The number of events that were dropped, as far as it can be counted.
    pub open spec fn spec_dropped(self) -> int {
        match self {
            AdmissionOutcome::Enqueued { evicted } => capped(
                total(evicted@, evicted@.len() as int),
            ),
            AdmissionOutcome::Dropped { events } => events as int,
            AdmissionOutcome::Terminalized { dropped } => capped(
                total(dropped@, dropped@.len() as int),
            ),
        }
    }
}

fn saturating_total(numbers: &Vec<usize>) -> (sum: usize)
    ensures
        sum == capped(total(numbers@, numbers@.len() as int)),
{
    let mut sum: usize = 0;
    for i in 0..numbers.len()
        invariant
            0 <= total(numbers@, i as int),
            sum == capped(total(numbers@, i as int)),
    {
        sum = sum.saturating_add(numbers[i]);
    }
    sum
}

pub fn dropped_events(outcome: &AdmissionOutcome) -> (dropped: usize)
    ensures
        dropped == outcome.spec_dropped(),
{
    match outcome {
        AdmissionOutcome::Enqueued { evicted } => saturating_total(evicted),
        AdmissionOutcome::Dropped { events } => *events,
        AdmissionOutcome::Terminalized { dropped } => saturating_total(dropped),
    }
}

/// Why a settlement failed.
#[derive(Clone, Copy, Debug, PartialEq, Eq)]
pub struct ActSettlementError {
    pub code: &'static str,
    pub message: &'static str,
}

/// What came of the seal of a sink.
#[derive(Clone, Copy, Debug, PartialEq, Eq)]
pub enum ActSettlementSinkCommit {
    Rejected(ActSettlementError),
    Committed,
    CommittedWithFailure(ActSettlementError),
}

/// What comes of beginning the settlement of an act's sink.
pub open spec fn settlement_begins(
    registry: ActSinkRegistry,
    act_id: Seq<char>,
    sink_id: u64,
    seal: Result<(), ActSettlementError>,
    result: Result<(), ActSettlementError>,
) -> bool {
    match seal {
        Err(error) => result == Err::<(), ActSettlementError>(error),
        Ok(()) => if registry.spec_entry(act_id) == Some(ActSubscriber::Bound { sink_id }) {
            result == Ok::<(), ActSettlementError>(())
        } else {
            result == Err::<(), ActSettlementError>(
                ActSettlementError {
                    code: "act.sink-retire-missing",
                    message: "diagnostic sink binding is missing before terminal settlement",
                },
            )
        },
    }
}

/// Lets the settlement of an act's sink begin: the seal is prepared, and the sink is still bound.
pub fn prepare_settlement(
    registry: &ActSinkRegistry,
    act_id: &str,
    sink_id: u64,
    seal: Result<(), ActSettlementError>,
) -> (result: Result<(), ActSettlementError>)
    requires
        registry.wf(),
    ensures
        settlement_begins(*registry, act_id@, sink_id, seal, result),
{
    if let Err(error) = seal {
        return Err(error);
    }
    if !registry.contains_bound_sink(act_id, sink_id) {
        return Err(
            ActSettlementError {
                code: "act.sink-retire-missing",
                message: "diagnostic sink binding is missing before terminal settlement",
            },
        );
    }
    Ok(())
}

/// What comes of ending the settlement of an act's sink.
pub open spec fn settlement_ends(
    registry: ActSinkRegistry,
    after: ActSinkRegistry,
    act_id: Seq<char>,
    sink_id: u64,
    seal: ActSettlementSinkCommit,
    commit: ActSettlementSinkCommit,
) -> bool {
    match seal {
        ActSettlementSinkCommit::Rejected(error) => {
            &&& commit == ActSettlementSinkCommit::Rejected(error)
            &&& after == registry
        },
        _ => {
            let bound = registry.spec_entry(act_id) == Some(
                ActSubscriber::Bound { sink_id },
            );
            &&& commit == if seal is CommittedWithFailure || bound {
                seal
            } else {
                ActSettlementSinkCommit::CommittedWithFailure(
                    ActSettlementError {
                        code: "act.sink-retire-missing",
                        message:
                            "diagnostic sink binding disappeared during terminal settlement",
                    },
                )
            }
            &&& if bound {
                &&& after.spec_entry(act_id) is None
                &&& registry.keeps_others(after, act_id)
            } else {
                after == registry
            }
        },
    }
}

/// Ends the settlement of an act's sink: a sealed sink is no longer bound. The first failure is
/// told.
pub fn commit_settlement(
    registry: &mut ActSinkRegistry,
    act_id: &str,
    sink_id: u64,
    seal: ActSettlementSinkCommit,
) -> (commit: ActSettlementSinkCommit)
    requires
        old(registry).wf(),
    ensures
        final(registry).wf(),
        settlement_ends(*old(registry), *final(registry), act_id@, sink_id, seal, commit),
{
    if let ActSettlementSinkCommit::Rejected(error) = seal {
        return ActSettlementSinkCommit::Rejected(error);
    }
    if !registry.retire_expected(act_id, sink_id) {
        if let ActSettlementSinkCommit::Committed = seal {
            return ActSettlementSinkCommit::CommittedWithFailure(
                ActSettlementError {
                    code: "act.sink-retire-missing",
                    message: "diagnostic sink binding disappeared during terminal settlement",
                },
            );
        }
    }
    seal
}

/// Where usage is bound to an act.
#[derive(Clone, Copy, Debug, PartialEq, Eq)]
pub struct UsageBindingCodes {
    pub late: &'static str,
    pub failed: &'static str,
    pub label: &'static str,
}

impl UsageBindingCodes {
    pub open spec fn spec_of(profile: DiagnosticAdmissionProfile) -> UsageBindingCodes {
        match profile {
            DiagnosticAdmissionProfile::ProductionDurable => UsageBindingCodes {
                late: "act.production-usage-bind-late",
                failed: "act.production-usage-bind-failed",
                label: "mandatory Production",
            },
            DiagnosticAdmissionProfile::SinkOnlyVolatile => UsageBindingCodes {
                late: "act.standalone-usage-bind-late",
                failed: "act.standalone-usage-bind-failed",
                label: "standalone",
            },
        }
    }

    pub fn of(profile: DiagnosticAdmissionProfile) -> (codes: UsageBindingCodes)
        ensures
            codes == UsageBindingCodes::spec_of(profile),
    {
        match profile {
            DiagnosticAdmissionProfile::ProductionDurable => UsageBindingCodes {
                late: "act.production-usage-bind-late",
                failed: "act.production-usage-bind-failed",
                label: "mandatory Production",
            },
            DiagnosticAdmissionProfile::SinkOnlyVolatile => UsageBindingCodes {
                late: "act.standalone-usage-bind-late",
                failed: "act.standalone-usage-bind-failed",
                label: "standalone",
            },
        }
    }
}

/// What came of binding usage to an act.
#[derive(Debug, PartialEq, Eq)]
pub enum UsageBinding {
    Bound,
    Late,
    Failed { reason: String },
}

/// What the failed binding of usage says and latches.
pub open spec fn usage_failure(profile: DiagnosticAdmissionProfile, binding: UsageBinding) -> Option<
    (&'static str, Seq<char>),
> {
    let codes = UsageBindingCodes::spec_of(profile);
    match binding {
        UsageBinding::Bound => None,
        UsageBinding::Late => Some(
            (codes.late, codes.label@ + " diagnostic usage binding missed the admitted Act"@),
        ),
        UsageBinding::Failed { reason } => Some(
            (codes.failed, "bind "@ + codes.label@ + " diagnostic usage: "@ + reason@),
        ),
    }
}

/// Takes what came of binding usage to an act. `owner` is the place of the run that hears of a
/// failure.
pub fn bind_usage<A: SpanEventAdmission>(
    runs: &mut DiagnosticRuns<A>,
    owner: usize,
    profile: DiagnosticAdmissionProfile,
    binding: UsageBinding,
) -> (result: Result<(), String>)
    requires
        owner < old(runs)@.len(),
    ensures
        final(runs)@.len() == old(runs)@.len(),
        match usage_failure(profile, binding) {
            None => result is Ok && final(runs)@ == old(runs)@,
            Some((code, text)) => {
                &&& result is Err
                &&& result->Err_0@ == text
                &&& final(runs)@ == DiagnosticRuns::latched_at(
                    old(runs)@,
                    Some(owner),
                    Some(RuntimeProducerError::State { code }),
                )
            },
        },
{
    let codes = UsageBindingCodes::of(profile);
    match binding {
        UsageBinding::Bound => Ok(()),
        UsageBinding::Late => {
            runs.runs[owner].latch_state_failure(codes.late);
            Err(
                codes.label.to_owned().concat(" diagnostic usage binding missed the admitted Act"),
            )
        },
        UsageBinding::Failed { reason } => {
            runs.runs[owner].latch_state_failure(codes.failed);
            Err(
                "bind ".to_owned().concat(codes.label).concat(" diagnostic usage: ").concat(
                    reason.as_str(),
                ),
            )
        },
    }
}

/// What a sink reports of a delivery that failed.
#[derive(Clone, Copy, Debug, PartialEq, Eq, Structural)]
pub enum SinkDeliveryFailure {
    CallbackRaised { event_sequence: u64 },
    CallbackInvalidReturn { event_sequence: u64 },
    Unexpected,
}

/// Reports the first failure in the delivery to a sink, once. `run` is the run that it is reported
/// in, and `owner` the run that hears where that fails.
#[derive(Debug, PartialEq, Eq)]
pub struct DeliveryFactEmitter {
    pub run: usize,
    pub owner: usize,
    pub scope: DiagnosticScope,
    pub component_id: RunLocalId,
    pub emitted: bool,
}

impl DeliveryFactEmitter {
    pub fn new(run: usize, owner: usize, scope: DiagnosticScope, sink_id: u64) -> (emitter: Self)
        ensures
            emitter.run == run,
            emitter.owner == owner,
            emitter.scope == scope,
            emitter.component_id@ == crate::identifier::numbered("sink-"@, sink_id),
            !emitter.emitted,
    {
        DeliveryFactEmitter {
            run,
            owner,
            scope,
            component_id: numbered_id("sink-", sink_id),
            emitted: false,
        }
    }

    /// The event of a failure, which no act hears of.
    pub open spec fn event(
        self,
        stage: ComponentFailureStage,
        error_code: ComponentFailureErrorCode,
        related: Option<u64>,
    ) -> EventCandidate {
        EventCandidate::instant(
            self.scope,
            InstantDetail::DiagnosticComponentFailed(
                ComponentFailure {
                    component_id: self.component_id,
                    stage,
                    error_code,
                    related,
                },
            ),
            None,
            None,
        ).without_act_subscriber()
    }

    /// What came of a failure: the first is reported, while the capability is there.
    pub open spec fn on_report<A: SpanEventAdmission>(
        self,
        after: Self,
        runs: DiagnosticRuns<A>,
        runs_after: DiagnosticRuns<A>,
        alive: bool,
        stage: ComponentFailureStage,
        error_code: ComponentFailureErrorCode,
        related: Option<u64>,
    ) -> bool {
        let context = runs@[self.run as int].context;
        let context_after = runs_after@[self.run as int].context;
        &&& after == DeliveryFactEmitter { emitted: true, ..self }
        &&& if self.emitted || !alive {
            runs_after@ == runs@
        } else {
            &&& context_after.reports(context, self.event(stage, error_code, related).alone())
            &&& runs_after.stepped(
                runs,
                self.run,
                Some(self.owner),
                RuntimeProducerError::refused(context_after.refusal_since(context)),
            )
        }
    }

    pub fn report<A: SpanEventAdmission>(
        &mut self,
        runs: &mut DiagnosticRuns<A>,
        alive: bool,
        stage: ComponentFailureStage,
        error_code: ComponentFailureErrorCode,
        related: Option<u64>,
    )
        requires
            old(self).run < old(runs)@.len(),
            old(self).owner < old(runs)@.len(),
        ensures
            final(runs)@.len() == old(runs)@.len(),
            old(self).on_report(
                *final(self),
                *old(runs),
                *final(runs),
                alive,
                stage,
                error_code,
                related,
            ),
    {
        if self.emitted {
            return;
        }
        self.emitted = true;
        if !alive {
            return;
        }
        let reply = runs.runs[self.run].context.emit_instant_without_act_subscriber(
            self.scope.clone(),
            InstantDetail::DiagnosticComponentFailed(
                ComponentFailure {
                    component_id: self.component_id.clone(),
                    stage,
                    error_code,
                    related,
                },
            ),
            None,
        );
        if let Err(error) = reply {
            runs.runs[self.owner].latch_diagnostic_failure(error);
        }
    }

    /// The stage, the code and the event of what a sink reports.
    pub open spec fn fault(failure: SinkDeliveryFailure) -> (
        ComponentFailureStage,
        ComponentFailureErrorCode,
        Option<u64>,
    ) {
        match failure {
            SinkDeliveryFailure::CallbackRaised { event_sequence } => (
                ComponentFailureStage::Callback,
                ComponentFailureErrorCode::CallbackRaised,
                Some(event_sequence),
            ),
            SinkDeliveryFailure::CallbackInvalidReturn { event_sequence } => (
                ComponentFailureStage::Callback,
                ComponentFailureErrorCode::CallbackInvalidReturn,
                Some(event_sequence),
            ),
            SinkDeliveryFailure::Unexpected => (
                ComponentFailureStage::Enqueue,
                ComponentFailureErrorCode::DeliveryQueueUnavailable,
                None,
            ),
        }
    }

    /// Takes what a sink reports of a delivery that failed.
    pub fn delivery_failed<A: SpanEventAdmission>(
        &mut self,
        runs: &mut DiagnosticRuns<A>,
        alive: bool,
        failure: SinkDeliveryFailure,
    )
        requires
            old(self).run < old(runs)@.len(),
            old(self).owner < old(runs)@.len(),
        ensures
            final(runs)@.len() == old(runs)@.len(),
            old(self).on_report(
                *final(self),
                *old(runs),
                *final(runs),
                alive,
                DeliveryFactEmitter::fault(failure).0,
                DeliveryFactEmitter::fault(failure).1,
                DeliveryFactEmitter::fault(failure).2,
            ),
    {
        match failure {
            SinkDeliveryFailure::CallbackRaised { event_sequence } => self.report(
                runs,
                alive,
                ComponentFailureStage::Callback,
                ComponentFailureErrorCode::CallbackRaised,
                Some(event_sequence),
            ),
            SinkDeliveryFailure::CallbackInvalidReturn { event_sequence } => self.report(
                runs,
                alive,
                ComponentFailureStage::Callback,
                ComponentFailureErrorCode::CallbackInvalidReturn,
                Some(event_sequence),
            ),
            SinkDeliveryFailure::Unexpected => self.report(
                runs,
                alive,
                ComponentFailureStage::Enqueue,
                ComponentFailureErrorCode::DeliveryQueueUnavailable,
                None,
            ),
        }
    }
}

/// How an act ended, as its sink hears it.
#[derive(Clone, Copy, Debug, PartialEq, Eq, Structural)]
pub enum ActOutcome {
    Completed,
    Cancelled,
    Failed,
}

/// Calls of a sink's queue, in order.
pub type SinkLog = Seq<SinkCall>;

/// The queue of a sink, with what stands between it and user code. Nothing is promised of what it
/// answers, only that it is known what was asked of it.
pub trait SinkQueue {
    /// Every call so far.
    spec fn told(&self) -> SinkLog;

    fn record_source_gaps(&mut self, count: usize)
        ensures
            final(self).told() == old(self).told().push(SinkCall::SourceGaps { gaps: count }),
    ;

    fn record_truncated_payloads(&mut self, count: usize)
        ensures
            final(self).told() == old(self).told().push(
                SinkCall::TruncatedPayloads { truncated: count },
            ),
    ;

    /// Makes the value that user code sees. Gives the size of what was captured, in bytes, unless
    /// user code raised an error.
    fn materialize(&mut self, projected: &SinkProjectedEvent) -> (sidecar_bytes: Option<usize>)
        ensures
            final(self).told() == old(self).told().push(
                SinkCall::Materialize { projected: *projected, sidecar_bytes },
            ),
    ;

    /// Puts the value made last into the queue. A structural event is not dropped for content.
    fn try_enqueue(
        &mut self,
        sequence: u64,
        kind: DiagnosticEventKind,
        encoded_bytes: usize,
        structural: bool,
    ) -> (admission: Option<AdmissionOutcome>)
        ensures
            final(self).told() == old(self).told().push(
                SinkCall::Enqueue {
                    terminal: false,
                    structural,
                    sequence,
                    kind,
                    encoded_bytes,
                    admission,
                },
            ),
    ;

    /// Puts the value made last into the queue as the last one.
    fn try_enqueue_terminal(
        &mut self,
        sequence: u64,
        kind: DiagnosticEventKind,
        encoded_bytes: usize,
    ) -> (admission: Option<AdmissionOutcome>)
        ensures
            final(self).told() == old(self).told().push(
                SinkCall::Enqueue {
                    terminal: true,
                    structural: false,
                    sequence,
                    kind,
                    encoded_bytes,
                    admission,
                },
            ),
    ;

    /// Settles the act with its sink, or tells the code of what went wrong.
    fn settle(&mut self, outcome: ActOutcome) -> (settled: Result<(), &'static str>)
        ensures
            final(self).told() == old(self).told().push(SinkCall::Settle { outcome, settled }),
    ;
}

/// A call of a sink's queue.
pub enum SinkCall {
    SourceGaps { gaps: usize },
    TruncatedPayloads { truncated: usize },
    Materialize { projected: SinkProjectedEvent, sidecar_bytes: Option<usize> },
    Enqueue {
        terminal: bool,
        structural: bool,
        sequence: u64,
        kind: DiagnosticEventKind,
        encoded_bytes: usize,
        admission: Option<AdmissionOutcome>,
    },
    Settle { outcome: ActOutcome, settled: Result<(), &'static str> },
}

/// A sink with its queue.
pub struct RecordedSink<S> {
    pub queue: S,
}

impl<S: SinkQueue> RecordedSink<S> {
    pub fn new(queue: S) -> (sink: Self)
        ensures
            sink.queue == queue,
    {
        RecordedSink { queue }
    }

    /// What the queue was asked so far.
    pub open spec fn calls(self) -> Seq<SinkCall> {
        self.queue.told()
    }

    fn note(&mut self, gaps: usize, truncated: usize)
        ensures
            final(self).calls() =~= old(self).calls() + notes(gaps, truncated),
    {
        let ghost before = self.calls();
        if gaps != 0 {
            self.queue.record_source_gaps(gaps);
        }
        if truncated != 0 {
            self.queue.record_truncated_payloads(truncated);
        }
        assert(self.calls() =~= before + notes(gaps, truncated));
    }

    fn materialize(&mut self, projected: &SinkProjectedEvent) -> (sidecar_bytes: Option<usize>)
        ensures
            final(self).calls() == old(self).calls().push(
                SinkCall::Materialize { projected: *projected, sidecar_bytes },
            ),
    {
        let sidecar_bytes = self.queue.materialize(projected);
        sidecar_bytes
    }

    fn enqueue(
        &mut self,
        terminal: bool,
        structural: bool,
        sequence: u64,
        kind: DiagnosticEventKind,
        encoded_bytes: usize,
    ) -> (admission: Option<AdmissionOutcome>)
        ensures
            final(self).calls() == old(self).calls().push(
                SinkCall::Enqueue {
                    terminal,
                    structural: !terminal && structural,
                    sequence,
                    kind,
                    encoded_bytes,
                    admission,
                },
            ),
    {
        let admission = if terminal {
            self.queue.try_enqueue_terminal(sequence, kind, encoded_bytes)
        } else {
            self.queue.try_enqueue(sequence, kind, encoded_bytes, structural)
        };
        admission
    }

    fn settle(&mut self, outcome: ActOutcome) -> (settled: Result<(), &'static str>)
        ensures
            final(self).calls() == old(self).calls().push(SinkCall::Settle { outcome, settled }),
    {
        self.queue.settle(outcome)
    }
}

/// What a sink is told of gaps and of payloads that were cut.
pub open spec fn notes(gaps: usize, truncated: usize) -> Seq<SinkCall> {
    let of_gaps = if gaps != 0 {
        seq![SinkCall::SourceGaps { gaps }]
    } else {
        Seq::empty()
    };
    let of_truncated = if truncated != 0 {
        seq![SinkCall::TruncatedPayloads { truncated }]
    } else {
        Seq::empty()
    };
    of_gaps + of_truncated
}

/// The calls of a queue since `before`: what it was told, then a value that was made, then the rest.
proof fn told_in_order(
    before: Seq<SinkCall>,
    noted: Seq<SinkCall>,
    made: SinkCall,
    calls: Seq<SinkCall>,
)
    requires
        calls.len() >= before.len() + noted.len() + 1,
        calls.take((before.len() + noted.len() + 1) as int) =~= (before + noted).push(made),
    ensures
        calls.take(before.len() as int) =~= before,
        calls.skip(before.len() as int).take(noted.len() as int) =~= noted,
        calls.skip(before.len() as int)[noted.len() as int] == made,
        calls.skip(before.len() as int).skip(noted.len() as int + 1) =~= calls.skip(
            (before.len() + noted.len() + 1) as int,
        ),
{
    let queued = (before + noted).push(made);
    assert forall|at: int| 0 <= at < queued.len() implies calls[at] == queued[at] by {
        assert(calls.take(queued.len() as int)[at] == queued[at]);
    }
}

/// The calls of a queue since `before`: one call, then the rest.
proof fn told_next(before: Seq<SinkCall>, next: SinkCall, calls: Seq<SinkCall>)
    requires
        calls.len() >= before.len() + 1,
        calls.take((before.len() + 1) as int) =~= before.push(next),
    ensures
        calls.take(before.len() as int) =~= before,
        calls.skip(before.len() as int)[0] == next,
        calls.skip(before.len() as int).skip(1) =~= calls.skip((before.len() + 1) as int),
{
    let queued = before.push(next);
    assert forall|at: int| 0 <= at < queued.len() implies calls[at] == queued[at] by {
        assert(calls.take(queued.len() as int)[at] == queued[at]);
    }
}

/// The place of the payload of an event among those from `place` on.
pub open spec fn pending_from(
    pending: Seq<PreparedSinkToolPayload>,
    event: EventCandidate,
    place: int,
) -> Option<int>
    decreases pending.len() - place,
{
    if place >= pending.len() {
        None
    } else if crate::sink_projection::belongs_to(pending[place], event) {
        Some(place)
    } else {
        pending_from(pending, event, place + 1)
    }
}

/// The end of an act, as an event states it.
pub open spec fn spec_act_outcome(canonical: AcceptedDiagnosticEvent) -> Option<ActOutcome> {
    match canonical.event.body {
        EventBody::SpanFinished { outcome, .. } => if canonical.built_in_span_kind == Some(
            SpanKind::ActLifecycle,
        ) {
            Some(
                match outcome {
                    SpanOutcome::Completed => ActOutcome::Completed,
                    SpanOutcome::Cancelled => ActOutcome::Cancelled,
                    SpanOutcome::Failed => ActOutcome::Failed,
                },
            )
        } else {
            None
        },
        _ => None,
    }
}

pub fn act_outcome(canonical: &AcceptedDiagnosticEvent) -> (outcome: Option<ActOutcome>)
    ensures
        outcome == spec_act_outcome(*canonical),
{
    match &canonical.event.body {
        EventBody::SpanFinished { outcome, .. } => {
            if canonical.built_in_span_kind != Some(SpanKind::ActLifecycle) {
                return None;
            }
            Some(
                match outcome {
                    SpanOutcome::Completed => ActOutcome::Completed,
                    SpanOutcome::Cancelled => ActOutcome::Cancelled,
                    SpanOutcome::Failed => ActOutcome::Failed,
                },
            )
        },
        _ => None,
    }
}

/// An event states how many events were dropped.
pub open spec fn counts_drops(canonical: AcceptedDiagnosticEvent) -> bool {
    canonical.event.body matches EventBody::CounterSampled { kind, .. } && kind
        == CounterKind::DiagnosticDroppedEvents
}

/// The number of payloads of an event that were cut.
pub open spec fn spec_truncated(projected: SinkProjectedEvent) -> usize {
    let input: int = if projected.captured_input is Some && projected.captured_input->0.truncated {
        1
    } else {
        0
    };
    let output: int = if projected.captured_output is Some
        && projected.captured_output->0.truncated {
        1
    } else {
        0
    };
    (input + output) as usize
}

/// The number of gaps that an event states.
pub open spec fn spec_gaps(projected: SinkProjectedEvent) -> usize {
    if projected.canonical.event.body is ObservationGap {
        1
    } else {
        0
    }
}

/// The sum, as far as it can be counted.
pub open spec fn saturated(left: nat, right: nat, most: nat) -> nat {
    if left + right > most {
        most
    } else {
        left + right
    }
}

/// The sink of one act. `run` is the run of the act, and `owner` the run that hears of failures.
pub struct ActSinkSubscriber {
    pub run: usize,
    pub owner: usize,
    pub capture: DiagnosticCaptureConfig,
    pub act_scope: DiagnosticScope,
    pub sink_id: u64,
    pub pending: Vec<PreparedSinkToolPayload>,
    pub dropped: u64,
    pub failure_facts: DeliveryFactEmitter,
    pub terminal_enqueued: bool,
}

impl ActSinkSubscriber {
    pub fn new(
        run: usize,
        owner: usize,
        capture: DiagnosticCaptureConfig,
        act_scope: DiagnosticScope,
        sink_id: u64,
    ) -> (subscriber: Self)
        ensures
            subscriber.wf(),
            subscriber.run == run,
            subscriber.owner == owner,
            subscriber.capture == capture,
            subscriber.act_scope == act_scope,
            subscriber.sink_id == sink_id,
            subscriber.pending@ == Seq::<PreparedSinkToolPayload>::empty(),
            subscriber.dropped == 0,
            !subscriber.failure_facts.emitted,
            !subscriber.terminal_enqueued,
    {
        let scope = act_scope.clone();
        ActSinkSubscriber {
            run,
            owner,
            capture,
            act_scope,
            sink_id,
            pending: Vec::new(),
            dropped: 0,
            failure_facts: DeliveryFactEmitter::new(run, owner, scope, sink_id),
            terminal_enqueued: false,
        }
    }

    /// Failures are reported as those of this sink.
    pub open spec fn wf(self) -> bool {
        &&& self.failure_facts.run == self.run
        &&& self.failure_facts.owner == self.owner
        &&& self.failure_facts.scope == self.act_scope
        &&& self.failure_facts.component_id@ == crate::identifier::numbered(
            "sink-"@,
            self.sink_id,
        )
    }

    /// Reports through runs that are open.
    pub open spec fn fits<A: SpanEventAdmission>(self, runs: DiagnosticRuns<A>) -> bool {
        self.wf() && self.run < runs@.len() && self.owner < runs@.len()
    }

    /// Keeps a payload for the event that it goes with.
    pub fn deliver_tool_payload(&mut self, payload: PreparedSinkToolPayload)
        ensures
            final(self).pending@ == old(self).pending@.push(payload),
            *final(self) == (ActSinkSubscriber { pending: final(self).pending, ..*old(self) }),
    {
        self.pending.push(payload);
    }

    fn take_payload(&mut self, event: &EventCandidate) -> (payload: Option<PreparedSinkToolPayload>)
        ensures
            *final(self) == (ActSinkSubscriber { pending: final(self).pending, ..*old(self) }),
            match pending_from(old(self).pending@, *event, 0) {
                Some(place) => {
                    &&& payload == Some(old(self).pending@[place])
                    &&& final(self).pending@ == old(self).pending@.remove(place)
                },
                None => payload is None && final(self).pending@ == old(self).pending@,
            },
    {
        let mut place: usize = 0;
        while place < self.pending.len()
            invariant
                place <= self.pending@.len(),
                *self == *old(self),
                pending_from(self.pending@, *event, 0) == pending_from(
                    self.pending@,
                    *event,
                    place as int,
                ),
            decreases self.pending.len() - place,
        {
            if crate::sink_projection::payload_matches_event(&self.pending[place], event) {
                return Some(self.pending.remove(place));
            }
            place = place + 1;
        }
        None
    }

    /// The counter of dropped events after some were dropped. No act hears of it.
    pub open spec fn drop_event(self, dropped: u64, source_sequence: u64) -> EventCandidate {
        EventCandidate::counter(
            self.act_scope,
            CounterKind::DiagnosticDroppedEvents,
            dropped,
            CausalLink::after(source_sequence),
        ).without_act_subscriber()
    }

    /// What came of events that were dropped: they are counted, and the count is reported, unless
    /// only this sink hears of the event that they were dropped for.
    pub open spec fn on_drops<A: SpanEventAdmission>(
        self,
        after: Self,
        runs: DiagnosticRuns<A>,
        runs_after: DiagnosticRuns<A>,
        alive: bool,
        source_sequence: u64,
        subscriber_local: bool,
        dropped: nat,
    ) -> bool {
        let context = runs@[self.run as int].context;
        let context_after = runs_after@[self.run as int].context;
        if dropped == 0 || !alive {
            after == self && runs_after@ == runs@
        } else {
            &&& after == ActSinkSubscriber {
                dropped: saturated(self.dropped as nat, dropped, u64::MAX as nat) as u64,
                ..self
            }
            &&& if subscriber_local {
                runs_after@ == runs@
            } else {
                &&& context_after.reports(
                    context,
                    self.drop_event(after.dropped, source_sequence).alone(),
                )
                &&& runs_after.stepped(
                    runs,
                    self.run,
                    Some(self.owner),
                    RuntimeProducerError::refused(context_after.refusal_since(context)),
                )
            }
        }
    }

    pub fn record_drops<A: SpanEventAdmission>(
        &mut self,
        runs: &mut DiagnosticRuns<A>,
        alive: bool,
        source_sequence: u64,
        subscriber_local: bool,
        outcome: &AdmissionOutcome,
    )
        requires
            old(self).fits(*old(runs)),
        ensures
            final(self).fits(*final(runs)),
            final(runs)@.len() == old(runs)@.len(),
            old(self).on_drops(
                *final(self),
                *old(runs),
                *final(runs),
                alive,
                source_sequence,
                subscriber_local,
                outcome.spec_dropped() as nat,
            ),
    {
        let dropped = dropped_events(outcome);
        if dropped == 0 || !alive {
            return;
        }
        self.dropped = self.dropped.saturating_add(dropped as u64);
        if subscriber_local {
            return;
        }
        let reply = runs.runs[self.run].context.emit_counter_without_act_subscriber(
            self.act_scope.clone(),
            CounterKind::DiagnosticDroppedEvents,
            self.dropped,
            follows_from(source_sequence),
        );
        if let Err(error) = reply {
            runs.runs[self.owner].latch_diagnostic_failure(error);
        }
    }

    /// An event could not be handed to the sink: the first such failure is reported.
    #[verifier::opaque]
    pub open spec fn on_undelivered<A: SpanEventAdmission>(
        self,
        after: Self,
        runs: DiagnosticRuns<A>,
        runs_after: DiagnosticRuns<A>,
        alive: bool,
        sequence: u64,
    ) -> bool {
        &&& self.failure_facts.on_report(
            after.failure_facts,
            runs,
            runs_after,
            alive,
            ComponentFailureStage::Enqueue,
            ComponentFailureErrorCode::DeliveryQueueUnavailable,
            Some(sequence),
        )
        &&& after == ActSinkSubscriber { failure_facts: after.failure_facts, ..self }
    }

    fn report_enqueue<A: SpanEventAdmission>(
        &mut self,
        runs: &mut DiagnosticRuns<A>,
        alive: bool,
        sequence: u64,
    )
        requires
            old(self).fits(*old(runs)),
        ensures
            final(self).fits(*final(runs)),
            final(runs)@.len() == old(runs)@.len(),
            old(self).on_undelivered(*final(self), *old(runs), *final(runs), alive, sequence),
    {
        reveal(ActSinkSubscriber::on_undelivered);
        self.failure_facts.report(
            runs,
            alive,
            ComponentFailureStage::Enqueue,
            ComponentFailureErrorCode::DeliveryQueueUnavailable,
            Some(sequence),
        );
    }

    /// The number of events that were dropped for one that the sink took. A report of dropped
    /// events is not followed by another.
    pub open spec fn dropped_for(
        canonical: AcceptedDiagnosticEvent,
        admission: AdmissionOutcome,
    ) -> nat {
        if counts_drops(canonical) {
            0
        } else {
            admission.spec_dropped() as nat
        }
    }

    /// Drops were recorded, and then the settlement failed.
    pub open spec fn on_unsettled<A: SpanEventAdmission>(
        self,
        after: Self,
        runs: DiagnosticRuns<A>,
        runs_after: DiagnosticRuns<A>,
        canonical: AcceptedDiagnosticEvent,
        admission: AdmissionOutcome,
        code: &'static str,
    ) -> bool {
        exists|middle: DiagnosticRuns<A>| #[trigger]
            self.on_drops(
                after,
                runs,
                middle,
                true,
                canonical.sequence,
                canonical.subscriber_local,
                ActSinkSubscriber::dropped_for(canonical, admission),
            ) && runs_after@ == DiagnosticRuns::latched_at(
                middle@,
                Some(self.owner),
                Some(RuntimeProducerError::State { code }),
            )
    }

    /// What came of an event that the sink took. `told` holds the calls that followed.
    #[verifier::opaque]
    pub open spec fn on_taken<A: SpanEventAdmission>(
        self,
        after: Self,
        runs: DiagnosticRuns<A>,
        runs_after: DiagnosticRuns<A>,
        alive: bool,
        canonical: AcceptedDiagnosticEvent,
        admission: AdmissionOutcome,
        told: Seq<SinkCall>,
        result: Result<(), &'static str>,
    ) -> bool {
        let terminal = spec_act_outcome(canonical) is Some;
        let kept = ActSinkSubscriber {
            terminal_enqueued: self.terminal_enqueued || terminal,
            ..self
        };
        if terminal && alive {
            &&& told.len() == 1
            &&& told[0] matches SinkCall::Settle { outcome, settled }
            &&& outcome == spec_act_outcome(canonical)->0
            &&& match settled {
                Ok(_) => {
                    &&& result == Ok::<(), &'static str>(())
                    &&& kept.on_drops(
                        after,
                        runs,
                        runs_after,
                        alive,
                        canonical.sequence,
                        canonical.subscriber_local,
                        ActSinkSubscriber::dropped_for(canonical, admission),
                    )
                },
                Err(code) => {
                    &&& result == Err::<(), &'static str>("sink_settlement_failed")
                    &&& kept.on_unsettled(after, runs, runs_after, canonical, admission, code)
                },
            }
        } else {
            &&& told.len() == 0
            &&& result == if terminal {
                Err::<(), &'static str>("sink_settlement_failed")
            } else {
                Ok::<(), &'static str>(())
            }
            &&& kept.on_drops(
                after,
                runs,
                runs_after,
                alive,
                canonical.sequence,
                canonical.subscriber_local,
                ActSinkSubscriber::dropped_for(canonical, admission),
            )
        }
    }

    fn take_outcome<A: SpanEventAdmission, S: SinkQueue>(
        &mut self,
        runs: &mut DiagnosticRuns<A>,
        sink: &mut RecordedSink<S>,
        alive: bool,
        canonical: &AcceptedDiagnosticEvent,
        admission: AdmissionOutcome,
    ) -> (result: Result<(), &'static str>)
        requires
            old(self).fits(*old(runs)),
        ensures
            final(self).fits(*final(runs)),
            final(runs)@.len() == old(runs)@.len(),
            final(sink).calls().len() >= old(sink).calls().len(),
            final(sink).calls().take(old(sink).calls().len() as int) =~= old(sink).calls(),
            old(self).on_taken(
                *final(self),
                *old(runs),
                *final(runs),
                alive,
                *canonical,
                admission,
                final(sink).calls().skip(old(sink).calls().len() as int),
                result,
            ),
    {
        reveal(ActSinkSubscriber::on_taken);
        let act_outcome = act_outcome(canonical);
        if act_outcome.is_some() {
            self.terminal_enqueued = true;
        }
        let ghost kept = *self;
        let is_drop_counter = match &canonical.event.body {
            EventBody::CounterSampled { kind, .. } => *kind == CounterKind::DiagnosticDroppedEvents,
            _ => false,
        };
        if !is_drop_counter {
            self.record_drops(
                runs,
                alive,
                canonical.sequence,
                canonical.subscriber_local,
                &admission,
            );
        }
        let ghost middle = *runs;
        assert(kept.on_drops(
            *self,
            *old(runs),
            middle,
            alive,
            canonical.sequence,
            canonical.subscriber_local,
            ActSinkSubscriber::dropped_for(*canonical, admission),
        ));
        match act_outcome {
            None => Ok(()),
            Some(outcome) => {
                if !alive {
                    return Err("sink_settlement_failed");
                }
                match sink.settle(outcome) {
                    Err(code) => {
                        runs.runs[self.owner].latch_state_failure(code);
                        assert(kept.on_unsettled(
                            *self,
                            *old(runs),
                            *runs,
                            *canonical,
                            admission,
                            code,
                        ));
                        Err("sink_settlement_failed")
                    },
                    Ok(_) => Ok(()),
                }
            },
        }
    }

    /// What came of a value that was made for the sink: it is put into the queue. `told` holds the
    /// calls since.
    #[verifier::opaque]
    pub open spec fn on_made<A: SpanEventAdmission>(
        self,
        after: Self,
        runs: DiagnosticRuns<A>,
        runs_after: DiagnosticRuns<A>,
        alive: bool,
        canonical: AcceptedDiagnosticEvent,
        sidecar_bytes: usize,
        told: Seq<SinkCall>,
        result: Result<(), &'static str>,
    ) -> bool {
        &&& told.len() > 0
        &&& told[0] matches SinkCall::Enqueue {
            terminal,
            structural,
            sequence,
            kind,
            encoded_bytes,
            admission,
        }
        &&& terminal == (spec_act_outcome(canonical) is Some)
        &&& structural == (!terminal && counts_drops(canonical))
        &&& sequence == canonical.sequence
        &&& kind == canonical.event.body.spec_kind()
        &&& encoded_bytes == saturated(
            canonical.canonical_bytes@.len(),
            sidecar_bytes as nat,
            usize::MAX as nat,
        )
        &&& match admission {
            None => {
                &&& told.len() == 1
                &&& result == Err::<(), &'static str>("sink_delivery_failed")
                &&& self.on_undelivered(after, runs, runs_after, alive, canonical.sequence)
            },
            Some(admission) => self.on_taken(
                after,
                runs,
                runs_after,
                alive,
                canonical,
                admission,
                told.skip(1),
                result,
            ),
        }
    }

    fn put<A: SpanEventAdmission, S: SinkQueue>(
        &mut self,
        runs: &mut DiagnosticRuns<A>,
        sink: &mut RecordedSink<S>,
        alive: bool,
        canonical: &AcceptedDiagnosticEvent,
        sidecar_bytes: usize,
    ) -> (result: Result<(), &'static str>)
        requires
            old(self).fits(*old(runs)),
        ensures
            final(self).fits(*final(runs)),
            final(runs)@.len() == old(runs)@.len(),
            final(sink).calls().len() >= old(sink).calls().len(),
            final(sink).calls().take(old(sink).calls().len() as int) =~= old(sink).calls(),
            old(self).on_made(
                *final(self),
                *old(runs),
                *final(runs),
                alive,
                *canonical,
                sidecar_bytes,
                final(sink).calls().skip(old(sink).calls().len() as int),
                result,
            ),
    {
        reveal(ActSinkSubscriber::on_made);
        let ghost before = sink.calls();
        let encoded_bytes: usize = canonical.canonical_bytes.len().saturating_add(sidecar_bytes);
        let is_drop_counter = match &canonical.event.body {
            EventBody::CounterSampled { kind, .. } => *kind == CounterKind::DiagnosticDroppedEvents,
            _ => false,
        };
        let terminal = act_outcome(canonical).is_some();
        match sink.enqueue(
            terminal,
            is_drop_counter,
            canonical.sequence,
            canonical.event.body.kind(),
            encoded_bytes,
        ) {
            None => {
                self.report_enqueue(runs, alive, canonical.sequence);
                Err("sink_delivery_failed")
            },
            Some(admission) => {
                let ghost queued = sink.calls();
                let result = self.take_outcome(runs, sink, alive, canonical, admission);
                proof {
                    told_next(before, queued.last(), sink.calls());
                }
                result
            },
        }
    }

    /// What came of an event that is for the sink. `told` holds the calls of its queue: it hears
    /// of gaps and cut payloads, then the value is made, then it is put into the queue.
    pub open spec fn on_dispatch<A: SpanEventAdmission>(
        self,
        after: Self,
        runs: DiagnosticRuns<A>,
        runs_after: DiagnosticRuns<A>,
        alive: bool,
        projected: SinkProjectedEvent,
        told: Seq<SinkCall>,
        result: Result<(), &'static str>,
    ) -> bool {
        let noted = notes(spec_gaps(projected), spec_truncated(projected));
        let place = noted.len() as int;
        &&& told.len() > place
        &&& told.take(place) =~= noted
        &&& told[place] is Materialize
        &&& told[place]->projected == projected
        &&& match told[place]->sidecar_bytes {
            None => {
                &&& told.len() == place + 1
                &&& result == Err::<(), &'static str>("sink_delivery_failed")
                &&& self.on_undelivered(
                    after,
                    runs,
                    runs_after,
                    alive,
                    projected.canonical.sequence,
                )
            },
            Some(sidecar_bytes) => self.on_made(
                after,
                runs,
                runs_after,
                alive,
                *projected.canonical,
                sidecar_bytes,
                told.skip(place + 1),
                result,
            ),
        }
    }

    fn dispatch<A: SpanEventAdmission, S: SinkQueue>(
        &mut self,
        runs: &mut DiagnosticRuns<A>,
        sink: &mut RecordedSink<S>,
        alive: bool,
        projected: SinkProjectedEvent,
    ) -> (result: Result<(), &'static str>)
        requires
            old(self).fits(*old(runs)),
        ensures
            final(self).fits(*final(runs)),
            final(runs)@.len() == old(runs)@.len(),
            final(sink).calls().len() >= old(sink).calls().len(),
            final(sink).calls().take(old(sink).calls().len() as int) =~= old(sink).calls(),
            old(self).on_dispatch(
                *final(self),
                *old(runs),
                *final(runs),
                alive,
                projected,
                final(sink).calls().skip(old(sink).calls().len() as int),
                result,
            ),
    {
        let ghost before = sink.calls();
        let canonical = &*projected.canonical;
        let source_gaps: usize = match &canonical.event.body {
            EventBody::ObservationGap { .. } => 1,
            _ => 0,
        };
        let mut truncated_payloads: usize = 0;
        if let Some(input) = &projected.captured_input {
            if input.truncated {
                truncated_payloads = truncated_payloads + 1;
            }
        }
        if let Some(output) = &projected.captured_output {
            if output.truncated {
                truncated_payloads = truncated_payloads + 1;
            }
        }
        sink.note(source_gaps, truncated_payloads);
        let ghost noted = notes(source_gaps, truncated_payloads);
        match sink.materialize(&projected) {
            None => {
                self.report_enqueue(runs, alive, canonical.sequence);
                proof {
                    told_in_order(before, noted, sink.calls().last(), sink.calls());
                }
                Err("sink_delivery_failed")
            },
            Some(sidecar_bytes) => {
                let ghost made = sink.calls().last();
                let result = self.put(runs, sink, alive, canonical, sidecar_bytes);
                proof {
                    told_in_order(before, noted, made, sink.calls());
                }
                result
            },
        }
    }

    /// The payload that is kept for an event, if any.
    pub open spec fn pending_payload(self, event: EventCandidate) -> Option<
        PreparedSinkToolPayload,
    > {
        match pending_from(self.pending@, event, 0) {
            Some(place) => Some(self.pending@[place]),
            None => None,
        }
    }

    /// The subscriber after the payload of an event was taken out.
    pub open spec fn took_payload(self, after: Self, event: EventCandidate) -> bool {
        &&& after == ActSinkSubscriber { pending: after.pending, ..self }
        &&& after.pending@ == match pending_from(self.pending@, event, 0) {
            Some(place) => self.pending@.remove(place),
            None => self.pending@,
        }
    }

    /// What came of an event: one that is not for the sink goes no further.
    pub open spec fn on_delivery<A: SpanEventAdmission>(
        self,
        after: Self,
        runs: DiagnosticRuns<A>,
        runs_after: DiagnosticRuns<A>,
        alive: bool,
        canonical: AcceptedDiagnosticEvent,
        told: Seq<SinkCall>,
        result: Result<(), &'static str>,
    ) -> bool {
        if crate::sink_projection::projects(canonical, self.act_scope, self.capture) {
            self.on_selected(after, runs, runs_after, alive, canonical, told, result)
        } else {
            &&& result == Ok::<(), &'static str>(())
            &&& told.len() == 0
            &&& runs_after@ == runs@
            &&& self.took_payload(after, canonical.event)
        }
    }

    /// What came of an event that is for the sink, with its payload.
    pub open spec fn on_selected<A: SpanEventAdmission>(
        self,
        after: Self,
        runs: DiagnosticRuns<A>,
        runs_after: DiagnosticRuns<A>,
        alive: bool,
        canonical: AcceptedDiagnosticEvent,
        told: Seq<SinkCall>,
        result: Result<(), &'static str>,
    ) -> bool {
        exists|taken: Self|
            self.took_payload(taken, canonical.event) && #[trigger] taken.on_dispatch(
                after,
                runs,
                runs_after,
                alive,
                self.projection(canonical),
                told,
                result,
            )
    }

    /// What the sink is handed of an event that is for it.
    pub open spec fn projection(self, canonical: AcceptedDiagnosticEvent) -> SinkProjectedEvent {
        SinkProjectedEvent {
            canonical: Arc::new(canonical),
            captured_input: crate::sink_projection::captures_input(
                canonical.event,
                self.capture,
                self.pending_payload(canonical.event),
            ),
            captured_output: crate::sink_projection::captures_output(
                canonical.event,
                self.capture,
                self.pending_payload(canonical.event),
            ),
        }
    }

    /// Hands an event to the sink, where it is for it. `alive` says that the capability of the
    /// sink is still there.
    pub fn deliver_projected<A: SpanEventAdmission, S: SinkQueue>(
        &mut self,
        runs: &mut DiagnosticRuns<A>,
        sink: &mut RecordedSink<S>,
        alive: bool,
        canonical: &Arc<AcceptedDiagnosticEvent>,
    ) -> (result: Result<(), &'static str>)
        requires
            old(self).fits(*old(runs)),
        ensures
            final(self).fits(*final(runs)),
            final(runs)@.len() == old(runs)@.len(),
            final(sink).calls().len() >= old(sink).calls().len(),
            final(sink).calls().take(old(sink).calls().len() as int) =~= old(sink).calls(),
            old(self).on_delivery(
                *final(self),
                *old(runs),
                *final(runs),
                alive,
                **canonical,
                final(sink).calls().skip(old(sink).calls().len() as int),
                result,
            ),
    {
        let payload = self.take_payload(&canonical.event);
        let ghost taken = *self;
        assert(old(self).took_payload(taken, canonical.event));
        let handed = match &payload {
            Some(payload) => Some(payload),
            None => None,
        };
        assert(crate::sink_projection::held(handed) == old(self).pending_payload(canonical.event));
        match project_act_event(canonical, &self.act_scope, self.capture, handed) {
            None => {
                assert(sink.calls().take(sink.calls().len() as int) =~= sink.calls());
                Ok(())
            },
            Some(projected) => {
                assert(projected == old(self).projection(**canonical));
                let result = self.dispatch(runs, sink, alive, projected);
                assert(taken.on_dispatch(
                    *self,
                    *old(runs),
                    *runs,
                    alive,
                    old(self).projection(**canonical),
                    sink.calls().skip(old(sink).calls().len() as int),
                    result,
                ));
                result
            },
        }
    }

    /// Hears of an event of the act. The authority of the act, where there is one, hears of it
    /// first.
    pub fn deliver<A: SpanEventAdmission, S: SinkQueue>(
        &mut self,
        authority: &mut Option<ActAuthority>,
        runs: &mut DiagnosticRuns<A>,
        sink: &mut RecordedSink<S>,
        alive: bool,
        canonical: &Arc<AcceptedDiagnosticEvent>,
    ) -> (result: Result<(), &'static str>)
        requires
            old(self).fits(*old(runs)),
            *old(authority) matches Some(authority) ==> authority.runtime < old(runs)@.len(),
        ensures
            final(self).fits(*final(runs)),
            final(runs)@.len() == old(runs)@.len(),
            final(sink).calls().len() >= old(sink).calls().len(),
            final(sink).calls().take(old(sink).calls().len() as int) =~= old(sink).calls(),
            *final(authority) == observed(*old(authority), **canonical),
            old(self).on_event(
                *final(self),
                *old(runs),
                *final(runs),
                observer(*old(authority), **canonical, alive),
                alive,
                **canonical,
                final(sink).calls().skip(old(sink).calls().len() as int),
                result,
            ),
    {
        let mut held: Option<ActAuthority> = None;
        std::mem::swap(&mut held, authority);
        if let Some(mut observing) = held {
            observing.observe(runs, alive, canonical);
            *authority = Some(observing);
        }
        let ghost heard = *runs;
        let result = self.deliver_projected(runs, sink, alive, canonical);
        assert(old(self).on_delivery(
            *self,
            heard,
            *runs,
            alive,
            **canonical,
            sink.calls().skip(old(sink).calls().len() as int),
            result,
        ));
        result
    }

    /// What came of an event: an authority that is of another act latches a failure in its run,
    /// `observer`, and then the event is handed to the sink.
    pub open spec fn on_event<A: SpanEventAdmission>(
        self,
        after: Self,
        runs: DiagnosticRuns<A>,
        runs_after: DiagnosticRuns<A>,
        observer: Option<usize>,
        alive: bool,
        canonical: AcceptedDiagnosticEvent,
        told: Seq<SinkCall>,
        result: Result<(), &'static str>,
    ) -> bool {
        exists|heard: DiagnosticRuns<A>|
            heard@ == DiagnosticRuns::latched_at(
                runs@,
                observer,
                Some(
                    RuntimeProducerError::State {
                        code: "custom.act-authority-event-scope-mismatch",
                    },
                ),
            ) && #[trigger] self.on_delivery(
                after,
                heard,
                runs_after,
                alive,
                canonical,
                told,
                result,
            )
    }
}

/// The authority of an act after it has heard of an event: once its caller has ended, the caller
/// may not use it.
pub open spec fn observed(
    authority: Option<ActAuthority>,
    canonical: AcceptedDiagnosticEvent,
) -> Option<ActAuthority> {
    match authority {
        Some(authority) => if authority.is_of_act(canonical) && ActAuthority::ends_caller(
            canonical,
        ) {
            Some(
                ActAuthority {
                    phase: crate::custom_act_binding::AuthorityPhase {
                        caller_active: false,
                        ..authority.phase
                    },
                    ..authority
                },
            )
        } else {
            Some(authority)
        },
        None => None,
    }
}

/// The run that hears of an event of another act than that of the authority.
pub open spec fn observer(
    authority: Option<ActAuthority>,
    canonical: AcceptedDiagnosticEvent,
    alive: bool,
) -> Option<usize> {
    match authority {
        Some(authority) => if alive && !authority.is_of_act(canonical) {
            Some(authority.runtime)
        } else {
            None
        },
        None => None,
    }
}

/// Answers to settlements, in order.
pub type SettlementLog = Seq<Result<(), &'static str>>;

/// Who settles an act that has no sink. Nothing is promised of what it answers, only that it knows
/// its answers.
pub trait AuthoritySettlement {
    /// Every answer so far.
    spec fn told(&self) -> SettlementLog;

    fn settle_authority_only(&mut self) -> (answer: Result<(), &'static str>)
        ensures
            final(self).told() == old(self).told().push(answer),
    ;
}

/// Settles an act that has no sink, once.
pub struct RecordedSettlement<C> {
    pub coordinator: C,
}

impl<C: AuthoritySettlement> RecordedSettlement<C> {
    pub fn new(coordinator: C) -> (settlement: Self)
        ensures
            settlement.coordinator == coordinator,
    {
        RecordedSettlement { coordinator }
    }

    /// What was answered so far.
    pub open spec fn answers(self) -> Seq<Result<(), &'static str>> {
        self.coordinator.told()
    }

    fn settle(&mut self) -> (answer: Result<(), &'static str>)
        ensures
            final(self).answers() == old(self).answers().push(answer),
    {
        self.coordinator.settle_authority_only()
    }
}

/// An act without a sink, whose authority is retired when it ends. `owner` is the run that hears
/// of failures.
#[derive(Debug, PartialEq, Eq)]
pub struct AuthorityOnlySubscriber {
    pub owner: usize,
    pub act_id: RunLocalId,
}

impl AuthorityOnlySubscriber {
    /// An event is the end of an act.
    pub open spec fn ends_act(canonical: AcceptedDiagnosticEvent) -> bool {
        &&& canonical.event.body is SpanFinished
        &&& canonical.built_in_span_kind == Some(SpanKind::ActLifecycle)
    }

    /// The entry of the act goes with its authority.
    pub open spec fn retires(self, registry: ActSinkRegistry, authority: ActAuthority) -> bool {
        registry.spec_entry(self.act_id@) == Some(
            ActSubscriber::Authority { generation: authority.generation },
        )
    }

    /// The failure that the end of an act leaves.
    pub open spec fn failure(
        self,
        registry: ActSinkRegistry,
        authority: ActAuthority,
        answer: Result<(), &'static str>,
    ) -> Option<RuntimeProducerError> {
        match answer {
            Err(code) => Some(RuntimeProducerError::State { code }),
            Ok(_) => if self.retires(registry, authority) {
                None
            } else {
                Some(RuntimeProducerError::State { code: "act.authority-retire-missing" })
            },
        }
    }

    /// Hears of an event of the act. At its end the act is settled, and its entry is retired.
    pub fn deliver<A: SpanEventAdmission, C: AuthoritySettlement>(
        &self,
        authority: &mut ActAuthority,
        registry: &mut ActSinkRegistry,
        runs: &mut DiagnosticRuns<A>,
        settlement: &mut RecordedSettlement<C>,
        alive: bool,
        canonical: &AcceptedDiagnosticEvent,
    ) -> (result: Result<(), &'static str>)
        requires
            self.owner < old(runs)@.len(),
            old(authority).runtime < old(runs)@.len(),
            old(registry).wf(),
        ensures
            final(registry).wf(),
            Some(*final(authority)) == observed(Some(*old(authority)), *canonical),
            if !AuthorityOnlySubscriber::ends_act(*canonical) || !alive {
                &&& final(settlement).answers() == old(settlement).answers()
                &&& *final(registry) == *old(registry)
                &&& result == if AuthorityOnlySubscriber::ends_act(*canonical) {
                    Err::<(), &'static str>("sink_settlement_failed")
                } else {
                    Ok::<(), &'static str>(())
                }
                &&& final(runs)@ == DiagnosticRuns::latched_at(
                    old(runs)@,
                    observer(Some(*old(authority)), *canonical, alive),
                    Some(
                        RuntimeProducerError::State {
                            code: "custom.act-authority-event-scope-mismatch",
                        },
                    ),
                )
            } else {
                let answer = final(settlement).answers().last();
                &&& final(settlement).answers() == old(settlement).answers().push(answer)
                &&& old(registry).keeps_others(*final(registry), self.act_id@)
                &&& final(registry).spec_entry(self.act_id@) == if answer is Ok && self.retires(
                    *old(registry),
                    *old(authority),
                ) {
                    None
                } else {
                    old(registry).spec_entry(self.act_id@)
                }
                &&& result == if self.failure(
                    *old(registry),
                    *old(authority),
                    answer,
                ) is Some {
                    Err::<(), &'static str>("sink_settlement_failed")
                } else {
                    Ok::<(), &'static str>(())
                }
                &&& final(runs)@ == DiagnosticRuns::latched_at(
                    DiagnosticRuns::latched_at(
                        old(runs)@,
                        observer(Some(*old(authority)), *canonical, alive),
                        Some(
                            RuntimeProducerError::State {
                                code: "custom.act-authority-event-scope-mismatch",
                            },
                        ),
                    ),
                    Some(self.owner),
                    self.failure(*old(registry), *old(authority), answer),
                )
            },
    {
        authority.observe(runs, alive, canonical);
        let finished = match &canonical.event.body {
            EventBody::SpanFinished { .. } => true,
            _ => false,
        };
        if !finished || canonical.built_in_span_kind != Some(SpanKind::ActLifecycle) {
            return Ok(());
        }
        if !alive {
            return Err("sink_settlement_failed");
        }
        if let Err(code) = settlement.settle() {
            runs.runs[self.owner].latch_state_failure(code);
            return Err("sink_settlement_failed");
        }
        if !registry.retire_authority_expected(self.act_id.as_str(), authority.generation()) {
            runs.runs[self.owner].latch_state_failure("act.authority-retire-missing");
            return Err("sink_settlement_failed");
        }
        Ok(())
    }
}

/// The count of dropped events of a sink only grows.
pub proof fn drops_only_grow<A: SpanEventAdmission>(
    subscriber: ActSinkSubscriber,
    after: ActSinkSubscriber,
    runs: DiagnosticRuns<A>,
    runs_after: DiagnosticRuns<A>,
    alive: bool,
    source_sequence: u64,
    subscriber_local: bool,
    dropped: nat,
)
    requires
        subscriber.on_drops(
            after,
            runs,
            runs_after,
            alive,
            source_sequence,
            subscriber_local,
            dropped,
        ),
    ensures
        after.dropped >= subscriber.dropped,
        alive && dropped > 0 && subscriber.dropped + dropped <= u64::MAX ==> after.dropped
            == subscriber.dropped + dropped,
{
}

/// A failed delivery is reported once for each sink.
pub proof fn failed_delivery_is_told_once<A: SpanEventAdmission>(
    emitter: DeliveryFactEmitter,
    after: DeliveryFactEmitter,
    runs: DiagnosticRuns<A>,
    runs_after: DiagnosticRuns<A>,
    alive: bool,
    stage: ComponentFailureStage,
    error_code: ComponentFailureErrorCode,
    related: Option<u64>,
)
    requires
        emitter.on_report(after, runs, runs_after, alive, stage, error_code, related),
    ensures
        after.emitted,
        emitter.emitted ==> runs_after@ == runs@,
{
}

/// A call of the runtime that sinks run in, with what was answered.
pub enum SinkRuntimeCall {
    /// A sink was told that the runtime shuts down.
    Begin { sink_id: u64, begun: Result<(), ActSettlementError> },
    /// The runtime was shut down.
    Shutdown,
    /// A sink was to publish what it has latched.
    Summary { sink_id: u64, published: Result<(), ActSettlementError> },
}

/// Calls of the runtime that sinks run in, in order.
pub type SinkRuntimeLog = Seq<SinkRuntimeCall>;

/// The runtime that sinks run in. Nothing is promised of what it answers, only that it is known what
/// was asked of it.
pub trait SinkRuntime {
    /// Every call so far.
    spec fn told(&self) -> SinkRuntimeLog;

    fn begin_runtime_shutdown(&mut self, sink_id: u64) -> (begun: Result<(), ActSettlementError>)
        ensures
            final(self).told() == old(self).told().push(SinkRuntimeCall::Begin { sink_id, begun }),
    ;

    /// Shuts the runtime down, and waits a while for it.
    fn shutdown(&mut self)
        ensures
            final(self).told() == old(self).told().push(SinkRuntimeCall::Shutdown),
    ;

    fn publish_latched_summary(&mut self, sink_id: u64) -> (published: Result<
        (),
        ActSettlementError,
    >)
        ensures
            final(self).told() == old(self).told().push(
                SinkRuntimeCall::Summary { sink_id, published },
            ),
    ;
}

impl SinkRuntimeCall {
    /// The failure that an answer tells of.
    pub open spec fn failure(self) -> Option<RuntimeProducerError> {
        match self {
            SinkRuntimeCall::Begin { begun: Err(error), .. } => Some(
                RuntimeProducerError::State { code: error.code },
            ),
            SinkRuntimeCall::Summary { published: Err(error), .. } => Some(
                RuntimeProducerError::State { code: error.code },
            ),
            _ => None,
        }
    }

    /// The first failure that the answers tell of.
    pub open spec fn first_failure(calls: Seq<SinkRuntimeCall>) -> Option<RuntimeProducerError>
        decreases calls.len(),
    {
        if calls.len() == 0 {
            None
        } else {
            match SinkRuntimeCall::first_failure(calls.drop_last()) {
                Some(failure) => Some(failure),
                None => calls.last().failure(),
            }
        }
    }

    /// Every sink was told, then the runtime was shut down, then every sink was to publish what it
    /// has latched.
    pub open spec fn retire(calls: Seq<SinkRuntimeCall>, sinks: Seq<u64>) -> bool {
        let count = sinks.len() as int;
        &&& calls.len() == 2 * count + 1
        &&& forall|i: int|
            0 <= i < count ==> ((#[trigger] calls[i]) matches SinkRuntimeCall::Begin {
                sink_id,
                ..
            } && sink_id == sinks[i])
        &&& calls[count] == SinkRuntimeCall::Shutdown
        &&& forall|i: int|
            count < i <= 2 * count ==> ((#[trigger] calls[i]) matches SinkRuntimeCall::Summary {
                sink_id,
                ..
            } && sink_id == sinks[i - count - 1])
    }

    proof fn one_more(calls: Seq<SinkRuntimeCall>, last: SinkRuntimeCall)
        ensures
            SinkRuntimeCall::first_failure(calls.push(last))
                == match SinkRuntimeCall::first_failure(calls) {
                Some(failure) => Some(failure),
                None => last.failure(),
            },
    {
        assert(calls.push(last).drop_last() =~= calls);
    }
}

/// Keeps the first failure.
fn note_failure(first: &mut Option<RuntimeProducerError>, answer: Result<(), ActSettlementError>)
    ensures
        *final(first) == match (*old(first), answer) {
            (None, Err(error)) => Some(RuntimeProducerError::State { code: error.code }),
            (first, _) => first,
        },
{
    if first.is_none() {
        if let Err(error) = answer {
            *first = Some(RuntimeProducerError::state(error.code));
        }
    }
}

impl ActSinkAdmissionCapability {
    /// What came of the end of a capability: its sinks go with the runtime that they run in, and the
    /// first failure is latched in the run of its owner.
    pub open spec fn on_retired<A: SpanEventAdmission>(
        self,
        runtimes: RuntimeProducerRegistry,
        runs: Seq<crate::run::DiagnosticRun<A>>,
        runs_after: Seq<crate::run::DiagnosticRun<A>>,
        calls: Seq<SinkRuntimeCall>,
    ) -> bool {
        &&& SinkRuntimeCall::retire(
            calls,
            ActSinkRegistry::sinks_among(self.registry@, self.registry@.len() as int),
        )
        &&& runs_after == DiagnosticRuns::latched_at(
            runs,
            self.owner.spec_run(runtimes),
            SinkRuntimeCall::first_failure(calls),
        )
    }

    /// The capability is gone. The runtime that its sinks run in is shut down.
    pub fn retire<A: SpanEventAdmission, R: SinkRuntime>(
        self,
        runtimes: &RuntimeProducerRegistry,
        runs: &mut DiagnosticRuns<A>,
        runtime: &mut R,
    )
        requires
            self.owner.spec_run(*runtimes) matches Some(run) ==> run < old(runs)@.len(),
        ensures
            final(runs)@.len() == old(runs)@.len(),
            final(runtime).told() =~= old(runtime).told() + final(runtime).told().skip(
                old(runtime).told().len() as int,
            ),
            self.on_retired(
                *runtimes,
                old(runs)@,
                final(runs)@,
                final(runtime).told().skip(old(runtime).told().len() as int),
            ),
    {
        let sinks = self.registry.bound_all();
        let ghost before = runtime.told();
        let ghost mut calls: Seq<SinkRuntimeCall> = Seq::empty();
        let mut first: Option<RuntimeProducerError> = None;
        assert(runtime.told() =~= before + calls);
        for i in 0..sinks.len()
            invariant
                before == old(runtime).told(),
                runtime.told() == before + calls,
                calls.len() == i,
                forall|k: int|
                    0 <= k < i ==> ((#[trigger] calls[k]) matches SinkRuntimeCall::Begin {
                        sink_id,
                        ..
                    } && sink_id == sinks@[k]),
                first == SinkRuntimeCall::first_failure(calls),
        {
            let begun = runtime.begin_runtime_shutdown(sinks[i]);
            proof {
                let last = SinkRuntimeCall::Begin { sink_id: sinks@[i as int], begun };
                SinkRuntimeCall::one_more(calls, last);
                assert(runtime.told() =~= before + calls.push(last));
                calls = calls.push(last);
            }
            note_failure(&mut first, begun);
        }
        runtime.shutdown();
        let ghost count = sinks@.len() as int;
        proof {
            SinkRuntimeCall::one_more(calls, SinkRuntimeCall::Shutdown);
            assert(runtime.told() =~= before + calls.push(SinkRuntimeCall::Shutdown));
            calls = calls.push(SinkRuntimeCall::Shutdown);
        }
        for i in 0..sinks.len()
            invariant
                before == old(runtime).told(),
                runtime.told() == before + calls,
                count == sinks@.len(),
                calls.len() == count + 1 + i,
                forall|k: int|
                    0 <= k < count ==> ((#[trigger] calls[k]) matches SinkRuntimeCall::Begin {
                        sink_id,
                        ..
                    } && sink_id == sinks@[k]),
                calls[count] == SinkRuntimeCall::Shutdown,
                forall|k: int|
                    count < k <= count + i ==> ((
                    #[trigger] calls[k]) matches SinkRuntimeCall::Summary { sink_id, .. }
                        && sink_id == sinks@[k - count - 1]),
                first == SinkRuntimeCall::first_failure(calls),
        {
            let published = runtime.publish_latched_summary(sinks[i]);
            proof {
                let last = SinkRuntimeCall::Summary { sink_id: sinks@[i as int], published };
                SinkRuntimeCall::one_more(calls, last);
                assert(runtime.told() =~= before + calls.push(last));
                calls = calls.push(last);
            }
            note_failure(&mut first, published);
        }
        assert(runtime.told().skip(before.len() as int) =~= calls);
        runs.latch_at(self.owner.run(runtimes), first);
    }
}

/// The act of a sink ends as its span did, and with nothing else: completed, cancelled or failed as
/// that span.
pub proof fn act_outcome_is_that_of_its_span(canonical: AcceptedDiagnosticEvent)
    ensures
        ({
            let outcome = spec_act_outcome(canonical);
            &&& outcome is Some <==> canonical.event.body is SpanFinished
                && canonical.built_in_span_kind is Some && canonical.built_in_span_kind->0
                is ActLifecycle
            &&& outcome is Some ==> (canonical.event.body matches EventBody::SpanFinished {
                outcome: told,
                ..
            } && {
                &&& outcome->0 is Completed <==> told is Completed
                &&& outcome->0 is Cancelled <==> told is Cancelled
                &&& outcome->0 is Failed <==> told is Failed
            })
        }),
{
}

/// What an admission dropped is all that it says: what it evicted or dropped, in sum, as far as a
/// count can go.
pub proof fn drops_are_counted_in_sum(
    evicted: Vec<usize>,
    longer: Vec<usize>,
    count: usize,
)
    requires
        longer@ == evicted@.push(count),
    ensures
        (AdmissionOutcome::Dropped { events: count }).spec_dropped() == count,
        evicted@.len() == 0 ==> (AdmissionOutcome::Enqueued { evicted }).spec_dropped() == 0,
        (AdmissionOutcome::Enqueued { evicted }).spec_dropped() == (AdmissionOutcome::Terminalized {
            dropped: evicted,
        }).spec_dropped(),
        ({
            let sum = (AdmissionOutcome::Enqueued { evicted }).spec_dropped() + count;
            (AdmissionOutcome::Enqueued { evicted: longer }).spec_dropped() == if sum > usize::MAX {
                usize::MAX as int
            } else {
                sum
            }
        }),
{
    total_of_the_same(evicted@, longer@, evicted@.len() as int);
    total_is_not_negative(evicted@, evicted@.len() as int);
}

proof fn total_of_the_same(numbers: Seq<usize>, longer: Seq<usize>, count: int)
    requires
        0 <= count <= numbers.len() <= longer.len(),
        forall|i: int| 0 <= i < numbers.len() ==> numbers[i] == longer[i],
    ensures
        total(numbers, count) == total(longer, count),
    decreases count,
{
    if count > 0 {
        total_of_the_same(numbers, longer, count - 1);
    }
}

proof fn total_is_not_negative(numbers: Seq<usize>, count: int)
    requires
        0 <= count <= numbers.len(),
    ensures
        total(numbers, count) >= 0,
    decreases count,
{
    if count > 0 {
        total_is_not_negative(numbers, count - 1);
    }
}

/// Drops are told of the act, as what the count has come to, after the event that caused them, and
/// not to the sinks themselves. What is heard by the sink alone is counted and not told; where the
/// sink is gone or nothing was dropped, neither.
pub proof fn drops_are_told_as_they_add_up<A: SpanEventAdmission>(
    subscriber: ActSinkSubscriber,
    after: ActSinkSubscriber,
    runs: DiagnosticRuns<A>,
    runs_after: DiagnosticRuns<A>,
    alive: bool,
    source_sequence: u64,
    subscriber_local: bool,
    dropped: nat,
)
    requires
        subscriber.fits(runs),
        subscriber.on_drops(
            after,
            runs,
            runs_after,
            alive,
            source_sequence,
            subscriber_local,
            dropped,
        ),
    ensures
        ({
            let facts = runs_after@[subscriber.run as int].context.steps_since(
                runs@[subscriber.run as int].context,
            );
            let counted = alive && dropped > 0;
            let sum = subscriber.dropped + dropped;
            &&& after.dropped == if !counted {
                subscriber.dropped as int
            } else if sum > u64::MAX {
                u64::MAX as int
            } else {
                sum
            }
            &&& facts.len() == if counted && !subscriber_local { 1int } else { 0int }
            &&& counted && !subscriber_local ==> {
                &&& facts[0].candidate.scope == subscriber.act_scope
                &&& facts[0].candidate.unheard
                &&& facts[0].candidate.cause == Some(
                    CausalLink {
                        sequence: source_sequence,
                        relation: crate::event::CausalRelation::FollowsFrom,
                    },
                )
                &&& facts[0].candidate.body == (EventBody::CounterSampled {
                    kind: CounterKind::DiagnosticDroppedEvents,
                    value: after.dropped,
                })
            }
            &&& after.pending == subscriber.pending
            &&& after.terminal_enqueued == subscriber.terminal_enqueued
        }),
{
    let context = runs@[subscriber.run as int].context;
    let context_after = runs_after@[subscriber.run as int].context;
    if alive && dropped > 0 && !subscriber_local {
        crate::references::lone_fact(
            context,
            context_after,
            subscriber.drop_event(after.dropped, source_sequence),
        );
    } else {
        assert(context_after.steps_since(context).len() == 0);
    }
}

/// A component that failed is told once, of the act, by its name, with the stage and the code of
/// its failure and the event that it failed in, and not to the sinks themselves.
pub proof fn failed_component_is_told_as_it_failed<A: SpanEventAdmission>(
    emitter: DeliveryFactEmitter,
    after: DeliveryFactEmitter,
    runs: DiagnosticRuns<A>,
    runs_after: DiagnosticRuns<A>,
    alive: bool,
    stage: ComponentFailureStage,
    error_code: ComponentFailureErrorCode,
    related: Option<u64>,
)
    requires
        emitter.run < runs@.len(),
        emitter.owner < runs@.len(),
        emitter.on_report(after, runs, runs_after, alive, stage, error_code, related),
    ensures
        ({
            let facts = runs_after@[emitter.run as int].context.steps_since(
                runs@[emitter.run as int].context,
            );
            &&& facts.len() == if alive && !emitter.emitted { 1int } else { 0int }
            &&& alive && !emitter.emitted ==> {
                &&& facts[0].candidate.scope == emitter.scope
                &&& facts[0].candidate.unheard
                &&& facts[0].candidate.cause is None
                &&& facts[0].candidate.body matches EventBody::InstantOccurred {
                    instant: InstantDetail::DiagnosticComponentFailed(told),
                    containing_span_id: None,
                } && {
                    &&& told.component_id == emitter.component_id
                    &&& told.stage == stage
                    &&& told.error_code == error_code
                    &&& told.related == related
                }
                &&& facts[0].reply is Err ==> runs_after@[emitter.owner as int].failure is Some
            }
        }),
{
    let context = runs@[emitter.run as int].context;
    let context_after = runs_after@[emitter.run as int].context;
    if alive && !emitter.emitted {
        crate::references::lone_fact(
            context,
            context_after,
            emitter.event(stage, error_code, related),
        );
    } else {
        assert(context_after.steps_since(context).len() == 0);
    }
}

/// What a sink's delivery failed with is told as that: what its callback raised or gave back as a
/// fault of the callback, with the event, and anything else as a queue that is not there, with
/// none.
pub proof fn delivery_failures_keep_their_names(failure: SinkDeliveryFailure)
    ensures
        ({
            let told = DeliveryFactEmitter::fault(failure);
            &&& failure matches SinkDeliveryFailure::CallbackRaised { event_sequence } ==> {
                &&& told.0 is Callback && told.1 is CallbackRaised
                &&& told.2 == Some(event_sequence)
            }
            &&& failure matches SinkDeliveryFailure::CallbackInvalidReturn { event_sequence } ==> {
                &&& told.0 is Callback && told.1 is CallbackInvalidReturn
                &&& told.2 == Some(event_sequence)
            }
            &&& failure is Unexpected ==> told.0 is Enqueue && told.1 is DeliveryQueueUnavailable
                && told.2 is None
        }),
{
}

/// An event that a sink does not receive asks nothing of its queue and tells nothing. One that it
/// receives is made for user code, once.
pub proof fn received_events_are_made_once<A: SpanEventAdmission>(
    subscriber: ActSinkSubscriber,
    after: ActSinkSubscriber,
    runs: DiagnosticRuns<A>,
    runs_after: DiagnosticRuns<A>,
    alive: bool,
    canonical: AcceptedDiagnosticEvent,
    told: Seq<SinkCall>,
    result: Result<(), &'static str>,
)
    requires
        subscriber.on_delivery(after, runs, runs_after, alive, canonical, told, result),
    ensures
        ({
            let received = crate::sink_projection::projects(
                canonical,
                subscriber.act_scope,
                subscriber.capture,
            );
            &&& !received ==> told.len() == 0 && result is Ok && runs_after@ == runs@
                && after.dropped == subscriber.dropped && after.terminal_enqueued
                == subscriber.terminal_enqueued
            &&& received ==> exists|place: int|
                0 <= place < told.len() && #[trigger] told[place] is Materialize
        }),
{
    if crate::sink_projection::projects(canonical, subscriber.act_scope, subscriber.capture) {
        let projected = subscriber.projection(canonical);
        let place = notes(spec_gaps(projected), spec_truncated(projected)).len() as int;
        assert(told[place] is Materialize);
    }
}

/// What is asked of the queue for an event that is received comes in order. Before the event is
/// made it is noted where something is missing, and where something of it was cut. It is made of
/// the event itself.
pub proof fn gaps_and_cuts_are_noted_first<A: SpanEventAdmission>(
    subscriber: ActSinkSubscriber,
    after: ActSinkSubscriber,
    runs: DiagnosticRuns<A>,
    runs_after: DiagnosticRuns<A>,
    alive: bool,
    canonical: AcceptedDiagnosticEvent,
    told: Seq<SinkCall>,
    result: Result<(), &'static str>,
    place: int,
)
    requires
        subscriber.on_delivery(after, runs, runs_after, alive, canonical, told, result),
        0 <= place < told.len(),
        told[place] is Materialize,
    ensures
        ({
            let made = told[place]->projected;
            let gap = canonical.event.body is ObservationGap;
            let of_input = made.captured_input is Some && made.captured_input->0.truncated;
            let of_output = made.captured_output is Some && made.captured_output->0.truncated;
            &&& *made.canonical == canonical
            &&& place == (if gap { 1int } else { 0int }) + (if of_input || of_output {
                1int
            } else {
                0int
            })
            &&& gap ==> told[0] == (SinkCall::SourceGaps { gaps: 1 })
            &&& of_input || of_output ==> told[place - 1] == (SinkCall::TruncatedPayloads {
                truncated: if of_input && of_output {
                    2
                } else {
                    1
                },
            })
            &&& told[place]->sidecar_bytes is None ==> told.len() == place + 1 && result is Err
            &&& told[place]->sidecar_bytes is Some ==> told.len() > place + 1 && told[place
                + 1] is Enqueue
        }),
{
    reveal(ActSinkSubscriber::on_made);
    let projected = subscriber.projection(canonical);
    let noted = notes(spec_gaps(projected), spec_truncated(projected));
    let made = noted.len() as int;
    let truncated = spec_truncated(projected);
    let of_gap = SinkCall::SourceGaps { gaps: 1 };
    let of_cut = SinkCall::TruncatedPayloads { truncated };
    if canonical.event.body is ObservationGap {
        if truncated != 0 {
            assert(noted =~= seq![of_gap, of_cut]);
            assert(noted[0] == of_gap && noted[1] == of_cut);
        } else {
            assert(noted =~= seq![of_gap]);
            assert(noted[0] == of_gap);
        }
    } else if truncated != 0 {
        assert(noted =~= seq![of_cut]);
        assert(noted[0] == of_cut);
    } else {
        assert(noted =~= Seq::empty());
    }
    let taken = choose|taken: ActSinkSubscriber|
        subscriber.took_payload(taken, canonical.event) && #[trigger] taken.on_dispatch(
            after,
            runs,
            runs_after,
            alive,
            projected,
            told,
            result,
        );
    assert(taken.on_dispatch(after, runs, runs_after, alive, projected, told, result));
    assert forall|i: int| 0 <= i < made implies told[i] == #[trigger] noted[i] by {
        assert(told.take(made)[i] == told[i]);
    }
    let rest = told.skip(made + 1);
    if place < made {
        assert(told[place] == noted[place]);
        assert(false);
    }
    if told[made]->sidecar_bytes is Some {
        assert(taken.on_made(
            after,
            runs,
            runs_after,
            alive,
            canonical,
            told[made]->sidecar_bytes->0,
            rest,
            result,
        ));
        assert(rest.len() > 0);
        assert(rest[0] == told[made + 1]);
        if place > made {
            assert(rest[place - made - 1] == told[place]);
            if place > made + 1 {
                taken_asks_settlement_only(
                    taken,
                    after,
                    runs,
                    runs_after,
                    alive,
                    canonical,
                    told[made]->sidecar_bytes->0,
                    rest,
                    result,
                );
            }
            assert(false);
        }
    }
    assert(place == made);
}

/// After an event was put into the queue, nothing but a settlement is asked.
proof fn taken_asks_settlement_only<A: SpanEventAdmission>(
    subscriber: ActSinkSubscriber,
    after: ActSinkSubscriber,
    runs: DiagnosticRuns<A>,
    runs_after: DiagnosticRuns<A>,
    alive: bool,
    canonical: AcceptedDiagnosticEvent,
    sidecar_bytes: usize,
    told: Seq<SinkCall>,
    result: Result<(), &'static str>,
)
    requires
        subscriber.on_made(
            after,
            runs,
            runs_after,
            alive,
            canonical,
            sidecar_bytes,
            told,
            result,
        ),
    ensures
        1 <= told.len() <= 2,
        told[0] is Enqueue,
        told.len() == 2 ==> told[1] is Settle,
{
    reveal(ActSinkSubscriber::on_made);
    reveal(ActSinkSubscriber::on_taken);
    reveal(ActSinkSubscriber::on_undelivered);
    let more = told.skip(1);
    if told[0]->admission is Some {
        assert(subscriber.on_taken(
            after,
            runs,
            runs_after,
            alive,
            canonical,
            told[0]->admission->0,
            more,
            result,
        ));
        assert(more.len() == told.len() - 1);
        if more.len() > 0 {
            assert(more[0] == told[1]);
        }
    }
}

/// An event that was made is put into the queue under its own number and kind, with the size of all
/// of it: as the last one exactly where it ends the act, past what may be dropped exactly where it
/// counts drops. After the last one the act is settled as it ended, while the run is there.
pub proof fn made_events_are_queued_as_they_are<A: SpanEventAdmission>(
    subscriber: ActSinkSubscriber,
    after: ActSinkSubscriber,
    runs: DiagnosticRuns<A>,
    runs_after: DiagnosticRuns<A>,
    alive: bool,
    canonical: AcceptedDiagnosticEvent,
    sidecar_bytes: usize,
    told: Seq<SinkCall>,
    result: Result<(), &'static str>,
)
    requires
        subscriber.on_made(
            after,
            runs,
            runs_after,
            alive,
            canonical,
            sidecar_bytes,
            told,
            result,
        ),
    ensures
        ({
            let ends = canonical.event.body is SpanFinished && canonical.built_in_span_kind == Some(
                SpanKind::ActLifecycle,
            );
            let counts = canonical.event.body is CounterSampled && canonical.event.body->kind
                is DiagnosticDroppedEvents;
            let size = canonical.canonical_bytes@.len() + sidecar_bytes;
            &&& told.len() >= 1 && told[0] is Enqueue
            &&& told[0]->terminal <==> ends
            &&& told[0]->structural <==> counts
            &&& told[0]->sequence == canonical.sequence
            &&& told[0]->encoded_bytes == if size > usize::MAX {
                usize::MAX as int
            } else {
                size as int
            }
            &&& told[0]->admission is None ==> told.len() == 1 && result is Err
                && after.failure_facts.emitted && after.terminal_enqueued
                == subscriber.terminal_enqueued
            &&& told[0]->admission is Some ==> {
                &&& after.terminal_enqueued <==> subscriber.terminal_enqueued || ends
                &&& told.len() == if ends && alive { 2int } else { 1int }
                &&& !ends ==> result is Ok
                &&& ends && !alive ==> result is Err
                &&& ends && alive ==> {
                    &&& told[1] is Settle
                    &&& told[1]->outcome is Completed <==> canonical.event.body->outcome
                        is Completed
                    &&& told[1]->outcome is Cancelled <==> canonical.event.body->outcome
                        is Cancelled
                    &&& told[1]->outcome is Failed <==> canonical.event.body->outcome is Failed
                    &&& result is Ok <==> told[1]->settled is Ok
                }
            }
        }),
{
    reveal(ActSinkSubscriber::on_made);
    reveal(ActSinkSubscriber::on_taken);
    reveal(ActSinkSubscriber::on_undelivered);
    let more = told.skip(1);
    if told[0]->admission is Some {
        assert(subscriber.on_taken(
            after,
            runs,
            runs_after,
            alive,
            canonical,
            told[0]->admission->0,
            more,
            result,
        ));
        assert(more.len() == told.len() - 1);
        if more.len() > 0 {
            assert(more[0] == told[1]);
        }
    }
}

/// A payload that waits goes with the first event that it belongs to, once, whether the event is
/// received or not.
pub proof fn payloads_wait_for_their_event<A: SpanEventAdmission>(
    subscriber: ActSinkSubscriber,
    taken: ActSinkSubscriber,
    event: EventCandidate,
)
    requires
        subscriber.took_payload(taken, event),
    ensures
        ({
            let waits = exists|i: int|
                0 <= i < subscriber.pending@.len() && crate::sink_projection::belongs_to(
                    #[trigger] subscriber.pending@[i],
                    event,
                );
            let payload = subscriber.pending_payload(event);
            &&& payload is Some <==> waits
            &&& !waits ==> taken.pending@ == subscriber.pending@
            &&& waits ==> exists|i: int|
                {
                    &&& 0 <= i < subscriber.pending@.len()
                    &&& Some(#[trigger] subscriber.pending@[i]) == payload
                    &&& crate::sink_projection::belongs_to(subscriber.pending@[i], event)
                    &&& taken.pending@ == subscriber.pending@.remove(i)
                    &&& forall|j: int|
                        0 <= j < i ==> !crate::sink_projection::belongs_to(
                            #[trigger] subscriber.pending@[j],
                            event,
                        )
                }
        }),
{
    pending_is_found_first(subscriber.pending@, event, 0);
    if let Some(place) = pending_from(subscriber.pending@, event, 0) {
        assert(crate::sink_projection::belongs_to(subscriber.pending@[place], event));
    }
}

proof fn pending_is_found_first(
    pending: Seq<PreparedSinkToolPayload>,
    event: EventCandidate,
    from: int,
)
    requires
        0 <= from,
    ensures
        match pending_from(pending, event, from) {
            Some(place) => {
                &&& from <= place < pending.len()
                &&& crate::sink_projection::belongs_to(pending[place], event)
                &&& forall|j: int|
                    from <= j < place ==> !crate::sink_projection::belongs_to(
                        #[trigger] pending[j],
                        event,
                    )
            },
            None => forall|j: int|
                from <= j < pending.len() ==> !crate::sink_projection::belongs_to(
                    #[trigger] pending[j],
                    event,
                ),
        },
    decreases pending.len() - from,
{
    if from < pending.len() && !crate::sink_projection::belongs_to(pending[from], event) {
        pending_is_found_first(pending, event, from + 1);
    }
}

/// An act's authority hears of its own act only: the end of its caller's span ends the caller, and
/// nothing else does; an event of another act is a fault of its run while that is there.
pub proof fn authorities_hear_of_their_own_act(
    authority: ActAuthority,
    canonical: AcceptedDiagnosticEvent,
    alive: bool,
)
    ensures
        ({
            let own = canonical.event.scope.act_id is Some && canonical.event.scope.act_id->0@
                == authority.act_id@;
            let ends = own && canonical.event.body is SpanFinished && canonical.built_in_span_kind
                == Some(SpanKind::ActCaller);
            let after = observed(Some(authority), canonical);
            &&& after is Some
            &&& after->0.phase.caller_active <==> authority.phase.caller_active && !ends
            &&& after->0.phase.generation_active == authority.phase.generation_active
            &&& after->0.generation == authority.generation && after->0.act_id == authority.act_id
            &&& observer(Some(authority), canonical, alive) == if alive && !own {
                Some(authority.runtime)
            } else {
                None
            }
            &&& observed(None, canonical) is None && observer(None, canonical, alive) is None
        }),
{
}

/// Sinks are retired in order: every sink is told that the runtime shuts down before it does, and
/// publishes what it has after it did, each once and in the order that the sinks are in. The first
/// that went wrong is what the run fails with.
pub proof fn sinks_publish_after_the_shutdown(calls: Seq<SinkRuntimeCall>, sinks: Seq<u64>)
    requires
        SinkRuntimeCall::retire(calls, sinks),
    ensures
        forall|i: int, j: int|
            0 <= i < calls.len() && 0 <= j < calls.len() && #[trigger] calls[i] is Begin
                && #[trigger] calls[j] is Shutdown ==> i < j,
        forall|i: int, j: int|
            0 <= i < calls.len() && 0 <= j < calls.len() && #[trigger] calls[i] is Summary
                && #[trigger] calls[j] is Shutdown ==> j < i,
        exists|i: int| 0 <= i < calls.len() && #[trigger] calls[i] is Shutdown,
        forall|i: int|
            0 <= i < sinks.len() ==> (#[trigger] calls[i] matches SinkRuntimeCall::Begin {
                sink_id,
                ..
            } && sink_id == sinks[i]),
        forall|i: int|
            0 <= i < sinks.len() ==> (#[trigger] calls[sinks.len() + 1 + i] matches
                SinkRuntimeCall::Summary { sink_id, .. } && sink_id == sinks[i]),
        calls.len() == 2 * sinks.len() + 1,
        SinkRuntimeCall::first_failure(calls) is None <==> forall|i: int|
            0 <= i < calls.len() ==> !call_failed(#[trigger] calls[i]),
{
    let count = sinks.len() as int;
    assert(calls[count] is Shutdown);
    failures_are_found(calls);
    assert forall|i: int| 0 <= i < sinks.len() implies (#[trigger] calls[sinks.len() + 1 + i] matches
        SinkRuntimeCall::Summary { sink_id, .. } && sink_id == sinks[i]) by {
        let at = count + 1 + i;
        assert(calls[at] is Summary);
    }
}

/// A call was answered with an error.
pub open spec fn call_failed(call: SinkRuntimeCall) -> bool {
    match call {
        SinkRuntimeCall::Begin { begun, .. } => begun is Err,
        SinkRuntimeCall::Shutdown => false,
        SinkRuntimeCall::Summary { published, .. } => published is Err,
    }
}

proof fn failures_are_found(calls: Seq<SinkRuntimeCall>)
    ensures
        SinkRuntimeCall::first_failure(calls) is None <==> forall|i: int|
            0 <= i < calls.len() ==> !call_failed(#[trigger] calls[i]),
    decreases calls.len(),
{
    if calls.len() > 0 {
        failures_are_found(calls.drop_last());
        let rest = calls.drop_last();
        assert(forall|i: int| 0 <= i < rest.len() ==> rest[i] == calls[i]);
        if SinkRuntimeCall::first_failure(rest) is None && calls.last().failure() is None {
            assert forall|i: int| 0 <= i < calls.len() implies !call_failed(#[trigger] calls[i]) by {
                if i < rest.len() {
                    assert(!call_failed(rest[i]));
                }
            }
        } else if SinkRuntimeCall::first_failure(rest) is Some {
            let i = choose|i: int| 0 <= i < rest.len() && call_failed(#[trigger] rest[i]);
            assert(call_failed(calls[i]));
        } else {
            assert(call_failed(calls[calls.len() - 1]));
        }
    }
}

/// An act goes through the capability exactly where one is installed. Without one it is only
/// reported where it asks for no sink, and where it does, stands alone exactly where no runtime is
/// there that should have one.
pub proof fn acts_go_through_the_capability_there_is(
    capability_installed: bool,
    binding_is_active: bool,
    runtime_installed: bool,
)
    ensures
        ({
            let path = spec_act_admission_path(
                capability_installed,
                binding_is_active,
                runtime_installed,
            );
            &&& path is Capability <==> capability_installed
            &&& path is ReportOnly <==> !capability_installed && !binding_is_active
            &&& path is CapabilityMissing <==> !capability_installed && binding_is_active
                && runtime_installed
            &&& path is Standalone <==> !capability_installed && binding_is_active
                && !runtime_installed
        }),
{
}

/// A capability binds a sink exactly where the act asks for one, and reports an act that does not
/// exactly where events are kept.
pub proof fn sinks_are_bound_where_asked_for(
    profile: DiagnosticAdmissionProfile,
    binding_is_active: bool,
)
    ensures
        spec_capability_path(profile, binding_is_active) is Bind <==> binding_is_active,
        spec_capability_path(profile, binding_is_active) is AdmitWithoutSink
            <==> !binding_is_active && profile is ProductionDurable,
        spec_capability_path(profile, binding_is_active) is Nothing <==> !binding_is_active
            && profile is SinkOnlyVolatile,
{
}

/// A sink is settled exactly where its seal holds and it is still bound to its act. A sealed sink
/// is no longer bound, one whose seal was rejected is as it was, and no other act changes. What
/// goes wrong first is what is told.
pub proof fn sealed_sinks_are_unbound(
    registry: ActSinkRegistry,
    after: ActSinkRegistry,
    act_id: Seq<char>,
    sink_id: u64,
    prepared: Result<(), ActSettlementError>,
    begun: Result<(), ActSettlementError>,
    seal: ActSettlementSinkCommit,
    commit: ActSettlementSinkCommit,
)
    requires
        settlement_begins(registry, act_id, sink_id, prepared, begun),
        settlement_ends(registry, after, act_id, sink_id, seal, commit),
    ensures
        ({
            let bound = registry.spec_entry(act_id) == Some(ActSubscriber::Bound { sink_id });
            &&& begun is Ok <==> prepared is Ok && bound
            &&& prepared is Err ==> begun == prepared
            &&& commit is Rejected <==> seal is Rejected
            &&& commit is Committed <==> seal is Committed && bound
            &&& seal is CommittedWithFailure ==> commit == seal
            &&& seal is Rejected ==> after == registry && commit == seal
            &&& seal !is Rejected ==> (bound ==> after.spec_entry(act_id) is None)
            &&& !bound ==> after == registry
            &&& registry.keeps_others(after, act_id)
        }),
{
}

/// What was dropped for an event that was taken counts, unless the event is itself the count of
/// what was dropped; an event that could not be delivered counts nothing.
pub proof fn taken_events_count_what_they_dropped<A: SpanEventAdmission>(
    subscriber: ActSinkSubscriber,
    after: ActSinkSubscriber,
    runs: DiagnosticRuns<A>,
    runs_after: DiagnosticRuns<A>,
    canonical: AcceptedDiagnosticEvent,
    admission: AdmissionOutcome,
    told: Seq<SinkCall>,
    result: Result<(), &'static str>,
)
    requires
        subscriber.on_taken(after, runs, runs_after, true, canonical, admission, told, result),
    ensures
        ({
            let counts = canonical.event.body is CounterSampled && canonical.event.body->kind
                is DiagnosticDroppedEvents;
            let sum = subscriber.dropped + admission.spec_dropped();
            &&& counts ==> after.dropped == subscriber.dropped
            &&& !counts && sum <= u64::MAX ==> after.dropped == sum
            &&& !counts && sum > u64::MAX ==> after.dropped == u64::MAX
        }),
{
    reveal(ActSinkSubscriber::on_taken);
    match admission {
        AdmissionOutcome::Enqueued { evicted } => {
            total_is_not_negative(evicted@, evicted@.len() as int);
        },
        AdmissionOutcome::Dropped { .. } => {},
        AdmissionOutcome::Terminalized { dropped } => {
            total_is_not_negative(dropped@, dropped@.len() as int);
        },
    }
}

/// That usage was not bound is a failure exactly where it was not, told by what went wrong: that it
/// came too late, or why it failed, and of the profile that the act is admitted under.
pub proof fn unbound_usage_is_a_failure(profile: DiagnosticAdmissionProfile, binding: UsageBinding)
    ensures
        usage_failure(profile, binding) is None <==> binding is Bound,
        binding is Late ==> (usage_failure(profile, binding)->0).0@ == if profile
            is ProductionDurable {
            "act.production-usage-bind-late"@
        } else {
            "act.standalone-usage-bind-late"@
        },
        binding is Failed ==> (usage_failure(profile, binding)->0).0@ == if profile
            is ProductionDurable {
            "act.production-usage-bind-failed"@
        } else {
            "act.standalone-usage-bind-failed"@
        },
        binding matches UsageBinding::Failed { reason } ==> (usage_failure(profile, binding)->0).1.len()
            >= reason@.len() && (usage_failure(profile, binding)->0).1.skip(
            (usage_failure(profile, binding)->0).1.len() - reason@.len(),
        ) =~= reason@,
{
}

/// An act that no sink hears of is settled at the end of its span, and its authority is forgotten
/// exactly where it is that of the act's own generation; where it is not, or where the act was not
/// settled, its run has failed.
pub proof fn authorities_are_retired_with_their_act(
    subscriber: AuthorityOnlySubscriber,
    registry: ActSinkRegistry,
    authority: ActAuthority,
    canonical: AcceptedDiagnosticEvent,
    answer: Result<(), &'static str>,
)
    ensures
        AuthorityOnlySubscriber::ends_act(canonical) <==> canonical.event.body is SpanFinished
            && canonical.built_in_span_kind is Some && canonical.built_in_span_kind->0
            is ActLifecycle,
        subscriber.retires(registry, authority) <==> registry.spec_entry(subscriber.act_id@) == Some(
            ActSubscriber::Authority { generation: authority.generation },
        ),
        subscriber.failure(registry, authority, answer) is None <==> answer is Ok
            && registry.spec_entry(subscriber.act_id@) == Some(
            ActSubscriber::Authority { generation: authority.generation },
        ),
        answer matches Err(code) ==> subscriber.failure(registry, authority, answer)->0.spec_code()
            == code@,
{
}

} // verus!
