//! How a production that was activated is bound to its run.
use crate::activation_sequence::{PendingProduction, PendingProductions};
use crate::context::SpanEventAdmission;
use crate::custom_binding::{CustomBindingInstalled, CustomBindingRegistry};
use crate::hooks::{
    DiagnosticAdmissionInstallError, DiagnosticAdmissionProfile, DiagnosticAdmissionSlot,
};
use crate::run::{DiagnosticRuns, RuntimeProducerError};
use crate::runtime_producer::RuntimeProducerRegistry;
use crate::sink_binding::{production_capability, ActSinkAdmissionCapability, CapabilityOwner};
use vstd::prelude::*;

verus! {

/// Why a production was not bound to its run.
#[derive(Debug, PartialEq, Eq)]
pub enum RunBindError {
    Producer { refused: RuntimeProducerError },
    /// The subscribers of acts cannot hear of the production's events.
    Subscribers { reason: String },
    Capability { taken: DiagnosticAdmissionInstallError },
    Custom,
}

/// The diagnostics of all runs: who reports their lives, and who takes the facts of user code. Who
/// admits the acts of a run stands in the slot of its binding.
pub struct RunBindings {
    pub runtimes: RuntimeProducerRegistry,
    pub customs: CustomBindingRegistry,
}

impl RunBindings {
    pub open spec fn wf(self) -> bool {
        self.runtimes.wf() && self.customs.wf()
    }

    /// What came of binding a production that waited. It reports through a channel of its own to the
    /// hub that it was made with. The first thing that fails ends it.
    pub open spec fn on_bound<A: SpanEventAdmission>(
        self,
        after: Self,
        runs: DiagnosticRuns<A>,
        runs_after: DiagnosticRuns<A>,
        slot: DiagnosticAdmissionSlot<ActSinkAdmissionCapability>,
        slot_after: DiagnosticAdmissionSlot<ActSinkAdmissionCapability>,
        waiting: PendingProduction,
        core_key: usize,
        binding_key: usize,
        result: Result<(), RunBindError>,
    ) -> bool {
        exists|
            context: crate::context::DiagnosticRunContext<A>,
            runs_between: DiagnosticRuns<A>,
            installed: Result<usize, RuntimeProducerError>,
        |
            {
                &&& context.is_share_of(runs@[waiting.context as int].context)
                &&& #[trigger] self.runtimes.on_install(
                    after.runtimes,
                    runs,
                    runs_between,
                    context,
                    core_key,
                    binding_key,
                    installed,
                )
                &&& match installed {
                    Err(refused) => {
                        &&& result == Err::<(), _>(RunBindError::Producer { refused })
                        &&& runs_after == runs_between
                        &&& slot_after == slot
                        &&& after.customs == self.customs
                    },
                    Ok(place) => self.on_reported(
                        after,
                        runs_between,
                        runs_after,
                        slot,
                        slot_after,
                        waiting,
                        place,
                        binding_key,
                        result,
                    ),
                }
            }
    }

    /// What came of binding a production that the producer at `place` reports. First its channel
    /// lets the subscribers of acts hear, and only that happens to it.
    pub open spec fn on_reported<A: SpanEventAdmission>(
        self,
        after: Self,
        runs: DiagnosticRuns<A>,
        runs_after: DiagnosticRuns<A>,
        slot: DiagnosticAdmissionSlot<ActSinkAdmissionCapability>,
        slot_after: DiagnosticAdmissionSlot<ActSinkAdmissionCapability>,
        waiting: PendingProduction,
        place: usize,
        binding_key: usize,
        result: Result<(), RunBindError>,
    ) -> bool {
        let channel = waiting.context as int;
        exists|subscribers: Result<(), String>|
            {
                &&& runs_after.only_changes(runs, channel)
                &&& runs_after@[channel].failure == runs@[channel].failure
                &&& #[trigger] runs_after@[channel].context.subscribed(
                    runs@[channel].context,
                    subscribers,
                )
                &&& match subscribers {
                    Err(reason) => {
                        &&& result == Err::<(), _>(RunBindError::Subscribers { reason })
                        &&& slot_after == slot
                        &&& after.customs == self.customs
                    },
                    Ok(_) => self.on_heard(
                        after,
                        slot,
                        slot_after,
                        waiting,
                        place,
                        binding_key,
                        result,
                    ),
                }
            }
    }

    /// What came of binding a production whose events the subscribers of acts hear: the slot of its
    /// binding gets its capability, unless it has one.
    pub open spec fn on_heard(
        self,
        after: Self,
        slot: DiagnosticAdmissionSlot<ActSinkAdmissionCapability>,
        slot_after: DiagnosticAdmissionSlot<ActSinkAdmissionCapability>,
        waiting: PendingProduction,
        place: usize,
        binding_key: usize,
        result: Result<(), RunBindError>,
    ) -> bool {
        match slot.spec_profile() {
            Some(installed) => {
                &&& result == Err::<(), _>(
                    RunBindError::Capability {
                        taken: DiagnosticAdmissionInstallError {
                            installed,
                            requested: DiagnosticAdmissionProfile::ProductionDurable,
                        },
                    },
                )
                &&& slot_after == slot
                &&& after.customs == self.customs
            },
            None => {
                &&& slot_after.installed matches Some(installed)
                &&& installed.profile == DiagnosticAdmissionProfile::ProductionDurable
                &&& installed.capability.belongs_to(
                    waiting.run_id,
                    waiting.context,
                    CapabilityOwner::Producer { place },
                )
                &&& installed.capability.standalone is None
                &&& if self.takes_facts(binding_key) {
                    &&& result == Err::<(), _>(RunBindError::Custom)
                    &&& after.customs == self.customs
                } else {
                    &&& result == Ok::<(), RunBindError>(())
                    &&& after.takes_facts(binding_key)
                    &&& after.customs@.len() == self.customs@.len() + 1
                    &&& after.customs@.take(self.customs@.len() as int) =~= self.customs@
                }
            },
        }
    }

    /// User code can publish facts of this run.
    pub open spec fn takes_facts(self, binding_key: usize) -> bool {
        exists|place: int| self.customs.has(binding_key, place)
    }

    /// What came of binding a production: one that does not wait for a run is left alone.
    pub open spec fn on_bind_run<A: SpanEventAdmission>(
        self,
        after: Self,
        pending: PendingProductions,
        pending_after: PendingProductions,
        runs: DiagnosticRuns<A>,
        runs_after: DiagnosticRuns<A>,
        slot: DiagnosticAdmissionSlot<ActSinkAdmissionCapability>,
        slot_after: DiagnosticAdmissionSlot<ActSinkAdmissionCapability>,
        production_key: usize,
        core_key: usize,
        binding_key: usize,
        result: Result<(), RunBindError>,
    ) -> bool {
        exists|waiting: Option<PendingProduction>|
            {
                &&& #[trigger] pending.on_take(pending_after, production_key, waiting)
                &&& match waiting {
                    None => {
                        &&& result == Ok::<(), RunBindError>(())
                        &&& after == self
                        &&& runs_after == runs
                        &&& slot_after == slot
                    },
                    Some(waiting) => self.on_bound(
                        after,
                        runs,
                        runs_after,
                        slot,
                        slot_after,
                        waiting,
                        core_key,
                        binding_key,
                        result,
                    ),
                }
            }
    }

    /// Binds a production to its run. Each waits for its run once. `slot` is that of the binding.
    pub fn bind_run<A: SpanEventAdmission>(
        &mut self,
        pending: &mut PendingProductions,
        runs: &mut DiagnosticRuns<A>,
        slot: &mut DiagnosticAdmissionSlot<ActSinkAdmissionCapability>,
        production_key: usize,
        core_key: usize,
        binding_key: usize,
    ) -> (result: Result<(), RunBindError>)
        requires
            old(self).wf(),
            old(pending).wf(),
            old(self).runtimes.fits(*old(runs)),
            forall|i: int|
                0 <= i < old(pending)@.len() ==> (#[trigger] old(pending)@[i]).context
                    < old(runs)@.len(),
        ensures
            final(self).wf(),
            final(pending).wf(),
            final(self).runtimes.fits(*final(runs)),
            final(runs)@.len() >= old(runs)@.len(),
            old(self).on_bind_run(
                *final(self),
                *old(pending),
                *final(pending),
                *old(runs),
                *final(runs),
                *old(slot),
                *final(slot),
                production_key,
                core_key,
                binding_key,
                result,
            ),
    {
        let taken = pending.take_pending(production_key);
        assert(old(pending).on_take(*pending, production_key, taken));
        let waiting = match taken {
            Some(waiting) => waiting,
            None => return Ok(()),
        };
        let channel: usize = waiting.context;
        let context = runs.runs[channel].context.share();
        let ghost shared = context;
        let installed = self.runtimes.install(runs, context, core_key, binding_key);
        let ghost between = *runs;
        let ghost answered = installed;
        let ghost runtimes = self.runtimes;
        assert(old(self).runtimes.on_install(
            self.runtimes,
            *old(runs),
            between,
            shared,
            core_key,
            binding_key,
            installed,
        ));
        let place = match installed {
            Ok(place) => place,
            Err(refused) => return Err(RunBindError::Producer { refused }),
        };
        let subscribers = runs.runs[channel].context.install_act_subscribers();
        assert(runs@[channel as int].context.subscribed(
            between@[channel as int].context,
            subscribers,
        ));
        if let Err(reason) = subscribers {
            return Err(RunBindError::Subscribers { reason });
        }
        let capability = production_capability(waiting.run_id, channel, place);
        if let Err(taken) = slot.install(
            capability,
            DiagnosticAdmissionProfile::ProductionDurable,
        ) {
            return Err(RunBindError::Capability { taken });
        }
        let result = match self.customs.register_binding(binding_key) {
            Ok(place) => {
                assert(self.customs.has(binding_key, place as int));
                assert forall|other: int| !old(self).customs.has(binding_key, other) by {}
                Ok(())
            },
            Err(CustomBindingInstalled) => Err(RunBindError::Custom),
        };
        assert(old(self).on_heard(*self, *old(slot), *slot, waiting, place, binding_key, result));
        assert(old(self).on_reported(
            *self,
            between,
            *runs,
            *old(slot),
            *slot,
            waiting,
            place,
            binding_key,
            result,
        ));
        assert(self.runtimes == runtimes);
        assert(answered == Ok::<usize, RuntimeProducerError>(place));
        assert(shared.is_share_of(old(runs)@[channel as int].context));
        assert(old(self).runtimes.on_install(
            self.runtimes,
            *old(runs),
            between,
            shared,
            core_key,
            binding_key,
            answered,
        ));
        assert(old(self).on_bound(
            *self,
            *old(runs),
            *runs,
            *old(slot),
            *slot,
            waiting,
            core_key,
            binding_key,
            result,
        ));
        result
    }
}

/// A production that waits is bound once: it is no longer waiting, whatever comes of it. One that
/// does not wait changes nothing.
pub proof fn waiting_runs_are_bound_once<A: SpanEventAdmission>(
    bindings: RunBindings,
    after: RunBindings,
    pending: PendingProductions,
    pending_after: PendingProductions,
    runs: DiagnosticRuns<A>,
    runs_after: DiagnosticRuns<A>,
    slot: DiagnosticAdmissionSlot<ActSinkAdmissionCapability>,
    slot_after: DiagnosticAdmissionSlot<ActSinkAdmissionCapability>,
    production_key: usize,
    core_key: usize,
    binding_key: usize,
    result: Result<(), RunBindError>,
)
    requires
        pending.wf(),
        bindings.on_bind_run(
            after,
            pending,
            pending_after,
            runs,
            runs_after,
            slot,
            slot_after,
            production_key,
            core_key,
            binding_key,
            result,
        ),
    ensures
        (forall|i: int|
            0 <= i < pending@.len() ==> (#[trigger] pending@[i]).key != production_key)
            ==> result is Ok && after == bindings && runs_after == runs && slot_after == slot
            && pending_after == pending,
        slot.installed is Some ==> slot_after == slot,
        slot_after.installed != slot.installed ==> slot_after.installed is Some
            && slot_after.installed->0.profile is ProductionDurable,
        slot.installed is Some && result is Ok ==> after == bindings && runs_after == runs,
        result is Err && slot_after == slot ==> after.customs == bindings.customs,
{
    if forall|i: int| 0 <= i < pending@.len() ==> (#[trigger] pending@[i]).key != production_key {
        assert forall|place: int| !crate::activation_sequence::waits_at(
            pending@,
            production_key,
            place,
        ) by {
            if 0 <= place < pending@.len() {
                assert(pending@[place].key != production_key);
            }
        }
    }
}

/// A run that is bound takes the facts of user code from then on, gives its own acts a capability
/// that keeps events, and does both exactly where no capability was there and no one took those
/// facts before. What was there before stays.
pub proof fn bound_runs_take_facts(
    bindings: RunBindings,
    after: RunBindings,
    slot: DiagnosticAdmissionSlot<ActSinkAdmissionCapability>,
    slot_after: DiagnosticAdmissionSlot<ActSinkAdmissionCapability>,
    waiting: PendingProduction,
    place: usize,
    binding_key: usize,
    result: Result<(), RunBindError>,
)
    requires
        bindings.on_heard(after, slot, slot_after, waiting, place, binding_key, result),
    ensures
        result is Ok <==> slot.installed is None && !bindings.takes_facts(binding_key),
        result is Ok ==> after.takes_facts(binding_key),
        slot.installed is Some ==> slot_after == slot && (result matches Err(error) && error
            is Capability),
        slot.installed is None ==> slot_after.installed is Some && {
            let installed = slot_after.installed->0;
            &&& installed.profile is ProductionDurable
            &&& installed.capability.run_id == waiting.run_id
            &&& installed.capability.context == waiting.context
            &&& installed.capability.owner == (CapabilityOwner::Producer { place })
        },
        slot.installed is None && bindings.takes_facts(binding_key) ==> (result matches Err(error)
            && error is Custom),
{
}

} // verus!
