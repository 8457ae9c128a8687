//! The token that an act gives away for its usage, and takes back when the usage is final.
use vstd::prelude::*;

verus! {

/// What became of the prompt of an act.
#[derive(Clone, Copy, Debug, PartialEq, Eq, Structural)]
pub enum UsageFinalizationSettlement {
    NotSubmitted,
    Authoritative,
    Unknown,
}

/// What the holder of a slot can see of its act.
#[derive(Clone, Copy, Debug, PartialEq, Eq, Structural)]
pub struct UsageFinalizationSnapshot {
    pub prompt_submitted: bool,
    pub settlement: Option<UsageFinalizationSettlement>,
}

impl UsageFinalizationSnapshot {
    pub fn prompt_submitted(self) -> (submitted: bool)
        ensures
            submitted == self.prompt_submitted,
    {
        self.prompt_submitted
    }

    pub fn settlement(self) -> (settlement: Option<UsageFinalizationSettlement>)
        ensures
            settlement == self.settlement,
    {
        self.settlement
    }
}

/// The usage of one act. The serial is the number of the act, which no other act has.
#[derive(Debug, PartialEq, Eq)]
pub struct UsageFinalizationIdentity {
    pub serial: u64,
    pub act_id: String,
    pub prompt_submitted: bool,
    pub settlement: Option<UsageFinalizationSettlement>,
}

/// The right to finalize the usage of one act. It cannot be copied.
#[derive(Debug, PartialEq, Eq)]
pub struct UsageFinalizationSlot {
    pub serial: u64,
    pub act_id: String,
}

/// A slot that was used: the usage of the act is final as of an event.
#[derive(Debug, PartialEq, Eq)]
pub struct UsageFinalizationAck {
    pub serial: u64,
    pub act_id: String,
    pub usage_sequence: u64,
}

impl UsageFinalizationIdentity {
    /// A settlement agrees with whether the prompt was submitted.
    pub open spec fn allows(self, settlement: UsageFinalizationSettlement) -> bool {
        self.prompt_submitted == (settlement !is NotSubmitted)
    }

    /// What came of noting the prompt.
    pub open spec fn on_prompt(self, after: Self, result: Result<(), &'static str>) -> bool {
        if self.prompt_submitted || self.settlement is Some {
            &&& result == Err::<(), &'static str>("act.usage-slot-prompt-transition-invalid")
            &&& after == self
        } else {
            &&& result is Ok
            &&& after == (UsageFinalizationIdentity { prompt_submitted: true, ..self })
        }
    }

    /// What came of settling the usage.
    pub open spec fn on_settle(
        self,
        after: Self,
        settlement: UsageFinalizationSettlement,
        result: Result<bool, &'static str>,
    ) -> bool {
        if self.settlement == Some(settlement) {
            &&& result == Ok::<bool, &'static str>(false)
            &&& after == self
        } else if self.settlement is Some || !self.allows(settlement) {
            &&& result == Err::<bool, &'static str>("act.usage-slot-settlement-transition-invalid")
            &&& after == self
        } else {
            &&& result == Ok::<bool, &'static str>(true)
            &&& after == (UsageFinalizationIdentity { settlement: Some(settlement), ..self })
        }
    }

    /// The usage of an act that has just begun, with its one slot.
    pub fn new(serial: u64, act_id: String) -> (result: (Self, UsageFinalizationSlot))
        ensures
            result.0 == (UsageFinalizationIdentity {
                serial,
                act_id,
                prompt_submitted: false,
                settlement: None,
            }),
            result.1 == (UsageFinalizationSlot { serial, act_id }),
    {
        let slot = UsageFinalizationSlot { serial, act_id: act_id.clone() };
        (
            UsageFinalizationIdentity { serial, act_id, prompt_submitted: false, settlement: None },
            slot,
        )
    }

    pub fn snapshot(&self) -> (snapshot: UsageFinalizationSnapshot)
        ensures
            snapshot == (UsageFinalizationSnapshot {
                prompt_submitted: self.prompt_submitted,
                settlement: self.settlement,
            }),
    {
        UsageFinalizationSnapshot {
            prompt_submitted: self.prompt_submitted,
            settlement: self.settlement,
        }
    }

    /// Notes the prompt, once, before the usage is settled.
    pub fn mark_prompt_submitted(&mut self) -> (result: Result<(), &'static str>)
        ensures
            old(self).on_prompt(*final(self), result),
    {
        if self.prompt_submitted || self.settlement.is_some() {
            return Err("act.usage-slot-prompt-transition-invalid");
        }
        self.prompt_submitted = true;
        Ok(())
    }

    /// Settles the usage. To settle it again in the same way changes nothing. Tells whether this
    /// call settled it.
    pub fn settle(&mut self, settlement: UsageFinalizationSettlement) -> (result: Result<
        bool,
        &'static str,
    >)
        ensures
            old(self).on_settle(*final(self), settlement, result),
    {
        if let Some(current) = self.settlement {
            if current == settlement {
                return Ok(false);
            }
            return Err("act.usage-slot-settlement-transition-invalid");
        }
        let submitted = !matches!(settlement, UsageFinalizationSettlement::NotSubmitted);
        if self.prompt_submitted != submitted {
            return Err("act.usage-slot-settlement-transition-invalid");
        }
        self.settlement = Some(settlement);
        Ok(true)
    }

    /// The acknowledgement came from this act's own slot.
    pub fn matches(&self, ack: &UsageFinalizationAck) -> (same: bool)
        ensures
            same == (self.serial == ack.serial),
    {
        self.serial == ack.serial
    }
}

impl UsageFinalizationSlot {
    /// The slot belongs to the act.
    pub open spec fn belongs_to(self, identity: UsageFinalizationIdentity) -> bool {
        self.serial == identity.serial
    }

    pub fn act_id(&self) -> (act_id: &str)
        ensures
            act_id@ == self.act_id@,
    {
        self.act_id.as_str()
    }

    /// What the slot's act has come to.
    pub fn snapshot(&self, identity: &UsageFinalizationIdentity) -> (snapshot:
        UsageFinalizationSnapshot)
        requires
            self.belongs_to(*identity),
        ensures
            snapshot == (UsageFinalizationSnapshot {
                prompt_submitted: identity.prompt_submitted,
                settlement: identity.settlement,
            }),
    {
        identity.snapshot()
    }

    /// What comes of using the slot up.
    pub open spec fn acknowledgement(
        self,
        identity: UsageFinalizationIdentity,
        usage_sequence: u64,
    ) -> Result<UsageFinalizationAck, UsageFinalizationSlot> {
        if identity.settlement is None {
            Err::<UsageFinalizationAck, UsageFinalizationSlot>(self)
        } else {
            Ok(
                UsageFinalizationAck { serial: self.serial, act_id: self.act_id, usage_sequence },
            )
        }
    }

    /// Uses the slot up, once the act is settled. Before that the slot comes back.
    pub fn acknowledge(
        self,
        identity: &UsageFinalizationIdentity,
        usage_sequence: u64,
    ) -> (result: Result<UsageFinalizationAck, UsageFinalizationSlot>)
        requires
            self.belongs_to(*identity),
        ensures
            result == self.acknowledgement(*identity, usage_sequence),
    {
        if self.snapshot(identity).settlement().is_none() {
            return Err(self);
        }
        Ok(UsageFinalizationAck { serial: self.serial, act_id: self.act_id, usage_sequence })
    }
}

/// Where slots and settlements are announced. What is announced waits here to be fetched.
#[derive(Debug, PartialEq, Eq)]
pub struct UsageFinalizationBridge {
    pub slots: Vec<UsageFinalizationSlot>,
    pub settled_acts: Vec<String>,
}

impl UsageFinalizationBridge {
    pub fn new() -> (bridge: Self)
        ensures
            bridge.slots@ == Seq::<UsageFinalizationSlot>::empty(),
            bridge.settled_acts@ == Seq::<String>::empty(),
    {
        UsageFinalizationBridge { slots: Vec::new(), settled_acts: Vec::new() }
    }

    pub fn register_slot(&mut self, slot: UsageFinalizationSlot)
        ensures
            final(self).slots@ == old(self).slots@.push(slot),
            final(self).settled_acts@ == old(self).settled_acts@,
    {
        self.slots.push(slot);
    }

    pub fn settlement_ready(&mut self, act_id: String)
        ensures
            final(self).slots@ == old(self).slots@,
            final(self).settled_acts@ == old(self).settled_acts@.push(act_id),
    {
        self.settled_acts.push(act_id);
    }

    /// Fetches what was announced: the slots, and the acts that have settled, each in the order in
    /// which they were announced.
    pub fn fetch(&mut self) -> (announced: (Vec<UsageFinalizationSlot>, Vec<String>))
        ensures
            announced.0@ == old(self).slots@,
            announced.1@ == old(self).settled_acts@,
            final(self).slots@ == Seq::<UsageFinalizationSlot>::empty(),
            final(self).settled_acts@ == Seq::<String>::empty(),
    {
        let mut slots: Vec<UsageFinalizationSlot> = Vec::new();
        let mut settled: Vec<String> = Vec::new();
        std::mem::swap(&mut slots, &mut self.slots);
        std::mem::swap(&mut settled, &mut self.settled_acts);
        (slots, settled)
    }
}

/// The place of the bridge, while nothing is installed.
pub fn usage_finalization_bridge_slot() -> (slot: Option<UsageFinalizationBridge>)
    ensures
        slot is None,
{
    None
}

/// Installs the bridge, once. A second bridge comes back.
pub fn install_usage_finalization_bridge(
    slot: &mut Option<UsageFinalizationBridge>,
    bridge: UsageFinalizationBridge,
) -> (result: Result<(), UsageFinalizationBridge>)
    ensures
        match *old(slot) {
            Some(_) => {
                &&& result == Err::<(), UsageFinalizationBridge>(bridge)
                &&& *final(slot) == *old(slot)
            },
            None => {
                &&& result is Ok
                &&& *final(slot) == Some(bridge)
            },
        },
{
    if slot.is_some() {
        return Err(bridge);
    }
    *slot = Some(bridge);
    Ok(())
}

/// The bridge, where one is installed.
pub fn usage_finalization_bridge(slot: &Option<UsageFinalizationBridge>) -> (bridge: Option<
    &UsageFinalizationBridge,
>)
    ensures
        match (bridge, slot) {
            (Some(bridge), Some(installed)) => *bridge == *installed,
            (None, None) => true,
            _ => false,
        },
{
    slot.as_ref()
}

/// The usage of an act is settled once: the first settlement that fits stands, the same again
/// changes nothing, and any other is refused. It is settled as not submitted exactly where no
/// prompt was submitted, and otherwise only where one was. After it is settled no prompt is noted.
pub proof fn usage_is_settled_once(
    usage: UsageFinalizationIdentity,
    settled: UsageFinalizationIdentity,
    later: UsageFinalizationIdentity,
    prompted: UsageFinalizationIdentity,
    first: UsageFinalizationSettlement,
    second: UsageFinalizationSettlement,
    first_result: Result<bool, &'static str>,
    second_result: Result<bool, &'static str>,
    prompt_result: Result<(), &'static str>,
)
    requires
        usage.settlement is None,
        usage.on_settle(settled, first, first_result),
        settled.on_settle(later, second, second_result),
        settled.on_prompt(prompted, prompt_result),
    ensures
        first_result is Ok <==> (first is NotSubmitted <==> !usage.prompt_submitted),
        first_result is Ok ==> first_result->Ok_0 && settled.settlement == Some(first),
        first_result is Err ==> settled == usage,
        first_result is Ok ==> (second_result is Ok <==> second == first),
        first_result is Ok ==> later == settled && (second_result matches Ok(now) ==> !now),
        first_result is Ok ==> prompt_result is Err && prompted == settled,
        settled.serial == usage.serial && settled.act_id == usage.act_id,
        settled.prompt_submitted == usage.prompt_submitted,
{
}

/// A prompt is noted once, before the usage is settled, and changes nothing else.
pub proof fn prompts_are_noted_once(
    usage: UsageFinalizationIdentity,
    after: UsageFinalizationIdentity,
    again: UsageFinalizationIdentity,
    result: Result<(), &'static str>,
    again_result: Result<(), &'static str>,
)
    requires
        usage.on_prompt(after, result),
        after.on_prompt(again, again_result),
    ensures
        result is Ok <==> !usage.prompt_submitted && usage.settlement is None,
        result is Ok ==> after.prompt_submitted,
        again_result is Err && again == after,
        after.settlement == usage.settlement,
        after.serial == usage.serial && after.act_id == usage.act_id,
{
}

/// A slot is used up exactly once the act is settled, and what it acknowledges is of the slot's own
/// act, with the number that the usage was told under. Before that the same slot comes back.
pub proof fn slots_acknowledge_their_own_act(
    slot: UsageFinalizationSlot,
    usage: UsageFinalizationIdentity,
    usage_sequence: u64,
)
    ensures
        ({
            let given = slot.acknowledgement(usage, usage_sequence);
            &&& given is Ok <==> usage.settlement is Some
            &&& given matches Ok(ack) ==> {
                &&& ack.serial == slot.serial
                &&& ack.act_id == slot.act_id
                &&& ack.usage_sequence == usage_sequence
            }
            &&& given matches Err(back) ==> back == slot
        }),
{
}

} // verus!
