//! The admission of events to a durable run: the quota decides first.
use crate::bootstrap::QuotaError;
use vstd::prelude::*;

verus! {

/// Calls of the quota and the ingress, in order.
pub type IngressLog = Seq<IngressCall>;

/// The quota and the ingress of a run. Nothing is promised of what they answer, only that it is known
/// what they were asked.
pub trait DurableIngress {
    /// Every call so far.
    spec fn told(&self) -> IngressLog;

    /// The run may grow by this many bytes.
    fn precheck(&mut self, growth: u64) -> (allowed: Result<(), QuotaError>)
        ensures
            final(self).told() == old(self).told().push(IngressCall::Precheck { growth, allowed }),
    ;

    /// Takes no more events, after a failure of the runtime itself.
    fn seal_for_external_core_failure(&mut self)
        ensures
            final(self).told() == old(self).told().push(IngressCall::Seal),
    ;

    /// Reserves a place for events, or tells why there is none. A fatal event may use what is kept
    /// back for it.
    fn try_reserve(
        &mut self,
        event_count: usize,
        canonical_bytes: usize,
        fatal: bool,
    ) -> (reserved: Result<(), String>)
        ensures
            final(self).told() == old(self).told().push(
                IngressCall::Reserve { event_count, canonical_bytes, fatal, reserved },
            ),
    ;
}

/// Why an event was not admitted.
#[derive(Debug, PartialEq, Eq)]
pub enum DurableAdmissionError {
    Quota { quota: QuotaError },
    Ingress { reason: String },
}

impl DurableAdmissionError {
    /// Describes the error to a reader.
    pub fn describe(&self) -> (text: &str)
        ensures
            text@ == match self {
                DurableAdmissionError::Quota { quota } => quota.spec_message(),
                DurableAdmissionError::Ingress { reason } => reason@,
            },
    {
        match self {
            DurableAdmissionError::Quota { quota } => match quota {
                QuotaError::StatePoisoned { message } => message.as_str(),
                QuotaError::Sealed { message, .. } => message.as_str(),
                QuotaError::LimitReached { message, .. } => message.as_str(),
                QuotaError::MeasurementFailed { message, .. } => message.as_str(),
            },
            DurableAdmissionError::Ingress { reason } => reason.as_str(),
        }
    }
}

/// A call of the quota or the ingress.
pub enum IngressCall {
    Precheck { growth: u64, allowed: Result<(), QuotaError> },
    Seal,
    Reserve {
        event_count: usize,
        canonical_bytes: usize,
        fatal: bool,
        reserved: Result<(), String>,
    },
}

/// The admission of events to a run.
pub struct DurableAdmission<I> {
    pub ingress: I,
}

/// A size as the growth of a run.
pub open spec fn conservative_growth(canonical_bytes: usize) -> u64 {
    if canonical_bytes > u64::MAX {
        u64::MAX
    } else {
        canonical_bytes as u64
    }
}

/// What came of a reservation. `told` holds the calls: the quota is asked first, and where it
/// refuses, the ingress is sealed and not asked.
pub open spec fn on_reserve(
    event_count: usize,
    canonical_bytes: usize,
    fatal: bool,
    told: Seq<IngressCall>,
    result: Result<(), DurableAdmissionError>,
) -> bool {
    &&& told.len() == 2
    &&& told[0] matches IngressCall::Precheck { growth, allowed }
    &&& growth == conservative_growth(canonical_bytes)
    &&& match allowed {
        Err(quota) => {
            &&& told[1] is Seal
            &&& result == Err::<(), _>(DurableAdmissionError::Quota { quota })
        },
        Ok(_) => {
            &&& told[1] matches IngressCall::Reserve {
                event_count: count,
                canonical_bytes: bytes,
                fatal: last,
                reserved,
            }
            &&& count == event_count
            &&& bytes == canonical_bytes
            &&& last == fatal
            &&& match reserved {
                Ok(_) => result == Ok::<(), DurableAdmissionError>(()),
                Err(reason) => result == Err::<(), _>(DurableAdmissionError::Ingress { reason }),
            }
        },
    }
}

impl<I: DurableIngress> DurableAdmission<I> {
    pub fn new(ingress: I) -> (admission: Self)
        ensures
            admission.ingress == ingress,
    {
        DurableAdmission { ingress }
    }

    /// What was called so far.
    pub open spec fn calls(self) -> Seq<IngressCall> {
        self.ingress.told()
    }

    /// Reserves a place for events.
    pub fn reserve(
        &mut self,
        event_count: usize,
        canonical_bytes: usize,
        fatal: bool,
    ) -> (result: Result<(), DurableAdmissionError>)
        ensures
            final(self).calls() =~= old(self).calls() + final(self).calls().skip(
                old(self).calls().len() as int,
            ),
            on_reserve(
                event_count,
                canonical_bytes,
                fatal,
                final(self).calls().skip(old(self).calls().len() as int),
                result,
            ),
    {
        let ghost before = self.calls();
        let growth: u64 = canonical_bytes as u64;
        let allowed = self.ingress.precheck(growth);
        let ghost asked = IngressCall::Precheck { growth, allowed };
        if let Err(quota) = allowed {
            self.ingress.seal_for_external_core_failure();
            assert(self.calls().skip(before.len() as int) =~= seq![asked, IngressCall::Seal]);
            return Err(DurableAdmissionError::Quota { quota });
        }
        let reserved = self.ingress.try_reserve(event_count, canonical_bytes, fatal);
        proof {
            let call = IngressCall::Reserve { event_count, canonical_bytes, fatal, reserved };
            assert(self.calls().skip(before.len() as int) =~= seq![asked, call]);
        }
        DurableAdmissionError::answered(reserved)
    }
}

impl DurableAdmissionError {
    /// Takes the ingress's answer to a reservation that the quota has allowed.
    pub fn answered(reserved: Result<(), String>) -> (result: Result<(), DurableAdmissionError>)
        ensures
            result == match reserved {
                Ok(_) => Ok::<(), DurableAdmissionError>(()),
                Err(reason) => Err(DurableAdmissionError::Ingress { reason }),
            },
    {
        match reserved {
            Ok(_) => Ok(()),
            Err(reason) => Err(DurableAdmissionError::Ingress { reason }),
        }
    }
}

/// An event that the quota refuses never reaches the ingress, and after it no event does: the
/// ingress is sealed before the refusal is told.
pub proof fn refused_quota_seals_the_ingress(
    event_count: usize,
    canonical_bytes: usize,
    fatal: bool,
    told: Seq<IngressCall>,
    result: Result<(), DurableAdmissionError>,
)
    requires
        on_reserve(event_count, canonical_bytes, fatal, told, result),
        result matches Err(DurableAdmissionError::Quota { .. }),
    ensures
        told.last() is Seal,
        forall|i: int| 0 <= i < told.len() ==> (#[trigger] told[i]) !is Reserve,
{
}

/// A place for events is reserved exactly where the run may grow by what they take and there is
/// one: as asked for, with as many events and bytes, and as fatal as they are. Where the run may
/// not grow, nothing more is taken and nothing is reserved.
pub proof fn places_are_reserved_as_asked_for(
    event_count: usize,
    canonical_bytes: usize,
    fatal: bool,
    told: Seq<IngressCall>,
    result: Result<(), DurableAdmissionError>,
)
    requires
        on_reserve(event_count, canonical_bytes, fatal, told, result),
    ensures
        ({
            let may = told[0] matches IngressCall::Precheck { allowed, .. } && allowed is Ok;
            &&& told.len() == 2
            &&& told[0] matches IngressCall::Precheck { growth, .. } && growth == canonical_bytes
            &&& told[1] is Seal <==> !may
            &&& told[1] is Reserve <==> may
            &&& told[1] matches IngressCall::Reserve {
                event_count: count,
                canonical_bytes: bytes,
                fatal: last,
                reserved,
            } ==> {
                &&& count == event_count && bytes == canonical_bytes && last == fatal
                &&& result is Ok <==> reserved is Ok
                &&& reserved is Err ==> result->Err_0 is Ingress
            }
            &&& !may ==> result is Err && result->Err_0 is Quota
        }),
{
}

} // verus!
