//! The channel through which a run reports its facts.
use vstd::prelude::*;
use vstd::string::StringExecFns;
use crate::event::{
    CausalLink, CounterKind, DiagnosticScope, ErrorCode, EventBody, EventCandidate, InstantDetail,
    ObservationGap, SpanOutcome, SpanStartDetail,
};

verus! {

/// Why the run's clock gave no reading.
#[derive(Debug, PartialEq, Eq)]
pub struct TimeError {
    pub message: String,
}

/// Why the hub refused an event.
#[derive(Debug, PartialEq, Eq)]
pub enum HubRefusal {
    StatePoisoned,
    SequenceExhausted,
    CandidateIdentityMismatch,
    CanonicalEncoding,
    Reference { code: String },
    Reservation,
}

/// A refusal of the hub with its description.
#[derive(Debug, PartialEq, Eq)]
pub struct HubAdmissionError {
    pub refusal: HubRefusal,
    pub message: String,
}

impl HubAdmissionError {
    /// The stable code that a refusal is reported under.
    pub open spec fn producer_code(self) -> Seq<char> {
        match self.refusal {
            HubRefusal::StatePoisoned => "diagnostic.hub-state-poisoned"@,
            HubRefusal::SequenceExhausted => "diagnostic.sequence-exhausted"@,
            HubRefusal::CandidateIdentityMismatch => "diagnostic.candidate-identity-mismatch"@,
            HubRefusal::CanonicalEncoding => "diagnostic.canonical-encoding-failed"@,
            HubRefusal::Reference { code } => "diagnostic.reference-"@ + code@,
            HubRefusal::Reservation => "diagnostic.admission-failed"@,
        }
    }
}

/// One question to the clock or the hub of a run, with what was answered.
pub enum AdmissionCall {
    /// The clock was read.
    Clock { reading: Result<u64, TimeError> },
    /// The hub was handed an event.
    Hub { elapsed_ns: u64, candidate: EventCandidate, verdict: Result<u64, HubAdmissionError> },
    /// The subscribers of acts were to hear of its events.
    Subscribers { installed: Result<(), String> },
}

/// Questions to the clock and the hub of a run, in order.
pub type AdmissionLog = Seq<AdmissionCall>;

/// What a hub is told apart by.
pub type HubIdentity = int;

/// A way to the clock and the hub of a run. Nothing is promised of what they answer, only that it is
/// known what they were asked.
pub trait SpanEventAdmission: Sized {
    /// Every question so far that went this way, with its answer, in order.
    spec fn told(&self) -> AdmissionLog;

    /// The hub that it leads to.
    spec fn hub(&self) -> HubIdentity;

    /// Another way to the same clock and the same hub.
    fn share(&self) -> (other: Self)
        ensures
            other.hub() == self.hub(),
    ;

    /// The nanoseconds since the run began.
    fn elapsed_now(&mut self) -> (reading: Result<u64, TimeError>)
        ensures
            final(self).told() == old(self).told().push(AdmissionCall::Clock { reading }),
            final(self).hub() == old(self).hub(),
    ;

    /// Lets the subscribers of acts hear of the events that go this way, or tells why they cannot.
    fn install_act_subscribers(&mut self) -> (installed: Result<(), String>)
        ensures
            final(self).told() == old(self).told().push(AdmissionCall::Subscribers { installed }),
            final(self).hub() == old(self).hub(),
    ;

    /// Hands an event to the hub, which answers with the sequence that it gave the event.
    fn admit_event(&mut self, elapsed_ns: u64, candidate: &EventCandidate) -> (verdict: Result<
        u64,
        HubAdmissionError,
    >)
        ensures
            final(self).told() == old(self).told().push(
                AdmissionCall::Hub { elapsed_ns, candidate: *candidate, verdict },
            ),
            final(self).hub() == old(self).hub(),
    ;
}

/// Why a fact could not be reported.
#[derive(Debug, PartialEq, Eq)]
pub struct DiagnosticProducerError {
    pub code: String,
    pub message: String,
}

impl Clone for DiagnosticProducerError {
    fn clone(&self) -> (copy: Self)
        ensures
            copy == *self,
    {
        DiagnosticProducerError { code: self.code.clone(), message: self.message.clone() }
    }
}

impl DiagnosticProducerError {
    pub fn new(code: &str, message: &str) -> (error: Self)
        ensures
            error.code@ == code@,
            error.message@ == message@,
    {
        DiagnosticProducerError { code: code.to_owned(), message: message.to_owned() }
    }

    pub fn clock(error: TimeError) -> (reported: Self)
        ensures
            reported.code@ == "diagnostic.elapsed-unavailable"@,
            reported.message == error.message,
    {
        DiagnosticProducerError {
            code: "diagnostic.elapsed-unavailable".to_owned(),
            message: error.message,
        }
    }

    pub fn admission(error: HubAdmissionError) -> (reported: Self)
        ensures
            reported.code@ == error.producer_code(),
            reported.message == error.message,
    {
        let code = match error.refusal {
            HubRefusal::StatePoisoned => "diagnostic.hub-state-poisoned".to_owned(),
            HubRefusal::SequenceExhausted => "diagnostic.sequence-exhausted".to_owned(),
            HubRefusal::CandidateIdentityMismatch => {
                "diagnostic.candidate-identity-mismatch".to_owned()
            },
            HubRefusal::CanonicalEncoding => "diagnostic.canonical-encoding-failed".to_owned(),
            HubRefusal::Reference { code } => {
                "diagnostic.reference-".to_owned().concat(code.as_str())
            },
            HubRefusal::Reservation => "diagnostic.admission-failed".to_owned(),
        };
        DiagnosticProducerError { code, message: error.message }
    }

    /// What is reported of a fact that the hub has answered this of.
    pub open spec fn judged(
        verdict: Result<u64, HubAdmissionError>,
        reply: Result<u64, DiagnosticProducerError>,
    ) -> bool {
        match verdict {
            Ok(sequence) => reply == Ok::<u64, DiagnosticProducerError>(sequence),
            Err(error) => {
                &&& reply matches Err(reported)
                &&& reported.code@ == error.producer_code()
                &&& reported.message == error.message
            },
        }
    }

    /// Takes the hub's answer to a fact.
    pub fn answered(verdict: Result<u64, HubAdmissionError>) -> (reply: Result<
        u64,
        DiagnosticProducerError,
    >)
        ensures
            DiagnosticProducerError::judged(verdict, reply),
    {
        match verdict {
            Ok(sequence) => Ok(sequence),
            Err(error) => Err(DiagnosticProducerError::admission(error)),
        }
    }

    pub fn code(&self) -> (code: &str)
        ensures
            code@ == self.code@,
    {
        self.code.as_str()
    }

    pub fn message(&self) -> (message: &str)
        ensures
            message@ == self.message@,
    {
        self.message.as_str()
    }

    /// The text that describes the error.
    pub open spec fn text(self) -> Seq<char> {
        "diagnostic producer failed ["@ + self.code@ + "]: "@ + self.message@
    }

    /// Describes the error to a reader.
    pub fn describe(&self) -> (text: String)
        ensures
            text@ == self.text(),
    {
        "diagnostic producer failed [".to_owned()
            .concat(self.code.as_str())
            .concat("]: ")
            .concat(self.message.as_str())
    }
}

/// One fact that a run tried to report, and what became of it.
pub struct Attempt {
    pub candidate: EventCandidate,
    pub elapsed: Result<u64, TimeError>,
    pub verdict: Option<Result<u64, HubAdmissionError>>,
    pub reply: Result<u64, DiagnosticProducerError>,
}

/// Who refused a fact.
#[derive(Clone, Copy, Debug, PartialEq, Eq, Structural)]
pub enum ReportFault {
    Clock,
    Hub,
}

impl Attempt {
    /// Who refused the fact, where someone did.
    pub open spec fn fault(self) -> ReportFault {
        if self.elapsed is Err {
            ReportFault::Clock
        } else {
            ReportFault::Hub
        }
    }

    /// The reply says what the clock and the hub answered. The hub is asked exactly when the clock
    /// gave a reading.
    pub open spec fn faithful(self) -> bool {
        match self.elapsed {
            Err(error) => {
                &&& self.verdict is None
                &&& self.reply matches Err(reported)
                &&& reported.code@ == "diagnostic.elapsed-unavailable"@
                &&& reported.message == error.message
            },
            Ok(_) => match self.verdict {
                None => false,
                Some(verdict) => DiagnosticProducerError::judged(verdict, self.reply),
            },
        }
    }

    /// The last attempt was refused.
    pub open spec fn stopped(steps: Seq<Attempt>) -> bool {
        steps.len() > 0 && steps.last().reply is Err
    }

    /// What the refusal of the last attempt said.
    pub open spec fn refusal(steps: Seq<Attempt>) -> DiagnosticProducerError {
        steps.last().reply->Err_0
    }

    /// The sequences that the hub gave, in order.
    pub open spec fn accepted(steps: Seq<Attempt>) -> Seq<u64> {
        Seq::new(
            if Attempt::stopped(steps) { (steps.len() - 1) as nat } else { steps.len() },
            |i: int| steps[i].reply->Ok_0,
        )
    }

    /// The attempts carry out a plan. A plan gives the next event from the sequences of the events
    /// before it, and ends with nothing. The first refusal ends the attempts early. Each reply is
    /// what the clock and the hub answered.
    pub open spec fn carry_out(
        plan: spec_fn(Seq<u64>) -> Option<EventCandidate>,
        steps: Seq<Attempt>,
    ) -> bool {
        &&& forall|i: int|
            0 <= i < steps.len() ==> plan(Attempt::accepted(steps.take(i))) == Some(
                (#[trigger] steps[i]).candidate,
            )
        &&& forall|i: int| 0 <= i < steps.len() - 1 ==> (#[trigger] steps[i]).reply is Ok
        &&& forall|i: int| 0 <= i < steps.len() ==> (#[trigger] steps[i]).faithful()
        &&& !Attempt::stopped(steps) ==> plan(Attempt::accepted(steps)) is None
    }

    /// The sequence of the event at `index`, where the hub has accepted it.
    pub open spec fn nth(accepted: Seq<u64>, index: int) -> Option<u64> {
        if 0 <= index < accepted.len() {
            Some(accepted[index])
        } else {
            None
        }
    }
}

impl Attempt {
    /// What the hub was asked for this fact: nothing, where there was no reading.
    pub open spec fn hub_calls(self) -> Seq<AdmissionCall> {
        match (self.elapsed, self.verdict) {
            (Ok(elapsed_ns), Some(verdict)) => seq![
                AdmissionCall::Hub { elapsed_ns, candidate: self.candidate, verdict },
            ],
            _ => Seq::empty(),
        }
    }

    /// What the clock and the hub were asked for this fact, where its time was read for it.
    pub open spec fn calls(self) -> Seq<AdmissionCall> {
        seq![AdmissionCall::Clock { reading: self.elapsed }] + self.hub_calls()
    }
}

/// What a channel was used for.
pub enum ChannelUse {
    /// A fact was reported. Its time was read for it, or was known.
    Fact { attempt: Attempt, timed: bool },
    /// The clock was read for its own sake.
    Reading { reading: Result<u64, TimeError> },
    /// The subscribers of acts were to hear of the events.
    Subscribers { installed: Result<(), String> },
}

impl ChannelUse {
    /// What the clock and the hub were asked.
    pub open spec fn calls(self) -> Seq<AdmissionCall> {
        match self {
            ChannelUse::Fact { attempt, timed } => if timed {
                attempt.calls()
            } else {
                attempt.hub_calls()
            },
            ChannelUse::Reading { reading } => seq![AdmissionCall::Clock { reading }],
            ChannelUse::Subscribers { installed } => seq![AdmissionCall::Subscribers { installed }],
        }
    }

    /// The facts among the uses, in order.
    pub open spec fn facts(uses: Seq<ChannelUse>) -> Seq<Attempt>
        decreases uses.len(),
    {
        if uses.len() == 0 {
            Seq::empty()
        } else {
            match uses.last() {
                ChannelUse::Fact { attempt, .. } => ChannelUse::facts(uses.drop_last()).push(
                    attempt,
                ),
                _ => ChannelUse::facts(uses.drop_last()),
            }
        }
    }

    /// What the clock gave where it was read for its own sake, in order.
    pub open spec fn readings(uses: Seq<ChannelUse>) -> Seq<Result<u64, TimeError>>
        decreases uses.len(),
    {
        if uses.len() == 0 {
            Seq::empty()
        } else {
            match uses.last() {
                ChannelUse::Reading { reading } => ChannelUse::readings(uses.drop_last()).push(
                    reading,
                ),
                _ => ChannelUse::readings(uses.drop_last()),
            }
        }
    }

    /// Everything that the clock and the hub were asked, in order.
    pub open spec fn all_calls(uses: Seq<ChannelUse>) -> Seq<AdmissionCall>
        decreases uses.len(),
    {
        if uses.len() == 0 {
            Seq::empty()
        } else {
            ChannelUse::all_calls(uses.drop_last()) + uses.last().calls()
        }
    }

    proof fn one_more(uses: Seq<ChannelUse>, last: ChannelUse)
        ensures
            ChannelUse::facts(uses.push(last)) == match last {
                ChannelUse::Fact { attempt, .. } => ChannelUse::facts(uses).push(attempt),
                _ => ChannelUse::facts(uses),
            },
            ChannelUse::readings(uses.push(last)) == match last {
                ChannelUse::Reading { reading } => ChannelUse::readings(uses).push(reading),
                _ => ChannelUse::readings(uses),
            },
            ChannelUse::all_calls(uses.push(last)) == ChannelUse::all_calls(uses) + last.calls(),
    {
        assert(uses.push(last).drop_last() =~= uses);
    }
}

/// The clock and the hub of one run, with a record of what they were used for.
pub struct DiagnosticRunContext<A> {
    admission: A,
    uses: Ghost<Seq<ChannelUse>>,
    earlier: Ghost<Seq<AdmissionCall>>,
}

impl<A> DiagnosticRunContext<A> {
    pub closed spec fn admission(self) -> A {
        self.admission
    }

    /// What the channel was used for.
    pub closed spec fn uses(self) -> Seq<ChannelUse> {
        self.uses@
    }

    /// What the clock and the hub had been asked before the channel was opened.
    pub closed spec fn earlier(self) -> Seq<AdmissionCall> {
        self.earlier@
    }

    /// Every fact that was reported.
    pub closed spec fn trace(self) -> Seq<Attempt> {
        ChannelUse::facts(self.uses@)
    }

    /// What the clock gave where it was read for its own sake.
    pub closed spec fn readings(self) -> Seq<Result<u64, TimeError>> {
        ChannelUse::readings(self.uses@)
    }

    /// What was tried since `before`.
    pub open spec fn steps_since(self, before: Self) -> Seq<Attempt> {
        self.trace().skip(before.trace().len() as int)
    }

    /// The sequences of what was reported since `before`.
    pub open spec fn accepted_since(self, before: Self) -> Seq<u64> {
        Attempt::accepted(self.steps_since(before))
    }

    /// Something since `before` was refused.
    pub open spec fn stopped_since(self, before: Self) -> bool {
        Attempt::stopped(self.steps_since(before))
    }

    /// What was refused since `before`, if anything was.
    pub open spec fn refusal_since(self, before: Self) -> Option<DiagnosticProducerError> {
        if self.stopped_since(before) {
            Some(Attempt::refusal(self.steps_since(before)))
        } else {
            None
        }
    }
}

impl<A: SpanEventAdmission> DiagnosticRunContext<A> {
    /// The record is what the clock and the hub were asked and have answered: nothing is in it that
    /// they were not asked, and they were asked nothing else.
    pub closed spec fn witnessed(self) -> bool {
        self.admission().told() == self.earlier() + ChannelUse::all_calls(self.uses())
    }

    /// A record that was true stays true, and the hub is the same.
    pub open spec fn stays_witnessed(self, before: Self) -> bool {
        &&& self.admission().hub() == before.admission().hub()
        &&& self.earlier() == before.earlier()
        &&& before.witnessed() ==> self.witnessed()
    }

    /// The trace begins with what it was before.
    pub open spec fn extends(self, before: Self) -> bool {
        &&& before.trace().len() <= self.trace().len()
        &&& before.trace() =~= self.trace().take(before.trace().len() as int)
        &&& self.readings() == before.readings()
        &&& self.stays_witnessed(before)
    }

    /// The facts of a plan were reported, up to a refusal. Nothing else was reported.
    pub open spec fn reports(
        self,
        before: Self,
        plan: spec_fn(Seq<u64>) -> Option<EventCandidate>,
    ) -> bool {
        &&& self.extends(before)
        &&& Attempt::carry_out(plan, self.steps_since(before))
    }

    /// One more fact was reported.
    pub open spec fn reported(
        self,
        before: Self,
        candidate: EventCandidate,
        reply: Result<u64, DiagnosticProducerError>,
    ) -> bool {
        &&& self.trace() == before.trace().push(self.trace().last())
        &&& self.trace().last().candidate == candidate
        &&& self.trace().last().reply == reply
        &&& self.trace().last().faithful()
        &&& self.readings() == before.readings()
        &&& self.stays_witnessed(before)
    }

    pub fn new(admission: A) -> (context: Self)
        ensures
            context.admission() == admission,
            context.trace() == Seq::<Attempt>::empty(),
            context.readings() == Seq::<Result<u64, TimeError>>::empty(),
            context.earlier() == admission.told(),
            context.witnessed(),
    {
        let ghost told = admission.told();
        let context = DiagnosticRunContext {
            admission,
            uses: Ghost(Seq::empty()),
            earlier: Ghost(told),
        };
        assert(context.admission().told() =~= context.earlier() + ChannelUse::all_calls(
            context.uses(),
        ));
        context
    }

    /// Another channel to the same hub, of which nothing was made yet.
    pub open spec fn is_share_of(self, other: Self) -> bool {
        &&& self.admission().hub() == other.admission().hub()
        &&& self.trace() == Seq::<Attempt>::empty()
        &&& self.readings() == Seq::<Result<u64, TimeError>>::empty()
        &&& self.witnessed()
    }

    pub fn share(&self) -> (other: Self)
        ensures
            other.is_share_of(*self),
    {
        DiagnosticRunContext::new(self.admission.share())
    }

    /// The channel was used once more, and the clock and the hub were asked for exactly that.
    proof fn used(self, before: Self, last: ChannelUse)
        requires
            self.uses() == before.uses().push(last),
            self.earlier() == before.earlier(),
            self.admission().hub() == before.admission().hub(),
            self.admission().told() == before.admission().told() + last.calls(),
        ensures
            self.stays_witnessed(before),
            self.trace() == match last {
                ChannelUse::Fact { attempt, .. } => before.trace().push(attempt),
                _ => before.trace(),
            },
            self.readings() == match last {
                ChannelUse::Reading { reading } => before.readings().push(reading),
                _ => before.readings(),
            },
    {
        ChannelUse::one_more(before.uses(), last);
        if before.witnessed() {
            assert(self.admission().told() =~= self.earlier() + ChannelUse::all_calls(self.uses()));
        }
    }

    /// Reads the clock and hands the event to the hub.
    pub fn report(&mut self, candidate: EventCandidate) -> (reply: Result<
        u64,
        DiagnosticProducerError,
    >)
        ensures
            final(self).reported(*old(self), candidate, reply),
            final(self).admission().told() == old(self).admission().told()
                + final(self).trace().last().calls(),
    {
        let ghost before = *self;
        match self.admission.elapsed_now() {
            Err(error) => {
                let ghost elapsed: Result<u64, TimeError> = Err(error);
                let reply = Err(DiagnosticProducerError::clock(error));
                proof {
                    let attempt = Attempt { candidate, elapsed, verdict: None, reply };
                    let last = ChannelUse::Fact { attempt, timed: true };
                    self.uses@ = before.uses@.push(last);
                    assert(self.admission().told() =~= before.admission().told() + last.calls());
                    self.used(before, last);
                }
                reply
            },
            Ok(elapsed_ns) => {
                let verdict = self.admission.admit_event(elapsed_ns, &candidate);
                let ghost heard = verdict;
                let reply = DiagnosticProducerError::answered(verdict);
                proof {
                    let attempt = Attempt {
                        candidate,
                        elapsed: Ok(elapsed_ns),
                        verdict: Some(heard),
                        reply,
                    };
                    let last = ChannelUse::Fact { attempt, timed: true };
                    self.uses@ = before.uses@.push(last);
                    assert(self.admission().told() =~= before.admission().told() + last.calls());
                    self.used(before, last);
                }
                reply
            },
        }
    }

    /// The subscribers of acts were to hear of the events of the channel, and nothing else happened.
    pub open spec fn subscribed(self, before: Self, installed: Result<(), String>) -> bool {
        &&& self.trace() == before.trace()
        &&& self.readings() == before.readings()
        &&& self.stays_witnessed(before)
        &&& self.admission().told() == before.admission().told().push(
            AdmissionCall::Subscribers { installed },
        )
    }

    /// Lets the subscribers of acts hear of the events of the channel.
    pub fn install_act_subscribers(&mut self) -> (installed: Result<(), String>)
        ensures
            final(self).subscribed(*old(self), installed),
    {
        let ghost before = *self;
        let installed = self.admission.install_act_subscribers();
        proof {
            let last = ChannelUse::Subscribers { installed };
            self.uses@ = before.uses@.push(last);
            assert(self.admission().told() =~= before.admission().told() + last.calls());
            self.used(before, last);
        }
        installed
    }

    /// Reads the clock.
    pub fn read_clock(&mut self) -> (reading: Option<u64>)
        ensures
            final(self).trace() == old(self).trace(),
            final(self).readings() == old(self).readings().push(final(self).readings().last()),
            final(self).stays_witnessed(*old(self)),
            final(self).admission().told() == old(self).admission().told().push(
                AdmissionCall::Clock { reading: final(self).readings().last() },
            ),
            match reading {
                Some(elapsed_ns) => final(self).readings().last() == Ok::<u64, TimeError>(
                    elapsed_ns,
                ),
                None => final(self).readings().last() is Err,
            },
    {
        let ghost before = *self;
        let answer = self.admission.elapsed_now();
        proof {
            let last = ChannelUse::Reading { reading: answer };
            self.uses@ = before.uses@.push(last);
            assert(self.admission().told() =~= before.admission().told() + last.calls());
            self.used(before, last);
        }
        match answer {
            Ok(elapsed_ns) => Some(elapsed_ns),
            Err(_) => None,
        }
    }

    /// Hands the hub an event that happened at `elapsed_ns`.
    pub fn report_at(&mut self, elapsed_ns: u64, candidate: EventCandidate) -> (reply: Result<
        u64,
        DiagnosticProducerError,
    >)
        ensures
            final(self).reported(*old(self), candidate, reply),
            final(self).trace().last().elapsed == Ok::<u64, TimeError>(elapsed_ns),
            final(self).admission().told() == old(self).admission().told()
                + final(self).trace().last().hub_calls(),
    {
        let ghost before = *self;
        let verdict = self.admission.admit_event(elapsed_ns, &candidate);
        let ghost heard = verdict;
        let reply = DiagnosticProducerError::answered(verdict);
        proof {
            let attempt = Attempt {
                candidate,
                elapsed: Ok(elapsed_ns),
                verdict: Some(heard),
                reply,
            };
            let last = ChannelUse::Fact { attempt, timed: false };
            self.uses@ = before.uses@.push(last);
            assert(self.admission().told() =~= before.admission().told() + last.calls());
            self.used(before, last);
        }
        reply
    }

    /// Reads the clock and hands the event to the hub. Says which of the two refused.
    pub fn report_or_why(&mut self, candidate: EventCandidate) -> (reply: Result<
        u64,
        ReportFault,
    >)
        ensures
            final(self).reported(*old(self), candidate, final(self).trace().last().reply),
            final(self).admission().told() == old(self).admission().told()
                + final(self).trace().last().calls(),
            match reply {
                Ok(sequence) => final(self).trace().last().reply == Ok::<
                    u64,
                    DiagnosticProducerError,
                >(sequence),
                Err(fault) => {
                    &&& final(self).trace().last().reply is Err
                    &&& fault == final(self).trace().last().fault()
                },
            },
    {
        let ghost before = *self;
        match self.admission.elapsed_now() {
            Err(error) => {
                let ghost elapsed: Result<u64, TimeError> = Err(error);
                let refused = DiagnosticProducerError::clock(error);
                proof {
                    let attempt = Attempt {
                        candidate,
                        elapsed,
                        verdict: None,
                        reply: Err(refused),
                    };
                    let last = ChannelUse::Fact { attempt, timed: true };
                    self.uses@ = before.uses@.push(last);
                    assert(self.admission().told() =~= before.admission().told() + last.calls());
                    self.used(before, last);
                }
                Err(ReportFault::Clock)
            },
            Ok(elapsed_ns) => {
                let verdict = self.admission.admit_event(elapsed_ns, &candidate);
                let ghost heard = verdict;
                let answered = DiagnosticProducerError::answered(verdict);
                proof {
                    let attempt = Attempt {
                        candidate,
                        elapsed: Ok(elapsed_ns),
                        verdict: Some(heard),
                        reply: answered,
                    };
                    let last = ChannelUse::Fact { attempt, timed: true };
                    self.uses@ = before.uses@.push(last);
                    assert(self.admission().told() =~= before.admission().told() + last.calls());
                    self.used(before, last);
                }
                match answered {
                    Ok(sequence) => Ok(sequence),
                    Err(_) => Err(ReportFault::Hub),
                }
            },
        }
    }

    pub fn start_span(
        &mut self,
        scope: DiagnosticScope,
        detail: SpanStartDetail,
        parent_span_id: Option<u64>,
    ) -> (reply: Result<u64, DiagnosticProducerError>)
        ensures
            final(self).reported(
                *old(self),
                EventCandidate::started(scope, detail, parent_span_id, None),
                reply,
            ),
    {
        self.start_span_with_causes(scope, detail, parent_span_id, None)
    }

    pub fn start_span_with_causes(
        &mut self,
        scope: DiagnosticScope,
        detail: SpanStartDetail,
        parent_span_id: Option<u64>,
        cause: Option<CausalLink>,
    ) -> (reply: Result<u64, DiagnosticProducerError>)
        ensures
            final(self).reported(
                *old(self),
                EventCandidate::started(scope, detail, parent_span_id, cause),
                reply,
            ),
    {
        self.report(
            EventCandidate { unheard: false, scope, cause, body: EventBody::SpanStarted { detail, parent_span_id } },
        )
    }

    pub fn finish_span(
        &mut self,
        scope: DiagnosticScope,
        span_id: u64,
        outcome: SpanOutcome,
        error_code: Option<ErrorCode>,
    ) -> (reply: Result<(), DiagnosticProducerError>)
        ensures
            final(self).reported(
                *old(self),
                EventCandidate::finished(scope, span_id, outcome, error_code, None),
                final(self).trace().last().reply,
            ),
            match reply {
                Ok(()) => final(self).trace().last().reply is Ok,
                Err(error) => final(self).trace().last().reply == Err::<
                    u64,
                    DiagnosticProducerError,
                >(error),
            },
    {
        match self.finish_span_with_causes(scope, span_id, outcome, error_code, None) {
            Ok(_) => Ok(()),
            Err(error) => Err(error),
        }
    }

    pub fn finish_span_with_causes(
        &mut self,
        scope: DiagnosticScope,
        span_id: u64,
        outcome: SpanOutcome,
        error_code: Option<ErrorCode>,
        cause: Option<CausalLink>,
    ) -> (reply: Result<u64, DiagnosticProducerError>)
        ensures
            final(self).reported(
                *old(self),
                EventCandidate::finished(scope, span_id, outcome, error_code, cause),
                reply,
            ),
    {
        self.report(
            EventCandidate {
                unheard: false,
                scope,
                cause,
                body: EventBody::SpanFinished { span_id, outcome, error_code },
            },
        )
    }

    pub fn emit_instant(
        &mut self,
        scope: DiagnosticScope,
        detail: InstantDetail,
        containing_span_id: Option<u64>,
    ) -> (reply: Result<u64, DiagnosticProducerError>)
        ensures
            final(self).reported(
                *old(self),
                EventCandidate::instant(scope, detail, containing_span_id, None),
                reply,
            ),
    {
        self.emit_instant_with_causes(scope, detail, containing_span_id, None)
    }

    pub fn emit_instant_with_causes(
        &mut self,
        scope: DiagnosticScope,
        detail: InstantDetail,
        containing_span_id: Option<u64>,
        cause: Option<CausalLink>,
    ) -> (reply: Result<u64, DiagnosticProducerError>)
        ensures
            final(self).reported(
                *old(self),
                EventCandidate::instant(scope, detail, containing_span_id, cause),
                reply,
            ),
    {
        self.report(
            EventCandidate {
                unheard: false,
                scope,
                cause,
                body: EventBody::InstantOccurred { instant: detail, containing_span_id },
            },
        )
    }

    pub fn emit_counter(
        &mut self,
        scope: DiagnosticScope,
        kind: CounterKind,
        value: u64,
        cause: Option<CausalLink>,
    ) -> (reply: Result<u64, DiagnosticProducerError>)
        ensures
            final(self).reported(
                *old(self),
                EventCandidate::counter(scope, kind, value, cause),
                reply,
            ),
    {
        self.report(
            EventCandidate { unheard: false, scope, cause, body: EventBody::CounterSampled { kind, value } },
        )
    }

    pub fn emit_observation_gap(
        &mut self,
        scope: DiagnosticScope,
        gap: ObservationGap,
        cause: Option<CausalLink>,
    ) -> (reply: Result<u64, DiagnosticProducerError>)
        ensures
            final(self).reported(
                *old(self),
                EventCandidate { unheard: false, scope, cause, body: EventBody::ObservationGap(gap) },
                reply,
            ),
    {
        self.report(EventCandidate { unheard: false, scope, cause, body: EventBody::ObservationGap(gap) })
    }

    /// Reports a moment that no subscriber of an act hears of.
    pub fn emit_instant_without_act_subscriber(
        &mut self,
        scope: DiagnosticScope,
        detail: InstantDetail,
        containing_span_id: Option<u64>,
    ) -> (reply: Result<u64, DiagnosticProducerError>)
        ensures
            final(self).reported(
                *old(self),
                EventCandidate::instant(scope, detail, containing_span_id, None).without_act_subscriber(),
                reply,
            ),
    {
        self.report(
            EventCandidate {
                unheard: true,
                scope,
                cause: None,
                body: EventBody::InstantOccurred { instant: detail, containing_span_id },
            },
        )
    }

    /// Reports a sampled number that no subscriber of an act hears of.
    pub fn emit_counter_without_act_subscriber(
        &mut self,
        scope: DiagnosticScope,
        kind: CounterKind,
        value: u64,
        cause: Option<CausalLink>,
    ) -> (reply: Result<u64, DiagnosticProducerError>)
        ensures
            final(self).reported(
                *old(self),
                EventCandidate::counter(scope, kind, value, cause).without_act_subscriber(),
                reply,
            ),
    {
        self.report(
            EventCandidate {
                unheard: true,
                scope,
                cause,
                body: EventBody::CounterSampled { kind, value },
            },
        )
    }
}

/// What a hub refuses is told under the code of its reason, and under no other: each reason has a
/// code of its own, and that of a reference names what was wrong with it.
pub proof fn refusals_keep_their_reasons(error: HubAdmissionError)
    ensures
        error.refusal is StatePoisoned <==> error.producer_code()
            == "diagnostic.hub-state-poisoned"@,
        error.refusal is SequenceExhausted <==> error.producer_code()
            == "diagnostic.sequence-exhausted"@,
        error.refusal is CandidateIdentityMismatch <==> error.producer_code()
            == "diagnostic.candidate-identity-mismatch"@,
        error.refusal is CanonicalEncoding <==> error.producer_code()
            == "diagnostic.canonical-encoding-failed"@,
        error.refusal is Reservation <==> error.producer_code() == "diagnostic.admission-failed"@,
        error.refusal matches HubRefusal::Reference { code } ==> error.producer_code()
            == "diagnostic.reference-"@ + code@,
{
    reveal_strlit("diagnostic.hub-state-poisoned");
    reveal_strlit("diagnostic.sequence-exhausted");
    reveal_strlit("diagnostic.candidate-identity-mismatch");
    reveal_strlit("diagnostic.canonical-encoding-failed");
    reveal_strlit("diagnostic.admission-failed");
    reveal_strlit("diagnostic.reference-");
    let told = error.producer_code();
    assert("diagnostic.hub-state-poisoned"@[11] == 'h');
    assert("diagnostic.sequence-exhausted"@[11] == 's');
    assert("diagnostic.candidate-identity-mismatch"@[11] == 'c');
    assert("diagnostic.candidate-identity-mismatch"@[13] == 'n');
    assert("diagnostic.candidate-identity-mismatch"@[14] == 'd');
    assert("diagnostic.canonical-encoding-failed"@[11] == 'c');
    assert("diagnostic.canonical-encoding-failed"@[14] == 'o');
    assert("diagnostic.admission-failed"@[11] == 'a');
    assert("diagnostic.reference-"@[11] == 'r');
    if let HubRefusal::Reference { code } = error.refusal {
        assert(told[11] == 'r');
    }
}

/// A fact is accepted exactly where the clock gave a reading and the hub took the fact, under the
/// number that the hub gave. What is refused is told with the words of who refused it.
pub proof fn replies_are_what_was_answered(attempt: Attempt)
    requires
        attempt.faithful(),
    ensures
        attempt.reply is Ok <==> attempt.elapsed is Ok && attempt.verdict is Some
            && attempt.verdict->0 is Ok,
        attempt.reply matches Ok(sequence) ==> sequence == attempt.verdict->0->Ok_0,
        attempt.verdict is Some <==> attempt.elapsed is Ok,
        attempt.elapsed matches Err(error) ==> attempt.reply->Err_0.message == error.message
            && attempt.reply->Err_0.code@ == "diagnostic.elapsed-unavailable"@,
        attempt.elapsed is Ok && attempt.reply is Err ==> attempt.reply->Err_0.message
            == attempt.verdict->0->Err_0.message,
        attempt.reply is Err ==> (attempt.fault() is Clock <==> attempt.elapsed is Err),
{
}

} // verus!
