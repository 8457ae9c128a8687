//! A diagnostic run: its channel, and the failure that it latched first.
use vstd::prelude::*;
use vstd::string::StringExecFns;
use crate::context::{Attempt, DiagnosticProducerError, DiagnosticRunContext, SpanEventAdmission};
use crate::event::EventCandidate;

verus! {

/// Why a producer gave up.
#[derive(Debug, PartialEq, Eq)]
pub enum RuntimeProducerError {
    /// A fact could not be reported.
    Diagnostic(DiagnosticProducerError),
    /// A hook came in a state that does not allow it.
    State { code: &'static str },
}

impl Clone for RuntimeProducerError {
    fn clone(&self) -> (copy: Self)
        ensures
            copy == *self,
    {
        match self {
            RuntimeProducerError::Diagnostic(error) => {
                RuntimeProducerError::Diagnostic(error.clone())
            },
            RuntimeProducerError::State { code } => RuntimeProducerError::State { code: *code },
        }
    }
}

impl RuntimeProducerError {
    pub open spec fn spec_code(self) -> Seq<char> {
        match self {
            RuntimeProducerError::Diagnostic(error) => error.code@,
            RuntimeProducerError::State { code } => code@,
        }
    }

    /// A refusal as a failure.
    pub open spec fn refused(refusal: Option<DiagnosticProducerError>) -> Option<Self> {
        match refusal {
            Some(error) => Some(RuntimeProducerError::Diagnostic(error)),
            None => None,
        }
    }

    pub fn state(code: &'static str) -> (error: Self)
        ensures
            error == (RuntimeProducerError::State { code }),
    {
        RuntimeProducerError::State { code }
    }

    pub fn code(&self) -> (code: &str)
        ensures
            code@ == self.spec_code(),
    {
        match self {
            RuntimeProducerError::Diagnostic(error) => error.code(),
            RuntimeProducerError::State { code } => *code,
        }
    }

    /// The text that describes the error.
    pub open spec fn text(self) -> Seq<char> {
        match self {
            RuntimeProducerError::Diagnostic(error) => error.text(),
            RuntimeProducerError::State { code } => {
                "runtime diagnostic state failed ["@ + code@ + "]"@
            },
        }
    }

    /// Describes the error to a reader.
    pub fn describe(&self) -> (text: String)
        ensures
            text@ == self.text(),
    {
        match self {
            RuntimeProducerError::Diagnostic(error) => error.describe(),
            RuntimeProducerError::State { code } => {
                "runtime diagnostic state failed [".to_owned().concat(*code).concat("]")
            },
        }
    }
}

/// A run that facts are reported through. It keeps the first failure of any of its producers. Runs
/// that report to the same hub keep their failures apart.
pub struct DiagnosticRun<A> {
    pub context: DiagnosticRunContext<A>,
    pub failure: Option<RuntimeProducerError>,
}

impl<A: SpanEventAdmission> DiagnosticRun<A> {
    /// The run after a failure. The first failure stays.
    pub open spec fn with_failure(self, error: RuntimeProducerError) -> Self {
        if self.failure is Some {
            self
        } else {
            DiagnosticRun { context: self.context, failure: Some(error) }
        }
    }

    /// The run after a hook that came in a wrong state.
    pub open spec fn with_state_failure(self, code: &'static str) -> Self {
        self.with_failure(RuntimeProducerError::State { code })
    }

    /// What was tried since `before`.
    pub open spec fn steps_since(self, before: Self) -> Seq<Attempt> {
        self.context.steps_since(before.context)
    }

    /// The sequences of what was reported since `before`.
    pub open spec fn accepted_since(self, before: Self) -> Seq<u64> {
        self.context.accepted_since(before.context)
    }

    /// Something since `before` was refused.
    pub open spec fn stopped_since(self, before: Self) -> bool {
        self.context.stopped_since(before.context)
    }

    /// The facts of a plan were reported, up to a refusal. Nothing else was reported.
    pub open spec fn reports(
        self,
        before: Self,
        plan: spec_fn(Seq<u64>) -> Option<EventCandidate>,
    ) -> bool {
        self.context.reports(before.context, plan)
    }

    /// The facts of a plan were reported, and a refusal was latched.
    pub open spec fn follows(
        self,
        before: Self,
        plan: spec_fn(Seq<u64>) -> Option<EventCandidate>,
    ) -> bool {
        &&& self.reports(before, plan)
        &&& self.failure == if self.stopped_since(before) {
            before.with_failure(
                RuntimeProducerError::Diagnostic(Attempt::refusal(self.steps_since(before))),
            ).failure
        } else {
            before.failure
        }
    }
}

impl EventCandidate {
    /// The plan of one event.
    pub open spec fn alone(self) -> spec_fn(Seq<u64>) -> Option<EventCandidate> {
        |accepted: Seq<u64>|
            if accepted.len() == 0 {
                Some(self)
            } else {
                None
            }
    }
}

impl<A: SpanEventAdmission> DiagnosticRun<A> {
    pub fn new(admission: A) -> (run: Self)
        ensures
            run.context.admission() == admission,
            run.context.trace() == Seq::<Attempt>::empty(),
            run.context.witnessed(),
            run.failure is None,
    {
        DiagnosticRun { context: DiagnosticRunContext::new(admission), failure: None }
    }

    pub fn failure(&self) -> (failure: Option<RuntimeProducerError>)
        ensures
            failure == self.failure,
    {
        match &self.failure {
            Some(failure) => Some(failure.clone()),
            None => None,
        }
    }

    pub fn latch_failure(&mut self, error: RuntimeProducerError)
        ensures
            *final(self) == old(self).with_failure(error),
    {
        if self.failure.is_none() {
            self.failure = Some(error);
        }
    }

    pub fn latch_diagnostic_failure(&mut self, error: DiagnosticProducerError)
        ensures
            *final(self) == old(self).with_failure(RuntimeProducerError::Diagnostic(error)),
    {
        self.latch_failure(RuntimeProducerError::Diagnostic(error));
    }

    pub fn latch_state_failure(&mut self, code: &'static str)
        ensures
            *final(self) == old(self).with_state_failure(code),
    {
        self.latch_failure(RuntimeProducerError::state(code));
    }
}

/// The runs that are open, each at its place.
pub struct DiagnosticRuns<A> {
    pub runs: Vec<DiagnosticRun<A>>,
}

impl<A> View for DiagnosticRuns<A> {
    type V = Seq<DiagnosticRun<A>>;

    open spec fn view(&self) -> Seq<DiagnosticRun<A>> {
        self.runs@
    }
}

impl<A: SpanEventAdmission> DiagnosticRuns<A> {
    /// The runs after `failure` was latched in the run of `owner`, where there are both.
    pub open spec fn latched_at(
        runs: Seq<DiagnosticRun<A>>,
        owner: Option<usize>,
        failure: Option<RuntimeProducerError>,
    ) -> Seq<DiagnosticRun<A>> {
        match (owner, failure) {
            (Some(owner), Some(failure)) => runs.update(
                owner as int,
                runs[owner as int].with_failure(failure),
            ),
            _ => runs,
        }
    }

    /// The runs after one of them has reported through its channel, which is `context` since.
    pub open spec fn reported_at(
        runs: Seq<DiagnosticRun<A>>,
        reporting: usize,
        context: DiagnosticRunContext<A>,
    ) -> Seq<DiagnosticRun<A>> {
        runs.update(
            reporting as int,
            DiagnosticRun { context, failure: runs[reporting as int].failure },
        )
    }

    /// One run has reported, and then `failure` was latched in the run of `owner`.
    pub open spec fn stepped(
        self,
        before: Self,
        reporting: usize,
        owner: Option<usize>,
        failure: Option<RuntimeProducerError>,
    ) -> bool {
        self@ =~= DiagnosticRuns::latched_at(
            DiagnosticRuns::reported_at(before@, reporting, self@[reporting as int].context),
            owner,
            failure,
        )
    }

    /// Only the run at `place` differs from `before`.
    pub open spec fn only_changes(self, before: Self, place: int) -> bool {
        DiagnosticRuns::changes_at(self@, before@, place)
    }

    /// Only the run at `place` differs from `before`.
    pub open spec fn changes_at(
        after: Seq<DiagnosticRun<A>>,
        before: Seq<DiagnosticRun<A>>,
        place: int,
    ) -> bool {
        &&& 0 <= place < before.len()
        &&& after =~= before.update(place, after[place])
    }
}

impl<A: SpanEventAdmission> DiagnosticRuns<A> {
    pub fn new() -> (runs: Self)
        ensures
            runs@ == Seq::<DiagnosticRun<A>>::empty(),
    {
        DiagnosticRuns { runs: Vec::new() }
    }

    /// Opens one more run and gives its place.
    pub fn open(&mut self, admission: A) -> (place: usize)
        ensures
            place == old(self)@.len(),
            final(self)@.len() == old(self)@.len() + 1,
            final(self)@.take(place as int) =~= old(self)@,
            final(self)@[place as int].context.admission() == admission,
            final(self)@[place as int].context.trace() == Seq::<Attempt>::empty(),
            final(self)@[place as int].context.witnessed(),
            final(self)@[place as int].failure is None,
    {
        let place: usize = self.runs.len();
        self.runs.push(DiagnosticRun::new(admission));
        place
    }

    /// Opens one more run that reports through this channel, and gives its place.
    pub fn open_with(&mut self, context: DiagnosticRunContext<A>) -> (place: usize)
        ensures
            place == old(self)@.len(),
            final(self)@ == old(self)@.push(DiagnosticRun { context, failure: None }),
    {
        let place: usize = self.runs.len();
        self.runs.push(DiagnosticRun { context, failure: None });
        place
    }

    /// Latches a failure in the run of `owner`, where there are both.
    pub fn latch_at(&mut self, owner: Option<usize>, failure: Option<RuntimeProducerError>)
        requires
            owner matches Some(owner) ==> owner < old(self)@.len(),
        ensures
            final(self)@.len() == old(self)@.len(),
            final(self)@ == DiagnosticRuns::latched_at(old(self)@, owner, failure),
    {
        if let Some(owner) = owner {
            if let Some(failure) = failure {
                self.runs[owner].latch_failure(failure);
            }
        }
    }
}

/// The first failure of a run stays, whatever fails later.
pub proof fn first_failure_stays<A: SpanEventAdmission>(run: DiagnosticRun<A>, error: RuntimeProducerError)
    ensures
        run.with_failure(error).failure is Some,
        run.failure is Some ==> run.with_failure(error) == run,
        run.with_failure(error).with_failure(error) == run.with_failure(error),
        run.with_failure(error).context == run.context,
{
}

/// A run that reports fails exactly where something was refused and it had not failed before, with
/// what was said then; what was reported before stays.
pub proof fn refusals_fail_the_run<A: SpanEventAdmission>(
    run: DiagnosticRun<A>,
    after: DiagnosticRun<A>,
    plan: spec_fn(Seq<u64>) -> Option<EventCandidate>,
)
    requires
        after.follows(run, plan),
    ensures
        ({
            let facts = after.context.steps_since(run.context);
            let refused = facts.len() > 0 && facts.last().reply is Err;
            &&& run.failure is Some ==> after.failure == run.failure
            &&& run.failure is None ==> (after.failure is Some <==> refused)
            &&& run.failure is None && refused ==> after.failure == Some(
                RuntimeProducerError::Diagnostic(facts.last().reply->Err_0),
            )
        }),
{
}

/// A failure is latched in the run of its owner and in no other, and what was reported stays.
pub proof fn failures_are_latched_at_their_owner<A: SpanEventAdmission>(
    runs: Seq<DiagnosticRun<A>>,
    owner: Option<usize>,
    failure: Option<RuntimeProducerError>,
    place: int,
)
    requires
        owner is Some ==> owner->0 < runs.len(),
        0 <= place < runs.len(),
    ensures
        ({
            let after = DiagnosticRuns::latched_at(runs, owner, failure);
            &&& after.len() == runs.len()
            &&& after[place].context == runs[place].context
            &&& owner != Some(place as usize) || failure is None ==> after[place] == runs[place]
            &&& owner is Some && owner->0 == place && failure is Some && runs[place].failure is None
                ==> after[place].failure == failure
            &&& runs[place].failure is Some ==> after[place] == runs[place]
        }),
{
}

/// What a failure of a run is known by is the code of what failed.
pub proof fn failures_keep_their_codes(error: DiagnosticProducerError, code: &'static str)
    ensures
        RuntimeProducerError::Diagnostic(error).spec_code() == error.code@,
        (RuntimeProducerError::State { code }).spec_code() == code@,
        RuntimeProducerError::refused(Some(error)) is Some,
        RuntimeProducerError::refused(Some(error))->0.spec_code() == error.code@,
        RuntimeProducerError::refused(None) is None,
{
}

} // verus!
