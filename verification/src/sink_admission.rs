//! How an act is admitted: what is acquired for it, step by step, and what is given back when a
//! step fails.
use crate::act_registry::{
    ActRegistry, AgentTurnControl, PreparedActAdmission, StandaloneActAdmission,
};
use crate::agent::{AgentSessionDiagnosticMetadata, AgentTurnDiagnosticIdentity};
use crate::context::SpanEventAdmission;
use crate::cue_producer::CueLineageSnapshot;
use crate::custom_act_binding::{
    ActAuthorities, ActAuthorityError, CuedRef, LineageReplacement, Lookup, PreparedActAuthority,
    TaskRef,
};
use crate::event::RunLocalId;
use crate::hooks::{DiagnosticAdmissionProfile, DiagnosticCaptureConfig};
use crate::identifier::same_text;
use crate::run::{DiagnosticRuns, RuntimeProducerError};
use crate::runtime_producer::RuntimeProducerRegistry;
use crate::scene_producer::TaskLineage;
use crate::sink_binding::{bind_usage, capability_path, CapabilityPath, UsageBinding};
use crate::sink_registry::{ActSinkRegistry, ActSubscriber, StandaloneLineage};
use vstd::prelude::*;
use vstd::string::StringExecFns;

verus! {

/// What the state of a sink allows.
#[derive(Clone, Copy, Debug, PartialEq, Eq, Structural)]
pub enum SinkStatePath {
    /// The sink can be bound.
    Fresh,
    /// The sink was bound before: its own bind method says what is wrong.
    Used,
    /// The state is none of those that a sink can have.
    Corrupt,
}

/// Chooses by the state of a sink.
pub fn sink_state_path(state: &str) -> (path: SinkStatePath)
    ensures
        path == if state@ == "UNBOUND"@ {
            SinkStatePath::Fresh
        } else if state@ == "BOUND"@ || state@ == "SEALED"@ || state@ == "CLOSED"@ {
            SinkStatePath::Used
        } else {
            SinkStatePath::Corrupt
        },
{
    if same_text(state, "UNBOUND") {
        return SinkStatePath::Fresh;
    }
    if same_text(state, "BOUND") || same_text(state, "SEALED") || same_text(state, "CLOSED") {
        return SinkStatePath::Used;
    }
    SinkStatePath::Corrupt
}

/// Why something that an act needs was not to be had.
#[derive(Debug, PartialEq, Eq)]
pub enum AdmissionFault {
    /// User code raised an error, which speaks for itself.
    Raised,
    Refused { reason: String },
}

/// Why an act was not admitted.
#[derive(Debug, PartialEq, Eq)]
pub enum AdmissionError {
    /// User code raised an error, which speaks for itself.
    Raised,
    Authority { error: ActAuthorityError },
    AlreadyRegistered,
    Failed { text: String },
}

impl AdmissionError {
    /// The error that a fault becomes. What was refused is told after `prefix`.
    pub open spec fn tells(self, prefix: Seq<char>, fault: AdmissionFault) -> bool {
        match fault {
            AdmissionFault::Raised => self is Raised,
            AdmissionFault::Refused { reason } => {
                self matches AdmissionError::Failed { text } && text@ == prefix + reason@
            },
        }
    }

    /// What the error says. An error that was raised speaks for itself.
    pub open spec fn text(self) -> Option<Seq<char>> {
        match self {
            AdmissionError::Raised => None,
            AdmissionError::Authority { error } => match error.spec_message() {
                Some(message) => Some(message@),
                None => None,
            },
            AdmissionError::AlreadyRegistered => Some(
                "diagnostic Act subscriber identity is already registered"@,
            ),
            AdmissionError::Failed { text } => Some(text@),
        }
    }

    /// Describes the error to a reader, unless it was raised.
    pub fn describe(&self) -> (text: Option<String>)
        ensures
            match text {
                Some(text) => self.text() == Some(text@),
                None => self.text() is None,
            },
    {
        match self {
            AdmissionError::Raised => None,
            AdmissionError::Authority { error } => match error.message() {
                Some(message) => Some(message.to_owned()),
                None => None,
            },
            AdmissionError::AlreadyRegistered => Some(
                "diagnostic Act subscriber identity is already registered".to_owned(),
            ),
            AdmissionError::Failed { text } => Some(text.clone()),
        }
    }

    fn of(prefix: &str, fault: AdmissionFault) -> (error: Self)
        ensures
            error.tells(prefix@, fault),
    {
        match fault {
            AdmissionFault::Raised => AdmissionError::Raised,
            AdmissionFault::Refused { reason } => {
                AdmissionError::Failed { text: prefix.to_owned().concat(reason.as_str()) }
            },
        }
    }
}

/// The error of an act without a context.
pub open spec fn admission_state_text(code: Seq<char>) -> Seq<char> {
    "diagnostic sink admission failed ["@ + code + "]"@
}

/// Describes why a sink was not admitted.
pub fn admission_state_error(code: &'static str) -> (error: AdmissionError)
    ensures
        error matches AdmissionError::Failed { text } && text@ == admission_state_text(code@),
{
    AdmissionError::Failed {
        text: "diagnostic sink admission failed [".to_owned().concat(code).concat("]"),
    }
}

/// The error of a process that has no diagnostics for acts without a production.
pub fn standalone_error(reason: &str) -> (error: AdmissionError)
    ensures
        error matches AdmissionError::Failed { text } && text@
            == "initialize standalone diagnostics: "@ + reason@,
{
    AdmissionError::Failed { text: "initialize standalone diagnostics: ".to_owned().concat(reason) }
}

/// What an act without a production is admitted with, of what was named for it and what is known of
/// its session.
pub open spec fn is_standalone_act(
    run: usize,
    lineage: Result<StandaloneLineage, &'static str>,
    session: Result<AgentSessionDiagnosticMetadata, String>,
    result: Result<StandaloneActAdmission, AdmissionError>,
) -> bool {
    match (lineage, session) {
        (Err(code), _) => {
            &&& result is Err
            &&& result->Err_0 is Failed
            &&& result->Err_0->text@ == admission_state_text(code@)
        },
        (Ok(_), Err(reason)) => {
            &&& result is Err
            &&& result->Err_0 is Failed
            &&& result->Err_0->text@ == "snapshot standalone diagnostic session: "@ + reason@
        },
        (Ok(lineage), Ok(session)) => result == Ok::<_, AdmissionError>(
            StandaloneActAdmission { run, cue_scope: lineage.cue_scope, session },
        ),
    }
}

/// What an act without a production is admitted with: what it belongs to, and what is known of its
/// session. `lineage` is what was named for it in the run at `run`.
pub fn standalone_act(
    run: usize,
    lineage: Result<StandaloneLineage, &'static str>,
    session: Result<AgentSessionDiagnosticMetadata, String>,
) -> (result: Result<StandaloneActAdmission, AdmissionError>)
    ensures
        is_standalone_act(run, lineage, session, result),
{
    let lineage = match lineage {
        Ok(lineage) => lineage,
        Err(code) => return Err(admission_state_error(code)),
    };
    match session {
        Ok(session) => Ok(StandaloneActAdmission { run, cue_scope: lineage.cue_scope, session }),
        Err(reason) => Err(
            AdmissionError::Failed {
                text: "snapshot standalone diagnostic session: ".to_owned().concat(
                    reason.as_str(),
                ),
            },
        ),
    }
}

/// Prepares an act for a sink. Such an act has to have a run, or one of its own.
pub fn prepare<A: SpanEventAdmission>(
    acts: &mut ActRegistry,
    runs: &mut DiagnosticRuns<A>,
    runtime_run: Option<usize>,
    lineage: Option<CueLineageSnapshot>,
    control: &AgentTurnControl,
    standalone: Option<StandaloneActAdmission>,
) -> (result: Result<PreparedActAdmission, AdmissionError>)
    requires
        old(acts).wf(),
        old(acts).fits(*old(runs)),
        runtime_run matches Some(run) ==> run < old(runs)@.len(),
        standalone matches Some(standalone) ==> standalone.run < old(runs)@.len(),
    ensures
        final(acts).wf(),
        final(acts).fits(*final(runs)),
        final(runs)@.len() == old(runs)@.len(),
        is_preparation(
            *old(acts),
            *final(acts),
            *old(runs),
            *final(runs),
            ActRegistry::spec_source(runtime_run, lineage, *control, standalone),
            control.key,
            result,
        ),
{
    let ghost source = ActRegistry::spec_source(runtime_run, lineage, *control, standalone);
    match acts.prepare_admission(runs, runtime_run, lineage, control, standalone) {
        Err(error) => {
            assert(old(acts).on_prepare(
                *acts,
                *old(runs),
                *runs,
                source,
                control.key,
                Err(error),
            ));
            Err(AdmissionError::Failed { text: error.describe() })
        },
        Ok(None) => Err(
            AdmissionError::Failed {
                text: "diagnostic Act admission capability has no producer context".to_owned(),
            },
        ),
        Ok(Some(prepared)) => Ok(prepared),
    }
}

/// What came of preparing an act for a sink.
pub open spec fn is_preparation<A: SpanEventAdmission>(
    acts: ActRegistry,
    acts_after: ActRegistry,
    runs: DiagnosticRuns<A>,
    runs_after: DiagnosticRuns<A>,
    source: crate::act_registry::ActAdmissionSource,
    control_key: usize,
    result: Result<PreparedActAdmission, AdmissionError>,
) -> bool {
    match result {
        Ok(prepared) => acts.on_prepare(
            acts_after,
            runs,
            runs_after,
            source,
            control_key,
            Ok(Some(prepared)),
        ),
        Err(error) => error is Failed && unprepared(
            acts,
            acts_after,
            runs,
            runs_after,
            source,
            control_key,
            error->text@,
        ),
    }
}

/// There is no act, and `text` says why.
pub open spec fn unprepared<A: SpanEventAdmission>(
    acts: ActRegistry,
    acts_after: ActRegistry,
    runs: DiagnosticRuns<A>,
    runs_after: DiagnosticRuns<A>,
    source: crate::act_registry::ActAdmissionSource,
    control_key: usize,
    text: Seq<char>,
) -> bool {
    ||| {
        &&& acts.on_prepare(acts_after, runs, runs_after, source, control_key, Ok(None))
        &&& text == "diagnostic Act admission capability has no producer context"@
    }
    ||| refused_preparation(acts, acts_after, runs, runs_after, source, control_key, text)
}

/// The act cannot be prepared, and `text` says why.
pub open spec fn refused_preparation<A: SpanEventAdmission>(
    acts: ActRegistry,
    acts_after: ActRegistry,
    runs: DiagnosticRuns<A>,
    runs_after: DiagnosticRuns<A>,
    source: crate::act_registry::ActAdmissionSource,
    control_key: usize,
    text: Seq<char>,
) -> bool {
    exists|error: crate::act_registry::ActAdmissionPrepareError|
        {
            &&& #[trigger] acts.on_prepare(
                acts_after,
                runs,
                runs_after,
                source,
                control_key,
                Err(error),
            )
            &&& text == "Act diagnostic admission failed ["@ + error.code@ + "]"@
        }
}

/// What an act needs, in the order in which it is acquired.
#[derive(Clone, Copy, Debug, PartialEq, Eq, Structural)]
pub enum AdmissionNeed {
    /// The sink is known to the runtime of sinks.
    SinkRegistration,
    /// Failures of the sink are heard of.
    FailureObserver,
    /// The authority of the act ends with the act.
    AuthorityExpiry,
    /// The turn reports to the run.
    TurnContext,
    /// The task that admits the act has the caller's share.
    CallerShare,
    /// The sink is bound.
    SinkBinding,
}

/// What stands behind the admission of an act. Nothing is promised of what it answers, only that it
/// is known what was asked of it.
pub trait AdmissionResources {
    /// Every step so far.
    spec fn steps(&self) -> AdmissionSteps;

    /// Every lineage that was to be given back so far.
    spec fn given_back(&self) -> AdmissionReturns;

    /// All usage that was to be bound so far.
    spec fn usages(&self) -> UsageSteps;

    fn register_sink(&mut self, act_id: &RunLocalId) -> (sink: Result<u64, AdmissionFault>)
        ensures
            final(self).steps() == old(self).steps().push(
                AdmissionStep::SinkRegistration { act_id: act_id@, sink },
            ),
            final(self).given_back() == old(self).given_back(),
            final(self).usages() == old(self).usages(),
    ;

    fn install_failure_observer(&mut self, sink_id: u64) -> (answer: Result<(), AdmissionFault>)
        ensures
            final(self).steps() == old(self).steps().push(
                AdmissionStep::FailureObserver { sink_id, answer },
            ),
            final(self).given_back() == old(self).given_back(),
            final(self).usages() == old(self).usages(),
    ;

    fn install_authority_expiry(&mut self, authority: usize) -> (answer: Result<(), AdmissionFault>)
        ensures
            final(self).steps() == old(self).steps().push(
                AdmissionStep::AuthorityExpiry { authority, answer },
            ),
            final(self).given_back() == old(self).given_back(),
            final(self).usages() == old(self).usages(),
    ;

    /// Gives a turn its context, with what a sink captures of tools.
    fn install_diagnostic_context(
        &mut self,
        identity: &AgentTurnDiagnosticIdentity,
        capture: DiagnosticCaptureConfig,
    ) -> (answer: Result<(), AdmissionFault>)
        ensures
            final(self).steps() == old(self).steps().push(
                AdmissionStep::TurnContext { identity: *identity, capture, answer },
            ),
            final(self).given_back() == old(self).given_back(),
            final(self).usages() == old(self).usages(),
    ;

    /// Gives the caller's share to a task, where the task still has the lineage that is expected.
    fn share_lineage(&mut self, replacement: &LineageReplacement) -> (replaced: bool)
        ensures
            final(self).steps() == old(self).steps().push(
                AdmissionStep::CallerShare { replacement: *replacement, replaced },
            ),
            final(self).given_back() == old(self).given_back(),
            final(self).usages() == old(self).usages(),
    ;

    /// Gives a lineage back to a task, where the task still has the share that is expected.
    fn give_lineage_back(&mut self, replacement: &LineageReplacement) -> (replaced: bool)
        ensures
            final(self).steps() == old(self).steps(),
            final(self).given_back() == old(self).given_back().push(
                AdmissionReturn { replacement: *replacement, replaced },
            ),
            final(self).usages() == old(self).usages(),
    ;

    fn bind_sink(&mut self) -> (answer: Result<(), AdmissionFault>)
        ensures
            final(self).steps() == old(self).steps().push(
                AdmissionStep::SinkBinding { answer },
            ),
            final(self).given_back() == old(self).given_back(),
            final(self).usages() == old(self).usages(),
    ;

    fn bind_usage(&mut self, act_id: &str) -> (binding: UsageBinding)
        ensures
            final(self).steps() == old(self).steps(),
            final(self).given_back() == old(self).given_back(),
            final(self).usages() == old(self).usages().push(
                UsageStep { act_id: act_id@, binding },
            ),
    ;
}

/// One step of an admission, with what was answered.
pub enum AdmissionStep {
    SinkRegistration { act_id: Seq<char>, sink: Result<u64, AdmissionFault> },
    FailureObserver { sink_id: u64, answer: Result<(), AdmissionFault> },
    AuthorityExpiry { authority: usize, answer: Result<(), AdmissionFault> },
    TurnContext {
        identity: AgentTurnDiagnosticIdentity,
        capture: DiagnosticCaptureConfig,
        answer: Result<(), AdmissionFault>,
    },
    CallerShare { replacement: LineageReplacement, replaced: bool },
    SinkBinding { answer: Result<(), AdmissionFault> },
}

impl AdmissionStep {
    pub open spec fn succeeded(self) -> bool {
        match self {
            AdmissionStep::SinkRegistration { sink, .. } => sink is Ok,
            AdmissionStep::FailureObserver { answer, .. } => answer is Ok,
            AdmissionStep::AuthorityExpiry { answer, .. } => answer is Ok,
            AdmissionStep::TurnContext { answer, .. } => answer is Ok,
            AdmissionStep::CallerShare { replaced, .. } => replaced,
            AdmissionStep::SinkBinding { answer } => answer is Ok,
        }
    }
}

/// A lineage that a task was to get back.
pub struct AdmissionReturn {
    pub replacement: LineageReplacement,
    pub replaced: bool,
}

/// Usage that was to be bound to an act.
pub struct UsageStep {
    pub act_id: Seq<char>,
    pub binding: UsageBinding,
}

/// Steps, in order.
pub type AdmissionSteps = Seq<AdmissionStep>;

/// Lineages that were to be given back, in order.
pub type AdmissionReturns = Seq<AdmissionReturn>;

/// Usage that was to be bound, in order.
pub type UsageSteps = Seq<UsageStep>;

/// The admission of one act. `owner` is the run that hears of failures.
pub struct ActAdmission {
    pub owner: usize,
    pub profile: DiagnosticAdmissionProfile,
    pub act_id: RunLocalId,
    pub identity: AgentTurnDiagnosticIdentity,
    /// What the sink captures, where the act has one.
    pub capture: Option<DiagnosticCaptureConfig>,
    /// The authority of the act, where user code may publish facts of it.
    pub authority: Option<PreparedActAuthority>,
}

impl ActAdmission {
    /// What the act needs, in order.
    pub open spec fn needs(self) -> Seq<AdmissionNeed> {
        match (self.capture is Some, self.authority is Some) {
            (true, true) => seq![
                AdmissionNeed::SinkRegistration,
                AdmissionNeed::FailureObserver,
                AdmissionNeed::AuthorityExpiry,
                AdmissionNeed::TurnContext,
                AdmissionNeed::CallerShare,
                AdmissionNeed::SinkBinding,
            ],
            (true, false) => seq![
                AdmissionNeed::SinkRegistration,
                AdmissionNeed::FailureObserver,
                AdmissionNeed::TurnContext,
                AdmissionNeed::SinkBinding,
            ],
            (false, true) => seq![
                AdmissionNeed::AuthorityExpiry,
                AdmissionNeed::CallerShare,
                AdmissionNeed::TurnContext,
            ],
            (false, false) => seq![AdmissionNeed::TurnContext],
        }
    }

    fn list_needs(&self) -> (needs: Vec<AdmissionNeed>)
        ensures
            needs@ =~= self.needs(),
    {
        match (self.capture.is_some(), self.authority.is_some()) {
            (true, true) => vec![
                AdmissionNeed::SinkRegistration,
                AdmissionNeed::FailureObserver,
                AdmissionNeed::AuthorityExpiry,
                AdmissionNeed::TurnContext,
                AdmissionNeed::CallerShare,
                AdmissionNeed::SinkBinding,
            ],
            (true, false) => vec![
                AdmissionNeed::SinkRegistration,
                AdmissionNeed::FailureObserver,
                AdmissionNeed::TurnContext,
                AdmissionNeed::SinkBinding,
            ],
            (false, true) => vec![
                AdmissionNeed::AuthorityExpiry,
                AdmissionNeed::CallerShare,
                AdmissionNeed::TurnContext,
            ],
            (false, false) => vec![AdmissionNeed::TurnContext],
        }
    }

    /// What is captured of tools: nothing without a sink.
    pub open spec fn captures(self) -> DiagnosticCaptureConfig {
        match self.capture {
            Some(capture) => capture,
            None => DiagnosticCaptureConfig::nothing(),
        }
    }

    /// The sink that the first step has registered.
    pub open spec fn registered_sink(steps: Seq<AdmissionStep>) -> Option<u64> {
        if steps.len() > 0 {
            match steps[0] {
                AdmissionStep::SinkRegistration { sink, .. } => match sink {
                    Ok(sink_id) => Some(sink_id),
                    Err(_) => None,
                },
                _ => None,
            }
        } else {
            None
        }
    }

    /// A step is for this need, and asks for the right thing. `steps` came before it.
    pub open spec fn serves(
        self,
        need: AdmissionNeed,
        steps: Seq<AdmissionStep>,
        step: AdmissionStep,
    ) -> bool {
        match need {
            AdmissionNeed::SinkRegistration => {
                step matches AdmissionStep::SinkRegistration { act_id, .. } && act_id
                    == self.act_id@
            },
            AdmissionNeed::FailureObserver => {
                step matches AdmissionStep::FailureObserver { sink_id, .. } && Some(sink_id)
                    == ActAdmission::registered_sink(steps)
            },
            AdmissionNeed::AuthorityExpiry => {
                step matches AdmissionStep::AuthorityExpiry { authority, .. } && authority
                    == self.authority->0.authority
            },
            AdmissionNeed::TurnContext => {
                step matches AdmissionStep::TurnContext { identity, capture, .. } && identity
                    == self.identity && capture == self.captures()
            },
            AdmissionNeed::CallerShare => {
                step matches AdmissionStep::CallerShare { replacement, .. } && replacement
                    == self.authority->0.staging()
            },
            AdmissionNeed::SinkBinding => step is SinkBinding,
        }
    }

    /// The steps serve the needs in order. All but the last have succeeded.
    pub open spec fn in_order(self, steps: Seq<AdmissionStep>) -> bool {
        &&& steps.len() <= self.needs().len()
        &&& forall|i: int|
            0 <= i < steps.len() ==> self.serves(
                self.needs()[i],
                steps.take(i),
                #[trigger] steps[i],
            )
        &&& forall|i: int| 0 <= i < steps.len() - 1 ==> (#[trigger] steps[i]).succeeded()
    }

    /// All that the act needs is there.
    pub open spec fn complete(self, steps: Seq<AdmissionStep>) -> bool {
        steps.len() == self.needs().len() && steps.last().succeeded()
    }

    /// The text before the reason why a turn got no context.
    pub open spec fn context_prefix(self) -> Seq<char> {
        if self.capture is Some {
            "attach diagnostic sink context: "@
        } else {
            "attach mandatory Production diagnostic context: "@
        }
    }

    /// The error that a failed step becomes.
    pub open spec fn tells(self, step: AdmissionStep, error: AdmissionError) -> bool {
        match step {
            AdmissionStep::SinkRegistration { sink, .. } => sink is Err && error.tells(
                ""@,
                sink->Err_0,
            ),
            AdmissionStep::FailureObserver { answer, .. } => answer is Err && error.tells(
                ""@,
                answer->Err_0,
            ),
            AdmissionStep::AuthorityExpiry { answer, .. } => answer is Err && error.tells(
                ""@,
                answer->Err_0,
            ),
            AdmissionStep::TurnContext { answer, .. } => answer is Err && error.tells(
                self.context_prefix(),
                answer->Err_0,
            ),
            AdmissionStep::CallerShare { .. } => error == AdmissionError::Authority {
                error: ActAuthorityError::Context,
            },
            AdmissionStep::SinkBinding { answer } => answer is Err && error.tells(
                ""@,
                answer->Err_0,
            ),
        }
    }

    /// The failure that a failed step latches.
    pub open spec fn latches(self, step: AdmissionStep) -> Option<RuntimeProducerError> {
        match step {
            AdmissionStep::TurnContext { .. } => Some(
                RuntimeProducerError::State {
                    code: if self.capture is Some {
                        "act.sink-context-attach-failed"
                    } else {
                        "act.production-context-attach-failed"
                    },
                },
            ),
            _ => None,
        }
    }

    /// The task that admits the act has the caller's share.
    pub open spec fn shared(steps: Seq<AdmissionStep>) -> bool {
        exists|i: int|
            0 <= i < steps.len() && (#[trigger] steps[i]) is CallerShare && steps[i].succeeded()
    }

    /// Takes the step for one need.
    fn take_step<R: AdmissionResources>(
        &self,
        need: AdmissionNeed,
        sink_id: Option<u64>,
        resources: &mut R,
    ) -> (result: Result<Option<u64>, AdmissionError>)
        requires
            need == AdmissionNeed::FailureObserver ==> sink_id is Some,
            need == AdmissionNeed::AuthorityExpiry || need == AdmissionNeed::CallerShare
                ==> self.authority is Some && !self.authority->0.staged,
        ensures
            final(resources).given_back() == old(resources).given_back(),
            final(resources).usages() == old(resources).usages(),
            final(resources).steps().len() == old(resources).steps().len() + 1,
            final(resources).steps() =~= old(resources).steps().push(final(resources).steps().last()),
            forall|steps: Seq<AdmissionStep>|
                (need == AdmissionNeed::FailureObserver ==> ActAdmission::registered_sink(steps)
                    == sink_id) ==> #[trigger] self.serves(
                    need,
                    steps,
                    final(resources).steps().last(),
                ),
            final(resources).steps().last().succeeded() == (result is Ok),
            result matches Err(error) ==> self.tells(final(resources).steps().last(), error),
            result matches Ok(sink) ==> sink == if need == AdmissionNeed::SinkRegistration {
                ActAdmission::registered_sink(seq![final(resources).steps().last()])
            } else {
                sink_id
            },
            need == AdmissionNeed::TurnContext <==> final(resources).steps().last() is TurnContext,
            need == AdmissionNeed::CallerShare <==> final(resources).steps().last() is CallerShare,
    {
        let ghost before = resources.steps();
        match need {
            AdmissionNeed::SinkRegistration => {
                let sink = resources.register_sink(&self.act_id);
                match sink {
                    Ok(sink_id) => Ok(Some(sink_id)),
                    Err(fault) => Err(AdmissionError::of("", fault)),
                }
            },
            AdmissionNeed::FailureObserver => {
                let sink_id = sink_id.unwrap();
                let answer = resources.install_failure_observer(sink_id);
                match answer {
                    Ok(_) => Ok(Some(sink_id)),
                    Err(fault) => Err(AdmissionError::of("", fault)),
                }
            },
            AdmissionNeed::AuthorityExpiry => {
                let authority: usize = self.authority.as_ref().unwrap().authority();
                let answer = resources.install_authority_expiry(authority);
                match answer {
                    Ok(_) => Ok(sink_id),
                    Err(fault) => Err(AdmissionError::of("", fault)),
                }
            },
            AdmissionNeed::TurnContext => {
                let capture = match self.capture {
                    Some(capture) => capture,
                    None => DiagnosticCaptureConfig::default(),
                };
                let answer = resources.install_diagnostic_context(
                    &self.identity,
                    capture,
                );
                match answer {
                    Ok(_) => Ok(sink_id),
                    Err(fault) => {
                        if self.capture.is_some() {
                            Err(AdmissionError::of("attach diagnostic sink context: ", fault))
                        } else {
                            Err(
                                AdmissionError::of(
                                    "attach mandatory Production diagnostic context: ",
                                    fault,
                                ),
                            )
                        }
                    },
                }
            },
            AdmissionNeed::CallerShare => {
                match self.authority.as_ref().unwrap().stage_lineage(true) {
                    Ok(replacement) => {
                        let replaced = resources.share_lineage(&replacement);
                        if replaced {
                            Ok(sink_id)
                        } else {
                            Err(AdmissionError::Authority { error: ActAuthorityError::Context })
                        }
                    },
                    Err(error) => Err(AdmissionError::Authority { error }),
                }
            },
            AdmissionNeed::SinkBinding => {
                let answer = resources.bind_sink();
                match answer {
                    Ok(_) => Ok(sink_id),
                    Err(fault) => Err(AdmissionError::of("", fault)),
                }
            },
        }
    }

    /// Acquires what the act needs, up to a step that fails. Tells whether the admitting task has
    /// the caller's share, and the sink.
    fn acquire<A: SpanEventAdmission, R: AdmissionResources>(
        &self,
        runs: &mut DiagnosticRuns<A>,
        resources: &mut R,
    ) -> (outcome: (bool, Result<Option<u64>, AdmissionError>))
        requires
            self.authority matches Some(authority) ==> !authority.staged,
            self.owner < old(runs)@.len(),
        ensures
            final(runs)@.len() == old(runs)@.len(),
            final(resources).given_back() == old(resources).given_back(),
            final(resources).usages() == old(resources).usages(),
            ({
                let steps = final(resources).steps().skip(old(resources).steps().len() as int);
                &&& final(resources).steps() =~= old(resources).steps() + steps
                &&& steps.len() > 0
                &&& self.in_order(steps)
                &&& outcome.0 == ActAdmission::shared(steps)
                &&& self.complete(steps) == (outcome.1 is Ok)
                &&& outcome.1 matches Err(error) ==> !steps.last().succeeded() && self.tells(
                    steps.last(),
                    error,
                )
                &&& if outcome.1 is Ok {
                    *final(runs) == *old(runs)
                } else {
                    final(runs)@ == DiagnosticRuns::latched_at(
                        old(runs)@,
                        Some(self.owner),
                        self.latches(steps.last()),
                    )
                }
                &&& outcome.1 matches Ok(sink) ==> sink == ActAdmission::registered_sink(steps)
            }),
    {
        let needs = self.list_needs();
        let mut sink_id: Option<u64> = None;
        let mut shared = false;
        let ghost before = resources.steps();
        let ghost mut steps: Seq<AdmissionStep> = Seq::empty();
        let mut i: usize = 0;
        while i < needs.len()
            invariant
                i <= needs@.len(),
                needs@ =~= self.needs(),
                self.authority matches Some(authority) ==> !authority.staged,
                resources.given_back() == old(resources).given_back(),
                resources.usages() == old(resources).usages(),
                self.owner < runs@.len(),
                *runs == *old(runs),
                before == old(resources).steps(),
                resources.steps() =~= before + steps,
                steps.len() == i,
                self.in_order(steps),
                forall|k: int| 0 <= k < i ==> (#[trigger] steps[k]).succeeded(),
                sink_id == ActAdmission::registered_sink(steps),
                shared == ActAdmission::shared(steps),
            decreases needs.len() - i,
        {
            let need = needs[i];
            proof {
                if need == AdmissionNeed::FailureObserver {
                    assert(i == 1);
                    assert(self.serves(self.needs()[0], steps.take(0), steps[0]));
                    assert(steps[0].succeeded());
                }
            }
            let ghost earlier = steps;
            let taken = self.take_step(need, sink_id, resources);
            let ghost step = resources.steps().last();
            proof {
                steps = earlier.push(step);
                assert(self.serves(need, earlier, step));
                assert forall|k: int| 0 <= k < steps.len() implies self.serves(
                    self.needs()[k],
                    steps.take(k),
                    #[trigger] steps[k],
                ) by {
                    if k < i {
                        assert(steps.take(k) =~= earlier.take(k));
                        assert(steps[k] == earlier[k]);
                    } else {
                        assert(steps.take(k) =~= earlier);
                    }
                }
                assert forall|k: int| 0 <= k < steps.len() - 1 implies (
                #[trigger] steps[k]).succeeded() by {
                    assert(steps[k] == earlier[k]);
                }
                assert(resources.steps().skip(before.len() as int) =~= steps);
                if shared {
                    let k = choose|k: int|
                        0 <= k < earlier.len() && (#[trigger] earlier[k]) is CallerShare
                            && earlier[k].succeeded();
                    assert(steps[k] is CallerShare && steps[k].succeeded());
                }
                if need == AdmissionNeed::CallerShare && step.succeeded() {
                    assert(steps[i as int] is CallerShare && steps[i as int].succeeded());
                }
                if ActAdmission::shared(steps) && !(need == AdmissionNeed::CallerShare
                    && step.succeeded()) {
                    let k = choose|k: int|
                        0 <= k < steps.len() && (#[trigger] steps[k]) is CallerShare
                            && steps[k].succeeded();
                    assert(earlier[k] is CallerShare && earlier[k].succeeded());
                }
            }
            match taken {
                Err(error) => {
                    if need == AdmissionNeed::TurnContext {
                        runs.runs[self.owner].latch_state_failure(
                            if self.capture.is_some() {
                                "act.sink-context-attach-failed"
                            } else {
                                "act.production-context-attach-failed"
                            },
                        );
                    }
                    return (shared, Err(error));
                },
                Ok(sink) => {
                    sink_id = sink;
                },
            }
            if need == AdmissionNeed::CallerShare {
                shared = true;
            }
            i = i + 1;
        }
        assert(resources.steps().skip(before.len() as int) =~= steps);
        (shared, Ok(sink_id))
    }

    /// The act has a place among the subscribers.
    pub open spec fn subscribes(self) -> bool {
        self.capture is Some || self.authority is Some
    }

    /// Who hears of the events of the act once it is admitted.
    pub open spec fn subscriber(self, steps: Seq<AdmissionStep>) -> Option<ActSubscriber> {
        match (ActAdmission::registered_sink(steps), self.authority) {
            (Some(sink_id), _) => Some(ActSubscriber::Bound { sink_id }),
            (None, Some(authority)) => Some(
                ActSubscriber::Authority { generation: authority.generation },
            ),
            (None, None) => None,
        }
    }

    /// The act is reported from now on, and then its usage is bound.
    pub open spec fn on_committed<A: SpanEventAdmission>(
        self,
        acts: ActRegistry,
        acts_after: ActRegistry,
        runs: DiagnosticRuns<A>,
        runs_after: DiagnosticRuns<A>,
        prepared: PreparedActAdmission,
        binding: UsageBinding,
        result: Result<(), AdmissionError>,
    ) -> bool {
        exists|committed: DiagnosticRuns<A>|
            {
                &&& #[trigger] acts.on_commit(acts_after, runs, committed, prepared.producer)
                &&& match crate::sink_binding::usage_failure(self.profile, binding) {
                    None => result is Ok && runs_after@ == committed@,
                    Some((code, text)) => {
                        &&& result matches Err(AdmissionError::Failed { text: told })
                        &&& told@ == text
                        &&& runs_after@ == DiagnosticRuns::latched_at(
                            committed@,
                            Some(self.owner),
                            Some(RuntimeProducerError::State { code }),
                        )
                    },
                }
            }
    }

    /// The failure of a task that did not get its lineage back.
    pub open spec fn unreturned(replaced: bool) -> Option<RuntimeProducerError> {
        if replaced {
            None
        } else {
            Some(
                RuntimeProducerError::State {
                    code: "custom.act-authority-admission-rollback-mismatch",
                },
            )
        }
    }

    /// What was given back after a step failed: the task that has the caller's share gets its
    /// lineage from before.
    pub open spec fn gave_back<A: SpanEventAdmission>(
        self,
        given_back: Seq<AdmissionReturn>,
        given_after: Seq<AdmissionReturn>,
        runs: Seq<crate::run::DiagnosticRun<A>>,
        runs_after: Seq<crate::run::DiagnosticRun<A>>,
        runtime: Option<usize>,
        shared: bool,
    ) -> bool {
        if shared {
            let given = given_after.last();
            &&& given_after == given_back.push(given)
            &&& given.replacement == self.authority->0.unstaging()
            &&& runs_after == DiagnosticRuns::latched_at(
                runs,
                runtime,
                ActAdmission::unreturned(given.replaced),
            )
        } else {
            given_after == given_back && runs_after == runs
        }
    }

    /// What came of the admission of an act that has no subscriber yet.
    pub open spec fn on_admission<A: SpanEventAdmission, R: AdmissionResources>(
        self,
        registry: ActSinkRegistry,
        registry_after: ActSinkRegistry,
        acts: ActRegistry,
        acts_after: ActRegistry,
        runs: DiagnosticRuns<A>,
        runs_after: DiagnosticRuns<A>,
        resources: R,
        resources_after: R,
        prepared: PreparedActAdmission,
        runtime: Option<usize>,
        result: Result<(), AdmissionError>,
    ) -> bool {
        let steps = resources_after.steps().skip(resources.steps().len() as int);
        &&& resources_after.steps() =~= resources.steps() + steps
        &&& steps.len() > 0
        &&& self.in_order(steps)
        &&& registry.keeps_others(registry_after, self.act_id@)
        &&& if self.complete(steps) {
            let used = resources_after.usages().last();
            &&& registry_after.spec_entry(self.act_id@) == if self.subscribes() {
                self.subscriber(steps)
            } else {
                registry.spec_entry(self.act_id@)
            }
            &&& resources_after.given_back() == resources.given_back()
            &&& resources_after.usages() == resources.usages().push(used)
            &&& used.act_id == self.act_id@
            &&& self.on_committed(
                acts,
                acts_after,
                runs,
                runs_after,
                prepared,
                used.binding,
                result,
            )
        } else {
            &&& registry_after.spec_entry(self.act_id@) == registry.spec_entry(self.act_id@)
            &&& acts_after == acts
            &&& !steps.last().succeeded()
            &&& result matches Err(error)
            &&& self.tells(steps.last(), error)
            &&& resources_after.usages() == resources.usages()
            &&& self.gave_back(
                resources.given_back(),
                resources_after.given_back(),
                DiagnosticRuns::latched_at(
                    runs@,
                    Some(self.owner),
                    self.latches(steps.last()),
                ),
                runs_after@,
                runtime,
                ActAdmission::shared(steps),
            )
        }
    }

    /// What came of the admission: an act that has a subscriber already does not get another.
    pub open spec fn on_admit<A: SpanEventAdmission, R: AdmissionResources>(
        self,
        registry: ActSinkRegistry,
        registry_after: ActSinkRegistry,
        acts: ActRegistry,
        acts_after: ActRegistry,
        runs: DiagnosticRuns<A>,
        runs_after: DiagnosticRuns<A>,
        resources: R,
        resources_after: R,
        prepared: PreparedActAdmission,
        runtime: Option<usize>,
        result: Result<(), AdmissionError>,
    ) -> bool {
        if self.subscribes() && registry.spec_entry(self.act_id@) is Some {
            &&& result == Err::<(), _>(AdmissionError::AlreadyRegistered)
            &&& registry_after == registry
            &&& acts_after == acts
            &&& runs_after == runs
            &&& resources_after == resources
        } else {
            self.on_admission(
                registry,
                registry_after,
                acts,
                acts_after,
                runs,
                runs_after,
                resources,
                resources_after,
                prepared,
                runtime,
                result,
            )
        }
    }

    /// Gives back what was acquired, after the step that failed.
    fn give_up<A: SpanEventAdmission, R: AdmissionResources>(
        self,
        runs: &mut DiagnosticRuns<A>,
        resources: &mut R,
        runtime: Option<usize>,
        shared: bool,
    )
        requires
            self.authority matches Some(authority) ==> !authority.staged && !authority.committed,
            shared ==> self.authority is Some,
            runtime matches Some(runtime) ==> runtime < old(runs)@.len(),
        ensures
            final(runs)@.len() == old(runs)@.len(),
            final(resources).steps() == old(resources).steps(),
            final(resources).usages() == old(resources).usages(),
            self.gave_back(
                old(resources).given_back(),
                final(resources).given_back(),
                old(runs)@,
                final(runs)@,
                runtime,
                shared,
            ),
    {
        if !shared {
            return;
        }
        if let Some(authority) = self.authority {
            let mut authority = authority;
            let ghost unstaging = authority.unstaging();
            let _ = authority.stage(true);
            if let Some(replacement) = authority.abandon(true) {
                assert(replacement == unstaging);
                let replaced = resources.give_lineage_back(&replacement);
                PreparedActAuthority::abandoned(runs, runtime, replaced);
            }
        }
    }

    /// Admits a prepared act. `runtime` is the run of its authority, where that is still there.
    pub fn admit_prepared<A: SpanEventAdmission, R: AdmissionResources>(
        self,
        registry: &mut ActSinkRegistry,
        acts: &mut ActRegistry,
        runs: &mut DiagnosticRuns<A>,
        resources: &mut R,
        prepared: PreparedActAdmission,
        runtime: Option<usize>,
    ) -> (result: Result<(), AdmissionError>)
        requires
            old(registry).wf(),
            old(acts).wf(),
            old(acts).fits(*old(runs)),
            self.owner < old(runs)@.len(),
            runtime matches Some(runtime) ==> runtime < old(runs)@.len(),
            self.authority matches Some(authority) ==> !authority.staged && !authority.committed,
            self.act_id@ == prepared.producer.act_id@,
            self.identity == prepared.producer.identity,
            prepared.producer.wf(),
            prepared.producer.run < old(runs)@.len(),
            prepared.producer.state.act_span_id is None,
            !prepared.producer.state.producer_failed,
        ensures
            final(registry).wf(),
            final(acts).wf(),
            final(acts).fits(*final(runs)),
            final(runs)@.len() == old(runs)@.len(),
            self.on_admit(
                *old(registry),
                *final(registry),
                *old(acts),
                *final(acts),
                *old(runs),
                *final(runs),
                *old(resources),
                *final(resources),
                prepared,
                runtime,
                result,
            ),
    {
        let subscribes = self.capture.is_some() || self.authority.is_some();
        if subscribes {
            if registry.reserve(&self.act_id).is_err() {
                return Err(AdmissionError::AlreadyRegistered);
            }
        }
        let (shared, acquired) = self.acquire(runs, resources);
        let ghost steps = resources.steps().skip(old(resources).steps().len() as int);
        match acquired {
            Err(error) => {
                assert(ActAdmission::shared(steps) ==> self.authority is Some) by {
                    if ActAdmission::shared(steps) {
                        let k = choose|k: int|
                            0 <= k < steps.len() && (#[trigger] steps[k]) is CallerShare
                                && steps[k].succeeded();
                        assert(self.serves(self.needs()[k], steps.take(k), steps[k]));
                    }
                }
                if subscribes {
                    registry.release(self.act_id.as_str());
                }
                self.give_up(runs, resources, runtime, shared);
                Err(error)
            },
            Ok(sink_id) => {
                assert(self.serves(self.needs()[0], steps.take(0), steps[0]));
                assert(steps[0].succeeded());
                assert((sink_id is Some) == (self.capture is Some));
                match (sink_id, &self.authority) {
                    (Some(sink_id), _) => {
                        registry.publish(self.act_id.as_str(), ActSubscriber::Bound { sink_id });
                    },
                    (None, Some(authority)) => {
                        registry.publish(
                            self.act_id.as_str(),
                            ActSubscriber::Authority { generation: authority.generation },
                        );
                    },
                    (None, None) => {},
                }
                acts.commit(runs, prepared);
                let ghost committed = *runs;
                if let Some(authority) = self.authority {
                    let mut authority = authority;
                    let _ = authority.stage(true);
                    authority.commit();
                }
                let binding = resources.bind_usage(self.act_id.as_str());
                let bound = bind_usage(runs, self.owner, self.profile, binding);
                assert(old(acts).on_commit(*acts, *old(runs), committed, prepared.producer));
                match bound {
                    Ok(_) => Ok(()),
                    Err(text) => Err(AdmissionError::Failed { text }),
                }
            },
        }
    }
}

/// An act that is to be admitted: who hears of its failures, what it belongs to, and what is known of
/// the task that admits it.
pub struct ActRequest {
    pub owner: usize,
    pub profile: DiagnosticAdmissionProfile,
    /// The run of the production, where the act belongs to one with diagnostics.
    pub runtime_run: Option<usize>,
    pub cue: Option<CueLineageSnapshot>,
    pub control: AgentTurnControl,
    pub binding_key: usize,
    pub cued: CuedRef,
    pub lineage: Lookup<TaskLineage>,
    pub task: Lookup<TaskRef>,
}

impl ActRequest {
    pub open spec fn wf<A: SpanEventAdmission>(self, runs: DiagnosticRuns<A>) -> bool {
        &&& self.owner < runs@.len()
        &&& self.runtime_run matches Some(run) ==> run < runs@.len()
    }

    /// The admission of an act that was prepared: under its own identity.
    pub open spec fn admission(
        self,
        prepared: PreparedActAdmission,
        capture: Option<DiagnosticCaptureConfig>,
        authority: Option<PreparedActAuthority>,
    ) -> ActAdmission {
        ActAdmission {
            owner: self.owner,
            profile: self.profile,
            act_id: prepared.producer.act_id,
            identity: prepared.producer.identity,
            capture,
            authority,
        }
    }

    /// What came of the admission of an act that was prepared. Its authority comes first.
    pub open spec fn on_prepared<A: SpanEventAdmission, R: AdmissionResources>(
        self,
        runtimes: RuntimeProducerRegistry,
        registry: ActSinkRegistry,
        registry_after: ActSinkRegistry,
        acts: ActRegistry,
        acts_after: ActRegistry,
        authorities: ActAuthorities,
        authorities_after: ActAuthorities,
        runs: DiagnosticRuns<A>,
        runs_after: DiagnosticRuns<A>,
        resources: R,
        resources_after: R,
        prepared: PreparedActAdmission,
        capture: Option<DiagnosticCaptureConfig>,
        result: Result<(), AdmissionError>,
    ) -> bool {
        let runtime = runtimes.spec_run_bound(Some(self.binding_key));
        exists|
            runs_between: DiagnosticRuns<A>,
            authority: Result<Option<PreparedActAuthority>, ActAuthorityError>,
        |
            {
                &&& #[trigger] authorities.on_prepare(
                    authorities_after,
                    runs@,
                    runs_between@,
                    runtime,
                    self.binding_key,
                    self.cued,
                    prepared.producer.act_scope,
                    self.lineage,
                    self.task,
                    authority,
                )
                &&& match authority {
                    Err(error) => {
                        &&& result == Err::<(), _>(AdmissionError::Authority { error })
                        &&& registry_after == registry
                        &&& acts_after == acts
                        &&& runs_after == runs_between
                        &&& resources_after == resources
                    },
                    Ok(authority) => self.admission(prepared, capture, authority).on_admit(
                        registry,
                        registry_after,
                        acts,
                        acts_after,
                        runs_between,
                        runs_after,
                        resources,
                        resources_after,
                        prepared,
                        runtime,
                        result,
                    ),
                }
            }
    }

    /// Admits an act that was prepared.
    fn admit_own<A: SpanEventAdmission, R: AdmissionResources>(
        self,
        runtimes: &RuntimeProducerRegistry,
        registry: &mut ActSinkRegistry,
        acts: &mut ActRegistry,
        authorities: &mut ActAuthorities,
        runs: &mut DiagnosticRuns<A>,
        resources: &mut R,
        prepared: PreparedActAdmission,
        capture: Option<DiagnosticCaptureConfig>,
    ) -> (result: Result<(), AdmissionError>)
        requires
            runtimes.wf(),
            runtimes.fits(*old(runs)),
            old(registry).wf(),
            old(acts).wf(),
            old(acts).fits(*old(runs)),
            old(authorities).wf(),
            old(authorities).fits(*old(runs)),
            self.wf(*old(runs)),
            prepared.producer.wf(),
            prepared.producer.run < old(runs)@.len(),
            prepared.producer.state.act_span_id is None,
            !prepared.producer.state.producer_failed,
        ensures
            final(registry).wf(),
            final(acts).wf(),
            final(acts).fits(*final(runs)),
            final(authorities).wf(),
            final(authorities).fits(*final(runs)),
            final(runs)@.len() == old(runs)@.len(),
            self.on_prepared(
                *runtimes,
                *old(registry),
                *final(registry),
                *old(acts),
                *final(acts),
                *old(authorities),
                *final(authorities),
                *old(runs),
                *final(runs),
                *old(resources),
                *final(resources),
                prepared,
                capture,
                result,
            ),
    {
        let runtime = runtimes.run_bound(Some(self.binding_key));
        let ghost asked = self;
        let authority = authorities.prepare(
            runtimes,
            runs,
            self.binding_key,
            self.cued,
            &prepared.producer.act_scope,
            self.lineage,
            self.task,
        );
        let ghost runs_between = *runs;
        let ghost answered = authority;
        let ghost given = prepared;
        assert(old(authorities).on_prepare(
            *authorities,
            old(runs)@,
            runs_between@,
            runtimes.spec_run_bound(Some(asked.binding_key)),
            asked.binding_key,
            asked.cued,
            given.producer.act_scope,
            asked.lineage,
            asked.task,
            answered,
        ));
        match authority {
            Err(error) => Err(AdmissionError::Authority { error }),
            Ok(authority) => {
                let admission = ActAdmission {
                    owner: self.owner,
                    profile: self.profile,
                    act_id: prepared.producer.act_id.clone(),
                    identity: prepared.identity().clone(),
                    capture,
                    authority,
                };
                assert(admission == asked.admission(given, capture, answered->Ok_0));
                admission.admit_prepared(registry, acts, runs, resources, prepared, runtime)
            },
        }
    }

    /// What came of binding a sink to an act. A sink that was bound before says itself what is wrong,
    /// and nothing else happens.
    pub open spec fn on_bind<A: SpanEventAdmission, R: AdmissionResources>(
        self,
        state: Seq<char>,
        standalone: Option<StandaloneActAdmission>,
        capture: DiagnosticCaptureConfig,
        runtimes: RuntimeProducerRegistry,
        registry: ActSinkRegistry,
        registry_after: ActSinkRegistry,
        acts: ActRegistry,
        acts_after: ActRegistry,
        authorities: ActAuthorities,
        authorities_after: ActAuthorities,
        runs: DiagnosticRuns<A>,
        runs_after: DiagnosticRuns<A>,
        resources: R,
        resources_after: R,
        result: Result<(), AdmissionError>,
    ) -> bool {
        let source = ActRegistry::spec_source(self.runtime_run, self.cue, self.control, standalone);
        if state != "UNBOUND"@ {
            &&& registry_after == registry
            &&& acts_after == acts
            &&& authorities_after == authorities
            &&& runs_after == runs
            &&& if state == "BOUND"@ || state == "SEALED"@ || state == "CLOSED"@ {
                let answer = resources_after.steps().last()->SinkBinding_answer;
                &&& resources_after.steps() == resources.steps().push(
                    AdmissionStep::SinkBinding { answer },
                )
                &&& resources_after.given_back() == resources.given_back()
                &&& resources_after.usages() == resources.usages()
                &&& result is Err
                &&& answer is Err ==> result->Err_0.tells(""@, answer->Err_0)
                &&& answer is Ok ==> result->Err_0 is Raised
            } else {
                &&& resources_after == resources
                &&& result is Err
                &&& result->Err_0 is Failed
                &&& result->Err_0->text@ == "diagnostic sink lifecycle state is corrupt"@
            }
        } else {
            exists|
                acts_between: ActRegistry,
                runs_between: DiagnosticRuns<A>,
                preparation: Result<PreparedActAdmission, AdmissionError>,
            |
                {
                    &&& #[trigger] is_preparation(
                        acts,
                        acts_between,
                        runs,
                        runs_between,
                        source,
                        self.control.key,
                        preparation,
                    )
                    &&& match preparation {
                        Err(error) => {
                            &&& result == Err::<(), _>(error)
                            &&& registry_after == registry
                            &&& acts_after == acts_between
                            &&& authorities_after == authorities
                            &&& runs_after == runs_between
                            &&& resources_after == resources
                        },
                        Ok(prepared) => self.on_prepared(
                            runtimes,
                            registry,
                            registry_after,
                            acts_between,
                            acts_after,
                            authorities,
                            authorities_after,
                            runs_between,
                            runs_after,
                            resources,
                            resources_after,
                            prepared,
                            Some(capture),
                            result,
                        ),
                    }
                }
        }
    }

    /// Binds a sink to an act, and admits the act. `state` is the state of the sink, and `capture` is
    /// what it captures.
    pub fn bind<A: SpanEventAdmission, R: AdmissionResources>(
        self,
        state: &str,
        standalone: Option<StandaloneActAdmission>,
        capture: DiagnosticCaptureConfig,
        runtimes: &RuntimeProducerRegistry,
        registry: &mut ActSinkRegistry,
        acts: &mut ActRegistry,
        authorities: &mut ActAuthorities,
        runs: &mut DiagnosticRuns<A>,
        resources: &mut R,
    ) -> (result: Result<(), AdmissionError>)
        requires
            runtimes.wf(),
            runtimes.fits(*old(runs)),
            old(registry).wf(),
            old(acts).wf(),
            old(acts).fits(*old(runs)),
            old(authorities).wf(),
            old(authorities).fits(*old(runs)),
            self.wf(*old(runs)),
            standalone matches Some(standalone) ==> standalone.run < old(runs)@.len(),
        ensures
            final(registry).wf(),
            final(acts).wf(),
            final(acts).fits(*final(runs)),
            final(authorities).wf(),
            final(authorities).fits(*final(runs)),
            final(runs)@.len() == old(runs)@.len(),
            self.on_bind(
                state@,
                standalone,
                capture,
                *runtimes,
                *old(registry),
                *final(registry),
                *old(acts),
                *final(acts),
                *old(authorities),
                *final(authorities),
                *old(runs),
                *final(runs),
                *old(resources),
                *final(resources),
                result,
            ),
    {
        match sink_state_path(state) {
            SinkStatePath::Fresh => {},
            SinkStatePath::Used => {
                let answer = resources.bind_sink();
                assert(resources.steps().last() == (AdmissionStep::SinkBinding { answer }));
                return match answer {
                    Ok(_) => Err(AdmissionError::Raised),
                    Err(fault) => Err(AdmissionError::of("", fault)),
                };
            },
            SinkStatePath::Corrupt => {
                return Err(
                    AdmissionError::Failed {
                        text: "diagnostic sink lifecycle state is corrupt".to_owned(),
                    },
                );
            },
        }
        let ghost source = ActRegistry::spec_source(
            self.runtime_run,
            self.cue,
            self.control,
            standalone,
        );
        let cue = copy_cue(&self.cue);
        let preparation = prepare(acts, runs, self.runtime_run, cue, &self.control, standalone);
        let ghost acts_between = *acts;
        let ghost runs_between = *runs;
        assert(is_preparation(
            *old(acts),
            acts_between,
            *old(runs),
            runs_between,
            source,
            self.control.key,
            preparation,
        ));
        match preparation {
            Err(error) => Err(error),
            Ok(prepared) => self.admit_own(
                runtimes,
                registry,
                acts,
                authorities,
                runs,
                resources,
                prepared,
                Some(capture),
            ),
        }
    }

    /// What came of the admission of an act without a sink. Without diagnostics nothing happens.
    pub open spec fn on_admission_without_sink<A: SpanEventAdmission, R: AdmissionResources>(
        self,
        runtimes: RuntimeProducerRegistry,
        registry: ActSinkRegistry,
        registry_after: ActSinkRegistry,
        acts: ActRegistry,
        acts_after: ActRegistry,
        authorities: ActAuthorities,
        authorities_after: ActAuthorities,
        runs: DiagnosticRuns<A>,
        runs_after: DiagnosticRuns<A>,
        resources: R,
        resources_after: R,
        result: Result<(), AdmissionError>,
    ) -> bool {
        let source = ActRegistry::spec_source(self.runtime_run, self.cue, self.control, None);
        exists|
            acts_between: ActRegistry,
            runs_between: DiagnosticRuns<A>,
            preparation: Result<
                Option<PreparedActAdmission>,
                crate::act_registry::ActAdmissionPrepareError,
            >,
        |
            {
                &&& #[trigger] acts.on_prepare(
                    acts_between,
                    runs,
                    runs_between,
                    source,
                    self.control.key,
                    preparation,
                )
                &&& match preparation {
                    Ok(Some(prepared)) => self.on_prepared(
                        runtimes,
                        registry,
                        registry_after,
                        acts_between,
                        acts_after,
                        authorities,
                        authorities_after,
                        runs_between,
                        runs_after,
                        resources,
                        resources_after,
                        prepared,
                        None,
                        result,
                    ),
                    refused => {
                        &&& registry_after == registry
                        &&& acts_after == acts_between
                        &&& authorities_after == authorities
                        &&& runs_after == runs_between
                        &&& resources_after == resources
                        &&& match refused {
                            Ok(_) => result == Ok::<(), AdmissionError>(()),
                            Err(error) => {
                                &&& result is Err
                                &&& result->Err_0 is Failed
                                &&& result->Err_0->text@ == "Act diagnostic admission failed ["@
                                    + error.code@ + "]"@
                            },
                        }
                    },
                }
            }
    }

    /// Admits an act that has no sink.
    pub fn admit_without_sink<A: SpanEventAdmission, R: AdmissionResources>(
        self,
        runtimes: &RuntimeProducerRegistry,
        registry: &mut ActSinkRegistry,
        acts: &mut ActRegistry,
        authorities: &mut ActAuthorities,
        runs: &mut DiagnosticRuns<A>,
        resources: &mut R,
    ) -> (result: Result<(), AdmissionError>)
        requires
            runtimes.wf(),
            runtimes.fits(*old(runs)),
            old(registry).wf(),
            old(acts).wf(),
            old(acts).fits(*old(runs)),
            old(authorities).wf(),
            old(authorities).fits(*old(runs)),
            self.wf(*old(runs)),
        ensures
            final(registry).wf(),
            final(acts).wf(),
            final(acts).fits(*final(runs)),
            final(authorities).wf(),
            final(authorities).fits(*final(runs)),
            final(runs)@.len() == old(runs)@.len(),
            self.on_admission_without_sink(
                *runtimes,
                *old(registry),
                *final(registry),
                *old(acts),
                *final(acts),
                *old(authorities),
                *final(authorities),
                *old(runs),
                *final(runs),
                *old(resources),
                *final(resources),
                result,
            ),
    {
        let ghost source = ActRegistry::spec_source(self.runtime_run, self.cue, self.control, None);
        let cue = copy_cue(&self.cue);
        let preparation = acts.prepare_admission(runs, self.runtime_run, cue, &self.control, None);
        let ghost acts_between = *acts;
        let ghost runs_between = *runs;
        assert(old(acts).on_prepare(
            acts_between,
            *old(runs),
            runs_between,
            source,
            self.control.key,
            preparation,
        ));
        match preparation {
            Err(error) => Err(AdmissionError::Failed { text: error.describe() }),
            Ok(None) => Ok(()),
            Ok(Some(prepared)) => self.admit_own(
                runtimes,
                registry,
                acts,
                authorities,
                runs,
                resources,
                prepared,
                None,
            ),
        }
    }
}

/// A sink that is to be bound to an act: its state, and what it captures.
#[derive(Debug, PartialEq, Eq)]
pub struct SinkRequest {
    pub state: String,
    pub capture: DiagnosticCaptureConfig,
}

impl ActRequest {
    /// What a capability does with an act: it binds the sink, where there is one. Without one only
    /// the act of a production is admitted.
    pub open spec fn on_act<A: SpanEventAdmission, R: AdmissionResources>(
        self,
        sink: Option<SinkRequest>,
        standalone: Option<StandaloneActAdmission>,
        runtimes: RuntimeProducerRegistry,
        registry: ActSinkRegistry,
        registry_after: ActSinkRegistry,
        acts: ActRegistry,
        acts_after: ActRegistry,
        authorities: ActAuthorities,
        authorities_after: ActAuthorities,
        runs: DiagnosticRuns<A>,
        runs_after: DiagnosticRuns<A>,
        resources: R,
        resources_after: R,
        result: Result<(), AdmissionError>,
    ) -> bool {
        match sink {
            Some(sink) => self.on_bind(
                sink.state@,
                standalone,
                sink.capture,
                runtimes,
                registry,
                registry_after,
                acts,
                acts_after,
                authorities,
                authorities_after,
                runs,
                runs_after,
                resources,
                resources_after,
                result,
            ),
            None => if self.profile == DiagnosticAdmissionProfile::ProductionDurable {
                self.on_admission_without_sink(
                    runtimes,
                    registry,
                    registry_after,
                    acts,
                    acts_after,
                    authorities,
                    authorities_after,
                    runs,
                    runs_after,
                    resources,
                    resources_after,
                    result,
                )
            } else {
                &&& result == Ok::<(), AdmissionError>(())
                &&& registry_after == registry
                &&& acts_after == acts
                &&& authorities_after == authorities
                &&& runs_after == runs
                &&& resources_after == resources
            },
        }
    }

    /// Takes an act through a capability.
    pub fn take_act<A: SpanEventAdmission, R: AdmissionResources>(
        self,
        sink: Option<SinkRequest>,
        standalone: Option<StandaloneActAdmission>,
        runtimes: &RuntimeProducerRegistry,
        registry: &mut ActSinkRegistry,
        acts: &mut ActRegistry,
        authorities: &mut ActAuthorities,
        runs: &mut DiagnosticRuns<A>,
        resources: &mut R,
    ) -> (result: Result<(), AdmissionError>)
        requires
            runtimes.wf(),
            runtimes.fits(*old(runs)),
            old(registry).wf(),
            old(acts).wf(),
            old(acts).fits(*old(runs)),
            old(authorities).wf(),
            old(authorities).fits(*old(runs)),
            self.wf(*old(runs)),
            standalone matches Some(standalone) ==> standalone.run < old(runs)@.len(),
        ensures
            final(registry).wf(),
            final(acts).wf(),
            final(acts).fits(*final(runs)),
            final(authorities).wf(),
            final(authorities).fits(*final(runs)),
            final(runs)@.len() == old(runs)@.len(),
            self.on_act(
                sink,
                standalone,
                *runtimes,
                *old(registry),
                *final(registry),
                *old(acts),
                *final(acts),
                *old(authorities),
                *final(authorities),
                *old(runs),
                *final(runs),
                *old(resources),
                *final(resources),
                result,
            ),
    {
        match (capability_path(self.profile, sink.is_some()), sink) {
            (CapabilityPath::Bind, Some(sink)) => self.bind(
                sink.state.as_str(),
                standalone,
                sink.capture,
                runtimes,
                registry,
                acts,
                authorities,
                runs,
                resources,
            ),
            (CapabilityPath::AdmitWithoutSink, _) => self.admit_without_sink(
                runtimes,
                registry,
                acts,
                authorities,
                runs,
                resources,
            ),
            _ => Ok(()),
        }
    }
}

/// Copies the lineage of a cue.
fn copy_cue(cue: &Option<CueLineageSnapshot>) -> (copy: Option<CueLineageSnapshot>)
    ensures
        copy == *cue,
{
    match cue {
        Some(cue) => Some(
            CueLineageSnapshot {
                run: cue.run,
                cue_scope: cue.cue_scope.clone(),
                containing_span_id: cue.containing_span_id,
            },
        ),
        None => None,
    }
}

/// An act that could not get all that it needs leaves nothing behind: no one hears of its events, it
/// is not reported, and the subscribers of other acts are the same. A task that had the caller's
/// share was handed its lineage from before.
pub proof fn failed_admission_leaves_nothing<A: SpanEventAdmission, R: AdmissionResources>(
    admission: ActAdmission,
    registry: ActSinkRegistry,
    registry_after: ActSinkRegistry,
    acts: ActRegistry,
    acts_after: ActRegistry,
    runs: DiagnosticRuns<A>,
    runs_after: DiagnosticRuns<A>,
    resources: R,
    resources_after: R,
    prepared: PreparedActAdmission,
    runtime: Option<usize>,
    result: Result<(), AdmissionError>,
    act_id: Seq<char>,
)
    requires
        admission.on_admit(
            registry,
            registry_after,
            acts,
            acts_after,
            runs,
            runs_after,
            resources,
            resources_after,
            prepared,
            runtime,
            result,
        ),
        resources_after.usages() == resources.usages(),
    ensures
        result is Err,
        acts_after == acts,
        registry_after.spec_entry(act_id) == registry.spec_entry(act_id),
        ActAdmission::shared(resources_after.steps().skip(resources.steps().len() as int))
            ==> resources_after.given_back().len() == resources.given_back().len() + 1
            && resources_after.given_back().last().replacement
            == admission.authority->0.unstaging(),
{
    if admission.subscribes() && registry.spec_entry(admission.act_id@) is Some {
        assert(resources_after.steps().skip(resources.steps().len() as int).len() == 0);
    } else {
        let steps = resources_after.steps().skip(resources.steps().len() as int);
        if admission.complete(steps) {
            let used = resources_after.usages().last();
            assert(resources.usages().push(used).len() == resources.usages().len() + 1);
        }
    }
}

/// What an admission needs is what the act asks for: a sink is registered first and bound last,
/// exactly where the act has one, the authority's end and the caller's share are there exactly
/// where the act has an authority, and the turn always gets its context.
pub proof fn admissions_need_what_the_act_has(admission: ActAdmission)
    ensures
        ({
            let needs = admission.needs();
            let count = needs.len() as int;
            let sink = admission.capture is Some;
            let authority = admission.authority is Some;
            &&& count == 1 + (if sink { 3int } else { 0int }) + (if authority { 2int } else { 0int })
            &&& sink <==> needs[0] == AdmissionNeed::SinkRegistration
            &&& sink <==> needs[count - 1] == AdmissionNeed::SinkBinding
            &&& sink ==> needs[1] == AdmissionNeed::FailureObserver
            &&& forall|i: int|
                0 <= i < count && !sink ==> #[trigger] needs[i] != AdmissionNeed::SinkRegistration
                    && needs[i] != AdmissionNeed::SinkBinding && needs[i]
                    != AdmissionNeed::FailureObserver
            &&& forall|i: int|
                0 <= i < count && !authority ==> #[trigger] needs[i]
                    != AdmissionNeed::AuthorityExpiry && needs[i] != AdmissionNeed::CallerShare
            &&& exists|i: int| 0 <= i < count && #[trigger] needs[i] == AdmissionNeed::TurnContext
            &&& authority ==> exists|i: int, j: int|
                0 <= i < j < count && #[trigger] needs[i] == AdmissionNeed::AuthorityExpiry
                    && #[trigger] needs[j] == AdmissionNeed::CallerShare
        }),
{
    let needs = admission.needs();
    if admission.capture is Some {
        if admission.authority is Some {
            assert(needs[3] == AdmissionNeed::TurnContext);
            assert(needs[2] == AdmissionNeed::AuthorityExpiry);
            assert(needs[4] == AdmissionNeed::CallerShare);
        } else {
            assert(needs[2] == AdmissionNeed::TurnContext);
        }
    } else if admission.authority is Some {
        assert(needs[2] == AdmissionNeed::TurnContext);
        assert(needs[0] == AdmissionNeed::AuthorityExpiry);
        assert(needs[1] == AdmissionNeed::CallerShare);
    } else {
        assert(needs[0] == AdmissionNeed::TurnContext);
    }
}

/// Each step of an admission is of this act: the sink is registered for it, and observed under the
/// number that it got, the turn that gets its context is the act's own, with what the sink captures
/// or nothing, and the caller gets the share of the act's own authority.
pub proof fn admission_steps_are_of_their_act(
    admission: ActAdmission,
    need: AdmissionNeed,
    steps: Seq<AdmissionStep>,
    step: AdmissionStep,
)
    requires
        admission.serves(need, steps, step),
    ensures
        need is SinkRegistration <==> step is SinkRegistration,
        need is FailureObserver <==> step is FailureObserver,
        need is AuthorityExpiry <==> step is AuthorityExpiry,
        need is TurnContext <==> step is TurnContext,
        need is CallerShare <==> step is CallerShare,
        need is SinkBinding <==> step is SinkBinding,
        step matches AdmissionStep::SinkRegistration { act_id, .. } ==> act_id == admission.act_id@,
        step matches AdmissionStep::FailureObserver { sink_id, .. } ==> steps.len() > 0 && (
        steps[0] matches AdmissionStep::SinkRegistration { sink, .. } && sink is Ok && sink->Ok_0
            == sink_id),
        step matches AdmissionStep::TurnContext { identity, capture, .. } ==> identity
            == admission.identity && (admission.capture is Some ==> capture
            == admission.capture->0) && (admission.capture is None ==> !capture.agent_messages
            && !capture.plans && !capture.tool_calls && !capture.result_validation && !capture.usage
            && !capture.custom_events && !capture.tool_inputs && !capture.tool_outputs),
        step matches AdmissionStep::AuthorityExpiry { authority, .. } ==> authority
            == admission.authority->0.authority,
        step matches AdmissionStep::CallerShare { replacement, .. } ==> {
            &&& replacement.task == admission.authority->0.task
            &&& replacement.replacement.act_authority is Some
            &&& replacement.replacement.act_authority->0.generation
                == admission.authority->0.generation
            &&& replacement.replacement.act_authority->0.role is Caller
        },
{
}

/// An act that is admitted is heard of by its sink, where it has one, and else by its authority
/// alone, where it has one.
pub proof fn admitted_acts_are_heard_of_by_their_sink(
    admission: ActAdmission,
    steps: Seq<AdmissionStep>,
)
    requires
        admission.in_order(steps),
        admission.complete(steps),
    ensures
        ({
            let subscriber = admission.subscriber(steps);
            &&& admission.capture is Some ==> (subscriber matches Some(ActSubscriber::Bound {
                sink_id,
            }) && (steps[0] matches AdmissionStep::SinkRegistration { sink, .. } && sink == Ok::<
                u64,
                AdmissionFault,
            >(sink_id)))
            &&& admission.capture is None && admission.authority is Some ==> subscriber == Some(
                ActSubscriber::Authority { generation: admission.authority->0.generation },
            )
            &&& admission.capture is None && admission.authority is None ==> subscriber is None
        }),
{
    assert(admission.serves(admission.needs()[0], steps.take(0), steps[0]));
    if admission.capture is Some {
        assert(admission.needs()[0] == AdmissionNeed::SinkRegistration);
        assert(steps[0].succeeded());
    } else if admission.authority is Some {
        assert(admission.needs()[0] == AdmissionNeed::AuthorityExpiry);
    } else {
        assert(admission.needs()[0] == AdmissionNeed::TurnContext);
    }
}

/// An act that got all that it needs is admitted exactly where its usage was bound. Where that came
/// too late or failed, it is refused and its run has failed; the act itself is there either way.
pub proof fn acts_are_admitted_with_their_usage<A: SpanEventAdmission>(
    admission: ActAdmission,
    acts: ActRegistry,
    acts_after: ActRegistry,
    runs: DiagnosticRuns<A>,
    runs_after: DiagnosticRuns<A>,
    prepared: PreparedActAdmission,
    binding: UsageBinding,
    result: Result<(), AdmissionError>,
)
    requires
        admission.owner < runs@.len(),
        prepared.producer.run < runs@.len(),
        admission.on_committed(acts, acts_after, runs, runs_after, prepared, binding, result),
    ensures
        result is Ok <==> binding is Bound,
        result matches Err(error) ==> error is Failed,
        binding !is Bound ==> runs_after@[admission.owner as int].failure is Some,
        exists|committed: DiagnosticRuns<A>| #[trigger]
            acts.on_commit(acts_after, runs, committed, prepared.producer) && (binding is Bound
                ==> runs_after@ == committed@),
{
    let committed = choose|committed: DiagnosticRuns<A>|
        {
            &&& #[trigger] acts.on_commit(acts_after, runs, committed, prepared.producer)
            &&& match crate::sink_binding::usage_failure(admission.profile, binding) {
                None => result is Ok && runs_after@ == committed@,
                Some((code, text)) => {
                    &&& result matches Err(AdmissionError::Failed { text: told })
                    &&& told@ == text
                    &&& runs_after@ == DiagnosticRuns::latched_at(
                        committed@,
                        Some(admission.owner),
                        Some(RuntimeProducerError::State { code }),
                    )
                },
            }
        };
    assert(acts.on_commit(acts_after, runs, committed, prepared.producer));
    assert(committed@.len() == runs@.len());
}

/// A step that failed is told as it failed: what user code raised as that, what was refused with
/// its reason at the end, and a share that was not taken as a missing authority. Only a turn that
/// got no context fails the run.
pub proof fn failed_steps_are_told_as_they_failed(
    admission: ActAdmission,
    step: AdmissionStep,
    error: AdmissionError,
)
    requires
        admission.tells(step, error),
        !step.succeeded(),
    ensures
        ({
            let fault = match step {
                AdmissionStep::SinkRegistration { sink: Err(fault), .. } => Some(fault),
                AdmissionStep::FailureObserver { answer: Err(fault), .. } => Some(fault),
                AdmissionStep::AuthorityExpiry { answer: Err(fault), .. } => Some(fault),
                AdmissionStep::TurnContext { answer: Err(fault), .. } => Some(fault),
                AdmissionStep::SinkBinding { answer: Err(fault) } => Some(fault),
                _ => None,
            };
            &&& step is CallerShare ==> error is Authority
            &&& step !is CallerShare ==> fault is Some
            &&& fault is Some && fault->0 is Raised ==> error is Raised
            &&& fault matches Some(AdmissionFault::Refused { reason }) ==> (error matches
                AdmissionError::Failed { text } && text@.len() >= reason@.len() && text@.skip(
                text@.len() - reason@.len(),
            ) =~= reason@)
            &&& admission.latches(step) is Some <==> step is TurnContext
            &&& step matches AdmissionStep::TurnContext {
                answer: Err(AdmissionFault::Refused { reason }),
                ..
            } ==> error->text@ == (if admission.capture is Some {
                "attach diagnostic sink context: "@
            } else {
                "attach mandatory Production diagnostic context: "@
            }) + reason@
        }),
{
}

/// A share that the caller got is given back where the admission fails after that, to the same task
/// and as it was; what it never got is not.
pub proof fn shares_are_given_back_where_they_were_given<A: SpanEventAdmission>(
    admission: ActAdmission,
    given_back: Seq<AdmissionReturn>,
    given_after: Seq<AdmissionReturn>,
    runs: Seq<crate::run::DiagnosticRun<A>>,
    runs_after: Seq<crate::run::DiagnosticRun<A>>,
    runtime: Option<usize>,
    shared: bool,
)
    requires
        admission.gave_back(given_back, given_after, runs, runs_after, runtime, shared),
        runtime is Some ==> runtime->0 < runs.len(),
    ensures
        given_after.len() == given_back.len() + if shared { 1int } else { 0int },
        shared ==> {
            let given = given_after.last().replacement;
            &&& given.task == admission.authority->0.task
            &&& given.binding_key == admission.authority->0.binding_key
            &&& given.replacement == admission.authority->0.original
            &&& given.expected_generation == Some(admission.authority->0.generation)
        },
        !shared ==> runs_after == runs,
        shared && given_after.last().replaced ==> runs_after == runs,
        shared && !given_after.last().replaced && runtime is Some ==> runs_after[runtime->0 as int].failure
            is Some,
{
}

/// An act without a production is admitted exactly where it was named and its session is known,
/// with just those and in the run that it was named in. What is missing first is what is told.
pub proof fn standalone_acts_are_of_what_was_named(
    run: usize,
    lineage: Result<StandaloneLineage, &'static str>,
    session: Result<AgentSessionDiagnosticMetadata, String>,
    result: Result<StandaloneActAdmission, AdmissionError>,
)
    requires
        is_standalone_act(run, lineage, session, result),
    ensures
        result is Ok <==> lineage is Ok && session is Ok,
        result matches Ok(act) ==> act.run == run && act.cue_scope == lineage->Ok_0.cue_scope
            && act.session == session->Ok_0,
        result matches Err(error) ==> error is Failed,
        lineage is Err ==> result->Err_0->text@ == "diagnostic sink admission failed ["@
            + lineage->Err_0@ + "]"@,
        lineage is Ok && session is Err ==> result->Err_0->text@
            == "snapshot standalone diagnostic session: "@ + session->Err_0@,
{
}

/// An act that is admitted is registered for whoever hears of it: its sink, under the number that
/// it was registered with, else its authority, in its generation. An act that is not admitted is as
/// it was, and so is every other act.
pub proof fn admitted_acts_are_registered<A: SpanEventAdmission, R: AdmissionResources>(
    admission: ActAdmission,
    registry: ActSinkRegistry,
    registry_after: ActSinkRegistry,
    acts: ActRegistry,
    acts_after: ActRegistry,
    runs: DiagnosticRuns<A>,
    runs_after: DiagnosticRuns<A>,
    resources: R,
    resources_after: R,
    prepared: PreparedActAdmission,
    runtime: Option<usize>,
    result: Result<(), AdmissionError>,
)
    requires
        admission.on_admit(
            registry,
            registry_after,
            acts,
            acts_after,
            runs,
            runs_after,
            resources,
            resources_after,
            prepared,
            runtime,
            result,
        ),
    ensures
        ({
            let heard = admission.capture is Some || admission.authority is Some;
            let steps = resources_after.steps().skip(resources.steps().len() as int);
            let entry = registry_after.spec_entry(admission.act_id@);
            &&& registry.keeps_others(registry_after, admission.act_id@)
            &&& heard && registry.spec_entry(admission.act_id@) is Some ==> registry_after == registry
                && acts_after == acts && (result matches Err(error) && error is AlreadyRegistered)
            &&& result is Ok && heard && admission.capture is Some ==> (entry matches Some(
                ActSubscriber::Bound { sink_id },
            ) && (steps[0] matches AdmissionStep::SinkRegistration { sink, .. } && sink == Ok::<
                u64,
                AdmissionFault,
            >(sink_id)))
            &&& result is Ok && admission.capture is None && admission.authority is Some ==> entry
                == Some(ActSubscriber::Authority { generation: admission.authority->0.generation })
            &&& result is Ok && !heard ==> entry == registry.spec_entry(admission.act_id@)
            &&& resources_after.usages() == resources.usages() ==> entry == registry.spec_entry(
                admission.act_id@,
            ) && acts_after == acts && result is Err
        }),
{
    let steps = resources_after.steps().skip(resources.steps().len() as int);
    if !(admission.subscribes() && registry.spec_entry(admission.act_id@) is Some) {
        if admission.complete(steps) {
            admitted_acts_are_heard_of_by_their_sink(admission, steps);
            assert(resources_after.usages().len() == resources.usages().len() + 1);
        }
    }
}

/// A sink is bound to an act only once: one that is not unbound is asked to say so itself, where
/// its state is one that sinks have, and refused otherwise. Nothing else changes then.
pub proof fn only_unbound_sinks_are_bound<A: SpanEventAdmission, R: AdmissionResources>(
    request: ActRequest,
    state: Seq<char>,
    standalone: Option<StandaloneActAdmission>,
    capture: DiagnosticCaptureConfig,
    runtimes: RuntimeProducerRegistry,
    registry: ActSinkRegistry,
    registry_after: ActSinkRegistry,
    acts: ActRegistry,
    acts_after: ActRegistry,
    authorities: ActAuthorities,
    authorities_after: ActAuthorities,
    runs: DiagnosticRuns<A>,
    runs_after: DiagnosticRuns<A>,
    resources: R,
    resources_after: R,
    result: Result<(), AdmissionError>,
)
    requires
        request.on_bind(
            state,
            standalone,
            capture,
            runtimes,
            registry,
            registry_after,
            acts,
            acts_after,
            authorities,
            authorities_after,
            runs,
            runs_after,
            resources,
            resources_after,
            result,
        ),
        state != "UNBOUND"@,
    ensures
        result is Err,
        registry_after == registry && acts_after == acts && runs_after == runs && authorities_after
            == authorities,
        state == "BOUND"@ || state == "SEALED"@ || state == "CLOSED"@ <==> resources_after.steps()
            != resources.steps(),
{
    if state == "BOUND"@ || state == "SEALED"@ || state == "CLOSED"@ {
        assert(resources_after.steps().len() == resources.steps().len() + 1);
    }
}

} // verus!
