//! Facts that user code publishes through the run that it plays in.
use crate::act_registry::ActRegistry;
use crate::context::{Attempt, DiagnosticProducerError, SpanEventAdmission};
use crate::cue_producer::CueRegistry;
use crate::custom_act_binding::{
    ActAuthorities, ActAuthorityError, CustomDomainSnapshot, DomainExtension, Lookup, TaskRef,
};
use crate::custom_payload::{
    parse_candidate, CustomCandidate, CustomPayloadError, NormalizedCandidate,
};
use crate::event::{EventBody, EventCandidate};
use crate::run::{DiagnosticRun, DiagnosticRuns, RuntimeProducerError};
use crate::runtime_producer::RuntimeProducerRegistry;
use crate::scene_producer::{SceneRegistry, TaskLineage};
use std::collections::HashMap;
use vstd::prelude::*;
use vstd::string::StringExecFns;

verus! {

broadcast use vstd::std_specs::hash::group_hash_axioms;

/// Why a fact of user code was not published.
#[derive(Debug, PartialEq, Eq)]
pub enum CustomPublicationError {
    /// No run is active for the publishing task.
    NoRuntimeContext,
    /// The publishing task has no open span of its own.
    SpanNotActive,
    MultipleContexts,
    CoreUnavailable(RuntimeProducerError),
    CoreAdmission(DiagnosticProducerError),
    ExtensionRuntimeMismatch,
    Act(ActAuthorityError),
    Payload(CustomPayloadError),
    /// User code raised an error of its own.
    Raised,
}

impl CustomPublicationError {
    /// The error is one of the context that a fact is published in.
    pub open spec fn spec_is_context_error(self) -> bool {
        match self {
            CustomPublicationError::NoRuntimeContext => true,
            CustomPublicationError::SpanNotActive => true,
            CustomPublicationError::Act(error) => error == ActAuthorityError::Context,
            _ => false,
        }
    }

    pub fn is_context_error(&self) -> (context: bool)
        ensures
            context == self.spec_is_context_error(),
    {
        match self {
            CustomPublicationError::NoRuntimeContext => true,
            CustomPublicationError::SpanNotActive => true,
            CustomPublicationError::Act(error) => *error == ActAuthorityError::Context,
            _ => false,
        }
    }

    /// What the error says. An error that was raised speaks for itself.
    pub open spec fn text(self) -> Option<Seq<char>> {
        match self {
            CustomPublicationError::NoRuntimeContext => Some(
                "diagnostic publication requires an active Runtime context"@,
            ),
            CustomPublicationError::SpanNotActive => Some(
                "custom span is not active in the current task"@,
            ),
            CustomPublicationError::MultipleContexts => Some(
                "custom publication matched multiple Runtime contexts"@,
            ),
            CustomPublicationError::CoreUnavailable(failure) => Some(
                "diagnostic core is unavailable ["@ + failure.spec_code() + "]"@,
            ),
            CustomPublicationError::CoreAdmission(error) => Some(
                "diagnostic core admission failed ["@ + error.code@ + "]"@,
            ),
            CustomPublicationError::ExtensionRuntimeMismatch => Some(
                "custom diagnostic domain extension returned another Runtime"@,
            ),
            CustomPublicationError::Act(error) => match error.spec_message() {
                Some(message) => Some(message@),
                None => None,
            },
            CustomPublicationError::Payload(error) => error.text(),
            CustomPublicationError::Raised => None,
        }
    }

    /// Describes the error to a reader.
    pub fn describe(&self) -> (text: Option<String>)
        ensures
            match text {
                Some(text) => self.text() == Some(text@),
                None => self.text() is None,
            },
    {
        match self {
            CustomPublicationError::NoRuntimeContext => Some(
                "diagnostic publication requires an active Runtime context".to_owned(),
            ),
            CustomPublicationError::SpanNotActive => Some(
                "custom span is not active in the current task".to_owned(),
            ),
            CustomPublicationError::MultipleContexts => Some(
                "custom publication matched multiple Runtime contexts".to_owned(),
            ),
            CustomPublicationError::CoreUnavailable(failure) => Some(
                "diagnostic core is unavailable [".to_owned().concat(failure.code()).concat("]"),
            ),
            CustomPublicationError::CoreAdmission(error) => Some(
                "diagnostic core admission failed [".to_owned().concat(error.code()).concat("]"),
            ),
            CustomPublicationError::ExtensionRuntimeMismatch => Some(
                "custom diagnostic domain extension returned another Runtime".to_owned(),
            ),
            CustomPublicationError::Act(error) => match error.message() {
                Some(message) => Some(message.to_owned()),
                None => None,
            },
            CustomPublicationError::Payload(error) => error.describe(),
            CustomPublicationError::Raised => None,
        }
    }
}

/// The open spans of a task, outermost first.
#[derive(Debug, PartialEq, Eq)]
pub struct TaskSpanStack {
    pub serial: u64,
    pub spans: Vec<u64>,
}

/// The tasks of one run that have spans of their own.
pub struct CustomRunBinding {
    pub binding_key: usize,
    pub task_spans: HashMap<usize, TaskSpanStack>,
}

impl CustomRunBinding {
    pub fn new(binding_key: usize) -> (binding: Self)
        ensures
            binding.binding_key == binding_key,
            binding.task_spans@ == Map::<usize, TaskSpanStack>::empty(),
    {
        CustomRunBinding { binding_key, task_spans: HashMap::new() }
    }

    /// A stack is kept for this very task.
    pub open spec fn registered(self, task: TaskRef) -> bool {
        self.task_spans@.contains_key(task.key) && self.task_spans@[task.key].serial == task.serial
    }

    /// The open spans of a task. A task that has the key of one that is gone has none.
    pub open spec fn spans_of(self, task: TaskRef) -> Seq<u64> {
        if self.registered(task) {
            self.task_spans@[task.key].spans@
        } else {
            Seq::empty()
        }
    }

    /// The span that a fact of a task hangs in: its innermost, else the one around the task.
    pub open spec fn parent_of(self, task: TaskRef, containing_span_id: u64) -> u64 {
        if self.spans_of(task).len() > 0 {
            self.spans_of(task).last()
        } else {
            containing_span_id
        }
    }

    /// Nothing has changed but what is kept under the key of the given task.
    pub open spec fn keeps_others(self, after: Self, task: TaskRef) -> bool {
        &&& after.binding_key == self.binding_key
        &&& after.task_spans@.remove(task.key) =~= self.task_spans@.remove(task.key)
    }

    fn exact(&self, task: TaskRef) -> (exact: bool)
        ensures
            exact == self.registered(task),
    {
        match self.task_spans.get(&task.key) {
            Some(stack) => stack.serial == task.serial,
            None => false,
        }
    }

    fn innermost(&self, task: TaskRef, containing_span_id: u64) -> (span_id: u64)
        ensures
            span_id == self.parent_of(task, containing_span_id),
    {
        match self.task_spans.get(&task.key) {
            Some(stack) if stack.serial == task.serial && stack.spans.len() > 0 => {
                stack.spans[stack.spans.len() - 1]
            },
            _ => containing_span_id,
        }
    }

    /// The span that a fact of a task hangs in. What a task that is gone has left is forgotten.
    pub fn current_parent(&mut self, task: TaskRef, containing_span_id: u64) -> (span_id: u64)
        ensures
            span_id == old(self).parent_of(task, containing_span_id),
            final(self).spans_of(task) == old(self).spans_of(task),
            final(self).registered(task) == old(self).registered(task),
            old(self).keeps_others(*final(self), task),
    {
        if !self.exact(task) {
            self.task_spans.remove(&task.key);
            return containing_span_id;
        }
        self.innermost(task, containing_span_id)
    }

    /// The span that a new span of a task hangs in. The task is known from here on.
    pub fn prepare_span_task(&mut self, task: TaskRef, containing_span_id: u64) -> (span_id: u64)
        ensures
            span_id == old(self).parent_of(task, containing_span_id),
            final(self).spans_of(task) == old(self).spans_of(task),
            final(self).registered(task),
            old(self).keeps_others(*final(self), task),
    {
        if !self.exact(task) {
            let stack = TaskSpanStack { serial: task.serial, spans: Vec::new() };
            self.task_spans.insert(task.key, stack);
        }
        self.innermost(task, containing_span_id)
    }

    /// Opens a span within the innermost of a task. The task has to be known.
    pub fn push_span(&mut self, task: TaskRef, span_id: u64) -> (pushed: bool)
        ensures
            pushed == old(self).registered(task),
            old(self).keeps_others(*final(self), task),
            if pushed {
                &&& final(self).registered(task)
                &&& final(self).spans_of(task) == old(self).spans_of(task).push(span_id)
            } else {
                final(self).task_spans@ == old(self).task_spans@
            },
    {
        if !self.exact(task) {
            return false;
        }
        match self.task_spans.remove(&task.key) {
            Some(stack) => {
                let mut stack = stack;
                stack.spans.push(span_id);
                self.task_spans.insert(task.key, stack);
                true
            },
            None => false,
        }
    }

    /// Closes the innermost span of a task. A task without spans is forgotten.
    pub fn pop_span(&mut self, task: TaskRef) -> (span_id: Option<u64>)
        ensures
            old(self).keeps_others(*final(self), task),
            if old(self).spans_of(task).len() == 0 {
                &&& span_id is None
                &&& !final(self).registered(task)
            } else {
                &&& span_id == Some(old(self).spans_of(task).last())
                &&& final(self).spans_of(task) == old(self).spans_of(task).drop_last()
                &&& final(self).registered(task) == (old(self).spans_of(task).len() > 1)
            },
    {
        if !self.exact(task) {
            self.task_spans.remove(&task.key);
            return None;
        }
        match self.task_spans.remove(&task.key) {
            Some(stack) => {
                let mut stack = stack;
                let span_id = stack.spans.pop();
                if stack.spans.len() > 0 {
                    self.task_spans.insert(task.key, stack);
                }
                span_id
            },
            None => None,
        }
    }
}

/// The other registries that say where a fact hangs.
pub struct CustomSources<'a> {
    pub runtimes: &'a RuntimeProducerRegistry,
    pub cues: &'a CueRegistry,
    pub scenes: &'a SceneRegistry,
    pub acts: &'a ActRegistry,
    pub authorities: &'a ActAuthorities,
}

/// What is known of the publishing task from the side of one run: its lineage there, the task
/// itself, and what someone else who resolves facts has answered.
#[derive(Debug, PartialEq, Eq)]
pub struct PublicationContext {
    pub lineage: Lookup<TaskLineage>,
    pub task: Lookup<TaskRef>,
    /// The run that the task's authority was given in is still there.
    pub authority_runtime_alive: bool,
    pub answer: Lookup<CustomDomainSnapshot>,
}

impl PublicationContext {
    /// What someone else has answered is of one of the open runs, `open` in number.
    pub open spec fn answers_fit(self, open: nat) -> bool {
        match self.answer {
            Lookup::Found(domain) => domain.runtime < open && domain.run < open,
            _ => true,
        }
    }
}

impl<'a> CustomSources<'a> {
    /// Everything that the registries know is of a run that is open.
    pub open spec fn wf<A: SpanEventAdmission>(self, runs: DiagnosticRuns<A>) -> bool {
        &&& self.runtimes.wf()
        &&& self.runtimes.fits(runs)
        &&& self.cues.fits(runs)
        &&& self.scenes.fits(runs)
        &&& self.acts.wf()
        &&& self.acts.fits(runs)
        &&& self.authorities.fits(runs)
    }

    /// What the acts, or someone else, resolve a lineage to. None means that it is not theirs.
    pub open spec fn extension_answer(
        self,
        binding_key: usize,
        lineage: TaskLineage,
        context: PublicationContext,
    ) -> Result<Option<CustomDomainSnapshot>, CustomPublicationError> {
        match self.authorities.extension {
            DomainExtension::Vacant => Ok(None),
            DomainExtension::Acts => match lineage.act_authority {
                None => Ok(None),
                Some(share) => if share.authority >= self.authorities@.len() {
                    Err(CustomPublicationError::Act(ActAuthorityError::Context))
                } else {
                    let authority = self.authorities@[share.authority as int];
                    match authority.resolution(
                        context.authority_runtime_alive,
                        self.runtimes.spec_run_bound(Some(binding_key)),
                        self.acts.spec_lineage(authority.act_id@),
                        binding_key,
                        share.generation,
                        share.role,
                    ) {
                        Ok(snapshot) => Ok(Some(snapshot)),
                        Err(error) => Err(CustomPublicationError::Act(error)),
                    }
                },
            },
            DomainExtension::Other => match context.answer {
                Lookup::Raised => Err(CustomPublicationError::Raised),
                Lookup::Absent => Ok(None),
                Lookup::Found(snapshot) => Ok(Some(snapshot)),
            },
        }
    }

    /// Where the run's own lineage puts a fact.
    pub open spec fn own_snapshot<A: SpanEventAdmission>(
        self,
        runs: Seq<DiagnosticRun<A>>,
        runtime: usize,
        binding_key: usize,
        lineage: TaskLineage,
    ) -> Option<CustomDomainSnapshot> {
        match lineage.runtime {
            Some((runtime_binding, phase)) => if runtime_binding != binding_key {
                None
            } else {
                let place = self.runtimes.spec_for_binding(binding_key)->0;
                let producer = self.runtimes.producers@[place as int];
                match producer.spec_lineage(runs[producer.run as int], phase) {
                    Some(snapshot) => Some(
                        CustomDomainSnapshot {
                            runtime: snapshot.run,
                            run: snapshot.run,
                            scope: snapshot.scope,
                            containing_span_id: snapshot.containing_span_id,
                        },
                    ),
                    None => None,
                }
            },
            None => match lineage.cued_key {
                Some(cued_key) => match self.cues.spec_lineage(cued_key) {
                    Some(snapshot) => Some(
                        CustomDomainSnapshot {
                            runtime: snapshot.run,
                            run: snapshot.run,
                            scope: snapshot.cue_scope,
                            containing_span_id: snapshot.containing_span_id,
                        },
                    ),
                    None => None,
                },
                None => match self.scenes.spec_lineage(lineage) {
                    Some(snapshot) => Some(
                        CustomDomainSnapshot {
                            runtime,
                            run: snapshot.run,
                            scope: snapshot.scope,
                            containing_span_id: snapshot.scene_span_id,
                        },
                    ),
                    None => None,
                },
            },
        }
    }

    /// Where a fact of a task with this lineage hangs in a run. None means that the run does not
    /// know the task.
    pub open spec fn spec_snapshot<A: SpanEventAdmission>(
        self,
        runs: Seq<DiagnosticRun<A>>,
        binding_key: usize,
        lineage: TaskLineage,
        context: PublicationContext,
    ) -> Result<Option<CustomDomainSnapshot>, CustomPublicationError> {
        match self.runtimes.spec_run_bound(Some(binding_key)) {
            None => Ok(None),
            Some(runtime) => match runs[runtime as int].failure {
                Some(failure) => Err(CustomPublicationError::CoreUnavailable(failure)),
                None => match self.extension_answer(binding_key, lineage, context) {
                    Err(error) => Err(error),
                    Ok(Some(snapshot)) => if snapshot.runtime != runtime {
                        Err(CustomPublicationError::ExtensionRuntimeMismatch)
                    } else {
                        Ok(Some(snapshot))
                    },
                    Ok(None) => Ok(self.own_snapshot(runs, runtime, binding_key, lineage)),
                },
            },
        }
    }

    /// The runs after a snapshot was looked for. A mismatch is latched where it was found.
    pub open spec fn runs_after_snapshot<A: SpanEventAdmission>(
        self,
        runs: Seq<DiagnosticRun<A>>,
        binding_key: usize,
        lineage: TaskLineage,
        snapshot: Result<Option<CustomDomainSnapshot>, CustomPublicationError>,
    ) -> Seq<DiagnosticRun<A>> {
        match snapshot {
            Err(CustomPublicationError::ExtensionRuntimeMismatch) => DiagnosticRuns::latched_at(
                runs,
                self.runtimes.spec_run_bound(Some(binding_key)),
                Some(
                    RuntimeProducerError::State { code: "custom.domain-extension-runtime-mismatch" },
                ),
            ),
            Err(CustomPublicationError::Act(error)) => if lineage.act_authority is Some
                && lineage.act_authority->0.authority < self.authorities@.len() {
                DiagnosticRuns::latched_at(
                    runs,
                    Some(
                        self.authorities@[lineage.act_authority->0.authority as int].runtime,
                    ),
                    error.failure(),
                )
            } else {
                runs
            },
            _ => runs,
        }
    }

    fn ask_extension<A: SpanEventAdmission>(
        &self,
        runs: &mut DiagnosticRuns<A>,
        binding_key: usize,
        lineage: &TaskLineage,
        context: &PublicationContext,
    ) -> (answer: Result<Option<CustomDomainSnapshot>, CustomPublicationError>)
        requires
            self.wf(*old(runs)),
        ensures
            answer == self.extension_answer(binding_key, *lineage, *context),
            final(runs)@ == self.runs_after_snapshot(old(runs)@, binding_key, *lineage, answer),
            final(runs)@.len() == old(runs)@.len(),
    {
        match self.authorities.extension {
            DomainExtension::Vacant => Ok(None),
            DomainExtension::Acts => match &lineage.act_authority {
                None => Ok(None),
                Some(share) => {
                    if share.authority >= self.authorities.authorities.len() {
                        return Err(CustomPublicationError::Act(ActAuthorityError::Context));
                    }
                    match self.authorities.authorities[share.authority].resolve(
                        self.runtimes,
                        self.acts,
                        runs,
                        context.authority_runtime_alive,
                        binding_key,
                        share.generation,
                        share.role,
                    ) {
                        Ok(snapshot) => Ok(Some(snapshot)),
                        Err(error) => Err(CustomPublicationError::Act(error)),
                    }
                },
            },
            DomainExtension::Other => match &context.answer {
                Lookup::Raised => Err(CustomPublicationError::Raised),
                Lookup::Absent => Ok(None),
                Lookup::Found(snapshot) => Ok(Some(snapshot.clone())),
            },
        }
    }

    /// Finds where a fact of a task with this lineage hangs in a run.
    pub fn snapshot_from_lineage<A: SpanEventAdmission>(
        &self,
        runs: &mut DiagnosticRuns<A>,
        binding_key: usize,
        lineage: &TaskLineage,
        context: &PublicationContext,
    ) -> (snapshot: Result<Option<CustomDomainSnapshot>, CustomPublicationError>)
        requires
            self.wf(*old(runs)),
        ensures
            snapshot == self.spec_snapshot(old(runs)@, binding_key, *lineage, *context),
            final(runs)@ == self.runs_after_snapshot(old(runs)@, binding_key, *lineage, snapshot),
            final(runs)@.len() == old(runs)@.len(),
    {
        let runtime = match self.runtimes.run_bound(Some(binding_key)) {
            Some(runtime) => runtime,
            None => return Ok(None),
        };
        if let Some(failure) = runs.runs[runtime].failure() {
            return Err(CustomPublicationError::CoreUnavailable(failure));
        }
        match self.ask_extension(runs, binding_key, lineage, context) {
            Err(error) => return Err(error),
            Ok(Some(snapshot)) => {
                if snapshot.runtime != runtime {
                    runs.runs[runtime].latch_state_failure(
                        "custom.domain-extension-runtime-mismatch",
                    );
                    return Err(CustomPublicationError::ExtensionRuntimeMismatch);
                }
                return Ok(Some(snapshot));
            },
            Ok(None) => {},
        }
        if let Some((runtime_binding, phase)) = lineage.runtime {
            if runtime_binding != binding_key {
                return Ok(None);
            }
            return match self.runtimes.lineage_snapshot(&*runs, binding_key, phase) {
                Some(snapshot) => Ok(
                    Some(
                        CustomDomainSnapshot {
                            runtime: snapshot.run,
                            run: snapshot.run,
                            scope: snapshot.scope,
                            containing_span_id: snapshot.containing_span_id,
                        },
                    ),
                ),
                None => Ok(None),
            };
        }
        if let Some(cued_key) = lineage.cued_key {
            return match self.cues.lineage_snapshot(cued_key) {
                Some(snapshot) => Ok(
                    Some(
                        CustomDomainSnapshot {
                            runtime: snapshot.run,
                            run: snapshot.run,
                            scope: snapshot.cue_scope,
                            containing_span_id: snapshot.containing_span_id,
                        },
                    ),
                ),
                None => Ok(None),
            };
        }
        match self.scenes.lineage_snapshot(lineage) {
            Some(snapshot) => Ok(
                Some(
                    CustomDomainSnapshot {
                        runtime,
                        run: snapshot.run,
                        scope: snapshot.scope,
                        containing_span_id: snapshot.scene_span_id,
                    },
                ),
            ),
            None => Ok(None),
        }
    }

    /// What the publishing task may do in a run.
    pub open spec fn spec_authorization<A: SpanEventAdmission>(
        self,
        runs: Seq<DiagnosticRun<A>>,
        binding_key: usize,
        context: PublicationContext,
    ) -> Result<Option<(TaskRef, CustomDomainSnapshot)>, CustomPublicationError> {
        match context.lineage {
            Lookup::Raised => Err(CustomPublicationError::Raised),
            Lookup::Absent => Ok(None),
            Lookup::Found(lineage) => if !lineage.active {
                Ok(None)
            } else {
                match self.spec_snapshot(runs, binding_key, lineage, context) {
                    Err(error) => Err(error),
                    Ok(None) => Ok(None),
                    Ok(Some(snapshot)) => match context.task {
                        Lookup::Raised => Err(CustomPublicationError::Raised),
                        Lookup::Absent => Ok(None),
                        Lookup::Found(task) => Ok(Some((task, snapshot))),
                    },
                }
            },
        }
    }

    /// The runs after the authorization of the publishing task was looked for in one of them.
    pub open spec fn runs_after_authorization<A: SpanEventAdmission>(
        self,
        runs: Seq<DiagnosticRun<A>>,
        binding_key: usize,
        context: PublicationContext,
    ) -> Seq<DiagnosticRun<A>> {
        match context.lineage {
            Lookup::Found(lineage) => if !lineage.active {
                runs
            } else {
                self.runs_after_snapshot(
                    runs,
                    binding_key,
                    lineage,
                    self.spec_snapshot(runs, binding_key, lineage, context),
                )
            },
            _ => runs,
        }
    }

    /// A fact is authorized in runs that are open.
    proof fn authorization_is_open<A: SpanEventAdmission>(
        self,
        runs: DiagnosticRuns<A>,
        binding_key: usize,
        context: PublicationContext,
    )
        requires
            self.wf(runs),
            context.answers_fit(runs@.len()),
        ensures
            match self.spec_authorization(runs@, binding_key, context) {
                Ok(Some((_, domain))) => domain.runtime < runs@.len() && domain.run < runs@.len(),
                _ => true,
            },
    {
        if let Some(runtime) = self.runtimes.spec_run_bound(Some(binding_key)) {
            let place = self.runtimes.spec_for_binding(binding_key)->0;
            assert(self.runtimes.producers@[place as int].run < runs@.len());
        }
    }

    /// Finds what the publishing task may do in a run.
    pub fn current_authorization<A: SpanEventAdmission>(
        &self,
        runs: &mut DiagnosticRuns<A>,
        binding_key: usize,
        context: &PublicationContext,
    ) -> (authorization: Result<Option<(TaskRef, CustomDomainSnapshot)>, CustomPublicationError>)
        requires
            self.wf(*old(runs)),
        ensures
            authorization == self.spec_authorization(old(runs)@, binding_key, *context),
            final(runs)@ == self.runs_after_authorization(old(runs)@, binding_key, *context),
            final(runs)@.len() == old(runs)@.len(),
    {
        let lineage = match &context.lineage {
            Lookup::Raised => return Err(CustomPublicationError::Raised),
            Lookup::Absent => return Ok(None),
            Lookup::Found(lineage) => lineage,
        };
        if !lineage.active {
            return Ok(None);
        }
        match self.snapshot_from_lineage(runs, binding_key, lineage, context) {
            Err(error) => Err(error),
            Ok(None) => Ok(None),
            Ok(Some(snapshot)) => match &context.task {
                Lookup::Raised => Err(CustomPublicationError::Raised),
                Lookup::Absent => Ok(None),
                Lookup::Found(task) => Ok(Some((*task, snapshot))),
            },
        }
    }
}

/// A publication that a run has authorized: the place of its binding, the task, and where the fact
/// hangs.
#[derive(Debug, PartialEq, Eq)]
pub struct AuthorizedPublication {
    pub binding: usize,
    pub task: TaskRef,
    pub domain: CustomDomainSnapshot,
}

/// A binding was installed before.
#[derive(Clone, Copy, Debug, PartialEq, Eq, Structural)]
pub struct CustomBindingInstalled;

impl CustomBindingInstalled {
    /// Describes the error to a reader.
    pub fn describe(&self) -> (text: String)
        ensures
            text@ == "custom diagnostic binding is already installed for this Runtime"@,
    {
        "custom diagnostic binding is already installed for this Runtime".to_owned()
    }
}

/// The runs that user code can publish through, in the order of their binding.
pub struct CustomBindingRegistry {
    pub bindings: Vec<CustomRunBinding>,
}

impl View for CustomBindingRegistry {
    type V = Seq<CustomRunBinding>;

    open spec fn view(&self) -> Seq<CustomRunBinding> {
        self.bindings@
    }
}

impl CustomBindingRegistry {
    /// Each run is bound once.
    pub open spec fn wf(self) -> bool {
        forall|i: int, j: int|
            0 <= i < j < self@.len() ==> (#[trigger] self@[i]).binding_key != (
            #[trigger] self@[j]).binding_key
    }

    pub open spec fn has(self, binding_key: usize, place: int) -> bool {
        0 <= place < self@.len() && self@[place].binding_key == binding_key
    }

    pub fn new() -> (registry: Self)
        ensures
            registry.wf(),
            registry@ == Seq::<CustomRunBinding>::empty(),
    {
        CustomBindingRegistry { bindings: Vec::new() }
    }

    /// The place of a run's binding.
    pub fn place_of(&self, binding_key: usize) -> (place: Option<usize>)
        ensures
            match place {
                Some(place) => self.has(binding_key, place as int),
                None => forall|place: int| !self.has(binding_key, place),
            },
    {
        for i in 0..self.bindings.len()
            invariant
                forall|k: int| 0 <= k < i ==> (#[trigger] self@[k]).binding_key != binding_key,
        {
            if self.bindings[i].binding_key == binding_key {
                return Some(i);
            }
        }
        None
    }

    /// Binds a run, once.
    pub fn register_binding(&mut self, binding_key: usize) -> (result: Result<
        usize,
        CustomBindingInstalled,
    >)
        requires
            old(self).wf(),
        ensures
            final(self).wf(),
            match result {
                Ok(place) => {
                    &&& forall|other: int| !old(self).has(binding_key, other)
                    &&& place == old(self)@.len()
                    &&& final(self)@.len() == place + 1
                    &&& final(self)@.take(place as int) =~= old(self)@
                    &&& final(self)@[place as int].binding_key == binding_key
                    &&& final(self)@[place as int].task_spans@ == Map::<
                        usize,
                        TaskSpanStack,
                    >::empty()
                },
                Err(_) => {
                    &&& exists|other: int| old(self).has(binding_key, other)
                    &&& *final(self) == *old(self)
                },
            },
    {
        if let Some(place) = self.place_of(binding_key) {
            assert(old(self).has(binding_key, place as int));
            return Err(CustomBindingInstalled);
        }
        let place: usize = self.bindings.len();
        self.bindings.push(CustomRunBinding::new(binding_key));
        assert forall|i: int, j: int| 0 <= i < j < self@.len() implies (
        #[trigger] self@[i]).binding_key != (#[trigger] self@[j]).binding_key by {
            assert(self@[i] == old(self)@[i]);
            if j == place {
                assert(!old(self).has(binding_key, i));
            } else {
                assert(self@[j] == old(self)@[j]);
            }
        }
        Ok(place)
    }

    /// Forgets a run that is gone.
    pub fn release_binding(&mut self, binding_key: usize)
        requires
            old(self).wf(),
        ensures
            final(self).wf(),
            forall|place: int| !final(self).has(binding_key, place),
            forall|place: int| #[trigger]
                old(self).has(binding_key, place) ==> final(self)@ == old(self)@.remove(place),
            (forall|place: int| !old(self).has(binding_key, place)) ==> final(self)@
                == old(self)@,
    {
        if let Some(place) = self.place_of(binding_key) {
            self.bindings.remove(place);
            assert forall|other: int| #[trigger] old(self).has(binding_key, other) implies self@
                == old(self)@.remove(other) by {
                if other < place {
                    assert(old(self)@[other].binding_key != old(self)@[place as int].binding_key);
                }
                if place < other {
                    assert(old(self)@[place as int].binding_key != old(self)@[other].binding_key);
                }
            }
            assert(old(self).has(binding_key, place as int));
            assert forall|other: int| !self.has(binding_key, other) by {
                if self.has(binding_key, other) {
                    if other < place {
                        assert(old(self)@[other].binding_key != old(
                            self,
                        )@[place as int].binding_key);
                    } else {
                        assert(old(self)@[place as int].binding_key != old(self)@[other
                            + 1].binding_key);
                    }
                }
            }
        }
    }

    /// The publication that a run has authorized, as long as no second one does: the runs from
    /// `place` on are still to be asked.
    pub open spec fn authorize_from<A: SpanEventAdmission>(
        self,
        sources: CustomSources,
        runs: Seq<DiagnosticRun<A>>,
        contexts: Seq<PublicationContext>,
        place: int,
        found: Option<AuthorizedPublication>,
    ) -> (Result<AuthorizedPublication, CustomPublicationError>, Seq<DiagnosticRun<A>>)
        decreases self@.len() - place,
    {
        if place >= self@.len() {
            match found {
                Some(authorized) => (Ok(authorized), runs),
                None => (Err(CustomPublicationError::NoRuntimeContext), runs),
            }
        } else {
            match sources.spec_authorization(runs, self@[place].binding_key, contexts[place]) {
                Err(error) => (
                    Err(error),
                    sources.runs_after_authorization(
                        runs,
                        self@[place].binding_key,
                        contexts[place],
                    ),
                ),
                Ok(None) => self.authorize_from(sources, runs, contexts, place + 1, found),
                Ok(Some((task, domain))) => match found {
                    Some(previous) => (
                        Err(CustomPublicationError::MultipleContexts),
                        DiagnosticRuns::latched_at(
                            DiagnosticRuns::latched_at(
                                runs,
                                Some(previous.domain.runtime),
                                Some(Self::ambiguity()),
                            ),
                            Some(domain.runtime),
                            Some(Self::ambiguity()),
                        ),
                    ),
                    None => self.authorize_from(
                        sources,
                        runs,
                        contexts,
                        place + 1,
                        Some(AuthorizedPublication { binding: place as usize, task, domain }),
                    ),
                },
            }
        }
    }

    /// More than one run has authorized a publication.
    pub open spec fn ambiguity() -> RuntimeProducerError {
        RuntimeProducerError::State { code: "custom.multiple-runtime-contexts" }
    }

    /// Everything that a publication can come upon is of a run that is open, and something is known
    /// of the publishing task from the side of each run.
    pub open spec fn sound<A: SpanEventAdmission>(
        self,
        sources: CustomSources,
        runs: DiagnosticRuns<A>,
        contexts: Seq<PublicationContext>,
    ) -> bool {
        &&& sources.wf(runs)
        &&& contexts.len() == self@.len()
        &&& forall|place: int|
            0 <= place < contexts.len() ==> (#[trigger] contexts[place]).answers_fit(runs@.len())
    }

    /// Finds the one run that authorizes the publishing task. `contexts` says what is known of the
    /// task from the side of each run.
    pub fn authorize_publication<A: SpanEventAdmission>(
        &self,
        sources: &CustomSources,
        runs: &mut DiagnosticRuns<A>,
        contexts: &Vec<PublicationContext>,
    ) -> (authorized: Result<AuthorizedPublication, CustomPublicationError>)
        requires
            self.sound(*sources, *old(runs), contexts@),
        ensures
            final(runs)@.len() == old(runs)@.len(),
            (authorized, final(runs)@) == self.authorize_from(
                *sources,
                old(runs)@,
                contexts@,
                0,
                None,
            ),
            match authorized {
                Ok(authorized) => {
                    &&& authorized.binding < self@.len()
                    &&& authorized.domain.runtime < old(runs)@.len()
                    &&& authorized.domain.run < old(runs)@.len()
                    &&& final(runs)@ == old(runs)@
                },
                Err(_) => true,
            },
    {
        let mut found: Option<AuthorizedPublication> = None;
        let mut place: usize = 0;
        while place < self.bindings.len()
            invariant
                place <= self@.len(),
                runs@ == old(runs)@,
                self.sound(*sources, *old(runs), contexts@),
                match found {
                    Some(authorized) => {
                        &&& authorized.binding < self@.len()
                        &&& authorized.domain.runtime < runs@.len()
                        &&& authorized.domain.run < runs@.len()
                    },
                    None => true,
                },
                self.authorize_from(*sources, old(runs)@, contexts@, 0, None)
                    == self.authorize_from(*sources, old(runs)@, contexts@, place as int, found),
            decreases self.bindings.len() - place,
        {
            let binding_key = self.bindings[place].binding_key;
            proof {
                sources.authorization_is_open(*runs, binding_key, contexts@[place as int]);
            }
            match sources.current_authorization(runs, binding_key, &contexts[place]) {
                Err(error) => return Err(error),
                Ok(None) => {},
                Ok(Some((task, domain))) => {
                    if let Some(previous) = &found {
                        runs.runs[previous.domain.runtime].latch_state_failure(
                            "custom.multiple-runtime-contexts",
                        );
                        runs.runs[domain.runtime].latch_state_failure(
                            "custom.multiple-runtime-contexts",
                        );
                        return Err(CustomPublicationError::MultipleContexts);
                    }
                    found = Some(AuthorizedPublication { binding: place, task, domain });
                },
            }
            place = place + 1;
        }
        match found {
            Some(authorized) => Ok(authorized),
            None => Err(CustomPublicationError::NoRuntimeContext),
        }
    }
}

/// The event that a fact of user code becomes. `parent` is the span that it hangs in, and `own` the
/// span that it ends.
pub open spec fn event_of(
    candidate: CustomCandidate,
    domain: CustomDomainSnapshot,
    parent: u64,
    own: u64,
) -> EventCandidate {
    EventCandidate {
        unheard: false,
        scope: domain.scope,
        cause: None,
        body: match candidate {
            CustomCandidate::Instant { name, severity, attributes } => {
                EventBody::CustomInstantOccurred {
                    name,
                    containing_id: Some(parent),
                    severity: Some(severity),
                    attributes,
                }
            },
            CustomCandidate::Counter { counter, value, unit, dimensions } => {
                EventBody::CustomCounterSampled { name: counter, number: value, unit, dimensions }
            },
            CustomCandidate::SpanStart { span, span_attributes } => EventBody::CustomSpanStarted {
                name: span,
                parent_id: Some(parent),
                attributes: span_attributes,
            },
            CustomCandidate::SpanFinish { outcome } => EventBody::CustomSpanFinished {
                custom_span_id: own,
                custom_outcome: outcome,
            },
        },
    }
}

/// The open spans of a task after its fact, which got `sequence` where it was accepted.
pub open spec fn spans_after(
    spans: Seq<u64>,
    candidate: CustomCandidate,
    sequence: Option<u64>,
) -> Seq<u64> {
    match candidate {
        CustomCandidate::SpanStart { .. } => match sequence {
            Some(sequence) => spans.push(sequence),
            None => spans,
        },
        CustomCandidate::SpanFinish { .. } => spans.drop_last(),
        _ => spans,
    }
}

impl CustomRunBinding {
    /// What came of a fact of user code.
    pub open spec fn on_admitted<A: SpanEventAdmission>(
        self,
        after: Self,
        runs: DiagnosticRuns<A>,
        runs_after: DiagnosticRuns<A>,
        task: TaskRef,
        domain: CustomDomainSnapshot,
        candidate: CustomCandidate,
        result: Result<(), CustomPublicationError>,
    ) -> bool {
        match runs@[domain.runtime as int].failure {
            Some(failure) => {
                &&& result == Err::<(), _>(CustomPublicationError::CoreUnavailable(failure))
                &&& after == self
                &&& runs_after@ == runs@
            },
            None => {
                let spans = self.spans_of(task);
                let context = runs@[domain.run as int].context;
                let context_after = runs_after@[domain.run as int].context;
                &&& self.keeps_others(after, task)
                &&& if candidate is SpanFinish && spans.len() == 0 {
                    &&& result == Err::<(), _>(CustomPublicationError::SpanNotActive)
                    &&& after.spans_of(task) =~= spans
                    &&& runs_after@ == runs@
                } else {
                    &&& context_after.reports(
                        context,
                        event_of(
                            candidate,
                            domain,
                            self.parent_of(task, domain.containing_span_id),
                            spans.last(),
                        ).alone(),
                    )
                    &&& runs_after.stepped(
                        runs,
                        domain.run,
                        Some(domain.runtime),
                        RuntimeProducerError::refused(context_after.refusal_since(context)),
                    )
                    &&& after.spans_of(task) =~= spans_after(
                        spans,
                        candidate,
                        Attempt::nth(context_after.accepted_since(context), 0),
                    )
                    &&& match context_after.refusal_since(context) {
                        Some(error) => result == Err::<(), _>(
                            CustomPublicationError::CoreAdmission(error),
                        ),
                        None => result == Ok::<(), CustomPublicationError>(()),
                    }
                }
            },
        }
    }

    fn core_failure<A: SpanEventAdmission>(
        runs: &mut DiagnosticRuns<A>,
        runtime: usize,
        error: DiagnosticProducerError,
    ) -> (failure: CustomPublicationError)
        requires
            runtime < old(runs)@.len(),
        ensures
            failure == CustomPublicationError::CoreAdmission(error),
            final(runs)@ == DiagnosticRuns::latched_at(
                old(runs)@,
                Some(runtime),
                Some(RuntimeProducerError::Diagnostic(error)),
            ),
    {
        let kept = error.clone();
        runs.runs[runtime].latch_diagnostic_failure(error);
        CustomPublicationError::CoreAdmission(kept)
    }

    /// Reports a fact of user code.
    pub fn admit_candidate<A: SpanEventAdmission>(
        &mut self,
        runs: &mut DiagnosticRuns<A>,
        task: TaskRef,
        domain: CustomDomainSnapshot,
        candidate: CustomCandidate,
    ) -> (result: Result<(), CustomPublicationError>)
        requires
            domain.runtime < old(runs)@.len(),
            domain.run < old(runs)@.len(),
        ensures
            final(runs)@.len() == old(runs)@.len(),
            old(self).on_admitted(
                *final(self),
                *old(runs),
                *final(runs),
                task,
                domain,
                candidate,
                result,
            ),
    {
        if let Some(failure) = runs.runs[domain.runtime].failure() {
            return Err(CustomPublicationError::CoreUnavailable(failure));
        }
        let ghost before = runs@[domain.run as int].context;
        let runtime = domain.runtime;
        let run = domain.run;
        match candidate {
            CustomCandidate::Instant { name, severity, attributes } => {
                let parent = self.current_parent(task, domain.containing_span_id);
                let reply = runs.runs[run].context.report(
                    EventCandidate {
                        unheard: false,
                        scope: domain.scope,
                        cause: None,
                        body: EventBody::CustomInstantOccurred {
                            name,
                            containing_id: Some(parent),
                            severity: Some(severity),
                            attributes,
                        },
                    },
                );
                match reply {
                    Ok(_) => Ok(()),
                    Err(error) => Err(Self::core_failure(runs, runtime, error)),
                }
            },
            CustomCandidate::Counter { counter, value, unit, dimensions } => {
                let reply = runs.runs[run].context.report(
                    EventCandidate {
                        unheard: false,
                        scope: domain.scope,
                        cause: None,
                        body: EventBody::CustomCounterSampled {
                            name: counter,
                            number: value,
                            unit,
                            dimensions,
                        },
                    },
                );
                match reply {
                    Ok(_) => Ok(()),
                    Err(error) => Err(Self::core_failure(runs, runtime, error)),
                }
            },
            CustomCandidate::SpanStart { span, span_attributes } => {
                let parent = self.prepare_span_task(task, domain.containing_span_id);
                let reply = runs.runs[run].context.report(
                    EventCandidate {
                        unheard: false,
                        scope: domain.scope,
                        cause: None,
                        body: EventBody::CustomSpanStarted {
                            name: span,
                            parent_id: Some(parent),
                            attributes: span_attributes,
                        },
                    },
                );
                match reply {
                    Ok(span_id) => {
                        self.push_span(task, span_id);
                        Ok(())
                    },
                    Err(error) => Err(Self::core_failure(runs, runtime, error)),
                }
            },
            CustomCandidate::SpanFinish { outcome } => {
                let span_id = match self.pop_span(task) {
                    Some(span_id) => span_id,
                    None => return Err(CustomPublicationError::SpanNotActive),
                };
                let reply = runs.runs[run].context.report(
                    EventCandidate {
                        unheard: false,
                        scope: domain.scope,
                        cause: None,
                        body: EventBody::CustomSpanFinished {
                            custom_span_id: span_id,
                            custom_outcome: outcome,
                        },
                    },
                );
                match reply {
                    Ok(_) => Ok(()),
                    Err(error) => Err(Self::core_failure(runs, runtime, error)),
                }
            },
        }
    }
}

impl CustomBindingRegistry {
    /// What came of a publication.
    pub open spec fn on_published<A: SpanEventAdmission>(
        self,
        after: Self,
        sources: CustomSources,
        runs: DiagnosticRuns<A>,
        runs_after: DiagnosticRuns<A>,
        contexts: Seq<PublicationContext>,
        normalized: NormalizedCandidate,
        result: Result<(), CustomPublicationError>,
    ) -> bool {
        match self.authorize_from(sources, runs@, contexts, 0, None) {
            (Err(error), latched) => {
                &&& result == Err::<(), _>(error)
                &&& after@ == self@
                &&& runs_after@ == latched
            },
            (Ok(authorized), _) => {
                let place = authorized.binding as int;
                &&& after@ =~= self@.update(place, after@[place])
                &&& match result {
                    Err(CustomPublicationError::Payload(error)) => {
                        &&& crate::custom_payload::candidate_fails(normalized, error)
                        &&& after@[place] == self@[place]
                        &&& runs_after@ == runs@
                    },
                    _ => exists|candidate: CustomCandidate|
                        {
                            &&& crate::custom_payload::candidate_reads(normalized, candidate)
                            &&& #[trigger] self@[place].on_admitted(
                                after@[place],
                                runs,
                                runs_after,
                                authorized.task,
                                authorized.domain,
                                candidate,
                                result,
                            )
                        },
                }
            },
        }
    }

    /// Publishes a fact of user code: finds the run that authorizes it, reads it, and reports it.
    pub fn publish<A: SpanEventAdmission>(
        &mut self,
        sources: &CustomSources,
        runs: &mut DiagnosticRuns<A>,
        contexts: &Vec<PublicationContext>,
        normalized: &NormalizedCandidate,
    ) -> (result: Result<(), CustomPublicationError>)
        requires
            old(self).sound(*sources, *old(runs), contexts@),
        ensures
            final(runs)@.len() == old(runs)@.len(),
            old(self).on_published(
                *final(self),
                *sources,
                *old(runs),
                *final(runs),
                contexts@,
                *normalized,
                result,
            ),
    {
        let authorized = match self.authorize_publication(sources, runs, contexts) {
            Ok(authorized) => authorized,
            Err(error) => return Err(error),
        };
        let candidate = match parse_candidate(normalized) {
            Ok(candidate) => candidate,
            Err(error) => return Err(CustomPublicationError::Payload(error)),
        };
        let ghost place = authorized.binding as int;
        let ghost known = authorized;
        let result = self.bindings[authorized.binding].admit_candidate(
            runs,
            authorized.task,
            authorized.domain,
            candidate,
        );
        assert(old(self)@[place].on_admitted(
            self@[place],
            *old(runs),
            *runs,
            known.task,
            known.domain,
            candidate,
            result,
        ));
        result
    }
}

/// A task that opens a span and closes it again has the spans that it had before.
pub proof fn closing_undoes_opening(
    spans: Seq<u64>,
    opening: CustomCandidate,
    closing: CustomCandidate,
    span_id: u64,
    finish_sequence: Option<u64>,
)
    requires
        opening is SpanStart,
        closing is SpanFinish,
    ensures
        spans_after(spans_after(spans, opening, Some(span_id)), closing, finish_sequence) == spans,
        spans_after(spans, opening, Some(span_id)).last() == span_id,
{
    assert(spans.push(span_id).drop_last() =~= spans);
}

/// A run that has failed takes no more facts of user code, and stays as it is.
pub proof fn failed_run_takes_no_facts<A: SpanEventAdmission>(
    binding: CustomRunBinding,
    after: CustomRunBinding,
    runs: DiagnosticRuns<A>,
    runs_after: DiagnosticRuns<A>,
    task: TaskRef,
    domain: CustomDomainSnapshot,
    candidate: CustomCandidate,
    result: Result<(), CustomPublicationError>,
)
    requires
        runs@[domain.runtime as int].failure is Some,
        binding.on_admitted(after, runs, runs_after, task, domain, candidate, result),
    ensures
        result is Err,
        runs_after@ == runs@,
        after == binding,
{
}

/// A fact of one task leaves the spans of every other task as they were.
pub proof fn spans_are_task_local<A: SpanEventAdmission>(
    binding: CustomRunBinding,
    after: CustomRunBinding,
    runs: DiagnosticRuns<A>,
    runs_after: DiagnosticRuns<A>,
    task: TaskRef,
    other: TaskRef,
    domain: CustomDomainSnapshot,
    candidate: CustomCandidate,
    result: Result<(), CustomPublicationError>,
)
    requires
        binding.on_admitted(after, runs, runs_after, task, domain, candidate, result),
        other.key != task.key,
    ensures
        after.spans_of(other) == binding.spans_of(other),
{
    if runs@[domain.runtime as int].failure is None {
        assert(after.task_spans@.contains_key(other.key) == after.task_spans@.remove(
            task.key,
        ).contains_key(other.key));
        assert(binding.task_spans@.contains_key(other.key) == binding.task_spans@.remove(
            task.key,
        ).contains_key(other.key));
        if binding.task_spans@.contains_key(other.key) {
            assert(after.task_spans@.remove(task.key)[other.key] == binding.task_spans@.remove(
                task.key,
            )[other.key]);
        }
    }
}

/// The spans have begun.
pub open spec fn all_begun(trace: Seq<Attempt>, spans: Seq<u64>) -> bool {
    forall|i: int| 0 <= i < spans.len() ==> crate::references::begun_in(trace, #[trigger] spans[i])
}

/// A fact of user code refers only to spans that have begun in the run that it is published in:
/// those of its task, or the one around the task.
pub proof fn facts_of_user_code_refer_back<A: SpanEventAdmission>(
    binding: CustomRunBinding,
    after: CustomRunBinding,
    runs: DiagnosticRuns<A>,
    runs_after: DiagnosticRuns<A>,
    task: TaskRef,
    domain: CustomDomainSnapshot,
    candidate: CustomCandidate,
    result: Result<(), CustomPublicationError>,
)
    requires
        crate::references::refer_back(runs@[domain.run as int].context.trace()),
        crate::references::begun_in(
            runs@[domain.run as int].context.trace(),
            domain.containing_span_id,
        ),
        all_begun(runs@[domain.run as int].context.trace(), binding.spans_of(task)),
        binding.on_admitted(after, runs, runs_after, task, domain, candidate, result),
    ensures
        crate::references::refer_back(runs_after@[domain.run as int].context.trace()),
        crate::references::goes_on(
            runs@[domain.run as int].context.trace(),
            runs_after@[domain.run as int].context.trace(),
        ),
        all_begun(runs_after@[domain.run as int].context.trace(), after.spans_of(task)),
{
    let context = runs@[domain.run as int].context;
    let context_after = runs_after@[domain.run as int].context;
    let spans = binding.spans_of(task);
    crate::references::what_began_stays_begun(context.trace(), context.trace());
    if runs@[domain.runtime as int].failure is None && !(candidate is SpanFinish && spans.len()
        == 0) {
        if spans.len() > 0 {
            assert(crate::references::begun_in(context.trace(), spans[spans.len() - 1]));
        }
        crate::references::one_fact_refers_back(
            context_after,
            context,
            event_of(
                candidate,
                domain,
                binding.parent_of(task, domain.containing_span_id),
                spans.last(),
            ),
        );
    }
}

/// What user code publishes is told as it was said, in the scope of its domain, in one fact: a
/// moment and a span with the innermost span of its task that is open as what it hangs in, or the
/// domain's where none is; the end of a span with the innermost that is open, and with the outcome
/// that was said. A span that was accepted is the innermost from then on, and the end of one closes
/// it whether it was accepted or not.
pub proof fn published_facts_are_told_as_said<A: SpanEventAdmission>(
    binding: CustomRunBinding,
    after: CustomRunBinding,
    runs: DiagnosticRuns<A>,
    runs_after: DiagnosticRuns<A>,
    task: TaskRef,
    domain: CustomDomainSnapshot,
    candidate: CustomCandidate,
    result: Result<(), CustomPublicationError>,
)
    requires
        domain.run < runs@.len(),
        domain.runtime < runs@.len(),
        binding.on_admitted(after, runs, runs_after, task, domain, candidate, result),
    ensures
        ({
            let facts = runs_after@[domain.run as int].context.steps_since(
                runs@[domain.run as int].context,
            );
            let spans = binding.spans_of(task);
            let within = if spans.len() == 0 {
                domain.containing_span_id
            } else {
                spans[spans.len() - 1]
            };
            let taken = runs@[domain.runtime as int].failure is None && (candidate is SpanFinish
                ==> spans.len() > 0);
            let body = facts[0].candidate.body;
            &&& facts.len() == if taken { 1int } else { 0int }
            &&& result is Ok <==> taken && facts[0].reply is Ok
            &&& !taken ==> after.spans_of(task) =~= spans
            &&& taken ==> {
                &&& facts[0].candidate.scope == domain.scope
                &&& facts[0].candidate.cause is None
                &&& !facts[0].candidate.unheard
                &&& candidate matches CustomCandidate::Instant { name, severity, attributes } ==> {
                    &&& body == (EventBody::CustomInstantOccurred {
                        name,
                        containing_id: Some(within),
                        severity: Some(severity),
                        attributes,
                    })
                    &&& after.spans_of(task) =~= spans
                }
                &&& candidate matches CustomCandidate::Counter { counter, value, unit, dimensions }
                    ==> {
                    &&& body == (EventBody::CustomCounterSampled {
                        name: counter,
                        number: value,
                        unit,
                        dimensions,
                    })
                    &&& after.spans_of(task) =~= spans
                }
                &&& candidate matches CustomCandidate::SpanStart { span, span_attributes } ==> {
                    &&& body == (EventBody::CustomSpanStarted {
                        name: span,
                        parent_id: Some(within),
                        attributes: span_attributes,
                    })
                    &&& facts[0].reply is Ok ==> after.spans_of(task) =~= spans.push(
                        facts[0].reply->Ok_0,
                    )
                    &&& facts[0].reply is Err ==> after.spans_of(task) =~= spans
                }
                &&& candidate matches CustomCandidate::SpanFinish { outcome } ==> {
                    &&& body == (EventBody::CustomSpanFinished {
                        custom_span_id: within,
                        custom_outcome: outcome,
                    })
                    &&& after.spans_of(task).len() == spans.len() - 1
                    &&& forall|i: int|
                        0 <= i < spans.len() - 1 ==> #[trigger] after.spans_of(task)[i] == spans[i]
                }
            }
        }),
{
    let context = runs@[domain.run as int].context;
    let context_after = runs_after@[domain.run as int].context;
    let spans = binding.spans_of(task);
    if runs@[domain.runtime as int].failure is None && (candidate is SpanFinish ==> spans.len()
        > 0) {
        crate::references::lone_fact(
            context,
            context_after,
            event_of(
                candidate,
                domain,
                binding.parent_of(task, domain.containing_span_id),
                spans.last(),
            ),
        );
    } else {
        assert(context_after == context);
        assert(context_after.steps_since(context).len() == 0);
    }
}

/// What the place of a publication is found to be, from a place on.
proof fn authorization_is_of_one<A: SpanEventAdmission>(
    registry: CustomBindingRegistry,
    sources: CustomSources,
    runs: Seq<DiagnosticRun<A>>,
    contexts: Seq<PublicationContext>,
    from: int,
    found: Option<AuthorizedPublication>,
)
    requires
        0 <= from,
        registry@.len() <= usize::MAX,
    ensures
        ({
            let answer = |place: int|
                sources.spec_authorization(runs, registry@[place].binding_key, contexts[place]);
            match registry.authorize_from(sources, runs, contexts, from, found).0 {
                Ok(authorized) => {
                    let place = authorized.binding as int;
                    &&& forall|other: int|
                        from <= other < registry@.len() && other != place ==> #[trigger] answer(
                            other,
                        ) == Ok::<Option<(TaskRef, CustomDomainSnapshot)>, CustomPublicationError>(
                            None,
                        )
                    &&& found is Some ==> found == Some(authorized) && (from <= place
                        < registry@.len() ==> answer(place) == Ok::<
                        Option<(TaskRef, CustomDomainSnapshot)>,
                        CustomPublicationError,
                    >(None))
                    &&& found is None ==> from <= place < registry@.len() && answer(place) == Ok::<
                        Option<(TaskRef, CustomDomainSnapshot)>,
                        CustomPublicationError,
                    >(Some((authorized.task, authorized.domain)))
                },
                Err(_) => {
                    ||| found is None && forall|other: int|
                        from <= other < registry@.len() ==> #[trigger] answer(other) == Ok::<
                            Option<(TaskRef, CustomDomainSnapshot)>,
                            CustomPublicationError,
                        >(None)
                    ||| exists|place: int|
                        from <= place < registry@.len() && #[trigger] answer(place) is Err
                    ||| found is Some && exists|place: int|
                        from <= place < registry@.len() && (#[trigger] answer(place) matches Ok(
                            given,
                        ) && given is Some)
                    ||| exists|one: int, other: int|
                        from <= one < other < registry@.len() && (#[trigger] answer(one) matches Ok(
                            given,
                        ) && given is Some) && (#[trigger] answer(other) matches Ok(more)
                            && more is Some)
                },
            }
        }),
    decreases registry@.len() - from,
{
    let answer = |place: int|
        sources.spec_authorization(runs, registry@[place].binding_key, contexts[place]);
    if from < registry@.len() {
        match answer(from) {
            Ok(None) => {
                authorization_is_of_one(registry, sources, runs, contexts, from + 1, found);
            },
            Ok(Some((task, domain))) => {
                if found is None {
                    let now = AuthorizedPublication { binding: from as usize, task, domain };
                    authorization_is_of_one(registry, sources, runs, contexts, from + 1, Some(now));
                    assert(answer(from) is Ok);
                }
            },
            Err(_) => {},
        }
    }
}

/// User code publishes in the one run that its task may publish in: it is that run that is found,
/// with what was found there, and no other run has the task. Where a publication is refused, no run
/// has the task, or two have, or one of them failed to say.
pub proof fn publication_belongs_to_one_run<A: SpanEventAdmission>(
    registry: CustomBindingRegistry,
    sources: CustomSources,
    runs: Seq<DiagnosticRun<A>>,
    contexts: Seq<PublicationContext>,
)
    requires
        registry@.len() <= usize::MAX,
    ensures
        ({
            let answer = |place: int|
                sources.spec_authorization(runs, registry@[place].binding_key, contexts[place]);
            match registry.authorize_from(sources, runs, contexts, 0, None).0 {
                Ok(authorized) => {
                    let place = authorized.binding as int;
                    &&& 0 <= place < registry@.len()
                    &&& answer(place) == Ok::<
                        Option<(TaskRef, CustomDomainSnapshot)>,
                        CustomPublicationError,
                    >(Some((authorized.task, authorized.domain)))
                    &&& forall|other: int|
                        0 <= other < registry@.len() && other != place ==> #[trigger] answer(other)
                            == Ok::<Option<(TaskRef, CustomDomainSnapshot)>, CustomPublicationError>(
                            None,
                        )
                },
                Err(_) => {
                    ||| forall|other: int|
                        0 <= other < registry@.len() ==> #[trigger] answer(other) == Ok::<
                            Option<(TaskRef, CustomDomainSnapshot)>,
                            CustomPublicationError,
                        >(None)
                    ||| exists|place: int|
                        0 <= place < registry@.len() && #[trigger] answer(place) is Err
                    ||| exists|one: int, other: int|
                        0 <= one < other < registry@.len() && (#[trigger] answer(one) matches Ok(
                            given,
                        ) && given is Some) && (#[trigger] answer(other) matches Ok(more)
                            && more is Some)
                },
            }
        }),
{
    authorization_is_of_one(registry, sources, runs, contexts, 0, None);
}

/// A task may publish in a run only where it has a lineage there that is active, and a task; in a
/// run that has failed it may not. What is found there is what is in force: what extends the run,
/// where it gives anything and it is of this run, else the phase of the run that the task is in,
/// else its cue, else its scene.
pub proof fn authorization_is_what_is_in_force<A: SpanEventAdmission>(
    sources: CustomSources,
    runs: Seq<DiagnosticRun<A>>,
    binding_key: usize,
    context: PublicationContext,
)
    ensures
        ({
            let answer = sources.spec_authorization(runs, binding_key, context);
            let run = sources.runtimes.spec_run_bound(Some(binding_key));
            let active = context.lineage is Found && context.lineage->Found_0.active;
            let lineage = context.lineage->Found_0;
            &&& context.lineage is Absent ==> answer == Ok::<
                Option<(TaskRef, CustomDomainSnapshot)>,
                CustomPublicationError,
            >(None)
            &&& context.lineage is Raised ==> (answer matches Err(error) && error is Raised)
            &&& context.lineage is Found && !active ==> answer == Ok::<
                Option<(TaskRef, CustomDomainSnapshot)>,
                CustomPublicationError,
            >(None)
            &&& active && run is None ==> answer == Ok::<
                Option<(TaskRef, CustomDomainSnapshot)>,
                CustomPublicationError,
            >(None)
            &&& active && run is Some && runs[run->0 as int].failure is Some ==> (answer matches Err(
                error,
            ) && error is CoreUnavailable)
            &&& answer matches Ok(Some((task, domain))) ==> {
                &&& active && run is Some && runs[run->0 as int].failure is None
                &&& context.task is Found && task == context.task->Found_0
                &&& match sources.extension_answer(binding_key, lineage, context) {
                    Ok(Some(given)) => given.runtime == run->0 && domain == given,
                    Ok(None) => {
                        &&& lineage.runtime is None && lineage.cued_key is Some ==> {
                            &&& sources.cues.spec_lineage(lineage.cued_key->0) is Some
                            &&& domain.scope == sources.cues.spec_lineage(
                                lineage.cued_key->0,
                            )->0.cue_scope
                            &&& domain.containing_span_id == sources.cues.spec_lineage(
                                lineage.cued_key->0,
                            )->0.containing_span_id
                            &&& domain.run == sources.cues.spec_lineage(lineage.cued_key->0)->0.run
                        }
                        &&& lineage.runtime is None && lineage.cued_key is None ==> {
                            &&& sources.scenes.spec_lineage(lineage) is Some
                            &&& domain.scope == sources.scenes.spec_lineage(lineage)->0.scope
                            &&& domain.containing_span_id == sources.scenes.spec_lineage(
                                lineage,
                            )->0.scene_span_id
                            &&& domain.run == sources.scenes.spec_lineage(lineage)->0.run
                            &&& domain.runtime == run->0
                        }
                        &&& lineage.runtime is Some ==> (lineage.runtime->0).0 == binding_key && {
                            let place = sources.runtimes.spec_for_binding(binding_key)->0;
                            let producer = sources.runtimes.producers@[place as int];
                            let within = producer.spec_lineage(
                                runs[producer.run as int],
                                (lineage.runtime->0).1,
                            );
                            &&& within is Some
                            &&& domain.scope == within->0.scope
                            &&& domain.containing_span_id == within->0.containing_span_id
                            &&& domain.run == within->0.run && domain.runtime == within->0.run
                        }
                    },
                    Err(_) => false,
                }
            }
        }),
{
}

/// What extends a run is asked where it is there, and only what is in force is given: with nothing
/// there, nothing; with acts, what the share of the task resolves to, where it has one; else what
/// was answered.
pub proof fn extension_gives_what_it_has(
    sources: CustomSources,
    binding_key: usize,
    lineage: TaskLineage,
    context: PublicationContext,
)
    ensures
        ({
            let answer = sources.extension_answer(binding_key, lineage, context);
            let extension = sources.authorities.extension;
            &&& extension is Vacant ==> (answer matches Ok(None))
            &&& extension is Acts && lineage.act_authority is None ==> (answer matches Ok(None))
            &&& extension is Acts && lineage.act_authority is Some ==> {
                let share = lineage.act_authority->0;
                let authority = sources.authorities@[share.authority as int];
                &&& answer matches Ok(given) ==> {
                    &&& share.authority < sources.authorities@.len()
                    &&& given is Some
                    &&& share.generation == authority.generation
                    &&& authority.phase.generation_active
                    &&& share.role is Supervisor || authority.phase.caller_active
                    &&& authority.binding_key == binding_key
                    &&& given->0.runtime == authority.runtime
                    &&& sources.acts.spec_lineage(authority.act_id@) is Some
                    &&& given->0.scope == sources.acts.spec_lineage(
                        authority.act_id@,
                    )->0.event_scope
                }
                &&& share.authority >= sources.authorities@.len() ==> answer is Err
            }
            &&& extension is Other ==> match context.answer {
                Lookup::Raised => answer is Err,
                Lookup::Absent => answer matches Ok(None),
                Lookup::Found(snapshot) => answer matches Ok(Some(given)) && given == snapshot,
            }
        }),
{
}

/// Publishing that finds its run either says what is wrong with the payload and tells nothing, or
/// tells what was read of it; what finds none tells nothing.
pub proof fn publishing_tells_what_was_read<A: SpanEventAdmission>(
    registry: CustomBindingRegistry,
    after: CustomBindingRegistry,
    sources: CustomSources,
    runs: DiagnosticRuns<A>,
    runs_after: DiagnosticRuns<A>,
    contexts: Seq<PublicationContext>,
    normalized: NormalizedCandidate,
    result: Result<(), CustomPublicationError>,
)
    requires
        registry@.len() <= usize::MAX,
        registry.on_published(after, sources, runs, runs_after, contexts, normalized, result),
    ensures
        after@.len() == registry@.len(),
        registry.authorize_from(sources, runs@, contexts, 0, None).0 is Err ==> result is Err
            && after@ == registry@,
        registry.authorize_from(sources, runs@, contexts, 0, None).0 matches Ok(authorized) ==> {
            let place = authorized.binding as int;
            &&& forall|other: int|
                0 <= other < registry@.len() && other != place ==> #[trigger] after@[other]
                    == registry@[other]
            &&& result matches Err(CustomPublicationError::Payload(error)) ==> runs_after@ == runs@
                && after@ =~= registry@ && crate::custom_payload::candidate_fails(normalized, error)
            &&& !(result matches Err(CustomPublicationError::Payload(_))) ==> exists|
                candidate: CustomCandidate,
            |
                crate::custom_payload::candidate_reads(normalized, candidate)
                    && #[trigger] registry@[place].on_admitted(
                    after@[place],
                    runs,
                    runs_after,
                    authorized.task,
                    authorized.domain,
                    candidate,
                    result,
                )
        },
{
    authorization_is_of_one(registry, sources, runs@, contexts, 0, None);
}

/// What user code is told of its context is that of a publication without a run, of a span that is
/// not open, and of an act that it has no authority for; nothing else is.
pub proof fn context_errors_are_of_the_context(error: CustomPublicationError)
    ensures
        error.spec_is_context_error() <==> error is NoRuntimeContext || error is SpanNotActive || (
        error matches CustomPublicationError::Act(problem) && problem is Context),
{
}

/// Where a publication finds a second run, the first and the second have failed.
proof fn both_runs_fail_from<A: SpanEventAdmission>(
    registry: CustomBindingRegistry,
    sources: CustomSources,
    runs: Seq<DiagnosticRun<A>>,
    contexts: Seq<PublicationContext>,
    from: int,
    found: Option<AuthorizedPublication>,
)
    requires
        0 <= from,
        registry@.len() <= usize::MAX,
        found is Some ==> found->0.domain.runtime < runs.len(),
        forall|place: int|
            0 <= place < registry@.len() ==> ((#[trigger] sources.spec_authorization(
                runs,
                registry@[place].binding_key,
                contexts[place],
            )) matches Ok(Some(given)) ==> given.1.runtime < runs.len()),
    ensures
        ({
            let answer = |place: int|
                sources.spec_authorization(runs, registry@[place].binding_key, contexts[place]);
            let (result, after) = registry.authorize_from(sources, runs, contexts, from, found);
            &&& result is Err && result->Err_0 is MultipleContexts && found is Some ==> exists|
                other: int,
            |
                {
                    &&& from <= other < registry@.len()
                    &&& #[trigger] answer(other) matches Ok(Some(given))
                    &&& after[given.1.runtime as int].failure is Some
                    &&& after[found->0.domain.runtime as int].failure is Some
                }
            &&& result is Err && result->Err_0 is MultipleContexts && found is None ==> exists|
                one: int,
                other: int,
            |
                {
                    &&& from <= one < other < registry@.len()
                    &&& #[trigger] answer(one) matches Ok(Some(first))
                    &&& #[trigger] answer(other) matches Ok(Some(second))
                    &&& after[first.1.runtime as int].failure is Some
                    &&& after[second.1.runtime as int].failure is Some
                }
        }),
    decreases registry@.len() - from,
{
    let answer = |place: int|
        sources.spec_authorization(runs, registry@[place].binding_key, contexts[place]);
    if from < registry@.len() {
        match answer(from) {
            Ok(None) => {
                both_runs_fail_from(registry, sources, runs, contexts, from + 1, found);
            },
            Ok(Some((task, domain))) => {
                if found is None {
                    let now = AuthorizedPublication { binding: from as usize, task, domain };
                    both_runs_fail_from(registry, sources, runs, contexts, from + 1, Some(now));
                }
                assert(answer(from) is Ok);
            },
            Err(_) => {},
        }
    }
}

/// User code that could publish in two runs publishes in neither, and both have failed.
pub proof fn ambiguous_publications_fail_both_runs<A: SpanEventAdmission>(
    registry: CustomBindingRegistry,
    sources: CustomSources,
    runs: Seq<DiagnosticRun<A>>,
    contexts: Seq<PublicationContext>,
)
    requires
        registry@.len() <= usize::MAX,
        forall|place: int|
            0 <= place < registry@.len() ==> ((#[trigger] sources.spec_authorization(
                runs,
                registry@[place].binding_key,
                contexts[place],
            )) matches Ok(Some(given)) ==> given.1.runtime < runs.len()),
    ensures
        ({
            let answer = |place: int|
                sources.spec_authorization(runs, registry@[place].binding_key, contexts[place]);
            let (result, after) = registry.authorize_from(sources, runs, contexts, 0, None);
            result is Err && result->Err_0 is MultipleContexts ==> exists|one: int, other: int|
                {
                    &&& 0 <= one < other < registry@.len()
                    &&& #[trigger] answer(one) matches Ok(Some(first))
                    &&& #[trigger] answer(other) matches Ok(Some(second))
                    &&& after[first.1.runtime as int].failure is Some
                    &&& after[second.1.runtime as int].failure is Some
                }
        }),
{
    both_runs_fail_from(registry, sources, runs, contexts, 0, None);
}

} // verus!
