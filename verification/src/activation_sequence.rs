//! The order in which a production is activated, and the productions that wait for their run.
use crate::activation::{
    bootstrap_config, configuration_identity, load_error, ready_line, ActivationError, ReadyLocator,
    RuntimeDiagnosticArgs,
};
use crate::bootstrap::{BootstrapConfig, BootstrapError, WriterDeadlines};
use crate::context::DiagnosticProducerError;
use crate::event::copy_text;
use crate::load_producer::LoadProducerError;
use crate::run_identity::CanonicalUuid;
use crate::shutdown::DiagnosticShutdownError;
use vstd::prelude::*;
use vstd::string::StringExecFns;

verus! {

/// One step of an activation.
#[derive(Clone, Copy, Debug, PartialEq, Eq, Structural)]
pub enum ActivationStep {
    Prevalidate,
    /// What the configuration is known by is written down.
    Identify,
    Date,
    Limit,
    Bootstrap,
    OpenLoader,
    /// Where the runtime is to be found is written down.
    DescribeReady,
    WriteReady,
    ResolvePath,
    ResolveClass,
    /// A failure of this step shuts the runtime down by itself.
    PrepareViews,
    /// The run becomes the one in which productions are made.
    Enter,
    Construct,
    Leave,
    /// The production has kept its run.
    MatchRun,
}

/// The steps of an activation, in order.
pub open spec fn activation_steps() -> Seq<ActivationStep> {
    seq![
        ActivationStep::Prevalidate,
        ActivationStep::Identify,
        ActivationStep::Date,
        ActivationStep::Limit,
        ActivationStep::Bootstrap,
        ActivationStep::OpenLoader,
        ActivationStep::DescribeReady,
        ActivationStep::WriteReady,
        ActivationStep::ResolvePath,
        ActivationStep::ResolveClass,
        ActivationStep::PrepareViews,
        ActivationStep::Enter,
        ActivationStep::Construct,
        ActivationStep::Leave,
        ActivationStep::MatchRun,
    ]
}

fn list_activation_steps() -> (steps: Vec<ActivationStep>)
    ensures
        steps@ =~= activation_steps(),
{
    vec![
        ActivationStep::Prevalidate,
        ActivationStep::Identify,
        ActivationStep::Date,
        ActivationStep::Limit,
        ActivationStep::Bootstrap,
        ActivationStep::OpenLoader,
        ActivationStep::DescribeReady,
        ActivationStep::WriteReady,
        ActivationStep::ResolvePath,
        ActivationStep::ResolveClass,
        ActivationStep::PrepareViews,
        ActivationStep::Enter,
        ActivationStep::Construct,
        ActivationStep::Leave,
        ActivationStep::MatchRun,
    ]
}

impl ActivationStep {
    /// A runtime is there that has to be shut down when this step fails.
    pub open spec fn owns_runtime(self) -> bool {
        match self {
            ActivationStep::Prevalidate | ActivationStep::Identify | ActivationStep::Date
            | ActivationStep::Limit | ActivationStep::Bootstrap
            | ActivationStep::PrepareViews => false,
            _ => true,
        }
    }

    fn has_runtime(self) -> (owned: bool)
        ensures
            owned == self.owns_runtime(),
    {
        match self {
            ActivationStep::Prevalidate | ActivationStep::Identify | ActivationStep::Date
            | ActivationStep::Limit | ActivationStep::Bootstrap
            | ActivationStep::PrepareViews => false,
            _ => true,
        }
    }
}

/// What is to be activated: the directory of its package, the arguments it is made with, and how
/// its runtime is started.
pub struct ActivationInput<V> {
    pub package_dir: V,
    pub production_args: V,
    pub arguments: RuntimeDiagnosticArgs,
}

/// Why views were not prepared.
#[derive(Debug, PartialEq, Eq)]
pub struct ViewsFailure {
    pub code: String,
    pub text: String,
}

/// A call that an activation makes, with what was answered. `V` is a value of the interpreter.
pub enum ActivationCall<V> {
    Prevalidated { package_dir: V, root: Result<V, pyo3::PyErr> },
    Dated { started_at: Result<String, pyo3::PyErr> },
    Limited { stall_ms: u64, shutdown_ms: u64, deadlines: Result<WriterDeadlines, String> },
    Bootstrapped {
        root: V,
        config: BootstrapConfig,
        locator: Result<ReadyLocator, BootstrapError>,
    },
    Opened { run_id: CanonicalUuid, opened: Result<(), DiagnosticProducerError> },
    Wrote { line: String, written: Result<(), pyo3::PyErr> },
    PathResolved { root: V, path: Result<V, LoadProducerError> },
    ClassResolved { path: V, class: Result<V, LoadProducerError> },
    ViewsPrepared { class: V, run_id: CanonicalUuid, prepared: Result<V, ViewsFailure> },
    Entered { run_id: CanonicalUuid },
    Constructed { class: V, arguments: V, production: Result<V, LoadProducerError> },
    Left { run_id: CanonicalUuid },
    Matched { production: V, run_id: CanonicalUuid, matched: Result<bool, pyo3::PyErr> },
    /// The productions that wait for the run are forgotten.
    Forgot { run_id: CanonicalUuid },
    ShutDown { run_id: CanonicalUuid, answer: Result<(), DiagnosticShutdownError> },
}

/// Calls of an activation, in order.
pub type ActivationLog<V> = Seq<ActivationCall<V>>;

/// What an activation needs. Nothing is promised of what it answers, only that it is known what was
/// asked of it.
pub trait ActivationResources<V> {
    /// Every call so far.
    spec fn told(&self) -> ActivationLog<V>;

    /// Finds the directory of a production.
    fn prevalidate(&mut self, package_dir: &V) -> (root: Result<V, pyo3::PyErr>)
        ensures
            final(self).told() == old(self).told().push(
                ActivationCall::Prevalidated { package_dir: *package_dir, root },
            ),
    ;

    /// The time, as it is written down.
    fn started_at(&mut self) -> (started_at: Result<String, pyo3::PyErr>)
        ensures
            final(self).told() == old(self).told().push(
                ActivationCall::Dated { started_at },
            ),
    ;

    /// The deadlines of a writer.
    fn deadlines(
        &mut self,
        stall_ms: u64,
        shutdown_ms: u64,
    ) -> (deadlines: Result<WriterDeadlines, String>)
        ensures
            final(self).told() == old(self).told().push(
                ActivationCall::Limited { stall_ms, shutdown_ms, deadlines },
            ),
    ;

    /// Starts a runtime, and tells where it is to be found.
    fn bootstrap(
        &mut self,
        root: &V,
        config: BootstrapConfig,
    ) -> (locator: Result<ReadyLocator, BootstrapError>)
        ensures
            final(self).told() == old(self).told().push(
                ActivationCall::Bootstrapped { root: *root, config, locator },
            ),
    ;

    /// Makes the one who tells of the loading.
    fn open_loader(
        &mut self,
        run_id: CanonicalUuid,
    ) -> (opened: Result<(), DiagnosticProducerError>)
        ensures
            final(self).told() == old(self).told().push(
                ActivationCall::Opened { run_id, opened },
            ),
    ;

    /// Writes a line to the error output, and flushes it.
    fn write_ready(&mut self, line: &String) -> (written: Result<(), pyo3::PyErr>)
        ensures
            final(self).told() == old(self).told().push(
                ActivationCall::Wrote { line: *line, written },
            ),
    ;

    /// Resolves the path of a production.
    fn resolve_path(&mut self, root: &V) -> (path: Result<V, LoadProducerError>)
        ensures
            final(self).told() == old(self).told().push(
                ActivationCall::PathResolved { root: *root, path },
            ),
    ;

    /// Imports user code, and finds its class.
    fn resolve_class(&mut self, path: &V) -> (class: Result<V, LoadProducerError>)
        ensures
            final(self).told() == old(self).told().push(
                ActivationCall::ClassResolved { path: *path, class },
            ),
    ;

    /// Prepares the views of a production. Where that fails, the runtime is shut down.
    fn prepare_views(
        &mut self,
        class: &V,
        run_id: CanonicalUuid,
    ) -> (prepared: Result<V, ViewsFailure>)
        ensures
            final(self).told() == old(self).told().push(
                ActivationCall::ViewsPrepared { class: *class, run_id, prepared },
            ),
    ;

    /// Productions that are made from now on belong to the run.
    fn enter(&mut self, run_id: CanonicalUuid)
        ensures
            final(self).told() == old(self).told().push(
                ActivationCall::Entered { run_id },
            ),
    ;

    /// Makes a production.
    fn construct(&mut self, class: &V, arguments: &V) -> (production: Result<V, LoadProducerError>)
        ensures
            final(self).told() == old(self).told().push(
                ActivationCall::Constructed { class: *class, arguments: *arguments, production },
            ),
    ;

    /// Leaves the run that was entered last.
    fn leave(&mut self, run_id: CanonicalUuid)
        ensures
            final(self).told() == old(self).told().push(
                ActivationCall::Left { run_id },
            ),
    ;

    /// The production waits for the run.
    fn run_matches(
        &mut self,
        production: &V,
        run_id: CanonicalUuid,
    ) -> (matched: Result<bool, pyo3::PyErr>)
        ensures
            final(self).told() == old(self).told().push(
                ActivationCall::Matched { production: *production, run_id, matched },
            ),
    ;

    /// Forgets the productions that wait for the run.
    fn forget(&mut self, run_id: CanonicalUuid)
        ensures
            final(self).told() == old(self).told().push(
                ActivationCall::Forgot { run_id },
            ),
    ;

    /// Shuts the runtime down.
    fn shutdown(&mut self, run_id: CanonicalUuid) -> (answer: Result<(), DiagnosticShutdownError>)
        ensures
            final(self).told() == old(self).told().push(
                ActivationCall::ShutDown { run_id, answer },
            ),
    ;
}

/// A step that was taken.
pub enum ActivationRecord<V> {
    Called { step: ActivationStep, call: ActivationCall<V> },
    /// Something was written down. Nobody was asked.
    Written { step: ActivationStep, text: Result<String, ActivationError> },
}

/// What an activation has learned.
pub struct ActivationFacts<V> {
    pub root: Option<V>,
    pub identity: Option<String>,
    pub started_at: Option<String>,
    pub config: Option<BootstrapConfig>,
    pub locator: Option<ReadyLocator>,
    pub line: Option<String>,
    pub path: Option<V>,
    pub class: Option<V>,
    pub views: Option<V>,
    pub production: Option<V>,
}

/// A production that was activated, with its run.
#[derive(Debug, PartialEq, Eq)]
pub struct ActivatedProduction<V> {
    pub production: V,
    pub run_id: CanonicalUuid,
}

impl<V> ActivationFacts<V> {
    pub open spec fn nothing() -> Self {
        ActivationFacts {
            root: None,
            identity: None,
            started_at: None,
            config: None,
            locator: None,
            line: None,
            path: None,
            class: None,
            views: None,
            production: None,
        }
    }

    /// What is known after a step.
    pub open spec fn after(self, input: ActivationInput<V>, record: ActivationRecord<V>) -> Self {
        match record {
            ActivationRecord::Written { step, text: Ok(text) } => {
                if step == ActivationStep::Identify {
                    ActivationFacts { identity: Some(text), ..self }
                } else {
                    ActivationFacts { line: Some(text), ..self }
                }
            },
            ActivationRecord::Written { .. } => self,
            ActivationRecord::Called { call, .. } => match call {
                ActivationCall::Prevalidated { root: Ok(root), .. } => {
                    ActivationFacts { root: Some(root), ..self }
                },
                ActivationCall::Dated { started_at: Ok(started_at) } => {
                    ActivationFacts { started_at: Some(started_at), ..self }
                },
                ActivationCall::Limited { deadlines: Ok(deadlines), .. } => {
                    ActivationFacts {
                        config: Some(self.configuration(input.arguments, deadlines)),
                        ..self
                    }
                },
                ActivationCall::Bootstrapped { locator: Ok(locator), .. } => {
                    ActivationFacts { locator: Some(locator), ..self }
                },
                ActivationCall::PathResolved { path: Ok(path), .. } => {
                    ActivationFacts { path: Some(path), ..self }
                },
                ActivationCall::ClassResolved { class: Ok(class), .. } => {
                    ActivationFacts { class: Some(class), ..self }
                },
                ActivationCall::ViewsPrepared { prepared: Ok(views), .. } => {
                    ActivationFacts { views: Some(views), ..self }
                },
                ActivationCall::Constructed { production: Ok(production), .. } => {
                    ActivationFacts { production: Some(production), ..self }
                },
                _ => self,
            },
        }
    }

    /// The runtime's configuration, by what is known.
    pub open spec fn configuration(
        self,
        arguments: RuntimeDiagnosticArgs,
        deadlines: WriterDeadlines,
    ) -> BootstrapConfig {
        BootstrapConfig {
            started_at: self.started_at->0,
            configuration_identity: self.identity->0,
            bind_host: arguments.bind_host,
            port: arguments.port,
            advertise_url: arguments.advertise_url,
            max_run_bytes: arguments.max_run_bytes,
            writer_deadlines: deadlines,
        }
    }

    /// What is known after these steps.
    pub open spec fn known(input: ActivationInput<V>, records: Seq<ActivationRecord<V>>) -> Self
        decreases records.len(),
    {
        if records.len() == 0 {
            ActivationFacts::nothing()
        } else {
            ActivationFacts::known(input, records.drop_last()).after(input, records.last())
        }
    }

    /// What is known before the step at a place.
    pub open spec fn known_at(self, place: int) -> bool {
        &&& place >= 1 ==> self.root is Some
        &&& place >= 2 ==> self.identity is Some
        &&& place >= 3 ==> self.started_at is Some
        &&& place >= 4 ==> self.config is Some
        &&& place >= 5 ==> self.locator is Some
        &&& place >= 7 ==> self.line is Some
        &&& place >= 9 ==> self.path is Some
        &&& place >= 10 ==> self.class is Some
        &&& place >= 11 ==> self.views is Some
        &&& place >= 13 ==> self.production is Some
    }

    /// Enough is known for a step.
    pub open spec fn ready_for(self, step: ActivationStep) -> bool {
        &&& step.owns_runtime() || step == ActivationStep::PrepareViews ==> self.locator is Some
        &&& match step {
            ActivationStep::Limit => self.identity is Some && self.started_at is Some,
            ActivationStep::Bootstrap => self.root is Some && self.config is Some,
            ActivationStep::WriteReady => self.line is Some,
            ActivationStep::ResolvePath => self.root is Some,
            ActivationStep::ResolveClass => self.path is Some,
            ActivationStep::PrepareViews => self.class is Some,
            ActivationStep::Construct => self.views is Some,
            ActivationStep::MatchRun => self.production is Some,
            _ => true,
        }
    }

    /// The run, once a runtime is there.
    pub open spec fn run_id(self) -> CanonicalUuid {
        self.locator->0.run_id
    }
}

impl<V> ActivationCall<V> {
    pub open spec fn succeeded(self) -> bool {
        match self {
            ActivationCall::Prevalidated { root, .. } => root is Ok,
            ActivationCall::Dated { started_at } => started_at is Ok,
            ActivationCall::Limited { deadlines, .. } => deadlines is Ok,
            ActivationCall::Bootstrapped { locator, .. } => locator is Ok,
            ActivationCall::Opened { opened, .. } => opened is Ok,
            ActivationCall::Wrote { written, .. } => written is Ok,
            ActivationCall::PathResolved { path, .. } => path is Ok,
            ActivationCall::ClassResolved { class, .. } => class is Ok,
            ActivationCall::ViewsPrepared { prepared, .. } => prepared is Ok,
            ActivationCall::Constructed { production, .. } => production is Ok,
            ActivationCall::Matched { matched, .. } => matched == Ok::<bool, pyo3::PyErr>(true),
            _ => true,
        }
    }

    /// The error that a failed call becomes.
    pub open spec fn errs(self, told: ActivationError) -> bool {
        match self {
            ActivationCall::Prevalidated { root: Err(raised), .. } => {
                told == (ActivationError::Python { raised })
            },
            ActivationCall::Dated { started_at: Err(raised) } => {
                told == (ActivationError::Python { raised })
            },
            ActivationCall::Limited { deadlines: Err(text), .. } => told.tells(
                "diagnostic_activation.deadlines"@,
                text@,
            ),
            ActivationCall::Bootstrapped { locator: Err(error), .. } => told.tells(
                error.code@,
                error.text(),
            ),
            ActivationCall::Opened { opened: Err(error), .. } => told.tells(
                error.code@,
                error.text(),
            ),
            ActivationCall::Wrote { written: Err(raised), .. } => {
                told == (ActivationError::Python { raised })
            },
            ActivationCall::PathResolved { path: Err(load), .. } => {
                crate::activation::load_error_with_some_text(load, told)
            },
            ActivationCall::ClassResolved { class: Err(load), .. } => {
                crate::activation::load_error_with_some_text(load, told)
            },
            ActivationCall::ViewsPrepared { prepared: Err(failure), .. } => told.tells(
                failure.code@,
                failure.text@,
            ),
            ActivationCall::Constructed { production: Err(load), .. } => {
                crate::activation::load_error_with_some_text(load, told)
            },
            ActivationCall::Matched { matched: Err(raised), .. } => {
                told == (ActivationError::Python { raised })
            },
            ActivationCall::Matched { matched: Ok(_), .. } => told.tells(
                "diagnostic_activation.production_context_missing"@,
                "Production construction did not retain its mandatory diagnostic context"@,
            ),
            _ => false,
        }
    }

    /// The call is that of the step, with what is known and what was given.
    pub open spec fn asks(
        self,
        input: ActivationInput<V>,
        step: ActivationStep,
        facts: ActivationFacts<V>,
    ) -> bool {
        match step {
            ActivationStep::Prevalidate => {
                self is Prevalidated && self->package_dir == input.package_dir
            },
            ActivationStep::Date => self is Dated,
            ActivationStep::Limit => {
                &&& self is Limited
                &&& self->stall_ms == input.arguments.writer_stall_timeout_ms
                &&& self->shutdown_ms == input.arguments.shutdown_timeout_ms
            },
            ActivationStep::Bootstrap => {
                &&& self is Bootstrapped
                &&& self->Bootstrapped_root == facts.root->0
                &&& self->config == facts.config->0
            },
            ActivationStep::OpenLoader => self is Opened && self->Opened_run_id == facts.run_id(),
            ActivationStep::WriteReady => self is Wrote && self->line == facts.line->0,
            ActivationStep::ResolvePath => {
                self is PathResolved && self->PathResolved_root == facts.root->0
            },
            ActivationStep::ResolveClass => {
                self is ClassResolved && self->ClassResolved_path == facts.path->0
            },
            ActivationStep::PrepareViews => {
                &&& self is ViewsPrepared
                &&& self->ViewsPrepared_class == facts.class->0
                &&& self->ViewsPrepared_run_id == facts.run_id()
            },
            ActivationStep::Enter => {
                self == (ActivationCall::<V>::Entered { run_id: facts.run_id() })
            },
            ActivationStep::Construct => {
                &&& self is Constructed
                &&& self->Constructed_class == facts.views->0
                &&& self->arguments == input.production_args
            },
            ActivationStep::Leave => self == (ActivationCall::<V>::Left { run_id: facts.run_id() }),
            ActivationStep::MatchRun => {
                &&& self is Matched
                &&& self->Matched_production == facts.production->0
                &&& self->Matched_run_id == facts.run_id()
            },
            _ => false,
        }
    }
}

impl<V> ActivationRecord<V> {
    pub open spec fn step(self) -> ActivationStep {
        match self {
            ActivationRecord::Called { step, .. } => step,
            ActivationRecord::Written { step, .. } => step,
        }
    }

    pub open spec fn succeeded(self) -> bool {
        match self {
            ActivationRecord::Called { call, .. } => call.succeeded(),
            ActivationRecord::Written { text, .. } => text is Ok,
        }
    }

    /// The record is of this step, and the right thing was asked for or written down. `facts` is
    /// what was known.
    pub open spec fn serves(
        self,
        input: ActivationInput<V>,
        step: ActivationStep,
        facts: ActivationFacts<V>,
    ) -> bool {
        &&& self.step() == step
        &&& match self {
            ActivationRecord::Called { call, .. } => call.asks(input, step, facts),
            ActivationRecord::Written { text, .. } => {
                if step == ActivationStep::Identify {
                    crate::activation::identity_of(input.arguments, text)
                } else {
                    &&& step == ActivationStep::DescribeReady
                    &&& crate::activation::is_ready_line(facts.locator->0, text)
                }
            },
        }
    }

    /// The error that a failed step becomes.
    pub open spec fn errs(self, told: ActivationError) -> bool {
        match self {
            ActivationRecord::Called { call, .. } => call.errs(told),
            ActivationRecord::Written { text, .. } => text == Err::<String, _>(told),
        }
    }

    /// The calls of the steps, in order.
    pub open spec fn calls(records: Seq<ActivationRecord<V>>) -> Seq<ActivationCall<V>>
        decreases records.len(),
    {
        if records.len() == 0 {
            Seq::empty()
        } else {
            ActivationRecord::calls(records.drop_last()) + records.last().own_calls()
        }
    }

    /// The call of the step, if it makes one.
    pub open spec fn own_calls(self) -> Seq<ActivationCall<V>> {
        match self {
            ActivationRecord::Called { call, .. } => seq![call],
            ActivationRecord::Written { .. } => Seq::empty(),
        }
    }
}

/// The steps are those of an activation, in order. All but the last have succeeded, and each was
/// taken with what was known then.
pub open spec fn in_order<V>(input: ActivationInput<V>, records: Seq<ActivationRecord<V>>) -> bool {
    &&& records.len() <= activation_steps().len()
    &&& forall|i: int|
        0 <= i < records.len() ==> (#[trigger] records[i]).serves(
            input,
            activation_steps()[i],
            ActivationFacts::known(input, records.take(i)),
        )
    &&& forall|i: int| 0 <= i < records.len() - 1 ==> (#[trigger] records[i]).succeeded()
}

/// What comes of an error after the runtime was shut down.
pub open spec fn after_shutdown(
    told: ActivationError,
    answer: Result<(), DiagnosticShutdownError>,
    error: ActivationError,
) -> bool {
    match answer {
        Ok(_) => error == told,
        Err(failed) => told.cleaned(error, "diagnostic_activation.shutdown: "@ + failed.text()),
    }
}

/// The calls after a failed step. Where a runtime is there, the productions that wait for it are
/// forgotten and it is shut down, once. A run in which a production was made is left.
pub open spec fn ending<V>(
    step: ActivationStep,
    run_id: CanonicalUuid,
    answer: Result<(), DiagnosticShutdownError>,
) -> Seq<ActivationCall<V>> {
    let ended = seq![
        ActivationCall::Forgot { run_id },
        ActivationCall::ShutDown { run_id, answer },
    ];
    if !step.owns_runtime() {
        Seq::empty()
    } else if step == ActivationStep::Construct {
        ended.push(ActivationCall::Left { run_id })
    } else {
        ended
    }
}

/// An activation failed at its last step.
pub open spec fn gave_up<V>(
    last: ActivationRecord<V>,
    facts: ActivationFacts<V>,
    ended: Seq<ActivationCall<V>>,
    error: ActivationError,
) -> bool {
    exists|told: ActivationError, answer: Result<(), DiagnosticShutdownError>|
        {
            &&& #[trigger] last.errs(told)
            &&& ended == #[trigger] ending::<V>(last.step(), facts.run_id(), answer)
            &&& if last.step().owns_runtime() {
                after_shutdown(told, answer, error)
            } else {
                error == told
            }
        }
}

/// What came of an activation. `ended` is what was called after its last step.
pub open spec fn on_activation<V>(
    input: ActivationInput<V>,
    records: Seq<ActivationRecord<V>>,
    ended: Seq<ActivationCall<V>>,
    result: Result<ActivatedProduction<V>, ActivationError>,
) -> bool {
    &&& records.len() > 0
    &&& in_order(input, records)
    &&& match result {
        Ok(activated) => {
            let facts = ActivationFacts::known(input, records);
            &&& records.len() == activation_steps().len()
            &&& records.last().succeeded()
            &&& ended.len() == 0
            &&& facts.production == Some(activated.production)
            &&& facts.locator is Some
            &&& activated.run_id == facts.run_id()
        },
        Err(error) => {
            &&& !records.last().succeeded()
            &&& gave_up(
                records.last(),
                ActivationFacts::known(input, records),
                ended,
                error,
            )
        },
    }
}

/// What came of an activation, by the calls that were made for it.
pub open spec fn activates<V>(
    input: ActivationInput<V>,
    told: Seq<ActivationCall<V>>,
    told_after: Seq<ActivationCall<V>>,
    result: Result<ActivatedProduction<V>, ActivationError>,
) -> bool {
    exists|records: Seq<ActivationRecord<V>>, ended: Seq<ActivationCall<V>>|
        {
            &&& told_after == told + ActivationRecord::calls(records) + ended
            &&& #[trigger] on_activation(input, records, ended, result)
        }
}

/// Tells of a phase of loading that failed, if it did.
fn loaded<V>(answer: Result<V, LoadProducerError>) -> (result: Result<V, ActivationError>)
    ensures
        match answer {
            Ok(value) => result == Ok::<_, ActivationError>(value),
            Err(load) => result is Err && crate::activation::load_error_with_some_text(
                load,
                result->Err_0,
            ),
        },
{
    match answer {
        Ok(value) => Ok(value),
        Err(load) => Err(load_error(load)),
    }
}

/// Keeps a value, or tells of the error.
fn keep<V>(place: &mut Option<V>, answer: Result<V, ActivationError>) -> (result: Result<
    (),
    ActivationError,
>)
    ensures
        match answer {
            Ok(value) => result is Ok && *final(place) == Some(value),
            Err(error) => result == Err::<(), _>(error) && *final(place) == *old(place),
        },
{
    match answer {
        Ok(value) => {
            *place = Some(value);
            Ok(())
        },
        Err(error) => Err(error),
    }
}

/// What user code raised is told as it is.
fn raised<V>(answer: Result<V, pyo3::PyErr>) -> (result: Result<V, ActivationError>)
    ensures
        result == match answer {
            Ok(value) => Ok(value),
            Err(raised) => Err(ActivationError::Python { raised }),
        },
{
    match answer {
        Ok(value) => Ok(value),
        Err(raised) => Err(ActivationError::Python { raised }),
    }
}

/// One step was taken.
pub open spec fn takes<V>(
    told: Seq<ActivationCall<V>>,
    told_after: Seq<ActivationCall<V>>,
    input: ActivationInput<V>,
    step: ActivationStep,
    facts: ActivationFacts<V>,
    facts_after: ActivationFacts<V>,
    result: Result<(), ActivationError>,
    record: ActivationRecord<V>,
) -> bool {
    &&& told_after =~= told + record.own_calls()
    &&& record.serves(input, step, facts)
    &&& record.succeeded() == (result is Ok)
    &&& result matches Err(error) ==> record.errs(error)
    &&& facts_after == facts.after(input, record)
}

/// Takes a step up to the start of the runtime.
fn take_first_step<V, R: ActivationResources<V>>(
    resources: &mut R,
    input: &ActivationInput<V>,
    step: ActivationStep,
    facts: &mut ActivationFacts<V>,
) -> (taken: (Result<(), ActivationError>, Ghost<ActivationRecord<V>>))
    requires
        old(facts).ready_for(step),
        step == ActivationStep::Prevalidate
            || step == ActivationStep::Identify
            || step == ActivationStep::Date
            || step == ActivationStep::Limit
            || step == ActivationStep::Bootstrap,
    ensures
        takes(
            old(resources).told(),
            final(resources).told(),
            *input,
            step,
            *old(facts),
            *final(facts),
            taken.0,
            taken.1@,
        ),
{
    match step {
        ActivationStep::Prevalidate => {
            let root = resources.prevalidate(&input.package_dir);
            let ghost record = ActivationRecord::Called {
                step,
                call: ActivationCall::Prevalidated { package_dir: input.package_dir, root },
            };
            (keep(&mut facts.root, raised(root)), Ghost(record))
        },
        ActivationStep::Identify => {
            let text = configuration_identity(&input.arguments);
            let ghost record = ActivationRecord::Written { step, text };
            (keep(&mut facts.identity, text), Ghost(record))
        },
        ActivationStep::Date => {
            let started_at = resources.started_at();
            let ghost record = ActivationRecord::Called {
                step,
                call: ActivationCall::Dated { started_at },
            };
            (keep(&mut facts.started_at, raised(started_at)), Ghost(record))
        },
        ActivationStep::Limit => {
            let stall_ms: u64 = input.arguments.writer_stall_timeout_ms;
            let shutdown_ms: u64 = input.arguments.shutdown_timeout_ms;
            let deadlines = resources.deadlines(stall_ms, shutdown_ms);
            let ghost record = ActivationRecord::Called {
                step,
                call: ActivationCall::Limited { stall_ms, shutdown_ms, deadlines },
            };
            let config = bootstrap_config(
                input.arguments.clone(),
                Ok(facts.identity.as_ref().unwrap().clone()),
                Ok(facts.started_at.as_ref().unwrap().clone()),
                deadlines,
            );
            (keep(&mut facts.config, config), Ghost(record))
        },
        _ => {
            let config = copy_config(facts.config.as_ref().unwrap());
            let root = facts.root.as_ref().unwrap();
            let locator = resources.bootstrap(root, config);
            let ghost record = ActivationRecord::Called {
                step,
                call: ActivationCall::Bootstrapped { root: *root, config, locator },
            };
            match locator {
                Ok(locator) => {
                    facts.locator = Some(locator);
                    (Ok(()), Ghost(record))
                },
                Err(error) => (
                    Err(ActivationError::diagnostic(error.code.clone(), error.describe())),
                    Ghost(record),
                ),
            }
        },
    }
}

/// Takes a step up to the resolved class.
fn take_middle_step<V, R: ActivationResources<V>>(
    resources: &mut R,
    input: &ActivationInput<V>,
    step: ActivationStep,
    facts: &mut ActivationFacts<V>,
) -> (taken: (Result<(), ActivationError>, Ghost<ActivationRecord<V>>))
    requires
        old(facts).ready_for(step),
        step == ActivationStep::OpenLoader
            || step == ActivationStep::DescribeReady
            || step == ActivationStep::WriteReady
            || step == ActivationStep::ResolvePath
            || step == ActivationStep::ResolveClass,
    ensures
        takes(
            old(resources).told(),
            final(resources).told(),
            *input,
            step,
            *old(facts),
            *final(facts),
            taken.0,
            taken.1@,
        ),
{
    match step {
        ActivationStep::OpenLoader => {
            let run_id = facts.locator.as_ref().unwrap().run_id;
            let opened = resources.open_loader(run_id);
            let ghost record = ActivationRecord::Called {
                step,
                call: ActivationCall::Opened { run_id, opened },
            };
            match opened {
                Ok(_) => (Ok(()), Ghost(record)),
                Err(error) => (
                    Err(ActivationError::diagnostic(error.code.clone(), error.describe())),
                    Ghost(record),
                ),
            }
        },
        ActivationStep::DescribeReady => {
            let text = ready_line(facts.locator.as_ref().unwrap().clone());
            let ghost record = ActivationRecord::Written { step, text };
            (keep(&mut facts.line, text), Ghost(record))
        },
        ActivationStep::WriteReady => {
            let line = facts.line.as_ref().unwrap();
            let written = resources.write_ready(line);
            let ghost record = ActivationRecord::Called {
                step,
                call: ActivationCall::Wrote { line: *line, written },
            };
            (raised(written), Ghost(record))
        },
        ActivationStep::ResolvePath => {
            let root = facts.root.as_ref().unwrap();
            let path = resources.resolve_path(root);
            let ghost record = ActivationRecord::Called {
                step,
                call: ActivationCall::PathResolved { root: *root, path },
            };
            (keep(&mut facts.path, loaded(path)), Ghost(record))
        },
        _ => {
            let path = facts.path.as_ref().unwrap();
            let class = resources.resolve_class(path);
            let ghost record = ActivationRecord::Called {
                step,
                call: ActivationCall::ClassResolved { path: *path, class },
            };
            (keep(&mut facts.class, loaded(class)), Ghost(record))
        },
    }
}

/// Takes a step from the prepared views on.
fn take_last_step<V, R: ActivationResources<V>>(
    resources: &mut R,
    input: &ActivationInput<V>,
    step: ActivationStep,
    facts: &mut ActivationFacts<V>,
) -> (taken: (Result<(), ActivationError>, Ghost<ActivationRecord<V>>))
    requires
        old(facts).ready_for(step),
        step == ActivationStep::PrepareViews
            || step == ActivationStep::Enter
            || step == ActivationStep::Construct
            || step == ActivationStep::Leave
            || step == ActivationStep::MatchRun,
    ensures
        takes(
            old(resources).told(),
            final(resources).told(),
            *input,
            step,
            *old(facts),
            *final(facts),
            taken.0,
            taken.1@,
        ),
{
    match step {
        ActivationStep::PrepareViews => {
            let run_id = facts.locator.as_ref().unwrap().run_id;
            let class = facts.class.as_ref().unwrap();
            let prepared = resources.prepare_views(class, run_id);
            let ghost record = ActivationRecord::Called {
                step,
                call: ActivationCall::ViewsPrepared { class: *class, run_id, prepared },
            };
            match prepared {
                Ok(views) => {
                    facts.views = Some(views);
                    (Ok(()), Ghost(record))
                },
                Err(failure) => (
                    Err(ActivationError::diagnostic(failure.code, failure.text)),
                    Ghost(record),
                ),
            }
        },
        ActivationStep::Enter => {
            let run_id = facts.locator.as_ref().unwrap().run_id;
            resources.enter(run_id);
            (
                Ok(()),
                Ghost(ActivationRecord::Called { step, call: ActivationCall::Entered { run_id } }),
            )
        },
        ActivationStep::Construct => {
            let class = facts.views.as_ref().unwrap();
            let production = resources.construct(class, &input.production_args);
            let ghost record = ActivationRecord::Called {
                step,
                call: ActivationCall::Constructed {
                    class: *class,
                    arguments: input.production_args,
                    production,
                },
            };
            (keep(&mut facts.production, loaded(production)), Ghost(record))
        },
        ActivationStep::Leave => {
            let run_id = facts.locator.as_ref().unwrap().run_id;
            resources.leave(run_id);
            (
                Ok(()),
                Ghost(ActivationRecord::Called { step, call: ActivationCall::Left { run_id } }),
            )
        },
        _ => {
            let run_id = facts.locator.as_ref().unwrap().run_id;
            let production = facts.production.as_ref().unwrap();
            let matched = resources.run_matches(production, run_id);
            let ghost record = ActivationRecord::Called {
                step,
                call: ActivationCall::Matched { production: *production, run_id, matched },
            };
            let result = match matched {
                Err(raised) => Err(ActivationError::Python { raised }),
                Ok(true) => Ok(()),
                Ok(false) => Err(
                    ActivationError::diagnostic(
                        "diagnostic_activation.production_context_missing".to_owned(),
                        "Production construction did not retain its mandatory diagnostic context".to_owned(),
                    ),
                ),
            };
            (result, Ghost(record))
        },
    }
}

/// Copies a configuration.
fn copy_config(config: &BootstrapConfig) -> (copy: BootstrapConfig)
    ensures
        copy == *config,
{
    BootstrapConfig {
        started_at: config.started_at.clone(),
        configuration_identity: config.configuration_identity.clone(),
        bind_host: config.bind_host.clone(),
        port: config.port,
        advertise_url: copy_text(&config.advertise_url),
        max_run_bytes: config.max_run_bytes,
        writer_deadlines: config.writer_deadlines,
    }
}

/// Shuts a runtime down after a step failed, and tells where that fails too.
fn shutdown_after_error<V, R: ActivationResources<V>>(
    resources: &mut R,
    run_id: CanonicalUuid,
    told: ActivationError,
) -> (ended: (ActivationError, Ghost<Result<(), DiagnosticShutdownError>>))
    ensures
        final(resources).told() =~= old(resources).told() + ending::<V>(
            ActivationStep::OpenLoader,
            run_id,
            ended.1@,
        ),
        after_shutdown(told, ended.1@, ended.0),
{
    resources.forget(run_id);
    let answer = resources.shutdown(run_id);
    let ghost answered = answer;
    let error = match answer {
        Ok(_) => told,
        Err(failed) => told.with_cleanup(
            "diagnostic_activation.shutdown: ".to_owned().concat(
                failed.describe().as_str(),
            ).as_str(),
        ),
    };
    (error, Ghost(answered))
}

/// Gives an activation up after a step failed.
fn give_up<V, R: ActivationResources<V>>(
    resources: &mut R,
    step: ActivationStep,
    facts: &ActivationFacts<V>,
    told: ActivationError,
    Ghost(last): Ghost<ActivationRecord<V>>,
) -> (ended: (ActivationError, Ghost<Seq<ActivationCall<V>>>))
    requires
        step.owns_runtime() ==> facts.locator is Some,
        last.errs(told),
        last.step() == step,
    ensures
        final(resources).told() =~= old(resources).told() + ended.1@,
        gave_up(last, *facts, ended.1@, ended.0),
{
    if !step.has_runtime() {
        let ghost nothing = Seq::<ActivationCall<V>>::empty();
        let ghost answer: Result<(), DiagnosticShutdownError> = Ok(());
        assert(nothing == ending::<V>(step, facts.run_id(), answer));
        return (told, Ghost(nothing));
    }
    let run_id = facts.locator.as_ref().unwrap().run_id;
    let ghost said = told;
    let (error, Ghost(answer)) = shutdown_after_error(resources, run_id, told);
    let ghost ended = ending::<V>(last.step(), facts.run_id(), answer);
    assert(last.errs(said));
    assert(after_shutdown(said, answer, error));
    if step == ActivationStep::Construct {
        resources.leave(run_id);
    }
    (error, Ghost(ended))
}

/// One more step adds its call behind those before it, and what is learned from it.
proof fn one_more<V>(
    input: ActivationInput<V>,
    records: Seq<ActivationRecord<V>>,
    last: ActivationRecord<V>,
)
    ensures
        ActivationRecord::calls(records.push(last)) == ActivationRecord::calls(records)
            + last.own_calls(),
        ActivationFacts::known(input, records.push(last)) == ActivationFacts::known(
            input,
            records,
        ).after(input, last),
{
    assert(records.push(last).drop_last() =~= records);
}

/// Enough is known at a place for the step there.
proof fn ready_at<V>(facts: ActivationFacts<V>, place: int)
    requires
        0 <= place < activation_steps().len(),
        facts.known_at(place),
    ensures
        facts.ready_for(activation_steps()[place]),
{
}

/// One more step keeps the order.
proof fn stays_in_order<V>(
    input: ActivationInput<V>,
    earlier: Seq<ActivationRecord<V>>,
    record: ActivationRecord<V>,
)
    requires
        in_order(input, earlier),
        earlier.len() < activation_steps().len(),
        forall|i: int| 0 <= i < earlier.len() ==> (#[trigger] earlier[i]).succeeded(),
        record.serves(
            input,
            activation_steps()[earlier.len() as int],
            ActivationFacts::known(input, earlier),
        ),
    ensures
        in_order(input, earlier.push(record)),
{
    let records = earlier.push(record);
    assert forall|i: int| 0 <= i < records.len() implies (#[trigger] records[i]).serves(
        input,
        activation_steps()[i],
        ActivationFacts::known(input, records.take(i)),
    ) by {
        if i < earlier.len() {
            assert(records.take(i) =~= earlier.take(i));
            assert(records[i] == earlier[i]);
        } else {
            assert(records.take(i) =~= earlier);
        }
    }
    assert forall|i: int| 0 <= i < records.len() - 1 implies (
    #[trigger] records[i]).succeeded() by {
        assert(records[i] == earlier[i]);
    }
}

/// A step that succeeds adds what is known at the next place.
proof fn known_next<V>(
    input: ActivationInput<V>,
    facts: ActivationFacts<V>,
    record: ActivationRecord<V>,
    place: int,
)
    requires
        0 <= place < activation_steps().len(),
        facts.known_at(place),
        record.serves(input, activation_steps()[place], facts),
        record.succeeded(),
    ensures
        facts.after(input, record).known_at(place + 1),
{
}

/// Activates a production. Where a step fails once there is a runtime, the runtime is shut down.
pub fn activate<V, R: ActivationResources<V>>(resources: &mut R, input: &ActivationInput<V>) -> (
    result: Result<ActivatedProduction<V>, ActivationError>)
    ensures
        activates(*input, old(resources).told(), final(resources).told(), result),
{
    let steps = list_activation_steps();
    let ghost before = resources.told();
    let ghost mut records: Seq<ActivationRecord<V>> = Seq::empty();
    let mut facts: ActivationFacts<V> = ActivationFacts {
        root: None,
        identity: None,
        started_at: None,
        config: None,
        locator: None,
        line: None,
        path: None,
        class: None,
        views: None,
        production: None,
    };
    let mut place: usize = 0;
    assert(before =~= before + ActivationRecord::calls(records));
    while place < steps.len()
        invariant
            place <= steps@.len(),
            steps@ =~= activation_steps(),
            before == old(resources).told(),
            resources.told() == before + ActivationRecord::calls(records),
            records.len() == place,
            in_order(*input, records),
            forall|i: int| 0 <= i < place ==> (#[trigger] records[i]).succeeded(),
            facts == ActivationFacts::known(*input, records),
            facts.known_at(place as int),
        decreases steps.len() - place,
    {
        let step = steps[place];
        let ghost earlier = records;
        let ghost known = facts;
        proof {
            ready_at(facts, place as int);
        }
        let (taken, Ghost(record)) = if place < 5 {
            take_first_step(resources, input, step, &mut facts)
        } else if place < 10 {
            take_middle_step(resources, input, step, &mut facts)
        } else {
            take_last_step(resources, input, step, &mut facts)
        };
        proof {
            records = earlier.push(record);
            one_more(*input, earlier, record);
            assert(resources.told() =~= before + ActivationRecord::calls(records));
            stays_in_order(*input, earlier, record);
            if taken is Ok {
                known_next(*input, known, record, place as int);
            }
        }
        if let Err(told) = taken {
            let (error, Ghost(ended)) = give_up(resources, step, &facts, told, Ghost(record));
            assert(resources.told() =~= before + ActivationRecord::calls(records) + ended);
            let result = Err(error);
            assert(on_activation(*input, records, ended, result));
            return result;
        }
        place = place + 1;
    }
    let run_id = facts.locator.as_ref().unwrap().run_id;
    let result = Ok(ActivatedProduction { production: facts.production.unwrap(), run_id });
    proof {
        let ended = Seq::<ActivationCall<V>>::empty();
        assert(resources.told() =~= before + ActivationRecord::calls(records) + ended);
        assert(on_activation(*input, records, ended, result));
    }
    result
}

/// User code is not imported before the runtime was started and has said where it is to be found:
/// the line that was written is the ready line of the runtime that was started.
pub proof fn ready_before_user_code<V>(
    input: ActivationInput<V>,
    records: Seq<ActivationRecord<V>>,
    place: int,
)
    requires
        in_order(input, records),
        0 <= place < records.len(),
        records[place].step() == ActivationStep::ResolveClass || records[place].step()
            == ActivationStep::Construct,
    ensures
        exists|locator: ReadyLocator, line: String|
            {
                &&& #[trigger] crate::activation::is_ready_line(
                    locator,
                    Ok::<String, ActivationError>(line),
                )
                &&& exists|started: int|
                    0 <= started < place && #[trigger] records[started].started(locator)
                &&& exists|wrote: int| 0 <= wrote < place && #[trigger] records[wrote].wrote(line)
            },
{
    place_of_user_code(input, records, place);
    let locator = records[4]->call->locator->Ok_0;
    let line = records[7]->call->line;
    ready_line_was_written(input, records);
    assert(records[4].started(locator));
    assert(records[7].wrote(line));
    assert(crate::activation::is_ready_line(locator, Ok::<String, ActivationError>(line)));
}

/// User code comes late.
proof fn place_of_user_code<V>(
    input: ActivationInput<V>,
    records: Seq<ActivationRecord<V>>,
    place: int,
)
    requires
        in_order(input, records),
        0 <= place < records.len(),
        records[place].step() == ActivationStep::ResolveClass || records[place].step()
            == ActivationStep::Construct,
    ensures
        place >= 9,
{
    assert(records[place].serves(
        input,
        activation_steps()[place],
        ActivationFacts::known(input, records.take(place)),
    ));
}

/// The line that was written is that of the runtime that was started.
proof fn ready_line_was_written<V>(input: ActivationInput<V>, records: Seq<ActivationRecord<V>>)
    requires
        in_order(input, records),
        records.len() > 9,
    ensures
        records[4].started(records[4]->call->locator->Ok_0),
        records[7].wrote(records[7]->call->line),
        crate::activation::is_ready_line(
            records[4]->call->locator->Ok_0,
            Ok::<String, ActivationError>(records[7]->call->line),
        ),
{
    started_with_a_locator(input, records);
    known_through(input, records, 5);
    known_through(input, records, 6);
    known_through(input, records, 7);
    assert(activation_steps()[5] == ActivationStep::OpenLoader);
    assert(activation_steps()[6] == ActivationStep::DescribeReady);
    assert(activation_steps()[7] == ActivationStep::WriteReady);
    let facts5 = ActivationFacts::known(input, records.take(5));
    let facts6 = ActivationFacts::known(input, records.take(6));
    let facts7 = ActivationFacts::known(input, records.take(7));
    assert(facts6.locator == facts5.locator);
    assert(records[6] is Written);
    assert(facts7.line == Some(records[6]->text->Ok_0));
}

/// The locator is known once the runtime was started.
proof fn started_with_a_locator<V>(input: ActivationInput<V>, records: Seq<ActivationRecord<V>>)
    requires
        in_order(input, records),
        records.len() > 9,
    ensures
        records[4].started(records[4]->call->locator->Ok_0),
        ActivationFacts::known(input, records.take(5)).locator == Some(
            records[4]->call->locator->Ok_0,
        ),
{
    known_through(input, records, 4);
    assert(activation_steps()[4] == ActivationStep::Bootstrap);
}

/// What is known after a step that was followed by another.
proof fn known_through<V>(
    input: ActivationInput<V>,
    records: Seq<ActivationRecord<V>>,
    place: int,
)
    requires
        in_order(input, records),
        0 <= place < records.len() - 1,
    ensures
        records[place].succeeded(),
        records[place].serves(
            input,
            activation_steps()[place],
            ActivationFacts::known(input, records.take(place)),
        ),
        ActivationFacts::known(input, records.take(place + 1)) == ActivationFacts::known(
            input,
            records.take(place),
        ).after(input, records[place]),
{
    assert(records.take(place + 1) =~= records.take(place).push(records[place]));
    one_more(input, records.take(place), records[place]);
}

/// A production is made with the arguments that were given, while its run is the one in which
/// productions are made.
pub proof fn production_gets_its_arguments<V>(
    input: ActivationInput<V>,
    records: Seq<ActivationRecord<V>>,
    place: int,
)
    requires
        in_order(input, records),
        0 <= place < records.len(),
        records[place].step() == ActivationStep::Construct,
    ensures
        records[place] is Called,
        records[place]->call is Constructed,
        records[place]->call->arguments == input.production_args,
        place >= 1,
        records[place - 1] is Called,
        records[place - 1]->call is Entered,
{
    place_of_construction(input, records, place);
    known_through(input, records, 11);
    assert(activation_steps()[11] == ActivationStep::Enter);
    made_as_asked(input, records);
}

/// Where a production is made.
proof fn place_of_construction<V>(
    input: ActivationInput<V>,
    records: Seq<ActivationRecord<V>>,
    place: int,
)
    requires
        in_order(input, records),
        0 <= place < records.len(),
        records[place].step() == ActivationStep::Construct,
    ensures
        place == 12,
{
    step_at(input, records, place);
    construction_at(place);
}

/// The step at a place.
proof fn step_at<V>(input: ActivationInput<V>, records: Seq<ActivationRecord<V>>, place: int)
    requires
        in_order(input, records),
        0 <= place < records.len(),
    ensures
        records[place].step() == activation_steps()[place],
{
    let record = records[place];
    assert(record.serves(
        input,
        activation_steps()[place],
        ActivationFacts::known(input, records.take(place)),
    ));
}

/// The only place of the construction.
proof fn construction_at(place: int)
    requires
        0 <= place < activation_steps().len(),
        activation_steps()[place] == ActivationStep::Construct,
    ensures
        place == 12,
{
}

/// A production is made with the arguments that were given.
proof fn made_as_asked<V>(input: ActivationInput<V>, records: Seq<ActivationRecord<V>>)
    requires
        in_order(input, records),
        records.len() > 12,
    ensures
        records[12] is Called,
        records[12]->call is Constructed,
        records[12]->call->arguments == input.production_args,
{
    let record = records[12];
    assert(record.serves(
        input,
        activation_steps()[12],
        ActivationFacts::known(input, records.take(12)),
    ));
    assert(activation_steps()[12] == ActivationStep::Construct);
}

impl<V> ActivationRecord<V> {
    /// A runtime was started, and told where it is to be found.
    pub open spec fn started(self, locator: ReadyLocator) -> bool {
        self matches ActivationRecord::Called {
            call: ActivationCall::Bootstrapped { locator: Ok(told), .. },
            ..
        } && told == locator
    }

    /// The line was written.
    pub open spec fn wrote(self, line: String) -> bool {
        self matches ActivationRecord::Called {
            call: ActivationCall::Wrote { line: told, written: Ok(_) },
            ..
        } && told == line
    }
}

/// The runs in which productions are being made, the innermost last.
#[derive(Debug, PartialEq, Eq)]
pub struct ActivationConstructions {
    pub stack: Vec<CanonicalUuid>,
}

impl View for ActivationConstructions {
    type V = Seq<CanonicalUuid>;

    open spec fn view(&self) -> Seq<CanonicalUuid> {
        self.stack@
    }
}

impl ActivationConstructions {
    pub fn new() -> (constructions: Self)
        ensures
            constructions@ == Seq::<CanonicalUuid>::empty(),
    {
        ActivationConstructions { stack: Vec::new() }
    }

    pub fn enter(&mut self, run_id: CanonicalUuid)
        ensures
            final(self)@ == old(self)@.push(run_id),
    {
        self.stack.push(run_id);
    }

    /// Leaves the run that was entered last.
    pub fn leave(&mut self, run_id: CanonicalUuid)
        requires
            old(self)@.len() > 0,
            old(self)@.last() == run_id,
        ensures
            final(self)@ == old(self)@.drop_last(),
    {
        let _ = self.stack.pop();
    }

    pub fn current(&self) -> (run_id: Option<CanonicalUuid>)
        ensures
            run_id == if self@.len() > 0 {
                Some(self@.last())
            } else {
                None
            },
    {
        if self.stack.len() == 0 {
            return None;
        }
        Some(self.stack[self.stack.len() - 1])
    }
}

/// A production that waits for its run. `context` is the place of the channel that it was made
/// with.
#[derive(Clone, Copy, Debug, PartialEq, Eq, Structural)]
pub struct PendingProduction {
    pub key: usize,
    pub run_id: CanonicalUuid,
    pub context: usize,
    /// The production is still there.
    pub alive: bool,
}

/// The productions that wait for their runs, each once.
#[derive(Debug, PartialEq, Eq)]
pub struct PendingProductions {
    pub entries: Vec<PendingProduction>,
}

impl View for PendingProductions {
    type V = Seq<PendingProduction>;

    open spec fn view(&self) -> Seq<PendingProduction> {
        self.entries@
    }
}

/// A production was made twice.
#[derive(Clone, Copy, Debug, PartialEq, Eq, Structural)]
pub struct InitializedTwice;

impl InitializedTwice {
    /// Describes the error to a reader.
    pub fn describe(&self) -> (text: String)
        ensures
            text@ == "Production diagnostics were initialized more than once"@,
    {
        "Production diagnostics were initialized more than once".to_owned()
    }
}

/// The production with this key waits at `place`.
pub open spec fn waits_at(
    entries: Seq<PendingProduction>,
    key: usize,
    place: int,
) -> bool {
    0 <= place < entries.len() && entries[place].key == key
}

/// The production with this key waits.
pub open spec fn waits(entries: Seq<PendingProduction>, key: usize) -> bool {
    exists|place: int| waits_at(entries, key, place)
}

/// Those of another run, and those that are still there.
pub open spec fn kept(
    entries: Seq<PendingProduction>,
    ended: Option<CanonicalUuid>,
) -> Seq<PendingProduction> {
    entries.filter(|entry: PendingProduction| entry.alive && Some(entry.run_id) != ended)
}

impl PendingProductions {
    pub open spec fn wf(self) -> bool {
        forall|i: int, j: int|
            0 <= i < j < self@.len() ==> (#[trigger] self@[i]).key != (#[trigger] self@[j]).key
    }

    pub fn new() -> (pending: Self)
        ensures
            pending.wf(),
            pending@ == Seq::<PendingProduction>::empty(),
    {
        PendingProductions { entries: Vec::new() }
    }

    /// Forgets the productions that are gone, and those of a run that has ended.
    fn retain(&mut self, ended: Option<CanonicalUuid>)
        requires
            old(self).wf(),
        ensures
            final(self).wf(),
            final(self)@ =~= kept(old(self)@, ended),
    {
        let mut left: Vec<PendingProduction> = Vec::new();
        let ghost keeps = |entry: PendingProduction| entry.alive && Some(entry.run_id) != ended;
        let mut place: usize = 0;
        while place < self.entries.len()
            invariant
                place <= self.entries@.len(),
                *self == *old(self),
                keeps == (|entry: PendingProduction| entry.alive && Some(entry.run_id) != ended),
                left@ =~= self@.take(place as int).filter(keeps),
            decreases self.entries.len() - place,
        {
            let entry = self.entries[place];
            let of_ended = match ended {
                Some(run_id) => run_id == entry.run_id,
                None => false,
            };
            proof {
                let taken = self@.take(place as int + 1);
                assert(taken.drop_last() =~= self@.take(place as int));
                reveal(Seq::filter);
            }
            if entry.alive && !of_ended {
                left.push(entry);
            }
            place = place + 1;
        }
        proof {
            assert(self@.take(place as int) =~= self@);
            assert(left@ =~= kept(self@, ended));
            filtering_keeps_keys_apart(self@, ended);
        }
        self.entries = left;
        assert(self@ == kept(old(self)@, ended));
    }

    /// Forgets the productions of a run, and those that are gone.
    pub fn remove_pending_run(&mut self, run_id: CanonicalUuid)
        requires
            old(self).wf(),
        ensures
            final(self).wf(),
            final(self)@ =~= kept(old(self)@, Some(run_id)),
    {
        self.retain(Some(run_id));
    }

    fn place_of(&self, key: usize) -> (place: Option<usize>)
        ensures
            match place {
                Some(place) => waits_at(self@, key, place as int),
                None => !waits(self@, key),
            },
    {
        for place in 0..self.entries.len()
            invariant
                forall|i: int| 0 <= i < place ==> (#[trigger] self@[i]).key != key,
        {
            if self.entries[place].key == key {
                return Some(place);
            }
        }
        None
    }

    /// What comes of a production that was made.
    pub open spec fn on_created(
        self,
        after: Self,
        constructions: ActivationConstructions,
        key: usize,
        context: Option<usize>,
        result: Result<(), InitializedTwice>,
    ) -> bool {
        if context is None || constructions@.len() == 0 {
            &&& result == Ok::<(), InitializedTwice>(())
            &&& after == self
        } else if waits(kept(self@, None), key) {
            &&& result == Err::<(), _>(InitializedTwice)
            &&& after@ == kept(self@, None)
        } else {
            &&& result == Ok::<(), InitializedTwice>(())
            &&& after@ == kept(self@, None).push(
                PendingProduction {
                    key,
                    run_id: constructions@.last(),
                    context: context->0,
                    alive: true,
                },
            )
        }
    }

    /// Notes that a production was made. Only one that is made in a run waits for it, and only
    /// once.
    pub fn production_created(
        &mut self,
        constructions: &ActivationConstructions,
        key: usize,
        context: Option<usize>,
    ) -> (result: Result<(), InitializedTwice>)
        requires
            old(self).wf(),
        ensures
            final(self).wf(),
            old(self).on_created(*final(self), *constructions, key, context, result),
    {
        let context: usize = match context {
            Some(context) => context,
            None => return Ok(()),
        };
        let run_id = match constructions.current() {
            Some(run_id) => run_id,
            None => return Ok(()),
        };
        self.retain(None);
        if self.place_of(key).is_some() {
            return Err(InitializedTwice);
        }
        let ghost left = self@;
        self.entries.push(PendingProduction { key, run_id, context, alive: true });
        proof {
            assert forall|i: int, j: int| 0 <= i < j < self@.len() implies (
            #[trigger] self@[i]).key != (#[trigger] self@[j]).key by {
                if j == left.len() {
                    assert(!waits_at(left, key, i));
                }
            }
        }
        Ok(())
    }

    /// Notes that a production is gone.
    pub fn production_released(&mut self, key: usize)
        requires
            old(self).wf(),
        ensures
            final(self).wf(),
            final(self)@.len() == old(self)@.len(),
            forall|i: int|
                0 <= i < old(self)@.len() ==> #[trigger] final(self)@[i] == (PendingProduction {
                    alive: old(self)@[i].alive && old(self)@[i].key != key,
                    ..old(self)@[i]
                }),
    {
        match self.place_of(key) {
            Some(place) => {
                let mut entry = self.entries[place];
                entry.alive = false;
                self.entries.set(place, entry);
                assert forall|i: int| 0 <= i < self@.len() && i != place implies (
                #[trigger] old(self)@[i]).key != key by {
                    if i < place {
                        assert(old(self)@[i].key != old(self)@[place as int].key);
                    } else {
                        assert(old(self)@[place as int].key != old(self)@[i].key);
                    }
                }
            },
            None => {
                assert forall|i: int| 0 <= i < self@.len() implies (
                #[trigger] old(self)@[i]).key != key by {
                    assert(!waits_at(old(self)@, key, i));
                }
            },
        }
        assert(forall|i: int|
            0 <= i < self@.len() ==> (#[trigger] self@[i]).key == old(self)@[i].key);
    }

    /// The production with this key waits for this run.
    pub fn pending_production_matches(&self, key: usize, run_id: CanonicalUuid) -> (matches: bool)
        requires
            self.wf(),
        ensures
            matches == exists|place: int| #[trigger]
                waits_at(self@, key, place) && self@[place].run_id == run_id,
    {
        match self.place_of(key) {
            Some(place) => {
                let matches = self.entries[place].run_id == run_id;
                proof {
                    assert(waits_at(self@, key, place as int));
                    assert forall|other: int| #[trigger] waits_at(self@, key, other) implies other
                        == place by {
                        if other < place {
                            assert(self@[other].key != self@[place as int].key);
                        }
                        if place < other {
                            assert(self@[place as int].key != self@[other].key);
                        }
                    }
                }
                matches
            },
            None => {
                assert(!waits(self@, key));
                false
            },
        }
    }

    /// Takes the production that is about to run. One that is gone is forgotten.
    pub fn take_pending(&mut self, key: usize) -> (pending: Option<PendingProduction>)
        requires
            old(self).wf(),
        ensures
            final(self).wf(),
            old(self).on_take(*final(self), key, pending),
    {
        match self.place_of(key) {
            None => None,
            Some(place) => {
                let entry = self.entries.remove(place);
                proof {
                    assert(waits_at(old(self)@, key, place as int));
                    assert(self@ =~= old(self)@.remove(place as int));
                }
                if entry.alive {
                    Some(entry)
                } else {
                    None
                }
            },
        }
    }

    /// What came of taking a production out.
    pub open spec fn on_take(
        self,
        after: Self,
        key: usize,
        pending: Option<PendingProduction>,
    ) -> bool {
        if waits(self@, key) {
            exists|place: int|
                {
                    &&& #[trigger] waits_at(self@, key, place)
                    &&& after@ == self@.remove(place)
                    &&& pending == if self@[place].alive {
                        Some(self@[place])
                    } else {
                        None
                    }
                }
        } else {
            after == self && pending is None
        }
    }
}

/// Forgetting some keeps the others apart.
proof fn filtering_keeps_keys_apart(entries: Seq<PendingProduction>, ended: Option<CanonicalUuid>)
    requires
        forall|i: int, j: int|
            0 <= i < j < entries.len() ==> (#[trigger] entries[i]).key != (
            #[trigger] entries[j]).key,
    ensures
        forall|i: int, j: int|
            0 <= i < j < kept(entries, ended).len() ==> (#[trigger] kept(entries, ended)[i]).key
                != (#[trigger] kept(entries, ended)[j]).key,
        forall|i: int|
            0 <= i < kept(entries, ended).len() ==> exists|k: int|
                0 <= k < entries.len() && #[trigger] entries[k] == #[trigger] kept(
                    entries,
                    ended,
                )[i],
    decreases entries.len(),
{
    reveal(Seq::filter);
    if entries.len() > 0 {
        let front = entries.drop_last();
        filtering_keeps_keys_apart(front, ended);
        let left = kept(entries, ended);
        let earlier = kept(front, ended);
        assert forall|i: int| 0 <= i < left.len() implies exists|k: int|
            0 <= k < entries.len() && #[trigger] entries[k] == #[trigger] left[i] by {
            if i < earlier.len() {
                let k = choose|k: int| 0 <= k < front.len() && #[trigger] front[k] == earlier[i];
                assert(entries[k] == left[i]);
            } else {
                assert(entries[entries.len() - 1] == left[i]);
            }
        }
        assert forall|i: int, j: int| 0 <= i < j < left.len() implies (#[trigger] left[i]).key != (
        #[trigger] left[j]).key by {
            if j < earlier.len() {
                assert(left[i] == earlier[i] && left[j] == earlier[j]);
            } else {
                assert(left[i] == earlier[i]);
                let k = choose|k: int| 0 <= k < front.len() && #[trigger] front[k] == earlier[i];
                assert(entries[k].key != entries[entries.len() - 1].key);
            }
        }
    }
}

/// Commits that are told to whoever is bound. Those that come before that wait.
pub struct DeferredCommitObserver {
    pub bound: bool,
    pub pending: Vec<u64>,
    /// All commits, in order.
    pub received: Ghost<Seq<u64>>,
    /// The commits that were handed on, in order.
    pub delivered: Ghost<Seq<u64>>,
}

impl DeferredCommitObserver {
    /// Every commit was handed on once, in order, or waits.
    pub open spec fn wf(self) -> bool {
        &&& self.received@ =~= self.delivered@ + self.pending@
        &&& self.bound ==> self.pending@.len() == 0
        &&& !self.bound ==> self.delivered@.len() == 0
    }

    pub fn new() -> (observer: Self)
        ensures
            observer.wf(),
            !observer.bound,
            observer.received@ == Seq::<u64>::empty(),
    {
        DeferredCommitObserver {
            bound: false,
            pending: Vec::new(),
            received: Ghost(Seq::empty()),
            delivered: Ghost(Seq::empty()),
        }
    }

    /// Binds the one who is told of commits, once. They are handed the commits that wait.
    pub fn bind(&mut self) -> (waiting: Result<Vec<u64>, &'static str>)
        requires
            old(self).wf(),
        ensures
            final(self).wf(),
            final(self).received@ == old(self).received@,
            if old(self).bound {
                &&& waiting == Err::<Vec<u64>, &'static str>(
                    "commit observer was bound more than once",
                )
                &&& *final(self) == *old(self)
            } else {
                &&& waiting is Ok
                &&& waiting->Ok_0@ == old(self).received@
                &&& final(self).bound
                &&& final(self).delivered@ == old(self).received@
            },
    {
        if self.bound {
            return Err("commit observer was bound more than once");
        }
        let mut waiting: Vec<u64> = Vec::new();
        std::mem::swap(&mut waiting, &mut self.pending);
        self.bound = true;
        proof {
            self.delivered@ = self.received@;
        }
        Ok(waiting)
    }

    /// Takes a commit. Where someone is bound, it is to be handed to them now.
    pub fn committed(&mut self, notification: u64) -> (handed_on: Option<u64>)
        requires
            old(self).wf(),
        ensures
            final(self).wf(),
            final(self).bound == old(self).bound,
            final(self).received@ == old(self).received@.push(notification),
            handed_on == if old(self).bound {
                Some(notification)
            } else {
                None
            },
            final(self).delivered@ == if old(self).bound {
                old(self).delivered@.push(notification)
            } else {
                old(self).delivered@
            },
    {
        proof {
            self.received@ = self.received@.push(notification);
        }
        if self.bound {
            proof {
                self.delivered@ = self.delivered@.push(notification);
            }
            return Some(notification);
        }
        self.pending.push(notification);
        None
    }
}

/// Whoever is bound has been handed every commit, in the order in which they came.
pub proof fn bound_observer_misses_nothing(observer: DeferredCommitObserver)
    requires
        observer.wf(),
        observer.bound,
    ensures
        observer.delivered@ == observer.received@,
{
    assert(observer.received@ =~= observer.delivered@);
}

/// What an activation asks for is what was asked of it and what was found out before: the deadlines
/// are those of the arguments, each for its own, the runtime is started in the directory that was
/// found, with what is configured, the loader, the views and the production are of the run that was
/// started, and a production is made of the views of its class with its own arguments.
pub proof fn activations_ask_for_what_was_found<V>(
    input: ActivationInput<V>,
    step: ActivationStep,
    facts: ActivationFacts<V>,
    call: ActivationCall<V>,
)
    requires
        call.asks(input, step, facts),
        facts.ready_for(step),
    ensures
        ({
            let run_id = facts.locator->0.run_id;
            &&& call matches ActivationCall::Prevalidated { package_dir, .. } ==> package_dir
                == input.package_dir
            &&& call matches ActivationCall::Limited { stall_ms, shutdown_ms, .. } ==> stall_ms
                == input.arguments.writer_stall_timeout_ms && shutdown_ms
                == input.arguments.shutdown_timeout_ms
            &&& call matches ActivationCall::Bootstrapped { root, config, .. } ==> Some(root)
                == facts.root && Some(config) == facts.config
            &&& call matches ActivationCall::Opened { run_id: asked, .. } ==> asked == run_id
            &&& call matches ActivationCall::Wrote { line, .. } ==> Some(line) == facts.line
            &&& call matches ActivationCall::PathResolved { root, .. } ==> Some(root) == facts.root
            &&& call matches ActivationCall::ClassResolved { path, .. } ==> Some(path) == facts.path
            &&& call matches ActivationCall::ViewsPrepared { class, run_id: asked, .. } ==> Some(
                class,
            ) == facts.class && asked == run_id
            &&& call matches ActivationCall::Entered { run_id: asked } ==> asked == run_id
            &&& call matches ActivationCall::Constructed { class, arguments, .. } ==> Some(class)
                == facts.views && arguments == input.production_args
            &&& call matches ActivationCall::Left { run_id: asked } ==> asked == run_id
            &&& call matches ActivationCall::Matched { production, run_id: asked, .. } ==> Some(
                production,
            ) == facts.production && asked == run_id
            &&& call !is Forgot && call !is ShutDown
            &&& step is Prevalidate <==> call is Prevalidated
            &&& step is Date <==> call is Dated
            &&& step is Limit <==> call is Limited
            &&& step is Bootstrap <==> call is Bootstrapped
            &&& step is OpenLoader <==> call is Opened
            &&& step is WriteReady <==> call is Wrote
            &&& step is ResolvePath <==> call is PathResolved
            &&& step is ResolveClass <==> call is ClassResolved
            &&& step is PrepareViews <==> call is ViewsPrepared
            &&& step is Enter <==> call is Entered
            &&& step is Construct <==> call is Constructed
            &&& step is Leave <==> call is Left
            &&& step is MatchRun <==> call is Matched
        }),
{
}

/// What a runtime is started with is what the arguments say, with the time and the identity that
/// were written down and the deadlines that were made of the arguments.
pub proof fn runtimes_are_configured_by_the_arguments<V>(
    facts: ActivationFacts<V>,
    arguments: RuntimeDiagnosticArgs,
    deadlines: WriterDeadlines,
)
    ensures
        ({
            let config = facts.configuration(arguments, deadlines);
            &&& facts.started_at is Some ==> facts.started_at == Some(config.started_at)
            &&& facts.identity is Some ==> facts.identity == Some(config.configuration_identity)
            &&& config.bind_host == arguments.bind_host
            &&& config.port == arguments.port
            &&& config.advertise_url == arguments.advertise_url
            &&& config.max_run_bytes == arguments.max_run_bytes
            &&& config.writer_deadlines == deadlines
        }),
{
}

/// An activation that fails gives its runtime up exactly where it has one and no one else has given
/// it up: the productions that wait for it are forgotten before it is shut down, and a production
/// that was being made is left after that.
pub proof fn failed_activation_shuts_its_runtime_down<V>(
    step: ActivationStep,
    run_id: CanonicalUuid,
    answer: Result<(), DiagnosticShutdownError>,
)
    ensures
        ({
            let ended = ending::<V>(step, run_id, answer);
            let started = step is OpenLoader || step is DescribeReady || step is WriteReady || step
                is ResolvePath || step is ResolveClass || step is Enter || step is Construct || step
                is Leave || step is MatchRun;
            &&& ended.len() == 0 <==> !started
            &&& started ==> {
                &&& ended.len() >= 2
                &&& ended[0] == (ActivationCall::<V>::Forgot { run_id })
                &&& ended[1] == (ActivationCall::<V>::ShutDown { run_id, answer })
                &&& ended.len() == 3 <==> step is Construct
                &&& ended.len() == 3 ==> ended[2] == (ActivationCall::<V>::Left { run_id })
                &&& ended.len() <= 3
            }
        }),
{
}

/// What went wrong is told as it was: what user code raised as that, unchanged, and a fault of the
/// diagnostics under its own code. Where the shutdown fails too, what user code raised is still
/// told alone, and a fault keeps its code.
pub proof fn activation_errors_keep_what_was_raised(
    told: ActivationError,
    answer: Result<(), DiagnosticShutdownError>,
    error: ActivationError,
)
    requires
        after_shutdown(told, answer, error),
    ensures
        told is Python ==> error == told,
        answer is Ok ==> error == told,
        told is Diagnostic ==> error is Diagnostic && error->code@ == told->code@,
        told is Diagnostic && answer is Err ==> error->detail@.len() >= told->detail@.len()
            && error->detail@.take(told->detail@.len() as int) =~= told->detail@,
{
    if told is Diagnostic && answer is Err {
        let rest = "; diagnostic cleanup also failed: "@;
        let cleanup = "diagnostic_activation.shutdown: "@ + answer->Err_0.text();
        assert(error->detail@ =~= told->detail@ + (rest + cleanup));
    }
}

/// A production that waits is taken once, and only while it is there.
pub proof fn waiting_productions_are_taken_once(
    pending: PendingProductions,
    after: PendingProductions,
    later: PendingProductions,
    key: usize,
    taken: Option<PendingProduction>,
    again: Option<PendingProduction>,
)
    requires
        pending.wf(),
        pending.on_take(after, key, taken),
        after.on_take(later, key, again),
    ensures
        taken matches Some(production) ==> production.key == key && production.alive
            && pending@.contains(production),
        taken is Some <==> exists|i: int|
            0 <= i < pending@.len() && (#[trigger] pending@[i]).key == key && pending@[i].alive,
        again is None,
        forall|i: int|
            0 <= i < pending@.len() && (#[trigger] pending@[i]).key != key ==> after@.contains(
                pending@[i],
            ),
{
    if waits(pending@, key) {
        let place = choose|place: int|
            {
                &&& #[trigger] waits_at(pending@, key, place)
                &&& after@ == pending@.remove(place)
                &&& taken == if pending@[place].alive {
                    Some(pending@[place])
                } else {
                    None
                }
            };
        assert(pending@[place].key == key);
        assert forall|i: int| 0 <= i < pending@.len() && (#[trigger] pending@[i]).key == key implies i
            == place by {
            if i < place {
                assert(pending@[i].key != pending@[place].key);
            }
            if place < i {
                assert(pending@[place].key != pending@[i].key);
            }
        }
        assert forall|i: int| 0 <= i < pending@.len() && (#[trigger] pending@[i]).key != key implies after@.contains(
            pending@[i],
        ) by {
            if i < place {
                assert(after@[i] == pending@[i]);
            } else {
                assert(after@[i - 1] == pending@[i]);
            }
        }
        if waits(after@, key) {
            let at = choose|at: int| waits_at(after@, key, at);
            if at < place {
                assert(after@[at] == pending@[at]);
            } else {
                assert(after@[at] == pending@[at + 1]);
            }
        }
    } else {
        assert forall|i: int| 0 <= i < pending@.len() implies (#[trigger] pending@[i]).key != key by {
            assert(!waits_at(pending@, key, i));
        }
        assert forall|i: int| 0 <= i < pending@.len() implies after@.contains(#[trigger] pending@[i]) by {
            assert(after@[i] == pending@[i]);
        }
    }
}

/// The productions that go on waiting are those that are there and are not of a run that has ended,
/// in their order.
pub proof fn productions_of_other_runs_wait_on(
    entries: Seq<PendingProduction>,
    ended: Option<CanonicalUuid>,
    entry: PendingProduction,
)
    ensures
        kept(entries, ended).contains(entry) <==> entries.contains(entry) && entry.alive && (ended
            is None || entry.run_id != ended->0),
        kept(entries, ended).len() <= entries.len(),
    decreases entries.len(),
{
    reveal(Seq::filter);
    if entries.len() > 0 {
        let front = entries.drop_last();
        let last = entries.last();
        productions_of_other_runs_wait_on(front, ended, entry);
        let earlier = kept(front, ended);
        assert(entries =~= front.push(last));
        if front.contains(entry) {
            let i = choose|i: int| 0 <= i < front.len() && front[i] == entry;
            assert(entries[i] == entry);
        }
        if entries.contains(entry) && entry != last {
            let i = choose|i: int| 0 <= i < entries.len() && entries[i] == entry;
            assert(front[i] == entry);
        }
        assert(entries[entries.len() - 1] == last);
        if last.alive && Some(last.run_id) != ended {
            assert(kept(entries, ended) =~= earlier.push(last));
            assert(earlier.push(last)[earlier.len() as int] == last);
            if earlier.contains(entry) {
                let i = choose|i: int| 0 <= i < earlier.len() && earlier[i] == entry;
                assert(earlier.push(last)[i] == entry);
            }
        } else {
            assert(kept(entries, ended) =~= earlier);
        }
    }
}

/// What an activation fails with is what its last call failed with: what user code raised as that,
/// and a fault of the diagnostics under its own code.
pub proof fn activations_fail_with_what_was_answered<V>(call: ActivationCall<V>, told: ActivationError)
    requires
        call.errs(told),
    ensures
        call !is Matched ==> !call.succeeded(),
        call matches ActivationCall::Prevalidated { root: Err(raised), .. } ==> told
            == (ActivationError::Python { raised }),
        call matches ActivationCall::Dated { started_at: Err(raised) } ==> told
            == (ActivationError::Python { raised }),
        call matches ActivationCall::Wrote { written: Err(raised), .. } ==> told
            == (ActivationError::Python { raised }),
        call matches ActivationCall::Matched { matched: Err(raised), .. } ==> told
            == (ActivationError::Python { raised }),
        call matches ActivationCall::Limited { deadlines: Err(text), .. } ==> told is Diagnostic
            && told->detail@ == text@,
        call matches ActivationCall::Bootstrapped { locator: Err(error), .. } ==> told is Diagnostic
            && told->code@ == error.code@ && told->detail@ == error.text(),
        call matches ActivationCall::Opened { opened: Err(error), .. } ==> told is Diagnostic
            && told->code@ == error.code@ && told->detail@ == error.text(),
        call matches ActivationCall::ViewsPrepared { prepared: Err(failure), .. } ==> told
            is Diagnostic && told->code@ == failure.code@ && told->detail@ == failure.text@,
        call matches ActivationCall::PathResolved { path: Err(load), .. } ==> (told is Python
            <==> load is Python),
        call matches ActivationCall::ClassResolved { class: Err(load), .. } ==> (told is Python
            <==> load is Python),
        call matches ActivationCall::Constructed { production: Err(load), .. } ==> (told is Python
            <==> load is Python),
{
}

/// What is known after a call is what it gave, and all that was known before: nothing that was
/// found is lost, and a call that failed adds nothing.
pub proof fn facts_only_grow<V>(
    facts: ActivationFacts<V>,
    input: ActivationInput<V>,
    step: ActivationStep,
    call: ActivationCall<V>,
)
    ensures
        ({
            let after = facts.after(input, ActivationRecord::Called { step, call });
            &&& call matches ActivationCall::Prevalidated { root: Ok(root), .. } ==> after.root
                == Some(root)
            &&& call matches ActivationCall::Dated { started_at: Ok(at) } ==> after.started_at
                == Some(at)
            &&& call matches ActivationCall::Bootstrapped { locator: Ok(locator), .. }
                ==> after.locator == Some(locator)
            &&& call matches ActivationCall::PathResolved { path: Ok(path), .. } ==> after.path
                == Some(path)
            &&& call matches ActivationCall::ClassResolved { class: Ok(class), .. } ==> after.class
                == Some(class)
            &&& call matches ActivationCall::ViewsPrepared { prepared: Ok(views), .. }
                ==> after.views == Some(views)
            &&& call matches ActivationCall::Constructed { production: Ok(production), .. }
                ==> after.production == Some(production)
            &&& call !is Prevalidated ==> after.root == facts.root
            &&& call !is Dated ==> after.started_at == facts.started_at
            &&& call !is Bootstrapped ==> after.locator == facts.locator
            &&& call !is PathResolved ==> after.path == facts.path
            &&& call !is ClassResolved ==> after.class == facts.class
            &&& call !is ViewsPrepared ==> after.views == facts.views
            &&& call !is Constructed ==> after.production == facts.production
            &&& after.identity == facts.identity && after.line == facts.line
            &&& !call.succeeded() && call !is Matched ==> after == facts
        }),
{
}

/// A production that is made in a run waits for that run, the one that was entered last, where it
/// does not wait already. One that is made outside of any waits for none.
pub proof fn productions_wait_for_the_run_they_are_made_in(
    pending: PendingProductions,
    after: PendingProductions,
    constructions: ActivationConstructions,
    key: usize,
    context: Option<usize>,
    result: Result<(), InitializedTwice>,
)
    requires
        pending.on_created(after, constructions, key, context, result),
    ensures
        context is None || constructions@.len() == 0 ==> result is Ok && after == pending,
        context is Some && constructions@.len() > 0 && result is Ok ==> {
            let waiting = after@.last();
            &&& after@.len() > 0
            &&& waiting.key == key
            &&& waiting.run_id == constructions@[constructions@.len() - 1]
            &&& Some(waiting.context) == context
            &&& waiting.alive
        },
        context is Some && constructions@.len() > 0 ==> (result is Err <==> exists|i: int|
            0 <= i < kept(pending@, None).len() && (#[trigger] kept(pending@, None)[i]).key == key),
{
    let left = kept(pending@, None);
    if waits(left, key) {
        let place = choose|place: int| waits_at(left, key, place);
        assert(left[place].key == key);
    } else {
        assert forall|i: int| 0 <= i < left.len() implies (#[trigger] left[i]).key != key by {
            assert(!waits_at(left, key, i));
        }
    }
}

} // verus!
