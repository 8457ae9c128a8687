//! The phases in which a production is loaded: its path, its class, its construction. A phase is
//! worked on only between the start and the end of its span.
use crate::context::{DiagnosticProducerError, DiagnosticRunContext, SpanEventAdmission};
use crate::event::{
    empty_scope, DiagnosticScope, ErrorCode, EventCandidate, SpanOutcome, SpanStartDetail,
};
use crate::python_error::{error_reason, is_system_exit};
use vstd::prelude::*;
use vstd::string::StringExecFns;

verus! {

/// Why a production was not loaded.
#[derive(Debug)]
pub enum LoadProducerError {
    /// User code failed. The end of its phase may have failed to be reported too.
    Python { raised: pyo3::PyErr, diagnostic_finish_error: Option<DiagnosticProducerError> },
    /// A phase could not be reported. Undoing it may have failed too.
    Diagnostic { error: DiagnosticProducerError, cleanup_error: Option<pyo3::PyErr> },
}

impl LoadProducerError {
    pub fn diagnostic(error: DiagnosticProducerError) -> (failure: Self)
        ensures
            failure == (LoadProducerError::Diagnostic { error, cleanup_error: None }),
    {
        LoadProducerError::Diagnostic { error, cleanup_error: None }
    }

    pub fn python(
        raised: pyo3::PyErr,
        diagnostic_finish_error: Option<DiagnosticProducerError>,
    ) -> (failure: Self)
        ensures
            failure == (LoadProducerError::Python { raised, diagnostic_finish_error }),
    {
        LoadProducerError::Python { raised, diagnostic_finish_error }
    }

    pub fn python_error(&self) -> (raised: Option<&pyo3::PyErr>)
        ensures
            match self {
                LoadProducerError::Python { raised: error, .. } => raised == Some(error),
                LoadProducerError::Diagnostic { .. } => raised is None,
            },
    {
        match self {
            LoadProducerError::Python { raised, .. } => Some(raised),
            LoadProducerError::Diagnostic { .. } => None,
        }
    }

    pub fn diagnostic_error(&self) -> (error: Option<&DiagnosticProducerError>)
        ensures
            match self {
                LoadProducerError::Python { diagnostic_finish_error: Some(finish), .. } => error
                    == Some(finish),
                LoadProducerError::Python { .. } => error is None,
                LoadProducerError::Diagnostic { error: refused, .. } => error == Some(refused),
            },
    {
        match self {
            LoadProducerError::Python { diagnostic_finish_error, .. } => {
                diagnostic_finish_error.as_ref()
            },
            LoadProducerError::Diagnostic { error, .. } => Some(error),
        }
    }

    pub fn cleanup_error(&self) -> (cleanup: Option<&pyo3::PyErr>)
        ensures
            match self {
                LoadProducerError::Diagnostic { cleanup_error: Some(failed), .. } => cleanup == Some(
                    failed,
                ),
                _ => cleanup is None,
            },
    {
        match self {
            LoadProducerError::Diagnostic { cleanup_error, .. } => cleanup_error.as_ref(),
            LoadProducerError::Python { .. } => None,
        }
    }

    /// The text that describes the error.
    pub open spec fn text(self) -> Seq<char> {
        match self {
            LoadProducerError::Python { diagnostic_finish_error: Some(error), .. } => {
                "Production loading failed and its diagnostic finish failed: "@ + error.text()
            },
            LoadProducerError::Python { .. } => "Production loading failed"@,
            LoadProducerError::Diagnostic { error, cleanup_error: Some(_) } => {
                error.text() + "; transactional Production cleanup also failed"@
            },
            LoadProducerError::Diagnostic { error, .. } => error.text(),
        }
    }

    /// Describes the error to a reader.
    pub fn describe(&self) -> (text: String)
        ensures
            text@ == self.text(),
    {
        match self {
            LoadProducerError::Python { diagnostic_finish_error: Some(error), .. } => {
                "Production loading failed and its diagnostic finish failed: ".to_owned().concat(
                    error.describe().as_str(),
                )
            },
            LoadProducerError::Python { .. } => "Production loading failed".to_owned(),
            LoadProducerError::Diagnostic { error, cleanup_error: Some(_) } => {
                error.describe().concat("; transactional Production cleanup also failed")
            },
            LoadProducerError::Diagnostic { error, .. } => error.describe(),
        }
    }
}

/// What decides the code that a failure of user code is reported under.
#[derive(Debug, PartialEq, Eq)]
pub enum LoadFailure {
    /// The loader refused the production, for a reason where it gave one.
    Refused(Option<String>),
    SystemExit,
    Other,
}

impl LoadFailure {
    /// The code that the failure is reported under.
    pub open spec fn spec_code(self, fallback: &'static str) -> ErrorCode {
        match self {
            LoadFailure::Refused(Some(reason)) => ErrorCode::Reported(reason),
            LoadFailure::SystemExit => ErrorCode::Stable("system-exit"),
            LoadFailure::Refused(None) | LoadFailure::Other => ErrorCode::Stable(fallback),
        }
    }

    pub fn code(self, fallback: &'static str) -> (code: ErrorCode)
        ensures
            code == self.spec_code(fallback),
    {
        match self {
            LoadFailure::Refused(Some(reason)) => ErrorCode::Reported(reason),
            LoadFailure::SystemExit => ErrorCode::Stable("system-exit"),
            LoadFailure::Refused(None) | LoadFailure::Other => ErrorCode::Stable(fallback),
        }
    }

    /// The failure, by what was answered about the error.
    pub open spec fn spec_answered(
        refused: bool,
        reason: Option<String>,
        system_exit: Option<bool>,
    ) -> Self {
        if refused {
            LoadFailure::Refused(reason)
        } else if system_exit == Some(true) {
            LoadFailure::SystemExit
        } else {
            LoadFailure::Other
        }
    }

    /// The failure, by what was answered about the error. `refused` tells whether the loader raised
    /// it to refuse the production.
    pub fn answered(refused: bool, reason: Option<String>, system_exit: Option<bool>) -> (failure:
        Self)
        ensures
            failure == LoadFailure::spec_answered(refused, reason, system_exit),
    {
        if refused {
            LoadFailure::Refused(reason)
        } else {
            match system_exit {
                Some(true) => LoadFailure::SystemExit,
                _ => LoadFailure::Other,
            }
        }
    }

    /// The failure is that of the error: one that refused the production was asked for its reason,
    /// any other whether it is a `SystemExit`.
    pub open spec fn is_of(self, raised: pyo3::PyErr, refused: bool) -> bool {
        exists|reason: Option<String>, system_exit: Option<bool>|
            {
                &&& if refused {
                    crate::python_error::answered_reason(raised, reason)
                } else {
                    crate::python_error::answered_system_exit(raised, system_exit)
                }
                &&& self == #[trigger] LoadFailure::spec_answered(refused, reason, system_exit)
            }
    }

    /// Asks the interpreter about an error. `refused` tells whether the loader raised it to refuse
    /// the production.
    pub fn of(raised: &pyo3::PyErr, refused: bool) -> (failure: Self)
        ensures
            failure.is_of(*raised, refused),
    {
        if refused {
            LoadFailure::answered(refused, error_reason(raised), None)
        } else {
            LoadFailure::answered(refused, None, is_system_exit(raised))
        }
    }
}

/// The code that an error of user code is reported under.
pub fn normalized_python_error_code(
    raised: &pyo3::PyErr,
    refused: bool,
    fallback: &'static str,
) -> (code: ErrorCode)
    ensures
        exists|failure: LoadFailure|
            failure.is_of(*raised, refused) && code == #[trigger] failure.spec_code(fallback),
{
    LoadFailure::of(raised, refused).code(fallback)
}

/// A phase that is being worked on.
#[derive(Debug, PartialEq, Eq)]
pub struct OpenPhase {
    pub span_id: u64,
    pub package: String,
}

/// A path that was resolved.
#[derive(Debug, PartialEq, Eq)]
pub struct ObservedProductionPath<P> {
    pub resolved: P,
    pub package: String,
}

/// A class that was resolved.
#[derive(Debug, PartialEq, Eq)]
pub struct ObservedProductionClass<C> {
    pub resolved: C,
    pub package: String,
}

/// A class that has to be rolled back, because its phase could not be reported.
#[derive(Debug, PartialEq, Eq)]
pub struct Rollback<C> {
    pub resolved: C,
    pub error: DiagnosticProducerError,
}

impl<C> Rollback<C> {
    /// The failure, once the class was rolled back.
    pub fn into_error(self, cleanup_error: Option<pyo3::PyErr>) -> (failure: LoadProducerError)
        ensures
            failure == (LoadProducerError::Diagnostic { error: self.error, cleanup_error }),
    {
        LoadProducerError::Diagnostic { error: self.error, cleanup_error }
    }
}

/// Why a class was not resolved.
#[derive(Debug)]
pub enum ResolveClassError<C> {
    Failed(LoadProducerError),
    RollBack(Rollback<C>),
}

/// Reports how a production is loaded.
#[derive(Debug, PartialEq, Eq)]
pub struct ProductionLoadProducer {
    pub production_root: String,
}

impl ProductionLoadProducer {
    /// The producer for a root that is text.
    pub fn new(production_root: Option<String>) -> (result: Result<Self, DiagnosticProducerError>)
        ensures
            match (result, production_root) {
                (Ok(producer), Some(root)) => producer.production_root == root,
                (Err(error), None) => {
                    &&& error.code@ == "diagnostic.production-root-not-utf8"@
                    &&& error.message@
                        == "ready Production root cannot be represented in canonical diagnostic detail"@
                },
                _ => false,
            },
    {
        match production_root {
            Some(production_root) => Ok(ProductionLoadProducer { production_root }),
            None => Err(
                DiagnosticProducerError::new(
                    "diagnostic.production-root-not-utf8",
                    "ready Production root cannot be represented in canonical diagnostic detail",
                ),
            ),
        }
    }

    /// The start of a phase. A phase is opened exactly where its start was accepted.
    pub open spec fn opens<A: SpanEventAdmission>(
        before: DiagnosticRunContext<A>,
        after: DiagnosticRunContext<A>,
        detail: SpanStartDetail,
    ) -> bool {
        after.reports(
            before,
            EventCandidate::started(DiagnosticScope::of_run(), detail, None, None).alone(),
        )
    }

    /// The end of a phase.
    pub open spec fn closes<A: SpanEventAdmission>(
        before: DiagnosticRunContext<A>,
        after: DiagnosticRunContext<A>,
        span_id: u64,
        outcome: SpanOutcome,
        error_code: Option<ErrorCode>,
    ) -> bool {
        after.reports(
            before,
            EventCandidate::finished(
                DiagnosticScope::of_run(),
                span_id,
                outcome,
                error_code,
                None,
            ).alone(),
        )
    }

    /// The end of a phase that gave something, or raised an error.
    pub open spec fn closes_as<A: SpanEventAdmission, T>(
        before: DiagnosticRunContext<A>,
        after: DiagnosticRunContext<A>,
        span_id: u64,
        outcome: Result<T, (pyo3::PyErr, LoadFailure)>,
        fallback: &'static str,
    ) -> bool {
        match outcome {
            Ok(_) => ProductionLoadProducer::closes(
                before,
                after,
                span_id,
                SpanOutcome::Completed,
                None,
            ),
            Err((_, failure)) => ProductionLoadProducer::closes(
                before,
                after,
                span_id,
                SpanOutcome::Failed,
                Some(failure.spec_code(fallback)),
            ),
        }
    }

    /// Begins to resolve the path of a package.
    pub fn begin_path<A: SpanEventAdmission>(
        &self,
        context: &mut DiagnosticRunContext<A>,
        package: String,
    ) -> (result: Result<OpenPhase, LoadProducerError>)
        ensures
            ProductionLoadProducer::opens(
                *old(context),
                *final(context),
                SpanStartDetail::ProductionPathResolution {
                    production_root: self.production_root,
                    package,
                },
            ),
            match result {
                Ok(phase) => {
                    &&& phase.package == package
                    &&& final(context).accepted_since(*old(context)) == seq![phase.span_id]
                },
                Err(error) => error == (LoadProducerError::Diagnostic {
                    error: final(context).refusal_since(*old(context))->0,
                    cleanup_error: None,
                }) && final(context).stopped_since(*old(context)),
            },
    {
        match context.start_span(
            empty_scope(),
            SpanStartDetail::ProductionPathResolution {
                production_root: self.production_root.clone(),
                package: package.clone(),
            },
            None,
        ) {
            Ok(span_id) => {
                assert(context.accepted_since(*old(context)) =~= seq![span_id]);
                Ok(OpenPhase { span_id, package })
            },
            Err(error) => Err(LoadProducerError::diagnostic(error)),
        }
    }

    /// Ends the resolution of a path.
    pub fn finish_path<A: SpanEventAdmission, P>(
        &self,
        context: &mut DiagnosticRunContext<A>,
        phase: OpenPhase,
        outcome: Result<P, (pyo3::PyErr, LoadFailure)>,
    ) -> (result: Result<ObservedProductionPath<P>, LoadProducerError>)
        ensures
            ProductionLoadProducer::closes_as(
                *old(context),
                *final(context),
                phase.span_id,
                outcome,
                "production-path-resolution-failed",
            ),
            match outcome {
                Ok(resolved) => {
                    &&& ProductionLoadProducer::closes(
                        *old(context),
                        *final(context),
                        phase.span_id,
                        SpanOutcome::Completed,
                        None,
                    )
                    &&& result == match final(context).refusal_since(*old(context)) {
                        None => Ok::<ObservedProductionPath<P>, LoadProducerError>(
                            ObservedProductionPath { resolved, package: phase.package },
                        ),
                        Some(error) => Err(
                            LoadProducerError::Diagnostic { error, cleanup_error: None },
                        ),
                    }
                },
                Err((raised, failure)) => {
                    &&& ProductionLoadProducer::closes(
                        *old(context),
                        *final(context),
                        phase.span_id,
                        SpanOutcome::Failed,
                        Some(failure.spec_code("production-path-resolution-failed")),
                    )
                    &&& result == Err::<ObservedProductionPath<P>, LoadProducerError>(
                        LoadProducerError::Python {
                            raised,
                            diagnostic_finish_error: final(context).refusal_since(*old(context)),
                        },
                    )
                },
            },
    {
        match outcome {
            Ok(resolved) => {
                match context.finish_span(
                    empty_scope(),
                    phase.span_id,
                    SpanOutcome::Completed,
                    None,
                ) {
                    Ok(()) => Ok(ObservedProductionPath { resolved, package: phase.package }),
                    Err(error) => Err(LoadProducerError::diagnostic(error)),
                }
            },
            Err((raised, failure)) => Err(
                self.python_failure(
                    context,
                    phase.span_id,
                    raised,
                    failure,
                    "production-path-resolution-failed",
                ),
            ),
        }
    }

    /// Begins to load a class.
    pub fn begin_class<A: SpanEventAdmission>(
        &self,
        context: &mut DiagnosticRunContext<A>,
        package: String,
    ) -> (result: Result<OpenPhase, LoadProducerError>)
        ensures
            ProductionLoadProducer::opens(
                *old(context),
                *final(context),
                SpanStartDetail::ProductionLoad { package },
            ),
            match result {
                Ok(phase) => {
                    &&& phase.package == package
                    &&& final(context).accepted_since(*old(context)) == seq![phase.span_id]
                },
                Err(error) => error == (LoadProducerError::Diagnostic {
                    error: final(context).refusal_since(*old(context))->0,
                    cleanup_error: None,
                }) && final(context).stopped_since(*old(context)),
            },
    {
        match context.start_span(
            empty_scope(),
            SpanStartDetail::ProductionLoad { package: package.clone() },
            None,
        ) {
            Ok(span_id) => {
                assert(context.accepted_since(*old(context)) =~= seq![span_id]);
                Ok(OpenPhase { span_id, package })
            },
            Err(error) => Err(LoadProducerError::diagnostic(error)),
        }
    }

    /// Ends the load of a class. Where the end is refused, the class comes back to be rolled back.
    pub fn finish_class<A: SpanEventAdmission, C>(
        &self,
        context: &mut DiagnosticRunContext<A>,
        phase: OpenPhase,
        outcome: Result<C, (pyo3::PyErr, LoadFailure)>,
    ) -> (result: Result<ObservedProductionClass<C>, ResolveClassError<C>>)
        ensures
            ProductionLoadProducer::closes_as(
                *old(context),
                *final(context),
                phase.span_id,
                outcome,
                "production-load-failed",
            ),
            match outcome {
                Ok(resolved) => {
                    &&& ProductionLoadProducer::closes(
                        *old(context),
                        *final(context),
                        phase.span_id,
                        SpanOutcome::Completed,
                        None,
                    )
                    &&& result == match final(context).refusal_since(*old(context)) {
                        None => Ok::<ObservedProductionClass<C>, ResolveClassError<C>>(
                            ObservedProductionClass { resolved, package: phase.package },
                        ),
                        Some(error) => Err(
                            ResolveClassError::RollBack(Rollback { resolved, error }),
                        ),
                    }
                },
                Err((raised, failure)) => {
                    &&& ProductionLoadProducer::closes(
                        *old(context),
                        *final(context),
                        phase.span_id,
                        SpanOutcome::Failed,
                        Some(failure.spec_code("production-load-failed")),
                    )
                    &&& result == Err::<ObservedProductionClass<C>, ResolveClassError<C>>(
                        ResolveClassError::Failed(
                            LoadProducerError::Python {
                                raised,
                                diagnostic_finish_error: final(context).refusal_since(
                                    *old(context),
                                ),
                            },
                        ),
                    )
                },
            },
    {
        match outcome {
            Ok(resolved) => {
                match context.finish_span(
                    empty_scope(),
                    phase.span_id,
                    SpanOutcome::Completed,
                    None,
                ) {
                    Ok(()) => Ok(ObservedProductionClass { resolved, package: phase.package }),
                    Err(error) => Err(ResolveClassError::RollBack(Rollback { resolved, error })),
                }
            },
            Err((raised, failure)) => Err(
                ResolveClassError::Failed(
                    self.python_failure(
                        context,
                        phase.span_id,
                        raised,
                        failure,
                        "production-load-failed",
                    ),
                ),
            ),
        }
    }

    /// Begins to construct a production. Where the start is refused, the class comes back to be
    /// rolled back.
    pub fn begin_construct<A: SpanEventAdmission, C>(
        &self,
        context: &mut DiagnosticRunContext<A>,
        class: ObservedProductionClass<C>,
    ) -> (result: Result<(u64, C), Rollback<C>>)
        ensures
            ProductionLoadProducer::opens(
                *old(context),
                *final(context),
                SpanStartDetail::ProductionConstruct {
                    package: class.package,
                    class_name: "Production",
                },
            ),
            match result {
                Ok((span_id, resolved)) => {
                    &&& resolved == class.resolved
                    &&& final(context).accepted_since(*old(context)) == seq![span_id]
                },
                Err(rollback) => {
                    &&& rollback.resolved == class.resolved
                    &&& final(context).refusal_since(*old(context)) == Some(rollback.error)
                },
            },
    {
        match context.start_span(
            empty_scope(),
            SpanStartDetail::ProductionConstruct {
                package: class.package,
                class_name: "Production",
            },
            None,
        ) {
            Ok(span_id) => {
                assert(context.accepted_since(*old(context)) =~= seq![span_id]);
                Ok((span_id, class.resolved))
            },
            Err(error) => Err(Rollback { resolved: class.resolved, error }),
        }
    }

    /// Ends the construction of a production. Where the end is refused, the production is dropped.
    pub fn finish_construct<A: SpanEventAdmission, T>(
        &self,
        context: &mut DiagnosticRunContext<A>,
        span_id: u64,
        outcome: Result<T, (pyo3::PyErr, LoadFailure)>,
    ) -> (result: Result<T, LoadProducerError>)
        ensures
            ProductionLoadProducer::closes_as(
                *old(context),
                *final(context),
                span_id,
                outcome,
                "production-construct-failed",
            ),
            match outcome {
                Ok(production) => {
                    &&& ProductionLoadProducer::closes(
                        *old(context),
                        *final(context),
                        span_id,
                        SpanOutcome::Completed,
                        None,
                    )
                    &&& result == match final(context).refusal_since(*old(context)) {
                        None => Ok::<T, LoadProducerError>(production),
                        Some(error) => Err(
                            LoadProducerError::Diagnostic { error, cleanup_error: None },
                        ),
                    }
                },
                Err((raised, failure)) => {
                    &&& ProductionLoadProducer::closes(
                        *old(context),
                        *final(context),
                        span_id,
                        SpanOutcome::Failed,
                        Some(failure.spec_code("production-construct-failed")),
                    )
                    &&& result == Err::<T, LoadProducerError>(
                        LoadProducerError::Python {
                            raised,
                            diagnostic_finish_error: final(context).refusal_since(*old(context)),
                        },
                    )
                },
            },
    {
        match outcome {
            Ok(production) => {
                match context.finish_span(empty_scope(), span_id, SpanOutcome::Completed, None) {
                    Ok(()) => Ok(production),
                    Err(error) => Err(LoadProducerError::diagnostic(error)),
                }
            },
            Err((raised, failure)) => Err(
                self.python_failure(
                    context,
                    span_id,
                    raised,
                    failure,
                    "production-construct-failed",
                ),
            ),
        }
    }

    fn python_failure<A: SpanEventAdmission>(
        &self,
        context: &mut DiagnosticRunContext<A>,
        span_id: u64,
        raised: pyo3::PyErr,
        failure: LoadFailure,
        fallback: &'static str,
    ) -> (error: LoadProducerError)
        ensures
            ProductionLoadProducer::closes(
                *old(context),
                *final(context),
                span_id,
                SpanOutcome::Failed,
                Some(failure.spec_code(fallback)),
            ),
            error == (LoadProducerError::Python {
                raised,
                diagnostic_finish_error: final(context).refusal_since(*old(context)),
            }),
    {
        let code = failure.code(fallback);
        let diagnostic_finish_error = match context.finish_span(
            empty_scope(),
            span_id,
            SpanOutcome::Failed,
            Some(code),
        ) {
            Ok(()) => None,
            Err(error) => Some(error),
        };
        LoadProducerError::python(raised, diagnostic_finish_error)
    }
}

/// A phase of loading that opens has begun its span.
pub proof fn opened_phase_refers_back<A: SpanEventAdmission>(
    before: DiagnosticRunContext<A>,
    after: DiagnosticRunContext<A>,
    detail: SpanStartDetail,
)
    requires
        crate::references::refer_back(before.trace()),
        ProductionLoadProducer::opens(before, after, detail),
    ensures
        crate::references::refer_back(after.trace()),
        crate::references::goes_on(before.trace(), after.trace()),
        crate::context::Attempt::nth(after.accepted_since(before), 0) matches Some(span_id)
            ==> crate::references::begun_in(after.trace(), span_id),
{
    crate::references::one_fact_refers_back(
        after,
        before,
        EventCandidate::started(DiagnosticScope::of_run(), detail, None, None),
    );
}

/// A phase of loading that closes refers to the span that it began.
pub proof fn closed_phase_refers_back<A: SpanEventAdmission>(
    before: DiagnosticRunContext<A>,
    after: DiagnosticRunContext<A>,
    span_id: u64,
    outcome: SpanOutcome,
    error_code: Option<ErrorCode>,
)
    requires
        crate::references::refer_back(before.trace()),
        crate::references::begun_in(before.trace(), span_id),
        ProductionLoadProducer::closes(before, after, span_id, outcome, error_code),
    ensures
        crate::references::refer_back(after.trace()),
        crate::references::goes_on(before.trace(), after.trace()),
{
    crate::references::one_fact_refers_back(
        after,
        before,
        EventCandidate::finished(DiagnosticScope::of_run(), span_id, outcome, error_code, None),
    );
}

/// A phase of loading opens a span of the run with no parent, and closes it as it went: one fact
/// each, with the outcome and the code that are given.
pub proof fn phases_are_told_as_they_go<A: SpanEventAdmission>(
    before: DiagnosticRunContext<A>,
    opened: DiagnosticRunContext<A>,
    closed: DiagnosticRunContext<A>,
    detail: SpanStartDetail,
    span_id: u64,
    outcome: SpanOutcome,
    error_code: Option<ErrorCode>,
)
    requires
        ProductionLoadProducer::opens(before, opened, detail),
        ProductionLoadProducer::closes(opened, closed, span_id, outcome, error_code),
    ensures
        ({
            let start = opened.steps_since(before);
            let end = closed.steps_since(opened);
            &&& start.len() == 1 && end.len() == 1
            &&& start[0].candidate.body == (crate::event::EventBody::SpanStarted {
                detail,
                parent_span_id: None,
            })
            &&& end[0].candidate.body == (crate::event::EventBody::SpanFinished {
                span_id,
                outcome,
                error_code,
            })
            &&& start[0].candidate.cause is None && end[0].candidate.cause is None
            &&& start[0].candidate.scope == end[0].candidate.scope
            &&& start[0].candidate.scope.scene_id is None && start[0].candidate.scope.actor_id
                is None && start[0].candidate.scope.cue_id is None
                && start[0].candidate.scope.effect_id is None && start[0].candidate.scope.act_id
                is None && start[0].candidate.scope.tool_call_id is None
                && start[0].candidate.scope.session_generation is None
            &&& !start[0].candidate.unheard && !end[0].candidate.unheard
        }),
{
    crate::references::lone_fact(
        before,
        opened,
        EventCandidate::started(DiagnosticScope::of_run(), detail, None, None),
    );
    crate::references::lone_fact(
        opened,
        closed,
        EventCandidate::finished(DiagnosticScope::of_run(), span_id, outcome, error_code, None),
    );
}

/// What user code raised while it was loaded is reported under the reason that a refusal gives,
/// where it gives one; an exit of the interpreter under its own code, whatever the phase; and all
/// else under the code of the phase. Asked of an error that refuses nothing, no reason is ever
/// reported.
pub proof fn load_failures_keep_their_reasons(
    refused: bool,
    reason: Option<String>,
    system_exit: Option<bool>,
    fallback: &'static str,
)
    ensures
        ({
            let code = LoadFailure::spec_answered(refused, reason, system_exit).spec_code(fallback);
            &&& refused && reason is Some ==> code@ == reason->0@ && code is Reported
            &&& refused && reason is None ==> code@ == fallback@ && code is Stable
            &&& !refused && system_exit == Some(true) ==> code@ == "system-exit"@ && code is Stable
            &&& !refused && system_exit != Some(true) ==> code@ == fallback@ && code is Stable
        }),
{
}

/// Only a refusal is asked for its reason, and only what is no refusal whether it is an exit.
pub proof fn load_failures_come_of_what_was_answered(
    failure: LoadFailure,
    raised: pyo3::PyErr,
    refused: bool,
)
    requires
        failure.is_of(raised, refused),
    ensures
        refused <==> failure is Refused,
        failure matches LoadFailure::Refused(reason) ==> crate::python_error::answered_reason(
            raised,
            reason,
        ),
        failure is SystemExit ==> crate::python_error::answered_system_exit(raised, Some(true)),
        failure is Other ==> crate::python_error::answered_system_exit(raised, Some(false))
            || crate::python_error::answered_system_exit(raised, None),
{
    let (reason, system_exit) = choose|reason: Option<String>, system_exit: Option<bool>|
        {
            &&& if refused {
                crate::python_error::answered_reason(raised, reason)
            } else {
                crate::python_error::answered_system_exit(raised, system_exit)
            }
            &&& failure == #[trigger] LoadFailure::spec_answered(refused, reason, system_exit)
        };
    assert(system_exit is None || system_exit == Some(true) || system_exit == Some(false));
}

/// A phase of loading ends as it went: as completed, without a code, exactly where it gave
/// something, and as failed, with the code of what was raised, exactly where it raised an error.
pub proof fn phases_of_loading_end_as_they_went<A: SpanEventAdmission, T>(
    before: DiagnosticRunContext<A>,
    after: DiagnosticRunContext<A>,
    span_id: u64,
    outcome: Result<T, (pyo3::PyErr, LoadFailure)>,
    fallback: &'static str,
)
    requires
        ProductionLoadProducer::closes_as(before, after, span_id, outcome, fallback),
    ensures
        ({
            let facts = after.steps_since(before);
            &&& facts.len() == 1
            &&& facts[0].candidate.body matches crate::event::EventBody::SpanFinished {
                span_id: told_span,
                outcome: told,
                error_code,
            } && {
                &&& told_span == span_id
                &&& told is Completed <==> outcome is Ok
                &&& told is Failed <==> outcome is Err
                &&& error_code is None <==> outcome is Ok
                &&& outcome matches Err((_, failure)) ==> match failure {
                    LoadFailure::Refused(Some(reason)) => error_code->0@ == reason@,
                    LoadFailure::SystemExit => error_code->0@ == "system-exit"@,
                    _ => error_code->0@ == fallback@,
                }
            }
        }),
{
    match outcome {
        Ok(_) => crate::references::lone_fact(
            before,
            after,
            EventCandidate::finished(
                DiagnosticScope::of_run(),
                span_id,
                SpanOutcome::Completed,
                None,
                None,
            ),
        ),
        Err((_, failure)) => crate::references::lone_fact(
            before,
            after,
            EventCandidate::finished(
                DiagnosticScope::of_run(),
                span_id,
                SpanOutcome::Failed,
                Some(failure.spec_code(fallback)),
                None,
            ),
        ),
    }
}

} // verus!
