//! What the runtime reads of an error that Python code raised.
use pyo3::exceptions::{PyStopIteration, PySystemExit};
use pyo3::types::PyAnyMethods;
use pyo3::Python;
use std::fmt::Write;
use vstd::prelude::*;

verus! {

/// An error that Python code raised. It is carried, never looked into.
#[verifier::external_type_specification]
#[verifier::external_body]
pub struct ExPyErr(pyo3::PyErr);

/// What decides how a raised error ends a span.
#[derive(Clone, Copy, Debug, PartialEq, Eq, Structural)]
pub struct ErrorClass {
    pub stop_iteration: bool,
    pub cancelled: bool,
}

/// An interpreter answered this when it was asked whether the error is a `StopIteration`. Of two
/// askings it may hold with two answers.
pub uninterp spec fn answered_stop_iteration(error: pyo3::PyErr, answer: Option<bool>) -> bool;

/// An interpreter answered this when it was asked whether the error is a cancellation. Of two
/// askings it may hold with two answers.
pub uninterp spec fn answered_cancelled(error: pyo3::PyErr, answer: Option<bool>) -> bool;

/// An interpreter answered this when it was asked whether the error is a `SystemExit`. Of two
/// askings it may hold with two answers.
pub uninterp spec fn answered_system_exit(error: pyo3::PyErr, answer: Option<bool>) -> bool;

/// The raised object gave this when it was asked for its `reason`. Of two askings it may hold with
/// two answers.
pub uninterp spec fn answered_reason(error: pyo3::PyErr, reason: Option<String>) -> bool;

/// The raised object said this when it was asked to describe itself. Of two askings it may hold
/// with two answers.
pub uninterp spec fn answered_display(error: pyo3::PyErr, text: Option<String>) -> bool;

/// `pyo3::PyErr::is_instance_of::<PyStopIteration>`: whether the error is a `StopIteration`. The
/// interpreter answers, if there is one: of the answer it is only claimed that it was given to this
/// question about this error.
#[verifier::external_body]
fn is_stop_iteration(error: &pyo3::PyErr) -> (answer: Option<bool>)
    ensures
        answered_stop_iteration(*error, answer),
{
    Python::try_attach(|py| error.is_instance_of::<PyStopIteration>(py))
}

/// `pyo3::PyErr::is_instance` with `asyncio.CancelledError`: whether the error is a cancellation.
/// The interpreter imports `asyncio` for it: of the answer it is only claimed that it was given to
/// this question about this error.
#[verifier::external_body]
fn is_cancelled_error(error: &pyo3::PyErr) -> (answer: Option<bool>)
    ensures
        answered_cancelled(*error, answer),
{
    Python::try_attach(|py| {
        py.import("asyncio")
            .and_then(|asyncio| asyncio.getattr("CancelledError"))
            .is_ok_and(|cancelled| error.is_instance(py, &cancelled))
    })
}

/// `pyo3::PyErr::is_instance_of::<PySystemExit>`: whether the error is a `SystemExit`. The
/// interpreter answers: of the answer it is only claimed that it was given to this question about
/// this error.
#[verifier::external_body]
pub(crate) fn is_system_exit(error: &pyo3::PyErr) -> (answer: Option<bool>)
    ensures
        answered_system_exit(*error, answer),
{
    Python::try_attach(|py| error.is_instance_of::<PySystemExit>(py))
}

/// `pyo3`'s `getattr` and `extract`: the `reason` that the raised object carries, where it is a
/// text. The object answers: of the answer it is only claimed that it was given to this question
/// about this error.
#[verifier::external_body]
pub(crate) fn error_reason(error: &pyo3::PyErr) -> (reason: Option<String>)
    ensures
        answered_reason(*error, reason),
{
    Python::try_attach(|py| {
        error.value(py).getattr("reason").and_then(|reason| reason.extract::<String>()).ok()
    })
    .flatten()
}

/// `Display` of a `pyo3::PyErr`: the kind of the error and what the raised object says of itself.
/// The object answers: of the answer it is only claimed that it was given to this question about
/// this error.
#[verifier::external_body]
fn display_error(error: &pyo3::PyErr) -> (text: Option<String>)
    ensures
        answered_display(*error, text),
{
    Python::try_attach(|_| {
        let mut text = String::new();
        write!(text, "{error}").ok().map(|()| text)
    })
    .flatten()
}

/// The text is what the raised error said of itself: nothing, where nobody could be asked.
pub open spec fn says(error: pyo3::PyErr, text: Seq<char>) -> bool {
    exists|answer: Option<String>|
        #[trigger] answered_display(error, answer) && text == match answer {
            Some(told) => told@,
            None => ""@,
        }
}

/// What a raised error says of itself. Where nobody can be asked, it says nothing.
pub(crate) fn error_text(error: &pyo3::PyErr) -> (text: String)
    ensures
        says(*error, text@),
{
    match display_error(error) {
        Some(text) => text,
        None => "".to_owned(),
    }
}

impl ErrorClass {
    /// The kind of an error, by what was answered.
    pub open spec fn spec_answered(stop_iteration: Option<bool>, cancelled: Option<bool>) -> Self {
        ErrorClass {
            stop_iteration: stop_iteration == Some(true),
            cancelled: cancelled == Some(true),
        }
    }

    /// The kind is that of the error, as the interpreter answered.
    pub open spec fn is_of(self, error: pyo3::PyErr) -> bool {
        exists|stop_iteration: Option<bool>, cancelled: Option<bool>|
            {
                &&& #[trigger] answered_stop_iteration(error, stop_iteration)
                &&& #[trigger] answered_cancelled(error, cancelled)
                &&& self == ErrorClass::spec_answered(stop_iteration, cancelled)
            }
    }

    /// The kind is that of the error, if there is one.
    pub open spec fn is_of_result(class: Option<Self>, error: Option<&pyo3::PyErr>) -> bool {
        match (class, error) {
            (Some(class), Some(error)) => class.is_of(*error),
            (None, None) => true,
            _ => false,
        }
    }

    /// Asks the interpreter what kind of error was raised.
    pub fn of(error: &pyo3::PyErr) -> (class: ErrorClass)
        ensures
            class.is_of(*error),
    {
        let stop_iteration = is_stop_iteration(error);
        let cancelled = is_cancelled_error(error);
        ErrorClass::answered(stop_iteration, cancelled)
    }

    /// The kind of an error, by what the interpreter answered. An interpreter that is gone answers
    /// nothing.
    pub fn answered(stop_iteration: Option<bool>, cancelled: Option<bool>) -> (class: Self)
        ensures
            class == ErrorClass::spec_answered(stop_iteration, cancelled),
    {
        ErrorClass {
            stop_iteration: matches!(stop_iteration, Some(true)),
            cancelled: matches!(cancelled, Some(true)),
        }
    }

    /// Asks the interpreter what kind of error was raised, if one was.
    pub fn of_result(error: Option<&pyo3::PyErr>) -> (class: Option<ErrorClass>)
        ensures
            ErrorClass::is_of_result(class, error),
    {
        match error {
            Some(error) => Some(ErrorClass::of(error)),
            None => None,
        }
    }
}

/// An error is known as a cancellation exactly where the interpreter said so, and as the end of an
/// iteration exactly where it said so; without an answer it is neither.
pub proof fn errors_are_what_was_answered(stop_iteration: Option<bool>, cancelled: Option<bool>)
    ensures
        ErrorClass::spec_answered(stop_iteration, cancelled).cancelled <==> (cancelled is Some
            && cancelled->0),
        ErrorClass::spec_answered(stop_iteration, cancelled).stop_iteration <==> (stop_iteration
            is Some && stop_iteration->0),
{
}

/// What is known of an error comes of the two questions about it, each answered for itself.
pub proof fn what_is_known_was_answered(class: ErrorClass, error: pyo3::PyErr)
    requires
        class.is_of(error),
    ensures
        class.cancelled ==> answered_cancelled(error, Some(true)),
        !class.cancelled ==> answered_cancelled(error, Some(false)) || answered_cancelled(
            error,
            None,
        ),
        class.stop_iteration ==> answered_stop_iteration(error, Some(true)),
        !class.stop_iteration ==> answered_stop_iteration(error, Some(false))
            || answered_stop_iteration(error, None),
{
    let (stop_iteration, cancelled) = choose|stop_iteration: Option<bool>, cancelled: Option<bool>|
        {
            &&& #[trigger] answered_stop_iteration(error, stop_iteration)
            &&& #[trigger] answered_cancelled(error, cancelled)
            &&& class == ErrorClass::spec_answered(stop_iteration, cancelled)
        };
    assert(cancelled is None || cancelled == Some(true) || cancelled == Some(false));
    assert(stop_iteration is None || stop_iteration == Some(true) || stop_iteration == Some(false));
}

} // verus!
