use diagnostic_runtime::context::{
    DiagnosticProducerError, DiagnosticRunContext, HubAdmissionError, HubRefusal,
    SpanEventAdmission, TimeError,
};
use diagnostic_runtime::event::{empty_scope, CounterKind, EventCandidate};
use diagnostic_runtime::identifier::{decimal_text, numbered_id, numbered_text, IdCounter};
use diagnostic_runtime::ordered_names::comes_before;
use diagnostic_runtime::python_error::ErrorClass;
use diagnostic_runtime::run::RuntimeProducerError;
use pyo3::exceptions::{PyRuntimeError, PyStopIteration};
use pyo3::types::PyAnyMethods;
use pyo3::{PyErr, Python};

#[test]
fn numbers_are_written_in_decimal() {
    assert_eq!(decimal_text(0), "0");
    assert_eq!(decimal_text(10), "10");
    assert_eq!(decimal_text(u64::MAX), "18446744073709551615");
}

#[test]
fn identifiers_are_numbered_without_repetition() {
    let mut counter = IdCounter::new();
    assert_eq!(counter.take(), Some(1));
    assert_eq!(counter.take(), Some(2));
    assert_eq!(numbered_text("cue-", 2), "cue-2");
    assert_ne!(numbered_id("cue-", 1), numbered_id("cue-", 11));
    let mut last = IdCounter { next: u64::MAX };
    assert_eq!(last.take(), None);
}

#[test]
fn errors_of_python_have_their_class() {
    Python::initialize();
    let cancelled = Python::attach(|py| {
        py.import("asyncio")
            .and_then(|asyncio| asyncio.getattr("CancelledError"))
            .and_then(|cancelled| cancelled.call0())
            .map(PyErr::from_value)
            .expect("construct CancelledError")
    });
    let class = |stop_iteration, cancelled| ErrorClass { stop_iteration, cancelled };
    assert_eq!(ErrorClass::of(&PyRuntimeError::new_err("x")), class(false, false));
    assert_eq!(ErrorClass::of(&PyStopIteration::new_err(1)), class(true, false));
    assert_eq!(ErrorClass::of(&cancelled), class(false, true));
    assert_eq!(ErrorClass::of_result(None), None);
    assert_eq!(ErrorClass::of_result(Some(&cancelled)), Some(class(false, true)));
}

/// A hub that refuses everything, or has no clock.
struct Refusing {
    refusal: Option<HubRefusal>,
}

impl SpanEventAdmission for Refusing {
    fn told(&self) -> diagnostic_runtime::context::AdmissionLog {
        unreachable!()
    }

    fn hub(&self) -> diagnostic_runtime::context::HubIdentity {
        unreachable!()
    }

    fn share(&self) -> Self {
        Refusing { refusal: None }
    }

    fn install_act_subscribers(&mut self) -> Result<(), String> {
        Err("no one hears".to_owned())
    }

    fn elapsed_now(&mut self) -> Result<u64, TimeError> {
        if self.refusal.is_none() {
            Err(TimeError { message: "no clock".to_owned() })
        } else {
            Ok(5)
        }
    }

    fn admit_event(
        &mut self,
        _elapsed_ns: u64,
        _candidate: &EventCandidate,
    ) -> Result<u64, HubAdmissionError> {
        Err(HubAdmissionError {
            refusal: self.refusal.take().expect("a refusal"),
            message: "refused".to_owned(),
        })
    }
}

#[test]
fn every_refusal_of_the_hub_has_its_code() {
    let told = |refusal| {
        let mut context = DiagnosticRunContext::new(Refusing { refusal });
        let error = context
            .emit_counter(empty_scope(), CounterKind::CueActive, 1, None)
            .expect_err("nothing is accepted");
        error.code().to_owned()
    };
    assert_eq!(told(None), "diagnostic.elapsed-unavailable");
    assert_eq!(told(Some(HubRefusal::StatePoisoned)), "diagnostic.hub-state-poisoned");
    assert_eq!(told(Some(HubRefusal::SequenceExhausted)), "diagnostic.sequence-exhausted");
    assert_eq!(
        told(Some(HubRefusal::CandidateIdentityMismatch)),
        "diagnostic.candidate-identity-mismatch"
    );
    assert_eq!(told(Some(HubRefusal::CanonicalEncoding)), "diagnostic.canonical-encoding-failed");
    assert_eq!(
        told(Some(HubRefusal::Reference { code: "unknown-span".to_owned() })),
        "diagnostic.reference-unknown-span"
    );
    assert_eq!(told(Some(HubRefusal::Reservation)), "diagnostic.admission-failed");
}

#[test]
fn failures_describe_themselves() {
    let error = DiagnosticProducerError::new("diagnostic.admission-failed", "no room");
    assert_eq!(
        error.describe(),
        "diagnostic producer failed [diagnostic.admission-failed]: no room"
    );
    assert_eq!(RuntimeProducerError::state("cue.lost").code(), "cue.lost");
    assert_eq!(
        RuntimeProducerError::Diagnostic(error).code(),
        "diagnostic.admission-failed"
    );
}

#[test]
fn names_are_ordered_by_their_characters() {
    for (first, second) in [
        ("", "a"),
        ("a", "ab"),
        ("a", "b"),
        ("Z", "a"),
        ("z", "\u{e9}"),
        ("\u{ffff}", "\u{10000}"),
    ] {
        assert!(comes_before(first, second));
        assert!(!comes_before(second, first));
        assert!(first < second);
    }
    assert!(!comes_before("same", "same"));
}
