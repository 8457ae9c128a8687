use diagnostic_runtime::hooks::{
    DiagnosticActBinding, DiagnosticAdmissionProfile, DiagnosticAdmissionSlot,
    DiagnosticCaptureConfig,
};

#[test]
fn a_slot_holds_one_capability() {
    let mut slot: DiagnosticAdmissionSlot<&'static str> = DiagnosticAdmissionSlot::new();
    assert_eq!(slot.capability(), None);
    assert_eq!(slot.profile(), None);
    slot.install("first", DiagnosticAdmissionProfile::ProductionDurable)
        .expect("the slot is free");
    let error = slot
        .install("second", DiagnosticAdmissionProfile::SinkOnlyVolatile)
        .expect_err("the slot is taken");
    assert_eq!(
        error.describe(),
        "diagnostic admission capability already installed as ProductionDurable; \
         cannot install SinkOnlyVolatile"
    );
    assert_eq!(slot.capability(), Some(&"first"));
    assert_eq!(slot.profile(), Some(DiagnosticAdmissionProfile::ProductionDurable));
}

#[test]
fn a_binding_is_active_while_it_holds_a_request() {
    let inactive: DiagnosticActBinding<u8> = DiagnosticActBinding::inactive();
    assert!(!inactive.is_active());
    assert_eq!(inactive.capture(), DiagnosticCaptureConfig::default());
    let capture =
        DiagnosticCaptureConfig::new(true, false, true, false, true, false, true, false);
    let mut binding = DiagnosticActBinding::new(capture, 9_u8);
    assert!(binding.is_active());
    assert_eq!(binding.capture(), capture);
    assert_eq!(binding.request(), Some(&9));
    binding.clear();
    assert!(!binding.is_active());
    let (capture, request) = DiagnosticActBinding::new(capture, 3_u8).into_parts();
    assert!(capture.tool_inputs && !capture.tool_outputs);
    assert_eq!(request, Some(3));
}
