use diagnostic_runtime::shutdown::{
    run_ordered_shutdown, CleanupFailure, DiagnosticShutdownError, FinalProductionOutcome,
    OrderedShutdownResources, ShutdownMetadata,
};

#[derive(Default)]
struct RecordingResources {
    phases: Vec<&'static str>,
    told: Option<(String, u64)>,
    fail_finalize: bool,
    fail_stream: bool,
    fail_rest: bool,
}

fn failed(component: &'static str) -> CleanupFailure {
    CleanupFailure::new(component, "injected".to_owned(), "failed".to_owned())
}

impl RecordingResources {
    fn rest(&self, component: &'static str) -> Result<(), CleanupFailure> {
        if self.fail_rest {
            Err(failed(component))
        } else {
            Ok(())
        }
    }
}

impl OrderedShutdownResources for RecordingResources {
    fn told(&self) -> diagnostic_runtime::shutdown::ShutdownLog {
        unreachable!()
    }

    fn seal_ingress(&mut self) -> Result<(), CleanupFailure> {
        self.phases.push("seal_ingress");
        self.rest("ingress")
    }

    fn finalize_writer(&mut self, _metadata: &ShutdownMetadata) -> Result<u64, CleanupFailure> {
        self.phases.push("finalize_writer");
        if self.fail_finalize {
            Err(failed("writer"))
        } else {
            Ok(17)
        }
    }

    fn close_live_stream(
        &mut self,
        reason: &str,
        final_watermark: u64,
    ) -> Result<(), CleanupFailure> {
        self.phases.push("close_live_stream");
        self.told = Some((reason.to_owned(), final_watermark));
        if self.fail_stream {
            Err(failed("stream"))
        } else {
            Ok(())
        }
    }

    fn unpublish_registry(&mut self) -> Result<(), CleanupFailure> {
        self.phases.push("unpublish_registry");
        self.rest("registry")
    }

    fn close_listener_and_readers(&mut self) -> Result<(), CleanupFailure> {
        self.phases.push("close_listener_and_readers");
        self.rest("server")
    }

    fn close_writer_and_store(&mut self) -> Vec<CleanupFailure> {
        self.phases.push("close_writer_and_store");
        if self.fail_rest {
            vec![failed("writer"), failed("store")]
        } else {
            Vec::new()
        }
    }

    fn release_runtime_resources(&mut self) {
        self.phases.push("release_runtime_resources");
    }
}

fn metadata() -> ShutdownMetadata {
    ShutdownMetadata::new("2026-08-16T12:00:00Z".to_owned(), FinalProductionOutcome::Completed)
}

#[test]
fn successful_shutdown_uses_the_closed_phase_order() {
    let mut shutdown = RecordingResources::default();
    run_ordered_shutdown(&mut shutdown, &metadata()).unwrap();
    assert_eq!(
        shutdown.phases,
        [
            "seal_ingress",
            "finalize_writer",
            "close_live_stream",
            "unpublish_registry",
            "close_listener_and_readers",
            "close_writer_and_store",
            "release_runtime_resources",
        ]
    );
    assert_eq!(shutdown.told, Some(("production_completed".to_owned(), 17)));
}

#[test]
fn failed_finalization_skips_stream_close_but_releases_every_resource() {
    let mut shutdown = RecordingResources {
        fail_finalize: true,
        ..RecordingResources::default()
    };
    let error = run_ordered_shutdown(&mut shutdown, &metadata()).unwrap_err();
    assert_eq!(error.failures()[0].component(), "writer");
    assert_eq!(
        shutdown.phases,
        [
            "seal_ingress",
            "finalize_writer",
            "unpublish_registry",
            "close_listener_and_readers",
            "close_writer_and_store",
            "release_runtime_resources",
        ]
    );
}

#[test]
fn stream_signal_failure_does_not_skip_durable_unpublish_or_close() {
    let mut shutdown = RecordingResources {
        fail_stream: true,
        ..RecordingResources::default()
    };
    let error = run_ordered_shutdown(&mut shutdown, &metadata()).unwrap_err();
    assert_eq!(error.failures()[0].component(), "stream");
    assert_eq!(shutdown.phases.last(), Some(&"release_runtime_resources"));
}

#[test]
fn every_failure_of_a_shutdown_is_told_in_order() {
    let mut shutdown = RecordingResources {
        fail_finalize: true,
        fail_rest: true,
        ..RecordingResources::default()
    };
    let error = run_ordered_shutdown(&mut shutdown, &metadata()).unwrap_err();
    let components: Vec<&str> =
        error.failures().iter().map(|failure| failure.component()).collect();
    assert_eq!(components, ["ingress", "registry", "server", "writer", "store"]);
    assert!(!shutdown.phases.contains(&"finalize_writer"));
    assert_eq!(error.describe(), "diagnostic shutdown failed in 5 operation(s)");
    assert_eq!(error.failures()[0].code(), "injected");
    assert_eq!(error.failures()[0].message(), "failed");
    assert_eq!(shutdown.phases.last(), Some(&"release_runtime_resources"));
}

#[test]
fn streams_are_told_how_the_production_ended() {
    for (outcome, reason) in [
        (FinalProductionOutcome::Completed, "production_completed"),
        (FinalProductionOutcome::Failed, "production_failed"),
        (FinalProductionOutcome::Cancelled, "production_cancelled"),
    ] {
        let metadata = ShutdownMetadata::new("2026-08-16T12:00:00Z".to_owned(), outcome);
        assert_eq!(metadata.stream_close_reason(), reason);
        assert_eq!(metadata.ended_at(), "2026-08-16T12:00:00Z");
        assert_eq!(metadata.outcome(), outcome);
    }
    let error = DiagnosticShutdownError::new(vec![failed("writer")]);
    assert_eq!(error.describe(), "diagnostic shutdown failed in 1 operation(s)");
}
