use diagnostic_runtime::bootstrap::{
    core_failure, drop_failures_text, duration_millis, quota_configuration_code, quota_error_code,
    quota_status_failure, seal_failure, server_core_error_code, server_start_error_code,
    BootstrapConfig, BootstrapError, BootstrapPhase, DiagnosticCoreFailure,
    QuotaConfigurationError, QuotaError, ServerCoreFailureCode, ServerStartErrorCode,
    WriterDeadlines,
};
use diagnostic_runtime::durable_admission::{
    DurableAdmission, DurableAdmissionError, DurableIngress,
};
use diagnostic_runtime::run_identity::CanonicalUuid;
use diagnostic_runtime::shutdown::{
    run_ordered_shutdown, CleanupFailure, FinalProductionOutcome, OrderedShutdownResources,
    ShutdownMetadata,
};
use diagnostic_runtime::startup::{
    bootstrap_root, shut_down, EntryRequest, ProcessIdentity, Release, ReleaseAnswer, ReleaseLog,
    ServerIdentity, ServerRequest, StartupFault, StartupInput, StartupLog, StartupRequest,
    StartupResources, StartupSnapshot,
};

const STARTED_AT: &str = "2026-08-14T09:30:00.123456789Z";
const PHASES: [BootstrapPhase; 8] = [
    BootstrapPhase::RunIdentityAllocated,
    BootstrapPhase::ArchivePrepared,
    BootstrapPhase::ActiveLeaseAcquired,
    BootstrapPhase::InitialStoreReady,
    BootstrapPhase::WriterSupervisorReady,
    BootstrapPhase::ListenerReady,
    BootstrapPhase::RegistryPublished,
    BootstrapPhase::ReadyResult,
];

fn deadlines() -> WriterDeadlines {
    WriterDeadlines { writer_stall_timeout_ms: 30000, shutdown_drain_timeout_ms: 60000 }
}

fn config() -> BootstrapConfig {
    BootstrapConfig::new(STARTED_AT.to_owned(), "test-bootstrap-config".to_owned(), deadlines())
        .with_bind("127.0.0.1".to_owned(), 0)
}

const RUN_DIRECTORY: &str = "/srv/production/.troupe/diagnostics/runs/1";
const CONNECT_ADDR: &str = "127.0.0.1:8125";
const LOCATOR: &str = "/srv/registry/1.json";

fn run_id() -> CanonicalUuid {
    CanonicalUuid::new(0x12345678_1234_4234_9234_123456789abc)
}

fn input(config: BootstrapConfig) -> StartupInput {
    StartupInput { production_root: "/srv/production".to_owned(), run_id: run_id(), config }
}

fn owner() -> ProcessIdentity {
    ProcessIdentity { pid: 7, identity: "boot-1".to_owned() }
}

/// A machine that holds what a runtime acquires.
#[derive(Default)]
struct Machine {
    fail_after: Option<BootstrapPhase>,
    fail_step: Option<(&'static str, StartupFault)>,
    reached: Vec<BootstrapPhase>,
    steps: Vec<&'static str>,
    requests: Vec<StartupRequest>,
    limits: Vec<(&'static str, u64)>,
    seen: Vec<StartupSnapshot>,
    prepared: Option<(String, CanonicalUuid)>,
    served: Option<ServerRequest>,
    entry: Option<EntryRequest>,
    lease: bool,
    store: bool,
    writer_threads: usize,
    listening: bool,
    published: bool,
    clean: bool,
    committed_watermark: u64,
    releases: Vec<Release>,
    phases: Vec<&'static str>,
    fail_unpublish: bool,
    fail_server: bool,
    fail_seal: bool,
}

impl Machine {
    fn step(&mut self, step: &'static str) -> Result<(), StartupFault> {
        self.steps.push(step);
        match &self.fail_step {
            Some((failing, _)) if *failing == step => Err(self.fail_step.take().unwrap().1),
            _ => Ok(()),
        }
    }
}

impl StartupResources for Machine {
    fn told(&self) -> StartupLog {
        unreachable!()
    }

    fn given_back(&self) -> ReleaseLog {
        unreachable!()
    }

    fn carry_out(&mut self, request: &StartupRequest) -> Result<(), StartupFault> {
        match request {
            StartupRequest::Reached { phase, snapshot } => {
                self.reached.push(*phase);
                self.seen.push(StartupSnapshot {
                    run_id: snapshot.run_id,
                    run_directory: snapshot.run_directory.clone(),
                    connect_addr: snapshot.connect_addr.clone(),
                    locator_path: snapshot.locator_path.clone(),
                });
                if self.fail_after == Some(*phase) {
                    return Err(StartupFault::Stopped {
                        stopped: BootstrapError::new(
                            *phase,
                            "bootstrap.injected_failure".to_owned(),
                            "injected bootstrap phase failure".to_owned(),
                        ),
                    });
                }
                return Ok(());
            }
            StartupRequest::AcquireLease { run_directory } => {
                assert_eq!(run_directory, RUN_DIRECTORY);
                self.step("acquire_lease")?;
                self.lease = true;
            }
            StartupRequest::CreateStore {
                run_directory,
                run_id: of,
                started_at,
                configuration_identity,
            } => {
                assert_eq!(run_directory, RUN_DIRECTORY);
                assert_eq!(*of, run_id());
                assert_eq!(started_at, STARTED_AT);
                assert_eq!(configuration_identity, "test-bootstrap-config");
                self.step("create_store")?;
                self.store = true;
            }
            StartupRequest::ConfigureQuota { run_directory, max_run_bytes } => {
                self.requests.push(StartupRequest::ConfigureQuota {
                    run_directory: run_directory.clone(),
                    max_run_bytes: *max_run_bytes,
                });
                self.step("configure_quota")?;
            }
            StartupRequest::MeasureQuota => self.step("measure_quota")?,
            StartupRequest::StartWriter { run_id: of, deadlines } => {
                assert_eq!(*of, run_id());
                self.requests
                    .push(StartupRequest::StartWriter { run_id: *of, deadlines: *deadlines });
                self.step("start_writer")?;
                self.writer_threads += 1;
            }
            StartupRequest::AssembleRoutes { run_id: of, run_directory } => {
                assert_eq!((*of, run_directory.as_str()), (run_id(), RUN_DIRECTORY));
                self.step("assemble_routes")?;
            }
            StartupRequest::BindEndpoint { bind_host, port } => {
                assert_eq!((bind_host.as_str(), *port), ("127.0.0.1", 8125));
                self.step("bind_endpoint")?;
            }
            StartupRequest::DescribeEntry { entry } => {
                assert_eq!(entry.started_at, STARTED_AT);
                self.step("describe_entry")?;
            }
        }
        Ok(())
    }

    fn prepare_archive(
        &mut self,
        production_root: &String,
        run_id: CanonicalUuid,
    ) -> Result<String, StartupFault> {
        self.step("prepare_archive")?;
        self.prepared = Some((production_root.clone(), run_id));
        Ok(RUN_DIRECTORY.to_owned())
    }

    fn identify_process(&mut self) -> Result<ProcessIdentity, StartupFault> {
        self.step("process_identity")?;
        Ok(owner())
    }

    fn set_limit(&mut self, name: &'static str, value: u64) -> Result<(), String> {
        self.limits.push((name, value));
        Ok(())
    }

    fn start_server(&mut self, request: &ServerRequest) -> Result<ServerIdentity, StartupFault> {
        self.step("start_server")?;
        self.served = Some(ServerRequest {
            run_id: request.run_id,
            process: request.process.clone(),
            bind_host: request.bind_host.clone(),
            port: request.port,
            advertise_url: request.advertise_url.clone(),
        });
        self.listening = true;
        Ok(ServerIdentity {
            connect_addr: CONNECT_ADDR.to_owned(),
            bind_host: request.bind_host.clone(),
            port: 8125,
            advertise_url: request.advertise_url.clone(),
            owner: request.process.clone(),
        })
    }

    fn publish(&mut self, entry: &EntryRequest) -> Result<String, StartupFault> {
        self.step("publish")?;
        self.entry = Some(EntryRequest {
            run_id: entry.run_id,
            run_directory: entry.run_directory.clone(),
            owner: entry.owner.clone(),
            bind_host: entry.bind_host.clone(),
            port: entry.port,
            advertise_url: entry.advertise_url.clone(),
            started_at: entry.started_at.clone(),
        });
        self.published = true;
        Ok(LOCATOR.to_owned())
    }

    fn give_back(&mut self, release: Release) -> ReleaseAnswer {
        self.releases.push(release);
        match release {
            Release::SealIngress if self.fail_seal => ReleaseAnswer::Failed {
                code: None,
                message: "the ingress cannot be sealed".to_owned(),
            },
            Release::Unpublish => {
                self.published = false;
                if self.fail_unpublish {
                    ReleaseAnswer::Failed {
                        code: Some("registry.entry_replaced".to_owned()),
                        message: "the entry is another's".to_owned(),
                    }
                } else {
                    ReleaseAnswer::Done
                }
            }
            Release::StopServer => {
                self.listening = false;
                if self.fail_server {
                    ReleaseAnswer::Failed {
                        code: None,
                        message: "the server does not stop".to_owned(),
                    }
                } else {
                    ReleaseAnswer::Done
                }
            }
            Release::StopWriter => {
                self.writer_threads -= 1;
                ReleaseAnswer::Told { failures: Vec::new() }
            }
            Release::ReleaseLease => {
                self.lease = false;
                ReleaseAnswer::Done
            }
            _ => ReleaseAnswer::Done,
        }
    }
}

impl OrderedShutdownResources for Machine {
    fn told(&self) -> diagnostic_runtime::shutdown::ShutdownLog {
        unreachable!()
    }

    fn seal_ingress(&mut self) -> Result<(), CleanupFailure> {
        self.phases.push("seal_ingress");
        Ok(())
    }

    fn finalize_writer(&mut self, metadata: &ShutdownMetadata) -> Result<u64, CleanupFailure> {
        self.phases.push("finalize_writer");
        self.clean = metadata.outcome() == FinalProductionOutcome::Completed;
        Ok(self.committed_watermark)
    }

    fn close_live_stream(
        &mut self,
        _reason: &str,
        final_watermark: u64,
    ) -> Result<(), CleanupFailure> {
        assert_eq!(final_watermark, self.committed_watermark);
        Ok(())
    }

    fn unpublish_registry(&mut self) -> Result<(), CleanupFailure> {
        self.published = false;
        Ok(())
    }

    fn close_listener_and_readers(&mut self) -> Result<(), CleanupFailure> {
        self.listening = false;
        Ok(())
    }

    fn close_writer_and_store(&mut self) -> Vec<CleanupFailure> {
        self.writer_threads = 0;
        Vec::new()
    }

    fn release_runtime_resources(&mut self) {
        self.lease = false;
    }
}

fn assert_released(machine: &Machine) {
    assert!(!machine.listening, "the listener stopped");
    assert!(!machine.published, "no registry entry is left");
    assert_eq!(machine.writer_threads, 0);
    assert!(!machine.lease, "the lease is released");
}

#[test]
fn bootstrap_failure_matrix_cleans_real_resources() {
    for (index, fail_after) in PHASES.into_iter().enumerate() {
        let mut startup =
            Machine { fail_after: Some(fail_after), ..Machine::default() };
        let error = bootstrap_root(&mut startup, &input(config())).expect_err("inject bootstrap failure");
        assert_eq!(error.phase(), fail_after);
        assert_eq!(error.code(), "bootstrap.injected_failure");
        assert!(error.cleanup_failures().is_empty());
        assert_eq!(startup.reached, PHASES[..=index]);
        let seen = startup.seen.last().expect("capture failing phase state");
        assert_eq!(seen.run_id, run_id());
        assert_eq!(seen.run_directory.is_some(), index >= 1);
        assert_eq!(seen.connect_addr.is_some(), index >= 5);
        assert_eq!(seen.locator_path.is_some(), index >= 6);
        assert_released(&startup);
        assert_eq!(startup.store, index >= 3);
        assert!(!startup.clean);
    }
}

#[test]
fn successful_bootstrap_is_ready_and_explicit_shutdown_is_ordered() {
    let mut startup = Machine::default();
    bootstrap_root(&mut startup, &input(config())).expect("bootstrap diagnostics");
    assert!(startup.published);
    assert!(startup.listening);
    assert!(startup.lease);
    assert_eq!(startup.writer_threads, 1);
    assert_eq!(startup.reached, PHASES);
    assert_eq!(
        startup.limits,
        [("writer_stall_timeout_ms", 30000), ("shutdown_drain_timeout_ms", 60000)]
    );
    startup.committed_watermark = 1;

    shut_down(&mut startup).expect("shutdown diagnostics");
    assert_released(&startup);
    assert!(!startup.clean);
    assert_eq!(startup.committed_watermark, 1);
    assert_eq!(
        startup.releases,
        [
            Release::SealIngress,
            Release::Unpublish,
            Release::StopServer,
            Release::DropHub,
            Release::StopWriter,
            Release::DropQuota,
            Release::DropIngress,
            Release::ReleaseLease,
        ]
    );
}

#[test]
fn ordered_clean_shutdown_drains_and_reopens_terminal_archive() {
    let mut startup = Machine::default();
    bootstrap_root(&mut startup, &input(config())).expect("bootstrap diagnostics");
    startup.committed_watermark = 1;
    let metadata = ShutdownMetadata::new(
        "2026-08-16T09:31:00Z".to_owned(),
        FinalProductionOutcome::Completed,
    );
    run_ordered_shutdown(&mut startup, &metadata).expect("complete ordered shutdown");
    assert_released(&startup);
    assert!(startup.clean);
    assert_eq!(startup.committed_watermark, 1);
}

#[test]
fn explicit_shutdown_reports_registry_failure_and_closes_other_resources() {
    let mut startup =
        Machine { fail_unpublish: true, ..Machine::default() };
    bootstrap_root(&mut startup, &input(config())).expect("bootstrap diagnostics");
    let error = shut_down(&mut startup).expect_err("surface registry cleanup failure");
    assert!(error.failures().iter().any(|failure| failure.component() == "registry"));
    assert_released(&startup);
}

#[test]
#[should_panic(expected = "diagnostic Runtime guard drop failed")]
fn implicit_drop_does_not_silently_ignore_shutdown_failure() {
    let mut startup =
        Machine { fail_unpublish: true, ..Machine::default() };
    bootstrap_root(&mut startup, &input(config())).expect("bootstrap diagnostics");
    let error = shut_down(&mut startup).expect_err("surface registry cleanup failure");
    if let Some(text) = drop_failures_text("diagnostic Runtime guard drop failed", error.failures())
    {
        panic!("{text}");
    }
}

#[test]
fn real_write_probe_failure_stops_before_user_or_background_work() {
    let mut startup = Machine {
        fail_step: Some((
            "prepare_archive",
            StartupFault::Coded {
                code: "layout.not_a_directory".to_owned(),
                message: "not a directory".to_owned(),
            },
        )),
        ..Machine::default()
    };
    let error = bootstrap_root(&mut startup, &input(config()))
        .expect_err("reject unwritable state-root shape");
    assert_eq!(error.phase(), BootstrapPhase::ArchivePrepared);
    assert_eq!(error.code(), "layout.not_a_directory");
    assert_eq!(startup.writer_threads, 0);
}

#[test]
fn quota_startup_failure_rolls_back_store_and_active_lease() {
    let mut startup = Machine {
        fail_step: Some((
            "measure_quota",
            StartupFault::Quota {
                quota: QuotaError::LimitReached {
                    code: "run_quota.limit_reached".to_owned(),
                    message: "the archive is larger than its limit".to_owned(),
                },
            },
        )),
        ..Machine::default()
    };
    let error = bootstrap_root(&mut startup, &input(config().with_max_run_bytes(Some(1))))
        .expect_err("reject an initial archive larger than its quota");
    assert_eq!(error.phase(), BootstrapPhase::WriterSupervisorReady);
    assert_eq!(error.code(), "run_quota.limit_reached");
    assert!(error.cleanup_failures().is_empty());
    assert_released(&startup);
    assert!(startup.store);
    assert!(!startup.clean);
    assert!(startup.releases.contains(&Release::DropStore));
}

#[test]
fn a_start_hands_on_what_it_was_given_and_what_it_learned() {
    let mut startup = Machine::default();
    let config = config()
        .with_advertise_url(Some("http://stage.example:8125".to_owned()))
        .with_max_run_bytes(Some(4096));
    let started = bootstrap_root(&mut startup, &input(config)).expect("bootstrap diagnostics");
    assert_eq!(startup.prepared, Some(("/srv/production".to_owned(), run_id())));
    assert_eq!(
        startup.requests,
        [
            StartupRequest::ConfigureQuota {
                run_directory: RUN_DIRECTORY.to_owned(),
                max_run_bytes: Some(4096),
            },
            StartupRequest::StartWriter { run_id: run_id(), deadlines: deadlines() },
        ]
    );
    assert_eq!(
        startup.served,
        Some(ServerRequest {
            run_id: run_id(),
            process: owner(),
            bind_host: "127.0.0.1".to_owned(),
            port: 0,
            advertise_url: Some("http://stage.example:8125".to_owned()),
        })
    );
    assert_eq!(
        startup.entry,
        Some(EntryRequest {
            run_id: run_id(),
            run_directory: RUN_DIRECTORY.to_owned(),
            owner: owner(),
            bind_host: "127.0.0.1".to_owned(),
            port: 8125,
            advertise_url: Some("http://stage.example:8125".to_owned()),
            started_at: STARTED_AT.to_owned(),
        })
    );
    assert_eq!(started.run_id, run_id());
    assert_eq!(started.run_directory, RUN_DIRECTORY);
    assert_eq!(started.server.connect_addr, CONNECT_ADDR);
    assert_eq!(started.locator_path, LOCATOR);
    let last = startup.seen.last().expect("the last checkpoint");
    assert_eq!(last.connect_addr.as_deref(), Some(CONNECT_ADDR));
    assert_eq!(last.locator_path.as_deref(), Some(LOCATOR));
}

/// An ingress with a quota.
struct Ingress {
    measured: u64,
    limit: u64,
    sealed: bool,
    reserved: usize,
    failures: usize,
}

impl DurableIngress for Ingress {
    fn told(&self) -> diagnostic_runtime::durable_admission::IngressLog {
        unreachable!()
    }

    fn precheck(&mut self, growth: u64) -> Result<(), QuotaError> {
        if self.measured.saturating_add(growth) >= self.limit {
            self.failures += 1;
            Err(QuotaError::LimitReached {
                code: "run_quota.limit_reached".to_owned(),
                message: "the run has reached its limit".to_owned(),
            })
        } else {
            Ok(())
        }
    }

    fn seal_for_external_core_failure(&mut self) {
        self.sealed = true;
    }

    fn try_reserve(
        &mut self,
        event_count: usize,
        _canonical_bytes: usize,
        fatal: bool,
    ) -> Result<(), String> {
        if self.sealed && !fatal {
            return Err("the ingress is sealed".to_owned());
        }
        self.reserved += event_count;
        Ok(())
    }
}

#[test]
fn durable_admission_prechecks_quota_and_seals_before_ingress_reservation() {
    let mut admission = DurableAdmission::new(Ingress {
        measured: 1,
        limit: 2,
        sealed: false,
        reserved: 0,
        failures: 0,
    });
    let error = admission.reserve(1, 300, false).expect_err("the quota refuses");
    assert!(matches!(error, DurableAdmissionError::Quota { .. }));
    assert_eq!(error.describe(), "the run has reached its limit");
    assert!(admission.ingress.sealed);
    assert_eq!(admission.ingress.reserved, 0);
    assert_eq!(admission.ingress.failures, 1);

    admission.ingress.limit = 1000;
    let error = admission.reserve(1, 300, false).expect_err("the ingress is sealed");
    assert!(matches!(error, DurableAdmissionError::Ingress { .. }));
    assert_eq!(error.describe(), "the ingress is sealed");
    assert_eq!(admission.reserve(1, 300, true), Ok(()));
    assert_eq!(admission.ingress.reserved, 1);
}

#[test]
fn every_step_of_a_start_has_its_code() {
    let coded = |code: &str| StartupFault::Coded {
        code: code.to_owned(),
        message: "refused".to_owned(),
    };
    let plain = || StartupFault::Plain { message: "refused".to_owned() };
    let cases = [
        ("acquire_lease", coded("lease.contended"), "lease.contended"),
        ("create_store", coded("store.exists"), "store.exists"),
        (
            "configure_quota",
            StartupFault::QuotaConfiguration {
                reason: QuotaConfigurationError::LimitNotPositive,
                message: "refused".to_owned(),
            },
            "run_quota.limit_not_positive",
        ),
        ("start_writer", plain(), "bootstrap.writer_thread_spawn_failed"),
        ("assemble_routes", plain(), "bootstrap.route_assembly_failed"),
        ("process_identity", plain(), "bootstrap.process_identity_unavailable"),
        (
            "start_server",
            StartupFault::Server {
                server: ServerStartErrorCode::BindFailed,
                message: "refused".to_owned(),
            },
            "server.bind_failed",
        ),
        ("describe_entry", plain(), "bootstrap.registry_entry_invalid"),
        ("publish", coded("registry.write_failed"), "registry.write_failed"),
    ];
    for (step, fault, code) in cases {
        let mut startup =
            Machine { fail_step: Some((step, fault)), ..Machine::default() };
        let error = bootstrap_root(&mut startup, &input(config())).expect_err("a step fails");
        assert_eq!(error.code(), code);
        assert_eq!(error.message, "refused");
        assert_eq!(startup.steps.last(), Some(&step));
        assert_released(&startup);
    }
}

#[test]
fn failures_of_a_rollback_are_told() {
    let mut startup = Machine {
        fail_after: Some(BootstrapPhase::ReadyResult),
        fail_unpublish: true,
        fail_server: true,
        fail_seal: true,
        ..Machine::default()
    };
    let error = bootstrap_root(&mut startup, &input(config())).expect_err("inject bootstrap failure");
    let told: Vec<(&str, &str)> = error
        .cleanup_failures()
        .iter()
        .map(|failure| (failure.component(), failure.code()))
        .collect();
    assert_eq!(
        told,
        [
            ("writer", "writer_ingress_seal_failed"),
            ("registry", "registry.entry_replaced"),
            ("server", "server_shutdown_failed"),
        ]
    );
    assert_eq!(
        error.describe(),
        "diagnostic bootstrap failed during ready_result [bootstrap.injected_failure]: \
         injected bootstrap phase failure; 3 cleanup operation(s) also failed"
    );
}

#[test]
fn limits_that_do_not_fit_are_refused() {
    assert_eq!(duration_millis(u64::MAX as u128), Ok(u64::MAX));
    let error = duration_millis(u64::MAX as u128 + 1).expect_err("too long");
    assert_eq!(error.phase(), BootstrapPhase::ListenerReady);
    assert_eq!(error.code(), "bootstrap.operational_limit_overflow");
    assert_eq!(
        error.describe(),
        "diagnostic bootstrap failed during listener_ready \
         [bootstrap.operational_limit_overflow]: \
         writer deadline does not fit the server identity"
    );

    let mut startup = Machine::default();
    let error = bootstrap_root(&mut startup, &input(config().with_writer_deadlines(WriterDeadlines {
            writer_stall_timeout_ms: 1,
            shutdown_drain_timeout_ms: u128::MAX,
        })))
        .expect_err("the drain deadline does not fit");
    assert_eq!(error.code(), "bootstrap.operational_limit_overflow");
    assert_eq!(startup.limits, [("writer_stall_timeout_ms", 1)]);
    assert_released(&startup);

    let mut startup = Machine::default();
    bootstrap_root(&mut startup, &input(config().with_max_run_bytes(Some(9)).with_advertise_url(None)))
        .expect("bootstrap with a size limit");
    assert_eq!(startup.limits[2], ("max_run_bytes", 9));
}

#[test]
fn a_configuration_is_open_to_all_unless_bound() {
    let config = BootstrapConfig::new("now".to_owned(), "id".to_owned(), deadlines());
    assert_eq!(config.bind_host, "0.0.0.0");
    assert_eq!(config.port, 0);
    assert_eq!(config.advertise_url, None);
    assert_eq!(config.max_run_bytes, None);
}

#[test]
fn codes_are_stable() {
    assert_eq!(
        quota_configuration_code(QuotaConfigurationError::RunDirectoryNotAbsolute),
        "run_quota.invalid_run_directory"
    );
    assert_eq!(
        quota_error_code(&QuotaError::StatePoisoned { message: "poisoned".to_owned() }),
        "run_quota_state_poisoned"
    );
    assert_eq!(
        quota_error_code(&QuotaError::Sealed {
            code: "run_quota.sealed".to_owned(),
            message: "sealed".to_owned(),
        }),
        "run_quota.sealed"
    );
    for (code, text) in [
        (ServerStartErrorCode::InvalidConfiguration, "server.invalid_configuration"),
        (ServerStartErrorCode::InvalidRoutes, "server.invalid_routes"),
        (ServerStartErrorCode::BindFailed, "server.bind_failed"),
        (ServerStartErrorCode::ReadinessProbeFailed, "server.readiness_probe_failed"),
        (ServerStartErrorCode::ContextSpawnFailed, "server.context_spawn_failed"),
        (
            ServerStartErrorCode::ContextInitializationFailed,
            "server.context_initialization_failed",
        ),
        (ServerStartErrorCode::ContextExitedBeforeReady, "server.context_exited_before_ready"),
    ] {
        assert_eq!(server_start_error_code(code), text);
    }
    for (code, text) in [
        (ServerCoreFailureCode::ListenerFailed, "server.listener_failed"),
        (ServerCoreFailureCode::ExecutionContextExited, "server.execution_context_exited"),
        (ServerCoreFailureCode::ExecutionContextPanicked, "server.execution_context_panicked"),
    ] {
        assert_eq!(server_core_error_code(code), text);
    }
    let names: Vec<&str> = PHASES.iter().map(|phase| phase.as_str()).collect();
    assert_eq!(
        names,
        [
            "run_identity_allocated",
            "archive_prepared",
            "active_lease_acquired",
            "initial_store_ready",
            "writer_supervisor_ready",
            "listener_ready",
            "registry_published",
            "ready_result",
        ]
    );
}

#[test]
fn a_failure_of_the_writer_comes_before_that_of_the_server() {
    let writer = DiagnosticCoreFailure::writer("disk full".to_owned(), "store.full".to_owned());
    let server = (ServerCoreFailureCode::ListenerFailed, "closed".to_owned());
    let first = core_failure(Some(writer.clone()), Some(server.clone())).unwrap();
    assert_eq!(first, writer);
    assert_eq!((first.component(), first.stage()), ("writer", "commit"));
    let second = core_failure(None, Some(server)).unwrap();
    assert_eq!((second.component(), second.stage()), ("server", "execution"));
    assert_eq!(second.code(), "server.listener_failed");
    assert_eq!(second.message(), "closed");
    assert_eq!(core_failure(None, None), None);

    let supervised = DiagnosticCoreFailure::supervised("writer", "stall", "stalled".to_owned());
    assert_eq!(supervised.message(), "diagnostic writer supervisor reported stalled");
    let quota = DiagnosticCoreFailure::quota("run_quota.sealed".to_owned());
    assert_eq!(quota.message(), "diagnostic Run quota failed [run_quota.sealed]");
    assert_eq!(quota_status_failure("poisoned".to_owned()).code(), "run_quota_state_unavailable");
    assert_eq!(seal_failure("poisoned".to_owned()).code(), "diagnostic_ingress.seal_failed");
}

#[test]
fn failures_of_a_drop_are_told_in_one_line() {
    assert_eq!(drop_failures_text("dropped", &Vec::new()), None);
    let failures = vec![
        CleanupFailure::new("writer", "a".to_owned(), "first".to_owned()),
        CleanupFailure::new("server", "b".to_owned(), "second".to_owned()),
    ];
    assert_eq!(
        drop_failures_text("dropped", &failures).as_deref(),
        Some("dropped: writer [a]: first; server [b]: second")
    );
}
