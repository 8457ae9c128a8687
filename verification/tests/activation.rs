use diagnostic_runtime::activation::{
    bootstrap_config, configuration_identity, framed, load_error, ready_line,
    startup_failure_line, told_load_error, ActivationError, ReadyLocator, RuntimeDiagnosticArgs,
};
use diagnostic_runtime::activation_sequence::{
    activate, ActivatedProduction, ActivationConstructions, ActivationInput, ActivationLog,
    ActivationResources, DeferredCommitObserver, PendingProductions, ViewsFailure,
};
use diagnostic_runtime::bootstrap::{
    BootstrapConfig, BootstrapError, BootstrapPhase, WriterDeadlines,
};
use diagnostic_runtime::context::DiagnosticProducerError;
use diagnostic_runtime::load_producer::LoadProducerError;
use diagnostic_runtime::run_identity::CanonicalUuid;
use diagnostic_runtime::shutdown::{CleanupFailure, DiagnosticShutdownError};
use pyo3::exceptions::PyRuntimeError;
use pyo3::{PyErr, Python};
use serde_json::Value;

const READY_PREFIX: &str = "troupe: diagnostic ready ";

fn arguments() -> RuntimeDiagnosticArgs {
    RuntimeDiagnosticArgs {
        bind_host: "127.0.0.1".to_owned(),
        port: 0,
        advertise_url: None,
        max_run_bytes: Some(4096),
        writer_stall_timeout_ms: 30000,
        shutdown_timeout_ms: 60000,
    }
}

fn locator(run_id: CanonicalUuid) -> ReadyLocator {
    ReadyLocator {
        run_id,
        local_url: "http://127.0.0.1:8125".to_owned(),
        advertise_url: None,
        archive_directory: Some("/srv/production/.troupe/diagnostics/runs/1".to_owned()),
        security_scope: "trusted_network",
    }
}

/// An interpreter that starts a production. Its values are texts.
struct Interpreter {
    run_id: CanonicalUuid,
    stderr: String,
    stdout: String,
    calls: Vec<String>,
    config: Option<BootstrapConfig>,
    constructions: ActivationConstructions,
    pending: PendingProductions,
    committed: u64,
    fail: Option<&'static str>,
    lose: bool,
    shutdowns: usize,
    fail_shutdown: bool,
}

impl Interpreter {
    fn new() -> Self {
        Interpreter {
            run_id: CanonicalUuid::random(),
            stderr: String::new(),
            stdout: String::new(),
            calls: Vec::new(),
            config: None,
            constructions: ActivationConstructions::new(),
            pending: PendingProductions::new(),
            committed: 0,
            fail: None,
            lose: false,
            shutdowns: 0,
            fail_shutdown: false,
        }
    }

    fn failing(step: &'static str) -> Self {
        let mut interpreter = Interpreter::new();
        interpreter.fail = Some(step);
        interpreter
    }

    fn raise(&self, step: &'static str) -> Result<(), PyErr> {
        if self.fail == Some(step) {
            Err(PyRuntimeError::new_err(step))
        } else {
            Ok(())
        }
    }

    fn load(&self, step: &'static str) -> Result<(), LoadProducerError> {
        self.raise(step).map_err(|raised| LoadProducerError::python(raised, None))
    }

    fn start(&mut self) -> Result<ActivatedProduction<String>, ActivationError> {
        let input = ActivationInput {
            package_dir: "package".to_owned(),
            production_args: "['--alpha', 'beta']".to_owned(),
            arguments: arguments(),
        };
        activate(self, &input)
    }
}

impl ActivationResources<String> for Interpreter {
    fn told(&self) -> ActivationLog<String> {
        unreachable!()
    }

    fn prevalidate(&mut self, package_dir: &String) -> Result<String, PyErr> {
        self.raise("prevalidate")?;
        Ok(format!("root of {package_dir}"))
    }

    fn started_at(&mut self) -> Result<String, PyErr> {
        self.raise("time")?;
        Ok("2026-08-14T09:30:00Z".to_owned())
    }

    fn deadlines(&mut self, stall_ms: u64, shutdown_ms: u64) -> Result<WriterDeadlines, String> {
        if self.fail == Some("deadlines") {
            return Err("too short".to_owned());
        }
        Ok(WriterDeadlines {
            writer_stall_timeout_ms: stall_ms as u128,
            shutdown_drain_timeout_ms: shutdown_ms as u128,
        })
    }

    fn bootstrap(
        &mut self,
        root: &String,
        config: BootstrapConfig,
    ) -> Result<ReadyLocator, BootstrapError> {
        assert_eq!(root, "root of package");
        if self.fail == Some("bootstrap") {
            return Err(BootstrapError::new(
                BootstrapPhase::ArchivePrepared,
                "boot.failed".to_owned(),
                "refused".to_owned(),
            ));
        }
        self.config = Some(config);
        let mut found = locator(self.run_id);
        if self.fail == Some("line") {
            found.archive_directory = None;
        }
        Ok(found)
    }

    fn open_loader(&mut self, run_id: CanonicalUuid) -> Result<(), DiagnosticProducerError> {
        assert_eq!(run_id, self.run_id);
        if self.fail == Some("open") {
            return Err(DiagnosticProducerError::new("root.failed", "refused"));
        }
        Ok(())
    }

    fn write_ready(&mut self, line: &String) -> Result<(), PyErr> {
        self.raise("write")?;
        self.stderr.push_str(line);
        Ok(())
    }

    fn resolve_path(&mut self, root: &String) -> Result<String, LoadProducerError> {
        self.load("path")?;
        self.committed += 2;
        Ok(format!("path in {root}"))
    }

    fn resolve_class(&mut self, path: &String) -> Result<String, LoadProducerError> {
        assert_eq!(path, "path in root of package");
        self.load("class")?;
        self.calls.push(format!("import|{}", self.stderr));
        self.committed += 2;
        Ok("class".to_owned())
    }

    fn prepare_views(
        &mut self,
        class: &String,
        run_id: CanonicalUuid,
    ) -> Result<String, ViewsFailure> {
        assert_eq!((class.as_str(), run_id), ("class", self.run_id));
        if self.fail == Some("views") {
            return Err(ViewsFailure { code: "views.failed".to_owned(), text: "refused".to_owned() });
        }
        Ok("class with views".to_owned())
    }

    fn enter(&mut self, run_id: CanonicalUuid) {
        self.constructions.enter(run_id);
    }

    fn construct(
        &mut self,
        class: &String,
        arguments: &String,
    ) -> Result<String, LoadProducerError> {
        assert_eq!(class, "class with views");
        self.load("construct")?;
        self.calls.push(format!("construct|{arguments}|{}", self.stderr));
        self.committed += 2;
        if !self.lose {
            self.pending
                .production_created(&self.constructions, 5, Some(0))
                .expect("the production is new");
        }
        Ok("production".to_owned())
    }

    fn leave(&mut self, run_id: CanonicalUuid) {
        self.constructions.leave(run_id);
    }

    fn run_matches(&mut self, production: &String, run_id: CanonicalUuid) -> Result<bool, PyErr> {
        assert_eq!(production, "production");
        self.raise("match")?;
        Ok(self.pending.pending_production_matches(5, run_id))
    }

    fn forget(&mut self, run_id: CanonicalUuid) {
        self.pending.remove_pending_run(run_id);
    }

    fn shutdown(&mut self, run_id: CanonicalUuid) -> Result<(), DiagnosticShutdownError> {
        assert_eq!(run_id, self.run_id);
        self.shutdowns += 1;
        if self.fail_shutdown {
            Err(DiagnosticShutdownError::new(vec![CleanupFailure::new(
                "writer",
                "writer_join_failed".to_owned(),
                "the writer does not end".to_owned(),
            )]))
        } else {
            Ok(())
        }
    }
}

#[test]
fn real_activation_is_ready_before_import_and_persists_construction_events() {
    let mut interpreter = Interpreter::new();
    let activated = interpreter.start().expect("activate real diagnostics");
    assert_eq!(activated.production, "production");
    assert_eq!(activated.run_id, interpreter.run_id);
    assert_eq!(interpreter.constructions.current(), None);
    let config = interpreter.config.as_ref().expect("the runtime was configured");
    assert_eq!(config.started_at, "2026-08-14T09:30:00Z");
    assert_eq!(
        config.configuration_identity,
        configuration_identity(&arguments()).expect("encode the arguments")
    );
    assert_eq!(config.bind_host, "127.0.0.1");
    assert_eq!(config.max_run_bytes, Some(4096));
    assert_eq!(config.writer_deadlines.writer_stall_timeout_ms, 30000);
    let ready = interpreter.stderr.clone();
    assert!(interpreter.stdout.is_empty());
    assert_eq!(ready.lines().count(), 1);
    assert!(ready.ends_with('\n'));
    let locator: Value = serde_json::from_str(
        ready.strip_prefix(READY_PREFIX).expect("ready line uses the stable prefix").trim_end(),
    )
    .expect("ready line carries JSON");
    assert_eq!(locator["locator_schema_version"], 1);
    assert_eq!(locator["run_id"], interpreter.run_id.describe());
    assert_eq!(locator["advertise_url"], Value::Null);
    assert_eq!(locator["security_scope"], "trusted_network");
    assert!(locator["local_url"].as_str().is_some_and(|url| url.starts_with("http://127.0.0.1:")));
    assert_eq!(
        locator["archive_directory"].as_str(),
        Some("/srv/production/.troupe/diagnostics/runs/1")
    );
    assert_eq!(
        interpreter.calls,
        [
            format!("import|{ready}"),
            format!("construct|['--alpha', 'beta']|{ready}"),
        ]
    );
    assert!(interpreter.committed >= 6);
    assert_eq!(interpreter.shutdowns, 0);
}

#[test]
fn the_line_of_a_ready_runtime_is_exact() {
    let run_id = CanonicalUuid::new(0x12345678_1234_4234_9234_123456789abc);
    assert_eq!(
        ready_line(locator(run_id)).expect("encode the locator"),
        "troupe: diagnostic ready {\"locator_schema_version\":1,\
         \"run_id\":\"12345678-1234-4234-9234-123456789abc\",\
         \"local_url\":\"http://127.0.0.1:8125\",\"advertise_url\":null,\
         \"archive_directory\":\"/srv/production/.troupe/diagnostics/runs/1\",\
         \"security_scope\":\"trusted_network\"}\n"
    );
    let mut nameless = locator(run_id);
    nameless.archive_directory = None;
    let error = ready_line(nameless).expect_err("the directory is not text");
    assert_eq!(
        error.describe(),
        "diagnostic_activation.archive_path: archive directory is not valid UTF-8 \
         and cannot be represented in the locator"
    );
}

#[test]
fn a_configuration_is_known_by_its_arguments() {
    let identity = configuration_identity(&arguments()).expect("encode the arguments");
    assert_eq!(
        identity,
        "configuration-v1:{\"schema_version\":1,\"bind_host\":\"127.0.0.1\",\"port\":0,\
         \"advertise_url\":null,\"max_run_bytes\":4096,\
         \"writer_stall_timeout_ms\":30000,\"shutdown_timeout_ms\":60000}"
    );
    let deadlines =
        WriterDeadlines { writer_stall_timeout_ms: 30000, shutdown_drain_timeout_ms: 60000 };
    let config = bootstrap_config(
        arguments(),
        configuration_identity(&arguments()),
        Ok("now".to_owned()),
        Ok(deadlines),
    )
    .expect("configure the runtime");
    assert_eq!(config.configuration_identity, identity);
    assert_eq!(config.started_at, "now");
    assert_eq!(config.bind_host, "127.0.0.1");
    assert_eq!(config.max_run_bytes, Some(4096));
    assert_eq!(config.writer_deadlines, deadlines);
}

#[test]
fn what_is_not_to_be_had_decides_a_configuration() {
    Python::initialize();
    let deadlines =
        WriterDeadlines { writer_stall_timeout_ms: 30000, shutdown_drain_timeout_ms: 60000 };
    let known = || Ok("configuration".to_owned());
    let error =
        bootstrap_config(arguments(), known(), Ok("now".to_owned()), Err("too short".to_owned()))
            .expect_err("the deadlines are invalid");
    assert_eq!(error.describe(), "diagnostic_activation.deadlines: too short");
    let error = bootstrap_config(
        arguments(),
        known(),
        Err(PyRuntimeError::new_err("no clock")),
        Err("too short".to_owned()),
    )
    .expect_err("the clock raised");
    assert!(matches!(error, ActivationError::Python { .. }));
    assert_eq!(error.describe(), "RuntimeError: no clock");
    assert_eq!(
        error.line(),
        "troupe: diagnostic startup failed: RuntimeError: no clock\n"
    );
    let unknown = framed(Err("depth".to_owned()), "a", "b", "diagnostic_activation.encode");
    let error = bootstrap_config(arguments(), unknown, Ok("now".to_owned()), Ok(deadlines))
        .expect_err("the arguments have no text");
    assert_eq!(error.describe(), "diagnostic_activation.encode: depth");
    assert_eq!(framed(Ok("x".to_owned()), "a", "b", "c").expect("framed"), "axb");
}

#[test]
fn a_failed_start_is_told_and_shut_down() {
    Python::initialize();
    for step in ["prevalidate", "time"] {
        let mut early = Interpreter::failing(step);
        let error = early.start().expect_err("the start fails");
        assert_eq!(error.describe(), format!("RuntimeError: {step}"));
        assert_eq!(early.shutdowns, 0);
        assert!(early.config.is_none());
    }
    let error = Interpreter::failing("deadlines").start().expect_err("the deadlines are invalid");
    assert_eq!(error.describe(), "diagnostic_activation.deadlines: too short");
    let mut early = Interpreter::failing("bootstrap");
    let error = early.start().expect_err("the start fails");
    assert_eq!(
        error.describe(),
        "boot.failed: diagnostic bootstrap failed during archive_prepared [boot.failed]: refused"
    );
    assert_eq!(early.shutdowns, 0);
    assert!(early.calls.is_empty());

    let mut late = Interpreter::failing("open");
    let error = late.start().expect_err("the loader fails");
    let text = "root.failed: diagnostic producer failed [root.failed]: refused";
    assert_eq!(error.line(), startup_failure_line(text));
    assert_eq!(late.shutdowns, 1);
    assert!(late.stderr.is_empty());

    let mut nameless = Interpreter::failing("line");
    let error = nameless.start().expect_err("the directory is not text");
    assert!(error.describe().starts_with("diagnostic_activation.archive_path: "));
    assert_eq!(nameless.shutdowns, 1);
    assert!(nameless.stderr.is_empty());

    for step in ["write", "path", "class", "construct", "match"] {
        let mut raised = Interpreter::failing(step);
        let error = raised.start().expect_err("user code raises");
        assert_eq!(error.describe(), format!("RuntimeError: {step}"));
        assert!(error.into_python().is_ok());
        assert_eq!(raised.shutdowns, 1);
        assert_eq!(raised.constructions.current(), None);
        assert!(!raised.pending.pending_production_matches(5, raised.run_id));
    }

    let mut views = Interpreter::failing("views");
    let error = views.start().expect_err("the views fail, and clean up themselves");
    assert_eq!(error.describe(), "views.failed: refused");
    assert_eq!(views.shutdowns, 0);
    assert_eq!(views.calls.len(), 1);

    let mut both = Interpreter::failing("open");
    both.fail_shutdown = true;
    let error = both.start().expect_err("the loader and the shutdown fail");
    assert_eq!(
        error.describe(),
        format!(
            "{text}; diagnostic cleanup also failed: diagnostic_activation.shutdown: \
             diagnostic shutdown failed in 1 operation(s)"
        )
    );

    let mut lost = Interpreter::new();
    lost.lose = true;
    let error = lost.start().expect_err("the production is another's");
    assert_eq!(
        error.describe(),
        "diagnostic_activation.production_context_missing: Production construction did not \
         retain its mandatory diagnostic context"
    );
    assert_eq!(lost.shutdowns, 1);
}

#[test]
fn errors_of_loading_keep_what_was_raised() {
    Python::initialize();
    let refused = DiagnosticProducerError::new("diagnostic.admission-failed", "no room");
    let text = refused.describe();
    let error = load_error(LoadProducerError::python(PyRuntimeError::new_err("user"), None));
    assert!(matches!(error, ActivationError::Python { .. }));
    let error = load_error(LoadProducerError::diagnostic(refused.clone()));
    assert_eq!(error.describe(), format!("diagnostic.admission-failed: {text}"));
    let error = load_error(LoadProducerError::Diagnostic {
        error: refused.clone(),
        cleanup_error: Some(PyRuntimeError::new_err("still imported")),
    });
    assert_eq!(
        error.describe(),
        format!(
            "diagnostic.admission-failed: {text}; diagnostic cleanup also failed: \
             RuntimeError: still imported"
        )
    );
    let error =
        told_load_error(LoadProducerError::diagnostic(refused), Some("again".to_owned()));
    assert_eq!(
        error.describe(),
        format!("diagnostic.admission-failed: {text}; diagnostic cleanup also failed: again")
    );
    let kept = ActivationError::Python { raised: PyRuntimeError::new_err("user") };
    assert!(matches!(kept.with_cleanup("again"), ActivationError::Python { .. }));
}

#[test]
fn run_identities_are_random_and_written_with_hyphens() {
    let first = CanonicalUuid::random();
    let second = CanonicalUuid::random();
    assert_ne!(first, second);
    for id in [first, second] {
        let text = id.describe();
        assert_eq!(text.len(), 36);
        assert_eq!(text.as_bytes()[14], b'4');
        assert!(matches!(text.as_bytes()[19], b'8' | b'9' | b'a' | b'b'));
    }
    assert_eq!(
        CanonicalUuid::new(0xfedc_ba98_7654_3210).describe(),
        "00000000-0000-0000-fedc-ba9876543210"
    );
}

#[test]
fn productions_belong_to_the_run_that_constructs_them() {
    let outer = CanonicalUuid::new(1);
    let inner = CanonicalUuid::new(2);
    let mut constructions = ActivationConstructions::new();
    let mut pending = PendingProductions::new();
    assert_eq!(constructions.current(), None);
    assert_eq!(pending.production_created(&constructions, 5, Some(0)), Ok(()));
    assert!(pending.take_pending(5).is_none());

    constructions.enter(outer);
    constructions.enter(inner);
    assert_eq!(constructions.current(), Some(inner));
    assert_eq!(pending.production_created(&constructions, 5, Some(0)), Ok(()));
    let twice = pending
        .production_created(&constructions, 5, Some(0))
        .expect_err("a production is initialized once");
    assert_eq!(twice.describe(), "Production diagnostics were initialized more than once");
    constructions.leave(inner);
    assert_eq!(constructions.current(), Some(outer));
    assert!(pending.pending_production_matches(5, inner));
    assert!(!pending.pending_production_matches(5, outer));
    assert_eq!(pending.production_created(&constructions, 6, Some(0)), Ok(()));

    pending.production_released(6);
    assert!(pending.take_pending(6).is_none());
    let taken = pending.take_pending(5).expect("the production waits");
    assert_eq!((taken.run_id, taken.context), (inner, 0));
    assert!(pending.take_pending(5).is_none());

    assert_eq!(pending.production_created(&constructions, 7, Some(0)), Ok(()));
    pending.remove_pending_run(outer);
    assert!(pending.take_pending(7).is_none());
}

#[test]
fn what_was_committed_before_an_observer_came_is_handed_on() {
    let mut observer = DeferredCommitObserver::new();
    assert_eq!(observer.committed(1), None);
    assert_eq!(observer.committed(2), None);
    assert_eq!(observer.bind(), Ok(vec![1, 2]));
    assert_eq!(observer.committed(3), Some(3));
    assert_eq!(observer.bind(), Err("commit observer was bound more than once"));
}
