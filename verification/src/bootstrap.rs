//! How a diagnostic runtime is configured, and what it says when it does not start.
use crate::identifier::decimal_text;
use crate::shutdown::CleanupFailure;
use vstd::prelude::*;
use vstd::string::StringExecFns;

verus! {

/// How far a runtime has come.
#[derive(Clone, Copy, Debug, PartialEq, Eq, Structural)]
pub enum BootstrapPhase {
    RunIdentityAllocated,
    ArchivePrepared,
    ActiveLeaseAcquired,
    InitialStoreReady,
    WriterSupervisorReady,
    ListenerReady,
    RegistryPublished,
    ReadyResult,
}

impl BootstrapPhase {
    pub open spec fn spec_as_str(self) -> &'static str {
        match self {
            BootstrapPhase::RunIdentityAllocated => "run_identity_allocated",
            BootstrapPhase::ArchivePrepared => "archive_prepared",
            BootstrapPhase::ActiveLeaseAcquired => "active_lease_acquired",
            BootstrapPhase::InitialStoreReady => "initial_store_ready",
            BootstrapPhase::WriterSupervisorReady => "writer_supervisor_ready",
            BootstrapPhase::ListenerReady => "listener_ready",
            BootstrapPhase::RegistryPublished => "registry_published",
            BootstrapPhase::ReadyResult => "ready_result",
        }
    }

    pub fn as_str(self) -> (name: &'static str)
        ensures
            name == self.spec_as_str(),
    {
        match self {
            BootstrapPhase::RunIdentityAllocated => "run_identity_allocated",
            BootstrapPhase::ArchivePrepared => "archive_prepared",
            BootstrapPhase::ActiveLeaseAcquired => "active_lease_acquired",
            BootstrapPhase::InitialStoreReady => "initial_store_ready",
            BootstrapPhase::WriterSupervisorReady => "writer_supervisor_ready",
            BootstrapPhase::ListenerReady => "listener_ready",
            BootstrapPhase::RegistryPublished => "registry_published",
            BootstrapPhase::ReadyResult => "ready_result",
        }
    }
}

/// Why a runtime did not start, and what went wrong when its resources were given back.
#[derive(Debug, PartialEq, Eq)]
pub struct BootstrapError {
    pub phase: BootstrapPhase,
    pub code: String,
    pub message: String,
    pub cleanup_failures: Vec<CleanupFailure>,
}

impl BootstrapError {
    /// The error says this, and nothing went wrong since.
    pub open spec fn says(
        self,
        phase: BootstrapPhase,
        code: Seq<char>,
        message: Seq<char>,
    ) -> bool {
        &&& self.phase == phase
        &&& self.code@ == code
        &&& self.message@ == message
        &&& self.cleanup_failures@.len() == 0
    }

    pub fn new(phase: BootstrapPhase, code: String, message: String) -> (error: Self)
        ensures
            error.says(phase, code@, message@),
    {
        BootstrapError { phase, code, message, cleanup_failures: Vec::new() }
    }

    pub fn with_cleanup_failures(self, cleanup_failures: Vec<CleanupFailure>) -> (error: Self)
        ensures
            error == (BootstrapError { cleanup_failures, ..self }),
    {
        BootstrapError { cleanup_failures, ..self }
    }

    pub fn phase(&self) -> (phase: BootstrapPhase)
        ensures
            phase == self.phase,
    {
        self.phase
    }

    pub fn code(&self) -> (code: &str)
        ensures
            code@ == self.code@,
    {
        self.code.as_str()
    }

    pub fn cleanup_failures(&self) -> (failures: &Vec<CleanupFailure>)
        ensures
            *failures == self.cleanup_failures,
    {
        &self.cleanup_failures
    }

    /// The text that describes the error.
    pub open spec fn text(self) -> Seq<char> {
        let told = "diagnostic bootstrap failed during "@ + self.phase.spec_as_str()@ + " ["@
            + self.code@ + "]: "@ + self.message@;
        if self.cleanup_failures@.len() == 0 {
            told
        } else {
            told + "; "@ + crate::identifier::decimal(self.cleanup_failures@.len())
                + " cleanup operation(s) also failed"@
        }
    }

    /// Describes the error to a reader.
    pub fn describe(&self) -> (text: String)
        ensures
            text@ == self.text(),
    {
        let told = "diagnostic bootstrap failed during ".to_owned().concat(
            self.phase.as_str(),
        ).concat(" [").concat(self.code.as_str()).concat("]: ").concat(self.message.as_str());
        if self.cleanup_failures.len() == 0 {
            return told;
        }
        told.concat("; ").concat(
            decimal_text(self.cleanup_failures.len() as u64).as_str(),
        ).concat(" cleanup operation(s) also failed")
    }
}

/// The deadlines of the writer, in milliseconds.
#[derive(Clone, Copy, Debug, PartialEq, Eq, Structural)]
pub struct WriterDeadlines {
    pub writer_stall_timeout_ms: u128,
    pub shutdown_drain_timeout_ms: u128,
}

/// How a runtime is to start.
#[derive(Debug, PartialEq, Eq)]
pub struct BootstrapConfig {
    pub started_at: String,
    pub configuration_identity: String,
    pub bind_host: String,
    pub port: u16,
    pub advertise_url: Option<String>,
    pub max_run_bytes: Option<u64>,
    pub writer_deadlines: WriterDeadlines,
}

impl BootstrapConfig {
    /// Listens on every address, at a port of the system's choice, without bounds on the run.
    pub fn new(
        started_at: String,
        configuration_identity: String,
        writer_deadlines: WriterDeadlines,
    ) -> (config: Self)
        ensures
            config.started_at == started_at,
            config.configuration_identity == configuration_identity,
            config.bind_host@ == "0.0.0.0"@,
            config.port == 0,
            config.advertise_url is None,
            config.max_run_bytes is None,
            config.writer_deadlines == writer_deadlines,
    {
        BootstrapConfig {
            started_at,
            configuration_identity,
            bind_host: "0.0.0.0".to_owned(),
            port: 0,
            advertise_url: None,
            max_run_bytes: None,
            writer_deadlines,
        }
    }

    pub fn with_bind(self, bind_host: String, port: u16) -> (config: Self)
        ensures
            config == (BootstrapConfig { bind_host, port, ..self }),
    {
        BootstrapConfig { bind_host, port, ..self }
    }

    pub fn with_advertise_url(self, advertise_url: Option<String>) -> (config: Self)
        ensures
            config == (BootstrapConfig { advertise_url, ..self }),
    {
        BootstrapConfig { advertise_url, ..self }
    }

    pub fn with_max_run_bytes(self, max_run_bytes: Option<u64>) -> (config: Self)
        ensures
            config == (BootstrapConfig { max_run_bytes, ..self }),
    {
        BootstrapConfig { max_run_bytes, ..self }
    }

    pub fn with_writer_deadlines(self, writer_deadlines: WriterDeadlines) -> (config: Self)
        ensures
            config == (BootstrapConfig { writer_deadlines, ..self }),
    {
        BootstrapConfig { writer_deadlines, ..self }
    }
}

/// A deadline as the identity of the server states it.
pub fn duration_millis(millis: u128) -> (result: Result<u64, BootstrapError>)
    ensures
        match result {
            Ok(value) => value == millis,
            Err(error) => millis > u64::MAX && error.says(
                BootstrapPhase::ListenerReady,
                "bootstrap.operational_limit_overflow"@,
                "writer deadline does not fit the server identity"@,
            ),
        },
{
    if millis > u64::MAX as u128 {
        return Err(
            BootstrapError::new(
                BootstrapPhase::ListenerReady,
                "bootstrap.operational_limit_overflow".to_owned(),
                "writer deadline does not fit the server identity".to_owned(),
            ),
        );
    }
    Ok(millis as u64)
}

/// Why the bound of a run is not acceptable.
#[derive(Clone, Copy, Debug, PartialEq, Eq, Structural)]
pub enum QuotaConfigurationError {
    RunDirectoryNotAbsolute,
    LimitNotPositive,
}

pub open spec fn spec_quota_configuration_code(error: QuotaConfigurationError) -> &'static str {
    match error {
        QuotaConfigurationError::RunDirectoryNotAbsolute => "run_quota.invalid_run_directory",
        QuotaConfigurationError::LimitNotPositive => "run_quota.limit_not_positive",
    }
}

pub fn quota_configuration_code(error: QuotaConfigurationError) -> (code: &'static str)
    ensures
        code == spec_quota_configuration_code(error),
{
    match error {
        QuotaConfigurationError::RunDirectoryNotAbsolute => "run_quota.invalid_run_directory",
        QuotaConfigurationError::LimitNotPositive => "run_quota.limit_not_positive",
    }
}

/// Why a run may not grow. All but the first carry the code of the failure behind them.
#[derive(Debug, PartialEq, Eq)]
pub enum QuotaError {
    StatePoisoned { message: String },
    Sealed { code: String, message: String },
    LimitReached { code: String, message: String },
    MeasurementFailed { code: String, message: String },
}

impl QuotaError {
    pub open spec fn spec_code(self) -> Seq<char> {
        match self {
            QuotaError::StatePoisoned { .. } => "run_quota_state_poisoned"@,
            QuotaError::Sealed { code, .. } => code@,
            QuotaError::LimitReached { code, .. } => code@,
            QuotaError::MeasurementFailed { code, .. } => code@,
        }
    }

    pub open spec fn spec_message(self) -> Seq<char> {
        match self {
            QuotaError::StatePoisoned { message } => message@,
            QuotaError::Sealed { message, .. } => message@,
            QuotaError::LimitReached { message, .. } => message@,
            QuotaError::MeasurementFailed { message, .. } => message@,
        }
    }

    /// The code and the text of the error.
    pub fn into_parts(self) -> (parts: (String, String))
        ensures
            parts.0@ == self.spec_code(),
            parts.1@ == self.spec_message(),
    {
        match self {
            QuotaError::StatePoisoned { message } => {
                ("run_quota_state_poisoned".to_owned(), message)
            },
            QuotaError::Sealed { code, message } => (code, message),
            QuotaError::LimitReached { code, message } => (code, message),
            QuotaError::MeasurementFailed { code, message } => (code, message),
        }
    }
}

pub fn quota_error_code(error: &QuotaError) -> (code: &str)
    ensures
        code@ == error.spec_code(),
{
    match error {
        QuotaError::StatePoisoned { .. } => "run_quota_state_poisoned",
        QuotaError::Sealed { code, .. } => code.as_str(),
        QuotaError::LimitReached { code, .. } => code.as_str(),
        QuotaError::MeasurementFailed { code, .. } => code.as_str(),
    }
}

/// Why the server did not start.
#[derive(Clone, Copy, Debug, PartialEq, Eq, Structural)]
pub enum ServerStartErrorCode {
    InvalidConfiguration,
    InvalidRoutes,
    BindFailed,
    ReadinessProbeFailed,
    ContextSpawnFailed,
    ContextInitializationFailed,
    ContextExitedBeforeReady,
}

pub open spec fn spec_server_start_error_code(code: ServerStartErrorCode) -> &'static str {
    match code {
        ServerStartErrorCode::InvalidConfiguration => "server.invalid_configuration",
        ServerStartErrorCode::InvalidRoutes => "server.invalid_routes",
        ServerStartErrorCode::BindFailed => "server.bind_failed",
        ServerStartErrorCode::ReadinessProbeFailed => "server.readiness_probe_failed",
        ServerStartErrorCode::ContextSpawnFailed => "server.context_spawn_failed",
        ServerStartErrorCode::ContextInitializationFailed => "server.context_initialization_failed",
        ServerStartErrorCode::ContextExitedBeforeReady => "server.context_exited_before_ready",
    }
}

pub fn server_start_error_code(code: ServerStartErrorCode) -> (text: &'static str)
    ensures
        text == spec_server_start_error_code(code),
{
    match code {
        ServerStartErrorCode::InvalidConfiguration => "server.invalid_configuration",
        ServerStartErrorCode::InvalidRoutes => "server.invalid_routes",
        ServerStartErrorCode::BindFailed => "server.bind_failed",
        ServerStartErrorCode::ReadinessProbeFailed => "server.readiness_probe_failed",
        ServerStartErrorCode::ContextSpawnFailed => "server.context_spawn_failed",
        ServerStartErrorCode::ContextInitializationFailed => "server.context_initialization_failed",
        ServerStartErrorCode::ContextExitedBeforeReady => "server.context_exited_before_ready",
    }
}

/// Why the server stopped.
#[derive(Clone, Copy, Debug, PartialEq, Eq, Structural)]
pub enum ServerCoreFailureCode {
    ListenerFailed,
    ExecutionContextExited,
    ExecutionContextPanicked,
}

pub open spec fn spec_server_core_error_code(code: ServerCoreFailureCode) -> &'static str {
    match code {
        ServerCoreFailureCode::ListenerFailed => "server.listener_failed",
        ServerCoreFailureCode::ExecutionContextExited => "server.execution_context_exited",
        ServerCoreFailureCode::ExecutionContextPanicked => "server.execution_context_panicked",
    }
}

pub fn server_core_error_code(code: ServerCoreFailureCode) -> (text: &'static str)
    ensures
        text == spec_server_core_error_code(code),
{
    match code {
        ServerCoreFailureCode::ListenerFailed => "server.listener_failed",
        ServerCoreFailureCode::ExecutionContextExited => "server.execution_context_exited",
        ServerCoreFailureCode::ExecutionContextPanicked => "server.execution_context_panicked",
    }
}

/// A failure of the runtime itself: where it happened, and what it was.
#[derive(Debug, PartialEq, Eq)]
pub struct DiagnosticCoreFailure {
    pub component: &'static str,
    pub stage: &'static str,
    pub code: String,
    pub message: String,
}

impl Clone for DiagnosticCoreFailure {
    fn clone(&self) -> (copy: Self)
        ensures
            copy == *self,
    {
        DiagnosticCoreFailure {
            component: self.component,
            stage: self.stage,
            code: self.code.clone(),
            message: self.message.clone(),
        }
    }
}

impl DiagnosticCoreFailure {
    /// The failure is this one.
    pub open spec fn tells(
        self,
        component: &'static str,
        stage: &'static str,
        code: Seq<char>,
        message: Seq<char>,
    ) -> bool {
        &&& self.component == component
        &&& self.stage == stage
        &&& self.code@ == code
        &&& self.message@ == message
    }

    pub fn new(
        component: &'static str,
        stage: &'static str,
        code: String,
        message: String,
    ) -> (failure: Self)
        ensures
            failure.tells(component, stage, code@, message@),
    {
        DiagnosticCoreFailure { component, stage, code, message }
    }

    /// A failure of the writer to commit.
    pub fn writer(message: String, code: String) -> (failure: Self)
        ensures
            failure.tells("writer", "commit", code@, message@),
    {
        DiagnosticCoreFailure::new("writer", "commit", code, message)
    }

    /// A failure that the supervisor of the writer reports.
    pub fn supervised(component: &'static str, stage: &'static str, code: String) -> (failure: Self)
        ensures
            failure.tells(
                component,
                stage,
                code@,
                "diagnostic writer supervisor reported "@ + code@,
            ),
    {
        let message = "diagnostic writer supervisor reported ".to_owned().concat(code.as_str());
        DiagnosticCoreFailure::new(component, stage, code, message)
    }

    /// A failure of the server.
    pub fn server(code: ServerCoreFailureCode, message: String) -> (failure: Self)
        ensures
            failure.tells("server", "execution", spec_server_core_error_code(code)@, message@),
    {
        DiagnosticCoreFailure::new(
            "server",
            "execution",
            server_core_error_code(code).to_owned(),
            message,
        )
    }

    /// A failure of the quota to be measured.
    pub fn quota(code: String) -> (failure: Self)
        ensures
            failure.tells(
                "quota",
                "measurement",
                code@,
                "diagnostic Run quota failed ["@ + code@ + "]"@,
            ),
    {
        let message = "diagnostic Run quota failed [".to_owned().concat(code.as_str()).concat("]");
        DiagnosticCoreFailure::new("quota", "measurement", code, message)
    }

    pub fn component(&self) -> (component: &'static str)
        ensures
            component == self.component,
    {
        self.component
    }

    pub fn stage(&self) -> (stage: &'static str)
        ensures
            stage == self.stage,
    {
        self.stage
    }

    pub fn code(&self) -> (code: &str)
        ensures
            code@ == self.code@,
    {
        self.code.as_str()
    }

    pub fn message(&self) -> (message: &str)
        ensures
            message@ == self.message@,
    {
        self.message.as_str()
    }
}

/// What the failure of a runtime is, of those of its writer and its server.
pub open spec fn is_core_failure(
    writer: Option<DiagnosticCoreFailure>,
    server: Option<(ServerCoreFailureCode, String)>,
    failure: Option<DiagnosticCoreFailure>,
) -> bool {
    match (writer, server) {
        (Some(seen), _) => failure == Some(seen),
        (None, Some((code, message))) => failure is Some && failure->0.tells(
            "server",
            "execution",
            spec_server_core_error_code(code)@,
            message@,
        ),
        (None, None) => failure is None,
    }
}

/// The failure of a runtime that is seen first: that of its writer, then that of its server.
pub fn core_failure(
    writer: Option<DiagnosticCoreFailure>,
    server: Option<(ServerCoreFailureCode, String)>,
) -> (failure: Option<DiagnosticCoreFailure>)
    ensures
        is_core_failure(writer, server, failure),
{
    match (writer, server) {
        (Some(seen), _) => Some(seen),
        (None, Some((code, message))) => Some(DiagnosticCoreFailure::server(code, message)),
        (None, None) => None,
    }
}

/// The failure of a runtime whose quota cannot be read.
pub fn quota_status_failure(message: String) -> (failure: DiagnosticCoreFailure)
    ensures
        failure.tells("quota", "status", "run_quota_state_unavailable"@, message@),
{
    DiagnosticCoreFailure::new(
        "quota",
        "status",
        "run_quota_state_unavailable".to_owned(),
        message,
    )
}

/// The failure of a runtime whose ingress cannot be sealed.
pub fn seal_failure(message: String) -> (failure: DiagnosticCoreFailure)
    ensures
        failure.tells("ingress", "seal", "diagnostic_ingress.seal_failed"@, message@),
{
    DiagnosticCoreFailure::new(
        "ingress",
        "seal",
        "diagnostic_ingress.seal_failed".to_owned(),
        message,
    )
}

/// The failures from `place` on, as one text: component, code and message of each, in order.
pub open spec fn failures_text(failures: Seq<CleanupFailure>, place: int) -> Seq<char>
    decreases failures.len() - place,
{
    if place >= failures.len() {
        ""@
    } else {
        let told = failures[place].component@ + " ["@ + failures[place].code@ + "]: "@
            + failures[place].message@;
        if place + 1 == failures.len() {
            told
        } else {
            told + "; "@ + failures_text(failures, place + 1)
        }
    }
}

/// What is said when a cleanup that no one waits for has failed.
pub fn drop_failures_text(context: &str, failures: &Vec<CleanupFailure>) -> (text: Option<String>)
    ensures
        match text {
            Some(text) => failures@.len() > 0 && text@ == context@ + ": "@ + failures_text(
                failures@,
                0,
            ),
            None => failures@.len() == 0,
        },
{
    if failures.len() == 0 {
        return None;
    }
    let mut place: usize = failures.len();
    let mut details = "".to_owned();
    while place > 0
        invariant
            place <= failures@.len(),
            details@ =~= failures_text(failures@, place as int),
        decreases place,
    {
        place = place - 1;
        let failure = &failures[place];
        let told = failure.component().to_owned().concat(" [").concat(failure.code()).concat(
            "]: ",
        ).concat(failure.message());
        details = if place + 1 == failures.len() {
            told
        } else {
            told.concat("; ").concat(details.as_str())
        };
    }
    Some(context.to_owned().concat(": ").concat(details.as_str()))
}

/// A phase is told by a name of its own.
pub proof fn phases_are_told_apart(one: BootstrapPhase, other: BootstrapPhase)
    ensures
        one is RunIdentityAllocated <==> one.spec_as_str()@ == "run_identity_allocated"@,
        one is ArchivePrepared <==> one.spec_as_str()@ == "archive_prepared"@,
        one is ActiveLeaseAcquired <==> one.spec_as_str()@ == "active_lease_acquired"@,
        one is InitialStoreReady <==> one.spec_as_str()@ == "initial_store_ready"@,
        one is WriterSupervisorReady <==> one.spec_as_str()@ == "writer_supervisor_ready"@,
        one is ListenerReady <==> one.spec_as_str()@ == "listener_ready"@,
        one is RegistryPublished <==> one.spec_as_str()@ == "registry_published"@,
        one is ReadyResult <==> one.spec_as_str()@ == "ready_result"@,
        one.spec_as_str()@ == other.spec_as_str()@ <==> one == other,
{
    reveal_strlit("run_identity_allocated");
    reveal_strlit("archive_prepared");
    reveal_strlit("active_lease_acquired");
    reveal_strlit("initial_store_ready");
    reveal_strlit("writer_supervisor_ready");
    reveal_strlit("listener_ready");
    reveal_strlit("registry_published");
    reveal_strlit("ready_result");
    assert("run_identity_allocated"@.len() == 22);
    assert("archive_prepared"@.len() == 16);
    assert("active_lease_acquired"@.len() == 21);
    assert("initial_store_ready"@.len() == 19);
    assert("writer_supervisor_ready"@.len() == 23);
    assert("listener_ready"@.len() == 14);
    assert("registry_published"@.len() == 18);
    assert("ready_result"@.len() == 12);
}

/// A server that does not start is told under a code of its own for each reason.
pub proof fn server_starts_fail_under_their_own_codes(one: ServerStartErrorCode, other: ServerStartErrorCode)
    ensures
        one is InvalidConfiguration <==> spec_server_start_error_code(one)@ == "server.invalid_configuration"@,
        one is InvalidRoutes <==> spec_server_start_error_code(one)@ == "server.invalid_routes"@,
        one is BindFailed <==> spec_server_start_error_code(one)@ == "server.bind_failed"@,
        one is ReadinessProbeFailed <==> spec_server_start_error_code(one)@ == "server.readiness_probe_failed"@,
        one is ContextSpawnFailed <==> spec_server_start_error_code(one)@ == "server.context_spawn_failed"@,
        one is ContextInitializationFailed <==> spec_server_start_error_code(one)@ == "server.context_initialization_failed"@,
        one is ContextExitedBeforeReady <==> spec_server_start_error_code(one)@ == "server.context_exited_before_ready"@,
        spec_server_start_error_code(one)@ == spec_server_start_error_code(other)@ <==> one == other,
{
    reveal_strlit("server.invalid_configuration");
    reveal_strlit("server.invalid_routes");
    reveal_strlit("server.bind_failed");
    reveal_strlit("server.readiness_probe_failed");
    reveal_strlit("server.context_spawn_failed");
    reveal_strlit("server.context_initialization_failed");
    reveal_strlit("server.context_exited_before_ready");
    assert("server.invalid_configuration"@.len() == 28);
    assert("server.invalid_routes"@.len() == 21);
    assert("server.bind_failed"@.len() == 18);
    assert("server.readiness_probe_failed"@.len() == 29);
    assert("server.context_spawn_failed"@.len() == 27);
    assert("server.context_initialization_failed"@.len() == 36);
    assert("server.context_exited_before_ready"@.len() == 34);
}

/// A server that fails later is told under a code of its own for each reason.
pub proof fn servers_fail_under_their_own_codes(one: ServerCoreFailureCode, other: ServerCoreFailureCode)
    ensures
        one is ListenerFailed <==> spec_server_core_error_code(one)@ == "server.listener_failed"@,
        one is ExecutionContextExited <==> spec_server_core_error_code(one)@ == "server.execution_context_exited"@,
        one is ExecutionContextPanicked <==> spec_server_core_error_code(one)@ == "server.execution_context_panicked"@,
        spec_server_core_error_code(one)@ == spec_server_core_error_code(other)@ <==> one == other,
{
    reveal_strlit("server.listener_failed");
    reveal_strlit("server.execution_context_exited");
    reveal_strlit("server.execution_context_panicked");
    assert("server.listener_failed"@.len() == 22);
    assert("server.execution_context_exited"@.len() == 31);
    assert("server.execution_context_panicked"@.len() == 33);
}

/// A quota that cannot be set is told under a code of its own for each reason.
pub proof fn quotas_are_refused_under_their_own_codes(one: QuotaConfigurationError, other: QuotaConfigurationError)
    ensures
        one is RunDirectoryNotAbsolute <==> spec_quota_configuration_code(one)@ == "run_quota.invalid_run_directory"@,
        one is LimitNotPositive <==> spec_quota_configuration_code(one)@ == "run_quota.limit_not_positive"@,
        spec_quota_configuration_code(one)@ == spec_quota_configuration_code(other)@ <==> one == other,
{
    reveal_strlit("run_quota.invalid_run_directory");
    reveal_strlit("run_quota.limit_not_positive");
    assert("run_quota.invalid_run_directory"@.len() == 31);
    assert("run_quota.limit_not_positive"@.len() == 28);
}

/// A runtime has failed exactly where its writer or its server has, and with what the writer failed
/// with where both have. What its server failed with is told of the server, with its own words.
pub proof fn writers_fail_before_servers(
    writer: Option<DiagnosticCoreFailure>,
    server: Option<(ServerCoreFailureCode, String)>,
    failure: Option<DiagnosticCoreFailure>,
)
    requires
        is_core_failure(writer, server, failure),
    ensures
        failure is Some <==> writer is Some || server is Some,
        writer is Some ==> failure == writer,
        writer is None && server is Some ==> failure->0.component == "server"
            && failure->0.message@ == (server->0).1@ && failure->0.code@
            == spec_server_core_error_code((server->0).0)@,
{
}

/// What a quota fails with is told under the code and with the words that came; only a state that
/// cannot be read has a code of its own.
pub proof fn quota_errors_keep_their_codes(error: QuotaError)
    ensures
        error matches QuotaError::StatePoisoned { message } ==> error.spec_code()
            == "run_quota_state_poisoned"@ && error.spec_message() == message@,
        error matches QuotaError::Sealed { code, message } ==> error.spec_code() == code@
            && error.spec_message() == message@,
        error matches QuotaError::LimitReached { code, message } ==> error.spec_code() == code@
            && error.spec_message() == message@,
        error matches QuotaError::MeasurementFailed { code, message } ==> error.spec_code() == code@
            && error.spec_message() == message@,
{
}

} // verus!
