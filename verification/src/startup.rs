//! How a diagnostic runtime starts: what it acquires, step by step, and what it gives back when a
//! step fails.
use crate::bootstrap::{
    duration_millis, quota_configuration_code, server_start_error_code, BootstrapConfig,
    BootstrapError, BootstrapPhase, QuotaConfigurationError, QuotaError, ServerStartErrorCode,
    WriterDeadlines,
};
use crate::event::copy_text;
use crate::run_identity::CanonicalUuid;
use crate::shutdown::{shutdown_result, CleanupFailure, DiagnosticShutdownError, FailureView};
use vstd::prelude::*;
use vstd::string::StringExecFns;

verus! {

/// One step of the start.
#[derive(Clone, Copy, Debug, PartialEq, Eq, Structural)]
pub enum StartupStep {
    /// Someone may stop the start after a phase.
    Checkpoint(BootstrapPhase),
    PrepareArchive,
    AcquireLease,
    CreateStore,
    ConfigureQuota,
    MeasureQuota,
    /// The writer takes the store.
    StartWriter,
    AssembleRoutes,
    ProcessIdentity,
    StallLimit,
    DrainLimit,
    SizeLimit,
    StartServer,
    BindEndpoint,
    DescribeEntry,
    Publish,
}

/// The steps of the start, in order.
pub open spec fn startup_steps() -> Seq<StartupStep> {
    seq![
        StartupStep::Checkpoint(BootstrapPhase::RunIdentityAllocated),
        StartupStep::PrepareArchive,
        StartupStep::Checkpoint(BootstrapPhase::ArchivePrepared),
        StartupStep::AcquireLease,
        StartupStep::Checkpoint(BootstrapPhase::ActiveLeaseAcquired),
        StartupStep::CreateStore,
        StartupStep::Checkpoint(BootstrapPhase::InitialStoreReady),
        StartupStep::ConfigureQuota,
        StartupStep::MeasureQuota,
        StartupStep::StartWriter,
        StartupStep::Checkpoint(BootstrapPhase::WriterSupervisorReady),
        StartupStep::AssembleRoutes,
        StartupStep::ProcessIdentity,
        StartupStep::StallLimit,
        StartupStep::DrainLimit,
        StartupStep::SizeLimit,
        StartupStep::StartServer,
        StartupStep::Checkpoint(BootstrapPhase::ListenerReady),
        StartupStep::BindEndpoint,
        StartupStep::DescribeEntry,
        StartupStep::Publish,
        StartupStep::Checkpoint(BootstrapPhase::RegistryPublished),
        StartupStep::Checkpoint(BootstrapPhase::ReadyResult),
    ]
}

fn list_startup_steps() -> (steps: Vec<StartupStep>)
    ensures
        steps@ =~= startup_steps(),
{
    vec![
        StartupStep::Checkpoint(BootstrapPhase::RunIdentityAllocated),
        StartupStep::PrepareArchive,
        StartupStep::Checkpoint(BootstrapPhase::ArchivePrepared),
        StartupStep::AcquireLease,
        StartupStep::Checkpoint(BootstrapPhase::ActiveLeaseAcquired),
        StartupStep::CreateStore,
        StartupStep::Checkpoint(BootstrapPhase::InitialStoreReady),
        StartupStep::ConfigureQuota,
        StartupStep::MeasureQuota,
        StartupStep::StartWriter,
        StartupStep::Checkpoint(BootstrapPhase::WriterSupervisorReady),
        StartupStep::AssembleRoutes,
        StartupStep::ProcessIdentity,
        StartupStep::StallLimit,
        StartupStep::DrainLimit,
        StartupStep::SizeLimit,
        StartupStep::StartServer,
        StartupStep::Checkpoint(BootstrapPhase::ListenerReady),
        StartupStep::BindEndpoint,
        StartupStep::DescribeEntry,
        StartupStep::Publish,
        StartupStep::Checkpoint(BootstrapPhase::RegistryPublished),
        StartupStep::Checkpoint(BootstrapPhase::ReadyResult),
    ]
}

/// Why a step failed.
#[derive(Debug, PartialEq, Eq)]
pub enum StartupFault {
    /// Someone stopped the start.
    Stopped { stopped: BootstrapError },
    /// The error has a code of its own.
    Coded { code: String, message: String },
    QuotaConfiguration { reason: QuotaConfigurationError, message: String },
    Quota { quota: QuotaError },
    Server { server: ServerStartErrorCode, message: String },
    /// The error has no code: the step gives it one.
    Plain { message: String },
}

impl StartupStep {
    /// The phase that a step belongs to.
    pub open spec fn phase(self) -> BootstrapPhase {
        match self {
            StartupStep::Checkpoint(phase) => phase,
            StartupStep::PrepareArchive => BootstrapPhase::ArchivePrepared,
            StartupStep::AcquireLease => BootstrapPhase::ActiveLeaseAcquired,
            StartupStep::CreateStore => BootstrapPhase::InitialStoreReady,
            StartupStep::ConfigureQuota => BootstrapPhase::WriterSupervisorReady,
            StartupStep::MeasureQuota => BootstrapPhase::WriterSupervisorReady,
            StartupStep::StartWriter => BootstrapPhase::WriterSupervisorReady,
            StartupStep::AssembleRoutes => BootstrapPhase::ListenerReady,
            StartupStep::ProcessIdentity => BootstrapPhase::ListenerReady,
            StartupStep::StallLimit => BootstrapPhase::ListenerReady,
            StartupStep::DrainLimit => BootstrapPhase::ListenerReady,
            StartupStep::SizeLimit => BootstrapPhase::ListenerReady,
            StartupStep::StartServer => BootstrapPhase::ListenerReady,
            StartupStep::BindEndpoint => BootstrapPhase::RegistryPublished,
            StartupStep::DescribeEntry => BootstrapPhase::RegistryPublished,
            StartupStep::Publish => BootstrapPhase::RegistryPublished,
        }
    }

    /// The code of a fault that has none of its own.
    pub open spec fn plain_code(self) -> &'static str {
        match self {
            StartupStep::AssembleRoutes => "bootstrap.route_assembly_failed",
            StartupStep::ProcessIdentity => "bootstrap.process_identity_unavailable",
            StartupStep::StallLimit => "bootstrap.operational_limits_invalid",
            StartupStep::DrainLimit => "bootstrap.operational_limits_invalid",
            StartupStep::SizeLimit => "bootstrap.operational_limits_invalid",
            StartupStep::StartWriter => "bootstrap.writer_thread_spawn_failed",
            _ => "bootstrap.registry_entry_invalid",
        }
    }

    /// The error that a fault becomes.
    pub open spec fn errs(self, fault: StartupFault, error: BootstrapError) -> bool {
        match fault {
            StartupFault::Stopped { stopped } => error == stopped,
            StartupFault::Coded { code, message } => error.says(self.phase(), code@, message@),
            StartupFault::QuotaConfiguration { reason, message } => error.says(
                self.phase(),
                crate::bootstrap::spec_quota_configuration_code(reason)@,
                message@,
            ),
            StartupFault::Quota { quota } => error.says(
                self.phase(),
                quota.spec_code(),
                quota.spec_message(),
            ),
            StartupFault::Server { server, message } => error.says(
                self.phase(),
                crate::bootstrap::spec_server_start_error_code(server)@,
                message@,
            ),
            StartupFault::Plain { message } => error.says(
                self.phase(),
                self.plain_code()@,
                message@,
            ),
        }
    }

    fn phase_of(self) -> (phase: BootstrapPhase)
        ensures
            phase == self.phase(),
    {
        match self {
            StartupStep::Checkpoint(phase) => phase,
            StartupStep::PrepareArchive => BootstrapPhase::ArchivePrepared,
            StartupStep::AcquireLease => BootstrapPhase::ActiveLeaseAcquired,
            StartupStep::CreateStore => BootstrapPhase::InitialStoreReady,
            StartupStep::ConfigureQuota => BootstrapPhase::WriterSupervisorReady,
            StartupStep::MeasureQuota => BootstrapPhase::WriterSupervisorReady,
            StartupStep::StartWriter => BootstrapPhase::WriterSupervisorReady,
            StartupStep::AssembleRoutes => BootstrapPhase::ListenerReady,
            StartupStep::ProcessIdentity => BootstrapPhase::ListenerReady,
            StartupStep::StallLimit => BootstrapPhase::ListenerReady,
            StartupStep::DrainLimit => BootstrapPhase::ListenerReady,
            StartupStep::SizeLimit => BootstrapPhase::ListenerReady,
            StartupStep::StartServer => BootstrapPhase::ListenerReady,
            StartupStep::BindEndpoint => BootstrapPhase::RegistryPublished,
            StartupStep::DescribeEntry => BootstrapPhase::RegistryPublished,
            StartupStep::Publish => BootstrapPhase::RegistryPublished,
        }
    }

    /// The error of a step that failed.
    pub fn error(self, fault: StartupFault) -> (error: BootstrapError)
        ensures
            self.errs(fault, error),
    {
        let phase = self.phase_of();
        match fault {
            StartupFault::Stopped { stopped } => stopped,
            StartupFault::Coded { code, message } => BootstrapError::new(phase, code, message),
            StartupFault::QuotaConfiguration { reason, message } => {
                BootstrapError::new(phase, quota_configuration_code(reason).to_owned(), message)
            },
            StartupFault::Quota { quota } => {
                let (code, message) = quota.into_parts();
                BootstrapError::new(phase, code, message)
            },
            StartupFault::Server { server, message } => {
                BootstrapError::new(phase, server_start_error_code(server).to_owned(), message)
            },
            StartupFault::Plain { message } => {
                let code = match self {
                    StartupStep::AssembleRoutes => "bootstrap.route_assembly_failed",
                    StartupStep::ProcessIdentity => "bootstrap.process_identity_unavailable",
                    StartupStep::StallLimit => "bootstrap.operational_limits_invalid",
                    StartupStep::DrainLimit => "bootstrap.operational_limits_invalid",
                    StartupStep::SizeLimit => "bootstrap.operational_limits_invalid",
                    StartupStep::StartWriter => "bootstrap.writer_thread_spawn_failed",
                    _ => "bootstrap.registry_entry_invalid",
                };
                BootstrapError::new(phase, code.to_owned(), message)
            },
        }
    }
}

/// What a runtime holds.
#[derive(Clone, Copy, Debug, PartialEq, Eq, Structural)]
pub struct StartupHoldings {
    pub layout: bool,
    pub lease: bool,
    pub store: bool,
    /// The ingress, the quota, the hub and the writer, which come together.
    pub writer: bool,
    pub server: bool,
    pub publication: bool,
}

impl StartupHoldings {
    pub open spec fn nothing() -> Self {
        StartupHoldings {
            layout: false,
            lease: false,
            store: false,
            writer: false,
            server: false,
            publication: false,
        }
    }

    /// What a runtime that has started holds. The store is the writer's.
    pub open spec fn everything() -> Self {
        StartupHoldings {
            layout: true,
            lease: true,
            store: false,
            writer: true,
            server: true,
            publication: true,
        }
    }

    /// What is held after a step.
    pub open spec fn after(self, step: StartupStep, succeeded: bool) -> Self {
        match step {
            StartupStep::PrepareArchive => StartupHoldings {
                layout: self.layout || succeeded,
                ..self
            },
            StartupStep::AcquireLease => StartupHoldings {
                lease: self.lease || succeeded,
                ..self
            },
            StartupStep::CreateStore => StartupHoldings {
                store: self.store || succeeded,
                ..self
            },
            StartupStep::StartWriter => StartupHoldings {
                store: false,
                writer: self.writer || succeeded,
                ..self
            },
            StartupStep::StartServer => StartupHoldings {
                server: self.server || succeeded,
                ..self
            },
            StartupStep::Publish => StartupHoldings {
                publication: self.publication || succeeded,
                ..self
            },
            _ => self,
        }
    }

    fn note(&mut self, step: StartupStep, succeeded: bool)
        ensures
            *final(self) == old(self).after(step, succeeded),
    {
        match step {
            StartupStep::PrepareArchive => {
                self.layout = self.layout || succeeded;
            },
            StartupStep::AcquireLease => {
                self.lease = self.lease || succeeded;
            },
            StartupStep::CreateStore => {
                self.store = self.store || succeeded;
            },
            StartupStep::StartWriter => {
                self.store = false;
                self.writer = self.writer || succeeded;
            },
            StartupStep::StartServer => {
                self.server = self.server || succeeded;
            },
            StartupStep::Publish => {
                self.publication = self.publication || succeeded;
            },
            _ => {},
        }
    }
}

/// What is to be started, and how.
pub struct StartupInput {
    pub production_root: String,
    pub run_id: CanonicalUuid,
    pub config: BootstrapConfig,
}

/// The process that a runtime lives in.
#[derive(Debug, PartialEq, Eq)]
pub struct ProcessIdentity {
    pub pid: u32,
    pub identity: String,
}

impl Clone for ProcessIdentity {
    fn clone(&self) -> (copy: Self)
        ensures
            copy == *self,
    {
        ProcessIdentity { pid: self.pid, identity: self.identity.clone() }
    }
}

/// How a server is to start.
#[derive(Debug, PartialEq, Eq)]
pub struct ServerRequest {
    pub run_id: CanonicalUuid,
    pub process: ProcessIdentity,
    pub bind_host: String,
    pub port: u16,
    pub advertise_url: Option<String>,
}

/// What a server that has started is known by.
#[derive(Debug, PartialEq, Eq)]
pub struct ServerIdentity {
    pub connect_addr: String,
    pub bind_host: String,
    pub port: u16,
    pub advertise_url: Option<String>,
    pub owner: ProcessIdentity,
}

/// The entry of a run in the registry.
#[derive(Debug, PartialEq, Eq)]
pub struct EntryRequest {
    pub run_id: CanonicalUuid,
    pub run_directory: String,
    pub owner: ProcessIdentity,
    pub bind_host: String,
    pub port: u16,
    pub advertise_url: Option<String>,
    pub started_at: String,
}

/// What a checkpoint is shown of a start.
#[derive(Debug, PartialEq, Eq)]
pub struct StartupSnapshot {
    pub run_id: CanonicalUuid,
    pub run_directory: Option<String>,
    pub connect_addr: Option<String>,
    pub locator_path: Option<String>,
}

/// What a step without a result is asked to do.
#[derive(Debug, PartialEq, Eq)]
pub enum StartupRequest {
    /// A phase was reached.
    Reached { phase: BootstrapPhase, snapshot: StartupSnapshot },
    AcquireLease { run_directory: String },
    CreateStore {
        run_directory: String,
        run_id: CanonicalUuid,
        started_at: String,
        configuration_identity: String,
    },
    ConfigureQuota { run_directory: String, max_run_bytes: Option<u64> },
    MeasureQuota,
    StartWriter { run_id: CanonicalUuid, deadlines: WriterDeadlines },
    AssembleRoutes { run_id: CanonicalUuid, run_directory: String },
    BindEndpoint { bind_host: String, port: u16 },
    DescribeEntry { entry: EntryRequest },
}

/// A call that a start makes, with what was answered.
pub enum StartupCall {
    Carried { request: StartupRequest, answer: Result<(), StartupFault> },
    Prepared {
        production_root: String,
        run_id: CanonicalUuid,
        directory: Result<String, StartupFault>,
    },
    Identified { process: Result<ProcessIdentity, StartupFault> },
    Limited { name: &'static str, value: u64, limited: Result<(), String> },
    Served { request: ServerRequest, server: Result<ServerIdentity, StartupFault> },
    Published { entry: EntryRequest, locator_path: Result<String, StartupFault> },
}

/// Calls of a start, in order.
pub type StartupLog = Seq<StartupCall>;

/// One thing that is given back.
#[derive(Clone, Copy, Debug, PartialEq, Eq, Structural)]
pub enum Release {
    SealIngress,
    Unpublish,
    StopServer,
    DropHub,
    StopWriter,
    DropStore,
    DropQuota,
    DropIngress,
    ReleaseLease,
}

/// What was answered to giving something back.
#[derive(Debug, PartialEq, Eq)]
pub enum ReleaseAnswer {
    Done,
    /// It went wrong. Some errors have a code of their own.
    Failed { code: Option<String>, message: String },
    /// The writer tells of its failures itself.
    Told { failures: Vec<CleanupFailure> },
}

/// Something that was given back, with what was answered.
pub struct Released {
    pub release: Release,
    pub answer: ReleaseAnswer,
}

/// What was given back, in order.
pub type ReleaseLog = Seq<Released>;

/// What a runtime is made of. Nothing is promised of what it answers, only that it is known what was
/// asked of it.
pub trait StartupResources {
    /// Every call of a start so far.
    spec fn told(&self) -> StartupLog;

    /// Everything that was given back so far.
    spec fn given_back(&self) -> ReleaseLog;

    fn carry_out(&mut self, request: &StartupRequest) -> (answer: Result<(), StartupFault>)
        ensures
            final(self).told() == old(self).told().push(
                StartupCall::Carried { request: *request, answer },
            ),
            final(self).given_back() == old(self).given_back(),
    ;

    /// Prepares the archive of a run, and gives the run's directory.
    fn prepare_archive(&mut self, production_root: &String, run_id: CanonicalUuid) -> (directory:
        Result<String, StartupFault>)
        ensures
            final(self).told() == old(self).told().push(
                StartupCall::Prepared { production_root: *production_root, run_id, directory },
            ),
            final(self).given_back() == old(self).given_back(),
    ;

    fn identify_process(&mut self) -> (process: Result<ProcessIdentity, StartupFault>)
        ensures
            final(self).told() == old(self).told().push(StartupCall::Identified { process }),
            final(self).given_back() == old(self).given_back(),
    ;

    /// Bounds what the server tells of itself.
    fn set_limit(&mut self, name: &'static str, value: u64) -> (limited: Result<(), String>)
        ensures
            final(self).told() == old(self).told().push(
                StartupCall::Limited { name, value, limited },
            ),
            final(self).given_back() == old(self).given_back(),
    ;

    fn start_server(&mut self, request: &ServerRequest) -> (server: Result<
        ServerIdentity,
        StartupFault,
    >)
        ensures
            final(self).told() == old(self).told().push(
                StartupCall::Served { request: *request, server },
            ),
            final(self).given_back() == old(self).given_back(),
    ;

    /// Publishes the entry of a run, and gives the path of its locator.
    fn publish(&mut self, entry: &EntryRequest) -> (locator_path: Result<String, StartupFault>)
        ensures
            final(self).told() == old(self).told().push(
                StartupCall::Published { entry: *entry, locator_path },
            ),
            final(self).given_back() == old(self).given_back(),
    ;

    fn give_back(&mut self, release: Release) -> (answer: ReleaseAnswer)
        ensures
            final(self).told() == old(self).told(),
            final(self).given_back() == old(self).given_back().push(Released { release, answer }),
    ;
}

/// A step that was taken.
pub enum StartupRecord {
    Called { step: StartupStep, call: StartupCall },
    /// A deadline that the server cannot tell. Nobody was asked.
    Overflowed { step: StartupStep },
    /// A bound that is not set. Nobody was asked.
    Unbounded { step: StartupStep },
}

/// What a start has learned.
#[derive(Debug, PartialEq, Eq)]
pub struct StartupFacts {
    pub run_directory: Option<String>,
    pub process: Option<ProcessIdentity>,
    pub server: Option<ServerIdentity>,
    pub locator_path: Option<String>,
}

/// What a runtime that has started is known by.
#[derive(Debug, PartialEq, Eq)]
pub struct StartedRuntime {
    pub run_id: CanonicalUuid,
    pub run_directory: String,
    pub server: ServerIdentity,
    pub locator_path: String,
}

impl StartupFacts {
    pub open spec fn nothing() -> Self {
        StartupFacts { run_directory: None, process: None, server: None, locator_path: None }
    }

    /// What is known after a step.
    pub open spec fn after(self, record: StartupRecord) -> Self {
        match record {
            StartupRecord::Called { call: StartupCall::Prepared { directory: Ok(path), .. }, .. } => {
                StartupFacts { run_directory: Some(path), ..self }
            },
            StartupRecord::Called { call: StartupCall::Identified { process: Ok(process) }, .. } => {
                StartupFacts { process: Some(process), ..self }
            },
            StartupRecord::Called { call: StartupCall::Served { server: Ok(server), .. }, .. } => {
                StartupFacts { server: Some(server), ..self }
            },
            StartupRecord::Called {
                call: StartupCall::Published { locator_path: Ok(path), .. },
                ..
            } => StartupFacts { locator_path: Some(path), ..self },
            _ => self,
        }
    }

    /// What is known after these steps.
    pub open spec fn known(records: Seq<StartupRecord>) -> Self
        decreases records.len(),
    {
        if records.len() == 0 {
            StartupFacts::nothing()
        } else {
            StartupFacts::known(records.drop_last()).after(records.last())
        }
    }

    /// What a checkpoint is shown.
    pub open spec fn spec_snapshot(self, run_id: CanonicalUuid) -> StartupSnapshot {
        StartupSnapshot {
            run_id,
            run_directory: self.run_directory,
            connect_addr: match self.server {
                Some(server) => Some(server.connect_addr),
                None => None,
            },
            locator_path: self.locator_path,
        }
    }

    fn snapshot(&self, run_id: CanonicalUuid) -> (snapshot: StartupSnapshot)
        ensures
            snapshot == self.spec_snapshot(run_id),
    {
        StartupSnapshot {
            run_id,
            run_directory: copy_text(&self.run_directory),
            connect_addr: match &self.server {
                Some(server) => Some(server.connect_addr.clone()),
                None => None,
            },
            locator_path: copy_text(&self.locator_path),
        }
    }

    /// How the server is to start: where the configuration says.
    pub open spec fn spec_server_request(self, input: StartupInput) -> ServerRequest {
        ServerRequest {
            run_id: input.run_id,
            process: self.process->0,
            bind_host: input.config.bind_host,
            port: input.config.port,
            advertise_url: input.config.advertise_url,
        }
    }

    fn server_request(&self, input: &StartupInput) -> (request: ServerRequest)
        requires
            self.process is Some,
        ensures
            request == self.spec_server_request(*input),
    {
        ServerRequest {
            run_id: input.run_id,
            process: self.process.as_ref().unwrap().clone(),
            bind_host: input.config.bind_host.clone(),
            port: input.config.port,
            advertise_url: copy_text(&input.config.advertise_url),
        }
    }

    /// The entry of the run: where its server listens.
    pub open spec fn spec_entry(self, input: StartupInput) -> EntryRequest {
        EntryRequest {
            run_id: input.run_id,
            run_directory: self.run_directory->0,
            owner: self.server->0.owner,
            bind_host: self.server->0.bind_host,
            port: self.server->0.port,
            advertise_url: self.server->0.advertise_url,
            started_at: input.config.started_at,
        }
    }

    fn entry(&self, input: &StartupInput) -> (entry: EntryRequest)
        requires
            self.run_directory is Some,
            self.server is Some,
        ensures
            entry == self.spec_entry(*input),
    {
        let server = self.server.as_ref().unwrap();
        EntryRequest {
            run_id: input.run_id,
            run_directory: self.run_directory.as_ref().unwrap().clone(),
            owner: server.owner.clone(),
            bind_host: server.bind_host.clone(),
            port: server.port,
            advertise_url: copy_text(&server.advertise_url),
            started_at: input.config.started_at.clone(),
        }
    }

    /// Enough is known for a step.
    pub open spec fn ready_for(self, step: StartupStep) -> bool {
        match step {
            StartupStep::AcquireLease | StartupStep::CreateStore | StartupStep::ConfigureQuota
            | StartupStep::AssembleRoutes => self.run_directory is Some,
            StartupStep::StartServer => self.process is Some,
            StartupStep::BindEndpoint => self.server is Some,
            StartupStep::DescribeEntry | StartupStep::Publish => {
                self.run_directory is Some && self.server is Some
            },
            _ => true,
        }
    }

    /// What a step without a result is asked to do.
    pub open spec fn spec_request(self, input: StartupInput, step: StartupStep) -> StartupRequest {
        let run_directory = self.run_directory->0;
        match step {
            StartupStep::Checkpoint(phase) => StartupRequest::Reached {
                phase,
                snapshot: self.spec_snapshot(input.run_id),
            },
            StartupStep::AcquireLease => StartupRequest::AcquireLease { run_directory },
            StartupStep::CreateStore => StartupRequest::CreateStore {
                run_directory,
                run_id: input.run_id,
                started_at: input.config.started_at,
                configuration_identity: input.config.configuration_identity,
            },
            StartupStep::ConfigureQuota => StartupRequest::ConfigureQuota {
                run_directory,
                max_run_bytes: input.config.max_run_bytes,
            },
            StartupStep::StartWriter => StartupRequest::StartWriter {
                run_id: input.run_id,
                deadlines: input.config.writer_deadlines,
            },
            StartupStep::AssembleRoutes => StartupRequest::AssembleRoutes {
                run_id: input.run_id,
                run_directory,
            },
            StartupStep::BindEndpoint => StartupRequest::BindEndpoint {
                bind_host: self.server->0.bind_host,
                port: self.server->0.port,
            },
            StartupStep::DescribeEntry => StartupRequest::DescribeEntry {
                entry: self.spec_entry(input),
            },
            _ => StartupRequest::MeasureQuota,
        }
    }

    fn request(&self, input: &StartupInput, step: StartupStep) -> (request: StartupRequest)
        requires
            self.ready_for(step),
        ensures
            request == self.spec_request(*input, step),
    {
        match step {
            StartupStep::Checkpoint(phase) => StartupRequest::Reached {
                phase,
                snapshot: self.snapshot(input.run_id),
            },
            StartupStep::AcquireLease => StartupRequest::AcquireLease {
                run_directory: self.run_directory.as_ref().unwrap().clone(),
            },
            StartupStep::CreateStore => StartupRequest::CreateStore {
                run_directory: self.run_directory.as_ref().unwrap().clone(),
                run_id: input.run_id,
                started_at: input.config.started_at.clone(),
                configuration_identity: input.config.configuration_identity.clone(),
            },
            StartupStep::ConfigureQuota => StartupRequest::ConfigureQuota {
                run_directory: self.run_directory.as_ref().unwrap().clone(),
                max_run_bytes: input.config.max_run_bytes,
            },
            StartupStep::StartWriter => StartupRequest::StartWriter {
                run_id: input.run_id,
                deadlines: input.config.writer_deadlines,
            },
            StartupStep::AssembleRoutes => StartupRequest::AssembleRoutes {
                run_id: input.run_id,
                run_directory: self.run_directory.as_ref().unwrap().clone(),
            },
            StartupStep::BindEndpoint => {
                let server = self.server.as_ref().unwrap();
                StartupRequest::BindEndpoint {
                    bind_host: server.bind_host.clone(),
                    port: server.port,
                }
            },
            StartupStep::DescribeEntry => StartupRequest::DescribeEntry {
                entry: self.entry(input),
            },
            _ => StartupRequest::MeasureQuota,
        }
    }
}

impl StartupCall {
    pub open spec fn succeeded(self) -> bool {
        match self {
            StartupCall::Carried { answer, .. } => answer is Ok,
            StartupCall::Prepared { directory, .. } => directory is Ok,
            StartupCall::Identified { process } => process is Ok,
            StartupCall::Limited { limited, .. } => limited is Ok,
            StartupCall::Served { server, .. } => server is Ok,
            StartupCall::Published { locator_path, .. } => locator_path is Ok,
        }
    }

    /// The error that a failed call becomes.
    pub open spec fn errs(self, step: StartupStep, error: BootstrapError) -> bool {
        match self {
            StartupCall::Carried { answer: Err(fault), .. } => step.errs(fault, error),
            StartupCall::Prepared { directory: Err(fault), .. } => step.errs(fault, error),
            StartupCall::Identified { process: Err(fault) } => step.errs(fault, error),
            StartupCall::Limited { limited: Err(message), .. } => error.says(
                step.phase(),
                step.plain_code()@,
                message@,
            ),
            StartupCall::Served { server: Err(fault), .. } => step.errs(fault, error),
            StartupCall::Published { locator_path: Err(fault), .. } => step.errs(fault, error),
            _ => false,
        }
    }
}

impl StartupRecord {
    pub open spec fn step(self) -> StartupStep {
        match self {
            StartupRecord::Called { step, .. } => step,
            StartupRecord::Overflowed { step } => step,
            StartupRecord::Unbounded { step } => step,
        }
    }

    pub open spec fn succeeded(self) -> bool {
        match self {
            StartupRecord::Called { call, .. } => call.succeeded(),
            StartupRecord::Overflowed { .. } => false,
            StartupRecord::Unbounded { .. } => true,
        }
    }

    /// The calls of the steps, in order.
    pub open spec fn calls(records: Seq<StartupRecord>) -> Seq<StartupCall>
        decreases records.len(),
    {
        if records.len() == 0 {
            Seq::empty()
        } else {
            match records.last() {
                StartupRecord::Called { call, .. } => {
                    StartupRecord::calls(records.drop_last()).push(call)
                },
                _ => StartupRecord::calls(records.drop_last()),
            }
        }
    }

    /// The limit of a step, where it sets one.
    pub open spec fn limit(config: BootstrapConfig, step: StartupStep) -> Option<
        (&'static str, Option<u128>),
    > {
        match step {
            StartupStep::StallLimit => Some(
                (
                    "writer_stall_timeout_ms",
                    Some(config.writer_deadlines.writer_stall_timeout_ms),
                ),
            ),
            StartupStep::DrainLimit => Some(
                (
                    "shutdown_drain_timeout_ms",
                    Some(config.writer_deadlines.shutdown_drain_timeout_ms),
                ),
            ),
            StartupStep::SizeLimit => Some(
                (
                    "max_run_bytes",
                    match config.max_run_bytes {
                        Some(bytes) => Some(bytes as u128),
                        None => None,
                    },
                ),
            ),
            _ => None,
        }
    }

    /// The record is of this step, and the right thing was asked for. `facts` is what was known.
    pub open spec fn serves(
        self,
        input: StartupInput,
        step: StartupStep,
        facts: StartupFacts,
    ) -> bool {
        &&& self.step() == step
        &&& match StartupRecord::limit(input.config, step) {
            None => self is Called && match step {
                StartupStep::PrepareArchive => {
                    &&& self->call is Prepared
                    &&& self->call->production_root == input.production_root
                    &&& self->call->run_id == input.run_id
                },
                StartupStep::ProcessIdentity => self->call is Identified,
                StartupStep::StartServer => {
                    &&& self->call is Served
                    &&& self->call->Served_request == facts.spec_server_request(input)
                },
                StartupStep::Publish => {
                    &&& self->call is Published
                    &&& self->call->entry == facts.spec_entry(input)
                },
                _ => {
                    &&& self->call is Carried
                    &&& self->call->Carried_request == facts.spec_request(input, step)
                },
            },
            Some((name, Some(value))) => if value > u64::MAX {
                self is Overflowed
            } else {
                &&& self is Called
                &&& self->call is Limited
                &&& self->call->name == name
                &&& self->call->value == value
            },
            Some((_, None)) => self is Unbounded,
        }
    }

    /// The error that a failed step becomes.
    pub open spec fn errs(self, error: BootstrapError) -> bool {
        match self {
            StartupRecord::Called { step, call } => call.errs(step, error),
            StartupRecord::Overflowed { step } => error.says(
                BootstrapPhase::ListenerReady,
                "bootstrap.operational_limit_overflow"@,
                "writer deadline does not fit the server identity"@,
            ),
            StartupRecord::Unbounded { .. } => false,
        }
    }

    /// One more step adds its call behind those before it.
    proof fn one_more(records: Seq<StartupRecord>, last: StartupRecord)
        ensures
            StartupRecord::calls(records.push(last)) == match last {
                StartupRecord::Called { call, .. } => StartupRecord::calls(records).push(call),
                _ => StartupRecord::calls(records),
            },
            StartupFacts::known(records.push(last)) == StartupFacts::known(records).after(last),
            StartupHoldings::held(records.push(last)) == StartupHoldings::held(records).after(
                last.step(),
                last.succeeded(),
            ),
    {
        assert(records.push(last).drop_last() =~= records);
    }
}

impl Release {
    /// The part of the runtime that a failure is told of.
    pub open spec fn component(self) -> &'static str {
        match self {
            Release::Unpublish => "registry",
            Release::StopServer => "server",
            _ => "writer",
        }
    }

    /// The code of a failure that has none of its own.
    pub open spec fn plain_code(self) -> &'static str {
        match self {
            Release::StopServer => "server_shutdown_failed",
            _ => "writer_ingress_seal_failed",
        }
    }

    /// The failure of something that was not given back.
    pub fn failure(self, code: Option<String>, message: String) -> (failure: CleanupFailure)
        ensures
            failure@ == (Released {
                release: self,
                answer: ReleaseAnswer::Failed { code, message },
            }).failures()[0],
    {
        let component = match self {
            Release::Unpublish => "registry",
            Release::StopServer => "server",
            _ => "writer",
        };
        let code = match code {
            Some(code) => code,
            None => match self {
                Release::StopServer => "server_shutdown_failed".to_owned(),
                _ => "writer_ingress_seal_failed".to_owned(),
            },
        };
        CleanupFailure::new(component, code, message)
    }
}

impl Released {
    /// The failures that the answer tells of.
    pub open spec fn failures(self) -> Seq<FailureView> {
        match self.answer {
            ReleaseAnswer::Done => Seq::empty(),
            ReleaseAnswer::Failed { code, message } => seq![
                FailureView {
                    component: self.release.component(),
                    code: match code {
                        Some(code) => code@,
                        None => self.release.plain_code()@,
                    },
                    message: message@,
                },
            ],
            ReleaseAnswer::Told { failures } => views(failures@),
        }
    }

    /// The failures of all that was given back, in order.
    pub open spec fn all_failures(released: Seq<Released>) -> Seq<FailureView>
        decreases released.len(),
    {
        if released.len() == 0 {
            Seq::empty()
        } else {
            Released::all_failures(released.drop_last()) + released.last().failures()
        }
    }
}

/// What the failures say.
pub open spec fn views(failures: Seq<CleanupFailure>) -> Seq<FailureView> {
    failures.map_values(|failure: CleanupFailure| failure@)
}

impl StartupHoldings {
    /// What is to be given back, in order.
    pub open spec fn releases(self) -> Seq<Release> {
        let sealing = if self.writer {
            seq![Release::SealIngress]
        } else {
            Seq::empty()
        };
        let unpublishing = if self.publication {
            seq![Release::Unpublish]
        } else {
            Seq::empty()
        };
        let stopping = if self.server {
            seq![Release::StopServer]
        } else {
            Seq::empty()
        };
        let writing = if self.writer {
            seq![Release::DropHub, Release::StopWriter]
        } else {
            Seq::empty()
        };
        let storing = if self.store {
            seq![Release::DropStore]
        } else {
            Seq::empty()
        };
        let admitting = if self.writer {
            seq![Release::DropQuota, Release::DropIngress]
        } else {
            Seq::empty()
        };
        let leasing = if self.lease {
            seq![Release::ReleaseLease]
        } else {
            Seq::empty()
        };
        sealing + unpublishing + stopping + writing + storing + admitting + leasing
    }

    fn list_releases(self) -> (releases: Vec<Release>)
        ensures
            releases@ =~= self.releases(),
    {
        let mut releases: Vec<Release> = Vec::new();
        if self.writer {
            releases.push(Release::SealIngress);
        }
        if self.publication {
            releases.push(Release::Unpublish);
        }
        if self.server {
            releases.push(Release::StopServer);
        }
        if self.writer {
            releases.push(Release::DropHub);
            releases.push(Release::StopWriter);
        }
        if self.store {
            releases.push(Release::DropStore);
        }
        if self.writer {
            releases.push(Release::DropQuota);
            releases.push(Release::DropIngress);
        }
        if self.lease {
            releases.push(Release::ReleaseLease);
        }
        releases
    }

    /// What came of giving everything back: nothing stops it, and every failure is told.
    pub open spec fn given_back(
        self,
        before: Seq<Released>,
        after: Seq<Released>,
        failures: Seq<CleanupFailure>,
    ) -> bool {
        let released = after.skip(before.len() as int);
        &&& after =~= before + released
        &&& released.len() == self.releases().len()
        &&& forall|i: int|
            0 <= i < released.len() ==> (#[trigger] released[i]).release == self.releases()[i]
        &&& views(failures) == Released::all_failures(released)
    }

    /// What is held after these steps.
    pub open spec fn held(records: Seq<StartupRecord>) -> Self
        decreases records.len(),
    {
        if records.len() == 0 {
            StartupHoldings::nothing()
        } else {
            StartupHoldings::held(records.drop_last()).after(
                records.last().step(),
                records.last().succeeded(),
            )
        }
    }
}

/// Gives everything back that is held.
pub fn clean_up<R: StartupResources>(resources: &mut R, holdings: StartupHoldings) -> (failures:
    Vec<CleanupFailure>)
    ensures
        final(resources).told() == old(resources).told(),
        holdings.given_back(
            old(resources).given_back(),
            final(resources).given_back(),
            failures@,
        ),
{
    let releases = holdings.list_releases();
    let mut failures: Vec<CleanupFailure> = Vec::new();
    let ghost before = resources.given_back();
    let ghost mut released: Seq<Released> = Seq::empty();
    let mut place: usize = 0;
    assert(views(failures@) =~= Released::all_failures(released));
    while place < releases.len()
        invariant
            place <= releases@.len(),
            releases@ =~= holdings.releases(),
            resources.told() == old(resources).told(),
            before == old(resources).given_back(),
            resources.given_back() =~= before + released,
            released.len() == place,
            forall|i: int|
                0 <= i < released.len() ==> (#[trigger] released[i]).release
                    == holdings.releases()[i],
            views(failures@) == Released::all_failures(released),
        decreases releases.len() - place,
    {
        let release = releases[place];
        let ghost told = failures@;
        let answer = resources.give_back(release);
        let ghost given = Released { release, answer };
        match answer {
            ReleaseAnswer::Done => {},
            ReleaseAnswer::Failed { code, message } => {
                failures.push(release.failure(code, message));
            },
            ReleaseAnswer::Told { failures: stopped } => {
                let mut stopped = stopped;
                failures.append(&mut stopped);
            },
        }
        proof {
            let earlier = released;
            released = earlier.push(given);
            assert(released.drop_last() =~= earlier);
            assert(views(failures@) =~= views(told) + given.failures());
        }
        place = place + 1;
    }
    assert(resources.given_back().skip(before.len() as int) =~= released);
    failures
}

/// The steps are those of the start, in order. All but the last have succeeded, and each was asked
/// for with what was known then.
pub open spec fn in_order(input: StartupInput, records: Seq<StartupRecord>) -> bool {
    &&& records.len() <= startup_steps().len()
    &&& forall|i: int|
        0 <= i < records.len() ==> (#[trigger] records[i]).serves(
            input,
            startup_steps()[i],
            StartupFacts::known(records.take(i)),
        )
    &&& forall|i: int| 0 <= i < records.len() - 1 ==> (#[trigger] records[i]).succeeded()
}

/// What came of a start: a failed step ends it, and then everything that is held is given back.
pub open spec fn on_start(
    input: StartupInput,
    records: Seq<StartupRecord>,
    released: Seq<Released>,
    released_after: Seq<Released>,
    result: Result<StartedRuntime, BootstrapError>,
) -> bool {
    &&& records.len() > 0
    &&& in_order(input, records)
    &&& match result {
        Ok(started) => {
            let facts = StartupFacts::known(records);
            &&& records.len() == startup_steps().len()
            &&& records.last().succeeded()
            &&& released_after == released
            &&& started.run_id == input.run_id
            &&& facts.run_directory == Some(started.run_directory)
            &&& facts.server == Some(started.server)
            &&& facts.locator_path == Some(started.locator_path)
        },
        Err(error) => {
            &&& !records.last().succeeded()
            &&& failed_with(records.last(), error, released, released_after, records)
        },
    }
}

/// The error is that of the last step, with the failures of giving back what is held.
pub open spec fn failed_with(
    last: StartupRecord,
    error: BootstrapError,
    released: Seq<Released>,
    released_after: Seq<Released>,
    records: Seq<StartupRecord>,
) -> bool {
    exists|told: BootstrapError|
        {
            &&& #[trigger] last.errs(told)
            &&& error.phase == told.phase
            &&& error.code == told.code
            &&& error.message == told.message
            &&& StartupHoldings::held(records).given_back(
                released,
                released_after,
                error.cleanup_failures@,
            )
        }
}

/// What came of a start, by the calls that were made for it.
pub open spec fn starts(
    input: StartupInput,
    told: Seq<StartupCall>,
    told_after: Seq<StartupCall>,
    released: Seq<Released>,
    released_after: Seq<Released>,
    result: Result<StartedRuntime, BootstrapError>,
) -> bool {
    exists|records: Seq<StartupRecord>|
        {
            &&& told_after == told + StartupRecord::calls(records)
            &&& #[trigger] on_start(input, records, released, released_after, result)
        }
}

/// What is known before the step at a place.
pub open spec fn known_at(facts: StartupFacts, place: int) -> bool {
    &&& facts.run_directory is Some == (place >= 2)
    &&& facts.process is Some == (place >= 13)
    &&& facts.server is Some == (place >= 17)
    &&& facts.locator_path is Some == (place >= 21)
}

/// Enough is known at a place for the step there.
proof fn ready_at(facts: StartupFacts, place: int)
    requires
        0 <= place < startup_steps().len(),
        known_at(facts, place),
    ensures
        facts.ready_for(startup_steps()[place]),
{
}

/// A step that succeeds adds what is known at the next place.
proof fn known_next(input: StartupInput, facts: StartupFacts, record: StartupRecord, place: int)
    requires
        0 <= place < startup_steps().len(),
        known_at(facts, place),
        record.serves(input, startup_steps()[place], facts),
        record.succeeded(),
    ensures
        known_at(facts.after(record), place + 1),
{
}

/// Sets a limit of the server.
fn limit<R: StartupResources>(
    resources: &mut R,
    step: StartupStep,
    name: &'static str,
    value: u64,
) -> (taken: (Result<(), BootstrapError>, Ghost<StartupRecord>))
    requires
        step == StartupStep::StallLimit || step == StartupStep::DrainLimit || step
            == StartupStep::SizeLimit,
    ensures
        final(resources).given_back() == old(resources).given_back(),
        ({
            let record = taken.1@;
            &&& record is Called
            &&& final(resources).told() == old(resources).told().push(record->call)
            &&& record.step() == step
            &&& record->call is Limited
            &&& record->call->name == name
            &&& record->call->value == value
            &&& record.succeeded() == (taken.0 is Ok)
            &&& taken.0 matches Err(error) ==> record.errs(error)
        }),
{
    let limited = resources.set_limit(name, value);
    let ghost record = StartupRecord::Called {
        step,
        call: StartupCall::Limited { name, value, limited },
    };
    let result = match limited {
        Ok(_) => Ok(()),
        Err(message) => Err(step.error(StartupFault::Plain { message })),
    };
    (result, Ghost(record))
}

/// Takes one step.
fn take_step<R: StartupResources>(
    resources: &mut R,
    input: &StartupInput,
    step: StartupStep,
    facts: &mut StartupFacts,
) -> (taken: (Result<(), BootstrapError>, Ghost<StartupRecord>))
    requires
        old(facts).ready_for(step),
    ensures
        final(resources).given_back() == old(resources).given_back(),
        ({
            let record = taken.1@;
            &&& final(resources).told() == match record {
                StartupRecord::Called { call, .. } => old(resources).told().push(call),
                _ => old(resources).told(),
            }
            &&& record.serves(*input, step, *old(facts))
            &&& record.succeeded() == (taken.0 is Ok)
            &&& taken.0 matches Err(error) ==> record.errs(error)
            &&& *final(facts) == old(facts).after(record)
        }),
{
    match step {
        StartupStep::StallLimit => {
            match duration_millis(input.config.writer_deadlines.writer_stall_timeout_ms) {
                Ok(value) => limit(resources, step, "writer_stall_timeout_ms", value),
                Err(error) => (Err(error), Ghost(StartupRecord::Overflowed { step })),
            }
        },
        StartupStep::DrainLimit => {
            match duration_millis(input.config.writer_deadlines.shutdown_drain_timeout_ms) {
                Ok(value) => limit(resources, step, "shutdown_drain_timeout_ms", value),
                Err(error) => (Err(error), Ghost(StartupRecord::Overflowed { step })),
            }
        },
        StartupStep::SizeLimit => {
            match input.config.max_run_bytes {
                Some(value) => limit(resources, step, "max_run_bytes", value),
                None => (Ok(()), Ghost(StartupRecord::Unbounded { step })),
            }
        },
        StartupStep::PrepareArchive => {
            let directory = resources.prepare_archive(&input.production_root, input.run_id);
            let ghost record = StartupRecord::Called {
                step,
                call: StartupCall::Prepared {
                    production_root: input.production_root,
                    run_id: input.run_id,
                    directory,
                },
            };
            match directory {
                Ok(path) => {
                    facts.run_directory = Some(path);
                    (Ok(()), Ghost(record))
                },
                Err(fault) => (Err(step.error(fault)), Ghost(record)),
            }
        },
        StartupStep::ProcessIdentity => {
            let process = resources.identify_process();
            let ghost record = StartupRecord::Called {
                step,
                call: StartupCall::Identified { process },
            };
            match process {
                Ok(process) => {
                    facts.process = Some(process);
                    (Ok(()), Ghost(record))
                },
                Err(fault) => (Err(step.error(fault)), Ghost(record)),
            }
        },
        StartupStep::StartServer => {
            let request = facts.server_request(input);
            let server = resources.start_server(&request);
            let ghost record = StartupRecord::Called {
                step,
                call: StartupCall::Served { request, server },
            };
            match server {
                Ok(server) => {
                    facts.server = Some(server);
                    (Ok(()), Ghost(record))
                },
                Err(fault) => (Err(step.error(fault)), Ghost(record)),
            }
        },
        StartupStep::Publish => {
            let entry = facts.entry(input);
            let locator_path = resources.publish(&entry);
            let ghost record = StartupRecord::Called {
                step,
                call: StartupCall::Published { entry, locator_path },
            };
            match locator_path {
                Ok(path) => {
                    facts.locator_path = Some(path);
                    (Ok(()), Ghost(record))
                },
                Err(fault) => (Err(step.error(fault)), Ghost(record)),
            }
        },
        _ => {
            let request = facts.request(input, step);
            let answer = resources.carry_out(&request);
            let ghost record = StartupRecord::Called {
                step,
                call: StartupCall::Carried { request, answer },
            };
            match answer {
                Ok(_) => (Ok(()), Ghost(record)),
                Err(fault) => (Err(step.error(fault)), Ghost(record)),
            }
        },
    }
}

/// Starts a runtime. Where a step fails, everything that is held is given back.
pub fn bootstrap_root<R: StartupResources>(resources: &mut R, input: &StartupInput) -> (result:
    Result<StartedRuntime, BootstrapError>)
    ensures
        starts(
            *input,
            old(resources).told(),
            final(resources).told(),
            old(resources).given_back(),
            final(resources).given_back(),
            result,
        ),
{
    let steps = list_startup_steps();
    let mut holdings = StartupHoldings {
        layout: false,
        lease: false,
        store: false,
        writer: false,
        server: false,
        publication: false,
    };
    let mut facts = StartupFacts {
        run_directory: None,
        process: None,
        server: None,
        locator_path: None,
    };
    let ghost before = resources.told();
    let ghost mut records: Seq<StartupRecord> = Seq::empty();
    let mut place: usize = 0;
    assert(before =~= before + StartupRecord::calls(records));
    while place < steps.len()
        invariant
            place <= steps@.len(),
            steps@ =~= startup_steps(),
            before == old(resources).told(),
            resources.told() == before + StartupRecord::calls(records),
            resources.given_back() == old(resources).given_back(),
            records.len() == place,
            in_order(*input, records),
            forall|i: int| 0 <= i < place ==> (#[trigger] records[i]).succeeded(),
            holdings == StartupHoldings::held(records),
            facts == StartupFacts::known(records),
            known_at(facts, place as int),
        decreases steps.len() - place,
    {
        let step = steps[place];
        let ghost earlier = records;
        let ghost known = facts;
        proof {
            ready_at(facts, place as int);
        }
        let (taken, Ghost(record)) = take_step(resources, input, step, &mut facts);
        proof {
            records = earlier.push(record);
            StartupRecord::one_more(earlier, record);
            assert(resources.told() =~= before + StartupRecord::calls(records));
            assert forall|i: int| 0 <= i < records.len() implies (#[trigger] records[i]).serves(
                *input,
                startup_steps()[i],
                StartupFacts::known(records.take(i)),
            ) by {
                if i < place {
                    assert(records.take(i) =~= earlier.take(i));
                    assert(records[i] == earlier[i]);
                } else {
                    assert(records.take(i) =~= earlier);
                }
            }
            assert forall|i: int| 0 <= i < records.len() - 1 implies (
            #[trigger] records[i]).succeeded() by {
                assert(records[i] == earlier[i]);
            }
            assert(records.last() == record);
            if taken is Ok {
                known_next(*input, known, record, place as int);
            }
        }
        holdings.note(step, taken.is_ok());
        if let Err(error) = taken {
            let ghost told = error;
            assert(records.last().errs(told));
            let failures = clean_up(resources, holdings);
            let result = Err(error.with_cleanup_failures(failures));
            assert(on_start(
                *input,
                records,
                old(resources).given_back(),
                resources.given_back(),
                result,
            ));
            return result;
        }
        place = place + 1;
    }
    let result = Ok(
        StartedRuntime {
            run_id: input.run_id,
            run_directory: facts.run_directory.unwrap(),
            server: facts.server.unwrap(),
            locator_path: facts.locator_path.unwrap(),
        },
    );
    assert(on_start(
        *input,
        records,
        old(resources).given_back(),
        resources.given_back(),
        result,
    ));
    result
}

/// Shuts a runtime down without waiting for its end: everything is given back.
pub fn shut_down<R: StartupResources>(resources: &mut R) -> (result: Result<
    (),
    DiagnosticShutdownError,
>)
    ensures
        final(resources).told() == old(resources).told(),
        StartupHoldings::everything().given_back(
            old(resources).given_back(),
            final(resources).given_back(),
            match result {
                Ok(_) => Seq::empty(),
                Err(error) => error.spec_failures(),
            },
        ),
        result matches Err(error) ==> error.spec_failures().len() > 0,
{
    let failures = clean_up(
        resources,
        StartupHoldings {
            layout: true,
            lease: true,
            store: false,
            writer: true,
            server: true,
            publication: true,
        },
    );
    assert(failures@.len() == 0 ==> failures@ =~= Seq::empty());
    shutdown_result(failures)
}

/// Each checkpoint is shown the run, and what the start has come to: the run's directory from the
/// prepared archive on, the server's address from the listener on, and the locator from the
/// publication on.
pub proof fn checkpoints_see_the_start_grow(
    input: StartupInput,
    records: Seq<StartupRecord>,
    place: int,
    phase: BootstrapPhase,
)
    requires
        in_order(input, records),
        0 <= place < records.len(),
        startup_steps()[place] == StartupStep::Checkpoint(phase),
    ensures
        records[place] is Called,
        records[place]->call is Carried,
        records[place]->call->Carried_request matches StartupRequest::Reached {
            phase: reached,
            snapshot,
        } && {
            &&& reached == phase
            &&& snapshot.run_id == input.run_id
            &&& snapshot.run_directory is Some <==> phase !is RunIdentityAllocated
            &&& snapshot.connect_addr is Some <==> (phase is ListenerReady
                || phase is RegistryPublished || phase is ReadyResult)
            &&& snapshot.locator_path is Some <==> (phase is RegistryPublished
                || phase is ReadyResult)
        },
{
    known_before(input, records, place);
    assert(records[place].serves(
        input,
        startup_steps()[place],
        StartupFacts::known(records.take(place)),
    ));
    phases_in_place(place, phase);
}

/// Where a phase is reached.
proof fn phases_in_place(place: int, phase: BootstrapPhase)
    requires
        0 <= place < startup_steps().len(),
        startup_steps()[place] == StartupStep::Checkpoint(phase),
    ensures
        place >= 2 <==> phase !is RunIdentityAllocated,
        place >= 17 <==> (phase is ListenerReady || phase is RegistryPublished
            || phase is ReadyResult),
        place >= 21 <==> (phase is RegistryPublished || phase is ReadyResult),
{
}

/// What is known before each step.
proof fn known_before(input: StartupInput, records: Seq<StartupRecord>, place: int)
    requires
        in_order(input, records),
        0 <= place < records.len(),
    ensures
        known_at(StartupFacts::known(records.take(place)), place),
    decreases place,
{
    if place > 0 {
        known_before(input, records, place - 1);
        let earlier = records.take(place - 1);
        let record = records[place - 1];
        assert(records.take(place) =~= earlier.push(record));
        StartupRecord::one_more(earlier, record);
        assert(record.succeeded());
        known_next(input, StartupFacts::known(earlier), record, place - 1);
    }
}

/// A start that fails gives back all that it holds: each thing once, in the order of a shutdown,
/// whatever went wrong with the others.
pub proof fn failed_start_gives_everything_back(
    input: StartupInput,
    records: Seq<StartupRecord>,
    released: Seq<Released>,
    released_after: Seq<Released>,
    result: Result<StartedRuntime, BootstrapError>,
)
    requires
        on_start(input, records, released, released_after, result),
        result is Err,
    ensures
        released_after.len() == released.len() + StartupHoldings::held(records).releases().len(),
        forall|i: int|
            0 <= i < StartupHoldings::held(records).releases().len()
                ==> (#[trigger] released_after[released.len() + i]).release
                == StartupHoldings::held(records).releases()[i],
        views(result->Err_0.cleanup_failures@) == Released::all_failures(
            released_after.skip(released.len() as int),
        ),
{
    let given = released_after.skip(released.len() as int);
    assert forall|i: int| 0 <= i < StartupHoldings::held(records).releases().len() implies (
    #[trigger] released_after[released.len() + i]).release == StartupHoldings::held(
        records,
    ).releases()[i] by {
        assert(given[i] == released_after[released.len() + i]);
    }
}

/// A start that fails before the archive is leased has nothing to give back, and one that fails
/// while it publishes still holds the lease, the writer and the server.
pub proof fn holdings_follow_the_steps(input: StartupInput, records: Seq<StartupRecord>)
    requires
        in_order(input, records),
        records.len() > 0,
    ensures
        records.len() <= 3 ==> StartupHoldings::held(records).releases().len() == 0,
        records.len() == 21 && !records.last().succeeded() ==> StartupHoldings::held(records) == (
        StartupHoldings { publication: false, ..StartupHoldings::everything() }),
        records.len() == startup_steps().len() && records.last().succeeded()
            ==> StartupHoldings::held(records) == StartupHoldings::everything(),
{
    follow(input, records, records.len() as int);
    assert(records.take(records.len() as int) =~= records);
    assert(records[records.len() - 1] == records.last());
}

/// What is held after the first `count` steps.
#[verifier::spinoff_prover]
proof fn follow(input: StartupInput, records: Seq<StartupRecord>, count: int)
    requires
        in_order(input, records),
        0 <= count <= records.len(),
    ensures
        StartupHoldings::held(records.take(count)) == held_by(
            count,
            count == 0 || records[count - 1].succeeded(),
        ),
    decreases count,
{
    if count > 0 {
        follow(input, records, count - 1);
        let taken = records.take(count);
        assert(taken.drop_last() =~= records.take(count - 1));
        assert(taken.last() == records[count - 1]);
        assert(records[count - 1].serves(
            input,
            startup_steps()[count - 1],
            StartupFacts::known(records.take(count - 1)),
        ));
        if count > 1 {
            assert(records[count - 2].succeeded());
        }
        assert(taken.last().step() == startup_steps()[count - 1]);
        hold_next(count, records[count - 1].succeeded());
    }
}

/// One more step.
proof fn hold_next(count: int, succeeded: bool)
    requires
        0 < count <= startup_steps().len(),
    ensures
        held_by(count - 1, true).after(startup_steps()[count - 1], succeeded) == held_by(
            count,
            succeeded,
        ),
{
}

/// What is held after `count` steps, of which all but the last have succeeded.
spec fn held_by(count: int, succeeded: bool) -> StartupHoldings {
    let through = if succeeded {
        count
    } else {
        count - 1
    };
    StartupHoldings {
        layout: through >= 2,
        lease: through >= 4,
        store: 6 <= through < 10 && count < 10,
        writer: through >= 10,
        server: through >= 17,
        publication: through >= 21,
    }
}

/// What a start asks for is of this run and of what was found out before: the store, the writer and
/// the routes are of the run, what is in a directory is in the run's own, the quota and the
/// deadlines are those that were configured, the server is asked for where it was configured to be
/// and in this process, and what is published is where the server came to be.
pub proof fn starts_ask_for_their_own_run(
    input: StartupInput,
    record: StartupRecord,
    step: StartupStep,
    facts: StartupFacts,
)
    requires
        record.serves(input, step, facts),
        facts.ready_for(step),
        record is Called,
    ensures
        ({
            let call = record->call;
            let asked = call->Carried_request;
            let config = input.config;
            &&& step is PrepareArchive ==> call is Prepared && call->run_id == input.run_id
                && call->production_root == input.production_root
            &&& step is AcquireLease ==> call is Carried && asked is AcquireLease && Some(
                asked->AcquireLease_run_directory,
            ) == facts.run_directory
            &&& step is CreateStore ==> call is Carried && asked is CreateStore && Some(
                asked->CreateStore_run_directory,
            ) == facts.run_directory && asked->CreateStore_run_id == input.run_id
                && asked->started_at == config.started_at && asked->configuration_identity
                == config.configuration_identity
            &&& step is ConfigureQuota ==> call is Carried && asked is ConfigureQuota && Some(
                asked->ConfigureQuota_run_directory,
            ) == facts.run_directory && asked->max_run_bytes == config.max_run_bytes
            &&& step is MeasureQuota ==> call is Carried && asked is MeasureQuota
            &&& step is StartWriter ==> call is Carried && asked is StartWriter
                && asked->StartWriter_run_id == input.run_id && asked->deadlines
                == config.writer_deadlines
            &&& step is AssembleRoutes ==> call is Carried && asked is AssembleRoutes
                && asked->AssembleRoutes_run_id == input.run_id && Some(
                asked->AssembleRoutes_run_directory,
            ) == facts.run_directory
            &&& step is StartServer ==> (call matches StartupCall::Served { request, .. } && {
                &&& request.run_id == input.run_id
                &&& Some(request.process) == facts.process
                &&& request.bind_host == config.bind_host
                &&& request.port == config.port
                &&& request.advertise_url == config.advertise_url
            })
            &&& step is BindEndpoint ==> call is Carried && asked is BindEndpoint
                && asked->bind_host == facts.server->0.bind_host && asked->port
                == facts.server->0.port
            &&& step is DescribeEntry ==> call is Carried && asked is DescribeEntry && {
                let entry = asked->DescribeEntry_entry;
                &&& entry.run_id == input.run_id
                &&& Some(entry.run_directory) == facts.run_directory
                &&& entry.started_at == config.started_at
            }
            &&& step is Publish ==> (call matches StartupCall::Published { entry, .. } && {
                &&& entry.run_id == input.run_id
                &&& Some(entry.run_directory) == facts.run_directory
                &&& entry.owner == facts.server->0.owner
                &&& entry.bind_host == facts.server->0.bind_host
                &&& entry.port == facts.server->0.port
                &&& entry.advertise_url == facts.server->0.advertise_url
                &&& entry.started_at == config.started_at
            })
            &&& step matches StartupStep::Checkpoint(phase) ==> call is Carried && asked is Reached
                && asked->phase == phase && asked->snapshot.run_id == input.run_id && {
                let shown = asked->snapshot;
                &&& shown.run_directory == facts.run_directory
                &&& shown.locator_path == facts.locator_path
                &&& shown.connect_addr is Some <==> facts.server is Some
                &&& shown.connect_addr is Some ==> shown.connect_addr->0
                    == facts.server->0.connect_addr
            }
        }),
{
}

/// What a server tells of itself is bounded by what was configured, under the name of the bound: a
/// deadline that does not fit is an overflow, and a size that is not bounded is not told.
pub proof fn limits_are_those_that_were_configured(
    input: StartupInput,
    record: StartupRecord,
    step: StartupStep,
    facts: StartupFacts,
)
    requires
        record.serves(input, step, facts),
        step is StallLimit || step is DrainLimit || step is SizeLimit,
    ensures
        ({
            let deadlines = input.config.writer_deadlines;
            let configured = if step is StallLimit {
                Some(deadlines.writer_stall_timeout_ms as int)
            } else if step is DrainLimit {
                Some(deadlines.shutdown_drain_timeout_ms as int)
            } else if input.config.max_run_bytes is Some {
                Some(input.config.max_run_bytes->0 as int)
            } else {
                None
            };
            &&& record is Unbounded <==> configured is None
            &&& record is Overflowed <==> configured is Some && configured->0 > u64::MAX
            &&& record is Called ==> (record->call matches StartupCall::Limited { name, value, .. }
                && {
                &&& Some(value as int) == configured
                &&& step is StallLimit ==> name@ == "writer_stall_timeout_ms"@
                &&& step is DrainLimit ==> name@ == "shutdown_drain_timeout_ms"@
                &&& step is SizeLimit ==> name@ == "max_run_bytes"@
            })
        }),
{
}

/// A step that succeeds adds what it gave to what is held, and nothing else: the writer takes the
/// store over, whether it starts or not. A step that fails adds nothing.
pub proof fn steps_hold_what_they_gave(held: StartupHoldings, step: StartupStep, succeeded: bool)
    ensures
        ({
            let after = held.after(step, succeeded);
            &&& after.layout <==> held.layout || (succeeded && step is PrepareArchive)
            &&& after.lease <==> held.lease || (succeeded && step is AcquireLease)
            &&& after.store <==> step !is StartWriter && (held.store || (succeeded && step
                is CreateStore))
            &&& after.writer <==> held.writer || (succeeded && step is StartWriter)
            &&& after.server <==> held.server || (succeeded && step is StartServer)
            &&& after.publication <==> held.publication || (succeeded && step is Publish)
        }),
{
}

/// A checkpoint comes after every step of its phase and before every step of a later one: where a
/// step works toward a phase, the checkpoint of that phase is behind it, and no checkpoint of a
/// later phase is before it.
pub proof fn checkpoints_close_their_phase(place: int, other: int, phase: BootstrapPhase)
    requires
        0 <= place < startup_steps().len(),
        0 <= other < startup_steps().len(),
        startup_steps()[place] == StartupStep::Checkpoint(phase),
        startup_steps()[other] !is Checkpoint,
        startup_steps()[other].phase() == phase,
    ensures
        other < place,
{
    let steps = startup_steps();
    assert(steps.len() == 23);
}

/// What is given back is what is held, and nothing else.
pub proof fn what_is_held_is_given_back(held: StartupHoldings, release: Release)
    ensures
        held.releases().contains(release) <==> match release {
            Release::Unpublish => held.publication,
            Release::StopServer => held.server,
            Release::DropStore => held.store,
            Release::ReleaseLease => held.lease,
            _ => held.writer,
        },
{
    let sealing = part(held.writer, seq![Release::SealIngress], release);
    let unpublishing = part(held.publication, seq![Release::Unpublish], release);
    let stopping = part(held.server, seq![Release::StopServer], release);
    let writing = part(held.writer, seq![Release::DropHub, Release::StopWriter], release);
    let storing = part(held.store, seq![Release::DropStore], release);
    let admitting = part(held.writer, seq![Release::DropQuota, Release::DropIngress], release);
    let leasing = part(held.lease, seq![Release::ReleaseLease], release);
    joined(sealing, unpublishing, release);
    joined(sealing + unpublishing, stopping, release);
    joined(sealing + unpublishing + stopping, writing, release);
    joined(sealing + unpublishing + stopping + writing, storing, release);
    joined(sealing + unpublishing + stopping + writing + storing, admitting, release);
    joined(sealing + unpublishing + stopping + writing + storing + admitting, leasing, release);
    assert(held.releases() == sealing + unpublishing + stopping + writing + storing + admitting
        + leasing);
}

/// One or two things that are given back, where they are held.
proof fn part(present: bool, things: Seq<Release>, release: Release) -> (held: Seq<Release>)
    requires
        1 <= things.len() <= 2,
    ensures
        held == if present {
            things
        } else {
            Seq::empty()
        },
        held.contains(release) <==> present && (things[0] == release || things[things.len() - 1]
            == release),
{
    let held = if present {
        things
    } else {
        Seq::empty()
    };
    if present && things[0] == release {
        assert(held[0] == release);
    }
    if present && things[things.len() - 1] == release {
        assert(held[things.len() - 1] == release);
    }
    held
}

/// What a writer takes in is sealed before anything else is given back, and the lease is given back
/// after everything else.
pub proof fn leases_are_given_back_last(held: StartupHoldings)
    ensures
        held.writer ==> held.releases()[0] == Release::SealIngress,
        held.lease ==> held.releases().last() == Release::ReleaseLease,
        held.server && held.writer ==> exists|i: int, j: int|
            0 <= i < j < held.releases().len() && #[trigger] held.releases()[i]
                == Release::StopServer && #[trigger] held.releases()[j] == Release::StopWriter,
{
    let none = Seq::<Release>::empty();
    let sealing = if held.writer {
        seq![Release::SealIngress]
    } else {
        none
    };
    let unpublishing = if held.publication {
        seq![Release::Unpublish]
    } else {
        none
    };
    let stopping = if held.server {
        seq![Release::StopServer]
    } else {
        none
    };
    let before = sealing + unpublishing;
    let all = held.releases();
    if held.writer {
        assert(all[0] == sealing[0]);
    }
    if held.server && held.writer {
        let at = before.len() as int;
        assert(stopping[0] == Release::StopServer);
        assert((before + stopping)[at] == Release::StopServer);
        assert(all[at] == Release::StopServer);
        assert(all[at + 2] == Release::StopWriter);
    }
}

/// What is in two sequences together is in one of them.
proof fn joined(left: Seq<Release>, right: Seq<Release>, release: Release)
    ensures
        (left + right).contains(release) <==> left.contains(release) || right.contains(release),
{
    let both = left + right;
    if left.contains(release) {
        let i = choose|i: int| 0 <= i < left.len() && left[i] == release;
        assert(both[i] == release);
    }
    if right.contains(release) {
        let i = choose|i: int| 0 <= i < right.len() && right[i] == release;
        assert(both[left.len() + i] == release);
    }
}

/// A start fails with what its last step failed with, in the phase that the step works toward: with
/// the code and the words that came, where there were both, else under the code of the step.
pub proof fn starts_fail_in_the_phase_they_were_in(
    step: StartupStep,
    fault: StartupFault,
    error: BootstrapError,
)
    requires
        step.errs(fault, error),
        fault !is Stopped,
    ensures
        error.cleanup_failures@.len() == 0,
        step is PrepareArchive ==> error.phase is ArchivePrepared,
        step is AcquireLease ==> error.phase is ActiveLeaseAcquired,
        step is CreateStore ==> error.phase is InitialStoreReady,
        step is ConfigureQuota || step is MeasureQuota || step is StartWriter ==> error.phase
            is WriterSupervisorReady,
        step is AssembleRoutes || step is ProcessIdentity || step is StallLimit || step
            is DrainLimit || step is SizeLimit || step is StartServer ==> error.phase
            is ListenerReady,
        step is BindEndpoint || step is DescribeEntry || step is Publish ==> error.phase
            is RegistryPublished,
        step matches StartupStep::Checkpoint(phase) ==> error.phase == phase,
        fault matches StartupFault::Coded { code, message } ==> error.code@ == code@
            && error.message@ == message@,
        fault matches StartupFault::Plain { message } ==> error.message@ == message@ && {
            &&& step is AssembleRoutes ==> error.code@ == "bootstrap.route_assembly_failed"@
            &&& step is ProcessIdentity ==> error.code@
                == "bootstrap.process_identity_unavailable"@
            &&& step is StartWriter ==> error.code@ == "bootstrap.writer_thread_spawn_failed"@
            &&& step is StallLimit || step is DrainLimit || step is SizeLimit ==> error.code@
                == "bootstrap.operational_limits_invalid"@
        },
        fault matches StartupFault::Quota { quota } ==> error.code@ == quota.spec_code()
            && error.message@ == quota.spec_message(),
        fault matches StartupFault::Server { message, .. } ==> error.message@ == message@,
        fault matches StartupFault::QuotaConfiguration { message, .. } ==> error.message@
            == message@,
{
}

/// What could not be given back is told of its part: the publication of the registry, the server of
/// itself, and all else of the writer; with the code that came, else under that of the part.
pub proof fn failed_releases_name_their_part(released: Released)
    ensures
        released.answer is Done <==> released.answer !is Failed && released.answer !is Told,
        released.answer is Done ==> released.failures().len() == 0,
        released.answer matches ReleaseAnswer::Failed { code, message } ==> {
            let failure = released.failures()[0];
            &&& released.failures().len() == 1
            &&& failure.message == message@
            &&& code matches Some(given) ==> failure.code == given@
            &&& failure.component == (if released.release is Unpublish {
                "registry"
            } else if released.release is StopServer {
                "server"
            } else {
                "writer"
            })
            &&& code is None && released.release is StopServer ==> failure.code
                == "server_shutdown_failed"@
            &&& code is None && released.release is SealIngress ==> failure.code
                == "writer_ingress_seal_failed"@
        },
        released.answer matches ReleaseAnswer::Told { failures } ==> released.failures().len()
            == failures@.len() && forall|i: int|
            0 <= i < failures@.len() ==> (#[trigger] released.failures()[i]).code
                == failures@[i].code@ && released.failures()[i].message == failures@[i].message@
                && released.failures()[i].component == failures@[i].component,
{
}

/// A runtime that runs holds its lease, its writer, its server and what it has published, and no
/// store of its own: the writer has it.
pub proof fn running_runtimes_hold_all_but_the_store()
    ensures
        ({
            let held = StartupHoldings::everything();
            let nothing = StartupHoldings::nothing();
            &&& held.layout && held.lease && held.writer && held.server && held.publication
            &&& !held.store
            &&& !nothing.layout && !nothing.lease && !nothing.store && !nothing.writer
                && !nothing.server && !nothing.publication
            &&& nothing.releases().len() == 0
        }),
{
}

} // verus!
