//! The writer of a run: it takes events out of the ingress, commits them in batches, and ends when
//! it is told to and everything is committed.
use crate::bootstrap::{DiagnosticCoreFailure, QuotaError};
use crate::shutdown::FinalProductionOutcome;
use vstd::prelude::*;
use vstd::string::StringExecFns;

verus! {

/// What the writer is told to do.
#[derive(Debug, PartialEq, Eq)]
pub enum WriterCommand {
    /// Commits what is left, and records how the production ended.
    Finalize { ended_at: String, outcome: FinalProductionOutcome },
    /// Commits what is left.
    Abort,
    Close,
}

/// What a look for a command gives.
#[derive(Debug, PartialEq, Eq)]
pub enum CommandPoll {
    Command { command: WriterCommand },
    Empty,
    /// No one can give a command any more.
    Disconnected,
}

/// Why the writer drains.
#[derive(Debug, PartialEq, Eq)]
pub enum WriterDrainIntent {
    Finalize { ended_at: String, outcome: FinalProductionOutcome },
    Abort,
}

/// A failure of the store: its code and its text.
#[derive(Debug, PartialEq, Eq)]
pub struct StoreFault {
    pub code: String,
    pub message: String,
}

/// A failure that the supervisor of the writer reports.
#[derive(Debug, PartialEq, Eq)]
pub struct SupervisedFailure {
    pub component: &'static str,
    pub stage: &'static str,
    pub code: String,
}

/// Why progress is observed.
#[derive(Clone, Copy, Debug, PartialEq, Eq, Structural)]
pub enum ObservedFor {
    /// The writer is about to be ready.
    Readiness,
    /// The writer begins to drain.
    Draining,
    /// A turn of the writer ends.
    Turn,
}

/// Where a batch comes from.
#[derive(Clone, Copy, Debug, PartialEq, Eq, Structural)]
pub enum BatchOf {
    /// An event has filled it.
    Event,
    /// Its time has come, or the writer drains.
    Turn,
}

/// What the writer waits for.
#[derive(Debug, PartialEq, Eq)]
pub enum WriterState {
    Status { why: ObservedFor },
    Observation { why: ObservedFor, uncommitted: u64 },
    Recording { why: ObservedFor, uncommitted: u64 },
    Readiness,
    IngressFailure,
    QuotaFailure,
    Command,
    ShutdownBegin,
    ShutdownRecording,
    Dequeue,
    Push,
    Precheck { batch: BatchOf },
    Commit { batch: BatchOf },
    Measurement { batch: BatchOf },
    Trigger,
    Pending,
    Parked,
    Finalization,
    FinalMeasurement { watermark: u64 },
    FinalReply,
    Close,
    /// A failure is told to the one who asked.
    FailureReply { failure: DiagnosticCoreFailure },
    Checkpoint,
    CheckpointMeasurement,
    Done,
}

/// What the writer hears.
#[derive(Debug, PartialEq, Eq)]
pub enum WriterEvent {
    /// How many events are accepted and not committed.
    Status { uncommitted: Result<u64, String> },
    Observed { supervised: Result<Option<SupervisedFailure>, String> },
    /// The progress was recorded.
    Recorded { recorded: bool },
    /// Someone hears that the writer is ready.
    Signalled { heard: bool },
    /// The code of a failure of the ingress, if there is one.
    IngressFailure { ingress_code: Option<String> },
    /// The code of a failure of the quota, if there is one.
    QuotaFailure { quota_code: Option<String> },
    Polled { poll: CommandPoll },
    ShutdownBegun { begun: Result<(), String> },
    /// There was an event.
    Dequeued { dequeued: Result<bool, String> },
    /// The size of the batch that an event has filled.
    Pushed { filled: Result<Option<usize>, String> },
    Quota { quota: Result<(), QuotaError> },
    Store { stored: Result<(), StoreFault> },
    /// The size of the batch whose time has come.
    Triggered { triggered: Result<Option<usize>, String> },
    Pending { pending: usize },
    Woken,
    Finalized { finalized: Result<u64, StoreFault> },
    /// Someone hears the reply.
    Replied { heard: bool },
    /// A command, unless no one can give one any more.
    Closing { closing: Option<WriterCommand> },
}

/// What is to be done next.
#[derive(Debug, PartialEq, Eq)]
pub enum WriterAction {
    ReadStatus,
    ObserveProgress { uncommitted: u64 },
    RecordProgress,
    SignalReady,
    ReadIngressFailure,
    ReadQuotaFailure,
    PollCommand,
    BeginShutdown,
    Dequeue,
    Push,
    Precheck { growth: u64 },
    CommitBatch,
    Measure,
    /// Takes the batch that is under way.
    Flush,
    /// Takes the batch that is under way, where its time has come.
    Poll,
    CountPending,
    Park,
    FinalizeRun { ended_at: String, outcome: FinalProductionOutcome },
    Reply { watermark: u64 },
    ReplyFailure { failure: DiagnosticCoreFailure },
    WaitForCommand,
    Checkpoint,
    Finish { result: Result<(), DiagnosticCoreFailure> },
}

/// The writer of a run.
#[derive(Debug, PartialEq, Eq)]
pub struct WriterLoop {
    pub state: WriterState,
    pub drain: Option<WriterDrainIntent>,
    /// Something was done in this turn.
    pub worked: bool,
}

/// The size of a batch as the growth of a run.
pub open spec fn growth(bytes: usize) -> u64 {
    if bytes > u64::MAX {
        u64::MAX
    } else {
        bytes as u64
    }
}

fn growth_of(bytes: usize) -> (grown: u64)
    ensures
        grown == growth(bytes),
{
    bytes as u64
}

impl WriterLoop {
    /// The writer at the beginning.
    pub open spec fn begun(self, action: WriterAction) -> bool {
        &&& self.state == WriterState::Status { why: ObservedFor::Readiness }
        &&& self.drain is None
        &&& !self.worked
        &&& action == WriterAction::ReadStatus
    }

    pub fn begin() -> (started: (Self, WriterAction))
        ensures
            started.0.begun(started.1),
    {
        (
            WriterLoop {
                state: WriterState::Status { why: ObservedFor::Readiness },
                drain: None,
                worked: false,
            },
            WriterAction::ReadStatus,
        )
    }

    /// The writer waits for an event of this kind.
    pub open spec fn awaits(self, event: WriterEvent) -> bool {
        match self.state {
            WriterState::Status { .. } => event is Status,
            WriterState::Observation { .. } => event is Observed,
            WriterState::Recording { .. } => event is Recorded,
            WriterState::Readiness => event is Signalled,
            WriterState::IngressFailure => event is IngressFailure,
            WriterState::QuotaFailure => event is QuotaFailure,
            WriterState::Command => event is Polled,
            WriterState::ShutdownBegin => event is ShutdownBegun,
            WriterState::ShutdownRecording => event is Recorded,
            WriterState::Dequeue => event is Dequeued,
            WriterState::Push => event is Pushed,
            WriterState::Precheck { .. } => event is Quota,
            WriterState::Commit { .. } => event is Store,
            WriterState::Measurement { .. } => event is Quota,
            WriterState::Trigger => event is Triggered,
            WriterState::Pending => event is Pending,
            WriterState::Parked => event is Woken,
            WriterState::Finalization => event is Finalized,
            WriterState::FinalMeasurement { .. } => event is Quota,
            WriterState::FinalReply => event is Replied,
            WriterState::Close => event is Closing,
            WriterState::FailureReply { .. } => event is Replied,
            WriterState::Checkpoint => event is Store,
            WriterState::CheckpointMeasurement => event is Quota,
            WriterState::Done => false,
        }
    }

    /// The writer waits for something else, and nothing else has changed.
    pub open spec fn at(self, state: WriterState) -> Self {
        WriterLoop { state, ..self }
    }

    /// The writer ends with a failure.
    pub open spec fn fails(
        self,
        after: Self,
        action: WriterAction,
        component: &'static str,
        stage: &'static str,
        code: Seq<char>,
        message: Seq<char>,
    ) -> bool {
        &&& after == self.at(WriterState::Done)
        &&& action matches WriterAction::Finish { result: Err(failure) }
        &&& failure.tells(component, stage, code, message)
    }

    /// A failure is told to the one who asked, before the writer ends with it.
    pub open spec fn fails_loudly(
        self,
        after: Self,
        action: WriterAction,
        component: &'static str,
        stage: &'static str,
        code: Seq<char>,
        message: Seq<char>,
    ) -> bool {
        &&& action matches WriterAction::ReplyFailure { failure }
        &&& failure.tells(component, stage, code, message)
        &&& after == self.at(WriterState::FailureReply { failure })
    }

    /// The writer begins a turn.
    pub open spec fn turns(self, after: Self, action: WriterAction) -> bool {
        &&& after == WriterLoop { state: WriterState::IngressFailure, worked: false, ..self }
        &&& action == WriterAction::ReadIngressFailure
    }

    /// The writer looks for an event.
    pub open spec fn dequeues(self, after: Self, action: WriterAction) -> bool {
        after == self.at(WriterState::Dequeue) && action == WriterAction::Dequeue
    }

    /// The writer observes its progress.
    pub open spec fn observes(self, after: Self, action: WriterAction, why: ObservedFor) -> bool {
        after == self.at(WriterState::Status { why }) && action == WriterAction::ReadStatus
    }

    /// The writer commits a batch of this size.
    pub open spec fn commits(
        self,
        after: Self,
        action: WriterAction,
        batch: BatchOf,
        bytes: usize,
    ) -> bool {
        &&& after == WriterLoop { state: WriterState::Precheck { batch }, worked: true, ..self }
        &&& action == WriterAction::Precheck { growth: growth(bytes) }
    }

    /// The writer ends a turn in which it is not done. Where nothing was to do, it waits a while.
    pub open spec fn ends_turn(self, after: Self, action: WriterAction) -> bool {
        if self.worked {
            self.turns(after, action)
        } else {
            after == self.at(WriterState::Parked) && action == WriterAction::Park
        }
    }

    /// The writer begins to drain.
    pub open spec fn drains(
        self,
        after: Self,
        action: WriterAction,
        intent: WriterDrainIntent,
    ) -> bool {
        &&& after == WriterLoop {
            state: WriterState::Status { why: ObservedFor::Draining },
            drain: Some(intent),
            ..self
        }
        &&& action == WriterAction::ReadStatus
    }

    /// What the status, the supervisor and the record of the progress lead to.
    pub open spec fn on_progress(self, event: WriterEvent, after: Self, action: WriterAction) -> bool {
        match (self.state, event) {
            (WriterState::Status { why }, WriterEvent::Status { uncommitted }) => match uncommitted {
                Err(message) => self.fails(
                    after,
                    action,
                    "writer",
                    "progress",
                    "writer_progress_sample_unavailable"@,
                    message@,
                ),
                Ok(uncommitted) => {
                    &&& after == self.at(WriterState::Observation { why, uncommitted })
                    &&& action == WriterAction::ObserveProgress { uncommitted }
                },
            },
            (
                WriterState::Observation { why, uncommitted },
                WriterEvent::Observed { supervised },
            ) => match supervised {
                Err(message) => self.fails(
                    after,
                    action,
                    "writer",
                    "progress",
                    "writer_progress_observation_failed"@,
                    message@,
                ),
                Ok(Some(failure)) => self.fails(
                    after,
                    action,
                    failure.component,
                    failure.stage,
                    failure.code@,
                    "diagnostic writer supervisor reported "@ + failure.code@,
                ),
                Ok(None) => {
                    &&& after == self.at(WriterState::Recording { why, uncommitted })
                    &&& action == WriterAction::RecordProgress
                },
            },
            (WriterState::Recording { why, uncommitted }, WriterEvent::Recorded { recorded }) => if
            !recorded {
                self.fails(
                    after,
                    action,
                    "writer",
                    "progress",
                    "writer_progress_state_poisoned"@,
                    "diagnostic writer progress state is poisoned"@,
                )
            } else {
                match why {
                    ObservedFor::Readiness => {
                        &&& after == self.at(WriterState::Readiness)
                        &&& action == WriterAction::SignalReady
                    },
                    ObservedFor::Draining => {
                        &&& after == self.at(WriterState::ShutdownBegin)
                        &&& action == WriterAction::BeginShutdown
                    },
                    ObservedFor::Turn => if self.drain is Some && uncommitted == 0 {
                        &&& after == self.at(WriterState::Pending)
                        &&& action == WriterAction::CountPending
                    } else {
                        self.ends_turn(after, action)
                    },
                }
            },
            (WriterState::Readiness, WriterEvent::Signalled { heard }) => if heard {
                self.turns(after, action)
            } else {
                self.fails(
                    after,
                    action,
                    "writer",
                    "readiness",
                    "writer_readiness_receiver_dropped"@,
                    "diagnostic writer readiness receiver was dropped"@,
                )
            },
            _ => false,
        }
    }

    /// What failures of the ingress and the quota, and commands, lead to.
    pub open spec fn on_news(self, event: WriterEvent, after: Self, action: WriterAction) -> bool {
        match (self.state, event) {
            (
                WriterState::IngressFailure,
                WriterEvent::IngressFailure { ingress_code },
            ) => match ingress_code {
                Some(code) => self.fails(
                    after,
                    action,
                    "writer",
                    "admission",
                    code@,
                    "mandatory diagnostic ingress failed ["@ + code@ + "]"@,
                ),
                None => {
                    &&& after == self.at(WriterState::QuotaFailure)
                    &&& action == WriterAction::ReadQuotaFailure
                },
            },
            (WriterState::QuotaFailure, WriterEvent::QuotaFailure { quota_code }) => match quota_code {
                Some(code) => self.fails(
                    after,
                    action,
                    "quota",
                    "measurement",
                    code@,
                    "diagnostic Run quota failed ["@ + code@ + "]"@,
                ),
                None => if self.drain is None {
                    &&& after == self.at(WriterState::Command)
                    &&& action == WriterAction::PollCommand
                } else {
                    self.dequeues(after, action)
                },
            },
            (WriterState::Command, WriterEvent::Polled { poll }) => match poll {
                CommandPoll::Empty => self.dequeues(after, action),
                CommandPoll::Disconnected => self.drains(after, action, WriterDrainIntent::Abort),
                CommandPoll::Command { command } => match command {
                    WriterCommand::Finalize { ended_at, outcome } => self.drains(
                        after,
                        action,
                        WriterDrainIntent::Finalize { ended_at, outcome },
                    ),
                    WriterCommand::Abort => self.drains(after, action, WriterDrainIntent::Abort),
                    WriterCommand::Close => self.drains(after, action, WriterDrainIntent::Abort),
                },
            },
            (WriterState::ShutdownBegin, WriterEvent::ShutdownBegun { begun }) => match begun {
                Err(message) => self.fails(
                    after,
                    action,
                    "writer",
                    "drain",
                    "writer_shutdown_begin_failed"@,
                    message@,
                ),
                Ok(_) => {
                    &&& after == self.at(WriterState::ShutdownRecording)
                    &&& action == WriterAction::RecordProgress
                },
            },
            (WriterState::ShutdownRecording, WriterEvent::Recorded { recorded }) => if recorded {
                self.dequeues(after, action)
            } else {
                self.fails(
                    after,
                    action,
                    "writer",
                    "progress",
                    "writer_progress_state_poisoned"@,
                    "diagnostic writer progress state is poisoned"@,
                )
            },
            _ => false,
        }
    }

    /// What events and batches lead to.
    pub open spec fn on_batch(self, event: WriterEvent, after: Self, action: WriterAction) -> bool {
        match (self.state, event) {
            (WriterState::Dequeue, WriterEvent::Dequeued { dequeued }) => match dequeued {
                Err(message) => self.fails(
                    after,
                    action,
                    "writer",
                    "admission",
                    "writer_ingress_unavailable"@,
                    message@,
                ),
                Ok(true) => {
                    &&& after == WriterLoop { state: WriterState::Push, worked: true, ..self }
                    &&& action == WriterAction::Push
                },
                Ok(false) => {
                    &&& after == self.at(WriterState::Trigger)
                    &&& action == if self.drain is Some {
                        WriterAction::Flush
                    } else {
                        WriterAction::Poll
                    }
                },
            },
            (WriterState::Push, WriterEvent::Pushed { filled }) => match filled {
                Err(message) => self.fails(
                    after,
                    action,
                    "writer",
                    "batch",
                    "writer_batch_invalid"@,
                    message@,
                ),
                Ok(Some(bytes)) => self.commits(after, action, BatchOf::Event, bytes),
                Ok(None) => self.dequeues(after, action),
            },
            (WriterState::Trigger, WriterEvent::Triggered { triggered }) => match triggered {
                Err(message) => self.fails(
                    after,
                    action,
                    "writer",
                    "batch",
                    "writer_batch_clock_failed"@,
                    message@,
                ),
                Ok(Some(bytes)) => self.commits(after, action, BatchOf::Turn, bytes),
                Ok(None) => self.observes(after, action, ObservedFor::Turn),
            },
            (WriterState::Precheck { batch }, WriterEvent::Quota { quota }) => match quota {
                Err(error) => self.fails(
                    after,
                    action,
                    "quota",
                    "precheck",
                    error.spec_code(),
                    error.spec_message(),
                ),
                Ok(_) => {
                    &&& after == self.at(WriterState::Commit { batch })
                    &&& action == WriterAction::CommitBatch
                },
            },
            (WriterState::Commit { batch }, WriterEvent::Store { stored }) => match stored {
                Err(fault) => self.fails(
                    after,
                    action,
                    "writer",
                    "commit",
                    fault.code@,
                    fault.message@,
                ),
                Ok(_) => {
                    &&& after == self.at(WriterState::Measurement { batch })
                    &&& action == WriterAction::Measure
                },
            },
            (WriterState::Measurement { batch }, WriterEvent::Quota { quota }) => match quota {
                Err(error) => self.fails(
                    after,
                    action,
                    "quota",
                    "commit",
                    error.spec_code(),
                    error.spec_message(),
                ),
                Ok(_) => match batch {
                    BatchOf::Event => self.dequeues(after, action),
                    BatchOf::Turn => self.observes(after, action, ObservedFor::Turn),
                },
            },
            _ => false,
        }
    }

    /// What the end of a turn and of the run lead to.
    pub open spec fn on_end(self, event: WriterEvent, after: Self, action: WriterAction) -> bool {
        match (self.state, event) {
            (WriterState::Pending, WriterEvent::Pending { pending }) => if pending != 0 {
                self.ends_turn(after, action)
            } else {
                match self.drain {
                    Some(WriterDrainIntent::Finalize { ended_at, outcome }) => {
                        &&& after == WriterLoop {
                            state: WriterState::Finalization,
                            drain: None,
                            ..self
                        }
                        &&& action == WriterAction::FinalizeRun { ended_at, outcome }
                    },
                    _ => {
                        &&& after == WriterLoop {
                            state: WriterState::Checkpoint,
                            drain: None,
                            ..self
                        }
                        &&& action == WriterAction::Checkpoint
                    },
                }
            },
            (WriterState::Parked, WriterEvent::Woken) => self.turns(after, action),
            (WriterState::Finalization, WriterEvent::Finalized { finalized }) => match finalized {
                Err(fault) => self.fails_loudly(
                    after,
                    action,
                    "writer",
                    "commit",
                    fault.code@,
                    fault.message@,
                ),
                Ok(watermark) => {
                    &&& after == self.at(WriterState::FinalMeasurement { watermark })
                    &&& action == WriterAction::Measure
                },
            },
            (
                WriterState::FinalMeasurement { watermark },
                WriterEvent::Quota { quota },
            ) => match quota {
                Err(error) => self.fails_loudly(
                    after,
                    action,
                    "quota",
                    "finalize",
                    error.spec_code(),
                    error.spec_message(),
                ),
                Ok(_) => {
                    &&& after == self.at(WriterState::FinalReply)
                    &&& action == WriterAction::Reply { watermark }
                },
            },
            (WriterState::FinalReply, WriterEvent::Replied { heard }) => if heard {
                &&& after == self.at(WriterState::Close)
                &&& action == WriterAction::WaitForCommand
            } else {
                self.fails(
                    after,
                    action,
                    "writer",
                    "finalize",
                    "writer_finalize_reply_receiver_dropped"@,
                    "diagnostic writer finalization receiver was dropped"@,
                )
            },
            (WriterState::Close, WriterEvent::Closing { closing }) => match closing {
                Some(WriterCommand::Finalize { .. }) => self.fails_loudly(
                    after,
                    action,
                    "writer",
                    "close",
                    "writer_finalized_twice"@,
                    "diagnostic writer received a second finalization command"@,
                ),
                _ => {
                    &&& after == self.at(WriterState::Checkpoint)
                    &&& action == WriterAction::Checkpoint
                },
            },
            (WriterState::FailureReply { failure }, WriterEvent::Replied { .. }) => {
                &&& after == self.at(WriterState::Done)
                &&& action == WriterAction::Finish { result: Err(failure) }
            },
            (WriterState::Checkpoint, WriterEvent::Store { stored }) => match stored {
                Err(fault) => self.fails(
                    after,
                    action,
                    "writer",
                    "commit",
                    fault.code@,
                    fault.message@,
                ),
                Ok(_) => {
                    &&& after == self.at(WriterState::CheckpointMeasurement)
                    &&& action == WriterAction::Measure
                },
            },
            (WriterState::CheckpointMeasurement, WriterEvent::Quota { quota }) => match quota {
                Err(error) => self.fails(
                    after,
                    action,
                    "quota",
                    "checkpoint",
                    error.spec_code(),
                    error.spec_message(),
                ),
                Ok(_) => {
                    &&& after == self.at(WriterState::Done)
                    &&& action == WriterAction::Finish {
                        result: Ok::<(), DiagnosticCoreFailure>(()),
                    }
                },
            },
            _ => false,
        }
    }

    /// What an event leads to.
    pub open spec fn moves(self, event: WriterEvent, after: Self, action: WriterAction) -> bool {
        match self.state {
            WriterState::Status { .. } => self.on_progress(event, after, action),
            WriterState::Observation { .. } => self.on_progress(event, after, action),
            WriterState::Recording { .. } => self.on_progress(event, after, action),
            WriterState::Readiness => self.on_progress(event, after, action),
            WriterState::IngressFailure => self.on_news(event, after, action),
            WriterState::QuotaFailure => self.on_news(event, after, action),
            WriterState::Command => self.on_news(event, after, action),
            WriterState::ShutdownBegin => self.on_news(event, after, action),
            WriterState::ShutdownRecording => self.on_news(event, after, action),
            WriterState::Dequeue => self.on_batch(event, after, action),
            WriterState::Push => self.on_batch(event, after, action),
            WriterState::Precheck { .. } => self.on_batch(event, after, action),
            WriterState::Commit { .. } => self.on_batch(event, after, action),
            WriterState::Measurement { .. } => self.on_batch(event, after, action),
            WriterState::Trigger => self.on_batch(event, after, action),
            _ => self.on_end(event, after, action),
        }
    }

    fn fail(
        &mut self,
        component: &'static str,
        stage: &'static str,
        code: String,
        message: String,
    ) -> (action: WriterAction)
        ensures
            old(self).fails(*final(self), action, component, stage, code@, message@),
    {
        self.state = WriterState::Done;
        WriterAction::Finish {
            result: Err(DiagnosticCoreFailure::new(component, stage, code, message)),
        }
    }

    fn fail_loudly(
        &mut self,
        component: &'static str,
        stage: &'static str,
        code: String,
        message: String,
    ) -> (action: WriterAction)
        ensures
            old(self).fails_loudly(*final(self), action, component, stage, code@, message@),
    {
        let failure = DiagnosticCoreFailure::new(component, stage, code, message);
        self.state = WriterState::FailureReply { failure: failure.clone() };
        WriterAction::ReplyFailure { failure }
    }

    fn turn(&mut self) -> (action: WriterAction)
        ensures
            old(self).turns(*final(self), action),
    {
        self.worked = false;
        self.state = WriterState::IngressFailure;
        WriterAction::ReadIngressFailure
    }

    fn dequeue(&mut self) -> (action: WriterAction)
        ensures
            old(self).dequeues(*final(self), action),
    {
        self.state = WriterState::Dequeue;
        WriterAction::Dequeue
    }

    fn observe(&mut self, why: ObservedFor) -> (action: WriterAction)
        ensures
            old(self).observes(*final(self), action, why),
    {
        self.state = WriterState::Status { why };
        WriterAction::ReadStatus
    }

    fn commit(&mut self, batch: BatchOf, bytes: usize) -> (action: WriterAction)
        ensures
            old(self).commits(*final(self), action, batch, bytes),
    {
        self.worked = true;
        self.state = WriterState::Precheck { batch };
        WriterAction::Precheck { growth: growth_of(bytes) }
    }

    fn end_turn(&mut self) -> (action: WriterAction)
        ensures
            old(self).ends_turn(*final(self), action),
    {
        if self.worked {
            return self.turn();
        }
        self.state = WriterState::Parked;
        WriterAction::Park
    }

    fn drain_for(&mut self, intent: WriterDrainIntent) -> (action: WriterAction)
        ensures
            old(self).drains(*final(self), action, intent),
    {
        self.drain = Some(intent);
        self.state = WriterState::Status { why: ObservedFor::Draining };
        WriterAction::ReadStatus
    }

    fn recorded(&mut self, why: ObservedFor, uncommitted: u64, recorded: bool) -> (action:
        WriterAction)
        requires
            old(self).state == (WriterState::Recording { why, uncommitted }),
        ensures
            old(self).moves(WriterEvent::Recorded { recorded }, *final(self), action),
    {
        if !recorded {
            return self.fail(
                "writer",
                "progress",
                "writer_progress_state_poisoned".to_owned(),
                "diagnostic writer progress state is poisoned".to_owned(),
            );
        }
        match why {
            ObservedFor::Readiness => {
                self.state = WriterState::Readiness;
                WriterAction::SignalReady
            },
            ObservedFor::Draining => {
                self.state = WriterState::ShutdownBegin;
                WriterAction::BeginShutdown
            },
            ObservedFor::Turn => {
                if self.drain.is_some() && uncommitted == 0 {
                    self.state = WriterState::Pending;
                    return WriterAction::CountPending;
                }
                self.end_turn()
            },
        }
    }

    fn observed(
        &mut self,
        why: ObservedFor,
        uncommitted: u64,
        supervised: Result<Option<SupervisedFailure>, String>,
    ) -> (action: WriterAction)
        requires
            old(self).state == (WriterState::Observation { why, uncommitted }),
        ensures
            old(self).moves(WriterEvent::Observed { supervised }, *final(self), action),
    {
        match supervised {
            Err(message) => self.fail(
                "writer",
                "progress",
                "writer_progress_observation_failed".to_owned(),
                message,
            ),
            Ok(Some(failure)) => {
                self.state = WriterState::Done;
                WriterAction::Finish {
                    result: Err(
                        DiagnosticCoreFailure::supervised(
                            failure.component,
                            failure.stage,
                            failure.code,
                        ),
                    ),
                }
            },
            Ok(None) => {
                self.state = WriterState::Recording { why, uncommitted };
                WriterAction::RecordProgress
            },
        }
    }

    fn polled(&mut self, poll: CommandPoll) -> (action: WriterAction)
        requires
            old(self).state == WriterState::Command,
        ensures
            old(self).moves(WriterEvent::Polled { poll }, *final(self), action),
    {
        match poll {
            CommandPoll::Empty => self.dequeue(),
            CommandPoll::Disconnected => self.drain_for(WriterDrainIntent::Abort),
            CommandPoll::Command { command } => match command {
                WriterCommand::Finalize { ended_at, outcome } => self.drain_for(
                    WriterDrainIntent::Finalize { ended_at, outcome },
                ),
                WriterCommand::Abort => self.drain_for(WriterDrainIntent::Abort),
                WriterCommand::Close => self.drain_for(WriterDrainIntent::Abort),
            },
        }
    }

    fn measured(&mut self, quota: Result<(), QuotaError>) -> (action: WriterAction)
        requires
            old(self).awaits(WriterEvent::Quota { quota }),
        ensures
            old(self).moves(WriterEvent::Quota { quota }, *final(self), action),
    {
        match quota {
            Err(error) => {
                let (code, message) = error.into_parts();
                match &self.state {
                    WriterState::Precheck { .. } => self.fail("quota", "precheck", code, message),
                    WriterState::Measurement { .. } => self.fail("quota", "commit", code, message),
                    WriterState::FinalMeasurement { .. } => self.fail_loudly(
                        "quota",
                        "finalize",
                        code,
                        message,
                    ),
                    _ => self.fail("quota", "checkpoint", code, message),
                }
            },
            Ok(_) => match &self.state {
                WriterState::Precheck { batch } => {
                    let batch = *batch;
                    self.state = WriterState::Commit { batch };
                    WriterAction::CommitBatch
                },
                WriterState::Measurement { batch } => match *batch {
                    BatchOf::Event => self.dequeue(),
                    BatchOf::Turn => self.observe(ObservedFor::Turn),
                },
                WriterState::FinalMeasurement { watermark } => {
                    let watermark: u64 = *watermark;
                    self.state = WriterState::FinalReply;
                    WriterAction::Reply { watermark }
                },
                _ => {
                    self.state = WriterState::Done;
                    WriterAction::Finish { result: Ok(()) }
                },
            },
        }
    }

    fn stored(&mut self, stored: Result<(), StoreFault>) -> (action: WriterAction)
        requires
            old(self).awaits(WriterEvent::Store { stored }),
        ensures
            old(self).moves(WriterEvent::Store { stored }, *final(self), action),
    {
        match stored {
            Err(fault) => self.fail("writer", "commit", fault.code, fault.message),
            Ok(_) => match &self.state {
                WriterState::Commit { batch } => {
                    let batch = *batch;
                    self.state = WriterState::Measurement { batch };
                    WriterAction::Measure
                },
                _ => {
                    self.state = WriterState::CheckpointMeasurement;
                    WriterAction::Measure
                },
            },
        }
    }

    fn counted(&mut self, pending: usize) -> (action: WriterAction)
        requires
            old(self).state == WriterState::Pending,
        ensures
            old(self).moves(WriterEvent::Pending { pending }, *final(self), action),
    {
        if pending != 0 {
            return self.end_turn();
        }
        let mut intent: Option<WriterDrainIntent> = None;
        std::mem::swap(&mut intent, &mut self.drain);
        match intent {
            Some(WriterDrainIntent::Finalize { ended_at, outcome }) => {
                self.state = WriterState::Finalization;
                WriterAction::FinalizeRun { ended_at, outcome }
            },
            _ => {
                self.state = WriterState::Checkpoint;
                WriterAction::Checkpoint
            },
        }
    }

    fn replied(&mut self, heard: bool) -> (action: WriterAction)
        requires
            old(self).awaits(WriterEvent::Replied { heard }),
        ensures
            old(self).moves(WriterEvent::Replied { heard }, *final(self), action),
    {
        let mut state = WriterState::Done;
        std::mem::swap(&mut state, &mut self.state);
        match state {
            WriterState::FailureReply { failure } => {
                WriterAction::Finish { result: Err(failure) }
            },
            _ => {
                if heard {
                    self.state = WriterState::Close;
                    return WriterAction::WaitForCommand;
                }
                self.fail(
                    "writer",
                    "finalize",
                    "writer_finalize_reply_receiver_dropped".to_owned(),
                    "diagnostic writer finalization receiver was dropped".to_owned(),
                )
            },
        }
    }

    /// Takes what the writer waits for, and tells what is to be done next.
    pub fn next(&mut self, event: WriterEvent) -> (action: WriterAction)
        requires
            old(self).awaits(event),
        ensures
            old(self).moves(event, *final(self), action),
    {
        match event {
            WriterEvent::Status { uncommitted } => match uncommitted {
                Err(message) => self.fail(
                    "writer",
                    "progress",
                    "writer_progress_sample_unavailable".to_owned(),
                    message,
                ),
                Ok(uncommitted) => {
                    let why = match &self.state {
                        WriterState::Status { why } => *why,
                        _ => ObservedFor::Turn,
                    };
                    self.state = WriterState::Observation { why, uncommitted };
                    WriterAction::ObserveProgress { uncommitted }
                },
            },
            WriterEvent::Observed { supervised } => {
                let (why, uncommitted) = match &self.state {
                    WriterState::Observation { why, uncommitted } => (*why, *uncommitted),
                    _ => (ObservedFor::Turn, 0),
                };
                self.observed(why, uncommitted, supervised)
            },
            WriterEvent::Recorded { recorded } => {
                let observed = match &self.state {
                    WriterState::Recording { why, uncommitted } => Some((*why, *uncommitted)),
                    _ => None,
                };
                match observed {
                    Some((why, uncommitted)) => self.recorded(why, uncommitted, recorded),
                    None => {
                        if recorded {
                            return self.dequeue();
                        }
                        self.fail(
                            "writer",
                            "progress",
                            "writer_progress_state_poisoned".to_owned(),
                            "diagnostic writer progress state is poisoned".to_owned(),
                        )
                    },
                }
            },
            WriterEvent::Signalled { heard } => {
                if heard {
                    return self.turn();
                }
                self.fail(
                    "writer",
                    "readiness",
                    "writer_readiness_receiver_dropped".to_owned(),
                    "diagnostic writer readiness receiver was dropped".to_owned(),
                )
            },
            WriterEvent::IngressFailure { ingress_code } => match ingress_code {
                Some(code) => {
                    let message = "mandatory diagnostic ingress failed [".to_owned().concat(
                        code.as_str(),
                    ).concat("]");
                    self.fail("writer", "admission", code, message)
                },
                None => {
                    self.state = WriterState::QuotaFailure;
                    WriterAction::ReadQuotaFailure
                },
            },
            WriterEvent::QuotaFailure { quota_code } => match quota_code {
                Some(code) => {
                    self.state = WriterState::Done;
                    WriterAction::Finish { result: Err(DiagnosticCoreFailure::quota(code)) }
                },
                None => {
                    if self.drain.is_none() {
                        self.state = WriterState::Command;
                        return WriterAction::PollCommand;
                    }
                    self.dequeue()
                },
            },
            WriterEvent::Polled { poll } => self.polled(poll),
            WriterEvent::ShutdownBegun { begun } => match begun {
                Err(message) => self.fail(
                    "writer",
                    "drain",
                    "writer_shutdown_begin_failed".to_owned(),
                    message,
                ),
                Ok(_) => {
                    self.state = WriterState::ShutdownRecording;
                    WriterAction::RecordProgress
                },
            },
            WriterEvent::Dequeued { dequeued } => match dequeued {
                Err(message) => self.fail(
                    "writer",
                    "admission",
                    "writer_ingress_unavailable".to_owned(),
                    message,
                ),
                Ok(true) => {
                    self.worked = true;
                    self.state = WriterState::Push;
                    WriterAction::Push
                },
                Ok(false) => {
                    self.state = WriterState::Trigger;
                    if self.drain.is_some() {
                        WriterAction::Flush
                    } else {
                        WriterAction::Poll
                    }
                },
            },
            WriterEvent::Pushed { filled } => match filled {
                Err(message) => self.fail(
                    "writer",
                    "batch",
                    "writer_batch_invalid".to_owned(),
                    message,
                ),
                Ok(Some(bytes)) => self.commit(BatchOf::Event, bytes),
                Ok(None) => self.dequeue(),
            },
            WriterEvent::Quota { quota } => self.measured(quota),
            WriterEvent::Store { stored } => self.stored(stored),
            WriterEvent::Triggered { triggered } => match triggered {
                Err(message) => self.fail(
                    "writer",
                    "batch",
                    "writer_batch_clock_failed".to_owned(),
                    message,
                ),
                Ok(Some(bytes)) => self.commit(BatchOf::Turn, bytes),
                Ok(None) => self.observe(ObservedFor::Turn),
            },
            WriterEvent::Pending { pending } => self.counted(pending),
            WriterEvent::Woken => self.turn(),
            WriterEvent::Finalized { finalized } => match finalized {
                Err(fault) => self.fail_loudly("writer", "commit", fault.code, fault.message),
                Ok(watermark) => {
                    self.state = WriterState::FinalMeasurement { watermark };
                    WriterAction::Measure
                },
            },
            WriterEvent::Replied { heard } => self.replied(heard),
            WriterEvent::Closing { closing } => match closing {
                Some(WriterCommand::Finalize { .. }) => self.fail_loudly(
                    "writer",
                    "close",
                    "writer_finalized_twice".to_owned(),
                    "diagnostic writer received a second finalization command".to_owned(),
                ),
                _ => {
                    self.state = WriterState::Checkpoint;
                    WriterAction::Checkpoint
                },
            },
        }
    }
}

/// A run is finalized only when it was to be, nothing that was accepted is uncommitted, and no
/// batch is under way.
pub proof fn finalizes_only_when_drained(
    before: WriterLoop,
    event: WriterEvent,
    after: WriterLoop,
    action: WriterAction,
)
    requires
        before.moves(event, after, action),
    ensures
        action is FinalizeRun ==> {
            &&& before.state == WriterState::Pending
            &&& event == (WriterEvent::Pending { pending: 0 })
            &&& before.drain matches Some(WriterDrainIntent::Finalize { .. })
        },
        after.state is Pending ==> {
            &&& before.state == (WriterState::Recording {
                why: ObservedFor::Turn,
                uncommitted: 0,
            })
            &&& before.drain is Some
        },
{
}

/// A batch is committed only after the quota has let it through, and the quota is measured after.
pub proof fn quota_guards_every_commit(
    before: WriterLoop,
    event: WriterEvent,
    after: WriterLoop,
    action: WriterAction,
)
    requires
        before.moves(event, after, action),
    ensures
        action is CommitBatch ==> before.state is Precheck && event matches WriterEvent::Quota {
            quota: Ok(_),
        },
        before.state is Commit && action !is Finish ==> action is Measure
            && after.state is Measurement,
{
}

/// Once the writer has begun to drain it does not look for commands, and it goes on draining until
/// it is drained or fails.
pub proof fn draining_goes_on(
    before: WriterLoop,
    event: WriterEvent,
    after: WriterLoop,
    action: WriterAction,
)
    requires
        before.moves(event, after, action),
        before.drain is Some,
        before.state !is Command,
    ensures
        action !is PollCommand,
        after.drain is Some || after.state is Finalization || after.state is Checkpoint,
        after.state !is Command,
{
}

/// A writer that has ended does nothing more, and it ends once.
pub proof fn ended_writer_rests(
    before: WriterLoop,
    event: WriterEvent,
    after: WriterLoop,
    action: WriterAction,
)
    requires
        before.moves(event, after, action),
    ensures
        before.state !is Done,
        action is Finish <==> after.state is Done,
{
}

/// A run of a writer: what it heard, where it stood before and after, and what it did. The first
/// action is that of its beginning.
pub struct WriterRun {
    pub events: Seq<WriterEvent>,
    pub loops: Seq<WriterLoop>,
    pub actions: Seq<WriterAction>,
}

impl WriterLoop {
    /// How far the writer has come. It never goes back, and once it is drained it goes on with every
    /// event.
    pub open spec fn rank(self) -> int {
        match self.state {
            WriterState::Finalization => 1,
            WriterState::FinalMeasurement { .. } => 2,
            WriterState::FinalReply => 3,
            WriterState::Close => 4,
            WriterState::FailureReply { .. } => 5,
            WriterState::Checkpoint => 6,
            WriterState::CheckpointMeasurement => 7,
            WriterState::Done => 8,
            _ => 0,
        }
    }
}

impl WriterRun {
    /// The writer has begun, and has taken every event as it does.
    pub open spec fn wf(self) -> bool {
        &&& self.loops.len() == self.events.len() + 1
        &&& self.actions.len() == self.loops.len()
        &&& self.loops[0].begun(self.actions[0])
        &&& forall|i: int| 0 <= i < self.events.len() ==> #[trigger] self.step(i)
    }

    /// The event at `i` was taken as the writer takes it.
    pub open spec fn step(self, i: int) -> bool {
        self.loops[i].moves(self.events[i], self.loops[i + 1], self.actions[i + 1])
    }

    /// With this event the writer learned that nothing is left to be committed.
    pub open spec fn drained_at(self, i: int) -> bool {
        &&& 1 <= i < self.events.len()
        &&& self.loops[i - 1].state == (WriterState::Recording {
            why: ObservedFor::Turn,
            uncommitted: 0,
        })
        &&& self.loops[i].state == WriterState::Pending
        &&& self.events[i] == (WriterEvent::Pending { pending: 0 })
    }

    /// With this event the writer was told to end.
    pub open spec fn told_to_end_at(self, i: int) -> bool {
        &&& 0 <= i < self.events.len()
        &&& self.events[i] matches WriterEvent::Polled { poll } && poll !is Empty
    }

    /// Why the writer drains, after it was told to end.
    pub open spec fn intent_at(self, i: int) -> WriterDrainIntent {
        match self.events[i] {
            WriterEvent::Polled {
                poll: CommandPoll::Command { command: WriterCommand::Finalize { ended_at, outcome } },
            } => WriterDrainIntent::Finalize { ended_at, outcome },
            _ => WriterDrainIntent::Abort,
        }
    }

    /// Before `end` the writer was told to end at `i` and at no other time.
    pub open spec fn told_once(self, i: int, end: int) -> bool {
        &&& 0 <= i < end
        &&& self.told_to_end_at(i)
        &&& forall|other: int|
            0 <= other < end && other != i ==> !#[trigger] self.told_to_end_at(other)
    }
}

/// What one event does to how far the writer has come.
proof fn one_step_on(before: WriterLoop, event: WriterEvent, after: WriterLoop, action: WriterAction)
    requires
        before.moves(event, after, action),
    ensures
        before.rank() <= after.rank(),
        before.rank() >= 1 ==> before.rank() < after.rank(),
        before.rank() == 0 && 1 <= after.rank() < 8 ==> before.state is Pending && event == (
        WriterEvent::Pending { pending: 0 }),
        action is FinalizeRun <==> after.state is Finalization,
        action is Reply <==> after.state is FinalReply,
        action is ReplyFailure <==> after.state is FailureReply,
        after.state is Finalization ==> before.state is Pending,
        after.state is FinalReply ==> before.state is FinalMeasurement,
        after.state is FinalMeasurement ==> before.state is Finalization,
        action matches WriterAction::Finish { result: Ok(_) } ==> before.state
            is CheckpointMeasurement,
        after.rank() >= 1 && after.rank() < 8 && before.rank() == 0 ==> after.drain is None,
        before.rank() >= 1 ==> after.drain == before.drain,
{
}

/// What one event does to why the writer drains.
proof fn intent_after_one_step(
    before: WriterLoop,
    event: WriterEvent,
    after: WriterLoop,
    action: WriterAction,
)
    requires
        before.moves(event, after, action),
    ensures
        event is Polled ==> before.state is Command,
        after.state is Command ==> after.drain is None,
        after.drain != before.drain ==> {
            ||| after.drain is None && after.rank() >= 1
            ||| event is Polled && event->poll !is Empty
        },
        before.state is Command && event->poll !is Empty ==> after.rank() == 0 && after.drain
            == Some(
            match event {
                WriterEvent::Polled {
                    poll: CommandPoll::Command {
                        command: WriterCommand::Finalize { ended_at, outcome },
                    },
                } => WriterDrainIntent::Finalize { ended_at, outcome },
                _ => WriterDrainIntent::Abort,
            },
        ),
        before.state is Pending && action is FinalizeRun ==> before.drain == Some(
            WriterDrainIntent::Finalize {
                ended_at: action->ended_at,
                outcome: action->FinalizeRun_outcome,
            },
        ),
{
}

/// The writer never goes back.
proof fn never_back(run: WriterRun, i: int, j: int)
    requires
        run.wf(),
        0 <= i < j < run.loops.len(),
    ensures
        run.loops[i].rank() <= run.loops[j].rank(),
        run.loops[i].rank() >= 1 ==> run.loops[i].rank() < run.loops[j].rank(),
    decreases j - i,
{
    assert(run.step(j - 1));
    one_step_on(run.loops[j - 1], run.events[j - 1], run.loops[j], run.actions[j]);
    if i < j - 1 {
        never_back(run, i, j - 1);
    }
}

/// A writer that has come to its end was drained.
proof fn drained_before(run: WriterRun, j: int)
    requires
        run.wf(),
        0 <= j < run.loops.len(),
        1 <= run.loops[j].rank() < 8,
    ensures
        exists|i: int| i < j && #[trigger] run.drained_at(i),
    decreases j,
{
    assert(j > 0);
    assert(run.step(j - 1));
    one_step_on(run.loops[j - 1], run.events[j - 1], run.loops[j], run.actions[j]);
    if run.loops[j - 1].rank() >= 1 {
        drained_before(run, j - 1);
    } else {
        assert(j - 1 > 0);
        assert(run.step(j - 2));
        finalizes_only_when_drained(
            run.loops[j - 2],
            run.events[j - 2],
            run.loops[j - 1],
            run.actions[j - 1],
        );
        assert(run.drained_at(j - 1));
    }
}

/// A writer drains because it was told to end, once.
proof fn told_before(run: WriterRun, j: int)
    requires
        run.wf(),
        0 <= j < run.loops.len(),
        run.loops[j].rank() == 0,
    ensures
        match run.loops[j].drain {
            None => forall|i: int| 0 <= i < j ==> !#[trigger] run.told_to_end_at(i),
            Some(intent) => exists|i: int| #[trigger]
                run.told_once(i, j) && run.intent_at(i) == intent,
        },
        run.loops[j].state is Command ==> run.loops[j].drain is None,
    decreases j,
{
    if j > 0 {
        let before = run.loops[j - 1];
        assert(run.step(j - 1));
        one_step_on(before, run.events[j - 1], run.loops[j], run.actions[j]);
        intent_after_one_step(before, run.events[j - 1], run.loops[j], run.actions[j]);
        told_before(run, j - 1);
        if run.told_to_end_at(j - 1) {
            assert(before.state is Command);
            assert(before.drain is None);
            assert(run.told_once(j - 1, j));
            assert(run.intent_at(j - 1) == run.loops[j].drain->0);
        } else {
            assert(run.loops[j].drain == before.drain);
            if before.drain is Some {
                let i = choose|i: int| #[trigger]
                    run.told_once(i, j - 1) && run.intent_at(i) == before.drain->0;
                assert(run.told_once(i, j));
            }
        }
    }
}

/// A run is finalized at most once, and only after the writer was told to with the same words, was
/// told to end in no other way, and has learned that nothing is left to be committed. A writer that
/// was told to abort or to close, or that no one can tell anything, never finalizes.
pub proof fn finalizes_once_as_told(run: WriterRun, j: int)
    requires
        run.wf(),
        0 <= j < run.actions.len(),
        run.actions[j] is FinalizeRun,
    ensures
        forall|i: int|
            0 <= i < run.actions.len() && i != j ==> !((#[trigger] run.actions[i]) is FinalizeRun),
        exists|i: int| i < j && #[trigger] run.drained_at(i),
        exists|i: int| #[trigger]
            run.told_once(i, j - 1) && run.intent_at(i) == (WriterDrainIntent::Finalize {
                ended_at: run.actions[j]->ended_at,
                outcome: run.actions[j]->FinalizeRun_outcome,
            }),
{
    assert(j > 0);
    assert(run.step(j - 1));
    one_step_on(run.loops[j - 1], run.events[j - 1], run.loops[j], run.actions[j]);
    intent_after_one_step(run.loops[j - 1], run.events[j - 1], run.loops[j], run.actions[j]);
    drained_before(run, j);
    told_before(run, j - 1);
    assert forall|i: int| 0 <= i < run.actions.len() && i != j implies !((
    #[trigger] run.actions[i]) is FinalizeRun) by {
        if run.actions[i] is FinalizeRun {
            assert(i > 0);
            assert(run.step(i - 1));
            one_step_on(run.loops[i - 1], run.events[i - 1], run.loops[i], run.actions[i]);
            if i < j {
                never_back(run, i, j);
            } else {
                never_back(run, j, i);
            }
        }
    }
}

/// A finalization is answered with success at most once, only after the run was finalized with that
/// watermark and the quota was measured.
pub proof fn success_is_answered_once(run: WriterRun, j: int)
    requires
        run.wf(),
        0 <= j < run.actions.len(),
        run.actions[j] is Reply,
    ensures
        j >= 3,
        run.actions[j - 2] is FinalizeRun,
        run.events[j - 2] == (WriterEvent::Finalized { finalized: Ok(run.actions[j]->watermark) }),
        run.events[j - 1] matches WriterEvent::Quota { quota: Ok(_) },
        forall|i: int|
            0 <= i < run.actions.len() && i != j ==> !((#[trigger] run.actions[i]) is Reply),
        forall|i: int| 0 <= i < j ==> !((#[trigger] run.actions[i]) is ReplyFailure),
{
    assert(j > 0);
    assert(run.step(j - 1));
    one_step_on(run.loops[j - 1], run.events[j - 1], run.loops[j], run.actions[j]);
    assert(j - 1 > 0);
    assert(run.step(j - 2));
    one_step_on(run.loops[j - 2], run.events[j - 2], run.loops[j - 1], run.actions[j - 1]);
    assert(j - 2 > 0);
    assert(run.step(j - 3));
    one_step_on(run.loops[j - 3], run.events[j - 3], run.loops[j - 2], run.actions[j - 2]);
    assert forall|i: int| 0 <= i < run.actions.len() && i != j implies !((
    #[trigger] run.actions[i]) is Reply) by {
        if run.actions[i] is Reply {
            assert(i > 0);
            assert(run.step(i - 1));
            one_step_on(run.loops[i - 1], run.events[i - 1], run.loops[i], run.actions[i]);
            if i < j {
                never_back(run, i, j);
            } else {
                never_back(run, j, i);
            }
        }
    }
    assert forall|i: int| 0 <= i < j implies !((#[trigger] run.actions[i]) is ReplyFailure) by {
        if run.actions[i] is ReplyFailure {
            assert(i > 0);
            assert(run.step(i - 1));
            one_step_on(run.loops[i - 1], run.events[i - 1], run.loops[i], run.actions[i]);
            never_back(run, i, j);
        }
    }
}

/// A writer that ends well has committed everything, and a writer ends once, with its last action.
pub proof fn good_end_leaves_nothing(run: WriterRun, j: int)
    requires
        run.wf(),
        0 <= j < run.actions.len(),
        run.actions[j] is Finish,
    ensures
        j == run.actions.len() - 1,
        run.actions[j]->result is Ok ==> exists|i: int| i < j && #[trigger] run.drained_at(i),
{
    assert(j > 0);
    assert(run.step(j - 1));
    one_step_on(run.loops[j - 1], run.events[j - 1], run.loops[j], run.actions[j]);
    ended_writer_rests(run.loops[j - 1], run.events[j - 1], run.loops[j], run.actions[j]);
    if j < run.actions.len() - 1 {
        assert(run.step(j));
        ended_writer_rests(run.loops[j], run.events[j], run.loops[j + 1], run.actions[j + 1]);
    }
    if run.actions[j]->result is Ok {
        drained_before(run, j - 1);
    }
}

/// What the writer heard is a failure.
pub open spec fn hears_failure(event: WriterEvent) -> bool {
    match event {
        WriterEvent::Status { uncommitted } => uncommitted is Err,
        WriterEvent::Observed { supervised } => supervised is Err || supervised->Ok_0 is Some,
        WriterEvent::Recorded { recorded } => !recorded,
        WriterEvent::Signalled { heard } => !heard,
        WriterEvent::IngressFailure { ingress_code } => ingress_code is Some,
        WriterEvent::QuotaFailure { quota_code } => quota_code is Some,
        WriterEvent::ShutdownBegun { begun } => begun is Err,
        WriterEvent::Dequeued { dequeued } => dequeued is Err,
        WriterEvent::Pushed { filled } => filled is Err,
        WriterEvent::Quota { quota } => quota is Err,
        WriterEvent::Store { stored } => stored is Err,
        WriterEvent::Triggered { triggered } => triggered is Err,
        WriterEvent::Finalized { finalized } => finalized is Err,
        _ => false,
    }
}

/// A writer fails exactly where it hears a failure, no one hears its answer to a finalization, or
/// it is told to finalize again; and ends with a failure that it has told. What it fails with says
/// what it heard: the code and the words of a store or a quota, and the words of anything else that
/// had some. It is of the quota exactly where the quota failed.
pub proof fn writers_fail_with_what_they_heard(
    before: WriterLoop,
    event: WriterEvent,
    after: WriterLoop,
    action: WriterAction,
)
    requires
        before.moves(event, after, action),
    ensures
        ({
            let unheard = before.state is FinalReply && event == (WriterEvent::Replied {
                heard: false,
            });
            let twice = before.state is Close && (event matches WriterEvent::Closing { closing }
                && closing is Some && closing->0 is Finalize);
            let told = before.state is FailureReply;
            let failed = (action is Finish && action->result is Err) || action is ReplyFailure;
            let failure = if action is Finish {
                action->result->Err_0
            } else {
                action->failure
            };
            &&& failed <==> hears_failure(event) || unheard || twice || told
            &&& failed && !told ==> {
                &&& event matches WriterEvent::Status { uncommitted: Err(message) }
                    ==> failure.message@ == message@
                &&& event matches WriterEvent::Observed { supervised: Err(message) }
                    ==> failure.message@ == message@
                &&& event matches WriterEvent::Observed { supervised: Ok(Some(found)) }
                    ==> failure.code@ == found.code@ && failure.component == found.component
                &&& event matches WriterEvent::IngressFailure { ingress_code: Some(code) }
                    ==> failure.code@ == code@
                &&& event matches WriterEvent::QuotaFailure { quota_code: Some(code) }
                    ==> failure.code@ == code@ && failure.component == "quota"
                &&& event matches WriterEvent::ShutdownBegun { begun: Err(message) }
                    ==> failure.message@ == message@
                &&& event matches WriterEvent::Dequeued { dequeued: Err(message) }
                    ==> failure.message@ == message@
                &&& event matches WriterEvent::Pushed { filled: Err(message) }
                    ==> failure.message@ == message@
                &&& event matches WriterEvent::Triggered { triggered: Err(message) }
                    ==> failure.message@ == message@
                &&& event matches WriterEvent::Quota { quota: Err(error) } ==> failure.component
                    == "quota" && failure.code@ == error.spec_code() && failure.message@
                    == error.spec_message()
                &&& event matches WriterEvent::Store { stored: Err(fault) } ==> failure.code@
                    == fault.code@ && failure.message@ == fault.message@ && failure.component
                    == "writer"
                &&& event matches WriterEvent::Finalized { finalized: Err(fault) }
                    ==> failure.code@ == fault.code@ && failure.message@ == fault.message@
            }
            &&& before.state matches WriterState::FailureReply { failure: kept } ==> failure == kept
            &&& action is ReplyFailure ==> before.state is Finalization || before.state
                is FinalMeasurement || before.state is Close
            &&& action is Finish && action->result is Ok ==> before.state is CheckpointMeasurement
        }),
{
}

/// A writer that is told to finalize drains to finalize, with the words that it was told; one that
/// is told to abort or to close, or that no one can tell anything any more, drains to abort. Until
/// it is told, it goes on.
pub proof fn writers_drain_as_they_were_told(
    before: WriterLoop,
    event: WriterEvent,
    after: WriterLoop,
    action: WriterAction,
)
    requires
        before.moves(event, after, action),
    ensures
        event matches WriterEvent::Polled { poll } ==> match poll {
            CommandPoll::Empty => after.drain == before.drain && action is Dequeue,
            CommandPoll::Disconnected => (after.drain matches Some(intent) && intent is Abort),
            CommandPoll::Command { command } => match command {
                WriterCommand::Finalize { ended_at, outcome } => after.drain == Some(
                    WriterDrainIntent::Finalize { ended_at, outcome },
                ),
                _ => (after.drain matches Some(intent) && intent is Abort),
            },
        },
        event !is Polled && event !is Pending ==> after.drain == before.drain,
        event matches WriterEvent::Pending { pending } && pending != 0 ==> after.drain
            == before.drain,
{
}

/// A batch may make the run grow by its own size. An event that was there is put into the batch,
/// and where there is none, the batch is taken: all of it while the writer drains, and else what is
/// due.
pub proof fn batches_grow_the_run_by_their_size(
    before: WriterLoop,
    event: WriterEvent,
    after: WriterLoop,
    action: WriterAction,
)
    requires
        before.moves(event, after, action),
    ensures
        event matches WriterEvent::Pushed { filled: Ok(Some(bytes)) } ==> action == (
        WriterAction::Precheck { growth: bytes as u64 }) && after.state == (WriterState::Precheck {
            batch: BatchOf::Event,
        }),
        event matches WriterEvent::Triggered { triggered: Ok(Some(bytes)) } ==> action == (
        WriterAction::Precheck { growth: bytes as u64 }) && after.state == (WriterState::Precheck {
            batch: BatchOf::Turn,
        }),
        event == (WriterEvent::Pushed { filled: Ok(None) }) ==> action is Dequeue,
        event == (WriterEvent::Triggered { triggered: Ok(None) }) ==> action is ReadStatus,
        event == (WriterEvent::Dequeued { dequeued: Ok(true) }) ==> action is Push && after.worked,
        event == (WriterEvent::Dequeued { dequeued: Ok(false) }) ==> (action is Flush
            <==> before.drain is Some) && (action is Poll <==> before.drain is None),
        action is Park ==> !before.worked,
        action is Push || action is Precheck ==> after.worked,
        before.state is Measurement && !hears_failure(event) ==> (action is Dequeue
            <==> before.state->Measurement_batch is Event) && (action is ReadStatus
            <==> before.state->Measurement_batch is Turn),
{
}

/// What is observed of progress is how many events are accepted and not committed, as it was told,
/// and a turn of a writer that drains ends with the count of what is pending exactly where none is
/// uncommitted.
pub proof fn progress_is_observed_as_told(
    before: WriterLoop,
    event: WriterEvent,
    after: WriterLoop,
    action: WriterAction,
)
    requires
        before.moves(event, after, action),
        !hears_failure(event),
    ensures
        event matches WriterEvent::Status { uncommitted: Ok(count) } ==> action == (
        WriterAction::ObserveProgress { uncommitted: count }),
        before.state matches WriterState::Recording { why, uncommitted } ==> {
            &&& action is SignalReady <==> why is Readiness
            &&& action is BeginShutdown <==> why is Draining
            &&& action is CountPending <==> why is Turn && before.drain is Some && uncommitted == 0
        },
        before.state is Finalization ==> event is Finalized && after.state == (
        WriterState::FinalMeasurement { watermark: event->finalized->Ok_0 }),
        before.state matches WriterState::FinalMeasurement { watermark } ==> action == (
        WriterAction::Reply { watermark }),
        action is Checkpoint ==> before.state is Pending || before.state is Close,
{
}

} // verus!
