//! The thread of a writer: how it starts, how it is told to finalize, and how it is stopped.
use crate::bootstrap::{BootstrapError, BootstrapPhase, DiagnosticCoreFailure};
use crate::shutdown::{CleanupFailure, FinalProductionOutcome};
use crate::writer::{StoreFault, WriterCommand};
use vstd::prelude::*;

verus! {

/// How the thread of a writer ended.
#[derive(Debug, PartialEq, Eq)]
pub enum WriterExit {
    Ended,
    Failed { failure: DiagnosticCoreFailure },
    Panicked,
}

/// Why a writer was never ready.
pub open spec fn unready_text(exit: WriterExit) -> Seq<char> {
    match exit {
        WriterExit::Ended => "diagnostic writer exited before readiness"@,
        WriterExit::Failed { failure } => failure.message@,
        WriterExit::Panicked => "diagnostic writer panicked before readiness"@,
    }
}

pub fn unready_message(exit: WriterExit) -> (message: String)
    ensures
        message@ == unready_text(exit),
{
    match exit {
        WriterExit::Ended => "diagnostic writer exited before readiness".to_owned(),
        WriterExit::Failed { failure } => failure.message,
        WriterExit::Panicked => "diagnostic writer panicked before readiness".to_owned(),
    }
}

/// What the task of a writer ends with: a panic is a failure too.
pub fn task_result(result: Option<Result<(), DiagnosticCoreFailure>>) -> (ended: Result<
    (),
    DiagnosticCoreFailure,
>)
    ensures
        match result {
            Some(result) => ended == result,
            None => ended is Err && ended->Err_0.tells(
                "writer",
                "task_exit",
                "writer_panicked"@,
                "diagnostic writer task panicked"@,
            ),
        },
{
    match result {
        Some(result) => result,
        None => Err(
            DiagnosticCoreFailure::new(
                "writer",
                "task_exit",
                "writer_panicked".to_owned(),
                "diagnostic writer task panicked".to_owned(),
            ),
        ),
    }
}

/// What came of telling a writer to finalize.
#[derive(Debug, PartialEq, Eq)]
pub enum FinalizeReply {
    /// The writer takes no more commands.
    Unsent,
    Replied { reply: Result<u64, DiagnosticCoreFailure> },
    /// The writer ended without a word.
    Unanswered,
}

/// A cleanup failure is of the writer, with this code and text.
pub open spec fn writer_failure(
    failure: CleanupFailure,
    code: Seq<char>,
    message: Seq<char>,
) -> bool {
    &&& failure.component == "writer"
    &&& failure.code@ == code
    &&& failure.message@ == message
}

/// What a finalization came to.
pub open spec fn is_finalized(reply: FinalizeReply, result: Result<u64, CleanupFailure>) -> bool {
    match reply {
        FinalizeReply::Unsent => result is Err && writer_failure(
            result->Err_0,
            "writer_finalize_command_failed"@,
            "diagnostic writer is not accepting finalization"@,
        ),
        FinalizeReply::Replied { reply: Ok(watermark) } => {
            result == Ok::<u64, CleanupFailure>(watermark)
        },
        FinalizeReply::Replied { reply: Err(failure) } => result is Err && writer_failure(
            result->Err_0,
            failure.code@,
            failure.message@,
        ),
        FinalizeReply::Unanswered => result is Err && writer_failure(
            result->Err_0,
            "writer_finalize_result_unavailable"@,
            "diagnostic writer exited without a finalization result"@,
        ),
    }
}

/// Takes what came of telling a writer to finalize.
pub fn finalized(reply: FinalizeReply) -> (result: Result<u64, CleanupFailure>)
    ensures
        is_finalized(reply, result),
{
    match reply {
        FinalizeReply::Unsent => Err(
            CleanupFailure::new(
                "writer",
                "writer_finalize_command_failed".to_owned(),
                "diagnostic writer is not accepting finalization".to_owned(),
            ),
        ),
        FinalizeReply::Replied { reply: Ok(watermark) } => Ok(watermark),
        FinalizeReply::Replied { reply: Err(failure) } => Err(
            CleanupFailure::new("writer", failure.code, failure.message),
        ),
        FinalizeReply::Unanswered => Err(
            CleanupFailure::new(
                "writer",
                "writer_finalize_result_unavailable".to_owned(),
                "diagnostic writer exited without a finalization result".to_owned(),
            ),
        ),
    }
}

/// The failures of stopping a writer: that of sealing the ingress, where it was sealed, and then
/// that of its thread.
pub open spec fn is_join(
    sealed: Option<Result<(), String>>,
    exit: WriterExit,
    failures: Seq<CleanupFailure>,
) -> bool {
    let unsealed: int = if sealed is Some && sealed->0 is Err {
        1
    } else {
        0
    };
    &&& unsealed == 1 ==> failures.len() > 0 && writer_failure(
        failures[0],
        "writer_ingress_seal_failed"@,
        sealed->0->Err_0@,
    )
    &&& match exit {
        WriterExit::Ended => failures.len() == unsealed,
        WriterExit::Failed { failure } => failures.len() == unsealed + 1 && writer_failure(
            failures[unsealed],
            failure.code@,
            failure.message@,
        ),
        WriterExit::Panicked => failures.len() == unsealed + 1 && writer_failure(
            failures[unsealed],
            "writer_join_panicked"@,
            "diagnostic writer thread panicked while joining"@,
        ),
    }
}

/// Takes what came of stopping a writer.
pub fn join_failures(sealed: Option<Result<(), String>>, exit: WriterExit) -> (failures: Vec<
    CleanupFailure,
>)
    ensures
        is_join(sealed, exit, failures@),
{
    let mut failures: Vec<CleanupFailure> = Vec::new();
    if let Some(Err(message)) = sealed {
        failures.push(
            CleanupFailure::new("writer", "writer_ingress_seal_failed".to_owned(), message),
        );
    }
    match exit {
        WriterExit::Ended => {},
        WriterExit::Failed { failure } => failures.push(
            CleanupFailure::new("writer", failure.code, failure.message),
        ),
        WriterExit::Panicked => failures.push(
            CleanupFailure::new(
                "writer",
                "writer_join_panicked".to_owned(),
                "diagnostic writer thread panicked while joining".to_owned(),
            ),
        ),
    }
    failures
}

/// Calls of a writer's thread, in order.
pub type ThreadLog = Seq<ThreadCall>;

/// The thread that a writer runs in, and the ways to it. Nothing is promised of what it answers, only
/// that it is known what was asked of it.
pub trait WriterThread {
    /// Every call so far.
    spec fn told(&self) -> ThreadLog;

    /// Makes the writer of a store.
    fn make_writer(&mut self) -> (made: Result<(), StoreFault>)
        ensures
            final(self).told() == old(self).told().push(ThreadCall::Made { made }),
    ;

    /// Starts the thread, or tells why it did not start.
    fn spawn(&mut self) -> (spawned: Result<(), String>)
        ensures
            final(self).told() == old(self).told().push(ThreadCall::Spawned { spawned }),
    ;

    /// Waits until the writer is ready. It never is where it ended before.
    fn wait_until_ready(&mut self) -> (ready: bool)
        ensures
            final(self).told() == old(self).told().push(ThreadCall::Ready { ready }),
    ;

    /// Seals the ingress, or tells why it was not sealed.
    fn seal_ingress(&mut self) -> (sealed: Result<(), String>)
        ensures
            final(self).told() == old(self).told().push(ThreadCall::Sealed { sealed }),
    ;

    /// Sends a command. A writer that is gone takes none.
    fn send(&mut self, command: &WriterCommand) -> (heard: bool)
        ensures
            final(self).told() == old(self).told().push(
                ThreadCall::Sent { command: *command, heard },
            ),
    ;

    /// Wakes the thread, which may be waiting.
    fn wake(&mut self)
        ensures
            final(self).told() == old(self).told().push(ThreadCall::Woken),
    ;

    /// Waits for the answer to a finalization. There is none where the writer ended before.
    fn answer(&mut self) -> (reply: Option<Result<u64, DiagnosticCoreFailure>>)
        ensures
            final(self).told() == old(self).told().push(ThreadCall::Answered { reply }),
    ;

    /// Waits until the thread has ended.
    fn join(&mut self) -> (exit: WriterExit)
        ensures
            final(self).told() == old(self).told().push(ThreadCall::Joined { exit }),
    ;
}

/// A call of a writer's thread, with what was answered.
pub enum ThreadCall {
    Made { made: Result<(), StoreFault> },
    Spawned { spawned: Result<(), String> },
    Ready { ready: bool },
    Sealed { sealed: Result<(), String> },
    Sent { command: WriterCommand, heard: bool },
    Woken,
    Answered { reply: Option<Result<u64, DiagnosticCoreFailure>> },
    Joined { exit: WriterExit },
}

/// Watches over the thread of a writer.
pub struct WriterSupervisor<T> {
    pub thread: T,
    /// The thread was started, and not yet joined.
    pub running: bool,
}

/// What came of starting a writer. `told` holds the calls.
pub open spec fn on_start(told: Seq<ThreadCall>, result: Result<(), BootstrapError>) -> bool {
    &&& told.len() >= 1
    &&& told[0] matches ThreadCall::Made { made }
    &&& match made {
        Err(fault) => {
            &&& told.len() == 1
            &&& result is Err
            &&& result->Err_0.says(
                BootstrapPhase::WriterSupervisorReady,
                fault.code@,
                fault.message@,
            )
        },
        Ok(_) => told.len() >= 2 && on_spawn(told, result),
    }
}

/// What came of starting the thread of a writer that was made.
pub open spec fn on_spawn(told: Seq<ThreadCall>, result: Result<(), BootstrapError>) -> bool {
    &&& told[1] matches ThreadCall::Spawned { spawned }
    &&& match spawned {
        Err(message) => {
            &&& told.len() == 2
            &&& result is Err
            &&& result->Err_0.says(
                BootstrapPhase::WriterSupervisorReady,
                "bootstrap.writer_thread_spawn_failed"@,
                message@,
            )
        },
        Ok(_) => {
            &&& told.len() >= 3
            &&& told[2] matches ThreadCall::Ready { ready }
            &&& if ready {
                told.len() == 3 && result is Ok
            } else {
                &&& told.len() == 4
                &&& told[3] matches ThreadCall::Joined { exit }
                &&& result is Err
                &&& result->Err_0.says(
                    BootstrapPhase::WriterSupervisorReady,
                    "bootstrap.writer_exited_before_ready"@,
                    unready_text(exit),
                )
            }
        },
    }
}

/// What came of telling a writer to finalize. `told` holds the calls: a command that was heard is
/// waited for.
pub open spec fn on_finalize(
    ended_at: Seq<char>,
    outcome: FinalProductionOutcome,
    told: Seq<ThreadCall>,
    result: Result<u64, CleanupFailure>,
) -> bool {
    &&& told.len() >= 1
    &&& told[0] matches ThreadCall::Sent {
        command: WriterCommand::Finalize { ended_at: at, outcome: ending },
        heard,
    }
    &&& at@ == ended_at
    &&& ending == outcome
    &&& if heard {
        &&& told.len() == 3
        &&& told[1] is Woken
        &&& told[2] matches ThreadCall::Answered { reply }
        &&& is_finalized(
            match reply {
                Some(reply) => FinalizeReply::Replied { reply },
                None => FinalizeReply::Unanswered,
            },
            result,
        )
    } else {
        told.len() == 1 && is_finalized(FinalizeReply::Unsent, result)
    }
}

/// What came of stopping a writer without finalizing. `told` holds the calls.
pub open spec fn on_shutdown(told: Seq<ThreadCall>, failures: Seq<CleanupFailure>) -> bool {
    on_join(WriterCommand::Abort, true, told, failures)
}

/// What came of stopping a writer that has finalized. `told` holds the calls.
pub open spec fn on_close(told: Seq<ThreadCall>, failures: Seq<CleanupFailure>) -> bool {
    on_join(WriterCommand::Close, false, told, failures)
}

/// What came of stopping a writer with a command. `told` holds the calls: the ingress is sealed
/// first, where it is to be, and whatever becomes of the command, the thread is joined.
pub open spec fn on_join(
    command: WriterCommand,
    seals: bool,
    told: Seq<ThreadCall>,
    failures: Seq<CleanupFailure>,
) -> bool {
    let sealed: int = if seals {
        1
    } else {
        0
    };
    &&& told.len() == sealed + 3
    &&& seals ==> told[0] is Sealed
    &&& told[sealed] matches ThreadCall::Sent { command: sent, .. } && sent == command
    &&& told[sealed + 1] is Woken
    &&& told[sealed + 2] matches ThreadCall::Joined { exit }
    &&& is_join(
        if seals {
            Some(told[0]->sealed)
        } else {
            None
        },
        exit,
        failures,
    )
}

impl<T: WriterThread> WriterSupervisor<T> {
    pub fn new(thread: T) -> (supervisor: Self)
        ensures
            supervisor.thread == thread,
            !supervisor.running,
    {
        WriterSupervisor { thread, running: false }
    }

    /// What was called so far.
    pub open spec fn calls(self) -> Seq<ThreadCall> {
        self.thread.told()
    }

    /// What was called since.
    pub open spec fn told_since(self, before: Self) -> Seq<ThreadCall> {
        self.calls().skip(before.calls().len() as int)
    }

    /// Nothing that was called before is forgotten.
    pub open spec fn goes_on(self, before: Self) -> bool {
        self.calls() =~= before.calls() + self.told_since(before)
    }

    /// Starts a writer, and waits until it is ready.
    pub fn start(&mut self) -> (result: Result<(), BootstrapError>)
        requires
            !old(self).running,
        ensures
            final(self).goes_on(*old(self)),
            on_start(final(self).told_since(*old(self)), result),
            final(self).running == result is Ok,
    {
        let made = self.thread.make_writer();
        if let Err(fault) = made {
            return Err(
                BootstrapError::new(
                    BootstrapPhase::WriterSupervisorReady,
                    fault.code,
                    fault.message,
                ),
            );
        }
        let spawned = self.thread.spawn();
        if let Err(message) = spawned {
            return Err(
                BootstrapError::new(
                    BootstrapPhase::WriterSupervisorReady,
                    "bootstrap.writer_thread_spawn_failed".to_owned(),
                    message,
                ),
            );
        }
        let ready = self.thread.wait_until_ready();
        if !ready {
            let exit = self.thread.join();
            return Err(
                BootstrapError::new(
                    BootstrapPhase::WriterSupervisorReady,
                    "bootstrap.writer_exited_before_ready".to_owned(),
                    unready_message(exit),
                ),
            );
        }
        self.running = true;
        Ok(())
    }

    /// Tells the writer to finalize the run, and waits for the last watermark.
    pub fn finalize(&mut self, ended_at: String, outcome: FinalProductionOutcome) -> (result:
        Result<u64, CleanupFailure>)
        requires
            old(self).running,
        ensures
            final(self).running,
            final(self).goes_on(*old(self)),
            on_finalize(ended_at@, outcome, final(self).told_since(*old(self)), result),
    {
        let command = WriterCommand::Finalize { ended_at, outcome };
        let heard = self.thread.send(&command);
        if !heard {
            return finalized(FinalizeReply::Unsent);
        }
        self.thread.wake();
        let reply = self.thread.answer();
        finalized(
            match reply {
                Some(reply) => FinalizeReply::Replied { reply },
                None => FinalizeReply::Unanswered,
            },
        )
    }

    /// Stops the writer with a command, and waits for its end. A writer that is not running is left
    /// alone.
    pub fn join_after(&mut self, command: WriterCommand, seals: bool) -> (failures: Vec<
        CleanupFailure,
    >)
        ensures
            !final(self).running,
            final(self).goes_on(*old(self)),
            if old(self).running {
                on_join(command, seals, final(self).told_since(*old(self)), failures@)
            } else {
                final(self).calls() == old(self).calls() && failures@.len() == 0
            },
    {
        if !self.running {
            return Vec::new();
        }
        self.running = false;
        let sealed = if seals {
            let sealed = self.thread.seal_ingress();
            Some(sealed)
        } else {
            None
        };
        let heard = self.thread.send(&command);
        self.thread.wake();
        let exit = self.thread.join();
        join_failures(sealed, exit)
    }

    /// Stops the writer without finalizing.
    pub fn shutdown(&mut self) -> (failures: Vec<CleanupFailure>)
        ensures
            !final(self).running,
            final(self).goes_on(*old(self)),
            if old(self).running {
                on_shutdown(final(self).told_since(*old(self)), failures@)
            } else {
                final(self).calls() == old(self).calls() && failures@.len() == 0
            },
    {
        self.join_after(WriterCommand::Abort, true)
    }

    /// Stops a writer that has finalized.
    pub fn close(&mut self) -> (failures: Vec<CleanupFailure>)
        ensures
            !final(self).running,
            final(self).goes_on(*old(self)),
            if old(self).running {
                on_close(final(self).told_since(*old(self)), failures@)
            } else {
                final(self).calls() == old(self).calls() && failures@.len() == 0
            },
    {
        self.join_after(WriterCommand::Close, false)
    }
}

/// A writer is started exactly where it was made, its thread was spawned and it became ready; each
/// is asked for only after the one before, and a thread that did not become ready is joined.
pub proof fn writers_start_where_all_went_well(
    told: Seq<ThreadCall>,
    result: Result<(), BootstrapError>,
)
    requires
        on_start(told, result),
    ensures
        ({
            let made = told[0] matches ThreadCall::Made { made } && made is Ok;
            let spawned = told.len() >= 2 && (told[1] matches ThreadCall::Spawned { spawned }
                && spawned is Ok);
            let ready = told.len() >= 3 && (told[2] matches ThreadCall::Ready { ready } && ready);
            &&& result is Ok <==> made && spawned && ready
            &&& told.len() >= 2 <==> made
            &&& told.len() >= 3 <==> made && spawned
            &&& told.len() == 4 <==> made && spawned && !ready
            &&& told.len() == 4 ==> told[3] is Joined
            &&& told.len() <= 4
            &&& result matches Err(error) ==> error.phase is WriterSupervisorReady
                && error.cleanup_failures@.len() == 0
            &&& !made ==> result->Err_0.message@ == told[0]->made->Err_0.message@
            &&& made && !spawned ==> result->Err_0.message@ == told[1]->spawned->Err_0@
        }),
{
}

/// A run is finalized at the watermark that the writer answered with, and where it answered with a
/// failure, that is told. A writer that takes no command is not waited for, and one that ends
/// without a word has failed. It is told when and how the production ended.
pub proof fn finalization_is_what_the_writer_answered(
    ended_at: Seq<char>,
    outcome: FinalProductionOutcome,
    told: Seq<ThreadCall>,
    result: Result<u64, CleanupFailure>,
)
    requires
        on_finalize(ended_at, outcome, told, result),
    ensures
        told[0] matches ThreadCall::Sent { command, heard } && {
            &&& command matches WriterCommand::Finalize { ended_at: at, outcome: ending } && at@
                == ended_at && ending == outcome
            &&& told.len() == if heard { 3int } else { 1int }
            &&& !heard ==> result is Err
            &&& heard ==> told[1] is Woken && (told[2] matches ThreadCall::Answered { reply } && {
                &&& result is Ok <==> reply is Some && reply->0 is Ok
                &&& result matches Ok(watermark) ==> watermark == reply->0->Ok_0
                &&& reply is Some && reply->0 is Err ==> result->Err_0.code@
                    == reply->0->Err_0.code@ && result->Err_0.message@ == reply->0->Err_0.message@
            })
        },
        result matches Err(failure) ==> failure.component == "writer",
{
}

/// A writer is stopped with the command that is given, after its ingress was sealed where it is to
/// be, and is joined whatever became of it. Every step that failed is told, in order, and nothing
/// else: the seal first, and how the thread ended after it.
pub proof fn stopped_writers_tell_what_failed(
    command: WriterCommand,
    seals: bool,
    told: Seq<ThreadCall>,
    failures: Seq<CleanupFailure>,
)
    requires
        on_join(command, seals, told, failures),
    ensures
        ({
            let count = told.len() as int;
            let unsealed = seals && (told[0] matches ThreadCall::Sealed { sealed } && sealed
                is Err);
            &&& count == if seals { 4int } else { 3int }
            &&& told[0] is Sealed <==> seals
            &&& told[count - 3] matches ThreadCall::Sent { command: sent, .. } && sent == command
            &&& told[count - 2] is Woken
            &&& told[count - 1] matches ThreadCall::Joined { exit } && {
                let ended = exit is Ended;
                &&& failures.len() == (if unsealed { 1int } else { 0int }) + (if ended {
                    0int
                } else {
                    1int
                })
                &&& unsealed ==> failures[0].message@ == told[0]->sealed->Err_0@
                &&& exit matches WriterExit::Failed { failure } ==> failures.last().code@
                    == failure.code@ && failures.last().message@ == failure.message@
            }
            &&& forall|i: int|
                0 <= i < failures.len() ==> (#[trigger] failures[i]).component == "writer"
        }),
{
}

/// A writer that is shut down takes nothing more in before it is told to abort, and one that is
/// closed is told to close, with what it takes in as it was. Both are woken and joined.
pub proof fn writers_are_shut_down_or_closed(
    told: Seq<ThreadCall>,
    failures: Seq<CleanupFailure>,
    closes: bool,
)
    requires
        if closes {
            on_close(told, failures)
        } else {
            on_shutdown(told, failures)
        },
    ensures
        ({
            let count = told.len() as int;
            &&& count >= 3
            &&& told[0] is Sealed <==> !closes
            &&& told[count - 3] matches ThreadCall::Sent { command, .. } && (command is Close
                <==> closes) && (command is Abort <==> !closes)
            &&& told[count - 2] is Woken
            &&& told[count - 1] matches ThreadCall::Joined { exit } && (failures.len() == 0 <==> exit
                is Ended && (closes || (told[0] matches ThreadCall::Sealed { sealed } && sealed
                is Ok)))
        }),
{
}

} // verus!
