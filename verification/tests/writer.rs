use diagnostic_runtime::bootstrap::{DiagnosticCoreFailure, QuotaError};
use diagnostic_runtime::shutdown::FinalProductionOutcome;
use diagnostic_runtime::writer::{
    CommandPoll, StoreFault, SupervisedFailure, WriterAction, WriterCommand, WriterEvent,
    WriterLoop,
};
use diagnostic_runtime::writer_supervisor::{
    finalized, join_failures, task_result, unready_message, FinalizeReply, WriterExit,
    WriterSupervisor, WriterThread,
};

/// Hands a writer the events, each of which must answer the action before it.
fn run(events: Vec<WriterEvent>) -> (WriterLoop, Vec<WriterAction>) {
    let (mut writer, first) = WriterLoop::begin();
    let mut actions = vec![first];
    for event in events {
        let answered = matches!(
            (actions.last().unwrap(), &event),
            (WriterAction::ReadStatus, WriterEvent::Status { .. })
                | (WriterAction::ObserveProgress { .. }, WriterEvent::Observed { .. })
                | (WriterAction::RecordProgress, WriterEvent::Recorded { .. })
                | (WriterAction::SignalReady, WriterEvent::Signalled { .. })
                | (WriterAction::ReadIngressFailure, WriterEvent::IngressFailure { .. })
                | (WriterAction::ReadQuotaFailure, WriterEvent::QuotaFailure { .. })
                | (WriterAction::PollCommand, WriterEvent::Polled { .. })
                | (WriterAction::BeginShutdown, WriterEvent::ShutdownBegun { .. })
                | (WriterAction::Dequeue, WriterEvent::Dequeued { .. })
                | (WriterAction::Push, WriterEvent::Pushed { .. })
                | (WriterAction::Precheck { .. }, WriterEvent::Quota { .. })
                | (WriterAction::CommitBatch, WriterEvent::Store { .. })
                | (WriterAction::Measure, WriterEvent::Quota { .. })
                | (WriterAction::Flush, WriterEvent::Triggered { .. })
                | (WriterAction::Poll, WriterEvent::Triggered { .. })
                | (WriterAction::CountPending, WriterEvent::Pending { .. })
                | (WriterAction::Park, WriterEvent::Woken)
                | (WriterAction::FinalizeRun { .. }, WriterEvent::Finalized { .. })
                | (WriterAction::Reply { .. }, WriterEvent::Replied { .. })
                | (WriterAction::ReplyFailure { .. }, WriterEvent::Replied { .. })
                | (WriterAction::WaitForCommand, WriterEvent::Closing { .. })
                | (WriterAction::Checkpoint, WriterEvent::Store { .. })
        );
        assert!(answered, "{event:?} answers {:?}", actions.last());
        actions.push(writer.next(event));
    }
    (writer, actions)
}

fn observed(uncommitted: u64) -> Vec<WriterEvent> {
    vec![
        WriterEvent::Status { uncommitted: Ok(uncommitted) },
        WriterEvent::Observed { supervised: Ok(None) },
        WriterEvent::Recorded { recorded: true },
    ]
}

fn ready() -> Vec<WriterEvent> {
    let mut events = observed(0);
    events.push(WriterEvent::Signalled { heard: true });
    events
}

fn turn(poll: CommandPoll) -> Vec<WriterEvent> {
    vec![
        WriterEvent::IngressFailure { ingress_code: None },
        WriterEvent::QuotaFailure { quota_code: None },
        WriterEvent::Polled { poll },
    ]
}

fn ended_at() -> String {
    "2026-08-16T12:00:00Z".to_owned()
}

/// The writer drains for a finalization, and commits one last batch.
fn draining() -> Vec<WriterEvent> {
    let mut events = ready();
    events.extend(turn(CommandPoll::Command {
        command: WriterCommand::Finalize {
            ended_at: ended_at(),
            outcome: FinalProductionOutcome::Completed,
        },
    }));
    events.extend(observed(1));
    events.push(WriterEvent::ShutdownBegun { begun: Ok(()) });
    events.push(WriterEvent::Recorded { recorded: true });
    events.push(WriterEvent::Dequeued { dequeued: Ok(false) });
    events.push(WriterEvent::Triggered { triggered: Ok(Some(12)) });
    events.push(WriterEvent::Quota { quota: Ok(()) });
    events.push(WriterEvent::Store { stored: Ok(()) });
    events.push(WriterEvent::Quota { quota: Ok(()) });
    events.extend(observed(0));
    events.push(WriterEvent::Pending { pending: 0 });
    events
}

fn failure_of(actions: &[WriterAction]) -> (&'static str, &'static str, String, String) {
    match actions.last() {
        Some(WriterAction::Finish { result: Err(failure) }) => (
            failure.component(),
            failure.stage(),
            failure.code().to_owned(),
            failure.message().to_owned(),
        ),
        other => panic!("expected a failure, found {other:?}"),
    }
}

fn assert_failure(events: Vec<WriterEvent>, told: (&'static str, &'static str, &str, &str)) {
    let (_, actions) = run(events);
    let found = failure_of(&actions);
    assert_eq!((found.0, found.1, found.2.as_str(), found.3.as_str()), told);
}

#[test]
fn a_drained_run_is_finalized_and_closed() {
    let mut events = draining();
    events.push(WriterEvent::Finalized { finalized: Ok(17) });
    events.push(WriterEvent::Quota { quota: Ok(()) });
    events.push(WriterEvent::Replied { heard: true });
    events.push(WriterEvent::Closing { closing: Some(WriterCommand::Close) });
    events.push(WriterEvent::Store { stored: Ok(()) });
    events.push(WriterEvent::Quota { quota: Ok(()) });
    let (_, actions) = run(events);
    assert!(actions.contains(&WriterAction::Flush));
    assert!(actions.contains(&WriterAction::Precheck { growth: 12 }));
    assert!(actions.contains(&WriterAction::FinalizeRun {
        ended_at: ended_at(),
        outcome: FinalProductionOutcome::Completed,
    }));
    assert!(actions.contains(&WriterAction::Reply { watermark: 17 }));
    assert_eq!(actions.last(), Some(&WriterAction::Finish { result: Ok(()) }));
}

#[test]
fn an_idle_writer_waits_a_while() {
    let mut events = ready();
    events.extend(turn(CommandPoll::Empty));
    events.push(WriterEvent::Dequeued { dequeued: Ok(false) });
    events.push(WriterEvent::Triggered { triggered: Ok(None) });
    events.extend(observed(0));
    let (_, actions) = run(events);
    assert_eq!(actions.last(), Some(&WriterAction::Park));
}

#[test]
fn a_writer_that_worked_turns_at_once() {
    let mut events = ready();
    events.extend(turn(CommandPoll::Empty));
    events.push(WriterEvent::Dequeued { dequeued: Ok(true) });
    events.push(WriterEvent::Pushed { filled: Ok(Some(100)) });
    events.push(WriterEvent::Quota { quota: Ok(()) });
    events.push(WriterEvent::Store { stored: Ok(()) });
    events.push(WriterEvent::Quota { quota: Ok(()) });
    events.push(WriterEvent::Dequeued { dequeued: Ok(false) });
    events.push(WriterEvent::Triggered { triggered: Ok(None) });
    events.extend(observed(0));
    let (_, actions) = run(events);
    assert!(actions.contains(&WriterAction::Precheck { growth: 100 }));
    assert_eq!(actions.last(), Some(&WriterAction::ReadIngressFailure));
}

#[test]
fn an_abandoned_writer_checkpoints_without_finalizing() {
    let mut events = ready();
    events.extend(turn(CommandPoll::Disconnected));
    events.extend(observed(0));
    events.push(WriterEvent::ShutdownBegun { begun: Ok(()) });
    events.push(WriterEvent::Recorded { recorded: true });
    events.push(WriterEvent::Dequeued { dequeued: Ok(false) });
    events.push(WriterEvent::Triggered { triggered: Ok(None) });
    events.extend(observed(0));
    events.push(WriterEvent::Pending { pending: 0 });
    let (_, actions) = run(events);
    assert_eq!(actions.last(), Some(&WriterAction::Checkpoint));
    assert!(!actions.iter().any(|action| matches!(action, WriterAction::FinalizeRun { .. })));
}

#[test]
fn a_refused_quota_stops_a_commit() {
    let mut events = ready();
    events.extend(turn(CommandPoll::Empty));
    events.push(WriterEvent::Dequeued { dequeued: Ok(false) });
    events.push(WriterEvent::Triggered { triggered: Ok(Some(5)) });
    events.push(WriterEvent::Quota {
        quota: Err(QuotaError::LimitReached {
            code: "run_quota.limit_reached".to_owned(),
            message: "no room".to_owned(),
        }),
    });
    let (_, actions) = run(events);
    assert!(!actions.contains(&WriterAction::CommitBatch));
    assert_eq!(
        failure_of(&actions),
        ("quota", "precheck", "run_quota.limit_reached".to_owned(), "no room".to_owned())
    );
}

#[test]
fn each_failure_of_a_writer_is_told() {
    let message = || "broken".to_owned();
    assert_failure(
        vec![WriterEvent::Status { uncommitted: Err(message()) }],
        ("writer", "progress", "writer_progress_sample_unavailable", "broken"),
    );
    assert_failure(
        vec![
            WriterEvent::Status { uncommitted: Ok(0) },
            WriterEvent::Observed { supervised: Err(message()) },
        ],
        ("writer", "progress", "writer_progress_observation_failed", "broken"),
    );
    assert_failure(
        vec![
            WriterEvent::Status { uncommitted: Ok(0) },
            WriterEvent::Observed {
                supervised: Ok(Some(SupervisedFailure {
                    component: "writer",
                    stage: "stall",
                    code: "stalled".to_owned(),
                })),
            },
        ],
        ("writer", "stall", "stalled", "diagnostic writer supervisor reported stalled"),
    );
    assert_failure(
        vec![
            WriterEvent::Status { uncommitted: Ok(0) },
            WriterEvent::Observed { supervised: Ok(None) },
            WriterEvent::Recorded { recorded: false },
        ],
        (
            "writer",
            "progress",
            "writer_progress_state_poisoned",
            "diagnostic writer progress state is poisoned",
        ),
    );
    let mut unheard = observed(0);
    unheard.push(WriterEvent::Signalled { heard: false });
    assert_failure(
        unheard,
        (
            "writer",
            "readiness",
            "writer_readiness_receiver_dropped",
            "diagnostic writer readiness receiver was dropped",
        ),
    );
    let mut events = ready();
    events.push(WriterEvent::IngressFailure { ingress_code: Some("ingress.full".to_owned()) });
    assert_failure(
        events,
        (
            "writer",
            "admission",
            "ingress.full",
            "mandatory diagnostic ingress failed [ingress.full]",
        ),
    );
    let mut events = ready();
    events.push(WriterEvent::IngressFailure { ingress_code: None });
    events.push(WriterEvent::QuotaFailure { quota_code: Some("run_quota.sealed".to_owned()) });
    assert_failure(
        events,
        (
            "quota",
            "measurement",
            "run_quota.sealed",
            "diagnostic Run quota failed [run_quota.sealed]",
        ),
    );
    let mut events = ready();
    events.extend(turn(CommandPoll::Command { command: WriterCommand::Abort }));
    events.extend(observed(0));
    events.push(WriterEvent::ShutdownBegun { begun: Err(message()) });
    assert_failure(events, ("writer", "drain", "writer_shutdown_begin_failed", "broken"));
    let mut events = ready();
    events.extend(turn(CommandPoll::Empty));
    events.push(WriterEvent::Dequeued { dequeued: Err(message()) });
    assert_failure(events, ("writer", "admission", "writer_ingress_unavailable", "broken"));
    let mut events = ready();
    events.extend(turn(CommandPoll::Empty));
    events.push(WriterEvent::Dequeued { dequeued: Ok(true) });
    events.push(WriterEvent::Pushed { filled: Err(message()) });
    assert_failure(events, ("writer", "batch", "writer_batch_invalid", "broken"));
    let mut events = ready();
    events.extend(turn(CommandPoll::Empty));
    events.push(WriterEvent::Dequeued { dequeued: Ok(false) });
    events.push(WriterEvent::Triggered { triggered: Err(message()) });
    assert_failure(events, ("writer", "batch", "writer_batch_clock_failed", "broken"));
    let mut events = ready();
    events.extend(turn(CommandPoll::Empty));
    events.push(WriterEvent::Dequeued { dequeued: Ok(false) });
    events.push(WriterEvent::Triggered { triggered: Ok(Some(1)) });
    events.push(WriterEvent::Quota { quota: Ok(()) });
    events.push(WriterEvent::Store {
        stored: Err(StoreFault { code: "store.full".to_owned(), message: message() }),
    });
    assert_failure(events, ("writer", "commit", "store.full", "broken"));
    let mut events = draining();
    events.push(WriterEvent::Finalized { finalized: Ok(1) });
    events.push(WriterEvent::Quota { quota: Ok(()) });
    events.push(WriterEvent::Replied { heard: false });
    assert_failure(
        events,
        (
            "writer",
            "finalize",
            "writer_finalize_reply_receiver_dropped",
            "diagnostic writer finalization receiver was dropped",
        ),
    );
}

#[test]
fn a_failed_finalization_is_told_to_the_one_who_asked() {
    let mut events = draining();
    events.push(WriterEvent::Finalized {
        finalized: Err(StoreFault { code: "store.full".to_owned(), message: "full".to_owned() }),
    });
    let (_, actions) = run(events);
    let Some(WriterAction::ReplyFailure { failure }) = actions.last() else {
        panic!("the failure is told first")
    };
    assert_eq!(failure.code(), "store.full");

    let mut events = draining();
    events.push(WriterEvent::Finalized { finalized: Ok(1) });
    events.push(WriterEvent::Quota { quota: Ok(()) });
    events.push(WriterEvent::Replied { heard: true });
    events.push(WriterEvent::Closing {
        closing: Some(WriterCommand::Finalize {
            ended_at: ended_at(),
            outcome: FinalProductionOutcome::Failed,
        }),
    });
    events.push(WriterEvent::Replied { heard: false });
    assert_failure(
        events,
        (
            "writer",
            "close",
            "writer_finalized_twice",
            "diagnostic writer received a second finalization command",
        ),
    );
}

#[test]
fn ends_of_a_writer_are_told() {
    let failure = DiagnosticCoreFailure::writer("full".to_owned(), "store.full".to_owned());
    assert_eq!(
        unready_message(WriterExit::Ended),
        "diagnostic writer exited before readiness"
    );
    assert_eq!(
        unready_message(WriterExit::Panicked),
        "diagnostic writer panicked before readiness"
    );
    assert_eq!(unready_message(WriterExit::Failed { failure: failure.clone() }), "full");

    assert_eq!(task_result(Some(Ok(()))), Ok(()));
    assert_eq!(task_result(Some(Err(failure.clone()))), Err(failure.clone()));
    let panicked = task_result(None).expect_err("a task that panicked failed");
    assert_eq!(panicked.code(), "writer_panicked");
    assert_eq!(panicked.message(), "diagnostic writer task panicked");

    assert_eq!(finalized(FinalizeReply::Replied { reply: Ok(17) }), Ok(17));
    let unsent = finalized(FinalizeReply::Unsent).expect_err("the writer is gone");
    assert_eq!(unsent.code(), "writer_finalize_command_failed");
    let unanswered = finalized(FinalizeReply::Unanswered).expect_err("the writer left");
    assert_eq!(unanswered.code(), "writer_finalize_result_unavailable");
    let failed = finalized(FinalizeReply::Replied { reply: Err(failure.clone()) })
        .expect_err("the finalization failed");
    assert_eq!((failed.component(), failed.code()), ("writer", "store.full"));

    assert!(join_failures(Some(Ok(())), WriterExit::Ended).is_empty());
    let codes: Vec<String> = join_failures(
        Some(Err("poisoned".to_owned())),
        WriterExit::Failed { failure },
    )
    .iter()
    .map(|failure| failure.code().to_owned())
    .collect();
    assert_eq!(codes, ["writer_ingress_seal_failed", "store.full"]);
    assert_eq!(join_failures(None, WriterExit::Panicked)[0].code(), "writer_join_panicked");
}

/// A thread that does as it is told.
#[derive(Default)]
struct Thread {
    calls: Vec<String>,
    unmade: bool,
    unspawned: bool,
    unready: bool,
    deaf: bool,
    unsealed: bool,
    panics: bool,
}

impl WriterThread for Thread {
    fn told(&self) -> diagnostic_runtime::writer_supervisor::ThreadLog {
        unreachable!()
    }

    fn make_writer(&mut self) -> Result<(), StoreFault> {
        self.calls.push("make".to_owned());
        if self.unmade {
            Err(StoreFault { code: "store.locked".to_owned(), message: "locked".to_owned() })
        } else {
            Ok(())
        }
    }

    fn spawn(&mut self) -> Result<(), String> {
        self.calls.push("spawn".to_owned());
        if self.unspawned {
            Err("no threads".to_owned())
        } else {
            Ok(())
        }
    }

    fn wait_until_ready(&mut self) -> bool {
        self.calls.push("wait".to_owned());
        !self.unready
    }

    fn seal_ingress(&mut self) -> Result<(), String> {
        self.calls.push("seal".to_owned());
        if self.unsealed {
            Err("poisoned".to_owned())
        } else {
            Ok(())
        }
    }

    fn send(&mut self, command: &WriterCommand) -> bool {
        self.calls.push(format!("send {command:?}"));
        !self.deaf
    }

    fn wake(&mut self) {
        self.calls.push("wake".to_owned());
    }

    fn answer(&mut self) -> Option<Result<u64, DiagnosticCoreFailure>> {
        self.calls.push("answer".to_owned());
        Some(Ok(17))
    }

    fn join(&mut self) -> WriterExit {
        self.calls.push("join".to_owned());
        if self.panics {
            WriterExit::Panicked
        } else {
            WriterExit::Ended
        }
    }
}

#[test]
fn a_writer_is_started_finalized_and_joined_once() {
    let mut supervisor = WriterSupervisor::new(Thread::default());
    supervisor.start().expect("the writer is ready");
    assert_eq!(supervisor.thread.calls, ["make", "spawn", "wait"]);
    assert_eq!(supervisor.finalize(ended_at(), FinalProductionOutcome::Completed), Ok(17));
    assert!(supervisor.close().is_empty());
    assert_eq!(supervisor.thread.calls[6..], ["send Close", "wake", "join"]);
    assert!(supervisor.shutdown().is_empty());
    assert_eq!(supervisor.thread.calls.len(), 9);
}

#[test]
fn a_writer_that_does_not_start_is_told() {
    let start = |thread: Thread| {
        let mut supervisor = WriterSupervisor::new(thread);
        let error = supervisor.start().expect_err("the writer does not start");
        assert!(supervisor.shutdown().is_empty());
        (error.code().to_owned(), error.message, supervisor.thread.calls.len())
    };
    assert_eq!(
        start(Thread { unmade: true, ..Thread::default() }),
        ("store.locked".to_owned(), "locked".to_owned(), 1)
    );
    assert_eq!(
        start(Thread { unspawned: true, ..Thread::default() }),
        ("bootstrap.writer_thread_spawn_failed".to_owned(), "no threads".to_owned(), 2)
    );
    assert_eq!(
        start(Thread { unready: true, panics: true, ..Thread::default() }),
        (
            "bootstrap.writer_exited_before_ready".to_owned(),
            "diagnostic writer panicked before readiness".to_owned(),
            4
        )
    );
}

#[test]
fn a_writer_that_is_gone_is_still_joined() {
    let mut supervisor = WriterSupervisor::new(Thread {
        deaf: true,
        unsealed: true,
        panics: true,
        ..Thread::default()
    });
    supervisor.start().expect("the writer is ready");
    let unsent = supervisor
        .finalize(ended_at(), FinalProductionOutcome::Failed)
        .expect_err("the writer takes no command");
    assert_eq!(unsent.code(), "writer_finalize_command_failed");
    let codes: Vec<String> =
        supervisor.shutdown().iter().map(|failure| failure.code().to_owned()).collect();
    assert_eq!(codes, ["writer_ingress_seal_failed", "writer_join_panicked"]);
    assert_eq!(supervisor.thread.calls[4..], ["seal", "send Abort", "wake", "join"]);
}
