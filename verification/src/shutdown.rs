//! The order in which a diagnostic runtime shuts down.
use crate::identifier::decimal_text;
use vstd::prelude::*;
use vstd::string::StringExecFns;

verus! {

/// How the production ended, as its archive records it.
#[derive(Clone, Copy, Debug, PartialEq, Eq, Structural)]
pub enum FinalProductionOutcome {
    Completed,
    Failed,
    Cancelled,
}

/// What a shutdown records.
#[derive(Debug, PartialEq, Eq)]
pub struct ShutdownMetadata {
    pub ended_at: String,
    pub outcome: FinalProductionOutcome,
}

impl ShutdownMetadata {
    pub fn new(ended_at: String, outcome: FinalProductionOutcome) -> (metadata: Self)
        ensures
            metadata.ended_at == ended_at,
            metadata.outcome == outcome,
    {
        ShutdownMetadata { ended_at, outcome }
    }

    pub fn ended_at(&self) -> (ended_at: &str)
        ensures
            ended_at@ == self.ended_at@,
    {
        self.ended_at.as_str()
    }

    pub fn outcome(&self) -> (outcome: FinalProductionOutcome)
        ensures
            outcome == self.outcome,
    {
        self.outcome
    }

    /// Why live readers see the stream close.
    pub open spec fn spec_stream_close_reason(self) -> &'static str {
        match self.outcome {
            FinalProductionOutcome::Completed => "production_completed",
            FinalProductionOutcome::Failed => "production_failed",
            FinalProductionOutcome::Cancelled => "production_cancelled",
        }
    }

    pub fn stream_close_reason(&self) -> (reason: &'static str)
        ensures
            reason == self.spec_stream_close_reason(),
    {
        match self.outcome {
            FinalProductionOutcome::Completed => "production_completed",
            FinalProductionOutcome::Failed => "production_failed",
            FinalProductionOutcome::Cancelled => "production_cancelled",
        }
    }
}

/// A step of a cleanup that failed.
#[derive(Debug, PartialEq, Eq)]
pub struct CleanupFailure {
    pub component: &'static str,
    pub code: String,
    pub message: String,
}

/// The failure of a live stream that was not closed.
pub fn stream_failure(message: String) -> (failure: CleanupFailure)
    ensures
        failure@ == (FailureView {
            component: "stream",
            code: "stream_close_failed"@,
            message: message@,
        }),
{
    CleanupFailure::new("stream", "stream_close_failed".to_owned(), message)
}

/// What a failed step of a cleanup says.
pub struct FailureView {
    pub component: &'static str,
    pub code: Seq<char>,
    pub message: Seq<char>,
}

impl View for CleanupFailure {
    type V = FailureView;

    open spec fn view(&self) -> FailureView {
        FailureView { component: self.component, code: self.code@, message: self.message@ }
    }
}

impl CleanupFailure {
    pub fn new(component: &'static str, code: String, message: String) -> (failure: Self)
        ensures
            failure == (CleanupFailure { component, code, message }),
    {
        CleanupFailure { component, code, message }
    }

    pub fn component(&self) -> (component: &'static str)
        ensures
            component == self.component,
    {
        self.component
    }

    pub fn code(&self) -> (code: &str)
        ensures
            code@ == self.code@,
    {
        self.code.as_str()
    }

    pub fn message(&self) -> (message: &str)
        ensures
            message@ == self.message@,
    {
        self.message.as_str()
    }
}

/// Why a shutdown failed: every step that did, in order. There is always one.
#[derive(Debug, PartialEq, Eq)]
pub struct DiagnosticShutdownError {
    failures: Vec<CleanupFailure>,
}

impl DiagnosticShutdownError {
    #[verifier::type_invariant]
    spec fn has_failures(self) -> bool {
        self.failures@.len() > 0
    }

    pub closed spec fn spec_failures(self) -> Seq<CleanupFailure> {
        self.failures@
    }

    pub fn new(failures: Vec<CleanupFailure>) -> (error: Self)
        requires
            failures@.len() > 0,
        ensures
            error.spec_failures() == failures@,
    {
        DiagnosticShutdownError { failures }
    }

    pub fn failures(&self) -> (failures: &Vec<CleanupFailure>)
        ensures
            failures@ == self.spec_failures(),
            failures@.len() >= 1,
    {
        proof {
            use_type_invariant(self);
        }
        &self.failures
    }

    /// The text that describes the error.
    pub open spec fn text(self) -> Seq<char> {
        "diagnostic shutdown failed in "@ + crate::identifier::decimal(self.spec_failures().len())
            + " operation(s)"@
    }

    /// Describes the error to a reader.
    pub fn describe(&self) -> (text: String)
        ensures
            self.spec_failures().len() >= 1,
            text@ == self.text(),
    {
        proof {
            use_type_invariant(self);
        }
        "diagnostic shutdown failed in ".to_owned()
            .concat(decimal_text(self.failures.len() as u64).as_str())
            .concat(" operation(s)")
    }
}

/// The steps of a shutdown, in order.
pub type ShutdownLog = Seq<ShutdownStep>;

/// What a shutdown takes apart. Nothing is promised of how it goes, only that it is known which
/// steps were taken.
pub trait OrderedShutdownResources {
    /// Every step so far.
    spec fn told(&self) -> ShutdownLog;

    fn seal_ingress(&mut self) -> (done: Result<(), CleanupFailure>)
        ensures
            final(self).told() == old(self).told().push(ShutdownStep::SealIngress { done }),
    ;

    fn finalize_writer(&mut self, metadata: &ShutdownMetadata) -> (watermark: Result<
        u64,
        CleanupFailure,
    >)
        ensures
            final(self).told() == old(self).told().push(
                ShutdownStep::FinalizeWriter { metadata: *metadata, watermark },
            ),
    ;

    fn close_live_stream(&mut self, reason: &str, final_watermark: u64) -> (done: Result<
        (),
        CleanupFailure,
    >)
        ensures
            final(self).told() == old(self).told().push(
                ShutdownStep::CloseLiveStream { reason: reason@, final_watermark, done },
            ),
    ;

    fn unpublish_registry(&mut self) -> (done: Result<(), CleanupFailure>)
        ensures
            final(self).told() == old(self).told().push(ShutdownStep::UnpublishRegistry { done }),
    ;

    fn close_listener_and_readers(&mut self) -> (done: Result<(), CleanupFailure>)
        ensures
            final(self).told() == old(self).told().push(
                ShutdownStep::CloseListenerAndReaders { done },
            ),
    ;

    fn close_writer_and_store(&mut self) -> (failures: Vec<CleanupFailure>)
        ensures
            final(self).told() == old(self).told().push(
                ShutdownStep::CloseWriterAndStore { failures: failures@ },
            ),
    ;

    fn release_runtime_resources(&mut self)
        ensures
            final(self).told() == old(self).told().push(ShutdownStep::ReleaseRuntimeResources),
    ;
}

/// A step of a shutdown, with what it was given and how it went.
pub enum ShutdownStep {
    SealIngress { done: Result<(), CleanupFailure> },
    FinalizeWriter { metadata: ShutdownMetadata, watermark: Result<u64, CleanupFailure> },
    CloseLiveStream { reason: Seq<char>, final_watermark: u64, done: Result<(), CleanupFailure> },
    UnpublishRegistry { done: Result<(), CleanupFailure> },
    CloseListenerAndReaders { done: Result<(), CleanupFailure> },
    CloseWriterAndStore { failures: Seq<CleanupFailure> },
    ReleaseRuntimeResources,
}

impl ShutdownStep {
    /// The failures of a step.
    pub open spec fn failures(self) -> Seq<CleanupFailure> {
        match self {
            ShutdownStep::SealIngress { done: Err(failure) } => seq![failure],
            ShutdownStep::FinalizeWriter { watermark: Err(failure), .. } => seq![failure],
            ShutdownStep::CloseLiveStream { done: Err(failure), .. } => seq![failure],
            ShutdownStep::UnpublishRegistry { done: Err(failure) } => seq![failure],
            ShutdownStep::CloseListenerAndReaders { done: Err(failure) } => seq![failure],
            ShutdownStep::CloseWriterAndStore { failures } => failures,
            _ => Seq::empty(),
        }
    }

    /// The failures of all steps, in order.
    pub open spec fn all_failures(steps: Seq<ShutdownStep>) -> Seq<CleanupFailure>
        decreases steps.len(),
    {
        if steps.len() == 0 {
            Seq::empty()
        } else {
            ShutdownStep::all_failures(steps.drop_last()) + steps.last().failures()
        }
    }

    /// A shutdown of these steps ends as `result` says: it fails exactly where a step did.
    pub open spec fn ends_as(
        steps: Seq<ShutdownStep>,
        result: Result<(), DiagnosticShutdownError>,
    ) -> bool {
        match result {
            Ok(()) => ShutdownStep::all_failures(steps).len() == 0,
            Err(error) => {
                &&& error.spec_failures().len() > 0
                &&& error.spec_failures() == ShutdownStep::all_failures(steps)
            },
        }
    }

    /// The watermark that a writer was finalized at.
    pub open spec fn watermark(self) -> Option<u64> {
        match self {
            ShutdownStep::FinalizeWriter { watermark: Ok(watermark), .. } => Some(watermark),
            _ => None,
        }
    }

    /// The steps come in their order. The writer is finalized only once the ingress is sealed, and
    /// the live stream is closed only at the watermark that the writer was finalized at. All else
    /// happens in any case.
    pub open spec fn ordered(steps: Seq<ShutdownStep>, metadata: ShutdownMetadata) -> bool {
        let finalized: int = if steps[0] matches ShutdownStep::SealIngress { done: Ok(()) } {
            1
        } else {
            0
        };
        let closed: int = if finalized == 1 && steps[1].watermark() is Some {
            1
        } else {
            0
        };
        let rest = 1 + finalized + closed;
        &&& steps.len() == rest + 4
        &&& steps[0] is SealIngress
        &&& finalized == 1 ==> steps[1] is FinalizeWriter && steps[1]->metadata == metadata
        &&& closed == 1 ==> {
            &&& steps[2] is CloseLiveStream
            &&& steps[2]->reason == metadata.spec_stream_close_reason()@
            &&& steps[2]->final_watermark == steps[1].watermark()->0
        }
        &&& steps[rest] is UnpublishRegistry
        &&& steps[rest + 1] is CloseListenerAndReaders
        &&& steps[rest + 2] is CloseWriterAndStore
        &&& steps[rest + 3] is ReleaseRuntimeResources
    }
}

/// Shuts down in order. It fails exactly where a step did, with every failure in order.
pub fn run_ordered_shutdown<R: OrderedShutdownResources>(
    resources: &mut R,
    metadata: &ShutdownMetadata,
) -> (result: Result<(), DiagnosticShutdownError>)
    ensures
        final(resources).told() == old(resources).told() + final(resources).told().skip(
            old(resources).told().len() as int,
        ),
        ShutdownStep::ordered(
            final(resources).told().skip(old(resources).told().len() as int),
            *metadata,
        ),
        ShutdownStep::ends_as(
            final(resources).told().skip(old(resources).told().len() as int),
            result,
        ),
{
    let mut failures: Vec<CleanupFailure> = Vec::new();
    let ghost before = resources.told();
    let ghost mut steps: Seq<ShutdownStep> = Seq::empty();
    let sealed = resources.seal_ingress();
    proof {
        steps = record(steps, ShutdownStep::SealIngress { done: sealed });
    }
    let final_watermark = match sealed {
        Ok(()) => {
            let finalized = resources.finalize_writer(metadata);
            proof {
                steps = record(
                    steps,
                    ShutdownStep::FinalizeWriter { metadata: *metadata, watermark: finalized },
                );
            }
            match finalized {
                Ok(watermark) => Some(watermark),
                Err(failure) => {
                    failures.push(failure);
                    None
                },
            }
        },
        Err(failure) => {
            failures.push(failure);
            None
        },
    };
    assert(failures@ =~= ShutdownStep::all_failures(steps));
    assert(resources.told() =~= before + steps);
    if let Some(final_watermark) = final_watermark {
        let reason = metadata.stream_close_reason();
        let closed = resources.close_live_stream(reason, final_watermark);
        proof {
            steps = record(
                steps,
                ShutdownStep::CloseLiveStream { reason: reason@, final_watermark, done: closed },
            );
        }
        if let Err(failure) = closed {
            failures.push(failure);
        }
    }
    assert(failures@ =~= ShutdownStep::all_failures(steps));
    assert(resources.told() =~= before + steps);
    let unpublished = resources.unpublish_registry();
    proof {
        steps = record(steps, ShutdownStep::UnpublishRegistry { done: unpublished });
    }
    if let Err(failure) = unpublished {
        failures.push(failure);
    }
    assert(failures@ =~= ShutdownStep::all_failures(steps));
    let closed = resources.close_listener_and_readers();
    proof {
        steps = record(steps, ShutdownStep::CloseListenerAndReaders { done: closed });
    }
    if let Err(failure) = closed {
        failures.push(failure);
    }
    assert(failures@ =~= ShutdownStep::all_failures(steps));
    let mut writer_failures = resources.close_writer_and_store();
    proof {
        steps = record(
            steps,
            ShutdownStep::CloseWriterAndStore { failures: writer_failures@ },
        );
    }
    failures.append(&mut writer_failures);
    assert(failures@ =~= ShutdownStep::all_failures(steps));
    resources.release_runtime_resources();
    proof {
        steps = record(steps, ShutdownStep::ReleaseRuntimeResources);
    }
    assert(failures@ =~= ShutdownStep::all_failures(steps));
    assert(resources.told() =~= before + steps);
    assert(resources.told().skip(before.len() as int) =~= steps);
    shutdown_result(failures)
}

/// What a shutdown ends as, by the failures of its steps.
pub fn shutdown_result(failures: Vec<CleanupFailure>) -> (result: Result<
    (),
    DiagnosticShutdownError,
>)
    ensures
        match result {
            Ok(()) => failures@.len() == 0,
            Err(error) => failures@.len() > 0 && error.spec_failures() == failures@,
        },
{
    if failures.is_empty() {
        Ok(())
    } else {
        Err(DiagnosticShutdownError::new(failures))
    }
}

/// One more step adds its failures behind those before it.
proof fn record(steps: Seq<ShutdownStep>, step: ShutdownStep) -> (recorded: Seq<ShutdownStep>)
    ensures
        recorded == steps.push(step),
        ShutdownStep::all_failures(recorded) == ShutdownStep::all_failures(steps)
            + step.failures(),
{
    let recorded = steps.push(step);
    assert(recorded.drop_last() =~= steps);
    recorded
}

/// Whatever fails, the runtime's resources are released, last and once.
pub proof fn shutdown_always_releases(steps: Seq<ShutdownStep>, metadata: ShutdownMetadata)
    requires
        ShutdownStep::ordered(steps, metadata),
    ensures
        steps.last() is ReleaseRuntimeResources,
        forall|i: int|
            0 <= i < steps.len() - 1 ==> (#[trigger] steps[i]) !is ReleaseRuntimeResources,
{
}

/// The live stream is closed only after the writer was finalized, at its watermark.
pub proof fn stream_closes_at_the_final_watermark(
    steps: Seq<ShutdownStep>,
    metadata: ShutdownMetadata,
    place: int,
)
    requires
        ShutdownStep::ordered(steps, metadata),
        0 <= place < steps.len(),
        steps[place] is CloseLiveStream,
    ensures
        place == 2,
        steps[1].watermark() == Some(steps[place]->final_watermark),
{
}

/// Live readers see the stream close for the reason that names how the production ended, and for no
/// other: two endings that differ are told by two reasons.
pub proof fn streams_close_for_how_the_production_ended(
    metadata: ShutdownMetadata,
    other: ShutdownMetadata,
)
    ensures
        metadata.outcome is Completed <==> metadata.spec_stream_close_reason()@
            == "production_completed"@,
        metadata.outcome is Failed <==> metadata.spec_stream_close_reason()@
            == "production_failed"@,
        metadata.outcome is Cancelled <==> metadata.spec_stream_close_reason()@
            == "production_cancelled"@,
        metadata.spec_stream_close_reason()@ == other.spec_stream_close_reason()@
            <==> metadata.outcome == other.outcome,
{
    reveal_strlit("production_completed");
    reveal_strlit("production_failed");
    reveal_strlit("production_cancelled");
    assert("production_completed"@.len() == 20);
    assert("production_failed"@.len() == 17);
    assert("production_cancelled"@.len() == 20);
    assert("production_completed"@[12] == 'o');
    assert("production_cancelled"@[12] == 'a');
}

/// A shutdown seals what comes in first. Only what is sealed is finalized, with what the shutdown
/// records, and only what was finalized closes the stream, for the reason that names how it ended.
/// What is published is taken back, the readers are closed, and the writer and its store after
/// them, whatever failed before.
pub proof fn shutdown_takes_each_step_in_its_place(
    steps: Seq<ShutdownStep>,
    metadata: ShutdownMetadata,
)
    requires
        ShutdownStep::ordered(steps, metadata),
    ensures
        ({
            let count = steps.len() as int;
            let sealed = steps[0] is SealIngress && steps[0]->SealIngress_done is Ok;
            &&& 5 <= count <= 7
            &&& steps[0] is SealIngress
            &&& steps[count - 4] is UnpublishRegistry
            &&& steps[count - 3] is CloseListenerAndReaders
            &&& steps[count - 2] is CloseWriterAndStore
            &&& steps[count - 1] is ReleaseRuntimeResources
            &&& count > 5 <==> sealed
            &&& sealed ==> {
                &&& steps[1] matches ShutdownStep::FinalizeWriter { metadata: given, watermark } && {
                    &&& given == metadata
                    &&& count == 7 <==> watermark is Ok
                    &&& count == 7 ==> (steps[2] matches ShutdownStep::CloseLiveStream {
                        reason,
                        final_watermark,
                        ..
                    } && {
                        &&& final_watermark == watermark->Ok_0
                        &&& metadata.outcome is Completed ==> reason == "production_completed"@
                        &&& metadata.outcome is Failed ==> reason == "production_failed"@
                        &&& metadata.outcome is Cancelled ==> reason == "production_cancelled"@
                    })
                }
            }
        }),
{
}

/// A shutdown ends well exactly where none of its steps failed, and otherwise tells every failure
/// of every step.
pub proof fn shutdown_tells_every_failure(
    steps: Seq<ShutdownStep>,
    result: Result<(), DiagnosticShutdownError>,
    place: int,
    failure: CleanupFailure,
)
    requires
        ShutdownStep::ends_as(steps, result),
        0 <= place < steps.len(),
        match steps[place] {
            ShutdownStep::SealIngress { done } => done == Err::<(), CleanupFailure>(failure),
            ShutdownStep::FinalizeWriter { watermark, .. } => watermark == Err::<
                u64,
                CleanupFailure,
            >(failure),
            ShutdownStep::CloseLiveStream { done, .. } => done == Err::<(), CleanupFailure>(
                failure,
            ),
            ShutdownStep::UnpublishRegistry { done } => done == Err::<(), CleanupFailure>(failure),
            ShutdownStep::CloseListenerAndReaders { done } => done == Err::<(), CleanupFailure>(
                failure,
            ),
            ShutdownStep::CloseWriterAndStore { failures } => failures.contains(failure),
            ShutdownStep::ReleaseRuntimeResources => false,
        },
    ensures
        result is Err,
        result->Err_0.spec_failures().contains(failure),
{
    assert(steps[place].failures().contains(failure)) by {
        if steps[place] !is CloseWriterAndStore {
            assert(steps[place].failures() =~= seq![failure]);
            assert(steps[place].failures()[0] == failure);
        }
    }
    failures_of_a_step_are_among_all(steps, place, failure);
}

proof fn failures_of_a_step_are_among_all(
    steps: Seq<ShutdownStep>,
    place: int,
    failure: CleanupFailure,
)
    requires
        0 <= place < steps.len(),
        steps[place].failures().contains(failure),
    ensures
        ShutdownStep::all_failures(steps).contains(failure),
    decreases steps.len(),
{
    let before = ShutdownStep::all_failures(steps.drop_last());
    let last = steps.last().failures();
    if place == steps.len() - 1 {
        let i = choose|i: int| 0 <= i < last.len() && last[i] == failure;
        assert((before + last)[before.len() + i] == failure);
    } else {
        failures_of_a_step_are_among_all(steps.drop_last(), place, failure);
        let i = choose|i: int| 0 <= i < before.len() && before[i] == failure;
        assert((before + last)[i] == failure);
    }
}

} // verus!
