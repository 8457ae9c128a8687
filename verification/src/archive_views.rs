//! How the views of an archive are opened.
use crate::run_identity::CanonicalUuid;
use vstd::prelude::*;

verus! {

/// Where a failure to read belongs.
#[derive(Clone, Copy, Debug, PartialEq, Eq, Structural)]
pub enum ReaderFailureClass {
    InvalidRequest,
    ActiveRuntime,
    ArchiveOperation,
}

/// A failure to read an archive.
#[derive(Debug, PartialEq, Eq)]
pub struct ArchiveFailure {
    pub class: ReaderFailureClass,
    pub code: &'static str,
    pub message: String,
}

/// Why the views of an archive were not opened: its reader failed, or its views did not load.
#[derive(Debug, PartialEq, Eq)]
pub enum ArchiveViewOperationError {
    Reader { failure: ArchiveFailure },
    Views { failure: ArchiveFailure },
}

impl ArchiveViewOperationError {
    /// The failure behind the error.
    pub open spec fn behind(self) -> ArchiveFailure {
        match self {
            ArchiveViewOperationError::Reader { failure } => failure,
            ArchiveViewOperationError::Views { failure } => failure,
        }
    }

    pub fn class(&self) -> (class: ReaderFailureClass)
        ensures
            class == self.behind().class,
    {
        match self {
            ArchiveViewOperationError::Reader { failure } => failure.class,
            ArchiveViewOperationError::Views { failure } => failure.class,
        }
    }

    pub fn code(&self) -> (code: &'static str)
        ensures
            code == self.behind().code,
    {
        match self {
            ArchiveViewOperationError::Reader { failure } => failure.code,
            ArchiveViewOperationError::Views { failure } => failure.code,
        }
    }

    /// Describes the error to a reader.
    pub fn describe(&self) -> (text: &str)
        ensures
            text@ == self.behind().message@,
    {
        match self {
            ArchiveViewOperationError::Reader { failure } => failure.message.as_str(),
            ArchiveViewOperationError::Views { failure } => failure.message.as_str(),
        }
    }
}

/// A question to an archive, with its answer.
pub enum ArchiveCall<C> {
    /// The archive in this directory was to be opened, as that of this run.
    Open {
        run_directory: Seq<char>,
        expected_run_id: CanonicalUuid,
        opened: Result<(), ArchiveFailure>,
    },
    Capture { captured: Result<(), ArchiveFailure> },
    Load { loaded: Result<C, ArchiveFailure> },
}

/// Questions to an archive, in order.
pub type ArchiveLog<C> = Seq<ArchiveCall<C>>;

/// A reader of archives. Nothing is promised of what it answers, only that it is known what it was
/// asked.
pub trait Archive<C> {
    /// Every question so far.
    spec fn told(&self) -> ArchiveLog<C>;

    /// Opens the archive in a directory, which has to be that of the run that is expected.
    fn open(&mut self, run_directory: &str, expected_run_id: CanonicalUuid) -> (opened: Result<
        (),
        ArchiveFailure,
    >)
        ensures
            final(self).told() == old(self).told().push(
                ArchiveCall::Open { run_directory: run_directory@, expected_run_id, opened },
            ),
    ;

    /// Captures what is committed in the archive that is open.
    fn capture(&mut self) -> (captured: Result<(), ArchiveFailure>)
        ensures
            final(self).told() == old(self).told().push(ArchiveCall::Capture { captured }),
    ;

    /// Loads the views of what was captured.
    fn load(&mut self) -> (loaded: Result<C, ArchiveFailure>)
        ensures
            final(self).told() == old(self).told().push(ArchiveCall::Load { loaded }),
    ;
}

/// The views of an archive were opened, or the first failure was told and nothing more asked.
/// `told` holds the questions.
pub open spec fn on_open<C>(
    run_directory: Seq<char>,
    expected_run_id: CanonicalUuid,
    told: Seq<ArchiveCall<C>>,
    result: Result<C, ArchiveViewOperationError>,
) -> bool {
    &&& told.len() >= 1
    &&& told[0] matches ArchiveCall::Open { run_directory: asked, expected_run_id: expected, opened }
    &&& asked == run_directory
    &&& expected == expected_run_id
    &&& match opened {
        Err(failure) => {
            &&& told.len() == 1
            &&& result == Err::<C, _>(ArchiveViewOperationError::Reader { failure })
        },
        Ok(_) => {
            &&& told.len() >= 2
            &&& told[1] matches ArchiveCall::Capture { captured }
            &&& match captured {
                Err(failure) => {
                    &&& told.len() == 2
                    &&& result == Err::<C, _>(ArchiveViewOperationError::Reader { failure })
                },
                Ok(_) => {
                    &&& told.len() == 3
                    &&& told[2] matches ArchiveCall::Load { loaded }
                    &&& result == loaded_views(loaded)
                },
            }
        },
    }
}

/// What comes of views that were loaded.
pub open spec fn loaded_views<C>(loaded: Result<C, ArchiveFailure>) -> Result<
    C,
    ArchiveViewOperationError,
> {
    match loaded {
        Ok(views) => Ok(views),
        Err(failure) => Err(ArchiveViewOperationError::Views { failure }),
    }
}

/// Takes the answer to the last question.
pub fn take_views<C>(loaded: Result<C, ArchiveFailure>) -> (result: Result<
    C,
    ArchiveViewOperationError,
>)
    ensures
        result == loaded_views(loaded),
{
    match loaded {
        Ok(views) => Ok(views),
        Err(failure) => Err(ArchiveViewOperationError::Views { failure }),
    }
}

/// Opens the views of the archive in a directory, as that of this run.
pub fn open_archive_views<C, A: Archive<C>>(
    archive: &mut A,
    run_directory: &str,
    expected_run_id: CanonicalUuid,
) -> (result: Result<C, ArchiveViewOperationError>)
    ensures
        final(archive).told() == old(archive).told() + final(archive).told().skip(
            old(archive).told().len() as int,
        ),
        on_open(
            run_directory@,
            expected_run_id,
            final(archive).told().skip(old(archive).told().len() as int),
            result,
        ),
{
    if let Err(failure) = archive.open(run_directory, expected_run_id) {
        return Err(ArchiveViewOperationError::Reader { failure });
    }
    if let Err(failure) = archive.capture() {
        return Err(ArchiveViewOperationError::Reader { failure });
    }
    take_views(archive.load())
}

/// Views are opened in order, of the directory and the run that are asked for: what is not opened
/// is not captured, and what is not captured is not loaded. What fails is told as where it failed:
/// in the reader up to the capture, and in the views after it.
pub proof fn views_are_loaded_of_what_was_captured<C>(
    run_directory: Seq<char>,
    expected_run_id: CanonicalUuid,
    told: Seq<ArchiveCall<C>>,
    result: Result<C, ArchiveViewOperationError>,
)
    requires
        on_open(run_directory, expected_run_id, told, result),
    ensures
        ({
            let opened = told[0] matches ArchiveCall::Open { opened, .. } && opened is Ok;
            let captured = told.len() >= 2 && (told[1] matches ArchiveCall::Capture { captured }
                && captured is Ok);
            &&& told[0] matches ArchiveCall::Open { run_directory: asked, expected_run_id: run, .. }
                && asked == run_directory && run == expected_run_id
            &&& told.len() >= 2 <==> opened
            &&& told.len() == 3 <==> opened && captured
            &&& told.len() <= 3
            &&& result matches Err(error) ==> (error is Views <==> told.len() == 3)
            &&& result is Ok ==> told.len() == 3 && (told[2] matches ArchiveCall::Load { loaded }
                && loaded is Ok && loaded->Ok_0 == result->Ok_0)
            &&& told.len() == 3 ==> (told[2] matches ArchiveCall::Load { loaded } && (loaded is Ok
                <==> result is Ok))
            &&& result is Err ==> (match told.last() {
                ArchiveCall::Open { opened: Err(failure), .. } => result->Err_0.behind() == failure,
                ArchiveCall::Capture { captured: Err(failure) } => result->Err_0.behind()
                    == failure,
                ArchiveCall::Load { loaded: Err(failure) } => result->Err_0.behind() == failure,
                _ => false,
            })
        }),
{
}

} // verus!
