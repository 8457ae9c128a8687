use diagnostic_runtime::archive_views::{
    open_archive_views, Archive, ArchiveFailure, ArchiveViewOperationError, ReaderFailureClass,
};
use diagnostic_runtime::run_identity::CanonicalUuid;

const RUN_ID: CanonicalUuid = CanonicalUuid { value: 0x12345678_1234_4234_9234_123456789abc };
const OTHER_RUN_ID: CanonicalUuid =
    CanonicalUuid { value: 0x87654321_4321_4321_8321_cba987654321 };
const DIRECTORY: &str = "/srv/production/.troupe/diagnostics/runs/1";

struct Catalog {
    views: Vec<String>,
}

struct EmptyArchive {
    asked: Option<(String, CanonicalUuid)>,
    captured: bool,
    fail_capture: bool,
    fail_load: bool,
}

fn archive() -> EmptyArchive {
    EmptyArchive { asked: None, captured: false, fail_capture: false, fail_load: false }
}

fn failure(code: &'static str) -> ArchiveFailure {
    ArchiveFailure {
        class: ReaderFailureClass::ArchiveOperation,
        code,
        message: format!("{code} failed"),
    }
}

impl Archive<Catalog> for EmptyArchive {
    fn told(&self) -> diagnostic_runtime::archive_views::ArchiveLog<Catalog> {
        unreachable!()
    }

    fn open(
        &mut self,
        run_directory: &str,
        expected_run_id: CanonicalUuid,
    ) -> Result<(), ArchiveFailure> {
        self.asked = Some((run_directory.to_owned(), expected_run_id));
        if run_directory == DIRECTORY && expected_run_id == RUN_ID {
            Ok(())
        } else {
            Err(failure("diagnostic_reader.store_validation"))
        }
    }

    fn capture(&mut self) -> Result<(), ArchiveFailure> {
        self.captured = true;
        if self.fail_capture {
            Err(failure("diagnostic_reader.capture"))
        } else {
            Ok(())
        }
    }

    fn load(&mut self) -> Result<Catalog, ArchiveFailure> {
        if self.fail_load {
            Err(failure("diagnostic_views.load"))
        } else {
            Ok(Catalog { views: Vec::new() })
        }
    }
}

#[test]
fn opens_an_inactive_archive_through_the_q00_reader() {
    assert_eq!(RUN_ID.describe(), "12345678-1234-4234-9234-123456789abc");
    let mut archive = archive();
    let catalog = open_archive_views(&mut archive, DIRECTORY, RUN_ID);
    assert_eq!(archive.asked, Some((DIRECTORY.to_owned(), RUN_ID)));
    assert!(matches!(catalog, Ok(catalog) if catalog.views.is_empty()));
}

#[test]
fn store_identity_mismatch_fails_the_archive_operation() {
    assert_eq!(OTHER_RUN_ID.describe(), "87654321-4321-4321-8321-cba987654321");
    let mut archive = archive();
    let result = open_archive_views(&mut archive, DIRECTORY, OTHER_RUN_ID);
    assert_eq!(archive.asked, Some((DIRECTORY.to_owned(), OTHER_RUN_ID)));
    let Err(error) = result else { panic!("reject mismatched archive run identity") };
    assert_eq!(error.class(), ReaderFailureClass::ArchiveOperation);
    assert_eq!(error.code(), "diagnostic_reader.store_validation");
    assert!(!archive.captured);
}

#[test]
fn each_failure_of_an_archive_is_told() {
    let mut capturing = archive();
    capturing.fail_capture = true;
    let result = open_archive_views(&mut capturing, DIRECTORY, RUN_ID);
    let Err(error) = result else { panic!("the capture fails") };
    assert!(matches!(error, ArchiveViewOperationError::Reader { .. }));
    assert_eq!(error.code(), "diagnostic_reader.capture");

    let mut loading = archive();
    loading.fail_load = true;
    let result = open_archive_views(&mut loading, DIRECTORY, RUN_ID);
    let Err(error) = result else { panic!("the views do not load") };
    assert!(matches!(error, ArchiveViewOperationError::Views { .. }));
    assert_eq!(error.describe(), "diagnostic_views.load failed");
}
