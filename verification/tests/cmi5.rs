use css_server::cmi5::{ensure_cmi5_enabled, uploaded_file, Cmi5Error};
use css_server::errors::{ApiError, DatabaseError};

#[test]
fn cmi5_reads_as_absent_when_off() {
    assert!(ensure_cmi5_enabled(true).is_ok());
    let err = ensure_cmi5_enabled(false).unwrap_err();
    assert_eq!(err.status(), 404);
    assert_eq!(err.response_message(), "cmi5 support is not enabled on this instance");
}

#[test]
fn package_failures_are_the_administrators() {
    let big = ApiError::from_cmi5(Cmi5Error::TooLarge { size: 2048, max: 1024 });
    assert_eq!(big.status(), 400);
    assert_eq!(big.response_message(), "package is 2048 bytes, over the 1024-byte limit");
    assert_eq!(
        ApiError::from_cmi5(Cmi5Error::Zip("bad header".to_string())).response_message(),
        "not a readable zip archive: bad header"
    );
    assert_eq!(
        ApiError::from_cmi5(Cmi5Error::ZipSlip("../x".to_string())).response_message(),
        "package entry '../x' escapes the content directory"
    );
    assert_eq!(ApiError::from_cmi5(Cmi5Error::NoManifest).response_message(), "package has no cmi5.xml at its root");
    assert_eq!(
        ApiError::from_cmi5(Cmi5Error::Manifest("no course".to_string())).response_message(),
        "invalid cmi5.xml: no course"
    );
    assert_eq!(ApiError::from_cmi5(Cmi5Error::StepRequiresAssessment).status(), 400);
    assert_eq!(ApiError::from_cmi5(Cmi5Error::MoveOnNotApplicable).status(), 400);
}

#[test]
fn missing_things_and_server_faults() {
    assert_eq!(ApiError::from_cmi5(Cmi5Error::Disabled).status(), 404);
    assert_eq!(ApiError::from_cmi5(Cmi5Error::CourseNotFound).response_message(), "no such cmi5 course");
    assert_eq!(ApiError::from_cmi5(Cmi5Error::AuNotFound).response_message(), "no such assignable unit");
    assert_eq!(ApiError::from_cmi5(Cmi5Error::StepNotFound).response_message(), "no such training step");
    assert_eq!(ApiError::from_cmi5(Cmi5Error::Io("disk full".to_string())).status(), 500);
    assert_eq!(ApiError::from_cmi5(Cmi5Error::Pool("timeout".to_string())).status(), 500);
    assert_eq!(ApiError::from_cmi5(Cmi5Error::Db(DatabaseError::Pool("x".to_string()))).status(), 500);
}

#[test]
fn an_import_needs_a_file() {
    assert_eq!(uploaded_file(Some(vec![1, 2])).unwrap(), vec![1, 2]);
    assert_eq!(uploaded_file(None).unwrap_err().response_message(), "no file in upload");
}
