//! The cmi5 course surface: whether it is on, and how each failure of the
//! course service is answered. A refused package or binding is the
//! administrator's to fix (400), a missing course, unit or step is a 404,
//! and only the filesystem and the database are the server's fault.

use vstd::prelude::*;
use vstd::string::*;
use crate::errors::{
    api_err, database_error_spec, error_with, make_error, ApiError, ApiErrorKind, ApiErrorView, DatabaseError,
};
use crate::text::{append_str, dec_digits, push_decimal, string_from_chars};

verus! {

/// Refuse the cmi5 routes while cmi5 is switched off; they read as absent.
pub fn ensure_cmi5_enabled(enabled: bool) -> (r: Result<(), ApiError>)
    ensures
        enabled ==> r is Ok,
        !enabled ==> (r matches Err(e) && e@ == api_err(
            ApiErrorKind::NotFound,
            "cmi5 support is not enabled on this instance"@,
        )),
{
    if !enabled {
        return Err(error_with(ApiErrorKind::NotFound, "cmi5 support is not enabled on this instance"));
    }
    Ok(())
}

/// A failure of the cmi5 course service.
#[derive(Debug)]
pub enum Cmi5Error {
    Disabled,
    TooLarge { size: u64, max: u64 },
    Zip(String),
    NoManifest,
    Manifest(String),
    ZipSlip(String),
    Io(String),
    Pool(String),
    Db(DatabaseError),
    CourseNotFound,
    AuNotFound,
    StepNotFound,
    StepRequiresAssessment,
    MoveOnNotApplicable,
}

/// How each failure is answered.
pub open spec fn cmi5_error_spec(e: Cmi5Error) -> ApiErrorView {
    match e {
        Cmi5Error::Disabled => api_err(ApiErrorKind::NotFound, "cmi5 support is not enabled on this instance"@),
        Cmi5Error::TooLarge { size, max } => api_err(
            ApiErrorKind::BadRequest,
            "package is "@ + dec_digits(size as nat) + " bytes, over the "@ + dec_digits(max as nat)
                + "-byte limit"@,
        ),
        Cmi5Error::Zip(m) => api_err(ApiErrorKind::BadRequest, "not a readable zip archive: "@ + m@),
        Cmi5Error::NoManifest => api_err(ApiErrorKind::BadRequest, "package has no cmi5.xml at its root"@),
        Cmi5Error::Manifest(m) => api_err(ApiErrorKind::BadRequest, "invalid cmi5.xml: "@ + m@),
        Cmi5Error::ZipSlip(name) => api_err(
            ApiErrorKind::BadRequest,
            "package entry '"@ + name@ + "' escapes the content directory"@,
        ),
        Cmi5Error::Io(m) => api_err(ApiErrorKind::InternalServerError, "filesystem error: "@ + m@),
        Cmi5Error::Pool(m) => api_err(ApiErrorKind::InternalServerError, "database pool error: "@ + m@),
        Cmi5Error::Db(d) => database_error_spec(d@),
        Cmi5Error::CourseNotFound => api_err(ApiErrorKind::NotFound, "no such cmi5 course"@),
        Cmi5Error::AuNotFound => api_err(ApiErrorKind::NotFound, "no such assignable unit"@),
        Cmi5Error::StepNotFound => api_err(ApiErrorKind::NotFound, "no such training step"@),
        Cmi5Error::StepRequiresAssessment => api_err(
            ApiErrorKind::BadRequest,
            "a cmi5 module cannot satisfy a step that requires an assessment"@,
        ),
        Cmi5Error::MoveOnNotApplicable => api_err(
            ApiErrorKind::BadRequest,
            "an AU with moveOn=NotApplicable can never satisfy, so it cannot gate a tool"@,
        ),
    }
}

impl ApiError {
    /// `From<Cmi5Error>`.
    pub fn from_cmi5(e: Cmi5Error) -> (r: ApiError)
        ensures
            r@ == cmi5_error_spec(e),
    {
        match e {
            Cmi5Error::Disabled => error_with(ApiErrorKind::NotFound, "cmi5 support is not enabled on this instance"),
            Cmi5Error::TooLarge { size, max } => {
                let mut v: Vec<char> = Vec::new();
                append_str(&mut v, "package is ");
                push_decimal(&mut v, size);
                append_str(&mut v, " bytes, over the ");
                push_decimal(&mut v, max);
                append_str(&mut v, "-byte limit");
                make_error(ApiErrorKind::BadRequest, string_from_chars(v.as_slice()))
            },
            Cmi5Error::Zip(m) => make_error(
                ApiErrorKind::BadRequest,
                "not a readable zip archive: ".to_string().concat(m.as_str()),
            ),
            Cmi5Error::NoManifest => error_with(ApiErrorKind::BadRequest, "package has no cmi5.xml at its root"),
            Cmi5Error::Manifest(m) => make_error(
                ApiErrorKind::BadRequest,
                "invalid cmi5.xml: ".to_string().concat(m.as_str()),
            ),
            Cmi5Error::ZipSlip(name) => make_error(
                ApiErrorKind::BadRequest,
                "package entry '".to_string().concat(name.as_str()).concat("' escapes the content directory"),
            ),
            Cmi5Error::Io(m) => make_error(
                ApiErrorKind::InternalServerError,
                "filesystem error: ".to_string().concat(m.as_str()),
            ),
            Cmi5Error::Pool(m) => make_error(
                ApiErrorKind::InternalServerError,
                "database pool error: ".to_string().concat(m.as_str()),
            ),
            Cmi5Error::Db(d) => ApiError::from_database(d),
            Cmi5Error::CourseNotFound => error_with(ApiErrorKind::NotFound, "no such cmi5 course"),
            Cmi5Error::AuNotFound => error_with(ApiErrorKind::NotFound, "no such assignable unit"),
            Cmi5Error::StepNotFound => error_with(ApiErrorKind::NotFound, "no such training step"),
            Cmi5Error::StepRequiresAssessment => error_with(
                ApiErrorKind::BadRequest,
                "a cmi5 module cannot satisfy a step that requires an assessment",
            ),
            Cmi5Error::MoveOnNotApplicable => error_with(
                ApiErrorKind::BadRequest,
                "an AU with moveOn=NotApplicable can never satisfy, so it cannot gate a tool",
            ),
        }
    }
}

/// An import needs a file in the upload.
pub fn uploaded_file(bytes: Option<Vec<u8>>) -> (r: Result<Vec<u8>, ApiError>)
    ensures
        bytes matches Some(b) ==> (r matches Ok(x) && x@ == b@),
        bytes is None ==> (r matches Err(e) && e@ == api_err(ApiErrorKind::BadRequest, "no file in upload"@)),
{
    match bytes {
        Some(b) => Ok(b),
        None => Err(error_with(ApiErrorKind::BadRequest, "no file in upload")),
    }
}

} // verus!
