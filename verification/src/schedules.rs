//! Reusable weekly-window schedules that door rules attach to: a schedule
//! needs a name unique among schedules, and its intervals must pass the
//! interval validator, whose complaint is handed back to the administrator.

use vstd::prelude::*;
use vstd::string::*;
use crate::errors::{
    api_err, database_error_spec, error_with, ApiError, ApiErrorKind, ApiErrorView, DatabaseError, DatabaseErrorView,
    DbErrorKind, DieselFailure, DieselFailureView,
};
use crate::text::{trim, trim_str};

verus! {

/// The view of the interval validator's verdict.
pub open spec fn verdict_view(v: Result<(), String>) -> Result<(), Seq<char>> {
    match v {
        Ok(()) => Ok(()),
        Err(m) => Err(m@),
    }
}

/// The checks on a new schedule: a name, then intervals the validator
/// accepts (its complaint becomes a 400). On success, the trimmed name.
pub open spec fn new_schedule_spec(name: Seq<char>, verdict: Result<(), Seq<char>>) -> Result<Seq<char>, ApiErrorView> {
    if trim(name).len() == 0 {
        Err(api_err(ApiErrorKind::BadRequest, "name is required"@))
    } else {
        match verdict {
            Err(m) => Err(api_err(ApiErrorKind::BadRequest, m)),
            Ok(()) => Ok(trim(name)),
        }
    }
}

/// Check a new schedule, given the interval validator's verdict on its
/// intervals.
pub fn check_new_schedule(name: &str, verdict: Result<(), String>) -> (r: Result<String, ApiError>)
    ensures
        match r {
            Ok(n) => new_schedule_spec(name@, verdict_view(verdict)) == Ok::<Seq<char>, ApiErrorView>(n@),
            Err(e) => new_schedule_spec(name@, verdict_view(verdict)) == Err::<Seq<char>, ApiErrorView>(e@),
        },
{
    let n = trim_str(name);
    if n.as_str().is_empty() {
        return Err(error_with(ApiErrorKind::BadRequest, "name is required"));
    }
    match verdict {
        Err(m) => Err(ApiError::BadRequest(m)),
        Ok(()) => Ok(n),
    }
}

/// An update's new intervals, when it sets some, must pass the validator
/// (`verdict`, `None` when the update leaves the intervals alone).
pub fn check_schedule_intervals(verdict: Option<Result<(), String>>) -> (r: Result<(), ApiError>)
    ensures
        (verdict matches Some(Err(m))) ==> (r matches Err(e) && e@ == api_err(
            ApiErrorKind::BadRequest,
            verdict->Some_0->Err_0@,
        )),
        !(verdict matches Some(Err(m))) ==> r is Ok,
{
    match verdict {
        Some(Err(m)) => Err(ApiError::BadRequest(m)),
        _ => Ok(()),
    }
}

/// How a failed schedule write is explained: a taken name is a conflict;
/// anything else is classified as usual.
pub open spec fn schedule_conflict_spec(e: DatabaseErrorView) -> ApiErrorView {
    match e {
        DatabaseErrorView::Diesel(DieselFailureView::Database { kind: DbErrorKind::UniqueViolation, .. }) => api_err(
            ApiErrorKind::Conflict,
            "A schedule with that name already exists"@,
        ),
        _ => database_error_spec(e),
    }
}

/// Explain a failed schedule write.
pub fn schedule_conflict(e: DatabaseError) -> (r: ApiError)
    ensures
        r@ == schedule_conflict_spec(e@),
{
    match e {
        DatabaseError::Diesel(DieselFailure::Database { kind: DbErrorKind::UniqueViolation, .. }) => error_with(
            ApiErrorKind::Conflict,
            "A schedule with that name already exists",
        ),
        other => ApiError::from_database(other),
    }
}

} // verus!
