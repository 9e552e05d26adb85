//! Who may see and change training: rosters and histories, members' own
//! progress, sessions that instructors sign off, trainer assignments, and the
//! training records trainers keep.
//!
//! Staff may do everything here. Otherwise a member sees their own progress
//! and records only, a trainer of a tool sees that tool's roster and history,
//! and only a certified instructor of a step signs off its sessions.

use vstd::prelude::*;
use vstd::string::*;
use crate::errors::{api_err, contains_str, contains_sub, error_with, ApiError, ApiErrorKind, ApiErrorView};
use crate::models::Timestamp;
use crate::text::{chars_of, trim, trim_str};

verus! {

/// The views that trainers and staff share.
#[derive(Clone, Copy, Debug, PartialEq, Eq, Structural)]
pub enum TrainerView {
    /// Every active member, for any trainer.
    Roster,
    /// The members to train on one tool, for that tool's trainers.
    ToolRoster,
    /// The training history of one tool, for that tool's trainers.
    History,
}

/// What a refusal of a trainer view says.
pub open spec fn trainer_view_denial(v: TrainerView) -> Seq<char> {
    match v {
        TrainerView::Roster => "Must be a trainer or staff to access training roster"@,
        TrainerView::ToolRoster => "Must be a trainer for this tool or staff to access tool training roster"@,
        TrainerView::History => "Must be a trainer for this tool or staff to access training history"@,
    }
}

/// Staff, and trainers (of any tool for the roster, of the tool otherwise),
/// may open a trainer view.
pub fn trainer_view_access(view: TrainerView, is_staff: bool, is_trainer: bool) -> (r: Result<(), ApiError>)
    ensures
        is_staff || is_trainer ==> r is Ok,
        !(is_staff || is_trainer) ==> (r matches Err(e) && e@ == api_err(
            ApiErrorKind::Forbidden,
            trainer_view_denial(view),
        )),
{
    if is_staff || is_trainer {
        return Ok(());
    }
    match view {
        TrainerView::Roster => Err(
            error_with(ApiErrorKind::Forbidden, "Must be a trainer or staff to access training roster"),
        ),
        TrainerView::ToolRoster => Err(
            error_with(
                ApiErrorKind::Forbidden,
                "Must be a trainer for this tool or staff to access tool training roster",
            ),
        ),
        TrainerView::History => Err(
            error_with(ApiErrorKind::Forbidden, "Must be a trainer for this tool or staff to access training history"),
        ),
    }
}

/// The records a member may read about themselves, and staff about anyone.
#[derive(Clone, Copy, Debug, PartialEq, Eq, Structural)]
pub enum OwnRecord {
    Overview,
    Progress,
    TrainingRecords,
}

/// What a refusal to show another member's record says.
pub open spec fn own_record_denial(r: OwnRecord) -> Seq<char> {
    match r {
        OwnRecord::Overview => "Cannot view other users' training overview"@,
        OwnRecord::Progress => "Cannot view other users' training progress"@,
        OwnRecord::TrainingRecords => "Cannot view other users' training records"@,
    }
}

/// A member reads their own record; staff read anyone's.
pub fn own_record_access(record: OwnRecord, viewer: u128, target: u128, is_staff: bool) -> (r: Result<(), ApiError>)
    ensures
        viewer == target || is_staff ==> r is Ok,
        !(viewer == target || is_staff) ==> (r matches Err(e) && e@ == api_err(
            ApiErrorKind::Forbidden,
            own_record_denial(record),
        )),
{
    if viewer == target || is_staff {
        return Ok(());
    }
    match record {
        OwnRecord::Overview => Err(error_with(ApiErrorKind::Forbidden, "Cannot view other users' training overview")),
        OwnRecord::Progress => Err(error_with(ApiErrorKind::Forbidden, "Cannot view other users' training progress")),
        OwnRecord::TrainingRecords => Err(
            error_with(ApiErrorKind::Forbidden, "Cannot view other users' training records"),
        ),
    }
}

/// What only staff and a step's certified instructors may do.
#[derive(Clone, Copy, Debug, PartialEq, Eq, Structural)]
pub enum InstructorAction {
    UpdateProgress,
    CompleteSession,
}

/// What a refusal of an instructor action says.
pub open spec fn instructor_action_denial(a: InstructorAction) -> Seq<char> {
    match a {
        InstructorAction::UpdateProgress => "Cannot update training progress"@,
        InstructorAction::CompleteSession => "Cannot complete training session"@,
    }
}

/// Staff, or an instructor certified for the step, may act on it.
pub fn instructor_access(action: InstructorAction, is_staff: bool, is_instructor: bool) -> (r: Result<(), ApiError>)
    ensures
        is_staff || is_instructor ==> r is Ok,
        !(is_staff || is_instructor) ==> (r matches Err(e) && e@ == api_err(
            ApiErrorKind::Forbidden,
            instructor_action_denial(action),
        )),
{
    if is_staff || is_instructor {
        return Ok(());
    }
    match action {
        InstructorAction::UpdateProgress => Err(error_with(ApiErrorKind::Forbidden, "Cannot update training progress")),
        InstructorAction::CompleteSession => Err(
            error_with(ApiErrorKind::Forbidden, "Cannot complete training session"),
        ),
    }
}

/// A new position for a training step.
#[derive(Clone, Copy, Debug)]
pub struct UpdateStepPositionRequest {
    pub step_number: i32,
}

/// A step that someone has progress on is never deleted; otherwise it must
/// exist.
pub fn step_deletion_gate(has_progress: bool, exists: bool) -> (r: Result<(), ApiError>)
    ensures
        has_progress ==> (r matches Err(e) && e@ == api_err(
            ApiErrorKind::BadRequest,
            "Cannot delete training step with existing user progress"@,
        )),
        !has_progress && !exists ==> (r matches Err(e) && e@ == api_err(
            ApiErrorKind::NotFound,
            "Training step not found"@,
        )),
        r is Ok <==> !has_progress && exists,
{
    if has_progress {
        return Err(error_with(ApiErrorKind::BadRequest, "Cannot delete training step with existing user progress"));
    }
    if !exists {
        return Err(error_with(ApiErrorKind::NotFound, "Training step not found"));
    }
    Ok(())
}

// ---------------------------------------------------------------------------
// Trainers and training records
// ---------------------------------------------------------------------------

/// Filters on the training records.
#[derive(Clone, Copy, Debug)]
pub struct TrainingRecordsQuery {
    pub tool_id: Option<u128>,
    pub trainer_id: Option<u128>,
    pub trainee_id: Option<u128>,
    pub limit: Option<i64>,
    pub offset: Option<i64>,
}

/// The trainer and trainee filters a listing runs with. Staff filter as
/// they like. A member may name themselves as trainer or trainee (with both
/// named, one of them must be the member); naming neither shows the records
/// they are in.
pub open spec fn records_filter_spec(viewer: u128, is_staff: bool, trainer: Option<u128>, trainee: Option<u128>) -> Result<
    (Option<u128>, Option<u128>),
    ApiErrorView,
> {
    if is_staff {
        Ok((trainer, trainee))
    } else {
        match (trainer, trainee) {
            (Some(t), Some(e)) => if t == viewer || e == viewer {
                Ok((trainer, trainee))
            } else {
                Err(api_err(ApiErrorKind::Forbidden, "Cannot view other users' training records"@))
            },
            (Some(t), None) => if t == viewer {
                Ok((trainer, trainee))
            } else {
                Err(api_err(ApiErrorKind::Forbidden, "Cannot view other users' training records"@))
            },
            (None, Some(e)) => if e == viewer {
                Ok((trainer, trainee))
            } else {
                Err(api_err(ApiErrorKind::Forbidden, "Cannot view other users' training records"@))
            },
            (None, None) => Ok((Some(viewer), Some(viewer))),
        }
    }
}

/// Decide the trainer and trainee filters of a records listing.
pub fn records_filter(viewer: u128, is_staff: bool, query: &TrainingRecordsQuery) -> (r: Result<(Option<u128>, Option<u128>), ApiError>)
    ensures
        match r {
            Ok(f) => records_filter_spec(viewer, is_staff, query.trainer_id, query.trainee_id) == Ok::<
                (Option<u128>, Option<u128>),
                ApiErrorView,
            >(f),
            Err(e) => records_filter_spec(viewer, is_staff, query.trainer_id, query.trainee_id) == Err::<
                (Option<u128>, Option<u128>),
                ApiErrorView,
            >(e@),
        },
{
    if is_staff {
        return Ok((query.trainer_id, query.trainee_id));
    }
    let involved = match (query.trainer_id, query.trainee_id) {
        (Some(t), Some(e)) => t == viewer || e == viewer,
        (Some(t), None) => t == viewer,
        (None, Some(e)) => e == viewer,
        (None, None) => {
            return Ok((Some(viewer), Some(viewer)));
        },
    };
    if involved {
        Ok((query.trainer_id, query.trainee_id))
    } else {
        Err(error_with(ApiErrorKind::Forbidden, "Cannot view other users' training records"))
    }
}

/// A member who is not staff only ever lists training records they are in,
/// as trainer or as trainee.
pub proof fn law_members_list_only_records_they_are_in(
    viewer: u128,
    trainer: Option<u128>,
    trainee: Option<u128>,
)
    requires
        records_filter_spec(viewer, false, trainer, trainee) is Ok,
    ensures
        ({
            let (t, e) = records_filter_spec(viewer, false, trainer, trainee)->Ok_0;
            t == Some(viewer) || e == Some(viewer)
        }),
{
}

/// Only an active trainer of the tool records training on it.
pub fn record_creation_access(is_active_trainer: bool) -> (r: Result<(), ApiError>)
    ensures
        is_active_trainer ==> r is Ok,
        !is_active_trainer ==> (r matches Err(e) && e@ == api_err(
            ApiErrorKind::Forbidden,
            "User is not authorized as a trainer for this tool"@,
        )),
{
    if !is_active_trainer {
        return Err(error_with(ApiErrorKind::Forbidden, "User is not authorized as a trainer for this tool"));
    }
    Ok(())
}

/// A record is changed by the trainer who wrote it, or by staff; `trainer`
/// is its trainer, `None` when the record was not found.
pub fn record_update_access(trainer: Option<u128>, viewer: u128, is_staff: bool) -> (r: Result<(), ApiError>)
    ensures
        trainer is None ==> (r matches Err(e) && e@ == api_err(
            ApiErrorKind::NotFound,
            "Training record not found"@,
        )),
        trainer matches Some(t) && t != viewer && !is_staff ==> (r matches Err(e) && e@ == api_err(
            ApiErrorKind::Forbidden,
            "Cannot update other trainers' records"@,
        )),
        r is Ok <==> (trainer matches Some(t) && (t == viewer || is_staff)),
{
    match trainer {
        None => Err(error_with(ApiErrorKind::NotFound, "Training record not found")),
        Some(t) => {
            if t != viewer && !is_staff {
                Err(error_with(ApiErrorKind::Forbidden, "Cannot update other trainers' records"))
            } else {
                Ok(())
            }
        },
    }
}

/// A trainer is assigned to a tool that exists, and is a member that
/// exists, the tool checked first.
pub fn trainer_assignment_targets(tool_exists: bool, user_exists: bool) -> (r: Result<(), ApiError>)
    ensures
        !tool_exists ==> (r matches Err(e) && e@ == api_err(ApiErrorKind::NotFound, "Tool not found"@)),
        tool_exists && !user_exists ==> (r matches Err(e) && e@ == api_err(ApiErrorKind::NotFound, "User not found"@)),
        tool_exists && user_exists ==> r is Ok,
{
    if !tool_exists {
        return Err(error_with(ApiErrorKind::NotFound, "Tool not found"));
    }
    if !user_exists {
        return Err(error_with(ApiErrorKind::NotFound, "User not found"));
    }
    Ok(())
}

/// How a failed trainer assignment is answered, from the database error's
/// text: a duplicate key means the member already trains that tool.
pub open spec fn trainer_assignment_failure_spec(error_text: Seq<char>) -> ApiErrorView {
    if contains_sub(error_text, "duplicate key"@) {
        api_err(ApiErrorKind::BadRequest, "User is already assigned as trainer for this tool"@)
    } else {
        api_err(ApiErrorKind::InternalServerError, "Failed to assign trainer"@)
    }
}

/// Answer a failed trainer assignment.
pub fn trainer_assignment_failure(error_text: &str) -> (e: ApiError)
    ensures
        e@ == trainer_assignment_failure_spec(error_text@),
{
    let t = chars_of(error_text);
    if contains_str(t.as_slice(), "duplicate key") {
        error_with(ApiErrorKind::BadRequest, "User is already assigned as trainer for this tool")
    } else {
        error_with(ApiErrorKind::InternalServerError, "Failed to assign trainer")
    }
}

// ---------------------------------------------------------------------------
// Waivers
// ---------------------------------------------------------------------------

/// A request to waive a member's training requirement for a tool.
#[derive(Clone, Debug)]
pub struct GrantWaiverRequest {
    /// Why the requirement is waived; required.
    pub reason: String,
    pub expires_at: Option<Timestamp>,
}

/// A waiver needs a reason; on success, the trimmed reason it is stored
/// with.
pub fn waiver_reason(req: &GrantWaiverRequest) -> (r: Result<String, ApiError>)
    ensures
        trim(req.reason@).len() == 0 ==> (r matches Err(e) && e@ == api_err(
            ApiErrorKind::BadRequest,
            "A waiver reason is required"@,
        )),
        trim(req.reason@).len() > 0 ==> (r matches Ok(x) && x@ == trim(req.reason@)),
{
    let t = trim_str(req.reason.as_str());
    if t.as_str().is_empty() {
        return Err(error_with(ApiErrorKind::BadRequest, "A waiver reason is required"));
    }
    Ok(t)
}

} // verus!
