//! The tool inventory: what members may browse, who may use a tool, and the
//! history entries that creation, deletion and status changes leave behind.

use vstd::prelude::*;
use vstd::string::*;
use crate::errors::{api_err, error_with, make_error, ApiError, ApiErrorKind};
use crate::models::{ToolCategory, ToolStatus};

verus! {

/// Filters on the tool list, with paging.
#[derive(Clone, Copy, Debug)]
pub struct ToolQuery {
    pub category: Option<ToolCategory>,
    pub status: Option<ToolStatus>,
    pub requires_training: Option<bool>,
    pub page: Option<u32>,
    pub per_page: Option<u32>,
}

impl ToolQuery {
    /// The list members browse: idle tools only, of any category.
    pub fn available() -> (q: ToolQuery)
        ensures
            q.status == Some(ToolStatus::Idle),
            q.category is None,
            q.requires_training is None,
            q.page is None,
            q.per_page is None,
    {
        ToolQuery { category: None, status: Some(ToolStatus::Idle), requires_training: None, page: None, per_page: None }
    }
}

/// A tool that was looked up and not found is a 404.
pub fn tool_found<T>(tool: Option<T>) -> (r: Result<T, ApiError>)
    ensures
        tool matches Some(t) ==> r == Ok::<T, ApiError>(t),
        tool is None ==> (r matches Err(e) && e@ == api_err(ApiErrorKind::NotFound, "Tool not found"@)),
{
    match tool {
        Some(t) => Ok(t),
        None => Err(error_with(ApiErrorKind::NotFound, "Tool not found")),
    }
}

/// Whether a member may use a tool: always when it needs no training,
/// otherwise exactly when they hold valid training for it.
pub fn can_use_tool(requires_training: bool, has_valid_training: bool) -> (r: bool)
    ensures
        r == (!requires_training || has_valid_training),
{
    !requires_training || has_valid_training
}

/// The status a new tool starts in.
pub fn new_tool_status() -> (s: ToolStatus)
    ensures
        s == ToolStatus::Idle,
{
    ToolStatus::Idle
}

/// An entry of a tool's history.
#[derive(Clone, Debug)]
pub struct ToolEventPlan {
    pub event_type: String,
    pub old_status: Option<ToolStatus>,
    pub new_status: Option<ToolStatus>,
    pub notes: Option<String>,
}

/// The history entry of a tool's creation: it starts idle.
pub fn created_event() -> (e: ToolEventPlan)
    ensures
        e.event_type@ == "created"@,
        e.old_status is None,
        e.new_status == Some(ToolStatus::Idle),
        e.notes matches Some(n) && n@ == "Tool created"@,
{
    ToolEventPlan {
        event_type: "created".to_string(),
        old_status: None,
        new_status: Some(ToolStatus::Idle),
        notes: Some("Tool created".to_string()),
    }
}

/// The history entry written before a tool is deleted.
pub fn deleted_event(old: ToolStatus) -> (e: ToolEventPlan)
    ensures
        e.event_type@ == "deleted"@,
        e.old_status == Some(old),
        e.new_status is None,
        e.notes matches Some(n) && n@ == "Tool deleted"@,
{
    ToolEventPlan {
        event_type: "deleted".to_string(),
        old_status: Some(old),
        new_status: None,
        notes: Some("Tool deleted".to_string()),
    }
}

/// The history entry of a status change, carrying the staff member's notes.
pub fn status_change_event(old: ToolStatus, new: ToolStatus, notes: Option<String>) -> (e: ToolEventPlan)
    ensures
        e.event_type@ == "status_change"@,
        e.old_status == Some(old),
        e.new_status == Some(new),
        e.notes == notes,
{
    ToolEventPlan { event_type: "status_change".to_string(), old_status: Some(old), new_status: Some(new), notes }
}

/// The answer of an endpoint whose feature does not exist yet (`what`, such
/// as "Training type creation").
pub fn not_yet_implemented(what: &str) -> (e: ApiError)
    ensures
        e@ == api_err(ApiErrorKind::NotImplemented, what@ + " not yet implemented"@),
{
    make_error(ApiErrorKind::NotImplemented, what.to_string().concat(" not yet implemented"))
}

} // verus!
