use css_server::models::ToolStatus;
use css_server::tools::{
    can_use_tool, created_event, deleted_event, new_tool_status, not_yet_implemented, status_change_event, tool_found,
    ToolQuery,
};

#[test]
fn members_browse_idle_tools() {
    let q = ToolQuery::available();
    assert_eq!(q.status, Some(ToolStatus::Idle));
    assert!(q.category.is_none() && q.requires_training.is_none() && q.page.is_none() && q.per_page.is_none());
}

#[test]
fn missing_tools_are_not_found() {
    assert_eq!(tool_found(Some(3u8)).unwrap(), 3);
    let err = tool_found::<u8>(None).unwrap_err();
    assert_eq!(err.status(), 404);
    assert_eq!(err.response_message(), "Tool not found");
}

#[test]
fn training_gates_use() {
    assert!(can_use_tool(false, false));
    assert!(can_use_tool(true, true));
    assert!(!can_use_tool(true, false));
}

#[test]
fn history_entries() {
    assert_eq!(new_tool_status(), ToolStatus::Idle);
    let c = created_event();
    assert_eq!(c.event_type, "created");
    assert_eq!(c.new_status, Some(ToolStatus::Idle));
    assert_eq!(c.notes.as_deref(), Some("Tool created"));
    let d = deleted_event(ToolStatus::Broken);
    assert_eq!(d.event_type, "deleted");
    assert_eq!(d.old_status, Some(ToolStatus::Broken));
    assert!(d.new_status.is_none());
    let s = status_change_event(ToolStatus::Idle, ToolStatus::Maintenance, Some("belt".to_string()));
    assert_eq!(s.event_type, "status_change");
    assert_eq!(s.old_status, Some(ToolStatus::Idle));
    assert_eq!(s.new_status, Some(ToolStatus::Maintenance));
    assert_eq!(s.notes.as_deref(), Some("belt"));
}

#[test]
fn unfinished_features_say_so() {
    let e = not_yet_implemented("Training type creation");
    assert_eq!(e.status(), 501);
    assert_eq!(e.response_message(), "Training type creation not yet implemented");
}
