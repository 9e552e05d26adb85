use css_server::toolpass::{
    add_user_reply, new_member_names, release_reply, remove_user_target, tool_on_reply, tool_position,
    toolpass_key_valid, AddUserRequest, RemoveUserRequest, ToolPassReply, ToolRequest,
};

#[test]
fn members_are_added_with_derived_names() {
    let r = AddUserRequest {
        api_key: "k".to_string(),
        email: "ada@example.org".to_string(),
        first_name: "Ada".to_string(),
        last_name: "Lovelace".to_string(),
    };
    assert_eq!(new_member_names(&r), ("Ada Lovelace".to_string(), "ada".to_string()));
    let r = AddUserRequest { email: "no-at-sign".to_string(), ..r };
    assert_eq!(new_member_names(&r).1, "no-at-sign");
    assert!(toolpass_key_valid("k") && !toolpass_key_valid(""));
    assert!(matches!(add_user_reply(false, false), Some(ToolPassReply::Error("Invalid API key"))));
    assert!(matches!(add_user_reply(true, true), Some(ToolPassReply::Error("User already exists"))));
    assert!(add_user_reply(true, false).is_none());
    let rm = RemoveUserRequest { api_key: "k".to_string(), email: "ada@example.org".to_string() };
    assert_eq!(rm.email, "ada@example.org");
    assert_eq!(remove_user_target(Ok(Some(3))).unwrap(), 3);
    assert_eq!(remove_user_target(Ok(None)).unwrap_err().status(), 404);
    assert_eq!(remove_user_target(Err("x".to_string())).unwrap_err().response_message(), "Database error: x");
}

#[test]
fn tools_are_found_by_listing_position() {
    let req = ToolRequest { card: "c".to_string(), tool_id: 2 };
    assert_eq!(tool_position(5, req.tool_id), Some(2));
    assert_eq!(tool_position(2, 2), None);
    assert_eq!(tool_position(5, -1), None);
}

#[test]
fn tool_on_refuses_in_order_and_release_always_answers() {
    assert!(matches!(tool_on_reply(None, Some(false), false), ToolPassReply::ToolDenied("Unknown card")));
    assert!(matches!(tool_on_reply(Some(false), Some(false), true), ToolPassReply::ToolDenied("User is not active")));
    assert!(matches!(tool_on_reply(Some(true), None, true), ToolPassReply::ToolDenied("Tool not found")));
    assert!(matches!(tool_on_reply(Some(true), Some(true), false), ToolPassReply::ToolDenied("Training required")));
    assert!(matches!(tool_on_reply(Some(true), Some(true), true), ToolPassReply::ToolAuthorized));
    assert!(matches!(tool_on_reply(Some(true), Some(false), false), ToolPassReply::ToolAuthorized));
    assert!(matches!(release_reply(false, false), ToolPassReply::Error("Unknown card")));
    assert!(matches!(release_reply(true, false), ToolPassReply::ToolOffOk));
    assert!(matches!(release_reply(true, true), ToolPassReply::OkWithMessage("Usage logged")));
}
