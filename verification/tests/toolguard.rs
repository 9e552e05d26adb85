use css_server::errors::ApiError;
use css_server::decimal::Decimal;
use css_server::models::{Timestamp, ToolStatus};
use css_server::toolguard::{
    apply_schedule_gating, authorize_toolguard, boot_reset_events, boot_reset_message, closed_tool_ids, device_from_lookup, device_token,
    metered_key_ok, overage_audits, power_follow_up, power_report_begin, power_report_store, self_trip_audits,
    tool_log_decision, tool_off_decision, tool_on_finish, tool_on_gate,
    tool_status_denial, validate_api_key, CardOutcome, DeviceCheck, SessionOutcome, ToolGuardResponse,
    ToolGuardSyncTool, ToolGuardSyncUser, ToolInfo, ToolOffDecision, PowerAudit, PowerFollowUp, PowerReadings,
    POWER_REPORTED,
};

fn tool(key: Option<&str>) -> ToolInfo {
    ToolInfo { id: 1, external_api_key: key.map(|k| k.to_string()), status: ToolStatus::Idle, requires_training: true }
}

#[test]
fn api_keys() {
    assert!(validate_api_key("tk", Some(&tool(Some("tk"))), None));
    assert!(validate_api_key("gk", Some(&tool(Some("tk"))), Some("gk")));
    assert!(!validate_api_key("", Some(&tool(Some(""))), Some("")));
    assert!(!validate_api_key("x", Some(&tool(None)), Some("gk")));
    assert!(metered_key_ok(Some("tk"), &tool(Some("tk"))));
    assert!(!metered_key_ok(Some("gk"), &tool(Some("tk"))), "the global key never opens a metered tool");
    assert!(!metered_key_ok(Some(""), &tool(Some(""))));
    assert!(!metered_key_ok(None, &tool(Some("tk"))));
}

#[test]
fn controllers_authenticate_by_device_or_key() {
    assert!(authorize_toolguard(DeviceCheck::Accepted, None, None, None).is_ok());
    let fault = authorize_toolguard(DeviceCheck::Fault(ApiError::InternalServerError("db".to_string())), Some("gk"), None, Some("gk"));
    assert_eq!(fault.unwrap_err().status(), 500, "a fault stays a fault");
    assert!(authorize_toolguard(DeviceCheck::Rejected, Some("gk"), None, Some("gk")).is_ok());
    let e = authorize_toolguard(DeviceCheck::Rejected, Some("bad"), None, Some("gk")).unwrap_err();
    assert_eq!(e.status(), 401);
    assert_eq!(e.response_message(), "ToolGuard operations require a registered device token or a valid API key");
    assert_eq!(device_token(Some("Bearer dev-1")).unwrap(), "dev-1");
    assert_eq!(device_token(None).unwrap_err().response_message(), "Missing Authorization header");
    assert_eq!(device_token(Some("Token dev-1")).unwrap_err().response_message(), "Invalid Authorization format");
    assert_eq!(device_from_lookup(Ok(Some(4))).unwrap(), 4);
    assert_eq!(device_from_lookup(Ok(None)).unwrap_err().status(), 401);
    assert_eq!(device_from_lookup(Err("gone".to_string())).unwrap_err().response_message(), "DB error: gone");
}

#[test]
fn tool_on_passes_every_gate_in_order() {
    let active = CardOutcome::Active { user: 7, user_active: true, card: Some(1) };
    assert_eq!(tool_on_gate(true, active, Some(ToolStatus::Idle)).ok(), Some(7));
    assert_eq!(tool_on_gate(false, active, Some(ToolStatus::Idle)).err().unwrap().reason, "Invalid or missing API key");
    let d = tool_on_gate(true, CardOutcome::Revoked { user: 7, user_active: true }, Some(ToolStatus::Idle)).err().unwrap();
    assert_eq!((d.reason, d.audit_reason, d.user, d.revoked_card), ("Card not authorized", "Card revoked", Some(7), true));
    let d = tool_on_gate(true, CardOutcome::Unknown, Some(ToolStatus::Idle)).err().unwrap();
    assert_eq!((d.reason, d.user, d.revoked_card), ("Unknown card", None, false));
    let inactive = CardOutcome::Active { user: 7, user_active: false, card: None };
    assert_eq!(tool_on_gate(true, inactive, Some(ToolStatus::Idle)).err().unwrap().reason, "User is not active");
    assert_eq!(tool_on_gate(true, active, None).err().unwrap().reason, "Tool not found");
    assert_eq!(tool_on_gate(true, active, Some(ToolStatus::InUse)).err().unwrap().reason, "Tool is already in use");
    assert_eq!(tool_status_denial(ToolStatus::Retired), Some("Tool is retired"));
    assert_eq!(tool_status_denial(ToolStatus::Idle), None);
}

#[test]
fn tool_on_finishes_with_training_and_billing() {
    let (r, audit) = tool_on_finish(true, false, false, None);
    assert_eq!((r.status.as_str(), r.tool_on), ("ok", Some(true)));
    assert_eq!(r.message.as_deref(), Some("Tool authorized"));
    assert_eq!(audit, None);
    let (r, audit) = tool_on_finish(false, false, false, None);
    assert_eq!((r.status.as_str(), r.tool_on), ("error", Some(false)));
    assert_eq!(audit.as_deref(), Some("Training required"));
    let (r, _) = tool_on_finish(true, true, false, Some(&SessionOutcome::Authorized));
    assert_eq!(r.message.as_deref(), Some("Metered tool requires its own API key"));
    let (r, audit) = tool_on_finish(true, true, true, Some(&SessionOutcome::Denied("Insufficient balance".to_string())));
    assert_eq!(r.message.as_deref(), Some("Insufficient balance"));
    assert_eq!(audit.as_deref(), Some("Insufficient balance"));
    let (r, _) = tool_on_finish(true, true, true, Some(&SessionOutcome::Authorized));
    assert_eq!(r.tool_on, Some(true));
    let (r, audit) = tool_on_finish(true, true, true, None);
    assert_eq!(r.tool_on, Some(false));
    assert_eq!(audit.as_deref(), Some("No open session for this tool"));
}

#[test]
fn a_revoked_card_still_releases_the_tool() {
    match tool_off_decision(true, CardOutcome::Revoked { user: 3, user_active: false }, true, true, true) {
        ToolOffDecision::Release { user, settle } => assert_eq!((user, settle), (3, true)),
        other => panic!("{other:?}"),
    }
    match tool_off_decision(true, CardOutcome::Unknown, true, false, false) {
        ToolOffDecision::Refuse(r) => assert_eq!(r.message.as_deref(), Some("Unknown card")),
        other => panic!("{other:?}"),
    }
    let off = ToolGuardResponse::tool_off_ok();
    assert_eq!((off.status.as_str(), off.tool_off), ("ok", Some(true)));
}

#[test]
fn tool_log_needs_an_open_session_for_metered_tools() {
    let active = CardOutcome::Active { user: 7, user_active: true, card: None };
    assert_eq!(tool_log_decision(true, active, true, false, false, false).ok(), Some(7));
    let r = tool_log_decision(true, active, true, true, true, false).err().unwrap();
    assert_eq!(r.message.as_deref(), Some("No open session for this tool"));
    let r = tool_log_decision(true, active, true, true, false, true).err().unwrap();
    assert_eq!(r.message.as_deref(), Some("Metered tool requires its own API key"));
    let r = tool_log_decision(true, active, false, false, false, false).err().unwrap();
    assert_eq!(r.message.as_deref(), Some("Tool not found"));
}

#[test]
fn boot_reset_and_power_reports() {
    assert_eq!(boot_reset_message(3), "3 tool(s) reset to idle");
    let unauth = || Err(css_server::errors::error_with(css_server::errors::ApiErrorKind::Unauthorized, "no credentials"));
    // Credentials are checked before the body: no tool id still gets 401.
    assert_eq!(power_report_begin(unauth(), None).unwrap_err().status(), 401);
    assert_eq!(power_report_begin(Ok(()), None).unwrap_err().response_message(), "tool_id is required");
    assert_eq!(power_report_begin(Ok(()), Some("")).unwrap_err().status(), 400);
    assert_eq!(power_report_begin(Ok(()), Some("t-2")).unwrap(), "t-2");
    let d = |s: &str| Some(Decimal { text: s.to_string() });
    let readings = PowerReadings { draw_now: d("3.5"), voltage_now: d("120"), max_voltage: None, amperage_limit: d("15") };
    assert_eq!(power_report_store(None, readings.clone(), Timestamp { unix_seconds: 5, nanos: 0 }).unwrap_err().status(), 404);
    let row = power_report_store(Some(7), readings, Timestamp { unix_seconds: 5, nanos: 0 }).unwrap();
    assert_eq!(row.tool_id, 7);
    assert_eq!(row.last_draw_amps.unwrap().text, "3.5");
    assert_eq!(row.last_voltage.unwrap().text, "120");
    assert!(row.reported_max_voltage.is_none());
    assert_eq!(row.reported_amperage_limit.unwrap().text, "15");
    assert_eq!(row.last_reported_at, Timestamp { unix_seconds: 5, nanos: 0 });
    assert_eq!(POWER_REPORTED, "Power reported");
}

#[test]
fn a_self_trip_locks_the_tool_and_anything_else_evaluates_circuits() {
    assert_eq!(power_follow_up(Some(true)), PowerFollowUp::LockTool);
    assert_eq!(power_follow_up(Some(false)), PowerFollowUp::EvaluateCircuits);
    assert_eq!(power_follow_up(None), PowerFollowUp::EvaluateCircuits);
    let (rows, republish) = self_trip_audits(7, "saw-1");
    assert!(republish);
    assert!(matches!(&rows[0], PowerAudit::SelfTripReported { tool_id: 7, external_id } if external_id == "saw-1"));
    assert!(matches!(rows[1], PowerAudit::ToolLockoutEngaged { tool_id: 7 }));
    let (none, quiet) = overage_audits(&[]);
    assert!(none.is_empty() && !quiet);
    let dec = |s: &str| Decimal { text: s.to_string() };
    let (rows, republish) = overage_audits(&[(3, dec("21.5"), dec("20")), (4, dec("31"), dec("30"))]);
    assert!(republish);
    assert_eq!(rows.len(), 4);
    assert!(matches!(&rows[0], PowerAudit::CircuitOverageShutoff { circuit_id: 3, total_draw_amps, amperage_limit }
        if total_draw_amps.text == "21.5" && amperage_limit.text == "20"));
    assert!(matches!(rows[1], PowerAudit::CircuitLockoutEngaged { circuit_id: 3 }));
    assert!(matches!(rows[2], PowerAudit::CircuitOverageShutoff { circuit_id: 4, .. }));
    assert!(matches!(rows[3], PowerAudit::CircuitLockoutEngaged { circuit_id: 4 }));
}

#[test]
fn schedule_gating_removes_closed_tools_everywhere() {
    let mut users = vec![
        ToolGuardSyncUser {
            profile_field_value: "card-1".to_string(),
            full_name: "Ada".to_string(),
            is_active: true,
            authorized_tool_ids: vec![1, 2, 3],
        },
        ToolGuardSyncUser {
            profile_field_value: "card-2".to_string(),
            full_name: "Bob".to_string(),
            is_active: false,
            authorized_tool_ids: vec![2],
        },
    ];
    let t = |id: u128| ToolGuardSyncTool {
        id,
        external_id: None,
        name: format!("tool {id}"),
        status: ToolStatus::Idle,
        requires_online: false,
    };
    let mut tools = vec![t(1), t(2), t(3)];
    apply_schedule_gating(&mut users, &mut tools, &[2]);
    assert_eq!(users[0].authorized_tool_ids, vec![1, 3]);
    assert_eq!(users[1].authorized_tool_ids, Vec::<u128>::new());
    assert_eq!(users[1].full_name, "Bob");
    assert_eq!(tools.iter().map(|t| t.id).collect::<Vec<_>>(), vec![1, 3]);
}

#[test]
fn closed_schedules_close_their_tools_and_nothing_else() {
    // Schedule 10 is closed now, 11 open, 12 unreadable; 13 does not exist.
    let schedules = [(10u128, Some(false)), (11, Some(true)), (12, None)];
    let tools = [(1u128, Some(10u128)), (2, Some(11)), (3, Some(12)), (4, Some(13)), (5, None), (6, Some(10))];
    assert_eq!(closed_tool_ids(&tools, &schedules), vec![1, 6]);
    assert!(closed_tool_ids(&tools, &[]).is_empty());
    // A later entry for the same schedule wins, as when indexed by id.
    assert_eq!(closed_tool_ids(&[(7, Some(20))], &[(20, Some(false)), (20, Some(true))]), Vec::<u128>::new());
}

#[test]
fn a_boot_reset_sets_each_tool_idle_with_a_note() {
    let out = boot_reset_events(&[(7, ToolStatus::InUse), (9, ToolStatus::InUse)], 0x2a);
    assert_eq!(out.len(), 2);
    assert_eq!(out[1].0, 9);
    let e = &out[0].1;
    assert_eq!(e.event_type, "deactivated");
    assert_eq!(e.old_status, Some(ToolStatus::InUse));
    assert_eq!(e.new_status, Some(ToolStatus::Idle));
    assert_eq!(e.notes.as_deref(), Some("Reset to idle at edge boot (device 00000000-0000-0000-0000-00000000002a)"));
}
