use css_server::bypass::{
    already_reported, power_authorized, previously_silent, report_unauthorized_power, unauthorized_power_reports,
    PowerReading,
};
use css_server::models::{Timestamp, ToolStatus};

fn at(s: i64) -> Timestamp {
    Timestamp { unix_seconds: s, nanos: 0 }
}

#[test]
fn only_tools_in_use_are_authorised() {
    assert!(power_authorized(ToolStatus::InUse));
    assert!(!power_authorized(ToolStatus::Idle));
    assert!(!power_authorized(ToolStatus::Maintenance));
}

#[test]
fn reports_belong_to_their_episode() {
    assert!(already_reported(Some(at(100)), Some(at(100))));
    assert!(already_reported(Some(at(150)), Some(at(100))));
    assert!(!already_reported(Some(at(50)), Some(at(100))));
    assert!(already_reported(Some(at(50)), None));
    assert!(!already_reported(None, Some(at(100))));
    assert!(report_unauthorized_power(true, Some(at(50)), Some(at(100))));
    assert!(!report_unauthorized_power(true, Some(at(150)), Some(at(100))));
    assert!(!report_unauthorized_power(false, None, None));
}

#[test]
fn silence_is_read_from_the_last_event() {
    assert!(previously_silent(Some("tool_module_silent"), "tool_module_silent"));
    assert!(!previously_silent(Some("tool_module_returned"), "tool_module_silent"));
    assert!(!previously_silent(None, "tool_module_silent"));
}

#[test]
fn a_pass_reports_each_new_episode_of_an_unauthorised_tool_once() {
    let r = |id: u128, status: Option<ToolStatus>, held: bool, reported: Option<i64>, since: Option<i64>| PowerReading {
        tool_id: id,
        status,
        evidence_held: held,
        reported_at: reported.map(at),
        since: since.map(at),
    };
    let idle = Some(ToolStatus::Idle);
    let readings = vec![
        r(1, idle, true, None, Some(100)),
        r(2, idle, true, Some(150), Some(100)),
        r(3, None, true, None, Some(100)),
        r(4, idle, false, None, Some(100)),
        r(5, Some(ToolStatus::Maintenance), true, Some(50), Some(100)),
        r(6, Some(ToolStatus::InUse), true, None, Some(100)),
    ];
    assert_eq!(unauthorized_power_reports(&readings), vec![1, 5]);
    assert!(unauthorized_power_reports(&[]).is_empty());
}

#[test]
fn a_tool_in_use_is_never_reported() {
    let in_use = PowerReading {
        tool_id: 9,
        status: Some(ToolStatus::InUse),
        evidence_held: true,
        reported_at: None,
        since: Some(at(1)),
    };
    assert!(unauthorized_power_reports(&[in_use, in_use]).is_empty());
}
