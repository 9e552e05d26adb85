use css_server::text::replace_str;
use css_server::doors::{
    admin_unlock_target, checkin_plan, checkin_response, client_ip, door_authorization, door_deleted,
    new_door_settings, qr_response, republish_after_update, require_door_module, rule_deleted, rule_value,
    AccessDecision, EventsQuery,
};

#[test]
fn an_allowed_checkin_unlocks_and_a_denied_one_does_not() {
    let p = checkin_plan(AccessDecision::Allow, Some(5));
    assert!(p.granted && p.record_presence);
    assert_eq!(p.unlock_device, Some(5));
    let r = checkin_response(&p);
    assert!(r.unlocked);
    assert_eq!(r.reason, None);

    let p = checkin_plan(AccessDecision::Deny("outside hours".to_string()), Some(5));
    assert!(!p.granted && !p.record_presence);
    assert_eq!(p.unlock_device, None);
    let r = checkin_response(&p);
    assert!(!r.unlocked);
    assert_eq!(r.reason.as_deref(), Some("outside hours"));

    let p = checkin_plan(AccessDecision::Allow, None);
    assert!(p.granted);
    assert_eq!(p.unlock_device, None, "with no device the unlock is only logged");
}

#[test]
fn the_client_address_prefers_the_forwarded_header() {
    assert_eq!(client_ip(Some(" 203.0.113.7 , 10.0.0.1"), Some("10.9.9.9")), Some("203.0.113.7".to_string()));
    assert_eq!(client_ip(Some("198.51.100.2"), None), Some("198.51.100.2".to_string()));
    assert_eq!(client_ip(None, Some("10.9.9.9")), Some("10.9.9.9".to_string()));
    assert_eq!(client_ip(None, None), None);
}

#[test]
fn module_switch_remote_unlock_and_door_records() {
    assert!(require_door_module(true).is_ok());
    assert_eq!(require_door_module(false).unwrap_err().status(), 403);
    assert_eq!(admin_unlock_target(false, Some(1)).unwrap_err().response_message(), "Door is disabled");
    assert_eq!(admin_unlock_target(true, None).unwrap_err().response_message(), "Door has no edge device");
    assert_eq!(admin_unlock_target(true, Some(9)).unwrap(), 9);
    assert_eq!(new_door_settings("  ", None, None, 3000).unwrap_err().response_message(), "name is required");
    assert_eq!(new_door_settings("Front", None, None, 3000).unwrap(), (3000, true));
    assert_eq!(new_door_settings("Front", Some(500), Some(false), 3000).unwrap(), (500, false));
    assert_eq!(door_deleted(0).unwrap_err().status(), 404);
    assert!(door_deleted(1).is_ok());
    assert_eq!(rule_deleted(0).unwrap_err().response_message(), "Rule not found");
    let (a, b) = (door_authorization(AccessDecision::Allow), door_authorization(AccessDecision::Deny("no".to_string())));
    assert_eq!(a, (true, None));
    assert_eq!(b, (false, Some("no".to_string())));
}

#[test]
fn republishing_after_a_device_change() {
    assert_eq!(republish_after_update(true, Some(1), Some(2)), vec![2, 1]);
    assert_eq!(republish_after_update(true, Some(1), Some(1)), vec![1]);
    assert_eq!(republish_after_update(false, Some(1), Some(2)), vec![1]);
    assert_eq!(republish_after_update(true, None, None), Vec::<u128>::new());
}

#[test]
fn event_pages_are_clamped() {
    assert_eq!(EventsQuery { limit: None, offset: None }.window(), (100, 0));
    assert_eq!(EventsQuery { limit: Some(0), offset: Some(-5) }.window(), (1, 0));
    assert_eq!(EventsQuery { limit: Some(9999), offset: Some(40) }.window(), (500, 40));
}

#[test]
fn the_qr_link_fills_in_the_site_and_the_door() {
    let id: u128 = 0x6ba7b810_9dad_11d1_80b4_00c04fd430c8;
    let r = qr_response("{site_url}/doors/{door_id}/checkin?d={door_id}", "https://space.example.org/", id);
    assert_eq!(
        r.url,
        "https://space.example.org/doors/6ba7b810-9dad-11d1-80b4-00c04fd430c8/checkin?d=6ba7b810-9dad-11d1-80b4-00c04fd430c8"
    );
}

#[test]
fn open_access_rules_need_a_schedule() {
    assert_eq!(rule_value(true, "x".to_string(), None).unwrap_err().response_message(), "open_access rules require a schedule");
    assert_eq!(rule_value(true, "ignored".to_string(), Some(3)).unwrap(), "");
    assert_eq!(rule_value(false, "  ".to_string(), None).unwrap_err().response_message(), "value is required");
    assert_eq!(rule_value(false, " staff ".to_string(), None).unwrap(), " staff ");
}

#[test]
fn replacing_agrees_with_str_replace() {
    for (s, pat, with) in [("ab", "", "-"), ("", "", "x"), ("{a}{a}b", "{a}", "1"), ("aaa", "aa", "b")] {
        assert_eq!(replace_str(s, pat, with), s.replace(pat, with));
    }
}
