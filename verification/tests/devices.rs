use css_server::devices::{
    check_registration, invite_after_registration, invite_expired, invite_flags, invite_validity_hours, is_online, live_device, InviteState,
    SpaceDeviceKind, SpaceDevicePlatform,
};
use css_server::models::Timestamp;

fn at(s: i64) -> Timestamp {
    Timestamp { unix_seconds: s, nanos: 0 }
}

#[test]
fn a_device_registers_only_with_a_live_invite() {
    let live = InviteState { used: false, expires_at: at(2_000) };
    assert_eq!(
        check_registration(Some(live), at(1_000), "Edge", "LINUX").unwrap(),
        (SpaceDeviceKind::Edge, SpaceDevicePlatform::Linux)
    );
    assert_eq!(
        check_registration(Some(live), at(1_000), "kiosk", "macOS").unwrap(),
        (SpaceDeviceKind::Kiosk, SpaceDevicePlatform::MacOs)
    );
    assert_eq!(check_registration(None, at(1_000), "edge", "linux").unwrap_err().response_message(), "Invalid device code");
    let used = InviteState { used: true, ..live };
    assert_eq!(
        check_registration(Some(used), at(1_000), "edge", "linux").unwrap_err().response_message(),
        "Device code has already been used"
    );
    assert_eq!(
        check_registration(Some(live), at(3_000), "edge", "linux").unwrap_err().response_message(),
        "Device code has expired"
    );
    assert_eq!(check_registration(Some(live), at(1_000), "toaster", "linux").unwrap_err().response_message(), "Invalid device kind");
    assert_eq!(check_registration(Some(live), at(1_000), "edge", "beos").unwrap_err().response_message(), "Invalid platform");
}

#[test]
fn listing_flags() {
    assert!(is_online(Some(at(1_000)), at(1_200)));
    assert!(!is_online(Some(at(1_000)), at(1_300)));
    assert!(is_online(Some(Timestamp { unix_seconds: 1_000, nanos: 1 }), at(1_300)));
    assert!(!is_online(None, at(0)));
    assert_eq!(invite_flags(at(10), Some(at(5)), at(20)), (true, true));
    assert_eq!(invite_flags(at(30), None, at(20)), (false, false));
    assert_eq!(SpaceDeviceKind::Edge.label(), "edge");
    assert_eq!(SpaceDevicePlatform::MacOs.label(), "macos");
    assert_eq!(invite_validity_hours(None), 24);
    assert_eq!(invite_validity_hours(Some(2)), 2);
    assert_eq!(invite_expired(0).unwrap_err().status(), 404);
    assert!(invite_expired(1).is_ok());
    assert_eq!(live_device::<u8>(None).unwrap_err().response_message(), "Device not found");
    assert_eq!(live_device(Some(3u8)).unwrap(), 3);
}

#[test]
fn an_invite_registers_one_device_only() {
    let fresh = InviteState { used: false, expires_at: Timestamp { unix_seconds: 2_000, nanos: 0 } };
    let now = Timestamp { unix_seconds: 1_000, nanos: 0 };
    assert!(check_registration(Some(fresh), now, "edge", "linux").is_ok());
    let spent = invite_after_registration(fresh);
    assert!(spent.used);
    assert_eq!(spent.expires_at, fresh.expires_at);
    assert_eq!(
        check_registration(Some(spent), now, "kiosk", "other").unwrap_err().response_message(),
        "Device code has already been used"
    );
}
