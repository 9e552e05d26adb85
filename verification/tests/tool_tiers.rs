use css_server::tool_modules::deleted_or_not_found;
use css_server::tool_tiers::{
    check_new_tier, check_tier_assignment, check_tier_cleared, reject_negative, require_tool_billing_enabled,
    tool_billing_view, CreateTierRequest,
};

fn tier(name: &str, flat: Option<&str>, rate: Option<&str>) -> CreateTierRequest {
    CreateTierRequest {
        name: name.to_string(),
        flat_fee: flat.map(|s| s.to_string()),
        rate_per_min: rate.map(|s| s.to_string()),
        max_session_minutes: None,
    }
}

#[test]
fn billing_must_be_on() {
    assert!(require_tool_billing_enabled(true).is_ok());
    let err = require_tool_billing_enabled(false).unwrap_err();
    assert_eq!(err.status(), 403);
    assert_eq!(err.response_message(), "Tool billing is disabled in server configuration");
}

#[test]
fn amounts_are_never_negative() {
    assert!(reject_negative(&None, &None).is_ok());
    assert!(reject_negative(&Some("0".to_string()), &Some("0.25".to_string())).is_ok());
    assert_eq!(
        reject_negative(&Some("-0.01".to_string()), &None).unwrap_err().response_message(),
        "flat_fee and rate_per_min cannot be negative"
    );
    assert_eq!(reject_negative(&None, &Some("-3".to_string())).unwrap_err().status(), 400);
}

#[test]
fn new_tiers_are_checked_in_order() {
    assert_eq!(check_new_tier(true, &tier("  Discounted ", Some("1.50"), None), true).unwrap(), "Discounted");
    assert_eq!(check_new_tier(false, &tier("", Some("-1"), None), false).unwrap_err().status(), 403);
    assert_eq!(
        check_new_tier(true, &tier(" ", Some("-1"), None), false).unwrap_err().response_message(),
        "name is required"
    );
    assert_eq!(
        check_new_tier(true, &tier("Free", None, Some("-1")), false).unwrap_err().response_message(),
        "flat_fee and rate_per_min cannot be negative"
    );
    assert_eq!(
        check_new_tier(true, &tier("Free", Some("0"), Some("0")), false).unwrap_err().response_message(),
        "tool does not exist"
    );
}

#[test]
fn members_only_get_tiers_of_the_same_tool() {
    assert!(check_tier_assignment(true, Some(7), 7).is_ok());
    assert_eq!(check_tier_assignment(false, Some(7), 7).unwrap_err().status(), 403);
    assert_eq!(check_tier_assignment(true, None, 7).unwrap_err().response_message(), "tier does not exist");
    assert_eq!(
        check_tier_assignment(true, Some(8), 7).unwrap_err().response_message(),
        "tier does not belong to this tool"
    );
}

#[test]
fn clearing_and_deleting_report_missing_rows() {
    assert!(check_tier_cleared(true, 1).is_ok());
    assert_eq!(check_tier_cleared(false, 1).unwrap_err().status(), 403);
    let err = check_tier_cleared(true, 0).unwrap_err();
    assert_eq!(err.status(), 404);
    assert_eq!(err.response_message(), "No tier assignment for this member and tool");
    assert_eq!(deleted_or_not_found(0, "Tier").unwrap_err().response_message(), "Tier not found");
}

#[test]
fn spendable_balance_is_shown_to_two_places() {
    let v = tool_billing_view("12.345", "2", "usd".to_string()).unwrap();
    assert_eq!(v.balance, "12.34");
    assert_eq!(v.held, "2.00");
    assert_eq!(v.available, "10.34");
    assert_eq!(v.currency, "usd");
    let owed = tool_billing_view("1", "3.5", "eur".to_string()).unwrap();
    assert_eq!(owed.available, "-2.50");
    assert!(tool_billing_view("lots", "1", "usd".to_string()).is_none());
    assert_eq!(tool_billing_view("1E2", "0.5", "usd".to_string()).unwrap().available, "99.50");
    assert!(tool_billing_view("1", "1E9223372036854775808", "usd".to_string()).is_none());
}
