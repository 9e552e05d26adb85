use std::str::FromStr;

use bigdecimal::BigDecimal;
use css_server::loader::{bd, card_status_of, category_of, entry_type_of, role_of, status_of, ts};
use css_server::models::{CardStatus, ToolCategory, ToolStatus, UserRole};

#[test]
fn role_mapping_covers_the_toolpass_types_and_defaults_safe() {
    assert_eq!(role_of("member"), UserRole::Member);
    assert_eq!(role_of("admin"), UserRole::Admin);
    assert_eq!(role_of("staff"), UserRole::Staff);
    assert_eq!(role_of("something-else"), UserRole::Unknown);
}

#[test]
fn card_status_defaults_to_disabled_not_active() {
    assert_eq!(card_status_of("active"), CardStatus::Active);
    assert_eq!(card_status_of("released"), CardStatus::Released);
    assert_eq!(card_status_of("weird"), CardStatus::Disabled);
}

#[test]
fn tool_category_and_status_map_the_known_values() {
    assert_eq!(category_of("laser_cutting"), ToolCategory::LaserCutting);
    assert_eq!(category_of("saw"), ToolCategory::Saw);
    assert_eq!(category_of("powertool"), ToolCategory::PowerTool);
    assert_eq!(category_of("mystery"), ToolCategory::Other);
    assert_eq!(status_of("maintenance"), ToolStatus::Maintenance);
    assert_eq!(status_of("anything"), ToolStatus::Idle);
}

#[test]
fn ledger_type_never_maps_to_stripe() {
    assert_eq!(entry_type_of("cash_payment").as_str(), "cash_payment");
    assert_eq!(entry_type_of("adjustment").as_str(), "adjustment");
    assert_eq!(entry_type_of("tool_usage").as_str(), "tool_usage");
    let s = entry_type_of("whatever").as_str();
    assert!(!s.starts_with("stripe"), "got {s}");
}

#[test]
fn money_and_timestamp_parse() {
    assert_eq!(BigDecimal::from_str(&bd("-49.17").unwrap().text).unwrap(), BigDecimal::from_str("-49.17").unwrap());
    assert_eq!(BigDecimal::from_str(&bd("0").unwrap().text).unwrap(), BigDecimal::from_str("0").unwrap());
    let t = ts("2021-12-12T22:00:00Z").unwrap();
    let t = chrono::DateTime::from_timestamp(t.unix_seconds, t.nanos).unwrap();
    assert_eq!(t.to_rfc3339(), "2021-12-12T22:00:00+00:00");
    assert!(ts("not-a-date").is_err());
}
