use css_server::membership::{
    check_payment, membership_flags, membership_view, payment_response, require_membership_enabled, service_not_running,
    LogPaymentRequest,
};
use css_server::models::{LedgerEntryType, Timestamp, UserRole};

fn req(amount: &str, entry_type: Option<&str>) -> LogPaymentRequest {
    LogPaymentRequest {
        user_id: 1,
        amount: amount.to_string(),
        entry_type: entry_type.map(|s| s.to_string()),
        description: None,
    }
}

#[test]
fn a_manual_payment_is_a_nonzero_decimal_of_a_non_stripe_type() {
    let (amount, t) = check_payment(&req(" 25.00 ", None)).unwrap();
    assert_eq!(amount.text, "25.00");
    assert_eq!(t, LedgerEntryType::CashPayment);
    let (_, t) = check_payment(&req("-5", Some("adjustment"))).unwrap();
    assert_eq!(t, LedgerEntryType::Adjustment);
    let (_, t) = check_payment(&req("5", Some("cash_payment"))).unwrap();
    assert_eq!(t, LedgerEntryType::CashPayment);
    assert_eq!(check_payment(&req("abc", None)).unwrap_err().response_message(), "amount \"abc\" is not a decimal");
    assert_eq!(check_payment(&req("0.00", None)).unwrap_err().response_message(), "amount must not be zero");
    assert_eq!(
        check_payment(&req("5", Some("stripe_payment"))).unwrap_err().response_message(),
        "entry_type \"stripe_payment\" must be cash_payment or adjustment"
    );
}

#[test]
fn the_module_switch_and_the_member_view() {
    assert!(require_membership_enabled(true).is_ok());
    assert_eq!(require_membership_enabled(false).unwrap_err().status(), 403);
    assert_eq!(service_not_running().status(), 500);
    assert_eq!(membership_flags(true, UserRole::Staff, UserRole::Member), (true, true));
    assert_eq!(membership_flags(false, UserRole::Newbie, UserRole::Member), (false, false));
}

#[test]
fn a_member_sees_their_standing() {
    let v = membership_view(
        UserRole::Member,
        UserRole::Member,
        Some(Timestamp { unix_seconds: 1_900_000_000, nanos: 0 }),
        true,
        "25.5",
        "usd".to_string(),
        "Monthly".to_string(),
    )
    .unwrap();
    assert!(v.enrolled && v.is_member && v.has_subscription);
    assert_eq!(v.balance, "25.50");
    assert_eq!(v.plan_name, "Monthly");
    let newbie = membership_view(UserRole::Newbie, UserRole::Member, None, false, "0", "usd".to_string(), String::new())
        .unwrap();
    assert!(!newbie.enrolled && !newbie.is_member);
    // A zero balance prints as bigdecimal prints zero.
    assert_eq!(newbie.balance, "0");
    assert!(membership_view(UserRole::Admin, UserRole::Member, None, false, "x", "usd".to_string(), String::new()).is_none());
    let p = payment_response(true, "-3.999").unwrap();
    assert!(p.posted);
    assert_eq!(p.balance, "-3.99");
    assert!(payment_response(true, "1E9223372036854775808").is_none());
    assert_eq!(payment_response(false, "2.5e1").unwrap().balance, "25.00");
    // A small exponent is within reach: it rescales to zero.
    let tiny = payment_response(true, "1e-1234").unwrap();
    assert_eq!(tiny.balance, payment_response(true, "0").unwrap().balance);
    assert!(payment_response(true, "1e-1234567").is_none());
}
