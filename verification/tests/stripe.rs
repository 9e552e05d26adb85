use css_server::stripe::{
    constant_time_eq, portal_customer, require_stripe_enabled, route_event, sign_stripe, verify_stripe_signature,
    webhook_gate, StripeEventRoute, SIGNATURE_TOLERANCE_SECS,
};

fn header_for(secret: &str, t: i64, body: &[u8]) -> String {
    format!("t={t},v1={}", sign_stripe(secret, t, body))
}

#[test]
fn a_correct_signature_within_tolerance_verifies() {
    let secret = "whsec_test";
    let body = br#"{"type":"invoice.paid"}"#;
    let t = 1_000_000;
    let header = header_for(secret, t, body);
    assert!(verify_stripe_signature(secret, body, &header, t + 10, 300));
}

#[test]
fn a_wrong_v1_is_rejected() {
    let body = br#"{"type":"invoice.paid"}"#;
    let t = 1_000_000;
    let header = format!("t={t},v1=deadbeef");
    assert!(!verify_stripe_signature("whsec_test", body, &header, t, 300));
}

#[test]
fn a_tampered_body_is_rejected() {
    let secret = "whsec_test";
    let t = 1_000_000;
    let header = header_for(secret, t, br#"{"amount_paid":1000}"#);
    assert!(!verify_stripe_signature(secret, br#"{"amount_paid":999999}"#, &header, t, 300));
}

#[test]
fn a_stale_timestamp_is_rejected() {
    let secret = "whsec_test";
    let body = br#"{}"#;
    let t = 1_000_000;
    let header = header_for(secret, t, body);
    assert!(!verify_stripe_signature(secret, body, &header, t + 10_000, 300));
}

fn body_sig_missing() -> i64 {
    1
}

#[test]
fn an_absent_or_malformed_header_is_rejected() {
    let body = br#"{}"#;
    assert!(!verify_stripe_signature("whsec_test", body, "", 0, 300));
    assert!(!verify_stripe_signature("whsec_test", body, "v1=abc", 0, 300));
    assert!(!verify_stripe_signature("whsec_test", body, "t=1", body_sig_missing(), 300));
}

#[test]
fn an_empty_secret_verifies_nothing() {
    let body = br#"{}"#;
    let header = header_for("", 1, body);
    assert!(!verify_stripe_signature("", body, &header, 1, 300));
}

#[test]
fn the_signature_is_the_hex_hmac_of_the_timestamped_body() {
    let sig = sign_stripe("whsec_test", 0, b"");
    assert_eq!(sig.len(), 64);
    assert!(sig.chars().all(|c| c.is_ascii_hexdigit() && !c.is_ascii_uppercase()));
    assert_ne!(sig, sign_stripe("whsec_test", 1, b""));
    assert_ne!(sig, sign_stripe("whsec_other", 0, b""));
}

#[test]
fn constant_time_comparison_is_plain_equality() {
    assert!(constant_time_eq(b"abc", b"abc"));
    assert!(!constant_time_eq(b"abc", b"abd"));
    assert!(!constant_time_eq(b"abc", b"ab"));
    assert!(constant_time_eq(b"", b""));
}

#[test]
fn the_webhook_gate_answers_404_403_401_in_that_order() {
    let body = br#"{"type":"invoice.paid"}"#;
    let t = 1_000_000;
    let header = header_for("whsec_test", t, body);
    assert_eq!(webhook_gate(false, "whsec_test", body, &header, t).unwrap_err().status(), 404);
    assert_eq!(webhook_gate(true, "  ", body, &header, t).unwrap_err().status(), 403);
    assert_eq!(webhook_gate(true, "whsec_test", body, "t=1,v1=00", t).unwrap_err().status(), 401);
    assert!(webhook_gate(true, "whsec_test", body, &header, t + SIGNATURE_TOLERANCE_SECS).is_ok());
    assert!(webhook_gate(true, "whsec_test", body, &header, t + SIGNATURE_TOLERANCE_SECS + 1).is_err());
}

#[test]
fn events_are_routed_by_type_and_the_rest_ignored() {
    assert_eq!(route_event("checkout.session.completed"), StripeEventRoute::CheckoutCompleted);
    assert_eq!(route_event("invoice.paid"), StripeEventRoute::InvoicePaid);
    assert_eq!(route_event("invoice.payment_succeeded"), StripeEventRoute::InvoicePaid);
    assert_eq!(route_event("invoice.payment_failed"), StripeEventRoute::PaymentFailed);
    assert_eq!(route_event("customer.subscription.updated"), StripeEventRoute::SubscriptionUpdated);
    assert_eq!(route_event("customer.subscription.deleted"), StripeEventRoute::SubscriptionDeleted);
    assert_eq!(route_event("charge.refunded"), StripeEventRoute::ChargeRefunded);
    assert_eq!(route_event("customer.created"), StripeEventRoute::Ignored);
}

#[test]
fn a_disabled_stripe_and_a_missing_customer_are_refused() {
    assert!(require_stripe_enabled(true).is_ok());
    assert_eq!(require_stripe_enabled(false).unwrap_err().status(), 403);
    assert_eq!(portal_customer(Some("cus_1".to_string())).unwrap(), "cus_1");
    assert_eq!(portal_customer(None).unwrap_err().status(), 400);
}

#[test]
fn a_signature_made_before_the_epoch_verifies_too() {
    let secret = "whsec_test";
    let body = br#"{"id":"evt_2"}"#;
    let header = header_for(secret, -5, body);
    assert!(header.starts_with("t=-5,v1="));
    assert!(verify_stripe_signature(secret, body, &header, 0, 300));
    assert!(!verify_stripe_signature(secret, body, &header, 400, 300));
}
