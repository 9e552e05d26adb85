use css_server::groupsio::{require_groupsio_enabled, set_subscription, subscription_status, SetSubscriptionRequest, SubscriptionStatus};

#[test]
fn a_subscription_change_writes_only_when_the_intent_changes() {
    assert_eq!(subscription_status(false, true), SubscriptionStatus { subscribed: true, email_verified: true });
    let c = set_subscription(false, true, SetSubscriptionRequest { subscribed: true });
    assert_eq!(c.write, None);
    assert_eq!(c.status, SubscriptionStatus { subscribed: true, email_verified: true });
    let c = set_subscription(false, false, SetSubscriptionRequest { subscribed: false });
    assert_eq!(c.write, Some(false));
    assert!(!c.status.subscribed);
    let c = set_subscription(true, true, SetSubscriptionRequest { subscribed: true });
    assert_eq!(c.write, Some(true));
    assert!(require_groupsio_enabled(true).is_ok());
    assert_eq!(require_groupsio_enabled(false).unwrap_err().status(), 403);
}
