use css_server::models::LedgerEntryType;
use css_server::stripe::StripeEventRoute;
use css_server::stripe_events::{stripe_effects, user_lookup, StripeAudit, StripeObject, UserLookup};

fn object() -> StripeObject {
    StripeObject {
        id: None,
        customer: None,
        subscription: None,
        mode: None,
        status: None,
        client_reference_id: None,
        amount_total: None,
        amount_paid: None,
        amount_refunded: None,
    }
}

fn s(x: &str) -> Option<String> {
    Some(x.to_string())
}

#[test]
fn members_are_found_by_reference_or_customer() {
    let mut o = object();
    o.client_reference_id = s("00000000-0000-0000-0000-000000000010");
    o.customer = s("cus_1");
    assert!(matches!(user_lookup(StripeEventRoute::CheckoutCompleted, &o), UserLookup::ById(0x10)));
    match user_lookup(StripeEventRoute::InvoicePaid, &o) {
        UserLookup::ByCustomer(c) => assert_eq!(c, "cus_1"),
        _ => panic!("expected a customer lookup"),
    }
    assert!(matches!(user_lookup(StripeEventRoute::Ignored, &o), UserLookup::Nobody));
    o.client_reference_id = s("not-a-uuid");
    assert!(matches!(user_lookup(StripeEventRoute::CheckoutCompleted, &o), UserLookup::Nobody));
    assert!(matches!(user_lookup(StripeEventRoute::ChargeRefunded, &object()), UserLookup::Nobody));
}

#[test]
fn unknown_members_change_nothing() {
    let mut o = object();
    o.amount_paid = Some(2500);
    let e = stripe_effects(StripeEventRoute::InvoicePaid, &o, false);
    assert!(!e.handled && e.credit.is_none() && e.subscription.is_none() && e.audit.is_none());
}

#[test]
fn a_one_shot_checkout_links_and_credits() {
    let mut o = object();
    o.id = s("cs_1");
    o.customer = s("cus_1");
    o.mode = s("payment");
    o.amount_total = Some(5000);
    let e = stripe_effects(StripeEventRoute::CheckoutCompleted, &o, true);
    assert!(e.handled);
    assert_eq!(e.link_customer.as_deref(), Some("cus_1"));
    assert!(e.subscription.is_none() && e.audit.is_none());
    let c = e.credit.unwrap();
    assert_eq!(c.entry_type, LedgerEntryType::StripePayment);
    assert_eq!(c.amount_minor, 5000);
    assert_eq!(c.reference.as_deref(), Some("cs_1"));
    assert_eq!(c.description, "Stripe one-time payment");
}

#[test]
fn a_subscription_checkout_records_the_subscription() {
    let mut o = object();
    o.subscription = s("sub_1");
    o.mode = s("subscription");
    o.amount_total = Some(5000);
    let e = stripe_effects(StripeEventRoute::CheckoutCompleted, &o, true);
    let sub = e.subscription.unwrap();
    assert_eq!(sub.subscription.as_deref(), Some("sub_1"));
    assert_eq!(sub.status.as_deref(), Some("active"));
    assert_eq!(e.audit, Some(StripeAudit::SubscriptionStarted));
    assert!(e.credit.is_none());
}

#[test]
fn invoices_and_subscription_changes() {
    let mut o = object();
    o.id = s("in_1");
    let paid = stripe_effects(StripeEventRoute::InvoicePaid, &o, true);
    let c = paid.credit.unwrap();
    assert_eq!(c.amount_minor, 0);
    assert_eq!(c.reference.as_deref(), Some("in_1"));
    assert_eq!(c.description, "Stripe invoice");
    let failed = stripe_effects(StripeEventRoute::PaymentFailed, &o, true);
    assert!(failed.handled);
    assert_eq!(failed.audit, Some(StripeAudit::SubscriptionPaymentFailed));
    o.status = s("past_due");
    let updated = stripe_effects(StripeEventRoute::SubscriptionUpdated, &o, true).subscription.unwrap();
    assert_eq!(updated.subscription.as_deref(), Some("in_1"));
    assert_eq!(updated.status.as_deref(), Some("past_due"));
    let deleted = stripe_effects(StripeEventRoute::SubscriptionDeleted, &o, true);
    let sub = deleted.subscription.unwrap();
    assert!(sub.subscription.is_none());
    assert_eq!(sub.status.as_deref(), Some("canceled"));
    assert_eq!(deleted.audit, Some(StripeAudit::SubscriptionCanceled));
    assert!(!stripe_effects(StripeEventRoute::Ignored, &o, true).handled);
}

#[test]
fn refunds_debit_once_per_charge() {
    let mut o = object();
    o.id = s("ch_1");
    o.amount_refunded = Some(1200);
    let e = stripe_effects(StripeEventRoute::ChargeRefunded, &o, true);
    let c = e.credit.unwrap();
    assert_eq!(c.entry_type, LedgerEntryType::StripeRefund);
    assert_eq!(c.amount_minor, -1200);
    assert_eq!(c.reference.as_deref(), Some("ch_1:refund"));
    assert_eq!(c.description, "Stripe refund");
    o.amount_refunded = Some(0);
    assert!(!stripe_effects(StripeEventRoute::ChargeRefunded, &o, true).handled);
}
