//! What a verified Stripe event does to the membership records.
//!
//! Each event names a member (a checkout by its client reference, anything
//! else by its Stripe customer), and, when that member is found, asks for a
//! set of effects: link the customer, record the subscription, post a
//! ledger credit, write an audit entry. An event whose member is unknown is
//! acknowledged and does nothing. Every credit is keyed on the Stripe object
//! it came from, so a redelivered event posts once.

use vstd::prelude::*;
use vstd::string::*;
use crate::models::LedgerEntryType;
use crate::stripe::StripeEventRoute;
use crate::text::{chars_of, str_is};

verus! {

/// The fields of an event's object that the handlers read; each is `None`
/// when absent or not of the expected JSON type.
#[derive(Clone, Debug)]
pub struct StripeObject {
    pub id: Option<String>,
    pub customer: Option<String>,
    pub subscription: Option<String>,
    pub mode: Option<String>,
    pub status: Option<String>,
    pub client_reference_id: Option<String>,
    pub amount_total: Option<i64>,
    pub amount_paid: Option<i64>,
    pub amount_refunded: Option<i64>,
}

/// What `uuid::Uuid::parse_str` makes of a text: the id's 128-bit value,
/// or `None` when the text is not a UUID.
pub uninterp spec fn uuid_parse(s: Seq<char>) -> Option<u128>;

/// `uuid::Uuid::parse_str`, as the id's 128-bit value.
///
/// Trusted: the result is [`uuid_parse`] of the text, and the hyphenated
/// lower-case text of an id (what `Uuid::to_string` writes) parses back to
/// that id.
#[verifier::external_body]
pub(crate) fn parse_uuid(s: &str) -> (r: Option<u128>)
    ensures
        r == uuid_parse(s@),
        forall|x: u128| #[trigger] crate::models::uuid_hyphenated(x) == s@ ==> r == Some(x),
{
    match uuid::Uuid::parse_str(s) {
        Ok(u) => Some(u.as_u128()),
        Err(_) => None,
    }
}

/// How the member an event concerns is found.
#[derive(Clone, Debug)]
pub enum UserLookup {
    /// By account id (a checkout's client reference).
    ById(u128),
    /// By Stripe customer id.
    ByCustomer(String),
    /// The event names nobody.
    Nobody,
}

/// The view of an optional text.
pub open spec fn opt_chars(s: Option<String>) -> Option<Seq<char>> {
    match s {
        Some(x) => Some(x@),
        None => None,
    }
}

/// Which member an event concerns.
pub fn user_lookup(route: StripeEventRoute, obj: &StripeObject) -> (r: UserLookup)
    ensures
        route == StripeEventRoute::Ignored ==> r is Nobody,
        route == StripeEventRoute::CheckoutCompleted ==> match obj.client_reference_id {
            Some(c) => match uuid_parse(c@) {
                Some(id) => r == UserLookup::ById(id),
                None => r is Nobody,
            },
            None => r is Nobody,
        },
        route != StripeEventRoute::Ignored && route != StripeEventRoute::CheckoutCompleted ==> match obj.customer {
            Some(c) => r matches UserLookup::ByCustomer(x) && x@ == c@,
            None => r is Nobody,
        },
{
    match route {
        StripeEventRoute::Ignored => UserLookup::Nobody,
        StripeEventRoute::CheckoutCompleted => match &obj.client_reference_id {
            Some(c) => match parse_uuid(c.as_str()) {
                Some(id) => UserLookup::ById(id),
                None => UserLookup::Nobody,
            },
            None => UserLookup::Nobody,
        },
        _ => match &obj.customer {
            Some(c) => UserLookup::ByCustomer(c.clone()),
            None => UserLookup::Nobody,
        },
    }
}

/// A ledger credit an event posts: an amount in minor units (negative for a
/// refund), keyed on `reference`.
#[derive(Clone, Debug)]
pub struct StripeCredit {
    pub entry_type: LedgerEntryType,
    pub amount_minor: i64,
    pub reference: Option<String>,
    pub description: String,
}

/// The audit entries events write.
#[derive(Clone, Copy, Debug, PartialEq, Eq, Structural)]
pub enum StripeAudit {
    SubscriptionStarted,
    SubscriptionPaymentFailed,
    SubscriptionCanceled,
}

/// The subscription id and status to store.
#[derive(Clone, Debug)]
pub struct SubscriptionUpdate {
    pub subscription: Option<String>,
    pub status: Option<String>,
}

/// Everything an event asks for.
#[derive(Clone, Debug)]
pub struct StripeEffects {
    /// Whether the event was acted on.
    pub handled: bool,
    /// The customer id to link to the member.
    pub link_customer: Option<String>,
    pub subscription: Option<SubscriptionUpdate>,
    pub credit: Option<StripeCredit>,
    pub audit: Option<StripeAudit>,
}

/// Whether `e` asks for nothing at all.
pub open spec fn no_effects(e: StripeEffects) -> bool {
    !e.handled && e.link_customer is None && e.subscription is None && e.credit is None && e.audit is None
}

/// Whether `c` credits `amount` of `entry_type`, keyed on `reference`, with
/// `description`.
pub open spec fn credit_is(
    c: Option<StripeCredit>,
    entry_type: LedgerEntryType,
    amount: int,
    reference: Option<Seq<char>>,
    description: Seq<char>,
) -> bool {
    c matches Some(x) && x.entry_type == entry_type && x.amount_minor == amount && opt_chars(x.reference)
        == reference && x.description@ == description
}

/// Whether `s` stores `subscription` with `status`.
pub open spec fn subscription_is(s: Option<SubscriptionUpdate>, subscription: Option<Seq<char>>, status: Option<Seq<char>>) -> bool {
    s matches Some(x) && opt_chars(x.subscription) == subscription && opt_chars(x.status) == status
}

/// The effects of a member's event, by route.
pub open spec fn effects_spec(route: StripeEventRoute, obj: StripeObject, e: StripeEffects) -> bool {
    match route {
        StripeEventRoute::CheckoutCompleted => {
            &&& e.handled
            &&& opt_chars(e.link_customer) == opt_chars(obj.customer)
            &&& match obj.subscription {
                Some(s) => subscription_is(e.subscription, Some(s@), Some("active"@)) && e.audit
                    == Some(StripeAudit::SubscriptionStarted),
                None => e.subscription is None && e.audit is None,
            }
            &&& if opt_chars(obj.mode) == Some("payment"@) && obj.amount_total is Some {
                credit_is(
                    e.credit,
                    LedgerEntryType::StripePayment,
                    obj.amount_total->Some_0 as int,
                    opt_chars(obj.id),
                    "Stripe one-time payment"@,
                )
            } else {
                e.credit is None
            }
        },
        StripeEventRoute::InvoicePaid => {
            &&& e.handled
            &&& e.link_customer is None && e.subscription is None && e.audit is None
            &&& credit_is(
                e.credit,
                LedgerEntryType::StripePayment,
                match obj.amount_paid {
                    Some(a) => a as int,
                    None => 0,
                },
                opt_chars(obj.id),
                "Stripe invoice"@,
            )
        },
        StripeEventRoute::PaymentFailed => {
            &&& e.handled
            &&& e.link_customer is None && e.subscription is None && e.credit is None
            &&& e.audit == Some(StripeAudit::SubscriptionPaymentFailed)
        },
        StripeEventRoute::SubscriptionUpdated => {
            &&& e.handled
            &&& e.link_customer is None && e.credit is None && e.audit is None
            &&& subscription_is(e.subscription, opt_chars(obj.id), opt_chars(obj.status))
        },
        StripeEventRoute::SubscriptionDeleted => {
            &&& e.handled
            &&& e.link_customer is None && e.credit is None
            &&& subscription_is(e.subscription, None, Some("canceled"@))
            &&& e.audit == Some(StripeAudit::SubscriptionCanceled)
        },
        StripeEventRoute::ChargeRefunded => {
            let refunded = match obj.amount_refunded {
                Some(a) => a as int,
                None => 0,
            };
            if refunded <= 0 {
                no_effects(e)
            } else {
                &&& e.handled
                &&& e.link_customer is None && e.subscription is None && e.audit is None
                &&& credit_is(
                    e.credit,
                    LedgerEntryType::StripeRefund,
                    -refunded,
                    match obj.id {
                        Some(i) => Some(i@ + ":refund"@),
                        None => None,
                    },
                    "Stripe refund"@,
                )
            }
        },
        StripeEventRoute::Ignored => no_effects(e),
    }
}

/// Nothing happens.
fn nothing() -> (e: StripeEffects)
    ensures
        no_effects(e),
{
    StripeEffects { handled: false, link_customer: None, subscription: None, credit: None, audit: None }
}

/// Decide what an event does, given whether its member was found. An event
/// whose member was not found does nothing.
pub fn stripe_effects(route: StripeEventRoute, obj: &StripeObject, member_found: bool) -> (e: StripeEffects)
    ensures
        !member_found ==> no_effects(e),
        member_found ==> effects_spec(route, *obj, e),
{
    if !member_found {
        return nothing();
    }
    match route {
        StripeEventRoute::CheckoutCompleted => {
            let (subscription, audit) = match &obj.subscription {
                Some(s) => (
                    Some(SubscriptionUpdate { subscription: Some(s.clone()), status: Some("active".to_string()) }),
                    Some(StripeAudit::SubscriptionStarted),
                ),
                None => (None, None),
            };
            let is_payment = match &obj.mode {
                Some(m) => {
                    let cs = chars_of(m.as_str());
                    str_is(cs.as_slice(), "payment")
                },
                None => false,
            };
            let credit = match obj.amount_total {
                Some(a) => if is_payment {
                    Some(
                        StripeCredit {
                            entry_type: LedgerEntryType::StripePayment,
                            amount_minor: a,
                            reference: obj.id.clone(),
                            description: "Stripe one-time payment".to_string(),
                        },
                    )
                } else {
                    None
                },
                None => None,
            };
            StripeEffects { handled: true, link_customer: obj.customer.clone(), subscription, credit, audit }
        },
        StripeEventRoute::InvoicePaid => {
            let amount = match obj.amount_paid {
                Some(a) => a,
                None => 0,
            };
            StripeEffects {
                handled: true,
                link_customer: None,
                subscription: None,
                credit: Some(
                    StripeCredit {
                        entry_type: LedgerEntryType::StripePayment,
                        amount_minor: amount,
                        reference: obj.id.clone(),
                        description: "Stripe invoice".to_string(),
                    },
                ),
                audit: None,
            }
        },
        StripeEventRoute::PaymentFailed => StripeEffects {
            handled: true,
            link_customer: None,
            subscription: None,
            credit: None,
            audit: Some(StripeAudit::SubscriptionPaymentFailed),
        },
        StripeEventRoute::SubscriptionUpdated => StripeEffects {
            handled: true,
            link_customer: None,
            subscription: Some(SubscriptionUpdate { subscription: obj.id.clone(), status: obj.status.clone() }),
            credit: None,
            audit: None,
        },
        StripeEventRoute::SubscriptionDeleted => StripeEffects {
            handled: true,
            link_customer: None,
            subscription: Some(SubscriptionUpdate { subscription: None, status: Some("canceled".to_string()) }),
            credit: None,
            audit: Some(StripeAudit::SubscriptionCanceled),
        },
        StripeEventRoute::ChargeRefunded => {
            let refunded = match obj.amount_refunded {
                Some(a) => a,
                None => 0,
            };
            if refunded <= 0 {
                return nothing();
            }
            let reference = match &obj.id {
                Some(i) => Some(i.clone().concat(":refund")),
                None => None,
            };
            StripeEffects {
                handled: true,
                link_customer: None,
                subscription: None,
                credit: Some(
                    StripeCredit {
                        entry_type: LedgerEntryType::StripeRefund,
                        amount_minor: -refunded,
                        reference,
                        description: "Stripe refund".to_string(),
                    },
                ),
                audit: None,
            }
        },
        StripeEventRoute::Ignored => nothing(),
    }
}

/// A refund only ever takes credit away, and a payment never does.
pub proof fn law_refunds_debit_and_payments_credit(route: StripeEventRoute, obj: StripeObject, e: StripeEffects)
    requires
        effects_spec(route, obj, e),
        e.credit is Some,
        route != StripeEventRoute::CheckoutCompleted || obj.amount_total->Some_0 >= 0,
        route != StripeEventRoute::InvoicePaid || (obj.amount_paid matches Some(a) ==> a >= 0),
    ensures
        e.credit->Some_0.entry_type == LedgerEntryType::StripeRefund ==> e.credit->Some_0.amount_minor < 0,
        e.credit->Some_0.entry_type == LedgerEntryType::StripePayment ==> e.credit->Some_0.amount_minor >= 0,
{
}

} // verus!
