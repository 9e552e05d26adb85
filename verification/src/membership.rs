//! The membership module's own rules: when it answers at all, what a
//! member is shown of their state, and how an administrator's record of a
//! payment taken outside Stripe is checked before it reaches the ledger.

use vstd::prelude::*;
use vstd::string::*;
use crate::errors::{api_err, error_with, make_error, ApiError, ApiErrorKind, ApiErrorView};
use crate::decimal::{
    decimal_parses, decimal_sign, decimal_text_sign, decimal_text_two_places, decimal_two_places, is_modest_decimal,
    modest_decimal, read_decimal, Decimal,
};
use crate::models::{role_rank, LedgerEntryType, Timestamp, UserRole};
use crate::text::{chars_of, debug_quoted, debug_text, str_is, trim, trim_str};

verus! {

/// Refuse every membership operation while the module is switched off.
pub fn require_membership_enabled(enabled: bool) -> (r: Result<(), ApiError>)
    ensures
        enabled ==> r is Ok,
        !enabled ==> (r matches Err(e) && e@ == api_err(
            ApiErrorKind::Forbidden,
            "Membership module is disabled in server configuration"@,
        )),
{
    if !enabled {
        return Err(error_with(ApiErrorKind::Forbidden, "Membership module is disabled in server configuration"));
    }
    Ok(())
}

/// The module is on but its service was not started: the server's fault.
pub fn service_not_running() -> (e: ApiError)
    ensures
        e@ == api_err(ApiErrorKind::InternalServerError, "Membership service is not running"@),
{
    error_with(ApiErrorKind::InternalServerError, "Membership service is not running")
}

/// What a member is shown of their membership: whether they are enrolled
/// (a renewal date is set) and whether their role is at or above the
/// configured member role.
pub fn membership_flags(next_due_set: bool, role: UserRole, member_role: UserRole) -> (r: (bool, bool))
    ensures
        r.0 == next_due_set,
        r.1 == (role_rank(role) >= role_rank(member_role)),
{
    (next_due_set, role.rank() >= member_role.rank())
}

/// A request to record a payment taken outside Stripe, or a correction.
#[derive(Clone, Debug)]
pub struct LogPaymentRequest {
    /// The member's id, as the 128-bit value of its UUID.
    pub user_id: u128,
    /// A decimal amount, such as "25.00"; an adjustment may be negative.
    pub amount: String,
    /// "cash_payment" (the default) or "adjustment".
    pub entry_type: Option<String>,
    pub description: Option<String>,
}

/// The answer to a recorded payment.
#[derive(Clone, Debug)]
pub struct LogPaymentResponse {
    /// Whether a ledger entry was posted.
    pub posted: bool,
    /// The member's balance afterwards, to two places.
    pub balance: String,
}

/// The ledger entry type a payment is recorded as.
pub open spec fn payment_type_spec(entry_type: Option<Seq<char>>) -> Result<LedgerEntryType, ApiErrorView> {
    match entry_type {
        None => Ok(LedgerEntryType::CashPayment),
        Some(t) => if t == "cash_payment"@ {
            Ok(LedgerEntryType::CashPayment)
        } else if t == "adjustment"@ {
            Ok(LedgerEntryType::Adjustment)
        } else {
            Err(
                api_err(
                    ApiErrorKind::BadRequest,
                    "entry_type "@ + debug_text(t) + " must be cash_payment or adjustment"@,
                ),
            )
        },
    }
}

/// The amount of a payment: the request's text, trimmed, must be a nonzero
/// decimal.
pub open spec fn payment_amount_spec(amount: Seq<char>) -> Result<(), ApiErrorView> {
    if !decimal_parses(trim(amount)) {
        Err(api_err(ApiErrorKind::BadRequest, "amount "@ + debug_text(amount) + " is not a decimal"@))
    } else if decimal_sign(trim(amount)) == 0 {
        Err(api_err(ApiErrorKind::BadRequest, "amount must not be zero"@))
    } else {
        Ok(())
    }
}

/// Check a payment before it is recorded: a nonzero decimal amount, then a
/// cash payment or an adjustment (never a Stripe type). On success, the
/// amount (the trimmed text) and the entry type.
pub fn check_payment(req: &LogPaymentRequest) -> (r: Result<(Decimal, LedgerEntryType), ApiError>)
    ensures
        r matches Ok((d, _)) ==> d@ == trim(req.amount@),
        payment_amount_spec(req.amount@) matches Err(e) ==> (r matches Err(x) && x@ == e),
        payment_amount_spec(req.amount@) is Ok ==> match r {
            Ok((_, t)) => payment_type_spec(
                match req.entry_type {
                    Some(s) => Some(s@),
                    None => None,
                },
            ) == Ok::<LedgerEntryType, ApiErrorView>(t),
            Err(x) => payment_type_spec(
                match req.entry_type {
                    Some(s) => Some(s@),
                    None => None,
                },
            ) == Err::<LedgerEntryType, ApiErrorView>(x@),
        },
{
    let t = trim_str(req.amount.as_str());
    let amount = match read_decimal(t.as_str()) {
        None => {
            let m = String::from_str("amount ").concat(debug_quoted(req.amount.as_str()).as_str()).concat(
                " is not a decimal",
            );
            return Err(make_error(ApiErrorKind::BadRequest, m));
        },
        Some(d) => d,
    };
    if decimal_text_sign(t.as_str()) == Some(0i8) {
        return Err(error_with(ApiErrorKind::BadRequest, "amount must not be zero"));
    }
    let entry_type = match &req.entry_type {
        None => LedgerEntryType::CashPayment,
        Some(s) => {
            let cs = chars_of(s.as_str());
            if str_is(cs.as_slice(), "cash_payment") {
                LedgerEntryType::CashPayment
            } else if str_is(cs.as_slice(), "adjustment") {
                LedgerEntryType::Adjustment
            } else {
                let m = String::from_str("entry_type ").concat(debug_quoted(s.as_str()).as_str()).concat(
                    " must be cash_payment or adjustment",
                );
                return Err(make_error(ApiErrorKind::BadRequest, m));
            }
        },
    };
    Ok((amount, entry_type))
}

/// A payment recorded by hand is never a Stripe payment or refund.
pub proof fn law_manual_payments_are_never_stripe(entry_type: Option<Seq<char>>)
    ensures
        payment_type_spec(entry_type) matches Ok(t) ==> (t == LedgerEntryType::CashPayment || t
            == LedgerEntryType::Adjustment),
{
}

/// A member's own view of their membership.
#[derive(Clone, Debug)]
pub struct MembershipView {
    /// Whether the member's dues clock runs.
    pub enrolled: bool,
    /// Whether their role is at or above the member role.
    pub is_member: bool,
    /// The ledger balance, to two places.
    pub balance: String,
    pub currency: String,
    pub next_due_at: Option<Timestamp>,
    /// Whether they have a live Stripe subscription.
    pub has_subscription: bool,
    pub plan_name: String,
}

/// A member's view, from their record and the module's settings; the
/// balance is a decimal text. `None` only where it is not a decimal, or
/// carries an exponent too large to rescale ([`modest_decimal`]).
pub fn membership_view(
    role: UserRole,
    member_role: UserRole,
    next_due_at: Option<Timestamp>,
    has_subscription: bool,
    balance: &str,
    currency: String,
    plan_name: String,
) -> (r: Option<MembershipView>)
    ensures
        r is Some <==> decimal_parses(balance@) && modest_decimal(balance@),
        r matches Some(v) ==> {
            &&& v.enrolled == (next_due_at is Some)
            &&& v.is_member == (role_rank(role) >= role_rank(member_role))
            &&& v.balance@ == decimal_two_places(balance@)
            &&& v.currency@ == currency@
            &&& v.next_due_at == next_due_at
            &&& v.has_subscription == has_subscription
            &&& v.plan_name@ == plan_name@
        },
{
    if !is_modest_decimal(balance) {
        return None;
    }
    let b = decimal_text_two_places(balance)?;
    Some(
        MembershipView {
            enrolled: next_due_at.is_some(),
            is_member: role.rank() >= member_role.rank(),
            balance: b,
            currency,
            next_due_at,
            has_subscription,
            plan_name,
        },
    )
}

/// The answer to a recorded payment: whether it was posted, and the
/// member's balance afterwards to two places. `None` only where the
/// balance is not a decimal, or carries an exponent too large to rescale
/// ([`modest_decimal`]).
pub fn payment_response(posted: bool, balance: &str) -> (r: Option<LogPaymentResponse>)
    ensures
        r is Some <==> decimal_parses(balance@) && modest_decimal(balance@),
        r matches Some(p) ==> p.posted == posted && p.balance@ == decimal_two_places(balance@),
{
    if !is_modest_decimal(balance) {
        return None;
    }
    let b = decimal_text_two_places(balance)?;
    Some(LogPaymentResponse { posted, balance: b })
}

} // verus!
