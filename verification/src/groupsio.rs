//! A member's own mailing-list subscription.
//!
//! Opting out is recorded as a timestamp on the account; no timestamp means
//! subscribed by default (effective once the address is verified). A change
//! is written, and audited for the list sync to follow, only when the
//! member's intent actually changes.

use vstd::prelude::*;
use crate::errors::{api_err, error_with, ApiError, ApiErrorKind};

verus! {

/// Refuse while the Groups.io integration is switched off.
pub fn require_groupsio_enabled(enabled: bool) -> (r: Result<(), ApiError>)
    ensures
        enabled ==> r is Ok,
        !enabled ==> (r matches Err(e) && e@ == api_err(
            ApiErrorKind::Forbidden,
            "Groups.io integration is disabled in server configuration"@,
        )),
{
    if !enabled {
        return Err(error_with(ApiErrorKind::Forbidden, "Groups.io integration is disabled in server configuration"));
    }
    Ok(())
}

/// A member's view of their subscription.
#[derive(Clone, Copy, Debug, PartialEq, Eq, Structural)]
pub struct SubscriptionStatus {
    /// Whether the member means to be on the list (no opt-out recorded).
    pub subscribed: bool,
    /// Whether the address is verified; a subscription takes effect only then.
    pub email_verified: bool,
}

/// A member's request to change their subscription.
#[derive(Clone, Copy, Debug)]
pub struct SetSubscriptionRequest {
    pub subscribed: bool,
}

/// The member's current subscription.
pub fn subscription_status(opted_out: bool, email_verified: bool) -> (s: SubscriptionStatus)
    ensures
        s == (SubscriptionStatus { subscribed: !opted_out, email_verified }),
{
    SubscriptionStatus { subscribed: !opted_out, email_verified }
}

/// What a subscription change does.
#[derive(Clone, Copy, Debug, PartialEq, Eq, Structural)]
pub struct SubscriptionChange {
    /// `Some(true)` to clear the opt-out and audit a subscribe, `Some(false)`
    /// to record an opt-out and audit an unsubscribe, `None` to write nothing.
    pub write: Option<bool>,
    /// The status answered.
    pub status: SubscriptionStatus,
}

/// Decide a subscription change: write (and audit) only when the intent
/// differs from what is recorded; answer with the requested state.
pub fn set_subscription(opted_out: bool, email_verified: bool, req: SetSubscriptionRequest) -> (c: SubscriptionChange)
    ensures
        c.write == (if req.subscribed != !opted_out {
            Some(req.subscribed)
        } else {
            None
        }),
        c.status == (SubscriptionStatus { subscribed: req.subscribed, email_verified }),
{
    let currently = !opted_out;
    let write = if req.subscribed != currently {
        Some(req.subscribed)
    } else {
        None
    };
    SubscriptionChange { write, status: SubscriptionStatus { subscribed: req.subscribed, email_verified } }
}

} // verus!
