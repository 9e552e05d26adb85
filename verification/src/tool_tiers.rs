//! Per-member tool rate tiers: named alternatives to a tool's standard rate,
//! and which member is on which tier of which tool. Nothing here charges
//! money; it shapes the rate a later tool use resolves.
//!
//! Tier administration is refused while tool billing is off. A tier's fee
//! and rate are never negative, and a member is only ever put on a tier of
//! the same tool.

use vstd::prelude::*;
use vstd::string::*;
use crate::decimal::{
    decimal_difference_two_places, decimal_negative, decimal_parses, decimal_text_difference_two_places,
    decimal_text_sign, decimal_text_two_places, decimal_two_places, is_modest_decimal, modest_decimal,
};
use crate::errors::{api_err, error_with, ApiError, ApiErrorKind, ApiErrorView};
use crate::text::{trim, trim_str};

verus! {

/// Refuse billing administration while tool billing is switched off.
pub fn require_tool_billing_enabled(enabled: bool) -> (r: Result<(), ApiError>)
    ensures
        enabled ==> r is Ok,
        !enabled ==> (r matches Err(e) && e@ == api_err(
            ApiErrorKind::Forbidden,
            "Tool billing is disabled in server configuration"@,
        )),
{
    if !enabled {
        return Err(error_with(ApiErrorKind::Forbidden, "Tool billing is disabled in server configuration"));
    }
    Ok(())
}

/// A request to add a rate tier to a tool. Amounts are decimal texts.
#[derive(Clone, Debug)]
pub struct CreateTierRequest {
    pub name: String,
    pub flat_fee: Option<String>,
    pub rate_per_min: Option<String>,
    pub max_session_minutes: Option<i32>,
}

/// A request to put a member on a tier.
#[derive(Clone, Copy, Debug)]
pub struct AssignTierRequest {
    pub tier_id: u128,
}

/// Whether an optional amount is a negative decimal.
pub open spec fn amount_negative(a: Option<Seq<char>>) -> bool {
    a matches Some(x) && decimal_negative(x)
}

/// The view of an optional text.
pub open spec fn opt_text(s: Option<String>) -> Option<Seq<char>> {
    match s {
        Some(x) => Some(x@),
        None => None,
    }
}

/// Whether an optional amount is a negative decimal.
fn is_negative_amount(a: &Option<String>) -> (r: bool)
    ensures
        r == amount_negative(opt_text(*a)),
{
    match a {
        Some(x) => decimal_text_sign(x.as_str()) == Some(-1i8),
        None => false,
    }
}

/// Neither the flat fee nor the per-minute rate may be below zero.
pub fn reject_negative(flat: &Option<String>, rate: &Option<String>) -> (r: Result<(), ApiError>)
    ensures
        amount_negative(opt_text(*flat)) || amount_negative(opt_text(*rate)) ==> (r matches Err(e) && e@ == api_err(
            ApiErrorKind::BadRequest,
            "flat_fee and rate_per_min cannot be negative"@,
        )),
        !(amount_negative(opt_text(*flat)) || amount_negative(opt_text(*rate))) ==> r is Ok,
{
    if is_negative_amount(flat) || is_negative_amount(rate) {
        return Err(error_with(ApiErrorKind::BadRequest, "flat_fee and rate_per_min cannot be negative"));
    }
    Ok(())
}

/// The checks on a new tier, in order: billing on, a name, amounts that are
/// not negative, and a tool that exists.
pub open spec fn new_tier_spec(enabled: bool, req: CreateTierRequest, tool_exists: bool) -> Result<Seq<char>, ApiErrorView> {
    if !enabled {
        Err(api_err(ApiErrorKind::Forbidden, "Tool billing is disabled in server configuration"@))
    } else if trim(req.name@).len() == 0 {
        Err(api_err(ApiErrorKind::BadRequest, "name is required"@))
    } else if amount_negative(opt_text(req.flat_fee)) || amount_negative(opt_text(req.rate_per_min)) {
        Err(api_err(ApiErrorKind::BadRequest, "flat_fee and rate_per_min cannot be negative"@))
    } else if !tool_exists {
        Err(api_err(ApiErrorKind::BadRequest, "tool does not exist"@))
    } else {
        Ok(trim(req.name@))
    }
}

/// Check a new tier; on success, the trimmed name it is stored under.
pub fn check_new_tier(enabled: bool, req: &CreateTierRequest, tool_exists: bool) -> (r: Result<String, ApiError>)
    ensures
        match r {
            Ok(n) => new_tier_spec(enabled, *req, tool_exists) == Ok::<Seq<char>, ApiErrorView>(n@),
            Err(e) => new_tier_spec(enabled, *req, tool_exists) == Err::<Seq<char>, ApiErrorView>(e@),
        },
{
    if let Err(e) = require_tool_billing_enabled(enabled) {
        return Err(e);
    }
    let name = trim_str(req.name.as_str());
    if name.as_str().is_empty() {
        return Err(error_with(ApiErrorKind::BadRequest, "name is required"));
    }
    if let Err(e) = reject_negative(&req.flat_fee, &req.rate_per_min) {
        return Err(e);
    }
    if !tool_exists {
        return Err(error_with(ApiErrorKind::BadRequest, "tool does not exist"));
    }
    Ok(name)
}

/// Check an assignment of a member on `tool_id` to a tier, given the tool
/// the tier belongs to (`None` when the tier was not found).
pub fn check_tier_assignment(enabled: bool, tier_tool: Option<u128>, tool_id: u128) -> (r: Result<(), ApiError>)
    ensures
        !enabled ==> (r matches Err(e) && e@ == api_err(
            ApiErrorKind::Forbidden,
            "Tool billing is disabled in server configuration"@,
        )),
        enabled && tier_tool is None ==> (r matches Err(e) && e@ == api_err(
            ApiErrorKind::BadRequest,
            "tier does not exist"@,
        )),
        enabled && (tier_tool matches Some(t) && t != tool_id) ==> (r matches Err(e) && e@ == api_err(
            ApiErrorKind::BadRequest,
            "tier does not belong to this tool"@,
        )),
        r is Ok <==> enabled && tier_tool == Some(tool_id),
{
    if let Err(e) = require_tool_billing_enabled(enabled) {
        return Err(e);
    }
    match tier_tool {
        None => Err(error_with(ApiErrorKind::BadRequest, "tier does not exist")),
        Some(t) => {
            if t != tool_id {
                Err(error_with(ApiErrorKind::BadRequest, "tier does not belong to this tool"))
            } else {
                Ok(())
            }
        },
    }
}

/// Clearing a member's tier: billing must be on, and an assignment must
/// have been cleared.
pub fn check_tier_cleared(enabled: bool, cleared: usize) -> (r: Result<(), ApiError>)
    ensures
        !enabled ==> (r matches Err(e) && e@ == api_err(
            ApiErrorKind::Forbidden,
            "Tool billing is disabled in server configuration"@,
        )),
        enabled && cleared == 0 ==> (r matches Err(e) && e@ == api_err(
            ApiErrorKind::NotFound,
            "No tier assignment for this member and tool"@,
        )),
        enabled && cleared > 0 ==> r is Ok,
{
    if let Err(e) = require_tool_billing_enabled(enabled) {
        return Err(e);
    }
    if cleared == 0 {
        return Err(error_with(ApiErrorKind::NotFound, "No tier assignment for this member and tool"));
    }
    Ok(())
}

/// A member's spendable balance for tool use, to two places.
#[derive(Clone, Debug)]
pub struct ToolBillingView {
    /// The ledger balance.
    pub balance: String,
    /// What open tool sessions hold.
    pub held: String,
    /// The balance less what is held: what a new activation can draw on.
    pub available: String,
    pub currency: String,
}

/// The spendable balance, from the ledger balance and the open holds
/// (decimal texts), each to two places. `None` only where a text is not a
/// decimal, or carries an exponent too large to rescale ([`modest_decimal`]).
pub fn tool_billing_view(balance: &str, held: &str, currency: String) -> (r: Option<ToolBillingView>)
    ensures
        r is Some <==> decimal_parses(balance@) && decimal_parses(held@) && modest_decimal(balance@)
            && modest_decimal(held@),
        r matches Some(v) ==> v.balance@ == decimal_two_places(balance@) && v.held@ == decimal_two_places(held@)
            && v.available@ == decimal_difference_two_places(balance@, held@) && v.currency@ == currency@,
{
    if !is_modest_decimal(balance) || !is_modest_decimal(held) {
        return None;
    }
    let b = decimal_text_two_places(balance)?;
    let h = decimal_text_two_places(held)?;
    let a = decimal_text_difference_two_places(balance, held)?;
    Some(ToolBillingView { balance: b, held: h, available: a, currency })
}

} // verus!
