//! Administration of accounts and the instance: extra roles held by users,
//! activation, resetting a user's second factors, and refreshing the wiki
//! and site pages from their repositories.
//!
//! The deployment is never locked out of administration: removing a role
//! from the last active administrator is refused when it would take their
//! admin access away.

use vstd::prelude::*;
use vstd::string::*;
use crate::errors::{api_err, error_with, make_error, ApiError, ApiErrorKind};
use crate::text::{append_str, dec_digits, push_decimal, string_from_chars};

verus! {

/// A request to grant a user an additional role.
#[derive(Clone, Copy, Debug)]
pub struct AssignRoleRequest {
    pub role_id: u128,
}

/// A role a user holds.
#[derive(Clone, Debug)]
pub struct AssignedRole {
    pub id: u128,
    pub name: String,
}

/// Granting a role needs the user, then the role, to exist.
pub fn role_grant_targets(user_exists: bool, role_exists: bool) -> (r: Result<(), ApiError>)
    ensures
        !user_exists ==> (r matches Err(e) && e@ == api_err(ApiErrorKind::NotFound, "user not found"@)),
        user_exists && !role_exists ==> (r matches Err(e) && e@ == api_err(ApiErrorKind::NotFound, "role not found"@)),
        user_exists && role_exists ==> r is Ok,
{
    if !user_exists {
        return Err(error_with(ApiErrorKind::NotFound, "user not found"));
    }
    if !role_exists {
        return Err(error_with(ApiErrorKind::NotFound, "role not found"));
    }
    Ok(())
}

/// Whether an id differs from `role`.
pub open spec fn other_than(role: u128) -> spec_fn(u128) -> bool {
    |r: u128| r != role
}

/// The roles a user would keep after losing `role`, in order.
pub fn remaining_roles(held: &Vec<u128>, role: u128) -> (r: Vec<u128>)
    ensures
        r@ == held@.filter(other_than(role)),
{
    let mut out: Vec<u128> = Vec::new();
    let mut i: usize = 0;
    while i < held.len()
        invariant
            i <= held@.len(),
            out@ == held@.subrange(0, i as int).filter(other_than(role)),
        decreases held@.len() - i,
    {
        let x = held[i];
        proof {
            let s = held@.subrange(0, i as int + 1);
            assert(s.drop_last() =~= held@.subrange(0, i as int));
            assert(s.last() == x);
            reveal(Seq::filter);
        }
        if x != role {
            out.push(x);
        }
        i = i + 1;
    }
    assert(held@.subrange(0, held@.len() as int) =~= held@);
    out
}

/// Whether removing a role would take admin access from the last active
/// administrator: the user has admin access now, would not keep it with the
/// remaining roles, and there is at most one active administrator.
pub open spec fn strips_last_admin(has_admin_now: bool, admin_after: bool, active_admins: u64) -> bool {
    has_admin_now && !admin_after && active_admins <= 1
}

/// Decide a role removal: refused when it would strip the last
/// administrator; otherwise it must have removed a role the user held
/// (`removed` rows).
pub fn role_removal_gate(has_admin_now: bool, admin_after: bool, active_admins: u64, removed: usize) -> (r: Result<(), ApiError>)
    ensures
        strips_last_admin(has_admin_now, admin_after, active_admins) ==> (r matches Err(e) && e@ == api_err(
            ApiErrorKind::Forbidden,
            "cannot remove the last administrator's admin access"@,
        )),
        !strips_last_admin(has_admin_now, admin_after, active_admins) && removed == 0 ==> (r matches Err(e) && e@
            == api_err(ApiErrorKind::NotFound, "the user does not hold that role"@)),
        r is Ok <==> !strips_last_admin(has_admin_now, admin_after, active_admins) && removed > 0,
{
    if has_admin_now && !admin_after && active_admins <= 1 {
        return Err(error_with(ApiErrorKind::Forbidden, "cannot remove the last administrator's admin access"));
    }
    if removed == 0 {
        return Err(error_with(ApiErrorKind::NotFound, "the user does not hold that role"));
    }
    Ok(())
}

/// An accepted role removal never leaves the only active administrator
/// without admin access.
pub proof fn law_last_admin_keeps_admin_access(has_admin_now: bool, admin_after: bool, active_admins: u64, removed: usize)
    requires
        !strips_last_admin(has_admin_now, admin_after, active_admins),
        removed > 0,
        has_admin_now,
        active_admins <= 1,
    ensures
        admin_after,
{
}

/// Switching an account on or off.
#[derive(Clone, Copy, Debug, PartialEq, Eq, Structural)]
pub enum Activation {
    Activate,
    Deactivate,
}

impl Activation {
    /// Whether the account is active afterwards.
    pub fn is_active(&self) -> (b: bool)
        ensures
            b == (*self == Activation::Activate),
    {
        match self {
            Activation::Activate => true,
            Activation::Deactivate => false,
        }
    }

    /// The message the change is answered with.
    pub fn message(&self) -> (m: &'static str)
        ensures
            *self == Activation::Activate ==> m@ == "User activated successfully"@,
            *self == Activation::Deactivate ==> m@ == "User deactivated successfully"@,
    {
        match self {
            Activation::Activate => "User activated successfully",
            Activation::Deactivate => "User deactivated successfully",
        }
    }

    /// The action the audit log records.
    pub fn audit_action(&self) -> (m: &'static str)
        ensures
            *self == Activation::Activate ==> m@ == "User activated by admin"@,
            *self == Activation::Deactivate ==> m@ == "User deactivated by admin"@,
    {
        match self {
            Activation::Activate => "User activated by admin",
            Activation::Deactivate => "User deactivated by admin",
        }
    }
}

/// The message an MFA reset is answered with.
pub fn mfa_reset_message(username: &str) -> (m: String)
    ensures
        m@ == "MFA reset for user "@ + username@,
{
    "MFA reset for user ".to_string().concat(username)
}

/// The two page collections.
#[derive(Clone, Copy, Debug, PartialEq, Eq, Structural)]
pub enum PageKind {
    Wiki,
    Site,
}

/// The lower-case name of a page collection.
pub open spec fn page_kind_name(k: PageKind) -> Seq<char> {
    match k {
        PageKind::Wiki => "wiki"@,
        PageKind::Site => "site"@,
    }
}

/// The capitalised name of a page collection.
pub open spec fn page_kind_title(k: PageKind) -> Seq<char> {
    match k {
        PageKind::Wiki => "Wiki"@,
        PageKind::Site => "Site"@,
    }
}

impl PageKind {
    /// The lower-case name.
    pub fn name(&self) -> (s: &'static str)
        ensures
            s@ == page_kind_name(*self),
    {
        match self {
            PageKind::Wiki => "wiki",
            PageKind::Site => "site",
        }
    }

    /// The capitalised name.
    pub fn title(&self) -> (s: &'static str)
        ensures
            s@ == page_kind_title(*self),
    {
        match self {
            PageKind::Wiki => "Wiki",
            PageKind::Site => "Site",
        }
    }
}

/// A refresh is only attempted for a collection with a repository; without
/// one the request conflicts with the configuration.
pub fn refresh_configured(kind: PageKind, configured: bool) -> (r: Result<(), ApiError>)
    ensures
        configured ==> r is Ok,
        !configured ==> (r matches Err(e) && e@ == api_err(
            ApiErrorKind::Conflict,
            "No "@ + page_kind_name(kind) + " repository is configured; set one before refreshing"@,
        )),
{
    if configured {
        return Ok(());
    }
    let m = "No ".to_string().concat(kind.name()).concat(" repository is configured; set one before refreshing");
    Err(make_error(ApiErrorKind::Conflict, m))
}

/// A refresh that failed while fetching, with the fetch's complaint.
pub fn refresh_failed(kind: PageKind, cause: &str) -> (e: ApiError)
    ensures
        e@ == api_err(
            ApiErrorKind::InternalServerError,
            "Failed to refresh "@ + page_kind_name(kind) + " pages: "@ + cause@,
        ),
{
    let m = "Failed to refresh ".to_string().concat(kind.name()).concat(" pages: ").concat(cause);
    make_error(ApiErrorKind::InternalServerError, m)
}

/// What a successful refresh reports: the key the page count goes under,
/// and the message.
pub fn refresh_report(kind: PageKind, count: u64) -> (r: (String, String))
    ensures
        r.0@ == page_kind_name(kind) + "_pages_count"@,
        r.1@ == page_kind_title(kind) + " pages refreshed successfully. "@ + dec_digits(count as nat)
            + " pages loaded."@,
{
    let key = kind.name().to_string().concat("_pages_count");
    let mut v: Vec<char> = Vec::new();
    append_str(&mut v, kind.title());
    append_str(&mut v, " pages refreshed successfully. ");
    push_decimal(&mut v, count);
    append_str(&mut v, " pages loaded.");
    (key, string_from_chars(v.as_slice()))
}

/// A configuration reload that failed, with its cause chain.
pub fn reload_failed(cause: &str) -> (e: ApiError)
    ensures
        e@ == api_err(ApiErrorKind::InternalServerError, "Failed to reload configuration: "@ + cause@),
{
    make_error(ApiErrorKind::InternalServerError, "Failed to reload configuration: ".to_string().concat(cause))
}

} // verus!
