//! Multi-factor login decisions: which second factors a login challenge
//! offers, and how a submitted factor is judged.
//!
//! A member with MFA enrolled gets a challenge instead of a token; the
//! challenge lists the methods the member can actually use. Completing it
//! takes one of those methods: a TOTP code, a WebAuthn assertion, or an
//! unused recovery code.

use vstd::prelude::*;
use vstd::string::*;
use crate::errors::{api_err, error_joined, error_with, ApiError, ApiErrorKind, ApiErrorView};
use crate::text::{chars_of, str_is, trim, trim_str};

verus! {

/// A second factor.
#[derive(Clone, Copy, Debug, PartialEq, Eq, Structural)]
pub enum MfaMethod {
    Totp,
    Webauthn,
    Recovery,
}

/// The name a method is offered and chosen under.
pub open spec fn method_name(m: MfaMethod) -> Seq<char> {
    match m {
        MfaMethod::Totp => "totp"@,
        MfaMethod::Webauthn => "webauthn"@,
        MfaMethod::Recovery => "recovery"@,
    }
}

impl MfaMethod {
    /// The name this method is offered and chosen under.
    pub fn as_str(&self) -> (s: &'static str)
        ensures
            s@ == method_name(*self),
    {
        match self {
            MfaMethod::Totp => "totp",
            MfaMethod::Webauthn => "webauthn",
            MfaMethod::Recovery => "recovery",
        }
    }
}

/// Refuse MFA operations while MFA is switched off.
pub fn require_mfa_enabled(enabled: bool) -> (r: Result<(), ApiError>)
    ensures
        enabled ==> r is Ok,
        !enabled ==> (r matches Err(e) && e@ == api_err(
            ApiErrorKind::Forbidden,
            "MFA is disabled in server configuration"@,
        )),
{
    if !enabled {
        return Err(error_with(ApiErrorKind::Forbidden, "MFA is disabled in server configuration"));
    }
    Ok(())
}

/// The methods a login challenge offers, in this order: TOTP when a TOTP
/// secret is confirmed, WebAuthn when a passkey ceremony could be started,
/// recovery when unused recovery codes remain.
pub open spec fn offered_methods(totp_confirmed: bool, webauthn_started: bool, recovery_codes: i64) -> Seq<MfaMethod> {
    (if totp_confirmed {
        seq![MfaMethod::Totp]
    } else {
        Seq::empty()
    }) + (if webauthn_started {
        seq![MfaMethod::Webauthn]
    } else {
        Seq::empty()
    }) + (if recovery_codes > 0 {
        seq![MfaMethod::Recovery]
    } else {
        Seq::empty()
    })
}

/// The methods of a login challenge. A member marked as enrolled with no
/// usable method left is a server inconsistency, refused rather than locked
/// out for good.
pub fn login_methods(totp_confirmed: bool, webauthn_started: bool, recovery_codes: i64) -> (r: Result<Vec<MfaMethod>, ApiError>)
    ensures
        offered_methods(totp_confirmed, webauthn_started, recovery_codes).len() == 0 ==> (r matches Err(e)
            && e@ == api_err(
            ApiErrorKind::InternalServerError,
            "User is marked MFA-enrolled but has no usable methods"@,
        )),
        offered_methods(totp_confirmed, webauthn_started, recovery_codes).len() > 0 ==> (r matches Ok(v)
            && v@ == offered_methods(totp_confirmed, webauthn_started, recovery_codes)),
{
    let mut v: Vec<MfaMethod> = Vec::new();
    if totp_confirmed {
        v.push(MfaMethod::Totp);
    }
    if webauthn_started {
        v.push(MfaMethod::Webauthn);
    }
    if recovery_codes > 0 {
        v.push(MfaMethod::Recovery);
    }
    assert(v@ =~= offered_methods(totp_confirmed, webauthn_started, recovery_codes));
    if v.len() == 0 {
        return Err(
            error_with(ApiErrorKind::InternalServerError, "User is marked MFA-enrolled but has no usable methods"),
        );
    }
    Ok(v)
}

/// The method a verification names.
pub open spec fn method_of(name: Seq<char>) -> Option<MfaMethod> {
    if name == "totp"@ {
        Some(MfaMethod::Totp)
    } else if name == "webauthn"@ {
        Some(MfaMethod::Webauthn)
    } else if name == "recovery"@ {
        Some(MfaMethod::Recovery)
    } else {
        None
    }
}

/// The method a verification names; any other name is refused.
pub fn chosen_method(name: &str) -> (r: Result<MfaMethod, ApiError>)
    ensures
        match method_of(name@) {
            Some(m) => r matches Ok(x) && x == m,
            None => r matches Err(e) && e@ == api_err(ApiErrorKind::BadRequest, "Unknown method: "@ + name@),
        },
{
    let cs = chars_of(name);
    if str_is(cs.as_slice(), "totp") {
        Ok(MfaMethod::Totp)
    } else if str_is(cs.as_slice(), "webauthn") {
        Ok(MfaMethod::Webauthn)
    } else if str_is(cs.as_slice(), "recovery") {
        Ok(MfaMethod::Recovery)
    } else {
        Err(error_joined(ApiErrorKind::BadRequest, "Unknown method: ", name))
    }
}

/// A challenge token names a pending login only once; an unknown, expired
/// or spent token, or a user who has since disappeared, is unauthorized.
pub fn challenge_user(pending: Option<u128>, user_exists: bool) -> (r: Result<u128, ApiError>)
    ensures
        pending is None ==> (r matches Err(e) && e@ == api_err(
            ApiErrorKind::Unauthorized,
            "Unknown or expired challenge_token"@,
        )),
        pending is Some && !user_exists ==> (r matches Err(e) && e@ == api_err(
            ApiErrorKind::Unauthorized,
            "User no longer exists"@,
        )),
        pending is Some && user_exists ==> r == Ok::<u128, ApiError>(pending->0),
{
    match pending {
        None => Err(error_with(ApiErrorKind::Unauthorized, "Unknown or expired challenge_token")),
        Some(id) => if user_exists {
            Ok(id)
        } else {
            Err(error_with(ApiErrorKind::Unauthorized, "User no longer exists"))
        },
    }
}

/// The code a TOTP or recovery verification submits: trimmed, and
/// required.
pub open spec fn submitted_code_spec(code: Option<Seq<char>>, method: MfaMethod) -> Result<Seq<char>, ApiErrorView> {
    match code {
        Some(c) if trim(c).len() > 0 => Ok(trim(c)),
        _ => Err(
            api_err(
                ApiErrorKind::BadRequest,
                if method == MfaMethod::Totp {
                    "code is required for TOTP"@
                } else {
                    "code is required for recovery"@
                },
            ),
        ),
    }
}

/// The submitted code of a TOTP or recovery verification.
pub fn submitted_code(code: Option<&str>, method: MfaMethod) -> (r: Result<String, ApiError>)
    ensures
        match r {
            Ok(c) => submitted_code_spec(
                match code {
                    Some(x) => Some(x@),
                    None => None,
                },
                method,
            ) == Ok::<Seq<char>, ApiErrorView>(c@),
            Err(e) => submitted_code_spec(
                match code {
                    Some(x) => Some(x@),
                    None => None,
                },
                method,
            ) == Err::<Seq<char>, ApiErrorView>(e@),
        },
{
    if let Some(c) = code {
        let t = trim_str(c);
        if !t.as_str().is_empty() {
            return Ok(t);
        }
    }
    match method {
        MfaMethod::Totp => Err(error_with(ApiErrorKind::BadRequest, "code is required for TOTP")),
        _ => Err(error_with(ApiErrorKind::BadRequest, "code is required for recovery")),
    }
}

/// Judge a TOTP verification: the member needs a confirmed TOTP secret, and
/// the code must verify against it.
pub fn totp_verdict(confirmed_secret: bool, code_valid: bool) -> (r: Result<(), ApiError>)
    ensures
        !confirmed_secret ==> (r matches Err(e) && e@ == api_err(
            ApiErrorKind::Unauthorized,
            "No confirmed TOTP for user"@,
        )),
        confirmed_secret && !code_valid ==> (r matches Err(e) && e@ == api_err(
            ApiErrorKind::Unauthorized,
            "Invalid TOTP code"@,
        )),
        confirmed_secret && code_valid ==> r is Ok,
{
    if !confirmed_secret {
        return Err(error_with(ApiErrorKind::Unauthorized, "No confirmed TOTP for user"));
    }
    if !code_valid {
        return Err(error_with(ApiErrorKind::Unauthorized, "Invalid TOTP code"));
    }
    Ok(())
}

/// Judge a recovery verification from whether the submitted code matches
/// each unused recovery code, in order: the first match is spent, and with
/// none the code is refused.
pub fn recovery_verdict(matches: &[bool]) -> (r: Result<usize, ApiError>)
    ensures
        match r {
            Ok(i) => i < matches@.len() && matches@[i as int] && forall|j: int| 0 <= j < i ==> !matches@[j],
            Err(e) => e@ == api_err(ApiErrorKind::Unauthorized, "Invalid recovery code"@) && forall|j: int|
                0 <= j < matches@.len() ==> !matches@[j],
        },
{
    let mut i: usize = 0;
    while i < matches.len()
        invariant
            i <= matches@.len(),
            forall|j: int| 0 <= j < i ==> !matches@[j],
        decreases matches@.len() - i,
    {
        if matches[i] {
            return Ok(i);
        }
        i = i + 1;
    }
    Err(error_with(ApiErrorKind::Unauthorized, "Invalid recovery code"))
}

// ---------------------------------------------------------------------------
// Enrollment
// ---------------------------------------------------------------------------

/// A member's MFA standing, as the status endpoint reports it.
#[derive(Clone, Copy, Debug)]
pub struct MfaStatusResponse {
    pub enabled: bool,
    pub totp_enrolled: bool,
    pub webauthn_count: usize,
    pub recovery_codes_remaining: i64,
    pub must_enroll: bool,
}

/// The status report: TOTP counts as enrolled once confirmed, and a member
/// must enroll when their role requires MFA and nothing is enrolled yet.
pub fn mfa_status(
    enabled: bool,
    totp_confirmed: bool,
    webauthn_count: usize,
    recovery_codes_remaining: i64,
    required_for_role: bool,
    enrolled: bool,
) -> (r: MfaStatusResponse)
    ensures
        r.enabled == enabled,
        r.totp_enrolled == totp_confirmed,
        r.webauthn_count == webauthn_count,
        r.recovery_codes_remaining == recovery_codes_remaining,
        r.must_enroll == (required_for_role && !enrolled),
{
    MfaStatusResponse {
        enabled,
        totp_enrolled: totp_confirmed,
        webauthn_count,
        recovery_codes_remaining,
        must_enroll: required_for_role && !enrolled,
    }
}

/// TOTP enrollment needs TOTP allowed in the configuration.
pub fn totp_allowed(allow_totp: bool) -> (r: Result<(), ApiError>)
    ensures
        allow_totp ==> r is Ok,
        !allow_totp ==> (r matches Err(e) && e@ == api_err(ApiErrorKind::Forbidden, "TOTP disabled"@)),
{
    if !allow_totp {
        return Err(error_with(ApiErrorKind::Forbidden, "TOTP disabled"));
    }
    Ok(())
}

/// Confirming TOTP needs a setup in progress and a code (trimmed) that
/// verifies against its secret.
pub fn totp_confirm_verdict(setup_in_progress: bool, code_valid: bool) -> (r: Result<(), ApiError>)
    ensures
        !setup_in_progress ==> (r matches Err(e) && e@ == api_err(
            ApiErrorKind::BadRequest,
            "No TOTP setup in progress"@,
        )),
        setup_in_progress && !code_valid ==> (r matches Err(e) && e@ == api_err(
            ApiErrorKind::BadRequest,
            "Invalid code"@,
        )),
        setup_in_progress && code_valid ==> r is Ok,
{
    if !setup_in_progress {
        return Err(error_with(ApiErrorKind::BadRequest, "No TOTP setup in progress"));
    }
    if !code_valid {
        return Err(error_with(ApiErrorKind::BadRequest, "Invalid code"));
    }
    Ok(())
}

/// Passkey operations need WebAuthn configured.
pub fn webauthn_available(configured: bool) -> (r: Result<(), ApiError>)
    ensures
        configured ==> r is Ok,
        !configured ==> (r matches Err(e) && e@ == api_err(ApiErrorKind::Forbidden, "WebAuthn disabled"@)),
{
    if !configured {
        return Err(error_with(ApiErrorKind::Forbidden, "WebAuthn disabled"));
    }
    Ok(())
}

/// A new passkey needs a label; on success, the trimmed label.
pub fn passkey_label(label: &str) -> (r: Result<String, ApiError>)
    ensures
        trim(label@).len() == 0 ==> (r matches Err(e) && e@ == api_err(ApiErrorKind::BadRequest, "label is required"@)),
        trim(label@).len() > 0 ==> (r matches Ok(l) && l@ == trim(label@)),
{
    let t = trim_str(label);
    if t.as_str().is_empty() {
        return Err(error_with(ApiErrorKind::BadRequest, "label is required"));
    }
    Ok(t)
}

/// Finishing a passkey registration needs the pending registration its
/// token names (`pending_owner`, `None` when unknown or expired), started by
/// the same member.
pub fn registration_owner(pending_owner: Option<u128>, user: u128) -> (r: Result<(), ApiError>)
    ensures
        pending_owner is None ==> (r matches Err(e) && e@ == api_err(
            ApiErrorKind::BadRequest,
            "Unknown or expired challenge_token"@,
        )),
        pending_owner matches Some(o) && o != user ==> (r matches Err(e) && e@ == api_err(
            ApiErrorKind::Forbidden,
            "challenge_token does not belong to this user"@,
        )),
        r is Ok <==> pending_owner == Some(user),
{
    match pending_owner {
        None => Err(error_with(ApiErrorKind::BadRequest, "Unknown or expired challenge_token")),
        Some(o) => if o != user {
            Err(error_with(ApiErrorKind::Forbidden, "challenge_token does not belong to this user"))
        } else {
            Ok(())
        },
    }
}

/// Removing a passkey that matched none of the member's is a 404.
pub fn passkey_removed(deleted: usize) -> (r: Result<(), ApiError>)
    ensures
        deleted == 0 ==> (r matches Err(e) && e@ == api_err(ApiErrorKind::NotFound, "Credential not found"@)),
        deleted > 0 ==> r is Ok,
{
    if deleted == 0 {
        return Err(error_with(ApiErrorKind::NotFound, "Credential not found"));
    }
    Ok(())
}

} // verus!
