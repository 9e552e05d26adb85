//! Account decisions: who may register, the password-reset flow, profile
//! updates and self-service password changes.
//!
//! The handlers around these read the configuration, consult the throttle,
//! the reCAPTCHA service and the database, and send mail; each function here
//! takes what those reported as plain values and decides what happens next.

use vstd::prelude::*;
use vstd::string::*;
use vstd::utf8::encode_utf8;
use crate::auth::{argon2_hash_parses, argon2_password_matches, password_hashable, PasswordHashUtil};
use crate::errors::{
    api_err, database_error_spec, error_joined, error_with, kind_status, make_error, ApiError,
    ApiErrorKind, ApiErrorView, DatabaseError,
};
use crate::models::{User, UserRole};
use crate::text::{
    chars_of, contains_char, dec_digits, join_number, str_is, strip_trailing, to_lowercase, trim,
    trim_end_char, trim_str, unicode_lowercase,
};

verus! {

// ---------------------------------------------------------------------------
// Shared pieces
// ---------------------------------------------------------------------------

/// The length in bytes of the UTF-8 encoding of a text, as `str::len`
/// reports it (every string in memory has a length that fits a `usize`).
pub open spec fn byte_len(s: Seq<char>) -> usize {
    encode_utf8(s).len() as usize
}

/// The message for a password shorter than `min` bytes.
pub open spec fn min_length_message(min: usize) -> Seq<char> {
    "Password must be at least "@ + dec_digits(min as nat) + " characters long"@
}

/// The message for a password shorter than `min` bytes.
fn min_length_text(min: usize) -> (m: String)
    ensures
        m@ == min_length_message(min),
{
    join_number("Password must be at least ", min as u64, " characters long")
}

/// Whether two texts are equal.
fn same_text(a: &str, b: &str) -> (r: bool)
    ensures
        r == (a@ == b@),
{
    let x = chars_of(a);
    str_is(x.as_slice(), b)
}

/// The text of an optional string, empty when absent (`unwrap_or("")`).
pub open spec fn text_or_empty(s: Option<String>) -> Seq<char> {
    match s {
        Some(x) => x@,
        None => Seq::empty(),
    }
}

/// Hash a new password for storage: it succeeds for every password Argon2
/// takes. The hash is salted at random, so which hash comes back is not
/// stated.
pub fn hash_for_storage(password: &str) -> (r: Result<String, ApiError>)
    ensures
        password_hashable(password@) ==> r is Ok,
        r matches Ok(h) ==> argon2_hash_parses(h@) && argon2_password_matches(password@, h@),
        r matches Err(e) ==> e@ == api_err(ApiErrorKind::InternalServerError, "Failed to hash password"@),
{
    match PasswordHashUtil::hash(password) {
        Ok(h) => Ok(h),
        Err(_) => Err(error_with(ApiErrorKind::InternalServerError, "Failed to hash password")),
    }
}

/// Whether `password` is the one `hash` was made from; an unreadable hash
/// verifies nothing (`verify(..).unwrap_or(false)`).
pub open spec fn password_ok(password: Seq<char>, hash: Seq<char>) -> bool {
    argon2_hash_parses(hash) && argon2_password_matches(password, hash)
}

/// Check a password against a stored hash, treating an unreadable hash as a
/// mismatch.
pub fn check_password(password: &str, hash: &str) -> (r: bool)
    ensures
        r == password_ok(password@, hash@),
{
    match PasswordHashUtil::verify(password, hash) {
        Ok(b) => b,
        Err(_) => false,
    }
}

// ---------------------------------------------------------------------------
// Registration
// ---------------------------------------------------------------------------

/// The registration rules a deployment configures.
#[derive(Clone, Debug)]
pub struct RegistrationSettings {
    pub allow_registration: bool,
    pub password_min_length: usize,
    pub challenge_enabled: bool,
    pub challenge_phrase: String,
    pub throttle_enabled: bool,
    pub throttle_attempts: u32,
    pub throttle_seconds: u32,
    pub terms_of_service_checkbox: bool,
    pub recaptcha_enabled: bool,
}

/// A registration request.
#[derive(Clone, Debug)]
pub struct RegisterRequest {
    pub username: String,
    pub email: String,
    pub password: String,
    pub full_name: String,
    pub challenge_phrase: Option<String>,
    pub terms_of_service_accepted: Option<bool>,
    pub recaptcha_token: Option<String>,
}

/// A refused request: the error the caller gets, and whether a failed
/// attempt is recorded against the throttle before answering.
#[derive(Debug)]
pub struct Refusal {
    pub error: ApiError,
    pub record_failure: bool,
}

/// A refusal as plain values.
pub struct RefusalView {
    pub error: ApiErrorView,
    pub record_failure: bool,
}

impl View for Refusal {
    type V = RefusalView;

    open spec fn view(&self) -> RefusalView {
        RefusalView { error: self.error@, record_failure: self.record_failure }
    }
}

/// The refusal with an error of `kind` and `message`.
pub open spec fn refuse(kind: ApiErrorKind, message: Seq<char>, record_failure: bool) -> RefusalView {
    RefusalView { error: api_err(kind, message), record_failure }
}

/// Whether registration attempts go through the throttle: only when the
/// challenge and its throttle are both on.
pub fn registration_throttled(s: &RegistrationSettings) -> (r: bool)
    ensures
        r == (s.challenge_enabled && s.throttle_enabled),
{
    s.challenge_enabled && s.throttle_enabled
}

/// The throttle's key for a registration: the lower-cased email.
pub fn registration_throttle_key(p: &RegisterRequest) -> (k: String)
    ensures
        k@ == unicode_lowercase(p.email@),
{
    to_lowercase(p.email.as_str())
}

/// The gates of a registration before its reCAPTCHA token is verified.
/// `locked` is the throttle's answer when registrations are throttled: the
/// seconds left of a lock-out, if any. On success, the token to verify when
/// reCAPTCHA is on.
pub open spec fn register_gate_spec(s: RegistrationSettings, p: RegisterRequest, locked: Option<u64>) -> Result<Option<Seq<char>>, RefusalView> {
    if !s.allow_registration {
        Err(refuse(ApiErrorKind::Forbidden, "User registration is disabled"@, false))
    } else if s.challenge_enabled && s.throttle_enabled && locked is Some {
        Err(
            refuse(
                ApiErrorKind::TooManyRequests,
                "Too many failed registration attempts. Try again in "@ + dec_digits(
                    locked->0 as nat,
                ) + " seconds"@,
                false,
            ),
        )
    } else if s.challenge_enabled && text_or_empty(p.challenge_phrase) != s.challenge_phrase@ {
        Err(refuse(ApiErrorKind::BadRequest, "Invalid registration phrase"@, s.throttle_enabled))
    } else if s.terms_of_service_checkbox && p.terms_of_service_accepted != Some(true) {
        Err(
            refuse(
                ApiErrorKind::BadRequest,
                "You must accept the terms of service to register"@,
                false,
            ),
        )
    } else if s.recaptcha_enabled {
        if text_or_empty(p.recaptcha_token).len() == 0 {
            Err(refuse(ApiErrorKind::BadRequest, "reCAPTCHA verification is required"@, false))
        } else {
            Ok(Some(text_or_empty(p.recaptcha_token)))
        }
    } else {
        Ok(None)
    }
}

/// The view of a gate result.
pub open spec fn gate_view(r: Result<Option<String>, Refusal>) -> Result<Option<Seq<char>>, RefusalView> {
    match r {
        Ok(Some(t)) => Ok(Some(t@)),
        Ok(None) => Ok(None),
        Err(x) => Err(x@),
    }
}

/// The gates of a registration before its reCAPTCHA token is verified:
/// registration must be open; with the challenge on, a throttled-out
/// address is refused and the phrase must match (a wrong phrase counts
/// against the throttle); the terms of service must be accepted when asked
/// for; and with reCAPTCHA on, a token must be present.
pub fn register_gate(s: &RegistrationSettings, p: &RegisterRequest, locked: Option<u64>) -> (r: Result<Option<String>, Refusal>)
    ensures
        gate_view(r) == register_gate_spec(*s, *p, locked),
{
    if !s.allow_registration {
        return Err(
            Refusal {
                error: error_with(ApiErrorKind::Forbidden, "User registration is disabled"),
                record_failure: false,
            },
        );
    }
    if s.challenge_enabled {
        if s.throttle_enabled {
            if let Some(rem) = locked {
                let m = join_number("Too many failed registration attempts. Try again in ", rem, " seconds");
                return Err(
                    Refusal { error: make_error(ApiErrorKind::TooManyRequests, m), record_failure: false },
                );
            }
        }
        let phrase: &str = match &p.challenge_phrase {
            Some(x) => x.as_str(),
            None => "",
        };
        proof {
            reveal_strlit("");
            assert(""@ =~= Seq::<char>::empty());
            assert(phrase@ == text_or_empty(p.challenge_phrase));
        }
        if !same_text(phrase, s.challenge_phrase.as_str()) {
            return Err(
                Refusal {
                    error: error_with(ApiErrorKind::BadRequest, "Invalid registration phrase"),
                    record_failure: s.throttle_enabled,
                },
            );
        }
    }
    if s.terms_of_service_checkbox {
        let accepted = match p.terms_of_service_accepted {
            Some(b) => b,
            None => false,
        };
        if !accepted {
            return Err(
                Refusal {
                    error: error_with(
                        ApiErrorKind::BadRequest,
                        "You must accept the terms of service to register",
                    ),
                    record_failure: false,
                },
            );
        }
    }
    if s.recaptcha_enabled {
        let token: &str = match &p.recaptcha_token {
            Some(x) => x.as_str(),
            None => "",
        };
        proof {
            reveal_strlit("");
            assert(""@ =~= Seq::<char>::empty());
            assert(token@ == text_or_empty(p.recaptcha_token));
        }
        if token.is_empty() {
            return Err(
                Refusal {
                    error: error_with(ApiErrorKind::BadRequest, "reCAPTCHA verification is required"),
                    record_failure: false,
                },
            );
        }
        return Ok(Some(String::from_str(token)));
    }
    Ok(None)
}

/// What the reCAPTCHA service's verdict means for a registration.
pub open spec fn recaptcha_spec(verdict: Result<bool, Seq<char>>, throttle_enabled: bool) -> Result<(), RefusalView> {
    match verdict {
        Ok(true) => Ok(()),
        Ok(false) => Err(
            refuse(
                ApiErrorKind::BadRequest,
                "reCAPTCHA verification failed. Please try again."@,
                throttle_enabled,
            ),
        ),
        Err(_) => Err(
            refuse(
                ApiErrorKind::InternalServerError,
                "reCAPTCHA verification service unavailable"@,
                false,
            ),
        ),
    }
}

/// What the reCAPTCHA verdict means: a rejected response is a bad request
/// (and counts against the throttle when it is on), an unreachable service
/// an internal error.
pub fn recaptcha_outcome(verdict: Result<bool, String>, s: &RegistrationSettings) -> (r: Result<(), Refusal>)
    ensures
        match r {
            Ok(()) => recaptcha_spec(
                match verdict {
                    Ok(b) => Ok(b),
                    Err(e) => Err(e@),
                },
                s.throttle_enabled,
            ) == Ok::<(), RefusalView>(()),
            Err(x) => recaptcha_spec(
                match verdict {
                    Ok(b) => Ok(b),
                    Err(e) => Err(e@),
                },
                s.throttle_enabled,
            ) == Err::<(), RefusalView>(x@),
        },
{
    match verdict {
        Ok(true) => Ok(()),
        Ok(false) => Err(
            Refusal {
                error: error_with(
                    ApiErrorKind::BadRequest,
                    "reCAPTCHA verification failed. Please try again.",
                ),
                record_failure: s.throttle_enabled,
            },
        ),
        Err(_) => Err(
            Refusal {
                error: error_with(
                    ApiErrorKind::InternalServerError,
                    "reCAPTCHA verification service unavailable",
                ),
                record_failure: false,
            },
        ),
    }
}

/// The checks of a registration's own fields, given whether the username
/// and the email are already taken.
pub open spec fn registration_fields_spec(p: RegisterRequest, min_len: usize, username_taken: bool, email_taken: bool) -> Result<(), ApiErrorView> {
    if p.username@.len() == 0 || p.email@.len() == 0 || p.password@.len() == 0 {
        Err(api_err(ApiErrorKind::BadRequest, "Username, email, and password are required"@))
    } else if byte_len(p.password@) < min_len {
        Err(api_err(ApiErrorKind::BadRequest, min_length_message(min_len)))
    } else if !p.email@.contains('@') {
        Err(api_err(ApiErrorKind::BadRequest, "Invalid email format"@))
    } else if username_taken {
        Err(api_err(ApiErrorKind::Conflict, "Username already exists"@))
    } else if email_taken {
        Err(api_err(ApiErrorKind::Conflict, "Email already exists"@))
    } else {
        Ok(())
    }
}

/// The view of a unit result.
pub open spec fn unit_view(r: Result<(), ApiError>) -> Result<(), ApiErrorView> {
    match r {
        Ok(()) => Ok(()),
        Err(e) => Err(e@),
    }
}

/// Check a registration's fields: all three present, the password at least
/// `min_len` bytes, an `@` in the email, and neither the username nor the
/// email taken.
pub fn validate_registration(p: &RegisterRequest, min_len: usize, username_taken: bool, email_taken: bool) -> (r: Result<(), ApiError>)
    ensures
        unit_view(r) == registration_fields_spec(*p, min_len, username_taken, email_taken),
{
    if p.username.as_str().is_empty() || p.email.as_str().is_empty() || p.password.as_str().is_empty() {
        return Err(error_with(ApiErrorKind::BadRequest, "Username, email, and password are required"));
    }
    if p.password.as_str().len() < min_len {
        return Err(make_error(ApiErrorKind::BadRequest, min_length_text(min_len)));
    }
    let email = chars_of(p.email.as_str());
    if !contains_char(email.as_slice(), '@') {
        return Err(error_with(ApiErrorKind::BadRequest, "Invalid email format"));
    }
    if username_taken {
        return Err(error_with(ApiErrorKind::Conflict, "Username already exists"));
    }
    if email_taken {
        return Err(error_with(ApiErrorKind::Conflict, "Email already exists"));
    }
    Ok(())
}

/// The role a new account is created with: administrator when the
/// deployment grants it to this address, otherwise newbie.
pub fn registration_role(should_be_admin: bool) -> (r: UserRole)
    ensures
        r == (if should_be_admin {
            UserRole::Admin
        } else {
            UserRole::Newbie
        }),
{
    if should_be_admin {
        UserRole::Admin
    } else {
        UserRole::Newbie
    }
}

/// The message a successful registration is answered with.
pub fn registration_message(should_be_admin: bool) -> (m: &'static str)
    ensures
        m@ == (if should_be_admin {
            "Admin user registered successfully"@
        } else {
            "User registered successfully"@
        }),
{
    if should_be_admin {
        "Admin user registered successfully"
    } else {
        "User registered successfully"
    }
}

// ---------------------------------------------------------------------------
// Password reset
// ---------------------------------------------------------------------------

/// Reset requests an address may make before it is locked out.
pub const RESET_THROTTLE_ATTEMPTS: u32 = 3;
/// How long, in seconds, a reset lock-out lasts.
pub const RESET_THROTTLE_SECONDS: u32 = 900;
/// The one thing a reset request is ever answered with.
pub const RESET_REQUESTED_MESSAGE: &'static str = "If an account exists for that address, a password reset link has been sent.";

/// Is account recovery available at all: wanted by the operator, and
/// possible because mail can be sent.
pub fn reset_available(password_reset_enabled: bool, email_enabled: bool) -> (r: bool)
    ensures
        r == (password_reset_enabled && email_enabled),
{
    password_reset_enabled && email_enabled
}

/// The refusal when recovery is not available.
pub open spec fn reset_unavailable() -> ApiErrorView {
    api_err(ApiErrorKind::Forbidden, "Password reset is not available on this instance"@)
}

/// The address a reset is for (trimmed, lower-cased) and the throttle key it
/// is counted under.
pub open spec fn reset_key_spec(email: Seq<char>) -> (Seq<char>, Seq<char>) {
    let address = unicode_lowercase(trim(email));
    (address, "password-reset:"@ + address)
}

/// Begin a reset request: refuse when recovery is unavailable, otherwise
/// the address and its throttle key.
pub fn reset_request_begin(available: bool, email: &str) -> (r: Result<(String, String), ApiError>)
    ensures
        !available ==> (r matches Err(e) && e@ == reset_unavailable()),
        available ==> (r matches Ok((a, k)) && (a@, k@) == reset_key_spec(email@)),
{
    if !available {
        return Err(error_with(ApiErrorKind::Forbidden, "Password reset is not available on this instance"));
    }
    let trimmed = trim_str(email);
    let address = to_lowercase(trimmed.as_str());
    let key = String::from_str("password-reset:").concat(address.as_str());
    Ok((address, key))
}

/// The refusal of a throttled-out address.
pub open spec fn reset_throttled(remaining: u64) -> ApiErrorView {
    api_err(
        ApiErrorKind::TooManyRequests,
        "Too many password reset requests. Try again in "@ + dec_digits(remaining as nat) + " seconds"@,
    )
}

/// What a reset request writes to the audit log before it answers.
#[derive(Debug)]
pub enum ResetAudit {
    /// A request was handled; `user` is the account, when one was found and
    /// mailed.
    Requested { user: Option<u128> },
    /// The mail to a found account could not be sent.
    SendFailed { user: u128, error: String },
}

/// The next thing a reset request does.
#[derive(Debug)]
pub enum ResetStep {
    /// Answer with this error.
    Refuse(ApiError),
    /// Record one attempt against this throttle key, then look the address
    /// up.
    RecordAttempt { key: String },
    /// Store a fresh token's digest for this account.
    StoreToken { user: u128, email: String },
    /// Mail the reset link to this account.
    Send { user: u128, email: String },
    /// Write this audit row, then answer with [`RESET_REQUESTED_MESSAGE`].
    Done(ResetAudit),
}

/// The answer a step gives the requester, when it is the last step:
/// `Some(Err(..))` for a refusal, `Some(Ok(message))` when done.
pub open spec fn reset_reply(step: ResetStep) -> Option<Result<Seq<char>, ApiErrorView>> {
    match step {
        ResetStep::Refuse(e) => Some(Err(e@)),
        ResetStep::Done(_) => Some(Ok(RESET_REQUESTED_MESSAGE@)),
        _ => None,
    }
}

/// Act on the throttle's answer for the request's key: refuse while the
/// address is locked out; otherwise record the attempt under that key,
/// before and whatever the lookup finds.
pub fn reset_throttle_verdict(locked: Option<u64>, key: String) -> (r: ResetStep)
    ensures
        match locked {
            Some(rem) => r matches ResetStep::Refuse(e) && e@ == reset_throttled(rem),
            None => r matches ResetStep::RecordAttempt { key: k } && k@ == key@,
        },
{
    match locked {
        Some(rem) => ResetStep::Refuse(
            make_error(
                ApiErrorKind::TooManyRequests,
                join_number("Too many password reset requests. Try again in ", rem, " seconds"),
            ),
        ),
        None => ResetStep::RecordAttempt { key },
    }
}

/// After the address was looked up: a failed lookup is refused as the
/// database error it is; a found account gets a token; an unknown address
/// is recorded, with no subject, and answered like a found one.
pub fn reset_after_lookup(found: Result<Option<User>, DatabaseError>) -> (r: ResetStep)
    ensures
        match found {
            Err(e) => r matches ResetStep::Refuse(x) && x@ == database_error_spec(e@),
            Ok(None) => r matches ResetStep::Done(ResetAudit::Requested { user: None }),
            Ok(Some(u)) => r matches ResetStep::StoreToken { user, email } && user == u.id && email@ == u.email@,
        },
{
    match found {
        Err(e) => ResetStep::Refuse(ApiError::from_database(e)),
        Ok(None) => ResetStep::Done(ResetAudit::Requested { user: None }),
        Ok(Some(u)) => ResetStep::StoreToken { user: u.id, email: u.email },
    }
}

/// After the token was stored: a failure to store it is refused; otherwise
/// the link is mailed.
pub fn reset_after_store(user: u128, email: String, stored: Result<(), DatabaseError>) -> (r: ResetStep)
    ensures
        match stored {
            Err(e) => r matches ResetStep::Refuse(x) && x@ == database_error_spec(e@),
            Ok(()) => r matches ResetStep::Send { user: u, email: m } && u == user && m@ == email@,
        },
{
    match stored {
        Err(e) => ResetStep::Refuse(ApiError::from_database(e)),
        Ok(()) => ResetStep::Send { user, email },
    }
}

/// After the mail was sent or not: the outcome goes to the audit log, for
/// the operator, and never into the answer.
pub fn reset_after_send(user: u128, sent: Result<(), String>) -> (r: ResetStep)
    ensures
        match sent {
            Ok(()) => r matches ResetStep::Done(ResetAudit::Requested { user: u }) && u == Some(user),
            Err(e) => r matches ResetStep::Done(ResetAudit::SendFailed { user: u, error }) && u == user
                && error@ == e@,
        },
{
    match sent {
        Ok(()) => ResetStep::Done(ResetAudit::Requested { user: Some(user) }),
        Err(e) => ResetStep::Done(ResetAudit::SendFailed { user, error: e }),
    }
}

/// A reset request is answered identically whether or not the address
/// belongs to an account, and whether or not the mail could be sent: an
/// unknown address, a delivered mail and a failed mail all get the same
/// message.
pub proof fn law_reset_answer_does_not_reveal_the_account(
    unknown: ResetStep,
    delivered: ResetStep,
    failed: ResetStep,
    user: u128,
    error: String,
)
    requires
        unknown matches ResetStep::Done(ResetAudit::Requested { user: None }),
        delivered matches ResetStep::Done(ResetAudit::Requested { user: u }) && u == Some(user),
        failed matches ResetStep::Done(ResetAudit::SendFailed { user: u, error: m }) && u == user && m == error,
    ensures
        reset_reply(unknown) == reset_reply(delivered),
        reset_reply(delivered) == reset_reply(failed),
        reset_reply(unknown) == Some(Ok::<Seq<char>, ApiErrorView>(RESET_REQUESTED_MESSAGE@)),
{
}

/// The link a reset mail carries.
pub open spec fn reset_link_spec(site_url: Seq<char>, token: Seq<char>) -> Seq<char> {
    strip_trailing(site_url, '/') + "/reset-password?token="@ + token
}

/// The link a reset mail carries: the site's URL without trailing slashes,
/// the reset page, and the token.
pub fn reset_link(site_url: &str, token: &str) -> (r: String)
    ensures
        r@ == reset_link_spec(site_url@, token@),
{
    let base = trim_end_char(site_url, '/');
    base.concat("/reset-password?token=").concat(token)
}

/// The body of a reset mail.
pub open spec fn reset_body_spec(site_name: Seq<char>, link: Seq<char>, ttl_minutes: u64) -> Seq<char> {
    "Somebody asked to reset the password for your "@ + site_name
        + " account.\n\n             To choose a new one, open this link:\n\n"@ + link
        + "\n\n             The link works once and expires in "@ + dec_digits(ttl_minutes as nat)
        + " minutes. If you did not ask \n             for this, you can ignore this message -- your password has not \n             changed.\n"@
}

/// The body of a reset mail, naming the site, carrying the link, and saying
/// how long it works.
pub fn reset_body(site_name: &str, link: &str, ttl_minutes: u64) -> (r: String)
    ensures
        r@ == reset_body_spec(site_name@, link@, ttl_minutes),
{
    let head = String::from_str("Somebody asked to reset the password for your ").concat(site_name).concat(
        " account.\n\n             To choose a new one, open this link:\n\n",
    ).concat(link);
    let tail = join_number(
        "\n\n             The link works once and expires in ",
        ttl_minutes,
        " minutes. If you did not ask \n             for this, you can ignore this message -- your password has not \n             changed.\n",
    );
    head.concat(tail.as_str())
}

/// The gates of consuming a reset token: recovery must be available, and
/// the new password at least `min_len` bytes (checked before any lookup).
pub open spec fn reset_consume_gate_spec(available: bool, new_password: Seq<char>, min_len: usize) -> Result<(), ApiErrorView> {
    if !available {
        Err(reset_unavailable())
    } else if byte_len(new_password) < min_len {
        Err(api_err(ApiErrorKind::ValidationError, min_length_message(min_len)))
    } else {
        Ok(())
    }
}

/// Check a reset's new password before the token is looked at.
pub fn reset_consume_gate(available: bool, new_password: &str, min_len: usize) -> (r: Result<(), ApiError>)
    ensures
        unit_view(r) == reset_consume_gate_spec(available, new_password@, min_len),
{
    if !available {
        return Err(error_with(ApiErrorKind::Forbidden, "Password reset is not available on this instance"));
    }
    if new_password.len() < min_len {
        return Err(make_error(ApiErrorKind::ValidationError, min_length_text(min_len)));
    }
    Ok(())
}

/// The one refusal of a token that is unknown, expired or already used.
pub open spec fn reset_link_invalid() -> ApiErrorView {
    api_err(
        ApiErrorKind::BadRequest,
        "This password reset link is invalid or has expired. Request a new one."@,
    )
}

/// The account a claimed token belongs to. A token that is unknown,
/// expired or used is one refusal, with no hint of which, and a 400 rather
/// than a 401: the token is a parameter of the request, not the caller's
/// credential.
pub fn reset_claimed_user(claimed: Result<Option<u128>, DatabaseError>) -> (r: Result<u128, ApiError>)
    ensures
        match claimed {
            Err(e) => r matches Err(x) && x@ == database_error_spec(e@),
            Ok(None) => r matches Err(x) && x@ == reset_link_invalid(),
            Ok(Some(id)) => r == Ok::<u128, ApiError>(id),
        },
{
    match claimed {
        Err(e) => Err(ApiError::from_database(e)),
        Ok(None) => Err(
            error_with(
                ApiErrorKind::BadRequest,
                "This password reset link is invalid or has expired. Request a new one.",
            ),
        ),
        Ok(Some(id)) => Ok(id),
    }
}

/// A refused reset token is answered with 400, never 401, so a signed-in
/// user pasting a stale link is not signed out.
pub proof fn law_stale_reset_token_is_not_unauthorized()
    ensures
        kind_status(reset_link_invalid().kind) == 400,
{
}

/// The answer once the new password is stored.
pub fn reset_consume_finish(updated: Result<(), DatabaseError>) -> (r: Result<&'static str, ApiError>)
    ensures
        match updated {
            Err(e) => r matches Err(x) && x@ == database_error_spec(e@),
            Ok(()) => r matches Ok(m) && m@ == "Your password has been changed. You can now sign in with it."@,
        },
{
    match updated {
        Err(e) => Err(ApiError::from_database(e)),
        Ok(()) => Ok("Your password has been changed. You can now sign in with it."),
    }
}

// ---------------------------------------------------------------------------
// Profile updates
// ---------------------------------------------------------------------------

/// A request to update an account. Absent fields are left as they are.
#[derive(Clone, Debug)]
pub struct UpdateUserRequest {
    pub username: Option<String>,
    pub email: Option<String>,
    pub full_name: Option<String>,
    pub password: Option<String>,
    pub current_password: Option<String>,
    pub is_active: Option<bool>,
    pub role: Option<String>,
}

/// The name of the administrator role.
pub const ADMIN_ROLE: &'static str = "admin";

/// The roles an account can be given: the tiers of the hierarchy.
pub open spec fn is_tier_spec(r: Seq<char>) -> bool {
    r == "newbie"@ || r == "member"@ || r == "staff"@ || r == "admin"@
}

/// Whether `r` names an assignable tier role.
pub fn is_tier(r: &str) -> (b: bool)
    ensures
        b == is_tier_spec(r@),
{
    let cs = chars_of(r);
    str_is(cs.as_slice(), "newbie") || str_is(cs.as_slice(), "member") || str_is(cs.as_slice(), "staff")
        || str_is(cs.as_slice(), "admin")
}

/// The text of an optional string.
pub open spec fn opt_text(s: Option<String>) -> Option<Seq<char>> {
    match s {
        Some(x) => Some(x@),
        None => None,
    }
}

/// Who may update whom, and what. `manages` is whether the caller holds
/// `users.manage`; `is_admin` whether it holds `admin.access` (consulted only
/// when the request grants the administrator role).
pub open spec fn update_access_spec(
    caller: u128,
    target: u128,
    manages: bool,
    is_admin: bool,
    p: UpdateUserRequest,
) -> Result<(), ApiErrorView> {
    if caller != target && !manages {
        Err(api_err(ApiErrorKind::Forbidden, "You can only update your own profile"@))
    } else if !manages && (p.is_active is Some || p.role is Some) {
        Err(api_err(ApiErrorKind::Forbidden, "You cannot modify account status or role"@))
    } else {
        match opt_text(p.role) {
            Some(r) => if !is_tier_spec(r) {
                Err(api_err(ApiErrorKind::BadRequest, "unknown role: "@ + r))
            } else if r == "admin"@ && !is_admin {
                Err(api_err(ApiErrorKind::Forbidden, "Only admins can assign admin role"@))
            } else {
                Ok(())
            },
            None => Ok(()),
        }
    }
}

/// Whether the admin permission has to be consulted: only when the request
/// grants the administrator role.
pub fn grants_admin(p: &UpdateUserRequest) -> (r: bool)
    ensures
        r == (opt_text(p.role) == Some(ADMIN_ROLE@)),
{
    match &p.role {
        Some(r) => same_text(r.as_str(), ADMIN_ROLE),
        None => false,
    }
}

/// The first gate of an update: users update only themselves unless they
/// manage users; only managers change account status or role; a role must
/// be a tier; only administrators grant the administrator role.
pub fn update_user_access(caller: u128, target: u128, manages: bool, is_admin: bool, p: &UpdateUserRequest) -> (r: Result<(), ApiError>)
    ensures
        unit_view(r) == update_access_spec(caller, target, manages, is_admin, *p),
{
    if caller != target && !manages {
        return Err(error_with(ApiErrorKind::Forbidden, "You can only update your own profile"));
    }
    if !manages && (p.is_active.is_some() || p.role.is_some()) {
        return Err(error_with(ApiErrorKind::Forbidden, "You cannot modify account status or role"));
    }
    if let Some(r) = &p.role {
        if !is_tier(r.as_str()) {
            return Err(error_joined(ApiErrorKind::BadRequest, "unknown role: ", r.as_str()));
        }
        proof {
            reveal_strlit("admin");
        }
        if same_text(r.as_str(), "admin") && !is_admin {
            return Err(error_with(ApiErrorKind::Forbidden, "Only admins can assign admin role"));
        }
    }
    Ok(())
}

/// A manager acts only on accounts strictly below their own effective
/// level; editing one's own account is exempt.
pub open spec fn level_gate_spec(caller: u128, target: u128, caller_level: i64, target_level: i64) -> Result<(), ApiErrorView> {
    if caller != target && target_level >= caller_level {
        Err(
            api_err(
                ApiErrorKind::Forbidden,
                "You cannot modify a user at or above your own access level"@,
            ),
        )
    } else {
        Ok(())
    }
}

/// The account being updated, or why it cannot be: a failed lookup is the
/// database error, a missing account is not found.
pub fn update_target(existing: Result<Option<User>, DatabaseError>) -> (r: Result<User, ApiError>)
    ensures
        match existing {
            Err(e) => r matches Err(x) && x@ == database_error_spec(e@),
            Ok(None) => r matches Err(x) && x@ == api_err(ApiErrorKind::NotFound, "User not found"@),
            Ok(Some(u)) => r matches Ok(v) && v == u,
        },
{
    match existing {
        Err(e) => Err(ApiError::from_database(e)),
        Ok(None) => Err(error_with(ApiErrorKind::NotFound, "User not found")),
        Ok(Some(u)) => Ok(u),
    }
}

/// The level gate of an update.
pub fn update_user_level_gate(caller: u128, target: u128, caller_level: i64, target_level: i64) -> (r: Result<(), ApiError>)
    ensures
        unit_view(r) == level_gate_spec(caller, target, caller_level, target_level),
{
    if caller != target && target_level >= caller_level {
        return Err(
            error_with(
                ApiErrorKind::Forbidden,
                "You cannot modify a user at or above your own access level",
            ),
        );
    }
    Ok(())
}

/// Whether the request changes the account's email.
pub open spec fn email_changing(p: UpdateUserRequest, existing: User) -> bool {
    opt_text(p.email) matches Some(e) && e != existing.email@
}

/// The checks an update makes before hashing a new password: a
/// self-service change of a credential (password or email) must present the
/// current password, and a new password must be at least `min_len` bytes.
pub open spec fn update_credentials_spec(
    caller: u128,
    target: u128,
    p: UpdateUserRequest,
    existing: User,
    min_len: usize,
) -> Result<(), ApiErrorView> {
    if caller == target && (p.password is Some || email_changing(p, existing)) && !(opt_text(
        p.current_password,
    ) matches Some(c) && password_ok(c, existing.password_hash@)) {
        Err(api_err(ApiErrorKind::BadRequest, "Current password is incorrect"@))
    } else if opt_text(p.password) matches Some(pw) && byte_len(pw) < min_len {
        Err(api_err(ApiErrorKind::BadRequest, min_length_message(min_len)))
    } else {
        Ok(())
    }
}

/// The checks an update makes after hashing: a changed email must contain
/// `@` and be free; a changed username must be non-empty and free.
pub open spec fn update_identity_spec(
    p: UpdateUserRequest,
    existing: User,
    email_taken: bool,
    username_taken: bool,
) -> Result<(), ApiErrorView> {
    if email_changing(p, existing) && !opt_text(p.email)->0.contains('@') {
        Err(api_err(ApiErrorKind::BadRequest, "Invalid email format"@))
    } else if email_changing(p, existing) && email_taken {
        Err(api_err(ApiErrorKind::Conflict, "Email already exists"@))
    } else if opt_text(p.username) matches Some(u) && u != existing.username@ && u.len() == 0 {
        Err(api_err(ApiErrorKind::BadRequest, "Username cannot be empty"@))
    } else if opt_text(p.username) matches Some(u) && u != existing.username@ && username_taken {
        Err(api_err(ApiErrorKind::Conflict, "Username already exists"@))
    } else {
        Ok(())
    }
}

/// What an accepted update writes.
#[derive(Debug)]
pub struct UserUpdatePlan {
    pub username: Option<String>,
    pub email: Option<String>,
    pub full_name: Option<String>,
    /// The hash of the new password, when one was given.
    pub password_hash: Option<String>,
    pub is_active: Option<bool>,
    /// The tier role to apply after the row is written.
    pub role: Option<String>,
    /// Whether the email changes: its verification is then cleared and a
    /// confirmation sent to the new address.
    pub email_changing: bool,
}

/// Whether a plan writes exactly what the request asked for.
pub open spec fn plan_matches(plan: UserUpdatePlan, p: UpdateUserRequest, existing: User) -> bool {
    &&& opt_text(plan.username) == opt_text(p.username)
    &&& opt_text(plan.email) == opt_text(p.email)
    &&& opt_text(plan.full_name) == opt_text(p.full_name)
    &&& plan.is_active == p.is_active
    &&& opt_text(plan.role) == opt_text(p.role)
    &&& plan.email_changing == email_changing(p, existing)
    &&& (plan.password_hash is Some <==> p.password is Some)
    &&& (plan.password_hash matches Some(h) ==> p.password matches Some(pw) && argon2_hash_parses(h@)
        && argon2_password_matches(pw@, h@))
}

/// The checks and writes of an update once access and level are settled,
/// `email_taken` / `username_taken` being whether another account already
/// has the requested email / username. A new password is hashed (its salt
/// is random, so only what holds of every hash is stated); hashing fails
/// only for a password Argon2 does not take, and the update then stops
/// there.
pub fn plan_user_update(
    caller: u128,
    target: u128,
    p: UpdateUserRequest,
    existing: &User,
    min_len: usize,
    email_taken: bool,
    username_taken: bool,
) -> (r: Result<UserUpdatePlan, ApiError>)
    ensures
        update_credentials_spec(caller, target, p, *existing, min_len) matches Err(e) ==> (r matches Err(x)
            && x@ == e),
        update_credentials_spec(caller, target, p, *existing, min_len) is Ok ==> match r {
            Ok(plan) => update_identity_spec(p, *existing, email_taken, username_taken) is Ok
                && plan_matches(plan, p, *existing),
            Err(x) => (p.password matches Some(pw) && !password_hashable(pw@) && x@ == api_err(
                ApiErrorKind::InternalServerError,
                "Failed to hash password"@,
            )) || update_identity_spec(p, *existing, email_taken, username_taken) == Err::<
                (),
                ApiErrorView,
            >(x@),
        },
        p.password is None ==> match r {
            Ok(_) => update_credentials_spec(caller, target, p, *existing, min_len) is Ok
                && update_identity_spec(p, *existing, email_taken, username_taken) is Ok,
            Err(x) => update_credentials_spec(caller, target, p, *existing, min_len) == Err::<
                (),
                ApiErrorView,
            >(x@) || (update_credentials_spec(caller, target, p, *existing, min_len) is Ok
                && update_identity_spec(p, *existing, email_taken, username_taken) == Err::<
                (),
                ApiErrorView,
            >(x@)),
        },
{
    let changing = match &p.email {
        Some(e) => !same_text(e.as_str(), existing.email.as_str()),
        None => false,
    };
    if caller == target && (p.password.is_some() || changing) {
        let current_ok = match &p.current_password {
            Some(c) => check_password(c.as_str(), existing.password_hash.as_str()),
            None => false,
        };
        if !current_ok {
            return Err(error_with(ApiErrorKind::BadRequest, "Current password is incorrect"));
        }
    }
    let mut password_hash: Option<String> = None;
    if let Some(pw) = &p.password {
        if pw.as_str().len() < min_len {
            return Err(make_error(ApiErrorKind::BadRequest, min_length_text(min_len)));
        }
        let h = hash_for_storage(pw.as_str())?;
        password_hash = Some(h);
    }
    if changing {
        let e = p.email.as_ref().unwrap();
        let cs = chars_of(e.as_str());
        if !contains_char(cs.as_slice(), '@') {
            return Err(error_with(ApiErrorKind::BadRequest, "Invalid email format"));
        }
        if email_taken {
            return Err(error_with(ApiErrorKind::Conflict, "Email already exists"));
        }
    }
    if let Some(u) = &p.username {
        if !same_text(u.as_str(), existing.username.as_str()) {
            if u.as_str().is_empty() {
                return Err(error_with(ApiErrorKind::BadRequest, "Username cannot be empty"));
            }
            if username_taken {
                return Err(error_with(ApiErrorKind::Conflict, "Username already exists"));
            }
        }
    }
    Ok(
        UserUpdatePlan {
            username: p.username,
            email: p.email,
            full_name: p.full_name,
            password_hash,
            is_active: p.is_active,
            role: p.role,
            email_changing: changing,
        },
    )
}

/// Whoever is not a manager of users never changes an account's status or
/// role, and never anyone else's account.
pub proof fn law_non_managers_touch_only_their_own_profile(
    caller: u128,
    target: u128,
    is_admin: bool,
    p: UpdateUserRequest,
)
    requires
        update_access_spec(caller, target, false, is_admin, p) is Ok,
    ensures
        caller == target,
        p.is_active is None,
        p.role is None,
{
}

/// A manager never acts on an account at or above their own level, and
/// nobody but an administrator grants the administrator role.
pub proof fn law_managers_act_only_below_themselves(
    caller: u128,
    target: u128,
    manages: bool,
    is_admin: bool,
    p: UpdateUserRequest,
    caller_level: i64,
    target_level: i64,
)
    requires
        update_access_spec(caller, target, manages, is_admin, p) is Ok,
        level_gate_spec(caller, target, caller_level, target_level) is Ok,
    ensures
        caller != target ==> target_level < caller_level,
        opt_text(p.role) == Some("admin"@) ==> is_admin,
{
}

/// A self-service change of the password or the email always presents the
/// current password, and it must verify.
pub proof fn law_self_service_credential_change_needs_current_password(
    user: u128,
    p: UpdateUserRequest,
    existing: User,
    min_len: usize,
)
    requires
        p.password is Some || email_changing(p, existing),
        update_credentials_spec(user, user, p, existing, min_len) is Ok,
    ensures
        opt_text(p.current_password) matches Some(c) && password_ok(c, existing.password_hash@),
{
}

/// The checks of a self-service password change: the current password
/// must verify, and the new one be at least `min_len` bytes.
pub open spec fn change_password_spec(current: Seq<char>, new_password: Seq<char>, stored_hash: Seq<char>, min_len: usize) -> Result<(), ApiErrorView> {
    if !password_ok(current, stored_hash) {
        Err(api_err(ApiErrorKind::BadRequest, "Current password is incorrect"@))
    } else if byte_len(new_password) < min_len {
        Err(api_err(ApiErrorKind::BadRequest, min_length_message(min_len)))
    } else {
        Ok(())
    }
}

/// A self-service password change: check the current password and the new
/// one's length, then hash the new one (a hashing failure is ours).
pub fn change_own_password(current: &str, new_password: &str, stored_hash: &str, min_len: usize) -> (r: Result<String, ApiError>)
    ensures
        change_password_spec(current@, new_password@, stored_hash@, min_len) matches Err(e) ==> (r matches Err(
            x,
        ) && x@ == e),
        change_password_spec(current@, new_password@, stored_hash@, min_len) is Ok ==> match r {
            Ok(h) => argon2_hash_parses(h@) && argon2_password_matches(new_password@, h@),
            Err(x) => !password_hashable(new_password@) && x@ == api_err(
                ApiErrorKind::InternalServerError,
                "Failed to hash password"@,
            ),
        },
{
    if !check_password(current, stored_hash) {
        return Err(error_with(ApiErrorKind::BadRequest, "Current password is incorrect"));
    }
    if new_password.len() < min_len {
        return Err(make_error(ApiErrorKind::BadRequest, min_length_text(min_len)));
    }
    hash_for_storage(new_password)
}

// ---------------------------------------------------------------------------
// Other account operations
// ---------------------------------------------------------------------------

/// A self-service password change request.
#[derive(Clone, Debug)]
pub struct ChangePasswordRequest {
    pub current_password: String,
    pub new_password: String,
}

/// A theme preference change.
#[derive(Clone, Debug)]
pub struct UpdateThemeRequest {
    pub theme: String,
}

/// A user may view their own account; viewing another needs `users.manage`.
pub fn view_user_gate(caller: u128, target: u128, manages: bool) -> (r: Result<(), ApiError>)
    ensures
        caller != target && !manages ==> (r matches Err(e) && e@ == api_err(
            ApiErrorKind::Forbidden,
            "You can only view your own profile"@,
        )),
        caller == target || manages ==> r is Ok,
{
    if caller != target && !manages {
        return Err(error_with(ApiErrorKind::Forbidden, "You can only view your own profile"));
    }
    Ok(())
}

/// The page size and offset of a user listing: pages count from 1 (default
/// 1), at most 100 users a page (default 20).
pub open spec fn pagination_spec(page: Option<u32>, per_page: Option<u32>) -> Result<(i64, i64), ApiErrorView> {
    let p = match page {
        Some(x) => x,
        None => 1,
    };
    let n = match per_page {
        Some(x) => x,
        None => 20,
    };
    if p == 0 || n == 0 || n > 100 {
        Err(api_err(ApiErrorKind::BadRequest, "Invalid pagination parameters"@))
    } else {
        Ok((n as i64, ((p - 1) * n) as i64))
    }
}

/// The limit and offset of a page of the user listing.
pub fn pagination(page: Option<u32>, per_page: Option<u32>) -> (r: Result<(i64, i64), ApiError>)
    ensures
        match r {
            Ok(x) => pagination_spec(page, per_page) == Ok::<(i64, i64), ApiErrorView>(x),
            Err(e) => pagination_spec(page, per_page) == Err::<(i64, i64), ApiErrorView>(e@),
        },
{
    let p: u32 = match page {
        Some(x) => x,
        None => 1,
    };
    let n: u32 = match per_page {
        Some(x) => x,
        None => 20,
    };
    if p == 0 || n == 0 || n > 100 {
        return Err(error_with(ApiErrorKind::BadRequest, "Invalid pagination parameters"));
    }
    assert((p - 1) * n <= 4294967295u64 * 100) by (nonlinear_arith)
        requires
            p <= 4294967295u64,
            n <= 100,
            p >= 1,
    ;
    let offset: u64 = (p as u64 - 1) * (n as u64);
    Ok((n as i64, offset as i64))
}

/// An administrator never deletes their own account.
pub fn deletion_gate(admin: u128, target: u128) -> (r: Result<(), ApiError>)
    ensures
        admin == target ==> (r matches Err(e) && e@ == api_err(
            ApiErrorKind::BadRequest,
            "You cannot delete your own account"@,
        )),
        admin != target ==> r is Ok,
{
    if admin == target {
        return Err(error_with(ApiErrorKind::BadRequest, "You cannot delete your own account"));
    }
    Ok(())
}

/// A deletion happens only once it is recorded: when the audit row cannot
/// be written, the deletion is refused.
pub fn deletion_recorded(audit: Result<(), String>) -> (r: Result<(), ApiError>)
    ensures
        audit is Ok ==> r is Ok,
        audit is Err ==> (r matches Err(e) && e@ == api_err(
            ApiErrorKind::InternalServerError,
            "Could not record this deletion; the user was not deleted"@,
        )),
{
    match audit {
        Ok(()) => Ok(()),
        Err(_) => Err(
            error_with(
                ApiErrorKind::InternalServerError,
                "Could not record this deletion; the user was not deleted",
            ),
        ),
    }
}

/// The themes a user may choose.
pub open spec fn valid_themes() -> Seq<Seq<char>> {
    seq![
        "system"@,
        "css-light"@,
        "css-dark"@,
        "afterdark"@,
        "her"@,
        "forest"@,
        "sky"@,
        "clays"@,
        "stones"@,
        "lofi"@,
        "black"@,
        "light"@,
        "dark"@,
        "cupcake"@,
        "corporate"@,
    ]
}

/// The themes, joined with ", ".
pub open spec fn themes_listed() -> Seq<char> {
    "system, css-light, css-dark, afterdark, her, forest, sky, clays, stones, lofi, black, light, dark, cupcake, corporate"@
}

/// The names of the themes.
fn theme_names() -> (v: Vec<&'static str>)
    ensures
        v@.map_values(|t: &'static str| t@) == valid_themes(),
{
    let v = vec![
        "system",
        "css-light",
        "css-dark",
        "afterdark",
        "her",
        "forest",
        "sky",
        "clays",
        "stones",
        "lofi",
        "black",
        "light",
        "dark",
        "cupcake",
        "corporate",
    ];
    assert(v@.map_values(|t: &'static str| t@) =~= valid_themes());
    v
}

/// Who may set a theme, and which themes exist: users set their own unless
/// they hold `admin.access`, and the theme must be one of the known ones.
pub open spec fn theme_gate_spec(caller: u128, target: u128, is_admin: bool, theme: Seq<char>) -> Result<(), ApiErrorView> {
    if caller != target && !is_admin {
        Err(api_err(ApiErrorKind::Forbidden, "You can only update your own theme"@))
    } else if !valid_themes().contains(theme) {
        Err(
            api_err(
                ApiErrorKind::BadRequest,
                "Invalid theme: "@ + theme + ". Must be one of: "@ + themes_listed(),
            ),
        )
    } else {
        Ok(())
    }
}

/// Check a theme change.
pub fn theme_gate(caller: u128, target: u128, is_admin: bool, theme: &str) -> (r: Result<(), ApiError>)
    ensures
        unit_view(r) == theme_gate_spec(caller, target, is_admin, theme@),
{
    if caller != target && !is_admin {
        return Err(error_with(ApiErrorKind::Forbidden, "You can only update your own theme"));
    }
    let names = theme_names();
    let ghost views = names@.map_values(|t: &'static str| t@);
    let mut i: usize = 0;
    while i < names.len()
        invariant
            i <= names@.len(),
            views == names@.map_values(|t: &'static str| t@),
            views == valid_themes(),
            caller == target || is_admin,
            forall|k: int| 0 <= k < i ==> views[k] != theme@,
        decreases names@.len() - i,
    {
        if same_text(names[i], theme) {
            assert(views[i as int] == theme@);
            assert(valid_themes().contains(theme@));
            return Ok(());
        }
        i = i + 1;
    }
    proof {
        assert(!valid_themes().contains(theme@)) by {
            if valid_themes().contains(theme@) {
                let k = choose|k: int| 0 <= k < valid_themes().len() && valid_themes()[k] == theme@;
                assert(views[k] != theme@);
            }
        }
    }
    let m = String::from_str("Invalid theme: ").concat(theme).concat(". Must be one of: ").concat(
        "system, css-light, css-dark, afterdark, her, forest, sky, clays, stones, lofi, black, light, dark, cupcake, corporate",
    );
    Err(make_error(ApiErrorKind::BadRequest, m))
}

/// An administrator's change of a user's role.
#[derive(Clone, Debug)]
pub struct UpdateUserRoleRequest {
    pub role: String,
}

/// The account whose role an administrator changes: it must exist, and the
/// role must be a tier.
pub fn role_change_target(found: Result<Option<User>, DatabaseError>, req: &UpdateUserRoleRequest) -> (r: Result<User, ApiError>)
    ensures
        match found {
            Err(e) => r matches Err(x) && x@ == database_error_spec(e@),
            Ok(None) => r matches Err(x) && x@ == api_err(ApiErrorKind::NotFound, "User not found"@),
            Ok(Some(u)) => if is_tier_spec(req.role@) {
                r matches Ok(v) && v == u
            } else {
                r matches Err(x) && x@ == api_err(ApiErrorKind::BadRequest, "unknown role: "@ + req.role@)
            },
        },
{
    let target = match found {
        Err(e) => {
            return Err(ApiError::from_database(e));
        },
        Ok(None) => {
            return Err(error_with(ApiErrorKind::NotFound, "User not found"));
        },
        Ok(Some(u)) => u,
    };
    if !is_tier(req.role.as_str()) {
        return Err(error_joined(ApiErrorKind::BadRequest, "unknown role: ", req.role.as_str()));
    }
    Ok(target)
}

/// A page of the audit log.
#[derive(Clone, Debug)]
pub struct AuditLogQuery {
    pub page: Option<u32>,
    pub per_page: Option<u32>,
    pub event_type: Option<String>,
}

/// The page of the audit log asked for: page `page` (default 1) of at most
/// 100 rows (default 50).
pub open spec fn audit_page(q: AuditLogQuery) -> (int, int) {
    let page = match q.page {
        Some(p) => p as int,
        None => 1,
    };
    let n = match q.per_page {
        Some(x) => if x < 100 {
            x as int
        } else {
            100
        },
        None => 50,
    };
    (n, (page - 1) * n)
}

impl AuditLogQuery {
    /// The limit and offset of the page. Page numbers count from 1, and the
    /// offset must fit a `u32`.
    pub fn window(&self) -> (r: (i64, i64))
        requires
            self.page != Some(0u32),
            audit_page(*self).1 <= u32::MAX,
        ensures
            r.0 == audit_page(*self).0,
            r.1 == audit_page(*self).1,
    {
        let page: u32 = match self.page {
            Some(p) => p,
            None => 1,
        };
        let n: u32 = match self.per_page {
            Some(x) => if x < 100 {
                x
            } else {
                100
            },
            None => 50,
        };
        assert((page - 1) * n <= 4294967295u64 * 100) by (nonlinear_arith)
            requires
                page >= 1,
                page <= 4294967295u64,
                n <= 100,
        ;
        let offset: u64 = (page as u64 - 1) * (n as u64);
        (n as i64, offset as i64)
    }
}

} // verus!
