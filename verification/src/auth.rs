//! Authentication: the errors it can fail with and how each is answered,
//! password hashing, the login and token-to-user rules, and the role gates.
//!
//! An authentication failure reaches a response by two routes: its own
//! response (when an extractor rejects the request) and the conversion into
//! [`ApiError`] (when a handler propagates it). The two agree on the status of
//! every variant; see [`law_auth_paths_agree`].

use vstd::prelude::*;
use vstd::string::*;
use crate::errors::{
    api_err, error_with, ApiError, ApiErrorKind, ApiErrorView, DatabaseError,
    kind_status,
};
use crate::models::{uuid_hyphenated, uuid_text, User, UserRole, role_rank};
use crate::stripe_events::{parse_uuid, uuid_parse};
use crate::text::{chars_eq, chars_of, str_is};
use vstd::utf8::encode_utf8;

verus! {

/// Why authentication or authorization failed.
#[derive(Debug)]
pub enum AuthError {
    WrongCredentials,
    MissingCredentials,
    TokenCreation,
    InvalidToken,
    /// The caller authenticated and is not allowed to do this. The carried
    /// string is the role requirement, which is rendered to the caller.
    Forbidden(&'static str),
    UserNotFound,
    UserInactive,
    InvalidPassword(String),
    InternalError,
}

/// The variants of [`AuthError`], with the role requirement of `Forbidden`.
pub enum AuthErrorView {
    WrongCredentials,
    MissingCredentials,
    TokenCreation,
    InvalidToken,
    Forbidden(Seq<char>),
    UserNotFound,
    UserInactive,
    InvalidPassword(Seq<char>),
    InternalError,
}

impl View for AuthError {
    type V = AuthErrorView;

    open spec fn view(&self) -> AuthErrorView {
        match self {
            AuthError::WrongCredentials => AuthErrorView::WrongCredentials,
            AuthError::MissingCredentials => AuthErrorView::MissingCredentials,
            AuthError::TokenCreation => AuthErrorView::TokenCreation,
            AuthError::InvalidToken => AuthErrorView::InvalidToken,
            AuthError::Forbidden(w) => AuthErrorView::Forbidden(w@),
            AuthError::UserNotFound => AuthErrorView::UserNotFound,
            AuthError::UserInactive => AuthErrorView::UserInactive,
            AuthError::InvalidPassword(m) => AuthErrorView::InvalidPassword(m@),
            AuthError::InternalError => AuthErrorView::InternalError,
        }
    }
}

/// The status an authentication failure's own response carries.
pub open spec fn auth_status(e: AuthErrorView) -> u16 {
    match e {
        AuthErrorView::WrongCredentials => 401,
        AuthErrorView::MissingCredentials => 401,
        AuthErrorView::TokenCreation => 500,
        AuthErrorView::InvalidToken => 401,
        AuthErrorView::Forbidden(_) => 403,
        AuthErrorView::UserNotFound => 404,
        AuthErrorView::UserInactive => 403,
        AuthErrorView::InvalidPassword(_) => 400,
        AuthErrorView::InternalError => 500,
    }
}

/// The `error` message of an authentication failure's own response.
pub open spec fn auth_response_message(e: AuthErrorView) -> Seq<char> {
    match e {
        AuthErrorView::WrongCredentials => "Wrong credentials"@,
        AuthErrorView::MissingCredentials => "Missing credentials"@,
        AuthErrorView::TokenCreation => "Failed to create token"@,
        AuthErrorView::InvalidToken => "Invalid token"@,
        AuthErrorView::Forbidden(_) => "Insufficient permissions"@,
        AuthErrorView::UserNotFound => "User not found"@,
        AuthErrorView::UserInactive => "User account is inactive"@,
        AuthErrorView::InvalidPassword(_) => "Invalid password"@,
        AuthErrorView::InternalError => "Internal server error"@,
    }
}

/// The API error an authentication failure converts to.
pub open spec fn auth_to_api(e: AuthErrorView) -> ApiErrorView {
    match e {
        AuthErrorView::WrongCredentials => api_err(ApiErrorKind::Unauthorized, "Invalid credentials"@),
        AuthErrorView::MissingCredentials => api_err(
            ApiErrorKind::Unauthorized,
            "Missing authentication credentials"@,
        ),
        AuthErrorView::TokenCreation => api_err(
            ApiErrorKind::InternalServerError,
            "Failed to create authentication token"@,
        ),
        AuthErrorView::InvalidToken => api_err(
            ApiErrorKind::Unauthorized,
            "Invalid authentication token"@,
        ),
        AuthErrorView::Forbidden(what) => api_err(
            ApiErrorKind::Forbidden,
            "Insufficient permissions: "@ + what + " required"@,
        ),
        AuthErrorView::UserNotFound => api_err(ApiErrorKind::NotFound, "User not found"@),
        AuthErrorView::UserInactive => api_err(ApiErrorKind::Forbidden, "User account is inactive"@),
        AuthErrorView::InvalidPassword(_) => api_err(
            ApiErrorKind::BadRequest,
            "Invalid password format"@,
        ),
        AuthErrorView::InternalError => api_err(
            ApiErrorKind::InternalServerError,
            "Authentication service error"@,
        ),
    }
}

impl AuthError {
    /// The status of this failure's own response.
    pub fn status(&self) -> (s: u16)
        ensures
            s == auth_status(self@),
    {
        match self {
            AuthError::WrongCredentials => 401,
            AuthError::MissingCredentials => 401,
            AuthError::TokenCreation => 500,
            AuthError::InvalidToken => 401,
            AuthError::Forbidden(_) => 403,
            AuthError::UserNotFound => 404,
            AuthError::UserInactive => 403,
            AuthError::InvalidPassword(_) => 400,
            AuthError::InternalError => 500,
        }
    }

    /// The `error` message of this failure's own response.
    pub fn response_message(&self) -> (m: &'static str)
        ensures
            m@ == auth_response_message(self@),
    {
        match self {
            AuthError::WrongCredentials => "Wrong credentials",
            AuthError::MissingCredentials => "Missing credentials",
            AuthError::TokenCreation => "Failed to create token",
            AuthError::InvalidToken => "Invalid token",
            AuthError::Forbidden(_) => "Insufficient permissions",
            AuthError::UserNotFound => "User not found",
            AuthError::UserInactive => "User account is inactive",
            AuthError::InvalidPassword(_) => "Invalid password",
            AuthError::InternalError => "Internal server error",
        }
    }

    /// The human-readable description (`Display`).
    pub fn describe(&self) -> (d: String)
        ensures
            d@ == auth_description(self@),
    {
        match self {
            AuthError::WrongCredentials => String::from_str("Wrong credentials"),
            AuthError::MissingCredentials => String::from_str("Missing credentials"),
            AuthError::TokenCreation => String::from_str("Failed to create token"),
            AuthError::InvalidToken => String::from_str("Invalid token"),
            AuthError::Forbidden(what) => String::from_str("Forbidden: ").concat(what).concat(
                " required",
            ),
            AuthError::UserNotFound => String::from_str("User not found"),
            AuthError::UserInactive => String::from_str("User account is inactive"),
            AuthError::InvalidPassword(msg) => String::from_str("Invalid password: ").concat(
                msg.as_str(),
            ),
            AuthError::InternalError => String::from_str("Internal server error"),
        }
    }
}

/// The `Display` text of an authentication failure.
pub open spec fn auth_description(e: AuthErrorView) -> Seq<char> {
    match e {
        AuthErrorView::WrongCredentials => "Wrong credentials"@,
        AuthErrorView::MissingCredentials => "Missing credentials"@,
        AuthErrorView::TokenCreation => "Failed to create token"@,
        AuthErrorView::InvalidToken => "Invalid token"@,
        AuthErrorView::Forbidden(what) => "Forbidden: "@ + what + " required"@,
        AuthErrorView::UserNotFound => "User not found"@,
        AuthErrorView::UserInactive => "User account is inactive"@,
        AuthErrorView::InvalidPassword(msg) => "Invalid password: "@ + msg,
        AuthErrorView::InternalError => "Internal server error"@,
    }
}

impl ApiError {
    /// `From<AuthError>`.
    pub fn from_auth(e: AuthError) -> (r: ApiError)
        ensures
            r@ == auth_to_api(e@),
    {
        match e {
            AuthError::WrongCredentials => error_with(ApiErrorKind::Unauthorized, "Invalid credentials"),
            AuthError::MissingCredentials => error_with(
                ApiErrorKind::Unauthorized,
                "Missing authentication credentials",
            ),
            AuthError::TokenCreation => error_with(
                ApiErrorKind::InternalServerError,
                "Failed to create authentication token",
            ),
            AuthError::InvalidToken => error_with(
                ApiErrorKind::Unauthorized,
                "Invalid authentication token",
            ),
            AuthError::Forbidden(what) => {
                let s = String::from_str("Insufficient permissions: ").concat(what).concat(
                    " required",
                );
                crate::errors::make_error(ApiErrorKind::Forbidden, s)
            },
            AuthError::UserNotFound => error_with(ApiErrorKind::NotFound, "User not found"),
            AuthError::UserInactive => error_with(ApiErrorKind::Forbidden, "User account is inactive"),
            AuthError::InvalidPassword(_) => error_with(
                ApiErrorKind::BadRequest,
                "Invalid password format",
            ),
            AuthError::InternalError => error_with(
                ApiErrorKind::InternalServerError,
                "Authentication service error",
            ),
        }
    }
}

/// The two conversion paths of an authentication failure agree: the status
/// its own response carries is the status of the API error it converts to.
/// In particular an insufficient role is a 403 and never a 401.
pub proof fn law_auth_paths_agree(e: AuthErrorView)
    ensures
        kind_status(auth_to_api(e).kind) == auth_status(e),
        (e is Forbidden) ==> auth_status(e) == 403,
{
}

// ---------------------------------------------------------------------------
// Password hashing
// ---------------------------------------------------------------------------

/// Whether `hash` is a PHC string that `argon2::PasswordHash::new` accepts.
pub uninterp spec fn argon2_hash_parses(hash: Seq<char>) -> bool;

/// Whether Argon2 (default parameters) verifies `password` against the PHC
/// string `hash`.
pub uninterp spec fn argon2_password_matches(password: Seq<char>, hash: Seq<char>) -> bool;

/// Whether Argon2 takes `password`: its UTF-8 bytes are at most
/// `argon2::MAX_PWD_LEN` (`0xFFFF_FFFF`).
pub open spec fn password_hashable(password: Seq<char>) -> bool {
    encode_utf8(password).len() <= 0xFFFF_FFFF
}

/// Password hashing with Argon2.
pub struct PasswordHashUtil;

impl PasswordHashUtil {
    /// `Argon2::default().hash_password` with a fresh random salt from
    /// `OsRng`, rendered as a PHC string.
    ///
    /// Trusted: it succeeds for every password Argon2 takes (the only
    /// failure with a generated 16-byte salt and the default parameters is
    /// a password longer than `MAX_PWD_LEN` bytes); on success the string
    /// parses as a PHC hash and Argon2 verifies `password` against it; on
    /// failure the error is `InvalidPassword` carrying the hasher's
    /// message. Nothing is stated of which hash comes back: the salt is
    /// random.
    #[verifier::external_body]
    pub fn hash(password: &str) -> (r: Result<String, AuthError>)
        ensures
            password_hashable(password@) ==> r is Ok,
            r matches Ok(h) ==> argon2_hash_parses(h@) && argon2_password_matches(password@, h@),
            r matches Err(e) ==> e is InvalidPassword,
    {
        let salt = argon2::password_hash::SaltString::generate(&mut rand_core::OsRng);
        argon2::PasswordHasher::hash_password(&argon2::Argon2::default(), password.as_bytes(), &salt)
            .map(|h| h.to_string())
            .map_err(|e| AuthError::InvalidPassword(e.to_string()))
    }

    /// `argon2::PasswordHash::new(hash)`, then `Argon2::default()
    /// .verify_password`.
    ///
    /// Trusted: an unparsable hash is `InvalidPassword`; otherwise the result
    /// is whether Argon2 verifies the password against it.
    #[verifier::external_body]
    pub fn verify(password: &str, hash: &str) -> (r: Result<bool, AuthError>)
        ensures
            r is Ok <==> argon2_hash_parses(hash@),
            r matches Ok(b) ==> b == argon2_password_matches(password@, hash@),
            r matches Err(e) ==> e is InvalidPassword,
    {
        let parsed = argon2::PasswordHash::new(hash).map_err(
            |e| AuthError::InvalidPassword(e.to_string()),
        )?;
        Ok(argon2::PasswordVerifier::verify_password(&argon2::Argon2::default(), password.as_bytes(), &parsed).is_ok())
    }
}

// ---------------------------------------------------------------------------
// Authentication
// ---------------------------------------------------------------------------

/// The authentication service: it holds the secret that signs tokens, and
/// decides logins and token lookups from what the database returned.
pub struct AuthService {
    pub jwt_secret: String,
}

/// What authenticating a user yields, over the account that the lookup by
/// username (or, failing that, by email) found.
pub open spec fn authenticate_outcome(
    by_username: Result<Option<User>, ()>,
    by_email: Option<User>,
    password: Seq<char>,
) -> Result<User, AuthErrorView> {
    match by_username {
        Err(_) => Err(AuthErrorView::InternalError),
        Ok(found) => {
            let account = if found is Some {
                found
            } else {
                by_email
            };
            match account {
                None => Err(AuthErrorView::WrongCredentials),
                Some(user) => if !user.is_active {
                    Err(AuthErrorView::UserInactive)
                } else if !argon2_hash_parses(user.password_hash@) {
                    Err(AuthErrorView::InvalidPassword(Seq::empty()))
                } else if !argon2_password_matches(password, user.password_hash@) {
                    Err(AuthErrorView::WrongCredentials)
                } else {
                    Ok(user)
                },
            }
        },
    }
}

/// Whether a login result matches an outcome, up to the hasher's message in
/// `InvalidPassword`.
pub open spec fn login_matches(r: Result<User, AuthErrorView>, want: Result<User, AuthErrorView>) -> bool {
    match (r, want) {
        (Ok(a), Ok(b)) => a == b,
        (Err(AuthErrorView::InvalidPassword(_)), Err(AuthErrorView::InvalidPassword(_))) => true,
        (Err(a), Err(b)) => a == b,
        _ => false,
    }
}

/// The view of a login result.
pub open spec fn login_view(r: Result<User, AuthError>) -> Result<User, AuthErrorView> {
    match r {
        Ok(u) => Ok(u),
        Err(e) => Err(e@),
    }
}

/// Drops the error of a lookup, keeping only whether it failed.
pub open spec fn lookup_shape(r: Result<Option<User>, DatabaseError>) -> Result<Option<User>, ()> {
    match r {
        Ok(u) => Ok(u),
        Err(_) => Err(()),
    }
}

/// What looking a token's user up yields: a token that failed its check is
/// an invalid token, whatever the check's own error.
pub open spec fn token_user_outcome(
    verified: Result<u128, AuthErrorView>,
    lookup: Result<Option<User>, ()>,
) -> Result<User, AuthErrorView> {
    match verified {
        Err(_) => Err(AuthErrorView::InvalidToken),
        Ok(_) => match lookup {
            Err(_) => Err(AuthErrorView::InternalError),
            Ok(None) => Err(AuthErrorView::UserNotFound),
            Ok(Some(user)) => if !user.is_active {
                Err(AuthErrorView::UserInactive)
            } else {
                Ok(user)
            },
        },
    }
}

impl AuthService {
    pub fn new(jwt_secret: &str) -> (s: Self)
        ensures
            s.jwt_secret@ == jwt_secret@,
    {
        AuthService { jwt_secret: String::from_str(jwt_secret) }
    }

    /// Decide a login from the account found by username (the lookup's
    /// failure is an internal error) or, when there is none, by email;
    /// then refuse an inactive account, and check the password.
    pub fn authenticate_user(
        &self,
        by_username: Result<Option<User>, DatabaseError>,
        by_email: Option<User>,
        password: &str,
    ) -> (r: Result<User, AuthError>)
        ensures
            login_matches(
                login_view(r),
                authenticate_outcome(lookup_shape(by_username), by_email, password@),
            ),
    {
        let found = match by_username {
            Err(_) => {
                return Err(AuthError::InternalError);
            },
            Ok(found) => found,
        };
        let account = match found {
            Some(u) => Some(u),
            None => by_email,
        };
        let user = match account {
            None => {
                return Err(AuthError::WrongCredentials);
            },
            Some(u) => u,
        };
        if !user.is_active {
            return Err(AuthError::UserInactive);
        }
        match PasswordHashUtil::verify(password, user.password_hash.as_str()) {
            Err(e) => Err(e),
            Ok(false) => Err(AuthError::WrongCredentials),
            Ok(true) => Ok(user),
        }
    }

    /// Decide the user a token names, from the result of verifying the token
    /// (which yields the user's id; any failure is an invalid token) and of
    /// looking that id up.
    pub fn get_user_from_token(
        &self,
        verified: Result<u128, AuthError>,
        lookup: Result<Option<User>, DatabaseError>,
    ) -> (r: Result<User, AuthError>)
        ensures
            login_view(r) == token_user_outcome(
                match verified {
                    Ok(id) => Ok(id),
                    Err(e) => Err(e@),
                },
                lookup_shape(lookup),
            ),
    {
        match verified {
            Err(_) => Err(AuthError::InvalidToken),
            Ok(_) => match lookup {
                Err(_) => Err(AuthError::InternalError),
                Ok(None) => Err(AuthError::UserNotFound),
                Ok(Some(user)) => if !user.is_active {
                    Err(AuthError::UserInactive)
                } else {
                    Ok(user)
                },
            },
        }
    }
}

/// A user whose password was hashed by [`PasswordHashUtil::hash`] and who is
/// active logs in with that password.
pub proof fn law_hashed_password_logs_in(user: User, password: Seq<char>)
    requires
        user.is_active,
        argon2_hash_parses(user.password_hash@),
        argon2_password_matches(password, user.password_hash@),
    ensures
        authenticate_outcome(Ok(Some(user)), None, password) == Ok::<User, AuthErrorView>(user),
        authenticate_outcome(Ok(None), Some(user), password) == Ok::<User, AuthErrorView>(user),
{
}

/// An inactive account never logs in, whatever the password.
pub proof fn law_inactive_never_logs_in(
    by_username: Result<Option<User>, ()>,
    by_email: Option<User>,
    password: Seq<char>,
)
    ensures
        authenticate_outcome(by_username, by_email, password) matches Ok(u) ==> u.is_active,
        token_user_outcome(Ok(0), by_username) matches Ok(u) ==> u.is_active,
{
}

// ---------------------------------------------------------------------------
// Extractors and role gates
// ---------------------------------------------------------------------------

/// The token of an `Authorization: Bearer <token>` header.
pub open spec fn bearer_token_spec(header: Option<Seq<char>>) -> Result<Seq<char>, AuthErrorView> {
    match header {
        None => Err(AuthErrorView::MissingCredentials),
        Some(h) => if h.len() >= 7 && h.subrange(0, 7) == "Bearer "@ {
            Ok(h.subrange(7, h.len() as int))
        } else {
            Err(AuthErrorView::InvalidToken)
        },
    }
}

/// The token of an `Authorization: Bearer <token>` header: a missing header
/// is missing credentials, any other scheme an invalid token.
pub fn bearer_token(header: Option<&str>) -> (r: Result<String, AuthError>)
    ensures
        match r {
            Ok(t) => bearer_token_spec(
                match header {
                    Some(h) => Some(h@),
                    None => None,
                },
            ) == Ok::<Seq<char>, AuthErrorView>(t@),
            Err(e) => bearer_token_spec(
                match header {
                    Some(h) => Some(h@),
                    None => None,
                },
            ) == Err::<Seq<char>, AuthErrorView>(e@),
        },
{
    let h = match header {
        None => {
            return Err(AuthError::MissingCredentials);
        },
        Some(h) => h,
    };
    let cs = chars_of(h);
    let prefix = chars_of("Bearer ");
    if cs.len() >= 7 && crate::text::chars_eq(&cs.as_slice()[0..7], prefix.as_slice()) {
        let rest = crate::text::sub_chars(cs.as_slice(), 7, cs.len());
        Ok(crate::text::string_from_chars(rest.as_slice()))
    } else {
        Err(AuthError::InvalidToken)
    }
}

/// An authenticated user.
#[derive(Clone)]
pub struct AuthUser(pub User);

/// An authenticated administrator.
#[derive(Clone)]
pub struct AdminUser(pub User);

/// An authenticated member of staff (or administrator).
#[derive(Clone)]
pub struct StaffUser(pub User);

/// An authenticated member (not unknown, not newbie).
#[derive(Clone)]
pub struct MemberUser(pub User);

impl AdminUser {
    /// Admit an administrator; anyone else is forbidden, not unauthenticated.
    pub fn from_user(user: User) -> (r: Result<AdminUser, AuthError>)
        ensures
            role_rank(user.role) >= role_rank(UserRole::Admin) <==> r is Ok,
            r matches Ok(a) ==> a.0 == user,
            r matches Err(e) ==> e@ == AuthErrorView::Forbidden("administrator access"@),
    {
        if !user.role.can_access_admin() {
            return Err(AuthError::Forbidden("administrator access"));
        }
        Ok(AdminUser(user))
    }
}

impl StaffUser {
    /// Admit staff and administrators; anyone else is forbidden.
    pub fn from_user(user: User) -> (r: Result<StaffUser, AuthError>)
        ensures
            role_rank(user.role) >= role_rank(UserRole::Staff) <==> r is Ok,
            r matches Ok(a) ==> a.0 == user,
            r matches Err(e) ==> e@ == AuthErrorView::Forbidden("staff access"@),
    {
        if !user.role.can_access_staff() {
            return Err(AuthError::Forbidden("staff access"));
        }
        Ok(StaffUser(user))
    }
}

impl MemberUser {
    /// Admit members and above; unknown and newbie accounts are forbidden.
    pub fn from_user(user: User) -> (r: Result<MemberUser, AuthError>)
        ensures
            role_rank(user.role) >= role_rank(UserRole::Member) <==> r is Ok,
            r matches Ok(a) ==> a.0 == user,
            r matches Err(e) ==> e@ == AuthErrorView::Forbidden("member access"@),
    {
        if !user.role.can_access_member() {
            return Err(AuthError::Forbidden("member access"));
        }
        Ok(MemberUser(user))
    }
}

/// The role gates are nested: whoever passes the admin gate passes the staff
/// gate, and whoever passes the staff gate passes the member gate.
pub proof fn law_role_gates_nest(r: UserRole)
    ensures
        role_rank(r) >= role_rank(UserRole::Admin) ==> role_rank(r) >= role_rank(UserRole::Staff),
        role_rank(r) >= role_rank(UserRole::Staff) ==> role_rank(r) >= role_rank(UserRole::Member),
{
}

// ---------------------------------------------------------------------------
// Logging in
// ---------------------------------------------------------------------------

/// A login needs both a username (or email) and a password.
pub fn login_credentials_present(username_or_email: &str, password: &str) -> (r: Result<(), ApiError>)
    ensures
        username_or_email@.len() == 0 || password@.len() == 0 ==> (r matches Err(e) && e@ == api_err(
            ApiErrorKind::BadRequest,
            "Username/email and password are required"@,
        )),
        username_or_email@.len() > 0 && password@.len() > 0 ==> r is Ok,
{
    if username_or_email.is_empty() || password.is_empty() {
        return Err(error_with(ApiErrorKind::BadRequest, "Username/email and password are required"));
    }
    Ok(())
}

/// What an authenticated login gets.
#[derive(Clone, Copy, Debug, PartialEq, Eq, Structural)]
pub enum LoginStep {
    /// A second factor is needed first.
    Challenge,
    /// A token, valid for `expires_in` seconds; `must_enroll_mfa` flags a
    /// member whose role requires MFA and who has not enrolled yet.
    Token { expires_in: i64, must_enroll_mfa: Option<bool> },
}

/// How long a token lasts, in seconds, for a lifetime in hours.
pub open spec fn token_lifetime_secs(hours: i64) -> int {
    hours * 3600
}

/// Decide what an authenticated login gets: a challenge when the member has
/// MFA enrolled and MFA is on; otherwise a token.
pub fn login_step(mfa_enrolled: bool, mfa_enabled: bool, required_for_role: bool, expiration_hours: i64) -> (r: LoginStep)
    requires
        i64::MIN <= token_lifetime_secs(expiration_hours) <= i64::MAX,
    ensures
        mfa_enrolled && mfa_enabled ==> r == LoginStep::Challenge,
        !(mfa_enrolled && mfa_enabled) ==> (r == (LoginStep::Token {
            expires_in: token_lifetime_secs(expiration_hours) as i64,
            must_enroll_mfa: if required_for_role && !mfa_enrolled {
                Some(true)
            } else {
                None
            },
        })),
{
    if mfa_enrolled && mfa_enabled {
        return LoginStep::Challenge;
    }
    let must = required_for_role && !mfa_enrolled;
    LoginStep::Token {
        expires_in: expiration_hours * 3600,
        must_enroll_mfa: if must {
            Some(true)
        } else {
            None
        },
    }
}

// ---------------------------------------------------------------------------
// Tokens
// ---------------------------------------------------------------------------

/// The name a role is carried under in a token.
pub open spec fn role_name_spec(r: UserRole) -> Seq<char> {
    match r {
        UserRole::Unknown => "unknown"@,
        UserRole::Newbie => "newbie"@,
        UserRole::Member => "member"@,
        UserRole::Staff => "staff"@,
        UserRole::Admin => "admin"@,
    }
}

/// The role a name in a token stands for; `None` for any other name.
pub open spec fn role_from_name_spec(s: Seq<char>) -> Option<UserRole> {
    if s == "unknown"@ {
        Some(UserRole::Unknown)
    } else if s == "newbie"@ {
        Some(UserRole::Newbie)
    } else if s == "member"@ {
        Some(UserRole::Member)
    } else if s == "staff"@ {
        Some(UserRole::Staff)
    } else if s == "admin"@ {
        Some(UserRole::Admin)
    } else {
        None
    }
}

/// The name a role is carried under in a token.
pub fn role_name(r: UserRole) -> (s: &'static str)
    ensures
        s@ == role_name_spec(r),
{
    match r {
        UserRole::Unknown => "unknown",
        UserRole::Newbie => "newbie",
        UserRole::Member => "member",
        UserRole::Staff => "staff",
        UserRole::Admin => "admin",
    }
}

/// The role a name in a token stands for.
pub fn role_from_name(s: &str) -> (r: Option<UserRole>)
    ensures
        r == role_from_name_spec(s@),
{
    let cs = chars_of(s);
    if str_is(cs.as_slice(), "unknown") {
        Some(UserRole::Unknown)
    } else if str_is(cs.as_slice(), "newbie") {
        Some(UserRole::Newbie)
    } else if str_is(cs.as_slice(), "member") {
        Some(UserRole::Member)
    } else if str_is(cs.as_slice(), "staff") {
        Some(UserRole::Staff)
    } else if str_is(cs.as_slice(), "admin") {
        Some(UserRole::Admin)
    } else {
        None
    }
}

/// A role read back from its name in a token is the role it was written
/// for.
pub proof fn law_role_names_round_trip(r: UserRole)
    ensures
        role_from_name_spec(role_name_spec(r)) == Some(r),
{
    reveal_strlit("unknown");
    reveal_strlit("newbie");
    reveal_strlit("member");
    reveal_strlit("staff");
    reveal_strlit("admin");
    // The names differ in length or in their first character.
    assert("newbie"@ != "unknown"@ && "member"@ != "unknown"@ && "staff"@ != "unknown"@ && "admin"@ != "unknown"@) by {
        assert("unknown"@.len() == 7);
    }
    assert("member"@ != "newbie"@ && "staff"@ != "newbie"@ && "admin"@ != "newbie"@) by {
        assert("newbie"@[0] == 'n' && "member"@[0] == 'm' && "staff"@.len() == 5 && "admin"@.len() == 5);
    }
    assert("staff"@ != "member"@ && "admin"@ != "member"@) by {
        assert("member"@.len() == 6);
    }
    assert("admin"@ != "staff"@) by {
        assert("admin"@[0] == 'a' && "staff"@[0] == 's');
    }
}

/// How long a token is valid for, in seconds: a day.
pub const TOKEN_LIFETIME_SECS: u64 = 86400;

/// The claims a token carries.
#[derive(Clone, Debug)]
pub struct Claims {
    /// The user's id, as text.
    pub sub: String,
    /// When the token expires, in seconds since 1970.
    pub exp: u64,
    /// When it was issued, in seconds since 1970.
    pub iat: u64,
    /// The user's id, as the 128-bit value of its UUID.
    pub user_id: u128,
    pub username: String,
    pub role: UserRole,
}

/// The claims as plain values.
pub struct ClaimsView {
    pub sub: Seq<char>,
    pub exp: u64,
    pub iat: u64,
    pub user_id: u128,
    pub username: Seq<char>,
    pub role: UserRole,
}

impl View for Claims {
    type V = ClaimsView;

    open spec fn view(&self) -> ClaimsView {
        ClaimsView {
            sub: self.sub@,
            exp: self.exp,
            iat: self.iat,
            user_id: self.user_id,
            username: self.username@,
            role: self.role,
        }
    }
}

/// The claims of a token issued to `user` at `now`: the user's id (as text
/// and as an id), name and role, issued now and expiring a day later.
pub open spec fn claims_for_spec(user: User, now: u64) -> ClaimsView {
    ClaimsView {
        sub: uuid_hyphenated(user.id),
        exp: (now + TOKEN_LIFETIME_SECS) as u64,
        iat: now,
        user_id: user.id,
        username: user.username@,
        role: user.role,
    }
}

/// The claims of a token issued to `user` at `now_secs`. The expiry must be
/// an instant the date library can hold (it panics on one it cannot).
pub fn claims_for(user: &User, now_secs: u64) -> (c: Claims)
    requires
        now_secs + TOKEN_LIFETIME_SECS <= crate::calendar::MAX_INSTANT_SECS,
    ensures
        c@ == claims_for_spec(*user, now_secs),
{
    Claims {
        sub: uuid_text(user.id),
        exp: now_secs + TOKEN_LIFETIME_SECS,
        iat: now_secs,
        user_id: user.id,
        username: user.username.clone(),
        role: user.role,
    }
}

/// The HS256 JSON Web Token `jsonwebtoken::encode` makes, with the default
/// header, of a JSON object holding the claims `sub`, `exp`, `iat`,
/// `user_id`, `username` and `role`, keyed with `secret`.
pub uninterp spec fn jwt_hs256(
    sub: Seq<char>,
    exp: u64,
    iat: u64,
    user_id: Seq<char>,
    username: Seq<char>,
    role: Seq<char>,
    secret: Seq<u8>,
) -> Seq<char>;

/// The token that carries `c`, signed with `secret`.
pub open spec fn token_spec(c: ClaimsView, secret: Seq<char>) -> Seq<char> {
    jwt_hs256(
        c.sub,
        c.exp,
        c.iat,
        uuid_hyphenated(c.user_id),
        c.username,
        role_name_spec(c.role),
        encode_utf8(secret),
    )
}

/// `jsonwebtoken::encode` with `Header::default()` (HS256) and
/// `EncodingKey::from_secret(secret)`, of a JSON object holding the claims.
///
/// Trusted: it succeeds (the key's family is the header's, serialising a
/// header and an object of strings and integers cannot fail, and HMAC
/// signing returns `Ok`), and the token is [`jwt_hs256`] of the claims and
/// the secret (the JSON, its base64 and the HMAC are functions of them
/// alone).
#[verifier::external_body]
fn jwt_encode_hs256(
    sub: &str,
    exp: u64,
    iat: u64,
    user_id: &str,
    username: &str,
    role: &str,
    secret: &[u8],
) -> (r: Result<String, ()>)
    ensures
        r is Ok,
        r matches Ok(t) ==> t@ == jwt_hs256(sub@, exp, iat, user_id@, username@, role@, secret@),
{
    let mut claims = serde_json::Map::new();
    claims.insert("sub".to_string(), serde_json::Value::from(sub));
    claims.insert("exp".to_string(), serde_json::Value::from(exp));
    claims.insert("iat".to_string(), serde_json::Value::from(iat));
    claims.insert("user_id".to_string(), serde_json::Value::from(user_id));
    claims.insert("username".to_string(), serde_json::Value::from(username));
    claims.insert("role".to_string(), serde_json::Value::from(role));
    let key = jsonwebtoken::EncodingKey::from_secret(secret);
    jsonwebtoken::encode(&jsonwebtoken::Header::default(), &claims, &key).map_err(|_| ())
}

#[verifier::external_type_specification]
#[verifier::external_body]
pub struct ExJsonValue(serde_json::Value);

#[verifier::external_type_specification]
#[verifier::external_body]
#[verifier::reject_recursive_types(K)]
#[verifier::reject_recursive_types(V)]
pub struct ExJsonMap<K, V>(serde_json::Map<K, V>);

/// A claim's value, as far as the claims are read: text, an unsigned
/// integer, or anything else.
#[derive(Clone, Debug)]
pub enum ClaimValue {
    Text(String),
    Unsigned(u64),
    Other,
}

/// A claim's value as plain values.
pub enum ClaimValueView {
    Text(Seq<char>),
    Unsigned(u64),
    Other,
}

impl View for ClaimValue {
    type V = ClaimValueView;

    open spec fn view(&self) -> ClaimValueView {
        match self {
            ClaimValue::Text(s) => ClaimValueView::Text(s@),
            ClaimValue::Unsigned(x) => ClaimValueView::Unsigned(*x),
            ClaimValue::Other => ClaimValueView::Other,
        }
    }
}

/// The entries of a decoded JSON object, in the object's order: each key,
/// with its value read as a claim value (a string as text, a number that
/// `as_u64` takes as an unsigned integer, anything else as neither).
pub uninterp spec fn json_claims(m: serde_json::Map<String, serde_json::Value>) -> Seq<(Seq<char>, ClaimValueView)>;

/// What `jsonwebtoken::decode` with `Validation::new(HS256)` reads from
/// `token` keyed with `secret`, leaving aside the expiry check (which reads
/// the clock): `None` where the token is malformed or its signature does
/// not check, otherwise the entries of its payload, read as
/// [`json_claims`] reads them.
pub uninterp spec fn jwt_checked_payload(token: Seq<char>, secret: Seq<u8>) -> Option<Seq<(Seq<char>, ClaimValueView)>>;

/// The value of the first entry named `key`.
pub open spec fn claim_spec(es: Seq<(Seq<char>, ClaimValueView)>, key: Seq<char>) -> Option<ClaimValueView>
    decreases es.len(),
{
    if es.len() == 0 {
        None
    } else if es[0].0 == key {
        Some(es[0].1)
    } else {
        claim_spec(es.subrange(1, es.len() as int), key)
    }
}

/// The text claim named `key`.
pub open spec fn text_claim(es: Seq<(Seq<char>, ClaimValueView)>, key: Seq<char>) -> Option<Seq<char>> {
    match claim_spec(es, key) {
        Some(ClaimValueView::Text(s)) => Some(s),
        _ => None,
    }
}

/// The unsigned integer claim named `key`.
pub open spec fn unsigned_claim(es: Seq<(Seq<char>, ClaimValueView)>, key: Seq<char>) -> Option<u64> {
    match claim_spec(es, key) {
        Some(ClaimValueView::Unsigned(x)) => Some(x),
        _ => None,
    }
}

/// Whether the entries hold exactly the six claims of `jwt_hs256` made of
/// these values.
pub open spec fn holds_token_claims(
    es: Seq<(Seq<char>, ClaimValueView)>,
    sub: Seq<char>,
    exp: u64,
    iat: u64,
    user_id: Seq<char>,
    username: Seq<char>,
    role: Seq<char>,
) -> bool {
    &&& text_claim(es, "sub"@) == Some(sub)
    &&& unsigned_claim(es, "exp"@) == Some(exp)
    &&& unsigned_claim(es, "iat"@) == Some(iat)
    &&& text_claim(es, "user_id"@) == Some(user_id)
    &&& text_claim(es, "username"@) == Some(username)
    &&& text_claim(es, "role"@) == Some(role)
}

/// `jsonwebtoken::decode` of the token into a JSON object, with
/// `DecodingKey::from_secret(secret)` and `Validation::new(HS256)`: the
/// signature is checked, and the expiry against the clock.
///
/// Trusted: a token it accepts is one whose signature checks under
/// `secret`, and the object is its payload ([`jwt_checked_payload`]); a
/// token that `jsonwebtoken::encode` made of six claims with this secret
/// ([`jwt_hs256`]) decodes to those claims. Nothing is stated of when it
/// fails: the expiry check reads the clock.
#[verifier::external_body]
fn jwt_decode_hs256(token: &str, secret: &[u8]) -> (r: Result<serde_json::Map<String, serde_json::Value>, ()>)
    ensures
        r matches Ok(m) ==> jwt_checked_payload(token@, secret@) == Some(json_claims(m)),
        r matches Ok(m) ==> forall|sub: Seq<char>, exp: u64, iat: u64, uid: Seq<char>, name: Seq<char>, role: Seq<char>|
            #[trigger] jwt_hs256(sub, exp, iat, uid, name, role, secret@) == token@ ==> holds_token_claims(
                json_claims(m),
                sub,
                exp,
                iat,
                uid,
                name,
                role,
            ),
{
    let key = jsonwebtoken::DecodingKey::from_secret(secret);
    let validation = jsonwebtoken::Validation::new(jsonwebtoken::Algorithm::HS256);
    match jsonwebtoken::decode::<serde_json::Map<String, serde_json::Value>>(token, &key, &validation) {
        Ok(data) => Ok(data.claims),
        Err(_) => Err(()),
    }
}

/// `serde_json::Map::len`.
///
/// Trusted: the number of its entries.
#[verifier::external_body]
fn json_claim_count(m: &serde_json::Map<String, serde_json::Value>) -> (r: usize)
    ensures
        r == json_claims(*m).len(),
{
    m.len()
}

/// Entry `i` of the object in its order (`iter().nth(i)`): the key, and the
/// value as a claim value (a string as text, a number that `as_u64` takes
/// as an unsigned integer, anything else as neither).
///
/// Trusted: entry `i` of [`json_claims`].
#[verifier::external_body]
fn json_claim_at(m: &serde_json::Map<String, serde_json::Value>, i: usize) -> (r: (String, ClaimValue))
    requires
        i < json_claims(*m).len(),
    ensures
        (r.0@, r.1@) == json_claims(*m)[i as int],
{
    let (k, v) = m.iter().nth(i).unwrap();
    let value = match v {
        serde_json::Value::String(s) => ClaimValue::Text(s.clone()),
        serde_json::Value::Number(n) => match n.as_u64() {
            Some(x) => ClaimValue::Unsigned(x),
            None => ClaimValue::Other,
        },
        _ => ClaimValue::Other,
    };
    (k.clone(), value)
}

/// The entries as plain values.
pub open spec fn claim_views(es: Seq<(String, ClaimValue)>) -> Seq<(Seq<char>, ClaimValueView)> {
    es.map_values(|e: (String, ClaimValue)| (e.0@, e.1@))
}

/// The claims that a decoded token's entries hold: every claim present
/// with the right kind of value, the user id a UUID and the role a known
/// name; `None` otherwise.
pub open spec fn claims_from_spec(es: Seq<(Seq<char>, ClaimValueView)>) -> Option<ClaimsView> {
    match (
        text_claim(es, "sub"@),
        unsigned_claim(es, "exp"@),
        unsigned_claim(es, "iat"@),
        text_claim(es, "user_id"@),
        text_claim(es, "username"@),
        text_claim(es, "role"@),
    ) {
        (Some(sub), Some(exp), Some(iat), Some(uid), Some(username), Some(role)) => match (
            uuid_parse(uid),
            role_from_name_spec(role),
        ) {
            (Some(user_id), Some(role)) => Some(ClaimsView { sub, exp, iat, user_id, username, role }),
            _ => None,
        },
        _ => None,
    }
}

/// The position of the first entry named `key`.
fn find_claim(es: &[(String, ClaimValue)], key: &str) -> (r: Option<usize>)
    ensures
        match claim_spec(claim_views(es@), key@) {
            None => r is None,
            Some(v) => r matches Some(i) && i < es@.len() && es@[i as int].1@ == v,
        },
{
    let ghost ev = claim_views(es@);
    let want = chars_of(key);
    let n = es.len();
    let mut i: usize = 0;
    assert(ev.subrange(0, n as int) =~= ev);
    while i < n
        invariant
            n == es@.len(),
            ev == claim_views(es@),
            i <= n,
            want@ == key@,
            claim_spec(ev, key@) == claim_spec(ev.subrange(i as int, n as int), key@),
        decreases n - i,
    {
        let name = chars_of(es[i].0.as_str());
        let ghost rest = ev.subrange(i as int, n as int);
        assert(rest[0] == ev[i as int]);
        if chars_eq(name.as_slice(), want.as_slice()) {
            return Some(i);
        }
        assert(rest.subrange(1, rest.len() as int) =~= ev.subrange(i as int + 1, n as int));
        i = i + 1;
    }
    None
}

/// The text claim named `key`.
fn get_text_claim(es: &[(String, ClaimValue)], key: &str) -> (r: Option<String>)
    ensures
        match r {
            Some(s) => text_claim(claim_views(es@), key@) == Some(s@),
            None => text_claim(claim_views(es@), key@) is None,
        },
{
    match find_claim(es, key) {
        None => None,
        Some(i) => match &es[i].1 {
            ClaimValue::Text(s) => Some(s.clone()),
            _ => None,
        },
    }
}

/// The unsigned integer claim named `key`.
fn get_unsigned_claim(es: &[(String, ClaimValue)], key: &str) -> (r: Option<u64>)
    ensures
        r == unsigned_claim(claim_views(es@), key@),
{
    match find_claim(es, key) {
        None => None,
        Some(i) => match &es[i].1 {
            ClaimValue::Unsigned(x) => Some(*x),
            _ => None,
        },
    }
}

/// The claims a decoded token's entries hold, as [`claims_from_spec`] says.
/// Entries that hold the six claims of a token issued with claims `c` give
/// back `c`.
pub fn claims_from_entries(es: &[(String, ClaimValue)]) -> (r: Option<Claims>)
    ensures
        match claims_from_spec(claim_views(es@)) {
            None => r is None,
            Some(c) => r matches Some(x) && x@ == c,
        },
        forall|c: ClaimsView|
            #[trigger] holds_token_claims(
                claim_views(es@),
                c.sub,
                c.exp,
                c.iat,
                uuid_hyphenated(c.user_id),
                c.username,
                role_name_spec(c.role),
            ) ==> (r matches Some(x) && x@ == c),
{
    let sub = get_text_claim(es, "sub");
    let exp = get_unsigned_claim(es, "exp");
    let iat = get_unsigned_claim(es, "iat");
    let uid = get_text_claim(es, "user_id");
    let username = get_text_claim(es, "username");
    let role = get_text_claim(es, "role");
    match (sub, exp, iat, uid, username, role) {
        (Some(sub), Some(exp), Some(iat), Some(uid), Some(username), Some(role)) => {
            let parsed = parse_uuid(uid.as_str());
            let named = role_from_name(role.as_str());
            proof {
                assert forall|c: ClaimsView|
                    #[trigger] holds_token_claims(
                        claim_views(es@),
                        c.sub,
                        c.exp,
                        c.iat,
                        uuid_hyphenated(c.user_id),
                        c.username,
                        role_name_spec(c.role),
                    ) implies parsed == Some(c.user_id) && named == Some(c.role) by {
                    law_role_names_round_trip(c.role);
                }
            }
            match (parsed, named) {
                (Some(user_id), Some(role)) => Some(Claims { sub, exp, iat, user_id, username, role }),
                _ => None,
            }
        },
        _ => None,
    }
}

impl Claims {
    /// Issue a token for `user` at `now_secs`, signed with `jwt_secret`: the
    /// token of [`claims_for`]'s claims (encoding cannot fail).
    pub fn new(user: &User, jwt_secret: &str, now_secs: u64) -> (r: Result<String, AuthError>)
        requires
            now_secs + TOKEN_LIFETIME_SECS <= crate::calendar::MAX_INSTANT_SECS,
        ensures
            r matches Ok(t) && t@ == token_spec(claims_for_spec(*user, now_secs), jwt_secret@),
    {
        let c = claims_for(user, now_secs);
        let uid = uuid_text(c.user_id);
        match jwt_encode_hs256(
            c.sub.as_str(),
            c.exp,
            c.iat,
            uid.as_str(),
            c.username.as_str(),
            role_name(c.role),
            jwt_secret.as_bytes(),
        ) {
            Ok(t) => Ok(t),
            Err(()) => Err(AuthError::TokenCreation),
        }
    }

    /// Check a token against `jwt_secret` and read its claims: any failure
    /// (a bad signature, an expired token, claims missing or malformed) is
    /// an invalid token. A token that passes is one whose signature checks
    /// under the secret, and the claims are its payload's; in particular a
    /// token issued with claims `c` under this secret reads back as `c`.
    pub fn verify_token(token: &str, jwt_secret: &str) -> (r: Result<Claims, AuthError>)
        ensures
            r matches Err(e) ==> e is InvalidToken,
            r matches Ok(c) ==> (jwt_checked_payload(token@, encode_utf8(jwt_secret@)) matches Some(p)
                && claims_from_spec(p) == Some(c@)),
            r matches Ok(c) ==> forall|v: ClaimsView| #[trigger] token_spec(v, jwt_secret@) == token@ ==> c@ == v,
    {
        let m = match jwt_decode_hs256(token, jwt_secret.as_bytes()) {
            Ok(m) => m,
            Err(()) => {
                return Err(AuthError::InvalidToken);
            },
        };
        let ghost all = json_claims(m);
        let n = json_claim_count(&m);
        let mut es: Vec<(String, ClaimValue)> = Vec::new();
        let mut i: usize = 0;
        while i < n
            invariant
                all == json_claims(m),
                n == all.len(),
                i <= n,
                claim_views(es@) == all.subrange(0, i as int),
            decreases n - i,
        {
            let e = json_claim_at(&m, i);
            let ghost before = es@;
            let ghost ev = (e.0@, e.1@);
            es.push(e);
            proof {
                assert(es@ =~= before.push(e));
                assert(claim_views(before.push(e)) =~= claim_views(before).push(ev));
                assert(all.subrange(0, i as int + 1) =~= all.subrange(0, i as int).push(all[i as int]));
            }
            i = i + 1;
        }
        proof {
            assert(all.subrange(0, n as int) =~= all);
        }
        let r = claims_from_entries(es.as_slice());
        proof {
            assert forall|v: ClaimsView| #[trigger] token_spec(v, jwt_secret@) == token@ implies (r matches Some(
                x,
            ) && x@ == v) by {
                assert(jwt_hs256(
                    v.sub,
                    v.exp,
                    v.iat,
                    uuid_hyphenated(v.user_id),
                    v.username,
                    role_name_spec(v.role),
                    encode_utf8(jwt_secret@),
                ) == token@);
                assert(holds_token_claims(
                    claim_views(es@),
                    v.sub,
                    v.exp,
                    v.iat,
                    uuid_hyphenated(v.user_id),
                    v.username,
                    role_name_spec(v.role),
                ));
            }
        }
        match r {
            Some(c) => Ok(c),
            None => Err(AuthError::InvalidToken),
        }
    }
}

impl AuthService {
    /// Issue a token for `user` at `now_secs` with this service's secret.
    pub fn create_token(&self, user: &User, now_secs: u64) -> (r: Result<String, AuthError>)
        requires
            now_secs + TOKEN_LIFETIME_SECS <= crate::calendar::MAX_INSTANT_SECS,
        ensures
            r matches Ok(t) && t@ == token_spec(claims_for_spec(*user, now_secs), self.jwt_secret@),
    {
        Claims::new(user, self.jwt_secret.as_str(), now_secs)
    }

    /// Check a token with this service's secret, as
    /// [`Claims::verify_token`] does.
    pub fn verify_token(&self, token: &str) -> (r: Result<Claims, AuthError>)
        ensures
            r matches Err(e) ==> e is InvalidToken,
            r matches Ok(c) ==> (jwt_checked_payload(token@, encode_utf8(self.jwt_secret@)) matches Some(p)
                && claims_from_spec(p) == Some(c@)),
            r matches Ok(c) ==> forall|v: ClaimsView| #[trigger] token_spec(v, self.jwt_secret@) == token@ ==> c@
                == v,
    {
        Claims::verify_token(token, self.jwt_secret.as_str())
    }

    /// The id of the user a token names, checked with this service's
    /// secret: what [`AuthService::get_user_from_token`] looks up. A token
    /// this service issued to a user names that user.
    pub fn token_user_id(&self, token: &str) -> (r: Result<u128, AuthError>)
        ensures
            r matches Err(e) ==> e is InvalidToken,
            r matches Ok(id) ==> (jwt_checked_payload(token@, encode_utf8(self.jwt_secret@)) matches Some(p)
                && claims_from_spec(p) matches Some(c) && c.user_id == id),
            r matches Ok(id) ==> forall|v: ClaimsView| #[trigger] token_spec(v, self.jwt_secret@) == token@ ==> id
                == v.user_id,
    {
        match self.verify_token(token) {
            Ok(c) => Ok(c.user_id),
            Err(e) => Err(e),
        }
    }
}

} // verus!
