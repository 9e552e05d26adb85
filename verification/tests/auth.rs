use css_server::auth::{
    bearer_token, claims_for, claims_from_entries, login_credentials_present, login_step, role_from_name, role_name,
    AdminUser, AuthError, AuthService, ClaimValue, Claims, LoginStep, MemberUser, PasswordHashUtil, StaffUser,
};
use css_server::errors::DatabaseError;
use css_server::models::{User, UserRole};

fn user(role: UserRole, active: bool, password: &str) -> User {
    User {
        id: 42,
        username: "ada".to_string(),
        email: "ada@example.org".to_string(),
        password_hash: PasswordHashUtil::hash(password).unwrap(),
        role,
        is_active: active,
    }
}

#[test]
fn a_hashed_password_logs_in_and_nothing_else_does() {
    let svc = AuthService::new("secret");
    let u = user(UserRole::Member, true, "hunter2hunter2");
    let ok = svc.authenticate_user(Ok(Some(u.clone())), None, "hunter2hunter2").unwrap();
    assert_eq!(ok.id, 42);
    let by_email = svc.authenticate_user(Ok(None), Some(u.clone()), "hunter2hunter2").unwrap();
    assert_eq!(by_email.id, 42);
    assert!(matches!(svc.authenticate_user(Ok(Some(u.clone())), None, "wrong"), Err(AuthError::WrongCredentials)));
    assert!(matches!(svc.authenticate_user(Ok(None), None, "x"), Err(AuthError::WrongCredentials)));
    assert!(matches!(
        svc.authenticate_user(Err(DatabaseError::ConnectionTimeout), Some(u), "hunter2hunter2"),
        Err(AuthError::InternalError)
    ));
}

#[test]
fn an_inactive_account_never_logs_in() {
    let svc = AuthService::new("secret");
    let u = user(UserRole::Admin, false, "hunter2hunter2");
    assert!(matches!(svc.authenticate_user(Ok(Some(u.clone())), None, "hunter2hunter2"), Err(AuthError::UserInactive)));
    assert!(matches!(svc.get_user_from_token(Ok(42), Ok(Some(u))), Err(AuthError::UserInactive)));
}

#[test]
fn a_token_names_a_live_user() {
    let svc = AuthService::new("secret");
    let u = user(UserRole::Staff, true, "pw-pw-pw-pw");
    assert_eq!(svc.get_user_from_token(Ok(42), Ok(Some(u))).unwrap().id, 42);
    assert!(matches!(svc.get_user_from_token(Ok(42), Ok(None)), Err(AuthError::UserNotFound)));
    assert!(matches!(svc.get_user_from_token(Err(AuthError::InvalidToken), Ok(None)), Err(AuthError::InvalidToken)));
    assert!(matches!(svc.get_user_from_token(Ok(1), Err(DatabaseError::ConnectionTimeout)), Err(AuthError::InternalError)));
}

#[test]
fn an_unparsable_hash_is_an_invalid_password() {
    assert!(matches!(PasswordHashUtil::verify("x", "plainly not a hash"), Err(AuthError::InvalidPassword(_))));
    let h = PasswordHashUtil::hash("abc").unwrap();
    assert!(h.starts_with("$argon2"));
    assert_eq!(PasswordHashUtil::verify("abc", &h).unwrap(), true);
    assert_eq!(PasswordHashUtil::verify("abd", &h).unwrap(), false);
}

#[test]
fn bearer_headers() {
    assert_eq!(bearer_token(Some("Bearer abc.def")).unwrap(), "abc.def");
    assert!(matches!(bearer_token(None), Err(AuthError::MissingCredentials)));
    assert!(matches!(bearer_token(Some("Basic abc")), Err(AuthError::InvalidToken)));
}

#[test]
fn the_role_gates_nest() {
    let admin = user(UserRole::Admin, true, "p");
    let staff = user(UserRole::Staff, true, "p");
    let member = user(UserRole::Member, true, "p");
    let newbie = user(UserRole::Newbie, true, "p");
    assert!(AdminUser::from_user(admin.clone()).is_ok());
    assert!(StaffUser::from_user(admin.clone()).is_ok());
    assert!(MemberUser::from_user(admin).is_ok());
    assert!(matches!(AdminUser::from_user(staff.clone()), Err(AuthError::Forbidden("administrator access"))));
    assert!(StaffUser::from_user(staff).is_ok());
    assert!(matches!(StaffUser::from_user(member.clone()), Err(AuthError::Forbidden("staff access"))));
    assert!(MemberUser::from_user(member).is_ok());
    let e = MemberUser::from_user(newbie).err().unwrap();
    assert_eq!(e.status(), 403);
    assert_eq!(e.response_message(), "Insufficient permissions");
}

#[test]
fn logins_need_both_credentials() {
    assert!(login_credentials_present("ada", "pw").is_ok());
    let err = login_credentials_present("", "pw").unwrap_err();
    assert_eq!(err.status(), 400);
    assert_eq!(err.response_message(), "Username/email and password are required");
    assert!(login_credentials_present("ada", "").is_err());
}

#[test]
fn enrolled_members_are_challenged_and_others_get_tokens() {
    assert_eq!(login_step(true, true, true, 24), LoginStep::Challenge);
    assert_eq!(login_step(true, false, true, 24), LoginStep::Token { expires_in: 86_400, must_enroll_mfa: None });
    assert_eq!(login_step(false, true, true, 1), LoginStep::Token { expires_in: 3_600, must_enroll_mfa: Some(true) });
    assert_eq!(login_step(false, true, false, 2), LoginStep::Token { expires_in: 7_200, must_enroll_mfa: None });
}

fn now_secs() -> u64 {
    std::time::SystemTime::now().duration_since(std::time::UNIX_EPOCH).unwrap().as_secs()
}

#[test]
fn a_token_carries_the_user_and_expires_a_day_later() {
    let u = user(UserRole::Staff, true, "pw-pw-pw-pw");
    let c = claims_for(&u, 1_000);
    assert_eq!(c.sub, "00000000-0000-0000-0000-00000000002a");
    assert_eq!((c.iat, c.exp, c.user_id), (1_000, 87_400, 42));
    assert_eq!(c.username, "ada");
    assert_eq!(c.role, UserRole::Staff);
}

#[test]
fn an_issued_token_verifies_with_its_secret_only() {
    let svc = AuthService::new("s3cret");
    let u = user(UserRole::Admin, true, "pw-pw-pw-pw");
    let now = now_secs();
    let token = svc.create_token(&u, now).unwrap();
    assert_eq!(token.split('.').count(), 3);
    let c = svc.verify_token(&token).unwrap();
    assert_eq!((c.user_id, c.iat, c.exp), (42, now, now + 86_400));
    assert_eq!(c.username, "ada");
    assert_eq!(c.role, UserRole::Admin);
    assert_eq!(c.sub, "00000000-0000-0000-0000-00000000002a");
    assert!(matches!(Claims::verify_token(&token, "other"), Err(AuthError::InvalidToken)));
    assert!(matches!(Claims::verify_token("not.a.token", "s3cret"), Err(AuthError::InvalidToken)));
    // Issued long ago: expired.
    let old = Claims::new(&u, "s3cret", 1_000).unwrap();
    assert!(matches!(Claims::verify_token(&old, "s3cret"), Err(AuthError::InvalidToken)));
}

#[test]
fn claims_are_read_only_when_all_are_there() {
    let t = |s: &str| ClaimValue::Text(s.to_string());
    let mut es = vec![
        ("sub".to_string(), t("00000000-0000-0000-0000-00000000002a")),
        ("exp".to_string(), ClaimValue::Unsigned(20)),
        ("iat".to_string(), ClaimValue::Unsigned(10)),
        ("user_id".to_string(), t("00000000-0000-0000-0000-00000000002a")),
        ("username".to_string(), t("ada")),
        ("role".to_string(), t("member")),
    ];
    let c = claims_from_entries(&es).unwrap();
    assert_eq!((c.user_id, c.exp, c.iat, c.role), (42, 20, 10, UserRole::Member));
    es[5].1 = t("emperor");
    assert!(claims_from_entries(&es).is_none());
    es[5].1 = t("member");
    es[1].1 = ClaimValue::Other;
    assert!(claims_from_entries(&es).is_none());
    es.remove(1);
    assert!(claims_from_entries(&es).is_none());
    assert_eq!(role_from_name(role_name(UserRole::Newbie)), Some(UserRole::Newbie));
}

#[test]
fn any_failed_token_check_is_an_invalid_token() {
    let svc = AuthService::new("secret");
    assert!(matches!(svc.get_user_from_token(Err(AuthError::InternalError), Ok(None)), Err(AuthError::InvalidToken)));
}

#[test]
fn an_issued_token_names_its_user_for_the_lookup() {
    let svc = AuthService::new("s3cret");
    let u = user(UserRole::Member, true, "pw-pw-pw-pw");
    let token = svc.create_token(&u, now_secs()).unwrap();
    let id = svc.token_user_id(&token);
    assert_eq!(id.as_ref().ok().copied(), Some(42));
    let found = svc.get_user_from_token(id, Ok(Some(u.clone()))).unwrap();
    assert_eq!(found.id, 42);
    let other = AuthService::new("different");
    assert!(matches!(other.token_user_id(&token), Err(AuthError::InvalidToken)));
}
