use css_server::accounts::{
    change_own_password, check_password, deletion_gate, deletion_recorded, hash_for_storage, is_tier,
    pagination, plan_user_update, recaptcha_outcome, register_gate, registration_message, registration_role,
    registration_throttle_key, registration_throttled, reset_after_lookup, reset_after_send, reset_after_store,
    reset_available, reset_body, reset_claimed_user, reset_consume_finish, reset_consume_gate, reset_link,
    reset_request_begin, reset_throttle_verdict, role_change_target, theme_gate, update_target,
    update_user_access, update_user_level_gate, validate_registration, view_user_gate, AuditLogQuery,
    RegisterRequest, RegistrationSettings, ResetAudit, ResetStep, UpdateUserRequest, UpdateUserRoleRequest,
    RESET_REQUESTED_MESSAGE,
};
use css_server::auth::PasswordHashUtil;
use css_server::errors::{ApiErrorKind, DatabaseError};
use css_server::models::{User, UserRole};

fn settings() -> RegistrationSettings {
    RegistrationSettings {
        allow_registration: true,
        password_min_length: 8,
        challenge_enabled: true,
        challenge_phrase: "open sesame".to_string(),
        throttle_enabled: true,
        throttle_attempts: 5,
        throttle_seconds: 600,
        terms_of_service_checkbox: true,
        recaptcha_enabled: false,
    }
}

fn request() -> RegisterRequest {
    RegisterRequest {
        username: "ada".to_string(),
        email: "Ada@Example.org".to_string(),
        password: "correct horse".to_string(),
        full_name: "Ada Lovelace".to_string(),
        challenge_phrase: Some("open sesame".to_string()),
        terms_of_service_accepted: Some(true),
        recaptcha_token: None,
    }
}

fn user(id: u128, password: &str) -> User {
    User {
        id,
        username: format!("user{id}"),
        email: format!("user{id}@example.org"),
        password_hash: PasswordHashUtil::hash(password).unwrap(),
        role: UserRole::Member,
        is_active: true,
    }
}

#[test]
fn registration_gates_come_in_order() {
    let s = settings();
    assert!(matches!(register_gate(&s, &request(), None), Ok(None)));

    let closed = RegistrationSettings { allow_registration: false, ..settings() };
    let r = register_gate(&closed, &request(), Some(30)).unwrap_err();
    assert_eq!(r.error.status(), 403);
    assert!(!r.record_failure);

    let r = register_gate(&s, &request(), Some(30)).unwrap_err();
    assert_eq!(r.error.status(), 429);
    assert_eq!(r.error.response_message(), "Too many failed registration attempts. Try again in 30 seconds");

    let wrong = RegisterRequest { challenge_phrase: Some("open says me".to_string()), ..request() };
    let r = register_gate(&s, &wrong, None).unwrap_err();
    assert_eq!(r.error.response_message(), "Invalid registration phrase");
    assert!(r.record_failure, "a wrong phrase counts against the throttle");

    let no_tos = RegisterRequest { terms_of_service_accepted: None, ..request() };
    let r = register_gate(&s, &no_tos, None).unwrap_err();
    assert_eq!(r.error.response_message(), "You must accept the terms of service to register");

    let captcha = RegistrationSettings { recaptcha_enabled: true, ..settings() };
    let r = register_gate(&captcha, &request(), None).unwrap_err();
    assert_eq!(r.error.response_message(), "reCAPTCHA verification is required");
    let with_token = RegisterRequest { recaptcha_token: Some("tok".to_string()), ..request() };
    assert_eq!(register_gate(&captcha, &with_token, None).unwrap(), Some("tok".to_string()));
}

#[test]
fn the_throttle_key_and_the_recaptcha_verdict() {
    assert!(registration_throttled(&settings()));
    assert_eq!(registration_throttle_key(&request()), "ada@example.org");
    assert!(recaptcha_outcome(Ok(true), &settings()).is_ok());
    let r = recaptcha_outcome(Ok(false), &settings()).unwrap_err();
    assert_eq!(r.error.status(), 400);
    assert!(r.record_failure);
    let r = recaptcha_outcome(Err("timeout".to_string()), &settings()).unwrap_err();
    assert_eq!(r.error.status(), 500);
    assert!(!r.record_failure);
}

#[test]
fn registration_fields_are_checked() {
    assert!(validate_registration(&request(), 8, false, false).is_ok());
    let empty = RegisterRequest { username: String::new(), ..request() };
    assert_eq!(
        validate_registration(&empty, 8, false, false).unwrap_err().response_message(),
        "Username, email, and password are required"
    );
    assert_eq!(
        validate_registration(&request(), 20, false, false).unwrap_err().response_message(),
        "Password must be at least 20 characters long"
    );
    // The minimum counts bytes: four two-byte characters are eight bytes.
    let short_chars = RegisterRequest { password: "éééé".to_string(), ..request() };
    assert!(validate_registration(&short_chars, 8, false, false).is_ok());
    let no_at = RegisterRequest { email: "ada.example.org".to_string(), ..request() };
    assert_eq!(validate_registration(&no_at, 8, false, false).unwrap_err().response_message(), "Invalid email format");
    assert_eq!(validate_registration(&request(), 8, true, true).unwrap_err().status(), 409);
    assert_eq!(
        validate_registration(&request(), 8, false, true).unwrap_err().response_message(),
        "Email already exists"
    );
    assert_eq!(registration_role(true), UserRole::Admin);
    assert_eq!(registration_role(false), UserRole::Newbie);
    assert_eq!(registration_message(true), "Admin user registered successfully");
    assert_eq!(registration_message(false), "User registered successfully");
}

#[test]
fn a_stored_hash_verifies_its_own_password_only() {
    let h = hash_for_storage("correct horse").unwrap();
    assert!(check_password("correct horse", &h));
    assert!(!check_password("wrong horse", &h));
    assert!(!check_password("correct horse", "not a phc string"));
}

#[test]
fn a_reset_request_is_answered_the_same_whether_or_not_the_account_exists() {
    assert!(reset_available(true, true));
    assert!(!reset_available(true, false));
    assert_eq!(reset_request_begin(false, "x").unwrap_err().status(), 403);
    let (address, key) = reset_request_begin(true, "  Ada@Example.ORG ").unwrap();
    assert_eq!(address, "ada@example.org");
    assert_eq!(key, "password-reset:ada@example.org");
    match reset_throttle_verdict(None, key.clone()) {
        ResetStep::RecordAttempt { key: k } => assert_eq!(k, "password-reset:ada@example.org"),
        other => panic!("{other:?}"),
    }
    match reset_throttle_verdict(Some(12), key) {
        ResetStep::Refuse(e) => {
            assert_eq!(e.response_message(), "Too many password reset requests. Try again in 12 seconds")
        },
        other => panic!("{other:?}"),
    }

    let unknown = reset_after_lookup(Ok(None));
    assert!(matches!(unknown, ResetStep::Done(ResetAudit::Requested { user: None })));
    let found = reset_after_lookup(Ok(Some(user(7, "pw-seven-x"))));
    let (id, email) = match found {
        ResetStep::StoreToken { user, email } => (user, email),
        other => panic!("{other:?}"),
    };
    assert_eq!(id, 7);
    let send = reset_after_store(id, email, Ok(()));
    assert!(matches!(send, ResetStep::Send { user: 7, .. }));
    let delivered = reset_after_send(7, Ok(()));
    assert!(matches!(delivered, ResetStep::Done(ResetAudit::Requested { user: Some(7) })));
    let failed = reset_after_send(7, Err("smtp down".to_string()));
    assert!(matches!(failed, ResetStep::Done(ResetAudit::SendFailed { user: 7, .. })));
    assert_eq!(RESET_REQUESTED_MESSAGE, "If an account exists for that address, a password reset link has been sent.");

    let refused = reset_after_lookup(Err(DatabaseError::ConnectionTimeout));
    match refused {
        ResetStep::Refuse(e) => assert_eq!(e.status(), 500),
        other => panic!("{other:?}"),
    }
    match reset_after_store(7, String::new(), Err(DatabaseError::Other("x".to_string()))) {
        ResetStep::Refuse(e) => assert_eq!(e.status(), 500),
        other => panic!("{other:?}"),
    }
}

#[test]
fn the_reset_link_and_mail() {
    assert_eq!(reset_link("https://space.example.org//", "abc"), "https://space.example.org/reset-password?token=abc");
    let body = reset_body("Space", "L", 30);
    assert!(body.starts_with("Somebody asked to reset the password for your Space account.\n\n"));
    assert!(body.contains("\n\nL\n\n"));
    assert!(body.contains("expires in 30 minutes."));
}

#[test]
fn consuming_a_reset_token() {
    assert_eq!(reset_consume_gate(false, "long enough", 8).unwrap_err().status(), 403);
    let e = reset_consume_gate(true, "short", 8).unwrap_err();
    assert_eq!(e.kind(), ApiErrorKind::ValidationError);
    assert_eq!(e.response_message(), "Password must be at least 8 characters long");
    assert!(reset_consume_gate(true, "long enough", 8).is_ok());
    let e = reset_claimed_user(Ok(None)).unwrap_err();
    assert_eq!(e.status(), 400, "a stale link is a bad request, never a 401");
    assert_eq!(reset_claimed_user(Ok(Some(9))).unwrap(), 9);
    assert_eq!(reset_claimed_user(Err(DatabaseError::ConnectionTimeout)).unwrap_err().status(), 500);
    assert_eq!(
        reset_consume_finish(Ok(())).unwrap(),
        "Your password has been changed. You can now sign in with it."
    );
}

fn update(f: impl FnOnce(&mut UpdateUserRequest)) -> UpdateUserRequest {
    let mut r = UpdateUserRequest {
        username: None,
        email: None,
        full_name: None,
        password: None,
        current_password: None,
        is_active: None,
        role: None,
    };
    f(&mut r);
    r
}

#[test]
fn who_may_update_whom() {
    let plain = update(|_| {});
    assert!(update_user_access(1, 1, false, false, &plain).is_ok());
    assert_eq!(
        update_user_access(1, 2, false, false, &plain).unwrap_err().response_message(),
        "You can only update your own profile"
    );
    let status = update(|r| r.is_active = Some(false));
    assert_eq!(
        update_user_access(1, 1, false, false, &status).unwrap_err().response_message(),
        "You cannot modify account status or role"
    );
    let bogus = update(|r| r.role = Some("overlord".to_string()));
    assert_eq!(update_user_access(1, 2, true, true, &bogus).unwrap_err().response_message(), "unknown role: overlord");
    let admin = update(|r| r.role = Some("admin".to_string()));
    assert_eq!(update_user_access(1, 2, true, false, &admin).unwrap_err().status(), 403);
    assert!(update_user_access(1, 2, true, true, &admin).is_ok());
    assert!(is_tier("staff") && is_tier("newbie") && !is_tier("Staff"));

    assert_eq!(update_user_level_gate(1, 2, 3, 3).unwrap_err().status(), 403);
    assert!(update_user_level_gate(1, 2, 3, 2).is_ok());
    assert!(update_user_level_gate(1, 1, 0, 4).is_ok());
    assert_eq!(update_target(Ok(None)).unwrap_err().status(), 404);
}

#[test]
fn a_self_service_credential_change_needs_the_current_password() {
    let me = user(1, "old password");
    let new_pw = update(|r| r.password = Some("new password".to_string()));
    let e = plan_user_update(1, 1, new_pw.clone(), &me, 8, false, false).unwrap_err();
    assert_eq!(e.response_message(), "Current password is incorrect");
    let with_current = update(|r| {
        r.password = Some("new password".to_string());
        r.current_password = Some("old password".to_string());
    });
    let plan = plan_user_update(1, 1, with_current, &me, 8, false, false).unwrap();
    let h = plan.password_hash.expect("a new hash");
    assert!(check_password("new password", &h));
    assert!(!plan.email_changing);
    // A manager acting on someone else is the admin path and needs no current password.
    let plan = plan_user_update(2, 1, new_pw, &me, 8, false, false).unwrap();
    assert!(plan.password_hash.is_some());

    let email = update(|r| r.email = Some("elsewhere.example.org".to_string()));
    assert_eq!(plan_user_update(2, 1, email, &me, 8, false, false).unwrap_err().response_message(), "Invalid email format");
    let email = update(|r| r.email = Some("new@example.org".to_string()));
    assert_eq!(plan_user_update(2, 1, email.clone(), &me, 8, true, false).unwrap_err().status(), 409);
    let plan = plan_user_update(2, 1, email, &me, 8, false, false).unwrap();
    assert!(plan.email_changing);
    let same_email = update(|r| r.email = Some("user1@example.org".to_string()));
    assert!(!plan_user_update(1, 1, same_email, &me, 8, true, false).unwrap().email_changing);
    let name = update(|r| r.username = Some(String::new()));
    assert_eq!(plan_user_update(1, 1, name, &me, 8, false, false).unwrap_err().response_message(), "Username cannot be empty");
    let name = update(|r| r.username = Some("taken".to_string()));
    assert_eq!(plan_user_update(1, 1, name, &me, 8, false, true).unwrap_err().response_message(), "Username already exists");
}

#[test]
fn changing_ones_own_password() {
    let me = user(1, "old password");
    assert_eq!(
        change_own_password("nope", "new password", &me.password_hash, 8).unwrap_err().response_message(),
        "Current password is incorrect"
    );
    assert_eq!(change_own_password("old password", "short", &me.password_hash, 8).unwrap_err().status(), 400);
    let h = change_own_password("old password", "new password", &me.password_hash, 8).unwrap();
    assert!(check_password("new password", &h));
}

#[test]
fn viewing_paging_deleting_and_themes() {
    assert!(view_user_gate(1, 1, false).is_ok());
    assert_eq!(view_user_gate(1, 2, false).unwrap_err().status(), 403);
    assert_eq!(pagination(None, None).unwrap(), (20, 0));
    assert_eq!(pagination(Some(3), Some(10)).unwrap(), (10, 20));
    assert_eq!(pagination(Some(0), None).unwrap_err().status(), 400);
    assert_eq!(pagination(None, Some(101)).unwrap_err().status(), 400);
    assert_eq!(deletion_gate(1, 1).unwrap_err().response_message(), "You cannot delete your own account");
    assert!(deletion_gate(1, 2).is_ok());
    assert_eq!(deletion_recorded(Err("disk".to_string())).unwrap_err().status(), 500);
    assert!(theme_gate(1, 1, false, "forest").is_ok());
    assert_eq!(theme_gate(1, 2, false, "forest").unwrap_err().status(), 403);
    assert_eq!(
        theme_gate(1, 1, false, "neon").unwrap_err().response_message(),
        "Invalid theme: neon. Must be one of: system, css-light, css-dark, afterdark, her, forest, sky, clays, stones, lofi, black, light, dark, cupcake, corporate"
    );
}

#[test]
fn role_changes_and_the_audit_log_window() {
    let req = UpdateUserRoleRequest { role: "staff".to_string() };
    assert_eq!(role_change_target(Ok(Some(user(3, "x-password"))), &req).unwrap().id, 3);
    assert_eq!(role_change_target(Ok(None), &req).unwrap_err().status(), 404);
    let bad = UpdateUserRoleRequest { role: "root".to_string() };
    assert_eq!(role_change_target(Ok(Some(user(3, "x-password"))), &bad).unwrap_err().response_message(), "unknown role: root");
    let q = AuditLogQuery { page: None, per_page: None, event_type: None };
    assert_eq!(q.window(), (50, 0));
    let q = AuditLogQuery { page: Some(3), per_page: Some(500), event_type: None };
    assert_eq!(q.window(), (100, 200));
}
