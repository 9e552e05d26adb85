use css_server::mfa::{
    challenge_user, chosen_method, login_methods, mfa_status, passkey_label, passkey_removed, recovery_verdict,
    registration_owner, require_mfa_enabled, submitted_code, totp_allowed, totp_confirm_verdict, totp_verdict,
    webauthn_available, MfaMethod,
};

#[test]
fn a_challenge_offers_the_usable_methods_in_order() {
    assert_eq!(login_methods(true, true, 3).unwrap(), vec![MfaMethod::Totp, MfaMethod::Webauthn, MfaMethod::Recovery]);
    assert_eq!(login_methods(false, false, 1).unwrap(), vec![MfaMethod::Recovery]);
    assert_eq!(login_methods(false, false, 0).unwrap_err().status(), 500);
    let names: Vec<&str> = login_methods(true, false, 2).unwrap().iter().map(|m| m.as_str()).collect();
    assert_eq!(names, vec!["totp", "recovery"]);
}

#[test]
fn verifying_a_factor() {
    assert!(require_mfa_enabled(true).is_ok());
    assert_eq!(require_mfa_enabled(false).unwrap_err().status(), 403);
    assert_eq!(chosen_method("webauthn").unwrap(), MfaMethod::Webauthn);
    assert_eq!(chosen_method("sms").unwrap_err().response_message(), "Unknown method: sms");
    assert_eq!(challenge_user(Some(4), true).unwrap(), 4);
    assert_eq!(challenge_user(None, true).unwrap_err().response_message(), "Unknown or expired challenge_token");
    assert_eq!(challenge_user(Some(4), false).unwrap_err().status(), 401);
    assert_eq!(submitted_code(Some(" 123456 "), MfaMethod::Totp).unwrap(), "123456");
    assert_eq!(submitted_code(Some("  "), MfaMethod::Totp).unwrap_err().response_message(), "code is required for TOTP");
    assert_eq!(submitted_code(None, MfaMethod::Recovery).unwrap_err().response_message(), "code is required for recovery");
    assert_eq!(totp_verdict(false, true).unwrap_err().response_message(), "No confirmed TOTP for user");
    assert_eq!(totp_verdict(true, false).unwrap_err().response_message(), "Invalid TOTP code");
    assert!(totp_verdict(true, true).is_ok());
    assert_eq!(recovery_verdict(&[false, true, true]).unwrap(), 1);
    assert_eq!(recovery_verdict(&[false, false]).unwrap_err().status(), 401);
    assert_eq!(recovery_verdict(&[]).unwrap_err().response_message(), "Invalid recovery code");
}

#[test]
fn status_reports_what_must_be_enrolled() {
    let s = mfa_status(true, true, 2, 8, true, false);
    assert!(s.enabled && s.totp_enrolled && s.must_enroll);
    assert_eq!(s.webauthn_count, 2);
    assert_eq!(s.recovery_codes_remaining, 8);
    assert!(!mfa_status(true, false, 0, 0, true, true).must_enroll);
    assert!(!mfa_status(true, false, 0, 0, false, false).must_enroll);
}

#[test]
fn enrollment_checks() {
    assert!(totp_allowed(true).is_ok());
    assert_eq!(totp_allowed(false).unwrap_err().response_message(), "TOTP disabled");
    assert_eq!(totp_confirm_verdict(false, true).unwrap_err().response_message(), "No TOTP setup in progress");
    assert_eq!(totp_confirm_verdict(true, false).unwrap_err().response_message(), "Invalid code");
    assert!(totp_confirm_verdict(true, true).is_ok());
    assert_eq!(webauthn_available(false).unwrap_err().status(), 403);
    assert_eq!(passkey_label("  YubiKey ").unwrap(), "YubiKey");
    assert_eq!(passkey_label("   ").unwrap_err().response_message(), "label is required");
    assert_eq!(registration_owner(None, 1).unwrap_err().status(), 400);
    let stolen = registration_owner(Some(2), 1).unwrap_err();
    assert_eq!(stolen.status(), 403);
    assert_eq!(stolen.response_message(), "challenge_token does not belong to this user");
    assert!(registration_owner(Some(1), 1).is_ok());
    assert_eq!(passkey_removed(0).unwrap_err().response_message(), "Credential not found");
    assert!(passkey_removed(1).is_ok());
}
