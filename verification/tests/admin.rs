use css_server::admin::{
    mfa_reset_message, refresh_configured, refresh_failed, refresh_report, reload_failed, remaining_roles,
    role_grant_targets, role_removal_gate, Activation, PageKind,
};

#[test]
fn granting_needs_user_and_role() {
    assert_eq!(role_grant_targets(false, false).unwrap_err().response_message(), "user not found");
    assert_eq!(role_grant_targets(true, false).unwrap_err().response_message(), "role not found");
    assert!(role_grant_targets(true, true).is_ok());
}

#[test]
fn remaining_roles_drop_only_the_removed_one() {
    assert_eq!(remaining_roles(&vec![1, 2, 1, 3], 1), vec![2, 3]);
    assert_eq!(remaining_roles(&vec![4, 5], 9), vec![4, 5]);
    assert_eq!(remaining_roles(&vec![], 9), Vec::<u128>::new());
}

#[test]
fn the_last_admin_keeps_admin_access() {
    let err = role_removal_gate(true, false, 1, 1).unwrap_err();
    assert_eq!(err.status(), 403);
    assert_eq!(err.response_message(), "cannot remove the last administrator's admin access");
    assert!(role_removal_gate(true, false, 2, 1).is_ok());
    assert!(role_removal_gate(true, true, 1, 1).is_ok());
    assert!(role_removal_gate(false, false, 0, 1).is_ok());
    let missing = role_removal_gate(false, false, 3, 0).unwrap_err();
    assert_eq!(missing.status(), 404);
    assert_eq!(missing.response_message(), "the user does not hold that role");
}

#[test]
fn activation_changes() {
    assert!(Activation::Activate.is_active());
    assert!(!Activation::Deactivate.is_active());
    assert_eq!(Activation::Activate.message(), "User activated successfully");
    assert_eq!(Activation::Deactivate.message(), "User deactivated successfully");
    assert_eq!(Activation::Deactivate.audit_action(), "User deactivated by admin");
    assert_eq!(mfa_reset_message("ada"), "MFA reset for user ada");
}

#[test]
fn page_refreshes() {
    assert!(refresh_configured(PageKind::Wiki, true).is_ok());
    let err = refresh_configured(PageKind::Site, false).unwrap_err();
    assert_eq!(err.status(), 409);
    assert_eq!(err.response_message(), "No site repository is configured; set one before refreshing");
    assert_eq!(refresh_failed(PageKind::Wiki, "git pull failed").status(), 500);
    let (key, message) = refresh_report(PageKind::Wiki, 12);
    assert_eq!(key, "wiki_pages_count");
    assert_eq!(message, "Wiki pages refreshed successfully. 12 pages loaded.");
    assert_eq!(reload_failed("missing file").status(), 500);
}
