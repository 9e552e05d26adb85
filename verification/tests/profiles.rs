use css_server::profiles::{
    no_such_version, profile_access, profile_editor, profile_rejected, require_profiles_enabled, rollback_message,
    validate_profile_fields, ProfileAccess, ProfileField, VersionListQuery,
};

fn field(key: &str, label: &str) -> ProfileField {
    ProfileField { key: key.to_string(), label: label.to_string() }
}

#[test]
fn schemas_need_keys_labels_and_distinct_keys() {
    assert!(validate_profile_fields(&[field("phone", "Phone"), field("badge", "Badge")]).is_ok());
    assert!(validate_profile_fields(&[]).is_ok());
    assert_eq!(
        validate_profile_fields(&[field("a", "A"), field("", "")]).unwrap_err().response_message(),
        "Profile field key cannot be empty"
    );
    assert_eq!(
        validate_profile_fields(&[field("a", "")]).unwrap_err().response_message(),
        "Profile field label cannot be empty"
    );
    // Blanks are reported before duplicates, wherever they stand.
    assert_eq!(
        validate_profile_fields(&[field("a", "A"), field("a", "B"), field("c", "")]).unwrap_err().response_message(),
        "Profile field label cannot be empty"
    );
    let dup = validate_profile_fields(&[field("a", "A"), field("b", "B"), field("b", "C"), field("a", "D")]);
    let err = dup.unwrap_err();
    assert_eq!(err.status(), 400);
    assert_eq!(err.response_message(), "Duplicate field key: b");
}

#[test]
fn members_reach_their_own_profile() {
    assert!(profile_access(ProfileAccess::View, 1, 1, false).is_ok());
    assert!(profile_access(ProfileAccess::Update, 1, 2, true).is_ok());
    assert_eq!(
        profile_access(ProfileAccess::View, 1, 2, false).unwrap_err().response_message(),
        "You can only view your own profile"
    );
    assert_eq!(
        profile_access(ProfileAccess::Update, 1, 2, false).unwrap_err().response_message(),
        "You can only update your own profile"
    );
    assert_eq!(profile_editor(1, 1), None);
    assert_eq!(profile_editor(3, 1), Some(3));
}

#[test]
fn edits_and_versions() {
    assert!(require_profiles_enabled(true).is_ok());
    assert_eq!(require_profiles_enabled(false).unwrap_err().response_message(), "User profiles are currently disabled");
    assert_eq!(profile_rejected("phone must be text").response_message(), "Profile validation failed: phone must be text");
    assert_eq!(VersionListQuery { limit: None, offset: None }.window(), (50, 0));
    assert_eq!(VersionListQuery { limit: Some(0), offset: Some(-5) }.window(), (1, 0));
    assert_eq!(VersionListQuery { limit: Some(9000), offset: Some(20) }.window(), (500, 20));
    let err = no_such_version(-3);
    assert_eq!(err.status(), 404);
    assert_eq!(err.response_message(), "No profile config version -3");
    assert_eq!(rollback_message(7), "Rolled back to profile configuration version 7");
}
