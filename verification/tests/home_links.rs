use css_server::home_links::{
    audience_or_everyone, public_links, validate_new_link, visible_to, HomeLinkAudience, HomeLinkRow,
};
use css_server::models::{Timestamp, UserRole};

#[test]
fn everyone_sees_everyone() {
    assert!(visible_to(HomeLinkAudience::Everyone, None));
    assert!(visible_to(HomeLinkAudience::Everyone, Some(&UserRole::Member)));
}

#[test]
fn anonymous_only_when_signed_out() {
    assert!(visible_to(HomeLinkAudience::Anonymous, None));
    assert!(!visible_to(HomeLinkAudience::Anonymous, Some(&UserRole::Newbie)));
}

#[test]
fn logged_in_hidden_when_signed_out() {
    assert!(!visible_to(HomeLinkAudience::LoggedIn, None));
    assert!(visible_to(HomeLinkAudience::LoggedIn, Some(&UserRole::Newbie)));
}

#[test]
fn member_gate_respects_hierarchy() {
    assert!(!visible_to(HomeLinkAudience::Member, Some(&UserRole::Newbie)));
    assert!(visible_to(HomeLinkAudience::Member, Some(&UserRole::Member)));
    assert!(visible_to(HomeLinkAudience::Member, Some(&UserRole::Staff)));
    assert!(visible_to(HomeLinkAudience::Member, Some(&UserRole::Admin)));
}

#[test]
fn staff_gate_respects_hierarchy() {
    assert!(!visible_to(HomeLinkAudience::Staff, Some(&UserRole::Member)));
    assert!(visible_to(HomeLinkAudience::Staff, Some(&UserRole::Staff)));
    assert!(visible_to(HomeLinkAudience::Staff, Some(&UserRole::Admin)));
}

#[test]
fn audience_names_round_trip() {
    for a in [
        HomeLinkAudience::Everyone,
        HomeLinkAudience::Anonymous,
        HomeLinkAudience::LoggedIn,
        HomeLinkAudience::Member,
        HomeLinkAudience::Staff,
    ] {
        assert_eq!(HomeLinkAudience::parse(a.as_str()), Some(a));
    }
    assert_eq!(HomeLinkAudience::parse("members"), None);
    assert_eq!(audience_or_everyone("nonsense"), HomeLinkAudience::Everyone);
    assert_eq!(audience_or_everyone("staff"), HomeLinkAudience::Staff);
}

fn row(id: u128, audience: &str, enabled: bool, expires_at: Option<Timestamp>) -> HomeLinkRow {
    HomeLinkRow {
        id,
        label: format!("link {id}"),
        url: "https://example.org/".to_string(),
        description: None,
        icon: None,
        audience: audience.to_string(),
        sort_order: 0,
        enabled,
        expires_at,
    }
}

#[test]
fn the_public_listing_filters_by_audience_state_and_expiry() {
    let now = Timestamp { unix_seconds: 1_000, nanos: 0 };
    let later = Timestamp { unix_seconds: 2_000, nanos: 0 };
    let earlier = Timestamp { unix_seconds: 500, nanos: 0 };
    let rows = vec![
        row(1, "everyone", true, None),
        row(2, "anonymous", true, None),
        row(3, "member", true, Some(later)),
        row(4, "staff", true, None),
        row(5, "everyone", false, None),
        row(6, "everyone", true, Some(earlier)),
        row(7, "unknown-audience", true, None),
        row(8, "logged_in", true, Some(now)),
    ];
    let shown: Vec<u128> = public_links(rows, Some(UserRole::Member), now).iter().map(|r| r.id).collect();
    assert_eq!(shown, vec![1, 3]);

    let rows = vec![row(1, "everyone", true, None), row(2, "anonymous", true, None), row(3, "member", true, None)];
    let shown: Vec<u128> = public_links(rows, None, now).iter().map(|r| r.id).collect();
    assert_eq!(shown, vec![1, 2]);
}

#[test]
fn a_new_link_needs_a_label_and_a_url() {
    let (l, u) = validate_new_link("  Wiki ", " https://wiki.example.org ").unwrap();
    assert_eq!(l, "Wiki");
    assert_eq!(u, "https://wiki.example.org");
    assert_eq!(validate_new_link(" ", "x").unwrap_err().response_message(), "label is required");
    assert_eq!(validate_new_link("x", "").unwrap_err().response_message(), "url is required");
    assert_eq!(validate_new_link("x", "").unwrap_err().status(), 400);
}
