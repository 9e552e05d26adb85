use css_server::config::{
    build_public_config, instance_qr, ChallengeSettings, LinkLocation, MembershipPeriod, PublicHomepageLinksConfig,
    PublicThemeConfig, ServerConfig, ToolCategoryMapping,
};

fn config(reset: bool, email: bool) -> ServerConfig {
    ServerConfig {
        password_reset_enabled: reset,
        require_email_verification: true,
        email_enabled: email,
        challenge: ChallengeSettings {
            enabled: true,
            hint: "the usual".to_string(),
            phrase: "SECRET-PHRASE".to_string(),
            throttle_enabled: true,
            throttle_attempts: 5,
            throttle_seconds: 60,
            terms_of_service_checkbox: false,
            terms_of_service_md: String::new(),
            recaptcha_enabled: true,
            recaptcha_site_key: "site-key".to_string(),
            recaptcha_secret_key: "SECRET-KEY".to_string(),
        },
        tool_categories: vec![ToolCategoryMapping { value: "saw".to_string() }],
        site_name: "Space".to_string(),
        site_short_name: String::new(),
        homepage_links: PublicHomepageLinksConfig { view_my_profile: true, browse_tools: true, admin_panel: false, wiki: true },
        wiki_repo: Some("https://git.example.org/wiki".to_string()),
        wiki_link: LinkLocation { value: "nav".to_string() },
        site_repo: None,
        site_link: LinkLocation { value: "footer".to_string() },
        theme: PublicThemeConfig {
            primary_color: "#000".to_string(),
            secondary_color: "#111".to_string(),
            accent_color: "#222".to_string(),
            background_color: "#fff".to_string(),
            text_color: "#333".to_string(),
            logo_url: None,
            favicon_url: None,
            dark_mode_enabled: true,
        },
        door_enabled: true,
        calendar_enabled: false,
        toolguard_enabled: true,
        toolguard_profile_field: "rfid".to_string(),
        groupsio_enabled: false,
        membership_enabled: true,
        stripe_enabled: false,
        currency: "USD".to_string(),
        due_amount: "50.00".to_string(),
        due_period: MembershipPeriod { value: "monthly".to_string() },
        plan_name: "Standard".to_string(),
    }
}

#[test]
fn recovery_is_offered_only_when_wanted_and_possible() {
    assert!(build_public_config(config(true, true)).auth.password_reset_enabled);
    assert!(!build_public_config(config(true, false)).auth.password_reset_enabled);
    assert!(!build_public_config(config(false, true)).auth.password_reset_enabled);
}

#[test]
fn the_public_view_passes_the_rest_through_and_derives_page_availability() {
    let p = build_public_config(config(true, true));
    assert!(p.pages.wiki_enabled);
    assert!(!p.pages.site_enabled);
    assert_eq!(p.pages.site_link.value, "footer");
    assert_eq!(p.registration_challenge.hint, "the usual");
    assert_eq!(p.registration_challenge.recaptcha_site_key, "site-key");
    assert_eq!(p.toolguard.profile_field, "rfid");
    assert_eq!(p.membership.due_amount, "50.00");
    assert_eq!(p.tools.tool_categories.len(), 1);
    let shown = format!("{p:?}");
    assert!(!shown.contains("SECRET"), "a secret reached the public view");
}

#[test]
fn the_instance_payload_names_the_site() {
    let p = instance_qr("https://space.example.org///", "Space");
    assert_eq!((p.v, p.url.as_str(), p.name.as_str()), (1, "https://space.example.org", "Space"));
}
