//! The public view of the server configuration: what a signed-out visitor's
//! browser may know of the deployment.
//!
//! The view leaves out every secret (the registration phrase, the throttle
//! limits, the reCAPTCHA secret), and reports derived facts rather than raw
//! flags where a raw flag would promise something the deployment cannot do.

use vstd::prelude::*;
use vstd::string::*;
use crate::text::{strip_trailing, trim_end_char};

verus! {

/// Where a pages link is shown, as configured.
#[derive(Clone, Debug)]
pub struct LinkLocation {
    pub value: String,
}

/// The period membership dues are charged for, as configured.
#[derive(Clone, Debug)]
pub struct MembershipPeriod {
    pub value: String,
}

/// A tool category and how it is presented, as configured.
#[derive(Clone, Debug)]
pub struct ToolCategoryMapping {
    pub value: String,
}

/// The registration challenge a visitor is shown (no phrase, no limits, no
/// secret key).
#[derive(Clone, Debug)]
pub struct PublicRegistrationChallengeConfig {
    pub enabled: bool,
    pub hint: String,
    pub throttle_enabled: bool,
    pub terms_of_service_checkbox: bool,
    pub terms_of_service_md: String,
    pub recaptcha_enabled: bool,
    pub recaptcha_site_key: String,
}

/// The tool categories.
#[derive(Clone, Debug)]
pub struct PublicToolConfig {
    pub tool_categories: Vec<ToolCategoryMapping>,
}

/// Which links the home page offers.
#[derive(Clone, Copy, Debug)]
pub struct PublicHomepageLinksConfig {
    pub view_my_profile: bool,
    pub browse_tools: bool,
    pub admin_panel: bool,
    pub wiki: bool,
}

/// The site's names and home-page links.
#[derive(Clone, Debug)]
pub struct PublicSiteConfig {
    pub site_name: String,
    /// Organisation abbreviation for compact labels; empty falls back to
    /// `site_name`.
    pub site_short_name: String,
    pub homepage_links: PublicHomepageLinksConfig,
}

/// Whether the wiki and the site pages exist, and where they are linked.
#[derive(Clone, Debug)]
pub struct PublicPagesConfig {
    pub wiki_enabled: bool,
    pub wiki_link: LinkLocation,
    pub site_enabled: bool,
    pub site_link: LinkLocation,
}

/// The theme.
#[derive(Clone, Debug)]
pub struct PublicThemeConfig {
    pub primary_color: String,
    pub secondary_color: String,
    pub accent_color: String,
    pub background_color: String,
    pub text_color: String,
    pub logo_url: Option<String>,
    pub favicon_url: Option<String>,
    pub dark_mode_enabled: bool,
}

/// Whether the door module is on.
#[derive(Clone, Copy, Debug)]
pub struct PublicDoorsConfig {
    pub enabled: bool,
}

/// Whether the calendar is on.
#[derive(Clone, Copy, Debug)]
pub struct PublicCalendarConfig {
    pub enabled: bool,
}

/// Whether the Groups.io integration is on.
#[derive(Clone, Copy, Debug)]
pub struct PublicGroupsioConfig {
    pub enabled: bool,
}

/// What the billing card shows. No key of any kind.
#[derive(Clone, Debug)]
pub struct PublicMembershipConfig {
    pub enabled: bool,
    /// Whether online (Stripe) payment is offered on top of the module.
    pub stripe_enabled: bool,
    pub currency: String,
    pub due_amount: String,
    pub due_period: MembershipPeriod,
    pub plan_name: String,
}

/// Whether ToolGuard is on, and the profile field holding a member's card.
#[derive(Clone, Debug)]
pub struct PublicToolGuardConfig {
    pub enabled: bool,
    pub profile_field: String,
}

/// What a signed-out visitor needs to know about authentication.
#[derive(Clone, Copy, Debug)]
pub struct PublicAuthConfig {
    /// Whether account recovery is offered: wanted by the operator and
    /// possible because mail can be sent.
    pub password_reset_enabled: bool,
    /// Whether a new account must confirm its address before signing in.
    pub require_email_verification: bool,
}

/// The whole public configuration.
#[derive(Clone, Debug)]
pub struct PublicConfig {
    pub auth: PublicAuthConfig,
    pub registration_challenge: PublicRegistrationChallengeConfig,
    pub tools: PublicToolConfig,
    pub site: PublicSiteConfig,
    pub pages: PublicPagesConfig,
    pub theme: PublicThemeConfig,
    pub doors: PublicDoorsConfig,
    pub calendar: PublicCalendarConfig,
    pub toolguard: PublicToolGuardConfig,
    pub groupsio: PublicGroupsioConfig,
    pub membership: PublicMembershipConfig,
}

/// The registration challenge as configured, secrets included.
#[derive(Clone, Debug)]
pub struct ChallengeSettings {
    pub enabled: bool,
    pub hint: String,
    pub phrase: String,
    pub throttle_enabled: bool,
    pub throttle_attempts: u32,
    pub throttle_seconds: u32,
    pub terms_of_service_checkbox: bool,
    pub terms_of_service_md: String,
    pub recaptcha_enabled: bool,
    pub recaptcha_site_key: String,
    pub recaptcha_secret_key: String,
}

/// The parts of the server configuration the public view is made from.
#[derive(Clone, Debug)]
pub struct ServerConfig {
    pub password_reset_enabled: bool,
    pub require_email_verification: bool,
    pub email_enabled: bool,
    pub challenge: ChallengeSettings,
    pub tool_categories: Vec<ToolCategoryMapping>,
    pub site_name: String,
    pub site_short_name: String,
    pub homepage_links: PublicHomepageLinksConfig,
    pub wiki_repo: Option<String>,
    pub wiki_link: LinkLocation,
    pub site_repo: Option<String>,
    pub site_link: LinkLocation,
    pub theme: PublicThemeConfig,
    pub door_enabled: bool,
    pub calendar_enabled: bool,
    pub toolguard_enabled: bool,
    pub toolguard_profile_field: String,
    pub groupsio_enabled: bool,
    pub membership_enabled: bool,
    pub stripe_enabled: bool,
    pub currency: String,
    pub due_amount: String,
    pub due_period: MembershipPeriod,
    pub plan_name: String,
}

/// Build the public view of a configuration. Account recovery is offered
/// only when it is both wanted and possible; the wiki and the site pages
/// are offered when their repositories are configured; everything else is
/// passed through, and no secret is carried over.
pub fn build_public_config(c: ServerConfig) -> (p: PublicConfig)
    ensures
        p.auth.password_reset_enabled == (c.password_reset_enabled && c.email_enabled),
        p.auth.require_email_verification == c.require_email_verification,
        p.registration_challenge.enabled == c.challenge.enabled,
        p.registration_challenge.hint == c.challenge.hint,
        p.registration_challenge.throttle_enabled == c.challenge.throttle_enabled,
        p.registration_challenge.terms_of_service_checkbox == c.challenge.terms_of_service_checkbox,
        p.registration_challenge.terms_of_service_md == c.challenge.terms_of_service_md,
        p.registration_challenge.recaptcha_enabled == c.challenge.recaptcha_enabled,
        p.registration_challenge.recaptcha_site_key == c.challenge.recaptcha_site_key,
        p.tools.tool_categories == c.tool_categories,
        p.site.site_name == c.site_name,
        p.site.site_short_name == c.site_short_name,
        p.site.homepage_links == c.homepage_links,
        p.pages.wiki_enabled == c.wiki_repo is Some,
        p.pages.wiki_link == c.wiki_link,
        p.pages.site_enabled == c.site_repo is Some,
        p.pages.site_link == c.site_link,
        p.theme == c.theme,
        p.doors.enabled == c.door_enabled,
        p.calendar.enabled == c.calendar_enabled,
        p.toolguard.enabled == c.toolguard_enabled,
        p.toolguard.profile_field == c.toolguard_profile_field,
        p.groupsio.enabled == c.groupsio_enabled,
        p.membership.enabled == c.membership_enabled,
        p.membership.stripe_enabled == c.stripe_enabled,
        p.membership.currency == c.currency,
        p.membership.due_amount == c.due_amount,
        p.membership.due_period == c.due_period,
        p.membership.plan_name == c.plan_name,
{
    let ChallengeSettings {
        enabled,
        hint,
        throttle_enabled,
        terms_of_service_checkbox,
        terms_of_service_md,
        recaptcha_enabled,
        recaptcha_site_key,
        ..
    } = c.challenge;
    PublicConfig {
        auth: PublicAuthConfig {
            password_reset_enabled: c.password_reset_enabled && c.email_enabled,
            require_email_verification: c.require_email_verification,
        },
        registration_challenge: PublicRegistrationChallengeConfig {
            enabled,
            hint,
            throttle_enabled,
            terms_of_service_checkbox,
            terms_of_service_md,
            recaptcha_enabled,
            recaptcha_site_key,
        },
        tools: PublicToolConfig { tool_categories: c.tool_categories },
        site: PublicSiteConfig {
            site_name: c.site_name,
            site_short_name: c.site_short_name,
            homepage_links: c.homepage_links,
        },
        pages: PublicPagesConfig {
            wiki_enabled: c.wiki_repo.is_some(),
            wiki_link: c.wiki_link,
            site_enabled: c.site_repo.is_some(),
            site_link: c.site_link,
        },
        theme: c.theme,
        doors: PublicDoorsConfig { enabled: c.door_enabled },
        calendar: PublicCalendarConfig { enabled: c.calendar_enabled },
        toolguard: PublicToolGuardConfig {
            enabled: c.toolguard_enabled,
            profile_field: c.toolguard_profile_field,
        },
        groupsio: PublicGroupsioConfig { enabled: c.groupsio_enabled },
        membership: PublicMembershipConfig {
            enabled: c.membership_enabled,
            stripe_enabled: c.stripe_enabled,
            currency: c.currency,
            due_amount: c.due_amount,
            due_period: c.due_period,
            plan_name: c.plan_name,
        },
    }
}

/// What another device needs to be onboarded to this instance.
#[derive(Clone, Debug)]
pub struct InstanceQrPayload {
    /// The payload's schema version.
    pub v: u32,
    /// The site's canonical URL.
    pub url: String,
    /// The instance's display name.
    pub name: String,
}

/// The onboarding payload: schema version 1, the site URL without trailing
/// slashes, and the site name.
pub fn instance_qr(site_url: &str, site_name: &str) -> (p: InstanceQrPayload)
    ensures
        p.v == 1,
        p.url@ == strip_trailing(site_url@, '/'),
        p.name@ == site_name@,
{
    InstanceQrPayload { v: 1, url: trim_end_char(site_url, '/'), name: String::from_str(site_name) }
}

} // verus!
