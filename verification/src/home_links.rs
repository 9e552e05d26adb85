//! Admin-curated links on the public home page, and who may see them.
//!
//! A link addresses an audience: `everyone` is always shown, `anonymous`
//! only to signed-out visitors, `logged_in` to any signed-in user, and
//! `member` / `staff` to users whose role reaches that level of the
//! hierarchy.

use vstd::prelude::*;
use vstd::string::*;
use crate::errors::{api_err, error_with, ApiError, ApiErrorKind, ApiErrorView};
use crate::models::{before, role_rank, Timestamp, UserRole};
use crate::text::{chars_of, str_is, trim, trim_str};

verus! {

/// Who a home-page link is for.
#[derive(Clone, Copy, Debug, PartialEq, Eq, Structural)]
pub enum HomeLinkAudience {
    Everyone,
    Anonymous,
    LoggedIn,
    Member,
    Staff,
}

/// The stored name of an audience.
pub open spec fn audience_name(a: HomeLinkAudience) -> Seq<char> {
    match a {
        HomeLinkAudience::Everyone => "everyone"@,
        HomeLinkAudience::Anonymous => "anonymous"@,
        HomeLinkAudience::LoggedIn => "logged_in"@,
        HomeLinkAudience::Member => "member"@,
        HomeLinkAudience::Staff => "staff"@,
    }
}

/// The audience a stored name denotes, if any.
pub open spec fn audience_of(s: Seq<char>) -> Option<HomeLinkAudience> {
    if s == "everyone"@ {
        Some(HomeLinkAudience::Everyone)
    } else if s == "anonymous"@ {
        Some(HomeLinkAudience::Anonymous)
    } else if s == "logged_in"@ {
        Some(HomeLinkAudience::LoggedIn)
    } else if s == "member"@ {
        Some(HomeLinkAudience::Member)
    } else if s == "staff"@ {
        Some(HomeLinkAudience::Staff)
    } else {
        None
    }
}

impl HomeLinkAudience {
    /// The stored name of this audience.
    pub fn as_str(&self) -> (s: &'static str)
        ensures
            s@ == audience_name(*self),
    {
        match self {
            HomeLinkAudience::Everyone => "everyone",
            HomeLinkAudience::Anonymous => "anonymous",
            HomeLinkAudience::LoggedIn => "logged_in",
            HomeLinkAudience::Member => "member",
            HomeLinkAudience::Staff => "staff",
        }
    }

    /// The audience a stored name denotes; `None` for any other text.
    pub fn parse(s: &str) -> (r: Option<HomeLinkAudience>)
        ensures
            r == audience_of(s@),
    {
        let cs = chars_of(s);
        if str_is(cs.as_slice(), "everyone") {
            Some(HomeLinkAudience::Everyone)
        } else if str_is(cs.as_slice(), "anonymous") {
            Some(HomeLinkAudience::Anonymous)
        } else if str_is(cs.as_slice(), "logged_in") {
            Some(HomeLinkAudience::LoggedIn)
        } else if str_is(cs.as_slice(), "member") {
            Some(HomeLinkAudience::Member)
        } else if str_is(cs.as_slice(), "staff") {
            Some(HomeLinkAudience::Staff)
        } else {
            None
        }
    }
}

/// Parsing a stored name gives back the audience it was stored from.
pub proof fn law_audience_name_round_trip(a: HomeLinkAudience)
    ensures
        audience_of(audience_name(a)) == Some(a),
{
    reveal_strlit("everyone");
    reveal_strlit("anonymous");
    reveal_strlit("logged_in");
    reveal_strlit("member");
    reveal_strlit("staff");
    match a {
        HomeLinkAudience::Everyone => {},
        HomeLinkAudience::Anonymous => {
            assert("anonymous"@[0] != "everyone"@[0]);
        },
        HomeLinkAudience::LoggedIn => {
            assert("logged_in"@[0] != "everyone"@[0]);
            assert("logged_in"@[0] != "anonymous"@[0]);
        },
        HomeLinkAudience::Member => {
            assert("member"@.len() != "everyone"@.len());
            assert("member"@.len() != "anonymous"@.len());
            assert("member"@.len() != "logged_in"@.len());
        },
        HomeLinkAudience::Staff => {
            assert("staff"@.len() != "everyone"@.len());
            assert("staff"@.len() != "anonymous"@.len());
            assert("staff"@.len() != "logged_in"@.len());
            assert("staff"@.len() != "member"@.len());
        },
    }
}

/// Whether a link for `audience` is shown to a viewer with role `viewer`
/// (`None` for a signed-out visitor).
pub open spec fn visible(audience: HomeLinkAudience, viewer: Option<UserRole>) -> bool {
    match audience {
        HomeLinkAudience::Everyone => true,
        HomeLinkAudience::Anonymous => viewer is None,
        HomeLinkAudience::LoggedIn => viewer is Some,
        HomeLinkAudience::Member => viewer matches Some(r) && role_rank(r) >= role_rank(UserRole::Member),
        HomeLinkAudience::Staff => viewer matches Some(r) && role_rank(r) >= role_rank(UserRole::Staff),
    }
}

/// Whether a link with `audience` is shown to a viewer whose role is
/// `viewer_role` (`None` = signed out).
pub fn visible_to(audience: HomeLinkAudience, viewer_role: Option<&UserRole>) -> (r: bool)
    ensures
        r == visible(
            audience,
            match viewer_role {
                Some(x) => Some(*x),
                None => None,
            },
        ),
{
    match (audience, viewer_role) {
        (HomeLinkAudience::Everyone, _) => true,
        (HomeLinkAudience::Anonymous, None) => true,
        (HomeLinkAudience::Anonymous, Some(_)) => false,
        (HomeLinkAudience::LoggedIn, Some(_)) => true,
        (HomeLinkAudience::LoggedIn, None) => false,
        (HomeLinkAudience::Member, Some(r)) => r.rank() >= UserRole::Member.rank(),
        (HomeLinkAudience::Staff, Some(r)) => r.rank() >= UserRole::Staff.rank(),
        (HomeLinkAudience::Member, None) => false,
        (HomeLinkAudience::Staff, None) => false,
    }
}

/// A staff link is seen by no one who cannot see a member link: the gated
/// audiences follow the role hierarchy.
pub proof fn law_staff_links_narrower_than_member_links(viewer: Option<UserRole>)
    ensures
        visible(HomeLinkAudience::Staff, viewer) ==> visible(HomeLinkAudience::Member, viewer),
        visible(HomeLinkAudience::Member, viewer) ==> visible(HomeLinkAudience::LoggedIn, viewer),
        visible(HomeLinkAudience::Anonymous, viewer) != visible(HomeLinkAudience::LoggedIn, viewer),
        visible(HomeLinkAudience::Everyone, viewer),
{
}

/// A stored home link, as the listing reads it.
#[derive(Debug)]
pub struct HomeLinkRow {
    /// The link's id, as the 128-bit value of its UUID.
    pub id: u128,
    pub label: String,
    pub url: String,
    pub description: Option<String>,
    pub icon: Option<String>,
    /// The stored audience name.
    pub audience: String,
    pub sort_order: i32,
    pub enabled: bool,
    pub expires_at: Option<Timestamp>,
}

/// Whether the public listing shows `row` to `viewer` at instant `now`: the
/// link is enabled, has not expired (no expiry never expires), names a known
/// audience, and that audience is visible to the viewer.
pub open spec fn publicly_shown(row: HomeLinkRow, viewer: Option<UserRole>, now: Timestamp) -> bool {
    &&& row.enabled
    &&& (row.expires_at matches Some(t) ==> before(now, t))
    &&& audience_of(row.audience@) matches Some(a) && visible(a, viewer)
}

/// The public, audience-filtered listing: the rows shown to `viewer` at
/// `now`, in their stored order.
pub fn public_links(rows: Vec<HomeLinkRow>, viewer: Option<UserRole>, now: Timestamp) -> (r: Vec<HomeLinkRow>)
    ensures
        r@ == rows@.filter(|row: HomeLinkRow| publicly_shown(row, viewer, now)),
{
    let ghost all = rows@;
    let mut rest = rows;
    let n = rest.len();
    let mut out: Vec<HomeLinkRow> = Vec::new();
    let mut i: usize = 0;
    while i < n
        invariant
            n == all.len(),
            i <= n,
            rest@ == all.subrange(i as int, n as int),
            out@ == all.subrange(0, i as int).filter(|row: HomeLinkRow| publicly_shown(row, viewer, now)),
        decreases n - i,
    {
        let row = rest.remove(0);
        proof {
            let p = all.subrange(0, i as int + 1);
            assert(row == all[i as int]);
            assert(p.drop_last() =~= all.subrange(0, i as int));
            assert(p.last() == row);
            reveal(Seq::filter);
            assert(rest@ =~= all.subrange(i as int + 1, n as int));
        }
        let live = match row.expires_at {
            Some(t) => now.is_before(&t),
            None => true,
        };
        let shown = row.enabled && live && match HomeLinkAudience::parse(row.audience.as_str()) {
            Some(a) => visible_to(a, viewer.as_ref()),
            None => false,
        };
        if shown {
            out.push(row);
        }
        i = i + 1;
    }
    assert(all.subrange(0, n as int) =~= all);
    out
}

/// The audience an admin sees for a stored name: an unknown name reads as
/// `everyone`.
pub fn audience_or_everyone(stored: &str) -> (a: HomeLinkAudience)
    ensures
        a == match audience_of(stored@) {
            Some(x) => x,
            None => HomeLinkAudience::Everyone,
        },
{
    match HomeLinkAudience::parse(stored) {
        Some(a) => a,
        None => HomeLinkAudience::Everyone,
    }
}

/// Check a new link's label and URL: both are required (not blank), and
/// both are stored trimmed.
pub open spec fn new_link_spec(label: Seq<char>, url: Seq<char>) -> Result<(Seq<char>, Seq<char>), ApiErrorView> {
    if trim(label).len() == 0 {
        Err(api_err(ApiErrorKind::BadRequest, "label is required"@))
    } else if trim(url).len() == 0 {
        Err(api_err(ApiErrorKind::BadRequest, "url is required"@))
    } else {
        Ok((trim(label), trim(url)))
    }
}

/// Validate a new link's label and URL, returning them trimmed.
pub fn validate_new_link(label: &str, url: &str) -> (r: Result<(String, String), ApiError>)
    ensures
        match r {
            Ok((l, u)) => new_link_spec(label@, url@) == Ok::<(Seq<char>, Seq<char>), ApiErrorView>((l@, u@)),
            Err(e) => new_link_spec(label@, url@) == Err::<(Seq<char>, Seq<char>), ApiErrorView>(e@),
        },
{
    let l = trim_str(label);
    if l.as_str().is_empty() {
        return Err(error_with(ApiErrorKind::BadRequest, "label is required"));
    }
    let u = trim_str(url);
    if u.as_str().is_empty() {
        return Err(error_with(ApiErrorKind::BadRequest, "url is required"));
    }
    Ok((l, u))
}

} // verus!
