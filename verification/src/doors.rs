//! Door access decisions: the QR check-in, the door information page,
//! remote unlocks, and the checks on door records.
//!
//! Whether a member may open a door is decided by the door service's rule
//! evaluation; what happens with that verdict (what is recorded, whether an
//! unlock is published, what the member is told) is decided here.

use vstd::prelude::*;
use vstd::string::*;
use crate::errors::{api_err, error_with, ApiError, ApiErrorKind, ApiErrorView};
use crate::models::{uuid_hyphenated, uuid_text};
use crate::text::{
    chars_of, replace_all, replace_str, split_once, split_once_chars, string_from_chars,
    strip_trailing, trim, trim_chars, trim_end_char, trim_str,
};

verus! {

/// The verdict of evaluating a door's access rules for a member.
#[derive(Clone, Debug)]
pub enum AccessDecision {
    Allow,
    Deny(String),
}

/// Refuse every door operation while the door module is switched off.
pub fn require_door_module(enabled: bool) -> (r: Result<(), ApiError>)
    ensures
        enabled ==> r is Ok,
        !enabled ==> (r matches Err(e) && e@ == api_err(
            ApiErrorKind::Forbidden,
            "Door module is disabled in server configuration"@,
        )),
{
    if !enabled {
        return Err(error_with(ApiErrorKind::Forbidden, "Door module is disabled in server configuration"));
    }
    Ok(())
}

/// The client address of a request, from its `X-Forwarded-For` header (the
/// first address, trimmed) or else its `X-Real-IP` header. Each header is
/// given as its text, when it is readable as text.
pub open spec fn client_ip_spec(forwarded_for: Option<Seq<char>>, real_ip: Option<Seq<char>>) -> Option<Seq<char>> {
    match forwarded_for {
        Some(v) => Some(
            trim(
                match split_once(v, ',') {
                    Some((first, _)) => first,
                    None => v,
                },
            ),
        ),
        None => real_ip,
    }
}

/// The view of an optional text.
pub open spec fn opt_view(s: Option<&str>) -> Option<Seq<char>> {
    match s {
        Some(x) => Some(x@),
        None => None,
    }
}

/// Best-effort client address for the check-in log.
pub fn client_ip(forwarded_for: Option<&str>, real_ip: Option<&str>) -> (r: Option<String>)
    ensures
        match r {
            Some(s) => client_ip_spec(opt_view(forwarded_for), opt_view(real_ip)) == Some(s@),
            None => client_ip_spec(opt_view(forwarded_for), opt_view(real_ip)) is None,
        },
{
    match forwarded_for {
        Some(v) => {
            let cs = chars_of(v);
            let first = match split_once_chars(cs.as_slice(), ',') {
                Some((a, _)) => a,
                None => cs,
            };
            let t = trim_chars(first.as_slice());
            Some(string_from_chars(t.as_slice()))
        },
        None => match real_ip {
            Some(s) => Some(String::from_str(s)),
            None => None,
        },
    }
}

/// What a QR check-in does with the rules' verdict.
#[derive(Debug)]
pub struct CheckinPlan {
    /// Whether access is granted; the access event records it either way.
    pub granted: bool,
    /// Why access was denied.
    pub reason: Option<String>,
    /// The edge device to send the unlock to, when access is granted and
    /// the door has one (otherwise the unlock is only logged).
    pub unlock_device: Option<u128>,
    /// Whether a presence row is written.
    pub record_presence: bool,
}

/// Decide a QR check-in: an allowed member gets a presence row and an
/// unlock on the door's device; a denied one is told why, and nothing is
/// unlocked.
pub fn checkin_plan(decision: AccessDecision, edge_device: Option<u128>) -> (p: CheckinPlan)
    ensures
        match decision {
            AccessDecision::Allow => p.granted && p.reason is None && p.record_presence
                && p.unlock_device == edge_device,
            AccessDecision::Deny(r) => !p.granted && (p.reason matches Some(x) && x@ == r@)
                && !p.record_presence && p.unlock_device is None,
        },
{
    match decision {
        AccessDecision::Allow => CheckinPlan {
            granted: true,
            reason: None,
            unlock_device: edge_device,
            record_presence: true,
        },
        AccessDecision::Deny(r) => CheckinPlan {
            granted: false,
            reason: Some(r),
            unlock_device: None,
            record_presence: false,
        },
    }
}

/// A door is unlocked by a check-in only when the rules allowed it.
pub proof fn law_no_unlock_without_allow(p: CheckinPlan, decision: AccessDecision, edge_device: Option<u128>)
    requires
        match decision {
            AccessDecision::Allow => p.granted && p.reason is None && p.record_presence
                && p.unlock_device == edge_device,
            AccessDecision::Deny(r) => !p.granted && (p.reason matches Some(x) && x@ == r@)
                && !p.record_presence && p.unlock_device is None,
        },
    ensures
        p.unlock_device is Some ==> decision is Allow,
        p.record_presence <==> p.granted,
{
}

/// What a member is told on the door's landing page: whether they are
/// authorised, and if not why.
pub fn door_authorization(decision: AccessDecision) -> (r: (bool, Option<String>))
    ensures
        match decision {
            AccessDecision::Allow => r.0 && r.1 is None,
            AccessDecision::Deny(x) => !r.0 && (r.1 matches Some(m) && m@ == x@),
        },
{
    match decision {
        AccessDecision::Allow => (true, None),
        AccessDecision::Deny(r) => (false, Some(r)),
    }
}

/// The device a remote unlock is sent to: the door must be enabled and
/// have an edge device.
pub fn admin_unlock_target(door_enabled: bool, edge_device: Option<u128>) -> (r: Result<u128, ApiError>)
    ensures
        !door_enabled ==> (r matches Err(e) && e@ == api_err(ApiErrorKind::BadRequest, "Door is disabled"@)),
        door_enabled && edge_device is None ==> (r matches Err(e) && e@ == api_err(
            ApiErrorKind::BadRequest,
            "Door has no edge device"@,
        )),
        door_enabled && edge_device is Some ==> r == Ok::<u128, ApiError>(edge_device->0),
{
    if !door_enabled {
        return Err(error_with(ApiErrorKind::BadRequest, "Door is disabled"));
    }
    match edge_device {
        Some(d) => Ok(d),
        None => Err(error_with(ApiErrorKind::BadRequest, "Door has no edge device")),
    }
}

/// The settings of a new door, from the request and the configured default
/// unlock duration: a name is required (not blank); the duration defaults to
/// the configured one, and a door is enabled unless the request says
/// otherwise.
pub fn new_door_settings(name: &str, unlock_duration_ms: Option<i32>, enabled: Option<bool>, default_unlock_ms: i32) -> (r: Result<(i32, bool), ApiError>)
    ensures
        trim(name@).len() == 0 ==> (r matches Err(e) && e@ == api_err(ApiErrorKind::BadRequest, "name is required"@)),
        trim(name@).len() > 0 ==> (r matches Ok((d, en)) && d == (match unlock_duration_ms {
            Some(x) => x,
            None => default_unlock_ms,
        }) && en == (match enabled {
            Some(b) => b,
            None => true,
        })),
{
    let t = trim_str(name);
    if t.as_str().is_empty() {
        return Err(error_with(ApiErrorKind::BadRequest, "name is required"));
    }
    let d = match unlock_duration_ms {
        Some(x) => x,
        None => default_unlock_ms,
    };
    let en = match enabled {
        Some(b) => b,
        None => true,
    };
    Ok((d, en))
}

/// The devices whose door snapshot is republished after a door changes:
/// the door's device (when the module is on), and the previous device when
/// the door moved away from it.
pub fn republish_after_update(module_enabled: bool, previous: Option<u128>, current: Option<u128>) -> (r: Vec<u128>)
    ensures
        r@ == (if module_enabled && current is Some {
            seq![current->0]
        } else {
            Seq::empty()
        }) + (if previous != current && previous is Some {
            seq![previous->0]
        } else {
            Seq::empty()
        }),
{
    let mut r: Vec<u128> = Vec::new();
    if module_enabled {
        if let Some(d) = current {
            r.push(d);
        }
    }
    if previous != current {
        if let Some(old) = previous {
            r.push(old);
        }
    }
    proof {
        assert(r@ =~= (if module_enabled && current is Some {
            seq![current->0]
        } else {
            Seq::empty()
        }) + (if previous != current && previous is Some {
            seq![previous->0]
        } else {
            Seq::empty()
        }));
    }
    r
}

/// A delete that removed nothing is a missing door.
pub fn door_deleted(count: usize) -> (r: Result<(), ApiError>)
    ensures
        count == 0 ==> (r matches Err(e) && e@ == api_err(ApiErrorKind::NotFound, "Door not found"@)),
        count > 0 ==> r is Ok,
{
    if count == 0 {
        return Err(error_with(ApiErrorKind::NotFound, "Door not found"));
    }
    Ok(())
}

/// The answer to a QR check-in.
#[derive(Clone, Debug)]
pub struct CheckinResponse {
    pub unlocked: bool,
    pub reason: Option<String>,
}

/// What the member is told about a check-in: unlocked exactly when access
/// was granted, with the reason of a refusal.
pub fn checkin_response(p: &CheckinPlan) -> (r: CheckinResponse)
    ensures
        r.unlocked == p.granted,
        match p.reason {
            Some(x) => r.reason matches Some(y) && y@ == x@,
            None => r.reason is None,
        },
{
    let reason = match &p.reason {
        Some(x) => Some(String::from_str(x.as_str())),
        None => None,
    };
    CheckinResponse { unlocked: p.granted, reason }
}

/// A page of a door's access events.
#[derive(Clone, Copy, Debug)]
pub struct EventsQuery {
    pub limit: Option<i64>,
    pub offset: Option<i64>,
}

impl EventsQuery {
    /// The limit (default 100, kept within 1..=500) and the offset (default
    /// 0, never negative) of the page.
    pub fn window(&self) -> (r: (i64, i64))
        ensures
            r.0 == ({
                let l = match self.limit {
                    Some(x) => x,
                    None => 100,
                };
                if l < 1 {
                    1
                } else if l > 500 {
                    500
                } else {
                    l
                }
            }),
            r.1 == ({
                let o = match self.offset {
                    Some(x) => x,
                    None => 0,
                };
                if o < 0 {
                    0
                } else {
                    o
                }
            }),
    {
        let l: i64 = match self.limit {
            Some(x) => x,
            None => 100,
        };
        let limit: i64 = if l < 1 {
            1
        } else if l > 500 {
            500
        } else {
            l
        };
        let o: i64 = match self.offset {
            Some(x) => x,
            None => 0,
        };
        let offset: i64 = if o < 0 {
            0
        } else {
            o
        };
        (limit, offset)
    }
}

/// The link a door's QR code encodes.
#[derive(Clone, Debug)]
pub struct QrResponse {
    pub url: String,
}

/// The QR link of a door: the configured template with `{site_url}`
/// replaced by the site's URL (without trailing slashes) and `{door_id}` by
/// the door's id.
pub open spec fn qr_url_spec(template: Seq<char>, site_url: Seq<char>, door: u128) -> Seq<char> {
    replace_all(
        replace_all(template, "{site_url}"@, strip_trailing(site_url, '/')),
        "{door_id}"@,
        uuid_hyphenated(door),
    )
}

/// Build the QR link of a door.
pub fn qr_response(template: &str, site_url: &str, door: u128) -> (r: QrResponse)
    ensures
        r.url@ == qr_url_spec(template@, site_url@, door),
{
    proof {
        reveal_strlit("{site_url}");
        reveal_strlit("{door_id}");
    }
    let base = trim_end_char(site_url, '/');
    let first = replace_str(template, "{site_url}", base.as_str());
    let id = uuid_text(door);
    let url = replace_str(first.as_str(), "{door_id}", id.as_str());
    QrResponse { url }
}

/// The value stored with a new door rule. An open-access rule holds the
/// door open for everyone during its window, so it carries no value and
/// must have a schedule (unscheduled, it would hold the door open forever);
/// any other rule needs a value.
pub open spec fn rule_value_spec(open_access: bool, value: Seq<char>, schedule: Option<u128>) -> Result<Seq<char>, ApiErrorView> {
    if open_access {
        if schedule is None {
            Err(api_err(ApiErrorKind::BadRequest, "open_access rules require a schedule"@))
        } else {
            Ok(Seq::empty())
        }
    } else if trim(value).len() == 0 {
        Err(api_err(ApiErrorKind::BadRequest, "value is required"@))
    } else {
        Ok(value)
    }
}

/// Check a new door rule and give the value to store.
pub fn rule_value(open_access: bool, value: String, schedule: Option<u128>) -> (r: Result<String, ApiError>)
    ensures
        match r {
            Ok(v) => rule_value_spec(open_access, value@, schedule) == Ok::<Seq<char>, ApiErrorView>(v@),
            Err(e) => rule_value_spec(open_access, value@, schedule) == Err::<Seq<char>, ApiErrorView>(e@),
        },
{
    if open_access {
        if schedule.is_none() {
            return Err(error_with(ApiErrorKind::BadRequest, "open_access rules require a schedule"));
        }
        return Ok(String::new());
    }
    let t = trim_str(value.as_str());
    if t.as_str().is_empty() {
        return Err(error_with(ApiErrorKind::BadRequest, "value is required"));
    }
    Ok(value)
}

/// An open-access rule never holds a door open without a schedule.
pub proof fn law_open_access_needs_a_window(value: Seq<char>, schedule: Option<u128>)
    requires
        rule_value_spec(true, value, schedule) is Ok,
    ensures
        schedule is Some,
{
}

/// A rule delete that removed nothing is a missing rule.
pub fn rule_deleted(count: usize) -> (r: Result<(), ApiError>)
    ensures
        count == 0 ==> (r matches Err(e) && e@ == api_err(ApiErrorKind::NotFound, "Rule not found"@)),
        count > 0 ==> r is Ok,
{
    if count == 0 {
        return Err(error_with(ApiErrorKind::NotFound, "Rule not found"));
    }
    Ok(())
}

} // verus!
