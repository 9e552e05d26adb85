//! Space devices (edge controllers and kiosks): redeeming an invite code,
//! reading a device's kind and platform, and how devices and invites are
//! listed.

use vstd::prelude::*;
use vstd::string::*;
use crate::errors::{api_err, error_with, ApiError, ApiErrorKind, ApiErrorView};
use crate::models::{before, Timestamp};
use crate::text::{chars_of, str_is, to_lowercase, unicode_lowercase};

verus! {

/// What a device is.
#[derive(Clone, Copy, Debug, PartialEq, Eq, Structural)]
pub enum SpaceDeviceKind {
    Edge,
    Kiosk,
}

/// What a device runs on.
#[derive(Clone, Copy, Debug, PartialEq, Eq, Structural)]
pub enum SpaceDevicePlatform {
    Windows,
    Linux,
    MacOs,
    Other,
}

/// The kind a (case-insensitive) name denotes.
pub open spec fn kind_of(name: Seq<char>) -> Option<SpaceDeviceKind> {
    let l = unicode_lowercase(name);
    if l == "edge"@ {
        Some(SpaceDeviceKind::Edge)
    } else if l == "kiosk"@ {
        Some(SpaceDeviceKind::Kiosk)
    } else {
        None
    }
}

/// The platform a (case-insensitive) name denotes.
pub open spec fn platform_of(name: Seq<char>) -> Option<SpaceDevicePlatform> {
    let l = unicode_lowercase(name);
    if l == "windows"@ {
        Some(SpaceDevicePlatform::Windows)
    } else if l == "linux"@ {
        Some(SpaceDevicePlatform::Linux)
    } else if l == "macos"@ {
        Some(SpaceDevicePlatform::MacOs)
    } else if l == "other"@ {
        Some(SpaceDevicePlatform::Other)
    } else {
        None
    }
}

/// The invite a device code was found to belong to.
#[derive(Clone, Copy, Debug)]
pub struct InviteState {
    pub used: bool,
    pub expires_at: Timestamp,
}

/// How a registration is decided: the code must name an unused, unexpired
/// invite, and the kind and platform must be known.
pub open spec fn registration_spec(invite: Option<InviteState>, now: Timestamp, kind: Seq<char>, platform: Seq<char>) -> Result<(SpaceDeviceKind, SpaceDevicePlatform), ApiErrorView> {
    match invite {
        None => Err(api_err(ApiErrorKind::BadRequest, "Invalid device code"@)),
        Some(i) => if i.used {
            Err(api_err(ApiErrorKind::BadRequest, "Device code has already been used"@))
        } else if before(i.expires_at, now) {
            Err(api_err(ApiErrorKind::BadRequest, "Device code has expired"@))
        } else {
            match kind_of(kind) {
                None => Err(api_err(ApiErrorKind::BadRequest, "Invalid device kind"@)),
                Some(k) => match platform_of(platform) {
                    None => Err(api_err(ApiErrorKind::BadRequest, "Invalid platform"@)),
                    Some(p) => Ok((k, p)),
                },
            }
        },
    }
}

/// Check a device registration against its invite (`None` when no invite
/// has the code) at instant `now`, and read its kind and platform.
pub fn check_registration(invite: Option<InviteState>, now: Timestamp, kind: &str, platform: &str) -> (r: Result<(SpaceDeviceKind, SpaceDevicePlatform), ApiError>)
    ensures
        match r {
            Ok(x) => registration_spec(invite, now, kind@, platform@) == Ok::<
                (SpaceDeviceKind, SpaceDevicePlatform),
                ApiErrorView,
            >(x),
            Err(e) => registration_spec(invite, now, kind@, platform@) == Err::<
                (SpaceDeviceKind, SpaceDevicePlatform),
                ApiErrorView,
            >(e@),
        },
{
    let i = match invite {
        None => {
            return Err(error_with(ApiErrorKind::BadRequest, "Invalid device code"));
        },
        Some(i) => i,
    };
    if i.used {
        return Err(error_with(ApiErrorKind::BadRequest, "Device code has already been used"));
    }
    if i.expires_at.is_before(&now) {
        return Err(error_with(ApiErrorKind::BadRequest, "Device code has expired"));
    }
    let k = to_lowercase(kind);
    let kc = chars_of(k.as_str());
    let parsed_kind = if str_is(kc.as_slice(), "edge") {
        SpaceDeviceKind::Edge
    } else if str_is(kc.as_slice(), "kiosk") {
        SpaceDeviceKind::Kiosk
    } else {
        return Err(error_with(ApiErrorKind::BadRequest, "Invalid device kind"));
    };
    let p = to_lowercase(platform);
    let pc = chars_of(p.as_str());
    let parsed_platform = if str_is(pc.as_slice(), "windows") {
        SpaceDevicePlatform::Windows
    } else if str_is(pc.as_slice(), "linux") {
        SpaceDevicePlatform::Linux
    } else if str_is(pc.as_slice(), "macos") {
        SpaceDevicePlatform::MacOs
    } else if str_is(pc.as_slice(), "other") {
        SpaceDevicePlatform::Other
    } else {
        return Err(error_with(ApiErrorKind::BadRequest, "Invalid platform"));
    };
    Ok((parsed_kind, parsed_platform))
}

/// A used or expired invite never registers a device.
pub proof fn law_spent_invites_register_nothing(i: InviteState, now: Timestamp, kind: Seq<char>, platform: Seq<char>)
    requires
        i.used || before(i.expires_at, now),
    ensures
        registration_spec(Some(i), now, kind, platform) is Err,
{
}

/// The invite as a successful registration leaves it: marked used, its
/// expiry unchanged.
pub open spec fn used_invite(i: InviteState) -> InviteState {
    InviteState { used: true, expires_at: i.expires_at }
}

/// What a successful registration writes back for its invite.
pub fn invite_after_registration(i: InviteState) -> (r: InviteState)
    ensures
        r == used_invite(i),
{
    InviteState { used: true, expires_at: i.expires_at }
}

/// An invite registers one device at most: once a registration has marked
/// it used, any later registration with its code, of any kind and platform
/// and at any time, is refused as already used.
pub proof fn law_an_invite_registers_one_device(
    i: InviteState,
    now: Timestamp,
    kind: Seq<char>,
    platform: Seq<char>,
    later: Timestamp,
    kind2: Seq<char>,
    platform2: Seq<char>,
)
    requires
        registration_spec(Some(i), now, kind, platform) is Ok,
    ensures
        registration_spec(Some(used_invite(i)), later, kind2, platform2) == Err::<
            (SpaceDeviceKind, SpaceDevicePlatform),
            ApiErrorView,
        >(api_err(ApiErrorKind::BadRequest, "Device code has already been used"@)),
{
}

/// The name a device's kind is listed under.
pub open spec fn kind_label(k: SpaceDeviceKind) -> Seq<char> {
    match k {
        SpaceDeviceKind::Edge => "edge"@,
        SpaceDeviceKind::Kiosk => "kiosk"@,
    }
}

/// The name a device's platform is listed under.
pub open spec fn platform_label(p: SpaceDevicePlatform) -> Seq<char> {
    match p {
        SpaceDevicePlatform::Windows => "windows"@,
        SpaceDevicePlatform::Linux => "linux"@,
        SpaceDevicePlatform::MacOs => "macos"@,
        SpaceDevicePlatform::Other => "other"@,
    }
}

impl SpaceDeviceKind {
    /// The name this kind is listed under.
    pub fn label(&self) -> (s: &'static str)
        ensures
            s@ == kind_label(*self),
    {
        match self {
            SpaceDeviceKind::Edge => "edge",
            SpaceDeviceKind::Kiosk => "kiosk",
        }
    }
}

impl SpaceDevicePlatform {
    /// The name this platform is listed under.
    pub fn label(&self) -> (s: &'static str)
        ensures
            s@ == platform_label(*self),
    {
        match self {
            SpaceDevicePlatform::Windows => "windows",
            SpaceDevicePlatform::Linux => "linux",
            SpaceDevicePlatform::MacOs => "macos",
            SpaceDevicePlatform::Other => "other",
        }
    }
}

/// How long, in seconds, a device stays online after it was last seen.
pub const ONLINE_WINDOW_SECONDS: i64 = 300;

/// Whether a device last seen at `last_seen` counts as online at `now`:
/// it was seen after `now` minus five minutes.
pub open spec fn online_spec(last_seen: Option<Timestamp>, now: Timestamp) -> bool {
    match last_seen {
        None => false,
        Some(t) => t.unix_seconds > now.unix_seconds - ONLINE_WINDOW_SECONDS || (t.unix_seconds
            == now.unix_seconds - ONLINE_WINDOW_SECONDS && t.nanos > now.nanos),
    }
}

/// Whether a device counts as online.
pub fn is_online(last_seen: Option<Timestamp>, now: Timestamp) -> (r: bool)
    ensures
        r == online_spec(last_seen, now),
{
    match last_seen {
        None => false,
        Some(t) => {
            let threshold: i128 = now.unix_seconds as i128 - ONLINE_WINDOW_SECONDS as i128;
            let seen: i128 = t.unix_seconds as i128;
            seen > threshold || (seen == threshold && t.nanos > now.nanos)
        },
    }
}

/// How an invite is listed: whether it has expired at `now`, and whether it
/// was used.
pub fn invite_flags(expires_at: Timestamp, used_at: Option<Timestamp>, now: Timestamp) -> (r: (bool, bool))
    ensures
        r.0 == before(expires_at, now),
        r.1 == used_at is Some,
{
    (expires_at.is_before(&now), used_at.is_some())
}

/// How many hours a new invite is valid for: as asked, or a day.
pub fn invite_validity_hours(requested: Option<i64>) -> (h: i64)
    ensures
        h == match requested {
            Some(x) => x,
            None => 24,
        },
{
    match requested {
        Some(x) => x,
        None => 24,
    }
}

/// Expiring an invite that matched no unused invite is a missing invite.
pub fn invite_expired(updated: usize) -> (r: Result<(), ApiError>)
    ensures
        updated == 0 ==> (r matches Err(e) && e@ == api_err(
            ApiErrorKind::NotFound,
            "Device invite not found or already used"@,
        )),
        updated > 0 ==> r is Ok,
{
    if updated == 0 {
        return Err(error_with(ApiErrorKind::NotFound, "Device invite not found or already used"));
    }
    Ok(())
}

/// A device that is missing or deleted is not found.
pub fn live_device<T>(found: Option<T>) -> (r: Result<T, ApiError>)
    ensures
        match found {
            Some(d) => r matches Ok(x) && x == d,
            None => r matches Err(e) && e@ == api_err(ApiErrorKind::NotFound, "Device not found"@),
        },
{
    match found {
        Some(d) => Ok(d),
        None => Err(error_with(ApiErrorKind::NotFound, "Device not found")),
    }
}

} // verus!
