//! The decisions of the ToolGuard controller API, which energises and
//! de-energises physical machinery.
//!
//! A tool is switched on only when every gate passes, in this order: the
//! request's API key, the presented card (active, not revoked or unknown),
//! the member's account (active), the tool (known, idle), training, and for
//! a metered tool its own key and an authorised billing session. Switching a
//! tool off is never refused for a revoked card: an open session must still
//! close. The database reads, audit writes and broadcasts around these
//! decisions are the caller's.

use vstd::prelude::*;
use vstd::string::*;
use crate::errors::{api_err, error_joined, error_with, ApiError, ApiErrorKind, ApiErrorView};
use crate::models::{uuid_hyphenated, uuid_text, Timestamp, ToolStatus};
use crate::decimal::Decimal;
use crate::tools::ToolEventPlan;
use crate::text::{chars_of, chars_eq, push_decimal, string_from_chars, append_str};

verus! {

// ---------------------------------------------------------------------------
// Responses
// ---------------------------------------------------------------------------

/// The standard ToolGuard API response.
#[derive(Debug)]
pub struct ToolGuardResponse {
    pub status: String,
    pub message: Option<String>,
    pub tool_on: Option<bool>,
    pub tool_off: Option<bool>,
}

/// A response as plain values.
pub struct ToolGuardResponseView {
    pub status: Seq<char>,
    pub message: Option<Seq<char>>,
    pub tool_on: Option<bool>,
    pub tool_off: Option<bool>,
}

impl View for ToolGuardResponse {
    type V = ToolGuardResponseView;

    open spec fn view(&self) -> ToolGuardResponseView {
        ToolGuardResponseView {
            status: self.status@,
            message: match self.message {
                Some(m) => Some(m@),
                None => None,
            },
            tool_on: self.tool_on,
            tool_off: self.tool_off,
        }
    }
}

/// The response with the given parts.
pub open spec fn tg(
    status: Seq<char>,
    message: Option<Seq<char>>,
    tool_on: Option<bool>,
    tool_off: Option<bool>,
) -> ToolGuardResponseView {
    ToolGuardResponseView { status, message, tool_on, tool_off }
}

impl ToolGuardResponse {
    /// `ok`, nothing else.
    pub fn ok() -> (r: Self)
        ensures
            r@ == tg("ok"@, None, None, None),
    {
        ToolGuardResponse { status: String::from_str("ok"), message: None, tool_on: None, tool_off: None }
    }

    /// `ok` with a message.
    pub fn ok_with_message(message: &str) -> (r: Self)
        ensures
            r@ == tg("ok"@, Some(message@), None, None),
    {
        ToolGuardResponse {
            status: String::from_str("ok"),
            message: Some(String::from_str(message)),
            tool_on: None,
            tool_off: None,
        }
    }

    /// `error` with a message.
    pub fn error(message: &str) -> (r: Self)
        ensures
            r@ == tg("error"@, Some(message@), None, None),
    {
        ToolGuardResponse {
            status: String::from_str("error"),
            message: Some(String::from_str(message)),
            tool_on: None,
            tool_off: None,
        }
    }

    /// The tool may be switched on.
    pub fn tool_authorized() -> (r: Self)
        ensures
            r@ == tg("ok"@, Some("Tool authorized"@), Some(true), None),
    {
        ToolGuardResponse {
            status: String::from_str("ok"),
            message: Some(String::from_str("Tool authorized")),
            tool_on: Some(true),
            tool_off: None,
        }
    }

    /// The tool may not be switched on, and why.
    pub fn tool_denied(reason: &str) -> (r: Self)
        ensures
            r@ == tg("error"@, Some(reason@), Some(false), None),
    {
        ToolGuardResponse {
            status: String::from_str("error"),
            message: Some(String::from_str(reason)),
            tool_on: Some(false),
            tool_off: None,
        }
    }

    /// The tool was switched off.
    pub fn tool_off_ok() -> (r: Self)
        ensures
            r@ == tg("ok"@, Some("Tool deactivated"@), None, Some(true)),
    {
        ToolGuardResponse {
            status: String::from_str("ok"),
            message: Some(String::from_str("Tool deactivated")),
            tool_on: None,
            tool_off: Some(true),
        }
    }
}

/// The request parameters of `tool-on`, `tool-off`.
#[derive(Debug)]
pub struct ToolRequest {
    pub card: String,
    pub tool_id: String,
    pub api_key: Option<String>,
}

// ---------------------------------------------------------------------------
// Keys
// ---------------------------------------------------------------------------

/// The parts of a tool the gates read.
#[derive(Clone, Debug)]
pub struct ToolInfo {
    /// The tool's id, as the 128-bit value of its UUID.
    pub id: u128,
    pub external_api_key: Option<String>,
    pub status: ToolStatus,
    pub requires_training: bool,
}

/// The tool key as plain characters.
pub open spec fn tool_key(t: ToolInfo) -> Option<Seq<char>> {
    match t.external_api_key {
        Some(k) => Some(k@),
        None => None,
    }
}

/// Whether `api_key` is accepted for `tool`: it is not empty, and equals the
/// tool's own (non-empty) key or the (non-empty) global key.
pub open spec fn api_key_valid(api_key: Seq<char>, tool: Option<ToolInfo>, global_key: Option<Seq<char>>) -> bool {
    &&& api_key.len() > 0
    &&& {
        ||| (tool matches Some(t) && tool_key(t) matches Some(k) && k.len() > 0 && k == api_key)
        ||| (global_key matches Some(g) && g.len() > 0 && g == api_key)
    }
}

/// Whether two strings hold the same characters.
fn same(a: &str, b: &str) -> (r: bool)
    ensures
        r == (a@ == b@),
{
    let x = chars_of(a);
    let y = chars_of(b);
    chars_eq(x.as_slice(), y.as_slice())
}

/// The view of an optional string.
pub open spec fn opt_view(s: Option<&str>) -> Option<Seq<char>> {
    match s {
        Some(x) => Some(x@),
        None => None,
    }
}

/// Accept a controller's API key: the tool's own key or the global key,
/// neither of which may be empty, and never an empty key.
pub fn validate_api_key(api_key: &str, tool: Option<&ToolInfo>, global_key: Option<&str>) -> (r: bool)
    ensures
        r == api_key_valid(
            api_key@,
            match tool {
                Some(t) => Some(*t),
                None => None,
            },
            opt_view(global_key),
        ),
{
    if api_key.is_empty() {
        return false;
    }
    if let Some(t) = tool {
        if let Some(k) = &t.external_api_key {
            if !k.as_str().is_empty() && same(k.as_str(), api_key) {
                return true;
            }
        }
    }
    if let Some(g) = global_key {
        if !g.is_empty() && same(g, api_key) {
            return true;
        }
    }
    false
}

/// Whether a metered tool's request carries the tool's own key.
pub open spec fn metered_key_valid(api_key: Option<Seq<char>>, tool: ToolInfo) -> bool {
    api_key matches Some(p) && tool_key(tool) matches Some(k) && k.len() > 0 && p == k
}

/// Metered tools must authenticate with their own key, not the global key
/// (and not a bare device token). A metered tool with no key can never pass.
pub fn metered_key_ok(api_key: Option<&str>, tool: &ToolInfo) -> (r: bool)
    ensures
        r == metered_key_valid(opt_view(api_key), *tool),
{
    match (api_key, &tool.external_api_key) {
        (Some(provided), Some(k)) => !k.as_str().is_empty() && same(provided, k.as_str()),
        _ => false,
    }
}

/// The global key never satisfies a metered tool unless it is the tool's
/// own key too.
pub proof fn law_metered_needs_own_key(api_key: Seq<char>, tool: ToolInfo)
    requires
        metered_key_valid(Some(api_key), tool),
    ensures
        tool_key(tool) == Some(api_key),
        api_key_valid(api_key, Some(tool), None),
{
}

/// The configured global key is accepted on its own, whatever the tool:
/// found or not, with a key of its own or without one.
pub proof fn law_global_key_accepted_for_any_tool(g: Seq<char>, tool: Option<ToolInfo>)
    requires
        g.len() > 0,
    ensures
        api_key_valid(g, tool, Some(g)),
        authorize_verdict(DeviceCheck::Rejected, Some(g), tool, Some(g)) == Ok::<(), ApiErrorView>(()),
{
}

/// A tool's own (non-empty) key is accepted for it, whatever the global
/// key is or whether there is one.
pub proof fn law_own_key_accepted_whatever_the_global_key(tool: ToolInfo, global_key: Option<Seq<char>>)
    requires
        tool_key(tool) matches Some(k) && k.len() > 0,
    ensures
        api_key_valid(tool_key(tool)->0, Some(tool), global_key),
        authorize_verdict(DeviceCheck::Rejected, tool_key(tool), Some(tool), global_key) == Ok::<
            (),
            ApiErrorView,
        >(()),
{
}

/// A key that is neither the tool's own key nor the global key is refused.
pub proof fn law_foreign_key_refused(api_key: Seq<char>, tool: Option<ToolInfo>, global_key: Option<Seq<char>>)
    requires
        !(tool matches Some(t) && tool_key(t) == Some(api_key)),
        global_key != Some(api_key),
    ensures
        !api_key_valid(api_key, tool, global_key),
{
}

// ---------------------------------------------------------------------------
// Authenticating the controller
// ---------------------------------------------------------------------------

/// How checking the device token of a request went.
#[derive(Debug)]
pub enum DeviceCheck {
    /// A registered device's token.
    Accepted,
    /// The database failed while looking the token up.
    Fault(ApiError),
    /// No token, or one that is not registered.
    Rejected,
}

/// The verdict on a controller request.
pub open spec fn authorize_verdict(
    device: DeviceCheck,
    api_key: Option<Seq<char>>,
    tool: Option<ToolInfo>,
    global_key: Option<Seq<char>>,
) -> Result<(), ApiErrorView> {
    match device {
        DeviceCheck::Accepted => Ok(()),
        DeviceCheck::Fault(e) => Err(e@),
        DeviceCheck::Rejected => if api_key matches Some(k) && k.len() > 0 && api_key_valid(
            k,
            tool,
            global_key,
        ) {
            Ok(())
        } else {
            Err(
                api_err(
                    ApiErrorKind::Unauthorized,
                    "ToolGuard operations require a registered device token or a valid API key"@,
                ),
            )
        },
    }
}

/// The view of a unit result.
pub open spec fn unit_view(r: Result<(), ApiError>) -> Result<(), ApiErrorView> {
    match r {
        Ok(()) => Ok(()),
        Err(e) => Err(e@),
    }
}

/// Authenticate a ToolGuard tool operation: a registered device's token, or
/// else the tool's own key or the global key. A database fault while
/// checking the device stays a fault rather than becoming "not
/// authenticated".
pub fn authorize_toolguard(
    device: DeviceCheck,
    api_key: Option<&str>,
    tool: Option<&ToolInfo>,
    global_key: Option<&str>,
) -> (r: Result<(), ApiError>)
    ensures
        unit_view(r) == authorize_verdict(
            device,
            opt_view(api_key),
            match tool {
                Some(t) => Some(*t),
                None => None,
            },
            opt_view(global_key),
        ),
{
    match device {
        DeviceCheck::Accepted => {
            return Ok(());
        },
        DeviceCheck::Fault(e) => {
            return Err(e);
        },
        DeviceCheck::Rejected => {},
    }
    if let Some(key) = api_key {
        if !key.is_empty() && validate_api_key(key, tool, global_key) {
            return Ok(());
        }
    }
    Err(
        error_with(
            ApiErrorKind::Unauthorized,
            "ToolGuard operations require a registered device token or a valid API key",
        ),
    )
}

/// The token of a device's `Authorization: Bearer` header.
pub open spec fn device_token_spec(header: Option<Seq<char>>) -> Result<Seq<char>, ApiErrorView> {
    match header {
        None => Err(api_err(ApiErrorKind::Unauthorized, "Missing Authorization header"@)),
        Some(h) => if h.len() >= 7 && h.subrange(0, 7) == "Bearer "@ {
            Ok(h.subrange(7, h.len() as int))
        } else {
            Err(api_err(ApiErrorKind::Unauthorized, "Invalid Authorization format"@))
        },
    }
}

/// The token of a device's `Authorization: Bearer` header.
pub fn device_token(header: Option<&str>) -> (r: Result<String, ApiError>)
    ensures
        match r {
            Ok(t) => device_token_spec(opt_view(header)) == Ok::<Seq<char>, ApiErrorView>(t@),
            Err(e) => device_token_spec(opt_view(header)) == Err::<Seq<char>, ApiErrorView>(e@),
        },
{
    let h = match header {
        None => {
            return Err(error_with(ApiErrorKind::Unauthorized, "Missing Authorization header"));
        },
        Some(h) => h,
    };
    let cs = chars_of(h);
    let prefix = chars_of("Bearer ");
    if cs.len() >= 7 && chars_eq(&cs.as_slice()[0..7], prefix.as_slice()) {
        let rest = crate::text::sub_chars(cs.as_slice(), 7, cs.len());
        Ok(string_from_chars(rest.as_slice()))
    } else {
        Err(error_with(ApiErrorKind::Unauthorized, "Invalid Authorization format"))
    }
}

/// The device a token lookup found: a database failure is an internal
/// error, an unknown token is unauthorized.
pub fn device_from_lookup(lookup: Result<Option<u128>, String>) -> (r: Result<u128, ApiError>)
    ensures
        match lookup {
            Err(e) => r matches Err(x) && x@ == api_err(ApiErrorKind::InternalServerError, "DB error: "@ + e@),
            Ok(None) => r matches Err(x) && x@ == api_err(ApiErrorKind::Unauthorized, "Invalid device token"@),
            Ok(Some(id)) => r == Ok::<u128, ApiError>(id),
        },
{
    match lookup {
        Err(e) => Err(error_joined(ApiErrorKind::InternalServerError, "DB error: ", e.as_str())),
        Ok(None) => Err(error_with(ApiErrorKind::Unauthorized, "Invalid device token")),
        Ok(Some(id)) => Ok(id),
    }
}

// ---------------------------------------------------------------------------
// tool-on
// ---------------------------------------------------------------------------

/// What the presented card resolved to.
#[derive(Clone, Copy, Debug, PartialEq, Eq, Structural)]
pub enum CardOutcome {
    /// An active card: the member's id, whether the account is active, and
    /// the card's id when it is a first-class card.
    Active { user: u128, user_active: bool, card: Option<u128> },
    /// A known card that is disabled or released.
    Revoked { user: u128, user_active: bool },
    /// No card with this code.
    Unknown,
}

/// A refusal at a gate: what the controller is told, what the audit log
/// records, on whose behalf, and whether a revoked card was presented (the
/// distinct fraud signal).
#[derive(Debug)]
pub struct Denial {
    pub reason: &'static str,
    pub audit_reason: &'static str,
    pub user: Option<u128>,
    pub revoked_card: bool,
}

/// A refusal as plain values.
pub struct DenialView {
    pub reason: Seq<char>,
    pub audit_reason: Seq<char>,
    pub user: Option<u128>,
    pub revoked_card: bool,
}

impl View for Denial {
    type V = DenialView;

    open spec fn view(&self) -> DenialView {
        DenialView {
            reason: self.reason@,
            audit_reason: self.audit_reason@,
            user: self.user,
            revoked_card: self.revoked_card,
        }
    }
}

/// A refusal whose audit reason is its reason.
pub open spec fn deny(reason: Seq<char>, user: Option<u128>) -> DenialView {
    DenialView { reason, audit_reason: reason, user, revoked_card: false }
}

/// Why a tool in a given state cannot be switched on, if it cannot.
pub open spec fn status_denial(s: ToolStatus) -> Option<Seq<char>> {
    match s {
        ToolStatus::Idle => None,
        ToolStatus::InUse => Some("Tool is already in use"@),
        ToolStatus::Maintenance => Some("Tool is under maintenance"@),
        ToolStatus::Broken => Some("Tool is broken"@),
        ToolStatus::Repair => Some("Tool is in repair"@),
        ToolStatus::Retired => Some("Tool is retired"@),
    }
}

/// Why a tool in a given state cannot be switched on, if it cannot.
pub fn tool_status_denial(s: ToolStatus) -> (r: Option<&'static str>)
    ensures
        match r {
            Some(m) => status_denial(s) == Some(m@),
            None => status_denial(s) is None,
        },
{
    match s {
        ToolStatus::Idle => None,
        ToolStatus::InUse => Some("Tool is already in use"),
        ToolStatus::Maintenance => Some("Tool is under maintenance"),
        ToolStatus::Broken => Some("Tool is broken"),
        ToolStatus::Repair => Some("Tool is in repair"),
        ToolStatus::Retired => Some("Tool is retired"),
    }
}

/// The gates before training: key, card, account, tool, tool state.
pub open spec fn tool_on_gate_spec(key_ok: bool, card: CardOutcome, tool: Option<ToolStatus>) -> Result<u128, DenialView> {
    if !key_ok {
        Err(deny("Invalid or missing API key"@, None))
    } else {
        match card {
            CardOutcome::Unknown => Err(deny("Unknown card"@, None)),
            CardOutcome::Revoked { user, .. } => Err(
                DenialView {
                    reason: "Card not authorized"@,
                    audit_reason: "Card revoked"@,
                    user: Some(user),
                    revoked_card: true,
                },
            ),
            CardOutcome::Active { user, user_active, .. } => if !user_active {
                Err(deny("User is not active"@, Some(user)))
            } else {
                match tool {
                    None => Err(deny("Tool not found"@, Some(user))),
                    Some(s) => match status_denial(s) {
                        Some(m) => Err(deny(m, Some(user))),
                        None => Ok(user),
                    },
                }
            },
        }
    }
}

/// The view of a gate result.
pub open spec fn gate_view(r: Result<u128, Denial>) -> Result<u128, DenialView> {
    match r {
        Ok(u) => Ok(u),
        Err(d) => Err(d@),
    }
}

/// The gates a tool-on request passes before its training is checked: the
/// API key, the card (unknown or revoked cards are refused, a revoked one
/// with the distinct fraud signal), the member's account, the tool's
/// existence and its state. On success, the member's id.
pub fn tool_on_gate(key_ok: bool, card: CardOutcome, tool: Option<ToolStatus>) -> (r: Result<u128, Denial>)
    ensures
        gate_view(r) == tool_on_gate_spec(key_ok, card, tool),
{
    if !key_ok {
        return Err(
            Denial {
                reason: "Invalid or missing API key",
                audit_reason: "Invalid or missing API key",
                user: None,
                revoked_card: false,
            },
        );
    }
    let user = match card {
        CardOutcome::Unknown => {
            return Err(
                Denial { reason: "Unknown card", audit_reason: "Unknown card", user: None, revoked_card: false },
            );
        },
        CardOutcome::Revoked { user, .. } => {
            return Err(
                Denial {
                    reason: "Card not authorized",
                    audit_reason: "Card revoked",
                    user: Some(user),
                    revoked_card: true,
                },
            );
        },
        CardOutcome::Active { user, user_active, .. } => {
            if !user_active {
                return Err(
                    Denial {
                        reason: "User is not active",
                        audit_reason: "User is not active",
                        user: Some(user),
                        revoked_card: false,
                    },
                );
            }
            user
        },
    };
    let s = match tool {
        None => {
            return Err(
                Denial {
                    reason: "Tool not found",
                    audit_reason: "Tool not found",
                    user: Some(user),
                    revoked_card: false,
                },
            );
        },
        Some(s) => s,
    };
    match tool_status_denial(s) {
        Some(m) => Err(Denial { reason: m, audit_reason: m, user: Some(user), revoked_card: false }),
        None => Ok(user),
    }
}

/// The outcome of opening a billing session for a metered tool.
#[derive(Debug)]
pub enum SessionOutcome {
    Authorized,
    Denied(String),
}

/// The last gates: training, and for a metered tool (with billing enabled)
/// its own key and then an authorised session; a metered tool for which no
/// session was opened is refused. `None` means the tool may be switched on.
pub open spec fn tool_on_final_spec(
    user: u128,
    trained: bool,
    metered: bool,
    own_key: bool,
    session: Option<Result<(), Seq<char>>>,
) -> Option<(Seq<char>, Seq<char>)> {
    if !trained {
        Some(("Training required"@, "Training required"@))
    } else if metered && !own_key {
        Some(("Metered tool requires its own API key"@, "Metered tool requires its own API key"@))
    } else if metered {
        match session {
            Some(Err(reason)) => Some((reason, reason)),
            Some(Ok(())) => None,
            None => Some(("No open session for this tool"@, "No open session for this tool"@)),
        }
    } else {
        None
    }
}

/// The final verdict of a tool-on request, after the training check and
/// (for a metered tool) the billing session: the response, and the audit
/// reason of a refusal.
pub fn tool_on_finish(
    trained: bool,
    metered: bool,
    own_key: bool,
    session: Option<&SessionOutcome>,
) -> (r: (ToolGuardResponse, Option<String>))
    ensures
        ({
            let want = tool_on_final_spec(
                0,
                trained,
                metered,
                own_key,
                match session {
                    Some(SessionOutcome::Authorized) => Some(Ok(())),
                    Some(SessionOutcome::Denied(m)) => Some(Err(m@)),
                    None => None,
                },
            );
            match want {
                Some((reason, audit)) => r.0@ == tg("error"@, Some(reason), Some(false), None)
                    && (r.1 matches Some(a) && a@ == audit),
                None => r.0@ == tg("ok"@, Some("Tool authorized"@), Some(true), None) && r.1 is None,
            }
        }),
{
    if !trained {
        return (ToolGuardResponse::tool_denied("Training required"), Some(String::from_str("Training required")));
    }
    if metered {
        if !own_key {
            return (
                ToolGuardResponse::tool_denied("Metered tool requires its own API key"),
                Some(String::from_str("Metered tool requires its own API key")),
            );
        }
        match session {
            Some(SessionOutcome::Denied(reason)) => {
                return (ToolGuardResponse::tool_denied(reason.as_str()), Some(reason.clone()));
            },
            Some(SessionOutcome::Authorized) => {},
            None => {
                return (
                    ToolGuardResponse::tool_denied("No open session for this tool"),
                    Some(String::from_str("No open session for this tool")),
                );
            },
        }
    }
    (ToolGuardResponse::tool_authorized(), None)
}

/// A tool is switched on only when every gate passed: the key was valid,
/// the card active, the account active, the tool known and idle, the member
/// trained, and a metered tool presented its own key and got a session.
pub proof fn law_tool_on_only_when_every_gate_passes(
    key_ok: bool,
    card: CardOutcome,
    tool: Option<ToolStatus>,
    trained: bool,
    metered: bool,
    own_key: bool,
    session: Option<Result<(), Seq<char>>>,
)
    requires
        tool_on_gate_spec(key_ok, card, tool) is Ok,
        tool_on_final_spec(0, trained, metered, own_key, session) is None,
    ensures
        key_ok,
        card matches CardOutcome::Active { user_active, .. } && user_active,
        tool == Some(ToolStatus::Idle),
        trained,
        metered ==> own_key && !(session matches Some(Err(_))),
{
}

/// A revoked card is refused with the distinct fraud signal, and an unknown
/// card is refused without naming anyone.
pub proof fn law_revoked_and_unknown_cards_refused(key_ok: bool, user: u128, active: bool, tool: Option<ToolStatus>)
    requires
        key_ok,
    ensures
        tool_on_gate_spec(key_ok, CardOutcome::Revoked { user, user_active: active }, tool) matches Err(d)
            && d.revoked_card && d.user == Some(user),
        tool_on_gate_spec(key_ok, CardOutcome::Unknown, tool) matches Err(d) && d.user is None
            && !d.revoked_card,
{
}

// ---------------------------------------------------------------------------
// tool-off and tool-log
// ---------------------------------------------------------------------------

/// What to do with a tool-off request.
#[derive(Debug)]
pub enum ToolOffDecision {
    /// Answer with this response and do nothing else.
    Refuse(ToolGuardResponse),
    /// Set the tool idle on behalf of this member; settle its billing session
    /// now when `settle` (a metered tool with its own key), otherwise leave
    /// the session to the sweep.
    Release { user: u128, settle: bool },
}

/// How a tool-off request is decided.
pub open spec fn tool_off_spec(key_ok: bool, card: CardOutcome, tool_found: bool, metered: bool, own_key: bool) -> Result<(u128, bool), Seq<char>> {
    if !key_ok {
        Err("Invalid or missing API key"@)
    } else {
        match card {
            CardOutcome::Unknown => Err("Unknown card"@),
            CardOutcome::Active { user, .. } | CardOutcome::Revoked { user, .. } => if !tool_found {
                Err("Tool not found"@)
            } else {
                Ok((user, metered && own_key))
            },
        }
    }
}

/// The view of a tool-off decision.
pub open spec fn tool_off_view(d: ToolOffDecision) -> Result<(u128, bool), Seq<char>> {
    match d {
        ToolOffDecision::Refuse(r) => Err(r@.message->0),
        ToolOffDecision::Release { user, settle } => Ok((user, settle)),
    }
}

/// Decide a tool-off request. An open session must close even if the card
/// was disabled or released mid-use, so an active and a revoked card both
/// release the tool; only an unknown card is refused.
pub fn tool_off_decision(key_ok: bool, card: CardOutcome, tool_found: bool, metered: bool, own_key: bool) -> (d: ToolOffDecision)
    ensures
        tool_off_view(d) == tool_off_spec(key_ok, card, tool_found, metered, own_key),
        d matches ToolOffDecision::Refuse(r) ==> r@.status == "error"@ && r@.message is Some,
{
    if !key_ok {
        return ToolOffDecision::Refuse(ToolGuardResponse::error("Invalid or missing API key"));
    }
    let user = match card {
        CardOutcome::Unknown => {
            return ToolOffDecision::Refuse(ToolGuardResponse::error("Unknown card"));
        },
        CardOutcome::Active { user, .. } => user,
        CardOutcome::Revoked { user, .. } => user,
    };
    if !tool_found {
        return ToolOffDecision::Refuse(ToolGuardResponse::error("Tool not found"));
    }
    ToolOffDecision::Release { user, settle: metered && own_key }
}

/// A known tool with a valid key is always released, whatever the state of
/// the member's card: switching off is never refused for a revoked card.
pub proof fn law_release_not_refused_for_revoked_card(user: u128, active: bool, metered: bool, own_key: bool)
    ensures
        tool_off_spec(true, CardOutcome::Revoked { user, user_active: active }, true, metered, own_key)
            == Ok::<(u128, bool), Seq<char>>((user, metered && own_key)),
{
}

/// How a tool-log request is decided, `applied` being whether the billing
/// service accepted the reported usage (asked only for a metered tool with
/// its own key).
pub open spec fn tool_log_spec(
    key_ok: bool,
    card: CardOutcome,
    tool_found: bool,
    metered: bool,
    own_key: bool,
    applied: bool,
) -> Result<u128, Seq<char>> {
    if !key_ok {
        Err("Invalid or missing API key"@)
    } else {
        match card {
            CardOutcome::Unknown => Err("Unknown card"@),
            CardOutcome::Active { user, .. } | CardOutcome::Revoked { user, .. } => if !tool_found {
                Err("Tool not found"@)
            } else if metered && !own_key {
                Err("Metered tool requires its own API key"@)
            } else if metered && !applied {
                Err("No open session for this tool"@)
            } else {
                Ok(user)
            },
        }
    }
}

/// Decide a tool-log request: `Ok(member)` when the usage is to be recorded
/// (answered "Usage logged"), otherwise the error response.
pub fn tool_log_decision(
    key_ok: bool,
    card: CardOutcome,
    tool_found: bool,
    metered: bool,
    own_key: bool,
    applied: bool,
) -> (r: Result<u128, ToolGuardResponse>)
    ensures
        match r {
            Ok(u) => tool_log_spec(key_ok, card, tool_found, metered, own_key, applied) == Ok::<u128, Seq<char>>(u),
            Err(resp) => resp@.status == "error"@ && (resp@.message matches Some(m) && tool_log_spec(
                key_ok,
                card,
                tool_found,
                metered,
                own_key,
                applied,
            ) == Err::<u128, Seq<char>>(m)),
        },
{
    if !key_ok {
        return Err(ToolGuardResponse::error("Invalid or missing API key"));
    }
    let user = match card {
        CardOutcome::Unknown => {
            return Err(ToolGuardResponse::error("Unknown card"));
        },
        CardOutcome::Active { user, .. } => user,
        CardOutcome::Revoked { user, .. } => user,
    };
    if !tool_found {
        return Err(ToolGuardResponse::error("Tool not found"));
    }
    if metered && !own_key {
        return Err(ToolGuardResponse::error("Metered tool requires its own API key"));
    }
    if metered && !applied {
        return Err(ToolGuardResponse::error("No open session for this tool"));
    }
    Ok(user)
}

// ---------------------------------------------------------------------------
// boot-reset and power-report
// ---------------------------------------------------------------------------

/// The message of a boot reset: how many tools were set idle.
pub fn boot_reset_message(count: u64) -> (m: String)
    ensures
        m@ == crate::text::dec_digits(count as nat) + " tool(s) reset to idle"@,
{
    let mut v: Vec<char> = Vec::new();
    push_decimal(&mut v, count);
    append_str(&mut v, " tool(s) reset to idle");
    string_from_chars(v.as_slice())
}

/// The note on a tool reset at an edge's boot.
pub open spec fn boot_reset_note(device_id: u128) -> Seq<char> {
    "Reset to idle at edge boot (device "@ + uuid_hyphenated(device_id) + ")"@
}

/// Whether `e` is the history entry of a tool in status `old` reset to idle
/// at the boot of edge `device_id`.
pub open spec fn is_boot_reset_event(e: ToolEventPlan, old: ToolStatus, device_id: u128) -> bool {
    &&& e.event_type@ == "deactivated"@
    &&& e.old_status == Some(old)
    &&& e.new_status == Some(ToolStatus::Idle)
    &&& e.notes matches Some(n) && n@ == boot_reset_note(device_id)
}

/// The history entry of a tool reset to idle at an edge's boot.
pub fn boot_reset_event(old: ToolStatus, device_id: u128) -> (e: ToolEventPlan)
    ensures
        is_boot_reset_event(e, old, device_id),
{
    let note = String::from_str("Reset to idle at edge boot (device ").concat(uuid_text(device_id).as_str()).concat(")");
    ToolEventPlan {
        event_type: String::from_str("deactivated"),
        old_status: Some(old),
        new_status: Some(ToolStatus::Idle),
        notes: Some(note),
    }
}

/// A boot reset of the tools in use (`tools`, each an id and its status):
/// each is set idle, with its history entry, in order.
pub fn boot_reset_events(tools: &[(u128, ToolStatus)], device_id: u128) -> (r: Vec<(u128, ToolEventPlan)>)
    ensures
        r@.len() == tools@.len(),
        forall|i: int|
            0 <= i < tools@.len() ==> (#[trigger] r@[i]).0 == tools@[i].0 && is_boot_reset_event(
                r@[i].1,
                tools@[i].1,
                device_id,
            ),
{
    let mut out: Vec<(u128, ToolEventPlan)> = Vec::new();
    let mut i: usize = 0;
    while i < tools.len()
        invariant
            i <= tools@.len(),
            out@.len() == i,
            forall|k: int|
                0 <= k < i ==> (#[trigger] out@[k]).0 == tools@[k].0 && is_boot_reset_event(
                    out@[k].1,
                    tools@[k].1,
                    device_id,
                ),
        decreases tools@.len() - i,
    {
        let (id, old) = tools[i];
        out.push((id, boot_reset_event(old, device_id)));
        i = i + 1;
    }
    out
}

/// The first step of a power report: the credentials are checked before
/// the body is read, so a request without them is refused as such even
/// when it names no tool; then a tool id is required. On success, the id to
/// look the tool up by.
pub fn power_report_begin(authorized: Result<(), ApiError>, tool_id: Option<&str>) -> (r: Result<String, ApiError>)
    ensures
        authorized matches Err(e) ==> (r matches Err(x) && x@ == e@),
        authorized is Ok && (tool_id is None || tool_id.unwrap()@.len() == 0) ==> (r matches Err(x) && x@
            == api_err(ApiErrorKind::BadRequest, "tool_id is required"@)),
        authorized is Ok ==> (tool_id matches Some(t) ==> (t@.len() > 0 ==> (r matches Ok(id) && id@ == t@))),
{
    match authorized {
        Err(e) => Err(e),
        Ok(()) => match tool_id {
            Some(t) => if t.is_empty() {
                Err(error_with(ApiErrorKind::BadRequest, "tool_id is required"))
            } else {
                Ok(String::from_str(t))
            },
            None => Err(error_with(ApiErrorKind::BadRequest, "tool_id is required")),
        },
    }
}

/// The four readings a controller reports.
#[derive(Clone, Debug)]
pub struct PowerReadings {
    pub draw_now: Option<Decimal>,
    pub voltage_now: Option<Decimal>,
    pub max_voltage: Option<Decimal>,
    pub amperage_limit: Option<Decimal>,
}

/// A tool's latest power state, as stored.
#[derive(Clone, Debug)]
pub struct ToolPowerState {
    pub tool_id: u128,
    pub last_draw_amps: Option<Decimal>,
    pub last_voltage: Option<Decimal>,
    pub reported_max_voltage: Option<Decimal>,
    pub reported_amperage_limit: Option<Decimal>,
    pub last_reported_at: Timestamp,
}

/// The view of an optional decimal.
pub open spec fn opt_decimal(d: Option<Decimal>) -> Option<Seq<char>> {
    match d {
        Some(x) => Some(x@),
        None => None,
    }
}

/// Whether `s` is the state stored for tool `tool` from `readings` at `now`.
pub open spec fn is_power_state(s: ToolPowerState, tool: u128, readings: PowerReadings, now: Timestamp) -> bool {
    &&& s.tool_id == tool
    &&& opt_decimal(s.last_draw_amps) == opt_decimal(readings.draw_now)
    &&& opt_decimal(s.last_voltage) == opt_decimal(readings.voltage_now)
    &&& opt_decimal(s.reported_max_voltage) == opt_decimal(readings.max_voltage)
    &&& opt_decimal(s.reported_amperage_limit) == opt_decimal(readings.amperage_limit)
    &&& s.last_reported_at == now
}

/// The second step, once the tool was looked up: an unknown tool is 404;
/// a known one has its latest power state set from the four readings,
/// reported at `now`.
pub fn power_report_store(tool: Option<u128>, readings: PowerReadings, now: Timestamp) -> (r: Result<
    ToolPowerState,
    ApiError,
>)
    ensures
        tool is None ==> (r matches Err(e) && e@ == api_err(ApiErrorKind::NotFound, "Tool not found"@)),
        tool matches Some(id) ==> (r matches Ok(s) && is_power_state(s, id, readings, now)),
{
    match tool {
        None => Err(error_with(ApiErrorKind::NotFound, "Tool not found")),
        Some(id) => Ok(
            ToolPowerState {
                tool_id: id,
                last_draw_amps: readings.draw_now,
                last_voltage: readings.voltage_now,
                reported_max_voltage: readings.max_voltage,
                reported_amperage_limit: readings.amperage_limit,
                last_reported_at: now,
            },
        ),
    }
}

/// An audit row a power report writes.
#[derive(Clone, Debug)]
pub enum PowerAudit {
    /// The controller shut itself off past its own over-current limit.
    SelfTripReported { tool_id: u128, external_id: String },
    /// The lockout of one tool, engaged on its firmware's self-trip.
    ToolLockoutEngaged { tool_id: u128 },
    /// A circuit's summed draw went over its limit and it was shut off.
    CircuitOverageShutoff { circuit_id: u128, total_draw_amps: Decimal, amperage_limit: Decimal },
    /// The lockout of a circuit, engaged by the server's aggregation.
    CircuitLockoutEngaged { circuit_id: u128 },
}

/// What follows the store: a self-trip locks just this tool; any other
/// report has the circuits' summed draw evaluated against their limits.
#[derive(Clone, Copy, Debug, PartialEq, Eq, Structural)]
pub enum PowerFollowUp {
    LockTool,
    EvaluateCircuits,
}

/// Choose the follow-up: only a report that says the controller tripped
/// itself locks the tool.
pub fn power_follow_up(self_tripped: Option<bool>) -> (f: PowerFollowUp)
    ensures
        f == (if self_tripped == Some(true) {
            PowerFollowUp::LockTool
        } else {
            PowerFollowUp::EvaluateCircuits
        }),
{
    match self_tripped {
        Some(true) => PowerFollowUp::LockTool,
        _ => PowerFollowUp::EvaluateCircuits,
    }
}

/// The audit rows of a tool locked on its self-trip, and whether the
/// allow-list is published again (it is: the tool's authorisation changed).
pub fn self_trip_audits(tool_id: u128, external_id: &str) -> (r: (Vec<PowerAudit>, bool))
    ensures
        r.0@.len() == 2,
        r.0@[0] matches PowerAudit::SelfTripReported { tool_id: t, external_id: x } && t == tool_id && x@
            == external_id@,
        r.0@[1] matches PowerAudit::ToolLockoutEngaged { tool_id: t } && t == tool_id,
        r.1,
{
    let mut v: Vec<PowerAudit> = Vec::new();
    v.push(PowerAudit::SelfTripReported { tool_id, external_id: String::from_str(external_id) });
    v.push(PowerAudit::ToolLockoutEngaged { tool_id });
    (v, true)
}

/// Whether `a` and `b` are the two audit rows of a tripped circuit `c`
/// (its id, summed draw and limit).
pub open spec fn is_circuit_trip(a: PowerAudit, b: PowerAudit, c: (u128, Decimal, Decimal)) -> bool {
    &&& a matches PowerAudit::CircuitOverageShutoff { circuit_id, total_draw_amps, amperage_limit } && circuit_id
        == c.0 && total_draw_amps@ == c.1@ && amperage_limit@ == c.2@
    &&& b matches PowerAudit::CircuitLockoutEngaged { circuit_id } && circuit_id == c.0
}

/// The audit rows of the circuits the evaluation tripped, two per circuit
/// in order (the shut-off, then the lockout), and whether the allow-list is
/// published again: exactly when some circuit tripped.
pub fn overage_audits(tripped: &[(u128, Decimal, Decimal)]) -> (r: (Vec<PowerAudit>, bool))
    ensures
        r.0@.len() == 2 * tripped@.len(),
        forall|i: int| 0 <= i < tripped@.len() ==> is_circuit_trip(#[trigger] r.0@[2 * i], r.0@[2 * i + 1], tripped@[i]),
        r.1 == (tripped@.len() > 0),
{
    let mut v: Vec<PowerAudit> = Vec::new();
    let mut i: usize = 0;
    while i < tripped.len()
        invariant
            i <= tripped@.len(),
            v@.len() == 2 * i,
            forall|k: int| 0 <= k < i ==> is_circuit_trip(#[trigger] v@[2 * k], v@[2 * k + 1], tripped@[k]),
        decreases tripped@.len() - i,
    {
        let (cid, total, limit) = &tripped[i];
        let ghost before = v@;
        v.push(
            PowerAudit::CircuitOverageShutoff {
                circuit_id: *cid,
                total_draw_amps: Decimal { text: total.text.clone() },
                amperage_limit: Decimal { text: limit.text.clone() },
            },
        );
        v.push(PowerAudit::CircuitLockoutEngaged { circuit_id: *cid });
        proof {
            assert forall|k: int| 0 <= k < i + 1 implies is_circuit_trip(
                #[trigger] v@[2 * k],
                v@[2 * k + 1],
                tripped@[k],
            ) by {
                if k < i {
                    assert(v@[2 * k] == before[2 * k] && v@[2 * k + 1] == before[2 * k + 1]);
                }
            }
        }
        i = i + 1;
    }
    (v, tripped.len() > 0)
}

/// The answer to a power report that went through.
pub const POWER_REPORTED: &'static str = "Power reported";

// ---------------------------------------------------------------------------
// The sync payload
// ---------------------------------------------------------------------------

/// A tool in the sync payload.
#[derive(Clone, Debug)]
pub struct ToolGuardSyncTool {
    /// The tool's id, as the 128-bit value of its UUID.
    pub id: u128,
    pub external_id: Option<String>,
    pub name: String,
    pub status: ToolStatus,
    pub requires_online: bool,
}

/// A member in the sync payload.
#[derive(Clone, Debug)]
pub struct ToolGuardSyncUser {
    pub profile_field_value: String,
    pub full_name: String,
    pub is_active: bool,
    /// The ids of the tools the member may use.
    pub authorized_tool_ids: Vec<u128>,
}

/// `ids` without the members of `closed`, in order.
pub open spec fn without(ids: Seq<u128>, closed: Seq<u128>) -> Seq<u128> {
    ids.filter(|x: u128| !closed.contains(x))
}

/// Whether `x` is one of `v`.
fn in_list(v: &[u128], x: u128) -> (r: bool)
    ensures
        r == v@.contains(x),
{
    let mut i: usize = 0;
    while i < v.len()
        invariant
            i <= v@.len(),
            forall|k: int| 0 <= k < i ==> v@[k] != x,
        decreases v@.len() - i,
    {
        if v[i] == x {
            assert(v@[i as int] == x);
            return true;
        }
        i = i + 1;
    }
    false
}

/// `ids` without the ids in `closed`, in order.
fn retain_open(ids: &Vec<u128>, closed: &[u128]) -> (r: Vec<u128>)
    ensures
        r@ == without(ids@, closed@),
{
    let mut r: Vec<u128> = Vec::new();
    let mut i: usize = 0;
    while i < ids.len()
        invariant
            i <= ids@.len(),
            r@ == without(ids@.subrange(0, i as int), closed@),
        decreases ids@.len() - i,
    {
        let x = ids[i];
        proof {
            let p = ids@.subrange(0, i as int + 1);
            assert(p.drop_last() =~= ids@.subrange(0, i as int));
            reveal(Seq::filter);
        }
        if !in_list(closed, x) {
            r.push(x);
        }
        i = i + 1;
    }
    assert(ids@.subrange(0, ids@.len() as int) =~= ids@);
    r
}

/// Apply schedule gating to a sync payload: any tool whose schedule is
/// closed right now is removed from every member's authorised list and
/// dropped from the tool list. Everything else is kept, in order.
pub fn apply_schedule_gating(users: &mut Vec<ToolGuardSyncUser>, tools: &mut Vec<ToolGuardSyncTool>, closed: &[u128])
    ensures
        final(users)@.len() == old(users)@.len(),
        forall|i: int|
            0 <= i < final(users)@.len() ==> (#[trigger] final(users)@[i]).authorized_tool_ids@ == without(
                old(users)@[i].authorized_tool_ids@,
                closed@,
            ) && final(users)@[i].profile_field_value == old(users)@[i].profile_field_value
                && final(users)@[i].full_name == old(users)@[i].full_name && final(users)@[i].is_active
                == old(users)@[i].is_active,
        final(tools)@ == old(tools)@.filter(|t: ToolGuardSyncTool| !closed@.contains(t.id)),
{
    let ghost old_users = users@;
    let n = users.len();
    let mut out: Vec<ToolGuardSyncUser> = Vec::new();
    let mut i: usize = 0;
    while i < n
        invariant
            n == old_users.len(),
            i <= n,
            users@ == old_users.subrange(i as int, n as int),
            out@.len() == i,
            forall|k: int|
                0 <= k < i ==> (#[trigger] out@[k]).authorized_tool_ids@ == without(
                    old_users[k].authorized_tool_ids@,
                    closed@,
                ) && out@[k].profile_field_value == old_users[k].profile_field_value
                    && out@[k].full_name == old_users[k].full_name && out@[k].is_active
                    == old_users[k].is_active,
        decreases n - i,
    {
        let u = users.remove(0);
        assert(u == old_users[i as int]);
        let ids = retain_open(&u.authorized_tool_ids, closed);
        out.push(
            ToolGuardSyncUser {
                profile_field_value: u.profile_field_value,
                full_name: u.full_name,
                is_active: u.is_active,
                authorized_tool_ids: ids,
            },
        );
        proof {
            assert(users@ =~= old_users.subrange(i as int + 1, n as int));
        }
        i = i + 1;
    }
    *users = out;
    let ghost old_tools = tools@;
    let m = tools.len();
    let mut kept: Vec<ToolGuardSyncTool> = Vec::new();
    let mut j: usize = 0;
    while j < m
        invariant
            m == old_tools.len(),
            j <= m,
            tools@ == old_tools.subrange(j as int, m as int),
            kept@ == old_tools.subrange(0, j as int).filter(|t: ToolGuardSyncTool| !closed@.contains(t.id)),
        decreases m - j,
    {
        let t = tools.remove(0);
        assert(t == old_tools[j as int]);
        proof {
            let p = old_tools.subrange(0, j as int + 1);
            assert(p.drop_last() =~= old_tools.subrange(0, j as int));
            assert(p.last() == t);
            reveal(Seq::filter);
            assert(tools@ =~= old_tools.subrange(j as int + 1, m as int));
        }
        if !in_list(closed, t.id) {
            kept.push(t);
        }
        j = j + 1;
    }
    assert(old_tools.subrange(0, m as int) =~= old_tools);
    *tools = kept;
}

/// The schedule of a tool, when it has one: whether it is open right now,
/// `None` when its intervals cannot be read.
pub open spec fn schedule_state(schedules: Seq<(u128, Option<bool>)>, id: u128) -> Option<Option<bool>>
    decreases schedules.len(),
{
    if schedules.len() == 0 {
        None
    } else if schedules.last().0 == id {
        Some(schedules.last().1)
    } else {
        schedule_state(schedules.drop_last(), id)
    }
}

/// Whether a tool is closed right now: it has a schedule, the schedule
/// exists, its intervals can be read, and they do not cover this moment. A
/// tool without a schedule, with a missing one, or with unreadable
/// intervals stays open.
pub open spec fn tool_closed(schedules: Seq<(u128, Option<bool>)>, tool: (u128, Option<u128>)) -> bool {
    match tool.1 {
        None => false,
        Some(sid) => schedule_state(schedules, sid) == Some(Some(false)),
    }
}

/// The closed tools, in the order of `tools`.
pub open spec fn closed_ids(schedules: Seq<(u128, Option<bool>)>, tools: Seq<(u128, Option<u128>)>) -> Seq<u128>
    decreases tools.len(),
{
    if tools.len() == 0 {
        Seq::<u128>::empty()
    } else if tool_closed(schedules, tools.last()) {
        closed_ids(schedules, tools.drop_last()).push(tools.last().0)
    } else {
        closed_ids(schedules, tools.drop_last())
    }
}

/// Look up a schedule's state; the last entry with the id wins, as when
/// the schedules are indexed by id.
fn find_schedule(schedules: &[(u128, Option<bool>)], id: u128) -> (r: Option<Option<bool>>)
    ensures
        r == schedule_state(schedules@, id),
{
    let mut i: usize = schedules.len();
    assert(schedules@.subrange(0, i as int) =~= schedules@);
    while i > 0
        invariant
            i <= schedules@.len(),
            schedule_state(schedules@, id) == schedule_state(schedules@.subrange(0, i as int), id),
        decreases i,
    {
        let ghost p = schedules@.subrange(0, i as int);
        assert(p.drop_last() =~= schedules@.subrange(0, i - 1));
        if schedules[i - 1].0 == id {
            return Some(schedules[i - 1].1);
        }
        i = i - 1;
    }
    None
}

/// The tools whose schedule is closed right now. `tools` lists each tool
/// with its schedule, if any; `schedules` lists each schedule with whether
/// it is open right now (`None` when its intervals cannot be read).
pub fn closed_tool_ids(tools: &[(u128, Option<u128>)], schedules: &[(u128, Option<bool>)]) -> (r: Vec<u128>)
    ensures
        r@ == closed_ids(schedules@, tools@),
{
    let mut out: Vec<u128> = Vec::new();
    if schedules.len() == 0 {
        proof {
            lemma_no_schedules_none_closed(schedules@, tools@);
        }
        return out;
    }
    let mut i: usize = 0;
    while i < tools.len()
        invariant
            i <= tools@.len(),
            out@ == closed_ids(schedules@, tools@.subrange(0, i as int)),
        decreases tools@.len() - i,
    {
        let (tid, sid) = tools[i];
        proof {
            assert(tools@.subrange(0, i as int + 1).drop_last() =~= tools@.subrange(0, i as int));
        }
        if let Some(s) = sid {
            if find_schedule(schedules, s) == Some(Some(false)) {
                out.push(tid);
            }
        }
        i = i + 1;
    }
    assert(tools@.subrange(0, tools@.len() as int) =~= tools@);
    out
}

/// With no schedules, no tool is closed.
proof fn lemma_no_schedules_none_closed(schedules: Seq<(u128, Option<bool>)>, tools: Seq<(u128, Option<u128>)>)
    requires
        schedules.len() == 0,
    ensures
        closed_ids(schedules, tools) == Seq::<u128>::empty(),
    decreases tools.len(),
{
    if tools.len() > 0 {
        lemma_no_schedules_none_closed(schedules, tools.drop_last());
    }
}

} // verus!
