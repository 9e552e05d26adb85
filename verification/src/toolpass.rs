//! The legacy ToolPass controller API: its answers, and the decisions
//! behind `add-user`, `remove-user`, `tool-on`, `tool-off` and `tool-log`.
//!
//! ToolPass addresses a tool by its position in the tool listing, and a
//! member by the card value stored in their profile.

use vstd::prelude::*;
use vstd::string::*;
use crate::errors::{api_err, error_with, ApiError, ApiErrorKind};
use crate::text::{chars_of, find_char, first_index, string_from_chars, sub_chars};

verus! {

/// What a ToolPass endpoint answers (every answer also carries API version
/// 1.0).
#[derive(Clone, Copy, Debug)]
pub enum ToolPassReply {
    /// `ok`, nothing else.
    StatusOk,
    /// `ok` with a message.
    OkWithMessage(&'static str),
    /// `error` with a message.
    Error(&'static str),
    /// `ok`, "Tool authorized", the tool may be switched on.
    ToolAuthorized,
    /// `error` with the reason, the tool may not be switched on.
    ToolDenied(&'static str),
    /// `ok`, "Tool deactivated".
    ToolOffOk,
}

/// A request to add a member.
#[derive(Clone, Debug)]
pub struct AddUserRequest {
    pub api_key: String,
    pub email: String,
    pub first_name: String,
    pub last_name: String,
}

/// A request to remove a member.
#[derive(Clone, Debug)]
pub struct RemoveUserRequest {
    pub api_key: String,
    pub email: String,
}

/// A tool operation: the presented card, and the tool's position in the
/// tool listing.
#[derive(Clone, Debug)]
pub struct ToolRequest {
    pub card: String,
    pub tool_id: i32,
}

/// Any non-empty key is accepted.
pub fn toolpass_key_valid(api_key: &str) -> (r: bool)
    ensures
        r == (api_key@.len() > 0),
{
    !api_key.is_empty()
}

/// The username of a member added through ToolPass: the part of the email
/// before its first `@` (the whole email when there is none).
pub open spec fn username_of_email(email: Seq<char>) -> Seq<char> {
    let i = first_index(email, '@');
    if i < email.len() {
        email.subrange(0, i)
    } else {
        email
    }
}

/// The full name and the username of a member added through ToolPass.
pub fn new_member_names(req: &AddUserRequest) -> (r: (String, String))
    ensures
        r.0@ == req.first_name@ + " "@ + req.last_name@,
        r.1@ == username_of_email(req.email@),
{
    let full = String::from_str(req.first_name.as_str()).concat(" ").concat(req.last_name.as_str());
    let cs = chars_of(req.email.as_str());
    let user = match find_char(cs.as_slice(), '@') {
        Some(i) => {
            let u = sub_chars(cs.as_slice(), 0, i);
            string_from_chars(u.as_slice())
        },
        None => string_from_chars(cs.as_slice()),
    };
    (full, user)
}

/// Decide `add-user`: a valid key, and an email no account has yet.
pub fn add_user_reply(key_ok: bool, exists: bool) -> (r: Option<ToolPassReply>)
    ensures
        !key_ok ==> r == Some(ToolPassReply::Error("Invalid API key")),
        key_ok && exists ==> r == Some(ToolPassReply::Error("User already exists")),
        key_ok && !exists ==> r is None,
{
    if !key_ok {
        return Some(ToolPassReply::Error("Invalid API key"));
    }
    if exists {
        return Some(ToolPassReply::Error("User already exists"));
    }
    None
}

/// The account `remove-user` deactivates: a failed lookup is an internal
/// error, a missing account is not found.
pub fn remove_user_target(lookup: Result<Option<u128>, String>) -> (r: Result<u128, ApiError>)
    ensures
        match lookup {
            Err(e) => r matches Err(x) && x@ == api_err(ApiErrorKind::InternalServerError, "Database error: "@ + e@),
            Ok(None) => r matches Err(x) && x@ == api_err(ApiErrorKind::NotFound, "User not found"@),
            Ok(Some(id)) => r == Ok::<u128, ApiError>(id),
        },
{
    match lookup {
        Err(e) => Err(crate::errors::error_joined(ApiErrorKind::InternalServerError, "Database error: ", e.as_str())),
        Ok(None) => Err(error_with(ApiErrorKind::NotFound, "User not found")),
        Ok(Some(id)) => Ok(id),
    }
}

/// A listing position read as an `i32`, wrapping as `as` does.
pub open spec fn position_value(j: usize) -> i32 {
    j as i32
}

/// The position in a listing of `count` tools that a ToolPass tool id
/// names: the first position whose value as an `i32` is the id.
pub fn tool_position(count: usize, tool_id: i32) -> (r: Option<usize>)
    ensures
        match r {
            Some(i) => i < count && position_value(i) == tool_id && forall|j: usize|
                j < i ==> #[trigger] position_value(j) != tool_id,
            None => forall|j: usize| j < count ==> #[trigger] position_value(j) != tool_id,
        },
{
    let mut i: usize = 0;
    while i < count
        invariant
            i <= count,
            forall|j: usize| j < i ==> #[trigger] position_value(j) != tool_id,
        decreases count - i,
    {
        #[verifier::truncate]
        let v: i32 = i as i32;
        assert(v == position_value(i));
        if v == tool_id {
            return Some(i);
        }
        i = i + 1;
    }
    None
}

/// The answer to `tool-on`: an unknown card, an inactive member, an unknown
/// tool, and missing training for a tool that requires it are each refused;
/// otherwise the tool is authorised. `trained` is consulted only for a tool
/// that requires training.
pub open spec fn tool_on_spec(member_active: Option<bool>, tool_requires_training: Option<bool>, trained: bool) -> ToolPassReply {
    match member_active {
        None => ToolPassReply::ToolDenied("Unknown card"),
        Some(active) => if !active {
            ToolPassReply::ToolDenied("User is not active")
        } else {
            match tool_requires_training {
                None => ToolPassReply::ToolDenied("Tool not found"),
                Some(req) => if req && !trained {
                    ToolPassReply::ToolDenied("Training required")
                } else {
                    ToolPassReply::ToolAuthorized
                },
            }
        },
    }
}

/// Decide `tool-on`.
pub fn tool_on_reply(member_active: Option<bool>, tool_requires_training: Option<bool>, trained: bool) -> (r: ToolPassReply)
    ensures
        r == tool_on_spec(member_active, tool_requires_training, trained),
{
    match member_active {
        None => ToolPassReply::ToolDenied("Unknown card"),
        Some(active) => if !active {
            ToolPassReply::ToolDenied("User is not active")
        } else {
            match tool_requires_training {
                None => ToolPassReply::ToolDenied("Tool not found"),
                Some(req) => if req && !trained {
                    ToolPassReply::ToolDenied("Training required")
                } else {
                    ToolPassReply::ToolAuthorized
                },
            }
        },
    }
}

/// Decide `tool-off` and `tool-log`: an unknown card is an error; anyone
/// else is answered with `ok` (the tool, when found, gets the event logged).
pub fn release_reply(card_known: bool, logging: bool) -> (r: ToolPassReply)
    ensures
        !card_known ==> r == ToolPassReply::Error("Unknown card"),
        card_known && !logging ==> r == ToolPassReply::ToolOffOk,
        card_known && logging ==> r == ToolPassReply::OkWithMessage("Usage logged"),
{
    if !card_known {
        ToolPassReply::Error("Unknown card")
    } else if logging {
        ToolPassReply::OkWithMessage("Usage logged")
    } else {
        ToolPassReply::ToolOffOk
    }
}

/// An inactive member or an untrained member is never authorised.
pub proof fn law_toolpass_authorises_only_active_trained_members(
    member_active: Option<bool>,
    tool_requires_training: Option<bool>,
    trained: bool,
)
    requires
        tool_on_spec(member_active, tool_requires_training, trained) == ToolPassReply::ToolAuthorized,
    ensures
        member_active == Some(true),
        tool_requires_training matches Some(req) && (req ==> trained),
{
}

} // verus!
