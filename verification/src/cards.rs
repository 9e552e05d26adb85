//! Masked display of member access-card codes.

use vstd::prelude::*;
use crate::errors::{api_err, error_with, ApiError, ApiErrorKind, ApiErrorView};
use crate::text::{chars_of, string_from_chars, trim, trim_str};

verus! {

/// The masked hint of a card code: an ellipsis followed by at most the last
/// four characters of the code.
pub open spec fn spec_code_hint(code: Seq<char>) -> Seq<char> {
    let start = if code.len() >= 4 { code.len() - 4 } else { 0 };
    seq!['\u{2026}'] + code.subrange(start, code.len() as int)
}

/// A masked hint of a card code: an ellipsis and up to the last four
/// characters of the plaintext. A short code reveals only its own tail.
pub fn code_hint(code: &str) -> (hint: String)
    ensures
        hint@ == spec_code_hint(code@),
{
    let chars = chars_of(code);
    let n = chars.len();
    let start: usize = if n >= 4 { n - 4 } else { 0 };
    let mut out: Vec<char> = Vec::new();
    out.push('\u{2026}');
    let mut i: usize = start;
    while i < n
        invariant
            start <= i <= n,
            n == chars@.len(),
            out@ == seq!['\u{2026}'] + chars@.subrange(start as int, i as int),
        decreases n - i,
    {
        out.push(chars[i]);
        i = i + 1;
        assert(out@ =~= seq!['\u{2026}'] + chars@.subrange(start as int, i as int));
    }
    string_from_chars(out.as_slice())
}

/// A request to issue a card to a member.
#[derive(Clone, Debug)]
pub struct IssueCardRequest {
    pub code: String,
}

/// A request to disable a card, with an optional reason.
#[derive(Clone, Debug)]
pub struct DisableCardRequest {
    pub reason: Option<String>,
}

/// The code a new card is issued with: the requested code, trimmed, which
/// must not be empty.
pub fn issue_card_code(req: &IssueCardRequest) -> (r: Result<String, ApiError>)
    ensures
        trim(req.code@).len() == 0 ==> (r matches Err(e) && e@ == api_err(
            ApiErrorKind::BadRequest,
            "Card code must not be empty"@,
        )),
        trim(req.code@).len() > 0 ==> (r matches Ok(c) && c@ == trim(req.code@)),
{
    let code = trim_str(req.code.as_str());
    if code.as_str().is_empty() {
        return Err(error_with(ApiErrorKind::BadRequest, "Card code must not be empty"));
    }
    Ok(code)
}

/// The masked code an administrator sees for a card: with no card keys
/// configured, or no sealed code on the card, or a sealed code that does
/// not open, the server fails rather than show a blank hint. `opened` is
/// the decrypted code, when the sealed code opened.
pub open spec fn masked_code_spec(keys_configured: bool, sealed: bool, opened: Option<Seq<char>>) -> Result<Seq<char>, ApiErrorView> {
    if !keys_configured {
        Err(api_err(ApiErrorKind::InternalServerError, "card encryption keys are not configured"@))
    } else if !sealed {
        Err(api_err(ApiErrorKind::InternalServerError, "card has no sealed code to decrypt"@))
    } else {
        match opened {
            None => Err(api_err(ApiErrorKind::InternalServerError, "could not decrypt card code"@)),
            Some(code) => Ok(spec_code_hint(code)),
        }
    }
}

/// The masked code of a card.
pub fn masked_code(keys_configured: bool, sealed: bool, opened: Option<&str>) -> (r: Result<String, ApiError>)
    ensures
        match r {
            Ok(h) => masked_code_spec(
                keys_configured,
                sealed,
                match opened {
                    Some(c) => Some(c@),
                    None => None,
                },
            ) == Ok::<Seq<char>, ApiErrorView>(h@),
            Err(e) => masked_code_spec(
                keys_configured,
                sealed,
                match opened {
                    Some(c) => Some(c@),
                    None => None,
                },
            ) == Err::<Seq<char>, ApiErrorView>(e@),
        },
{
    if !keys_configured {
        return Err(error_with(ApiErrorKind::InternalServerError, "card encryption keys are not configured"));
    }
    if !sealed {
        return Err(error_with(ApiErrorKind::InternalServerError, "card has no sealed code to decrypt"));
    }
    match opened {
        None => Err(error_with(ApiErrorKind::InternalServerError, "could not decrypt card code")),
        Some(code) => Ok(code_hint(code)),
    }
}

/// A hint never shows more than the last four characters of the code.
pub proof fn law_hint_reveals_at_most_four(code: Seq<char>)
    ensures
        spec_code_hint(code).len() <= 5,
        spec_code_hint(code).len() - 1 == if code.len() >= 4 {
            4
        } else {
            code.len() as int
        },
{
}

} // verus!
