//! Outbound webhooks: which destinations may be configured, which event types
//! may be subscribed to, how event types are labelled, and the checks on the
//! reusable write-only auth headers.
//!
//! The URL check refuses anything that is not `http`/`https`, and any literal
//! link-local or cloud-metadata address (`169.254.0.0/16`, `fe80::/10`, and
//! AWS's IPv6 metadata address `fd00:ec2::254`). It reads the host the URL
//! parser produced, not the text, so encoded forms of an address are caught.
//! RFC 1918, loopback and hostnames are permitted: a hostname is not resolved.

use vstd::prelude::*;
use vstd::string::*;
use vstd::utf8::encode_utf8;
use crate::stripe::{hex_encode, hmac_sha256, hmac_sha256_tag};
use crate::errors::{api_err, error_joined, error_with, ApiError, ApiErrorKind, ApiErrorView};
use crate::text::{
    chars_eq, chars_of, hex_lower, split_any, split_any_chars, string_from_chars, string_views, trim, trim_chars,
    views,
};

verus! {

// ---------------------------------------------------------------------------
// Parsed URLs
// ---------------------------------------------------------------------------

/// The host of a parsed URL.
#[derive(Clone, Debug)]
pub enum UrlHost {
    Domain(String),
    /// An IPv4 address, as its 32-bit value.
    Ipv4(u32),
    /// An IPv6 address, as its 128-bit value.
    Ipv6(u128),
}

/// The parts of a parsed URL that the destination check reads.
#[derive(Clone, Debug)]
pub struct ParsedUrl {
    pub scheme: String,
    pub host: Option<UrlHost>,
}

/// The view of a [`UrlHost`].
pub enum UrlHostView {
    Domain(Seq<char>),
    Ipv4(u32),
    Ipv6(u128),
}

/// The view of a [`ParsedUrl`].
pub struct ParsedUrlView {
    pub scheme: Seq<char>,
    pub host: Option<UrlHostView>,
}

impl View for UrlHost {
    type V = UrlHostView;

    open spec fn view(&self) -> UrlHostView {
        match self {
            UrlHost::Domain(d) => UrlHostView::Domain(d@),
            UrlHost::Ipv4(a) => UrlHostView::Ipv4(*a),
            UrlHost::Ipv6(a) => UrlHostView::Ipv6(*a),
        }
    }
}

impl View for ParsedUrl {
    type V = ParsedUrlView;

    open spec fn view(&self) -> ParsedUrlView {
        ParsedUrlView {
            scheme: self.scheme@,
            host: match self.host {
                Some(h) => Some(h@),
                None => None,
            },
        }
    }
}

/// The view of an optional parse.
pub open spec fn parsed_view(p: Option<ParsedUrl>) -> Option<ParsedUrlView> {
    match p {
        Some(u) => Some(u@),
        None => None,
    }
}

/// What `url::Url::parse` makes of `input`: `None` when it refuses it,
/// otherwise its scheme and host.
pub uninterp spec fn url_parse(input: Seq<char>) -> Option<ParsedUrlView>;

/// `url::Url::parse`, keeping the scheme and the host.
///
/// Trusted: the result is [`url_parse`] of the input, a function of the
/// input alone.
#[verifier::external_body]
fn parse_url(input: &str) -> (r: Option<ParsedUrl>)
    ensures
        parsed_view(r) == url_parse(input@),
{
    let u = match url::Url::parse(input) {
        Ok(u) => u,
        Err(_) => return None,
    };
    let host = match u.host() {
        None => None,
        Some(url::Host::Domain(d)) => Some(UrlHost::Domain(d.to_string())),
        Some(url::Host::Ipv4(a)) => Some(UrlHost::Ipv4(u32::from(a))),
        Some(url::Host::Ipv6(a)) => Some(UrlHost::Ipv6(u128::from(a))),
    };
    Some(ParsedUrl { scheme: u.scheme().to_string(), host })
}

/// AWS's IPv6 metadata address, `fd00:ec2::254`.
pub const AWS_IMDS_V6: u128 = 0xfd00_0ec2_0000_0000_0000_0000_0000_0254u128;

/// Is this host a link-local address or a cloud metadata endpoint?
pub open spec fn link_local(host: UrlHostView) -> bool {
    match host {
        UrlHostView::Ipv4(a) => (a >> 16u32) == 0xA9FEu32,
        UrlHostView::Ipv6(a) => ((((a >> 112u32) as u16) & 0xffc0u16) == 0xfe80u16) || a == AWS_IMDS_V6,
        UrlHostView::Domain(_) => false,
    }
}

/// Is this host a link-local address (`169.254.0.0/16`, `fe80::/10`) or
/// AWS's IPv6 metadata address?
pub fn is_link_local(host: &UrlHost) -> (r: bool)
    ensures
        r == link_local(host@),
{
    match host {
        UrlHost::Ipv4(a) => (*a >> 16u32) == 0xA9FEu32,
        UrlHost::Ipv6(a) => {
            let seg: u16 = (*a >> 112u32) as u16;
            (seg & 0xffc0u16) == 0xfe80u16 || *a == AWS_IMDS_V6
        },
        UrlHost::Domain(_) => false,
    }
}

/// The verdict on a parsed webhook destination.
pub open spec fn destination_verdict(p: Option<ParsedUrlView>) -> Result<(), ApiErrorView> {
    match p {
        None => Err(api_err(ApiErrorKind::BadRequest, "Webhook URL is not a valid URL"@)),
        Some(u) => if !(u.scheme == "http"@ || u.scheme == "https"@) {
            Err(api_err(ApiErrorKind::BadRequest, "Webhook URL must start with http:// or https://"@))
        } else {
            match u.host {
                Some(h) => if link_local(h) {
                    Err(
                        api_err(
                            ApiErrorKind::BadRequest,
                            "Webhook URL may not address a link-local or cloud metadata endpoint"@,
                        ),
                    )
                } else {
                    Ok(())
                },
                None => Err(api_err(ApiErrorKind::BadRequest, "Webhook URL must name a host"@)),
            }
        },
    }
}

/// The view of a unit result.
pub open spec fn unit_view(r: Result<(), ApiError>) -> Result<(), ApiErrorView> {
    match r {
        Ok(()) => Ok(()),
        Err(e) => Err(e@),
    }
}

/// Judge a parsed webhook destination.
pub fn check_parsed_url(parsed: &Option<ParsedUrl>) -> (r: Result<(), ApiError>)
    ensures
        unit_view(r) == destination_verdict(parsed_view(*parsed)),
{
    let u = match parsed {
        None => {
            return Err(error_with(ApiErrorKind::BadRequest, "Webhook URL is not a valid URL"));
        },
        Some(u) => u,
    };
    let scheme = chars_of(u.scheme.as_str());
    if !(crate::text::str_is(scheme.as_slice(), "http") || crate::text::str_is(
        scheme.as_slice(),
        "https",
    )) {
        return Err(
            error_with(ApiErrorKind::BadRequest, "Webhook URL must start with http:// or https://"),
        );
    }
    match &u.host {
        Some(h) => if is_link_local(h) {
            Err(
                error_with(
                    ApiErrorKind::BadRequest,
                    "Webhook URL may not address a link-local or cloud metadata endpoint",
                ),
            )
        } else {
            Ok(())
        },
        None => Err(error_with(ApiErrorKind::BadRequest, "Webhook URL must name a host")),
    }
}

/// Reject a webhook URL that is not a plausible delivery target: one the
/// parser refuses, one that is not `http`/`https`, one with no host, and
/// one whose host is a literal link-local or cloud-metadata address.
pub fn validate_url(url: &str) -> (r: Result<(), ApiError>)
    ensures
        unit_view(r) == destination_verdict(url_parse(url@)),
{
    let parsed = parse_url(url);
    check_parsed_url(&parsed)
}

/// Every address in `169.254.0.0/16` is refused, the metadata address among
/// them, whatever else the URL says.
pub proof fn law_link_local_v4_refused(scheme: Seq<char>, a: u32)
    requires
        (a >> 16u32) == 0xA9FEu32,
    ensures
        destination_verdict(
            Some(ParsedUrlView { scheme, host: Some(UrlHostView::Ipv4(a)) }),
        ) is Err,
{
}

/// Every address in `fe80::/10` is refused, and so is AWS's IPv6 metadata
/// address, whatever else the URL says.
pub proof fn law_link_local_v6_refused(scheme: Seq<char>, a: u128)
    requires
        (a >> 118u32) == 0x3FAu128 || a == AWS_IMDS_V6,
    ensures
        destination_verdict(
            Some(ParsedUrlView { scheme, host: Some(UrlHostView::Ipv6(a)) }),
        ) is Err,
{
    if a != AWS_IMDS_V6 {
        assert((((a >> 112u32) as u16) & 0xffc0u16) == 0xfe80u16) by (bit_vector)
            requires
                (a >> 118u32) == 0x3FAu128,
        ;
    }
}

/// Only `169.254.0.0/16` is refused among IPv4 addresses: an `http` or
/// `https` URL whose host is any other IPv4 address (loopback and private
/// addresses among them) is accepted.
pub proof fn law_other_v4_accepted(scheme: Seq<char>, a: u32)
    requires
        scheme == "http"@ || scheme == "https"@,
        (a >> 16u32) != 0xA9FEu32,
    ensures
        destination_verdict(Some(ParsedUrlView { scheme, host: Some(UrlHostView::Ipv4(a)) })) == Ok::<
            (),
            ApiErrorView,
        >(()),
{
}

/// Only `fe80::/10` and the metadata address are refused among IPv6
/// addresses: an `http` or `https` URL whose host is any other IPv6 address
/// (loopback `::1` among them) is accepted.
pub proof fn law_other_v6_accepted(scheme: Seq<char>, a: u128)
    requires
        scheme == "http"@ || scheme == "https"@,
        (a >> 118u32) != 0x3FAu128,
        a != AWS_IMDS_V6,
    ensures
        destination_verdict(Some(ParsedUrlView { scheme, host: Some(UrlHostView::Ipv6(a)) })) == Ok::<
            (),
            ApiErrorView,
        >(()),
{
    assert((((a >> 112u32) as u16) & 0xffc0u16) != 0xfe80u16) by (bit_vector)
        requires
            (a >> 118u32) != 0x3FAu128,
    ;
}

/// A domain name is never refused for its host: it is not resolved.
pub proof fn law_domain_host_not_checked(d: Seq<char>)
    ensures
        destination_verdict(
            Some(ParsedUrlView { scheme: "https"@, host: Some(UrlHostView::Domain(d)) }),
        ) is Ok,
        destination_verdict(
            Some(ParsedUrlView { scheme: "http"@, host: Some(UrlHostView::Domain(d)) }),
        ) is Ok,
{
}

// ---------------------------------------------------------------------------
// Event types
// ---------------------------------------------------------------------------

/// Whether `s` is one of `list`.
fn contains_string(list: &[String], s: &String) -> (r: bool)
    ensures
        r == string_views(list@).contains(s@),
{
    let mut i: usize = 0;
    while i < list.len()
        invariant
            i <= list@.len(),
            forall|k: int| 0 <= k < i ==> list@[k]@ != s@,
        decreases list@.len() - i,
    {
        if list[i] == *s {
            assert(string_views(list@)[i as int] == s@);
            return true;
        }
        i = i + 1;
    }
    assert forall|k: int| 0 <= k < string_views(list@).len() implies string_views(list@)[k] != s@ by {
        assert(string_views(list@)[k] == list@[k]@);
    }
    false
}

/// Reject unknown event types, so a webhook cannot subscribe to something
/// that will never fire. `valid` is the catalog of audit event types; the
/// first type not in it is named in the error.
pub fn validate_event_types(event_types: &[String], valid: &[String]) -> (r: Result<(), ApiError>)
    ensures
        r is Ok <==> (forall|i: int|
            0 <= i < event_types@.len() ==> string_views(valid@).contains(#[trigger] event_types@[i]@)),
        r matches Err(e) ==> exists|i: int|
            0 <= i < event_types@.len() && !string_views(valid@).contains(#[trigger] event_types@[i]@)
                && (forall|j: int| 0 <= j < i ==> string_views(valid@).contains(event_types@[j]@))
                && e@ == api_err(ApiErrorKind::BadRequest, "Unknown event type: "@ + event_types@[i]@),
{
    let mut i: usize = 0;
    while i < event_types.len()
        invariant
            i <= event_types@.len(),
            forall|j: int| 0 <= j < i ==> string_views(valid@).contains(#[trigger] event_types@[j]@),
        decreases event_types@.len() - i,
    {
        if !contains_string(valid, &event_types[i]) {
            let e = error_joined(ApiErrorKind::BadRequest, "Unknown event type: ", event_types[i].as_str());
            return Err(e);
        }
        i = i + 1;
    }
    Ok(())
}

/// What `char::to_uppercase` yields for `c` (one or more characters).
pub uninterp spec fn char_to_uppercase(c: char) -> Seq<char>;

/// `char::to_uppercase`, collected.
///
/// Trusted: the result is [`char_to_uppercase`] of `c`, and for an ASCII
/// character it is that character with a lower-case letter made upper-case.
#[verifier::external_body]
fn uppercase_of(c: char) -> (r: Vec<char>)
    ensures
        r@ == char_to_uppercase(c),
        (c as u32) < 128 ==> r@ == seq![crate::text::ascii_upper(c)],
{
    c.to_uppercase().collect()
}

/// A word with its first character upper-cased.
pub open spec fn capitalize(w: Seq<char>) -> Seq<char> {
    if w.len() == 0 {
        Seq::<char>::empty()
    } else {
        char_to_uppercase(w[0]) + w.drop_first()
    }
}

/// `words` joined by single spaces.
pub open spec fn join_spaces(words: Seq<Seq<char>>) -> Seq<char>
    decreases words.len(),
{
    if words.len() == 0 {
        Seq::<char>::empty()
    } else if words.len() == 1 {
        words[0]
    } else {
        join_spaces(words.drop_last()) + seq![' '] + words.last()
    }
}

/// An event type's human label: its `_`-separated words, each capitalised,
/// joined by spaces (`user_login` is "User Login").
pub open spec fn humanize_spec(value: Seq<char>) -> Seq<char> {
    join_spaces(split_any(value, seq!['_']).map_values(|w: Seq<char>| capitalize(w)))
}

/// Prettify an event type string into a human label (e.g. `user_login` ->
/// "User Login").
pub fn humanize(value: &str) -> (label: String)
    ensures
        label@ == humanize_spec(value@),
{
    let cs = chars_of(value);
    let seps: Vec<char> = vec!['_'];
    assert(seps@ =~= seq!['_']);
    let words = split_any_chars(cs.as_slice(), seps.as_slice());
    let ghost ws = views(words@);
    proof {
        crate::text::lemma_split_any_nonempty(cs@, seq!['_']);
    }
    let mut out: Vec<char> = Vec::new();
    let mut i: usize = 0;
    while i < words.len()
        invariant
            i <= words@.len(),
            ws == views(words@),
            out@ == join_spaces(ws.subrange(0, i as int).map_values(|w: Seq<char>| capitalize(w))),
        decreases words@.len() - i,
    {
        if i > 0 {
            out.push(' ');
        }
        let w = &words[i];
        let ghost before = out@;
        if w.len() > 0 {
            let up = uppercase_of(w[0]);
            crate::text::append_chars(&mut out, up.as_slice());
            let rest = crate::text::sub_chars(w.as_slice(), 1, w.len());
            crate::text::append_chars(&mut out, rest.as_slice());
            assert(rest@ =~= w@.drop_first());
        }
        proof {
            let caps = ws.subrange(0, i as int + 1).map_values(|w: Seq<char>| capitalize(w));
            let prev = ws.subrange(0, i as int).map_values(|w: Seq<char>| capitalize(w));
            assert(caps.drop_last() =~= prev);
            assert(ws[i as int] == w@);
            assert(caps.last() == capitalize(w@));
            if i == 0 {
                assert(out@ =~= capitalize(w@));
            } else {
                assert(out@ =~= before + capitalize(w@));
            }
        }
        i = i + 1;
    }
    assert(ws.subrange(0, ws.len() as int) =~= ws);
    string_from_chars(out.as_slice())
}

/// The catalog entry of an event type.
#[derive(Debug)]
pub struct EventTypeInfo {
    pub value: String,
    pub label: String,
}

/// The catalog of subscribable event types: each value with its label.
pub fn event_type_infos(values: &[String]) -> (infos: Vec<EventTypeInfo>)
    ensures
        infos@.len() == values@.len(),
        forall|i: int|
            0 <= i < values@.len() ==> (#[trigger] infos@[i]).value@ == values@[i]@
                && infos@[i].label@ == humanize_spec(values@[i]@),
{
    let mut infos: Vec<EventTypeInfo> = Vec::new();
    let mut i: usize = 0;
    while i < values.len()
        invariant
            i <= values@.len(),
            infos@.len() == i,
            forall|k: int|
                0 <= k < i ==> (#[trigger] infos@[k]).value@ == values@[k]@ && infos@[k].label@
                    == humanize_spec(values@[k]@),
        decreases values@.len() - i,
    {
        let v = values[i].clone();
        let label = humanize(values[i].as_str());
        infos.push(EventTypeInfo { value: v, label });
        i = i + 1;
    }
    infos
}

// ---------------------------------------------------------------------------
// Auth headers and webhook requests
// ---------------------------------------------------------------------------

/// A reusable, write-only credential to attach to webhook deliveries.
#[derive(Debug)]
pub struct CreateAuthHeaderRequest {
    pub name: String,
    pub header_name: String,
    pub header_value: String,
}

/// A change to an auth header; a present `header_value` replaces the stored
/// secret.
#[derive(Debug)]
pub struct UpdateAuthHeaderRequest {
    pub name: Option<String>,
    pub header_name: Option<String>,
    pub header_value: Option<String>,
}

/// Whether a trimmed string is empty.
fn blank(s: &String) -> (r: bool)
    ensures
        r == (trim(s@).len() == 0),
{
    let cs = chars_of(s.as_str());
    let t = trim_chars(cs.as_slice());
    t.len() == 0
}

/// Checks on a new auth header: a name and a header name (neither blank),
/// and a non-empty value.
pub fn validate_create_auth_header(req: &CreateAuthHeaderRequest) -> (r: Result<(), ApiError>)
    ensures
        unit_view(r) == (if trim(req.name@).len() == 0 || trim(req.header_name@).len() == 0 {
            Err(api_err(ApiErrorKind::BadRequest, "name and header_name are required"@))
        } else if req.header_value@.len() == 0 {
            Err(api_err(ApiErrorKind::BadRequest, "header_value is required"@))
        } else {
            Ok(())
        }),
{
    if blank(&req.name) || blank(&req.header_name) {
        return Err(error_with(ApiErrorKind::BadRequest, "name and header_name are required"));
    }
    if req.header_value.as_str().is_empty() {
        return Err(error_with(ApiErrorKind::BadRequest, "header_value is required"));
    }
    Ok(())
}

/// Checks on an auth header change: the value may be replaced, never
/// emptied.
pub fn validate_update_auth_header(req: &UpdateAuthHeaderRequest) -> (r: Result<(), ApiError>)
    ensures
        unit_view(r) == (match req.header_value {
            Some(v) => if v@.len() == 0 {
                Err(api_err(ApiErrorKind::BadRequest, "header_value cannot be set to empty"@))
            } else {
                Ok(())
            },
            None => Ok(()),
        }),
{
    if let Some(v) = &req.header_value {
        if v.as_str().is_empty() {
            return Err(error_with(ApiErrorKind::BadRequest, "header_value cannot be set to empty"));
        }
    }
    Ok(())
}

/// Whether a stored auth header has a value (the value itself is never
/// returned).
pub fn has_value(header_value: &str) -> (r: bool)
    ensures
        r == (header_value@.len() > 0),
{
    !header_value.is_empty()
}

/// An auth header may be deleted only when no webhook uses it.
pub fn check_auth_header_unused(usage: i64) -> (r: Result<(), ApiError>)
    ensures
        unit_view(r) == (if usage > 0 {
            Err(
                api_err(
                    ApiErrorKind::Conflict,
                    "Auth header is still attached to "@ + crate::text::dec_i64(usage)
                        + " webhook(s); detach it first"@,
                ),
            )
        } else {
            Ok(())
        }),
{
    if usage > 0 {
        let mut msg: Vec<char> = chars_of("Auth header is still attached to ");
        crate::text::push_decimal_i64(&mut msg, usage);
        crate::text::append_str(&mut msg, " webhook(s); detach it first");
        let s = string_from_chars(msg.as_slice());
        return Err(crate::errors::make_error(ApiErrorKind::Conflict, s));
    }
    Ok(())
}

/// The page of deliveries listed: the limit defaults to 50 and is clamped to
/// 1..=500; the offset defaults to 0 and is never negative.
pub fn delivery_window(limit: Option<i64>, offset: Option<i64>) -> (r: (i64, i64))
    ensures
        r.0 == (match limit {
            Some(l) => if l < 1 {
                1
            } else if l > 500 {
                500
            } else {
                l
            },
            None => 50,
        }),
        r.1 == (match offset {
            Some(o) => if o < 0 {
                0
            } else {
                o
            },
            None => 0,
        }),
        1 <= r.0 <= 500,
        r.1 >= 0,
{
    let l = match limit {
        Some(l) => l,
        None => 50,
    };
    let l = if l < 1 {
        1
    } else if l > 500 {
        500
    } else {
        l
    };
    let o = match offset {
        Some(o) => o,
        None => 0,
    };
    let o = if o < 0 {
        0
    } else {
        o
    };
    (l, o)
}

/// Checks on a new webhook: a name that is not blank, an acceptable URL,
/// and known event types, in that order.
pub fn validate_new_webhook(name: &String, url: &str, event_types: &[String], valid: &[String]) -> (r:
    Result<(), ApiError>)
    ensures
        trim(name@).len() == 0 ==> unit_view(r) == Err::<(), ApiErrorView>(
            api_err(ApiErrorKind::BadRequest, "name is required"@),
        ),
        trim(name@).len() != 0 && destination_verdict(url_parse(url@)) is Err ==> unit_view(r)
            == destination_verdict(url_parse(url@)),
        r is Ok <==> (trim(name@).len() != 0 && destination_verdict(url_parse(url@)) is Ok && (
        forall|i: int|
            0 <= i < event_types@.len() ==> string_views(valid@).contains(#[trigger] event_types@[i]@))),
{
    if blank(name) {
        return Err(error_with(ApiErrorKind::BadRequest, "name is required"));
    }
    validate_url(url)?;
    validate_event_types(event_types, valid)
}

// ---------------------------------------------------------------------------
// Signatures, as the test receiver checks them
// ---------------------------------------------------------------------------

/// The `X-Webhook-Signature` a delivery of `body` carries: `sha256=` and the
/// lower-case hex HMAC-SHA256 of the raw body, keyed by the signing secret.
pub open spec fn webhook_signature_spec(secret: Seq<char>, body: Seq<u8>) -> Seq<char> {
    "sha256="@ + hex_lower(hmac_sha256(encode_utf8(secret), body))
}

/// The signature a delivery of `body` should carry.
pub fn webhook_signature(secret: &str, body: &[u8]) -> (s: String)
    ensures
        s@ == webhook_signature_spec(secret@, body@),
{
    let tag = hmac_sha256_tag(secret.as_bytes(), body);
    let hex = hex_encode(tag.as_slice());
    "sha256=".to_string().concat(hex.as_str())
}

/// Whether a delivery's signature header is the one its body calls for.
pub fn webhook_signature_matches(secret: &str, body: &[u8], provided: &str) -> (r: bool)
    ensures
        r == (provided@ == webhook_signature_spec(secret@, body@)),
{
    let expected = webhook_signature(secret, body);
    let a = chars_of(provided);
    let b = chars_of(expected.as_str());
    chars_eq(a.as_slice(), b.as_slice())
}

} // verus!
