//! Verification of inbound Stripe webhooks.
//!
//! Stripe signs a webhook by sending `Stripe-Signature: t=<unix>,v1=<hex>`
//! (with possibly several `v1` entries), where each `v1` is the lower-case hex
//! HMAC-SHA256, keyed by the endpoint's webhook secret, of the payload
//! `"{t}.{raw body}"`. A request verifies when the secret is set, the header
//! carries a timestamp within the tolerance window of `now`, and one of its
//! `v1` values equals the expected signature byte for byte.

use vstd::prelude::*;
use vstd::utf8::encode_utf8;
use hmac::{Hmac, Mac};
use sha2::Sha256;
use crate::errors::{api_err, error_with, ApiError, ApiErrorKind, ApiErrorView};
use crate::text::{
    is_digit, is_ws, lemma_dec_i64_chars, lemma_first_index_at, lemma_hex_lower_chars,
    lemma_parse_i64_of_dec, lemma_split_any_extend, lemma_split_any_separator, lemma_trim_without_space,
    ascii_bytes, chars_of, dec_i64, hex_char, hex_lower, parse_i64, parse_i64_chars, push_decimal_i64,
    split_any, split_any_chars, split_once, split_once_chars, str_is, string_from_chars, trim,
    trim_chars, trim_str, views,
};

verus! {

// ---------------------------------------------------------------------------
// Trusted primitives
// ---------------------------------------------------------------------------

/// The HMAC-SHA256 tag of `msg` under `key`, as computed by the `hmac` crate
/// over `sha2::Sha256`.
pub uninterp spec fn hmac_sha256(key: Seq<u8>, msg: Seq<u8>) -> Seq<u8>;

/// `Hmac::<Sha256>::new_from_slice(key)`, one `update(msg)`, `finalize()`.
///
/// Trusted: the result is the HMAC-SHA256 tag named by [`hmac_sha256`], and
/// it is 32 bytes long. HMAC accepts keys of any length, so `new_from_slice`
/// cannot fail here.
#[verifier::external_body]
pub(crate) fn hmac_sha256_tag(key: &[u8], msg: &[u8]) -> (tag: Vec<u8>)
    ensures
        tag@ == hmac_sha256(key@, msg@),
        tag@.len() == 32,
{
    let mut mac = Hmac::<Sha256>::new_from_slice(key).expect("HMAC accepts keys of any length");
    mac.update(msg);
    mac.finalize().into_bytes().to_vec()
}

/// The lower-case hexadecimal digit for `d < 16`.
fn hex_digit(d: u8) -> (c: char)
    requires
        d < 16,
    ensures
        c == hex_char(d as nat),
{
    if d < 10 {
        let b: u8 = 48 + d;
        b as char
    } else {
        let b: u8 = 87 + d;
        b as char
    }
}

/// Lower-case hexadecimal, two digits per byte, most significant nibble
/// first (what `hex::encode` returns).
pub(crate) fn hex_encode(bytes: &[u8]) -> (s: String)
    ensures
        s@ == hex_lower(bytes@),
{
    let mut out: Vec<char> = Vec::new();
    let mut i: usize = 0;
    while i < bytes.len()
        invariant
            i <= bytes@.len(),
            out@ == hex_lower(bytes@.subrange(0, i as int)),
        decreases bytes@.len() - i,
    {
        let b = bytes[i];
        proof {
            let t = bytes@.subrange(0, i as int + 1);
            assert(t.drop_last() =~= bytes@.subrange(0, i as int));
            assert(t.last() == b);
        }
        out.push(hex_digit(b / 16));
        out.push(hex_digit(b % 16));
        i = i + 1;
    }
    assert(bytes@.subrange(0, bytes@.len() as int) =~= bytes@);
    string_from_chars(out.as_slice())
}

// ---------------------------------------------------------------------------
// Signing
// ---------------------------------------------------------------------------

/// The payload Stripe signs: the decimal timestamp, a `.`, then the raw body.
pub open spec fn signed_payload(timestamp: i64, body: Seq<u8>) -> Seq<u8> {
    ascii_bytes(dec_i64(timestamp)) + seq![46u8] + body
}

/// The expected `v1` value for a timestamp and body under `secret`.
pub open spec fn stripe_signature(secret: Seq<char>, timestamp: i64, body: Seq<u8>) -> Seq<char> {
    hex_lower(hmac_sha256(encode_utf8(secret), signed_payload(timestamp, body)))
}

/// The ASCII bytes of the characters in `cs`.
fn ascii_bytes_of(cs: &[char]) -> (out: Vec<u8>)
    ensures
        out@ == ascii_bytes(cs@),
{
    let mut out: Vec<u8> = Vec::new();
    let mut i: usize = 0;
    while i < cs.len()
        invariant
            i <= cs@.len(),
            out@ == ascii_bytes(cs@.subrange(0, i as int)),
        decreases cs@.len() - i,
    {
        out.push(cs[i] as u8);
        i = i + 1;
        assert(out@ =~= ascii_bytes(cs@.subrange(0, i as int)));
    }
    assert(cs@.subrange(0, cs@.len() as int) =~= cs@);
    out
}

/// Hex HMAC-SHA256 of Stripe's signed payload `"{timestamp}.{body}"`.
pub fn sign_stripe(secret: &str, timestamp: i64, body: &[u8]) -> (sig: String)
    ensures
        sig@ == stripe_signature(secret@, timestamp, body@),
{
    let mut digits: Vec<char> = Vec::new();
    push_decimal_i64(&mut digits, timestamp);
    assert(digits@ =~= dec_i64(timestamp));
    let mut payload = ascii_bytes_of(digits.as_slice());
    payload.push(46u8);
    let mut i: usize = 0;
    let ghost head = payload@;
    while i < body.len()
        invariant
            i <= body@.len(),
            payload@ == head + body@.subrange(0, i as int),
        decreases body@.len() - i,
    {
        payload.push(body[i]);
        i = i + 1;
        assert(payload@ =~= head + body@.subrange(0, i as int));
    }
    assert(body@.subrange(0, body@.len() as int) =~= body@);
    assert(payload@ =~= signed_payload(timestamp, body@));
    let key = secret.as_bytes();
    let tag = hmac_sha256_tag(key, payload.as_slice());
    hex_encode(tag.as_slice())
}

// ---------------------------------------------------------------------------
// Constant-time comparison
// ---------------------------------------------------------------------------

proof fn lemma_or_xor_zero(d: u8, x: u8, y: u8)
    ensures
        ((d | (x ^ y)) == 0) <==> (d == 0 && x == y),
{
    assert(((d | (x ^ y)) == 0) <==> (d == 0 && x == y)) by (bit_vector);
}

/// Length-checked comparison that looks at every byte whatever it finds.
pub fn constant_time_eq(a: &[u8], b: &[u8]) -> (r: bool)
    ensures
        r == (a@ == b@),
{
    if a.len() != b.len() {
        return false;
    }
    let mut diff: u8 = 0;
    let mut i: usize = 0;
    while i < a.len()
        invariant
            a@.len() == b@.len(),
            i <= a@.len(),
            (diff == 0) <==> (forall|k: int| 0 <= k < i ==> a@[k] == b@[k]),
        decreases a@.len() - i,
    {
        let x = a[i];
        let y = b[i];
        proof {
            lemma_or_xor_zero(diff, x, y);
        }
        let ghost before = diff;
        diff = diff | (x ^ y);
        proof {
            if diff == 0 {
                assert forall|k: int| 0 <= k < i + 1 implies a@[k] == b@[k] by {
                    if k < i {
                    } else {
                        assert(k == i);
                    }
                }
            } else {
                if before == 0 {
                    assert(!(a@[i as int] == b@[i as int]));
                }
            }
        }
        i = i + 1;
    }
    if diff == 0 {
        assert(a@ =~= b@);
        true
    } else {
        false
    }
}

// ---------------------------------------------------------------------------
// The header
// ---------------------------------------------------------------------------

/// One comma-separated part of the header applied to what has been read so
/// far: `t=` sets (or, when unparsable, clears) the timestamp, `v1=` adds a
/// signature, anything else (including a part with no `=`) is ignored.
pub open spec fn scan_part(
    acc: (Option<i64>, Seq<Seq<char>>),
    part: Seq<char>,
) -> (Option<i64>, Seq<Seq<char>>) {
    match split_once(part, '=') {
        None => acc,
        Some((k, v)) => {
            let key = trim(k);
            if key == "t"@ {
                (parse_i64(trim(v)), acc.1)
            } else if key == "v1"@ {
                (acc.0, acc.1.push(trim(v)))
            } else {
                acc
            }
        },
    }
}

/// The timestamp and the `v1` signatures that a list of header parts carries.
pub open spec fn scan_header(parts: Seq<Seq<char>>) -> (Option<i64>, Seq<Seq<char>>)
    decreases parts.len(),
{
    if parts.len() == 0 {
        (None, Seq::<Seq<char>>::empty())
    } else {
        scan_part(scan_header(parts.drop_last()), parts.last())
    }
}

/// The timestamp and the `v1` signatures of a `Stripe-Signature` header.
pub open spec fn stripe_header_fields(header: Seq<char>) -> (Option<i64>, Seq<Seq<char>>) {
    scan_header(split_any(header, seq![',']))
}

/// `|x|`.
pub open spec fn abs(x: int) -> int {
    if x < 0 {
        -x
    } else {
        x
    }
}

/// When a webhook verifies.
pub open spec fn stripe_signature_valid(
    secret: Seq<char>,
    body: Seq<u8>,
    header: Seq<char>,
    now: i64,
    tolerance: i64,
) -> bool {
    let fields = stripe_header_fields(header);
    let sigs = fields.1;
    &&& secret.len() > 0
    &&& fields.0 is Some
    &&& abs(now - fields.0->0) <= tolerance
    &&& sigs.len() > 0
    &&& exists|i: int|
        0 <= i < sigs.len() && #[trigger] encode_utf8(sigs[i]) == encode_utf8(
            stripe_signature(secret, fields.0->0, body),
        )
}

/// The timestamp and signatures of the header `header`.
pub fn parse_stripe_header(header: &str) -> (r: (Option<i64>, Vec<Vec<char>>))
    ensures
        (r.0, views(r.1@)) == stripe_header_fields(header@),
{
    let hs = chars_of(header);
    let seps: Vec<char> = vec![','];
    assert(seps@ =~= seq![',']);
    let parts = split_any_chars(hs.as_slice(), seps.as_slice());
    let mut timestamp: Option<i64> = None;
    let mut sigs: Vec<Vec<char>> = Vec::new();
    let mut i: usize = 0;
    assert(views(parts@).subrange(0, 0) =~= Seq::<Seq<char>>::empty());
    assert(views(sigs@) =~= Seq::<Seq<char>>::empty());
    while i < parts.len()
        invariant
            i <= parts@.len(),
            views(parts@) == split_any(header@, seq![',']),
            (timestamp, views(sigs@)) == scan_header(views(parts@).subrange(0, i as int)),
        decreases parts@.len() - i,
    {
        let ghost before = (timestamp, views(sigs@));
        let part = &parts[i];
        let ghost pv = views(parts@)[i as int];
        assert(part@ == pv);
        match split_once_chars(part.as_slice(), '=') {
            None => {},
            Some((k, v)) => {
                let key = trim_chars(k.as_slice());
                let val = trim_chars(v.as_slice());
                if str_is(key.as_slice(), "t") {
                    timestamp = parse_i64_chars(val.as_slice());
                } else if str_is(key.as_slice(), "v1") {
                    sigs.push(val);
                    assert(views(sigs@) =~= before.1.push(trim(v@)));
                }
            },
        }
        assert(views(parts@).subrange(0, i + 1).drop_last() =~= views(parts@).subrange(
            0,
            i as int,
        ));
        i = i + 1;
    }
    assert(views(parts@).subrange(0, parts@.len() as int) =~= views(parts@));
    (timestamp, sigs)
}

/// Verify a `Stripe-Signature` header (`t=<unix>,v1=<hex>[,v1=<hex>...]`).
///
/// Rejects an empty secret, a missing `t`/`v1`, a timestamp more than
/// `tolerance` seconds from `now`, and a `v1` that does not match the HMAC of
/// `"{t}.{body}"`. The comparison is constant-time.
pub fn verify_stripe_signature(
    secret: &str,
    body: &[u8],
    header: &str,
    now: i64,
    tolerance: i64,
) -> (ok: bool)
    ensures
        ok == stripe_signature_valid(secret@, body@, header@, now, tolerance),
{
    if secret.is_empty() {
        return false;
    }
    let (timestamp, sigs) = parse_stripe_header(header);
    let ghost fields = stripe_header_fields(header@);
    assert(timestamp == fields.0);
    assert(views(sigs@) == fields.1);
    let t = match timestamp {
        Some(t) => t,
        None => {
            return false;
        },
    };
    let diff: i128 = (now as i128) - (t as i128);
    let dist: i128 = if diff < 0 {
        -diff
    } else {
        diff
    };
    if dist > tolerance as i128 {
        return false;
    }
    if sigs.len() == 0 {
        return false;
    }
    let expected = sign_stripe(secret, t, body);
    let expected_bytes = expected.as_str().as_bytes();
    let ghost want = encode_utf8(stripe_signature(secret@, t, body@));
    let mut i: usize = 0;
    while i < sigs.len()
        invariant
            i <= sigs@.len(),
            expected_bytes@ == want,
            views(sigs@) == fields.1,
            fields.0 == Some(t),
            fields == stripe_header_fields(header@),
            abs(now - t) <= tolerance,
            secret@.len() > 0,
            want == encode_utf8(stripe_signature(secret@, t, body@)),
            forall|k: int| 0 <= k < i ==> #[trigger] encode_utf8(sigs@[k]@) != want,
        decreases sigs@.len() - i,
    {
        let candidate = string_from_chars(sigs[i].as_slice());
        let cb = candidate.as_str().as_bytes();
        if constant_time_eq(expected_bytes, cb) {
            assert(views(sigs@)[i as int] == sigs@[i as int]@);
            assert(encode_utf8(fields.1[i as int]) == want);
            assert(abs(now - t) <= tolerance);
            return true;
        }
        i = i + 1;
    }
    proof {
        let vs = views(sigs@);
        assert forall|k: int| 0 <= k < vs.len() implies #[trigger] encode_utf8(vs[k]) != want by {
            assert(vs[k] == sigs@[k]@);
        }
    }
    false
}

// ---------------------------------------------------------------------------
// The webhook endpoint and the checkout requests
// ---------------------------------------------------------------------------

/// How far, in seconds, a signature's timestamp may be from now.
pub const SIGNATURE_TOLERANCE_SECS: i64 = 300;

/// The kind of checkout a member asks for.
#[derive(Clone, Copy, Debug, PartialEq, Eq, Structural)]
pub enum CheckoutModeRequest {
    Subscription,
    OneShot,
}

/// A checkout request.
#[derive(Clone, Copy, Debug)]
pub struct CheckoutRequest {
    pub mode: CheckoutModeRequest,
}

/// Where to send the member's browser.
#[derive(Clone, Debug)]
pub struct RedirectResponse {
    pub url: String,
}

/// The acknowledgement of an inbound webhook: whether it moved anything.
#[derive(Clone, Copy, Debug)]
pub struct WebhookAck {
    pub handled: bool,
}

/// How an inbound webhook is admitted: a disabled module answers "not
/// here" (404) rather than "forbidden", a missing secret is forbidden, and
/// a bad or stale signature is unauthorized.
pub open spec fn webhook_gate_spec(enabled: bool, secret: Seq<char>, body: Seq<u8>, header: Seq<char>, now: i64) -> Result<(), ApiErrorView> {
    if !enabled {
        Err(api_err(ApiErrorKind::NotFound, "Stripe integration is not enabled"@))
    } else if trim(secret).len() == 0 {
        Err(
            api_err(
                ApiErrorKind::Forbidden,
                "Stripe inbound webhook is not configured (no webhook_secret)"@,
            ),
        )
    } else if !stripe_signature_valid(secret, body, header, now, SIGNATURE_TOLERANCE_SECS) {
        Err(api_err(ApiErrorKind::Unauthorized, "Invalid Stripe webhook signature"@))
    } else {
        Ok(())
    }
}

/// Admit an inbound webhook: the module must be on, a secret configured,
/// and the `Stripe-Signature` header (empty when absent) must sign the body
/// within the tolerance of `now`.
pub fn webhook_gate(enabled: bool, secret: &str, body: &[u8], header: &str, now: i64) -> (r: Result<(), ApiError>)
    ensures
        match r {
            Ok(()) => webhook_gate_spec(enabled, secret@, body@, header@, now) is Ok,
            Err(e) => webhook_gate_spec(enabled, secret@, body@, header@, now) == Err::<(), ApiErrorView>(e@),
        },
{
    if !enabled {
        return Err(error_with(ApiErrorKind::NotFound, "Stripe integration is not enabled"));
    }
    let t = trim_str(secret);
    if t.as_str().is_empty() {
        return Err(
            error_with(
                ApiErrorKind::Forbidden,
                "Stripe inbound webhook is not configured (no webhook_secret)",
            ),
        );
    }
    if !verify_stripe_signature(secret, body, header, now, SIGNATURE_TOLERANCE_SECS) {
        return Err(error_with(ApiErrorKind::Unauthorized, "Invalid Stripe webhook signature"));
    }
    Ok(())
}

/// A webhook is acted on only when it is signed with the configured secret:
/// whatever else holds, an admitted webhook carries a valid signature.
pub proof fn law_admitted_webhooks_are_signed(enabled: bool, secret: Seq<char>, body: Seq<u8>, header: Seq<char>, now: i64)
    requires
        webhook_gate_spec(enabled, secret, body, header, now) is Ok,
    ensures
        enabled,
        stripe_signature_valid(secret, body, header, now, SIGNATURE_TOLERANCE_SECS),
{
}

/// The header Stripe sends for a signature made at `t`.
pub open spec fn signature_header(t: i64, sig: Seq<char>) -> Seq<char> {
    ("t="@ + dec_i64(t)).push(',') + ("v1="@ + sig)
}

/// A webhook signed with the secret, carrying the signature made at `t`,
/// verifies whenever `now` is within the tolerance of `t`: what the sender
/// signs, the receiver accepts.
pub proof fn law_signed_webhooks_verify(secret: Seq<char>, body: Seq<u8>, t: i64, now: i64, tolerance: i64)
    requires
        secret.len() > 0,
        abs(now - t) <= tolerance,
    ensures
        stripe_signature_valid(
            secret,
            body,
            signature_header(t, stripe_signature(secret, t, body)),
            now,
            tolerance,
        ),
{
    reveal_strlit("t=");
    reveal_strlit("v1=");
    reveal_strlit("t");
    reveal_strlit("v1");
    let sig = stripe_signature(secret, t, body);
    let d = dec_i64(t);
    let a = "t="@ + d;
    let b = "v1="@ + sig;
    let commas = seq![','];
    lemma_dec_i64_chars(t);
    lemma_hex_lower_chars(hmac_sha256(encode_utf8(secret), signed_payload(t, body)));
    // Neither half holds a comma, an `=` or white space.
    assert forall|k: int| 0 <= k < d.len() implies !is_ws(#[trigger] d[k]) && d[k] != ',' && d[k] != '=' by {
        assert(is_digit(d[k]) || d[k] == '-');
    }
    assert forall|k: int| 0 <= k < sig.len() implies !is_ws(#[trigger] sig[k]) && sig[k] != ',' && sig[k] != '=' by {
        assert(is_digit(sig[k]) || ('a' <= sig[k] && sig[k] <= 'f'));
    }
    assert forall|k: int| 0 <= k < a.len() implies !commas.contains(#[trigger] a[k]) by {
        if k >= 2 {
            assert(a[k] == d[k - 2]);
        }
    }
    assert forall|k: int| 0 <= k < b.len() implies !commas.contains(#[trigger] b[k]) by {
        if k >= 3 {
            assert(b[k] == sig[k - 3]);
        }
    }
    // The header splits into its two halves.
    lemma_split_any_extend(Seq::<char>::empty(), a, commas);
    assert(Seq::<char>::empty() + a =~= a);
    assert(split_any(a, commas) =~= seq![a]);
    assert(commas[0] == ',');
    assert(commas.contains(','));
    lemma_split_any_separator(a, ',', commas);
    lemma_split_any_extend(a.push(','), b, commas);
    let parts = split_any(signature_header(t, sig), commas);
    assert(Seq::<char>::empty() + b =~= b);
    assert(parts =~= seq![a, b]);
    // The first half sets the timestamp.
    lemma_first_index_at(a, '=', 1);
    assert(a.subrange(0, 1) =~= "t"@);
    assert(a.subrange(2, a.len() as int) =~= d);
    lemma_trim_without_space("t"@);
    lemma_trim_without_space(d);
    lemma_parse_i64_of_dec(t);
    assert(split_once(a, '=') == Some(("t"@, d)));
    let first = scan_part((None, Seq::<Seq<char>>::empty()), a);
    assert(first == (Some(t), Seq::<Seq<char>>::empty()));
    // The second adds the signature.
    assert forall|k: int| 0 <= k < 2 implies #[trigger] b[k] != '=' by {}
    lemma_first_index_at(b, '=', 2);
    assert(b.subrange(0, 2) =~= "v1"@);
    assert(b.subrange(3, b.len() as int) =~= sig);
    lemma_trim_without_space("v1"@);
    lemma_trim_without_space(sig);
    assert(split_once(b, '=') == Some(("v1"@, sig)));
    assert("v1"@ != "t"@);
    let second = scan_part(first, b);
    assert(second == (Some(t), seq![sig]));
    assert(seq![a, b].drop_last() =~= seq![a]);
    assert(seq![a].drop_last() =~= Seq::<Seq<char>>::empty());
    assert(scan_header(seq![a]) == scan_part(scan_header(Seq::<Seq<char>>::empty()), a));
    assert(scan_header(seq![a]) == first);
    assert(scan_header(seq![a, b]) == second);
    let fields = stripe_header_fields(signature_header(t, sig));
    assert(fields == second);
    assert(fields.1[0] == sig);
    assert(fields.0 == Some(t));
    assert(encode_utf8(fields.1[0]) == encode_utf8(stripe_signature(secret, fields.0->0, body)));
}

/// Every `v1=` part of a header is a signature: appending a part `v1=x`
/// to the parts read so far keeps the timestamp and adds exactly `x`
/// (trimmed) to the end of the signatures, however many came before.
pub proof fn law_every_v1_part_is_a_signature(parts: Seq<Seq<char>>, x: Seq<char>)
    ensures
        scan_header(parts.push("v1="@ + x)) == (scan_header(parts).0, scan_header(parts).1.push(trim(x))),
{
    reveal_strlit("v1=");
    reveal_strlit("v1");
    reveal_strlit("t");
    let b = "v1="@ + x;
    assert(parts.push(b).drop_last() =~= parts);
    assert forall|k: int| 0 <= k < 2 implies #[trigger] b[k] != '=' by {}
    lemma_first_index_at(b, '=', 2);
    assert(b.subrange(0, 2) =~= "v1"@);
    assert(b.subrange(3, b.len() as int) =~= x);
    lemma_trim_without_space("v1"@);
    assert(split_once(b, '=') == Some(("v1"@, x)));
    assert("v1"@ != "t"@);
}

/// The same, on the header text: appending `,v1=x` (with `x` free of
/// commas) to a header keeps its timestamp and adds `x` to its signatures.
/// So a header with several `v1` signatures carries all of them, and it
/// verifies when any one of them is the expected signature.
pub proof fn law_appended_signature_is_kept(header: Seq<char>, x: Seq<char>)
    requires
        forall|k: int| 0 <= k < x.len() ==> #[trigger] x[k] != ',',
    ensures
        stripe_header_fields(header.push(',') + ("v1="@ + x)) == (
            stripe_header_fields(header).0,
            stripe_header_fields(header).1.push(trim(x)),
        ),
{
    reveal_strlit("v1=");
    let b = "v1="@ + x;
    let commas = seq![','];
    assert forall|k: int| 0 <= k < b.len() implies !commas.contains(#[trigger] b[k]) by {
        if k >= 3 {
            assert(b[k] == x[k - 3]);
        }
        if commas.contains(b[k]) {
            let j = choose|j: int| 0 <= j < commas.len() && commas[j] == b[k];
            assert(commas[j] == ',');
        }
    }
    assert(commas[0] == ',');
    assert(commas.contains(','));
    lemma_split_any_separator(header, ',', commas);
    lemma_split_any_extend(header.push(','), b, commas);
    assert(Seq::<char>::empty() + b =~= b);
    assert(split_any(header.push(',') + b, commas) =~= split_any(header, commas).push(b));
    law_every_v1_part_is_a_signature(split_any(header, commas), x);
}

/// A header verifies on any of its signatures: if one `v1` value of a
/// fresh header from the sender is the expected signature, the header is
/// valid, whatever other signatures come before or after it.
pub proof fn law_any_matching_signature_verifies(
    secret: Seq<char>,
    body: Seq<u8>,
    header: Seq<char>,
    now: i64,
    tolerance: i64,
    i: int,
)
    requires
        secret.len() > 0,
        stripe_header_fields(header).0 matches Some(t) && abs(now - t) <= tolerance,
        0 <= i < stripe_header_fields(header).1.len(),
        encode_utf8(stripe_header_fields(header).1[i]) == encode_utf8(
            stripe_signature(secret, stripe_header_fields(header).0->0, body),
        ),
    ensures
        stripe_signature_valid(secret, body, header, now, tolerance),
{
}

/// The Stripe events the membership module acts on.
#[derive(Clone, Copy, Debug, PartialEq, Eq, Structural)]
pub enum StripeEventRoute {
    CheckoutCompleted,
    InvoicePaid,
    PaymentFailed,
    SubscriptionUpdated,
    SubscriptionDeleted,
    ChargeRefunded,
    /// Acknowledged and ignored.
    Ignored,
}

/// Which handler an event type goes to.
pub open spec fn route_of(event_type: Seq<char>) -> StripeEventRoute {
    if event_type == "checkout.session.completed"@ {
        StripeEventRoute::CheckoutCompleted
    } else if event_type == "invoice.paid"@ || event_type == "invoice.payment_succeeded"@ {
        StripeEventRoute::InvoicePaid
    } else if event_type == "invoice.payment_failed"@ {
        StripeEventRoute::PaymentFailed
    } else if event_type == "customer.subscription.updated"@ {
        StripeEventRoute::SubscriptionUpdated
    } else if event_type == "customer.subscription.deleted"@ {
        StripeEventRoute::SubscriptionDeleted
    } else if event_type == "charge.refunded"@ {
        StripeEventRoute::ChargeRefunded
    } else {
        StripeEventRoute::Ignored
    }
}

/// Route an event by its type; any other type is acknowledged and ignored,
/// so Stripe stops retrying it.
pub fn route_event(event_type: &str) -> (r: StripeEventRoute)
    ensures
        r == route_of(event_type@),
{
    let cs = chars_of(event_type);
    if str_is(cs.as_slice(), "checkout.session.completed") {
        StripeEventRoute::CheckoutCompleted
    } else if str_is(cs.as_slice(), "invoice.paid") || str_is(cs.as_slice(), "invoice.payment_succeeded") {
        StripeEventRoute::InvoicePaid
    } else if str_is(cs.as_slice(), "invoice.payment_failed") {
        StripeEventRoute::PaymentFailed
    } else if str_is(cs.as_slice(), "customer.subscription.updated") {
        StripeEventRoute::SubscriptionUpdated
    } else if str_is(cs.as_slice(), "customer.subscription.deleted") {
        StripeEventRoute::SubscriptionDeleted
    } else if str_is(cs.as_slice(), "charge.refunded") {
        StripeEventRoute::ChargeRefunded
    } else {
        StripeEventRoute::Ignored
    }
}

/// Refuse an authenticated Stripe endpoint while Stripe is switched off.
pub fn require_stripe_enabled(enabled: bool) -> (r: Result<(), ApiError>)
    ensures
        enabled ==> r is Ok,
        !enabled ==> (r matches Err(e) && e@ == api_err(
            ApiErrorKind::Forbidden,
            "Stripe integration is disabled in server configuration"@,
        )),
{
    if !enabled {
        return Err(
            error_with(ApiErrorKind::Forbidden, "Stripe integration is disabled in server configuration"),
        );
    }
    Ok(())
}

/// The Stripe customer whose billing portal is opened: a member who never
/// started a membership has none.
pub fn portal_customer(customer: Option<String>) -> (r: Result<String, ApiError>)
    ensures
        match customer {
            Some(c) => r matches Ok(x) && x@ == c@,
            None => r matches Err(e) && e@ == api_err(
                ApiErrorKind::BadRequest,
                "No Stripe customer for this account yet; start a membership first"@,
            ),
        },
{
    match customer {
        Some(c) => Ok(c),
        None => Err(
            error_with(
                ApiErrorKind::BadRequest,
                "No Stripe customer for this account yet; start a membership first",
            ),
        ),
    }
}

} // verus!
