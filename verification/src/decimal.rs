//! Decimal amounts: money, rates and electrical limits are `BigDecimal`s.
//! The library holds one as the decimal text it was read from.
//! The rules only ever ask two things of one: whether its text is a decimal
//! at all, and on which side of zero it lies.

use vstd::prelude::*;
use bigdecimal::BigDecimal;

verus! {

/// Whether `BigDecimal::from_str` accepts `s`.
pub uninterp spec fn decimal_parses(s: Seq<char>) -> bool;

/// The sign of the decimal that `s` parses to: -1, 0 or 1.
pub uninterp spec fn decimal_sign(s: Seq<char>) -> int;

/// `BigDecimal::sign` of the decimal that `s` parses to (`BigDecimal::from_str`
/// first), as -1 (`Minus`), 0 (`NoSign`) or 1 (`Plus`).
///
/// Trusted: `None` exactly when the text does not parse; otherwise the
/// number is [`decimal_sign`] of the text and lies between -1 and 1.
#[verifier::external_body]
pub(crate) fn decimal_text_sign(s: &str) -> (r: Option<i8>)
    ensures
        r is Some <==> decimal_parses(s@),
        r matches Some(x) ==> x as int == decimal_sign(s@) && -1 <= x <= 1,
{
    match <BigDecimal as std::str::FromStr>::from_str(s) {
        Ok(d) => match d.sign() {
            bigdecimal::num_bigint::Sign::Minus => Some(-1),
            bigdecimal::num_bigint::Sign::NoSign => Some(0),
            bigdecimal::num_bigint::Sign::Plus => Some(1),
        },
        Err(_) => None,
    }
}

/// A decimal amount, held as the decimal text it was read from.
#[derive(Clone, Debug)]
pub struct Decimal {
    pub text: String,
}

impl View for Decimal {
    type V = Seq<char>;

    open spec fn view(&self) -> Seq<char> {
        self.text@
    }
}

/// Read a decimal: `Some` exactly when `BigDecimal::from_str` accepts the
/// text, holding that text.
pub fn read_decimal(s: &str) -> (r: Option<Decimal>)
    ensures
        r is Some <==> decimal_parses(s@),
        r matches Some(d) ==> d@ == s@,
{
    match decimal_text_sign(s) {
        Some(_) => Some(Decimal { text: String::from_str(s) }),
        None => None,
    }
}

/// Whether the text is a decimal below zero.
pub open spec fn decimal_negative(s: Seq<char>) -> bool {
    decimal_parses(s) && decimal_sign(s) < 0
}

/// Whether the text is a decimal above zero.
pub open spec fn decimal_positive(s: Seq<char>) -> bool {
    decimal_parses(s) && decimal_sign(s) > 0
}

/// Whether a decimal text keeps its scale within reach: an exponent, if it
/// has one, takes at most six characters (its sign included) after its `e`
/// or `E`, so its size is below a million. (The parser turns an exponent
/// into the scale; rescaling a decimal whose scale is near the ends of
/// `i64` overflows or never finishes.)
pub open spec fn modest_decimal(s: Seq<char>) -> bool {
    forall|i: int| 0 <= i < s.len() && (s[i] == 'e' || s[i] == 'E') ==> s.len() - i <= 7
}

/// Whether the text keeps its scale small, as [`modest_decimal`] says.
pub fn is_modest_decimal(s: &str) -> (r: bool)
    ensures
        r == modest_decimal(s@),
{
    let cs = crate::text::chars_of(s);
    let n = cs.len();
    let mut i: usize = 0;
    while i < n
        invariant
            n == cs@.len(),
            cs@ == s@,
            i <= n,
            forall|k: int| 0 <= k < i && (s@[k] == 'e' || s@[k] == 'E') ==> s@.len() - k <= 7,
        decreases n - i,
    {
        if (cs[i] == 'e' || cs[i] == 'E') && n - i > 7 {
            return false;
        }
        i = i + 1;
    }
    true
}

/// The text `BigDecimal::with_scale(2)` and `to_string` make of the decimal
/// that `s` parses to (two places, extra digits cut off).
pub uninterp spec fn decimal_two_places(s: Seq<char>) -> Seq<char>;

/// The text `to_string` makes of the difference of the decimals `a` and `b`
/// parse to, taken to two places by `with_scale(2)`.
pub uninterp spec fn decimal_difference_two_places(a: Seq<char>, b: Seq<char>) -> Seq<char>;

/// `BigDecimal::from_str`, `with_scale(2)`, `to_string`.
///
/// Trusted: `None` exactly when the text does not parse; otherwise
/// [`decimal_two_places`] of the text. Only for a text whose exponent is
/// small ([`modest_decimal`]): with a scale near the ends of `i64`,
/// `with_scale` overflows or never returns.
#[verifier::external_body]
pub(crate) fn decimal_text_two_places(s: &str) -> (r: Option<String>)
    requires
        modest_decimal(s@),
    ensures
        r is Some <==> decimal_parses(s@),
        r matches Some(x) ==> x@ == decimal_two_places(s@),
{
    <BigDecimal as std::str::FromStr>::from_str(s).ok().map(|d| d.with_scale(2).to_string())
}

/// `BigDecimal::from_str` on both texts, `-`, `with_scale(2)`, `to_string`.
///
/// Trusted: `None` exactly when one of the texts does not parse; otherwise
/// [`decimal_difference_two_places`] of the texts. Only for texts whose
/// exponents are small ([`modest_decimal`]): aligning the scales of the
/// two operands, or rescaling the difference, overflows or never returns
/// when a scale is near the ends of `i64`.
#[verifier::external_body]
pub(crate) fn decimal_text_difference_two_places(a: &str, b: &str) -> (r: Option<String>)
    requires
        modest_decimal(a@),
        modest_decimal(b@),
    ensures
        r is Some <==> (decimal_parses(a@) && decimal_parses(b@)),
        r matches Some(x) ==> x@ == decimal_difference_two_places(a@, b@),
{
    let x = <BigDecimal as std::str::FromStr>::from_str(a).ok()?;
    let y = <BigDecimal as std::str::FromStr>::from_str(b).ok()?;
    Some((x - y).with_scale(2).to_string())
}

} // verus!
