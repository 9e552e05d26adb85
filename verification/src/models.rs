//! The domain values the rest of the library decides over: roles and their
//! hierarchy, card and tool states, tool categories, ledger entry types, and
//! the user record the authentication rules read.

use vstd::prelude::*;
use vstd::arithmetic::div_mod::lemma_div_denominator;
use vstd::arithmetic::power::{lemma_pow_positive, pow};
use crate::text::{append_chars, hex_char, string_from_chars, sub_chars};

verus! {

/// A member's role. Roles are ordered: `Unknown` < `Newbie` < `Member` <
/// `Staff` < `Admin`.
#[derive(Clone, Copy, Debug, PartialEq, Eq, Structural)]
pub enum UserRole {
    Unknown,
    Newbie,
    Member,
    Staff,
    Admin,
}

/// The position of a role in the hierarchy.
pub open spec fn role_rank(r: UserRole) -> int {
    match r {
        UserRole::Unknown => 0,
        UserRole::Newbie => 1,
        UserRole::Member => 2,
        UserRole::Staff => 3,
        UserRole::Admin => 4,
    }
}

impl UserRole {
    /// The position of this role in the hierarchy.
    pub fn rank(&self) -> (r: u8)
        ensures
            r == role_rank(*self),
    {
        match self {
            UserRole::Unknown => 0,
            UserRole::Newbie => 1,
            UserRole::Member => 2,
            UserRole::Staff => 3,
            UserRole::Admin => 4,
        }
    }

    /// Administrators only.
    pub fn can_access_admin(&self) -> (r: bool)
        ensures
            r == (role_rank(*self) >= role_rank(UserRole::Admin)),
    {
        self.rank() >= 4
    }

    /// Staff and above.
    pub fn can_access_staff(&self) -> (r: bool)
        ensures
            r == (role_rank(*self) >= role_rank(UserRole::Staff)),
    {
        self.rank() >= 3
    }

    /// Members and above (not unknown, not newbie).
    pub fn can_access_member(&self) -> (r: bool)
        ensures
            r == (role_rank(*self) >= role_rank(UserRole::Member)),
    {
        self.rank() >= 2
    }
}

/// The lifecycle state of an access card. Only `Active` cards open tools and
/// doors.
#[derive(Clone, Copy, Debug, PartialEq, Eq, Structural)]
pub enum CardStatus {
    Active,
    Disabled,
    Released,
}

/// The state of a tool.
#[derive(Clone, Copy, Debug, PartialEq, Eq, Structural)]
pub enum ToolStatus {
    Idle,
    InUse,
    Maintenance,
    Broken,
    Repair,
    Retired,
}

/// The category of a tool.
#[derive(Clone, Copy, Debug, PartialEq, Eq, Structural)]
pub enum ToolCategory {
    Saw,
    PowerTool,
    HandTools,
    Measuring,
    Safety,
    Electronics,
    Woodworking,
    Metalworking,
    ThreeDPrinting,
    LaserCutting,
    Other,
}

/// The kind of a membership ledger entry.
#[derive(Clone, Copy, Debug, PartialEq, Eq, Structural)]
pub enum LedgerEntryType {
    CashPayment,
    Adjustment,
    ToolUsage,
    StripePayment,
    StripeRefund,
}

/// The stored name of each ledger entry type.
pub open spec fn ledger_entry_name(t: LedgerEntryType) -> Seq<char> {
    match t {
        LedgerEntryType::CashPayment => "cash_payment"@,
        LedgerEntryType::Adjustment => "adjustment"@,
        LedgerEntryType::ToolUsage => "tool_usage"@,
        LedgerEntryType::StripePayment => "stripe_payment"@,
        LedgerEntryType::StripeRefund => "stripe_refund"@,
    }
}

impl LedgerEntryType {
    /// The stored name of this entry type.
    pub fn as_str(&self) -> (s: &'static str)
        ensures
            s@ == ledger_entry_name(*self),
    {
        match self {
            LedgerEntryType::CashPayment => "cash_payment",
            LedgerEntryType::Adjustment => "adjustment",
            LedgerEntryType::ToolUsage => "tool_usage",
            LedgerEntryType::StripePayment => "stripe_payment",
            LedgerEntryType::StripeRefund => "stripe_refund",
        }
    }
}

/// An instant, as seconds and nanoseconds since the Unix epoch.
#[derive(Clone, Copy, Debug, PartialEq, Eq, Structural)]
pub struct Timestamp {
    pub unix_seconds: i64,
    pub nanos: u32,
}

/// Whether instant `a` comes strictly before instant `b`.
pub open spec fn before(a: Timestamp, b: Timestamp) -> bool {
    a.unix_seconds < b.unix_seconds || (a.unix_seconds == b.unix_seconds && a.nanos < b.nanos)
}

impl Timestamp {
    /// Whether this instant comes strictly before `other`.
    pub fn is_before(&self, other: &Timestamp) -> (r: bool)
        ensures
            r == before(*self, *other),
    {
        self.unix_seconds < other.unix_seconds || (self.unix_seconds == other.unix_seconds
            && self.nanos < other.nanos)
    }
}

/// The parts of a user account that the authentication rules read.
#[derive(Clone, Debug)]
pub struct User {
    /// The account's id, as the 128-bit value of its UUID.
    pub id: u128,
    pub username: String,
    pub email: String,
    pub password_hash: String,
    pub role: UserRole,
    pub is_active: bool,
}

/// The 32 lower-case hexadecimal digits of a 128-bit id, most significant
/// first.
pub open spec fn hex_digits_128(id: u128) -> Seq<char> {
    Seq::new(32, |k: int| hex_char(((id as int / pow(16, (31 - k) as nat)) % 16) as nat))
}

/// The hyphenated text of a UUID: its digits grouped 8-4-4-4-12.
pub open spec fn uuid_hyphenated(id: u128) -> Seq<char> {
    let h = hex_digits_128(id);
    h.subrange(0, 8) + seq!['-'] + h.subrange(8, 12) + seq!['-'] + h.subrange(12, 16) + seq!['-']
        + h.subrange(16, 20) + seq!['-'] + h.subrange(20, 32)
}

/// The lower-case hexadecimal digit for `d < 16`.
fn hex_digit_char(d: u8) -> (c: char)
    requires
        d < 16,
    ensures
        c == hex_char(d as nat),
{
    if d < 10 {
        let b: u8 = 48 + d;
        b as char
    } else {
        let b: u8 = 87 + d;
        b as char
    }
}

/// The hyphenated lower-case text of a UUID given by its 128-bit value
/// (what `Uuid::from_u128(id).to_string()` gives).
pub(crate) fn uuid_text(id: u128) -> (s: String)
    ensures
        s@ == uuid_hyphenated(id),
{
    // The 32 digits, least significant first.
    let mut rev: Vec<char> = Vec::new();
    let mut x: u128 = id;
    let mut j: usize = 0;
    assert(pow(16, 0) == 1) by {
        reveal_with_fuel(pow, 1);
    }
    while j < 32
        invariant
            j <= 32,
            rev@.len() == j,
            x as int == id as int / pow(16, j as nat),
            forall|m: int| 0 <= m < j ==> #[trigger] rev@[m] == hex_char(((id as int / pow(16, m as nat)) % 16) as nat),
        decreases 32 - j,
    {
        proof {
            lemma_pow_positive(16, j as nat);
            lemma_div_denominator(id as int, pow(16, j as nat), 16);
            assert(pow(16, (j + 1) as nat) == 16 * pow(16, j as nat)) by {
                reveal(pow);
            }
        }
        let d: u8 = (x % 16) as u8;
        rev.push(hex_digit_char(d));
        x = x / 16;
        j = j + 1;
    }
    // Most significant first.
    let mut h: Vec<char> = Vec::new();
    let mut k: usize = 0;
    while k < 32
        invariant
            k <= 32,
            rev@.len() == 32,
            h@.len() == k,
            forall|m: int| 0 <= m < k ==> #[trigger] h@[m] == rev@[31 - m],
            forall|m: int| 0 <= m < 32 ==> #[trigger] rev@[m] == hex_char(((id as int / pow(16, m as nat)) % 16) as nat),
        decreases 32 - k,
    {
        h.push(rev[31 - k]);
        k = k + 1;
    }
    assert(h@ =~= hex_digits_128(id)) by {
        assert forall|m: int| 0 <= m < 32 implies h@[m] == hex_digits_128(id)[m] by {
            assert(h@[m] == rev@[31 - m]);
        }
    }
    let mut out: Vec<char> = Vec::new();
    append_chars(&mut out, sub_chars(h.as_slice(), 0, 8).as_slice());
    out.push('-');
    append_chars(&mut out, sub_chars(h.as_slice(), 8, 12).as_slice());
    out.push('-');
    append_chars(&mut out, sub_chars(h.as_slice(), 12, 16).as_slice());
    out.push('-');
    append_chars(&mut out, sub_chars(h.as_slice(), 16, 20).as_slice());
    out.push('-');
    append_chars(&mut out, sub_chars(h.as_slice(), 20, 32).as_slice());
    assert(out@ =~= uuid_hyphenated(id));
    string_from_chars(out.as_slice())
}

} // verus!
