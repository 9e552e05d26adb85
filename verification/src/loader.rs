//! The value mappings of the ToolPass loader, which moves a staged export
//! into this system.
//!
//! Every mapping is deny-biased: an unrecognised role is `Unknown` (never a
//! privileged role), an unrecognised card status is `Disabled` (never
//! `Active`), an unrecognised ledger entry type is `ToolUsage` (never a
//! Stripe type), an unrecognised tool status is `Idle`.

use vstd::prelude::*;
use vstd::string::*;
use crate::models::{CardStatus, LedgerEntryType, Timestamp, ToolCategory, ToolStatus, UserRole};
use crate::text::{chars_eq, chars_of};
use crate::decimal::{decimal_parses, read_decimal, Decimal};

verus! {

/// The role a staged role name maps to.
pub open spec fn role_of_spec(s: Seq<char>) -> UserRole {
    if s == "admin"@ {
        UserRole::Admin
    } else if s == "staff"@ {
        UserRole::Staff
    } else if s == "member"@ {
        UserRole::Member
    } else if s == "newbie"@ {
        UserRole::Newbie
    } else {
        UserRole::Unknown
    }
}

/// Whether the characters of `s` equal `lit`.
fn is(s: &str, lit: &str) -> (r: bool)
    ensures
        r == (s@ == lit@),
{
    let a = chars_of(s);
    crate::text::str_is(a.as_slice(), lit)
}

/// Map a staged role name; anything unrecognised is `Unknown`.
pub fn role_of(s: &str) -> (r: UserRole)
    ensures
        r == role_of_spec(s@),
{
    if is(s, "admin") {
        UserRole::Admin
    } else if is(s, "staff") {
        UserRole::Staff
    } else if is(s, "member") {
        UserRole::Member
    } else if is(s, "newbie") {
        UserRole::Newbie
    } else {
        UserRole::Unknown
    }
}

/// The card status a staged status name maps to.
pub open spec fn card_status_of_spec(s: Seq<char>) -> CardStatus {
    if s == "active"@ {
        CardStatus::Active
    } else if s == "released"@ {
        CardStatus::Released
    } else {
        CardStatus::Disabled
    }
}

/// Map a staged card status; anything unrecognised is `Disabled`.
pub fn card_status_of(s: &str) -> (r: CardStatus)
    ensures
        r == card_status_of_spec(s@),
{
    if is(s, "active") {
        CardStatus::Active
    } else if is(s, "released") {
        CardStatus::Released
    } else {
        CardStatus::Disabled
    }
}

/// The tool category a staged category name maps to.
pub open spec fn category_of_spec(s: Seq<char>) -> ToolCategory {
    if s == "saw"@ {
        ToolCategory::Saw
    } else if s == "powertool"@ {
        ToolCategory::PowerTool
    } else if s == "hand_tools"@ {
        ToolCategory::HandTools
    } else if s == "measuring"@ {
        ToolCategory::Measuring
    } else if s == "safety"@ {
        ToolCategory::Safety
    } else if s == "electronics"@ {
        ToolCategory::Electronics
    } else if s == "woodworking"@ {
        ToolCategory::Woodworking
    } else if s == "metalworking"@ {
        ToolCategory::Metalworking
    } else if s == "3d_printing"@ {
        ToolCategory::ThreeDPrinting
    } else if s == "laser_cutting"@ {
        ToolCategory::LaserCutting
    } else {
        ToolCategory::Other
    }
}

/// Map a staged tool category; anything unrecognised is `Other`.
pub fn category_of(s: &str) -> (r: ToolCategory)
    ensures
        r == category_of_spec(s@),
{
    if is(s, "saw") {
        ToolCategory::Saw
    } else if is(s, "powertool") {
        ToolCategory::PowerTool
    } else if is(s, "hand_tools") {
        ToolCategory::HandTools
    } else if is(s, "measuring") {
        ToolCategory::Measuring
    } else if is(s, "safety") {
        ToolCategory::Safety
    } else if is(s, "electronics") {
        ToolCategory::Electronics
    } else if is(s, "woodworking") {
        ToolCategory::Woodworking
    } else if is(s, "metalworking") {
        ToolCategory::Metalworking
    } else if is(s, "3d_printing") {
        ToolCategory::ThreeDPrinting
    } else if is(s, "laser_cutting") {
        ToolCategory::LaserCutting
    } else {
        ToolCategory::Other
    }
}

/// The tool status a staged status name maps to.
pub open spec fn status_of_spec(s: Seq<char>) -> ToolStatus {
    if s == "in_use"@ {
        ToolStatus::InUse
    } else if s == "maintenance"@ {
        ToolStatus::Maintenance
    } else if s == "broken"@ {
        ToolStatus::Broken
    } else if s == "repair"@ {
        ToolStatus::Repair
    } else if s == "retired"@ {
        ToolStatus::Retired
    } else {
        ToolStatus::Idle
    }
}

/// Map a staged tool status; anything unrecognised is `Idle`.
pub fn status_of(s: &str) -> (r: ToolStatus)
    ensures
        r == status_of_spec(s@),
{
    if is(s, "in_use") {
        ToolStatus::InUse
    } else if is(s, "maintenance") {
        ToolStatus::Maintenance
    } else if is(s, "broken") {
        ToolStatus::Broken
    } else if is(s, "repair") {
        ToolStatus::Repair
    } else if is(s, "retired") {
        ToolStatus::Retired
    } else {
        ToolStatus::Idle
    }
}

/// The ledger entry type a staged type name maps to.
pub open spec fn entry_type_of_spec(s: Seq<char>) -> LedgerEntryType {
    if s == "cash_payment"@ {
        LedgerEntryType::CashPayment
    } else if s == "adjustment"@ {
        LedgerEntryType::Adjustment
    } else {
        LedgerEntryType::ToolUsage
    }
}

/// Map a staged ledger entry type; anything unrecognised is `ToolUsage`.
pub fn entry_type_of(s: &str) -> (r: LedgerEntryType)
    ensures
        r == entry_type_of_spec(s@),
{
    if is(s, "cash_payment") {
        LedgerEntryType::CashPayment
    } else if is(s, "adjustment") {
        LedgerEntryType::Adjustment
    } else {
        LedgerEntryType::ToolUsage
    }
}

/// The loader never mints a Stripe ledger entry, never grants a role to an
/// unrecognised name, and never activates a card it does not recognise.
pub proof fn law_mappings_are_deny_biased(s: Seq<char>)
    ensures
        entry_type_of_spec(s) != LedgerEntryType::StripePayment,
        entry_type_of_spec(s) != LedgerEntryType::StripeRefund,
        s != "admin"@ && s != "staff"@ && s != "member"@ && s != "newbie"@ ==> role_of_spec(s)
            == UserRole::Unknown,
        card_status_of_spec(s) == CardStatus::Active ==> s == "active"@,
{
}

// ---------------------------------------------------------------------------
// Timestamps and amounts
// ---------------------------------------------------------------------------

/// What `DateTime::parse_from_rfc3339` makes of `s`: `None` when it refuses
/// it, otherwise the instant.
pub uninterp spec fn rfc3339_instant(s: Seq<char>) -> Option<Timestamp>;

/// `chrono::DateTime::parse_from_rfc3339`, as an instant.
///
/// Trusted: the result is [`rfc3339_instant`] of the text, a function of the
/// text alone.
#[verifier::external_body]
fn parse_rfc3339(s: &str) -> (r: Option<Timestamp>)
    ensures
        r == rfc3339_instant(s@),
{
    match chrono::DateTime::parse_from_rfc3339(s) {
        Ok(d) => Some(Timestamp { unix_seconds: d.timestamp(), nanos: d.timestamp_subsec_nanos() }),
        Err(_) => None,
    }
}

/// Why a staged value could not be read.
#[derive(Debug, Clone, Copy, PartialEq, Eq, Structural)]
pub enum ParseFailure {
    Timestamp,
    Decimal,
}

/// Read a staged RFC 3339 timestamp, as an instant in UTC.
pub fn ts(s: &str) -> (r: Result<Timestamp, ParseFailure>)
    ensures
        match rfc3339_instant(s@) {
            Some(t) => r == Ok::<Timestamp, ParseFailure>(t),
            None => r == Err::<Timestamp, ParseFailure>(ParseFailure::Timestamp),
        },
{
    match parse_rfc3339(s) {
        Some(t) => Ok(t),
        None => Err(ParseFailure::Timestamp),
    }
}

/// Read a staged decimal amount: the amount that text is, or a decimal
/// failure where it is not a decimal.
pub fn bd(s: &str) -> (r: Result<Decimal, ParseFailure>)
    ensures
        r is Ok <==> decimal_parses(s@),
        r matches Ok(d) ==> d@ == s@,
        r matches Err(e) ==> e == ParseFailure::Decimal,
{
    match read_decimal(s) {
        Some(d) => Ok(d),
        None => Err(ParseFailure::Decimal),
    }
}

// ---------------------------------------------------------------------------
// Load planning
// ---------------------------------------------------------------------------

/// The email of the migration system user.
pub const MIGRATION_EMAIL: &'static str = "toolpass-migration@invalid.local";
/// The username of the migration system user.
pub const MIGRATION_USERNAME: &'static str = "toolpass_migration";
/// How many ledger entries go into one insert.
pub const LEDGER_CHUNK: usize = 2000;

/// The `LIKE` pattern that finds a member's already-migrated ledger entries.
pub fn ledger_reference_pattern(tp: &str) -> (p: String)
    ensures
        p@ == "toolpass:txn:"@ + tp@ + ":%"@,
{
    String::from_str("toolpass:txn:").concat(tp).concat(":%")
}

/// The ranges `[start, end)` in which `n` entries are inserted: consecutive,
/// covering `0..n`, each at most `chunk` long and only the last shorter.
pub fn chunk_ranges(n: usize, chunk: usize) -> (r: Vec<(usize, usize)>)
    requires
        chunk > 0,
    ensures
        forall|i: int|
            0 <= i < r@.len() ==> (#[trigger] r@[i]).0 == i * chunk && r@[i].1 == (if (i + 1)
                * chunk <= n {
                (i + 1) * chunk
            } else {
                n as int
            }),
        r@.len() * chunk >= n,
        r@.len() == 0 || (r@.len() - 1) * chunk < n,
{
    let mut r: Vec<(usize, usize)> = Vec::new();
    let mut start: usize = 0;
    assert(r@.len() * chunk == 0) by (nonlinear_arith)
        requires r@.len() == 0;
    while start < n
        invariant
            chunk > 0,
            start <= n,
            start <= r@.len() * chunk,
            start < n ==> start == r@.len() * chunk,
            start == n ==> r@.len() * chunk >= n,
            r@.len() == 0 || (r@.len() - 1) * chunk < n,
            forall|i: int|
                0 <= i < r@.len() ==> (#[trigger] r@[i]).0 == i * chunk && r@[i].1 == (if (i + 1)
                    * chunk <= n {
                    (i + 1) * chunk
                } else {
                    n as int
                }),
        decreases n - start,
    {
        let end = if n - start > chunk {
            start + chunk
        } else {
            n
        };
        proof {
            assert((r@.len() + 1) * chunk == r@.len() * chunk + chunk) by (nonlinear_arith);
        }
        r.push((start, end));
        start = end;
        if start < n {
            proof {
                assert(r@.len() * chunk == (r@.len() - 1) * chunk + chunk) by (nonlinear_arith)
                    requires r@.len() >= 1;
            }
        }
    }
    proof {
        if r@.len() > 0 {
            assert(r@.len() * chunk >= n);
        }
    }
    r
}

/// The index of the tier that sets a tool's default rate: the last tier of
/// that tool named "Default Rate", if any.
pub open spec fn default_rate_index_spec(tiers: Seq<(Seq<char>, Seq<char>)>, tool_tp: Seq<char>) -> Option<int>
    decreases tiers.len(),
{
    if tiers.len() == 0 {
        None
    } else if tiers.last().0 == tool_tp && tiers.last().1 == "Default Rate"@ {
        Some(tiers.len() - 1)
    } else {
        default_rate_index_spec(tiers.drop_last(), tool_tp)
    }
}

/// The (tool, tier name) pairs of staged tiers.
pub open spec fn tier_keys(tiers: Seq<(String, String)>) -> Seq<(Seq<char>, Seq<char>)> {
    tiers.map_values(|t: (String, String)| (t.0@, t.1@))
}

/// Which staged tier sets a tool's default rate: the last one of that tool
/// named "Default Rate".
pub fn default_rate_index(tiers: &[(String, String)], tool_tp: &String) -> (r: Option<usize>)
    ensures
        match r {
            Some(i) => default_rate_index_spec(tier_keys(tiers@), tool_tp@) == Some(i as int),
            None => default_rate_index_spec(tier_keys(tiers@), tool_tp@) is None,
        },
{
    let mut j: usize = tiers.len();
    let ghost keys = tier_keys(tiers@);
    assert(keys.subrange(0, j as int) =~= keys);
    while j > 0
        invariant
            j <= tiers@.len(),
            keys == tier_keys(tiers@),
            default_rate_index_spec(keys, tool_tp@) == default_rate_index_spec(keys.subrange(0, j as int), tool_tp@),
        decreases j,
    {
        let t = &tiers[j - 1];
        let ghost sub = keys.subrange(0, j as int);
        assert(sub.last() == (t.0@, t.1@));
        if t.0 == *tool_tp && is(t.1.as_str(), "Default Rate") {
            return Some(j - 1);
        }
        assert(sub.drop_last() =~= keys.subrange(0, j - 1));
        j = j - 1;
    }
    None
}

/// The views of a list of strings.
pub open spec fn key_views(v: Seq<String>) -> Seq<Seq<char>> {
    v.map_values(|s: String| s@)
}

/// The views of a list of index lists.
pub open spec fn group_views(v: Seq<Vec<usize>>) -> Seq<Seq<usize>> {
    v.map_values(|g: Vec<usize>| g@)
}

/// Whether `keys` / `groups` group the first `upto` entries of `members` by
/// member: one group per distinct member, each a non-empty, increasing list
/// of the positions of that member's entries, and every position in some
/// group.
pub open spec fn groups_entries(members: Seq<Seq<char>>, keys: Seq<Seq<char>>, groups: Seq<Seq<usize>>, upto: int) -> bool {
    &&& keys.len() == groups.len()
    &&& forall|a: int, b: int| 0 <= a < b < keys.len() ==> keys[a] != keys[b]
    &&& forall|g: int| 0 <= g < groups.len() ==> groups[g].len() > 0
    &&& forall|g: int, k: int|
        0 <= g < groups.len() && 0 <= k < groups[g].len() ==> groups[g][k] < upto && members[groups[g][k] as int]
            == keys[g]
    &&& forall|g: int, k1: int, k2: int|
        0 <= g < groups.len() && 0 <= k1 < k2 < groups[g].len() ==> groups[g][k1] < groups[g][k2]
    &&& forall|i: int| 0 <= i < upto ==> #[trigger] placed(groups, i)
}

/// Whether position `i` is in one of the groups.
pub open spec fn placed(groups: Seq<Seq<usize>>, i: int) -> bool {
    exists|g: int, k: int| 0 <= g < groups.len() && 0 <= k < groups[g].len() && groups[g][k] == i
}

/// Adding entry `i` to the group of its member keeps the grouping.
proof fn lemma_join_group(ms: Seq<Seq<char>>, keys: Seq<Seq<char>>, groups: Seq<Seq<usize>>, i: int, pos: int)
    requires
        groups_entries(ms, keys, groups, i),
        0 <= i < ms.len(),
        i <= usize::MAX,
        0 <= pos < keys.len(),
        keys[pos] == ms[i],
    ensures
        groups_entries(ms, keys, groups.update(pos, groups[pos].push(i as usize)), i + 1),
{
    let ng = groups.update(pos, groups[pos].push(i as usize));
    assert forall|g: int, k: int| 0 <= g < ng.len() && 0 <= k < ng[g].len() implies ng[g][k] < i + 1
        && ms[ng[g][k] as int] == keys[g] by {
        if g == pos && k == groups[pos].len() {
        } else {
            assert(ng[g][k] == groups[g][k]);
        }
    }
    assert forall|g: int, k1: int, k2: int|
        0 <= g < ng.len() && 0 <= k1 < k2 < ng[g].len() implies ng[g][k1] < ng[g][k2] by {
        if g == pos && k2 == groups[pos].len() {
            assert(ng[g][k1] == groups[g][k1]);
        } else {
            assert(ng[g][k1] == groups[g][k1]);
            assert(ng[g][k2] == groups[g][k2]);
        }
    }
    assert forall|j: int| 0 <= j < i + 1 implies #[trigger] placed(ng, j) by {
        if j == i {
            assert(ng[pos][groups[pos].len() as int] == j);
        } else {
            assert(placed(groups, j));
            let (gg, k) = choose|gg: int, k: int|
                0 <= gg < groups.len() && 0 <= k < groups[gg].len() && groups[gg][k] == j;
            assert(ng[gg][k] == j);
        }
    }
}

/// Opening a group for a member not seen before keeps the grouping.
proof fn lemma_open_group(ms: Seq<Seq<char>>, keys: Seq<Seq<char>>, groups: Seq<Seq<usize>>, i: int)
    requires
        groups_entries(ms, keys, groups, i),
        0 <= i < ms.len(),
        i <= usize::MAX,
        forall|a: int| 0 <= a < keys.len() ==> keys[a] != ms[i],
    ensures
        groups_entries(ms, keys.push(ms[i]), groups.push(seq![i as usize]), i + 1),
{
    let nk = keys.push(ms[i]);
    let ng = groups.push(seq![i as usize]);
    assert forall|a: int, b: int| 0 <= a < b < nk.len() implies nk[a] != nk[b] by {
        if b == keys.len() {
            assert(nk[a] == keys[a]);
        }
    }
    assert forall|g: int, k: int| 0 <= g < ng.len() && 0 <= k < ng[g].len() implies ng[g][k] < i + 1
        && ms[ng[g][k] as int] == nk[g] by {
        if g < groups.len() {
            assert(ng[g] == groups[g]);
        }
    }
    assert forall|g: int, k1: int, k2: int|
        0 <= g < ng.len() && 0 <= k1 < k2 < ng[g].len() implies ng[g][k1] < ng[g][k2] by {
        if g < groups.len() {
            assert(ng[g] == groups[g]);
        }
    }
    assert forall|j: int| 0 <= j < i + 1 implies #[trigger] placed(ng, j) by {
        if j == i {
            assert(ng[groups.len() as int][0] == j);
        } else {
            assert(placed(groups, j));
            let (gg, k) = choose|gg: int, k: int|
                0 <= gg < groups.len() && 0 <= k < groups[gg].len() && groups[gg][k] == j;
            assert(ng[gg][k] == j);
        }
    }
}

/// The position of `m` among `keys`, if it is there.
fn key_position(keys: &Vec<String>, m: &String) -> (r: Option<usize>)
    ensures
        match r {
            Some(p) => p < keys@.len() && key_views(keys@)[p as int] == m@,
            None => forall|a: int| 0 <= a < keys@.len() ==> key_views(keys@)[a] != m@,
        },
{
    let mc = chars_of(m.as_str());
    let mut pos: usize = 0;
    while pos < keys.len()
        invariant
            pos <= keys@.len(),
            mc@ == m@,
            forall|a: int| 0 <= a < pos ==> key_views(keys@)[a] != m@,
        decreases keys@.len() - pos,
    {
        let kc = chars_of(keys[pos].as_str());
        if chars_eq(kc.as_slice(), mc.as_slice()) {
            return Some(pos);
        }
        pos = pos + 1;
    }
    None
}

/// Group ledger entries by member: `members[i]` is the member of entry `i`;
/// the result lists each member once, with the positions of its entries in
/// order.
pub fn group_by_member(members: &Vec<String>) -> (r: (Vec<String>, Vec<Vec<usize>>))
    ensures
        groups_entries(key_views(members@), key_views(r.0@), group_views(r.1@), members@.len() as int),
{
    let ghost ms = key_views(members@);
    let mut keys: Vec<String> = Vec::new();
    let mut groups: Vec<Vec<usize>> = Vec::new();
    let n = members.len();
    let mut i: usize = 0;
    while i < n
        invariant
            n == members@.len(),
            ms == key_views(members@),
            i <= n,
            groups_entries(ms, key_views(keys@), group_views(groups@), i as int),
        decreases n - i,
    {
        let m = &members[i];
        let ghost old_keys = key_views(keys@);
        let ghost old_groups = group_views(groups@);
        match key_position(&keys, m) {
            Some(pos) => {
                let mut g = groups.remove(pos);
                let ghost og = g@;
                g.push(i);
                groups.insert(pos, g);
                proof {
                    assert(og == old_groups[pos as int]);
                    assert(group_views(groups@) =~= old_groups.update(pos as int, og.push(i)));
                    lemma_join_group(ms, old_keys, old_groups, i as int, pos as int);
                }
            },
            None => {
                keys.push(m.clone());
                let mut g: Vec<usize> = Vec::new();
                g.push(i);
                groups.push(g);
                proof {
                    assert(key_views(keys@) =~= old_keys.push(ms[i as int]));
                    assert(group_views(groups@) =~= old_groups.push(seq![i]));
                    lemma_open_group(ms, old_keys, old_groups, i as int);
                }
            },
        }
        i = i + 1;
    }
    (keys, groups)
}

/// The id recorded last for `key` among `(key, id)` entries, as a map that
/// each entry inserts into leaves it.
pub open spec fn last_id(entries: Seq<(Seq<char>, u128)>, key: Seq<char>) -> Option<u128>
    decreases entries.len(),
{
    if entries.len() == 0 {
        None
    } else if entries.last().0 == key {
        Some(entries.last().1)
    } else {
        last_id(entries.drop_last(), key)
    }
}

/// The views of `(key, id)` entries.
pub open spec fn id_entries(v: Seq<(String, u128)>) -> Seq<(Seq<char>, u128)> {
    v.map_values(|e: (String, u128)| (e.0@, e.1))
}

/// The id a staged key was given, if any: the one recorded last for it.
pub fn lookup_id(entries: &Vec<(String, u128)>, key: &str) -> (r: Option<u128>)
    ensures
        r == last_id(id_entries(entries@), key@),
{
    let kc = chars_of(key);
    let ghost es = id_entries(entries@);
    let mut j: usize = entries.len();
    assert(es.subrange(0, j as int) =~= es);
    while j > 0
        invariant
            j <= entries@.len(),
            es == id_entries(entries@),
            kc@ == key@,
            last_id(es, key@) == last_id(es.subrange(0, j as int), key@),
        decreases j,
    {
        let e = &entries[j - 1];
        let ghost sub = es.subrange(0, j as int);
        assert(sub.last() == (e.0@, e.1));
        let ec = chars_of(e.0.as_str());
        if chars_eq(ec.as_slice(), kc.as_slice()) {
            return Some(e.1);
        }
        assert(sub.drop_last() =~= es.subrange(0, j - 1));
        j = j - 1;
    }
    None
}

/// The member and tool ids a staged waiver or tier assignment refers to;
/// a row naming a member or a tool that was not loaded is skipped.
pub fn resolve_member_tool(
    users: &Vec<(String, u128)>,
    tools: &Vec<(String, u128)>,
    user_tp: &str,
    tool_tp: &str,
) -> (r: Option<(u128, u128)>)
    ensures
        r == (match (last_id(id_entries(users@), user_tp@), last_id(id_entries(tools@), tool_tp@)) {
            (Some(u), Some(t)) => Some((u, t)),
            _ => None,
        }),
{
    match (lookup_id(users, user_tp), lookup_id(tools, tool_tp)) {
        (Some(u), Some(t)) => Some((u, t)),
        _ => None,
    }
}

/// A card's natural key: its holder and its code.
pub open spec fn card_keys(cards: Seq<(u128, String)>) -> Seq<(u128, Seq<char>)> {
    cards.map_values(|c: (u128, String)| (c.0, c.1@))
}

/// The cards a load inserts, in order: each staged card whose (holder,
/// code) is neither in the database already nor inserted earlier in the
/// same load.
pub open spec fn cards_inserted(existing: Seq<(u128, Seq<char>)>, wanted: Seq<(u128, Seq<char>)>) -> Seq<
    (u128, Seq<char>),
>
    decreases wanted.len(),
{
    if wanted.len() == 0 {
        Seq::empty()
    } else {
        let done = cards_inserted(existing, wanted.drop_last());
        let k = wanted.last();
        if existing.contains(k) || done.contains(k) {
            done
        } else {
            done.push(k)
        }
    }
}

/// Whether the key (`user`, `code`) is among `cards`.
fn has_card(cards: &Vec<(u128, String)>, user: u128, code: &String) -> (r: bool)
    ensures
        r == card_keys(cards@).contains((user, code@)),
{
    let want = chars_of(code.as_str());
    let mut i: usize = 0;
    while i < cards.len()
        invariant
            i <= cards@.len(),
            want@ == code@,
            forall|k: int| 0 <= k < i ==> card_keys(cards@)[k] != (user, code@),
        decreases cards@.len() - i,
    {
        let c = chars_of(cards[i].1.as_str());
        if cards[i].0 == user && chars_eq(c.as_slice(), want.as_slice()) {
            assert(card_keys(cards@)[i as int] == (user, code@));
            return true;
        }
        i = i + 1;
    }
    false
}

/// The cards step of a load: the staged cards (holder, code) to insert,
/// given the cards already stored. A card is keyed on the pair, so a code
/// reissued to another member is inserted, and one already there is not.
pub fn cards_to_insert(existing: &Vec<(u128, String)>, wanted: &Vec<(u128, String)>) -> (r: Vec<(u128, String)>)
    ensures
        card_keys(r@) == cards_inserted(card_keys(existing@), card_keys(wanted@)),
{
    let ghost ex = card_keys(existing@);
    let ghost ws = card_keys(wanted@);
    let mut out: Vec<(u128, String)> = Vec::new();
    let mut i: usize = 0;
    while i < wanted.len()
        invariant
            i <= wanted@.len(),
            ex == card_keys(existing@),
            ws == card_keys(wanted@),
            card_keys(out@) == cards_inserted(ex, ws.subrange(0, i as int)),
        decreases wanted@.len() - i,
    {
        let (user, code) = &wanted[i];
        let ghost sub = ws.subrange(0, i as int + 1);
        proof {
            assert(sub.drop_last() =~= ws.subrange(0, i as int));
            assert(sub.last() == (*user, code@));
        }
        if !has_card(existing, *user, code) && !has_card(&out, *user, code) {
            let ghost before = out@;
            let c = code.clone();
            out.push((*user, c));
            proof {
                assert(card_keys(out@) =~= card_keys(before).push((*user, code@)));
            }
        }
        i = i + 1;
    }
    assert(ws.subrange(0, ws.len() as int) =~= ws);
    out
}

/// After a load, every staged card's key is stored: in the database
/// already, or inserted by the load.
proof fn lemma_loaded_cards_are_stored(existing: Seq<(u128, Seq<char>)>, wanted: Seq<(u128, Seq<char>)>, k: int)
    requires
        0 <= k < wanted.len(),
    ensures
        (existing + cards_inserted(existing, wanted)).contains(wanted[k]),
    decreases wanted.len(),
{
    let done = cards_inserted(existing, wanted.drop_last());
    let all = existing + cards_inserted(existing, wanted);
    if k < wanted.len() - 1 {
        lemma_loaded_cards_are_stored(existing, wanted.drop_last(), k);
        let prev = existing + done;
        let j = choose|j: int| 0 <= j < prev.len() && prev[j] == wanted.drop_last()[k];
        assert(all[j] == prev[j]);
    } else {
        let key = wanted.last();
        if existing.contains(key) {
            let j = choose|j: int| 0 <= j < existing.len() && existing[j] == key;
            assert(all[j] == key);
        } else if done.contains(key) {
            let j = choose|j: int| 0 <= j < done.len() && done[j] == key;
            assert(all[existing.len() as int + j] == key);
        } else {
            assert(all[existing.len() + done.len() as int] == key);
        }
    }
}

/// A load whose every staged card is stored already inserts none.
proof fn lemma_stored_cards_insert_nothing(existing: Seq<(u128, Seq<char>)>, wanted: Seq<(u128, Seq<char>)>)
    requires
        forall|k: int| 0 <= k < wanted.len() ==> existing.contains(#[trigger] wanted[k]),
    ensures
        cards_inserted(existing, wanted).len() == 0,
    decreases wanted.len(),
{
    if wanted.len() > 0 {
        lemma_stored_cards_insert_nothing(existing, wanted.drop_last());
        assert(existing.contains(wanted[wanted.len() - 1]));
    }
}

/// The cards step is re-runnable: running it again over the same staged
/// cards, against the database as the first run left it, inserts nothing.
pub proof fn law_card_load_is_idempotent(existing: Seq<(u128, Seq<char>)>, wanted: Seq<(u128, Seq<char>)>)
    ensures
        cards_inserted(existing + cards_inserted(existing, wanted), wanted).len() == 0,
{
    assert forall|k: int| 0 <= k < wanted.len() implies (existing + cards_inserted(
        existing,
        wanted,
    )).contains(#[trigger] wanted[k]) by {
        lemma_loaded_cards_are_stored(existing, wanted, k);
    }
    lemma_stored_cards_insert_nothing(existing + cards_inserted(existing, wanted), wanted);
}

} // verus!
