//! Calendar events from iCal feeds: which events of a feed are shown, how a
//! recurring event is expanded into occurrences, and how the feeds are
//! merged for display.
//!
//! An event is shown when it starts between now and the lookahead limit. A
//! recurring event (daily, weekly, or every thirty days, with an optional
//! interval and count) yields one occurrence per step until the limit or the
//! count is reached, at most 365 steps without a count; only occurrences
//! from now on are shown, each lasting as long as the first one. Times are
//! instants in UTC within the range the date library represents.

use vstd::prelude::*;
use vstd::string::*;
use crate::errors::{contains_str, contains_sub};
use crate::models::{before, Timestamp};
use crate::text::{
    chars_eq, chars_of, parse_i64, parse_i64_chars, parse_usize, parse_usize_chars, split_any, split_any_chars,
    sub_chars, views,
};

verus! {

// ---------------------------------------------------------------------------
// Instants
// ---------------------------------------------------------------------------

/// The earliest second the date library represents (the first of January
/// of year -262143, in Unix seconds).
pub const MIN_INSTANT_SECS: i64 = -8334601315200;
/// The last second the date library represents (the last of December of
/// year 262142).
pub const MAX_INSTANT_SECS: i64 = 8210266876799;
/// The longest duration, in whole seconds, the date library represents
/// (`i64::MAX` milliseconds, truncated).
pub const MAX_DELTA_SECS: i64 = 9223372036854775;

/// Whether a second lies in the represented range.
pub open spec fn in_range(secs: int) -> bool {
    MIN_INSTANT_SECS <= secs <= MAX_INSTANT_SECS
}

/// Whether a timestamp is an instant the date library can hold.
pub open spec fn valid_instant(t: Timestamp) -> bool {
    in_range(t.unix_seconds as int) && t.nanos < 1_000_000_000
}

/// `t` moved by `by` seconds.
pub open spec fn shifted(t: Timestamp, by: int) -> Timestamp {
    Timestamp { unix_seconds: (t.unix_seconds + by) as i64, nanos: t.nanos }
}

/// Whether instant (`secs`, `nanos`) is at or before `t`.
pub open spec fn not_after(secs: int, nanos: u32, t: Timestamp) -> bool {
    secs < t.unix_seconds || (secs == t.unix_seconds && nanos <= t.nanos)
}

/// Whether instant (`secs`, `nanos`) is at or after `t`.
pub open spec fn at_or_after(secs: int, nanos: u32, t: Timestamp) -> bool {
    secs > t.unix_seconds || (secs == t.unix_seconds && nanos >= t.nanos)
}

// ---------------------------------------------------------------------------
// Recurrence rules
// ---------------------------------------------------------------------------

/// How often a recurring event repeats.
#[derive(Clone, Copy, Debug, PartialEq, Eq, Structural)]
pub enum Frequency {
    Daily,
    Weekly,
    /// Every thirty days.
    Monthly,
}

/// The frequency an RRULE names, if it is one of the supported ones.
pub open spec fn rrule_frequency_spec(rule: Seq<char>) -> Option<Frequency> {
    if contains_sub(rule, "FREQ=DAILY"@) {
        Some(Frequency::Daily)
    } else if contains_sub(rule, "FREQ=WEEKLY"@) {
        Some(Frequency::Weekly)
    } else if contains_sub(rule, "FREQ=MONTHLY"@) {
        Some(Frequency::Monthly)
    } else {
        None
    }
}

/// Read the frequency of an RRULE.
pub fn rrule_frequency(rule: &str) -> (r: Option<Frequency>)
    ensures
        r == rrule_frequency_spec(rule@),
{
    let cs = chars_of(rule);
    if contains_str(cs.as_slice(), "FREQ=DAILY") {
        Some(Frequency::Daily)
    } else if contains_str(cs.as_slice(), "FREQ=WEEKLY") {
        Some(Frequency::Weekly)
    } else if contains_str(cs.as_slice(), "FREQ=MONTHLY") {
        Some(Frequency::Monthly)
    } else {
        None
    }
}

/// Whether `p` begins `s`.
pub open spec fn starts_with(s: Seq<char>, p: Seq<char>) -> bool {
    s.len() >= p.len() && s.subrange(0, p.len() as int) == p
}

/// The rest of the first part that begins with `prefix`.
pub open spec fn first_after_prefix(parts: Seq<Seq<char>>, prefix: Seq<char>) -> Option<Seq<char>>
    decreases parts.len(),
{
    if parts.len() == 0 {
        None
    } else if starts_with(parts[0], prefix) {
        Some(parts[0].subrange(prefix.len() as int, parts[0].len() as int))
    } else {
        first_after_prefix(parts.drop_first(), prefix)
    }
}

/// The value of a `KEY=` part of an RRULE: the rest of the first
/// `;`-separated part that begins with `key`.
pub open spec fn rrule_value(rule: Seq<char>, key: Seq<char>) -> Option<Seq<char>> {
    first_after_prefix(split_any(rule, seq![';']), key)
}

/// Find the value of a `KEY=` part.
fn find_rrule_value(rule: &[char], key: &str) -> (r: Option<Vec<char>>)
    ensures
        match r {
            Some(v) => rrule_value(rule@, key@) == Some(v@),
            None => rrule_value(rule@, key@) is None,
        },
{
    let seps: Vec<char> = vec![';'];
    assert(seps@ =~= seq![';']);
    let parts = split_any_chars(rule, seps.as_slice());
    let ghost ps = views(parts@);
    let k = chars_of(key);
    let mut i: usize = 0;
    assert(ps.subrange(0, ps.len() as int) =~= ps);
    while i < parts.len()
        invariant
            i <= parts@.len(),
            ps == views(parts@),
            ps == split_any(rule@, seq![';']),
            k@ == key@,
            first_after_prefix(ps, key@) == first_after_prefix(ps.subrange(i as int, ps.len() as int), key@),
        decreases parts@.len() - i,
    {
        let ghost rest = ps.subrange(i as int, ps.len() as int);
        assert(rest[0] == parts@[i as int]@);
        assert(rest.drop_first() =~= ps.subrange(i + 1, ps.len() as int));
        let part = &parts[i];
        if part.len() >= k.len() {
            let head = sub_chars(part.as_slice(), 0, k.len());
            if chars_eq(head.as_slice(), k.as_slice()) {
                return Some(sub_chars(part.as_slice(), k.len(), part.len()));
            }
        }
        i = i + 1;
    }
    None
}

/// The interval of an RRULE: its `INTERVAL=` value when that parses as an
/// `i64`, otherwise 1.
pub open spec fn rrule_interval_spec(rule: Seq<char>) -> i64 {
    match rrule_value(rule, "INTERVAL="@) {
        Some(v) => match parse_i64(v) {
            Some(n) => n,
            None => 1,
        },
        None => 1,
    }
}

/// Read the interval of an RRULE.
pub fn rrule_interval(rule: &str) -> (r: i64)
    ensures
        r == rrule_interval_spec(rule@),
{
    let cs = chars_of(rule);
    match find_rrule_value(cs.as_slice(), "INTERVAL=") {
        Some(v) => match parse_i64_chars(v.as_slice()) {
            Some(n) => n,
            None => 1,
        },
        None => 1,
    }
}

/// The count of an RRULE: its `COUNT=` value when that parses as a `usize`.
pub open spec fn rrule_count_spec(rule: Seq<char>) -> Option<usize> {
    match rrule_value(rule, "COUNT="@) {
        Some(v) => parse_usize(v),
        None => None,
    }
}

/// Read the count of an RRULE.
pub fn rrule_count(rule: &str) -> (r: Option<usize>)
    ensures
        r == rrule_count_spec(rule@),
{
    let cs = chars_of(rule);
    match find_rrule_value(cs.as_slice(), "COUNT=") {
        Some(v) => parse_usize_chars(v.as_slice()),
        None => None,
    }
}

// ---------------------------------------------------------------------------
// Expansion
// ---------------------------------------------------------------------------

/// The step between occurrences in seconds, as the date library builds it:
/// `interval` days, weeks, or thirty-day months. `None` where building it
/// fails (the duration out of the library's bounds, or thirty times the
/// interval out of `i64`).
pub open spec fn step_of(freq: Frequency, interval: i64) -> Option<int> {
    let s = match freq {
        Frequency::Daily => interval * 86400,
        Frequency::Weekly => interval * 604800,
        Frequency::Monthly => 30 * interval * 86400,
    };
    if freq == Frequency::Monthly && !(i64::MIN <= 30 * interval <= i64::MAX) {
        None
    } else if -MAX_DELTA_SECS <= s <= MAX_DELTA_SECS {
        Some(s)
    } else {
        None
    }
}

/// Compute the step.
fn step_seconds(freq: Frequency, interval: i64) -> (r: Option<i64>)
    ensures
        match r {
            Some(s) => step_of(freq, interval) == Some(s as int),
            None => step_of(freq, interval) is None,
        },
{
    let i = interval as i128;
    let s: i128 = match freq {
        Frequency::Daily => i * 86400,
        Frequency::Weekly => i * 604800,
        Frequency::Monthly => {
            let d = 30 * i;
            if d < i64::MIN as i128 || d > i64::MAX as i128 {
                return None;
            }
            d * 86400
        },
    };
    if s < -(MAX_DELTA_SECS as i128) || s > MAX_DELTA_SECS as i128 {
        return None;
    }
    Some(s as i64)
}

/// An occurrence: its start and, when the event has one, its end.
pub type Occurrence = (Timestamp, Option<Timestamp>);

/// The occurrences from the step at `offset` seconds after the first on,
/// with `remaining` steps left; `None` where the date library would fail
/// (a step that cannot be built, or an instant out of its range).
pub open spec fn expansion(
    start: Timestamp,
    end: Option<Timestamp>,
    now: Timestamp,
    limit: Timestamp,
    step: Option<int>,
    offset: int,
    remaining: nat,
) -> Option<Seq<Occurrence>>
    decreases remaining,
{
    let cur = start.unix_seconds + offset;
    if remaining == 0 || !not_after(cur, start.nanos, limit) {
        Some(Seq::<Occurrence>::empty())
    } else {
        match step {
            None => None,
            Some(s) => {
                let shown = at_or_after(cur, start.nanos, now);
                if shown && (end matches Some(e) && !in_range(e.unix_seconds + offset)) {
                    None
                } else if !in_range(cur + s) {
                    None
                } else {
                    match expansion(start, end, now, limit, step, offset + s, (remaining - 1) as nat) {
                        None => None,
                        Some(rest) => {
                            let here = if shown {
                                seq![
                                    (
                                        shifted(start, offset),
                                        match end {
                                            Some(e) => Some(shifted(e, offset)),
                                            None => None,
                                        },
                                    ),
                                ]
                            } else {
                                Seq::<Occurrence>::empty()
                            };
                            Some(here + rest)
                        },
                    }
                }
            },
        }
    }
}

/// Prepend `head` to a possible sequence.
pub open spec fn prepend(head: Seq<Occurrence>, tail: Option<Seq<Occurrence>>) -> Option<Seq<Occurrence>> {
    match tail {
        Some(t) => Some(head + t),
        None => None,
    }
}

/// The most steps a recurring event takes: its count, or 365.
pub open spec fn max_steps(count: Option<usize>) -> nat {
    match count {
        Some(c) => c as nat,
        None => 365,
    }
}

/// Expand a recurring event that starts at `start` (and ends at `end`, if
/// it has an end) into its occurrences up to `limit`, keeping those from
/// `now` on. `None` exactly where the date library would fail.
pub fn expand_occurrences(
    start: Timestamp,
    end: Option<Timestamp>,
    now: Timestamp,
    limit: Timestamp,
    freq: Frequency,
    interval: i64,
    count: Option<usize>,
) -> (r: Option<Vec<Occurrence>>)
    requires
        valid_instant(start),
        end matches Some(e) ==> valid_instant(e),
        valid_instant(now),
        valid_instant(limit),
    ensures
        match r {
            Some(v) => expansion(start, end, now, limit, step_of(freq, interval), 0, max_steps(count)) == Some(v@),
            None => expansion(start, end, now, limit, step_of(freq, interval), 0, max_steps(count)) is None,
        },
{
    let ghost step = step_of(freq, interval);
    let max: usize = match count {
        Some(c) => c,
        None => 365,
    };
    let step_secs = step_seconds(freq, interval);
    let mut out: Vec<Occurrence> = Vec::new();
    let mut offset: i64 = 0;
    let mut done: usize = 0;
    while done < max
        invariant
            valid_instant(start),
            end matches Some(e) ==> valid_instant(e),
            valid_instant(limit),
            done <= max,
            max as nat == max_steps(count),
            step == step_of(freq, interval),
            match step_secs {
                Some(s) => step == Some(s as int),
                None => step is None,
            },
            in_range(start.unix_seconds + offset),
            expansion(start, end, now, limit, step, 0, max as nat) == prepend(
                out@,
                expansion(start, end, now, limit, step, offset as int, (max - done) as nat),
            ),
        ensures
            expansion(start, end, now, limit, step, offset as int, (max - done) as nat) == Some(
                Seq::<Occurrence>::empty(),
            ),
        decreases max - done,
    {
        let cur: i64 = start.unix_seconds + offset;
        let within = cur < limit.unix_seconds || (cur == limit.unix_seconds && start.nanos <= limit.nanos);
        if !within {
            break;
        }
        let s = match step_secs {
            Some(s) => s,
            None => {
                return None;
            },
        };
        let shown = cur > now.unix_seconds || (cur == now.unix_seconds && start.nanos >= now.nanos);
        let ghost rest_before = expansion(start, end, now, limit, step, offset as int, (max - done) as nat);
        if shown {
            let occ_end = match end {
                Some(e) => {
                    let es = e.unix_seconds as i128 + offset as i128;
                    if es < MIN_INSTANT_SECS as i128 || es > MAX_INSTANT_SECS as i128 {
                        return None;
                    }
                    Some(Timestamp { unix_seconds: es as i64, nanos: e.nanos })
                },
                None => None,
            };
            let next = cur as i128 + s as i128;
            if next < MIN_INSTANT_SECS as i128 || next > MAX_INSTANT_SECS as i128 {
                return None;
            }
            let ghost before_push = out@;
            out.push((Timestamp { unix_seconds: cur, nanos: start.nanos }, occ_end));
            proof {
                let here = seq![
                    (
                        shifted(start, offset as int),
                        match end {
                            Some(e) => Some(shifted(e, offset as int)),
                            None => None,
                        },
                    ),
                ];
                assert(out@ =~= before_push + here);
                match expansion(start, end, now, limit, step, offset + s, (max - done - 1) as nat) {
                    Some(t) => {
                        assert(before_push + (here + t) =~= out@ + t);
                    },
                    None => {},
                }
            }
        } else {
            let next = cur as i128 + s as i128;
            if next < MIN_INSTANT_SECS as i128 || next > MAX_INSTANT_SECS as i128 {
                return None;
            }
            proof {
                match expansion(start, end, now, limit, step, offset + s, (max - done - 1) as nat) {
                    Some(t) => {
                        assert(out@ + (Seq::<Occurrence>::empty() + t) =~= out@ + t);
                    },
                    None => {},
                }
            }
        }
        offset = offset + s;
        done = done + 1;
    }
    proof {
        assert(out@ + Seq::<Occurrence>::empty() =~= out@);
    }
    Some(out)
}

// ---------------------------------------------------------------------------
// Events
// ---------------------------------------------------------------------------

/// A calendar event as displayed.
#[derive(Debug)]
pub struct CalendarEvent {
    pub title: String,
    pub description: Option<String>,
    pub start: Timestamp,
    pub end: Option<Timestamp>,
    pub location: Option<String>,
    pub calendar_name: String,
    pub calendar_color: String,
    pub all_day: bool,
}

/// An event as plain values.
pub struct CalendarEventView {
    pub title: Seq<char>,
    pub description: Option<Seq<char>>,
    pub start: Timestamp,
    pub end: Option<Timestamp>,
    pub location: Option<Seq<char>>,
    pub calendar_name: Seq<char>,
    pub calendar_color: Seq<char>,
    pub all_day: bool,
}

/// The view of an optional text.
pub open spec fn opt_text(s: Option<String>) -> Option<Seq<char>> {
    match s {
        Some(x) => Some(x@),
        None => None,
    }
}

impl View for CalendarEvent {
    type V = CalendarEventView;

    open spec fn view(&self) -> CalendarEventView {
        CalendarEventView {
            title: self.title@,
            description: opt_text(self.description),
            start: self.start,
            end: self.end,
            location: opt_text(self.location),
            calendar_name: self.calendar_name@,
            calendar_color: self.calendar_color@,
            all_day: self.all_day,
        }
    }
}

/// The views of a list of events.
pub open spec fn event_views(v: Seq<CalendarEvent>) -> Seq<CalendarEventView> {
    v.map_values(|e: CalendarEvent| e@)
}

/// A copy of an optional text.
fn copy_text(s: &Option<String>) -> (r: Option<String>)
    ensures
        opt_text(r) == opt_text(*s),
{
    match s {
        Some(x) => Some(x.clone()),
        None => None,
    }
}

impl CalendarEvent {
    /// A copy of this event.
    pub fn duplicate(&self) -> (r: CalendarEvent)
        ensures
            r@ == self@,
    {
        CalendarEvent {
            title: self.title.clone(),
            description: copy_text(&self.description),
            start: self.start,
            end: self.end,
            location: copy_text(&self.location),
            calendar_name: self.calendar_name.clone(),
            calendar_color: self.calendar_color.clone(),
            all_day: self.all_day,
        }
    }
}

/// When an iCal event starts or ends: at an instant, or on a day (given as
/// that day's midnight, UTC).
#[derive(Clone, Copy, Debug)]
pub enum IcalTime {
    At(Timestamp),
    Day(Timestamp),
}

/// Whether an iCal time is one the date library can hold; a day is given
/// by its midnight.
pub open spec fn valid_ical_time(t: IcalTime) -> bool {
    match t {
        IcalTime::At(x) => valid_instant(x),
        IcalTime::Day(m) => valid_instant(m) && m.nanos == 0 && m.unix_seconds % 86400 == 0,
    }
}

/// What an event of a feed carries.
#[derive(Debug)]
pub struct IcalEvent {
    pub summary: Option<String>,
    pub description: Option<String>,
    pub location: Option<String>,
    pub start: Option<IcalTime>,
    pub end: Option<IcalTime>,
    pub rrule: Option<String>,
}

/// Whether every time of an event is one the date library can hold.
pub open spec fn valid_ical_event(e: IcalEvent) -> bool {
    (e.start matches Some(t) ==> valid_ical_time(t)) && (e.end matches Some(t) ==> valid_ical_time(t))
}

/// The instant an event starts at, and whether it lasts all day (a day
/// starts at its midnight).
pub open spec fn start_instant(t: IcalTime) -> (Timestamp, bool) {
    match t {
        IcalTime::At(x) => (x, false),
        IcalTime::Day(m) => (m, true),
    }
}

/// The instant an event ends at (a day ends at 23:59:59).
pub open spec fn end_instant(t: IcalTime) -> Timestamp {
    match t {
        IcalTime::At(x) => x,
        IcalTime::Day(m) => Timestamp { unix_seconds: (m.unix_seconds + 86399) as i64, nanos: 0 },
    }
}

/// The end of an event, if it has one.
pub open spec fn end_of(e: Option<IcalTime>) -> Option<Timestamp> {
    match e {
        Some(t) => Some(end_instant(t)),
        None => None,
    }
}

/// The title an event is shown under.
pub open spec fn title_of(summary: Option<Seq<char>>) -> Seq<char> {
    match summary {
        Some(s) => s,
        None => "Untitled Event"@,
    }
}

/// The lookahead limit: `days` days after `now`; `None` where the date
/// library fails to build it.
pub open spec fn lookahead(now: Timestamp, days: i64) -> Option<Timestamp> {
    let s = days * 86400;
    if -MAX_DELTA_SECS <= s <= MAX_DELTA_SECS && in_range(now.unix_seconds + s) {
        Some(Timestamp { unix_seconds: (now.unix_seconds + s) as i64, nanos: now.nanos })
    } else {
        None
    }
}

/// Compute the lookahead limit.
pub fn lookahead_limit(now: Timestamp, days: i64) -> (r: Option<Timestamp>)
    requires
        valid_instant(now),
    ensures
        r == lookahead(now, days),
{
    let s = days as i128 * 86400;
    if s < -(MAX_DELTA_SECS as i128) || s > MAX_DELTA_SECS as i128 {
        return None;
    }
    let t = now.unix_seconds as i128 + s;
    if t < MIN_INSTANT_SECS as i128 || t > MAX_INSTANT_SECS as i128 {
        return None;
    }
    Some(Timestamp { unix_seconds: t as i64, nanos: now.nanos })
}

/// The event shown for an occurrence of an iCal event.
pub open spec fn shown_event(e: IcalEvent, name: Seq<char>, color: Seq<char>, occ: Occurrence, all_day: bool) -> CalendarEventView {
    CalendarEventView {
        title: title_of(opt_text(e.summary)),
        description: opt_text(e.description),
        start: occ.0,
        end: occ.1,
        location: opt_text(e.location),
        calendar_name: name,
        calendar_color: color,
        all_day,
    }
}

/// The events one iCal event contributes: nothing without a start; its
/// occurrences when it recurs (nothing for an unsupported frequency);
/// otherwise itself when it starts within the window. `None` where the
/// date library would fail.
pub open spec fn ical_event_spec(e: IcalEvent, name: Seq<char>, color: Seq<char>, now: Timestamp, limit: Timestamp) -> Option<
    Seq<CalendarEventView>,
> {
    match e.start {
        None => Some(Seq::<CalendarEventView>::empty()),
        Some(st) => {
            let (start, all_day) = start_instant(st);
            let end = end_of(e.end);
            match e.rrule {
                Some(rule) => match rrule_frequency_spec(rule@) {
                    None => Some(Seq::<CalendarEventView>::empty()),
                    Some(freq) => match expansion(
                        start,
                        end,
                        now,
                        limit,
                        step_of(freq, rrule_interval_spec(rule@)),
                        0,
                        max_steps(rrule_count_spec(rule@)),
                    ) {
                        None => None,
                        Some(occs) => Some(occs.map_values(|o: Occurrence| shown_event(e, name, color, o, all_day))),
                    },
                },
                None => if not_after(start.unix_seconds as int, start.nanos, limit) && at_or_after(
                    start.unix_seconds as int,
                    start.nanos,
                    now,
                ) {
                    Some(seq![shown_event(e, name, color, (start, end), all_day)])
                } else {
                    Some(Seq::<CalendarEventView>::empty())
                },
            }
        },
    }
}

/// The shown event for an occurrence.
fn make_event(e: &IcalEvent, name: &str, color: &str, occ: Occurrence, all_day: bool) -> (r: CalendarEvent)
    ensures
        r@ == shown_event(*e, name@, color@, occ, all_day),
{
    let title = match &e.summary {
        Some(s) => s.clone(),
        None => "Untitled Event".to_string(),
    };
    CalendarEvent {
        title,
        description: copy_text(&e.description),
        start: occ.0,
        end: occ.1,
        location: copy_text(&e.location),
        calendar_name: name.to_string(),
        calendar_color: color.to_string(),
        all_day,
    }
}

/// The events one iCal event contributes, appended to `out`; `false` where
/// the date library would fail.
fn push_ical_event(
    out: &mut Vec<CalendarEvent>,
    e: &IcalEvent,
    name: &str,
    color: &str,
    now: Timestamp,
    limit: Timestamp,
) -> (ok: bool)
    requires
        valid_ical_event(*e),
        valid_instant(now),
        valid_instant(limit),
    ensures
        ok ==> (ical_event_spec(*e, name@, color@, now, limit) matches Some(v) && event_views(final(out)@)
            == event_views(old(out)@) + v),
        !ok ==> ical_event_spec(*e, name@, color@, now, limit) is None,
{
    let st = match e.start {
        None => {
            assert(event_views(out@) =~= event_views(old(out)@) + Seq::<CalendarEventView>::empty());
            return true;
        },
        Some(t) => t,
    };
    let (start, all_day) = match st {
        IcalTime::At(x) => (x, false),
        IcalTime::Day(m) => (m, true),
    };
    let end = match e.end {
        Some(IcalTime::At(x)) => Some(x),
        Some(IcalTime::Day(m)) => Some(Timestamp { unix_seconds: m.unix_seconds + 86399, nanos: 0 }),
        None => None,
    };
    match &e.rrule {
        Some(rule) => {
            let freq = match rrule_frequency(rule.as_str()) {
                None => {
                    assert(event_views(out@) =~= event_views(old(out)@) + Seq::<CalendarEventView>::empty());
                    return true;
                },
                Some(f) => f,
            };
            let interval = rrule_interval(rule.as_str());
            let count = rrule_count(rule.as_str());
            let occs = match expand_occurrences(start, end, now, limit, freq, interval, count) {
                None => {
                    return false;
                },
                Some(v) => v,
            };
            let ghost spec_occs = occs@;
            let ghost base = event_views(out@);
            let mut i: usize = 0;
            while i < occs.len()
                invariant
                    i <= occs@.len(),
                    spec_occs == occs@,
                    event_views(out@) == base + spec_occs.subrange(0, i as int).map_values(
                        |o: Occurrence| shown_event(*e, name@, color@, o, all_day),
                    ),
                decreases occs@.len() - i,
            {
                let ev = make_event(e, name, color, occs[i], all_day);
                let ghost before = event_views(out@);
                out.push(ev);
                proof {
                    assert(spec_occs.subrange(0, i as int + 1).map_values(
                        |o: Occurrence| shown_event(*e, name@, color@, o, all_day),
                    ) =~= spec_occs.subrange(0, i as int).map_values(
                        |o: Occurrence| shown_event(*e, name@, color@, o, all_day),
                    ).push(shown_event(*e, name@, color@, spec_occs[i as int], all_day)));
                    assert(event_views(out@) =~= before.push(ev@));
                }
                i = i + 1;
            }
            assert(spec_occs.subrange(0, spec_occs.len() as int) =~= spec_occs);
            true
        },
        None => {
            let within = start.unix_seconds < limit.unix_seconds || (start.unix_seconds == limit.unix_seconds
                && start.nanos <= limit.nanos);
            let from_now = start.unix_seconds > now.unix_seconds || (start.unix_seconds == now.unix_seconds
                && start.nanos >= now.nanos);
            if within && from_now {
                let ghost before = event_views(out@);
                let ev = make_event(e, name, color, (start, end), all_day);
                out.push(ev);
                assert(event_views(out@) =~= before + seq![ev@]);
            } else {
                assert(event_views(out@) =~= event_views(old(out)@) + Seq::<CalendarEventView>::empty());
            }
            true
        },
    }
}

/// The events a feed's items contribute, in order; `None` where the date
/// library would fail on one of them.
pub open spec fn feed_events_spec(
    items: Seq<IcalEvent>,
    name: Seq<char>,
    color: Seq<char>,
    now: Timestamp,
    limit: Timestamp,
) -> Option<Seq<CalendarEventView>>
    decreases items.len(),
{
    if items.len() == 0 {
        Some(Seq::<CalendarEventView>::empty())
    } else {
        match feed_events_spec(items.drop_last(), name, color, now, limit) {
            None => None,
            Some(before) => match ical_event_spec(items.last(), name, color, now, limit) {
                None => None,
                Some(mine) => Some(before + mine),
            },
        }
    }
}

/// The events of a feed's items, shown under the feed's name and colour,
/// within `lookahead_days` days of `now`. `None` where the date library
/// would fail (building the lookahead limit, or an occurrence out of its
/// range).
pub fn feed_events(items: &[IcalEvent], name: &str, color: &str, now: Timestamp, lookahead_days: i64) -> (r: Option<
    Vec<CalendarEvent>,
>)
    requires
        valid_instant(now),
        forall|i: int| 0 <= i < items@.len() ==> valid_ical_event(#[trigger] items@[i]),
    ensures
        match lookahead(now, lookahead_days) {
            None => r is None,
            Some(limit) => match r {
                Some(v) => feed_events_spec(items@, name@, color@, now, limit) == Some(event_views(v@)),
                None => feed_events_spec(items@, name@, color@, now, limit) is None,
            },
        },
{
    let limit = match lookahead_limit(now, lookahead_days) {
        None => {
            return None;
        },
        Some(l) => l,
    };
    let mut out: Vec<CalendarEvent> = Vec::new();
    let mut i: usize = 0;
    while i < items.len()
        invariant
            i <= items@.len(),
            valid_instant(now),
            valid_instant(limit),
            lookahead(now, lookahead_days) == Some(limit),
            forall|k: int| 0 <= k < items@.len() ==> valid_ical_event(#[trigger] items@[k]),
            feed_events_spec(items@.subrange(0, i as int), name@, color@, now, limit) == Some(event_views(out@)),
        decreases items@.len() - i,
    {
        proof {
            let p = items@.subrange(0, i as int + 1);
            assert(p.drop_last() =~= items@.subrange(0, i as int));
            assert(p.last() == items@[i as int]);
        }
        if !push_ical_event(&mut out, &items[i], name, color, now, limit) {
            proof {
                lemma_feed_fails_from(items@, name@, color@, now, limit, i as int + 1);
            }
            return None;
        }
        i = i + 1;
    }
    assert(items@.subrange(0, items@.len() as int) =~= items@);
    Some(out)
}

/// Once a prefix of the items fails, every longer prefix fails.
proof fn lemma_feed_fails_from(
    items: Seq<IcalEvent>,
    name: Seq<char>,
    color: Seq<char>,
    now: Timestamp,
    limit: Timestamp,
    k: int,
)
    requires
        0 < k <= items.len(),
        feed_events_spec(items.subrange(0, k), name, color, now, limit) is None,
    ensures
        feed_events_spec(items, name, color, now, limit) is None,
    decreases items.len() - k,
{
    if k < items.len() {
        let p = items.subrange(0, k + 1);
        assert(p.drop_last() =~= items.subrange(0, k));
        lemma_feed_fails_from(items, name, color, now, limit, k + 1);
    } else {
        assert(items.subrange(0, k) =~= items);
    }
}

// ---------------------------------------------------------------------------
// Merging feeds
// ---------------------------------------------------------------------------

/// How many leading events of `sorted` start no later than `t`: where an
/// event starting at `t` goes, after every event that starts at the same
/// time.
pub open spec fn first_later(sorted: Seq<CalendarEventView>, t: Timestamp) -> int
    decreases sorted.len(),
{
    if sorted.len() == 0 {
        0
    } else if before(t, sorted[0].start) {
        0
    } else {
        1 + first_later(sorted.drop_first(), t)
    }
}

/// `e` placed into `sorted` after every event that starts no later.
pub open spec fn insert_by_start(sorted: Seq<CalendarEventView>, e: CalendarEventView) -> Seq<CalendarEventView> {
    let p = first_later(sorted, e.start);
    sorted.take(p) + seq![e] + sorted.skip(p)
}

/// The events ordered by start; events that start together keep their
/// order (a stable sort).
pub open spec fn sort_by_start(s: Seq<CalendarEventView>) -> Seq<CalendarEventView>
    decreases s.len(),
{
    if s.len() == 0 {
        s
    } else {
        insert_by_start(sort_by_start(s.drop_last()), s.last())
    }
}

/// Whether the events are in start order.
pub open spec fn in_start_order(s: Seq<CalendarEventView>) -> bool {
    forall|i: int, j: int| 0 <= i < j < s.len() ==> !before(#[trigger] s[j].start, #[trigger] s[i].start)
}

proof fn lemma_first_later_bounds(sorted: Seq<CalendarEventView>, t: Timestamp)
    ensures
        0 <= first_later(sorted, t) <= sorted.len(),
        forall|i: int| 0 <= i < first_later(sorted, t) ==> !before(t, #[trigger] sorted[i].start),
        first_later(sorted, t) < sorted.len() ==> before(t, sorted[first_later(sorted, t)].start),
    decreases sorted.len(),
{
    if sorted.len() > 0 && !before(t, sorted[0].start) {
        let rest = sorted.drop_first();
        lemma_first_later_bounds(rest, t);
        assert forall|i: int| 0 <= i < first_later(sorted, t) implies !before(t, #[trigger] sorted[i].start) by {
            if i > 0 {
                assert(sorted[i] == rest[i - 1]);
            }
        }
        if first_later(sorted, t) < sorted.len() {
            assert(sorted[first_later(sorted, t)] == rest[first_later(rest, t)]);
        }
    }
}

proof fn lemma_insert_keeps_order(sorted: Seq<CalendarEventView>, e: CalendarEventView)
    requires
        in_start_order(sorted),
    ensures
        in_start_order(insert_by_start(sorted, e)),
        insert_by_start(sorted, e).len() == sorted.len() + 1,
{
    lemma_first_later_bounds(sorted, e.start);
    let p = first_later(sorted, e.start);
    let r = insert_by_start(sorted, e);
    assert(r.len() == sorted.len() + 1);
    assert forall|i: int, j: int| 0 <= i < j < r.len() implies !before(#[trigger] r[j].start, #[trigger] r[i].start) by {
        if j < p {
            assert(r[i] == sorted[i] && r[j] == sorted[j]);
        } else if j == p {
            assert(r[j] == e);
            assert(r[i] == sorted[i]);
        } else if i < p {
            assert(r[i] == sorted[i] && r[j] == sorted[j - 1]);
        } else if i == p {
            assert(r[i] == e && r[j] == sorted[j - 1]);
            assert(before(e.start, sorted[p].start));
            if j - 1 > p {
                assert(!before(sorted[j - 1].start, sorted[p].start));
            }
        } else {
            assert(r[i] == sorted[i - 1] && r[j] == sorted[j - 1]);
        }
    }
}

/// The events are put in start order.
pub proof fn law_sorted_events_are_in_start_order(s: Seq<CalendarEventView>)
    ensures
        in_start_order(sort_by_start(s)),
        sort_by_start(s).len() == s.len(),
    decreases s.len(),
{
    if s.len() > 0 {
        law_sorted_events_are_in_start_order(s.drop_last());
        lemma_insert_keeps_order(sort_by_start(s.drop_last()), s.last());
    }
}

/// Where an event starting at `t` goes in `sorted`.
fn insertion_point(sorted: &Vec<CalendarEvent>, t: Timestamp) -> (p: usize)
    ensures
        p == first_later(event_views(sorted@), t),
{
    let ghost vs = event_views(sorted@);
    let mut i: usize = 0;
    assert(vs.subrange(0, vs.len() as int) =~= vs);
    while i < sorted.len()
        invariant
            i <= sorted@.len(),
            vs == event_views(sorted@),
            first_later(vs, t) == i + first_later(vs.subrange(i as int, vs.len() as int), t),
        decreases sorted@.len() - i,
    {
        let ghost rest = vs.subrange(i as int, vs.len() as int);
        assert(rest[0] == sorted@[i as int]@);
        assert(rest.drop_first() =~= vs.subrange(i + 1, vs.len() as int));
        if sorted[i].start.is_before(&t) || (!t.is_before(&sorted[i].start)) {
            if t.is_before(&sorted[i].start) {
                return i;
            }
            i = i + 1;
        } else {
            return i;
        }
    }
    assert(vs.subrange(vs.len() as int, vs.len() as int) =~= Seq::<CalendarEventView>::empty());
    i
}

/// The events of all feeds, one after another.
pub open spec fn all_events(batches: Seq<Vec<CalendarEvent>>) -> Seq<CalendarEventView>
    decreases batches.len(),
{
    if batches.len() == 0 {
        Seq::<CalendarEventView>::empty()
    } else {
        all_events(batches.drop_last()) + event_views(batches.last()@)
    }
}

/// The events shown: every feed's events in start order, at most `max` of
/// them.
pub open spec fn merged_spec(batches: Seq<Vec<CalendarEvent>>, max: usize) -> Seq<CalendarEventView> {
    let s = sort_by_start(all_events(batches));
    if max as int <= s.len() {
        s.take(max as int)
    } else {
        s
    }
}

/// Merge the feeds' events for display.
pub fn merge_events(batches: &[Vec<CalendarEvent>], max: usize) -> (r: Vec<CalendarEvent>)
    ensures
        event_views(r@) == merged_spec(batches@, max),
{
    let mut sorted: Vec<CalendarEvent> = Vec::new();
    let mut b: usize = 0;
    while b < batches.len()
        invariant
            b <= batches@.len(),
            event_views(sorted@) == sort_by_start(all_events(batches@.subrange(0, b as int))),
        decreases batches@.len() - b,
    {
        let batch = &batches[b];
        let ghost base = all_events(batches@.subrange(0, b as int));
        proof {
            let p = batches@.subrange(0, b as int + 1);
            assert(p.drop_last() =~= batches@.subrange(0, b as int));
        }
        let mut i: usize = 0;
        while i < batch.len()
            invariant
                i <= batch@.len(),
                b < batches@.len(),
                base == all_events(batches@.subrange(0, b as int)),
                batch == batches@[b as int],
                event_views(sorted@) == sort_by_start(base + event_views(batch@).subrange(0, i as int)),
            decreases batch@.len() - i,
        {
            let ev = batch[i].duplicate();
            let p = insertion_point(&sorted, ev.start);
            proof {
                lemma_first_later_bounds(event_views(sorted@), ev.start);
            }
            let ghost before_views = event_views(sorted@);
            sorted.insert(p, ev);
            proof {
                let grown = base + event_views(batch@).subrange(0, i as int + 1);
                assert(grown.drop_last() =~= base + event_views(batch@).subrange(0, i as int));
                assert(grown.last() == ev@);
                assert(event_views(sorted@) =~= insert_by_start(before_views, ev@));
            }
            i = i + 1;
        }
        proof {
            assert(event_views(batch@).subrange(0, batch@.len() as int) =~= event_views(batch@));
            let p = batches@.subrange(0, b as int + 1);
            assert(p.drop_last() =~= batches@.subrange(0, b as int));
            assert(p.last() == batch);
            assert(all_events(p) == base + event_views(batch@));
        }
        b = b + 1;
    }
    assert(batches@.subrange(0, batches@.len() as int) =~= batches@);
    if max < sorted.len() {
        sorted.truncate(max);
        proof {
            assert(event_views(sorted@) =~= merged_spec(batches@, max));
        }
    }
    sorted
}

/// Whether a cached feed is still fresh: it was fetched less than
/// `cache_minutes` whole minutes ago (the elapsed time counted in whole
/// seconds, then whole minutes, both rounded toward zero).
pub open spec fn cache_fresh_spec(cached_at: Timestamp, now: Timestamp, cache_minutes: i64) -> bool {
    let d = now.unix_seconds - cached_at.unix_seconds;
    let n = now.nanos - cached_at.nanos;
    let (secs, nanos) = if n < 0 {
        (d - 1, n + 1_000_000_000)
    } else {
        (d, n)
    };
    let whole = if secs < 0 && nanos > 0 {
        secs + 1
    } else {
        secs
    };
    let minutes = if whole >= 0 {
        whole / 60
    } else {
        -((-whole) / 60)
    };
    minutes < cache_minutes
}

/// Decide whether a cached feed is still fresh.
pub fn cache_fresh(cached_at: Timestamp, now: Timestamp, cache_minutes: i64) -> (r: bool)
    requires
        valid_instant(cached_at),
        valid_instant(now),
    ensures
        r == cache_fresh_spec(cached_at, now, cache_minutes),
{
    let d: i64 = now.unix_seconds - cached_at.unix_seconds;
    let n: i64 = now.nanos as i64 - cached_at.nanos as i64;
    let (secs, nanos) = if n < 0 {
        (d - 1, n + 1_000_000_000)
    } else {
        (d, n)
    };
    let whole = if secs < 0 && nanos > 0 {
        secs + 1
    } else {
        secs
    };
    let minutes = if whole >= 0 {
        whole / 60
    } else {
        -((-whole) / 60)
    };
    minutes < cache_minutes
}

// ---------------------------------------------------------------------------
// What every shown event satisfies
// ---------------------------------------------------------------------------

/// Whether an event starts within the window from `now` to `limit`.
pub open spec fn in_window(t: Timestamp, now: Timestamp, limit: Timestamp) -> bool {
    at_or_after(t.unix_seconds as int, t.nanos, now) && not_after(t.unix_seconds as int, t.nanos, limit)
}

proof fn lemma_occurrences_in_window(
    start: Timestamp,
    end: Option<Timestamp>,
    now: Timestamp,
    limit: Timestamp,
    step: Option<int>,
    offset: int,
    remaining: nat,
)
    requires
        in_range(start.unix_seconds + offset),
        expansion(start, end, now, limit, step, offset, remaining) is Some,
    ensures
        forall|i: int|
            0 <= i < expansion(start, end, now, limit, step, offset, remaining)->Some_0.len() ==> in_window(
                (#[trigger] expansion(start, end, now, limit, step, offset, remaining)->Some_0[i]).0,
                now,
                limit,
            ),
    decreases remaining,
{
    let cur = start.unix_seconds + offset;
    if remaining == 0 || !not_after(cur, start.nanos, limit) {
    } else {
        let s = step->Some_0;
        lemma_occurrences_in_window(start, end, now, limit, step, offset + s, (remaining - 1) as nat);
        let all = expansion(start, end, now, limit, step, offset, remaining)->Some_0;
        let rest = expansion(start, end, now, limit, step, offset + s, (remaining - 1) as nat)->Some_0;
        let shown = at_or_after(cur, start.nanos, now);
        assert forall|i: int| 0 <= i < all.len() implies in_window((#[trigger] all[i]).0, now, limit) by {
            if shown {
                if i == 0 {
                    assert(all[0].0 == shifted(start, offset));
                } else {
                    assert(all[i] == rest[i - 1]);
                }
            } else {
                assert(all[i] == rest[i]);
            }
        }
    }
}

/// Every event an iCal event contributes starts within the window and is
/// shown under the feed's name and colour.
pub proof fn law_ical_events_fall_in_the_window(
    e: IcalEvent,
    name: Seq<char>,
    color: Seq<char>,
    now: Timestamp,
    limit: Timestamp,
)
    requires
        valid_ical_event(e),
        ical_event_spec(e, name, color, now, limit) is Some,
    ensures
        forall|i: int|
            0 <= i < ical_event_spec(e, name, color, now, limit)->Some_0.len() ==> {
                let ev = #[trigger] ical_event_spec(e, name, color, now, limit)->Some_0[i];
                &&& in_window(ev.start, now, limit)
                &&& ev.calendar_name == name
                &&& ev.calendar_color == color
            },
{
    match e.start {
        None => {},
        Some(st) => {
            let (start, all_day) = start_instant(st);
            let end = end_of(e.end);
            match e.rrule {
                Some(rule) => match rrule_frequency_spec(rule@) {
                    None => {},
                    Some(freq) => {
                        let step = step_of(freq, rrule_interval_spec(rule@));
                        let steps = max_steps(rrule_count_spec(rule@));
                        lemma_occurrences_in_window(start, end, now, limit, step, 0, steps);
                        let occs = expansion(start, end, now, limit, step, 0, steps)->Some_0;
                        assert(occs =~= expansion(start, end, now, limit, step, 0int, steps)->Some_0);
                    },
                },
                None => {},
            }
        },
    }
}

/// Every event a feed contributes starts within the window and is shown
/// under the feed's name and colour.
pub proof fn law_feed_events_fall_in_the_window(
    items: Seq<IcalEvent>,
    name: Seq<char>,
    color: Seq<char>,
    now: Timestamp,
    limit: Timestamp,
)
    requires
        forall|i: int| 0 <= i < items.len() ==> valid_ical_event(#[trigger] items[i]),
        feed_events_spec(items, name, color, now, limit) is Some,
    ensures
        forall|i: int|
            0 <= i < feed_events_spec(items, name, color, now, limit)->Some_0.len() ==> {
                let ev = #[trigger] feed_events_spec(items, name, color, now, limit)->Some_0[i];
                &&& in_window(ev.start, now, limit)
                &&& ev.calendar_name == name
                &&& ev.calendar_color == color
            },
    decreases items.len(),
{
    if items.len() > 0 {
        let init = items.drop_last();
        assert forall|i: int| 0 <= i < init.len() implies valid_ical_event(#[trigger] init[i]) by {
            assert(init[i] == items[i]);
        }
        law_feed_events_fall_in_the_window(init, name, color, now, limit);
        law_ical_events_fall_in_the_window(items.last(), name, color, now, limit);
        let before = feed_events_spec(init, name, color, now, limit)->Some_0;
        let mine = ical_event_spec(items.last(), name, color, now, limit)->Some_0;
        let all = feed_events_spec(items, name, color, now, limit)->Some_0;
        assert(all == before + mine);
        assert forall|i: int| 0 <= i < all.len() implies {
            let ev = #[trigger] all[i];
            &&& in_window(ev.start, now, limit)
            &&& ev.calendar_name == name
            &&& ev.calendar_color == color
        } by {
            if i < before.len() {
                assert(all[i] == before[i]);
            } else {
                assert(all[i] == mine[i - before.len()]);
            }
        }
    }
}

/// Every event shown for an iCal event carries that event's own text: its
/// summary as the title ("Untitled Event" without one), its description
/// and its location, for a single event and for every occurrence of a
/// recurring one.
pub proof fn law_ical_events_carry_the_event_text(
    e: IcalEvent,
    name: Seq<char>,
    color: Seq<char>,
    now: Timestamp,
    limit: Timestamp,
)
    requires
        ical_event_spec(e, name, color, now, limit) is Some,
    ensures
        forall|i: int|
            0 <= i < ical_event_spec(e, name, color, now, limit)->Some_0.len() ==> {
                let ev = #[trigger] ical_event_spec(e, name, color, now, limit)->Some_0[i];
                &&& ev.description == opt_text(e.description)
                &&& ev.location == opt_text(e.location)
                &&& ev.title == (match e.summary {
                    Some(t) => t@,
                    None => "Untitled Event"@,
                })
            },
{
    match e.start {
        None => {},
        Some(st) => {
            let (start, all_day) = start_instant(st);
            let end = end_of(e.end);
            match e.rrule {
                Some(rule) => match rrule_frequency_spec(rule@) {
                    None => {},
                    Some(freq) => {
                        let step = step_of(freq, rrule_interval_spec(rule@));
                        let steps = max_steps(rrule_count_spec(rule@));
                        let occs = expansion(start, end, now, limit, step, 0, steps)->Some_0;
                        assert(occs =~= expansion(start, end, now, limit, step, 0int, steps)->Some_0);
                    },
                },
                None => {},
            }
        },
    }
}

/// Whether a shown event carries the text of iCal event `e`: its
/// description, its location, and its summary as the title.
pub open spec fn carries_text(ev: CalendarEventView, e: IcalEvent) -> bool {
    &&& ev.description == opt_text(e.description)
    &&& ev.location == opt_text(e.location)
    &&& ev.title == title_of(opt_text(e.summary))
}

/// Whether `ev` carries the text of one of `items`.
pub open spec fn carries_item_text(ev: CalendarEventView, items: Seq<IcalEvent>) -> bool {
    exists|j: int| 0 <= j < items.len() && #[trigger] carries_text(ev, items[j])
}

/// Whether every event of `evs` carries the text of one of `items`.
pub open spec fn each_carries_item_text(evs: Seq<CalendarEventView>, items: Seq<IcalEvent>) -> bool {
    forall|i: int| 0 <= i < evs.len() ==> #[trigger] carries_item_text(evs[i], items)
}

/// Every event of a feed carries the text of one of the feed's items: its
/// description, its location and its title come from the same item.
pub proof fn law_feed_events_carry_item_text(
    items: Seq<IcalEvent>,
    name: Seq<char>,
    color: Seq<char>,
    now: Timestamp,
    limit: Timestamp,
)
    requires
        feed_events_spec(items, name, color, now, limit) is Some,
    ensures
        each_carries_item_text(feed_events_spec(items, name, color, now, limit)->Some_0, items),
    decreases items.len(),
{
    if items.len() > 0 {
        let init = items.drop_last();
        let last = items.last();
        law_feed_events_carry_item_text(init, name, color, now, limit);
        law_ical_events_carry_the_event_text(last, name, color, now, limit);
        let before = feed_events_spec(init, name, color, now, limit)->Some_0;
        let mine = ical_event_spec(last, name, color, now, limit)->Some_0;
        let all = feed_events_spec(items, name, color, now, limit)->Some_0;
        assert(all == before + mine);
        assert forall|i: int| 0 <= i < all.len() implies #[trigger] carries_item_text(all[i], items) by {
            if i < before.len() {
                assert(all[i] == before[i]);
                assert(carries_item_text(before[i], init));
                let j = choose|j: int| 0 <= j < init.len() && #[trigger] carries_text(before[i], init[j]);
                assert(init[j] == items[j]);
                assert(carries_text(all[i], items[j]));
            } else {
                let k = i - before.len();
                assert(all[i] == mine[k]);
                assert(items[items.len() - 1] == last);
                let ev = mine[k];
                assert(ev.description == opt_text(last.description));
                assert(ev.location == opt_text(last.location));
                assert(ev.title == title_of(opt_text(last.summary)));
                assert(carries_text(all[i], items[items.len() - 1]));
            }
        }
        assert(each_carries_item_text(all, items));
    } else {
        assert(feed_events_spec(items, name, color, now, limit)->Some_0.len() == 0);
    }
}

// ---------------------------------------------------------------------------
// Reading a feed
// ---------------------------------------------------------------------------

#[verifier::external_type_specification]
#[verifier::external_body]
pub struct ExIcalCalendar(icalendar::Calendar);

#[verifier::external_type_specification]
#[verifier::external_body]
pub struct ExIcalComponent(icalendar::CalendarComponent);

/// What an iCal text holds, as `str::parse::<icalendar::Calendar>` reads
/// it: the parser's message where it refuses the text; otherwise, for each
/// of the calendar's components in order, `None` if it is not an event, or
/// the event's `SUMMARY`, `DESCRIPTION`, `LOCATION` and `RRULE` values, and
/// its start and end (a floating or zoned date-time read as UTC, a date as
/// its midnight).
pub uninterp spec fn ical_feed(text: Seq<char>) -> Result<Seq<Option<IcalEvent>>, Seq<char>>;

/// What a parsed calendar's components are, as [`ical_feed`] describes
/// them.
pub uninterp spec fn calendar_items(c: icalendar::Calendar) -> Seq<Option<IcalEvent>>;

/// `str::parse::<icalendar::Calendar>`.
///
/// Trusted: it refuses the text with the message [`ical_feed`] names, or
/// gives a calendar whose components are what [`ical_feed`] names.
#[verifier::external_body]
fn parse_calendar(text: &str) -> (r: Result<icalendar::Calendar, String>)
    ensures
        match ical_feed(text@) {
            Err(m) => r matches Err(e) && e@ == m,
            Ok(items) => r matches Ok(c) && calendar_items(c) == items,
        },
{
    text.parse::<icalendar::Calendar>()
}

/// `Calendar::components.len()`.
///
/// Trusted: the number of its components.
#[verifier::external_body]
fn calendar_len(c: &icalendar::Calendar) -> (r: usize)
    ensures
        r == calendar_items(*c).len(),
{
    c.components.len()
}

/// Whether component `i` is a `CalendarComponent::Event`.
///
/// Trusted: exactly when [`calendar_items`] has an event there.
#[verifier::external_body]
fn calendar_is_event(c: &icalendar::Calendar, i: usize) -> (r: bool)
    requires
        i < calendar_items(*c).len(),
    ensures
        r == (calendar_items(*c)[i as int] is Some),
{
    match &c.components[i] {
        icalendar::CalendarComponent::Event(_) => true,
        _ => false,
    }
}

/// `Component::property_value(key)` of event `i`, as an owned string.
///
/// Trusted: for the four keys the feed reads, the matching field of the
/// event [`calendar_items`] has there.
#[verifier::external_body]
fn calendar_text(c: &icalendar::Calendar, i: usize, key: &str) -> (r: Option<String>)
    requires
        i < calendar_items(*c).len(),
        calendar_items(*c)[i as int] is Some,
    ensures
        key@ == "SUMMARY"@ ==> r == calendar_items(*c)[i as int]->Some_0.summary,
        key@ == "DESCRIPTION"@ ==> r == calendar_items(*c)[i as int]->Some_0.description,
        key@ == "LOCATION"@ ==> r == calendar_items(*c)[i as int]->Some_0.location,
        key@ == "RRULE"@ ==> r == calendar_items(*c)[i as int]->Some_0.rrule,
{
    match &c.components[i] {
        icalendar::CalendarComponent::Event(e) => icalendar::Component::property_value(e, key).map(|v| v.to_string()),
        _ => None,
    }
}

/// `Component::get_start` of event `i`, as an instant in UTC (a floating or
/// zoned date-time read as UTC) or a day (a date, by its midnight).
///
/// Trusted: the start of the event [`calendar_items`] has there.
#[verifier::external_body]
fn calendar_start(c: &icalendar::Calendar, i: usize) -> (r: Option<IcalTime>)
    requires
        i < calendar_items(*c).len(),
        calendar_items(*c)[i as int] is Some,
    ensures
        r == calendar_items(*c)[i as int]->Some_0.start,
{
    let t = match &c.components[i] {
        icalendar::CalendarComponent::Event(e) => icalendar::Component::get_start(e)?,
        _ => return None,
    };
    let (n, day) = match t {
        icalendar::DatePerhapsTime::DateTime(icalendar::CalendarDateTime::Floating(n)) => (n, false),
        icalendar::DatePerhapsTime::DateTime(icalendar::CalendarDateTime::Utc(d)) => (d.naive_utc(), false),
        icalendar::DatePerhapsTime::DateTime(icalendar::CalendarDateTime::WithTimezone { date_time, .. }) => (date_time, false),
        icalendar::DatePerhapsTime::Date(d) => (d.and_time(chrono::NaiveTime::MIN), true),
    };
    let ts = Timestamp { unix_seconds: n.and_utc().timestamp(), nanos: n.and_utc().timestamp_subsec_nanos() };
    Some(if day { IcalTime::Day(ts) } else { IcalTime::At(ts) })
}

/// `Component::get_end` of event `i`, read as [`calendar_start`] reads a
/// start.
///
/// Trusted: the end of the event [`calendar_items`] has there.
#[verifier::external_body]
fn calendar_end(c: &icalendar::Calendar, i: usize) -> (r: Option<IcalTime>)
    requires
        i < calendar_items(*c).len(),
        calendar_items(*c)[i as int] is Some,
    ensures
        r == calendar_items(*c)[i as int]->Some_0.end,
{
    let t = match &c.components[i] {
        icalendar::CalendarComponent::Event(e) => icalendar::Component::get_end(e)?,
        _ => return None,
    };
    let (n, day) = match t {
        icalendar::DatePerhapsTime::DateTime(icalendar::CalendarDateTime::Floating(n)) => (n, false),
        icalendar::DatePerhapsTime::DateTime(icalendar::CalendarDateTime::Utc(d)) => (d.naive_utc(), false),
        icalendar::DatePerhapsTime::DateTime(icalendar::CalendarDateTime::WithTimezone { date_time, .. }) => (date_time, false),
        icalendar::DatePerhapsTime::Date(d) => (d.and_time(chrono::NaiveTime::MIN), true),
    };
    let ts = Timestamp { unix_seconds: n.and_utc().timestamp(), nanos: n.and_utc().timestamp_subsec_nanos() };
    Some(if day { IcalTime::Day(ts) } else { IcalTime::At(ts) })
}

/// The events among a calendar's components, in order.
pub open spec fn events_of(items: Seq<Option<IcalEvent>>) -> Seq<IcalEvent>
    decreases items.len(),
{
    if items.len() == 0 {
        Seq::<IcalEvent>::empty()
    } else {
        let rest = events_of(items.drop_last());
        match items.last() {
            Some(e) => rest.push(e),
            None => rest,
        }
    }
}

/// Whether an instant is one the date library can hold.
fn instant_ok(t: Timestamp) -> (r: bool)
    ensures
        r == valid_instant(t),
{
    MIN_INSTANT_SECS <= t.unix_seconds && t.unix_seconds <= MAX_INSTANT_SECS && t.nanos < 1_000_000_000
}

/// Whether an iCal time is one the date library can hold.
fn ical_time_ok(t: Option<IcalTime>) -> (r: bool)
    ensures
        r == (t matches Some(x) ==> valid_ical_time(x)),
{
    match t {
        None => true,
        Some(IcalTime::At(x)) => instant_ok(x),
        Some(IcalTime::Day(m)) => instant_ok(m) && m.nanos == 0 && m.unix_seconds % 86400 == 0,
    }
}

/// The items of a feed: the events among its components, in order, each
/// with what it carries.
fn feed_items(c: &icalendar::Calendar) -> (r: Vec<IcalEvent>)
    ensures
        r@ == events_of(calendar_items(*c)),
{
    let ghost all = calendar_items(*c);
    let n = calendar_len(c);
    let mut items: Vec<IcalEvent> = Vec::new();
    let mut i: usize = 0;
    assert(all.subrange(0, 0) =~= Seq::<Option<IcalEvent>>::empty());
    while i < n
        invariant
            all == calendar_items(*c),
            n == all.len(),
            i <= n,
            items@ == events_of(all.subrange(0, i as int)),
        decreases n - i,
    {
        let ghost upto = all.subrange(0, i as int + 1);
        assert(upto.drop_last() =~= all.subrange(0, i as int));
        assert(upto.last() == all[i as int]);
        if calendar_is_event(c, i) {
            let e = IcalEvent {
                summary: calendar_text(c, i, "SUMMARY"),
                description: calendar_text(c, i, "DESCRIPTION"),
                location: calendar_text(c, i, "LOCATION"),
                start: calendar_start(c, i),
                end: calendar_end(c, i),
                rrule: calendar_text(c, i, "RRULE"),
            };
            assert(e == all[i as int]->Some_0);
            items.push(e);
        }
        i = i + 1;
    }
    assert(all.subrange(0, n as int) =~= all);
    items
}

/// The events a feed's items give: none at all (`None`) where an item
/// carries a time the date library cannot hold, otherwise what
/// [`feed_events_spec`] makes of them within the lookahead window (`None`
/// where that limit cannot be built).
pub open spec fn feed_from_items_spec(
    items: Seq<IcalEvent>,
    name: Seq<char>,
    color: Seq<char>,
    now: Timestamp,
    lookahead_days: i64,
) -> Option<Seq<CalendarEventView>> {
    if forall|i: int| 0 <= i < items.len() ==> valid_ical_event(#[trigger] items[i]) {
        match lookahead(now, lookahead_days) {
            None => None,
            Some(limit) => feed_events_spec(items, name, color, now, limit),
        }
    } else {
        None
    }
}

/// The events to show from the items a feed was read into: `None` where a
/// time is one the date library cannot hold or where it would fail.
pub fn feed_from_items(items: &[IcalEvent], name: &str, color: &str, now: Timestamp, lookahead_days: i64) -> (r:
    Option<Vec<CalendarEvent>>)
    requires
        valid_instant(now),
    ensures
        match feed_from_items_spec(items@, name@, color@, now, lookahead_days) {
            None => r is None,
            Some(s) => r matches Some(v) && event_views(v@) == s,
        },
{
    let mut i: usize = 0;
    while i < items.len()
        invariant
            i <= items@.len(),
            forall|k: int| 0 <= k < i ==> valid_ical_event(#[trigger] items@[k]),
        decreases items@.len() - i,
    {
        if !ical_time_ok(items[i].start) || !ical_time_ok(items[i].end) {
            assert(!valid_ical_event(items@[i as int]));
            return None;
        }
        i = i + 1;
    }
    feed_events(items, name, color, now, lookahead_days)
}

/// Read a feed and turn it into the events to show, under the feed's name
/// and colour, from `now` to `lookahead_days` days later: a text that is
/// not iCal is refused with the parser's message; otherwise the result is
/// what [`feed_from_items`] makes of the events the text holds. Whatever the
/// feed holds, every event shown starts within the window and carries the
/// feed's name and colour.
pub fn parse_feed(text: &str, name: &str, color: &str, now: Timestamp, lookahead_days: i64) -> (r: Result<
    Option<Vec<CalendarEvent>>,
    String,
>)
    requires
        valid_instant(now),
    ensures
        match ical_feed(text@) {
            Err(m) => r matches Err(x) && x@ == "Failed to parse iCal data: "@ + m,
            Ok(items) => r matches Ok(x) && match feed_from_items_spec(events_of(items), name@, color@, now, lookahead_days) {
                None => x is None,
                Some(s) => x matches Some(v) && event_views(v@) == s,
            },
        },
        r matches Ok(Some(v)) ==> lookahead(now, lookahead_days) is Some && forall|i: int|
            0 <= i < v@.len() ==> {
                let ev = (#[trigger] v@[i])@;
                &&& in_window(ev.start, now, lookahead(now, lookahead_days)->Some_0)
                &&& ev.calendar_name == name@
                &&& ev.calendar_color == color@
            },
{
    let cal = match parse_calendar(text) {
        Ok(c) => c,
        Err(e) => {
            return Err("Failed to parse iCal data: ".to_string().concat(e.as_str()));
        },
    };
    let items = feed_items(&cal);
    let r = feed_from_items(items.as_slice(), name, color, now, lookahead_days);
    proof {
        if r is Some {
            let limit = lookahead(now, lookahead_days)->Some_0;
            law_feed_events_fall_in_the_window(items@, name@, color@, now, limit);
            let v = r->Some_0;
            assert forall|i: int| 0 <= i < v@.len() implies {
                let ev = (#[trigger] v@[i])@;
                &&& in_window(ev.start, now, limit)
                &&& ev.calendar_name == name@
                &&& ev.calendar_color == color@
            } by {
                assert(event_views(v@)[i] == v@[i]@);
            }
        }
    }
    Ok(r)
}

} // verus!
