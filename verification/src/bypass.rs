//! Bypass detection: noticing, and recording, tools that run without the
//! server's say-so and modules that stop reporting. Everything here records
//! and nothing here acts.
//!
//! Each finding is recorded once per episode: a module's silence when it
//! begins (and its return when it ends), and a tool powered without
//! authorisation when the episode starts, not again for as long as it lasts.

use vstd::prelude::*;
use vstd::string::*;
use crate::models::{before, Timestamp, ToolStatus};
use crate::text::{chars_eq, chars_of};

verus! {

/// The server authorised a tool to be on exactly when it marked it in use.
pub fn power_authorized(status: ToolStatus) -> (r: bool)
    ensures
        r == (status == ToolStatus::InUse),
{
    match status {
        ToolStatus::InUse => true,
        _ => false,
    }
}

/// Whether the current episode of unauthorised power was reported already:
/// a report at or after the moment the evidence began belongs to it; with
/// no start recorded any report counts; with no report, it was not.
pub open spec fn already_reported_spec(reported_at: Option<Timestamp>, since: Option<Timestamp>) -> bool {
    match (reported_at, since) {
        (Some(r), Some(s)) => !before(r, s),
        (Some(_), None) => true,
        (None, _) => false,
    }
}

/// Decide whether the current episode was reported already.
pub fn already_reported(reported_at: Option<Timestamp>, since: Option<Timestamp>) -> (r: bool)
    ensures
        r == already_reported_spec(reported_at, since),
{
    match (reported_at, since) {
        (Some(r), Some(s)) => !r.is_before(&s),
        (Some(_), None) => true,
        (None, _) => false,
    }
}

/// A finding of unauthorised power is written only at the onset of its
/// episode.
pub fn report_unauthorized_power(finding: bool, reported_at: Option<Timestamp>, since: Option<Timestamp>) -> (r: bool)
    ensures
        r == (finding && !already_reported_spec(reported_at, since)),
{
    finding && !already_reported(reported_at, since)
}

/// A tool powered without authorisation all through one episode is
/// reported at most once: after a report made during the episode, no
/// further report is written until the evidence starts afresh.
pub proof fn law_one_report_per_episode(finding: bool, reported_at: Timestamp, since: Timestamp)
    requires
        !before(reported_at, since),
    ensures
        !(finding && !already_reported_spec(Some(reported_at), Some(since))),
{
}

/// One tool's latest power reading, as the pass over the readings sees it.
#[derive(Clone, Copy, Debug)]
pub struct PowerReading {
    pub tool_id: u128,
    /// The tool's status in the inventory; `None` when the tool is gone.
    pub status: Option<ToolStatus>,
    /// Whether the power evidence (the relay reported on, or a draw at or
    /// above the threshold) has been held past the debounce.
    pub evidence_held: bool,
    /// When unauthorised power was last reported for the tool, if ever.
    pub reported_at: Option<Timestamp>,
    /// When the current run of power evidence began, if it did.
    pub since: Option<Timestamp>,
}

/// Whether a reading is reported: a known tool the server did not
/// authorise, whose held evidence starts an episode not reported yet.
pub open spec fn reading_reported(r: PowerReading) -> bool {
    &&& r.status matches Some(s)
    &&& s != ToolStatus::InUse
    &&& r.evidence_held
    &&& !already_reported_spec(r.reported_at, r.since)
}

/// The tools a pass over `readings` reports, in order.
pub open spec fn reports_spec(readings: Seq<PowerReading>) -> Seq<u128>
    decreases readings.len(),
{
    if readings.len() == 0 {
        Seq::<u128>::empty()
    } else {
        let rest = reports_spec(readings.drop_last());
        if reading_reported(readings.last()) {
            rest.push(readings.last().tool_id)
        } else {
            rest
        }
    }
}

/// Whether a reading counts as a finding of unauthorised power: the tool
/// is known, the server has not authorised it, and the evidence was held.
fn power_finding(r: &PowerReading) -> (f: bool)
    ensures
        f == (r.status matches Some(s) && s != ToolStatus::InUse && r.evidence_held),
{
    match r.status {
        Some(s) => !power_authorized(s) && r.evidence_held,
        None => false,
    }
}

/// One pass of the unauthorised-power check: the tools to write a report
/// for, in the readings' order. How many reports were written is its
/// length; no readings, no reports.
pub fn unauthorized_power_reports(readings: &[PowerReading]) -> (r: Vec<u128>)
    ensures
        r@ == reports_spec(readings@),
{
    let mut out: Vec<u128> = Vec::new();
    let mut i: usize = 0;
    while i < readings.len()
        invariant
            i <= readings@.len(),
            out@ == reports_spec(readings@.subrange(0, i as int)),
        decreases readings@.len() - i,
    {
        let x = readings[i];
        proof {
            let s = readings@.subrange(0, i as int + 1);
            assert(s.drop_last() =~= readings@.subrange(0, i as int));
            assert(s.last() == x);
        }
        if report_unauthorized_power(power_finding(&x), x.reported_at, x.since) {
            out.push(x.tool_id);
        }
        i = i + 1;
    }
    assert(readings@.subrange(0, readings@.len() as int) =~= readings@);
    out
}

/// Every tool a pass reports is one of the readings' tools that was
/// reported, and so neither authorised (in use) nor gone.
proof fn reported_tools_come_from_reported_readings(readings: Seq<PowerReading>, k: int)
    requires
        0 <= k < reports_spec(readings).len(),
    ensures
        exists|j: int| 0 <= j < readings.len() && #[trigger] reading_reported(readings[j])
            && readings[j].tool_id == reports_spec(readings)[k],
    decreases readings.len(),
{
    let rest = reports_spec(readings.drop_last());
    if k < rest.len() {
        reported_tools_come_from_reported_readings(readings.drop_last(), k);
        let j = choose|j: int| 0 <= j < readings.drop_last().len() && #[trigger] reading_reported(readings.drop_last()[j])
            && readings.drop_last()[j].tool_id == rest[k];
        assert(readings[j] == readings.drop_last()[j]);
    } else {
        assert(reading_reported(readings[readings.len() - 1]));
    }
}

/// A tool the server marked in use is never reported for unauthorised
/// power, whatever its evidence: no report of a pass names a tool whose
/// every reading shows it in use.
pub proof fn law_in_use_tool_never_reported(readings: Seq<PowerReading>, tool: u128)
    requires
        forall|j: int| 0 <= j < readings.len() && #[trigger] readings[j].tool_id == tool ==> readings[j].status
            == Some(ToolStatus::InUse),
    ensures
        !reports_spec(readings).contains(tool),
{
    if reports_spec(readings).contains(tool) {
        let k = choose|k: int| 0 <= k < reports_spec(readings).len() && reports_spec(readings)[k] == tool;
        reported_tools_come_from_reported_readings(readings, k);
    }
}

/// Whether the last liveness event recorded for a module is its silence
/// (`silent_event`, the name that event is stored under).
pub fn previously_silent(last_event: Option<&str>, silent_event: &str) -> (r: bool)
    ensures
        r == (last_event matches Some(e) && e@ == silent_event@),
{
    match last_event {
        Some(e) => {
            let a = chars_of(e);
            let b = chars_of(silent_event);
            chars_eq(a.as_slice(), b.as_slice())
        },
        None => false,
    }
}

} // verus!
