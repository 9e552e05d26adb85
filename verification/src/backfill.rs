//! Sealing existing card codes in place: what the operator's backfill
//! reports after checking every row. A sealed row must open to the
//! plaintext beside it, index to it, and carry its device digest; a failure
//! names the rows by id only, never by code.

use vstd::prelude::*;
use vstd::string::*;
use crate::models::{uuid_hyphenated, uuid_text};
use crate::text::{append_str, dec_digits, joined, push_decimal, string_from_chars};

verus! {

/// One card row as the check sees it: whether all its sealed columns are
/// present, and whether they agree with its plaintext.
#[derive(Clone, Copy, Debug)]
pub struct SealedRow {
    pub id: u128,
    pub sealed: bool,
    pub intact: bool,
}

/// Whether a row is sealed.
pub open spec fn is_sealed() -> spec_fn(SealedRow) -> bool {
    |r: SealedRow| r.sealed
}

/// Whether a row is not sealed yet.
pub open spec fn is_unsealed() -> spec_fn(SealedRow) -> bool {
    |r: SealedRow| !r.sealed
}

/// Whether a row is sealed but does not agree with its plaintext.
pub open spec fn is_broken() -> spec_fn(SealedRow) -> bool {
    |r: SealedRow| r.sealed && !r.intact
}

/// The id of a row.
pub open spec fn row_id() -> spec_fn(SealedRow) -> u128 {
    |r: SealedRow| r.id
}

/// What the check found.
#[derive(Clone, Debug)]
pub struct BackfillReport {
    /// Sealed rows checked.
    pub checked: usize,
    /// Rows not sealed yet.
    pub unsealed: usize,
    /// The sealed rows that do not agree with their plaintext, in order.
    pub bad: Vec<u128>,
}

/// Tally the rows.
pub fn backfill_report(rows: &[SealedRow]) -> (r: BackfillReport)
    ensures
        r.checked == rows@.filter(is_sealed()).len(),
        r.unsealed == rows@.filter(is_unsealed()).len(),
        r.bad@ == rows@.filter(is_broken()).map_values(row_id()),
{
    let mut checked: usize = 0;
    let mut unsealed: usize = 0;
    let mut bad: Vec<u128> = Vec::new();
    let mut i: usize = 0;
    while i < rows.len()
        invariant
            i <= rows@.len(),
            checked == rows@.subrange(0, i as int).filter(is_sealed()).len(),
            unsealed == rows@.subrange(0, i as int).filter(is_unsealed()).len(),
            checked + unsealed == i,
            bad@ == rows@.subrange(0, i as int).filter(is_broken()).map_values(row_id()),
        decreases rows@.len() - i,
    {
        let row = rows[i];
        proof {
            let p = rows@.subrange(0, i as int + 1);
            assert(p.drop_last() =~= rows@.subrange(0, i as int));
            assert(p.last() == row);
            reveal(Seq::filter);
        }
        if row.sealed {
            checked = checked + 1;
            if !row.intact {
                bad.push(row.id);
                proof {
                    let p = rows@.subrange(0, i as int + 1);
                    assert(p.filter(is_broken()) == rows@.subrange(0, i as int).filter(is_broken()).push(row));
                    assert(bad@ =~= p.filter(is_broken()).map_values(row_id()));
                }
            }
        } else {
            unsealed = unsealed + 1;
        }
        i = i + 1;
    }
    assert(rows@.subrange(0, rows@.len() as int) =~= rows@);
    BackfillReport { checked, unsealed, bad }
}

/// The ids of `bad`, as `Debug` lists them: bracketed, hyphenated, comma
/// separated.
pub open spec fn id_list(bad: Seq<u128>) -> Seq<char> {
    "["@ + joined(bad.map_values(|x: u128| uuid_hyphenated(x)), ", "@) + "]"@
}

/// Why the check failed: how many rows disagree, and their ids.
pub fn mismatch_message(bad: &[u128]) -> (m: String)
    ensures
        m@ == dec_digits(bad@.len() as nat)
            + " card(s) do not match their plaintext -- wrong key, or written by a different deployment. Ids: "@
            + id_list(bad@),
{
    let mut ids: Vec<String> = Vec::new();
    let mut i: usize = 0;
    while i < bad.len()
        invariant
            i <= bad@.len(),
            ids@.len() == i,
            forall|k: int| 0 <= k < i ==> (#[trigger] ids@[k])@ == uuid_hyphenated(bad@[k]),
        decreases bad@.len() - i,
    {
        ids.push(uuid_text(bad[i]));
        i = i + 1;
    }
    let ghost hy = bad@.map_values(|x: u128| uuid_hyphenated(x));
    assert(crate::text::string_views(ids@) =~= hy);
    let list = crate::text::join_strings(ids.as_slice(), ", ");
    let mut v: Vec<char> = Vec::new();
    push_decimal(&mut v, bad.len() as u64);
    append_str(
        &mut v,
        " card(s) do not match their plaintext -- wrong key, or written by a different deployment. Ids: ",
    );
    append_str(&mut v, "[");
    append_str(&mut v, list.as_str());
    append_str(&mut v, "]");
    string_from_chars(v.as_slice())
}

} // verus!
