//! The roster of a stateful fake of the Groups.io member API.
//!
//! The fake keeps a group roster and a past-members list. Membership is
//! case-insensitive, as Groups.io's is: every address is trimmed and
//! lower-cased before it is stored or compared, so a mixed-case address does
//! not create a second entry. `directadd` makes addresses members (and takes
//! them off the past list); `bulkremovemembers` moves current members to the
//! past list, which is where a real unsubscribe lands.

use vstd::prelude::*;
use crate::text::{
    chars_of, lower_chars, lower_seq, split_any, split_any_chars, string_from_chars,
    string_views, trim, trim_chars, views,
};

verus! {

/// An address as the roster stores it: trimmed and ASCII lower-cased.
pub open spec fn norm_spec(email: Seq<char>) -> Seq<char> {
    lower_seq(trim(email))
}

fn norm_chars(cs: &[char]) -> (r: Vec<char>)
    ensures
        r@ == norm_spec(cs@),
{
    let t = trim_chars(cs);
    lower_chars(t.as_slice())
}

/// Normalise an address: trimmed and ASCII lower-cased.
pub fn norm(email: &str) -> (r: String)
    ensures
        r@ == norm_spec(email@),
{
    let cs = chars_of(email);
    let n = norm_chars(cs.as_slice());
    string_from_chars(n.as_slice())
}

/// The normalised, non-empty addresses among `parts`, in order.
pub open spec fn kept_addresses(parts: Seq<Seq<char>>) -> Seq<Seq<char>>
    decreases parts.len(),
{
    if parts.len() == 0 {
        Seq::<Seq<char>>::empty()
    } else {
        let rest = kept_addresses(parts.drop_last());
        let e = norm_spec(parts.last());
        if e.len() == 0 {
            rest
        } else {
            rest.push(e)
        }
    }
}

/// The addresses of an `emails` form field, which arrives newline-separated
/// (carriage returns and commas separate too).
pub open spec fn split_emails_spec(raw: Seq<char>) -> Seq<Seq<char>> {
    kept_addresses(split_any(raw, seq!['\n', '\r', ',']))
}

/// Split the `emails` field into normalised, non-empty addresses.
pub fn split_emails(raw: &str) -> (r: Vec<String>)
    ensures
        string_views(r@) == split_emails_spec(raw@),
{
    let cs = chars_of(raw);
    let seps: Vec<char> = vec!['\n', '\r', ','];
    assert(seps@ =~= seq!['\n', '\r', ',']);
    let parts = split_any_chars(cs.as_slice(), seps.as_slice());
    let ghost ps = views(parts@);
    let mut out: Vec<String> = Vec::new();
    let mut i: usize = 0;
    assert(string_views(out@) =~= kept_addresses(ps.subrange(0, 0)));
    while i < parts.len()
        invariant
            i <= parts@.len(),
            ps == views(parts@),
            string_views(out@) == kept_addresses(ps.subrange(0, i as int)),
        decreases parts@.len() - i,
    {
        let e = norm_chars(parts[i].as_slice());
        let ghost before = string_views(out@);
        assert(ps.subrange(0, i as int + 1).drop_last() =~= ps.subrange(0, i as int));
        assert(ps[i as int] == parts@[i as int]@);
        if e.len() > 0 {
            out.push(string_from_chars(e.as_slice()));
            assert(string_views(out@) =~= before.push(e@));
        }
        i = i + 1;
    }
    assert(ps.subrange(0, ps.len() as int) =~= ps);
    out
}

// ---------------------------------------------------------------------------
// The roster
// ---------------------------------------------------------------------------

/// The set of the strings in `v`.
pub open spec fn set_of(v: Seq<String>) -> Set<Seq<char>> {
    Set::new(|x: Seq<char>| string_views(v).contains(x))
}

/// Whether no string occurs twice in `v`.
pub open spec fn distinct(v: Seq<String>) -> bool {
    forall|i: int, j: int| 0 <= i < j < v.len() ==> v[i]@ != v[j]@
}

/// The roster: current members and past members.
pub struct Group {
    members: Vec<String>,
    past: Vec<String>,
}

/// The roster as two sets of addresses.
pub struct GroupView {
    pub members: Set<Seq<char>>,
    pub past: Set<Seq<char>>,
}

/// The roster that two lists make.
pub open spec fn lists_view(members: Seq<String>, past: Seq<String>) -> GroupView {
    GroupView { members: set_of(members), past: set_of(past) }
}

impl View for Group {
    type V = GroupView;

    closed spec fn view(&self) -> GroupView {
        lists_view(self.members@, self.past@)
    }
}

/// The position of `s` in `v`, if any.
fn position(v: &Vec<String>, s: &String) -> (r: Option<usize>)
    ensures
        r is Some <==> string_views(v@).contains(s@),
        r matches Some(i) ==> i < v@.len() && v@[i as int]@ == s@,
{
    let mut i: usize = 0;
    while i < v.len()
        invariant
            i <= v@.len(),
            forall|k: int| 0 <= k < i ==> v@[k]@ != s@,
        decreases v@.len() - i,
    {
        if v[i] == *s {
            assert(string_views(v@)[i as int] == s@);
            return Some(i);
        }
        i = i + 1;
    }
    assert forall|k: int| 0 <= k < string_views(v@).len() implies string_views(v@)[k] != s@ by {
        assert(string_views(v@)[k] == v@[k]@);
    }
    None
}

/// Adds `s` to `v` unless present.
fn insert(v: &mut Vec<String>, s: String)
    requires
        distinct(old(v)@),
    ensures
        distinct(final(v)@),
        set_of(final(v)@) == set_of(old(v)@).insert(s@),
{
    if position(v, &s).is_none() {
        let ghost before = v@;
        let ghost sv = s@;
        v.push(s);
        proof {
            assert(string_views(v@) =~= string_views(before).push(sv));
            assert forall|i: int, j: int| 0 <= i < j < v@.len() implies v@[i]@ != v@[j]@ by {
                if j == before.len() {
                    assert(string_views(before)[i] == before[i]@);
                }
            }
            assert forall|x: Seq<char>| set_of(v@).contains(x) <==> set_of(before).insert(sv).contains(x) by {
                if string_views(v@).contains(x) {
                    let k = choose|k: int| 0 <= k < string_views(v@).len() && string_views(v@)[k] == x;
                    if k < before.len() {
                        assert(string_views(before)[k] == x);
                    }
                }
                if string_views(before).contains(x) {
                    let k = choose|k: int| 0 <= k < string_views(before).len() && string_views(before)[k] == x;
                    assert(string_views(v@)[k] == x);
                }
                if x == sv {
                    assert(string_views(v@)[before.len() as int] == x);
                }
            }
            assert(set_of(v@) =~= set_of(before).insert(sv));
        }
    } else {
        assert(set_of(v@) =~= set_of(v@).insert(s@));
    }
}

/// Removes `s` from `v`, reporting whether it was there.
fn remove(v: &mut Vec<String>, s: &String) -> (was: bool)
    requires
        distinct(old(v)@),
    ensures
        distinct(final(v)@),
        was == set_of(old(v)@).contains(s@),
        set_of(final(v)@) == set_of(old(v)@).remove(s@),
{
    match position(v, s) {
        None => {
            assert(set_of(v@) =~= set_of(v@).remove(s@));
            false
        },
        Some(i) => {
            let ghost before = v@;
            v.remove(i);
            proof {
                assert(v@ =~= before.subrange(0, i as int) + before.subrange(i as int + 1, before.len() as int));
                assert forall|a: int, b: int| 0 <= a < b < v@.len() implies v@[a]@ != v@[b]@ by {
                    let a0 = if a < i { a } else { a + 1 };
                    let b0 = if b < i { b } else { b + 1 };
                    assert(v@[a] == before[a0]);
                    assert(v@[b] == before[b0]);
                }
                assert forall|x: Seq<char>| set_of(v@).contains(x) <==> set_of(before).remove(s@).contains(x) by {
                    if set_of(v@).contains(x) {
                        let k = choose|k: int| 0 <= k < string_views(v@).len() && string_views(v@)[k] == x;
                        let k0 = if k < i { k } else { k + 1 };
                        assert(v@[k] == before[k0]);
                        assert(string_views(before)[k0] == x);
                        assert(x != s@) by {
                            if x == s@ {
                                assert(before[k0]@ == before[i as int]@);
                            }
                        }
                    }
                    if set_of(before).remove(s@).contains(x) {
                        let k = choose|k: int| 0 <= k < string_views(before).len() && string_views(before)[k] == x;
                        assert(k != i);
                        let k1 = if k < i { k } else { k - 1 };
                        assert(v@[k1] == before[k]);
                        assert(string_views(v@)[k1] == x);
                    }
                }
                assert(set_of(v@) =~= set_of(before).remove(s@));
                assert(string_views(before)[i as int] == s@);
            }
            true
        },
    }
}

/// The roster after `directadd` of `emails`, address by address.
pub open spec fn after_add(g: GroupView, emails: Seq<Seq<char>>) -> GroupView
    decreases emails.len(),
{
    if emails.len() == 0 {
        g
    } else {
        let h = after_add(g, emails.drop_last());
        GroupView { members: h.members.insert(emails.last()), past: h.past.remove(emails.last()) }
    }
}

/// The roster after `bulkremovemembers` of `emails`, address by address:
/// a current member moves to the past list; anyone else is left alone.
pub open spec fn after_remove(g: GroupView, emails: Seq<Seq<char>>) -> GroupView
    decreases emails.len(),
{
    if emails.len() == 0 {
        g
    } else {
        let h = after_remove(g, emails.drop_last());
        let e = emails.last();
        if h.members.contains(e) {
            GroupView { members: h.members.remove(e), past: h.past.insert(e) }
        } else {
            h
        }
    }
}

impl Group {
    /// Neither list holds an address twice.
    #[verifier::type_invariant]
    spec fn well_formed(self) -> bool {
        distinct(self.members@) && distinct(self.past@)
    }

    /// An empty roster.
    pub fn new() -> (g: Self)
        ensures
            g@.members.is_empty(),
            g@.past.is_empty(),
    {
        let g = Group { members: Vec::new(), past: Vec::new() };
        assert(g@.members =~= Set::<Seq<char>>::empty());
        assert(g@.past =~= Set::<Seq<char>>::empty());
        g
    }

    /// Takes both lists out, leaving the roster empty.
    fn take_lists(&mut self) -> (r: (Vec<String>, Vec<String>))
        ensures
            distinct(r.0@),
            distinct(r.1@),
            lists_view(r.0@, r.1@) == old(self)@,
    {
        proof {
            use_type_invariant(&*self);
        }
        let mut members: Vec<String> = Vec::new();
        let mut past: Vec<String> = Vec::new();
        std::mem::swap(&mut members, &mut self.members);
        std::mem::swap(&mut past, &mut self.past);
        (members, past)
    }

    /// Puts two lists back as the roster.
    fn put_lists(&mut self, members: Vec<String>, past: Vec<String>)
        requires
            distinct(members@),
            distinct(past@),
        ensures
            final(self)@ == lists_view(members@, past@),
    {
        proof {
            use_type_invariant(&*self);
        }
        self.members = members;
        self.past = past;
    }

    /// `directadd`: each address becomes a member and leaves the past list.
    pub fn directadd(&mut self, emails: &[String])
        ensures
            final(self)@ == after_add(old(self)@, string_views(emails@)),
    {
        let (mut members, mut past) = self.take_lists();
        let ghost start = lists_view(members@, past@);
        let mut i: usize = 0;
        let ghost es = string_views(emails@);
        assert(es.subrange(0, 0) =~= Seq::<Seq<char>>::empty());
        while i < emails.len()
            invariant
                i <= emails@.len(),
                es == string_views(emails@),
                distinct(members@),
                distinct(past@),
                lists_view(members@, past@) == after_add(start, es.subrange(0, i as int)),
            decreases emails@.len() - i,
        {
            let e = emails[i].clone();
            remove(&mut past, &e);
            insert(&mut members, e);
            proof {
                assert(es.subrange(0, i as int + 1).drop_last() =~= es.subrange(0, i as int));
                assert(es[i as int] == emails@[i as int]@);
            }
            i = i + 1;
        }
        assert(es.subrange(0, es.len() as int) =~= es);
        self.put_lists(members, past);
    }

    /// `bulkremovemembers`: each current member moves to the past list.
    pub fn bulkremove(&mut self, emails: &[String])
        ensures
            final(self)@ == after_remove(old(self)@, string_views(emails@)),
    {
        let (mut members, mut past) = self.take_lists();
        let ghost start = lists_view(members@, past@);
        let mut i: usize = 0;
        let ghost es = string_views(emails@);
        assert(es.subrange(0, 0) =~= Seq::<Seq<char>>::empty());
        while i < emails.len()
            invariant
                i <= emails@.len(),
                es == string_views(emails@),
                distinct(members@),
                distinct(past@),
                lists_view(members@, past@) == after_remove(start, es.subrange(0, i as int)),
            decreases emails@.len() - i,
        {
            let e = emails[i].clone();
            let ghost h = lists_view(members@, past@);
            if remove(&mut members, &e) {
                insert(&mut past, e);
            } else {
                assert(set_of(members@) =~= h.members);
            }
            proof {
                assert(es.subrange(0, i as int + 1).drop_last() =~= es.subrange(0, i as int));
                assert(es[i as int] == emails@[i as int]@);
            }
            i = i + 1;
        }
        assert(es.subrange(0, es.len() as int) =~= es);
        self.put_lists(members, past);
    }

    /// Seed the roster: the normalised `members` join the members and the
    /// normalised `past` join the past list, each list on its own.
    pub fn seed(&mut self, members: &[String], past: &[String])
        ensures
            final(self)@.members == old(self)@.members + string_views(members@).map_values(
                |e: Seq<char>| norm_spec(e),
            ).to_set(),
            final(self)@.past == old(self)@.past + string_views(past@).map_values(
                |e: Seq<char>| norm_spec(e),
            ).to_set(),
    {
        let (mut ms, mut ps) = self.take_lists();
        let ghost start = lists_view(ms@, ps@);
        let mut i: usize = 0;
        while i < members.len()
            invariant
                i <= members@.len(),
                distinct(ms@),
                distinct(ps@),
                set_of(ps@) == start.past,
                set_of(ms@) == start.members + string_views(members@).subrange(0, i as int).map_values(
                    |e: Seq<char>| norm_spec(e),
                ).to_set(),
            decreases members@.len() - i,
        {
            let e = norm(members[i].as_str());
            let ghost ev = e@;
            insert(&mut ms, e);
            proof {
                let f = |e: Seq<char>| norm_spec(e);
                let a = string_views(members@).subrange(0, i as int).map_values(f);
                let b = string_views(members@).subrange(0, i as int + 1).map_values(f);
                lemma_push_to_set(a, b, ev);
                assert(set_of(ms@) =~= start.members + b.to_set());
            }
            i = i + 1;
        }
        assert(string_views(members@).subrange(0, members@.len() as int) =~= string_views(members@));
        let ghost mid = set_of(ms@);
        let mut j: usize = 0;
        while j < past.len()
            invariant
                j <= past@.len(),
                distinct(ms@),
                distinct(ps@),
                set_of(ms@) == mid,
                set_of(ps@) == start.past + string_views(past@).subrange(0, j as int).map_values(
                    |e: Seq<char>| norm_spec(e),
                ).to_set(),
            decreases past@.len() - j,
        {
            let e = norm(past[j].as_str());
            let ghost ev = e@;
            insert(&mut ps, e);
            proof {
                let f = |e: Seq<char>| norm_spec(e);
                let a = string_views(past@).subrange(0, j as int).map_values(f);
                let b = string_views(past@).subrange(0, j as int + 1).map_values(f);
                lemma_push_to_set(a, b, ev);
                assert(set_of(ps@) =~= start.past + b.to_set());
            }
            j = j + 1;
        }
        assert(string_views(past@).subrange(0, past@.len() as int) =~= string_views(past@));
        self.put_lists(ms, ps);
    }

    /// Empty both lists.
    pub fn reset(&mut self)
        ensures
            final(self)@.members.is_empty(),
            final(self)@.past.is_empty(),
    {
        self.put_lists(Vec::new(), Vec::new());
        assert(self@.members =~= Set::<Seq<char>>::empty());
        assert(self@.past =~= Set::<Seq<char>>::empty());
    }

    /// The current members, one per address.
    pub fn members(&self) -> (r: Vec<String>)
        ensures
            set_of(r@) == self@.members,
            distinct(r@),
    {
        proof {
            use_type_invariant(self);
        }
        clone_all(&self.members)
    }

    /// The past members, one per address.
    pub fn past(&self) -> (r: Vec<String>)
        ensures
            set_of(r@) == self@.past,
            distinct(r@),
    {
        proof {
            use_type_invariant(self);
        }
        clone_all(&self.past)
    }
}

/// A sequence grown by one element has, as a set, that element added.
proof fn lemma_push_to_set(a: Seq<Seq<char>>, b: Seq<Seq<char>>, ev: Seq<char>)
    requires
        b =~= a.push(ev),
    ensures
        b.to_set() =~= a.to_set().insert(ev),
{
    assert forall|x| b.to_set().contains(x) <==> a.to_set().insert(ev).contains(x) by {
        if b.contains(x) {
            let k = choose|k: int| 0 <= k < b.len() && b[k] == x;
            if k < a.len() {
                assert(a[k] == x);
            }
        }
        if a.contains(x) {
            let k = choose|k: int| 0 <= k < a.len() && a[k] == x;
            assert(b[k] == x);
        }
        if x == ev {
            assert(b[a.len() as int] == x);
        }
    }
}

/// A copy of a list of strings.
fn clone_all(v: &Vec<String>) -> (r: Vec<String>)
    ensures
        string_views(r@) == string_views(v@),
        distinct(v@) ==> distinct(r@),
        set_of(r@) == set_of(v@),
{
    let mut r: Vec<String> = Vec::new();
    let mut i: usize = 0;
    while i < v.len()
        invariant
            i <= v@.len(),
            string_views(r@) == string_views(v@).subrange(0, i as int),
        decreases v@.len() - i,
    {
        let ghost before = r@;
        let c = v[i].clone();
        assert(c@ == v@[i as int]@);
        r.push(c);
        assert(string_views(r@) =~= string_views(before).push(v@[i as int]@));
        i = i + 1;
        assert(string_views(r@) =~= string_views(v@).subrange(0, i as int));
    }
    assert(string_views(r@) =~= string_views(v@));
    proof {
        assert forall|a: int, b: int| distinct(v@) && 0 <= a < b < r@.len() implies r@[a]@ != r@[b]@ by {
            assert(string_views(r@)[a] == string_views(v@)[a]);
            assert(string_views(r@)[b] == string_views(v@)[b]);
        }
        assert(set_of(r@) =~= set_of(v@));
    }
    r
}

/// Adding members keeps the two lists apart: whoever is added is a member
/// and not a past member, and no one is in both lists afterwards if no one
/// was before.
pub proof fn law_add_keeps_lists_apart(g: GroupView, emails: Seq<Seq<char>>)
    requires
        g.members.disjoint(g.past),
    ensures
        after_add(g, emails).members.disjoint(after_add(g, emails).past),
        forall|i: int| 0 <= i < emails.len() ==> after_add(g, emails).members.contains(#[trigger] emails[i])
            && !after_add(g, emails).past.contains(emails[i]),
    decreases emails.len(),
{
    if emails.len() > 0 {
        let rest = emails.drop_last();
        law_add_keeps_lists_apart(g, rest);
        assert forall|i: int| 0 <= i < emails.len() implies after_add(g, emails).members.contains(#[trigger] emails[i])
            && !after_add(g, emails).past.contains(emails[i]) by {
            if i < emails.len() - 1 {
                assert(emails[i] == rest[i]);
            }
        }
    }
}

/// Removing members keeps the two lists apart, and moves every removed
/// member to the past list.
pub proof fn law_remove_keeps_lists_apart(g: GroupView, emails: Seq<Seq<char>>)
    requires
        g.members.disjoint(g.past),
    ensures
        after_remove(g, emails).members.disjoint(after_remove(g, emails).past),
        forall|i: int| 0 <= i < emails.len() ==> !after_remove(g, emails).members.contains(#[trigger] emails[i]),
        forall|x: Seq<char>| g.members.contains(x) && emails.contains(x) ==> after_remove(g, emails).past.contains(x),
    decreases emails.len(),
{
    if emails.len() > 0 {
        let rest = emails.drop_last();
        law_remove_keeps_lists_apart(g, rest);
        let h = after_remove(g, rest);
        assert forall|i: int| 0 <= i < emails.len() implies !after_remove(g, emails).members.contains(#[trigger] emails[i]) by {
            if i < emails.len() - 1 {
                assert(emails[i] == rest[i]);
            }
        }
        assert forall|x: Seq<char>| g.members.contains(x) && emails.contains(x) implies after_remove(g, emails).past.contains(x) by {
            let k = choose|k: int| 0 <= k < emails.len() && emails[k] == x;
            if k < emails.len() - 1 {
                assert(rest[k] == x);
                assert(rest.contains(x));
            } else {
                if !h.members.contains(x) {
                    // Already removed earlier, or never there: it moved earlier.
                    lemma_remove_monotone(g, rest, x);
                }
            }
        }
    }
}

proof fn lemma_remove_monotone(g: GroupView, emails: Seq<Seq<char>>, x: Seq<char>)
    requires
        g.members.disjoint(g.past),
        g.members.contains(x),
    ensures
        after_remove(g, emails).members.contains(x) || after_remove(g, emails).past.contains(x),
    decreases emails.len(),
{
    if emails.len() > 0 {
        lemma_remove_monotone(g, emails.drop_last(), x);
    }
}

} // verus!
