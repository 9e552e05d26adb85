//! Role administration: creating, editing and deleting roles, the grants of
//! a role, and the roles it inherits from.
//!
//! System roles anchor the tier ladder: their level never changes and they
//! are never deleted. Grants name catalogued permissions only. Inheritance
//! never includes the role itself, names existing roles only, and never
//! closes a cycle.

use vstd::prelude::*;
use vstd::string::*;
use crate::errors::{api_err, error_joined, error_with, ApiError, ApiErrorKind, ApiErrorView};
use crate::models::{uuid_hyphenated, uuid_text};
use crate::text::{chars_eq, chars_of, trim, trim_str};

verus! {

/// A catalogued permission.
#[derive(Clone, Debug)]
pub struct PermissionView {
    pub key: String,
    pub description: String,
}

/// A request to create a custom role.
#[derive(Clone, Debug)]
pub struct CreateRoleRequest {
    pub name: String,
    pub description: String,
    pub level: i16,
}

/// A request to edit a role's description or level.
#[derive(Clone, Debug)]
pub struct UpdateRoleRequest {
    pub description: Option<String>,
    pub level: Option<i16>,
}

/// The complete set of permission keys granted directly to a role.
#[derive(Clone, Debug)]
pub struct SetPermissionsRequest {
    pub permissions: Vec<String>,
}

/// The complete set of roles a role inherits from directly.
#[derive(Clone, Debug)]
pub struct SetInheritanceRequest {
    pub inherits: Vec<u128>,
}

/// Check a new role: a name (trimmed, not empty) and a level that is not
/// negative. On success, the trimmed name and description.
pub fn check_new_role(req: &CreateRoleRequest) -> (r: Result<(String, String), ApiError>)
    ensures
        trim(req.name@).len() == 0 ==> (r matches Err(e) && e@ == api_err(
            ApiErrorKind::BadRequest,
            "role name must not be empty"@,
        )),
        trim(req.name@).len() > 0 && req.level < 0 ==> (r matches Err(e) && e@ == api_err(
            ApiErrorKind::BadRequest,
            "role level must not be negative"@,
        )),
        trim(req.name@).len() > 0 && req.level >= 0 ==> (r matches Ok((n, d)) && n@ == trim(req.name@) && d@
            == trim(req.description@)),
{
    let name = trim_str(req.name.as_str());
    if name.as_str().is_empty() {
        return Err(error_with(ApiErrorKind::BadRequest, "role name must not be empty"));
    }
    if req.level < 0 {
        return Err(error_with(ApiErrorKind::BadRequest, "role level must not be negative"));
    }
    Ok((name, trim_str(req.description.as_str())))
}

/// Check a role edit against the role (`None` when it does not exist,
/// otherwise whether it is a system role): a system role's level is fixed,
/// and a level is never negative.
pub fn check_role_update(existing_is_system: Option<bool>, req: &UpdateRoleRequest) -> (r: Result<(), ApiError>)
    ensures
        existing_is_system is None ==> (r matches Err(e) && e@ == api_err(ApiErrorKind::NotFound, "role not found"@)),
        existing_is_system == Some(true) && req.level is Some ==> (r matches Err(e) && e@ == api_err(
            ApiErrorKind::Forbidden,
            "the level of a system role cannot be changed"@,
        )),
        existing_is_system is Some && !(existing_is_system == Some(true) && req.level is Some) ==> (match req.level {
            Some(l) if l < 0 => r matches Err(e) && e@ == api_err(
                ApiErrorKind::BadRequest,
                "role level must not be negative"@,
            ),
            _ => r is Ok,
        }),
{
    let system = match existing_is_system {
        None => {
            return Err(error_with(ApiErrorKind::NotFound, "role not found"));
        },
        Some(s) => s,
    };
    if system && req.level.is_some() {
        return Err(error_with(ApiErrorKind::Forbidden, "the level of a system role cannot be changed"));
    }
    if let Some(l) = req.level {
        if l < 0 {
            return Err(error_with(ApiErrorKind::BadRequest, "role level must not be negative"));
        }
    }
    Ok(())
}

/// A role that does not exist is not found; a system role is never
/// deleted.
pub fn check_role_delete(existing_is_system: Option<bool>) -> (r: Result<(), ApiError>)
    ensures
        existing_is_system is None ==> (r matches Err(e) && e@ == api_err(ApiErrorKind::NotFound, "role not found"@)),
        existing_is_system == Some(true) ==> (r matches Err(e) && e@ == api_err(
            ApiErrorKind::Forbidden,
            "system roles cannot be deleted"@,
        )),
        existing_is_system == Some(false) ==> r is Ok,
{
    match existing_is_system {
        None => Err(error_with(ApiErrorKind::NotFound, "role not found")),
        Some(true) => Err(error_with(ApiErrorKind::Forbidden, "system roles cannot be deleted")),
        Some(false) => Ok(()),
    }
}

// ---------------------------------------------------------------------------
// Sorted, duplicate-free lists
// ---------------------------------------------------------------------------

/// Whether `v` is strictly increasing.
pub open spec fn strictly_increasing(v: Seq<u128>) -> bool {
    forall|a: int, b: int| 0 <= a < b < v.len() ==> v[a] < v[b]
}

/// The ids of `v`, sorted, each once (`sort` then `dedup`).
pub fn sorted_unique_ids(v: &Vec<u128>) -> (r: Vec<u128>)
    ensures
        strictly_increasing(r@),
        forall|x: u128| r@.contains(x) <==> v@.contains(x),
{
    let mut out: Vec<u128> = Vec::new();
    let mut i: usize = 0;
    while i < v.len()
        invariant
            i <= v@.len(),
            strictly_increasing(out@),
            forall|x: u128| out@.contains(x) <==> v@.subrange(0, i as int).contains(x),
        decreases v@.len() - i,
    {
        let x = v[i];
        let mut p: usize = 0;
        while p < out.len() && out[p] < x
            invariant
                p <= out@.len(),
                forall|a: int| 0 <= a < p ==> out@[a] < x,
            decreases out@.len() - p,
        {
            p = p + 1;
        }
        let ghost before = out@;
        if p < out.len() && out[p] == x {
            proof {
                assert(before[p as int] == x);
                assert forall|y: u128| out@.contains(y) <==> (before.contains(y) || y == x) by {
                    if y == x {
                        assert(before.contains(x));
                    }
                }
            }
        } else {
            out.insert(p, x);
            proof {
                assert forall|a: int, b: int| 0 <= a < b < out@.len() implies out@[a] < out@[b] by {
                    if b < p {
                    } else if b == p {
                        assert(out@[a] == before[a]);
                    } else if a < p {
                        assert(out@[b] == before[b - 1]);
                        assert(before[p as int] >= x);
                        if b - 1 > p {
                            assert(before[p as int] < before[b - 1]);
                        }
                    } else if a == p {
                        assert(out@[b] == before[b - 1]);
                        if b - 1 > p {
                            assert(before[p as int] < before[b - 1]);
                        }
                    } else {
                        assert(out@[a] == before[a - 1]);
                        assert(out@[b] == before[b - 1]);
                    }
                }
                assert forall|y: u128| out@.contains(y) <==> (before.contains(y) || y == x) by {
                    if out@.contains(y) {
                        let k = choose|k: int| 0 <= k < out@.len() && out@[k] == y;
                        if k < p {
                            assert(before[k] == y);
                        } else if k > p {
                            assert(before[k - 1] == y);
                        }
                    }
                    if before.contains(y) {
                        let k = choose|k: int| 0 <= k < before.len() && before[k] == y;
                        if k < p {
                            assert(out@[k] == y);
                        } else {
                            assert(out@[k + 1] == y);
                        }
                    }
                    if y == x {
                        assert(out@[p as int] == x);
                    }
                }
            }
        }
        proof {
            let s = v@.subrange(0, i as int + 1);
            assert(s.drop_last() =~= v@.subrange(0, i as int));
            assert forall|y: u128| s.contains(y) <==> (v@.subrange(0, i as int).contains(y) || y == x) by {
                if s.contains(y) {
                    let k = choose|k: int| 0 <= k < s.len() && s[k] == y;
                    if k < i {
                        assert(v@.subrange(0, i as int)[k] == y);
                    }
                }
                if v@.subrange(0, i as int).contains(y) {
                    let k = choose|k: int| 0 <= k < i && v@.subrange(0, i as int)[k] == y;
                    assert(s[k] == y);
                }
                if y == x {
                    assert(s[i as int] == x);
                }
            }
            assert forall|y: u128| out@.contains(y) <==> s.contains(y) by {
                assert(out@.contains(y) <==> (before.contains(y) || y == x));
                assert(before.contains(y) <==> v@.subrange(0, i as int).contains(y));
                assert(s.contains(y) <==> (v@.subrange(0, i as int).contains(y) || y == x));
            }
        }
        i = i + 1;
    }
    assert(v@.subrange(0, v@.len() as int) =~= v@);
    out
}

/// Whether `x` is one of `v`.
fn contains_id(v: &[u128], x: u128) -> (r: bool)
    ensures
        r == v@.contains(x),
{
    let mut i: usize = 0;
    while i < v.len()
        invariant
            i <= v@.len(),
            forall|k: int| 0 <= k < i ==> v@[k] != x,
        decreases v@.len() - i,
    {
        if v[i] == x {
            assert(v@[i as int] == x);
            return true;
        }
        i = i + 1;
    }
    false
}

/// The first of `v` that is not one of `known`, if any.
pub open spec fn first_unknown_id(v: Seq<u128>, known: Seq<u128>) -> Option<u128>
    decreases v.len(),
{
    if v.len() == 0 {
        None
    } else if !known.contains(v[0]) {
        Some(v[0])
    } else {
        first_unknown_id(v.subrange(1, v.len() as int), known)
    }
}

/// The first of `v` that is not one of `known`.
fn find_unknown_id(v: &Vec<u128>, known: &[u128]) -> (r: Option<u128>)
    ensures
        r == first_unknown_id(v@, known@),
{
    let mut i: usize = 0;
    assert(v@.subrange(0, v@.len() as int) =~= v@);
    while i < v.len()
        invariant
            i <= v@.len(),
            first_unknown_id(v@, known@) == first_unknown_id(v@.subrange(i as int, v@.len() as int), known@),
        decreases v@.len() - i,
    {
        let ghost rest = v@.subrange(i as int, v@.len() as int);
        assert(rest[0] == v@[i as int]);
        if !contains_id(known, v[i]) {
            return Some(v[i]);
        }
        assert(rest.subrange(1, rest.len() as int) =~= v@.subrange(i + 1, v@.len() as int));
        i = i + 1;
    }
    None
}

/// How an inheritance edit is decided: the role must exist; the parents
/// (sorted, each once) must not include the role, must all exist, and
/// must not close a cycle. `creates_cycle` is the role graph's verdict on
/// the graph as it would be after the edit.
pub open spec fn inheritance_spec(role: u128, roles: Seq<u128>, parents: Seq<u128>, creates_cycle: bool) -> Result<(), ApiErrorView> {
    if !roles.contains(role) {
        Err(api_err(ApiErrorKind::NotFound, "role not found"@))
    } else if parents.contains(role) {
        Err(api_err(ApiErrorKind::BadRequest, "a role cannot inherit from itself"@))
    } else if first_unknown_id(parents, roles) is Some {
        Err(
            api_err(
                ApiErrorKind::BadRequest,
                "unknown role id in inheritance: "@ + uuid_hyphenated(first_unknown_id(parents, roles)->0),
            ),
        )
    } else if creates_cycle {
        Err(api_err(ApiErrorKind::BadRequest, "this inheritance change would create a cycle"@))
    } else {
        Ok(())
    }
}

/// Decide an inheritance edit, given the roles that exist, the requested
/// parents already sorted and made unique (see [`sorted_unique_ids`]), and
/// the role graph's verdict on the edited graph.
pub fn check_inheritance(role: u128, roles: &[u128], parents: &Vec<u128>, creates_cycle: bool) -> (r: Result<(), ApiError>)
    ensures
        match r {
            Ok(()) => inheritance_spec(role, roles@, parents@, creates_cycle) is Ok,
            Err(e) => inheritance_spec(role, roles@, parents@, creates_cycle) == Err::<(), ApiErrorView>(e@),
        },
{
    if !contains_id(roles, role) {
        return Err(error_with(ApiErrorKind::NotFound, "role not found"));
    }
    if contains_id(parents.as_slice(), role) {
        return Err(error_with(ApiErrorKind::BadRequest, "a role cannot inherit from itself"));
    }
    if let Some(unknown) = find_unknown_id(parents, roles) {
        let id = uuid_text(unknown);
        return Err(error_joined(ApiErrorKind::BadRequest, "unknown role id in inheritance: ", id.as_str()));
    }
    if creates_cycle {
        return Err(error_with(ApiErrorKind::BadRequest, "this inheritance change would create a cycle"));
    }
    Ok(())
}

/// Whether an edge leaves some role other than `role`.
pub open spec fn not_from(role: u128) -> spec_fn((u128, u128)) -> bool {
    |e: (u128, u128)| e.0 != role
}

/// The edge from `role` to a parent.
pub open spec fn edge_from(role: u128) -> spec_fn(u128) -> (u128, u128) {
    |p: u128| (role, p)
}

/// The inheritance edges as they would be after the edit: every edge of
/// other roles, then one edge from the role to each parent.
pub open spec fn edited_edges(edges: Seq<(u128, u128)>, role: u128, parents: Seq<u128>) -> Seq<(u128, u128)> {
    edges.filter(not_from(role)) + parents.map_values(edge_from(role))
}

/// Build the edited edge list.
pub fn candidate_edges(edges: &Vec<(u128, u128)>, role: u128, parents: &Vec<u128>) -> (r: Vec<(u128, u128)>)
    ensures
        r@ == edited_edges(edges@, role, parents@),
{
    let mut out: Vec<(u128, u128)> = Vec::new();
    let mut i: usize = 0;
    while i < edges.len()
        invariant
            i <= edges@.len(),
            out@ == edges@.subrange(0, i as int).filter(not_from(role)),
        decreases edges@.len() - i,
    {
        let e = edges[i];
        proof {
            let s = edges@.subrange(0, i as int + 1);
            assert(s.drop_last() =~= edges@.subrange(0, i as int));
            assert(s.last() == e);
            reveal(Seq::filter);
        }
        if e.0 != role {
            out.push(e);
        }
        i = i + 1;
    }
    assert(edges@.subrange(0, edges@.len() as int) =~= edges@);
    let ghost kept = out@;
    let mut j: usize = 0;
    while j < parents.len()
        invariant
            j <= parents@.len(),
            out@ == kept + parents@.subrange(0, j as int).map_values(edge_from(role)),
        decreases parents@.len() - j,
    {
        out.push((role, parents[j]));
        proof {
            assert(parents@.subrange(0, j as int + 1).map_values(edge_from(role)) =~= parents@.subrange(
                0,
                j as int,
            ).map_values(edge_from(role)).push((role, parents@[j as int])));
        }
        j = j + 1;
    }
    assert(parents@.subrange(0, parents@.len() as int) =~= parents@);
    out
}

/// An accepted inheritance edit never makes a role its own parent, and
/// names existing roles only.
pub proof fn law_inheritance_names_other_existing_roles(role: u128, roles: Seq<u128>, parents: Seq<u128>, creates_cycle: bool)
    requires
        inheritance_spec(role, roles, parents, creates_cycle) is Ok,
    ensures
        !parents.contains(role),
        !creates_cycle,
        first_unknown_id(parents, roles) is None,
{
}

// ---------------------------------------------------------------------------
// Permission keys
// ---------------------------------------------------------------------------

/// Whether text `a` comes strictly before text `b`: compared character by
/// character by code point, a proper prefix first (the order `String`'s
/// `Ord` gives, since UTF-8 keeps code-point order).
pub open spec fn lex_lt(a: Seq<char>, b: Seq<char>) -> bool
    decreases a.len(),
{
    if a.len() == 0 {
        b.len() > 0
    } else if b.len() == 0 {
        false
    } else if (a[0] as u32) < (b[0] as u32) {
        true
    } else if a[0] == b[0] {
        lex_lt(a.drop_first(), b.drop_first())
    } else {
        false
    }
}

/// The order on texts is strict and total.
proof fn lemma_lex_strict_total(a: Seq<char>, b: Seq<char>)
    ensures
        !(lex_lt(a, b) && lex_lt(b, a)),
        !lex_lt(a, a),
        a != b ==> lex_lt(a, b) || lex_lt(b, a),
    decreases a.len(),
{
    if a.len() > 0 && b.len() > 0 {
        if a[0] == b[0] {
            lemma_lex_strict_total(a.drop_first(), b.drop_first());
            if a != b {
                assert(a =~= seq![a[0]] + a.drop_first());
                assert(b =~= seq![b[0]] + b.drop_first());
            }
        } else {
            vstd::utf8::char_u32_cast(a[0], a[0] as u32);
            vstd::utf8::char_u32_cast(b[0], b[0] as u32);
            assert((a[0] as u32) != (b[0] as u32));
        }
    } else if a.len() == 0 && b.len() == 0 {
        assert(a =~= b);
    }
    if a.len() > 0 {
        lemma_lex_strict_total(a.drop_first(), a.drop_first());
    }
}

/// The order on texts is transitive.
proof fn lemma_lex_transitive(a: Seq<char>, b: Seq<char>, c: Seq<char>)
    requires
        lex_lt(a, b),
        lex_lt(b, c),
    ensures
        lex_lt(a, c),
    decreases a.len(),
{
    if a.len() > 0 && b.len() > 0 && c.len() > 0 && a[0] == b[0] && b[0] == c[0] {
        lemma_lex_transitive(a.drop_first(), b.drop_first(), c.drop_first());
    }
}

/// Whether text `a` comes strictly before text `b`.
fn text_lt(a: &[char], b: &[char]) -> (r: bool)
    ensures
        r == lex_lt(a@, b@),
{
    let mut i: usize = 0;
    proof {
        assert(a@.subrange(0, a@.len() as int) =~= a@);
        assert(b@.subrange(0, b@.len() as int) =~= b@);
    }
    while i < a.len() && i < b.len() && a[i] == b[i]
        invariant
            i <= a@.len(),
            i <= b@.len(),
            lex_lt(a@, b@) == lex_lt(a@.subrange(i as int, a@.len() as int), b@.subrange(i as int, b@.len() as int)),
        decreases a@.len() - i,
    {
        proof {
            let x = a@.subrange(i as int, a@.len() as int);
            let y = b@.subrange(i as int, b@.len() as int);
            assert(x.drop_first() =~= a@.subrange(i + 1, a@.len() as int));
            assert(y.drop_first() =~= b@.subrange(i + 1, b@.len() as int));
        }
        i = i + 1;
    }
    if i == a.len() {
        i < b.len()
    } else if i == b.len() {
        false
    } else {
        (a[i] as u32) < (b[i] as u32)
    }
}

/// Whether `v` is strictly increasing in text order.
pub open spec fn texts_increasing(v: Seq<Seq<char>>) -> bool {
    forall|a: int, b: int| 0 <= a < b < v.len() ==> lex_lt(v[a], v[b])
}

/// The views of a list of strings.
pub open spec fn key_texts(v: Seq<String>) -> Seq<Seq<char>> {
    v.map_values(|s: String| s@)
}

/// The keys of `v`, sorted, each once (`sort` then `dedup`).
pub fn sorted_unique_keys(v: &Vec<String>) -> (r: Vec<String>)
    ensures
        texts_increasing(key_texts(r@)),
        forall|x: Seq<char>| key_texts(r@).contains(x) <==> key_texts(v@).contains(x),
{
    let ghost vs = key_texts(v@);
    let mut out: Vec<String> = Vec::new();
    let mut i: usize = 0;
    while i < v.len()
        invariant
            i <= v@.len(),
            vs == key_texts(v@),
            texts_increasing(key_texts(out@)),
            forall|x: Seq<char>| key_texts(out@).contains(x) <==> vs.subrange(0, i as int).contains(x),
        decreases v@.len() - i,
    {
        let xc = chars_of(v[i].as_str());
        let ghost x = vs[i as int];
        assert(xc@ == x);
        let ghost before = key_texts(out@);
        let mut p: usize = 0;
        let mut stop = false;
        while p < out.len() && !stop
            invariant
                p <= out@.len(),
                before == key_texts(out@),
                xc@ == x,
                forall|a: int| 0 <= a < p ==> lex_lt(before[a], x),
                stop ==> p < out@.len() && !lex_lt(before[p as int], x),
            decreases (out@.len() - p) as int + (if stop {
                0int
            } else {
                1int
            }),
        {
            let oc = chars_of(out[p].as_str());
            if text_lt(oc.as_slice(), xc.as_slice()) {
                p = p + 1;
            } else {
                stop = true;
            }
        }
        let dup = p < out.len() && {
            let oc = chars_of(out[p].as_str());
            chars_eq(oc.as_slice(), xc.as_slice())
        };
        if dup {
            proof {
                assert(before[p as int] == x);
                assert forall|y: Seq<char>| key_texts(out@).contains(y) <==> (before.contains(y) || y == x) by {
                    if y == x {
                        assert(before.contains(x));
                    }
                }
            }
        } else {
            let k = v[i].clone();
            out.insert(p, k);
            proof {
                let now = key_texts(out@);
                assert(now =~= before.insert(p as int, x));
                if p < before.len() {
                    lemma_lex_strict_total(before[p as int], x);
                    assert(lex_lt(x, before[p as int]));
                }
                assert forall|a: int, b: int| 0 <= a < b < now.len() implies lex_lt(now[a], now[b]) by {
                    if b < p {
                        assert(now[a] == before[a] && now[b] == before[b]);
                    } else if b == p {
                        assert(now[a] == before[a]);
                    } else if a < p {
                        assert(now[a] == before[a] && now[b] == before[b - 1]);
                    } else if a == p {
                        assert(now[b] == before[b - 1]);
                        if b - 1 > p {
                            lemma_lex_transitive(x, before[p as int], before[b - 1]);
                        }
                    } else {
                        assert(now[a] == before[a - 1] && now[b] == before[b - 1]);
                    }
                }
                assert forall|y: Seq<char>| now.contains(y) <==> (before.contains(y) || y == x) by {
                    if now.contains(y) {
                        let k = choose|k: int| 0 <= k < now.len() && now[k] == y;
                        if k < p {
                            assert(before[k] == y);
                        } else if k > p {
                            assert(before[k - 1] == y);
                        }
                    }
                    if before.contains(y) {
                        let k = choose|k: int| 0 <= k < before.len() && before[k] == y;
                        if k < p {
                            assert(now[k] == y);
                        } else {
                            assert(now[k + 1] == y);
                        }
                    }
                    if y == x {
                        assert(now[p as int] == x);
                    }
                }
            }
        }
        proof {
            let s = vs.subrange(0, i as int + 1);
            let sub = vs.subrange(0, i as int);
            assert forall|y: Seq<char>| s.contains(y) <==> (sub.contains(y) || y == x) by {
                if s.contains(y) {
                    let k = choose|k: int| 0 <= k < s.len() && s[k] == y;
                    if k < i {
                        assert(sub[k] == y);
                    }
                }
                if sub.contains(y) {
                    let k = choose|k: int| 0 <= k < sub.len() && sub[k] == y;
                    assert(s[k] == y);
                }
                if y == x {
                    assert(s[i as int] == x);
                }
            }
            assert forall|y: Seq<char>| key_texts(out@).contains(y) <==> s.contains(y) by {
                assert(key_texts(out@).contains(y) <==> (before.contains(y) || y == x));
                assert(before.contains(y) <==> sub.contains(y));
                assert(s.contains(y) <==> (sub.contains(y) || y == x));
            }
        }
        i = i + 1;
    }
    assert(vs.subrange(0, vs.len() as int) =~= vs);
    out
}

/// The first of `keys` that is not catalogued, if any.
pub open spec fn first_unknown_key(keys: Seq<Seq<char>>, catalog: Seq<Seq<char>>) -> Option<Seq<char>>
    decreases keys.len(),
{
    if keys.len() == 0 {
        None
    } else if !catalog.contains(keys[0]) {
        Some(keys[0])
    } else {
        first_unknown_key(keys.subrange(1, keys.len() as int), catalog)
    }
}

/// Whether `key` is catalogued.
fn catalogued(catalog: &Vec<String>, key: &[char]) -> (r: bool)
    ensures
        r == key_texts(catalog@).contains(key@),
{
    let ghost cs = key_texts(catalog@);
    let mut i: usize = 0;
    while i < catalog.len()
        invariant
            i <= catalog@.len(),
            cs == key_texts(catalog@),
            forall|k: int| 0 <= k < i ==> cs[k] != key@,
        decreases catalog@.len() - i,
    {
        let c = chars_of(catalog[i].as_str());
        if chars_eq(c.as_slice(), key) {
            assert(cs[i as int] == key@);
            return true;
        }
        i = i + 1;
    }
    proof {
        if cs.contains(key@) {
            let k = choose|k: int| 0 <= k < cs.len() && cs[k] == key@;
            assert(cs[k] != key@);
        }
    }
    false
}

/// Check a role's new grants: the keys (already sorted and made unique by
/// [`sorted_unique_keys`]) must all be catalogued; the first that is not is
/// named.
pub fn check_permission_keys(keys: &Vec<String>, catalog: &Vec<String>) -> (r: Result<(), ApiError>)
    ensures
        match first_unknown_key(key_texts(keys@), key_texts(catalog@)) {
            Some(k) => r matches Err(e) && e@ == api_err(ApiErrorKind::BadRequest, "unknown permission key: "@ + k),
            None => r is Ok,
        },
{
    let ghost ks = key_texts(keys@);
    let ghost cs = key_texts(catalog@);
    let mut i: usize = 0;
    assert(ks.subrange(0, ks.len() as int) =~= ks);
    while i < keys.len()
        invariant
            i <= keys@.len(),
            ks == key_texts(keys@),
            cs == key_texts(catalog@),
            first_unknown_key(ks, cs) == first_unknown_key(ks.subrange(i as int, ks.len() as int), cs),
        decreases keys@.len() - i,
    {
        let ghost rest = ks.subrange(i as int, ks.len() as int);
        let kc = chars_of(keys[i].as_str());
        assert(rest[0] == kc@);
        if !catalogued(catalog, kc.as_slice()) {
            return Err(error_joined(ApiErrorKind::BadRequest, "unknown permission key: ", keys[i].as_str()));
        }
        assert(rest.subrange(1, rest.len() as int) =~= ks.subrange(i + 1, ks.len() as int));
        i = i + 1;
    }
    Ok(())
}

} // verus!
