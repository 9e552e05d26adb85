//! The hierarchy of physical places: which place types exist, where a place
//! may hang in the tree, and how constraint failures are explained.
//!
//! Level names are configured in order, outermost first; a child must sit
//! at a strictly deeper level than its parent. Special places (such as
//! "Outside") are roots with a free-form type and skip the ordering.

use vstd::prelude::*;
use vstd::string::*;
use crate::errors::{
    api_err, database_error_spec, error_with, make_error, ApiError, ApiErrorKind, ApiErrorView,
    DatabaseError, DatabaseErrorView, DbErrorKind, DieselFailure, DieselFailureView,
};
use crate::text::{chars_eq, chars_of, debug_quoted, debug_text, trim, trim_str};

verus! {

/// Refuse place operations while the module is switched off.
pub fn require_places_enabled(enabled: bool) -> (r: Result<(), ApiError>)
    ensures
        enabled ==> r is Ok,
        !enabled ==> (r matches Err(e) && e@ == api_err(
            ApiErrorKind::Forbidden,
            "Places module is disabled in server configuration"@,
        )),
{
    if !enabled {
        return Err(error_with(ApiErrorKind::Forbidden, "Places module is disabled in server configuration"));
    }
    Ok(())
}

/// The configured place types, as an administrator sees them.
#[derive(Clone, Debug)]
pub struct PlaceConfigResponse {
    pub enabled: bool,
    pub types: Vec<String>,
}

/// How much is attached to a place.
#[derive(Clone, Copy, Debug, PartialEq, Eq, Structural)]
pub struct AttachedCounts {
    pub doors: i64,
    pub tools: i64,
    pub devices: i64,
}

/// The `Debug` rendering of a list of strings: each rendered, separated by
/// ", ", in square brackets.
pub open spec fn debug_list(items: Seq<Seq<char>>) -> Seq<char> {
    "["@ + debug_items(items) + "]"@
}

/// The rendered items of a list, separated by ", ".
pub open spec fn debug_items(items: Seq<Seq<char>>) -> Seq<char>
    decreases items.len(),
{
    if items.len() == 0 {
        Seq::empty()
    } else if items.len() == 1 {
        debug_text(items[0])
    } else {
        debug_items(items.drop_last()) + ", "@ + debug_text(items.last())
    }
}

/// The views of a list of strings.
pub open spec fn texts(v: Seq<String>) -> Seq<Seq<char>> {
    v.map_values(|s: String| s@)
}

/// The `Debug` rendering of the configured types.
fn debug_types(types: &Vec<String>) -> (r: String)
    ensures
        r@ == debug_list(texts(types@)),
{
    let mut out = String::from_str("[");
    let mut i: usize = 0;
    let ghost ts = texts(types@);
    while i < types.len()
        invariant
            i <= types@.len(),
            ts == texts(types@),
            out@ == "["@ + debug_items(ts.subrange(0, i as int)),
        decreases types@.len() - i,
    {
        let d = debug_quoted(types[i].as_str());
        proof {
            assert(ts.subrange(0, i as int + 1).drop_last() =~= ts.subrange(0, i as int));
            assert(ts[i as int] == types@[i as int]@);
        }
        if i == 0 {
            out = out.concat(d.as_str());
            proof {
                assert(ts.subrange(0, 1).len() == 1);
                assert(ts.subrange(0, 1)[0] == ts[0]);
            }
        } else {
            out = out.concat(", ").concat(d.as_str());
        }
        i = i + 1;
    }
    assert(ts.subrange(0, types@.len() as int) =~= ts);
    out.concat("]")
}

/// What the configuration says of a non-special place's parent.
#[derive(Debug)]
pub enum ParentCheck {
    /// No parent: the place is a root.
    Root,
    /// The parent is a special place: the ordering does not apply.
    SpecialParent,
    /// The parent is an ordinary place, and this is what the configured
    /// ordering said of the pair (the reason when the child is not deeper).
    Ordered(Result<(), String>),
}

/// The checks on a place's type and parent.
pub open spec fn payload_spec(types: Seq<Seq<char>>, place_type: Seq<char>, has_parent: bool, parent: ParentCheck, is_special: bool) -> Result<(), ApiErrorView> {
    if is_special {
        if has_parent {
            Err(api_err(ApiErrorKind::BadRequest, "Special places cannot have a parent"@))
        } else if trim(place_type).len() == 0 {
            Err(api_err(ApiErrorKind::BadRequest, "place_type is required (use any label, e.g. \"Outside\")"@))
        } else {
            Ok(())
        }
    } else if !types.contains(place_type) {
        Err(
            api_err(
                ApiErrorKind::BadRequest,
                "Unknown place_type '"@ + place_type + "'; configured types: "@ + debug_list(types),
            ),
        )
    } else {
        match parent {
            ParentCheck::Ordered(Err(reason)) => Err(api_err(ApiErrorKind::BadRequest, reason@)),
            _ => Ok(()),
        }
    }
}

/// Whether `t` is one of the configured types.
fn known_type(types: &Vec<String>, t: &str) -> (r: bool)
    ensures
        r == texts(types@).contains(t@),
{
    let tc = chars_of(t);
    let ghost ts = texts(types@);
    let mut i: usize = 0;
    while i < types.len()
        invariant
            i <= types@.len(),
            ts == texts(types@),
            tc@ == t@,
            forall|k: int| 0 <= k < i ==> ts[k] != t@,
        decreases types@.len() - i,
    {
        let c = chars_of(types[i].as_str());
        if chars_eq(c.as_slice(), tc.as_slice()) {
            assert(ts[i as int] == t@);
            return true;
        }
        i = i + 1;
    }
    proof {
        if ts.contains(t@) {
            let k = choose|k: int| 0 <= k < ts.len() && ts[k] == t@;
            assert(ts[k] != t@);
        }
    }
    false
}

/// Check a place's type and parent: a special place must be a root with a
/// non-blank type; any other place needs a configured type, and (under an
/// ordinary parent) must sit deeper than its parent.
pub fn validate_place_payload(types: &Vec<String>, place_type: &str, has_parent: bool, parent: ParentCheck, is_special: bool) -> (r: Result<(), ApiError>)
    ensures
        match r {
            Ok(()) => payload_spec(texts(types@), place_type@, has_parent, parent, is_special) is Ok,
            Err(e) => payload_spec(texts(types@), place_type@, has_parent, parent, is_special) == Err::<(), ApiErrorView>(e@),
        },
{
    if is_special {
        if has_parent {
            return Err(error_with(ApiErrorKind::BadRequest, "Special places cannot have a parent"));
        }
        let t = trim_str(place_type);
        if t.as_str().is_empty() {
            return Err(error_with(ApiErrorKind::BadRequest, "place_type is required (use any label, e.g. \"Outside\")"));
        }
        return Ok(());
    }
    if !known_type(types, place_type) {
        let m = String::from_str("Unknown place_type '").concat(place_type).concat("'; configured types: ").concat(
            debug_types(types).as_str(),
        );
        return Err(make_error(ApiErrorKind::BadRequest, m));
    }
    match parent {
        ParentCheck::Ordered(Err(reason)) => Err(make_error(ApiErrorKind::BadRequest, reason)),
        _ => Ok(()),
    }
}

/// A place's prospective type, parent and specialness after an update: each
/// field the request sets, otherwise the current one (a parent can be set
/// to none, making the place a root).
pub fn prospective_place(
    current_type: String,
    current_parent: Option<u128>,
    current_special: bool,
    new_type: Option<String>,
    new_parent: Option<Option<u128>>,
    new_special: Option<bool>,
) -> (r: (String, Option<u128>, bool))
    ensures
        r.0@ == (match new_type {
            Some(t) => t@,
            None => current_type@,
        }),
        r.1 == (match new_parent {
            Some(p) => p,
            None => current_parent,
        }),
        r.2 == (match new_special {
            Some(b) => b,
            None => current_special,
        }),
{
    let t = match new_type {
        Some(t) => t,
        None => current_type,
    };
    let p = match new_parent {
        Some(p) => p,
        None => current_parent,
    };
    let s = match new_special {
        Some(b) => b,
        None => current_special,
    };
    (t, p, s)
}

/// A move must keep the hierarchy a tree: a place is never its own parent,
/// and never moves under one of its own descendants (`chain` being the
/// prospective parent's ancestors).
pub fn check_move(id: u128, parent: Option<u128>, chain: &[u128]) -> (r: Result<(), ApiError>)
    ensures
        parent == Some(id) ==> (r matches Err(e) && e@ == api_err(
            ApiErrorKind::BadRequest,
            "A place can't be its own parent"@,
        )),
        parent is Some && parent != Some(id) && chain@.contains(id) ==> (r matches Err(e) && e@ == api_err(
            ApiErrorKind::BadRequest,
            "Move would create a cycle in the place hierarchy"@,
        )),
        (parent is None || (parent != Some(id) && !chain@.contains(id))) ==> r is Ok,
{
    if let Some(p) = parent {
        if p == id {
            return Err(error_with(ApiErrorKind::BadRequest, "A place can't be its own parent"));
        }
        let mut i: usize = 0;
        while i < chain.len()
            invariant
                i <= chain@.len(),
                parent == Some(p),
                p != id,
                forall|k: int| 0 <= k < i ==> chain@[k] != id,
            decreases chain@.len() - i,
        {
            if chain[i] == id {
                assert(chain@[i as int] == id);
                assert(chain@.contains(id));
                return Err(error_with(ApiErrorKind::BadRequest, "Move would create a cycle in the place hierarchy"));
            }
            i = i + 1;
        }
    }
    Ok(())
}

/// How a database failure of a place write is explained: a duplicate name
/// among siblings, and a place that still has children, are conflicts the
/// administrator can resolve; anything else is classified as usual.
pub open spec fn place_conflict_spec(e: DatabaseErrorView) -> ApiErrorView {
    match e {
        DatabaseErrorView::Diesel(DieselFailureView::Database { kind: DbErrorKind::UniqueViolation, .. }) => api_err(
            ApiErrorKind::Conflict,
            "A sibling place with that name already exists"@,
        ),
        DatabaseErrorView::Diesel(DieselFailureView::Database { kind: DbErrorKind::ForeignKeyViolation, .. }) => api_err(
            ApiErrorKind::Conflict,
            "This place still has child places; move or delete them first"@,
        ),
        _ => database_error_spec(e),
    }
}

/// Explain a failed place write.
pub fn place_conflict(e: DatabaseError) -> (r: ApiError)
    ensures
        r@ == place_conflict_spec(e@),
{
    match e {
        DatabaseError::Diesel(DieselFailure::Database { kind: DbErrorKind::UniqueViolation, .. }) => error_with(
            ApiErrorKind::Conflict,
            "A sibling place with that name already exists",
        ),
        DatabaseError::Diesel(DieselFailure::Database { kind: DbErrorKind::ForeignKeyViolation, .. }) => error_with(
            ApiErrorKind::Conflict,
            "This place still has child places; move or delete them first",
        ),
        other => ApiError::from_database(other),
    }
}

/// A delete that removed nothing is a missing place.
pub fn place_deleted(count: usize) -> (r: Result<(), ApiError>)
    ensures
        count == 0 ==> (r matches Err(e) && e@ == api_err(ApiErrorKind::NotFound, "Place not found"@)),
        count > 0 ==> r is Ok,
{
    if count == 0 {
        return Err(error_with(ApiErrorKind::NotFound, "Place not found"));
    }
    Ok(())
}

} // verus!
