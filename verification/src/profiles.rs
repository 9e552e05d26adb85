//! Member profiles and the profile field schema.
//!
//! A member reads and edits their own profile; staff may read and edit
//! anyone's. The schema an administrator submits has a key and a label on
//! every field and no key twice; each change, and each rollback, is kept as a
//! new version.

use vstd::prelude::*;
use vstd::string::*;
use crate::errors::{api_err, error_with, make_error, ApiError, ApiErrorKind, ApiErrorView};
use crate::text::{append_str, chars_eq, chars_of, dec_i64, push_decimal_i64, string_from_chars};

verus! {

/// The key and label of a profile field definition: what the schema rules
/// read of it.
#[derive(Clone, Debug)]
pub struct ProfileField {
    pub key: String,
    pub label: String,
}

/// The profile schema, and whether profiles are on.
#[derive(Clone, Debug)]
pub struct ProfileConfigResponse {
    pub profile_fields: Vec<ProfileField>,
    pub profiles_enabled: bool,
}

/// A new profile schema, and whether profiles are on.
#[derive(Clone, Debug)]
pub struct UpdateProfileConfigRequest {
    pub profile_fields: Vec<ProfileField>,
    pub profiles_enabled: bool,
}

/// The keys and labels of a schema, as text.
pub open spec fn field_views(fields: Seq<ProfileField>) -> Seq<(Seq<char>, Seq<char>)> {
    fields.map_values(|f: ProfileField| (f.key@, f.label@))
}

/// The first complaint about a blank key or label, scanning the fields in
/// order and each field's key before its label.
pub open spec fn first_blank(fs: Seq<(Seq<char>, Seq<char>)>) -> Option<Seq<char>>
    decreases fs.len(),
{
    if fs.len() == 0 {
        None
    } else if fs[0].0.len() == 0 {
        Some("Profile field key cannot be empty"@)
    } else if fs[0].1.len() == 0 {
        Some("Profile field label cannot be empty"@)
    } else {
        first_blank(fs.drop_first())
    }
}

/// The first key, in order, that repeats a key seen before it (`seen`
/// holding the keys already passed).
pub open spec fn first_duplicate(keys: Seq<Seq<char>>, seen: Seq<Seq<char>>) -> Option<Seq<char>>
    decreases keys.len(),
{
    if keys.len() == 0 {
        None
    } else if seen.contains(keys[0]) {
        Some(keys[0])
    } else {
        first_duplicate(keys.drop_first(), seen.push(keys[0]))
    }
}

/// The keys of a schema.
pub open spec fn keys_of(fs: Seq<(Seq<char>, Seq<char>)>) -> Seq<Seq<char>> {
    fs.map_values(|f: (Seq<char>, Seq<char>)| f.0)
}

/// The verdict on a submitted schema: blanks first, over all fields; then
/// the first repeated key.
pub open spec fn schema_spec(fs: Seq<(Seq<char>, Seq<char>)>) -> Result<(), ApiErrorView> {
    match first_blank(fs) {
        Some(m) => Err(api_err(ApiErrorKind::BadRequest, m)),
        None => match first_duplicate(keys_of(fs), Seq::<Seq<char>>::empty()) {
            Some(k) => Err(api_err(ApiErrorKind::BadRequest, "Duplicate field key: "@ + k)),
            None => Ok(()),
        },
    }
}

/// Whether some field before `upto` has the key `key`.
fn seen_before(fields: &[ProfileField], upto: usize, key: &[char]) -> (r: bool)
    requires
        upto <= fields@.len(),
    ensures
        r == keys_of(field_views(fields@)).subrange(0, upto as int).contains(key@),
{
    let ghost ks = keys_of(field_views(fields@)).subrange(0, upto as int);
    let mut i: usize = 0;
    while i < upto
        invariant
            i <= upto,
            upto <= fields@.len(),
            ks == keys_of(field_views(fields@)).subrange(0, upto as int),
            forall|j: int| 0 <= j < i ==> ks[j] != key@,
        decreases upto - i,
    {
        let c = chars_of(fields[i].key.as_str());
        if chars_eq(c.as_slice(), key) {
            assert(ks[i as int] == key@);
            return true;
        }
        i = i + 1;
    }
    proof {
        if ks.contains(key@) {
            let j = choose|j: int| 0 <= j < ks.len() && ks[j] == key@;
            assert(ks[j] != key@);
        }
    }
    false
}

/// Check a submitted profile field schema: no empty keys or labels, and no
/// duplicate keys.
pub fn validate_profile_fields(fields: &[ProfileField]) -> (r: Result<(), ApiError>)
    ensures
        match r {
            Ok(()) => schema_spec(field_views(fields@)) is Ok,
            Err(e) => schema_spec(field_views(fields@)) == Err::<(), ApiErrorView>(e@),
        },
{
    let ghost fs = field_views(fields@);
    let n = fields.len();
    let mut i: usize = 0;
    assert(fs.subrange(0, fs.len() as int) =~= fs);
    while i < n
        invariant
            n == fields@.len(),
            i <= n,
            fs == field_views(fields@),
            first_blank(fs) == first_blank(fs.subrange(i as int, n as int)),
        decreases n - i,
    {
        let ghost rest = fs.subrange(i as int, n as int);
        assert(rest[0] == (fields@[i as int].key@, fields@[i as int].label@));
        assert(rest.drop_first() =~= fs.subrange(i + 1, n as int));
        if fields[i].key.as_str().is_empty() {
            return Err(error_with(ApiErrorKind::BadRequest, "Profile field key cannot be empty"));
        }
        if fields[i].label.as_str().is_empty() {
            return Err(error_with(ApiErrorKind::BadRequest, "Profile field label cannot be empty"));
        }
        i = i + 1;
    }
    assert(fs.subrange(n as int, n as int) =~= Seq::<(Seq<char>, Seq<char>)>::empty());
    let ghost ks = keys_of(fs);
    let mut j: usize = 0;
    assert(ks.subrange(0, 0) =~= Seq::<Seq<char>>::empty());
    assert(ks.subrange(0, ks.len() as int) =~= ks);
    while j < n
        invariant
            n == fields@.len(),
            j <= n,
            fs == field_views(fields@),
            ks == keys_of(fs),
            ks.len() == n,
            first_blank(fs) is None,
            first_duplicate(ks, Seq::<Seq<char>>::empty()) == first_duplicate(
                ks.subrange(j as int, n as int),
                ks.subrange(0, j as int),
            ),
        decreases n - j,
    {
        let ghost rest = ks.subrange(j as int, n as int);
        let k = chars_of(fields[j].key.as_str());
        assert(rest[0] == k@);
        assert(rest.drop_first() =~= ks.subrange(j + 1, n as int));
        assert(ks.subrange(0, j as int).push(k@) =~= ks.subrange(0, j + 1));
        if seen_before(fields, j, k.as_slice()) {
            let m = "Duplicate field key: ".to_string().concat(fields[j].key.as_str());
            return Err(make_error(ApiErrorKind::BadRequest, m));
        }
        j = j + 1;
    }
    Ok(())
}

/// Reading or editing a profile.
#[derive(Clone, Copy, Debug, PartialEq, Eq, Structural)]
pub enum ProfileAccess {
    View,
    Update,
}

/// A member reaches their own profile; staff reach anyone's.
pub fn profile_access(access: ProfileAccess, viewer: u128, target: u128, is_staff: bool) -> (r: Result<(), ApiError>)
    ensures
        viewer == target || is_staff ==> r is Ok,
        !(viewer == target || is_staff) ==> (r matches Err(e) && e@ == api_err(
            ApiErrorKind::Forbidden,
            if access == ProfileAccess::View {
                "You can only view your own profile"@
            } else {
                "You can only update your own profile"@
            },
        )),
{
    if viewer == target || is_staff {
        return Ok(());
    }
    match access {
        ProfileAccess::View => Err(error_with(ApiErrorKind::Forbidden, "You can only view your own profile")),
        ProfileAccess::Update => Err(error_with(ApiErrorKind::Forbidden, "You can only update your own profile")),
    }
}

/// Profile edits are refused while profiles are switched off.
pub fn require_profiles_enabled(enabled: bool) -> (r: Result<(), ApiError>)
    ensures
        enabled ==> r is Ok,
        !enabled ==> (r matches Err(e) && e@ == api_err(
            ApiErrorKind::BadRequest,
            "User profiles are currently disabled"@,
        )),
{
    if !enabled {
        return Err(error_with(ApiErrorKind::BadRequest, "User profiles are currently disabled"));
    }
    Ok(())
}

/// A profile the validator refused, with its complaint.
pub fn profile_rejected(complaint: &str) -> (e: ApiError)
    ensures
        e@ == api_err(ApiErrorKind::BadRequest, "Profile validation failed: "@ + complaint@),
{
    make_error(ApiErrorKind::BadRequest, "Profile validation failed: ".to_string().concat(complaint))
}

/// Who the audit log names as having edited a profile: nobody else when the
/// member edited their own, otherwise the editor.
pub fn profile_editor(viewer: u128, target: u128) -> (r: Option<u128>)
    ensures
        viewer == target ==> r is None,
        viewer != target ==> r == Some(viewer),
{
    if viewer != target {
        Some(viewer)
    } else {
        None
    }
}

/// Paging through the schema's version history.
#[derive(Clone, Copy, Debug)]
pub struct VersionListQuery {
    pub limit: Option<i64>,
    pub offset: Option<i64>,
}

impl VersionListQuery {
    /// The limit (50 by default, kept between 1 and 500) and the offset (0
    /// by default, never negative).
    pub fn window(&self) -> (r: (i64, i64))
        ensures
            r.0 == (match self.limit {
                Some(l) => if l < 1 {
                    1
                } else if l > 500 {
                    500
                } else {
                    l
                },
                None => 50,
            }),
            r.1 == (match self.offset {
                Some(o) => if o < 0 {
                    0
                } else {
                    o
                },
                None => 0,
            }),
    {
        let l = match self.limit {
            Some(l) => l,
            None => 50,
        };
        let limit = if l < 1 {
            1
        } else if l > 500 {
            500
        } else {
            l
        };
        let o = match self.offset {
            Some(o) => o,
            None => 0,
        };
        let offset = if o < 0 {
            0
        } else {
            o
        };
        (limit, offset)
    }
}

/// A rollback to a version that does not exist.
pub fn no_such_version(version: i64) -> (e: ApiError)
    ensures
        e@ == api_err(ApiErrorKind::NotFound, "No profile config version "@ + dec_i64(version)),
{
    let mut v: Vec<char> = Vec::new();
    append_str(&mut v, "No profile config version ");
    push_decimal_i64(&mut v, version);
    make_error(ApiErrorKind::NotFound, string_from_chars(v.as_slice()))
}

/// The message a rollback is answered with.
pub fn rollback_message(version: i64) -> (m: String)
    ensures
        m@ == "Rolled back to profile configuration version "@ + dec_i64(version),
{
    let mut v: Vec<char> = Vec::new();
    append_str(&mut v, "Rolled back to profile configuration version ");
    push_decimal_i64(&mut v, version);
    string_from_chars(v.as_slice())
}

} // verus!
