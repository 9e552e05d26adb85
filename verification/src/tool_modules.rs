//! Tool module bindings and safety interlocks: which device fills a tool's
//! reader, power or sensor role, and which conditions gate or trip it.
//!
//! Every vocabulary (module roles, disconnect policies, interlock kinds,
//! conditions, resets and enforcement points) is checked here, so a bad
//! value is a 400 naming the permitted set. Unstated policies take their
//! fail-safe values: a binding without a disconnect policy fails off, and an
//! interlock latches, re-authorises, is enforced at the edge and is enabled
//! unless told otherwise.

use vstd::prelude::*;
use vstd::string::*;
use crate::errors::{api_err, error_with, make_error, ApiError, ApiErrorKind, ApiErrorView};
use crate::text::{chars_eq, chars_of, join_strings, joined, string_views, trim, trim_str};

verus! {

/// The permitted values of a field, as the database's CHECK constraints
/// list them.
pub open spec fn one_of_spec(value: Seq<char>, allowed: Seq<Seq<char>>, field: Seq<char>) -> Result<Seq<char>, ApiErrorView> {
    if allowed.contains(value) {
        Ok(value)
    } else {
        Err(api_err(ApiErrorKind::BadRequest, field + " must be one of: "@ + joined(allowed, ", "@)))
    }
}

/// Whether `value` is one of `allowed`.
fn listed(allowed: &[String], value: &[char]) -> (r: bool)
    ensures
        r == string_views(allowed@).contains(value@),
{
    let ghost vs = string_views(allowed@);
    let mut i: usize = 0;
    while i < allowed.len()
        invariant
            i <= allowed@.len(),
            vs == string_views(allowed@),
            forall|k: int| 0 <= k < i ==> vs[k] != value@,
        decreases allowed@.len() - i,
    {
        let c = chars_of(allowed[i].as_str());
        if chars_eq(c.as_slice(), value) {
            assert(vs[i as int] == value@);
            return true;
        }
        i = i + 1;
    }
    proof {
        if vs.contains(value@) {
            let k = choose|k: int| 0 <= k < vs.len() && vs[k] == value@;
            assert(vs[k] != value@);
        }
    }
    false
}

/// Accept `value` only if it is in `allowed`; otherwise a 400 naming the
/// field and the permitted set.
pub fn one_of(value: &str, allowed: &[String], field: &str) -> (r: Result<String, ApiError>)
    ensures
        match r {
            Ok(s) => one_of_spec(value@, string_views(allowed@), field@) == Ok::<Seq<char>, ApiErrorView>(s@),
            Err(e) => one_of_spec(value@, string_views(allowed@), field@) == Err::<Seq<char>, ApiErrorView>(e@),
        },
{
    let v = chars_of(value);
    if listed(allowed, v.as_slice()) {
        return Ok(value.to_string());
    }
    let list = join_strings(allowed, ", ");
    let m = field.to_string().concat(" must be one of: ").concat(list.as_str());
    Err(make_error(ApiErrorKind::BadRequest, m))
}

/// The vocabularies a module binding is checked against, and the fail-safe
/// disconnect policy.
#[derive(Clone, Debug)]
pub struct ModuleVocabulary {
    pub roles: Vec<String>,
    pub on_disconnect: Vec<String>,
    pub fail_off: String,
}

/// A request to bind a device to a tool in some role. `params` is the
/// binding's JSON parameters, as text.
#[derive(Clone, Debug)]
pub struct CreateModuleRequest {
    pub tool_id: u128,
    pub device_id: u128,
    pub role: String,
    pub name: String,
    pub params: Option<String>,
    pub on_disconnect: Option<String>,
}

/// The binding to store.
#[derive(Clone, Debug)]
pub struct ModulePlan {
    pub role: String,
    pub name: String,
    pub params: String,
    pub on_disconnect: String,
}

/// The checks on a new binding, in order: the role, the disconnect policy
/// (the fail-safe one when none is stated), then a name. On success, the
/// role, the policy and the trimmed name.
pub open spec fn module_spec(
    role: Seq<char>,
    name: Seq<char>,
    on_disconnect: Option<Seq<char>>,
    roles: Seq<Seq<char>>,
    policies: Seq<Seq<char>>,
    fail_off: Seq<char>,
) -> Result<(Seq<char>, Seq<char>, Seq<char>), ApiErrorView> {
    match one_of_spec(role, roles, "role"@) {
        Err(e) => Err(e),
        Ok(r) => {
            let policy = match on_disconnect {
                Some(v) => one_of_spec(v, policies, "on_disconnect"@),
                None => Ok(fail_off),
            };
            match policy {
                Err(e) => Err(e),
                Ok(p) => if trim(name).len() == 0 {
                    Err(api_err(ApiErrorKind::BadRequest, "name is required"@))
                } else {
                    Ok((r, p, trim(name)))
                },
            }
        },
    }
}

/// The view of an optional text.
pub open spec fn opt_view(s: Option<String>) -> Option<Seq<char>> {
    match s {
        Some(x) => Some(x@),
        None => None,
    }
}

/// Check a new binding's fields against the vocabularies. The parameters
/// default to the empty JSON object.
pub fn check_new_module(req: &CreateModuleRequest, vocab: &ModuleVocabulary) -> (r: Result<ModulePlan, ApiError>)
    ensures
        match r {
            Ok(p) => module_spec(
                req.role@,
                req.name@,
                opt_view(req.on_disconnect),
                string_views(vocab.roles@),
                string_views(vocab.on_disconnect@),
                vocab.fail_off@,
            ) == Ok::<(Seq<char>, Seq<char>, Seq<char>), ApiErrorView>((p.role@, p.on_disconnect@, p.name@))
                && p.params@ == (match req.params {
                Some(x) => x@,
                None => "{}"@,
            }),
            Err(e) => module_spec(
                req.role@,
                req.name@,
                opt_view(req.on_disconnect),
                string_views(vocab.roles@),
                string_views(vocab.on_disconnect@),
                vocab.fail_off@,
            ) == Err::<(Seq<char>, Seq<char>, Seq<char>), ApiErrorView>(e@),
        },
{
    let role = match one_of(req.role.as_str(), vocab.roles.as_slice(), "role") {
        Ok(r) => r,
        Err(e) => {
            return Err(e);
        },
    };
    let policy = match &req.on_disconnect {
        Some(v) => match one_of(v.as_str(), vocab.on_disconnect.as_slice(), "on_disconnect") {
            Ok(p) => p,
            Err(e) => {
                return Err(e);
            },
        },
        None => vocab.fail_off.clone(),
    };
    let name = trim_str(req.name.as_str());
    if name.as_str().is_empty() {
        return Err(error_with(ApiErrorKind::BadRequest, "name is required"));
    }
    let params = match &req.params {
        Some(p) => p.clone(),
        None => "{}".to_string(),
    };
    Ok(ModulePlan { role, name, params, on_disconnect: policy })
}

/// Both ends of a binding must exist, the tool first.
pub fn module_references(tool_exists: bool, device_exists: bool) -> (r: Result<(), ApiError>)
    ensures
        !tool_exists ==> (r matches Err(e) && e@ == api_err(ApiErrorKind::BadRequest, "tool_id does not exist"@)),
        tool_exists && !device_exists ==> (r matches Err(e) && e@ == api_err(
            ApiErrorKind::BadRequest,
            "device_id does not exist"@,
        )),
        tool_exists && device_exists ==> r is Ok,
{
    if !tool_exists {
        return Err(error_with(ApiErrorKind::BadRequest, "tool_id does not exist"));
    }
    if !device_exists {
        return Err(error_with(ApiErrorKind::BadRequest, "device_id does not exist"));
    }
    Ok(())
}

/// The vocabularies an interlock is checked against, and the default reset
/// (re-authorisation) and enforcement point (the edge).
#[derive(Clone, Debug)]
pub struct InterlockVocabulary {
    pub kinds: Vec<String>,
    pub conditions: Vec<String>,
    pub resets: Vec<String>,
    pub enforcements: Vec<String>,
    pub re_auth: String,
    pub edge: String,
}

/// A request to add an interlock to a tool.
#[derive(Clone, Debug)]
pub struct CreateInterlockRequest {
    pub tool_id: u128,
    pub kind: String,
    pub condition: String,
    pub source_module_id: Option<u128>,
    pub debounce_ms: Option<i32>,
    pub latch: Option<bool>,
    pub reset: Option<String>,
    pub enforcement: Option<String>,
    pub enabled: Option<bool>,
}

/// The interlock to store.
#[derive(Clone, Debug)]
pub struct InterlockPlan {
    pub kind: String,
    pub condition: String,
    pub reset: String,
    pub enforcement: String,
    pub debounce_ms: i32,
    pub latch: bool,
    pub enabled: bool,
}

/// The vocabulary part of an interlock's checks, in order: kind, condition,
/// reset (re-authorisation when unstated), enforcement (the edge when
/// unstated). On success the four values.
pub open spec fn interlock_words_spec(req: CreateInterlockRequest, vocab: InterlockVocabulary) -> Result<
    (Seq<char>, Seq<char>, Seq<char>, Seq<char>),
    ApiErrorView,
> {
    match one_of_spec(req.kind@, string_views(vocab.kinds@), "kind"@) {
        Err(e) => Err(e),
        Ok(k) => match one_of_spec(req.condition@, string_views(vocab.conditions@), "condition"@) {
            Err(e) => Err(e),
            Ok(c) => {
                let reset = match req.reset {
                    Some(v) => one_of_spec(v@, string_views(vocab.resets@), "reset"@),
                    None => Ok(vocab.re_auth@),
                };
                match reset {
                    Err(e) => Err(e),
                    Ok(r) => {
                        let enforce = match req.enforcement {
                            Some(v) => one_of_spec(v@, string_views(vocab.enforcements@), "enforcement"@),
                            None => Ok(vocab.edge@),
                        };
                        match enforce {
                            Err(e) => Err(e),
                            Ok(f) => Ok((k, c, r, f)),
                        }
                    },
                }
            },
        },
    }
}

/// The debounce an interlock is stored with: zero when unstated.
pub open spec fn debounce_of(req: CreateInterlockRequest) -> i32 {
    match req.debounce_ms {
        Some(d) => d,
        None => 0,
    }
}

/// Check a new interlock's fields. After the vocabularies, the debounce must
/// not be negative. A trip latches and an interlock is enabled unless the
/// request says otherwise.
pub fn check_new_interlock(req: &CreateInterlockRequest, vocab: &InterlockVocabulary) -> (r: Result<InterlockPlan, ApiError>)
    ensures
        interlock_words_spec(*req, *vocab) matches Err(e) ==> (r matches Err(x) && x@ == e),
        interlock_words_spec(*req, *vocab) is Ok && debounce_of(*req) < 0 ==> (r matches Err(x) && x@ == api_err(
            ApiErrorKind::BadRequest,
            "debounce_ms must not be negative"@,
        )),
        interlock_words_spec(*req, *vocab) matches Ok(w) ==> (debounce_of(*req) >= 0 ==> (r matches Ok(p) && (
        p.kind@, p.condition@, p.reset@, p.enforcement@) == w && p.debounce_ms == debounce_of(*req) && p.latch == (
        match req.latch {
            Some(l) => l,
            None => true,
        }) && p.enabled == (match req.enabled {
            Some(b) => b,
            None => true,
        }))),
{
    let kind = match one_of(req.kind.as_str(), vocab.kinds.as_slice(), "kind") {
        Ok(k) => k,
        Err(e) => {
            return Err(e);
        },
    };
    let condition = match one_of(req.condition.as_str(), vocab.conditions.as_slice(), "condition") {
        Ok(c) => c,
        Err(e) => {
            return Err(e);
        },
    };
    let reset = match &req.reset {
        Some(v) => match one_of(v.as_str(), vocab.resets.as_slice(), "reset") {
            Ok(x) => x,
            Err(e) => {
                return Err(e);
            },
        },
        None => vocab.re_auth.clone(),
    };
    let enforcement = match &req.enforcement {
        Some(v) => match one_of(v.as_str(), vocab.enforcements.as_slice(), "enforcement") {
            Ok(x) => x,
            Err(e) => {
                return Err(e);
            },
        },
        None => vocab.edge.clone(),
    };
    let debounce_ms = match req.debounce_ms {
        Some(d) => d,
        None => 0,
    };
    if debounce_ms < 0 {
        return Err(error_with(ApiErrorKind::BadRequest, "debounce_ms must not be negative"));
    }
    let latch = match req.latch {
        Some(l) => l,
        None => true,
    };
    let enabled = match req.enabled {
        Some(b) => b,
        None => true,
    };
    Ok(InterlockPlan { kind, condition, reset, enforcement, debounce_ms, latch, enabled })
}

/// An interlock's tool must exist, and a source module, when named, must be
/// one of that tool's modules (`modules`), so that a rule never reads a
/// sensor on another machine.
pub fn interlock_references(tool_exists: bool, source_module_id: Option<u128>, modules: &[u128]) -> (r: Result<(), ApiError>)
    ensures
        !tool_exists ==> (r matches Err(e) && e@ == api_err(ApiErrorKind::BadRequest, "tool_id does not exist"@)),
        tool_exists && (source_module_id matches Some(s) && !modules@.contains(s)) ==> (r matches Err(e) && e@
            == api_err(ApiErrorKind::BadRequest, "source_module_id is not a module of this tool"@)),
        tool_exists && !(source_module_id matches Some(s) && !modules@.contains(s)) ==> r is Ok,
{
    if !tool_exists {
        return Err(error_with(ApiErrorKind::BadRequest, "tool_id does not exist"));
    }
    if let Some(src) = source_module_id {
        let mut i: usize = 0;
        while i < modules.len()
            invariant
                i <= modules@.len(),
                tool_exists,
                source_module_id == Some(src),
                forall|k: int| 0 <= k < i ==> modules@[k] != src,
            decreases modules@.len() - i,
        {
            if modules[i] == src {
                assert(modules@[i as int] == src);
                return Ok(());
            }
            i = i + 1;
        }
        proof {
            if modules@.contains(src) {
                let k = choose|k: int| 0 <= k < modules@.len() && modules@[k] == src;
                assert(modules@[k] != src);
            }
        }
        return Err(error_with(ApiErrorKind::BadRequest, "source_module_id is not a module of this tool"));
    }
    Ok(())
}

/// The answer to a deletion that happened.
#[derive(Clone, Copy, Debug)]
pub struct DeletedResponse {
    pub deleted: bool,
}

/// A deletion that matched no row is a 404 naming what was not found
/// (`what`, such as "Tool module"); otherwise it happened.
pub fn deleted_or_not_found(affected: usize, what: &str) -> (r: Result<DeletedResponse, ApiError>)
    ensures
        affected == 0 ==> (r matches Err(e) && e@ == api_err(ApiErrorKind::NotFound, what@ + " not found"@)),
        affected > 0 ==> (r matches Ok(d) && d.deleted),
{
    if affected == 0 {
        return Err(make_error(ApiErrorKind::NotFound, what.to_string().concat(" not found")));
    }
    Ok(DeletedResponse { deleted: true })
}

} // verus!
