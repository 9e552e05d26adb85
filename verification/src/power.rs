//! The power topology's rules: circuits (breakers, possibly under an
//! upstream trunk), outlets and receptacles. This is the map the load
//! checks aggregate over; nothing here switches anything.

use vstd::prelude::*;
use vstd::string::*;
use crate::errors::{
    api_err, database_error_spec, error_with, ApiError, ApiErrorKind, ApiErrorView, DatabaseError,
    DatabaseErrorView, DbErrorKind, DieselFailure, DieselFailureView,
};
use crate::decimal::{decimal_positive, decimal_text_sign};
use crate::text::{trim, trim_str};

verus! {

/// Whether the power module is on.
#[derive(Clone, Copy, Debug)]
pub struct PowerConfigResponse {
    pub enabled: bool,
}

/// Refuse topology changes while the module is switched off.
pub fn require_power_enabled(enabled: bool) -> (r: Result<(), ApiError>)
    ensures
        enabled ==> r is Ok,
        !enabled ==> (r matches Err(e) && e@ == api_err(
            ApiErrorKind::Forbidden,
            "Power topology module is disabled in server configuration"@,
        )),
{
    if !enabled {
        return Err(error_with(ApiErrorKind::Forbidden, "Power topology module is disabled in server configuration"));
    }
    Ok(())
}

/// The checks on a new circuit: a breaker label, a positive voltage rating,
/// a positive amperage limit, and an upstream trunk that exists.
/// `amperage` is the limit's decimal text (text that is not a decimal is
/// refused like a limit that is not positive);
/// `parent_exists` is whether the named trunk was found (`None` when no
/// trunk is named).
pub open spec fn new_circuit_spec(label: Seq<char>, voltage: i32, amperage: Seq<char>, parent_exists: Option<bool>) -> Result<(), ApiErrorView> {
    if trim(label).len() == 0 {
        Err(api_err(ApiErrorKind::BadRequest, "breaker_label is required"@))
    } else if voltage <= 0 {
        Err(api_err(ApiErrorKind::BadRequest, "voltage_rating must be positive"@))
    } else if !decimal_positive(amperage) {
        Err(api_err(ApiErrorKind::BadRequest, "amperage_limit must be positive"@))
    } else if parent_exists == Some(false) {
        Err(api_err(ApiErrorKind::BadRequest, "parent_circuit_id does not exist"@))
    } else {
        Ok(())
    }
}

/// The view of a unit result.
pub open spec fn unit_view(r: Result<(), ApiError>) -> Result<(), ApiErrorView> {
    match r {
        Ok(()) => Ok(()),
        Err(e) => Err(e@),
    }
}

/// Whether the text is a decimal above zero.
fn is_positive_decimal(s: &str) -> (r: bool)
    ensures
        r == decimal_positive(s@),
{
    decimal_text_sign(s) == Some(1i8)
}

/// Check a new circuit.
pub fn check_new_circuit(label: &str, voltage: i32, amperage: &str, parent_exists: Option<bool>) -> (r: Result<(), ApiError>)
    ensures
        unit_view(r) == new_circuit_spec(label@, voltage, amperage@, parent_exists),
{
    let t = trim_str(label);
    if t.as_str().is_empty() {
        return Err(error_with(ApiErrorKind::BadRequest, "breaker_label is required"));
    }
    if voltage <= 0 {
        return Err(error_with(ApiErrorKind::BadRequest, "voltage_rating must be positive"));
    }
    if !is_positive_decimal(amperage) {
        return Err(error_with(ApiErrorKind::BadRequest, "amperage_limit must be positive"));
    }
    if parent_exists == Some(false) {
        return Err(error_with(ApiErrorKind::BadRequest, "parent_circuit_id does not exist"));
    }
    Ok(())
}

/// The checks on a circuit update: a new voltage or amperage must be
/// positive (`amperage` being the new limit's decimal text), and a new upstream trunk must not be the circuit itself, must
/// exist, and must not lie below the circuit (`chain` being the new
/// trunk's own upstream chain).
pub open spec fn circuit_update_spec(
    id: u128,
    voltage: Option<i32>,
    amperage: Option<Seq<char>>,
    parent: Option<u128>,
    parent_exists: bool,
    chain: Seq<u128>,
) -> Result<(), ApiErrorView> {
    if voltage matches Some(v) && v <= 0 {
        Err(api_err(ApiErrorKind::BadRequest, "voltage_rating must be positive"@))
    } else if amperage matches Some(a) && !decimal_positive(a) {
        Err(api_err(ApiErrorKind::BadRequest, "amperage_limit must be positive"@))
    } else if parent == Some(id) {
        Err(api_err(ApiErrorKind::BadRequest, "A circuit can't be its own upstream trunk"@))
    } else if parent is Some && !parent_exists {
        Err(api_err(ApiErrorKind::BadRequest, "parent_circuit_id does not exist"@))
    } else if parent is Some && chain.contains(id) {
        Err(api_err(ApiErrorKind::BadRequest, "Change would create a cycle in the circuit hierarchy"@))
    } else {
        Ok(())
    }
}

/// Check a circuit update; `parent` is the trunk the update sets, if it
/// sets one.
pub fn check_circuit_update(
    id: u128,
    voltage: Option<i32>,
    amperage: Option<&str>,
    parent: Option<u128>,
    parent_exists: bool,
    chain: &[u128],
) -> (r: Result<(), ApiError>)
    ensures
        unit_view(r) == circuit_update_spec(
            id,
            voltage,
            match amperage {
                Some(a) => Some(a@),
                None => None,
            },
            parent,
            parent_exists,
            chain@,
        ),
{
    if let Some(v) = voltage {
        if v <= 0 {
            return Err(error_with(ApiErrorKind::BadRequest, "voltage_rating must be positive"));
        }
    }
    if let Some(a) = amperage {
        if !is_positive_decimal(a) {
            return Err(error_with(ApiErrorKind::BadRequest, "amperage_limit must be positive"));
        }
    }
    if let Some(p) = parent {
        if p == id {
            return Err(error_with(ApiErrorKind::BadRequest, "A circuit can't be its own upstream trunk"));
        }
        if !parent_exists {
            return Err(error_with(ApiErrorKind::BadRequest, "parent_circuit_id does not exist"));
        }
        let mut i: usize = 0;
        while i < chain.len()
            invariant
                i <= chain@.len(),
                parent == Some(p),
                p != id,
                parent_exists,
                !(voltage matches Some(v) && v <= 0),
                !(amperage matches Some(a) && !decimal_positive(a@)),
                forall|k: int| 0 <= k < i ==> chain@[k] != id,
            decreases chain@.len() - i,
        {
            if chain[i] == id {
                assert(chain@[i as int] == id);
                assert(chain@.contains(id));
                return Err(
                    error_with(ApiErrorKind::BadRequest, "Change would create a cycle in the circuit hierarchy"),
                );
            }
            i = i + 1;
        }
    }
    Ok(())
}

/// A circuit is removed only when nothing hangs off it.
pub fn circuit_removable(child_circuits: usize, outlets: usize) -> (r: Result<(), ApiError>)
    ensures
        child_circuits > 0 || outlets > 0 ==> (r matches Err(e) && e@ == api_err(
            ApiErrorKind::Conflict,
            "This circuit still has sub-circuits or outlets; move or delete them first"@,
        )),
        child_circuits == 0 && outlets == 0 ==> r is Ok,
{
    if child_circuits > 0 || outlets > 0 {
        return Err(
            error_with(
                ApiErrorKind::Conflict,
                "This circuit still has sub-circuits or outlets; move or delete them first",
            ),
        );
    }
    Ok(())
}

/// How a failed topology write is explained: a receptacle already taken,
/// and an item still referenced, are conflicts the administrator can
/// resolve; anything else is classified as usual.
pub open spec fn power_conflict_spec(e: DatabaseErrorView) -> ApiErrorView {
    match e {
        DatabaseErrorView::Diesel(DieselFailureView::Database { kind: DbErrorKind::UniqueViolation, .. }) => api_err(
            ApiErrorKind::Conflict,
            "That receptacle is already assigned to another tool"@,
        ),
        DatabaseErrorView::Diesel(DieselFailureView::Database { kind: DbErrorKind::ForeignKeyViolation, .. }) => api_err(
            ApiErrorKind::Conflict,
            "This item is still referenced (a sub-circuit, outlet, or receptacle); move or delete those first"@,
        ),
        _ => database_error_spec(e),
    }
}

/// Explain a failed topology write.
pub fn power_conflict(e: DatabaseError) -> (r: ApiError)
    ensures
        r@ == power_conflict_spec(e@),
{
    match e {
        DatabaseError::Diesel(DieselFailure::Database { kind: DbErrorKind::UniqueViolation, .. }) => error_with(
            ApiErrorKind::Conflict,
            "That receptacle is already assigned to another tool",
        ),
        DatabaseError::Diesel(DieselFailure::Database { kind: DbErrorKind::ForeignKeyViolation, .. }) => error_with(
            ApiErrorKind::Conflict,
            "This item is still referenced (a sub-circuit, outlet, or receptacle); move or delete those first",
        ),
        other => ApiError::from_database(other),
    }
}

/// The thing a topology write names must exist: a failed lookup of it is
/// a bad request naming the field, rather than a raw foreign-key conflict.
pub fn reference_exists(found: bool, field: &str) -> (r: Result<(), ApiError>)
    ensures
        found ==> r is Ok,
        !found ==> (r matches Err(e) && e@ == api_err(ApiErrorKind::BadRequest, field@ + " does not exist"@)),
{
    if !found {
        return Err(crate::errors::error_joined(ApiErrorKind::BadRequest, field, " does not exist"));
    }
    Ok(())
}

/// A new outlet or receptacle needs a label.
pub fn label_required(label: &str) -> (r: Result<(), ApiError>)
    ensures
        trim(label@).len() == 0 ==> (r matches Err(e) && e@ == api_err(ApiErrorKind::BadRequest, "label is required"@)),
        trim(label@).len() > 0 ==> r is Ok,
{
    let t = trim_str(label);
    if t.as_str().is_empty() {
        return Err(error_with(ApiErrorKind::BadRequest, "label is required"));
    }
    Ok(())
}

/// A topology write that names one row.
#[derive(Clone, Copy, Debug, PartialEq, Eq, Structural)]
pub enum PowerChange {
    CircuitDeleted,
    OutletDeleted,
    ReceptacleDeleted,
    ToolReceptacleAssigned,
    CircuitReenabled,
    ToolReenabled,
}

/// The 404 message when the named row is not there.
pub open spec fn missing_message(c: PowerChange) -> Seq<char> {
    match c {
        PowerChange::CircuitDeleted | PowerChange::CircuitReenabled => "Circuit not found"@,
        PowerChange::OutletDeleted => "Outlet not found"@,
        PowerChange::ReceptacleDeleted => "Receptacle not found"@,
        PowerChange::ToolReceptacleAssigned | PowerChange::ToolReenabled => "Tool not found"@,
    }
}

/// The confirmation of a write that found its row.
pub open spec fn done_message(c: PowerChange) -> Seq<char> {
    match c {
        PowerChange::CircuitDeleted => "Circuit deleted"@,
        PowerChange::OutletDeleted => "Outlet deleted"@,
        PowerChange::ReceptacleDeleted => "Receptacle deleted"@,
        PowerChange::ToolReceptacleAssigned => "Tool receptacle updated"@,
        PowerChange::CircuitReenabled => "Circuit re-enabled"@,
        PowerChange::ToolReenabled => "Tool re-enabled"@,
    }
}

/// Answer a write that names one row, from how many rows it touched: none
/// is that row's 404, otherwise the confirmation. Re-enabling a tool is
/// idempotent, so for it `rows` counts the tool found, not the lockouts
/// cleared.
pub fn power_change_outcome(change: PowerChange, rows: usize) -> (r: Result<&'static str, ApiError>)
    ensures
        rows == 0 ==> (r matches Err(e) && e@ == api_err(ApiErrorKind::NotFound, missing_message(change))),
        rows > 0 ==> (r matches Ok(m) && m@ == done_message(change)),
{
    if rows == 0 {
        let missing = match change {
            PowerChange::CircuitDeleted | PowerChange::CircuitReenabled => "Circuit not found",
            PowerChange::OutletDeleted => "Outlet not found",
            PowerChange::ReceptacleDeleted => "Receptacle not found",
            PowerChange::ToolReceptacleAssigned | PowerChange::ToolReenabled => "Tool not found",
        };
        return Err(error_with(ApiErrorKind::NotFound, missing));
    }
    let done = match change {
        PowerChange::CircuitDeleted => "Circuit deleted",
        PowerChange::OutletDeleted => "Outlet deleted",
        PowerChange::ReceptacleDeleted => "Receptacle deleted",
        PowerChange::ToolReceptacleAssigned => "Tool receptacle updated",
        PowerChange::CircuitReenabled => "Circuit re-enabled",
        PowerChange::ToolReenabled => "Tool re-enabled",
    };
    Ok(done)
}

} // verus!
