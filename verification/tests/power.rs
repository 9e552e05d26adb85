use css_server::errors::{DatabaseError, DbErrorKind, DieselFailure};
use css_server::power::{
    check_circuit_update, check_new_circuit, circuit_removable, label_required, power_change_outcome, power_conflict,
    reference_exists, require_power_enabled, PowerChange, PowerConfigResponse,
};

#[test]
fn circuits_are_checked() {
    assert!(check_new_circuit("B1", 120, "20.5", None).is_ok());
    assert_eq!(check_new_circuit(" ", 120, "20", None).unwrap_err().response_message(), "breaker_label is required");
    assert_eq!(check_new_circuit("B1", 0, "20", None).unwrap_err().response_message(), "voltage_rating must be positive");
    assert_eq!(check_new_circuit("B1", 120, "0.00", None).unwrap_err().response_message(), "amperage_limit must be positive");
    assert_eq!(check_new_circuit("B1", 120, "15", Some(false)).unwrap_err().response_message(), "parent_circuit_id does not exist");
    assert!(check_circuit_update(1, Some(240), Some("30"), Some(2), true, &[3]).is_ok());
    assert_eq!(
        check_circuit_update(1, None, None, Some(1), true, &[]).unwrap_err().response_message(),
        "A circuit can't be its own upstream trunk"
    );
    assert_eq!(
        check_circuit_update(1, None, None, Some(2), true, &[1]).unwrap_err().response_message(),
        "Change would create a cycle in the circuit hierarchy"
    );
    assert_eq!(check_circuit_update(1, Some(-5), None, None, true, &[]).unwrap_err().status(), 400);
    assert_eq!(
        check_circuit_update(1, None, Some("-1.5"), None, true, &[]).unwrap_err().response_message(),
        "amperage_limit must be positive"
    );
    assert_eq!(
        check_new_circuit("B1", 120, "lots", None).unwrap_err().response_message(),
        "amperage_limit must be positive"
    );
}

#[test]
fn removal_references_and_conflicts() {
    assert_eq!(circuit_removable(1, 0).unwrap_err().status(), 409);
    assert!(circuit_removable(0, 0).is_ok());
    assert_eq!(reference_exists(false, "outlet_id").unwrap_err().response_message(), "outlet_id does not exist");
    assert!(reference_exists(true, "outlet_id").is_ok());
    assert_eq!(label_required("").unwrap_err().response_message(), "label is required");
    let taken = DatabaseError::Diesel(DieselFailure::Database {
        kind: DbErrorKind::UniqueViolation,
        message: String::new(),
        description: String::new(),
    });
    assert_eq!(power_conflict(taken).response_message(), "That receptacle is already assigned to another tool");
    assert!(require_power_enabled(true).is_ok());
    assert_eq!(require_power_enabled(false).unwrap_err().status(), 403);
    assert!(PowerConfigResponse { enabled: true }.enabled);
}

#[test]
fn single_row_writes_answer_404_or_confirm() {
    let e = power_change_outcome(PowerChange::OutletDeleted, 0).unwrap_err();
    assert_eq!(e.status(), 404);
    assert_eq!(e.response_message(), "Outlet not found");
    assert_eq!(power_change_outcome(PowerChange::OutletDeleted, 1).unwrap(), "Outlet deleted");
    let e = power_change_outcome(PowerChange::CircuitReenabled, 0).unwrap_err();
    assert_eq!(e.response_message(), "Circuit not found");
    assert_eq!(power_change_outcome(PowerChange::CircuitReenabled, 2).unwrap(), "Circuit re-enabled");
    assert_eq!(power_change_outcome(PowerChange::ToolReenabled, 0).unwrap_err().response_message(), "Tool not found");
    assert_eq!(power_change_outcome(PowerChange::ToolReceptacleAssigned, 1).unwrap(), "Tool receptacle updated");
    assert_eq!(power_change_outcome(PowerChange::ReceptacleDeleted, 0).unwrap_err().response_message(), "Receptacle not found");
    assert_eq!(power_change_outcome(PowerChange::CircuitDeleted, 1).unwrap(), "Circuit deleted");
}
