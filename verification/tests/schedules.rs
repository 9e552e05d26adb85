use css_server::errors::{DatabaseError, DbErrorKind, DieselFailure};
use css_server::schedules::{check_new_schedule, check_schedule_intervals, schedule_conflict};
use css_server::tool_modules::deleted_or_not_found;

#[test]
fn new_schedules_need_a_name_and_valid_intervals() {
    assert_eq!(check_new_schedule("  Open hours ", Ok(())).unwrap(), "Open hours");
    assert_eq!(check_new_schedule(" ", Err("bad".to_string())).unwrap_err().response_message(), "name is required");
    let err = check_new_schedule("Evenings", Err("interval 0: start must be before end".to_string())).unwrap_err();
    assert_eq!(err.status(), 400);
    assert_eq!(err.response_message(), "interval 0: start must be before end");
}

#[test]
fn updates_check_only_new_intervals() {
    assert!(check_schedule_intervals(None).is_ok());
    assert!(check_schedule_intervals(Some(Ok(()))).is_ok());
    assert_eq!(
        check_schedule_intervals(Some(Err("unknown day".to_string()))).unwrap_err().response_message(),
        "unknown day"
    );
}

#[test]
fn taken_names_conflict() {
    let taken = DatabaseError::Diesel(DieselFailure::Database {
        kind: DbErrorKind::UniqueViolation,
        message: String::new(),
        description: String::new(),
    });
    let err = schedule_conflict(taken);
    assert_eq!(err.status(), 409);
    assert_eq!(err.response_message(), "A schedule with that name already exists");
    assert_eq!(schedule_conflict(DatabaseError::Diesel(DieselFailure::NotFound)).status(), 404);
    assert_eq!(deleted_or_not_found(0, "Schedule").unwrap_err().response_message(), "Schedule not found");
}
