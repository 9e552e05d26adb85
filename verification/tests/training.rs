use css_server::training::{
    instructor_access, own_record_access, record_creation_access, record_update_access, records_filter,
    step_deletion_gate, trainer_assignment_failure, trainer_assignment_targets, trainer_view_access, waiver_reason,
    GrantWaiverRequest,
    InstructorAction, OwnRecord, TrainerView, TrainingRecordsQuery,
};

fn query(trainer: Option<u128>, trainee: Option<u128>) -> TrainingRecordsQuery {
    TrainingRecordsQuery { tool_id: None, trainer_id: trainer, trainee_id: trainee, limit: None, offset: None }
}

#[test]
fn trainer_views_need_a_trainer_or_staff() {
    assert!(trainer_view_access(TrainerView::Roster, true, false).is_ok());
    assert!(trainer_view_access(TrainerView::History, false, true).is_ok());
    let err = trainer_view_access(TrainerView::Roster, false, false).unwrap_err();
    assert_eq!(err.status(), 403);
    assert_eq!(err.response_message(), "Must be a trainer or staff to access training roster");
    assert_eq!(
        trainer_view_access(TrainerView::ToolRoster, false, false).unwrap_err().response_message(),
        "Must be a trainer for this tool or staff to access tool training roster"
    );
    assert_eq!(
        trainer_view_access(TrainerView::History, false, false).unwrap_err().response_message(),
        "Must be a trainer for this tool or staff to access training history"
    );
}

#[test]
fn members_read_their_own_records() {
    assert!(own_record_access(OwnRecord::Progress, 4, 4, false).is_ok());
    assert!(own_record_access(OwnRecord::Overview, 4, 5, true).is_ok());
    assert_eq!(
        own_record_access(OwnRecord::Overview, 4, 5, false).unwrap_err().response_message(),
        "Cannot view other users' training overview"
    );
    assert_eq!(
        own_record_access(OwnRecord::Progress, 4, 5, false).unwrap_err().response_message(),
        "Cannot view other users' training progress"
    );
    assert_eq!(
        own_record_access(OwnRecord::TrainingRecords, 4, 5, false).unwrap_err().response_message(),
        "Cannot view other users' training records"
    );
}

#[test]
fn instructors_sign_off_sessions() {
    assert!(instructor_access(InstructorAction::CompleteSession, false, true).is_ok());
    assert!(instructor_access(InstructorAction::UpdateProgress, true, false).is_ok());
    assert_eq!(
        instructor_access(InstructorAction::UpdateProgress, false, false).unwrap_err().response_message(),
        "Cannot update training progress"
    );
    assert_eq!(
        instructor_access(InstructorAction::CompleteSession, false, false).unwrap_err().response_message(),
        "Cannot complete training session"
    );
}

#[test]
fn steps_with_progress_are_kept() {
    let err = step_deletion_gate(true, false).unwrap_err();
    assert_eq!(err.status(), 400);
    assert_eq!(err.response_message(), "Cannot delete training step with existing user progress");
    assert_eq!(step_deletion_gate(false, false).unwrap_err().status(), 404);
    assert!(step_deletion_gate(false, true).is_ok());
}

#[test]
fn record_listings_are_filtered_to_the_member() {
    assert_eq!(records_filter(1, true, &query(Some(2), Some(3))).unwrap(), (Some(2), Some(3)));
    assert_eq!(records_filter(1, false, &query(None, None)).unwrap(), (Some(1), Some(1)));
    assert_eq!(records_filter(1, false, &query(Some(1), Some(9))).unwrap(), (Some(1), Some(9)));
    assert_eq!(records_filter(1, false, &query(None, Some(1))).unwrap(), (None, Some(1)));
    assert_eq!(records_filter(1, false, &query(Some(1), None)).unwrap(), (Some(1), None));
    for q in [query(Some(2), Some(3)), query(Some(2), None), query(None, Some(3))] {
        let err = records_filter(1, false, &q).unwrap_err();
        assert_eq!(err.status(), 403);
        assert_eq!(err.response_message(), "Cannot view other users' training records");
    }
}

#[test]
fn records_are_written_and_changed_by_their_trainers() {
    assert!(record_creation_access(true).is_ok());
    assert_eq!(
        record_creation_access(false).unwrap_err().response_message(),
        "User is not authorized as a trainer for this tool"
    );
    assert!(record_update_access(Some(3), 3, false).is_ok());
    assert!(record_update_access(Some(3), 4, true).is_ok());
    assert_eq!(record_update_access(None, 3, true).unwrap_err().status(), 404);
    assert_eq!(
        record_update_access(Some(3), 4, false).unwrap_err().response_message(),
        "Cannot update other trainers' records"
    );
}

#[test]
fn trainer_assignments() {
    assert_eq!(trainer_assignment_targets(false, false).unwrap_err().response_message(), "Tool not found");
    assert_eq!(trainer_assignment_targets(true, false).unwrap_err().response_message(), "User not found");
    assert!(trainer_assignment_targets(true, true).is_ok());
    let dup = trainer_assignment_failure("duplicate key value violates unique constraint \"tool_trainers_pkey\"");
    assert_eq!(dup.status(), 400);
    assert_eq!(dup.response_message(), "User is already assigned as trainer for this tool");
    let other = trainer_assignment_failure("connection reset");
    assert_eq!(other.status(), 500);
}

#[test]
fn waivers_need_a_reason() {
    let req = GrantWaiverRequest { reason: "  holds external certification ".to_string(), expires_at: None };
    assert_eq!(waiver_reason(&req).unwrap(), "holds external certification");
    let blank = GrantWaiverRequest { reason: "   ".to_string(), expires_at: None };
    let err = waiver_reason(&blank).unwrap_err();
    assert_eq!(err.status(), 400);
    assert_eq!(err.response_message(), "A waiver reason is required");
}
