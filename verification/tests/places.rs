use css_server::errors::{DatabaseError, DbErrorKind, DieselFailure};
use css_server::places::{
    check_move, place_conflict, place_deleted, prospective_place, require_places_enabled, validate_place_payload,
    AttachedCounts, ParentCheck, PlaceConfigResponse,
};

fn types() -> Vec<String> {
    vec!["Building".to_string(), "Floor".to_string(), "Room".to_string()]
}

#[test]
fn place_types_and_parents_are_checked() {
    assert!(validate_place_payload(&types(), "Room", true, ParentCheck::Ordered(Ok(())), false).is_ok());
    assert!(validate_place_payload(&types(), "Room", true, ParentCheck::SpecialParent, false).is_ok());
    assert_eq!(
        validate_place_payload(&types(), "Floor", true, ParentCheck::Ordered(Err("too shallow".to_string())), false)
            .unwrap_err()
            .response_message(),
        "too shallow"
    );
    assert_eq!(
        validate_place_payload(&types(), "Wing", false, ParentCheck::Root, false).unwrap_err().response_message(),
        "Unknown place_type 'Wing'; configured types: [\"Building\", \"Floor\", \"Room\"]"
    );
    assert!(validate_place_payload(&types(), "Outside", false, ParentCheck::Root, true).is_ok());
    assert_eq!(
        validate_place_payload(&types(), "Outside", true, ParentCheck::Root, true).unwrap_err().response_message(),
        "Special places cannot have a parent"
    );
    assert_eq!(validate_place_payload(&types(), " ", false, ParentCheck::Root, true).unwrap_err().status(), 400);
}

#[test]
fn moves_keep_the_hierarchy_a_tree() {
    assert_eq!(check_move(5, Some(5), &[]).unwrap_err().response_message(), "A place can't be its own parent");
    assert_eq!(
        check_move(5, Some(7), &[1, 5, 6]).unwrap_err().response_message(),
        "Move would create a cycle in the place hierarchy"
    );
    assert!(check_move(5, Some(7), &[1, 2]).is_ok());
    assert!(check_move(5, None, &[5]).is_ok());
    let (t, p, s) = prospective_place("Room".to_string(), Some(1), false, None, Some(None), Some(true));
    assert_eq!((t.as_str(), p, s), ("Room", None, true));
}

#[test]
fn constraint_failures_are_explained() {
    let dup = DatabaseError::Diesel(DieselFailure::Database {
        kind: DbErrorKind::UniqueViolation,
        message: "dup".to_string(),
        description: "dup".to_string(),
    });
    assert_eq!(place_conflict(dup).response_message(), "A sibling place with that name already exists");
    let fk = DatabaseError::Diesel(DieselFailure::Database {
        kind: DbErrorKind::ForeignKeyViolation,
        message: "fk".to_string(),
        description: "fk".to_string(),
    });
    assert_eq!(place_conflict(fk).status(), 409);
    assert_eq!(place_conflict(DatabaseError::ConnectionTimeout).status(), 500);
    assert_eq!(place_deleted(0).unwrap_err().status(), 404);
    assert!(require_places_enabled(true).is_ok());
    assert_eq!(require_places_enabled(false).unwrap_err().status(), 403);
    let cfg = PlaceConfigResponse { enabled: true, types: types() };
    assert_eq!(cfg.types.len(), 3);
    assert_eq!(AttachedCounts { doors: 1, tools: 2, devices: 0 }, AttachedCounts { doors: 1, tools: 2, devices: 0 });
}
