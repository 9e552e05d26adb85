use css_server::rbac::{
    candidate_edges, check_inheritance, check_new_role, check_permission_keys, check_role_delete,
    check_role_update, sorted_unique_ids, sorted_unique_keys, CreateRoleRequest, UpdateRoleRequest,
};

#[test]
fn new_roles_are_trimmed_and_checked() {
    let ok = check_new_role(&CreateRoleRequest {
        name: "  trainer ".to_string(),
        description: " teaches ".to_string(),
        level: 2,
    })
    .unwrap();
    assert_eq!(ok, ("trainer".to_string(), "teaches".to_string()));
    let empty = CreateRoleRequest { name: "   ".to_string(), description: String::new(), level: 1 };
    assert_eq!(check_new_role(&empty).unwrap_err().response_message(), "role name must not be empty");
    let negative = CreateRoleRequest { name: "x".to_string(), description: String::new(), level: -1 };
    let err = check_new_role(&negative).unwrap_err();
    assert_eq!(err.status(), 400);
    assert_eq!(err.response_message(), "role level must not be negative");
}

#[test]
fn system_roles_keep_their_level_and_stay() {
    let with_level = UpdateRoleRequest { description: None, level: Some(5) };
    let without_level = UpdateRoleRequest { description: Some("d".to_string()), level: None };
    let negative = UpdateRoleRequest { description: None, level: Some(-3) };
    assert_eq!(check_role_update(None, &without_level).unwrap_err().status(), 404);
    let forbidden = check_role_update(Some(true), &with_level).unwrap_err();
    assert_eq!(forbidden.status(), 403);
    assert_eq!(forbidden.response_message(), "the level of a system role cannot be changed");
    assert!(check_role_update(Some(true), &without_level).is_ok());
    assert!(check_role_update(Some(false), &with_level).is_ok());
    assert_eq!(check_role_update(Some(false), &negative).unwrap_err().response_message(), "role level must not be negative");
    assert_eq!(check_role_delete(None).unwrap_err().status(), 404);
    assert_eq!(check_role_delete(Some(true)).unwrap_err().response_message(), "system roles cannot be deleted");
    assert!(check_role_delete(Some(false)).is_ok());
}

#[test]
fn ids_and_keys_are_sorted_once_each() {
    assert_eq!(sorted_unique_ids(&vec![5, 1, 5, 3, 1]), vec![1, 3, 5]);
    assert_eq!(sorted_unique_ids(&vec![]), Vec::<u128>::new());
    let keys = vec!["tools.view".to_string(), "doors.open".to_string(), "tools.view".to_string()];
    assert_eq!(sorted_unique_keys(&keys), vec!["doors.open".to_string(), "tools.view".to_string()]);
}

#[test]
fn inheritance_edits_are_checked_in_order() {
    let roles = [1u128, 2, 3];
    assert!(check_inheritance(1, &roles, &vec![2, 3], false).is_ok());
    assert_eq!(check_inheritance(9, &roles, &vec![2], false).unwrap_err().status(), 404);
    assert_eq!(
        check_inheritance(1, &roles, &vec![1, 2], false).unwrap_err().response_message(),
        "a role cannot inherit from itself"
    );
    assert_eq!(
        check_inheritance(1, &roles, &vec![2, 0x10], false).unwrap_err().response_message(),
        "unknown role id in inheritance: 00000000-0000-0000-0000-000000000010"
    );
    assert_eq!(
        check_inheritance(1, &roles, &vec![2], true).unwrap_err().response_message(),
        "this inheritance change would create a cycle"
    );
}

#[test]
fn edited_edges_replace_the_roles_own() {
    let edges = vec![(1u128, 2u128), (2, 3), (1, 3), (3, 4)];
    assert_eq!(candidate_edges(&edges, 1, &vec![4]), vec![(2, 3), (3, 4), (1, 4)]);
    assert_eq!(candidate_edges(&edges, 7, &vec![]), edges);
}

#[test]
fn grants_name_catalogued_keys_only() {
    let catalog = vec!["doors.open".to_string(), "tools.view".to_string()];
    assert!(check_permission_keys(&vec!["tools.view".to_string()], &catalog).is_ok());
    assert!(check_permission_keys(&vec![], &catalog).is_ok());
    let err = check_permission_keys(&vec!["doors.open".to_string(), "x.y".to_string(), "z".to_string()], &catalog)
        .unwrap_err();
    assert_eq!(err.status(), 400);
    assert_eq!(err.response_message(), "unknown permission key: x.y");
}
