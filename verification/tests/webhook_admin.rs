use css_server::webhooks::{
    check_auth_header_unused, delivery_window, event_type_infos, has_value, validate_create_auth_header,
    validate_new_webhook, validate_update_auth_header, CreateAuthHeaderRequest, UpdateAuthHeaderRequest,
};

fn strings(xs: &[&str]) -> Vec<String> {
    xs.iter().map(|x| x.to_string()).collect()
}

#[test]
fn the_catalog_labels_each_event_type() {
    let infos = event_type_infos(&strings(&["user_login", "tool_on"]));
    assert_eq!(infos.len(), 2);
    assert_eq!(infos[0].value, "user_login");
    assert_eq!(infos[0].label, "User Login");
    assert_eq!(infos[1].label, "Tool On");
}

#[test]
fn auth_headers_need_their_parts() {
    let ok = CreateAuthHeaderRequest {
        name: "Matrix".to_string(),
        header_name: "Authorization".to_string(),
        header_value: "Bearer x".to_string(),
    };
    assert!(validate_create_auth_header(&ok).is_ok());
    let unnamed = CreateAuthHeaderRequest { name: " ".to_string(), ..ok_clone(&ok) };
    assert_eq!(
        validate_create_auth_header(&unnamed).unwrap_err().response_message(),
        "name and header_name are required"
    );
    let empty = CreateAuthHeaderRequest { header_value: String::new(), ..ok_clone(&ok) };
    assert_eq!(validate_create_auth_header(&empty).unwrap_err().response_message(), "header_value is required");
    let emptied = UpdateAuthHeaderRequest { name: None, header_name: None, header_value: Some(String::new()) };
    assert_eq!(
        validate_update_auth_header(&emptied).unwrap_err().response_message(),
        "header_value cannot be set to empty"
    );
    let kept = UpdateAuthHeaderRequest { name: Some("n".to_string()), header_name: None, header_value: None };
    assert!(validate_update_auth_header(&kept).is_ok());
    assert!(has_value("x"));
    assert!(!has_value(""));
}

fn ok_clone(r: &CreateAuthHeaderRequest) -> CreateAuthHeaderRequest {
    CreateAuthHeaderRequest {
        name: r.name.clone(),
        header_name: r.header_name.clone(),
        header_value: r.header_value.clone(),
    }
}

#[test]
fn attached_headers_stay() {
    let err = check_auth_header_unused(2).unwrap_err();
    assert_eq!(err.status(), 409);
    assert_eq!(err.response_message(), "Auth header is still attached to 2 webhook(s); detach it first");
    assert!(check_auth_header_unused(0).is_ok());
}

#[test]
fn delivery_listings_are_bounded() {
    assert_eq!(delivery_window(None, None), (50, 0));
    assert_eq!(delivery_window(Some(0), Some(-1)), (1, 0));
    assert_eq!(delivery_window(Some(1000), Some(7)), (500, 7));
}

#[test]
fn new_webhooks_are_checked_in_order() {
    let valid = strings(&["user_login", "tool_on"]);
    assert!(validate_new_webhook(&"Hook".to_string(), "https://example.org/h", &strings(&["tool_on"]), &valid).is_ok());
    assert_eq!(
        validate_new_webhook(&" ".to_string(), "nope", &strings(&["x"]), &valid).unwrap_err().response_message(),
        "name is required"
    );
    assert_eq!(validate_new_webhook(&"Hook".to_string(), "ftp://example.org", &[], &valid).unwrap_err().status(), 400);
    assert_eq!(
        validate_new_webhook(&"Hook".to_string(), "https://example.org/h", &strings(&["tool_on", "boom"]), &valid)
            .unwrap_err()
            .response_message(),
        "Unknown event type: boom"
    );
}
