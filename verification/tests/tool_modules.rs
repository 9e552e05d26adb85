use css_server::tool_modules::{
    check_new_interlock, check_new_module, deleted_or_not_found, interlock_references, module_references, one_of,
    CreateInterlockRequest, CreateModuleRequest, InterlockVocabulary, ModuleVocabulary,
};

fn words(ws: &[&str]) -> Vec<String> {
    ws.iter().map(|w| w.to_string()).collect()
}

fn module_vocab() -> ModuleVocabulary {
    ModuleVocabulary {
        roles: words(&["reader", "power", "sensor"]),
        on_disconnect: words(&["fail_off", "hold"]),
        fail_off: "fail_off".to_string(),
    }
}

fn interlock_vocab() -> InterlockVocabulary {
    InterlockVocabulary {
        kinds: words(&["gate", "trip"]),
        conditions: words(&["lid_open", "no_airflow"]),
        resets: words(&["re_auth", "auto"]),
        enforcements: words(&["edge", "firmware"]),
        re_auth: "re_auth".to_string(),
        edge: "edge".to_string(),
    }
}

fn module_request(role: &str, name: &str, on_disconnect: Option<&str>) -> CreateModuleRequest {
    CreateModuleRequest {
        tool_id: 1,
        device_id: 2,
        role: role.to_string(),
        name: name.to_string(),
        params: None,
        on_disconnect: on_disconnect.map(|s| s.to_string()),
    }
}

fn interlock_request() -> CreateInterlockRequest {
    CreateInterlockRequest {
        tool_id: 1,
        kind: "trip".to_string(),
        condition: "lid_open".to_string(),
        source_module_id: None,
        debounce_ms: None,
        latch: None,
        reset: None,
        enforcement: None,
        enabled: None,
    }
}

#[test]
fn one_of_names_the_permitted_set() {
    let allowed = words(&["a", "b", "c"]);
    assert_eq!(one_of("b", &allowed, "x").unwrap(), "b");
    let err = one_of("d", &allowed, "x").unwrap_err();
    assert_eq!(err.status(), 400);
    assert_eq!(err.response_message(), "x must be one of: a, b, c");
    assert_eq!(one_of("a", &[], "y").unwrap_err().response_message(), "y must be one of: ");
}

#[test]
fn module_bindings_default_to_failing_off() {
    let plan = check_new_module(&module_request("power", "  Main relay ", None), &module_vocab()).unwrap();
    assert_eq!(plan.role, "power");
    assert_eq!(plan.name, "Main relay");
    assert_eq!(plan.on_disconnect, "fail_off");
    assert_eq!(plan.params, "{}");
    let held = check_new_module(&module_request("reader", "r", Some("hold")), &module_vocab()).unwrap();
    assert_eq!(held.on_disconnect, "hold");
}

#[test]
fn module_bindings_are_checked_in_order() {
    let v = module_vocab();
    assert_eq!(
        check_new_module(&module_request("motor", "", Some("x")), &v).unwrap_err().response_message(),
        "role must be one of: reader, power, sensor"
    );
    assert_eq!(
        check_new_module(&module_request("power", "", Some("x")), &v).unwrap_err().response_message(),
        "on_disconnect must be one of: fail_off, hold"
    );
    assert_eq!(
        check_new_module(&module_request("power", "  ", None), &v).unwrap_err().response_message(),
        "name is required"
    );
    assert_eq!(module_references(false, false).unwrap_err().response_message(), "tool_id does not exist");
    assert_eq!(module_references(true, false).unwrap_err().response_message(), "device_id does not exist");
    assert!(module_references(true, true).is_ok());
}

#[test]
fn interlocks_latch_and_default_safely() {
    let plan = check_new_interlock(&interlock_request(), &interlock_vocab()).unwrap();
    assert_eq!(plan.kind, "trip");
    assert_eq!(plan.condition, "lid_open");
    assert_eq!(plan.reset, "re_auth");
    assert_eq!(plan.enforcement, "edge");
    assert_eq!(plan.debounce_ms, 0);
    assert!(plan.latch);
    assert!(plan.enabled);
    let mut req = interlock_request();
    req.latch = Some(false);
    req.enabled = Some(false);
    req.debounce_ms = Some(250);
    req.reset = Some("auto".to_string());
    let plan = check_new_interlock(&req, &interlock_vocab()).unwrap();
    assert!(!plan.latch);
    assert!(!plan.enabled);
    assert_eq!(plan.debounce_ms, 250);
    assert_eq!(plan.reset, "auto");
}

#[test]
fn interlocks_are_checked() {
    let v = interlock_vocab();
    let mut req = interlock_request();
    req.condition = "smoke".to_string();
    assert_eq!(
        check_new_interlock(&req, &v).unwrap_err().response_message(),
        "condition must be one of: lid_open, no_airflow"
    );
    let mut req = interlock_request();
    req.enforcement = Some("cloud".to_string());
    assert_eq!(
        check_new_interlock(&req, &v).unwrap_err().response_message(),
        "enforcement must be one of: edge, firmware"
    );
    let mut req = interlock_request();
    req.debounce_ms = Some(-1);
    assert_eq!(check_new_interlock(&req, &v).unwrap_err().response_message(), "debounce_ms must not be negative");
    assert_eq!(interlock_references(false, None, &[]).unwrap_err().response_message(), "tool_id does not exist");
    assert_eq!(
        interlock_references(true, Some(9), &[3, 4]).unwrap_err().response_message(),
        "source_module_id is not a module of this tool"
    );
    assert!(interlock_references(true, Some(4), &[3, 4]).is_ok());
    assert!(interlock_references(true, None, &[]).is_ok());
}

#[test]
fn deleting_nothing_is_not_found() {
    let err = deleted_or_not_found(0, "Tool module").unwrap_err();
    assert_eq!(err.status(), 404);
    assert_eq!(err.response_message(), "Tool module not found");
    assert!(deleted_or_not_found(1, "Tool interlock").unwrap().deleted);
}
