use systemd_gateway::api_errors::{ApiError, RemoteError};
use systemd_gateway::dto::{ServiceDto, ServiceProps, UnitDto, UnitProps, assemble_list_entries};
use systemd_gateway::json::{error_data_to_json, unit_list_to_json, unit_to_json};

fn nginx_unit_props() -> UnitProps {
    UnitProps {
        id: "nginx.service".to_string(),
        names: vec!["nginx.service".to_string()],
        description: "nginx web server".to_string(),
        documentation: vec!["man:nginx(8)".to_string()],
        triggered_by: vec![],
        load_state: "loaded".to_string(),
        active_state: "active".to_string(),
        sub_state: "running".to_string(),
        load_error: (String::new(), String::new()),
        fragment_path: "/lib/systemd/system/nginx.service".to_string(),
        unit_file_state: "enabled".to_string(),
        unit_file_preset: "enabled".to_string(),
        state_change_timestamp: 1700000000000000,
    }
}

fn nginx_service_props() -> ServiceProps {
    ServiceProps {
        exec_main_pid: 1234,
        exec_main_code: 0,
        exec_main_status: 0,
        memory_current: 10485760,
        cpu_usage_nsec: 5000000,
        tasks_current: 2,
        result: "success".to_string(),
        status_text: String::new(),
        status_errno: 0,
        exec_start: vec![(
            "/usr/sbin/nginx".to_string(),
            vec!["-g".to_string(), "daemon off;".to_string()],
            true,
            100,
            100,
            0,
            0,
            1234,
            0,
            0,
        )],
    }
}

#[test]
fn loaded_service_unit_flattens_to_expected_json() {
    let mut unit = UnitDto::from_props(nginx_unit_props());
    unit.add_service(ServiceDto::assemble(nginx_service_props(), None));
    let body = unit_to_json(&unit);
    let text = String::from_utf8(body).expect("emitted JSON is valid UTF-8");
    assert!(text.contains("\"activeState\":\"active\""));
    assert!(text.contains("\"subState\":\"running\""));
    assert!(text.contains("\"execMainPid\":1234"));
    assert!(text.contains(
        "\"execStart\":[{\"pathToBinary\":\"/usr/sbin/nginx\",\"args\":[\"-g\",\"daemon off;\"]"
    ));
    // The service fields are flattened into the unit object, not nested.
    let value: serde_json::Value = serde_json::from_str(&text).expect("well-formed JSON");
    assert_eq!(value["id"], serde_json::Value::String("nginx.service".to_string()));
    assert_eq!(value["execMainPid"], serde_json::Value::from(1234u32));
    assert!(value.get("service").is_none());
    assert_eq!(value["extraMainName"], serde_json::Value::Null);
    assert_eq!(value["loadError"][0], serde_json::Value::String(String::new()));
}

#[test]
fn unit_without_service_emits_no_service_fields() {
    let unit = UnitDto::from_props(nginx_unit_props());
    let text = String::from_utf8(unit_to_json(&unit)).unwrap();
    let value: serde_json::Value = serde_json::from_str(&text).unwrap();
    assert!(value.get("execMainPid").is_none());
    assert!(value.get("extraMainName").is_none());
    assert_eq!(value["id"], serde_json::Value::String("nginx.service".to_string()));
}

#[test]
fn json_escapes_quotes_backslashes_and_control_bytes() {
    let mut props = nginx_unit_props();
    props.description = "say \"hi\"\\\n".to_string();
    let unit = UnitDto::from_props(props);
    let text = String::from_utf8(unit_to_json(&unit)).unwrap();
    assert!(text.contains("\"description\":\"say \\\"hi\\\"\\\\\\u000a\""));
    let value: serde_json::Value = serde_json::from_str(&text).unwrap();
    assert_eq!(
        value["description"],
        serde_json::Value::String("say \"hi\"\\\n".to_string())
    );
}

#[test]
fn json_prints_numbers_in_decimal() {
    let mut sp = nginx_service_props();
    sp.exec_main_code = -7;
    sp.memory_current = u64::MAX;
    sp.status_errno = 0;
    let mut unit = UnitDto::from_props(nginx_unit_props());
    unit.add_service(ServiceDto::assemble(sp, Some("nginx".to_string())));
    let text = String::from_utf8(unit_to_json(&unit)).unwrap();
    assert!(text.contains("\"execMainCode\":-7"));
    assert!(text.contains("\"memoryCurrent\":18446744073709551615"));
    assert!(text.contains("\"statusErrno\":0"));
    assert!(text.contains("\"extraMainName\":\"nginx\""));
}

#[test]
fn unit_list_serializes_in_order() {
    let rows = vec![
        (
            "b.service".to_string(),
            "second".to_string(),
            "loaded".to_string(),
            "active".to_string(),
            "running".to_string(),
            String::new(),
            "/org/freedesktop/systemd1/unit/b".to_string(),
            0,
            String::new(),
            "/".to_string(),
        ),
        (
            "a.service".to_string(),
            "first".to_string(),
            "loaded".to_string(),
            "inactive".to_string(),
            "dead".to_string(),
            String::new(),
            "/org/freedesktop/systemd1/unit/a".to_string(),
            5,
            "start".to_string(),
            "/org/freedesktop/systemd1/job/5".to_string(),
        ),
    ];
    let entries = assemble_list_entries(rows);
    let text = String::from_utf8(unit_list_to_json(&entries)).unwrap();
    let value: serde_json::Value = serde_json::from_str(&text).unwrap();
    let arr = value.as_array().expect("an array");
    assert_eq!(arr.len(), 2);
    assert_eq!(arr[0]["name"], serde_json::Value::String("b.service".to_string()));
    assert_eq!(arr[1]["name"], serde_json::Value::String("a.service".to_string()));
    assert_eq!(arr[1]["queuedJobId"], serde_json::Value::from(5u32));
    assert_eq!(
        arr[1]["queuedJobObjectPath"],
        serde_json::Value::String("/org/freedesktop/systemd1/job/5".to_string())
    );
}

#[test]
fn empty_unit_list_serializes_to_empty_array() {
    let text = String::from_utf8(unit_list_to_json(&Vec::new())).unwrap();
    assert_eq!(text, "[]");
}

#[test]
fn invalid_args_error_maps_to_bad_request() {
    let err = ApiError::DBus(RemoteError {
        name: Some("org.freedesktop.DBus.Error.InvalidArgs".to_string()),
        message: Some("No such unit".to_string()),
    });
    let data = err.error_data();
    assert_eq!(data.status, 400);
    assert_eq!(data.error_type.namespace, "DBus");
    assert_eq!(
        data.error_type.inner,
        Some("org.freedesktop.DBus.Error.InvalidArgs".to_string())
    );
    assert_eq!(data.message, Some("No such unit".to_string()));
    let text = String::from_utf8(error_data_to_json(&data)).unwrap();
    let value: serde_json::Value = serde_json::from_str(&text).unwrap();
    assert_eq!(value["status"], serde_json::Value::from(400u16));
    assert_eq!(
        value["errorType"]["inner"],
        serde_json::Value::String("org.freedesktop.DBus.Error.InvalidArgs".to_string())
    );
    assert_eq!(value["errorType"]["namespace"], serde_json::Value::String("DBus".to_string()));
}

#[test]
fn unrecognized_error_maps_to_internal_error() {
    let err = ApiError::DBus(RemoteError {
        name: Some("org.freedesktop.DBus.Error.NoReply".to_string()),
        message: None,
    });
    let data = err.error_data();
    assert_eq!(data.status, 500);
    assert_eq!(data.error_type.namespace, "DBus");
    assert_eq!(data.error_type.inner, Some("org.freedesktop.DBus.Error.NoReply".to_string()));
    assert_eq!(data.message, None);
}

#[test]
fn nameless_error_maps_to_internal_error_with_null_fields() {
    let err = ApiError::DBus(RemoteError { name: None, message: None });
    let data = err.error_data();
    assert_eq!(data.status, 500);
    assert_eq!(data.error_type.inner, None);
    let text = String::from_utf8(error_data_to_json(&data)).unwrap();
    assert!(text.contains("\"inner\":null"));
    assert!(text.contains("\"message\":null"));
}
