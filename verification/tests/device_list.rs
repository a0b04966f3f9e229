use better_aim_assist::json::{gaming_device_paths, gaming_device_paths_in, Json};

fn obj(members: Vec<(&str, Json)>) -> Json {
    Json::Object(members.into_iter().map(|(k, v)| (k.to_string(), v)).collect())
}

fn device(present: bool, gaming: Json, path: &str) -> Json {
    obj(vec![
        ("deviceInstancePath", Json::Str(path.to_string())),
        ("gamingDevice", gaming),
        ("present", Json::Bool(present)),
    ])
}

#[test]
fn selects_present_gaming_devices_in_order() {
    let doc = Json::Array(vec![
        obj(vec![
            ("devices", Json::Array(vec![
                device(true, Json::Bool(true), "HID\\VID_054C&PID_0CE6\\1"),
                device(false, Json::Bool(true), "HID\\GONE"),
                device(true, Json::Bool(false), "HID\\KEYBOARD"),
            ])),
            ("friendlyName", Json::Str("DualSense".to_string())),
        ]),
        obj(vec![("friendlyName", Json::Str("no devices".to_string()))]),
        obj(vec![(
            "devices",
            Json::Array(vec![
                device(true, Json::Bool(true), "HID\\SECOND"),
                device(true, Json::Str("true".to_string()), "HID\\NOT_A_BOOL"),
                obj(vec![("present", Json::Bool(true)), ("gamingDevice", Json::Bool(true))]),
                Json::Number("3".to_string()),
            ]),
        )]),
    ]);
    assert_eq!(gaming_device_paths(&doc), vec!["HID\\VID_054C&PID_0CE6\\1".to_string(), "HID\\SECOND".to_string()]);
}

#[test]
fn non_array_document_selects_nothing() {
    assert!(gaming_device_paths(&Json::Null).is_empty());
    assert!(gaming_device_paths(&obj(vec![("devices", Json::Array(vec![]))])).is_empty());
}

#[test]
fn path_must_be_a_string() {
    let doc = Json::Array(vec![obj(vec![(
        "devices",
        Json::Array(vec![obj(vec![
            ("present", Json::Bool(true)),
            ("gamingDevice", Json::Bool(true)),
            ("deviceInstancePath", Json::Number("7".to_string())),
        ])]),
    )])]);
    assert!(gaming_device_paths(&doc).is_empty());
}

#[test]
fn selects_from_cli_text() {
    let text = r#"[{"friendlyName":"Wireless Controller","devices":[
        {"present":true,"gamingDevice":true,"deviceInstancePath":"HID\\VID_054C&PID_09CC\\7"},
        {"present":false,"gamingDevice":true,"deviceInstancePath":"HID\\OLD"},
        {"present":true,"gamingDevice":false,"deviceInstancePath":"HID\\MOUSE"}]},
        {"devices":[{"gamingDevice":true,"present":true,"deviceInstancePath":"HID\\TWO"}]}]"#;
    assert_eq!(
        gaming_device_paths_in(text),
        vec!["HID\\VID_054C&PID_09CC\\7".to_string(), "HID\\TWO".to_string()]
    );
}

#[test]
fn blank_or_broken_text_selects_nothing() {
    assert!(gaming_device_paths_in("").is_empty());
    assert!(gaming_device_paths_in(" \r\n").is_empty());
    assert!(gaming_device_paths_in("[{\"devices\": [").is_empty());
    assert!(gaming_device_paths_in("{\"devices\": []}").is_empty());
}
