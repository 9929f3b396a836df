use hotkeys::keyboard::Key;
use hotkeys::keyboard::KeyState;
use hotkeys::peripherals::Error;
use hotkeys::peripherals::ErrorCode;
use hotkeys::peripherals::ErrorKind;
use hotkeys::peripherals::UNKNOWN;

#[test]
fn error_to_json_is_the_exact_expected_string() {
    let e = Error::new(
        ErrorKind::OSAgnostic,
        ErrorCode(3),
        String::from("Modifiers list cannot be empty."),
    );
    assert_eq!(
        e.to_json(),
        "{\"kind\":\"OSAgnostic\",\"code\":3,\"description\":\"Modifiers list cannot be empty.\"}"
    );
}

#[test]
fn error_to_json_escapes_quotes_and_backslashes() {
    let e = Error::new(
        ErrorKind::OSSpecific,
        ErrorCode(-5),
        String::from("path \"C:\\temp\" not found"),
    );
    assert_eq!(
        e.to_json(),
        "{\"kind\":\"OSSpecific\",\"code\":-5,\"description\":\"path \\\"C:\\\\temp\\\" not found\"}"
    );
}

#[test]
fn error_to_json_escapes_control_characters() {
    let e = Error::new(ErrorKind::Unknown, ErrorCode(0), String::from("a\nb\u{1f}c"));
    assert_eq!(
        e.to_json(),
        "{\"kind\":\"Unknown\",\"code\":0,\"description\":\"a\\u000ab\\u001fc\"}"
    );
}

#[test]
fn error_json_round_trips_through_a_real_parser() {
    let cases = vec![
        (ErrorKind::Unknown, 1, String::from("No description can be found.")),
        (ErrorKind::OSAgnostic, 2, String::from("No equivalent key exists for the character \"@\".")),
        (ErrorKind::OSSpecific, -2147024809, String::from("quote \" backslash \\ newline \n tab \t done")),
        (ErrorKind::OSSpecific, i32::MIN, String::from("")),
        (ErrorKind::OSAgnostic, i32::MAX, String::from("héllo wörld")),
    ];
    for (kind, code, description) in cases {
        let e = Error::new(kind, ErrorCode(code), description.clone());
        let parsed: serde_json::Value = serde_json::from_str(&e.to_json()).unwrap();
        let object = parsed.as_object().unwrap();
        assert_eq!(object.len(), 3);
        assert!(object["kind"].is_string());
        assert!(object["code"].is_i64());
        assert!(object["description"].is_string());
        assert_eq!(object["kind"].as_str().unwrap(), kind.name());
        assert_eq!(object["code"].as_i64().unwrap(), code as i64);
        assert_eq!(object["description"].as_str().unwrap(), description);
    }
}

#[test]
fn key_json_is_the_exact_expected_string() {
    assert_eq!(Key::A.json(KeyState::Up), "{\"name\":\"A\",\"state\":\"Up\"}");
    assert_eq!(
        Key::BackwardsSlash.json(KeyState::Down),
        "{\"name\":\"BackwardsSlash\",\"state\":\"Down\"}"
    );
}

#[test]
fn key_json_round_trips_through_a_real_parser() {
    let parsed: serde_json::Value =
        serde_json::from_str(&Key::Space.json(KeyState::Down)).unwrap();
    assert_eq!(parsed["name"].as_str().unwrap(), "Space");
    assert_eq!(parsed["state"].as_str().unwrap(), "Down");
}

#[test]
fn kind_names_follow_the_variants() {
    assert_eq!(ErrorKind::Unknown.name(), "Unknown");
    assert_eq!(ErrorKind::OSSpecific.name(), "OSSpecific");
    assert_eq!(ErrorKind::OSAgnostic.name(), "OSAgnostic");
    assert_eq!(ErrorKind::default(), ErrorKind::Unknown);
}

#[test]
fn error_new_keeps_its_fields() {
    let e = Error::new(ErrorKind::OSSpecific, ErrorCode::from(87), String::from("nope"));
    assert_eq!(e.kind, ErrorKind::OSSpecific);
    assert_eq!(e.code, ErrorCode(87));
    assert_eq!(e.description, "nope");
}

#[test]
fn error_defaults_to_the_unknown_kind() {
    let e = Error::default();
    assert_eq!(e.kind, ErrorKind::Unknown);
    assert_eq!(e.code.0, UNKNOWN);
    assert_eq!(e.description, "No description can be found.");
}

#[test]
fn error_message_renders_kind_description_and_code() {
    let e = Error::new(ErrorKind::OSAgnostic, ErrorCode(3), String::from("too long"));
    assert_eq!(e.message(), "OSAgnosticError: too long (ErrorCode 3)");
    let n = Error::new(ErrorKind::OSSpecific, ErrorCode(-12), String::from("native"));
    assert_eq!(n.message(), "OSSpecificError: native (ErrorCode -12)");
}

#[test]
fn code_rendering_covers_the_extremes() {
    let e = Error::new(ErrorKind::Unknown, ErrorCode(i32::MIN), String::from("x"));
    assert_eq!(
        e.to_json(),
        "{\"kind\":\"Unknown\",\"code\":-2147483648,\"description\":\"x\"}"
    );
    let f = Error::new(ErrorKind::Unknown, ErrorCode(i32::MAX), String::from("x"));
    assert_eq!(
        f.to_json(),
        "{\"kind\":\"Unknown\",\"code\":2147483647,\"description\":\"x\"}"
    );
}
