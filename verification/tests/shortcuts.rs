use std::collections::HashMap;

use hotkeys::keyboard::Key;
use hotkeys::keyboard::KeyState;
use hotkeys::keyboard::Modifier;
use hotkeys::keyboard::Platform;
use hotkeys::peripherals::ErrorKind;
use hotkeys::peripherals::INVALID_MODIFIERS_LIST;
use hotkeys::peripherals::UNSUPPORTED_ON_PLATFORM;
use hotkeys::shortcuts::HotkeyRequest;
use hotkeys::shortcuts::native_call_outcome;
use hotkeys::shortcuts::register_shortcut;
use hotkeys::shortcuts::shortcut_state;
use hotkeys::shortcuts::unregister_shortcut;

#[test]
fn register_rejects_an_empty_modifier_list() {
    let e = register_shortcut(1, &[], Key::A, Platform::Windows).unwrap_err();
    assert_eq!(e.kind, ErrorKind::OSAgnostic);
    assert_eq!(e.code.0, INVALID_MODIFIERS_LIST);
    assert_eq!(e.description, "Modifiers list cannot be empty.");
}

#[test]
fn register_rejects_duplicate_modifiers() {
    let e = register_shortcut(
        1,
        &[Modifier::Control, Modifier::Control],
        Key::A,
        Platform::Windows,
    )
    .unwrap_err();
    assert_eq!(e.kind, ErrorKind::OSAgnostic);
    assert_eq!(e.code.0, INVALID_MODIFIERS_LIST);
    assert_eq!(e.description, "Modifiers list cannot contain duplicates.");
}

#[test]
fn register_rejects_a_duplicate_anywhere_in_the_list() {
    let e = register_shortcut(
        1,
        &[Modifier::Alt, Modifier::Control, Modifier::Alt],
        Key::A,
        Platform::Windows,
    )
    .unwrap_err();
    assert_eq!(e.code.0, INVALID_MODIFIERS_LIST);
    assert_eq!(e.description, "Modifiers list cannot contain duplicates.");
}

#[test]
fn register_rejects_too_many_modifiers() {
    let six = [
        Modifier::Alt,
        Modifier::Control,
        Modifier::Shift,
        Modifier::Windows,
        Modifier::NoRepeat,
        Modifier::Alt,
    ];
    let e = register_shortcut(1, &six, Key::A, Platform::Windows).unwrap_err();
    assert_eq!(e.kind, ErrorKind::OSAgnostic);
    assert_eq!(e.code.0, INVALID_MODIFIERS_LIST);
    assert_eq!(
        e.description,
        "Modifiers list cannot contain more than 6 modifiers."
    );
}

#[test]
fn register_applies_the_smaller_macos_bound() {
    let five = [
        Modifier::OptionKey,
        Modifier::Command,
        Modifier::Control,
        Modifier::Shift,
        Modifier::FnKey,
    ];
    let e = register_shortcut(1, &five, Key::A, Platform::MacOS).unwrap_err();
    assert_eq!(e.code.0, INVALID_MODIFIERS_LIST);
    assert_eq!(
        e.description,
        "Modifiers list cannot contain more than 5 modifiers."
    );
}

#[test]
fn register_rejects_a_modifier_without_native_bits() {
    let e = register_shortcut(
        1,
        &[Modifier::Control, Modifier::Command],
        Key::A,
        Platform::Windows,
    )
    .unwrap_err();
    assert_eq!(e.kind, ErrorKind::OSAgnostic);
    assert_eq!(e.code.0, UNSUPPORTED_ON_PLATFORM);
    assert_eq!(
        e.description,
        "Modifiers list contains a modifier without a native bit value on this platform."
    );
}

#[test]
fn register_rejects_a_key_without_a_native_code() {
    let e = register_shortcut(1, &[Modifier::Control], Key::Grave, Platform::Windows)
        .unwrap_err();
    assert_eq!(e.kind, ErrorKind::OSAgnostic);
    assert_eq!(e.code.0, UNSUPPORTED_ON_PLATFORM);
    assert_eq!(
        e.description,
        "No native key code exists for the key \"Grave\" on this platform."
    );
}

#[test]
fn register_combines_modifier_bits_with_or() {
    let r = register_shortcut(
        7,
        &[Modifier::Control, Modifier::Alt, Modifier::NoRepeat],
        Key::B,
        Platform::Windows,
    )
    .unwrap();
    assert_eq!(
        r,
        HotkeyRequest { id: 7, modifier_bits: 0x0002 | 0x0001 | 0x4000, key_code: 0x42 }
    );
}

#[test]
fn register_with_one_modifier_uses_its_bits_alone() {
    let r = register_shortcut(1, &[Modifier::Shift], Key::Space, Platform::Windows).unwrap();
    assert_eq!(r, HotkeyRequest { id: 1, modifier_bits: 0x0004, key_code: 0x20 });
}

#[test]
fn native_call_outcome_passes_success_through() {
    assert!(native_call_outcome(None).is_ok());
}

#[test]
fn native_call_outcome_wraps_the_native_failure_verbatim() {
    let e = native_call_outcome(Some((1400, String::from("Invalid window handle."))))
        .unwrap_err();
    assert_eq!(e.kind, ErrorKind::OSSpecific);
    assert_eq!(e.code.0, 1400);
    assert_eq!(e.description, "Invalid window handle.");
}

#[test]
fn shortcut_state_reads_down_only_for_a_matching_notification() {
    assert_eq!(shortcut_state(5, Some(5)).unwrap(), KeyState::Down);
    assert_eq!(shortcut_state(5, Some(6)).unwrap(), KeyState::Up);
    assert_eq!(shortcut_state(5, None).unwrap(), KeyState::Up);
}

#[test]
fn register_then_unregister_leaves_no_active_hotkey() {
    // A mock external layer standing for the OS's hotkey table: the OS
    // applies a successful registration by storing the request under its id,
    // and a successful unregistration by dropping the id.
    let mut os: HashMap<u16, (u32, u16)> = HashMap::new();
    let r = register_shortcut(3, &[Modifier::Control], Key::A, Platform::Windows).unwrap();
    os.insert(r.id, (r.modifier_bits, r.key_code));
    assert!(os.contains_key(&3));
    os.remove(&3);
    assert!(unregister_shortcut(3, None).is_ok());
    assert!(!os.contains_key(&3));
}

#[test]
fn unregister_wraps_the_native_failure_verbatim() {
    let e = unregister_shortcut(9, Some((1419, String::from("Hot key is not registered."))))
        .unwrap_err();
    assert_eq!(e.kind, ErrorKind::OSSpecific);
    assert_eq!(e.code.0, 1419);
    assert_eq!(e.description, "Hot key is not registered.");
}

#[test]
fn a_failed_validation_hands_the_os_nothing() {
    // Validation happens entirely before any external call: a rejected
    // registration leaves no request to apply.
    let mut os: HashMap<u16, (u32, u16)> = HashMap::new();
    if let Ok(r) = register_shortcut(3, &[], Key::A, Platform::Windows) {
        os.insert(r.id, (r.modifier_bits, r.key_code));
    }
    assert!(os.is_empty());
}
