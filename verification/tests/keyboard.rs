use hotkeys::keyboard::Key;
use hotkeys::keyboard::KeyState;
use hotkeys::keyboard::Modifier;
use hotkeys::keyboard::Platform;
use hotkeys::keyboard::max_modifiers;
use hotkeys::peripherals::ErrorKind;
use hotkeys::peripherals::NO_EQUIVALENT_KEY;
use hotkeys::peripherals::UNSUPPORTED_ON_PLATFORM;

#[test]
fn from_char_succeeds_on_every_unshifted_printable() {
    let supported = "abcdefghijklmnopqrstuvwxyz0123456789 `-=[]\\;',./";
    for c in supported.chars() {
        let first = Key::from_char(c);
        assert!(first.is_ok(), "expected a key for {:?}", c);
        // The translation is a function of the character: asking again
        // yields the same key.
        let second = Key::from_char(c);
        assert_eq!(first.unwrap(), second.unwrap());
    }
}

#[test]
fn from_char_rejects_every_shifted_character() {
    let shifted = "~!#$%^&*()_+{}|:\"<>?";
    for c in shifted.chars() {
        let r = Key::from_char(c);
        assert!(r.is_err(), "expected a rejection for {:?}", c);
        let e = r.unwrap_err();
        assert_eq!(e.kind, ErrorKind::OSAgnostic);
        assert_eq!(e.code.0, NO_EQUIVALENT_KEY);
    }
}

#[test]
fn from_char_rejects_unknown_characters() {
    for c in ['\n', '\t', 'é', '€', '@'] {
        let e = Key::from_char(c).unwrap_err();
        assert_eq!(e.kind, ErrorKind::OSAgnostic);
        assert_eq!(e.code.0, NO_EQUIVALENT_KEY);
    }
    let e = Key::from_char('@').unwrap_err();
    assert_eq!(e.description, "No equivalent key exists for the character \"@\".");
}

#[test]
fn from_char_folds_case_to_the_same_key() {
    assert_eq!(Key::from_char('a').unwrap(), Key::A);
    assert_eq!(Key::from_char('A').unwrap(), Key::A);
    for (lower, upper) in ('a'..='z').zip('A'..='Z') {
        assert_eq!(Key::from_char(lower).unwrap(), Key::from_char(upper).unwrap());
    }
}

#[test]
fn from_char_picks_the_expected_variants() {
    assert_eq!(Key::from_char('0').unwrap(), Key::Zero);
    assert_eq!(Key::from_char('9').unwrap(), Key::Nine);
    assert_eq!(Key::from_char('`').unwrap(), Key::Grave);
    assert_eq!(Key::from_char('[').unwrap(), Key::LeftBracket);
    assert_eq!(Key::from_char(']').unwrap(), Key::RightBracket);
    assert_eq!(Key::from_char('\\').unwrap(), Key::BackwardsSlash);
    assert_eq!(Key::from_char(';').unwrap(), Key::Semicolon);
    assert_eq!(Key::from_char('\'').unwrap(), Key::Quote);
    assert_eq!(Key::from_char(' ').unwrap(), Key::Space);
}

#[test]
fn shifted_character_rejection_explains_itself() {
    let e = Key::from_char('!').unwrap_err();
    assert_eq!(
        e.description,
        "No equivalent key exists for the character \"!\". It seems like you are using a \
         character generated with the help of a modifier key such as Shift or CapsLock. These \
         characters are generally not supported with the exception of upper-case letters."
    );
}

#[test]
fn platform_code_answers_from_the_windows_table() {
    assert_eq!(Key::A.platform_code(Platform::Windows).unwrap(), 0x41);
    assert_eq!(Key::Z.platform_code(Platform::Windows).unwrap(), 0x5A);
    assert_eq!(Key::Zero.platform_code(Platform::Windows).unwrap(), 0x30);
    assert_eq!(Key::Nine.platform_code(Platform::Windows).unwrap(), 0x39);
    assert_eq!(Key::Minus.platform_code(Platform::Windows).unwrap(), 0xBD);
    assert_eq!(Key::Comma.platform_code(Platform::Windows).unwrap(), 0xBC);
    assert_eq!(Key::Period.platform_code(Platform::Windows).unwrap(), 0xBE);
    assert_eq!(Key::Space.platform_code(Platform::Windows).unwrap(), 0x20);
}

#[test]
fn platform_code_reports_missing_table_entries() {
    let e = Key::Grave.platform_code(Platform::Windows).unwrap_err();
    assert_eq!(e.kind, ErrorKind::OSAgnostic);
    assert_eq!(e.code.0, UNSUPPORTED_ON_PLATFORM);
    assert_eq!(
        e.description,
        "No native key code exists for the key \"Grave\" on this platform."
    );
    assert!(Key::A.platform_code(Platform::MacOS).is_err());
    assert!(Key::A.platform_code(Platform::Linux).is_err());
}

#[test]
fn platform_bits_answers_from_the_windows_table() {
    assert_eq!(Modifier::Alt.platform_bits(Platform::Windows).unwrap(), 0x0001);
    assert_eq!(Modifier::Control.platform_bits(Platform::Windows).unwrap(), 0x0002);
    assert_eq!(Modifier::Shift.platform_bits(Platform::Windows).unwrap(), 0x0004);
    assert_eq!(Modifier::Windows.platform_bits(Platform::Windows).unwrap(), 0x0008);
    assert_eq!(Modifier::NoRepeat.platform_bits(Platform::Windows).unwrap(), 0x4000);
}

#[test]
fn platform_bits_reports_missing_table_entries() {
    let e = Modifier::Command.platform_bits(Platform::Windows).unwrap_err();
    assert_eq!(e.kind, ErrorKind::OSAgnostic);
    assert_eq!(e.code.0, UNSUPPORTED_ON_PLATFORM);
    assert_eq!(
        e.description,
        "No native bit value exists for the modifier \"Command\" on this platform."
    );
    assert!(Modifier::Control.platform_bits(Platform::MacOS).is_err());
    assert!(Modifier::Control.platform_bits(Platform::Linux).is_err());
}

#[test]
fn same_bits_compares_native_values() {
    assert!(!Modifier::Alt.same_bits(&Modifier::Control, Platform::Windows).unwrap());
    assert!(Modifier::Shift.same_bits(&Modifier::Shift, Platform::Windows).unwrap());
    assert!(Modifier::Alt.same_bits(&Modifier::FnKey, Platform::Windows).is_err());
}

#[test]
fn key_state_defaults_to_up() {
    assert_eq!(KeyState::default(), KeyState::Up);
}

#[test]
fn state_reads_up_when_the_capability_is_absent() {
    // The native key-state query is unavailable: the state deterministically
    // reads as Up, never as a failure.
    assert_eq!(Key::A.state(None), KeyState::Up);
    assert_eq!(Key::A.state(Some(false)), KeyState::Up);
    assert_eq!(Key::A.state(Some(true)), KeyState::Down);
}

#[test]
fn max_modifiers_is_platform_specific() {
    assert_eq!(max_modifiers(Platform::MacOS), 5);
    assert_eq!(max_modifiers(Platform::Windows), 6);
    assert_eq!(max_modifiers(Platform::Linux), 6);
}

#[test]
fn key_names_follow_the_variants() {
    assert_eq!(Key::A.name(), "A");
    assert_eq!(Key::BackwardsSlash.name(), "BackwardsSlash");
    assert_eq!(Key::Space.name(), "Space");
    assert_eq!(KeyState::Up.name(), "Up");
    assert_eq!(KeyState::Down.name(), "Down");
    assert_eq!(Modifier::OptionKey.name(), "OptionKey");
}
