use ruffle_android::action::KeyAction;
use ruffle_android::descriptor::{
    keycode_as_descriptor, keycode_as_string, supported_keycodes, KeyDescriptor, KeyLocation,
    LogicalKey, NamedKey, PhysicalKey,
};
use ruffle_android::keycodes::{
    KEYCODE_A, KEYCODE_ALT_RIGHT, KEYCODE_BUTTON_A, KEYCODE_GRAVE, KEYCODE_HOME,
    KEYCODE_MEDIA_PAUSE, KEYCODE_NUMPAD_0, KEYCODE_NUMPAD_ENTER, KEYCODE_PAGE_DOWN,
    KEYCODE_PAGE_UP, KEYCODE_Z,
};

fn placeholder() -> KeyDescriptor {
    KeyDescriptor {
        physical_key: PhysicalKey::Unknown,
        logical_key: LogicalKey::Unknown,
        key_location: KeyLocation::Standard,
    }
}

#[test]
fn every_supported_code_has_a_real_descriptor() {
    let codes = supported_keycodes();
    assert_eq!(codes.len(), 108);
    for code in &codes {
        let d = keycode_as_descriptor(*code);
        assert!(d.is_some(), "code {code}");
        assert_ne!(d.unwrap(), placeholder());
    }
    let mut sorted = codes.clone();
    sorted.sort();
    sorted.dedup();
    assert_eq!(sorted.len(), 108);
}

#[test]
fn codes_outside_the_set_have_no_descriptor() {
    let codes = supported_keycodes();
    for code in -3..300 {
        assert_eq!(keycode_as_descriptor(code).is_some(), codes.contains(&code), "code {code}");
    }
    assert_eq!(keycode_as_descriptor(KEYCODE_BUTTON_A), None);
    assert_eq!(keycode_as_descriptor(i32::MIN), None);
}

#[test]
fn descriptor_values() {
    assert_eq!(
        keycode_as_descriptor(KEYCODE_A),
        Some(KeyDescriptor {
            physical_key: PhysicalKey::KeyA,
            logical_key: LogicalKey::Character('a'),
            key_location: KeyLocation::Standard,
        })
    );
    assert_eq!(
        keycode_as_descriptor(KEYCODE_Z).unwrap().logical_key,
        LogicalKey::Character('z')
    );
    assert_eq!(
        keycode_as_descriptor(KEYCODE_NUMPAD_ENTER),
        Some(KeyDescriptor {
            physical_key: PhysicalKey::NumpadEnter,
            logical_key: LogicalKey::Named(NamedKey::Enter),
            key_location: KeyLocation::Numpad,
        })
    );
    assert_eq!(keycode_as_descriptor(KEYCODE_ALT_RIGHT).unwrap().key_location, KeyLocation::Right);
    assert_eq!(
        keycode_as_descriptor(KEYCODE_GRAVE),
        Some(KeyDescriptor {
            physical_key: PhysicalKey::Unknown,
            logical_key: LogicalKey::Character('`'),
            key_location: KeyLocation::Standard,
        })
    );
    assert_eq!(
        keycode_as_descriptor(KEYCODE_MEDIA_PAUSE).unwrap().logical_key,
        LogicalKey::Named(NamedKey::Pause)
    );
    assert_eq!(keycode_as_descriptor(KEYCODE_HOME).unwrap().physical_key, PhysicalKey::Home);
}

#[test]
fn key_names() {
    assert_eq!(keycode_as_string(KEYCODE_A), "A");
    assert_eq!(keycode_as_string(KEYCODE_NUMPAD_0), "0");
    assert_eq!(keycode_as_string(KEYCODE_PAGE_UP), "PgDn");
    assert_eq!(keycode_as_string(KEYCODE_PAGE_DOWN), "PgUp");
    assert_eq!(keycode_as_string(KEYCODE_BUTTON_A), "Unknow");
}

#[test]
fn key_actions() {
    assert_eq!(KeyAction::from(0), KeyAction::Down);
    assert_eq!(KeyAction::from(1), KeyAction::Up);
    assert_eq!(KeyAction::from(-7), KeyAction::Up);
    assert_eq!(KeyAction::from(true), KeyAction::Down);
    assert_eq!(KeyAction::from(false), KeyAction::Up);
    assert_eq!(KeyAction::Down.as_str(), "Down");
    assert_eq!(KeyAction::Up.as_str(), "Up");
}
