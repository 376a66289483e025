use ruffle_android::action::{InputSource, KeyAction};
use ruffle_android::descriptor::{
    keycode_as_descriptor, KeyDescriptor, KeyLocation, LogicalKey, NamedKey, PhysicalKey,
};
use ruffle_android::input::{
    joypad_events, scale_pointer_axis, InputDispatcher, KeyEvent, KeyState, PlayerEvent,
    TouchEvent, POINTER_AXIS_MAX, POINTER_AXIS_MIN, RETRO_DEVICE_ID_JOYPAD_A,
    RETRO_DEVICE_ID_JOYPAD_B, RETRO_DEVICE_ID_JOYPAD_L, SUBPIXELS_PER_PIXEL,
};
use ruffle_android::keycodes::{
    KEYCODE_0, KEYCODE_1, KEYCODE_2, KEYCODE_3, KEYCODE_4, KEYCODE_7, KEYCODE_9, KEYCODE_A,
    KEYCODE_BUTTON_A, KEYCODE_BUTTON_B, KEYCODE_BUTTON_L1, KEYCODE_BUTTON_L2, KEYCODE_BUTTON_R1,
    KEYCODE_BUTTON_R2, KEYCODE_COMMA, KEYCODE_DPAD_LEFT, KEYCODE_G, KEYCODE_PERIOD,
};

fn desc(code: i32) -> KeyDescriptor {
    keycode_as_descriptor(code).unwrap()
}

#[test]
fn it_works() {
    let mut d = InputDispatcher::new();
    let r = d.dispatch_key_event(KeyEvent::gamepad(0, KEYCODE_BUTTON_A, KeyAction::Down));
    assert_eq!(r, Some(PlayerEvent::KeyDown { key: desc(KEYCODE_COMMA) }));
}

#[test]
fn repeated_gamepad_down_emits_one_key_down() {
    let mut d = InputDispatcher::new();
    let e = KeyEvent::gamepad(0, KEYCODE_BUTTON_A, KeyAction::Down);
    let first = d.dispatch_key_event(e);
    let second = d.dispatch_key_event(e);
    assert_eq!(first, Some(PlayerEvent::KeyDown { key: desc(KEYCODE_COMMA) }));
    assert_eq!(second, None);
}

#[test]
fn repeated_gamepad_up_from_rest_emits_nothing() {
    let mut d = InputDispatcher::new();
    let e = KeyEvent::gamepad(0, KEYCODE_BUTTON_B, KeyAction::Up);
    assert_eq!(d.dispatch_key_event(e), None);
    assert_eq!(d.dispatch_key_event(e), None);
}

#[test]
fn gamepad_release_after_press_emits_key_up() {
    let mut d = InputDispatcher::new();
    d.dispatch_key_event(KeyEvent::gamepad(0, KEYCODE_BUTTON_B, KeyAction::Down));
    let r = d.dispatch_key_event(KeyEvent::gamepad(0, KEYCODE_BUTTON_B, KeyAction::Up));
    assert_eq!(r, Some(PlayerEvent::KeyUp { key: desc(KEYCODE_PERIOD) }));
}

#[test]
fn unrouted_gamepad_code_emits_nothing() {
    let mut d = InputDispatcher::new();
    for action in [KeyAction::Down, KeyAction::Up, KeyAction::Down] {
        assert_eq!(d.dispatch_key_event(KeyEvent::gamepad(0, KEYCODE_A, action)), None);
        assert_eq!(d.dispatch_key_event(KeyEvent::gamepad(1, -5, action)), None);
    }
}

#[test]
fn unknown_keyboard_code_emits_nothing() {
    let mut d = InputDispatcher::new();
    assert_eq!(d.dispatch_key_event(KeyEvent::new(KEYCODE_BUTTON_A, KeyAction::Down)), None);
    assert_eq!(d.dispatch_key_event(KeyEvent::new(0, KeyAction::Up)), None);
    assert_eq!(d.dispatch_key_event(KeyEvent::new(i32::MAX, KeyAction::Down)), None);
}

#[test]
fn keyboard_reports_are_not_deduplicated() {
    let mut d = InputDispatcher::new();
    let e = KeyEvent::new(KEYCODE_A, KeyAction::Down);
    let expected = Some(PlayerEvent::KeyDown { key: desc(KEYCODE_A) });
    assert_eq!(d.dispatch_key_event(e), expected);
    assert_eq!(d.dispatch_key_event(e), expected);
}

#[test]
fn ports_have_independent_tables() {
    let mut d = InputDispatcher::new();
    let p0 = d.dispatch_key_event(KeyEvent::gamepad(0, KEYCODE_BUTTON_A, KeyAction::Down));
    assert_eq!(p0, Some(PlayerEvent::KeyDown { key: desc(KEYCODE_COMMA) }));
    let p1 = d.dispatch_key_event(KeyEvent::gamepad(1, KEYCODE_BUTTON_A, KeyAction::Down));
    assert_eq!(p1, Some(PlayerEvent::KeyDown { key: desc(KEYCODE_G) }));
    let again = d.dispatch_key_event(KeyEvent::gamepad(0, KEYCODE_BUTTON_A, KeyAction::Down));
    assert_eq!(again, None);
}

#[test]
fn route_tables_use_distinct_button_codes() {
    let t0 = InputDispatcher::build_route_table(0);
    let t1 = InputDispatcher::build_route_table(1);
    assert_eq!(t0.len(), 14);
    assert_eq!(t1.len(), 14);
    let at = |t: &std::collections::HashMap<i32, KeyState>, code: i32| t.get(&code).unwrap().descriptor;
    assert_eq!(at(&t0, KEYCODE_BUTTON_L1), desc(KEYCODE_1));
    assert_eq!(at(&t0, KEYCODE_BUTTON_R1), desc(KEYCODE_2));
    assert_eq!(at(&t0, KEYCODE_BUTTON_L2), desc(KEYCODE_3));
    assert_eq!(at(&t0, KEYCODE_BUTTON_R2), desc(KEYCODE_4));
    assert_eq!(at(&t1, KEYCODE_BUTTON_L1), desc(KEYCODE_7));
    assert_eq!(at(&t1, KEYCODE_BUTTON_L2), desc(KEYCODE_9));
    assert_eq!(at(&t1, KEYCODE_BUTTON_R2), desc(KEYCODE_0));
    assert_eq!(at(&t1, KEYCODE_DPAD_LEFT), desc(KEYCODE_A));
    assert!(t0.values().all(|s| s.action == KeyAction::Up));
}

#[test]
fn pointer_transitions() {
    let mut d = InputDispatcher::new();
    assert_eq!(d.dispatch_touch_event(TouchEvent::new(1, 2, KeyAction::Up)), None);
    assert!(!d.pointer_down());
    assert_eq!(
        d.dispatch_touch_event(TouchEvent::new(3, 4, KeyAction::Down)),
        Some(PlayerEvent::MouseDown { x: 3, y: 4 })
    );
    assert!(d.pointer_down());
    assert_eq!(
        d.dispatch_touch_event(TouchEvent::new(5, 6, KeyAction::Down)),
        Some(PlayerEvent::MouseMove { x: 5, y: 6 })
    );
    assert_eq!(
        d.dispatch_touch_event(TouchEvent::new(7, 8, KeyAction::Up)),
        Some(PlayerEvent::MouseUp { x: 7, y: 8 })
    );
    assert!(!d.pointer_down());
    assert_eq!(d.dispatch_touch_event(TouchEvent::new(9, 9, KeyAction::Up)), None);
}

#[test]
fn pointer_axis_scaling() {
    assert_eq!(scale_pointer_axis(POINTER_AXIS_MIN, 800), 0);
    assert_eq!(scale_pointer_axis(POINTER_AXIS_MAX, 800), 800 * SUBPIXELS_PER_PIXEL);
    assert_eq!(scale_pointer_axis(0, 2), SUBPIXELS_PER_PIXEL);
    assert_eq!(scale_pointer_axis(-32768, 10), 0);
    assert_eq!(scale_pointer_axis(i16::MIN, u32::MAX), 0);
    assert_eq!(scale_pointer_axis(100, 0), 0);
    assert_eq!(scale_pointer_axis(i16::MAX, u32::MAX), 65534 * u32::MAX as i64);
    let mut last = i64::MIN;
    assert_eq!(scale_pointer_axis(-32768, 1920), scale_pointer_axis(-32767, 1920));
    for raw in [-32767i16, -1000, -1, 0, 1, 5000, 32767] {
        let p = scale_pointer_axis(raw, 1920);
        assert!(p > last);
        last = p;
    }
}

#[test]
fn pointer_event_from_poll() {
    let e = TouchEvent::from_pointer(POINTER_AXIS_MAX, POINTER_AXIS_MIN, true, 640, 480);
    assert_eq!(e, TouchEvent::new(640 * SUBPIXELS_PER_PIXEL, 0, KeyAction::Down));
    let e = TouchEvent::from_pointer(i16::MIN, i16::MIN, true, 1, 1);
    assert_eq!(e, TouchEvent::new(0, 0, KeyAction::Down));
    let e = TouchEvent::from_pointer(0, 0, false, 640, 480);
    assert_eq!(e, TouchEvent::new(32767 * 640, 32767 * 480, KeyAction::Up));
}

#[test]
fn joypad_bitmask_decoding() {
    let events = joypad_events(0, (1 << RETRO_DEVICE_ID_JOYPAD_A) | (1 << RETRO_DEVICE_ID_JOYPAD_L));
    assert_eq!(events.len(), 12);
    assert_eq!(events[0], KeyEvent::gamepad(0, KEYCODE_BUTTON_A, KeyAction::Down));
    assert_eq!(events[1], KeyEvent::gamepad(0, KEYCODE_BUTTON_B, KeyAction::Up));
    assert_eq!(events[10], KeyEvent::gamepad(0, KEYCODE_BUTTON_L1, KeyAction::Down));
    assert_eq!(events[11], KeyEvent::gamepad(0, KEYCODE_BUTTON_R1, KeyAction::Up));
    assert!(events.iter().all(|e| e.source == InputSource::Gamepad && e.port == 0));
    let down = events.iter().filter(|e| e.action == KeyAction::Down).count();
    assert_eq!(down, 2);
}

#[test]
fn joypad_state_is_edge_triggered() {
    let mut d = InputDispatcher::new();
    let status = 1 << RETRO_DEVICE_ID_JOYPAD_B;
    assert_eq!(
        d.dispatch_joypad_state(0, status),
        vec![PlayerEvent::KeyDown { key: desc(KEYCODE_PERIOD) }]
    );
    assert_eq!(d.dispatch_joypad_state(0, status), vec![]);
    assert_eq!(
        d.dispatch_joypad_state(0, 0),
        vec![PlayerEvent::KeyUp { key: desc(KEYCODE_PERIOD) }]
    );
    assert_eq!(d.dispatch_joypad_state(0, 0), vec![]);
}

#[test]
fn joypad_state_on_second_port() {
    let mut d = InputDispatcher::new();
    let status = (1 << RETRO_DEVICE_ID_JOYPAD_A) | (1 << RETRO_DEVICE_ID_JOYPAD_L);
    assert_eq!(
        d.dispatch_joypad_state(1, status),
        vec![
            PlayerEvent::KeyDown { key: desc(KEYCODE_G) },
            PlayerEvent::KeyDown { key: desc(KEYCODE_7) },
        ]
    );
    assert_eq!(d.dispatch_joypad_state(0, 0), vec![]);
}

#[test]
fn key_event_text() {
    let e = KeyEvent::new(KEYCODE_A, KeyAction::Down);
    assert_eq!(e.to_string(), "KeyEvent: { key=A, action=Down }");
    let e = KeyEvent::gamepad(1, KEYCODE_BUTTON_A, KeyAction::Up);
    assert_eq!(e.to_string(), "KeyEvent: { key=Unknow, action=Up }");
}

#[test]
fn descriptors_of_routed_keys() {
    assert_eq!(
        desc(KEYCODE_COMMA),
        KeyDescriptor {
            physical_key: PhysicalKey::Comma,
            logical_key: LogicalKey::Character(','),
            key_location: KeyLocation::Standard,
        }
    );
    assert_eq!(
        desc(KEYCODE_DPAD_LEFT),
        KeyDescriptor {
            physical_key: PhysicalKey::ArrowLeft,
            logical_key: LogicalKey::Named(NamedKey::ArrowLeft),
            key_location: KeyLocation::Standard,
        }
    );
}
