use ruffle_android::action::KeyAction;
use ruffle_android::descriptor::keycode_as_descriptor;
use ruffle_android::input::{KeyEvent, PlayerEvent, TouchEvent, RETRO_DEVICE_ID_JOYPAD_START};
use ruffle_android::keycodes::{KEYCODE_ENTER, KEYCODE_SPACE};
use ruffle_android::session::{Phase, Session, SessionAction, SessionEvent};

#[test]
fn lifecycle_transitions() {
    let mut s = Session::new();
    assert_eq!(s.phase(), Phase::Uninitialized);
    assert!(!s.has_player());
    assert_eq!(s.handle_event(SessionEvent::DetachSurface), SessionAction::Nothing);
    assert_eq!(
        s.handle_event(SessionEvent::AdjustSurfaceSize { width: 10, height: 10 }),
        SessionAction::Nothing
    );
    assert_eq!(
        s.handle_event(SessionEvent::AttachSurface { width: 1080, height: 720 }),
        SessionAction::CreatePlayer { width: 1080, height: 720 }
    );
    assert_eq!(s.phase(), Phase::Running);
    assert_eq!(s.handle_event(SessionEvent::DetachSurface), SessionAction::Pause);
    assert_eq!(s.phase(), Phase::Paused);
    assert!(s.has_player());
    assert_eq!(
        s.handle_event(SessionEvent::AttachSurface { width: 720, height: 1080 }),
        SessionAction::RecreateSurface { width: 720, height: 1080 }
    );
    assert_eq!(s.phase(), Phase::Running);
    assert_eq!(
        s.handle_event(SessionEvent::AdjustSurfaceSize { width: 640, height: 480 }),
        SessionAction::SetViewport { width: 640, height: 480 }
    );
    assert_eq!(s.handle_event(SessionEvent::Kill), SessionAction::Exit);
    assert_eq!(s.phase(), Phase::Terminated);
    assert!(!s.has_player());
    assert_eq!(
        s.handle_event(SessionEvent::AttachSurface { width: 1, height: 1 }),
        SessionAction::Nothing
    );
    assert_eq!(s.handle_event(SessionEvent::Kill), SessionAction::Nothing);
}

#[test]
fn kill_before_any_surface() {
    let mut s = Session::new();
    assert_eq!(s.handle_event(SessionEvent::Kill), SessionAction::Exit);
    assert_eq!(s.phase(), Phase::Terminated);
}

#[test]
fn negative_viewport_size_wraps() {
    let mut s = Session::new();
    s.handle_event(SessionEvent::AttachSurface { width: 1, height: 1 });
    assert_eq!(
        s.handle_event(SessionEvent::AdjustSurfaceSize { width: -1, height: 2 }),
        SessionAction::SetViewport { width: u32::MAX, height: 2 }
    );
}

#[test]
fn keys_reach_the_player_only_once_it_exists() {
    let mut s = Session::new();
    let e = KeyEvent::new(KEYCODE_SPACE, KeyAction::Down);
    assert_eq!(s.handle_event(SessionEvent::HandleKeyEvent(e)), SessionAction::Nothing);
    s.handle_event(SessionEvent::AttachSurface { width: 1, height: 1 });
    let key = keycode_as_descriptor(KEYCODE_SPACE).unwrap();
    assert_eq!(
        s.handle_event(SessionEvent::HandleKeyEvent(e)),
        SessionAction::Emit(PlayerEvent::KeyDown { key })
    );
    let unknown = KeyEvent::new(9999, KeyAction::Down);
    assert_eq!(s.handle_event(SessionEvent::HandleKeyEvent(unknown)), SessionAction::Nothing);
}

#[test]
fn polling_through_the_session() {
    let mut s = Session::new();
    s.handle_event(SessionEvent::AttachSurface { width: 1, height: 1 });
    let key = keycode_as_descriptor(KEYCODE_ENTER).unwrap();
    assert_eq!(
        s.poll_joypad(0, 1 << RETRO_DEVICE_ID_JOYPAD_START),
        vec![PlayerEvent::KeyDown { key }]
    );
    assert_eq!(s.poll_joypad(0, 1 << RETRO_DEVICE_ID_JOYPAD_START), vec![]);
    assert_eq!(
        s.poll_pointer(TouchEvent::new(10, 20, KeyAction::Down)),
        Some(PlayerEvent::MouseDown { x: 10, y: 20 })
    );
    assert_eq!(s.phase(), Phase::Running);
}
