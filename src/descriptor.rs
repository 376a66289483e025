//! Key descriptors: what the player is told about a key, and the table that
//! gives one to each supported Android key code.
use vstd::prelude::*;

use crate::keycodes::{
    KEYCODE_0, KEYCODE_1, KEYCODE_2, KEYCODE_3, KEYCODE_4, KEYCODE_5, KEYCODE_6, KEYCODE_7,
    KEYCODE_8, KEYCODE_9, KEYCODE_A, KEYCODE_ALT_LEFT, KEYCODE_ALT_RIGHT, KEYCODE_APOSTROPHE,
    KEYCODE_B, KEYCODE_BACKSLASH, KEYCODE_BREAK, KEYCODE_C, KEYCODE_CAPS_LOCK, KEYCODE_COMMA,
    KEYCODE_CTRL_LEFT, KEYCODE_CTRL_RIGHT, KEYCODE_D, KEYCODE_DEL, KEYCODE_DPAD_DOWN,
    KEYCODE_DPAD_LEFT, KEYCODE_DPAD_RIGHT, KEYCODE_DPAD_UP, KEYCODE_E, KEYCODE_ENTER,
    KEYCODE_EQUALS, KEYCODE_ESCAPE, KEYCODE_F, KEYCODE_F1, KEYCODE_F10, KEYCODE_F11, KEYCODE_F12,
    KEYCODE_F2, KEYCODE_F3, KEYCODE_F4, KEYCODE_F5, KEYCODE_F6, KEYCODE_F7, KEYCODE_F8, KEYCODE_F9,
    KEYCODE_FORWARD_DEL, KEYCODE_G, KEYCODE_GRAVE, KEYCODE_H, KEYCODE_HOME, KEYCODE_I,
    KEYCODE_INSERT, KEYCODE_J, KEYCODE_K, KEYCODE_L, KEYCODE_LEFT_BRACKET, KEYCODE_M,
    KEYCODE_MEDIA_PAUSE, KEYCODE_MEDIA_PLAY, KEYCODE_META_LEFT, KEYCODE_META_RIGHT, KEYCODE_MINUS,
    KEYCODE_MOVE_END, KEYCODE_MOVE_HOME, KEYCODE_N, KEYCODE_NUMPAD_0, KEYCODE_NUMPAD_1,
    KEYCODE_NUMPAD_2, KEYCODE_NUMPAD_3, KEYCODE_NUMPAD_4, KEYCODE_NUMPAD_5, KEYCODE_NUMPAD_6,
    KEYCODE_NUMPAD_7, KEYCODE_NUMPAD_8, KEYCODE_NUMPAD_9, KEYCODE_NUMPAD_ADD, KEYCODE_NUMPAD_COMMA,
    KEYCODE_NUMPAD_DIVIDE, KEYCODE_NUMPAD_DOT, KEYCODE_NUMPAD_ENTER, KEYCODE_NUMPAD_EQUALS,
    KEYCODE_NUMPAD_MULTIPLY, KEYCODE_NUMPAD_SUBTRACT, KEYCODE_NUM_LOCK, KEYCODE_O, KEYCODE_P,
    KEYCODE_PAGE_DOWN, KEYCODE_PAGE_UP, KEYCODE_PERIOD, KEYCODE_Q, KEYCODE_R,
    KEYCODE_RIGHT_BRACKET, KEYCODE_S, KEYCODE_SCROLL_LOCK, KEYCODE_SEMICOLON, KEYCODE_SHIFT_LEFT,
    KEYCODE_SHIFT_RIGHT, KEYCODE_SLASH, KEYCODE_SPACE, KEYCODE_SYSRQ, KEYCODE_T, KEYCODE_TAB,
    KEYCODE_U, KEYCODE_V, KEYCODE_W, KEYCODE_X, KEYCODE_Y, KEYCODE_Z,
};

verus! {

/// Where a key sits on the keyboard, independent of layout.
#[derive(PartialEq, Eq, Structural, Clone, Copy, Debug)]
pub enum PhysicalKey {
    Home,
    Digit0,
    Digit1,
    Digit2,
    Digit3,
    Digit4,
    Digit5,
    Digit6,
    Digit7,
    Digit8,
    Digit9,
    ArrowUp,
    ArrowDown,
    ArrowLeft,
    ArrowRight,
    KeyA,
    KeyB,
    KeyC,
    KeyD,
    KeyE,
    KeyF,
    KeyG,
    KeyH,
    KeyI,
    KeyJ,
    KeyK,
    KeyL,
    KeyM,
    KeyN,
    KeyO,
    KeyP,
    KeyQ,
    KeyR,
    KeyS,
    KeyT,
    KeyU,
    KeyV,
    KeyW,
    KeyX,
    KeyY,
    KeyZ,
    Comma,
    Period,
    AltLeft,
    AltRight,
    ShiftLeft,
    ShiftRight,
    Tab,
    Space,
    Enter,
    Delete,
    Unknown,
    Minus,
    Equal,
    BracketLeft,
    BracketRight,
    Backslash,
    Semicolon,
    Slash,
    PageUp,
    PageDown,
    Escape,
    ControlLeft,
    ControlRight,
    CapsLock,
    ScrollLock,
    ContextMenu,
    PrintScreen,
    Pause,
    End,
    Insert,
    F1,
    F2,
    F3,
    F4,
    F5,
    F6,
    F7,
    F8,
    F9,
    F10,
    F11,
    F12,
    NumLock,
    Numpad0,
    Numpad1,
    Numpad2,
    Numpad3,
    Numpad4,
    Numpad5,
    Numpad6,
    Numpad7,
    Numpad8,
    Numpad9,
    NumpadDivide,
    NumpadMultiply,
    NumpadSubtract,
    NumpadAdd,
    NumpadComma,
    NumpadEnter,
}

/// A key that produces no character of its own.
#[derive(PartialEq, Eq, Structural, Clone, Copy, Debug)]
pub enum NamedKey {
    Home,
    ArrowUp,
    ArrowDown,
    ArrowLeft,
    ArrowRight,
    Alt,
    Shift,
    Tab,
    Enter,
    Delete,
    PageUp,
    PageDown,
    Escape,
    Control,
    CapsLock,
    ScrollLock,
    ContextMenu,
    PrintScreen,
    Pause,
    End,
    Insert,
    F1,
    F2,
    F3,
    F4,
    F5,
    F6,
    F7,
    F8,
    F9,
    F10,
    F11,
    F12,
    NumLock,
    Play,
}

/// What a key means once the layout is applied.
#[derive(PartialEq, Eq, Structural, Clone, Copy, Debug)]
pub enum LogicalKey {
    Named(NamedKey),
    Character(char),
    Unknown,
}

/// Which of several keys with one meaning was used.
#[derive(PartialEq, Eq, Structural, Clone, Copy, Debug)]
pub enum KeyLocation {
    Standard,
    Left,
    Right,
    Numpad,
}

/// The physical key, the logical key and the location that the player receives for a key.
#[derive(PartialEq, Eq, Structural, Clone, Copy, Debug)]
pub struct KeyDescriptor {
    pub physical_key: PhysicalKey,
    pub logical_key: LogicalKey,
    pub key_location: KeyLocation,
}

/// The descriptor that carries no information: unknown physical and logical key.
pub open spec fn placeholder_descriptor() -> KeyDescriptor {
    KeyDescriptor {
        physical_key: PhysicalKey::Unknown,
        logical_key: LogicalKey::Unknown,
        key_location: KeyLocation::Standard,
    }
}

/// The supported key codes, in the order in which the table lists them.
pub open spec fn supported_keycode_seq() -> Seq<i32> {
    seq![
        KEYCODE_HOME,
        KEYCODE_0,
        KEYCODE_1,
        KEYCODE_2,
        KEYCODE_3,
        KEYCODE_4,
        KEYCODE_5,
        KEYCODE_6,
        KEYCODE_7,
        KEYCODE_8,
        KEYCODE_9,
        KEYCODE_DPAD_UP,
        KEYCODE_DPAD_DOWN,
        KEYCODE_DPAD_LEFT,
        KEYCODE_DPAD_RIGHT,
        KEYCODE_A,
        KEYCODE_B,
        KEYCODE_C,
        KEYCODE_D,
        KEYCODE_E,
        KEYCODE_F,
        KEYCODE_G,
        KEYCODE_H,
        KEYCODE_I,
        KEYCODE_J,
        KEYCODE_K,
        KEYCODE_L,
        KEYCODE_M,
        KEYCODE_N,
        KEYCODE_O,
        KEYCODE_P,
        KEYCODE_Q,
        KEYCODE_R,
        KEYCODE_S,
        KEYCODE_T,
        KEYCODE_U,
        KEYCODE_V,
        KEYCODE_W,
        KEYCODE_X,
        KEYCODE_Y,
        KEYCODE_Z,
        KEYCODE_COMMA,
        KEYCODE_PERIOD,
        KEYCODE_ALT_LEFT,
        KEYCODE_ALT_RIGHT,
        KEYCODE_SHIFT_LEFT,
        KEYCODE_SHIFT_RIGHT,
        KEYCODE_TAB,
        KEYCODE_SPACE,
        KEYCODE_ENTER,
        KEYCODE_DEL,
        KEYCODE_GRAVE,
        KEYCODE_MINUS,
        KEYCODE_EQUALS,
        KEYCODE_LEFT_BRACKET,
        KEYCODE_RIGHT_BRACKET,
        KEYCODE_BACKSLASH,
        KEYCODE_SEMICOLON,
        KEYCODE_APOSTROPHE,
        KEYCODE_SLASH,
        KEYCODE_PAGE_UP,
        KEYCODE_PAGE_DOWN,
        KEYCODE_ESCAPE,
        KEYCODE_FORWARD_DEL,
        KEYCODE_CTRL_LEFT,
        KEYCODE_CTRL_RIGHT,
        KEYCODE_CAPS_LOCK,
        KEYCODE_SCROLL_LOCK,
        KEYCODE_META_LEFT,
        KEYCODE_META_RIGHT,
        KEYCODE_SYSRQ,
        KEYCODE_BREAK,
        KEYCODE_MOVE_HOME,
        KEYCODE_MOVE_END,
        KEYCODE_INSERT,
        KEYCODE_F1,
        KEYCODE_F2,
        KEYCODE_F3,
        KEYCODE_F4,
        KEYCODE_F5,
        KEYCODE_F6,
        KEYCODE_F7,
        KEYCODE_F8,
        KEYCODE_F9,
        KEYCODE_F10,
        KEYCODE_F11,
        KEYCODE_F12,
        KEYCODE_NUM_LOCK,
        KEYCODE_NUMPAD_0,
        KEYCODE_NUMPAD_1,
        KEYCODE_NUMPAD_2,
        KEYCODE_NUMPAD_3,
        KEYCODE_NUMPAD_4,
        KEYCODE_NUMPAD_5,
        KEYCODE_NUMPAD_6,
        KEYCODE_NUMPAD_7,
        KEYCODE_NUMPAD_8,
        KEYCODE_NUMPAD_9,
        KEYCODE_NUMPAD_DIVIDE,
        KEYCODE_NUMPAD_MULTIPLY,
        KEYCODE_NUMPAD_SUBTRACT,
        KEYCODE_NUMPAD_ADD,
        KEYCODE_NUMPAD_DOT,
        KEYCODE_NUMPAD_COMMA,
        KEYCODE_NUMPAD_ENTER,
        KEYCODE_NUMPAD_EQUALS,
        KEYCODE_MEDIA_PLAY,
        KEYCODE_MEDIA_PAUSE,
    ]
}

/// The descriptor table: the descriptor of each supported key code, and none for any other.
pub open spec fn descriptor_of(code: i32) -> Option<KeyDescriptor> {
    match code {
        KEYCODE_HOME => Some(KeyDescriptor { physical_key: PhysicalKey::Home, logical_key: LogicalKey::Named(NamedKey::Home), key_location: KeyLocation::Standard }),
        KEYCODE_0 => Some(KeyDescriptor { physical_key: PhysicalKey::Digit0, logical_key: LogicalKey::Character('0'), key_location: KeyLocation::Standard }),
        KEYCODE_1 => Some(KeyDescriptor { physical_key: PhysicalKey::Digit1, logical_key: LogicalKey::Character('1'), key_location: KeyLocation::Standard }),
        KEYCODE_2 => Some(KeyDescriptor { physical_key: PhysicalKey::Digit2, logical_key: LogicalKey::Character('2'), key_location: KeyLocation::Standard }),
        KEYCODE_3 => Some(KeyDescriptor { physical_key: PhysicalKey::Digit3, logical_key: LogicalKey::Character('3'), key_location: KeyLocation::Standard }),
        KEYCODE_4 => Some(KeyDescriptor { physical_key: PhysicalKey::Digit4, logical_key: LogicalKey::Character('4'), key_location: KeyLocation::Standard }),
        KEYCODE_5 => Some(KeyDescriptor { physical_key: PhysicalKey::Digit5, logical_key: LogicalKey::Character('5'), key_location: KeyLocation::Standard }),
        KEYCODE_6 => Some(KeyDescriptor { physical_key: PhysicalKey::Digit6, logical_key: LogicalKey::Character('6'), key_location: KeyLocation::Standard }),
        KEYCODE_7 => Some(KeyDescriptor { physical_key: PhysicalKey::Digit7, logical_key: LogicalKey::Character('7'), key_location: KeyLocation::Standard }),
        KEYCODE_8 => Some(KeyDescriptor { physical_key: PhysicalKey::Digit8, logical_key: LogicalKey::Character('8'), key_location: KeyLocation::Standard }),
        KEYCODE_9 => Some(KeyDescriptor { physical_key: PhysicalKey::Digit9, logical_key: LogicalKey::Character('9'), key_location: KeyLocation::Standard }),
        KEYCODE_DPAD_UP => Some(KeyDescriptor { physical_key: PhysicalKey::ArrowUp, logical_key: LogicalKey::Named(NamedKey::ArrowUp), key_location: KeyLocation::Standard }),
        KEYCODE_DPAD_DOWN => Some(KeyDescriptor { physical_key: PhysicalKey::ArrowDown, logical_key: LogicalKey::Named(NamedKey::ArrowDown), key_location: KeyLocation::Standard }),
        KEYCODE_DPAD_LEFT => Some(KeyDescriptor { physical_key: PhysicalKey::ArrowLeft, logical_key: LogicalKey::Named(NamedKey::ArrowLeft), key_location: KeyLocation::Standard }),
        KEYCODE_DPAD_RIGHT => Some(KeyDescriptor { physical_key: PhysicalKey::ArrowRight, logical_key: LogicalKey::Named(NamedKey::ArrowRight), key_location: KeyLocation::Standard }),
        KEYCODE_A => Some(KeyDescriptor { physical_key: PhysicalKey::KeyA, logical_key: LogicalKey::Character('a'), key_location: KeyLocation::Standard }),
        KEYCODE_B => Some(KeyDescriptor { physical_key: PhysicalKey::KeyB, logical_key: LogicalKey::Character('b'), key_location: KeyLocation::Standard }),
        KEYCODE_C => Some(KeyDescriptor { physical_key: PhysicalKey::KeyC, logical_key: LogicalKey::Character('c'), key_location: KeyLocation::Standard }),
        KEYCODE_D => Some(KeyDescriptor { physical_key: PhysicalKey::KeyD, logical_key: LogicalKey::Character('d'), key_location: KeyLocation::Standard }),
        KEYCODE_E => Some(KeyDescriptor { physical_key: PhysicalKey::KeyE, logical_key: LogicalKey::Character('e'), key_location: KeyLocation::Standard }),
        KEYCODE_F => Some(KeyDescriptor { physical_key: PhysicalKey::KeyF, logical_key: LogicalKey::Character('f'), key_location: KeyLocation::Standard }),
        KEYCODE_G => Some(KeyDescriptor { physical_key: PhysicalKey::KeyG, logical_key: LogicalKey::Character('g'), key_location: KeyLocation::Standard }),
        KEYCODE_H => Some(KeyDescriptor { physical_key: PhysicalKey::KeyH, logical_key: LogicalKey::Character('h'), key_location: KeyLocation::Standard }),
        KEYCODE_I => Some(KeyDescriptor { physical_key: PhysicalKey::KeyI, logical_key: LogicalKey::Character('i'), key_location: KeyLocation::Standard }),
        KEYCODE_J => Some(KeyDescriptor { physical_key: PhysicalKey::KeyJ, logical_key: LogicalKey::Character('j'), key_location: KeyLocation::Standard }),
        KEYCODE_K => Some(KeyDescriptor { physical_key: PhysicalKey::KeyK, logical_key: LogicalKey::Character('k'), key_location: KeyLocation::Standard }),
        KEYCODE_L => Some(KeyDescriptor { physical_key: PhysicalKey::KeyL, logical_key: LogicalKey::Character('l'), key_location: KeyLocation::Standard }),
        KEYCODE_M => Some(KeyDescriptor { physical_key: PhysicalKey::KeyM, logical_key: LogicalKey::Character('m'), key_location: KeyLocation::Standard }),
        KEYCODE_N => Some(KeyDescriptor { physical_key: PhysicalKey::KeyN, logical_key: LogicalKey::Character('n'), key_location: KeyLocation::Standard }),
        KEYCODE_O => Some(KeyDescriptor { physical_key: PhysicalKey::KeyO, logical_key: LogicalKey::Character('o'), key_location: KeyLocation::Standard }),
        KEYCODE_P => Some(KeyDescriptor { physical_key: PhysicalKey::KeyP, logical_key: LogicalKey::Character('p'), key_location: KeyLocation::Standard }),
        KEYCODE_Q => Some(KeyDescriptor { physical_key: PhysicalKey::KeyQ, logical_key: LogicalKey::Character('q'), key_location: KeyLocation::Standard }),
        KEYCODE_R => Some(KeyDescriptor { physical_key: PhysicalKey::KeyR, logical_key: LogicalKey::Character('r'), key_location: KeyLocation::Standard }),
        KEYCODE_S => Some(KeyDescriptor { physical_key: PhysicalKey::KeyS, logical_key: LogicalKey::Character('s'), key_location: KeyLocation::Standard }),
        KEYCODE_T => Some(KeyDescriptor { physical_key: PhysicalKey::KeyT, logical_key: LogicalKey::Character('t'), key_location: KeyLocation::Standard }),
        KEYCODE_U => Some(KeyDescriptor { physical_key: PhysicalKey::KeyU, logical_key: LogicalKey::Character('u'), key_location: KeyLocation::Standard }),
        KEYCODE_V => Some(KeyDescriptor { physical_key: PhysicalKey::KeyV, logical_key: LogicalKey::Character('v'), key_location: KeyLocation::Standard }),
        KEYCODE_W => Some(KeyDescriptor { physical_key: PhysicalKey::KeyW, logical_key: LogicalKey::Character('w'), key_location: KeyLocation::Standard }),
        KEYCODE_X => Some(KeyDescriptor { physical_key: PhysicalKey::KeyX, logical_key: LogicalKey::Character('x'), key_location: KeyLocation::Standard }),
        KEYCODE_Y => Some(KeyDescriptor { physical_key: PhysicalKey::KeyY, logical_key: LogicalKey::Character('y'), key_location: KeyLocation::Standard }),
        KEYCODE_Z => Some(KeyDescriptor { physical_key: PhysicalKey::KeyZ, logical_key: LogicalKey::Character('z'), key_location: KeyLocation::Standard }),
        KEYCODE_COMMA => Some(KeyDescriptor { physical_key: PhysicalKey::Comma, logical_key: LogicalKey::Character(','), key_location: KeyLocation::Standard }),
        KEYCODE_PERIOD => Some(KeyDescriptor { physical_key: PhysicalKey::Period, logical_key: LogicalKey::Character('.'), key_location: KeyLocation::Standard }),
        KEYCODE_ALT_LEFT => Some(KeyDescriptor { physical_key: PhysicalKey::AltLeft, logical_key: LogicalKey::Named(NamedKey::Alt), key_location: KeyLocation::Left }),
        KEYCODE_ALT_RIGHT => Some(KeyDescriptor { physical_key: PhysicalKey::AltRight, logical_key: LogicalKey::Named(NamedKey::Alt), key_location: KeyLocation::Right }),
        KEYCODE_SHIFT_LEFT => Some(KeyDescriptor { physical_key: PhysicalKey::ShiftLeft, logical_key: LogicalKey::Named(NamedKey::Shift), key_location: KeyLocation::Left }),
        KEYCODE_SHIFT_RIGHT => Some(KeyDescriptor { physical_key: PhysicalKey::ShiftRight, logical_key: LogicalKey::Named(NamedKey::Shift), key_location: KeyLocation::Right }),
        KEYCODE_TAB => Some(KeyDescriptor { physical_key: PhysicalKey::Tab, logical_key: LogicalKey::Named(NamedKey::Tab), key_location: KeyLocation::Standard }),
        KEYCODE_SPACE => Some(KeyDescriptor { physical_key: PhysicalKey::Space, logical_key: LogicalKey::Character(' '), key_location: KeyLocation::Standard }),
        KEYCODE_ENTER => Some(KeyDescriptor { physical_key: PhysicalKey::Enter, logical_key: LogicalKey::Named(NamedKey::Enter), key_location: KeyLocation::Standard }),
        KEYCODE_DEL => Some(KeyDescriptor { physical_key: PhysicalKey::Delete, logical_key: LogicalKey::Named(NamedKey::Delete), key_location: KeyLocation::Standard }),
        KEYCODE_GRAVE => Some(KeyDescriptor { physical_key: PhysicalKey::Unknown, logical_key: LogicalKey::Character('`'), key_location: KeyLocation::Standard }),
        KEYCODE_MINUS => Some(KeyDescriptor { physical_key: PhysicalKey::Minus, logical_key: LogicalKey::Character('-'), key_location: KeyLocation::Standard }),
        KEYCODE_EQUALS => Some(KeyDescriptor { physical_key: PhysicalKey::Equal, logical_key: LogicalKey::Character('='), key_location: KeyLocation::Standard }),
        KEYCODE_LEFT_BRACKET => Some(KeyDescriptor { physical_key: PhysicalKey::BracketLeft, logical_key: LogicalKey::Character('['), key_location: KeyLocation::Standard }),
        KEYCODE_RIGHT_BRACKET => Some(KeyDescriptor { physical_key: PhysicalKey::BracketRight, logical_key: LogicalKey::Character(']'), key_location: KeyLocation::Standard }),
        KEYCODE_BACKSLASH => Some(KeyDescriptor { physical_key: PhysicalKey::Backslash, logical_key: LogicalKey::Character('\\'), key_location: KeyLocation::Standard }),
        KEYCODE_SEMICOLON => Some(KeyDescriptor { physical_key: PhysicalKey::Semicolon, logical_key: LogicalKey::Character(';'), key_location: KeyLocation::Standard }),
        KEYCODE_APOSTROPHE => Some(KeyDescriptor { physical_key: PhysicalKey::Unknown, logical_key: LogicalKey::Character('\''), key_location: KeyLocation::Standard }),
        KEYCODE_SLASH => Some(KeyDescriptor { physical_key: PhysicalKey::Slash, logical_key: LogicalKey::Character('/'), key_location: KeyLocation::Standard }),
        KEYCODE_PAGE_UP => Some(KeyDescriptor { physical_key: PhysicalKey::PageUp, logical_key: LogicalKey::Named(NamedKey::PageUp), key_location: KeyLocation::Standard }),
        KEYCODE_PAGE_DOWN => Some(KeyDescriptor { physical_key: PhysicalKey::PageDown, logical_key: LogicalKey::Named(NamedKey::PageDown), key_location: KeyLocation::Standard }),
        KEYCODE_ESCAPE => Some(KeyDescriptor { physical_key: PhysicalKey::Escape, logical_key: LogicalKey::Named(NamedKey::Escape), key_location: KeyLocation::Standard }),
        KEYCODE_FORWARD_DEL => Some(KeyDescriptor { physical_key: PhysicalKey::Delete, logical_key: LogicalKey::Named(NamedKey::Delete), key_location: KeyLocation::Standard }),
        KEYCODE_CTRL_LEFT => Some(KeyDescriptor { physical_key: PhysicalKey::ControlLeft, logical_key: LogicalKey::Named(NamedKey::Control), key_location: KeyLocation::Left }),
        KEYCODE_CTRL_RIGHT => Some(KeyDescriptor { physical_key: PhysicalKey::ControlRight, logical_key: LogicalKey::Named(NamedKey::Control), key_location: KeyLocation::Right }),
        KEYCODE_CAPS_LOCK => Some(KeyDescriptor { physical_key: PhysicalKey::CapsLock, logical_key: LogicalKey::Named(NamedKey::CapsLock), key_location: KeyLocation::Standard }),
        KEYCODE_SCROLL_LOCK => Some(KeyDescriptor { physical_key: PhysicalKey::ScrollLock, logical_key: LogicalKey::Named(NamedKey::ScrollLock), key_location: KeyLocation::Standard }),
        KEYCODE_META_LEFT => Some(KeyDescriptor { physical_key: PhysicalKey::ContextMenu, logical_key: LogicalKey::Named(NamedKey::ContextMenu), key_location: KeyLocation::Left }),
        KEYCODE_META_RIGHT => Some(KeyDescriptor { physical_key: PhysicalKey::ContextMenu, logical_key: LogicalKey::Named(NamedKey::ContextMenu), key_location: KeyLocation::Right }),
        KEYCODE_SYSRQ => Some(KeyDescriptor { physical_key: PhysicalKey::PrintScreen, logical_key: LogicalKey::Named(NamedKey::PrintScreen), key_location: KeyLocation::Standard }),
        KEYCODE_BREAK => Some(KeyDescriptor { physical_key: PhysicalKey::Pause, logical_key: LogicalKey::Named(NamedKey::Pause), key_location: KeyLocation::Standard }),
        KEYCODE_MOVE_HOME => Some(KeyDescriptor { physical_key: PhysicalKey::Home, logical_key: LogicalKey::Named(NamedKey::Home), key_location: KeyLocation::Standard }),
        KEYCODE_MOVE_END => Some(KeyDescriptor { physical_key: PhysicalKey::End, logical_key: LogicalKey::Named(NamedKey::End), key_location: KeyLocation::Standard }),
        KEYCODE_INSERT => Some(KeyDescriptor { physical_key: PhysicalKey::Insert, logical_key: LogicalKey::Named(NamedKey::Insert), key_location: KeyLocation::Standard }),
        KEYCODE_F1 => Some(KeyDescriptor { physical_key: PhysicalKey::F1, logical_key: LogicalKey::Named(NamedKey::F1), key_location: KeyLocation::Standard }),
        KEYCODE_F2 => Some(KeyDescriptor { physical_key: PhysicalKey::F2, logical_key: LogicalKey::Named(NamedKey::F2), key_location: KeyLocation::Standard }),
        KEYCODE_F3 => Some(KeyDescriptor { physical_key: PhysicalKey::F3, logical_key: LogicalKey::Named(NamedKey::F3), key_location: KeyLocation::Standard }),
        KEYCODE_F4 => Some(KeyDescriptor { physical_key: PhysicalKey::F4, logical_key: LogicalKey::Named(NamedKey::F4), key_location: KeyLocation::Standard }),
        KEYCODE_F5 => Some(KeyDescriptor { physical_key: PhysicalKey::F5, logical_key: LogicalKey::Named(NamedKey::F5), key_location: KeyLocation::Standard }),
        KEYCODE_F6 => Some(KeyDescriptor { physical_key: PhysicalKey::F6, logical_key: LogicalKey::Named(NamedKey::F6), key_location: KeyLocation::Standard }),
        KEYCODE_F7 => Some(KeyDescriptor { physical_key: PhysicalKey::F7, logical_key: LogicalKey::Named(NamedKey::F7), key_location: KeyLocation::Standard }),
        KEYCODE_F8 => Some(KeyDescriptor { physical_key: PhysicalKey::F8, logical_key: LogicalKey::Named(NamedKey::F8), key_location: KeyLocation::Standard }),
        KEYCODE_F9 => Some(KeyDescriptor { physical_key: PhysicalKey::F9, logical_key: LogicalKey::Named(NamedKey::F9), key_location: KeyLocation::Standard }),
        KEYCODE_F10 => Some(KeyDescriptor { physical_key: PhysicalKey::F10, logical_key: LogicalKey::Named(NamedKey::F10), key_location: KeyLocation::Standard }),
        KEYCODE_F11 => Some(KeyDescriptor { physical_key: PhysicalKey::F11, logical_key: LogicalKey::Named(NamedKey::F11), key_location: KeyLocation::Standard }),
        KEYCODE_F12 => Some(KeyDescriptor { physical_key: PhysicalKey::F12, logical_key: LogicalKey::Named(NamedKey::F12), key_location: KeyLocation::Standard }),
        KEYCODE_NUM_LOCK => Some(KeyDescriptor { physical_key: PhysicalKey::NumLock, logical_key: LogicalKey::Named(NamedKey::NumLock), key_location: KeyLocation::Numpad }),
        KEYCODE_NUMPAD_0 => Some(KeyDescriptor { physical_key: PhysicalKey::Numpad0, logical_key: LogicalKey::Character('0'), key_location: KeyLocation::Numpad }),
        KEYCODE_NUMPAD_1 => Some(KeyDescriptor { physical_key: PhysicalKey::Numpad1, logical_key: LogicalKey::Character('1'), key_location: KeyLocation::Numpad }),
        KEYCODE_NUMPAD_2 => Some(KeyDescriptor { physical_key: PhysicalKey::Numpad2, logical_key: LogicalKey::Character('2'), key_location: KeyLocation::Numpad }),
        KEYCODE_NUMPAD_3 => Some(KeyDescriptor { physical_key: PhysicalKey::Numpad3, logical_key: LogicalKey::Character('3'), key_location: KeyLocation::Numpad }),
        KEYCODE_NUMPAD_4 => Some(KeyDescriptor { physical_key: PhysicalKey::Numpad4, logical_key: LogicalKey::Character('4'), key_location: KeyLocation::Numpad }),
        KEYCODE_NUMPAD_5 => Some(KeyDescriptor { physical_key: PhysicalKey::Numpad5, logical_key: LogicalKey::Character('5'), key_location: KeyLocation::Numpad }),
        KEYCODE_NUMPAD_6 => Some(KeyDescriptor { physical_key: PhysicalKey::Numpad6, logical_key: LogicalKey::Character('6'), key_location: KeyLocation::Numpad }),
        KEYCODE_NUMPAD_7 => Some(KeyDescriptor { physical_key: PhysicalKey::Numpad7, logical_key: LogicalKey::Character('7'), key_location: KeyLocation::Numpad }),
        KEYCODE_NUMPAD_8 => Some(KeyDescriptor { physical_key: PhysicalKey::Numpad8, logical_key: LogicalKey::Character('8'), key_location: KeyLocation::Numpad }),
        KEYCODE_NUMPAD_9 => Some(KeyDescriptor { physical_key: PhysicalKey::Numpad9, logical_key: LogicalKey::Character('9'), key_location: KeyLocation::Numpad }),
        KEYCODE_NUMPAD_DIVIDE => Some(KeyDescriptor { physical_key: PhysicalKey::NumpadDivide, logical_key: LogicalKey::Character('/'), key_location: KeyLocation::Numpad }),
        KEYCODE_NUMPAD_MULTIPLY => Some(KeyDescriptor { physical_key: PhysicalKey::NumpadMultiply, logical_key: LogicalKey::Character('*'), key_location: KeyLocation::Numpad }),
        KEYCODE_NUMPAD_SUBTRACT => Some(KeyDescriptor { physical_key: PhysicalKey::NumpadSubtract, logical_key: LogicalKey::Character('-'), key_location: KeyLocation::Numpad }),
        KEYCODE_NUMPAD_ADD => Some(KeyDescriptor { physical_key: PhysicalKey::NumpadAdd, logical_key: LogicalKey::Character('+'), key_location: KeyLocation::Numpad }),
        KEYCODE_NUMPAD_DOT => Some(KeyDescriptor { physical_key: PhysicalKey::Unknown, logical_key: LogicalKey::Character('.'), key_location: KeyLocation::Numpad }),
        KEYCODE_NUMPAD_COMMA => Some(KeyDescriptor { physical_key: PhysicalKey::NumpadComma, logical_key: LogicalKey::Character(','), key_location: KeyLocation::Numpad }),
        KEYCODE_NUMPAD_ENTER => Some(KeyDescriptor { physical_key: PhysicalKey::NumpadEnter, logical_key: LogicalKey::Named(NamedKey::Enter), key_location: KeyLocation::Numpad }),
        KEYCODE_NUMPAD_EQUALS => Some(KeyDescriptor { physical_key: PhysicalKey::Unknown, logical_key: LogicalKey::Character('='), key_location: KeyLocation::Numpad }),
        KEYCODE_MEDIA_PLAY => Some(KeyDescriptor { physical_key: PhysicalKey::Unknown, logical_key: LogicalKey::Named(NamedKey::Play), key_location: KeyLocation::Standard }),
        KEYCODE_MEDIA_PAUSE => Some(KeyDescriptor { physical_key: PhysicalKey::Unknown, logical_key: LogicalKey::Named(NamedKey::Pause), key_location: KeyLocation::Standard }),
        _ => None,
    }
}

/// The display name of a key code; `"Unknow"` for a code without one.
pub open spec fn keycode_name(code: i32) -> Seq<char> {
    match code {
        KEYCODE_HOME => "Home"@,
        KEYCODE_0 | KEYCODE_NUMPAD_0 => "0"@,
        KEYCODE_1 | KEYCODE_NUMPAD_1 => "1"@,
        KEYCODE_2 | KEYCODE_NUMPAD_2 => "2"@,
        KEYCODE_3 | KEYCODE_NUMPAD_3 => "3"@,
        KEYCODE_4 | KEYCODE_NUMPAD_4 => "4"@,
        KEYCODE_5 | KEYCODE_NUMPAD_5 => "5"@,
        KEYCODE_6 | KEYCODE_NUMPAD_6 => "6"@,
        KEYCODE_7 | KEYCODE_NUMPAD_7 => "7"@,
        KEYCODE_8 | KEYCODE_NUMPAD_8 => "8"@,
        KEYCODE_9 | KEYCODE_NUMPAD_9 => "9"@,
        KEYCODE_DPAD_UP => "ArrowUp"@,
        KEYCODE_DPAD_DOWN => "ArrowDown"@,
        KEYCODE_DPAD_LEFT => "ArrowLeft"@,
        KEYCODE_DPAD_RIGHT => "ArrowRight"@,
        KEYCODE_A => "A"@,
        KEYCODE_B => "B"@,
        KEYCODE_C => "C"@,
        KEYCODE_D => "D"@,
        KEYCODE_E => "E"@,
        KEYCODE_F => "F"@,
        KEYCODE_G => "G"@,
        KEYCODE_H => "H"@,
        KEYCODE_I => "I"@,
        KEYCODE_J => "J"@,
        KEYCODE_K => "K"@,
        KEYCODE_L => "L"@,
        KEYCODE_M => "M"@,
        KEYCODE_N => "N"@,
        KEYCODE_O => "O"@,
        KEYCODE_P => "P"@,
        KEYCODE_Q => "Q"@,
        KEYCODE_R => "R"@,
        KEYCODE_S => "S"@,
        KEYCODE_T => "T"@,
        KEYCODE_U => "U"@,
        KEYCODE_V => "V"@,
        KEYCODE_W => "W"@,
        KEYCODE_X => "X"@,
        KEYCODE_Y => "Y"@,
        KEYCODE_Z => "Z"@,
        KEYCODE_COMMA | KEYCODE_NUMPAD_COMMA => ","@,
        KEYCODE_PERIOD | KEYCODE_NUMPAD_DOT => "."@,
        KEYCODE_ALT_LEFT => "AltLeft"@,
        KEYCODE_ALT_RIGHT => "AltRight"@,
        KEYCODE_SHIFT_LEFT => "ShiftLeft"@,
        KEYCODE_SHIFT_RIGHT => "ShiftRight"@,
        KEYCODE_TAB => "Tab"@,
        KEYCODE_SPACE => "Space"@,
        KEYCODE_ENTER | KEYCODE_NUMPAD_ENTER => "Enter"@,
        KEYCODE_DEL => "Del"@,
        KEYCODE_GRAVE => "`"@,
        KEYCODE_MINUS | KEYCODE_NUMPAD_SUBTRACT => "-"@,
        KEYCODE_EQUALS | KEYCODE_NUMPAD_EQUALS => "="@,
        KEYCODE_LEFT_BRACKET => "["@,
        KEYCODE_RIGHT_BRACKET => "]"@,
        KEYCODE_BACKSLASH => "\\"@,
        KEYCODE_SEMICOLON => ";"@,
        KEYCODE_APOSTROPHE => "\'"@,
        KEYCODE_SLASH | KEYCODE_NUMPAD_DIVIDE => "/"@,
        KEYCODE_PAGE_UP => "PgDn"@,
        KEYCODE_PAGE_DOWN => "PgUp"@,
        KEYCODE_ESCAPE => "Escape"@,
        KEYCODE_FORWARD_DEL => "Del"@,
        KEYCODE_CTRL_LEFT => "CtrlLeft"@,
        KEYCODE_CTRL_RIGHT => "CtrlRight"@,
        KEYCODE_CAPS_LOCK => "CapsLock"@,
        KEYCODE_SCROLL_LOCK => "ScrollLock"@,
        KEYCODE_META_LEFT => "MetaLeft"@,
        KEYCODE_META_RIGHT => "MetaRight"@,
        KEYCODE_SYSRQ => "PrtSc"@,
        KEYCODE_BREAK => "Pause"@,
        KEYCODE_MOVE_HOME => "Home"@,
        KEYCODE_MOVE_END => "End"@,
        KEYCODE_INSERT => "Insert"@,
        KEYCODE_F1 => "F1"@,
        KEYCODE_F2 => "F2"@,
        KEYCODE_F3 => "F3"@,
        KEYCODE_F4 => "F4"@,
        KEYCODE_F5 => "F5"@,
        KEYCODE_F6 => "F6"@,
        KEYCODE_F7 => "F7"@,
        KEYCODE_F8 => "F8"@,
        KEYCODE_F9 => "F9"@,
        KEYCODE_F10 => "F10"@,
        KEYCODE_F11 => "F11"@,
        KEYCODE_F12 => "F12"@,
        KEYCODE_NUM_LOCK => "NumLock"@,
        KEYCODE_NUMPAD_MULTIPLY => "*"@,
        KEYCODE_NUMPAD_ADD => "+"@,
        KEYCODE_MEDIA_PLAY => "MediaPlay"@,
        KEYCODE_MEDIA_PAUSE => "MediaPause"@,
        _ => "Unknow"@,
    }
}

/// All supported key codes, in the order in which the table lists them.
pub fn supported_keycodes() -> (r: Vec<i32>)
    ensures
        r@ == supported_keycode_seq(),
{
    vec![
        KEYCODE_HOME,
        KEYCODE_0,
        KEYCODE_1,
        KEYCODE_2,
        KEYCODE_3,
        KEYCODE_4,
        KEYCODE_5,
        KEYCODE_6,
        KEYCODE_7,
        KEYCODE_8,
        KEYCODE_9,
        KEYCODE_DPAD_UP,
        KEYCODE_DPAD_DOWN,
        KEYCODE_DPAD_LEFT,
        KEYCODE_DPAD_RIGHT,
        KEYCODE_A,
        KEYCODE_B,
        KEYCODE_C,
        KEYCODE_D,
        KEYCODE_E,
        KEYCODE_F,
        KEYCODE_G,
        KEYCODE_H,
        KEYCODE_I,
        KEYCODE_J,
        KEYCODE_K,
        KEYCODE_L,
        KEYCODE_M,
        KEYCODE_N,
        KEYCODE_O,
        KEYCODE_P,
        KEYCODE_Q,
        KEYCODE_R,
        KEYCODE_S,
        KEYCODE_T,
        KEYCODE_U,
        KEYCODE_V,
        KEYCODE_W,
        KEYCODE_X,
        KEYCODE_Y,
        KEYCODE_Z,
        KEYCODE_COMMA,
        KEYCODE_PERIOD,
        KEYCODE_ALT_LEFT,
        KEYCODE_ALT_RIGHT,
        KEYCODE_SHIFT_LEFT,
        KEYCODE_SHIFT_RIGHT,
        KEYCODE_TAB,
        KEYCODE_SPACE,
        KEYCODE_ENTER,
        KEYCODE_DEL,
        KEYCODE_GRAVE,
        KEYCODE_MINUS,
        KEYCODE_EQUALS,
        KEYCODE_LEFT_BRACKET,
        KEYCODE_RIGHT_BRACKET,
        KEYCODE_BACKSLASH,
        KEYCODE_SEMICOLON,
        KEYCODE_APOSTROPHE,
        KEYCODE_SLASH,
        KEYCODE_PAGE_UP,
        KEYCODE_PAGE_DOWN,
        KEYCODE_ESCAPE,
        KEYCODE_FORWARD_DEL,
        KEYCODE_CTRL_LEFT,
        KEYCODE_CTRL_RIGHT,
        KEYCODE_CAPS_LOCK,
        KEYCODE_SCROLL_LOCK,
        KEYCODE_META_LEFT,
        KEYCODE_META_RIGHT,
        KEYCODE_SYSRQ,
        KEYCODE_BREAK,
        KEYCODE_MOVE_HOME,
        KEYCODE_MOVE_END,
        KEYCODE_INSERT,
        KEYCODE_F1,
        KEYCODE_F2,
        KEYCODE_F3,
        KEYCODE_F4,
        KEYCODE_F5,
        KEYCODE_F6,
        KEYCODE_F7,
        KEYCODE_F8,
        KEYCODE_F9,
        KEYCODE_F10,
        KEYCODE_F11,
        KEYCODE_F12,
        KEYCODE_NUM_LOCK,
        KEYCODE_NUMPAD_0,
        KEYCODE_NUMPAD_1,
        KEYCODE_NUMPAD_2,
        KEYCODE_NUMPAD_3,
        KEYCODE_NUMPAD_4,
        KEYCODE_NUMPAD_5,
        KEYCODE_NUMPAD_6,
        KEYCODE_NUMPAD_7,
        KEYCODE_NUMPAD_8,
        KEYCODE_NUMPAD_9,
        KEYCODE_NUMPAD_DIVIDE,
        KEYCODE_NUMPAD_MULTIPLY,
        KEYCODE_NUMPAD_SUBTRACT,
        KEYCODE_NUMPAD_ADD,
        KEYCODE_NUMPAD_DOT,
        KEYCODE_NUMPAD_COMMA,
        KEYCODE_NUMPAD_ENTER,
        KEYCODE_NUMPAD_EQUALS,
        KEYCODE_MEDIA_PLAY,
        KEYCODE_MEDIA_PAUSE,
    ]
}

/// The descriptor of `code`, or `None` where the table has no entry for it.
pub fn keycode_as_descriptor(code: i32) -> (r: Option<KeyDescriptor>)
    ensures
        r == descriptor_of(code),
{
    match code {
        KEYCODE_HOME => Some(KeyDescriptor { physical_key: PhysicalKey::Home, logical_key: LogicalKey::Named(NamedKey::Home), key_location: KeyLocation::Standard }),
        KEYCODE_0 => Some(KeyDescriptor { physical_key: PhysicalKey::Digit0, logical_key: LogicalKey::Character('0'), key_location: KeyLocation::Standard }),
        KEYCODE_1 => Some(KeyDescriptor { physical_key: PhysicalKey::Digit1, logical_key: LogicalKey::Character('1'), key_location: KeyLocation::Standard }),
        KEYCODE_2 => Some(KeyDescriptor { physical_key: PhysicalKey::Digit2, logical_key: LogicalKey::Character('2'), key_location: KeyLocation::Standard }),
        KEYCODE_3 => Some(KeyDescriptor { physical_key: PhysicalKey::Digit3, logical_key: LogicalKey::Character('3'), key_location: KeyLocation::Standard }),
        KEYCODE_4 => Some(KeyDescriptor { physical_key: PhysicalKey::Digit4, logical_key: LogicalKey::Character('4'), key_location: KeyLocation::Standard }),
        KEYCODE_5 => Some(KeyDescriptor { physical_key: PhysicalKey::Digit5, logical_key: LogicalKey::Character('5'), key_location: KeyLocation::Standard }),
        KEYCODE_6 => Some(KeyDescriptor { physical_key: PhysicalKey::Digit6, logical_key: LogicalKey::Character('6'), key_location: KeyLocation::Standard }),
        KEYCODE_7 => Some(KeyDescriptor { physical_key: PhysicalKey::Digit7, logical_key: LogicalKey::Character('7'), key_location: KeyLocation::Standard }),
        KEYCODE_8 => Some(KeyDescriptor { physical_key: PhysicalKey::Digit8, logical_key: LogicalKey::Character('8'), key_location: KeyLocation::Standard }),
        KEYCODE_9 => Some(KeyDescriptor { physical_key: PhysicalKey::Digit9, logical_key: LogicalKey::Character('9'), key_location: KeyLocation::Standard }),
        KEYCODE_DPAD_UP => Some(KeyDescriptor { physical_key: PhysicalKey::ArrowUp, logical_key: LogicalKey::Named(NamedKey::ArrowUp), key_location: KeyLocation::Standard }),
        KEYCODE_DPAD_DOWN => Some(KeyDescriptor { physical_key: PhysicalKey::ArrowDown, logical_key: LogicalKey::Named(NamedKey::ArrowDown), key_location: KeyLocation::Standard }),
        KEYCODE_DPAD_LEFT => Some(KeyDescriptor { physical_key: PhysicalKey::ArrowLeft, logical_key: LogicalKey::Named(NamedKey::ArrowLeft), key_location: KeyLocation::Standard }),
        KEYCODE_DPAD_RIGHT => Some(KeyDescriptor { physical_key: PhysicalKey::ArrowRight, logical_key: LogicalKey::Named(NamedKey::ArrowRight), key_location: KeyLocation::Standard }),
        KEYCODE_A => Some(KeyDescriptor { physical_key: PhysicalKey::KeyA, logical_key: LogicalKey::Character('a'), key_location: KeyLocation::Standard }),
        KEYCODE_B => Some(KeyDescriptor { physical_key: PhysicalKey::KeyB, logical_key: LogicalKey::Character('b'), key_location: KeyLocation::Standard }),
        KEYCODE_C => Some(KeyDescriptor { physical_key: PhysicalKey::KeyC, logical_key: LogicalKey::Character('c'), key_location: KeyLocation::Standard }),
        KEYCODE_D => Some(KeyDescriptor { physical_key: PhysicalKey::KeyD, logical_key: LogicalKey::Character('d'), key_location: KeyLocation::Standard }),
        KEYCODE_E => Some(KeyDescriptor { physical_key: PhysicalKey::KeyE, logical_key: LogicalKey::Character('e'), key_location: KeyLocation::Standard }),
        KEYCODE_F => Some(KeyDescriptor { physical_key: PhysicalKey::KeyF, logical_key: LogicalKey::Character('f'), key_location: KeyLocation::Standard }),
        KEYCODE_G => Some(KeyDescriptor { physical_key: PhysicalKey::KeyG, logical_key: LogicalKey::Character('g'), key_location: KeyLocation::Standard }),
        KEYCODE_H => Some(KeyDescriptor { physical_key: PhysicalKey::KeyH, logical_key: LogicalKey::Character('h'), key_location: KeyLocation::Standard }),
        KEYCODE_I => Some(KeyDescriptor { physical_key: PhysicalKey::KeyI, logical_key: LogicalKey::Character('i'), key_location: KeyLocation::Standard }),
        KEYCODE_J => Some(KeyDescriptor { physical_key: PhysicalKey::KeyJ, logical_key: LogicalKey::Character('j'), key_location: KeyLocation::Standard }),
        KEYCODE_K => Some(KeyDescriptor { physical_key: PhysicalKey::KeyK, logical_key: LogicalKey::Character('k'), key_location: KeyLocation::Standard }),
        KEYCODE_L => Some(KeyDescriptor { physical_key: PhysicalKey::KeyL, logical_key: LogicalKey::Character('l'), key_location: KeyLocation::Standard }),
        KEYCODE_M => Some(KeyDescriptor { physical_key: PhysicalKey::KeyM, logical_key: LogicalKey::Character('m'), key_location: KeyLocation::Standard }),
        KEYCODE_N => Some(KeyDescriptor { physical_key: PhysicalKey::KeyN, logical_key: LogicalKey::Character('n'), key_location: KeyLocation::Standard }),
        KEYCODE_O => Some(KeyDescriptor { physical_key: PhysicalKey::KeyO, logical_key: LogicalKey::Character('o'), key_location: KeyLocation::Standard }),
        KEYCODE_P => Some(KeyDescriptor { physical_key: PhysicalKey::KeyP, logical_key: LogicalKey::Character('p'), key_location: KeyLocation::Standard }),
        KEYCODE_Q => Some(KeyDescriptor { physical_key: PhysicalKey::KeyQ, logical_key: LogicalKey::Character('q'), key_location: KeyLocation::Standard }),
        KEYCODE_R => Some(KeyDescriptor { physical_key: PhysicalKey::KeyR, logical_key: LogicalKey::Character('r'), key_location: KeyLocation::Standard }),
        KEYCODE_S => Some(KeyDescriptor { physical_key: PhysicalKey::KeyS, logical_key: LogicalKey::Character('s'), key_location: KeyLocation::Standard }),
        KEYCODE_T => Some(KeyDescriptor { physical_key: PhysicalKey::KeyT, logical_key: LogicalKey::Character('t'), key_location: KeyLocation::Standard }),
        KEYCODE_U => Some(KeyDescriptor { physical_key: PhysicalKey::KeyU, logical_key: LogicalKey::Character('u'), key_location: KeyLocation::Standard }),
        KEYCODE_V => Some(KeyDescriptor { physical_key: PhysicalKey::KeyV, logical_key: LogicalKey::Character('v'), key_location: KeyLocation::Standard }),
        KEYCODE_W => Some(KeyDescriptor { physical_key: PhysicalKey::KeyW, logical_key: LogicalKey::Character('w'), key_location: KeyLocation::Standard }),
        KEYCODE_X => Some(KeyDescriptor { physical_key: PhysicalKey::KeyX, logical_key: LogicalKey::Character('x'), key_location: KeyLocation::Standard }),
        KEYCODE_Y => Some(KeyDescriptor { physical_key: PhysicalKey::KeyY, logical_key: LogicalKey::Character('y'), key_location: KeyLocation::Standard }),
        KEYCODE_Z => Some(KeyDescriptor { physical_key: PhysicalKey::KeyZ, logical_key: LogicalKey::Character('z'), key_location: KeyLocation::Standard }),
        KEYCODE_COMMA => Some(KeyDescriptor { physical_key: PhysicalKey::Comma, logical_key: LogicalKey::Character(','), key_location: KeyLocation::Standard }),
        KEYCODE_PERIOD => Some(KeyDescriptor { physical_key: PhysicalKey::Period, logical_key: LogicalKey::Character('.'), key_location: KeyLocation::Standard }),
        KEYCODE_ALT_LEFT => Some(KeyDescriptor { physical_key: PhysicalKey::AltLeft, logical_key: LogicalKey::Named(NamedKey::Alt), key_location: KeyLocation::Left }),
        KEYCODE_ALT_RIGHT => Some(KeyDescriptor { physical_key: PhysicalKey::AltRight, logical_key: LogicalKey::Named(NamedKey::Alt), key_location: KeyLocation::Right }),
        KEYCODE_SHIFT_LEFT => Some(KeyDescriptor { physical_key: PhysicalKey::ShiftLeft, logical_key: LogicalKey::Named(NamedKey::Shift), key_location: KeyLocation::Left }),
        KEYCODE_SHIFT_RIGHT => Some(KeyDescriptor { physical_key: PhysicalKey::ShiftRight, logical_key: LogicalKey::Named(NamedKey::Shift), key_location: KeyLocation::Right }),
        KEYCODE_TAB => Some(KeyDescriptor { physical_key: PhysicalKey::Tab, logical_key: LogicalKey::Named(NamedKey::Tab), key_location: KeyLocation::Standard }),
        KEYCODE_SPACE => Some(KeyDescriptor { physical_key: PhysicalKey::Space, logical_key: LogicalKey::Character(' '), key_location: KeyLocation::Standard }),
        KEYCODE_ENTER => Some(KeyDescriptor { physical_key: PhysicalKey::Enter, logical_key: LogicalKey::Named(NamedKey::Enter), key_location: KeyLocation::Standard }),
        KEYCODE_DEL => Some(KeyDescriptor { physical_key: PhysicalKey::Delete, logical_key: LogicalKey::Named(NamedKey::Delete), key_location: KeyLocation::Standard }),
        KEYCODE_GRAVE => Some(KeyDescriptor { physical_key: PhysicalKey::Unknown, logical_key: LogicalKey::Character('`'), key_location: KeyLocation::Standard }),
        KEYCODE_MINUS => Some(KeyDescriptor { physical_key: PhysicalKey::Minus, logical_key: LogicalKey::Character('-'), key_location: KeyLocation::Standard }),
        KEYCODE_EQUALS => Some(KeyDescriptor { physical_key: PhysicalKey::Equal, logical_key: LogicalKey::Character('='), key_location: KeyLocation::Standard }),
        KEYCODE_LEFT_BRACKET => Some(KeyDescriptor { physical_key: PhysicalKey::BracketLeft, logical_key: LogicalKey::Character('['), key_location: KeyLocation::Standard }),
        KEYCODE_RIGHT_BRACKET => Some(KeyDescriptor { physical_key: PhysicalKey::BracketRight, logical_key: LogicalKey::Character(']'), key_location: KeyLocation::Standard }),
        KEYCODE_BACKSLASH => Some(KeyDescriptor { physical_key: PhysicalKey::Backslash, logical_key: LogicalKey::Character('\\'), key_location: KeyLocation::Standard }),
        KEYCODE_SEMICOLON => Some(KeyDescriptor { physical_key: PhysicalKey::Semicolon, logical_key: LogicalKey::Character(';'), key_location: KeyLocation::Standard }),
        KEYCODE_APOSTROPHE => Some(KeyDescriptor { physical_key: PhysicalKey::Unknown, logical_key: LogicalKey::Character('\''), key_location: KeyLocation::Standard }),
        KEYCODE_SLASH => Some(KeyDescriptor { physical_key: PhysicalKey::Slash, logical_key: LogicalKey::Character('/'), key_location: KeyLocation::Standard }),
        KEYCODE_PAGE_UP => Some(KeyDescriptor { physical_key: PhysicalKey::PageUp, logical_key: LogicalKey::Named(NamedKey::PageUp), key_location: KeyLocation::Standard }),
        KEYCODE_PAGE_DOWN => Some(KeyDescriptor { physical_key: PhysicalKey::PageDown, logical_key: LogicalKey::Named(NamedKey::PageDown), key_location: KeyLocation::Standard }),
        KEYCODE_ESCAPE => Some(KeyDescriptor { physical_key: PhysicalKey::Escape, logical_key: LogicalKey::Named(NamedKey::Escape), key_location: KeyLocation::Standard }),
        KEYCODE_FORWARD_DEL => Some(KeyDescriptor { physical_key: PhysicalKey::Delete, logical_key: LogicalKey::Named(NamedKey::Delete), key_location: KeyLocation::Standard }),
        KEYCODE_CTRL_LEFT => Some(KeyDescriptor { physical_key: PhysicalKey::ControlLeft, logical_key: LogicalKey::Named(NamedKey::Control), key_location: KeyLocation::Left }),
        KEYCODE_CTRL_RIGHT => Some(KeyDescriptor { physical_key: PhysicalKey::ControlRight, logical_key: LogicalKey::Named(NamedKey::Control), key_location: KeyLocation::Right }),
        KEYCODE_CAPS_LOCK => Some(KeyDescriptor { physical_key: PhysicalKey::CapsLock, logical_key: LogicalKey::Named(NamedKey::CapsLock), key_location: KeyLocation::Standard }),
        KEYCODE_SCROLL_LOCK => Some(KeyDescriptor { physical_key: PhysicalKey::ScrollLock, logical_key: LogicalKey::Named(NamedKey::ScrollLock), key_location: KeyLocation::Standard }),
        KEYCODE_META_LEFT => Some(KeyDescriptor { physical_key: PhysicalKey::ContextMenu, logical_key: LogicalKey::Named(NamedKey::ContextMenu), key_location: KeyLocation::Left }),
        KEYCODE_META_RIGHT => Some(KeyDescriptor { physical_key: PhysicalKey::ContextMenu, logical_key: LogicalKey::Named(NamedKey::ContextMenu), key_location: KeyLocation::Right }),
        KEYCODE_SYSRQ => Some(KeyDescriptor { physical_key: PhysicalKey::PrintScreen, logical_key: LogicalKey::Named(NamedKey::PrintScreen), key_location: KeyLocation::Standard }),
        KEYCODE_BREAK => Some(KeyDescriptor { physical_key: PhysicalKey::Pause, logical_key: LogicalKey::Named(NamedKey::Pause), key_location: KeyLocation::Standard }),
        KEYCODE_MOVE_HOME => Some(KeyDescriptor { physical_key: PhysicalKey::Home, logical_key: LogicalKey::Named(NamedKey::Home), key_location: KeyLocation::Standard }),
        KEYCODE_MOVE_END => Some(KeyDescriptor { physical_key: PhysicalKey::End, logical_key: LogicalKey::Named(NamedKey::End), key_location: KeyLocation::Standard }),
        KEYCODE_INSERT => Some(KeyDescriptor { physical_key: PhysicalKey::Insert, logical_key: LogicalKey::Named(NamedKey::Insert), key_location: KeyLocation::Standard }),
        KEYCODE_F1 => Some(KeyDescriptor { physical_key: PhysicalKey::F1, logical_key: LogicalKey::Named(NamedKey::F1), key_location: KeyLocation::Standard }),
        KEYCODE_F2 => Some(KeyDescriptor { physical_key: PhysicalKey::F2, logical_key: LogicalKey::Named(NamedKey::F2), key_location: KeyLocation::Standard }),
        KEYCODE_F3 => Some(KeyDescriptor { physical_key: PhysicalKey::F3, logical_key: LogicalKey::Named(NamedKey::F3), key_location: KeyLocation::Standard }),
        KEYCODE_F4 => Some(KeyDescriptor { physical_key: PhysicalKey::F4, logical_key: LogicalKey::Named(NamedKey::F4), key_location: KeyLocation::Standard }),
        KEYCODE_F5 => Some(KeyDescriptor { physical_key: PhysicalKey::F5, logical_key: LogicalKey::Named(NamedKey::F5), key_location: KeyLocation::Standard }),
        KEYCODE_F6 => Some(KeyDescriptor { physical_key: PhysicalKey::F6, logical_key: LogicalKey::Named(NamedKey::F6), key_location: KeyLocation::Standard }),
        KEYCODE_F7 => Some(KeyDescriptor { physical_key: PhysicalKey::F7, logical_key: LogicalKey::Named(NamedKey::F7), key_location: KeyLocation::Standard }),
        KEYCODE_F8 => Some(KeyDescriptor { physical_key: PhysicalKey::F8, logical_key: LogicalKey::Named(NamedKey::F8), key_location: KeyLocation::Standard }),
        KEYCODE_F9 => Some(KeyDescriptor { physical_key: PhysicalKey::F9, logical_key: LogicalKey::Named(NamedKey::F9), key_location: KeyLocation::Standard }),
        KEYCODE_F10 => Some(KeyDescriptor { physical_key: PhysicalKey::F10, logical_key: LogicalKey::Named(NamedKey::F10), key_location: KeyLocation::Standard }),
        KEYCODE_F11 => Some(KeyDescriptor { physical_key: PhysicalKey::F11, logical_key: LogicalKey::Named(NamedKey::F11), key_location: KeyLocation::Standard }),
        KEYCODE_F12 => Some(KeyDescriptor { physical_key: PhysicalKey::F12, logical_key: LogicalKey::Named(NamedKey::F12), key_location: KeyLocation::Standard }),
        KEYCODE_NUM_LOCK => Some(KeyDescriptor { physical_key: PhysicalKey::NumLock, logical_key: LogicalKey::Named(NamedKey::NumLock), key_location: KeyLocation::Numpad }),
        KEYCODE_NUMPAD_0 => Some(KeyDescriptor { physical_key: PhysicalKey::Numpad0, logical_key: LogicalKey::Character('0'), key_location: KeyLocation::Numpad }),
        KEYCODE_NUMPAD_1 => Some(KeyDescriptor { physical_key: PhysicalKey::Numpad1, logical_key: LogicalKey::Character('1'), key_location: KeyLocation::Numpad }),
        KEYCODE_NUMPAD_2 => Some(KeyDescriptor { physical_key: PhysicalKey::Numpad2, logical_key: LogicalKey::Character('2'), key_location: KeyLocation::Numpad }),
        KEYCODE_NUMPAD_3 => Some(KeyDescriptor { physical_key: PhysicalKey::Numpad3, logical_key: LogicalKey::Character('3'), key_location: KeyLocation::Numpad }),
        KEYCODE_NUMPAD_4 => Some(KeyDescriptor { physical_key: PhysicalKey::Numpad4, logical_key: LogicalKey::Character('4'), key_location: KeyLocation::Numpad }),
        KEYCODE_NUMPAD_5 => Some(KeyDescriptor { physical_key: PhysicalKey::Numpad5, logical_key: LogicalKey::Character('5'), key_location: KeyLocation::Numpad }),
        KEYCODE_NUMPAD_6 => Some(KeyDescriptor { physical_key: PhysicalKey::Numpad6, logical_key: LogicalKey::Character('6'), key_location: KeyLocation::Numpad }),
        KEYCODE_NUMPAD_7 => Some(KeyDescriptor { physical_key: PhysicalKey::Numpad7, logical_key: LogicalKey::Character('7'), key_location: KeyLocation::Numpad }),
        KEYCODE_NUMPAD_8 => Some(KeyDescriptor { physical_key: PhysicalKey::Numpad8, logical_key: LogicalKey::Character('8'), key_location: KeyLocation::Numpad }),
        KEYCODE_NUMPAD_9 => Some(KeyDescriptor { physical_key: PhysicalKey::Numpad9, logical_key: LogicalKey::Character('9'), key_location: KeyLocation::Numpad }),
        KEYCODE_NUMPAD_DIVIDE => Some(KeyDescriptor { physical_key: PhysicalKey::NumpadDivide, logical_key: LogicalKey::Character('/'), key_location: KeyLocation::Numpad }),
        KEYCODE_NUMPAD_MULTIPLY => Some(KeyDescriptor { physical_key: PhysicalKey::NumpadMultiply, logical_key: LogicalKey::Character('*'), key_location: KeyLocation::Numpad }),
        KEYCODE_NUMPAD_SUBTRACT => Some(KeyDescriptor { physical_key: PhysicalKey::NumpadSubtract, logical_key: LogicalKey::Character('-'), key_location: KeyLocation::Numpad }),
        KEYCODE_NUMPAD_ADD => Some(KeyDescriptor { physical_key: PhysicalKey::NumpadAdd, logical_key: LogicalKey::Character('+'), key_location: KeyLocation::Numpad }),
        KEYCODE_NUMPAD_DOT => Some(KeyDescriptor { physical_key: PhysicalKey::Unknown, logical_key: LogicalKey::Character('.'), key_location: KeyLocation::Numpad }),
        KEYCODE_NUMPAD_COMMA => Some(KeyDescriptor { physical_key: PhysicalKey::NumpadComma, logical_key: LogicalKey::Character(','), key_location: KeyLocation::Numpad }),
        KEYCODE_NUMPAD_ENTER => Some(KeyDescriptor { physical_key: PhysicalKey::NumpadEnter, logical_key: LogicalKey::Named(NamedKey::Enter), key_location: KeyLocation::Numpad }),
        KEYCODE_NUMPAD_EQUALS => Some(KeyDescriptor { physical_key: PhysicalKey::Unknown, logical_key: LogicalKey::Character('='), key_location: KeyLocation::Numpad }),
        KEYCODE_MEDIA_PLAY => Some(KeyDescriptor { physical_key: PhysicalKey::Unknown, logical_key: LogicalKey::Named(NamedKey::Play), key_location: KeyLocation::Standard }),
        KEYCODE_MEDIA_PAUSE => Some(KeyDescriptor { physical_key: PhysicalKey::Unknown, logical_key: LogicalKey::Named(NamedKey::Pause), key_location: KeyLocation::Standard }),
        _ => None,
    }
}

/// The display name of `code`.
pub fn keycode_as_string(code: i32) -> (r: &'static str)
    ensures
        r@ == keycode_name(code),
{
    match code {
        KEYCODE_HOME => "Home",
        KEYCODE_0 | KEYCODE_NUMPAD_0 => "0",
        KEYCODE_1 | KEYCODE_NUMPAD_1 => "1",
        KEYCODE_2 | KEYCODE_NUMPAD_2 => "2",
        KEYCODE_3 | KEYCODE_NUMPAD_3 => "3",
        KEYCODE_4 | KEYCODE_NUMPAD_4 => "4",
        KEYCODE_5 | KEYCODE_NUMPAD_5 => "5",
        KEYCODE_6 | KEYCODE_NUMPAD_6 => "6",
        KEYCODE_7 | KEYCODE_NUMPAD_7 => "7",
        KEYCODE_8 | KEYCODE_NUMPAD_8 => "8",
        KEYCODE_9 | KEYCODE_NUMPAD_9 => "9",
        KEYCODE_DPAD_UP => "ArrowUp",
        KEYCODE_DPAD_DOWN => "ArrowDown",
        KEYCODE_DPAD_LEFT => "ArrowLeft",
        KEYCODE_DPAD_RIGHT => "ArrowRight",
        KEYCODE_A => "A",
        KEYCODE_B => "B",
        KEYCODE_C => "C",
        KEYCODE_D => "D",
        KEYCODE_E => "E",
        KEYCODE_F => "F",
        KEYCODE_G => "G",
        KEYCODE_H => "H",
        KEYCODE_I => "I",
        KEYCODE_J => "J",
        KEYCODE_K => "K",
        KEYCODE_L => "L",
        KEYCODE_M => "M",
        KEYCODE_N => "N",
        KEYCODE_O => "O",
        KEYCODE_P => "P",
        KEYCODE_Q => "Q",
        KEYCODE_R => "R",
        KEYCODE_S => "S",
        KEYCODE_T => "T",
        KEYCODE_U => "U",
        KEYCODE_V => "V",
        KEYCODE_W => "W",
        KEYCODE_X => "X",
        KEYCODE_Y => "Y",
        KEYCODE_Z => "Z",
        KEYCODE_COMMA | KEYCODE_NUMPAD_COMMA => ",",
        KEYCODE_PERIOD | KEYCODE_NUMPAD_DOT => ".",
        KEYCODE_ALT_LEFT => "AltLeft",
        KEYCODE_ALT_RIGHT => "AltRight",
        KEYCODE_SHIFT_LEFT => "ShiftLeft",
        KEYCODE_SHIFT_RIGHT => "ShiftRight",
        KEYCODE_TAB => "Tab",
        KEYCODE_SPACE => "Space",
        KEYCODE_ENTER | KEYCODE_NUMPAD_ENTER => "Enter",
        KEYCODE_DEL => "Del",
        KEYCODE_GRAVE => "`",
        KEYCODE_MINUS | KEYCODE_NUMPAD_SUBTRACT => "-",
        KEYCODE_EQUALS | KEYCODE_NUMPAD_EQUALS => "=",
        KEYCODE_LEFT_BRACKET => "[",
        KEYCODE_RIGHT_BRACKET => "]",
        KEYCODE_BACKSLASH => "\\",
        KEYCODE_SEMICOLON => ";",
        KEYCODE_APOSTROPHE => "\'",
        KEYCODE_SLASH | KEYCODE_NUMPAD_DIVIDE => "/",
        KEYCODE_PAGE_UP => "PgDn",
        KEYCODE_PAGE_DOWN => "PgUp",
        KEYCODE_ESCAPE => "Escape",
        KEYCODE_FORWARD_DEL => "Del",
        KEYCODE_CTRL_LEFT => "CtrlLeft",
        KEYCODE_CTRL_RIGHT => "CtrlRight",
        KEYCODE_CAPS_LOCK => "CapsLock",
        KEYCODE_SCROLL_LOCK => "ScrollLock",
        KEYCODE_META_LEFT => "MetaLeft",
        KEYCODE_META_RIGHT => "MetaRight",
        KEYCODE_SYSRQ => "PrtSc",
        KEYCODE_BREAK => "Pause",
        KEYCODE_MOVE_HOME => "Home",
        KEYCODE_MOVE_END => "End",
        KEYCODE_INSERT => "Insert",
        KEYCODE_F1 => "F1",
        KEYCODE_F2 => "F2",
        KEYCODE_F3 => "F3",
        KEYCODE_F4 => "F4",
        KEYCODE_F5 => "F5",
        KEYCODE_F6 => "F6",
        KEYCODE_F7 => "F7",
        KEYCODE_F8 => "F8",
        KEYCODE_F9 => "F9",
        KEYCODE_F10 => "F10",
        KEYCODE_F11 => "F11",
        KEYCODE_F12 => "F12",
        KEYCODE_NUM_LOCK => "NumLock",
        KEYCODE_NUMPAD_MULTIPLY => "*",
        KEYCODE_NUMPAD_ADD => "+",
        KEYCODE_MEDIA_PLAY => "MediaPlay",
        KEYCODE_MEDIA_PAUSE => "MediaPause",
        _ => "Unknow",
    }
}

/// Every enumerated key code resolves to a descriptor that is not the placeholder, and
/// every code outside the enumeration resolves to none.
pub proof fn lemma_supported_keycodes_resolve(code: i32)
    ensures
        supported_keycode_seq().contains(code) <==> descriptor_of(code) is Some,
        descriptor_of(code) is Some ==> descriptor_of(code)->0 != placeholder_descriptor(),
{
    let s = supported_keycode_seq();
    assert forall|i: int| 0 <= i < s.len() implies descriptor_of(#[trigger] s[i]) is Some by {}
    if descriptor_of(code) is Some {
        assert(s.contains(code));
    }
}

} // verus!
