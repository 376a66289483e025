//! Remapping of device input into player events.
//!
//! Gamepad buttons go through one route table per port, which remembers the last
//! action sent for each button: a polled button state reaches the player only when
//! it changes. Keyboard keys go straight through the descriptor table. The pointer
//! is a single left mouse button.
use std::collections::HashMap;
use vstd::prelude::*;

use crate::action::{action_of_pressed, KeyAction, InputSource};
use crate::descriptor::{
    descriptor_of, keycode_as_descriptor, keycode_as_string, keycode_name, KeyDescriptor,
};
use crate::keycodes::{
    KEYCODE_0, KEYCODE_1, KEYCODE_2, KEYCODE_3, KEYCODE_4, KEYCODE_7, KEYCODE_8, KEYCODE_9,
    KEYCODE_A, KEYCODE_BUTTON_A, KEYCODE_BUTTON_B, KEYCODE_BUTTON_L1, KEYCODE_BUTTON_L2,
    KEYCODE_BUTTON_R1, KEYCODE_BUTTON_R2, KEYCODE_BUTTON_SELECT, KEYCODE_BUTTON_START,
    KEYCODE_BUTTON_X, KEYCODE_BUTTON_Y, KEYCODE_COMMA, KEYCODE_D, KEYCODE_DPAD_DOWN,
    KEYCODE_DPAD_LEFT, KEYCODE_DPAD_RIGHT, KEYCODE_DPAD_UP, KEYCODE_ENTER, KEYCODE_G, KEYCODE_H,
    KEYCODE_K, KEYCODE_L, KEYCODE_PERIOD, KEYCODE_S, KEYCODE_T, KEYCODE_TAB, KEYCODE_W,
    KEYCODE_Y,
};

verus! {

broadcast use vstd::std_specs::hash::group_hash_axioms;

pub const RETRO_DEVICE_JOYPAD: i32 = 1;
pub const RETRO_DEVICE_POINTER: i32 = 6;

pub const RETRO_DEVICE_ID_JOYPAD_B: i32 = 0;
pub const RETRO_DEVICE_ID_JOYPAD_Y: i32 = 1;
pub const RETRO_DEVICE_ID_JOYPAD_SELECT: i32 = 2;
pub const RETRO_DEVICE_ID_JOYPAD_START: i32 = 3;
pub const RETRO_DEVICE_ID_JOYPAD_UP: i32 = 4;
pub const RETRO_DEVICE_ID_JOYPAD_DOWN: i32 = 5;
pub const RETRO_DEVICE_ID_JOYPAD_LEFT: i32 = 6;
pub const RETRO_DEVICE_ID_JOYPAD_RIGHT: i32 = 7;
pub const RETRO_DEVICE_ID_JOYPAD_A: i32 = 8;
pub const RETRO_DEVICE_ID_JOYPAD_X: i32 = 9;
pub const RETRO_DEVICE_ID_JOYPAD_L: i32 = 10;
pub const RETRO_DEVICE_ID_JOYPAD_R: i32 = 11;
pub const RETRO_DEVICE_ID_JOYPAD_MASK: i32 = 256;

pub const RETRO_DEVICE_ID_POINTER_X: i32 = 0;
pub const RETRO_DEVICE_ID_POINTER_Y: i32 = 1;
pub const RETRO_DEVICE_ID_POINTER_PRESSED: i32 = 2;

/// The smallest and largest value that a pointer axis reports.
pub const POINTER_AXIS_MIN: i16 = -32767;
pub const POINTER_AXIS_MAX: i16 = 32767;

/// Pointer positions are exact: a pixel is divided into as many sub-pixel units as
/// there are steps from one end of a pointer axis to the other.
pub const SUBPIXELS_PER_PIXEL: i64 = 65534;

/// A key report: a key code, pressed or released, from the keyboard or from a
/// gamepad port.
#[derive(PartialEq, Eq, Structural, Clone, Copy, Debug)]
pub struct KeyEvent {
    pub port: i32,
    pub key: i32,
    pub action: KeyAction,
    pub source: InputSource,
}

impl KeyEvent {
    /// A keyboard report.
    pub fn new(key: i32, action: KeyAction) -> (r: KeyEvent)
        ensures
            r == (KeyEvent { port: 0, key, action, source: InputSource::Keyboard }),
    {
        KeyEvent { port: 0, key, action, source: InputSource::Keyboard }
    }

    /// A report of a button of gamepad `port`.
    pub fn gamepad(port: i32, key: i32, action: KeyAction) -> (r: KeyEvent)
        ensures
            r == (KeyEvent { port, key, action, source: InputSource::Gamepad }),
    {
        KeyEvent { port, key, action, source: InputSource::Gamepad }
    }

    pub open spec fn text(self) -> Seq<char> {
        "KeyEvent: { key="@ + keycode_name(self.key) + ", action="@ + self.action.name() + " }"@
    }

    /// A one-line description of the report, naming the key and the action.
    pub fn to_string(&self) -> (r: String)
        ensures
            r@ == self.text(),
    {
        let mut s = String::from_str("KeyEvent: { key=");
        s.append(keycode_as_string(self.key));
        s.append(", action=");
        s.append(self.action.as_str());
        s.append(" }");
        s
    }
}

/// A pointer sample: a position in sub-pixel units and whether the pointer is down.
#[derive(PartialEq, Eq, Structural, Clone, Copy, Debug)]
pub struct TouchEvent {
    pub x: i64,
    pub y: i64,
    pub action: KeyAction,
}

/// The raw value as the axis reads it: a value below the axis minimum counts as the
/// minimum.
pub open spec fn clamped_axis(raw: i16) -> i16 {
    if raw < POINTER_AXIS_MIN {
        POINTER_AXIS_MIN
    } else {
        raw
    }
}

/// The sub-pixel position along an axis of `extent` pixels that a raw pointer value
/// stands for: the axis minimum (and anything below it) is the near edge, the axis
/// maximum the far edge.
pub open spec fn axis_position(raw: i16, extent: u32) -> int {
    (clamped_axis(raw) - POINTER_AXIS_MIN) * extent
}

/// Rescales a raw pointer axis value onto a viewport axis of `extent` pixels.
pub fn scale_pointer_axis(raw: i16, extent: u32) -> (r: i64)
    ensures
        r == axis_position(raw, extent),
        0 <= r <= extent * SUBPIXELS_PER_PIXEL,
{
    let raw = if raw < POINTER_AXIS_MIN {
        POINTER_AXIS_MIN
    } else {
        raw
    };
    let offset: i64 = raw as i64 - POINTER_AXIS_MIN as i64;
    assert(0 <= offset * extent <= 65534 * extent) by (nonlinear_arith)
        requires
            0 <= offset <= 65534,
            0 <= extent,
    ;
    assert(65534 * extent <= 65534 * 0x1_0000_0000) by (nonlinear_arith)
        requires
            0 <= extent < 0x1_0000_0000,
    ;
    offset * extent as i64
}

impl TouchEvent {
    pub fn new(x: i64, y: i64, action: KeyAction) -> (r: TouchEvent)
        ensures
            r == (TouchEvent { x, y, action }),
    {
        TouchEvent { x, y, action }
    }

    /// The event for a polled pointer: raw axis values, pressed or not, on a viewport
    /// of `width` by `height` pixels.
    pub fn from_pointer(raw_x: i16, raw_y: i16, pressed: bool, width: u32, height: u32) -> (r:
        TouchEvent)
        ensures
            r.x == axis_position(raw_x, width),
            r.y == axis_position(raw_y, height),
            r.action == action_of_pressed(pressed),
    {
        TouchEvent {
            x: scale_pointer_axis(raw_x, width),
            y: scale_pointer_axis(raw_y, height),
            action: KeyAction::from(pressed),
        }
    }
}

/// What the player is asked to handle.
#[derive(PartialEq, Eq, Structural, Clone, Copy, Debug)]
pub enum PlayerEvent {
    KeyDown { key: KeyDescriptor },
    KeyUp { key: KeyDescriptor },
    MouseDown { x: i64, y: i64 },
    MouseUp { x: i64, y: i64 },
    MouseMove { x: i64, y: i64 },
}

/// The last action sent for a routed button, and the key it is sent as.
#[derive(PartialEq, Eq, Structural, Clone, Copy, Debug)]
pub struct KeyState {
    pub action: KeyAction,
    pub descriptor: KeyDescriptor,
}

impl KeyState {
    pub fn new(descriptor: KeyDescriptor) -> (r: KeyState)
        ensures
            r == (KeyState { action: KeyAction::Up, descriptor }),
    {
        KeyState { action: KeyAction::Up, descriptor }
    }
}

/// The key event for `action` on the key `key`.
pub open spec fn key_input(action: KeyAction, key: KeyDescriptor) -> PlayerEvent {
    match action {
        KeyAction::Down => PlayerEvent::KeyDown { key },
        KeyAction::Up => PlayerEvent::KeyUp { key },
    }
}

fn make_key_input(action: KeyAction, key: KeyDescriptor) -> (r: PlayerEvent)
    ensures
        r == key_input(action, key),
{
    match action {
        KeyAction::Down => PlayerEvent::KeyDown { key },
        KeyAction::Up => PlayerEvent::KeyUp { key },
    }
}

/// The keyboard key that a gamepad button of `port` is routed to. Port 1 plays on
/// the left of the keyboard, every other port on the arrows and the right.
pub open spec fn route_target(port: i32, button: i32) -> Option<i32> {
    if port == 1 {
        match button {
            KEYCODE_DPAD_LEFT => Some(KEYCODE_A),
            KEYCODE_DPAD_RIGHT => Some(KEYCODE_D),
            KEYCODE_DPAD_UP => Some(KEYCODE_W),
            KEYCODE_DPAD_DOWN => Some(KEYCODE_S),
            KEYCODE_BUTTON_A => Some(KEYCODE_G),
            KEYCODE_BUTTON_B => Some(KEYCODE_H),
            KEYCODE_BUTTON_X => Some(KEYCODE_T),
            KEYCODE_BUTTON_Y => Some(KEYCODE_Y),
            KEYCODE_BUTTON_SELECT => Some(KEYCODE_TAB),
            KEYCODE_BUTTON_START => Some(KEYCODE_ENTER),
            KEYCODE_BUTTON_L1 => Some(KEYCODE_7),
            KEYCODE_BUTTON_R1 => Some(KEYCODE_8),
            KEYCODE_BUTTON_L2 => Some(KEYCODE_9),
            KEYCODE_BUTTON_R2 => Some(KEYCODE_0),
            _ => None,
        }
    } else {
        match button {
            KEYCODE_DPAD_LEFT => Some(KEYCODE_DPAD_LEFT),
            KEYCODE_DPAD_RIGHT => Some(KEYCODE_DPAD_RIGHT),
            KEYCODE_DPAD_UP => Some(KEYCODE_DPAD_UP),
            KEYCODE_DPAD_DOWN => Some(KEYCODE_DPAD_DOWN),
            KEYCODE_BUTTON_A => Some(KEYCODE_COMMA),
            KEYCODE_BUTTON_B => Some(KEYCODE_PERIOD),
            KEYCODE_BUTTON_X => Some(KEYCODE_K),
            KEYCODE_BUTTON_Y => Some(KEYCODE_L),
            KEYCODE_BUTTON_SELECT => Some(KEYCODE_TAB),
            KEYCODE_BUTTON_START => Some(KEYCODE_ENTER),
            KEYCODE_BUTTON_L1 => Some(KEYCODE_1),
            KEYCODE_BUTTON_R1 => Some(KEYCODE_2),
            KEYCODE_BUTTON_L2 => Some(KEYCODE_3),
            KEYCODE_BUTTON_R2 => Some(KEYCODE_4),
            _ => None,
        }
    }
}

/// The route table of `port` as it is built: every routed button released, sent as
/// the descriptor of its target key.
pub open spec fn initial_routes(port: i32) -> Map<i32, KeyState> {
    Map::new(
        |button: i32| route_target(port, button) is Some,
        |button: i32|
            KeyState {
                action: KeyAction::Up,
                descriptor: descriptor_of(route_target(port, button)->0)->0,
            },
    )
}

/// The dispatcher's state: a route table for each gamepad port and whether the
/// pointer is down.
pub struct InputState {
    pub p0: Map<i32, KeyState>,
    pub p1: Map<i32, KeyState>,
    pub pointer_down: bool,
}

/// The route table that a report from `port` goes through.
pub open spec fn route_table(s: InputState, port: i32) -> Map<i32, KeyState> {
    if port == 1 {
        s.p1
    } else {
        s.p0
    }
}

/// What dispatching the key report `e` does to `s`, and what it emits.
pub open spec fn key_step(s: InputState, e: KeyEvent) -> (InputState, Option<PlayerEvent>) {
    match e.source {
        InputSource::Gamepad => {
            let t = route_table(s, e.port);
            if t.contains_key(e.key) && t[e.key].action != e.action {
                let t2 = t.insert(e.key, KeyState { action: e.action, descriptor: t[e.key].descriptor });
                let s2 = if e.port == 1 {
                    InputState { p1: t2, ..s }
                } else {
                    InputState { p0: t2, ..s }
                };
                (s2, Some(key_input(e.action, t[e.key].descriptor)))
            } else {
                (s, None)
            }
        },
        InputSource::Keyboard => match descriptor_of(e.key) {
            Some(d) => (s, Some(key_input(e.action, d))),
            None => (s, None),
        },
    }
}

/// What dispatching the pointer sample `e` does to `s`, and what it emits.
pub open spec fn touch_step(s: InputState, e: TouchEvent) -> (InputState, Option<PlayerEvent>) {
    let down = e.action == KeyAction::Down;
    let s2 = InputState { pointer_down: down, ..s };
    if !s.pointer_down && down {
        (s2, Some(PlayerEvent::MouseDown { x: e.x, y: e.y }))
    } else if s.pointer_down && down {
        (s2, Some(PlayerEvent::MouseMove { x: e.x, y: e.y }))
    } else if s.pointer_down && !down {
        (s2, Some(PlayerEvent::MouseUp { x: e.x, y: e.y }))
    } else {
        (s2, None)
    }
}

/// What dispatching the reports `events` in order does to `s`, and the events emitted.
pub open spec fn key_steps(s: InputState, events: Seq<KeyEvent>) -> (InputState, Seq<PlayerEvent>)
    decreases events.len(),
{
    if events.len() == 0 {
        (s, Seq::empty())
    } else {
        let (s1, out) = key_steps(s, events.drop_last());
        let (s2, r) = key_step(s1, events.last());
        match r {
            Some(ev) => (s2, out.push(ev)),
            None => (s2, out),
        }
    }
}

/// Whether bit `bit` of a joypad bitmask is set.
pub open spec fn button_pressed(status: i32, bit: i32) -> bool {
    (status >> bit) & 1 == 1
}

/// The buttons that a joypad bitmask reports, as (bit, button key code), in the
/// order in which they are dispatched.
pub open spec fn joypad_layout() -> Seq<(i32, i32)> {
    seq![
        (RETRO_DEVICE_ID_JOYPAD_A, KEYCODE_BUTTON_A),
        (RETRO_DEVICE_ID_JOYPAD_B, KEYCODE_BUTTON_B),
        (RETRO_DEVICE_ID_JOYPAD_X, KEYCODE_BUTTON_X),
        (RETRO_DEVICE_ID_JOYPAD_Y, KEYCODE_BUTTON_Y),
        (RETRO_DEVICE_ID_JOYPAD_LEFT, KEYCODE_DPAD_LEFT),
        (RETRO_DEVICE_ID_JOYPAD_RIGHT, KEYCODE_DPAD_RIGHT),
        (RETRO_DEVICE_ID_JOYPAD_UP, KEYCODE_DPAD_UP),
        (RETRO_DEVICE_ID_JOYPAD_DOWN, KEYCODE_DPAD_DOWN),
        (RETRO_DEVICE_ID_JOYPAD_SELECT, KEYCODE_BUTTON_SELECT),
        (RETRO_DEVICE_ID_JOYPAD_START, KEYCODE_BUTTON_START),
        (RETRO_DEVICE_ID_JOYPAD_L, KEYCODE_BUTTON_L1),
        (RETRO_DEVICE_ID_JOYPAD_R, KEYCODE_BUTTON_R1),
    ]
}

/// The gamepad reports that the bitmask `status` of `port` stands for: one for each
/// button of the layout, down where its bit is set.
pub open spec fn joypad_reports(port: i32, status: i32) -> Seq<KeyEvent> {
    joypad_layout().map_values(
        |b: (i32, i32)|
            KeyEvent {
                port,
                key: b.1,
                action: action_of_pressed(button_pressed(status, b.0)),
                source: InputSource::Gamepad,
            },
    )
}

fn joypad_report(port: i32, status: i32, bit: i32, button: i32) -> (r: KeyEvent)
    requires
        0 <= bit < 32,
    ensures
        r == (KeyEvent {
            port,
            key: button,
            action: action_of_pressed(button_pressed(status, bit)),
            source: InputSource::Gamepad,
        }),
{
    KeyEvent::gamepad(port, button, KeyAction::from((status >> bit) & 1 == 1))
}

/// Decodes the joypad bitmask `status` of `port` into one report per button.
pub fn joypad_events(port: i32, status: i32) -> (r: Vec<KeyEvent>)
    ensures
        r@ == joypad_reports(port, status),
{
    let r = vec![
        joypad_report(port, status, RETRO_DEVICE_ID_JOYPAD_A, KEYCODE_BUTTON_A),
        joypad_report(port, status, RETRO_DEVICE_ID_JOYPAD_B, KEYCODE_BUTTON_B),
        joypad_report(port, status, RETRO_DEVICE_ID_JOYPAD_X, KEYCODE_BUTTON_X),
        joypad_report(port, status, RETRO_DEVICE_ID_JOYPAD_Y, KEYCODE_BUTTON_Y),
        joypad_report(port, status, RETRO_DEVICE_ID_JOYPAD_LEFT, KEYCODE_DPAD_LEFT),
        joypad_report(port, status, RETRO_DEVICE_ID_JOYPAD_RIGHT, KEYCODE_DPAD_RIGHT),
        joypad_report(port, status, RETRO_DEVICE_ID_JOYPAD_UP, KEYCODE_DPAD_UP),
        joypad_report(port, status, RETRO_DEVICE_ID_JOYPAD_DOWN, KEYCODE_DPAD_DOWN),
        joypad_report(port, status, RETRO_DEVICE_ID_JOYPAD_SELECT, KEYCODE_BUTTON_SELECT),
        joypad_report(port, status, RETRO_DEVICE_ID_JOYPAD_START, KEYCODE_BUTTON_START),
        joypad_report(port, status, RETRO_DEVICE_ID_JOYPAD_L, KEYCODE_BUTTON_L1),
        joypad_report(port, status, RETRO_DEVICE_ID_JOYPAD_R, KEYCODE_BUTTON_R1),
    ];
    assert(r@ =~= joypad_reports(port, status));
    r
}

/// Routes input to the player: gamepad buttons through the route table of their
/// port, keyboard keys through the descriptor table, the pointer as the left mouse
/// button.
pub struct InputDispatcher {
    p0_routes: HashMap<i32, KeyState>,
    p1_routes: HashMap<i32, KeyState>,
    pointer_down: bool,
}

impl View for InputDispatcher {
    type V = InputState;

    closed spec fn view(&self) -> InputState {
        InputState { p0: self.p0_routes@, p1: self.p1_routes@, pointer_down: self.pointer_down }
    }
}

fn add_route(table: &mut HashMap<i32, KeyState>, button: i32, target: i32)
    requires
        descriptor_of(target) is Some,
    ensures
        final(table)@ == old(table)@.insert(
            button,
            KeyState { action: KeyAction::Up, descriptor: descriptor_of(target)->0 },
        ),
{
    let descriptor = keycode_as_descriptor(target).unwrap();
    table.insert(button, KeyState::new(descriptor));
}

/// Sends `action` through the entry for `button`, if there is one and its last
/// action differs.
fn route_key(table: &mut HashMap<i32, KeyState>, button: i32, action: KeyAction) -> (r: Option<
    PlayerEvent,
>)
    ensures
        ({
            let t = old(table)@;
            if t.contains_key(button) && t[button].action != action {
                &&& final(table)@ == t.insert(
                    button,
                    KeyState { action, descriptor: t[button].descriptor },
                )
                &&& r == Some(key_input(action, t[button].descriptor))
            } else {
                &&& final(table)@ == t
                &&& r is None
            }
        }),
{
    let found = match table.get(&button) {
        Some(state) => Some(*state),
        None => None,
    };
    match found {
        Some(state) => {
            if state.action != action {
                table.insert(button, KeyState { action, descriptor: state.descriptor });
                Some(make_key_input(action, state.descriptor))
            } else {
                None
            }
        },
        None => None,
    }
}

impl InputDispatcher {
    /// The route table of gamepad `port`, every button released.
    pub fn build_route_table(port: i32) -> (r: HashMap<i32, KeyState>)
        ensures
            r@ == initial_routes(port),
    {
        let mut it: HashMap<i32, KeyState> = HashMap::new();
        if port == 1 {
            add_route(&mut it, KEYCODE_DPAD_LEFT, KEYCODE_A);
            add_route(&mut it, KEYCODE_DPAD_RIGHT, KEYCODE_D);
            add_route(&mut it, KEYCODE_DPAD_UP, KEYCODE_W);
            add_route(&mut it, KEYCODE_DPAD_DOWN, KEYCODE_S);
            add_route(&mut it, KEYCODE_BUTTON_A, KEYCODE_G);
            add_route(&mut it, KEYCODE_BUTTON_B, KEYCODE_H);
            add_route(&mut it, KEYCODE_BUTTON_X, KEYCODE_T);
            add_route(&mut it, KEYCODE_BUTTON_Y, KEYCODE_Y);
            add_route(&mut it, KEYCODE_BUTTON_SELECT, KEYCODE_TAB);
            add_route(&mut it, KEYCODE_BUTTON_START, KEYCODE_ENTER);
            add_route(&mut it, KEYCODE_BUTTON_L1, KEYCODE_7);
            add_route(&mut it, KEYCODE_BUTTON_R1, KEYCODE_8);
            add_route(&mut it, KEYCODE_BUTTON_L2, KEYCODE_9);
            add_route(&mut it, KEYCODE_BUTTON_R2, KEYCODE_0);
        } else {
            add_route(&mut it, KEYCODE_DPAD_LEFT, KEYCODE_DPAD_LEFT);
            add_route(&mut it, KEYCODE_DPAD_RIGHT, KEYCODE_DPAD_RIGHT);
            add_route(&mut it, KEYCODE_DPAD_UP, KEYCODE_DPAD_UP);
            add_route(&mut it, KEYCODE_DPAD_DOWN, KEYCODE_DPAD_DOWN);
            add_route(&mut it, KEYCODE_BUTTON_A, KEYCODE_COMMA);
            add_route(&mut it, KEYCODE_BUTTON_B, KEYCODE_PERIOD);
            add_route(&mut it, KEYCODE_BUTTON_X, KEYCODE_K);
            add_route(&mut it, KEYCODE_BUTTON_Y, KEYCODE_L);
            add_route(&mut it, KEYCODE_BUTTON_SELECT, KEYCODE_TAB);
            add_route(&mut it, KEYCODE_BUTTON_START, KEYCODE_ENTER);
            add_route(&mut it, KEYCODE_BUTTON_L1, KEYCODE_1);
            add_route(&mut it, KEYCODE_BUTTON_R1, KEYCODE_2);
            add_route(&mut it, KEYCODE_BUTTON_L2, KEYCODE_3);
            add_route(&mut it, KEYCODE_BUTTON_R2, KEYCODE_4);
        }
        assert(it@ =~= initial_routes(port));
        it
    }

    /// The state of a fresh dispatcher: both route tables as built, the pointer up.
    pub open spec fn new_state() -> InputState {
        InputState { p0: initial_routes(0), p1: initial_routes(1), pointer_down: false }
    }

    /// A dispatcher with both route tables built and the pointer up.
    pub fn new() -> (r: InputDispatcher)
        ensures
            r@ == Self::new_state(),
    {
        InputDispatcher {
            p0_routes: Self::build_route_table(0),
            p1_routes: Self::build_route_table(1),
            pointer_down: false,
        }
    }

    /// Whether the pointer is down.
    pub fn pointer_down(&self) -> (r: bool)
        ensures
            r == self@.pointer_down,
    {
        self.pointer_down
    }

    /// Dispatches a key report. A gamepad report is sent as the key its button is
    /// routed to, and only when it differs from the last action sent for that
    /// button; a keyboard report is sent whenever its key has a descriptor. Anything
    /// else is dropped.
    pub fn dispatch_key_event(&mut self, event: KeyEvent) -> (r: Option<PlayerEvent>)
        ensures
            (final(self)@, r) == key_step(old(self)@, event),
    {
        match event.source {
            InputSource::Gamepad => {
                if event.port == 1 {
                    route_key(&mut self.p1_routes, event.key, event.action)
                } else {
                    route_key(&mut self.p0_routes, event.key, event.action)
                }
            },
            InputSource::Keyboard => match keycode_as_descriptor(event.key) {
                Some(d) => Some(make_key_input(event.action, d)),
                None => None,
            },
        }
    }

    /// Dispatches the joypad bitmask `status` of `port`: one report per button, in
    /// layout order, and returns what they emitted.
    pub fn dispatch_joypad_state(&mut self, port: i32, status: i32) -> (r: Vec<PlayerEvent>)
        ensures
            (final(self)@, r@) == key_steps(old(self)@, joypad_reports(port, status)),
    {
        let events = joypad_events(port, status);
        let ghost start = self@;
        let mut out: Vec<PlayerEvent> = Vec::new();
        let mut i: usize = 0;
        while i < events.len()
            invariant
                0 <= i <= events@.len(),
                events@ == joypad_reports(port, status),
                (self@, out@) == key_steps(start, events@.subrange(0, i as int)),
            decreases events@.len() - i,
        {
            let ghost before = events@.subrange(0, i as int);
            let r = self.dispatch_key_event(events[i]);
            match r {
                Some(ev) => out.push(ev),
                None => {},
            }
            i = i + 1;
            assert(events@.subrange(0, i as int).drop_last() =~= before);
        }
        assert(events@.subrange(0, i as int) =~= events@);
        (out)
    }

    /// Dispatches a pointer sample. A press sends a mouse-down and a release a
    /// mouse-up; a pointer that stays down sends a mouse-move, one that stays up
    /// sends nothing.
    pub fn dispatch_touch_event(&mut self, event: TouchEvent) -> (r: Option<PlayerEvent>)
        ensures
            (final(self)@, r) == touch_step(old(self)@, event),
    {
        let current = KeyAction::from(self.pointer_down);
        if current != event.action {
            if event.action == KeyAction::Down {
                self.pointer_down = true;
                Some(PlayerEvent::MouseDown { x: event.x, y: event.y })
            } else {
                self.pointer_down = false;
                Some(PlayerEvent::MouseUp { x: event.x, y: event.y })
            }
        } else if event.action == KeyAction::Down {
            Some(PlayerEvent::MouseMove { x: event.x, y: event.y })
        } else {
            None
        }
    }
}

/// Dispatching one gamepad report twice in a row emits at most one event: the
/// second dispatch finds the button already in the reported state and changes
/// nothing. The first emits exactly one event, the key event for the routed key,
/// when the button's last action differs from the report.
pub proof fn lemma_repeated_report_emits_once(s: InputState, e: KeyEvent)
    requires
        e.source == InputSource::Gamepad,
        route_table(s, e.port).contains_key(e.key),
    ensures
        ({
            let (s1, r1) = key_step(s, e);
            let (s2, r2) = key_step(s1, e);
            let entry = route_table(s, e.port)[e.key];
            &&& r2 is None
            &&& s2 == s1
            &&& entry.action != e.action ==> r1 == Some(key_input(e.action, entry.descriptor))
            &&& entry.action == e.action ==> r1 is None
        }),
{
}

/// Whether `events` are gamepad reports of `port` for pairwise distinct buttons.
pub open spec fn distinct_reports_of_port(events: Seq<KeyEvent>, port: i32) -> bool {
    &&& forall|j: int| 0 <= j < events.len() ==> (#[trigger] events[j]).source == InputSource::Gamepad
    &&& forall|j: int| 0 <= j < events.len() ==> (#[trigger] events[j]).port == port
    &&& forall|i: int, j: int|
        0 <= i < j < events.len() ==> (#[trigger] events[i]).key != (#[trigger] events[j]).key
}

/// Whether every routed button of `events` already holds the action that its report
/// asks for.
pub open spec fn reports_settled(s: InputState, events: Seq<KeyEvent>, port: i32) -> bool {
    forall|j: int|
        0 <= j < events.len() && route_table(s, port).contains_key((#[trigger] events[j]).key)
            ==> route_table(s, port)[events[j].key].action == events[j].action
}

proof fn lemma_steps_settle(s: InputState, events: Seq<KeyEvent>, port: i32)
    requires
        distinct_reports_of_port(events, port),
    ensures
        route_table(key_steps(s, events).0, port).dom() == route_table(s, port).dom(),
        reports_settled(key_steps(s, events).0, events, port),
    decreases events.len(),
{
    if events.len() > 0 {
        let prefix = events.drop_last();
        lemma_steps_settle(s, prefix, port);
        let s1 = key_steps(s, prefix).0;
        let e = events.last();
        let s2 = key_step(s1, e).0;
        assert(route_table(s2, port).dom() =~= route_table(s1, port).dom());
        assert forall|j: int|
            0 <= j < events.len() && route_table(s2, port).contains_key(
                (#[trigger] events[j]).key,
            ) implies route_table(s2, port)[events[j].key].action == events[j].action by {
            if j < events.len() - 1 {
                assert(prefix[j] == events[j]);
                assert(events[j].key != events[events.len() - 1].key);
            }
        }
    }
}

proof fn lemma_settled_steps_are_idle(s: InputState, events: Seq<KeyEvent>, port: i32)
    requires
        distinct_reports_of_port(events, port),
        reports_settled(s, events, port),
    ensures
        key_steps(s, events) == (s, Seq::<PlayerEvent>::empty()),
    decreases events.len(),
{
    if events.len() > 0 {
        let prefix = events.drop_last();
        assert forall|j: int| 0 <= j < prefix.len() implies #[trigger] prefix[j] == events[j] by {}
        lemma_settled_steps_are_idle(s, prefix, port);
        assert(events.last() == events[events.len() - 1]);
    }
}

/// Polling the same joypad bitmask twice in a row: the second poll finds every
/// routed button already in its reported state, emits nothing and changes nothing.
pub proof fn lemma_repeated_poll_is_idle(s: InputState, port: i32, status: i32)
    ensures
        ({
            let reports = joypad_reports(port, status);
            let s1 = key_steps(s, reports).0;
            key_steps(s1, reports) == (s1, Seq::<PlayerEvent>::empty())
        }),
{
    let reports = joypad_reports(port, status);
    let layout = joypad_layout();
    assert forall|j: int| 0 <= j < reports.len() implies #[trigger] reports[j] == (KeyEvent {
        port,
        key: layout[j].1,
        action: action_of_pressed(button_pressed(status, layout[j].0)),
        source: InputSource::Gamepad,
    }) by {}
    assert(distinct_reports_of_port(reports, port));
    lemma_steps_settle(s, reports, port);
    lemma_settled_steps_are_idle(key_steps(s, reports).0, reports, port);
}

/// A report for a code that has no route (gamepad) or no descriptor (keyboard)
/// emits nothing and leaves the state as it was.
pub proof fn lemma_unmapped_report_is_dropped(s: InputState, e: KeyEvent)
    requires
        e.source == InputSource::Gamepad ==> !route_table(s, e.port).contains_key(e.key),
        e.source == InputSource::Keyboard ==> descriptor_of(e.key) is None,
    ensures
        key_step(s, e) == (s, None::<PlayerEvent>),
{
}

/// The route tables of the two ports are independent: a report from one port never
/// changes the table of the other, nor the pointer, and the tables as built route
/// the same button to different keys where the ports differ.
pub proof fn lemma_ports_are_independent(s: InputState, e: KeyEvent)
    ensures
        e.port == 1 ==> key_step(s, e).0.p0 == s.p0,
        e.port != 1 ==> key_step(s, e).0.p1 == s.p1,
        key_step(s, e).0.pointer_down == s.pointer_down,
        initial_routes(0).dom() == initial_routes(1).dom(),
        initial_routes(0)[KEYCODE_BUTTON_L1] != initial_routes(0)[KEYCODE_BUTTON_L2],
        initial_routes(0)[KEYCODE_BUTTON_R1] != initial_routes(0)[KEYCODE_BUTTON_R2],
        initial_routes(1)[KEYCODE_BUTTON_L1] != initial_routes(1)[KEYCODE_BUTTON_L2],
        initial_routes(1)[KEYCODE_BUTTON_R1] != initial_routes(1)[KEYCODE_BUTTON_R2],
        initial_routes(0)[KEYCODE_DPAD_LEFT] != initial_routes(1)[KEYCODE_DPAD_LEFT],
{
    assert(initial_routes(0).dom() =~= initial_routes(1).dom());
}

/// The pointer follows its transitions: up to down emits exactly one mouse-down,
/// down to down exactly one mouse-move, down to up exactly one mouse-up, and up to
/// up nothing; the route tables stay as they were.
pub proof fn lemma_pointer_transitions(s: InputState, e: TouchEvent)
    ensures
        ({
            let (s2, r) = touch_step(s, e);
            let down = e.action == KeyAction::Down;
            &&& s2.pointer_down == down
            &&& s2.p0 == s.p0
            &&& s2.p1 == s.p1
            &&& !s.pointer_down && down ==> r == Some(PlayerEvent::MouseDown { x: e.x, y: e.y })
            &&& s.pointer_down && down ==> r == Some(PlayerEvent::MouseMove { x: e.x, y: e.y })
            &&& s.pointer_down && !down ==> r == Some(PlayerEvent::MouseUp { x: e.x, y: e.y })
            &&& !s.pointer_down && !down ==> r is None
        }),
{
}

/// Rescaling a pointer axis lands inside the viewport and is increasing: the axis
/// minimum and anything below it land on the near edge, the axis maximum on the far
/// edge, and over the axis range each step of the raw value moves the position by
/// the same amount.
pub proof fn lemma_pointer_scaling(a: i16, b: i16, extent: u32)
    ensures
        axis_position(POINTER_AXIS_MIN, extent) == 0,
        axis_position(i16::MIN, extent) == 0,
        axis_position(POINTER_AXIS_MAX, extent) == extent * SUBPIXELS_PER_PIXEL,
        0 <= axis_position(a, extent) <= extent * SUBPIXELS_PER_PIXEL,
        POINTER_AXIS_MIN <= a && POINTER_AXIS_MIN <= b ==> axis_position(b, extent)
            - axis_position(a, extent) == (b - a) * extent,
        a <= b ==> axis_position(a, extent) <= axis_position(b, extent),
        POINTER_AXIS_MIN <= a < b && extent > 0 ==> axis_position(a, extent) < axis_position(
            b,
            extent,
        ),
{
    let ca = clamped_axis(a);
    let cb = clamped_axis(b);
    assert(clamped_axis(i16::MIN) == POINTER_AXIS_MIN);
    assert(axis_position(POINTER_AXIS_MIN, extent) == 0 * extent);
    assert(axis_position(i16::MIN, extent) == 0 * extent);
    assert(0 * extent == 0) by (nonlinear_arith);
    assert((cb - POINTER_AXIS_MIN) * extent - (ca - POINTER_AXIS_MIN) * extent == (cb - ca)
        * extent) by (nonlinear_arith);
    assert(ca <= cb ==> (cb - ca) * extent >= 0) by (nonlinear_arith);
    assert(ca < cb && extent > 0 ==> (cb - ca) * extent > 0) by (nonlinear_arith);
    assert(0 <= (ca - POINTER_AXIS_MIN) * extent <= 65534 * extent) by (nonlinear_arith)
        requires
            0 <= ca - POINTER_AXIS_MIN <= 65534,
            0 <= extent,
    ;
}

} // verus!
