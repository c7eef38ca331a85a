//! Host input mapped to what the Artemis runtime reads: Windows
//! virtual-key codes and stage-coordinate mouse input. Mouse button codes
//! follow the Artemis convention (1 left, 2 right, 4 middle); text input and
//! wheel have no runtime feed and are ignored.
use vstd::prelude::*;

verus! {

/// Artemis code of the left mouse button.
pub const MOUSE_LEFT: u32 = 1;
/// Artemis code of the right mouse button.
pub const MOUSE_RIGHT: u32 = 2;
/// Artemis code of the middle mouse button.
pub const MOUSE_MIDDLE: u32 = 4;
/// Windows virtual-key code of Enter, the keyboard decide key.
pub const KEY_ENTER: u32 = 0x0D;

/// The keyboard keys a host reports.
#[derive(Debug, Clone, Copy, PartialEq, Eq, Structural)]
pub enum ArtemisKeyCode {
    Escape,
    Enter,
    NumpadEnter,
    Tab,
    Backspace,
    Space,
    Insert,
    Delete,
    Home,
    End,
    PageUp,
    PageDown,
    ArrowLeft,
    ArrowUp,
    ArrowRight,
    ArrowDown,
    ControlLeft,
    ControlRight,
    ShiftLeft,
    ShiftRight,
    AltLeft,
    AltRight,
    A,
    B,
    C,
    D,
    E,
    F,
    G,
    H,
    I,
    J,
    K,
    L,
    M,
    N,
    O,
    P,
    Q,
    R,
    S,
    T,
    U,
    V,
    W,
    X,
    Y,
    Z,
    Digit0,
    Digit1,
    Digit2,
    Digit3,
    Digit4,
    Digit5,
    Digit6,
    Digit7,
    Digit8,
    Digit9,
    Numpad0,
    Numpad1,
    Numpad2,
    Numpad3,
    Numpad4,
    Numpad5,
    Numpad6,
    Numpad7,
    Numpad8,
    Numpad9,
    NumpadAdd,
    NumpadSubtract,
    NumpadMultiply,
    NumpadDivide,
    F1,
    F2,
    F3,
    F4,
    F5,
    F6,
    F7,
    F8,
    F9,
    F10,
    F11,
    F12,
    Minus,
    Equals,
    Comma,
    Period,
    Slash,
    Semicolon,
    Apostrophe,
    BracketLeft,
    BracketRight,
    Backslash,
    Grave,
    Unknown,
}

/// The Windows virtual-key code the runtime binds to a key; `None` for a
/// key it has no code for.
pub open spec fn spec_virtual_key(code: ArtemisKeyCode) -> Option<u32> {
    match code {
        ArtemisKeyCode::Escape => Some(0x1B),
        ArtemisKeyCode::Enter | ArtemisKeyCode::NumpadEnter => Some(0x0D),
        ArtemisKeyCode::Tab => Some(0x09),
        ArtemisKeyCode::Backspace => Some(0x08),
        ArtemisKeyCode::Space => Some(0x20),
        ArtemisKeyCode::Insert => Some(0x2D),
        ArtemisKeyCode::Delete => Some(0x2E),
        ArtemisKeyCode::Home => Some(0x24),
        ArtemisKeyCode::End => Some(0x23),
        ArtemisKeyCode::PageUp => Some(0x21),
        ArtemisKeyCode::PageDown => Some(0x22),
        ArtemisKeyCode::ArrowLeft => Some(0x25),
        ArtemisKeyCode::ArrowUp => Some(0x26),
        ArtemisKeyCode::ArrowRight => Some(0x27),
        ArtemisKeyCode::ArrowDown => Some(0x28),
        ArtemisKeyCode::ControlLeft | ArtemisKeyCode::ControlRight => Some(0x11),
        ArtemisKeyCode::ShiftLeft | ArtemisKeyCode::ShiftRight => Some(0x10),
        ArtemisKeyCode::AltLeft | ArtemisKeyCode::AltRight => Some(0x12),
        ArtemisKeyCode::A => Some(0x41),
        ArtemisKeyCode::B => Some(0x42),
        ArtemisKeyCode::C => Some(0x43),
        ArtemisKeyCode::D => Some(0x44),
        ArtemisKeyCode::E => Some(0x45),
        ArtemisKeyCode::F => Some(0x46),
        ArtemisKeyCode::G => Some(0x47),
        ArtemisKeyCode::H => Some(0x48),
        ArtemisKeyCode::I => Some(0x49),
        ArtemisKeyCode::J => Some(0x4A),
        ArtemisKeyCode::K => Some(0x4B),
        ArtemisKeyCode::L => Some(0x4C),
        ArtemisKeyCode::M => Some(0x4D),
        ArtemisKeyCode::N => Some(0x4E),
        ArtemisKeyCode::O => Some(0x4F),
        ArtemisKeyCode::P => Some(0x50),
        ArtemisKeyCode::Q => Some(0x51),
        ArtemisKeyCode::R => Some(0x52),
        ArtemisKeyCode::S => Some(0x53),
        ArtemisKeyCode::T => Some(0x54),
        ArtemisKeyCode::U => Some(0x55),
        ArtemisKeyCode::V => Some(0x56),
        ArtemisKeyCode::W => Some(0x57),
        ArtemisKeyCode::X => Some(0x58),
        ArtemisKeyCode::Y => Some(0x59),
        ArtemisKeyCode::Z => Some(0x5A),
        ArtemisKeyCode::Digit0 => Some(0x30),
        ArtemisKeyCode::Digit1 => Some(0x31),
        ArtemisKeyCode::Digit2 => Some(0x32),
        ArtemisKeyCode::Digit3 => Some(0x33),
        ArtemisKeyCode::Digit4 => Some(0x34),
        ArtemisKeyCode::Digit5 => Some(0x35),
        ArtemisKeyCode::Digit6 => Some(0x36),
        ArtemisKeyCode::Digit7 => Some(0x37),
        ArtemisKeyCode::Digit8 => Some(0x38),
        ArtemisKeyCode::Digit9 => Some(0x39),
        ArtemisKeyCode::Numpad0 => Some(0x60),
        ArtemisKeyCode::Numpad1 => Some(0x61),
        ArtemisKeyCode::Numpad2 => Some(0x62),
        ArtemisKeyCode::Numpad3 => Some(0x63),
        ArtemisKeyCode::Numpad4 => Some(0x64),
        ArtemisKeyCode::Numpad5 => Some(0x65),
        ArtemisKeyCode::Numpad6 => Some(0x66),
        ArtemisKeyCode::Numpad7 => Some(0x67),
        ArtemisKeyCode::Numpad8 => Some(0x68),
        ArtemisKeyCode::Numpad9 => Some(0x69),
        ArtemisKeyCode::NumpadAdd => Some(0x6B),
        ArtemisKeyCode::NumpadSubtract => Some(0x6D),
        ArtemisKeyCode::NumpadMultiply => Some(0x6A),
        ArtemisKeyCode::NumpadDivide => Some(0x6F),
        ArtemisKeyCode::F1 => Some(0x70),
        ArtemisKeyCode::F2 => Some(0x71),
        ArtemisKeyCode::F3 => Some(0x72),
        ArtemisKeyCode::F4 => Some(0x73),
        ArtemisKeyCode::F5 => Some(0x74),
        ArtemisKeyCode::F6 => Some(0x75),
        ArtemisKeyCode::F7 => Some(0x76),
        ArtemisKeyCode::F8 => Some(0x77),
        ArtemisKeyCode::F9 => Some(0x78),
        ArtemisKeyCode::F10 => Some(0x79),
        ArtemisKeyCode::F11 => Some(0x7A),
        ArtemisKeyCode::F12 => Some(0x7B),
        ArtemisKeyCode::Minus => Some(0xBD),
        ArtemisKeyCode::Equals => Some(0xBB),
        ArtemisKeyCode::Comma => Some(0xBC),
        ArtemisKeyCode::Period => Some(0xBE),
        ArtemisKeyCode::Slash => Some(0xBF),
        ArtemisKeyCode::Semicolon => Some(0xBA),
        ArtemisKeyCode::Apostrophe => Some(0xDE),
        ArtemisKeyCode::BracketLeft => Some(0xDB),
        ArtemisKeyCode::BracketRight => Some(0xDD),
        ArtemisKeyCode::Backslash => Some(0xDC),
        ArtemisKeyCode::Grave => Some(0xC0),
        ArtemisKeyCode::Unknown => None,
    }
}

/// The virtual-key code of `code`, as the runtime's key table gives it.
pub fn translate_key(code: ArtemisKeyCode) -> (r: Option<u32>)
    ensures
        r == spec_virtual_key(code),
{
    match code {
            ArtemisKeyCode::Escape => Some(0x1B),
            ArtemisKeyCode::Enter | ArtemisKeyCode::NumpadEnter => Some(0x0D),
            ArtemisKeyCode::Tab => Some(0x09),
            ArtemisKeyCode::Backspace => Some(0x08),
            ArtemisKeyCode::Space => Some(0x20),
            ArtemisKeyCode::Insert => Some(0x2D),
            ArtemisKeyCode::Delete => Some(0x2E),
            ArtemisKeyCode::Home => Some(0x24),
            ArtemisKeyCode::End => Some(0x23),
            ArtemisKeyCode::PageUp => Some(0x21),
            ArtemisKeyCode::PageDown => Some(0x22),
            ArtemisKeyCode::ArrowLeft => Some(0x25),
            ArtemisKeyCode::ArrowUp => Some(0x26),
            ArtemisKeyCode::ArrowRight => Some(0x27),
            ArtemisKeyCode::ArrowDown => Some(0x28),
            ArtemisKeyCode::ControlLeft | ArtemisKeyCode::ControlRight => Some(0x11),
            ArtemisKeyCode::ShiftLeft | ArtemisKeyCode::ShiftRight => Some(0x10),
            ArtemisKeyCode::AltLeft | ArtemisKeyCode::AltRight => Some(0x12),
            ArtemisKeyCode::A => Some(0x41),
            ArtemisKeyCode::B => Some(0x42),
            ArtemisKeyCode::C => Some(0x43),
            ArtemisKeyCode::D => Some(0x44),
            ArtemisKeyCode::E => Some(0x45),
            ArtemisKeyCode::F => Some(0x46),
            ArtemisKeyCode::G => Some(0x47),
            ArtemisKeyCode::H => Some(0x48),
            ArtemisKeyCode::I => Some(0x49),
            ArtemisKeyCode::J => Some(0x4A),
            ArtemisKeyCode::K => Some(0x4B),
            ArtemisKeyCode::L => Some(0x4C),
            ArtemisKeyCode::M => Some(0x4D),
            ArtemisKeyCode::N => Some(0x4E),
            ArtemisKeyCode::O => Some(0x4F),
            ArtemisKeyCode::P => Some(0x50),
            ArtemisKeyCode::Q => Some(0x51),
            ArtemisKeyCode::R => Some(0x52),
            ArtemisKeyCode::S => Some(0x53),
            ArtemisKeyCode::T => Some(0x54),
            ArtemisKeyCode::U => Some(0x55),
            ArtemisKeyCode::V => Some(0x56),
            ArtemisKeyCode::W => Some(0x57),
            ArtemisKeyCode::X => Some(0x58),
            ArtemisKeyCode::Y => Some(0x59),
            ArtemisKeyCode::Z => Some(0x5A),
            ArtemisKeyCode::Digit0 => Some(0x30),
            ArtemisKeyCode::Digit1 => Some(0x31),
            ArtemisKeyCode::Digit2 => Some(0x32),
            ArtemisKeyCode::Digit3 => Some(0x33),
            ArtemisKeyCode::Digit4 => Some(0x34),
            ArtemisKeyCode::Digit5 => Some(0x35),
            ArtemisKeyCode::Digit6 => Some(0x36),
            ArtemisKeyCode::Digit7 => Some(0x37),
            ArtemisKeyCode::Digit8 => Some(0x38),
            ArtemisKeyCode::Digit9 => Some(0x39),
            ArtemisKeyCode::Numpad0 => Some(0x60),
            ArtemisKeyCode::Numpad1 => Some(0x61),
            ArtemisKeyCode::Numpad2 => Some(0x62),
            ArtemisKeyCode::Numpad3 => Some(0x63),
            ArtemisKeyCode::Numpad4 => Some(0x64),
            ArtemisKeyCode::Numpad5 => Some(0x65),
            ArtemisKeyCode::Numpad6 => Some(0x66),
            ArtemisKeyCode::Numpad7 => Some(0x67),
            ArtemisKeyCode::Numpad8 => Some(0x68),
            ArtemisKeyCode::Numpad9 => Some(0x69),
            ArtemisKeyCode::NumpadAdd => Some(0x6B),
            ArtemisKeyCode::NumpadSubtract => Some(0x6D),
            ArtemisKeyCode::NumpadMultiply => Some(0x6A),
            ArtemisKeyCode::NumpadDivide => Some(0x6F),
            ArtemisKeyCode::F1 => Some(0x70),
            ArtemisKeyCode::F2 => Some(0x71),
            ArtemisKeyCode::F3 => Some(0x72),
            ArtemisKeyCode::F4 => Some(0x73),
            ArtemisKeyCode::F5 => Some(0x74),
            ArtemisKeyCode::F6 => Some(0x75),
            ArtemisKeyCode::F7 => Some(0x76),
            ArtemisKeyCode::F8 => Some(0x77),
            ArtemisKeyCode::F9 => Some(0x78),
            ArtemisKeyCode::F10 => Some(0x79),
            ArtemisKeyCode::F11 => Some(0x7A),
            ArtemisKeyCode::F12 => Some(0x7B),
            ArtemisKeyCode::Minus => Some(0xBD),
            ArtemisKeyCode::Equals => Some(0xBB),
            ArtemisKeyCode::Comma => Some(0xBC),
            ArtemisKeyCode::Period => Some(0xBE),
            ArtemisKeyCode::Slash => Some(0xBF),
            ArtemisKeyCode::Semicolon => Some(0xBA),
            ArtemisKeyCode::Apostrophe => Some(0xDE),
            ArtemisKeyCode::BracketLeft => Some(0xDB),
            ArtemisKeyCode::BracketRight => Some(0xDD),
            ArtemisKeyCode::Backslash => Some(0xDC),
            ArtemisKeyCode::Grave => Some(0xC0),
            ArtemisKeyCode::Unknown => None,
    }
}
/// The pointer buttons a host reports.
#[derive(Debug, Clone, Copy, PartialEq, Eq, Structural)]
pub enum ArtemisPointerButton {
    Primary,
    Secondary,
    Middle,
    Back,
    Forward,
}

/// A key or button transition.
#[derive(Debug, Clone, Copy, PartialEq, Eq, Structural)]
pub enum ArtemisKeyState {
    Pressed,
    Released,
    Repeated,
}

/// A host input event, reduced to what the runtime reads. A pointer
/// position is given in whole stage pixels.
#[derive(Debug, Clone, Copy, PartialEq, Eq, Structural)]
pub enum ArtemisInputEvent {
    PointerMove { x: i32, y: i32 },
    PointerButton { button: ArtemisPointerButton, state: ArtemisKeyState },
    Key { code: ArtemisKeyCode, state: ArtemisKeyState },
    /// Wheel, text input and window events, which feed the runtime nothing.
    Other,
}

/// One input fed to the runtime.
#[derive(Debug, Clone, Copy, PartialEq, Eq, Structural)]
pub enum ArtemisRuntimeInput {
    Mouse { x: i32, y: i32 },
    MouseButton { code: u32, pressed: bool },
    /// The synthetic click the script layer reads as a decide.
    Click,
    KeyDown(u32),
    KeyUp(u32),
}

/// The Artemis mouse button code of a pointer button; back and forward
/// have none.
pub open spec fn spec_mouse_button(button: ArtemisPointerButton) -> Option<u32> {
    match button {
        ArtemisPointerButton::Primary => Some(MOUSE_LEFT),
        ArtemisPointerButton::Secondary => Some(MOUSE_RIGHT),
        ArtemisPointerButton::Middle => Some(MOUSE_MIDDLE),
        ArtemisPointerButton::Back | ArtemisPointerButton::Forward => None,
    }
}

/// The mouse button code of `button`.
pub fn translate_button(button: ArtemisPointerButton) -> (r: Option<u32>)
    ensures
        r == spec_mouse_button(button),
{
    match button {
        ArtemisPointerButton::Primary => Some(MOUSE_LEFT),
        ArtemisPointerButton::Secondary => Some(MOUSE_RIGHT),
        ArtemisPointerButton::Middle => Some(MOUSE_MIDDLE),
        ArtemisPointerButton::Back | ArtemisPointerButton::Forward => None,
    }
}

/// A press and a repeat both hold the key or button down.
pub open spec fn is_down(state: ArtemisKeyState) -> bool {
    state != ArtemisKeyState::Released
}

/// The runtime inputs one host event turns into: a mouse move; a mouse
/// button edge, followed by a click when the left button goes down; or a
/// key edge. Events without a runtime code feed nothing.
pub open spec fn spec_event_inputs(event: ArtemisInputEvent) -> Seq<ArtemisRuntimeInput> {
    match event {
        ArtemisInputEvent::PointerMove { x, y } => seq![ArtemisRuntimeInput::Mouse { x, y }],
        ArtemisInputEvent::PointerButton { button, state } => match spec_mouse_button(button) {
            Some(code) => {
                let edge = ArtemisRuntimeInput::MouseButton { code, pressed: is_down(state) };
                if is_down(state) && code == MOUSE_LEFT {
                    seq![edge, ArtemisRuntimeInput::Click]
                } else {
                    seq![edge]
                }
            },
            None => Seq::empty(),
        },
        ArtemisInputEvent::Key { code, state } => match spec_virtual_key(code) {
            Some(key) => if is_down(state) {
                seq![ArtemisRuntimeInput::KeyDown(key)]
            } else {
                seq![ArtemisRuntimeInput::KeyUp(key)]
            },
            None => Seq::empty(),
        },
        ArtemisInputEvent::Other => Seq::empty(),
    }
}

/// The runtime inputs of `events`, in event order.
pub open spec fn spec_runtime_inputs(events: Seq<ArtemisInputEvent>) -> Seq<ArtemisRuntimeInput>
    decreases events.len(),
{
    if events.len() == 0 {
        Seq::empty()
    } else {
        spec_runtime_inputs(events.drop_last()) + spec_event_inputs(events.last())
    }
}

/// The event is a decide edge: the left button or a key bound to Enter
/// going down or repeating.
pub open spec fn is_decide_edge(event: ArtemisInputEvent) -> bool {
    match event {
        ArtemisInputEvent::PointerButton { button, state } =>
            is_down(state) && spec_mouse_button(button) == Some(MOUSE_LEFT),
        ArtemisInputEvent::Key { code, state } =>
            is_down(state) && spec_virtual_key(code) == Some(KEY_ENTER),
        _ => false,
    }
}

/// The runtime inputs of one event.
fn event_inputs(event: ArtemisInputEvent, out: &mut Vec<ArtemisRuntimeInput>) -> (decide: bool)
    ensures
        final(out)@ == old(out)@ + spec_event_inputs(event),
        decide == is_decide_edge(event),
{
    match event {
        ArtemisInputEvent::PointerMove { x, y } => {
            out.push(ArtemisRuntimeInput::Mouse { x, y });
            false
        },
        ArtemisInputEvent::PointerButton { button, state } => match translate_button(button) {
            Some(code) => {
                let pressed = match state {
                    ArtemisKeyState::Pressed | ArtemisKeyState::Repeated => true,
                    ArtemisKeyState::Released => false,
                };
                out.push(ArtemisRuntimeInput::MouseButton { code, pressed });
                if pressed && code == MOUSE_LEFT {
                    out.push(ArtemisRuntimeInput::Click);
                    true
                } else {
                    false
                }
            },
            None => false,
        },
        ArtemisInputEvent::Key { code, state } => match translate_key(code) {
            Some(key) => match state {
                ArtemisKeyState::Pressed | ArtemisKeyState::Repeated => {
                    out.push(ArtemisRuntimeInput::KeyDown(key));
                    key == KEY_ENTER
                },
                ArtemisKeyState::Released => {
                    out.push(ArtemisRuntimeInput::KeyUp(key));
                    false
                },
            },
            None => false,
        },
        ArtemisInputEvent::Other => false,
    }
}

/// The runtime inputs of a tick's host events, in order, and whether a
/// decide edge (left press or Enter) was among them.
pub fn apply_events(events: &[ArtemisInputEvent]) -> (r: (Vec<ArtemisRuntimeInput>, bool))
    ensures
        r.0@ == spec_runtime_inputs(events@),
        r.1 == exists|i: int| 0 <= i < events@.len() && #[trigger] is_decide_edge(events@[i]),
{
    let mut out: Vec<ArtemisRuntimeInput> = Vec::new();
    let mut decide = false;
    let mut i: usize = 0;
    while i < events.len()
        invariant
            i <= events@.len(),
            out@ == spec_runtime_inputs(events@.subrange(0, i as int)),
            decide == exists|k: int| 0 <= k < i && #[trigger] is_decide_edge(events@[k]),
        decreases events@.len() - i,
    {
        let ghost prefix = events@.subrange(0, i as int);
        assert(events@.subrange(0, i + 1).drop_last() == prefix);
        let edge = event_inputs(events[i], &mut out);
        decide = decide || edge;
        i = i + 1;
        proof {
            if edge {
                assert(is_decide_edge(events@[i - 1]));
            }
        }
    }
    assert(events@.subrange(0, events@.len() as int) == events@);
    (out, decide)
}

} // verus!
