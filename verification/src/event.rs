//! The vocabulary of window and input events that the engine works on:
//! plain values, independent of the windowing platform that produced them.

use vstd::prelude::*;
use winit::event::MouseScrollDelta;

verus! {

/// `winit::event::MouseScrollDelta`, the amount of a scroll. The engine
/// hands it through without looking inside.
#[verifier::external_type_specification]
#[verifier::external_body]
pub struct ExMouseScrollDelta(MouseScrollDelta);

/// Whether a button or key went down or came up.
#[derive(Clone, Copy, Debug, PartialEq, Eq, Structural)]
pub enum ElementState {
    Pressed,
    Released,
}

/// A button of the pointing device.
#[derive(Clone, Copy, Debug, PartialEq, Eq, Structural)]
pub enum MouseButton {
    Left,
    Right,
    Middle,
    Back,
    Forward,
    Other(u16),
}

/// The stage of a touch or scroll gesture.
#[derive(Clone, Copy, Debug, PartialEq, Eq, Structural)]
pub enum TouchPhase {
    Started,
    Moved,
    Ended,
    Cancelled,
}

/// A logical key. `Named` holds a number that the embedding program gives
/// to a key that types no text (Enter, F1, ...), equal keys getting equal
/// numbers; `Character` holds the scalar that the key types under the
/// active layout, `Dead` the accent of a dead key where the platform tells
/// it, and `DeadUnknown` is a dead key where it does not.
#[derive(Clone, Copy, Debug, PartialEq, Eq, Structural)]
pub enum Key {
    Named(u16),
    Character(char),
    Unidentified,
    Dead(char),
    DeadUnknown,
}

/// A cursor position in physical pixels, relative to the window's top-left
/// corner.
#[derive(Clone, Copy, Debug, PartialEq, Eq, Structural)]
pub struct CursorPosition {
    pub x: i32,
    pub y: i32,
}

/// The movement between two cursor positions, component by component.
#[derive(Clone, Copy, Debug, PartialEq, Eq, Structural)]
pub struct CursorDelta {
    pub dx: i64,
    pub dy: i64,
}

/// An event of the window, as the platform delivers it to the engine.
/// `Other` stands for every kind of event that the engine does not act on.
#[derive(Clone, Copy, Debug, PartialEq)]
pub enum WindowEvent {
    CloseRequested,
    Resized { width: u32, height: u32 },
    RedrawRequested,
    MouseInput { state: ElementState, button: MouseButton },
    MouseWheel { delta: MouseScrollDelta, phase: TouchPhase },
    KeyboardInput { key: Key, state: ElementState },
    CursorMoved { position: CursorPosition },
    CursorEntered,
    CursorLeft,
    Other,
}

/// The width of the payload in a key or button code.
pub const CODE_PAYLOAD: u64 = 0x1_0000_0000;

impl MouseButton {
    /// The number by which a button is stored and found again. Distinct
    /// buttons have distinct codes (`lemma_button_code_injective`).
    pub open spec fn code_spec(self) -> u64 {
        match self {
            MouseButton::Left => 0,
            MouseButton::Right => 1,
            MouseButton::Middle => 2,
            MouseButton::Back => 3,
            MouseButton::Forward => 4,
            MouseButton::Other(n) => (CODE_PAYLOAD + n) as u64,
        }
    }

    #[verifier::when_used_as_spec(code_spec)]
    pub fn code(self) -> (c: u64)
        ensures
            c == self.code_spec(),
    {
        match self {
            MouseButton::Left => 0,
            MouseButton::Right => 1,
            MouseButton::Middle => 2,
            MouseButton::Back => 3,
            MouseButton::Forward => 4,
            MouseButton::Other(n) => CODE_PAYLOAD + n as u64,
        }
    }
}

impl Key {
    /// The number by which a key is stored and found again. Distinct keys
    /// have distinct codes (`lemma_key_code_injective`).
    pub open spec fn code_spec(self) -> u64 {
        match self {
            Key::Named(n) => n as u64,
            Key::Character(c) => (CODE_PAYLOAD + c as u32) as u64,
            Key::Unidentified => (2 * CODE_PAYLOAD) as u64,
            Key::DeadUnknown => (3 * CODE_PAYLOAD) as u64,
            Key::Dead(c) => (4 * CODE_PAYLOAD + c as u32) as u64,
        }
    }

    #[verifier::when_used_as_spec(code_spec)]
    pub fn code(self) -> (c: u64)
        ensures
            c == self.code_spec(),
    {
        match self {
            Key::Named(n) => n as u64,
            Key::Character(c) => CODE_PAYLOAD + (c as u32) as u64,
            Key::Unidentified => 2 * CODE_PAYLOAD,
            Key::DeadUnknown => 3 * CODE_PAYLOAD,
            Key::Dead(c) => 4 * CODE_PAYLOAD + (c as u32) as u64,
        }
    }
}

/// Two mouse buttons with the same code are the same button.
pub proof fn lemma_button_code_injective(a: MouseButton, b: MouseButton)
    requires
        a.code_spec() == b.code_spec(),
    ensures
        a == b,
{
}

/// Two keys with the same code are the same key.
pub proof fn lemma_key_code_injective(a: Key, b: Key)
    requires
        a.code_spec() == b.code_spec(),
    ensures
        a == b,
{
    if a is Character && b is Character {
        assert(a->Character_0 as u32 == b->Character_0 as u32);
    }
    if a is Dead && b is Dead {
        assert(a->Dead_0 as u32 == b->Dead_0 as u32);
    }
}

} // verus!
