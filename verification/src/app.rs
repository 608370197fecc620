//! The calls that the running phase makes on the application delegate.

use crate::event::{CursorPosition, ElementState, Key, MouseButton, TouchPhase, WindowEvent};
use vstd::prelude::*;
use winit::event::MouseScrollDelta;

verus! {

/// One call on the application delegate, with its arguments. Each variant
/// stands for the delegate's callback of the same name.
#[derive(Clone, Copy, Debug, PartialEq)]
pub enum DelegateCall {
    WindowResized { width: u32, height: u32 },
    WindowCloseRequested,
    WindowRedraw,
    MouseButtonInput { button: MouseButton, state: ElementState },
    MouseWheelInput { delta: MouseScrollDelta, phase: TouchPhase },
    CursorMoved { position: CursorPosition },
    CursorEnteredWindow,
    CursorLeftWindow,
    KeyboardButtonInput { key: Key, state: ElementState },
}

/// The call that forwards `event` to the delegate, if the event is
/// forwarded at all: a resize to an empty area and an event of no known
/// kind are not.
pub open spec fn call_for(event: WindowEvent) -> Option<DelegateCall> {
    match event {
        WindowEvent::CloseRequested => Some(DelegateCall::WindowCloseRequested),
        WindowEvent::Resized { width, height } => if width != 0 && height != 0 {
            Some(DelegateCall::WindowResized { width, height })
        } else {
            None
        },
        WindowEvent::RedrawRequested => Some(DelegateCall::WindowRedraw),
        WindowEvent::MouseInput { state, button } => Some(
            DelegateCall::MouseButtonInput { button, state },
        ),
        WindowEvent::MouseWheel { delta, phase } => Some(
            DelegateCall::MouseWheelInput { delta, phase },
        ),
        WindowEvent::KeyboardInput { key, state } => Some(
            DelegateCall::KeyboardButtonInput { key, state },
        ),
        WindowEvent::CursorMoved { position } => Some(DelegateCall::CursorMoved { position }),
        WindowEvent::CursorEntered => Some(DelegateCall::CursorEnteredWindow),
        WindowEvent::CursorLeft => Some(DelegateCall::CursorLeftWindow),
        WindowEvent::Other => None,
    }
}

/// What the delegate is called with for `event`, given whether its hook
/// for raw events consumed the event: nothing once it was consumed, and
/// else the call that forwards the event.
pub open spec fn forwarded(event: WindowEvent, consumed: bool) -> Option<DelegateCall> {
    if consumed {
        None
    } else {
        call_for(event)
    }
}

} // verus!
