//! The running phase: the promoted window and the application delegate.

use crate::app::{forwarded, DelegateCall};
use crate::event::WindowEvent;
use crate::state::common::render::RenderCore;
use crate::state::starting;
use std::sync::Arc;
use vstd::prelude::*;

verus! {

/// The phase in which the application delegate is driven. It owns the
/// delegate and keeps the window alive.
pub struct State<W, A> {
    pub app: A,
    pub _window: Arc<W>,
}

impl<W, A> State<W, A> {
    /// Promotes a starting phase whose render core has arrived: `factory`
    /// makes the delegate from the window and the render core, which
    /// leave the starting phase for good, and the window stays alive in
    /// the running phase.
    pub fn new<G, F: FnOnce(Arc<W>, RenderCore<G>) -> A>(
        old_state: starting::State<W, G>,
        factory: F,
    ) -> (state: Self)
        requires
            old_state.render_core is Some,
            call_requires(factory, (old_state.window, old_state.render_core->Some_0)),
        ensures
            call_ensures(factory, (old_state.window, old_state.render_core->Some_0), state.app),
            state._window == old_state.window,
    {
        let starting::State {
            msg_tx: _,
            msg_rx: _,
            render_core,
            splash_image: _,
            surface: _,
            window,
        } = old_state;
        let app = factory(Arc::clone(&window), render_core.unwrap());
        State { app, _window: window }
    }

    /// Decides what the delegate is called with for `event`. `consumed`
    /// says whether the delegate's hook for raw events, which sees every
    /// event first, consumed this one.
    pub fn handle_window_event(&self, event: WindowEvent, consumed: bool) -> (call: Option<
        DelegateCall,
    >)
        ensures
            call == forwarded(event, consumed),
    {
        if consumed {
            return None;
        }
        match event {
            WindowEvent::CloseRequested => Some(DelegateCall::WindowCloseRequested),
            WindowEvent::Resized { width, height } => {
                if width == 0 || height == 0 {
                    None
                } else {
                    Some(DelegateCall::WindowResized { width, height })
                }
            },
            WindowEvent::RedrawRequested => Some(DelegateCall::WindowRedraw),
            WindowEvent::MouseInput { state, button } => Some(
                DelegateCall::MouseButtonInput { button, state },
            ),
            WindowEvent::MouseWheel { delta, phase } => Some(
                DelegateCall::MouseWheelInput { delta, phase },
            ),
            WindowEvent::KeyboardInput { key, state } => Some(
                DelegateCall::KeyboardButtonInput { key, state },
            ),
            WindowEvent::CursorMoved { position } => Some(DelegateCall::CursorMoved { position }),
            WindowEvent::CursorLeft => Some(DelegateCall::CursorLeftWindow),
            WindowEvent::CursorEntered => Some(DelegateCall::CursorEnteredWindow),
            WindowEvent::Other => None,
        }
    }
}

} // verus!
