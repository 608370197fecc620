//! The phases of the engine.

use crate::app::{forwarded, DelegateCall};
use crate::event::WindowEvent;
use crossbeam::channel::Sender;
use starting::splash::SplashImage;
use starting::{handles, Reaction, StateMsg, Violation};
use std::sync::Arc;
use vstd::prelude::*;

pub mod common;
/// The phase in which the application runs.
pub mod running;
/// The phase in which the splash screen shows.
pub mod starting;

verus! {

/// The phase that the engine is in. `Empty` stands in only while one phase
/// is taken out to make the next from it.
#[verifier::reject_recursive_types(G)]
pub enum State<W, G, A> {
    Empty,
    Starting(starting::State<W, G>),
    Running(running::State<W, A>),
}

/// What came of an event in the phase that handled it.
#[derive(Debug, PartialEq)]
pub enum Handled {
    /// The starting phase asks this of the platform.
    Starting(Reaction),
    /// The running phase calls the delegate with this, if with anything.
    Running(Option<DelegateCall>),
}

impl<W, G, A> State<W, G, A> {
    /// The first phase: the starting phase for a window that shows
    /// `splash_image`, with the sender for the bootstrap worker and the
    /// first request to the platform.
    pub fn new(window: Arc<W>, splash_image: SplashImage) -> (made: (
        Self,
        Sender<StateMsg<G>>,
        Reaction,
    ))
        ensures
            made.0 is Starting,
            made.0->Starting_0.window == window,
            made.0->Starting_0.splash_image == splash_image,
            made.0->Starting_0.render_core is None,
            made.0->Starting_0.surface is None,
            made.2 == (Reaction { request_redraw: true, exit: false, frame: None }),
    {
        let (state, worker_tx, reaction) = starting::State::new(window, splash_image);
        (State::Starting(state), worker_tx, reaction)
    }

    /// Hands `event` to the phase that is active. `consumed` says whether
    /// the delegate's hook for raw events consumed the event; only the
    /// running phase asks.
    pub fn handle_window_event(&mut self, event: WindowEvent, consumed: bool) -> (handled: Result<
        Handled,
        Violation,
    >)
        requires
            !(*old(self) is Empty),
        ensures
            match *old(self) {
                State::Starting(before) => {
                    &&& *final(self) matches State::Starting(after)
                    &&& match handled {
                        Ok(Handled::Starting(reaction)) => handles(
                            before,
                            event,
                            after,
                            Ok(reaction),
                        ),
                        Ok(Handled::Running(_)) => false,
                        Err(violation) => handles(before, event, after, Err(violation)),
                    }
                },
                State::Running(_) => {
                    &&& *final(self) == *old(self)
                    &&& handled == Ok::<Handled, Violation>(
                        Handled::Running(forwarded(event, consumed)),
                    )
                },
                State::Empty => true,
            },
    {
        match self {
            State::Starting(state) => {
                match state.handle_window_event(event) {
                    Ok(reaction) => Ok(Handled::Starting(reaction)),
                    Err(violation) => Err(violation),
                }
            },
            State::Running(state) => Ok(
                Handled::Running(state.handle_window_event(event, consumed)),
            ),
            State::Empty => Ok(Handled::Running(None)),
        }
    }
}

} // verus!
