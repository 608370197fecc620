//! A minimal application-lifecycle engine: a splash phase that stays
//! responsive while the GPU is acquired in the background, a one-time
//! promotion into the running phase, and an input aggregator.

use app::forwarded;
use event::WindowEvent;
use state::common::render::RenderCore;
use state::starting::{handles, Violation};
use state::{running, starting, Handled, State};
use std::sync::Arc;
use vstd::prelude::*;

pub mod app;
pub mod event;
pub mod state;
pub mod util;

verus! {

/// The engine: it owns the active phase, if the platform has resumed the
/// application, and the factory of the application delegate until the
/// promotion to the running phase uses it up.
#[verifier::reject_recursive_types(W)]
#[verifier::reject_recursive_types(G)]
#[verifier::reject_recursive_types(A)]
pub struct YEngine<W, G, A, F: FnOnce(Arc<W>, RenderCore<G>) -> A> {
    inner: Option<YEngineInner<W, G, A>>,
    factory: Option<F>,
}

#[verifier::reject_recursive_types(G)]
struct YEngineInner<W, G, A> {
    state: State<W, G, A>,
}

impl<W, G, A> YEngineInner<W, G, A> {
    fn new(state: starting::State<W, G>) -> (inner: Self)
        ensures
            inner.state == State::<W, G, A>::Starting(state),
    {
        YEngineInner { state: State::Starting(state) }
    }

    // Replaces the starting phase by the running phase made from it.
    fn transition_to_running<F: FnOnce(Arc<W>, RenderCore<G>) -> A>(&mut self, factory: F)
        requires
            old(self).state is Starting,
            old(self).state->Starting_0.render_core is Some,
            call_requires(
                factory,
                (
                    old(self).state->Starting_0.window,
                    old(self).state->Starting_0.render_core->Some_0,
                ),
            ),
        ensures
            final(self).state is Running,
            promotes(factory, old(self).state->Starting_0, final(self).state->Running_0),
    {
        let mut old_state = State::Empty;
        std::mem::swap(&mut self.state, &mut old_state);
        match old_state {
            State::Starting(starting) => {
                self.state = State::Running(running::State::new(starting, factory));
            },
            _ => {},
        }
    }
}

/// Whether `after` is the running phase that the promotion of `before`
/// by `factory` gives: its delegate is what the factory made of the
/// starting phase's window and render core, and it keeps that window.
pub open spec fn promotes<W, G, A, F: FnOnce(Arc<W>, RenderCore<G>) -> A>(
    factory: F,
    before: starting::State<W, G>,
    after: running::State<W, A>,
) -> bool {
    &&& before.render_core is Some
    &&& call_ensures(factory, (before.window, before.render_core->Some_0), after.app)
    &&& after._window == before.window
}

impl<W, G, A, F: FnOnce(Arc<W>, RenderCore<G>) -> A> YEngine<W, G, A, F> {
    /// The active phase, if there is one yet.
    pub closed spec fn phase(&self) -> Option<State<W, G, A>> {
        match self.inner {
            Some(inner) => Some(inner.state),
            None => None,
        }
    }

    /// The factory of the delegate, as long as it has not been used.
    pub closed spec fn factory(&self) -> Option<F> {
        self.factory
    }

    /// The factory is there, and accepts whatever it is handed, exactly
    /// until the running phase is there; and no phase is ever left empty.
    pub open spec fn wf(&self) -> bool {
        match self.phase() {
            None | Some(State::Starting(_)) => {
                &&& self.factory() is Some
                &&& forall|window: Arc<W>, render_core: RenderCore<G>|
                    call_requires(self.factory()->Some_0, (window, render_core))
            },
            Some(State::Running(_)) => self.factory() is None,
            Some(State::Empty) => false,
        }
    }

    /// Whether the next event will promote the starting phase: it is
    /// active and the render core has arrived.
    pub open spec fn promotion_due(&self) -> bool {
        self.phase() matches Some(State::Starting(starting)) && starting.render_core is Some
    }

    /// An engine with no phase yet. `factory` will make the application
    /// delegate from the window and the render core.
    pub fn new(factory: F) -> (engine: Self)
        requires
            forall|window: Arc<W>, render_core: RenderCore<G>|
                call_requires(factory, (window, render_core)),
        ensures
            engine.wf(),
            engine.phase() is None,
            engine.factory() == Some(factory),
    {
        YEngine { inner: None, factory: Some(factory) }
    }

    /// The platform lets the application make windows. Where no phase
    /// exists yet, `start` makes the starting phase; where one exists,
    /// nothing happens and `start` is not called.
    pub fn resumed<S: FnOnce() -> starting::State<W, G>>(&mut self, start: S)
        requires
            old(self).wf(),
            call_requires(start, ()),
        ensures
            final(self).wf(),
            final(self).factory() == old(self).factory(),
            match old(self).phase() {
                None => final(self).phase() matches Some(State::Starting(starting))
                    && call_ensures(start, (), starting),
                Some(_) => final(self).phase() == old(self).phase(),
            },
    {
        if self.inner.is_none() {
            self.inner = Some(YEngineInner::new(start()));
        }
    }

    /// Promotes the starting phase to the running phase if the render core
    /// has arrived, and says whether it did. The factory makes the
    /// delegate and is used up.
    pub fn promote_if_ready(&mut self) -> (promoted: bool)
        requires
            old(self).wf(),
        ensures
            final(self).wf(),
            promoted == old(self).promotion_due(),
            promoted ==> {
                &&& final(self).phase() matches Some(State::Running(running))
                &&& promotes(
                    old(self).factory()->Some_0,
                    old(self).phase()->Some_0->Starting_0,
                    running,
                )
            },
            !promoted ==> {
                &&& final(self).phase() == old(self).phase()
                &&& final(self).factory() == old(self).factory()
            },
    {
        match &mut self.inner {
            Some(inner) => {
                let due = match &inner.state {
                    State::Starting(state) => state.finished(),
                    _ => false,
                };
                if due {
                    let mut factory = None;
                    std::mem::swap(&mut self.factory, &mut factory);
                    match factory {
                        Some(factory) => {
                            inner.transition_to_running(factory);
                        },
                        None => {},
                    }
                }
                due
            },
            None => false,
        }
    }

    /// Routes one event of the window. Before anything else the starting
    /// phase is promoted if its render core has arrived, so the event goes
    /// to the running phase then. With no phase at all, nothing happens.
    /// `consumed` says whether the delegate's hook for raw events consumed
    /// the event; only the running phase asks.
    pub fn window_event(&mut self, event: WindowEvent, consumed: bool) -> (routed: Result<
        Option<Handled>,
        Violation,
    >)
        requires
            old(self).wf(),
        ensures
            final(self).wf(),
            match old(self).phase() {
                None => final(self).phase() is None && final(self).factory() == old(self).factory()
                    && routed == Ok::<Option<Handled>, Violation>(None),
                Some(State::Starting(before)) => if before.render_core is Some {
                    &&& final(self).phase() matches Some(State::Running(running))
                    &&& promotes(old(self).factory()->Some_0, before, running)
                    &&& routed == Ok::<Option<Handled>, Violation>(
                        Some(Handled::Running(forwarded(event, consumed))),
                    )
                } else {
                    &&& final(self).phase() matches Some(State::Starting(after))
                    &&& final(self).factory() == old(self).factory()
                    &&& match routed {
                        Ok(Some(Handled::Starting(reaction))) => handles(
                            before,
                            event,
                            after,
                            Ok(reaction),
                        ),
                        Ok(_) => false,
                        Err(violation) => handles(before, event, after, Err(violation)),
                    }
                },
                Some(State::Running(_)) => {
                    &&& final(self).phase() == old(self).phase()
                    &&& routed == Ok::<Option<Handled>, Violation>(
                        Some(Handled::Running(forwarded(event, consumed))),
                    )
                },
                Some(State::Empty) => true,
            },
    {
        self.promote_if_ready();
        match &mut self.inner {
            Some(inner) => {
                match inner.state.handle_window_event(event, consumed) {
                    Ok(handled) => Ok(Some(handled)),
                    Err(violation) => Err(violation),
                }
            },
            None => Ok(None),
        }
    }

    /// The application delegate, once the running phase is there, for the
    /// calls that are to be made on it.
    pub fn app_mut(&mut self) -> (app: Option<&mut A>)
        ensures
            match app {
                Some(app) => {
                    &&& old(self).phase() matches Some(State::Running(before))
                    &&& *app == before.app
                    &&& final(self).phase() == Some(
                        State::<W, G, A>::Running(
                            running::State { app: *final(app), _window: before._window },
                        ),
                    )
                    &&& final(self).factory() == old(self).factory()
                },
                None => {
                    &&& !(old(self).phase() matches Some(State::Running(_)))
                    &&& final(self).phase() == old(self).phase()
                    &&& final(self).factory() == old(self).factory()
                },
            },
    {
        match &mut self.inner {
            Some(inner) => match &mut inner.state {
                State::Running(running) => Some(&mut running.app),
                _ => None,
            },
            None => None,
        }
    }
}

/// The factory makes the delegate exactly once: it is there as long as the
/// running phase is not, and gone for good once the promotion used it.
pub proof fn lemma_factory_used_once<W, G, A, F: FnOnce(Arc<W>, RenderCore<G>) -> A>(
    engine: YEngine<W, G, A, F>,
)
    requires
        engine.wf(),
    ensures
        engine.factory() is None <==> engine.phase() matches Some(State::Running(_)),
{
}

} // verus!
