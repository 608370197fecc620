//! The starting phase: the splash screen that shows while the GPU is
//! acquired in the background.

use crate::event::WindowEvent;
use crate::state::common::render::{RenderCore, SurfaceConfiguration};
use crossbeam::channel::{Receiver, Sender};
use splash::{Frame, SplashImage};
use std::sync::Arc;
use vstd::prelude::*;

pub mod geometry;
pub mod init_gpu;
pub mod splash;

verus! {

/// `crossbeam::channel::Sender`, the sending half of a channel.
#[verifier::external_type_specification]
#[verifier::external_body]
#[verifier::reject_recursive_types(T)]
pub struct ExSender<T>(Sender<T>);

/// `crossbeam::channel::Receiver`, the receiving half of a channel.
#[verifier::external_type_specification]
#[verifier::external_body]
#[verifier::reject_recursive_types(T)]
pub struct ExReceiver<T>(Receiver<T>);

/// Makes a channel of unbounded capacity with
/// `crossbeam::channel::unbounded`.
#[verifier::external_body]
fn unbounded_channel<T>() -> (Sender<T>, Receiver<T>) {
    crossbeam::channel::unbounded()
}

/// Copies the sending half with `Sender::clone`; the copy sends into the
/// same channel.
#[verifier::external_body]
fn clone_sender<T>(sender: &Sender<T>) -> Sender<T> {
    sender.clone()
}

/// Takes a message that waits in the channel with `Receiver::try_recv`,
/// without blocking. Nothing comes back where none waits or the channel is
/// disconnected. Which of these happens depends on the senders.
#[verifier::external_body]
fn try_receive<T>(receiver: &Receiver<T>) -> Option<T> {
    receiver.try_recv().ok()
}

/// What the bootstrap worker reports to the starting phase.
pub enum StateMsg<G> {
    /// The GPU is ready: its resources, with the surface configured as
    /// stated.
    InitializedGpu { resources: G, surface_config: SurfaceConfiguration },
}

/// A rule of the engine that its caller broke.
#[derive(Clone, Copy, Debug, PartialEq, Eq, Structural)]
pub enum Violation {
    /// The GPU was reported ready a second time.
    SecondGpuReady,
}

/// What the platform is to be asked for after an event in the starting
/// phase.
#[derive(Debug, PartialEq, Eq)]
pub struct Reaction {
    /// Ask the window for a redraw.
    pub request_redraw: bool,
    /// End the application's event loop.
    pub exit: bool,
    /// Resize the software surface to the frame's size and present the
    /// frame.
    pub frame: Option<Frame>,
}

/// The render core that a message brings.
pub open spec fn render_core_of<G>(msg: StateMsg<G>) -> RenderCore<G> {
    match msg {
        StateMsg::InitializedGpu { resources, surface_config } => RenderCore {
            resources,
            surface_config,
        },
    }
}

/// The render core that is stored once `msg` arrived where `stored` was
/// stored before: the one that the message brings, or a violation where
/// one was stored already.
pub open spec fn stored_after<G>(stored: Option<RenderCore<G>>, msg: StateMsg<G>) -> Result<
    RenderCore<G>,
    Violation,
> {
    match stored {
        None => Ok(render_core_of(msg)),
        Some(_) => Err(Violation::SecondGpuReady),
    }
}

/// The render core that is stored once all of `msgs` arrived in turn where
/// `stored` was stored before, or the violation that ended it.
pub open spec fn stored_after_all<G>(
    stored: Option<RenderCore<G>>,
    msgs: Seq<StateMsg<G>>,
) -> Result<Option<RenderCore<G>>, Violation>
    decreases msgs.len(),
{
    if msgs.len() == 0 {
        Ok(stored)
    } else {
        match stored_after_all(stored, msgs.drop_last()) {
            Ok(so_far) => match stored_after(so_far, msgs.last()) {
                Ok(core) => Ok(Some(core)),
                Err(violation) => Err(violation),
            },
            Err(violation) => Err(violation),
        }
    }
}

/// Whether taking in `received`, message by message, leads from `before`
/// to `after`: either all of them were taken in, or the last of them was a
/// violation, after which nothing changed.
pub open spec fn drains<G>(
    before: Option<RenderCore<G>>,
    received: Seq<StateMsg<G>>,
    after: Option<RenderCore<G>>,
    violated: bool,
) -> bool {
    if violated {
        &&& received.len() > 0
        &&& stored_after_all(before, received.drop_last()) == Ok::<
            Option<RenderCore<G>>,
            Violation,
        >(after)
        &&& stored_after(after, received.last()) is Err
    } else {
        stored_after_all(before, received) == Ok::<Option<RenderCore<G>>, Violation>(after)
    }
}

/// Whether `event` gives the window a size with pixels in it.
pub open spec fn is_drawable_resize(event: WindowEvent) -> bool {
    event matches WindowEvent::Resized { width, height } && width != 0 && height != 0
}

/// The size of the software surface once `event` was handled: the size
/// that a resize to a non-empty area gives, and else the size before.
pub open spec fn surface_after(surface: Option<(u32, u32)>, event: WindowEvent) -> Option<
    (u32, u32),
> {
    match event {
        WindowEvent::Resized { width, height } => if width != 0 && height != 0 {
            Some((width, height))
        } else {
            surface
        },
        _ => surface,
    }
}

/// The size of the software surface once all of `events` were handled in
/// turn.
pub open spec fn surface_after_all(surface: Option<(u32, u32)>, events: Seq<WindowEvent>) -> Option<
    (u32, u32),
>
    decreases events.len(),
{
    if events.len() == 0 {
        surface
    } else {
        surface_after(surface_after_all(surface, events.drop_last()), events.last())
    }
}

/// Whether `reaction` answers `event` in the starting phase with the given
/// splash image: a redraw is always requested, a close request ends the
/// loop, and a resize to a non-empty area presents the image drawn at the
/// new size. Nothing else is asked for.
pub open spec fn answers(image: &SplashImage, event: WindowEvent, reaction: Reaction) -> bool {
    &&& reaction.request_redraw
    &&& reaction.exit == (event is CloseRequested)
    &&& match event {
        WindowEvent::Resized { width, height } => if width != 0 && height != 0 {
            reaction.frame is Some && image.draws(reaction.frame->Some_0, width, height)
        } else {
            reaction.frame is None
        },
        _ => reaction.frame is None,
    }
}

/// The phase in which the splash screen shows. It owns the window, the
/// decoded splash image, the channel on which the bootstrap worker
/// reports, and the render core once it arrived.
#[verifier::reject_recursive_types(G)]
pub struct State<W, G> {
    pub msg_tx: Sender<StateMsg<G>>,
    pub msg_rx: Receiver<StateMsg<G>>,
    pub render_core: Option<RenderCore<G>>,
    pub splash_image: SplashImage,
    /// The size of the software surface, once it was given one.
    pub surface: Option<(u32, u32)>,
    pub window: Arc<W>,
}

/// Whether handling `event` in the phase `before` may leave the phase
/// `after` and give `handled`: the messages received were taken in, in
/// turn, up to a violation; unless there was one, the event was answered
/// and the software surface follows it; window, splash image and channel
/// stay.
pub open spec fn handles<W, G>(
    before: State<W, G>,
    event: WindowEvent,
    after: State<W, G>,
    handled: Result<Reaction, Violation>,
) -> bool {
    &&& exists|received: Seq<StateMsg<G>>| #[trigger]
        drains(before.render_core, received, after.render_core, handled is Err)
    &&& match handled {
        Ok(reaction) => {
            &&& answers(&before.splash_image, event, reaction)
            &&& after.surface == surface_after(before.surface, event)
        },
        Err(violation) => {
            &&& violation == Violation::SecondGpuReady
            &&& after.surface == before.surface
        },
    }
    &&& after.msg_tx == before.msg_tx
    &&& after.msg_rx == before.msg_rx
    &&& after.splash_image == before.splash_image
    &&& after.window == before.window
}

impl<W, G> State<W, G> {
    /// The starting phase for a window that shows `splash_image`. It comes
    /// with the sender for the one bootstrap worker, and with the first
    /// request to the platform: a redraw.
    pub fn new(window: Arc<W>, splash_image: SplashImage) -> (made: (
        Self,
        Sender<StateMsg<G>>,
        Reaction,
    ))
        ensures
            made.0.window == window,
            made.0.splash_image == splash_image,
            made.0.render_core is None,
            made.0.surface is None,
            made.2 == (Reaction { request_redraw: true, exit: false, frame: None }),
    {
        let (msg_tx, msg_rx) = unbounded_channel();
        let worker_tx = clone_sender(&msg_tx);
        let state = State {
            msg_tx,
            msg_rx,
            render_core: None,
            splash_image,
            surface: None,
            window,
        };
        (state, worker_tx, Reaction { request_redraw: true, exit: false, frame: None })
    }

    /// Whether the GPU is ready, that is, the render core has arrived.
    pub fn finished(&self) -> (ready: bool)
        ensures
            ready == (self.render_core is Some),
    {
        self.render_core.is_some()
    }

    /// Takes in a message of the bootstrap worker: stores the render core
    /// that it brings, unless one is stored already, which is a violation
    /// and changes nothing.
    pub fn accept(&mut self, msg: StateMsg<G>) -> (accepted: Result<(), Violation>)
        ensures
            match stored_after(old(self).render_core, msg) {
                Ok(core) => accepted is Ok && final(self).render_core == Some(core),
                Err(violation) => {
                    &&& accepted == Err::<(), Violation>(violation)
                    &&& final(self).render_core == old(self).render_core
                },
            },
            final(self).msg_tx == old(self).msg_tx,
            final(self).msg_rx == old(self).msg_rx,
            final(self).splash_image == old(self).splash_image,
            final(self).surface == old(self).surface,
            final(self).window == old(self).window,
    {
        if self.render_core.is_some() {
            return Err(Violation::SecondGpuReady);
        }
        match msg {
            StateMsg::InitializedGpu { resources, surface_config } => {
                self.render_core = Some(RenderCore { resources, surface_config });
            },
        }
        Ok(())
    }

    /// Answers `event`: a close request ends the loop; a resize to a
    /// non-empty area resizes the software surface and presents the splash
    /// image drawn at that size; a resize to an empty area, as a minimized
    /// window reports it, is passed over. A redraw is requested in every
    /// case, so that another event follows on which readiness is looked at.
    pub fn react(&mut self, event: WindowEvent) -> (reaction: Reaction)
        ensures
            answers(&old(self).splash_image, event, reaction),
            final(self).surface == surface_after(old(self).surface, event),
            final(self).msg_tx == old(self).msg_tx,
            final(self).msg_rx == old(self).msg_rx,
            final(self).render_core == old(self).render_core,
            final(self).splash_image == old(self).splash_image,
            final(self).window == old(self).window,
    {
        match event {
            WindowEvent::CloseRequested => Reaction {
                request_redraw: true,
                exit: true,
                frame: None,
            },
            WindowEvent::Resized { width, height } => {
                if width == 0 || height == 0 {
                    return Reaction { request_redraw: true, exit: false, frame: None };
                }
                self.surface = Some((width, height));
                let frame = self.splash_image.draw(width, height);
                Reaction { request_redraw: true, exit: false, frame: Some(frame) }
            },
            _ => Reaction { request_redraw: true, exit: false, frame: None },
        }
    }

    /// Handles one event of the window. First every message that waits in
    /// the channel is taken in, without blocking; a second report that the
    /// GPU is ready is a violation, which ends the call before the event is
    /// looked at. Then the event is answered as `react` says.
    pub fn handle_window_event(&mut self, event: WindowEvent) -> (handled: Result<
        Reaction,
        Violation,
    >)
        ensures
            handles(*old(self), event, *final(self), handled),
    {
        let ghost mut received: Seq<StateMsg<G>> = Seq::empty();
        loop
            invariant
                self.msg_tx == old(self).msg_tx,
                self.msg_rx == old(self).msg_rx,
                self.splash_image == old(self).splash_image,
                self.surface == old(self).surface,
                self.window == old(self).window,
                drains(old(self).render_core, received, self.render_core, false),
            decreases
                    (if self.render_core is None {
                        1nat
                    } else {
                        0nat
                    }),
        {
            match try_receive(&self.msg_rx) {
                None => {
                    break ;
                },
                Some(msg) => {
                    proof {
                        assert(received.push(msg).drop_last() =~= received);
                        received = received.push(msg);
                    }
                    match self.accept(msg) {
                        Ok(()) => {},
                        Err(violation) => {
                            assert(drains(old(self).render_core, received, self.render_core, true));
                            return Err(violation);
                        },
                    }
                },
            }
        }
        let handled = Ok(self.react(event));
        assert(drains(old(self).render_core, received, self.render_core, handled is Err));
        handled
    }
}

/// The GPU is taken as ready at most once: whatever was stored, once one
/// report was taken in, every further report is a violation.
pub proof fn lemma_gpu_ready_at_most_once<G>(
    stored: Option<RenderCore<G>>,
    first: StateMsg<G>,
    second: StateMsg<G>,
)
    requires
        stored_after(stored, first) is Ok,
    ensures
        stored_after(Some(stored_after(stored, first)->Ok_0), second) == Err::<
            RenderCore<G>,
            Violation,
        >(Violation::SecondGpuReady),
{
}

/// Over any messages, the GPU is taken as ready at most once: two or more
/// reports never all go through, and what is stored once stays stored.
pub proof fn lemma_drain_accepts_one<G>(stored: Option<RenderCore<G>>, msgs: Seq<StateMsg<G>>)
    ensures
        msgs.len() >= 2 ==> stored_after_all(stored, msgs) is Err,
        stored is Some && msgs.len() >= 1 ==> stored_after_all(stored, msgs) is Err,
        stored is None && msgs.len() == 1 ==> stored_after_all(stored, msgs) == Ok::<
            Option<RenderCore<G>>,
            Violation,
        >(Some(render_core_of(msgs[0]))),
        msgs.len() == 0 ==> stored_after_all(stored, msgs) == Ok::<
            Option<RenderCore<G>>,
            Violation,
        >(stored),
    decreases msgs.len(),
{
    if msgs.len() > 0 {
        lemma_drain_accepts_one(stored, msgs.drop_last());
    }
}

/// A drain never replaces a render core: where one was stored before, the
/// same one is stored after, violation or not; and after a violation one
/// is stored.
pub proof fn lemma_drain_keeps_stored<G>(
    before: Option<RenderCore<G>>,
    received: Seq<StateMsg<G>>,
    after: Option<RenderCore<G>>,
    violated: bool,
)
    requires
        drains(before, received, after, violated),
    ensures
        before is Some ==> after == before,
        violated ==> after is Some,
        !violated ==> received.len() <= 1,
{
    lemma_drain_accepts_one(before, received);
    if violated {
        lemma_drain_accepts_one(before, received.drop_last());
    }
}

/// After resizes to non-empty areas, at least one, the software surface
/// has the size of the last.
pub proof fn lemma_surface_follows_resizes(surface: Option<(u32, u32)>, events: Seq<WindowEvent>)
    requires
        events.len() > 0,
        forall|i: int| 0 <= i < events.len() ==> is_drawable_resize(#[trigger] events[i]),
    ensures
        surface_after_all(surface, events) == Some(
            (events.last()->Resized_width, events.last()->Resized_height),
        ),
{
}

/// The frame that answers a resize to a non-empty area has the size of the
/// resize and one word for each pixel of it, so the software surface's
/// buffer has the size that the window was given last.
pub proof fn lemma_frame_follows_resize(image: &SplashImage, event: WindowEvent, reaction: Reaction)
    requires
        is_drawable_resize(event),
        answers(image, event, reaction),
    ensures
        reaction.frame is Some,
        reaction.frame->Some_0.width == event->Resized_width,
        reaction.frame->Some_0.height == event->Resized_height,
        reaction.frame->Some_0.pixels@.len() == event->Resized_width * event->Resized_height,
        surface_after(None, event) == Some(
            (reaction.frame->Some_0.width, reaction.frame->Some_0.height),
        ),
{
}

/// A resize to an empty area, and every event that is no resize, leaves
/// the software surface as it is, and no frame is presented.
pub proof fn lemma_surface_keeps_size(
    image: &SplashImage,
    surface: Option<(u32, u32)>,
    event: WindowEvent,
    reaction: Reaction,
)
    requires
        !is_drawable_resize(event),
        answers(image, event, reaction),
    ensures
        surface_after(surface, event) == surface,
        reaction.frame is None,
{
}

} // verus!
