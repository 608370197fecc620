//! The input aggregator: a bounded queue of timestamped input events,
//! the sets of keys and mouse buttons that are down, and the cursor.

use crate::event::{
    lemma_button_code_injective, lemma_key_code_injective, CursorDelta, CursorPosition,
    ElementState, Key, MouseButton, TouchPhase,
};
use rustc_hash::FxHashSet;
use std::collections::VecDeque;
use std::time::Instant;
use vstd::prelude::*;
use winit::event::MouseScrollDelta;

verus! {

/// `std::time::Instant`, a moment on the monotonic clock. Nothing is known
/// of its value.
#[verifier::external_type_specification]
#[verifier::external_body]
pub struct ExInstant(Instant);

/// `rustc_hash::FxBuildHasher`, the hasher of the pressed sets.
#[verifier::external_type_specification]
#[verifier::external_body]
pub struct ExFxBuildHasher(rustc_hash::FxBuildHasher);

/// One input event as the aggregator queues it.
#[derive(Clone, Copy, Debug, PartialEq)]
pub enum InputEvent {
    MousePressed(MouseButton),
    MouseReleased(MouseButton),
    MouseWheel(MouseScrollDelta, TouchPhase),
    CursorMoved(CursorPosition),
    KeyPressed(Key),
    KeyReleased(Key),
    CursorLeftWindow,
    CursorEnteredWindow,
}

impl InputEvent {
    /// Whether this is a cursor movement.
    pub fn is_cursor_moved(&self) -> (b: bool)
        ensures
            b == (*self is CursorMoved),
    {
        match self {
            InputEvent::CursorMoved(_) => true,
            _ => false,
        }
    }
}

/// What an aggregator holds, as mathematics.
#[verifier::ext_equal]
pub struct InputState {
    /// The queued events with the moment each was captured, oldest first.
    pub queue: Seq<(Instant, InputEvent)>,
    /// The most events the queue may hold.
    pub capacity: nat,
    /// Whether a cursor movement replaces a cursor movement queued just
    /// before it.
    pub prune_cursor_moved: bool,
    /// The keys that are down.
    pub pressed_keys: Set<Key>,
    /// The mouse buttons that are down.
    pub pressed_mouse_buttons: Set<MouseButton>,
    /// The last known cursor position.
    pub cursor: CursorPosition,
    /// The cursor position at the last query for the cursor's movement.
    pub delta_origin: CursorPosition,
}

/// The movement from `from` to `to`.
pub open spec fn delta_between(from: CursorPosition, to: CursorPosition) -> CursorDelta {
    CursorDelta { dx: (to.x - from.x) as i64, dy: (to.y - from.y) as i64 }
}

impl InputState {
    /// The queue is within its capacity.
    pub open spec fn wf(self) -> bool {
        self.queue.len() <= self.capacity
    }

    /// A fresh aggregator: nothing queued, nothing down, the cursor at the
    /// origin.
    pub open spec fn fresh(capacity: nat, prune_cursor_moved: bool) -> InputState {
        InputState {
            queue: Seq::empty(),
            capacity,
            prune_cursor_moved,
            pressed_keys: Set::empty(),
            pressed_mouse_buttons: Set::empty(),
            cursor: CursorPosition { x: 0, y: 0 },
            delta_origin: CursorPosition { x: 0, y: 0 },
        }
    }

    /// Whether `event` takes the place of the newest queued event: it is a
    /// cursor movement, pruning is on, and the newest queued event is a
    /// cursor movement too.
    pub open spec fn supersedes_newest(self, event: InputEvent) -> bool {
        &&& event is CursorMoved
        &&& self.prune_cursor_moved
        &&& self.queue.len() > 0
        &&& self.queue.last().1 is CursorMoved
    }

    /// The state once `event`, captured at `at`, was pushed: it joins the
    /// queue at the back unless the queue is full, in which case the
    /// incoming event is dropped and the queue stays as it is. Nothing but
    /// the queue changes.
    pub open spec fn pushed(self, event: InputEvent, at: Instant) -> InputState {
        InputState {
            queue: if self.queue.len() >= self.capacity {
                self.queue
            } else {
                self.queue.push((at, event))
            },
            ..self
        }
    }

    /// The queue once `event`, captured at `at`, was recorded. A
    /// superseded movement leaves first; then the event is pushed.
    pub open spec fn enqueue(self, event: InputEvent, at: Instant) -> Seq<(Instant, InputEvent)> {
        let kept = if self.supersedes_newest(event) {
            self.queue.drop_last()
        } else {
            self.queue
        };
        (InputState { queue: kept, ..self }).pushed(event, at).queue
    }

    /// The keys that are down once `event` was recorded.
    pub open spec fn keys_after(self, event: InputEvent) -> Set<Key> {
        match event {
            InputEvent::KeyPressed(key) => self.pressed_keys.insert(key),
            InputEvent::KeyReleased(key) => self.pressed_keys.remove(key),
            _ => self.pressed_keys,
        }
    }

    /// The mouse buttons that are down once `event` was recorded.
    pub open spec fn mouse_buttons_after(self, event: InputEvent) -> Set<MouseButton> {
        match event {
            InputEvent::MousePressed(button) => self.pressed_mouse_buttons.insert(button),
            InputEvent::MouseReleased(button) => self.pressed_mouse_buttons.remove(button),
            _ => self.pressed_mouse_buttons,
        }
    }

    /// The state once `event`, captured at `at`, was recorded.
    pub open spec fn record(self, event: InputEvent, at: Instant) -> InputState {
        InputState {
            queue: self.enqueue(event, at),
            pressed_keys: self.keys_after(event),
            pressed_mouse_buttons: self.mouse_buttons_after(event),
            cursor: match event {
                InputEvent::CursorMoved(position) => position,
                _ => self.cursor,
            },
            ..self
        }
    }

    /// The state once all of `entries`, events with the moments they were
    /// captured at, were recorded in turn.
    pub open spec fn record_all(self, entries: Seq<(Instant, InputEvent)>) -> InputState
        decreases entries.len(),
    {
        if entries.len() == 0 {
            self
        } else {
            self.record_all(entries.drop_last()).record(entries.last().1, entries.last().0)
        }
    }

    /// The state once the oldest event was taken out.
    pub open spec fn popped(self) -> InputState {
        InputState {
            queue: if self.queue.len() > 0 {
                self.queue.drop_first()
            } else {
                self.queue
            },
            ..self
        }
    }

    /// The cursor's movement since the last query for it.
    pub open spec fn delta(self) -> CursorDelta {
        delta_between(self.delta_origin, self.cursor)
    }

    /// The state once the cursor's movement was queried.
    pub open spec fn delta_taken(self) -> InputState {
        InputState { delta_origin: self.cursor, ..self }
    }
}

/// Reads the monotonic clock with `Instant::now`. Nothing is claimed of the
/// moment that comes back.
#[verifier::external_body]
fn now() -> Instant {
    Instant::now()
}

/// Puts `code` into the set with `HashSet::insert`: afterwards the set
/// holds what it held and `code`.
#[verifier::external_body]
fn code_set_insert(set: &mut FxHashSet<u64>, code: u64)
    ensures
        final(set)@ == old(set)@.insert(code),
{
    set.insert(code);
}

/// Takes `code` out of the set with `HashSet::remove`: afterwards the set
/// holds what it held but `code`.
#[verifier::external_body]
fn code_set_remove(set: &mut FxHashSet<u64>, code: u64)
    ensures
        final(set)@ == old(set)@.remove(code),
{
    set.remove(&code);
}

/// Asks the set with `HashSet::contains` whether it holds `code`.
#[verifier::external_body]
fn code_set_contains(set: &FxHashSet<u64>, code: u64) -> (found: bool)
    ensures
        found == set@.contains(code),
{
    set.contains(&code)
}

/// The keys whose codes are in `codes`.
pub open spec fn keys_of(codes: Set<u64>) -> Set<Key> {
    Set::new(|key: Key| codes.contains(key.code_spec()))
}

/// The mouse buttons whose codes are in `codes`.
pub open spec fn mouse_buttons_of(codes: Set<u64>) -> Set<MouseButton> {
    Set::new(|button: MouseButton| codes.contains(button.code_spec()))
}

proof fn lemma_keys_of_insert(codes: Set<u64>, key: Key)
    ensures
        keys_of(codes.insert(key.code_spec())) == keys_of(codes).insert(key),
{
    let inserted = keys_of(codes.insert(key.code_spec()));
    assert forall|k: Key| inserted.contains(k) implies keys_of(codes).insert(key).contains(k) by {
        if k.code_spec() == key.code_spec() {
            lemma_key_code_injective(k, key);
        }
    }
    assert(inserted =~= keys_of(codes).insert(key));
}

proof fn lemma_keys_of_remove(codes: Set<u64>, key: Key)
    ensures
        keys_of(codes.remove(key.code_spec())) == keys_of(codes).remove(key),
{
    let removed = keys_of(codes.remove(key.code_spec()));
    assert forall|k: Key| keys_of(codes).remove(key).contains(k) implies removed.contains(k) by {
        if k.code_spec() == key.code_spec() {
            lemma_key_code_injective(k, key);
        }
    }
    assert(removed =~= keys_of(codes).remove(key));
}

proof fn lemma_mouse_buttons_of_insert(codes: Set<u64>, button: MouseButton)
    ensures
        mouse_buttons_of(codes.insert(button.code_spec())) == mouse_buttons_of(codes).insert(
            button,
        ),
{
    let inserted = mouse_buttons_of(codes.insert(button.code_spec()));
    let expected = mouse_buttons_of(codes).insert(button);
    assert forall|b: MouseButton| inserted.contains(b) implies expected.contains(b) by {
        if b.code_spec() == button.code_spec() {
            lemma_button_code_injective(b, button);
        }
    }
    assert(inserted =~= expected);
}

proof fn lemma_mouse_buttons_of_remove(codes: Set<u64>, button: MouseButton)
    ensures
        mouse_buttons_of(codes.remove(button.code_spec())) == mouse_buttons_of(codes).remove(
            button,
        ),
{
    let removed = mouse_buttons_of(codes.remove(button.code_spec()));
    let expected = mouse_buttons_of(codes).remove(button);
    assert forall|b: MouseButton| expected.contains(b) implies removed.contains(b) by {
        if b.code_spec() == button.code_spec() {
            lemma_button_code_injective(b, button);
        }
    }
    assert(removed =~= expected);
}

/// Buffers input events in a bounded queue and keeps the live state of
/// keys, mouse buttons and cursor.
#[derive(Debug)]
pub struct InputManager {
    events: VecDeque<(Instant, InputEvent)>,
    max_events: usize,
    prune_cursor_moved_events: bool,
    pressed_keys: FxHashSet<u64>,
    pressed_mouse_buttons: FxHashSet<u64>,
    cursor_position: CursorPosition,
    // The position the cursor was at when its movement was last queried.
    cursor_position_for_delta: CursorPosition,
}

impl View for InputManager {
    type V = InputState;

    closed spec fn view(&self) -> InputState {
        InputState {
            queue: self.events@,
            capacity: self.max_events as nat,
            prune_cursor_moved: self.prune_cursor_moved_events,
            pressed_keys: keys_of(self.pressed_keys@),
            pressed_mouse_buttons: mouse_buttons_of(self.pressed_mouse_buttons@),
            cursor: self.cursor_position,
            delta_origin: self.cursor_position_for_delta,
        }
    }
}

impl Default for InputManager {
    /// An aggregator for up to 32 events that prunes cursor movements.
    fn default() -> (m: Self)
        ensures
            m@ == InputState::fresh(32, true),
            m@.wf(),
    {
        InputManager::new(32, true)
    }
}

impl InputManager {
    /// An aggregator for up to `max_events` queued events.
    pub fn new(max_events: usize, prune_cursor_moved_events: bool) -> (m: Self)
        ensures
            m@ == InputState::fresh(max_events as nat, prune_cursor_moved_events),
            m@.wf(),
    {
        let m = InputManager {
            events: VecDeque::new(),
            max_events,
            prune_cursor_moved_events,
            pressed_keys: FxHashSet::default(),
            pressed_mouse_buttons: FxHashSet::default(),
            cursor_position: CursorPosition { x: 0, y: 0 },
            cursor_position_for_delta: CursorPosition { x: 0, y: 0 },
        };
        assert(m@ =~= InputState::fresh(max_events as nat, prune_cursor_moved_events));
        m
    }

    /// Records `event`, captured at `at`: the pressed sets and the cursor
    /// follow the event, a cursor movement supersedes one queued just
    /// before it where pruning is on, and the event joins the queue unless
    /// the queue is full.
    pub fn record(&mut self, event: InputEvent, at: Instant)
        ensures
            final(self)@ == old(self)@.record(event, at),
            old(self)@.wf() ==> final(self)@.wf(),
    {
        match event {
            InputEvent::MousePressed(button) => {
                self.set_mouse_button_pressed(button, true);
            },
            InputEvent::MouseReleased(button) => {
                self.set_mouse_button_pressed(button, false);
            },
            InputEvent::KeyPressed(key) => {
                self.set_key_pressed(key, true);
            },
            InputEvent::KeyReleased(key) => {
                self.set_key_pressed(key, false);
            },
            InputEvent::CursorMoved(position) => {
                self.cursor_position = position;
                if self.prune_cursor_moved_events {
                    let queued = self.events.len();
                    if queued > 0 && self.events[queued - 1].1.is_cursor_moved() {
                        self.events.pop_back();
                    }
                }
            },
            _ => {},
        }
        self.push_event(event, at);
        assert(self@ =~= old(self)@.record(event, at));
    }

    /// Records a press or release of a mouse button at the present moment.
    pub fn handle_mouse_button_input(&mut self, button: MouseButton, state: ElementState)
        ensures
            exists|at: Instant|
                final(self)@ == old(self)@.record(mouse_button_event(button, state), at),
            old(self)@.wf() ==> final(self)@.wf(),
    {
        let event = match state {
            ElementState::Pressed => InputEvent::MousePressed(button),
            ElementState::Released => InputEvent::MouseReleased(button),
        };
        self.record(event, now());
    }

    /// Records a turn of the mouse wheel at the present moment.
    pub fn handle_mouse_wheel_input(&mut self, delta: MouseScrollDelta, phase: TouchPhase)
        ensures
            exists|at: Instant|
                final(self)@ == old(self)@.record(InputEvent::MouseWheel(delta, phase), at),
            old(self)@.wf() ==> final(self)@.wf(),
    {
        self.record(InputEvent::MouseWheel(delta, phase), now());
    }

    /// Records a movement of the cursor to `position` at the present moment.
    pub fn handle_cursor_moved(&mut self, position: CursorPosition)
        ensures
            exists|at: Instant|
                final(self)@ == old(self)@.record(InputEvent::CursorMoved(position), at),
            old(self)@.wf() ==> final(self)@.wf(),
    {
        self.record(InputEvent::CursorMoved(position), now());
    }

    /// Records a press or release of a key at the present moment.
    pub fn handle_keyboard_button_input(&mut self, key: Key, state: ElementState)
        ensures
            exists|at: Instant| final(self)@ == old(self)@.record(key_event(key, state), at),
            old(self)@.wf() ==> final(self)@.wf(),
    {
        let event = match state {
            ElementState::Pressed => InputEvent::KeyPressed(key),
            ElementState::Released => InputEvent::KeyReleased(key),
        };
        self.record(event, now());
    }

    /// Records at the present moment that the cursor left the window.
    pub fn handle_cursor_left_window(&mut self)
        ensures
            exists|at: Instant| final(self)@ == old(self)@.record(InputEvent::CursorLeftWindow, at),
            old(self)@.wf() ==> final(self)@.wf(),
    {
        self.record(InputEvent::CursorLeftWindow, now());
    }

    /// Records at the present moment that the cursor entered the window.
    pub fn handle_cursor_entered_window(&mut self)
        ensures
            exists|at: Instant|
                final(self)@ == old(self)@.record(InputEvent::CursorEnteredWindow, at),
            old(self)@.wf() ==> final(self)@.wf(),
    {
        self.record(InputEvent::CursorEnteredWindow, now());
    }

    /// Takes out the oldest queued event with the moment it was captured.
    pub fn pop_event(&mut self) -> (oldest: Option<(Instant, InputEvent)>)
        ensures
            oldest == if old(self)@.queue.len() > 0 {
                Some(old(self)@.queue.first())
            } else {
                None
            },
            final(self)@ == old(self)@.popped(),
            old(self)@.wf() ==> final(self)@.wf(),
    {
        let oldest = self.events.pop_front();
        assert(self@ =~= old(self)@.popped());
        oldest
    }

    /// Pushes `event`, captured at `at`, onto the queue and touches nothing
    /// else. A full queue stays exactly as it is: the incoming event is
    /// dropped, not the oldest one.
    pub fn push_event(&mut self, event: InputEvent, at: Instant)
        ensures
            final(self)@ == old(self)@.pushed(event, at),
            old(self)@.wf() ==> final(self)@.wf(),
    {
        if self.events.len() >= self.max_events {
            return ;
        }
        self.events.push_back((at, event));
        assert(self@ =~= old(self)@.pushed(event, at));
    }

    /// Whether `key` is down.
    pub fn is_key_pressed(&self, key: &Key) -> (pressed: bool)
        ensures
            pressed == self@.pressed_keys.contains(*key),
    {
        code_set_contains(&self.pressed_keys, key.code())
    }

    /// Marks `key` as down or up without queueing an event.
    pub fn set_key_pressed(&mut self, key: Key, pressed: bool)
        ensures
            final(self)@ == (InputState {
                pressed_keys: if pressed {
                    old(self)@.pressed_keys.insert(key)
                } else {
                    old(self)@.pressed_keys.remove(key)
                },
                ..old(self)@
            }),
    {
        if pressed {
            code_set_insert(&mut self.pressed_keys, key.code());
            proof {
                lemma_keys_of_insert(old(self).pressed_keys@, key);
            }
        } else {
            code_set_remove(&mut self.pressed_keys, key.code());
            proof {
                lemma_keys_of_remove(old(self).pressed_keys@, key);
            }
        }
    }

    /// Whether `button` is down.
    pub fn is_mouse_button_pressed(&self, button: &MouseButton) -> (pressed: bool)
        ensures
            pressed == self@.pressed_mouse_buttons.contains(*button),
    {
        code_set_contains(&self.pressed_mouse_buttons, button.code())
    }

    /// Marks `button` as down or up without queueing an event.
    pub fn set_mouse_button_pressed(&mut self, button: MouseButton, pressed: bool)
        ensures
            final(self)@ == (InputState {
                pressed_mouse_buttons: if pressed {
                    old(self)@.pressed_mouse_buttons.insert(button)
                } else {
                    old(self)@.pressed_mouse_buttons.remove(button)
                },
                ..old(self)@
            }),
    {
        if pressed {
            code_set_insert(&mut self.pressed_mouse_buttons, button.code());
            proof {
                lemma_mouse_buttons_of_insert(old(self).pressed_mouse_buttons@, button);
            }
        } else {
            code_set_remove(&mut self.pressed_mouse_buttons, button.code());
            proof {
                lemma_mouse_buttons_of_remove(old(self).pressed_mouse_buttons@, button);
            }
        }
    }

    /// The last known cursor position.
    pub fn cursor_position(&self) -> (position: CursorPosition)
        ensures
            position == self@.cursor,
    {
        self.cursor_position
    }

    /// The cursor's movement since the last call of this function, or since
    /// the aggregator was made. The present position becomes the point
    /// from which the next call measures.
    pub fn cursor_delta(&mut self) -> (delta: CursorDelta)
        ensures
            delta == old(self)@.delta(),
            final(self)@ == old(self)@.delta_taken(),
            old(self)@.wf() ==> final(self)@.wf(),
    {
        let delta = CursorDelta {
            dx: self.cursor_position.x as i64 - self.cursor_position_for_delta.x as i64,
            dy: self.cursor_position.y as i64 - self.cursor_position_for_delta.y as i64,
        };
        self.cursor_position_for_delta = self.cursor_position;
        delta
    }
}

/// The event that a press or release of `button` is queued as.
pub open spec fn mouse_button_event(button: MouseButton, state: ElementState) -> InputEvent {
    match state {
        ElementState::Pressed => InputEvent::MousePressed(button),
        ElementState::Released => InputEvent::MouseReleased(button),
    }
}

/// The event that a press or release of `key` is queued as.
pub open spec fn key_event(key: Key, state: ElementState) -> InputEvent {
    match state {
        ElementState::Pressed => InputEvent::KeyPressed(key),
        ElementState::Released => InputEvent::KeyReleased(key),
    }
}

/// Pushing an event never takes the queue above its capacity, and the
/// queue is the old one, or the old one with the event at its back.
pub proof fn lemma_push_within_capacity(state: InputState, event: InputEvent, at: Instant)
    requires
        state.wf(),
    ensures
        state.pushed(event, at).wf(),
        state.pushed(event, at).queue == if state.queue.len() < state.capacity {
            state.queue.push((at, event))
        } else {
            state.queue
        },
{
}

/// An event pushed onto a full queue is dropped: the whole state stays as
/// it was, with the same events in the same order at the same moments, so
/// they come out of the queue as they would have before.
pub proof fn lemma_push_to_full_queue_drops_incoming(
    state: InputState,
    event: InputEvent,
    at: Instant,
)
    requires
        state.queue.len() >= state.capacity,
    ensures
        state.pushed(event, at) == state,
        state.pushed(event, at).popped() == state.popped(),
{
    assert(state.pushed(event, at) =~= state);
}

/// No sequence of recorded events ever queues more than the capacity.
pub proof fn lemma_records_within_capacity(state: InputState, entries: Seq<(Instant, InputEvent)>)
    requires
        state.wf(),
    ensures
        state.record_all(entries).wf(),
        state.record_all(entries).capacity == state.capacity,
    decreases entries.len(),
{
    if entries.len() > 0 {
        lemma_records_within_capacity(state, entries.drop_last());
    }
}

/// Recording an event never takes the queue above its capacity.
pub proof fn lemma_record_within_capacity(state: InputState, event: InputEvent, at: Instant)
    requires
        state.wf(),
    ensures
        state.record(event, at).wf(),
        state.record(event, at).capacity == state.capacity,
{
}

/// An event offered to a full queue is dropped: the queue stays exactly as
/// it was, so the events queued before come out of it in their old order.
/// The one event that is not simply offered is a cursor movement that
/// supersedes the newest queued event.
pub proof fn lemma_full_queue_drops_incoming(state: InputState, event: InputEvent, at: Instant)
    requires
        state.wf(),
        state.queue.len() >= state.capacity,
        !state.supersedes_newest(event),
    ensures
        state.record(event, at).queue == state.queue,
        state.record(event, at).popped().queue == state.popped().queue,
{
}

/// Recording keeps the queued history in order: what was queued is the
/// front of what is queued afterwards, but for a superseded cursor
/// movement at the back.
pub proof fn lemma_record_keeps_history(state: InputState, event: InputEvent, at: Instant)
    ensures
        !state.supersedes_newest(event) ==> state.queue.is_prefix_of(
            state.record(event, at).queue,
        ),
        state.supersedes_newest(event) ==> state.queue.drop_last().is_prefix_of(
            state.record(event, at).queue,
        ),
{
}

/// With pruning on, a cursor movement recorded right after another makes
/// the earlier one vanish: the state is as if only the later had been
/// recorded.
pub proof fn lemma_cursor_moves_coalesce(
    state: InputState,
    first: CursorPosition,
    first_at: Instant,
    second: CursorPosition,
    second_at: Instant,
)
    requires
        state.wf(),
        state.prune_cursor_moved,
    ensures
        state.record(InputEvent::CursorMoved(first), first_at).record(
            InputEvent::CursorMoved(second),
            second_at,
        ) == state.record(InputEvent::CursorMoved(second), second_at),
{
    let once = state.record(InputEvent::CursorMoved(first), first_at);
    let twice = once.record(InputEvent::CursorMoved(second), second_at);
    let direct = state.record(InputEvent::CursorMoved(second), second_at);
    if state.supersedes_newest(InputEvent::CursorMoved(first)) {
        let kept = state.queue.drop_last();
        assert(once.queue.drop_last() =~= kept);
    } else if state.queue.len() < state.capacity {
        assert(once.queue.drop_last() =~= state.queue);
    }
    assert(twice =~= direct);
}

/// The cursor's movement, queried twice with no movement recorded in
/// between, is zero the second time.
pub proof fn lemma_second_delta_is_zero(state: InputState)
    ensures
        state.delta_taken().delta() == (CursorDelta { dx: 0, dy: 0 }),
{
}

/// Pressing a key is idempotent: after a second press without a release
/// the same keys are down as after the first, the key among them, and one
/// release brings the key up.
pub proof fn lemma_key_press_idempotent(
    state: InputState,
    key: Key,
    first_at: Instant,
    second_at: Instant,
    release_at: Instant,
)
    ensures
        ({
            let once = state.record(InputEvent::KeyPressed(key), first_at);
            let twice = once.record(InputEvent::KeyPressed(key), second_at);
            let released = twice.record(InputEvent::KeyReleased(key), release_at);
            &&& once.pressed_keys.contains(key)
            &&& twice.pressed_keys == once.pressed_keys
            &&& !released.pressed_keys.contains(key)
            &&& released.pressed_keys == state.pressed_keys.remove(key)
        }),
{
    let once = state.record(InputEvent::KeyPressed(key), first_at);
    let twice = once.record(InputEvent::KeyPressed(key), second_at);
    let released = twice.record(InputEvent::KeyReleased(key), release_at);
    assert(released.pressed_keys =~= state.pressed_keys.remove(key));
}

/// Pressing a mouse button is idempotent in the same way.
pub proof fn lemma_mouse_press_idempotent(
    state: InputState,
    button: MouseButton,
    first_at: Instant,
    second_at: Instant,
    release_at: Instant,
)
    ensures
        ({
            let once = state.record(InputEvent::MousePressed(button), first_at);
            let twice = once.record(InputEvent::MousePressed(button), second_at);
            let released = twice.record(InputEvent::MouseReleased(button), release_at);
            &&& once.pressed_mouse_buttons.contains(button)
            &&& twice.pressed_mouse_buttons == once.pressed_mouse_buttons
            &&& !released.pressed_mouse_buttons.contains(button)
            &&& released.pressed_mouse_buttons == state.pressed_mouse_buttons.remove(button)
        }),
{
    let once = state.record(InputEvent::MousePressed(button), first_at);
    let twice = once.record(InputEvent::MousePressed(button), second_at);
    let released = twice.record(InputEvent::MouseReleased(button), release_at);
    assert(released.pressed_mouse_buttons =~= state.pressed_mouse_buttons.remove(button));
}

} // verus!
