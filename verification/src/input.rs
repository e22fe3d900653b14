//! How pointer input drives panning and zooming.
//!
//! The position of the pointer and the offsets of the view are numbers that
//! the caller keeps. What is decided here is which of them an event changes,
//! and whether a drag is under way.

use vstd::prelude::*;

verus! {

/// Whether the view is being dragged.
#[derive(Debug, Clone, Copy, PartialEq, Eq, Structural)]
pub enum DragState {
    Idle,
    Dragging,
}

/// An input event, without the numbers it carries.
#[derive(Debug, Clone, Copy, PartialEq, Eq, Structural)]
pub enum PointerEvent {
    /// The button was pressed.
    Down,
    /// The button was released.
    Up,
    /// The pointer moved to a new position.
    Move,
    /// The wheel was turned.
    Wheel,
}

/// What the caller does to its numbers in answer to an event.
#[derive(Debug, Clone, Copy, PartialEq, Eq, Structural)]
pub enum Effect {
    /// Take the pointer position less the pan offset as the origin of the
    /// drag.
    CaptureOrigin,
    /// Forget the origin of the drag. The pan offset stays as it is.
    ReleaseOrigin,
    /// Remember the new pointer position, and nothing else.
    TrackPointer,
    /// Remember the new pointer position, and set the pan offset to that
    /// position less the origin of the drag.
    TrackPointerAndPan,
    /// Zoom about the remembered pointer position.
    ZoomAtPointer,
}

/// The drag state after an event: pressing the button begins a drag,
/// releasing it ends one, and nothing else changes the state.
pub open spec fn next_state(state: DragState, event: PointerEvent) -> DragState {
    match event {
        PointerEvent::Down => DragState::Dragging,
        PointerEvent::Up => DragState::Idle,
        PointerEvent::Move => state,
        PointerEvent::Wheel => state,
    }
}

/// What an event does in a given drag state.
pub open spec fn effect_of(state: DragState, event: PointerEvent) -> Effect {
    match event {
        PointerEvent::Down => Effect::CaptureOrigin,
        PointerEvent::Up => Effect::ReleaseOrigin,
        PointerEvent::Move => match state {
            DragState::Idle => Effect::TrackPointer,
            DragState::Dragging => Effect::TrackPointerAndPan,
        },
        PointerEvent::Wheel => Effect::ZoomAtPointer,
    }
}

/// The drag state after a sequence of events.
pub open spec fn state_after(state: DragState, events: Seq<PointerEvent>) -> DragState
    decreases events.len(),
{
    if events.len() == 0 {
        state
    } else {
        next_state(state_after(state, events.drop_last()), events.last())
    }
}

impl Default for DragState {
    /// Before any event, no drag is under way.
    fn default() -> (state: DragState)
        ensures
            state == DragState::Idle,
    {
        DragState::Idle
    }
}

/// Takes an event in a drag state, and gives the next state and what the
/// caller is to do.
pub fn reduce(state: DragState, event: PointerEvent) -> (next: (DragState, Effect))
    ensures
        next.0 == next_state(state, event),
        next.1 == effect_of(state, event),
{
    match event {
        PointerEvent::Down => (DragState::Dragging, Effect::CaptureOrigin),
        PointerEvent::Up => (DragState::Idle, Effect::ReleaseOrigin),
        PointerEvent::Move => match state {
            DragState::Idle => (state, Effect::TrackPointer),
            DragState::Dragging => (state, Effect::TrackPointerAndPan),
        },
        PointerEvent::Wheel => (state, Effect::ZoomAtPointer),
    }
}

/// The pan offset changes only when the pointer moves during a drag; the
/// zoom changes only when the wheel is turned.
pub proof fn law_effects(state: DragState, event: PointerEvent)
    ensures
        effect_of(state, event) == Effect::TrackPointerAndPan <==> state == DragState::Dragging
            && event == PointerEvent::Move,
        effect_of(state, event) == Effect::ZoomAtPointer <==> event == PointerEvent::Wheel,
        event == PointerEvent::Move || event == PointerEvent::Wheel ==> next_state(state, event)
            == state,
{
}

/// The button is pressed at `i` and not released afterwards.
pub open spec fn pressed_since(events: Seq<PointerEvent>, i: int) -> bool {
    &&& 0 <= i < events.len()
    &&& events[i] == PointerEvent::Down
    &&& forall|j: int| i < j < events.len() ==> #[trigger] events[j] != PointerEvent::Up
}

/// The button is neither pressed nor released.
pub open spec fn button_untouched(events: Seq<PointerEvent>) -> bool {
    forall|j: int|
        0 <= j < events.len() ==> #[trigger] events[j] != PointerEvent::Up && events[j]
            != PointerEvent::Down
}

/// After any sequence of events, a drag is under way exactly if the button
/// was pressed and has not been released since, or if a drag was under way
/// before and the button was not touched.
pub proof fn law_drag_follows_button(state: DragState, events: Seq<PointerEvent>)
    ensures
        state_after(state, events) == DragState::Dragging <==> {
            ||| exists|i: int| pressed_since(events, i)
            ||| state == DragState::Dragging && button_untouched(events)
        },
    decreases events.len(),
{
    if events.len() > 0 {
        let earlier = events.drop_last();
        let n = events.len() - 1;
        law_drag_follows_button(state, earlier);
        assert(forall|j: int| 0 <= j < n ==> #[trigger] earlier[j] == events[j]);
        match events.last() {
            PointerEvent::Down => {
                assert(pressed_since(events, n));
            },
            PointerEvent::Up => {
                assert(events[n] == PointerEvent::Up);
                assert(forall|i: int| !pressed_since(events, i));
            },
            _ => {
                assert(events[n] != PointerEvent::Up && events[n] != PointerEvent::Down);
                assert forall|i: int| pressed_since(earlier, i) implies pressed_since(events, i) by {
                    assert(forall|j: int| i < j < events.len() ==> #[trigger] events[j] != PointerEvent::Up) by {
                        assert(forall|j: int| i < j < n ==> earlier[j] == events[j]);
                    }
                }
                assert forall|i: int| pressed_since(events, i) implies pressed_since(earlier, i) by {
                    assert(forall|j: int| i < j < n ==> #[trigger] earlier[j] == events[j]);
                }
                if button_untouched(earlier) {
                    assert forall|j: int| 0 <= j < events.len() implies #[trigger] events[j]
                        != PointerEvent::Up && events[j] != PointerEvent::Down by {
                        if j < n {
                            assert(earlier[j] == events[j]);
                        }
                    }
                }
                if button_untouched(events) {
                    assert forall|j: int| 0 <= j < earlier.len() implies #[trigger] earlier[j]
                        != PointerEvent::Up && earlier[j] != PointerEvent::Down by {
                        assert(earlier[j] == events[j]);
                    }
                }
            },
        }
    }
}

} // verus!
