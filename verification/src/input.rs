use vstd::prelude::*;

verus! {

/// What an event asks of the window.
#[derive(Debug, Clone, Copy, PartialEq, Eq, Structural)]
pub struct EventResponse {
    /// The picture has changed.
    pub repaint: bool,
    /// The left button was let go where it was pressed: a click, no drag.
    pub click: bool,
}

impl Default for EventResponse {
    fn default() -> (response: Self)
        ensures
            response == (EventResponse { repaint: false, click: false }),
    {
        Self { repaint: false, click: false }
    }
}

/// An event of the window, as far as the pointer's state depends on it.
#[derive(Debug, Clone, Copy, PartialEq, Eq, Structural)]
pub enum PointerEvent {
    /// The pointer moved.
    CursorMoved,
    /// The wheel turned.
    MouseWheel,
    /// The left button went down or up.
    LeftButton { pressed: bool },
    /// Any other event.
    Other,
}

/// The state of the left button: whether it is down, and whether the
/// pointer has moved since it went down.
#[derive(Debug, Clone, Copy, PartialEq, Eq, Structural)]
pub struct Input {
    pub is_mouse_left_down: bool,
    pub moved_during_press: bool,
}

/// The state after an event, and what the event asks.
///
/// A move while the button is down makes the press a drag. Letting the
/// button go ends the press: as a click if there was no drag, else in
/// silence, and the drag is forgotten.
pub open spec fn pointer_step(state: Input, event: PointerEvent) -> (Input, EventResponse) {
    let quiet = EventResponse { repaint: false, click: false };
    match event {
        PointerEvent::CursorMoved => (
            Input {
                is_mouse_left_down: state.is_mouse_left_down,
                moved_during_press: state.moved_during_press || state.is_mouse_left_down,
            },
            quiet,
        ),
        PointerEvent::LeftButton { pressed: true } => (
            Input { is_mouse_left_down: true, moved_during_press: state.moved_during_press },
            quiet,
        ),
        PointerEvent::LeftButton { pressed: false } => if state.moved_during_press {
            (Input { is_mouse_left_down: false, moved_during_press: false }, quiet)
        } else {
            (
                Input { is_mouse_left_down: false, moved_during_press: false },
                EventResponse { repaint: false, click: true },
            )
        },
        _ => (state, quiet),
    }
}

impl Input {
    pub fn new() -> (input: Self)
        ensures
            input == (Input { is_mouse_left_down: false, moved_during_press: false }),
    {
        Self { is_mouse_left_down: false, moved_during_press: false }
    }

    /// Takes in an event: see [`pointer_step`].
    pub fn handle_input(&mut self, event: PointerEvent) -> (response: EventResponse)
        ensures
            (*final(self), response) == pointer_step(*old(self), event),
    {
        match event {
            PointerEvent::CursorMoved => {
                if self.is_mouse_left_down {
                    self.moved_during_press = true;
                }
            },
            PointerEvent::LeftButton { pressed } => {
                self.is_mouse_left_down = pressed;
                if !self.is_mouse_left_down {
                    if !self.moved_during_press {
                        return EventResponse { repaint: false, click: true };
                    }
                    self.moved_during_press = false;
                }
            },
            _ => {},
        }
        EventResponse { repaint: false, click: false }
    }
}

/// A press and a release with no move between them is a click, and with a
/// move between them it is none.
pub proof fn lemma_click_or_drag(state: Input)
    requires
        !state.moved_during_press,
    ensures
        ({
            let down = pointer_step(state, PointerEvent::LeftButton { pressed: true }).0;
            let moved = pointer_step(down, PointerEvent::CursorMoved).0;
            &&& pointer_step(down, PointerEvent::LeftButton { pressed: false }).1.click
            &&& !pointer_step(moved, PointerEvent::LeftButton { pressed: false }).1.click
            &&& !pointer_step(moved, PointerEvent::LeftButton { pressed: false }).0.moved_during_press
        }),
{
}

} // verus!
