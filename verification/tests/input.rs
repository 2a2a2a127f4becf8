use the_blockheads_tools_lib::input::{EventResponse, Input, PointerEvent};

const QUIET: EventResponse = EventResponse { repaint: false, click: false };
const CLICK: EventResponse = EventResponse { repaint: false, click: true };
const DOWN: PointerEvent = PointerEvent::LeftButton { pressed: true };
const UP: PointerEvent = PointerEvent::LeftButton { pressed: false };

#[test]
fn the_default_response_asks_nothing() {
    assert_eq!(EventResponse::default(), QUIET);
    assert_eq!(
        Input::new(),
        Input { is_mouse_left_down: false, moved_during_press: false }
    );
}

#[test]
fn press_and_release_is_a_click() {
    let mut input = Input::new();
    assert_eq!(input.handle_input(DOWN), QUIET);
    assert!(input.is_mouse_left_down);
    assert_eq!(input.handle_input(UP), CLICK);
    assert_eq!(input, Input::new());
}

#[test]
fn a_move_during_the_press_makes_it_a_drag() {
    let mut input = Input::new();
    assert_eq!(input.handle_input(PointerEvent::CursorMoved), QUIET);
    assert!(!input.moved_during_press);
    input.handle_input(DOWN);
    assert_eq!(input.handle_input(PointerEvent::CursorMoved), QUIET);
    assert!(input.moved_during_press);
    assert_eq!(input.handle_input(UP), QUIET);
    assert_eq!(input, Input::new());
    input.handle_input(DOWN);
    assert_eq!(input.handle_input(UP), CLICK);
}

#[test]
fn other_events_leave_the_press_alone() {
    let mut input = Input::new();
    input.handle_input(DOWN);
    assert_eq!(input.handle_input(PointerEvent::MouseWheel), QUIET);
    assert_eq!(input.handle_input(PointerEvent::Other), QUIET);
    assert_eq!(
        input,
        Input { is_mouse_left_down: true, moved_during_press: false }
    );
    assert_eq!(input.handle_input(DOWN), QUIET);
    assert_eq!(input.handle_input(UP), CLICK);
    assert_eq!(input.handle_input(UP), CLICK);
}
