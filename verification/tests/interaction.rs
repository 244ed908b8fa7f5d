use gpui_div::geometry::BoundsBits;
use gpui_div::interaction::{
    paint_active_listener, paint_click_listener, paint_hover_listener, ActiveListener,
    ActiveState, DispatchPhase,
};

fn bounds(n: u32) -> BoundsBits {
    BoundsBits { origin_x: n, origin_y: n, width: 10, height: 10 }
}

#[test]
fn default_active_state_is_none() {
    assert!(ActiveState::default().is_none());
    assert!(!ActiveState { group: true, element: false }.is_none());
    assert!(!ActiveState { group: false, element: true }.is_none());
    assert!(!ActiveState { group: true, element: true }.is_none());
}

#[test]
fn unpressed_element_waits_for_press() {
    let listener = paint_active_listener(bounds(0), Some(bounds(1)), ActiveState::default());
    assert_eq!(listener, ActiveListener::AwaitPress { bounds: bounds(0), group_bounds: Some(bounds(1)) });
    let pressed = paint_active_listener(bounds(0), None, ActiveState { group: false, element: true });
    assert_eq!(pressed, ActiveListener::AwaitRelease);
}

#[test]
fn press_on_element_in_bubble_activates() {
    let listener = paint_active_listener(bounds(0), None, ActiveState::default());
    assert_eq!(
        listener.on_mouse_down(DispatchPhase::Bubble, false, true),
        Some(ActiveState { group: false, element: true })
    );
}

#[test]
fn press_on_group_activates_group() {
    let listener = paint_active_listener(bounds(0), Some(bounds(5)), ActiveState::default());
    assert_eq!(
        listener.on_mouse_down(DispatchPhase::Bubble, true, false),
        Some(ActiveState { group: true, element: false })
    );
    assert_eq!(
        listener.on_mouse_down(DispatchPhase::Bubble, true, true),
        Some(ActiveState { group: true, element: true })
    );
}

#[test]
fn group_hit_without_group_bounds_is_ignored() {
    let listener = paint_active_listener(bounds(0), None, ActiveState::default());
    assert_eq!(listener.on_mouse_down(DispatchPhase::Bubble, true, false), None);
}

#[test]
fn press_in_capture_or_outside_is_ignored() {
    let listener = paint_active_listener(bounds(0), Some(bounds(5)), ActiveState::default());
    assert_eq!(listener.on_mouse_down(DispatchPhase::Capture, true, true), None);
    assert_eq!(listener.on_mouse_down(DispatchPhase::Bubble, false, false), None);
    assert_eq!(listener.on_mouse_up(DispatchPhase::Capture), None);
}

#[test]
fn release_in_capture_deactivates() {
    let listener = paint_active_listener(bounds(0), None, ActiveState { group: true, element: true });
    assert_eq!(listener.on_mouse_up(DispatchPhase::Capture), Some(ActiveState::default()));
    assert_eq!(listener.on_mouse_up(DispatchPhase::Bubble), None);
    assert_eq!(listener.on_mouse_down(DispatchPhase::Bubble, true, true), None);
}

#[test]
fn press_then_release_round_trip() {
    let first = paint_active_listener(bounds(0), None, ActiveState::default());
    let state = first.on_mouse_down(DispatchPhase::Bubble, false, true).unwrap();
    let second = paint_active_listener(bounds(0), None, state);
    let released = second.on_mouse_up(DispatchPhase::Capture).unwrap();
    assert!(released.is_none());
}

#[test]
fn hover_listener_notifies_on_crossing_in_capture() {
    let listener = paint_hover_listener(bounds(0), false);
    assert_eq!(listener.bounds, bounds(0));
    assert!(listener.on_mouse_move(DispatchPhase::Capture, true));
    assert!(!listener.on_mouse_move(DispatchPhase::Capture, false));
    assert!(!listener.on_mouse_move(DispatchPhase::Bubble, true));
    let inside = paint_hover_listener(bounds(0), true);
    assert!(inside.on_mouse_move(DispatchPhase::Capture, false));
    assert!(!inside.on_mouse_move(DispatchPhase::Capture, true));
}

#[test]
fn press_then_release_on_element_clicks() {
    let mut pending: Option<&str> = None;
    let waiting = paint_click_listener(bounds(0), pending.clone());
    assert_eq!(waiting.pressed(), None);
    waiting.on_mouse_down("down", DispatchPhase::Bubble, true, &mut pending);
    assert_eq!(pending, Some("down"));
    let armed = paint_click_listener(bounds(0), pending.clone());
    assert_eq!(armed.pressed(), Some(&"down"));
    assert!(armed.on_mouse_up(DispatchPhase::Bubble, true, &mut pending));
    assert_eq!(pending, None);
}

#[test]
fn press_outside_or_in_capture_is_not_pending() {
    let mut pending: Option<u32> = None;
    let waiting = paint_click_listener(bounds(0), pending);
    waiting.on_mouse_down(1, DispatchPhase::Bubble, false, &mut pending);
    assert_eq!(pending, None);
    waiting.on_mouse_down(2, DispatchPhase::Capture, true, &mut pending);
    assert_eq!(pending, None);
    assert!(!waiting.on_mouse_up(DispatchPhase::Bubble, true, &mut pending));
}

#[test]
fn release_elsewhere_cancels_click() {
    let mut pending: Option<u32> = Some(7);
    let armed = paint_click_listener(bounds(0), pending);
    assert!(!armed.on_mouse_up(DispatchPhase::Bubble, false, &mut pending));
    assert_eq!(pending, None);
    let mut pending: Option<u32> = Some(7);
    assert!(!armed.on_mouse_up(DispatchPhase::Capture, true, &mut pending));
    assert_eq!(pending, None);
}

#[test]
fn armed_listener_ignores_presses() {
    let mut pending: Option<u32> = Some(7);
    let armed = paint_click_listener(bounds(0), pending);
    armed.on_mouse_down(9, DispatchPhase::Bubble, true, &mut pending);
    assert_eq!(pending, Some(7));
}
