use gpui_div::div::{div, ElementId, FocusHandle};
use gpui_div::geometry::BoundsBits;
use gpui_div::group::{group_bounds, GroupBounds};
use gpui_div::interaction::{ActiveListener, ActiveState, HoverListener};
use gpui_div::style::{Overflow, Point, PointRefinement, Style, StyleRefinement};

fn bounds(n: u32) -> BoundsBits {
    BoundsBits { origin_x: n, origin_y: n, width: 20, height: 20 }
}

fn z(z_index: u32) -> StyleRefinement {
    StyleRefinement { overflow: PointRefinement { x: None, y: None }, z_index: Some(z_index) }
}

fn idle() -> ActiveState {
    ActiveState::default()
}

#[test]
fn fresh_div_computes_initial_style() {
    let d = div::<u8>();
    assert_eq!(d.compute_style(true, true, ActiveState { group: true, element: true }), Style::default());
    assert!(d.element_id().is_none());
    assert!(d.focus_handle().is_none());
}

#[test]
fn z_index_sets_base_style() {
    let d = div::<u8>().z_index(5);
    assert_eq!(d.compute_style(false, false, idle()).z_index, Some(5));
}

#[test]
fn overflow_builders_set_axes() {
    let d = div::<u8>().overflow_hidden();
    assert_eq!(d.compute_style(false, false, idle()).overflow, Point { x: Overflow::Hidden, y: Overflow::Hidden });
    let d = div::<u8>().overflow_hidden_x();
    assert_eq!(d.compute_style(false, false, idle()).overflow, Point { x: Overflow::Hidden, y: Overflow::Visible });
    let d = div::<u8>().overflow_hidden_y();
    assert_eq!(d.compute_style(false, false, idle()).overflow, Point { x: Overflow::Visible, y: Overflow::Hidden });
    let d = div::<u8>().overflow_scroll(());
    assert_eq!(d.compute_style(false, false, idle()).overflow, Point { x: Overflow::Scroll, y: Overflow::Scroll });
    let d = div::<u8>().overflow_x_scroll(());
    assert_eq!(d.compute_style(false, false, idle()).overflow, Point { x: Overflow::Scroll, y: Overflow::Visible });
    let d = div::<u8>().overflow_hidden().overflow_y_scroll(());
    assert_eq!(d.compute_style(false, false, idle()).overflow, Point { x: Overflow::Hidden, y: Overflow::Scroll });
}

#[test]
fn id_and_focus_are_kept() {
    let d = div::<u8>().id(ElementId::Name("button".to_string())).focusable(&FocusHandle { id: 42 });
    match d.element_id() {
        Some(ElementId::Name(name)) => assert_eq!(name, "button"),
        _ => panic!("expected a named id"),
    }
    assert_eq!(d.focus_handle(), Some(FocusHandle { id: 42 }));
    let d = div::<u8>().id(ElementId::Number(3));
    assert!(matches!(d.element_id(), Some(ElementId::Number(3))));
}

#[test]
fn key_down_listeners_are_appended() {
    let mut d = div::<u32>().focusable(&FocusHandle { id: 1 }).on_key_down(10).on_key_down(20);
    assert_eq!(d.listeners().key_down, vec![10, 20]);
    assert!(d.listeners().mouse_down.is_empty());
    d.listeners().mouse_up.push(5);
    assert_eq!(d.listeners().mouse_up, vec![5]);
}

#[test]
fn style_refines_base_in_place() {
    let mut d = div::<u8>();
    d.style().z_index = Some(11);
    d.style().overflow.x = Some(Overflow::Scroll);
    let style = d.compute_style(false, false, idle());
    assert_eq!(style.z_index, Some(11));
    assert_eq!(style.overflow.x, Overflow::Scroll);
}

#[test]
fn hover_style_applies_while_hovered() {
    let mut d = div::<u8>().z_index(1);
    d.set_hover_style(None, z(2));
    assert_eq!(d.compute_style(false, false, idle()).z_index, Some(1));
    assert_eq!(d.compute_style(true, false, idle()).z_index, Some(2));
}

#[test]
fn group_hover_style_needs_group_hover() {
    let mut d = div::<u8>().z_index(1);
    assert_eq!(d.compute_style(false, true, idle()).z_index, Some(1));
    d.set_hover_style(Some("card".to_string()), z(3));
    assert_eq!(d.compute_style(false, true, idle()).z_index, Some(3));
    assert_eq!(d.compute_style(false, false, idle()).z_index, Some(1));
}

#[test]
fn hover_beats_group_hover() {
    let mut d = div::<u8>();
    d.set_hover_style(Some("card".to_string()), z(3));
    d.set_hover_style(None, z(4));
    assert_eq!(d.compute_style(true, true, idle()).z_index, Some(4));
}

#[test]
fn active_styles_follow_the_active_state() {
    let mut d = div::<u8>().id(ElementId::Number(1)).z_index(1);
    d.set_hover_style(None, z(2));
    d.set_active_style(Some("card".to_string()), z(5));
    d.set_active_style(None, z(6));
    assert_eq!(d.compute_style(true, false, ActiveState { group: true, element: false }).z_index, Some(5));
    assert_eq!(d.compute_style(true, false, ActiveState { group: false, element: true }).z_index, Some(6));
    assert_eq!(d.compute_style(true, false, ActiveState { group: true, element: true }).z_index, Some(6));
    assert_eq!(d.compute_style(true, false, idle()).z_index, Some(2));
}

#[test]
fn group_active_without_group_style_is_ignored() {
    let d = div::<u8>().id(ElementId::Number(1)).z_index(1);
    assert_eq!(d.compute_style(false, false, ActiveState { group: true, element: false }).z_index, Some(1));
}

#[test]
fn unset_fields_fall_through_layers() {
    let mut d = div::<u8>().id(ElementId::Number(1)).overflow_hidden_x();
    d.set_active_style(None, z(9));
    let style = d.compute_style(false, false, ActiveState { group: false, element: true });
    assert_eq!(style.z_index, Some(9));
    assert_eq!(style.overflow.x, Overflow::Hidden);
}

#[test]
fn paint_publishes_and_withdraws_group_bounds() {
    let mut groups = GroupBounds::new();
    let d = div::<u8>().group("card".to_string());
    let (hover, active) = d.begin_paint(bounds(7), &mut groups);
    assert_eq!(hover, None);
    assert_eq!(active, None);
    assert_eq!(group_bounds(&"card".to_string(), &groups), Some(bounds(7)));
    d.end_paint(&mut groups);
    assert_eq!(group_bounds(&"card".to_string(), &groups), None);
}

#[test]
fn paint_looks_up_hover_and_active_groups() {
    let mut groups = GroupBounds::new();
    groups.push(&"outer".to_string(), bounds(1));
    let mut d = div::<u8>().id(ElementId::Number(2)).group("inner".to_string());
    d.set_hover_style(Some("outer".to_string()), z(1));
    d.set_active_style(Some("inner".to_string()), z(2));
    let (hover, active) = d.begin_paint(bounds(3), &mut groups);
    assert_eq!(hover, Some(bounds(1)));
    assert_eq!(active, Some(bounds(3)));
    d.end_paint(&mut groups);
    assert_eq!(group_bounds(&"outer".to_string(), &groups), Some(bounds(1)));
    assert_eq!(group_bounds(&"inner".to_string(), &groups), None);
}

#[test]
fn ungrouped_paint_leaves_groups_alone() {
    let mut groups = GroupBounds::new();
    groups.push(&"g".to_string(), bounds(4));
    let d = div::<u8>();
    let (hover, active) = d.begin_paint(bounds(9), &mut groups);
    assert_eq!((hover, active), (None, None));
    d.end_paint(&mut groups);
    assert_eq!(group_bounds(&"g".to_string(), &groups), Some(bounds(4)));
}

#[test]
fn hover_listeners_cover_group_and_hover_style() {
    let d = div::<u8>();
    assert!(d.paint_hover_listeners(bounds(0), None, false, true).is_empty());
    let with_group = d.paint_hover_listeners(bounds(0), Some(bounds(8)), true, false);
    assert_eq!(with_group, vec![HoverListener { bounds: bounds(8), hovered: true }]);
    let mut d = div::<u8>();
    d.set_hover_style(None, z(1));
    let both = d.paint_hover_listeners(bounds(0), Some(bounds(8)), false, true);
    assert_eq!(
        both,
        vec![HoverListener { bounds: bounds(8), hovered: false }, HoverListener { bounds: bounds(0), hovered: true }]
    );
}

#[test]
fn paint_plan_decides_z_index_and_listeners() {
    let d = div::<u8>();
    let style = d.compute_style(false, false, idle());
    let plan = d.plan_paint(bounds(0), &style, None, false, false, None, idle(), None::<u8>);
    assert_eq!(plan.z_index, 0);
    assert!(plan.hover_listeners.is_empty());
    assert_eq!(plan.active_listener, ActiveListener::AwaitPress { bounds: bounds(0), group_bounds: None });
    assert_eq!(plan.click_listener.pressed(), None);

    let d = div::<u8>().z_index(12);
    let style = d.compute_style(false, false, idle());
    let plan = d.plan_paint(bounds(0), &style, None, false, false, None, ActiveState { group: false, element: true }, Some(3u8));
    assert_eq!(plan.z_index, 12);
    assert_eq!(plan.active_listener, ActiveListener::AwaitRelease);
    assert_eq!(plan.click_listener.pressed(), Some(&3));
}

#[test]
fn group_hover_name_is_reported() {
    let mut d = div::<u8>();
    assert_eq!(d.group_hover_name(), None);
    d.set_hover_style(Some("card".to_string()), z(1));
    assert_eq!(d.group_hover_name().map(|s| s.as_str()), Some("card"));
}

#[test]
fn group_name_is_reported() {
    let d = div::<u8>();
    assert_eq!(d.group_name(), None);
    let d = d.group("row".to_string());
    assert_eq!(d.group_name().map(|s| s.as_str()), Some("row"));
}
