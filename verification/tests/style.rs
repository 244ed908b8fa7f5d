use gpui_div::style::{Overflow, Point, PointRefinement, Style, StyleRefinement};

#[test]
fn initial_style_is_visible_and_unstacked() {
    let style = Style::default();
    assert_eq!(style.overflow, Point { x: Overflow::Visible, y: Overflow::Visible });
    assert_eq!(style.z_index, None);
}

#[test]
fn refine_overrides_only_set_fields() {
    let mut style = Style::default();
    let refinement = StyleRefinement {
        overflow: PointRefinement { x: Some(Overflow::Scroll), y: None },
        z_index: Some(4),
    };
    style.refine(&refinement);
    assert_eq!(style.overflow.x, Overflow::Scroll);
    assert_eq!(style.overflow.y, Overflow::Visible);
    assert_eq!(style.z_index, Some(4));
}

#[test]
fn empty_refinement_changes_nothing() {
    let mut style = Style { overflow: Point { x: Overflow::Hidden, y: Overflow::Scroll }, z_index: Some(2) };
    let before = style;
    style.refine(&StyleRefinement::default());
    assert_eq!(style, before);
}

#[test]
fn refining_twice_is_refining_once() {
    let refinement = StyleRefinement {
        overflow: PointRefinement { x: None, y: Some(Overflow::Hidden) },
        z_index: Some(8),
    };
    let mut once = Style::default();
    once.refine(&refinement);
    let mut twice = once;
    twice.refine(&refinement);
    assert_eq!(once, twice);
}

#[test]
fn later_refinement_wins() {
    let mut style = Style::default();
    style.refine(&StyleRefinement { overflow: PointRefinement { x: None, y: None }, z_index: Some(1) });
    style.refine(&StyleRefinement { overflow: PointRefinement { x: None, y: None }, z_index: Some(2) });
    assert_eq!(style.z_index, Some(2));
}

#[test]
fn is_some_tells_whether_anything_is_set() {
    assert!(!StyleRefinement::default().is_some());
    let mut r = StyleRefinement::default();
    r.overflow.y = Some(Overflow::Hidden);
    assert!(r.is_some());
    let mut r = StyleRefinement::default();
    r.z_index = Some(0);
    assert!(r.is_some());
}
