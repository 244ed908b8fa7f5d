use gpui_div::geometry::BoundsBits;
use gpui_div::group::{group_bounds, GroupBounds};

fn bounds(n: u32) -> BoundsBits {
    BoundsBits { origin_x: n, origin_y: n + 1, width: n + 2, height: n + 3 }
}

#[test]
fn unknown_group_has_no_bounds() {
    let groups = GroupBounds::new();
    assert_eq!(group_bounds(&"card".to_string(), &groups), None);
    assert_eq!(groups.depth(&"card".to_string()), 0);
}

#[test]
fn pushed_bounds_are_published() {
    let mut groups = GroupBounds::new();
    let name = "card".to_string();
    groups.push(&name, bounds(10));
    assert_eq!(group_bounds(&name, &groups), Some(bounds(10)));
    assert_eq!(groups.depth(&name), 1);
}

#[test]
fn innermost_bounds_win_and_pop_restores_outer() {
    let mut groups = GroupBounds::new();
    let name = "row".to_string();
    groups.push(&name, bounds(1));
    groups.push(&name, bounds(2));
    assert_eq!(group_bounds(&name, &groups), Some(bounds(2)));
    assert_eq!(groups.depth(&name), 2);
    assert_eq!(groups.pop(&name), Some(bounds(2)));
    assert_eq!(group_bounds(&name, &groups), Some(bounds(1)));
    assert_eq!(groups.pop(&name), Some(bounds(1)));
    assert_eq!(group_bounds(&name, &groups), None);
    assert_eq!(groups.depth(&name), 0);
}

#[test]
fn pop_of_empty_stack_returns_none() {
    let mut groups = GroupBounds::new();
    let name = "row".to_string();
    groups.push(&name, bounds(1));
    assert_eq!(groups.pop(&name), Some(bounds(1)));
    assert_eq!(groups.pop(&name), None);
    assert_eq!(group_bounds(&name, &groups), None);
}

#[test]
fn groups_are_independent() {
    let mut groups = GroupBounds::new();
    let a = "a".to_string();
    let b = "b".to_string();
    groups.push(&a, bounds(1));
    groups.push(&b, bounds(5));
    groups.push(&a, bounds(3));
    assert_eq!(group_bounds(&a, &groups), Some(bounds(3)));
    assert_eq!(group_bounds(&b, &groups), Some(bounds(5)));
    groups.pop(&b);
    assert_eq!(group_bounds(&a, &groups), Some(bounds(3)));
    assert_eq!(group_bounds(&b, &groups), None);
}

#[test]
fn push_then_pop_restores_every_group() {
    let mut groups = GroupBounds::new();
    let a = "a".to_string();
    let b = "b".to_string();
    groups.push(&a, bounds(1));
    groups.push(&b, bounds(2));
    groups.push(&a, bounds(9));
    groups.pop(&a);
    assert_eq!(group_bounds(&a, &groups), Some(bounds(1)));
    assert_eq!(group_bounds(&b, &groups), Some(bounds(2)));
    assert_eq!(groups.depth(&a), 1);
}

#[test]
fn groups_stay_known_after_their_stack_empties() {
    let mut groups = GroupBounds::new();
    let name = "g".to_string();
    assert!(!groups.contains_group(&name));
    groups.push(&name, bounds(1));
    assert!(groups.contains_group(&name));
    groups.pop(&name);
    assert!(groups.contains_group(&name));
    assert!(!groups.contains_group(&"h".to_string()));
}

#[test]
fn default_registry_is_empty() {
    let groups = GroupBounds::default();
    assert!(!groups.contains_group(&"a".to_string()));
    assert_eq!(group_bounds(&"a".to_string(), &groups), None);
}
