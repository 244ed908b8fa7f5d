use vstd::prelude::*;

verus! {

/// How content that overflows an element along one axis is treated.
#[derive(Clone, Copy, Debug, PartialEq, Eq, Structural)]
pub enum Overflow {
    Visible,
    Hidden,
    Scroll,
}

/// A pair of values, one per axis.
#[derive(Clone, Copy, Debug, PartialEq, Eq, Structural)]
pub struct Point<T> {
    pub x: T,
    pub y: T,
}

/// A partial `Point`: the axes that a refinement sets.
#[derive(Clone, Copy, Debug, PartialEq, Eq, Structural)]
pub struct PointRefinement<T> {
    pub x: Option<T>,
    pub y: Option<T>,
}

/// The computed style of an element, as far as the element reads and
/// writes it: its overflow per axis and its stacking order.
#[derive(Clone, Copy, Debug, PartialEq, Eq, Structural)]
pub struct Style {
    pub overflow: Point<Overflow>,
    pub z_index: Option<u32>,
}

/// A partial style: each field that is `Some` overrides the style it is
/// applied to, each `None` leaves it as it was.
#[derive(Clone, Copy, Debug, PartialEq, Eq, Structural)]
pub struct StyleRefinement {
    pub overflow: PointRefinement<Overflow>,
    pub z_index: Option<u32>,
}

/// `value` overridden by `refinement` when it is set.
pub open spec fn refine_value<T>(value: T, refinement: Option<T>) -> T {
    match refinement {
        Some(v) => v,
        None => value,
    }
}

/// An optional `value` overridden by `refinement` when it is set.
pub open spec fn refine_option<T>(value: Option<T>, refinement: Option<T>) -> Option<T> {
    match refinement {
        Some(v) => Some(v),
        None => value,
    }
}

impl Style {
    /// The style every element starts from: everything visible, no stacking
    /// order of its own.
    pub open spec fn initial() -> Style {
        Style { overflow: Point { x: Overflow::Visible, y: Overflow::Visible }, z_index: None }
    }

    /// This style with every field that `refinement` sets overridden.
    pub open spec fn refined(self, refinement: StyleRefinement) -> Style {
        Style {
            overflow: Point {
                x: refine_value(self.overflow.x, refinement.overflow.x),
                y: refine_value(self.overflow.y, refinement.overflow.y),
            },
            z_index: refine_option(self.z_index, refinement.z_index),
        }
    }

    /// Overrides every field that `refinement` sets.
    pub fn refine(&mut self, refinement: &StyleRefinement)
        ensures
            *final(self) == old(self).refined(*refinement),
    {
        if let Some(x) = refinement.overflow.x {
            self.overflow.x = x;
        }
        if let Some(y) = refinement.overflow.y {
            self.overflow.y = y;
        }
        if let Some(z) = refinement.z_index {
            self.z_index = Some(z);
        }
    }
}

impl Default for Style {
    fn default() -> (style: Style)
        ensures
            style == Style::initial(),
    {
        Style { overflow: Point { x: Overflow::Visible, y: Overflow::Visible }, z_index: None }
    }
}

impl StyleRefinement {
    /// The refinement that sets nothing.
    pub open spec fn empty() -> StyleRefinement {
        StyleRefinement { overflow: PointRefinement { x: None, y: None }, z_index: None }
    }

    /// Whether the refinement sets at least one field.
    pub open spec fn sets_any(self) -> bool {
        self.overflow.x is Some || self.overflow.y is Some || self.z_index is Some
    }

    /// Whether the refinement sets at least one field.
    pub fn is_some(&self) -> (some: bool)
        ensures
            some == self.sets_any(),
    {
        self.overflow.x.is_some() || self.overflow.y.is_some() || self.z_index.is_some()
    }
}

impl Default for StyleRefinement {
    fn default() -> (refinement: StyleRefinement)
        ensures
            refinement == StyleRefinement::empty(),
    {
        StyleRefinement { overflow: PointRefinement { x: None, y: None }, z_index: None }
    }
}

/// A refinement that sets nothing leaves every style as it is.
pub proof fn lemma_refine_empty(style: Style)
    ensures
        style.refined(StyleRefinement::empty()) == style,
{
}

/// Applying the same refinement twice is applying it once.
pub proof fn lemma_refine_idempotent(style: Style, refinement: StyleRefinement)
    ensures
        style.refined(refinement).refined(refinement) == style.refined(refinement),
{
}

/// The style after applying `layers` in order to `style`.
pub open spec fn refined_all(style: Style, layers: Seq<StyleRefinement>) -> Style
    decreases layers.len(),
{
    if layers.len() == 0 {
        style
    } else {
        refined_all(style, layers.drop_last()).refined(layers.last())
    }
}

/// Cascading one more layer onto a cascade is refining its result by that
/// layer.
pub proof fn lemma_cascade_push(style: Style, layers: Seq<StyleRefinement>, layer: StyleRefinement)
    ensures
        refined_all(style, layers.push(layer)) == refined_all(style, layers).refined(layer),
{
    assert(layers.push(layer).drop_last() =~= layers);
}

/// The last value that is set among `values`, if any.
pub open spec fn last_set<T>(values: Seq<Option<T>>) -> Option<T>
    decreases values.len(),
{
    if values.len() == 0 {
        None
    } else if values.last() is Some {
        values.last()
    } else {
        last_set(values.drop_last())
    }
}

/// In a cascade of refinements the last layer that sets a field decides it;
/// a field that no layer sets keeps the value of the style cascaded onto.
pub proof fn lemma_cascade_last_layer_wins(style: Style, layers: Seq<StyleRefinement>)
    ensures
        refined_all(style, layers).z_index == refine_option(
            style.z_index,
            last_set(layers.map_values(|r: StyleRefinement| r.z_index)),
        ),
        refined_all(style, layers).overflow.x == refine_value(
            style.overflow.x,
            last_set(layers.map_values(|r: StyleRefinement| r.overflow.x)),
        ),
        refined_all(style, layers).overflow.y == refine_value(
            style.overflow.y,
            last_set(layers.map_values(|r: StyleRefinement| r.overflow.y)),
        ),
    decreases layers.len(),
{
    if layers.len() > 0 {
        let rest = layers.drop_last();
        lemma_cascade_last_layer_wins(style, rest);
        assert(layers.map_values(|r: StyleRefinement| r.z_index).drop_last() =~= rest.map_values(
            |r: StyleRefinement| r.z_index,
        ));
        assert(layers.map_values(|r: StyleRefinement| r.overflow.x).drop_last()
            =~= rest.map_values(|r: StyleRefinement| r.overflow.x));
        assert(layers.map_values(|r: StyleRefinement| r.overflow.y).drop_last()
            =~= rest.map_values(|r: StyleRefinement| r.overflow.y));
    }
}

} // verus!
