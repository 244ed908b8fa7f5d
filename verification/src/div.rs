use vstd::prelude::*;
use crate::geometry::BoundsBits;
use crate::group::{GroupBounds, group_bounds, popped, pushed, stack_in, top_of};
use crate::interaction::{
    ActiveListener, ActiveState, ClickListener, HoverListener, active_listener_for,
    click_listener_for, paint_active_listener, paint_click_listener, paint_hover_listener,
};
use crate::style::{
    Overflow, PointRefinement, Style, StyleRefinement, last_set, lemma_cascade_last_layer_wins,
    lemma_cascade_push, refine_option, refined_all,
};

verus! {

/// The identifier an element can be given, stable across frames.
pub enum ElementId {
    Number(usize),
    Name(String),
}

impl Clone for ElementId {
    fn clone(&self) -> (id: Self)
        ensures
            id == *self,
    {
        match self {
            ElementId::Number(n) => ElementId::Number(*n),
            ElementId::Name(name) => ElementId::Name(name.clone()),
        }
    }
}

/// A handle on the keyboard focus that an element can take.
#[derive(Clone, Copy, Debug, PartialEq, Eq, Structural)]
pub struct FocusHandle {
    pub id: u64,
}

/// The identity of an element that has not been given an id.
pub struct Anonymous;

/// The identity of an element that has been given an id.
pub struct Identified(pub ElementId);

/// The focusability of an element that cannot take focus.
pub struct NonFocusable;

/// The focusability of an element that takes focus through a handle.
pub struct Focusable(pub FocusHandle);

/// Whether an element has an id, and which.
pub trait ElementIdentity {
    /// The id of the element, if it has one.
    spec fn assigned_id(&self) -> Option<ElementId>;

    /// The id of the element, if it has one.
    fn id(&self) -> (id: Option<ElementId>)
        ensures
            id == self.assigned_id(),
    ;
}

impl ElementIdentity for Anonymous {
    open spec fn assigned_id(&self) -> Option<ElementId> {
        None
    }

    fn id(&self) -> (id: Option<ElementId>) {
        None
    }
}

impl ElementIdentity for Identified {
    open spec fn assigned_id(&self) -> Option<ElementId> {
        Some(self.0)
    }

    fn id(&self) -> (id: Option<ElementId>) {
        Some(self.0.clone())
    }
}

/// Whether an element can take focus, and through which handle.
pub trait ElementFocusability {
    /// The focus handle of the element, if it has one.
    spec fn handle(&self) -> Option<FocusHandle>;

    /// The focus handle of the element, if it has one.
    fn focus_handle(&self) -> (handle: Option<FocusHandle>)
        ensures
            handle == self.handle(),
    ;
}

impl ElementFocusability for NonFocusable {
    open spec fn handle(&self) -> Option<FocusHandle> {
        None
    }

    fn focus_handle(&self) -> (handle: Option<FocusHandle>) {
        None
    }
}

impl ElementFocusability for Focusable {
    open spec fn handle(&self) -> Option<FocusHandle> {
        Some(self.0)
    }

    fn focus_handle(&self) -> (handle: Option<FocusHandle>) {
        Some(self.0)
    }
}

/// A style that applies while a named group is hovered or pressed.
pub struct GroupStyle {
    pub group: String,
    pub style: StyleRefinement,
}

/// The listeners an element holds, one list per kind of event.
pub struct EventListeners<H> {
    pub mouse_down: Vec<H>,
    pub mouse_up: Vec<H>,
    pub mouse_click: Vec<H>,
    pub mouse_move: Vec<H>,
    pub scroll_wheel: Vec<H>,
    pub key_down: Vec<H>,
    pub key_up: Vec<H>,
}

/// The listeners of an element, as sequences.
pub struct ListenersView<H> {
    pub mouse_down: Seq<H>,
    pub mouse_up: Seq<H>,
    pub mouse_click: Seq<H>,
    pub mouse_move: Seq<H>,
    pub scroll_wheel: Seq<H>,
    pub key_down: Seq<H>,
    pub key_up: Seq<H>,
}

impl<H> View for EventListeners<H> {
    type V = ListenersView<H>;

    open spec fn view(&self) -> ListenersView<H> {
        ListenersView {
            mouse_down: self.mouse_down@,
            mouse_up: self.mouse_up@,
            mouse_click: self.mouse_click@,
            mouse_move: self.mouse_move@,
            scroll_wheel: self.scroll_wheel@,
            key_down: self.key_down@,
            key_up: self.key_up@,
        }
    }
}

impl<H> ListenersView<H> {
    /// No listener of any kind.
    pub open spec fn none() -> ListenersView<H> {
        ListenersView {
            mouse_down: Seq::empty(),
            mouse_up: Seq::empty(),
            mouse_click: Seq::empty(),
            mouse_move: Seq::empty(),
            scroll_wheel: Seq::empty(),
            key_down: Seq::empty(),
            key_up: Seq::empty(),
        }
    }
}

impl<H> Default for EventListeners<H> {
    fn default() -> (listeners: Self)
        ensures
            listeners@ == ListenersView::<H>::none(),
    {
        EventListeners {
            mouse_down: Vec::new(),
            mouse_up: Vec::new(),
            mouse_click: Vec::new(),
            mouse_move: Vec::new(),
            scroll_wheel: Vec::new(),
            key_down: Vec::new(),
            key_up: Vec::new(),
        }
    }
}

/// What an element is made of: its id and focus handle, the group it
/// belongs to, its styles and its listeners.
pub struct DivView<H> {
    pub id: Option<ElementId>,
    pub focus: Option<FocusHandle>,
    pub group: Option<String>,
    pub base_style: StyleRefinement,
    pub hover_style: StyleRefinement,
    pub group_hover: Option<GroupStyle>,
    pub active_style: StyleRefinement,
    pub group_active: Option<GroupStyle>,
    pub listeners: ListenersView<H>,
}

impl<H> DivView<H> {
    /// The element that `div` creates: no id, no focus, no group, no
    /// styles and no listeners.
    pub open spec fn fresh() -> DivView<H> {
        DivView {
            id: None,
            focus: None,
            group: None,
            base_style: StyleRefinement::empty(),
            hover_style: StyleRefinement::empty(),
            group_hover: None,
            active_style: StyleRefinement::empty(),
            group_active: None,
            listeners: ListenersView::none(),
        }
    }

    /// The refinements that apply to the element, lowest priority first:
    /// its base style; the group-hover style while the group is hovered;
    /// the hover style while it is hovered; the group-active style while its
    /// group is pressed; the active style while it is pressed.
    pub open spec fn style_layers(
        self,
        hovered: bool,
        group_hovered: bool,
        active: ActiveState,
    ) -> Seq<StyleRefinement> {
        let base = seq![self.base_style];
        let with_group_hover = match self.group_hover {
            Some(g) => if group_hovered {
                base.push(g.style)
            } else {
                base
            },
            None => base,
        };
        let with_hover = if hovered {
            with_group_hover.push(self.hover_style)
        } else {
            with_group_hover
        };
        let with_group_active = match self.group_active {
            Some(g) => if active.group {
                with_hover.push(g.style)
            } else {
                with_hover
            },
            None => with_hover,
        };
        if active.element {
            with_group_active.push(self.active_style)
        } else {
            with_group_active
        }
    }

    /// The style of the element: the initial style refined by each layer
    /// that applies, in order.
    pub open spec fn computed_style(self, hovered: bool, group_hovered: bool, active: ActiveState) -> Style {
        refined_all(Style::initial(), self.style_layers(hovered, group_hovered, active))
    }

    /// The group registry after the element published its bounds.
    pub open spec fn groups_on_entry(
        self,
        groups: Map<Seq<char>, Seq<BoundsBits>>,
        bounds: BoundsBits,
    ) -> Map<Seq<char>, Seq<BoundsBits>> {
        match self.group {
            Some(g) => pushed(groups, g@, bounds),
            None => groups,
        }
    }

    /// The group registry after the element withdrew its bounds.
    pub open spec fn groups_on_exit(self, groups: Map<Seq<char>, Seq<BoundsBits>>) -> Map<
        Seq<char>,
        Seq<BoundsBits>,
    > {
        match self.group {
            Some(g) => popped(groups, g@),
            None => groups,
        }
    }

    /// The bounds at which the group named by `style` is painted.
    pub open spec fn bounds_of_group(
        style: Option<GroupStyle>,
        groups: Map<Seq<char>, Seq<BoundsBits>>,
    ) -> Option<BoundsBits> {
        match style {
            Some(g) => top_of(groups, g.group@),
            None => None,
        }
    }

    /// The hover listeners the element registers: one on its group's bounds
    /// when the group is painted, one on its own bounds when it has a hover
    /// style.
    pub open spec fn hover_listeners(
        self,
        bounds: BoundsBits,
        group_bounds: Option<BoundsBits>,
        group_hovered: bool,
        hovered: bool,
    ) -> Seq<HoverListener> {
        let on_group = match group_bounds {
            Some(b) => seq![HoverListener { bounds: b, hovered: group_hovered }],
            None => Seq::empty(),
        };
        if self.hover_style.sets_any() {
            on_group.push(HoverListener { bounds, hovered })
        } else {
            on_group
        }
    }
}

/// A styled, interactive rectangle: the building block of a view. `I` says
/// whether it has an id, `F` whether it can take focus, and `H` is the type
/// of the listeners it holds.
pub struct Div<I, F, H> {
    identity: I,
    focusability: F,
    group: Option<String>,
    base_style: StyleRefinement,
    hover_style: StyleRefinement,
    group_hover: Option<GroupStyle>,
    active_style: StyleRefinement,
    group_active: Option<GroupStyle>,
    listeners: EventListeners<H>,
}

impl<I: ElementIdentity, F: ElementFocusability, H> View for Div<I, F, H> {
    type V = DivView<H>;

    closed spec fn view(&self) -> DivView<H> {
        DivView {
            id: self.identity.assigned_id(),
            focus: self.focusability.handle(),
            group: self.group,
            base_style: self.base_style,
            hover_style: self.hover_style,
            group_hover: self.group_hover,
            active_style: self.active_style,
            group_active: self.group_active,
            listeners: self.listeners@,
        }
    }
}

/// A new element with no id, no focus, no group, no styles and no
/// listeners.
pub fn div<H>() -> (d: Div<Anonymous, NonFocusable, H>)
    ensures
        d@ == DivView::<H>::fresh(),
{
    Div {
        identity: Anonymous,
        focusability: NonFocusable,
        group: None,
        base_style: StyleRefinement::default(),
        hover_style: StyleRefinement::default(),
        group_hover: None,
        active_style: StyleRefinement::default(),
        group_active: None,
        listeners: EventListeners::default(),
    }
}

impl<F: ElementFocusability, H> Div<Anonymous, F, H> {
    /// The same element, given the id `id`.
    pub fn id(self, id: ElementId) -> (d: Div<Identified, F, H>)
        ensures
            d@ == (DivView { id: Some(id), ..self@ }),
    {
        Div {
            identity: Identified(id),
            focusability: self.focusability,
            group: self.group,
            base_style: self.base_style,
            hover_style: self.hover_style,
            group_hover: self.group_hover,
            active_style: self.active_style,
            group_active: self.group_active,
            listeners: self.listeners,
        }
    }
}

impl<I: ElementIdentity, H> Div<I, NonFocusable, H> {
    /// The same element, taking focus through `handle`.
    pub fn focusable(self, handle: &FocusHandle) -> (d: Div<I, Focusable, H>)
        ensures
            d@ == (DivView { focus: Some(*handle), ..self@ }),
    {
        Div {
            identity: self.identity,
            focusability: Focusable(*handle),
            group: self.group,
            base_style: self.base_style,
            hover_style: self.hover_style,
            group_hover: self.group_hover,
            active_style: self.active_style,
            group_active: self.group_active,
            listeners: self.listeners,
        }
    }
}

impl<I: ElementIdentity, H> Div<I, Focusable, H> {
    /// The same element, with `listener` added last to its key-down
    /// listeners.
    pub fn on_key_down(self, listener: H) -> (d: Self)
        ensures
            d@ == (DivView {
                listeners: ListenersView {
                    key_down: self@.listeners.key_down.push(listener),
                    ..self@.listeners
                },
                ..self@
            }),
    {
        let mut this = self;
        this.listeners.key_down.push(listener);
        this
    }
}

impl<F: ElementFocusability, H> Div<Identified, F, H> {
    /// Sets the style that applies while the element is pressed, or, for a
    /// `group`, while that group is pressed.
    pub fn set_active_style(&mut self, group: Option<String>, style: StyleRefinement)
        ensures
            final(self)@ == match group {
                Some(g) => DivView {
                    group_active: Some(GroupStyle { group: g, style }),
                    ..old(self)@
                },
                None => DivView { active_style: style, ..old(self)@ },
            },
    {
        match group {
            Some(group) => {
                self.group_active = Some(GroupStyle { group, style });
            },
            None => {
                self.active_style = style;
            },
        }
    }
}

impl<I: ElementIdentity, F: ElementFocusability, H> Div<I, F, H> {
    /// The id of the element, if it has one.
    pub fn element_id(&self) -> (id: Option<ElementId>)
        ensures
            id == self@.id,
    {
        self.identity.id()
    }

    /// The focus handle of the element, if it has one.
    pub fn focus_handle(&self) -> (handle: Option<FocusHandle>)
        ensures
            handle == self@.focus,
    {
        self.focusability.focus_handle()
    }

    /// The same element, made a member of group `group`.
    pub fn group(self, group: String) -> (d: Self)
        ensures
            d@ == (DivView { group: Some(group), ..self@ }),
    {
        let mut this = self;
        this.group = Some(group);
        this
    }

    /// The same element, stacked at `z_index`.
    pub fn z_index(self, z_index: u32) -> (d: Self)
        ensures
            d@ == (DivView {
                base_style: StyleRefinement { z_index: Some(z_index), ..self@.base_style },
                ..self@
            }),
    {
        let mut this = self;
        this.base_style.z_index = Some(z_index);
        this
    }

    /// The same element, clipping what overflows it on both axes.
    pub fn overflow_hidden(self) -> (d: Self)
        ensures
            d@ == (DivView {
                base_style: StyleRefinement {
                    overflow: PointRefinement { x: Some(Overflow::Hidden), y: Some(Overflow::Hidden) },
                    ..self@.base_style
                },
                ..self@
            }),
    {
        let mut this = self;
        this.base_style.overflow.x = Some(Overflow::Hidden);
        this.base_style.overflow.y = Some(Overflow::Hidden);
        this
    }

    /// The same element, clipping what overflows it horizontally.
    pub fn overflow_hidden_x(self) -> (d: Self)
        ensures
            d@ == (DivView {
                base_style: StyleRefinement {
                    overflow: PointRefinement {
                        x: Some(Overflow::Hidden),
                        ..self@.base_style.overflow
                    },
                    ..self@.base_style
                },
                ..self@
            }),
    {
        let mut this = self;
        this.base_style.overflow.x = Some(Overflow::Hidden);
        this
    }

    /// The same element, clipping what overflows it vertically.
    pub fn overflow_hidden_y(self) -> (d: Self)
        ensures
            d@ == (DivView {
                base_style: StyleRefinement {
                    overflow: PointRefinement {
                        y: Some(Overflow::Hidden),
                        ..self@.base_style.overflow
                    },
                    ..self@.base_style
                },
                ..self@
            }),
    {
        let mut this = self;
        this.base_style.overflow.y = Some(Overflow::Hidden);
        this
    }

    /// The same element, scrolling what overflows it on both axes. The
    /// scroll state is accepted and not kept.
    pub fn overflow_scroll<S>(self, _scroll_state: S) -> (d: Self)
        ensures
            d@ == (DivView {
                base_style: StyleRefinement {
                    overflow: PointRefinement { x: Some(Overflow::Scroll), y: Some(Overflow::Scroll) },
                    ..self@.base_style
                },
                ..self@
            }),
    {
        let mut this = self;
        this.base_style.overflow.x = Some(Overflow::Scroll);
        this.base_style.overflow.y = Some(Overflow::Scroll);
        this
    }

    /// The same element, scrolling what overflows it horizontally. The
    /// scroll state is accepted and not kept.
    pub fn overflow_x_scroll<S>(self, _scroll_state: S) -> (d: Self)
        ensures
            d@ == (DivView {
                base_style: StyleRefinement {
                    overflow: PointRefinement {
                        x: Some(Overflow::Scroll),
                        ..self@.base_style.overflow
                    },
                    ..self@.base_style
                },
                ..self@
            }),
    {
        let mut this = self;
        this.base_style.overflow.x = Some(Overflow::Scroll);
        this
    }

    /// The same element, scrolling what overflows it vertically. The
    /// scroll state is accepted and not kept.
    pub fn overflow_y_scroll<S>(self, _scroll_state: S) -> (d: Self)
        ensures
            d@ == (DivView {
                base_style: StyleRefinement {
                    overflow: PointRefinement {
                        y: Some(Overflow::Scroll),
                        ..self@.base_style.overflow
                    },
                    ..self@.base_style
                },
                ..self@
            }),
    {
        let mut this = self;
        this.base_style.overflow.y = Some(Overflow::Scroll);
        this
    }

    /// Sets the style that applies while the element is hovered, or, for a
    /// `group`, while that group is hovered.
    pub fn set_hover_style(&mut self, group: Option<String>, style: StyleRefinement)
        ensures
            final(self)@ == match group {
                Some(g) => DivView {
                    group_hover: Some(GroupStyle { group: g, style }),
                    ..old(self)@
                },
                None => DivView { hover_style: style, ..old(self)@ },
            },
    {
        match group {
            Some(group) => {
                self.group_hover = Some(GroupStyle { group, style });
            },
            None => {
                self.hover_style = style;
            },
        }
    }

    /// The style of the element, given whether the pointer lies in its
    /// bounds (`hovered`), whether its hover group is painted and the
    /// pointer lies in that group's bounds (`group_hovered`), and whether it
    /// or its active group is pressed (`active`).
    pub fn compute_style(&self, hovered: bool, group_hovered: bool, active: ActiveState) -> (style:
        Style)
        ensures
            style == self@.computed_style(hovered, group_hovered, active),
    {
        let ghost view = self@;
        let mut computed_style = Style::default();
        computed_style.refine(&self.base_style);
        let ghost layers = seq![self.base_style];
        proof {
            assert(layers.drop_last() =~= Seq::<StyleRefinement>::empty());
            assert(refined_all(Style::initial(), layers.drop_last()) == Style::initial());
            assert(computed_style == refined_all(Style::initial(), layers));
        }
        if let Some(group_hover) = &self.group_hover {
            if group_hovered {
                computed_style.refine(&group_hover.style);
                proof {
                    assert(layers.push(group_hover.style).drop_last() =~= layers);
                    layers = layers.push(group_hover.style);
                    assert(computed_style == refined_all(Style::initial(), layers));
                }
            }
        }
        if hovered {
            computed_style.refine(&self.hover_style);
            proof {
                assert(layers.push(self.hover_style).drop_last() =~= layers);
                layers = layers.push(self.hover_style);
                assert(computed_style == refined_all(Style::initial(), layers));
            }
        }
        if active.group {
            if let Some(group_active) = &self.group_active {
                computed_style.refine(&group_active.style);
                proof {
                    assert(layers.push(group_active.style).drop_last() =~= layers);
                    layers = layers.push(group_active.style);
                    assert(computed_style == refined_all(Style::initial(), layers));
                }
            }
        }
        if active.element {
            computed_style.refine(&self.active_style);
            proof {
                assert(layers.push(self.active_style).drop_last() =~= layers);
                layers = layers.push(self.active_style);
                assert(computed_style == refined_all(Style::initial(), layers));
            }
        }
        proof {
            assert(layers =~= view.style_layers(hovered, group_hovered, active));
        }
        computed_style
    }

    /// The element's base style, to be refined in place.
    pub fn style(&mut self) -> (style: &mut StyleRefinement)
        ensures
            *style == old(self)@.base_style,
            final(self)@ == (DivView { base_style: *final(style), ..old(self)@ }),
    {
        &mut self.base_style
    }

    /// The element's listeners, to be added to in place.
    pub fn listeners(&mut self) -> (listeners: &mut EventListeners<H>)
        ensures
            (*listeners)@ == old(self)@.listeners,
            final(self)@ == (DivView { listeners: (*final(listeners))@, ..old(self)@ }),
    {
        &mut self.listeners
    }

    /// The name of the group the element belongs to, if any.
    pub fn group_name(&self) -> (name: Option<&String>)
        ensures
            match self@.group {
                Some(g) => name == Some(&g),
                None => name is None,
            },
    {
        match &self.group {
            Some(g) => Some(g),
            None => None,
        }
    }

    /// The name of the group whose hovering styles the element, if any.
    pub fn group_hover_name(&self) -> (name: Option<&String>)
        ensures
            match self@.group_hover {
                Some(g) => name == Some(&g.group),
                None => name is None,
            },
    {
        match &self.group_hover {
            Some(g) => Some(&g.group),
            None => None,
        }
    }

    /// Enters paint: publishes `bounds` for the element's group, if it has
    /// one, then looks up the bounds of its hover group and of its active
    /// group.
    pub fn begin_paint(&self, bounds: BoundsBits, groups: &mut GroupBounds) -> (group_bounds_found: (
        Option<BoundsBits>,
        Option<BoundsBits>,
    ))
        requires
            match self@.group {
                Some(g) => stack_in(old(groups)@, g@).len() < isize::MAX / 64,
                None => true,
            },
        ensures
            final(groups)@ == self@.groups_on_entry(old(groups)@, bounds),
            group_bounds_found.0 == DivView::<H>::bounds_of_group(self@.group_hover, final(groups)@),
            group_bounds_found.1 == DivView::<H>::bounds_of_group(self@.group_active, final(groups)@),
    {
        if let Some(group) = &self.group {
            groups.push(group, bounds);
        }
        let hover_group_bounds = match &self.group_hover {
            Some(g) => group_bounds(&g.group, groups),
            None => None,
        };
        let active_group_bounds = match &self.group_active {
            Some(g) => group_bounds(&g.group, groups),
            None => None,
        };
        (hover_group_bounds, active_group_bounds)
    }

    /// The hover listeners to register while painting at `bounds`: one on
    /// the hover group's bounds when that group is painted (with whether the
    /// pointer lies in them, `group_hovered`), one on the element's own
    /// bounds when it has a hover style (with whether the pointer lies in
    /// them, `hovered`).
    pub fn paint_hover_listeners(
        &self,
        bounds: BoundsBits,
        group_bounds: Option<BoundsBits>,
        group_hovered: bool,
        hovered: bool,
    ) -> (listeners: Vec<HoverListener>)
        ensures
            listeners@ == self@.hover_listeners(bounds, group_bounds, group_hovered, hovered),
    {
        let mut listeners: Vec<HoverListener> = Vec::new();
        if let Some(group_bounds) = group_bounds {
            listeners.push(paint_hover_listener(group_bounds, group_hovered));
        }
        if self.hover_style.is_some() {
            listeners.push(paint_hover_listener(bounds, hovered));
        }
        proof {
            assert(listeners@ =~= self@.hover_listeners(bounds, group_bounds, group_hovered, hovered));
        }
        listeners
    }

    /// Leaves paint: withdraws the bounds the element published for its
    /// group. The group's stack must still be there, as `begin_paint` left
    /// it.
    pub fn end_paint(&self, groups: &mut GroupBounds)
        requires
            match self@.group {
                Some(g) => old(groups)@.contains_key(g@),
                None => true,
            },
        ensures
            final(groups)@ == self@.groups_on_exit(old(groups)@),
    {
        if let Some(group) = &self.group {
            groups.pop(group);
        }
    }
}

/// What painting an element decides: the stacking order it paints at and
/// the listeners it registers.
pub struct PaintPlan<D> {
    pub z_index: u32,
    pub hover_listeners: Vec<HoverListener>,
    pub active_listener: ActiveListener,
    pub click_listener: ClickListener<D>,
}

/// The stacking order a style paints at: its z-index, or 0 when it has
/// none.
pub open spec fn stacking_order(style: Style) -> u32 {
    match style.z_index {
        Some(z) => z,
        None => 0,
    }
}

impl<I: ElementIdentity, F: ElementFocusability, H> Div<I, F, H> {
    /// The decisions of painting the element at `bounds` in `style`: the
    /// stacking order, the hover listeners, the listener that tracks presses
    /// given the element's `active_state`, and the click listener given the
    /// press that is `pending`.
    pub fn plan_paint<D>(
        &self,
        bounds: BoundsBits,
        style: &Style,
        hover_group_bounds: Option<BoundsBits>,
        group_hovered: bool,
        hovered: bool,
        active_group_bounds: Option<BoundsBits>,
        active_state: ActiveState,
        pending: Option<D>,
    ) -> (plan: PaintPlan<D>)
        ensures
            plan.z_index == stacking_order(*style),
            plan.hover_listeners@ == self@.hover_listeners(
                bounds,
                hover_group_bounds,
                group_hovered,
                hovered,
            ),
            plan.active_listener == active_listener_for(bounds, active_group_bounds, active_state),
            plan.click_listener == click_listener_for(bounds, pending),
    {
        let z_index = match style.z_index {
            Some(z) => z,
            None => 0,
        };
        PaintPlan {
            z_index,
            hover_listeners: self.paint_hover_listeners(
                bounds,
                hover_group_bounds,
                group_hovered,
                hovered,
            ),
            active_listener: paint_active_listener(bounds, active_group_bounds, active_state),
            click_listener: paint_click_listener(bounds, pending),
        }
    }
}

/// The computed style, layer by layer: the base style applied to the initial
/// style, then each of the group-hover, hover, group-active and active
/// styles whose condition holds.
proof fn lemma_computed_style_steps<H>(
    d: DivView<H>,
    hovered: bool,
    group_hovered: bool,
    active: ActiveState,
)
    ensures
        d.computed_style(hovered, group_hovered, active) == ({
            let s0 = Style::initial().refined(d.base_style);
            let s1 = match d.group_hover {
                Some(g) => if group_hovered {
                    s0.refined(g.style)
                } else {
                    s0
                },
                None => s0,
            };
            let s2 = if hovered {
                s1.refined(d.hover_style)
            } else {
                s1
            };
            let s3 = match d.group_active {
                Some(g) => if active.group {
                    s2.refined(g.style)
                } else {
                    s2
                },
                None => s2,
            };
            if active.element {
                s3.refined(d.active_style)
            } else {
                s3
            }
        }),
{
    let init = Style::initial();
    let l0 = seq![d.base_style];
    assert(l0 =~= Seq::<StyleRefinement>::empty().push(d.base_style));
    lemma_cascade_push(init, Seq::<StyleRefinement>::empty(), d.base_style);
    let l1 = match d.group_hover {
        Some(g) => if group_hovered {
            l0.push(g.style)
        } else {
            l0
        },
        None => l0,
    };
    if let Some(g) = d.group_hover {
        lemma_cascade_push(init, l0, g.style);
    }
    let l2 = if hovered {
        l1.push(d.hover_style)
    } else {
        l1
    };
    lemma_cascade_push(init, l1, d.hover_style);
    let l3 = match d.group_active {
        Some(g) => if active.group {
            l2.push(g.style)
        } else {
            l2
        },
        None => l2,
    };
    if let Some(g) = d.group_active {
        lemma_cascade_push(init, l2, g.style);
    }
    lemma_cascade_push(init, l3, d.active_style);
    assert(d.style_layers(hovered, group_hovered, active) == if active.element {
        l3.push(d.active_style)
    } else {
        l3
    });
}

/// While its hover group is hovered, every field that the element's
/// group-hover style sets is in the computed style, whether or not the
/// element itself is hovered, unless a later layer that applies (hover,
/// group-active, active) sets that field too. In particular, with empty hover
/// and active styles, the style of an unpressed element whose group is
/// hovered is its base style refined by the group-hover style.
pub proof fn lemma_group_hover_applies<H>(d: DivView<H>, hovered: bool, active: ActiveState)
    requires
        d.group_hover is Some,
    ensures
        ({
            let g = d.group_hover->0.style;
            let style = d.computed_style(hovered, true, active);
            let group_active_applies = active.group && d.group_active is Some;
            &&& g.z_index is Some && (!hovered || d.hover_style.z_index is None) && (
            !group_active_applies || d.group_active->0.style.z_index is None) && (!active.element
                || d.active_style.z_index is None) ==> style.z_index == g.z_index
            &&& g.overflow.x is Some && (!hovered || d.hover_style.overflow.x is None) && (
            !group_active_applies || d.group_active->0.style.overflow.x is None) && (
            !active.element || d.active_style.overflow.x is None) ==> style.overflow.x
                == g.overflow.x->0
            &&& g.overflow.y is Some && (!hovered || d.hover_style.overflow.y is None) && (
            !group_active_applies || d.group_active->0.style.overflow.y is None) && (
            !active.element || d.active_style.overflow.y is None) ==> style.overflow.y
                == g.overflow.y->0
            &&& d.hover_style == StyleRefinement::empty() && d.active_style
                == StyleRefinement::empty() ==> d.computed_style(
                hovered,
                true,
                ActiveState::inactive(),
            ) == Style::initial().refined(d.base_style).refined(g)
        }),
{
    lemma_computed_style_steps(d, hovered, true, active);
    lemma_computed_style_steps(d, hovered, true, ActiveState::inactive());
}

/// While the element is hovered, every field that its hover style sets is in
/// the computed style, whatever its group's hover, unless a later layer that
/// applies (group-active, active) sets that field too.
pub proof fn lemma_hover_applies<H>(d: DivView<H>, group_hovered: bool, active: ActiveState)
    ensures
        ({
            let h = d.hover_style;
            let style = d.computed_style(true, group_hovered, active);
            let group_active_applies = active.group && d.group_active is Some;
            &&& h.z_index is Some && (!group_active_applies || d.group_active->0.style.z_index
                is None) && (!active.element || d.active_style.z_index is None) ==> style.z_index
                == h.z_index
            &&& h.overflow.x is Some && (!group_active_applies
                || d.group_active->0.style.overflow.x is None) && (!active.element
                || d.active_style.overflow.x is None) ==> style.overflow.x == h.overflow.x->0
            &&& h.overflow.y is Some && (!group_active_applies
                || d.group_active->0.style.overflow.y is None) && (!active.element
                || d.active_style.overflow.y is None) ==> style.overflow.y == h.overflow.y->0
        }),
{
    lemma_computed_style_steps(d, true, group_hovered, active);
}

/// While the element's active group is pressed, every field that its
/// group-active style sets is in the computed style, whatever the hover,
/// unless the active style applies and sets that field too.
pub proof fn lemma_group_active_applies<H>(
    d: DivView<H>,
    hovered: bool,
    group_hovered: bool,
    element: bool,
)
    requires
        d.group_active is Some,
    ensures
        ({
            let g = d.group_active->0.style;
            let style = d.computed_style(
                hovered,
                group_hovered,
                ActiveState { group: true, element },
            );
            &&& g.z_index is Some && (!element || d.active_style.z_index is None) ==> style.z_index
                == g.z_index
            &&& g.overflow.x is Some && (!element || d.active_style.overflow.x is None)
                ==> style.overflow.x == g.overflow.x->0
            &&& g.overflow.y is Some && (!element || d.active_style.overflow.y is None)
                ==> style.overflow.y == g.overflow.y->0
        }),
{
    lemma_computed_style_steps(d, hovered, group_hovered, ActiveState { group: true, element });
}

/// A field that no applying layer above the base style sets takes the base
/// style's value, or the initial one when the base does not set it either.
pub proof fn lemma_base_shows_through<H>(
    d: DivView<H>,
    hovered: bool,
    group_hovered: bool,
    active: ActiveState,
)
    ensures
        ({
            let style = d.computed_style(hovered, group_hovered, active);
            let gh = d.group_hover is Some && group_hovered;
            let ga = active.group && d.group_active is Some;
            (!gh || d.group_hover->0.style.z_index is None) && (!hovered || d.hover_style.z_index
                is None) && (!ga || d.group_active->0.style.z_index is None) && (!active.element
                || d.active_style.z_index is None) ==> style.z_index == d.base_style.z_index
        }),
{
    lemma_computed_style_steps(d, hovered, group_hovered, active);
}

/// The hover listeners an element registers: first, when its hover group is
/// painted, one on the group's bounds; then, whenever its hover style sets
/// anything (whatever the group), one on its own bounds. Nothing else.
pub proof fn lemma_hover_listeners_registered<H>(
    d: DivView<H>,
    bounds: BoundsBits,
    group_bounds: Option<BoundsBits>,
    group_hovered: bool,
    hovered: bool,
)
    ensures
        ({
            let ls = d.hover_listeners(bounds, group_bounds, group_hovered, hovered);
            &&& ls.len() == (if group_bounds is Some {
                1int
            } else {
                0int
            }) + (if d.hover_style.sets_any() {
                1int
            } else {
                0int
            })
            &&& d.hover_style.sets_any() ==> ls.last() == (HoverListener { bounds, hovered })
            &&& group_bounds is Some ==> ls[0] == (HoverListener {
                bounds: group_bounds->0,
                hovered: group_hovered,
            })
        }),
{
}

/// The stacking order of a style depends on its z-index alone: the z-index
/// when it has one, 0 otherwise, whatever its overflow.
pub proof fn lemma_stacking_order_is_z_index(style: Style, other: Style)
    ensures
        style.z_index is Some ==> stacking_order(style) == style.z_index->0,
        style.z_index is None ==> stacking_order(style) == 0,
        style.z_index == other.z_index ==> stacking_order(style) == stacking_order(other),
{
}

/// An element that is neither hovered nor pressed has its base style
/// applied to the initial style, and nothing else.
pub proof fn lemma_idle_style_is_base<H>(d: DivView<H>)
    ensures
        d.computed_style(false, false, ActiveState::inactive()) == Style::initial().refined(
            d.base_style,
        ),
{
    let layers = d.style_layers(false, false, ActiveState::inactive());
    assert(layers =~= seq![d.base_style]);
    assert(layers.drop_last() =~= Seq::<StyleRefinement>::empty());
    assert(refined_all(Style::initial(), layers.drop_last()) == Style::initial());
}

/// Each field of the computed style comes from the last applying layer that
/// sets it; in particular the active style, applied last, decides every
/// field it sets while the element is pressed.
pub proof fn lemma_style_priority<H>(
    d: DivView<H>,
    hovered: bool,
    group_hovered: bool,
    active: ActiveState,
)
    ensures
        ({
            let layers = d.style_layers(hovered, group_hovered, active);
            let style = d.computed_style(hovered, group_hovered, active);
            &&& style.z_index == last_set(layers.map_values(|r: StyleRefinement| r.z_index))
            &&& active.element && d.active_style.z_index is Some ==> style.z_index
                == d.active_style.z_index
            &&& active.element && d.active_style.overflow.x is Some ==> style.overflow.x
                == d.active_style.overflow.x->0
            &&& active.element && d.active_style.overflow.y is Some ==> style.overflow.y
                == d.active_style.overflow.y->0
        }),
{
    let layers = d.style_layers(hovered, group_hovered, active);
    lemma_cascade_last_layer_wins(Style::initial(), layers);
    if active.element {
        assert(layers.last() == d.active_style);
        let zs = layers.map_values(|r: StyleRefinement| r.z_index);
        assert(zs.last() == d.active_style.z_index);
        let xs = layers.map_values(|r: StyleRefinement| r.overflow.x);
        assert(xs.last() == d.active_style.overflow.x);
        let ys = layers.map_values(|r: StyleRefinement| r.overflow.y);
        assert(ys.last() == d.active_style.overflow.y);
    }
    assert(refine_option(
        Style::initial().z_index,
        last_set(layers.map_values(|r: StyleRefinement| r.z_index)),
    ) == last_set(layers.map_values(|r: StyleRefinement| r.z_index)));
}

/// Entering and then leaving paint leaves every group publishing the bounds
/// it published before; when the element's group was already known, the
/// registry is exactly as it was.
pub proof fn lemma_paint_restores_groups<H>(
    d: DivView<H>,
    groups: Map<Seq<char>, Seq<BoundsBits>>,
    bounds: BoundsBits,
    name: Seq<char>,
)
    ensures
        top_of(d.groups_on_exit(d.groups_on_entry(groups, bounds)), name) == top_of(groups, name),
        (match d.group {
            Some(g) => groups.contains_key(g@),
            None => true,
        }) ==> d.groups_on_exit(d.groups_on_entry(groups, bounds)) == groups,
{
    if let Some(g) = d.group {
        crate::group::lemma_push_pop_restores(groups, g@, bounds, name);
    }
}

} // verus!
