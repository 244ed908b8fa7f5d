use vstd::prelude::*;
use crate::geometry::BoundsBits;

verus! {

/// The two passes in which a mouse event is dispatched: first capture
/// (outermost element first), then bubble (innermost element first).
#[derive(Clone, Copy, Debug, PartialEq, Eq, Structural)]
pub enum DispatchPhase {
    Bubble,
    Capture,
}

/// Whether an element is being pressed, through its group or itself.
#[derive(Clone, Copy, Debug, PartialEq, Eq, Structural)]
pub struct ActiveState {
    pub group: bool,
    pub element: bool,
}

impl ActiveState {
    /// The state of an element that is not pressed.
    pub open spec fn inactive() -> ActiveState {
        ActiveState { group: false, element: false }
    }

    /// Whether neither the element nor its group is pressed.
    pub fn is_none(&self) -> (none: bool)
        ensures
            none == (!self.group && !self.element),
    {
        !self.group && !self.element
    }
}

impl Default for ActiveState {
    fn default() -> (state: ActiveState)
        ensures
            state == ActiveState::inactive(),
    {
        ActiveState { group: false, element: false }
    }
}

/// The listener that tracks whether an element is pressed. While the element
/// is not pressed it waits for a mouse-down on the element or on its group;
/// while it is pressed it waits for the mouse-up that releases it.
#[derive(Clone, Copy, Debug, PartialEq, Eq, Structural)]
pub enum ActiveListener {
    AwaitPress { bounds: BoundsBits, group_bounds: Option<BoundsBits> },
    AwaitRelease,
}

/// The listener that an element with `bounds`, whose active group is painted
/// at `group_bounds`, registers while it is in `active_state`.
pub open spec fn active_listener_for(
    bounds: BoundsBits,
    group_bounds: Option<BoundsBits>,
    active_state: ActiveState,
) -> ActiveListener {
    if !active_state.group && !active_state.element {
        ActiveListener::AwaitPress { bounds, group_bounds }
    } else {
        ActiveListener::AwaitRelease
    }
}

/// Chooses the listener that tracks presses of an element painted at
/// `bounds` whose active group is painted at `group_bounds`.
pub fn paint_active_listener(
    bounds: BoundsBits,
    group_bounds: Option<BoundsBits>,
    active_state: ActiveState,
) -> (listener: ActiveListener)
    ensures
        listener == active_listener_for(bounds, group_bounds, active_state),
{
    if active_state.is_none() {
        ActiveListener::AwaitPress { bounds, group_bounds }
    } else {
        ActiveListener::AwaitRelease
    }
}

impl ActiveListener {
    /// The state the element enters on a mouse-down in `phase`, where
    /// `in_group` says whether the pointer lies in the group bounds and
    /// `in_element` whether it lies in the element's bounds; `None` when the
    /// state stays as it is (and no repaint is asked for).
    pub open spec fn after_mouse_down(
        self,
        phase: DispatchPhase,
        in_group: bool,
        in_element: bool,
    ) -> Option<ActiveState> {
        match self {
            ActiveListener::AwaitPress { group_bounds, .. } => {
                let group = group_bounds is Some && in_group;
                if phase == DispatchPhase::Bubble && (group || in_element) {
                    Some(ActiveState { group, element: in_element })
                } else {
                    None
                }
            },
            ActiveListener::AwaitRelease => None,
        }
    }

    /// The state the element enters on a mouse-up in `phase`; `None` when
    /// the state stays as it is.
    pub open spec fn after_mouse_up(self, phase: DispatchPhase) -> Option<ActiveState> {
        match self {
            ActiveListener::AwaitPress { .. } => None,
            ActiveListener::AwaitRelease => if phase == DispatchPhase::Capture {
                Some(ActiveState::inactive())
            } else {
                None
            },
        }
    }

    /// Handles a mouse-down: the new state to store (and repaint for), or
    /// `None` when nothing changes. A press counts in the bubble phase, on
    /// the element or, when the group is painted, on the group.
    pub fn on_mouse_down(&self, phase: DispatchPhase, in_group: bool, in_element: bool) -> (next:
        Option<ActiveState>)
        ensures
            next == self.after_mouse_down(phase, in_group, in_element),
    {
        match self {
            ActiveListener::AwaitPress { group_bounds, .. } => {
                if phase == DispatchPhase::Bubble {
                    let group = group_bounds.is_some() && in_group;
                    if group || in_element {
                        return Some(ActiveState { group, element: in_element });
                    }
                }
                None
            },
            ActiveListener::AwaitRelease => None,
        }
    }

    /// Handles a mouse-up: the inactive state when a pressed element is
    /// released in the capture phase, `None` otherwise.
    pub fn on_mouse_up(&self, phase: DispatchPhase) -> (next: Option<ActiveState>)
        ensures
            next == self.after_mouse_up(phase),
    {
        match self {
            ActiveListener::AwaitPress { .. } => None,
            ActiveListener::AwaitRelease => {
                if phase == DispatchPhase::Capture {
                    Some(ActiveState::default())
                } else {
                    None
                }
            },
        }
    }
}

/// The listener that asks for a repaint when the pointer enters or leaves
/// `bounds`; `hovered` is whether the pointer lay in them at paint time.
#[derive(Clone, Copy, Debug, PartialEq, Eq, Structural)]
pub struct HoverListener {
    pub bounds: BoundsBits,
    pub hovered: bool,
}

/// Registers interest in the pointer crossing the edge of `bounds`, given
/// whether the pointer lies in them now.
pub fn paint_hover_listener(bounds: BoundsBits, hovered: bool) -> (listener: HoverListener)
    ensures
        listener == (HoverListener { bounds, hovered }),
{
    HoverListener { bounds, hovered }
}

impl HoverListener {
    /// Whether a mouse move in `phase` to a point inside the bounds (when
    /// `inside`) needs a repaint.
    pub open spec fn notifies(self, phase: DispatchPhase, inside: bool) -> bool {
        phase == DispatchPhase::Capture && inside != self.hovered
    }

    /// Handles a mouse move in `phase` to a point that lies in the bounds
    /// when `inside`: whether a repaint is needed, that is, whether in the
    /// capture phase the pointer is now on the other side of the edge than at
    /// paint time.
    pub fn on_mouse_move(&self, phase: DispatchPhase, inside: bool) -> (notify: bool)
        ensures
            notify == self.notifies(phase, inside),
    {
        phase == DispatchPhase::Capture && inside != self.hovered
    }
}

/// The listener that turns a press and a release on an element into a click.
/// With no press pending it waits for a press on the element; with a pending
/// press `down` it waits for the release.
pub enum ClickListener<D> {
    AwaitPress { bounds: BoundsBits },
    AwaitRelease { down: D, bounds: BoundsBits },
}

/// The click listener of an element painted at `bounds` while `pending` is
/// the pending press.
pub open spec fn click_listener_for<D>(bounds: BoundsBits, pending: Option<D>) -> ClickListener<D> {
    match pending {
        Some(down) => ClickListener::AwaitRelease { down, bounds },
        None => ClickListener::AwaitPress { bounds },
    }
}

/// Chooses the click listener of an element painted at `bounds`, given the
/// press that is pending, if any.
pub fn paint_click_listener<D>(bounds: BoundsBits, pending: Option<D>) -> (listener:
    ClickListener<D>)
    ensures
        listener == click_listener_for(bounds, pending),
{
    match pending {
        Some(down) => ClickListener::AwaitRelease { down, bounds },
        None => ClickListener::AwaitPress { bounds },
    }
}

impl<D> ClickListener<D> {
    /// The pending press after a mouse-down `down` in `phase` (`inside`
    /// telling whether it lies in the element's bounds).
    pub open spec fn pending_after_down(
        self,
        down: D,
        phase: DispatchPhase,
        inside: bool,
        pending: Option<D>,
    ) -> Option<D> {
        match self {
            ClickListener::AwaitPress { .. } => if phase == DispatchPhase::Bubble && inside {
                Some(down)
            } else {
                pending
            },
            ClickListener::AwaitRelease { .. } => pending,
        }
    }

    /// Whether a mouse-up in `phase` (`inside` telling whether it lies in the
    /// element's bounds) completes a click.
    pub open spec fn clicks_on_up(self, phase: DispatchPhase, inside: bool) -> bool {
        match self {
            ClickListener::AwaitPress { .. } => false,
            ClickListener::AwaitRelease { .. } => phase == DispatchPhase::Bubble && inside,
        }
    }

    /// The pending press after a mouse-up.
    pub open spec fn pending_after_up(self, pending: Option<D>) -> Option<D> {
        match self {
            ClickListener::AwaitPress { .. } => pending,
            ClickListener::AwaitRelease { .. } => None,
        }
    }

    /// The press that a click would be made of, if one is pending.
    pub fn pressed(&self) -> (down: Option<&D>)
        ensures
            match self {
                ClickListener::AwaitRelease { down: d, .. } => down == Some(d),
                ClickListener::AwaitPress { .. } => down is None,
            },
    {
        match self {
            ClickListener::AwaitRelease { down, .. } => Some(down),
            ClickListener::AwaitPress { .. } => None,
        }
    }

    /// Handles a mouse-down `down` in `phase`, `inside` telling whether it
    /// lies in the element's bounds: while waiting for a press, a press on
    /// the element in the bubble phase becomes the pending press.
    pub fn on_mouse_down(
        &self,
        down: D,
        phase: DispatchPhase,
        inside: bool,
        pending: &mut Option<D>,
    )
        ensures
            *final(pending) == self.pending_after_down(down, phase, inside, *old(pending)),
    {
        match self {
            ClickListener::AwaitPress { .. } => {
                if phase == DispatchPhase::Bubble && inside {
                    *pending = Some(down);
                }
            },
            ClickListener::AwaitRelease { .. } => {},
        }
    }

    /// Handles a mouse-up in `phase`, `inside` telling whether it lies in
    /// the element's bounds: while a press is pending, returns whether the
    /// release completes a click (in the bubble phase, on the element), and
    /// clears the pending press whatever the phase and position.
    pub fn on_mouse_up(&self, phase: DispatchPhase, inside: bool, pending: &mut Option<D>) -> (click:
        bool)
        ensures
            click == self.clicks_on_up(phase, inside),
            *final(pending) == self.pending_after_up(*old(pending)),
    {
        match self {
            ClickListener::AwaitRelease { .. } => {
                *pending = None;
                phase == DispatchPhase::Bubble && inside
            },
            ClickListener::AwaitPress { .. } => false,
        }
    }
}

/// A press on the element in the bubble phase becomes the pending press; the
/// element then waits for the release, and a release on the element in the
/// bubble phase completes a click made of that press, leaving no press
/// pending.
pub proof fn lemma_press_release_clicks<D>(bounds: BoundsBits, later_bounds: BoundsBits, down: D)
    ensures
        ({
            let pending = click_listener_for::<D>(bounds, None).pending_after_down(
                down,
                DispatchPhase::Bubble,
                true,
                None,
            );
            let listener = click_listener_for(later_bounds, pending);
            &&& pending == Some(down)
            &&& listener == (ClickListener::AwaitRelease { down, bounds: later_bounds })
            &&& listener.clicks_on_up(DispatchPhase::Bubble, true)
            &&& listener.pending_after_up(pending) is None
        }),
{
}

/// A release completes a click only in the bubble phase and inside the
/// element's bounds; with a press pending, every such release does.
pub proof fn lemma_click_needs_release_inside<D>(
    listener: ClickListener<D>,
    bounds: BoundsBits,
    down: D,
    phase: DispatchPhase,
    inside: bool,
)
    ensures
        listener.clicks_on_up(phase, inside) ==> phase == DispatchPhase::Bubble && inside,
        click_listener_for(bounds, Some(down)).clicks_on_up(phase, inside) == (phase
            == DispatchPhase::Bubble && inside),
{
}

/// Whatever becomes of a release, once a press is pending the release clears
/// it; and no click happens without a pending press.
pub proof fn lemma_release_clears<D>(
    bounds: BoundsBits,
    pending: Option<D>,
    phase: DispatchPhase,
    inside: bool,
)
    ensures
        pending is Some ==> click_listener_for(bounds, pending).pending_after_up(pending) is None,
        pending is None ==> !click_listener_for(bounds, pending).clicks_on_up(phase, inside),
{
}

/// The hover listener asks for a repaint exactly when, in the capture phase,
/// the pointer has crossed the edge of its bounds since paint time.
pub proof fn lemma_hover_notifies_on_crossing(bounds: BoundsBits, hovered: bool, inside: bool)
    ensures
        (HoverListener { bounds, hovered }).notifies(DispatchPhase::Capture, inside) == (inside
            != hovered),
        !(HoverListener { bounds, hovered }).notifies(DispatchPhase::Bubble, inside),
        !(HoverListener { bounds, hovered }).notifies(DispatchPhase::Capture, hovered),
{
}

/// A press that lands on an unpressed element (or on its painted group) in
/// the bubble phase makes it active; once active it listens for the release,
/// and a release in the capture phase makes it inactive again.
pub proof fn lemma_press_then_release(
    bounds: BoundsBits,
    group_bounds: Option<BoundsBits>,
    in_group: bool,
    in_element: bool,
    later_bounds: BoundsBits,
    later_group_bounds: Option<BoundsBits>,
)
    requires
        in_element || (group_bounds is Some && in_group),
    ensures
        ({
            let pressed = active_listener_for(
                bounds,
                group_bounds,
                ActiveState::inactive(),
            ).after_mouse_down(DispatchPhase::Bubble, in_group, in_element);
            &&& pressed is Some
            &&& (pressed->0.group || pressed->0.element)
            &&& active_listener_for(later_bounds, later_group_bounds, pressed->0)
                == ActiveListener::AwaitRelease
            &&& ActiveListener::AwaitRelease.after_mouse_up(DispatchPhase::Capture) == Some(
                ActiveState::inactive(),
            )
        }),
{
}

/// An unpressed element waits for a press hit-tested against exactly the
/// bounds and group bounds it was painted with; a pressed one waits for the
/// release.
pub proof fn lemma_active_listener_keeps_bounds(
    bounds: BoundsBits,
    group_bounds: Option<BoundsBits>,
    state: ActiveState,
)
    ensures
        active_listener_for(bounds, group_bounds, ActiveState::inactive())
            == (ActiveListener::AwaitPress { bounds, group_bounds }),
        (state.group || state.element) ==> active_listener_for(bounds, group_bounds, state)
            == ActiveListener::AwaitRelease,
        active_listener_for(bounds, group_bounds, state) matches ActiveListener::AwaitPress {
            bounds: b,
            group_bounds: g,
        } ==> b == bounds && g == group_bounds,
{
}

/// A press in the capture phase, or a press while already pressed, never
/// changes the state; neither does a release in the bubble phase or one while
/// not pressed.
pub proof fn lemma_active_ignores(
    listener: ActiveListener,
    in_group: bool,
    in_element: bool,
    bounds: BoundsBits,
    group_bounds: Option<BoundsBits>,
    state: ActiveState,
    phase: DispatchPhase,
)
    ensures
        listener.after_mouse_down(DispatchPhase::Capture, in_group, in_element) is None,
        listener.after_mouse_up(DispatchPhase::Bubble) is None,
        (state.group || state.element) ==> active_listener_for(
            bounds,
            group_bounds,
            state,
        ).after_mouse_down(phase, in_group, in_element) is None,
        !(state.group || state.element) ==> active_listener_for(
            bounds,
            group_bounds,
            state,
        ).after_mouse_up(phase) is None,
{
}

} // verus!
