use vstd::prelude::*;

verus! {

/// Generic state for all widgets in the hierarchy: the layout rectangle and
/// the flags that drive event flow.
///
/// `R` is the type of the layout rectangle; this module never looks inside it.
pub struct BaseState<R> {
    /// The layout rectangle, as set by the parent.
    pub layout_rect: R,
    /// This widget needs to be repainted.
    pub needs_inval: bool,
    /// The mouse is over this widget.
    pub is_hot: bool,
    /// This widget is active (generally: a mouse button is down on it).
    pub is_active: bool,
    /// Any descendant is active.
    pub has_active: bool,
    /// Any descendant has requested an animation frame.
    pub request_anim: bool,
    /// Any descendant has requested a timer.
    pub request_timer: bool,
    /// This widget or a descendant has focus.
    pub has_focus: bool,
    /// This widget or a descendant has requested focus.
    pub request_focus: bool,
}

impl<R> BaseState<R> {
    /// A state with the given layout rectangle and every flag cleared.
    pub fn new(layout_rect: R) -> (s: Self)
        ensures
            s.layout_rect == layout_rect,
            !s.needs_inval && !s.is_hot && !s.is_active && !s.has_active,
            !s.request_anim && !s.request_timer && !s.has_focus && !s.request_focus,
    {
        BaseState {
            layout_rect,
            needs_inval: false,
            is_hot: false,
            is_active: false,
            has_active: false,
            request_anim: false,
            request_timer: false,
            has_focus: false,
            request_focus: false,
        }
    }

    /// The "hot" (aka hover) status of a widget.
    pub fn is_hot(&self) -> (b: bool)
        ensures
            b == self.is_hot,
    {
        self.is_hot
    }

    /// The active status of a widget.
    pub fn is_active(&self) -> (b: bool)
        ensures
            b == self.is_active,
    {
        self.is_active
    }

    /// The focus status of a widget.
    pub fn has_focus(&self) -> (b: bool)
        ensures
            b == self.has_focus,
    {
        self.has_focus
    }

    /// The layout rectangle.
    pub fn layout_rect(&self) -> (r: &R)
        ensures
            *r == self.layout_rect,
    {
        &self.layout_rect
    }

    /// Set the layout rectangle; no flag changes.
    pub fn set_layout_rect(&mut self, layout_rect: R)
        ensures
            final(self).layout_rect == layout_rect,
            final(self).needs_inval == old(self).needs_inval,
            final(self).is_hot == old(self).is_hot,
            final(self).is_active == old(self).is_active,
            final(self).has_active == old(self).has_active,
            final(self).request_anim == old(self).request_anim,
            final(self).request_timer == old(self).request_timer,
            final(self).has_focus == old(self).has_focus,
            final(self).request_focus == old(self).request_focus,
    {
        self.layout_rect = layout_rect;
    }
}

/// The events that a widget pod routes to its child, without their payloads
/// (the focus change and the hot change carry their new value).
#[derive(Clone, Copy, Debug, PartialEq, Eq, Structural)]
pub enum PodEvent {
    LifeCycle,
    Size,
    MouseDown,
    MouseUp,
    MouseMoved,
    KeyDown,
    KeyUp,
    Paste,
    Wheel,
    Zoom,
    HotChanged(bool),
    FocusChanged(bool),
    AnimFrame,
    Timer,
    Command,
}

/// How an event is to be delivered to a child.
#[derive(Clone, Copy, Debug, PartialEq, Eq, Structural)]
pub struct Routing {
    /// The event is propagated to the child at all. When it is not (it was
    /// already handled, or it is not an event that recurses), the child's
    /// state is left alone, nothing reaches the child and nothing is merged
    /// back into the parent.
    pub dispatched: bool,
    /// The child receives the event.
    pub recurse: bool,
    /// The child first receives a hot change with this value.
    pub hot_changed: Option<bool>,
    /// The event the child receives.
    pub child_event: PodEvent,
}

/// The child state and routing that follow `event` for a child in state
/// `child`.
///
/// `handled` says whether the event was already handled, and `recurses`
/// whether it is an event that propagates from containers to children; when
/// it was handled or does not recurse, the child is left alone and the event
/// goes no further. Otherwise: `hit` says whether the event's position lies
/// inside the child's layout rectangle, `parent_is_root` whether the parent
/// is the root of the hierarchy, and `parent_had_active` whether some
/// descendant of the parent was active before this event; the child's
/// `needs_inval` is cleared.
pub open spec fn route<R>(
    child: BaseState<R>,
    event: PodEvent,
    hit: bool,
    parent_is_root: bool,
    parent_had_active: bool,
    handled: bool,
    recurses: bool,
) -> (BaseState<R>, Routing) {
    if handled || !recurses {
        (child, Routing { dispatched: false, recurse: false, hot_changed: None, child_event: event })
    } else {
        route_propagated(child, event, hit, parent_is_root, parent_had_active)
    }
}

/// The child state and routing of an event that propagates to the child.
pub open spec fn route_propagated<R>(
    child: BaseState<R>,
    event: PodEvent,
    hit: bool,
    parent_is_root: bool,
    parent_had_active: bool,
) -> (BaseState<R>, Routing) {
    let c = BaseState { needs_inval: false, ..child };
    match event {
        PodEvent::Size => (c, Routing { dispatched: true, recurse: parent_is_root, hot_changed: None, child_event: event }),
        PodEvent::MouseDown => {
            let now_hot = !child.is_hot && hit;
            (
                BaseState { is_hot: child.is_hot || hit, ..c },
                Routing { dispatched: true,
                    recurse: child.has_active || (!parent_had_active && hit),
                    hot_changed: if now_hot { Some(true) } else { None },
                    child_event: event,
                },
            )
        },
        PodEvent::MouseUp => (
            c,
            Routing { dispatched: true,
                recurse: child.has_active || (!parent_had_active && hit),
                hot_changed: None,
                child_event: event,
            },
        ),
        PodEvent::MouseMoved => (
            BaseState { is_hot: hit, ..c },
            Routing { dispatched: true,
                recurse: child.has_active || child.is_hot || hit,
                hot_changed: if child.is_hot != hit { Some(hit) } else { None },
                child_event: event,
            },
        ),
        PodEvent::KeyDown | PodEvent::KeyUp | PodEvent::Paste => (
            c,
            Routing { dispatched: true, recurse: child.has_focus, hot_changed: None, child_event: event },
        ),
        PodEvent::Wheel | PodEvent::Zoom => (
            c,
            Routing { dispatched: true, recurse: child.has_active || child.is_hot, hot_changed: None, child_event: event },
        ),
        PodEvent::FocusChanged(_) => (
            BaseState { has_focus: child.request_focus, request_focus: false, ..c },
            Routing { dispatched: true,
                recurse: child.request_focus || child.has_focus,
                hot_changed: None,
                child_event: PodEvent::FocusChanged(child.request_focus),
            },
        ),
        PodEvent::AnimFrame => (
            BaseState { request_anim: false, ..c },
            Routing { dispatched: true, recurse: child.request_anim, hot_changed: None, child_event: event },
        ),
        PodEvent::Timer => (
            c,
            Routing { dispatched: true, recurse: child.request_timer, hot_changed: None, child_event: event },
        ),
        PodEvent::LifeCycle | PodEvent::HotChanged(_) | PodEvent::Command => (
            c,
            Routing { dispatched: true, recurse: true, hot_changed: None, child_event: event },
        ),
    }
}

/// Decide how `event` reaches a child whose state is `child`, and update the
/// child's flags accordingly: the state and routing of [`route`].
pub fn prepare_child_event<R>(
    child: &mut BaseState<R>,
    event: PodEvent,
    hit: bool,
    parent_is_root: bool,
    parent_had_active: bool,
    handled: bool,
    recurses: bool,
) -> (r: Routing)
    ensures
        (*final(child), r) == route(*old(child), event, hit, parent_is_root, parent_had_active, handled, recurses),
{
    if handled || !recurses {
        return Routing { dispatched: false, recurse: false, hot_changed: None, child_event: event };
    }
    let had_active = child.has_active;
    let mut recurse = true;
    let mut hot_changed: Option<bool> = None;
    let mut child_event = event;
    match event {
        PodEvent::LifeCycle => {},
        PodEvent::Size => {
            recurse = parent_is_root;
        },
        PodEvent::MouseDown => {
            let had_hot = child.is_hot;
            let now_hot = hit;
            if !had_hot && now_hot {
                child.is_hot = true;
                hot_changed = Some(true);
            }
            recurse = had_active || !parent_had_active && now_hot;
        },
        PodEvent::MouseUp => {
            recurse = had_active || !parent_had_active && hit;
        },
        PodEvent::MouseMoved => {
            let had_hot = child.is_hot;
            child.is_hot = hit;
            if had_hot != child.is_hot {
                hot_changed = Some(child.is_hot);
            }
            recurse = had_active || had_hot || child.is_hot;
        },
        PodEvent::KeyDown | PodEvent::KeyUp | PodEvent::Paste => {
            recurse = child.has_focus;
        },
        PodEvent::Wheel | PodEvent::Zoom => {
            recurse = had_active || child.is_hot;
        },
        PodEvent::HotChanged(_) => {},
        PodEvent::FocusChanged(_) => {
            let had_focus = child.has_focus;
            let focus = child.request_focus;
            child.request_focus = false;
            child.has_focus = focus;
            recurse = focus || had_focus;
            child_event = PodEvent::FocusChanged(focus);
        },
        PodEvent::AnimFrame => {
            recurse = child.request_anim;
            child.request_anim = false;
        },
        PodEvent::Timer => {
            recurse = child.request_timer;
        },
        PodEvent::Command => {},
    }
    child.needs_inval = false;
    Routing { dispatched: true, recurse, hot_changed, child_event }
}

/// Just before the routed event is handed to the child: no descendant is
/// active yet for this event.
pub fn begin_child_dispatch<R>(child: &mut BaseState<R>)
    ensures
        !final(child).has_active,
        final(child).layout_rect == old(child).layout_rect,
        final(child).needs_inval == old(child).needs_inval,
        final(child).is_hot == old(child).is_hot,
        final(child).is_active == old(child).is_active,
        final(child).request_anim == old(child).request_anim,
        final(child).request_timer == old(child).request_timer,
        final(child).has_focus == old(child).has_focus,
        final(child).request_focus == old(child).request_focus,
{
    child.has_active = false;
}

/// Just after the child has handled the routed event: an active child counts
/// as an active descendant.
pub fn end_child_dispatch<R>(child: &mut BaseState<R>)
    ensures
        final(child).has_active == (old(child).has_active || old(child).is_active),
        final(child).layout_rect == old(child).layout_rect,
        final(child).needs_inval == old(child).needs_inval,
        final(child).is_hot == old(child).is_hot,
        final(child).is_active == old(child).is_active,
        final(child).request_anim == old(child).request_anim,
        final(child).request_timer == old(child).request_timer,
        final(child).has_focus == old(child).has_focus,
        final(child).request_focus == old(child).request_focus,
{
    child.has_active = child.has_active || child.is_active;
}

/// The state of `parent` once the requests of `child` are carried up to it:
/// every request, the hot flag and the active descendant are or-ed in; the
/// parent's own activity, focus and layout stay.
pub open spec fn merged<R, S>(parent: BaseState<R>, child: BaseState<S>) -> BaseState<R> {
    BaseState {
        needs_inval: parent.needs_inval || child.needs_inval,
        request_anim: parent.request_anim || child.request_anim,
        request_timer: parent.request_timer || child.request_timer,
        is_hot: parent.is_hot || child.is_hot,
        has_active: parent.has_active || child.has_active,
        request_focus: parent.request_focus || child.request_focus,
        ..parent
    }
}

/// Carry the requests of a child up to its parent after an event.
pub fn merge_child_state<R, S>(parent: &mut BaseState<R>, child: &BaseState<S>)
    ensures
        *final(parent) == merged(*old(parent), *child),
{
    parent.needs_inval = parent.needs_inval || child.needs_inval;
    parent.request_anim = parent.request_anim || child.request_anim;
    parent.request_timer = parent.request_timer || child.request_timer;
    parent.is_hot = parent.is_hot || child.is_hot;
    parent.has_active = parent.has_active || child.has_active;
    parent.request_focus = parent.request_focus || child.request_focus;
}

/// After a child saw an event: the parent's event is handled when it was
/// already, or when the child handled it.
pub fn merge_handled(parent_handled: &mut bool, child_handled: bool)
    ensures
        *final(parent_handled) == (*old(parent_handled) || child_handled),
{
    *parent_handled = *parent_handled || child_handled;
}

/// A widget's own handling of an event, as the widget pod that holds it sees
/// it: the widget may change itself and its state, and says whether it
/// handled the event.
pub trait PodWidget<R> {
    fn handle_event(&mut self, state: &mut BaseState<R>, event: PodEvent) -> bool;
}

/// Propagate an event from a container to one child, in the order a widget
/// pod does it: decide the routing (a handled event, or one that does not
/// recurse, goes no further); tell the child first of a change of its hot
/// flag; when the event reaches the child, forget the active descendants,
/// let the child handle it, and count an active child as an active
/// descendant; finally carry the child's requests, and whether it handled
/// the event, up to the parent.
pub fn propagate_event<R, S, W: PodWidget<R>>(
    widget: &mut W,
    child: &mut BaseState<R>,
    parent: &mut BaseState<S>,
    parent_handled: &mut bool,
    event: PodEvent,
    hit: bool,
    parent_is_root: bool,
    parent_had_active: bool,
    recurses: bool,
) -> (r: Routing)
    ensures
        r == route(*old(child), event, hit, parent_is_root, parent_had_active, *old(parent_handled), recurses).1,
        !r.dispatched ==> {
            &&& *final(child) == *old(child)
            &&& *final(parent) == *old(parent)
            &&& *final(parent_handled) == *old(parent_handled)
            &&& *final(widget) == *old(widget)
        },
        r.dispatched ==> *final(parent) == merged(*old(parent), *final(child)),
        r.dispatched && !r.recurse && r.hot_changed is None ==> {
            &&& *final(child) == route(
                *old(child),
                event,
                hit,
                parent_is_root,
                parent_had_active,
                *old(parent_handled),
                recurses,
            ).0
            &&& *final(widget) == *old(widget)
            &&& *final(parent_handled) == *old(parent_handled)
        },
        r.recurse ==> (final(child).is_active ==> final(child).has_active),
        *old(parent_handled) ==> *final(parent_handled),
{
    let r = prepare_child_event(child, event, hit, parent_is_root, parent_had_active, *parent_handled, recurses);
    if !r.dispatched {
        return r;
    }
    let mut child_handled = false;
    match r.hot_changed {
        Some(h) => {
            child_handled = widget.handle_event(child, PodEvent::HotChanged(h));
        },
        None => {},
    }
    if r.recurse {
        begin_child_dispatch(child);
        let handled = widget.handle_event(child, r.child_event);
        child_handled = child_handled || handled;
        end_child_dispatch(child);
    }
    merge_child_state(parent, child);
    merge_handled(parent_handled, child_handled);
    r
}

/// Which child receives a propagated event. Size goes on only below the
/// root; a press or release reaches the child that holds an active widget,
/// or, while no sibling holds one, the child under the pointer; a move
/// reaches a child that holds an active widget, was hot or is now under the
/// pointer; key input and paste reach the focused child; wheel and zoom reach
/// a child that holds an active widget or is hot; a timer reaches a child that
/// asked for one; life-cycle events, hot changes and commands always go on.
/// Every propagated event is dispatched.
pub proof fn law_event_delivery<R>(child: BaseState<R>, event: PodEvent, hit: bool, root: bool, pha: bool)
    ensures
        ({
            let r = route_propagated(child, event, hit, root, pha).1;
            &&& r.dispatched
            &&& event is Size ==> r.recurse == root
            &&& (event is MouseDown || event is MouseUp) ==> r.recurse == (child.has_active || (!pha && hit))
            &&& event is MouseMoved ==> r.recurse == (child.has_active || child.is_hot || hit)
            &&& (event is KeyDown || event is KeyUp || event is Paste) ==> r.recurse == child.has_focus
            &&& (event is Wheel || event is Zoom) ==> r.recurse == (child.has_active || child.is_hot)
            &&& event is Timer ==> r.recurse == child.request_timer
            &&& event is FocusChanged ==> r.recurse == (child.request_focus || child.has_focus)
            &&& (event is LifeCycle || event is HotChanged || event is Command) ==> r.recurse
        }),
{
}

/// The hot change a child is told of first: a press tells a child that was
/// not hot and is under the pointer that it is now hot; a move tells it its
/// new hot state when that changed; no other event carries a hot change. The
/// child receives the event itself unchanged, but for a focus change, which
/// tells the child whether it now holds focus.
pub proof fn law_hot_change_and_child_event<R>(child: BaseState<R>, event: PodEvent, hit: bool, root: bool, pha: bool)
    ensures
        ({
            let r = route_propagated(child, event, hit, root, pha).1;
            &&& event is MouseDown ==> r.hot_changed == (if !child.is_hot && hit { Some(true) } else { None::<bool> })
            &&& event is MouseMoved ==> r.hot_changed == (if child.is_hot != hit { Some(hit) } else { None::<bool> })
            &&& !(event is MouseDown || event is MouseMoved) ==> r.hot_changed is None
            &&& event is FocusChanged ==> r.child_event == PodEvent::FocusChanged(child.request_focus)
            &&& !(event is FocusChanged) ==> r.child_event == event
        }),
{
}

/// Routing changes only the flags that the event is about: the hot flag on a
/// press (which can only set it) or a move (which sets it to whether the
/// pointer is inside), focus and its request on a focus change, the animation
/// request on an animation frame; it always clears the repaint request and
/// keeps the layout rectangle, the active flags and the timer request.
pub proof fn law_routing_changes_only_its_flags<R>(child: BaseState<R>, event: PodEvent, hit: bool, root: bool, pha: bool)
    ensures
        ({
            let c = route_propagated(child, event, hit, root, pha).0;
            &&& c.layout_rect == child.layout_rect
            &&& !c.needs_inval
            &&& c.is_active == child.is_active && c.has_active == child.has_active
            &&& c.request_timer == child.request_timer
            &&& event is MouseDown ==> c.is_hot == (child.is_hot || hit)
            &&& event is MouseMoved ==> c.is_hot == hit
            &&& !(event is MouseDown || event is MouseMoved) ==> c.is_hot == child.is_hot
            &&& !(event is FocusChanged) ==> c.has_focus == child.has_focus && c.request_focus == child.request_focus
            &&& event is AnimFrame ==> !c.request_anim
            &&& !(event is AnimFrame) ==> c.request_anim == child.request_anim
        }),
{
}

/// What a merge carries up: each request of the parent stays and each of the
/// child's is added, the parent is hot when it or the child is, holds an
/// active descendant when it or the child does; its own activity, focus and
/// layout rectangle are its own.
pub proof fn law_merge_carries_requests<R, S>(p: BaseState<R>, c: BaseState<S>)
    ensures
        ({
            let m = merged(p, c);
            &&& m.needs_inval == (p.needs_inval || c.needs_inval)
            &&& m.request_anim == (p.request_anim || c.request_anim)
            &&& m.request_timer == (p.request_timer || c.request_timer)
            &&& m.request_focus == (p.request_focus || c.request_focus)
            &&& m.is_hot == (p.is_hot || c.is_hot)
            &&& m.has_active == (p.has_active || c.has_active)
            &&& m.is_active == p.is_active
            &&& m.has_focus == p.has_focus
            &&& m.layout_rect == p.layout_rect
        }),
{
}

/// Merging the states of several children into their parent does not depend
/// on the order of the children, merging a child twice changes nothing more,
/// and no request of either the parent or the child is lost.
pub proof fn law_merge_order_independent<R, S, T>(p: BaseState<R>, a: BaseState<S>, b: BaseState<T>)
    ensures
        merged(merged(p, a), b) == merged(merged(p, b), a),
        merged(merged(p, a), a) == merged(p, a),
        a.request_anim || p.request_anim ==> merged(p, a).request_anim,
        a.request_timer || p.request_timer ==> merged(p, a).request_timer,
        a.request_focus || p.request_focus ==> merged(p, a).request_focus,
        a.needs_inval || p.needs_inval ==> merged(p, a).needs_inval,
        a.has_active || p.has_active ==> merged(p, a).has_active,
{
}

/// The hot flag follows the pointer: after a move the child is hot exactly
/// when the pointer is inside it, and it is told of a change exactly when its
/// hot flag changed; a press can make it hot but never cold.
pub proof fn law_hot_follows_pointer<R>(child: BaseState<R>, hit: bool, root: bool, pha: bool)
    ensures
        route_propagated(child, PodEvent::MouseMoved, hit, root, pha).0.is_hot == hit,
        (route_propagated(child, PodEvent::MouseMoved, hit, root, pha).1.hot_changed is Some) <==> child.is_hot
            != hit,
        child.is_hot ==> route_propagated(child, PodEvent::MouseDown, hit, root, pha).0.is_hot,
{
}

/// Keyboard input only reaches a child that holds focus, and a focus change
/// gives focus to exactly the child that asked for it, consuming the request.
pub proof fn law_focus_routing<R>(child: BaseState<R>, event: PodEvent, hit: bool, root: bool, pha: bool)
    ensures
        (event is KeyDown || event is KeyUp || event is Paste) && route_propagated(child, event, hit, root, pha).1.recurse
            ==> child.has_focus,
        event is FocusChanged ==> route_propagated(child, event, hit, root, pha).0.has_focus == child.request_focus
            && !route_propagated(child, event, hit, root, pha).0.request_focus,
        !(event is FocusChanged) ==> route_propagated(child, event, hit, root, pha).0.has_focus == child.has_focus,
{
}

/// An animation frame reaches only a child that asked for one, and uses up
/// the request; routing never changes whether a child is active.
pub proof fn law_anim_frame_routing<R>(child: BaseState<R>, event: PodEvent, hit: bool, root: bool, pha: bool)
    ensures
        event is AnimFrame ==> route_propagated(child, event, hit, root, pha).1.recurse == child.request_anim
            && !route_propagated(child, event, hit, root, pha).0.request_anim,
        route_propagated(child, event, hit, root, pha).0.is_active == child.is_active,
        route_propagated(child, event, hit, root, pha).0.has_active == child.has_active,
        !route_propagated(child, event, hit, root, pha).0.needs_inval,
{
}

/// An event that was already handled, or that does not recurse, is left
/// alone: the child's state is unchanged, nothing reaches the child and
/// nothing is merged back. An event that is not handled and recurses is
/// propagated as [`route_propagated`] says.
pub proof fn law_handled_events_stop<R>(
    child: BaseState<R>,
    event: PodEvent,
    hit: bool,
    root: bool,
    pha: bool,
    handled: bool,
    recurses: bool,
)
    ensures
        handled || !recurses ==> route(child, event, hit, root, pha, handled, recurses).0 == child
            && !route(child, event, hit, root, pha, handled, recurses).1.dispatched
            && !route(child, event, hit, root, pha, handled, recurses).1.recurse
            && route(child, event, hit, root, pha, handled, recurses).1.hot_changed is None,
        !handled && recurses ==> route(child, event, hit, root, pha, handled, recurses) == route_propagated(
            child,
            event,
            hit,
            root,
            pha,
        ) && route(child, event, hit, root, pha, handled, recurses).1.dispatched,
{
}

} // verus!
