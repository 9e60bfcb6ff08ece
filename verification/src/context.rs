//! What widgets are told, and the contexts in which they are told it.
use vstd::prelude::*;

use crate::geometry::{Point, Rect, Size};

verus! {

/// The identity of a widget.
#[derive(Clone, Copy, Debug, PartialEq, Eq, Structural)]
pub struct WidgetId {
    pub id: u64,
}

/// A message that a widget sends up to the widgets that hold it.
#[derive(Clone, Copy, Debug, PartialEq, Eq, Structural)]
pub struct Notification {
    /// The area that is asked to be brought into view, in window coordinates; `None` where the
    /// notification asks for something else.
    pub scroll_to_view: Option<Rect>,
    /// The widget that sent it.
    pub source: WidgetId,
}

/// Something that happened. `M` is whatever the host has to say beyond notifications.
#[derive(Debug)]
pub enum Event<M> {
    /// A widget further down sent a notification.
    Notification(Notification),
    /// Anything else.
    Other(M),
}

/// Where a widget stands in the window, and how much of it can be seen.
#[derive(Clone, Copy, Debug, PartialEq, Eq, Structural)]
pub struct ViewContext {
    /// The origin of the widget, in window coordinates.
    pub window_origin: Point,
    /// The area that can be seen, relative to the widget.
    pub clip: Rect,
}

impl ViewContext {
    /// This context as seen by what a widget of size `size` shows of its contents: nothing beyond
    /// the widget can be seen.
    pub open spec fn within(self, size: Size) -> ViewContext {
        ViewContext { clip: self.clip.meet(size.as_rect()), ..self }
    }

    /// Confines what can be seen to a widget of size `size`.
    pub fn confine(&self, size: Size) -> (v: ViewContext)
        ensures
            v == self.within(size),
    {
        ViewContext { window_origin: self.window_origin, clip: self.clip.intersect(size.to_rect()) }
    }
}

/// A stage in the life of a widget that only the host and its plumbing deal in.
#[derive(Debug)]
pub enum InternalLifeCycle<M> {
    /// The surroundings of a widget further down changed.
    RouteViewContextChanged(ViewContext),
    /// Anything else.
    Other(M),
}

/// A stage in the life of a widget.
#[derive(Debug)]
pub enum LifeCycle<M> {
    /// The surroundings of the widget changed.
    ViewContextChanged(ViewContext),
    /// Plumbing of the host.
    Internal(InternalLifeCycle<M>),
    /// Anything else.
    Other(M),
}

impl<M> LifeCycle<M> {
    /// This stage as it concerns what a widget of size `size` shows of its contents.
    pub open spec fn within(self, size: Size) -> LifeCycle<M> {
        match self {
            LifeCycle::ViewContextChanged(view_context) => LifeCycle::ViewContextChanged(
                view_context.within(size),
            ),
            LifeCycle::Internal(InternalLifeCycle::RouteViewContextChanged(view_context)) => {
                LifeCycle::Internal(
                    InternalLifeCycle::RouteViewContextChanged(view_context.within(size)),
                )
            },
            _ => self,
        }
    }
}

/// A context in which what is on screen may change place.
pub trait ChangeCtx {

}

/// The context of an event.
#[derive(Debug)]
pub struct EventCtx {
    /// The origin of the widget, in window coordinates.
    pub window_origin: Point,
    /// Whether the event has been dealt with and goes no further.
    pub is_handled: bool,
    /// Whether the widget asked to be laid out anew.
    pub layout_requested: bool,
    /// The notifications sent so far, the latest last.
    pub notifications: Vec<Notification>,
}

impl ChangeCtx for EventCtx {

}

impl EventCtx {
    /// The context of an event that reaches a widget at `window_origin`.
    pub fn new(window_origin: Point) -> (ctx: EventCtx)
        ensures
            ctx.window_origin == window_origin,
            !ctx.is_handled,
            !ctx.layout_requested,
            ctx.notifications@ == Seq::<Notification>::empty(),
    {
        EventCtx {
            window_origin,
            is_handled: false,
            layout_requested: false,
            notifications: Vec::new(),
        }
    }

    /// Keeps the event from going any further.
    pub fn set_handled(&mut self)
        ensures
            *final(self) == (EventCtx { is_handled: true, ..*old(self) }),
    {
        self.is_handled = true;
    }

    /// Sends a notification.
    pub fn submit_notification(&mut self, notification: Notification)
        ensures
            final(self).window_origin == old(self).window_origin,
            final(self).is_handled == old(self).is_handled,
            final(self).layout_requested == old(self).layout_requested,
            final(self).notifications@ == old(self).notifications@.push(notification),
    {
        self.notifications.push(notification);
    }
}

/// The context of a stage in the life of a widget.
#[derive(Debug)]
pub struct LifeCycleCtx {
    /// The size of the widget.
    pub size: Size,
    /// Whether the widget asked to be laid out anew.
    pub layout_requested: bool,
}

impl ChangeCtx for LifeCycleCtx {

}

impl LifeCycleCtx {
    /// The context for a widget of the given size.
    pub fn new(size: Size) -> (ctx: LifeCycleCtx)
        ensures
            ctx == (LifeCycleCtx { size, layout_requested: false }),
    {
        LifeCycleCtx { size, layout_requested: false }
    }
}

/// The context of a change of data.
#[derive(Debug)]
pub struct UpdateCtx {
    /// Whether the widget asked to be laid out anew.
    pub layout_requested: bool,
}

impl ChangeCtx for UpdateCtx {

}

impl UpdateCtx {
    /// The context in which nothing has been asked for yet.
    pub fn new() -> (ctx: UpdateCtx)
        ensures
            ctx == (UpdateCtx { layout_requested: false }),
    {
        UpdateCtx { layout_requested: false }
    }
}

/// The context of a layout.
#[derive(Debug)]
pub struct LayoutCtx {
    /// Whether the surroundings of the widgets further down changed, so that they must be told.
    pub context_changed: bool,
}

impl ChangeCtx for LayoutCtx {

}

impl LayoutCtx {
    /// The context in which nothing has changed yet.
    pub fn new() -> (ctx: LayoutCtx)
        ensures
            ctx == (LayoutCtx { context_changed: false }),
    {
        LayoutCtx { context_changed: false }
    }

    /// Has the widgets further down told that their surroundings changed.
    pub fn view_context_changed(&mut self)
        ensures
            *final(self) == (LayoutCtx { context_changed: true, ..*old(self) }),
    {
        self.context_changed = true;
    }
}

/// The context of painting.
#[derive(Debug)]
pub struct PaintCtx {
    /// The size of the widget.
    pub size: Size,
    /// The areas that painting was confined to so far, the latest last, each relative to the
    /// widget that asked for it.
    pub clips: Vec<Rect>,
}

impl PaintCtx {
    /// The context for a widget of the given size.
    pub fn new(size: Size) -> (ctx: PaintCtx)
        ensures
            ctx.size == size,
            ctx.clips@ == Seq::<Rect>::empty(),
    {
        PaintCtx { size, clips: Vec::new() }
    }

    /// Confines what is painted from here on to `area`.
    pub fn clip(&mut self, area: Rect)
        ensures
            final(self).size == old(self).size,
            final(self).clips@ == old(self).clips@.push(area),
    {
        self.clips.push(area);
    }
}

/// What a widget shows of itself to a debugger.
#[derive(Debug)]
pub struct DebugState {
    /// What the widget calls itself.
    pub display_name: String,
    /// The main value it shows, empty where it has none.
    pub main_value: String,
    /// What the widgets inside it show of themselves.
    pub children: Vec<DebugState>,
}

/// What can be seen of the contents of a widget is what could be seen, as far as the widget
/// reaches, and nothing else about their surroundings changes.
pub proof fn law_contents_are_seen_within_widget(view_context: ViewContext, size: Size)
    ensures
        view_context.within(size).window_origin == view_context.window_origin,
        forall|x: int, y: int| #[trigger]
            view_context.within(size).clip.covers(x, y) <==> view_context.clip.covers(x, y) && 0
                <= x < size.width && 0 <= y < size.height,
{
    crate::geometry::law_meet_covers_what_both_cover(view_context.clip, size.as_rect());
}

} // verus!
