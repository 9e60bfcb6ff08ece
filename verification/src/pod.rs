//! A widget together with its place in the widget that holds it.
use vstd::prelude::*;

use crate::constraints::BoxConstraints;
use crate::context::{
    ChangeCtx, Event, EventCtx, LayoutCtx, LifeCycle, LifeCycleCtx, PaintCtx, UpdateCtx,
};
use crate::geometry::{Point, Rect, Size};
use crate::widget::Widget;

verus! {

/// A widget together with its place in the widget that holds it.
///
/// A call to the widget goes through its pod, which sets up the context that the widget sees and
/// carries what the widget asked for over into the context of the widget that holds it.
#[derive(Debug)]
pub struct WidgetPod<T, W> {
    /// The widget.
    pub widget: W,
    /// The place of the widget, relative to the widget that holds it.
    pub origin: Point,
    /// The size that the widget chose when it was last laid out.
    pub size: Size,
    /// Whether the widget has yet to be laid out, or asked to be laid out anew.
    pub needs_layout: bool,
    /// The data that the widget was last told of: that of its last update or, before any, that of
    /// the first call to it. `None` before any call.
    pub old_data: Option<T>,
}

/// The coordinate nearest to `at`.
pub open spec fn coordinate(at: int) -> i64 {
    if at < i64::MIN {
        i64::MIN
    } else if at > i64::MAX {
        i64::MAX
    } else {
        at as i64
    }
}

fn offset(a: i64, b: i64) -> (r: i64)
    ensures
        r == coordinate(a + b),
{
    let sum: i128 = a as i128 + b as i128;
    if sum < i64::MIN as i128 {
        i64::MIN
    } else if sum > i64::MAX as i128 {
        i64::MAX
    } else {
        sum as i64
    }
}

impl<T, W> WidgetPod<T, W> {
    /// A pod for a widget that has never been laid out.
    pub open spec fn fresh(widget: W) -> WidgetPod<T, W> {
        WidgetPod {
            widget,
            origin: Point { x: 0, y: 0 },
            size: Size { width: 0, height: 0 },
            needs_layout: true,
            old_data: None,
        }
    }

    /// A pod for a widget that has never been laid out.
    pub fn new(widget: W) -> (pod: Self)
        ensures
            pod == Self::fresh(widget),
    {
        WidgetPod {
            widget,
            origin: Point { x: 0, y: 0 },
            size: Size { width: 0, height: 0 },
            needs_layout: true,
            old_data: None,
        }
    }

    /// The widget.
    pub fn widget(&self) -> (w: &W)
        ensures
            *w == self.widget,
    {
        &self.widget
    }

    /// The widget, to be changed.
    pub fn widget_mut(&mut self) -> (w: &mut W)
        ensures
            *w == old(self).widget,
            *final(self) == (WidgetPod { widget: *final(w), ..*old(self) }),
    {
        &mut self.widget
    }

    /// Where the widget stands and how large it is.
    pub fn layout_rect(&self) -> (r: Rect)
        ensures
            r == (Rect { origin: self.origin, size: self.size }),
    {
        Rect { origin: self.origin, size: self.size }
    }

    /// Whether the widget is to be laid out even if its constraints have not changed.
    pub fn layout_requested(&self) -> (b: bool)
        ensures
            b == self.needs_layout,
    {
        self.needs_layout
    }

    /// Moves the widget to `origin`.
    pub fn set_origin<C: ChangeCtx>(&mut self, ctx: &mut C, origin: Point)
        ensures
            *final(self) == (WidgetPod { origin, ..*old(self) }),
            *final(ctx) == *old(ctx),
    {
        self.origin = origin;
    }

    /// The place in the window of a widget that stands at `origin` in a widget at `parent`.
    pub open spec fn window_origin(self, parent: Point) -> Point {
        Point {
            x: coordinate(parent.x + self.origin.x),
            y: coordinate(parent.y + self.origin.y),
        }
    }
}

impl<T: Clone, W: Widget<T>> WidgetPod<T, W> {
    /// The old data that the widget is told of on an update to `data`.
    pub open spec fn old_data_or(self, data: T) -> T {
        match self.old_data {
            Some(old_data) => old_data,
            None => data,
        }
    }

    /// Whether a pod may keep `old_data_post` once it has handed `data` to its widget in a call
    /// that is no update: a copy of `data` if it kept nothing before.
    pub open spec fn may_keep(self, old_data_post: Option<T>, data: T) -> bool {
        match self.old_data {
            Some(_) => old_data_post == self.old_data,
            None => old_data_post is Some && cloned(data, old_data_post->0),
        }
    }

    /// Keeps a copy of `data` if nothing is kept yet.
    fn keep(&mut self, data: &T)
        ensures
            old(self).may_keep(final(self).old_data, *data),
            *final(self) == (WidgetPod { old_data: final(self).old_data, ..*old(self) }),
    {
        if self.old_data.is_none() {
            self.old_data = Some(data.clone());
        }
    }

    /// Whether the pod may go from `self` to `post` as it hands an event to its widget. Here and
    /// below, `inner` and `inner_post` are the context of the widget before and after.
    pub open spec fn event_step(
        self,
        post: Self,
        ctx: EventCtx,
        ctx_post: EventCtx,
        event: Event<W::Message>,
        data: T,
        data_post: T,
        env: W::Env,
    ) -> bool {
        exists|inner: EventCtx, inner_post: EventCtx|
            {
                &&& inner.window_origin == self.window_origin(ctx.window_origin)
                &&& !inner.is_handled
                &&& !inner.layout_requested
                &&& inner.notifications@ == Seq::<crate::context::Notification>::empty()
                &&& #[trigger] W::event_step(
                    self.widget,
                    post.widget,
                    inner,
                    inner_post,
                    event,
                    data,
                    data_post,
                    env,
                )
                &&& self.may_keep(post.old_data, data)
                &&& post == (WidgetPod {
                    widget: post.widget,
                    old_data: post.old_data,
                    needs_layout: self.needs_layout || inner_post.layout_requested,
                    ..self
                })
                &&& ctx_post.window_origin == ctx.window_origin
                &&& ctx_post.is_handled == (ctx.is_handled || inner_post.is_handled)
                &&& ctx_post.layout_requested == (ctx.layout_requested
                    || inner_post.layout_requested)
                &&& ctx_post.notifications@ == ctx.notifications@ + inner_post.notifications@
            }
    }

    /// Hands an event to the widget.
    pub fn event(
        &mut self,
        ctx: &mut EventCtx,
        event: &Event<W::Message>,
        data: &mut T,
        env: &W::Env,
    )
        ensures
            old(self).event_step(
                *final(self),
                *old(ctx),
                *final(ctx),
                *event,
                *old(data),
                *final(data),
                *env,
            ),
    {
        let mut inner = EventCtx::new(
            Point {
                x: offset(ctx.window_origin.x, self.origin.x),
                y: offset(ctx.window_origin.y, self.origin.y),
            },
        );
        self.keep(data);
        self.widget.event(&mut inner, event, data, env);
        self.needs_layout = self.needs_layout || inner.layout_requested;
        ctx.is_handled = ctx.is_handled || inner.is_handled;
        ctx.layout_requested = ctx.layout_requested || inner.layout_requested;
        ctx.notifications.append(&mut inner.notifications);
    }

    /// Whether the pod may go from `self` to `post` as it hands a stage in its life to its widget.
    pub open spec fn lifecycle_step(
        self,
        post: Self,
        ctx: LifeCycleCtx,
        ctx_post: LifeCycleCtx,
        event: LifeCycle<W::Message>,
        data: T,
        env: W::Env,
    ) -> bool {
        exists|inner_post: LifeCycleCtx|
            {
                &&& #[trigger] W::lifecycle_step(
                    self.widget,
                    post.widget,
                    LifeCycleCtx { size: self.size, layout_requested: false },
                    inner_post,
                    event,
                    data,
                    env,
                )
                &&& self.may_keep(post.old_data, data)
                &&& post == (WidgetPod {
                    widget: post.widget,
                    old_data: post.old_data,
                    needs_layout: self.needs_layout || inner_post.layout_requested,
                    ..self
                })
                &&& ctx_post == (LifeCycleCtx {
                    layout_requested: ctx.layout_requested || inner_post.layout_requested,
                    ..ctx
                })
            }
    }

    /// Hands a stage in its life to the widget.
    pub fn lifecycle(
        &mut self,
        ctx: &mut LifeCycleCtx,
        event: &LifeCycle<W::Message>,
        data: &T,
        env: &W::Env,
    )
        ensures
            old(self).lifecycle_step(
                *final(self),
                *old(ctx),
                *final(ctx),
                *event,
                *data,
                *env,
            ),
    {
        let mut inner = LifeCycleCtx::new(self.size);
        self.keep(data);
        self.widget.lifecycle(&mut inner, event, data, env);
        self.needs_layout = self.needs_layout || inner.layout_requested;
        ctx.layout_requested = ctx.layout_requested || inner.layout_requested;
    }

    /// Whether the pod may go from `self` to `post` as it hands a change of data to its widget.
    pub open spec fn update_step(
        self,
        post: Self,
        ctx: UpdateCtx,
        ctx_post: UpdateCtx,
        data: T,
        env: W::Env,
    ) -> bool {
        exists|inner_post: UpdateCtx|
            {
                &&& #[trigger] W::update_step(
                    self.widget,
                    post.widget,
                    UpdateCtx { layout_requested: false },
                    inner_post,
                    self.old_data_or(data),
                    data,
                    env,
                )
                &&& post.old_data is Some
                &&& cloned(data, post.old_data->0)
                &&& post == (WidgetPod {
                    widget: post.widget,
                    old_data: post.old_data,
                    needs_layout: self.needs_layout || inner_post.layout_requested,
                    ..self
                })
                &&& ctx_post == (UpdateCtx {
                    layout_requested: ctx.layout_requested || inner_post.layout_requested,
                    ..ctx
                })
            }
    }

    /// Hands a change of data to the widget, along with the data it was last told of, and keeps a
    /// copy of the new data.
    pub fn update(&mut self, ctx: &mut UpdateCtx, data: &T, env: &W::Env)
        ensures
            old(self).update_step(
                *final(self),
                *old(ctx),
                *final(ctx),
                *data,
                *env,
            ),
    {
        let mut inner = UpdateCtx::new();
        let old_data: &T = match &self.old_data {
            Some(old_data) => old_data,
            None => data,
        };
        assert(*old_data == old(self).old_data_or(*data));
        self.widget.update(&mut inner, old_data, data, env);
        self.old_data = Some(data.clone());
        self.needs_layout = self.needs_layout || inner.layout_requested;
        ctx.layout_requested = ctx.layout_requested || inner.layout_requested;
    }

    /// Whether the pod may go from `self` to `post` as it lays out its widget, and the widget
    /// choose `size`.
    pub open spec fn layout_step(
        self,
        post: Self,
        ctx: LayoutCtx,
        ctx_post: LayoutCtx,
        bc: BoxConstraints,
        data: T,
        env: W::Env,
        size: Size,
    ) -> bool {
        exists|inner_post: LayoutCtx|
            {
                &&& #[trigger] W::layout_step(
                    self.widget,
                    post.widget,
                    LayoutCtx { context_changed: false },
                    inner_post,
                    bc,
                    data,
                    env,
                    size,
                )
                &&& self.may_keep(post.old_data, data)
                &&& post == (WidgetPod {
                    widget: post.widget,
                    old_data: post.old_data,
                    size,
                    needs_layout: false,
                    ..self
                })
                &&& ctx_post == (LayoutCtx {
                    context_changed: ctx.context_changed || inner_post.context_changed,
                    ..ctx
                })
            }
    }

    /// Lays out the widget and keeps the size that it chose.
    pub fn layout(
        &mut self,
        ctx: &mut LayoutCtx,
        bc: &BoxConstraints,
        data: &T,
        env: &W::Env,
    ) -> (size: Size)
        ensures
            old(self).layout_step(
                *final(self),
                *old(ctx),
                *final(ctx),
                *bc,
                *data,
                *env,
                size,
            ),
    {
        let mut inner = LayoutCtx::new();
        self.keep(data);
        let size = self.widget.layout(&mut inner, bc, data, env);
        self.size = size;
        self.needs_layout = false;
        ctx.context_changed = ctx.context_changed || inner.context_changed;
        size
    }

    /// Whether the pod may go from `self` to `post` as it paints its widget.
    pub open spec fn paint_step(
        self,
        post: Self,
        ctx: PaintCtx,
        ctx_post: PaintCtx,
        data: T,
        env: W::Env,
    ) -> bool {
        exists|inner: PaintCtx, inner_post: PaintCtx|
            {
                &&& inner.size == self.size
                &&& inner.clips@ == Seq::<Rect>::empty()
                &&& #[trigger] W::paint_step(
                    self.widget,
                    post.widget,
                    inner,
                    inner_post,
                    data,
                    env,
                )
                &&& self.may_keep(post.old_data, data)
                &&& post == (WidgetPod {
                    widget: post.widget,
                    old_data: post.old_data,
                    ..self
                })
                &&& ctx_post.size == ctx.size
                &&& ctx_post.clips@ == ctx.clips@ + inner_post.clips@
            }
    }

    /// Paints the widget.
    pub fn paint(&mut self, ctx: &mut PaintCtx, data: &T, env: &W::Env)
        ensures
            old(self).paint_step(*final(self), *old(ctx), *final(ctx), *data, *env),
    {
        let mut inner = PaintCtx::new(self.size);
        self.keep(data);
        self.widget.paint(&mut inner, data, env);
        ctx.clips.append(&mut inner.clips);
    }
}

/// What a widget is told of the old data on an update is a copy of the data of the update before.
pub proof fn law_old_data_is_that_of_last_update<T: Clone, W: Widget<T>>(
    pre: WidgetPod<T, W>,
    post: WidgetPod<T, W>,
    ctx: UpdateCtx,
    ctx_post: UpdateCtx,
    data: T,
    next: T,
    env: W::Env,
)
    requires
        pre.update_step(post, ctx, ctx_post, data, env),
    ensures
        cloned(data, post.old_data_or(next)),
{
}

} // verus!
