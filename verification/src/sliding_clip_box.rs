//! A widget that shows a rectangular view of its child.
use vstd::prelude::*;

use crate::constraints::{BoxConstraints, Extent, Limit};
use crate::context::{
    ChangeCtx, DebugState, Event, EventCtx, InternalLifeCycle, LayoutCtx, LifeCycle, LifeCycleCtx,
    Notification, PaintCtx, UpdateCtx,
};
use crate::geometry::{Axis, Point, Rect, Size, Vec2};
use crate::pod::WidgetPod;
use crate::viewport::Viewport;
use crate::widget::Widget;

verus! {

/// A place for the child that has been worked out and not been taken yet.
#[derive(Clone, Copy, Debug, PartialEq, Eq, Structural)]
pub enum Origin {
    /// The data that goes with the place is not up to date.
    Prepared(Point),
    /// The data is up to date: the place can be taken.
    ReadyForCommit(Point),
}

impl Origin {
    /// Where the child belongs while `pending` is pending and `prev` is the place to fall back on.
    pub open spec fn to_take(prev: Point, pending: Option<Origin>) -> Point {
        match pending {
            Some(Origin::ReadyForCommit(point)) => point,
            _ => prev,
        }
    }

    /// What is still pending once the child has been put where it belongs.
    pub open spec fn left_over(pending: Option<Origin>) -> Option<Origin> {
        match pending {
            Some(Origin::ReadyForCommit(_)) => None,
            _ => pending,
        }
    }

    /// Where the child belongs while `pending` is pending and `prev` is the place to fall back on,
    /// and what is still pending once it has been put there.
    pub fn commit(prev: Point, pending: Option<Origin>) -> (r: (Point, Option<Origin>))
        ensures
            r.0 == Origin::to_take(prev, pending),
            r.1 == Origin::left_over(pending),
    {
        match pending {
            Some(Origin::ReadyForCommit(point)) => (point, None),
            _ => (prev, pending),
        }
    }
}

/// A widget exposing a rectangular view into its child, which can be used as a building block for
/// widgets that scroll their child.
#[derive(Debug)]
pub struct SlidingClipBox<T, W, Y> {
    prev_origin: Point,
    pending_origin: Option<Origin>,
    container: WidgetPod<T, W>,
    sliding_child: WidgetPod<T, Y>,
    port: Viewport,
    constrain_horizontal: bool,
    constrain_vertical: bool,
    must_fill: bool,
    old_bc: BoxConstraints,
    old_size: Size,
    // Whether the widget around this one answers requests to scroll.
    managed: bool,
}

/// What a [`SlidingClipBox`] holds.
pub struct ClipBoxState<T, W, Y> {
    /// The place that the child falls back on.
    pub prev_origin: Point,
    /// The place that the child is to take next.
    pub pending_origin: Option<Origin>,
    /// The child.
    pub container: WidgetPod<T, W>,
    /// The child that slides along with the view.
    pub sliding_child: WidgetPod<T, Y>,
    /// The view into the child.
    pub port: Viewport,
    /// Whether the child is held to the width of the view.
    pub constrain_horizontal: bool,
    /// Whether the child is held to the height of the view.
    pub constrain_vertical: bool,
    /// Whether the child must be as large as the view has to be.
    pub must_fill: bool,
    /// The constraints that the child was last given.
    pub old_bc: BoxConstraints,
    /// The size of the view when it was last laid out.
    pub old_size: Size,
    /// Whether the widget around this one answers requests to scroll.
    pub managed: bool,
}

impl<T, W, Y> View for SlidingClipBox<T, W, Y> {
    type V = ClipBoxState<T, W, Y>;

    closed spec fn view(&self) -> ClipBoxState<T, W, Y> {
        ClipBoxState {
            prev_origin: self.prev_origin,
            pending_origin: self.pending_origin,
            container: self.container,
            sliding_child: self.sliding_child,
            port: self.port,
            constrain_horizontal: self.constrain_horizontal,
            constrain_vertical: self.constrain_vertical,
            must_fill: self.must_fill,
            old_bc: self.old_bc,
            old_size: self.old_size,
            managed: self.managed,
        }
    }
}

impl<T, W, Y> ClipBoxState<T, W, Y> {
    /// A box that has never been laid out.
    pub open spec fn fresh(containing_child: W, sliding_child: Y, managed: bool) -> Self {
        ClipBoxState {
            prev_origin: Point { x: 0, y: 0 },
            pending_origin: None,
            container: WidgetPod::fresh(containing_child),
            sliding_child: WidgetPod::fresh(sliding_child),
            port: Viewport::empty(),
            constrain_horizontal: false,
            constrain_vertical: false,
            must_fill: false,
            old_bc: BoxConstraints::only(Size { width: 0, height: 0 }),
            old_size: Size { width: 0, height: 0 },
            managed,
        }
    }

    /// Whether the child stands where the view says that it should.
    pub open spec fn in_place(self) -> bool {
        self.container.origin == self.port.content_origin()
    }

    /// The constraints that the child gets where the box gets `bc`.
    pub open spec fn child_constraints(self, bc: BoxConstraints) -> BoxConstraints {
        BoxConstraints {
            min: if self.must_fill {
                bc.min
            } else {
                Size { width: 0, height: 0 }
            },
            max: Limit {
                width: if self.constrain_horizontal {
                    bc.max.width
                } else {
                    Extent::Unbounded
                },
                height: if self.constrain_vertical {
                    bc.max.height
                } else {
                    Extent::Unbounded
                },
            },
        }
    }

    /// Whether the child is to be laid out where the box gets `bc`.
    pub open spec fn child_needs_layout(self, bc: BoxConstraints) -> bool {
        self.child_constraints(bc) != self.old_bc || self.container.needs_layout
    }

    /// The size of the view into a child of size `content_size` where the box gets `bc`: that of
    /// the child along each axis on which it is constrained, and the nearest that keeps to `bc`
    /// along the others.
    pub open spec fn view_size_for(self, bc: BoxConstraints, content_size: Size) -> Size {
        Size {
            width: if self.constrain_horizontal {
                content_size.width
            } else {
                bc.fit(content_size).width
            },
            height: if self.constrain_vertical {
                content_size.height
            } else {
                bc.fit(content_size).height
            },
        }
    }

    /// The view into a child of size `content_size` where the box gets `bc`.
    pub open spec fn port_for(self, bc: BoxConstraints, content_size: Size) -> Viewport {
        (Viewport {
            content_size,
            view_size: self.view_size_for(bc, content_size),
            view_origin: self.port.view_origin,
        }).sanitized()
    }

    /// The box once it is laid out around a child of size `content_size` where it got `bc`.
    pub open spec fn laid_out(self, bc: BoxConstraints, content_size: Size) -> Self {
        ClipBoxState {
            port: self.port_for(bc, content_size),
            container: WidgetPod {
                origin: self.port_for(bc, content_size).content_origin(),
                ..self.container
            },
            old_size: self.view_size_for(bc, content_size),
            ..self
        }
    }
}

impl<T, W, Y> SlidingClipBox<T, W, Y> {
    /// The view lies inside the child, as far as the child is large enough.
    pub open spec fn wf(self) -> bool {
        self@.port.is_sane()
    }

    /// Remembers `origin` as the place that the child is to take once its data is up to date.
    pub fn prepare_origin(&mut self, origin: Point)
        ensures
            final(self)@ == (ClipBoxState {
                pending_origin: Some(Origin::Prepared(origin)),
                ..old(self)@
            }),
            old(self).wf() ==> final(self).wf(),
    {
        self.pending_origin = Some(Origin::Prepared(origin));
    }

    /// Puts the child where it belongs: at the pending place if that is ready to be taken, which
    /// is then pending no more, and else at the place to fall back on.
    pub fn set_origin<C: ChangeCtx>(&mut self, ctx: &mut C)
        ensures
            final(self)@ == (ClipBoxState {
                container: WidgetPod {
                    origin: Origin::to_take(old(self)@.prev_origin, old(self)@.pending_origin),
                    ..old(self)@.container
                },
                pending_origin: Origin::left_over(old(self)@.pending_origin),
                ..old(self)@
            }),
            *final(ctx) == *old(ctx),
            old(self).wf() ==> final(self).wf(),
    {
        let (point, pending) = Origin::commit(self.prev_origin, self.pending_origin);
        self.container.set_origin(ctx, point);
        self.pending_origin = pending;
    }

    /// Builder-style method for deciding whether to constrain the child vertically.
    ///
    /// The default is `false`.
    ///
    /// This setting affects how the box lays out its child.
    ///
    /// - When it is `false` (the default), the child does not receive any upper bound on its
    ///   height: the idea is that the child can be as tall as it wants, and the viewport will
    ///   somehow get moved around to see all of it.
    /// - When it is `true`, the viewport's maximum height will be passed down as an upper bound on
    ///   the height of the child, and the viewport will set its own height to be the same as its
    ///   child's height.
    pub fn constrain_vertical(self, constrain: bool) -> (r: Self)
        ensures
            r@ == (ClipBoxState { constrain_vertical: constrain, ..self@ }),
            self.wf() ==> r.wf(),
    {
        let mut this = self;
        this.constrain_vertical = constrain;
        this
    }

    /// Builder-style method for deciding whether to constrain the child horizontally.
    ///
    /// The default is `false`. See [`constrain_vertical`] for more details.
    ///
    /// [`constrain_vertical`]: SlidingClipBox::constrain_vertical
    pub fn constrain_horizontal(self, constrain: bool) -> (r: Self)
        ensures
            r@ == (ClipBoxState { constrain_horizontal: constrain, ..self@ }),
            self.wf() ==> r.wf(),
    {
        let mut this = self;
        this.constrain_horizontal = constrain;
        this
    }

    /// Builder-style method to set whether the child must fill the view.
    ///
    /// If `false` (the default) there is no minimum constraint on the child's size. If `true`, the
    /// child is passed the same minimum constraints as the box.
    pub fn content_must_fill(self, must_fill: bool) -> (r: Self)
        ensures
            r@ == (ClipBoxState { must_fill, ..self@ }),
            self.wf() ==> r.wf(),
    {
        let mut this = self;
        this.must_fill = must_fill;
        this
    }

    /// Returns a reference to the child widget.
    pub fn child(&self) -> (w: &W)
        ensures
            *w == self@.container.widget,
    {
        self.container.widget()
    }

    /// Returns a mutable reference to the child widget.
    pub fn child_mut(&mut self) -> (w: &mut W)
        ensures
            *w == old(self)@.container.widget,
            final(self)@ == (ClipBoxState {
                container: WidgetPod { widget: *final(w), ..old(self)@.container },
                ..old(self)@
            }),
            old(self).wf() ==> final(self).wf(),
    {
        self.container.widget_mut()
    }

    /// Returns the viewport describing this box's position.
    pub fn viewport(&self) -> (v: Viewport)
        ensures
            v == self@.port,
    {
        self.port
    }

    /// Returns the origin of the viewport rectangle.
    pub fn viewport_origin(&self) -> (p: Point)
        ensures
            p == self@.port.view_origin,
    {
        self.port.view_origin
    }

    /// Returns the size of the rectangular viewport into the child widget. To get the position of
    /// the viewport, see [`viewport_origin`].
    ///
    /// [`viewport_origin`]: SlidingClipBox::viewport_origin
    pub fn viewport_size(&self) -> (s: Size)
        ensures
            s == self@.port.view_size,
    {
        self.port.view_size
    }

    /// Returns the size of the child widget.
    pub fn content_size(&self) -> (s: Size)
        ensures
            s == self@.port.content_size,
    {
        self.port.content_size
    }

    /// Set whether to constrain the child horizontally.
    ///
    /// See [`constrain_vertical`] for more details.
    ///
    /// [`constrain_vertical`]: SlidingClipBox::constrain_vertical
    pub fn set_constrain_horizontal(&mut self, constrain: bool)
        ensures
            final(self)@ == (ClipBoxState { constrain_horizontal: constrain, ..old(self)@ }),
            old(self).wf() ==> final(self).wf(),
    {
        self.constrain_horizontal = constrain;
    }

    /// Set whether to constrain the child vertically.
    ///
    /// See [`constrain_vertical`] for more details.
    ///
    /// [`constrain_vertical`]: SlidingClipBox::constrain_vertical
    pub fn set_constrain_vertical(&mut self, constrain: bool)
        ensures
            final(self)@ == (ClipBoxState { constrain_vertical: constrain, ..old(self)@ }),
            old(self).wf() ==> final(self).wf(),
    {
        self.constrain_vertical = constrain;
    }

    /// Set whether the child's size must be greater than or equal the size of the box.
    ///
    /// See [`content_must_fill`] for more details.
    ///
    /// [`content_must_fill`]: SlidingClipBox::content_must_fill
    pub fn set_content_must_fill(&mut self, must_fill: bool)
        ensures
            final(self)@ == (ClipBoxState { must_fill, ..old(self)@ }),
            old(self).wf() ==> final(self).wf(),
    {
        self.must_fill = must_fill;
    }

    fn with_default_settings(containing_child: W, sliding_child: Y, managed: bool) -> (r: Self)
        ensures
            r@ == ClipBoxState::<T, W, Y>::fresh(containing_child, sliding_child, managed),
            r.wf(),
    {
        SlidingClipBox {
            prev_origin: Point { x: 0, y: 0 },
            pending_origin: None,
            container: WidgetPod::new(containing_child),
            sliding_child: WidgetPod::new(sliding_child),
            port: Viewport::default(),
            constrain_horizontal: false,
            constrain_vertical: false,
            must_fill: false,
            old_bc: BoxConstraints::tight(Size { width: 0, height: 0 }),
            old_size: Size { width: 0, height: 0 },
            managed,
        }
    }

    /// Creates a new box wrapping `containing_child`.
    ///
    /// This method should only be used when creating your own widget, which uses the box
    /// internally.
    ///
    /// The box will forward requests to scroll to its parent unchanged. In this case the parent
    /// has to handle said notification itself. By default the box will filter out requests which
    /// refer to areas not visible.
    pub fn managed(containing_child: W, sliding_child: Y) -> (r: Self)
        ensures
            r@ == ClipBoxState::<T, W, Y>::fresh(containing_child, sliding_child, true),
            r.wf(),
    {
        Self::with_default_settings(containing_child, sliding_child, true)
    }

    /// Creates a new unmanaged box wrapping `containing_child`.
    ///
    /// This method should be used when you are using the box in the widget tree directly.
    pub fn unmanaged(containing_child: W, sliding_child: Y) -> (r: Self)
        ensures
            r@ == ClipBoxState::<T, W, Y>::fresh(containing_child, sliding_child, false),
            r.wf(),
    {
        Self::with_default_settings(containing_child, sliding_child, false)
    }

    /// Pans by `delta` units.
    ///
    /// Returns `true` if the scroll offset has changed.
    pub fn pan_by<C: ChangeCtx>(&mut self, ctx: &mut C, delta: Vec2) -> (changed: bool)
        ensures
            final(self)@ == (ClipBoxState {
                port: old(self)@.port.moved_to(
                    old(self)@.port.view_origin.x + delta.x,
                    old(self)@.port.view_origin.y + delta.y,
                ),
                ..old(self)@
            }),
            changed == (final(self)@.port.view_origin != old(self)@.port.view_origin),
            *final(ctx) == *old(ctx),
            final(self).wf(),
    {
        let before = self.viewport_origin();
        self.with_port(
            ctx,
            |c: &mut C, port: &mut Viewport|
                ensures
                    *final(c) == *old(c),
                    *final(port) == old(port).moved_to(
                        old(port).view_origin.x + delta.x,
                        old(port).view_origin.y + delta.y,
                    )
                {
                    port.pan_by(delta);
                },
        );
        self.viewport_origin() != before
    }

    /// Pans the minimal distance to show the `region`.
    ///
    /// If the target region is larger than the viewport, we will display the portion that fits,
    /// prioritizing the portion closest to the origin.
    ///
    /// Returns `true` if the scroll offset is not the one at which the child stands.
    pub fn pan_to_visible<C: ChangeCtx>(&mut self, ctx: &mut C, region: Rect) -> (changed: bool)
        ensures
            final(self)@ == (ClipBoxState {
                port: old(self)@.port.moved_to_show(region),
                ..old(self)@
            }),
            changed == !final(self)@.in_place(),
            *final(ctx) == *old(ctx),
            final(self).wf(),
    {
        self.with_port(
            ctx,
            |c: &mut C, port: &mut Viewport|
                ensures
                    *final(c) == *old(c),
                    *final(port) == old(port).moved_to_show(region)
                {
                    port.pan_to_visible(region);
                },
        )
    }

    /// Pan to this position on a particular axis.
    ///
    /// Returns `true` if the scroll offset has changed.
    pub fn pan_to_on_axis<C: ChangeCtx>(
        &mut self,
        ctx: &mut C,
        axis: Axis,
        position: i64,
    ) -> (changed: bool)
        ensures
            final(self)@ == (ClipBoxState {
                port: old(self)@.port.moved_on_axis(axis, position as int),
                ..old(self)@
            }),
            changed == (final(self)@.port.view_origin != old(self)@.port.view_origin),
            *final(ctx) == *old(ctx),
            final(self).wf(),
    {
        let before = self.viewport_origin();
        self.with_port(
            ctx,
            |c: &mut C, port: &mut Viewport|
                ensures
                    *final(c) == *old(c),
                    *final(port) == old(port).moved_on_axis(axis, position as int)
                {
                    port.pan_to_on_axis(axis, position);
                },
        );
        self.viewport_origin() != before
    }

    /// Modify the box's viewport rectangle with a closure.
    ///
    /// The provided callback function can modify its argument, and when it is done then this box
    /// will be modified to have the new viewport rectangle, moved the least that puts it inside
    /// the child.
    ///
    /// Returns `true` if the scroll offset is not the one at which the child stands.
    pub fn with_port<C: ChangeCtx, F: FnOnce(&mut C, &mut Viewport)>(
        &mut self,
        ctx: &mut C,
        f: F,
    ) -> (changed: bool)
        requires
            forall|c: &mut C, p: &mut Viewport|
                *c == *old(ctx) && *p == old(self)@.port ==> #[trigger] f.requires((c, p)),
        ensures
            exists|c: &mut C, p: &mut Viewport|
                {
                    &&& #[trigger] f.ensures((c, p), ())
                    &&& *c == *old(ctx)
                    &&& *p == old(self)@.port
                    &&& *final(ctx) == *final(c)
                    &&& final(self)@ == (ClipBoxState { port: final(p).sanitized(), ..old(self)@ })
                },
            changed == !final(self)@.in_place(),
            final(self).wf(),
    {
        f(ctx, &mut self.port);
        self.port.sanitize_view_origin();
        let new_content_origin = self.port.place_of_content();
        new_content_origin != self.container.layout_rect().origin()
    }

    /// The constraints that the child gets where the box gets `bc`.
    pub fn child_constraints(&self, bc: &BoxConstraints) -> (child_bc: BoxConstraints)
        ensures
            child_bc == self@.child_constraints(*bc),
    {
        let max_child_width = if self.constrain_horizontal {
            bc.max().width
        } else {
            Extent::Unbounded
        };
        let max_child_height = if self.constrain_vertical {
            bc.max().height
        } else {
            Extent::Unbounded
        };
        let min_child_size = if self.must_fill {
            bc.min()
        } else {
            Size { width: 0, height: 0 }
        };
        BoxConstraints::new(min_child_size, Limit::new(max_child_width, max_child_height))
    }

    /// Lays out the box, which got `bc`, around a child of size `content_size`, and returns the
    /// size that the box takes.
    pub fn layout_around(
        &mut self,
        ctx: &mut LayoutCtx,
        bc: &BoxConstraints,
        content_size: Size,
    ) -> (size: Size)
        ensures
            final(self)@ == old(self)@.laid_out(*bc, content_size),
            *final(ctx) == (LayoutCtx {
                context_changed: old(ctx).context_changed || size != old(self)@.old_size,
                ..*old(ctx)
            }),
            size == old(self)@.view_size_for(*bc, content_size),
            final(self).wf(),
    {
        self.port.content_size = content_size;
        let fitting = bc.constrain(content_size);
        self.port.view_size = Size {
            width: if self.constrain_horizontal {
                content_size.width
            } else {
                fitting.width
            },
            height: if self.constrain_vertical {
                content_size.height
            } else {
                fitting.height
            },
        };
        self.port.sanitize_view_origin();
        self.container.set_origin(ctx, self.port.place_of_content());
        if self.viewport_size() != self.old_size {
            ctx.view_context_changed();
            self.old_size = self.viewport_size();
        }
        self.viewport_size()
    }
}

impl<T: Clone, W: Widget<T>, Y> Widget<T> for SlidingClipBox<T, W, Y> {
    type Message = W::Message;

    type Env = W::Env;

    /// A request to bring an area into view is answered by an unmanaged box, and every other
    /// notification is left alone. Anything that is no notification goes to the child.
    open spec fn event_step(
        pre: Self,
        post: Self,
        ctx: EventCtx,
        ctx_post: EventCtx,
        event: Event<W::Message>,
        data: T,
        data_post: T,
        env: W::Env,
    ) -> bool {
        match event {
            Event::Notification(notification) => {
                if notification.scroll_to_view is Some && !pre@.managed {
                    &&& post@ == (ClipBoxState { port: pre@.port.sanitized(), ..pre@ })
                    &&& ctx_post.window_origin == ctx.window_origin
                    &&& ctx_post.is_handled
                    &&& ctx_post.layout_requested == ctx.layout_requested
                    &&& ctx_post.notifications@ == ctx.notifications@ + pre@.port.scroll_answer(
                        ctx.window_origin,
                        notification.scroll_to_view->0,
                        notification.source,
                    )
                    &&& data_post == data
                } else {
                    &&& post@ == pre@
                    &&& ctx_post == ctx
                    &&& data_post == data
                }
            },
            Event::Other(_) => {
                &&& pre@.container.event_step(
                    post@.container,
                    ctx,
                    ctx_post,
                    event,
                    data,
                    data_post,
                    env,
                )
                &&& post@ == (ClipBoxState { container: post@.container, ..pre@ })
            },
        }
    }

    /// The child is told every stage, with what can be seen of it confined to the box.
    open spec fn lifecycle_step(
        pre: Self,
        post: Self,
        ctx: LifeCycleCtx,
        ctx_post: LifeCycleCtx,
        event: LifeCycle<W::Message>,
        data: T,
        env: W::Env,
    ) -> bool {
        &&& pre@.container.lifecycle_step(
            post@.container,
            ctx,
            ctx_post,
            event.within(ctx.size),
            data,
            env,
        )
        &&& post@ == (ClipBoxState { container: post@.container, ..pre@ })
    }

    /// The child is told of every change of data. What it is told of the old data is for its pod
    /// to say.
    open spec fn update_step(
        pre: Self,
        post: Self,
        ctx: UpdateCtx,
        ctx_post: UpdateCtx,
        old_data: T,
        data: T,
        env: W::Env,
    ) -> bool {
        &&& pre@.container.update_step(post@.container, ctx, ctx_post, data, env)
        &&& post@ == (ClipBoxState { container: post@.container, ..pre@ })
    }

    /// The child is laid out if its constraints changed or it asked for that, and the box is laid
    /// out around it.
    open spec fn layout_step(
        pre: Self,
        post: Self,
        ctx: LayoutCtx,
        ctx_post: LayoutCtx,
        bc: BoxConstraints,
        data: T,
        env: W::Env,
        size: Size,
    ) -> bool {
        let child_bc = pre@.child_constraints(bc);
        if pre@.child_needs_layout(bc) {
            exists|container: WidgetPod<T, W>, mid: LayoutCtx, content_size: Size|
                {
                    &&& #[trigger] pre@.container.layout_step(
                        container,
                        ctx,
                        mid,
                        child_bc,
                        data,
                        env,
                        content_size,
                    )
                    &&& post@ == (ClipBoxState { container, old_bc: child_bc, ..pre@ }).laid_out(
                        bc,
                        content_size,
                    )
                    &&& ctx_post == (LayoutCtx {
                        context_changed: mid.context_changed || size != pre@.old_size,
                        ..mid
                    })
                    &&& size == pre@.view_size_for(bc, content_size)
                }
        } else {
            &&& post@ == pre@.laid_out(bc, pre@.container.size)
            &&& ctx_post == (LayoutCtx {
                context_changed: ctx.context_changed || size != pre@.old_size,
                ..ctx
            })
            &&& size == pre@.view_size_for(bc, pre@.container.size)
        }
    }

    /// The child is painted, confined to the box.
    open spec fn paint_step(
        pre: Self,
        post: Self,
        ctx: PaintCtx,
        ctx_post: PaintCtx,
        data: T,
        env: W::Env,
    ) -> bool {
        exists|mid: PaintCtx|
            {
                &&& mid.size == ctx.size
                &&& mid.clips@ == ctx.clips@.push(ctx.size.as_rect())
                &&& #[trigger] pre@.container.paint_step(post@.container, mid, ctx_post, data, env)
                &&& post@ == (ClipBoxState { container: post@.container, ..pre@ })
            }
    }

    /// The box shows its name and its child.
    open spec fn debug_step(self, data: T, state: DebugState) -> bool {
        &&& state.display_name@ == "SlidingClipBox"@
        &&& state.main_value@ == Seq::<char>::empty()
        &&& state.children@.len() == 1
        &&& self@.container.widget.debug_step(data, state.children@[0])
    }

    fn event(
        &mut self,
        ctx: &mut EventCtx,
        event: &Event<W::Message>,
        data: &mut T,
        env: &W::Env,
    )
        ensures
            old(self).wf() ==> final(self).wf() && final(self)@.port == old(self)@.port,
            final(self)@.container.origin == old(self)@.container.origin,
            final(self)@.container.size == old(self)@.container.size,
            old(self)@.container.needs_layout ==> final(self)@.container.needs_layout,
            final(ctx).layout_requested && !old(ctx).layout_requested
                ==> final(self)@.container.needs_layout,
    {
        match event {
            Event::Notification(notification) => {
                if let Some(highlight) = notification.scroll_to_view {
                    if !self.managed {
                        // The widget around this one does not answer requests to scroll. To
                        // prevent surprises, such a request is clipped to the viewport.
                        let source = notification.source;
                        ctx.set_handled();
                        self.with_port(
                            ctx,
                            |c: &mut EventCtx, port: &mut Viewport|
                                ensures
                                    final(c).window_origin == old(c).window_origin,
                                    final(c).is_handled == old(c).is_handled,
                                    final(c).layout_requested == old(c).layout_requested,
                                    final(c).notifications@ == old(c).notifications@
                                        + old(port).scroll_answer(
                                        old(c).window_origin,
                                        highlight,
                                        source,
                                    ),
                                    *final(port) == *old(port)
                                {
                                    port.fixed_scroll_to_view_handling(c, highlight, source);
                                },
                        );
                    }
                }
            },
            Event::Other(_) => {
                self.container.event(ctx, event, data, env);
            },
        }
    }

    fn lifecycle(
        &mut self,
        ctx: &mut LifeCycleCtx,
        event: &LifeCycle<W::Message>,
        data: &T,
        env: &W::Env,
    )
        ensures
            old(self).wf() ==> final(self).wf() && final(self)@.port == old(self)@.port,
            final(self)@.container.origin == old(self)@.container.origin,
            final(self)@.container.size == old(self)@.container.size,
            old(self)@.container.needs_layout ==> final(self)@.container.needs_layout,
            final(ctx).layout_requested && !old(ctx).layout_requested
                ==> final(self)@.container.needs_layout,
    {
        match event {
            LifeCycle::ViewContextChanged(view_context) => {
                let modified_event = LifeCycle::ViewContextChanged(view_context.confine(ctx.size));
                self.container.lifecycle(ctx, &modified_event, data, env);
            },
            LifeCycle::Internal(InternalLifeCycle::RouteViewContextChanged(view_context)) => {
                let modified_event = LifeCycle::Internal(
                    InternalLifeCycle::RouteViewContextChanged(view_context.confine(ctx.size)),
                );
                self.container.lifecycle(ctx, &modified_event, data, env);
            },
            _ => {
                self.container.lifecycle(ctx, event, data, env);
            },
        }
    }

    fn update(&mut self, ctx: &mut UpdateCtx, _old_data: &T, data: &T, env: &W::Env)
        ensures
            old(self).wf() ==> final(self).wf() && final(self)@.port == old(self)@.port,
            final(self)@.container.origin == old(self)@.container.origin,
            final(self)@.container.size == old(self)@.container.size,
            old(self)@.container.needs_layout ==> final(self)@.container.needs_layout,
            final(ctx).layout_requested && !old(ctx).layout_requested
                ==> final(self)@.container.needs_layout,
    {
        self.container.update(ctx, data, env);
    }

    fn layout(
        &mut self,
        ctx: &mut LayoutCtx,
        bc: &BoxConstraints,
        data: &T,
        env: &W::Env,
    ) -> (size: Size)
        ensures
            final(self).wf(),
            final(self)@.in_place(),
            size == final(self)@.port.view_size,
    {
        let child_bc = self.child_constraints(bc);
        let bc_changed = child_bc != self.old_bc;
        self.old_bc = child_bc;
        let content_size = if bc_changed || self.container.layout_requested() {
            self.container.layout(ctx, &child_bc, data, env)
        } else {
            self.container.layout_rect().size()
        };
        self.layout_around(ctx, bc, content_size)
    }

    fn paint(&mut self, ctx: &mut PaintCtx, data: &T, env: &W::Env)
        ensures
            old(self).wf() ==> final(self).wf() && final(self)@.port == old(self)@.port,
            final(self)@.container.origin == old(self)@.container.origin,
            final(self)@.container.size == old(self)@.container.size,
            old(self)@.container.needs_layout ==> final(self)@.container.needs_layout,
    {
        let clip_rect = ctx.size.to_rect();
        ctx.clip(clip_rect);
        self.container.paint(ctx, data, env);
    }

    fn debug_state(&self, data: &T) -> (state: DebugState) {
        let child = self.container.widget().debug_state(data);
        DebugState {
            display_name: "SlidingClipBox".to_owned(),
            main_value: String::new(),
            children: vec![child],
        }
    }
}

/// In a new box the child stands where the view says.
pub proof fn law_new_box_is_in_place<T, W, Y>(
    containing_child: W,
    sliding_child: Y,
    managed: bool,
)
    ensures
        ClipBoxState::<T, W, Y>::fresh(containing_child, sliding_child, managed).in_place(),
{
}

/// From a state in which the child stands where the view says, the child is out of place exactly
/// when the view has moved: every way to pan then reports the same.
pub proof fn law_child_is_out_of_place_when_view_moved<T, W, Y>(
    before: ClipBoxState<T, W, Y>,
    port: Viewport,
)
    requires
        before.in_place(),
        before.port.is_sane(),
        port.is_sane(),
    ensures
        !(ClipBoxState { port, ..before }).in_place() <==> port.view_origin
            != before.port.view_origin,
{
}

/// Once the box is laid out, the view lies inside the child and the child stands where the view
/// says.
pub proof fn law_layout_puts_child_in_place<T, W, Y>(
    state: ClipBoxState<T, W, Y>,
    bc: BoxConstraints,
    content_size: Size,
)
    ensures
        state.laid_out(bc, content_size).port.is_sane(),
        state.laid_out(bc, content_size).in_place(),
{
}

/// The size of the view keeps to the constraints of the box along each axis on which the child is
/// not constrained, and to the upper one along each on which it is and keeps to that itself. It is
/// the size of the child where that keeps to the constraints.
pub proof fn law_view_keeps_to_constraints<T, W, Y>(
    state: ClipBoxState<T, W, Y>,
    bc: BoxConstraints,
    content_size: Size,
)
    requires
        bc.consistent(),
    ensures
        ({
            let view = state.laid_out(bc, content_size).port.view_size;
            let child_max = state.child_constraints(bc).max;
            &&& !state.constrain_horizontal ==> bc.min.width <= view.width
            &&& !state.constrain_vertical ==> bc.min.height <= view.height
            &&& child_max.width.admits(content_size.width as int) ==> bc.max.width.admits(
                view.width as int,
            )
            &&& child_max.height.admits(content_size.height as int) ==> bc.max.height.admits(
                view.height as int,
            )
            &&& bc.admits(content_size) ==> view == content_size
        }),
{
}

/// A child may be as long as it wants along each axis on which it is not constrained, and as long
/// as the box along each on which it is. It has to be as large as the box only where it must fill
/// the view.
pub proof fn law_child_is_bound_as_set<T, W, Y>(
    state: ClipBoxState<T, W, Y>,
    bc: BoxConstraints,
    content_size: Size,
)
    ensures
        state.child_constraints(bc).admits(content_size) <==> {
            &&& state.constrain_horizontal ==> bc.max.width.admits(content_size.width as int)
            &&& state.constrain_vertical ==> bc.max.height.admits(content_size.height as int)
            &&& state.must_fill ==> bc.min.width <= content_size.width && bc.min.height
                <= content_size.height
        },
{
}

/// Along each axis on which the child is constrained, the view is as long as the child.
pub proof fn law_view_of_constrained_child_fits_it<T, W, Y>(
    state: ClipBoxState<T, W, Y>,
    bc: BoxConstraints,
    content_size: Size,
)
    ensures
        state.constrain_vertical ==> state.laid_out(bc, content_size).port.view_size.height
            == content_size.height,
        state.constrain_horizontal ==> state.laid_out(bc, content_size).port.view_size.width
            == content_size.width,
{
}

/// A child that must fill the view, and takes no less than it has to, is at least as large as the
/// view.
pub proof fn law_child_that_must_fill_fills_view<T, W, Y>(
    state: ClipBoxState<T, W, Y>,
    bc: BoxConstraints,
    content_size: Size,
)
    requires
        state.must_fill,
    ensures
        state.child_constraints(bc).min.width <= content_size.width ==> state.laid_out(
            bc,
            content_size,
        ).port.view_size.width <= content_size.width,
        state.child_constraints(bc).min.height <= content_size.height ==> state.laid_out(
            bc,
            content_size,
        ).port.view_size.height <= content_size.height,
{
}

/// A second layout under the same constraints changes nothing, does not lay out the child again
/// and gives the same size.
pub proof fn law_second_layout_changes_nothing<T: Clone, W: Widget<T>, Y>(
    pre: SlidingClipBox<T, W, Y>,
    mid: SlidingClipBox<T, W, Y>,
    post: SlidingClipBox<T, W, Y>,
    ctx: LayoutCtx,
    ctx_mid: LayoutCtx,
    ctx2: LayoutCtx,
    ctx2_post: LayoutCtx,
    bc: BoxConstraints,
    data: T,
    data2: T,
    env: W::Env,
    env2: W::Env,
    size: Size,
    size2: Size,
)
    requires
        SlidingClipBox::<T, W, Y>::layout_step(pre, mid, ctx, ctx_mid, bc, data, env, size),
        SlidingClipBox::<T, W, Y>::layout_step(mid, post, ctx2, ctx2_post, bc, data2, env2, size2),
    ensures
        !mid@.child_needs_layout(bc),
        post@ == mid@,
        ctx2_post == ctx2,
        size2 == size,
{
}

/// A place that is only prepared is not taken and stays pending; one that is ready is taken once.
pub proof fn law_pending_place_is_taken_once(prev: Point, point: Point)
    ensures
        Origin::to_take(prev, Some(Origin::Prepared(point))) == prev,
        Origin::left_over(Some(Origin::Prepared(point))) == Some(Origin::Prepared(point)),
        Origin::to_take(prev, Some(Origin::ReadyForCommit(point))) == point,
        Origin::to_take(prev, Origin::left_over(Some(Origin::ReadyForCommit(point)))) == prev,
{
}

/// What the box does with a change of data does not depend on what it is told of the old data.
pub proof fn law_box_needs_no_old_data<T: Clone, W: Widget<T>, Y>(
    pre: SlidingClipBox<T, W, Y>,
    post: SlidingClipBox<T, W, Y>,
    ctx: UpdateCtx,
    ctx_post: UpdateCtx,
    old_data: T,
    other_old_data: T,
    data: T,
    env: W::Env,
)
    ensures
        SlidingClipBox::<T, W, Y>::update_step(pre, post, ctx, ctx_post, old_data, data, env)
            <==> SlidingClipBox::<T, W, Y>::update_step(
            pre,
            post,
            ctx,
            ctx_post,
            other_old_data,
            data,
            env,
        ),
{
}

/// A notification never reaches the child and never changes the data.
pub proof fn law_notifications_stay_from_child<T: Clone, W: Widget<T>, Y>(
    pre: SlidingClipBox<T, W, Y>,
    post: SlidingClipBox<T, W, Y>,
    ctx: EventCtx,
    ctx_post: EventCtx,
    notification: Notification,
    data: T,
    data_post: T,
    env: W::Env,
)
    requires
        SlidingClipBox::<T, W, Y>::event_step(
            pre,
            post,
            ctx,
            ctx_post,
            Event::Notification(notification),
            data,
            data_post,
            env,
        ),
    ensures
        post@.container == pre@.container,
        data_post == data,
{
}

/// A managed box leaves every notification, requests to scroll included, to the widget around it,
/// unchanged.
pub proof fn law_managed_box_leaves_requests_to_parent<T: Clone, W: Widget<T>, Y>(
    pre: SlidingClipBox<T, W, Y>,
    post: SlidingClipBox<T, W, Y>,
    ctx: EventCtx,
    ctx_post: EventCtx,
    notification: Notification,
    data: T,
    data_post: T,
    env: W::Env,
)
    requires
        pre@.managed,
        SlidingClipBox::<T, W, Y>::event_step(
            pre,
            post,
            ctx,
            ctx_post,
            Event::Notification(notification),
            data,
            data_post,
            env,
        ),
    ensures
        post@ == pre@,
        ctx_post == ctx,
{
}

/// An unmanaged box takes up every request to scroll, and passes on the part of the area that can
/// be seen if there is one, and nothing otherwise.
pub proof fn law_unmanaged_box_clips_requests<T: Clone, W: Widget<T>, Y>(
    pre: SlidingClipBox<T, W, Y>,
    post: SlidingClipBox<T, W, Y>,
    ctx: EventCtx,
    ctx_post: EventCtx,
    highlight: Rect,
    notification: Notification,
    data: T,
    data_post: T,
    env: W::Env,
)
    requires
        !pre@.managed,
        notification.scroll_to_view == Some(highlight),
        SlidingClipBox::<T, W, Y>::event_step(
            pre,
            post,
            ctx,
            ctx_post,
            Event::Notification(notification),
            data,
            data_post,
            env,
        ),
    ensures
        ctx_post.is_handled,
        ({
            let view = Rect { origin: ctx.window_origin, size: pre@.port.view_size };
            if exists|x: int, y: int| #[trigger] highlight.covers(x, y) && view.covers(x, y) {
                exists|visible: Rect|
                    {
                        &&& ctx_post.notifications@ == #[trigger] ctx.notifications@.push(
                            Notification {
                                scroll_to_view: Some(visible),
                                source: notification.source,
                            },
                        )
                        &&& forall|x: int, y: int| #[trigger]
                            visible.covers(x, y) <==> highlight.covers(x, y) && view.covers(x, y)
                    }
            } else {
                ctx_post.notifications@ == ctx.notifications@
            }
        }),
{
    let view = Rect { origin: ctx.window_origin, size: pre@.port.view_size };
    let visible = pre@.port.visible_part(ctx.window_origin, highlight);
    crate::geometry::law_meet_has_area_iff_overlapping(highlight, view);
    crate::geometry::law_meet_covers_what_both_cover(highlight, view);
    let pushed = ctx.notifications@.push(
        Notification { scroll_to_view: Some(visible), source: notification.source },
    );
    if visible.has_area() {
        assert(ctx_post.notifications@ == pushed);
    } else {
        assert(ctx_post.notifications@ == ctx.notifications@);
    }
}

} // verus!
