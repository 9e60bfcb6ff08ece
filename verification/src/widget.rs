//! What every widget can be asked to do.
use vstd::prelude::*;

use crate::constraints::BoxConstraints;
use crate::context::{
    DebugState, Event, EventCtx, LayoutCtx, LifeCycle, LifeCycleCtx, PaintCtx, UpdateCtx,
};
use crate::geometry::Size;

verus! {

/// A widget that shows data of type `T`.
///
/// Each method comes with a relation that says which outcomes it may have. A widget chooses its
/// own relations, and one that chooses none may do anything. So this trait promises nothing of
/// widgets in general: it only gives a name to what a particular one does, for the widgets that
/// hold it to speak of.
pub trait Widget<T>: Sized {
    /// What the host says beyond what this crate knows of.
    type Message;

    /// The surroundings in which data is shown.
    type Env;

    /// Whether the widget may go from `pre` to `post` on an event.
    open spec fn event_step(
        pre: Self,
        post: Self,
        ctx: EventCtx,
        ctx_post: EventCtx,
        event: Event<Self::Message>,
        data: T,
        data_post: T,
        env: Self::Env,
    ) -> bool {
        true
    }

    /// Whether the widget may go from `pre` to `post` on a stage in its life.
    open spec fn lifecycle_step(
        pre: Self,
        post: Self,
        ctx: LifeCycleCtx,
        ctx_post: LifeCycleCtx,
        event: LifeCycle<Self::Message>,
        data: T,
        env: Self::Env,
    ) -> bool {
        true
    }

    /// Whether the widget may go from `pre` to `post` on a change of data.
    open spec fn update_step(
        pre: Self,
        post: Self,
        ctx: UpdateCtx,
        ctx_post: UpdateCtx,
        old_data: T,
        data: T,
        env: Self::Env,
    ) -> bool {
        true
    }

    /// Whether the widget may go from `pre` to `post` on a layout, and choose `size`.
    open spec fn layout_step(
        pre: Self,
        post: Self,
        ctx: LayoutCtx,
        ctx_post: LayoutCtx,
        bc: BoxConstraints,
        data: T,
        env: Self::Env,
        size: Size,
    ) -> bool {
        true
    }

    /// Whether the widget may go from `pre` to `post` as it is painted.
    open spec fn paint_step(
        pre: Self,
        post: Self,
        ctx: PaintCtx,
        ctx_post: PaintCtx,
        data: T,
        env: Self::Env,
    ) -> bool {
        true
    }

    /// Whether the widget may show `state` to a debugger.
    open spec fn debug_step(self, data: T, state: DebugState) -> bool {
        true
    }

    /// Handles an event.
    fn event(
        &mut self,
        ctx: &mut EventCtx,
        event: &Event<Self::Message>,
        data: &mut T,
        env: &Self::Env,
    )
        ensures
            Self::event_step(
                *old(self),
                *final(self),
                *old(ctx),
                *final(ctx),
                *event,
                *old(data),
                *final(data),
                *env,
            ),
    ;

    /// Handles a stage in the life of the widget.
    fn lifecycle(
        &mut self,
        ctx: &mut LifeCycleCtx,
        event: &LifeCycle<Self::Message>,
        data: &T,
        env: &Self::Env,
    )
        ensures
            Self::lifecycle_step(
                *old(self),
                *final(self),
                *old(ctx),
                *final(ctx),
                *event,
                *data,
                *env,
            ),
    ;

    /// Takes note that the data changed.
    fn update(&mut self, ctx: &mut UpdateCtx, old_data: &T, data: &T, env: &Self::Env)
        ensures
            Self::update_step(
                *old(self),
                *final(self),
                *old(ctx),
                *final(ctx),
                *old_data,
                *data,
                *env,
            ),
    ;

    /// Chooses a size.
    fn layout(
        &mut self,
        ctx: &mut LayoutCtx,
        bc: &BoxConstraints,
        data: &T,
        env: &Self::Env,
    ) -> (size: Size)
        ensures
            Self::layout_step(
                *old(self),
                *final(self),
                *old(ctx),
                *final(ctx),
                *bc,
                *data,
                *env,
                size,
            ),
    ;

    /// Paints the widget.
    fn paint(&mut self, ctx: &mut PaintCtx, data: &T, env: &Self::Env)
        ensures
            Self::paint_step(*old(self), *final(self), *old(ctx), *final(ctx), *data, *env),
    ;

    /// Shows the widget to a debugger.
    fn debug_state(&self, data: &T) -> (state: DebugState)
        ensures
            self.debug_step(*data, state),
    ;
}

} // verus!
