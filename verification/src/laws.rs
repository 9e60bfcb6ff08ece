//! What the operations of this crate are for.
//!
//! Each law speaks of what goes into a call and what comes out of it: of lengths, places and units
//! of the plane, and of what the child is told. Where a law speaks of a call by `call_ensures`, it
//! holds of every outcome that the contract of the called function allows.
use vstd::prelude::*;

use crate::constraints::{BoxConstraints, Extent};
use crate::context::{
    ChangeCtx, DebugState, Event, EventCtx, InternalLifeCycle, LayoutCtx, LifeCycle, LifeCycleCtx,
    Notification, PaintCtx, UpdateCtx, ViewContext, WidgetId,
};
use crate::geometry::{Axis, Point, Rect, Size, Vec2};
use crate::pod::WidgetPod;
use crate::sliding_clip_box::{ClipBoxState, Origin, SlidingClipBox};
use crate::viewport::Viewport;
use crate::widget::Widget;

verus! {

// The vocabulary of the laws.

/// How far apart two positions are.
pub open spec fn apart(a: int, b: int) -> int {
    if a <= b {
        b - a
    } else {
        a - b
    }
}

/// Whether the unit at `x` lies in `[start, start + len)`.
pub open spec fn within(x: int, start: i64, len: u64) -> bool {
    start <= x < start + len
}

/// Whether the unit at `(x, y)` lies in `r`.
pub open spec fn lies_in(x: int, y: int, r: Rect) -> bool {
    &&& r.origin.x <= x < r.origin.x + r.size.width
    &&& r.origin.y <= y < r.origin.y + r.size.height
}

/// Whether a view of length `view` may stand at `at` along a content of length `content`: at the
/// start, or anywhere from which it does not reach beyond the end.
pub open spec fn may_stand(at: int, content: u64, view: u64) -> bool {
    0 <= at <= i64::MAX && (at == 0 || at + view <= content)
}

/// Whether `at` is, of all the places where the view may stand, the nearest to `wanted`.
pub open spec fn nearest_place(at: int, wanted: int, content: u64, view: u64) -> bool {
    &&& may_stand(at, content, view)
    &&& forall|p: int|
        may_stand(p, content, view) ==> apart(at, wanted) <= #[trigger] apart(p, wanted)
}

/// Whether `v` is `before` with its view moved as near to `(x, y)` as it may stand.
pub open spec fn moved_near(before: Viewport, v: Viewport, x: int, y: int) -> bool {
    &&& v.content_size == before.content_size
    &&& v.view_size == before.view_size
    &&& nearest_place(v.view_origin.x as int, x, v.content_size.width, v.view_size.width)
    &&& nearest_place(v.view_origin.y as int, y, v.content_size.height, v.view_size.height)
}

/// How far a view of length `view` at `at` is from showing as much of `[start, start + len)` as
/// fits into it, counted from `start`.
pub open spec fn short_of_showing(at: int, view: u64, start: i64, len: u64) -> int {
    let shown: int = if len <= view {
        len as int
    } else {
        view as int
    };
    if start < at {
        at - start
    } else if at + view < start + shown {
        start + shown - (at + view)
    } else {
        0
    }
}

/// Whether `at` is the place for a view that was at `from` and is to show `[start, start + len)`:
/// of all the places where the view may stand, none is less short of showing it, and none that is
/// as little short is nearer to `from`.
pub open spec fn shows_best(
    at: int,
    from: int,
    content: u64,
    view: u64,
    start: i64,
    len: u64,
) -> bool {
    &&& may_stand(at, content, view)
    &&& forall|p: int|
        may_stand(p, content, view) ==> {
            ||| short_of_showing(at, view, start, len) < #[trigger] short_of_showing(
                p,
                view,
                start,
                len,
            )
            ||| {
                &&& short_of_showing(at, view, start, len) == short_of_showing(p, view, start, len)
                &&& apart(at, from) <= apart(p, from)
            }
        }
}

/// Whether `v` is `before` with its view where it shows `region` best.
pub open spec fn moved_to_show_best(before: Viewport, v: Viewport, region: Rect) -> bool {
    &&& v.content_size == before.content_size
    &&& v.view_size == before.view_size
    &&& shows_best(
        v.view_origin.x as int,
        before.view_origin.x as int,
        v.content_size.width,
        v.view_size.width,
        region.origin.x,
        region.size.width,
    )
    &&& shows_best(
        v.view_origin.y as int,
        before.view_origin.y as int,
        v.content_size.height,
        v.view_size.height,
        region.origin.y,
        region.size.height,
    )
}

/// Whether `[start, start + len)` holds exactly the units that `[a, a + m)` and `[b, b + n)`
/// share, and starts where the later of the two does.
pub open spec fn shared_span(start: i64, len: u64, a: i64, m: u64, b: i64, n: u64) -> bool {
    &&& a <= start
    &&& b <= start
    &&& start == a || start == b
    &&& forall|x: int| #[trigger] within(x, start, len) <==> within(x, a, m) && within(x, b, n)
}

/// Whether `r` is what `a` and `b` share.
pub open spec fn shared_area(r: Rect, a: Rect, b: Rect) -> bool {
    &&& shared_span(
        r.origin.x,
        r.size.width,
        a.origin.x,
        a.size.width,
        b.origin.x,
        b.size.width,
    )
    &&& shared_span(
        r.origin.y,
        r.size.height,
        a.origin.y,
        a.size.height,
        b.origin.y,
        b.size.height,
    )
}

/// Whether `len` is at least `least` and within `most`.
pub open spec fn allowed(len: int, least: u64, most: Extent) -> bool {
    &&& least <= len
    &&& most matches Extent::Bounded(m) ==> len <= m
}

/// Whether both lengths of `size` are allowed by `bc`.
pub open spec fn size_allowed(size: Size, bc: BoxConstraints) -> bool {
    &&& allowed(size.width as int, bc.min.width, bc.max.width)
    &&& allowed(size.height as int, bc.min.height, bc.max.height)
}

/// Whether `r` is the allowed length nearest to `len`, or the upper bound where none is allowed.
pub open spec fn nearest_allowed(r: u64, len: u64, least: u64, most: Extent) -> bool {
    if most matches Extent::Bounded(m) && m < least {
        most == Extent::Bounded(r)
    } else {
        &&& allowed(r as int, least, most)
        &&& forall|other: int|
            allowed(other, least, most) ==> apart(r as int, len as int) <= #[trigger] apart(
                other,
                len as int,
            )
    }
}

/// Whether `child_bc` is what a child gets from a box in `state` that gets `bc`.
pub open spec fn bound_as_set<T, W, Y>(
    state: ClipBoxState<T, W, Y>,
    bc: BoxConstraints,
    child_bc: BoxConstraints,
) -> bool {
    &&& state.constrain_horizontal ==> child_bc.max.width == bc.max.width
    &&& !state.constrain_horizontal ==> child_bc.max.width is Unbounded
    &&& state.constrain_vertical ==> child_bc.max.height == bc.max.height
    &&& !state.constrain_vertical ==> child_bc.max.height is Unbounded
    &&& state.must_fill ==> child_bc.min == bc.min
    &&& !state.must_fill ==> child_bc.min.width == 0 && child_bc.min.height == 0
}

/// Whether `post` has the settings of `pre`, its pending and fallback places and its second child.
pub open spec fn same_settings<T, W, Y>(
    pre: ClipBoxState<T, W, Y>,
    post: ClipBoxState<T, W, Y>,
) -> bool {
    &&& post.prev_origin == pre.prev_origin
    &&& post.pending_origin == pre.pending_origin
    &&& post.sliding_child == pre.sliding_child
    &&& post.constrain_horizontal == pre.constrain_horizontal
    &&& post.constrain_vertical == pre.constrain_vertical
    &&& post.must_fill == pre.must_fill
    &&& post.managed == pre.managed
}

/// Whether `post` differs from `pre` in the view at most.
pub open spec fn same_but_view<T, W, Y>(
    pre: ClipBoxState<T, W, Y>,
    post: ClipBoxState<T, W, Y>,
) -> bool {
    &&& same_settings(pre, post)
    &&& post.container == pre.container
    &&& post.old_bc == pre.old_bc
    &&& post.old_size == pre.old_size
}

/// Whether `post` differs from `pre` in the child at most.
pub open spec fn same_but_child<T, W, Y>(
    pre: ClipBoxState<T, W, Y>,
    post: ClipBoxState<T, W, Y>,
) -> bool {
    &&& same_settings(pre, post)
    &&& post.port == pre.port
    &&& post.old_bc == pre.old_bc
    &&& post.old_size == pre.old_size
}

/// Whether the child of the box stands where its content would start, seen from its view.
pub open spec fn child_stands_right<T, W, Y>(state: ClipBoxState<T, W, Y>) -> bool {
    &&& state.container.origin.x == -state.port.view_origin.x
    &&& state.container.origin.y == -state.port.view_origin.y
}

/// Whether `post` is the state of a box of state `pre` that got `bc` once it is laid out around a
/// child of size `content_size`.
///
/// The size of the view is that of the child along each axis on which the child is constrained,
/// and else the nearest that is allowed. The view stands as near to where it was as the new sizes
/// let it, and the child stands right for it.
pub open spec fn placed_around<T, W, Y>(
    pre: ClipBoxState<T, W, Y>,
    post: ClipBoxState<T, W, Y>,
    bc: BoxConstraints,
    content_size: Size,
) -> bool {
    let view = post.port.view_size;
    &&& same_settings(pre, post)
    &&& post.port.content_size == content_size
    &&& pre.constrain_horizontal ==> view.width == content_size.width
    &&& !pre.constrain_horizontal ==> nearest_allowed(
        view.width,
        content_size.width,
        bc.min.width,
        bc.max.width,
    )
    &&& pre.constrain_vertical ==> view.height == content_size.height
    &&& !pre.constrain_vertical ==> nearest_allowed(
        view.height,
        content_size.height,
        bc.min.height,
        bc.max.height,
    )
    &&& nearest_place(
        post.port.view_origin.x as int,
        pre.port.view_origin.x as int,
        content_size.width,
        view.width,
    )
    &&& nearest_place(
        post.port.view_origin.y as int,
        pre.port.view_origin.y as int,
        content_size.height,
        view.height,
    )
    &&& child_stands_right(post)
    &&& post.old_size == view
}

/// Whether `at` is the coordinate nearest to `sum`: `sum` itself where that is a coordinate.
pub open spec fn nearest_coordinate(at: i64, sum: int) -> bool {
    forall|c: i64| apart(at as int, sum) <= #[trigger] apart(c as int, sum)
}

/// Whether `post` holds what a pod that held `pre` keeps of the data of a call that is no update:
/// what it had, or a copy of `data` if it had nothing.
pub open spec fn keeps_first<T: Clone>(pre: Option<T>, post: Option<T>, data: T) -> bool {
    match pre {
        Some(_) => post == pre,
        None => post is Some && cloned(data, post->0),
    }
}

// Rectangles.

/// The intersection of two rectangles is what they share.
pub proof fn law_intersect(a: Rect, b: Rect, r: Rect)
    requires
        call_ensures(Rect::intersect, (&a, b), r),
    ensures
        shared_area(r, a, b),
        forall|x: int, y: int| #[trigger]
            lies_in(x, y, r) <==> lies_in(x, y, a) && lies_in(x, y, b),
{
}

/// A rectangle is empty exactly when no unit lies in it.
pub proof fn law_is_empty(r: Rect, empty: bool)
    requires
        call_ensures(Rect::is_empty, (&r,), empty),
    ensures
        empty <==> forall|x: int, y: int| !(#[trigger] lies_in(x, y, r)),
{
    if !empty {
        assert(lies_in(r.origin.x as int, r.origin.y as int, r));
    }
}

/// The rectangle of a size starts at the origin of the plane and is of that size.
pub proof fn law_to_rect(size: Size, r: Rect)
    requires
        call_ensures(Size::to_rect, (&size,), r),
    ensures
        r.origin.x == 0,
        r.origin.y == 0,
        r.size == size,
{
}

// Constraints.

/// A constrained size is, along each axis, the nearest that is allowed, or the upper bound where
/// none is.
pub proof fn law_constrain(bc: BoxConstraints, size: Size, r: Size)
    requires
        call_ensures(BoxConstraints::constrain, (&bc, size), r),
    ensures
        nearest_allowed(r.width, size.width, bc.min.width, bc.max.width),
        nearest_allowed(r.height, size.height, bc.min.height, bc.max.height),
{
}

/// Tight constraints allow one size and no other.
pub proof fn law_tight(size: Size, bc: BoxConstraints)
    requires
        call_ensures(BoxConstraints::tight, (size,), bc),
    ensures
        forall|other: Size| #[trigger] size_allowed(other, bc) <==> other == size,
{
}

/// Constraints are sound exactly when they allow some size.
pub proof fn law_debug_check(bc: BoxConstraints, ok: bool)
    requires
        call_ensures(BoxConstraints::debug_check, (&bc,), ok),
    ensures
        ok <==> exists|size: Size| #[trigger] size_allowed(size, bc),
{
    if ok {
        assert(size_allowed(bc.min, bc));
    }
}

// The view.

/// A view is sane exactly when it stands where it may.
pub proof fn law_sane_view(v: Viewport)
    ensures
        v.is_sane() <==> {
            &&& may_stand(v.view_origin.x as int, v.content_size.width, v.view_size.width)
            &&& may_stand(v.view_origin.y as int, v.content_size.height, v.view_size.height)
        },
{
}

/// Of all the places where the view may stand, a position is clamped to the nearest.
pub proof fn law_clamp_view_origin(v: Viewport, origin: Point, r: Point)
    requires
        call_ensures(Viewport::clamp_view_origin, (&v, origin), r),
    ensures
        moved_near(v, Viewport { view_origin: r, ..v }, origin.x as int, origin.y as int),
{
}

/// Sanitizing a view moves it to the nearest place where it may stand.
pub proof fn law_sanitize_view_origin()
    ensures
        forall|v: &mut Viewport| #[trigger]
            call_ensures(Viewport::sanitize_view_origin, (v,), ()) ==> moved_near(
                *v,
                *final(v),
                v.view_origin.x as int,
                v.view_origin.y as int,
            ),
{
}

/// Panning by a displacement goes as near as can be to where that leads, and says whether the view
/// moved.
pub proof fn law_pan_by(delta: Vec2, changed: bool)
    ensures
        forall|v: &mut Viewport| #[trigger]
            call_ensures(Viewport::pan_by, (v, delta), changed) ==> {
                &&& moved_near(
                    *v,
                    *final(v),
                    v.view_origin.x + delta.x,
                    v.view_origin.y + delta.y,
                )
                &&& changed <==> final(v).view_origin != v.view_origin
            },
{
}

/// Panning to a place goes as near as can be to it, and says whether the view moved.
pub proof fn law_pan_to(origin: Point, changed: bool)
    ensures
        forall|v: &mut Viewport| #[trigger]
            call_ensures(Viewport::pan_to, (v, origin), changed) ==> {
                &&& moved_near(*v, *final(v), origin.x as int, origin.y as int)
                &&& changed <==> final(v).view_origin != v.view_origin
            },
{
}

/// Panning to a position on an axis goes, along that axis, as near as can be to the position, from
/// wherever the view was. Along the other axis the view stays as near as can be to where it was.
pub proof fn law_pan_to_on_axis(axis: Axis, position: i64, changed: bool)
    ensures
        forall|v: &mut Viewport| #[trigger]
            call_ensures(Viewport::pan_to_on_axis, (v, axis, position), changed) ==> {
                &&& axis is Horizontal ==> moved_near(
                    *v,
                    *final(v),
                    position as int,
                    v.view_origin.y as int,
                )
                &&& axis is Vertical ==> moved_near(
                    *v,
                    *final(v),
                    v.view_origin.x as int,
                    position as int,
                )
                &&& changed <==> final(v).view_origin != v.view_origin
            },
{
}

/// Two views of the same content that are sent to the same position on an axis end up at the same
/// place along it.
pub proof fn law_pan_to_on_axis_forgets(v: Viewport, w: Viewport, position: int)
    requires
        v.content_size == w.content_size,
        v.view_size == w.view_size,
    ensures
        v.moved_on_axis(Axis::Horizontal, position).view_origin.x == w.moved_on_axis(
            Axis::Horizontal,
            position,
        ).view_origin.x,
        v.moved_on_axis(Axis::Vertical, position).view_origin.y == w.moved_on_axis(
            Axis::Vertical,
            position,
        ).view_origin.y,
{
}

/// Panning to a region ends up where the region is shown best, wherever the region lies, and says
/// whether the view moved.
pub proof fn law_pan_to_visible(region: Rect, changed: bool)
    ensures
        forall|v: &mut Viewport| #[trigger]
            call_ensures(Viewport::pan_to_visible, (v, region), changed) ==> {
                &&& moved_to_show_best(*v, *final(v), region)
                &&& changed <==> final(v).view_origin != v.view_origin
            },
{
}

/// Where the view must not move, a request to bring an area into view is answered by one for the
/// part of it that lies in the view, and by nothing where there is no such part.
pub proof fn law_fixed_scroll_to_view_handling(v: Viewport, highlight: Rect, source: WidgetId)
    ensures
        forall|ctx: &mut EventCtx| #[trigger]
            call_ensures(
                Viewport::fixed_scroll_to_view_handling,
                (&v, ctx, highlight, source),
                (),
            ) ==> {
                &&& answered(
                    ctx.notifications@,
                    final(ctx).notifications@,
                    highlight,
                    Rect { origin: ctx.window_origin, size: v.view_size },
                    source,
                )
                &&& final(ctx).window_origin == ctx.window_origin
                &&& final(ctx).is_handled == ctx.is_handled
                &&& final(ctx).layout_requested == ctx.layout_requested
            },
{
    assert forall|ctx: &mut EventCtx| #[trigger]
        call_ensures(
            Viewport::fixed_scroll_to_view_handling,
            (&v, ctx, highlight, source),
            (),
        ) implies answered(
        ctx.notifications@,
        final(ctx).notifications@,
        highlight,
        Rect { origin: ctx.window_origin, size: v.view_size },
        source,
    ) by {
        lemma_scroll_answer(v, ctx.window_origin, ctx.notifications@, highlight, source);
    }
}

/// Whether `after` holds, beyond `before`, one request of `source` for what `highlight` and `view`
/// share if they share a unit, and nothing otherwise.
pub open spec fn answered(
    before: Seq<Notification>,
    after: Seq<Notification>,
    highlight: Rect,
    view: Rect,
    source: WidgetId,
) -> bool {
    if exists|x: int, y: int| #[trigger] lies_in(x, y, highlight) && lies_in(x, y, view) {
        &&& after.len() == before.len() + 1
        &&& after.drop_last() == before
        &&& after.last().source == source
        &&& after.last().scroll_to_view matches Some(visible) && shared_area(
            visible,
            highlight,
            view,
        )
    } else {
        after == before
    }
}

proof fn lemma_scroll_answer(
    v: Viewport,
    window_origin: Point,
    before: Seq<Notification>,
    highlight: Rect,
    source: WidgetId,
)
    ensures
        answered(
            before,
            before + v.scroll_answer(window_origin, highlight, source),
            highlight,
            Rect { origin: window_origin, size: v.view_size },
            source,
        ),
{
    let view = Rect { origin: window_origin, size: v.view_size };
    let visible = v.visible_part(window_origin, highlight);
    let after = before + v.scroll_answer(window_origin, highlight, source);
    if visible.has_area() {
        assert(lies_in(visible.origin.x as int, visible.origin.y as int, highlight));
        assert(lies_in(visible.origin.x as int, visible.origin.y as int, view));
        assert(after.drop_last() =~= before);
    } else {
        assert(after =~= before);
    }
}

// The pod of a widget.

/// Whether a widget was handed `event`, and its pod and the context around it carry what came of
/// that.
///
/// The widget is told its own place in the window, finds nothing handled, asked for or sent, and
/// what it handles, asks for or sends is added to what was handled, asked for and sent before.
pub open spec fn widget_got_event<T: Clone, W: Widget<T>>(
    pre: WidgetPod<T, W>,
    post: WidgetPod<T, W>,
    ctx: EventCtx,
    ctx_post: EventCtx,
    event: Event<W::Message>,
    data: T,
    data_post: T,
    env: W::Env,
) -> bool {
    exists|inner: EventCtx, inner_post: EventCtx|
        {
            &&& #[trigger] W::event_step(
                pre.widget,
                post.widget,
                inner,
                inner_post,
                event,
                data,
                data_post,
                env,
            )
            &&& nearest_coordinate(inner.window_origin.x, ctx.window_origin.x + pre.origin.x)
            &&& nearest_coordinate(inner.window_origin.y, ctx.window_origin.y + pre.origin.y)
            &&& !inner.is_handled
            &&& !inner.layout_requested
            &&& inner.notifications@.len() == 0
            &&& post.origin == pre.origin
            &&& post.size == pre.size
            &&& post.needs_layout <==> pre.needs_layout || inner_post.layout_requested
            &&& keeps_first(pre.old_data, post.old_data, data)
            &&& ctx_post.window_origin == ctx.window_origin
            &&& ctx_post.is_handled <==> ctx.is_handled || inner_post.is_handled
            &&& ctx_post.layout_requested <==> ctx.layout_requested || inner_post.layout_requested
            &&& ctx_post.notifications@ == ctx.notifications@ + inner_post.notifications@
        }
}

/// Whether a widget was handed a stage in its life, and its pod and the context around it carry
/// what came of that. The widget is told the size that it chose.
pub open spec fn widget_got_lifecycle<T: Clone, W: Widget<T>>(
    pre: WidgetPod<T, W>,
    post: WidgetPod<T, W>,
    ctx: LifeCycleCtx,
    ctx_post: LifeCycleCtx,
    event: LifeCycle<W::Message>,
    data: T,
    env: W::Env,
) -> bool {
    exists|inner: LifeCycleCtx, inner_post: LifeCycleCtx|
        {
            &&& #[trigger] W::lifecycle_step(
                pre.widget,
                post.widget,
                inner,
                inner_post,
                event,
                data,
                env,
            )
            &&& inner.size == pre.size
            &&& !inner.layout_requested
            &&& post.origin == pre.origin
            &&& post.size == pre.size
            &&& post.needs_layout <==> pre.needs_layout || inner_post.layout_requested
            &&& keeps_first(pre.old_data, post.old_data, data)
            &&& ctx_post.size == ctx.size
            &&& ctx_post.layout_requested <==> ctx.layout_requested || inner_post.layout_requested
        }
}

/// Whether a widget was told that the data is now `data`, along with the data that it was last
/// told of, and its pod and the context around it carry what came of that.
pub open spec fn widget_got_update<T: Clone, W: Widget<T>>(
    pre: WidgetPod<T, W>,
    post: WidgetPod<T, W>,
    ctx: UpdateCtx,
    ctx_post: UpdateCtx,
    data: T,
    env: W::Env,
) -> bool {
    exists|inner: UpdateCtx, inner_post: UpdateCtx, told: T|
        {
            &&& #[trigger] W::update_step(
                pre.widget,
                post.widget,
                inner,
                inner_post,
                told,
                data,
                env,
            )
            &&& pre.old_data is Some ==> pre.old_data == Some(told)
            &&& pre.old_data is None ==> told == data
            &&& !inner.layout_requested
            &&& post.origin == pre.origin
            &&& post.size == pre.size
            &&& post.needs_layout <==> pre.needs_layout || inner_post.layout_requested
            &&& post.old_data is Some
            &&& cloned(data, post.old_data->0)
            &&& ctx_post.layout_requested <==> ctx.layout_requested || inner_post.layout_requested
        }
}

/// Whether a widget was laid out under `bc` and chose `size`, and its pod and the context around
/// it carry what came of that.
pub open spec fn widget_got_layout<T: Clone, W: Widget<T>>(
    pre: WidgetPod<T, W>,
    post: WidgetPod<T, W>,
    changed: bool,
    changed_post: bool,
    bc: BoxConstraints,
    data: T,
    env: W::Env,
    size: Size,
) -> bool {
    exists|inner: LayoutCtx, inner_post: LayoutCtx|
        {
            &&& #[trigger] W::layout_step(
                pre.widget,
                post.widget,
                inner,
                inner_post,
                bc,
                data,
                env,
                size,
            )
            &&& !inner.context_changed
            &&& post.size == size
            &&& !post.needs_layout
            &&& keeps_first(pre.old_data, post.old_data, data)
            &&& changed_post <==> changed || inner_post.context_changed
        }
}

/// Whether a widget was painted after the areas `before` had been clipped to, and its pod and the
/// context around it carry what came of that.
pub open spec fn widget_got_paint<T: Clone, W: Widget<T>>(
    pre: WidgetPod<T, W>,
    post: WidgetPod<T, W>,
    before: Seq<Rect>,
    after: Seq<Rect>,
    data: T,
    env: W::Env,
) -> bool {
    exists|inner: PaintCtx, inner_post: PaintCtx|
        {
            &&& #[trigger] W::paint_step(pre.widget, post.widget, inner, inner_post, data, env)
            &&& inner.size == pre.size
            &&& inner.clips@.len() == 0
            &&& post.origin == pre.origin
            &&& post.size == pre.size
            &&& post.needs_layout == pre.needs_layout
            &&& keeps_first(pre.old_data, post.old_data, data)
            &&& after == before + inner_post.clips@
        }
}

proof fn lemma_pod_event<T: Clone, W: Widget<T>>(
    pre: WidgetPod<T, W>,
    post: WidgetPod<T, W>,
    ctx: EventCtx,
    ctx_post: EventCtx,
    event: Event<W::Message>,
    data: T,
    data_post: T,
    env: W::Env,
)
    requires
        pre.event_step(post, ctx, ctx_post, event, data, data_post, env),
    ensures
        widget_got_event(pre, post, ctx, ctx_post, event, data, data_post, env),
{
}

proof fn lemma_pod_lifecycle<T: Clone, W: Widget<T>>(
    pre: WidgetPod<T, W>,
    post: WidgetPod<T, W>,
    ctx: LifeCycleCtx,
    ctx_post: LifeCycleCtx,
    event: LifeCycle<W::Message>,
    data: T,
    env: W::Env,
)
    requires
        pre.lifecycle_step(post, ctx, ctx_post, event, data, env),
    ensures
        widget_got_lifecycle(pre, post, ctx, ctx_post, event, data, env),
{
}

proof fn lemma_pod_update<T: Clone, W: Widget<T>>(
    pre: WidgetPod<T, W>,
    post: WidgetPod<T, W>,
    ctx: UpdateCtx,
    ctx_post: UpdateCtx,
    data: T,
    env: W::Env,
)
    requires
        pre.update_step(post, ctx, ctx_post, data, env),
    ensures
        widget_got_update(pre, post, ctx, ctx_post, data, env),
{
}

proof fn lemma_pod_layout<T: Clone, W: Widget<T>>(
    pre: WidgetPod<T, W>,
    post: WidgetPod<T, W>,
    ctx: LayoutCtx,
    ctx_post: LayoutCtx,
    bc: BoxConstraints,
    data: T,
    env: W::Env,
    size: Size,
)
    requires
        pre.layout_step(post, ctx, ctx_post, bc, data, env, size),
    ensures
        widget_got_layout(
            pre,
            post,
            ctx.context_changed,
            ctx_post.context_changed,
            bc,
            data,
            env,
            size,
        ),
        post.origin == pre.origin,
{
}

proof fn lemma_pod_paint<T: Clone, W: Widget<T>>(
    pre: WidgetPod<T, W>,
    post: WidgetPod<T, W>,
    ctx: PaintCtx,
    ctx_post: PaintCtx,
    data: T,
    env: W::Env,
)
    requires
        pre.paint_step(post, ctx, ctx_post, data, env),
    ensures
        widget_got_paint(pre, post, ctx.clips@, ctx_post.clips@, data, env),
        ctx_post.size == ctx.size,
{
}

/// A pod hands every event to its widget.
pub proof fn law_pod_event<T: Clone, W: Widget<T>>(event: Event<W::Message>, env: W::Env)
    ensures
        forall|pod: &mut WidgetPod<T, W>, ctx: &mut EventCtx, data: &mut T| #[trigger]
            call_ensures(WidgetPod::<T, W>::event, (pod, ctx, &event, data, &env), ())
                ==> widget_got_event(
                *pod,
                *final(pod),
                *ctx,
                *final(ctx),
                event,
                *data,
                *final(data),
                env,
            ),
{
    assert forall|pod: &mut WidgetPod<T, W>, ctx: &mut EventCtx, data: &mut T| #[trigger]
        call_ensures(
            WidgetPod::<T, W>::event,
            (pod, ctx, &event, data, &env),
            (),
        ) implies widget_got_event(
        *pod,
        *final(pod),
        *ctx,
        *final(ctx),
        event,
        *data,
        *final(data),
        env,
    ) by {
        lemma_pod_event(
            *pod,
            *final(pod),
            *ctx,
            *final(ctx),
            event,
            *data,
            *final(data),
            env,
        );
    }
}

/// A pod hands every stage in its life to its widget.
pub proof fn law_pod_lifecycle<T: Clone, W: Widget<T>>(
    event: LifeCycle<W::Message>,
    data: T,
    env: W::Env,
)
    ensures
        forall|pod: &mut WidgetPod<T, W>, ctx: &mut LifeCycleCtx| #[trigger]
            call_ensures(WidgetPod::<T, W>::lifecycle, (pod, ctx, &event, &data, &env), ())
                ==> widget_got_lifecycle(
                *pod,
                *final(pod),
                *ctx,
                *final(ctx),
                event,
                data,
                env,
            ),
{
    assert forall|pod: &mut WidgetPod<T, W>, ctx: &mut LifeCycleCtx| #[trigger]
        call_ensures(
            WidgetPod::<T, W>::lifecycle,
            (pod, ctx, &event, &data, &env),
            (),
        ) implies widget_got_lifecycle(
        *pod,
        *final(pod),
        *ctx,
        *final(ctx),
        event,
        data,
        env,
    ) by {
        lemma_pod_lifecycle(*pod, *final(pod), *ctx, *final(ctx), event, data, env);
    }
}

/// A pod tells its widget of every change of data.
pub proof fn law_pod_update<T: Clone, W: Widget<T>>(data: T, env: W::Env)
    ensures
        forall|pod: &mut WidgetPod<T, W>, ctx: &mut UpdateCtx| #[trigger]
            call_ensures(WidgetPod::<T, W>::update, (pod, ctx, &data, &env), ())
                ==> widget_got_update(*pod, *final(pod), *ctx, *final(ctx), data, env),
{
    assert forall|pod: &mut WidgetPod<T, W>, ctx: &mut UpdateCtx| #[trigger]
        call_ensures(
            WidgetPod::<T, W>::update,
            (pod, ctx, &data, &env),
            (),
        ) implies widget_got_update(*pod, *final(pod), *ctx, *final(ctx), data, env) by {
        lemma_pod_update(*pod, *final(pod), *ctx, *final(ctx), data, env);
    }
}

/// A pod lays out its widget under the constraints that it is given, leaves it where it stands and
/// gives the size that it chose.
pub proof fn law_pod_layout<T: Clone, W: Widget<T>>(
    bc: BoxConstraints,
    data: T,
    env: W::Env,
    size: Size,
)
    ensures
        forall|pod: &mut WidgetPod<T, W>, ctx: &mut LayoutCtx| #[trigger]
            call_ensures(WidgetPod::<T, W>::layout, (pod, ctx, &bc, &data, &env), size) ==> {
                &&& widget_got_layout(
                    *pod,
                    *final(pod),
                    ctx.context_changed,
                    final(ctx).context_changed,
                    bc,
                    data,
                    env,
                    size,
                )
                &&& final(pod).origin == pod.origin
            },
{
    assert forall|pod: &mut WidgetPod<T, W>, ctx: &mut LayoutCtx| #[trigger]
        call_ensures(WidgetPod::<T, W>::layout, (pod, ctx, &bc, &data, &env), size) implies {
        &&& widget_got_layout(
            *pod,
            *final(pod),
            ctx.context_changed,
            final(ctx).context_changed,
            bc,
            data,
            env,
            size,
        )
        &&& final(pod).origin == pod.origin
    } by {
        lemma_pod_layout(*pod, *final(pod), *ctx, *final(ctx), bc, data, env, size);
    }
}

/// A pod paints its widget.
pub proof fn law_pod_paint<T: Clone, W: Widget<T>>(data: T, env: W::Env)
    ensures
        forall|pod: &mut WidgetPod<T, W>, ctx: &mut PaintCtx| #[trigger]
            call_ensures(WidgetPod::<T, W>::paint, (pod, ctx, &data, &env), ()) ==> {
                &&& widget_got_paint(
                    *pod,
                    *final(pod),
                    ctx.clips@,
                    final(ctx).clips@,
                    data,
                    env,
                )
                &&& final(ctx).size == ctx.size
            },
{
    assert forall|pod: &mut WidgetPod<T, W>, ctx: &mut PaintCtx| #[trigger]
        call_ensures(WidgetPod::<T, W>::paint, (pod, ctx, &data, &env), ()) implies {
        &&& widget_got_paint(*pod, *final(pod), ctx.clips@, final(ctx).clips@, data, env)
        &&& final(ctx).size == ctx.size
    } by {
        lemma_pod_paint(*pod, *final(pod), *ctx, *final(ctx), data, env);
    }
}

// The box.

/// Every event that is no notification is handed to the child as it is, whatever the state of the
/// box, and nothing else of the box changes.
pub proof fn law_events_reach_child<T: Clone, W: Widget<T>, Y>(
    pre: SlidingClipBox<T, W, Y>,
    post: SlidingClipBox<T, W, Y>,
    ctx: EventCtx,
    ctx_post: EventCtx,
    message: W::Message,
    data: T,
    data_post: T,
    env: W::Env,
)
    requires
        SlidingClipBox::<T, W, Y>::event_step(
            pre,
            post,
            ctx,
            ctx_post,
            Event::Other(message),
            data,
            data_post,
            env,
        ),
    ensures
        widget_got_event(
            pre@.container,
            post@.container,
            ctx,
            ctx_post,
            Event::Other(message),
            data,
            data_post,
            env,
        ),
        same_but_child(pre@, post@),
{
    lemma_pod_event(
        pre@.container,
        post@.container,
        ctx,
        ctx_post,
        Event::Other(message),
        data,
        data_post,
        env,
    );
}

/// A request to scroll that reaches an unmanaged box is taken up, and answered by one for the part
/// of the area that lies in the view, which starts where the box does. The view moves only if it
/// stood where it may not. Any other notification, and any that reaches a managed box, changes
/// nothing at all. No notification changes the data.
pub proof fn law_notifications_are_answered_or_left<T: Clone, W: Widget<T>, Y>(
    pre: SlidingClipBox<T, W, Y>,
    post: SlidingClipBox<T, W, Y>,
    ctx: EventCtx,
    ctx_post: EventCtx,
    notification: Notification,
    data: T,
    data_post: T,
    env: W::Env,
)
    requires
        SlidingClipBox::<T, W, Y>::event_step(
            pre,
            post,
            ctx,
            ctx_post,
            Event::Notification(notification),
            data,
            data_post,
            env,
        ),
    ensures
        data_post == data,
        match notification.scroll_to_view {
            Some(highlight) if !pre@.managed => {
                &&& ctx_post.is_handled
                &&& ctx_post.window_origin == ctx.window_origin
                &&& ctx_post.layout_requested == ctx.layout_requested
                &&& answered(
                    ctx.notifications@,
                    ctx_post.notifications@,
                    highlight,
                    Rect { origin: ctx.window_origin, size: pre@.port.view_size },
                    notification.source,
                )
                &&& same_but_view(pre@, post@)
                &&& moved_near(
                    pre@.port,
                    post@.port,
                    pre@.port.view_origin.x as int,
                    pre@.port.view_origin.y as int,
                )
            },
            _ => ctx_post == ctx && post@ == pre@,
        },
{
    if let Some(highlight) = notification.scroll_to_view {
        lemma_scroll_answer(
            pre@.port,
            ctx.window_origin,
            ctx.notifications@,
            highlight,
            notification.source,
        );
    }
}

/// Whether `inner` says of the contents of a box of size `size` what `outer` says of the box: the
/// same place, and of what can be seen, that which lies in the box.
pub open spec fn seen_through_box(outer: ViewContext, inner: ViewContext, size: Size) -> bool {
    &&& inner.window_origin == outer.window_origin
    &&& shared_area(inner.clip, outer.clip, Rect { origin: Point { x: 0, y: 0 }, size })
}

/// Confining what can be seen to a box leaves that which lies in the box.
pub proof fn law_confine(outer: ViewContext, size: Size, inner: ViewContext)
    requires
        call_ensures(ViewContext::confine, (&outer, size), inner),
    ensures
        seen_through_box(outer, inner, size),
{
}

/// The child is told every stage. Of a change of surroundings, routed or not, it is told that what
/// can be seen is that which lies in the box, whatever the scroll offset; any other stage reaches
/// it as it is. Nothing else of the box changes.
pub proof fn law_lifecycle_reaches_child<T: Clone, W: Widget<T>, Y>(
    pre: SlidingClipBox<T, W, Y>,
    post: SlidingClipBox<T, W, Y>,
    ctx: LifeCycleCtx,
    ctx_post: LifeCycleCtx,
    event: LifeCycle<W::Message>,
    data: T,
    env: W::Env,
) -> (told: LifeCycle<W::Message>)
    requires
        SlidingClipBox::<T, W, Y>::lifecycle_step(pre, post, ctx, ctx_post, event, data, env),
    ensures
        widget_got_lifecycle(pre@.container, post@.container, ctx, ctx_post, told, data, env),
        match event {
            LifeCycle::ViewContextChanged(outer) => told matches LifeCycle::ViewContextChanged(
                inner,
            ) && seen_through_box(outer, inner, ctx.size),
            LifeCycle::Internal(InternalLifeCycle::RouteViewContextChanged(outer)) => {
                told matches LifeCycle::Internal(InternalLifeCycle::RouteViewContextChanged(inner))
                    && seen_through_box(outer, inner, ctx.size)
            },
            _ => told == event,
        },
        same_but_child(pre@, post@),
{
    let told = event.within(ctx.size);
    lemma_pod_lifecycle(pre@.container, post@.container, ctx, ctx_post, told, data, env);
    told
}

/// The child is told of every change of data, whatever the box is told of the old data. Nothing
/// else of the box changes.
pub proof fn law_update_reaches_child<T: Clone, W: Widget<T>, Y>(
    pre: SlidingClipBox<T, W, Y>,
    post: SlidingClipBox<T, W, Y>,
    ctx: UpdateCtx,
    ctx_post: UpdateCtx,
    old_data: T,
    data: T,
    env: W::Env,
)
    requires
        SlidingClipBox::<T, W, Y>::update_step(pre, post, ctx, ctx_post, old_data, data, env),
    ensures
        widget_got_update(pre@.container, post@.container, ctx, ctx_post, data, env),
        same_but_child(pre@, post@),
{
    lemma_pod_update(pre@.container, post@.container, ctx, ctx_post, data, env);
}

/// Painting is clipped to the box itself, whatever the scroll offset, and then the child is
/// painted. Nothing else of the box changes.
pub proof fn law_child_is_painted_in_box<T: Clone, W: Widget<T>, Y>(
    pre: SlidingClipBox<T, W, Y>,
    post: SlidingClipBox<T, W, Y>,
    ctx: PaintCtx,
    ctx_post: PaintCtx,
    data: T,
    env: W::Env,
)
    requires
        SlidingClipBox::<T, W, Y>::paint_step(pre, post, ctx, ctx_post, data, env),
    ensures
        widget_got_paint(
            pre@.container,
            post@.container,
            ctx.clips@.push(Rect { origin: Point { x: 0, y: 0 }, size: ctx.size }),
            ctx_post.clips@,
            data,
            env,
        ),
        ctx_post.clips@.len() > ctx.clips@.len(),
        forall|x: int, y: int| #[trigger]
            lies_in(x, y, ctx_post.clips@[ctx.clips@.len() as int]) <==> 0 <= x < ctx.size.width
                && 0 <= y < ctx.size.height,
        ctx_post.size == ctx.size,
        same_but_child(pre@, post@),
{
    let mid = choose|mid: PaintCtx|
        {
            &&& mid.size == ctx.size
            &&& mid.clips@ == ctx.clips@.push(ctx.size.as_rect())
            &&& #[trigger] pre@.container.paint_step(post@.container, mid, ctx_post, data, env)
        };
    lemma_pod_paint(pre@.container, post@.container, mid, ctx_post, data, env);
}

/// A box shows its name and, inside it, what its child shows.
pub proof fn law_debug_state_shows_child<T: Clone, W: Widget<T>, Y>(
    b: SlidingClipBox<T, W, Y>,
    data: T,
    state: DebugState,
)
    requires
        b.debug_step(data, state),
    ensures
        state.display_name@ == "SlidingClipBox"@,
        state.main_value@.len() == 0,
        state.children@.len() == 1,
        b@.container.widget.debug_step(data, state.children@[0]),
{
}

/// The child is held to the bounds of the box along each axis on which it is constrained, and to
/// none along the others; it has the minimum of the box where it must fill the view, and none
/// otherwise.
pub proof fn law_child_constraints<T, W, Y>(
    b: SlidingClipBox<T, W, Y>,
    bc: BoxConstraints,
    child_bc: BoxConstraints,
)
    requires
        call_ensures(SlidingClipBox::<T, W, Y>::child_constraints, (&b, &bc), child_bc),
    ensures
        bound_as_set(b@, bc, child_bc),
{
}

proof fn lemma_laid_out<T, W, Y>(
    pre: ClipBoxState<T, W, Y>,
    bc: BoxConstraints,
    content_size: Size,
)
    ensures
        placed_around(pre, pre.laid_out(bc, content_size), bc, content_size),
        pre.laid_out(bc, content_size).container == (WidgetPod {
            origin: pre.laid_out(bc, content_size).container.origin,
            ..pre.container
        }),
        pre.laid_out(bc, content_size).old_bc == pre.old_bc,
        pre.laid_out(bc, content_size).port.view_size == pre.view_size_for(bc, content_size),
{
}

/// Laying out the box around its child gives the view its size, keeps the scroll offset as far as
/// the new sizes let it, puts the child where the view says and tells of a change of size. Of the
/// child only the place changes.
pub proof fn law_layout_around<T, W, Y>(bc: BoxConstraints, content_size: Size, size: Size)
    ensures
        forall|b: &mut SlidingClipBox<T, W, Y>, ctx: &mut LayoutCtx| #[trigger]
            call_ensures(
                SlidingClipBox::<T, W, Y>::layout_around,
                (b, ctx, &bc, content_size),
                size,
            ) ==> {
                &&& placed_around(b@, final(b)@, bc, content_size)
                &&& final(b)@.container.widget == b@.container.widget
                &&& final(b)@.container.size == b@.container.size
                &&& final(b)@.container.needs_layout == b@.container.needs_layout
                &&& final(b)@.container.old_data == b@.container.old_data
                &&& final(b)@.old_bc == b@.old_bc
                &&& size == final(b)@.port.view_size
                &&& final(ctx).context_changed <==> ctx.context_changed || size != b@.old_size
            },
{
    assert forall|b: &mut SlidingClipBox<T, W, Y>, ctx: &mut LayoutCtx| #[trigger]
        call_ensures(
            SlidingClipBox::<T, W, Y>::layout_around,
            (b, ctx, &bc, content_size),
            size,
        ) implies placed_around(b@, final(b)@, bc, content_size) && size
        == final(b)@.port.view_size by {
        lemma_laid_out(b@, bc, content_size);
    }
}

/// Layout lays out the child, under the constraints that the settings give it, if those differ
/// from the ones that it was last given or it asked to be laid out, and else takes the size that it
/// has. Either way the box is then laid out around it.
pub proof fn law_layout<T: Clone, W: Widget<T>, Y>(
    pre: SlidingClipBox<T, W, Y>,
    post: SlidingClipBox<T, W, Y>,
    ctx: LayoutCtx,
    ctx_post: LayoutCtx,
    bc: BoxConstraints,
    child_bc: BoxConstraints,
    data: T,
    env: W::Env,
    size: Size,
)
    requires
        SlidingClipBox::<T, W, Y>::layout_step(pre, post, ctx, ctx_post, bc, data, env, size),
        bound_as_set(pre@, bc, child_bc),
    ensures
        placed_around(pre@, post@, bc, post@.port.content_size),
        post@.old_bc == child_bc,
        size == post@.port.view_size,
        if child_bc != pre@.old_bc || pre@.container.needs_layout {
            exists|changed: bool|
                {
                    &&& #[trigger] widget_got_layout(
                        pre@.container,
                        post@.container,
                        ctx.context_changed,
                        changed,
                        child_bc,
                        data,
                        env,
                        post@.port.content_size,
                    )
                    &&& ctx_post.context_changed <==> changed || size != pre@.old_size
                }
        } else {
            &&& post@.port.content_size == pre@.container.size
            &&& post@.container.widget == pre@.container.widget
            &&& post@.container.size == pre@.container.size
            &&& !post@.container.needs_layout
            &&& post@.container.old_data == pre@.container.old_data
            &&& ctx_post.context_changed <==> ctx.context_changed || size != pre@.old_size
        },
{
    assert(child_bc == pre@.child_constraints(bc));
    if pre@.child_needs_layout(bc) {
        let (container, mid, content_size) = choose|
            container: WidgetPod<T, W>,
            mid: LayoutCtx,
            content_size: Size,
        |
            {
                &&& #[trigger] pre@.container.layout_step(
                    container,
                    ctx,
                    mid,
                    child_bc,
                    data,
                    env,
                    content_size,
                )
                &&& post@ == (ClipBoxState { container, old_bc: child_bc, ..pre@ }).laid_out(
                    bc,
                    content_size,
                )
                &&& ctx_post == (LayoutCtx {
                    context_changed: mid.context_changed || size != pre@.old_size,
                    ..mid
                })
                &&& size == pre@.view_size_for(bc, content_size)
            };
        lemma_pod_layout(pre@.container, container, ctx, mid, child_bc, data, env, content_size);
        lemma_laid_out(ClipBoxState { container, old_bc: child_bc, ..pre@ }, bc, content_size);
        let (inner, inner_post) = choose|inner: LayoutCtx, inner_post: LayoutCtx|
            {
                &&& #[trigger] W::layout_step(
                    pre@.container.widget,
                    container.widget,
                    inner,
                    inner_post,
                    child_bc,
                    data,
                    env,
                    content_size,
                )
                &&& !inner.context_changed
                &&& mid.context_changed <==> ctx.context_changed || inner_post.context_changed
            };
        assert(W::layout_step(
            pre@.container.widget,
            post@.container.widget,
            inner,
            inner_post,
            child_bc,
            data,
            env,
            post@.port.content_size,
        ));
        assert(widget_got_layout(
            pre@.container,
            post@.container,
            ctx.context_changed,
            mid.context_changed,
            child_bc,
            data,
            env,
            post@.port.content_size,
        ));
    } else {
        lemma_laid_out(pre@, bc, pre@.container.size);
    }
}

/// A closure on the view sees the view of the box. What it makes of it becomes the view of the
/// box, moved to the nearest place where it may stand. Nothing else of the box changes, and the
/// result says whether the child stands elsewhere than the view says.
pub proof fn law_with_port<T, W, Y, C: ChangeCtx, F: FnOnce(&mut C, &mut Viewport)>(
    f: F,
    changed: bool,
)
    ensures
        forall|b: &mut SlidingClipBox<T, W, Y>, ctx: &mut C| #[trigger]
            call_ensures(SlidingClipBox::<T, W, Y>::with_port::<C, F>, (b, ctx, f), changed) ==> {
                &&& exists|c: &mut C, p: &mut Viewport|
                    {
                        &&& #[trigger] f.ensures((c, p), ())
                        &&& *c == *ctx
                        &&& *p == b@.port
                        &&& *final(ctx) == *final(c)
                        &&& moved_near(
                            *final(p),
                            final(b)@.port,
                            final(p).view_origin.x as int,
                            final(p).view_origin.y as int,
                        )
                    }
                &&& same_but_view(b@, final(b)@)
                &&& changed <==> !child_stands_right(final(b)@)
            },
{
}

/// Panning a box by a displacement moves its view as near as can be to where that leads, and
/// nothing else, and says whether the view moved.
pub proof fn law_box_pan_by<T, W, Y, C: ChangeCtx>(delta: Vec2, changed: bool)
    ensures
        forall|b: &mut SlidingClipBox<T, W, Y>, ctx: &mut C| #[trigger]
            call_ensures(SlidingClipBox::<T, W, Y>::pan_by::<C>, (b, ctx, delta), changed) ==> {
                &&& moved_near(
                    b@.port,
                    final(b)@.port,
                    b@.port.view_origin.x + delta.x,
                    b@.port.view_origin.y + delta.y,
                )
                &&& changed <==> final(b)@.port.view_origin != b@.port.view_origin
                &&& same_but_view(b@, final(b)@)
                &&& *final(ctx) == *ctx
            },
{
}

/// Panning a box to a region moves its view to where the region is shown best, and nothing else,
/// and says whether the child stands elsewhere than the view says.
pub proof fn law_box_pan_to_visible<T, W, Y, C: ChangeCtx>(region: Rect, changed: bool)
    ensures
        forall|b: &mut SlidingClipBox<T, W, Y>, ctx: &mut C| #[trigger]
            call_ensures(
                SlidingClipBox::<T, W, Y>::pan_to_visible::<C>,
                (b, ctx, region),
                changed,
            ) ==> {
                &&& moved_to_show_best(b@.port, final(b)@.port, region)
                &&& changed <==> !child_stands_right(final(b)@)
                &&& same_but_view(b@, final(b)@)
                &&& *final(ctx) == *ctx
            },
{
}

/// Panning a box to a position on an axis moves its view as near as can be to the position along
/// that axis, from wherever it was, and nothing else, and says whether the view moved.
pub proof fn law_box_pan_to_on_axis<T, W, Y, C: ChangeCtx>(
    axis: Axis,
    position: i64,
    changed: bool,
)
    ensures
        forall|b: &mut SlidingClipBox<T, W, Y>, ctx: &mut C| #[trigger]
            call_ensures(
                SlidingClipBox::<T, W, Y>::pan_to_on_axis::<C>,
                (b, ctx, axis, position),
                changed,
            ) ==> {
                &&& axis is Horizontal ==> moved_near(
                    b@.port,
                    final(b)@.port,
                    position as int,
                    b@.port.view_origin.y as int,
                )
                &&& axis is Vertical ==> moved_near(
                    b@.port,
                    final(b)@.port,
                    b@.port.view_origin.x as int,
                    position as int,
                )
                &&& changed <==> final(b)@.port.view_origin != b@.port.view_origin
                &&& same_but_view(b@, final(b)@)
                &&& *final(ctx) == *ctx
            },
{
}

/// Whether a pod holds `widget`, at the origin, never laid out and never called.
pub open spec fn untouched<T, W>(pod: WidgetPod<T, W>, widget: W) -> bool {
    &&& pod.widget == widget
    &&& pod.origin.x == 0
    &&& pod.origin.y == 0
    &&& pod.size.width == 0
    &&& pod.size.height == 0
    &&& pod.needs_layout
    &&& pod.old_data is None
}

/// Whether a box holds its two children untouched, has an empty view and all settings off, has
/// nothing pending and was only ever given room for nothing.
pub open spec fn untouched_box<T, W, Y>(
    state: ClipBoxState<T, W, Y>,
    containing_child: W,
    sliding_child: Y,
) -> bool {
    &&& untouched(state.container, containing_child)
    &&& untouched(state.sliding_child, sliding_child)
    &&& state.prev_origin.x == 0
    &&& state.prev_origin.y == 0
    &&& state.pending_origin is None
    &&& state.port.content_size == state.old_size
    &&& state.port.view_size == state.old_size
    &&& state.port.view_origin == state.prev_origin
    &&& state.old_size.width == 0
    &&& state.old_size.height == 0
    &&& forall|size: Size| #[trigger]
        size_allowed(size, state.old_bc) <==> size.width == 0 && size.height == 0
    &&& !state.constrain_horizontal
    &&& !state.constrain_vertical
    &&& !state.must_fill
}

/// A new box is untouched, and managed as its maker said.
pub proof fn law_new_boxes<T, W, Y>(
    containing_child: W,
    sliding_child: Y,
    b: SlidingClipBox<T, W, Y>,
)
    ensures
        call_ensures(SlidingClipBox::<T, W, Y>::managed, (containing_child, sliding_child), b)
            ==> untouched_box(b@, containing_child, sliding_child) && b@.managed,
        call_ensures(SlidingClipBox::<T, W, Y>::unmanaged, (containing_child, sliding_child), b)
            ==> untouched_box(b@, containing_child, sliding_child) && !b@.managed,
{
}

/// A builder and the setter of the same setting leave the box with that setting as asked, and
/// otherwise as it was.
pub proof fn law_settings_are_set<T, W, Y>(
    b: SlidingClipBox<T, W, Y>,
    r: SlidingClipBox<T, W, Y>,
    on: bool,
)
    ensures
        call_ensures(SlidingClipBox::<T, W, Y>::constrain_vertical, (b, on), r) ==> r@ == (
        ClipBoxState { constrain_vertical: on, ..b@ }),
        call_ensures(SlidingClipBox::<T, W, Y>::constrain_horizontal, (b, on), r) ==> r@ == (
        ClipBoxState { constrain_horizontal: on, ..b@ }),
        call_ensures(SlidingClipBox::<T, W, Y>::content_must_fill, (b, on), r) ==> r@ == (
        ClipBoxState { must_fill: on, ..b@ }),
        forall|c: &mut SlidingClipBox<T, W, Y>| #[trigger]
            call_ensures(SlidingClipBox::<T, W, Y>::set_constrain_vertical, (c, on), ())
                ==> final(c)@ == (ClipBoxState { constrain_vertical: on, ..c@ }),
        forall|c: &mut SlidingClipBox<T, W, Y>| #[trigger]
            call_ensures(SlidingClipBox::<T, W, Y>::set_constrain_horizontal, (c, on), ())
                ==> final(c)@ == (ClipBoxState { constrain_horizontal: on, ..c@ }),
        forall|c: &mut SlidingClipBox<T, W, Y>| #[trigger]
            call_ensures(SlidingClipBox::<T, W, Y>::set_content_must_fill, (c, on), ())
                ==> final(c)@ == (ClipBoxState { must_fill: on, ..c@ }),
{
}

/// A prepared place is pending until it is ready: putting the child in its place takes a place
/// that is ready, once, and else falls back and leaves what is pending. Nothing else of the box
/// changes.
pub proof fn law_pending_place<T, W, Y, C: ChangeCtx>(origin: Point)
    ensures
        forall|b: &mut SlidingClipBox<T, W, Y>| #[trigger]
            call_ensures(SlidingClipBox::<T, W, Y>::prepare_origin, (b, origin), ()) ==> final(b)@
                == (ClipBoxState { pending_origin: Some(Origin::Prepared(origin)), ..b@ }),
        forall|b: &mut SlidingClipBox<T, W, Y>, ctx: &mut C| #[trigger]
            call_ensures(SlidingClipBox::<T, W, Y>::set_origin::<C>, (b, ctx), ()) ==> {
                let placed = final(b)@.container.origin;
                let left = final(b)@.pending_origin;
                &&& match b@.pending_origin {
                    Some(Origin::ReadyForCommit(point)) => placed == point && left is None,
                    _ => placed == b@.prev_origin && left == b@.pending_origin,
                }
                &&& final(b)@ == (ClipBoxState {
                    container: WidgetPod { origin: placed, ..b@.container },
                    pending_origin: left,
                    ..b@
                })
                &&& *final(ctx) == *ctx
            },
{
}

/// The child that the box lends out is the one it holds, and changing it changes nothing else.
pub proof fn law_child_is_lent<T, W, Y>(b: SlidingClipBox<T, W, Y>, w: W)
    ensures
        call_ensures(SlidingClipBox::<T, W, Y>::child, (&b,), &w) ==> w == b@.container.widget,
        forall|c: &mut SlidingClipBox<T, W, Y>, m: &mut W| #[trigger]
            call_ensures(SlidingClipBox::<T, W, Y>::child_mut, (c,), m) ==> {
                &&& *m == c@.container.widget
                &&& final(c)@ == (ClipBoxState {
                    container: WidgetPod { widget: *final(m), ..c@.container },
                    ..c@
                })
            },
{
}

/// What the box tells of itself is what it holds.
pub proof fn law_getters<T, W, Y>(b: SlidingClipBox<T, W, Y>, v: Viewport, p: Point, s: Size)
    ensures
        call_ensures(SlidingClipBox::<T, W, Y>::viewport, (&b,), v) ==> v == b@.port,
        call_ensures(SlidingClipBox::<T, W, Y>::viewport_origin, (&b,), p) ==> p
            == b@.port.view_origin,
        call_ensures(SlidingClipBox::<T, W, Y>::viewport_size, (&b,), s) ==> s
            == b@.port.view_size,
        call_ensures(SlidingClipBox::<T, W, Y>::content_size, (&b,), s) ==> s
            == b@.port.content_size,
{
}

} // verus!
