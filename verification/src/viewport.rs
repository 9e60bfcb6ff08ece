//! A rectangular view into a larger area.
use vstd::prelude::*;

use crate::context::{EventCtx, Notification, WidgetId};
use crate::geometry::{Axis, Point, Rect, Size, Vec2};

verus! {

/// The size and position of a rectangular "viewport" into a larger area.
#[derive(Clone, Copy, Debug, PartialEq, Eq, Structural)]
pub struct Viewport {
    /// The size of the area that is looked into.
    pub content_size: Size,
    /// The origin of the view rectangle, relative to the content.
    pub view_origin: Point,
    /// The size of the view rectangle.
    pub view_size: Size,
}

/// The farthest that a view of length `view` can move along a content of length `content` and
/// still lie inside it: zero where the content is the shorter of the two, and never more than
/// a coordinate can hold.
pub open spec fn farthest(content: u64, view: u64) -> int {
    if content <= view {
        0
    } else if content - view > i64::MAX {
        i64::MAX as int
    } else {
        content - view
    }
}

/// The position nearest to `at` that keeps a view of length `view` inside a content of length
/// `content`.
pub open spec fn kept_inside(at: int, content: u64, view: u64) -> int {
    if at < 0 {
        0
    } else if at > farthest(content, view) {
        farthest(content, view)
    } else {
        at
    }
}

/// How much of a region of length `len` a view of length `view` can show.
pub open spec fn showable(len: u64, view: u64) -> u64 {
    if len <= view {
        len
    } else {
        view
    }
}

/// The position nearest to `at` from which a view of length `view` shows the part of the region
/// `[start, start + len)` that fits, counted from the start of the region.
pub open spec fn brought_to_view(at: i64, view: u64, start: i64, len: u64) -> int {
    let end = start + showable(len, view);
    if start < at {
        start as int
    } else if end > at + view {
        end - view
    } else {
        at as int
    }
}

/// Whether a view of length `view` at `at` shows the part of the region `[start, start + len)`
/// that fits, counted from the start of the region.
pub open spec fn shows(at: int, view: u64, start: i64, len: u64) -> bool {
    at <= start && start + showable(len, view) <= at + view
}

fn keep_inside(at: i128, content: u64, view: u64) -> (r: i64)
    ensures
        r == kept_inside(at as int, content, view),
{
    let room: u64 = if content <= view {
        0
    } else {
        content - view
    };
    let most: i64 = if room > i64::MAX as u64 {
        i64::MAX
    } else {
        room as i64
    };
    if at < 0 {
        0
    } else if at > most as i128 {
        most
    } else {
        at as i64
    }
}

fn bring_to_view(at: i64, view: u64, start: i64, len: u64) -> (r: i128)
    ensures
        r == brought_to_view(at, view, start, len),
{
    let shown: u64 = if len <= view {
        len
    } else {
        view
    };
    let end: i128 = start as i128 + shown as i128;
    if start < at {
        start as i128
    } else if end > at as i128 + view as i128 {
        end - view as i128
    } else {
        at as i128
    }
}

impl Default for Viewport {
    /// The viewport of size zero into an area of size zero.
    fn default() -> (v: Viewport)
        ensures
            v == Viewport::empty(),
    {
        Viewport {
            content_size: Size { width: 0, height: 0 },
            view_origin: Point { x: 0, y: 0 },
            view_size: Size { width: 0, height: 0 },
        }
    }
}

impl Viewport {
    /// The viewport of size zero into an area of size zero.
    pub open spec fn empty() -> Viewport {
        Viewport {
            content_size: Size { width: 0, height: 0 },
            view_origin: Point { x: 0, y: 0 },
            view_size: Size { width: 0, height: 0 },
        }
    }

    /// The origin nearest to `(x, y)` that keeps the view inside the content.
    pub open spec fn nearest_inside(self, x: int, y: int) -> Point {
        Point {
            x: kept_inside(x, self.content_size.width, self.view_size.width) as i64,
            y: kept_inside(y, self.content_size.height, self.view_size.height) as i64,
        }
    }

    /// This viewport, moved as near to `(x, y)` as the content allows.
    pub open spec fn moved_to(self, x: int, y: int) -> Viewport {
        Viewport { view_origin: self.nearest_inside(x, y), ..self }
    }

    /// This viewport, moved as little as shows `region`.
    pub open spec fn moved_to_show(self, region: Rect) -> Viewport {
        self.moved_to(
            brought_to_view(
                self.view_origin.x,
                self.view_size.width,
                region.origin.x,
                region.size.width,
            ),
            brought_to_view(
                self.view_origin.y,
                self.view_size.height,
                region.origin.y,
                region.size.height,
            ),
        )
    }

    /// This viewport, moved along one axis only.
    pub open spec fn moved_on_axis(self, axis: Axis, position: int) -> Viewport {
        match axis {
            Axis::Horizontal => self.moved_to(position, self.view_origin.y as int),
            Axis::Vertical => self.moved_to(self.view_origin.x as int, position),
        }
    }

    /// This viewport, moved the least that puts the view inside the content.
    pub open spec fn sanitized(self) -> Viewport {
        self.moved_to(self.view_origin.x as int, self.view_origin.y as int)
    }

    /// Whether the view needs no moving to lie inside the content. Along an axis on which the
    /// content is smaller than the view, this asks that the two start together.
    pub open spec fn is_sane(self) -> bool {
        self == self.sanitized()
    }

    /// Where the content starts, seen from the view.
    pub open spec fn content_origin(self) -> Point {
        Point { x: (-self.view_origin.x) as i64, y: (-self.view_origin.y) as i64 }
    }

    /// Where the content starts, seen from the view.
    pub(crate) fn place_of_content(&self) -> (p: Point)
        requires
            self.is_sane(),
        ensures
            p == self.content_origin(),
    {
        Point { x: -self.view_origin.x, y: -self.view_origin.y }
    }

    /// The part of `highlight` that can be seen, both it and the result in window coordinates,
    /// where the view is placed at `window_origin`.
    pub open spec fn visible_part(self, window_origin: Point, highlight: Rect) -> Rect {
        highlight.meet(Rect { origin: window_origin, size: self.view_size })
    }

    fn place(&mut self, x: i128, y: i128) -> (changed: bool)
        ensures
            *final(self) == old(self).moved_to(x as int, y as int),
            changed == (final(self).view_origin != old(self).view_origin),
    {
        let new_origin = Point {
            x: keep_inside(x, self.content_size.width, self.view_size.width),
            y: keep_inside(y, self.content_size.height, self.view_size.height),
        };
        let changed = new_origin != self.view_origin;
        self.view_origin = new_origin;
        changed
    }

    /// The position nearest to `origin` that keeps the view inside the content, and zero in each
    /// direction in which the content is smaller than the view.
    pub fn clamp_view_origin(&self, origin: Point) -> (p: Point)
        ensures
            p == self.nearest_inside(origin.x as int, origin.y as int),
    {
        Point {
            x: keep_inside(origin.x as i128, self.content_size.width, self.view_size.width),
            y: keep_inside(origin.y as i128, self.content_size.height, self.view_size.height),
        }
    }

    /// Moves the view the least that puts it inside the content.
    pub fn sanitize_view_origin(&mut self)
        ensures
            *final(self) == old(self).sanitized(),
    {
        self.view_origin = self.clamp_view_origin(self.view_origin);
    }

    /// Moves the view by `delta`, or by as much of it as keeps the view inside the content.
    ///
    /// Returns `true` if the view moved.
    pub fn pan_by(&mut self, delta: Vec2) -> (changed: bool)
        ensures
            *final(self) == old(self).moved_to(
                old(self).view_origin.x + delta.x,
                old(self).view_origin.y + delta.y,
            ),
            changed == (final(self).view_origin != old(self).view_origin),
    {
        let x: i128 = self.view_origin.x as i128 + delta.x as i128;
        let y: i128 = self.view_origin.y as i128 + delta.y as i128;
        self.place(x, y)
    }

    /// Moves the view to `origin`, or as near to it as keeps the view inside the content.
    ///
    /// Returns `true` if the view moved.
    pub fn pan_to(&mut self, origin: Point) -> (changed: bool)
        ensures
            *final(self) == old(self).moved_to(origin.x as int, origin.y as int),
            changed == (final(self).view_origin != old(self).view_origin),
    {
        self.place(origin.x as i128, origin.y as i128)
    }

    /// Moves the view to `position` along `axis`, or as near to it as keeps the view inside the
    /// content.
    ///
    /// Returns `true` if the view moved.
    pub fn pan_to_on_axis(&mut self, axis: Axis, position: i64) -> (changed: bool)
        ensures
            *final(self) == old(self).moved_on_axis(axis, position as int),
            changed == (final(self).view_origin != old(self).view_origin),
    {
        match axis {
            Axis::Horizontal => self.pan_to(Point { x: position, y: self.view_origin.y }),
            Axis::Vertical => self.pan_to(Point { x: self.view_origin.x, y: position }),
        }
    }

    /// Moves the view the smallest distance that shows `region`.
    ///
    /// If the region is larger than the view, the portion that fits is shown, counted from the
    /// origin of the region. Returns `true` if the view moved.
    pub fn pan_to_visible(&mut self, region: Rect) -> (changed: bool)
        ensures
            *final(self) == old(self).moved_to_show(region),
            changed == (final(self).view_origin != old(self).view_origin),
    {
        let x: i128 = bring_to_view(
            self.view_origin.x,
            self.view_size.width,
            region.origin.x,
            region.size.width,
        );
        let y: i128 = bring_to_view(
            self.view_origin.y,
            self.view_size.height,
            region.origin.y,
            region.size.height,
        );
        self.place(x, y)
    }

    /// Answers a request to bring `highlight` into view where the view must not move: asks the
    /// widgets further up for the part of it that can be seen, if there is one.
    ///
    /// The area is in window coordinates and `source` is the widget that asked for it.
    pub fn fixed_scroll_to_view_handling(
        &self,
        ctx: &mut EventCtx,
        highlight: Rect,
        source: WidgetId,
    )
        ensures
            final(ctx).window_origin == old(ctx).window_origin,
            final(ctx).is_handled == old(ctx).is_handled,
            final(ctx).layout_requested == old(ctx).layout_requested,
            final(ctx).notifications@ == old(ctx).notifications@ + self.scroll_answer(
                old(ctx).window_origin,
                highlight,
                source,
            ),
    {
        let view = Rect { origin: ctx.window_origin, size: self.view_size };
        let visible = highlight.intersect(view);
        if !visible.is_empty() {
            ctx.submit_notification(Notification { scroll_to_view: Some(visible), source });
        }
    }

    /// The notifications sent in answer to a request to bring `highlight` into view where the
    /// view must not move.
    pub open spec fn scroll_answer(
        self,
        window_origin: Point,
        highlight: Rect,
        source: WidgetId,
    ) -> Seq<Notification> {
        let visible = self.visible_part(window_origin, highlight);
        if visible.has_area() {
            seq![Notification { scroll_to_view: Some(visible), source }]
        } else {
            seq![]
        }
    }
}

/// How far apart two positions are.
pub open spec fn distance(a: int, b: int) -> int {
    if a <= b {
        b - a
    } else {
        a - b
    }
}

/// Wherever a viewport is sent, its view ends up inside the content.
pub proof fn law_moving_keeps_view_inside(v: Viewport, x: int, y: int)
    ensures
        v.moved_to(x, y).is_sane(),
{
}

/// Where the content is at least as large as the view, a sane view lies within the content; where
/// it is smaller, the two start together.
pub proof fn law_sane_view_lies_in_content(v: Viewport)
    requires
        v.is_sane(),
    ensures
        v.view_origin.x >= 0,
        v.view_origin.y >= 0,
        v.view_size.width <= v.content_size.width ==> v.view_origin.x + v.view_size.width
            <= v.content_size.width,
        v.view_size.height <= v.content_size.height ==> v.view_origin.y + v.view_size.height
            <= v.content_size.height,
        v.content_size.width <= v.view_size.width ==> v.view_origin.x == 0,
        v.content_size.height <= v.view_size.height ==> v.view_origin.y == 0,
{
}

/// A view that is sent somewhere ends up, of all the places where it may stand, at the one that is
/// nearest, along each axis.
pub proof fn law_moving_goes_to_nearest_place(v: Viewport, x: int, y: int, other: Viewport)
    requires
        other.is_sane(),
        other.content_size == v.content_size,
        other.view_size == v.view_size,
    ensures
        distance(v.moved_to(x, y).view_origin.x as int, x) <= distance(
            other.view_origin.x as int,
            x,
        ),
        distance(v.moved_to(x, y).view_origin.y as int, y) <= distance(
            other.view_origin.y as int,
            y,
        ),
{
}

/// A view that is sent to a place where it may stand gets there.
pub proof fn law_moving_within_content_is_exact(v: Viewport, x: i64, y: i64)
    requires
        (Viewport { view_origin: Point { x, y }, ..v }).is_sane(),
    ensures
        v.moved_to(x as int, y as int).view_origin == (Point { x, y }),
{
}

/// Panning back by what one panned by restores the view, where the content stopped neither pan.
pub proof fn law_pan_back_restores(v: Viewport, delta: Vec2)
    requires
        v.is_sane(),
        v.moved_to(v.view_origin.x + delta.x, v.view_origin.y + delta.y).view_origin.x
            == v.view_origin.x + delta.x,
        v.moved_to(v.view_origin.x + delta.x, v.view_origin.y + delta.y).view_origin.y
            == v.view_origin.y + delta.y,
    ensures
        ({
            let there = v.moved_to(v.view_origin.x + delta.x, v.view_origin.y + delta.y);
            there.moved_to(there.view_origin.x - delta.x, there.view_origin.y - delta.y) == v
        }),
{
}

/// Panning along one axis leaves a sane view where it was along the other.
pub proof fn law_axis_pan_keeps_other_axis(v: Viewport, position: int)
    requires
        v.is_sane(),
    ensures
        v.moved_on_axis(Axis::Horizontal, position).view_origin.y == v.view_origin.y,
        v.moved_on_axis(Axis::Vertical, position).view_origin.x == v.view_origin.x,
{
}

/// Whether the view shows the part of `region` that fits into it, counted from the origin of the
/// region.
pub open spec fn view_shows(v: Viewport, region: Rect) -> bool {
    &&& shows(
        v.view_origin.x as int,
        v.view_size.width,
        region.origin.x,
        region.size.width,
    )
    &&& shows(
        v.view_origin.y as int,
        v.view_size.height,
        region.origin.y,
        region.size.height,
    )
}

/// Whether the content holds the part of `region` that fits into the view, counted from the origin
/// of the region.
pub open spec fn content_holds(v: Viewport, region: Rect) -> bool {
    &&& 0 <= region.origin.x
    &&& region.origin.x + showable(region.size.width, v.view_size.width) <= v.content_size.width
    &&& 0 <= region.origin.y
    &&& region.origin.y + showable(region.size.height, v.view_size.height) <= v.content_size.height
}

/// After panning to a region of the content, the part of it that fits is in view.
pub proof fn law_pan_to_visible_shows_region(v: Viewport, region: Rect)
    requires
        content_holds(v, region),
    ensures
        view_shows(v.moved_to_show(region), region),
{
}

/// Panning to a region of the content goes, along each axis, no farther than any other move that
/// shows the region. A view that was not inside the content has to get there too, and is held
/// against moves that do so.
pub proof fn law_pan_to_visible_is_minimal(v: Viewport, region: Rect, other: Viewport)
    requires
        v.is_sane() || other.is_sane(),
        content_holds(v, region),
        other.content_size == v.content_size,
        other.view_size == v.view_size,
        view_shows(other, region),
    ensures
        distance(v.moved_to_show(region).view_origin.x as int, v.view_origin.x as int) <= distance(
            other.view_origin.x as int,
            v.view_origin.x as int,
        ),
        distance(v.moved_to_show(region).view_origin.y as int, v.view_origin.y as int) <= distance(
            other.view_origin.y as int,
            v.view_origin.y as int,
        ),
{
}

/// Panning to a region that is in view already moves nothing.
pub proof fn law_visible_region_moves_nothing(v: Viewport, region: Rect)
    requires
        v.is_sane(),
        view_shows(v, region),
    ensures
        v.moved_to_show(region) == v,
{
}

/// Panning to a region twice is panning to it once.
pub proof fn law_pan_to_visible_settles(v: Viewport, region: Rect)
    ensures
        v.moved_to_show(region).moved_to_show(region) == v.moved_to_show(region),
{
}

/// Of a region that is at least as large as the view, the portion closest to the origin of the
/// region is shown: the view ends up at that origin.
pub proof fn law_large_region_is_shown_from_its_origin(v: Viewport, region: Rect)
    requires
        content_holds(v, region),
    ensures
        region.size.width >= v.view_size.width ==> v.moved_to_show(region).view_origin.x
            == region.origin.x,
        region.size.height >= v.view_size.height ==> v.moved_to_show(region).view_origin.y
            == region.origin.y,
{
}

/// What is asked for in answer to a request that cannot move the view is exactly the part of the
/// requested area that the view covers; nothing is asked for where that is no area.
pub proof fn law_fixed_view_asks_for_visible_part_only(
    v: Viewport,
    window_origin: Point,
    highlight: Rect,
    source: WidgetId,
)
    ensures
        ({
            let view = Rect { origin: window_origin, size: v.view_size };
            let answer = v.scroll_answer(window_origin, highlight, source);
            if exists|x: int, y: int| #[trigger] highlight.covers(x, y) && view.covers(x, y) {
                &&& answer.len() == 1
                &&& answer[0].source == source
                &&& answer[0].scroll_to_view is Some
                &&& forall|x: int, y: int| #[trigger]
                    answer[0].scroll_to_view->0.covers(x, y) <==> highlight.covers(x, y)
                        && view.covers(x, y)
            } else {
                answer.len() == 0
            }
        }),
{
    let view = Rect { origin: window_origin, size: v.view_size };
    crate::geometry::law_meet_has_area_iff_overlapping(highlight, view);
    crate::geometry::law_meet_covers_what_both_cover(highlight, view);
}

} // verus!
