use sliding_clip_box::constraints::{BoxConstraints, Extent, Limit};
use sliding_clip_box::context::{EventCtx, ViewContext, WidgetId};
use sliding_clip_box::geometry::{Axis, Point, Rect, Size, Vec2};
use sliding_clip_box::viewport::Viewport;

fn rect(x: i64, y: i64, width: u64, height: u64) -> Rect {
    Rect::from_origin_size(Point::new(x, y), Size::new(width, height))
}

fn small_view() -> Viewport {
    Viewport {
        content_size: Size::new(400, 400),
        view_size: Size::new(20, 20),
        view_origin: Point::new(20, 20),
    }
}

#[test]
fn pan_to_visible() {
    let mut viewport = Viewport {
        content_size: Size::new(400, 400),
        view_size: Size::new(20, 20),
        view_origin: Point::new(20, 20),
    };

    assert!(!viewport.pan_to_visible(Rect::from_origin_size(Point::new(22, 22), Size::new(5, 5))));
    assert!(viewport.pan_to_visible(Rect::from_origin_size(Point::new(10, 10), Size::new(5, 5))));
    assert_eq!(viewport.view_origin, Point::new(10, 10));
    assert_eq!(viewport.view_size, Size::new(20, 20));
    assert!(!viewport.pan_to_visible(Rect::from_origin_size(Point::new(10, 10), Size::new(50, 50))));
    assert_eq!(viewport.view_origin, Point::new(10, 10));

    assert!(viewport.pan_to_visible(Rect::from_origin_size(Point::new(30, 10), Size::new(5, 5))));
    assert_eq!(viewport.view_origin, Point::new(15, 10));
    assert!(viewport.pan_to_visible(Rect::from_origin_size(Point::new(5, 5), Size::new(5, 5))));
    assert_eq!(viewport.view_origin, Point::new(5, 5));
}

#[test]
fn default_viewport_is_empty() {
    let v = Viewport::default();
    assert_eq!(v.content_size, Size::new(0, 0));
    assert_eq!(v.view_size, Size::new(0, 0));
    assert_eq!(v.view_origin, Point::new(0, 0));
}

#[test]
fn pan_to_visible_settles() {
    let mut v = small_view();
    assert!(v.pan_to_visible(rect(390, -8, 30, 5)));
    assert_eq!(v.view_origin, Point::new(380, 0));
    assert!(!v.pan_to_visible(rect(390, -8, 30, 5)));
}

#[test]
fn large_region_is_shown_from_its_origin() {
    let mut v = small_view();
    assert!(v.pan_to_visible(rect(100, 3, 50, 50)));
    assert_eq!(v.view_origin, Point::new(100, 3));
}

#[test]
fn panning_stops_at_the_edges() {
    let mut v = small_view();
    assert!(v.pan_by(Vec2::new(1000, -5)));
    assert_eq!(v.view_origin, Point::new(380, 15));
    assert!(!v.pan_by(Vec2::new(1, 0)));
    assert!(v.pan_by(Vec2::new(-1000, -1000)));
    assert_eq!(v.view_origin, Point::new(0, 0));
}

#[test]
fn panning_back_restores() {
    let mut v = small_view();
    assert!(v.pan_by(Vec2::new(7, -3)));
    assert!(v.pan_by(Vec2::new(-7, 3)));
    assert_eq!(v, small_view());
}

#[test]
fn panning_along_one_axis_keeps_the_other() {
    let mut v = small_view();
    assert!(v.pan_to_on_axis(Axis::Horizontal, 50));
    assert_eq!(v.view_origin, Point::new(50, 20));
    assert!(v.pan_to_on_axis(Axis::Vertical, 999));
    assert_eq!(v.view_origin, Point::new(50, 380));
    assert!(!v.pan_to_on_axis(Axis::Vertical, 380));
}

#[test]
fn pan_to_goes_as_near_as_it_can() {
    let mut v = small_view();
    assert!(v.pan_to(Point::new(-4, 200)));
    assert_eq!(v.view_origin, Point::new(0, 200));
    assert!(!v.pan_to(Point::new(-1, 200)));
}

#[test]
fn small_content_starts_with_the_view() {
    let v = Viewport {
        content_size: Size::new(10, 400),
        view_size: Size::new(20, 20),
        view_origin: Point::new(3, 390),
    };
    assert_eq!(v.clamp_view_origin(Point::new(3, 390)), Point::new(0, 380));
    let mut w = v;
    w.sanitize_view_origin();
    assert_eq!(w.view_origin, Point::new(0, 380));
    assert_eq!(w.content_size, v.content_size);
}

#[test]
fn panning_far_does_not_overflow() {
    let mut v = Viewport {
        content_size: Size::new(u64::MAX, u64::MAX),
        view_size: Size::new(1, 1),
        view_origin: Point::new(i64::MAX, i64::MIN),
    };
    assert!(v.pan_by(Vec2::new(i64::MAX, i64::MIN)));
    assert_eq!(v.view_origin, Point::new(i64::MAX, 0));
    assert!(v.pan_to_visible(rect(i64::MIN, i64::MAX, u64::MAX, u64::MAX)));
    assert_eq!(v.view_origin, Point::new(0, i64::MAX));
}

#[test]
fn fixed_view_asks_for_the_visible_part() {
    let v = small_view();
    let source = WidgetId { id: 4 };
    let mut ctx = EventCtx::new(Point::new(100, 100));
    v.fixed_scroll_to_view_handling(&mut ctx, rect(90, 110, 20, 50), source);
    assert_eq!(ctx.notifications.len(), 1);
    assert_eq!(ctx.notifications[0].scroll_to_view, Some(rect(100, 110, 10, 10)));
    assert_eq!(ctx.notifications[0].source, source);
    v.fixed_scroll_to_view_handling(&mut ctx, rect(120, 100, 5, 5), source);
    assert_eq!(ctx.notifications.len(), 1);
    assert!(!ctx.is_handled);
}

#[test]
fn intersection_of_rectangles() {
    assert_eq!(rect(0, 0, 10, 10).intersect(rect(4, -3, 20, 5)), rect(4, 0, 6, 2));
    assert_eq!(rect(0, 0, 10, 10).intersect(rect(10, 2, 5, 5)), rect(10, 2, 0, 5));
    assert!(rect(0, 0, 10, 10).intersect(rect(10, 2, 5, 5)).is_empty());
    assert!(!rect(0, 0, 1, 1).is_empty());
    assert_eq!(Size::new(3, 4).to_rect(), rect(0, 0, 3, 4));
    let huge = rect(i64::MIN, i64::MIN, u64::MAX, u64::MAX);
    assert_eq!(huge.intersect(rect(5, 6, 7, 8)), rect(5, 6, 7, 8));
}

#[test]
fn view_context_is_confined() {
    let seen = ViewContext { window_origin: Point::new(9, 9), clip: rect(-5, 2, 30, 30) };
    let inner = seen.confine(Size::new(10, 10));
    assert_eq!(inner.window_origin, Point::new(9, 9));
    assert_eq!(inner.clip, rect(0, 2, 10, 8));
}

#[test]
fn sizes_are_constrained() {
    let bc = BoxConstraints::new(
        Size::new(10, 10),
        Limit::new(Extent::Bounded(50), Extent::Unbounded),
    );
    assert!(bc.debug_check());
    assert_eq!(bc.constrain(Size::new(5, 5)), Size::new(10, 10));
    assert_eq!(bc.constrain(Size::new(70, 70)), Size::new(50, 70));
    assert_eq!(bc.constrain(Size::new(20, 30)), Size::new(20, 30));
    assert_eq!(bc.min(), Size::new(10, 10));
    assert_eq!(bc.max(), Limit::new(Extent::Bounded(50), Extent::Unbounded));

    let tight = BoxConstraints::tight(Size::new(3, 4));
    assert_eq!(tight.constrain(Size::new(0, 100)), Size::new(3, 4));

    let crossed = BoxConstraints::new(
        Size::new(10, 10),
        Limit::new(Extent::Bounded(5), Extent::Bounded(20)),
    );
    assert!(!crossed.debug_check());
    assert_eq!(crossed.constrain(Size::new(7, 30)), Size::new(5, 20));
}
