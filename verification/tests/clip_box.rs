use sliding_clip_box::constraints::{BoxConstraints, Extent, Limit};
use sliding_clip_box::context::{
    DebugState, Event, EventCtx, InternalLifeCycle, LayoutCtx, LifeCycle, LifeCycleCtx,
    Notification, PaintCtx, UpdateCtx, ViewContext, WidgetId,
};
use sliding_clip_box::geometry::{Axis, Point, Rect, Size, Vec2};
use sliding_clip_box::sliding_clip_box::{Origin, SlidingClipBox};
use sliding_clip_box::viewport::Viewport;
use sliding_clip_box::widget::Widget;

/// A widget that takes its preferred size as far as it may, and writes down what it is told.
struct Probe {
    preferred: Size,
    constraints: Vec<BoxConstraints>,
    messages: Vec<u32>,
    event_origins: Vec<Point>,
    clips: Vec<Rect>,
    sizes: Vec<Size>,
    updates: Vec<(u32, u32)>,
    asks_for_layout: bool,
}

impl Probe {
    fn new(width: u64, height: u64) -> Probe {
        Probe {
            preferred: Size::new(width, height),
            constraints: Vec::new(),
            messages: Vec::new(),
            event_origins: Vec::new(),
            clips: Vec::new(),
            sizes: Vec::new(),
            updates: Vec::new(),
            asks_for_layout: false,
        }
    }
}

impl Widget<u32> for Probe {
    type Message = u32;
    type Env = ();

    fn event(&mut self, ctx: &mut EventCtx, event: &Event<u32>, data: &mut u32, _env: &()) {
        self.event_origins.push(ctx.window_origin);
        if let Event::Other(m) = event {
            self.messages.push(*m);
            *data += *m;
            ctx.set_handled();
            ctx.submit_notification(Notification {
                scroll_to_view: None,
                source: WidgetId { id: 1 },
            });
        }
    }

    fn lifecycle(&mut self, ctx: &mut LifeCycleCtx, event: &LifeCycle<u32>, _data: &u32, _env: &()) {
        self.sizes.push(ctx.size);
        match event {
            LifeCycle::ViewContextChanged(v) => self.clips.push(v.clip),
            LifeCycle::Internal(InternalLifeCycle::RouteViewContextChanged(v)) => {
                self.clips.push(v.clip)
            }
            LifeCycle::Internal(InternalLifeCycle::Other(m)) => self.messages.push(*m),
            LifeCycle::Other(m) => self.messages.push(*m),
        }
    }

    fn update(&mut self, ctx: &mut UpdateCtx, old_data: &u32, data: &u32, _env: &()) {
        self.updates.push((*old_data, *data));
        ctx.layout_requested = self.asks_for_layout;
    }

    fn layout(&mut self, _ctx: &mut LayoutCtx, bc: &BoxConstraints, _data: &u32, _env: &()) -> Size {
        self.constraints.push(*bc);
        bc.constrain(self.preferred)
    }

    fn paint(&mut self, ctx: &mut PaintCtx, _data: &u32, _env: &()) {
        let area = ctx.size.to_rect();
        ctx.clip(area);
    }

    fn debug_state(&self, data: &u32) -> DebugState {
        DebugState {
            display_name: String::from("Probe"),
            main_value: format!("{}", data),
            children: Vec::new(),
        }
    }
}

type ProbeBox = SlidingClipBox<u32, Probe, ()>;

fn rect(x: i64, y: i64, width: u64, height: u64) -> Rect {
    Rect::from_origin_size(Point::new(x, y), Size::new(width, height))
}

fn between(min: Size, width: u64, height: u64) -> BoxConstraints {
    BoxConstraints::new(min, Limit::new(Extent::Bounded(width), Extent::Bounded(height)))
}

fn up_to(width: u64, height: u64) -> BoxConstraints {
    between(Size::new(0, 0), width, height)
}

fn lay_out(b: &mut ProbeBox, bc: &BoxConstraints) -> (Size, bool) {
    let mut ctx = LayoutCtx::new();
    let size = b.layout(&mut ctx, bc, &3, &());
    (size, ctx.context_changed)
}

fn laid_out_box(managed: bool) -> ProbeBox {
    let child = Probe::new(400, 400);
    let mut b = if managed {
        ProbeBox::managed(child, ())
    } else {
        ProbeBox::unmanaged(child, ())
    };
    lay_out(&mut b, &up_to(20, 20));
    b
}

#[test]
fn new_box_is_empty() {
    let b = ProbeBox::managed(Probe::new(3, 4), ());
    assert_eq!(b.viewport_origin(), Point::new(0, 0));
    assert_eq!(b.viewport_size(), Size::new(0, 0));
    assert_eq!(b.content_size(), Size::new(0, 0));
    assert_eq!(b.child().preferred, Size::new(3, 4));
}

#[test]
fn unconstrained_child_takes_what_it_wants() {
    let mut b = ProbeBox::unmanaged(Probe::new(400, 300), ());
    let (size, changed) = lay_out(&mut b, &between(Size::new(7, 7), 100, 50));
    assert_eq!(size, Size::new(100, 50));
    assert!(changed);
    assert_eq!(b.content_size(), Size::new(400, 300));
    assert_eq!(
        b.child().constraints,
        vec![BoxConstraints::new(
            Size::new(0, 0),
            Limit::new(Extent::Unbounded, Extent::Unbounded)
        )]
    );
}

#[test]
fn constrained_child_is_held_to_the_view() {
    let mut b = ProbeBox::unmanaged(Probe::new(400, 30), ()).constrain_vertical(true);
    let (size, _) = lay_out(&mut b, &up_to(100, 50));
    assert_eq!(size, Size::new(100, 30));
    assert_eq!(b.child().constraints[0].max(), Limit::new(Extent::Unbounded, Extent::Bounded(50)));

    b.set_constrain_vertical(false);
    b.set_constrain_horizontal(true);
    let (size, _) = lay_out(&mut b, &up_to(100, 50));
    assert_eq!(size, Size::new(100, 30));
    assert_eq!(b.child().constraints[1].max(), Limit::new(Extent::Bounded(100), Extent::Unbounded));
    assert_eq!(b.content_size(), Size::new(100, 30));
}

#[test]
fn view_is_as_long_as_a_constrained_child() {
    let bc = between(Size::new(0, 50), 100, 100);
    let mut b = ProbeBox::unmanaged(Probe::new(20, 20), ()).constrain_vertical(true);
    let (size, _) = lay_out(&mut b, &bc);
    assert_eq!(b.content_size(), Size::new(20, 20));
    assert_eq!(b.viewport_size(), Size::new(20, 20));
    assert_eq!(size, Size::new(20, 20));

    let bc = between(Size::new(60, 50), 100, 100);
    let mut b = ProbeBox::unmanaged(Probe::new(20, 20), ()).constrain_horizontal(true);
    let (size, _) = lay_out(&mut b, &bc);
    assert_eq!(size, Size::new(20, 50));

    let mut ctx = LayoutCtx::new();
    let size = b.layout_around(&mut ctx, &bc, Size::new(300, 300));
    assert_eq!(size, Size::new(300, 100));
    assert!(ctx.context_changed);
}

#[test]
fn child_must_fill() {
    let bc = between(Size::new(60, 40), 100, 50);
    let mut b = ProbeBox::unmanaged(Probe::new(10, 10), ());
    let (size, _) = lay_out(&mut b, &bc);
    assert_eq!(size, Size::new(60, 40));
    assert_eq!(b.content_size(), Size::new(10, 10));

    let mut b = ProbeBox::unmanaged(Probe::new(10, 10), ()).content_must_fill(true);
    let (size, _) = lay_out(&mut b, &bc);
    assert_eq!(size, Size::new(60, 40));
    assert_eq!(b.content_size(), Size::new(60, 40));
    assert_eq!(b.child().constraints[0].min(), Size::new(60, 40));
}

#[test]
fn builders_and_setters_agree() {
    let bc = between(Size::new(5, 6), 100, 50);
    let built = ProbeBox::managed(Probe::new(1, 1), ())
        .constrain_horizontal(true)
        .constrain_vertical(true)
        .content_must_fill(true);
    let mut set = ProbeBox::managed(Probe::new(1, 1), ());
    set.set_constrain_horizontal(true);
    set.set_constrain_vertical(true);
    set.set_content_must_fill(true);
    assert_eq!(built.child_constraints(&bc), bc);
    assert_eq!(set.child_constraints(&bc), bc);
}

#[test]
fn layout_around_takes_the_size_of_the_child() {
    let mut b = ProbeBox::managed(Probe::new(1, 1), ());
    let mut ctx = LayoutCtx::new();
    let size = b.layout_around(&mut ctx, &up_to(100, 50), Size::new(30, 90));
    assert_eq!(size, Size::new(30, 50));
    assert!(ctx.context_changed);
    assert_eq!(b.content_size(), Size::new(30, 90));
    assert_eq!(b.viewport_size(), Size::new(30, 50));
}

#[test]
fn second_layout_changes_nothing() {
    let mut b = laid_out_box(true);
    assert_eq!(b.child().constraints.len(), 1);
    let (size, changed) = lay_out(&mut b, &up_to(20, 20));
    assert_eq!(size, Size::new(20, 20));
    assert!(!changed);
    assert_eq!(b.child().constraints.len(), 1);
    let (size, changed) = lay_out(&mut b, &up_to(30, 20));
    assert_eq!(size, Size::new(30, 20));
    assert!(changed);
    assert_eq!(b.child().constraints.len(), 1);
}

#[test]
fn requested_layout_reaches_the_child() {
    let mut b = laid_out_box(true);
    b.child_mut().asks_for_layout = true;
    let mut ctx = UpdateCtx::new();
    b.update(&mut ctx, &3, &4, &());
    assert!(ctx.layout_requested);
    b.child_mut().preferred = Size::new(15, 500);
    let (size, changed) = lay_out(&mut b, &up_to(20, 20));
    assert_eq!(size, Size::new(15, 20));
    assert!(changed);
    assert_eq!(b.child().constraints.len(), 2);
}

#[test]
fn child_is_told_the_data_it_was_last_told_of() {
    let mut b = laid_out_box(true);
    let mut ctx = UpdateCtx::new();
    b.update(&mut ctx, &99, &4, &());
    let mut data = 50;
    b.event(&mut EventCtx::new(Point::new(0, 0)), &Event::Other(1), &mut data, &());
    b.update(&mut ctx, &98, &5, &());
    assert_eq!(b.child().updates, vec![(3, 4), (4, 5)]);

    let mut new = ProbeBox::managed(Probe::new(1, 1), ());
    new.update(&mut ctx, &97, &6, &());
    assert_eq!(new.child().updates, vec![(6, 6)]);

    let mut seen = ProbeBox::managed(Probe::new(1, 1), ());
    let mut data = 50;
    seen.event(&mut EventCtx::new(Point::new(0, 0)), &Event::Other(1), &mut data, &());
    assert_eq!(data, 51);
    seen.update(&mut ctx, &96, &51, &());
    assert_eq!(seen.child().updates, vec![(50, 51)]);
}

#[test]
fn shrinking_child_pulls_the_view_back() {
    let mut b = laid_out_box(true);
    let mut ctx = EventCtx::new(Point::new(0, 0));
    assert!(b.pan_by(&mut ctx, Vec2::new(300, 300)));
    b.child_mut().preferred = Size::new(100, 10);
    b.child_mut().asks_for_layout = true;
    b.update(&mut UpdateCtx::new(), &0, &0, &());
    lay_out(&mut b, &up_to(20, 20));
    assert_eq!(b.viewport_origin(), Point::new(80, 0));
}

/// Whether the child stands elsewhere than the view says.
fn out_of_place(b: &mut ProbeBox) -> bool {
    b.with_port(&mut LayoutCtx::new(), |_, _| {})
}

fn look_at(b: &mut ProbeBox, x: i64, y: i64) {
    b.with_port(&mut LayoutCtx::new(), |_, port| {
        *port = Viewport {
            content_size: Size::new(400, 400),
            view_size: Size::new(20, 20),
            view_origin: Point::new(x, y),
        };
    });
}

#[test]
fn panning_reports_a_change_of_the_offset() {
    let mut b = laid_out_box(true);
    let mut ctx = EventCtx::new(Point::new(0, 0));
    assert!(!b.pan_by(&mut ctx, Vec2::new(0, 0)));
    assert!(!b.pan_by(&mut ctx, Vec2::new(-5, -5)));
    assert!(b.pan_by(&mut ctx, Vec2::new(5, 8)));
    assert_eq!(b.viewport_origin(), Point::new(5, 8));
    assert!(!b.pan_by(&mut ctx, Vec2::new(0, 0)));
    assert!(b.pan_by(&mut ctx, Vec2::new(-5, -8)));
    assert!(b.pan_by(&mut ctx, Vec2::new(5, 8)));
    lay_out(&mut b, &up_to(20, 20));
    assert!(!b.pan_by(&mut ctx, Vec2::new(0, 0)));
    assert!(b.pan_by(&mut ctx, Vec2::new(-5, 0)));
    assert_eq!(b.viewport().view_origin, Point::new(0, 8));
}

#[test]
fn panning_before_layout_reports_a_change_of_the_offset() {
    let mut ctx = EventCtx::new(Point::new(0, 0));
    let mut b = ProbeBox::unmanaged(Probe::new(400, 400), ());
    look_at(&mut b, 20, 20);
    assert!(!b.pan_by(&mut ctx, Vec2::new(0, 0)));
    assert_eq!(b.viewport_origin(), Point::new(20, 20));

    look_at(&mut b, 20, 0);
    assert!(b.pan_to_on_axis(&mut ctx, Axis::Horizontal, 0));
    assert_eq!(b.viewport_origin(), Point::new(0, 0));
    assert!(!b.pan_to_on_axis(&mut ctx, Axis::Horizontal, 0));
}

#[test]
fn view_may_leave_the_child_behind_until_layout() {
    let mut b = laid_out_box(true);
    let mut ctx = EventCtx::new(Point::new(0, 0));
    assert!(!out_of_place(&mut b));
    assert!(b.pan_to_visible(&mut ctx, rect(30, 10, 5, 5)));
    assert!(b.pan_to_visible(&mut ctx, rect(30, 10, 5, 5)));
    assert!(out_of_place(&mut b));
    lay_out(&mut b, &up_to(20, 20));
    assert!(!out_of_place(&mut b));
    assert!(!b.pan_to_visible(&mut ctx, rect(30, 10, 5, 5)));
}

#[test]
fn box_pans_to_regions_and_positions() {
    let mut b = laid_out_box(true);
    let mut ctx = LifeCycleCtx::new(Size::new(20, 20));
    assert!(b.pan_to_visible(&mut ctx, rect(30, 10, 5, 5)));
    assert_eq!(b.viewport_origin(), Point::new(15, 0));
    assert!(b.pan_to_on_axis(&mut ctx, Axis::Vertical, 7));
    assert_eq!(b.viewport_origin(), Point::new(15, 7));
    assert!(b.pan_to_on_axis(&mut ctx, Axis::Horizontal, 4000));
    assert_eq!(b.viewport_origin(), Point::new(380, 7));
}

#[test]
fn closure_may_change_the_view() {
    let mut b = laid_out_box(true);
    let mut ctx = EventCtx::new(Point::new(0, 0));
    let changed = b.with_port(&mut ctx, |ctx: &mut EventCtx, port| {
        ctx.set_handled();
        port.view_origin = Point::new(-9, 9999);
    });
    assert!(changed);
    assert!(ctx.is_handled);
    assert_eq!(b.viewport_origin(), Point::new(0, 380));
}

#[test]
fn prepared_place_waits() {
    let mut b = laid_out_box(true);
    let mut ctx = EventCtx::new(Point::new(0, 0));
    b.pan_by(&mut ctx, Vec2::new(5, 8));
    lay_out(&mut b, &up_to(20, 20));
    assert!(!out_of_place(&mut b));
    b.prepare_origin(Point::new(-5, -8));
    b.set_origin(&mut ctx);
    assert!(out_of_place(&mut b));
    b.pan_by(&mut ctx, Vec2::new(-5, -8));
    assert!(!out_of_place(&mut b));
}

#[test]
fn pending_place_is_taken_once() {
    let prev = Point::new(1, 2);
    let point = Point::new(3, 4);
    assert_eq!(Origin::commit(prev, None), (prev, None));
    let prepared = Some(Origin::Prepared(point));
    assert_eq!(Origin::commit(prev, prepared), (prev, prepared));
    assert_eq!(Origin::commit(prev, Some(Origin::ReadyForCommit(point))), (point, None));
}

fn request(area: Rect) -> Event<u32> {
    Event::Notification(Notification {
        scroll_to_view: Some(area),
        source: WidgetId { id: 8 },
    })
}

#[test]
fn managed_box_leaves_requests_to_its_parent() {
    let mut b = laid_out_box(true);
    let mut ctx = EventCtx::new(Point::new(100, 100));
    let mut data = 5;
    b.event(&mut ctx, &request(rect(90, 90, 20, 20)), &mut data, &());
    assert!(!ctx.is_handled);
    assert!(ctx.notifications.is_empty());
    assert!(b.child().event_origins.is_empty());
    assert_eq!(data, 5);
}

#[test]
fn unmanaged_box_clips_requests() {
    let mut b = laid_out_box(false);
    let mut data = 5;
    let mut ctx = EventCtx::new(Point::new(100, 100));
    b.event(&mut ctx, &request(rect(90, 90, 20, 20)), &mut data, &());
    assert!(ctx.is_handled);
    assert_eq!(
        ctx.notifications,
        vec![Notification {
            scroll_to_view: Some(rect(100, 100, 10, 10)),
            source: WidgetId { id: 8 },
        }]
    );

    let mut ctx = EventCtx::new(Point::new(100, 100));
    b.event(&mut ctx, &request(rect(0, 0, 50, 50)), &mut data, &());
    assert!(ctx.is_handled);
    assert!(ctx.notifications.is_empty());
    assert!(b.child().event_origins.is_empty());
}

#[test]
fn other_notifications_are_left_alone() {
    let mut b = laid_out_box(false);
    let mut data = 5;
    let mut ctx = EventCtx::new(Point::new(0, 0));
    let other = Event::Notification(Notification {
        scroll_to_view: None,
        source: WidgetId { id: 8 },
    });
    b.event(&mut ctx, &other, &mut data, &());
    assert!(!ctx.is_handled);
    assert!(b.child().event_origins.is_empty());
}

#[test]
fn events_go_to_the_child() {
    let mut b = laid_out_box(false);
    let mut data = 5;
    let mut ctx = EventCtx::new(Point::new(100, 100));
    b.pan_by(&mut ctx, Vec2::new(30, 40));
    lay_out(&mut b, &up_to(20, 20));
    b.event(&mut ctx, &Event::Other(6), &mut data, &());
    assert_eq!(data, 11);
    assert_eq!(b.child().messages, vec![6]);
    assert_eq!(b.child().event_origins, vec![Point::new(70, 60)]);
    assert!(ctx.is_handled);
    assert_eq!(ctx.notifications.len(), 1);
    assert_eq!(ctx.window_origin, Point::new(100, 100));
}

#[test]
fn child_is_seen_within_the_box() {
    let mut b = laid_out_box(false);
    let mut ctx = LifeCycleCtx::new(Size::new(20, 20));
    let seen = ViewContext { window_origin: Point::new(0, 0), clip: rect(-5, 3, 15, 100) };
    b.lifecycle(&mut ctx, &LifeCycle::ViewContextChanged(seen), &0, &());
    b.lifecycle(
        &mut ctx,
        &LifeCycle::Internal(InternalLifeCycle::RouteViewContextChanged(seen)),
        &0,
        &(),
    );
    b.lifecycle(&mut ctx, &LifeCycle::Other(3), &0, &());
    b.lifecycle(&mut ctx, &LifeCycle::Internal(InternalLifeCycle::Other(4)), &0, &());
    assert_eq!(b.child().clips, vec![rect(0, 3, 10, 17), rect(0, 3, 10, 17)]);
    assert_eq!(b.child().messages, vec![3, 4]);
    assert_eq!(b.child().sizes, vec![Size::new(400, 400); 4]);
}

#[test]
fn child_is_painted_within_the_box() {
    let mut b = laid_out_box(false);
    let mut ctx = PaintCtx::new(Size::new(20, 20));
    b.paint(&mut ctx, &0, &());
    assert_eq!(ctx.clips, vec![rect(0, 0, 20, 20), rect(0, 0, 400, 400)]);
}

#[test]
fn box_shows_itself_and_its_child() {
    let b = laid_out_box(false);
    let state = b.debug_state(&12);
    assert_eq!(state.display_name, "SlidingClipBox");
    assert_eq!(state.main_value, "");
    assert_eq!(state.children.len(), 1);
    assert_eq!(state.children[0].display_name, "Probe");
    assert_eq!(state.children[0].main_value, "12");
}

#[test]
fn boxes_nest() {
    let inner = ProbeBox::unmanaged(Probe::new(400, 300), ()).constrain_vertical(true);
    let mut outer: SlidingClipBox<u32, ProbeBox, ()> = SlidingClipBox::managed(inner, ());
    let mut ctx = LayoutCtx::new();
    let size = outer.layout(&mut ctx, &up_to(100, 50), &0, &());
    assert_eq!(size, Size::new(100, 50));
    assert_eq!(outer.content_size(), Size::new(400, 300));
    assert_eq!(outer.child().viewport_size(), Size::new(400, 300));
    assert!(ctx.context_changed);
}
