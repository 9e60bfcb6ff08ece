# sliding_clip_box

A widget that shows a rectangular view of its child, as a building block for widgets that scroll.
It is written in Rust and verified with Verus.

- `src/geometry.rs`, `src/constraints.rs`: points, rectangles and size constraints.
- `src/viewport.rs`: the view into a larger area, and how it pans.
- `src/context.rs`, `src/widget.rs`, `src/pod.rs`: what widgets are told, and how.
- `src/sliding_clip_box.rs`: the widget itself.
- `app/`: conversion from fractional pixels, and a widget that logs.

Positions and lengths are whole layout units. The proof functions whose names start with `law_`
state what holds of the library as a whole.
