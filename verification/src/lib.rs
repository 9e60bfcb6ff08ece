//! A clip box: a widget that shows a rectangular view of its child, as a building block for
//! widgets that scroll.
//!
//! All lengths and positions are in whole layout units. How large a unit is on screen is for the
//! host to say.
pub mod constraints;
pub mod context;
pub mod geometry;
pub mod laws;
pub mod pod;
pub mod sliding_clip_box;
pub mod viewport;
pub mod widget;
