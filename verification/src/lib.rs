//! A retained-mode vector scene graph.
//!
//! A tree of shapes (rectangles, circles, paths, texts and groups) is laid out in a
//! viewport and then composed into an ordered list of draw commands for a
//! renderer:
//!
//! - [`layout`] resolves percentages against the parent on the way down the tree
//!   and sizes automatic shapes from their children on the way up, in place;
//! - [`compose`] walks the laid-out tree in document order and emits one draw
//!   command for every shape with geometry, with the style that cascades from
//!   groups applied;
//! - [`render`] is one step of a frame: it says whether a text has to be measured
//!   first, or hands out the commands.
//!
//! All geometry is fixed-point ([`scalar::Real`]): the arithmetic is exact, never
//! fails, and is the same on every machine. Measuring text and drawing are left to
//! the caller.

pub mod scalar;
pub mod matrix;
pub mod dimension;
pub mod transform;
pub mod style;
pub mod shape;
pub mod node;
pub mod builder;
pub mod draw;
pub mod alignment;
pub mod layout;
pub mod compose;
pub mod render;
