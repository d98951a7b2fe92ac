//! Geometry of a curved connector ("edge") between two ports of a node-graph
//! editor: the path between two anchors, its bounding box, and the layout and
//! color-gradient updates that a renderer needs to draw it.
//!
//! All geometry is exact fixed-point arithmetic in milli-pixels, so that the
//! same anchors always give the same path and no degenerate input can produce
//! an undefined value.
pub mod cache;
pub mod display;
pub mod edge;
pub mod geometry;
pub mod laws;
pub mod path;

pub use cache::EdgeCache;
pub use display::{ColorUpdate, EdgeDisplay, EdgeUpdate, LayoutBox, Rgba};
pub use edge::{edge_control_offset, edge_path, STROKE_WIDTH};
pub use geometry::{isqrt, PixelPos, Point, SUBPIXELS};
pub use path::{Bounds, EdgePath, PathCommand};
