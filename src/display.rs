use vstd::prelude::*;
use crate::edge::{edge_commands, edge_path, point_in_limit, STROKE_WIDTH};
use crate::geometry::{PixelPos, Point};
use crate::path::{is_tight_bounds, path_points, Bounds, EdgePath};

verus! {

/// An sRGB color with alpha, eight bits per channel.
#[derive(Clone, Copy, Debug, PartialEq, Eq, Structural)]
pub struct Rgba {
    pub r: u8,
    pub g: u8,
    pub b: u8,
    pub a: u8,
}

/// Displays a stroked path between two terminals of a node graph.
#[derive(Clone, Copy, Debug, PartialEq, Eq, Structural)]
pub struct EdgeDisplay {
    /// Pixel position of the source terminal.
    pub src_pos: PixelPos,
    /// Color of the edge at the source terminal.
    pub src_color: Rgba,
    /// Pixel position of the destination terminal.
    pub dst_pos: PixelPos,
    /// Color of the edge at the destination terminal.
    pub dst_color: Rgba,
}

/// Where the edge's element is placed: absolutely, over the path's bounding
/// box, in milli-pixels.
#[derive(Clone, Copy, Debug, PartialEq, Eq, Structural)]
pub struct LayoutBox {
    pub left: i64,
    pub top: i64,
    pub width: i64,
    pub height: i64,
    /// The box is positioned absolutely within its parent, outside the flow.
    pub absolute: bool,
}

/// The color gradient of an edge: each terminal's color, at that terminal's
/// offset from the corner of the edge's own bounding box.
#[derive(Clone, Copy, Debug, PartialEq, Eq, Structural)]
pub struct ColorUpdate {
    pub src_color: Rgba,
    pub src_offset: Point,
    pub dst_color: Rgba,
    pub dst_offset: Point,
}

/// Everything a renderer needs to draw an edge: its path, the path's bounds,
/// the layout box, and the color gradient.
#[derive(Clone, Debug)]
pub struct EdgeUpdate {
    pub path: EdgePath,
    pub bounds: Bounds,
    pub layout: LayoutBox,
    pub colors: ColorUpdate,
}

/// `l` is the absolutely positioned box that covers `b` exactly.
pub open spec fn is_layout_of(l: LayoutBox, b: Bounds) -> bool {
    &&& l.left == b.min.x
    &&& l.top == b.min.y
    &&& l.width == b.width_spec()
    &&& l.height == b.height_spec()
    &&& l.absolute
}

/// `o` is `p` relative to `origin`.
pub open spec fn is_offset(o: Point, p: Point, origin: Point) -> bool {
    o.x == p.x - origin.x && o.y == p.y - origin.y
}

/// `c` is the color gradient of `e` within its bounds `b`.
pub open spec fn is_colors_of(c: ColorUpdate, e: EdgeDisplay, b: Bounds) -> bool {
    &&& c.src_color == e.src_color
    &&& c.dst_color == e.dst_color
    &&& is_offset(c.src_offset, e.src_pos.to_point_spec(), b.min)
    &&& is_offset(c.dst_offset, e.dst_pos.to_point_spec(), b.min)
}

/// `u` is what drawing `e` takes: the connector's path, its tight bounds, the
/// layout box over them and the gradient keyed to their corner.
pub open spec fn is_edge_update(e: EdgeDisplay, u: EdgeUpdate) -> bool {
    &&& u.path.stroke_width == STROKE_WIDTH
    &&& u.path.commands@ == edge_commands(e.src_pos, e.dst_pos)
    &&& is_tight_bounds(path_points(u.path.commands@), u.bounds)
    &&& is_layout_of(u.layout, u.bounds)
    &&& is_colors_of(u.colors, e, u.bounds)
}

impl EdgeDisplay {
    /// Computes the path between the terminals, its bounds, the layout box and
    /// the color gradient.
    pub fn build(&self) -> (u: EdgeUpdate)
        ensures
            is_edge_update(*self, u),
    {
        let path = edge_path(self.src_pos, self.dst_pos);
        let bounds = path.bounds();
        let ghost pts = path_points(path.commands@);
        proof {
            let i = choose|i: int| 0 <= i < pts.len() && (#[trigger] pts[i]).x == bounds.min.x;
            let j = choose|i: int| 0 <= i < pts.len() && (#[trigger] pts[i]).x == bounds.max.x;
            let k = choose|i: int| 0 <= i < pts.len() && (#[trigger] pts[i]).y == bounds.min.y;
            let l = choose|i: int| 0 <= i < pts.len() && (#[trigger] pts[i]).y == bounds.max.y;
            assert(point_in_limit(pts[i]) && point_in_limit(pts[j]));
            assert(point_in_limit(pts[k]) && point_in_limit(pts[l]));
        }
        let layout = LayoutBox {
            left: bounds.min.x,
            top: bounds.min.y,
            width: bounds.width(),
            height: bounds.height(),
            absolute: true,
        };
        let s = self.src_pos.to_point();
        let d = self.dst_pos.to_point();
        let colors = ColorUpdate {
            src_color: self.src_color,
            src_offset: Point { x: s.x - bounds.min.x, y: s.y - bounds.min.y },
            dst_color: self.dst_color,
            dst_offset: Point { x: d.x - bounds.min.x, y: d.y - bounds.min.y },
        };
        EdgeUpdate { path, bounds, layout, colors }
    }
}

} // verus!
