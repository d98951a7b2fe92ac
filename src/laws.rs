//! Properties of the connector that hold for every pair of anchors.
use vstd::prelude::*;
use crate::display::{is_edge_update, EdgeDisplay, EdgeUpdate};
use crate::edge::{control_offset, control_span_x, control_span_y, edge_commands, is_long_edge, MAX_CONTROL_OFFSET};
use crate::geometry::{PixelPos, Point, SUBPIXELS};
use crate::path::{command_end, is_tight_bounds, lemma_tight_bounds_unique, path_points, PathCommand};

verus! {

/// Once three tenths of the horizontal span reach 20 pixels, the control
/// points reach exactly 20 pixels from their anchors.
pub proof fn lemma_control_offset_saturates(src: PixelPos, dst: PixelPos)
    requires
        3 * (dst.x - src.x) >= 200 || 3 * (src.x - dst.x) >= 200,
    ensures
        control_offset(src, dst) == MAX_CONTROL_OFFSET,
{
}

/// Every connector starts with a move to the source anchor and ends exactly
/// at the destination anchor.
pub proof fn lemma_path_joins_anchors(src: PixelPos, dst: PixelPos)
    ensures
        edge_commands(src, dst).len() >= 2,
        edge_commands(src, dst)[0] == PathCommand::MoveTo(src.to_point_spec()),
        command_end(edge_commands(src, dst).last()) == dst.to_point_spec(),
{
}

/// A long edge is two bends joined by a straight line; a short one is two
/// bends that meet.
pub proof fn lemma_segment_shape(src: PixelPos, dst: PixelPos)
    ensures
        is_long_edge(src, dst) ==> {
            let c = edge_commands(src, dst);
            &&& c.len() == 4
            &&& c[0] is MoveTo
            &&& c[1] is QuadraticTo
            &&& c[2] is LineTo
            &&& c[3] is QuadraticTo
        },
        !is_long_edge(src, dst) ==> {
            let c = edge_commands(src, dst);
            &&& c.len() == 3
            &&& c[0] is MoveTo
            &&& c[1] is QuadraticTo
            &&& c[2] is QuadraticTo
        },
{
}

/// Building an edge twice from the same inputs gives the same path, bounds,
/// layout and color gradient.
pub proof fn lemma_build_idempotent(e1: EdgeDisplay, e2: EdgeDisplay, u1: EdgeUpdate, u2: EdgeUpdate)
    requires
        e1 == e2,
        is_edge_update(e1, u1),
        is_edge_update(e2, u2),
    ensures
        u1.path.stroke_width == u2.path.stroke_width,
        u1.path.commands@ == u2.path.commands@,
        u1.bounds == u2.bounds,
        u1.layout == u2.layout,
        u1.colors == u2.colors,
{
    lemma_tight_bounds_unique(path_points(u1.path.commands@), u1.bounds, u2.bounds);
}

/// The bounds of an edge hold every point its path places, and each of their
/// sides passes through one of those points.
pub proof fn lemma_bounds_cover_path(e: EdgeDisplay, u: EdgeUpdate)
    requires
        is_edge_update(e, u),
    ensures
        forall|i: int|
            0 <= i < path_points(u.path.commands@).len() ==> u.bounds.contains_spec(
                #[trigger] path_points(u.path.commands@)[i],
            ),
        exists|i: int|
            0 <= i < path_points(u.path.commands@).len() && (#[trigger] path_points(
                u.path.commands@,
            )[i]).x == u.bounds.min.x,
        exists|i: int|
            0 <= i < path_points(u.path.commands@).len() && (#[trigger] path_points(
                u.path.commands@,
            )[i]).x == u.bounds.max.x,
        exists|i: int|
            0 <= i < path_points(u.path.commands@).len() && (#[trigger] path_points(
                u.path.commands@,
            )[i]).y == u.bounds.min.y,
        exists|i: int|
            0 <= i < path_points(u.path.commands@).len() && (#[trigger] path_points(
                u.path.commands@,
            )[i]).y == u.bounds.max.y,
{
}

/// The gradient's offsets are the anchors relative to the least corner of the bounds.
pub proof fn lemma_color_offsets(e: EdgeDisplay, u: EdgeUpdate)
    requires
        is_edge_update(e, u),
    ensures
        u.colors.src_offset.x == e.src_pos.x * SUBPIXELS - u.bounds.min.x,
        u.colors.src_offset.y == e.src_pos.y * SUBPIXELS - u.bounds.min.y,
        u.colors.dst_offset.x == e.dst_pos.x * SUBPIXELS - u.bounds.min.x,
        u.colors.dst_offset.y == e.dst_pos.y * SUBPIXELS - u.bounds.min.y,
{
}

/// An edge whose anchors coincide places every point at the anchor, so its
/// bounds are that single point and both gradient offsets are zero.
pub proof fn lemma_degenerate_edge(e: EdgeDisplay, u: EdgeUpdate)
    requires
        e.src_pos == e.dst_pos,
        is_edge_update(e, u),
    ensures
        forall|i: int|
            0 <= i < path_points(u.path.commands@).len() ==> #[trigger] path_points(
                u.path.commands@,
            )[i] == e.src_pos.to_point_spec(),
        u.bounds.min == e.src_pos.to_point_spec(),
        u.bounds.max == e.src_pos.to_point_spec(),
        u.layout.width == 0 && u.layout.height == 0,
        u.colors.src_offset == (Point { x: 0, y: 0 }),
        u.colors.dst_offset == (Point { x: 0, y: 0 }),
{
    let s = e.src_pos.to_point_spec();
    let (a, b) = (e.src_pos, e.dst_pos);
    assert(control_offset(a, b) == 0);
    let (sx, sy) = (control_span_x(a, b), control_span_y(a, b));
    assert(sx == 0 && sy == 0);
    assert(sx * sx + sy * sy == 0) by (nonlinear_arith)
        requires
            sx == 0 && sy == 0,
    ;
    assert(!is_long_edge(a, b));
    reveal_with_fuel(path_points, 4);
    assert(path_points(u.path.commands@) =~= seq![s, s, s, s, s]);
    let pts = path_points(u.path.commands@);
    assert(u.bounds.contains_spec(pts[0]));
}

} // verus!
