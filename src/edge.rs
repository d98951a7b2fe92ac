use vstd::prelude::*;
use vstd::arithmetic::div_mod::lemma_div_is_ordered_by_denominator;
use crate::geometry::{floor_sqrt, isqrt, PixelPos, Point, SUBPIXELS};
use crate::path::{path_points, EdgePath, PathCommand};

verus! {

/// Stroke width of every edge: 1.7 pixels.
pub const STROKE_WIDTH: i64 = 1700;

/// Largest horizontal reach of a control point: 20 pixels.
pub const MAX_CONTROL_OFFSET: i64 = 20 * SUBPIXELS;

/// Distance from each bend to the straight middle of a long edge: 20 pixels.
pub const BLEND_DISTANCE: i64 = 20 * SUBPIXELS;

/// Distance between the control points beyond which an edge gets a straight
/// middle section: 40 pixels.
pub const LONG_EDGE_LENGTH: i64 = 40 * SUBPIXELS;

/// Horizontal reach of the control points: three tenths of the horizontal
/// span between the anchors, capped at [`MAX_CONTROL_OFFSET`].
pub open spec fn control_offset(src: PixelPos, dst: PixelPos) -> int {
    let span = if dst.x >= src.x { dst.x - src.x } else { src.x - dst.x };
    let reach = span * SUBPIXELS * 3 / 10;
    if reach < MAX_CONTROL_OFFSET { reach } else { MAX_CONTROL_OFFSET as int }
}

/// The control point that leaves the source anchor horizontally.
pub open spec fn src_control(src: PixelPos, dst: PixelPos) -> Point {
    Point {
        x: (src.to_point_spec().x + control_offset(src, dst)) as i64,
        y: src.to_point_spec().y,
    }
}

/// The control point that enters the destination anchor horizontally.
pub open spec fn dst_control(src: PixelPos, dst: PixelPos) -> Point {
    Point {
        x: (dst.to_point_spec().x - control_offset(src, dst)) as i64,
        y: dst.to_point_spec().y,
    }
}

/// Horizontal component of the vector from the source control point to the
/// destination control point.
pub open spec fn control_span_x(src: PixelPos, dst: PixelPos) -> int {
    dst_control(src, dst).x - src_control(src, dst).x
}

/// Vertical component of the same vector.
pub open spec fn control_span_y(src: PixelPos, dst: PixelPos) -> int {
    dst_control(src, dst).y - src_control(src, dst).y
}

/// Squared distance between the two control points.
pub open spec fn control_dist_sq(src: PixelPos, dst: PixelPos) -> int {
    control_span_x(src, dst) * control_span_x(src, dst) + control_span_y(src, dst)
        * control_span_y(src, dst)
}

/// The square of [`LONG_EDGE_LENGTH`].
pub const LONG_EDGE_LENGTH_SQ: i128 = 1_600_000_000;

/// The control points lie more than [`LONG_EDGE_LENGTH`] apart.
pub open spec fn is_long_edge(src: PixelPos, dst: PixelPos) -> bool {
    control_dist_sq(src, dst) > LONG_EDGE_LENGTH_SQ
}

/// Distance between the control points, rounded down to a whole milli-pixel.
pub open spec fn control_dist(src: PixelPos, dst: PixelPos) -> int {
    floor_sqrt(control_dist_sq(src, dst))
}

/// The part of the component `v` of a vector of length `len` that lies along
/// its first [`BLEND_DISTANCE`], rounded toward zero.
pub open spec fn blend_step(v: int, len: int) -> int {
    if v >= 0 {
        v * BLEND_DISTANCE / len
    } else {
        -((-v) * BLEND_DISTANCE / len)
    }
}

/// On a long edge, where the source bend meets the straight middle section.
pub open spec fn src_blend(src: PixelPos, dst: PixelPos) -> Point {
    let m = control_dist(src, dst);
    Point {
        x: (src_control(src, dst).x + blend_step(control_span_x(src, dst), m)) as i64,
        y: (src_control(src, dst).y + blend_step(control_span_y(src, dst), m)) as i64,
    }
}

/// On a long edge, where the straight middle section meets the destination bend.
pub open spec fn dst_blend(src: PixelPos, dst: PixelPos) -> Point {
    let m = control_dist(src, dst);
    Point {
        x: (dst_control(src, dst).x - blend_step(control_span_x(src, dst), m)) as i64,
        y: (dst_control(src, dst).y - blend_step(control_span_y(src, dst), m)) as i64,
    }
}

/// On a short edge, the point halfway between the two control points.
pub open spec fn control_midpoint(src: PixelPos, dst: PixelPos) -> Point {
    Point {
        x: ((src_control(src, dst).x + dst_control(src, dst).x) / 2) as i64,
        y: ((src_control(src, dst).y + dst_control(src, dst).y) / 2) as i64,
    }
}

/// The commands of the connector from `src` to `dst`: a move to the source,
/// then two bends joined by a straight line on a long edge, or two bends that
/// meet halfway between the control points on a short one.
pub open spec fn edge_commands(src: PixelPos, dst: PixelPos) -> Seq<PathCommand> {
    if is_long_edge(src, dst) {
        seq![
            PathCommand::MoveTo(src.to_point_spec()),
            PathCommand::QuadraticTo(src_control(src, dst), src_blend(src, dst)),
            PathCommand::LineTo(dst_blend(src, dst)),
            PathCommand::QuadraticTo(dst_control(src, dst), dst.to_point_spec()),
        ]
    } else {
        seq![
            PathCommand::MoveTo(src.to_point_spec()),
            PathCommand::QuadraticTo(src_control(src, dst), control_midpoint(src, dst)),
            PathCommand::QuadraticTo(dst_control(src, dst), dst.to_point_spec()),
        ]
    }
}

/// A bound on the magnitude of every coordinate that an edge between pixel positions places.
pub const COORD_LIMIT: i64 = 0x0400_0000_0000_0000;

pub open spec fn point_in_limit(p: Point) -> bool {
    -COORD_LIMIT <= p.x <= COORD_LIMIT && -COORD_LIMIT <= p.y <= COORD_LIMIT
}

/// The horizontal reach of the control points, in milli-pixels.
pub fn edge_control_offset(src: PixelPos, dst: PixelPos) -> (r: i64)
    ensures
        r == control_offset(src, dst),
        0 <= r <= MAX_CONTROL_OFFSET,
{
    let span: i64 = if dst.x >= src.x {
        dst.x as i64 - src.x as i64
    } else {
        src.x as i64 - dst.x as i64
    };
    let reach: i64 = span * SUBPIXELS * 3 / 10;
    if reach < MAX_CONTROL_OFFSET {
        reach
    } else {
        MAX_CONTROL_OFFSET
    }
}

/// The component of a step of [`BLEND_DISTANCE`] along a vector with component
/// `v` and length `len`.
fn edge_blend_step(v: i64, len: u64) -> (r: i64)
    requires
        len >= BLEND_DISTANCE,
        -0x0010_0000_0000_0000 <= v <= 0x0010_0000_0000_0000,
    ensures
        r == blend_step(v as int, len as int),
        v >= 0 ==> 0 <= r <= v,
        v < 0 ==> v <= r <= 0,
{
    let a: u128 = if v >= 0 { v as u128 } else { (-v) as u128 };
    let q: u128 = a * (BLEND_DISTANCE as u128) / (len as u128);
    proof {
        lemma_div_is_ordered_by_denominator(
            a * BLEND_DISTANCE,
            BLEND_DISTANCE as int,
            len as int,
        );
        assert((a * BLEND_DISTANCE) / (BLEND_DISTANCE as int) == a);
    }
    assert(q <= a);
    if v >= 0 {
        q as i64
    } else {
        -(q as i64)
    }
}

/// The square of a coordinate difference, widened so that it cannot overflow.
fn square(v: i64) -> (r: i128)
    requires
        -0x0010_0000_0000_0000 <= v <= 0x0010_0000_0000_0000,
    ensures
        r == v * v,
        0 <= r <= 0x0100_0000_0000_0000_0000_0000_0000,
{
    proof {
        assert(0 <= v * v <= 0x0100_0000_0000_0000_0000_0000_0000) by (nonlinear_arith)
            requires
                -0x0010_0000_0000_0000 <= v <= 0x0010_0000_0000_0000,
        ;
    }
    v as i128 * v as i128
}

/// The connector path from `src` to `dst`.
pub fn edge_path(src: PixelPos, dst: PixelPos) -> (r: EdgePath)
    ensures
        r.stroke_width == STROKE_WIDTH,
        r.commands@ == edge_commands(src, dst),
        forall|i: int|
            0 <= i < path_points(r.commands@).len() ==> point_in_limit(
                #[trigger] path_points(r.commands@)[i],
            ),
{
    let dx = edge_control_offset(src, dst);
    let s = src.to_point();
    let d = dst.to_point();
    let src1 = Point { x: s.x + dx, y: s.y };
    let dst1 = Point { x: d.x - dx, y: d.y };
    assert(src1 == src_control(src, dst));
    assert(dst1 == dst_control(src, dst));
    let mut path = EdgePath::new(STROKE_WIDTH);
    path.move_to(s);
    let span_x: i64 = dst1.x - src1.x;
    let span_y: i64 = dst1.y - src1.y;
    assert(-0x0010_0000_0000_0000 <= span_x <= 0x0010_0000_0000_0000);
    assert(-0x0010_0000_0000_0000 <= span_y <= 0x0010_0000_0000_0000);
    let dist_sq: i128 = square(span_x) + square(span_y);
    assert(dist_sq == control_dist_sq(src, dst));
    if dist_sq > LONG_EDGE_LENGTH_SQ {
        let len = isqrt(dist_sq as u128);
        assert(len >= BLEND_DISTANCE) by (nonlinear_arith)
            requires
                dist_sq > 1_600_000_000,
                dist_sq < (len + 1) * (len + 1),
                len >= 0,
        ;
        let step_x = edge_blend_step(span_x, len);
        let step_y = edge_blend_step(span_y, len);
        let src2 = Point { x: src1.x + step_x, y: src1.y + step_y };
        let dst2 = Point { x: dst1.x - step_x, y: dst1.y - step_y };
        assert(len == control_dist(src, dst));
        assert(src2 == src_blend(src, dst));
        assert(dst2 == dst_blend(src, dst));
        path.quadratic_to(src1, src2);
        path.line_to(dst2);
        path.quadratic_to(dst1, d);
        assert(path.commands@ =~= edge_commands(src, dst));
        proof {
            reveal_with_fuel(path_points, 5);
            assert(path_points(path.commands@) =~= seq![s, src1, src2, dst2, dst1, d]);
        }
    } else {
        let mid = Point {
            x: (src.x as i64 + dst.x as i64) * SUBPIXELS / 2,
            y: (src.y as i64 + dst.y as i64) * SUBPIXELS / 2,
        };
        assert(mid == control_midpoint(src, dst));
        path.quadratic_to(src1, mid);
        path.quadratic_to(dst1, d);
        assert(path.commands@ =~= edge_commands(src, dst));
        proof {
            reveal_with_fuel(path_points, 4);
            assert(path_points(path.commands@) =~= seq![s, src1, mid, dst1, d]);
        }
    }
    path
}

} // verus!
