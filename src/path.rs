use vstd::prelude::*;
use crate::geometry::Point;

verus! {

/// One drawing command of a path, in absolute milli-pixel coordinates.
#[derive(Clone, Copy, Debug, PartialEq, Eq, Structural)]
pub enum PathCommand {
    /// Start a new sub-path at the point.
    MoveTo(Point),
    /// Straight line to the point.
    LineTo(Point),
    /// Quadratic bezier curve: control point, then end point.
    QuadraticTo(Point, Point),
}

/// The points that a command places: its control point, if any, then its end point.
pub open spec fn command_points(c: PathCommand) -> Seq<Point> {
    match c {
        PathCommand::MoveTo(p) => seq![p],
        PathCommand::LineTo(p) => seq![p],
        PathCommand::QuadraticTo(ctl, p) => seq![ctl, p],
    }
}

/// The point where a command leaves the pen.
pub open spec fn command_end(c: PathCommand) -> Point {
    match c {
        PathCommand::MoveTo(p) => p,
        PathCommand::LineTo(p) => p,
        PathCommand::QuadraticTo(_, p) => p,
    }
}

/// Every point that the commands place, control points included, in order.
pub open spec fn path_points(cmds: Seq<PathCommand>) -> Seq<Point>
    decreases cmds.len(),
{
    if cmds.len() == 0 {
        Seq::empty()
    } else {
        path_points(cmds.drop_last()) + command_points(cmds.last())
    }
}

/// An axis-aligned rectangle, from its least to its greatest corner.
#[derive(Clone, Copy, Debug, PartialEq, Eq, Structural)]
pub struct Bounds {
    pub min: Point,
    pub max: Point,
}

impl Bounds {
    pub open spec fn contains_spec(self, p: Point) -> bool {
        self.min.x <= p.x <= self.max.x && self.min.y <= p.y <= self.max.y
    }

    pub open spec fn width_spec(self) -> int {
        self.max.x - self.min.x
    }

    pub open spec fn height_spec(self) -> int {
        self.max.y - self.min.y
    }

    pub fn contains(&self, p: Point) -> (r: bool)
        ensures
            r == self.contains_spec(p),
    {
        self.min.x <= p.x && p.x <= self.max.x && self.min.y <= p.y && p.y <= self.max.y
    }

    pub fn width(&self) -> (r: i64)
        requires
            0 <= self.width_spec() <= i64::MAX,
        ensures
            r == self.width_spec(),
    {
        self.max.x - self.min.x
    }

    pub fn height(&self) -> (r: i64)
        requires
            0 <= self.height_spec() <= i64::MAX,
        ensures
            r == self.height_spec(),
    {
        self.max.y - self.min.y
    }
}

/// `b` is the smallest rectangle that holds every point of `pts`: it holds
/// them all, and each of its four sides passes through one of them.
pub open spec fn is_tight_bounds(pts: Seq<Point>, b: Bounds) -> bool {
    &&& forall|i: int| 0 <= i < pts.len() ==> b.contains_spec(#[trigger] pts[i])
    &&& exists|i: int| 0 <= i < pts.len() && (#[trigger] pts[i]).x == b.min.x
    &&& exists|i: int| 0 <= i < pts.len() && (#[trigger] pts[i]).x == b.max.x
    &&& exists|i: int| 0 <= i < pts.len() && (#[trigger] pts[i]).y == b.min.y
    &&& exists|i: int| 0 <= i < pts.len() && (#[trigger] pts[i]).y == b.max.y
}

/// A set of points has one tightest bounding rectangle.
pub proof fn lemma_tight_bounds_unique(pts: Seq<Point>, a: Bounds, b: Bounds)
    requires
        is_tight_bounds(pts, a),
        is_tight_bounds(pts, b),
    ensures
        a == b,
{
    let i = choose|i: int| 0 <= i < pts.len() && (#[trigger] pts[i]).x == a.min.x;
    let j = choose|i: int| 0 <= i < pts.len() && (#[trigger] pts[i]).x == b.min.x;
    assert(b.contains_spec(pts[i]) && a.contains_spec(pts[j]));
    let i = choose|i: int| 0 <= i < pts.len() && (#[trigger] pts[i]).x == a.max.x;
    let j = choose|i: int| 0 <= i < pts.len() && (#[trigger] pts[i]).x == b.max.x;
    assert(b.contains_spec(pts[i]) && a.contains_spec(pts[j]));
    let i = choose|i: int| 0 <= i < pts.len() && (#[trigger] pts[i]).y == a.min.y;
    let j = choose|i: int| 0 <= i < pts.len() && (#[trigger] pts[i]).y == b.min.y;
    assert(b.contains_spec(pts[i]) && a.contains_spec(pts[j]));
    let i = choose|i: int| 0 <= i < pts.len() && (#[trigger] pts[i]).y == a.max.y;
    let j = choose|i: int| 0 <= i < pts.len() && (#[trigger] pts[i]).y == b.max.y;
    assert(b.contains_spec(pts[i]) && a.contains_spec(pts[j]));
}

/// A stroked path: a width and an ordered list of drawing commands.
#[derive(Clone, Debug)]
pub struct EdgePath {
    /// Stroke width, in milli-pixels.
    pub stroke_width: i64,
    pub commands: Vec<PathCommand>,
}

impl EdgePath {
    /// An empty path with the given stroke width.
    pub fn new(stroke_width: i64) -> (r: EdgePath)
        ensures
            r.stroke_width == stroke_width,
            r.commands@ == Seq::<PathCommand>::empty(),
    {
        EdgePath { stroke_width, commands: Vec::new() }
    }

    pub fn move_to(&mut self, p: Point)
        ensures
            final(self).stroke_width == old(self).stroke_width,
            final(self).commands@ == old(self).commands@.push(PathCommand::MoveTo(p)),
    {
        self.commands.push(PathCommand::MoveTo(p));
    }

    pub fn line_to(&mut self, p: Point)
        ensures
            final(self).stroke_width == old(self).stroke_width,
            final(self).commands@ == old(self).commands@.push(PathCommand::LineTo(p)),
    {
        self.commands.push(PathCommand::LineTo(p));
    }

    pub fn quadratic_to(&mut self, ctl: Point, p: Point)
        ensures
            final(self).stroke_width == old(self).stroke_width,
            final(self).commands@ == old(self).commands@.push(PathCommand::QuadraticTo(ctl, p)),
    {
        self.commands.push(PathCommand::QuadraticTo(ctl, p));
    }

    /// Every point that the path places, control points included, in order.
    pub fn points(&self) -> (r: Vec<Point>)
        ensures
            r@ == path_points(self.commands@),
    {
        let mut pts: Vec<Point> = Vec::new();
        let mut i: usize = 0;
        while i < self.commands.len()
            invariant
                0 <= i <= self.commands@.len(),
                pts@ == path_points(self.commands@.take(i as int)),
            decreases self.commands@.len() - i,
        {
            let c = self.commands[i];
            match c {
                PathCommand::MoveTo(p) => pts.push(p),
                PathCommand::LineTo(p) => pts.push(p),
                PathCommand::QuadraticTo(ctl, p) => {
                    pts.push(ctl);
                    pts.push(p);
                },
            }
            assert(self.commands@.take(i + 1).drop_last() == self.commands@.take(i as int));
            i = i + 1;
        }
        assert(self.commands@.take(i as int) == self.commands@);
        pts
    }

    /// The smallest axis-aligned rectangle that holds every point placed by the
    /// path, control points included.
    pub fn bounds(&self) -> (r: Bounds)
        requires
            self.commands@.len() > 0,
        ensures
            is_tight_bounds(path_points(self.commands@), r),
    {
        let pts = self.points();
        proof {
            lemma_path_points_nonempty(self.commands@);
        }
        let mut b = Bounds { min: pts[0], max: pts[0] };
        let ghost mut lx: int = 0;
        let ghost mut hx: int = 0;
        let ghost mut ly: int = 0;
        let ghost mut hy: int = 0;
        let mut i: usize = 1;
        while i < pts.len()
            invariant
                1 <= i <= pts@.len(),
                forall|j: int| 0 <= j < i ==> b.contains_spec(#[trigger] pts@[j]),
                0 <= lx < i && pts@[lx].x == b.min.x,
                0 <= hx < i && pts@[hx].x == b.max.x,
                0 <= ly < i && pts@[ly].y == b.min.y,
                0 <= hy < i && pts@[hy].y == b.max.y,
            decreases pts@.len() - i,
        {
            let p = pts[i];
            if p.x < b.min.x {
                b.min.x = p.x;
                proof { lx = i as int; }
            }
            if p.x > b.max.x {
                b.max.x = p.x;
                proof { hx = i as int; }
            }
            if p.y < b.min.y {
                b.min.y = p.y;
                proof { ly = i as int; }
            }
            if p.y > b.max.y {
                b.max.y = p.y;
                proof { hy = i as int; }
            }
            i = i + 1;
        }
        assert(pts@[lx].x == b.min.x && pts@[hx].x == b.max.x);
        assert(pts@[ly].y == b.min.y && pts@[hy].y == b.max.y);
        b
    }
}

/// A path with at least one command places at least one point.
proof fn lemma_path_points_nonempty(cmds: Seq<PathCommand>)
    requires
        cmds.len() > 0,
    ensures
        path_points(cmds).len() > 0,
{
    assert(command_points(cmds.last()).len() > 0);
}

} // verus!
