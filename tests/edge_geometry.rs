use edge_display::{
    edge_control_offset, edge_path, isqrt, Bounds, ColorUpdate, EdgeCache, EdgeDisplay, EdgePath,
    LayoutBox, PathCommand, PixelPos, Point, Rgba, STROKE_WIDTH,
};

fn pos(x: i32, y: i32) -> PixelPos {
    PixelPos { x, y }
}

fn pt(x: i64, y: i64) -> Point {
    Point { x, y }
}

const WHITE: Rgba = Rgba { r: 255, g: 255, b: 255, a: 255 };
const RED: Rgba = Rgba { r: 255, g: 0, b: 0, a: 255 };
const BLUE: Rgba = Rgba { r: 0, g: 0, b: 255, a: 128 };

fn edge(src: PixelPos, dst: PixelPos) -> EdgeDisplay {
    EdgeDisplay { src_pos: src, src_color: RED, dst_pos: dst, dst_color: BLUE }
}

fn all_points(path: &EdgePath) -> Vec<Point> {
    path.points()
}

#[test]
fn horizontal_long_edge_scenario() {
    let e = EdgeDisplay { src_pos: pos(0, 0), src_color: WHITE, dst_pos: pos(100, 0), dst_color: WHITE };
    assert_eq!(edge_control_offset(e.src_pos, e.dst_pos), 20_000);
    let u = e.build();
    assert_eq!(u.path.stroke_width, STROKE_WIDTH);
    assert_eq!(
        u.path.commands,
        vec![
            PathCommand::MoveTo(pt(0, 0)),
            PathCommand::QuadraticTo(pt(20_000, 0), pt(40_000, 0)),
            PathCommand::LineTo(pt(60_000, 0)),
            PathCommand::QuadraticTo(pt(80_000, 0), pt(100_000, 0)),
        ]
    );
    assert_eq!(u.bounds, Bounds { min: pt(0, 0), max: pt(100_000, 0) });
    assert_eq!(
        u.layout,
        LayoutBox { left: 0, top: 0, width: 100_000, height: 0, absolute: true }
    );
    assert_eq!(
        u.colors,
        ColorUpdate { src_color: WHITE, src_offset: pt(0, 0), dst_color: WHITE, dst_offset: pt(100_000, 0) }
    );
}

#[test]
fn short_edge_scenario() {
    assert_eq!(edge_control_offset(pos(0, 0), pos(10, 0)), 3_000);
    let path = edge_path(pos(0, 0), pos(10, 0));
    assert_eq!(
        path.commands,
        vec![
            PathCommand::MoveTo(pt(0, 0)),
            PathCommand::QuadraticTo(pt(3_000, 0), pt(5_000, 0)),
            PathCommand::QuadraticTo(pt(7_000, 0), pt(10_000, 0)),
        ]
    );
}

#[test]
fn degenerate_edge_scenario() {
    let u = edge(pos(50, 50), pos(50, 50)).build();
    let p = pt(50_000, 50_000);
    assert_eq!(
        u.path.commands,
        vec![
            PathCommand::MoveTo(p),
            PathCommand::QuadraticTo(p, p),
            PathCommand::QuadraticTo(p, p),
        ]
    );
    assert_eq!(u.bounds, Bounds { min: p, max: p });
    assert_eq!(u.layout.width, 0);
    assert_eq!(u.layout.height, 0);
    assert_eq!(u.colors.src_offset, pt(0, 0));
    assert_eq!(u.colors.dst_offset, pt(0, 0));
}

#[test]
fn control_offset_is_capped() {
    assert_eq!(edge_control_offset(pos(0, 0), pos(66, 0)), 19_800);
    assert_eq!(edge_control_offset(pos(0, 0), pos(67, 0)), 20_000);
    assert_eq!(edge_control_offset(pos(0, 0), pos(-1_000, 5)), 20_000);
    assert_eq!(edge_control_offset(pos(i32::MIN, 0), pos(i32::MAX, 0)), 20_000);
    assert_eq!(edge_control_offset(pos(7, 3), pos(7, 900)), 0);
}

#[test]
fn path_joins_anchors() {
    for (src, dst) in [(pos(0, 0), pos(200, 150)), (pos(-30, 8), pos(-31, 9)), (pos(5, 5), pos(-400, -90))] {
        let path = edge_path(src, dst);
        assert_eq!(path.commands[0], PathCommand::MoveTo(pt(src.x as i64 * 1000, src.y as i64 * 1000)));
        let end = match *path.commands.last().unwrap() {
            PathCommand::MoveTo(p) | PathCommand::LineTo(p) | PathCommand::QuadraticTo(_, p) => p,
        };
        assert_eq!(end, pt(dst.x as i64 * 1000, dst.y as i64 * 1000));
    }
}

#[test]
fn long_and_short_threshold() {
    // Control points exactly 40 pixels apart: still a short edge.
    let at_threshold = edge_path(pos(0, 0), pos(80, 0));
    assert_eq!(at_threshold.commands.len(), 3);
    assert!(matches!(at_threshold.commands[2], PathCommand::QuadraticTo(..)));
    // One pixel further: a long edge with a straight middle.
    let beyond = edge_path(pos(0, 0), pos(81, 0));
    assert_eq!(beyond.commands.len(), 4);
    assert!(matches!(beyond.commands[1], PathCommand::QuadraticTo(..)));
    assert!(matches!(beyond.commands[2], PathCommand::LineTo(..)));
    assert!(matches!(beyond.commands[3], PathCommand::QuadraticTo(..)));
}

#[test]
fn diagonal_long_edge_blends() {
    let path = edge_path(pos(0, 0), pos(100, 100));
    assert_eq!(
        path.commands,
        vec![
            PathCommand::MoveTo(pt(0, 0)),
            PathCommand::QuadraticTo(pt(20_000, 0), pt(30_289, 17_149)),
            PathCommand::LineTo(pt(69_711, 82_851)),
            PathCommand::QuadraticTo(pt(80_000, 100_000), pt(100_000, 100_000)),
        ]
    );
}

#[test]
fn vertical_edge_has_no_horizontal_reach() {
    let path = edge_path(pos(0, 0), pos(0, 100));
    assert_eq!(
        path.commands,
        vec![
            PathCommand::MoveTo(pt(0, 0)),
            PathCommand::QuadraticTo(pt(0, 0), pt(0, 20_000)),
            PathCommand::LineTo(pt(0, 80_000)),
            PathCommand::QuadraticTo(pt(0, 100_000), pt(0, 100_000)),
        ]
    );
}

#[test]
fn backward_edge_loops_out() {
    let u = edge(pos(100, 0), pos(0, 0)).build();
    assert_eq!(
        u.path.commands,
        vec![
            PathCommand::MoveTo(pt(100_000, 0)),
            PathCommand::QuadraticTo(pt(120_000, 0), pt(100_000, 0)),
            PathCommand::LineTo(pt(0, 0)),
            PathCommand::QuadraticTo(pt(-20_000, 0), pt(0, 0)),
        ]
    );
    assert_eq!(u.bounds, Bounds { min: pt(-20_000, 0), max: pt(120_000, 0) });
    assert_eq!(u.colors.src_offset, pt(120_000, 0));
    assert_eq!(u.colors.dst_offset, pt(20_000, 0));
}

#[test]
fn build_is_idempotent() {
    let e = edge(pos(-13, 47), pos(311, -2));
    let a = e.build();
    let b = e.build();
    assert_eq!(a.path.commands, b.path.commands);
    assert_eq!(a.path.stroke_width, b.path.stroke_width);
    assert_eq!(a.bounds, b.bounds);
    assert_eq!(a.layout, b.layout);
    assert_eq!(a.colors, b.colors);
}

#[test]
fn bounds_hold_every_point_tightly() {
    for (src, dst) in [(pos(0, 0), pos(100, 100)), (pos(40, -7), pos(3, 60)), (pos(9, 9), pos(12, 2))] {
        let u = edge(src, dst).build();
        let pts = all_points(&u.path);
        assert!(pts.iter().all(|p| u.bounds.contains(*p)));
        assert!(pts.iter().any(|p| p.x == u.bounds.min.x));
        assert!(pts.iter().any(|p| p.x == u.bounds.max.x));
        assert!(pts.iter().any(|p| p.y == u.bounds.min.y));
        assert!(pts.iter().any(|p| p.y == u.bounds.max.y));
    }
}

#[test]
fn color_offsets_are_relative_to_bounds() {
    let e = edge(pos(10, 40), pos(-50, 0));
    let u = e.build();
    assert_eq!(u.bounds.min, pt(-68_000, 0));
    assert_eq!(u.colors.src_color, RED);
    assert_eq!(u.colors.dst_color, BLUE);
    assert_eq!(u.colors.src_offset, pt(10_000 - u.bounds.min.x, 40_000 - u.bounds.min.y));
    assert_eq!(u.colors.dst_offset, pt(-50_000 - u.bounds.min.x, -u.bounds.min.y));
    assert_eq!(u.layout.left, -68_000);
    assert_eq!(u.layout.width, u.bounds.max.x - u.bounds.min.x);
}

#[test]
fn extreme_anchors_do_not_overflow() {
    let u = edge(pos(i32::MIN, i32::MIN), pos(i32::MAX, i32::MAX)).build();
    assert_eq!(u.bounds.min, pt(i32::MIN as i64 * 1000, i32::MIN as i64 * 1000));
    assert_eq!(u.bounds.max, pt(i32::MAX as i64 * 1000, i32::MAX as i64 * 1000));
}

#[test]
fn integer_square_root() {
    assert_eq!(isqrt(0), 0);
    assert_eq!(isqrt(15), 3);
    assert_eq!(isqrt(16), 4);
    assert_eq!(isqrt(13_600_000_000), 116_619);
    assert_eq!(isqrt(u128::MAX), u64::MAX);
}

#[test]
fn cache_rebuilds_only_on_change() {
    let mut cache = EdgeCache::new(7);
    assert!(cache.last.is_none());
    let e = edge(pos(0, 0), pos(100, 0));
    let first = cache.refresh(e).expect("first build");
    assert_eq!(first.bounds, Bounds { min: pt(0, 0), max: pt(100_000, 0) });
    assert!(cache.refresh(e).is_none());
    let moved = EdgeDisplay { dst_pos: pos(10, 0), ..e };
    let second = cache.refresh(moved).expect("rebuilt after a move");
    assert_eq!(second.path.commands.len(), 3);
    let recolored = EdgeDisplay { src_color: WHITE, ..moved };
    assert!(cache.refresh(recolored).is_some());
    assert_eq!(cache.material, 7);
    assert_eq!(cache.last, Some(recolored));
}
