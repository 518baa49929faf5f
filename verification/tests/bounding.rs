use shooter_core::bounding::{compute_volume, Body, Point, Pose, Rot, Shape, Volume, SCALE};

fn pose(tx: i64, ty: i64, c: i64, s: i64) -> Pose {
    Pose { tx, ty, rot: Rot { c, s } }
}

#[test]
fn rectangle_axis_aligned_volume_is_exact() {
    let shape = Shape::Rectangle { hw: 32, hh: 32 };
    let v = compute_volume(&shape, &pose(10, -5, SCALE, 0));
    assert_eq!(v.min_x, 10 * SCALE - 32 * SCALE);
    assert_eq!(v.max_x, 10 * SCALE + 32 * SCALE);
    assert_eq!(v.min_y, -5 * SCALE - 32 * SCALE);
    assert_eq!(v.max_y, -5 * SCALE + 32 * SCALE);
}

#[test]
fn rectangle_quarter_turn_swaps_extents() {
    // A quarter turn: cosine 0, sine SCALE.
    let shape = Shape::Rectangle { hw: 2, hh: 1 };
    let v = compute_volume(&shape, &pose(10, 5, 0, SCALE));
    assert_eq!(v.min_x, 10 * SCALE - SCALE);
    assert_eq!(v.max_x, 10 * SCALE + SCALE);
    assert_eq!(v.min_y, 5 * SCALE - 2 * SCALE);
    assert_eq!(v.max_y, 5 * SCALE + 2 * SCALE);
}

#[test]
fn rectangle_volume_encloses_rotated_corners() {
    // An arbitrary (not exactly unit) rotation; every transformed corner
    // must land inside the box.
    let hw = 20i64;
    let hh = 12i64;
    let shape = Shape::Rectangle { hw, hh };
    let p = pose(-7, 3, 724, 724);
    let v = compute_volume(&shape, &p);
    for (cx, cy) in [(hw, hh), (-hw, hh), (hw, -hh), (-hw, -hh)] {
        let wx = p.rot.c * cx - p.rot.s * cy + SCALE * p.tx;
        let wy = p.rot.s * cx + p.rot.c * cy + SCALE * p.ty;
        assert!(v.min_x <= wx && wx <= v.max_x);
        assert!(v.min_y <= wy && wy <= v.max_y);
    }
}

#[test]
fn triangle_volume_encloses_rotated_vertices() {
    let pts = [
        Point { x: 0, y: 20 },
        Point { x: -20, y: -20 },
        Point { x: 20, y: -20 },
    ];
    let shape = Shape::Triangle { p0: pts[0], p1: pts[1], p2: pts[2] };
    let p = pose(100, 200, -512, 886);
    let v = compute_volume(&shape, &p);
    for q in pts {
        let wx = p.rot.c * q.x - p.rot.s * q.y + SCALE * p.tx;
        let wy = p.rot.s * q.x + p.rot.c * q.y + SCALE * p.ty;
        assert!(v.min_x <= wx && wx <= v.max_x);
        assert!(v.min_y <= wy && wy <= v.max_y);
    }
}

#[test]
fn line_volume_is_endpoint_box() {
    let shape = Shape::Line { a: Point { x: -3, y: 8 }, b: Point { x: 5, y: -2 } };
    let v = compute_volume(&shape, &pose(0, 0, SCALE, 0));
    assert_eq!(v.min_x, -3 * SCALE);
    assert_eq!(v.max_x, 5 * SCALE);
    assert_eq!(v.min_y, -2 * SCALE);
    assert_eq!(v.max_y, 8 * SCALE);
}

#[test]
fn ellipse_volume_encloses_axis_endpoints() {
    let rx = 3i64;
    let ry = 6i64;
    let shape = Shape::Ellipse { rx, ry };
    let p = pose(1, 2, 700, -700);
    let v = compute_volume(&shape, &p);
    for (ex, ey) in [(rx, 0), (-rx, 0), (0, ry), (0, -ry)] {
        let wx = p.rot.c * ex - p.rot.s * ey + SCALE * p.tx;
        let wy = p.rot.s * ex + p.rot.c * ey + SCALE * p.ty;
        assert!(v.min_x <= wx && wx <= v.max_x);
        assert!(v.min_y <= wy && wy <= v.max_y);
    }
}

#[test]
fn ellipse_box_is_tight_under_rotation() {
    // At an eighth turn (c = s = 724) a circle of radius 10 has true
    // half-extent sqrt((7240)^2 + (7240)^2) = 10238 in scaled space —
    // strictly less than the rotated-rectangle hull 14480 would give.
    let shape = Shape::Ellipse { rx: 10, ry: 10 };
    let v = compute_volume(&shape, &pose(0, 0, 724, 724));
    assert_eq!(v.max_x, 10238);
    assert_eq!(v.min_x, -10238);
    assert_eq!(v.max_y, 10238);
    assert_eq!(v.min_y, -10238);
}

#[test]
fn ellipse_box_axis_aligned_is_exact() {
    let shape = Shape::Ellipse { rx: 3, ry: 6 };
    let v = compute_volume(&shape, &pose(0, 0, SCALE, 0));
    assert_eq!(v.max_x, 3 * SCALE);
    assert_eq!(v.max_y, 6 * SCALE);
}

#[test]
fn intersects_is_symmetric_and_reflexive() {
    let a = Volume { min_x: 0, min_y: 0, max_x: 10, max_y: 10 };
    let b = Volume { min_x: 5, min_y: 5, max_x: 15, max_y: 15 };
    let c = Volume { min_x: 11, min_y: 0, max_x: 20, max_y: 10 };
    assert!(a.intersects(&b));
    assert!(b.intersects(&a));
    assert_eq!(a.intersects(&c), c.intersects(&a));
    assert!(a.intersects(&a));
    assert!(b.intersects(&b));
}

#[test]
fn disjoint_projection_never_intersects() {
    let a = Volume { min_x: 0, min_y: 0, max_x: 10, max_y: 10 };
    let off_x = Volume { min_x: 11, min_y: 0, max_x: 20, max_y: 10 };
    let off_y = Volume { min_x: 0, min_y: -30, max_x: 10, max_y: -11 };
    assert!(!a.intersects(&off_x));
    assert!(!off_x.intersects(&a));
    assert!(!a.intersects(&off_y));
    assert!(!off_y.intersects(&a));
}

#[test]
fn touching_edges_intersect_inclusively() {
    let a = Volume { min_x: 0, min_y: 0, max_x: 10, max_y: 10 };
    let b = Volume { min_x: 10, min_y: 10, max_x: 20, max_y: 20 };
    assert!(a.intersects(&b));
}

#[test]
fn refresh_recomputes_only_when_stale() {
    let shape = Shape::Rectangle { hw: 4, hh: 4 };
    let mut body = Body::new(shape, pose(0, 0, SCALE, 0));
    assert!(body.dirty);
    body.refresh();
    assert!(!body.dirty);
    let first = body.volume;

    // A second refresh without any change reuses the volume.
    body.refresh();
    assert_eq!(body.volume, first);

    // Moving the pose marks the body stale; refresh then recomputes.
    body.set_pose(pose(100, 0, SCALE, 0));
    assert!(body.dirty);
    body.refresh();
    assert_eq!(body.volume.min_x, 100 * SCALE - 4 * SCALE);
    assert_eq!(body.volume.max_x, 100 * SCALE + 4 * SCALE);
}
