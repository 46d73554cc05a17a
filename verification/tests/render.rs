use pong::render::{primitive_for, render_world, ColorClass, Primitive};
use pong::world::{Body, BodyShape, Vec2, World};

fn body(shape: BodyShape, x: i64, y: i64, is_wall: bool) -> Body {
    Body {
        shape,
        dynamic: !is_wall,
        zero_inv_mass: false,
        pos: Vec2 { x, y },
        vel: Vec2 { x: 0, y: 0 },
        is_wall,
    }
}

#[test]
fn box_body_round_trips_to_its_rectangle() {
    // half-extents (10, 20) centered at (50, 50): top-left (40, 30), size (20, 40)
    let b = body(BodyShape::Box { hx: 10, hy: 20 }, 50, 50, false);
    assert_eq!(
        primitive_for(&b),
        Some(Primitive::Rect { x: 40, y: 30, w: 20, h: 40, color: ColorClass::Active })
    );
}

#[test]
fn circle_body_keeps_its_center_and_radius() {
    let b = body(BodyShape::Circle { radius: 25 }, 425, 325, false);
    assert_eq!(
        primitive_for(&b),
        Some(Primitive::Circle { cx: 425, cy: 325, radius: 25, color: ColorClass::Active })
    );
}

#[test]
fn wall_marker_picks_the_wall_color() {
    let b = body(BodyShape::Box { hx: 400, hy: 5 }, 400, 5, true);
    match primitive_for(&b) {
        Some(Primitive::Rect { color, .. }) => assert_eq!(color, ColorClass::Wall),
        other => panic!("expected a rectangle, got {other:?}"),
    }
}

#[test]
fn unsupported_shape_emits_no_primitive() {
    let b = body(BodyShape::Unsupported, 0, 0, false);
    assert_eq!(primitive_for(&b), None);
}

#[test]
fn rendering_twice_gives_identical_primitives() {
    let mut w = World::new();
    w.add_body(body(BodyShape::Box { hx: 400, hy: 5 }, 400, 5, true));
    w.add_body(body(BodyShape::Box { hx: 10, hy: 50 }, 20, 300, false));
    w.add_body(body(BodyShape::Unsupported, 7, 7, false));
    w.add_body(body(BodyShape::Circle { radius: 25 }, 425, 325, false));
    let first = render_world(&w);
    let second = render_world(&w);
    assert_eq!(first, second);
}

#[test]
fn one_primitive_per_supported_body_in_body_order() {
    let mut w = World::new();
    w.add_body(body(BodyShape::Box { hx: 1, hy: 2 }, 10, 20, true));
    w.add_body(body(BodyShape::Unsupported, 0, 0, false));
    w.add_body(body(BodyShape::Circle { radius: 3 }, 30, 40, false));
    let out = render_world(&w);
    assert_eq!(
        out,
        vec![
            Primitive::Rect { x: 9, y: 18, w: 2, h: 4, color: ColorClass::Wall },
            Primitive::Circle { cx: 30, cy: 40, radius: 3, color: ColorClass::Active },
        ]
    );
}
