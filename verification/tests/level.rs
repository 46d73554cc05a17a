use pong::factory::LevelError;
use pong::geometry::{GeometryObject, ObjShape, Role};
use pong::sim::SimState;
use pong::world::BodyShape;
use pong::BALL_SPEED;

fn obj(role: Role, name: &str, shape: ObjShape, x: i64, y: i64) -> GeometryObject {
    GeometryObject { role, name: name.to_string(), shape, x, y }
}

fn wall(x: i64, y: i64, w: i64, h: i64) -> GeometryObject {
    obj(Role::Wall, "", ObjShape::Rect { width: w, height: h }, x, y)
}

fn paddle(name: &str, x: i64, y: i64) -> GeometryObject {
    obj(Role::Paddle, name, ObjShape::Rect { width: 20, height: 100 }, x, y)
}

fn ball(x: i64, y: i64) -> GeometryObject {
    obj(Role::Ball, "", ObjShape::Ellipse { width: 30, height: 40 }, x, y)
}

fn valid_level() -> Vec<GeometryObject> {
    vec![
        wall(0, 0, 800, 10),
        wall(0, 590, 800, 10),
        paddle("player_paddle", 10, 250),
        paddle("ai_paddle", 770, 250),
        ball(400, 300),
    ]
}

#[test]
fn valid_level_builds() {
    let s = SimState::new(&valid_level()).unwrap();
    assert_eq!(s.world.bodies.len(), 5);
    assert_eq!(s.axis, 0);
    assert_eq!(s.player.dy, 0);
    assert_eq!(s.ai.dy, 0);
    assert_eq!(s.timer.acc_micros, 0);
    // handles point at the right objects, in object order
    assert_eq!(s.player.handle, 2);
    assert_eq!(s.ai.handle, 3);
    assert_eq!(s.ball, 4);
    let walls = s.world.bodies.iter().filter(|b| b.is_wall).count();
    assert_eq!(walls, 2);
}

#[test]
fn wall_body_is_static_box() {
    let s = SimState::new(&valid_level()).unwrap();
    let b = &s.world.bodies[0];
    assert!(b.is_wall);
    assert!(!b.dynamic);
    assert!(!b.zero_inv_mass);
    assert_eq!(b.shape, BodyShape::Box { hx: 400, hy: 5 });
    assert_eq!((b.pos.x, b.pos.y), (400, 5));
    assert_eq!((b.vel.x, b.vel.y), (0, 0));
}

#[test]
fn paddle_body_has_zero_inverse_mass() {
    let s = SimState::new(&valid_level()).unwrap();
    let b = &s.world.bodies[s.player.handle];
    assert!(!b.is_wall);
    assert!(b.dynamic);
    assert!(b.zero_inv_mass);
    assert_eq!(b.shape, BodyShape::Box { hx: 10, hy: 50 });
    assert_eq!((b.pos.x, b.pos.y), (20, 300));
}

#[test]
fn ball_radius_is_half_the_diagonal() {
    // diagonal of a 30 x 40 bounding box is 50, so the radius is 25
    let s = SimState::new(&valid_level()).unwrap();
    let b = &s.world.bodies[s.ball];
    assert_eq!(b.shape, BodyShape::Circle { radius: 25 });
    assert_eq!((b.pos.x, b.pos.y), (425, 325));
    assert_eq!((b.vel.x, b.vel.y), (BALL_SPEED, 0));
    assert!(b.dynamic);
    assert!(!b.zero_inv_mass);
    assert!(!b.is_wall);
}

#[test]
fn missing_ball_is_rejected() {
    let mut objs = valid_level();
    objs.pop();
    assert_eq!(SimState::new(&objs).err(), Some(LevelError::MissingBall));
}

#[test]
fn duplicate_ball_is_rejected() {
    let mut objs = valid_level();
    objs.push(ball(100, 100));
    assert_eq!(SimState::new(&objs).err(), Some(LevelError::DuplicateBall));
}

#[test]
fn wall_with_ellipse_shape_is_rejected() {
    let mut objs = valid_level();
    objs[0].shape = ObjShape::Ellipse { width: 800, height: 10 };
    assert_eq!(SimState::new(&objs).err(), Some(LevelError::WallNotRect));
}

#[test]
fn paddle_with_ellipse_shape_is_rejected() {
    let mut objs = valid_level();
    objs[2].shape = ObjShape::Ellipse { width: 20, height: 100 };
    assert_eq!(SimState::new(&objs).err(), Some(LevelError::PaddleNotRect));
}

#[test]
fn ball_with_rect_shape_is_rejected() {
    let mut objs = valid_level();
    objs[4].shape = ObjShape::Rect { width: 30, height: 40 };
    assert_eq!(SimState::new(&objs).err(), Some(LevelError::BallNotEllipse));
}

#[test]
fn unknown_paddle_name_is_rejected() {
    let mut objs = valid_level();
    objs[2].name = "left_paddle".to_string();
    assert_eq!(SimState::new(&objs).err(), Some(LevelError::UnknownPaddleName));
}

#[test]
fn duplicate_player_paddle_is_rejected() {
    let mut objs = valid_level();
    objs.push(paddle("player_paddle", 10, 100));
    assert_eq!(SimState::new(&objs).err(), Some(LevelError::DuplicatePaddle));
}

#[test]
fn missing_ai_paddle_is_rejected() {
    let mut objs = valid_level();
    objs.remove(3);
    assert_eq!(SimState::new(&objs).err(), Some(LevelError::MissingPaddle));
}

#[test]
fn shape_defects_outrank_missing_ball() {
    let objs = vec![
        obj(Role::Wall, "", ObjShape::Ellipse { width: 10, height: 10 }, 0, 0),
        paddle("player_paddle", 10, 250),
        paddle("ai_paddle", 770, 250),
    ];
    assert_eq!(SimState::new(&objs).err(), Some(LevelError::WallNotRect));
}

#[test]
fn empty_level_is_rejected() {
    let objs: Vec<GeometryObject> = Vec::new();
    assert_eq!(SimState::new(&objs).err(), Some(LevelError::MissingPaddle));
}
