//! The body factory: turns one tagged geometry object into a physics-body
//! descriptor, and states which levels are acceptable.
//!
//! Rectangles become boxes: half-extents are half the rectangle's width and
//! height, and the center is the top-left corner shifted by the half-extents.
//! The ball's ellipse becomes a circle whose radius is half the floor square
//! root of the squared bounding-box diagonal.  Walls are static; paddles are
//! dynamic with zero inverse mass, so collisions never move them; the ball is
//! fully dynamic and starts with a fixed horizontal velocity.

use crate::geometry::{GeometryObject, ObjShape, Role};
use crate::num::{isqrt, lemma_sqrt_floor_unique, sqrt_floor};
use crate::world::{Body, BodyShape, Vec2};
use crate::BALL_SPEED;
use vstd::prelude::*;

verus! {

/// Why a level description was rejected.
#[derive(Clone, Copy, PartialEq, Eq, Structural, Debug)]
pub enum LevelError {
    /// A wall object's shape is not a rectangle.
    WallNotRect,
    /// A paddle object's shape is not a rectangle.
    PaddleNotRect,
    /// A ball object's shape is not an ellipse.
    BallNotEllipse,
    /// A paddle object's name names neither side.
    UnknownPaddleName,
    /// A side has more than one paddle object.
    DuplicatePaddle,
    /// A side has no paddle object.
    MissingPaddle,
    /// More than one ball object.
    DuplicateBall,
    /// No ball object.
    MissingBall,
}

/// The name that marks the player-side paddle.
pub open spec fn is_player_name(s: Seq<char>) -> bool {
    s == "player_paddle"@
}

/// The name that marks the machine-side paddle.
pub open spec fn is_ai_name(s: Seq<char>) -> bool {
    s == "ai_paddle"@
}

/// A paddle name that identifies a side.
pub open spec fn known_paddle_name(s: Seq<char>) -> bool {
    is_player_name(s) || is_ai_name(s)
}

/// The shape an object must carry for its role: walls and paddles are
/// rectangles, the ball is an ellipse.
pub open spec fn shape_fits_role(o: GeometryObject) -> bool {
    match o.role {
        Role::Wall => o.shape is Rect,
        Role::Paddle => o.shape is Rect,
        Role::Ball => o.shape is Ellipse,
    }
}

/// The box-body descriptor for a rectangle object: half-extents from the
/// rectangle, center at the top-left corner shifted by the half-extents, at
/// rest, unmarked.
pub open spec fn spec_box_body(o: GeometryObject, dynamic: bool) -> Body {
    let w = o.shape.spec_width();
    let h = o.shape.spec_height();
    Body {
        shape: BodyShape::Box { hx: (w / 2) as i64, hy: (h / 2) as i64 },
        dynamic,
        zero_inv_mass: false,
        pos: Vec2 { x: (o.x + w / 2) as i64, y: (o.y + h / 2) as i64 },
        vel: Vec2 { x: 0, y: 0 },
        is_wall: false,
    }
}

/// The ball radius derived from an object's bounding box: half the floor
/// square root of the squared diagonal.
pub open spec fn spec_ball_radius(o: GeometryObject) -> int {
    let w = o.shape.spec_width();
    let h = o.shape.spec_height();
    sqrt_floor(w * w + h * h) / 2
}

/// The ball-body descriptor: a dynamic circle, centered at the top-left corner
/// shifted by the radius, launched horizontally.
pub open spec fn spec_ball_body(o: GeometryObject) -> Body {
    let r = spec_ball_radius(o);
    Body {
        shape: BodyShape::Circle { radius: r as i64 },
        dynamic: true,
        zero_inv_mass: false,
        pos: Vec2 { x: (o.x + r) as i64, y: (o.y + r) as i64 },
        vel: Vec2 { x: BALL_SPEED, y: 0 },
        is_wall: false,
    }
}

/// The body descriptor an object yields once its shape fits its role: walls
/// are static boxes carrying the wall marker, paddles dynamic boxes with zero
/// inverse mass, the ball a dynamic circle.
pub open spec fn body_of(o: GeometryObject) -> Body {
    match o.role {
        Role::Wall => Body { is_wall: true, ..spec_box_body(o, false) },
        Role::Paddle => Body { zero_inv_mass: true, ..spec_box_body(o, true) },
        Role::Ball => spec_ball_body(o),
    }
}

/// Any well-formed object's descriptor is well formed.
pub proof fn lemma_body_of_wf(o: GeometryObject)
    requires
        o.wf(),
    ensures
        body_of(o).wf(),
{
    let w = o.shape.spec_width();
    let h = o.shape.spec_height();
    lemma_ball_radius_bounds(o);
    assert(0 <= w / 2 <= w);
    assert(0 <= h / 2 <= h);
}

/// The ball radius of a well-formed object is nonnegative and bounded.
pub proof fn lemma_ball_radius_bounds(o: GeometryObject)
    requires
        o.wf(),
    ensures
        0 <= spec_ball_radius(o),
        spec_ball_radius(o) <= 750_000_000,
{
    let w = o.shape.spec_width();
    let h = o.shape.spec_height();
    let n = w * w + h * h;
    assert(n <= 2_000_000_000_000_000_000) by (nonlinear_arith)
        requires
            0 <= w <= 1_000_000_000,
            0 <= h <= 1_000_000_000,
            n == w * w + h * h,
    ;
    let r = sqrt_floor(n);
    assert(exists|q: int| 0 <= q && #[trigger] (q * q) <= n && n < (q + 1) * (q + 1)) by {
        lemma_sqrt_floor_exists(n);
    }
    assert(0 <= r && r * r <= n && n < (r + 1) * (r + 1));
    assert(r <= 1_500_000_000) by (nonlinear_arith)
        requires
            0 <= r,
            r * r <= 2_000_000_000_000_000_000,
    ;
}

/// Every nonnegative integer has a floor square root.
pub proof fn lemma_sqrt_floor_exists(n: int)
    requires
        0 <= n,
    ensures
        exists|q: int| 0 <= q && #[trigger] (q * q) <= n && n < (q + 1) * (q + 1),
    decreases n,
{
    if n == 0 {
        let q0: int = 0;
        assert(0 <= q0 && q0 * q0 <= n && n < (q0 + 1) * (q0 + 1));
    } else {
        lemma_sqrt_floor_exists(n - 1);
        let q = choose|q: int| 0 <= q && #[trigger] (q * q) <= n - 1 && n - 1 < (q + 1) * (q + 1);
        if (q + 1) * (q + 1) <= n {
            assert(n < (q + 2) * (q + 2)) by (nonlinear_arith)
                requires
                    0 <= q,
                    n - 1 < (q + 1) * (q + 1),
            ;
            assert(0 <= q + 1 && (q + 1) * (q + 1) <= n && n < ((q + 1) + 1) * ((q + 1) + 1));
        } else {
            assert(0 <= q && q * q <= n && n < (q + 1) * (q + 1));
        }
    }
}

/// How many objects of the sequence carry the given role.
pub open spec fn count_role(objs: Seq<GeometryObject>, role: Role) -> int
    decreases objs.len(),
{
    if objs.len() == 0 {
        0
    } else {
        count_role(objs.drop_last(), role) + if objs.last().role == role {
            1int
        } else {
            0int
        }
    }
}

/// How many paddle objects carry the player-side name.
pub open spec fn count_player_paddles(objs: Seq<GeometryObject>) -> int
    decreases objs.len(),
{
    if objs.len() == 0 {
        0
    } else {
        count_player_paddles(objs.drop_last()) + if objs.last().role is Paddle
            && is_player_name(objs.last().name@) {
            1int
        } else {
            0int
        }
    }
}

/// How many paddle objects carry the machine-side name.
pub open spec fn count_ai_paddles(objs: Seq<GeometryObject>) -> int
    decreases objs.len(),
{
    if objs.len() == 0 {
        0
    } else {
        count_ai_paddles(objs.drop_last()) + if objs.last().role is Paddle
            && is_ai_name(objs.last().name@) {
            1int
        } else {
            0int
        }
    }
}

/// Whether some object of the given role carries a shape that does not fit it.
pub open spec fn has_misshaped(objs: Seq<GeometryObject>, role: Role) -> bool
    decreases objs.len(),
{
    if objs.len() == 0 {
        false
    } else {
        has_misshaped(objs.drop_last(), role) || (objs.last().role == role && !shape_fits_role(
            objs.last(),
        ))
    }
}

/// Whether some paddle object's name names neither side.
pub open spec fn has_unknown_paddle_name(objs: Seq<GeometryObject>) -> bool
    decreases objs.len(),
{
    if objs.len() == 0 {
        false
    } else {
        has_unknown_paddle_name(objs.drop_last()) || (objs.last().role is Paddle
            && !known_paddle_name(objs.last().name@))
    }
}

/// A level description the core accepts: every shape fits its role, every
/// paddle names a side, and there is exactly one paddle per side and exactly
/// one ball.  Walls may number zero or more.
pub open spec fn level_ok(objs: Seq<GeometryObject>) -> bool {
    &&& !has_misshaped(objs, Role::Wall)
    &&& !has_misshaped(objs, Role::Paddle)
    &&& !has_misshaped(objs, Role::Ball)
    &&& !has_unknown_paddle_name(objs)
    &&& count_player_paddles(objs) == 1
    &&& count_ai_paddles(objs) == 1
    &&& count_role(objs, Role::Ball) == 1
}

/// The error a rejected level is reported with, checked in this order: shape
/// defects first (walls, then paddles), then unknown paddle names, then the
/// ball's shape, then paddle multiplicity, then ball multiplicity.
pub open spec fn level_error_of(objs: Seq<GeometryObject>) -> LevelError {
    if has_misshaped(objs, Role::Wall) {
        LevelError::WallNotRect
    } else if has_misshaped(objs, Role::Paddle) {
        LevelError::PaddleNotRect
    } else if has_unknown_paddle_name(objs) {
        LevelError::UnknownPaddleName
    } else if has_misshaped(objs, Role::Ball) {
        LevelError::BallNotEllipse
    } else if count_player_paddles(objs) > 1 || count_ai_paddles(objs) > 1 {
        LevelError::DuplicatePaddle
    } else if count_player_paddles(objs) == 0 || count_ai_paddles(objs) == 0 {
        LevelError::MissingPaddle
    } else if count_role(objs, Role::Ball) > 1 {
        LevelError::DuplicateBall
    } else {
        LevelError::MissingBall
    }
}

/// Build the box descriptor for a wall or paddle object, as
/// `spec_box_body` says; a non-rectangle shape yields nothing.
pub fn box_body(object: &GeometryObject, dynamic: bool) -> (r: Option<Body>)
    requires
        object.wf(),
    ensures
        object.shape is Rect ==> r == Some(spec_box_body(*object, dynamic)),
        !(object.shape is Rect) ==> r is None,
{
    match object.shape {
        ObjShape::Rect { width, height } => {
            let hx: i64 = width / 2;
            let hy: i64 = height / 2;
            Some(
                Body {
                    shape: BodyShape::Box { hx, hy },
                    dynamic,
                    zero_inv_mass: false,
                    pos: Vec2 { x: object.x + hx, y: object.y + hy },
                    vel: Vec2 { x: 0, y: 0 },
                    is_wall: false,
                },
            )
        },
        _ => None,
    }
}

/// Build the ball descriptor for a ball object, as `spec_ball_body` says; a
/// non-ellipse shape yields nothing.
pub fn ball_body(object: &GeometryObject) -> (r: Option<Body>)
    requires
        object.wf(),
    ensures
        object.shape is Ellipse ==> r == Some(spec_ball_body(*object)),
        !(object.shape is Ellipse) ==> r is None,
{
    match object.shape {
        ObjShape::Ellipse { width, height } => {
            proof {
                lemma_ball_radius_bounds(*object);
                assert(width * width + height * height <= 2_000_000_000_000_000_000)
                    by (nonlinear_arith)
                    requires
                        0 <= width <= 1_000_000_000,
                        0 <= height <= 1_000_000_000,
                ;
            }
            let sq: i64 = width * width + height * height;
            let root: u64 = isqrt(sq as u64);
            proof {
                assert(root * root <= sq as u64);
                assert(root <= 1_500_000_000) by (nonlinear_arith)
                    requires
                        root * root <= 2_000_000_000_000_000_000u64,
                ;
            }
            let radius: i64 = (root / 2) as i64;
            assert(radius == spec_ball_radius(*object));
            Some(
                Body {
                    shape: BodyShape::Circle { radius },
                    dynamic: true,
                    zero_inv_mass: false,
                    pos: Vec2 { x: object.x + radius, y: object.y + radius },
                    vel: Vec2 { x: BALL_SPEED, y: 0 },
                    is_wall: false,
                },
            )
        },
        _ => None,
    }
}

} // verus!
