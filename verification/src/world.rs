//! A model of the physics world's observable state: the bodies it holds, each
//! with shape, transform, velocity and render marker.  The collision engine
//! itself is an outside capability; it owns the real bodies, and this model
//! records what the simulation core reads and writes of them: descriptors on
//! insertion, velocities written by the input controller, and positions read
//! back for presentation.

use crate::{GEOM_LIMIT, VEL_LIMIT};
use vstd::prelude::*;

verus! {

/// A two-dimensional vector in level units.
#[derive(Clone, Copy, PartialEq, Eq, Structural, Debug)]
pub struct Vec2 {
    pub x: i64,
    pub y: i64,
}

/// Collision shape of a body: an axis-aligned box given by half-extents, a
/// circle given by its radius, or a shape this core does not render.
#[derive(Clone, Copy, PartialEq, Eq, Structural, Debug)]
pub enum BodyShape {
    Box { hx: i64, hy: i64 },
    Circle { radius: i64 },
    Unsupported,
}

impl BodyShape {
    /// Extents are nonnegative and bounded.
    pub open spec fn wf(self) -> bool {
        match self {
            BodyShape::Box { hx, hy } => 0 <= hx <= GEOM_LIMIT && 0 <= hy <= GEOM_LIMIT,
            BodyShape::Circle { radius } => 0 <= radius <= GEOM_LIMIT,
            BodyShape::Unsupported => true,
        }
    }
}

/// A physics body as the core sees it: shape, dynamic/static flag, an
/// effectively-infinite-mass flag (zero inverse mass: immovable by collision
/// impulses yet free to be assigned a velocity), center position, linear
/// velocity, and the wall marker used for render classification.
#[derive(Clone, Copy, PartialEq, Eq, Structural, Debug)]
pub struct Body {
    pub shape: BodyShape,
    pub dynamic: bool,
    pub zero_inv_mass: bool,
    pub pos: Vec2,
    pub vel: Vec2,
    pub is_wall: bool,
}

impl Body {
    /// Shape, position and velocity are within machine-safe bounds.
    pub open spec fn wf(self) -> bool {
        &&& self.shape.wf()
        &&& -2 * GEOM_LIMIT <= self.pos.x <= 2 * GEOM_LIMIT
        &&& -2 * GEOM_LIMIT <= self.pos.y <= 2 * GEOM_LIMIT
        &&& -VEL_LIMIT <= self.vel.x <= VEL_LIMIT
        &&& -VEL_LIMIT <= self.vel.y <= VEL_LIMIT
    }
}

/// The body `b` with its linear velocity replaced by `v`.
pub open spec fn with_vel(b: Body, v: Vec2) -> Body {
    Body { vel: v, ..b }
}

/// The body `b` with its center position replaced by `p`.
pub open spec fn with_pos(b: Body, p: Vec2) -> Body {
    Body { pos: p, ..b }
}

/// The world model: the sequence of bodies, addressed by insertion index.
pub struct World {
    pub bodies: Vec<Body>,
}

impl World {
    /// Every body is well formed.
    pub open spec fn wf(self) -> bool {
        forall|i: int| 0 <= i < self.bodies@.len() ==> (#[trigger] self.bodies@[i]).wf()
    }

    /// An empty world.
    pub fn new() -> (w: World)
        ensures
            w.bodies@ == Seq::<Body>::empty(),
            w.wf(),
    {
        World { bodies: Vec::new() }
    }

    /// The number of bodies held.
    pub fn len(&self) -> (n: usize)
        ensures
            n == self.bodies@.len(),
    {
        self.bodies.len()
    }

    /// Read one body.
    pub fn body(&self, handle: usize) -> (b: &Body)
        requires
            handle < self.bodies@.len(),
        ensures
            *b == self.bodies@[handle as int],
    {
        &self.bodies[handle]
    }

    /// Insert a body and hand back its handle.
    pub fn add_body(&mut self, b: Body) -> (handle: usize)
        requires
            old(self).bodies@.len() < usize::MAX,
        ensures
            final(self).bodies@ == old(self).bodies@.push(b),
            handle == old(self).bodies@.len(),
            old(self).wf() && b.wf() ==> final(self).wf(),
    {
        let handle: usize = self.bodies.len();
        self.bodies.push(b);
        proof {
            if old(self).wf() && b.wf() {
                assert forall|i: int| 0 <= i < self.bodies@.len() implies (
                #[trigger] self.bodies@[i]).wf() by {
                    if i < old(self).bodies@.len() {
                        assert(self.bodies@[i] == old(self).bodies@[i]);
                    }
                }
            }
        }
        handle
    }

    /// Overwrite one body's linear velocity, leaving every other body and
    /// every other field of this body unchanged.
    pub fn set_lin_vel(&mut self, handle: usize, vel: Vec2)
        requires
            old(self).wf(),
            handle < old(self).bodies@.len(),
            -VEL_LIMIT <= vel.x <= VEL_LIMIT,
            -VEL_LIMIT <= vel.y <= VEL_LIMIT,
        ensures
            final(self).bodies@ == old(self).bodies@.update(
                handle as int,
                with_vel(old(self).bodies@[handle as int], vel),
            ),
            final(self).wf(),
    {
        let b: Body = self.bodies[handle];
        self.bodies[handle] = Body { vel, ..b };
        proof {
            assert forall|i: int| 0 <= i < self.bodies@.len() implies (
            #[trigger] self.bodies@[i]).wf() by {
                if i != handle as int {
                    assert(self.bodies@[i] == old(self).bodies@[i]);
                }
            }
        }
    }

    /// Overwrite one body's center position, leaving every other body and
    /// every other field of this body unchanged.  The outside collision engine
    /// owns positions during stepping; this is how its results are recorded in
    /// the model.
    pub fn set_position(&mut self, handle: usize, pos: Vec2)
        requires
            old(self).wf(),
            handle < old(self).bodies@.len(),
            -2 * GEOM_LIMIT <= pos.x <= 2 * GEOM_LIMIT,
            -2 * GEOM_LIMIT <= pos.y <= 2 * GEOM_LIMIT,
        ensures
            final(self).bodies@ == old(self).bodies@.update(
                handle as int,
                with_pos(old(self).bodies@[handle as int], pos),
            ),
            final(self).wf(),
    {
        let b: Body = self.bodies[handle];
        self.bodies[handle] = Body { pos, ..b };
        proof {
            assert forall|i: int| 0 <= i < self.bodies@.len() implies (
            #[trigger] self.bodies@[i]).wf() by {
                if i != handle as int {
                    assert(self.bodies@[i] == old(self).bodies@[i]);
                }
            }
        }
    }
}

} // verus!
