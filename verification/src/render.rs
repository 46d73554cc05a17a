//! The presentation adapter: a pure read of the world that classifies each
//! body by shape and wall marker and emits one draw primitive for it, in body
//! order.  A body whose shape this core does not support yields no primitive.

use crate::world::{Body, BodyShape, World};
use vstd::prelude::*;

verus! {

/// The color a body is drawn in: walls in the wall color, everything else
/// (paddles and ball alike) in the active color.
#[derive(Clone, Copy, PartialEq, Eq, Structural, Debug)]
pub enum ColorClass {
    Wall,
    Active,
}

/// One draw primitive: a filled rectangle given by its top-left corner and
/// full extents, or a filled circle given by its center and radius.
#[derive(Clone, Copy, PartialEq, Eq, Structural, Debug)]
pub enum Primitive {
    Rect { x: i64, y: i64, w: i64, h: i64, color: ColorClass },
    Circle { cx: i64, cy: i64, radius: i64, color: ColorClass },
}

/// The color class a body is rendered in.
pub open spec fn spec_color_of(b: Body) -> ColorClass {
    if b.is_wall {
        ColorClass::Wall
    } else {
        ColorClass::Active
    }
}

/// The primitive a body yields: a box becomes a rectangle whose top-left
/// corner is the center minus the half-extents and whose size is the full
/// extents; a circle stays a circle at the center; an unsupported shape
/// yields nothing.
pub open spec fn spec_primitive_for(b: Body) -> Option<Primitive> {
    match b.shape {
        BodyShape::Box { hx, hy } => Some(
            Primitive::Rect {
                x: (b.pos.x - hx) as i64,
                y: (b.pos.y - hy) as i64,
                w: (2 * hx) as i64,
                h: (2 * hy) as i64,
                color: spec_color_of(b),
            },
        ),
        BodyShape::Circle { radius } => Some(
            Primitive::Circle { cx: b.pos.x, cy: b.pos.y, radius, color: spec_color_of(b) },
        ),
        BodyShape::Unsupported => None,
    }
}

/// The primitives of a sequence of bodies, one per supported body, in order.
pub open spec fn spec_render(bodies: Seq<Body>) -> Seq<Primitive>
    decreases bodies.len(),
{
    if bodies.len() == 0 {
        Seq::empty()
    } else {
        spec_render(bodies.drop_last()) + match spec_primitive_for(bodies.last()) {
            Some(p) => seq![p],
            None => Seq::empty(),
        }
    }
}

/// Classify one body, exactly as `spec_primitive_for` says.
pub fn primitive_for(b: &Body) -> (r: Option<Primitive>)
    requires
        b.wf(),
    ensures
        r == spec_primitive_for(*b),
{
    let color = if b.is_wall {
        ColorClass::Wall
    } else {
        ColorClass::Active
    };
    match b.shape {
        BodyShape::Box { hx, hy } => Some(
            Primitive::Rect { x: b.pos.x - hx, y: b.pos.y - hy, w: 2 * hx, h: 2 * hy, color },
        ),
        BodyShape::Circle { radius } => Some(
            Primitive::Circle { cx: b.pos.x, cy: b.pos.y, radius, color },
        ),
        BodyShape::Unsupported => None,
    }
}

/// Emit the draw primitives for every body the world holds, in body order,
/// exactly as `spec_render` says.  The world is only read.
pub fn render_world(w: &World) -> (r: Vec<Primitive>)
    requires
        w.wf(),
    ensures
        r@ == spec_render(w.bodies@),
{
    let mut out: Vec<Primitive> = Vec::new();
    let n: usize = w.len();
    let mut i: usize = 0;
    while i < n
        invariant
            i <= n,
            n == w.bodies@.len(),
            w.wf(),
            out@ == spec_render(w.bodies@.take(i as int)),
        decreases n - i,
    {
        let b: &Body = w.body(i);
        match primitive_for(b) {
            Some(p) => {
                out.push(p);
            },
            None => {},
        }
        proof {
            let pre = w.bodies@.take(i as int);
            let post = w.bodies@.take(i + 1int);
            assert(post.drop_last() =~= pre);
            assert(post.last() == w.bodies@[i as int]);
            match spec_primitive_for(w.bodies@[i as int]) {
                Some(p) => {
                    assert(out@ =~= spec_render(pre) + seq![p]);
                },
                None => {
                    assert(out@ =~= spec_render(pre) + Seq::<Primitive>::empty());
                },
            }
        }
        i = i + 1;
    }
    proof {
        assert(w.bodies@.take(n as int) =~= w.bodies@);
    }
    out
}

/// Classification is a pure function of body state: rendering the same
/// unchanged world twice yields the same primitive sequence, because
/// `render_world` is pinned to `spec_render` of the bodies it reads.
pub proof fn lemma_render_idempotent(first: Seq<Body>, second: Seq<Body>)
    requires
        first == second,
    ensures
        spec_render(first) == spec_render(second),
{
}

} // verus!
