//! The simulation state and loop: validated construction from level geometry,
//! key-event handling, and the fixed-timestep frame that smooths the player
//! paddle's velocity toward the input axis and writes it into the player
//! paddle's body — and into nothing else.

use crate::factory::{
    ball_body, body_of, box_body, count_ai_paddles, count_player_paddles, count_role,
    has_misshaped, has_unknown_paddle_name, is_ai_name, is_player_name, lemma_body_of_wf,
    level_error_of, level_ok, LevelError,
};
use crate::geometry::{objects_wf, GeometryObject, Role};
use crate::input::{
    lemma_lerp_toward_between, lemma_smooth_iter_step, lerp_toward, smooth_iter, Key,
};
use crate::timing::FrameTimer;
use crate::world::{with_vel, Body, Vec2, World};
use crate::{PADDLE_SPEED, SMOOTH_DEN, SMOOTH_NUM, STEP_MICROS};
use vstd::prelude::*;

verus! {

/// A controller-side paddle: its smoothed vertical velocity and the handle of
/// its physics body.
#[derive(Clone, Copy, PartialEq, Eq, Structural, Debug)]
pub struct Paddle {
    pub dy: i64,
    pub handle: usize,
}

/// The whole simulation state: the world model, the fixed-step accumulator,
/// the input axis, the two paddles and the ball handle.
pub struct SimState {
    pub world: World,
    pub timer: FrameTimer,
    pub axis: i64,
    pub player: Paddle,
    pub ai: Paddle,
    pub ball: usize,
}

impl SimState {
    /// The state's invariant: a well-formed world and accumulator, an axis in
    /// `{-1, 0, 1}`, paddle velocities within the target speed, and three
    /// distinct in-range body handles.
    pub open spec fn wf(self) -> bool {
        &&& self.world.wf()
        &&& self.timer.wf()
        &&& -1 <= self.axis <= 1
        &&& -PADDLE_SPEED <= self.player.dy <= PADDLE_SPEED
        &&& -PADDLE_SPEED <= self.ai.dy <= PADDLE_SPEED
        &&& self.player.handle < self.world.bodies@.len()
        &&& self.ai.handle < self.world.bodies@.len()
        &&& self.ball < self.world.bodies@.len()
        &&& self.player.handle != self.ai.handle
        &&& self.player.handle != self.ball
        &&& self.ai.handle != self.ball
    }

    /// Build the simulation from a level description.  A valid level — every
    /// shape fitting its role, every paddle naming a side, one paddle per
    /// side, one ball — yields the fresh state: one body per object in object
    /// order, handles on the player paddle, machine paddle and ball, axis and
    /// velocities at zero, nothing banked in the accumulator.  Any other
    /// level is refused with the error `level_error_of` names.
    pub fn new(objects: &Vec<GeometryObject>) -> (r: Result<SimState, LevelError>)
        requires
            objects_wf(objects@),
        ensures
            r is Ok <==> level_ok(objects@),
            r matches Err(e) ==> e == level_error_of(objects@),
            r matches Ok(s) ==> {
                &&& s.wf()
                &&& s.world.bodies@ == objects@.map_values(|o: GeometryObject| body_of(o))
                &&& s.player.handle < objects@.len()
                &&& objects@[s.player.handle as int].role is Paddle
                &&& is_player_name(objects@[s.player.handle as int].name@)
                &&& s.ai.handle < objects@.len()
                &&& objects@[s.ai.handle as int].role is Paddle
                &&& is_ai_name(objects@[s.ai.handle as int].name@)
                &&& s.ball < objects@.len()
                &&& objects@[s.ball as int].role is Ball
                &&& s.axis == 0
                &&& s.player.dy == 0
                &&& s.ai.dy == 0
                &&& s.timer.acc_micros == 0
            },
    {
        let player_name: String = "player_paddle".to_owned();
        let ai_name: String = "ai_paddle".to_owned();
        let mut world: World = World::new();
        let mut player_h: Option<usize> = None;
        let mut ai_h: Option<usize> = None;
        let mut ball_h: Option<usize> = None;
        let mut np: usize = 0;
        let mut na: usize = 0;
        let mut nb: usize = 0;
        let mut wall_bad: bool = false;
        let mut paddle_bad: bool = false;
        let mut name_bad: bool = false;
        let mut ball_bad: bool = false;
        let n: usize = objects.len();
        let mut i: usize = 0;
        while i < n
            invariant
                i <= n,
                n == objects@.len(),
                objects_wf(objects@),
                player_name@ == "player_paddle"@,
                ai_name@ == "ai_paddle"@,
                np == count_player_paddles(objects@.take(i as int)),
                na == count_ai_paddles(objects@.take(i as int)),
                nb == count_role(objects@.take(i as int), Role::Ball),
                np <= i && na <= i && nb <= i,
                wall_bad == has_misshaped(objects@.take(i as int), Role::Wall),
                paddle_bad == has_misshaped(objects@.take(i as int), Role::Paddle),
                ball_bad == has_misshaped(objects@.take(i as int), Role::Ball),
                name_bad == has_unknown_paddle_name(objects@.take(i as int)),
                world.bodies@.len() <= i,
                (!wall_bad && !paddle_bad && !name_bad && !ball_bad) ==> {
                    &&& world.bodies@ == objects@.take(i as int).map_values(
                        |o: GeometryObject| body_of(o),
                    )
                    &&& world.wf()
                    &&& (player_h is Some <==> np >= 1)
                    &&& (ai_h is Some <==> na >= 1)
                    &&& (ball_h is Some <==> nb >= 1)
                    &&& (player_h matches Some(h) ==> h < world.bodies@.len()
                        && objects@[h as int].role is Paddle && is_player_name(
                        objects@[h as int].name@,
                    ))
                    &&& (ai_h matches Some(h) ==> h < world.bodies@.len()
                        && objects@[h as int].role is Paddle && is_ai_name(
                        objects@[h as int].name@,
                    ))
                    &&& (ball_h matches Some(h) ==> h < world.bodies@.len()
                        && objects@[h as int].role is Ball)
                },
            decreases n - i,
        {
            let object: &GeometryObject = &objects[i];
            proof {
                assert(objects@[i as int].wf());
            }
            match object.role {
                Role::Wall => {
                    match box_body(object, false) {
                        Some(b) => {
                            let wall: Body = Body { is_wall: true, ..b };
                            proof {
                                lemma_body_of_wf(objects@[i as int]);
                                assert(wall == body_of(objects@[i as int]));
                            }
                            let _h: usize = world.add_body(wall);
                        },
                        None => {
                            wall_bad = true;
                        },
                    }
                },
                Role::Paddle => {
                    let is_p: bool = object.name.eq(&player_name);
                    let is_a: bool = object.name.eq(&ai_name);
                    if is_p {
                        np = np + 1;
                    }
                    if is_a {
                        na = na + 1;
                    }
                    if !is_p && !is_a {
                        name_bad = true;
                    }
                    match box_body(object, true) {
                        Some(b) => {
                            let paddle: Body = Body { zero_inv_mass: true, ..b };
                            proof {
                                lemma_body_of_wf(objects@[i as int]);
                                assert(paddle == body_of(objects@[i as int]));
                            }
                            let h: usize = world.add_body(paddle);
                            if is_p {
                                player_h = Some(h);
                            }
                            if is_a {
                                ai_h = Some(h);
                            }
                        },
                        None => {
                            paddle_bad = true;
                        },
                    }
                },
                Role::Ball => {
                    nb = nb + 1;
                    match ball_body(object) {
                        Some(b) => {
                            proof {
                                lemma_body_of_wf(objects@[i as int]);
                                assert(b == body_of(objects@[i as int]));
                            }
                            let h: usize = world.add_body(b);
                            ball_h = Some(h);
                        },
                        None => {
                            ball_bad = true;
                        },
                    }
                },
            }
            proof {
                let pre = objects@.take(i as int);
                let post = objects@.take(i as int + 1);
                assert(post.drop_last() =~= pre);
                assert(post.last() == objects@[i as int]);
                if !wall_bad && !paddle_bad && !name_bad && !ball_bad {
                    assert(world.bodies@ =~= post.map_values(|o: GeometryObject| body_of(o)));
                }
            }
            i = i + 1;
        }
        proof {
            assert(objects@.take(n as int) =~= objects@);
        }
        if wall_bad {
            Err(LevelError::WallNotRect)
        } else if paddle_bad {
            Err(LevelError::PaddleNotRect)
        } else if name_bad {
            Err(LevelError::UnknownPaddleName)
        } else if ball_bad {
            Err(LevelError::BallNotEllipse)
        } else if np > 1 || na > 1 {
            Err(LevelError::DuplicatePaddle)
        } else if np == 0 || na == 0 {
            Err(LevelError::MissingPaddle)
        } else if nb > 1 {
            Err(LevelError::DuplicateBall)
        } else if nb == 0 {
            Err(LevelError::MissingBall)
        } else {
            match (player_h, ai_h, ball_h) {
                (Some(ph), Some(ah), Some(bh)) => {
                    proof {
                        if ph == ah {
                            reveal_strlit("player_paddle");
                            reveal_strlit("ai_paddle");
                            assert("player_paddle"@.len() == 13);
                            assert("ai_paddle"@.len() == 9);
                            assert(false);
                        }
                    }
                    Ok(
                        SimState {
                            world,
                            timer: FrameTimer::new(),
                            axis: 0,
                            player: Paddle { dy: 0, handle: ph },
                            ai: Paddle { dy: 0, handle: ah },
                            ball: bh,
                        },
                    )
                },
                _ => {
                    proof {
                        assert(false);
                    }
                    Err(LevelError::MissingBall)
                },
            }
        }
    }

    /// Handle a key press: up and down set the target axis, quit asks the
    /// caller to stop, anything else is ignored.  Nothing but the axis moves.
    pub fn key_down(&mut self, key: Key) -> (quit: bool)
        requires
            old(self).wf(),
        ensures
            final(self).wf(),
            quit == (key is Quit),
            final(self).axis == match key {
                Key::Up => -1i64,
                Key::Down => 1i64,
                _ => old(self).axis,
            },
            final(self).world.bodies@ == old(self).world.bodies@,
            final(self).player == old(self).player,
            final(self).ai == old(self).ai,
            final(self).ball == old(self).ball,
            final(self).timer == old(self).timer,
    {
        match key {
            Key::Up => {
                self.axis = -1;
                false
            },
            Key::Down => {
                self.axis = 1;
                false
            },
            Key::Quit => true,
            Key::Other => false,
        }
    }

    /// Handle any key release: the axis resets to idle, whichever key it was.
    /// Nothing but the axis moves.
    pub fn key_up(&mut self)
        requires
            old(self).wf(),
        ensures
            final(self).wf(),
            final(self).axis == 0,
            final(self).world.bodies@ == old(self).world.bodies@,
            final(self).player == old(self).player,
            final(self).ai == old(self).ai,
            final(self).ball == old(self).ball,
            final(self).timer == old(self).timer,
    {
        self.axis = 0;
    }

    /// Run one frame: bank the elapsed time and, for each whole fixed step it
    /// pays for, smooth the player paddle's velocity one step toward
    /// `axis * PADDLE_SPEED` and write it — vertical component only, the
    /// horizontal forced to zero — into the player paddle's body.  No other
    /// body changes in any way: in particular the machine-side paddle's body,
    /// velocity included, is exactly what it was, whatever the axis and
    /// however many steps run.  Zero steps leave the world untouched and the
    /// excess time banked.
    pub fn run_frame(&mut self, elapsed_micros: u64) -> (steps: u64)
        requires
            old(self).wf(),
            elapsed_micros <= u64::MAX - STEP_MICROS,
        ensures
            final(self).wf(),
            steps == (old(self).timer.acc_micros + elapsed_micros) as int / STEP_MICROS as int,
            final(self).timer.acc_micros == (old(self).timer.acc_micros + elapsed_micros) as int
                % STEP_MICROS as int,
            final(self).axis == old(self).axis,
            final(self).player.handle == old(self).player.handle,
            final(self).ai == old(self).ai,
            final(self).ball == old(self).ball,
            final(self).player.dy == smooth_iter(
                old(self).player.dy as int,
                old(self).axis * PADDLE_SPEED,
                SMOOTH_NUM as int,
                SMOOTH_DEN as int,
                steps as nat,
            ),
            final(self).world.bodies@.len() == old(self).world.bodies@.len(),
            forall|i: int|
                0 <= i < old(self).world.bodies@.len() && i != old(self).player.handle as int
                    ==> final(self).world.bodies@[i] == old(self).world.bodies@[i],
            steps > 0 ==> final(self).world.bodies@[old(self).player.handle as int] == with_vel(
                old(self).world.bodies@[old(self).player.handle as int],
                Vec2 { x: 0, y: final(self).player.dy },
            ),
            steps == 0 ==> final(self).world.bodies@ == old(self).world.bodies@,
    {
        let steps: u64 = self.timer.begin_frame(elapsed_micros);
        let target: i64 = self.axis * PADDLE_SPEED;
        let ghost g0: SimState = *self;
        let mut k: u64 = 0;
        while k < steps
            invariant
                k <= steps,
                g0.wf(),
                -PADDLE_SPEED <= target <= PADDLE_SPEED,
                target == g0.axis * PADDLE_SPEED,
                self.timer == g0.timer,
                self.axis == g0.axis,
                self.player.handle == g0.player.handle,
                self.ai == g0.ai,
                self.ball == g0.ball,
                -PADDLE_SPEED <= self.player.dy <= PADDLE_SPEED,
                self.player.dy == smooth_iter(
                    g0.player.dy as int,
                    target as int,
                    SMOOTH_NUM as int,
                    SMOOTH_DEN as int,
                    k as nat,
                ),
                self.world.wf(),
                self.world.bodies@.len() == g0.world.bodies@.len(),
                forall|i: int|
                    0 <= i < g0.world.bodies@.len() && i != g0.player.handle as int
                        ==> self.world.bodies@[i] == g0.world.bodies@[i],
                k > 0 ==> self.world.bodies@[g0.player.handle as int] == with_vel(
                    g0.world.bodies@[g0.player.handle as int],
                    Vec2 { x: 0, y: self.player.dy },
                ),
                k == 0 ==> self.world.bodies@ == g0.world.bodies@,
            decreases steps - k,
        {
            proof {
                lemma_lerp_toward_between(
                    self.player.dy as int,
                    target as int,
                    SMOOTH_NUM as int,
                    SMOOTH_DEN as int,
                );
                lemma_smooth_iter_step(
                    g0.player.dy as int,
                    target as int,
                    SMOOTH_NUM as int,
                    SMOOTH_DEN as int,
                    k as nat,
                );
            }
            self.player.dy = lerp_toward(self.player.dy, target, SMOOTH_NUM, SMOOTH_DEN);
            let vel: Vec2 = Vec2 { x: 0, y: self.player.dy };
            self.world.set_lin_vel(self.player.handle, vel);
            k = k + 1;
        }
        steps
    }
}

/// How many bodies of the sequence carry the wall marker.
pub open spec fn count_wall_bodies(bodies: Seq<Body>) -> int
    decreases bodies.len(),
{
    if bodies.len() == 0 {
        0
    } else {
        count_wall_bodies(bodies.drop_last()) + if bodies.last().is_wall {
            1int
        } else {
            0int
        }
    }
}

/// The factory marks exactly the wall objects' bodies as walls, so a built
/// level holds one wall body per wall object.
pub proof fn lemma_wall_bodies_match_wall_objects(objs: Seq<GeometryObject>)
    ensures
        count_wall_bodies(objs.map_values(|o: GeometryObject| body_of(o))) == count_role(
            objs,
            Role::Wall,
        ),
    decreases objs.len(),
{
    let f = |o: GeometryObject| body_of(o);
    if objs.len() == 0 {
        assert(objs.map_values(f) =~= Seq::<Body>::empty());
    } else {
        lemma_wall_bodies_match_wall_objects(objs.drop_last());
        assert(objs.drop_last().map_values(f) =~= objs.map_values(f).drop_last());
        assert(objs.map_values(f).last() == f(objs.last()));
        assert(body_of(objs.last()).is_wall <==> objs.last().role is Wall);
    }
}

/// What a valid level's construction yields: the three handles address three
/// distinct bodies (the paddle sides cannot share one, and the ball is no
/// paddle), there is exactly one ball object, and the world holds exactly one
/// wall body per wall object.
pub proof fn lemma_valid_level_construction(objs: Seq<GeometryObject>, s: SimState)
    requires
        level_ok(objs),
        s.world.bodies@ == objs.map_values(|o: GeometryObject| body_of(o)),
        s.player.handle < objs.len(),
        objs[s.player.handle as int].role is Paddle,
        is_player_name(objs[s.player.handle as int].name@),
        s.ai.handle < objs.len(),
        objs[s.ai.handle as int].role is Paddle,
        is_ai_name(objs[s.ai.handle as int].name@),
        s.ball < objs.len(),
        objs[s.ball as int].role is Ball,
    ensures
        s.player.handle != s.ai.handle,
        s.player.handle != s.ball,
        s.ai.handle != s.ball,
        count_wall_bodies(s.world.bodies@) == count_role(objs, Role::Wall),
        count_role(objs, Role::Ball) == 1,
{
    lemma_wall_bodies_match_wall_objects(objs);
    if s.player.handle == s.ai.handle {
        reveal_strlit("player_paddle");
        reveal_strlit("ai_paddle");
        assert("player_paddle"@.len() == 13);
        assert("ai_paddle"@.len() == 9);
        assert(false);
    }
}

/// A level with no ball object is not valid, so construction refuses it.
pub proof fn lemma_missing_ball_invalid(objs: Seq<GeometryObject>)
    requires
        count_role(objs, Role::Ball) == 0,
    ensures
        !level_ok(objs),
{
}

} // verus!
