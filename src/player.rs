use crate::geometry::{fits_i16, Point};
use vstd::prelude::*;

verus! {

/// Height of the playing field.
pub const HEIGHT: i16 = 600;

/// The `y` of a player standing on the ground.
pub const FLOOR: i16 = 479;

pub const PLAYER_HEIGHT: i16 = HEIGHT - FLOOR;

pub const STARTING_POINT: i16 = -20;

pub const IDLE_FRAME_NAME: &'static str = "Idle";

pub const IDLE_FRAMES: u8 = 29;

pub const RUN_FRAME_NAME: &'static str = "Run";

pub const RUN_FRAMES: u8 = 23;

pub const RUN_SPEED: i16 = 4;

pub const SLIDING_FRAME_NAME: &'static str = "Slide";

pub const SLIDING_FRAMES: u8 = 14;

pub const JUMPING_FRAME_NAME: &'static str = "Jump";

pub const JUMPING_FRAMES: u8 = 35;

pub const JUMP_SPEED: i16 = -25;

pub const GRAVITY: i16 = 1;

pub const TERMINAL_VELOCITY: i16 = 20;

pub const FALLING_FRAMES: u8 = 29;

pub const FALLING_FRAME_NAME: &'static str = "Dead";

/// The lowest top of anything the player may land on. Above it every later
/// flight of the player stays well inside `i16`.
pub const LOWEST_TOP: i16 = -16000;

/// How far a jump at `JUMP_SPEED` lifts the player before gravity turns it.
pub const MAX_RISE: i16 = 300;

/// How much higher the player will still get while moving up at speed `v`:
/// under gravity the speeds to come are `v + 1, v + 2, ..., -1`.
pub open spec fn rise(v: int) -> int
    decreases -v,
{
    if v >= -1 {
        0
    } else {
        (-v - 1) + rise(v + 1)
    }
}

/// The lowest `y` a player on the ground, sliding or idle can come to reach.
pub open spec fn ground_low() -> int {
    LOWEST_TOP - PLAYER_HEIGHT - MAX_RISE
}

/// The lowest `y` a player in the air or knocked out can come to reach.
pub open spec fn air_low() -> int {
    ground_low() - MAX_RISE
}

pub proof fn lemma_rise_range(v: int)
    requires
        JUMP_SPEED <= v,
    ensures
        0 <= rise(v) <= MAX_RISE,
        v == JUMP_SPEED ==> rise(v) == MAX_RISE,
    decreases v - JUMP_SPEED,
{
    if v == JUMP_SPEED {
        reveal_with_fuel(rise, 26);
    } else {
        lemma_rise_range(v - 1);
        lemma_rise_nonneg(v);
    }
}

proof fn lemma_rise_nonneg(v: int)
    ensures
        rise(v) >= 0,
    decreases -v,
{
    if v < -1 {
        lemma_rise_nonneg(v + 1);
    }
}

/// The physics shared by every player state.
#[derive(Clone, Copy, Debug, PartialEq, Eq, Structural)]
pub struct RedHatBoyContext {
    pub frame: u8,
    pub position: Point,
    pub velocity: Point,
}

/// The animation frame after `frame` in a cycle of `count + 1` frames.
pub open spec fn next_frame(frame: u8, count: u8) -> u8 {
    if frame < count {
        (frame + 1) as u8
    } else {
        0
    }
}

/// The vertical speed after one tick of gravity.
pub open spec fn next_velocity_y(v: i16) -> i16 {
    if v < TERMINAL_VELOCITY {
        (v + GRAVITY) as i16
    } else {
        v
    }
}

impl RedHatBoyContext {
    /// One tick of the integration can be computed in `i16`.
    pub open spec fn tick_fits(self) -> bool {
        fits_i16(self.position.y + next_velocity_y(self.velocity.y))
    }

    /// Speed and height are those of a flight that never goes below `low`.
    pub open spec fn flies_above(self, low: int) -> bool {
        &&& JUMP_SPEED <= self.velocity.y <= TERMINAL_VELOCITY
        &&& self.position.y <= i16::MAX - TERMINAL_VELOCITY
        &&& self.position.y - rise(self.velocity.y as int) >= low
    }

    pub open spec fn spec_update(self, frame_count: u8) -> RedHatBoyContext {
        let vy = next_velocity_y(self.velocity.y);
        let y = self.position.y + vy;
        RedHatBoyContext {
            frame: next_frame(self.frame, frame_count),
            position: Point {
                x: self.position.x,
                y: if y > FLOOR {
                    FLOOR
                } else {
                    y as i16
                },
            },
            velocity: Point { x: self.velocity.x, y: vy },
        }
    }

    pub open spec fn spec_run_right(self) -> RedHatBoyContext {
        RedHatBoyContext {
            velocity: Point { x: (self.velocity.x + RUN_SPEED) as i16, y: self.velocity.y },
            ..self
        }
    }

    pub open spec fn spec_set_vertical_velocity(self, y: i16) -> RedHatBoyContext {
        RedHatBoyContext { velocity: Point { x: self.velocity.x, y }, ..self }
    }

    pub open spec fn spec_set_on(self, position: i16) -> RedHatBoyContext {
        RedHatBoyContext {
            position: Point { x: self.position.x, y: (position - PLAYER_HEIGHT) as i16 },
            ..self
        }
    }

    pub open spec fn spec_reset_frames(self) -> RedHatBoyContext {
        RedHatBoyContext { frame: 0, ..self }
    }

    pub open spec fn spec_stop(self) -> RedHatBoyContext {
        RedHatBoyContext { velocity: Point { x: 0, y: 0 }, ..self }
    }

    /// Advances the animation frame, wrapping past `frame_count`, and applies
    /// gravity: the speed grows until terminal, the player moves by it and
    /// never sinks below the floor.
    pub fn update(self, frame_count: u8) -> (r: Self)
        requires
            self.tick_fits(),
        ensures
            r == self.spec_update(frame_count),
    {
        let mut c = self;
        if c.frame < frame_count {
            c.frame = c.frame + 1;
        } else {
            c.frame = 0;
        }
        if c.velocity.y < TERMINAL_VELOCITY {
            c.velocity.y = c.velocity.y + GRAVITY;
        }
        c.position.y = c.position.y + c.velocity.y;
        if c.position.y > FLOOR {
            c.position.y = FLOOR;
        }
        c
    }

    pub fn run_right(self) -> (r: Self)
        requires
            self.velocity.x + RUN_SPEED <= i16::MAX,
        ensures
            r == self.spec_run_right(),
    {
        let mut c = self;
        c.velocity.x = c.velocity.x + RUN_SPEED;
        c
    }

    pub fn set_vertical_velocity(self, y: i16) -> (r: Self)
        ensures
            r == self.spec_set_vertical_velocity(y),
    {
        let mut c = self;
        c.velocity.y = y;
        c
    }

    /// Puts the player's feet on a surface whose top is at `position`.
    pub fn set_on(self, position: i16) -> (r: Self)
        requires
            position - PLAYER_HEIGHT >= i16::MIN,
        ensures
            r == self.spec_set_on(position),
    {
        let mut c = self;
        c.position.y = position - PLAYER_HEIGHT;
        c
    }

    pub fn reset_frames(self) -> (r: Self)
        ensures
            r == self.spec_reset_frames(),
    {
        let mut c = self;
        c.frame = 0;
        c
    }

    pub fn stop(self) -> (r: Self)
        ensures
            r == self.spec_stop(),
    {
        let mut c = self;
        c.velocity.x = 0;
        c.velocity.y = 0;
        c
    }
}

/// A tick keeps a flight above `low` and can be computed.
pub proof fn lemma_update_keeps_flight(c: RedHatBoyContext, frame_count: u8, low: int)
    requires
        c.flies_above(low),
        air_low() <= low <= ground_low(),
    ensures
        c.tick_fits(),
        c.spec_update(frame_count).flies_above(low),
{
    lemma_rise_range(c.velocity.y as int);
    let vy = next_velocity_y(c.velocity.y);
    lemma_rise_range(vy as int);
    if c.velocity.y < -1 {
        assert(rise(c.velocity.y as int) == (-c.velocity.y - 1) + rise(c.velocity.y + 1));
    }
}

/// A landing on a top at or above `LOWEST_TOP` puts the player on the ground.
pub proof fn lemma_landing_on_ground(c: RedHatBoyContext, top: i16)
    requires
        JUMP_SPEED <= c.velocity.y <= TERMINAL_VELOCITY,
        top >= LOWEST_TOP,
    ensures
        c.spec_set_on(top).flies_above(ground_low()),
{
    lemma_rise_range(c.velocity.y as int);
}

#[derive(Clone, Copy, Debug, PartialEq, Eq, Structural)]
pub struct Idle;

#[derive(Clone, Copy, Debug, PartialEq, Eq, Structural)]
pub struct Running;

#[derive(Clone, Copy, Debug, PartialEq, Eq, Structural)]
pub struct Sliding;

#[derive(Clone, Copy, Debug, PartialEq, Eq, Structural)]
pub struct Jumping;

#[derive(Clone, Copy, Debug, PartialEq, Eq, Structural)]
pub struct Falling;

#[derive(Clone, Copy, Debug, PartialEq, Eq, Structural)]
pub struct KnockedOut;

/// The player in the state `S`, with the physics it carries. A transition
/// consumes one state and yields the next.
#[derive(Clone, Copy, Debug)]
pub struct RedHatBoyState<S> {
    context: RedHatBoyContext,
    _state: S,
}

impl<S> RedHatBoyState<S> {
    pub closed spec fn ctx(self) -> RedHatBoyContext {
        self.context
    }

    pub fn context(&self) -> (r: &RedHatBoyContext)
        ensures
            *r == self.ctx(),
    {
        &self.context
    }
}

impl RedHatBoyState<Idle> {
    /// The player at the start of a game: standing on the floor off screen,
    /// at rest.
    pub fn new() -> (r: Self)
        ensures
            r.ctx() == (RedHatBoyContext {
                frame: 0,
                position: Point { x: STARTING_POINT, y: FLOOR },
                velocity: Point { x: 0, y: 0 },
            }),
    {
        RedHatBoyState {
            context: RedHatBoyContext {
                frame: 0,
                position: Point { x: STARTING_POINT, y: FLOOR },
                velocity: Point { x: 0, y: 0 },
            },
            _state: Idle,
        }
    }

    pub fn update(self) -> (r: Self)
        requires
            self.ctx().tick_fits(),
        ensures
            r.ctx() == self.ctx().spec_update(IDLE_FRAMES),
    {
        RedHatBoyState { context: self.context.update(IDLE_FRAMES), _state: Idle }
    }

    pub fn run(self) -> (r: RedHatBoyState<Running>)
        requires
            self.ctx().velocity.x + RUN_SPEED <= i16::MAX,
        ensures
            r.ctx() == self.ctx().spec_reset_frames().spec_run_right(),
    {
        RedHatBoyState { context: self.context.reset_frames().run_right(), _state: Running }
    }

    pub fn frame_name(&self) -> (r: &str)
        ensures
            r@ == IDLE_FRAME_NAME@,
    {
        IDLE_FRAME_NAME
    }
}

impl RedHatBoyState<Running> {
    pub fn update(self) -> (r: Self)
        requires
            self.ctx().tick_fits(),
        ensures
            r.ctx() == self.ctx().spec_update(RUN_FRAMES),
    {
        RedHatBoyState { context: self.context.update(RUN_FRAMES), _state: Running }
    }

    pub fn jump(self) -> (r: RedHatBoyState<Jumping>)
        ensures
            r.ctx() == self.ctx().spec_set_vertical_velocity(JUMP_SPEED).spec_reset_frames(),
    {
        RedHatBoyState {
            context: self.context.set_vertical_velocity(JUMP_SPEED).reset_frames(),
            _state: Jumping,
        }
    }

    pub fn slide(self) -> (r: RedHatBoyState<Sliding>)
        ensures
            r.ctx() == self.ctx().spec_reset_frames(),
    {
        RedHatBoyState { context: self.context.reset_frames(), _state: Sliding }
    }

    pub fn land_on(self, position: i16) -> (r: RedHatBoyState<Running>)
        requires
            position - PLAYER_HEIGHT >= i16::MIN,
        ensures
            r.ctx() == self.ctx().spec_set_on(position),
    {
        RedHatBoyState { context: self.context.set_on(position), _state: Running }
    }

    pub fn knock_out(self) -> (r: RedHatBoyState<Falling>)
        ensures
            r.ctx() == self.ctx().spec_reset_frames().spec_stop(),
    {
        RedHatBoyState { context: self.context.reset_frames().stop(), _state: Falling }
    }

    pub fn frame_name(&self) -> (r: &str)
        ensures
            r@ == RUN_FRAME_NAME@,
    {
        RUN_FRAME_NAME
    }
}

/// Where a tick of sliding leads.
pub enum SlidingEndState {
    Sliding(RedHatBoyState<Sliding>),
    Running(RedHatBoyState<Running>),
}

impl RedHatBoyState<Sliding> {
    /// Slides on; once the slide's frames are used up the player stands.
    pub fn update(self) -> (r: SlidingEndState)
        requires
            self.ctx().tick_fits(),
        ensures
            ({
                let t = self.ctx().spec_update(SLIDING_FRAMES);
                match r {
                    SlidingEndState::Running(s) => t.frame >= SLIDING_FRAMES && s.ctx()
                        == t.spec_reset_frames(),
                    SlidingEndState::Sliding(s) => t.frame < SLIDING_FRAMES && s.ctx() == t,
                }
            }),
    {
        let s = RedHatBoyState { context: self.context.update(SLIDING_FRAMES), _state: Sliding };
        if s.context.frame >= SLIDING_FRAMES {
            SlidingEndState::Running(s.stand())
        } else {
            SlidingEndState::Sliding(s)
        }
    }

    pub fn stand(self) -> (r: RedHatBoyState<Running>)
        ensures
            r.ctx() == self.ctx().spec_reset_frames(),
    {
        RedHatBoyState { context: self.context.reset_frames(), _state: Running }
    }

    pub fn land_on(self, position: i16) -> (r: RedHatBoyState<Sliding>)
        requires
            position - PLAYER_HEIGHT >= i16::MIN,
        ensures
            r.ctx() == self.ctx().spec_set_on(position),
    {
        RedHatBoyState { context: self.context.set_on(position), _state: Sliding }
    }

    pub fn knock_out(self) -> (r: RedHatBoyState<Falling>)
        ensures
            r.ctx() == self.ctx().spec_reset_frames().spec_stop(),
    {
        RedHatBoyState { context: self.context.reset_frames().stop(), _state: Falling }
    }

    pub fn frame_name(&self) -> (r: &str)
        ensures
            r@ == SLIDING_FRAME_NAME@,
    {
        SLIDING_FRAME_NAME
    }
}

/// Where a tick of jumping leads.
pub enum JumpingEndState {
    Jumping(RedHatBoyState<Jumping>),
    Landing(RedHatBoyState<Running>),
}

/// Where a tick of falling leads.
pub enum FallingEndState {
    Falling(RedHatBoyState<Falling>),
    KnockedOut(RedHatBoyState<KnockedOut>),
}

impl RedHatBoyState<Jumping> {
    /// Flies on; once the player reaches the floor it lands and runs.
    pub fn update(self) -> (r: JumpingEndState)
        requires
            self.ctx().tick_fits(),
        ensures
            ({
                let t = self.ctx().spec_update(JUMPING_FRAMES);
                match r {
                    JumpingEndState::Landing(s) => t.position.y >= FLOOR && s.ctx()
                        == t.spec_reset_frames().spec_set_on(HEIGHT),
                    JumpingEndState::Jumping(s) => t.position.y < FLOOR && s.ctx() == t,
                }
            }),
    {
        let s = RedHatBoyState { context: self.context.update(JUMPING_FRAMES), _state: Jumping };
        if s.context.position.y >= FLOOR {
            JumpingEndState::Landing(s.land_on(HEIGHT))
        } else {
            JumpingEndState::Jumping(s)
        }
    }

    pub fn land_on(self, position: i16) -> (r: RedHatBoyState<Running>)
        requires
            position - PLAYER_HEIGHT >= i16::MIN,
        ensures
            r.ctx() == self.ctx().spec_reset_frames().spec_set_on(position),
    {
        RedHatBoyState { context: self.context.reset_frames().set_on(position), _state: Running }
    }

    pub fn knock_out(self) -> (r: RedHatBoyState<Falling>)
        ensures
            r.ctx() == self.ctx().spec_reset_frames().spec_stop(),
    {
        RedHatBoyState { context: self.context.reset_frames().stop(), _state: Falling }
    }

    pub fn frame_name(&self) -> (r: &str)
        ensures
            r@ == JUMPING_FRAME_NAME@,
    {
        JUMPING_FRAME_NAME
    }
}

impl RedHatBoyState<Falling> {
    /// Falls on; once the falling frames are used up the player is out.
    pub fn update(self) -> (r: FallingEndState)
        requires
            self.ctx().tick_fits(),
        ensures
            ({
                let t = self.ctx().spec_update(FALLING_FRAMES);
                match r {
                    FallingEndState::KnockedOut(s) => t.frame >= FALLING_FRAMES && s.ctx() == t,
                    FallingEndState::Falling(s) => t.frame < FALLING_FRAMES && s.ctx() == t,
                }
            }),
    {
        let s = RedHatBoyState { context: self.context.update(FALLING_FRAMES), _state: Falling };
        if s.context.frame >= FALLING_FRAMES {
            FallingEndState::KnockedOut(s.knock_out())
        } else {
            FallingEndState::Falling(s)
        }
    }

    pub fn knock_out(self) -> (r: RedHatBoyState<KnockedOut>)
        ensures
            r.ctx() == self.ctx(),
    {
        RedHatBoyState { context: self.context, _state: KnockedOut }
    }

    pub fn frame_name(&self) -> (r: &str)
        ensures
            r@ == FALLING_FRAME_NAME@,
    {
        FALLING_FRAME_NAME
    }
}

impl RedHatBoyState<KnockedOut> {
    pub fn frame_name(&self) -> (r: &str)
        ensures
            r@ == FALLING_FRAME_NAME@,
    {
        FALLING_FRAME_NAME
    }
}

} // verus!
