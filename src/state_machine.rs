use crate::player::{
    air_low, ground_low, lemma_landing_on_ground, lemma_rise_range, lemma_update_keeps_flight,
    FallingEndState, JumpingEndState, RedHatBoyContext, RedHatBoyState, SlidingEndState,
    FALLING_FRAMES, FALLING_FRAME_NAME, FLOOR, HEIGHT, IDLE_FRAMES, IDLE_FRAME_NAME, JUMPING_FRAMES,
    JUMPING_FRAME_NAME, JUMP_SPEED, LOWEST_TOP, PLAYER_HEIGHT, RUN_FRAMES, RUN_FRAME_NAME, RUN_SPEED,
    SLIDING_FRAMES, SLIDING_FRAME_NAME, STARTING_POINT,
};
use crate::player;
use vstd::prelude::*;

verus! {

/// What can happen to the player.
#[derive(Clone, Copy, Debug, PartialEq, Eq, Structural)]
pub enum Event {
    Run,
    Jump,
    Slide,
    Land(i16),
    KnockOut,
    Update,
}

/// The player's state, without the physics it carries.
#[derive(Clone, Copy, Debug, PartialEq, Eq, Structural)]
pub enum PlayerKind {
    Idle,
    Running,
    Sliding,
    Jumping,
    Falling,
    KnockedOut,
}

/// The pairs of state and event that the transition table lists; any other
/// event leaves the player as it is.
pub open spec fn legal(kind: PlayerKind, event: Event) -> bool {
    match (kind, event) {
        (PlayerKind::Idle, Event::Run) => true,
        (PlayerKind::Idle, Event::Update) => true,
        (PlayerKind::Running, Event::Update) => true,
        (PlayerKind::Running, Event::Jump) => true,
        (PlayerKind::Running, Event::Slide) => true,
        (PlayerKind::Running, Event::Land(_)) => true,
        (PlayerKind::Running, Event::KnockOut) => true,
        (PlayerKind::Sliding, Event::Update) => true,
        (PlayerKind::Sliding, Event::Land(_)) => true,
        (PlayerKind::Sliding, Event::KnockOut) => true,
        (PlayerKind::Jumping, Event::Update) => true,
        (PlayerKind::Jumping, Event::Land(_)) => true,
        (PlayerKind::Jumping, Event::KnockOut) => true,
        (PlayerKind::Falling, Event::Update) => true,
        _ => false,
    }
}

/// The transition table over the player's kind and physics.
pub open spec fn step(v: (PlayerKind, RedHatBoyContext), event: Event) -> (
    PlayerKind,
    RedHatBoyContext,
) {
    let (kind, c) = v;
    if !legal(kind, event) {
        v
    } else {
        match (kind, event) {
            (PlayerKind::Idle, Event::Run) => (
                PlayerKind::Running,
                c.spec_reset_frames().spec_run_right(),
            ),
            (PlayerKind::Idle, Event::Update) => (PlayerKind::Idle, c.spec_update(IDLE_FRAMES)),
            (PlayerKind::Running, Event::Update) => (
                PlayerKind::Running,
                c.spec_update(RUN_FRAMES),
            ),
            (PlayerKind::Running, Event::Jump) => (
                PlayerKind::Jumping,
                c.spec_set_vertical_velocity(JUMP_SPEED).spec_reset_frames(),
            ),
            (PlayerKind::Running, Event::Slide) => (PlayerKind::Sliding, c.spec_reset_frames()),
            (PlayerKind::Running, Event::Land(y)) => (PlayerKind::Running, c.spec_set_on(y)),
            (PlayerKind::Sliding, Event::Update) => {
                let t = c.spec_update(SLIDING_FRAMES);
                if t.frame >= SLIDING_FRAMES {
                    (PlayerKind::Running, t.spec_reset_frames())
                } else {
                    (PlayerKind::Sliding, t)
                }
            },
            (PlayerKind::Sliding, Event::Land(y)) => (PlayerKind::Sliding, c.spec_set_on(y)),
            (PlayerKind::Jumping, Event::Update) => {
                let t = c.spec_update(JUMPING_FRAMES);
                if t.position.y >= FLOOR {
                    (PlayerKind::Running, t.spec_reset_frames().spec_set_on(HEIGHT))
                } else {
                    (PlayerKind::Jumping, t)
                }
            },
            (PlayerKind::Jumping, Event::Land(y)) => (
                PlayerKind::Running,
                c.spec_reset_frames().spec_set_on(y),
            ),
            (PlayerKind::Falling, Event::Update) => {
                let t = c.spec_update(FALLING_FRAMES);
                if t.frame >= FALLING_FRAMES {
                    (PlayerKind::KnockedOut, t)
                } else {
                    (PlayerKind::Falling, t)
                }
            },
            // the remaining legal pairs are the knock-outs
            _ => (PlayerKind::Falling, c.spec_reset_frames().spec_stop()),
        }
    }
}

/// The sprite-name prefix of each kind.
pub open spec fn frame_prefix(kind: PlayerKind) -> Seq<char> {
    match kind {
        PlayerKind::Idle => IDLE_FRAME_NAME@,
        PlayerKind::Running => RUN_FRAME_NAME@,
        PlayerKind::Sliding => SLIDING_FRAME_NAME@,
        PlayerKind::Jumping => JUMPING_FRAME_NAME@,
        PlayerKind::Falling => FALLING_FRAME_NAME@,
        PlayerKind::KnockedOut => FALLING_FRAME_NAME@,
    }
}

/// The last animation frame of each kind.
pub open spec fn frame_count(kind: PlayerKind) -> u8 {
    match kind {
        PlayerKind::Idle => IDLE_FRAMES,
        PlayerKind::Running => RUN_FRAMES,
        PlayerKind::Sliding => SLIDING_FRAMES,
        PlayerKind::Jumping => JUMPING_FRAMES,
        PlayerKind::Falling => FALLING_FRAMES,
        PlayerKind::KnockedOut => FALLING_FRAMES,
    }
}

/// Lowest height that the player in each kind may still come to.
pub open spec fn low_of(kind: PlayerKind) -> int {
    match kind {
        PlayerKind::Idle | PlayerKind::Running | PlayerKind::Sliding => ground_low(),
        _ => air_low(),
    }
}

/// The events the machine can take without leaving `i16`: a landing on a top
/// no lower than `LOWEST_TOP`.
pub open spec fn event_fits(event: Event) -> bool {
    match event {
        Event::Land(y) => y >= LOWEST_TOP,
        _ => true,
    }
}

/// No event moves the player sideways, and only a landing on a top below
/// `HEIGHT` can put it below the floor.
pub proof fn lemma_step_keeps_place(v: (PlayerKind, RedHatBoyContext), event: Event)
    requires
        view_wf(v),
        v.1.position.y <= FLOOR,
        event matches Event::Land(y) ==> y <= HEIGHT,
        event_fits(event),
    ensures
        step(v, event).1.position.x == v.1.position.x,
        step(v, event).1.position.y <= FLOOR,
{
    let (kind, c) = v;
    match event {
        Event::Land(y) => {
            assert(c.spec_set_on(y).position.y <= FLOOR);
            assert(c.spec_reset_frames().spec_set_on(y).position.y <= FLOOR);
        },
        Event::Update => {
            if legal(kind, event) {
                lemma_update_keeps_flight(c, frame_count(kind), low_of(kind));
            }
        },
        _ => {},
    }
}

/// The player's running speed stays between rest and `RUN_SPEED`, and an idle
/// player is at rest.
pub proof fn lemma_step_keeps_speed(v: (PlayerKind, RedHatBoyContext), event: Event)
    requires
        0 <= v.1.velocity.x <= RUN_SPEED,
        v.0 == PlayerKind::Idle ==> v.1.velocity.x == 0,
    ensures
        0 <= step(v, event).1.velocity.x <= RUN_SPEED,
        step(v, event).0 == PlayerKind::Idle ==> step(v, event).1.velocity.x == 0,
{
}

/// The player: one of the states, each with the physics it carries.
#[derive(Clone, Copy, Debug)]
pub enum RedHatBoyStateMachine {
    Idle(RedHatBoyState<player::Idle>),
    Running(RedHatBoyState<player::Running>),
    Sliding(RedHatBoyState<player::Sliding>),
    Jumping(RedHatBoyState<player::Jumping>),
    Falling(RedHatBoyState<player::Falling>),
    KnockedOut(RedHatBoyState<player::KnockedOut>),
}

impl View for RedHatBoyStateMachine {
    type V = (PlayerKind, RedHatBoyContext);

    open spec fn view(&self) -> (PlayerKind, RedHatBoyContext) {
        match self {
            RedHatBoyStateMachine::Idle(s) => (PlayerKind::Idle, s.ctx()),
            RedHatBoyStateMachine::Running(s) => (PlayerKind::Running, s.ctx()),
            RedHatBoyStateMachine::Sliding(s) => (PlayerKind::Sliding, s.ctx()),
            RedHatBoyStateMachine::Jumping(s) => (PlayerKind::Jumping, s.ctx()),
            RedHatBoyStateMachine::Falling(s) => (PlayerKind::Falling, s.ctx()),
            RedHatBoyStateMachine::KnockedOut(s) => (PlayerKind::KnockedOut, s.ctx()),
        }
    }
}

/// The invariant of the player's physics in kind `kind`: the animation frame
/// stays within the kind's cycle, the speed between a jump's and terminal
/// velocity, the height above the kind's lowest reachable point, and an idle
/// player can still start running.
pub open spec fn view_wf(v: (PlayerKind, RedHatBoyContext)) -> bool {
    let (kind, c) = v;
    &&& c.frame <= frame_count(kind)
    &&& c.flies_above(low_of(kind))
    &&& kind == PlayerKind::Idle ==> c.velocity.x <= i16::MAX - RUN_SPEED
}

impl RedHatBoyStateMachine {
    pub open spec fn wf(&self) -> bool {
        view_wf(self@)
    }

    /// Idle on the floor at the starting point, at rest.
    pub open spec fn spec_start() -> (PlayerKind, RedHatBoyContext) {
        (PlayerKind::Idle, RedHatBoyContext {
            frame: 0,
            position: crate::geometry::Point { x: STARTING_POINT, y: FLOOR },
            velocity: crate::geometry::Point { x: 0, y: 0 },
        })
    }

    /// The player as a game starts.
    pub fn new() -> (r: Self)
        ensures
            r@ == Self::spec_start(),
            r.wf(),
    {
        let r = RedHatBoyStateMachine::Idle(RedHatBoyState::<player::Idle>::new());
        proof {
            lemma_rise_range(0);
        }
        r
    }

    fn from_sliding(state: SlidingEndState) -> (r: Self)
        ensures
            r@ == match state {
                SlidingEndState::Sliding(s) => (PlayerKind::Sliding, s.ctx()),
                SlidingEndState::Running(s) => (PlayerKind::Running, s.ctx()),
            },
    {
        match state {
            SlidingEndState::Sliding(s) => RedHatBoyStateMachine::Sliding(s),
            SlidingEndState::Running(s) => RedHatBoyStateMachine::Running(s),
        }
    }

    fn from_jumping(state: JumpingEndState) -> (r: Self)
        ensures
            r@ == match state {
                JumpingEndState::Jumping(s) => (PlayerKind::Jumping, s.ctx()),
                JumpingEndState::Landing(s) => (PlayerKind::Running, s.ctx()),
            },
    {
        match state {
            JumpingEndState::Jumping(s) => RedHatBoyStateMachine::Jumping(s),
            JumpingEndState::Landing(s) => RedHatBoyStateMachine::Running(s),
        }
    }

    fn from_falling(state: FallingEndState) -> (r: Self)
        ensures
            r@ == match state {
                FallingEndState::Falling(s) => (PlayerKind::Falling, s.ctx()),
                FallingEndState::KnockedOut(s) => (PlayerKind::KnockedOut, s.ctx()),
            },
    {
        match state {
            FallingEndState::Falling(s) => RedHatBoyStateMachine::Falling(s),
            FallingEndState::KnockedOut(s) => RedHatBoyStateMachine::KnockedOut(s),
        }
    }

    /// Applies `event` by the transition table; an event the table does not
    /// list for the current state leaves the player unchanged.
    pub fn transition(self, event: Event) -> (r: Self)
        requires
            self.wf(),
            event_fits(event),
        ensures
            r@ == step(self@, event),
            r.wf(),
            !legal(self@.0, event) ==> r@ == self@,
            self@.0 == PlayerKind::KnockedOut ==> r@ == self@,
            (self@.0 == PlayerKind::Idle && event == Event::Run) ==> {
                &&& r@.0 == PlayerKind::Running
                &&& r@.1.velocity.x == self@.1.velocity.x + RUN_SPEED
                &&& r@.1.frame == 0
            },
            (self@.0 == PlayerKind::Jumping && event == Event::Update) ==> {
                let t = self@.1.spec_update(JUMPING_FRAMES);
                &&& (r@.0 == PlayerKind::Running) == (t.position.y >= FLOOR)
                &&& (r@.0 == PlayerKind::Jumping) == (t.position.y < FLOOR)
                &&& r@.0 == PlayerKind::Running ==> r@.1.position.y == HEIGHT - PLAYER_HEIGHT
            },
            (self@.0 == PlayerKind::Falling && event == Event::Update) ==> {
                let t = self@.1.spec_update(FALLING_FRAMES);
                &&& (r@.0 == PlayerKind::KnockedOut) == (t.frame >= FALLING_FRAMES)
                &&& (r@.0 == PlayerKind::Falling) == (t.frame < FALLING_FRAMES)
            },
            (self@.0 == PlayerKind::Sliding && event == Event::Update) ==> {
                let t = self@.1.spec_update(SLIDING_FRAMES);
                &&& (r@.0 == PlayerKind::Running) == (t.frame >= SLIDING_FRAMES)
                &&& (r@.0 == PlayerKind::Sliding) == (t.frame < SLIDING_FRAMES)
            },
    {
        let ghost low = low_of(self@.0);
        proof {
            lemma_rise_range(self@.1.velocity.y as int);
            lemma_rise_range(JUMP_SPEED as int);
            lemma_rise_range(0);
            if legal(self@.0, event) && event == Event::Update {
                lemma_update_keeps_flight(self@.1, frame_count(self@.0), low);
            }
            if let Event::Land(y) = event {
                lemma_landing_on_ground(self@.1, y);
            }
        }
        match event {
            Event::Run => match self {
                RedHatBoyStateMachine::Idle(s) => RedHatBoyStateMachine::Running(s.run()),
                _ => self,
            },
            Event::Jump => match self {
                RedHatBoyStateMachine::Running(s) => RedHatBoyStateMachine::Jumping(s.jump()),
                _ => self,
            },
            Event::Slide => match self {
                RedHatBoyStateMachine::Running(s) => RedHatBoyStateMachine::Sliding(s.slide()),
                _ => self,
            },
            Event::Land(position) => match self {
                RedHatBoyStateMachine::Running(s) => RedHatBoyStateMachine::Running(
                    s.land_on(position),
                ),
                RedHatBoyStateMachine::Jumping(s) => RedHatBoyStateMachine::Running(
                    s.land_on(position),
                ),
                RedHatBoyStateMachine::Sliding(s) => RedHatBoyStateMachine::Sliding(
                    s.land_on(position),
                ),
                _ => self,
            },
            Event::Update => match self {
                RedHatBoyStateMachine::Idle(s) => RedHatBoyStateMachine::Idle(s.update()),
                RedHatBoyStateMachine::Running(s) => RedHatBoyStateMachine::Running(s.update()),
                RedHatBoyStateMachine::Jumping(s) => Self::from_jumping(s.update()),
                RedHatBoyStateMachine::Sliding(s) => Self::from_sliding(s.update()),
                RedHatBoyStateMachine::Falling(s) => Self::from_falling(s.update()),
                _ => self,
            },
            Event::KnockOut => match self {
                RedHatBoyStateMachine::Running(s) => RedHatBoyStateMachine::Falling(s.knock_out()),
                RedHatBoyStateMachine::Jumping(s) => RedHatBoyStateMachine::Falling(s.knock_out()),
                RedHatBoyStateMachine::Sliding(s) => RedHatBoyStateMachine::Falling(s.knock_out()),
                _ => self,
            },
        }
    }

    /// One tick of the player.
    pub fn update(self) -> (r: Self)
        requires
            self.wf(),
        ensures
            r@ == step(self@, Event::Update),
            r.wf(),
    {
        self.transition(Event::Update)
    }

    pub fn knocked_out(&self) -> (r: bool)
        ensures
            r == (self@.0 == PlayerKind::KnockedOut),
    {
        match self {
            RedHatBoyStateMachine::KnockedOut(_) => true,
            _ => false,
        }
    }

    pub fn kind(&self) -> (r: PlayerKind)
        ensures
            r == self@.0,
    {
        match self {
            RedHatBoyStateMachine::Idle(_) => PlayerKind::Idle,
            RedHatBoyStateMachine::Running(_) => PlayerKind::Running,
            RedHatBoyStateMachine::Sliding(_) => PlayerKind::Sliding,
            RedHatBoyStateMachine::Jumping(_) => PlayerKind::Jumping,
            RedHatBoyStateMachine::Falling(_) => PlayerKind::Falling,
            RedHatBoyStateMachine::KnockedOut(_) => PlayerKind::KnockedOut,
        }
    }

    pub fn frame_name(&self) -> (r: &str)
        ensures
            r@ == frame_prefix(self@.0),
    {
        match self {
            RedHatBoyStateMachine::Idle(state) => state.frame_name(),
            RedHatBoyStateMachine::Running(state) => state.frame_name(),
            RedHatBoyStateMachine::Jumping(state) => state.frame_name(),
            RedHatBoyStateMachine::Sliding(state) => state.frame_name(),
            RedHatBoyStateMachine::Falling(state) => state.frame_name(),
            RedHatBoyStateMachine::KnockedOut(state) => state.frame_name(),
        }
    }

    pub fn context(&self) -> (r: &RedHatBoyContext)
        ensures
            *r == self@.1,
    {
        match self {
            RedHatBoyStateMachine::Idle(state) => state.context(),
            RedHatBoyStateMachine::Running(state) => state.context(),
            RedHatBoyStateMachine::Jumping(state) => state.context(),
            RedHatBoyStateMachine::Sliding(state) => state.context(),
            RedHatBoyStateMachine::Falling(state) => state.context(),
            RedHatBoyStateMachine::KnockedOut(state) => state.context(),
        }
    }
}

} // verus!
