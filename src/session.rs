use crate::obstacle::shift_view;
use crate::player::RedHatBoyContext;
use crate::segments::{first_segment_right, is_segment, rightmost_of};
use crate::state_machine::{lemma_step_keeps_speed, step, Event, PlayerKind};
use crate::walk::{ahead, collide_all, scrolled, Walk, OBSTACLE_BUFFER, TIMELINE_MINIMUM};
use vstd::prelude::*;

verus! {

/// The keys held down during a tick.
#[derive(Clone, Copy, Debug, PartialEq, Eq, Structural)]
pub struct KeyState {
    pub arrow_right: bool,
    pub space: bool,
    pub arrow_down: bool,
}

/// What the presentation layer is asked to do after a tick.
#[derive(Clone, Copy, Debug, PartialEq, Eq, Structural)]
pub struct Effects {
    pub play_jump_sound: bool,
    pub show_new_game_button: bool,
    pub hide_new_game_button: bool,
}

impl Effects {
    pub open spec fn spec_none() -> Effects {
        Effects { play_jump_sound: false, show_new_game_button: false, hide_new_game_button: false }
    }

    pub fn none() -> (r: Effects)
        ensures
            r == Self::spec_none(),
    {
        Effects { play_jump_sound: false, show_new_game_button: false, hide_new_game_button: false }
    }
}

/// Waiting for the first press of the right arrow.
#[derive(Clone, Copy, Debug, PartialEq, Eq, Structural)]
pub struct Ready;

/// The game is on.
#[derive(Clone, Copy, Debug, PartialEq, Eq, Structural)]
pub struct Walking;

/// The player is out; waiting for the new-game signal.
#[derive(Clone, Copy, Debug, PartialEq, Eq, Structural)]
pub struct GameOver;

/// A session in the phase `T`, with its world.
pub struct WalkTheDogState<T> {
    pub phase: T,
    pub walk: Walk,
}

pub enum ReadyEndState {
    Continue(WalkTheDogState<Ready>),
    Complete(WalkTheDogState<Walking>),
}

pub enum WalkingEndState {
    Continue(WalkTheDogState<Walking>),
    Complete(WalkTheDogState<GameOver>),
}

pub enum GameOverEndState {
    Continue(WalkTheDogState<GameOver>),
    Complete(WalkTheDogState<Ready>),
}

/// The player's state after a walking tick's input and physics, before the
/// obstacles: a held space jumps, a held down arrow slides, then one tick.
pub open spec fn after_input(v: (PlayerKind, RedHatBoyContext), keys: KeyState) -> (
    PlayerKind,
    RedHatBoyContext,
) {
    let v1 = if keys.space {
        step(v, Event::Jump)
    } else {
        v
    };
    let v2 = if keys.arrow_down {
        step(v1, Event::Slide)
    } else {
        v1
    };
    step(v2, Event::Update)
}

/// What one walking tick does to the world: the player takes the input and a
/// tick, the world scrolls against its speed, the obstacles that passed the
/// origin are dropped and the rest move and meet the player in order, and
/// the timeline either extends by a segment of either template or follows the
/// scrolling.
pub open spec fn walked(old_walk: Walk, new_walk: Walk, keys: KeyState) -> bool {
    let v = after_input(old_walk.boy.state_machine@, keys);
    let speed = -v.1.velocity.x;
    let kept = ahead(old_walk.obstacles@);
    let n = kept.len();
    let moved = new_walk.obstacles@.subrange(0, n as int);
    let added = new_walk.obstacles@.subrange(n as int, new_walk.obstacles@.len() as int);
    &&& new_walk.obstacles@.len() >= n
    &&& forall|j: int| 0 <= j < n ==> #[trigger] moved[j]@ == shift_view(kept[j]@, speed as i16)
    &&& new_walk.boy.state_machine@ == collide_all(old_walk.boy.sprite_sheet, v, moved)
    &&& new_walk.boy.sprite_sheet == old_walk.boy.sprite_sheet
    &&& (new_walk.first_background, new_walk.second_background) == scrolled(
        old_walk.first_background,
        old_walk.second_background,
        speed,
    )
    &&& old_walk.timeline < TIMELINE_MINIMUM ==> {
        &&& exists|choice: u8|
            choice <= 1 && #[trigger] is_segment(
                choice,
                added,
                old_walk.obstacle_sheet,
                old_walk.stone_width,
                old_walk.stone_height,
                (old_walk.timeline + OBSTACLE_BUFFER) as i16,
            )
        &&& new_walk.timeline == rightmost_of(added)
    }
    &&& old_walk.timeline >= TIMELINE_MINIMUM ==> added.len() == 0 && new_walk.timeline
        == old_walk.timeline + speed
    &&& new_walk.obstacle_sheet == old_walk.obstacle_sheet
    &&& new_walk.stone_width == old_walk.stone_width
    &&& new_walk.stone_height == old_walk.stone_height
}

impl WalkTheDogState<Ready> {
    pub fn new(walk: Walk) -> (r: Self)
        ensures
            r.walk == walk,
    {
        WalkTheDogState { phase: Ready, walk }
    }

    /// The player idles; the right arrow starts the run.
    pub fn update(self, keystate: &KeyState) -> (r: ReadyEndState)
        requires
            self.walk.wf(),
        ensures
            match r {
                ReadyEndState::Continue(s) => !keystate.arrow_right && s.walk.wf()
                    && s.walk.boy.state_machine@ == step(self.walk.boy.state_machine@, Event::Update)
                    && s.walk.boy.sprite_sheet == self.walk.boy.sprite_sheet
                    && s.walk.obstacles == self.walk.obstacles && s.walk.timeline == self.walk.timeline
                    && s.walk.first_background == self.walk.first_background
                    && s.walk.second_background == self.walk.second_background,
                ReadyEndState::Complete(s) => keystate.arrow_right && s.walk.wf()
                    && s.walk.boy.state_machine@ == step(
                        step(self.walk.boy.state_machine@, Event::Update),
                        Event::Run,
                    ) && s.walk.boy.sprite_sheet == self.walk.boy.sprite_sheet
                    && s.walk.obstacles == self.walk.obstacles && s.walk.timeline == self.walk.timeline
                    && s.walk.first_background == self.walk.first_background
                    && s.walk.second_background == self.walk.second_background,
            },
    {
        let mut s = self;
        proof {
            lemma_step_keeps_speed(s.walk.boy.state_machine@, Event::Update);
        }
        s.walk.boy.update();
        if keystate.arrow_right {
            ReadyEndState::Complete(s.start_running())
        } else {
            ReadyEndState::Continue(s)
        }
    }

    pub fn start_running(self) -> (r: WalkTheDogState<Walking>)
        requires
            self.walk.wf(),
        ensures
            r.walk.wf(),
            r.walk.boy.state_machine@ == step(self.walk.boy.state_machine@, Event::Run),
            r.walk.boy.sprite_sheet == self.walk.boy.sprite_sheet,
            r.walk.obstacles == self.walk.obstacles,
            r.walk.timeline == self.walk.timeline,
            r.walk.first_background == self.walk.first_background,
            r.walk.second_background == self.walk.second_background,
    {
        let mut s = self;
        s.run_right();
        WalkTheDogState { phase: Walking, walk: s.walk }
    }

    pub fn run_right(&mut self)
        requires
            old(self).walk.wf(),
        ensures
            final(self).walk.wf(),
            final(self).walk.boy.state_machine@ == step(old(self).walk.boy.state_machine@, Event::Run),
            final(self).walk.boy.sprite_sheet == old(self).walk.boy.sprite_sheet,
            final(self).walk.obstacles == old(self).walk.obstacles,
            final(self).walk.timeline == old(self).walk.timeline,
            final(self).walk.first_background == old(self).walk.first_background,
            final(self).walk.second_background == old(self).walk.second_background,
    {
        proof {
            lemma_step_keeps_speed(self.walk.boy.state_machine@, Event::Run);
        }
        self.walk.boy.run_right();
    }
}

impl WalkTheDogState<Walking> {
    /// One tick of play: input, physics, scrolling, obstacles, generation;
    /// a knocked-out player ends the game. Tells whether a jump was taken.
    pub fn update(self, keystate: &KeyState) -> (r: (WalkingEndState, bool))
        requires
            self.walk.wf(),
        ensures
            r.1 == (keystate.space && self.walk.boy.state_machine@.0 == PlayerKind::Running),
            match r.0 {
                WalkingEndState::Continue(s) => s.walk.wf() && walked(self.walk, s.walk, *keystate)
                    && s.walk.boy.state_machine@.0 != PlayerKind::KnockedOut,
                WalkingEndState::Complete(s) => s.walk.wf() && walked(self.walk, s.walk, *keystate)
                    && s.walk.boy.state_machine@.0 == PlayerKind::KnockedOut,
            },
    {
        let mut s = self;
        let ghost w0 = s.walk;
        let mut jumped = false;
        if keystate.space {
            proof {
                lemma_step_keeps_speed(s.walk.boy.state_machine@, Event::Jump);
            }
            jumped = s.walk.boy.jump();
        }
        if keystate.arrow_down {
            proof {
                lemma_step_keeps_speed(s.walk.boy.state_machine@, Event::Slide);
            }
            s.walk.boy.slide();
        }
        proof {
            lemma_step_keeps_speed(s.walk.boy.state_machine@, Event::Update);
        }
        s.walk.boy.update();
        let walking_speed = s.walk.velocity();
        s.walk.scroll_backgrounds(walking_speed);
        let ghost w1 = s.walk;
        s.walk.advance_obstacles(walking_speed);
        let ghost w2 = s.walk;
        if s.walk.timeline < TIMELINE_MINIMUM {
            s.walk.generate_next_segment();
        } else {
            s.walk.timeline = s.walk.timeline + walking_speed;
            assert(s.walk.obstacles@.subrange(
                w2.obstacles@.len() as int,
                s.walk.obstacles@.len() as int,
            ).len() == 0);
        }
        assert(s.walk.obstacles@.subrange(0, w2.obstacles@.len() as int) =~= w2.obstacles@);
        assert(walked(w0, s.walk, *keystate));
        if s.walk.knocked_out() {
            (WalkingEndState::Complete(s.end_game()), jumped)
        } else {
            (WalkingEndState::Continue(s), jumped)
        }
    }

    pub fn end_game(self) -> (r: WalkTheDogState<GameOver>)
        ensures
            r.walk == self.walk,
    {
        WalkTheDogState { phase: GameOver, walk: self.walk }
    }
}

impl WalkTheDogState<GameOver> {
    /// Waits for the new-game signal, then starts the world over.
    pub fn update(self, new_game_pressed: bool) -> (r: GameOverEndState)
        requires
            self.walk.wf(),
        ensures
            match r {
                GameOverEndState::Continue(s) => !new_game_pressed && s.walk == self.walk,
                GameOverEndState::Complete(s) => new_game_pressed && s.walk.wf() && is_segment(
                    0,
                    s.walk.obstacles@,
                    self.walk.obstacle_sheet,
                    self.walk.stone_width,
                    self.walk.stone_height,
                    0,
                ) && s.walk.timeline == first_segment_right(self.walk.stone_width)
                    && s.walk.boy.state_machine@
                    == crate::state_machine::RedHatBoyStateMachine::spec_start()
                    && s.walk.boy.sprite_sheet == self.walk.boy.sprite_sheet
                    && s.walk.obstacle_sheet == self.walk.obstacle_sheet
                    && s.walk.stone_width == self.walk.stone_width
                    && s.walk.stone_height == self.walk.stone_height
                    && s.walk.first_background == self.walk.first_background
                    && s.walk.second_background == self.walk.second_background,
            },
    {
        if new_game_pressed {
            GameOverEndState::Complete(self.new_game())
        } else {
            GameOverEndState::Continue(self)
        }
    }

    pub fn new_game(self) -> (r: WalkTheDogState<Ready>)
        requires
            self.walk.wf(),
        ensures
            r.walk.wf(),
            is_segment(
                0,
                r.walk.obstacles@,
                self.walk.obstacle_sheet,
                self.walk.stone_width,
                self.walk.stone_height,
                0,
            ),
            r.walk.timeline == first_segment_right(self.walk.stone_width),
            r.walk.boy.state_machine@ == crate::state_machine::RedHatBoyStateMachine::spec_start(),
            r.walk.boy.sprite_sheet == self.walk.boy.sprite_sheet,
            r.walk.obstacle_sheet == self.walk.obstacle_sheet,
            r.walk.stone_width == self.walk.stone_width,
            r.walk.stone_height == self.walk.stone_height,
            r.walk.first_background == self.walk.first_background,
            r.walk.second_background == self.walk.second_background,
    {
        WalkTheDogState { phase: Ready, walk: Walk::reset(self.walk) }
    }
}

/// The phase of a session.
#[derive(Clone, Copy, Debug, PartialEq, Eq, Structural)]
pub enum Phase {
    Ready,
    Walking,
    GameOver,
}

/// One tick of the session, given the keys held and whether the new-game
/// signal has fired: in Ready the player idles and the right arrow starts the
/// walk; in Walking the world takes a tick and a knocked-out player ends the
/// game, asking for the new-game button; in GameOver the signal starts the
/// world over and retracts the button.
pub open spec fn session_step(
    prev: WalkTheDogStateMachine,
    next: WalkTheDogStateMachine,
    effects: Effects,
    keystate: KeyState,
    new_game_pressed: bool,
) -> bool {
    match prev.spec_phase() {
        Phase::Ready => {
            &&& next.spec_phase() == (if keystate.arrow_right {
                Phase::Walking
            } else {
                Phase::Ready
            })
            &&& effects == Effects::spec_none()
            &&& next.spec_walk().boy.sprite_sheet == prev.spec_walk().boy.sprite_sheet
            &&& next.spec_walk().first_background == prev.spec_walk().first_background
            &&& next.spec_walk().second_background == prev.spec_walk().second_background
            &&& next.spec_walk().obstacles == prev.spec_walk().obstacles
            &&& next.spec_walk().timeline == prev.spec_walk().timeline
            &&& next.spec_walk().boy.state_machine@ == {
                let v = step(prev.spec_walk().boy.state_machine@, Event::Update);
                if keystate.arrow_right {
                    step(v, Event::Run)
                } else {
                    v
                }
            }
        },
        Phase::Walking => {
            let out = next.spec_walk().boy.state_machine@.0 == PlayerKind::KnockedOut;
            &&& walked(prev.spec_walk(), next.spec_walk(), keystate)
            &&& next.spec_phase() == (if out {
                Phase::GameOver
            } else {
                Phase::Walking
            })
            &&& effects == Effects {
                play_jump_sound: keystate.space && prev.spec_walk().boy.state_machine@.0
                    == PlayerKind::Running,
                show_new_game_button: out,
                hide_new_game_button: false,
            }
        },
        Phase::GameOver => {
            &&& next.spec_phase() == (if new_game_pressed {
                Phase::Ready
            } else {
                Phase::GameOver
            })
            &&& effects == Effects {
                play_jump_sound: false,
                show_new_game_button: false,
                hide_new_game_button: new_game_pressed,
            }
            &&& !new_game_pressed ==> next.spec_walk() == prev.spec_walk()
            &&& new_game_pressed ==> {
                &&& is_segment(
                    0,
                    next.spec_walk().obstacles@,
                    prev.spec_walk().obstacle_sheet,
                    prev.spec_walk().stone_width,
                    prev.spec_walk().stone_height,
                    0,
                )
                &&& next.spec_walk().timeline == first_segment_right(prev.spec_walk().stone_width)
                &&& next.spec_walk().boy.state_machine@
                    == crate::state_machine::RedHatBoyStateMachine::spec_start()
            }
        },
    }
}

/// A game session: one of the phases, each with its world.
pub enum WalkTheDogStateMachine {
    Ready(WalkTheDogState<Ready>),
    Walking(WalkTheDogState<Walking>),
    GameOver(WalkTheDogState<GameOver>),
}

impl WalkTheDogStateMachine {
    pub open spec fn spec_phase(&self) -> Phase {
        match self {
            WalkTheDogStateMachine::Ready(_) => Phase::Ready,
            WalkTheDogStateMachine::Walking(_) => Phase::Walking,
            WalkTheDogStateMachine::GameOver(_) => Phase::GameOver,
        }
    }

    pub open spec fn spec_walk(&self) -> Walk {
        match self {
            WalkTheDogStateMachine::Ready(s) => s.walk,
            WalkTheDogStateMachine::Walking(s) => s.walk,
            WalkTheDogStateMachine::GameOver(s) => s.walk,
        }
    }

    pub fn new(walk: Walk) -> (r: Self)
        ensures
            r.spec_phase() == Phase::Ready,
            r.spec_walk() == walk,
    {
        WalkTheDogStateMachine::Ready(WalkTheDogState::<Ready>::new(walk))
    }

    pub fn phase(&self) -> (r: Phase)
        ensures
            r == self.spec_phase(),
    {
        match self {
            WalkTheDogStateMachine::Ready(_) => Phase::Ready,
            WalkTheDogStateMachine::Walking(_) => Phase::Walking,
            WalkTheDogStateMachine::GameOver(_) => Phase::GameOver,
        }
    }

    pub fn walk(&self) -> (r: &Walk)
        ensures
            *r == self.spec_walk(),
    {
        match self {
            WalkTheDogStateMachine::Ready(s) => &s.walk,
            WalkTheDogStateMachine::Walking(s) => &s.walk,
            WalkTheDogStateMachine::GameOver(s) => &s.walk,
        }
    }

    /// One tick of the session, given the keys held and whether the new-game
    /// signal has fired; yields the next session and what to present.
    pub fn update(self, keystate: &KeyState, new_game_pressed: bool) -> (r: (Self, Effects))
        requires
            self.spec_walk().wf(),
        ensures
            r.0.spec_walk().wf(),
            session_step(self, r.0, r.1, *keystate, new_game_pressed),
    {
        match self {
            WalkTheDogStateMachine::Ready(state) => match state.update(keystate) {
                ReadyEndState::Continue(s) => (WalkTheDogStateMachine::Ready(s), Effects::none()),
                ReadyEndState::Complete(s) => (WalkTheDogStateMachine::Walking(s), Effects::none()),
            },
            WalkTheDogStateMachine::Walking(state) => {
                let (end, jumped) = state.update(keystate);
                match end {
                    WalkingEndState::Continue(s) => (
                        WalkTheDogStateMachine::Walking(s),
                        Effects {
                            play_jump_sound: jumped,
                            show_new_game_button: false,
                            hide_new_game_button: false,
                        },
                    ),
                    WalkingEndState::Complete(s) => (
                        WalkTheDogStateMachine::GameOver(s),
                        Effects {
                            play_jump_sound: jumped,
                            show_new_game_button: true,
                            hide_new_game_button: false,
                        },
                    ),
                }
            },
            WalkTheDogStateMachine::GameOver(state) => match state.update(new_game_pressed) {
                GameOverEndState::Continue(s) => (WalkTheDogStateMachine::GameOver(s), Effects::none()),
                GameOverEndState::Complete(s) => (
                    WalkTheDogStateMachine::Ready(s),
                    Effects {
                        play_jump_sound: false,
                        show_new_game_button: false,
                        hide_new_game_button: true,
                    },
                ),
            },
        }
    }
}

/// Why a session could not start.
#[derive(Clone, Copy, Debug, PartialEq, Eq, Structural)]
pub enum SessionError {
    /// The game already holds a session.
    AlreadyInitialized,
}

/// The game as the host loop sees it: no session until it is initialized.
pub struct WalkTheDog {
    pub machine: Option<WalkTheDogStateMachine>,
}

impl WalkTheDog {
    pub open spec fn wf(&self) -> bool {
        self.machine matches Some(m) ==> m.spec_walk().wf()
    }

    pub fn new() -> (r: Self)
        ensures
            r.machine is None,
            r.wf(),
    {
        WalkTheDog { machine: None }
    }

    /// A game holding a session in `walk`, ready to start; fails when this
    /// game already holds one.
    pub fn initialize(&self, walk: Walk) -> (r: Result<WalkTheDog, SessionError>)
        requires
            walk.wf(),
        ensures
            self.machine is Some <==> r == Err::<WalkTheDog, SessionError>(SessionError::AlreadyInitialized),
            r matches Ok(g) ==> (g.wf() && g.machine is Some && g.machine->0.spec_phase()
                == Phase::Ready && g.machine->0.spec_walk() == walk),
    {
        match self.machine {
            None => Ok(WalkTheDog { machine: Some(WalkTheDogStateMachine::new(walk)) }),
            Some(_) => Err(SessionError::AlreadyInitialized),
        }
    }

    /// Advances the session, if there is one, by a tick.
    pub fn update(&mut self, keystate: &KeyState, new_game_pressed: bool) -> (r: Effects)
        requires
            old(self).wf(),
        ensures
            final(self).wf(),
            old(self).machine is None ==> final(self).machine is None && r == Effects::spec_none(),
            old(self).machine is Some ==> final(self).machine is Some && session_step(
                old(self).machine->0,
                final(self).machine->0,
                r,
                *keystate,
                new_game_pressed,
            ),
    {
        let mut taken: Option<WalkTheDogStateMachine> = None;
        core::mem::swap(&mut self.machine, &mut taken);
        match taken {
            Some(machine) => {
                let (next, effects) = machine.update(keystate, new_game_pressed);
                self.machine = Some(next);
                effects
            },
            None => Effects::none(),
        }
    }
}

} // verus!
