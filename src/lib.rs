//! The simulation core of a side-scrolling runner: the player's state machine
//! and physics, the obstacle course and its generator, and the game session.
pub mod boy;
pub mod geometry;
pub mod obstacle;
pub mod player;
pub mod segments;
pub mod session;
pub mod sprites;
pub mod state_machine;
pub mod walk;

pub use boy::RedHatBoy;
pub use geometry::{Point, Rect};
pub use obstacle::{Barrier, Image, Obstacle, Platform};
pub use player::{
    Falling, FallingEndState, Idle, Jumping, JumpingEndState, KnockedOut, RedHatBoyContext,
    RedHatBoyState, Running, Sliding, SlidingEndState,
};
pub use session::{Effects, KeyState, Phase, WalkTheDog, WalkTheDogStateMachine};
pub use sprites::{Cell, Sheet, SheetRect};
pub use state_machine::{Event, PlayerKind, RedHatBoyStateMachine};
pub use walk::Walk;
