use crate::geometry::{Point, Rect};
use crate::player::{
    air_low, lemma_rise_range,
    RedHatBoyContext, FALLING_FRAMES, FALLING_FRAME_NAME, FLOOR, HEIGHT, IDLE_FRAMES,
    IDLE_FRAME_NAME, JUMPING_FRAMES, JUMPING_FRAME_NAME, LOWEST_TOP, RUN_FRAMES, RUN_FRAME_NAME,
    SLIDING_FRAMES, SLIDING_FRAME_NAME, STARTING_POINT,
};
use crate::sprites::{cell_small, sprite_key, sprite_key_of, Cell, Sheet};
use crate::state_machine::{
    frame_count, frame_prefix, lemma_step_keeps_place, step, Event, PlayerKind, RedHatBoyStateMachine,
};
use vstd::prelude::*;

verus! {

/// Offsets from the drawn sprite to the box the player collides with.
pub const BOX_X_OFFSET: i16 = 16;

pub const BOX_Y_OFFSET: i16 = 14;

pub const BOX_WIDTH_OFFSET: i16 = 28;

/// The number of the picture shown at animation frame `frame`: each picture
/// stays for three ticks.
pub open spec fn picture_number(frame: u8) -> nat {
    (frame / 3 + 1) as nat
}

/// The sheet holds, with small numbers, every picture that any player state
/// can show.
pub open spec fn sheet_complete(sheet: Sheet) -> bool {
    &&& sheet.bounded()
    &&& sheet.has_animation(IDLE_FRAME_NAME@, picture_number(IDLE_FRAMES))
    &&& sheet.has_animation(RUN_FRAME_NAME@, picture_number(RUN_FRAMES))
    &&& sheet.has_animation(SLIDING_FRAME_NAME@, picture_number(SLIDING_FRAMES))
    &&& sheet.has_animation(JUMPING_FRAME_NAME@, picture_number(JUMPING_FRAMES))
    &&& sheet.has_animation(FALLING_FRAME_NAME@, picture_number(FALLING_FRAMES))
}

/// Whether `sheet` holds every picture the player needs, with small numbers.
pub fn is_sheet_complete(sheet: &Sheet) -> (r: bool)
    ensures
        r == sheet_complete(*sheet),
{
    sheet.is_bounded() && sheet.contains_animation(IDLE_FRAME_NAME, IDLE_FRAMES / 3 + 1)
        && sheet.contains_animation(RUN_FRAME_NAME, RUN_FRAMES / 3 + 1)
        && sheet.contains_animation(SLIDING_FRAME_NAME, SLIDING_FRAMES / 3 + 1)
        && sheet.contains_animation(JUMPING_FRAME_NAME, JUMPING_FRAMES / 3 + 1)
        && sheet.contains_animation(FALLING_FRAME_NAME, FALLING_FRAMES / 3 + 1)
}

/// The first cell named `name` is one of the sheet's cells.
proof fn lemma_found_cell_in_sheet(frames: Seq<(String, Cell)>, name: Seq<char>)
    requires
        crate::sprites::find_cell(frames, name) is Some,
    ensures
        exists|i: int|
            0 <= i < frames.len() && frames[i].1 == crate::sprites::find_cell(frames, name)->0,
    decreases frames.len(),
{
    if frames[0].0@ != name {
        lemma_found_cell_in_sheet(frames.drop_first(), name);
        let i = choose|i: int|
            0 <= i < frames.drop_first().len() && frames.drop_first()[i].1
                == crate::sprites::find_cell(frames.drop_first(), name)->0;
        assert(frames[i + 1].1 == crate::sprites::find_cell(frames, name)->0);
    } else {
        assert(frames[0].1 == crate::sprites::find_cell(frames, name)->0);
    }
}

/// The name of the picture that the player in state `v` shows.
pub open spec fn frame_name_of(v: (PlayerKind, RedHatBoyContext)) -> Seq<char> {
    sprite_key_of(frame_prefix(v.0), picture_number(v.1.frame))
}

pub open spec fn sprite_of(sheet: Sheet, v: (PlayerKind, RedHatBoyContext)) -> Cell {
    sheet.spec_cell(frame_name_of(v))->0
}

/// Where the current picture is drawn.
pub open spec fn destination_box_of(sheet: Sheet, v: (PlayerKind, RedHatBoyContext)) -> Rect {
    let c = sprite_of(sheet, v);
    Rect {
        position: Point {
            x: (v.1.position.x + c.sprite_source_size.x) as i16,
            y: (v.1.position.y + c.sprite_source_size.y) as i16,
        },
        width: c.frame.w,
        height: c.frame.h,
    }
}

/// The box the player collides with: the drawn box trimmed at the sides and
/// top.
pub open spec fn bounding_box_of(sheet: Sheet, v: (PlayerKind, RedHatBoyContext)) -> Rect {
    let d = destination_box_of(sheet, v);
    Rect {
        position: Point {
            x: (d.position.x + BOX_X_OFFSET) as i16,
            y: (d.position.y + BOX_Y_OFFSET) as i16,
        },
        width: (d.width - BOX_WIDTH_OFFSET) as i16,
        height: (d.height - BOX_Y_OFFSET) as i16,
    }
}

/// The player together with the sprite sheet that gives its shape.
#[derive(Clone, Debug)]
pub struct RedHatBoy {
    pub state_machine: RedHatBoyStateMachine,
    pub sprite_sheet: Sheet,
}

impl RedHatBoy {
    pub open spec fn wf(&self) -> bool {
        &&& self.state_machine.wf()
        &&& self.state_machine@.1.position.y <= FLOOR
        &&& self.state_machine@.1.position.x == STARTING_POINT
        &&& sheet_complete(self.sprite_sheet)
    }

    pub open spec fn ctx(&self) -> RedHatBoyContext {
        self.state_machine@.1
    }

    pub open spec fn spec_frame_name(&self) -> Seq<char> {
        frame_name_of(self.state_machine@)
    }

    pub open spec fn spec_sprite(&self) -> Cell {
        sprite_of(self.sprite_sheet, self.state_machine@)
    }

    pub open spec fn spec_destination_box(&self) -> Rect {
        destination_box_of(self.sprite_sheet, self.state_machine@)
    }

    pub open spec fn spec_bounding_box(&self) -> Rect {
        bounding_box_of(self.sprite_sheet, self.state_machine@)
    }

    /// A fresh idle player drawn from `sheet`, or `None` when the sheet lacks a
    /// picture the player needs.
    pub fn new(sheet: Sheet) -> (r: Option<Self>)
        ensures
            r is Some <==> sheet_complete(sheet),
            r matches Some(b) ==> b.wf() && b.sprite_sheet == sheet && b.state_machine@
                == RedHatBoyStateMachine::spec_start(),
    {
        if is_sheet_complete(&sheet) {
            Some(RedHatBoy { state_machine: RedHatBoyStateMachine::new(), sprite_sheet: sheet })
        } else {
            None
        }
    }

    /// The same player back at the start, with the same sheet.
    pub fn reset(boy: Self) -> (r: Self)
        requires
            sheet_complete(boy.sprite_sheet),
        ensures
            r.wf(),
            r.sprite_sheet == boy.sprite_sheet,
            r.state_machine@ == RedHatBoyStateMachine::spec_start(),
    {
        RedHatBoy { state_machine: RedHatBoyStateMachine::new(), sprite_sheet: boy.sprite_sheet }
    }

    /// One tick of the player.
    pub fn update(&mut self)
        requires
            old(self).wf(),
        ensures
            final(self).wf(),
            final(self).sprite_sheet == old(self).sprite_sheet,
            final(self).state_machine@ == step(old(self).state_machine@, Event::Update),
    {
        proof {
            lemma_step_keeps_place(self.state_machine@, Event::Update);
        }
        self.state_machine = self.state_machine.transition(Event::Update);
    }

    pub fn knocked_out(&self) -> (r: bool)
        ensures
            r == (self.state_machine@.0 == PlayerKind::KnockedOut),
    {
        self.state_machine.knocked_out()
    }

    /// The name of the picture to show now.
    pub fn frame_name(&self) -> (r: String)
        ensures
            r@ == self.spec_frame_name(),
    {
        sprite_key(self.state_machine.frame_name(), self.state_machine.context().frame / 3 + 1)
    }

    pub fn current_sprite(&self) -> (r: Option<Cell>)
        ensures
            r == self.sprite_sheet.spec_cell(self.spec_frame_name()),
    {
        self.sprite_sheet.cell(&self.frame_name())
    }

    /// The current picture exists and its numbers are small.
    proof fn lemma_sprite_small(&self)
        requires
            self.wf(),
        ensures
            self.sprite_sheet.spec_cell(self.spec_frame_name()) is Some,
            cell_small(self.spec_sprite()),
            self.ctx().position.y >= air_low(),
    {
        let kind = self.state_machine@.0;
        let f = self.ctx().frame;
        lemma_rise_range(self.ctx().velocity.y as int);
        assert(f <= frame_count(kind));
        assert(1 <= picture_number(f) <= picture_number(frame_count(kind)));
        assert(self.sprite_sheet.spec_cell(self.spec_frame_name()) is Some);
        lemma_found_cell_in_sheet(self.sprite_sheet.frames@, self.spec_frame_name());
    }

    pub fn destination_box(&self) -> (r: Rect)
        requires
            self.wf(),
        ensures
            r == self.spec_destination_box(),
    {
        proof {
            self.lemma_sprite_small();
        }
        let sprite = self.current_sprite().unwrap();
        let c = self.state_machine.context();
        Rect::new_from_x_y(
            c.position.x + sprite.sprite_source_size.x,
            c.position.y + sprite.sprite_source_size.y,
            sprite.frame.w,
            sprite.frame.h,
        )
    }

    pub fn bounding_box(&self) -> (r: Rect)
        requires
            self.wf(),
        ensures
            r == self.spec_bounding_box(),
            r.edges_fit(),
    {
        proof {
            self.lemma_sprite_small();
        }
        let d = self.destination_box();
        Rect::new_from_x_y(
            d.x() + BOX_X_OFFSET,
            d.y() + BOX_Y_OFFSET,
            d.width - BOX_WIDTH_OFFSET,
            d.height - BOX_Y_OFFSET,
        )
    }

    pub fn pos_y(&self) -> (r: i16)
        ensures
            r == self.ctx().position.y,
    {
        self.state_machine.context().position.y
    }

    pub fn walking_speed(&self) -> (r: i16)
        ensures
            r == self.ctx().velocity.x,
    {
        self.state_machine.context().velocity.x
    }

    pub fn velocity_y(&self) -> (r: i16)
        ensures
            r == self.ctx().velocity.y,
    {
        self.state_machine.context().velocity.y
    }

    /// Hands `event` to the player's state machine.
    fn apply(&mut self, event: Event)
        requires
            old(self).wf(),
            match event {
                Event::Land(y) => LOWEST_TOP <= y <= HEIGHT,
                _ => true,
            },
        ensures
            final(self).wf(),
            final(self).sprite_sheet == old(self).sprite_sheet,
            final(self).state_machine@ == step(old(self).state_machine@, event),
    {
        proof {
            lemma_step_keeps_place(self.state_machine@, event);
        }
        self.state_machine = self.state_machine.transition(event);
    }

    pub fn run_right(&mut self)
        requires
            old(self).wf(),
        ensures
            final(self).wf(),
            final(self).sprite_sheet == old(self).sprite_sheet,
            final(self).state_machine@ == step(old(self).state_machine@, Event::Run),
    {
        self.apply(Event::Run);
    }

    pub fn slide(&mut self)
        requires
            old(self).wf(),
        ensures
            final(self).wf(),
            final(self).sprite_sheet == old(self).sprite_sheet,
            final(self).state_machine@ == step(old(self).state_machine@, Event::Slide),
    {
        self.apply(Event::Slide);
    }

    /// Jumps; tells whether the jump was taken, which is when its sound plays.
    pub fn jump(&mut self) -> (jumped: bool)
        requires
            old(self).wf(),
        ensures
            final(self).wf(),
            final(self).sprite_sheet == old(self).sprite_sheet,
            final(self).state_machine@ == step(old(self).state_machine@, Event::Jump),
            jumped == (old(self).state_machine@.0 == PlayerKind::Running),
    {
        let jumped = self.state_machine.kind() == PlayerKind::Running;
        self.apply(Event::Jump);
        jumped
    }

    pub fn land_on(&mut self, position: i16)
        requires
            old(self).wf(),
            LOWEST_TOP <= position <= HEIGHT,
        ensures
            final(self).wf(),
            final(self).sprite_sheet == old(self).sprite_sheet,
            final(self).state_machine@ == step(old(self).state_machine@, Event::Land(position)),
    {
        self.apply(Event::Land(position));
    }

    pub fn knock_out(&mut self)
        requires
            old(self).wf(),
        ensures
            final(self).wf(),
            final(self).sprite_sheet == old(self).sprite_sheet,
            final(self).state_machine@ == step(old(self).state_machine@, Event::KnockOut),
    {
        self.apply(Event::KnockOut);
    }
}

} // verus!
