use crate::boy::RedHatBoy;
use crate::geometry::{fits_i16, Point, Rect};
use crate::player::{HEIGHT, LOWEST_TOP, RUN_SPEED};
use crate::sprites::{find_cell, Cell, Sheet};
use crate::state_machine::{step, Event, PlayerKind};
use crate::player::RedHatBoyContext;
use vstd::prelude::*;

verus! {

/// Largest width or height of anything placed in the world.
pub const SIZE_LIMIT: i16 = 4000;

/// How far left of an obstacle's right edge any of its boxes may start.
pub const SPAN_LIMIT: i16 = 4000;

/// The world's horizontal extent for the left edges of obstacles.
pub const WORLD_MIN: i16 = -8000;

pub const WORLD_MAX: i16 = 8000;

/// A picture placed in the world: its box.
#[derive(Clone, Copy, Debug, PartialEq, Eq, Structural)]
pub struct Image {
    pub bounding_box: Rect,
}

impl Image {
    pub fn new(position: Point, width: i16, height: i16) -> (r: Image)
        ensures
            r.bounding_box == (Rect { position, width, height }),
    {
        Image { bounding_box: Rect::new(position, width, height) }
    }

    pub fn move_horizontal(&mut self, distance: i16)
        requires
            fits_i16(old(self).bounding_box.position.x + distance),
        ensures
            final(self).bounding_box == (Rect {
                position: Point {
                    x: (old(self).bounding_box.position.x + distance) as i16,
                    y: old(self).bounding_box.position.y,
                },
                ..old(self).bounding_box
            }),
    {
        let x = self.bounding_box.x() + distance;
        self.bounding_box.set_x(x);
    }

    pub fn set_x(&mut self, x: i16)
        ensures
            final(self).bounding_box == (Rect {
                position: Point { x, y: old(self).bounding_box.position.y },
                ..old(self).bounding_box
            }),
    {
        self.bounding_box.set_x(x);
    }

    pub fn right(&self) -> (r: i16)
        requires
            self.bounding_box.edges_fit(),
        ensures
            r == self.bounding_box.spec_right(),
    {
        self.bounding_box.right()
    }
}

/// `r` moved by `by`.
pub open spec fn offset_rect(r: Rect, by: Point) -> Rect {
    Rect {
        position: Point { x: (r.position.x + by.x) as i16, y: (r.position.y + by.y) as i16 },
        ..r
    }
}

/// The cells that `names` find in `frames`, in order; names not found are
/// skipped.
pub open spec fn found_cells(frames: Seq<(String, Cell)>, names: Seq<Seq<char>>) -> Seq<Cell>
    decreases names.len(),
{
    if names.len() == 0 {
        seq![]
    } else {
        let before = found_cells(frames, names.drop_last());
        match find_cell(frames, names.last()) {
            Some(c) => before.push(c),
            None => before,
        }
    }
}

/// The first of `boxes` that `target` intersects.
pub open spec fn first_hit(boxes: Seq<Rect>, target: Rect) -> Option<Rect>
    decreases boxes.len(),
{
    if boxes.len() == 0 {
        None
    } else if target.spec_intersects(boxes[0]) {
        Some(boxes[0])
    } else {
        first_hit(boxes.drop_first(), target)
    }
}

/// What touching a platform does to the player: coming down onto it from
/// above lands on the touched box's top; any other contact knocks out.
pub open spec fn platform_contact(velocity_y: i16, player_y: i16, platform_y: i16, top: i16) -> Event {
    if velocity_y > 0 && player_y < platform_y {
        Event::Land(top)
    } else {
        Event::KnockOut
    }
}

/// The event a contact with a platform at height `platform_y`, on a box
/// whose top is `top`, hands to the player.
pub fn contact_event(velocity_y: i16, player_y: i16, platform_y: i16, top: i16) -> (r: Event)
    ensures
        r == platform_contact(velocity_y, player_y, platform_y, top),
        r == Event::Land(top) <==> (velocity_y > 0 && player_y < platform_y),
        r == Event::KnockOut <==> !(velocity_y > 0 && player_y < platform_y),
{
    if velocity_y > 0 && player_y < platform_y {
        Event::Land(top)
    } else {
        Event::KnockOut
    }
}

/// A box that can stand in the world.
pub open spec fn box_in_world(r: Rect) -> bool {
    &&& 0 <= r.width <= SIZE_LIMIT
    &&& 0 <= r.height <= SIZE_LIMIT
    &&& LOWEST_TOP <= r.position.y <= HEIGHT
    &&& WORLD_MIN <= r.position.x <= WORLD_MAX
}

/// The total width of the first `k` sprites.
pub open spec fn widths_before(sprites: Seq<Cell>, k: int) -> int
    decreases k,
{
    if k <= 0 {
        0
    } else {
        widths_before(sprites, k - 1) + sprites[k - 1].frame.w
    }
}

/// Every running width and every sprite's left edge can be computed in `i16`.
pub open spec fn placements_fit(sprites: Seq<Cell>, x: i16) -> bool {
    forall|k: int|
        0 <= k <= sprites.len() ==> fits_i16(#[trigger] widths_before(sprites, k)) && (k < sprites.len()
            ==> fits_i16(x + widths_before(sprites, k)))
}

/// One or more sprite cells drawn side by side, with the boxes the player
/// collides with.
#[derive(Clone, Debug)]
pub struct Platform {
    pub bounding_boxes: Vec<Rect>,
    pub sprites: Vec<Cell>,
    pub position: Point,
}

impl Platform {
    /// A platform at `position` drawn with the cells of `sprite_names` that
    /// `sheet` has, colliding through `bounding_boxes` moved to `position`.
    pub fn new(sheet: &Sheet, position: Point, sprite_names: &[String], bounding_boxes: &[Rect]) -> (r: Self)
        requires
            forall|i: int|
                0 <= i < bounding_boxes@.len() ==> fits_i16(#[trigger] bounding_boxes@[i].position.x + position.x)
                    && fits_i16(bounding_boxes@[i].position.y + position.y),
        ensures
            r.position == position,
            r.sprites@ == found_cells(sheet.frames@, sprite_names@.map_values(|n: String| n@)),
            r.bounding_boxes@.len() == bounding_boxes@.len(),
            forall|i: int|
                0 <= i < bounding_boxes@.len() ==> #[trigger] r.bounding_boxes@[i] == offset_rect(
                    bounding_boxes@[i],
                    position,
                ),
    {
        let mut sprites: Vec<Cell> = Vec::new();
        let mut i: usize = 0;
        while i < sprite_names.len()
            invariant
                i <= sprite_names@.len(),
                sprites@ == found_cells(
                    sheet.frames@,
                    sprite_names@.subrange(0, i as int).map_values(|n: String| n@),
                ),
            decreases sprite_names@.len() - i,
        {
            assert(sprite_names@.subrange(0, i + 1).map_values(|n: String| n@).drop_last()
                =~= sprite_names@.subrange(0, i as int).map_values(|n: String| n@));
            if let Some(cell) = sheet.cell(&sprite_names[i]) {
                sprites.push(cell);
            }
            i = i + 1;
        }
        assert(sprite_names@.subrange(0, sprite_names@.len() as int) =~= sprite_names@);
        assert(sprite_names@.subrange(0, sprite_names@.len() as int).map_values(|n: String| n@)
            =~= sprite_names@.map_values(|n: String| n@));
        let mut boxes: Vec<Rect> = Vec::new();
        let mut j: usize = 0;
        while j < bounding_boxes.len()
            invariant
                j <= bounding_boxes@.len(),
                boxes@.len() == j,
                forall|k: int|
                    0 <= k < bounding_boxes@.len() ==> fits_i16(#[trigger] bounding_boxes@[k].position.x + position.x)
                        && fits_i16(bounding_boxes@[k].position.y + position.y),
                forall|k: int| 0 <= k < j ==> #[trigger] boxes@[k] == offset_rect(bounding_boxes@[k], position),
            decreases bounding_boxes@.len() - j,
        {
            let b = bounding_boxes[j];
            boxes.push(Rect::new_from_x_y(b.x() + position.x, b.y() + position.y, b.width, b.height));
            j = j + 1;
        }
        Platform { bounding_boxes: boxes, sprites, position }
    }

    /// Moves the platform and each of its boxes by `distance`.
    pub fn move_horizontal(&mut self, distance: i16)
        requires
            fits_i16(old(self).position.x + distance),
            forall|k: int|
                0 <= k < old(self).bounding_boxes@.len() ==> fits_i16(
                    #[trigger] old(self).bounding_boxes@[k].position.x + distance,
                ),
        ensures
            final(self).position == (Point {
                x: (old(self).position.x + distance) as i16,
                y: old(self).position.y,
            }),
            final(self).sprites == old(self).sprites,
            final(self).bounding_boxes@ == old(self).bounding_boxes@.map_values(
                |r: Rect| shift_rect(r, distance),
            ),
    {
        self.position.x = self.position.x + distance;
        let ghost boxes0 = self.bounding_boxes@;
        let mut i: usize = 0;
        while i < self.bounding_boxes.len()
            invariant
                i <= self.bounding_boxes@.len(),
                self.bounding_boxes@.len() == boxes0.len(),
                self.position == (Point { x: (old(self).position.x + distance) as i16, y: old(self).position.y }),
                self.sprites == old(self).sprites,
                boxes0 == old(self).bounding_boxes@,
                forall|k: int| 0 <= k < boxes0.len() ==> fits_i16(#[trigger] boxes0[k].position.x + distance),
                forall|k: int| 0 <= k < i ==> #[trigger] self.bounding_boxes@[k] == shift_rect(boxes0[k], distance),
                forall|k: int| i <= k < boxes0.len() ==> #[trigger] self.bounding_boxes@[k] == boxes0[k],
            decreases boxes0.len() - i,
        {
            let mut moved = self.bounding_boxes[i];
            let x = moved.x() + distance;
            moved.set_x(x);
            self.bounding_boxes.set(i, moved);
            i = i + 1;
        }
        assert(self.bounding_boxes@ =~= boxes0.map_values(|r: Rect| shift_rect(r, distance)));
    }

    /// Where each sprite is drawn: side by side from the platform's position,
    /// each as large as its cell; `None` when a position leaves `i16`.
    pub fn sprite_destinations(&self) -> (r: Option<Vec<Rect>>)
        ensures
            r is Some <==> placements_fit(self.sprites@, self.position.x),
            r matches Some(v) ==> v@.len() == self.sprites@.len() && forall|k: int|
                0 <= k < v@.len() ==> #[trigger] v@[k] == (Rect {
                    position: Point {
                        x: (self.position.x + widths_before(self.sprites@, k)) as i16,
                        y: self.position.y,
                    },
                    width: self.sprites@[k].frame.w,
                    height: self.sprites@[k].frame.h,
                }),
    {
        let mut destinations: Vec<Rect> = Vec::new();
        let mut x: i16 = 0;
        let mut i: usize = 0;
        while i < self.sprites.len()
            invariant
                i <= self.sprites@.len(),
                x == widths_before(self.sprites@, i as int),
                destinations@.len() == i,
                forall|k: int|
                    0 <= k <= i ==> fits_i16(#[trigger] widths_before(self.sprites@, k)) && (k < i
                        ==> fits_i16(self.position.x + widths_before(self.sprites@, k))),
                forall|k: int|
                    0 <= k < i ==> #[trigger] destinations@[k] == (Rect {
                        position: Point {
                            x: (self.position.x + widths_before(self.sprites@, k)) as i16,
                            y: self.position.y,
                        },
                        width: self.sprites@[k].frame.w,
                        height: self.sprites@[k].frame.h,
                    }),
            decreases self.sprites@.len() - i,
        {
            let sprite = self.sprites[i];
            let left = self.position.x as i32 + x as i32;
            let next = x as i32 + sprite.frame.w as i32;
            if left < i16::MIN as i32 || left > i16::MAX as i32 || next < i16::MIN as i32 || next
                > i16::MAX as i32 {
                assert(!fits_i16(self.position.x + widths_before(self.sprites@, i as int))
                    || !fits_i16(widths_before(self.sprites@, i + 1)));
                return None;
            }
            destinations.push(
                Rect::new_from_x_y(self.position.x + x, self.position.y, sprite.frame.w, sprite.frame.h),
            );
            x = next as i16;
            i = i + 1;
        }
        Some(destinations)
    }

    pub fn bounding_boxes(&self) -> (r: &Vec<Rect>)
        ensures
            r == &self.bounding_boxes,
    {
        &self.bounding_boxes
    }
}

/// A single picture that knocks the player out on contact.
#[derive(Clone, Copy, Debug, PartialEq, Eq, Structural)]
pub struct Barrier {
    pub image: Image,
}

impl Barrier {
    pub fn new(image: Image) -> (r: Self)
        ensures
            r.image == image,
    {
        Barrier { image }
    }
}

/// Something on the course the player can run into.
#[derive(Clone, Debug)]
pub enum Obstacle {
    Platform(Platform),
    Barrier(Barrier),
}

/// An obstacle seen as its boxes and the platform's height.
pub open spec fn obstacle_boxes(o: Obstacle) -> Seq<Rect> {
    match o {
        Obstacle::Platform(p) => p.bounding_boxes@,
        Obstacle::Barrier(b) => seq![b.image.bounding_box],
    }
}

/// The right edge of the last box, or 0 for an obstacle without boxes.
pub open spec fn obstacle_right(o: Obstacle) -> int {
    let boxes = obstacle_boxes(o);
    if boxes.len() == 0 {
        0
    } else {
        boxes.last().spec_right()
    }
}

/// Every box of the obstacle can stand in the world and starts no further
/// than `SPAN_LIMIT` left of the obstacle's right edge.
pub open spec fn obstacle_wf(o: Obstacle) -> bool {
    &&& forall|i: int|
        0 <= i < obstacle_boxes(o).len() ==> box_in_world(#[trigger] obstacle_boxes(o)[i])
            && obstacle_right(o) - SPAN_LIMIT <= obstacle_boxes(o)[i].position.x
    &&& o matches Obstacle::Platform(p) ==> WORLD_MIN <= p.position.x <= WORLD_MAX
        && obstacle_right(o) - SPAN_LIMIT <= p.position.x
}

/// What an obstacle does to the player in state `v` whose box is `player_box`.
pub open spec fn contact(o: Obstacle, player_box: Rect, v: (PlayerKind, RedHatBoyContext)) -> Option<Event> {
    match o {
        Obstacle::Platform(p) => match first_hit(p.bounding_boxes@, player_box) {
            Some(b) => Some(platform_contact(v.1.velocity.y, v.1.position.y, p.position.y, b.position.y)),
            None => None,
        },
        Obstacle::Barrier(b) => if player_box.spec_intersects(b.image.bounding_box) {
            Some(Event::KnockOut)
        } else {
            None
        },
    }
}

/// An obstacle seen as whether it is a platform, its position, its sprites
/// and its boxes.
impl View for Obstacle {
    type V = (bool, Point, Seq<Cell>, Seq<Rect>);

    open spec fn view(&self) -> (bool, Point, Seq<Cell>, Seq<Rect>) {
        match self {
            Obstacle::Platform(p) => (true, p.position, p.sprites@, p.bounding_boxes@),
            Obstacle::Barrier(b) => (false, b.image.bounding_box.position, seq![], seq![b.image.bounding_box]),
        }
    }
}

/// An obstacle's view moved sideways by `distance`.
pub open spec fn shift_view(v: (bool, Point, Seq<Cell>, Seq<Rect>), distance: i16) -> (bool, Point, Seq<Cell>, Seq<Rect>) {
    (
        v.0,
        Point { x: (v.1.x + distance) as i16, y: v.1.y },
        v.2,
        v.3.map_values(|r: Rect| shift_rect(r, distance)),
    )
}

/// `r` moved sideways by `distance`.
pub open spec fn shift_rect(r: Rect, distance: i16) -> Rect {
    Rect { position: Point { x: (r.position.x + distance) as i16, y: r.position.y }, ..r }
}

/// A box found by `first_hit` is one of the boxes.
pub proof fn lemma_first_hit_member(boxes: Seq<Rect>, target: Rect)
    requires
        first_hit(boxes, target) is Some,
    ensures
        exists|i: int| 0 <= i < boxes.len() && boxes[i] == first_hit(boxes, target)->0,
    decreases boxes.len(),
{
    if !target.spec_intersects(boxes[0]) {
        lemma_first_hit_member(boxes.drop_first(), target);
        let i = choose|i: int|
            0 <= i < boxes.drop_first().len() && boxes.drop_first()[i] == first_hit(
                boxes.drop_first(),
                target,
            )->0;
        assert(boxes[i + 1] == first_hit(boxes, target)->0);
    } else {
        assert(boxes[0] == first_hit(boxes, target)->0);
    }
}

impl Obstacle {
    /// Lets the player run into this obstacle: a platform it touches lands
    /// or knocks it out, a barrier it touches knocks it out.
    pub fn check_intersection(&self, boy: &mut RedHatBoy)
        requires
            obstacle_wf(*self),
            old(boy).wf(),
        ensures
            final(boy).wf(),
            final(boy).sprite_sheet == old(boy).sprite_sheet,
            final(boy).state_machine@ == match contact(
                *self,
                old(boy).spec_bounding_box(),
                old(boy).state_machine@,
            ) {
                Some(e) => step(old(boy).state_machine@, e),
                None => old(boy).state_machine@,
            },
    {
        let player_box = boy.bounding_box();
        match self {
            Obstacle::Platform(p) => {
                let boxes = &p.bounding_boxes;
                let mut i: usize = 0;
                assert(boxes@.subrange(0, boxes@.len() as int) =~= boxes@);
                while i < boxes.len()
                    invariant
                        i <= boxes@.len(),
                        boxes == &p.bounding_boxes,
                        obstacle_wf(*self),
                        *boy == *old(boy),
                        boy.wf(),
                        player_box == old(boy).spec_bounding_box(),
                        *self == Obstacle::Platform(*p),
                        player_box.edges_fit(),
                        first_hit(boxes@, player_box) == first_hit(
                            boxes@.subrange(i as int, boxes@.len() as int),
                            player_box,
                        ),
                    decreases boxes@.len() - i,
                {
                    let ghost rest = boxes@.subrange(i as int, boxes@.len() as int);
                    assert(rest.drop_first() =~= boxes@.subrange(i + 1, boxes@.len() as int));
                    assert(box_in_world(obstacle_boxes(*self)[i as int]));
                    if player_box.intersects(&boxes[i]) {
                        let top = boxes[i].y();
                        let event = contact_event(boy.velocity_y(), boy.pos_y(), p.position.y, top);
                        match event {
                            Event::Land(t) => boy.land_on(t),
                            _ => boy.knock_out(),
                        }
                        return;
                    }
                    i = i + 1;
                }
                assert(boxes@.subrange(i as int, boxes@.len() as int).len() == 0);
            },
            Obstacle::Barrier(b) => {
                assert(box_in_world(obstacle_boxes(*self)[0]));
                if player_box.intersects(&b.image.bounding_box) {
                    boy.knock_out();
                }
            },
        }
    }

    /// Moves every box of the obstacle, and a platform's position, by
    /// `distance`.
    /// An obstacle of the world that has not yet passed the origin stays in
    /// the world when it scrolls by at most `RUN_SPEED`.
    pub fn move_horizontal(&mut self, distance: i16)
        requires
            forall|i: int|
                0 <= i < obstacle_boxes(*old(self)).len() ==> fits_i16(
                    #[trigger] obstacle_boxes(*old(self))[i].position.x + distance,
                ),
            *old(self) matches Obstacle::Platform(p) ==> fits_i16(p.position.x + distance),
        ensures
            (obstacle_wf(*old(self)) && obstacle_right(*old(self)) > 0 && -RUN_SPEED <= distance <= 0)
                ==> obstacle_wf(*final(self)),
            obstacle_boxes(*final(self)) == obstacle_boxes(*old(self)).map_values(
                |r: Rect| shift_rect(r, distance),
            ),
            obstacle_boxes(*old(self)).len() > 0 ==> obstacle_right(*final(self)) == obstacle_right(
                *old(self),
            ) + distance,
            final(self)@ == shift_view(old(self)@, distance),
            match (*old(self), *final(self)) {
                (Obstacle::Platform(p), Obstacle::Platform(q)) => q.position == Point {
                    x: (p.position.x + distance) as i16,
                    y: p.position.y,
                } && q.sprites == p.sprites,
                (Obstacle::Barrier(_), Obstacle::Barrier(_)) => true,
                _ => false,
            },
    {
        match self {
            Obstacle::Platform(p) => {
                assert forall|k: int| 0 <= k < p.bounding_boxes@.len() implies fits_i16(
                    #[trigger] p.bounding_boxes@[k].position.x + distance,
                ) by {
                    assert(fits_i16(obstacle_boxes(*old(self))[k].position.x + distance));
                }
                p.move_horizontal(distance);
            },
            Obstacle::Barrier(b) => {
                assert(fits_i16(obstacle_boxes(*old(self))[0].position.x + distance));
                b.image.move_horizontal(distance);
                assert(seq![b.image.bounding_box] =~= seq![old(self)->Barrier_0.image.bounding_box].map_values(|r: Rect| shift_rect(r, distance)));
            },
        }
        proof {
            let boxes = obstacle_boxes(*final(self));
            let boxes0 = obstacle_boxes(*old(self));
            if boxes0.len() > 0 {
                assert(fits_i16(boxes0[boxes0.len() - 1].position.x + distance));
                assert(boxes[boxes.len() - 1] == shift_rect(boxes0[boxes0.len() - 1], distance));
            }
            if obstacle_wf(*old(self)) && obstacle_right(*old(self)) > 0 && -RUN_SPEED <= distance <= 0 {
                assert(box_in_world(boxes0[boxes0.len() - 1]));
                assert forall|i: int| 0 <= i < boxes.len() implies box_in_world(#[trigger] boxes[i])
                    && obstacle_right(*final(self)) - SPAN_LIMIT <= boxes[i].position.x by {
                    assert(box_in_world(boxes0[i]));
                    assert(boxes[i] == shift_rect(boxes0[i], distance));
                }
            }
        }
    }

    /// The right edge of the obstacle.
    pub fn right(&self) -> (r: i16)
        requires
            obstacle_boxes(*self).len() > 0 ==> obstacle_boxes(*self).last().edges_fit(),
        ensures
            r == obstacle_right(*self),
    {
        match self {
            Obstacle::Platform(p) => {
                if p.bounding_boxes.len() == 0 {
                    Rect::new_from_x_y(0, 0, 0, 0).right()
                } else {
                    p.bounding_boxes[p.bounding_boxes.len() - 1].right()
                }
            },
            Obstacle::Barrier(b) => {
                b.image.right()
            },
        }
    }
}

} // verus!
