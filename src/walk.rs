use crate::boy::{bounding_box_of, sheet_complete, RedHatBoy};
use crate::geometry::Point;
use crate::geometry::fits_i16;
use crate::obstacle::{
    box_in_world, contact, obstacle_boxes, obstacle_right, obstacle_wf, shift_view, Image, Obstacle,
    SIZE_LIMIT,
};
use crate::player::{RedHatBoyContext, RUN_SPEED};
use crate::segments::{
    first_segment_right, is_segment, lemma_first_segment_right, platform_and_stone, rightmost, rightmost_of, stone_and_platform, stone_fits,
};
use crate::sprites::Sheet;
use crate::state_machine::{lemma_step_keeps_speed, step, Event, PlayerKind};
use rand::Rng;
use vstd::prelude::*;

verus! {

/// Below this look-ahead a new segment is generated.
pub const TIMELINE_MINIMUM: i16 = 1000;

/// Gap between the generated content and a new segment.
pub const OBSTACLE_BUFFER: i16 = 20;

/// Highest timeline that the world can reach.
pub const TIMELINE_CEILING: i16 = 6000;

/// Relies on rand's `thread_rng` and `Rng::gen_range`: a value in `0..bound`,
/// which panics only on an empty range.
#[verifier::external_body]
fn random_below(bound: u8) -> (r: u8)
    requires
        bound > 0,
    ensures
        r < bound,
{
    rand::thread_rng().gen_range(0..bound)
}

/// The obstacles of `s` whose right edge is still past the world's origin,
/// in order.
pub open spec fn ahead(s: Seq<Obstacle>) -> Seq<Obstacle>
    decreases s.len(),
{
    if s.len() == 0 {
        s
    } else if obstacle_right(s.last()) > 0 {
        ahead(s.drop_last()).push(s.last())
    } else {
        ahead(s.drop_last())
    }
}

/// `idx` picks out of `s`, at increasing positions, the obstacles of `kept`,
/// and every obstacle of `s` whose right edge is past the origin is picked.
pub open spec fn picks_in_order(s: Seq<Obstacle>, kept: Seq<Obstacle>, idx: Seq<int>) -> bool {
    &&& idx.len() == kept.len()
    &&& forall|j: int| 0 <= j < idx.len() ==> 0 <= #[trigger] idx[j] < s.len() && kept[j] == s[idx[j]]
    &&& forall|j: int, k: int| 0 <= j < k < idx.len() ==> #[trigger] idx[j] < #[trigger] idx[k]
    &&& forall|i: int|
        0 <= i < s.len() && obstacle_right(#[trigger] s[i]) > 0 ==> exists|j: int|
            0 <= j < idx.len() && #[trigger] idx[j] == i
}

/// Culling keeps exactly the obstacles whose right edge is past the origin,
/// in the order they had: every kept obstacle has a positive right edge,
/// and the kept ones are all such obstacles, at increasing positions of the
/// list before culling.
pub proof fn lemma_ahead_keeps_order(s: Seq<Obstacle>)
    ensures
        forall|j: int| 0 <= j < ahead(s).len() ==> obstacle_right(#[trigger] ahead(s)[j]) > 0,
        exists|idx: Seq<int>| #[trigger] picks_in_order(s, ahead(s), idx),
    decreases s.len(),
{
    if s.len() == 0 {
        assert(picks_in_order(s, ahead(s), Seq::<int>::empty()));
    } else {
        let t = s.drop_last();
        lemma_ahead_keeps_order(t);
        let idx0 = choose|idx: Seq<int>| #[trigger] picks_in_order(t, ahead(t), idx);
        if obstacle_right(s.last()) > 0 {
            let idx = idx0.push(s.len() - 1);
            assert forall|i: int|
                0 <= i < s.len() && obstacle_right(#[trigger] s[i]) > 0 implies exists|j: int|
                    0 <= j < idx.len() && #[trigger] idx[j] == i by {
                if i == s.len() - 1 {
                    assert(idx[idx.len() - 1] == i);
                } else {
                    assert(t[i] == s[i]);
                    let j = choose|j: int| 0 <= j < idx0.len() && #[trigger] idx0[j] == i;
                    assert(idx[j] == i);
                }
            }
            assert forall|j: int| 0 <= j < idx.len() implies 0 <= #[trigger] idx[j] < s.len()
                && ahead(s)[j] == s[idx[j]] by {
                if j < idx0.len() {
                    assert(idx[j] == idx0[j]);
                }
            }
            assert forall|j: int, k: int| 0 <= j < k < idx.len() implies #[trigger] idx[j] < #[trigger] idx[k] by {
                if k < idx0.len() {
                    assert(idx[j] == idx0[j] && idx[k] == idx0[k]);
                } else {
                    assert(idx[j] == idx0[j]);
                }
            }
            assert(picks_in_order(s, ahead(s), idx));
        } else {
            assert forall|i: int|
                0 <= i < s.len() && obstacle_right(#[trigger] s[i]) > 0 implies exists|j: int|
                    0 <= j < idx0.len() && #[trigger] idx0[j] == i by {
                assert(t[i] == s[i]);
            }
            assert forall|j: int| 0 <= j < idx0.len() implies 0 <= #[trigger] idx0[j] < s.len()
                && ahead(s)[j] == s[idx0[j]] by {
                assert(t[idx0[j]] == s[idx0[j]]);
            }
            assert(picks_in_order(s, ahead(s), idx0));
        }
    }
}

/// The player in state `v` after running into each of `s` in turn.
pub open spec fn collide_all(
    sheet: Sheet,
    v: (PlayerKind, RedHatBoyContext),
    s: Seq<Obstacle>,
) -> (PlayerKind, RedHatBoyContext)
    decreases s.len(),
{
    if s.len() == 0 {
        v
    } else {
        let before = collide_all(sheet, v, s.drop_last());
        match contact(s.last(), bounding_box_of(sheet, before), before) {
            Some(e) => step(before, e),
            None => before,
        }
    }
}

/// The two copies of the background side by side, the left one covering the
/// world's origin.
pub open spec fn backgrounds_wf(a: Image, b: Image) -> bool {
    let w = a.bounding_box.width;
    &&& b.bounding_box.width == w
    &&& RUN_SPEED <= w <= SIZE_LIMIT
    &&& 0 <= a.bounding_box.height <= SIZE_LIMIT
    &&& 0 <= b.bounding_box.height <= SIZE_LIMIT
    &&& a.bounding_box.position.y == 0
    &&& b.bounding_box.position.y == 0
    &&& {
        ||| b.bounding_box.position.x == a.bounding_box.position.x + w && -w
            <= a.bounding_box.position.x <= 0
        ||| a.bounding_box.position.x == b.bounding_box.position.x + w && -w
            <= b.bounding_box.position.x <= 0
    }
}

/// `i` moved sideways by `distance`.
pub open spec fn moved_image(i: Image, distance: int) -> Image {
    Image {
        bounding_box: crate::geometry::Rect {
            position: Point { x: (i.bounding_box.position.x + distance) as i16, y: i.bounding_box.position.y },
            ..i.bounding_box
        },
    }
}

/// `i` placed at `x`.
pub open spec fn placed_image(i: Image, x: int) -> Image {
    Image {
        bounding_box: crate::geometry::Rect {
            position: Point { x: x as i16, y: i.bounding_box.position.y },
            ..i.bounding_box
        },
    }
}

/// The backgrounds after scrolling by `distance`: each moves, and one whose
/// right edge passed the origin goes right after the other.
pub open spec fn scrolled(a: Image, b: Image, distance: int) -> (Image, Image) {
    let a1 = moved_image(a, distance);
    let b1 = moved_image(b, distance);
    let a2 = if a1.bounding_box.spec_right() < 0 {
        placed_image(a1, b1.bounding_box.spec_right())
    } else {
        a1
    };
    let b2 = if b1.bounding_box.spec_right() < 0 {
        placed_image(b1, a2.bounding_box.spec_right())
    } else {
        b1
    };
    (a2, b2)
}

/// The world of one game: the player, the scrolling backgrounds, the
/// obstacles in the order they were spawned, and how far ahead obstacles
/// have been generated.
pub struct Walk {
    pub obstacle_sheet: Sheet,
    pub boy: RedHatBoy,
    pub first_background: Image,
    pub second_background: Image,
    pub obstacles: Vec<Obstacle>,
    pub stone_width: i16,
    pub stone_height: i16,
    pub timeline: i16,
}

impl Walk {
    pub open spec fn wf(&self) -> bool {
        &&& self.boy.wf()
        &&& 0 <= self.boy.ctx().velocity.x <= RUN_SPEED
        &&& self.boy.state_machine@.0 == PlayerKind::Idle ==> self.boy.ctx().velocity.x == 0
        &&& backgrounds_wf(self.first_background, self.second_background)
        &&& forall|i: int| 0 <= i < self.obstacles@.len() ==> obstacle_wf(#[trigger] self.obstacles@[i])
        &&& stone_fits(self.stone_width, self.stone_height)
        &&& 0 <= self.timeline <= TIMELINE_CEILING
    }

    /// A fresh world, or `None` when the player's sheet lacks a picture or a
    /// size is out of range: the backgrounds need a width between
    /// `RUN_SPEED` and `SIZE_LIMIT` and all heights and the stone's width at
    /// most `SIZE_LIMIT`.
    pub fn new(
        boy_sheet: Sheet,
        obstacle_sheet: Sheet,
        background_width: i16,
        background_height: i16,
        stone_width: i16,
        stone_height: i16,
    ) -> (r: Option<Walk>)
        ensures
            r is Some <==> (sheet_complete(boy_sheet) && RUN_SPEED <= background_width <= SIZE_LIMIT
                && 0 <= background_height <= SIZE_LIMIT && stone_fits(stone_width, stone_height)),
            r matches Some(w) ==> {
                &&& w.wf()
                &&& w.boy.state_machine@ == crate::state_machine::RedHatBoyStateMachine::spec_start()
                &&& is_segment(0, w.obstacles@, obstacle_sheet, stone_width, stone_height, 0)
                &&& w.timeline == rightmost_of(w.obstacles@)
                &&& w.timeline == first_segment_right(stone_width)
                &&& w.first_background.bounding_box.position.x == 0
                &&& w.second_background.bounding_box.position.x == background_width
            },
    {
        if !(RUN_SPEED <= background_width && background_width <= SIZE_LIMIT && 0 <= background_height
            && background_height <= SIZE_LIMIT && 0 <= stone_width && stone_width <= SIZE_LIMIT
            && 0 <= stone_height && stone_height <= SIZE_LIMIT) {
            return None;
        }
        let boy = match RedHatBoy::new(boy_sheet) {
            Some(b) => b,
            None => return None,
        };
        proof {
            lemma_step_keeps_speed(boy.state_machine@, Event::Update);
        }
        let obstacles = stone_and_platform(&obstacle_sheet, stone_width, stone_height, 0);
        let timeline = rightmost(&obstacles);
        proof {
            lemma_first_segment_right(obstacles@, obstacle_sheet, stone_width, stone_height);
        }
        Some(
            Walk {
                obstacle_sheet,
                boy,
                first_background: Image::new(Point { x: 0, y: 0 }, background_width, background_height),
                second_background: Image::new(
                    Point { x: background_width, y: 0 },
                    background_width,
                    background_height,
                ),
                obstacles,
                stone_width,
                stone_height,
                timeline,
            },
        )
    }

    /// The same world started over: a fresh idle player with the same sheet,
    /// the first segment again at the origin, the same backgrounds.
    pub fn reset(walk: Self) -> (r: Self)
        requires
            walk.wf(),
        ensures
            r.wf(),
            r.boy.state_machine@ == crate::state_machine::RedHatBoyStateMachine::spec_start(),
            r.boy.sprite_sheet == walk.boy.sprite_sheet,
            r.obstacle_sheet == walk.obstacle_sheet,
            is_segment(0, r.obstacles@, walk.obstacle_sheet, walk.stone_width, walk.stone_height, 0),
            r.timeline == rightmost_of(r.obstacles@),
            r.timeline == first_segment_right(walk.stone_width),
            r.first_background == walk.first_background,
            r.second_background == walk.second_background,
            r.stone_width == walk.stone_width,
            r.stone_height == walk.stone_height,
    {
        let starting_obstacles = stone_and_platform(
            &walk.obstacle_sheet,
            walk.stone_width,
            walk.stone_height,
            0,
        );
        let timeline = rightmost(&starting_obstacles);
        proof {
            lemma_first_segment_right(
                starting_obstacles@,
                walk.obstacle_sheet,
                walk.stone_width,
                walk.stone_height,
            );
        }
        let boy = RedHatBoy::reset(walk.boy);
        Walk {
            boy,
            first_background: walk.first_background,
            second_background: walk.second_background,
            obstacles: starting_obstacles,
            obstacle_sheet: walk.obstacle_sheet,
            stone_width: walk.stone_width,
            stone_height: walk.stone_height,
            timeline,
        }
    }

    pub fn knocked_out(&self) -> (r: bool)
        ensures
            r == (self.boy.state_machine@.0 == PlayerKind::KnockedOut),
    {
        self.boy.knocked_out()
    }

    /// How far the world scrolls each tick: against the player's running
    /// speed.
    pub fn velocity(&self) -> (r: i16)
        requires
            self.wf(),
        ensures
            r == -self.boy.ctx().velocity.x,
            -RUN_SPEED <= r <= 0,
    {
        -self.boy.walking_speed()
    }

    /// Appends segment `choice` (`0` or `1`; any other choice adds nothing)
    /// just past the timeline, which moves to the segment's right edge.
    pub fn append_segment(&mut self, choice: u8)
        requires
            old(self).wf(),
            old(self).timeline < TIMELINE_MINIMUM,
        ensures
            final(self).wf(),
            final(self).obstacles@.len() >= old(self).obstacles@.len(),
            final(self).obstacles@.subrange(0, old(self).obstacles@.len() as int) == old(self).obstacles@,
            choice <= 1 ==> is_segment(
                choice,
                final(self).obstacles@.subrange(old(self).obstacles@.len() as int, final(self).obstacles@.len() as int),
                old(self).obstacle_sheet,
                old(self).stone_width,
                old(self).stone_height,
                (old(self).timeline + OBSTACLE_BUFFER) as i16,
            ),
            choice > 1 ==> final(self).obstacles@ == old(self).obstacles@,
            final(self).timeline == rightmost_of(
                final(self).obstacles@.subrange(old(self).obstacles@.len() as int, final(self).obstacles@.len() as int),
            ),
            final(self).boy == old(self).boy,
            final(self).first_background == old(self).first_background,
            final(self).second_background == old(self).second_background,
            final(self).obstacle_sheet == old(self).obstacle_sheet,
            final(self).stone_width == old(self).stone_width,
            final(self).stone_height == old(self).stone_height,
    {
        let offset = self.timeline + OBSTACLE_BUFFER;
        let mut next_obstacles = if choice == 0 {
            stone_and_platform(&self.obstacle_sheet, self.stone_width, self.stone_height, offset)
        } else if choice == 1 {
            platform_and_stone(&self.obstacle_sheet, self.stone_width, self.stone_height, offset)
        } else {
            Vec::new()
        };
        let ghost added = next_obstacles@;
        self.timeline = rightmost(&next_obstacles);
        proof {
            reveal_with_fuel(rightmost_of, 3);
        }
        let ghost before = self.obstacles@;
        self.obstacles.append(&mut next_obstacles);
        assert(self.obstacles@.subrange(0, before.len() as int) =~= before);
        assert(self.obstacles@.subrange(before.len() as int, self.obstacles@.len() as int) =~= added);
        assert forall|i: int| 0 <= i < self.obstacles@.len() implies obstacle_wf(#[trigger] self.obstacles@[i]) by {
            if i >= before.len() {
                assert(self.obstacles@[i] == added[i - before.len()]);
            }
        }
    }

    /// Appends a segment picked at random between the two templates.
    pub fn generate_next_segment(&mut self)
        requires
            old(self).wf(),
            old(self).timeline < TIMELINE_MINIMUM,
        ensures
            final(self).wf(),
            final(self).obstacles@.len() == old(self).obstacles@.len() + 2,
            final(self).obstacles@.subrange(0, old(self).obstacles@.len() as int) == old(self).obstacles@,
            exists|choice: u8|
                choice <= 1 && #[trigger] is_segment(
                    choice,
                    final(self).obstacles@.subrange(old(self).obstacles@.len() as int, final(self).obstacles@.len() as int),
                    old(self).obstacle_sheet,
                    old(self).stone_width,
                    old(self).stone_height,
                    (old(self).timeline + OBSTACLE_BUFFER) as i16,
                ),
            final(self).timeline == rightmost_of(
                final(self).obstacles@.subrange(old(self).obstacles@.len() as int, final(self).obstacles@.len() as int),
            ),
            final(self).boy == old(self).boy,
            final(self).first_background == old(self).first_background,
            final(self).second_background == old(self).second_background,
            final(self).obstacle_sheet == old(self).obstacle_sheet,
            final(self).stone_width == old(self).stone_width,
            final(self).stone_height == old(self).stone_height,
    {
        let choice = random_below(2);
        self.append_segment(choice);
    }

    /// Scrolls both backgrounds by `distance`; one that has passed the origin
    /// goes right after the other.
    pub fn scroll_backgrounds(&mut self, distance: i16)
        requires
            old(self).wf(),
            -RUN_SPEED <= distance <= 0,
        ensures
            final(self).wf(),
            (final(self).first_background, final(self).second_background) == scrolled(
                old(self).first_background,
                old(self).second_background,
                distance as int,
            ),
            final(self).boy == old(self).boy,
            final(self).obstacles == old(self).obstacles,
            final(self).obstacle_sheet == old(self).obstacle_sheet,
            final(self).timeline == old(self).timeline,
            final(self).stone_width == old(self).stone_width,
            final(self).stone_height == old(self).stone_height,
    {
        self.first_background.move_horizontal(distance);
        self.second_background.move_horizontal(distance);
        if self.first_background.right() < 0 {
            let x = self.second_background.right();
            self.first_background.set_x(x);
        }
        if self.second_background.right() < 0 {
            let x = self.first_background.right();
            self.second_background.set_x(x);
        }
    }

    /// Drops the obstacles whose right edge has passed the origin, keeping the
    /// order of the rest, moves each of the rest by `distance` and lets the
    /// player run into it in turn.
    pub fn advance_obstacles(&mut self, distance: i16)
        requires
            old(self).wf(),
            -RUN_SPEED <= distance <= 0,
        ensures
            final(self).wf(),
            final(self).obstacles@.len() == ahead(old(self).obstacles@).len(),
            forall|j: int|
                0 <= j < final(self).obstacles@.len() ==> #[trigger] final(self).obstacles@[j]@
                    == shift_view(ahead(old(self).obstacles@)[j]@, distance),
            final(self).boy.state_machine@ == collide_all(
                old(self).boy.sprite_sheet,
                old(self).boy.state_machine@,
                final(self).obstacles@,
            ),
            final(self).boy.sprite_sheet == old(self).boy.sprite_sheet,
            final(self).first_background == old(self).first_background,
            final(self).second_background == old(self).second_background,
            final(self).obstacle_sheet == old(self).obstacle_sheet,
            final(self).timeline == old(self).timeline,
            final(self).stone_width == old(self).stone_width,
            final(self).stone_height == old(self).stone_height,
    {
        let mut pending: Vec<Obstacle> = Vec::new();
        core::mem::swap(&mut self.obstacles, &mut pending);
        let ghost orig = pending@;
        let ghost sheet = self.boy.sprite_sheet;
        let ghost boy0 = self.boy.state_machine@;
        let n = pending.len();
        let mut i: usize = 0;
        assert(orig.subrange(0, 0) =~= Seq::<Obstacle>::empty());
        assert(orig.subrange(0, n as int) =~= orig);
        while i < n
            invariant
                n == orig.len(),
                i <= n,
                pending@ == orig.subrange(i as int, n as int),
                forall|k: int| 0 <= k < orig.len() ==> obstacle_wf(#[trigger] orig[k]),
                -RUN_SPEED <= distance <= 0,
                self.obstacles@.len() == ahead(orig.subrange(0, i as int)).len(),
                forall|j: int|
                    0 <= j < self.obstacles@.len() ==> #[trigger] self.obstacles@[j]@ == shift_view(
                        ahead(orig.subrange(0, i as int))[j]@,
                        distance,
                    ),
                forall|j: int| 0 <= j < self.obstacles@.len() ==> obstacle_wf(#[trigger] self.obstacles@[j]),
                self.boy.state_machine@ == collide_all(sheet, boy0, self.obstacles@),
                self.boy.sprite_sheet == sheet,
                self.boy.wf(),
                0 <= self.boy.ctx().velocity.x <= RUN_SPEED,
                self.boy.state_machine@.0 == PlayerKind::Idle ==> self.boy.ctx().velocity.x == 0,
                self.first_background == old(self).first_background,
                self.second_background == old(self).second_background,
                self.obstacle_sheet == old(self).obstacle_sheet,
                self.timeline == old(self).timeline,
                self.stone_width == old(self).stone_width,
                self.stone_height == old(self).stone_height,
            decreases n - i,
        {
            assert(orig.subrange(0, i + 1).drop_last() =~= orig.subrange(0, i as int));
            assert(orig.subrange(0, i + 1).last() == orig[i as int]);
            let ghost kept_before = self.obstacles@;
            let mut o = pending.remove(0);
            assert(pending@ =~= orig.subrange(i + 1, n as int));
            if o.right() > 0 {
                proof {
                    let boxes0 = obstacle_boxes(o);
                    assert(box_in_world(boxes0[boxes0.len() - 1]));
                    assert forall|b: int| 0 <= b < boxes0.len() implies fits_i16(
                        #[trigger] boxes0[b].position.x + distance,
                    ) by {
                        assert(box_in_world(boxes0[b]));
                    }
                }
                o.move_horizontal(distance);
                let ghost v = self.boy.state_machine@;
                o.check_intersection(&mut self.boy);
                proof {
                    match contact(o, bounding_box_of(sheet, v), v) {
                        Some(e) => lemma_step_keeps_speed(v, e),
                        None => {},
                    }
                }
                self.obstacles.push(o);
                assert(self.obstacles@.drop_last() =~= kept_before);
            }
            i = i + 1;
        }
    }
}

} // verus!
