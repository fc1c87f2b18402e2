use crate::geometry::{Point, Rect};
use crate::obstacle::{
    box_in_world, found_cells, obstacle_boxes, obstacle_right, obstacle_wf, offset_rect, Barrier,
    Image, Obstacle, Platform, SIZE_LIMIT, SPAN_LIMIT, WORLD_MAX, WORLD_MIN,
};
use crate::sprites::Sheet;
use vstd::prelude::*;
use vstd::string::StringExecFns;

verus! {

pub const LOW_PLATFORM: i16 = 420;

pub const HIGH_PLATFORM: i16 = 375;

pub const FIRST_PLATFORM: i16 = 370;

pub const STONE_ON_GROUND: i16 = 546;

pub const PLATFORM_WIDTH: i16 = 384;

pub const PLATFORM_HEIGHT: i16 = 93;

pub const PLATFORM_EDGE_WIDTH: i16 = 60;

pub const PLATFORM_EDGE_HEIGHT: i16 = 54;

/// Where the stone stands in the stone-then-platform segment.
pub const FIRST_STONE_OFFSET: i16 = 150;

/// Where the stone and the platform stand in the platform-then-stone segment.
pub const LATE_STONE_OFFSET: i16 = 400;

pub const EARLY_PLATFORM_OFFSET: i16 = 200;

/// How far right of its offset a segment may reach, stone aside, with room
/// to spare.
pub const SEGMENT_REACH: i16 = 800;

/// The collision boxes of a floating platform, relative to its position: two
/// low edges around a deeper middle.
pub open spec fn floating_platform_boxes() -> Seq<Rect> {
    seq![
        Rect { position: Point { x: 0, y: 0 }, width: PLATFORM_EDGE_WIDTH, height: PLATFORM_EDGE_HEIGHT },
        Rect {
            position: Point { x: PLATFORM_EDGE_WIDTH, y: 0 },
            width: (PLATFORM_WIDTH - PLATFORM_EDGE_WIDTH * 2) as i16,
            height: PLATFORM_HEIGHT,
        },
        Rect {
            position: Point { x: (PLATFORM_WIDTH - PLATFORM_EDGE_WIDTH) as i16, y: 0 },
            width: PLATFORM_EDGE_WIDTH,
            height: PLATFORM_EDGE_HEIGHT,
        },
    ]
}

pub open spec fn floating_platform_names() -> Seq<Seq<char>> {
    seq!["13.png"@, "14.png"@, "15.png"@]
}

/// `o` is a floating platform at `at`, drawn from `sheet`.
pub open spec fn is_floating_platform(o: Obstacle, sheet: Sheet, at: Point) -> bool {
    &&& o matches Obstacle::Platform(p)
    &&& o->Platform_0.position == at
    &&& o->Platform_0.sprites@ == found_cells(sheet.frames@, floating_platform_names())
    &&& o->Platform_0.bounding_boxes@ == floating_platform_boxes().map_values(
        |r: Rect| offset_rect(r, at),
    )
}

/// `o` is a stone of the given size at `at`.
pub open spec fn is_stone(o: Obstacle, at: Point, width: i16, height: i16) -> bool {
    o == Obstacle::Barrier(Barrier { image: Image { bounding_box: Rect { position: at, width, height } } })
}

/// The segment templates: `0` is a stone then a low platform, `1` a high
/// platform then a stone, both placed `offset_x` into the world.
pub open spec fn is_segment(
    choice: u8,
    s: Seq<Obstacle>,
    sheet: Sheet,
    stone_width: i16,
    stone_height: i16,
    offset_x: i16,
) -> bool {
    &&& s.len() == 2
    &&& choice == 0 ==> is_stone(
        s[0],
        Point { x: (offset_x + FIRST_STONE_OFFSET) as i16, y: STONE_ON_GROUND },
        stone_width,
        stone_height,
    ) && is_floating_platform(s[1], sheet, Point { x: (offset_x + FIRST_PLATFORM) as i16, y: LOW_PLATFORM })
    &&& choice != 0 ==> is_stone(
        s[0],
        Point { x: (offset_x + LATE_STONE_OFFSET) as i16, y: STONE_ON_GROUND },
        stone_width,
        stone_height,
    ) && is_floating_platform(
        s[1],
        sheet,
        Point { x: (offset_x + EARLY_PLATFORM_OFFSET) as i16, y: HIGH_PLATFORM },
    )
}

/// Sizes of a stone picture that the world can hold.
pub open spec fn stone_fits(width: i16, height: i16) -> bool {
    0 <= width <= SIZE_LIMIT && 0 <= height <= SIZE_LIMIT
}

/// Offsets at which a segment stays inside the world.
pub open spec fn offset_fits(offset_x: i16) -> bool {
    WORLD_MIN <= offset_x <= WORLD_MAX - SEGMENT_REACH
}

fn floating_platform(sheet: &Sheet, position: Point) -> (r: Obstacle)
    requires
        WORLD_MIN <= position.x <= WORLD_MAX - PLATFORM_WIDTH,
        0 <= position.y <= 500,
    ensures
        is_floating_platform(r, *sheet, position),
        obstacle_wf(r),
        obstacle_right(r) == position.x + PLATFORM_WIDTH,
{
    let names: Vec<String> = vec![
        String::from_str("13.png"),
        String::from_str("14.png"),
        String::from_str("15.png"),
    ];
    let middle_width: i16 = PLATFORM_WIDTH - PLATFORM_EDGE_WIDTH * 2;
    let right_edge: i16 = PLATFORM_WIDTH - PLATFORM_EDGE_WIDTH;
    let boxes: Vec<Rect> = vec![
        Rect::new_from_x_y(0, 0, PLATFORM_EDGE_WIDTH, PLATFORM_EDGE_HEIGHT),
        Rect::new_from_x_y(PLATFORM_EDGE_WIDTH, 0, middle_width, PLATFORM_HEIGHT),
        Rect::new_from_x_y(right_edge, 0, PLATFORM_EDGE_WIDTH, PLATFORM_EDGE_HEIGHT),
    ];
    assert(names@.map_values(|n: String| n@) =~= floating_platform_names());
    assert(boxes@ =~= floating_platform_boxes());
    let p = Platform::new(sheet, position, names.as_slice(), boxes.as_slice());
    assert(p.bounding_boxes@ =~= floating_platform_boxes().map_values(|r: Rect| offset_rect(r, position)));
    let r = Obstacle::Platform(p);
    assert forall|i: int| 0 <= i < obstacle_boxes(r).len() implies box_in_world(#[trigger] obstacle_boxes(r)[i])
        && obstacle_right(r) - SPAN_LIMIT <= obstacle_boxes(r)[i].position.x by {
        assert(obstacle_boxes(r)[i] == offset_rect(boxes@[i], position));
    }
    r
}

fn stone(position: Point, width: i16, height: i16) -> (r: Obstacle)
    requires
        stone_fits(width, height),
        WORLD_MIN <= position.x <= WORLD_MAX,
        position.y == STONE_ON_GROUND,
    ensures
        is_stone(r, position, width, height),
        obstacle_wf(r),
        obstacle_right(r) == position.x + width,
{
    let r = Obstacle::Barrier(Barrier::new(Image::new(position, width, height)));
    assert(box_in_world(obstacle_boxes(r)[0]));
    r
}

/// A stone on the ground, then a low platform.
pub fn stone_and_platform(sheet: &Sheet, stone_width: i16, stone_height: i16, offset_x: i16) -> (r: Vec<Obstacle>)
    requires
        stone_fits(stone_width, stone_height),
        offset_fits(offset_x),
    ensures
        is_segment(0, r@, *sheet, stone_width, stone_height, offset_x),
        forall|i: int| 0 <= i < r@.len() ==> obstacle_wf(#[trigger] r@[i]),
        obstacle_right(r@[0]) == offset_x + FIRST_STONE_OFFSET + stone_width,
        obstacle_right(r@[1]) == offset_x + FIRST_PLATFORM + PLATFORM_WIDTH,
{
    vec![
        stone(Point { x: offset_x + FIRST_STONE_OFFSET, y: STONE_ON_GROUND }, stone_width, stone_height),
        floating_platform(sheet, Point { x: offset_x + FIRST_PLATFORM, y: LOW_PLATFORM }),
    ]
}

/// A high platform, then a stone on the ground further on.
pub fn platform_and_stone(sheet: &Sheet, stone_width: i16, stone_height: i16, offset_x: i16) -> (r: Vec<Obstacle>)
    requires
        stone_fits(stone_width, stone_height),
        offset_fits(offset_x),
    ensures
        is_segment(1, r@, *sheet, stone_width, stone_height, offset_x),
        forall|i: int| 0 <= i < r@.len() ==> obstacle_wf(#[trigger] r@[i]),
        obstacle_right(r@[0]) == offset_x + LATE_STONE_OFFSET + stone_width,
        obstacle_right(r@[1]) == offset_x + EARLY_PLATFORM_OFFSET + PLATFORM_WIDTH,
{
    vec![
        stone(Point { x: offset_x + LATE_STONE_OFFSET, y: STONE_ON_GROUND }, stone_width, stone_height),
        floating_platform(sheet, Point { x: offset_x + EARLY_PLATFORM_OFFSET, y: HIGH_PLATFORM }),
    ]
}

/// The largest right edge among `s`, or 0 when `s` is empty.
pub open spec fn rightmost_of(s: Seq<Obstacle>) -> int
    decreases s.len(),
{
    if s.len() == 0 {
        0
    } else if s.len() == 1 {
        obstacle_right(s[0])
    } else {
        let before = rightmost_of(s.drop_last());
        let last = obstacle_right(s.last());
        if last > before {
            last
        } else {
            before
        }
    }
}

/// The largest right edge among the obstacles, or 0 when there are none.
pub fn rightmost(obstacle_list: &Vec<Obstacle>) -> (r: i16)
    requires
        forall|i: int| 0 <= i < obstacle_list@.len() ==> obstacle_wf(#[trigger] obstacle_list@[i]),
    ensures
        r == rightmost_of(obstacle_list@),
{
    let mut best: i16 = 0;
    let mut i: usize = 0;
    while i < obstacle_list.len()
        invariant
            i <= obstacle_list@.len(),
            forall|k: int| 0 <= k < obstacle_list@.len() ==> obstacle_wf(#[trigger] obstacle_list@[k]),
            best == rightmost_of(obstacle_list@.subrange(0, i as int)),
        decreases obstacle_list@.len() - i,
    {
        let r = obstacle_list[i].right();
        assert(obstacle_list@.subrange(0, i + 1).drop_last() =~= obstacle_list@.subrange(0, i as int));
        if i == 0 || r > best {
            best = r;
        }
        i = i + 1;
    }
    assert(obstacle_list@.subrange(0, obstacle_list@.len() as int) =~= obstacle_list@);
    best
}

/// The right edge of the first segment placed at the origin.
pub open spec fn first_segment_right(stone_width: i16) -> int {
    let stone_right = FIRST_STONE_OFFSET + stone_width;
    let platform_right = FIRST_PLATFORM + PLATFORM_WIDTH;
    if platform_right > stone_right {
        platform_right
    } else {
        stone_right
    }
}

/// The right edge of a stone-then-platform segment at the origin depends on
/// the stone's width alone.
pub proof fn lemma_first_segment_right(s: Seq<Obstacle>, sheet: Sheet, stone_width: i16, stone_height: i16)
    requires
        is_segment(0, s, sheet, stone_width, stone_height, 0),
        stone_fits(stone_width, stone_height),
    ensures
        rightmost_of(s) == first_segment_right(stone_width),
{
    reveal_with_fuel(rightmost_of, 3);
    assert(s.drop_last().len() == 1);
    assert(s.drop_last()[0] == s[0]);
    let p = s[1]->Platform_0;
    assert(p.bounding_boxes@.len() == 3);
    assert(p.bounding_boxes@.last() == offset_rect(floating_platform_boxes()[2], Point { x: FIRST_PLATFORM, y: LOW_PLATFORM }));
}

/// Two first segments built from the same sheet and stone, such as the one a
/// world starts with and the one it starts over with after a game over, have
/// the same obstacles and the same right edge.
pub proof fn lemma_first_segments_agree(
    a: Seq<Obstacle>,
    b: Seq<Obstacle>,
    sheet: Sheet,
    stone_width: i16,
    stone_height: i16,
)
    requires
        is_segment(0, a, sheet, stone_width, stone_height, 0),
        is_segment(0, b, sheet, stone_width, stone_height, 0),
        stone_fits(stone_width, stone_height),
    ensures
        rightmost_of(a) == rightmost_of(b),
        a.len() == b.len(),
        forall|i: int| 0 <= i < a.len() ==> (#[trigger] a[i])@ == b[i]@,
{
    lemma_first_segment_right(a, sheet, stone_width, stone_height);
    lemma_first_segment_right(b, sheet, stone_width, stone_height);
}

} // verus!
