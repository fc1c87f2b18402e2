use vstd::prelude::*;

verus! {

/// A rectangle of a sprite sheet, in the sheet's own coordinates.
#[derive(Clone, Copy, Debug, PartialEq, Eq, Structural)]
pub struct SheetRect {
    pub x: i16,
    pub y: i16,
    pub w: i16,
    pub h: i16,
}

/// Where a sprite lies in its sheet (`frame`) and how it is offset when drawn
/// (`sprite_source_size`).
#[derive(Clone, Copy, Debug, PartialEq, Eq, Structural)]
pub struct Cell {
    pub frame: SheetRect,
    pub sprite_source_size: SheetRect,
}

/// Largest magnitude of any number in a cell that the game geometry accepts.
pub const SPRITE_LIMIT: i16 = 4000;

pub open spec fn small(v: i16) -> bool {
    -SPRITE_LIMIT <= v <= SPRITE_LIMIT
}

pub open spec fn rect_small(r: SheetRect) -> bool {
    small(r.x) && small(r.y) && small(r.w) && small(r.h)
}

pub open spec fn cell_small(c: Cell) -> bool {
    rect_small(c.frame) && rect_small(c.sprite_source_size)
}

/// The first cell named `name`.
pub open spec fn find_cell(frames: Seq<(String, Cell)>, name: Seq<char>) -> Option<Cell>
    decreases frames.len(),
{
    if frames.len() == 0 {
        None
    } else if frames[0].0@ == name {
        Some(frames[0].1)
    } else {
        find_cell(frames.drop_first(), name)
    }
}

/// The decimal digit `d`.
pub open spec fn digit(d: nat) -> char {
    if d == 0 {
        '0'
    } else if d == 1 {
        '1'
    } else if d == 2 {
        '2'
    } else if d == 3 {
        '3'
    } else if d == 4 {
        '4'
    } else if d == 5 {
        '5'
    } else if d == 6 {
        '6'
    } else if d == 7 {
        '7'
    } else if d == 8 {
        '8'
    } else {
        '9'
    }
}

/// `n` in decimal.
pub open spec fn decimal(n: nat) -> Seq<char>
    decreases n,
{
    if n < 10 {
        seq![digit(n)]
    } else {
        decimal(n / 10).push(digit(n % 10))
    }
}

/// The name of the `number`th picture of an animation: `"Run (3).png"`.
pub open spec fn sprite_key_of(prefix: Seq<char>, number: nat) -> Seq<char> {
    prefix + " ("@ + decimal(number) + ").png"@
}

/// Relies on std's `format!`: the prefix, a space, the number in decimal
/// within parentheses, then `.png`.
#[verifier::external_body]
pub(crate) fn sprite_key(prefix: &str, number: u8) -> (r: String)
    ensures
        r@ == sprite_key_of(prefix@, number as nat),
{
    format!("{} ({}).png", prefix, number)
}

/// A sprite sheet: cells by name.
#[derive(Clone, Debug)]
pub struct Sheet {
    pub frames: Vec<(String, Cell)>,
}

impl Sheet {
    pub open spec fn spec_cell(&self, name: Seq<char>) -> Option<Cell> {
        find_cell(self.frames@, name)
    }

    /// Every cell is small enough for the game geometry.
    pub open spec fn bounded(&self) -> bool {
        forall|i: int| 0 <= i < self.frames@.len() ==> cell_small(#[trigger] self.frames@[i].1)
    }

    /// Pictures `1..=count` of the animation `prefix` are in the sheet.
    pub open spec fn has_animation(&self, prefix: Seq<char>, count: nat) -> bool {
        forall|n: nat| 1 <= n <= count ==> (#[trigger] self.spec_cell(sprite_key_of(prefix, n))) is Some
    }

    /// The first cell named `name`, if any.
    pub fn cell(&self, name: &String) -> (r: Option<Cell>)
        ensures
            r == self.spec_cell(name@),
    {
        let mut i: usize = 0;
        assert(self.frames@.subrange(0, self.frames@.len() as int) =~= self.frames@);
        while i < self.frames.len()
            invariant
                i <= self.frames@.len(),
                find_cell(self.frames@, name@) == find_cell(self.frames@.subrange(i as int, self.frames@.len() as int), name@),
            decreases self.frames@.len() - i,
        {
            let ghost rest = self.frames@.subrange(i as int, self.frames@.len() as int);
            assert(rest.drop_first() =~= self.frames@.subrange(i + 1, self.frames@.len() as int));
            if self.frames[i].0 == *name {
                return Some(self.frames[i].1);
            }
            i = i + 1;
        }
        None
    }

    /// Whether every cell is small enough for the game geometry.
    pub fn is_bounded(&self) -> (r: bool)
        ensures
            r == self.bounded(),
    {
        let mut i: usize = 0;
        while i < self.frames.len()
            invariant
                i <= self.frames@.len(),
                forall|j: int| 0 <= j < i ==> cell_small(#[trigger] self.frames@[j].1),
            decreases self.frames@.len() - i,
        {
            let c = self.frames[i].1;
            if !(-SPRITE_LIMIT <= c.frame.x && c.frame.x <= SPRITE_LIMIT && -SPRITE_LIMIT <= c.frame.y
                && c.frame.y <= SPRITE_LIMIT && -SPRITE_LIMIT <= c.frame.w && c.frame.w <= SPRITE_LIMIT
                && -SPRITE_LIMIT <= c.frame.h && c.frame.h <= SPRITE_LIMIT) {
                return false;
            }
            let s = c.sprite_source_size;
            if !(-SPRITE_LIMIT <= s.x && s.x <= SPRITE_LIMIT && -SPRITE_LIMIT <= s.y && s.y
                <= SPRITE_LIMIT && -SPRITE_LIMIT <= s.w && s.w <= SPRITE_LIMIT && -SPRITE_LIMIT <= s.h
                && s.h <= SPRITE_LIMIT) {
                return false;
            }
            i = i + 1;
        }
        true
    }

    /// Whether pictures `1..=count` of the animation `prefix` are all there.
    pub fn contains_animation(&self, prefix: &str, count: u8) -> (r: bool)
        ensures
            r == self.has_animation(prefix@, count as nat),
    {
        let mut n: u8 = 1;
        while n <= count
            invariant
                1 <= n,
                n <= count + 1,
                forall|m: nat| 1 <= m < n ==> (#[trigger] self.spec_cell(sprite_key_of(prefix@, m))) is Some,
            decreases count + 1 - n,
        {
            let key = sprite_key(prefix, n);
            if self.cell(&key).is_none() {
                return false;
            }
            if n == count {
                return true;
            }
            n = n + 1;
        }
        true
    }
}

} // verus!
