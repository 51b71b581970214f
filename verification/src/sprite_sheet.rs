//! Sprite-sheet data: named animation cells and their lookup.
//!
//! A sheet maps frame names to cells. A cell pairs the source rectangle of
//! a frame inside the sheet image (`frame`) with the offset that aligns the
//! trimmed art to its logical box (`sprite_source_size`). The host loads the
//! sheet's JSON and image; this crate only holds and queries the plain data.

use vstd::prelude::*;

use crate::point::Point;
use crate::rect::Rect;

verus! {

/// A rectangle as the sprite-sheet description stores it.
#[derive(Clone, Copy, PartialEq, Eq, Structural, Debug)]
pub struct SheetRect {
    pub x: i16,
    pub y: i16,
    pub w: i16,
    pub h: i16,
}

/// One named frame of a sprite sheet: where it sits in the sheet image and
/// how the trimmed art is offset inside its logical box.
#[derive(Clone, Copy, PartialEq, Eq, Structural, Debug)]
pub struct Cell {
    pub frame: SheetRect,
    pub sprite_source_size: SheetRect,
}

/// The source rectangle of a cell inside the sheet image.
pub open spec fn spec_frame(c: Cell) -> Rect {
    Rect {
        position: Point { x: c.frame.x, y: c.frame.y },
        width: c.frame.w,
        height: c.frame.h,
    }
}

/// The on-screen rectangle a cell is drawn into when its logical box sits
/// at `position`: the trim offset shifts the corner, the frame gives the size.
pub open spec fn spec_destination(c: Cell, position: Point) -> Rect {
    Rect {
        position: Point {
            x: (position.x + c.sprite_source_size.x) as i16,
            y: (position.y + c.sprite_source_size.y) as i16,
        },
        width: c.frame.w,
        height: c.frame.h,
    }
}

/// Cell coordinates a real sheet produces: non-negative and small, so that
/// placing a cell anywhere on screen stays within 16-bit arithmetic.
pub open spec fn cell_bounded(c: Cell) -> bool {
    &&& 0 <= c.frame.x <= 4096
    &&& 0 <= c.frame.y <= 4096
    &&& 0 <= c.frame.w <= 4096
    &&& 0 <= c.frame.h <= 4096
    &&& 0 <= c.sprite_source_size.x <= 4096
    &&& 0 <= c.sprite_source_size.y <= 4096
    &&& 0 <= c.sprite_source_size.w <= 4096
    &&& 0 <= c.sprite_source_size.h <= 4096
}

impl Cell {
    pub fn new(frame: SheetRect, sprite_source_size: SheetRect) -> (r: Cell)
        ensures
            r == (Cell { frame, sprite_source_size }),
    {
        Cell { frame, sprite_source_size }
    }

    pub fn frame(&self) -> (r: Rect)
        ensures
            r == spec_frame(*self),
    {
        Rect::new_from_x_y(self.frame.x, self.frame.y, self.frame.w, self.frame.h)
    }

    pub fn destination(&self, position: &Point) -> (r: Rect)
        requires
            i16::MIN <= position.x + self.sprite_source_size.x <= i16::MAX,
            i16::MIN <= position.y + self.sprite_source_size.y <= i16::MAX,
        ensures
            r == spec_destination(*self, *position),
    {
        Rect::new_from_x_y(
            position.x + self.sprite_source_size.x,
            position.y + self.sprite_source_size.y,
            self.frame.w,
            self.frame.h,
        )
    }
}

/// A loaded sprite sheet: frame names paired with their cells, in the order
/// the sheet description lists them.
pub struct SpriteSheet {
    pub frames: Vec<(String, Cell)>,
}

/// Whether the sheet has a cell under the given name.
pub open spec fn spec_has_cell(s: SpriteSheet, name: Seq<char>) -> bool {
    exists|i: int| 0 <= i < s.frames@.len() && s.frames@[i].0@ == name
}

/// The first cell listed under the given name, if any.
pub open spec fn spec_first_match(entries: Seq<(String, Cell)>, name: Seq<char>) -> Option<Cell>
    decreases entries.len(),
{
    if entries.len() == 0 {
        None
    } else if entries[0].0@ == name {
        Some(entries[0].1)
    } else {
        spec_first_match(entries.drop_first(), name)
    }
}

/// The cell a lookup by name yields.
pub open spec fn spec_cell(s: SpriteSheet, name: Seq<char>) -> Option<Cell> {
    spec_first_match(s.frames@, name)
}

/// Every cell of the sheet has bounded coordinates.
pub open spec fn sheet_cells_bounded(s: SpriteSheet) -> bool {
    forall|i: int| 0 <= i < s.frames@.len() ==> cell_bounded(#[trigger] s.frames@[i].1)
}

proof fn lemma_first_match_skip(entries: Seq<(String, Cell)>, name: Seq<char>, i: int)
    requires
        0 <= i <= entries.len(),
        forall|j: int| 0 <= j < i ==> (#[trigger] entries[j].0)@ != name,
    ensures
        spec_first_match(entries, name) == spec_first_match(entries.skip(i), name),
    decreases i,
{
    if i > 0 {
        lemma_first_match_skip(entries.drop_first(), name, i - 1);
        assert(entries.drop_first().skip(i - 1) =~= entries.skip(i));
    } else {
        assert(entries.skip(0) =~= entries);
    }
}

proof fn lemma_first_match_finds(entries: Seq<(String, Cell)>, name: Seq<char>)
    ensures
        (spec_first_match(entries, name) is Some) <==> exists|i: int|
            0 <= i < entries.len() && (#[trigger] entries[i].0)@ == name,
    decreases entries.len(),
{
    if entries.len() > 0 {
        lemma_first_match_finds(entries.drop_first(), name);
        if entries[0].0@ != name {
            if spec_first_match(entries.drop_first(), name) is Some {
                let rest = entries.drop_first();
                let i = choose|i: int| 0 <= i < rest.len() && (#[trigger] rest[i].0)@ == name;
                assert(entries[i + 1].0@ == name);
            }
            if exists|i: int| 0 <= i < entries.len() && (#[trigger] entries[i].0)@ == name {
                let i = choose|i: int|
                    0 <= i < entries.len() && (#[trigger] entries[i].0)@ == name;
                assert(entries.drop_first()[i - 1].0@ == name);
            }
        }
    }
}

/// A name the sheet knows is always found by lookup.
pub proof fn lemma_has_cell_found(s: SpriteSheet, name: Seq<char>)
    requires
        spec_has_cell(s, name),
    ensures
        spec_cell(s, name) is Some,
{
    lemma_first_match_finds(s.frames@, name);
    let i = choose|i: int| 0 <= i < s.frames@.len() && s.frames@[i].0@ == name;
    assert(s.frames@[i].0@ == name);
}

/// The cell a lookup yields comes from the sheet, so a bounded sheet yields
/// a bounded cell.
pub proof fn lemma_cell_bounded(s: SpriteSheet, name: Seq<char>)
    requires
        sheet_cells_bounded(s),
        spec_cell(s, name) is Some,
    ensures
        cell_bounded(spec_cell(s, name).unwrap()),
{
    lemma_first_match_from(s.frames@, name);
}

proof fn lemma_first_match_from(entries: Seq<(String, Cell)>, name: Seq<char>)
    requires
        spec_first_match(entries, name) is Some,
        forall|i: int| 0 <= i < entries.len() ==> cell_bounded(#[trigger] entries[i].1),
    ensures
        cell_bounded(spec_first_match(entries, name).unwrap()),
    decreases entries.len(),
{
    if entries.len() > 0 && entries[0].0@ != name {
        assert(forall|i: int|
            0 <= i < entries.drop_first().len() ==> cell_bounded(
                #[trigger] entries.drop_first()[i].1,
            ));
        lemma_first_match_from(entries.drop_first(), name);
    }
}

impl SpriteSheet {
    pub fn new(frames: Vec<(String, Cell)>) -> (r: SpriteSheet)
        ensures
            r == (SpriteSheet { frames }),
    {
        SpriteSheet { frames }
    }

    /// Looks a cell up by its frame name; yields the first entry under that
    /// name, and nothing when the sheet does not know the name.
    pub fn cell(&self, name: &str) -> (r: Option<&Cell>)
        ensures
            match r {
                Some(c) => spec_cell(*self, name@) == Some(*c),
                None => spec_cell(*self, name@) is None,
            },
    {
        let key: String = name.to_owned();
        let n = self.frames.len();
        let mut i: usize = 0;
        while i < n
            invariant
                n == self.frames@.len(),
                0 <= i <= n,
                key@ == name@,
                forall|j: int| 0 <= j < i ==> (#[trigger] self.frames@[j].0)@ != name@,
            decreases n - i,
        {
            if self.frames[i].0 == key {
                proof {
                    lemma_first_match_skip(self.frames@, name@, i as int);
                    assert(self.frames@.skip(i as int)[0] == self.frames@[i as int]);
                }
                return Some(&self.frames[i].1);
            }
            i = i + 1;
        }
        proof {
            lemma_first_match_skip(self.frames@, name@, n as int);
            assert(self.frames@.skip(n as int).len() == 0);
        }
        None
    }
}

} // verus!
