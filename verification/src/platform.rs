//! A walkable platform: several landing surfaces hung from one anchor.
//!
//! The tie-break is the platform's core policy: a character that is
//! descending and approaching from above the anchor lands safely on the box
//! it touched; any other contact — from the side or from below — is lethal.

use vstd::prelude::*;

use crate::point::Point;
use crate::rect::{spec_intersects, spec_right, Rect};
use crate::redhatboy::{
    boy_wf, lemma_boy_has_sprite, spec_bounding_box, spec_context, spec_transition, Event,
    RedHatBoy, RedHatBoyStateMachine,
};
use crate::sprite_sheet::{spec_cell, Cell, SpriteSheet};

verus! {

/// A platform: its collision boxes (already in world coordinates), the
/// anchor they were placed from, and the cells the host draws for it.
pub struct Platform {
    pub bounding_boxes: Vec<Rect>,
    pub position: Point,
    pub sprites: Vec<Cell>,
}

/// Bounds a live platform keeps: the anchor sits in the band the world
/// uses, and every box hangs at most 1200 units right of the anchor, inside
/// the canvas's vertical range, so scrolling and edge queries stay in
/// 16-bit range.
pub open spec fn platform_wf(p: Platform) -> bool {
    &&& -31000 <= p.position.x <= 29000
    &&& 0 <= p.position.y <= 600
    &&& forall|i: int| 0 <= i < p.bounding_boxes@.len() ==> box_wf(#[trigger] p.bounding_boxes@[i], p.position)
}

/// Bounds of one collision box relative to its anchor.
pub open spec fn box_wf(b: Rect, anchor: Point) -> bool {
    &&& 0 <= b.position.x - anchor.x <= 1200
    &&& 0 <= b.position.y <= 600
    &&& 0 <= b.width <= 1200
    &&& 0 <= b.height <= 1200
}

/// The first collision box the character's bounding box overlaps, if any.
pub open spec fn spec_first_hit(boxes: Seq<Rect>, bbox: Rect) -> Option<Rect>
    decreases boxes.len(),
{
    if boxes.len() == 0 {
        None
    } else if spec_intersects(bbox, boxes[0]) {
        Some(boxes[0])
    } else {
        spec_first_hit(boxes.drop_first(), bbox)
    }
}

/// What a collision check against a platform does to the character: no
/// overlap is a no-op; an overlap while descending (positive vertical
/// velocity) from above the anchor lands on the box that was hit; any other
/// overlap issues `KnockOut`.
pub open spec fn spec_platform_check(p: Platform, boy: RedHatBoy) -> RedHatBoyStateMachine {
    match spec_first_hit(p.bounding_boxes@, spec_bounding_box(boy)) {
        Some(hit) => {
            if spec_context(boy.state_machine).velocity.y > 0 && spec_context(
                boy.state_machine,
            ).position.y < p.position.y {
                spec_transition(boy.state_machine, Event::Land(hit.position.y))
            } else {
                spec_transition(boy.state_machine, Event::KnockOut)
            }
        },
        None => boy.state_machine,
    }
}

/// A hit found by the search is one of the platform's boxes.
pub proof fn lemma_first_hit_is_member(boxes: Seq<Rect>, bbox: Rect)
    requires
        spec_first_hit(boxes, bbox) is Some,
    ensures
        exists|i: int|
            0 <= i < boxes.len() && boxes[i] == spec_first_hit(boxes, bbox).unwrap(),
    decreases boxes.len(),
{
    if boxes.len() > 0 && !spec_intersects(bbox, boxes[0]) {
        lemma_first_hit_is_member(boxes.drop_first(), bbox);
        let i = choose|i: int|
            0 <= i < boxes.drop_first().len() && boxes.drop_first()[i] == spec_first_hit(
                boxes.drop_first(),
                bbox,
            ).unwrap();
        assert(boxes[i + 1] == spec_first_hit(boxes, bbox).unwrap());
    } else {
        assert(boxes[0] == spec_first_hit(boxes, bbox).unwrap());
    }
}

proof fn lemma_first_hit_skip(boxes: Seq<Rect>, bbox: Rect, i: int)
    requires
        0 <= i <= boxes.len(),
        forall|j: int| 0 <= j < i ==> !spec_intersects(bbox, #[trigger] boxes[j]),
    ensures
        spec_first_hit(boxes, bbox) == spec_first_hit(boxes.skip(i), bbox),
    decreases i,
{
    if i > 0 {
        lemma_first_hit_skip(boxes.drop_first(), bbox, i - 1);
        assert(boxes.drop_first().skip(i - 1) =~= boxes.skip(i));
    } else {
        assert(boxes.skip(0) =~= boxes);
    }
}

/// The cells a platform draws: each requested name the sheet knows
/// contributes its cell, in request order; unknown names are skipped.
pub open spec fn spec_collect_sprites(s: SpriteSheet, names: Seq<&str>) -> Seq<Cell>
    decreases names.len(),
{
    if names.len() == 0 {
        Seq::empty()
    } else {
        let prefix = spec_collect_sprites(s, names.drop_last());
        match spec_cell(s, names.last()@) {
            Some(c) => prefix.push(c),
            None => prefix,
        }
    }
}

impl Platform {
    /// Builds a platform at `position`: the given boxes, offsets relative to
    /// the anchor, are shifted into world coordinates, and the named cells
    /// are looked up in the sheet for the host to draw.
    pub fn new(
        bounding_boxes: &Vec<Rect>,
        position: Point,
        sheet: &SpriteSheet,
        sprite_names: &Vec<&str>,
    ) -> (r: Platform)
        requires
            forall|i: int|
                0 <= i < bounding_boxes@.len() ==> i16::MIN <= (
                #[trigger] bounding_boxes@[i]).position.x + position.x <= i16::MAX,
            forall|i: int|
                0 <= i < bounding_boxes@.len() ==> i16::MIN <= (
                #[trigger] bounding_boxes@[i]).position.y + position.y <= i16::MAX,
        ensures
            r.position == position,
            r.bounding_boxes@.len() == bounding_boxes@.len(),
            forall|i: int|
                0 <= i < bounding_boxes@.len() ==> #[trigger] r.bounding_boxes@[i] == (Rect {
                    position: Point {
                        x: (bounding_boxes@[i].position.x + position.x) as i16,
                        y: (bounding_boxes@[i].position.y + position.y) as i16,
                    },
                    width: bounding_boxes@[i].width,
                    height: bounding_boxes@[i].height,
                }),
            r.sprites@ == spec_collect_sprites(*sheet, sprite_names@),
    {
        let mut placed: Vec<Rect> = Vec::new();
        let n = bounding_boxes.len();
        let mut i: usize = 0;
        while i < n
            invariant
                n == bounding_boxes@.len(),
                0 <= i <= n,
                placed@.len() == i,
                forall|j: int|
                    0 <= j < n ==> i16::MIN <= (
                    #[trigger] bounding_boxes@[j]).position.x + position.x <= i16::MAX,
                forall|j: int|
                    0 <= j < n ==> i16::MIN <= (
                    #[trigger] bounding_boxes@[j]).position.y + position.y <= i16::MAX,
                forall|j: int|
                    0 <= j < i ==> #[trigger] placed@[j] == (Rect {
                        position: Point {
                            x: (bounding_boxes@[j].position.x + position.x) as i16,
                            y: (bounding_boxes@[j].position.y + position.y) as i16,
                        },
                        width: bounding_boxes@[j].width,
                        height: bounding_boxes@[j].height,
                    }),
            decreases n - i,
        {
            let b = bounding_boxes[i];
            placed.push(
                Rect::new_from_x_y(
                    b.x() + position.x,
                    b.y() + position.y,
                    b.width,
                    b.height,
                ),
            );
            i = i + 1;
        }

        let mut sprites: Vec<Cell> = Vec::new();
        let m = sprite_names.len();
        let mut j: usize = 0;
        while j < m
            invariant
                m == sprite_names@.len(),
                0 <= j <= m,
                sprites@ == spec_collect_sprites(*sheet, sprite_names@.take(j as int)),
            decreases m - j,
        {
            let name: &str = sprite_names[j];
            proof {
                assert(sprite_names@.take(j + 1).drop_last() =~= sprite_names@.take(j as int));
                assert(sprite_names@.take(j + 1).last() == sprite_names@[j as int]);
            }
            match sheet.cell(name) {
                Some(c) => {
                    sprites.push(*c);
                },
                None => {},
            }
            j = j + 1;
        }
        proof {
            assert(sprite_names@.take(m as int) =~= sprite_names@);
        }

        Platform { bounding_boxes: placed, position, sprites }
    }

    /// Applies the platform's collision policy; see [`spec_platform_check`].
    pub fn check_intersection(&self, boy: &mut RedHatBoy)
        requires
            platform_wf(*self),
            boy_wf(*old(boy)),
            spec_context(old(boy).state_machine).position.y <= 24000,
        ensures
            final(boy).state_machine == spec_platform_check(*self, *old(boy)),
            final(boy).sprite_sheet == old(boy).sprite_sheet,
            boy_wf(*final(boy)),
    {
        proof {
            lemma_boy_has_sprite(boy.state_machine, boy.sprite_sheet);
        }
        let bbox = boy.bounding_box();
        let n = self.bounding_boxes.len();
        let mut i: usize = 0;
        while i < n
            invariant
                n == self.bounding_boxes@.len(),
                0 <= i <= n,
                platform_wf(*self),
                crate::rect::edges_fit(bbox),
                bbox == spec_bounding_box(*boy),
                boy_wf(*boy),
                spec_context(boy.state_machine).position.y <= 24000,
                *boy == *old(boy),
                forall|j: int|
                    0 <= j < i ==> !spec_intersects(bbox, #[trigger] self.bounding_boxes@[j]),
            decreases n - i,
        {
            let candidate = self.bounding_boxes[i];
            if bbox.intersects(&candidate) {
                proof {
                    lemma_first_hit_skip(self.bounding_boxes@, bbox, i as int);
                    assert(self.bounding_boxes@.skip(i as int)[0] == self.bounding_boxes@[i as int]);
                }
                if boy.velocity_y() > 0 && boy.pos_y() < self.position.y {
                    boy.land_on(candidate.y());
                } else {
                    boy.knock_out();
                }
                return ;
            }
            i = i + 1;
        }
        proof {
            lemma_first_hit_skip(self.bounding_boxes@, bbox, n as int);
            assert(self.bounding_boxes@.skip(n as int).len() == 0);
        }
    }

    /// Scrolls the platform: the anchor and every box move together.
    pub fn move_horizontally(&mut self, dx: i16)
        requires
            i16::MIN <= old(self).position.x + dx <= i16::MAX,
            forall|i: int|
                0 <= i < old(self).bounding_boxes@.len() ==> i16::MIN <= (
                #[trigger] old(self).bounding_boxes@[i]).position.x + dx <= i16::MAX,
        ensures
            final(self).position == (Point {
                x: (old(self).position.x + dx) as i16,
                y: old(self).position.y,
            }),
            final(self).bounding_boxes@.len() == old(self).bounding_boxes@.len(),
            forall|i: int|
                0 <= i < old(self).bounding_boxes@.len()
                    ==> #[trigger] final(self).bounding_boxes@[i] == (Rect {
                    position: Point {
                        x: (old(self).bounding_boxes@[i].position.x + dx) as i16,
                        y: old(self).bounding_boxes@[i].position.y,
                    },
                    width: old(self).bounding_boxes@[i].width,
                    height: old(self).bounding_boxes@[i].height,
                }),
            final(self).sprites == old(self).sprites,
    {
        self.position.x = self.position.x + dx;
        let n = self.bounding_boxes.len();
        let mut i: usize = 0;
        while i < n
            invariant
                n == self.bounding_boxes@.len(),
                0 <= i <= n,
                self.position == (Point {
                    x: (old(self).position.x + dx) as i16,
                    y: old(self).position.y,
                }),
                self.sprites == old(self).sprites,
                forall|j: int|
                    0 <= j < n ==> i16::MIN <= (
                    #[trigger] old(self).bounding_boxes@[j]).position.x + dx <= i16::MAX,
                forall|j: int|
                    i <= j < n ==> #[trigger] self.bounding_boxes@[j] == old(
                        self,
                    ).bounding_boxes@[j],
                forall|j: int|
                    0 <= j < i ==> #[trigger] self.bounding_boxes@[j] == (Rect {
                        position: Point {
                            x: (old(self).bounding_boxes@[j].position.x + dx) as i16,
                            y: old(self).bounding_boxes@[j].position.y,
                        },
                        width: old(self).bounding_boxes@[j].width,
                        height: old(self).bounding_boxes@[j].height,
                    }),
            decreases n - i,
        {
            let b = self.bounding_boxes[i];
            let mut moved = b;
            moved.set_x(b.x() + dx);
            self.bounding_boxes.set(i, moved);
            i = i + 1;
        }
    }

    /// The platform's trailing edge: the right edge of its last box, or zero
    /// for a platform with no boxes.
    pub fn right(&self) -> (r: i16)
        requires
            self.bounding_boxes@.len() > 0 ==> i16::MIN <= spec_right(
                self.bounding_boxes@.last(),
            ) <= i16::MAX,
        ensures
            r == spec_platform_right(*self),
    {
        let n = self.bounding_boxes.len();
        if n == 0 {
            0
        } else {
            self.bounding_boxes[n - 1].right()
        }
    }
}

/// A running character that is descending (positive vertical velocity) and
/// above the platform's anchor always lands on the box it touched: the
/// check yields the running state with the character's feet snapped to that
/// box's top — never a knockout.
pub proof fn lemma_platform_lands_descending_runner(p: Platform, boy: RedHatBoy)
    requires
        platform_wf(p),
        crate::redhatboy::machine_inv(boy.state_machine),
        boy.state_machine is Running,
        spec_context(boy.state_machine).velocity.y > 0,
        spec_context(boy.state_machine).position.y < p.position.y,
        spec_first_hit(p.bounding_boxes@, spec_bounding_box(boy)) is Some,
    ensures
        spec_platform_check(p, boy) is Running,
        spec_context(spec_platform_check(p, boy)).position.y == spec_first_hit(
            p.bounding_boxes@,
            spec_bounding_box(boy),
        ).unwrap().position.y - crate::redhatboy::PLAYER_HEIGHT,
{
    let bbox = spec_bounding_box(boy);
    let hit = spec_first_hit(p.bounding_boxes@, bbox).unwrap();
    lemma_first_hit_is_member(p.bounding_boxes@, bbox);
    let i = choose|i: int| 0 <= i < p.bounding_boxes@.len() && p.bounding_boxes@[i] == hit;
    assert(box_wf(p.bounding_boxes@[i], p.position));
}

/// The platform's trailing edge, as a mathematical integer.
pub open spec fn spec_platform_right(p: Platform) -> int {
    if p.bounding_boxes@.len() == 0 {
        0
    } else {
        spec_right(p.bounding_boxes@.last())
    }
}

} // verus!
