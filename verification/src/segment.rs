//! Fixed obstacle patterns, anchored at a horizontal offset.
//!
//! The course is extended by stamping one of two hand-tuned segments past
//! the current generation cursor: a stone then a floating platform, or a
//! floating platform then a stone.

use vstd::prelude::*;

use crate::barrier::Barrier;
use crate::image::Image;
use crate::obstacle::{obstacle_wf, spec_obstacle_right, spec_rightmost, Obstacle};
use crate::platform::{platform_wf, spec_collect_sprites, Platform};
use crate::point::Point;
use crate::rect::Rect;
use crate::sprite_sheet::SpriteSheet;

verus! {

/// Horizontal offset of the platform in the stone-then-platform segment.
pub const FIRST_PLATFORM: i16 = 370;

/// Height of the lower floating platform.
pub const LOW_PLATFORM: i16 = 420;

/// Height of the higher floating platform.
pub const HIGH_PLATFORM: i16 = 375;

/// Height at which a stone rests on the ground.
pub const STONE_ON_GROUND: i16 = 546;

/// Horizontal offset of the stone in the stone-then-platform segment.
pub const INITIAL_STONE_OFFSET: i16 = 150;

/// The sheet names of the floating platform's three tiles.
pub open spec fn floating_platform_names() -> Seq<&'static str> {
    seq!["13.png", "14.png", "15.png"]
}

/// The floating platform: three landing boxes approximating its silhouette
/// — narrow end caps around a wide middle span — hung from `position`.
pub open spec fn is_floating_platform(p: Platform, sheet: SpriteSheet, position: Point) -> bool {
    &&& p.position == position
    &&& p.bounding_boxes@ =~= seq![
        Rect { position: Point { x: position.x, y: position.y }, width: 60, height: 54 },
        Rect {
            position: Point { x: (position.x + 60) as i16, y: position.y },
            width: 264,
            height: 93,
        },
        Rect {
            position: Point { x: (position.x + 324) as i16, y: position.y },
            width: 60,
            height: 54,
        },
    ]
    &&& p.sprites@ == spec_collect_sprites(sheet, floating_platform_names())
}

/// The stone-then-platform segment: a stone on the ground a short way past
/// the offset, then the floating platform at its lower height.
pub open spec fn is_stone_and_platform(
    stone_width: i16,
    stone_height: i16,
    sheet: SpriteSheet,
    offset_x: i16,
    obs: Seq<Obstacle>,
) -> bool {
    &&& obs.len() == 2
    &&& obs[0] matches Obstacle::Barrier(b) && b.image.bounding_box == (Rect {
        position: Point { x: (offset_x + INITIAL_STONE_OFFSET) as i16, y: STONE_ON_GROUND },
        width: stone_width,
        height: stone_height,
    })
    &&& obs[1] matches Obstacle::Platform(p) && is_floating_platform(
        p,
        sheet,
        Point { x: (offset_x + FIRST_PLATFORM) as i16, y: LOW_PLATFORM },
    )
}

/// The platform-then-stone segment: the floating platform at its higher
/// height, then a stone on the ground further along.
pub open spec fn is_platform_and_stone(
    stone_width: i16,
    stone_height: i16,
    sheet: SpriteSheet,
    offset_x: i16,
    obs: Seq<Obstacle>,
) -> bool {
    &&& obs.len() == 2
    &&& obs[0] matches Obstacle::Platform(p) && is_floating_platform(
        p,
        sheet,
        Point { x: (offset_x + 150) as i16, y: HIGH_PLATFORM },
    )
    &&& obs[1] matches Obstacle::Barrier(b) && b.image.bounding_box == (Rect {
        position: Point { x: (offset_x + 370) as i16, y: STONE_ON_GROUND },
        width: stone_width,
        height: stone_height,
    })
}

/// One of the two segments, as the generator draws them.
pub open spec fn is_segment(
    stone_width: i16,
    stone_height: i16,
    sheet: SpriteSheet,
    offset_x: i16,
    obs: Seq<Obstacle>,
) -> bool {
    ||| is_stone_and_platform(stone_width, stone_height, sheet, offset_x, obs)
    ||| is_platform_and_stone(stone_width, stone_height, sheet, offset_x, obs)
}

/// Builds the stone-then-platform segment. The batch's rightmost edge
/// strictly exceeds the offset it was anchored at, so the generation cursor
/// can always be extended.
pub fn stone_and_platform(
    stone_width: i16,
    stone_height: i16,
    sprite_sheet: &SpriteSheet,
    offset_x: i16,
) -> (r: Vec<Obstacle>)
    requires
        0 <= offset_x <= 27000,
        0 <= stone_width <= 1200,
        0 <= stone_height <= 1200,
    ensures
        is_stone_and_platform(stone_width, stone_height, *sprite_sheet, offset_x, r@),
        forall|i: int| 0 <= i < r@.len() ==> obstacle_wf(#[trigger] r@[i]),
        offset_x < spec_rightmost(r@) <= offset_x + 1600,
{
    let stone = Barrier::new(
        Image::new(
            Point { x: offset_x + INITIAL_STONE_OFFSET, y: STONE_ON_GROUND },
            stone_width,
            stone_height,
        ),
    );
    let platform = create_floating_platform(
        sprite_sheet,
        Point { x: offset_x + FIRST_PLATFORM, y: LOW_PLATFORM },
    );
    let mut r: Vec<Obstacle> = Vec::new();
    r.push(Obstacle::Barrier(stone));
    r.push(Obstacle::Platform(platform));
    proof {
        reveal_with_fuel(spec_rightmost, 3);
        assert(r@.take(1).drop_last() =~= Seq::<Obstacle>::empty());
        assert(r@.drop_last() =~= r@.take(1));
        assert(spec_obstacle_right(r@[1]) == offset_x + FIRST_PLATFORM + 384);
    }
    r
}

/// Builds the platform-then-stone segment; the same cursor guarantee holds.
pub fn platform_and_stone(
    stone_width: i16,
    stone_height: i16,
    sprite_sheet: &SpriteSheet,
    offset_x: i16,
) -> (r: Vec<Obstacle>)
    requires
        0 <= offset_x <= 27000,
        0 <= stone_width <= 1200,
        0 <= stone_height <= 1200,
    ensures
        is_platform_and_stone(stone_width, stone_height, *sprite_sheet, offset_x, r@),
        forall|i: int| 0 <= i < r@.len() ==> obstacle_wf(#[trigger] r@[i]),
        offset_x < spec_rightmost(r@) <= offset_x + 1600,
{
    let platform = create_floating_platform(
        sprite_sheet,
        Point { x: offset_x + 150, y: HIGH_PLATFORM },
    );
    let stone = Barrier::new(
        Image::new(Point { x: offset_x + 370, y: STONE_ON_GROUND }, stone_width, stone_height),
    );
    let mut r: Vec<Obstacle> = Vec::new();
    r.push(Obstacle::Platform(platform));
    r.push(Obstacle::Barrier(stone));
    proof {
        reveal_with_fuel(spec_rightmost, 3);
        assert(r@.take(1).drop_last() =~= Seq::<Obstacle>::empty());
        assert(r@.drop_last() =~= r@.take(1));
        assert(spec_obstacle_right(r@[0]) == offset_x + 150 + 384);
    }
    r
}

fn create_floating_platform(sprite_sheet: &SpriteSheet, position: Point) -> (r: Platform)
    requires
        0 <= position.x <= 28000,
        0 <= position.y <= 600,
    ensures
        is_floating_platform(r, *sprite_sheet, position),
        platform_wf(r),
        r.bounding_boxes@.len() == 3,
        spec_obstacle_right(Obstacle::Platform(r)) == position.x + 384,
{
    let mut boxes: Vec<Rect> = Vec::new();
    boxes.push(Rect::new_from_x_y(0, 0, 60, 54));
    boxes.push(Rect::new_from_x_y(60, 0, 384 - (60 * 2), 93));
    boxes.push(Rect::new_from_x_y(384 - 60, 0, 60, 54));
    let mut names: Vec<&str> = Vec::new();
    names.push("13.png");
    names.push("14.png");
    names.push("15.png");
    proof {
        assert(names@ =~= floating_platform_names());
    }
    let platform = Platform::new(&boxes, position, sprite_sheet, &names);
    proof {
        assert(platform.bounding_boxes@ =~= seq![
            Rect {
                position: Point { x: position.x, y: position.y },
                width: 60,
                height: 54,
            },
            Rect {
                position: Point { x: (position.x + 60) as i16, y: position.y },
                width: 264,
                height: 93,
            },
            Rect {
                position: Point { x: (position.x + 324) as i16, y: position.y },
                width: 60,
                height: 54,
            },
        ]);
    }
    platform
}

} // verus!
