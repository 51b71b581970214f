//! The obstacle capability: collision check, scroll, trailing edge.
//!
//! The obstacle set is fixed, so a closed sum over the two variants stands
//! in for a polymorphic interface: a solid hazard and a walkable platform.

use vstd::prelude::*;

use crate::barrier::{barrier_wf, spec_barrier_check, Barrier};
use crate::platform::{platform_wf, spec_platform_check, spec_platform_right, Platform};
use crate::point::Point;
use crate::rect::{spec_right, Rect};
use crate::redhatboy::{boy_wf, spec_context, RedHatBoy, RedHatBoyStateMachine};

verus! {

/// A live obstacle of the course.
pub enum Obstacle {
    Barrier(Barrier),
    Platform(Platform),
}

/// Bounds every live obstacle keeps; see the variants' own predicates.
pub open spec fn obstacle_wf(o: Obstacle) -> bool {
    match o {
        Obstacle::Barrier(b) => barrier_wf(b),
        Obstacle::Platform(p) => platform_wf(p),
    }
}

/// The obstacle's trailing edge: the world culls an obstacle once this has
/// scrolled past zero.
pub open spec fn spec_obstacle_right(o: Obstacle) -> int {
    match o {
        Obstacle::Barrier(b) => spec_right(b.image.bounding_box),
        Obstacle::Platform(p) => spec_platform_right(p),
    }
}

/// What a collision check against this obstacle does to the character.
pub open spec fn spec_obstacle_check(o: Obstacle, boy: RedHatBoy) -> RedHatBoyStateMachine {
    match o {
        Obstacle::Barrier(b) => spec_barrier_check(b, boy),
        Obstacle::Platform(p) => spec_platform_check(p, boy),
    }
}

/// Scrolling by `dx` relates an obstacle to its moved self: same variant,
/// same sizes and heights, every horizontal coordinate shifted by `dx`.
pub open spec fn obstacle_moved(o0: Obstacle, dx: i16, o1: Obstacle) -> bool {
    match (o0, o1) {
        (Obstacle::Barrier(b0), Obstacle::Barrier(b1)) => b1.image.bounding_box == (Rect {
            position: Point {
                x: (b0.image.bounding_box.position.x + dx) as i16,
                y: b0.image.bounding_box.position.y,
            },
            width: b0.image.bounding_box.width,
            height: b0.image.bounding_box.height,
        }),
        (Obstacle::Platform(p0), Obstacle::Platform(p1)) => {
            &&& p1.position == (Point { x: (p0.position.x + dx) as i16, y: p0.position.y })
            &&& p1.sprites == p0.sprites
            &&& p1.bounding_boxes@.len() == p0.bounding_boxes@.len()
            &&& forall|i: int|
                0 <= i < p0.bounding_boxes@.len() ==> #[trigger] p1.bounding_boxes@[i] == (Rect {
                    position: Point {
                        x: (p0.bounding_boxes@[i].position.x + dx) as i16,
                        y: p0.bounding_boxes@[i].position.y,
                    },
                    width: p0.bounding_boxes@[i].width,
                    height: p0.bounding_boxes@[i].height,
                })
        },
        _ => false,
    }
}

/// The character machine after checking a row of obstacles left to right,
/// each check seeing the state the previous one left behind.
pub open spec fn spec_check_fold(obs: Seq<Obstacle>, boy: RedHatBoy) -> RedHatBoyStateMachine
    decreases obs.len(),
{
    if obs.len() == 0 {
        boy.state_machine
    } else {
        let m1 = spec_obstacle_check(obs[0], boy);
        spec_check_fold(
            obs.drop_first(),
            RedHatBoy { state_machine: m1, sprite_sheet: boy.sprite_sheet },
        )
    }
}

/// The largest trailing edge in a row of obstacles; zero for an empty row.
pub open spec fn spec_rightmost(obs: Seq<Obstacle>) -> int
    decreases obs.len(),
{
    if obs.len() == 0 {
        0
    } else if obs.len() == 1 {
        spec_obstacle_right(obs[0])
    } else {
        let rest = spec_rightmost(obs.drop_last());
        let last = spec_obstacle_right(obs.last());
        if last > rest {
            last
        } else {
            rest
        }
    }
}

impl Obstacle {
    /// Applies the variant's collision policy to the character.
    pub fn check_intersection(&self, boy: &mut RedHatBoy)
        requires
            obstacle_wf(*self),
            boy_wf(*old(boy)),
            spec_context(old(boy).state_machine).position.y <= 24000,
        ensures
            final(boy).state_machine == spec_obstacle_check(*self, *old(boy)),
            final(boy).sprite_sheet == old(boy).sprite_sheet,
            boy_wf(*final(boy)),
    {
        match self {
            Obstacle::Barrier(b) => b.check_intersection(boy),
            Obstacle::Platform(p) => p.check_intersection(boy),
        }
    }

    /// Scrolls the obstacle left with the world. Only obstacles that still
    /// reach into the canvas are scrolled, so the shift stays in range.
    pub fn move_horizontally(&mut self, dx: i16)
        requires
            obstacle_wf(*old(self)),
            -3 <= dx <= 0,
            spec_obstacle_right(*old(self)) > 0,
        ensures
            obstacle_moved(*old(self), dx, *final(self)),
            obstacle_wf(*final(self)),
    {
        match self {
            Obstacle::Barrier(b) => b.move_horizontally(dx),
            Obstacle::Platform(p) => {
                proof {
                    let boxes = p.bounding_boxes@;
                    assert(crate::platform::box_wf(boxes[boxes.len() - 1], p.position));
                }
                p.move_horizontally(dx);
            },
        }
    }

    /// The obstacle's trailing edge.
    pub fn right(&self) -> (r: i16)
        requires
            obstacle_wf(*self),
        ensures
            r == spec_obstacle_right(*self),
    {
        match self {
            Obstacle::Barrier(b) => b.right(),
            Obstacle::Platform(p) => {
                proof {
                    if p.bounding_boxes@.len() > 0 {
                        let boxes = p.bounding_boxes@;
                        assert(crate::platform::box_wf(boxes[boxes.len() - 1], p.position));
                    }
                }
                p.right()
            },
        }
    }
}

/// The largest trailing edge in a row of obstacles, or zero for an empty
/// row.
pub fn rightmost(obstacle_list: &Vec<Obstacle>) -> (r: i16)
    requires
        forall|i: int| 0 <= i < obstacle_list@.len() ==> obstacle_wf(#[trigger] obstacle_list@[i]),
    ensures
        r == spec_rightmost(obstacle_list@),
{
    let n = obstacle_list.len();
    if n == 0 {
        return 0;
    }
    let mut best = obstacle_list[0].right();
    let mut i: usize = 1;
    while i < n
        invariant
            n == obstacle_list@.len(),
            1 <= i <= n,
            forall|j: int|
                0 <= j < n ==> obstacle_wf(#[trigger] obstacle_list@[j]),
            best == spec_rightmost(obstacle_list@.take(i as int)),
        decreases n - i,
    {
        proof {
            assert(obstacle_list@.take(i + 1).drop_last() =~= obstacle_list@.take(i as int));
            assert(obstacle_list@.take(i + 1).last() == obstacle_list@[i as int]);
        }
        let candidate = obstacle_list[i].right();
        if candidate > best {
            best = candidate;
        }
        i = i + 1;
    }
    proof {
        assert(obstacle_list@.take(n as int) =~= obstacle_list@);
    }
    best
}

} // verus!
