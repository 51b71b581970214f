//! A solid one-shot hazard: touching it always knocks the character out.

use vstd::prelude::*;

use crate::image::Image;
use crate::rect::{spec_intersects, spec_right};
use crate::redhatboy::{
    boy_wf, spec_bounding_box, spec_context, spec_transition, Event, RedHatBoy,
    RedHatBoyStateMachine,
};

verus! {

/// A barrier: one image whose box is also its collision geometry.
#[derive(Clone, Copy, PartialEq, Eq, Structural, Debug)]
pub struct Barrier {
    pub image: Image,
}

/// Bounds a live barrier keeps: its box sits in the band the world uses and
/// is small enough that scrolling and edge queries stay in 16-bit range.
pub open spec fn barrier_wf(b: Barrier) -> bool {
    &&& -31000 <= b.image.bounding_box.position.x <= 31000
    &&& 0 <= b.image.bounding_box.position.y <= 600
    &&& 0 <= b.image.bounding_box.width <= 1200
    &&& 0 <= b.image.bounding_box.height <= 1200
}

/// What a collision check against a barrier does to the character: any
/// overlap issues `KnockOut`, whatever the character's velocity.
pub open spec fn spec_barrier_check(b: Barrier, boy: RedHatBoy) -> RedHatBoyStateMachine {
    if spec_intersects(spec_bounding_box(boy), b.image.bounding_box) {
        spec_transition(boy.state_machine, Event::KnockOut)
    } else {
        boy.state_machine
    }
}

impl Barrier {
    pub fn new(image: Image) -> (r: Barrier)
        ensures
            r == (Barrier { image }),
    {
        Barrier { image }
    }

    /// Knocks the character out on any overlap; see [`spec_barrier_check`].
    pub fn check_intersection(&self, boy: &mut RedHatBoy)
        requires
            barrier_wf(*self),
            boy_wf(*old(boy)),
            spec_context(old(boy).state_machine).position.y <= 24000,
        ensures
            final(boy).state_machine == spec_barrier_check(*self, *old(boy)),
            final(boy).sprite_sheet == old(boy).sprite_sheet,
            boy_wf(*final(boy)),
    {
        proof {
            crate::redhatboy::lemma_boy_has_sprite(boy.state_machine, boy.sprite_sheet);
        }
        if boy.bounding_box().intersects(self.image.bounding_box()) {
            boy.knock_out();
        }
    }

    pub fn move_horizontally(&mut self, dx: i16)
        requires
            i16::MIN <= old(self).image.bounding_box.position.x + dx <= i16::MAX,
        ensures
            final(self).image.bounding_box.position.x == old(
                self,
            ).image.bounding_box.position.x + dx,
            final(self).image.bounding_box.position.y == old(self).image.bounding_box.position.y,
            final(self).image.bounding_box.width == old(self).image.bounding_box.width,
            final(self).image.bounding_box.height == old(self).image.bounding_box.height,
    {
        self.image.move_horizontally(dx);
    }

    pub fn right(&self) -> (r: i16)
        requires
            i16::MIN <= spec_right(self.image.bounding_box) <= i16::MAX,
        ensures
            r == spec_right(self.image.bounding_box),
    {
        self.image.bounding_box().right()
    }
}

/// A running character that overlaps a barrier is sent down the knockout
/// path whatever the sign of its velocity: the check issues `KnockOut`
/// unconditionally, which stops all motion and starts the falling animation
/// whose completion is the terminal knocked-out state.
pub proof fn lemma_barrier_fells_running(b: Barrier, boy: RedHatBoy)
    requires
        boy.state_machine is Running,
        spec_intersects(spec_bounding_box(boy), b.image.bounding_box),
    ensures
        spec_barrier_check(b, boy) == spec_transition(boy.state_machine, Event::KnockOut),
        spec_barrier_check(b, boy) is Falling,
        spec_context(spec_barrier_check(b, boy)).velocity.x == 0,
        spec_context(spec_barrier_check(b, boy)).velocity.y == 0,
{
}

} // verus!
