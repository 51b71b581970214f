//! The world: backgrounds, character, live obstacles, generation cursor.
//!
//! A `Walk` is built once per session and once per restart. Every tick
//! scrolls it left by the character's speed, culls obstacles that left the
//! screen, checks collisions, and extends the course when the generation
//! cursor falls below its minimum lookahead.

use vstd::prelude::*;

use rand::Rng;

use crate::image::Image;
use crate::key_state::KeyState;
use crate::obstacle::{
    obstacle_moved, obstacle_wf, rightmost, spec_check_fold, spec_obstacle_check,
    spec_obstacle_right, spec_rightmost, Obstacle,
};
use crate::platform::box_wf;
use crate::point::Point;
use crate::rect::{spec_right, Rect};
use crate::redhatboy::{
    boy_sheet_wf, boy_wf, event_allowed, lemma_rise_potential_nonneg,
    lemma_rise_potential_step, lemma_transition_preserves_inv, machine_inv, rise_potential,
    spec_context, spec_initial_machine, spec_ticks, spec_transition, Event, RedHatBoy,
    RedHatBoyContext, RedHatBoyStateMachine, FLOOR, TERMINAL_VELOCITY,
};
use crate::segment::{
    is_segment, is_stone_and_platform, platform_and_stone, stone_and_platform,
};
use crate::sprite_sheet::SpriteSheet;

verus! {

/// Gap between the generation cursor and the next segment's anchor.
pub const OBSTACLE_BUFFER: i16 = 20;

/// Lookahead the generation cursor must keep ahead of the screen; falling
/// below it triggers generation of the next segment.
pub const TIMELINE_MINIMUM: i16 = 1000;

#[verifier::external_type_specification]
#[verifier::external_body]
pub struct ExThreadRng(rand::rngs::ThreadRng);

/// Relies on rand::thread_rng: obtains the thread-local generator. Nothing
/// is promised of it; every draw states what holds of any outcome.
#[verifier::external_body]
fn new_rng() -> rand::rngs::ThreadRng {
    rand::thread_rng()
}

/// Relies on rand::Rng::gen_range over the half-open range up to 2: the
/// sample always lies in that range.
#[verifier::external_body]
fn rng_coin(rng: &mut rand::rngs::ThreadRng) -> (r: u8)
    ensures
        r < 2,
{
    rng.gen_range(0..2u8)
}

/// Per-state position facts the world keeps its character in. They are
/// stronger than the machine invariant: the character never sinks below the
/// floor line, never rises past the reach of one jump, and only descends
/// while running, sliding or falling.
pub open spec fn boy_pos_inv(m: RedHatBoyStateMachine) -> bool {
    match m {
        RedHatBoyStateMachine::Idle(s) => s.context.position.y == FLOOR && s.context.velocity.y
            == 0,
        RedHatBoyStateMachine::Running(s) => 0 <= s.context.velocity.y && -121
            <= s.context.position.y <= FLOOR,
        RedHatBoyStateMachine::Sliding(s) => 0 <= s.context.velocity.y && -121
            <= s.context.position.y <= FLOOR,
        RedHatBoyStateMachine::Falling(s) => 0 <= s.context.velocity.y && -421
            <= s.context.position.y <= FLOOR,
        RedHatBoyStateMachine::KnockedOut(s) => 0 <= s.context.velocity.y && -421
            <= s.context.position.y <= FLOOR,
        RedHatBoyStateMachine::Jumping(s) => -421 + rise_potential(s.context.velocity.y as int)
            <= s.context.position.y <= FLOOR,
    }
}

/// Events the world issues keep the per-state position facts: landings come
/// only from surfaces inside the canvas, and a landing mid-jump only happens
/// while descending.
pub proof fn lemma_pos_inv_preserved(m: RedHatBoyStateMachine, e: Event)
    requires
        machine_inv(m),
        boy_pos_inv(m),
        e matches Event::Land(p) ==> 0 <= p <= 600,
        (m is Jumping && e matches Event::Land(_)) ==> spec_context(m).velocity.y > 0,
    ensures
        event_allowed(m, e),
        machine_inv(spec_transition(m, e)),
        boy_pos_inv(spec_transition(m, e)),
{
    lemma_rise_potential_nonneg(spec_context(m).velocity.y as int);
    assert(event_allowed(m, e));
    lemma_transition_preserves_inv(m, e);
    match (m, e) {
        (RedHatBoyStateMachine::Jumping(s), Event::Update) => {
            if s.context.velocity.y < 0 {
                lemma_rise_potential_step(s.context.velocity.y as int);
            }
        },
        (RedHatBoyStateMachine::Running(s), Event::Jump) => {
            assert(((25 - 1) * 25) / 2 == 300) by (nonlinear_arith);
            assert(rise_potential(-25) == 300);
        },
        _ => {},
    }
}

/// How many displacement units a jump has left before it must have landed:
/// gravity still owes `TERMINAL_VELOCITY - vy` speed-ups, the floor is
/// `FLOOR - y` below, and the remaining ascent postpones the descent. Each
/// bare tick spends at least twenty units of this.
pub open spec fn jump_measure(c: RedHatBoyContext) -> int {
    20 * (TERMINAL_VELOCITY - c.velocity.y) + (FLOOR - c.position.y) + rise_potential(
        c.velocity.y as int,
    )
}

/// A running character keeps running under bare ticks.
proof fn lemma_running_stays(m: RedHatBoyStateMachine, n: nat)
    requires
        m is Running,
    ensures
        spec_ticks(m, n) is Running,
    decreases n,
{
    if n > 0 {
        lemma_running_stays(spec_transition(m, Event::Update), (n - 1) as nat);
    }
}

/// Every jump comes down: enough bare ticks land any well-formed jumping
/// state the world can hold back into running, and running then persists.
pub proof fn lemma_jump_lands_within(m: RedHatBoyStateMachine, n: nat)
    requires
        machine_inv(m),
        boy_pos_inv(m),
        m is Jumping,
        20 * n >= jump_measure(spec_context(m)) + 20,
    ensures
        spec_ticks(m, n) is Running,
    decreases n,
{
    let c = spec_context(m);
    lemma_rise_potential_nonneg(c.velocity.y as int);
    lemma_pos_inv_preserved(m, Event::Update);
    let m1 = spec_transition(m, Event::Update);
    if m1 is Running {
        lemma_running_stays(m1, (n - 1) as nat);
    } else {
        if c.velocity.y < 0 {
            lemma_rise_potential_step(c.velocity.y as int);
        }
        assert(jump_measure(spec_context(m1)) <= jump_measure(c) - 20);
        lemma_jump_lands_within(m1, (n - 1) as nat);
    }
}

/// The measure is at most 1800 for any jumping state the world can hold, so
/// ninety-one ticks always suffice: forty-five for gravity to reach terminal
/// velocity, forty-five to fall the worst-case height, one to land.
pub proof fn lemma_jump_lands(m: RedHatBoyStateMachine)
    requires
        machine_inv(m),
        boy_pos_inv(m),
        m is Jumping,
    ensures
        spec_ticks(m, 91) is Running,
{
    lemma_rise_potential_nonneg(spec_context(m).velocity.y as int);
    lemma_jump_lands_within(m, 91);
}

/// One obstacle check keeps the world's character facts: the platform only
/// lands a descending character on a box inside the canvas, and knockouts
/// stop all motion.
pub proof fn lemma_obstacle_check_preserves(o: Obstacle, boy: RedHatBoy)
    requires
        obstacle_wf(o),
        boy_wf(boy),
        boy_pos_inv(boy.state_machine),
    ensures
        machine_inv(spec_obstacle_check(o, boy)),
        boy_pos_inv(spec_obstacle_check(o, boy)),
{
    match o {
        Obstacle::Barrier(b) => {
            if crate::rect::spec_intersects(
                crate::redhatboy::spec_bounding_box(boy),
                b.image.bounding_box,
            ) {
                lemma_pos_inv_preserved(boy.state_machine, Event::KnockOut);
            }
        },
        Obstacle::Platform(p) => {
            let bbox = crate::redhatboy::spec_bounding_box(boy);
            match crate::platform::spec_first_hit(p.bounding_boxes@, bbox) {
                Some(hit) => {
                    crate::platform::lemma_first_hit_is_member(p.bounding_boxes@, bbox);
                    let i = choose|i: int|
                        0 <= i < p.bounding_boxes@.len() && p.bounding_boxes@[i] == hit;
                    assert(box_wf(p.bounding_boxes@[i], p.position));
                    let c = spec_context(boy.state_machine);
                    if c.velocity.y > 0 && c.position.y < p.position.y {
                        lemma_pos_inv_preserved(boy.state_machine, Event::Land(hit.position.y));
                    } else {
                        lemma_pos_inv_preserved(boy.state_machine, Event::KnockOut);
                    }
                },
                None => {},
            }
        },
    }
}

/// The two background tiles stay the same width, exactly one width apart,
/// with the left one never far outside the canvas — so the pair always
/// covers the screen and wrap arithmetic stays in range. A tile is at least
/// a dozen units wide, several scroll steps, so at most one tile wraps per
/// tick.
pub open spec fn bg_inv(first: Image, second: Image) -> bool {
    let w = first.bounding_box.width;
    let x1 = first.bounding_box.position.x;
    let x2 = second.bounding_box.position.x;
    &&& second.bounding_box.width == w
    &&& 12 <= w <= 10000
    &&& (x2 == x1 + w || x1 == x2 + w)
    &&& -w - 5 <= bg_min_x(first, second) <= 5
}

/// The leftmost of the two tiles' positions.
pub open spec fn bg_min_x(first: Image, second: Image) -> int {
    if first.bounding_box.position.x <= second.bounding_box.position.x {
        first.bounding_box.position.x as int
    } else {
        second.bounding_box.position.x as int
    }
}

/// An image shifted horizontally by `dx`.
pub open spec fn spec_moved_image(img: Image, dx: i16) -> Image {
    Image {
        bounding_box: Rect {
            position: Point {
                x: (img.bounding_box.position.x + dx) as i16,
                y: img.bounding_box.position.y,
            },
            width: img.bounding_box.width,
            height: img.bounding_box.height,
        },
    }
}

/// An image put at a new horizontal position.
pub open spec fn spec_image_at(img: Image, x: i16) -> Image {
    Image {
        bounding_box: Rect {
            position: Point { x, y: img.bounding_box.position.y },
            width: img.bounding_box.width,
            height: img.bounding_box.height,
        },
    }
}

/// One tick of the parallax scroll: both tiles shift by `dx`; a tile whose
/// right edge has passed the screen's left edge is put immediately to the
/// right of its partner, so the two tiles loop seamlessly.
pub open spec fn spec_scroll_backgrounds(first: Image, second: Image, dx: i16) -> (Image, Image) {
    let f1 = spec_moved_image(first, dx);
    let s1 = spec_moved_image(second, dx);
    let f2 = if spec_right(f1.bounding_box) < 0 {
        spec_image_at(f1, spec_right(s1.bounding_box) as i16)
    } else {
        f1
    };
    let s2 = if spec_right(s1.bounding_box) < 0 {
        spec_image_at(s1, spec_right(f2.bounding_box) as i16)
    } else {
        s1
    };
    (f2, s2)
}

/// The scroll keeps the background pair well formed.
pub proof fn lemma_scroll_preserves_bg(first: Image, second: Image, dx: i16)
    requires
        bg_inv(first, second),
        -3 <= dx <= 0,
    ensures
        bg_inv(
            spec_scroll_backgrounds(first, second, dx).0,
            spec_scroll_backgrounds(first, second, dx).1,
        ),
{
}

/// The obstacles that survive the cull: those whose trailing edge is still
/// right of the screen's left edge, in their spawn order.
pub open spec fn spec_retained(obs: Seq<Obstacle>) -> Seq<Obstacle>
    decreases obs.len(),
{
    if obs.len() == 0 {
        Seq::empty()
    } else {
        let prefix = spec_retained(obs.drop_last());
        if spec_obstacle_right(obs.last()) > 0 {
            prefix.push(obs.last())
        } else {
            prefix
        }
    }
}

/// Checking one more obstacle folds onto the machine the earlier checks
/// produced.
pub proof fn lemma_check_fold_snoc(obs: Seq<Obstacle>, boy: RedHatBoy, o: Obstacle)
    ensures
        spec_check_fold(obs.push(o), boy) == spec_obstacle_check(
            o,
            RedHatBoy {
                state_machine: spec_check_fold(obs, boy),
                sprite_sheet: boy.sprite_sheet,
            },
        ),
    decreases obs.len(),
{
    reveal_with_fuel(spec_check_fold, 3);
    if obs.len() == 0 {
        assert(obs.push(o).drop_first() =~= Seq::<Obstacle>::empty());
    } else {
        assert(obs.push(o).drop_first() =~= obs.drop_first().push(o));
        assert(obs.push(o)[0] == obs[0]);
        let boy1 = RedHatBoy {
            state_machine: spec_obstacle_check(obs[0], boy),
            sprite_sheet: boy.sprite_sheet,
        };
        lemma_check_fold_snoc(obs.drop_first(), boy1, o);
    }
}

/// The character after one tick's input commands and its per-tick event:
/// a held jump command, then a held slide command, then the tick itself.
pub open spec fn walk_after_inputs(m: RedHatBoyStateMachine, ks: KeyState) -> RedHatBoyStateMachine {
    let m1 = if ks.space {
        spec_transition(m, Event::Jump)
    } else {
        m
    };
    let m2 = if ks.arrow_down {
        spec_transition(m1, Event::Slide)
    } else {
        m1
    };
    spec_transition(m2, Event::Update)
}

/// The world: two background tiles, the character, the sheet obstacles draw
/// from, the live obstacles in left-to-right spawn order, the stone's size
/// for future segments, and the generation cursor — the rightmost
/// x-coordinate generated so far.
pub struct Walk {
    pub first_background: Image,
    pub second_background: Image,
    pub boy: RedHatBoy,
    pub obstacle_sheet: SpriteSheet,
    pub obstacles: Vec<Obstacle>,
    pub stone_width: i16,
    pub stone_height: i16,
    pub timeline: i16,
}

/// World well-formedness: everything a tick relies on.
pub open spec fn walk_inv(w: Walk) -> bool {
    &&& boy_wf(w.boy)
    &&& boy_pos_inv(w.boy.state_machine)
    &&& bg_inv(w.first_background, w.second_background)
    &&& forall|i: int| 0 <= i < w.obstacles@.len() ==> obstacle_wf(#[trigger] w.obstacles@[i])
    &&& 0 <= w.timeline <= 31000
    &&& 0 <= w.stone_width <= 1200
    &&& 0 <= w.stone_height <= 1200
}

/// How a restart relates the rebuilt world to the abandoned one: the same
/// background tiles and sheets, a fresh idle character, a fresh
/// stone-then-platform segment at the origin, and the cursor at that
/// segment's rightmost edge.
pub open spec fn reset_rel(w0: Walk, w1: Walk) -> bool {
    &&& w1.first_background == w0.first_background
    &&& w1.second_background == w0.second_background
    &&& w1.boy.state_machine == spec_initial_machine()
    &&& w1.boy.sprite_sheet == w0.boy.sprite_sheet
    &&& w1.obstacle_sheet == w0.obstacle_sheet
    &&& w1.stone_width == w0.stone_width
    &&& w1.stone_height == w0.stone_height
    &&& is_stone_and_platform(
        w0.stone_width,
        w0.stone_height,
        w0.obstacle_sheet,
        0,
        w1.obstacles@,
    )
    &&& w1.timeline == spec_rightmost(w1.obstacles@)
}

/// How one tick of the running game relates the new world to the old one.
/// The character takes the held commands and its tick; the world scrolls
/// opposite the character's speed; obstacles that left the screen are gone,
/// the rest have moved and been collision-checked in order; and the cursor
/// either tracked the scroll or — below the minimum lookahead — the course
/// grew by one segment, drawn at random, stamped just past the old cursor.
/// Only the draw is open; everything else is pinned.
pub open spec fn walk_advance_rel(w0: Walk, ks: KeyState, w1: Walk) -> bool {
    let m1 = walk_after_inputs(w0.boy.state_machine, ks);
    let dx = (-(spec_context(m1).velocity.x as int)) as i16;
    let bgs = spec_scroll_backgrounds(w0.first_background, w0.second_background, dx);
    let kept = spec_retained(w0.obstacles@);
    let k = kept.len() as int;
    &&& w1.first_background == bgs.0
    &&& w1.second_background == bgs.1
    &&& w1.obstacle_sheet == w0.obstacle_sheet
    &&& w1.stone_width == w0.stone_width
    &&& w1.stone_height == w0.stone_height
    &&& w1.boy.sprite_sheet == w0.boy.sprite_sheet
    &&& w1.obstacles@.len() >= k
    &&& forall|i: int| 0 <= i < k ==> obstacle_moved(kept[i], dx, #[trigger] w1.obstacles@[i])
    &&& w1.boy.state_machine == spec_check_fold(
        w1.obstacles@.take(k),
        RedHatBoy { state_machine: m1, sprite_sheet: w0.boy.sprite_sheet },
    )
    &&& if w0.timeline < TIMELINE_MINIMUM {
        &&& w1.obstacles@.len() == k + 2
        &&& is_segment(
            w0.stone_width,
            w0.stone_height,
            w0.obstacle_sheet,
            (w0.timeline + OBSTACLE_BUFFER) as i16,
            w1.obstacles@.skip(k),
        )
        &&& w1.timeline == w0.timeline + spec_rightmost(w1.obstacles@.skip(k))
        &&& w0.timeline < w1.timeline
    } else {
        &&& w1.obstacles@.len() == k
        &&& w1.timeline == w0.timeline + dx
    }
}

impl Walk {
    /// A fresh world: the character idle at its starting point, the first
    /// stone-then-platform segment stamped at the origin, and the cursor at
    /// that segment's rightmost edge.
    pub fn new(
        first_background: Image,
        second_background: Image,
        boy_sheet: SpriteSheet,
        obstacle_sheet: SpriteSheet,
        stone_width: i16,
        stone_height: i16,
    ) -> (r: Walk)
        requires
            bg_inv(first_background, second_background),
            boy_sheet_wf(boy_sheet),
            0 <= stone_width <= 1200,
            0 <= stone_height <= 1200,
        ensures
            r.first_background == first_background,
            r.second_background == second_background,
            r.boy.state_machine == spec_initial_machine(),
            r.boy.sprite_sheet == boy_sheet,
            r.obstacle_sheet == obstacle_sheet,
            r.stone_width == stone_width,
            r.stone_height == stone_height,
            is_stone_and_platform(stone_width, stone_height, obstacle_sheet, 0, r.obstacles@),
            r.timeline == spec_rightmost(r.obstacles@),
            walk_inv(r),
    {
        let boy = RedHatBoy::new(boy_sheet);
        let starting_obstacles = stone_and_platform(
            stone_width,
            stone_height,
            &obstacle_sheet,
            0,
        );
        let timeline = rightmost(&starting_obstacles);
        Walk {
            first_background,
            second_background,
            boy,
            obstacle_sheet,
            obstacles: starting_obstacles,
            stone_width,
            stone_height,
            timeline,
        }
    }

    /// Whether the character has reached its terminal state.
    pub fn knocked_out(&self) -> (r: bool)
        ensures
            r == (self.boy.state_machine is KnockedOut),
    {
        self.boy.knocked_out()
    }

    /// How far the world shifts per tick: opposite the character's speed.
    pub fn velocity(&self) -> (r: i16)
        requires
            machine_inv(self.boy.state_machine),
        ensures
            r == -spec_context(self.boy.state_machine).velocity.x,
            -3 <= r <= 0,
    {
        -self.boy.walking_speed()
    }

    /// Stamps the next segment just past the cursor and extends the cursor
    /// by the new batch's rightmost edge. Which of the two segments comes is
    /// drawn at random; everything stated here holds of either.
    pub fn generate_next_segment(&mut self)
        requires
            0 <= old(self).timeline < TIMELINE_MINIMUM,
            0 <= old(self).stone_width <= 1200,
            0 <= old(self).stone_height <= 1200,
            forall|i: int|
                0 <= i < old(self).obstacles@.len() ==> obstacle_wf(
                    #[trigger] old(self).obstacles@[i],
                ),
        ensures
            forall|i: int|
                0 <= i < final(self).obstacles@.len() ==> obstacle_wf(
                    #[trigger] final(self).obstacles@[i],
                ),
            final(self).first_background == old(self).first_background,
            final(self).second_background == old(self).second_background,
            final(self).boy == old(self).boy,
            final(self).obstacle_sheet == old(self).obstacle_sheet,
            final(self).stone_width == old(self).stone_width,
            final(self).stone_height == old(self).stone_height,
            final(self).obstacles@.len() == old(self).obstacles@.len() + 2,
            final(self).obstacles@.take(old(self).obstacles@.len() as int) == old(self).obstacles@,
            is_segment(
                old(self).stone_width,
                old(self).stone_height,
                old(self).obstacle_sheet,
                (old(self).timeline + OBSTACLE_BUFFER) as i16,
                final(self).obstacles@.skip(old(self).obstacles@.len() as int),
            ),
            final(self).timeline == old(self).timeline + spec_rightmost(
                final(self).obstacles@.skip(old(self).obstacles@.len() as int),
            ),
            old(self).timeline < final(self).timeline <= 31000,
    {
        let mut rng = new_rng();
        let next_segment = rng_coin(&mut rng);
        let offset = self.timeline + OBSTACLE_BUFFER;
        let mut next_obstacles = if next_segment == 0 {
            stone_and_platform(self.stone_width, self.stone_height, &self.obstacle_sheet, offset)
        } else {
            platform_and_stone(self.stone_width, self.stone_height, &self.obstacle_sheet, offset)
        };
        let ghost batch = next_obstacles@;
        let rightmost_edge = rightmost(&next_obstacles);
        self.timeline = self.timeline + rightmost_edge;
        self.obstacles.append(&mut next_obstacles);
        proof {
            assert(self.obstacles@.take(old(self).obstacles@.len() as int) =~= old(
                self,
            ).obstacles@);
            assert(self.obstacles@.skip(old(self).obstacles@.len() as int) =~= batch);
        }
    }

    /// One tick of the running game; see [`walk_advance_rel`] for everything
    /// it guarantees. Held commands are forwarded to the character, the
    /// character ticks, the world scrolls, off-screen obstacles are culled,
    /// the rest are moved and collision-checked in order, and the course is
    /// extended when the cursor drops below its minimum lookahead.
    #[verifier::rlimit(60)]
    pub fn advance(&mut self, keystate: &KeyState)
        requires
            walk_inv(*old(self)),
        ensures
            walk_advance_rel(*old(self), *keystate, *final(self)),
            walk_inv(*final(self)),
    {
        // Input commands, then the per-tick event.
        if keystate.space {
            proof {
                lemma_pos_inv_preserved(self.boy.state_machine, Event::Jump);
            }
            self.boy.jump();
        }
        if keystate.arrow_down {
            proof {
                lemma_pos_inv_preserved(self.boy.state_machine, Event::Slide);
            }
            self.boy.slide();
        }
        proof {
            lemma_pos_inv_preserved(self.boy.state_machine, Event::Update);
        }
        self.boy.update();
        let ghost m1 = self.boy.state_machine;
        let ghost boy1 = RedHatBoy {
            state_machine: m1,
            sprite_sheet: old(self).boy.sprite_sheet,
        };

        let walking_speed = self.velocity();

        // Backgrounds: scroll both tiles; a tile that left the screen is put
        // right after its partner.
        self.first_background.move_horizontally(walking_speed);
        self.second_background.move_horizontally(walking_speed);
        if self.first_background.right() < 0 {
            let x = self.second_background.right();
            self.first_background.set_x(x);
        }
        if self.second_background.right() < 0 {
            let x = self.first_background.right();
            self.second_background.set_x(x);
        }
        proof {
            lemma_scroll_preserves_bg(
                old(self).first_background,
                old(self).second_background,
                walking_speed,
            );
        }

        // Cull obstacles whose trailing edge has scrolled past the screen.
        let mut pending: Vec<Obstacle> = Vec::new();
        core::mem::swap(&mut pending, &mut self.obstacles);
        let ghost orig = pending@;
        let mut kept: Vec<Obstacle> = Vec::new();
        let ghost mut j: int = 0int;
        while pending.len() > 0
            invariant
                0 <= j <= orig.len(),
                pending@ == orig.skip(j),
                kept@ == spec_retained(orig.take(j)),
                forall|i: int| 0 <= i < orig.len() ==> obstacle_wf(#[trigger] orig[i]),
                forall|i: int|
                    0 <= i < kept@.len() ==> obstacle_wf(#[trigger] kept@[i])
                        && spec_obstacle_right(kept@[i]) > 0,
            decreases pending.len(),
        {
            let o = pending.remove(0);
            proof {
                assert(o == orig[j]);
                assert(orig.skip(j).drop_first() =~= orig.skip(j + 1));
                assert(orig.take(j + 1).drop_last() =~= orig.take(j));
                assert(orig.take(j + 1).last() == orig[j]);
            }
            if o.right() > 0 {
                kept.push(o);
            }
            proof {
                j = j + 1;
            }
        }
        proof {
            assert(orig.take(j) =~= orig);
        }

        // Move the survivors with the world and collision-check each one
        // against the character, left to right.
        let ghost retained = kept@;
        let ghost fb_now = self.first_background;
        let ghost sb_now = self.second_background;
        let mut moved: Vec<Obstacle> = Vec::new();
        while kept.len() > 0
            invariant
                moved@.len() + kept@.len() == retained.len(),
                kept@ == retained.skip(moved@.len() as int),
                forall|i: int|
                    0 <= i < retained.len() ==> obstacle_wf(#[trigger] retained[i])
                        && spec_obstacle_right(retained[i]) > 0,
                forall|i: int|
                    0 <= i < moved@.len() ==> obstacle_moved(
                        retained[i],
                        walking_speed,
                        #[trigger] moved@[i],
                    ),
                forall|i: int| 0 <= i < moved@.len() ==> obstacle_wf(#[trigger] moved@[i]),
                self.boy.state_machine == spec_check_fold(moved@, boy1),
                self.boy.sprite_sheet == boy1.sprite_sheet,
                boy_wf(self.boy),
                boy_pos_inv(self.boy.state_machine),
                -3 <= walking_speed <= 0,
                self.first_background == fb_now,
                self.second_background == sb_now,
                self.obstacle_sheet == old(self).obstacle_sheet,
                self.stone_width == old(self).stone_width,
                self.stone_height == old(self).stone_height,
                self.timeline == old(self).timeline,
            decreases kept.len(),
        {
            let ghost prev_moved = moved@;
            let ghost boy_before = self.boy;
            let mut o = kept.remove(0);
            proof {
                assert(o == retained[prev_moved.len() as int]);
                assert(retained.skip(prev_moved.len() as int).drop_first() =~= retained.skip(
                    prev_moved.len() as int + 1,
                ));
            }
            o.move_horizontally(walking_speed);
            o.check_intersection(&mut self.boy);
            proof {
                lemma_obstacle_check_preserves(o, boy_before);
                lemma_check_fold_snoc(prev_moved, boy1, o);
            }
            moved.push(o);
        }

        // Extend the course when the cursor has fallen below the minimum
        // lookahead; otherwise the cursor tracks the world's scroll.
        let ghost k = retained.len() as int;
        let ghost moved_view = moved@;
        if self.timeline < TIMELINE_MINIMUM {
            self.obstacles = moved;
            self.generate_next_segment();
            proof {
                assert(self.obstacles@.take(k) == moved_view);
            }
        } else {
            self.timeline = self.timeline + walking_speed;
            self.obstacles = moved;
            proof {
                assert(self.obstacles@.take(k) =~= moved_view);
            }
        }
        proof {
            assert(self.obstacles@.take(k) == moved_view);
            assert forall|i: int|
                0 <= i < k implies obstacle_moved(
                retained[i],
                walking_speed,
                #[trigger] self.obstacles@[i],
            ) by {
                assert(self.obstacles@.take(k)[i] == self.obstacles@[i]);
                assert(moved_view[i] == self.obstacles@[i]);
            }
        }
    }

    /// Rebuilds the world for a restart: a fresh stone-then-platform segment
    /// at the origin, a fresh idle character, the same background and sheet
    /// resources reused.
    pub fn reset(walk: Walk) -> (r: Walk)
        requires
            walk_inv(walk),
        ensures
            reset_rel(walk, r),
            walk_inv(r),
    {
        let starting_obstacles = stone_and_platform(
            walk.stone_width,
            walk.stone_height,
            &walk.obstacle_sheet,
            0,
        );
        let timeline = rightmost(&starting_obstacles);
        Walk {
            first_background: walk.first_background,
            second_background: walk.second_background,
            boy: RedHatBoy::reset(walk.boy),
            obstacle_sheet: walk.obstacle_sheet,
            obstacles: starting_obstacles,
            stone_width: walk.stone_width,
            stone_height: walk.stone_height,
            timeline,
        }
    }
}

} // verus!
