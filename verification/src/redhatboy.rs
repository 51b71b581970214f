//! The player character: a six-state animation and physics machine.
//!
//! Each state owns the character's context (frame counter, position,
//! velocity) together with a zero-sized state tag; a transition consumes the
//! old state by value and produces the next one, so exactly one state is
//! ever live. Events not in a state's transition row leave the state as it
//! is — that permissiveness is deliberate, not an error.

use vstd::prelude::*;
use vstd::string::StringExecFns;

use crate::point::Point;
use crate::rect::Rect;
use crate::sprite_sheet::{
    cell_bounded, lemma_cell_bounded, lemma_has_cell_found, sheet_cells_bounded, spec_cell,
    spec_destination, spec_has_cell, Cell, SpriteSheet,
};

verus! {

/// Vertical coordinate of the ground line the character stands on.
pub const FLOOR: i16 = 479;

/// Height of the character's logical box, from the ground line to the top
/// of the canvas band reserved for it.
pub const PLAYER_HEIGHT: i16 = crate::HEIGHT - FLOOR;

/// Horizontal coordinate the character keeps for the whole session; the
/// world scrolls past it instead.
pub const STARTING_POINT: i16 = -20;

/// Downward velocity gained per tick while below terminal velocity.
pub const GRAVITY: i16 = 1;

/// The largest downward speed physics integration allows.
pub const TERMINAL_VELOCITY: i16 = 20;

/// Upward (negative) vertical speed set by a jump.
pub const JUMPING_SPEED: i16 = -25;

/// Horizontal speed while running.
pub const RUNNING_SPEED: i16 = 3;

/// Animation lengths, reused as completion thresholds for the states that
/// auto-transition when their animation runs out.
pub const IDLE_FRAMES: u8 = 29;
pub const RUNNING_FRAMES: u8 = 23;
pub const JUMPING_FRAMES: u8 = 35;
pub const SLIDING_FRAMES: u8 = 14;
pub const FALLING_FRAMES: u8 = 29;

/// Frame counter, position and velocity of the character. The active state
/// owns it and hands it on, by value, at every transition.
#[derive(Clone, Copy, PartialEq, Eq, Structural, Debug)]
pub struct RedHatBoyContext {
    pub frame: u8,
    pub position: Point,
    pub velocity: Point,
}

/// How far above its current line the character can still rise while its
/// vertical velocity is `vy`: gravity adds one per tick, so an ascent at
/// speed `vy < 0` climbs `(-vy - 1) + (-vy - 2) + ... + 1 + 0` more units.
pub open spec fn rise_potential(vy: int) -> int {
    if vy < 0 {
        ((-vy - 1) * (-vy)) / 2
    } else {
        0
    }
}

/// Well-formedness of a context: the character sits at its fixed horizontal
/// station, speeds stay in the ranges the physics can produce, and the
/// vertical position leaves room for the remaining ascent, so integration
/// never leaves 16-bit range.
pub open spec fn ctx_inv(c: RedHatBoyContext) -> bool {
    &&& c.position.x == STARTING_POINT
    &&& 0 <= c.velocity.x <= RUNNING_SPEED
    &&& JUMPING_SPEED <= c.velocity.y <= TERMINAL_VELOCITY
    &&& c.position.y <= i16::MAX - PLAYER_HEIGHT
    &&& i16::MIN + 25 + rise_potential(c.velocity.y as int) <= c.position.y
}

/// One tick of per-state physics: the frame counter advances and wraps at
/// `frame_count`, gravity pulls until terminal velocity, the vertical
/// position integrates the velocity, and crossing the floor line clamps the
/// position and zeroes the vertical speed.
pub open spec fn spec_ctx_update(c: RedHatBoyContext, frame_count: u8) -> RedHatBoyContext {
    let frame = if c.frame < frame_count {
        (c.frame + 1) as u8
    } else {
        0u8
    };
    let vy = if c.velocity.y < TERMINAL_VELOCITY {
        (c.velocity.y + 1) as i16
    } else {
        c.velocity.y
    };
    let y = (c.position.y + vy) as i16;
    if y > FLOOR {
        RedHatBoyContext {
            frame,
            position: Point { x: c.position.x, y: FLOOR },
            velocity: Point { x: c.velocity.x, y: 0 },
        }
    } else {
        RedHatBoyContext {
            frame,
            position: Point { x: c.position.x, y },
            velocity: Point { x: c.velocity.x, y: vy },
        }
    }
}

/// Snaps the character's feet to a surface at `position`: the vertical
/// coordinate becomes `position - PLAYER_HEIGHT`; nothing else changes.
pub open spec fn spec_set_on(c: RedHatBoyContext, position: i16) -> RedHatBoyContext {
    RedHatBoyContext {
        position: Point { x: c.position.x, y: (position - PLAYER_HEIGHT) as i16 },
        ..c
    }
}

/// Restarts the animation at its first frame.
pub open spec fn spec_reset_frame(c: RedHatBoyContext) -> RedHatBoyContext {
    RedHatBoyContext { frame: 0, ..c }
}

/// Launches upward at the fixed jumping speed.
pub open spec fn spec_jump_ctx(c: RedHatBoyContext) -> RedHatBoyContext {
    RedHatBoyContext { velocity: Point { x: c.velocity.x, y: JUMPING_SPEED }, ..c }
}

/// Starts horizontal motion at the fixed running speed.
pub open spec fn spec_run_ctx(c: RedHatBoyContext) -> RedHatBoyContext {
    RedHatBoyContext { velocity: Point { x: RUNNING_SPEED, y: c.velocity.y }, ..c }
}

/// Stops all motion.
pub open spec fn spec_stop(c: RedHatBoyContext) -> RedHatBoyContext {
    RedHatBoyContext { velocity: Point { x: 0, y: 0 }, ..c }
}

/// The remaining ascent is never negative.
pub proof fn lemma_rise_potential_nonneg(vy: int)
    ensures
        rise_potential(vy) >= 0,
{
    if vy < 0 {
        assert(((-vy - 1) * (-vy)) / 2 >= 0) by (nonlinear_arith)
            requires
                vy < 0,
        ;
    }
}

/// The remaining ascent never exceeds 300 for velocities a jump can set.
pub proof fn lemma_rise_potential_bounded(vy: int)
    requires
        JUMPING_SPEED <= vy,
    ensures
        rise_potential(vy) <= 300,
{
    if vy < 0 {
        assert(((-vy - 1) * (-vy)) / 2 <= 300) by (nonlinear_arith)
            requires
                -25 <= vy < 0,
        ;
    }
}

/// One gravity step spends exactly its own displacement of the remaining
/// ascent: rising by `vy + 1` units leaves `rise_potential(vy + 1)`.
pub proof fn lemma_rise_potential_step(vy: int)
    requires
        vy < 0,
    ensures
        rise_potential(vy) + vy + 1 == rise_potential(vy + 1),
{
    assert(((-vy - 1) * (-vy)) / 2 + vy + 1 == rise_potential(vy + 1)) by (nonlinear_arith)
        requires
            vy < 0,
    ;
}

/// The physics tick preserves context well-formedness.
pub proof fn lemma_ctx_update_preserves_inv(c: RedHatBoyContext, frame_count: u8)
    requires
        ctx_inv(c),
    ensures
        ctx_inv(spec_ctx_update(c, frame_count)),
        spec_ctx_update(c, frame_count).frame <= frame_count,
{
    lemma_rise_potential_nonneg(c.velocity.y as int);
    if c.velocity.y < 0 {
        lemma_rise_potential_step(c.velocity.y as int);
    }
}

impl RedHatBoyContext {
    /// Advances one tick of physics and animation; see [`spec_ctx_update`].
    pub fn update(self, frame_count: u8) -> (r: Self)
        requires
            ctx_inv(self),
        ensures
            r == spec_ctx_update(self, frame_count),
            ctx_inv(r),
            r.frame <= frame_count,
    {
        proof {
            lemma_ctx_update_preserves_inv(self, frame_count);
            lemma_rise_potential_nonneg(self.velocity.y as int);
        }
        let mut c = self;
        if c.frame < frame_count {
            c.frame = c.frame + 1;
        } else {
            c.frame = 0;
        }
        if c.velocity.y < TERMINAL_VELOCITY {
            c.velocity.y = c.velocity.y + GRAVITY;
        }
        c.position.y = c.position.y + c.velocity.y;
        if c.position.y > FLOOR {
            c.velocity.y = 0;
            c.position.y = FLOOR;
        }
        c
    }

    fn set_on(self, position: i16) -> (r: Self)
        requires
            i16::MIN + PLAYER_HEIGHT <= position,
        ensures
            r == spec_set_on(self, position),
    {
        let mut c = self;
        c.position.y = position - PLAYER_HEIGHT;
        c
    }

    fn reset_frame(self) -> (r: Self)
        ensures
            r == spec_reset_frame(self),
    {
        let mut c = self;
        c.frame = 0;
        c
    }

    fn jump(self) -> (r: Self)
        ensures
            r == spec_jump_ctx(self),
    {
        let mut c = self;
        c.velocity.y = JUMPING_SPEED;
        c
    }

    fn run(self) -> (r: Self)
        ensures
            r == spec_run_ctx(self),
    {
        let mut c = self;
        c.velocity.x = RUNNING_SPEED;
        c
    }

    fn stop(self) -> (r: Self)
        ensures
            r == spec_stop(self),
    {
        let mut c = self;
        c.velocity.x = 0;
        c.velocity.y = 0;
        c
    }
}

/// State tags. Each is zero-sized; the variant a state machine holds is the
/// type-level record of which behavior is active.
#[derive(Clone, Copy, PartialEq, Eq, Structural, Debug)]
pub struct Falling;

#[derive(Clone, Copy, PartialEq, Eq, Structural, Debug)]
pub struct Idle;

#[derive(Clone, Copy, PartialEq, Eq, Structural, Debug)]
pub struct Jumping;

#[derive(Clone, Copy, PartialEq, Eq, Structural, Debug)]
pub struct KnockedOut;

#[derive(Clone, Copy, PartialEq, Eq, Structural, Debug)]
pub struct Running;

#[derive(Clone, Copy, PartialEq, Eq, Structural, Debug)]
pub struct Sliding;

/// A state of the character: its context plus the tag of the active state.
#[derive(Clone, Copy, Debug)]
pub struct RedHatBoyState<S> {
    pub context: RedHatBoyContext,
    pub _state: S,
}

/// The events the character machine reacts to. `Land` carries the vertical
/// coordinate of the surface landed on; `Update` is the per-tick event.
#[derive(Clone, Copy, PartialEq, Eq, Structural, Debug)]
pub enum Event {
    Jump,
    KnockOut,
    Land(i16),
    Run,
    Slide,
    Update,
}

/// The whole character machine: exactly one state is live at a time.
#[derive(Clone, Copy, Debug)]
pub enum RedHatBoyStateMachine {
    Falling(RedHatBoyState<Falling>),
    Idle(RedHatBoyState<Idle>),
    Jumping(RedHatBoyState<Jumping>),
    KnockedOut(RedHatBoyState<KnockedOut>),
    Running(RedHatBoyState<Running>),
    Sliding(RedHatBoyState<Sliding>),
}

/// The context of whichever state is live.
pub open spec fn spec_context(m: RedHatBoyStateMachine) -> RedHatBoyContext {
    match m {
        RedHatBoyStateMachine::Falling(s) => s.context,
        RedHatBoyStateMachine::Idle(s) => s.context,
        RedHatBoyStateMachine::Jumping(s) => s.context,
        RedHatBoyStateMachine::KnockedOut(s) => s.context,
        RedHatBoyStateMachine::Running(s) => s.context,
        RedHatBoyStateMachine::Sliding(s) => s.context,
    }
}

/// Animation length of the live state; the frame counter never passes it.
pub open spec fn frame_budget(m: RedHatBoyStateMachine) -> u8 {
    match m {
        RedHatBoyStateMachine::Falling(_) => FALLING_FRAMES,
        RedHatBoyStateMachine::Idle(_) => IDLE_FRAMES,
        RedHatBoyStateMachine::Jumping(_) => JUMPING_FRAMES,
        RedHatBoyStateMachine::KnockedOut(_) => FALLING_FRAMES,
        RedHatBoyStateMachine::Running(_) => RUNNING_FRAMES,
        RedHatBoyStateMachine::Sliding(_) => SLIDING_FRAMES,
    }
}

/// Machine well-formedness: the context is well formed and the frame counter
/// stays within the live state's animation.
pub open spec fn machine_inv(m: RedHatBoyStateMachine) -> bool {
    &&& ctx_inv(spec_context(m))
    &&& spec_context(m).frame <= frame_budget(m)
}

/// What a tick does to a falling character: the animation advances; when it
/// has played out, the character is knocked out for good.
pub open spec fn spec_falling_update(s: RedHatBoyState<Falling>) -> RedHatBoyStateMachine {
    let c = spec_ctx_update(s.context, FALLING_FRAMES);
    if c.frame >= FALLING_FRAMES {
        RedHatBoyStateMachine::KnockedOut(RedHatBoyState { context: c, _state: KnockedOut })
    } else {
        RedHatBoyStateMachine::Falling(RedHatBoyState { context: c, _state: Falling })
    }
}

/// What a tick does to a jumping character: physics integrates; touching the
/// floor line lands the character back into running.
pub open spec fn spec_jumping_update(s: RedHatBoyState<Jumping>) -> RedHatBoyStateMachine {
    let c = spec_ctx_update(s.context, JUMPING_FRAMES);
    if c.position.y >= FLOOR {
        RedHatBoyStateMachine::Running(
            RedHatBoyState {
                context: spec_set_on(spec_reset_frame(c), crate::HEIGHT),
                _state: Running,
            },
        )
    } else {
        RedHatBoyStateMachine::Jumping(RedHatBoyState { context: c, _state: Jumping })
    }
}

/// What a tick does to a sliding character: the animation advances; when it
/// has played out, the character stands back up into running.
pub open spec fn spec_sliding_update(s: RedHatBoyState<Sliding>) -> RedHatBoyStateMachine {
    let c = spec_ctx_update(s.context, SLIDING_FRAMES);
    if c.frame >= SLIDING_FRAMES {
        RedHatBoyStateMachine::Running(
            RedHatBoyState { context: spec_reset_frame(c), _state: Running },
        )
    } else {
        RedHatBoyStateMachine::Sliding(RedHatBoyState { context: c, _state: Sliding })
    }
}

/// The full transition table. Every state-event pair not listed is a no-op:
/// the machine is returned unchanged.
pub open spec fn spec_transition(m: RedHatBoyStateMachine, e: Event) -> RedHatBoyStateMachine {
    match (m, e) {
        (RedHatBoyStateMachine::Falling(s), Event::Update) => spec_falling_update(s),
        (RedHatBoyStateMachine::Idle(s), Event::Run) => RedHatBoyStateMachine::Running(
            RedHatBoyState {
                context: spec_run_ctx(spec_reset_frame(s.context)),
                _state: Running,
            },
        ),
        (RedHatBoyStateMachine::Idle(s), Event::Update) => RedHatBoyStateMachine::Idle(
            RedHatBoyState { context: spec_ctx_update(s.context, IDLE_FRAMES), _state: Idle },
        ),
        (RedHatBoyStateMachine::Jumping(s), Event::KnockOut) => RedHatBoyStateMachine::Falling(
            RedHatBoyState {
                context: spec_stop(spec_reset_frame(s.context)),
                _state: Falling,
            },
        ),
        (RedHatBoyStateMachine::Jumping(s), Event::Land(position)) => RedHatBoyStateMachine::Running(
            RedHatBoyState {
                context: spec_set_on(spec_reset_frame(s.context), position),
                _state: Running,
            },
        ),
        (RedHatBoyStateMachine::Jumping(s), Event::Update) => spec_jumping_update(s),
        (RedHatBoyStateMachine::Running(s), Event::Jump) => RedHatBoyStateMachine::Jumping(
            RedHatBoyState {
                context: spec_jump_ctx(spec_reset_frame(s.context)),
                _state: Jumping,
            },
        ),
        (RedHatBoyStateMachine::Running(s), Event::KnockOut) => RedHatBoyStateMachine::Falling(
            RedHatBoyState {
                context: spec_stop(spec_reset_frame(s.context)),
                _state: Falling,
            },
        ),
        (RedHatBoyStateMachine::Running(s), Event::Land(position)) => RedHatBoyStateMachine::Running(
            RedHatBoyState { context: spec_set_on(s.context, position), _state: Running },
        ),
        (RedHatBoyStateMachine::Running(s), Event::Slide) => RedHatBoyStateMachine::Sliding(
            RedHatBoyState { context: spec_reset_frame(s.context), _state: Sliding },
        ),
        (RedHatBoyStateMachine::Running(s), Event::Update) => RedHatBoyStateMachine::Running(
            RedHatBoyState {
                context: spec_ctx_update(s.context, RUNNING_FRAMES),
                _state: Running,
            },
        ),
        (RedHatBoyStateMachine::Sliding(s), Event::KnockOut) => RedHatBoyStateMachine::Falling(
            RedHatBoyState {
                context: spec_stop(spec_reset_frame(s.context)),
                _state: Falling,
            },
        ),
        (RedHatBoyStateMachine::Sliding(s), Event::Land(position)) => RedHatBoyStateMachine::Sliding(
            RedHatBoyState { context: spec_set_on(s.context, position), _state: Sliding },
        ),
        (RedHatBoyStateMachine::Sliding(s), Event::Update) => spec_sliding_update(s),
        _ => m,
    }
}

/// Whether the table maps this state-event pair to a transition of its own;
/// every other pair is a no-op.
pub open spec fn event_in_row(m: RedHatBoyStateMachine, e: Event) -> bool {
    match (m, e) {
        (RedHatBoyStateMachine::Falling(_), Event::Update) => true,
        (RedHatBoyStateMachine::Idle(_), Event::Run) => true,
        (RedHatBoyStateMachine::Idle(_), Event::Update) => true,
        (RedHatBoyStateMachine::Jumping(_), Event::KnockOut) => true,
        (RedHatBoyStateMachine::Jumping(_), Event::Land(_)) => true,
        (RedHatBoyStateMachine::Jumping(_), Event::Update) => true,
        (RedHatBoyStateMachine::Running(_), Event::Jump) => true,
        (RedHatBoyStateMachine::Running(_), Event::KnockOut) => true,
        (RedHatBoyStateMachine::Running(_), Event::Land(_)) => true,
        (RedHatBoyStateMachine::Running(_), Event::Slide) => true,
        (RedHatBoyStateMachine::Running(_), Event::Update) => true,
        (RedHatBoyStateMachine::Sliding(_), Event::KnockOut) => true,
        (RedHatBoyStateMachine::Sliding(_), Event::Land(_)) => true,
        (RedHatBoyStateMachine::Sliding(_), Event::Update) => true,
        _ => false,
    }
}

/// Preconditions an event must meet so the transition's arithmetic stays in
/// 16-bit range: a landing surface cannot sit so high that snapping to it
/// underflows, and a jump needs room for the full ascent.
pub open spec fn event_allowed(m: RedHatBoyStateMachine, e: Event) -> bool {
    &&& (e matches Event::Land(p) ==> p >= i16::MIN + 446)
    &&& ((e is Jump && m is Running) ==> spec_context(m).position.y >= i16::MIN + 325)
}

/// Events not in a state's transition row leave the machine exactly as it
/// is: the no-op closure of the table.
pub proof fn lemma_no_op_events(m: RedHatBoyStateMachine, e: Event)
    requires
        !event_in_row(m, e),
    ensures
        spec_transition(m, e) == m,
{
}

/// The terminal state is a fixed point: once knocked out, no event — ticks
/// included — changes the state, its frame, position or velocity.
pub proof fn lemma_knocked_out_terminal(m: RedHatBoyStateMachine, e: Event)
    requires
        m is KnockedOut,
    ensures
        spec_transition(m, e) == m,
        spec_context(spec_transition(m, e)) == spec_context(m),
{
}

/// Issuing `Jump` to a running character launches it: the state becomes
/// Jumping with the fixed upward speed, the animation restarted, and the
/// position and horizontal motion untouched.
pub proof fn lemma_jump_launches(m: RedHatBoyStateMachine)
    requires
        m is Running,
    ensures
        spec_transition(m, Event::Jump) is Jumping,
        spec_context(spec_transition(m, Event::Jump)).velocity.y == JUMPING_SPEED,
        spec_context(spec_transition(m, Event::Jump)).velocity.x == spec_context(m).velocity.x,
        spec_context(spec_transition(m, Event::Jump)).position == spec_context(m).position,
        spec_context(spec_transition(m, Event::Jump)).frame == 0,
{
}

/// The machine after `n` per-tick events.
pub open spec fn spec_ticks(m: RedHatBoyStateMachine, n: nat) -> RedHatBoyStateMachine
    decreases n,
{
    if n == 0 {
        m
    } else {
        spec_ticks(spec_transition(m, Event::Update), (n - 1) as nat)
    }
}

/// A falling character is knocked out for good within one animation's worth
/// of ticks: the knockout path always ends in the terminal state.
pub proof fn lemma_falling_reaches_knocked_out(m: RedHatBoyStateMachine)
    requires
        machine_inv(m),
        m is Falling,
    ensures
        spec_ticks(m, (FALLING_FRAMES + 1) as nat) is KnockedOut,
{
    if spec_context(m).frame < FALLING_FRAMES {
        lemma_falling_counts_down(m, (FALLING_FRAMES + 1) as nat);
    } else {
        // The counter is exactly at the animation's length: it wraps to the
        // first frame and the animation plays once more.
        lemma_transition_preserves_inv(m, Event::Update);
        let m1 = spec_transition(m, Event::Update);
        lemma_falling_counts_down(m1, FALLING_FRAMES as nat);
    }
}

/// A falling character mid-animation is knocked out once the frames left in
/// the animation have played.
proof fn lemma_falling_counts_down(m: RedHatBoyStateMachine, n: nat)
    requires
        machine_inv(m),
        m is Falling,
        spec_context(m).frame < FALLING_FRAMES,
        spec_context(m).frame + n >= FALLING_FRAMES,
    ensures
        spec_ticks(m, n) is KnockedOut,
    decreases n,
{
    lemma_transition_preserves_inv(m, Event::Update);
    let m1 = spec_transition(m, Event::Update);
    if m1 is KnockedOut {
        lemma_ticks_keep_knocked_out(m1, (n - 1) as nat);
    } else {
        lemma_falling_counts_down(m1, (n - 1) as nat);
    }
}

/// Ticks never move a knocked-out character: the terminal state is a fixed
/// point of any number of them.
pub proof fn lemma_ticks_keep_knocked_out(m: RedHatBoyStateMachine, n: nat)
    requires
        m is KnockedOut,
    ensures
        spec_ticks(m, n) == m,
    decreases n,
{
    if n > 0 {
        lemma_ticks_keep_knocked_out(spec_transition(m, Event::Update), (n - 1) as nat);
    }
}

/// Transitions preserve machine well-formedness.
pub proof fn lemma_transition_preserves_inv(m: RedHatBoyStateMachine, e: Event)
    requires
        machine_inv(m),
        event_allowed(m, e),
    ensures
        machine_inv(spec_transition(m, e)),
{
    let c = spec_context(m);
    lemma_rise_potential_nonneg(c.velocity.y as int);
    lemma_rise_potential_bounded(c.velocity.y as int);
    match (m, e) {
        (RedHatBoyStateMachine::Falling(s), Event::Update) => {
            lemma_ctx_update_preserves_inv(s.context, FALLING_FRAMES);
        },
        (RedHatBoyStateMachine::Idle(s), Event::Update) => {
            lemma_ctx_update_preserves_inv(s.context, IDLE_FRAMES);
        },
        (RedHatBoyStateMachine::Jumping(s), Event::Update) => {
            lemma_ctx_update_preserves_inv(s.context, JUMPING_FRAMES);
            let c1 = spec_ctx_update(s.context, JUMPING_FRAMES);
            lemma_rise_potential_nonneg(c1.velocity.y as int);
            lemma_rise_potential_bounded(c1.velocity.y as int);
        },
        (RedHatBoyStateMachine::Running(s), Event::Update) => {
            lemma_ctx_update_preserves_inv(s.context, RUNNING_FRAMES);
        },
        (RedHatBoyStateMachine::Sliding(s), Event::Update) => {
            lemma_ctx_update_preserves_inv(s.context, SLIDING_FRAMES);
        },
        _ => {},
    }
}

/// Outcome of ticking a falling character.
pub enum FallingEndState {
    Complete(RedHatBoyState<KnockedOut>),
    Falling(RedHatBoyState<Falling>),
}

/// Outcome of ticking a jumping character.
pub enum JumpingEndState {
    Complete(RedHatBoyState<Running>),
    Jumping(RedHatBoyState<Jumping>),
}

/// Outcome of ticking a sliding character.
pub enum SlidingEndState {
    Complete(RedHatBoyState<Running>),
    Sliding(RedHatBoyState<Sliding>),
}

/// The machine an end state folds back into.
pub open spec fn falling_end_machine(e: FallingEndState) -> RedHatBoyStateMachine {
    match e {
        FallingEndState::Complete(s) => RedHatBoyStateMachine::KnockedOut(s),
        FallingEndState::Falling(s) => RedHatBoyStateMachine::Falling(s),
    }
}

/// The machine an end state folds back into.
pub open spec fn jumping_end_machine(e: JumpingEndState) -> RedHatBoyStateMachine {
    match e {
        JumpingEndState::Complete(s) => RedHatBoyStateMachine::Running(s),
        JumpingEndState::Jumping(s) => RedHatBoyStateMachine::Jumping(s),
    }
}

/// The machine an end state folds back into.
pub open spec fn sliding_end_machine(e: SlidingEndState) -> RedHatBoyStateMachine {
    match e {
        SlidingEndState::Complete(s) => RedHatBoyStateMachine::Running(s),
        SlidingEndState::Sliding(s) => RedHatBoyStateMachine::Sliding(s),
    }
}

impl RedHatBoyState<Falling> {
    pub fn frame_name(&self) -> (r: &'static str)
        ensures
            r@ == "Dead"@,
    {
        "Dead"
    }

    pub fn update(self) -> (r: FallingEndState)
        requires
            ctx_inv(self.context),
        ensures
            falling_end_machine(r) == spec_falling_update(self),
    {
        let s = RedHatBoyState { context: self.context.update(FALLING_FRAMES), _state: Falling };
        if s.context.frame >= FALLING_FRAMES {
            FallingEndState::Complete(s.knock_out())
        } else {
            FallingEndState::Falling(s)
        }
    }

    pub fn knock_out(self) -> (r: RedHatBoyState<KnockedOut>)
        ensures
            r.context == self.context,
            r._state == KnockedOut,
    {
        RedHatBoyState { context: self.context, _state: KnockedOut }
    }
}

impl RedHatBoyState<Idle> {
    /// A fresh character: first frame of the idle animation, standing on the
    /// floor line at the fixed starting station, motionless.
    pub fn new() -> (r: Self)
        ensures
            r.context == (RedHatBoyContext {
                frame: 0,
                position: Point { x: STARTING_POINT, y: FLOOR },
                velocity: Point { x: 0, y: 0 },
            }),
            ctx_inv(r.context),
            r._state == Idle,
    {
        RedHatBoyState {
            context: RedHatBoyContext {
                frame: 0,
                position: Point { x: STARTING_POINT, y: FLOOR },
                velocity: Point { x: 0, y: 0 },
            },
            _state: Idle,
        }
    }

    pub fn frame_name(&self) -> (r: &'static str)
        ensures
            r@ == "Idle"@,
    {
        "Idle"
    }

    pub fn update(self) -> (r: Self)
        requires
            ctx_inv(self.context),
        ensures
            r.context == spec_ctx_update(self.context, IDLE_FRAMES),
            r._state == Idle,
    {
        RedHatBoyState { context: self.context.update(IDLE_FRAMES), _state: Idle }
    }

    pub fn run(self) -> (r: RedHatBoyState<Running>)
        ensures
            r.context == spec_run_ctx(spec_reset_frame(self.context)),
            r._state == Running,
    {
        RedHatBoyState { context: self.context.reset_frame().run(), _state: Running }
    }
}

impl RedHatBoyState<Jumping> {
    pub fn frame_name(&self) -> (r: &'static str)
        ensures
            r@ == "Jump"@,
    {
        "Jump"
    }

    pub fn update(self) -> (r: JumpingEndState)
        requires
            ctx_inv(self.context),
        ensures
            jumping_end_machine(r) == spec_jumping_update(self),
    {
        let s = RedHatBoyState { context: self.context.update(JUMPING_FRAMES), _state: Jumping };
        if s.context.position.y >= FLOOR {
            JumpingEndState::Complete(s.land_on(crate::HEIGHT))
        } else {
            JumpingEndState::Jumping(s)
        }
    }

    pub fn knock_out(self) -> (r: RedHatBoyState<Falling>)
        ensures
            r.context == spec_stop(spec_reset_frame(self.context)),
            r._state == Falling,
    {
        RedHatBoyState { context: self.context.reset_frame().stop(), _state: Falling }
    }

    pub fn land_on(self, position: i16) -> (r: RedHatBoyState<Running>)
        requires
            i16::MIN + PLAYER_HEIGHT <= position,
        ensures
            r.context == spec_set_on(spec_reset_frame(self.context), position),
            r._state == Running,
    {
        RedHatBoyState { context: self.context.reset_frame().set_on(position), _state: Running }
    }
}

impl RedHatBoyState<KnockedOut> {
    pub fn frame_name(&self) -> (r: &'static str)
        ensures
            r@ == "Dead"@,
    {
        "Dead"
    }
}

impl RedHatBoyState<Running> {
    pub fn frame_name(&self) -> (r: &'static str)
        ensures
            r@ == "Run"@,
    {
        "Run"
    }

    pub fn update(self) -> (r: Self)
        requires
            ctx_inv(self.context),
        ensures
            r.context == spec_ctx_update(self.context, RUNNING_FRAMES),
            r._state == Running,
    {
        RedHatBoyState { context: self.context.update(RUNNING_FRAMES), _state: Running }
    }

    /// Launches a jump. This is the transition on which the host plays the
    /// one-shot jump sound; the simulation itself stays silent.
    pub fn jump(self) -> (r: RedHatBoyState<Jumping>)
        ensures
            r.context == spec_jump_ctx(spec_reset_frame(self.context)),
            r._state == Jumping,
    {
        RedHatBoyState { context: self.context.reset_frame().jump(), _state: Jumping }
    }

    pub fn knock_out(self) -> (r: RedHatBoyState<Falling>)
        ensures
            r.context == spec_stop(spec_reset_frame(self.context)),
            r._state == Falling,
    {
        RedHatBoyState { context: self.context.reset_frame().stop(), _state: Falling }
    }

    pub fn land_on(self, position: i16) -> (r: Self)
        requires
            i16::MIN + PLAYER_HEIGHT <= position,
        ensures
            r.context == spec_set_on(self.context, position),
            r._state == self._state,
    {
        RedHatBoyState { context: self.context.set_on(position), _state: self._state }
    }

    pub fn slide(self) -> (r: RedHatBoyState<Sliding>)
        ensures
            r.context == spec_reset_frame(self.context),
            r._state == Sliding,
    {
        RedHatBoyState { context: self.context.reset_frame(), _state: Sliding }
    }
}

impl RedHatBoyState<Sliding> {
    pub fn frame_name(&self) -> (r: &'static str)
        ensures
            r@ == "Slide"@,
    {
        "Slide"
    }

    pub fn update(self) -> (r: SlidingEndState)
        requires
            ctx_inv(self.context),
        ensures
            sliding_end_machine(r) == spec_sliding_update(self),
    {
        let s = RedHatBoyState { context: self.context.update(SLIDING_FRAMES), _state: Sliding };
        if s.context.frame >= SLIDING_FRAMES {
            SlidingEndState::Complete(s.stand())
        } else {
            SlidingEndState::Sliding(s)
        }
    }

    pub fn knock_out(self) -> (r: RedHatBoyState<Falling>)
        ensures
            r.context == spec_stop(spec_reset_frame(self.context)),
            r._state == Falling,
    {
        RedHatBoyState { context: self.context.reset_frame().stop(), _state: Falling }
    }

    pub fn land_on(self, position: i16) -> (r: Self)
        requires
            i16::MIN + PLAYER_HEIGHT <= position,
        ensures
            r.context == spec_set_on(self.context, position),
            r._state == self._state,
    {
        RedHatBoyState { context: self.context.set_on(position), _state: self._state }
    }

    pub fn stand(self) -> (r: RedHatBoyState<Running>)
        ensures
            r.context == spec_reset_frame(self.context),
            r._state == Running,
    {
        RedHatBoyState { context: self.context.reset_frame(), _state: Running }
    }
}

impl<S> RedHatBoyState<S> {
    pub fn context(&self) -> (r: &RedHatBoyContext)
        ensures
            *r == self.context,
    {
        &self.context
    }
}

impl RedHatBoyStateMachine {
    /// Applies one event. Pairs outside the transition table leave the
    /// machine unchanged — a deliberate permissiveness, not an error.
    pub fn transition(self, event: Event) -> (r: Self)
        requires
            machine_inv(self),
            event_allowed(self, event),
        ensures
            r == spec_transition(self, event),
            machine_inv(r),
    {
        proof {
            lemma_transition_preserves_inv(self, event);
        }
        match (self, event) {
            (RedHatBoyStateMachine::Falling(state), Event::Update) => {
                match state.update() {
                    FallingEndState::Complete(s) => RedHatBoyStateMachine::KnockedOut(s),
                    FallingEndState::Falling(s) => RedHatBoyStateMachine::Falling(s),
                }
            },
            (RedHatBoyStateMachine::Idle(state), Event::Run) => RedHatBoyStateMachine::Running(
                state.run(),
            ),
            (RedHatBoyStateMachine::Idle(state), Event::Update) => RedHatBoyStateMachine::Idle(
                state.update(),
            ),
            (RedHatBoyStateMachine::Jumping(state), Event::KnockOut) => {
                RedHatBoyStateMachine::Falling(state.knock_out())
            },
            (RedHatBoyStateMachine::Jumping(state), Event::Land(position)) => {
                RedHatBoyStateMachine::Running(state.land_on(position))
            },
            (RedHatBoyStateMachine::Jumping(state), Event::Update) => {
                match state.update() {
                    JumpingEndState::Complete(s) => RedHatBoyStateMachine::Running(s),
                    JumpingEndState::Jumping(s) => RedHatBoyStateMachine::Jumping(s),
                }
            },
            (RedHatBoyStateMachine::Running(state), Event::Jump) => {
                RedHatBoyStateMachine::Jumping(state.jump())
            },
            (RedHatBoyStateMachine::Running(state), Event::KnockOut) => {
                RedHatBoyStateMachine::Falling(state.knock_out())
            },
            (RedHatBoyStateMachine::Running(state), Event::Land(position)) => {
                RedHatBoyStateMachine::Running(state.land_on(position))
            },
            (RedHatBoyStateMachine::Running(state), Event::Slide) => {
                RedHatBoyStateMachine::Sliding(state.slide())
            },
            (RedHatBoyStateMachine::Running(state), Event::Update) => {
                RedHatBoyStateMachine::Running(state.update())
            },
            (RedHatBoyStateMachine::Sliding(state), Event::KnockOut) => {
                RedHatBoyStateMachine::Falling(state.knock_out())
            },
            (RedHatBoyStateMachine::Sliding(state), Event::Land(position)) => {
                RedHatBoyStateMachine::Sliding(state.land_on(position))
            },
            (RedHatBoyStateMachine::Sliding(state), Event::Update) => {
                match state.update() {
                    SlidingEndState::Complete(s) => RedHatBoyStateMachine::Running(s),
                    SlidingEndState::Sliding(s) => RedHatBoyStateMachine::Sliding(s),
                }
            },
            _ => self,
        }
    }

    /// Applies the per-tick event.
    pub fn update(self) -> (r: Self)
        requires
            machine_inv(self),
        ensures
            r == spec_transition(self, Event::Update),
            machine_inv(r),
    {
        self.transition(Event::Update)
    }

    pub fn context(&self) -> (r: &RedHatBoyContext)
        ensures
            *r == spec_context(*self),
    {
        match self {
            RedHatBoyStateMachine::Falling(state) => state.context(),
            RedHatBoyStateMachine::Idle(state) => state.context(),
            RedHatBoyStateMachine::Jumping(state) => state.context(),
            RedHatBoyStateMachine::KnockedOut(state) => state.context(),
            RedHatBoyStateMachine::Running(state) => state.context(),
            RedHatBoyStateMachine::Sliding(state) => state.context(),
        }
    }

    pub fn knocked_out(&self) -> (r: bool)
        ensures
            r == (*self is KnockedOut),
    {
        matches!(self, RedHatBoyStateMachine::KnockedOut(_))
    }

    /// Name of the animation the live state plays.
    pub fn frame_name(&self) -> (r: &'static str)
        ensures
            r@ == spec_anim_name(*self),
    {
        match self {
            RedHatBoyStateMachine::Falling(state) => state.frame_name(),
            RedHatBoyStateMachine::Idle(state) => state.frame_name(),
            RedHatBoyStateMachine::Jumping(state) => state.frame_name(),
            RedHatBoyStateMachine::KnockedOut(state) => state.frame_name(),
            RedHatBoyStateMachine::Running(state) => state.frame_name(),
            RedHatBoyStateMachine::Sliding(state) => state.frame_name(),
        }
    }
}

/// Animation name of the live state.
pub open spec fn spec_anim_name(m: RedHatBoyStateMachine) -> Seq<char> {
    match m {
        RedHatBoyStateMachine::Falling(_) => "Dead"@,
        RedHatBoyStateMachine::Idle(_) => "Idle"@,
        RedHatBoyStateMachine::Jumping(_) => "Jump"@,
        RedHatBoyStateMachine::KnockedOut(_) => "Dead"@,
        RedHatBoyStateMachine::Running(_) => "Run"@,
        RedHatBoyStateMachine::Sliding(_) => "Slide"@,
    }
}

/// Decimal text of a visible frame index. Animations are at most twelve
/// visible frames long, so only 1 through 12 occur.
pub open spec fn spec_index_chars(i: int) -> Seq<char> {
    if i == 1 {
        "1"@
    } else if i == 2 {
        "2"@
    } else if i == 3 {
        "3"@
    } else if i == 4 {
        "4"@
    } else if i == 5 {
        "5"@
    } else if i == 6 {
        "6"@
    } else if i == 7 {
        "7"@
    } else if i == 8 {
        "8"@
    } else if i == 9 {
        "9"@
    } else if i == 10 {
        "10"@
    } else if i == 11 {
        "11"@
    } else if i == 12 {
        "12"@
    } else {
        Seq::<char>::empty()
    }
}

/// The visible frame index: each animation frame is held for three ticks,
/// and sheet names count from one.
pub open spec fn spec_frame_index(frame: u8) -> int {
    (frame as int) / 3 + 1
}

/// The sheet name of one visible frame of an animation.
pub open spec fn spec_cell_name(anim: Seq<char>, index: int) -> Seq<char> {
    anim + " ("@ + spec_index_chars(index) + ").png"@
}

/// The sheet name of the cell the character shows right now.
pub open spec fn spec_frame_name(m: RedHatBoyStateMachine) -> Seq<char> {
    spec_cell_name(spec_anim_name(m), spec_frame_index(spec_context(m).frame))
}

fn index_str(i: u8) -> (r: &'static str)
    requires
        1 <= i <= 12,
    ensures
        r@ == spec_index_chars(i as int),
{
    match i {
        1 => "1",
        2 => "2",
        3 => "3",
        4 => "4",
        5 => "5",
        6 => "6",
        7 => "7",
        8 => "8",
        9 => "9",
        10 => "10",
        11 => "11",
        _ => "12",
    }
}

/// A sheet that can dress the character: it knows every visible frame of
/// each of the five animations, and its cells have bounded coordinates.
pub open spec fn boy_sheet_wf(s: SpriteSheet) -> bool {
    &&& sheet_cells_bounded(s)
    &&& forall|i: int| 1 <= i <= 10 ==> spec_has_cell(s, #[trigger] spec_cell_name("Idle"@, i))
    &&& forall|i: int| 1 <= i <= 8 ==> spec_has_cell(s, #[trigger] spec_cell_name("Run"@, i))
    &&& forall|i: int| 1 <= i <= 12 ==> spec_has_cell(s, #[trigger] spec_cell_name("Jump"@, i))
    &&& forall|i: int| 1 <= i <= 5 ==> spec_has_cell(s, #[trigger] spec_cell_name("Slide"@, i))
    &&& forall|i: int| 1 <= i <= 10 ==> spec_has_cell(s, #[trigger] spec_cell_name("Dead"@, i))
}

/// A well-formed machine in front of a well-formed sheet always finds its
/// current cell, and that cell is bounded.
pub proof fn lemma_boy_has_sprite(m: RedHatBoyStateMachine, s: SpriteSheet)
    requires
        machine_inv(m),
        boy_sheet_wf(s),
    ensures
        spec_cell(s, spec_frame_name(m)) is Some,
        cell_bounded(spec_cell(s, spec_frame_name(m)).unwrap()),
{
    let idx = spec_frame_index(spec_context(m).frame);
    match m {
        RedHatBoyStateMachine::Falling(_) => {
            assert(1 <= idx <= 10);
            assert(spec_has_cell(s, spec_cell_name("Dead"@, idx)));
        },
        RedHatBoyStateMachine::Idle(_) => {
            assert(1 <= idx <= 10);
            assert(spec_has_cell(s, spec_cell_name("Idle"@, idx)));
        },
        RedHatBoyStateMachine::Jumping(_) => {
            assert(1 <= idx <= 12);
            assert(spec_has_cell(s, spec_cell_name("Jump"@, idx)));
        },
        RedHatBoyStateMachine::KnockedOut(_) => {
            assert(1 <= idx <= 10);
            assert(spec_has_cell(s, spec_cell_name("Dead"@, idx)));
        },
        RedHatBoyStateMachine::Running(_) => {
            assert(1 <= idx <= 8);
            assert(spec_has_cell(s, spec_cell_name("Run"@, idx)));
        },
        RedHatBoyStateMachine::Sliding(_) => {
            assert(1 <= idx <= 5);
            assert(spec_has_cell(s, spec_cell_name("Slide"@, idx)));
        },
    }
    lemma_has_cell_found(s, spec_frame_name(m));
    lemma_cell_bounded(s, spec_frame_name(m));
}

/// The state a fresh character starts in: idle, on the floor line, at the
/// fixed starting station, motionless, at the first animation frame.
pub open spec fn spec_initial_machine() -> RedHatBoyStateMachine {
    RedHatBoyStateMachine::Idle(
        RedHatBoyState {
            context: RedHatBoyContext {
                frame: 0,
                position: Point { x: STARTING_POINT, y: FLOOR },
                velocity: Point { x: 0, y: 0 },
            },
            _state: Idle,
        },
    )
}

/// The player character: its state machine plus the sheet that dresses it.
pub struct RedHatBoy {
    pub state_machine: RedHatBoyStateMachine,
    pub sprite_sheet: SpriteSheet,
}

/// Character well-formedness: machine invariant plus a sheet that knows
/// every frame the machine can ask for.
pub open spec fn boy_wf(b: RedHatBoy) -> bool {
    &&& machine_inv(b.state_machine)
    &&& boy_sheet_wf(b.sprite_sheet)
}

/// The on-screen box the current sprite cell is drawn into.
pub open spec fn spec_dest_box(b: RedHatBoy) -> Rect {
    spec_destination(
        spec_cell(b.sprite_sheet, spec_frame_name(b.state_machine)).unwrap(),
        spec_context(b.state_machine).position,
    )
}

/// The collision box: the destination box inset by fixed margins to match
/// the visible silhouette rather than the full sprite cell.
pub open spec fn spec_bounding_box(b: RedHatBoy) -> Rect {
    let d = spec_dest_box(b);
    Rect {
        position: Point { x: (d.position.x + 18) as i16, y: (d.position.y + 14) as i16 },
        width: (d.width - 28) as i16,
        height: (d.height - 14) as i16,
    }
}

impl RedHatBoy {
    /// A fresh character in its idle state, in front of the given sheet.
    pub fn new(sprite_sheet: SpriteSheet) -> (r: RedHatBoy)
        requires
            boy_sheet_wf(sprite_sheet),
        ensures
            r.state_machine == spec_initial_machine(),
            r.sprite_sheet == sprite_sheet,
            boy_wf(r),
    {
        RedHatBoy {
            state_machine: RedHatBoyStateMachine::Idle(RedHatBoyState::<Idle>::new()),
            sprite_sheet,
        }
    }

    /// Rebuilds the character from scratch, keeping the sheet: a fresh idle
    /// state with a fresh context, as a restart asks.
    pub fn reset(boy: RedHatBoy) -> (r: RedHatBoy)
        requires
            boy_sheet_wf(boy.sprite_sheet),
        ensures
            r.state_machine == spec_initial_machine(),
            r.sprite_sheet == boy.sprite_sheet,
            boy_wf(r),
    {
        RedHatBoy::new(boy.sprite_sheet)
    }

    /// Applies the per-tick event to the state machine.
    pub fn update(&mut self)
        requires
            boy_wf(*old(self)),
        ensures
            final(self).state_machine == spec_transition(old(self).state_machine, Event::Update),
            final(self).sprite_sheet == old(self).sprite_sheet,
            boy_wf(*final(self)),
    {
        self.state_machine = self.state_machine.update();
    }

    pub fn walking_speed(&self) -> (r: i16)
        ensures
            r == spec_context(self.state_machine).velocity.x,
    {
        self.state_machine.context().velocity.x
    }

    pub fn pos_y(&self) -> (r: i16)
        ensures
            r == spec_context(self.state_machine).position.y,
    {
        self.state_machine.context().position.y
    }

    pub fn velocity_y(&self) -> (r: i16)
        ensures
            r == spec_context(self.state_machine).velocity.y,
    {
        self.state_machine.context().velocity.y
    }

    pub fn knocked_out(&self) -> (r: bool)
        ensures
            r == (self.state_machine is KnockedOut),
    {
        self.state_machine.knocked_out()
    }

    /// Issues `Jump`. Only a running character reacts; the host plays the
    /// jump sound exactly when the state changes to Jumping.
    pub fn jump(&mut self)
        requires
            boy_wf(*old(self)),
            old(self).state_machine is Running ==> spec_context(old(self).state_machine).position.y
                >= i16::MIN + 325,
        ensures
            final(self).state_machine == spec_transition(old(self).state_machine, Event::Jump),
            final(self).sprite_sheet == old(self).sprite_sheet,
            boy_wf(*final(self)),
    {
        self.state_machine = self.state_machine.transition(Event::Jump);
    }

    /// Issues `KnockOut`.
    pub fn knock_out(&mut self)
        requires
            boy_wf(*old(self)),
        ensures
            final(self).state_machine == spec_transition(old(self).state_machine, Event::KnockOut),
            final(self).sprite_sheet == old(self).sprite_sheet,
            boy_wf(*final(self)),
    {
        self.state_machine = self.state_machine.transition(Event::KnockOut);
    }

    /// Issues `Land` with the vertical coordinate of the surface.
    pub fn land_on(&mut self, position: i16)
        requires
            boy_wf(*old(self)),
            position >= i16::MIN + 446,
        ensures
            final(self).state_machine == spec_transition(
                old(self).state_machine,
                Event::Land(position),
            ),
            final(self).sprite_sheet == old(self).sprite_sheet,
            boy_wf(*final(self)),
    {
        self.state_machine = self.state_machine.transition(Event::Land(position));
    }

    /// Issues `Run`.
    pub fn run(&mut self)
        requires
            boy_wf(*old(self)),
        ensures
            final(self).state_machine == spec_transition(old(self).state_machine, Event::Run),
            final(self).sprite_sheet == old(self).sprite_sheet,
            boy_wf(*final(self)),
    {
        self.state_machine = self.state_machine.transition(Event::Run);
    }

    /// Issues `Slide`.
    pub fn slide(&mut self)
        requires
            boy_wf(*old(self)),
        ensures
            final(self).state_machine == spec_transition(old(self).state_machine, Event::Slide),
            final(self).sprite_sheet == old(self).sprite_sheet,
            boy_wf(*final(self)),
    {
        self.state_machine = self.state_machine.transition(Event::Slide);
    }

    /// The sheet name of the cell the character shows right now, e.g. the
    /// running animation's fourth visible frame.
    pub fn frame_name(&self) -> (r: String)
        requires
            machine_inv(self.state_machine),
        ensures
            r@ == spec_frame_name(self.state_machine),
    {
        let base = self.state_machine.frame_name();
        let frame = self.state_machine.context().frame;
        let idx = frame / 3 + 1;
        let mut s: String = base.to_owned();
        s.append(" (");
        s.append(index_str(idx));
        s.append(").png");
        s
    }

    /// The current sprite cell; a well-formed character always has one.
    pub fn sprite(&self) -> (r: Option<&Cell>)
        requires
            boy_wf(*self),
        ensures
            r matches Some(c) && Some(*c) == spec_cell(
                self.sprite_sheet,
                spec_frame_name(self.state_machine),
            ),
    {
        proof {
            lemma_boy_has_sprite(self.state_machine, self.sprite_sheet);
        }
        let name = self.frame_name();
        self.sprite_sheet.cell(name.as_str())
    }

    /// The on-screen box of the current cell; see [`spec_dest_box`].
    pub fn destination_box(&self) -> (r: Rect)
        requires
            boy_wf(*self),
            spec_context(self.state_machine).position.y <= 28000,
        ensures
            r == spec_dest_box(*self),
    {
        proof {
            lemma_boy_has_sprite(self.state_machine, self.sprite_sheet);
        }
        let position = self.state_machine.context().position;
        if let Some(sprite) = self.sprite() {
            sprite.destination(&position)
        } else {
            proof {
                assert(false);
            }
            Rect::new_from_x_y(0, 0, 0, 0)
        }
    }

    /// The collision box; see [`spec_bounding_box`].
    pub fn bounding_box(&self) -> (r: Rect)
        requires
            boy_wf(*self),
            spec_context(self.state_machine).position.y <= 28000,
        ensures
            r == spec_bounding_box(*self),
    {
        proof {
            lemma_boy_has_sprite(self.state_machine, self.sprite_sheet);
        }
        let dest = self.destination_box();
        Rect::new_from_x_y(
            dest.x() + 18,
            dest.y() + 14,
            dest.width - 28,
            dest.height - 14,
        )
    }
}

} // verus!
