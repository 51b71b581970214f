//! The game-flow state machine: Ready, Walking, GameOver.
//!
//! Each flow state owns the whole world by move; a transition consumes the
//! old state and produces the next. While Ready only the idle animation
//! ticks; while Walking the world runs; while GameOver nothing advances
//! until the host observes the restart signal and hands it in. The host
//! shows its restart control when Walking turns into GameOver and hides it
//! again on the transition back to Ready.

use vstd::prelude::*;

use crate::key_state::KeyState;
use crate::redhatboy::{
    spec_context, spec_initial_machine, spec_transition, Event, RedHatBoy, RedHatBoyStateMachine,
    RUNNING_SPEED,
};
use crate::walk::{
    lemma_pos_inv_preserved, reset_rel, walk_advance_rel, walk_inv, Walk,
};

verus! {

/// Flow state tags.
#[derive(Clone, Copy, PartialEq, Eq, Structural, Debug)]
pub struct Ready;

#[derive(Clone, Copy, PartialEq, Eq, Structural, Debug)]
pub struct Walking;

#[derive(Clone, Copy, PartialEq, Eq, Structural, Debug)]
pub struct GameOver;

/// A flow state: the world plus the tag of the active state.
pub struct WalkTheDogState<T> {
    pub walk: Walk,
    pub _state: T,
}

/// The whole game flow: exactly one flow state is live at a time.
pub enum WalkTheDogStateMachine {
    Ready(WalkTheDogState<Ready>),
    Walking(WalkTheDogState<Walking>),
    GameOver(WalkTheDogState<GameOver>),
}

/// The world of whichever flow state is live.
pub open spec fn spec_flow_walk(m: WalkTheDogStateMachine) -> Walk {
    match m {
        WalkTheDogStateMachine::Ready(s) => s.walk,
        WalkTheDogStateMachine::Walking(s) => s.walk,
        WalkTheDogStateMachine::GameOver(s) => s.walk,
    }
}

/// Flow well-formedness: the world is well formed, and the ready screen
/// always shows an idle character.
pub open spec fn flow_inv(m: WalkTheDogStateMachine) -> bool {
    &&& walk_inv(spec_flow_walk(m))
    &&& m matches WalkTheDogStateMachine::Ready(s) ==> s.walk.boy.state_machine is Idle
}

/// What a ready-screen tick does: the idle animation advances; if the
/// forward command is held, the character is told to run and the game
/// starts walking.
pub open spec fn spec_ready_update(w: Walk, ks: KeyState) -> WalkTheDogStateMachine {
    let m2 = spec_transition(w.boy.state_machine, Event::Update);
    if ks.arrow_right {
        let m3 = spec_transition(m2, Event::Run);
        WalkTheDogStateMachine::Walking(
            WalkTheDogState {
                walk: Walk {
                    boy: RedHatBoy { state_machine: m3, sprite_sheet: w.boy.sprite_sheet },
                    ..w
                },
                _state: Walking,
            },
        )
    } else {
        WalkTheDogStateMachine::Ready(
            WalkTheDogState {
                walk: Walk {
                    boy: RedHatBoy { state_machine: m2, sprite_sheet: w.boy.sprite_sheet },
                    ..w
                },
                _state: Ready,
            },
        )
    }
}

/// How one tick of the whole game relates the new flow state to the old
/// one, given the input snapshot and whether the restart signal was
/// observed since the last poll.
pub open spec fn flow_update_rel(
    m0: WalkTheDogStateMachine,
    ks: KeyState,
    new_game_pressed: bool,
    m1: WalkTheDogStateMachine,
) -> bool {
    match m0 {
        WalkTheDogStateMachine::Ready(s) => m1 == spec_ready_update(s.walk, ks),
        WalkTheDogStateMachine::Walking(s) => {
            &&& walk_advance_rel(s.walk, ks, spec_flow_walk(m1))
            &&& (m1 is GameOver <==> spec_flow_walk(m1).boy.state_machine is KnockedOut)
            &&& (m1 is GameOver || m1 is Walking)
        },
        WalkTheDogStateMachine::GameOver(s) => {
            if new_game_pressed {
                m1 matches WalkTheDogStateMachine::Ready(s1) && reset_rel(s.walk, s1.walk)
            } else {
                m1 == m0
            }
        },
    }
}

impl WalkTheDogState<Ready> {
    pub fn new(walk: Walk) -> (r: WalkTheDogState<Ready>)
        ensures
            r.walk == walk,
            r._state == Ready,
    {
        WalkTheDogState { walk, _state: Ready }
    }

    /// Ticks the idle animation and starts the run when the forward command
    /// is held.
    pub fn update(self, keystate: &KeyState) -> (r: WalkTheDogStateMachine)
        requires
            walk_inv(self.walk),
            self.walk.boy.state_machine is Idle,
        ensures
            r == spec_ready_update(self.walk, *keystate),
            flow_inv(r),
    {
        let mut this = self;
        proof {
            lemma_pos_inv_preserved(this.walk.boy.state_machine, Event::Update);
        }
        this.walk.boy.update();
        if keystate.arrow_right {
            proof {
                lemma_pos_inv_preserved(this.walk.boy.state_machine, Event::Run);
            }
            this.walk.boy.run();
            WalkTheDogStateMachine::Walking(WalkTheDogState { walk: this.walk, _state: Walking })
        } else {
            WalkTheDogStateMachine::Ready(WalkTheDogState { walk: this.walk, _state: Ready })
        }
    }
}

impl WalkTheDogState<Walking> {
    /// Runs one world tick; a knocked-out character ends the game. The host
    /// shows its restart control when this yields the game-over state.
    pub fn update(self, keystate: &KeyState) -> (r: WalkTheDogStateMachine)
        requires
            walk_inv(self.walk),
        ensures
            walk_advance_rel(self.walk, *keystate, spec_flow_walk(r)),
            r is GameOver <==> spec_flow_walk(r).boy.state_machine is KnockedOut,
            r is GameOver || r is Walking,
            flow_inv(r),
    {
        let mut this = self;
        this.walk.advance(keystate);
        if this.walk.knocked_out() {
            WalkTheDogStateMachine::GameOver(WalkTheDogState { walk: this.walk, _state: GameOver })
        } else {
            WalkTheDogStateMachine::Walking(WalkTheDogState { walk: this.walk, _state: Walking })
        }
    }
}

impl WalkTheDogState<GameOver> {
    /// Stays put until the restart signal has been observed; then rebuilds
    /// the world and returns to the ready screen. The host hides its restart
    /// control on that transition.
    pub fn update(self, new_game_pressed: bool) -> (r: WalkTheDogStateMachine)
        requires
            walk_inv(self.walk),
        ensures
            flow_update_rel(
                WalkTheDogStateMachine::GameOver(self),
                KeyState { arrow_right: false, space: false, arrow_down: false },
                new_game_pressed,
                r,
            ),
            flow_inv(r),
    {
        if new_game_pressed {
            WalkTheDogStateMachine::Ready(
                WalkTheDogState { walk: Walk::reset(self.walk), _state: Ready },
            )
        } else {
            WalkTheDogStateMachine::GameOver(self)
        }
    }
}

impl WalkTheDogStateMachine {
    /// A new game starts on the ready screen.
    pub fn new(walk: Walk) -> (r: WalkTheDogStateMachine)
        requires
            walk_inv(walk),
            walk.boy.state_machine is Idle,
        ensures
            r == WalkTheDogStateMachine::Ready(WalkTheDogState { walk, _state: Ready }),
            flow_inv(r),
    {
        WalkTheDogStateMachine::Ready(WalkTheDogState::<Ready>::new(walk))
    }

    /// One tick of the whole game; see [`flow_update_rel`].
    pub fn update(self, keystate: &KeyState, new_game_pressed: bool) -> (r: Self)
        requires
            flow_inv(self),
        ensures
            flow_update_rel(self, *keystate, new_game_pressed, r),
            flow_inv(r),
    {
        match self {
            WalkTheDogStateMachine::Ready(state) => state.update(keystate),
            WalkTheDogStateMachine::Walking(state) => state.update(keystate),
            WalkTheDogStateMachine::GameOver(state) => state.update(new_game_pressed),
        }
    }

    pub fn knocked_out(&self) -> (r: bool)
        ensures
            r == (spec_flow_walk(*self).boy.state_machine is KnockedOut),
    {
        match self {
            WalkTheDogStateMachine::Ready(state) => state.walk.knocked_out(),
            WalkTheDogStateMachine::Walking(state) => state.walk.knocked_out(),
            WalkTheDogStateMachine::GameOver(state) => state.walk.knocked_out(),
        }
    }
}

/// The game as the host drives it: nothing before initialization, then the
/// flow machine.
pub struct WalkTheDog {
    pub machine: Option<WalkTheDogStateMachine>,
}

impl WalkTheDog {
    pub fn new() -> (r: WalkTheDog)
        ensures
            r.machine is None,
    {
        WalkTheDog { machine: None }
    }

    /// Installs the machine for a freshly built world. Initializing an
    /// already-running game is rejected, and nothing changes.
    pub fn initialize(&mut self, walk: Walk) -> (r: bool)
        requires
            walk_inv(walk),
            walk.boy.state_machine is Idle,
            old(self).machine matches Some(m) ==> flow_inv(m),
        ensures
            old(self).machine is None ==> r && final(self).machine == Some(
                WalkTheDogStateMachine::Ready(WalkTheDogState { walk, _state: Ready }),
            ),
            old(self).machine is Some ==> !r && *final(self) == *old(self),
            final(self).machine matches Some(m) ==> flow_inv(m),
    {
        match &self.machine {
            Option::None => {
                self.machine = Some(WalkTheDogStateMachine::new(walk));
                true
            },
            Option::Some(_) => false,
        }
    }

    /// One tick: hand the machine the input snapshot and the restart signal.
    pub fn update(&mut self, keystate: &KeyState, new_game_pressed: bool)
        requires
            old(self).machine matches Some(m) ==> flow_inv(m),
        ensures
            old(self).machine is None ==> final(self).machine is None,
            old(self).machine matches Some(m) ==> (final(self).machine matches Some(m1)
                && flow_update_rel(m, *keystate, new_game_pressed, m1) && flow_inv(m1)),
    {
        let machine = self.machine.take();
        match machine {
            Option::Some(m) => {
                self.machine = Some(m.update(keystate, new_game_pressed));
            },
            Option::None => {},
        }
    }
}

/// Starting in the ready screen and holding the forward command once moves
/// the game into its walking state and sets the character running at the
/// fixed running speed.
pub proof fn lemma_ready_starts_running(w: Walk, ks: KeyState)
    requires
        walk_inv(w),
        w.boy.state_machine is Idle,
        ks.arrow_right,
    ensures
        spec_ready_update(w, ks) is Walking,
        spec_flow_walk(spec_ready_update(w, ks)).boy.state_machine is Running,
        spec_context(spec_flow_walk(spec_ready_update(w, ks)).boy.state_machine).velocity.x
            == RUNNING_SPEED,
{
}

/// Observing the restart signal in the game-over screen returns the game to
/// the ready screen with a freshly generated segment at the origin and the
/// character reset to idle at its starting point.
pub proof fn lemma_restart_resets(
    m0: WalkTheDogStateMachine,
    ks: KeyState,
    m1: WalkTheDogStateMachine,
)
    requires
        m0 is GameOver,
        flow_update_rel(m0, ks, true, m1),
    ensures
        m1 is Ready,
        spec_flow_walk(m1).boy.state_machine == spec_initial_machine(),
        crate::segment::is_stone_and_platform(
            spec_flow_walk(m0).stone_width,
            spec_flow_walk(m0).stone_height,
            spec_flow_walk(m0).obstacle_sheet,
            0,
            spec_flow_walk(m1).obstacles@,
        ),
{
}

} // verus!
