use walk_the_dog::game_flow::{
    GameOver, WalkTheDog, WalkTheDogState, WalkTheDogStateMachine,
};
use walk_the_dog::key_state::KeyState;
use walk_the_dog::point::Point;
use walk_the_dog::sprite_sheet::{Cell, SheetRect, SpriteSheet};
use walk_the_dog::walk::Walk;
use walk_the_dog::Image;

fn square_cell() -> Cell {
    Cell::new(
        SheetRect { x: 0, y: 0, w: 160, h: 136 },
        SheetRect { x: 0, y: 0, w: 160, h: 136 },
    )
}

fn full_sheet() -> SpriteSheet {
    let cell = square_cell();
    let mut frames: Vec<(String, Cell)> = Vec::new();
    for (name, count) in [("Idle", 10), ("Run", 8), ("Jump", 12), ("Slide", 5), ("Dead", 10)] {
        for i in 1..=count {
            frames.push((format!("{} ({}).png", name, i), cell));
        }
    }
    SpriteSheet::new(frames)
}

fn tiles_sheet() -> SpriteSheet {
    let cell = Cell::new(
        SheetRect { x: 0, y: 0, w: 128, h: 93 },
        SheetRect { x: 0, y: 0, w: 128, h: 93 },
    );
    let mut frames: Vec<(String, Cell)> = Vec::new();
    for name in ["13.png", "14.png", "15.png"] {
        frames.push((name.to_string(), cell));
    }
    SpriteSheet::new(frames)
}

fn fresh_walk() -> Walk {
    Walk::new(
        Image::new(Point { x: 0, y: 0 }, 600, 600),
        Image::new(Point { x: 600, y: 0 }, 600, 600),
        full_sheet(),
        tiles_sheet(),
        100,
        50,
    )
}

fn no_keys() -> KeyState {
    KeyState::new()
}

#[test]
fn fresh_walk_has_starting_segment() {
    let walk = fresh_walk();
    assert_eq!(walk.obstacles.len(), 2);
    assert_eq!(walk.timeline, 754);
    assert!(!walk.knocked_out());
    assert_eq!(walk.boy.pos_y(), 479);
    assert_eq!(walk.boy.walking_speed(), 0);
}

#[test]
fn forward_command_starts_walking_at_running_speed() {
    let machine = WalkTheDogStateMachine::new(fresh_walk());
    let keys = KeyState { arrow_right: true, space: false, arrow_down: false };
    let machine = machine.update(&keys, false);
    match machine {
        WalkTheDogStateMachine::Walking(state) => {
            assert_eq!(state.walk.boy.walking_speed(), 3);
        },
        _ => panic!("holding the forward command should start the run"),
    }
}

#[test]
fn ready_without_input_stays_ready() {
    let machine = WalkTheDogStateMachine::new(fresh_walk());
    let machine = machine.update(&no_keys(), false);
    match machine {
        WalkTheDogStateMachine::Ready(state) => {
            assert_eq!(state.walk.boy.walking_speed(), 0);
        },
        _ => panic!("without input the ready screen should stay"),
    }
}

#[test]
fn walking_tick_scrolls_world_and_extends_course() {
    let machine = WalkTheDogStateMachine::new(fresh_walk());
    let keys = KeyState { arrow_right: true, space: false, arrow_down: false };
    let machine = machine.update(&keys, false);
    let machine = machine.update(&no_keys(), false);
    match machine {
        WalkTheDogStateMachine::Walking(state) => {
            // Both tiles scrolled left by the running speed.
            assert_eq!(state.walk.first_background.bounding_box.x(), -3);
            assert_eq!(state.walk.second_background.bounding_box.x(), 597);
            // The cursor was below its minimum lookahead, so the course grew
            // by one two-obstacle segment and the cursor jumped ahead.
            assert_eq!(state.walk.obstacles.len(), 4);
            assert!(state.walk.timeline > 754);
        },
        _ => panic!("an uneventful tick should keep walking"),
    }
}

#[test]
fn restart_rebuilds_the_world() {
    let mut walk = fresh_walk();
    // Pretend a long run happened: scroll the cursor somewhere else.
    walk.timeline = 2500;
    let machine = WalkTheDogStateMachine::GameOver(WalkTheDogState {
        walk,
        _state: GameOver,
    });

    let stays = machine.update(&no_keys(), false);
    let machine = match stays {
        WalkTheDogStateMachine::GameOver(_) => stays,
        _ => panic!("without the restart signal the game-over screen stays"),
    };

    let machine = machine.update(&no_keys(), true);
    match machine {
        WalkTheDogStateMachine::Ready(state) => {
            assert_eq!(state.walk.obstacles.len(), 2);
            assert_eq!(state.walk.timeline, 754);
            assert_eq!(state.walk.boy.pos_y(), 479);
            assert_eq!(state.walk.boy.walking_speed(), 0);
            assert_eq!(state.walk.boy.frame_name(), "Idle (1).png");
        },
        _ => panic!("the restart signal should return to the ready screen"),
    }
}

#[test]
fn generation_keeps_cursor_ahead() {
    let mut walk = fresh_walk();
    walk.timeline = 500;
    let before = walk.obstacles.len();
    walk.generate_next_segment();
    assert_eq!(walk.obstacles.len(), before + 2);
    assert!(walk.timeline > 500);
}

#[test]
fn background_tiles_wrap_seamlessly() {
    let mut walk = fresh_walk();
    // A bare course: no obstacles in the way, the cursor far enough ahead
    // that no generation interferes with watching the tiles.
    walk.boy.run();
    walk.obstacles.clear();
    walk.timeline = 2000;
    for _ in 0..210 {
        walk.advance(&no_keys());
    }
    // After 201 ticks of scrolling at speed 3 the first tile's right edge
    // passed the screen edge and it was repositioned after its partner.
    assert_eq!(walk.first_background.bounding_box.x(), 570);
    assert_eq!(walk.second_background.bounding_box.x(), -30);
    assert_eq!(walk.timeline, 2000 - 630);
}

#[test]
fn slide_stands_back_up_when_its_animation_ends() {
    let mut boy = {
        let mut b = walk_the_dog::redhatboy::RedHatBoy::new(full_sheet());
        b.run();
        b
    };
    boy.slide();
    assert_eq!(boy.frame_name(), "Slide (1).png");
    for _ in 0..14 {
        boy.update();
    }
    assert_eq!(boy.frame_name(), "Run (1).png");
    assert_eq!(boy.walking_speed(), 3);
}

#[test]
fn double_initialization_is_rejected() {
    let mut game = WalkTheDog::new();
    assert!(game.machine.is_none());
    assert!(game.initialize(fresh_walk()));
    assert!(!game.initialize(fresh_walk()));
    game.update(&no_keys(), false);
    assert!(game.machine.is_some());
}
