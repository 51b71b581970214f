use walk_the_dog::point::Point;
use walk_the_dog::redhatboy::{
    Event, KnockedOut, RedHatBoy, RedHatBoyContext, RedHatBoyState, RedHatBoyStateMachine, Running,
};
use walk_the_dog::sprite_sheet::{Cell, SheetRect, SpriteSheet};
use walk_the_dog::Rect;

fn square_cell() -> Cell {
    Cell::new(
        SheetRect { x: 0, y: 0, w: 160, h: 136 },
        SheetRect { x: 0, y: 0, w: 160, h: 136 },
    )
}

fn full_sheet() -> SpriteSheet {
    let cell = square_cell();
    let mut frames: Vec<(String, Cell)> = Vec::new();
    for (name, count) in [("Idle", 10), ("Run", 8), ("Jump", 12), ("Slide", 5), ("Dead", 10)] {
        for i in 1..=count {
            frames.push((format!("{} ({}).png", name, i), cell));
        }
    }
    SpriteSheet::new(frames)
}

fn running_boy(y: i16, vy: i16) -> RedHatBoy {
    RedHatBoy {
        state_machine: RedHatBoyStateMachine::Running(RedHatBoyState {
            context: RedHatBoyContext {
                frame: 0,
                position: Point { x: -20, y },
                velocity: Point { x: 3, y: vy },
            },
            _state: Running,
        }),
        sprite_sheet: full_sheet(),
    }
}

#[test]
fn new_boy_is_idle_at_starting_point() {
    let boy = RedHatBoy::new(full_sheet());
    assert_eq!(boy.pos_y(), 479);
    assert_eq!(boy.velocity_y(), 0);
    assert_eq!(boy.walking_speed(), 0);
    assert!(!boy.knocked_out());
    assert_eq!(boy.frame_name(), "Idle (1).png");
}

#[test]
fn frame_name_advances_every_three_ticks() {
    let mut boy = RedHatBoy::new(full_sheet());
    boy.update();
    boy.update();
    assert_eq!(boy.frame_name(), "Idle (1).png");
    boy.update();
    assert_eq!(boy.frame_name(), "Idle (2).png");
}

#[test]
fn bounding_box_is_inset_from_destination() {
    let boy = RedHatBoy::new(full_sheet());
    assert_eq!(boy.destination_box(), Rect::new_from_x_y(-20, 479, 160, 136));
    assert_eq!(boy.bounding_box(), Rect::new_from_x_y(-2, 493, 132, 122));
}

#[test]
fn events_outside_the_row_are_no_ops() {
    let idle = RedHatBoy::new(full_sheet()).state_machine;
    for event in [Event::Jump, Event::Slide, Event::KnockOut, Event::Land(300)] {
        let after = idle.transition(event);
        assert_eq!(after.frame_name(), "Idle");
        assert_eq!(*after.context(), *idle.context());
    }

    let running = running_boy(400, 0).state_machine;
    let after = running.transition(Event::Run);
    assert_eq!(after.frame_name(), "Run");
    assert_eq!(*after.context(), *running.context());
}

#[test]
fn knocked_out_is_a_fixed_point() {
    let context = RedHatBoyContext {
        frame: 29,
        position: Point { x: -20, y: 479 },
        velocity: Point { x: 0, y: 0 },
    };
    let mut machine = RedHatBoyStateMachine::KnockedOut(RedHatBoyState {
        context,
        _state: KnockedOut,
    });
    for _ in 0..10 {
        machine = machine.update();
        assert!(machine.knocked_out());
        assert_eq!(*machine.context(), context);
    }
}

#[test]
fn jump_from_the_floor_returns_to_the_floor() {
    let mut boy = RedHatBoy::new(full_sheet());
    boy.run();
    assert_eq!(boy.walking_speed(), 3);
    assert_eq!(boy.pos_y(), 479);
    assert_eq!(boy.velocity_y(), 0);

    boy.jump();
    assert_eq!(boy.velocity_y(), -25);

    let mut ticks = 0;
    while boy.pos_y() < 479 || boy.velocity_y() != 0 {
        boy.update();
        ticks += 1;
        assert!(ticks < 200, "the jump never came back down");
    }
    assert_eq!(boy.pos_y(), 479);
    assert_eq!(boy.velocity_y(), 0);
    assert_eq!(boy.frame_name(), "Run (1).png");
    assert!(!boy.knocked_out());
}

#[test]
fn knock_out_ends_in_the_terminal_state() {
    let mut boy = running_boy(479, 0);
    boy.knock_out();
    assert!(!boy.knocked_out());
    assert_eq!(boy.frame_name(), "Dead (1).png");
    assert_eq!(boy.walking_speed(), 0);
    assert_eq!(boy.velocity_y(), 0);
    for _ in 0..30 {
        boy.update();
    }
    assert!(boy.knocked_out());
}
