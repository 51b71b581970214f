use walk_the_dog::barrier::Barrier;
use walk_the_dog::obstacle::{rightmost, Obstacle};
use walk_the_dog::platform::Platform;
use walk_the_dog::point::Point;
use walk_the_dog::redhatboy::{
    RedHatBoy, RedHatBoyContext, RedHatBoyState, RedHatBoyStateMachine, Running,
};
use walk_the_dog::segment::{platform_and_stone, stone_and_platform};
use walk_the_dog::sprite_sheet::{Cell, SheetRect, SpriteSheet};
use walk_the_dog::{Image, Rect};

fn square_cell() -> Cell {
    Cell::new(
        SheetRect { x: 0, y: 0, w: 160, h: 136 },
        SheetRect { x: 0, y: 0, w: 160, h: 136 },
    )
}

fn full_sheet() -> SpriteSheet {
    let cell = square_cell();
    let mut frames: Vec<(String, Cell)> = Vec::new();
    for (name, count) in [("Idle", 10), ("Run", 8), ("Jump", 12), ("Slide", 5), ("Dead", 10)] {
        for i in 1..=count {
            frames.push((format!("{} ({}).png", name, i), cell));
        }
    }
    SpriteSheet::new(frames)
}

fn tiles_sheet() -> SpriteSheet {
    let cell = Cell::new(
        SheetRect { x: 0, y: 0, w: 128, h: 93 },
        SheetRect { x: 0, y: 0, w: 128, h: 93 },
    );
    let mut frames: Vec<(String, Cell)> = Vec::new();
    for name in ["13.png", "14.png", "15.png"] {
        frames.push((name.to_string(), cell));
    }
    SpriteSheet::new(frames)
}

fn running_boy(y: i16, vy: i16) -> RedHatBoy {
    RedHatBoy {
        state_machine: RedHatBoyStateMachine::Running(RedHatBoyState {
            context: RedHatBoyContext {
                frame: 0,
                position: Point { x: -20, y },
                velocity: Point { x: 3, y: vy },
            },
            _state: Running,
        }),
        sprite_sheet: full_sheet(),
    }
}

#[test]
fn cell_frame_and_destination() {
    let cell = Cell::new(
        SheetRect { x: 3, y: 5, w: 10, h: 20 },
        SheetRect { x: 1, y: 2, w: 10, h: 20 },
    );
    assert_eq!(cell.frame(), Rect::new_from_x_y(3, 5, 10, 20));
    assert_eq!(
        cell.destination(&Point { x: 100, y: 200 }),
        Rect::new_from_x_y(101, 202, 10, 20),
    );
}

#[test]
fn sheet_lookup_finds_known_names_only() {
    let sheet = full_sheet();
    assert!(sheet.cell("Run (3).png").is_some());
    assert_eq!(sheet.cell("Run (3).png").unwrap().frame(), square_cell().frame());
    assert!(sheet.cell("Run (9).png").is_none());
    assert!(sheet.cell("").is_none());
}

#[test]
fn descending_runner_lands_on_platform() {
    // The character's box is (-2, 314)..(130, 436); the platform's box
    // starts at height 400 and its anchor sits below the character.
    let mut boy = running_boy(300, 5);
    let platform = Platform::new(
        &vec![Rect::new_from_x_y(0, 0, 100, 50)],
        Point { x: 0, y: 400 },
        &tiles_sheet(),
        &vec!["13.png"],
    );
    platform.check_intersection(&mut boy);
    assert!(!boy.knocked_out());
    assert_eq!(boy.frame_name(), "Run (1).png");
    assert_eq!(boy.pos_y(), 400 - 121);
    assert_eq!(boy.walking_speed(), 3);
}

#[test]
fn ascending_runner_is_knocked_out_by_platform() {
    // Same overlap, but the character is moving upward: lethal.
    let mut boy = running_boy(300, -5);
    let platform = Platform::new(
        &vec![Rect::new_from_x_y(0, 0, 100, 50)],
        Point { x: 0, y: 400 },
        &tiles_sheet(),
        &vec!["13.png"],
    );
    platform.check_intersection(&mut boy);
    assert_eq!(boy.frame_name(), "Dead (1).png");
    assert_eq!(boy.walking_speed(), 0);
    assert_eq!(boy.velocity_y(), 0);
}

#[test]
fn barrier_knocks_out_descending_runner() {
    // A barrier overlapping the character's box: lethal whatever the
    // velocity's sign.
    let barrier = Barrier::new(Image::new(Point { x: 0, y: 400 }, 100, 50));
    let mut descending = running_boy(300, 5);
    barrier.check_intersection(&mut descending);
    assert_eq!(descending.frame_name(), "Dead (1).png");
    assert_eq!(descending.velocity_y(), 0);

    let mut ascending = running_boy(300, -5);
    barrier.check_intersection(&mut ascending);
    assert_eq!(ascending.frame_name(), "Dead (1).png");
}

#[test]
fn barrier_misses_distant_runner() {
    let barrier = Barrier::new(Image::new(Point { x: 10000, y: 400 }, 100, 50));
    let mut boy = running_boy(300, 5);
    barrier.check_intersection(&mut boy);
    assert_eq!(boy.frame_name(), "Run (1).png");
}

#[test]
fn obstacles_scroll_left_together() {
    let mut barrier = Obstacle::Barrier(Barrier::new(Image::new(Point { x: 10, y: 546 }, 90, 54)));
    assert_eq!(barrier.right(), 100);
    barrier.move_horizontally(-3);
    assert_eq!(barrier.right(), 97);

    let mut platform = Obstacle::Platform(Platform::new(
        &vec![Rect::new_from_x_y(0, 0, 60, 54), Rect::new_from_x_y(60, 0, 60, 54)],
        Point { x: 100, y: 420 },
        &tiles_sheet(),
        &vec!["13.png", "14.png"],
    ));
    assert_eq!(platform.right(), 220);
    platform.move_horizontally(-3);
    assert_eq!(platform.right(), 217);
}

#[test]
fn rightmost_of_no_obstacles_is_zero() {
    let obstacles: Vec<Obstacle> = Vec::new();
    assert_eq!(rightmost(&obstacles), 0);
}

#[test]
fn segments_always_extend_past_their_offset() {
    let sheet = tiles_sheet();
    for offset in [0, 1, 20, 774, 1020, 27000] {
        let batch = stone_and_platform(100, 50, &sheet, offset);
        assert_eq!(batch.len(), 2);
        assert!(rightmost(&batch) > offset);

        let batch = platform_and_stone(100, 50, &sheet, offset);
        assert_eq!(batch.len(), 2);
        assert!(rightmost(&batch) > offset);
    }
}

#[test]
fn stone_and_platform_layout() {
    let sheet = tiles_sheet();
    let batch = stone_and_platform(100, 50, &sheet, 0);
    match &batch[0] {
        Obstacle::Barrier(b) => {
            assert_eq!(*b.image.bounding_box(), Rect::new_from_x_y(150, 546, 100, 50));
        },
        _ => panic!("expected the stone first"),
    }
    match &batch[1] {
        Obstacle::Platform(p) => {
            assert_eq!(p.position, Point { x: 370, y: 420 });
            assert_eq!(p.bounding_boxes.len(), 3);
            assert_eq!(p.bounding_boxes[0], Rect::new_from_x_y(370, 420, 60, 54));
            assert_eq!(p.bounding_boxes[1], Rect::new_from_x_y(430, 420, 264, 93));
            assert_eq!(p.bounding_boxes[2], Rect::new_from_x_y(694, 420, 60, 54));
            assert_eq!(p.sprites.len(), 3);
        },
        _ => panic!("expected the platform second"),
    }
    assert_eq!(rightmost(&batch), 754);
}
