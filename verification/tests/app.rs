use walk_the_dog::game_flow::WalkTheDog;

#[test]
fn run_test() {
    assert_eq!(1, 1);
}

#[test]
fn new_game_starts_uninitialized() {
    let game = WalkTheDog::new();
    assert!(game.machine.is_none());
}
