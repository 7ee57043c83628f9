use platformer::entities::{Entity, PhysicsBody, Player, Vec2};

#[test]
fn new_player_has_the_numbers_of_the_game() {
    let player = Player::new(100_000, 500_000);
    assert_eq!(player.body, PhysicsBody::new(100_000, 500_000, 32_000, 32_000));
    assert_eq!(player.move_speed, 200_000);
    assert_eq!(player.jump_force, -400_000);
    assert_eq!(player.max_jump_count, 2);
    assert_eq!(player.current_jump_count, 0);
    assert!(player.is_well_formed());
}

#[test]
fn running_sets_the_horizontal_velocity() {
    let mut player = Player::new(0, 0);
    player.set_velocity(Vec2::new(5_000, 70_000));
    player.move_left();
    assert_eq!(player.velocity(), Vec2::new(-200_000, 70_000));
    player.move_right();
    assert_eq!(player.velocity(), Vec2::new(200_000, 70_000));
    player.move_speed = 150_000;
    player.move_left();
    assert_eq!(player.velocity(), Vec2::new(-150_000, 70_000));
    assert_eq!(player.position(), Vec2::zero());
}

#[test]
fn player_jumps_twice_before_it_has_to_land() {
    let mut player = Player::new(0, 0);
    player.set_on_ground(true);
    player.jump();
    assert_eq!(player.velocity().y, -400_000);
    assert_eq!(player.current_jump_count, 1);
    assert!(!player.is_on_ground());
    player.set_velocity(Vec2::new(0, 120_000));
    player.jump();
    assert_eq!(player.velocity().y, -400_000);
    assert_eq!(player.current_jump_count, 2);
    player.set_velocity(Vec2::new(0, 120_000));
    let before = player;
    player.jump();
    assert_eq!(player, before);
}

#[test]
fn player_without_jumps_stays_on_the_ground() {
    let mut player = Player::new(0, 0);
    player.max_jump_count = 0;
    player.set_on_ground(true);
    player.jump();
    assert!(player.is_on_ground());
    assert_eq!(player.velocity(), Vec2::zero());
    assert_eq!(player.current_jump_count, 0);
}

#[test]
fn standing_on_the_ground_gives_the_jumps_back() {
    let mut player = Player::new(0, 0);
    player.jump();
    player.jump();
    player.set_on_ground(false);
    assert_eq!(player.current_jump_count, 2);
    assert!(!player.is_on_ground());
    player.set_on_ground(true);
    assert_eq!(player.current_jump_count, 0);
    assert!(player.is_on_ground());
    player.jump();
    player.reset_jump();
    assert_eq!(player.current_jump_count, 0);
    assert!(!player.is_on_ground());
}

#[test]
fn setters_change_one_thing_each() {
    let mut player = Player::new(1_000, 2_000);
    player.set_position(Vec2::new(-7_000, 9_000));
    assert_eq!(player.position(), Vec2::new(-7_000, 9_000));
    assert_eq!(player.velocity(), Vec2::zero());
    player.set_velocity(Vec2::new(3_000, -4_000));
    assert_eq!(player.velocity(), Vec2::new(3_000, -4_000));
    assert_eq!(player.position(), Vec2::new(-7_000, 9_000));
    assert_eq!(player.size(), Vec2::new(32_000, 32_000));
    assert_eq!(player.body.position, Vec2::new(-7_000, 9_000));
    assert_eq!(player.body.velocity, Vec2::new(3_000, -4_000));
}

#[test]
fn friction_takes_a_fifth_of_the_run() {
    let mut player = Player::new(0, 0);
    player.set_velocity(Vec2::new(200_000, -50_000));
    player.update();
    assert_eq!(player.velocity(), Vec2::new(160_000, -50_000));
    player.update();
    assert_eq!(player.velocity(), Vec2::new(128_000, -50_000));
    player.set_velocity(Vec2::new(-200_000, 0));
    player.update();
    assert_eq!(player.velocity(), Vec2::new(-160_000, 0));
}

#[test]
fn slow_run_stops() {
    let mut player = Player::new(0, 0);
    player.set_velocity(Vec2::new(1_250, 0));
    player.update();
    assert_eq!(player.velocity().x, 1_000);
    player.update();
    assert_eq!(player.velocity().x, 0);
    player.set_velocity(Vec2::new(-1_249, 0));
    player.update();
    assert_eq!(player.velocity().x, 0);
    player.set_velocity(Vec2::new(-1_250, 0));
    player.update();
    assert_eq!(player.velocity().x, -1_000);
}

#[test]
fn run_comes_to_rest_after_some_frames() {
    let mut player = Player::new(0, 0);
    player.move_right();
    let mut frames = 0;
    while player.velocity().x != 0 {
        player.update();
        frames += 1;
        assert!(frames < 100);
    }
    // 200 * 0.8^23 is the last speed of a pixel per second or more.
    assert_eq!(frames, 24);
}

#[test]
fn player_is_an_entity() {
    let mut player = Player::new(1_000, 2_000);
    player.set_velocity(Vec2::new(200_000, 0));
    assert_eq!(Entity::position(&player), Vec2::new(1_000, 2_000));
    assert_eq!(Entity::size(&player), Vec2::new(32_000, 32_000));
    Entity::update(&mut player, 16);
    assert_eq!(player.velocity(), Vec2::new(160_000, 0));
    Entity::update(&mut player, 1_000_000);
    assert_eq!(player.velocity(), Vec2::new(128_000, 0));
}

#[test]
fn player_outside_the_limits_is_not_well_formed() {
    let mut player = Player::new(0, 0);
    player.move_speed = platformer::fixed::LIMIT + 1;
    assert!(!player.is_well_formed());
    let mut player = Player::new(0, 0);
    player.jump_force = -platformer::fixed::LIMIT - 1;
    assert!(!player.is_well_formed());
    let mut player = Player::new(0, 0);
    player.body.size = Vec2::new(0, 32_000);
    assert!(!player.is_well_formed());
}
