use platformer::entities::{Platform, Player, Vec2};
use platformer::physics::Physics;

fn airborne(velocity: Vec2) -> Player {
    let mut player = Player::new(100_000, 50_000);
    player.set_velocity(velocity);
    player
}

#[test]
fn integrator_starts_with_the_constants_of_the_game() {
    let physics = Physics::new();
    assert_eq!(physics.gravity, 980_000);
    assert_eq!(physics.terminal_velocity, 500_000);
    assert_eq!(Physics::default(), physics);
}

#[test]
fn integrator_beyond_the_limits_is_not_well_formed() {
    assert!(Physics::new().is_well_formed());
    assert!(Physics { gravity: -10_000_000_000, terminal_velocity: 10_000_000_000 }
        .is_well_formed());
    assert!(!Physics { gravity: 10_000_000_001, terminal_velocity: 0 }.is_well_formed());
    assert!(!Physics { gravity: 0, terminal_velocity: -10_000_000_001 }.is_well_formed());
}

#[test]
fn gravity_speeds_up_a_body_in_the_air() {
    let physics = Physics::new();
    let mut player = airborne(Vec2::new(30_000, 0));
    physics.apply_gravity(&mut player, 100);
    assert_eq!(player.velocity(), Vec2::new(30_000, 98_000));
    physics.apply_gravity(&mut player, 16);
    assert_eq!(player.velocity(), Vec2::new(30_000, 113_680));
    assert_eq!(player.position(), Vec2::new(100_000, 50_000));
    assert!(!player.is_on_ground());
}

#[test]
fn gravity_spares_a_body_on_the_ground() {
    let physics = Physics::new();
    let mut player = airborne(Vec2::new(30_000, 70_000));
    player.set_on_ground(true);
    let before = player;
    physics.apply_gravity(&mut player, 100);
    assert_eq!(player, before);
    assert_eq!(player.velocity().y, 70_000);
    // Not even a body that is faster than the terminal velocity is touched.
    let mut fast = airborne(Vec2::new(0, 900_000));
    fast.set_on_ground(true);
    physics.apply_gravity(&mut fast, 100);
    assert_eq!(fast.velocity().y, 900_000);
}

#[test]
fn gravity_stops_at_the_terminal_velocity() {
    let physics = Physics::new();
    let mut player = airborne(Vec2::new(0, 450_000));
    physics.apply_gravity(&mut player, 100);
    assert_eq!(player.velocity().y, 500_000);
    physics.apply_gravity(&mut player, 100);
    assert_eq!(player.velocity().y, 500_000);
    let mut fast = airborne(Vec2::new(0, 900_000));
    physics.apply_gravity(&mut fast, 1);
    assert_eq!(fast.velocity().y, 500_000);
}

#[test]
fn gravity_reaches_exactly_the_terminal_velocity() {
    let physics = Physics { gravity: 1_000_000, terminal_velocity: 500_000 };
    let mut player = airborne(Vec2::new(0, 400_000));
    physics.apply_gravity(&mut player, 100);
    assert_eq!(player.velocity().y, 500_000);
    let mut slower = airborne(Vec2::new(0, 399_999));
    physics.apply_gravity(&mut slower, 100);
    assert_eq!(slower.velocity().y, 499_999);
}

#[test]
fn gravity_never_slows_a_rising_body_to_the_terminal_velocity() {
    let physics = Physics::new();
    let mut player = airborne(Vec2::new(0, -900_000));
    physics.apply_gravity(&mut player, 100);
    assert_eq!(player.velocity().y, -802_000);
}

#[test]
fn velocity_stays_below_the_terminal_velocity_however_often_gravity_acts() {
    let physics = Physics::new();
    let mut player = airborne(Vec2::new(0, -400_000));
    let mut last = player.velocity().y;
    for frame in 0..200 {
        physics.apply_gravity(&mut player, 16 + frame % 3);
        assert!(player.velocity().y <= physics.terminal_velocity);
        assert!(player.velocity().y >= last);
        last = player.velocity().y;
    }
    assert_eq!(player.velocity().y, 500_000);
}

#[test]
fn body_without_velocity_does_not_move() {
    let physics = Physics::new();
    let mut player = airborne(Vec2::zero());
    for delta_time in [0, 1, 16, 100, 1000, 10_000_000_000] {
        physics.update_position(&mut player, delta_time);
        assert_eq!(player.position(), Vec2::new(100_000, 50_000));
    }
    assert_eq!(player.velocity(), Vec2::zero());
}

#[test]
fn body_moves_by_velocity_times_time() {
    let physics = Physics::new();
    let mut player = airborne(Vec2::new(200_000, -400_000));
    physics.update_position(&mut player, 16);
    assert_eq!(player.position(), Vec2::new(103_200, 43_600));
    let mut player = airborne(Vec2::new(-1_500, 2_500));
    physics.update_position(&mut player, 1);
    // A pixel and a half a second is a thousandth of a pixel in a
    // thousandth of a second; the half is dropped.
    assert_eq!(player.position(), Vec2::new(99_999, 50_002));
}

#[test]
fn moving_changes_nothing_but_the_position() {
    let physics = Physics::new();
    let mut player = airborne(Vec2::new(200_000, -400_000));
    player.jump();
    let before = player;
    physics.update_position(&mut player, 16);
    assert_eq!(player.velocity(), Vec2::new(200_000, -400_000));
    assert_eq!(player.position(), Vec2::new(103_200, 43_600));
    player.set_position(before.position());
    assert_eq!(player, before);
    let mut slow = airborne(Vec2::new(10_000, 0));
    physics.update_position(&mut slow, 1000);
    assert_eq!(slow.velocity(), Vec2::new(10_000, 0));
    assert_eq!(slow.position(), Vec2::new(110_000, 50_000));
    let mut grounded = airborne(Vec2::new(1_200, 0));
    grounded.set_on_ground(true);
    physics.update_position(&mut grounded, 16);
    assert_eq!(grounded.velocity(), Vec2::new(1_200, 0));
    assert!(grounded.is_on_ground());
}

#[test]
fn falling_player_lands_on_platform() {
    let physics = Physics::new();
    let mut player = Player::new(100_000, 50_000);
    player.set_velocity(Vec2::new(0, 500_000));
    let platform = Platform::new(0, 100_000, 200_000, 20_000);
    physics.update_position(&mut player, 100);
    assert_eq!(player.position(), Vec2::new(100_000, 100_000));
    physics.check_collision(&mut player, &platform);
    assert_eq!(player.position(), Vec2::new(100_000, 68_000));
    assert_eq!(player.velocity().y, 0);
    assert!(player.is_on_ground());
    assert_eq!(platform, Platform::new(0, 100_000, 200_000, 20_000));
}

#[test]
fn falling_player_lands_where_the_vertical_overlap_is_smaller() {
    let physics = Physics::new();
    let platform = Platform::new(0, 300_000, 400_000, 50_000);
    // The last four have their top level with the platform's or below it.
    for top in [268_001, 270_000, 285_000, 299_999, 300_000, 300_001, 310_000, 349_999] {
        for speed in [1, 120_000, 600_000] {
            let mut player = Player::new(20_000, top);
            player.set_velocity(Vec2::new(50_000, speed));
            physics.check_collision(&mut player, &platform);
            assert_eq!(player.position(), Vec2::new(20_000, 300_000 - 32_000));
            assert_eq!(player.velocity(), Vec2::new(50_000, 0));
            assert!(player.is_on_ground());
        }
    }
}

#[test]
fn falling_player_that_has_sunk_into_a_platform_lands_on_it() {
    let physics = Physics::new();
    let platform = Platform::new(0, 100_000, 200_000, 60_000);
    let mut player = Player::new(50_000, 110_000);
    player.set_velocity(Vec2::new(0, 600_000));
    player.jump();
    player.set_velocity(Vec2::new(0, 600_000));
    physics.check_collision(&mut player, &platform);
    assert_eq!(player.position(), Vec2::new(50_000, 68_000));
    assert_eq!(player.velocity(), Vec2::zero());
    assert!(player.is_on_ground());
    assert_eq!(player.current_jump_count, 0);
}

#[test]
fn player_above_the_top_of_a_platform_lands_whichever_way_it_moves() {
    let physics = Physics::new();
    let platform = Platform::new(0, 100_000, 200_000, 20_000);
    for speed in [-400_000, -1, 0, 1, 400_000] {
        let mut player = Player::new(50_000, 99_999);
        player.set_velocity(Vec2::new(0, speed));
        physics.check_collision(&mut player, &platform);
        assert_eq!(player.position(), Vec2::new(50_000, 68_000));
        assert_eq!(player.velocity(), Vec2::zero());
        assert!(player.is_on_ground());
    }
}

#[test]
fn player_at_rest_with_its_top_level_with_the_platform_is_pushed_below_it() {
    let physics = Physics::new();
    let platform = Platform::new(0, 100_000, 200_000, 20_000);
    let mut player = Player::new(50_000, 100_000);
    player.set_velocity(Vec2::new(30_000, 0));
    physics.check_collision(&mut player, &platform);
    assert_eq!(player.position(), Vec2::new(50_000, 120_000));
    assert_eq!(player.velocity(), Vec2::new(30_000, 0));
    assert!(!player.is_on_ground());
    let mut rising = Player::new(50_000, 100_000);
    rising.set_velocity(Vec2::new(30_000, -1));
    physics.check_collision(&mut rising, &platform);
    assert_eq!(rising.position(), Vec2::new(50_000, 120_000));
    assert_eq!(rising.velocity(), Vec2::new(30_000, 0));
    assert!(!rising.is_on_ground());
}

#[test]
fn player_on_the_ground_that_is_pushed_below_a_platform_is_in_the_air() {
    let physics = Physics::new();
    let platform = Platform::new(0, 100_000, 200_000, 20_000);
    let mut player = Player::new(50_000, 110_000);
    player.set_on_ground(true);
    player.current_jump_count = 1;
    player.set_velocity(Vec2::new(0, -100_000));
    physics.check_collision(&mut player, &platform);
    assert_eq!(player.position(), Vec2::new(50_000, 120_000));
    assert_eq!(player.velocity(), Vec2::zero());
    assert!(!player.is_on_ground());
    assert_eq!(player.current_jump_count, 1);
}

#[test]
fn player_that_is_pushed_sideways_keeps_its_ground() {
    let physics = Physics::new();
    let wall = Platform::new(200_000, -50_000, 100_000, 200_000);
    let mut player = Player::new(190_000, 0);
    player.set_on_ground(true);
    player.set_velocity(Vec2::new(200_000, 0));
    physics.check_collision(&mut player, &wall);
    assert_eq!(player.position(), Vec2::new(168_000, 0));
    assert!(player.is_on_ground());
}

#[test]
fn landing_gives_the_jumps_back() {
    let physics = Physics::new();
    let platform = Platform::new(0, 100_000, 200_000, 20_000);
    let mut player = Player::new(100_000, 70_000);
    player.jump();
    player.jump();
    assert_eq!(player.current_jump_count, 2);
    physics.check_collision(&mut player, &platform);
    assert!(player.is_on_ground());
    assert_eq!(player.current_jump_count, 0);
}

#[test]
fn player_below_the_top_of_a_platform_is_pushed_below_it() {
    let physics = Physics::new();
    let platform = Platform::new(0, 0, 200_000, 20_000);
    let mut player = Player::new(0, 15_000);
    player.set_velocity(Vec2::new(10_000, -300_000));
    player.jump();
    physics.check_collision(&mut player, &platform);
    assert_eq!(player.position(), Vec2::new(0, 20_000));
    assert_eq!(player.velocity(), Vec2::new(10_000, 0));
    assert!(!player.is_on_ground());
    assert_eq!(player.current_jump_count, 1);
    // Falling changes that: a falling player lands.
    let mut falling = Player::new(0, 15_000);
    falling.set_velocity(Vec2::new(0, 300_000));
    physics.check_collision(&mut falling, &platform);
    assert_eq!(falling.position(), Vec2::new(0, -32_000));
    assert_eq!(falling.velocity(), Vec2::zero());
    assert!(falling.is_on_ground());
}

#[test]
fn player_is_pushed_sideways_where_the_horizontal_overlap_is_smaller() {
    let physics = Physics::new();
    let wall = Platform::new(200_000, -50_000, 100_000, 200_000);
    let mut from_left = Player::new(190_000, 0);
    from_left.set_velocity(Vec2::new(200_000, 90_000));
    physics.check_collision(&mut from_left, &wall);
    assert_eq!(from_left.position(), Vec2::new(168_000, 0));
    assert_eq!(from_left.velocity(), Vec2::new(0, 90_000));
    assert!(!from_left.is_on_ground());
    let mut from_right = Player::new(290_000, 0);
    from_right.set_velocity(Vec2::new(-200_000, 90_000));
    physics.check_collision(&mut from_right, &wall);
    assert_eq!(from_right.position(), Vec2::new(300_000, 0));
    assert_eq!(from_right.velocity(), Vec2::new(0, 90_000));
    assert!(!from_right.is_on_ground());
}

#[test]
fn equal_overlaps_push_the_player_vertically() {
    let physics = Physics::new();
    let platform = Platform::new(20_000, 20_000, 100_000, 100_000);
    let mut player = Player::new(0, 0);
    player.set_velocity(Vec2::new(70_000, 80_000));
    // Twelve pixels of overlap along both axes.
    physics.check_collision(&mut player, &platform);
    assert_eq!(player.position(), Vec2::new(0, -12_000));
    assert_eq!(player.velocity(), Vec2::new(70_000, 0));
    assert!(player.is_on_ground());
    let mut nearer = Player::new(1, 0);
    nearer.set_velocity(Vec2::new(70_000, 80_000));
    physics.check_collision(&mut nearer, &platform);
    assert_eq!(nearer.position(), Vec2::new(1, -12_000));
    let mut further = Player::new(0, 1);
    further.set_velocity(Vec2::new(70_000, 80_000));
    physics.check_collision(&mut further, &platform);
    assert_eq!(further.position(), Vec2::new(-12_000, 1));
    assert_eq!(further.velocity(), Vec2::new(0, 80_000));
    assert!(!further.is_on_ground());
}

#[test]
fn player_that_does_not_overlap_is_left_alone() {
    let physics = Physics::new();
    let platform = Platform::new(0, 100_000, 200_000, 20_000);
    let mut apart = Player::new(100_000, 0);
    apart.set_velocity(Vec2::new(10_000, 20_000));
    let before = apart;
    physics.check_collision(&mut apart, &platform);
    assert_eq!(apart, before);
    let mut touching = Player::new(100_000, 68_000);
    touching.set_velocity(Vec2::new(10_000, 20_000));
    let before = touching;
    physics.check_collision(&mut touching, &platform);
    assert_eq!(touching, before);
    assert!(!touching.is_on_ground());
}

#[test]
fn resolving_twice_changes_nothing_more() {
    let physics = Physics::new();
    let platform = Platform::new(0, 100_000, 200_000, 20_000);
    let mut player = Player::new(100_000, 90_000);
    physics.check_collision(&mut player, &platform);
    let once = player;
    physics.check_collision(&mut player, &platform);
    assert_eq!(player, once);
    assert!(!player.body.overlaps_with(&platform.body));
}

#[test]
fn later_platform_sees_the_player_where_the_earlier_one_put_it() {
    let physics = Physics::new();
    let floor = Platform::new(0, 100_000, 200_000, 20_000);
    let shelf = Platform::new(0, 60_000, 200_000, 20_000);
    let mut player = Player::new(50_000, 90_000);
    physics.check_collision(&mut player, &floor);
    assert_eq!(player.position(), Vec2::new(50_000, 68_000));
    physics.check_collision(&mut player, &shelf);
    // On the floor the player reaches into the shelf from below.
    assert_eq!(player.position(), Vec2::new(50_000, 80_000));
    let mut other_order = Player::new(50_000, 90_000);
    physics.check_collision(&mut other_order, &shelf);
    assert_eq!(other_order.position(), Vec2::new(50_000, 90_000));
    physics.check_collision(&mut other_order, &floor);
    assert_eq!(other_order.position(), Vec2::new(50_000, 68_000));
}

#[test]
fn player_is_kept_right_of_the_left_edge_of_the_world() {
    let physics = Physics::new();
    let mut player = Player::new(-5_000, 70_000);
    player.set_velocity(Vec2::new(-200_000, 30_000));
    physics.check_bounds(&mut player);
    assert_eq!(player.position(), Vec2::new(0, 70_000));
    assert_eq!(player.velocity(), Vec2::new(0, 30_000));
    let mut inside = Player::new(0, -900_000);
    inside.set_velocity(Vec2::new(-200_000, 30_000));
    let before = inside;
    physics.check_bounds(&mut inside);
    assert_eq!(inside, before);
    let mut far_right = Player::new(5_000_000_000, 900_000_000);
    far_right.set_velocity(Vec2::new(200_000, 30_000));
    let before = far_right;
    physics.check_bounds(&mut far_right);
    assert_eq!(far_right, before);
}
