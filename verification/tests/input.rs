use platformer::entities::Vec2;
use platformer::input::helpers::{
    get_movement_vector, is_moving, just_started_moving_left, just_started_moving_right,
    just_stopped_moving_horizontal, wants_to_move_left, wants_to_move_right,
};
use platformer::input::{contains_key, tracked_keys, InputHandler, Key};

fn holding(frames: &[&[Key]]) -> InputHandler {
    let mut input = InputHandler::new();
    for held in frames {
        input.update(&held.to_vec());
    }
    input
}

#[test]
fn new_handler_has_seen_no_key() {
    let input = InputHandler::new();
    assert!(input.get_pressed_keys().is_empty());
    assert!(!input.any_key_pressed());
    assert!(!input.any_key_just_pressed());
    for key in tracked_keys() {
        assert!(!input.is_key_down(key));
        assert!(!input.is_key_pressed(key));
        assert!(!input.is_key_released(key));
        assert!(!input.was_key_down(key));
    }
    assert!(InputHandler::default().get_pressed_keys().is_empty());
}

#[test]
fn game_listens_to_thirteen_keys() {
    assert_eq!(
        tracked_keys(),
        vec![
            Key::A,
            Key::D,
            Key::W,
            Key::S,
            Key::Space,
            Key::Left,
            Key::Right,
            Key::Up,
            Key::Down,
            Key::Enter,
            Key::Escape,
            Key::R,
            Key::P,
        ]
    );
}

#[test]
fn held_keys_are_listed_once_and_in_order() {
    let input = holding(&[&[Key::P, Key::Space, Key::A, Key::Space, Key::P]]);
    assert_eq!(input.get_pressed_keys(), &vec![Key::A, Key::Space, Key::P]);
    assert!(input.any_key_pressed());
    let input = holding(&[&[Key::P], &[]]);
    assert!(input.get_pressed_keys().is_empty());
    assert!(!input.any_key_pressed());
}

#[test]
fn key_is_pressed_in_the_frame_in_which_it_goes_down() {
    let input = holding(&[&[Key::Space]]);
    assert!(input.is_key_down(Key::Space));
    assert!(input.is_key_pressed(Key::Space));
    assert!(!input.is_key_released(Key::Space));
    assert!(!input.is_key_down(Key::W));
    let input = holding(&[&[Key::Space], &[Key::Space]]);
    assert!(input.is_key_down(Key::Space));
    assert!(input.was_key_down(Key::Space));
    assert!(!input.is_key_pressed(Key::Space));
    assert!(!input.is_key_released(Key::Space));
}

#[test]
fn key_is_released_in_the_frame_in_which_it_goes_up() {
    let input = holding(&[&[Key::Space], &[Key::Space], &[]]);
    assert!(!input.is_key_down(Key::Space));
    assert!(!input.is_key_pressed(Key::Space));
    assert!(input.is_key_released(Key::Space));
    let input = holding(&[&[Key::Space], &[], &[]]);
    assert!(!input.is_key_released(Key::Space));
    let input = holding(&[&[Key::Space], &[], &[Key::Space]]);
    assert!(input.is_key_pressed(Key::Space));
}

#[test]
fn directions_cancel_each_other() {
    assert_eq!(holding(&[&[]]).get_horizontal_input(), 0);
    assert_eq!(holding(&[&[Key::A]]).get_horizontal_input(), -1000);
    assert_eq!(holding(&[&[Key::Left]]).get_horizontal_input(), -1000);
    assert_eq!(holding(&[&[Key::A, Key::Left]]).get_horizontal_input(), -1000);
    assert_eq!(holding(&[&[Key::D]]).get_horizontal_input(), 1000);
    assert_eq!(holding(&[&[Key::Right]]).get_horizontal_input(), 1000);
    assert_eq!(holding(&[&[Key::A, Key::Right]]).get_horizontal_input(), 0);
    assert_eq!(holding(&[&[]]).get_vertical_input(), 0);
    assert_eq!(holding(&[&[Key::W]]).get_vertical_input(), -1000);
    assert_eq!(holding(&[&[Key::Up]]).get_vertical_input(), -1000);
    assert_eq!(holding(&[&[Key::S]]).get_vertical_input(), 1000);
    assert_eq!(holding(&[&[Key::Down]]).get_vertical_input(), 1000);
    assert_eq!(holding(&[&[Key::Up, Key::S]]).get_vertical_input(), 0);
    assert_eq!(holding(&[&[Key::A]]).get_vertical_input(), 0);
}

#[test]
fn meanings_of_the_keys() {
    for key in [Key::Space, Key::W, Key::Up] {
        assert!(holding(&[&[key]]).is_jump_pressed());
        assert!(!holding(&[&[key], &[key]]).is_jump_pressed());
    }
    assert!(!holding(&[&[Key::Enter]]).is_jump_pressed());
    for key in [Key::Enter, Key::Space] {
        assert!(holding(&[&[key]]).is_action_pressed());
    }
    assert!(!holding(&[&[Key::W]]).is_action_pressed());
    for key in [Key::P, Key::Escape] {
        assert!(holding(&[&[key]]).is_pause_pressed());
    }
    assert!(!holding(&[&[Key::R]]).is_pause_pressed());
    assert!(holding(&[&[Key::R]]).is_reset_pressed());
    assert!(!holding(&[&[Key::R], &[Key::R]]).is_reset_pressed());
    assert!(!holding(&[&[Key::P]]).is_reset_pressed());
}

#[test]
fn any_key_just_pressed_needs_a_new_key() {
    assert!(holding(&[&[Key::S]]).any_key_just_pressed());
    assert!(!holding(&[&[Key::S], &[Key::S]]).any_key_just_pressed());
    assert!(holding(&[&[Key::S], &[Key::S, Key::P]]).any_key_just_pressed());
    assert!(!holding(&[&[Key::S, Key::P], &[Key::P]]).any_key_just_pressed());
    assert!(!holding(&[&[Key::S], &[]]).any_key_just_pressed());
}

#[test]
fn contains_key_looks_through_the_whole_list() {
    let keys = vec![Key::A, Key::Space, Key::P];
    assert!(contains_key(&keys, Key::A));
    assert!(contains_key(&keys, Key::P));
    assert!(!contains_key(&keys, Key::D));
    assert!(!contains_key(&Vec::new(), Key::A));
}

#[test]
fn movement_along_one_axis_has_length_one() {
    assert_eq!(get_movement_vector(&holding(&[&[]])), Vec2::zero());
    assert_eq!(get_movement_vector(&holding(&[&[Key::A]])), Vec2::new(-1000, 0));
    assert_eq!(get_movement_vector(&holding(&[&[Key::Right]])), Vec2::new(1000, 0));
    assert_eq!(get_movement_vector(&holding(&[&[Key::Up]])), Vec2::new(0, -1000));
    assert_eq!(get_movement_vector(&holding(&[&[Key::S]])), Vec2::new(0, 1000));
    assert_eq!(get_movement_vector(&holding(&[&[Key::S, Key::A, Key::D]])), Vec2::new(0, 1000));
}

#[test]
fn diagonal_movement_is_shortened_to_length_one() {
    assert_eq!(get_movement_vector(&holding(&[&[Key::D, Key::S]])), Vec2::new(707, 707));
    assert_eq!(get_movement_vector(&holding(&[&[Key::A, Key::W]])), Vec2::new(-707, -707));
    assert_eq!(get_movement_vector(&holding(&[&[Key::Left, Key::Down]])), Vec2::new(-707, 707));
    assert_eq!(get_movement_vector(&holding(&[&[Key::Right, Key::Up]])), Vec2::new(707, -707));
}

#[test]
fn moving_means_holding_a_direction() {
    assert!(!is_moving(&holding(&[&[]])));
    assert!(!is_moving(&holding(&[&[Key::Space]])));
    assert!(is_moving(&holding(&[&[Key::A]])));
    assert!(is_moving(&holding(&[&[Key::Down]])));
    assert!(!is_moving(&holding(&[&[Key::A, Key::D]])));
    assert!(is_moving(&holding(&[&[Key::A, Key::D, Key::W]])));
}

#[test]
fn wanting_to_move_means_holding_a_key_for_it() {
    assert!(wants_to_move_left(&holding(&[&[Key::A]])));
    assert!(wants_to_move_left(&holding(&[&[Key::Left, Key::D]])));
    assert!(!wants_to_move_left(&holding(&[&[Key::D]])));
    assert!(wants_to_move_right(&holding(&[&[Key::D]])));
    assert!(wants_to_move_right(&holding(&[&[Key::Right, Key::A]])));
    assert!(!wants_to_move_right(&holding(&[&[Key::A]])));
}

#[test]
fn starting_to_move_needs_a_press_and_no_key_against_it() {
    assert!(just_started_moving_left(&holding(&[&[Key::A]])));
    assert!(just_started_moving_left(&holding(&[&[Key::A], &[Key::A, Key::Left]])));
    assert!(!just_started_moving_left(&holding(&[&[Key::A], &[Key::A]])));
    assert!(!just_started_moving_left(&holding(&[&[Key::A, Key::D]])));
    assert!(!just_started_moving_left(&holding(&[&[Key::D]])));
    assert!(just_started_moving_right(&holding(&[&[Key::Right]])));
    assert!(!just_started_moving_right(&holding(&[&[Key::D], &[Key::D]])));
    assert!(!just_started_moving_right(&holding(&[&[Key::D, Key::Left]])));
}

#[test]
fn stopping_means_that_nothing_is_held_sideways_any_more() {
    assert!(just_stopped_moving_horizontal(&holding(&[&[Key::A], &[]])));
    assert!(just_stopped_moving_horizontal(&holding(&[&[Key::Right], &[Key::Space]])));
    assert!(!just_stopped_moving_horizontal(&holding(&[&[Key::A], &[Key::A]])));
    assert!(!just_stopped_moving_horizontal(&holding(&[&[], &[]])));
    assert!(!just_stopped_moving_horizontal(&holding(&[&[Key::Space], &[]])));
    // Holding both directions counts as holding nothing.
    assert!(just_stopped_moving_horizontal(&holding(&[&[Key::A], &[Key::A, Key::D]])));
}
