use dangame::animation::{AnimationType, Facing};
use dangame::character::{Character2, Character2Animations, CollisionProbes, InputState};
use dangame::menu::{CharacterSelection, GameMode, MenuState};

fn no_keys() -> InputState {
    InputState {
        up: false,
        down: false,
        left: false,
        right: false,
        run: false,
        crouch: false,
        jump: false,
        attack_1: false,
        attack_2: false,
        kick: false,
    }
}

fn ground() -> CollisionProbes {
    CollisionProbes { grounded: true, colliding_left: false, colliding_right: false }
}

fn air() -> CollisionProbes {
    CollisionProbes { grounded: false, colliding_left: false, colliding_right: false }
}

const FRAME: u64 = 16_000;

#[test]
fn standing_still_stays_idle() {
    let mut ch = Character2::new(None);
    let step = ch.update(&no_keys(), &ground(), FRAME);
    assert_eq!(ch.get_anim_type(), AnimationType::Idle);
    assert_eq!(ch.get_velocity(), (0, 0));
    assert_eq!((step.physics_dx, step.physics_dy), (0, 0));
    assert_eq!((step.width, step.height), (28, 93));
}

#[test]
fn walking_right_moves_at_walk_speed() {
    let mut ch = Character2::new(None);
    let input = InputState { right: true, ..no_keys() };
    let step = ch.update(&input, &ground(), FRAME);
    assert_eq!(ch.get_anim_type(), AnimationType::ForwardWalk);
    assert_eq!(ch.get_facing(), Facing::Right);
    assert_eq!(ch.get_velocity().0, 150_000);
    assert_eq!(step.physics_dx, 2_400);
}

#[test]
fn running_left_faces_left_at_run_speed() {
    let mut ch = Character2::new(None);
    let input = InputState { left: true, run: true, ..no_keys() };
    let step = ch.update(&input, &ground(), FRAME);
    assert_eq!(ch.get_anim_type(), AnimationType::ReverseRun);
    assert_eq!(ch.get_facing(), Facing::Left);
    assert_eq!(ch.get_velocity().0, -300_000);
    assert_eq!(step.physics_dx, -4_800);
}

#[test]
fn falling_accumulates_gravity_and_moves_down() {
    let mut ch = Character2::new(None);
    let step = ch.update(&no_keys(), &air(), FRAME);
    assert_eq!(ch.get_velocity().1, -12_800);
    assert_eq!(step.physics_dy, 204);
    ch.update(&no_keys(), &air(), FRAME);
    assert_eq!(ch.get_velocity().1, -25_600);
}

#[test]
fn touching_ground_while_falling_lands() {
    let mut ch = Character2::new(None);
    ch.update(&no_keys(), &air(), FRAME);
    ch.update(&no_keys(), &ground(), FRAME);
    assert_eq!(ch.get_anim_type(), AnimationType::Landing);
    assert_eq!(ch.get_velocity().1, 0);
    assert!(ch.animations.get(AnimationType::Landing).actively_playing);
}

#[test]
fn jump_from_standstill_pushes_upward() {
    let mut ch = Character2::new(None);
    let input = InputState { jump: true, ..no_keys() };
    ch.update(&input, &ground(), 60_000);
    assert_eq!(ch.get_anim_type(), AnimationType::Jump);
    assert_eq!(ch.get_velocity().1, 500_000);
}

#[test]
fn jump_while_walking_is_a_moving_jump() {
    let mut ch = Character2::new(None);
    let input = InputState { jump: true, right: true, ..no_keys() };
    ch.update(&input, &ground(), FRAME);
    assert_eq!(ch.get_anim_type(), AnimationType::JumpMoving);
}

#[test]
fn crouch_beats_every_other_key() {
    let mut ch = Character2::new(None);
    let input = InputState { crouch: true, right: true, jump: true, kick: true, ..no_keys() };
    let step = ch.update(&input, &ground(), FRAME);
    assert_eq!(ch.get_anim_type(), AnimationType::Crouch);
    assert_eq!(ch.get_velocity().0, 0);
    assert_eq!(step.height, 60);
}

#[test]
fn kick_in_the_air_cannot_be_steered() {
    let mut ch = Character2::new(None);
    let kick = InputState { kick: true, ..no_keys() };
    ch.update(&kick, &air(), FRAME);
    assert_eq!(ch.get_anim_type(), AnimationType::SoaringKick);
    let left = InputState { left: true, ..no_keys() };
    ch.update(&left, &air(), FRAME);
    assert_eq!(ch.get_anim_type(), AnimationType::SoaringKick);
    assert_eq!(ch.get_facing(), Facing::Right);
}

#[test]
fn attack_moves_the_other_way_when_facing_left() {
    let mut ch = Character2::new(None);
    let left = InputState { left: true, ..no_keys() };
    ch.update(&left, &ground(), FRAME);
    assert_eq!(ch.get_facing(), Facing::Left);
    let kick = InputState { kick: true, ..no_keys() };
    ch.update(&kick, &ground(), FRAME);
    assert_eq!(ch.get_anim_type(), AnimationType::Attack3);
    let step = ch.update(&no_keys(), &ground(), 130_000);
    assert_eq!(step.animation_dx, -37_500);
    assert_eq!(ch.get_anim_type(), AnimationType::Attack3);
}

#[test]
fn wall_in_direction_of_travel_stops_horizontal_motion() {
    let mut ch = Character2::new(None);
    ch.x_v = -100_000;
    let probes = CollisionProbes { grounded: false, colliding_left: true, colliding_right: false };
    ch.update(&no_keys(), &probes, FRAME);
    assert_eq!(ch.get_velocity().0, 0);
    ch.x_v = 100_000;
    ch.update(&no_keys(), &probes, FRAME);
    assert_eq!(ch.get_velocity().0, 100_000);
}

#[test]
fn switching_away_rewinds_the_old_animation() {
    let mut ch = Character2::new(None);
    let right = InputState { right: true, ..no_keys() };
    ch.update(&right, &ground(), 60_000);
    ch.update(&right, &ground(), 60_000);
    assert_eq!(ch.get_sprite_frame(), 2);
    ch.update(&no_keys(), &ground(), FRAME);
    assert_eq!(ch.get_anim_type(), AnimationType::Idle);
    assert_eq!(ch.animations.get(AnimationType::ForwardWalk).sprite_frame, 0);
}

#[test]
fn any_key_down_counts_movement_keys_only() {
    assert!(!no_keys().is_any_key_down());
    assert!(InputState { up: true, ..no_keys() }.is_any_key_down());
    assert!(InputState { down: true, ..no_keys() }.is_any_key_down());
    assert!(InputState { jump: true, ..no_keys() }.is_any_key_down());
    assert!(!InputState { kick: true, ..no_keys() }.is_any_key_down());
    assert!(!InputState { run: true, ..no_keys() }.is_any_key_down());
}

#[test]
fn bank_holds_every_animation_at_its_first_frame() {
    let bank = Character2Animations::load();
    assert_eq!(bank.states.len(), 13);
    assert_eq!(bank.get(AnimationType::SoaringKick).anim_type, AnimationType::SoaringKick);
    assert!(!bank.get(AnimationType::SoaringKick).is_interuptable);
    assert!(bank.get(AnimationType::Idle).always_plays);
    assert!(!bank.get(AnimationType::Attack1).always_plays);
    assert_eq!(bank.get(AnimationType::JumpMoving).animation_sequence.len(), 3);
}

#[test]
fn client_id_accessors() {
    let mut ch = Character2::new(None);
    assert_eq!(ch.get_client_id(), None);
    ch.set_client_id();
    assert_eq!(ch.get_client_id(), Some(0));
}

#[test]
fn menu_back_undoes_the_latest_choice() {
    let mut m = MenuState::new();
    m.game_mode = Some(GameMode::Multiplayer);
    m.character_selection = Some(CharacterSelection::Character2);
    m.connect_pressed = true;
    m.map_selection = Some(0);
    m.back();
    assert_eq!(m.map_selection, None);
    assert!(m.connect_pressed);
    m.back();
    assert!(!m.connect_pressed);
    assert_eq!(m.character_selection, Some(CharacterSelection::Character2));
    m.back();
    assert_eq!(m.character_selection, None);
    m.back();
    assert_eq!(m.game_mode, None);
    m.back();
    assert_eq!(m.game_mode, None);
}
