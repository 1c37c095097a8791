use dangame::animation::{
    share_of_frame, texture_slot, AnimationSequence, AnimationType, CharacterType,
    PlayerAnimationState, TextureSlot, UpdateDeltas,
};

fn one_shot(seqs: Vec<AnimationSequence>) -> PlayerAnimationState {
    let mut st = PlayerAnimationState::new(
        AnimationType::Attack3,
        CharacterType::Shinobi,
        seqs,
        false,
        true,
    );
    st.actively_playing = true;
    st
}

fn attack_3_sequences() -> Vec<AnimationSequence> {
    vec![
        AnimationSequence::new(2, 8, 75, 0, 0, 0, 93, 28),
        AnimationSequence::new(1, 8, 0, 0, 0, 0, 93, 28),
        AnimationSequence::new(1, 8, 50, 0, 0, 0, 93, 28),
    ]
}

#[test]
fn attack_3_visits_four_frames_and_moves_125_pixels() {
    let mut st = one_shot(attack_3_sequences());
    let mut sprites = vec![st.sprite_frame];
    let mut total_x: i64 = 0;
    for _ in 0..4 {
        let d = st.update(125_001);
        total_x += d.pos_delta.0;
        sprites.push(st.sprite_frame);
    }
    assert_eq!(sprites, vec![0, 1, 2, 3, 3]);
    assert_eq!(total_x, 125_000);
    assert!(!st.actively_playing);
}

#[test]
fn one_shot_visits_sequences_in_order_and_stops_at_the_end() {
    let mut st = one_shot(vec![
        AnimationSequence::new(1, 20, 0, 0, 0, 500, 93, 28),
        AnimationSequence::new(2, 20, 0, 0, 0, 0, 70, 28),
        AnimationSequence::new(4, 10, 0, 0, 0, 0, 93, 28),
    ]);
    let mut seen = Vec::new();
    for call in 0..7 {
        assert!(st.actively_playing, "stopped early at call {}", call);
        assert_eq!(st.sprite_frame, call);
        seen.push(st.sequence_index);
        let period = 1_000_000 / st.animation_sequence[st.sequence_index].fps;
        st.update(period + 1);
    }
    assert_eq!(seen, vec![0, 1, 1, 2, 2, 2, 2]);
    assert!(!st.actively_playing);
    assert_eq!(st.sprite_frame, 6);
}

#[test]
fn looping_animation_restarts_without_reporting_completion() {
    let mut st = PlayerAnimationState::new(
        AnimationType::Idle,
        CharacterType::Shinobi,
        vec![AnimationSequence::new(6, 20, 0, 0, 0, 0, 93, 28)],
        true,
        true,
    );
    for _ in 0..5 {
        st.update(50_001);
    }
    assert_eq!(st.sprite_frame, 5);
    st.update(50_001);
    assert_eq!(st.sequence_index, 0);
    assert_eq!(st.sequence_frame_index, 0);
    assert_eq!(st.sprite_frame, 0);
    assert!(!st.actively_playing);

    st.actively_playing = true;
    for _ in 0..6 {
        st.update(50_001);
    }
    assert_eq!(st.sprite_frame, 0);
    assert!(st.actively_playing);
}

#[test]
fn shares_of_a_run_add_up_to_its_motion() {
    for frames in 1..12usize {
        for total in [0i32, 1, 10, 75, -200, 1250, 7, -7] {
            let sum: i64 = (0..frames).map(|k| share_of_frame(total, frames, k)).sum();
            assert_eq!(sum, total as i64 * 1000, "frames {} total {}", frames, total);
        }
    }
}

#[test]
fn shares_are_even_with_the_remainder_last() {
    assert_eq!(share_of_frame(10, 3, 0), 3333);
    assert_eq!(share_of_frame(10, 3, 1), 3333);
    assert_eq!(share_of_frame(10, 3, 2), 3334);
    assert_eq!(share_of_frame(-10, 3, 0), -3333);
    assert_eq!(share_of_frame(-10, 3, 2), -3334);
    assert_eq!(share_of_frame(75, 2, 0), 37_500);
    assert_eq!(share_of_frame(1250, 2, 1), 625_000);
}

#[test]
fn frame_time_equal_to_the_period_does_not_advance() {
    let mut st = one_shot(attack_3_sequences());
    let d = st.update(125_000);
    assert_eq!(st.sprite_frame, 0);
    assert_eq!(st.time, 125_000);
    assert_eq!(d.pos_delta, (0, 0));
    let d = st.update(1);
    assert_eq!(st.sprite_frame, 1);
    assert_eq!(st.time, 0);
    assert_eq!(d.pos_delta, (37_500, 0));
}

#[test]
fn stopped_animation_only_reports_its_size() {
    let mut st = PlayerAnimationState::new(
        AnimationType::Crouch,
        CharacterType::Shinobi,
        vec![AnimationSequence::new(1, 20, 5, 5, 5, 5, 60, 28)],
        false,
        true,
    );
    let d = st.update(1_000_000);
    assert_eq!(d.height, 60);
    assert_eq!(d.width, 28);
    assert_eq!(d.pos_delta, (0, 0));
    assert_eq!(d.vel_delta, (0, 0));
    assert_eq!(st.time, 0);
    assert_eq!(st.sprite_frame, 0);
}

#[test]
fn velocity_change_is_spread_over_frames() {
    let mut st = one_shot(vec![
        AnimationSequence::new(2, 8, 0, 0, 1250, -200, 93, 28),
        AnimationSequence::new(2, 8, 0, 0, 0, 0, 93, 28),
    ]);
    let d = st.update(200_000);
    assert_eq!(d.vel_delta, (625_000, -100_000));
    let d = st.update(200_000);
    assert_eq!(d.vel_delta, (625_000, -100_000));
    let d = st.update(200_000);
    assert_eq!(d.vel_delta, (0, 0));
}

#[test]
fn reset_rewinds_and_stops() {
    let mut st = one_shot(attack_3_sequences());
    st.update(125_001);
    st.update(125_001);
    st.update(60_000);
    st.reset();
    assert_eq!(st.time, 0);
    assert_eq!(st.sprite_frame, 0);
    assert_eq!(st.sequence_index, 0);
    assert_eq!(st.sequence_frame_index, 0);
    assert!(!st.actively_playing);
}

#[test]
fn animations_share_sprite_sheets() {
    assert_eq!(texture_slot(AnimationType::ForwardRun), TextureSlot::Run);
    assert_eq!(texture_slot(AnimationType::ReverseRun), TextureSlot::Run);
    assert_eq!(texture_slot(AnimationType::JumpMoving), TextureSlot::Jump);
    assert_eq!(texture_slot(AnimationType::ReverseWalk), TextureSlot::Walk);
    assert_eq!(texture_slot(AnimationType::SoaringKick), TextureSlot::Attack3);
    assert_eq!(texture_slot(AnimationType::Idle), TextureSlot::Idle);
    assert_eq!(texture_slot(AnimationType::Landing), TextureSlot::Landing);
}

#[test]
fn default_deltas_are_zero() {
    let d = UpdateDeltas::default();
    assert_eq!(d.pos_delta, (0, 0));
    assert_eq!(d.vel_delta, (0, 0));
    assert_eq!((d.height, d.width), (0, 0));
}

#[test]
fn sequence_period_is_in_whole_microseconds() {
    assert_eq!(AnimationSequence::new(1, 3, 0, 0, 0, 0, 1, 1).frame_period_us(), 333_333);
    assert_eq!(AnimationSequence::new(1, 8, 0, 0, 0, 0, 1, 1).frame_period_us(), 125_000);
}
