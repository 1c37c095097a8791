//! The local character: input and collision probes in, animation choice,
//! velocity and the moves to make in the physics world out.
//!
//! Velocities are millipixels per second, moves are millipixels, time is
//! microseconds. The physics world itself lives outside the library: the
//! caller asks it for the probes and applies the moves.
use vstd::prelude::*;

use crate::animation::{
    frames_before, AnimationSequence, AnimationType, CharacterType,
    lemma_frame_share_bounded, Facing, PlayerAnimationState, UpdateDeltas, MICROS_PER_SECOND,
};
use crate::constants::{GRAVITY, RUN_SPEED, WALK_SPEED};

verus! {

/// Largest velocity magnitude; velocities saturate there.
pub const MAX_VELOCITY: i64 = 0x7fff_ffff_ffff_ffff;

/// `v` held to `[-MAX_VELOCITY, MAX_VELOCITY]`.
pub open spec fn saturate(v: int) -> int {
    if v > MAX_VELOCITY {
        MAX_VELOCITY as int
    } else if v < -MAX_VELOCITY {
        -MAX_VELOCITY
    } else {
        v
    }
}

/// `a + b`, saturated.
pub fn saturating_sum(a: i64, b: i64) -> (r: i64)
    requires
        -MAX_VELOCITY <= a,
        -MAX_VELOCITY <= b,
    ensures
        r == saturate(a + b),
{
    let s: i128 = a as i128 + b as i128;
    if s > MAX_VELOCITY as i128 {
        MAX_VELOCITY
    } else if s < -(MAX_VELOCITY as i128) {
        -MAX_VELOCITY
    } else {
        s as i64
    }
}

/// How far a body at `rate` millipixels per second goes in `dt` microseconds,
/// in millipixels, truncated toward zero and saturated.
pub open spec fn distance(rate: int, dt: int) -> int {
    let m = if rate >= 0 { rate } else { -rate };
    let d = m * dt / MICROS_PER_SECOND as int;
    saturate(if rate >= 0 { d } else { -d })
}

/// Executable form of `distance`.
pub fn distance_in(rate: i64, dt_us: u64) -> (r: i64)
    requires
        -MAX_VELOCITY <= rate,
    ensures
        r == distance(rate as int, dt_us as int),
{
    let m: u64 = if rate >= 0 {
        rate as u64
    } else {
        (-rate) as u64
    };
    assert(m * dt_us <= 0xffff_ffff_ffff_ffff * 0xffff_ffff_ffff_ffff) by (nonlinear_arith)
        requires
            m <= 0xffff_ffff_ffff_ffff,
            dt_us <= 0xffff_ffff_ffff_ffff,
    ;
    let d: u128 = (m as u128 * dt_us as u128) / (MICROS_PER_SECOND as u128);
    let capped: i64 = if d > MAX_VELOCITY as u128 {
        MAX_VELOCITY
    } else {
        d as i64
    };
    if rate >= 0 {
        capped
    } else {
        -capped
    }
}

/// The keys held this frame.
#[derive(Clone, Copy, Debug, PartialEq, Eq, Structural)]
pub struct InputState {
    pub up: bool,
    pub down: bool,
    pub left: bool,
    pub right: bool,
    /// The run modifier.
    pub run: bool,
    pub crouch: bool,
    pub jump: bool,
    pub attack_1: bool,
    pub attack_2: bool,
    pub kick: bool,
}

impl InputState {
    /// Whether a movement key (up, down, left, right, jump) is held.
    pub open spec fn any_key_down(&self) -> bool {
        self.up || self.down || self.left || self.right || self.jump
    }

    pub fn is_any_key_down(&self) -> (r: bool)
        ensures
            r == self.any_key_down(),
    {
        if self.up {
            return true;
        }
        if self.down {
            return true;
        }
        if self.left {
            return true;
        }
        if self.right {
            return true;
        }
        if self.jump {
            return true;
        }
        false
    }
}

/// What the physics world says around the character, probed one pixel
/// below, to the left and to the right of it.
#[derive(Clone, Copy, Debug, PartialEq, Eq, Structural)]
pub struct CollisionProbes {
    pub grounded: bool,
    pub colliding_left: bool,
    pub colliding_right: bool,
}

/// What one frame of the character asks of the physics world, in order: the
/// move from its velocity, then the move of its animation, then the hitbox
/// size of its animation. Moves are millipixels, `y` pointing down.
#[derive(Clone, Copy, Debug, PartialEq, Eq, Structural)]
pub struct CharacterStep {
    pub physics_dx: i64,
    pub physics_dy: i64,
    pub animation_dx: i64,
    pub animation_dy: i64,
    pub width: i32,
    pub height: i32,
}

/// Horizontal velocity, facing and animation that the direction keys ask
/// for, if any. Running beats walking, right beats left; crouching asks for
/// nothing.
pub open spec fn steer(input: InputState) -> Option<(int, Facing, AnimationType)> {
    if input.crouch {
        None
    } else if input.right && input.run {
        Some((RUN_SPEED as int, Facing::Right, AnimationType::ForwardRun))
    } else if input.left && input.run {
        Some((-RUN_SPEED, Facing::Left, AnimationType::ReverseRun))
    } else if input.right {
        Some((WALK_SPEED as int, Facing::Right, AnimationType::ForwardWalk))
    } else if input.left {
        Some((-WALK_SPEED, Facing::Left, AnimationType::ReverseWalk))
    } else {
        None
    }
}

/// Horizontal velocity after ground friction (an instant stop) and after
/// running into a wall in the direction of travel.
pub open spec fn after_friction(x_v: int, probes: CollisionProbes) -> int {
    if probes.grounded || (probes.colliding_left && x_v < 0) || (probes.colliding_right && x_v
        > 0) {
        0
    } else {
        x_v
    }
}

/// The drop in vertical velocity over `dt` microseconds of free fall.
pub open spec fn gravity_drop(dt: int) -> int {
    GRAVITY * dt / MICROS_PER_SECOND as int
}

/// Whether the character was falling and has just touched the ground.
pub open spec fn just_landed(y_v: int, probes: CollisionProbes) -> bool {
    probes.grounded && y_v < 0
}

/// Horizontal velocity at the end of the physics step.
pub open spec fn next_x_velocity(
    x_v: int,
    interruptible: bool,
    input: InputState,
    probes: CollisionProbes,
) -> int {
    match steer(input) {
        Some((v, _, _)) if interruptible => v,
        _ => after_friction(x_v, probes),
    }
}

/// Vertical velocity at the end of the physics step: zero on landing,
/// gravity while airborne.
pub open spec fn next_y_velocity(y_v: int, probes: CollisionProbes, dt: int) -> int {
    if just_landed(y_v, probes) {
        0
    } else if !probes.grounded {
        saturate(y_v - gravity_drop(dt))
    } else {
        y_v
    }
}

/// Facing at the end of the physics step.
pub open spec fn next_facing(facing: Facing, interruptible: bool, input: InputState) -> Facing {
    match steer(input) {
        Some((_, f, _)) if interruptible => f,
        _ => facing,
    }
}

/// The animation that the controller asks for, highest priority first.
/// Input is looked at only while the current animation is interruptible;
/// landing and the soaring kick are decided by the physics alone.
pub open spec fn requested_animation(
    current: AnimationType,
    interruptible: bool,
    input: InputState,
    probes: CollisionProbes,
    x_v: int,
    y_v: int,
) -> AnimationType {
    let grounded = probes.grounded;
    if interruptible && input.crouch {
        AnimationType::Crouch
    } else if interruptible && grounded && input.kick {
        AnimationType::Attack3
    } else if interruptible && grounded && input.attack_2 {
        AnimationType::Attack2
    } else if interruptible && grounded && input.attack_1 {
        AnimationType::Attack1
    } else if interruptible && grounded && input.jump {
        if next_x_velocity(x_v, interruptible, input, probes) == 0 {
            AnimationType::Jump
        } else {
            AnimationType::JumpMoving
        }
    } else if interruptible && grounded && steer(input) is Some {
        let (_, _, anim) = steer(input)->0;
        anim
    } else if !input.any_key_down() && grounded && !just_landed(y_v, probes) {
        AnimationType::Idle
    } else if just_landed(y_v, probes) {
        AnimationType::Landing
    } else if !grounded && input.kick {
        AnimationType::SoaringKick
    } else {
        current
    }
}

/// Animations that play once through when they start (attacks, jumps,
/// landing, crouch), as opposed to the looping ones.
pub open spec fn plays_once(anim: AnimationType) -> bool {
    !(anim == AnimationType::Idle || anim == AnimationType::ForwardRun || anim
        == AnimationType::ReverseRun || anim == AnimationType::ForwardWalk || anim
        == AnimationType::ReverseWalk)
}

/// Position of `anim` in the animation bank.
pub open spec fn anim_index(anim: AnimationType) -> int {
    match anim {
        AnimationType::Idle => 0,
        AnimationType::Crouch => 1,
        AnimationType::ForwardRun => 2,
        AnimationType::ReverseRun => 3,
        AnimationType::Jump => 4,
        AnimationType::JumpMoving => 5,
        AnimationType::Landing => 6,
        AnimationType::ForwardWalk => 7,
        AnimationType::ReverseWalk => 8,
        AnimationType::Attack1 => 9,
        AnimationType::Attack2 => 10,
        AnimationType::Attack3 => 11,
        AnimationType::SoaringKick => 12,
    }
}

/// Executable form of `anim_index`.
pub fn index_of(anim: AnimationType) -> (r: usize)
    ensures
        r == anim_index(anim),
{
    match anim {
        AnimationType::Idle => 0,
        AnimationType::Crouch => 1,
        AnimationType::ForwardRun => 2,
        AnimationType::ReverseRun => 3,
        AnimationType::Jump => 4,
        AnimationType::JumpMoving => 5,
        AnimationType::Landing => 6,
        AnimationType::ForwardWalk => 7,
        AnimationType::ReverseWalk => 8,
        AnimationType::Attack1 => 9,
        AnimationType::Attack2 => 10,
        AnimationType::Attack3 => 11,
        AnimationType::SoaringKick => 12,
    }
}

/// The sequences of each of the shinobi's animations.
pub open spec fn shinobi_sequences(anim: AnimationType) -> Seq<AnimationSequence> {
    match anim {
        AnimationType::Idle => seq![seq_of(6, 20, 0, 0, 0, 0, 93, 28)],
        AnimationType::Crouch => seq![seq_of(1, 20, 0, 0, 0, 0, 60, 28)],
        AnimationType::ForwardRun => seq![seq_of(8, 20, 0, 0, 0, 0, 93, 28)],
        AnimationType::ReverseRun => seq![seq_of(8, 20, 0, 0, 0, 0, 93, 28)],
        AnimationType::Jump => seq![
            seq_of(1, 20, 0, 0, 0, 500, 93, 28),
            seq_of(2, 20, 0, 0, 0, 0, 70, 28),
            seq_of(4, 20, 0, 0, 0, 0, 93, 28),
        ],
        AnimationType::JumpMoving => seq![
            seq_of(1, 20, 0, 0, 0, 500, 93, 28),
            seq_of(2, 20, 0, 0, 0, 0, 70, 28),
            seq_of(5, 20, 0, 0, 0, 0, 93, 28),
        ],
        AnimationType::Landing => seq![seq_of(2, 10, 0, 0, 0, 0, 70, 28)],
        AnimationType::ForwardWalk => seq![seq_of(8, 20, 0, 0, 0, 0, 93, 28)],
        AnimationType::ReverseWalk => seq![seq_of(8, 20, 0, 0, 0, 0, 93, 28)],
        AnimationType::Attack1 => seq![
            seq_of(2, 3, 0, 0, 0, 0, 93, 28),
            seq_of(1, 3, 0, 0, 0, 0, 93, 28),
            seq_of(1, 3, 0, 0, 0, 0, 93, 28),
        ],
        AnimationType::Attack2 => seq![
            seq_of(1, 3, 0, 0, 0, 0, 93, 28),
            seq_of(1, 3, 0, 0, 0, 0, 93, 28),
            seq_of(1, 3, 0, 0, 0, 0, 93, 28),
        ],
        AnimationType::Attack3 => seq![
            seq_of(2, 8, 75, 0, 0, 0, 93, 28),
            seq_of(1, 8, 0, 0, 0, 0, 93, 28),
            seq_of(1, 8, 50, 0, 0, 0, 93, 28),
        ],
        AnimationType::SoaringKick => seq![
            seq_of(2, 8, 0, 0, 1250, -200i32, 93, 28),
            seq_of(2, 8, 0, 0, 0, 0, 93, 28),
        ],
    }
}

/// A sequence from its fields, in the order of `AnimationSequence::new`.
pub open spec fn seq_of(
    frames: usize,
    fps: u64,
    x_movement: i32,
    y_movement: i32,
    x_acceleration: i32,
    y_acceleration: i32,
    height: i32,
    width: i32,
) -> AnimationSequence {
    AnimationSequence {
        frames,
        fps,
        x_movement,
        y_movement,
        x_acceleration,
        y_acceleration,
        height,
        width,
    }
}

/// Number of animations in a bank.
pub const ANIMATION_COUNT: usize = 13;

/// One playback cursor per animation, made once and switched between.
pub struct Character2Animations {
    pub states: Vec<PlayerAnimationState>,
}

impl Character2Animations {
    pub open spec fn state(&self, anim: AnimationType) -> PlayerAnimationState {
        self.states@[anim_index(anim)]
    }

    pub open spec fn wf(&self) -> bool {
        &&& self.states@.len() == ANIMATION_COUNT
        &&& forall|a: AnimationType| #[trigger] self.state(a).wf()
        &&& forall|a: AnimationType| #[trigger] self.state(a).anim_type == a
    }

    /// The bank of the shinobi's animations, every cursor at its first frame.
    pub fn load() -> (r: Self)
        ensures
            r.wf(),
            forall|a: AnimationType| #[trigger] r.state(a).seqs() == shinobi_sequences(a),
            forall|a: AnimationType| #[trigger]
                r.state(a).character_type == CharacterType::Shinobi,
            forall|a: AnimationType| #[trigger] r.state(a).time == 0,
            forall|a: AnimationType| #[trigger] r.state(a).sprite_frame == 0,
            forall|a: AnimationType| #[trigger] r.state(a).sequence_frame_index == 0,
            forall|a: AnimationType| #[trigger] r.state(a).sequence_index == 0,
            forall|a: AnimationType| !(#[trigger] r.state(a)).actively_playing,
            forall|a: AnimationType| #[trigger] r.state(a).always_plays == !plays_once(a),
            forall|a: AnimationType| #[trigger]
                r.state(a).is_interuptable == (a != AnimationType::SoaringKick),
    {
        let s = CharacterType::Shinobi;
        let mut states: Vec<PlayerAnimationState> = Vec::new();
        states.push(
            make_state(
                AnimationType::Idle,
                s,
                vec![AnimationSequence::new(6, 20, 0, 0, 0, 0, 93, 28)],
                true,
                true,
            ),
        );
        states.push(
            make_state(
                AnimationType::Crouch,
                s,
                vec![AnimationSequence::new(1, 20, 0, 0, 0, 0, 60, 28)],
                false,
                true,
            ),
        );
        states.push(
            make_state(
                AnimationType::ForwardRun,
                s,
                vec![AnimationSequence::new(8, 20, 0, 0, 0, 0, 93, 28)],
                true,
                true,
            ),
        );
        states.push(
            make_state(
                AnimationType::ReverseRun,
                s,
                vec![AnimationSequence::new(8, 20, 0, 0, 0, 0, 93, 28)],
                true,
                true,
            ),
        );
        states.push(
            make_state(
                AnimationType::Jump,
                s,
                vec![
                    AnimationSequence::new(1, 20, 0, 0, 0, 500, 93, 28),
                    AnimationSequence::new(2, 20, 0, 0, 0, 0, 70, 28),
                    AnimationSequence::new(4, 20, 0, 0, 0, 0, 93, 28),
                ],
                false,
                true,
            ),
        );
        states.push(
            make_state(
                AnimationType::JumpMoving,
                s,
                vec![
                    AnimationSequence::new(1, 20, 0, 0, 0, 500, 93, 28),
                    AnimationSequence::new(2, 20, 0, 0, 0, 0, 70, 28),
                    AnimationSequence::new(5, 20, 0, 0, 0, 0, 93, 28),
                ],
                false,
                true,
            ),
        );
        states.push(
            make_state(
                AnimationType::Landing,
                s,
                vec![AnimationSequence::new(2, 10, 0, 0, 0, 0, 70, 28)],
                false,
                true,
            ),
        );
        states.push(
            make_state(
                AnimationType::ForwardWalk,
                s,
                vec![AnimationSequence::new(8, 20, 0, 0, 0, 0, 93, 28)],
                true,
                true,
            ),
        );
        states.push(
            make_state(
                AnimationType::ReverseWalk,
                s,
                vec![AnimationSequence::new(8, 20, 0, 0, 0, 0, 93, 28)],
                true,
                true,
            ),
        );
        states.push(
            make_state(
                AnimationType::Attack1,
                s,
                vec![
                    AnimationSequence::new(2, 3, 0, 0, 0, 0, 93, 28),
                    AnimationSequence::new(1, 3, 0, 0, 0, 0, 93, 28),
                    AnimationSequence::new(1, 3, 0, 0, 0, 0, 93, 28),
                ],
                false,
                true,
            ),
        );
        states.push(
            make_state(
                AnimationType::Attack2,
                s,
                vec![
                    AnimationSequence::new(1, 3, 0, 0, 0, 0, 93, 28),
                    AnimationSequence::new(1, 3, 0, 0, 0, 0, 93, 28),
                    AnimationSequence::new(1, 3, 0, 0, 0, 0, 93, 28),
                ],
                false,
                true,
            ),
        );
        states.push(
            make_state(
                AnimationType::Attack3,
                s,
                vec![
                    AnimationSequence::new(2, 8, 75, 0, 0, 0, 93, 28),
                    AnimationSequence::new(1, 8, 0, 0, 0, 0, 93, 28),
                    AnimationSequence::new(1, 8, 50, 0, 0, 0, 93, 28),
                ],
                false,
                true,
            ),
        );
        states.push(
            make_state(
                AnimationType::SoaringKick,
                s,
                vec![
                    AnimationSequence::new(2, 8, 0, 0, 1250, -200i32, 93, 28),
                    AnimationSequence::new(2, 8, 0, 0, 0, 0, 93, 28),
                ],
                false,
                false,
            ),
        );
        let r = Character2Animations { states };
        assert forall|a: AnimationType|
            #[trigger] r.state(a).wf() && r.state(a).anim_type == a && r.state(a).seqs()
                =~= shinobi_sequences(a) by {
            match a {
                AnimationType::Idle => {},
                AnimationType::Crouch => {},
                AnimationType::ForwardRun => {},
                AnimationType::ReverseRun => {},
                AnimationType::Jump => {},
                AnimationType::JumpMoving => {},
                AnimationType::Landing => {},
                AnimationType::ForwardWalk => {},
                AnimationType::ReverseWalk => {},
                AnimationType::Attack1 => {},
                AnimationType::Attack2 => {},
                AnimationType::Attack3 => {},
                AnimationType::SoaringKick => {},
            }
        }
        r
    }

    /// The cursor of `anim`.
    pub fn get(&self, anim: AnimationType) -> (r: &PlayerAnimationState)
        requires
            self.wf(),
        ensures
            *r == self.state(anim),
    {
        &self.states[index_of(anim)]
    }
}

/// The frames before sequence `i` are at most `i` times the largest run.
proof fn lemma_frames_before_bounded(seqs: Seq<AnimationSequence>, i: int, bound: int)
    requires
        0 <= i <= seqs.len(),
        forall|j: int| 0 <= j < seqs.len() ==> (#[trigger] seqs[j]).frames <= bound,
    ensures
        frames_before(seqs, i) <= i * bound,
    decreases i,
{
    if i > 0 {
        lemma_frames_before_bounded(seqs, i - 1, bound);
        assert(seqs[i - 1].frames <= bound);
        assert((i - 1) * bound + bound == i * bound) by (nonlinear_arith);
    } else {
        assert(0 * bound == 0);
    }
}

/// A cursor at the first frame of a short list of short runs.
fn make_state(
    anim_type: AnimationType,
    character_type: CharacterType,
    seqs: Vec<AnimationSequence>,
    always_plays: bool,
    is_interuptable: bool,
) -> (r: PlayerAnimationState)
    requires
        1 <= seqs@.len() <= 16,
        forall|j: int|
            0 <= j < seqs@.len() ==> (#[trigger] seqs@[j]).wf() && seqs@[j].frames <= 64,
    ensures
        r.wf(),
        r.anim_type == anim_type,
        r.character_type == character_type,
        r.animation_sequence == seqs,
        r.time == 0,
        r.sprite_frame == 0,
        r.sequence_frame_index == 0,
        r.sequence_index == 0,
        !r.actively_playing,
        r.always_plays == always_plays,
        r.is_interuptable == is_interuptable,
{
    proof {
        lemma_frames_before_bounded(seqs@, seqs@.len() as int, 64);
        assert(seqs@.len() * 64 <= 1024) by (nonlinear_arith)
            requires
                seqs@.len() <= 16,
        ;
    }
    PlayerAnimationState::new(anim_type, character_type, seqs, always_plays, is_interuptable)
}

} // verus!

verus! {

/// The bank after switching from `from` to `to`: the cursor left behind is
/// rewound, and a one-shot animation starts playing.
pub open spec fn switched_states(
    states: Seq<PlayerAnimationState>,
    from: AnimationType,
    to: AnimationType,
) -> Seq<PlayerAnimationState> {
    let rewound = states.update(anim_index(from), states[anim_index(from)].reset_spec());
    let incoming = rewound[anim_index(to)];
    rewound.update(
        anim_index(to),
        if plays_once(to) {
            PlayerAnimationState { actively_playing: true, ..incoming }
        } else {
            incoming
        },
    )
}

/// The character a player controls.
pub struct Character2 {
    /// Horizontal velocity, millipixels per second, positive to the right.
    pub x_v: i64,
    /// Vertical velocity, millipixels per second, positive upward.
    pub y_v: i64,
    pub facing: Facing,
    pub animations: Character2Animations,
    /// The animation being played; its cursor is `animations.state(active)`.
    pub active: AnimationType,
    pub client_id: Option<u64>,
}

impl Character2 {
    pub open spec fn wf(&self) -> bool {
        &&& self.animations.wf()
        &&& -MAX_VELOCITY <= self.x_v
        &&& -MAX_VELOCITY <= self.y_v
    }

    /// The cursor of the animation being played.
    pub open spec fn current_state(&self) -> PlayerAnimationState {
        self.animations.state(self.active)
    }

    /// The animation that the physics step asks for.
    pub open spec fn requested(&self, input: InputState, probes: CollisionProbes) -> AnimationType {
        requested_animation(
            self.active,
            self.current_state().is_interuptable,
            input,
            probes,
            self.x_v as int,
            self.y_v as int,
        )
    }

    /// Whether the physics step switches animation: one was asked for that is
    /// not the current one, and the current one is not in the middle of
    /// playing once through.
    pub open spec fn switches(&self, input: InputState, probes: CollisionProbes) -> bool {
        self.requested(input, probes) != self.active && !self.current_state().actively_playing
    }

    /// A character standing idle, facing right, at rest.
    pub fn new(client_id: Option<u64>) -> (r: Self)
        ensures
            r.wf(),
            r.x_v == 0,
            r.y_v == 0,
            r.facing == Facing::Right,
            r.active == AnimationType::Idle,
            r.client_id == client_id,
            forall|a: AnimationType| #[trigger]
                r.animations.state(a).seqs() == shinobi_sequences(a),
            forall|a: AnimationType| #[trigger] r.animations.state(a).time == 0,
            forall|a: AnimationType| #[trigger] r.animations.state(a).sprite_frame == 0,
            forall|a: AnimationType| #[trigger] r.animations.state(a).sequence_index == 0,
            forall|a: AnimationType| #[trigger] r.animations.state(a).sequence_frame_index == 0,
            forall|a: AnimationType| !(#[trigger] r.animations.state(a)).actively_playing,
            forall|a: AnimationType| #[trigger]
                r.animations.state(a).always_plays == !plays_once(a),
            forall|a: AnimationType| #[trigger]
                r.animations.state(a).is_interuptable == (a != AnimationType::SoaringKick),
    {
        Character2 {
            x_v: 0,
            y_v: 0,
            facing: Facing::Right,
            animations: Character2Animations::load(),
            active: AnimationType::Idle,
            client_id,
        }
    }

    /// Rewinds the current cursor and makes `next` the current animation,
    /// started when it plays once through.
    fn switch_to(&mut self, next: AnimationType)
        requires
            old(self).wf(),
        ensures
            final(self).wf(),
            final(self).animations.states@ == switched_states(
                old(self).animations.states@,
                old(self).active,
                next,
            ),
            final(self).active == next,
            final(self).x_v == old(self).x_v,
            final(self).y_v == old(self).y_v,
            final(self).facing == old(self).facing,
            final(self).client_id == old(self).client_id,
    {
        let from = index_of(self.active);
        let to = index_of(next);
        assert(self.animations.state(self.active).wf());
        self.animations.states[from].reset();
        if plays_once_exec(next) {
            self.animations.states[to].actively_playing = true;
        }
        self.active = next;
        proof {
            let s = self.animations.states@;
            let expected = switched_states(old(self).animations.states@, old(self).active, next);
            assert(s =~= expected);
            assert forall|a: AnimationType| #[trigger] self.animations.state(a).wf() by {
                assert(old(self).animations.state(a).wf());
            }
            assert forall|a: AnimationType| #[trigger] self.animations.state(a).anim_type == a by {
                assert(old(self).animations.state(a).anim_type == a);
            }
        }
    }

    /// One physics step: gravity, landing, friction and walls, then input when
    /// the current animation may be interrupted, then the switch of animation.
    /// Returns the move to make, in millipixels, `y` pointing down.
    pub fn update_physics(&mut self, input: &InputState, probes: &CollisionProbes, dt_us: u64) -> (r: (
        i64,
        i64,
    ))
        requires
            old(self).wf(),
        ensures
            final(self).wf(),
            final(self).x_v == next_x_velocity(
                old(self).x_v as int,
                old(self).current_state().is_interuptable,
                *input,
                *probes,
            ),
            final(self).y_v == next_y_velocity(old(self).y_v as int, *probes, dt_us as int),
            final(self).facing == next_facing(
                old(self).facing,
                old(self).current_state().is_interuptable,
                *input,
            ),
            final(self).active == if old(self).switches(*input, *probes) {
                old(self).requested(*input, *probes)
            } else {
                old(self).active
            },
            final(self).animations.states@ == if old(self).switches(*input, *probes) {
                switched_states(
                    old(self).animations.states@,
                    old(self).active,
                    old(self).requested(*input, *probes),
                )
            } else {
                old(self).animations.states@
            },
            final(self).client_id == old(self).client_id,
            r == (
                distance(final(self).x_v as int, dt_us as int) as i64,
                distance(-final(self).y_v, dt_us as int) as i64,
            ),
    {
        let wants_crouch = input.crouch;
        let wants_walk_left = input.left;
        let wants_walk_right = input.right;
        let wants_run_left = input.left && input.run;
        let wants_run_right = input.right && input.run;
        let wants_jump = input.jump;
        let wants_attack_1 = input.attack_1;
        let wants_attack_2 = input.attack_2;
        let wants_kick = input.kick;
        let wants_nothing = !input.is_any_key_down();

        let is_grounded = probes.grounded;
        let is_airborn = !is_grounded;
        let current = self.active;
        let is_actively_playing = self.animations.get(current).actively_playing;
        let is_interuptable = self.animations.get(current).is_interuptable;
        let was_just_airborn = is_grounded && self.y_v < 0;

        let mut next_animation_state = current;

        if is_airborn {
            self.y_v = fall(self.y_v, dt_us);
            if wants_kick {
                next_animation_state = AnimationType::SoaringKick;
            }
        }
        // falling, and the ground has just been reached
        if was_just_airborn {
            self.y_v = 0;
            next_animation_state = AnimationType::Landing;
        }
        if is_grounded {
            self.x_v = 0;
        }
        if probes.colliding_left && self.x_v < 0 {
            self.x_v = 0;
        }
        if probes.colliding_right && self.x_v > 0 {
            self.x_v = 0;
        }
        if wants_nothing && is_grounded && !was_just_airborn {
            next_animation_state = AnimationType::Idle;
        }
        if is_interuptable {
            if wants_walk_left && !wants_crouch {
                self.x_v = -WALK_SPEED;
                self.facing = Facing::Left;
                if is_grounded {
                    next_animation_state = AnimationType::ReverseWalk;
                }
            }
            if wants_walk_right && !wants_crouch {
                self.x_v = WALK_SPEED;
                self.facing = Facing::Right;
                if is_grounded {
                    next_animation_state = AnimationType::ForwardWalk;
                }
            }
            if wants_run_left && !wants_crouch {
                self.x_v = -RUN_SPEED;
                self.facing = Facing::Left;
                if is_grounded {
                    next_animation_state = AnimationType::ReverseRun;
                }
            }
            if wants_run_right && !wants_crouch {
                self.x_v = RUN_SPEED;
                self.facing = Facing::Right;
                if is_grounded {
                    next_animation_state = AnimationType::ForwardRun;
                }
            }
            if wants_jump && is_grounded && !wants_crouch {
                if self.x_v == 0 {
                    next_animation_state = AnimationType::Jump;
                } else {
                    next_animation_state = AnimationType::JumpMoving;
                }
            }
            if wants_attack_1 && is_grounded {
                next_animation_state = AnimationType::Attack1;
            }
            if wants_attack_2 && is_grounded {
                next_animation_state = AnimationType::Attack2;
            }
            if wants_kick && is_grounded {
                next_animation_state = AnimationType::Attack3;
            }
            if wants_crouch {
                next_animation_state = AnimationType::Crouch;
            }
        }
        let dx = distance_in(self.x_v, dt_us);
        let dy = distance_in(-self.y_v, dt_us);

        if next_animation_state != current && !is_actively_playing {
            self.switch_to(next_animation_state);
        }
        (dx, dy)
    }
}

/// Executable form of `plays_once`.
pub fn plays_once_exec(anim: AnimationType) -> (r: bool)
    ensures
        r == plays_once(anim),
{
    match anim {
        AnimationType::Idle | AnimationType::ForwardRun | AnimationType::ReverseRun
        | AnimationType::ForwardWalk | AnimationType::ReverseWalk => false,
        _ => true,
    }
}

/// Vertical velocity after `dt_us` microseconds of free fall.
fn fall(y_v: i64, dt_us: u64) -> (r: i64)
    requires
        -MAX_VELOCITY <= y_v,
    ensures
        r == saturate(y_v - gravity_drop(dt_us as int)),
{
    assert(GRAVITY * dt_us <= 800_000 * 0xffff_ffff_ffff_ffff) by (nonlinear_arith)
        requires
            dt_us <= 0xffff_ffff_ffff_ffff,
    ;
    let drop: u128 = (GRAVITY as u128 * dt_us as u128) / (MICROS_PER_SECOND as u128);
    let v: i128 = y_v as i128 - drop as i128;
    if v < -(MAX_VELOCITY as i128) {
        -MAX_VELOCITY
    } else {
        v as i64
    }
}

} // verus!

verus! {

/// `v` as seen by a character facing `facing`: mirrored when facing left.
pub open spec fn facing_sign(facing: Facing, v: int) -> int {
    if facing == Facing::Left {
        -v
    } else {
        v
    }
}

impl Character2 {
    /// The cursors after the physics step.
    pub open spec fn states_after_physics(
        &self,
        input: InputState,
        probes: CollisionProbes,
    ) -> Seq<PlayerAnimationState> {
        if self.switches(input, probes) {
            switched_states(self.animations.states@, self.active, self.requested(input, probes))
        } else {
            self.animations.states@
        }
    }

    /// The animation played after the physics step.
    pub open spec fn active_after_physics(
        &self,
        input: InputState,
        probes: CollisionProbes,
    ) -> AnimationType {
        if self.switches(input, probes) {
            self.requested(input, probes)
        } else {
            self.active
        }
    }

    /// Applies what the current animation emitted: its move, mirrored when
    /// facing left, and its velocity change. Returns the move in millipixels.
    pub fn apply_animation_deltas(&mut self, delta: &UpdateDeltas) -> (r: (i64, i64))
        requires
            old(self).wf(),
            -MAX_VELOCITY <= delta.pos_delta.0,
            -MAX_VELOCITY <= delta.vel_delta.0,
            -MAX_VELOCITY <= delta.vel_delta.1,
        ensures
            final(self).wf(),
            r.0 == facing_sign(old(self).facing, delta.pos_delta.0 as int),
            r.1 == delta.pos_delta.1,
            final(self).x_v == saturate(
                old(self).x_v + facing_sign(old(self).facing, delta.vel_delta.0 as int),
            ),
            final(self).y_v == saturate(old(self).y_v + delta.vel_delta.1),
            final(self).facing == old(self).facing,
            final(self).animations == old(self).animations,
            final(self).active == old(self).active,
            final(self).client_id == old(self).client_id,
    {
        let dx: i64;
        if self.facing == Facing::Left {
            dx = -delta.pos_delta.0;
            self.x_v = saturating_sum(self.x_v, -delta.vel_delta.0);
        } else {
            dx = delta.pos_delta.0;
            self.x_v = saturating_sum(self.x_v, delta.vel_delta.0);
        }
        self.y_v = saturating_sum(self.y_v, delta.vel_delta.1);
        (dx, delta.pos_delta.1)
    }

    /// Advances the current animation by `dt_us` and applies what it emitted.
    /// Returns the move, in millipixels, and the hitbox width and height.
    pub fn update_animation(&mut self, dt_us: u64) -> (r: (i64, i64, i32, i32))
        requires
            old(self).wf(),
        ensures
            final(self).wf(),
            final(self).animations.states@ == old(self).animations.states@.update(
                anim_index(old(self).active),
                old(self).current_state().advanced(dt_us),
            ),
            ({
                let d = old(self).current_state().deltas(dt_us);
                &&& r.0 == facing_sign(old(self).facing, d.pos_delta.0 as int)
                &&& r.1 == d.pos_delta.1
                &&& r.2 == d.width
                &&& r.3 == d.height
                &&& final(self).x_v == saturate(
                    old(self).x_v + facing_sign(old(self).facing, d.vel_delta.0 as int),
                )
                &&& final(self).y_v == saturate(old(self).y_v + d.vel_delta.1)
            }),
            final(self).facing == old(self).facing,
            final(self).active == old(self).active,
            final(self).client_id == old(self).client_id,
    {
        let i = index_of(self.active);
        assert(self.animations.state(self.active).wf());
        proof {
            let st = self.current_state();
            let s = st.current();
            let k = st.sequence_frame_index as int;
            assert(s.wf());
            lemma_frame_share_bounded(s.x_movement as int, s.frames as int, k);
            lemma_frame_share_bounded(s.x_acceleration as int, s.frames as int, k);
            lemma_frame_share_bounded(s.y_acceleration as int, s.frames as int, k);
        }
        let deltas = self.animations.states[i].update(dt_us);
        proof {
            assert forall|a: AnimationType| #[trigger] self.animations.state(a).wf() by {
                assert(old(self).animations.state(a).wf());
            }
            assert forall|a: AnimationType| #[trigger] self.animations.state(a).anim_type == a by {
                assert(old(self).animations.state(a).anim_type == a);
            }
        }
        let (dx, dy) = self.apply_animation_deltas(&deltas);
        (dx, dy, deltas.width, deltas.height)
    }

    /// One frame of the character: the physics step, then the animation step.
    pub fn update(&mut self, input: &InputState, probes: &CollisionProbes, dt_us: u64) -> (r:
        CharacterStep)
        requires
            old(self).wf(),
        ensures
            final(self).wf(),
            ({
                let interruptible = old(self).current_state().is_interuptable;
                let x_v = next_x_velocity(old(self).x_v as int, interruptible, *input, *probes);
                let y_v = next_y_velocity(old(self).y_v as int, *probes, dt_us as int);
                let facing = next_facing(old(self).facing, interruptible, *input);
                let states = old(self).states_after_physics(*input, *probes);
                let active = old(self).active_after_physics(*input, *probes);
                let st = states[anim_index(active)];
                let d = st.deltas(dt_us);
                &&& r.physics_dx == distance(x_v, dt_us as int)
                &&& r.physics_dy == distance(-y_v, dt_us as int)
                &&& r.animation_dx == facing_sign(facing, d.pos_delta.0 as int)
                &&& r.animation_dy == d.pos_delta.1
                &&& r.width == d.width
                &&& r.height == d.height
                &&& final(self).x_v == saturate(x_v + facing_sign(facing, d.vel_delta.0 as int))
                &&& final(self).y_v == saturate(y_v + d.vel_delta.1)
                &&& final(self).facing == facing
                &&& final(self).active == active
                &&& final(self).animations.states@ == states.update(
                    anim_index(active),
                    st.advanced(dt_us),
                )
            }),
            final(self).client_id == old(self).client_id,
    {
        let (physics_dx, physics_dy) = self.update_physics(input, probes, dt_us);
        let (animation_dx, animation_dy, width, height) = self.update_animation(dt_us);
        CharacterStep { physics_dx, physics_dy, animation_dx, animation_dy, width, height }
    }

    pub fn set_client_id(&mut self)
        ensures
            *final(self) == (Character2 { client_id: Some(0), ..*old(self) }),
    {
        self.client_id = Some(0);
    }

    pub fn get_client_id(&self) -> (r: Option<u64>)
        ensures
            r == self.client_id,
    {
        self.client_id
    }

    pub fn get_anim_type(&self) -> (r: AnimationType)
        requires
            self.wf(),
        ensures
            r == self.active,
            r == self.current_state().anim_type,
    {
        self.active
    }

    pub fn get_character_type(&self) -> (r: CharacterType)
        requires
            self.wf(),
        ensures
            r == self.current_state().character_type,
    {
        self.animations.get(self.active).character_type
    }

    pub fn get_facing(&self) -> (r: Facing)
        ensures
            r == self.facing,
    {
        self.facing
    }

    /// The sprite frame to draw.
    pub fn get_sprite_frame(&self) -> (r: usize)
        requires
            self.wf(),
        ensures
            r == self.current_state().sprite_frame,
    {
        self.animations.get(self.active).sprite_frame
    }

    /// Horizontal and vertical velocity, in millipixels per second.
    pub fn get_velocity(&self) -> (r: (i64, i64))
        ensures
            r == (self.x_v, self.y_v),
    {
        (self.x_v, self.y_v)
    }
}

} // verus!
