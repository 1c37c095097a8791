//! Sprite animation playback: sequences of frames with their own playback
//! rate, and the per-character cursor that walks through them.
//!
//! Units: time is counted in whole microseconds, movement emitted per frame in
//! millipixels, velocity change in millipixels per second.
use vstd::prelude::*;

verus! {

/// Microseconds in one second.
pub const MICROS_PER_SECOND: u64 = 1_000_000;

/// Millipixels in one pixel.
pub const MILLIS_PER_PIXEL: i64 = 1000;

/// Which way a character looks; sprites are mirrored when facing left.
#[derive(Clone, Copy, Debug, PartialEq, Eq, Structural)]
pub enum Facing {
    Left,
    Right,
}

/// The animations a character can play.
#[derive(Clone, Copy, Debug, PartialEq, Eq, Structural)]
pub enum AnimationType {
    Idle,
    Crouch,
    ForwardRun,
    ReverseRun,
    Jump,
    JumpMoving,
    Landing,
    ForwardWalk,
    ReverseWalk,
    Attack1,
    Attack2,
    Attack3,
    SoaringKick,
}

/// The character archetypes; each has its own sprite sheets.
#[derive(Clone, Copy, Debug, PartialEq, Eq, Structural)]
pub enum CharacterType {
    Fighter,
    Shinobi,
    Samurai,
}

/// The sprite sheet that an animation draws from. Several animations share
/// one sheet (both runs, both walks, both jumps, the third attack and the
/// soaring kick).
#[derive(Clone, Copy, Debug, PartialEq, Eq, Structural)]
pub enum TextureSlot {
    Idle,
    Crouch,
    Run,
    Jump,
    Landing,
    Walk,
    Attack1,
    Attack2,
    Attack3,
}

pub open spec fn texture_slot_of(anim: AnimationType) -> TextureSlot {
    match anim {
        AnimationType::Idle => TextureSlot::Idle,
        AnimationType::Crouch => TextureSlot::Crouch,
        AnimationType::ForwardRun | AnimationType::ReverseRun => TextureSlot::Run,
        AnimationType::Jump | AnimationType::JumpMoving => TextureSlot::Jump,
        AnimationType::Landing => TextureSlot::Landing,
        AnimationType::ForwardWalk | AnimationType::ReverseWalk => TextureSlot::Walk,
        AnimationType::Attack1 => TextureSlot::Attack1,
        AnimationType::Attack2 => TextureSlot::Attack2,
        AnimationType::Attack3 | AnimationType::SoaringKick => TextureSlot::Attack3,
    }
}

/// The sprite sheet to draw `anim` from.
pub fn texture_slot(anim: AnimationType) -> (r: TextureSlot)
    ensures
        r == texture_slot_of(anim),
{
    match anim {
        AnimationType::Idle => TextureSlot::Idle,
        AnimationType::Crouch => TextureSlot::Crouch,
        AnimationType::ForwardRun | AnimationType::ReverseRun => TextureSlot::Run,
        AnimationType::Jump | AnimationType::JumpMoving => TextureSlot::Jump,
        AnimationType::Landing => TextureSlot::Landing,
        AnimationType::ForwardWalk | AnimationType::ReverseWalk => TextureSlot::Walk,
        AnimationType::Attack1 => TextureSlot::Attack1,
        AnimationType::Attack2 => TextureSlot::Attack2,
        AnimationType::Attack3 | AnimationType::SoaringKick => TextureSlot::Attack3,
    }
}

/// A run of sprite frames that share one playback rate, one total motion and
/// one hitbox size.
#[derive(Clone, Copy, Debug)]
pub struct AnimationSequence {
    /// Number of frames in the run; positive.
    pub frames: usize,
    /// Frames per second; positive.
    pub fps: u64,
    /// Horizontal displacement over the whole run, in pixels.
    pub x_movement: i32,
    /// Vertical displacement over the whole run, in pixels.
    pub y_movement: i32,
    /// Horizontal velocity change over the whole run, in pixels per second.
    pub x_acceleration: i32,
    /// Vertical velocity change over the whole run, in pixels per second.
    pub y_acceleration: i32,
    /// Hitbox height while the run plays (an absolute value).
    pub height: i32,
    /// Hitbox width while the run plays (an absolute value).
    pub width: i32,
}

impl AnimationSequence {
    pub open spec fn wf(&self) -> bool {
        self.frames > 0 && self.fps > 0
    }

    /// How long one frame is shown, in whole microseconds. A frame advances
    /// once the accumulated time exceeds this.
    pub open spec fn period(&self) -> int {
        MICROS_PER_SECOND as int / self.fps as int
    }

    pub fn new(
        frames: usize,
        fps: u64,
        x_movement: i32,
        y_movement: i32,
        x_acceleration: i32,
        y_acceleration: i32,
        height: i32,
        width: i32,
    ) -> (r: Self)
        ensures
            r == (AnimationSequence {
                frames,
                fps,
                x_movement,
                y_movement,
                x_acceleration,
                y_acceleration,
                height,
                width,
            }),
    {
        AnimationSequence {
            frames,
            fps,
            x_movement,
            y_movement,
            x_acceleration,
            y_acceleration,
            height,
            width,
        }
    }

    pub fn frame_period_us(&self) -> (r: u64)
        requires
            self.fps > 0,
        ensures
            r == self.period(),
    {
        MICROS_PER_SECOND / self.fps
    }
}

/// The part of `total` pixels, counted in millipixels, that frame `k` of a run
/// of `frames` frames emits. Every frame gets the same share, truncated toward
/// zero; the last frame also takes what the truncation left over, so that the
/// shares add up to the total exactly.
pub open spec fn frame_share(total: int, frames: int, k: int) -> int {
    let m = millis_magnitude(total);
    with_sign_of(total, if k + 1 < frames { m / frames } else { m / frames + m % frames })
}

/// `|total|` pixels in millipixels.
pub open spec fn millis_magnitude(total: int) -> int {
    if total >= 0 { total * 1000 } else { -total * 1000 }
}

/// `v` with the sign of `total`.
pub open spec fn with_sign_of(total: int, v: int) -> int {
    if total >= 0 { v } else { -v }
}

/// Sum of the shares of frames `0 .. n`.
pub open spec fn shares_sum(total: int, frames: int, n: nat) -> int
    decreases n,
{
    if n == 0 {
        0
    } else {
        shares_sum(total, frames, (n - 1) as nat) + frame_share(total, frames, n - 1)
    }
}

/// Executable form of `frame_share`.
pub fn share_of_frame(total: i32, frames: usize, k: usize) -> (r: i64)
    requires
        frames > 0,
        k < frames,
    ensures
        r == frame_share(total as int, frames as int, k as int),
{
    let magnitude: u64 = if total >= 0 {
        (total as i64 * MILLIS_PER_PIXEL) as u64
    } else {
        (-(total as i64) * MILLIS_PER_PIXEL) as u64
    };
    let n: u64 = frames as u64;
    let q: u64 = magnitude / n;
    let rem: u64 = magnitude % n;
    proof {
        vstd::arithmetic::div_mod::lemma_fundamental_div_mod(magnitude as int, n as int);
        assert(q + rem <= magnitude) by (nonlinear_arith)
            requires
                magnitude == n * q + rem,
                rem >= 0,
                q >= 0,
                n >= 1,
        ;
    }
    let part: u64 = if k + 1 < frames {
        q
    } else {
        q + rem
    };
    if total >= 0 {
        part as i64
    } else {
        -(part as i64)
    }
}

/// What one call of `PlayerAnimationState::update` hands to the physics step.
#[derive(Clone, Copy, Debug)]
pub struct UpdateDeltas {
    /// Position change, in millipixels.
    pub pos_delta: (i64, i64),
    /// Velocity change, in millipixels per second.
    pub vel_delta: (i64, i64),
    /// Hitbox height to apply.
    pub height: i32,
    /// Hitbox width to apply.
    pub width: i32,
}

impl Default for UpdateDeltas {
    /// No motion and a zero size.
    fn default() -> (r: Self)
        ensures
            r == (UpdateDeltas { pos_delta: (0, 0), vel_delta: (0, 0), height: 0, width: 0 }),
    {
        UpdateDeltas { pos_delta: (0, 0), vel_delta: (0, 0), height: 0, width: 0 }
    }
}

/// Frames of the sequences before sequence `i`: the sprite frame at which
/// sequence `i` starts.
pub open spec fn frames_before(seqs: Seq<AnimationSequence>, i: int) -> int
    decreases i,
{
    if i <= 0 {
        0
    } else {
        frames_before(seqs, i - 1) + seqs[i - 1].frames
    }
}

/// The playback cursor of one animation of one character.
pub struct PlayerAnimationState {
    pub anim_type: AnimationType,
    pub character_type: CharacterType,
    /// Time accumulated in the current frame, in microseconds.
    pub time: u64,
    /// Index into the whole sprite sheet (not into the current sequence).
    pub sprite_frame: usize,
    /// The sequences played one after the other.
    pub animation_sequence: Vec<AnimationSequence>,
    /// The sequence being played.
    pub sequence_index: usize,
    /// The frame being shown within the current sequence.
    pub sequence_frame_index: usize,
    /// Set while a one-shot animation has not finished.
    pub actively_playing: bool,
    /// Loops forever (idle, walk, run).
    pub always_plays: bool,
    /// Whether input may switch to another animation while this one plays.
    pub is_interuptable: bool,
}

impl PlayerAnimationState {
    pub open spec fn seqs(&self) -> Seq<AnimationSequence> {
        self.animation_sequence@
    }

    pub open spec fn current(&self) -> AnimationSequence {
        self.seqs()[self.sequence_index as int]
    }

    /// Number of frames over all sequences.
    pub open spec fn total_frames(&self) -> int {
        frames_before(self.seqs(), self.seqs().len() as int)
    }

    pub open spec fn wf(&self) -> bool {
        &&& self.seqs().len() > 0
        &&& forall|i: int| 0 <= i < self.seqs().len() ==> (#[trigger] self.seqs()[i]).wf()
        &&& self.total_frames() <= usize::MAX
        &&& self.sequence_index < self.seqs().len()
        &&& self.sequence_frame_index < self.current().frames
        &&& self.sprite_frame == frames_before(self.seqs(), self.sequence_index as int)
            + self.sequence_frame_index
    }

    /// The state after one call of `update` with `dt` microseconds elapsed.
    pub open spec fn advanced(self, dt: u64) -> Self {
        let s = self.current();
        let t = self.time.saturating_add(dt);
        if !(self.actively_playing || self.always_plays) {
            self
        } else if t <= s.period() {
            PlayerAnimationState { time: t, ..self }
        } else if self.sequence_frame_index + 1 < s.frames {
            PlayerAnimationState {
                time: 0,
                sprite_frame: (self.sprite_frame + 1) as usize,
                sequence_frame_index: (self.sequence_frame_index + 1) as usize,
                ..self
            }
        } else if self.sequence_index + 1 < self.seqs().len() {
            PlayerAnimationState {
                time: 0,
                sprite_frame: (self.sprite_frame + 1) as usize,
                sequence_frame_index: 0,
                sequence_index: (self.sequence_index + 1) as usize,
                ..self
            }
        } else if self.always_plays {
            PlayerAnimationState {
                time: 0,
                sprite_frame: 0,
                sequence_frame_index: 0,
                sequence_index: 0,
                ..self
            }
        } else {
            PlayerAnimationState { time: 0, actively_playing: false, ..self }
        }
    }

    /// Whether a call of `update` with `dt` microseconds elapsed moves on by a frame.
    pub open spec fn crosses_frame(self, dt: u64) -> bool {
        (self.actively_playing || self.always_plays) && self.time.saturating_add(dt)
            > self.current().period()
    }

    /// What one call of `update` with `dt` microseconds elapsed returns.
    pub open spec fn deltas(self, dt: u64) -> UpdateDeltas {
        let s = self.current();
        let k = self.sequence_frame_index as int;
        let n = s.frames as int;
        if self.crosses_frame(dt) {
            UpdateDeltas {
                pos_delta: (
                    frame_share(s.x_movement as int, n, k) as i64,
                    frame_share(s.y_movement as int, n, k) as i64,
                ),
                vel_delta: (
                    frame_share(s.x_acceleration as int, n, k) as i64,
                    frame_share(s.y_acceleration as int, n, k) as i64,
                ),
                height: s.height,
                width: s.width,
            }
        } else {
            UpdateDeltas { pos_delta: (0, 0), vel_delta: (0, 0), height: s.height, width: s.width }
        }
    }

    /// The state that `reset` leaves.
    pub open spec fn reset_spec(self) -> Self {
        PlayerAnimationState {
            time: 0,
            sprite_frame: 0,
            sequence_index: 0,
            sequence_frame_index: 0,
            actively_playing: false,
            ..self
        }
    }

    /// A cursor at the first frame of `animation_sequence`, not playing.
    pub fn new(
        anim_type: AnimationType,
        character_type: CharacterType,
        animation_sequence: Vec<AnimationSequence>,
        always_plays: bool,
        is_interuptable: bool,
    ) -> (r: Self)
        requires
            animation_sequence@.len() > 0,
            forall|i: int|
                0 <= i < animation_sequence@.len() ==> (#[trigger] animation_sequence@[i]).wf(),
            frames_before(animation_sequence@, animation_sequence@.len() as int) <= usize::MAX,
        ensures
            r.wf(),
            r == (PlayerAnimationState {
                anim_type,
                character_type,
                time: 0,
                sprite_frame: 0,
                animation_sequence,
                sequence_index: 0,
                sequence_frame_index: 0,
                actively_playing: false,
                always_plays,
                is_interuptable,
            }),
    {
        PlayerAnimationState {
            anim_type,
            character_type,
            time: 0,
            sprite_frame: 0,
            animation_sequence,
            sequence_index: 0,
            sequence_frame_index: 0,
            actively_playing: false,
            always_plays,
            is_interuptable,
        }
    }

    /// Advances the cursor by `frame_time_us` microseconds and returns the
    /// motion and hitbox size for this step.
    pub fn update(&mut self, frame_time_us: u64) -> (r: UpdateDeltas)
        requires
            old(self).wf(),
        ensures
            final(self).wf(),
            *final(self) == old(self).advanced(frame_time_us),
            r == old(self).deltas(frame_time_us),
    {
        proof {
            lemma_frames_before_monotone(self.seqs(), self.sequence_index as int + 1, self.seqs().len() as int);
        }
        let sequence = match self.animation_sequence.get(self.sequence_index) {
            Some(sequence) => *sequence,
            None => return UpdateDeltas::default(),
        };
        let mut delta = UpdateDeltas::default();
        delta.height = sequence.height;
        delta.width = sequence.width;

        if self.actively_playing || self.always_plays {
            self.time = self.time.saturating_add(frame_time_us);

            if self.time > sequence.frame_period_us() {
                let k = self.sequence_frame_index;
                let n = sequence.frames;
                delta.pos_delta.0 = share_of_frame(sequence.x_movement, n, k);
                delta.pos_delta.1 = share_of_frame(sequence.y_movement, n, k);
                delta.vel_delta.0 = share_of_frame(sequence.x_acceleration, n, k);
                delta.vel_delta.1 = share_of_frame(sequence.y_acceleration, n, k);

                let is_last_sequence = self.sequence_index + 1 == self.animation_sequence.len();
                let is_last_sequence_frame = self.sequence_frame_index + 1 == n;

                if !is_last_sequence_frame {
                    self.sprite_frame = self.sprite_frame + 1;
                    self.sequence_frame_index = self.sequence_frame_index + 1;
                } else if !is_last_sequence {
                    self.sprite_frame = self.sprite_frame + 1;
                    self.sequence_frame_index = 0;
                    self.sequence_index = self.sequence_index + 1;
                } else if self.always_plays {
                    self.sequence_index = 0;
                    self.sequence_frame_index = 0;
                    self.sprite_frame = 0;
                } else {
                    self.actively_playing = false;
                }

                self.time = 0;
            }
        }
        delta
    }

    /// Rewinds to the first frame and stops playing.
    pub fn reset(&mut self)
        requires
            old(self).wf(),
        ensures
            final(self).wf(),
            *final(self) == old(self).reset_spec(),
    {
        self.time = 0;
        self.sequence_frame_index = 0;
        self.sequence_index = 0;
        self.sprite_frame = 0;
        self.actively_playing = false;
    }
}

/// `frames_before` grows with the index, by at least the frames in between.
pub proof fn lemma_frames_before_monotone(seqs: Seq<AnimationSequence>, a: int, b: int)
    requires
        0 <= a <= b <= seqs.len(),
        forall|i: int| 0 <= i < seqs.len() ==> (#[trigger] seqs[i]).wf(),
    ensures
        frames_before(seqs, a) <= frames_before(seqs, b),
        a < b ==> frames_before(seqs, a) + seqs[a].frames <= frames_before(seqs, b),
        frames_before(seqs, b) - frames_before(seqs, a) >= b - a,
    decreases b - a,
{
    if a < b {
        lemma_frames_before_monotone(seqs, a, b - 1);
        assert(seqs[b - 1].wf());
    }
}

impl PlayerAnimationState {
    /// The shortest frame time, in microseconds, that moves the current frame on.
    pub open spec fn crossing_time(self) -> u64 {
        (self.current().period() + 1) as u64
    }

    /// The state after `n` calls of `update`, each given the crossing time of
    /// the sequence being played at that call.
    pub open spec fn played(self, n: nat) -> Self
        decreases n,
    {
        if n == 0 {
            self
        } else {
            let c = self.played((n - 1) as nat);
            c.advanced(c.crossing_time())
        }
    }
}

/// One step of `update` keeps the cursor well formed and leaves everything
/// but the cursor fields as it was.
pub proof fn lemma_advanced_wf(st: PlayerAnimationState, dt: u64)
    requires
        st.wf(),
    ensures
        st.advanced(dt).wf(),
        st.advanced(dt).animation_sequence == st.animation_sequence,
        st.advanced(dt).always_plays == st.always_plays,
        st.advanced(dt).anim_type == st.anim_type,
        st.advanced(dt).is_interuptable == st.is_interuptable,
{
    let seqs = st.seqs();
    let i = st.sequence_index as int;
    lemma_frames_before_monotone(seqs, i + 1, seqs.len() as int);
    assert(seqs[i].wf());
    assert(frames_before(seqs, i + 1) == frames_before(seqs, i) + seqs[i].frames);
    if i + 1 < seqs.len() {
        assert(seqs[i + 1].wf());
    }
    assert(frames_before(seqs, 0) == 0);
    assert(seqs[0].wf());
    lemma_frames_before_monotone(seqs, 0, seqs.len() as int);
}

/// Sequence completion: a one-shot animation started from its first frame and
/// driven, call after call, with a frame time just over the period of the
/// sequence being played shows sprite frame `m` after `m` calls, inside the
/// sequence that holds that frame, while it keeps playing; after as many calls
/// as it has frames in all, it has stopped.
pub proof fn lemma_one_shot_plays_every_frame_once(st: PlayerAnimationState)
    requires
        st.wf(),
        st.time == 0,
        st.sequence_index == 0,
        st.sequence_frame_index == 0,
        st.actively_playing,
        !st.always_plays,
    ensures
        forall|m: nat|
            m < st.total_frames() ==> {
                let c = #[trigger] st.played(m);
                &&& c.actively_playing
                &&& c.sprite_frame == m
                &&& frames_before(st.seqs(), c.sequence_index as int) <= m
                &&& m < frames_before(st.seqs(), c.sequence_index as int + 1)
            },
        !st.played(st.total_frames() as nat).actively_playing,
{
    let total = st.total_frames();
    let seqs = st.seqs();
    lemma_frames_before_monotone(seqs, 0, seqs.len() as int);
    assert forall|m: nat| m < total implies {
        let c = #[trigger] st.played(m);
        &&& c.actively_playing
        &&& c.sprite_frame == m
        &&& frames_before(seqs, c.sequence_index as int) <= m
        &&& m < frames_before(seqs, c.sequence_index as int + 1)
    } by {
        lemma_played_prefix(st, m);
    }
    let last = (total - 1) as nat;
    lemma_played_prefix(st, last);
    let c = st.played(last);
    let i = c.sequence_index as int;
    lemma_frames_before_monotone(seqs, i + 1, seqs.len() as int);
    if i + 1 < seqs.len() {
        lemma_frames_before_monotone(seqs, i + 1, seqs.len() as int);
        assert(seqs[i + 1].wf());
    }
    assert(c.sequence_frame_index + 1 == c.current().frames);
    assert(c.sequence_index + 1 == seqs.len());
}

/// The cursor after `m` calls of a one-shot run that has not reached its
/// last frame yet.
proof fn lemma_played_prefix(st: PlayerAnimationState, m: nat)
    requires
        st.wf(),
        st.time == 0,
        st.sequence_index == 0,
        st.sequence_frame_index == 0,
        st.actively_playing,
        !st.always_plays,
        m < st.total_frames(),
    ensures
        st.played(m).wf(),
        st.played(m).time == 0,
        st.played(m).actively_playing,
        st.played(m).sprite_frame == m,
        st.played(m).animation_sequence == st.animation_sequence,
        st.played(m).always_plays == st.always_plays,
        frames_before(st.seqs(), st.played(m).sequence_index as int) <= m,
        m < frames_before(st.seqs(), st.played(m).sequence_index as int + 1),
    decreases m,
{
    if m > 0 {
        lemma_played_prefix(st, (m - 1) as nat);
        let c = st.played((m - 1) as nat);
        lemma_advanced_wf(c, c.crossing_time());
        assert(c.current().wf());
    }
}

/// Looping: an animation that always plays never reports completion. A call
/// of `update` leaves `actively_playing` as it was, and the call that moves on
/// from the last frame of the last sequence starts again at sequence 0,
/// frame 0, sprite frame 0.
pub proof fn lemma_looping_restarts(st: PlayerAnimationState, dt: u64)
    requires
        st.wf(),
        st.always_plays,
    ensures
        st.advanced(dt).actively_playing == st.actively_playing,
        st.crosses_frame(dt) && st.sequence_index + 1 == st.seqs().len()
            && st.sequence_frame_index + 1 == st.current().frames ==> {
            &&& st.advanced(dt).sequence_index == 0
            &&& st.advanced(dt).sequence_frame_index == 0
            &&& st.advanced(dt).sprite_frame == 0
        },
{
}

/// Motion conservation: the shares that the frames of a run emit add up to
/// the run's total, whatever its number of frames. A sequence moving
/// `total` pixels over `frames` frames emits `1000 * total` millipixels in all.
pub proof fn lemma_sequence_motion_total(total: int, frames: int)
    requires
        frames > 0,
    ensures
        shares_sum(total, frames, frames as nat) == total * 1000,
{
    let m = millis_magnitude(total);
    let q = m / frames;
    let r = m % frames;
    lemma_shares_before_last(total, frames, (frames - 1) as nat);
    vstd::arithmetic::div_mod::lemma_fundamental_div_mod(m, frames);
    assert((frames - 1) * q + (q + r) == frames * q + r) by (nonlinear_arith);
    assert((frames - 1) * (-q) + (-(q + r)) == -(frames * q + r)) by (nonlinear_arith);
}

/// A frame's share is never more than the run's total.
pub proof fn lemma_frame_share_bounded(total: int, frames: int, k: int)
    requires
        frames > 0,
    ensures
        -millis_magnitude(total) <= frame_share(total, frames, k) <= millis_magnitude(total),
{
    let m = millis_magnitude(total);
    vstd::arithmetic::div_mod::lemma_fundamental_div_mod(m, frames);
    assert(m / frames + m % frames <= m) by (nonlinear_arith)
        requires
            m == frames * (m / frames) + m % frames,
            m % frames >= 0,
            m / frames >= 0,
            frames >= 1,
    ;
}

/// Before the last frame, every frame emits the same share.
proof fn lemma_shares_before_last(total: int, frames: int, n: nat)
    requires
        frames > 0,
        n < frames,
    ensures
        shares_sum(total, frames, n) == n * with_sign_of(total, millis_magnitude(total) / frames),
    decreases n,
{
    if n > 0 {
        lemma_shares_before_last(total, frames, (n - 1) as nat);
        let sq = with_sign_of(total, millis_magnitude(total) / frames);
        assert(frame_share(total, frames, n - 1) == sq);
        assert(n * sq == (n - 1) * sq + sq) by (nonlinear_arith);
    } else {
        assert(0 * with_sign_of(total, millis_magnitude(total) / frames) == 0);
    }
}

} // verus!
