//! The snapshot of a character that client and server exchange, and the two
//! rules both sides apply when a new snapshot replaces a stored one.
use vstd::prelude::*;

use crate::animation::{AnimationType, CharacterType, Facing};
use crate::constants::{DEFAULT_PLAYER_HEIGHT, DEFAULT_PLAYER_WIDTH};

verus! {

/// One character as sent over the network. Positions are whole pixels, as
/// the physics world keeps them.
#[derive(Clone, Copy, Debug, PartialEq, Eq, Structural)]
pub struct ServerClient {
    pub x_pos: i32,
    pub y_pos: i32,
    /// Position before the last update, kept by the receiver for interpolation.
    pub prev_x_pos: i32,
    pub prev_y_pos: i32,
    pub height: i32,
    pub width: i32,
    pub facing: Facing,
    /// Selects the texture.
    pub anim_type: AnimationType,
    pub character_type: CharacterType,
    /// Index into the whole sprite sheet.
    pub sprite_frame: usize,
}

pub open spec fn default_server_client() -> ServerClient {
    ServerClient {
        x_pos: 0,
        y_pos: 0,
        prev_x_pos: 0,
        prev_y_pos: 0,
        height: DEFAULT_PLAYER_HEIGHT,
        width: DEFAULT_PLAYER_WIDTH,
        facing: Facing::Right,
        anim_type: AnimationType::Idle,
        character_type: CharacterType::Fighter,
        sprite_frame: 0,
    }
}

impl Default for ServerClient {
    /// A fighter standing idle at the origin, facing right, at the default size.
    fn default() -> (r: Self)
        ensures
            r == default_server_client(),
    {
        ServerClient {
            x_pos: 0,
            y_pos: 0,
            prev_x_pos: 0,
            prev_y_pos: 0,
            height: DEFAULT_PLAYER_HEIGHT,
            width: DEFAULT_PLAYER_WIDTH,
            facing: Facing::Right,
            anim_type: AnimationType::Idle,
            character_type: CharacterType::Fighter,
            sprite_frame: 0,
        }
    }
}

/// The entry stored under `id` in `m`, if any.
pub open spec fn stored_in(m: Map<u64, ServerClient>, id: u64) -> Option<ServerClient> {
    if m.contains_key(id) {
        Some(m[id])
    } else {
        None
    }
}

/// Whether `incoming` differs enough from what is stored to be sent on: there
/// is nothing stored yet, or the position, the animation or the sprite frame
/// changed. Size, facing and archetype alone do not count.
pub open spec fn needs_broadcast(stored: Option<ServerClient>, incoming: ServerClient) -> bool {
    match stored {
        None => true,
        Some(s) => s.x_pos != incoming.x_pos || s.y_pos != incoming.y_pos || s.anim_type
            != incoming.anim_type || s.sprite_frame != incoming.sprite_frame,
    }
}

/// What replaces `stored` when `incoming` arrives: `incoming` itself, whose
/// previous position is the stored position when there was one. The previous
/// position that the sender wrote is kept only for a first entry.
pub open spec fn merged(stored: Option<ServerClient>, incoming: ServerClient) -> ServerClient {
    match stored {
        None => incoming,
        Some(s) => ServerClient { prev_x_pos: s.x_pos, prev_y_pos: s.y_pos, ..incoming },
    }
}

/// Executable form of `needs_broadcast`.
pub fn has_changed(stored: Option<&ServerClient>, incoming: &ServerClient) -> (r: bool)
    ensures
        r == needs_broadcast(
            match stored {
                Some(s) => Some(*s),
                None => None,
            },
            *incoming,
        ),
{
    match stored {
        None => true,
        Some(s) => s.x_pos != incoming.x_pos || s.y_pos != incoming.y_pos || s.anim_type
            != incoming.anim_type || s.sprite_frame != incoming.sprite_frame,
    }
}

/// Executable form of `merged`.
pub fn shifted(stored: Option<&ServerClient>, incoming: &ServerClient) -> (r: ServerClient)
    ensures
        r == merged(
            match stored {
                Some(s) => Some(*s),
                None => None,
            },
            *incoming,
        ),
{
    match stored {
        None => *incoming,
        Some(s) => ServerClient { prev_x_pos: s.x_pos, prev_y_pos: s.y_pos, ..*incoming },
    }
}

/// Sending the same snapshot twice in a row: the first is sent on when
/// nothing was stored or the stored state differs in position, animation or
/// sprite frame; the second is never sent on.
pub proof fn lemma_repeat_is_filtered(stored: Option<ServerClient>, incoming: ServerClient)
    ensures
        needs_broadcast(stored, incoming) <==> (stored is None || stored->0.x_pos
            != incoming.x_pos || stored->0.y_pos != incoming.y_pos || stored->0.anim_type
            != incoming.anim_type || stored->0.sprite_frame != incoming.sprite_frame),
        !needs_broadcast(Some(merged(stored, incoming)), incoming),
{
}

/// Two updates `a` then `b` for one client leave `a`'s position as the
/// previous position and `b`'s as the current one.
pub proof fn lemma_previous_position_shift(
    stored: Option<ServerClient>,
    a: ServerClient,
    b: ServerClient,
)
    ensures
        merged(Some(merged(stored, a)), b).prev_x_pos == a.x_pos,
        merged(Some(merged(stored, a)), b).prev_y_pos == a.y_pos,
        merged(Some(merged(stored, a)), b).x_pos == b.x_pos,
        merged(Some(merged(stored, a)), b).y_pos == b.y_pos,
{
}

} // verus!
