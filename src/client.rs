//! The client's view of the other players: the states the server broadcast,
//! each with the position it had before, and the blend between the two that
//! is drawn until the next broadcast arrives.
use std::collections::HashMap;
use vstd::prelude::*;

use crate::character::Character2;
use crate::constants::SERVER_UPDATE_INTERVAL_US;
use crate::wire::{default_server_client, merged, shifted, stored_in, ServerClient};

verus! {

broadcast use vstd::std_specs::hash::group_hash_axioms;

/// `a` moved toward `b` by the fraction `elapsed / interval` of the way,
/// the fraction clamped to `[0, 1]`, rounded toward `a`.
pub open spec fn lerp_spec(a: int, b: int, elapsed: int, interval: int) -> int {
    let e = if elapsed < 0 {
        0
    } else if elapsed > interval {
        interval
    } else {
        elapsed
    };
    if b >= a {
        a + (b - a) * e / interval
    } else {
        a - (a - b) * e / interval
    }
}

/// The position drawn `elapsed_us` microseconds after a snapshot moved a
/// player from `a` to `b`, when snapshots come every `interval_us`.
pub fn lerp(a: i32, b: i32, elapsed_us: u64, interval_us: u64) -> (r: i32)
    requires
        interval_us > 0,
    ensures
        r == lerp_spec(a as int, b as int, elapsed_us as int, interval_us as int),
{
    let e: u64 = if elapsed_us > interval_us {
        interval_us
    } else {
        elapsed_us
    };
    let span: u64 = if b >= a {
        (b as i64 - a as i64) as u64
    } else {
        (a as i64 - b as i64) as u64
    };
    assert(span * e <= 0x2_0000_0000 * 0xffff_ffff_ffff_ffff) by (nonlinear_arith)
        requires
            span <= 0x2_0000_0000,
            e <= 0xffff_ffff_ffff_ffff,
    ;
    let product: u128 = span as u128 * e as u128;
    let step: u128 = product / interval_us as u128;
    proof {
        assert(span * e <= span * interval_us) by (nonlinear_arith)
            requires
                e <= interval_us,
        ;
        vstd::arithmetic::div_mod::lemma_div_is_ordered(
            (span * e) as int,
            (span * interval_us) as int,
            interval_us as int,
        );
        vstd::arithmetic::div_mod::lemma_div_by_multiple(span as int, interval_us as int);
    }
    if b >= a {
        (a as i64 + step as i64) as i32
    } else {
        (a as i64 - step as i64) as i32
    }
}

/// Interpolation stays between its ends: at no elapsed time it gives the old
/// position, from one full interval on the new one, and in between (or
/// before, or after) never anything outside the two.
pub proof fn lemma_lerp_bounds(a: int, b: int, elapsed: int, interval: int)
    requires
        interval > 0,
    ensures
        lerp_spec(a, b, 0, interval) == a,
        elapsed >= interval ==> lerp_spec(a, b, elapsed, interval) == b,
        (if a <= b { a } else { b }) <= lerp_spec(a, b, elapsed, interval),
        lerp_spec(a, b, elapsed, interval) <= (if a <= b { b } else { a }),
{
    let e = if elapsed < 0 {
        0
    } else if elapsed > interval {
        interval
    } else {
        elapsed
    };
    let span = if b >= a { b - a } else { a - b };
    assert(0 <= span * e <= span * interval) by (nonlinear_arith)
        requires
            0 <= e <= interval,
            span >= 0,
    ;
    vstd::arithmetic::div_mod::lemma_div_is_ordered(0, span * e, interval);
    vstd::arithmetic::div_mod::lemma_div_is_ordered(span * e, span * interval, interval);
    vstd::arithmetic::div_mod::lemma_div_by_multiple(span, interval);
    assert(span * 0 == 0);
    vstd::arithmetic::div_mod::lemma_div_by_multiple(0, interval);
}

/// The cache after taking in `batch`: every entry but the client's own
/// replaces the cached one, whose position becomes the previous position.
pub open spec fn applied(
    m: Map<u64, ServerClient>,
    batch: Seq<(u64, ServerClient)>,
    own: u64,
) -> Map<u64, ServerClient>
    decreases batch.len(),
{
    if batch.len() == 0 {
        m
    } else {
        let before = applied(m, batch.drop_last(), own);
        let (id, state) = batch.last();
        if id == own {
            before
        } else {
            before.insert(id, merged(stored_in(before, id), state))
        }
    }
}

/// The cache after taking in `batches` one after the other.
pub open spec fn applied_all(
    m: Map<u64, ServerClient>,
    batches: Seq<Vec<(u64, ServerClient)>>,
    own: u64,
) -> Map<u64, ServerClient>
    decreases batches.len(),
{
    if batches.len() == 0 {
        m
    } else {
        applied(applied_all(m, batches.drop_last(), own), batches.last()@, own)
    }
}

/// The client's connection state: its own identifier, the other players as
/// last broadcast, and when the last broadcast arrived (in microseconds on the
/// client's clock).
pub struct ServerConnection {
    client_id: u64,
    last_server_updated: u64,
    server_clients: HashMap<u64, ServerClient>,
}

impl View for ServerConnection {
    type V = Map<u64, ServerClient>;

    closed spec fn view(&self) -> Map<u64, ServerClient> {
        self.server_clients@
    }
}

impl ServerConnection {
    pub closed spec fn client_id_spec(&self) -> u64 {
        self.client_id
    }

    pub closed spec fn last_server_updated_spec(&self) -> u64 {
        self.last_server_updated
    }

    /// A connection for `client_id` that knows no other player yet.
    pub fn new(client_id: u64, now_us: u64) -> (r: Self)
        ensures
            r.client_id_spec() == client_id,
            r.last_server_updated_spec() == now_us,
            r@ == Map::<u64, ServerClient>::empty(),
    {
        ServerConnection { client_id, last_server_updated: now_us, server_clients: HashMap::new() }
    }

    pub fn get_client_id(&self) -> (r: u64)
        ensures
            r == self.client_id_spec(),
    {
        self.client_id
    }

    pub fn get_last_server_updated(&self) -> (r: u64)
        ensures
            r == self.last_server_updated_spec(),
    {
        self.last_server_updated
    }

    pub fn get_server_clients(&self) -> (r: &HashMap<u64, ServerClient>)
        ensures
            r@ == self@,
    {
        &self.server_clients
    }

    /// Takes in one broadcast that arrived at `now_us`: each entry but the
    /// client's own replaces the cached one, with the cached position as its
    /// previous position.
    pub fn apply_batch(&mut self, batch: &Vec<(u64, ServerClient)>, now_us: u64)
        ensures
            final(self)@ == applied(old(self)@, batch@, old(self).client_id_spec()),
            final(self).client_id_spec() == old(self).client_id_spec(),
            final(self).last_server_updated_spec() == now_us,
    {
        let mut i: usize = 0;
        while i < batch.len()
            invariant
                i <= batch@.len(),
                self.client_id == old(self).client_id,
                self.last_server_updated == old(self).last_server_updated,
                self@ == applied(old(self)@, batch@.subrange(0, i as int), self.client_id),
            decreases batch@.len() - i,
        {
            let (id, state) = batch[i];
            proof {
                assert(batch@.subrange(0, i + 1).drop_last() == batch@.subrange(0, i as int));
            }
            if id != self.client_id {
                let next = shifted(self.server_clients.get(&id), &state);
                self.server_clients.insert(id, next);
            }
            i = i + 1;
        }
        proof {
            assert(batch@.subrange(0, batch@.len() as int) == batch@);
        }
        self.last_server_updated = now_us;
    }

    /// Takes in the broadcasts received since the last call, in order, and
    /// records `now_us` as the arrival time when there was at least one.
    pub fn handle_server_updates(&mut self, batches: &Vec<Vec<(u64, ServerClient)>>, now_us: u64)
        ensures
            final(self)@ == applied_all(old(self)@, batches@, old(self).client_id_spec()),
            final(self).client_id_spec() == old(self).client_id_spec(),
            final(self).last_server_updated_spec() == if batches@.len() > 0 {
                now_us
            } else {
                old(self).last_server_updated_spec()
            },
    {
        let mut i: usize = 0;
        while i < batches.len()
            invariant
                i <= batches@.len(),
                self.client_id == old(self).client_id,
                self.last_server_updated == if i > 0 {
                    now_us
                } else {
                    old(self).last_server_updated
                },
                self@ == applied_all(old(self)@, batches@.subrange(0, i as int), self.client_id),
            decreases batches@.len() - i,
        {
            proof {
                assert(batches@.subrange(0, i + 1).drop_last() == batches@.subrange(0, i as int));
            }
            self.apply_batch(&batches[i], now_us);
            i = i + 1;
        }
        proof {
            assert(batches@.subrange(0, batches@.len() as int) == batches@);
        }
    }

    /// The state to send to the server for the client's own character, at
    /// `position` with hitbox `size` (width, height) in the physics world. The
    /// previous position is left at zero: the server keeps its own.
    pub fn handle_client_updates(
        &self,
        my_character: &Character2,
        position: (i32, i32),
        size: (i32, i32),
    ) -> (r: ServerClient)
        requires
            my_character.wf(),
        ensures
            r == (ServerClient {
                x_pos: position.0,
                y_pos: position.1,
                width: size.0,
                height: size.1,
                facing: my_character.facing,
                anim_type: my_character.active,
                character_type: my_character.current_state().character_type,
                sprite_frame: my_character.current_state().sprite_frame,
                ..default_server_client()
            }),
    {
        let mut sc = ServerClient::default();
        sc.x_pos = position.0;
        sc.y_pos = position.1;
        sc.height = size.1;
        sc.width = size.0;
        sc.facing = my_character.get_facing();
        sc.anim_type = my_character.get_anim_type();
        sc.character_type = my_character.get_character_type();
        sc.sprite_frame = my_character.get_sprite_frame();
        sc
    }

    /// Where to draw player `client_id` at `now_us`: its previous and current
    /// positions blended by the time since the last broadcast, over one
    /// broadcast interval. `None` for a player not in the cache.
    pub fn interpolated_position(&self, client_id: u64, now_us: u64) -> (r: Option<(i32, i32)>)
        ensures
            match stored_in(self@, client_id) {
                None => r is None,
                Some(s) => {
                    let elapsed = if now_us >= self.last_server_updated_spec() {
                        now_us - self.last_server_updated_spec()
                    } else {
                        0
                    };
                    r == Some(
                        (
                            lerp_spec(
                                s.prev_x_pos as int,
                                s.x_pos as int,
                                elapsed,
                                SERVER_UPDATE_INTERVAL_US as int,
                            ) as i32,
                            lerp_spec(
                                s.prev_y_pos as int,
                                s.y_pos as int,
                                elapsed,
                                SERVER_UPDATE_INTERVAL_US as int,
                            ) as i32,
                        ),
                    )
                },
            },
    {
        match self.server_clients.get(&client_id) {
            None => None,
            Some(s) => {
                let elapsed = now_us.saturating_sub(self.last_server_updated);
                let x = lerp(s.prev_x_pos, s.x_pos, elapsed, SERVER_UPDATE_INTERVAL_US);
                let y = lerp(s.prev_y_pos, s.y_pos, elapsed, SERVER_UPDATE_INTERVAL_US);
                Some((x, y))
            },
        }
    }
}

} // verus!
