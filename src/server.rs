//! The server's table of connected clients: the last state each one reported,
//! and which of them changed since the last broadcast.
use std::collections::HashMap;
use vstd::prelude::*;

use crate::wire::{has_changed, merged, needs_broadcast, shifted, stored_in, ServerClient};

verus! {

broadcast use vstd::std_specs::hash::group_hash_axioms;

/// Client identifier to last reported state, filled lazily: a client gets an
/// entry with its first update, not when it connects.
pub struct ClientStateTable {
    clients: HashMap<u64, ServerClient>,
    /// Clients to send in the next broadcast, in the order they changed.
    pending: Vec<u64>,
}

impl View for ClientStateTable {
    type V = Map<u64, ServerClient>;

    closed spec fn view(&self) -> Map<u64, ServerClient> {
        self.clients@
    }
}

impl ClientStateTable {
    /// Clients marked for the next broadcast, each once, in the order they
    /// were marked.
    pub closed spec fn pending(&self) -> Seq<u64> {
        self.pending@
    }

    pub open spec fn wf(&self) -> bool {
        &&& self.pending().no_duplicates()
        &&& forall|i: int|
            0 <= i < self.pending().len() ==> self@.contains_key(#[trigger] self.pending()[i])
    }

    pub fn new() -> (r: Self)
        ensures
            r.wf(),
            r@ == Map::<u64, ServerClient>::empty(),
            r.pending() == Seq::<u64>::empty(),
    {
        ClientStateTable { clients: HashMap::new(), pending: Vec::new() }
    }

    /// The state stored for `client_id`.
    pub fn get(&self, client_id: u64) -> (r: Option<ServerClient>)
        ensures
            r == stored_in(self@, client_id),
    {
        match self.clients.get(&client_id) {
            Some(v) => Some(*v),
            None => None,
        }
    }

    pub fn len(&self) -> (r: usize)
        ensures
            r == self@.len(),
    {
        self.clients.len()
    }

    /// Where `client_id` stands among the pending clients.
    fn pending_position(&self, client_id: u64) -> (r: Option<usize>)
        ensures
            match r {
                Some(i) => i < self.pending().len() && self.pending()[i as int] == client_id,
                None => !self.pending().contains(client_id),
            },
    {
        let mut i: usize = 0;
        while i < self.pending.len()
            invariant
                i <= self.pending@.len(),
                forall|j: int| 0 <= j < i ==> self.pending@[j] != client_id,
            decreases self.pending@.len() - i,
        {
            if self.pending[i] == client_id {
                return Some(i);
            }
            i = i + 1;
        }
        None
    }

    /// Takes in an update from `client_id`: marks the client for the next
    /// broadcast when the update changed something that counts, and stores the
    /// update with the stored position moved into its previous position.
    /// Returns whether the client was marked.
    pub fn on_message(&mut self, client_id: u64, incoming: ServerClient) -> (marked: bool)
        requires
            old(self).wf(),
        ensures
            final(self).wf(),
            marked == needs_broadcast(stored_in(old(self)@, client_id), incoming),
            final(self)@ == old(self)@.insert(
                client_id,
                merged(stored_in(old(self)@, client_id), incoming),
            ),
            final(self).pending() == if marked && !old(self).pending().contains(client_id) {
                old(self).pending().push(client_id)
            } else {
                old(self).pending()
            },
    {
        let marked = has_changed(self.clients.get(&client_id), &incoming);
        let next = shifted(self.clients.get(&client_id), &incoming);
        if marked && self.pending_position(client_id).is_none() {
            self.pending.push(client_id);
        }
        self.clients.insert(client_id, next);
        marked
    }

    /// Forgets `client_id` at once, with its pending broadcast.
    pub fn disconnect(&mut self, client_id: u64)
        requires
            old(self).wf(),
        ensures
            final(self).wf(),
            final(self)@ == old(self)@.remove(client_id),
            forall|k: u64|
                #[trigger] final(self).pending().contains(k) <==> (old(self).pending().contains(k)
                    && k != client_id),
    {
        if let Some(i) = self.pending_position(client_id) {
            let ghost before = self.pending@;
            self.pending.remove(i);
            proof {
                assert(self.pending@ == before.remove(i as int));
                assert forall|a: int, b: int|
                    0 <= a < b < self.pending@.len() implies self.pending@[a]
                    != self.pending@[b] by {
                    let a0 = if a < i { a } else { a + 1 };
                    let b0 = if b < i { b } else { b + 1 };
                    assert(self.pending@[a] == before[a0]);
                    assert(self.pending@[b] == before[b0]);
                }
                assert forall|k: u64| #[trigger]
                    self.pending@.contains(k) <==> (before.contains(k) && k != client_id) by {
                    if before.contains(k) && k != client_id {
                        let j = choose|j: int| 0 <= j < before.len() && before[j] == k;
                        assert(j != i);
                        let j2 = if j < i { j } else { j - 1 };
                        assert(self.pending@[j2] == k);
                    }
                    if self.pending@.contains(k) {
                        let j = choose|j: int| 0 <= j < self.pending@.len() && self.pending@[j] == k;
                        let j0 = if j < i { j } else { j + 1 };
                        assert(before[j0] == k);
                        assert(j0 != i);
                    }
                }
            }
        }
        self.clients.remove(&client_id);
        proof {
            assert forall|j: int|
                0 <= j < self.pending().len() implies self@.contains_key(
                #[trigger] self.pending()[j],
            ) by {
                assert(self.pending@.contains(self.pending@[j]));
            }
        }
    }

    /// The entries of the clients marked since the last broadcast, in the order
    /// they were marked; clears the marks.
    pub fn take_broadcast(&mut self) -> (r: Vec<(u64, ServerClient)>)
        requires
            old(self).wf(),
        ensures
            final(self).wf(),
            final(self)@ == old(self)@,
            final(self).pending() == Seq::<u64>::empty(),
            r@.len() == old(self).pending().len(),
            forall|i: int|
                0 <= i < r@.len() ==> #[trigger] r@[i] == (
                    old(self).pending()[i],
                    old(self)@[old(self).pending()[i]],
                ),
    {
        let mut out: Vec<(u64, ServerClient)> = Vec::new();
        let mut i: usize = 0;
        while i < self.pending.len()
            invariant
                self.wf(),
                i <= self.pending@.len(),
                out@.len() == i,
                forall|j: int|
                    0 <= j < i ==> #[trigger] out@[j] == (self.pending@[j], self@[self.pending@[j]]),
            decreases self.pending@.len() - i,
        {
            let id = self.pending[i];
            assert(self@.contains_key(self.pending()[i as int]));
            match self.clients.get(&id) {
                Some(v) => out.push((id, *v)),
                None => {},
            }
            i = i + 1;
        }
        self.pending = Vec::new();
        out
    }
}

} // verus!
