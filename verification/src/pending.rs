//! The registry of requests that wait for their JSON-RPC reply.
//!
//! Every outgoing request takes the next id from a counter that starts at 1
//! and wraps around at the top of `u64`; the waiter of the request (whatever
//! will receive the reply) is kept under that id until the reply comes or the
//! wait is given up.

use vstd::prelude::*;
use std::collections::HashMap;

verus! {

broadcast use vstd::std_specs::hash::group_hash_axioms;

/// Model of the registry: the next id to hand out and the waiters by id.
pub struct PendingView<W> {
    pub next_id: u64,
    pub waiting: Map<u64, W>,
}

/// The id after `id`, wrapping around at the top of `u64` (`fetch_add(1)`).
pub open spec fn successor(id: u64) -> u64 {
    if id == u64::MAX {
        0
    } else {
        (id + 1) as u64
    }
}

/// The requests that wait for a reply, by id.
#[verifier::reject_recursive_types(W)]
pub struct PendingRequests<W> {
    next_id: u64,
    waiting: HashMap<u64, W>,
}

impl<W> View for PendingRequests<W> {
    type V = PendingView<W>;

    closed spec fn view(&self) -> PendingView<W> {
        PendingView { next_id: self.next_id, waiting: self.waiting@ }
    }
}

impl<W> PendingView<W> {
    /// Every waiting id lies below the next id, so the next id is fresh.
    pub open spec fn ids_below_next(self) -> bool {
        forall|id: u64| #[trigger] self.waiting.contains_key(id) ==> id < self.next_id
    }
}

impl<W> PendingRequests<W> {
    /// An empty registry whose first id is 1.
    pub fn new() -> (r: Self)
        ensures
            r@.next_id == 1,
            r@.waiting == Map::<u64, W>::empty(),
    {
        PendingRequests { next_id: 1, waiting: HashMap::new() }
    }

    /// Hands out the next id and keeps `waiter` under it.
    pub fn register(&mut self, waiter: W) -> (id: u64)
        ensures
            id == old(self)@.next_id,
            final(self)@.next_id == successor(old(self)@.next_id),
            final(self)@.waiting == old(self)@.waiting.insert(id, waiter),
    {
        let id = self.next_id;
        self.next_id = if id == u64::MAX {
            0
        } else {
            id + 1
        };
        self.waiting.insert(id, waiter);
        id
    }

    /// Removes and returns the waiter of `id`, if any.
    pub fn take(&mut self, id: u64) -> (r: Option<W>)
        ensures
            final(self)@.next_id == old(self)@.next_id,
            final(self)@.waiting == old(self)@.waiting.remove(id),
            match r {
                Some(w) => old(self)@.waiting.contains_key(id) && w == old(self)@.waiting[id],
                None => !old(self)@.waiting.contains_key(id),
            },
    {
        self.waiting.remove(&id)
    }
}

} // verus!
