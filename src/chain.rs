//! Routing chains: up to three routing hops and a destination queue.

use vstd::prelude::*;
use crate::bytes::zeros;
use crate::factory::{has_wildcard, route_slot, slot_at, BuildError, Routing};

verus! {

/// A destination queue and the routing hops that lead to it; at most the
/// first three hops are ever written to a frame.
pub struct RoutingChain {
    pub routing_key: Vec<Routing>,
    pub queue_name: String,
}

/// The first `min(3, len)` entries of a routing sequence.
pub open spec fn retained(keys: Seq<Routing>) -> Seq<Routing> {
    if keys.len() > 3 {
        keys.subrange(0, 3)
    } else {
        keys
    }
}

/// What building a chain from these keys and queue name gives.
pub open spec fn chain_result(keys: Seq<Routing>, queue_name: Option<String>) -> Result<
    (Seq<Routing>, Seq<char>),
    BuildError,
> {
    match queue_name {
        None => Err(BuildError::MissingQueueName),
        Some(q) => if has_wildcard(keys) {
            Err(BuildError::Wildcard)
        } else {
            Ok((retained(keys), q@))
        },
    }
}

impl RoutingChain {
    pub fn new(routing_key: [Routing; 3], queue_name: String) -> (r: RoutingChain)
        ensures
            r.routing_key@ == routing_key@,
            r.queue_name == queue_name,
    {
        let mut keys: Vec<Routing> = Vec::with_capacity(3);
        keys.push(routing_key[0].clone());
        keys.push(routing_key[1].clone());
        keys.push(routing_key[2].clone());
        assert(keys@ =~= routing_key@);
        RoutingChain { routing_key: keys, queue_name }
    }

    pub fn clone(&self) -> (r: RoutingChain)
        ensures
            r.routing_key@ == self.routing_key@,
            r.queue_name == self.queue_name,
    {
        let mut keys: Vec<Routing> = Vec::with_capacity(self.routing_key.len());
        let mut i: usize = 0;
        while i < self.routing_key.len()
            invariant
                i <= self.routing_key@.len(),
                keys@ == self.routing_key@.subrange(0, i as int),
            decreases self.routing_key@.len() - i,
        {
            keys.push(self.routing_key[i].clone());
            i = i + 1;
            assert(keys@ =~= self.routing_key@.subrange(0, i as int));
        }
        assert(keys@ =~= self.routing_key@);
        RoutingChain { routing_key: keys, queue_name: self.queue_name.clone() }
    }
}

/// Builder of a [`RoutingChain`].
pub struct RoutingChainFactory {
    pub routing_keys: Vec<Routing>,
    pub queue_name: Option<String>,
}

impl RoutingChainFactory {
    pub fn new() -> (r: RoutingChainFactory)
        ensures
            r.routing_keys@ == Seq::<Routing>::empty(),
            r.queue_name is None,
    {
        RoutingChainFactory { routing_keys: Vec::new(), queue_name: None }
    }

    pub fn add_key(self, routing_key: Routing) -> (r: RoutingChainFactory)
        ensures
            r.routing_keys@ == self.routing_keys@.push(routing_key),
            r.queue_name == self.queue_name,
    {
        let mut s = self;
        s.routing_keys.push(routing_key);
        s
    }

    pub fn set_queue_name(self, queue_name: String) -> (r: RoutingChainFactory)
        ensures
            r.routing_keys@ == self.routing_keys@,
            r.queue_name == Some(queue_name),
    {
        let mut s = self;
        s.queue_name = Some(queue_name);
        s
    }

    /// The chain, keeping the first three keys; fails without a queue name
    /// or with a wildcard among the kept keys.
    pub fn build(self) -> (r: Result<RoutingChain, BuildError>)
        ensures
            match r {
                Ok(c) => chain_result(self.routing_keys@, self.queue_name) == Ok::<
                    (Seq<Routing>, Seq<char>),
                    BuildError,
                >((c.routing_key@, c.queue_name@)),
                Err(e) => chain_result(self.routing_keys@, self.queue_name) == Err::<
                    (Seq<Routing>, Seq<char>),
                    BuildError,
                >(e),
            },
    {
        let queue_name = match self.queue_name {
            Some(q) => q,
            None => {
                return Err(BuildError::MissingQueueName);
            },
        };
        let mut keys = self.routing_keys;
        let ghost all = keys@;
        keys.truncate(3);
        assert(keys@ == retained(all));
        let mut i: usize = 0;
        while i < keys.len()
            invariant
                keys@ == retained(all),
                all == self.routing_keys@,
                self.queue_name == Some(queue_name),
                i <= keys@.len(),
                forall|k: int| 0 <= k < i ==> !(keys@[k] is Any),
            decreases keys@.len() - i,
        {
            if let Routing::Any = &keys[i] {
                assert(has_wildcard(all));
                return Err(BuildError::Wildcard);
            }
            i = i + 1;
        }
        assert forall|k: int| 0 <= k < all.len() && k < 3 implies !(all[k] is Any) by {
            assert(all[k] == keys@[k]);
        }
        assert(!has_wildcard(all));
        Ok(RoutingChain { routing_key: keys, queue_name })
    }
}

/// A chain keeps its first three keys, in order, and drops the rest; in a
/// frame, each of the three routing slots past the last kept key is all
/// zero, which is not the slot of a stop marker.
pub proof fn lemma_chain_truncation(keys: Seq<Routing>)
    ensures
        retained(keys).len() == if keys.len() > 3 { 3 } else { keys.len() },
        forall|i: int| 0 <= i < retained(keys).len() ==> #[trigger] retained(keys)[i] == keys[i],
        forall|i: int|
            retained(keys).len() <= i < 3 ==> #[trigger] slot_at(retained(keys), i) == zeros(32)
                && slot_at(retained(keys), i) != route_slot(Routing::Stop),
{
    assert forall|i: int| retained(keys).len() <= i < 3 implies #[trigger] slot_at(
        retained(keys),
        i,
    ) == zeros(32) && slot_at(retained(keys), i) != route_slot(Routing::Stop) by {
        assert(route_slot(Routing::Stop)[0] == 33u8);
        assert(zeros(32)[0] == 0u8);
    }
}

} // verus!
