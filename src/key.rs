//! Routing keys of the three exchange routing types.

use vstd::prelude::*;

verus! {

/// A routing key: three hops and a queue name, tagged with the exchange
/// routing type they go through.
#[derive(Debug)]
pub enum RoutingKey {
    Direct([String; 4]),
    Topic([String; 4]),
    Fanout([String; 4]),
}

fn clone_names(a: &[String; 4]) -> (r: [String; 4])
    ensures
        r == *a,
{
    let r = [a[0].clone(), a[1].clone(), a[2].clone(), a[3].clone()];
    assert(r =~= *a);
    r
}

impl RoutingKey {
    pub fn clone(&self) -> (r: RoutingKey)
        ensures
            r == *self,
    {
        match self {
            RoutingKey::Direct(a) => RoutingKey::Direct(clone_names(a)),
            RoutingKey::Topic(a) => RoutingKey::Topic(clone_names(a)),
            RoutingKey::Fanout(a) => RoutingKey::Fanout(clone_names(a)),
        }
    }
}

} // verus!
