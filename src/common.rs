//! Outcomes shared by the channel, session and queue layers.

use vstd::prelude::*;
use crate::chain::RoutingChain;
use crate::factory::{BuildError, CommandType};
use crate::queue::Queue;
use crate::bytes::bytes_result;

verus! {

/// Why an operation of the client failed.
#[derive(Debug, Clone, Copy, PartialEq, Eq, Structural)]
pub enum ClientError {
    /// The frame could not be built.
    Build(BuildError),
    /// No channel of that name is registered with the session.
    UnknownChannel,
    /// The channel was closed before the operation.
    ChannelClosed,
    /// Nothing arrived for the channel: the read timed out or the frame that
    /// arrived was for another channel, and nothing was cached.
    ReadFailed,
    /// Bytes that should have been text were not valid UTF-8.
    NotText,
    /// The connection failed while writing or reading.
    Transport,
}

/// A build outcome with its error lifted into [`ClientError`].
pub open spec fn lift_build(r: Result<Seq<u8>, BuildError>) -> Result<Seq<u8>, ClientError> {
    match r {
        Ok(v) => Ok(v),
        Err(e) => Err(ClientError::Build(e)),
    }
}

/// A fetch reply, classified.
pub enum FetchResult {
    Success(Vec<u8>),
    /// The reply's error code says the queue had no item.
    FailedNoItem,
    /// The reply lacked its header or its payload.
    FailedEmptyMessage,
    FailedError(ClientError),
}

/// A fetch reply, classified, with a successful payload as text.
pub enum FetchResultString {
    Success(String),
    FailedNotUtf8,
    FailedNoItem,
    FailedEmptyMessage,
    FailedError(ClientError),
}

/// Administrative commands of a channel. Each gives the command frame to
/// write: the command type with direct routing, the routing chain, and the
/// entity's name as payload.
pub trait ChannelApi: Sized {
    /// What the administrative command `op` on entity `name` through `chain`
    /// gives.
    spec fn admin_result(&self, op: CommandType, name: Seq<char>, chain: RoutingChain) -> Result<
        Seq<u8>,
        ClientError,
    >;

    fn create_exchange(&mut self, name: String, routing_chain: RoutingChain) -> (r: Result<
        Vec<u8>,
        ClientError,
    >)
        ensures
            *final(self) == *old(self),
            bytes_result(r) == old(self).admin_result(CommandType::NewExchange, name@, routing_chain),
    ;

    fn create_queue(&mut self, name: String, routing_chain: RoutingChain) -> (r: Result<
        Vec<u8>,
        ClientError,
    >)
        ensures
            *final(self) == *old(self),
            bytes_result(r) == old(self).admin_result(CommandType::NewQueue, name@, routing_chain),
    ;

    fn drop_exchange(&mut self, name: String, routing_chain: RoutingChain) -> (r: Result<
        Vec<u8>,
        ClientError,
    >)
        ensures
            *final(self) == *old(self),
            bytes_result(r) == old(self).admin_result(CommandType::DropExchange, name@, routing_chain),
    ;

    fn drop_queue(&mut self, name: String, routing_chain: RoutingChain) -> (r: Result<
        Vec<u8>,
        ClientError,
    >)
        ensures
            *final(self) == *old(self),
            bytes_result(r) == old(self).admin_result(CommandType::DropQueue, name@, routing_chain),
    ;
}

/// Access to the queues reached through a channel.
pub trait ChannelQueueApi: Sized {
    /// `r` is what opening a queue through `chain` gives.
    spec fn opens_queue(&self, chain: RoutingChain, r: Result<Queue, ClientError>) -> bool;

    fn get_queue(&mut self, routing_chain: RoutingChain) -> (r: Result<Queue, ClientError>)
        ensures
            *final(self) == *old(self),
            old(self).opens_queue(routing_chain, r),
    ;
}

} // verus!
