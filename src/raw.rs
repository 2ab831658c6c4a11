//! Decoded frame contents, tagged by data kind and operation.

use vstd::prelude::*;
use crate::key::RoutingKey;

verus! {

/// A decoded frame: its contents, the channel and virtual host it belongs
/// to, and its routing.
#[derive(Debug)]
pub struct RawData {
    pub raw: Raw,
    pub channel: String,
    pub virtual_host: String,
    pub routing_key: RoutingKey,
}

#[derive(Debug)]
pub enum Raw {
    Message(RawMessage),
    Command(RawCommand),
    Nop,
}

#[derive(Debug)]
pub enum RawMessage {
    Push(Vec<u8>),
    Fetch(Vec<u8>),
    Nop,
}

#[derive(Debug)]
pub enum RawCommand {
    NewQueue(Vec<u8>),
    NewExchange(Vec<u8>),
    NewBinding(Vec<u8>),
    DropQueue(Vec<u8>),
    DropExchange(Vec<u8>),
    DropBinding(Vec<u8>),
    Nop,
}

} // verus!
