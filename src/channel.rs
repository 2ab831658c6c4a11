//! A named logical channel: its identity, its closed flag, and the frames
//! it builds.

use vstd::prelude::*;
use vstd::utf8::encode_utf8;
use crate::bytes::bytes_result;
use crate::chain::RoutingChain;
use crate::common::{lift_build, ChannelApi, ChannelQueueApi, ClientError};
use crate::factory::{
    build_result, default_routing_mod, frame_bytes, pad_payload, BuildError, Command, CommandType,
    DataType, FrameDraft, MessageFactory, MessageType, RoutingMod, RoutingModFactory, RoutingType,
};
use crate::queue::{Queue, QueueView};

verus! {

/// A channel of a session, named uniquely within it.
pub struct Channel {
    host_name: String,
    name: String,
    closed: bool,
}

pub struct ChannelView {
    pub host: Seq<char>,
    pub name: Seq<char>,
    pub closed: bool,
}

impl View for Channel {
    type V = ChannelView;

    closed spec fn view(&self) -> ChannelView {
        ChannelView { host: self.host_name@, name: self.name@, closed: self.closed }
    }
}

/// A fresh builder for a channel's frames.
pub open spec fn channel_draft(host: Seq<char>, name: Seq<char>) -> FrameDraft {
    FrameDraft {
        host,
        channel: name,
        routing_mod: default_routing_mod(),
        command: None,
        route: Seq::empty(),
        queue_name: Seq::empty(),
        data: Seq::empty(),
    }
}

/// The close-command frame of a channel: the close token, no routing and no
/// payload.
pub open spec fn close_frame(host: Seq<char>, name: Seq<char>) -> Seq<u8> {
    frame_bytes(FrameDraft { command: Some(Command::CloseChannel), ..channel_draft(host, name) })
}

impl Channel {
    pub fn new(host_name: String, name: String) -> (r: Channel)
        ensures
            r@ == (ChannelView { host: host_name@, name: name@, closed: false }),
    {
        Channel { host_name, name, closed: false }
    }

    pub fn is_closed(&self) -> (r: bool)
        ensures
            r == self@.closed,
    {
        self.closed
    }

    pub fn name(&self) -> (r: &String)
        ensures
            r@ == self@.name,
    {
        &self.name
    }

    pub fn host_name(&self) -> (r: &String)
        ensures
            r@ == self@.host,
    {
        &self.host_name
    }

    /// A frame builder that addresses this channel.
    pub fn get_factory(&self) -> (r: MessageFactory)
        ensures
            r@ == channel_draft(self@.host, self@.name),
    {
        MessageFactory::new(self.host_name.clone(), self.name.clone())
    }

    /// Closes an open channel: gives the one close-command frame to send and
    /// marks the channel closed. A closed channel refuses.
    pub fn close(&mut self) -> (r: Result<Vec<u8>, ClientError>)
        ensures
            old(self)@.closed ==> r == Err::<Vec<u8>, ClientError>(ClientError::ChannelClosed)
                && final(self)@ == old(self)@,
            !old(self)@.closed ==> r is Ok && r->Ok_0@ == close_frame(old(self)@.host, old(self)@.name)
                && final(self)@ == (ChannelView { closed: true, ..old(self)@ }),
    {
        if self.closed {
            return Err(ClientError::ChannelClosed);
        }
        let factory = self.get_factory().command(Command::CloseChannel);
        let ghost draft = factory@;
        assert(!crate::factory::has_wildcard(draft.route));
        match factory.build() {
            Ok(frame) => {
                self.closed = true;
                Ok(frame)
            },
            Err(e) => {
                assert(build_result(draft) is Ok);
                Err(ClientError::Build(e))
            },
        }
    }

    /// The frame to write for this channel, if it is still open.
    pub fn send(&self, data: Vec<u8>) -> (r: Result<Vec<u8>, ClientError>)
        ensures
            self@.closed ==> r == Err::<Vec<u8>, ClientError>(ClientError::ChannelClosed),
            !self@.closed ==> r == Ok::<Vec<u8>, ClientError>(data),
    {
        if self.closed {
            Err(ClientError::ChannelClosed)
        } else {
            Ok(data)
        }
    }
}

/// The routing mod of an administrative command `op`.
pub open spec fn command_mod(op: CommandType) -> RoutingMod {
    RoutingMod {
        data_type: DataType::Command,
        command_type: Some(op),
        message_type: Some(MessageType::Nop),
        routing_type: RoutingType::Direct,
    }
}

/// The draft of an administrative command frame.
pub open spec fn admin_draft(
    c: ChannelView,
    op: CommandType,
    payload: Seq<u8>,
    chain: RoutingChain,
) -> FrameDraft {
    FrameDraft {
        routing_mod: command_mod(op),
        route: chain.routing_key@,
        queue_name: chain.queue_name@,
        data: pad_payload(payload),
        ..channel_draft(c.host, c.name)
    }
}

/// What an administrative command gives on a channel: refused when the
/// channel is closed or the padded name would not fit one slice, else the
/// outcome of building its frame.
pub open spec fn channel_admin_result(
    c: ChannelView,
    op: CommandType,
    name: Seq<char>,
    chain: RoutingChain,
) -> Result<Seq<u8>, ClientError> {
    if c.closed {
        Err(ClientError::ChannelClosed)
    } else if encode_utf8(name).len() > 0xffff_ff00 {
        Err(ClientError::Build(BuildError::PayloadTooLarge))
    } else {
        lift_build(build_result(admin_draft(c, op, encode_utf8(name), chain)))
    }
}

impl Channel {
    fn admin_frame(&self, op: CommandType, name: String, chain: RoutingChain) -> (r: Result<
        Vec<u8>,
        ClientError,
    >)
        ensures
            bytes_result(r) == channel_admin_result(self@, op, name@, chain),
    {
        if self.closed {
            return Err(ClientError::ChannelClosed);
        }
        let payload = vstd::slice::slice_to_vec(name.as_str().as_bytes());
        if payload.len() > 0xffff_ff00usize {
            return Err(ClientError::Build(BuildError::PayloadTooLarge));
        }
        let routing_mod = RoutingModFactory::new().routing_type(RoutingType::Direct).data_type(
            DataType::Command,
        ).command_type(op).build();
        let factory = self.get_factory().routing_mod(routing_mod).routing_chain(chain).data(
            payload,
        );
        assert(factory@ == admin_draft(self@, op, encode_utf8(name@), chain));
        match factory.build() {
            Ok(v) => Ok(v),
            Err(e) => Err(ClientError::Build(e)),
        }
    }
}

impl ChannelApi for Channel {
    open spec fn admin_result(&self, op: CommandType, name: Seq<char>, chain: RoutingChain) -> Result<
        Seq<u8>,
        ClientError,
    > {
        channel_admin_result(self@, op, name, chain)
    }

    fn create_exchange(&mut self, name: String, routing_chain: RoutingChain) -> (r: Result<
        Vec<u8>,
        ClientError,
    >) {
        self.admin_frame(CommandType::NewExchange, name, routing_chain)
    }

    fn create_queue(&mut self, name: String, routing_chain: RoutingChain) -> (r: Result<
        Vec<u8>,
        ClientError,
    >) {
        self.admin_frame(CommandType::NewQueue, name, routing_chain)
    }

    fn drop_exchange(&mut self, name: String, routing_chain: RoutingChain) -> (r: Result<
        Vec<u8>,
        ClientError,
    >) {
        self.admin_frame(CommandType::DropExchange, name, routing_chain)
    }

    fn drop_queue(&mut self, name: String, routing_chain: RoutingChain) -> (r: Result<
        Vec<u8>,
        ClientError,
    >) {
        self.admin_frame(CommandType::DropQueue, name, routing_chain)
    }
}

impl ChannelQueueApi for Channel {
    /// An open channel opens the queue with the chain's route and queue name
    /// under its own name and host; a closed one refuses.
    open spec fn opens_queue(&self, chain: RoutingChain, r: Result<Queue, ClientError>) -> bool {
        if self@.closed {
            r == Err::<Queue, ClientError>(ClientError::ChannelClosed)
        } else {
            r is Ok && r->Ok_0@ == (QueueView {
                route: chain.routing_key@,
                queue_name: chain.queue_name@,
                channel: self@.name,
                host: self@.host,
            })
        }
    }

    fn get_queue(&mut self, routing_chain: RoutingChain) -> (r: Result<Queue, ClientError>) {
        if self.closed {
            return Err(ClientError::ChannelClosed);
        }
        Ok(Queue::new(routing_chain, self.name.clone(), self.host_name.clone()))
    }
}

} // verus!
