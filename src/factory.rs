//! Frame construction: routing-mod encoding, routing slots, command tokens
//! and payload padding.

use vstd::prelude::*;
use vstd::bytes::{spec_u16_to_le_bytes, spec_u32_to_le_bytes};
use vstd::utf8::encode_utf8;
use crate::bytes::{array_at, fit, fit_bytes, push_all, zeros};
use crate::chain::RoutingChain;
use crate::proto::{version_bytes, DataHead, Serialize};

verus! {

/// Administrative commands carried in the `command` field.
#[derive(Debug, Clone, Copy, PartialEq, Eq, Structural)]
pub enum Command {
    CloseChannel,
}

#[derive(Debug, Clone, Copy, PartialEq, Eq, Structural)]
pub enum DataType {
    Message,
    Command,
}

#[derive(Debug, Clone, Copy, PartialEq, Eq, Structural)]
pub enum CommandType {
    NewQueue,
    NewExchange,
    NewBinding,
    DropQueue,
    DropExchange,
    DropBinding,
    Nop,
}

#[derive(Debug, Clone, Copy, PartialEq, Eq, Structural)]
pub enum MessageType {
    Push,
    Fetch,
    Nop,
}

#[derive(Debug, Clone, Copy, PartialEq, Eq, Structural)]
pub enum RoutingType {
    Direct,
    Topic,
    Fanout,
    Nop,
}

/// What a frame is: its data kind, the subtype for that kind, and the
/// exchange routing type.
#[derive(Debug, Clone, Copy, PartialEq, Eq, Structural)]
pub struct RoutingMod {
    pub data_type: DataType,
    pub command_type: Option<CommandType>,
    pub message_type: Option<MessageType>,
    pub routing_type: RoutingType,
}

/// One routing hop.
#[derive(Debug)]
pub enum Routing {
    /// Continue routing through the named entity.
    Route(String),
    /// Wildcard match; declared by the protocol but not supported, so every
    /// frame builder rejects it.
    Any,
    /// Stop descending the routing chain here.
    Stop,
}

/// Why a frame or a routing chain could not be built.
#[derive(Debug, Clone, Copy, PartialEq, Eq, Structural)]
pub enum BuildError {
    /// A routing chain was built without a queue name.
    MissingQueueName,
    /// The routing mod lacks the subtype that its data kind needs.
    MissingSubtype,
    /// A retained routing entry is the unsupported wildcard.
    Wildcard,
    /// The padded payload does not fit the 32-bit slice size.
    PayloadTooLarge,
}

impl Routing {
    pub fn clone(&self) -> (r: Routing)
        ensures
            r == *self,
    {
        match self {
            Routing::Route(s) => Routing::Route(s.clone()),
            Routing::Any => Routing::Any,
            Routing::Stop => Routing::Stop,
        }
    }
}

pub open spec fn data_type_code(d: DataType) -> u8 {
    match d {
        DataType::Message => 0,
        DataType::Command => 1,
    }
}

pub open spec fn command_type_code(c: CommandType) -> u8 {
    match c {
        CommandType::NewQueue => 0,
        CommandType::NewExchange => 1,
        CommandType::NewBinding => 2,
        CommandType::DropQueue => 3,
        CommandType::DropExchange => 4,
        CommandType::DropBinding => 5,
        CommandType::Nop => 0xf,
    }
}

pub open spec fn message_type_code(m: MessageType) -> u8 {
    match m {
        MessageType::Push => 0,
        MessageType::Fetch => 1,
        MessageType::Nop => 0xf,
    }
}

pub open spec fn routing_type_code(r: RoutingType) -> u8 {
    match r {
        RoutingType::Direct => 0,
        RoutingType::Topic => 1,
        RoutingType::Fanout => 2,
        RoutingType::Nop => 0xf,
    }
}

/// The routing mod has the subtype that its data kind needs.
pub open spec fn has_subtype(m: RoutingMod) -> bool {
    match m.data_type {
        DataType::Message => m.message_type is Some,
        DataType::Command => m.command_type is Some,
    }
}

/// Subtype code of a routing mod that has its subtype.
pub open spec fn subtype_code(m: RoutingMod) -> u8 {
    match m.data_type {
        DataType::Message => message_type_code(m.message_type->Some_0),
        DataType::Command => command_type_code(m.command_type->Some_0),
    }
}

/// The four `routing_mod` bytes: kind, subtype, routing type, reserved.
pub open spec fn routing_mod_bytes(m: RoutingMod) -> Seq<u8> {
    seq![data_type_code(m.data_type), subtype_code(m), routing_type_code(m.routing_type), 0u8]
}

/// ASCII "CLOSE-CH".
pub open spec fn close_token() -> Seq<u8> {
    seq![67u8, 76u8, 79u8, 83u8, 69u8, 45u8, 67u8, 72u8]
}

/// The 24-byte `command` field.
pub open spec fn command_field(c: Option<Command>) -> Seq<u8> {
    match c {
        Some(Command::CloseChannel) => fit(close_token(), 24),
        None => zeros(24),
    }
}

/// ASCII "!", the stop marker.
pub open spec fn stop_marker() -> Seq<u8> {
    seq![33u8]
}

/// The 32-byte slot of a supported routing entry.
pub open spec fn route_slot(r: Routing) -> Seq<u8> {
    match r {
        Routing::Route(s) => fit(encode_utf8(s@), 32),
        Routing::Stop => fit(stop_marker(), 32),
        Routing::Any => zeros(32),
    }
}

/// Slot `i` of a routing sequence: the entry's slot, or all zero where no
/// entry was supplied.
pub open spec fn slot_at(route: Seq<Routing>, i: int) -> Seq<u8> {
    if i < route.len() {
        route_slot(route[i])
    } else {
        zeros(32)
    }
}

/// Some entry among the first three is the wildcard.
pub open spec fn has_wildcard(route: Seq<Routing>) -> bool {
    exists|i: int| 0 <= i < route.len() && i < 3 && route[i] is Any
}

/// The 128 routing bytes: three slots and the queue name.
pub open spec fn route_field(route: Seq<Routing>, queue: Seq<char>) -> Seq<u8> {
    slot_at(route, 0) + slot_at(route, 1) + slot_at(route, 2) + fit(encode_utf8(queue), 32)
}

/// Smallest multiple of 256 that is at least `n`.
pub open spec fn padded_len(n: nat) -> nat {
    if n % 256 == 0 {
        n
    } else {
        (n + (256 - n % 256)) as nat
    }
}

/// `s` zero-extended to `padded_len(s.len())`.
pub open spec fn pad_payload(s: Seq<u8>) -> Seq<u8> {
    s + zeros((padded_len(s.len()) - s.len()) as nat)
}

/// Everything a frame builder has been told so far.
pub struct FrameDraft {
    pub host: Seq<char>,
    pub channel: Seq<char>,
    pub routing_mod: RoutingMod,
    pub command: Option<Command>,
    pub route: Seq<Routing>,
    pub queue_name: Seq<char>,
    pub data: Seq<u8>,
}

/// The routing mod a builder starts with.
pub open spec fn default_routing_mod() -> RoutingMod {
    RoutingMod {
        data_type: DataType::Message,
        command_type: Some(CommandType::Nop),
        message_type: Some(MessageType::Nop),
        routing_type: RoutingType::Direct,
    }
}

/// The bytes of the frame a draft describes: the header, then the payload
/// as one slice.
pub open spec fn frame_bytes(f: FrameDraft) -> Seq<u8> {
    fit(encode_utf8(f.host), 32) + fit(encode_utf8(f.channel), 32) + version_bytes()
        + routing_mod_bytes(f.routing_mod) + command_field(f.command) + route_field(
        f.route,
        f.queue_name,
    ) + spec_u32_to_le_bytes(1) + spec_u32_to_le_bytes(f.data.len() as u32)
        + spec_u32_to_le_bytes(0) + spec_u16_to_le_bytes(0) + spec_u16_to_le_bytes(0) + zeros(16)
        + f.data
}

/// What building a draft gives: the frame, or the first reason it cannot
/// be sent.
pub open spec fn build_result(f: FrameDraft) -> Result<Seq<u8>, BuildError> {
    if !has_subtype(f.routing_mod) {
        Err(BuildError::MissingSubtype)
    } else if has_wildcard(f.route) {
        Err(BuildError::Wildcard)
    } else if f.data.len() > u32::MAX {
        Err(BuildError::PayloadTooLarge)
    } else {
        Ok(frame_bytes(f))
    }
}

/// Builder of a [`RoutingMod`].
pub struct RoutingModFactory {
    data_type: DataType,
    command_type: Option<CommandType>,
    message_type: Option<MessageType>,
    routing_type: RoutingType,
}

impl View for RoutingModFactory {
    type V = RoutingMod;

    closed spec fn view(&self) -> RoutingMod {
        RoutingMod {
            data_type: self.data_type,
            command_type: self.command_type,
            message_type: self.message_type,
            routing_type: self.routing_type,
        }
    }
}

impl RoutingModFactory {
    pub fn new() -> (r: RoutingModFactory)
        ensures
            r@ == default_routing_mod(),
    {
        RoutingModFactory {
            data_type: DataType::Message,
            command_type: Some(CommandType::Nop),
            message_type: Some(MessageType::Nop),
            routing_type: RoutingType::Direct,
        }
    }

    pub fn data_type(self, data_type: DataType) -> (r: RoutingModFactory)
        ensures
            r@ == (RoutingMod { data_type, ..self@ }),
    {
        RoutingModFactory { data_type, ..self }
    }

    pub fn command_type(self, command_type: CommandType) -> (r: RoutingModFactory)
        ensures
            r@ == (RoutingMod { command_type: Some(command_type), ..self@ }),
    {
        RoutingModFactory { command_type: Some(command_type), ..self }
    }

    pub fn message_type(self, message_type: MessageType) -> (r: RoutingModFactory)
        ensures
            r@ == (RoutingMod { message_type: Some(message_type), ..self@ }),
    {
        RoutingModFactory { message_type: Some(message_type), ..self }
    }

    pub fn routing_type(self, routing_type: RoutingType) -> (r: RoutingModFactory)
        ensures
            r@ == (RoutingMod { routing_type, ..self@ }),
    {
        RoutingModFactory { routing_type, ..self }
    }

    pub fn build(self) -> (r: RoutingMod)
        ensures
            r == self@,
    {
        RoutingMod {
            data_type: self.data_type,
            command_type: self.command_type,
            message_type: self.message_type,
            routing_type: self.routing_type,
        }
    }
}

/// The four routing-mod bytes, or `MissingSubtype`.
fn encode_routing_mod(m: &RoutingMod) -> (r: Result<[u8; 4], BuildError>)
    ensures
        match r {
            Ok(a) => has_subtype(*m) && a@ == routing_mod_bytes(*m),
            Err(e) => !has_subtype(*m) && e == BuildError::MissingSubtype,
        },
{
    let kind: u8 = match m.data_type {
        DataType::Message => 0,
        DataType::Command => 1,
    };
    let sub: u8 = match m.data_type {
        DataType::Message => match m.message_type {
            Some(MessageType::Push) => 0,
            Some(MessageType::Fetch) => 1,
            Some(MessageType::Nop) => 0xf,
            None => {
                return Err(BuildError::MissingSubtype);
            },
        },
        DataType::Command => match m.command_type {
            Some(CommandType::NewQueue) => 0,
            Some(CommandType::NewExchange) => 1,
            Some(CommandType::NewBinding) => 2,
            Some(CommandType::DropQueue) => 3,
            Some(CommandType::DropExchange) => 4,
            Some(CommandType::DropBinding) => 5,
            Some(CommandType::Nop) => 0xf,
            None => {
                return Err(BuildError::MissingSubtype);
            },
        },
    };
    let routing: u8 = match m.routing_type {
        RoutingType::Direct => 0,
        RoutingType::Topic => 1,
        RoutingType::Fanout => 2,
        RoutingType::Nop => 0xf,
    };
    let a: [u8; 4] = [kind, sub, routing, 0u8];
    assert(a@ =~= routing_mod_bytes(*m));
    Ok(a)
}

/// The 24-byte command field.
fn encode_command(c: Option<Command>) -> (r: [u8; 24])
    ensures
        r@ == command_field(c),
{
    match c {
        Some(Command::CloseChannel) => {
            let token: [u8; 8] = [67u8, 76u8, 79u8, 83u8, 69u8, 45u8, 67u8, 72u8];
            assert(token@ =~= close_token());
            let v = fit_bytes(token.as_slice(), 24);
            array_at(v.as_slice(), 0)
        },
        None => {
            let z: [u8; 24] = [0u8; 24];
            assert(z@ =~= zeros(24));
            z
        },
    }
}

/// The 32-byte slot of one routing entry, or `Wildcard`.
fn encode_slot(r: &Routing) -> (out: Result<Vec<u8>, BuildError>)
    ensures
        match out {
            Ok(v) => !(r is Any) && v@ == route_slot(*r),
            Err(e) => r is Any && e == BuildError::Wildcard,
        },
{
    match r {
        Routing::Route(s) => Ok(fit_bytes(s.as_str().as_bytes(), 32)),
        Routing::Stop => {
            let mark: [u8; 1] = [33u8];
            assert(mark@ =~= stop_marker());
            Ok(fit_bytes(mark.as_slice(), 32))
        },
        Routing::Any => Err(BuildError::Wildcard),
    }
}

/// The 128 routing bytes: the first three entries, zero slots for missing
/// ones, then the queue name.
fn encode_route(route: &Vec<Routing>, queue: &String) -> (r: Result<[u8; 128], BuildError>)
    ensures
        match r {
            Ok(a) => !has_wildcard(route@) && a@ == route_field(route@, queue@),
            Err(e) => has_wildcard(route@) && e == BuildError::Wildcard,
        },
{
    let mut out: Vec<u8> = Vec::with_capacity(128);
    let mut i: usize = 0;
    while i < 3
        invariant
            i <= 3,
            forall|k: int| 0 <= k < i && k < route@.len() ==> !(route@[k] is Any),
            i == 0 ==> out@ == Seq::<u8>::empty(),
            i == 1 ==> out@ == slot_at(route@, 0),
            i == 2 ==> out@ == slot_at(route@, 0) + slot_at(route@, 1),
            i == 3 ==> out@ == slot_at(route@, 0) + slot_at(route@, 1) + slot_at(route@, 2),
        decreases 3 - i,
    {
        if i < route.len() {
            match encode_slot(&route[i]) {
                Ok(slot) => {
                    push_all(&mut out, slot.as_slice());
                },
                Err(e) => {
                    return Err(e);
                },
            }
        } else {
            let z: [u8; 32] = [0u8; 32];
            assert(z@ =~= zeros(32));
            push_all(&mut out, z.as_slice());
        }
        proof {
            if i == 0 {
                assert(out@ =~= slot_at(route@, 0));
            }
        }
        i = i + 1;
    }
    let q = fit_bytes(queue.as_str().as_bytes(), 32);
    push_all(&mut out, q.as_slice());
    assert(!has_wildcard(route@));
    assert(out@ =~= route_field(route@, queue@));
    assert(out@.subrange(0, 128) =~= out@);
    Ok(array_at(out.as_slice(), 0))
}

/// Builder of one wire frame for a channel.
pub struct MessageFactory {
    host: String,
    channel: String,
    routing_mod: RoutingMod,
    command: Option<Command>,
    route: Vec<Routing>,
    queue_name: String,
    data: Vec<u8>,
}

impl View for MessageFactory {
    type V = FrameDraft;

    closed spec fn view(&self) -> FrameDraft {
        FrameDraft {
            host: self.host@,
            channel: self.channel@,
            routing_mod: self.routing_mod,
            command: self.command,
            route: self.route@,
            queue_name: self.queue_name@,
            data: self.data@,
        }
    }
}

impl MessageFactory {
    pub fn new(host: String, channel: String) -> (r: MessageFactory)
        ensures
            r@ == (FrameDraft {
                host: host@,
                channel: channel@,
                routing_mod: default_routing_mod(),
                command: None,
                route: Seq::empty(),
                queue_name: Seq::empty(),
                data: Seq::empty(),
            }),
    {
        let r = MessageFactory {
            host,
            channel,
            routing_mod: RoutingMod {
                data_type: DataType::Message,
                command_type: Some(CommandType::Nop),
                message_type: Some(MessageType::Nop),
                routing_type: RoutingType::Direct,
            },
            command: None,
            route: Vec::new(),
            queue_name: String::new(),
            data: Vec::new(),
        };
        assert(r@.route =~= Seq::empty());
        r
    }

    pub fn routing_mod(self, routing_mod: RoutingMod) -> (r: MessageFactory)
        ensures
            r@ == (FrameDraft { routing_mod, ..self@ }),
    {
        MessageFactory { routing_mod, ..self }
    }

    pub fn command(self, command: Command) -> (r: MessageFactory)
        ensures
            r@ == (FrameDraft { command: Some(command), ..self@ }),
    {
        MessageFactory { command: Some(command), ..self }
    }

    pub fn route(self, route: Routing) -> (r: MessageFactory)
        ensures
            r@ == (FrameDraft { route: self@.route.push(route), ..self@ }),
    {
        let mut s = self;
        s.route.push(route);
        s
    }

    pub fn queue_name(self, queue_name: String) -> (r: MessageFactory)
        ensures
            r@ == (FrameDraft { queue_name: queue_name@, ..self@ }),
    {
        MessageFactory { queue_name, ..self }
    }

    /// Takes the routing entries and the queue name of a chain, in place of
    /// any given before.
    pub fn routing_chain(self, routing_chain: RoutingChain) -> (r: MessageFactory)
        ensures
            r@ == (FrameDraft {
                route: routing_chain.routing_key@,
                queue_name: routing_chain.queue_name@,
                ..self@
            }),
    {
        MessageFactory {
            route: routing_chain.routing_key,
            queue_name: routing_chain.queue_name,
            ..self
        }
    }

    /// Sets the payload, zero-padded to a multiple of 256 bytes.
    pub fn data(self, data: Vec<u8>) -> (r: MessageFactory)
        requires
            data@.len() + 255 <= usize::MAX,
        ensures
            r@ == (FrameDraft { data: pad_payload(data@), ..self@ }),
    {
        let ghost given = data@;
        let mut data = data;
        let len = data.len();
        if len % 256 != 0 {
            let delta = 256 - len % 256;
            data.resize(len + delta, 0u8);
        }
        assert(data@ =~= pad_payload(given)) by {
            assert(data@.subrange(0, len as int) == given);
        }
        MessageFactory { data, ..self }
    }
}

impl MessageFactory {
    /// The frame: header followed by the payload as one slice, or the first
    /// reason the draft cannot go on the wire.
    pub fn build(self) -> (r: Result<Vec<u8>, BuildError>)
        ensures
            match r {
                Ok(v) => build_result(self@) == Ok::<Seq<u8>, BuildError>(v@),
                Err(e) => build_result(self@) == Err::<Seq<u8>, BuildError>(e),
            },
    {
        let routing_mod = match encode_routing_mod(&self.routing_mod) {
            Ok(a) => a,
            Err(e) => {
                return Err(e);
            },
        };
        let route = match encode_route(&self.route, &self.queue_name) {
            Ok(a) => a,
            Err(e) => {
                return Err(e);
            },
        };
        if self.data.len() > 0xffff_ffffusize {
            return Err(BuildError::PayloadTooLarge);
        }
        let channel_bytes = fit_bytes(self.channel.as_str().as_bytes(), 32);
        let channel: [u8; 32] = array_at(channel_bytes.as_slice(), 0);
        let command = encode_command(self.command);
        let size = self.data.len() as u32;
        let head = DataHead::new(
            self.host,
            channel,
            routing_mod,
            command,
            route,
            1,
            size,
            0,
            0,
        );
        let mut out = head.serialize_vec();
        push_all(&mut out, self.data.as_slice());
        proof {
            let f = self@;
            let rf = route_field(f.route, f.queue_name);
            assert(head.route0@ =~= slot_at(f.route, 0));
            assert(head.route1@ =~= slot_at(f.route, 1));
            assert(head.route2@ =~= slot_at(f.route, 2));
            assert(head.route3@ =~= fit(encode_utf8(f.queue_name), 32));
            assert(head.channel@ =~= fit(encode_utf8(f.channel), 32));
            assert(out@ =~= frame_bytes(f));
        }
        Ok(out)
    }
}

/// Padding a payload gives the smallest multiple of 256 bytes that holds
/// it: the payload itself followed by zero bytes, with nothing added to a
/// length that is already a multiple of 256 (the empty payload included),
/// so that padding twice is padding once.
pub proof fn lemma_padding(s: Seq<u8>)
    ensures
        padded_len(s.len()) % 256 == 0,
        s.len() <= padded_len(s.len()) < s.len() + 256,
        forall|m: nat| #[trigger] (m % 256) == 0 && m >= s.len() ==> m >= padded_len(s.len()),
        s.len() % 256 == 0 ==> pad_payload(s) == s,
        pad_payload(s).len() == padded_len(s.len()),
        pad_payload(s).subrange(0, s.len() as int) == s,
        forall|i: int| s.len() <= i < pad_payload(s).len() ==> pad_payload(s)[i] == 0,
        pad_payload(pad_payload(s)) == pad_payload(s),
{
    let n = s.len();
    let p = pad_payload(s);
    assert forall|m: nat| #[trigger] (m % 256) == 0 && m >= n implies m >= padded_len(n) by {
        if n % 256 != 0 {
            assert(m / 256 * 256 == m);
            assert(n / 256 * 256 + n % 256 == n);
            assert(m / 256 > n / 256) by (nonlinear_arith)
                requires
                    m / 256 * 256 == m,
                    n / 256 * 256 + n % 256 == n,
                    m >= n,
                    n % 256 > 0,
            ;
            assert(m >= (n / 256 + 1) * 256) by (nonlinear_arith)
                requires
                    m / 256 > n / 256,
                    m / 256 * 256 == m,
            ;
        }
    }
    if n % 256 == 0 {
        assert(p =~= s);
    }
    assert(p.subrange(0, n as int) =~= s);
    assert(p.len() % 256 == 0);
    assert(pad_payload(p) =~= p);
}

} // verus!
