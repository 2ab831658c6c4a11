//! The queue facade: push and fetch frames for one destination, and the
//! classification of fetch replies.

use vstd::prelude::*;
use vstd::utf8::encode_utf8;
use crate::bytes::bytes_result;
use crate::chain::RoutingChain;
use crate::common::{lift_build, ClientError, FetchResult, FetchResultString};
use crate::factory::{
    build_result, pad_payload, CommandType, DataType, FrameDraft, MessageFactory, MessageType,
    Routing, RoutingMod, RoutingModFactory, RoutingType,
};
use crate::proto::DataHead;
use crate::text::{decode_text, strip_nul, text_of, trim_nul};

verus! {

/// Relies on `str::trim`: the result depends on the characters alone.
pub uninterp spec fn trimmed(s: Seq<char>) -> Seq<char>;

/// Relies on `str::trim`, which removes leading and trailing white space.
#[verifier::external_body]
fn trim_space(s: &str) -> (r: String)
    ensures
        r@ == trimmed(s@),
{
    s.trim().to_string()
}

/// A queue reached through one channel and one routing chain.
pub struct Queue {
    routing_chain: RoutingChain,
    channel_name: String,
    host_name: String,
}

pub struct QueueView {
    pub route: Seq<Routing>,
    pub queue_name: Seq<char>,
    pub channel: Seq<char>,
    pub host: Seq<char>,
}

impl View for Queue {
    type V = QueueView;

    closed spec fn view(&self) -> QueueView {
        QueueView {
            route: self.routing_chain.routing_key@,
            queue_name: self.routing_chain.queue_name@,
            channel: self.channel_name@,
            host: self.host_name@,
        }
    }
}

/// The routing mod of a message frame of type `m`.
pub open spec fn message_mod(m: MessageType) -> RoutingMod {
    RoutingMod {
        data_type: DataType::Message,
        command_type: Some(CommandType::Nop),
        message_type: Some(m),
        routing_type: RoutingType::Direct,
    }
}

/// The draft of a message frame of type `m` with payload `data` for a queue.
pub open spec fn queue_draft(q: QueueView, m: MessageType, data: Seq<u8>) -> FrameDraft {
    FrameDraft {
        host: q.host,
        channel: q.channel,
        routing_mod: message_mod(m),
        command: None,
        route: q.route,
        queue_name: q.queue_name,
        data,
    }
}

/// What pushing `data` to a queue gives: the push frame with the padded
/// payload, or why it cannot be built. A payload longer than 0xffff_ff00
/// bytes pads past the 32-bit slice size and is refused at once.
pub open spec fn push_result(q: QueueView, data: Seq<u8>) -> Result<Seq<u8>, ClientError> {
    if data.len() > 0xffff_ff00 {
        Err(ClientError::Build(crate::factory::BuildError::PayloadTooLarge))
    } else {
        lift_build(build_result(queue_draft(q, MessageType::Push, pad_payload(data))))
    }
}

/// What a fetch request to a queue is: the fetch frame, without payload.
pub open spec fn fetch_result(q: QueueView) -> Result<Seq<u8>, ClientError> {
    lift_build(build_result(queue_draft(q, MessageType::Fetch, Seq::empty())))
}

/// How a fetch reply is classified: data under a zero error code is a
/// success, any other error code means no item, a reply without header or
/// payload is empty, and a failure is passed on.
pub open spec fn classify(reply: Result<(Option<DataHead>, Option<Vec<u8>>), ClientError>) -> FetchResult {
    match reply {
        Ok((Some(h), Some(d))) => if h.errcode == 0 {
            FetchResult::Success(d)
        } else {
            FetchResult::FailedNoItem
        },
        Ok(_) => FetchResult::FailedEmptyMessage,
        Err(e) => FetchResult::FailedError(e),
    }
}

/// The text of a fetched payload: decoded, without trailing NULs, trimmed.
pub open spec fn fetched_text(d: Seq<u8>) -> Option<Seq<char>> {
    match text_of(d) {
        Some(t) => Some(trimmed(trim_nul(t))),
        None => None,
    }
}

impl Queue {
    pub fn new(routing_chain: RoutingChain, channel_name: String, host_name: String) -> (r: Queue)
        ensures
            r@ == (QueueView {
                route: routing_chain.routing_key@,
                queue_name: routing_chain.queue_name@,
                channel: channel_name@,
                host: host_name@,
            }),
    {
        Queue { routing_chain, channel_name, host_name }
    }

    fn message(&self, m: MessageType) -> (r: MessageFactory)
        ensures
            r@ == queue_draft(self@, m, Seq::empty()),
    {
        let routing_mod = RoutingModFactory::new().data_type(DataType::Message).message_type(
            m,
        ).routing_type(RoutingType::Direct).build();
        MessageFactory::new(self.host_name.clone(), self.channel_name.clone()).routing_mod(
            routing_mod,
        ).routing_chain(self.routing_chain.clone())
    }

    /// The push frame that carries `data` to this queue.
    pub fn push(&self, data: Vec<u8>) -> (r: Result<Vec<u8>, ClientError>)
        ensures
            bytes_result(r) == push_result(self@, data@),
    {
        if data.len() > 0xffff_ff00usize {
            return Err(ClientError::Build(crate::factory::BuildError::PayloadTooLarge));
        }
        match self.message(MessageType::Push).data(data).build() {
            Ok(v) => Ok(v),
            Err(e) => Err(ClientError::Build(e)),
        }
    }

    /// The push frame that carries the bytes of `data` to this queue.
    pub fn push_string(&self, data: String) -> (r: Result<Vec<u8>, ClientError>)
        ensures
            bytes_result(r) == push_result(self@, encode_utf8(data@)),
    {
        let bytes = vstd::slice::slice_to_vec(data.as_str().as_bytes());
        self.push(bytes)
    }

    /// The fetch request frame of this queue.
    pub fn fetch(&self) -> (r: Result<Vec<u8>, ClientError>)
        ensures
            bytes_result(r) == fetch_result(self@),
    {
        match self.message(MessageType::Fetch).build() {
            Ok(v) => Ok(v),
            Err(e) => Err(ClientError::Build(e)),
        }
    }

    /// A fetch reply with its payload as text; `NotText` when the payload is
    /// not valid UTF-8.
    pub fn fetch_string(reply: Result<(Option<DataHead>, Option<Vec<u8>>), ClientError>) -> (r: Result<
        (Option<DataHead>, Option<String>),
        ClientError,
    >)
        ensures
            match reply {
                Err(e) => r == Err::<(Option<DataHead>, Option<String>), ClientError>(e),
                Ok((h, None)) => r is Ok && r->Ok_0.0 == h && r->Ok_0.1 is None,
                Ok((h, Some(d))) => match text_of(d@) {
                    Some(t) => r is Ok && r->Ok_0.0 == h && r->Ok_0.1 is Some
                        && r->Ok_0.1->Some_0@ == t,
                    None => r == Err::<(Option<DataHead>, Option<String>), ClientError>(
                        ClientError::NotText,
                    ),
                },
            },
    {
        match reply {
            Err(e) => Err(e),
            Ok((h, None)) => Ok((h, None)),
            Ok((h, Some(d))) => match decode_text(d) {
                Some(t) => Ok((h, Some(t))),
                None => Err(ClientError::NotText),
            },
        }
    }

    /// Classifies a fetch reply; see [`classify`].
    pub fn fetch_simple(reply: Result<(Option<DataHead>, Option<Vec<u8>>), ClientError>) -> (r: FetchResult)
        ensures
            r == classify(reply),
    {
        match reply {
            Ok((Some(h), Some(d))) => {
                if h.errcode == 0 {
                    FetchResult::Success(d)
                } else {
                    FetchResult::FailedNoItem
                }
            },
            Ok(_) => FetchResult::FailedEmptyMessage,
            Err(e) => FetchResult::FailedError(e),
        }
    }

    /// A classified fetch reply with a successful payload turned into text
    /// (see [`fetched_text`]), or `FailedNotUtf8`.
    pub fn fetch_simple_string(result: FetchResult) -> (r: FetchResultString)
        ensures
            match result {
                FetchResult::Success(d) => match fetched_text(d@) {
                    Some(t) => r is Success && r->Success_0@ == t,
                    None => r == FetchResultString::FailedNotUtf8,
                },
                FetchResult::FailedNoItem => r == FetchResultString::FailedNoItem,
                FetchResult::FailedEmptyMessage => r == FetchResultString::FailedEmptyMessage,
                FetchResult::FailedError(e) => r == FetchResultString::FailedError(e),
            },
    {
        match result {
            FetchResult::Success(d) => match decode_text(d) {
                Some(s) => {
                    let t = strip_nul(s.as_str());
                    FetchResultString::Success(trim_space(t.as_str()))
                },
                None => FetchResultString::FailedNotUtf8,
            },
            FetchResult::FailedNoItem => FetchResultString::FailedNoItem,
            FetchResult::FailedEmptyMessage => FetchResultString::FailedEmptyMessage,
            FetchResult::FailedError(e) => FetchResultString::FailedError(e),
        }
    }
}

} // verus!
