use std::collections::VecDeque;

use mq_client::chain::RoutingChainFactory;
use mq_client::common::{ChannelApi, ChannelQueueApi, ClientError, FetchResult, FetchResultString};
use mq_client::factory::{CommandType, DataType, Routing, RoutingModFactory, RoutingType};
use mq_client::proto::{DataHead, Deserialize};
use mq_client::queue::Queue;
use mq_client::session::{ReadStep, Session};

fn padded(s: &str, n: usize) -> Vec<u8> {
    let mut v = s.as_bytes().to_vec();
    v.resize(n, 0);
    v
}

fn head_of(frame: &[u8]) -> DataHead {
    DataHead::deserialize(<[u8; 256]>::try_from(&frame[0..256]).unwrap())
}

fn reply(channel: &str, errcode: u16, payload: Vec<u8>) -> (DataHead, Vec<u8>) {
    let mut ch = [0u8; 32];
    ch[..channel.len()].copy_from_slice(channel.as_bytes());
    let h = DataHead::new(
        "MQ_HOST".to_string(),
        ch,
        [0; 4],
        [0; 24],
        [0; 128],
        1,
        payload.len() as u32,
        0,
        errcode,
    );
    (h, payload)
}

/// A stand-in for the broker: one FIFO queue that answers fetch frames.
struct Broker {
    items: VecDeque<Vec<u8>>,
}

impl Broker {
    fn take(&mut self, frame: &[u8]) -> Option<(DataHead, Vec<u8>)> {
        let h = head_of(frame);
        let channel = String::from_utf8(h.channel.to_vec()).unwrap();
        let channel = channel.trim_end_matches('\0').to_string();
        match (h.routing_mod[0], h.routing_mod[1]) {
            (0, 0) => {
                self.items.push_back(frame[256..].to_vec());
                None
            }
            (0, 1) => Some(match self.items.pop_front() {
                Some(p) => reply(&channel, 0, p),
                None => reply(&channel, 0xf, vec![]),
            }),
            _ => None,
        }
    }
}

fn fetch_once(s: &mut Session, q: &Queue, broker: &mut Broker, name: &String) -> FetchResult {
    let frame = s.send(name, q.fetch().unwrap()).unwrap();
    let arrived = broker.take(&frame);
    let r = match s.read(name).unwrap() {
        ReadStep::Cached(p) => Ok((None, Some(p))),
        ReadStep::Wait => s.deliver(name, arrived).map(|(h, p)| (h, Some(p))),
    };
    Queue::fetch_simple(r)
}

#[test]
fn end_to_end_push_then_fetch_in_order() {
    let mut s = Session::new("MQ_HOST".to_string());
    let name = "MQ_CHANNEL".to_string();
    let mut ch = s.create_channel(name.clone()).unwrap();
    let mut broker = Broker { items: VecDeque::new() };

    let exchange = ch
        .get_factory()
        .routing_mod(
            RoutingModFactory::new()
                .data_type(DataType::Command)
                .command_type(CommandType::NewExchange)
                .routing_type(RoutingType::Direct)
                .build(),
        )
        .route(Routing::Stop)
        .data(b"base_exc".to_vec())
        .build()
        .unwrap();
    assert_eq!(exchange.len(), 512);
    assert_eq!(&exchange[68..72], &[1, 1, 0, 0]);
    assert_eq!(&exchange[96..128], padded("!", 32).as_slice());
    assert_eq!(&exchange[256..512], padded("base_exc", 256).as_slice());

    let chain = RoutingChainFactory::new()
        .add_key(Routing::Route("base_exc".to_string()))
        .add_key(Routing::Stop)
        .set_queue_name(String::new())
        .build()
        .unwrap();
    let declare = ch.create_queue("base_queue".to_string(), chain).unwrap();
    assert_eq!(&declare[68..72], &[1, 0, 0, 0]);
    assert_eq!(&declare[96..128], padded("base_exc", 32).as_slice());
    assert_eq!(&declare[128..160], padded("!", 32).as_slice());
    assert_eq!(&declare[256..512], padded("base_queue", 256).as_slice());
    s.send(&name, exchange).unwrap();
    s.send(&name, declare).unwrap();

    let chain = RoutingChainFactory::new()
        .add_key(Routing::Route("base_exc".to_string()))
        .add_key(Routing::Stop)
        .set_queue_name("base_queue".to_string())
        .build()
        .unwrap();
    let q = ch.get_queue(chain).unwrap();
    for i in 1..100 {
        let frame = q.push_string(format!("hello world {}", i)).unwrap();
        assert_eq!(&frame[68..72], &[0, 0, 0, 0]);
        assert_eq!(&frame[192..224], padded("base_queue", 32).as_slice());
        let frame = s.send(&name, frame).unwrap();
        assert!(broker.take(&frame).is_none());
    }
    for i in 1..100 {
        let r = fetch_once(&mut s, &q, &mut broker, &name);
        match Queue::fetch_simple_string(r) {
            FetchResultString::Success(text) => assert_eq!(text, format!("hello world {}", i)),
            _ => panic!("fetch {} failed", i),
        }
    }
    let r = fetch_once(&mut s, &q, &mut broker, &name);
    assert!(matches!(r, FetchResult::FailedNoItem));
}

#[test]
fn fetch_on_empty_queue_is_no_item() {
    let (h, p) = reply("c", 0xf, vec![]);
    assert!(matches!(Queue::fetch_simple(Ok((Some(h), Some(p)))), FetchResult::FailedNoItem));
    assert!(matches!(
        Queue::fetch_simple_string(FetchResult::FailedNoItem),
        FetchResultString::FailedNoItem
    ));
}

#[test]
fn fetch_reply_classification() {
    let (h, p) = reply("c", 0, vec![1, 2]);
    match Queue::fetch_simple(Ok((Some(h), Some(p)))) {
        FetchResult::Success(d) => assert_eq!(d, vec![1, 2]),
        _ => panic!("expected success"),
    }
    assert!(matches!(
        Queue::fetch_simple(Ok((None, Some(vec![1])))),
        FetchResult::FailedEmptyMessage
    ));
    let (h, _) = reply("c", 0, vec![]);
    assert!(matches!(Queue::fetch_simple(Ok((Some(h), None))), FetchResult::FailedEmptyMessage));
    assert!(matches!(
        Queue::fetch_simple(Err(ClientError::ReadFailed)),
        FetchResult::FailedError(ClientError::ReadFailed)
    ));
    assert!(matches!(
        Queue::fetch_simple_string(FetchResult::FailedError(ClientError::Transport)),
        FetchResultString::FailedError(ClientError::Transport)
    ));
    assert!(matches!(
        Queue::fetch_simple_string(FetchResult::FailedEmptyMessage),
        FetchResultString::FailedEmptyMessage
    ));
}

#[test]
fn fetched_text_is_stripped_and_trimmed() {
    let mut bytes = b"  hi there \t".to_vec();
    bytes.resize(256, 0);
    match Queue::fetch_simple_string(FetchResult::Success(bytes)) {
        FetchResultString::Success(s) => assert_eq!(s, "hi there"),
        _ => panic!("expected text"),
    }
}

#[test]
fn fetched_bytes_that_are_not_text() {
    assert!(matches!(
        Queue::fetch_simple_string(FetchResult::Success(vec![0xff, 0xfe])),
        FetchResultString::FailedNotUtf8
    ));
    let (h, _) = reply("c", 0, vec![]);
    assert_eq!(
        Queue::fetch_string(Ok((Some(h), Some(vec![0xc3])))).err(),
        Some(ClientError::NotText)
    );
    let (_, text) = Queue::fetch_string(Ok((None, Some(b"ok\0".to_vec())))).unwrap();
    assert_eq!(text.unwrap(), "ok\0");
}

#[test]
fn closed_channel_refuses_admin_and_queue() {
    let mut s = Session::new("MQ_HOST".to_string());
    let mut ch = s.create_channel("A".to_string()).unwrap();
    ch.close().unwrap();
    let chain = RoutingChainFactory::new().set_queue_name("q".to_string()).build().unwrap();
    assert_eq!(
        ch.create_exchange("e".to_string(), chain.clone()).err(),
        Some(ClientError::ChannelClosed)
    );
    assert_eq!(ch.drop_queue("q".to_string(), chain.clone()).err(), Some(ClientError::ChannelClosed));
    assert!(matches!(ch.get_queue(chain), Err(ClientError::ChannelClosed)));
}

#[test]
fn admin_frames_carry_their_command_type() {
    let mut s = Session::new("MQ_HOST".to_string());
    let mut ch = s.create_channel("A".to_string()).unwrap();
    let chain = RoutingChainFactory::new().set_queue_name("q".to_string()).build().unwrap();
    let f = ch.drop_exchange("e".to_string(), chain.clone()).unwrap();
    assert_eq!(&f[68..72], &[1, 4, 0, 0]);
    let f = ch.create_exchange("e".to_string(), chain.clone()).unwrap();
    assert_eq!(&f[68..72], &[1, 1, 0, 0]);
    let f = ch.drop_queue("q".to_string(), chain).unwrap();
    assert_eq!(&f[68..72], &[1, 3, 0, 0]);
    assert_eq!(&f[0..32], padded("MQ_HOST", 32).as_slice());
}

#[test]
fn push_pads_payload_and_fetch_has_none() {
    let chain = RoutingChainFactory::new()
        .add_key(Routing::Route("x".to_string()))
        .set_queue_name("q".to_string())
        .build()
        .unwrap();
    let q = Queue::new(chain, "A".to_string(), "H".to_string());
    let f = q.push(vec![5u8; 300]).unwrap();
    assert_eq!(f.len(), 256 + 512);
    assert_eq!(head_of(&f).slice_size, 512);
    let f = q.fetch().unwrap();
    assert_eq!(f.len(), 256);
    assert_eq!(&f[68..72], &[0, 1, 0, 0]);
}
