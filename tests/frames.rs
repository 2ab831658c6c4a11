use mq_client::chain::{RoutingChain, RoutingChainFactory};
use mq_client::factory::{
    BuildError, Command, CommandType, DataType, MessageFactory, MessageType, Routing, RoutingMod,
    RoutingModFactory, RoutingType,
};
use mq_client::key::RoutingKey;
use mq_client::proto::{DataHead, Deserialize, Serialize};

fn padded(s: &str, n: usize) -> Vec<u8> {
    let mut v = s.as_bytes().to_vec();
    v.resize(n, 0);
    v
}

fn sample_head() -> DataHead {
    let mut route = [0u8; 128];
    route[0] = b'x';
    route[96] = b'q';
    let mut channel = [0u8; 32];
    channel[0] = b'c';
    DataHead::new(
        "H".repeat(32),
        channel,
        [1, 2, 3, 0],
        [0u8; 24],
        route,
        1,
        512,
        7,
        0xf,
    )
}

#[test]
fn header_round_trip_boundary_values() {
    let h = sample_head();
    let bytes = h.serialize();
    assert_eq!(bytes.len(), 256);
    assert_eq!(h.serialize_vec(), bytes.to_vec());
    let back = DataHead::deserialize(bytes);
    assert_eq!(back.virtual_host, [b'H'; 32]);
    assert_eq!(back.channel, h.channel);
    assert_eq!(back.version, [1, 0, 0, 0]);
    assert_eq!(back.routing_mod, [1, 2, 3, 0]);
    assert_eq!(back.command, [0u8; 24]);
    assert_eq!(back.route0, h.route0);
    assert_eq!(back.route3, h.route3);
    assert_eq!(back.route3[0], b'q');
    assert_eq!(back.slice_count, 1);
    assert_eq!(back.slice_size, 512);
    assert_eq!(back.count, 7);
    assert_eq!(back.errcode, 0xf);
    assert_eq!(back.ack, 0);
    assert_eq!(back.reserved, [0u8; 16]);
    assert_eq!(back.serialize().to_vec(), bytes.to_vec());
}

#[test]
fn header_integers_are_little_endian() {
    let h = sample_head();
    let b = h.serialize();
    assert_eq!(&b[224..228], &[1, 0, 0, 0]);
    assert_eq!(&b[228..232], &[0, 2, 0, 0]);
    assert_eq!(&b[232..236], &[7, 0, 0, 0]);
    assert_eq!(&b[236..238], &[0xf, 0]);
    assert_eq!(&b[64..68], &[1, 0, 0, 0]);
    assert_eq!(h.payload_len(), 512);
}

#[test]
fn long_virtual_host_is_cut_to_32_bytes() {
    let h = DataHead::new("V".repeat(40), [0u8; 32], [0; 4], [0; 24], [0; 128], 0, 0, 0, 0);
    assert_eq!(h.virtual_host, [b'V'; 32]);
}

fn payload_len_after_padding(len: usize) -> usize {
    let frame = MessageFactory::new("h".to_string(), "c".to_string())
        .data(vec![9u8; len])
        .build()
        .unwrap();
    let head = DataHead::deserialize(<[u8; 256]>::try_from(&frame[0..256]).unwrap());
    assert_eq!(head.slice_count, 1);
    assert_eq!(head.slice_size as usize, frame.len() - 256);
    assert!(frame[256 + len..].iter().all(|b| *b == 0));
    assert!(frame[256..256 + len].iter().all(|b| *b == 9));
    frame.len() - 256
}

#[test]
fn padding_boundaries() {
    assert_eq!(payload_len_after_padding(0), 0);
    assert_eq!(payload_len_after_padding(255), 256);
    assert_eq!(payload_len_after_padding(256), 256);
    assert_eq!(payload_len_after_padding(257), 512);
    assert_eq!(payload_len_after_padding(512), 512);
}

#[test]
fn chain_keeps_first_three_keys() {
    let chain = RoutingChainFactory::new()
        .add_key(Routing::Route("a".to_string()))
        .add_key(Routing::Route("b".to_string()))
        .add_key(Routing::Stop)
        .add_key(Routing::Route("d".to_string()))
        .add_key(Routing::Any)
        .set_queue_name("q".to_string())
        .build()
        .unwrap();
    assert_eq!(chain.routing_key.len(), 3);
    assert!(matches!(&chain.routing_key[0], Routing::Route(s) if s == "a"));
    assert!(matches!(&chain.routing_key[1], Routing::Route(s) if s == "b"));
    assert!(matches!(&chain.routing_key[2], Routing::Stop));
    assert_eq!(chain.queue_name, "q");
}

#[test]
fn chain_with_one_key_leaves_empty_slots() {
    let chain = RoutingChainFactory::new()
        .add_key(Routing::Route("exc".to_string()))
        .set_queue_name("q".to_string())
        .build()
        .unwrap();
    assert_eq!(chain.routing_key.len(), 1);
    let frame = MessageFactory::new("h".to_string(), "c".to_string())
        .routing_chain(chain)
        .build()
        .unwrap();
    assert_eq!(&frame[96..128], padded("exc", 32).as_slice());
    assert_eq!(&frame[128..160], [0u8; 32].as_slice());
    assert_eq!(&frame[160..192], [0u8; 32].as_slice());
    assert_eq!(&frame[192..224], padded("q", 32).as_slice());
}

#[test]
fn stop_slot_differs_from_empty_slot() {
    let frame = MessageFactory::new("h".to_string(), "c".to_string())
        .route(Routing::Stop)
        .build()
        .unwrap();
    assert_eq!(&frame[96..128], padded("!", 32).as_slice());
    assert_eq!(&frame[128..160], [0u8; 32].as_slice());
}

#[test]
fn chain_without_queue_name_fails() {
    let r = RoutingChainFactory::new().add_key(Routing::Stop).build();
    assert!(matches!(r, Err(BuildError::MissingQueueName)));
}

#[test]
fn chain_with_wildcard_fails() {
    let r = RoutingChainFactory::new()
        .add_key(Routing::Any)
        .set_queue_name("q".to_string())
        .build();
    assert!(matches!(r, Err(BuildError::Wildcard)));
}

#[test]
fn frame_with_wildcard_fails() {
    let r = MessageFactory::new("h".to_string(), "c".to_string())
        .route(Routing::Stop)
        .route(Routing::Any)
        .build();
    assert_eq!(r, Err(BuildError::Wildcard));
}

#[test]
fn frame_without_subtype_fails() {
    let m = RoutingMod {
        data_type: DataType::Message,
        command_type: Some(CommandType::NewQueue),
        message_type: None,
        routing_type: RoutingType::Direct,
    };
    let r = MessageFactory::new("h".to_string(), "c".to_string()).routing_mod(m).build();
    assert_eq!(r, Err(BuildError::MissingSubtype));
}

#[test]
fn routing_mod_bytes_encode_kind_subtype_and_type() {
    let m = RoutingModFactory::new()
        .data_type(DataType::Command)
        .command_type(CommandType::DropExchange)
        .routing_type(RoutingType::Fanout)
        .build();
    assert_eq!(m.data_type, DataType::Command);
    assert_eq!(m.command_type, Some(CommandType::DropExchange));
    assert_eq!(m.message_type, Some(MessageType::Nop));
    let frame = MessageFactory::new("h".to_string(), "c".to_string())
        .routing_mod(m)
        .build()
        .unwrap();
    assert_eq!(&frame[68..72], &[1, 4, 2, 0]);

    let m = RoutingModFactory::new()
        .message_type(MessageType::Fetch)
        .routing_type(RoutingType::Topic)
        .build();
    let frame = MessageFactory::new("h".to_string(), "c".to_string())
        .routing_mod(m)
        .build()
        .unwrap();
    assert_eq!(&frame[68..72], &[0, 1, 1, 0]);

    let frame = MessageFactory::new("h".to_string(), "c".to_string()).build().unwrap();
    assert_eq!(&frame[68..72], &[0, 0xf, 0, 0]);
}

#[test]
fn command_field_is_zero_or_close_token() {
    let plain = MessageFactory::new("host".to_string(), "chan".to_string())
        .build()
        .unwrap();
    assert_eq!(plain.len(), 256);
    assert_eq!(&plain[72..96], [0u8; 24].as_slice());
    assert_eq!(&plain[0..32], padded("host", 32).as_slice());
    assert_eq!(&plain[32..64], padded("chan", 32).as_slice());
    let close = MessageFactory::new("host".to_string(), "chan".to_string())
        .command(Command::CloseChannel)
        .build()
        .unwrap();
    assert_eq!(&close[72..96], padded("CLOSE-CH", 24).as_slice());
}

#[test]
fn queue_name_setter_fills_last_slot() {
    let frame = MessageFactory::new("h".to_string(), "c".to_string())
        .route(Routing::Route("base_exc".to_string()))
        .route(Routing::Stop)
        .queue_name("base_queue".to_string())
        .build()
        .unwrap();
    assert_eq!(&frame[96..128], padded("base_exc", 32).as_slice());
    assert_eq!(&frame[128..160], padded("!", 32).as_slice());
    assert_eq!(&frame[160..192], [0u8; 32].as_slice());
    assert_eq!(&frame[192..224], padded("base_queue", 32).as_slice());
}

#[test]
fn routing_chain_new_and_clone() {
    let chain = RoutingChain::new(
        [Routing::Route("a".to_string()), Routing::Stop, Routing::Stop],
        "q".to_string(),
    );
    let copy = chain.clone();
    assert_eq!(copy.routing_key.len(), 3);
    assert!(matches!(&copy.routing_key[0], Routing::Route(s) if s == "a"));
    assert_eq!(copy.queue_name, "q");
}

#[test]
fn routing_key_clone_keeps_names() {
    let k = RoutingKey::Topic(["a".to_string(), "b".to_string(), "c".to_string(), "q".to_string()]);
    match k.clone() {
        RoutingKey::Topic(a) => assert_eq!(a, ["a", "b", "c", "q"]),
        _ => panic!("wrong kind"),
    }
}
