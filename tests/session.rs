use mq_client::channel::Channel;
use mq_client::common::ClientError;
use mq_client::proto::DataHead;
use mq_client::session::{ReadStep, Session};

fn head_for(channel: &str, errcode: u16, size: u32) -> DataHead {
    let mut ch = [0u8; 32];
    ch[..channel.len()].copy_from_slice(channel.as_bytes());
    DataHead::new("MQ_HOST".to_string(), ch, [0; 4], [0; 24], [0; 128], 1, size, 0, errcode)
}

fn session_with(names: &[&str]) -> Session {
    let mut s = Session::new("MQ_HOST".to_string());
    for n in names {
        assert!(s.create_channel(n.to_string()).is_some());
    }
    s
}

#[test]
fn duplicate_channel_name_is_refused() {
    let mut s = Session::new("MQ_HOST".to_string());
    let ch = s.create_channel("A".to_string()).unwrap();
    assert_eq!(ch.name(), "A");
    assert_eq!(ch.host_name(), "MQ_HOST");
    assert!(!ch.is_closed());
    assert!(s.create_channel("A".to_string()).is_none());
    assert_eq!(s.is_closed(&"A".to_string()), Ok(false));
}

#[test]
fn frame_for_other_channel_is_cached_for_it() {
    let mut s = session_with(&["A", "B"]);
    let a = "A".to_string();
    let b = "B".to_string();
    assert!(matches!(s.read(&a), Ok(ReadStep::Wait)));
    let r = s.deliver(&a, Some((head_for("B", 0, 3), vec![1, 2, 3])));
    assert_eq!(r.err(), Some(ClientError::ReadFailed));
    match s.read(&b) {
        Ok(ReadStep::Cached(p)) => assert_eq!(p, vec![1, 2, 3]),
        _ => panic!("payload for B was not cached"),
    }
    assert!(matches!(s.read(&b), Ok(ReadStep::Wait)));
    assert!(matches!(s.read(&a), Ok(ReadStep::Wait)));
}

#[test]
fn reader_gets_its_own_cached_payload_not_the_arriving_one() {
    let mut s = session_with(&["A", "B"]);
    let a = "A".to_string();
    let b = "B".to_string();
    assert!(s.deliver(&b, Some((head_for("A", 0, 1), vec![7]))).is_err());
    let (h, p) = s.deliver(&a, Some((head_for("B", 0, 1), vec![8]))).unwrap();
    assert!(h.is_none());
    assert_eq!(p, vec![7]);
    match s.read(&b) {
        Ok(ReadStep::Cached(p)) => assert_eq!(p, vec![8]),
        _ => panic!("payload for B was not cached"),
    }
}

#[test]
fn cache_is_fifo() {
    let mut s = session_with(&["A", "B"]);
    let a = "A".to_string();
    let b = "B".to_string();
    for i in 0..3u8 {
        let _ = s.deliver(&a, Some((head_for("B", 0, 1), vec![i])));
    }
    for i in 0..3u8 {
        match s.read(&b) {
            Ok(ReadStep::Cached(p)) => assert_eq!(p, vec![i]),
            _ => panic!("missing cached payload"),
        }
    }
}

#[test]
fn own_frame_is_returned_with_header() {
    let mut s = session_with(&["A"]);
    let a = "A".to_string();
    let (h, p) = s.deliver(&a, Some((head_for("A", 0xf, 2), vec![4, 5]))).unwrap();
    assert_eq!(h.unwrap().errcode, 0xf);
    assert_eq!(p, vec![4, 5]);
}

#[test]
fn timeout_falls_back_to_cache() {
    let mut s = session_with(&["A", "B"]);
    let a = "A".to_string();
    let b = "B".to_string();
    assert_eq!(s.deliver(&a, None).err(), Some(ClientError::ReadFailed));
    let _ = s.deliver(&a, Some((head_for("B", 0, 1), vec![3])));
    let (h, p) = s.deliver(&b, None).unwrap();
    assert!(h.is_none());
    assert_eq!(p, vec![3]);
}

#[test]
fn frame_for_unknown_channel_is_dropped() {
    let mut s = session_with(&["A"]);
    let a = "A".to_string();
    assert_eq!(
        s.deliver(&a, Some((head_for("Z", 0, 1), vec![1]))).err(),
        Some(ClientError::ReadFailed)
    );
    assert!(matches!(s.read(&a), Ok(ReadStep::Wait)));
}

#[test]
fn channel_field_that_is_not_text_is_reported() {
    let mut s = session_with(&["A"]);
    let mut h = head_for("A", 0, 1);
    h.channel[0] = 0xff;
    assert_eq!(
        s.deliver(&"A".to_string(), Some((h, vec![1]))).err(),
        Some(ClientError::NotText)
    );
}

#[test]
fn unknown_channel_is_refused() {
    let mut s = session_with(&["A"]);
    let z = "Z".to_string();
    assert_eq!(s.read(&z).err(), Some(ClientError::UnknownChannel));
    assert_eq!(s.deliver(&z, None).err(), Some(ClientError::UnknownChannel));
    assert_eq!(s.send(&z, vec![1]).err(), Some(ClientError::UnknownChannel));
    assert_eq!(s.close_channel(&z).err(), Some(ClientError::UnknownChannel));
    assert_eq!(s.drop_channel(&z).err(), Some(ClientError::UnknownChannel));
    assert_eq!(s.is_closed(&z), Err(ClientError::UnknownChannel));
}

#[test]
fn close_sends_one_frame_then_refuses() {
    let mut ch = Channel::new("MQ_HOST".to_string(), "A".to_string());
    let frame = ch.close().unwrap();
    assert_eq!(frame.len(), 256);
    assert_eq!(&frame[72..80], b"CLOSE-CH");
    assert_eq!(&frame[32..33], b"A");
    assert!(ch.is_closed());
    assert_eq!(ch.close().err(), Some(ClientError::ChannelClosed));
    assert_eq!(ch.send(vec![1]).err(), Some(ClientError::ChannelClosed));
}

#[test]
fn session_refuses_closed_channel() {
    let mut s = session_with(&["A", "B"]);
    let a = "A".to_string();
    let b = "B".to_string();
    let _ = s.deliver(&b, Some((head_for("A", 0, 1), vec![1])));
    let frame = s.close_channel(&a).unwrap();
    assert_eq!(&frame[72..80], b"CLOSE-CH");
    assert_eq!(s.is_closed(&a), Ok(true));
    assert_eq!(s.close_channel(&a).err(), Some(ClientError::ChannelClosed));
    assert_eq!(s.send(&a, vec![1]).err(), Some(ClientError::ChannelClosed));
    assert_eq!(s.read(&a).err(), Some(ClientError::ChannelClosed));
    assert_eq!(s.deliver(&a, None).err(), Some(ClientError::ChannelClosed));
    assert_eq!(s.send(&b, vec![1, 2]), Ok(vec![1, 2]));
}

#[test]
fn drop_channel_closes_open_channel_once() {
    let mut s = session_with(&["A", "B"]);
    let a = "A".to_string();
    let b = "B".to_string();
    let f = s.drop_channel(&a).unwrap().unwrap();
    assert_eq!(&f[72..80], b"CLOSE-CH");
    assert_eq!(s.is_closed(&a), Err(ClientError::UnknownChannel));
    let _ = s.close_channel(&b).unwrap();
    assert_eq!(s.drop_channel(&b), Ok(None));
    assert!(s.create_channel(a.clone()).is_some());
}

#[test]
fn session_close_closes_open_channels_and_clears() {
    let mut s = session_with(&["A", "B", "C"]);
    let _ = s.close_channel(&"B".to_string()).unwrap();
    let frames = s.close();
    assert_eq!(frames.len(), 2);
    assert_eq!(&frames[0][32..33], b"A");
    assert_eq!(&frames[1][32..33], b"C");
    assert_eq!(s.is_closed(&"A".to_string()), Err(ClientError::UnknownChannel));
    assert_eq!(s.host(), "MQ_HOST");
}

#[test]
fn drop_all_channels_keeps_them_registered() {
    let mut s = session_with(&["A", "B"]);
    let frames = s.drop_all_channels();
    assert_eq!(frames.len(), 2);
    assert_eq!(s.is_closed(&"A".to_string()), Ok(true));
    assert!(s.drop_all_channels().is_empty());
}
