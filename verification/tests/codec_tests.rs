use snarkos_network::data::Data;
use snarkos_network::message::{CodecError, Message};

const MAX: usize = 128 * 1024 * 1024;

fn encode_to_vec(m: &Message) -> Vec<u8> {
    let mut out: Vec<u8> = Vec::new();
    m.encode(&mut out);
    out
}

#[test]
fn disconnect_encodes_to_minimal_frame() {
    let bytes = encode_to_vec(&Message::Disconnect);
    assert_eq!(bytes, vec![0x02, 0x00, 0x00, 0x00, 0x04, 0x00]);
}

#[test]
fn disconnect_decodes_back() {
    let mut buf = vec![0x02, 0x00, 0x00, 0x00, 0x04, 0x00];
    let r = Message::decode(&mut buf, MAX).unwrap().unwrap();
    assert!(matches!(r, Message::Disconnect));
    assert!(buf.is_empty());
}

#[test]
fn disconnect_frame_with_trailing_byte_leaves_it() {
    let mut buf = vec![0x02, 0x00, 0x00, 0x00, 0x04, 0x00, 0xFF];
    let r = Message::decode(&mut buf, MAX).unwrap().unwrap();
    assert!(matches!(r, Message::Disconnect));
    assert_eq!(buf, vec![0xFF]);
    // the leftover is a partial next frame: the decoder just waits
    let r2 = Message::decode(&mut buf, MAX).unwrap();
    assert!(r2.is_none());
    assert_eq!(buf, vec![0xFF]);
}

#[test]
fn block_request_encodes_exactly() {
    let bytes = encode_to_vec(&Message::BlockRequest(100, 349));
    let expected = vec![
        0x0A, 0x00, 0x00, 0x00, // length = 10
        0x00, 0x00, // id = 0
        0x64, 0x00, 0x00, 0x00, // start = 100
        0x5D, 0x01, 0x00, 0x00, // end = 349
    ];
    assert_eq!(bytes, expected);
}

#[test]
fn block_request_decodes_back() {
    let mut buf = encode_to_vec(&Message::BlockRequest(100, 349));
    let r = Message::decode(&mut buf, MAX).unwrap().unwrap();
    match r {
        Message::BlockRequest(start, end) => {
            assert_eq!(start, 100);
            assert_eq!(end, 349);
        }
        _ => panic!("wrong variant"),
    }
}

#[test]
fn pong_fork_discriminant_three_is_invalid() {
    // frame: length 2 (id) + 1 (discriminant) = 3; id 8; byte 0x03
    let mut buf = vec![0x03, 0x00, 0x00, 0x00, 0x08, 0x00, 0x03];
    let r = Message::decode(&mut buf, MAX);
    assert!(matches!(r, Err(CodecError::InvalidMessage)));
    // the offending frame was consumed whole
    assert!(buf.is_empty());
}

#[test]
fn pong_fork_discriminants_decode() {
    for (byte, expect) in [(0u8, None), (1u8, Some(true)), (2u8, Some(false))] {
        let mut buf = vec![0x03, 0x00, 0x00, 0x00, 0x08, 0x00, byte];
        let r = Message::decode(&mut buf, MAX).unwrap().unwrap();
        match r {
            Message::Pong(is_fork, _) => assert_eq!(is_fork, expect),
            _ => panic!("wrong variant"),
        }
    }
}

#[test]
fn frame_over_ceiling_is_frame_too_large() {
    // declared length = 128 MiB + 1
    let declared: u32 = 128 * 1024 * 1024 + 1;
    let mut buf = declared.to_le_bytes().to_vec();
    let r = Message::decode(&mut buf, MAX);
    assert!(matches!(r, Err(CodecError::FrameTooLarge)));
    // the buffer is untouched, however much payload has arrived
    assert_eq!(buf.len(), 4);

    let mut buf2 = declared.to_le_bytes().to_vec();
    buf2.extend_from_slice(&[0u8; 64]);
    let r2 = Message::decode(&mut buf2, MAX);
    assert!(matches!(r2, Err(CodecError::FrameTooLarge)));
    assert_eq!(buf2.len(), 68);
}

#[test]
fn frame_at_ceiling_is_accepted_in_principle() {
    // declared length exactly the ceiling: not too large, just incomplete
    let declared: u32 = 128 * 1024 * 1024;
    let mut buf = declared.to_le_bytes().to_vec();
    let r = Message::decode(&mut buf, MAX);
    assert!(matches!(r, Ok(None)));
    assert_eq!(buf.len(), 4);
}

#[test]
fn partial_frames_ask_for_more_data() {
    let full = encode_to_vec(&Message::BlockRequest(7, 9));
    for k in 0..full.len() {
        let mut buf = full[..k].to_vec();
        let r = Message::decode(&mut buf, MAX);
        assert!(matches!(r, Ok(None)), "prefix of {} bytes", k);
        assert_eq!(buf.len(), k, "buffer advanced on a partial frame");
    }
}

#[test]
fn empty_buffer_asks_for_more_data() {
    let mut buf: Vec<u8> = Vec::new();
    assert!(matches!(Message::decode(&mut buf, MAX), Ok(None)));
    assert!(buf.is_empty());
}

#[test]
fn two_frames_decode_in_order() {
    let mut buf = encode_to_vec(&Message::PeerRequest);
    buf.extend_from_slice(&encode_to_vec(&Message::Disconnect));
    let first = Message::decode(&mut buf, MAX).unwrap().unwrap();
    assert!(matches!(first, Message::PeerRequest));
    let second = Message::decode(&mut buf, MAX).unwrap().unwrap();
    assert!(matches!(second, Message::Disconnect));
    assert!(buf.is_empty());
}

#[test]
fn zero_payload_variants_reject_trailing_bytes() {
    for id in [4u8, 5u8] {
        // length = 3: id plus one forbidden byte
        let mut buf = vec![0x03, 0x00, 0x00, 0x00, id, 0x00, 0xAA];
        let r = Message::decode(&mut buf, MAX);
        assert!(matches!(r, Err(CodecError::InvalidMessage)), "id {}", id);
    }
}

#[test]
fn unknown_and_reserved_ids_are_invalid() {
    for id in [14u16, 15, 16, 100, 0xFFFF] {
        let mut buf = vec![0x02, 0x00, 0x00, 0x00];
        buf.extend_from_slice(&id.to_le_bytes());
        let r = Message::decode(&mut buf, MAX);
        assert!(matches!(r, Err(CodecError::InvalidMessage)), "id {}", id);
    }
}

#[test]
fn every_small_id_has_a_decodable_frame() {
    // a zero payload of the right width decodes under each ID 0..=13
    let payload_len: [usize; 14] = [8, 0, 42, 0, 0, 0, 8, 48, 1, 36, 0, 32, 8, 64];
    for id in 0u16..14 {
        let body_len = 2 + payload_len[id as usize];
        let mut buf = (body_len as u32).to_le_bytes().to_vec();
        buf.extend_from_slice(&id.to_le_bytes());
        buf.extend_from_slice(&vec![0u8; payload_len[id as usize]]);
        let r = Message::decode(&mut buf, MAX);
        let m = r.unwrap().unwrap();
        assert_eq!(m.id(), id);
        assert!(buf.is_empty());
    }
}

#[test]
fn byte_identity_for_every_variant() {
    let hash = vec![9u8; 32];
    let addr = vec![7u8; 32];
    let nonce = vec![8u8; 32];
    let body = vec![1u8, 2, 3, 4, 5];
    let messages: Vec<Message> = vec![
        Message::BlockRequest(3, 5),
        Message::BlockResponse(Data::Buffer(bytes::Bytes::from(body.clone()))),
        Message::ChallengeRequest(
            12,
            4096,
            snarkos_network::node_type::NodeType::Client,
            snarkos_network::status::State::Ready,
            4132,
            111,
            222,
        ),
        Message::ChallengeResponse(Data::Buffer(bytes::Bytes::from(body.clone()))),
        Message::Disconnect,
        Message::PeerRequest,
        Message::Ping(
            12,
            4096,
            snarkos_network::node_type::NodeType::Miner,
            snarkos_network::status::State::Mining,
            hash.clone(),
            Data::Buffer(bytes::Bytes::from(body.clone())),
        ),
        Message::Pong(Some(true), Data::Buffer(bytes::Bytes::from(body.clone()))),
        Message::UnconfirmedBlock(
            42,
            hash.clone(),
            Data::Buffer(bytes::Bytes::from(body.clone())),
        ),
        Message::UnconfirmedTransaction(body.clone()),
        Message::PoolRegister(addr.clone()),
        Message::PoolRequest(77, Data::Buffer(bytes::Bytes::from(body.clone()))),
        Message::PoolResponse(
            addr.clone(),
            nonce.clone(),
            Data::Buffer(bytes::Bytes::from(body.clone())),
        ),
    ];
    for m in &messages {
        let frame = encode_to_vec(m);
        let mut buf = frame.clone();
        let decoded = Message::decode(&mut buf, MAX).unwrap().unwrap();
        assert!(buf.is_empty());
        let reencoded = encode_to_vec(&decoded);
        assert_eq!(reencoded, frame, "byte identity for id {}", m.id());
    }
}

#[test]
fn frame_exactly_at_ceiling_decodes() {
    let body_len = MAX - 2; // payload bytes after the 2-byte ID
    let mut buf = (MAX as u32).to_le_bytes().to_vec();
    buf.extend_from_slice(&1u16.to_le_bytes());
    buf.extend_from_slice(&vec![0x5Au8; body_len]);
    let r = Message::decode(&mut buf, MAX).unwrap().unwrap();
    match r {
        Message::BlockResponse(Data::Buffer(b)) => assert_eq!(b.len(), body_len),
        _ => panic!("wrong variant"),
    }
    assert!(buf.is_empty());
}
