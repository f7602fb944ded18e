use snarkos_network::data::Data;
use snarkos_network::message::{CodecError, Message};
use snarkos_network::node_type::NodeType;
use snarkos_network::peer_addr::PeerAddr;
use snarkos_network::status::State;

const MAX: usize = 128 * 1024 * 1024;

fn encode_to_vec(m: &Message) -> Vec<u8> {
    let mut out: Vec<u8> = Vec::new();
    m.encode(&mut out);
    out
}

#[test]
fn ids_and_names_match_the_taxonomy() {
    let hash = vec![0u8; 32];
    let addr = vec![0u8; 32];
    let cases: Vec<(Message, u16, &str)> = vec![
        (Message::BlockRequest(0, 0), 0, "BlockRequest"),
        (
            Message::BlockResponse(Data::Buffer(bytes::Bytes::new())),
            1,
            "BlockResponse",
        ),
        (
            Message::ChallengeRequest(12, 0, NodeType::Client, State::Ready, 0, 0, 0),
            2,
            "ChallengeRequest",
        ),
        (
            Message::ChallengeResponse(Data::Buffer(bytes::Bytes::new())),
            3,
            "ChallengeResponse",
        ),
        (Message::Disconnect, 4, "Disconnect"),
        (Message::PeerRequest, 5, "PeerRequest"),
        (Message::PeerResponse(Vec::new()), 6, "PeerResponse"),
        (
            Message::Ping(
                12,
                0,
                NodeType::Client,
                State::Ready,
                hash.clone(),
                Data::Buffer(bytes::Bytes::new()),
            ),
            7,
            "Ping",
        ),
        (
            Message::Pong(None, Data::Buffer(bytes::Bytes::new())),
            8,
            "Pong",
        ),
        (
            Message::UnconfirmedBlock(0, hash.clone(), Data::Buffer(bytes::Bytes::new())),
            9,
            "UnconfirmedBlock",
        ),
        (
            Message::UnconfirmedTransaction(Vec::new()),
            10,
            "UnconfirmedTransaction",
        ),
        (Message::PoolRegister(addr.clone()), 11, "PoolRegister"),
        (
            Message::PoolRequest(0, Data::Buffer(bytes::Bytes::new())),
            12,
            "PoolRequest",
        ),
        (
            Message::PoolResponse(addr.clone(), hash.clone(), Data::Buffer(bytes::Bytes::new())),
            13,
            "PoolResponse",
        ),
        (Message::Unused, 14, "Unused"),
    ];
    for (m, id, name) in &cases {
        assert_eq!(m.id(), *id);
        assert_eq!(m.name(), *name);
    }
}

#[test]
fn challenge_request_round_trips_field_by_field() {
    let m = Message::ChallengeRequest(
        12,
        4096,
        NodeType::Operator,
        State::Syncing,
        4133,
        0x1122334455667788,
        0x99AABBCCDDEEFF0011223344556677u128,
    );
    let mut buf = encode_to_vec(&m);
    // payload: 4+4+4+4+2+8+16 = 42 bytes, plus the 2-byte ID
    assert_eq!(buf.len(), 4 + 2 + 42);
    let r = Message::decode(&mut buf, MAX).unwrap().unwrap();
    match r {
        Message::ChallengeRequest(ver, fd, nt, st, port, nonce, weight) => {
            assert_eq!(ver, 12);
            assert_eq!(fd, 4096);
            assert_eq!(nt, NodeType::Operator);
            assert_eq!(st, State::Syncing);
            assert_eq!(port, 4133);
            assert_eq!(nonce, 0x1122334455667788);
            assert_eq!(weight, 0x99AABBCCDDEEFF0011223344556677u128);
        }
        _ => panic!("wrong variant"),
    }
}

#[test]
fn challenge_request_bad_node_type_tag_is_invalid() {
    let m = Message::ChallengeRequest(12, 4096, NodeType::Client, State::Ready, 1, 2, 3);
    let mut buf = encode_to_vec(&m);
    // node type tag sits at payload offset 8: frame offset 4 + 2 + 8 = 14
    buf[14] = 0x06;
    let r = Message::decode(&mut buf, MAX);
    assert!(matches!(r, Err(CodecError::InvalidMessage)));
}

#[test]
fn challenge_request_bad_status_tag_is_invalid() {
    let m = Message::ChallengeRequest(12, 4096, NodeType::Client, State::Ready, 1, 2, 3);
    let mut buf = encode_to_vec(&m);
    // status tag sits at payload offset 12: frame offset 4 + 2 + 12 = 18
    buf[18] = 0x05;
    let r = Message::decode(&mut buf, MAX);
    assert!(matches!(r, Err(CodecError::InvalidMessage)));
}

#[test]
fn challenge_request_short_payload_is_invalid() {
    // length = 2 + 41: one byte short of the fixed prefix
    let mut buf = vec![0x2B, 0x00, 0x00, 0x00, 0x02, 0x00];
    buf.extend_from_slice(&[0u8; 41]);
    let r = Message::decode(&mut buf, MAX);
    assert!(matches!(r, Err(CodecError::InvalidMessage)));
}

#[test]
fn peer_response_round_trips() {
    let addrs = vec![
        PeerAddr::new_v4(127, 0, 0, 1, 4135),
        PeerAddr::new_v4(144, 126, 219, 193, 4132),
        PeerAddr {
            octets: vec![0, 1, 2, 3, 4, 5, 6, 7, 8, 9, 10, 11, 12, 13, 14, 15],
            port: 4130,
        },
    ];
    let m = Message::PeerResponse(addrs);
    let frame = encode_to_vec(&m);
    let mut buf = frame.clone();
    let r = Message::decode(&mut buf, MAX).unwrap().unwrap();
    match &r {
        Message::PeerResponse(got) => {
            assert_eq!(got.len(), 3);
            assert_eq!(got[0].octets, vec![127, 0, 0, 1]);
            assert_eq!(got[0].port, 4135);
            assert_eq!(got[1].octets, vec![144, 126, 219, 193]);
            assert_eq!(got[1].port, 4132);
            assert_eq!(got[2].octets.len(), 16);
            assert_eq!(got[2].port, 4130);
        }
        _ => panic!("wrong variant"),
    }
    assert_eq!(encode_to_vec(&r), frame);
}

#[test]
fn peer_response_wire_layout_is_counted_and_tagged() {
    let m = Message::PeerResponse(vec![PeerAddr::new_v4(127, 0, 0, 1, 4135)]);
    let bytes = encode_to_vec(&m);
    let mut expected = vec![0u8; 0];
    // body length: 2 (id) + 8 (count) + 10 (one v4 entry)
    expected.extend_from_slice(&20u32.to_le_bytes());
    expected.extend_from_slice(&6u16.to_le_bytes());
    expected.extend_from_slice(&1u64.to_le_bytes());
    expected.extend_from_slice(&0u32.to_le_bytes()); // family tag 0: four octets
    expected.extend_from_slice(&[127, 0, 0, 1]);
    expected.extend_from_slice(&4135u16.to_le_bytes());
    assert_eq!(bytes, expected);
}

#[test]
fn peer_response_truncated_entry_is_invalid() {
    // count says one address but only the family tag follows
    let mut body: Vec<u8> = Vec::new();
    body.extend_from_slice(&6u16.to_le_bytes());
    body.extend_from_slice(&1u64.to_le_bytes());
    body.extend_from_slice(&0u32.to_le_bytes());
    let mut buf = (body.len() as u32).to_le_bytes().to_vec();
    buf.extend_from_slice(&body);
    let r = Message::decode(&mut buf, MAX);
    assert!(matches!(r, Err(CodecError::InvalidMessage)));
}

#[test]
fn peer_response_unknown_family_tag_is_invalid() {
    let mut body: Vec<u8> = Vec::new();
    body.extend_from_slice(&6u16.to_le_bytes());
    body.extend_from_slice(&1u64.to_le_bytes());
    body.extend_from_slice(&2u32.to_le_bytes()); // no such family
    body.extend_from_slice(&[0u8; 6]);
    let mut buf = (body.len() as u32).to_le_bytes().to_vec();
    buf.extend_from_slice(&body);
    let r = Message::decode(&mut buf, MAX);
    assert!(matches!(r, Err(CodecError::InvalidMessage)));
}

#[test]
fn unconfirmed_block_splits_at_fixed_offsets() {
    let hash: Vec<u8> = (0..32).collect();
    let body = vec![0xAB; 10];
    let m = Message::UnconfirmedBlock(
        7,
        hash.clone(),
        Data::Buffer(bytes::Bytes::from(body.clone())),
    );
    let mut buf = encode_to_vec(&m);
    let r = Message::decode(&mut buf, MAX).unwrap().unwrap();
    match r {
        Message::UnconfirmedBlock(height, got_hash, got_body) => {
            assert_eq!(height, 7);
            assert_eq!(got_hash, hash);
            match got_body {
                Data::Buffer(b) => assert_eq!(b.as_ref(), &body[..]),
                Data::Object(_) => panic!("body was decoded eagerly"),
            }
        }
        _ => panic!("wrong variant"),
    }
}

#[test]
fn pool_response_splits_at_fixed_offsets() {
    let addr = vec![1u8; 32];
    let nonce = vec![2u8; 32];
    let proof = vec![3u8; 7];
    let m = Message::PoolResponse(
        addr.clone(),
        nonce.clone(),
        Data::Buffer(bytes::Bytes::from(proof.clone())),
    );
    let mut buf = encode_to_vec(&m);
    let r = Message::decode(&mut buf, MAX).unwrap().unwrap();
    match r {
        Message::PoolResponse(a, n, p) => {
            assert_eq!(a, addr);
            assert_eq!(n, nonce);
            match p {
                Data::Buffer(b) => assert_eq!(b.as_ref(), &proof[..]),
                Data::Object(_) => panic!("proof was decoded eagerly"),
            }
        }
        _ => panic!("wrong variant"),
    }
}

#[test]
fn deserialize_rejects_buffer_shorter_than_an_id() {
    assert!(matches!(
        Message::deserialize(&[]),
        Err(CodecError::InvalidMessage)
    ));
    assert!(matches!(
        Message::deserialize(&[0x00]),
        Err(CodecError::InvalidMessage)
    ));
}

#[test]
fn serialize_into_prefixes_the_id() {
    let m = Message::PeerRequest;
    let mut out: Vec<u8> = Vec::new();
    m.serialize_into(&mut out);
    assert_eq!(out, vec![0x05, 0x00]);
}

#[test]
fn check_wf_accepts_the_sound_and_rejects_the_malformed() {
    assert!(Message::BlockRequest(0, 0).check_wf());
    assert!(Message::Disconnect.check_wf());
    assert!(Message::PeerResponse(vec![PeerAddr::new_v4(1, 2, 3, 4, 5)]).check_wf());
    // the reserved sentinel never qualifies
    assert!(!Message::Unused.check_wf());
    // fixed-width fields must have their exact width
    assert!(!Message::PoolRegister(vec![0u8; 31]).check_wf());
    assert!(!Message::Ping(
        12,
        0,
        NodeType::Client,
        State::Ready,
        vec![0u8; 31],
        Data::Buffer(bytes::Bytes::new()),
    )
    .check_wf());
    // a peer address must have four or sixteen octets
    assert!(!Message::PeerResponse(vec![PeerAddr {
        octets: vec![1, 2, 3],
        port: 1,
    }])
    .check_wf());
}

#[test]
fn every_node_type_and_state_rides_the_challenge_request() {
    let node_types = [
        NodeType::Client,
        NodeType::Miner,
        NodeType::Beacon,
        NodeType::Sync,
        NodeType::Operator,
        NodeType::Prover,
    ];
    let states = [
        State::Ready,
        State::Mining,
        State::Peering,
        State::Syncing,
        State::ShuttingDown,
    ];
    for (i, nt) in node_types.iter().enumerate() {
        assert_eq!(nt.to_tag(), i as u32);
        assert_eq!(NodeType::from_tag(i as u32), Some(*nt));
        for (j, st) in states.iter().enumerate() {
            assert_eq!(st.to_tag(), j as u32);
            assert_eq!(State::from_tag(j as u32), Some(*st));
            let m = Message::ChallengeRequest(12, 4096, *nt, *st, 4130, 1, 2);
            let mut buf = encode_to_vec(&m);
            let r = Message::decode(&mut buf, MAX).unwrap().unwrap();
            match r {
                Message::ChallengeRequest(_, _, got_nt, got_st, _, _, _) => {
                    assert_eq!(got_nt, *nt);
                    assert_eq!(got_st, *st);
                }
                _ => panic!("wrong variant"),
            }
        }
    }
    assert_eq!(NodeType::from_tag(6), None);
    assert_eq!(State::from_tag(5), None);
}
