use snarkos_network::data::{Data, Payload};
use snarkos_network::message::Message;
use snarkos_network::payloads::{Block, BlockHeader};

const MAX: usize = 128 * 1024 * 1024;

#[test]
fn decoding_a_block_response_defers_the_block() {
    let block_bytes = vec![0xDE, 0xAD, 0xBE, 0xEF, 0x42];
    let m = Message::BlockResponse(Data::Buffer(bytes::Bytes::from(block_bytes.clone())));
    let mut buf: Vec<u8> = Vec::new();
    m.encode(&mut buf);
    let r = Message::decode(&mut buf, MAX).unwrap().unwrap();
    let deferred = match r {
        Message::BlockResponse(d) => d,
        _ => panic!("wrong variant"),
    };
    // no block deserialization has occurred: the payload is still encoded
    assert!(matches!(deferred, Data::Buffer(_)));
    // a later decode yields the block, bit for bit
    let block: Block = deferred.deserialize_blocking().unwrap();
    assert_eq!(block.bytes, block_bytes);
}

#[test]
fn deserialize_blocking_returns_a_held_object_unchanged() {
    let block = Block {
        bytes: vec![1, 2, 3],
    };
    let d: Data<Block> = Data::Object(block);
    let got = d.deserialize_blocking().unwrap();
    assert_eq!(got.bytes, vec![1, 2, 3]);
}

#[test]
fn serialize_blocking_into_writes_object_and_buffer_alike() {
    let body = vec![7u8, 8, 9, 10];
    let as_object: Data<BlockHeader> = Data::Object(BlockHeader {
        bytes: body.clone(),
    });
    let as_buffer: Data<BlockHeader> = Data::Buffer(bytes::Bytes::from(body.clone()));
    let mut from_object: Vec<u8> = Vec::new();
    let mut from_buffer: Vec<u8> = Vec::new();
    as_object.serialize_blocking_into(&mut from_object);
    as_buffer.serialize_blocking_into(&mut from_buffer);
    assert_eq!(from_object, body);
    assert_eq!(from_buffer, body);
}

#[test]
fn serialize_blocking_into_appends_after_existing_bytes() {
    let d: Data<Block> = Data::Buffer(bytes::Bytes::from(vec![4u8, 5, 6]));
    let mut out = vec![1u8, 2, 3];
    d.serialize_blocking_into(&mut out);
    assert_eq!(out, vec![1, 2, 3, 4, 5, 6]);
}

#[test]
fn cloning_a_buffer_shares_its_bytes() {
    let d: Data<Block> = Data::Buffer(bytes::Bytes::from(vec![9u8; 1000]));
    let d2 = d.clone();
    let mut a: Vec<u8> = Vec::new();
    let mut b: Vec<u8> = Vec::new();
    d.serialize_blocking_into(&mut a);
    d2.serialize_blocking_into(&mut b);
    assert_eq!(a, b);
}

#[test]
fn encoding_an_object_message_equals_encoding_its_buffer_form() {
    let body = vec![0x10u8, 0x20, 0x30];
    let with_object = Message::BlockResponse(Data::Object(Block {
        bytes: body.clone(),
    }));
    let with_buffer = Message::BlockResponse(Data::Buffer(bytes::Bytes::from(body)));
    let mut a: Vec<u8> = Vec::new();
    let mut b: Vec<u8> = Vec::new();
    with_object.encode(&mut a);
    with_buffer.encode(&mut b);
    assert_eq!(a, b);
}

#[test]
fn payload_from_bytes_round_trips() {
    let raw = vec![5u8, 4, 3, 2, 1];
    let header = BlockHeader::from_bytes(&raw).unwrap();
    assert_eq!(header.to_bytes(), raw);
}
