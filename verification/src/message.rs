//! The message taxonomy of the peer-to-peer protocol and its binary payload
//! codec. Every message is a tagged payload: a 16-bit little-endian ID
//! followed by the variant's fields in fixed little-endian layout, with any
//! deferred body carried verbatim as its trailing bytes. The framing around
//! a payload lives in the codec module.

use vstd::prelude::*;

use crate::data::Data;
use crate::node_type::{node_type_from_tag, node_type_tag, NodeType};
use crate::payloads::{Block, BlockHeader, BlockLocators, BlockTemplate, PoswProof};
use crate::peer_addr::{
    addrs_view, addrs_wf, parse_addrs_at, parse_peer_list, peer_list_bytes, read_peer_list,
    write_peer_list, PeerAddr, PeerAddrV,
};
use crate::status::{state_from_tag, state_tag, State};
use crate::wire::{le_u128, le_u16, le_u32, le_u64, u128_le, u16_le, u32_le, u64_le};

verus! {

/// Why a buffer was rejected by the codec.
#[derive(Clone, Copy, Debug, PartialEq, Eq, Structural)]
pub enum CodecError {
    /// The declared frame length exceeds the maximum message size. Fatal for
    /// the connection: the peer is disconnected.
    FrameTooLarge,
    /// An unknown ID, a malformed fixed prefix, forbidden trailing bytes on a
    /// zero-payload variant, or an out-of-range discriminant. The peer is
    /// disconnected.
    InvalidMessage,
}

/// The mathematical image of a message: deferred bodies and other opaque
/// fields appear as the byte sequences they travel as.
pub enum MessageV {
    /// An inclusive range of block heights being requested.
    BlockRequest(u32, u32),
    /// A block, deferred.
    BlockResponse(Seq<u8>),
    /// version, fork depth, node type, status, listener port, nonce,
    /// cumulative weight.
    ChallengeRequest(u32, u32, NodeType, State, u16, u64, u128),
    /// A block header, deferred.
    ChallengeResponse(Seq<u8>),
    /// An orderly goodbye.
    Disconnect,
    /// A request for peers to connect to.
    PeerRequest,
    /// An ordered list of peer addresses.
    PeerResponse(Seq<PeerAddrV>),
    /// version, fork depth, node type, status, block hash, and a deferred
    /// block header.
    Ping(u32, u32, NodeType, State, Seq<u8>, Seq<u8>),
    /// The fork indication and deferred block locators.
    Pong(Option<bool>, Seq<u8>),
    /// height, block hash, and the deferred block itself.
    UnconfirmedBlock(u32, Seq<u8>, Seq<u8>),
    /// A transaction body, carried verbatim.
    UnconfirmedTransaction(Seq<u8>),
    /// The 32-byte address registering with a pool.
    PoolRegister(Seq<u8>),
    /// share difficulty and a deferred block template.
    PoolRequest(u64, Seq<u8>),
    /// 32-byte address, 32-byte nonce, and a deferred proof.
    PoolResponse(Seq<u8>, Seq<u8>, Seq<u8>),
    /// The reserved sentinel; never well-formed on the wire.
    Unused,
}

/// A message of the peer-to-peer protocol.
#[derive(Clone, Debug)]
pub enum Message {
    /// BlockRequest := (start_block_height, end_block_height (inclusive))
    BlockRequest(u32, u32),
    /// BlockResponse := (block)
    BlockResponse(Data<Block>),
    /// ChallengeRequest := (version, fork_depth, node_type, status,
    /// listener_port, nonce, cumulative_weight)
    ChallengeRequest(u32, u32, NodeType, State, u16, u64, u128),
    /// ChallengeResponse := (block_header)
    ChallengeResponse(Data<BlockHeader>),
    /// Disconnect := ()
    Disconnect,
    /// PeerRequest := ()
    PeerRequest,
    /// PeerResponse := ([peer_ip])
    PeerResponse(Vec<PeerAddr>),
    /// Ping := (version, fork_depth, node_type, status, block_hash,
    /// block_header)
    Ping(u32, u32, NodeType, State, Vec<u8>, Data<BlockHeader>),
    /// Pong := (is_fork, block_locators)
    Pong(Option<bool>, Data<BlockLocators>),
    /// UnconfirmedBlock := (block_height, block_hash, block)
    UnconfirmedBlock(u32, Vec<u8>, Data<Block>),
    /// UnconfirmedTransaction := (transaction)
    UnconfirmedTransaction(Vec<u8>),
    /// PoolRegister := (address)
    PoolRegister(Vec<u8>),
    /// PoolRequest := (share_difficulty, block_template)
    PoolRequest(u64, Data<BlockTemplate>),
    /// PoolResponse := (address, nonce, proof)
    PoolResponse(Vec<u8>, Vec<u8>, Data<PoswProof>),
    /// Unused
    Unused,
}

impl View for Message {
    type V = MessageV;

    open spec fn view(&self) -> MessageV {
        match self {
            Message::BlockRequest(s, e) => MessageV::BlockRequest(*s, *e),
            Message::BlockResponse(d) => MessageV::BlockResponse(d@),
            Message::ChallengeRequest(v, f, nt, st, p, n, w) => MessageV::ChallengeRequest(
                *v,
                *f,
                *nt,
                *st,
                *p,
                *n,
                *w,
            ),
            Message::ChallengeResponse(d) => MessageV::ChallengeResponse(d@),
            Message::Disconnect => MessageV::Disconnect,
            Message::PeerRequest => MessageV::PeerRequest,
            Message::PeerResponse(addrs) => MessageV::PeerResponse(addrs_view(addrs@)),
            Message::Ping(v, f, nt, st, h, d) => MessageV::Ping(*v, *f, *nt, *st, h@, d@),
            Message::Pong(is_fork, d) => MessageV::Pong(*is_fork, d@),
            Message::UnconfirmedBlock(h, bh, d) => MessageV::UnconfirmedBlock(*h, bh@, d@),
            Message::UnconfirmedTransaction(tx) => MessageV::UnconfirmedTransaction(tx@),
            Message::PoolRegister(a) => MessageV::PoolRegister(a@),
            Message::PoolRequest(s, d) => MessageV::PoolRequest(*s, d@),
            Message::PoolResponse(a, n, d) => MessageV::PoolResponse(a@, n@, d@),
            Message::Unused => MessageV::Unused,
        }
    }
}

/// The message ID of a variant.
pub open spec fn msg_id(v: MessageV) -> u16 {
    match v {
        MessageV::BlockRequest(..) => 0,
        MessageV::BlockResponse(..) => 1,
        MessageV::ChallengeRequest(..) => 2,
        MessageV::ChallengeResponse(..) => 3,
        MessageV::Disconnect => 4,
        MessageV::PeerRequest => 5,
        MessageV::PeerResponse(..) => 6,
        MessageV::Ping(..) => 7,
        MessageV::Pong(..) => 8,
        MessageV::UnconfirmedBlock(..) => 9,
        MessageV::UnconfirmedTransaction(..) => 10,
        MessageV::PoolRegister(..) => 11,
        MessageV::PoolRequest(..) => 12,
        MessageV::PoolResponse(..) => 13,
        MessageV::Unused => 14,
    }
}

/// The wire byte of the fork indication: unknown, yes, no.
pub open spec fn fork_byte(is_fork: Option<bool>) -> u8 {
    match is_fork {
        None => 0,
        Some(true) => 1,
        Some(false) => 2,
    }
}

/// The fork indication a wire byte denotes, if any.
pub open spec fn fork_from_byte(b: u8) -> Option<Option<bool>> {
    if b == 0 {
        Some(None)
    } else if b == 1 {
        Some(Some(true))
    } else if b == 2 {
        Some(Some(false))
    } else {
        None
    }
}

/// The byte image of a message's payload: everything after the 16-bit ID.
pub open spec fn msg_payload(v: MessageV) -> Seq<u8> {
    match v {
        MessageV::BlockRequest(start, end) => u32_le(start) + u32_le(end),
        MessageV::BlockResponse(block) => block,
        MessageV::ChallengeRequest(ver, fd, nt, st, port, nonce, weight) => u32_le(ver) + u32_le(
            fd,
        ) + u32_le(node_type_tag(nt)) + u32_le(state_tag(st)) + u16_le(port) + u64_le(nonce)
            + u128_le(weight),
        MessageV::ChallengeResponse(header) => header,
        MessageV::Disconnect => Seq::empty(),
        MessageV::PeerRequest => Seq::empty(),
        MessageV::PeerResponse(addrs) => peer_list_bytes(addrs),
        MessageV::Ping(ver, fd, nt, st, hash, header) => u32_le(ver) + u32_le(fd) + u32_le(
            node_type_tag(nt),
        ) + u32_le(state_tag(st)) + hash + header,
        MessageV::Pong(is_fork, locators) => seq![fork_byte(is_fork)] + locators,
        MessageV::UnconfirmedBlock(height, hash, block) => u32_le(height) + hash + block,
        MessageV::UnconfirmedTransaction(tx) => tx,
        MessageV::PoolRegister(addr) => addr,
        MessageV::PoolRequest(difficulty, template) => u64_le(difficulty) + template,
        MessageV::PoolResponse(addr, nonce, proof) => addr + nonce + proof,
        MessageV::Unused => Seq::empty(),
    }
}

/// Well-formedness of a message image: fixed-width fields have their exact
/// width, peer addresses are well-formed, the whole payload is small enough
/// for a 32-bit frame length, and the reserved sentinel never qualifies.
pub open spec fn msg_wf(v: MessageV) -> bool {
    &&& msg_payload(v).len() + 2 <= 0xffff_ffff
    &&& match v {
        MessageV::PeerResponse(addrs) => addrs_wf(addrs),
        MessageV::Ping(_, _, _, _, hash, _) => hash.len() == 32,
        MessageV::UnconfirmedBlock(_, hash, _) => hash.len() == 32,
        MessageV::PoolRegister(addr) => addr.len() == 32,
        MessageV::PoolResponse(addr, nonce, _) => addr.len() == 32 && nonce.len() == 32,
        MessageV::Unused => false,
        _ => true,
    }
}

/// Parses a payload of the given ID into a message image. Fixed prefixes are
/// read eagerly; the remainder of a variant with a deferred body becomes that
/// body verbatim. `None` is the codec's `InvalidMessage`.
pub open spec fn parse_payload(id: u16, data: Seq<u8>) -> Option<MessageV> {
    if id == 0 {
        if data.len() >= 8 {
            Some(
                MessageV::BlockRequest(
                    le_u32(data[0], data[1], data[2], data[3]),
                    le_u32(data[4], data[5], data[6], data[7]),
                ),
            )
        } else {
            None
        }
    } else if id == 1 {
        Some(MessageV::BlockResponse(data))
    } else if id == 2 {
        if data.len() >= 42 {
            match node_type_from_tag(le_u32(data[8], data[9], data[10], data[11])) {
                None => None,
                Some(nt) => match state_from_tag(le_u32(data[12], data[13], data[14], data[15])) {
                    None => None,
                    Some(st) => Some(
                        MessageV::ChallengeRequest(
                            le_u32(data[0], data[1], data[2], data[3]),
                            le_u32(data[4], data[5], data[6], data[7]),
                            nt,
                            st,
                            le_u16(data[16], data[17]),
                            le_u64(data.subrange(18, 26)),
                            le_u128(data.subrange(26, 42)),
                        ),
                    ),
                },
            }
        } else {
            None
        }
    } else if id == 3 {
        Some(MessageV::ChallengeResponse(data))
    } else if id == 4 {
        if data.len() == 0 {
            Some(MessageV::Disconnect)
        } else {
            None
        }
    } else if id == 5 {
        if data.len() == 0 {
            Some(MessageV::PeerRequest)
        } else {
            None
        }
    } else if id == 6 {
        match parse_peer_list(data) {
            Some((addrs, _)) => Some(MessageV::PeerResponse(addrs)),
            None => None,
        }
    } else if id == 7 {
        if data.len() >= 48 {
            match node_type_from_tag(le_u32(data[8], data[9], data[10], data[11])) {
                None => None,
                Some(nt) => match state_from_tag(le_u32(data[12], data[13], data[14], data[15])) {
                    None => None,
                    Some(st) => Some(
                        MessageV::Ping(
                            le_u32(data[0], data[1], data[2], data[3]),
                            le_u32(data[4], data[5], data[6], data[7]),
                            nt,
                            st,
                            data.subrange(16, 48),
                            data.skip(48),
                        ),
                    ),
                },
            }
        } else {
            None
        }
    } else if id == 8 {
        if data.len() >= 1 {
            match fork_from_byte(data[0]) {
                None => None,
                Some(is_fork) => Some(MessageV::Pong(is_fork, data.skip(1))),
            }
        } else {
            None
        }
    } else if id == 9 {
        if data.len() >= 36 {
            Some(
                MessageV::UnconfirmedBlock(
                    le_u32(data[0], data[1], data[2], data[3]),
                    data.subrange(4, 36),
                    data.skip(36),
                ),
            )
        } else {
            None
        }
    } else if id == 10 {
        Some(MessageV::UnconfirmedTransaction(data))
    } else if id == 11 {
        if data.len() >= 32 {
            Some(MessageV::PoolRegister(data.subrange(0, 32)))
        } else {
            None
        }
    } else if id == 12 {
        if data.len() >= 8 {
            Some(MessageV::PoolRequest(le_u64(data.subrange(0, 8)), data.skip(8)))
        } else {
            None
        }
    } else if id == 13 {
        if data.len() >= 64 {
            Some(
                MessageV::PoolResponse(
                    data.subrange(0, 32),
                    data.subrange(32, 64),
                    data.skip(64),
                ),
            )
        } else {
            None
        }
    } else {
        None
    }
}

/// Parses a whole message buffer: the 16-bit ID, then its payload.
pub open spec fn parse_message(buffer: Seq<u8>) -> Option<MessageV> {
    if buffer.len() < 2 {
        None
    } else {
        parse_payload(le_u16(buffer[0], buffer[1]), buffer.skip(2))
    }
}

/// The name of a message variant.
pub open spec fn msg_name(v: MessageV) -> Seq<char> {
    match v {
        MessageV::BlockRequest(..) => "BlockRequest"@,
        MessageV::BlockResponse(..) => "BlockResponse"@,
        MessageV::ChallengeRequest(..) => "ChallengeRequest"@,
        MessageV::ChallengeResponse(..) => "ChallengeResponse"@,
        MessageV::Disconnect => "Disconnect"@,
        MessageV::PeerRequest => "PeerRequest"@,
        MessageV::PeerResponse(..) => "PeerResponse"@,
        MessageV::Ping(..) => "Ping"@,
        MessageV::Pong(..) => "Pong"@,
        MessageV::UnconfirmedBlock(..) => "UnconfirmedBlock"@,
        MessageV::UnconfirmedTransaction(..) => "UnconfirmedTransaction"@,
        MessageV::PoolRegister(..) => "PoolRegister"@,
        MessageV::PoolRequest(..) => "PoolRequest"@,
        MessageV::PoolResponse(..) => "PoolResponse"@,
        MessageV::Unused => "Unused"@,
    }
}

/// Whether every deferred body the message holds is still in its encoded
/// state: what the wire decoder hands out, so that no expensive payload
/// decoding has happened yet.
pub open spec fn deferred_still_encoded(m: Message) -> bool {
    match m {
        Message::BlockResponse(d) => d is Buffer,
        Message::ChallengeResponse(d) => d is Buffer,
        Message::Ping(_, _, _, _, _, d) => d is Buffer,
        Message::Pong(_, d) => d is Buffer,
        Message::UnconfirmedBlock(_, _, d) => d is Buffer,
        Message::PoolRequest(_, d) => d is Buffer,
        Message::PoolResponse(_, _, d) => d is Buffer,
        _ => true,
    }
}

impl Message {
    /// Well-formedness: the image is well-formed and every deferred body a
    /// variant holds is itself well-formed.
    pub open spec fn wf(&self) -> bool {
        &&& msg_wf(self@)
        &&& match self {
            Message::BlockResponse(d) => d.wf(),
            Message::ChallengeResponse(d) => d.wf(),
            Message::Ping(_, _, _, _, _, d) => d.wf(),
            Message::Pong(_, d) => d.wf(),
            Message::UnconfirmedBlock(_, _, d) => d.wf(),
            Message::PoolRequest(_, d) => d.wf(),
            Message::PoolResponse(_, _, d) => d.wf(),
            _ => true,
        }
    }

    /// Returns the message name.
    pub fn name(&self) -> (r: &'static str)
        ensures
            r@ == msg_name(self@),
    {
        match self {
            Message::BlockRequest(..) => "BlockRequest",
            Message::BlockResponse(..) => "BlockResponse",
            Message::ChallengeRequest(..) => "ChallengeRequest",
            Message::ChallengeResponse(..) => "ChallengeResponse",
            Message::Disconnect => "Disconnect",
            Message::PeerRequest => "PeerRequest",
            Message::PeerResponse(..) => "PeerResponse",
            Message::Ping(..) => "Ping",
            Message::Pong(..) => "Pong",
            Message::UnconfirmedBlock(..) => "UnconfirmedBlock",
            Message::UnconfirmedTransaction(..) => "UnconfirmedTransaction",
            Message::PoolRegister(..) => "PoolRegister",
            Message::PoolRequest(..) => "PoolRequest",
            Message::PoolResponse(..) => "PoolResponse",
            Message::Unused => "Unused",
        }
    }

    /// Returns the message ID.
    pub fn id(&self) -> (r: u16)
        ensures
            r == msg_id(self@),
    {
        match self {
            Message::BlockRequest(..) => 0,
            Message::BlockResponse(..) => 1,
            Message::ChallengeRequest(..) => 2,
            Message::ChallengeResponse(..) => 3,
            Message::Disconnect => 4,
            Message::PeerRequest => 5,
            Message::PeerResponse(..) => 6,
            Message::Ping(..) => 7,
            Message::Pong(..) => 8,
            Message::UnconfirmedBlock(..) => 9,
            Message::UnconfirmedTransaction(..) => 10,
            Message::PoolRegister(..) => 11,
            Message::PoolRequest(..) => 12,
            Message::PoolResponse(..) => 13,
            Message::Unused => 14,
        }
    }

    /// Appends the payload bytes of this message: every fixed-width field in
    /// little-endian order, then any deferred body verbatim.
    pub fn serialize_data_into(&self, writer: &mut Vec<u8>)
        requires
            self.wf(),
        ensures
            final(writer)@ == old(writer)@ + msg_payload(self@),
    {
        match self {
            Message::BlockRequest(start, end) => {
                crate::wire::write_u32_le(writer, *start);
                crate::wire::write_u32_le(writer, *end);
                assert(writer@ =~= old(writer)@ + msg_payload(self@));
            },
            Message::BlockResponse(block) => {
                block.serialize_blocking_into(writer);
            },
            Message::ChallengeRequest(ver, fd, nt, st, port, nonce, weight) => {
                crate::wire::write_u32_le(writer, *ver);
                crate::wire::write_u32_le(writer, *fd);
                crate::wire::write_u32_le(writer, nt.to_tag());
                crate::wire::write_u32_le(writer, st.to_tag());
                crate::wire::write_u16_le(writer, *port);
                crate::wire::write_u64_le(writer, *nonce);
                crate::wire::write_u128_le(writer, *weight);
                assert(writer@ =~= old(writer)@ + msg_payload(self@));
            },
            Message::ChallengeResponse(header) => {
                header.serialize_blocking_into(writer);
            },
            Message::Disconnect => {
                assert(writer@ =~= old(writer)@ + msg_payload(self@));
            },
            Message::PeerRequest => {
                assert(writer@ =~= old(writer)@ + msg_payload(self@));
            },
            Message::PeerResponse(addrs) => {
                write_peer_list(writer, addrs);
            },
            Message::Ping(ver, fd, nt, st, hash, header) => {
                crate::wire::write_u32_le(writer, *ver);
                crate::wire::write_u32_le(writer, *fd);
                crate::wire::write_u32_le(writer, nt.to_tag());
                crate::wire::write_u32_le(writer, st.to_tag());
                crate::wire::append_slice(writer, hash.as_slice());
                header.serialize_blocking_into(writer);
                assert(writer@ =~= old(writer)@ + msg_payload(self@));
            },
            Message::Pong(is_fork, locators) => {
                let fb: u8 = match is_fork {
                    None => 0,
                    Some(b) => if *b {
                        1
                    } else {
                        2
                    },
                };
                writer.push(fb);
                locators.serialize_blocking_into(writer);
                assert(writer@ =~= old(writer)@ + msg_payload(self@));
            },
            Message::UnconfirmedBlock(height, hash, block) => {
                crate::wire::write_u32_le(writer, *height);
                crate::wire::append_slice(writer, hash.as_slice());
                block.serialize_blocking_into(writer);
                assert(writer@ =~= old(writer)@ + msg_payload(self@));
            },
            Message::UnconfirmedTransaction(tx) => {
                crate::wire::append_slice(writer, tx.as_slice());
            },
            Message::PoolRegister(addr) => {
                crate::wire::append_slice(writer, addr.as_slice());
            },
            Message::PoolRequest(difficulty, template) => {
                crate::wire::write_u64_le(writer, *difficulty);
                template.serialize_blocking_into(writer);
                assert(writer@ =~= old(writer)@ + msg_payload(self@));
            },
            Message::PoolResponse(addr, nonce, proof) => {
                crate::wire::append_slice(writer, addr.as_slice());
                crate::wire::append_slice(writer, nonce.as_slice());
                proof.serialize_blocking_into(writer);
                assert(writer@ =~= old(writer)@ + msg_payload(self@));
            },
            Message::Unused => {
                assert(writer@ =~= old(writer)@ + msg_payload(self@));
            },
        }
    }

    /// Appends the whole message buffer: the 16-bit little-endian ID, then
    /// the payload bytes.
    pub fn serialize_into(&self, writer: &mut Vec<u8>)
        requires
            self.wf(),
        ensures
            final(writer)@ == old(writer)@ + u16_le(msg_id(self@)) + msg_payload(self@),
    {
        crate::wire::write_u16_le(writer, self.id());
        self.serialize_data_into(writer);
    }
}

impl Message {
    /// Decides well-formedness, exactly: the executable mirror of `wf`,
    /// for callers outside the proof that must test it before encoding.
    pub fn check_wf(&self) -> (r: bool)
        ensures
            r == self.wf(),
    {
        match self {
            Message::BlockRequest(..) => true,
            Message::BlockResponse(d) => d.check_wf() && d.byte_len() <= 0xffff_fffd,
            Message::ChallengeRequest(..) => true,
            Message::ChallengeResponse(d) => d.check_wf() && d.byte_len() <= 0xffff_fffd,
            Message::Disconnect => true,
            Message::PeerRequest => true,
            Message::PeerResponse(addrs) => {
                let ghost all = addrs_view(addrs@);
                let mut i: usize = 0;
                let mut total: u128 = 8;
                while i < addrs.len()
                    invariant
                        self@ == MessageV::PeerResponse(all),
                        i <= addrs@.len(),
                        all == addrs_view(addrs@),
                        addrs_wf(all.take(i as int)),
                        total == 8 + crate::peer_addr::addrs_bytes(all.take(i as int)).len(),
                        total <= 8 + 22 * i,
                    decreases addrs@.len() - i,
                {
                    let olen = addrs[i].octets.len();
                    if !(olen == 4 || olen == 16) {
                        proof {
                            assert(!crate::peer_addr::addr_wf(all[i as int]));
                            assert(!addrs_wf(all));
                        }
                        return false;
                    }
                    proof {
                        crate::peer_addr::lemma_addrs_bytes_push(
                            all.take(i as int),
                            all[i as int],
                        );
                        assert(all.take(i as int).push(all[i as int]) =~= all.take(i + 1));
                    }
                    total = total + 6 + (olen as u128);
                    i = i + 1;
                }
                proof {
                    assert(all.take(addrs@.len() as int) =~= all);
                }
                total <= 0xffff_fffd
            },
            Message::Ping(_, _, _, _, hash, d) => hash.len() == 32 && d.check_wf()
                && d.byte_len() <= 0xffff_fffd - 48,
            Message::Pong(_, d) => d.check_wf() && d.byte_len() <= 0xffff_fffc,
            Message::UnconfirmedBlock(_, hash, d) => hash.len() == 32 && d.check_wf()
                && d.byte_len() <= 0xffff_fffd - 36,
            Message::UnconfirmedTransaction(tx) => tx.len() <= 0xffff_fffd,
            Message::PoolRegister(addr) => addr.len() == 32,
            Message::PoolRequest(_, d) => d.check_wf() && d.byte_len() <= 0xffff_fffd - 8,
            Message::PoolResponse(addr, nonce, d) => addr.len() == 32 && nonce.len() == 32
                && d.check_wf() && d.byte_len() <= 0xffff_fffd - 64,
            Message::Unused => false,
        }
    }

    /// Deserializes a message buffer: the 16-bit ID, then the variant's
    /// payload, exactly as `parse_message` describes. Errs with
    /// `InvalidMessage` precisely on the buffers that parse to no message.
    pub fn deserialize(buffer: &[u8]) -> (r: Result<Message, CodecError>)
        requires
            buffer@.len() <= 0xffff_ffff,
        ensures
            match r {
                Ok(m) => parse_message(buffer@) == Some(m@) && m.wf() && deferred_still_encoded(
                    m,
                ),
                Err(e) => parse_message(buffer@) is None && e == CodecError::InvalidMessage,
            },
    {
        if buffer.len() < 2 {
            return Err(CodecError::InvalidMessage);
        }
        let id = crate::wire::read_u16_le(buffer, 0);
        let data = &buffer[2..buffer.len()];
        proof {
            assert(data@ =~= buffer@.skip(2));
        }
        if id == 0 {
            if data.len() < 8 {
                return Err(CodecError::InvalidMessage);
            }
            let start = crate::wire::read_u32_le(data, 0);
            let end = crate::wire::read_u32_le(data, 4);
            Ok(Message::BlockRequest(start, end))
        } else if id == 1 {
            let body = crate::wire::copy_range(data, 0, data.len());
            assert(body@ =~= data@);
            Ok(Message::BlockResponse(Data::from_buffer(body)))
        } else if id == 2 {
            if data.len() < 42 {
                return Err(CodecError::InvalidMessage);
            }
            let ver = crate::wire::read_u32_le(data, 0);
            let fd = crate::wire::read_u32_le(data, 4);
            let nt = match NodeType::from_tag(crate::wire::read_u32_le(data, 8)) {
                Some(nt) => nt,
                None => {
                    return Err(CodecError::InvalidMessage);
                },
            };
            let st = match State::from_tag(crate::wire::read_u32_le(data, 12)) {
                Some(st) => st,
                None => {
                    return Err(CodecError::InvalidMessage);
                },
            };
            let port = crate::wire::read_u16_le(data, 16);
            let nonce = crate::wire::read_u64_le(data, 18);
            let weight = crate::wire::read_u128_le(data, 26);
            let m = Message::ChallengeRequest(ver, fd, nt, st, port, nonce, weight);
            assert(msg_payload(m@).len() == 42);
            Ok(m)
        } else if id == 3 {
            let body = crate::wire::copy_range(data, 0, data.len());
            assert(body@ =~= data@);
            Ok(Message::ChallengeResponse(Data::from_buffer(body)))
        } else if id == 4 {
            if data.len() == 0 {
                Ok(Message::Disconnect)
            } else {
                Err(CodecError::InvalidMessage)
            }
        } else if id == 5 {
            if data.len() == 0 {
                Ok(Message::PeerRequest)
            } else {
                Err(CodecError::InvalidMessage)
            }
        } else if id == 6 {
            match read_peer_list(data) {
                Some(pair) => {
                    let m = Message::PeerResponse(pair.0);
                    proof {
                        crate::peer_addr::lemma_parse_peer_list_exact(data@);
                        assert(msg_payload(m@).len() <= data@.len());
                    }
                    Ok(m)
                },
                None => Err(CodecError::InvalidMessage),
            }
        } else if id == 7 {
            if data.len() < 48 {
                return Err(CodecError::InvalidMessage);
            }
            let ver = crate::wire::read_u32_le(data, 0);
            let fd = crate::wire::read_u32_le(data, 4);
            let nt = match NodeType::from_tag(crate::wire::read_u32_le(data, 8)) {
                Some(nt) => nt,
                None => {
                    return Err(CodecError::InvalidMessage);
                },
            };
            let st = match State::from_tag(crate::wire::read_u32_le(data, 12)) {
                Some(st) => st,
                None => {
                    return Err(CodecError::InvalidMessage);
                },
            };
            let hash = crate::wire::copy_range(data, 16, 48);
            let body = crate::wire::copy_range(data, 48, data.len());
            assert(body@ =~= data@.skip(48));
            let m = Message::Ping(ver, fd, nt, st, hash, Data::from_buffer(body));
            assert(msg_payload(m@).len() == data@.len());
            Ok(m)
        } else if id == 8 {
            if data.len() < 1 {
                return Err(CodecError::InvalidMessage);
            }
            let is_fork: Option<bool> = match data[0] {
                0 => None,
                1 => Some(true),
                2 => Some(false),
                _ => {
                    return Err(CodecError::InvalidMessage);
                },
            };
            let body = crate::wire::copy_range(data, 1, data.len());
            assert(body@ =~= data@.skip(1));
            let m = Message::Pong(is_fork, Data::from_buffer(body));
            assert(msg_payload(m@).len() == data@.len());
            Ok(m)
        } else if id == 9 {
            if data.len() < 36 {
                return Err(CodecError::InvalidMessage);
            }
            let height = crate::wire::read_u32_le(data, 0);
            let hash = crate::wire::copy_range(data, 4, 36);
            let body = crate::wire::copy_range(data, 36, data.len());
            assert(body@ =~= data@.skip(36));
            let m = Message::UnconfirmedBlock(height, hash, Data::from_buffer(body));
            assert(msg_payload(m@).len() == data@.len());
            Ok(m)
        } else if id == 10 {
            let tx = crate::wire::copy_range(data, 0, data.len());
            assert(tx@ =~= data@);
            Ok(Message::UnconfirmedTransaction(tx))
        } else if id == 11 {
            if data.len() < 32 {
                return Err(CodecError::InvalidMessage);
            }
            let addr = crate::wire::copy_range(data, 0, 32);
            Ok(Message::PoolRegister(addr))
        } else if id == 12 {
            if data.len() < 8 {
                return Err(CodecError::InvalidMessage);
            }
            let difficulty = crate::wire::read_u64_le(data, 0);
            let body = crate::wire::copy_range(data, 8, data.len());
            assert(body@ =~= data@.skip(8));
            let m = Message::PoolRequest(difficulty, Data::from_buffer(body));
            assert(msg_payload(m@).len() == data@.len());
            Ok(m)
        } else if id == 13 {
            if data.len() < 64 {
                return Err(CodecError::InvalidMessage);
            }
            let addr = crate::wire::copy_range(data, 0, 32);
            let nonce = crate::wire::copy_range(data, 32, 64);
            let body = crate::wire::copy_range(data, 64, data.len());
            assert(body@ =~= data@.skip(64));
            let m = Message::PoolResponse(addr, nonce, Data::from_buffer(body));
            assert(msg_payload(m@).len() == data@.len());
            Ok(m)
        } else {
            Err(CodecError::InvalidMessage)
        }
    }
}

/// Round trip: every well-formed message image parses back, exactly, from
/// its own payload bytes under its own ID. Deferred bodies compare by the
/// bytes they are carried as, which is what the image holds.
#[verifier::rlimit(100)]
#[verifier::spinoff_prover]
pub proof fn lemma_payload_round_trip(v: MessageV)
    requires
        msg_wf(v),
    ensures
        parse_payload(msg_id(v), msg_payload(v)) == Some(v),
{
    let data = msg_payload(v);
    match v {
        MessageV::BlockRequest(start, end) => {
            assert(data =~= u32_le(start) + u32_le(end));
            assert(data[0] == u32_le(start)[0] && data[1] == u32_le(start)[1] && data[2]
                == u32_le(start)[2] && data[3] == u32_le(start)[3]);
            assert(data[4] == u32_le(end)[0] && data[5] == u32_le(end)[1] && data[6] == u32_le(
            end)[2] && data[7] == u32_le(end)[3]);
            crate::wire::lemma_u32_le_roundtrip(start);
            crate::wire::lemma_u32_le_roundtrip(end);
        },
        MessageV::BlockResponse(..) => {},
        MessageV::ChallengeRequest(ver, fd, nt, st, port, nonce, weight) => {
            let a = u32_le(ver);
            let b = u32_le(fd);
            let c = u32_le(node_type_tag(nt));
            let d = u32_le(state_tag(st));
            let e = u16_le(port);
            let f = u64_le(nonce);
            let g = u128_le(weight);
            assert(data.len() == 42);
            assert(data[0] == a[0] && data[1] == a[1] && data[2] == a[2] && data[3] == a[3]);
            assert(data[4] == b[0] && data[5] == b[1] && data[6] == b[2] && data[7] == b[3]);
            assert(data[8] == c[0] && data[9] == c[1] && data[10] == c[2] && data[11] == c[3]);
            assert(data[12] == d[0] && data[13] == d[1] && data[14] == d[2] && data[15] == d[3]);
            assert(data[16] == e[0] && data[17] == e[1]);
            assert(data.subrange(18, 26) =~= f);
            assert(data.subrange(26, 42) =~= g);
            crate::wire::lemma_u32_le_roundtrip(ver);
            crate::wire::lemma_u32_le_roundtrip(fd);
            crate::wire::lemma_u32_le_roundtrip(node_type_tag(nt));
            crate::wire::lemma_u32_le_roundtrip(state_tag(st));
            crate::wire::lemma_u16_le_roundtrip(port);
            crate::wire::lemma_u64_le_roundtrip(nonce);
            crate::wire::lemma_u128_le_roundtrip(weight);
            crate::node_type::lemma_node_type_tag_roundtrip(nt);
            crate::status::lemma_state_tag_roundtrip(st);
        },
        MessageV::ChallengeResponse(..) => {},
        MessageV::Disconnect => {},
        MessageV::PeerRequest => {},
        MessageV::PeerResponse(addrs) => {
            crate::peer_addr::lemma_addrs_bytes_len_lower(addrs);
            assert(addrs.len() <= 0xffff_ffff_ffff_ffff);
            assert(data.subrange(0, peer_list_bytes(addrs).len() as int) =~= peer_list_bytes(
            addrs));
            crate::peer_addr::lemma_parse_peer_list_roundtrip(data, addrs);
        },
        MessageV::Ping(ver, fd, nt, st, hash, header) => {
            let a = u32_le(ver);
            let b = u32_le(fd);
            let c = u32_le(node_type_tag(nt));
            let d = u32_le(state_tag(st));
            assert(data.len() == 48 + header.len());
            assert(data[0] == a[0] && data[1] == a[1] && data[2] == a[2] && data[3] == a[3]);
            assert(data[4] == b[0] && data[5] == b[1] && data[6] == b[2] && data[7] == b[3]);
            assert(data[8] == c[0] && data[9] == c[1] && data[10] == c[2] && data[11] == c[3]);
            assert(data[12] == d[0] && data[13] == d[1] && data[14] == d[2] && data[15] == d[3]);
            assert(data.subrange(16, 48) =~= hash);
            assert(data.skip(48) =~= header);
            crate::wire::lemma_u32_le_roundtrip(ver);
            crate::wire::lemma_u32_le_roundtrip(fd);
            crate::wire::lemma_u32_le_roundtrip(node_type_tag(nt));
            crate::wire::lemma_u32_le_roundtrip(state_tag(st));
            crate::node_type::lemma_node_type_tag_roundtrip(nt);
            crate::status::lemma_state_tag_roundtrip(st);
        },
        MessageV::Pong(is_fork, locators) => {
            assert(data[0] == fork_byte(is_fork));
            assert(data.skip(1) =~= locators);
        },
        MessageV::UnconfirmedBlock(height, hash, block) => {
            let a = u32_le(height);
            assert(data.len() == 36 + block.len());
            assert(data[0] == a[0] && data[1] == a[1] && data[2] == a[2] && data[3] == a[3]);
            assert(data.subrange(4, 36) =~= hash);
            assert(data.skip(36) =~= block);
            crate::wire::lemma_u32_le_roundtrip(height);
        },
        MessageV::UnconfirmedTransaction(..) => {},
        MessageV::PoolRegister(addr) => {
            assert(data.subrange(0, 32) =~= addr);
        },
        MessageV::PoolRequest(difficulty, template) => {
            assert(data.subrange(0, 8) =~= u64_le(difficulty));
            assert(data.skip(8) =~= template);
            crate::wire::lemma_u64_le_roundtrip(difficulty);
        },
        MessageV::PoolResponse(addr, nonce, proof) => {
            assert(data.len() == 64 + proof.len());
            assert(data.subrange(0, 32) =~= addr);
            assert(data.subrange(32, 64) =~= nonce);
            assert(data.skip(64) =~= proof);
        },
        MessageV::Unused => {},
    }
}

/// Byte identity: a whole well-formed message buffer decodes to an image
/// that re-encodes to exactly the same bytes.
pub proof fn lemma_byte_identity(v: MessageV)
    requires
        msg_wf(v),
    ensures
        ({
            let buffer = u16_le(msg_id(v)) + msg_payload(v);
            &&& parse_message(buffer) == Some(v)
            &&& u16_le(msg_id(v)) + msg_payload(v) == buffer
        }),
{
    let buffer = u16_le(msg_id(v)) + msg_payload(v);
    assert(buffer[0] == u16_le(msg_id(v))[0] && buffer[1] == u16_le(msg_id(v))[1]);
    crate::wire::lemma_u16_le_roundtrip(msg_id(v));
    assert(le_u16(buffer[0], buffer[1]) == msg_id(v));
    assert(buffer.skip(2) =~= msg_payload(v));
    lemma_payload_round_trip(v);
}

/// ID coverage, the invalid side: the reserved ID 14 and every ID from 15 up
/// parse to no message, whatever the payload.
pub proof fn lemma_unknown_id_rejected(id: u16, data: Seq<u8>)
    requires
        id >= 14,
    ensures
        parse_payload(id, data) is None,
{
}

/// ID coverage, the valid side: every ID from 0 through 13 has a payload
/// that parses.
pub proof fn lemma_id_coverage(id: u16)
    requires
        id <= 13,
    ensures
        exists|data: Seq<u8>| (#[trigger] parse_payload(id, data)) is Some,
{
    assert((0u8 as u32) | ((0u8 as u32) << 8) | ((0u8 as u32) << 16) | ((0u8 as u32) << 24)
        == 0) by (bit_vector);
    assert((0u8 as u64) | ((0u8 as u64) << 8) | ((0u8 as u64) << 16) | ((0u8 as u64) << 24) | ((
    0u8 as u64) << 32) | ((0u8 as u64) << 40) | ((0u8 as u64) << 48) | ((0u8 as u64) << 56)
        == 0) by (bit_vector);
    let z8 = Seq::<u8>::new(8, |i: int| 0u8);
    let z42 = Seq::<u8>::new(42, |i: int| 0u8);
    let z48 = Seq::<u8>::new(48, |i: int| 0u8);
    let z36 = Seq::<u8>::new(36, |i: int| 0u8);
    let z32 = Seq::<u8>::new(32, |i: int| 0u8);
    let z64 = Seq::<u8>::new(64, |i: int| 0u8);
    let z1 = Seq::<u8>::new(1, |i: int| 0u8);
    let z0 = Seq::<u8>::empty();
    if id == 0 {
        assert(parse_payload(0, z8) is Some);
    } else if id == 1 {
        assert(parse_payload(1, z0) is Some);
    } else if id == 2 {
        assert(le_u32(z42[8], z42[9], z42[10], z42[11]) == 0);
        assert(le_u32(z42[12], z42[13], z42[14], z42[15]) == 0);
        assert(parse_payload(2, z42) is Some);
    } else if id == 3 {
        assert(parse_payload(3, z0) is Some);
    } else if id == 4 {
        assert(parse_payload(4, z0) is Some);
    } else if id == 5 {
        assert(parse_payload(5, z0) is Some);
    } else if id == 6 {
        assert(z8.subrange(0, 8) =~= z8);
        assert(le_u64(z8) == 0);
        assert(parse_addrs_at(z8, 8, 0) is Some);
        assert(parse_payload(6, z8) is Some);
    } else if id == 7 {
        assert(le_u32(z48[8], z48[9], z48[10], z48[11]) == 0);
        assert(le_u32(z48[12], z48[13], z48[14], z48[15]) == 0);
        assert(parse_payload(7, z48) is Some);
    } else if id == 8 {
        assert(fork_from_byte(z1[0]) is Some);
        assert(parse_payload(8, z1) is Some);
    } else if id == 9 {
        assert(parse_payload(9, z36) is Some);
    } else if id == 10 {
        assert(parse_payload(10, z0) is Some);
    } else if id == 11 {
        assert(parse_payload(11, z32) is Some);
    } else if id == 12 {
        assert(z8.subrange(0, 8) =~= z8);
        assert(parse_payload(12, z8) is Some);
    } else {
        assert(parse_payload(13, z64) is Some);
    }
}

/// Zero-payload strictness: `Disconnect` and `PeerRequest` admit no payload
/// bytes at all; anything trailing their ID is rejected.
pub proof fn lemma_zero_payload_strict(id: u16, data: Seq<u8>)
    requires
        id == 4 || id == 5,
        data.len() > 0,
    ensures
        parse_payload(id, data) is None,
{
}

} // verus!
