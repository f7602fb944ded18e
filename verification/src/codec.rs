//! The length-delimited frame codec. Every message on the wire is a 32-bit
//! little-endian length (counting the ID and payload, not itself), the
//! 16-bit little-endian ID, then the payload. Decoding works on a growing
//! receive buffer and yields at most one message per call; a declared length
//! over the maximum message size is the primary denial-of-service
//! mitigation and is fatal for the connection.

use vstd::prelude::*;

use crate::message::{
    deferred_still_encoded, msg_id, msg_payload, parse_message, CodecError, Message, MessageV,
};
use crate::wire::{le_u32, u16_le, u32_le};

verus! {

/// The whole wire image of a message: length, ID, payload.
pub open spec fn frame_bytes(v: MessageV) -> Seq<u8> {
    u32_le((msg_payload(v).len() + 2) as u32) + u16_le(msg_id(v)) + msg_payload(v)
}

/// The length a buffer's first four bytes declare for the frame body.
pub open spec fn declared_len(source: Seq<u8>) -> int
    recommends
        source.len() >= 4,
{
    le_u32(source[0], source[1], source[2], source[3]) as int
}

impl Message {
    /// Appends the frame of this message: four reserved bytes, the ID and
    /// payload, then the length backfilled over the reserved bytes.
    pub fn encode(&self, dst: &mut Vec<u8>)
        requires
            self.wf(),
        ensures
            final(dst)@ == old(dst)@ + frame_bytes(self@),
    {
        let start: usize = dst.len();
        crate::wire::write_u32_le(dst, 0);
        self.serialize_into(dst);
        let ghost mid = old(dst)@ + u32_le(0) + u16_le(msg_id(self@)) + msg_payload(self@);
        assert(dst@ =~= mid);
        let length: u32 = ((dst.len() - start) - 4) as u32;
        assert(length == msg_payload(self@).len() + 2);
        crate::wire::set_byte(dst, start, (length & 0xff) as u8);
        crate::wire::set_byte(dst, start + 1, ((length >> 8) & 0xff) as u8);
        crate::wire::set_byte(dst, start + 2, ((length >> 16) & 0xff) as u8);
        crate::wire::set_byte(dst, start + 3, ((length >> 24) & 0xff) as u8);
        assert(dst@ =~= old(dst)@ + frame_bytes(self@)) by {
            assert forall|i: int| 0 <= i < dst@.len() implies dst@[i] == (old(dst)@ + frame_bytes(
                self@,
            ))[i] by {
                if i < start as int {
                } else if i < start + 4 {
                    assert(dst@[i] == u32_le(length)[i - start]);
                    assert(frame_bytes(self@)[i - start] == u32_le(length)[i - start]);
                } else {
                    assert(dst@[i] == mid[i]);
                }
            }
        }
    }

    /// Decodes at most one frame from the front of the receive buffer.
    ///
    /// With fewer than four bytes, or fewer than the declared frame, the
    /// buffer is left exactly as it was and `Ok(None)` asks for more data. A
    /// declared length over `maximum_message_size` is `FrameTooLarge`,
    /// again leaving the buffer untouched. A complete frame is consumed
    /// whole — advanced past even when its bytes parse to no message, which
    /// is `InvalidMessage`.
    pub fn decode(source: &mut Vec<u8>, maximum_message_size: usize) -> (r: Result<
        Option<Message>,
        CodecError,
    >)
        ensures
            ({
                let src = old(source)@;
                if src.len() < 4 {
                    &&& r == Ok::<Option<Message>, CodecError>(None)
                    &&& final(source)@ == src
                } else if declared_len(src) > maximum_message_size {
                    &&& r == Err::<Option<Message>, CodecError>(CodecError::FrameTooLarge)
                    &&& final(source)@ == src
                } else if src.len() < 4 + declared_len(src) {
                    &&& r == Ok::<Option<Message>, CodecError>(None)
                    &&& final(source)@ == src
                } else {
                    &&& final(source)@ == src.skip(4 + declared_len(src))
                    &&& match parse_message(src.subrange(4, 4 + declared_len(src))) {
                        Some(v) => r matches Ok(m) && m matches Some(m) && m@ == v && m.wf()
                            && deferred_still_encoded(m),
                        None => r == Err::<Option<Message>, CodecError>(
                            CodecError::InvalidMessage,
                        ),
                    }
                }
            }),
    {
        if source.len() < 4 {
            return Ok(None);
        }
        let length: u32 = crate::wire::read_u32_le(source.as_slice(), 0);
        let length_us: usize = length as usize;
        if length_us > maximum_message_size {
            return Err(CodecError::FrameTooLarge);
        }
        if source.len() - 4 < length_us {
            return Ok(None);
        }
        let end: usize = 4 + length_us;
        let msg = Message::deserialize(&source.as_slice()[4..end]);
        let rest = crate::wire::copy_range(source.as_slice(), end, source.len());
        *source = rest;
        proof {
            assert(source@ =~= old(source)@.skip(4 + declared_len(old(source)@)));
        }
        match msg {
            Ok(m) => Ok(Some(m)),
            Err(e) => Err(e),
        }
    }
}

/// Round trip through the framed codec: a well-formed message whose frame
/// fits the ceiling, at the head of the receive buffer, lands in the case of
/// the decoder's contract that yields exactly that message image and leaves
/// exactly the bytes behind the frame.
pub proof fn lemma_frame_round_trip(v: MessageV, rest: Seq<u8>, maximum_message_size: usize)
    requires
        crate::message::msg_wf(v),
        msg_payload(v).len() + 2 <= maximum_message_size,
    ensures
        ({
            let source = frame_bytes(v) + rest;
            &&& source.len() >= 4
            &&& declared_len(source) <= maximum_message_size
            &&& source.len() >= 4 + declared_len(source)
            &&& parse_message(source.subrange(4, 4 + declared_len(source))) == Some(v)
            &&& source.skip(4 + declared_len(source)) == rest
        }),
{
    lemma_frame_at_head(v, rest);
}

/// A whole frame at the head of the receive buffer is complete, declares
/// exactly its own body length, parses to its own message, and leaves
/// exactly the bytes behind it.
pub proof fn lemma_frame_at_head(v: MessageV, rest: Seq<u8>)
    requires
        crate::message::msg_wf(v),
    ensures
        ({
            let source = frame_bytes(v) + rest;
            &&& source.len() >= 4
            &&& declared_len(source) == msg_payload(v).len() + 2
            &&& source.len() >= 4 + declared_len(source)
            &&& parse_message(source.subrange(4, 4 + declared_len(source))) == Some(v)
            &&& source.skip(4 + declared_len(source)) == rest
        }),
{
    let plen = msg_payload(v).len() as int;
    let length = (msg_payload(v).len() + 2) as u32;
    let source = frame_bytes(v) + rest;
    assert(source[0] == u32_le(length)[0] && source[1] == u32_le(length)[1] && source[2]
        == u32_le(length)[2] && source[3] == u32_le(length)[3]);
    crate::wire::lemma_u32_le_roundtrip(length);
    assert(declared_len(source) == plen + 2);
    let body = source.subrange(4, 4 + declared_len(source));
    assert(body =~= u16_le(msg_id(v)) + msg_payload(v)) by {
        assert forall|i: int| 0 <= i < plen + 2 implies body[i] == (u16_le(msg_id(v))
            + msg_payload(v))[i] by {
            assert(body[i] == source[4 + i]);
            assert(frame_bytes(v)[4 + i] == (u16_le(msg_id(v)) + msg_payload(v))[i]);
        }
    }
    crate::message::lemma_byte_identity(v);
    assert(source.skip(4 + declared_len(source)) =~= rest);
}

/// Partial-frame safety: every strict prefix of a frame either has no
/// complete length yet, or declares a body that reaches past the prefix, so
/// the decoder reports "need more data" and leaves the buffer alone.
pub proof fn lemma_partial_frame(v: MessageV, k: int)
    requires
        crate::message::msg_wf(v),
        0 <= k < frame_bytes(v).len(),
    ensures
        ({
            let prefix = frame_bytes(v).subrange(0, k);
            prefix.len() >= 4 ==> declared_len(prefix) == msg_payload(v).len() + 2
                && prefix.len() < 4 + declared_len(prefix)
        }),
{
    let length = (msg_payload(v).len() + 2) as u32;
    let prefix = frame_bytes(v).subrange(0, k);
    if k >= 4 {
        assert(prefix[0] == u32_le(length)[0] && prefix[1] == u32_le(length)[1] && prefix[2]
            == u32_le(length)[2] && prefix[3] == u32_le(length)[3]);
        crate::wire::lemma_u32_le_roundtrip(length);
    }
}

} // verus!
