//! The payload bodies that ride inside deferred containers. Their
//! cryptographic structure (blocks, headers, locators, templates, proofs)
//! belongs to outside collaborators and is out of scope here: this library
//! carries each body verbatim as the bytes it arrived or was produced as,
//! which is exactly what the codec's byte-identity guarantee needs.

use vstd::prelude::*;

use crate::data::{DecodeError, Payload};

verus! {

/// Copies a whole slice into a fresh vector.
pub fn copy_bytes(data: &[u8]) -> (r: Vec<u8>)
    ensures
        r@ == data@,
{
    let r = crate::wire::copy_range(data, 0, data.len());
    assert(data@.subrange(0, data@.len() as int) =~= data@);
    r
}

/// A full block, carried as its serialized bytes.
#[derive(Clone, Debug)]
pub struct Block {
    /// The serialized form of the block.
    pub bytes: Vec<u8>,
}

impl Payload for Block {
    open spec fn wf(&self) -> bool {
        true
    }

    open spec fn spec_bytes(&self) -> Seq<u8> {
        self.bytes@
    }

    open spec fn parses(bytes: Seq<u8>) -> bool {
        true
    }

    fn to_bytes(&self) -> (r: Vec<u8>) {
        copy_bytes(self.bytes.as_slice())
    }

    fn from_bytes(bytes: &[u8]) -> (r: Result<Self, DecodeError>) {
        Ok(Block { bytes: copy_bytes(bytes) })
    }

    fn check_wf(&self) -> (r: bool) {
        true
    }
}

/// A block header, carried as its serialized bytes.
#[derive(Clone, Debug)]
pub struct BlockHeader {
    /// The serialized form of the header.
    pub bytes: Vec<u8>,
}

impl Payload for BlockHeader {
    open spec fn wf(&self) -> bool {
        true
    }

    open spec fn spec_bytes(&self) -> Seq<u8> {
        self.bytes@
    }

    open spec fn parses(bytes: Seq<u8>) -> bool {
        true
    }

    fn to_bytes(&self) -> (r: Vec<u8>) {
        copy_bytes(self.bytes.as_slice())
    }

    fn from_bytes(bytes: &[u8]) -> (r: Result<Self, DecodeError>) {
        Ok(BlockHeader { bytes: copy_bytes(bytes) })
    }

    fn check_wf(&self) -> (r: bool) {
        true
    }
}

/// A sparse index of ancestor block hashes, used to find the last common
/// ancestor with a peer; carried as its serialized bytes.
#[derive(Clone, Debug)]
pub struct BlockLocators {
    /// The serialized form of the locators.
    pub bytes: Vec<u8>,
}

impl Payload for BlockLocators {
    open spec fn wf(&self) -> bool {
        true
    }

    open spec fn spec_bytes(&self) -> Seq<u8> {
        self.bytes@
    }

    open spec fn parses(bytes: Seq<u8>) -> bool {
        true
    }

    fn to_bytes(&self) -> (r: Vec<u8>) {
        copy_bytes(self.bytes.as_slice())
    }

    fn from_bytes(bytes: &[u8]) -> (r: Result<Self, DecodeError>) {
        Ok(BlockLocators { bytes: copy_bytes(bytes) })
    }

    fn check_wf(&self) -> (r: bool) {
        true
    }
}

/// A candidate block template a pool operator hands its provers; carried as
/// its serialized bytes.
#[derive(Clone, Debug)]
pub struct BlockTemplate {
    /// The serialized form of the template.
    pub bytes: Vec<u8>,
}

impl Payload for BlockTemplate {
    open spec fn wf(&self) -> bool {
        true
    }

    open spec fn spec_bytes(&self) -> Seq<u8> {
        self.bytes@
    }

    open spec fn parses(bytes: Seq<u8>) -> bool {
        true
    }

    fn to_bytes(&self) -> (r: Vec<u8>) {
        copy_bytes(self.bytes.as_slice())
    }

    fn from_bytes(bytes: &[u8]) -> (r: Result<Self, DecodeError>) {
        Ok(BlockTemplate { bytes: copy_bytes(bytes) })
    }

    fn check_wf(&self) -> (r: bool) {
        true
    }
}

/// A proof of succinct work over a candidate block; carried as its
/// serialized bytes.
#[derive(Clone, Debug)]
pub struct PoswProof {
    /// The serialized form of the proof.
    pub bytes: Vec<u8>,
}

impl Payload for PoswProof {
    open spec fn wf(&self) -> bool {
        true
    }

    open spec fn spec_bytes(&self) -> Seq<u8> {
        self.bytes@
    }

    open spec fn parses(bytes: Seq<u8>) -> bool {
        true
    }

    fn to_bytes(&self) -> (r: Vec<u8>) {
        copy_bytes(self.bytes.as_slice())
    }

    fn from_bytes(bytes: &[u8]) -> (r: Result<Self, DecodeError>) {
        Ok(PoswProof { bytes: copy_bytes(bytes) })
    }

    fn check_wf(&self) -> (r: bool) {
        true
    }
}

} // verus!
