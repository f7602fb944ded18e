//! The kind of node a peer advertises, and its compact wire form.

use vstd::prelude::*;

verus! {

/// The specified type of node. On the wire it travels as a 32-bit
/// little-endian tag equal to the variant's position below.
#[derive(Clone, Copy, Debug, PartialEq, Eq, Structural)]
pub enum NodeType {
    /// A client node is a full node, capable of syncing with the network.
    Client,
    /// A mining node is a full node, capable of producing new blocks.
    Miner,
    /// A beacon node is a discovery node, capable of sharing peers of the network.
    Beacon,
    /// A sync node is a discovery node, capable of syncing nodes for the network.
    Sync,
    /// An operator node coordinates prover nodes in a pool.
    Operator,
    /// A prover node works on behalf of an operator.
    Prover,
}

/// The wire tag of a node type.
pub open spec fn node_type_tag(t: NodeType) -> u32 {
    match t {
        NodeType::Client => 0,
        NodeType::Miner => 1,
        NodeType::Beacon => 2,
        NodeType::Sync => 3,
        NodeType::Operator => 4,
        NodeType::Prover => 5,
    }
}

/// The node type a wire tag denotes, if any.
pub open spec fn node_type_from_tag(tag: u32) -> Option<NodeType> {
    if tag == 0 {
        Some(NodeType::Client)
    } else if tag == 1 {
        Some(NodeType::Miner)
    } else if tag == 2 {
        Some(NodeType::Beacon)
    } else if tag == 3 {
        Some(NodeType::Sync)
    } else if tag == 4 {
        Some(NodeType::Operator)
    } else if tag == 5 {
        Some(NodeType::Prover)
    } else {
        None
    }
}

impl NodeType {
    /// Returns the wire tag of this node type.
    pub fn to_tag(self) -> (r: u32)
        ensures
            r == node_type_tag(self),
    {
        match self {
            NodeType::Client => 0,
            NodeType::Miner => 1,
            NodeType::Beacon => 2,
            NodeType::Sync => 3,
            NodeType::Operator => 4,
            NodeType::Prover => 5,
        }
    }

    /// Returns the node type a wire tag denotes; `None` on a tag out of range.
    pub fn from_tag(tag: u32) -> (r: Option<NodeType>)
        ensures
            r == node_type_from_tag(tag),
    {
        match tag {
            0 => Some(NodeType::Client),
            1 => Some(NodeType::Miner),
            2 => Some(NodeType::Beacon),
            3 => Some(NodeType::Sync),
            4 => Some(NodeType::Operator),
            5 => Some(NodeType::Prover),
            _ => None,
        }
    }
}

/// A node type survives the trip through its wire tag.
pub proof fn lemma_node_type_tag_roundtrip(t: NodeType)
    ensures
        node_type_from_tag(node_type_tag(t)) == Some(t),
{
}

/// A tag in range is exactly reproduced by the node type it denotes.
pub proof fn lemma_node_type_from_tag_roundtrip(tag: u32)
    requires
        node_type_from_tag(tag) is Some,
    ensures
        node_type_tag(node_type_from_tag(tag).unwrap()) == tag,
{
}

} // verus!
