//! The role-parameterized environment: the protocol constants and peer
//! policy each kind of node runs with. A role fixes a configuration whose
//! every field is pinned by its contract, and every configuration satisfies
//! the policy invariant that the connection timeout fits inside one
//! heartbeat. The process-wide singletons the runtime keeps (task registry,
//! status, terminator) live with the runtime; the worker pool for CPU-bound
//! cryptographic work is built here.

use vstd::prelude::*;

use crate::node_type::NodeType;
use crate::peer_addr::{addrs_view, addrs_wf, PeerAddr, PeerAddrV};

verus! {

/// The network a node runs on; it fixes the network identifier that the
/// default ports derive from.
pub trait Network {
    /// The network identifier.
    spec fn spec_network_id() -> u16;

    /// The identifier leaves room for the port offsets.
    proof fn network_id_fits()
        ensures
            Self::spec_network_id() + 4130 <= 0xffff,
    ;

    /// Returns the network identifier.
    fn network_id() -> (r: u16)
        ensures
            r == Self::spec_network_id(),
    ;
}

/// The second iteration of the test network.
#[derive(Clone, Copy, Debug, Default)]
pub struct Testnet2;

impl Network for Testnet2 {
    open spec fn spec_network_id() -> u16 {
        2
    }

    proof fn network_id_fits() {
    }

    fn network_id() -> (r: u16) {
        2
    }
}

/// The protocol constants and peer policy of one node role.
#[derive(Clone, Debug)]
pub struct Config {
    /// The specified type of node.
    pub node_type: NodeType,
    /// The version of the network protocol; it can be incremented in order
    /// to force users to update.
    pub message_version: u32,
    /// If `true`, a mining node will craft public coinbase transactions.
    pub coinbase_is_public: bool,
    /// The port for communicating with the node server.
    pub default_node_port: u16,
    /// The port for communicating with the RPC server.
    pub default_rpc_port: u16,
    /// The list of beacon nodes to bootstrap the node server with.
    pub beacon_nodes: Vec<PeerAddr>,
    /// The list of sync nodes to bootstrap the node server with.
    pub sync_nodes: Vec<PeerAddr>,
    /// The duration in seconds to sleep in between heartbeat executions.
    pub heartbeat_in_secs: u64,
    /// The maximum duration in milliseconds permitted for establishing a
    /// connection with a node before dropping the attempt; it never exceeds
    /// one heartbeat.
    pub connection_timeout_in_millis: u64,
    /// The duration in seconds to sleep in between ping requests with a
    /// connected peer.
    pub ping_sleep_in_secs: u64,
    /// The duration in seconds after which a connected peer is considered
    /// inactive or disconnected if no message has been received in the
    /// meantime.
    pub radio_silence_in_secs: u64,
    /// The duration in seconds after which to expire a failure from a peer.
    pub failure_expiry_time_in_secs: u64,
    /// The minimum number of peers required to maintain connections with.
    pub minimum_number_of_peers: usize,
    /// The maximum number of peers permitted to maintain connections with.
    pub maximum_number_of_peers: usize,
    /// The maximum number of connection failures permitted by an inbound
    /// connecting peer.
    pub maximum_connection_failures: u32,
    /// The maximum number of candidate peers permitted to be stored in the
    /// node.
    pub maximum_candidate_peers: usize,
    /// The maximum size of a message that can be transmitted in the network.
    pub maximum_message_size: usize,
    /// The maximum number of blocks that may be fetched in one request.
    pub maximum_block_request: u32,
    /// The maximum number of failures tolerated before disconnecting from a
    /// peer.
    pub maximum_number_of_failures: usize,
}

/// The mathematical image of a configuration.
pub struct ConfigV {
    /// The specified type of node.
    pub node_type: NodeType,
    /// The protocol version.
    pub message_version: u32,
    /// Whether coinbase transactions are public.
    pub coinbase_is_public: bool,
    /// The node server port.
    pub default_node_port: u16,
    /// The RPC server port.
    pub default_rpc_port: u16,
    /// The beacon bootstrap addresses.
    pub beacon_nodes: Seq<PeerAddrV>,
    /// The sync bootstrap addresses.
    pub sync_nodes: Seq<PeerAddrV>,
    /// Seconds between heartbeats.
    pub heartbeat_in_secs: u64,
    /// Milliseconds allowed for a connection attempt.
    pub connection_timeout_in_millis: u64,
    /// Seconds between pings.
    pub ping_sleep_in_secs: u64,
    /// Seconds of silence before a peer counts as gone.
    pub radio_silence_in_secs: u64,
    /// Seconds before a recorded failure expires.
    pub failure_expiry_time_in_secs: u64,
    /// The fewest peers to keep.
    pub minimum_number_of_peers: usize,
    /// The most peers to keep.
    pub maximum_number_of_peers: usize,
    /// Connection failures tolerated from an inbound peer.
    pub maximum_connection_failures: u32,
    /// The most candidate peers remembered.
    pub maximum_candidate_peers: usize,
    /// The largest frame body accepted.
    pub maximum_message_size: usize,
    /// The most blocks served per request.
    pub maximum_block_request: u32,
    /// Failures tolerated before disconnecting.
    pub maximum_number_of_failures: usize,
}

impl View for Config {
    type V = ConfigV;

    open spec fn view(&self) -> ConfigV {
        ConfigV {
            node_type: self.node_type,
            message_version: self.message_version,
            coinbase_is_public: self.coinbase_is_public,
            default_node_port: self.default_node_port,
            default_rpc_port: self.default_rpc_port,
            beacon_nodes: addrs_view(self.beacon_nodes@),
            sync_nodes: addrs_view(self.sync_nodes@),
            heartbeat_in_secs: self.heartbeat_in_secs,
            connection_timeout_in_millis: self.connection_timeout_in_millis,
            ping_sleep_in_secs: self.ping_sleep_in_secs,
            radio_silence_in_secs: self.radio_silence_in_secs,
            failure_expiry_time_in_secs: self.failure_expiry_time_in_secs,
            minimum_number_of_peers: self.minimum_number_of_peers,
            maximum_number_of_peers: self.maximum_number_of_peers,
            maximum_connection_failures: self.maximum_connection_failures,
            maximum_candidate_peers: self.maximum_candidate_peers,
            maximum_message_size: self.maximum_message_size,
            maximum_block_request: self.maximum_block_request,
            maximum_number_of_failures: self.maximum_number_of_failures,
        }
    }
}

/// The policy invariant every role satisfies: the connection timeout fits
/// inside one heartbeat, the peer bounds are ordered, the bootstrap
/// addresses are well-formed, and the frame ceiling leaves the 32-bit frame
/// length representable.
pub open spec fn config_wf(c: ConfigV) -> bool {
    &&& c.connection_timeout_in_millis <= c.heartbeat_in_secs * 1000
    &&& c.minimum_number_of_peers <= c.maximum_number_of_peers
    &&& addrs_wf(c.beacon_nodes)
    &&& addrs_wf(c.sync_nodes)
    &&& c.maximum_message_size + 2 <= 0xffff_ffff
}

impl Config {
    /// Well-formedness of the executable value.
    pub open spec fn wf(&self) -> bool {
        config_wf(self@)
    }
}

/// The defaults every role starts from, given its distinguishing values.
pub open spec fn base_config_v(
    network_id: u16,
    node_type: NodeType,
    coinbase_is_public: bool,
    heartbeat_in_secs: u64,
    minimum_number_of_peers: usize,
    maximum_number_of_peers: usize,
    sync_nodes: Seq<PeerAddrV>,
) -> ConfigV {
    ConfigV {
        node_type,
        message_version: 12,
        coinbase_is_public,
        default_node_port: (4130 + network_id) as u16,
        default_rpc_port: (3030 + network_id) as u16,
        beacon_nodes: Seq::empty(),
        sync_nodes,
        heartbeat_in_secs,
        connection_timeout_in_millis: 500,
        ping_sleep_in_secs: 60,
        radio_silence_in_secs: 210,
        failure_expiry_time_in_secs: 7200,
        minimum_number_of_peers,
        maximum_number_of_peers,
        maximum_connection_failures: 3,
        maximum_candidate_peers: 10000,
        maximum_message_size: (128 * 1024 * 1024) as usize,
        maximum_block_request: 250,
        maximum_number_of_failures: 1024,
    }
}

/// Builds the configuration of one role from its distinguishing values.
fn base_config(
    network_id: u16,
    node_type: NodeType,
    coinbase_is_public: bool,
    heartbeat_in_secs: u64,
    minimum_number_of_peers: usize,
    maximum_number_of_peers: usize,
    sync_nodes: Vec<PeerAddr>,
) -> (c: Config)
    requires
        network_id + 4130 <= 0xffff,
        1 <= heartbeat_in_secs <= 0xffff_ffff,
        minimum_number_of_peers <= maximum_number_of_peers,
        addrs_wf(addrs_view(sync_nodes@)),
    ensures
        c@ == base_config_v(
            network_id,
            node_type,
            coinbase_is_public,
            heartbeat_in_secs,
            minimum_number_of_peers,
            maximum_number_of_peers,
            addrs_view(sync_nodes@),
        ),
        c.wf(),
{
    let c = Config {
        node_type,
        message_version: 12,
        coinbase_is_public,
        default_node_port: 4130 + network_id,
        default_rpc_port: 3030 + network_id,
        beacon_nodes: Vec::new(),
        sync_nodes,
        heartbeat_in_secs,
        connection_timeout_in_millis: 500,
        ping_sleep_in_secs: 60,
        radio_silence_in_secs: 210,
        failure_expiry_time_in_secs: 7200,
        minimum_number_of_peers,
        maximum_number_of_peers,
        maximum_connection_failures: 3,
        maximum_candidate_peers: 10000,
        maximum_message_size: 128 * 1024 * 1024,
        maximum_block_request: 250,
        maximum_number_of_failures: 1024,
    };
    assert(addrs_view(c.beacon_nodes@) =~= Seq::<PeerAddrV>::empty());
    c
}

/// The image of the default sync bootstrap list: the local node.
pub open spec fn default_sync_nodes_v() -> Seq<PeerAddrV> {
    seq![PeerAddrV { octets: seq![127u8, 0u8, 0u8, 1u8], port: 4135u16 }]
}

/// Returns the default sync bootstrap list: the local node.
pub fn default_sync_nodes() -> (r: Vec<PeerAddr>)
    ensures
        addrs_view(r@) == default_sync_nodes_v(),
        addrs_wf(addrs_view(r@)),
{
    let mut r: Vec<PeerAddr> = Vec::new();
    r.push(PeerAddr::new_v4(127, 0, 0, 1, 4135));
    assert(addrs_view(r@) =~= default_sync_nodes_v());
    r
}

/// The image of the trial sync bootstrap list.
pub open spec fn trial_sync_nodes_v() -> Seq<PeerAddrV> {
    seq![
        PeerAddrV { octets: seq![144u8, 126u8, 219u8, 193u8], port: 4132u16 },
        PeerAddrV { octets: seq![165u8, 232u8, 145u8, 194u8], port: 4132u16 },
        PeerAddrV { octets: seq![143u8, 198u8, 164u8, 241u8], port: 4132u16 },
        PeerAddrV { octets: seq![188u8, 166u8, 7u8, 13u8], port: 4132u16 },
        PeerAddrV { octets: seq![167u8, 99u8, 40u8, 226u8], port: 4132u16 },
        PeerAddrV { octets: seq![159u8, 223u8, 124u8, 150u8], port: 4132u16 },
        PeerAddrV { octets: seq![137u8, 184u8, 192u8, 155u8], port: 4132u16 },
        PeerAddrV { octets: seq![147u8, 182u8, 213u8, 228u8], port: 4132u16 },
        PeerAddrV { octets: seq![137u8, 184u8, 202u8, 162u8], port: 4132u16 },
        PeerAddrV { octets: seq![159u8, 223u8, 118u8, 35u8], port: 4132u16 },
        PeerAddrV { octets: seq![161u8, 35u8, 106u8, 91u8], port: 4132u16 },
        PeerAddrV { octets: seq![157u8, 245u8, 133u8, 62u8], port: 4132u16 },
        PeerAddrV { octets: seq![143u8, 198u8, 166u8, 150u8], port: 4132u16 },
    ]
}

/// Returns the trial sync bootstrap list.
pub fn trial_sync_nodes() -> (r: Vec<PeerAddr>)
    ensures
        addrs_view(r@) == trial_sync_nodes_v(),
        addrs_wf(addrs_view(r@)),
{
    let mut r: Vec<PeerAddr> = Vec::new();
    r.push(PeerAddr::new_v4(144, 126, 219, 193, 4132));
    r.push(PeerAddr::new_v4(165, 232, 145, 194, 4132));
    r.push(PeerAddr::new_v4(143, 198, 164, 241, 4132));
    r.push(PeerAddr::new_v4(188, 166, 7, 13, 4132));
    r.push(PeerAddr::new_v4(167, 99, 40, 226, 4132));
    r.push(PeerAddr::new_v4(159, 223, 124, 150, 4132));
    r.push(PeerAddr::new_v4(137, 184, 192, 155, 4132));
    r.push(PeerAddr::new_v4(147, 182, 213, 228, 4132));
    r.push(PeerAddr::new_v4(137, 184, 202, 162, 4132));
    r.push(PeerAddr::new_v4(159, 223, 118, 35, 4132));
    r.push(PeerAddr::new_v4(161, 35, 106, 91, 4132));
    r.push(PeerAddr::new_v4(157, 245, 133, 62, 4132));
    r.push(PeerAddr::new_v4(143, 198, 166, 150, 4132));
    assert(addrs_view(r@) =~= trial_sync_nodes_v());
    r
}

/// A node role: it fixes the whole configuration at compile time.
pub trait Environment {
    /// The configuration this role runs with.
    spec fn spec_config() -> ConfigV;

    /// Returns the configuration this role runs with; it satisfies the
    /// policy invariant.
    fn config() -> (c: Config)
        ensures
            c@ == Self::spec_config(),
            c.wf(),
    ;
}

/// A client node: a full node that syncs with the network.
#[derive(Debug)]
pub struct Client<N: Network> {
    /// The network the node runs on.
    pub network: core::marker::PhantomData<N>,
}

impl<N: Network> Environment for Client<N> {
    open spec fn spec_config() -> ConfigV {
        base_config_v(
            N::spec_network_id(),
            NodeType::Client,
            false,
            9,
            2,
            21,
            default_sync_nodes_v(),
        )
    }

    fn config() -> (c: Config) {
        proof {
            N::network_id_fits();
        }
        base_config(N::network_id(), NodeType::Client, false, 9, 2, 21, default_sync_nodes())
    }
}

/// A mining node: a full node that produces new blocks.
#[derive(Debug)]
pub struct Miner<N: Network> {
    /// The network the node runs on.
    pub network: core::marker::PhantomData<N>,
}

impl<N: Network> Environment for Miner<N> {
    open spec fn spec_config() -> ConfigV {
        base_config_v(
            N::spec_network_id(),
            NodeType::Miner,
            true,
            9,
            1,
            21,
            default_sync_nodes_v(),
        )
    }

    fn config() -> (c: Config) {
        proof {
            N::network_id_fits();
        }
        base_config(N::network_id(), NodeType::Miner, true, 9, 1, 21, default_sync_nodes())
    }
}

/// An operator node: it coordinates provers in a mining pool.
#[derive(Debug)]
pub struct Operator<N: Network> {
    /// The network the node runs on.
    pub network: core::marker::PhantomData<N>,
}

impl<N: Network> Environment for Operator<N> {
    open spec fn spec_config() -> ConfigV {
        base_config_v(
            N::spec_network_id(),
            NodeType::Operator,
            true,
            9,
            1,
            1000,
            default_sync_nodes_v(),
        )
    }

    fn config() -> (c: Config) {
        proof {
            N::network_id_fits();
        }
        base_config(N::network_id(), NodeType::Operator, true, 9, 1, 1000, default_sync_nodes())
    }
}

/// A prover node: it works on behalf of a pool operator.
#[derive(Debug)]
pub struct Prover<N: Network> {
    /// The network the node runs on.
    pub network: core::marker::PhantomData<N>,
}

impl<N: Network> Environment for Prover<N> {
    open spec fn spec_config() -> ConfigV {
        base_config_v(
            N::spec_network_id(),
            NodeType::Prover,
            true,
            9,
            1,
            21,
            default_sync_nodes_v(),
        )
    }

    fn config() -> (c: Config) {
        proof {
            N::network_id_fits();
        }
        base_config(N::network_id(), NodeType::Prover, true, 9, 1, 21, default_sync_nodes())
    }
}

/// A sync node: a discovery node that syncs others, with a large fan-in and
/// a faster heartbeat.
#[derive(Debug)]
pub struct SyncNode<N: Network> {
    /// The network the node runs on.
    pub network: core::marker::PhantomData<N>,
}

impl<N: Network> Environment for SyncNode<N> {
    open spec fn spec_config() -> ConfigV {
        base_config_v(
            N::spec_network_id(),
            NodeType::Sync,
            false,
            5,
            35,
            1024,
            default_sync_nodes_v(),
        )
    }

    fn config() -> (c: Config) {
        proof {
            N::network_id_fits();
        }
        base_config(N::network_id(), NodeType::Sync, false, 5, 35, 1024, default_sync_nodes())
    }
}

/// A client node bootstrapping from the trial sync list.
#[derive(Debug)]
pub struct ClientTrial<N: Network> {
    /// The network the node runs on.
    pub network: core::marker::PhantomData<N>,
}

impl<N: Network> Environment for ClientTrial<N> {
    open spec fn spec_config() -> ConfigV {
        base_config_v(
            N::spec_network_id(),
            NodeType::Client,
            false,
            9,
            11,
            31,
            trial_sync_nodes_v(),
        )
    }

    fn config() -> (c: Config) {
        proof {
            N::network_id_fits();
        }
        base_config(N::network_id(), NodeType::Client, false, 9, 11, 31, trial_sync_nodes())
    }
}

/// A mining node bootstrapping from the trial sync list.
#[derive(Debug)]
pub struct MinerTrial<N: Network> {
    /// The network the node runs on.
    pub network: core::marker::PhantomData<N>,
}

impl<N: Network> Environment for MinerTrial<N> {
    open spec fn spec_config() -> ConfigV {
        base_config_v(
            N::spec_network_id(),
            NodeType::Miner,
            true,
            9,
            11,
            21,
            trial_sync_nodes_v(),
        )
    }

    fn config() -> (c: Config) {
        proof {
            N::network_id_fits();
        }
        base_config(N::network_id(), NodeType::Miner, true, 9, 11, 21, trial_sync_nodes())
    }
}

/// An operator node bootstrapping from the trial sync list.
#[derive(Debug)]
pub struct OperatorTrial<N: Network> {
    /// The network the node runs on.
    pub network: core::marker::PhantomData<N>,
}

impl<N: Network> Environment for OperatorTrial<N> {
    open spec fn spec_config() -> ConfigV {
        base_config_v(
            N::spec_network_id(),
            NodeType::Operator,
            true,
            9,
            11,
            1000,
            trial_sync_nodes_v(),
        )
    }

    fn config() -> (c: Config) {
        proof {
            N::network_id_fits();
        }
        base_config(N::network_id(), NodeType::Operator, true, 9, 11, 1000, trial_sync_nodes())
    }
}

/// A prover node bootstrapping from the trial sync list.
#[derive(Debug)]
pub struct ProverTrial<N: Network> {
    /// The network the node runs on.
    pub network: core::marker::PhantomData<N>,
}

impl<N: Network> Environment for ProverTrial<N> {
    open spec fn spec_config() -> ConfigV {
        base_config_v(
            N::spec_network_id(),
            NodeType::Prover,
            true,
            9,
            11,
            21,
            trial_sync_nodes_v(),
        )
    }

    fn config() -> (c: Config) {
        proof {
            N::network_id_fits();
        }
        base_config(N::network_id(), NodeType::Prover, true, 9, 11, 21, trial_sync_nodes())
    }
}

/// The worker pool type for CPU-bound cryptographic work.
#[verifier::external_type_specification]
#[verifier::external_body]
pub struct ExThreadPool(rayon::ThreadPool);

/// Relies on `num_cpus::get`: it always reports at least one CPU.
#[verifier::external_body]
pub fn cpu_count() -> (r: usize)
    ensures
        r >= 1,
{
    num_cpus::get()
}

/// The worker count for a machine with the given CPUs: seven eighths of
/// them, rounded up, but never fewer than two.
pub open spec fn spec_thread_pool_size(cpus: usize) -> int {
    if (cpus * 7 + 7) / 8 < 2 {
        2
    } else {
        (cpus * 7 + 7) / 8
    }
}

/// Returns the worker count for a machine with the given CPUs.
pub fn thread_pool_size(cpus: usize) -> (r: usize)
    ensures
        r == spec_thread_pool_size(cpus),
{
    let scaled = (((cpus as u128) * 7 + 7) / 8) as usize;
    assert(((cpus as u128) * 7 + 7) / 8 == (cpus * 7 + 7) / 8 && (cpus * 7 + 7) / 8 <= cpus + 1)
        by (nonlinear_arith);
    if scaled < 2 {
        2
    } else {
        scaled
    }
}

/// The number of worker threads a pool was built with.
pub uninterp spec fn pool_threads(p: rayon::ThreadPool) -> usize;

/// Relies on `rayon::ThreadPoolBuilder`: with a positive worker count the
/// builder takes that count as given, and it soft-caps counts at 65535, so
/// within the stated bounds a built pool has exactly the requested workers,
/// each with the given stack size; a build failure comes back as `Err`.
#[verifier::external_body]
fn build_thread_pool(num_threads: usize, stack_size: usize) -> (r: Option<rayon::ThreadPool>)
    requires
        1 <= num_threads <= 65535,
    ensures
        r matches Some(p) ==> pool_threads(p) == num_threads,
{
    rayon::ThreadPoolBuilder::new().num_threads(num_threads).stack_size(stack_size).build().ok()
}

/// Returns a thread pool for the node to perform intensive operations:
/// seven eighths of the CPUs, rounded up (at least two), each worker with an
/// eight mebibyte stack. `None` when the underlying pool cannot be built,
/// among which a worker count beyond what the pool can carry.
pub fn new_thread_pool() -> (r: Option<rayon::ThreadPool>)
    ensures
        r matches Some(p) ==> pool_threads(p) >= 2,
{
    let cpus = cpu_count();
    let workers = thread_pool_size(cpus);
    if workers > 65535 {
        return None;
    }
    build_thread_pool(workers, 8 * 1024 * 1024)
}

} // verus!
