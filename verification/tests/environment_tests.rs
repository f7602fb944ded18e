use snarkos_network::environment::{
    cpu_count, new_thread_pool, thread_pool_size, Client, ClientTrial, Environment, Miner,
    MinerTrial, Operator, OperatorTrial, Prover, ProverTrial, SyncNode, Testnet2,
};
use snarkos_network::node_type::NodeType;

#[test]
fn sync_node_heartbeat_overrides_the_default() {
    let sync = SyncNode::<Testnet2>::config();
    let client = Client::<Testnet2>::config();
    assert_eq!(sync.heartbeat_in_secs, 5);
    assert_eq!(client.heartbeat_in_secs, 9);
}

#[test]
fn connection_timeout_fits_inside_one_heartbeat_for_every_role() {
    let configs = [
        Client::<Testnet2>::config(),
        Miner::<Testnet2>::config(),
        Operator::<Testnet2>::config(),
        Prover::<Testnet2>::config(),
        SyncNode::<Testnet2>::config(),
        ClientTrial::<Testnet2>::config(),
        MinerTrial::<Testnet2>::config(),
        OperatorTrial::<Testnet2>::config(),
        ProverTrial::<Testnet2>::config(),
    ];
    for c in &configs {
        assert!(c.connection_timeout_in_millis <= c.heartbeat_in_secs * 1000);
        assert!(c.minimum_number_of_peers <= c.maximum_number_of_peers);
    }
}

#[test]
fn role_peer_bounds_match_the_preset_table() {
    let rows: [(snarkos_network::environment::Config, usize, usize, bool); 9] = [
        (Client::<Testnet2>::config(), 2, 21, false),
        (Miner::<Testnet2>::config(), 1, 21, true),
        (Operator::<Testnet2>::config(), 1, 1000, true),
        (Prover::<Testnet2>::config(), 1, 21, true),
        (SyncNode::<Testnet2>::config(), 35, 1024, false),
        (ClientTrial::<Testnet2>::config(), 11, 31, false),
        (MinerTrial::<Testnet2>::config(), 11, 21, true),
        (OperatorTrial::<Testnet2>::config(), 11, 1000, true),
        (ProverTrial::<Testnet2>::config(), 11, 21, true),
    ];
    for (c, min, max, coinbase) in rows {
        assert_eq!(c.minimum_number_of_peers, min);
        assert_eq!(c.maximum_number_of_peers, max);
        assert_eq!(c.coinbase_is_public, coinbase);
    }
}

#[test]
fn node_types_match_the_roles() {
    assert_eq!(Client::<Testnet2>::config().node_type, NodeType::Client);
    assert_eq!(Miner::<Testnet2>::config().node_type, NodeType::Miner);
    assert_eq!(Operator::<Testnet2>::config().node_type, NodeType::Operator);
    assert_eq!(Prover::<Testnet2>::config().node_type, NodeType::Prover);
    assert_eq!(SyncNode::<Testnet2>::config().node_type, NodeType::Sync);
}

#[test]
fn default_ports_derive_from_the_network_id() {
    let c = Client::<Testnet2>::config();
    assert_eq!(c.default_node_port, 4132);
    assert_eq!(c.default_rpc_port, 3032);
}

#[test]
fn default_constants_hold_for_a_plain_client() {
    let c = Client::<Testnet2>::config();
    assert_eq!(c.message_version, 12);
    assert_eq!(c.connection_timeout_in_millis, 500);
    assert_eq!(c.ping_sleep_in_secs, 60);
    assert_eq!(c.radio_silence_in_secs, 210);
    assert_eq!(c.failure_expiry_time_in_secs, 7200);
    assert_eq!(c.maximum_connection_failures, 3);
    assert_eq!(c.maximum_candidate_peers, 10_000);
    assert_eq!(c.maximum_message_size, 128 * 1024 * 1024);
    assert_eq!(c.maximum_block_request, 250);
    assert_eq!(c.maximum_number_of_failures, 1024);
    assert!(c.beacon_nodes.is_empty());
}

#[test]
fn default_sync_list_is_the_local_node() {
    let c = Client::<Testnet2>::config();
    assert_eq!(c.sync_nodes.len(), 1);
    assert_eq!(c.sync_nodes[0].octets, vec![127, 0, 0, 1]);
    assert_eq!(c.sync_nodes[0].port, 4135);
}

#[test]
fn trial_roles_bootstrap_from_the_trial_list() {
    let c = ClientTrial::<Testnet2>::config();
    assert_eq!(c.sync_nodes.len(), 13);
    assert_eq!(c.sync_nodes[0].octets, vec![144, 126, 219, 193]);
    assert_eq!(c.sync_nodes[0].port, 4132);
    assert_eq!(c.sync_nodes[12].octets, vec![143, 198, 166, 150]);
    assert_eq!(c.sync_nodes[12].port, 4132);
    assert!(c.beacon_nodes.is_empty());
}

#[test]
fn thread_pool_size_is_seven_eighths_rounded_up_with_a_floor_of_two() {
    assert_eq!(thread_pool_size(1), 2);
    assert_eq!(thread_pool_size(2), 2);
    assert_eq!(thread_pool_size(3), 3);
    assert_eq!(thread_pool_size(4), 4);
    assert_eq!(thread_pool_size(8), 7);
    assert_eq!(thread_pool_size(9), 8);
    assert_eq!(thread_pool_size(16), 14);
    assert_eq!(thread_pool_size(64), 56);
}

#[test]
fn cpu_count_reports_at_least_one() {
    assert!(cpu_count() >= 1);
}

#[test]
fn the_worker_pool_builds_and_runs_work() {
    let pool = new_thread_pool().expect("failed to initialize a thread pool for the node");
    let sum: u64 = pool.install(|| (1..=100u64).sum());
    assert_eq!(sum, 5050);
}

#[test]
fn the_worker_pool_has_the_computed_worker_count() {
    let pool = new_thread_pool().expect("failed to initialize a thread pool for the node");
    let expected = thread_pool_size(cpu_count());
    assert_eq!(pool.current_num_threads(), expected);
    assert!(pool.current_num_threads() >= 2);
}
