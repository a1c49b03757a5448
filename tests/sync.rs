use conxian_gateway::{
    BitcoinListener, BitcoinRpc, BlockInfo, ConxianError, GatewayState, Persistence,
    PersistentState, SimulatedStacksRpc, StacksListener, StacksNetworkInfo, StacksRpc,
    StacksRpcClient,
};
use std::sync::Mutex;

struct MockBitcoinRpc {
    height: u64,
    failing_block: Option<u64>,
    failing_tip: bool,
}

impl MockBitcoinRpc {
    fn at(height: u64) -> Self {
        MockBitcoinRpc { height, failing_block: None, failing_tip: false }
    }
}

impl BitcoinRpc for MockBitcoinRpc {
    fn get_block_count(&self) -> Result<u64, ConxianError> {
        if self.failing_tip {
            Err(ConxianError::Bitcoin("node unreachable".to_string()))
        } else {
            Ok(self.height)
        }
    }

    fn get_block_info(&self, height: u64) -> Result<BlockInfo, ConxianError> {
        if self.failing_block == Some(height) {
            return Err(ConxianError::Bitcoin(format!("no block {}", height)));
        }
        Ok(BlockInfo { hash: format!("hash-{}", height), height, timestamp: 123456789 })
    }

    fn get_network_info(&self) -> Result<String, ConxianError> {
        Ok("testnet".to_string())
    }
}

struct MockPersistence;

impl Persistence for MockPersistence {
    fn save(&self, _state: &PersistentState) -> Result<(), ConxianError> {
        Ok(())
    }

    fn load(&self) -> Result<PersistentState, ConxianError> {
        Ok(PersistentState::default())
    }
}

/// Keeps every snapshot handed to it.
struct RecordingPersistence {
    saved: Mutex<Vec<PersistentState>>,
}

impl RecordingPersistence {
    fn new() -> Self {
        RecordingPersistence { saved: Mutex::new(Vec::new()) }
    }

    fn saved(&self) -> Vec<PersistentState> {
        self.saved.lock().unwrap().clone()
    }
}

impl Persistence for RecordingPersistence {
    fn save(&self, state: &PersistentState) -> Result<(), ConxianError> {
        self.saved.lock().unwrap().push(*state);
        Ok(())
    }

    fn load(&self) -> Result<PersistentState, ConxianError> {
        Ok(self.saved.lock().unwrap().last().copied().unwrap_or_default())
    }
}

struct FailingPersistence;

impl Persistence for FailingPersistence {
    fn save(&self, _state: &PersistentState) -> Result<(), ConxianError> {
        Err(ConxianError::Io("disk full".to_string()))
    }

    fn load(&self) -> Result<PersistentState, ConxianError> {
        Err(ConxianError::Io("missing".to_string()))
    }
}

#[test]
fn test_bitcoin_listener_sync_once() {
    let mut state = GatewayState::default();
    let rpc = MockBitcoinRpc::at(100);
    let persistence = MockPersistence;
    let mut listener = BitcoinListener::new(rpc, persistence.load());

    listener.sync_once(&persistence, &mut state).unwrap();

    assert_eq!(state.bitcoin.height, 100);
    assert_eq!(state.bitcoin.status, "synced");
    assert_eq!(state.bitcoin.network, "testnet");
    assert_eq!(state.bitcoin.best_block_hash, "hash-100");

    listener.rpc.height = 101;
    listener.sync_once(&persistence, &mut state).unwrap();

    assert_eq!(state.bitcoin.height, 101);
    assert_eq!(state.bitcoin.best_block_hash, "hash-101");
}

#[test]
fn backfill_applies_and_persists_every_height_in_order() {
    let mut state = GatewayState::default();
    state.stacks.height = 7;
    let persistence = RecordingPersistence::new();
    let mut listener = BitcoinListener::new(MockBitcoinRpc::at(100), persistence.load());

    listener.sync_once(&persistence, &mut state).unwrap();
    listener.rpc.height = 103;
    listener.sync_once(&persistence, &mut state).unwrap();
    listener.rpc.height = 106;
    listener.sync_once(&persistence, &mut state).unwrap();

    let heights: Vec<u64> = persistence.saved().iter().map(|s| s.bitcoin_height).collect();
    assert_eq!(heights, vec![100, 101, 102, 103, 104, 105, 106]);
    assert!(persistence.saved().iter().all(|s| s.stacks_height == 7));
    assert_eq!(listener.last_height(), 106);
    assert_eq!(state.bitcoin.height, 106);
    assert_eq!(state.bitcoin.best_block_hash, "hash-106");
    assert_eq!(state.bitcoin.last_updated, 123456789);
}

#[test]
fn repeated_sync_at_same_tip_changes_nothing() {
    let mut state = GatewayState::default();
    let persistence = RecordingPersistence::new();
    let mut listener = BitcoinListener::new(MockBitcoinRpc::at(50), persistence.load());

    listener.sync_once(&persistence, &mut state).unwrap();
    let saves_before = persistence.saved().len();
    let before = format!("{:?}", state);

    listener.sync_once(&persistence, &mut state).unwrap();

    assert_eq!(format!("{:?}", state), before);
    assert_eq!(persistence.saved().len(), saves_before);
    assert_eq!(listener.last_height(), 50);
}

#[test]
fn lower_remote_tip_is_ignored() {
    let mut state = GatewayState::default();
    let persistence = RecordingPersistence::new();
    let mut listener = BitcoinListener::new(MockBitcoinRpc::at(80), persistence.load());
    listener.sync_once(&persistence, &mut state).unwrap();

    listener.rpc.height = 75;
    listener.sync_once(&persistence, &mut state).unwrap();

    assert_eq!(listener.last_height(), 80);
    assert_eq!(state.bitcoin.height, 80);
    assert_eq!(persistence.saved().len(), 1);
}

#[test]
fn first_sync_starts_from_persisted_cursor() {
    let mut state = GatewayState::default();
    let persistence = RecordingPersistence::new();
    persistence.save(&PersistentState { bitcoin_height: 10, stacks_height: 0 }).unwrap();
    let mut listener = BitcoinListener::new(MockBitcoinRpc::at(12), persistence.load());
    assert_eq!(listener.last_height(), 10);

    listener.sync_once(&persistence, &mut state).unwrap();

    let heights: Vec<u64> = persistence.saved().iter().map(|s| s.bitcoin_height).collect();
    assert_eq!(heights, vec![10, 11, 12]);
}

#[test]
fn failed_load_starts_from_zero() {
    let listener = BitcoinListener::new(MockBitcoinRpc::at(5), FailingPersistence.load());
    assert_eq!(listener.last_height(), 0);
}

#[test]
fn tip_failure_sets_error_status_and_keeps_height() {
    let mut state = GatewayState::default();
    let persistence = MockPersistence;
    let mut listener = BitcoinListener::new(MockBitcoinRpc::at(20), persistence.load());
    listener.sync_once(&persistence, &mut state).unwrap();

    listener.rpc.failing_tip = true;
    let err = listener.sync_once(&persistence, &mut state).unwrap_err();

    assert!(matches!(err, ConxianError::Bitcoin(_)));
    assert_eq!(state.bitcoin.status, "error: Bitcoin error: node unreachable");
    assert_eq!(state.bitcoin.height, 20);
    assert_eq!(listener.last_height(), 20);
}

#[test]
fn block_failure_aborts_pass_and_is_retried() {
    let mut state = GatewayState::default();
    let persistence = RecordingPersistence::new();
    let mut listener = BitcoinListener::new(MockBitcoinRpc::at(30), persistence.load());
    listener.sync_once(&persistence, &mut state).unwrap();

    listener.rpc.height = 34;
    listener.rpc.failing_block = Some(32);
    let err = listener.sync_once(&persistence, &mut state).unwrap_err();
    assert!(matches!(err, ConxianError::Bitcoin(_)));
    assert_eq!(listener.last_height(), 30);
    assert_eq!(state.bitcoin.height, 31);

    listener.rpc.failing_block = None;
    listener.sync_once(&persistence, &mut state).unwrap();
    let heights: Vec<u64> = persistence.saved().iter().map(|s| s.bitcoin_height).collect();
    assert_eq!(heights, vec![30, 31, 31, 32, 33, 34]);
    assert_eq!(listener.last_height(), 34);
}

#[test]
fn save_failure_does_not_fail_the_pass() {
    let mut state = GatewayState::default();
    let mut listener = BitcoinListener::new(MockBitcoinRpc::at(9), Ok(PersistentState::default()));
    listener.sync_once(&FailingPersistence, &mut state).unwrap();
    assert_eq!(state.bitcoin.height, 9);
    assert_eq!(listener.last_height(), 9);
}

struct MockStacksRpc {
    height: u64,
    failing: bool,
}

impl StacksRpc for MockStacksRpc {
    fn get_block_count(&self) -> Result<u64, ConxianError> {
        Ok(self.height)
    }

    fn get_network_info(&self) -> Result<StacksNetworkInfo, ConxianError> {
        if self.failing {
            return Err(ConxianError::Stacks("timeout".to_string()));
        }
        Ok(StacksNetworkInfo {
            height: self.height,
            network: "mainnet".to_string(),
            epoch: "3.0".to_string(),
            burn_block_height: 0,
        })
    }

    fn get_block_info(&self, height: u64) -> Result<BlockInfo, ConxianError> {
        Ok(BlockInfo { hash: format!("stx-{}", height), height, timestamp: 1000 + height })
    }
}

#[test]
fn test_stacks_listener_sync_once() {
    let mut state = GatewayState::default();
    let rpc = MockStacksRpc { height: 555, failing: false };
    let persistence = MockPersistence;
    let mut listener = StacksListener::new(rpc, persistence.load());

    listener.sync_once(&persistence, &mut state).unwrap();

    assert_eq!(state.stacks.height, 555);
    assert_eq!(state.stacks.status, "synced");
    assert_eq!(state.stacks.mode.as_deref(), Some("nakamoto"));

    listener.rpc.height = 556;
    listener.sync_once(&persistence, &mut state).unwrap();

    assert_eq!(state.stacks.height, 556);
}

#[test]
fn stacks_update_persists_both_cursors() {
    let mut state = GatewayState::default();
    state.bitcoin.height = 800;
    let persistence = RecordingPersistence::new();
    let mut listener =
        StacksListener::new(MockStacksRpc { height: 40, failing: false }, persistence.load());

    listener.sync_once(&persistence, &mut state).unwrap();
    listener.sync_once(&persistence, &mut state).unwrap();

    assert_eq!(persistence.saved(), vec![PersistentState { bitcoin_height: 800, stacks_height: 40 }]);
    assert_eq!(state.stacks.network, "mainnet");
    assert_eq!(state.stacks.epoch.as_deref(), Some("3.0"));
    assert_eq!(listener.last_height(), 40);
}

#[test]
fn stacks_backfills_every_height_with_block_data() {
    let mut state = GatewayState::new(0);
    state.bitcoin.height = 5;
    let persistence = RecordingPersistence::new();
    let mut listener =
        StacksListener::new(MockStacksRpc { height: 10, failing: false }, persistence.load());
    listener.sync_once(&persistence, &mut state).unwrap();
    listener.rpc.height = 13;
    listener.sync_once(&persistence, &mut state).unwrap();

    let saved = persistence.saved();
    let heights: Vec<u64> = saved.iter().map(|s| s.stacks_height).collect();
    assert_eq!(heights, vec![10, 11, 12, 13]);
    assert!(saved.iter().all(|s| s.bitcoin_height == 5));
    assert_eq!(state.stacks.height, 13);
    assert_eq!(state.stacks.best_block_hash, "stx-13");
    assert_eq!(state.stacks.last_updated, 1013);
    assert_eq!(state.stacks.status, "synced");
    assert_eq!(state.stacks.network, "mainnet");
    assert_eq!(state.stacks.epoch.as_deref(), Some("3.0"));
    assert_eq!(state.stacks.mode.as_deref(), Some("nakamoto"));
    assert_eq!(listener.last_height(), 13);

    listener.rpc.height = 12;
    listener.sync_once(&persistence, &mut state).unwrap();
    assert_eq!(persistence.saved().len(), 4);
    assert_eq!(state.stacks.height, 13);
}

#[test]
fn simulated_stacks_node_syncs() {
    let mut state = GatewayState::new(0);
    let persistence = MockPersistence;
    let mut listener =
        StacksListener::new(SimulatedStacksRpc { initial_height: 7 }, persistence.load());
    listener.sync_once(&persistence, &mut state).unwrap();
    assert_eq!(state.stacks.height, 7);
    assert_eq!(state.stacks.best_block_hash, "simulated-7");
    assert_eq!(state.stacks.network, "simulated");
}

#[test]
fn stacks_failure_sets_error_status() {
    let mut state = GatewayState::default();
    let persistence = MockPersistence;
    let mut listener =
        StacksListener::new(MockStacksRpc { height: 3, failing: true }, persistence.load());
    let err = listener.sync_once(&persistence, &mut state).unwrap_err();
    assert!(matches!(err, ConxianError::Stacks(_)));
    assert_eq!(state.stacks.status, "error: Stacks error: timeout");
    assert_eq!(state.stacks.height, 0);
    assert_eq!(listener.last_height(), 0);
}

#[test]
fn simulated_stacks_node_reports_its_height() {
    let rpc = SimulatedStacksRpc { initial_height: 1234 };
    assert_eq!(rpc.get_block_count().unwrap(), 1234);
    let info = rpc.get_network_info().unwrap();
    assert_eq!(info.height, 1234);
    assert_eq!(info.network, "simulated");
    assert_eq!(info.epoch, "3.0");
    assert_eq!(info.burn_block_height, 123);
    let block = rpc.get_block_info(1234).unwrap();
    assert_eq!(block.hash, "simulated-1234");
    assert_eq!(block.height, 1234);
    assert_eq!(rpc.get_block_info(0).unwrap().hash, "simulated-0");
}

#[test]
fn stacks_client_builds_info_url_and_checks_status() {
    let client = StacksRpcClient::new("http://localhost:20443");
    assert_eq!(client.info_url(), "http://localhost:20443/v2/info");
    assert!(StacksRpcClient::check_status(200).is_ok());
    match StacksRpcClient::check_status(404) {
        Err(ConxianError::Stacks(m)) => assert_eq!(m, "Stacks RPC error: status 404"),
        other => panic!("unexpected {:?}", other),
    }
    assert_eq!(
        client.block_url(120045),
        "http://localhost:20443/extended/v1/block/by_height/120045"
    );
    match StacksRpcClient::check_status(i32::MIN) {
        Err(ConxianError::Stacks(m)) => assert_eq!(m, "Stacks RPC error: status -2147483648"),
        other => panic!("unexpected {:?}", other),
    }
    match StacksRpcClient::check_status(-1) {
        Err(ConxianError::Stacks(m)) => assert_eq!(m, "Stacks RPC error: status -1"),
        other => panic!("unexpected {:?}", other),
    }
}
