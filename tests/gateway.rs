use conxian_gateway::{
    is_authorized, ChainState, Config, ConxianError, FilePersistence, GatewayState, Metrics,
    PersistentState,
};

const TEST_TOKEN: &str = "test-token";

#[test]
fn test_get_state_unauthorized() {
    assert!(!is_authorized(None, TEST_TOKEN));
}

#[test]
fn test_get_state_authorized() {
    let mut state = GatewayState::default();
    state.bitcoin.height = 12345;
    state.bitcoin.status = "testing".to_string();
    let header = format!("Bearer {}", TEST_TOKEN);
    assert!(is_authorized(Some(header.as_str()), TEST_TOKEN));
    state.record_request();
    assert_eq!(state.bitcoin.height, 12345);
    assert_eq!(state.bitcoin.status, "testing");
    assert_eq!(state.metrics.total_requests, 1);
}

#[test]
fn wrong_or_malformed_tokens_are_refused() {
    assert!(!is_authorized(Some("Bearer wrong"), TEST_TOKEN));
    assert!(!is_authorized(Some("bearer test-token"), TEST_TOKEN));
    assert!(!is_authorized(Some("Bearer test-token "), TEST_TOKEN));
    assert!(!is_authorized(Some("test-token"), TEST_TOKEN));
    assert!(!is_authorized(Some("Bearer"), TEST_TOKEN));
    assert!(is_authorized(Some("Bearer "), ""));
}

#[test]
fn test_get_state_handler() {
    let mut state = GatewayState::new(1000);
    state.bitcoin.height = 100;
    state.record_request();
    assert_eq!(state.bitcoin.height, 100);
    assert_eq!(state.metrics.total_requests, 1);
    assert_eq!(state.uptime_seconds(1060), 60);
}

#[test]
fn fresh_state_is_initializing() {
    let state = GatewayState::new(77);
    for chain in [&state.bitcoin, &state.stacks] {
        assert_eq!(chain.height, 0);
        assert_eq!(chain.status, "initializing");
        assert_eq!(chain.last_updated, 0);
        assert_eq!(chain.best_block_hash, "");
        assert_eq!(chain.network, "unknown");
        assert!(chain.epoch.is_none());
        assert!(chain.mode.is_none());
    }
    assert_eq!(state.metrics, Metrics { total_requests: 0, verification_count: 0 });
    assert_eq!(state.start_time, 77);
    assert_eq!(ChainState::default().status, "initializing");
    assert!(GatewayState::default().start_time > 0);
}

#[test]
fn counters_count_and_saturate() {
    let mut state = GatewayState::new(0);
    state.record_request();
    state.record_verification();
    assert_eq!(state.metrics.total_requests, 2);
    assert_eq!(state.metrics.verification_count, 1);
    state.metrics.total_requests = u64::MAX;
    state.record_verification();
    assert_eq!(state.metrics.total_requests, u64::MAX);
    assert_eq!(state.metrics.verification_count, 2);
}

#[test]
fn uptime_never_underflows() {
    let state = GatewayState::new(500);
    assert_eq!(state.uptime_seconds(499), 0);
    assert_eq!(state.uptime_seconds(500), 0);
    assert_eq!(state.uptime_seconds(501), 1);
}

#[test]
fn zero_cursors_are_the_default() {
    assert_eq!(PersistentState::default(), PersistentState { bitcoin_height: 0, stacks_height: 0 });
}

#[test]
fn file_store_keeps_its_path() {
    let store = FilePersistence::new("gateway_state.json");
    assert_eq!(store.path(), "gateway_state.json");
}

#[test]
fn config_defaults_fill_missing_values() {
    let c = Config::with_defaults(None, None, None, None, None, None);
    assert_eq!(c.bitcoin_rpc_url, "http://localhost:18332");
    assert_eq!(c.bitcoin_rpc_user, "user");
    assert_eq!(c.bitcoin_rpc_pass, "pass");
    assert_eq!(c.stacks_rpc_url, "http://localhost:20443");
    assert_eq!(c.api_port, 3000);
    assert_eq!(c.api_token, "institutional-default-token");
    let given = Config::with_defaults(
        Some("http://node:8332".to_string()),
        Some("alice".to_string()),
        Some("secret".to_string()),
        Some("http://stx:20443".to_string()),
        Some(8080),
        Some("t0k3n".to_string()),
    );
    assert_eq!(given.bitcoin_rpc_url, "http://node:8332");
    assert_eq!(given.bitcoin_rpc_user, "alice");
    assert_eq!(given.api_port, 8080);
    assert_eq!(given.api_token, "t0k3n");
}

#[test]
fn error_messages_name_their_kind() {
    assert_eq!(ConxianError::Bitcoin("x".to_string()).message(), "Bitcoin error: x");
    assert_eq!(ConxianError::Stacks("y".to_string()).message(), "Stacks error: y");
    assert_eq!(ConxianError::Io("z".to_string()).message(), "IO error: z");
    assert_eq!(
        ConxianError::Security("s".to_string()).message(),
        "Security/Verification error: s"
    );
}
