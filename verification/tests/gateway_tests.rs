use synheart_sensor_agent::gateway::HsiState;
use synheart_sensor_agent::GatewayConfig;

#[test]
fn test_gateway_config_url() {
    let config = GatewayConfig::new("127.0.0.1".to_string(), 8080, "test-token".to_string());
    assert_eq!(config.url(), "http://127.0.0.1:8080");
    assert_eq!(config.ingest_url(), "http://127.0.0.1:8080/v1/ingest");
    assert_eq!(config.health_url(), "http://127.0.0.1:8080/health");
}

#[test]
fn test_hsi_state_summary() {
    let state = HsiState {
        focus: Some("high".to_string()),
        load: Some("moderate".to_string()),
        recovery: None,
    };
    let summary = state.summary();
    assert!(summary.contains("high"));
    assert!(summary.contains("moderate"));
    assert!(summary.contains("unknown"));
    assert_eq!(summary, "focus: high, load: moderate, recovery: unknown");
}
