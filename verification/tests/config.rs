use user_store::config::{load_config, ServerConfig};

#[test]
fn default_config_values() {
    let config = ServerConfig::default();
    assert_eq!(config.host, "127.0.0.1");
    assert_eq!(config.port, 8080);
    assert!(config.workers >= 1);
}

#[test]
fn load_config_returns_defaults() {
    let config = load_config().unwrap();
    assert_eq!(config, ServerConfig::default());
}
