use synheart_sensor_agent::{Config, ConfigError, SourceConfig};

#[test]
fn test_source_config_parsing() {
    let config = SourceConfig::from_csv("keyboard,mouse");
    assert!(config.keyboard);
    assert!(config.mouse);

    let config = SourceConfig::from_csv("keyboard");
    assert!(config.keyboard);
    assert!(!config.mouse);

    let config = SourceConfig::from_csv("all");
    assert!(config.keyboard);
    assert!(config.mouse);
}

#[test]
fn test_default_config() {
    let config = Config::default();
    assert_eq!(config.window_duration_secs, 10);
    assert!(config.sources.keyboard);
    assert!(config.sources.mouse);
    assert!(!config.paused);
    assert_eq!(config.session_gap_threshold_secs, 300);
}

#[test]
fn test_source_config_trims_and_lowercases() {
    let config = SourceConfig::from_csv("  Keyboard , MOUSE ");
    assert!(config.keyboard);
    assert!(config.mouse);

    let config = SourceConfig::from_csv("nothing,else");
    assert!(!config.keyboard);
    assert!(!config.mouse);
    assert!(!config.any_enabled());

    // A name must match a whole token.
    let config = SourceConfig::from_csv("keyboards,mousetrap");
    assert!(!config.keyboard);
    assert!(!config.mouse);

    let config = SourceConfig::from_csv("");
    assert!(!config.any_enabled());

    let config = SourceConfig::from_csv("mouse");
    assert!(config.any_enabled());
}

#[test]
fn test_config_error_messages() {
    assert_eq!(ConfigError::IoError("x".to_string()).message(), "IO error: x");
    assert_eq!(ConfigError::ParseError("y".to_string()).message(), "Parse error: y");
    assert_eq!(ConfigError::SerializeError("z".to_string()).message(), "Serialize error: z");
}
