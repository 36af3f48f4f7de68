use ustats::config::{
    default_interval, default_true, default_x, default_y, AppConfig, AuthConfig, PollingConfig,
    WidgetConfig, DEFAULT_POSITION_BITS,
};

#[test]
fn defaults() {
    let c = AppConfig::default();
    assert_eq!(c.auth.api_key, "");
    assert_eq!(c.polling.interval_seconds, 60);
    assert!(c.widget.show_on_launch);
    assert_eq!(f64::from_bits(c.widget.position_x_bits), 100.0);
    assert_eq!(f64::from_bits(c.widget.position_y_bits), 100.0);
    assert_eq!(default_interval(), 60);
    assert!(default_true());
    assert_eq!(default_x(), 100.0f64.to_bits());
    assert_eq!(default_y(), DEFAULT_POSITION_BITS);
    assert_eq!(AuthConfig::default().api_key, "");
    assert_eq!(PollingConfig::default().interval_seconds, 60);
    let w = WidgetConfig::default();
    assert!(w.show_on_launch);
    assert_eq!(w.position_x_bits, 100.0f64.to_bits());
}

fn config_with_key(key: &str) -> AppConfig {
    let mut c = AppConfig::default();
    c.set_api_key(key.to_string());
    c
}

#[test]
fn keychain_token_has_priority() {
    let c = config_with_key("configured");
    assert_eq!(
        c.api_key(Some("oauth".to_string()), Some("env".to_string())),
        Some("oauth".to_string())
    );
}

#[test]
fn environment_key_before_configured_key() {
    let c = config_with_key("configured");
    assert_eq!(c.api_key(None, Some("env".to_string())), Some("env".to_string()));
    assert_eq!(c.api_key(None, Some(String::new())), Some("configured".to_string()));
    assert_eq!(c.api_key(None, None), Some("configured".to_string()));
}

#[test]
fn no_key_anywhere() {
    let c = AppConfig::default();
    assert_eq!(c.api_key(None, None), None);
    assert_eq!(c.api_key(None, Some(String::new())), None);
}

#[test]
fn stored_key_is_read_back() {
    let mut c = AppConfig::default();
    c.set_api_key("sk-ant-123".to_string());
    assert_eq!(c.auth.api_key, "sk-ant-123");
    assert_eq!(c.api_key(None, None), Some("sk-ant-123".to_string()));
}

#[test]
fn moving_the_widget_keeps_other_settings() {
    let mut c = config_with_key("k");
    c.polling.interval_seconds = 30;
    c.set_widget_position(250.5f64.to_bits(), (-12.0f64).to_bits());
    assert_eq!(f64::from_bits(c.widget.position_x_bits), 250.5);
    assert_eq!(f64::from_bits(c.widget.position_y_bits), -12.0);
    assert_eq!(c.auth.api_key, "k");
    assert_eq!(c.polling.interval_seconds, 30);
    assert!(c.widget.show_on_launch);
}

#[test]
fn loading_falls_back_to_defaults() {
    let c = AppConfig::loaded_or_default(None);
    assert_eq!(c.polling.interval_seconds, 60);
    let stored = config_with_key("x");
    let c = AppConfig::loaded_or_default(Some(stored));
    assert_eq!(c.auth.api_key, "x");
}
