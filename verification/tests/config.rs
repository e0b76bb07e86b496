use clipwatch::config::{
    Config, ConfigError, DEFAULT_BASE_INTERVAL_MS, DEFAULT_ERROR_THRESHOLD, DEFAULT_MAX_BACKOFF_MS,
    DEFAULT_READ_TIMEOUT_MS,
};

fn valid_config() -> Config {
    Config {
        base_interval_ms: 100,
        max_backoff_ms: 5000,
        error_threshold: 3,
        read_timeout_ms: 50,
    }
}

#[test]
fn default_config_matches_documented_values() {
    let c = Config::default();
    assert_eq!(c.base_interval_ms, 100);
    assert_eq!(c.max_backoff_ms, 5000);
    assert_eq!(c.error_threshold, 3);
    assert_eq!(c.read_timeout_ms, 50);
    assert_eq!(c.base_interval_ms, DEFAULT_BASE_INTERVAL_MS);
    assert_eq!(c.max_backoff_ms, DEFAULT_MAX_BACKOFF_MS);
    assert_eq!(c.error_threshold, DEFAULT_ERROR_THRESHOLD);
    assert_eq!(c.read_timeout_ms, DEFAULT_READ_TIMEOUT_MS);
    assert!(c.validate().is_ok());
}

#[test]
fn valid_config_is_accepted() {
    assert_eq!(valid_config().validate(), Ok(()));
}

#[test]
fn zero_base_interval_is_rejected() {
    let mut c = valid_config();
    c.base_interval_ms = 0;
    assert_eq!(c.validate(), Err(ConfigError::ZeroBaseInterval));
}

#[test]
fn backoff_cap_below_base_is_rejected() {
    let mut c = valid_config();
    c.max_backoff_ms = 99;
    assert_eq!(c.validate(), Err(ConfigError::BackoffCapBelowBase));
}

#[test]
fn zero_error_threshold_is_rejected() {
    let mut c = valid_config();
    c.error_threshold = 0;
    assert_eq!(c.validate(), Err(ConfigError::ZeroErrorThreshold));
}

#[test]
fn zero_read_timeout_is_rejected() {
    let mut c = valid_config();
    c.read_timeout_ms = 0;
    assert_eq!(c.validate(), Err(ConfigError::ZeroReadTimeout));
}

#[test]
fn cap_equal_to_base_is_accepted() {
    let mut c = valid_config();
    c.max_backoff_ms = c.base_interval_ms;
    assert_eq!(c.validate(), Ok(()));
}
