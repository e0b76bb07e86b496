//! Watcher configuration and its start-time validation.

use vstd::prelude::*;

verus! {

/// Default polling interval between clipboard reads, in milliseconds.
pub const DEFAULT_BASE_INTERVAL_MS: u64 = 100;

/// Default upper bound on the backoff interval, in milliseconds.
pub const DEFAULT_MAX_BACKOFF_MS: u64 = 5000;

/// Default number of consecutive read errors after which backoff begins.
pub const DEFAULT_ERROR_THRESHOLD: u64 = 3;

/// Default bound on how long a single clipboard read may block, in milliseconds.
pub const DEFAULT_READ_TIMEOUT_MS: u64 = 50;

/// Why a configuration was rejected at start time.
#[derive(Clone, Copy, Debug, PartialEq, Eq, Structural)]
pub enum ConfigError {
    /// `base_interval_ms` is zero.
    ZeroBaseInterval,
    /// `max_backoff_ms` is smaller than `base_interval_ms`.
    BackoffCapBelowBase,
    /// `error_threshold` is zero.
    ZeroErrorThreshold,
    /// `read_timeout_ms` is zero.
    ZeroReadTimeout,
}

/// Timing policy for the watcher: how often to poll, how far to back off
/// under repeated errors, when backoff begins, and how long one read may take.
#[derive(Clone, Copy, Debug)]
pub struct Config {
    pub base_interval_ms: u64,
    pub max_backoff_ms: u64,
    pub error_threshold: u64,
    pub read_timeout_ms: u64,
}

/// The outcome of validating `c`: checks run in field order, and the first
/// violated rule names the error.
pub open spec fn validation_of(c: Config) -> Result<(), ConfigError> {
    if c.base_interval_ms == 0 {
        Err(ConfigError::ZeroBaseInterval)
    } else if c.max_backoff_ms < c.base_interval_ms {
        Err(ConfigError::BackoffCapBelowBase)
    } else if c.error_threshold == 0 {
        Err(ConfigError::ZeroErrorThreshold)
    } else if c.read_timeout_ms == 0 {
        Err(ConfigError::ZeroReadTimeout)
    } else {
        Ok(())
    }
}

impl Config {
    /// A configuration is valid when every duration is positive and the
    /// backoff cap is no smaller than the base interval.
    pub open spec fn wf(self) -> bool {
        &&& self.base_interval_ms >= 1
        &&& self.max_backoff_ms >= self.base_interval_ms
        &&& self.error_threshold >= 1
        &&& self.read_timeout_ms >= 1
    }

    /// Rejects an invalid configuration before any polling begins.
    pub fn validate(&self) -> (r: Result<(), ConfigError>)
        ensures
            r == validation_of(*self),
            r is Ok <==> self.wf(),
    {
        if self.base_interval_ms == 0 {
            Err(ConfigError::ZeroBaseInterval)
        } else if self.max_backoff_ms < self.base_interval_ms {
            Err(ConfigError::BackoffCapBelowBase)
        } else if self.error_threshold == 0 {
            Err(ConfigError::ZeroErrorThreshold)
        } else if self.read_timeout_ms == 0 {
            Err(ConfigError::ZeroReadTimeout)
        } else {
            Ok(())
        }
    }
}

impl Default for Config {
    /// The stock policy: poll every 100 ms, back off to at most 5 s after
    /// 3 consecutive errors, and give a single read 50 ms.
    fn default() -> (c: Config)
        ensures
            c.base_interval_ms == DEFAULT_BASE_INTERVAL_MS,
            c.max_backoff_ms == DEFAULT_MAX_BACKOFF_MS,
            c.error_threshold == DEFAULT_ERROR_THRESHOLD,
            c.read_timeout_ms == DEFAULT_READ_TIMEOUT_MS,
            c.wf(),
    {
        Config {
            base_interval_ms: DEFAULT_BASE_INTERVAL_MS,
            max_backoff_ms: DEFAULT_MAX_BACKOFF_MS,
            error_threshold: DEFAULT_ERROR_THRESHOLD,
            read_timeout_ms: DEFAULT_READ_TIMEOUT_MS,
        }
    }
}

} // verus!
