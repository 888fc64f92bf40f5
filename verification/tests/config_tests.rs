use torsim::config::{SimConfig, DEFAULT_FALLBACK_SECS};
use torsim::errors::SimError;

#[test]
fn config_accepts_valid_range() {
    let c = SimConfig::new(1000, 2000, 50, DEFAULT_FALLBACK_SECS).unwrap();
    assert_eq!(c.start_time, 1000);
    assert_eq!(c.end_time, 2000);
    assert_eq!(c.num_clients, 50);
    assert_eq!(c.fallback_secs, 10800);
}

#[test]
fn config_rejects_end_equal_to_start() {
    let r = SimConfig::new(1000, 1000, 50, DEFAULT_FALLBACK_SECS);
    assert_eq!(r, Err(SimError::Configuration));
}

#[test]
fn config_rejects_end_before_start() {
    let r = SimConfig::new(2000, 1000, 50, DEFAULT_FALLBACK_SECS);
    assert_eq!(r, Err(SimError::Configuration));
}

#[test]
fn config_rejects_zero_clients() {
    let r = SimConfig::new(1000, 2000, 0, DEFAULT_FALLBACK_SECS);
    assert_eq!(r, Err(SimError::Configuration));
}

#[test]
fn config_rejects_nonpositive_fallback() {
    assert_eq!(SimConfig::new(1000, 2000, 50, 0), Err(SimError::Configuration));
    assert_eq!(SimConfig::new(1000, 2000, 50, -5), Err(SimError::Configuration));
}

#[test]
fn config_rejects_fallback_past_clock_range() {
    let r = SimConfig::new(1000, i64::MAX - 100, 50, 200);
    assert_eq!(r, Err(SimError::Configuration));
}
