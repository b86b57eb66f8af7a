use oxidegate::config::{env_num_u64, env_num_usize};
use oxidegate::scheduler::SchedulerConfig;

#[test]
fn numbers_are_read() {
    assert_eq!(env_num_u64(Some("25"), 0), 25);
    assert_eq!(env_num_u64(Some("+7"), 0), 7);
    assert_eq!(env_num_u64(Some("007"), 1), 7);
    assert_eq!(env_num_usize(Some("250"), 100), 250);
    assert_eq!(env_num_u64(Some("18446744073709551615"), 0), u64::MAX);
}

#[test]
fn bad_numbers_fall_back() {
    assert_eq!(env_num_u64(None, 9), 9);
    assert_eq!(env_num_u64(Some(""), 9), 9);
    assert_eq!(env_num_u64(Some("+"), 9), 9);
    assert_eq!(env_num_u64(Some("-3"), 9), 9);
    assert_eq!(env_num_u64(Some(" 5"), 9), 9);
    assert_eq!(env_num_u64(Some("5ms"), 9), 9);
    assert_eq!(env_num_u64(Some("18446744073709551616"), 9), 9);
    assert_eq!(env_num_usize(Some("many"), 100), 100);
}

#[test]
fn default_config_disables_batching() {
    let cfg = SchedulerConfig::from_settings(None, None);
    assert_eq!(cfg.window_ms, 0);
    assert_eq!(cfg.queue_depth, 100);
}

#[test]
fn config_from_settings() {
    let cfg = SchedulerConfig::from_settings(Some("20"), Some("8"));
    assert_eq!(cfg.window_ms, 20);
    assert_eq!(cfg.queue_depth, 8);
    let cfg = SchedulerConfig::from_settings(Some("soon"), Some("0"));
    assert_eq!(cfg.window_ms, 0);
    assert_eq!(cfg.queue_depth, 0);
}
