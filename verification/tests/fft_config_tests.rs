use beanal::fft_config::{plan_config_update, ConfigUpdate, FFTConfigManager, FIXED_FFT_SIZE};

#[test]
fn test_sample_rate_update() {
    let mut manager = FFTConfigManager::new(48000);
    let changed = manager.update_sample_rate(96000);
    assert!(changed);
    assert_eq!(manager.get_sample_rate(), 96000);
    let changed = manager.update_sample_rate(96000);
    assert!(!changed);
    let changed = manager.update_sample_rate(44100);
    assert!(changed);
    assert_eq!(manager.get_sample_rate(), 44100);
}

#[test]
fn manager_starts_at_given_rate() {
    let manager = FFTConfigManager::new(48000);
    assert_eq!(manager.get_sample_rate(), 48000);
    assert_eq!(FIXED_FFT_SIZE, 2048);
}

#[test]
fn config_changes_reach_the_analyser() {
    assert_eq!(plan_config_update(64, 64, 64, false), ConfigUpdate::Keep);
    assert_eq!(plan_config_update(64, 64, 64, true), ConfigUpdate::Reconfigure);
    assert_eq!(plan_config_update(128, 64, 64, false), ConfigUpdate::Recreate);
    assert_eq!(plan_config_update(128, 64, 128, false), ConfigUpdate::Reconfigure);
    assert_eq!(plan_config_update(32, 32, 64, true), ConfigUpdate::Recreate);
}
