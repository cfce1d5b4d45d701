use stadium_eq::config::{
    build_config, NoiseEstimatorType, PipelineConfig, PipelineState, DEFAULT_FFT_SIZE,
    DEFAULT_FRAME_SIZE, DEFAULT_HOP_SIZE, DEFAULT_SAMPLE_RATE, MAX_FFT_SIZE, MAX_FRAME_SIZE,
};

#[test]
fn default_config_values() {
    let c = PipelineConfig::default();
    assert_eq!(c.sample_rate, 48_000);
    assert_eq!(c.frame_size, 480);
    assert_eq!(c.fft_size, 1024);
    assert_eq!(c.hop_size, 480);
    assert_eq!(c.calibration_duration_ms, 7000);
    assert_eq!(c.noise_estimator_type, NoiseEstimatorType::SppMmse);
    assert_eq!(c.num_bins(), 513);
}

#[test]
fn default_enums() {
    assert_eq!(PipelineState::default(), PipelineState::Idle);
    assert_eq!(NoiseEstimatorType::default(), NoiseEstimatorType::SppMmse);
}

#[test]
fn constants() {
    assert_eq!(MAX_FRAME_SIZE, 960);
    assert_eq!(MAX_FFT_SIZE, 2048);
    assert_eq!(DEFAULT_SAMPLE_RATE, 48_000);
    assert_eq!(DEFAULT_FRAME_SIZE, 480);
    assert_eq!(DEFAULT_FFT_SIZE, 1024);
    assert_eq!(DEFAULT_HOP_SIZE, 480);
}

#[test]
fn cli_config_uses_frame_as_hop() {
    let c = build_config(44_100, 256, 512, 3);
    assert_eq!(c.sample_rate, 44_100);
    assert_eq!(c.frame_size, 256);
    assert_eq!(c.hop_size, 256);
    assert_eq!(c.fft_size, 512);
    assert_eq!(c.calibration_duration_ms, 3000);
    assert_eq!(c.noise_estimator_type, NoiseEstimatorType::SppMmse);
    assert_eq!(c.num_bins(), 257);
}
