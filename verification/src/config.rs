use vstd::prelude::*;

verus! {

// ---------------------------------------------------------------------------
// Constants
// ---------------------------------------------------------------------------

/// Maximum number of samples per frame.
pub const MAX_FRAME_SIZE: usize = 960;

/// Maximum FFT length supported.
pub const MAX_FFT_SIZE: usize = 2048;

/// Default sample rate (Hz).
pub const DEFAULT_SAMPLE_RATE: u32 = 48_000;

/// Default frame size (10 ms at 48 kHz).
pub const DEFAULT_FRAME_SIZE: usize = 480;

/// Default FFT size.
pub const DEFAULT_FFT_SIZE: usize = 1024;

/// Default hop size (same as default frame size).
pub const DEFAULT_HOP_SIZE: usize = 480;

/// Default duration of the calibration phase in milliseconds.
pub const DEFAULT_CALIBRATION_DURATION_MS: u32 = 7000;

// ---------------------------------------------------------------------------
// Enums
// ---------------------------------------------------------------------------

/// Which noise-estimation algorithm to use.
#[derive(Debug, Clone, Copy, PartialEq, Eq, Structural)]
pub enum NoiseEstimatorType {
    /// Speech Presence Probability – Minimum Mean Square Error.
    SppMmse,
    /// Martin's Minimum Statistics.
    MartinMs,
}

impl NoiseEstimatorType {
    /// The estimator used when none is chosen.
    pub open spec fn default_spec() -> NoiseEstimatorType {
        NoiseEstimatorType::SppMmse
    }
}

impl Default for NoiseEstimatorType {
    fn default() -> (r: Self)
        ensures
            r == NoiseEstimatorType::SppMmse,
    {
        NoiseEstimatorType::SppMmse
    }
}

/// Broad classification of the acoustic environment.
#[derive(Debug, Clone, Copy, PartialEq, Eq, Structural)]
pub enum EnvironmentClass {
    OpenStadium,
    DomeArena,
    SmallVenue,
    BroadcastFeed,
}

/// Estimated crowd density.
#[derive(Debug, Clone, Copy, PartialEq, Eq, Structural)]
pub enum CrowdDensity {
    Sparse,
    Moderate,
    Dense,
    Roaring,
}

/// Current state of the processing pipeline.
#[derive(Debug, Clone, Copy, PartialEq, Eq, Structural)]
pub enum PipelineState {
    Idle,
    Calibrating { frames_collected: usize, target_frames: usize },
    Processing,
    Bypassed,
}

impl Default for PipelineState {
    fn default() -> (r: Self)
        ensures
            r == PipelineState::Idle,
    {
        PipelineState::Idle
    }
}

// ---------------------------------------------------------------------------
// Structs
// ---------------------------------------------------------------------------

/// Core DSP pipeline configuration.
#[derive(Debug, Clone, Copy, PartialEq, Eq, Structural)]
pub struct PipelineConfig {
    pub sample_rate: u32,
    pub frame_size: usize,
    pub fft_size: usize,
    pub hop_size: usize,
    /// Duration of the calibration phase in milliseconds.
    pub calibration_duration_ms: u32,
    /// Which noise-estimation algorithm to use.
    pub noise_estimator_type: NoiseEstimatorType,
}

/// The default configuration: 48 kHz, 480-sample frames and hops, a
/// 1024-point FFT, 7 s of calibration and the SPP-MMSE noise estimator.
pub open spec fn default_config() -> PipelineConfig {
    PipelineConfig {
        sample_rate: DEFAULT_SAMPLE_RATE,
        frame_size: DEFAULT_FRAME_SIZE,
        fft_size: DEFAULT_FFT_SIZE,
        hop_size: DEFAULT_HOP_SIZE,
        calibration_duration_ms: DEFAULT_CALIBRATION_DURATION_MS,
        noise_estimator_type: NoiseEstimatorType::SppMmse,
    }
}

impl Default for PipelineConfig {
    fn default() -> (r: Self)
        ensures
            r == default_config(),
    {
        PipelineConfig {
            sample_rate: DEFAULT_SAMPLE_RATE,
            frame_size: DEFAULT_FRAME_SIZE,
            fft_size: DEFAULT_FFT_SIZE,
            hop_size: DEFAULT_HOP_SIZE,
            calibration_duration_ms: DEFAULT_CALIBRATION_DURATION_MS,
            noise_estimator_type: NoiseEstimatorType::SppMmse,
        }
    }
}

impl PipelineConfig {
    /// Number of complex bins of a real FFT of this configuration's size.
    pub open spec fn spec_num_bins(&self) -> int {
        self.fft_size / 2 + 1
    }

    /// Number of complex bins of a real FFT of this configuration's size
    /// (`fft_size / 2 + 1`).
    pub fn num_bins(&self) -> (n: usize)
        ensures
            n == self.spec_num_bins(),
    {
        self.fft_size / 2 + 1
    }
}

/// The configuration that the command line builds: the hop equals the frame
/// size and the calibration time is given in whole seconds.
pub open spec fn cli_config(
    sample_rate: u32,
    frame_size: usize,
    fft_size: usize,
    calibrate_seconds: u32,
) -> PipelineConfig {
    PipelineConfig {
        sample_rate,
        frame_size,
        fft_size,
        hop_size: frame_size,
        calibration_duration_ms: (calibrate_seconds * 1000) as u32,
        noise_estimator_type: NoiseEstimatorType::SppMmse,
    }
}

/// The command line's configuration takes its rate, frame and FFT sizes
/// from the arguments, hops by whole frames, and calibrates for the given
/// number of seconds with the default noise estimator.
pub proof fn lemma_cli_config_fields(
    sample_rate: u32,
    frame_size: usize,
    fft_size: usize,
    calibrate_seconds: u32,
)
    requires
        calibrate_seconds * 1000 <= u32::MAX,
    ensures
        cli_config(sample_rate, frame_size, fft_size, calibrate_seconds).sample_rate == sample_rate,
        cli_config(sample_rate, frame_size, fft_size, calibrate_seconds).frame_size == frame_size,
        cli_config(sample_rate, frame_size, fft_size, calibrate_seconds).hop_size == frame_size,
        cli_config(sample_rate, frame_size, fft_size, calibrate_seconds).fft_size == fft_size,
        cli_config(sample_rate, frame_size, fft_size, calibrate_seconds).calibration_duration_ms
            == calibrate_seconds * 1000,
        cli_config(sample_rate, frame_size, fft_size, calibrate_seconds).noise_estimator_type
            == NoiseEstimatorType::default_spec(),
{
}

/// Build a configuration from command-line values.
pub fn build_config(
    sample_rate: u32,
    frame_size: usize,
    fft_size: usize,
    calibrate_seconds: u32,
) -> (r: PipelineConfig)
    requires
        calibrate_seconds * 1000 <= u32::MAX,
    ensures
        r == cli_config(sample_rate, frame_size, fft_size, calibrate_seconds),
        r.calibration_duration_ms == calibrate_seconds * 1000,
        r.sample_rate == sample_rate,
        r.frame_size == frame_size,
        r.hop_size == frame_size,
        r.fft_size == fft_size,
        r.noise_estimator_type == NoiseEstimatorType::SppMmse,
{
    PipelineConfig {
        sample_rate,
        frame_size,
        fft_size,
        hop_size: frame_size,
        calibration_duration_ms: calibrate_seconds * 1000,
        ..PipelineConfig::default()
    }
}

} // verus!
