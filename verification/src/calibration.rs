use vstd::prelude::*;

verus! {

/// Generates a calibration result from collected profiler data for one
/// sample rate and FFT size.
#[derive(Debug, Clone, Copy, PartialEq, Eq, Structural)]
pub struct CalibrationTuner {
    sample_rate: u32,
    fft_size: usize,
}

impl CalibrationTuner {
    pub closed spec fn spec_sample_rate(&self) -> u32 {
        self.sample_rate
    }

    pub closed spec fn spec_fft_size(&self) -> usize {
        self.fft_size
    }

    /// Create a tuner for the given audio parameters.
    pub fn new(sample_rate: u32, fft_size: usize) -> (r: Self)
        ensures
            r.spec_sample_rate() == sample_rate,
            r.spec_fft_size() == fft_size,
    {
        CalibrationTuner { sample_rate, fft_size }
    }

    /// Sample rate the tuner was created for.
    pub fn sample_rate(&self) -> (r: u32)
        ensures
            r == self.spec_sample_rate(),
    {
        self.sample_rate
    }

    /// FFT size the tuner was created for.
    pub fn fft_size(&self) -> (r: usize)
        ensures
            r == self.spec_fft_size(),
    {
        self.fft_size
    }
}

} // verus!
