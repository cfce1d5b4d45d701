use vstd::prelude::*;

verus! {

/// Sample rate in Hz.
#[derive(Debug, Clone, Copy, PartialEq, Eq, Structural)]
pub struct SampleRate(pub u32);

impl core::ops::Deref for SampleRate {
    type Target = u32;

    fn deref(&self) -> (r: &u32)
        ensures
            *r == self.0,
    {
        &self.0
    }
}

impl core::ops::DerefMut for SampleRate {
    fn deref_mut(&mut self) -> (r: &mut u32)
        ensures
            *r == old(self).0,
            final(self).0 == *final(r),
    {
        &mut self.0
    }
}

/// Number of samples in one processing frame.
#[derive(Debug, Clone, Copy, PartialEq, Eq, Structural)]
pub struct FrameSize(pub usize);

impl core::ops::Deref for FrameSize {
    type Target = usize;

    fn deref(&self) -> (r: &usize)
        ensures
            *r == self.0,
    {
        &self.0
    }
}

impl core::ops::DerefMut for FrameSize {
    fn deref_mut(&mut self) -> (r: &mut usize)
        ensures
            *r == old(self).0,
            final(self).0 == *final(r),
    {
        &mut self.0
    }
}

/// FFT length (must be a power of two).
#[derive(Debug, Clone, Copy, PartialEq, Eq, Structural)]
pub struct FftSize(pub usize);

impl core::ops::Deref for FftSize {
    type Target = usize;

    fn deref(&self) -> (r: &usize)
        ensures
            *r == self.0,
    {
        &self.0
    }
}

impl core::ops::DerefMut for FftSize {
    fn deref_mut(&mut self) -> (r: &mut usize)
        ensures
            *r == old(self).0,
            final(self).0 == *final(r),
    {
        &mut self.0
    }
}

/// Index of a frequency bin in a spectrum.
#[derive(Debug, Clone, Copy, PartialEq, Eq, Structural)]
pub struct FreqBinIndex(pub usize);

impl core::ops::Deref for FreqBinIndex {
    type Target = usize;

    fn deref(&self) -> (r: &usize)
        ensures
            *r == self.0,
    {
        &self.0
    }
}

impl core::ops::DerefMut for FreqBinIndex {
    fn deref_mut(&mut self) -> (r: &mut usize)
        ensures
            *r == old(self).0,
            final(self).0 == *final(r),
    {
        &mut self.0
    }
}

} // verus!
