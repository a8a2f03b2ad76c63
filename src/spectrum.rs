//! The layout of a spectral analysis window: its length, its sample rate,
//! and which DFT bin holds a frequency.

use vstd::prelude::*;

use crate::profile::AudioSpec;

verus! {

/// The bin `floor(0.5 + sample_size * frequency / sample_rate)` of a
/// `sample_size`-point DFT at `sample_rate`.
pub open spec fn frequency_bin(frequency: int, sample_size: int, sample_rate: int) -> int {
    (2 * sample_size * frequency + sample_rate) / (2 * sample_rate)
}

/// A single-bin (Goertzel) analyzer for windows of `sample_size` samples.
#[derive(Copy, Clone, Debug, PartialEq, Eq, Structural)]
pub struct GoertzelMagnitude {
    pub sample_rate: usize,
    pub sample_size: usize,
}

impl GoertzelMagnitude {
    pub fn new(sample_size: usize, spec: &AudioSpec) -> (r: Self)
        ensures
            r.sample_size == sample_size,
            r.sample_rate == spec.spec_sample_rate(),
    {
        GoertzelMagnitude { sample_size, sample_rate: spec.sample_rate() as usize }
    }

    pub fn get_sample_rate(&self) -> (r: usize)
        ensures
            r == self.sample_rate,
    {
        self.sample_rate
    }

    pub fn get_sample_size(&self) -> (r: usize)
        ensures
            r == self.sample_size,
    {
        self.sample_size
    }

    /// The bin that holds `target_frequency`, rounded to the nearest.
    pub fn get_frequency_bin(&self, target_frequency: u32) -> (k: u128)
        requires
            self.sample_rate > 0,
        ensures
            k == frequency_bin(
                target_frequency as int,
                self.sample_size as int,
                self.sample_rate as int,
            ),
    {
        let n: u128 = self.sample_size as u128;
        let rate: u128 = self.sample_rate as u128;
        proof {
            assert(2 * n * target_frequency <= 2 * 18_446_744_073_709_551_615u128 * 4_294_967_295u128)
                by (nonlinear_arith)
                requires
                    n <= 18_446_744_073_709_551_615u128,
                    target_frequency <= 4_294_967_295u32,
            ;
        }
        (2 * n * target_frequency as u128 + rate) / (2 * rate)
    }
}

} // verus!
