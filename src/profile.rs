//! The audio format and the protocol profile: tone frequencies, pulse
//! durations, and their sizes in samples.

use vstd::prelude::*;

verus! {

/// How samples are stored outside the library.
#[derive(Copy, Clone, Debug, PartialEq, Eq, Structural)]
pub enum SampleEncoding {
    F32,
    I32,
}

/// Sample rate (Hz), bits per sample, channel count and encoding.
#[derive(Copy, Clone, Debug, PartialEq, Eq, Structural)]
pub struct AudioSpec {
    sr: u32,
    bps: u16,
    channels: u16,
    encoding: SampleEncoding,
}

impl AudioSpec {
    pub closed spec fn spec_sample_rate(self) -> u32 {
        self.sr
    }

    pub closed spec fn spec_bits_per_sample(self) -> u16 {
        self.bps
    }

    pub closed spec fn spec_channels(self) -> u16 {
        self.channels
    }

    pub closed spec fn spec_encoding(self) -> SampleEncoding {
        self.encoding
    }

    pub fn new(sr: u32, bps: u16, channels: u16, encoding: SampleEncoding) -> (r: Self)
        ensures
            r.spec_sample_rate() == sr,
            r.spec_bits_per_sample() == bps,
            r.spec_channels() == channels,
            r.spec_encoding() == encoding,
    {
        AudioSpec { sr, bps, channels, encoding }
    }

    pub fn channels(&self) -> (r: u16)
        ensures
            r == self.spec_channels(),
    {
        self.channels
    }

    pub fn sample_rate(&self) -> (r: u32)
        ensures
            r == self.spec_sample_rate(),
    {
        self.sr
    }

    pub fn bits_per_sample(&self) -> (r: u16)
        ensures
            r == self.spec_bits_per_sample(),
    {
        self.bps
    }

    pub fn encoding(&self) -> (r: SampleEncoding)
        ensures
            r == self.spec_encoding(),
    {
        self.encoding
    }

    /// The largest and the smallest integer sample at this bit depth:
    /// `2^(bps-1) - 1` and `-2^(bps-1)`.
    pub fn get_magnitudes(&self) -> (r: (i32, i32))
        requires
            1 <= self.spec_bits_per_sample() <= 32,
        ensures
            r.0 == vstd::arithmetic::power2::pow2((self.spec_bits_per_sample() - 1) as nat) - 1,
            r.1 == -vstd::arithmetic::power2::pow2((self.spec_bits_per_sample() - 1) as nat),
    {
        let shift: u64 = (self.bps - 1) as u64;
        proof {
            vstd::arithmetic::power2::lemma2_to64();
            if shift < 31 {
                vstd::arithmetic::power2::lemma_pow2_strictly_increases(shift as nat, 31);
            }
            vstd::bits::lemma_u64_shl_is_mul(1, shift);
        }
        let half: u64 = 1u64 << shift;
        let positive: i32 = (half - 1) as i32;
        let negative: i32 = -positive - 1;
        (positive, negative)
    }

    /// The time since the first sample at which sample `sample_idx` sounds,
    /// rounded down to the nanosecond.
    pub fn sample_timestamp(&self, sample_idx: usize) -> (r: PulseDuration)
        requires
            self.spec_sample_rate() > 0,
        ensures
            r.spec_nanos() == sample_idx as int * NANOS_PER_SEC as int / self.spec_sample_rate() as int,
    {
        let n: u128 = sample_idx as u128 * NANOS_PER_SEC as u128;
        let nanos: u128 = n / self.sr as u128;
        proof {
            assert(nanos <= n) by (nonlinear_arith)
                requires
                    nanos == n / self.sr as u128,
                    self.sr > 0,
            ;
        }
        PulseDuration { nanos }
    }
}

/// A value that names a sample bit depth.
pub trait IntoBitDepth {
    fn into_bit_depth(self) -> u32;
}

impl IntoBitDepth for usize {
    fn into_bit_depth(self) -> (r: u32) {
        self as u32
    }
}

impl IntoBitDepth for AudioSpec {
    fn into_bit_depth(self) -> (r: u32) {
        self.bps as u32
    }
}

pub const NANOS_PER_MICRO: u64 = 1_000;

pub const NANOS_PER_MILLI: u64 = 1_000_000;

pub const NANOS_PER_SEC: u64 = 1_000_000_000;

pub const MICROS_PER_SEC: u64 = 1_000_000;

/// The longest duration held: `u64::MAX` seconds.
pub const MAX_NANOS: u128 = 18_446_744_073_709_551_615_000_000_000;

/// A time interval, in nanoseconds.
#[derive(Copy, Clone, Debug)]
pub struct PulseDuration {
    nanos: u128,
}

/// The samples that `micros` microseconds take at `sample_rate`, rounded down.
pub open spec fn samples_in(sample_rate: int, micros: int) -> int {
    sample_rate * micros / MICROS_PER_SEC as int
}

impl PulseDuration {
    #[verifier::type_invariant]
    spec fn inv(self) -> bool {
        self.nanos <= MAX_NANOS
    }

    pub closed spec fn spec_nanos(self) -> u128 {
        self.nanos
    }

    /// Whole microseconds.
    pub open spec fn spec_micros(self) -> int {
        self.spec_nanos() as int / NANOS_PER_MICRO as int
    }

    pub fn from_nanos(nanos: u64) -> (r: Self)
        ensures
            r.spec_nanos() == nanos,
    {
        PulseDuration { nanos: nanos as u128 }
    }

    pub fn from_micros(micros: u64) -> (r: Self)
        ensures
            r.spec_nanos() == micros * NANOS_PER_MICRO,
    {
        proof {
            assert(micros * NANOS_PER_MICRO <= MAX_NANOS) by (nonlinear_arith)
                requires
                    micros <= u64::MAX,
                    NANOS_PER_MICRO <= NANOS_PER_SEC,
            ;
        }
        PulseDuration { nanos: micros as u128 * NANOS_PER_MICRO as u128 }
    }

    pub fn from_millis(millis: u64) -> (r: Self)
        ensures
            r.spec_nanos() == millis * NANOS_PER_MILLI,
    {
        proof {
            assert(millis * NANOS_PER_MILLI <= MAX_NANOS) by (nonlinear_arith)
                requires
                    millis <= u64::MAX,
                    NANOS_PER_MILLI <= NANOS_PER_SEC,
            ;
        }
        PulseDuration { nanos: millis as u128 * NANOS_PER_MILLI as u128 }
    }

    pub fn from_secs(secs: u64) -> (r: Self)
        ensures
            r.spec_nanos() == secs * NANOS_PER_SEC,
    {
        proof {
            assert(secs * NANOS_PER_SEC <= MAX_NANOS) by (nonlinear_arith)
                requires
                    secs <= u64::MAX,
                    NANOS_PER_SEC <= NANOS_PER_SEC,
            ;
        }
        PulseDuration { nanos: secs as u128 * NANOS_PER_SEC as u128 }
    }

    pub fn as_nanos(&self) -> (r: u128)
        ensures
            r == self.spec_nanos(),
    {
        self.nanos
    }

    /// Whole microseconds.
    pub fn as_micros(&self) -> (r: u128)
        ensures
            r == self.spec_micros(),
    {
        self.nanos / NANOS_PER_MICRO as u128
    }

    /// Whole milliseconds.
    pub fn as_millis(&self) -> (r: u128)
        ensures
            r == self.spec_nanos() as int / NANOS_PER_MILLI as int,
    {
        self.nanos / NANOS_PER_MILLI as u128
    }

    /// Whole seconds.
    pub fn as_secs(&self) -> (r: u64)
        ensures
            r == self.spec_nanos() as int / NANOS_PER_SEC as int,
    {
        proof {
            use_type_invariant(self);
        }
        (self.nanos / NANOS_PER_SEC as u128) as u64
    }

    /// The samples this duration takes at `sample_rate`:
    /// `floor(sample_rate * micros / 1_000_000)`.
    pub fn sample_size(&self, sample_rate: u32) -> (r: u128)
        ensures
            r == samples_in(sample_rate as int, self.spec_micros()),
    {
        proof {
            use_type_invariant(self);
        }
        let micros: u128 = self.nanos / NANOS_PER_MICRO as u128;
        proof {
            vstd::arithmetic::div_mod::lemma_div_is_ordered(
                self.nanos as int,
                MAX_NANOS as int,
                NANOS_PER_MICRO as int,
            );
            assert(sample_rate as u128 * micros <= 79_228_162_514_264_337_589_248_983_040_000_000u128)
                by (nonlinear_arith)
                requires
                    micros <= 18_446_744_073_709_551_615_000_000u128,
                    sample_rate <= 4_294_967_295u32,
            ;
        }
        sample_rate as u128 * micros / MICROS_PER_SEC as u128
    }
}

/// The tones of the protocol; `Silence` is the gap between them.
#[derive(Copy, Clone, Debug, PartialEq, Eq, Structural)]
pub enum Tone {
    Start,
    End,
    Next,
    High,
    Low,
    Silence,
}

/// The tone that carries bit `b`: only `1` is high.
pub open spec fn bit_tone(b: u8) -> Tone {
    if b == 1 {
        Tone::High
    } else {
        Tone::Low
    }
}

/// The marker frequencies, in hertz.
#[derive(Copy, Clone, Debug, PartialEq, Eq, Structural)]
pub struct Markers {
    pub start: u32,
    pub end: u32,
    pub next: u32,
}

impl Markers {
    pub fn new(start: u32, end: u32, next: u32) -> (r: Self)
        ensures
            r == (Markers { start, end, next }),
    {
        Markers { start, end, next }
    }
}

/// The bit frequencies, in hertz.
#[derive(Copy, Clone, Debug, PartialEq, Eq, Structural)]
pub struct Bits {
    pub high: u32,
    pub low: u32,
}

impl Bits {
    pub fn new(high: u32, low: u32) -> (r: Self)
        ensures
            r == (Bits { high, low }),
    {
        Bits { high, low }
    }

    /// The frequency that carries `bit`.
    pub fn from_boolean(&self, bit: bool) -> (r: u32)
        ensures
            r == if bit {
                self.high
            } else {
                self.low
            },
    {
        if bit {
            self.high
        } else {
            self.low
        }
    }
}

/// The tone and gap durations of every pulse.
#[derive(Copy, Clone, Debug)]
pub struct Pulses {
    pub tone: PulseDuration,
    pub gap: PulseDuration,
}

/// Pulse durations in samples at one sample rate. The leading and trailing
/// silence of a frame lasts four gaps.
#[derive(Copy, Clone, Debug, PartialEq, Eq, Structural)]
pub struct SizedPulses {
    tone_size: usize,
    gap_size: usize,
    silence_size: usize,
}

impl SizedPulses {
    pub closed spec fn spec_tone_size(self) -> usize {
        self.tone_size
    }

    pub closed spec fn spec_gap_size(self) -> usize {
        self.gap_size
    }

    pub closed spec fn spec_silence_size(self) -> usize {
        self.silence_size
    }

    pub fn new(tone_size: usize, gap_size: usize, silence_size: usize) -> (r: Self)
        ensures
            r.spec_tone_size() == tone_size,
            r.spec_gap_size() == gap_size,
            r.spec_silence_size() == silence_size,
    {
        SizedPulses { tone_size, gap_size, silence_size }
    }

    pub fn tone_size(&self) -> (r: usize)
        ensures
            r == self.spec_tone_size(),
    {
        self.tone_size
    }

    pub fn gap_size(&self) -> (r: usize)
        ensures
            r == self.spec_gap_size(),
    {
        self.gap_size
    }

    pub fn silence_size(&self) -> (r: usize)
        ensures
            r == self.spec_silence_size(),
    {
        self.silence_size
    }
}

impl Pulses {
    pub fn new(tone: PulseDuration, gap: PulseDuration) -> (r: Self)
        ensures
            r.tone == tone,
            r.gap == gap,
    {
        Pulses { tone, gap }
    }

    /// The pulse sizes at the spec's sample rate, or `None` where one does
    /// not fit in a `usize`.
    pub fn into_sized(&self, spec: &AudioSpec) -> (r: Option<SizedPulses>)
        ensures
            r is Some <==> (samples_in(spec.spec_sample_rate() as int, self.tone.spec_micros())
                <= usize::MAX && samples_in(spec.spec_sample_rate() as int, self.gap.spec_micros())
                <= usize::MAX && samples_in(
                spec.spec_sample_rate() as int,
                4 * self.gap.spec_micros(),
            ) <= usize::MAX),
            r matches Some(p) ==> p.spec_tone_size() == samples_in(
                spec.spec_sample_rate() as int,
                self.tone.spec_micros(),
            ) && p.spec_gap_size() == samples_in(
                spec.spec_sample_rate() as int,
                self.gap.spec_micros(),
            ) && p.spec_silence_size() == samples_in(
                spec.spec_sample_rate() as int,
                4 * self.gap.spec_micros(),
            ),
    {
        let rate: u32 = spec.sample_rate();
        let tone: u128 = self.tone.sample_size(rate);
        let gap: u128 = self.gap.sample_size(rate);
        proof {
            use_type_invariant(&self.gap);
        }
        let gap_micros: u128 = self.gap.as_micros();
        proof {
            vstd::arithmetic::div_mod::lemma_div_is_ordered(
                self.gap.spec_nanos() as int,
                MAX_NANOS as int,
                NANOS_PER_MICRO as int,
            );
            assert(rate as u128 * (4 * gap_micros) <= 316_912_650_057_057_350_356_995_931_160_000_000u128)
                by (nonlinear_arith)
                requires
                    gap_micros <= 18_446_744_073_709_551_615_000_000u128,
                    rate <= 4_294_967_295u32,
            ;
        }
        let silence: u128 = rate as u128 * (4 * gap_micros) / MICROS_PER_SEC as u128;
        if tone <= usize::MAX as u128 && gap <= usize::MAX as u128 && silence <= usize::MAX as u128 {
            Some(SizedPulses {
                tone_size: tone as usize,
                gap_size: gap as usize,
                silence_size: silence as usize,
            })
        } else {
            None
        }
    }
}

/// Why a profile cannot be used at an audio spec and filter band.
#[derive(Copy, Clone, Debug, PartialEq, Eq, Structural)]
pub enum ProfileError {
    /// A pulse takes more samples than a `usize` holds.
    TooLong,
    /// The tone takes no sample.
    EmptyTone,
    /// The gap takes no sample.
    EmptyGap,
    /// A frequency is not strictly between the high-pass and low-pass cutoffs.
    OutsideBand,
    /// Two tones share a frequency.
    Duplicate,
    /// Two tones are no more than one spectral bin apart.
    TooClose,
}

/// A protocol profile: three marker tones, two bit tones, and the pulse
/// durations.
#[derive(Copy, Clone, Debug)]
pub struct Profile {
    pub markers: Markers,
    pub bits: Bits,
    pub pulses: Pulses,
}

/// The five tone frequencies: start, end, next, high, low.
pub open spec fn frequencies(p: Profile) -> Seq<u32> {
    seq![p.markers.start, p.markers.end, p.markers.next, p.bits.high, p.bits.low]
}

/// The frequency of a tone; silence is 0 Hz.
pub open spec fn tone_frequency(p: Profile, t: Tone) -> u32 {
    match t {
        Tone::Start => p.markers.start,
        Tone::End => p.markers.end,
        Tone::Next => p.markers.next,
        Tone::High => p.bits.high,
        Tone::Low => p.bits.low,
        Tone::Silence => 0,
    }
}

/// `|a - b|`.
pub open spec fn distance(a: u32, b: u32) -> int {
    if a >= b {
        a - b
    } else {
        b - a
    }
}

pub open spec fn all_in_band(fs: Seq<u32>, highpass: u32, lowpass: u32) -> bool {
    forall|i: int| 0 <= i < fs.len() ==> highpass < #[trigger] fs[i] < lowpass
}

pub open spec fn all_distinct(fs: Seq<u32>) -> bool {
    forall|i: int, j: int| 0 <= i < j < fs.len() ==> #[trigger] fs[i] != #[trigger] fs[j]
}

/// Every two frequencies lie more than one bin (`sample_rate / tone_size`)
/// apart.
pub open spec fn all_separated(fs: Seq<u32>, tone_size: int, sample_rate: int) -> bool {
    forall|i: int, j: int|
        0 <= i < j < fs.len() ==> distance(#[trigger] fs[i], #[trigger] fs[j]) * tone_size
            > sample_rate
}

/// The first fault of the profile at these sizes and this band, if any.
pub open spec fn profile_fault(
    p: Profile,
    sized: SizedPulses,
    sample_rate: u32,
    highpass: u32,
    lowpass: u32,
) -> Option<ProfileError> {
    if sized.spec_tone_size() == 0 {
        Some(ProfileError::EmptyTone)
    } else if sized.spec_gap_size() == 0 {
        Some(ProfileError::EmptyGap)
    } else if !all_in_band(frequencies(p), highpass, lowpass) {
        Some(ProfileError::OutsideBand)
    } else if !all_distinct(frequencies(p)) {
        Some(ProfileError::Duplicate)
    } else if !all_separated(frequencies(p), sized.spec_tone_size() as int, sample_rate as int) {
        Some(ProfileError::TooClose)
    } else {
        None
    }
}

impl Profile {
    pub fn new(markers: Markers, bits: Bits, pulses: Pulses) -> (r: Self)
        ensures
            r.markers == markers,
            r.bits == bits,
            r.pulses == pulses,
    {
        Profile { markers, bits, pulses }
    }

    /// The frequency of `tone`, in hertz; silence is 0 Hz.
    pub fn frequency(&self, tone: Tone) -> (r: u32)
        ensures
            r == tone_frequency(*self, tone),
    {
        match tone {
            Tone::Start => self.markers.start,
            Tone::End => self.markers.end,
            Tone::Next => self.markers.next,
            Tone::High => self.bits.high,
            Tone::Low => self.bits.low,
            Tone::Silence => 0,
        }
    }

    /// Checks that the profile can be used at `spec` behind the given
    /// high-pass and low-pass cutoffs, and returns its pulse sizes.
    pub fn validate(&self, spec: &AudioSpec, highpass: u32, lowpass: u32) -> (r: Result<
        SizedPulses,
        ProfileError,
    >)
        ensures
            self.pulses.into_sized_none(spec) ==> r == Err::<SizedPulses, ProfileError>(
                ProfileError::TooLong,
            ),
            match r {
                Ok(sized) => self.pulses.sized_at(spec, sized) && profile_fault(
                    *self,
                    sized,
                    spec.spec_sample_rate(),
                    highpass,
                    lowpass,
                ) is None,
                Err(ProfileError::TooLong) => self.pulses.into_sized_none(spec),
                Err(e) => !self.pulses.into_sized_none(spec) && forall|sized: SizedPulses|
                    self.pulses.sized_at(spec, sized) ==> profile_fault(
                        *self,
                        sized,
                        spec.spec_sample_rate(),
                        highpass,
                        lowpass,
                    ) == Some(e),
            },
    {
        let sized: SizedPulses = match self.pulses.into_sized(spec) {
            Some(s) => s,
            None => {
                return Err(ProfileError::TooLong);
            },
        };
        if sized.tone_size == 0 {
            return Err(ProfileError::EmptyTone);
        }
        if sized.gap_size == 0 {
            return Err(ProfileError::EmptyGap);
        }
        let fs: [u32; 5] = [
            self.markers.start,
            self.markers.end,
            self.markers.next,
            self.bits.high,
            self.bits.low,
        ];
        assert(fs@ =~= frequencies(*self));
        if !in_band(&fs, highpass, lowpass) {
            return Err(ProfileError::OutsideBand);
        }
        if !distinct(&fs) {
            return Err(ProfileError::Duplicate);
        }
        if !separated(&fs, sized.tone_size, spec.sample_rate()) {
            return Err(ProfileError::TooClose);
        }
        Ok(sized)
    }
}

fn in_band(fs: &[u32; 5], highpass: u32, lowpass: u32) -> (r: bool)
    ensures
        r == all_in_band(fs@, highpass, lowpass),
{
    let mut i: usize = 0;
    while i < 5
        invariant
            i <= 5,
            forall|k: int| 0 <= k < i ==> highpass < #[trigger] fs@[k] < lowpass,
        decreases 5 - i,
    {
        if !(highpass < fs[i] && fs[i] < lowpass) {
            return false;
        }
        i = i + 1;
    }
    true
}

fn distinct(fs: &[u32; 5]) -> (r: bool)
    ensures
        r == all_distinct(fs@),
{
    let mut i: usize = 0;
    while i < 5
        invariant
            i <= 5,
            forall|a: int, b: int| 0 <= a < b < 5 && a < i ==> #[trigger] fs@[a] != #[trigger] fs@[b],
        decreases 5 - i,
    {
        let mut j: usize = i + 1;
        while j < 5
            invariant
                i < 5,
                i < j <= 5,
                forall|a: int, b: int| 0 <= a < b < 5 && a < i ==> #[trigger] fs@[a] != #[trigger] fs@[b],
                forall|b: int| i < b < j ==> fs@[i as int] != #[trigger] fs@[b],
            decreases 5 - j,
        {
            if fs[i] == fs[j] {
                return false;
            }
            j = j + 1;
        }
        i = i + 1;
    }
    true
}

fn separated(fs: &[u32; 5], tone_size: usize, sample_rate: u32) -> (r: bool)
    ensures
        r == all_separated(fs@, tone_size as int, sample_rate as int),
{
    let tone: u128 = tone_size as u128;
    let mut i: usize = 0;
    while i < 5
        invariant
            i <= 5,
            tone == tone_size,
            forall|a: int, b: int|
                0 <= a < b < 5 && a < i ==> distance(#[trigger] fs@[a], #[trigger] fs@[b]) * tone
                    > sample_rate,
        decreases 5 - i,
    {
        let mut j: usize = i + 1;
        while j < 5
            invariant
                i < 5,
                i < j <= 5,
                tone == tone_size,
                forall|a: int, b: int|
                    0 <= a < b < 5 && a < i ==> distance(#[trigger] fs@[a], #[trigger] fs@[b])
                        * tone > sample_rate,
                forall|b: int| i < b < j ==> distance(fs@[i as int], #[trigger] fs@[b]) * tone > sample_rate,
            decreases 5 - j,
        {
            let d: u128 = if fs[i] >= fs[j] {
                (fs[i] - fs[j]) as u128
            } else {
                (fs[j] - fs[i]) as u128
            };
            proof {
                assert(d * tone <= 4_294_967_295u128 * 18_446_744_073_709_551_615u128)
                    by (nonlinear_arith)
                    requires
                        d <= 4_294_967_295u128,
                        tone <= 18_446_744_073_709_551_615u128,
                ;
            }
            if d * tone <= sample_rate as u128 {
                return false;
            }
            j = j + 1;
        }
        i = i + 1;
    }
    true
}

impl Pulses {
    /// `into_sized` gives `None` at this spec.
    pub open spec fn into_sized_none(self, spec: &AudioSpec) -> bool {
        !(samples_in(spec.spec_sample_rate() as int, self.tone.spec_micros()) <= usize::MAX
            && samples_in(spec.spec_sample_rate() as int, self.gap.spec_micros()) <= usize::MAX
            && samples_in(spec.spec_sample_rate() as int, 4 * self.gap.spec_micros())
            <= usize::MAX)
    }

    /// `sized` holds this profile's pulse sizes at the spec's sample rate.
    pub open spec fn sized_at(self, spec: &AudioSpec, sized: SizedPulses) -> bool {
        sized.spec_tone_size() == samples_in(spec.spec_sample_rate() as int, self.tone.spec_micros())
            && sized.spec_gap_size() == samples_in(
            spec.spec_sample_rate() as int,
            self.gap.spec_micros(),
        ) && sized.spec_silence_size() == samples_in(
            spec.spec_sample_rate() as int,
            4 * self.gap.spec_micros(),
        )
    }
}

} // verus!
