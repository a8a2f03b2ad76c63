use wavetrx::profile::AudioSpec;
use wavetrx::profile::Bits;
use wavetrx::profile::Markers;
use wavetrx::profile::Profile;
use wavetrx::profile::ProfileError;
use wavetrx::profile::PulseDuration;
use wavetrx::profile::Pulses;
use wavetrx::profile::SampleEncoding;
use wavetrx::profile::Tone;
use wavetrx::receiver::get_minimum_chunk_size;
use wavetrx::receiver::retained_from;
use wavetrx::receiver::DecodeEvent;
use wavetrx::receiver::RxAction;
use wavetrx::receiver::RxTracker;
use wavetrx::receiver::StartSearch;
use wavetrx::protocol::clean_window;
use wavetrx::resolver::RxMagnitudes;
use wavetrx::resolver::RxMarker;
use wavetrx::resolver::RxOutput;
use wavetrx::resolver::RxResolver;
use wavetrx::resolver::RxState;
use wavetrx::spectrum::GoertzelMagnitude;
use wavetrx::transmitter::Transmitter;

fn profile_with(markers: Markers, bits: Bits) -> Profile {
    Profile::new(
        markers,
        bits,
        Pulses::new(PulseDuration::from_micros(1_000), PulseDuration::from_micros(2_000)),
    )
}

fn spec() -> AudioSpec {
    AudioSpec::new(48_000, 32, 1, SampleEncoding::F32)
}

#[test]
fn durations_convert() {
    let d = PulseDuration::from_millis(3);
    assert_eq!(d.as_nanos(), 3_000_000);
    assert_eq!(d.as_micros(), 3_000);
    assert_eq!(d.as_millis(), 3);
    assert_eq!(d.as_secs(), 0);
    assert_eq!(PulseDuration::from_secs(2).as_millis(), 2_000);
    assert_eq!(PulseDuration::from_nanos(1_999).as_micros(), 1);
    assert_eq!(PulseDuration::from_micros(1_000).sample_size(48_000), 48);
    assert_eq!(PulseDuration::from_micros(1_000).sample_size(44_100), 44);
}

#[test]
fn pulses_size_at_a_sample_rate() {
    let pulses = Pulses::new(PulseDuration::from_micros(1_000), PulseDuration::from_micros(2_000));
    let sized = pulses.into_sized(&spec()).unwrap();
    assert_eq!(sized.tone_size(), 48);
    assert_eq!(sized.gap_size(), 96);
    assert_eq!(sized.silence_size(), 384);
}

#[test]
fn audio_spec_fields_and_limits() {
    let s = AudioSpec::new(44_100, 16, 2, SampleEncoding::I32);
    assert_eq!(s.sample_rate(), 44_100);
    assert_eq!(s.bits_per_sample(), 16);
    assert_eq!(s.channels(), 2);
    assert_eq!(s.encoding(), SampleEncoding::I32);
    assert_eq!(s.get_magnitudes(), (32_767, -32_768));
    assert_eq!(spec().get_magnitudes(), (i32::MAX, i32::MIN));
    assert_eq!(spec().sample_timestamp(48_000).as_nanos(), 1_000_000_000);
    assert_eq!(spec().sample_timestamp(1).as_nanos(), 20_833);
}

#[test]
fn default_profile_is_valid() {
    let p = profile_with(Markers::new(7_000, 9_000, 3_000), Bits::new(5_000, 1_000));
    let sized = p.validate(&spec(), 200, 18_000).unwrap();
    assert_eq!(sized.tone_size(), 48);
    assert_eq!(p.frequency(Tone::End), 9_000);
    assert_eq!(p.frequency(Tone::Silence), 0);
    assert_eq!(p.bits.from_boolean(true), 5_000);
}

#[test]
fn profile_errors() {
    let band = |m: Markers, b: Bits| profile_with(m, b).validate(&spec(), 200, 18_000);
    assert_eq!(
        band(Markers::new(7_000, 19_000, 3_000), Bits::new(5_000, 1_000)),
        Err(ProfileError::OutsideBand)
    );
    assert_eq!(
        band(Markers::new(7_000, 9_000, 3_000), Bits::new(5_000, 7_000)),
        Err(ProfileError::Duplicate)
    );
    // One bin is 48000 / 48 = 1000 Hz.
    assert_eq!(
        band(Markers::new(7_000, 9_000, 3_000), Bits::new(5_000, 6_000)),
        Err(ProfileError::TooClose)
    );
    assert!(band(Markers::new(7_000, 9_000, 3_000), Bits::new(5_000, 1_001)).is_ok());
    let short = Profile::new(
        Markers::new(7_000, 9_000, 3_000),
        Bits::new(5_000, 1_000),
        Pulses::new(PulseDuration::from_micros(10), PulseDuration::from_micros(2_000)),
    );
    assert_eq!(short.validate(&spec(), 200, 18_000), Err(ProfileError::EmptyTone));
    let no_gap = Profile::new(
        Markers::new(7_000, 9_000, 3_000),
        Bits::new(5_000, 1_000),
        Pulses::new(PulseDuration::from_micros(1_000), PulseDuration::from_nanos(5)),
    );
    assert_eq!(no_gap.validate(&spec(), 200, 18_000), Err(ProfileError::EmptyGap));
}

#[test]
fn frequency_bins_round_to_nearest() {
    let g = GoertzelMagnitude::new(48, &spec());
    assert_eq!(g.get_sample_rate(), 48_000);
    assert_eq!(g.get_sample_size(), 48);
    assert_eq!(g.get_frequency_bin(5_000), 5);
    assert_eq!(g.get_frequency_bin(7_499), 7);
    assert_eq!(g.get_frequency_bin(7_500), 8);
}

#[test]
fn sparse_stride_rounds_up() {
    assert_eq!(get_minimum_chunk_size(7_000, 8, 48_000), 55);
    assert_eq!(get_minimum_chunk_size(8_000, 8, 48_000), 48);
}

#[test]
fn resolver_tie_gives_zero_and_states_answer() {
    let m = RxMagnitudes::new(-90_000, -90_000, -90_000, -1_000, -1_000, 8_000);
    assert_eq!(m.prominent_bit(), 0);
    assert!(RxState::Bit.within_threshold(&m));
    assert!(!RxState::Unset.within_threshold(&m));
    assert!(RxState::Start.is_start_or_bit());
    assert!(!RxState::Next.is_start_or_bit());
    assert!(RxState::Next.is_next());
    let mut marker = RxMarker::with_expectation(RxState::Start);
    marker.set_selection(RxState::Bit);
    assert_eq!(marker.selection(), RxState::Bit);
    marker.unset_expectation();
    assert_eq!(marker, RxMarker { selection: RxState::Bit, expectation: RxState::Unset });
}

#[test]
fn reset_after_error_matches_new() {
    let mut r = RxResolver::new();
    let silent = clean_window(Tone::Silence, 8_000);
    assert_eq!(r.resolve(&silent), RxOutput::Error);
    r.reset();
    assert_eq!(r, RxResolver::new());
    let mut fresh = RxResolver::new();
    let start = clean_window(Tone::Start, 8_000);
    assert_eq!(r.resolve(&start), fresh.resolve(&start));
    assert_eq!(r, fresh);
}

#[test]
fn start_search_finds_the_peak() {
    let mut s = StartSearch::new(8_000);
    assert!(!s.step(0, i64::MIN));
    assert_eq!(s.best_idx(), None);
    assert_eq!(s.next_idx(0, 55), Some(55));
    assert!(!s.step(55, -7_000));
    assert_eq!(s.next_idx(55, 55), Some(56));
    assert!(!s.step(56, -2_000));
    assert!(!s.step(57, -1_000));
    for i in 58..62 {
        assert!(!s.step(i, -4_000));
    }
    assert!(s.step(62, -4_000));
    assert_eq!(s.best_idx(), Some(57));
}

#[test]
fn buffer_cut_points() {
    assert_eq!(retained_from(1_000, Some(300), 48), 300);
    assert_eq!(retained_from(100, Some(300), 48), 100);
    assert_eq!(retained_from(1_000, None, 48), 616);
    assert_eq!(retained_from(300, None, 48), 0);
}

#[test]
fn tracker_walks_a_frame() {
    let pulses = Pulses::new(PulseDuration::from_micros(1_000), PulseDuration::from_micros(2_000));
    let sized = pulses.into_sized(&spec()).unwrap();
    let mut t = RxTracker::new(&sized);
    assert_eq!(t.action(383), RxAction::Wait);
    assert_eq!(t.action(384), RxAction::Search);
    assert_eq!(t.found(None, 500), 116);
    assert_eq!(t.found(Some(10), 500), 0);
    assert_eq!(t.action(57), RxAction::Wait);
    assert_eq!(t.action(58), RxAction::Window(10));
    let (event, drain) = t.feed(&clean_window(Tone::Start, 8_000), 500);
    assert!(matches!(event, DecodeEvent::Pending));
    assert_eq!(drain, 0);
    assert_eq!(t.start_idx(), Some(154));
    let (event, drain) = t.feed(&clean_window(Tone::Silence, 8_000), 500);
    assert!(matches!(event, DecodeEvent::Dropped));
    assert_eq!(drain, 154);
    assert_eq!(t.start_idx(), None);
}

#[test]
fn overlong_pulses_are_refused() {
    let long = Pulses::new(PulseDuration::from_secs(u64::MAX), PulseDuration::from_micros(2_000));
    assert!(long.into_sized(&spec()).is_none());
    let p = Profile::new(Markers::new(7_000, 9_000, 3_000), Bits::new(5_000, 1_000), long);
    assert_eq!(p.validate(&spec(), 200, 18_000), Err(ProfileError::TooLong));
    assert!(Transmitter::new(&p, &spec()).is_none());
}
