use wavetrx::bits::bits_to_bytes;
use wavetrx::bits::bits_to_string;
use wavetrx::bits::byte_to_bits;
use wavetrx::profile::AudioSpec;
use wavetrx::profile::Bits;
use wavetrx::profile::Markers;
use wavetrx::profile::Profile;
use wavetrx::profile::PulseDuration;
use wavetrx::profile::Pulses;
use wavetrx::profile::SampleEncoding;
use wavetrx::profile::Tone;
use wavetrx::protocol::clean_window;
use wavetrx::receiver::DecodeEvent;
use wavetrx::receiver::FrameDecoder;
use wavetrx::resolver::RxMagnitudes;
use wavetrx::transmitter::frame_tone_sequence;
use wavetrx::transmitter::Segment;
use wavetrx::transmitter::StreamTransmitter;
use wavetrx::transmitter::Transmitter;

const THRESHOLD: i64 = 8_000;

fn default_profile() -> Profile {
    Profile::new(
        Markers::new(7_000, 9_000, 3_000),
        Bits::new(5_000, 1_000),
        Pulses::new(PulseDuration::from_micros(1_000), PulseDuration::from_micros(2_000)),
    )
}

fn default_spec() -> AudioSpec {
    AudioSpec::new(48_000, 32, 1, SampleEncoding::F32)
}

/// Feeds each pulse of the frame for `data` through a decoder, with the
/// window magnitudes that `window` gives for each tone.
fn decode_with(data: &[u8], window: &dyn Fn(Tone) -> RxMagnitudes) -> (Vec<u8>, Vec<Vec<u8>>, usize) {
    let tones = frame_tone_sequence(data);
    let mut decoder = FrameDecoder::new();
    let mut bits = Vec::new();
    let mut frames = Vec::new();
    let mut dropped = 0;
    for tone in tones {
        match decoder.feed(&window(tone)) {
            DecodeEvent::Bit(b) => bits.push(b),
            DecodeEvent::Frame(p) => frames.push(p),
            DecodeEvent::Dropped => dropped += 1,
            DecodeEvent::Pending => {}
        }
    }
    (bits, frames, dropped)
}

fn clean(tone: Tone) -> RxMagnitudes {
    clean_window(tone, THRESHOLD)
}

#[test]
fn tests_test_transmitter() {
    let string: String = "Test String".repeat(100);
    let data: &[u8] = string.as_bytes();
    let transmitter = Transmitter::new(&default_profile(), &default_spec()).unwrap();
    let segments: Vec<Segment> = transmitter.create(data);
    assert_eq!(segments.len(), 32 * data.len() + 10);
    assert_eq!(segments[0], Segment { tone: Tone::Silence, samples: 384 });
    assert_eq!(segments[1], Segment { tone: Tone::Start, samples: 48 });
    assert_eq!(segments[2], Segment { tone: Tone::Silence, samples: 96 });
    assert_eq!(segments[3], Segment { tone: Tone::Next, samples: 48 });
    assert_eq!(segments[segments.len() - 1], Segment { tone: Tone::Silence, samples: 384 });
}

#[test]
fn tests_test_receiver() {
    let string: String = "Test String".repeat(100);
    let (bits, frames, dropped) = decode_with(string.as_bytes(), &clean);
    assert_eq!(bits.len(), 8 * 1100);
    assert_eq!(frames.len(), 1);
    assert_eq!(dropped, 0);
    assert_eq!(frames[0], string.as_bytes().to_vec());
    let mut all_bits = Vec::new();
    for b in string.as_bytes() {
        all_bits.extend(byte_to_bits(*b));
    }
    assert_eq!(bits_to_string(&all_bits), Some(string));
}

#[test]
fn single_letter_frame_decodes() {
    let (bits, frames, _) = decode_with(b"A", &clean);
    assert_eq!(bits, vec![0, 1, 0, 0, 0, 0, 0, 1]);
    assert_eq!(frames, vec![vec![0x41]]);
}

#[test]
fn two_letter_frame_decodes() {
    let (bits, frames, _) = decode_with(b"Hi", &clean);
    assert_eq!(bits, vec![0, 1, 0, 0, 1, 0, 0, 0, 0, 1, 1, 0, 1, 0, 0, 1]);
    assert_eq!(frames, vec![b"Hi".to_vec()]);
    assert_eq!(bits_to_string(&bits), Some("Hi".to_string()));
}

#[test]
fn empty_frame_layout_and_outcome() {
    let tones = frame_tone_sequence(b"");
    assert_eq!(tones, vec![Tone::Start, Tone::Next, Tone::End, Tone::Next]);
    // With no bit between them, the end marker comes where a bit is awaited,
    // so the resolver breaks the frame instead of closing it.
    let (bits, frames, dropped) = decode_with(b"", &clean);
    assert!(bits.is_empty());
    assert!(frames.is_empty());
    assert!(dropped >= 1);
}

#[test]
fn noisy_windows_still_decode() {
    // Each pulse 3 dB under full scale, every other tone 30 dB down.
    let noisy = |tone: Tone| {
        let level = |t: Tone| if t == tone { -3_000 } else { -30_000 };
        RxMagnitudes::new(
            level(Tone::Start),
            level(Tone::End),
            level(Tone::Next),
            level(Tone::High),
            level(Tone::Low),
            THRESHOLD,
        )
    };
    let (_, frames, dropped) = decode_with(b"Hi", &noisy);
    assert_eq!(frames, vec![b"Hi".to_vec()]);
    assert_eq!(dropped, 0);
}

#[test]
fn silent_windows_around_a_frame_change_nothing() {
    let mut decoder = FrameDecoder::new();
    let mut frames = Vec::new();
    let mut tones = vec![Tone::Silence; 5];
    tones.extend(frame_tone_sequence(b"Hi"));
    tones.extend(vec![Tone::Silence; 7]);
    for tone in tones {
        if let DecodeEvent::Frame(p) = decoder.feed(&clean(tone)) {
            frames.push(p);
        }
    }
    assert_eq!(frames, vec![b"Hi".to_vec()]);
}

#[test]
fn stream_matches_whole_frame() {
    let transmitter = Transmitter::new(&default_profile(), &default_spec()).unwrap();
    for data in [&b""[..], &b"A"[..], &b"Hi"[..]] {
        let mut stream = StreamTransmitter::new(&transmitter, data.to_vec());
        let mut streamed = Vec::new();
        while let Some(part) = stream.next_segments() {
            streamed.extend(part);
        }
        assert_eq!(streamed, transmitter.create(data));
        assert_eq!(stream.next_segments(), None);
    }
}

#[test]
fn every_byte_round_trips_through_bits() {
    for b in 0..=255u8 {
        assert_eq!(bits_to_bytes(&byte_to_bits(b)), vec![b]);
    }
}

#[test]
fn partial_bit_group_is_left_out() {
    let mut bits = byte_to_bits(0x48);
    bits.extend(vec![1, 0, 1]);
    assert_eq!(bits_to_bytes(&bits), vec![0x48]);
    assert_eq!(bits_to_bytes(&vec![1, 1, 1]), Vec::<u8>::new());
}

#[test]
fn invalid_text_gives_none() {
    let bits = byte_to_bits(0xff);
    assert_eq!(bits_to_string(&bits), None);
    assert_eq!(bits_to_string(&Vec::new()), Some(String::new()));
}

#[test]
fn pulses_start_one_pulse_apart() {
    let transmitter = Transmitter::new(&default_profile(), &default_spec()).unwrap();
    let segments = transmitter.create(b"Hi");
    let tones = frame_tone_sequence(b"Hi");
    let mut offset = 0;
    for (i, segment) in segments.iter().enumerate() {
        if i % 2 == 1 && i < segments.len() - 1 {
            let k = (i - 1) / 2;
            assert_eq!(offset, 384 + k * 144);
            assert_eq!(segment.tone, tones[k]);
        }
        offset += segment.samples;
    }
    assert_eq!(offset, 2 * 384 + tones.len() * 144);
}
