//! The transmitter's frame layout: which tone sounds for how many samples,
//! for a whole payload at once or stage by stage.

use vstd::prelude::*;

use crate::bits::bit_at;
use crate::bits::bits_of_byte;
use crate::bits::byte_to_bits;
use crate::profile::bit_tone;
use crate::profile::AudioSpec;
use crate::profile::Profile;
use crate::profile::SizedPulses;
use crate::profile::Tone;

verus! {

/// A stretch of samples that sound one tone (faded in and out) or, for
/// `Tone::Silence`, nothing.
#[derive(Copy, Clone, Debug, PartialEq, Eq, Structural)]
pub struct Segment {
    pub tone: Tone,
    pub samples: usize,
}

/// The tones of the payload: for each byte, most significant bit first, a
/// bit tone followed by a next spacer.
pub open spec fn data_tones(data: Seq<u8>) -> Seq<Tone> {
    Seq::new(
        16 * data.len(),
        |i: int|
            if i % 2 == 0 {
                bit_tone(bit_at(data[i / 16], (i % 16) / 2))
            } else {
                Tone::Next
            },
    )
}

/// The tones of a frame: start, next, the payload's tones, end, next.
pub open spec fn frame_tones(data: Seq<u8>) -> Seq<Tone> {
    seq![Tone::Start, Tone::Next] + data_tones(data) + seq![Tone::End, Tone::Next]
}

/// Each tone as a pulse: the tone for `tone_size` samples, then a silent gap.
pub open spec fn pulse_segments(tones: Seq<Tone>, sized: SizedPulses) -> Seq<Segment> {
    Seq::new(
        2 * tones.len(),
        |i: int|
            if i % 2 == 0 {
                Segment { tone: tones[i / 2], samples: sized.spec_tone_size() }
            } else {
                Segment { tone: Tone::Silence, samples: sized.spec_gap_size() }
            },
    )
}

/// The silence that leads and trails a frame.
pub open spec fn silence_segment(sized: SizedPulses) -> Segment {
    Segment { tone: Tone::Silence, samples: sized.spec_silence_size() }
}

/// A whole frame: leading silence, the frame's pulses, trailing silence.
pub open spec fn frame_plan(data: Seq<u8>, sized: SizedPulses) -> Seq<Segment> {
    seq![silence_segment(sized)] + pulse_segments(frame_tones(data), sized) + seq![
        silence_segment(sized),
    ]
}

proof fn lemma_data_index(k: int, j: int)
    requires
        0 <= k,
        0 <= j < 8,
    ensures
        (16 * k + 2 * j) / 16 == k,
        ((16 * k + 2 * j) % 16) / 2 == j,
        (16 * k + 2 * j) % 2 == 0,
        (16 * k + 2 * j + 1) / 16 == k,
        (16 * k + 2 * j + 1) % 2 == 1,
{
    vstd::arithmetic::div_mod::lemma_fundamental_div_mod_converse(16 * k + 2 * j, 16, k, 2 * j);
    vstd::arithmetic::div_mod::lemma_fundamental_div_mod_converse(
        16 * k + 2 * j + 1,
        16,
        k,
        2 * j + 1,
    );
}

/// The tones of the frame that carries `data`.
pub fn frame_tone_sequence(data: &[u8]) -> (tones: Vec<Tone>)
    requires
        16 * data@.len() + 4 <= usize::MAX,
    ensures
        tones@ == frame_tones(data@),
{
    let mut tones: Vec<Tone> = Vec::new();
    tones.push(Tone::Start);
    tones.push(Tone::Next);
    let mut k: usize = 0;
    while k < data.len()
        invariant
            k <= data@.len(),
            16 * data@.len() + 4 <= usize::MAX,
            tones@ == seq![Tone::Start, Tone::Next] + data_tones(data@).subrange(0, 16 * k as int),
        decreases data@.len() - k,
    {
        let bits: Vec<u8> = byte_to_bits(data[k]);
        let mut j: usize = 0;
        while j < 8
            invariant
                k < data@.len(),
                j <= 8,
                bits@ == bits_of_byte(data@[k as int]),
                16 * data@.len() + 4 <= usize::MAX,
                tones@ == seq![Tone::Start, Tone::Next] + data_tones(data@).subrange(
                    0,
                    16 * k + 2 * j,
                ),
            decreases 8 - j,
        {
            let tone: Tone = if bits[j] == 1 {
                Tone::High
            } else {
                Tone::Low
            };
            proof {
                lemma_data_index(k as int, j as int);
            }
            tones.push(tone);
            tones.push(Tone::Next);
            j = j + 1;
            assert(tones@ =~= seq![Tone::Start, Tone::Next] + data_tones(data@).subrange(
                0,
                16 * k + 2 * j,
            ));
        }
        k = k + 1;
    }
    assert(data_tones(data@).subrange(0, 16 * k as int) =~= data_tones(data@));
    tones.push(Tone::End);
    tones.push(Tone::Next);
    assert(tones@ =~= frame_tones(data@));
    tones
}

/// The pulses of `tones`: each tone, then a gap.
pub fn pulses_of(tones: &Vec<Tone>, sized: &SizedPulses) -> (segments: Vec<Segment>)
    requires
        2 * tones@.len() <= usize::MAX,
    ensures
        segments@ == pulse_segments(tones@, *sized),
{
    let mut segments: Vec<Segment> = Vec::new();
    let mut i: usize = 0;
    while i < tones.len()
        invariant
            i <= tones@.len(),
            2 * tones@.len() <= usize::MAX,
            segments@ == pulse_segments(tones@, *sized).subrange(0, 2 * i as int),
        decreases tones@.len() - i,
    {
        proof {
            vstd::arithmetic::div_mod::lemma_fundamental_div_mod_converse(2 * i as int, 2, i as int, 0);
            vstd::arithmetic::div_mod::lemma_fundamental_div_mod_converse(2 * i as int + 1, 2, i as int, 1);
        }
        segments.push(Segment { tone: tones[i], samples: sized.tone_size() });
        segments.push(Segment { tone: Tone::Silence, samples: sized.gap_size() });
        i = i + 1;
        assert(segments@ =~= pulse_segments(tones@, *sized).subrange(0, 2 * i as int));
    }
    assert(segments@ =~= pulse_segments(tones@, *sized));
    segments
}

/// Renders byte strings as frames for one profile and audio spec.
#[derive(Copy, Clone, Debug)]
pub struct Transmitter {
    pub profile: Profile,
    pub spec: AudioSpec,
    pub sized: SizedPulses,
}

impl Transmitter {
    /// A transmitter, or `None` where the profile's pulses do not fit in a
    /// `usize` at the spec's sample rate.
    pub fn new(profile: &Profile, spec: &AudioSpec) -> (r: Option<Self>)
        ensures
            r is None <==> profile.pulses.into_sized_none(spec),
            r matches Some(t) ==> t.profile == *profile && t.spec == *spec
                && profile.pulses.sized_at(spec, t.sized),
    {
        match profile.pulses.into_sized(spec) {
            Some(sized) => Some(Transmitter { profile: *profile, spec: *spec, sized }),
            None => None,
        }
    }

    /// The segments of the frame that carries `data`.
    pub fn create(&self, data: &[u8]) -> (segments: Vec<Segment>)
        requires
            32 * data@.len() + 10 <= usize::MAX,
        ensures
            segments@ == frame_plan(data@, self.sized),
    {
        let tones: Vec<Tone> = frame_tone_sequence(data);
        let pulses: Vec<Segment> = pulses_of(&tones, &self.sized);
        let silence: Segment = Segment { tone: Tone::Silence, samples: self.sized.silence_size() };
        let mut segments: Vec<Segment> = Vec::new();
        segments.push(silence);
        let mut i: usize = 0;
        while i < pulses.len()
            invariant
                i <= pulses@.len(),
                segments@ == seq![silence] + pulses@.subrange(0, i as int),
            decreases pulses@.len() - i,
        {
            segments.push(pulses[i]);
            i = i + 1;
            assert(segments@ =~= seq![silence] + pulses@.subrange(0, i as int));
        }
        segments.push(silence);
        assert(pulses@.subrange(0, i as int) =~= pulses@);
        assert(segments@ =~= frame_plan(data@, self.sized));
        segments
    }
}

/// Where a streamed frame stands: each stage renders one part of the frame.
#[derive(Copy, Clone, Debug, PartialEq, Eq, Structural)]
pub enum TxStage {
    Leading,
    Start,
    Next,
    Data { byte: usize, bit: usize },
    End,
    TrailingNext,
    Trailing,
    Done,
}

/// The stage after `stage`, for a payload of `len` bytes.
pub open spec fn next_stage(stage: TxStage, len: nat) -> TxStage {
    match stage {
        TxStage::Leading => TxStage::Start,
        TxStage::Start => TxStage::Next,
        TxStage::Next => if len > 0 {
            TxStage::Data { byte: 0, bit: 0 }
        } else {
            TxStage::End
        },
        TxStage::Data { byte, bit } => if bit + 1 < 8 {
            TxStage::Data { byte, bit: (bit + 1) as usize }
        } else if byte + 1 < len {
            TxStage::Data { byte: (byte + 1) as usize, bit: 0 }
        } else {
            TxStage::End
        },
        TxStage::End => TxStage::TrailingNext,
        TxStage::TrailingNext => TxStage::Trailing,
        TxStage::Trailing => TxStage::Done,
        TxStage::Done => TxStage::Done,
    }
}

/// One tone and its gap.
pub open spec fn pulse(tone: Tone, sized: SizedPulses) -> Seq<Segment> {
    seq![
        Segment { tone, samples: sized.spec_tone_size() },
        Segment { tone: Tone::Silence, samples: sized.spec_gap_size() },
    ]
}

/// What a stage renders.
pub open spec fn stage_segments(stage: TxStage, data: Seq<u8>, sized: SizedPulses) -> Seq<Segment> {
    match stage {
        TxStage::Leading => seq![silence_segment(sized)],
        TxStage::Start => pulse(Tone::Start, sized),
        TxStage::Next => pulse(Tone::Next, sized),
        TxStage::Data { byte, bit } => pulse(bit_tone(bit_at(data[byte as int], bit as int)), sized)
            + pulse(Tone::Next, sized),
        TxStage::End => pulse(Tone::End, sized),
        TxStage::TrailingNext => pulse(Tone::Next, sized),
        TxStage::Trailing => seq![silence_segment(sized)],
        TxStage::Done => Seq::empty(),
    }
}

/// A frame rendered stage by stage, so that output can begin before the
/// whole frame exists.
pub struct StreamTransmitter {
    sized: SizedPulses,
    data: Vec<u8>,
    stage: TxStage,
}

impl StreamTransmitter {
    #[verifier::type_invariant]
    spec fn inv(self) -> bool {
        match self.stage {
            TxStage::Data { byte, bit } => byte < self.data@.len() && bit < 8,
            _ => true,
        }
    }

    pub closed spec fn spec_sized(self) -> SizedPulses {
        self.sized
    }

    pub closed spec fn spec_data(self) -> Seq<u8> {
        self.data@
    }

    pub closed spec fn spec_stage(self) -> TxStage {
        self.stage
    }

    /// A stream of the frame that carries `data`, before its leading silence.
    pub fn new(tx: &Transmitter, data: Vec<u8>) -> (r: Self)
        ensures
            r.spec_sized() == tx.sized,
            r.spec_data() == data@,
            r.spec_stage() == TxStage::Leading,
    {
        StreamTransmitter { sized: tx.sized, data, stage: TxStage::Leading }
    }

    /// The stage that the next call renders.
    pub fn stage(&self) -> (r: TxStage)
        ensures
            r == self.spec_stage(),
    {
        self.stage
    }

    /// The segments of the current stage, moving on to the next one; `None`
    /// once the frame is complete.
    pub fn next_segments(&mut self) -> (r: Option<Vec<Segment>>)
        ensures
            final(self).spec_sized() == old(self).spec_sized(),
            final(self).spec_data() == old(self).spec_data(),
            final(self).spec_stage() == next_stage(old(self).spec_stage(), old(self).spec_data().len()),
            old(self).spec_stage() == TxStage::Done <==> r is None,
            r matches Some(v) ==> v@ == stage_segments(
                old(self).spec_stage(),
                old(self).spec_data(),
                old(self).spec_sized(),
            ),
    {
        proof {
            use_type_invariant(&*self);
        }
        let tone_size: usize = self.sized.tone_size();
        let gap_size: usize = self.sized.gap_size();
        let silence: Segment = Segment { tone: Tone::Silence, samples: self.sized.silence_size() };
        let gap: Segment = Segment { tone: Tone::Silence, samples: gap_size };
        let mut out: Vec<Segment> = Vec::new();
        match self.stage {
            TxStage::Leading => {
                out.push(silence);
                self.stage = TxStage::Start;
            },
            TxStage::Start => {
                out.push(Segment { tone: Tone::Start, samples: tone_size });
                out.push(gap);
                self.stage = TxStage::Next;
            },
            TxStage::Next => {
                out.push(Segment { tone: Tone::Next, samples: tone_size });
                out.push(gap);
                self.stage = if self.data.len() > 0 {
                    TxStage::Data { byte: 0, bit: 0 }
                } else {
                    TxStage::End
                };
            },
            TxStage::Data { byte, bit } => {
                let len: usize = self.data.len();
                assert(byte < len);
                let bits: Vec<u8> = byte_to_bits(self.data[byte]);
                let tone: Tone = if bits[bit] == 1 {
                    Tone::High
                } else {
                    Tone::Low
                };
                out.push(Segment { tone, samples: tone_size });
                out.push(gap);
                out.push(Segment { tone: Tone::Next, samples: tone_size });
                out.push(gap);
                self.stage = if bit + 1 < 8 {
                    TxStage::Data { byte, bit: bit + 1 }
                } else if byte + 1 < len {
                    TxStage::Data { byte: byte + 1, bit: 0 }
                } else {
                    TxStage::End
                };
            },
            TxStage::End => {
                out.push(Segment { tone: Tone::End, samples: tone_size });
                out.push(gap);
                self.stage = TxStage::TrailingNext;
            },
            TxStage::TrailingNext => {
                out.push(Segment { tone: Tone::Next, samples: tone_size });
                out.push(gap);
                self.stage = TxStage::Trailing;
            },
            TxStage::Trailing => {
                out.push(silence);
                self.stage = TxStage::Done;
            },
            TxStage::Done => {
                return None;
            },
        }
        assert(out@ =~= stage_segments(old(self).spec_stage(), self.data@, self.sized));
        Some(out)
    }
}

/// The samples that the first `k` segments take.
pub open spec fn samples_before(segments: Seq<Segment>, k: nat) -> int
    decreases k,
{
    if k == 0 {
        0
    } else {
        samples_before(segments, (k - 1) as nat) + segments[k - 1].samples
    }
}

/// In a frame, the pulse of tone `k` starts `silence + k * (tone + gap)`
/// samples in and sounds that tone for `tone_size` samples: a receiver that
/// finds the start marker and then steps one pulse at a time reads each
/// tone of the frame in turn.
pub proof fn lemma_pulse_offsets(data: Seq<u8>, sized: SizedPulses, k: nat)
    requires
        k < frame_tones(data).len(),
    ensures
        samples_before(frame_plan(data, sized), 1 + 2 * k) == sized.spec_silence_size() + k * (
        sized.spec_tone_size() + sized.spec_gap_size()),
        frame_plan(data, sized)[1 + 2 * k as int] == (Segment {
            tone: frame_tones(data)[k as int],
            samples: sized.spec_tone_size(),
        }),
    decreases k,
{
    let plan = frame_plan(data, sized);
    let tones = frame_tones(data);
    assert(plan[1 + 2 * k as int] == pulse_segments(tones, sized)[2 * k as int]);
    assert((2 * k) / 2 == k as int && (2 * k) % 2 == 0);
    if k == 0 {
        assert(samples_before(plan, 1) == samples_before(plan, 0) + plan[0].samples);
    } else {
        let j = (k - 1) as nat;
        lemma_pulse_offsets(data, sized, j);
        assert(plan[2 + 2 * j as int] == pulse_segments(tones, sized)[2 * j as int + 1]);
        assert((2 * j + 1) % 2 == 1);
        assert(samples_before(plan, 2 + 2 * j) == samples_before(plan, 1 + 2 * j) + plan[1 + 2
            * j as int].samples);
        assert(samples_before(plan, 3 + 2 * j) == samples_before(plan, 2 + 2 * j) + plan[2 + 2
            * j as int].samples);
        assert(1 + 2 * k == 3 + 2 * j);
        assert(sized.spec_silence_size() + j * (sized.spec_tone_size() + sized.spec_gap_size())
            + sized.spec_tone_size() + sized.spec_gap_size() == sized.spec_silence_size() + k * (
        sized.spec_tone_size() + sized.spec_gap_size())) by (nonlinear_arith)
            requires
                k == j + 1,
        ;
    }
}

/// What `steps` stages render, one after another, from `stage` on.
pub open spec fn stream_from(stage: TxStage, data: Seq<u8>, sized: SizedPulses, steps: nat) -> Seq<
    Segment,
>
    decreases steps,
{
    if steps == 0 {
        Seq::empty()
    } else {
        stage_segments(stage, data, sized) + stream_from(
            next_stage(stage, data.len()),
            data,
            sized,
            (steps - 1) as nat,
        )
    }
}

/// The stage `steps` stages after `stage`.
pub open spec fn stage_after(stage: TxStage, len: nat, steps: nat) -> TxStage
    decreases steps,
{
    if steps == 0 {
        stage
    } else {
        stage_after(next_stage(stage, len), len, (steps - 1) as nat)
    }
}

/// The stage that renders payload bit `i`.
spec fn data_stage(i: int) -> TxStage {
    TxStage::Data { byte: (i / 8) as usize, bit: (i % 8) as usize }
}

/// The segments after the payload bit with index `i`: the rest of the
/// payload, then the closing markers and the trailing silence.
spec fn tail_from(data: Seq<u8>, sized: SizedPulses, i: int) -> Seq<Segment> {
    pulse_segments(data_tones(data), sized).subrange(4 * i, 32 * data.len() as int) + pulse(
        Tone::End,
        sized,
    ) + pulse(Tone::Next, sized) + seq![silence_segment(sized)]
}

proof fn lemma_bit_index(i: int, len: int)
    requires
        0 <= i < 8 * len,
        len <= usize::MAX,
    ensures
        0 <= i / 8 < len,
        0 <= i % 8 < 8,
        i == 8 * (i / 8) + i % 8,
        (i / 8) as usize == i / 8,
        (i % 8) as usize == i % 8,
{
    vstd::arithmetic::div_mod::lemma_fundamental_div_mod(i, 8);
    vstd::arithmetic::div_mod::lemma_div_pos_is_pos(i, 8);
    vstd::arithmetic::div_mod::lemma_mod_pos_bound(i, 8);
}

proof fn lemma_next_data_stage(i: int, len: nat)
    requires
        0 <= i < 8 * len,
        len <= usize::MAX,
    ensures
        next_stage(data_stage(i), len) == if i + 1 < 8 * len {
            data_stage(i + 1)
        } else {
            TxStage::End
        },
{
    lemma_bit_index(i, len as int);
    if i % 8 + 1 < 8 {
        vstd::arithmetic::div_mod::lemma_fundamental_div_mod_converse(i + 1, 8, i / 8, i % 8 + 1);
        assert(i + 1 < 8 * len);
    } else {
        vstd::arithmetic::div_mod::lemma_fundamental_div_mod_converse(i + 1, 8, i / 8 + 1, 0);
        if i + 1 < 8 * len {
            lemma_bit_index(i + 1, len as int);
        }
    }
}

proof fn lemma_data_step(data: Seq<u8>, sized: SizedPulses, i: int)
    requires
        0 <= i < 8 * data.len(),
        data.len() <= usize::MAX,
    ensures
        stage_segments(data_stage(i), data, sized) == pulse_segments(data_tones(data), sized).subrange(
            4 * i,
            4 * i + 4,
        ),
{
    let tones = data_tones(data);
    let segs = pulse_segments(tones, sized);
    lemma_bit_index(i, data.len() as int);
    lemma_data_index(i / 8, i % 8);
    assert(tones[2 * i] == bit_tone(bit_at(data[i / 8], i % 8)));
    assert(tones[2 * i + 1] == Tone::Next);
    assert(segs.subrange(4 * i, 4 * i + 4) =~= pulse(tones[2 * i], sized) + pulse(
        tones[2 * i + 1],
        sized,
    )) by {
        assert((4 * i) / 2 == 2 * i && (4 * i) % 2 == 0);
        assert((4 * i + 1) / 2 == 2 * i && (4 * i + 1) % 2 == 1);
        assert((4 * i + 2) / 2 == 2 * i + 1 && (4 * i + 2) % 2 == 0);
        assert((4 * i + 3) / 2 == 2 * i + 1 && (4 * i + 3) % 2 == 1);
    }
}

proof fn lemma_closing_stream(data: Seq<u8>, sized: SizedPulses)
    ensures
        stream_from(TxStage::End, data, sized, 3) == pulse(Tone::End, sized) + pulse(Tone::Next, sized)
            + seq![silence_segment(sized)],
        stage_after(TxStage::End, data.len(), 3) == TxStage::Done,
{
    reveal_with_fuel(stream_from, 5);
    reveal_with_fuel(stage_after, 5);
    assert(stream_from(TxStage::Done, data, sized, 0) =~= Seq::<Segment>::empty());
    assert(stream_from(TxStage::End, data, sized, 3) =~= pulse(Tone::End, sized) + pulse(
        Tone::Next,
        sized,
    ) + seq![silence_segment(sized)]);
}

#[verifier::rlimit(40)]
proof fn lemma_data_stream(data: Seq<u8>, sized: SizedPulses, i: int)
    requires
        0 <= i < 8 * data.len(),
        data.len() <= usize::MAX,
    ensures
        stream_from(data_stage(i), data, sized, (8 * data.len() - i + 3) as nat) == tail_from(
            data,
            sized,
            i,
        ),
        stage_after(data_stage(i), data.len(), (8 * data.len() - i + 3) as nat) == TxStage::Done,
    decreases 8 * data.len() - i,
{
    let len = data.len();
    let steps = (8 * len - i + 3) as nat;
    let segs = pulse_segments(data_tones(data), sized);
    lemma_data_step(data, sized, i);
    lemma_next_data_stage(i, len);
    assert(stream_from(data_stage(i), data, sized, steps) == stage_segments(
        data_stage(i),
        data,
        sized,
    ) + stream_from(next_stage(data_stage(i), len), data, sized, (steps - 1) as nat));
    assert(stage_after(data_stage(i), len, steps) == stage_after(
        next_stage(data_stage(i), len),
        len,
        (steps - 1) as nat,
    ));
    if i + 1 < 8 * len {
        lemma_data_stream(data, sized, i + 1);
        assert(tail_from(data, sized, i) =~= segs.subrange(4 * i, 4 * i + 4) + tail_from(
            data,
            sized,
            i + 1,
        ));
    } else {
        lemma_closing_stream(data, sized);
        assert(tail_from(data, sized, i) =~= segs.subrange(4 * i, 4 * i + 4) + (pulse(Tone::End, sized)
            + pulse(Tone::Next, sized) + seq![silence_segment(sized)]));
    }
}

proof fn lemma_plan_split(data: Seq<u8>, sized: SizedPulses)
    ensures
        frame_plan(data, sized) == seq![silence_segment(sized)] + pulse(Tone::Start, sized) + pulse(
            Tone::Next,
            sized,
        ) + tail_from(data, sized, 0),
{
    let len = data.len();
    let head = seq![silence_segment(sized)] + pulse(Tone::Start, sized) + pulse(Tone::Next, sized);
    let plan = frame_plan(data, sized);
    let tones = frame_tones(data);
    let rhs = head + tail_from(data, sized, 0);
    assert(tones.len() == 16 * len + 4);
    assert(plan.len() == rhs.len());
    assert forall|k: int| 0 <= k < plan.len() implies #[trigger] plan[k] == rhs[k] by {
        if 1 <= k < plan.len() - 1 {
            let j = k - 1;
            if 4 <= j < 4 + 32 * len {
                assert(tones[j / 2] == data_tones(data)[j / 2 - 2]);
                assert((j - 4) / 2 == j / 2 - 2);
                assert((j - 4) % 2 == j % 2);
            } else if j >= 4 + 32 * len {
                assert(j / 2 - 2 - 16 * len == 0 || j / 2 - 2 - 16 * len == 1);
            }
        }
    }
    assert(plan =~= rhs);
}

/// Streaming a frame stage by stage renders exactly the segments of the
/// whole frame, after which the stream is done.
pub proof fn lemma_stream_is_frame(data: Seq<u8>, sized: SizedPulses)
    requires
        data.len() <= usize::MAX,
    ensures
        stream_from(TxStage::Leading, data, sized, 8 * data.len() + 6) == frame_plan(data, sized),
        stage_after(TxStage::Leading, data.len(), 8 * data.len() + 6) == TxStage::Done,
{
    let len = data.len();
    let n = (8 * len + 6) as nat;
    lemma_plan_split(data, sized);
    reveal_with_fuel(stream_from, 4);
    reveal_with_fuel(stage_after, 4);
    let rest = (n - 3) as nat;
    assert(stream_from(TxStage::Leading, data, sized, n) =~= seq![silence_segment(sized)] + (pulse(
        Tone::Start,
        sized,
    ) + (pulse(Tone::Next, sized) + stream_from(next_stage(TxStage::Next, len), data, sized, rest))));
    assert(stage_after(TxStage::Leading, len, n) == stage_after(next_stage(TxStage::Next, len), len, rest));
    if len > 0 {
        lemma_bit_index(0, len as int);
        assert(next_stage(TxStage::Next, len) == data_stage(0));
        lemma_data_stream(data, sized, 0);
    } else {
        lemma_closing_stream(data, sized);
        assert(tail_from(data, sized, 0) =~= pulse(Tone::End, sized) + pulse(Tone::Next, sized)
            + seq![silence_segment(sized)]);
    }
}

} // verus!
