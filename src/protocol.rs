//! The protocol end to end over a clean channel: every pulse of a frame
//! shows its own tone at full scale and no other tone at all.

use vstd::prelude::*;

use crate::bits::bit_at;
use crate::bits::bits_of_bytes;
use crate::bits::bytes_of_bits;
use crate::bits::lemma_bytes_round_trip;
use crate::profile::bit_tone;
use crate::profile::Tone;
use crate::receiver::decode_run;
use crate::receiver::decode_step;
use crate::receiver::initial_decoder;
use crate::receiver::DecoderView;
use crate::resolver::unset_marker;
use crate::resolver::RxMagnitudes;
use crate::resolver::RxMarker;
use crate::resolver::RxOutput;
use crate::resolver::RxResolver;
use crate::resolver::RxState;
use crate::transmitter::data_tones;
use crate::transmitter::frame_tones;

verus! {

/// The magnitudes of a window that holds one clean pulse of `tone`: 0 dB for
/// that tone, minus infinity for the others.
pub open spec fn clean_window_of(tone: Tone, threshold: i64) -> RxMagnitudes {
    RxMagnitudes {
        start: if tone == Tone::Start {
            0
        } else {
            i64::MIN
        },
        end: if tone == Tone::End {
            0
        } else {
            i64::MIN
        },
        next: if tone == Tone::Next {
            0
        } else {
            i64::MIN
        },
        high: if tone == Tone::High {
            0
        } else {
            i64::MIN
        },
        low: if tone == Tone::Low {
            0
        } else {
            i64::MIN
        },
        threshold,
    }
}

/// The clean window of each tone.
pub open spec fn clean_windows(tones: Seq<Tone>, threshold: i64) -> Seq<RxMagnitudes> {
    Seq::new(tones.len(), |i: int| clean_window_of(tones[i], threshold))
}

/// The magnitudes of a window that holds one clean pulse of `tone`.
pub fn clean_window(tone: Tone, threshold: i64) -> (r: RxMagnitudes)
    ensures
        r == clean_window_of(tone, threshold),
{
    RxMagnitudes {
        start: if tone == Tone::Start {
            0
        } else {
            i64::MIN
        },
        end: if tone == Tone::End {
            0
        } else {
            i64::MIN
        },
        next: if tone == Tone::Next {
            0
        } else {
            i64::MIN
        },
        high: if tone == Tone::High {
            0
        } else {
            i64::MIN
        },
        low: if tone == Tone::Low {
            0
        } else {
            i64::MIN
        },
        threshold,
    }
}

/// Bit and spacer tones for each bit of `bits`.
pub open spec fn pair_tones(bits: Seq<u8>) -> Seq<Tone> {
    Seq::new(
        2 * bits.len(),
        |i: int|
            if i % 2 == 0 {
                bit_tone(bits[i / 2])
            } else {
                Tone::Next
            },
    )
}

/// The resolver between a bit's spacer and the next bit.
pub open spec fn between_bits() -> RxResolver {
    RxResolver {
        current: RxMarker { selection: RxState::Bit, expectation: RxState::Bit },
        end: unset_marker(),
    }
}

/// The resolver after the start marker's spacer.
pub open spec fn after_start() -> RxResolver {
    RxResolver {
        current: RxMarker { selection: RxState::Start, expectation: RxState::Bit },
        end: unset_marker(),
    }
}

proof fn lemma_run_append(d: DecoderView, a: Seq<RxMagnitudes>, b: Seq<RxMagnitudes>)
    ensures
        decode_run(d, a + b) == (
            decode_run(decode_run(d, a).0, b).0,
            decode_run(d, a).1 + decode_run(decode_run(d, a).0, b).1,
        ),
    decreases a.len(),
{
    if a.len() == 0 {
        assert(a + b =~= b);
        assert(decode_run(d, a).1 + decode_run(d, b).1 =~= decode_run(d, b).1);
    } else {
        assert((a + b)[0] == a[0]);
        assert((a + b).drop_first() =~= a.drop_first() + b);
        let d1 = decode_step(d, a[0]).0;
        lemma_run_append(d1, a.drop_first(), b);
        let r = decode_run(decode_run(d1, a.drop_first()).0, b);
        assert((seq![bytes_of_bits(d.bits)] + decode_run(d1, a.drop_first()).1) + r.1 =~= seq![
            bytes_of_bits(d.bits),
        ] + (decode_run(d1, a.drop_first()).1 + r.1));
    }
}

proof fn lemma_clean_windows_append(a: Seq<Tone>, b: Seq<Tone>, t: i64)
    ensures
        clean_windows(a + b, t) == clean_windows(a, t) + clean_windows(b, t),
{
    assert(clean_windows(a + b, t) =~= clean_windows(a, t) + clean_windows(b, t));
}

/// The frames that one step closes: the decoder's bits, where it ends one.
pub open spec fn closed_by(d: DecoderView, m: RxMagnitudes) -> Seq<Seq<u8>> {
    if decode_step(d, m).1 == RxOutput::End {
        seq![bytes_of_bits(d.bits)]
    } else {
        Seq::empty()
    }
}

proof fn lemma_run_pair(d: DecoderView, x: RxMagnitudes, y: RxMagnitudes)
    ensures
        decode_run(d, seq![x, y]).0 == decode_step(decode_step(d, x).0, y).0,
        decode_run(d, seq![x, y]).1 == closed_by(d, x) + closed_by(decode_step(d, x).0, y),
{
    let s = seq![x, y];
    assert(s.drop_first() =~= seq![y]);
    assert(seq![y].drop_first() =~= Seq::<RxMagnitudes>::empty());
    reveal_with_fuel(decode_run, 3);
    let d1 = decode_step(d, x).0;
    let d2 = decode_step(d1, y).0;
    assert(decode_run(d2, Seq::<RxMagnitudes>::empty()).1 =~= Seq::<Seq<u8>>::empty());
    assert(decode_run(d1, seq![y]).1 =~= closed_by(d1, y));
    assert(decode_run(d, s).1 =~= closed_by(d, x) + closed_by(d1, y));
}

/// The bits and spacers of a bit sequence leave the decoder between bits,
/// holding those bits after the ones it had, and close no frame.
proof fn lemma_pairs(d: DecoderView, bits: Seq<u8>, t: i64)
    requires
        t >= 0,
        d.resolver == between_bits() || d.resolver == after_start(),
        forall|i: int| 0 <= i < bits.len() ==> #[trigger] bits[i] <= 1,
    ensures
        decode_run(d, clean_windows(pair_tones(bits), t)).1 == Seq::<Seq<u8>>::empty(),
        decode_run(d, clean_windows(pair_tones(bits), t)).0.bits == d.bits + bits,
        bits.len() > 0 ==> decode_run(d, clean_windows(pair_tones(bits), t)).0.resolver
            == between_bits(),
        bits.len() == 0 ==> decode_run(d, clean_windows(pair_tones(bits), t)).0 == d,
    decreases bits.len(),
{
    if bits.len() == 0 {
        assert(clean_windows(pair_tones(bits), t) =~= Seq::<RxMagnitudes>::empty());
        assert(d.bits + bits =~= d.bits);
    } else {
        let prefix = bits.drop_last();
        let b = bits.last();
        lemma_pairs(d, prefix, t);
        assert(pair_tones(bits) =~= pair_tones(prefix) + seq![bit_tone(b), Tone::Next]);
        lemma_clean_windows_append(pair_tones(prefix), seq![bit_tone(b), Tone::Next], t);
        let tail = clean_windows(seq![bit_tone(b), Tone::Next], t);
        assert(tail =~= seq![clean_window_of(bit_tone(b), t), clean_window_of(Tone::Next, t)]);
        lemma_run_append(d, clean_windows(pair_tones(prefix), t), tail);
        let d1 = decode_run(d, clean_windows(pair_tones(prefix), t)).0;
        let m1 = clean_window_of(bit_tone(b), t);
        let m2 = clean_window_of(Tone::Next, t);
        lemma_run_pair(d1, m1, m2);
        assert(decode_step(d1, m1).1 == RxOutput::Bit(b));
        assert(decode_step(decode_step(d1, m1).0, m2).1 == RxOutput::Undefined);
        assert(closed_by(d1, m1) + closed_by(decode_step(d1, m1).0, m2) =~= Seq::<Seq<u8>>::empty());
        assert(decode_run(d, clean_windows(pair_tones(bits), t)).1 =~= Seq::<Seq<u8>>::empty());
        assert(d.bits + bits =~= (d.bits + prefix).push(b));
    }
}

proof fn lemma_data_tones(data: Seq<u8>)
    ensures
        data_tones(data) == pair_tones(bits_of_bytes(data)),
{
    let bits = bits_of_bytes(data);
    assert forall|i: int| 0 <= i < 16 * data.len() implies #[trigger] data_tones(data)[i]
        == pair_tones(bits)[i] by {
        if i % 2 == 0 {
            vstd::arithmetic::div_mod::lemma_div_denominator(i, 2, 8);
            assert((i / 2) % 8 == (i % 16) / 2) by {
                vstd::arithmetic::div_mod::lemma_fundamental_div_mod(i, 16);
                vstd::arithmetic::div_mod::lemma_fundamental_div_mod(i / 2, 8);
                vstd::arithmetic::div_mod::lemma_fundamental_div_mod(i, 2);
                vstd::arithmetic::div_mod::lemma_fundamental_div_mod(i % 16, 2);
            }
            assert(0 <= i / 2 < 8 * data.len());
            assert(bits[i / 2] == bit_at(data[(i / 2) / 8], (i / 2) % 8));
        }
    }
    assert(data_tones(data) =~= pair_tones(bits));
}

proof fn lemma_clean_head(t: i64)
    requires
        t >= 0,
    ensures
        decode_run(initial_decoder(), clean_windows(seq![Tone::Start, Tone::Next], t)) == (
            DecoderView { resolver: after_start(), bits: Seq::empty() },
            Seq::<Seq<u8>>::empty(),
        ),
{
    let x = clean_window_of(Tone::Start, t);
    let y = clean_window_of(Tone::Next, t);
    assert(clean_windows(seq![Tone::Start, Tone::Next], t) =~= seq![x, y]);
    lemma_run_pair(initial_decoder(), x, y);
    assert(closed_by(initial_decoder(), x) + closed_by(decode_step(initial_decoder(), x).0, y)
        =~= Seq::<Seq<u8>>::empty());
}

proof fn lemma_clean_foot(d: DecoderView, t: i64)
    requires
        t >= 0,
        d.resolver == between_bits(),
    ensures
        decode_run(d, clean_windows(seq![Tone::End, Tone::Next], t)) == (
            initial_decoder(),
            seq![bytes_of_bits(d.bits)],
        ),
{
    let x = clean_window_of(Tone::End, t);
    let y = clean_window_of(Tone::Next, t);
    assert(clean_windows(seq![Tone::End, Tone::Next], t) =~= seq![x, y]);
    lemma_run_pair(d, x, y);
    assert(decode_step(d, x).1 == RxOutput::Undefined);
    assert(decode_step(d, x).0.bits == d.bits);
    assert(decode_step(decode_step(d, x).0, y).1 == RxOutput::End);
    assert(closed_by(d, x) + closed_by(decode_step(d, x).0, y) =~= seq![bytes_of_bits(d.bits)]);
}

/// Over a clean channel, the windows of a frame that carries a non-empty
/// payload close exactly one frame, with that payload, and leave the decoder
/// as newly built.
pub proof fn lemma_clean_round_trip(data: Seq<u8>, threshold: i64)
    requires
        data.len() > 0,
        threshold >= 0,
    ensures
        decode_run(initial_decoder(), clean_windows(frame_tones(data), threshold)) == (
            initial_decoder(),
            seq![data],
        ),
{
    let t = threshold;
    let head = seq![Tone::Start, Tone::Next];
    let body = data_tones(data);
    let foot = seq![Tone::End, Tone::Next];
    lemma_clean_windows_append(head + body, foot, t);
    lemma_clean_windows_append(head, body, t);
    let wh = clean_windows(head, t);
    let wb = clean_windows(body, t);
    let wf = clean_windows(foot, t);
    assert(clean_windows(frame_tones(data), t) == wh + wb + wf);
    lemma_run_append(initial_decoder(), wh + wb, wf);
    lemma_run_append(initial_decoder(), wh, wb);
    lemma_clean_head(t);
    let dh = decode_run(initial_decoder(), wh);
    let bits = bits_of_bytes(data);
    lemma_data_tones(data);
    assert forall|i: int| 0 <= i < bits.len() implies #[trigger] bits[i] <= 1 by {}
    lemma_pairs(dh.0, bits, t);
    let db = decode_run(dh.0, wb);
    assert(bits.len() > 0);
    assert(db.0.bits =~= bits);
    lemma_clean_foot(db.0, t);
    lemma_bytes_round_trip(data);
    assert(decode_run(initial_decoder(), wh + wb).1 =~= Seq::<Seq<u8>>::empty());
    assert(decode_run(initial_decoder(), wh + wb + wf).1 =~= seq![data]);
}

/// `n` windows of silence.
pub open spec fn silence_tones(n: nat) -> Seq<Tone> {
    Seq::new(n, |i: int| Tone::Silence)
}

proof fn lemma_silence_run(n: nat, t: i64)
    requires
        t >= 0,
    ensures
        decode_run(initial_decoder(), clean_windows(silence_tones(n), t)) == (
            initial_decoder(),
            Seq::<Seq<u8>>::empty(),
        ),
    decreases n,
{
    if n > 0 {
        let m = (n - 1) as nat;
        lemma_silence_run(m, t);
        let w = clean_windows(silence_tones(n), t);
        assert(w.drop_first() =~= clean_windows(silence_tones(m), t));
        assert(w[0] == clean_window_of(Tone::Silence, t));
        assert(decode_step(initial_decoder(), w[0]).1 == RxOutput::Error);
    } else {
        assert(clean_windows(silence_tones(n), t) =~= Seq::<RxMagnitudes>::empty());
    }
}

/// Silent windows before and after a frame change nothing: over a clean
/// channel the frame's payload is still the one frame that closes.
pub proof fn lemma_silence_padding(data: Seq<u8>, before: nat, after: nat, threshold: i64)
    requires
        data.len() > 0,
        threshold >= 0,
    ensures
        decode_run(
            initial_decoder(),
            clean_windows(silence_tones(before) + frame_tones(data) + silence_tones(after), threshold),
        ) == (initial_decoder(), seq![data]),
{
    let t = threshold;
    let a = clean_windows(silence_tones(before), t);
    let f = clean_windows(frame_tones(data), t);
    let b = clean_windows(silence_tones(after), t);
    lemma_clean_windows_append(silence_tones(before) + frame_tones(data), silence_tones(after), t);
    lemma_clean_windows_append(silence_tones(before), frame_tones(data), t);
    lemma_run_append(initial_decoder(), a + f, b);
    lemma_run_append(initial_decoder(), a, f);
    lemma_silence_run(before, t);
    lemma_silence_run(after, t);
    lemma_clean_round_trip(data, t);
    assert(Seq::<Seq<u8>>::empty() + seq![data] =~= seq![data]);
    assert(seq![data] + Seq::<Seq<u8>>::empty() =~= seq![data]);
}

} // verus!
