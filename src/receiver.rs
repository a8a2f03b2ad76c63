//! Receiver decisions: locating the start marker in a stream of window
//! magnitudes, and turning resolved windows into bits and frames.

use vstd::prelude::*;

use crate::bits::bits_to_bytes;
use crate::bits::bytes_of_bits;
use crate::profile::SizedPulses;
use crate::resolver::initial_resolver;
use crate::resolver::resolve_spec;
use crate::resolver::within;
use crate::resolver::RxMagnitudes;
use crate::resolver::RxOutput;
use crate::resolver::RxResolver;

verus! {

/// How many windows in a row may fall short of the best start candidate
/// before that candidate is taken.
pub const MAX_CONSECUTIVE_FAILS: usize = 5;

/// How many start-tone cycles a sparse probe skips while no candidate is known.
pub const SKIP_CYCLES: u32 = 8;

/// The sliding search for the start marker.
#[derive(Copy, Clone, Debug)]
pub struct StartSearch {
    /// The best window so far: its first sample and its start-tone magnitude.
    pub best: Option<(usize, i64)>,
    /// Windows in a row that did not improve on the best one.
    pub fails: usize,
    /// The match threshold, in thousandths of a decibel.
    pub threshold: i64,
}

/// The search after the start-tone magnitude `db` of the window at `idx`,
/// and whether the search is over.
pub open spec fn search_step(s: StartSearch, idx: usize, db: i64) -> (StartSearch, bool) {
    match s.best {
        None => {
            if within(db, s.threshold) {
                (StartSearch { best: Some((idx, db)), ..s }, false)
            } else {
                (s, false)
            }
        },
        Some((_, best_db)) => {
            if db >= best_db && db <= s.threshold {
                (StartSearch { best: Some((idx, db)), fails: 0, ..s }, false)
            } else {
                (StartSearch { fails: (s.fails + 1) as usize, ..s }, s.fails + 1
                    >= MAX_CONSECUTIVE_FAILS)
            }
        },
    }
}

impl StartSearch {
    pub fn new(threshold: i64) -> (r: Self)
        ensures
            r == (StartSearch { best: None, fails: 0, threshold }),
    {
        StartSearch { best: None, fails: 0, threshold }
    }

    /// Takes the start-tone magnitude of the window beginning at sample
    /// `idx`; returns whether the search is over.
    pub fn step(&mut self, idx: usize, db: i64) -> (done: bool)
        requires
            old(self).fails < MAX_CONSECUTIVE_FAILS,
        ensures
            (*final(self), done) == search_step(*old(self), idx, db),
            !done ==> final(self).fails < MAX_CONSECUTIVE_FAILS,
    {
        match self.best {
            None => {
                if self.threshold >= 0 && db >= -self.threshold && db <= self.threshold {
                    self.best = Some((idx, db));
                }
                false
            },
            Some((_, best_db)) => {
                if db >= best_db && db <= self.threshold {
                    self.best = Some((idx, db));
                    self.fails = 0;
                    false
                } else {
                    self.fails = self.fails + 1;
                    self.fails >= MAX_CONSECUTIVE_FAILS
                }
            },
        }
    }

    /// The first sample of the best window so far.
    pub fn best_idx(&self) -> (r: Option<usize>)
        ensures
            r == match self.best {
                Some((i, _)) => Some(i),
                None => None::<usize>,
            },
    {
        match self.best {
            Some((i, _)) => Some(i),
            None => None,
        }
    }

    /// The next window to probe after the one at `idx`: `sparse` samples on
    /// while no candidate is known, else the very next sample; `None` where
    /// that passes the largest index.
    pub fn next_idx(&self, idx: usize, sparse: usize) -> (r: Option<usize>)
        ensures
            self.best is None ==> r == if idx + sparse <= usize::MAX {
                Some((idx + sparse) as usize)
            } else {
                None::<usize>
            },
            self.best is Some ==> r == if idx + 1 <= usize::MAX {
                Some((idx + 1) as usize)
            } else {
                None::<usize>
            },
    {
        if self.best.is_none() {
            idx.checked_add(sparse)
        } else {
            idx.checked_add(1)
        }
    }
}

/// `ceil(n / d)`.
pub open spec fn ceil_div(n: int, d: int) -> int {
    (n + d - 1) / d
}

/// The samples that `num_cycles` cycles of `target_frequency` take at
/// `sample_rate`, rounded up; the start search probes this far apart while it
/// has no candidate.
pub fn get_minimum_chunk_size(target_frequency: u32, num_cycles: u32, sample_rate: u32) -> (r: u64)
    requires
        target_frequency > 0,
    ensures
        r == ceil_div(num_cycles * sample_rate, target_frequency as int),
{
    proof {
        assert(num_cycles as u64 * sample_rate as u64 <= 18_446_744_065_119_617_025u64)
            by (nonlinear_arith)
            requires
                num_cycles <= 4_294_967_295u32,
                sample_rate <= 4_294_967_295u32,
        ;
    }
    (num_cycles as u64 * sample_rate as u64 + target_frequency as u64 - 1) / target_frequency as u64
}

/// Where the buffer is cut when the receiver starts over: at the start
/// index, or else so that the last `8 * tone_size` samples stay.
pub fn retained_from(buffer_len: usize, start_idx: Option<usize>, tone_size: usize) -> (r: usize)
    ensures
        r <= buffer_len,
        start_idx matches Some(i) ==> r == if i <= buffer_len {
            i
        } else {
            buffer_len
        },
        start_idx is None ==> r == if 8 * tone_size <= buffer_len {
            buffer_len - 8 * tone_size
        } else {
            0
        },
{
    match start_idx {
        Some(i) => {
            if i <= buffer_len {
                i
            } else {
                buffer_len
            }
        },
        None => {
            if tone_size <= buffer_len / 8 {
                buffer_len - 8 * tone_size
            } else {
                0
            }
        },
    }
}

/// What a window meant for the frame being received.
#[derive(Debug)]
pub enum DecodeEvent {
    /// A spacer or marker: nothing to report.
    Pending,
    /// One more payload bit.
    Bit(u8),
    /// The end marker closed the frame: its payload.
    Frame(Vec<u8>),
    /// The frame broke off; its bits are dropped.
    Dropped,
}

/// The decoder's state: the resolver and the bits of the current frame.
pub struct DecoderView {
    pub resolver: RxResolver,
    pub bits: Seq<u8>,
}

/// The state of a newly built decoder.
pub open spec fn initial_decoder() -> DecoderView {
    DecoderView { resolver: initial_resolver(), bits: Seq::empty() }
}

/// One window through the decoder: the new state and the resolver's output.
/// A frame that ends or breaks leaves the decoder as newly built.
pub open spec fn decode_step(d: DecoderView, m: RxMagnitudes) -> (DecoderView, RxOutput) {
    let (r, out) = resolve_spec(d.resolver, m);
    match out {
        RxOutput::Bit(b) => (DecoderView { resolver: r, bits: d.bits.push(b) }, out),
        RxOutput::Undefined => (DecoderView { resolver: r, bits: d.bits }, out),
        _ => (initial_decoder(), out),
    }
}

/// Windows one after another through the decoder: the final state and the
/// payloads of the frames that closed, in order.
pub open spec fn decode_run(d: DecoderView, windows: Seq<RxMagnitudes>) -> (
    DecoderView,
    Seq<Seq<u8>>,
)
    decreases windows.len(),
{
    if windows.len() == 0 {
        (d, Seq::empty())
    } else {
        let (d1, out) = decode_step(d, windows[0]);
        let (d2, frames) = decode_run(d1, windows.drop_first());
        if out == RxOutput::End {
            (d2, seq![bytes_of_bits(d.bits)] + frames)
        } else {
            (d2, frames)
        }
    }
}

/// Turns resolved windows into bits and frames.
pub struct FrameDecoder {
    resolver: RxResolver,
    bits: Vec<u8>,
}

impl View for FrameDecoder {
    type V = DecoderView;

    closed spec fn view(&self) -> DecoderView {
        DecoderView { resolver: self.resolver, bits: self.bits@ }
    }
}

impl FrameDecoder {
    pub fn new() -> (r: Self)
        ensures
            r@ == initial_decoder(),
    {
        FrameDecoder { resolver: RxResolver::new(), bits: Vec::new() }
    }

    /// The bits of the frame received so far.
    pub fn bits(&self) -> (r: &Vec<u8>)
        ensures
            r@ == self@.bits,
    {
        &self.bits
    }

    /// Feeds one window's magnitudes.
    pub fn feed(&mut self, magnitudes: &RxMagnitudes) -> (event: DecodeEvent)
        ensures
            final(self)@ == decode_step(old(self)@, *magnitudes).0,
            match decode_step(old(self)@, *magnitudes).1 {
                RxOutput::Bit(b) => event == DecodeEvent::Bit(b),
                RxOutput::End => event matches DecodeEvent::Frame(p) && p@ == bytes_of_bits(
                    old(self)@.bits,
                ),
                RxOutput::Error => event is Dropped,
                RxOutput::Undefined => event is Pending,
            },
    {
        let output: RxOutput = self.resolver.resolve(magnitudes);
        match output {
            RxOutput::Bit(b) => {
                self.bits.push(b);
                DecodeEvent::Bit(b)
            },
            RxOutput::End => {
                let payload: Vec<u8> = bits_to_bytes(&self.bits);
                self.reset();
                DecodeEvent::Frame(payload)
            },
            RxOutput::Error => {
                self.reset();
                DecodeEvent::Dropped
            },
            RxOutput::Undefined => DecodeEvent::Pending,
        }
    }

    /// Drops the current frame and starts over.
    pub fn reset(&mut self)
        ensures
            final(self)@ == initial_decoder(),
    {
        self.resolver.reset();
        self.bits.clear();
        assert(self.bits@ =~= Seq::<u8>::empty());
    }
}

/// The receiver's bookkeeping over its sample buffer: where the next window
/// starts, and the frame decoder.
pub struct RxTracker {
    tone_size: usize,
    gap_size: usize,
    start_idx: Option<usize>,
    decoder: FrameDecoder,
}

/// What the receiver should do with a buffer of `buffer_len` samples.
#[derive(Copy, Clone, Debug, PartialEq, Eq, Structural)]
pub enum RxAction {
    /// Wait for more samples.
    Wait,
    /// Search the buffer for the start marker.
    Search,
    /// Analyse the window that begins at this sample.
    Window(usize),
}

impl RxTracker {
    pub closed spec fn spec_tone_size(self) -> usize {
        self.tone_size
    }

    pub closed spec fn spec_gap_size(self) -> usize {
        self.gap_size
    }

    pub closed spec fn spec_start_idx(self) -> Option<usize> {
        self.start_idx
    }

    pub closed spec fn spec_decoder(self) -> DecoderView {
        self.decoder@
    }

    pub fn new(sized: &SizedPulses) -> (r: Self)
        ensures
            r.spec_tone_size() == sized.spec_tone_size(),
            r.spec_gap_size() == sized.spec_gap_size(),
            r.spec_start_idx() is None,
            r.spec_decoder() == initial_decoder(),
    {
        RxTracker {
            tone_size: sized.tone_size(),
            gap_size: sized.gap_size(),
            start_idx: None,
            decoder: FrameDecoder::new(),
        }
    }

    /// The first sample of the start marker, once found.
    pub fn start_idx(&self) -> (r: Option<usize>)
        ensures
            r == self.spec_start_idx(),
    {
        self.start_idx
    }

    /// The next step for a buffer of `buffer_len` samples: a window once the
    /// start is known and the whole window is buffered, a search once no start
    /// is known and eight tones are buffered.
    pub fn action(&self, buffer_len: usize) -> (r: RxAction)
        ensures
            self.spec_start_idx() matches Some(s) ==> r == if s + self.spec_tone_size()
                <= buffer_len {
                RxAction::Window(s)
            } else {
                RxAction::Wait
            },
            self.spec_start_idx() is None ==> r == if 8 * self.spec_tone_size() <= buffer_len {
                RxAction::Search
            } else {
                RxAction::Wait
            },
    {
        match self.start_idx {
            Some(s) => {
                if s <= buffer_len && self.tone_size <= buffer_len - s {
                    RxAction::Window(s)
                } else {
                    RxAction::Wait
                }
            },
            None => {
                if self.tone_size <= buffer_len / 8 {
                    RxAction::Search
                } else {
                    RxAction::Wait
                }
            },
        }
    }

    /// Records the outcome of a search over `buffer_len` samples; returns how
    /// many samples to drop from the front of the buffer.
    pub fn found(&mut self, start: Option<usize>, buffer_len: usize) -> (drain: usize)
        ensures
            final(self).spec_tone_size() == old(self).spec_tone_size(),
            final(self).spec_gap_size() == old(self).spec_gap_size(),
            final(self).spec_start_idx() == start,
            final(self).spec_decoder() == old(self).spec_decoder(),
            start is Some ==> drain == 0,
            start is None ==> drain == if 8 * old(self).spec_tone_size() <= buffer_len {
                buffer_len - 8 * old(self).spec_tone_size()
            } else {
                0
            },
    {
        self.start_idx = start;
        match start {
            Some(_) => 0,
            None => retained_from(buffer_len, None, self.tone_size),
        }
    }

    /// Feeds the magnitudes of the window at the start index. The index moves
    /// on by one pulse; where the frame closes or breaks, the tracker starts
    /// over and the buffer is cut at the window. Returns the event and how
    /// many samples to drop from the front of a buffer of `buffer_len`.
    pub fn feed(&mut self, magnitudes: &RxMagnitudes, buffer_len: usize) -> (r: (DecodeEvent, usize))
        requires
            old(self).spec_start_idx() is Some,
        ensures
            final(self).spec_tone_size() == old(self).spec_tone_size(),
            final(self).spec_gap_size() == old(self).spec_gap_size(),
            final(self).spec_decoder() == decode_step(old(self).spec_decoder(), *magnitudes).0,
            match decode_step(old(self).spec_decoder(), *magnitudes).1 {
                RxOutput::Bit(b) => r.0 == DecodeEvent::Bit(b),
                RxOutput::End => r.0 matches DecodeEvent::Frame(p) && p@ == bytes_of_bits(
                    old(self).spec_decoder().bits,
                ),
                RxOutput::Error => r.0 is Dropped,
                RxOutput::Undefined => r.0 is Pending,
            },
            ({
                let s = old(self).spec_start_idx()->Some_0;
                let closes = decode_step(old(self).spec_decoder(), *magnitudes).1 == RxOutput::End
                    || decode_step(old(self).spec_decoder(), *magnitudes).1 == RxOutput::Error;
                let step = s + old(self).spec_tone_size() + old(self).spec_gap_size();
                if closes {
                    final(self).spec_start_idx() is None && r.1 == if s <= buffer_len {
                        s
                    } else {
                        buffer_len
                    }
                } else if step <= usize::MAX {
                    final(self).spec_start_idx() == Some(step as usize) && r.1 == 0
                } else {
                    final(self).spec_start_idx() is None && r.1 == 0
                }
            }),
    {
        let s: usize = match self.start_idx {
            Some(s) => s,
            None => 0,
        };
        let event: DecodeEvent = self.decoder.feed(magnitudes);
        match event {
            DecodeEvent::Frame(_) | DecodeEvent::Dropped => {
                let drain: usize = retained_from(buffer_len, Some(s), self.tone_size);
                self.start_idx = None;
                (event, drain)
            },
            _ => {
                let next: Option<usize> = match s.checked_add(self.tone_size) {
                    Some(a) => a.checked_add(self.gap_size),
                    None => None,
                };
                self.start_idx = next;
                (event, 0)
            },
        }
    }
}

/// Once a window has closed or broken a frame, the decoder handles the next
/// window exactly as a newly built decoder does.
pub proof fn lemma_end_or_error_is_terminal(d: DecoderView, m: RxMagnitudes, next: RxMagnitudes)
    requires
        decode_step(d, m).1 == RxOutput::End || decode_step(d, m).1 == RxOutput::Error,
    ensures
        decode_step(d, m).0 == initial_decoder(),
        decode_step(decode_step(d, m).0, next) == decode_step(initial_decoder(), next),
{
}

} // verus!
