//! The receiver's state machine: it reads the tone magnitudes of one
//! analysis window at a time and says whether the window carried a bit,
//! closed the frame, broke it, or was a marker or spacer.

use vstd::prelude::*;

verus! {

/// A tone the resolver can select or expect; `Unset` matches no tone.
#[derive(Copy, Clone, Debug, PartialEq, Eq, Structural)]
pub enum RxState {
    Start,
    End,
    Next,
    Bit,
    Unset,
}

/// What one analysis window resolved to.
#[derive(Copy, Clone, Debug, PartialEq, Eq, Structural)]
pub enum RxOutput {
    Bit(u8),
    End,
    Error,
    Undefined,
}

/// The magnitudes of the five profile tones in one window, and the threshold
/// that decides a match, all in thousandths of a decibel. A magnitude of
/// minus infinity is written `i64::MIN`.
#[derive(Copy, Clone, Debug)]
pub struct RxMagnitudes {
    pub start: i64,
    pub end: i64,
    pub next: i64,
    pub high: i64,
    pub low: i64,
    pub threshold: i64,
}

/// `value` lies in `[-threshold, threshold]`.
pub open spec fn within(value: i64, threshold: i64) -> bool {
    -threshold <= value <= threshold
}

/// The bit whose tone is louder; a tie gives 0.
pub open spec fn prominent_bit_of(m: RxMagnitudes) -> u8 {
    if m.high > m.low {
        1
    } else {
        0
    }
}

/// The magnitude of the louder bit tone.
pub open spec fn prominent_magnitude_of(m: RxMagnitudes) -> i64 {
    if m.high > m.low {
        m.high
    } else {
        m.low
    }
}

/// The window matches the tone that `state` stands for.
pub open spec fn state_within(state: RxState, m: RxMagnitudes) -> bool {
    match state {
        RxState::Start => within(m.start, m.threshold),
        RxState::End => within(m.end, m.threshold),
        RxState::Next => within(m.next, m.threshold),
        RxState::Bit => within(prominent_magnitude_of(m), m.threshold),
        RxState::Unset => false,
    }
}

impl RxState {
    pub fn is_start(&self) -> (r: bool)
        ensures
            r == (*self == RxState::Start),
    {
        match self {
            RxState::Start => true,
            _ => false,
        }
    }

    pub fn is_bit(&self) -> (r: bool)
        ensures
            r == (*self == RxState::Bit),
    {
        match self {
            RxState::Bit => true,
            _ => false,
        }
    }

    pub fn is_start_or_bit(&self) -> (r: bool)
        ensures
            r == (*self == RxState::Start || *self == RxState::Bit),
    {
        self.is_start() || self.is_bit()
    }

    pub fn is_next(&self) -> (r: bool)
        ensures
            r == (*self == RxState::Next),
    {
        match self {
            RxState::Next => true,
            _ => false,
        }
    }

    /// Whether the window matches the tone this state stands for.
    pub fn within_threshold(&self, magnitudes: &RxMagnitudes) -> (r: bool)
        ensures
            r == state_within(*self, *magnitudes),
    {
        let value: i64 = match self {
            RxState::Start => magnitudes.start,
            RxState::End => magnitudes.end,
            RxState::Next => magnitudes.next,
            RxState::Bit => magnitudes.prominent_bit_magnitude(),
            RxState::Unset => {
                return false;
            },
        };
        magnitudes.within_threshold(value)
    }
}

impl RxMagnitudes {
    pub fn new(start: i64, end: i64, next: i64, high: i64, low: i64, threshold: i64) -> (r: Self)
        ensures
            r == (RxMagnitudes { start, end, next, high, low, threshold }),
    {
        RxMagnitudes { start, end, next, high, low, threshold }
    }

    /// 1 where the high tone is louder than the low one, else 0.
    pub fn prominent_bit(&self) -> (r: u8)
        ensures
            r == prominent_bit_of(*self),
    {
        if self.high > self.low {
            1
        } else {
            0
        }
    }

    pub fn prominent_bit_magnitude(&self) -> (r: i64)
        ensures
            r == prominent_magnitude_of(*self),
    {
        if self.high > self.low {
            self.high
        } else {
            self.low
        }
    }

    pub fn within_threshold(&self, value: i64) -> (r: bool)
        ensures
            r == within(value, self.threshold),
    {
        if self.threshold < 0 {
            false
        } else {
            value >= -self.threshold && value <= self.threshold
        }
    }
}

/// A pair of a selected tone and an expected tone.
#[derive(Copy, Clone, Debug, PartialEq, Eq, Structural)]
pub struct RxMarker {
    pub selection: RxState,
    pub expectation: RxState,
}

/// A marker with nothing selected and nothing expected.
pub open spec fn unset_marker() -> RxMarker {
    RxMarker { selection: RxState::Unset, expectation: RxState::Unset }
}

impl RxMarker {
    pub fn new() -> (r: Self)
        ensures
            r == unset_marker(),
    {
        RxMarker { selection: RxState::Unset, expectation: RxState::Unset }
    }

    pub fn with_expectation(expectation: RxState) -> (r: Self)
        ensures
            r == (RxMarker { selection: RxState::Unset, expectation }),
    {
        RxMarker { selection: RxState::Unset, expectation }
    }

    pub fn selection(&self) -> (r: RxState)
        ensures
            r == self.selection,
    {
        self.selection
    }

    pub fn expectation(&self) -> (r: RxState)
        ensures
            r == self.expectation,
    {
        self.expectation
    }

    pub fn set_selection(&mut self, state: RxState)
        ensures
            *final(self) == (RxMarker { selection: state, ..*old(self) }),
    {
        self.selection = state;
    }

    pub fn set_expectation(&mut self, state: RxState)
        ensures
            *final(self) == (RxMarker { expectation: state, ..*old(self) }),
    {
        self.expectation = state;
    }

    pub fn unset_selection(&mut self)
        ensures
            *final(self) == (RxMarker { selection: RxState::Unset, ..*old(self) }),
    {
        self.selection = RxState::Unset;
    }

    pub fn unset_expectation(&mut self)
        ensures
            *final(self) == (RxMarker { expectation: RxState::Unset, ..*old(self) }),
    {
        self.expectation = RxState::Unset;
    }
}

/// The resolver: the current marker tracks the frame's progress, the end
/// marker holds a tentatively seen end tone until the window after it.
#[derive(Copy, Clone, Debug, PartialEq, Eq, Structural)]
pub struct RxResolver {
    pub current: RxMarker,
    pub end: RxMarker,
}

/// The state of a newly built resolver: expecting the start marker.
pub open spec fn initial_resolver() -> RxResolver {
    RxResolver {
        current: RxMarker { selection: RxState::Unset, expectation: RxState::Start },
        end: unset_marker(),
    }
}

/// Whether this window tentatively holds the end marker: it comes where a
/// bit has been followed by its spacer and the next bit is awaited.
pub open spec fn sees_end(r: RxResolver, m: RxMagnitudes) -> bool {
    r.current.expectation == RxState::Bit && r.current.selection == RxState::Bit && within(
        m.end,
        m.threshold,
    )
}

/// The current marker after a window that matched its expectation.
pub open spec fn advance_current(c: RxMarker) -> RxMarker {
    if c.expectation == RxState::Start || c.expectation == RxState::Bit {
        RxMarker { selection: c.expectation, expectation: RxState::Next }
    } else if c.expectation == RxState::Next && (c.selection == RxState::Start || c.selection
        == RxState::Bit) {
        RxMarker { expectation: RxState::Bit, ..c }
    } else {
        c
    }
}

/// One window through the resolver: the new state and the output.
pub open spec fn resolve_spec(r: RxResolver, m: RxMagnitudes) -> (RxResolver, RxOutput) {
    let has_end = sees_end(r, m);
    let end1 = if has_end {
        RxMarker { selection: RxState::End, expectation: RxState::Next }
    } else {
        r.end
    };
    let has_expectation = state_within(r.current.expectation, m);
    let current = if has_expectation {
        advance_current(r.current)
    } else {
        r.current
    };
    if !has_end && !has_expectation && state_within(end1.expectation, m) {
        (RxResolver { current, end: end1 }, RxOutput::End)
    } else {
        let end = if has_end {
            end1
        } else {
            unset_marker()
        };
        let output = if has_expectation && current.expectation == RxState::Next
            && current.selection == RxState::Bit {
            RxOutput::Bit(prominent_bit_of(m))
        } else if !has_expectation && !has_end {
            RxOutput::Error
        } else {
            RxOutput::Undefined
        };
        (RxResolver { current, end }, output)
    }
}

impl RxResolver {
    pub fn new() -> (r: Self)
        ensures
            r == initial_resolver(),
    {
        RxResolver { current: RxMarker::with_expectation(RxState::Start), end: RxMarker::new() }
    }

    /// Feeds one window's magnitudes.
    pub fn resolve(&mut self, magnitudes: &RxMagnitudes) -> (output: RxOutput)
        ensures
            (*final(self), output) == resolve_spec(*old(self), *magnitudes),
    {
        let has_end: bool = self.evaluate_end(magnitudes);
        let has_expectation: bool = self.evaluate_expectation(magnitudes);

        if !has_end {
            if !has_expectation && self.end.expectation.within_threshold(magnitudes) {
                return RxOutput::End;
            }
            self.end.unset_selection();
            self.end.unset_expectation();
        }
        if has_expectation && self.current.selection.is_bit() && self.current.expectation.is_next() {
            RxOutput::Bit(magnitudes.prominent_bit())
        } else if !has_expectation && !has_end {
            RxOutput::Error
        } else {
            RxOutput::Undefined
        }
    }

    /// Back to the state of a newly built resolver.
    pub fn reset(&mut self)
        ensures
            *final(self) == initial_resolver(),
    {
        self.current.unset_selection();
        self.current.set_expectation(RxState::Start);
        self.end.unset_selection();
        self.end.unset_expectation();
    }

    fn evaluate_end(&mut self, magnitudes: &RxMagnitudes) -> (has_end: bool)
        ensures
            has_end == sees_end(*old(self), *magnitudes),
            final(self).current == old(self).current,
            final(self).end == if has_end {
                RxMarker { selection: RxState::End, expectation: RxState::Next }
            } else {
                old(self).end
            },
    {
        if self.current.expectation.is_bit() && self.current.selection.is_bit()
            && RxState::End.within_threshold(magnitudes) {
            self.end.set_selection(RxState::End);
            self.end.set_expectation(RxState::Next);
            true
        } else {
            false
        }
    }

    fn evaluate_expectation(&mut self, magnitudes: &RxMagnitudes) -> (has_expectation: bool)
        ensures
            has_expectation == state_within(old(self).current.expectation, *magnitudes),
            final(self).end == old(self).end,
            final(self).current == if has_expectation {
                advance_current(old(self).current)
            } else {
                old(self).current
            },
    {
        let expectation: RxState = self.current.expectation;
        if expectation.within_threshold(magnitudes) {
            if expectation.is_start_or_bit() {
                self.current.set_selection(expectation);
                self.current.set_expectation(RxState::Next);
            } else if expectation.is_next() {
                if self.current.selection.is_start_or_bit() {
                    self.current.set_expectation(RxState::Bit);
                }
            }
            true
        } else {
            false
        }
    }
}

} // verus!
