//! Decoding of the two phase lines of a rotary encoder.
//!
//! The lines A and B of a quadrature encoder walk through the Gray-code cycle
//! 00 -> 01 -> 11 -> 10 -> 00 when the shaft turns clockwise and through the
//! reverse cycle when it turns the other way. One step along the cycle is a
//! micro-rotation; anything else (no change, or both lines changing at once)
//! carries no direction.

use vstd::prelude::*;

verus! {

/// The levels of the phase lines A and B at one sample.
#[derive(Copy, Clone, Debug, PartialEq, Eq, Structural)]
pub enum GrayState {
    /// A = 0, B = 0
    AB00,
    /// A = 0, B = 1
    AB01,
    /// A = 1, B = 1
    AB11,
    /// A = 1, B = 0
    AB10,
}

/// What one pair of successive samples says about the shaft.
#[derive(Copy, Clone, Debug, PartialEq, Eq, Structural)]
pub enum MicroRotation {
    Clockwise,
    CounterClockwise,
    /// Bounce, skipped phase or no movement.
    NoStep,
}

/// The phase that follows `s` when the shaft turns clockwise.
pub open spec fn clockwise_next(s: GrayState) -> GrayState {
    match s {
        GrayState::AB00 => GrayState::AB01,
        GrayState::AB01 => GrayState::AB11,
        GrayState::AB11 => GrayState::AB10,
        GrayState::AB10 => GrayState::AB00,
    }
}

/// The micro-rotation that the step from `from` to `to` stands for.
pub open spec fn transition(from: GrayState, to: GrayState) -> MicroRotation {
    if to == clockwise_next(from) {
        MicroRotation::Clockwise
    } else if from == clockwise_next(to) {
        MicroRotation::CounterClockwise
    } else {
        MicroRotation::NoStep
    }
}

/// The four steps of the clockwise cycle.
pub open spec fn forward_pairs() -> Set<(GrayState, GrayState)> {
    set![
        (GrayState::AB00, GrayState::AB01),
        (GrayState::AB01, GrayState::AB11),
        (GrayState::AB11, GrayState::AB10),
        (GrayState::AB10, GrayState::AB00),
    ]
}

/// The four steps of the counter-clockwise cycle.
pub open spec fn reverse_pairs() -> Set<(GrayState, GrayState)> {
    set![
        (GrayState::AB00, GrayState::AB10),
        (GrayState::AB10, GrayState::AB11),
        (GrayState::AB11, GrayState::AB01),
        (GrayState::AB01, GrayState::AB00),
    ]
}

/// The phase at which the lines stand when A is at level `a` and B at `b`.
pub open spec fn phase_of(a: bool, b: bool) -> GrayState {
    if a {
        if b { GrayState::AB11 } else { GrayState::AB10 }
    } else {
        if b { GrayState::AB01 } else { GrayState::AB00 }
    }
}

impl GrayState {
    /// The phase for the sampled levels of line A and line B.
    pub fn from_lines(a: bool, b: bool) -> (s: GrayState)
        ensures
            s == phase_of(a, b),
    {
        match (a, b) {
            (false, false) => GrayState::AB00,
            (false, true) => GrayState::AB01,
            (true, true) => GrayState::AB11,
            (true, false) => GrayState::AB10,
        }
    }
}

/// Classifies the step between two successive samples.
pub fn decode_transition(from: GrayState, to: GrayState) -> (r: MicroRotation)
    ensures
        r == transition(from, to),
        r == MicroRotation::Clockwise <==> forward_pairs().contains((from, to)),
        r == MicroRotation::CounterClockwise <==> reverse_pairs().contains((from, to)),
{
    match (from, to) {
        (GrayState::AB00, GrayState::AB01) => MicroRotation::Clockwise,
        (GrayState::AB01, GrayState::AB11) => MicroRotation::Clockwise,
        (GrayState::AB11, GrayState::AB10) => MicroRotation::Clockwise,
        (GrayState::AB10, GrayState::AB00) => MicroRotation::Clockwise,
        (GrayState::AB00, GrayState::AB10) => MicroRotation::CounterClockwise,
        (GrayState::AB10, GrayState::AB11) => MicroRotation::CounterClockwise,
        (GrayState::AB11, GrayState::AB01) => MicroRotation::CounterClockwise,
        (GrayState::AB01, GrayState::AB00) => MicroRotation::CounterClockwise,
        _ => MicroRotation::NoStep,
    }
}

/// Of the sixteen pairs of phases, exactly the four steps of the clockwise
/// cycle decode to `Clockwise`, exactly the four steps of the reverse cycle to
/// `CounterClockwise`, and the other eight to `NoStep`: among them every pair
/// that repeats a phase and both diagonal skips.
pub proof fn lemma_transition_partition(from: GrayState, to: GrayState)
    ensures
        forward_pairs().finite() && forward_pairs().len() == 4,
        reverse_pairs().finite() && reverse_pairs().len() == 4,
        forward_pairs().disjoint(reverse_pairs()),
        transition(from, to) == MicroRotation::Clockwise <==> forward_pairs().contains((from, to)),
        transition(from, to) == MicroRotation::CounterClockwise <==> reverse_pairs().contains(
            (from, to),
        ),
        transition(from, to) == MicroRotation::NoStep <==> !forward_pairs().contains((from, to))
            && !reverse_pairs().contains((from, to)),
        transition(from, from) == MicroRotation::NoStep,
        transition(from, clockwise_next(clockwise_next(from))) == MicroRotation::NoStep,
{
    lemma_four_pairs(
        (GrayState::AB00, GrayState::AB01),
        (GrayState::AB01, GrayState::AB11),
        (GrayState::AB11, GrayState::AB10),
        (GrayState::AB10, GrayState::AB00),
    );
    lemma_four_pairs(
        (GrayState::AB00, GrayState::AB10),
        (GrayState::AB10, GrayState::AB11),
        (GrayState::AB11, GrayState::AB01),
        (GrayState::AB01, GrayState::AB00),
    );
}

/// A set written out as four different elements has four elements.
proof fn lemma_four_pairs(
    a: (GrayState, GrayState),
    b: (GrayState, GrayState),
    c: (GrayState, GrayState),
    d: (GrayState, GrayState),
)
    requires
        a != b,
        a != c,
        a != d,
        b != c,
        b != d,
        c != d,
    ensures
        set![a, b, c, d].finite(),
        set![a, b, c, d].len() == 4,
{
    let e = Set::<(GrayState, GrayState)>::empty();
    assert(e.insert(a).len() == 1);
    assert(e.insert(a).insert(b).len() == 2);
    assert(e.insert(a).insert(b).insert(c).len() == 3);
    assert(e.insert(a).insert(b).insert(c).insert(d).len() == 4);
}

/// Turning one step clockwise and then one step back decodes to the two
/// opposite micro-rotations, in that order.
pub proof fn lemma_reverse_undoes_forward(s: GrayState)
    ensures
        transition(s, clockwise_next(s)) == MicroRotation::Clockwise,
        transition(clockwise_next(s), s) == MicroRotation::CounterClockwise,
        clockwise_next(clockwise_next(clockwise_next(clockwise_next(s)))) == s,
{
}

/// A decoder that remembers the phase of the previous sample.
pub struct QuadratureDecoder {
    last: GrayState,
}

impl View for QuadratureDecoder {
    type V = GrayState;

    /// The phase of the sample taken last.
    closed spec fn view(&self) -> GrayState {
        self.last
    }
}

impl QuadratureDecoder {
    /// A decoder whose baseline is the current level of the lines. Nothing is
    /// emitted for the baseline.
    pub fn new(a: bool, b: bool) -> (d: Self)
        ensures
            d@ == phase_of(a, b),
    {
        QuadratureDecoder { last: GrayState::from_lines(a, b) }
    }

    /// The phase of the sample taken last.
    pub fn last(&self) -> (s: GrayState)
        ensures
            s == self@,
    {
        self.last
    }

    /// Takes one sample of the lines and says which way the shaft moved since
    /// the previous one. The new sample becomes the baseline of the next call
    /// whatever it decoded to.
    pub fn update(&mut self, a: bool, b: bool) -> (r: MicroRotation)
        ensures
            r == transition(old(self)@, phase_of(a, b)),
            final(self)@ == phase_of(a, b),
    {
        let now = GrayState::from_lines(a, b);
        let r = decode_transition(self.last, now);
        self.last = now;
        r
    }
}

} // verus!
