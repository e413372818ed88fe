use vstd::prelude::*;

verus! {

/// Phase code of the two encoder lines: A is bit 1, B is bit 0.
pub open spec fn phase(enc_a: bool, enc_b: bool) -> u8 {
    ((if enc_a {
        2int
    } else {
        0int
    }) + (if enc_b {
        1int
    } else {
        0int
    })) as u8
}

/// Quarter-step direction of a move between two phase codes in the Gray
/// sequence 00, 10, 11, 01: +1 along it, -1 against it, 0 for no move or an
/// invalid jump.
pub open spec fn quad_delta(prev: u8, cur: u8) -> int {
    let t = prev * 4 + cur;
    if t == 2 || t == 11 || t == 13 || t == 4 {
        1
    } else if t == 1 || t == 7 || t == 14 || t == 8 {
        -1
    } else {
        0
    }
}

/// Quadrature decoder that reports one detent per four quarter steps.
#[derive(Debug, Clone)]
pub struct RotaryEncoder {
    prev_state: u8,
    accum: i8,
}

impl RotaryEncoder {
    pub closed spec fn spec_prev_state(&self) -> u8 {
        self.prev_state
    }

    /// Quarter steps counted towards the next detent.
    pub closed spec fn spec_accum(&self) -> i8 {
        self.accum
    }

    /// The previous phase is a phase code and fewer than four quarter steps
    /// are pending in either direction.
    pub open spec fn wf(&self) -> bool {
        &&& self.spec_prev_state() < 4
        &&& -4 < self.spec_accum() < 4
    }

    pub fn new() -> (e: Self)
        ensures
            e.wf(),
            e.spec_prev_state() == 0,
            e.spec_accum() == 0,
    {
        Self { prev_state: 0, accum: 0 }
    }

    pub fn accum(&self) -> (a: i8)
        ensures
            a == self.spec_accum(),
    {
        self.accum
    }

    /// Takes the current line levels as the reference phase and drops any
    /// partial step.
    pub fn sync(&mut self, enc_a: bool, enc_b: bool)
        ensures
            final(self).wf(),
            final(self).spec_prev_state() == phase(enc_a, enc_b),
            final(self).spec_accum() == 0,
    {
        self.prev_state = Self::phase_of(enc_a, enc_b);
        self.accum = 0;
    }

    fn phase_of(enc_a: bool, enc_b: bool) -> (p: u8)
        ensures
            p == phase(enc_a, enc_b),
            p < 4,
    {
        let hi: u8 = if enc_a {
            2
        } else {
            0
        };
        let lo: u8 = if enc_b {
            1
        } else {
            0
        };
        hi + lo
    }

    /// Feeds one sample of the lines. Returns +1 or -1 when four quarter
    /// steps in one direction complete a detent, else 0.
    pub fn update(&mut self, enc_a: bool, enc_b: bool) -> (detent: i8)
        requires
            old(self).wf(),
        ensures
            final(self).wf(),
            final(self).spec_prev_state() == phase(enc_a, enc_b),
            ({
                let sum = old(self).spec_accum() + quad_delta(
                    old(self).spec_prev_state(),
                    phase(enc_a, enc_b),
                );
                if sum >= 4 {
                    detent == 1 && final(self).spec_accum() == sum - 4
                } else if sum <= -4 {
                    detent == -1 && final(self).spec_accum() == sum + 4
                } else {
                    detent == 0 && final(self).spec_accum() == sum
                }
            }),
            (final(self).spec_prev_state(), final(self).spec_accum() as int, detent as int)
                == encoder_step(old(self).spec_prev_state(), old(self).spec_accum() as int, enc_a, enc_b),
    {
        let current_state = Self::phase_of(enc_a, enc_b);
        let state_transition: u8 = self.prev_state * 4 + current_state;

        let delta: i8 = if state_transition == 0b0010 || state_transition == 0b1011
            || state_transition == 0b1101 || state_transition == 0b0100 {
            1
        } else if state_transition == 0b0001 || state_transition == 0b0111 || state_transition
            == 0b1110 || state_transition == 0b1000 {
            -1
        } else {
            0
        };

        self.prev_state = current_state;
        self.accum = self.accum + delta;

        if self.accum >= 4 {
            self.accum = self.accum - 4;
            1
        } else if self.accum <= -4 {
            self.accum = self.accum + 4;
            -1
        } else {
            0
        }
    }
}

impl Default for RotaryEncoder {
    fn default() -> (e: Self)
        ensures
            e.wf(),
            e.spec_prev_state() == 0,
            e.spec_accum() == 0,
    {
        Self::new()
    }
}

/// One decoder step on the abstract state `(prev, accum)`: the new state and
/// the detent reported.
pub open spec fn encoder_step(prev: u8, accum: int, enc_a: bool, enc_b: bool) -> (u8, int, int) {
    let sum = accum + quad_delta(prev, phase(enc_a, enc_b));
    if sum >= 4 {
        (phase(enc_a, enc_b), sum - 4, 1)
    } else if sum <= -4 {
        (phase(enc_a, enc_b), sum + 4, -1)
    } else {
        (phase(enc_a, enc_b), sum, 0)
    }
}

/// A full clockwise Gray cycle 10, 11, 01, 00 from rest at 00 reports one
/// detent, on the last step, and returns to rest.
pub proof fn lemma_full_cycle_forward()
    ensures
        encoder_step(0, 0, true, false) == (2u8, 1int, 0int),
        encoder_step(2, 1, true, true) == (3u8, 2int, 0int),
        encoder_step(3, 2, false, true) == (1u8, 3int, 0int),
        encoder_step(1, 3, false, false) == (0u8, 0int, 1int),
{
}

/// A full counter-clockwise Gray cycle 01, 11, 10, 00 from rest at 00 reports
/// one detent backwards, on the last step, and returns to rest.
pub proof fn lemma_full_cycle_backward()
    ensures
        encoder_step(0, 0, false, true) == (1u8, -1int, 0int),
        encoder_step(1, -1, true, true) == (3u8, -2int, 0int),
        encoder_step(3, -2, true, false) == (2u8, -3int, 0int),
        encoder_step(2, -3, false, false) == (0u8, 0int, -1int),
{
}

/// Contact bounce between two neighbouring phases never adds up to a detent:
/// going there and back cancels out.
pub proof fn lemma_bounce_cancels(prev: u8, accum: int, enc_a: bool, enc_b: bool)
    requires
        prev < 4,
        -4 < accum < 4,
        quad_delta(prev, phase(enc_a, enc_b)) != 0,
        accum + quad_delta(prev, phase(enc_a, enc_b)) < 4,
        accum + quad_delta(prev, phase(enc_a, enc_b)) > -4,
    ensures
        quad_delta(phase(enc_a, enc_b), prev) == -quad_delta(prev, phase(enc_a, enc_b)),
        encoder_step(phase(enc_a, enc_b), accum + quad_delta(prev, phase(enc_a, enc_b)),
            prev >= 2, prev % 2 == 1) == (prev, accum, 0int),
{
    assert(phase(prev >= 2, prev % 2 == 1) == prev);
}

/// The decoder fed `samples` from phase `prev` with `accum` quarter steps
/// pending: its final phase, the pending quarter steps, the sum of the
/// detents it reported, and the net count of Gray quarter steps it saw
/// (forward minus backward; no move or a two-bit jump counts 0).
pub open spec fn encoder_run(prev: u8, accum: int, samples: Seq<(bool, bool)>) -> (u8, int, int, int)
    decreases samples.len(),
{
    if samples.len() == 0 {
        (prev, accum, 0, 0)
    } else {
        let (p, a, detents, steps) = encoder_run(prev, accum, samples.drop_last());
        let (p2, a2, det) = encoder_step(p, a, samples.last().0, samples.last().1);
        (p2, a2, detents + det, steps + quad_delta(p, phase(samples.last().0, samples.last().1)))
    }
}

/// One step from a sound state reports at most one detent either way and
/// keeps fewer than four quarter steps pending.
pub proof fn lemma_step_bounds(prev: u8, accum: int, enc_a: bool, enc_b: bool)
    requires
        prev < 4,
        -4 < accum < 4,
    ensures
        ({
            let (p, a, det) = encoder_step(prev, accum, enc_a, enc_b);
            &&& p < 4
            &&& -4 < a < 4
            &&& -1 <= det <= 1
            &&& a == accum + quad_delta(prev, phase(enc_a, enc_b)) - 4 * det
        }),
{
}

/// Detents follow the quarter steps: from rest (after `new` or `sync`), over
/// any sequence of samples, every result is -1, 0 or 1, and four times the
/// detents reported stays within three quarter steps of the net quarter
/// steps seen, the difference being what is still pending.
pub proof fn lemma_detents_track_steps(prev: u8, samples: Seq<(bool, bool)>)
    requires
        prev < 4,
    ensures
        ({
            let (p, a, detents, steps) = encoder_run(prev, 0, samples);
            &&& p < 4
            &&& -4 < a < 4
            &&& a == steps - 4 * detents
            &&& -3 <= steps - 4 * detents <= 3
        }),
        samples.len() > 0 ==> ({
            let (p, a, _, _) = encoder_run(prev, 0, samples.drop_last());
            -1 <= encoder_step(p, a, samples.last().0, samples.last().1).2 <= 1
        }),
    decreases samples.len(),
{
    if samples.len() > 0 {
        lemma_detents_track_steps(prev, samples.drop_last());
        let (p, a, detents, steps) = encoder_run(prev, 0, samples.drop_last());
        lemma_step_bounds(p, a, samples.last().0, samples.last().1);
    }
}

} // verus!
