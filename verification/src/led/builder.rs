use vstd::prelude::*;

use crate::led::{TICK_MS, VP_LED_PWM_CYCLE};

verus! {

/// One piece of an LED brightness sequence: a constant level, or a fade
/// between two levels, for a number of milliseconds.
#[derive(Clone, Copy, Debug, PartialEq, Eq, Structural)]
pub enum Segment {
    Level(u8, usize),
    Fade(u8, u8, usize),
}

/// PWM compare value for a brightness on the 0..=255 scale.
pub open spec fn spec_duty(value: int, scale: u32) -> u32 {
    ((value * scale) / 255) as u32
}

/// Brightness of frame `i` of a fade over `frames` frames, on a quadratic
/// curve: rising fades start slow, falling fades end slow.
pub open spec fn spec_fade_value(start: u8, end: u8, i: int, frames: int) -> int {
    if end > start {
        start + ((end - start) * i * i) / (frames * frames)
    } else {
        end + ((start - end) * (frames - i) * (frames - i)) / (frames * frames)
    }
}

/// The frames a fade produces.
pub open spec fn spec_fade_frames(start: u8, end: u8, frames: int, scale: u32) -> Seq<u32> {
    Seq::new(frames as nat, |i: int| spec_duty(spec_fade_value(start, end, i, frames), scale))
}

/// The frames a constant level produces.
pub open spec fn spec_level_frames(value: u8, frames: int, scale: u32) -> Seq<u32> {
    Seq::new(frames as nat, |i: int| spec_duty(value as int, scale))
}

/// A duration a level accepts: whole ticks, with room in the buffer.
pub open spec fn fits_level(pos: int, n: usize, time_ms: usize) -> bool {
    &&& time_ms % TICK_MS == 0
    &&& pos + time_ms / TICK_MS <= n
}

/// A duration a fade accepts: as for a level, and few enough frames that
/// the fade's curve, which squares the frame count, stays in `usize`.
pub open spec fn fits(pos: int, n: usize, time_ms: usize) -> bool {
    &&& fits_level(pos, n, time_ms)
    &&& (time_ms / TICK_MS) * (time_ms / TICK_MS) * 255 <= usize::MAX
}

/// Builds the PWM frame sequence of an LED pattern, one frame per tick.
pub struct LedSequenceBuilder<const N: usize> {
    data: [u32; N],
    pos: usize,
    scale: u32,
}

impl<const N: usize> LedSequenceBuilder<N> {
    /// Frames written so far, and past them only zeros.
    pub closed spec fn wf(&self) -> bool {
        &&& self.pos <= N
        &&& self.scale == VP_LED_PWM_CYCLE
        &&& forall|k: int| self.pos <= k < N ==> self.data@[k] == 0
    }

    pub closed spec fn spec_pos(&self) -> nat {
        self.pos as nat
    }

    pub fn new() -> (b: Self)
        ensures
            b.wf(),
            b@ == Seq::<u32>::empty(),
    {
        let b = Self { data: [0u32; N], pos: 0, scale: VP_LED_PWM_CYCLE };
        assert(b@ =~= Seq::<u32>::empty());
        b
    }

    pub fn apply(self, segment: Segment) -> (b: Self)
        requires
            self.wf(),
            segment matches Segment::Level(_, t) ==> fits_level(self@.len() as int, N, t),
            segment matches Segment::Fade(_, _, t) ==> fits(self@.len() as int, N, t),
        ensures
            b.wf(),
            segment matches Segment::Level(_, t) ==> b@.len() == self@.len() + t / TICK_MS,
            segment matches Segment::Fade(_, _, t) ==> b@.len() == self@.len() + t / TICK_MS,
            segment matches Segment::Level(v, t) ==> b@ == self@ + spec_level_frames(
                v,
                (t / TICK_MS) as int,
                VP_LED_PWM_CYCLE,
            ),
            segment matches Segment::Fade(s, e, t) ==> b@ == self@ + spec_fade_frames(
                s,
                e,
                (t / TICK_MS) as int,
                VP_LED_PWM_CYCLE,
            ),
    {
        match segment {
            Segment::Level(value, time_ms) => self.level(value, time_ms),
            Segment::Fade(start, end, time_ms) => self.fade(start, end, time_ms),
        }
    }

    /// Appends `time_ms / TICK_MS` frames at brightness `value`.
    pub fn level(self, value: u8, time_ms: usize) -> (b: Self)
        requires
            self.wf(),
            fits_level(self@.len() as int, N, time_ms),
        ensures
            b.wf(),
            b@.len() == self@.len() + time_ms / TICK_MS,
            b@ == self@ + spec_level_frames(value, (time_ms / TICK_MS) as int, VP_LED_PWM_CYCLE),
    {
        let mut b = self;
        let frames = time_ms / TICK_MS;
        let ghost start = b.pos;
        let duty: u32 = (value as u32 * b.scale) / 255;
        let mut i: usize = 0;
        while i < frames
            invariant
                b.wf(),
                0 <= i <= frames,
                frames == time_ms / TICK_MS,
                start + frames <= N,
                b.pos == start + i,
                duty == spec_duty(value as int, VP_LED_PWM_CYCLE),
                b@ == self@ + spec_level_frames(value, i as int, VP_LED_PWM_CYCLE),
            decreases frames - i,
        {
            let ghost before = b@;
            b.data[b.pos] = duty;
            b.pos = b.pos + 1;
            i = i + 1;
            assert(b@ =~= before.push(duty));
            assert(spec_level_frames(value, i as int, VP_LED_PWM_CYCLE) =~= spec_level_frames(
                value,
                i - 1,
                VP_LED_PWM_CYCLE,
            ).push(duty));
        }
        b
    }

    /// Appends a fade from `start` to `end` over `time_ms / TICK_MS` frames.
    pub fn fade(self, start: u8, end: u8, time_ms: usize) -> (b: Self)
        requires
            self.wf(),
            fits(self@.len() as int, N, time_ms),
        ensures
            b.wf(),
            b@.len() == self@.len() + time_ms / TICK_MS,
            b@ == self@ + spec_fade_frames(start, end, (time_ms / TICK_MS) as int, VP_LED_PWM_CYCLE),
    {
        let mut b = self;
        let frames = time_ms / TICK_MS;
        let ghost first = b.pos;
        let mut i: usize = 0;
        while i < frames
            invariant
                b.wf(),
                0 <= i <= frames,
                frames == time_ms / TICK_MS,
                frames * frames * 255 <= usize::MAX,
                first + frames <= N,
                b.pos == first + i,
                b@ == self@ + spec_fade_frames(start, end, frames as int, VP_LED_PWM_CYCLE).subrange(
                    0,
                    i as int,
                ),
            decreases frames - i,
        {
            let val: usize = if end > start {
                let diff = end as usize - start as usize;
                proof {
                    lemma_fade_step_bounds(diff as int, i as int, frames as int);
                }
                start as usize + (diff * i * i) / (frames * frames)
            } else {
                let diff = start as usize - end as usize;
                let j = frames - i;
                proof {
                    lemma_fade_step_bounds(diff as int, j as int, frames as int);
                }
                end as usize + (diff * j * j) / (frames * frames)
            };
            assert(val == spec_fade_value(start, end, i as int, frames as int));
            assert(val <= 255);
            let duty: u32 = (val as u32 * b.scale) / 255;
            let ghost before = b@;
            b.data[b.pos] = duty;
            b.pos = b.pos + 1;
            i = i + 1;
            assert(b@ =~= before.push(duty));
            assert(spec_fade_frames(start, end, frames as int, VP_LED_PWM_CYCLE).subrange(0, i as int)
                =~= spec_fade_frames(start, end, frames as int, VP_LED_PWM_CYCLE).subrange(
                0,
                i - 1,
            ).push(duty));
        }
        assert(spec_fade_frames(start, end, frames as int, VP_LED_PWM_CYCLE).subrange(
            0,
            frames as int,
        ) =~= spec_fade_frames(start, end, frames as int, VP_LED_PWM_CYCLE));
        b
    }

    /// Ends the sequence with a dark frame, so the output stays low once
    /// playback stops. Returns the frame count and the buffer.
    pub fn finish(self) -> (r: (usize, [u32; N]))
        requires
            self.wf(),
            self@.len() < N,
        ensures
            r.0 == self@.len() + 1,
            r.1@.subrange(0, r.0 as int) == self@.push(0),
            forall|k: int| r.0 <= k < N ==> r.1@[k] == 0,
    {
        let mut b = self;
        let ghost before = b@;
        b.data[b.pos] = 0;
        b.pos = b.pos + 1;
        assert(b.data@.subrange(0, b.pos as int) =~= before.push(0));
        (b.pos, b.data)
    }

    /// Ends a looping sequence: no dark frame is added.
    pub fn finish_loop(self) -> (r: (usize, [u32; N]))
        requires
            self.wf(),
        ensures
            r.0 == self@.len(),
            r.1@.subrange(0, r.0 as int) == self@,
            forall|k: int| r.0 <= k < N ==> r.1@[k] == 0,
    {
        (self.pos, self.data)
    }
}

impl<const N: usize> View for LedSequenceBuilder<N> {
    type V = Seq<u32>;

    /// The frames written so far.
    closed spec fn view(&self) -> Seq<u32> {
        self.data@.subrange(0, self.pos as int)
    }
}

proof fn lemma_fade_step_bounds(diff: int, i: int, frames: int)
    requires
        0 <= diff <= 255,
        0 <= i <= frames,
        frames > 0,
        frames * frames * 255 <= usize::MAX,
    ensures
        0 <= diff * i * i <= diff * frames * frames,
        diff * frames * frames <= usize::MAX,
        frames * frames > 0,
        (diff * i * i) / (frames * frames) <= diff,
        i * i <= frames * frames,
        diff * i <= usize::MAX,
{
    assert(0 <= i * i <= frames * frames) by (nonlinear_arith)
        requires
            0 <= i <= frames,
    ;
    assert(0 <= diff * (i * i) <= diff * (frames * frames)) by (nonlinear_arith)
        requires
            0 <= diff,
            0 <= i * i <= frames * frames,
    ;
    assert(diff * (frames * frames) <= 255 * (frames * frames)) by (nonlinear_arith)
        requires
            0 <= diff <= 255,
            0 <= frames * frames,
    ;
    assert(diff * i * i == diff * (i * i)) by (nonlinear_arith);
    assert(diff * frames * frames == diff * (frames * frames)) by (nonlinear_arith);
    assert(frames * frames * 255 == 255 * (frames * frames)) by (nonlinear_arith);
    assert(frames * frames > 0) by (nonlinear_arith)
        requires
            frames > 0,
    ;
    {
        assert((diff * (i * i)) / (frames * frames) <= diff) by (nonlinear_arith)
            requires
                0 <= diff * (i * i) <= diff * (frames * frames),
                frames * frames > 0,
                diff >= 0,
        ;
    }
    assert(diff * i <= diff * i * i || i == 0) by (nonlinear_arith)
        requires
            0 <= diff,
            0 <= i,
    ;
    assert(diff * i <= usize::MAX) by (nonlinear_arith)
        requires
            0 <= diff,
            0 <= i,
            diff * i * i <= usize::MAX,
            diff * i <= diff * i * i || i == 0,
            diff <= 255,
    ;
}

} // verus!
