use crate::report::types::ReportDelta;
use vstd::prelude::*;

verus! {

/// `v` limited to the range of a report's `i8` movement.
pub open spec fn spec_clamp_i8(v: int) -> i8 {
    if v < -128 {
        -128i8
    } else if v > 127 {
        127i8
    } else {
        v as i8
    }
}

/// The movement the next report carries for pending counts `x`, `y`: each
/// limited to the `i8` range, or none when both come to zero.
pub open spec fn spec_peek_report(x: int, y: int) -> Option<ReportDelta> {
    if spec_clamp_i8(x) == 0 && spec_clamp_i8(y) == 0 {
        None
    } else {
        Some(ReportDelta { dx: spec_clamp_i8(x), dy: spec_clamp_i8(y) })
    }
}

/// Whole counts of pointer movement that no report has carried yet.
pub struct PendingMotion {
    pending_x: i32,
    pending_y: i32,
}

impl View for PendingMotion {
    type V = (int, int);

    closed spec fn view(&self) -> (int, int) {
        (self.pending_x as int, self.pending_y as int)
    }
}

fn clamp_i8(v: i32) -> (r: i8)
    ensures
        r == spec_clamp_i8(v as int),
{
    if v < -128 {
        -128
    } else if v > 127 {
        127
    } else {
        v as i8
    }
}

impl PendingMotion {
    pub fn new() -> (p: Self)
        ensures
            p@ == (0int, 0int),
    {
        PendingMotion { pending_x: 0, pending_y: 0 }
    }

    /// Adds whole counts that the motion produced.
    pub fn add(&mut self, dx: i32, dy: i32)
        requires
            i32::MIN <= old(self)@.0 + dx <= i32::MAX,
            i32::MIN <= old(self)@.1 + dy <= i32::MAX,
        ensures
            final(self)@ == (old(self)@.0 + dx, old(self)@.1 + dy),
    {
        self.pending_x = self.pending_x + dx;
        self.pending_y = self.pending_y + dy;
    }

    /// The movement the next report carries (see `spec_peek_report`).
    pub fn peek_report(&self) -> (r: Option<ReportDelta>)
        ensures
            r == spec_peek_report(self@.0, self@.1),
    {
        let dx = clamp_i8(self.pending_x);
        let dy = clamp_i8(self.pending_y);
        if dx == 0 && dy == 0 {
            None
        } else {
            Some(ReportDelta { dx, dy })
        }
    }

    /// Takes off what a sent report carried.
    pub fn commit_sent(&mut self, sent: ReportDelta)
        requires
            i32::MIN <= old(self)@.0 - sent.dx <= i32::MAX,
            i32::MIN <= old(self)@.1 - sent.dy <= i32::MAX,
        ensures
            final(self)@ == (old(self)@.0 - sent.dx, old(self)@.1 - sent.dy),
    {
        self.pending_x = self.pending_x - sent.dx as i32;
        self.pending_y = self.pending_y - sent.dy as i32;
    }

    pub fn clear_x_pending(&mut self)
        ensures
            final(self)@ == (0int, old(self)@.1),
    {
        self.pending_x = 0;
    }

    pub fn clear_y_pending(&mut self)
        ensures
            final(self)@ == (old(self)@.0, 0int),
    {
        self.pending_y = 0;
    }

    pub fn clear_pending(&mut self)
        ensures
            final(self)@ == (0int, 0int),
    {
        self.clear_x_pending();
        self.clear_y_pending();
    }

    pub fn has_pending(&self) -> (b: bool)
        ensures
            b == (self@.0 != 0 || self@.1 != 0),
    {
        self.pending_x != 0 || self.pending_y != 0
    }

    pub fn pending(&self) -> (p: (i32, i32))
        ensures
            p.0 == self@.0 && p.1 == self@.1,
    {
        (self.pending_x, self.pending_y)
    }
}

/// Sending what `peek_report` offers moves each pending count towards zero:
/// a count within the `i8` range is used up; a larger one keeps its sign and
/// shrinks by the most a report carries.
pub proof fn lemma_commit_peek_moves_to_zero(v: int)
    ensures
        -128 <= v <= 127 ==> v - spec_clamp_i8(v) == 0,
        v > 127 ==> v - spec_clamp_i8(v) == v - 127 && 0 < v - spec_clamp_i8(v) < v,
        v < -128 ==> v - spec_clamp_i8(v) == v + 128 && v < v - spec_clamp_i8(v) < 0,
{
}

} // verus!
