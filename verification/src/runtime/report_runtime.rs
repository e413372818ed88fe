use vstd::prelude::*;

use crate::hid::types::{spec_pack, HidSendStatus, MouseButtons, MouseReport};
use crate::report::types::ReportDelta;

verus! {

pub open spec fn clamp_int(x: int, lo: int, hi: int) -> int {
    if x < lo {
        lo
    } else if x > hi {
        hi
    } else {
        x
    }
}

/// The wheel value a report carries for a pending amount.
pub open spec fn spec_report_wheel(pending: i16) -> i8 {
    clamp_int(pending as int, -127, 127) as i8
}

/// Wheel and button bookkeeping between mouse reports.
pub struct MouseReportRuntime {
    pending_wheel: i16,
    last_sent_buttons: u8,
}

impl MouseReportRuntime {
    /// Wheel steps not yet delivered.
    pub closed spec fn spec_pending_wheel(&self) -> i16 {
        self.pending_wheel
    }

    /// Button byte of the last report that went out.
    pub closed spec fn spec_last_sent_buttons(&self) -> u8 {
        self.last_sent_buttons
    }

    pub fn new() -> (r: Self)
        ensures
            r.spec_pending_wheel() == 0,
            r.spec_last_sent_buttons() == 0,
    {
        Self { pending_wheel: 0, last_sent_buttons: 0 }
    }

    pub fn pending_wheel(&self) -> (w: i16)
        ensures
            w == self.spec_pending_wheel(),
    {
        self.pending_wheel
    }

    pub fn reset_pending_output(&mut self)
        ensures
            final(self).spec_pending_wheel() == 0,
            final(self).spec_last_sent_buttons() == old(self).spec_last_sent_buttons(),
    {
        self.pending_wheel = 0;
    }

    /// Forgets which buttons the host has seen, so the next report resends
    /// them.
    pub fn reset_route_sync(&mut self)
        ensures
            final(self).spec_pending_wheel() == old(self).spec_pending_wheel(),
            final(self).spec_last_sent_buttons() == 0,
    {
        self.last_sent_buttons = 0;
    }

    pub fn reset_all(&mut self)
        ensures
            final(self).spec_pending_wheel() == 0,
            final(self).spec_last_sent_buttons() == 0,
    {
        self.reset_pending_output();
        self.reset_route_sync();
    }

    /// Adds wheel steps; the pending amount stays within one report byte.
    pub fn ingest_wheel_delta(&mut self, wheel_delta: i8)
        ensures
            final(self).spec_pending_wheel() == clamp_int(
                old(self).spec_pending_wheel() + wheel_delta,
                -128,
                127,
            ),
            final(self).spec_last_sent_buttons() == old(self).spec_last_sent_buttons(),
    {
        let sum: i32 = self.pending_wheel as i32 + wheel_delta as i32;
        let clamped: i32 = if sum < -128 {
            -128
        } else if sum > 127 {
            127
        } else {
            sum
        };
        self.pending_wheel = clamped as i16;
    }

    pub fn buttons_changed(&self, packed_buttons: u8) -> (changed: bool)
        ensures
            changed == (packed_buttons != self.spec_last_sent_buttons()),
    {
        packed_buttons != self.last_sent_buttons
    }

    /// The report to send now: the given buttons and motion, and as much of
    /// the pending wheel as one report carries.
    pub fn build_report(&self, buttons: MouseButtons, motion_delta: Option<ReportDelta>) -> (r:
        MouseReport)
        ensures
            r.buttons == buttons,
            r.wheel == spec_report_wheel(self.spec_pending_wheel()),
            motion_delta matches Some(d) ==> r.dx == d.dx && r.dy == d.dy,
            motion_delta is None ==> r.dx == 0 && r.dy == 0,
    {
        let p = self.pending_wheel;
        let wheel: i8 = if p < -127 {
            -127
        } else if p > 127 {
            127
        } else {
            p as i8
        };
        let (dx, dy) = match motion_delta {
            Some(delta) => (delta.dx, delta.dy),
            None => (0i8, 0i8),
        };
        MouseReport { buttons, dx, dy, wheel }
    }

    /// Records that `report` reached the host.
    pub fn commit_send(&mut self, report: &MouseReport)
        ensures
            final(self).spec_pending_wheel() == clamp_int(
                old(self).spec_pending_wheel() - report.wheel,
                i16::MIN as int,
                i16::MAX as int,
            ),
            final(self).spec_last_sent_buttons() == spec_pack(report.buttons),
    {
        let diff: i32 = self.pending_wheel as i32 - report.wheel as i32;
        let sat: i32 = if diff < i16::MIN as i32 {
            i16::MIN as i32
        } else if diff > i16::MAX as i32 {
            i16::MAX as i32
        } else {
            diff
        };
        self.pending_wheel = sat as i16;
        self.last_sent_buttons = report.buttons.pack();
    }
}

impl MouseReportRuntime {
    /// Whether a report is owed: motion waiting (`motion`), wheel steps
    /// waiting, buttons that differ from the last report sent, a retry, or a
    /// report marked dirty.
    pub fn send_needed(
        &self,
        motion: Option<ReportDelta>,
        packed_buttons: u8,
        hid_retry: bool,
        report_dirty: bool,
    ) -> (b: bool)
        ensures
            b == (motion is Some || self.spec_pending_wheel() != 0 || packed_buttons
                != self.spec_last_sent_buttons() || hid_retry || report_dirty),
    {
        motion.is_some() || self.pending_wheel != 0 || self.buttons_changed(packed_buttons)
            || hid_retry || report_dirty
    }

    /// Records the outcome of sending `report`: only a report that went out
    /// is committed. Returns the motion it carried, to be taken off the
    /// pending counts, when it went out.
    pub fn apply_send_status(&mut self, report: &MouseReport, status: HidSendStatus) -> (sent: Option<ReportDelta>)
        ensures
            status != HidSendStatus::Sent ==> sent is None && *final(self) == *old(self),
            status == HidSendStatus::Sent ==> sent == Some(ReportDelta { dx: report.dx, dy: report.dy })
                && final(self).spec_pending_wheel() == clamp_int(
                old(self).spec_pending_wheel() - report.wheel,
                i16::MIN as int,
                i16::MAX as int,
            ) && final(self).spec_last_sent_buttons() == spec_pack(report.buttons),
    {
        if status != HidSendStatus::Sent {
            return None;
        }
        self.commit_send(report);
        Some(ReportDelta { dx: report.dx, dy: report.dy })
    }
}

impl Default for MouseReportRuntime {
    fn default() -> (r: Self)
        ensures
            r.spec_pending_wheel() == 0,
            r.spec_last_sent_buttons() == 0,
    {
        Self::new()
    }
}

/// Wheel steps are never lost: after a sent report the pending amount shrinks
/// by exactly what the report carried, and a pending amount that fits one
/// report is then used up.
pub proof fn lemma_sent_wheel_is_consumed(pending: i16)
    requires
        -128 <= pending <= 127,
    ensures
        clamp_int(pending - spec_report_wheel(pending), i16::MIN as int, i16::MAX as int) == (
        if pending == -128 {
            -1int
        } else {
            0int
        }),
{
}

} // verus!
