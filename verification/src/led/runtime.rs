use vstd::prelude::*;

use crate::led::TICK_MS;

verus! {

/// A lasting LED indication.
#[derive(Debug, Clone, Copy, PartialEq, Eq, Structural)]
pub enum PersistentState {
    Charging,
    LowBattery,
}

/// What the board has to do with the status LED.
#[derive(Debug, Clone, Copy, PartialEq, Eq, Structural)]
pub enum LedCommand {
    /// Play the looping profile of the given indication.
    Play(PersistentState),
    /// Stop playback.
    Stop,
}

/// The command that shows a (possibly absent) lasting indication.
pub open spec fn spec_persistent_command(p: Option<PersistentState>) -> LedCommand {
    match p {
        Some(s) => LedCommand::Play(s),
        None => LedCommand::Stop,
    }
}

/// The transient deadline at `end` has not been reached at `now`.
pub open spec fn spec_transient_running(now: u32, end: u32) -> bool {
    now.wrapping_sub(end) >= 0x8000_0000
}

/// What a `LedManager` holds: the lasting indication, the end of the
/// transient pattern that plays (if any), the time of its last frame and
/// whether a tick has been asked for and not yet served.
pub struct LedModel {
    pub persistent: Option<PersistentState>,
    pub transient_end_ms: Option<u32>,
    pub last_frame_ms: Option<u32>,
    pub tick_scheduled: bool,
}

/// The state of a fresh manager.
pub open spec fn spec_idle_model() -> LedModel {
    LedModel { persistent: None, transient_end_ms: None, last_frame_ms: None, tick_scheduled: false }
}

/// `set_persistent`: the new state and the command it answers.
pub open spec fn spec_set_persistent_step(m: LedModel, state: Option<PersistentState>) -> (
    LedModel,
    Option<LedCommand>,
) {
    if m.persistent == state {
        (m, None)
    } else {
        (
            LedModel { persistent: state, ..m },
            if m.transient_end_ms is None {
                Some(spec_persistent_command(state))
            } else {
                None
            },
        )
    }
}

/// `begin_transient`: a pattern of `duration_ms` starts at `now`.
pub open spec fn spec_begin_transient_step(m: LedModel, duration_ms: u32, now: u32) -> LedModel {
    LedModel {
        transient_end_ms: Some(now.wrapping_add(duration_ms)),
        last_frame_ms: Some(now),
        tick_scheduled: false,
        ..m
    }
}

/// `clear_tick_scheduled`: the asked-for tick has been served.
pub open spec fn spec_clear_tick_step(m: LedModel) -> LedModel {
    LedModel { tick_scheduled: false, ..m }
}

/// The command that brings back the lasting indication when a transient ends:
/// a lasting pattern is played again; without one the transient fades out on
/// its own.
pub open spec fn spec_replay_command(p: Option<PersistentState>) -> Option<LedCommand> {
    match p {
        Some(s) => Some(LedCommand::Play(s)),
        None => None,
    }
}

/// `poll(now)`: the new state, whether one more tick is asked for, and the
/// command that the end of the transient brings.
pub open spec fn spec_poll_step(m: LedModel, now: u32) -> (LedModel, (bool, Option<LedCommand>)) {
    match m.transient_end_ms {
        None => (m, (false, None)),
        Some(end) => if spec_transient_running(now, end) {
            let last: u32 = match m.last_frame_ms {
                Some(l) => l,
                None => now,
            };
            let sched = m.last_frame_ms is Some && m.tick_scheduled;
            if !sched && now.wrapping_sub(last) >= TICK_MS {
                (
                    LedModel { last_frame_ms: Some(now), tick_scheduled: true, ..m },
                    (true, None),
                )
            } else {
                (LedModel { last_frame_ms: Some(last), tick_scheduled: sched, ..m }, (false, None))
            }
        } else {
            (
                LedModel { transient_end_ms: None, last_frame_ms: None, tick_scheduled: false, ..m },
                (false, spec_replay_command(m.persistent)),
            )
        },
    }
}

/// Arbitrates between lasting indications (charging, low battery) and
/// one-shot transient patterns, which take precedence while they play.
pub struct LedManager {
    persistent: Option<PersistentState>,
    transient_end_ms: Option<u32>,
    last_frame_ms: Option<u32>,
    tick_scheduled: bool,
}

impl View for LedManager {
    type V = LedModel;

    closed spec fn view(&self) -> LedModel {
        LedModel {
            persistent: self.persistent,
            transient_end_ms: self.transient_end_ms,
            last_frame_ms: self.last_frame_ms,
            tick_scheduled: self.tick_scheduled,
        }
    }
}

impl LedManager {
    pub open spec fn spec_persistent(&self) -> Option<PersistentState> {
        self@.persistent
    }

    pub open spec fn spec_transient_end_ms(&self) -> Option<u32> {
        self@.transient_end_ms
    }

    pub open spec fn spec_last_frame_ms(&self) -> Option<u32> {
        self@.last_frame_ms
    }

    pub open spec fn spec_tick_scheduled(&self) -> bool {
        self@.tick_scheduled
    }

    pub fn new() -> (m: Self)
        ensures
            m.spec_persistent() is None,
            m.spec_transient_end_ms() is None,
            m.spec_last_frame_ms() is None,
            !m.spec_tick_scheduled(),
            m@ == spec_idle_model(),
    {
        Self { persistent: None, transient_end_ms: None, last_frame_ms: None, tick_scheduled: false }
    }

    pub fn persistent(&self) -> (p: Option<PersistentState>)
        ensures
            p == self.spec_persistent(),
    {
        self.persistent
    }

    pub fn transient_end_ms(&self) -> (e: Option<u32>)
        ensures
            e == self.spec_transient_end_ms(),
    {
        self.transient_end_ms
    }

    pub fn clear_tick_scheduled(&mut self)
        ensures
            !final(self).spec_tick_scheduled(),
            final(self).spec_persistent() == old(self).spec_persistent(),
            final(self).spec_transient_end_ms() == old(self).spec_transient_end_ms(),
            final(self).spec_last_frame_ms() == old(self).spec_last_frame_ms(),
            final(self)@ == spec_clear_tick_step(old(self)@),
    {
        self.tick_scheduled = false;
    }

    /// Sets the lasting indication. Returns the command that shows it, unless
    /// nothing changed or a transient pattern is playing; the transient's end
    /// brings it up then.
    pub fn set_persistent(&mut self, state: Option<PersistentState>) -> (cmd: Option<LedCommand>)
        ensures
            final(self).spec_persistent() == state,
            final(self).spec_transient_end_ms() == old(self).spec_transient_end_ms(),
            final(self).spec_last_frame_ms() == old(self).spec_last_frame_ms(),
            final(self).spec_tick_scheduled() == old(self).spec_tick_scheduled(),
            cmd == (if old(self).spec_persistent() == state || old(
                self,
            ).spec_transient_end_ms() is Some {
                None
            } else {
                Some(spec_persistent_command(state))
            }),
            (final(self)@, cmd) == spec_set_persistent_step(old(self)@, state),
    {
        if self.persistent == state {
            return None;
        }
        self.persistent = state;
        if self.transient_end_ms.is_none() {
            Some(self.apply_persistent())
        } else {
            None
        }
    }

    /// A transient pattern of `duration_ms` starts playing at `now`.
    pub fn begin_transient(&mut self, duration_ms: u32, now: u32)
        ensures
            final(self).spec_persistent() == old(self).spec_persistent(),
            final(self).spec_transient_end_ms() == Some(now.wrapping_add(duration_ms)),
            final(self).spec_last_frame_ms() == Some(now),
            !final(self).spec_tick_scheduled(),
            final(self)@ == spec_begin_transient_step(old(self)@, duration_ms, now),
    {
        self.transient_end_ms = Some(now.wrapping_add(duration_ms));
        self.last_frame_ms = Some(now);
        self.tick_scheduled = false;
    }

    /// Advances the transient pattern to `now`. The first result asks for one
    /// more poll a tick later while the transient plays; the second is the
    /// command that brings back the lasting indication once it has ended.
    pub fn poll(&mut self, now: u32) -> (r: (bool, Option<LedCommand>))
        ensures
            final(self).spec_persistent() == old(self).spec_persistent(),
            old(self).spec_transient_end_ms() is None ==> r == (false, None::<LedCommand>)
                && *final(self) == *old(self),
            old(self).spec_transient_end_ms() matches Some(end) ==> {
                if spec_transient_running(now, end) {
                    let need = !old(self).spec_tick_scheduled() && (old(
                        self,
                    ).spec_last_frame_ms() matches Some(last) && now.wrapping_sub(last)
                        >= TICK_MS);
                    &&& r.1 is None
                    &&& r.0 == need
                    &&& final(self).spec_transient_end_ms() == Some(end)
                    &&& need ==> final(self).spec_last_frame_ms() == Some(now)
                        && final(self).spec_tick_scheduled()
                    &&& !need ==> final(self).spec_last_frame_ms() == (if old(
                        self,
                    ).spec_last_frame_ms() is None {
                        Some(now)
                    } else {
                        old(self).spec_last_frame_ms()
                    }) && final(self).spec_tick_scheduled() == (old(
                        self,
                    ).spec_last_frame_ms() is Some && old(self).spec_tick_scheduled())
                } else {
                    &&& !r.0
                    &&& final(self).spec_transient_end_ms() is None
                    &&& final(self).spec_last_frame_ms() is None
                    &&& !final(self).spec_tick_scheduled()
                    &&& r.1 == (match old(self).spec_persistent() {
                        Some(s) => Some(LedCommand::Play(s)),
                        None => None::<LedCommand>,
                    })
                }
            },
            (final(self)@, r) == spec_poll_step(old(self)@, now),
    {
        let end = match self.transient_end_ms {
            Some(end) => end,
            None => {
                return (false, None);
            },
        };

        if now.wrapping_sub(end) >= 0x8000_0000 {
            if self.last_frame_ms.is_none() {
                self.last_frame_ms = Some(now);
                self.tick_scheduled = false;
            }
            let frame_due = match self.last_frame_ms {
                Some(last) => now.wrapping_sub(last) >= TICK_MS as u32,
                None => true,
            };
            let need_schedule = !self.tick_scheduled && frame_due;
            if need_schedule {
                self.last_frame_ms = Some(now);
                self.tick_scheduled = true;
                return (true, None);
            }
            return (false, None);
        }

        self.transient_end_ms = None;
        self.last_frame_ms = None;
        self.tick_scheduled = false;

        // With a lasting indication, switch to it now; without one, let the
        // transient play out to its final dark frame.
        if self.persistent.is_some() {
            (false, Some(self.apply_persistent()))
        } else {
            (false, None)
        }
    }

    fn apply_persistent(&self) -> (cmd: LedCommand)
        ensures
            cmd == spec_persistent_command(self.spec_persistent()),
    {
        match self.persistent {
            Some(PersistentState::Charging) => LedCommand::Play(PersistentState::Charging),
            Some(PersistentState::LowBattery) => LedCommand::Play(PersistentState::LowBattery),
            None => LedCommand::Stop,
        }
    }
}

/// One call on a `LedManager`.
pub enum LedOp {
    SetPersistent(Option<PersistentState>),
    /// A transient of the given duration begins at the given time.
    BeginTransient(u32, u32),
    ClearTick,
    Poll(u32),
}

/// One call: the new state, whether a tick is asked for, and the LED command
/// that the call answers. Calls other than `poll` ask for no tick.
pub open spec fn spec_led_call(m: LedModel, op: LedOp) -> (LedModel, (bool, Option<LedCommand>)) {
    match op {
        LedOp::SetPersistent(state) => {
            let (m1, cmd) = spec_set_persistent_step(m, state);
            (m1, (false, cmd))
        },
        LedOp::BeginTransient(duration_ms, now) => (
            spec_begin_transient_step(m, duration_ms, now),
            (false, None),
        ),
        LedOp::ClearTick => (spec_clear_tick_step(m), (false, None)),
        LedOp::Poll(now) => spec_poll_step(m, now),
    }
}

/// The state after a sequence of calls.
pub open spec fn spec_led_run(m: LedModel, ops: Seq<LedOp>) -> LedModel
    decreases ops.len(),
{
    if ops.len() == 0 {
        m
    } else {
        spec_led_call(spec_led_run(m, ops.drop_last()), ops.last()).0
    }
}

/// Whether the last of the calls on a fresh manager was a poll that asked for a tick.
pub open spec fn spec_last_call_ticks(ops: Seq<LedOp>) -> bool {
    ops.len() > 0 && spec_led_call(spec_led_run(spec_idle_model(), ops.drop_last()), ops.last()).1.0
}

/// The time from which the next tick is paced, after calls on a fresh manager:
/// that at which the last transient began, or of the last poll that asked for
/// a tick, whichever came later.
pub open spec fn spec_tick_mark(ops: Seq<LedOp>) -> Option<u32>
    decreases ops.len(),
{
    if ops.len() == 0 {
        None
    } else {
        match ops.last() {
            LedOp::BeginTransient(_, now) => Some(now),
            LedOp::Poll(now) => if spec_last_call_ticks(ops) {
                Some(now)
            } else {
                spec_tick_mark(ops.drop_last())
            },
            _ => spec_tick_mark(ops.drop_last()),
        }
    }
}

/// Whether a poll has asked for a tick since the last transient began or the
/// last `clear_tick_scheduled`, after calls on a fresh manager.
pub open spec fn spec_tick_pending(ops: Seq<LedOp>) -> bool
    decreases ops.len(),
{
    if ops.len() == 0 {
        false
    } else {
        match ops.last() {
            LedOp::BeginTransient(_, _) => false,
            LedOp::ClearTick => false,
            LedOp::Poll(_) => spec_last_call_ticks(ops) || spec_tick_pending(ops.drop_last()),
            LedOp::SetPersistent(_) => spec_tick_pending(ops.drop_last()),
        }
    }
}

/// The lasting indication set last, if any was.
pub open spec fn spec_last_persistent(ops: Seq<LedOp>) -> Option<PersistentState>
    decreases ops.len(),
{
    if ops.len() == 0 {
        None
    } else {
        match ops.last() {
            LedOp::SetPersistent(state) => state,
            _ => spec_last_persistent(ops.drop_last()),
        }
    }
}

/// What a fresh manager holds after any calls: the lasting indication set
/// last; with no transient, no frame time and no tick outstanding; with one,
/// the pacing mark as its frame time and the outstanding tick as its flag.
proof fn lemma_led_history(ops: Seq<LedOp>)
    ensures
        ({
            let m = spec_led_run(spec_idle_model(), ops);
            &&& m.persistent == spec_last_persistent(ops)
            &&& m.transient_end_ms is None ==> m.last_frame_ms is None && !m.tick_scheduled
            &&& m.transient_end_ms is Some ==> spec_tick_mark(ops) is Some && m.last_frame_ms
                == spec_tick_mark(ops) && m.tick_scheduled == spec_tick_pending(ops)
        }),
    decreases ops.len(),
{
    if ops.len() > 0 {
        lemma_led_history(ops.drop_last());
    }
}

/// Tick pacing. After any calls on a fresh manager, while a transient runs a
/// poll asks for a tick exactly when no tick is outstanding and a tick has
/// passed since the transient began or since the last poll that asked for
/// one; asking makes the tick outstanding and moves the mark to now. With no
/// transient, a poll asks for nothing and changes nothing.
pub proof fn lemma_tick_pacing(ops: Seq<LedOp>, now: u32)
    ensures
        ({
            let m = spec_led_run(spec_idle_model(), ops);
            let (m1, r) = spec_poll_step(m, now);
            &&& m.transient_end_ms is Some && spec_transient_running(now, m.transient_end_ms->0)
                ==> {
                &&& spec_tick_mark(ops) is Some
                &&& r.0 == (!spec_tick_pending(ops) && now.wrapping_sub(spec_tick_mark(ops)->0)
                    >= TICK_MS)
                &&& r.1 is None
                &&& m1.transient_end_ms == m.transient_end_ms
                &&& m1.tick_scheduled == (r.0 || spec_tick_pending(ops))
                &&& r.0 ==> m1.last_frame_ms == Some(now)
            }
            &&& m.transient_end_ms is None ==> r == (false, None::<LedCommand>) && m1 == m
        }),
{
    lemma_led_history(ops);
}

/// The lasting indication. After any calls on a fresh manager it is the one
/// set last. Setting the same one again does nothing; setting another one
/// switches the LED at once when no transient runs, and makes no LED call
/// while one runs. A poll that finds the transient over plays the lasting
/// indication again, if there is one.
pub proof fn lemma_persistent_switching(ops: Seq<LedOp>, state: Option<PersistentState>, now: u32)
    ensures
        ({
            let m = spec_led_run(spec_idle_model(), ops);
            let (ms, cmd) = spec_set_persistent_step(m, state);
            let (mp, r) = spec_poll_step(m, now);
            &&& m.persistent == spec_last_persistent(ops)
            &&& state == spec_last_persistent(ops) ==> ms == m && cmd is None
            &&& state != spec_last_persistent(ops) ==> {
                &&& ms.persistent == state
                &&& ms.transient_end_ms == m.transient_end_ms
                &&& cmd == (if m.transient_end_ms is None {
                    Some(spec_persistent_command(state))
                } else {
                    None
                })
            }
            &&& m.transient_end_ms is Some && !spec_transient_running(now, m.transient_end_ms->0)
                ==> mp.transient_end_ms is None && r == (
                false,
                spec_replay_command(spec_last_persistent(ops)),
            )
        }),
{
    lemma_led_history(ops);
}

/// A time less than `duration_ms` after `now` comes before the end of a
/// transient begun at `now`.
proof fn lemma_before_end(now: u32, duration_ms: u32, x: u32)
    requires
        duration_ms < 0x8000_0000,
        x.wrapping_sub(now) < duration_ms,
    ensures
        spec_transient_running(x, now.wrapping_add(duration_ms)),
{
}

/// Calls that begin no transient, with polls only before its end, keep the
/// transient that ends at `end`.
proof fn lemma_transient_kept(m: LedModel, now: u32, duration_ms: u32, ops: Seq<LedOp>)
    requires
        duration_ms < 0x8000_0000,
        m.transient_end_ms == Some(now.wrapping_add(duration_ms)),
        forall|i: int| 0 <= i < ops.len() ==> !(ops[i] is BeginTransient),
        forall|i: int|
            0 <= i < ops.len() ==> (#[trigger] ops[i] matches LedOp::Poll(y) ==> y.wrapping_sub(
                now,
            ) < duration_ms),
    ensures
        spec_led_run(m, ops).transient_end_ms == m.transient_end_ms,
    decreases ops.len(),
{
    if ops.len() > 0 {
        let prev = ops.drop_last();
        assert forall|i: int| 0 <= i < prev.len() implies !(prev[i] is BeginTransient) by {
            assert(prev[i] == ops[i]);
        }
        assert forall|i: int| 0 <= i < prev.len() implies (#[trigger] prev[i] matches LedOp::Poll(
            y,
        ) ==> y.wrapping_sub(now) < duration_ms) by {
            assert(prev[i] == ops[i]);
        }
        lemma_transient_kept(m, now, duration_ms, prev);
        let last = ops[ops.len() - 1];
        if let LedOp::Poll(y) = last {
            lemma_before_end(now, duration_ms, y);
        }
    }
}

/// The transient window. A transient of `duration_ms` (under 2^31 ms) begun
/// at `now` replaces any transient that ran and keeps the lasting indication.
/// Calls that begin no other transient, with polls only at times less than
/// `duration_ms` after `now`, keep it. A poll at such a time keeps it running
/// and brings no command; a poll at or after its end (at most 2^31 - 1 ms
/// after it) ends it and plays the lasting indication again, if there is one.
pub proof fn lemma_transient_window(
    m: LedModel,
    duration_ms: u32,
    now: u32,
    ops: Seq<LedOp>,
    x: u32,
)
    requires
        duration_ms < 0x8000_0000,
        forall|i: int| 0 <= i < ops.len() ==> !(ops[i] is BeginTransient),
        forall|i: int|
            0 <= i < ops.len() ==> (#[trigger] ops[i] matches LedOp::Poll(y) ==> y.wrapping_sub(
                now,
            ) < duration_ms),
    ensures
        ({
            let end = now.wrapping_add(duration_ms);
            let mb = spec_begin_transient_step(m, duration_ms, now);
            let mo = spec_led_run(mb, ops);
            let (mp, r) = spec_poll_step(mo, x);
            &&& mb.persistent == m.persistent
            &&& mb.transient_end_ms == Some(end)
            &&& mo.transient_end_ms == Some(end)
            &&& x.wrapping_sub(now) < duration_ms ==> mp.transient_end_ms == Some(end) && r.1 is None
            &&& x.wrapping_sub(end) < 0x8000_0000 ==> mp.transient_end_ms is None && r == (
                false,
                spec_replay_command(mo.persistent),
            )
        }),
{
    let mb = spec_begin_transient_step(m, duration_ms, now);
    lemma_transient_kept(mb, now, duration_ms, ops);
    if x.wrapping_sub(now) < duration_ms {
        lemma_before_end(now, duration_ms, x);
    }
}

impl Default for LedManager {
    fn default() -> (m: Self)
        ensures
            m.spec_persistent() is None,
            m.spec_transient_end_ms() is None,
            m.spec_last_frame_ms() is None,
            !m.spec_tick_scheduled(),
    {
        Self::new()
    }
}

} // verus!
