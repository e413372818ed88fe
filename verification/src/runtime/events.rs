use vstd::prelude::*;

use crate::sync::spsc::{valid_capacity, SpscQueue};

verus! {

pub const EVENT_QUEUE_CAPACITY: usize = 16;

/// What the interrupt side reports to the main loop.
#[derive(Clone, Copy, Debug, PartialEq, Eq, Structural)]
pub enum RuntimeEvent {
    BleConnected { timestamp: u32 },
    BleInputReady { timestamp: u32 },
    BleDisconnected { reason: u8, timestamp: u32 },
    DongleConnected { timestamp: u32 },
    DongleDisconnected { reason: u8, timestamp: u32 },
    UsbStateChanged { state: u8, timestamp: u32 },
    ButtonExti { button_id: u8, level: u8, timestamp: u32 },
    ModeSwitchExti { level: u8, timestamp: u32 },
    DebounceTick { timestamp: u32 },
    ImuInt { timestamp: u32 },
    ImuSample { raw_x: u16, raw_y: u16, raw_z: u16, timestamp: u32 },
    ImuFifoDone { status: u8, dropped_count: u16, timestamp: u32 },
    HidSendDone { route: u8, status: u8, timestamp: u32 },
    VendorReportRx { route: u8, len: u16, timestamp: u32 },
}

/// Event queue between interrupt handlers and the main loop: a ring of 16
/// slots, so at most 15 pending events.
pub struct EventQueue {
    inner: SpscQueue<RuntimeEvent, 16>,
}

#[derive(Clone, Copy, Debug, PartialEq, Eq, Structural)]
pub struct EventQueueStats {
    pub dropped: u32,
}

impl Default for EventQueueStats {
    fn default() -> (s: Self)
        ensures
            s.dropped == 0,
    {
        EventQueueStats { dropped: 0 }
    }
}

/// What `push` does to the waiting events: appends the event when fewer than
/// 15 wait, and says whether it did.
pub open spec fn spec_push_step(q: Seq<RuntimeEvent>, e: RuntimeEvent) -> (Seq<RuntimeEvent>, bool) {
    if q.len() < 15 {
        (q.push(e), true)
    } else {
        (q, false)
    }
}

/// What `pop` does to the waiting events: takes the oldest, if any.
pub open spec fn spec_pop_step(q: Seq<RuntimeEvent>) -> (Seq<RuntimeEvent>, Option<RuntimeEvent>) {
    if q.len() > 0 {
        (q.drop_first(), Some(q[0]))
    } else {
        (q, None)
    }
}

/// A call on the queue.
#[derive(Clone, Copy, Debug, PartialEq, Eq)]
pub enum QueueOp {
    Push(RuntimeEvent),
    Pop,
}

/// The effect of a sequence of calls on a queue holding `q0`: the events
/// then waiting, the events whose push was accepted, and the events that
/// pops returned, each in call order.
pub open spec fn spec_run(q0: Seq<RuntimeEvent>, ops: Seq<QueueOp>) -> (
    Seq<RuntimeEvent>,
    Seq<RuntimeEvent>,
    Seq<RuntimeEvent>,
)
    decreases ops.len(),
{
    if ops.len() == 0 {
        (q0, Seq::empty(), Seq::empty())
    } else {
        let (q, accepted, popped) = spec_run(q0, ops.drop_last());
        match ops.last() {
            QueueOp::Push(e) => {
                let (q2, ok) = spec_push_step(q, e);
                (q2, if ok {
                    accepted.push(e)
                } else {
                    accepted
                }, popped)
            },
            QueueOp::Pop => {
                let (q2, out) = spec_pop_step(q);
                (q2, accepted, match out {
                    Some(e) => popped.push(e),
                    None => popped,
                })
            },
        }
    }
}

/// First in, first out: from an empty queue, after any sequence of pushes
/// and pops, the events that pops returned are the accepted events in push
/// order, followed by those still waiting; so a pop returns nothing exactly
/// when every accepted event has been returned.
pub proof fn lemma_fifo(ops: Seq<QueueOp>)
    ensures
        ({
            let (q, accepted, popped) = spec_run(Seq::empty(), ops);
            &&& accepted == popped + q
            &&& (q.len() == 0 <==> popped.len() == accepted.len())
        }),
    decreases ops.len(),
{
    if ops.len() > 0 {
        lemma_fifo(ops.drop_last());
        let (q, accepted, popped) = spec_run(Seq::empty(), ops.drop_last());
        match ops.last() {
            QueueOp::Push(e) => {
                if q.len() < 15 {
                    assert(accepted.push(e) =~= popped + q.push(e));
                }
            },
            QueueOp::Pop => {
                if q.len() > 0 {
                    assert(accepted =~= popped.push(q[0]) + q.drop_first());
                }
            },
        }
    }
}

impl EventQueue {
    pub closed spec fn wf(&self) -> bool {
        self.inner.wf()
    }

    pub closed spec fn spec_dropped(&self) -> u32 {
        self.inner.spec_dropped()
    }

    pub fn new() -> (q: Self)
        ensures
            q.wf(),
            q@ == Seq::<RuntimeEvent>::empty(),
            q.spec_dropped() == 0,
    {
        proof {
            assert(valid_capacity(16)) by {
                assert((16u32 & 15u32) == 0) by (bit_vector);
            }
        }
        let filler = RuntimeEvent::VendorReportRx { route: 0, len: 0, timestamp: 0 };
        Self { inner: SpscQueue::from_array([filler; 16]) }
    }

    /// Queues `event`; `false`, and one more drop counted, when 15 events are
    /// already waiting.
    pub fn push(&mut self, event: RuntimeEvent) -> (accepted: bool)
        requires
            old(self).wf(),
        ensures
            final(self).wf(),
            accepted == (old(self)@.len() < 15),
            accepted ==> final(self)@ == old(self)@.push(event) && final(self).spec_dropped()
                == old(self).spec_dropped(),
            !accepted ==> final(self)@ == old(self)@ && final(self).spec_dropped() == old(
                self,
            ).spec_dropped().wrapping_add(1),
            (final(self)@, accepted) == spec_push_step(old(self)@, event),
    {
        self.inner.push(event)
    }

    /// Takes the oldest event.
    pub fn pop(&mut self) -> (event: Option<RuntimeEvent>)
        requires
            old(self).wf(),
        ensures
            final(self).wf(),
            final(self).spec_dropped() == old(self).spec_dropped(),
            old(self)@.len() == 0 ==> event is None && final(self)@ == old(self)@,
            old(self)@.len() > 0 ==> event == Some(old(self)@[0]) && final(self)@ == old(
                self,
            )@.drop_first(),
            (final(self)@, event) == spec_pop_step(old(self)@),
    {
        self.inner.pop()
    }

    pub fn is_empty(&self) -> (empty: bool)
        requires
            self.wf(),
        ensures
            empty == (self@.len() == 0),
    {
        self.inner.is_empty()
    }

    pub fn stats(&self) -> (s: EventQueueStats)
        ensures
            s.dropped == self.spec_dropped(),
    {
        EventQueueStats { dropped: self.inner.dropped() }
    }
}

impl View for EventQueue {
    type V = Seq<RuntimeEvent>;

    closed spec fn view(&self) -> Seq<RuntimeEvent> {
        self.inner@
    }
}

} // verus!
