//! The main loop's decisions: the plain state that the loop keeps (flags,
//! deadlines, link and power state, buttons) and what each event, command
//! result and poll step does to it. The board side performs the work each
//! step hands back: timers, LED playback, the IMU and the radio.
use crate::attitude::types::SflpGameRotationRaw;
use crate::hid::types::{HidSendStatus, MouseButtons};
use crate::input::types::{
    reports_change, spec_button_edge, spec_mapped_status, spec_sample, InputManager, InputStatus,
};
use crate::led::runtime::LedManager;
use crate::power::{spec_idle_ms, spec_power_target, spec_recheck_delay, PowerManager, PowerState};
use crate::route::{spec_usb_state_from_code, HidRoute, HidRouter, UsbState};
use crate::runtime::commands::{RuntimeCommand, RuntimeCommandResult};
use crate::runtime::deadline::{deadline_due, deadline_remaining_ms, spec_deadline_due};
use crate::runtime::events::RuntimeEvent;
use crate::runtime::flags::{DirtyFlags, LatestImuSample, PendingFlags};
use vstd::prelude::*;

verus! {

/// Delay before a report that the radio refused is tried again.
pub const HID_RETRY_DELAY_MS: u32 = 8;

/// Period of IMU FIFO reads while the device is active.
pub const IMU_POLL_ACTIVE_MS: u32 = 30;

/// Samples read from the IMU FIFO at most per request.
pub const IMU_FIFO_MAX_SAMPLES: u16 = 8;

/// Period of motion reports.
pub const MOTION_REPORT_MS: u32 = 10;

/// Whether the power manager runs at all.
pub const ENABLE_POWER_MANAGER: bool = true;

/// Whether the device may enter `Sleep`.
pub const ENABLE_SLEEP_POWER_STATE: bool = true;

/// The status the board side returns on success.
pub const VP_STATUS_OK: u8 = 0;

/// A transient LED pattern an event asks for.
#[derive(Clone, Copy, Debug, PartialEq, Eq, Structural)]
pub enum LedCue {
    Connected,
    Disconnected,
    Mode2g4,
    ModeBle,
}

/// What becomes of the attitude estimate after an event.
#[derive(Clone, Copy, Debug, PartialEq, Eq, Structural)]
pub enum AttitudeAction {
    Keep,
    Update(SflpGameRotationRaw),
    Clear,
}

/// The work an event leaves for the board side.
#[derive(Clone, Copy, Debug, PartialEq, Eq, Structural)]
pub struct EventEffects {
    /// Play this pattern and start its transient.
    pub led: Option<LedCue>,
    /// Start the debounce timer; when it starts, the input is dirty.
    pub start_debounce_timer: bool,
    /// Sample the buttons now (`debounce_tick`).
    pub debounce_tick: bool,
    /// Clear and unmask the IMU interrupt lines.
    pub rearm_imu_interrupts: bool,
    pub attitude: AttitudeAction,
    /// Ask for a poll after this many milliseconds.
    pub poll_after_ms: Option<u32>,
    /// Tell the vendor channel that a report arrived.
    pub vendor_rx: bool,
}

/// No work at all.
pub open spec fn no_effects() -> EventEffects {
    EventEffects {
        led: None,
        start_debounce_timer: false,
        debounce_tick: false,
        rearm_imu_interrupts: false,
        attitude: AttitudeAction::Keep,
        poll_after_ms: None,
        vendor_rx: false,
    }
}

/// A command to hand to the board side, and a poll to ask for.
#[derive(Clone, Copy, Debug, PartialEq, Eq)]
pub struct PollStep {
    pub command: Option<RuntimeCommand>,
    pub poll_after_ms: Option<u32>,
}

/// The outcome of a power check.
#[derive(Clone, Copy, Debug, PartialEq, Eq)]
pub struct PowerStep {
    /// A transition to request.
    pub command: Option<RuntimeCommand>,
    /// The device came back to `Active` from this state: restore the sensors
    /// (and wake from sleep when it was `Sleep`).
    pub restore_from: Option<PowerState>,
    /// Stop the LED playback.
    pub stop_led: bool,
    pub poll_after_ms: Option<u32>,
}

/// The polls a command result asks for.
#[derive(Clone, Copy, Debug, PartialEq, Eq, Structural)]
pub struct CommandFollowUp {
    /// Retry the refused report after this delay.
    pub retry_after_ms: Option<u32>,
    /// Read the IMU again after this delay.
    pub imu_poll_after_ms: Option<u32>,
    /// Check the power state again after this delay.
    pub power_poll_after_ms: Option<u32>,
    /// Poll again at once.
    pub request_poll: bool,
}

/// The plain state of the main loop.
pub struct RuntimeCore {
    pub router: HidRouter,
    pub power: PowerManager,
    pub input: InputManager,
    pub led_manager: LedManager,
    pub last_input_status: InputStatus,
    pub dirty: DirtyFlags,
    pub pending: PendingFlags,
    pub last_activity_ms: u32,
    pub power_recheck_deadline_ms: Option<u32>,
    pub imu_poll_deadline_ms: Option<u32>,
    pub motion_report_deadline_ms: Option<u32>,
    pub latest_imu_sample: LatestImuSample,
}

/// The time an event carries.
pub open spec fn event_timestamp(event: RuntimeEvent) -> u32 {
    match event {
        RuntimeEvent::BleConnected { timestamp } => timestamp,
        RuntimeEvent::BleInputReady { timestamp } => timestamp,
        RuntimeEvent::BleDisconnected { timestamp, .. } => timestamp,
        RuntimeEvent::DongleConnected { timestamp } => timestamp,
        RuntimeEvent::DongleDisconnected { timestamp, .. } => timestamp,
        RuntimeEvent::UsbStateChanged { timestamp, .. } => timestamp,
        RuntimeEvent::ButtonExti { timestamp, .. } => timestamp,
        RuntimeEvent::ModeSwitchExti { timestamp, .. } => timestamp,
        RuntimeEvent::DebounceTick { timestamp } => timestamp,
        RuntimeEvent::ImuInt { timestamp } => timestamp,
        RuntimeEvent::ImuSample { timestamp, .. } => timestamp,
        RuntimeEvent::ImuFifoDone { timestamp, .. } => timestamp,
        RuntimeEvent::HidSendDone { timestamp, .. } => timestamp,
        RuntimeEvent::VendorReportRx { timestamp, .. } => timestamp,
    }
}

/// `c` after activity at `ts`: the idle clock restarts and the power state
/// must be checked again.
pub open spec fn spec_marked(c: RuntimeCore, ts: u32) -> RuntimeCore {
    RuntimeCore {
        last_activity_ms: ts,
        power_recheck_deadline_ms: None,
        dirty: DirtyFlags { power: true, ..c.dirty },
        pending: PendingFlags { power_recheck: true, ..c.pending },
        ..c
    }
}

/// `c` after the next IMU read was scheduled from `base`: due a period
/// later while active, else not at all.
pub open spec fn spec_imu_scheduled(c: RuntimeCore, base: u32) -> RuntimeCore {
    RuntimeCore {
        imu_poll_deadline_ms: if c.power.spec_state() == PowerState::Active {
            Some(base.wrapping_add(IMU_POLL_ACTIVE_MS))
        } else {
            None
        },
        ..c
    }
}

/// The poll that scheduling the next IMU read asks for.
pub open spec fn spec_imu_poll_after(c: RuntimeCore) -> Option<u32> {
    if c.power.spec_state() == PowerState::Active {
        Some(IMU_POLL_ACTIVE_MS)
    } else {
        None
    }
}

/// Work that keeps the device from entering a low-power state, of the parts
/// the main loop keeps itself: pending work, unsent input or reports, a held
/// button.
pub open spec fn spec_core_blockers(c: RuntimeCore) -> bool {
    c.pending.events || c.pending.hid_retry || c.pending.imu_fifo_read || c.pending.vendor_rx
        || c.pending.config_save || c.dirty.input || c.dirty.report || c.last_input_status.left
        || c.last_input_status.right || c.last_input_status.middle || c.last_input_status.action
}

/// The next power check, from `now`, as the power manager decides it.
pub open spec fn spec_power_deadline(c: RuntimeCore, now: u32, config_dirty: bool) -> Option<u32> {
    match spec_recheck_delay(
        c.power.spec_config(),
        c.power.spec_state(),
        spec_idle_ms(now, c.last_activity_ms),
        config_dirty,
        c.router,
    ) {
        Some(d) => Some(now.wrapping_add(d)),
        None => None,
    }
}

/// What an event does to the loop's state and which work it hands back,
/// beyond counting as activity at its time.
pub open spec fn spec_event_applied(
    before: RuntimeCore,
    after: RuntimeCore,
    event: RuntimeEvent,
    fx: EventEffects,
) -> bool {
    let m = spec_marked(before, event_timestamp(event));
    match event {
        RuntimeEvent::BleConnected { .. } => {
            &&& after.router.spec_ble_connected()
            &&& !after.router.spec_ble_ready_flag()
            &&& after.router.spec_dongle_connected()
                == before.router.spec_dongle_connected()
            &&& after.router.spec_usb_state() == before.router.spec_usb_state()
            &&& after == (RuntimeCore { router: after.router, ..m })
            &&& fx == (EventEffects { led: Some(LedCue::Connected), ..no_effects() })
        },
        RuntimeEvent::BleInputReady { .. } => {
            &&& after.router.spec_ble_ready_flag()
                == before.router.spec_ble_connected()
            &&& after.router.spec_ble_connected()
                == before.router.spec_ble_connected()
            &&& after.router.spec_dongle_connected()
                == before.router.spec_dongle_connected()
            &&& after.router.spec_usb_state() == before.router.spec_usb_state()
            &&& after == (RuntimeCore {
                router: after.router,
                dirty: DirtyFlags { report: true, ..m.dirty },
                ..m
            })
            &&& fx == no_effects()
        },
        RuntimeEvent::BleDisconnected { .. } => {
            &&& !after.router.spec_ble_connected()
            &&& !after.router.spec_ble_ready_flag()
            &&& after.router.spec_dongle_connected()
                == before.router.spec_dongle_connected()
            &&& after.router.spec_usb_state() == before.router.spec_usb_state()
            &&& after == (RuntimeCore {
                router: after.router,
                dirty: DirtyFlags { report: true, ..m.dirty },
                ..m
            })
            &&& fx == (EventEffects { led: Some(LedCue::Disconnected), ..no_effects() })
        },
        RuntimeEvent::DongleConnected { .. } | RuntimeEvent::DongleDisconnected {
            ..
        } => {
            let connected = event is DongleConnected;
            &&& after.router.spec_dongle_connected() == connected
            &&& after.router.spec_ble_connected()
                == before.router.spec_ble_connected()
            &&& after.router.spec_ble_ready_flag()
                == before.router.spec_ble_ready_flag()
            &&& after.router.spec_usb_state() == before.router.spec_usb_state()
            &&& after == (RuntimeCore {
                router: after.router,
                dirty: DirtyFlags { report: true, ..m.dirty },
                ..m
            })
            &&& fx == (EventEffects {
                led: Some(
                    if connected {
                        LedCue::Connected
                    } else {
                        LedCue::Disconnected
                    },
                ),
                ..no_effects()
            })
        },
        RuntimeEvent::UsbStateChanged { state, .. } => {
            let usb = spec_usb_state_from_code(state);
            &&& after.router.spec_usb_state() == usb
            &&& after.router.spec_ble_connected()
                == before.router.spec_ble_connected()
            &&& after.router.spec_ble_ready_flag()
                == before.router.spec_ble_ready_flag()
            &&& after.router.spec_dongle_connected()
                == before.router.spec_dongle_connected()
            &&& after == (RuntimeCore {
                router: after.router,
                dirty: DirtyFlags { report: true, ..m.dirty },
                ..m
            })
            &&& fx == (EventEffects {
                led: if usb == UsbState::Configured {
                    Some(LedCue::Connected)
                } else if usb == UsbState::Detached {
                    Some(LedCue::Disconnected)
                } else {
                    None
                },
                ..no_effects()
            })
        },
        RuntimeEvent::ButtonExti { button_id, level, .. } => {
            &&& after.input.spec_inputs() == spec_button_edge(
                before.input.spec_inputs(),
                button_id,
                level != 0,
            )
            &&& after.input.spec_mapping() == before.input.spec_mapping()
            &&& after == (RuntimeCore { input: after.input, ..m })
            &&& fx == (EventEffects {
                start_debounce_timer: button_id < 6,
                ..no_effects()
            })
        },
        RuntimeEvent::ModeSwitchExti { level, .. } => {
            &&& after == (RuntimeCore {
                dirty: DirtyFlags { input: true, ..m.dirty },
                ..m
            })
            &&& fx == (EventEffects {
                led: Some(
                    if level != 0 {
                        LedCue::Mode2g4
                    } else {
                        LedCue::ModeBle
                    },
                ),
                ..no_effects()
            })
        },
        RuntimeEvent::DebounceTick { .. } => {
            &&& after == m
            &&& fx == (EventEffects { debounce_tick: true, ..no_effects() })
        },
        RuntimeEvent::ImuInt { timestamp } => {
            &&& after == (RuntimeCore {
                pending: PendingFlags { imu_fifo_read: false, ..m.pending },
                imu_poll_deadline_ms: Some(timestamp),
                ..m
            })
            &&& fx == (EventEffects { rearm_imu_interrupts: true, ..no_effects() })
        },
        RuntimeEvent::ImuSample { raw_x, raw_y, raw_z, timestamp } => {
            let raw = SflpGameRotationRaw { x: raw_x, y: raw_y, z: raw_z };
            &&& after == (RuntimeCore {
                latest_imu_sample: LatestImuSample {
                    raw,
                    timestamp_ms: timestamp,
                    valid: true,
                },
                dirty: DirtyFlags { motion: true, report: true, ..m.dirty },
                ..m
            })
            &&& fx == (EventEffects {
                attitude: AttitudeAction::Update(raw),
                ..no_effects()
            })
        },
        RuntimeEvent::ImuFifoDone { status, timestamp, .. } => {
            let cleared = RuntimeCore {
                pending: PendingFlags { imu_fifo_read: false, ..m.pending },
                latest_imu_sample: LatestImuSample {
                    valid: m.latest_imu_sample.valid && status == VP_STATUS_OK,
                    ..m.latest_imu_sample
                },
                ..m
            };
            &&& after == spec_imu_scheduled(cleared, timestamp)
            &&& fx == (EventEffects {
                attitude: if status == VP_STATUS_OK {
                    AttitudeAction::Keep
                } else {
                    AttitudeAction::Clear
                },
                poll_after_ms: spec_imu_poll_after(before),
                ..no_effects()
            })
        },
        RuntimeEvent::HidSendDone { .. } => {
            &&& after == (RuntimeCore {
                pending: PendingFlags { hid_retry: true, ..m.pending },
                ..m
            })
            &&& fx == no_effects()
        },
        RuntimeEvent::VendorReportRx { .. } => {
            &&& after == (RuntimeCore {
                pending: PendingFlags { vendor_rx: true, ..m.pending },
                ..m
            })
            &&& fx == (EventEffects { vendor_rx: true, ..no_effects() })
        },
    }
    }

/// A held button keeps the device out of low power: whenever the left,
/// right, middle or action function is held in the last input status, the
/// loop's own blockers are in force, whatever else is pending.
pub proof fn lemma_held_button_blocks_low_power(c: RuntimeCore)
    ensures
        c.last_input_status.left || c.last_input_status.right || c.last_input_status.middle
            || c.last_input_status.action ==> spec_core_blockers(c),
{
}

/// A finished IMU FIFO read. When it succeeded the attitude is kept and the
/// latest sample stays as valid as it was; when it failed the attitude is
/// cleared and the latest sample is no longer valid. Either way the read is
/// no longer pending.
pub proof fn lemma_fifo_done_keeps_good_sample(before: RuntimeCore, event: RuntimeEvent)
    ensures
        forall|after: RuntimeCore, fx: EventEffects|
            #![trigger spec_event_applied(before, after, event, fx)]
            spec_event_applied(before, after, event, fx) ==> match event {
                RuntimeEvent::ImuFifoDone { status, .. } => {
                    &&& !after.pending.imu_fifo_read
                    &&& status == VP_STATUS_OK ==> fx.attitude == AttitudeAction::Keep
                        && after.latest_imu_sample.valid == before.latest_imu_sample.valid
                    &&& status != VP_STATUS_OK ==> fx.attitude == AttitudeAction::Clear
                        && !after.latest_imu_sample.valid
                },
                _ => true,
            },
{
}

impl RuntimeCore {
    /// The state the main loop relies on: the button manager is sound.
    pub open spec fn wf(&self) -> bool {
        self.input.wf()
    }

    /// The state at start-up, at time `now`: nothing pending, IMU reads and
    /// motion reports due at once, no power check scheduled.
    pub fn new(now: u32, input: InputManager, initial_input: InputStatus) -> (c: Self)
        requires
            input.wf(),
        ensures
            c.wf(),
            c.input == input,
            c.last_input_status == initial_input,
            c.power.spec_state() == PowerState::Active,
            c.router.spec_usb_state() == UsbState::Detached,
            !c.router.spec_ble_connected() && !c.router.spec_dongle_connected(),
            !c.dirty.any() && !c.pending.any(),
            c.last_activity_ms == now,
            c.power_recheck_deadline_ms is None,
            c.imu_poll_deadline_ms == Some(now),
            c.motion_report_deadline_ms == Some(now),
            !c.latest_imu_sample.valid,
    {
        RuntimeCore {
            router: HidRouter::new(),
            power: PowerManager::new(),
            input,
            led_manager: LedManager::new(),
            last_input_status: initial_input,
            dirty: DirtyFlags::default(),
            pending: PendingFlags::default(),
            last_activity_ms: now,
            power_recheck_deadline_ms: None,
            imu_poll_deadline_ms: Some(now),
            motion_report_deadline_ms: Some(now),
            latest_imu_sample: LatestImuSample::default(),
        }
    }

    /// Activity at `timestamp_ms`: the idle clock restarts and the power
    /// state must be checked again.
    pub fn mark_activity(&mut self, timestamp_ms: u32)
        ensures
            *final(self) == spec_marked(*old(self), timestamp_ms),
    {
        self.last_activity_ms = timestamp_ms;
        self.power_recheck_deadline_ms = None;
        self.dirty.power = true;
        self.pending.power_recheck = true;
    }

    /// The IMU is read only while the device is active.
    pub fn imu_poll_enabled(&self) -> (b: bool)
        ensures
            b == (self.power.spec_state() == PowerState::Active),
    {
        self.power.state() == PowerState::Active
    }

    /// Schedules the next IMU read a period after `base_timestamp_ms`; when
    /// the device is not active, none is scheduled. Returns whether one was.
    pub fn schedule_imu_poll_deadline(&mut self, base_timestamp_ms: u32) -> (scheduled: bool)
        ensures
            *final(self) == spec_imu_scheduled(*old(self), base_timestamp_ms),
            scheduled == (old(self).power.spec_state() == PowerState::Active),
    {
        if !self.imu_poll_enabled() {
            self.imu_poll_deadline_ms = None;
            return false;
        }
        let deadline = base_timestamp_ms.wrapping_add(IMU_POLL_ACTIVE_MS);
        self.imu_poll_deadline_ms = Some(deadline);
        true
    }

    /// Starts an IMU read when one is due: not while inactive, not while one
    /// is already under way. When it is not yet due, asks for a poll at its
    /// deadline.
    pub fn maybe_start_imu_poll(&mut self, now: u32) -> (step: PollStep)
        ensures
            old(self).power.spec_state() != PowerState::Active ==> step == (PollStep {
                command: None,
                poll_after_ms: None,
            }) && *final(self) == (RuntimeCore { imu_poll_deadline_ms: None, ..*old(self) }),
            old(self).power.spec_state() == PowerState::Active && old(self).pending.imu_fifo_read
                ==> step == (PollStep { command: None, poll_after_ms: None }) && *final(self)
                == *old(self),
            old(self).power.spec_state() == PowerState::Active && !old(self).pending.imu_fifo_read
                ==> ({
                let deadline = match old(self).imu_poll_deadline_ms {
                    Some(d) => d,
                    None => now,
                };
                if spec_deadline_due(now, deadline) {
                    step == (PollStep {
                        command: Some(
                            RuntimeCommand::ReadImuFifo { max_samples: IMU_FIFO_MAX_SAMPLES },
                        ),
                        poll_after_ms: None,
                    }) && *final(self) == (RuntimeCore {
                        pending: PendingFlags { imu_fifo_read: true, ..old(self).pending },
                        imu_poll_deadline_ms: Some(now.wrapping_add(IMU_POLL_ACTIVE_MS)),
                        ..*old(self)
                    })
                } else {
                    step.command is None && step.poll_after_ms == Some(
                        deadline.wrapping_sub(now),
                    ) && *final(self) == *old(self)
                }
            }),
    {
        if !self.imu_poll_enabled() {
            self.imu_poll_deadline_ms = None;
            return PollStep { command: None, poll_after_ms: None };
        }
        if self.pending.imu_fifo_read {
            return PollStep { command: None, poll_after_ms: None };
        }
        let deadline = match self.imu_poll_deadline_ms {
            Some(d) => d,
            None => now,
        };
        if !deadline_due(now, deadline) {
            return PollStep { command: None, poll_after_ms: Some(deadline_remaining_ms(now, deadline)) };
        }
        self.pending.imu_fifo_read = true;
        self.imu_poll_deadline_ms = Some(now.wrapping_add(IMU_POLL_ACTIVE_MS));
        PollStep {
            command: Some(RuntimeCommand::ReadImuFifo { max_samples: IMU_FIFO_MAX_SAMPLES }),
            poll_after_ms: None,
        }
    }

    /// The step of a pass after input and HID have had their turn and no IMU
    /// read was started: a pending FIFO read is asked for again, and nothing
    /// else happens in this pass; otherwise the configuration-save request and
    /// the configuration's dirty mark are cleared and the pass goes on to the
    /// power check.
    pub fn imu_read_or_settle_config(&mut self) -> (cmd: Option<RuntimeCommand>)
        ensures
            old(self).pending.imu_fifo_read ==> cmd == Some(
                RuntimeCommand::ReadImuFifo { max_samples: IMU_FIFO_MAX_SAMPLES },
            ) && *final(self) == *old(self),
            !old(self).pending.imu_fifo_read ==> cmd is None && *final(self) == (RuntimeCore {
                pending: PendingFlags { config_save: false, ..old(self).pending },
                dirty: DirtyFlags { config: false, ..old(self).dirty },
                ..*old(self)
            }),
    {
        if self.pending.imu_fifo_read {
            return Some(RuntimeCommand::ReadImuFifo { max_samples: IMU_FIFO_MAX_SAMPLES });
        }
        self.pending.config_save = false;
        self.dirty.config = false;
        None
    }

    /// A refused report is retried after a short delay; any other outcome
    /// ends the retry. Returns the delay of the retry poll.
    pub fn handle_hid_send_status(&mut self, status: HidSendStatus) -> (retry_after_ms: Option<
        u32,
    >)
        ensures
            *final(self) == (RuntimeCore {
                pending: PendingFlags {
                    hid_retry: status == HidSendStatus::RetryLater,
                    ..old(self).pending
                },
                ..*old(self)
            }),
            retry_after_ms == (if status == HidSendStatus::RetryLater {
                Some(HID_RETRY_DELAY_MS)
            } else {
                None
            }),
    {
        match status {
            HidSendStatus::Sent | HidSendStatus::NotConnected | HidSendStatus::Fatal => {
                self.pending.hid_retry = false;
                None
            },
            HidSendStatus::RetryLater => {
                self.pending.hid_retry = true;
                Some(HID_RETRY_DELAY_MS)
            },
        }
    }

    /// The poll that re-checks the power state at its deadline, when the
    /// power manager runs and a check is scheduled.
    pub fn reschedule_power_recheck_deadline(&self, now: u32) -> (poll_after_ms: Option<u32>)
        ensures
            poll_after_ms == (match self.power_recheck_deadline_ms {
                Some(d) => if ENABLE_POWER_MANAGER {
                    Some(
                        if spec_deadline_due(now, d) {
                            1u32
                        } else {
                            d.wrapping_sub(now)
                        },
                    )
                } else {
                    None
                },
                None => None,
            }),
    {
        if !ENABLE_POWER_MANAGER {
            return None;
        }
        match self.power_recheck_deadline_ms {
            Some(deadline) => Some(deadline_remaining_ms(now, deadline)),
            None => None,
        }
    }

    /// Records what came of a command, at time `now`. Sending a report ends
    /// any retry unless the radio asked for one; a power request's result
    /// becomes the power state; a refused IMU read is rescheduled.
    pub fn apply_command_result(&mut self, result: RuntimeCommandResult, now: u32) -> (follow: CommandFollowUp)
        ensures
            match result {
                RuntimeCommandResult::MouseSent { status, .. } => {
                    &&& *final(self) == (RuntimeCore {
                        dirty: DirtyFlags { report: false, ..old(self).dirty },
                        pending: PendingFlags {
                            hid_retry: status == HidSendStatus::RetryLater,
                            ..old(self).pending
                        },
                        ..*old(self)
                    })
                    &&& follow.retry_after_ms == (if status == HidSendStatus::RetryLater {
                        Some(HID_RETRY_DELAY_MS)
                    } else {
                        None
                    })
                    &&& follow.imu_poll_after_ms is None
                },
                RuntimeCommandResult::VendorSent { status, .. } => {
                    &&& *final(self) == (RuntimeCore {
                        pending: PendingFlags {
                            hid_retry: status == HidSendStatus::RetryLater,
                            ..old(self).pending
                        },
                        ..*old(self)
                    })
                    &&& follow.retry_after_ms == (if status == HidSendStatus::RetryLater {
                        Some(HID_RETRY_DELAY_MS)
                    } else {
                        None
                    })
                    &&& follow.imu_poll_after_ms is None
                },
                RuntimeCommandResult::PowerStateRequestDone { target, accepted } => {
                    &&& final(self).power.spec_state() == (if accepted {
                        target
                    } else {
                        PowerState::Active
                    })
                    &&& final(self).power.spec_config() == old(self).power.spec_config()
                    &&& *final(self) == (RuntimeCore {
                        power: final(self).power,
                        power_recheck_deadline_ms: None,
                        pending: PendingFlags { power_recheck: false, ..old(self).pending },
                        dirty: DirtyFlags { power: false, ..old(self).dirty },
                        ..*old(self)
                    })
                    &&& follow.retry_after_ms is None
                    &&& follow.imu_poll_after_ms is None
                },
                RuntimeCommandResult::ImuFifoReadRequested { status } => {
                    &&& follow.retry_after_ms is None
                    &&& if status == VP_STATUS_OK {
                        &&& *final(self) == *old(self)
                        &&& follow.imu_poll_after_ms is None
                    } else {
                        &&& *final(self) == spec_imu_scheduled(
                            RuntimeCore {
                                pending: PendingFlags { imu_fifo_read: false, ..old(self).pending },
                                ..*old(self)
                            },
                            now,
                        )
                        &&& follow.imu_poll_after_ms == spec_imu_poll_after(*old(self))
                    }
                },
            },
            follow.power_poll_after_ms == (if final(self).pending.hid_retry {
                None
            } else {
                match final(self).power_recheck_deadline_ms {
                    Some(d) => Some(
                        if spec_deadline_due(now, d) {
                            1u32
                        } else {
                            d.wrapping_sub(now)
                        },
                    ),
                    None => None,
                }
            }),
            follow.request_poll == (final(self).pending.any() || final(self).dirty.any()),
    {
        let mut retry_after_ms: Option<u32> = None;
        let mut imu_poll_after_ms: Option<u32> = None;
        match result {
            RuntimeCommandResult::MouseSent { status, .. } => {
                self.dirty.report = false;
                retry_after_ms = self.handle_hid_send_status(status);
            },
            RuntimeCommandResult::VendorSent { status, .. } => {
                retry_after_ms = self.handle_hid_send_status(status);
            },
            RuntimeCommandResult::PowerStateRequestDone { target, accepted } => {
                self.power_recheck_deadline_ms = None;
                self.power.apply_request_result(target, accepted);
                self.pending.power_recheck = false;
                self.dirty.power = false;
            },
            RuntimeCommandResult::ImuFifoReadRequested { status } => {
                if status != VP_STATUS_OK {
                    self.pending.imu_fifo_read = false;
                    if self.schedule_imu_poll_deadline(now) {
                        imu_poll_after_ms = Some(IMU_POLL_ACTIVE_MS);
                    }
                }
            },
        }
        let power_poll_after_ms = if !self.pending.hid_retry {
            self.reschedule_power_recheck_deadline(now)
        } else {
            None
        };
        let request_poll = self.pending.any() || self.dirty.any();
        CommandFollowUp { retry_after_ms, imu_poll_after_ms, power_poll_after_ms, request_poll }
    }

    /// Schedules the next power check from the power manager's view at
    /// `now`; returns the delay to poll after, if any.
    pub fn arm_power_recheck_deadline(&mut self, now: u32, effective_config_dirty: bool) -> (poll_after_ms: Option<u32>)
        ensures
            *final(self) == (RuntimeCore {
                power_recheck_deadline_ms: spec_power_deadline(
                    *old(self),
                    now,
                    effective_config_dirty,
                ),
                ..*old(self)
            }),
            poll_after_ms == spec_recheck_delay(
                old(self).power.spec_config(),
                old(self).power.spec_state(),
                spec_idle_ms(now, old(self).last_activity_ms),
                effective_config_dirty,
                old(self).router,
            ),
    {
        let next_delay = self.power.next_recheck_delay_ms(
            now,
            self.last_activity_ms,
            effective_config_dirty,
            &self.router,
        );
        match next_delay {
            Some(delay_ms) => {
                self.power_recheck_deadline_ms = Some(now.wrapping_add(delay_ms));
                Some(delay_ms)
            },
            None => {
                self.power_recheck_deadline_ms = None;
                None
            },
        }
    }

    /// The parts of the sensor state that restart when the device becomes
    /// active again at `now`: the last sample is dropped and the IMU read
    /// and the motion report are due at once.
    pub fn restore_active_runtime_state(&mut self, now: u32)
        ensures
            *final(self) == (RuntimeCore {
                latest_imu_sample: LatestImuSample {
                    raw: SflpGameRotationRaw { x: 0, y: 0, z: 0 },
                    timestamp_ms: 0,
                    valid: false,
                },
                motion_report_deadline_ms: Some(now),
                imu_poll_deadline_ms: Some(now),
                ..*old(self)
            }),
    {
        self.latest_imu_sample = LatestImuSample::default();
        self.motion_report_deadline_ms = Some(now);
        self.imu_poll_deadline_ms = Some(now);
    }

    /// Whether anything keeps the device from a low-power state: the loop's
    /// own pending work (see `spec_core_blockers`) or `external`, what the
    /// configuration store, the vendor channel, the motion session and the
    /// report state hold.
    pub fn power_has_blockers(&self, external: bool) -> (b: bool)
        ensures
            b == (spec_core_blockers(*self) || external),
            self.last_input_status.left || self.last_input_status.right
                || self.last_input_status.middle || self.last_input_status.action ==> b,
    {
        proof {
            lemma_held_button_blocks_low_power(*self);
        }
        let buttons_pressed = self.last_input_status.left || self.last_input_status.right
            || self.last_input_status.middle || self.last_input_status.action;
        self.pending.events || self.pending.hid_retry || self.pending.imu_fifo_read
            || self.pending.vendor_rx || self.pending.config_save || self.dirty.input
            || self.dirty.report || buttons_pressed || external
    }

    /// Checks the power state at `now`.
    ///
    /// Before its deadline nothing happens but a poll at the deadline. Else
    /// the pending recheck is consumed; while anything blocks low power the device is
    /// made active and no transition is requested; otherwise the power
    /// manager decides, with a pending configuration save (or sleep being
    /// disabled) keeping the device awake. The next check is scheduled.
    pub fn poll_power(&mut self, now: u32, external_blockers: bool, config_store_dirty: bool) -> (step: PowerStep)
        requires
            old(self).wf(),
        ensures
            final(self).wf(),
            (match old(self).power_recheck_deadline_ms {
                Some(d) => !spec_deadline_due(now, d),
                None => false,
            }) ==> *final(self) == *old(self) && step.command is None && step.restore_from is None
                && !step.stop_led && step.poll_after_ms == Some(
                old(self).power_recheck_deadline_ms.unwrap().wrapping_sub(now),
            ),
            (match old(self).power_recheck_deadline_ms {
                Some(d) => spec_deadline_due(now, d),
                None => true,
            }) ==> ({
                let config_dirty = old(self).pending.config_save || old(self).dirty.config
                    || config_store_dirty || !ENABLE_SLEEP_POWER_STATE;
                let prev = old(self).power.spec_state();
                &&& !final(self).pending.power_recheck
                &&& !final(self).dirty.power
                &&& final(self).power.spec_config() == old(self).power.spec_config()
                &&& final(self).last_activity_ms == old(self).last_activity_ms
                &&& final(self).router == old(self).router
                &&& final(self).input == old(self).input
                &&& final(self).led_manager == old(self).led_manager
                &&& final(self).last_input_status == old(self).last_input_status
                &&& final(self).imu_poll_deadline_ms == old(self).imu_poll_deadline_ms
                &&& final(self).motion_report_deadline_ms == old(self).motion_report_deadline_ms
                &&& final(self).latest_imu_sample == old(self).latest_imu_sample
                &&& final(self).pending == (PendingFlags {
                    power_recheck: false,
                    ..old(self).pending
                })
                &&& final(self).dirty == (DirtyFlags { power: false, ..old(self).dirty })
                &&& final(self).power_recheck_deadline_ms == spec_power_deadline(
                    *final(self),
                    now,
                    config_dirty,
                )
                &&& step.poll_after_ms == spec_recheck_delay(
                    final(self).power.spec_config(),
                    final(self).power.spec_state(),
                    spec_idle_ms(now, old(self).last_activity_ms),
                    config_dirty,
                    old(self).router,
                )
                &&& if spec_core_blockers(*old(self)) || external_blockers {
                    &&& final(self).power.spec_state() == PowerState::Active
                    &&& step.command is None
                    &&& !step.stop_led
                    &&& step.restore_from == (if prev != PowerState::Active {
                        Some(prev)
                    } else {
                        None
                    })
                } else if old(self).router.spec_usb_configured() {
                    &&& final(self).power.spec_state() == PowerState::Active
                    &&& step.command is None
                    &&& !step.stop_led
                    &&& step.restore_from == (if prev != PowerState::Active {
                        Some(prev)
                    } else {
                        None
                    })
                } else {
                    let target = spec_power_target(
                        old(self).power.spec_config(),
                        spec_idle_ms(now, old(self).last_activity_ms),
                        config_dirty,
                        old(self).router,
                    );
                    if target == prev {
                        &&& final(self).power.spec_state() == prev
                        &&& step.command is None
                        &&& !step.stop_led
                        &&& step.restore_from is None
                    } else if target == PowerState::Active {
                        &&& final(self).power.spec_state() == PowerState::Active
                        &&& step.command is None
                        &&& !step.stop_led
                        &&& step.restore_from == Some(prev)
                    } else {
                        &&& final(self).power.spec_state() == prev
                        &&& step.command == Some(RuntimeCommand::RequestPowerState { target })
                        &&& step.stop_led
                        &&& step.restore_from is None
                    }
                }
            }),
    {
        if let Some(deadline) = self.power_recheck_deadline_ms {
            if !deadline_due(now, deadline) {
                let delay_ms = deadline_remaining_ms(now, deadline);
                return PowerStep {
                    command: None,
                    restore_from: None,
                    stop_led: false,
                    poll_after_ms: Some(delay_ms),
                };
            }
        }
        self.power_recheck_deadline_ms = None;
        self.pending.power_recheck = false;
        self.dirty.power = false;

        let config_dirty = self.pending.config_save || self.dirty.config || config_store_dirty;
        let effective_config_dirty = config_dirty || !ENABLE_SLEEP_POWER_STATE;
        let previous_state = self.power.state();

        if self.power_has_blockers(external_blockers) {
            let mut restore_from: Option<PowerState> = None;
            if previous_state != PowerState::Active {
                self.power.apply_request_result(PowerState::Active, true);
                restore_from = Some(previous_state);
            }
            let poll_after_ms = self.arm_power_recheck_deadline(now, effective_config_dirty);
            return PowerStep { command: None, restore_from, stop_led: false, poll_after_ms };
        }

        let transition = self.power.poll(
            now,
            self.last_activity_ms,
            effective_config_dirty,
            &self.router,
        );
        let current_state = self.power.state();
        let mut restore_from: Option<PowerState> = None;
        if previous_state != current_state && current_state == PowerState::Active {
            restore_from = Some(previous_state);
        }
        let poll_after_ms = self.arm_power_recheck_deadline(now, effective_config_dirty);
        match transition {
            Some(t) => PowerStep {
                command: Some(RuntimeCommand::RequestPowerState { target: t.target }),
                restore_from,
                stop_led: t.target != PowerState::Active,
                poll_after_ms,
            },
            None => PowerStep { command: None, restore_from, stop_led: false, poll_after_ms },
        }
    }

    /// Applies an event from the interrupt side. Every event counts as
    /// activity; the rest depends on the event (see `spec_event_applied`).
    pub fn apply_event(&mut self, event: RuntimeEvent) -> (fx: EventEffects)
        requires
            old(self).wf(),
        ensures
            final(self).wf(),
            final(self).last_activity_ms == event_timestamp(event),
            final(self).power_recheck_deadline_ms is None,
            final(self).pending.power_recheck,
            final(self).dirty.power,
            spec_event_applied(*old(self), *final(self), event, fx),
            match event {
                RuntimeEvent::ImuFifoDone { status, .. } => {
                    &&& status == VP_STATUS_OK ==> fx.attitude == AttitudeAction::Keep
                        && final(self).latest_imu_sample.valid == old(self).latest_imu_sample.valid
                    &&& status != VP_STATUS_OK ==> fx.attitude == AttitudeAction::Clear
                        && !final(self).latest_imu_sample.valid
                },
                _ => true,
            },
    {
        proof {
            lemma_fifo_done_keeps_good_sample(*old(self), event);
        }
        match event {
            RuntimeEvent::BleConnected { timestamp } => self.on_ble_connected(timestamp),
            RuntimeEvent::BleInputReady { timestamp } => self.on_ble_input_ready(timestamp),
            RuntimeEvent::BleDisconnected { reason, timestamp } => self.on_ble_disconnected(reason, timestamp),
            RuntimeEvent::DongleConnected { timestamp } => self.on_dongle_connected(timestamp),
            RuntimeEvent::DongleDisconnected { reason, timestamp } => self.on_dongle_disconnected(reason, timestamp),
            RuntimeEvent::UsbStateChanged { state, timestamp } => self.on_usb_state_changed(state, timestamp),
            RuntimeEvent::ButtonExti { button_id, level, timestamp } => self.on_button_exti(button_id, level, timestamp),
            RuntimeEvent::ModeSwitchExti { level, timestamp } => self.on_mode_switch_exti(level, timestamp),
            RuntimeEvent::DebounceTick { timestamp } => self.on_debounce_tick(timestamp),
            RuntimeEvent::ImuInt { timestamp } => self.on_imu_int(timestamp),
            RuntimeEvent::ImuSample { raw_x, raw_y, raw_z, timestamp } => self.on_imu_sample(raw_x, raw_y, raw_z, timestamp),
            RuntimeEvent::ImuFifoDone { status, dropped_count, timestamp } => self.on_imu_fifo_done(status, dropped_count, timestamp),
            RuntimeEvent::HidSendDone { route, status, timestamp } => self.on_hid_send_done(route, status, timestamp),
            RuntimeEvent::VendorReportRx { route, len, timestamp } => self.on_vendor_report_rx(route, len, timestamp),
        }
    }

    fn on_ble_connected(&mut self, timestamp: u32) -> (fx: EventEffects)
        requires
            old(self).wf(),
        ensures
            final(self).wf(),
            spec_event_applied(*old(self), *final(self), RuntimeEvent::BleConnected { timestamp }, fx),
    {
        let mut fx = EventEffects {
            led: None,
            start_debounce_timer: false,
            debounce_tick: false,
            rearm_imu_interrupts: false,
            attitude: AttitudeAction::Keep,
            poll_after_ms: None,
            vendor_rx: false,
        };
        self.router.set_ble_connected(true);
        self.router.set_ble_input_ready(false);
        self.mark_activity(timestamp);
        fx.led = Some(LedCue::Connected);
        fx
    }

    fn on_ble_input_ready(&mut self, timestamp: u32) -> (fx: EventEffects)
        requires
            old(self).wf(),
        ensures
            final(self).wf(),
            spec_event_applied(*old(self), *final(self), RuntimeEvent::BleInputReady { timestamp }, fx),
    {
        let mut fx = EventEffects {
            led: None,
            start_debounce_timer: false,
            debounce_tick: false,
            rearm_imu_interrupts: false,
            attitude: AttitudeAction::Keep,
            poll_after_ms: None,
            vendor_rx: false,
        };
        self.router.set_ble_input_ready(true);
        self.mark_activity(timestamp);
        self.dirty.report = true;
        fx
    }

    fn on_ble_disconnected(&mut self, reason: u8, timestamp: u32) -> (fx: EventEffects)
        requires
            old(self).wf(),
        ensures
            final(self).wf(),
            spec_event_applied(*old(self), *final(self), RuntimeEvent::BleDisconnected { reason, timestamp }, fx),
    {
        let mut fx = EventEffects {
            led: None,
            start_debounce_timer: false,
            debounce_tick: false,
            rearm_imu_interrupts: false,
            attitude: AttitudeAction::Keep,
            poll_after_ms: None,
            vendor_rx: false,
        };
        self.router.set_ble_input_ready(false);
        self.router.set_ble_connected(false);
        fx.led = Some(LedCue::Disconnected);
        self.mark_activity(timestamp);
        self.dirty.report = true;
        fx
    }

    fn on_dongle_connected(&mut self, timestamp: u32) -> (fx: EventEffects)
        requires
            old(self).wf(),
        ensures
            final(self).wf(),
            spec_event_applied(*old(self), *final(self), RuntimeEvent::DongleConnected { timestamp }, fx),
    {
        let mut fx = EventEffects {
            led: None,
            start_debounce_timer: false,
            debounce_tick: false,
            rearm_imu_interrupts: false,
            attitude: AttitudeAction::Keep,
            poll_after_ms: None,
            vendor_rx: false,
        };
        self.router.set_dongle_connected(true);
        self.mark_activity(timestamp);
        self.dirty.report = true;
        fx.led = Some(LedCue::Connected);
        fx
    }

    fn on_dongle_disconnected(&mut self, reason: u8, timestamp: u32) -> (fx: EventEffects)
        requires
            old(self).wf(),
        ensures
            final(self).wf(),
            spec_event_applied(*old(self), *final(self), RuntimeEvent::DongleDisconnected { reason, timestamp }, fx),
    {
        let mut fx = EventEffects {
            led: None,
            start_debounce_timer: false,
            debounce_tick: false,
            rearm_imu_interrupts: false,
            attitude: AttitudeAction::Keep,
            poll_after_ms: None,
            vendor_rx: false,
        };
        self.router.set_dongle_connected(false);
        self.mark_activity(timestamp);
        fx.led = Some(LedCue::Disconnected);
        self.dirty.report = true;
        fx
    }

    fn on_usb_state_changed(&mut self, state: u8, timestamp: u32) -> (fx: EventEffects)
        requires
            old(self).wf(),
        ensures
            final(self).wf(),
            spec_event_applied(*old(self), *final(self), RuntimeEvent::UsbStateChanged { state, timestamp }, fx),
    {
        let mut fx = EventEffects {
            led: None,
            start_debounce_timer: false,
            debounce_tick: false,
            rearm_imu_interrupts: false,
            attitude: AttitudeAction::Keep,
            poll_after_ms: None,
            vendor_rx: false,
        };
        let usb_state = UsbState::from(state);
        self.router.set_usb_state(usb_state);
        self.mark_activity(timestamp);
        if usb_state == UsbState::Configured {
            fx.led = Some(LedCue::Connected);
        } else if usb_state == UsbState::Detached {
            fx.led = Some(LedCue::Disconnected);
        }
        self.dirty.report = true;
        fx
    }

    fn on_button_exti(&mut self, button_id: u8, level: u8, timestamp: u32) -> (fx: EventEffects)
        requires
            old(self).wf(),
        ensures
            final(self).wf(),
            spec_event_applied(*old(self), *final(self), RuntimeEvent::ButtonExti { button_id, level, timestamp }, fx),
    {
        let mut fx = EventEffects {
            led: None,
            start_debounce_timer: false,
            debounce_tick: false,
            rearm_imu_interrupts: false,
            attitude: AttitudeAction::Keep,
            poll_after_ms: None,
            vendor_rx: false,
        };
        self.mark_activity(timestamp);
        fx.start_debounce_timer = self.input.on_button_exti(button_id, level != 0);
        fx
    }

    fn on_mode_switch_exti(&mut self, level: u8, timestamp: u32) -> (fx: EventEffects)
        requires
            old(self).wf(),
        ensures
            final(self).wf(),
            spec_event_applied(*old(self), *final(self), RuntimeEvent::ModeSwitchExti { level, timestamp }, fx),
    {
        let mut fx = EventEffects {
            led: None,
            start_debounce_timer: false,
            debounce_tick: false,
            rearm_imu_interrupts: false,
            attitude: AttitudeAction::Keep,
            poll_after_ms: None,
            vendor_rx: false,
        };
        self.mark_activity(timestamp);
        self.dirty.input = true;
        fx.led = Some(
            if level != 0 {
                LedCue::Mode2g4
            } else {
                LedCue::ModeBle
            },
        );
        fx
    }

    fn on_debounce_tick(&mut self, timestamp: u32) -> (fx: EventEffects)
        requires
            old(self).wf(),
        ensures
            final(self).wf(),
            spec_event_applied(*old(self), *final(self), RuntimeEvent::DebounceTick { timestamp }, fx),
    {
        let mut fx = EventEffects {
            led: None,
            start_debounce_timer: false,
            debounce_tick: false,
            rearm_imu_interrupts: false,
            attitude: AttitudeAction::Keep,
            poll_after_ms: None,
            vendor_rx: false,
        };
        self.mark_activity(timestamp);
        fx.debounce_tick = true;
        fx
    }

    fn on_imu_int(&mut self, timestamp: u32) -> (fx: EventEffects)
        requires
            old(self).wf(),
        ensures
            final(self).wf(),
            spec_event_applied(*old(self), *final(self), RuntimeEvent::ImuInt { timestamp }, fx),
    {
        let mut fx = EventEffects {
            led: None,
            start_debounce_timer: false,
            debounce_tick: false,
            rearm_imu_interrupts: false,
            attitude: AttitudeAction::Keep,
            poll_after_ms: None,
            vendor_rx: false,
        };
        self.mark_activity(timestamp);
        fx.rearm_imu_interrupts = true;
        self.pending.imu_fifo_read = false;
        self.imu_poll_deadline_ms = Some(timestamp);
        self.dirty.power = true;
        fx
    }

    fn on_imu_sample(&mut self, raw_x: u16, raw_y: u16, raw_z: u16, timestamp: u32) -> (fx: EventEffects)
        requires
            old(self).wf(),
        ensures
            final(self).wf(),
            spec_event_applied(*old(self), *final(self), RuntimeEvent::ImuSample { raw_x, raw_y, raw_z, timestamp }, fx),
    {
        let mut fx = EventEffects {
            led: None,
            start_debounce_timer: false,
            debounce_tick: false,
            rearm_imu_interrupts: false,
            attitude: AttitudeAction::Keep,
            poll_after_ms: None,
            vendor_rx: false,
        };
        self.mark_activity(timestamp);
        let raw = SflpGameRotationRaw { x: raw_x, y: raw_y, z: raw_z };
        fx.attitude = AttitudeAction::Update(raw);
        self.latest_imu_sample = LatestImuSample { raw, timestamp_ms: timestamp, valid: true };
        self.dirty.motion = true;
        self.dirty.report = true;
        fx
    }

    fn on_imu_fifo_done(&mut self, status: u8, dropped_count: u16, timestamp: u32) -> (fx: EventEffects)
        requires
            old(self).wf(),
        ensures
            final(self).wf(),
            spec_event_applied(*old(self), *final(self), RuntimeEvent::ImuFifoDone { status, dropped_count, timestamp }, fx),
    {
        let mut fx = EventEffects {
            led: None,
            start_debounce_timer: false,
            debounce_tick: false,
            rearm_imu_interrupts: false,
            attitude: AttitudeAction::Keep,
            poll_after_ms: None,
            vendor_rx: false,
        };
        self.mark_activity(timestamp);
        self.pending.imu_fifo_read = false;
        if status != VP_STATUS_OK {
            self.latest_imu_sample.valid = false;
            fx.attitude = AttitudeAction::Clear;
        }
        if self.schedule_imu_poll_deadline(timestamp) {
            fx.poll_after_ms = Some(IMU_POLL_ACTIVE_MS);
        }
        fx
    }

    fn on_hid_send_done(&mut self, route: u8, status: u8, timestamp: u32) -> (fx: EventEffects)
        requires
            old(self).wf(),
        ensures
            final(self).wf(),
            spec_event_applied(*old(self), *final(self), RuntimeEvent::HidSendDone { route, status, timestamp }, fx),
    {
        let mut fx = EventEffects {
            led: None,
            start_debounce_timer: false,
            debounce_tick: false,
            rearm_imu_interrupts: false,
            attitude: AttitudeAction::Keep,
            poll_after_ms: None,
            vendor_rx: false,
        };
        self.mark_activity(timestamp);
        self.pending.hid_retry = true;
        fx
    }

    fn on_vendor_report_rx(&mut self, route: u8, len: u16, timestamp: u32) -> (fx: EventEffects)
        requires
            old(self).wf(),
        ensures
            final(self).wf(),
            spec_event_applied(*old(self), *final(self), RuntimeEvent::VendorReportRx { route, len, timestamp }, fx),
    {
        let mut fx = EventEffects {
            led: None,
            start_debounce_timer: false,
            debounce_tick: false,
            rearm_imu_interrupts: false,
            attitude: AttitudeAction::Keep,
            poll_after_ms: None,
            vendor_rx: false,
        };
        self.mark_activity(timestamp);
        fx.vendor_rx = true;
        self.pending.vendor_rx = true;
        fx
    }

    /// One debounce tick with the button levels now read. A change of any
    /// button's stable level makes the input and the report dirty. Returns
    /// whether some button is still debouncing, that is whether the debounce
    /// timer must keep running.
    pub fn debounce_tick(&mut self, levels: [bool; 6]) -> (still_debouncing: bool)
        requires
            old(self).wf(),
        ensures
            final(self).wf(),
            final(self).input.spec_mapping() == old(self).input.spec_mapping(),
            forall|i: int|
                0 <= i < 6 ==> #[trigger] final(self).input.spec_inputs()[i] == spec_sample(
                    old(self).input.spec_inputs()[i],
                    levels@[i],
                ).0,
            ({
                let changed = exists|i: int|
                    0 <= i < 6 && reports_change(
                        #[trigger] spec_sample(old(self).input.spec_inputs()[i], levels@[i]).1,
                    );
                *final(self) == (RuntimeCore {
                    input: final(self).input,
                    dirty: DirtyFlags {
                        input: old(self).dirty.input || changed,
                        report: old(self).dirty.report || changed,
                        ..old(self).dirty
                    },
                    ..*old(self)
                })
            }),
            still_debouncing == final(self).input.spec_debouncing(),
    {
        if self.input.on_debounce_tick(levels) {
            self.dirty.input = true;
            self.dirty.report = true;
        }
        self.input.is_debouncing()
    }

    /// Takes the current logical button state and records it as the last
    /// seen; the input is no longer dirty.
    pub fn step_input(&mut self) -> (input: InputStatus)
        requires
            old(self).wf(),
        ensures
            input == spec_mapped_status(old(self).input.spec_pressed(), old(self).input.spec_mapping()),
            *final(self) == (RuntimeCore {
                last_input_status: input,
                dirty: DirtyFlags { input: false, ..old(self).dirty },
                ..*old(self)
            }),
    {
        let input = self.input.get_current_input();
        self.last_input_status = input;
        self.dirty.input = false;
        input
    }

    /// A wheel step or a change of the buttons since the last report counts
    /// as activity at `now` and makes the report dirty.
    pub fn step_wheel_button(&mut self, wheel_delta: i8, buttons_changed: bool, now: u32)
        ensures
            (wheel_delta != 0 || buttons_changed) ==> *final(self) == (RuntimeCore {
                dirty: DirtyFlags { report: true, ..spec_marked(*old(self), now).dirty },
                ..spec_marked(*old(self), now)
            }),
            !(wheel_delta != 0 || buttons_changed) ==> *final(self) == *old(self),
    {
        if wheel_delta != 0 || buttons_changed {
            self.mark_activity(now);
            self.dirty.report = true;
        }
    }

    /// While motion is active, a motion report is taken when its deadline is
    /// due, and the next one scheduled a period later. Returns whether to
    /// take the motion output now, and the poll to ask for.
    pub fn step_motion(&mut self, now: u32, motion_active: bool) -> (r: (bool, Option<u32>))
        ensures
            ({
                let deadline = match old(self).motion_report_deadline_ms {
                    Some(d) => d,
                    None => now,
                };
                if motion_active && spec_deadline_due(now, deadline) {
                    &&& r == (true, Some(MOTION_REPORT_MS))
                    &&& *final(self) == (RuntimeCore {
                        motion_report_deadline_ms: Some(now.wrapping_add(MOTION_REPORT_MS)),
                        ..*old(self)
                    })
                } else if motion_active {
                    &&& r == (false, Some(deadline.wrapping_sub(now)))
                    &&& *final(self) == *old(self)
                } else {
                    &&& r == (false, None::<u32>)
                    &&& *final(self) == *old(self)
                }
            }),
    {
        let deadline = match self.motion_report_deadline_ms {
            Some(d) => d,
            None => now,
        };
        if motion_active && deadline_due(now, deadline) {
            self.motion_report_deadline_ms = Some(now.wrapping_add(MOTION_REPORT_MS));
            (true, Some(MOTION_REPORT_MS))
        } else if motion_active {
            (false, Some(deadline_remaining_ms(now, deadline)))
        } else {
            (false, None)
        }
    }

    /// Holds back motion while no route can carry it: motion reports start
    /// over from `now` and no report is owed or retried.
    pub fn defer_report_until_route_event(&mut self, now: u32)
        ensures
            *final(self) == (RuntimeCore {
                motion_report_deadline_ms: Some(now),
                pending: PendingFlags { hid_retry: false, ..old(self).pending },
                dirty: DirtyFlags { report: false, ..old(self).dirty },
                ..*old(self)
            }),
    {
        self.motion_report_deadline_ms = Some(now);
        self.pending.hid_retry = false;
        self.dirty.report = false;
    }

    /// Where the next mouse report goes: `None` when no route is usable, in
    /// which case the report is held back (see
    /// `defer_report_until_route_event`); `route_ready` is the board's answer
    /// for the preferred route.
    pub fn mouse_route(&mut self, now: u32, route_ready: bool) -> (route: Option<HidRoute>)
        ensures
            ({
                let preferred = old(self).router.spec_preferred_route();
                if preferred != HidRoute::NoRoute && route_ready {
                    route == Some(preferred) && *final(self) == *old(self)
                } else {
                    route is None && *final(self) == (RuntimeCore {
                        motion_report_deadline_ms: Some(now),
                        pending: PendingFlags { hid_retry: false, ..old(self).pending },
                        dirty: DirtyFlags { report: false, ..old(self).dirty },
                        ..*old(self)
                    })
                }
            }),
    {
        let route = self.router.preferred_mouse_route();
        if route == HidRoute::NoRoute || !route_ready {
            self.defer_report_until_route_event(now);
            return None;
        }
        Some(route)
    }

    /// The buttons of the last input, packed as a report carries them.
    pub fn packed_buttons(&self) -> (b: MouseButtons)
        ensures
            b == (MouseButtons {
                left: self.last_input_status.left,
                right: self.last_input_status.right,
                middle: self.last_input_status.middle,
            }),
    {
        MouseButtons {
            left: self.last_input_status.left,
            right: self.last_input_status.right,
            middle: self.last_input_status.middle,
        }
    }
}

} // verus!
