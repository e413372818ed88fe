use vstd::prelude::*;

use crate::route::{HidRouter, UsbState};

verus! {

/// A low-power transition the runtime is asked to carry out.
#[derive(Clone, Copy, Debug, PartialEq, Eq, Structural)]
pub struct PowerRequest {
    pub target: PowerState,
}

#[derive(Clone, Copy, Debug, PartialEq, Eq, Structural)]
pub enum PowerState {
    Active,
    Suspend,
    Sleep,
}

#[derive(Clone, Copy, Debug, PartialEq, Eq, Structural)]
pub struct PowerConfig {
    pub suspend_timeout_ms: u32,
    pub disconnect_sleep_timeout_ms: u32,
}

impl Default for PowerConfig {
    fn default() -> (c: Self)
        ensures
            c.suspend_timeout_ms == 5_000,
            c.disconnect_sleep_timeout_ms == 60_000,
    {
        Self { suspend_timeout_ms: 5_000, disconnect_sleep_timeout_ms: 60_000 }
    }
}

/// Time left until `timeout_ms` has passed, never less than one millisecond.
pub open spec fn spec_remaining_delay_ms(timeout_ms: u32, elapsed_ms: u32) -> u32 {
    if timeout_ms > elapsed_ms && timeout_ms - elapsed_ms > 1 {
        (timeout_ms - elapsed_ms) as u32
    } else {
        1
    }
}

/// Milliseconds since the last activity, modulo 2^32.
pub open spec fn spec_idle_ms(now_ms: u32, last_activity_ms: u32) -> u32 {
    now_ms.wrapping_sub(last_activity_ms)
}

/// The state the device should be in when USB is not configured.
///
/// With a wireless link it suspends after `suspend_timeout_ms` of idleness.
/// Without one it sleeps after `disconnect_sleep_timeout_ms`, but only while
/// USB is detached and no configuration waits to be saved.
pub open spec fn spec_power_target(
    cfg: PowerConfig,
    idle_ms: u32,
    config_dirty: bool,
    router: HidRouter,
) -> PowerState {
    if router.spec_ble_input_ready() {
        if idle_ms >= cfg.suspend_timeout_ms {
            PowerState::Suspend
        } else {
            PowerState::Active
        }
    } else if idle_ms >= cfg.disconnect_sleep_timeout_ms && router.spec_usb_state()
        == UsbState::Detached && !config_dirty {
        PowerState::Sleep
    } else {
        PowerState::Active
    }
}

/// When to look at the power state again, if a transition is still ahead.
pub open spec fn spec_recheck_delay(
    cfg: PowerConfig,
    state: PowerState,
    idle_ms: u32,
    config_dirty: bool,
    router: HidRouter,
) -> Option<u32> {
    if router.spec_usb_configured() {
        None
    } else if router.spec_ble_input_ready() {
        if state == PowerState::Suspend {
            None
        } else {
            Some(spec_remaining_delay_ms(cfg.suspend_timeout_ms, idle_ms))
        }
    } else if router.spec_usb_state() == UsbState::Detached && !config_dirty {
        if state == PowerState::Sleep {
            None
        } else {
            Some(spec_remaining_delay_ms(cfg.disconnect_sleep_timeout_ms, idle_ms))
        }
    } else {
        None
    }
}

/// Which low-power state a device is sent to. It suspends exactly when a
/// wireless link can carry input and it has been idle for the suspend
/// timeout; it sleeps exactly when no wireless link carries input, USB is
/// detached (a cable that is attached but not configured keeps it awake), no
/// configuration waits to be saved and it has been idle for the disconnect
/// timeout. Otherwise it stays active.
pub proof fn lemma_low_power_targets(
    cfg: PowerConfig,
    idle_ms: u32,
    config_dirty: bool,
    router: HidRouter,
)
    ensures
        (spec_power_target(cfg, idle_ms, config_dirty, router) == PowerState::Suspend) <==> (
        router.spec_ble_input_ready() && idle_ms >= cfg.suspend_timeout_ms),
        (spec_power_target(cfg, idle_ms, config_dirty, router) == PowerState::Sleep) <==> (
        !router.spec_ble_input_ready() && router.spec_usb_state() == UsbState::Detached
            && !config_dirty && idle_ms >= cfg.disconnect_sleep_timeout_ms),
{
}

/// Decides when the device suspends or sleeps.
pub struct PowerManager {
    state: PowerState,
    config: PowerConfig,
}

impl PowerManager {
    pub closed spec fn spec_state(&self) -> PowerState {
        self.state
    }

    pub closed spec fn spec_config(&self) -> PowerConfig {
        self.config
    }

    pub fn new() -> (pm: Self)
        ensures
            pm.spec_state() == PowerState::Active,
            pm.spec_config() == (PowerConfig {
                suspend_timeout_ms: 5_000,
                disconnect_sleep_timeout_ms: 60_000,
            }),
    {
        Self { state: PowerState::Active, config: PowerConfig::default() }
    }

    pub fn state(&self) -> (s: PowerState)
        ensures
            s == self.spec_state(),
    {
        self.state
    }

    pub fn config(&self) -> (c: PowerConfig)
        ensures
            c == self.spec_config(),
    {
        self.config
    }

    /// Reevaluates the power state.
    ///
    /// A configured USB link keeps the device active. Otherwise a move back to
    /// `Active` happens at once, while a move to `Suspend` or `Sleep` is only
    /// requested: the state changes when the result is applied.
    pub fn poll(
        &mut self,
        now_ms: u32,
        last_activity_ms: u32,
        config_dirty: bool,
        router: &HidRouter,
    ) -> (req: Option<PowerRequest>)
        ensures
            final(self).spec_config() == old(self).spec_config(),
            router.spec_usb_configured() ==> req is None && final(self).spec_state()
                == PowerState::Active,
            !router.spec_usb_configured() ==> ({
                let target = spec_power_target(
                    old(self).spec_config(),
                    spec_idle_ms(now_ms, last_activity_ms),
                    config_dirty,
                    *router,
                );
                if target == old(self).spec_state() {
                    req is None && final(self).spec_state() == old(self).spec_state()
                } else if target == PowerState::Active {
                    req is None && final(self).spec_state() == PowerState::Active
                } else {
                    req == Some(PowerRequest { target }) && final(self).spec_state() == old(
                        self,
                    ).spec_state()
                }
            }),
            req == Some(PowerRequest { target: PowerState::Sleep }) ==> !router.spec_ble_input_ready()
                && router.spec_usb_state() == UsbState::Detached && !config_dirty,
            req == Some(PowerRequest { target: PowerState::Suspend })
                ==> router.spec_ble_input_ready(),
    {
        proof {
            lemma_low_power_targets(
                self.spec_config(),
                spec_idle_ms(now_ms, last_activity_ms),
                config_dirty,
                *router,
            );
        }
        if router.usb_state() == UsbState::Configured {
            self.state = PowerState::Active;
            return None;
        }

        let idle_ms = now_ms.wrapping_sub(last_activity_ms);
        let wireless_connected = router.has_wireless_connection();
        let usb_allows_sleep = router.usb_state() == UsbState::Detached;

        let target = if wireless_connected {
            if idle_ms >= self.config.suspend_timeout_ms {
                PowerState::Suspend
            } else {
                PowerState::Active
            }
        } else if idle_ms >= self.config.disconnect_sleep_timeout_ms && usb_allows_sleep
            && !config_dirty {
            PowerState::Sleep
        } else {
            PowerState::Active
        };

        self.request_state(target)
    }

    /// Milliseconds until `poll` may decide differently, or `None` when no
    /// timed transition is ahead.
    pub fn next_recheck_delay_ms(
        &self,
        now_ms: u32,
        last_activity_ms: u32,
        config_dirty: bool,
        router: &HidRouter,
    ) -> (delay: Option<u32>)
        ensures
            delay == spec_recheck_delay(
                self.spec_config(),
                self.spec_state(),
                spec_idle_ms(now_ms, last_activity_ms),
                config_dirty,
                *router,
            ),
    {
        if router.usb_state() == UsbState::Configured {
            return None;
        }

        let idle_ms = now_ms.wrapping_sub(last_activity_ms);
        let wireless_connected = router.has_wireless_connection();
        let usb_allows_sleep = router.usb_state() == UsbState::Detached;

        if wireless_connected {
            if self.state == PowerState::Suspend {
                return None;
            }
            return Some(remaining_delay_ms(self.config.suspend_timeout_ms, idle_ms));
        }

        if usb_allows_sleep && !config_dirty {
            if self.state == PowerState::Sleep {
                return None;
            }
            return Some(remaining_delay_ms(self.config.disconnect_sleep_timeout_ms, idle_ms));
        }

        None
    }

    fn request_state(&mut self, target: PowerState) -> (req: Option<PowerRequest>)
        ensures
            final(self).spec_config() == old(self).spec_config(),
            target == old(self).spec_state() ==> req is None && *final(self) == *old(self),
            target != old(self).spec_state() && target == PowerState::Active ==> req is None
                && final(self).spec_state() == PowerState::Active,
            target != old(self).spec_state() && target != PowerState::Active ==> req == Some(
                PowerRequest { target },
            ) && final(self).spec_state() == old(self).spec_state(),
    {
        if self.state == target {
            return None;
        }
        match target {
            PowerState::Active => {
                self.state = PowerState::Active;
                None
            },
            PowerState::Suspend | PowerState::Sleep => Some(PowerRequest { target }),
        }
    }

    /// Replaces the timeouts; the current state stays.
    pub fn apply_config(&mut self, config: PowerConfig)
        ensures
            final(self).spec_config() == config,
            final(self).spec_state() == old(self).spec_state(),
    {
        self.config = config;
    }

    /// Records the outcome of a requested transition: the target when it was
    /// accepted, `Active` when it was refused.
    pub fn apply_request_result(&mut self, target: PowerState, accepted: bool)
        ensures
            final(self).spec_config() == old(self).spec_config(),
            final(self).spec_state() == (if accepted {
                target
            } else {
                PowerState::Active
            }),
    {
        if accepted {
            self.state = target;
        } else {
            self.state = PowerState::Active;
        }
    }
}

/// Time left until `timeout_ms` has passed, never less than one millisecond.
pub fn remaining_delay_ms(timeout_ms: u32, elapsed_ms: u32) -> (d: u32)
    ensures
        d == spec_remaining_delay_ms(timeout_ms, elapsed_ms),
        d >= 1,
{
    let left = timeout_ms.saturating_sub(elapsed_ms);
    if left > 1 {
        left
    } else {
        1
    }
}

/// A pending configuration save never lets the device fall asleep.
pub proof fn lemma_dirty_config_blocks_sleep(cfg: PowerConfig, idle_ms: u32, router: HidRouter)
    ensures
        spec_power_target(cfg, idle_ms, true, router) != PowerState::Sleep,
{
}

} // verus!
