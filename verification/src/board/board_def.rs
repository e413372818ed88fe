use vstd::prelude::*;

verus! {

#[derive(Debug, Clone, Copy, PartialEq, Eq, Structural)]
pub enum Pull {
    Floating,
    PullUp,
    PullDown,
}

#[derive(Debug, Clone, Copy, PartialEq, Eq, Structural)]
pub enum Drive {
    PP5mA,
    PP20mA,
}

#[derive(Debug, Clone, Copy, PartialEq, Eq, Structural)]
pub enum PinLevel {
    Low,
    High,
}

#[derive(Debug, Clone, Copy, PartialEq, Eq, Structural)]
pub enum UsbSpeed {
    FullSpeed,
    HighSpeed,
}

#[derive(Debug, Clone, Copy, PartialEq, Eq, Structural)]
pub enum Polarity {
    ActiveHigh,
    ActiveLow,
}

/// What a pin is used for.
#[derive(Debug, Clone, Copy, PartialEq, Eq, Structural)]
pub enum Func {
    In { pull: Pull, digital: bool },
    Out { drive: Drive, init: Option<PinLevel> },
    Pwm { id: u8, polar: Polarity },
    Tmr { id: u8, polar: Polarity },
    Cap(u8),
    I2c,
    Spi(u8),
    Usb(UsbSpeed),
    Nfc,
    X32k,
    Led(u8),
    Uart(u8),
    Adc(u8),
}

#[derive(Debug, Clone, Copy, PartialEq, Eq, Structural)]
pub enum Port {
    A,
    B,
}

/// One board signal: its name, the pin it is wired to, and its function.
#[derive(Debug, Clone, Copy)]
pub struct Def {
    pub name: &'static str,
    pub pin: (Port, u8),
    pub func: Func,
}

/// Peripheral channel a function uses, for functions that have one.
pub open spec fn spec_channel(func: Func) -> Option<u8> {
    match func {
        Func::Pwm { id: ch, .. } => Some(ch),
        Func::Tmr { id: ch, .. } => Some(ch),
        Func::Cap(ch) => Some(ch),
        Func::Uart(ch) => Some(ch),
        Func::Led(ch) => Some(ch),
        Func::Adc(ch) => Some(ch),
        Func::Spi(ch) => Some(ch),
        _ => None,
    }
}

impl Def {
    pub fn port(&self) -> (p: Port)
        ensures
            p == self.pin.0,
    {
        self.pin.0
    }

    pub fn pin_num(&self) -> (n: u8)
        ensures
            n == self.pin.1,
    {
        self.pin.1
    }

    pub fn channel(&self) -> (ch: Option<u8>)
        ensures
            ch == spec_channel(self.func),
    {
        match self.func {
            Func::Pwm { id: ch, .. } | Func::Tmr { id: ch, .. } | Func::Cap(ch) | Func::Uart(ch)
            | Func::Led(ch) | Func::Adc(ch) | Func::Spi(ch) => Some(ch),
            _ => None,
        }
    }
}

/// The signals of the VoidPointer board, in signal-number order.
pub open spec fn spec_voidpointer_board() -> Seq<Def> {
    seq![
        Def { name: "power_mode", pin: (Port::B, 9), func: Func::Out { drive: Drive::PP5mA, init: Some(PinLevel::Low) } },
        Def { name: "imu_int1", pin: (Port::B, 16), func: Func::In { pull: Pull::PullUp, digital: true } },
        Def { name: "imu_int2", pin: (Port::B, 17), func: Func::In { pull: Pull::PullUp, digital: true } },
        Def { name: "usb_dp", pin: (Port::B, 13), func: Func::Usb(UsbSpeed::HighSpeed) },
        Def { name: "usb_dn", pin: (Port::B, 12), func: Func::Usb(UsbSpeed::HighSpeed) },
        Def { name: "profile_switch", pin: (Port::B, 10), func: Func::In { pull: Pull::PullUp, digital: true } },
        Def { name: "mode_switch", pin: (Port::B, 7), func: Func::In { pull: Pull::PullUp, digital: true } },
        Def { name: "right_button", pin: (Port::B, 6), func: Func::In { pull: Pull::PullUp, digital: true } },
        Def { name: "left_button", pin: (Port::B, 5), func: Func::In { pull: Pull::PullUp, digital: true } },
        Def { name: "down_button", pin: (Port::B, 4), func: Func::In { pull: Pull::PullUp, digital: true } },
        Def { name: "up_button", pin: (Port::B, 3), func: Func::In { pull: Pull::PullUp, digital: true } },
        Def { name: "act_button", pin: (Port::B, 2), func: Func::In { pull: Pull::PullUp, digital: true } },
        Def { name: "context_button", pin: (Port::B, 1), func: Func::In { pull: Pull::PullUp, digital: true } },
        Def { name: "laser_led", pin: (Port::B, 0), func: Func::Pwm { id: 6, polar: Polarity::ActiveHigh } },
        Def { name: "battery_sensor", pin: (Port::A, 12), func: Func::Adc(2) },
        Def { name: "debug_rx", pin: (Port::A, 15), func: Func::Uart(0) },
        Def { name: "debug_tx", pin: (Port::A, 14), func: Func::Uart(0) },
        Def { name: "status_led", pin: (Port::A, 2), func: Func::Tmr { id: 3, polar: Polarity::ActiveLow } },
        Def { name: "charge_status", pin: (Port::A, 5), func: Func::Adc(1) },
        Def { name: "i2c_sda", pin: (Port::B, 20), func: Func::I2c },
        Def { name: "i2c_scl", pin: (Port::B, 21), func: Func::I2c },
        Def { name: "battery_sensor_enable", pin: (Port::B, 22), func: Func::Out { drive: Drive::PP5mA, init: Some(PinLevel::Low) } },
    ]
}

pub fn voidpointer_board() -> (defs: Vec<Def>)
    ensures
        defs@ == spec_voidpointer_board(),
{
    let mut v: Vec<Def> = Vec::new();
    v.push(Def { name: "power_mode", pin: (Port::B, 9), func: Func::Out { drive: Drive::PP5mA, init: Some(PinLevel::Low) } });
    v.push(Def { name: "imu_int1", pin: (Port::B, 16), func: Func::In { pull: Pull::PullUp, digital: true } });
    v.push(Def { name: "imu_int2", pin: (Port::B, 17), func: Func::In { pull: Pull::PullUp, digital: true } });
    v.push(Def { name: "usb_dp", pin: (Port::B, 13), func: Func::Usb(UsbSpeed::HighSpeed) });
    v.push(Def { name: "usb_dn", pin: (Port::B, 12), func: Func::Usb(UsbSpeed::HighSpeed) });
    v.push(Def { name: "profile_switch", pin: (Port::B, 10), func: Func::In { pull: Pull::PullUp, digital: true } });
    v.push(Def { name: "mode_switch", pin: (Port::B, 7), func: Func::In { pull: Pull::PullUp, digital: true } });
    v.push(Def { name: "right_button", pin: (Port::B, 6), func: Func::In { pull: Pull::PullUp, digital: true } });
    v.push(Def { name: "left_button", pin: (Port::B, 5), func: Func::In { pull: Pull::PullUp, digital: true } });
    v.push(Def { name: "down_button", pin: (Port::B, 4), func: Func::In { pull: Pull::PullUp, digital: true } });
    v.push(Def { name: "up_button", pin: (Port::B, 3), func: Func::In { pull: Pull::PullUp, digital: true } });
    v.push(Def { name: "act_button", pin: (Port::B, 2), func: Func::In { pull: Pull::PullUp, digital: true } });
    v.push(Def { name: "context_button", pin: (Port::B, 1), func: Func::In { pull: Pull::PullUp, digital: true } });
    v.push(Def { name: "laser_led", pin: (Port::B, 0), func: Func::Pwm { id: 6, polar: Polarity::ActiveHigh } });
    v.push(Def { name: "battery_sensor", pin: (Port::A, 12), func: Func::Adc(2) });
    v.push(Def { name: "debug_rx", pin: (Port::A, 15), func: Func::Uart(0) });
    v.push(Def { name: "debug_tx", pin: (Port::A, 14), func: Func::Uart(0) });
    v.push(Def { name: "status_led", pin: (Port::A, 2), func: Func::Tmr { id: 3, polar: Polarity::ActiveLow } });
    v.push(Def { name: "charge_status", pin: (Port::A, 5), func: Func::Adc(1) });
    v.push(Def { name: "i2c_sda", pin: (Port::B, 20), func: Func::I2c });
    v.push(Def { name: "i2c_scl", pin: (Port::B, 21), func: Func::I2c });
    v.push(Def { name: "battery_sensor_enable", pin: (Port::B, 22), func: Func::Out { drive: Drive::PP5mA, init: Some(PinLevel::Low) } });
    assert(v@ =~= spec_voidpointer_board());
    v
}

} // verus!
