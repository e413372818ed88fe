use crate::board::board_def::{spec_voidpointer_board, Def, Drive, Func, PinLevel, Port, Pull, UsbSpeed};
use vstd::prelude::*;

verus! {

/// How a pin is configured at start-up: its GPIO mode, whether its digital
/// input buffer is enabled, and the pin-remap register it needs (with the
/// remap enabled or not).
#[derive(Debug, Clone, Copy)]
pub struct HwConfig {
    pub mode: &'static str,
    pub digital: bool,
    pub remap: Option<(&'static str, bool)>,
}

/// The pin-function table of the CH585: the configuration of `func` on pin
/// `pin` of `port`, or `None` where that pin does not support that function.
/// The first matching row wins.
pub open spec fn spec_hw_config(port: Port, pin: u8, func: Func) -> Option<HwConfig> {
    match (port, pin, func) {
        (_, _, Func::In { pull: Pull::Floating, digital: d }) => Some(HwConfig { mode: "GPIO_ModeIN_Floating", digital: d, remap: None }),
        (_, _, Func::In { pull: Pull::PullUp, digital: d }) => Some(HwConfig { mode: "GPIO_ModeIN_PU", digital: d, remap: None }),
        (_, _, Func::In { pull: Pull::PullDown, digital: d }) => Some(HwConfig { mode: "GPIO_ModeIN_PD", digital: d, remap: None }),
        (_, _, Func::Out { drive: Drive::PP5mA, .. }) => Some(HwConfig { mode: "GPIO_ModeOut_PP_5mA", digital: false, remap: None }),
        (_, _, Func::Out { drive: Drive::PP20mA, .. }) => Some(HwConfig { mode: "GPIO_ModeOut_PP_20mA", digital: false, remap: None }),
        (Port::A, 2, Func::Tmr { id: 3, .. }) => Some(HwConfig { mode: "GPIO_ModeOut_PP_5mA", digital: false, remap: Some(("RB_PIN_TMR3", false)) }),
        (Port::B, 22, Func::Tmr { id: 3, .. }) => Some(HwConfig { mode: "GPIO_ModeOut_PP_5mA", digital: false, remap: Some(("RB_PIN_TMR3", true)) }),
        (Port::A, 9, Func::Tmr { id: 0, .. }) => Some(HwConfig { mode: "GPIO_ModeOut_PP_5mA", digital: false, remap: Some(("RB_PIN_TMR0", false)) }),
        (Port::B, 23, Func::Tmr { id: 0, .. }) => Some(HwConfig { mode: "GPIO_ModeOut_PP_5mA", digital: false, remap: Some(("RB_PIN_TMR0", true)) }),
        (Port::A, 10, Func::Tmr { id: 1, .. }) => Some(HwConfig { mode: "GPIO_ModeOut_PP_5mA", digital: false, remap: Some(("RB_PIN_TMR1", false)) }),
        (Port::B, 10, Func::Tmr { id: 1, .. }) => Some(HwConfig { mode: "GPIO_ModeOut_PP_5mA", digital: false, remap: Some(("RB_PIN_TMR1", true)) }),
        (Port::A, 11, Func::Tmr { id: 2, .. }) => Some(HwConfig { mode: "GPIO_ModeOut_PP_5mA", digital: false, remap: Some(("RB_PIN_TMR2", false)) }),
        (Port::B, 11, Func::Tmr { id: 2, .. }) => Some(HwConfig { mode: "GPIO_ModeOut_PP_5mA", digital: false, remap: Some(("RB_PIN_TMR2", true)) }),
        (Port::A, 12, Func::Pwm { id: 4, .. }) => Some(HwConfig { mode: "GPIO_ModeOut_PP_5mA", digital: false, remap: Some(("RB_PIN_PWMX", false)) }),
        (Port::A, 6, Func::Pwm { id: 4, .. }) => Some(HwConfig { mode: "GPIO_ModeOut_PP_5mA", digital: false, remap: Some(("RB_PIN_PWMX", true)) }),
        (Port::A, 13, Func::Pwm { id: 5, .. }) => Some(HwConfig { mode: "GPIO_ModeOut_PP_5mA", digital: false, remap: Some(("RB_PIN_PWMX", false)) }),
        (Port::A, 7, Func::Pwm { id: 5, .. }) => Some(HwConfig { mode: "GPIO_ModeOut_PP_5mA", digital: false, remap: Some(("RB_PIN_PWMX", true)) }),
        (Port::B, 4, Func::Pwm { id: 7, .. }) => Some(HwConfig { mode: "GPIO_ModeOut_PP_5mA", digital: false, remap: Some(("RB_PIN_PWMX", false)) }),
        (Port::B, 1, Func::Pwm { id: 7, .. }) => Some(HwConfig { mode: "GPIO_ModeOut_PP_5mA", digital: false, remap: Some(("RB_PIN_PWMX", true)) }),
        (Port::B, 6, Func::Pwm { id: 8, .. }) => Some(HwConfig { mode: "GPIO_ModeOut_PP_5mA", digital: false, remap: Some(("RB_PIN_PWMX", false)) }),
        (Port::B, 2, Func::Pwm { id: 8, .. }) => Some(HwConfig { mode: "GPIO_ModeOut_PP_5mA", digital: false, remap: Some(("RB_PIN_PWMX", true)) }),
        (Port::B, 7, Func::Pwm { id: 9, .. }) => Some(HwConfig { mode: "GPIO_ModeOut_PP_5mA", digital: false, remap: Some(("RB_PIN_PWMX", false)) }),
        (Port::B, 3, Func::Pwm { id: 9, .. }) => Some(HwConfig { mode: "GPIO_ModeOut_PP_5mA", digital: false, remap: Some(("RB_PIN_PWMX", true)) }),
        (Port::B, 0, Func::Pwm { id: 6, .. }) => Some(HwConfig { mode: "GPIO_ModeOut_PP_5mA", digital: false, remap: None }),
        (Port::B, 14, Func::Pwm { id: 10, .. }) => Some(HwConfig { mode: "GPIO_ModeOut_PP_5mA", digital: false, remap: None }),
        (Port::B, 23, Func::Pwm { id: 11, .. }) => Some(HwConfig { mode: "GPIO_ModeOut_PP_5mA", digital: false, remap: None }),
        (Port::B, 12, Func::I2c) => Some(HwConfig { mode: "GPIO_ModeIN_PU", digital: true, remap: Some(("RB_PIN_I2C", false)) }),
        (Port::B, 20, Func::I2c) => Some(HwConfig { mode: "GPIO_ModeIN_PU", digital: true, remap: Some(("RB_PIN_I2C", true)) }),
        (Port::B, 13, Func::I2c) => Some(HwConfig { mode: "GPIO_ModeIN_PU", digital: true, remap: Some(("RB_PIN_I2C", false)) }),
        (Port::B, 21, Func::I2c) => Some(HwConfig { mode: "GPIO_ModeIN_PU", digital: true, remap: Some(("RB_PIN_I2C", true)) }),
        (Port::B, 7, Func::Uart(0)) => Some(HwConfig { mode: "GPIO_ModeOut_PP_5mA", digital: false, remap: Some(("RB_PIN_UART0", false)) }),
        (Port::A, 14, Func::Uart(0)) => Some(HwConfig { mode: "GPIO_ModeOut_PP_5mA", digital: false, remap: Some(("RB_PIN_UART0", true)) }),
        (Port::B, 4, Func::Uart(0)) => Some(HwConfig { mode: "GPIO_ModeIN_PU", digital: false, remap: Some(("RB_PIN_UART0", false)) }),
        (Port::A, 15, Func::Uart(0)) => Some(HwConfig { mode: "GPIO_ModeIN_PU", digital: false, remap: Some(("RB_PIN_UART0", true)) }),
        (Port::A, 9, Func::Uart(1)) => Some(HwConfig { mode: "GPIO_ModeOut_PP_5mA", digital: false, remap: Some(("RB_PIN_UART1", false)) }),
        (Port::B, 13, Func::Uart(1)) => Some(HwConfig { mode: "GPIO_ModeOut_PP_5mA", digital: false, remap: Some(("RB_PIN_UART1", true)) }),
        (Port::A, 8, Func::Uart(1)) => Some(HwConfig { mode: "GPIO_ModeIN_PU", digital: false, remap: Some(("RB_PIN_UART1", false)) }),
        (Port::B, 12, Func::Uart(1)) => Some(HwConfig { mode: "GPIO_ModeIN_PU", digital: false, remap: Some(("RB_PIN_UART1", true)) }),
        (Port::A, 7, Func::Uart(2)) => Some(HwConfig { mode: "GPIO_ModeOut_PP_5mA", digital: false, remap: Some(("RB_PIN_UART2", false)) }),
        (Port::B, 23, Func::Uart(2)) => Some(HwConfig { mode: "GPIO_ModeOut_PP_5mA", digital: false, remap: Some(("RB_PIN_UART2", true)) }),
        (Port::A, 6, Func::Uart(2)) => Some(HwConfig { mode: "GPIO_ModeIN_PU", digital: false, remap: Some(("RB_PIN_UART2", false)) }),
        (Port::B, 22, Func::Uart(2)) => Some(HwConfig { mode: "GPIO_ModeIN_PU", digital: false, remap: Some(("RB_PIN_UART2", true)) }),
        (Port::A, 5, Func::Uart(3)) => Some(HwConfig { mode: "GPIO_ModeOut_PP_5mA", digital: false, remap: Some(("RB_PIN_UART3", false)) }),
        (Port::B, 21, Func::Uart(3)) => Some(HwConfig { mode: "GPIO_ModeOut_PP_5mA", digital: false, remap: Some(("RB_PIN_UART3", true)) }),
        (Port::A, 4, Func::Uart(3)) => Some(HwConfig { mode: "GPIO_ModeIN_PU", digital: false, remap: Some(("RB_PIN_UART3", false)) }),
        (Port::B, 20, Func::Uart(3)) => Some(HwConfig { mode: "GPIO_ModeIN_PU", digital: false, remap: Some(("RB_PIN_UART3", true)) }),
        (Port::A, 12, Func::Spi(0)) => Some(HwConfig { mode: "GPIO_ModeOut_PP_5mA", digital: false, remap: Some(("RB_PIN_SPI0", false)) }),
        (Port::A, 13, Func::Spi(0)) => Some(HwConfig { mode: "GPIO_ModeOut_PP_5mA", digital: false, remap: Some(("RB_PIN_SPI0", false)) }),
        (Port::A, 14, Func::Spi(0)) => Some(HwConfig { mode: "GPIO_ModeOut_PP_5mA", digital: false, remap: Some(("RB_PIN_SPI0", false)) }),
        (Port::A, 15, Func::Spi(0)) => Some(HwConfig { mode: "GPIO_ModeIN_PU", digital: false, remap: Some(("RB_PIN_SPI0", false)) }),
        (Port::B, 12, Func::Spi(0)) => Some(HwConfig { mode: "GPIO_ModeOut_PP_5mA", digital: false, remap: Some(("RB_PIN_SPI0", true)) }),
        (Port::B, 13, Func::Spi(0)) => Some(HwConfig { mode: "GPIO_ModeOut_PP_5mA", digital: false, remap: Some(("RB_PIN_SPI0", true)) }),
        (Port::B, 14, Func::Spi(0)) => Some(HwConfig { mode: "GPIO_ModeOut_PP_5mA", digital: false, remap: Some(("RB_PIN_SPI0", true)) }),
        (Port::B, 15, Func::Spi(0)) => Some(HwConfig { mode: "GPIO_ModeIN_PU", digital: false, remap: Some(("RB_PIN_SPI0", true)) }),
        (Port::A, 0, Func::Spi(1)) => Some(HwConfig { mode: "GPIO_ModeOut_PP_5mA", digital: false, remap: None }),
        (Port::A, 1, Func::Spi(1)) => Some(HwConfig { mode: "GPIO_ModeOut_PP_5mA", digital: false, remap: None }),
        (Port::A, 2, Func::Spi(1)) => Some(HwConfig { mode: "GPIO_ModeIN_PU", digital: false, remap: None }),
        (Port::B, 10, Func::Usb(UsbSpeed::FullSpeed)) => Some(HwConfig { mode: "GPIO_ModeIN_PU", digital: false, remap: None }),
        (Port::B, 11, Func::Usb(UsbSpeed::FullSpeed)) => Some(HwConfig { mode: "GPIO_ModeIN_PU", digital: false, remap: None }),
        (Port::B, 12, Func::Usb(UsbSpeed::HighSpeed)) => Some(HwConfig { mode: "GPIO_ModeIN_PU", digital: false, remap: None }),
        (Port::B, 13, Func::Usb(UsbSpeed::HighSpeed)) => Some(HwConfig { mode: "GPIO_ModeIN_PU", digital: false, remap: None }),
        (Port::B, 8, Func::Nfc) => Some(HwConfig { mode: "GPIO_ModeIN_PU", digital: false, remap: None }),
        (Port::B, 9, Func::Nfc) => Some(HwConfig { mode: "GPIO_ModeIN_PU", digital: false, remap: None }),
        (Port::B, 16, Func::Nfc) => Some(HwConfig { mode: "GPIO_ModeIN_PU", digital: false, remap: None }),
        (Port::B, 17, Func::Nfc) => Some(HwConfig { mode: "GPIO_ModeIN_PU", digital: false, remap: None }),
        (Port::A, 10, Func::X32k) => Some(HwConfig { mode: "GPIO_ModeIN_Floating", digital: false, remap: None }),
        (Port::A, 11, Func::X32k) => Some(HwConfig { mode: "GPIO_ModeIN_Floating", digital: false, remap: None }),
        (Port::A, 0, Func::Led(0)) => Some(HwConfig { mode: "GPIO_ModeOut_PP_5mA", digital: false, remap: None }),
        (Port::A, 1, Func::Led(1)) => Some(HwConfig { mode: "GPIO_ModeOut_PP_5mA", digital: false, remap: None }),
        (Port::A, 2, Func::Led(2)) => Some(HwConfig { mode: "GPIO_ModeOut_PP_5mA", digital: false, remap: None }),
        (Port::A, 3, Func::Led(3)) => Some(HwConfig { mode: "GPIO_ModeOut_PP_5mA", digital: false, remap: None }),
        (Port::A, 4, Func::Led(8)) => Some(HwConfig { mode: "GPIO_ModeOut_PP_5mA", digital: false, remap: None }),
        (Port::A, 5, Func::Led(4)) => Some(HwConfig { mode: "GPIO_ModeOut_PP_5mA", digital: false, remap: None }),
        (Port::A, 6, Func::Led(5)) => Some(HwConfig { mode: "GPIO_ModeOut_PP_5mA", digital: false, remap: None }),
        (Port::A, 7, Func::Led(6)) => Some(HwConfig { mode: "GPIO_ModeOut_PP_5mA", digital: false, remap: None }),
        (Port::A, 8, Func::Led(7)) => Some(HwConfig { mode: "GPIO_ModeOut_PP_5mA", digital: false, remap: None }),
        (Port::A, 4, Func::Adc(0)) => Some(HwConfig { mode: "GPIO_ModeIN_Floating", digital: false, remap: None }),
        (Port::A, 5, Func::Adc(1)) => Some(HwConfig { mode: "GPIO_ModeIN_Floating", digital: false, remap: None }),
        (Port::A, 12, Func::Adc(2)) => Some(HwConfig { mode: "GPIO_ModeIN_Floating", digital: false, remap: None }),
        (Port::A, 13, Func::Adc(3)) => Some(HwConfig { mode: "GPIO_ModeIN_Floating", digital: false, remap: None }),
        (Port::A, 14, Func::Adc(4)) => Some(HwConfig { mode: "GPIO_ModeIN_Floating", digital: false, remap: None }),
        (Port::A, 15, Func::Adc(5)) => Some(HwConfig { mode: "GPIO_ModeIN_Floating", digital: false, remap: None }),
        (Port::A, 3, Func::Adc(6)) => Some(HwConfig { mode: "GPIO_ModeIN_Floating", digital: false, remap: None }),
        (Port::A, 2, Func::Adc(7)) => Some(HwConfig { mode: "GPIO_ModeIN_Floating", digital: false, remap: None }),
        (Port::A, 1, Func::Adc(8)) => Some(HwConfig { mode: "GPIO_ModeIN_Floating", digital: false, remap: None }),
        (Port::A, 0, Func::Adc(9)) => Some(HwConfig { mode: "GPIO_ModeIN_Floating", digital: false, remap: None }),
        (Port::A, 6, Func::Adc(10)) => Some(HwConfig { mode: "GPIO_ModeIN_Floating", digital: false, remap: None }),
        (Port::A, 7, Func::Adc(11)) => Some(HwConfig { mode: "GPIO_ModeIN_Floating", digital: false, remap: None }),
        (Port::A, 8, Func::Adc(12)) => Some(HwConfig { mode: "GPIO_ModeIN_Floating", digital: false, remap: None }),
        (Port::A, 9, Func::Adc(13)) => Some(HwConfig { mode: "GPIO_ModeIN_Floating", digital: false, remap: None }),
        _ => None,
    }
}

/// The I2C remap setting of an I2C pin: PB12/PB13 are the default pins,
/// PB20/PB21 the remapped ones.
pub open spec fn spec_i2c_remap(port: Port, pin: u8) -> Option<(&'static str, bool)> {
    match (port, pin) {
        (Port::B, 12) | (Port::B, 13) => Some(("RB_PIN_I2C", false)),
        (Port::B, 20) | (Port::B, 21) => Some(("RB_PIN_I2C", true)),
        _ => None,
    }
}

/// Whether the function of `def` is supported on its pin.
pub open spec fn def_supported(def: Def) -> bool {
    spec_hw_config(def.pin.0, def.pin.1, def.func) is Some
}

/// Every pin that carries an ADC channel is set up as a floating input,
/// analogue (its digital input off), with no remap.
pub proof fn lemma_adc_pins_float(port: Port, pin: u8, func: Func)
    ensures
        func is Adc && spec_hw_config(port, pin, func) is Some ==> ({
            let hw = spec_hw_config(port, pin, func)->0;
            &&& hw.mode@ == "GPIO_ModeIN_Floating"@
            &&& !hw.digital
            &&& hw.remap is None
        }),
{
}

/// Looks a pin function up in the CH585 pin-function table.
pub fn lookup_hw_config(port: Port, pin: u8, func: Func) -> (hw: Option<HwConfig>)
    ensures
        hw == spec_hw_config(port, pin, func),
        func is Adc && hw is Some ==> hw->0.mode@ == "GPIO_ModeIN_Floating"@ && !hw->0.digital
            && hw->0.remap is None,
{
    proof {
        lemma_adc_pins_float(port, pin, func);
    }
    match (port, pin, func) {
        (_, _, Func::In { pull: Pull::Floating, digital: d }) => Some(HwConfig { mode: "GPIO_ModeIN_Floating", digital: d, remap: None }),
        (_, _, Func::In { pull: Pull::PullUp, digital: d }) => Some(HwConfig { mode: "GPIO_ModeIN_PU", digital: d, remap: None }),
        (_, _, Func::In { pull: Pull::PullDown, digital: d }) => Some(HwConfig { mode: "GPIO_ModeIN_PD", digital: d, remap: None }),
        (_, _, Func::Out { drive: Drive::PP5mA, .. }) => Some(HwConfig { mode: "GPIO_ModeOut_PP_5mA", digital: false, remap: None }),
        (_, _, Func::Out { drive: Drive::PP20mA, .. }) => Some(HwConfig { mode: "GPIO_ModeOut_PP_20mA", digital: false, remap: None }),
        (Port::A, 2, Func::Tmr { id: 3, .. }) => Some(HwConfig { mode: "GPIO_ModeOut_PP_5mA", digital: false, remap: Some(("RB_PIN_TMR3", false)) }),
        (Port::B, 22, Func::Tmr { id: 3, .. }) => Some(HwConfig { mode: "GPIO_ModeOut_PP_5mA", digital: false, remap: Some(("RB_PIN_TMR3", true)) }),
        (Port::A, 9, Func::Tmr { id: 0, .. }) => Some(HwConfig { mode: "GPIO_ModeOut_PP_5mA", digital: false, remap: Some(("RB_PIN_TMR0", false)) }),
        (Port::B, 23, Func::Tmr { id: 0, .. }) => Some(HwConfig { mode: "GPIO_ModeOut_PP_5mA", digital: false, remap: Some(("RB_PIN_TMR0", true)) }),
        (Port::A, 10, Func::Tmr { id: 1, .. }) => Some(HwConfig { mode: "GPIO_ModeOut_PP_5mA", digital: false, remap: Some(("RB_PIN_TMR1", false)) }),
        (Port::B, 10, Func::Tmr { id: 1, .. }) => Some(HwConfig { mode: "GPIO_ModeOut_PP_5mA", digital: false, remap: Some(("RB_PIN_TMR1", true)) }),
        (Port::A, 11, Func::Tmr { id: 2, .. }) => Some(HwConfig { mode: "GPIO_ModeOut_PP_5mA", digital: false, remap: Some(("RB_PIN_TMR2", false)) }),
        (Port::B, 11, Func::Tmr { id: 2, .. }) => Some(HwConfig { mode: "GPIO_ModeOut_PP_5mA", digital: false, remap: Some(("RB_PIN_TMR2", true)) }),
        (Port::A, 12, Func::Pwm { id: 4, .. }) => Some(HwConfig { mode: "GPIO_ModeOut_PP_5mA", digital: false, remap: Some(("RB_PIN_PWMX", false)) }),
        (Port::A, 6, Func::Pwm { id: 4, .. }) => Some(HwConfig { mode: "GPIO_ModeOut_PP_5mA", digital: false, remap: Some(("RB_PIN_PWMX", true)) }),
        (Port::A, 13, Func::Pwm { id: 5, .. }) => Some(HwConfig { mode: "GPIO_ModeOut_PP_5mA", digital: false, remap: Some(("RB_PIN_PWMX", false)) }),
        (Port::A, 7, Func::Pwm { id: 5, .. }) => Some(HwConfig { mode: "GPIO_ModeOut_PP_5mA", digital: false, remap: Some(("RB_PIN_PWMX", true)) }),
        (Port::B, 4, Func::Pwm { id: 7, .. }) => Some(HwConfig { mode: "GPIO_ModeOut_PP_5mA", digital: false, remap: Some(("RB_PIN_PWMX", false)) }),
        (Port::B, 1, Func::Pwm { id: 7, .. }) => Some(HwConfig { mode: "GPIO_ModeOut_PP_5mA", digital: false, remap: Some(("RB_PIN_PWMX", true)) }),
        (Port::B, 6, Func::Pwm { id: 8, .. }) => Some(HwConfig { mode: "GPIO_ModeOut_PP_5mA", digital: false, remap: Some(("RB_PIN_PWMX", false)) }),
        (Port::B, 2, Func::Pwm { id: 8, .. }) => Some(HwConfig { mode: "GPIO_ModeOut_PP_5mA", digital: false, remap: Some(("RB_PIN_PWMX", true)) }),
        (Port::B, 7, Func::Pwm { id: 9, .. }) => Some(HwConfig { mode: "GPIO_ModeOut_PP_5mA", digital: false, remap: Some(("RB_PIN_PWMX", false)) }),
        (Port::B, 3, Func::Pwm { id: 9, .. }) => Some(HwConfig { mode: "GPIO_ModeOut_PP_5mA", digital: false, remap: Some(("RB_PIN_PWMX", true)) }),
        (Port::B, 0, Func::Pwm { id: 6, .. }) => Some(HwConfig { mode: "GPIO_ModeOut_PP_5mA", digital: false, remap: None }),
        (Port::B, 14, Func::Pwm { id: 10, .. }) => Some(HwConfig { mode: "GPIO_ModeOut_PP_5mA", digital: false, remap: None }),
        (Port::B, 23, Func::Pwm { id: 11, .. }) => Some(HwConfig { mode: "GPIO_ModeOut_PP_5mA", digital: false, remap: None }),
        (Port::B, 12, Func::I2c) | (Port::B, 20, Func::I2c) => Some(HwConfig { mode: "GPIO_ModeIN_PU", digital: true, remap: Some(i2c_remap(port, pin)) }),
        (Port::B, 13, Func::I2c) | (Port::B, 21, Func::I2c) => Some(HwConfig { mode: "GPIO_ModeIN_PU", digital: true, remap: Some(i2c_remap(port, pin)) }),
        (Port::B, 7, Func::Uart(0)) => Some(HwConfig { mode: "GPIO_ModeOut_PP_5mA", digital: false, remap: Some(("RB_PIN_UART0", false)) }),
        (Port::A, 14, Func::Uart(0)) => Some(HwConfig { mode: "GPIO_ModeOut_PP_5mA", digital: false, remap: Some(("RB_PIN_UART0", true)) }),
        (Port::B, 4, Func::Uart(0)) => Some(HwConfig { mode: "GPIO_ModeIN_PU", digital: false, remap: Some(("RB_PIN_UART0", false)) }),
        (Port::A, 15, Func::Uart(0)) => Some(HwConfig { mode: "GPIO_ModeIN_PU", digital: false, remap: Some(("RB_PIN_UART0", true)) }),
        (Port::A, 9, Func::Uart(1)) => Some(HwConfig { mode: "GPIO_ModeOut_PP_5mA", digital: false, remap: Some(("RB_PIN_UART1", false)) }),
        (Port::B, 13, Func::Uart(1)) => Some(HwConfig { mode: "GPIO_ModeOut_PP_5mA", digital: false, remap: Some(("RB_PIN_UART1", true)) }),
        (Port::A, 8, Func::Uart(1)) => Some(HwConfig { mode: "GPIO_ModeIN_PU", digital: false, remap: Some(("RB_PIN_UART1", false)) }),
        (Port::B, 12, Func::Uart(1)) => Some(HwConfig { mode: "GPIO_ModeIN_PU", digital: false, remap: Some(("RB_PIN_UART1", true)) }),
        (Port::A, 7, Func::Uart(2)) => Some(HwConfig { mode: "GPIO_ModeOut_PP_5mA", digital: false, remap: Some(("RB_PIN_UART2", false)) }),
        (Port::B, 23, Func::Uart(2)) => Some(HwConfig { mode: "GPIO_ModeOut_PP_5mA", digital: false, remap: Some(("RB_PIN_UART2", true)) }),
        (Port::A, 6, Func::Uart(2)) => Some(HwConfig { mode: "GPIO_ModeIN_PU", digital: false, remap: Some(("RB_PIN_UART2", false)) }),
        (Port::B, 22, Func::Uart(2)) => Some(HwConfig { mode: "GPIO_ModeIN_PU", digital: false, remap: Some(("RB_PIN_UART2", true)) }),
        (Port::A, 5, Func::Uart(3)) => Some(HwConfig { mode: "GPIO_ModeOut_PP_5mA", digital: false, remap: Some(("RB_PIN_UART3", false)) }),
        (Port::B, 21, Func::Uart(3)) => Some(HwConfig { mode: "GPIO_ModeOut_PP_5mA", digital: false, remap: Some(("RB_PIN_UART3", true)) }),
        (Port::A, 4, Func::Uart(3)) => Some(HwConfig { mode: "GPIO_ModeIN_PU", digital: false, remap: Some(("RB_PIN_UART3", false)) }),
        (Port::B, 20, Func::Uart(3)) => Some(HwConfig { mode: "GPIO_ModeIN_PU", digital: false, remap: Some(("RB_PIN_UART3", true)) }),
        (Port::A, 12, Func::Spi(0)) => Some(HwConfig { mode: "GPIO_ModeOut_PP_5mA", digital: false, remap: Some(("RB_PIN_SPI0", false)) }),
        (Port::A, 13, Func::Spi(0)) => Some(HwConfig { mode: "GPIO_ModeOut_PP_5mA", digital: false, remap: Some(("RB_PIN_SPI0", false)) }),
        (Port::A, 14, Func::Spi(0)) => Some(HwConfig { mode: "GPIO_ModeOut_PP_5mA", digital: false, remap: Some(("RB_PIN_SPI0", false)) }),
        (Port::A, 15, Func::Spi(0)) => Some(HwConfig { mode: "GPIO_ModeIN_PU", digital: false, remap: Some(("RB_PIN_SPI0", false)) }),
        (Port::B, 12, Func::Spi(0)) => Some(HwConfig { mode: "GPIO_ModeOut_PP_5mA", digital: false, remap: Some(("RB_PIN_SPI0", true)) }),
        (Port::B, 13, Func::Spi(0)) => Some(HwConfig { mode: "GPIO_ModeOut_PP_5mA", digital: false, remap: Some(("RB_PIN_SPI0", true)) }),
        (Port::B, 14, Func::Spi(0)) => Some(HwConfig { mode: "GPIO_ModeOut_PP_5mA", digital: false, remap: Some(("RB_PIN_SPI0", true)) }),
        (Port::B, 15, Func::Spi(0)) => Some(HwConfig { mode: "GPIO_ModeIN_PU", digital: false, remap: Some(("RB_PIN_SPI0", true)) }),
        (Port::A, 0, Func::Spi(1)) => Some(HwConfig { mode: "GPIO_ModeOut_PP_5mA", digital: false, remap: None }),
        (Port::A, 1, Func::Spi(1)) => Some(HwConfig { mode: "GPIO_ModeOut_PP_5mA", digital: false, remap: None }),
        (Port::A, 2, Func::Spi(1)) => Some(HwConfig { mode: "GPIO_ModeIN_PU", digital: false, remap: None }),
        (Port::B, 10, Func::Usb(UsbSpeed::FullSpeed)) => Some(HwConfig { mode: "GPIO_ModeIN_PU", digital: false, remap: None }),
        (Port::B, 11, Func::Usb(UsbSpeed::FullSpeed)) => Some(HwConfig { mode: "GPIO_ModeIN_PU", digital: false, remap: None }),
        (Port::B, 12, Func::Usb(UsbSpeed::HighSpeed)) => Some(HwConfig { mode: "GPIO_ModeIN_PU", digital: false, remap: None }),
        (Port::B, 13, Func::Usb(UsbSpeed::HighSpeed)) => Some(HwConfig { mode: "GPIO_ModeIN_PU", digital: false, remap: None }),
        (Port::B, 8, Func::Nfc) => Some(HwConfig { mode: "GPIO_ModeIN_PU", digital: false, remap: None }),
        (Port::B, 9, Func::Nfc) => Some(HwConfig { mode: "GPIO_ModeIN_PU", digital: false, remap: None }),
        (Port::B, 16, Func::Nfc) => Some(HwConfig { mode: "GPIO_ModeIN_PU", digital: false, remap: None }),
        (Port::B, 17, Func::Nfc) => Some(HwConfig { mode: "GPIO_ModeIN_PU", digital: false, remap: None }),
        (Port::A, 10, Func::X32k) => Some(HwConfig { mode: "GPIO_ModeIN_Floating", digital: false, remap: None }),
        (Port::A, 11, Func::X32k) => Some(HwConfig { mode: "GPIO_ModeIN_Floating", digital: false, remap: None }),
        (Port::A, 0, Func::Led(0)) => Some(HwConfig { mode: "GPIO_ModeOut_PP_5mA", digital: false, remap: None }),
        (Port::A, 1, Func::Led(1)) => Some(HwConfig { mode: "GPIO_ModeOut_PP_5mA", digital: false, remap: None }),
        (Port::A, 2, Func::Led(2)) => Some(HwConfig { mode: "GPIO_ModeOut_PP_5mA", digital: false, remap: None }),
        (Port::A, 3, Func::Led(3)) => Some(HwConfig { mode: "GPIO_ModeOut_PP_5mA", digital: false, remap: None }),
        (Port::A, 4, Func::Led(8)) => Some(HwConfig { mode: "GPIO_ModeOut_PP_5mA", digital: false, remap: None }),
        (Port::A, 5, Func::Led(4)) => Some(HwConfig { mode: "GPIO_ModeOut_PP_5mA", digital: false, remap: None }),
        (Port::A, 6, Func::Led(5)) => Some(HwConfig { mode: "GPIO_ModeOut_PP_5mA", digital: false, remap: None }),
        (Port::A, 7, Func::Led(6)) => Some(HwConfig { mode: "GPIO_ModeOut_PP_5mA", digital: false, remap: None }),
        (Port::A, 8, Func::Led(7)) => Some(HwConfig { mode: "GPIO_ModeOut_PP_5mA", digital: false, remap: None }),
        (Port::A, 4, Func::Adc(0)) => Some(HwConfig { mode: "GPIO_ModeIN_Floating", digital: false, remap: None }),
        (Port::A, 5, Func::Adc(1)) => Some(HwConfig { mode: "GPIO_ModeIN_Floating", digital: false, remap: None }),
        (Port::A, 12, Func::Adc(2)) => Some(HwConfig { mode: "GPIO_ModeIN_Floating", digital: false, remap: None }),
        (Port::A, 13, Func::Adc(3)) => Some(HwConfig { mode: "GPIO_ModeIN_Floating", digital: false, remap: None }),
        (Port::A, 14, Func::Adc(4)) => Some(HwConfig { mode: "GPIO_ModeIN_Floating", digital: false, remap: None }),
        (Port::A, 15, Func::Adc(5)) => Some(HwConfig { mode: "GPIO_ModeIN_Floating", digital: false, remap: None }),
        (Port::A, 3, Func::Adc(6)) => Some(HwConfig { mode: "GPIO_ModeIN_Floating", digital: false, remap: None }),
        (Port::A, 2, Func::Adc(7)) => Some(HwConfig { mode: "GPIO_ModeIN_Floating", digital: false, remap: None }),
        (Port::A, 1, Func::Adc(8)) => Some(HwConfig { mode: "GPIO_ModeIN_Floating", digital: false, remap: None }),
        (Port::A, 0, Func::Adc(9)) => Some(HwConfig { mode: "GPIO_ModeIN_Floating", digital: false, remap: None }),
        (Port::A, 6, Func::Adc(10)) => Some(HwConfig { mode: "GPIO_ModeIN_Floating", digital: false, remap: None }),
        (Port::A, 7, Func::Adc(11)) => Some(HwConfig { mode: "GPIO_ModeIN_Floating", digital: false, remap: None }),
        (Port::A, 8, Func::Adc(12)) => Some(HwConfig { mode: "GPIO_ModeIN_Floating", digital: false, remap: None }),
        (Port::A, 9, Func::Adc(13)) => Some(HwConfig { mode: "GPIO_ModeIN_Floating", digital: false, remap: None }),
        _ => None,
    }
}

/// The start-up configuration of one board signal. Only signals whose
/// function the pin supports have one.
pub fn derive_hw_config(def: &Def) -> (hw: HwConfig)
    requires
        def_supported(*def),
    ensures
        spec_hw_config(def.pin.0, def.pin.1, def.func) == Some(hw),
{
    match lookup_hw_config(def.port(), def.pin_num(), def.func) {
        Some(hw) => hw,
        None => {
            proof {
                assert(false);
            }
            HwConfig { mode: "", digital: false, remap: None }
        },
    }
}

/// Every signal's function is supported on its pin.
pub open spec fn all_supported(defs: Seq<Def>) -> bool {
    forall|i: int| 0 <= i < defs.len() ==> def_supported(#[trigger] defs[i])
}

/// Whether every signal's function is supported on its pin.
pub fn all_signals_supported(defs: &[Def]) -> (ok: bool)
    ensures
        ok == all_supported(defs@),
{
    let mut i: usize = 0;
    while i < defs.len()
        invariant
            i <= defs.len(),
            forall|k: int| 0 <= k < i ==> def_supported(#[trigger] defs@[k]),
        decreases defs.len() - i,
    {
        if lookup_hw_config(defs[i].port(), defs[i].pin_num(), defs[i].func).is_none() {
            return false;
        }
        i += 1;
    }
    true
}

/// Every signal of the VoidPointer board uses a function that its pin
/// supports, so the board's start-up code can be generated.
pub proof fn lemma_voidpointer_board_supported()
    ensures
        all_supported(spec_voidpointer_board()),
{
    let b = spec_voidpointer_board();
    assert forall|i: int| 0 <= i < b.len() implies def_supported(#[trigger] b[i]) by {
        assert(0 <= i < 22);
    }
}

/// The remap register setting of an I2C pin.
pub fn i2c_remap(port: Port, pin: u8) -> (r: (&'static str, bool))
    requires
        spec_i2c_remap(port, pin) is Some,
    ensures
        spec_i2c_remap(port, pin) == Some(r),
{
    match (port, pin) {
        (Port::B, 12) | (Port::B, 13) => ("RB_PIN_I2C", false),
        _ => ("RB_PIN_I2C", true),
    }
}

/// The letter of a GPIO port.
pub fn port_char(port: Port) -> (c: char)
    ensures
        c == (match port {
            Port::A => 'A',
            Port::B => 'B',
        }),
{
    match port {
        Port::A => 'A',
        Port::B => 'B',
    }
}

/// The prefix of the peripheral-library calls for a GPIO port.
pub fn gpio_port_prefix(port: Port) -> (p: &'static str)
    ensures
        p == spec_gpio_port_prefix(port),
{
    match port {
        Port::A => "GPIOA",
        Port::B => "GPIOB",
    }
}

pub open spec fn spec_gpio_port_prefix(port: Port) -> &'static str {
    match port {
        Port::A => "GPIOA",
        Port::B => "GPIOB",
    }
}

} // verus!
