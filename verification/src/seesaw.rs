//! Register protocol and recovery state machine of the capacitive
//! soil-moisture/temperature sensor.
//!
//! The device exposes a two-level register space: every access names a
//! module byte and a sub-register byte, and every read is preceded by a
//! write of that 2-byte address, followed by a 1/2/4-byte read parsed
//! big-endian. The driver is a three-state machine (`Init`, `Messuring`,
//! `Error`) stepped once per invocation; the bus transactions themselves
//! happen outside the library, which sees only their outcome as a
//! [`SensorEvent`].

use vstd::prelude::*;

verus! {

/// Mandatory wait, in milliseconds, between triggering the moisture
/// measurement (the address write of the touch channel) and the read
/// being valid.
pub const MOISTURE_SETTLE_MS: u64 = 3000;

/// Sub-registers of the status module (module byte `0x00`).
#[derive(Debug, Clone, Copy, PartialEq, Eq, Structural)]
pub enum SeesawStatus {
    HwId,
    Version,
    Options,
    Temp,
    Reset,
}

/// Sub-registers of the touch module (module byte `0x0F`).
#[derive(Debug, Clone, Copy, PartialEq, Eq, Structural)]
pub enum SeesawTouch {
    ChannelOffset,
}

/// The modules of the device's register space. Only the status and touch
/// modules carry sub-registers the driver reads; the rest address their
/// module base.
#[allow(dead_code)]
#[derive(Debug, Clone, Copy, PartialEq, Eq, Structural)]
pub enum SeesawReg {
    Status(SeesawStatus),
    Gpio,
    Sercom0,
    Timer,
    Adc,
    Dac,
    Interrupt,
    Dap,
    Eeprom,
    Neopixel,
    Touch(SeesawTouch),
    Keypad,
    Encoder,
    Spectrum,
}

/// The module byte of a register: the first byte of its bus address.
pub open spec fn spec_module_byte(reg: SeesawReg) -> u8 {
    match reg {
        SeesawReg::Status(_) => 0x00,
        SeesawReg::Gpio => 0x01,
        SeesawReg::Sercom0 => 0x02,
        SeesawReg::Timer => 0x08,
        SeesawReg::Adc => 0x09,
        SeesawReg::Dac => 0x0A,
        SeesawReg::Interrupt => 0x0B,
        SeesawReg::Dap => 0x0C,
        SeesawReg::Eeprom => 0x0D,
        SeesawReg::Neopixel => 0x0E,
        SeesawReg::Touch(_) => 0x0F,
        SeesawReg::Keypad => 0x10,
        SeesawReg::Encoder => 0x11,
        SeesawReg::Spectrum => 0x12,
    }
}

/// The sub-register byte of a register: the second byte of its bus
/// address.
pub open spec fn spec_sub_register_byte(reg: SeesawReg) -> u8 {
    match reg {
        SeesawReg::Status(SeesawStatus::HwId) => 0x01,
        SeesawReg::Status(SeesawStatus::Version) => 0x02,
        SeesawReg::Status(SeesawStatus::Options) => 0x03,
        SeesawReg::Status(SeesawStatus::Temp) => 0x04,
        SeesawReg::Status(SeesawStatus::Reset) => 0x7F,
        SeesawReg::Touch(SeesawTouch::ChannelOffset) => 0x10,
        _ => 0x00,
    }
}

impl SeesawReg {
    /// The 2-byte bus address written before every read of this
    /// register: module byte first, sub-register byte second.
    pub fn get_register(&self) -> (r: [u8; 2])
        ensures
            r[0] == spec_module_byte(*self),
            r[1] == spec_sub_register_byte(*self),
    {
        match self {
            Self::Status(SeesawStatus::HwId) => [0x00, 0x01],
            Self::Status(SeesawStatus::Version) => [0x00, 0x02],
            Self::Status(SeesawStatus::Options) => [0x00, 0x03],
            Self::Status(SeesawStatus::Temp) => [0x00, 0x04],
            Self::Status(SeesawStatus::Reset) => [0x00, 0x7F],
            Self::Gpio => [0x01, 0x00],
            Self::Sercom0 => [0x02, 0x00],
            Self::Timer => [0x08, 0x00],
            Self::Adc => [0x09, 0x00],
            Self::Dac => [0x0A, 0x00],
            Self::Interrupt => [0x0B, 0x00],
            Self::Dap => [0x0C, 0x00],
            Self::Eeprom => [0x0D, 0x00],
            Self::Neopixel => [0x0E, 0x00],
            Self::Touch(SeesawTouch::ChannelOffset) => [0x0F, 0x10],
            Self::Keypad => [0x10, 0x00],
            Self::Encoder => [0x11, 0x00],
            Self::Spectrum => [0x12, 0x00],
        }
    }

    /// Whether the capability bit of this register's module is set in
    /// the device's options word: bit `N` of the word, where `N` is the
    /// module byte.
    pub fn in_options(&self, options: u32) -> (r: bool)
        ensures
            r == (options & (1u32 << spec_module_byte(*self)) != 0),
    {
        let base: u8 = self.get_register()[0];
        assert(base == spec_module_byte(*self));
        options & (1u32 << base) != 0
    }
}

/// Whether the options word reported by the device carries the
/// capability needed for the touch/moisture channel: the bit whose index
/// is the touch module byte.
pub fn required_capability_present(options: u32) -> (r: bool)
    ensures
        r == (options & (1u32 << spec_module_byte(
            SeesawReg::Touch(SeesawTouch::ChannelOffset),
        )) != 0),
{
    SeesawReg::Touch(SeesawTouch::ChannelOffset).in_options(options)
}

/// Parses a 2-byte big-endian register read.
pub fn u16_from_be(bytes: [u8; 2]) -> (r: u16)
    ensures
        r == bytes[0] * 256 + bytes[1],
{
    (bytes[0] as u16) * 256 + (bytes[1] as u16)
}

/// Parses a 4-byte big-endian register read.
pub fn u32_from_be(bytes: [u8; 4]) -> (r: u32)
    ensures
        r == bytes[0] * 0x1000000 + bytes[1] * 0x10000 + bytes[2] * 0x100 + bytes[3],
{
    (bytes[0] as u32) * 0x1000000 + (bytes[1] as u32) * 0x10000 + (bytes[2] as u32) * 0x100 + (
    bytes[3] as u32)
}

/// One raw sample as read from the device: the temperature register's
/// raw value, a fixed-point number of degrees scaled by `1/65536`, and
/// the moisture channel's 16-bit reading.
#[derive(Debug, Clone, Copy, PartialEq, Eq, Structural)]
pub struct Messurement {
    pub temp: u32,
    pub moisture: u16,
}

/// The driver's state: `Init` reads identity and capabilities,
/// `Messuring` produces one sample per step, `Error` retries a soft
/// reset until the bus answers again.
#[derive(Debug, Clone, Copy, PartialEq, Eq, Structural)]
pub enum SoilSensorState {
    Init,
    Messuring,
    Error,
}

/// The outcome of the bus work done for one driver step, handed back to
/// the state machine: the init sequence completed and reported whether
/// the required capability bit was present, a full measurement
/// completed, the soft reset was acknowledged, or some bus transaction
/// failed.
#[derive(Debug, Clone, Copy, PartialEq, Eq, Structural)]
pub enum SensorEvent {
    InitDone { options_ok: bool },
    MessurementDone(Messurement),
    ResetDone,
    BusFault,
}

/// The transition table of the driver. A bus fault in any state routes
/// to `Error`; a missing capability is treated the same way. Only a
/// completed measurement in `Messuring` yields a sample to send. An
/// event that cannot arise in the given state leaves it unchanged.
pub open spec fn sensor_next(state: SoilSensorState, event: SensorEvent) -> (
    SoilSensorState,
    Option<Messurement>,
) {
    match (state, event) {
        (SoilSensorState::Init, SensorEvent::InitDone { options_ok }) => (
            if options_ok {
                SoilSensorState::Messuring
            } else {
                SoilSensorState::Error
            },
            None,
        ),
        (SoilSensorState::Messuring, SensorEvent::MessurementDone(m)) => (
            SoilSensorState::Messuring,
            Some(m),
        ),
        (SoilSensorState::Error, SensorEvent::ResetDone) => (SoilSensorState::Init, None),
        (_, SensorEvent::BusFault) => (SoilSensorState::Error, None),
        (s, _) => (s, None),
    }
}

/// The soil-sensor driver: its bus address and its protocol state. The
/// bus transactions for each step are performed by the caller, which
/// owns the bus; the driver decides, from their outcome, the next state
/// and whether a sample is to be pushed (with a blocking send: the
/// producer stalls on a full raw-sample channel rather than dropping).
pub struct SoilSensor {
    pub address: u8,
    pub state: SoilSensorState,
}

impl SoilSensor {
    /// A fresh driver for the device at the given bus address, starting
    /// in `Init`.
    pub fn new(address: u8) -> (s: Self)
        ensures
            s.address == address,
            s.state == SoilSensorState::Init,
    {
        SoilSensor { address, state: SoilSensorState::Init }
    }

    /// One step of the state machine, driven by the outcome of this
    /// step's bus work. Returns the sample to push into the raw-sample
    /// channel, if the step produced one.
    pub fn run(&mut self, event: SensorEvent) -> (sample: Option<Messurement>)
        ensures
            (final(self).state, sample) == sensor_next(old(self).state, event),
            final(self).address == old(self).address,
    {
        let (next, sample) = match (self.state, event) {
            (SoilSensorState::Init, SensorEvent::InitDone { options_ok }) => (
                if options_ok {
                    SoilSensorState::Messuring
                } else {
                    SoilSensorState::Error
                },
                None,
            ),
            (SoilSensorState::Messuring, SensorEvent::MessurementDone(m)) => (
                SoilSensorState::Messuring,
                Some(m),
            ),
            (SoilSensorState::Error, SensorEvent::ResetDone) => (SoilSensorState::Init, None),
            (_, SensorEvent::BusFault) => (SoilSensorState::Error, None),
            (s, _) => (s, None),
        };
        self.state = next;
        sample
    }
}

/// A thin owner of the bus handle used for the register protocol: the
/// 2-byte address write and the width-typed reads are issued on this
/// handle by the task that owns it.
pub struct I2CInterfaces<T> {
    pub i2c: T,
}

impl<T> I2CInterfaces<T> {
    /// Wraps the given bus handle.
    pub fn new(i2c: T) -> (r: Self)
        ensures
            r.i2c == i2c,
    {
        I2CInterfaces { i2c }
    }
}

} // verus!
