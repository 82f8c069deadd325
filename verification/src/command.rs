use vstd::prelude::*;

verus! {

/// The I2C address when the ADDR pin is connected to logic low
pub const I2C_ADDRESS_LOGIC_LOW: u8 = 0x44;

/// The I2C address when the ADDR pin is connected to logic high
pub const I2C_ADDRESS_LOGIC_HIGH: u8 = 0x45;

/// The default I2C address (ADDR pin connected to low)
pub const DEFAULT_I2C_ADDRESS: u8 = I2C_ADDRESS_LOGIC_LOW;

/// How long the sensor needs after a soft reset to reach its idle state, in
/// microseconds.
pub const RESET_DURATION_US: u32 = 1500;

/// The repeatability influences the measurement duration and the energy consumption of the sensor
/// It also gives a more or less accurate measurement
///
/// Here are the repeatability values for humidity and temperature:
///  - Low repeatability: 0.21 %RH - 0.15 °C
///  - Medium repeatability: 0.15 %RH - 0.08 °C
///  - High repeatability: 0.08 %RH - 0.04 °C
///
/// The measurement durations are the following:
///  - Low repeatability: 4 ms (with supply voltage of 2.4-5.5 V) or 4.5 ms (with supply voltage of 2.15-2.4 V)
///  - Medium repeatability: 6 ms (with supply voltage of 2.4-5.5 V) or 6.5 ms (with supply voltage of 2.15-2.4 V)
///  - High repeatability: 15 ms (with supply voltage of 2.4-5.5 V) or 15.5 ms (with supply voltage of 2.15-2.4 V)
#[derive(Debug, Clone, Copy, PartialEq, Eq, Structural)]
pub enum Repeatability {
    /// High repeatability: 0.08 %RH - 0.04 °C
    High,
    /// Medium repeatability: 0.15 %RH - 0.08 °C
    Medium,
    /// Low repeatability: 0.21 %RH - 0.15 °C
    Low,
}

/// A command word understood by the sensor.
#[derive(Debug, Clone, Copy, PartialEq, Eq, Structural)]
pub enum Command {
    /// Clear all the flags of the status register.
    ClearStatus,
    /// Switch the internal heater off.
    DisableHeater,
    /// Switch the internal heater on.
    EnableHeater,
    /// Read the status register.
    GetStatus,
    /// Single-shot measurement with high repeatability and clock stretching.
    MeasureHighRepeatability,
    /// Single-shot measurement with medium repeatability and clock stretching.
    MeasureMediumRepeatability,
    /// Single-shot measurement with low repeatability and clock stretching.
    MeasureLowRepeatability,
    /// Soft reset.
    Reset,
}

impl Command {
    /// The two bytes of the command word, most significant byte first.
    pub open spec fn spec_bytes(self) -> Seq<u8> {
        match self {
            Command::ClearStatus => seq![0x30u8, 0x41u8],
            Command::DisableHeater => seq![0x30u8, 0x66u8],
            Command::EnableHeater => seq![0x30u8, 0x6du8],
            Command::GetStatus => seq![0xf3u8, 0x2du8],
            Command::MeasureHighRepeatability => seq![0x2cu8, 0x06u8],
            Command::MeasureMediumRepeatability => seq![0x2cu8, 0x0du8],
            Command::MeasureLowRepeatability => seq![0x2cu8, 0x10u8],
            Command::Reset => seq![0x30u8, 0xa2u8],
        }
    }

    /// The two bytes that are written on the bus for this command.
    pub fn bytes(&self) -> (bytes: [u8; 2])
        ensures
            bytes@ == self.spec_bytes(),
    {
        let bytes: [u8; 2] = match self {
            Command::ClearStatus => [0x30, 0x41],
            Command::DisableHeater => [0x30, 0x66],
            Command::EnableHeater => [0x30, 0x6d],
            Command::GetStatus => [0xf3, 0x2d],
            Command::MeasureHighRepeatability => [0x2c, 0x06],
            Command::MeasureMediumRepeatability => [0x2c, 0x0d],
            Command::MeasureLowRepeatability => [0x2c, 0x10],
            Command::Reset => [0x30, 0xa2],
        };
        assert(bytes@ =~= self.spec_bytes());
        bytes
    }
}

impl Repeatability {
    /// The single-shot measurement command of this repeatability.
    pub open spec fn spec_measurement_command(self) -> Command {
        match self {
            Repeatability::High => Command::MeasureHighRepeatability,
            Repeatability::Medium => Command::MeasureMediumRepeatability,
            Repeatability::Low => Command::MeasureLowRepeatability,
        }
    }

    /// The single-shot measurement command of this repeatability.
    pub fn measurement_command(&self) -> (command: Command)
        ensures
            command == self.spec_measurement_command(),
    {
        match self {
            Repeatability::High => Command::MeasureHighRepeatability,
            Repeatability::Medium => Command::MeasureMediumRepeatability,
            Repeatability::Low => Command::MeasureLowRepeatability,
        }
    }
}

} // verus!
