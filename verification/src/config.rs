//! The typed configuration register and its field codec.
//!
//! The device is controlled through one 16-bit configuration register made of
//! eight pairwise-disjoint masked fields (plus a one-bit device-status field).
//! Each field holds exactly one value of a small closed enumeration; the codec
//! maps each enumerated value to its chip-documented bit pattern inside the
//! field's mask, and back.

use vstd::pervasive::unreached;
use vstd::prelude::*;

verus! {

/// Mask of the one-bit operational-status field (conversion busy / not busy).
pub const OS_MASK: u16 = 0x8000;
/// Mask of the three-bit input-multiplexer field.
pub const MUX_MASK: u16 = 0x7000;
/// Mask of the three-bit programmable-gain-amplifier field.
pub const PGA_MASK: u16 = 0x0E00;
/// Mask of the one-bit operating-mode field (continuous / single-shot).
pub const MODE_MASK: u16 = 0x0100;
/// Mask of the three-bit data-rate field.
pub const DR_MASK: u16 = 0x00E0;
/// Mask of the one-bit comparator-mode field.
pub const COMP_MODE_MASK: u16 = 0x0010;
/// Mask of the one-bit comparator-polarity field.
pub const COMP_POL_MASK: u16 = 0x0008;
/// Mask of the one-bit comparator-latching field.
pub const COMP_LAT_MASK: u16 = 0x0004;
/// Mask of the two-bit comparator-queue field.
pub const COMP_QUE_MASK: u16 = 0x0003;

/// The power-on-safe default register value: channel 0 vs channel 1,
/// 2.048 V full scale, single-shot mode, 128 samples/s, traditional
/// comparator, active-low polarity, non-latching, comparator disabled.
pub const DEFAULT_CONFIG_BITS: u16 = 0x0583;

/// Register-select byte values of the chip's four registers.
#[derive(Clone, Copy, Debug, PartialEq, Eq, Structural)]
pub enum Register {
    /// Conversion result register (read-only, 2 bytes, signed big-endian).
    Conversion,
    /// Configuration register (read/write, 2 bytes).
    Config,
    /// Low comparator-threshold register (write, 2 bytes, signed big-endian).
    LowThreshold,
    /// High comparator-threshold register (write, 2 bytes, signed big-endian).
    HighThreshold,
}

impl Register {
    /// The register-select byte that starts every bus transaction for this
    /// register.
    pub open spec fn spec_addr(self) -> u8 {
        match self {
            Register::Conversion => 0b00,
            Register::Config => 0b01,
            Register::LowThreshold => 0b10,
            Register::HighThreshold => 0b11,
        }
    }

    /// Returns the register-select byte of this register.
    pub fn addr(self) -> (r: u8)
        ensures
            r == self.spec_addr(),
    {
        match self {
            Register::Conversion => 0b00,
            Register::Config => 0b01,
            Register::LowThreshold => 0b10,
            Register::HighThreshold => 0b11,
        }
    }
}

/// Operational-status field: the device-reported state of a conversion.
///
/// The chip clears this bit while a conversion is in progress and sets it
/// when the conversion is complete; writing the `Busy` pattern in single-shot
/// mode triggers a new conversion.
#[derive(Clone, Copy, Debug, PartialEq, Eq, Structural)]
pub enum OperationalStatus {
    /// A conversion is in progress.
    Busy,
    /// No conversion is in progress; the result register is valid.
    NotBusy,
}

impl OperationalStatus {
    /// Bit pattern of this value inside `OS_MASK`.
    pub open spec fn spec_encode(self) -> u16 {
        match self {
            OperationalStatus::Busy => 0x0000,
            OperationalStatus::NotBusy => 0x8000,
        }
    }

    /// Encodes this value as its bit pattern inside `OS_MASK`.
    pub fn encode(self) -> (r: u16)
        ensures
            r == self.spec_encode(),
    {
        match self {
            OperationalStatus::Busy => 0x0000,
            OperationalStatus::NotBusy => 0x8000,
        }
    }

    /// The value held by the operational-status field of a full register
    /// value, or `None` when the masked bits match no enumerated value
    /// (never the case for this field: both patterns are assigned).
    pub open spec fn spec_decode(bits: u16) -> Option<OperationalStatus> {
        let field = bits & OS_MASK;
        if field == 0x0000 {
            Some(OperationalStatus::Busy)
        } else if field == 0x8000 {
            Some(OperationalStatus::NotBusy)
        } else {
            None
        }
    }

    /// Decodes the operational-status field of a full register value.
    pub fn decode(bits: u16) -> (r: Option<OperationalStatus>)
        ensures
            r == Self::spec_decode(bits),
    {
        let field: u16 = bits & OS_MASK;
        if field == 0x0000 {
            Some(OperationalStatus::Busy)
        } else if field == 0x8000 {
            Some(OperationalStatus::NotBusy)
        } else {
            None
        }
    }
}

/// Input-multiplexer field: which input pin pair (or pin against ground)
/// the converter samples.
#[derive(Clone, Copy, Debug, PartialEq, Eq, Structural)]
pub enum InputMultiplexer {
    /// Differential: AIN0 against AIN1.
    AIN0AIN1,
    /// Differential: AIN0 against AIN3.
    AIN0AIN3,
    /// Differential: AIN1 against AIN3.
    AIN1AIN3,
    /// Differential: AIN2 against AIN3.
    AIN2AIN3,
    /// Single-ended: AIN0 against ground.
    AIN0GND,
    /// Single-ended: AIN1 against ground.
    AIN1GND,
    /// Single-ended: AIN2 against ground.
    AIN2GND,
    /// Single-ended: AIN3 against ground.
    AIN3GND,
}

impl InputMultiplexer {
    /// Bit pattern of this value inside `MUX_MASK`.
    pub open spec fn spec_encode(self) -> u16 {
        match self {
            InputMultiplexer::AIN0AIN1 => 0x0000,
            InputMultiplexer::AIN0AIN3 => 0x1000,
            InputMultiplexer::AIN1AIN3 => 0x2000,
            InputMultiplexer::AIN2AIN3 => 0x3000,
            InputMultiplexer::AIN0GND => 0x4000,
            InputMultiplexer::AIN1GND => 0x5000,
            InputMultiplexer::AIN2GND => 0x6000,
            InputMultiplexer::AIN3GND => 0x7000,
        }
    }

    /// Encodes this value as its bit pattern inside `MUX_MASK`.
    pub fn encode(self) -> (r: u16)
        ensures
            r == self.spec_encode(),
    {
        match self {
            InputMultiplexer::AIN0AIN1 => 0x0000,
            InputMultiplexer::AIN0AIN3 => 0x1000,
            InputMultiplexer::AIN1AIN3 => 0x2000,
            InputMultiplexer::AIN2AIN3 => 0x3000,
            InputMultiplexer::AIN0GND => 0x4000,
            InputMultiplexer::AIN1GND => 0x5000,
            InputMultiplexer::AIN2GND => 0x6000,
            InputMultiplexer::AIN3GND => 0x7000,
        }
    }

    /// The value held by the input-multiplexer field of a full register
    /// value, or `None` when the masked bits match no enumerated value
    /// (never the case for this field: all eight patterns are assigned).
    pub open spec fn spec_decode(bits: u16) -> Option<InputMultiplexer> {
        let field = bits & MUX_MASK;
        if field == 0x0000 {
            Some(InputMultiplexer::AIN0AIN1)
        } else if field == 0x1000 {
            Some(InputMultiplexer::AIN0AIN3)
        } else if field == 0x2000 {
            Some(InputMultiplexer::AIN1AIN3)
        } else if field == 0x3000 {
            Some(InputMultiplexer::AIN2AIN3)
        } else if field == 0x4000 {
            Some(InputMultiplexer::AIN0GND)
        } else if field == 0x5000 {
            Some(InputMultiplexer::AIN1GND)
        } else if field == 0x6000 {
            Some(InputMultiplexer::AIN2GND)
        } else if field == 0x7000 {
            Some(InputMultiplexer::AIN3GND)
        } else {
            None
        }
    }

    /// Decodes the input-multiplexer field of a full register value.
    pub fn decode(bits: u16) -> (r: Option<InputMultiplexer>)
        ensures
            r == Self::spec_decode(bits),
    {
        let field: u16 = bits & MUX_MASK;
        if field == 0x0000 {
            Some(InputMultiplexer::AIN0AIN1)
        } else if field == 0x1000 {
            Some(InputMultiplexer::AIN0AIN3)
        } else if field == 0x2000 {
            Some(InputMultiplexer::AIN1AIN3)
        } else if field == 0x3000 {
            Some(InputMultiplexer::AIN2AIN3)
        } else if field == 0x4000 {
            Some(InputMultiplexer::AIN0GND)
        } else if field == 0x5000 {
            Some(InputMultiplexer::AIN1GND)
        } else if field == 0x6000 {
            Some(InputMultiplexer::AIN2GND)
        } else if field == 0x7000 {
            Some(InputMultiplexer::AIN3GND)
        } else {
            None
        }
    }
}

/// Gain-amplifier field: the programmable full-scale range of the input
/// amplifier. Each value names the voltage magnitude that corresponds to
/// the maximum positive raw sample.
#[derive(Clone, Copy, Debug, PartialEq, Eq, Structural)]
pub enum GainAmplifier {
    /// Full-scale range 6.144 V.
    V6_144,
    /// Full-scale range 4.096 V.
    V4_096,
    /// Full-scale range 2.048 V.
    V2_048,
    /// Full-scale range 1.024 V.
    V1_024,
    /// Full-scale range 0.512 V.
    V0_512,
    /// Full-scale range 0.256 V.
    V0_256,
}

impl GainAmplifier {
    /// Bit pattern of this value inside `PGA_MASK`.
    pub open spec fn spec_encode(self) -> u16 {
        match self {
            GainAmplifier::V6_144 => 0x0000,
            GainAmplifier::V4_096 => 0x0200,
            GainAmplifier::V2_048 => 0x0400,
            GainAmplifier::V1_024 => 0x0600,
            GainAmplifier::V0_512 => 0x0800,
            GainAmplifier::V0_256 => 0x0A00,
        }
    }

    /// Encodes this value as its bit pattern inside `PGA_MASK`.
    pub fn encode(self) -> (r: u16)
        ensures
            r == self.spec_encode(),
    {
        match self {
            GainAmplifier::V6_144 => 0x0000,
            GainAmplifier::V4_096 => 0x0200,
            GainAmplifier::V2_048 => 0x0400,
            GainAmplifier::V1_024 => 0x0600,
            GainAmplifier::V0_512 => 0x0800,
            GainAmplifier::V0_256 => 0x0A00,
        }
    }

    /// The value held by the gain-amplifier field of a full register value,
    /// or `None` when the masked bits match no enumerated value. This is the
    /// one field with unassigned patterns (`0x0C00` and `0x0E00`), so it is
    /// the one field on which decoding a register read from the device can
    /// fail.
    pub open spec fn spec_decode(bits: u16) -> Option<GainAmplifier> {
        let field = bits & PGA_MASK;
        if field == 0x0000 {
            Some(GainAmplifier::V6_144)
        } else if field == 0x0200 {
            Some(GainAmplifier::V4_096)
        } else if field == 0x0400 {
            Some(GainAmplifier::V2_048)
        } else if field == 0x0600 {
            Some(GainAmplifier::V1_024)
        } else if field == 0x0800 {
            Some(GainAmplifier::V0_512)
        } else if field == 0x0A00 {
            Some(GainAmplifier::V0_256)
        } else {
            None
        }
    }

    /// Decodes the gain-amplifier field of a full register value.
    pub fn decode(bits: u16) -> (r: Option<GainAmplifier>)
        ensures
            r == Self::spec_decode(bits),
    {
        let field: u16 = bits & PGA_MASK;
        if field == 0x0000 {
            Some(GainAmplifier::V6_144)
        } else if field == 0x0200 {
            Some(GainAmplifier::V4_096)
        } else if field == 0x0400 {
            Some(GainAmplifier::V2_048)
        } else if field == 0x0600 {
            Some(GainAmplifier::V1_024)
        } else if field == 0x0800 {
            Some(GainAmplifier::V0_512)
        } else if field == 0x0A00 {
            Some(GainAmplifier::V0_256)
        } else {
            None
        }
    }

    /// The full-scale range of this gain setting, in millivolts.
    pub open spec fn spec_full_scale_millivolts(self) -> u16 {
        match self {
            GainAmplifier::V6_144 => 6144,
            GainAmplifier::V4_096 => 4096,
            GainAmplifier::V2_048 => 2048,
            GainAmplifier::V1_024 => 1024,
            GainAmplifier::V0_512 => 512,
            GainAmplifier::V0_256 => 256,
        }
    }

    /// Returns the full-scale range of this gain setting, in millivolts.
    /// A raw sample of `i16::MAX` corresponds to exactly this voltage;
    /// callers that want volts divide by 1000 in their own numeric type.
    pub fn full_scale_millivolts(&self) -> (r: u16)
        ensures
            r == self.spec_full_scale_millivolts(),
    {
        match self {
            GainAmplifier::V6_144 => 6144,
            GainAmplifier::V4_096 => 4096,
            GainAmplifier::V2_048 => 2048,
            GainAmplifier::V1_024 => 1024,
            GainAmplifier::V0_512 => 512,
            GainAmplifier::V0_256 => 256,
        }
    }
}

/// Operating-mode field: continuous conversion or one conversion per
/// trigger write.
#[derive(Clone, Copy, Debug, PartialEq, Eq, Structural)]
pub enum Mode {
    /// Free-running conversion.
    Continuous,
    /// One conversion per trigger write.
    Single,
}

impl Mode {
    /// Bit pattern of this value inside `MODE_MASK`.
    pub open spec fn spec_encode(self) -> u16 {
        match self {
            Mode::Continuous => 0x0000,
            Mode::Single => 0x0100,
        }
    }

    /// Encodes this value as its bit pattern inside `MODE_MASK`.
    pub fn encode(self) -> (r: u16)
        ensures
            r == self.spec_encode(),
    {
        match self {
            Mode::Continuous => 0x0000,
            Mode::Single => 0x0100,
        }
    }

    /// The value held by the operating-mode field of a full register value,
    /// or `None` when the masked bits match no enumerated value (never the
    /// case for this field).
    pub open spec fn spec_decode(bits: u16) -> Option<Mode> {
        let field = bits & MODE_MASK;
        if field == 0x0000 {
            Some(Mode::Continuous)
        } else if field == 0x0100 {
            Some(Mode::Single)
        } else {
            None
        }
    }

    /// Decodes the operating-mode field of a full register value.
    pub fn decode(bits: u16) -> (r: Option<Mode>)
        ensures
            r == Self::spec_decode(bits),
    {
        let field: u16 = bits & MODE_MASK;
        if field == 0x0000 {
            Some(Mode::Continuous)
        } else if field == 0x0100 {
            Some(Mode::Single)
        } else {
            None
        }
    }
}

/// Data-rate field: sample throughput in samples per second.
#[derive(Clone, Copy, Debug, PartialEq, Eq, Structural)]
pub enum DataRate {
    /// 8 samples per second.
    SPS8,
    /// 16 samples per second.
    SPS16,
    /// 32 samples per second.
    SPS32,
    /// 64 samples per second.
    SPS64,
    /// 128 samples per second.
    SPS128,
    /// 250 samples per second.
    SPS250,
    /// 475 samples per second.
    SPS475,
    /// 860 samples per second.
    SPS860,
}

impl DataRate {
    /// Bit pattern of this value inside `DR_MASK`.
    pub open spec fn spec_encode(self) -> u16 {
        match self {
            DataRate::SPS8 => 0x0000,
            DataRate::SPS16 => 0x0020,
            DataRate::SPS32 => 0x0040,
            DataRate::SPS64 => 0x0060,
            DataRate::SPS128 => 0x0080,
            DataRate::SPS250 => 0x00A0,
            DataRate::SPS475 => 0x00C0,
            DataRate::SPS860 => 0x00E0,
        }
    }

    /// Encodes this value as its bit pattern inside `DR_MASK`.
    pub fn encode(self) -> (r: u16)
        ensures
            r == self.spec_encode(),
    {
        match self {
            DataRate::SPS8 => 0x0000,
            DataRate::SPS16 => 0x0020,
            DataRate::SPS32 => 0x0040,
            DataRate::SPS64 => 0x0060,
            DataRate::SPS128 => 0x0080,
            DataRate::SPS250 => 0x00A0,
            DataRate::SPS475 => 0x00C0,
            DataRate::SPS860 => 0x00E0,
        }
    }

    /// The value held by the data-rate field of a full register value, or
    /// `None` when the masked bits match no enumerated value (never the case
    /// for this field: all eight patterns are assigned).
    pub open spec fn spec_decode(bits: u16) -> Option<DataRate> {
        let field = bits & DR_MASK;
        if field == 0x0000 {
            Some(DataRate::SPS8)
        } else if field == 0x0020 {
            Some(DataRate::SPS16)
        } else if field == 0x0040 {
            Some(DataRate::SPS32)
        } else if field == 0x0060 {
            Some(DataRate::SPS64)
        } else if field == 0x0080 {
            Some(DataRate::SPS128)
        } else if field == 0x00A0 {
            Some(DataRate::SPS250)
        } else if field == 0x00C0 {
            Some(DataRate::SPS475)
        } else if field == 0x00E0 {
            Some(DataRate::SPS860)
        } else {
            None
        }
    }

    /// Decodes the data-rate field of a full register value.
    pub fn decode(bits: u16) -> (r: Option<DataRate>)
        ensures
            r == Self::spec_decode(bits),
    {
        let field: u16 = bits & DR_MASK;
        if field == 0x0000 {
            Some(DataRate::SPS8)
        } else if field == 0x0020 {
            Some(DataRate::SPS16)
        } else if field == 0x0040 {
            Some(DataRate::SPS32)
        } else if field == 0x0060 {
            Some(DataRate::SPS64)
        } else if field == 0x0080 {
            Some(DataRate::SPS128)
        } else if field == 0x00A0 {
            Some(DataRate::SPS250)
        } else if field == 0x00C0 {
            Some(DataRate::SPS475)
        } else if field == 0x00E0 {
            Some(DataRate::SPS860)
        } else {
            None
        }
    }
}

/// Comparator-mode field: traditional threshold comparator or window
/// comparator.
#[derive(Clone, Copy, Debug, PartialEq, Eq, Structural)]
pub enum ComparatorMode {
    /// Traditional comparator with hysteresis.
    Traditional,
    /// Window comparator.
    Window,
}

impl ComparatorMode {
    /// Bit pattern of this value inside `COMP_MODE_MASK`.
    pub open spec fn spec_encode(self) -> u16 {
        match self {
            ComparatorMode::Traditional => 0x0000,
            ComparatorMode::Window => 0x0010,
        }
    }

    /// Encodes this value as its bit pattern inside `COMP_MODE_MASK`.
    pub fn encode(self) -> (r: u16)
        ensures
            r == self.spec_encode(),
    {
        match self {
            ComparatorMode::Traditional => 0x0000,
            ComparatorMode::Window => 0x0010,
        }
    }

    /// The value held by the comparator-mode field of a full register value,
    /// or `None` when the masked bits match no enumerated value (never the
    /// case for this field).
    pub open spec fn spec_decode(bits: u16) -> Option<ComparatorMode> {
        let field = bits & COMP_MODE_MASK;
        if field == 0x0000 {
            Some(ComparatorMode::Traditional)
        } else if field == 0x0010 {
            Some(ComparatorMode::Window)
        } else {
            None
        }
    }

    /// Decodes the comparator-mode field of a full register value.
    pub fn decode(bits: u16) -> (r: Option<ComparatorMode>)
        ensures
            r == Self::spec_decode(bits),
    {
        let field: u16 = bits & COMP_MODE_MASK;
        if field == 0x0000 {
            Some(ComparatorMode::Traditional)
        } else if field == 0x0010 {
            Some(ComparatorMode::Window)
        } else {
            None
        }
    }
}

/// Comparator-polarity field: polarity of the alert pin when asserted.
#[derive(Clone, Copy, Debug, PartialEq, Eq, Structural)]
pub enum ComparatorPolarity {
    /// Alert pin is active low.
    ActiveLow,
    /// Alert pin is active high.
    ActiveHigh,
}

impl ComparatorPolarity {
    /// Bit pattern of this value inside `COMP_POL_MASK`.
    pub open spec fn spec_encode(self) -> u16 {
        match self {
            ComparatorPolarity::ActiveLow => 0x0000,
            ComparatorPolarity::ActiveHigh => 0x0008,
        }
    }

    /// Encodes this value as its bit pattern inside `COMP_POL_MASK`.
    pub fn encode(self) -> (r: u16)
        ensures
            r == self.spec_encode(),
    {
        match self {
            ComparatorPolarity::ActiveLow => 0x0000,
            ComparatorPolarity::ActiveHigh => 0x0008,
        }
    }

    /// The value held by the comparator-polarity field of a full register
    /// value, or `None` when the masked bits match no enumerated value
    /// (never the case for this field).
    pub open spec fn spec_decode(bits: u16) -> Option<ComparatorPolarity> {
        let field = bits & COMP_POL_MASK;
        if field == 0x0000 {
            Some(ComparatorPolarity::ActiveLow)
        } else if field == 0x0008 {
            Some(ComparatorPolarity::ActiveHigh)
        } else {
            None
        }
    }

    /// Decodes the comparator-polarity field of a full register value.
    pub fn decode(bits: u16) -> (r: Option<ComparatorPolarity>)
        ensures
            r == Self::spec_decode(bits),
    {
        let field: u16 = bits & COMP_POL_MASK;
        if field == 0x0000 {
            Some(ComparatorPolarity::ActiveLow)
        } else if field == 0x0008 {
            Some(ComparatorPolarity::ActiveHigh)
        } else {
            None
        }
    }
}

/// Comparator-latching field: whether an asserted alert pin stays asserted
/// until the host reads the conversion register.
#[derive(Clone, Copy, Debug, PartialEq, Eq, Structural)]
pub enum ComparatorLatching {
    /// The alert pin deasserts on its own.
    NonLatching,
    /// The alert pin stays asserted until read.
    Latching,
}

impl ComparatorLatching {
    /// Bit pattern of this value inside `COMP_LAT_MASK`.
    pub open spec fn spec_encode(self) -> u16 {
        match self {
            ComparatorLatching::NonLatching => 0x0000,
            ComparatorLatching::Latching => 0x0004,
        }
    }

    /// Encodes this value as its bit pattern inside `COMP_LAT_MASK`.
    pub fn encode(self) -> (r: u16)
        ensures
            r == self.spec_encode(),
    {
        match self {
            ComparatorLatching::NonLatching => 0x0000,
            ComparatorLatching::Latching => 0x0004,
        }
    }

    /// The value held by the comparator-latching field of a full register
    /// value, or `None` when the masked bits match no enumerated value
    /// (never the case for this field).
    pub open spec fn spec_decode(bits: u16) -> Option<ComparatorLatching> {
        let field = bits & COMP_LAT_MASK;
        if field == 0x0000 {
            Some(ComparatorLatching::NonLatching)
        } else if field == 0x0004 {
            Some(ComparatorLatching::Latching)
        } else {
            None
        }
    }

    /// Decodes the comparator-latching field of a full register value.
    pub fn decode(bits: u16) -> (r: Option<ComparatorLatching>)
        ensures
            r == Self::spec_decode(bits),
    {
        let field: u16 = bits & COMP_LAT_MASK;
        if field == 0x0000 {
            Some(ComparatorLatching::NonLatching)
        } else if field == 0x0004 {
            Some(ComparatorLatching::Latching)
        } else {
            None
        }
    }
}

/// Comparator-queue field: how many conversions beyond the threshold assert
/// the alert pin, or comparator disabled.
#[derive(Clone, Copy, Debug, PartialEq, Eq, Structural)]
pub enum ComparatorQueue {
    /// Assert after one conversion beyond the threshold.
    AsserAfterOne,
    /// Assert after two conversions beyond the threshold.
    AsserAfterTwo,
    /// Assert after four conversions beyond the threshold.
    AsserAfterFour,
    /// Comparator disabled; alert pin held high-impedance.
    Disable,
}

impl ComparatorQueue {
    /// Bit pattern of this value inside `COMP_QUE_MASK`.
    pub open spec fn spec_encode(self) -> u16 {
        match self {
            ComparatorQueue::AsserAfterOne => 0x0000,
            ComparatorQueue::AsserAfterTwo => 0x0001,
            ComparatorQueue::AsserAfterFour => 0x0002,
            ComparatorQueue::Disable => 0x0003,
        }
    }

    /// Encodes this value as its bit pattern inside `COMP_QUE_MASK`.
    pub fn encode(self) -> (r: u16)
        ensures
            r == self.spec_encode(),
    {
        match self {
            ComparatorQueue::AsserAfterOne => 0x0000,
            ComparatorQueue::AsserAfterTwo => 0x0001,
            ComparatorQueue::AsserAfterFour => 0x0002,
            ComparatorQueue::Disable => 0x0003,
        }
    }

    /// The value held by the comparator-queue field of a full register
    /// value, or `None` when the masked bits match no enumerated value
    /// (never the case for this field: all four patterns are assigned).
    pub open spec fn spec_decode(bits: u16) -> Option<ComparatorQueue> {
        let field = bits & COMP_QUE_MASK;
        if field == 0x0000 {
            Some(ComparatorQueue::AsserAfterOne)
        } else if field == 0x0001 {
            Some(ComparatorQueue::AsserAfterTwo)
        } else if field == 0x0002 {
            Some(ComparatorQueue::AsserAfterFour)
        } else if field == 0x0003 {
            Some(ComparatorQueue::Disable)
        } else {
            None
        }
    }

    /// Decodes the comparator-queue field of a full register value.
    pub fn decode(bits: u16) -> (r: Option<ComparatorQueue>)
        ensures
            r == Self::spec_decode(bits),
    {
        let field: u16 = bits & COMP_QUE_MASK;
        if field == 0x0000 {
            Some(ComparatorQueue::AsserAfterOne)
        } else if field == 0x0001 {
            Some(ComparatorQueue::AsserAfterTwo)
        } else if field == 0x0002 {
            Some(ComparatorQueue::AsserAfterFour)
        } else if field == 0x0003 {
            Some(ComparatorQueue::Disable)
        } else {
            None
        }
    }
}

/// Per-mask bit facts for the operational-status field: the masked bits of
/// any register value are one of the assigned patterns, and each pattern is
/// confined to the mask.
proof fn lemma_os_bits(b: u16)
    by (bit_vector)
    ensures
        b & OS_MASK == 0x0000 || b & OS_MASK == 0x8000,
        0x0000u16 & OS_MASK == 0x0000,
        0x8000u16 & OS_MASK == 0x8000,
{
}

/// Per-mask bit facts for the input-multiplexer field.
proof fn lemma_mux_bits(b: u16)
    by (bit_vector)
    ensures
        b & MUX_MASK == 0x0000 || b & MUX_MASK == 0x1000 || b & MUX_MASK == 0x2000
            || b & MUX_MASK == 0x3000 || b & MUX_MASK == 0x4000 || b & MUX_MASK == 0x5000
            || b & MUX_MASK == 0x6000 || b & MUX_MASK == 0x7000,
        0x0000u16 & MUX_MASK == 0x0000,
        0x1000u16 & MUX_MASK == 0x1000,
        0x2000u16 & MUX_MASK == 0x2000,
        0x3000u16 & MUX_MASK == 0x3000,
        0x4000u16 & MUX_MASK == 0x4000,
        0x5000u16 & MUX_MASK == 0x5000,
        0x6000u16 & MUX_MASK == 0x6000,
        0x7000u16 & MUX_MASK == 0x7000,
{
}

/// Per-mask bit facts for the gain-amplifier field.
proof fn lemma_pga_bits(b: u16)
    by (bit_vector)
    ensures
        b & PGA_MASK == 0x0000 || b & PGA_MASK == 0x0200 || b & PGA_MASK == 0x0400
            || b & PGA_MASK == 0x0600 || b & PGA_MASK == 0x0800 || b & PGA_MASK == 0x0A00
            || b & PGA_MASK == 0x0C00 || b & PGA_MASK == 0x0E00,
        0x0000u16 & PGA_MASK == 0x0000,
        0x0200u16 & PGA_MASK == 0x0200,
        0x0400u16 & PGA_MASK == 0x0400,
        0x0600u16 & PGA_MASK == 0x0600,
        0x0800u16 & PGA_MASK == 0x0800,
        0x0A00u16 & PGA_MASK == 0x0A00,
{
}

/// Per-mask bit facts for the operating-mode field.
proof fn lemma_mode_bits(b: u16)
    by (bit_vector)
    ensures
        b & MODE_MASK == 0x0000 || b & MODE_MASK == 0x0100,
        0x0000u16 & MODE_MASK == 0x0000,
        0x0100u16 & MODE_MASK == 0x0100,
{
}

/// Per-mask bit facts for the data-rate field.
proof fn lemma_dr_bits(b: u16)
    by (bit_vector)
    ensures
        b & DR_MASK == 0x0000 || b & DR_MASK == 0x0020 || b & DR_MASK == 0x0040
            || b & DR_MASK == 0x0060 || b & DR_MASK == 0x0080 || b & DR_MASK == 0x00A0
            || b & DR_MASK == 0x00C0 || b & DR_MASK == 0x00E0,
        0x0000u16 & DR_MASK == 0x0000,
        0x0020u16 & DR_MASK == 0x0020,
        0x0040u16 & DR_MASK == 0x0040,
        0x0060u16 & DR_MASK == 0x0060,
        0x0080u16 & DR_MASK == 0x0080,
        0x00A0u16 & DR_MASK == 0x00A0,
        0x00C0u16 & DR_MASK == 0x00C0,
        0x00E0u16 & DR_MASK == 0x00E0,
{
}

/// Per-mask bit facts for the comparator-mode field.
proof fn lemma_comp_mode_bits(b: u16)
    by (bit_vector)
    ensures
        b & COMP_MODE_MASK == 0x0000 || b & COMP_MODE_MASK == 0x0010,
        0x0000u16 & COMP_MODE_MASK == 0x0000,
        0x0010u16 & COMP_MODE_MASK == 0x0010,
{
}

/// Per-mask bit facts for the comparator-polarity field.
proof fn lemma_comp_pol_bits(b: u16)
    by (bit_vector)
    ensures
        b & COMP_POL_MASK == 0x0000 || b & COMP_POL_MASK == 0x0008,
        0x0000u16 & COMP_POL_MASK == 0x0000,
        0x0008u16 & COMP_POL_MASK == 0x0008,
{
}

/// Per-mask bit facts for the comparator-latching field.
proof fn lemma_comp_lat_bits(b: u16)
    by (bit_vector)
    ensures
        b & COMP_LAT_MASK == 0x0000 || b & COMP_LAT_MASK == 0x0004,
        0x0000u16 & COMP_LAT_MASK == 0x0000,
        0x0004u16 & COMP_LAT_MASK == 0x0004,
{
}

/// Per-mask bit facts for the comparator-queue field.
proof fn lemma_comp_que_bits(b: u16)
    by (bit_vector)
    ensures
        b & COMP_QUE_MASK == 0x0000 || b & COMP_QUE_MASK == 0x0001
            || b & COMP_QUE_MASK == 0x0002 || b & COMP_QUE_MASK == 0x0003,
        0x0000u16 & COMP_QUE_MASK == 0x0000,
        0x0001u16 & COMP_QUE_MASK == 0x0001,
        0x0002u16 & COMP_QUE_MASK == 0x0002,
        0x0003u16 & COMP_QUE_MASK == 0x0003,
{
}

/// The nine field masks are pairwise disjoint and together cover all 16
/// bits the protocol defines.
pub proof fn lemma_field_masks_partition()
    by (bit_vector)
    ensures
        OS_MASK & MUX_MASK == 0,
        OS_MASK & PGA_MASK == 0,
        OS_MASK & MODE_MASK == 0,
        OS_MASK & DR_MASK == 0,
        OS_MASK & COMP_MODE_MASK == 0,
        OS_MASK & COMP_POL_MASK == 0,
        OS_MASK & COMP_LAT_MASK == 0,
        OS_MASK & COMP_QUE_MASK == 0,
        MUX_MASK & PGA_MASK == 0,
        MUX_MASK & MODE_MASK == 0,
        MUX_MASK & DR_MASK == 0,
        MUX_MASK & COMP_MODE_MASK == 0,
        MUX_MASK & COMP_POL_MASK == 0,
        MUX_MASK & COMP_LAT_MASK == 0,
        MUX_MASK & COMP_QUE_MASK == 0,
        PGA_MASK & MODE_MASK == 0,
        PGA_MASK & DR_MASK == 0,
        PGA_MASK & COMP_MODE_MASK == 0,
        PGA_MASK & COMP_POL_MASK == 0,
        PGA_MASK & COMP_LAT_MASK == 0,
        PGA_MASK & COMP_QUE_MASK == 0,
        MODE_MASK & DR_MASK == 0,
        MODE_MASK & COMP_MODE_MASK == 0,
        MODE_MASK & COMP_POL_MASK == 0,
        MODE_MASK & COMP_LAT_MASK == 0,
        MODE_MASK & COMP_QUE_MASK == 0,
        DR_MASK & COMP_MODE_MASK == 0,
        DR_MASK & COMP_POL_MASK == 0,
        DR_MASK & COMP_LAT_MASK == 0,
        DR_MASK & COMP_QUE_MASK == 0,
        COMP_MODE_MASK & COMP_POL_MASK == 0,
        COMP_MODE_MASK & COMP_LAT_MASK == 0,
        COMP_MODE_MASK & COMP_QUE_MASK == 0,
        COMP_POL_MASK & COMP_LAT_MASK == 0,
        COMP_POL_MASK & COMP_QUE_MASK == 0,
        COMP_LAT_MASK & COMP_QUE_MASK == 0,
        OS_MASK | MUX_MASK | PGA_MASK | MODE_MASK | DR_MASK | COMP_MODE_MASK
            | COMP_POL_MASK | COMP_LAT_MASK | COMP_QUE_MASK == 0xFFFFu16,
{
}

/// Every field of any register value decodes, except possibly the
/// gain-amplifier field (the one field with unassigned patterns).
pub proof fn lemma_decode_total(b: u16)
    ensures
        OperationalStatus::spec_decode(b) is Some,
        InputMultiplexer::spec_decode(b) is Some,
        Mode::spec_decode(b) is Some,
        DataRate::spec_decode(b) is Some,
        ComparatorMode::spec_decode(b) is Some,
        ComparatorPolarity::spec_decode(b) is Some,
        ComparatorLatching::spec_decode(b) is Some,
        ComparatorQueue::spec_decode(b) is Some,
{
    lemma_os_bits(b);
    lemma_mux_bits(b);
    lemma_mode_bits(b);
    lemma_dr_bits(b);
    lemma_comp_mode_bits(b);
    lemma_comp_pol_bits(b);
    lemma_comp_lat_bits(b);
    lemma_comp_que_bits(b);
}

/// The gain-amplifier field of a register value decodes exactly when its
/// masked bits avoid the two unassigned patterns.
pub proof fn lemma_gain_decode(b: u16)
    ensures
        GainAmplifier::spec_decode(b) is Some <==> (b & PGA_MASK != 0x0C00 && b & PGA_MASK
            != 0x0E00),
{
    lemma_pga_bits(b);
}

/// Encoding any field value yields a pattern confined to that field's mask.
pub proof fn lemma_encode_confined(
    os: OperationalStatus,
    mux: InputMultiplexer,
    pga: GainAmplifier,
    mode: Mode,
    dr: DataRate,
    cm: ComparatorMode,
    cp: ComparatorPolarity,
    cl: ComparatorLatching,
    cq: ComparatorQueue,
)
    ensures
        os.spec_encode() & OS_MASK == os.spec_encode(),
        mux.spec_encode() & MUX_MASK == mux.spec_encode(),
        pga.spec_encode() & PGA_MASK == pga.spec_encode(),
        mode.spec_encode() & MODE_MASK == mode.spec_encode(),
        dr.spec_encode() & DR_MASK == dr.spec_encode(),
        cm.spec_encode() & COMP_MODE_MASK == cm.spec_encode(),
        cp.spec_encode() & COMP_POL_MASK == cp.spec_encode(),
        cl.spec_encode() & COMP_LAT_MASK == cl.spec_encode(),
        cq.spec_encode() & COMP_QUE_MASK == cq.spec_encode(),
{
    lemma_os_bits(0);
    lemma_mux_bits(0);
    lemma_pga_bits(0);
    lemma_mode_bits(0);
    lemma_dr_bits(0);
    lemma_comp_mode_bits(0);
    lemma_comp_pol_bits(0);
    lemma_comp_lat_bits(0);
    lemma_comp_que_bits(0);
}

/// Encoding and decoding are mutual inverses: for every field and every one
/// of its enumerated values, decoding the encoded pattern gives the value
/// back.
pub proof fn lemma_field_round_trips()
    ensures
        forall|v: OperationalStatus| #[trigger] OperationalStatus::spec_decode(v.spec_encode())
            == Some(v),
        forall|v: InputMultiplexer| #[trigger] InputMultiplexer::spec_decode(v.spec_encode())
            == Some(v),
        forall|v: GainAmplifier| #[trigger] GainAmplifier::spec_decode(v.spec_encode()) == Some(v),
        forall|v: Mode| #[trigger] Mode::spec_decode(v.spec_encode()) == Some(v),
        forall|v: DataRate| #[trigger] DataRate::spec_decode(v.spec_encode()) == Some(v),
        forall|v: ComparatorMode| #[trigger] ComparatorMode::spec_decode(v.spec_encode()) == Some(
            v,
        ),
        forall|v: ComparatorPolarity| #[trigger] ComparatorPolarity::spec_decode(v.spec_encode())
            == Some(v),
        forall|v: ComparatorLatching| #[trigger] ComparatorLatching::spec_decode(v.spec_encode())
            == Some(v),
        forall|v: ComparatorQueue| #[trigger] ComparatorQueue::spec_decode(v.spec_encode()) == Some(
            v,
        ),
{
    lemma_os_bits(0);
    lemma_mux_bits(0);
    lemma_pga_bits(0);
    lemma_mode_bits(0);
    lemma_dr_bits(0);
    lemma_comp_mode_bits(0);
    lemma_comp_pol_bits(0);
    lemma_comp_lat_bits(0);
    lemma_comp_que_bits(0);
}

/// Replaces the bits of one field: clears `mask` in `b`, then sets
/// `pattern` (which must be confined to `mask`).
pub open spec fn spec_set_field(b: u16, mask: u16, pattern: u16) -> u16 {
    (b & !mask) | pattern
}

/// Every field of `b` holds one of its enumerated values. Only the
/// gain-amplifier field has unassigned patterns, so only its clause can
/// fail; the others are stated all the same, since the register's contract
/// is that no field is ever left in an undefined bit pattern.
pub open spec fn spec_bits_wf(b: u16) -> bool {
    &&& OperationalStatus::spec_decode(b) is Some
    &&& InputMultiplexer::spec_decode(b) is Some
    &&& GainAmplifier::spec_decode(b) is Some
    &&& Mode::spec_decode(b) is Some
    &&& DataRate::spec_decode(b) is Some
    &&& ComparatorMode::spec_decode(b) is Some
    &&& ComparatorPolarity::spec_decode(b) is Some
    &&& ComparatorLatching::spec_decode(b) is Some
    &&& ComparatorQueue::spec_decode(b) is Some
}

/// Replacing masked bits touches nothing outside the mask and leaves
/// exactly the pattern inside it.
proof fn lemma_set_field(b: u16, e: u16, m: u16)
    by (bit_vector)
    requires
        e & m == e,
    ensures
        ((b & !m) | e) & m == e,
        ((b & !m) | e) & !m == b & !m,
{
}

/// Two register values that agree outside a mask agree on every mask
/// disjoint from it.
proof fn lemma_disjoint_preserved(b1: u16, b2: u16, m: u16, m2: u16)
    by (bit_vector)
    requires
        b1 & !m == b2 & !m,
        m & m2 == 0 || m2 & m == 0,
    ensures
        b1 & m2 == b2 & m2,
{
}

/// Two register values that agree outside a mask decode alike on every
/// field whose mask is disjoint from it.
proof fn lemma_fields_outside_mask_unchanged(b1: u16, b2: u16, m: u16)
    requires
        b1 & !m == b2 & !m,
    ensures
        (m & OS_MASK == 0 || OS_MASK & m == 0) ==> OperationalStatus::spec_decode(b1)
            == OperationalStatus::spec_decode(b2),
        (m & MUX_MASK == 0 || MUX_MASK & m == 0) ==> InputMultiplexer::spec_decode(b1)
            == InputMultiplexer::spec_decode(b2),
        (m & PGA_MASK == 0 || PGA_MASK & m == 0) ==> GainAmplifier::spec_decode(b1)
            == GainAmplifier::spec_decode(b2),
        (m & MODE_MASK == 0 || MODE_MASK & m == 0) ==> Mode::spec_decode(b1) == Mode::spec_decode(
            b2,
        ),
        (m & DR_MASK == 0 || DR_MASK & m == 0) ==> DataRate::spec_decode(b1)
            == DataRate::spec_decode(b2),
        (m & COMP_MODE_MASK == 0 || COMP_MODE_MASK & m == 0) ==> ComparatorMode::spec_decode(b1)
            == ComparatorMode::spec_decode(b2),
        (m & COMP_POL_MASK == 0 || COMP_POL_MASK & m == 0) ==> ComparatorPolarity::spec_decode(b1)
            == ComparatorPolarity::spec_decode(b2),
        (m & COMP_LAT_MASK == 0 || COMP_LAT_MASK & m == 0) ==> ComparatorLatching::spec_decode(b1)
            == ComparatorLatching::spec_decode(b2),
        (m & COMP_QUE_MASK == 0 || COMP_QUE_MASK & m == 0) ==> ComparatorQueue::spec_decode(b1)
            == ComparatorQueue::spec_decode(b2),
{
    if m & OS_MASK == 0 || OS_MASK & m == 0 {
        lemma_disjoint_preserved(b1, b2, m, OS_MASK);
    }
    if m & MUX_MASK == 0 || MUX_MASK & m == 0 {
        lemma_disjoint_preserved(b1, b2, m, MUX_MASK);
    }
    if m & PGA_MASK == 0 || PGA_MASK & m == 0 {
        lemma_disjoint_preserved(b1, b2, m, PGA_MASK);
    }
    if m & MODE_MASK == 0 || MODE_MASK & m == 0 {
        lemma_disjoint_preserved(b1, b2, m, MODE_MASK);
    }
    if m & DR_MASK == 0 || DR_MASK & m == 0 {
        lemma_disjoint_preserved(b1, b2, m, DR_MASK);
    }
    if m & COMP_MODE_MASK == 0 || COMP_MODE_MASK & m == 0 {
        lemma_disjoint_preserved(b1, b2, m, COMP_MODE_MASK);
    }
    if m & COMP_POL_MASK == 0 || COMP_POL_MASK & m == 0 {
        lemma_disjoint_preserved(b1, b2, m, COMP_POL_MASK);
    }
    if m & COMP_LAT_MASK == 0 || COMP_LAT_MASK & m == 0 {
        lemma_disjoint_preserved(b1, b2, m, COMP_LAT_MASK);
    }
    if m & COMP_QUE_MASK == 0 || COMP_QUE_MASK & m == 0 {
        lemma_disjoint_preserved(b1, b2, m, COMP_QUE_MASK);
    }
}

/// The 16-bit configuration register, an ordered set of nine disjoint
/// masked fields. Callers never twiddle bits directly: the value is built
/// with [`ADS111xConfig::new`] or [`ADS111xConfig::from_bits`] and changed
/// only through the whole-field `with_*` builders, so every field always
/// holds one of its enumerated values.
///
/// Field decoding is validated eagerly: `from_bits` rejects a pattern whose
/// gain-amplifier field is unassigned, and the field getters are total on
/// well-formed values, so no read of a constructed register can fail.
#[derive(Clone, Copy, Debug, PartialEq, Eq, Structural)]
pub struct ADS111xConfig {
    bits: u16,
}

impl ADS111xConfig {
    /// The raw 16-bit value of the register.
    pub closed spec fn spec_bits(self) -> u16 {
        self.bits
    }

    /// Every field holds one of its enumerated values.
    pub open spec fn wf(self) -> bool {
        spec_bits_wf(self.spec_bits())
    }

    /// The value of the operational-status field.
    pub open spec fn spec_operational_status(self) -> Option<OperationalStatus> {
        OperationalStatus::spec_decode(self.spec_bits())
    }

    /// The value of the input-multiplexer field.
    pub open spec fn spec_multiplexer(self) -> Option<InputMultiplexer> {
        InputMultiplexer::spec_decode(self.spec_bits())
    }

    /// The value of the gain-amplifier field.
    pub open spec fn spec_gain_amplifier(self) -> Option<GainAmplifier> {
        GainAmplifier::spec_decode(self.spec_bits())
    }

    /// The value of the operating-mode field.
    pub open spec fn spec_mode(self) -> Option<Mode> {
        Mode::spec_decode(self.spec_bits())
    }

    /// The value of the data-rate field.
    pub open spec fn spec_data_rate(self) -> Option<DataRate> {
        DataRate::spec_decode(self.spec_bits())
    }

    /// The value of the comparator-mode field.
    pub open spec fn spec_comparator_mode(self) -> Option<ComparatorMode> {
        ComparatorMode::spec_decode(self.spec_bits())
    }

    /// The value of the comparator-polarity field.
    pub open spec fn spec_comparator_polarity(self) -> Option<ComparatorPolarity> {
        ComparatorPolarity::spec_decode(self.spec_bits())
    }

    /// The value of the comparator-latching field.
    pub open spec fn spec_comparator_latching(self) -> Option<ComparatorLatching> {
        ComparatorLatching::spec_decode(self.spec_bits())
    }

    /// The value of the comparator-queue field.
    pub open spec fn spec_comparator_queue(self) -> Option<ComparatorQueue> {
        ComparatorQueue::spec_decode(self.spec_bits())
    }

    /// The register a 16-bit pattern deserializes to: `Some` exactly when
    /// every field of the pattern holds an enumerated value.
    pub closed spec fn spec_from_bits(bits: u16) -> Option<ADS111xConfig> {
        if spec_bits_wf(bits) {
            Some(ADS111xConfig { bits })
        } else {
            None
        }
    }

    /// Returns the power-on-safe default configuration.
    pub fn new() -> (r: ADS111xConfig)
        ensures
            r.spec_bits() == DEFAULT_CONFIG_BITS,
            r.wf(),
            r.spec_operational_status() == Some(OperationalStatus::Busy),
            r.spec_multiplexer() == Some(InputMultiplexer::AIN0AIN1),
            r.spec_gain_amplifier() == Some(GainAmplifier::V2_048),
            r.spec_mode() == Some(Mode::Single),
            r.spec_data_rate() == Some(DataRate::SPS128),
            r.spec_comparator_mode() == Some(ComparatorMode::Traditional),
            r.spec_comparator_polarity() == Some(ComparatorPolarity::ActiveLow),
            r.spec_comparator_latching() == Some(ComparatorLatching::NonLatching),
            r.spec_comparator_queue() == Some(ComparatorQueue::Disable),
    {
        proof {
            assert(DEFAULT_CONFIG_BITS & OS_MASK == 0x0000 && DEFAULT_CONFIG_BITS & MUX_MASK
                == 0x0000 && DEFAULT_CONFIG_BITS & PGA_MASK == 0x0400 && DEFAULT_CONFIG_BITS
                & MODE_MASK == 0x0100 && DEFAULT_CONFIG_BITS & DR_MASK == 0x0080
                && DEFAULT_CONFIG_BITS & COMP_MODE_MASK == 0x0000 && DEFAULT_CONFIG_BITS
                & COMP_POL_MASK == 0x0000 && DEFAULT_CONFIG_BITS & COMP_LAT_MASK == 0x0000
                && DEFAULT_CONFIG_BITS & COMP_QUE_MASK == 0x0003) by (bit_vector);
        }
        ADS111xConfig { bits: DEFAULT_CONFIG_BITS }
    }

    /// Returns the raw 16-bit value, ready to be serialized big-endian.
    pub fn bits(self) -> (r: u16)
        ensures
            r == self.spec_bits(),
    {
        self.bits
    }

    /// Deserializes a raw 16-bit value read back from the device.
    ///
    /// Field decoding is validated eagerly, here rather than at first field
    /// access: the result is `None` exactly when some field's bits match no
    /// enumerated value, which for this register map can only be the
    /// gain-amplifier field. A `None` indicates a desynchronized or
    /// incompatible device, since the driver itself never writes such a
    /// pattern.
    pub fn from_bits(bits: u16) -> (r: Option<ADS111xConfig>)
        ensures
            r == ADS111xConfig::spec_from_bits(bits),
            r is Some <==> spec_bits_wf(bits),
            r is Some ==> r->Some_0.spec_bits() == bits && r->Some_0.wf(),
    {
        proof {
            lemma_decode_total(bits);
            lemma_gain_decode(bits);
        }
        let field: u16 = bits & PGA_MASK;
        if field == 0x0C00 || field == 0x0E00 {
            None
        } else {
            Some(ADS111xConfig { bits })
        }
    }

    /// Returns the value of the operational-status field.
    pub fn operational_status(&self) -> (r: OperationalStatus)
        ensures
            self.spec_operational_status() == Some(r),
    {
        proof {
            lemma_decode_total(self.bits);
        }
        match OperationalStatus::decode(self.bits) {
            Some(v) => v,
            None => unreached(),
        }
    }

    /// Returns the value of the input-multiplexer field.
    pub fn multiplexer(&self) -> (r: InputMultiplexer)
        ensures
            self.spec_multiplexer() == Some(r),
    {
        proof {
            lemma_decode_total(self.bits);
        }
        match InputMultiplexer::decode(self.bits) {
            Some(v) => v,
            None => unreached(),
        }
    }

    /// Returns the value of the gain-amplifier field. Well-formedness is
    /// required because this is the one field with unassigned patterns.
    pub fn gain_amplifier(&self) -> (r: GainAmplifier)
        requires
            self.wf(),
        ensures
            self.spec_gain_amplifier() == Some(r),
    {
        match GainAmplifier::decode(self.bits) {
            Some(v) => v,
            None => unreached(),
        }
    }

    /// Returns the value of the operating-mode field.
    pub fn mode(&self) -> (r: Mode)
        ensures
            self.spec_mode() == Some(r),
    {
        proof {
            lemma_decode_total(self.bits);
        }
        match Mode::decode(self.bits) {
            Some(v) => v,
            None => unreached(),
        }
    }

    /// Returns the value of the data-rate field.
    pub fn data_rate(&self) -> (r: DataRate)
        ensures
            self.spec_data_rate() == Some(r),
    {
        proof {
            lemma_decode_total(self.bits);
        }
        match DataRate::decode(self.bits) {
            Some(v) => v,
            None => unreached(),
        }
    }

    /// Returns the value of the comparator-mode field.
    pub fn comparator_mode(&self) -> (r: ComparatorMode)
        ensures
            self.spec_comparator_mode() == Some(r),
    {
        proof {
            lemma_decode_total(self.bits);
        }
        match ComparatorMode::decode(self.bits) {
            Some(v) => v,
            None => unreached(),
        }
    }

    /// Returns the value of the comparator-polarity field.
    pub fn comparator_polarity(&self) -> (r: ComparatorPolarity)
        ensures
            self.spec_comparator_polarity() == Some(r),
    {
        proof {
            lemma_decode_total(self.bits);
        }
        match ComparatorPolarity::decode(self.bits) {
            Some(v) => v,
            None => unreached(),
        }
    }

    /// Returns the value of the comparator-latching field.
    pub fn comparator_latching(&self) -> (r: ComparatorLatching)
        ensures
            self.spec_comparator_latching() == Some(r),
    {
        proof {
            lemma_decode_total(self.bits);
        }
        match ComparatorLatching::decode(self.bits) {
            Some(v) => v,
            None => unreached(),
        }
    }

    /// Returns the value of the comparator-queue field.
    pub fn comparator_queue(&self) -> (r: ComparatorQueue)
        ensures
            self.spec_comparator_queue() == Some(r),
    {
        proof {
            lemma_decode_total(self.bits);
        }
        match ComparatorQueue::decode(self.bits) {
            Some(v) => v,
            None => unreached(),
        }
    }

    /// Returns this register with the operational-status field replaced.
    /// Only the bits inside `OS_MASK` change. Writing `Busy` in single-shot
    /// mode is the hardware trigger for a conversion.
    pub fn with_operational_status(self, osr: OperationalStatus) -> (r: ADS111xConfig)
        ensures
            r.spec_bits() == spec_set_field(self.spec_bits(), OS_MASK, osr.spec_encode()),
            r.spec_bits() & !OS_MASK == self.spec_bits() & !OS_MASK,
            r.spec_bits() & OS_MASK == osr.spec_encode(),
            r.spec_operational_status() == Some(osr),
            r.spec_multiplexer() == self.spec_multiplexer(),
            r.spec_gain_amplifier() == self.spec_gain_amplifier(),
            r.spec_mode() == self.spec_mode(),
            r.spec_data_rate() == self.spec_data_rate(),
            r.spec_comparator_mode() == self.spec_comparator_mode(),
            r.spec_comparator_polarity() == self.spec_comparator_polarity(),
            r.spec_comparator_latching() == self.spec_comparator_latching(),
            r.spec_comparator_queue() == self.spec_comparator_queue(),
            r.wf() <==> self.wf(),
    {
        let e: u16 = osr.encode();
        let nb: u16 = (self.bits & !OS_MASK) | e;
        proof {
            lemma_field_masks_partition();
            lemma_os_bits(0);
            lemma_set_field(self.bits, osr.spec_encode(), OS_MASK);
            lemma_fields_outside_mask_unchanged(nb, self.bits, OS_MASK);
            lemma_field_round_trips();
            lemma_decode_total(nb);
            lemma_decode_total(self.bits);
        }
        ADS111xConfig { bits: nb }
    }

    /// Returns this register with the input-multiplexer field replaced.
    /// Only the bits inside `MUX_MASK` change.
    pub fn with_multiplexer(self, mux: InputMultiplexer) -> (r: ADS111xConfig)
        ensures
            r.spec_bits() == spec_set_field(self.spec_bits(), MUX_MASK, mux.spec_encode()),
            r.spec_bits() & !MUX_MASK == self.spec_bits() & !MUX_MASK,
            r.spec_bits() & MUX_MASK == mux.spec_encode(),
            r.spec_multiplexer() == Some(mux),
            r.spec_operational_status() == self.spec_operational_status(),
            r.spec_gain_amplifier() == self.spec_gain_amplifier(),
            r.spec_mode() == self.spec_mode(),
            r.spec_data_rate() == self.spec_data_rate(),
            r.spec_comparator_mode() == self.spec_comparator_mode(),
            r.spec_comparator_polarity() == self.spec_comparator_polarity(),
            r.spec_comparator_latching() == self.spec_comparator_latching(),
            r.spec_comparator_queue() == self.spec_comparator_queue(),
            r.wf() <==> self.wf(),
    {
        let e: u16 = mux.encode();
        let nb: u16 = (self.bits & !MUX_MASK) | e;
        proof {
            lemma_field_masks_partition();
            lemma_mux_bits(0);
            lemma_set_field(self.bits, mux.spec_encode(), MUX_MASK);
            lemma_fields_outside_mask_unchanged(nb, self.bits, MUX_MASK);
            lemma_field_round_trips();
            lemma_decode_total(nb);
            lemma_decode_total(self.bits);
        }
        ADS111xConfig { bits: nb }
    }

    /// Returns this register with the gain-amplifier field replaced.
    /// Only the bits inside `PGA_MASK` change. The result is always well
    /// formed: the one fallible field now holds an enumerated value.
    pub fn with_gain_amplifier(self, pga: GainAmplifier) -> (r: ADS111xConfig)
        ensures
            r.spec_bits() == spec_set_field(self.spec_bits(), PGA_MASK, pga.spec_encode()),
            r.spec_bits() & !PGA_MASK == self.spec_bits() & !PGA_MASK,
            r.spec_bits() & PGA_MASK == pga.spec_encode(),
            r.spec_gain_amplifier() == Some(pga),
            r.spec_operational_status() == self.spec_operational_status(),
            r.spec_multiplexer() == self.spec_multiplexer(),
            r.spec_mode() == self.spec_mode(),
            r.spec_data_rate() == self.spec_data_rate(),
            r.spec_comparator_mode() == self.spec_comparator_mode(),
            r.spec_comparator_polarity() == self.spec_comparator_polarity(),
            r.spec_comparator_latching() == self.spec_comparator_latching(),
            r.spec_comparator_queue() == self.spec_comparator_queue(),
            r.wf(),
    {
        let e: u16 = pga.encode();
        let nb: u16 = (self.bits & !PGA_MASK) | e;
        proof {
            lemma_field_masks_partition();
            lemma_pga_bits(0);
            lemma_set_field(self.bits, pga.spec_encode(), PGA_MASK);
            lemma_fields_outside_mask_unchanged(nb, self.bits, PGA_MASK);
            lemma_field_round_trips();
            lemma_decode_total(nb);
            lemma_decode_total(self.bits);
        }
        ADS111xConfig { bits: nb }
    }

    /// Returns this register with the operating-mode field replaced.
    /// Only the bits inside `MODE_MASK` change.
    pub fn with_mode(self, mode: Mode) -> (r: ADS111xConfig)
        ensures
            r.spec_bits() == spec_set_field(self.spec_bits(), MODE_MASK, mode.spec_encode()),
            r.spec_bits() & !MODE_MASK == self.spec_bits() & !MODE_MASK,
            r.spec_bits() & MODE_MASK == mode.spec_encode(),
            r.spec_mode() == Some(mode),
            r.spec_operational_status() == self.spec_operational_status(),
            r.spec_multiplexer() == self.spec_multiplexer(),
            r.spec_gain_amplifier() == self.spec_gain_amplifier(),
            r.spec_data_rate() == self.spec_data_rate(),
            r.spec_comparator_mode() == self.spec_comparator_mode(),
            r.spec_comparator_polarity() == self.spec_comparator_polarity(),
            r.spec_comparator_latching() == self.spec_comparator_latching(),
            r.spec_comparator_queue() == self.spec_comparator_queue(),
            r.wf() <==> self.wf(),
    {
        let e: u16 = mode.encode();
        let nb: u16 = (self.bits & !MODE_MASK) | e;
        proof {
            lemma_field_masks_partition();
            lemma_mode_bits(0);
            lemma_set_field(self.bits, mode.spec_encode(), MODE_MASK);
            lemma_fields_outside_mask_unchanged(nb, self.bits, MODE_MASK);
            lemma_field_round_trips();
            lemma_decode_total(nb);
            lemma_decode_total(self.bits);
        }
        ADS111xConfig { bits: nb }
    }

    /// Returns this register with the data-rate field replaced.
    /// Only the bits inside `DR_MASK` change.
    pub fn with_data_rate(self, dr: DataRate) -> (r: ADS111xConfig)
        ensures
            r.spec_bits() == spec_set_field(self.spec_bits(), DR_MASK, dr.spec_encode()),
            r.spec_bits() & !DR_MASK == self.spec_bits() & !DR_MASK,
            r.spec_bits() & DR_MASK == dr.spec_encode(),
            r.spec_data_rate() == Some(dr),
            r.spec_operational_status() == self.spec_operational_status(),
            r.spec_multiplexer() == self.spec_multiplexer(),
            r.spec_gain_amplifier() == self.spec_gain_amplifier(),
            r.spec_mode() == self.spec_mode(),
            r.spec_comparator_mode() == self.spec_comparator_mode(),
            r.spec_comparator_polarity() == self.spec_comparator_polarity(),
            r.spec_comparator_latching() == self.spec_comparator_latching(),
            r.spec_comparator_queue() == self.spec_comparator_queue(),
            r.wf() <==> self.wf(),
    {
        let e: u16 = dr.encode();
        let nb: u16 = (self.bits & !DR_MASK) | e;
        proof {
            lemma_field_masks_partition();
            lemma_dr_bits(0);
            lemma_set_field(self.bits, dr.spec_encode(), DR_MASK);
            lemma_fields_outside_mask_unchanged(nb, self.bits, DR_MASK);
            lemma_field_round_trips();
            lemma_decode_total(nb);
            lemma_decode_total(self.bits);
        }
        ADS111xConfig { bits: nb }
    }

    /// Returns this register with the comparator-mode field replaced.
    /// Only the bits inside `COMP_MODE_MASK` change.
    pub fn with_comparator_mode(self, cm: ComparatorMode) -> (r: ADS111xConfig)
        ensures
            r.spec_bits() == spec_set_field(self.spec_bits(), COMP_MODE_MASK, cm.spec_encode()),
            r.spec_bits() & !COMP_MODE_MASK == self.spec_bits() & !COMP_MODE_MASK,
            r.spec_bits() & COMP_MODE_MASK == cm.spec_encode(),
            r.spec_comparator_mode() == Some(cm),
            r.spec_operational_status() == self.spec_operational_status(),
            r.spec_multiplexer() == self.spec_multiplexer(),
            r.spec_gain_amplifier() == self.spec_gain_amplifier(),
            r.spec_mode() == self.spec_mode(),
            r.spec_data_rate() == self.spec_data_rate(),
            r.spec_comparator_polarity() == self.spec_comparator_polarity(),
            r.spec_comparator_latching() == self.spec_comparator_latching(),
            r.spec_comparator_queue() == self.spec_comparator_queue(),
            r.wf() <==> self.wf(),
    {
        let e: u16 = cm.encode();
        let nb: u16 = (self.bits & !COMP_MODE_MASK) | e;
        proof {
            lemma_field_masks_partition();
            lemma_comp_mode_bits(0);
            lemma_set_field(self.bits, cm.spec_encode(), COMP_MODE_MASK);
            lemma_fields_outside_mask_unchanged(nb, self.bits, COMP_MODE_MASK);
            lemma_field_round_trips();
            lemma_decode_total(nb);
            lemma_decode_total(self.bits);
        }
        ADS111xConfig { bits: nb }
    }

    /// Returns this register with the comparator-polarity field replaced.
    /// Only the bits inside `COMP_POL_MASK` change.
    pub fn with_comparator_polarity(self, cp: ComparatorPolarity) -> (r: ADS111xConfig)
        ensures
            r.spec_bits() == spec_set_field(self.spec_bits(), COMP_POL_MASK, cp.spec_encode()),
            r.spec_bits() & !COMP_POL_MASK == self.spec_bits() & !COMP_POL_MASK,
            r.spec_bits() & COMP_POL_MASK == cp.spec_encode(),
            r.spec_comparator_polarity() == Some(cp),
            r.spec_operational_status() == self.spec_operational_status(),
            r.spec_multiplexer() == self.spec_multiplexer(),
            r.spec_gain_amplifier() == self.spec_gain_amplifier(),
            r.spec_mode() == self.spec_mode(),
            r.spec_data_rate() == self.spec_data_rate(),
            r.spec_comparator_mode() == self.spec_comparator_mode(),
            r.spec_comparator_latching() == self.spec_comparator_latching(),
            r.spec_comparator_queue() == self.spec_comparator_queue(),
            r.wf() <==> self.wf(),
    {
        let e: u16 = cp.encode();
        let nb: u16 = (self.bits & !COMP_POL_MASK) | e;
        proof {
            lemma_field_masks_partition();
            lemma_comp_pol_bits(0);
            lemma_set_field(self.bits, cp.spec_encode(), COMP_POL_MASK);
            lemma_fields_outside_mask_unchanged(nb, self.bits, COMP_POL_MASK);
            lemma_field_round_trips();
            lemma_decode_total(nb);
            lemma_decode_total(self.bits);
        }
        ADS111xConfig { bits: nb }
    }

    /// Returns this register with the comparator-latching field replaced.
    /// Only the bits inside `COMP_LAT_MASK` change.
    pub fn with_comparator_latching(self, cl: ComparatorLatching) -> (r: ADS111xConfig)
        ensures
            r.spec_bits() == spec_set_field(self.spec_bits(), COMP_LAT_MASK, cl.spec_encode()),
            r.spec_bits() & !COMP_LAT_MASK == self.spec_bits() & !COMP_LAT_MASK,
            r.spec_bits() & COMP_LAT_MASK == cl.spec_encode(),
            r.spec_comparator_latching() == Some(cl),
            r.spec_operational_status() == self.spec_operational_status(),
            r.spec_multiplexer() == self.spec_multiplexer(),
            r.spec_gain_amplifier() == self.spec_gain_amplifier(),
            r.spec_mode() == self.spec_mode(),
            r.spec_data_rate() == self.spec_data_rate(),
            r.spec_comparator_mode() == self.spec_comparator_mode(),
            r.spec_comparator_polarity() == self.spec_comparator_polarity(),
            r.spec_comparator_queue() == self.spec_comparator_queue(),
            r.wf() <==> self.wf(),
    {
        let e: u16 = cl.encode();
        let nb: u16 = (self.bits & !COMP_LAT_MASK) | e;
        proof {
            lemma_field_masks_partition();
            lemma_comp_lat_bits(0);
            lemma_set_field(self.bits, cl.spec_encode(), COMP_LAT_MASK);
            lemma_fields_outside_mask_unchanged(nb, self.bits, COMP_LAT_MASK);
            lemma_field_round_trips();
            lemma_decode_total(nb);
            lemma_decode_total(self.bits);
        }
        ADS111xConfig { bits: nb }
    }

    /// Returns this register with the comparator-queue field replaced.
    /// Only the bits inside `COMP_QUE_MASK` change.
    pub fn with_comparator_queue(self, cq: ComparatorQueue) -> (r: ADS111xConfig)
        ensures
            r.spec_bits() == spec_set_field(self.spec_bits(), COMP_QUE_MASK, cq.spec_encode()),
            r.spec_bits() & !COMP_QUE_MASK == self.spec_bits() & !COMP_QUE_MASK,
            r.spec_bits() & COMP_QUE_MASK == cq.spec_encode(),
            r.spec_comparator_queue() == Some(cq),
            r.spec_operational_status() == self.spec_operational_status(),
            r.spec_multiplexer() == self.spec_multiplexer(),
            r.spec_gain_amplifier() == self.spec_gain_amplifier(),
            r.spec_mode() == self.spec_mode(),
            r.spec_data_rate() == self.spec_data_rate(),
            r.spec_comparator_mode() == self.spec_comparator_mode(),
            r.spec_comparator_polarity() == self.spec_comparator_polarity(),
            r.spec_comparator_latching() == self.spec_comparator_latching(),
            r.wf() <==> self.wf(),
    {
        let e: u16 = cq.encode();
        let nb: u16 = (self.bits & !COMP_QUE_MASK) | e;
        proof {
            lemma_field_masks_partition();
            lemma_comp_que_bits(0);
            lemma_set_field(self.bits, cq.spec_encode(), COMP_QUE_MASK);
            lemma_fields_outside_mask_unchanged(nb, self.bits, COMP_QUE_MASK);
            lemma_field_round_trips();
            lemma_decode_total(nb);
            lemma_decode_total(self.bits);
        }
        ADS111xConfig { bits: nb }
    }
}

impl Default for ADS111xConfig {
    /// Same as [`ADS111xConfig::new`]: the power-on-safe default.
    fn default() -> (r: ADS111xConfig)
        ensures
            r.spec_bits() == DEFAULT_CONFIG_BITS,
            r.wf(),
    {
        ADS111xConfig::new()
    }
}

/// Serializing a well-formed register and deserializing the bits gives the
/// same register back. Every register reachable through the public
/// constructors and builders is well formed, so this is the round trip
/// `from_bits(c.bits()) == Some(c)` for every reachable `c`.
pub proof fn lemma_bits_round_trip(c: ADS111xConfig)
    requires
        c.wf(),
    ensures
        ADS111xConfig::spec_from_bits(c.spec_bits()) == Some(c),
{
}

} // verus!
