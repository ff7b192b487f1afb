use super::register_map::{BitFieldDeviceConfiguration, TMAG5273Register};
use crate::bits::{field, get_field, lemma_field_bound, lemma_with_field, set_field, with_field};
use vstd::prelude::*;

verus! {

/// Selects Operating Mode and updates value based on operating
/// mode if device transitions from Wake-up and sleep mode to Standby
/// mode.
#[derive(Clone, Copy, Debug, PartialEq, Eq, Structural)]
pub enum OperatingMode {
    /// Stand-by mode (starts new conversion at trigger event)
    StandBy,
    /// Sleep mode
    Sleep,
    /// Continuous measurement mode
    ContinuousMeasure,
    /// Wake-up and sleep mode
    WakeUpAndSleep,
}

impl OperatingMode {
    /// The field value that encodes this variant.
    pub open spec fn bits(self) -> u8 {
        match self {
            OperatingMode::StandBy => 0,
            OperatingMode::Sleep => 1,
            OperatingMode::ContinuousMeasure => 2,
            OperatingMode::WakeUpAndSleep => 3,
        }
    }

    /// The variant that a 2-bit field value encodes.
    pub open spec fn from_bits(bits: u8) -> OperatingMode {
        if bits == 0 {
            OperatingMode::StandBy
        } else if bits == 1 {
            OperatingMode::Sleep
        } else if bits == 2 {
            OperatingMode::ContinuousMeasure
        } else {
            OperatingMode::WakeUpAndSleep
        }
    }

    pub fn raw_value(self) -> (r: u8)
        ensures
            r == self.bits(),
            r <= 3,
            OperatingMode::from_bits(r) == self,
    {
        match self {
            OperatingMode::StandBy => 0,
            OperatingMode::Sleep => 1,
            OperatingMode::ContinuousMeasure => 2,
            OperatingMode::WakeUpAndSleep => 3,
        }
    }

    pub fn new_with_raw_value(bits: u8) -> (r: Self)
        requires
            bits <= 3,
        ensures
            r == OperatingMode::from_bits(bits),
            r.bits() == bits,
    {
        if bits == 0 {
            OperatingMode::StandBy
        } else if bits == 1 {
            OperatingMode::Sleep
        } else if bits == 2 {
            OperatingMode::ContinuousMeasure
        } else {
            OperatingMode::WakeUpAndSleep
        }
    }
}

impl Default for OperatingMode {
    fn default() -> (r: Self)
        ensures
            r == OperatingMode::StandBy,
    {
        OperatingMode::StandBy
    }
}

/// Selects a condition which initiates a single conversion based
/// off already configured registers. A running conversion completes
/// before executing a trigger. Redundant triggers are ignored.
/// TRIGGER_MODE is available only during the mode explicitly
/// mentioned in OPERATING_MODE.
#[derive(Clone, Copy, Debug, PartialEq, Eq, Structural)]
pub enum TriggerMode {
    /// Conversion Start at I2C Command Bits, DEFAULT
    Default,
    /// Conversion starts through trigger signal at INT pin
    Int,
}

impl TriggerMode {
    /// The field value that encodes this variant.
    pub open spec fn bits(self) -> u8 {
        match self {
            TriggerMode::Default => 0,
            TriggerMode::Int => 1,
        }
    }

    /// The variant that a 1-bit field value encodes.
    pub open spec fn from_bits(bits: u8) -> TriggerMode {
        if bits == 0 {
            TriggerMode::Default
        } else {
            TriggerMode::Int
        }
    }

    pub fn raw_value(self) -> (r: u8)
        ensures
            r == self.bits(),
            r <= 1,
            TriggerMode::from_bits(r) == self,
    {
        match self {
            TriggerMode::Default => 0,
            TriggerMode::Int => 1,
        }
    }

    pub fn new_with_raw_value(bits: u8) -> (r: Self)
        requires
            bits <= 1,
        ensures
            r == TriggerMode::from_bits(bits),
            r.bits() == bits,
    {
        if bits == 0 {
            TriggerMode::Default
        } else {
            TriggerMode::Int
        }
    }
}

impl Default for TriggerMode {
    fn default() -> (r: Self)
        ensures
            r == TriggerMode::Default,
    {
        TriggerMode::Default
    }
}

/// Selects between Low Active Current Mode and Low Noise Mode.
/// This maps to LP_LN in the datasheet.
#[derive(Clone, Copy, Debug, PartialEq, Eq, Structural)]
pub enum LowPowerLowNoise {
    /// Low Active Current Mode
    LowActiveCurrentMode,
    /// Low Noise Mode
    LowNoiseMode,
}

impl LowPowerLowNoise {
    /// The field value that encodes this variant.
    pub open spec fn bits(self) -> u8 {
        match self {
            LowPowerLowNoise::LowActiveCurrentMode => 0,
            LowPowerLowNoise::LowNoiseMode => 1,
        }
    }

    /// The variant that a 1-bit field value encodes.
    pub open spec fn from_bits(bits: u8) -> LowPowerLowNoise {
        if bits == 0 {
            LowPowerLowNoise::LowActiveCurrentMode
        } else {
            LowPowerLowNoise::LowNoiseMode
        }
    }

    pub fn raw_value(self) -> (r: u8)
        ensures
            r == self.bits(),
            r <= 1,
            LowPowerLowNoise::from_bits(r) == self,
    {
        match self {
            LowPowerLowNoise::LowActiveCurrentMode => 0,
            LowPowerLowNoise::LowNoiseMode => 1,
        }
    }

    pub fn new_with_raw_value(bits: u8) -> (r: Self)
        requires
            bits <= 1,
        ensures
            r == LowPowerLowNoise::from_bits(bits),
            r.bits() == bits,
    {
        if bits == 0 {
            LowPowerLowNoise::LowActiveCurrentMode
        } else {
            LowPowerLowNoise::LowNoiseMode
        }
    }
}

impl Default for LowPowerLowNoise {
    fn default() -> (r: Self)
        ensures
            r == LowPowerLowNoise::LowActiveCurrentMode,
    {
        LowPowerLowNoise::LowActiveCurrentMode
    }
}

/// Select thresholds for the interrupt function.
/// This maps to THR_HYST in the datasheet; the encodings 2 to 7 are reserved.
#[derive(Clone, Copy, Debug, PartialEq, Eq, Structural)]
pub enum Threshold {
    /// Takes the 2's complement value of each x_THR_CONFIG register to create a magnetic threshold of the corresponding axis
    TwosComplement,
    /// Takes the 7 LSB bits of the x_THR_CONFIG register to create two opposite magnetic thresholds (one north, and another south) of equal magnitude
    SevenLsb,
}

impl Threshold {
    /// The field value that encodes this variant.
    pub open spec fn bits(self) -> u8 {
        match self {
            Threshold::TwosComplement => 0,
            Threshold::SevenLsb => 1,
        }
    }

    /// The variant that a 3-bit field value encodes, or the value itself
    /// where it is reserved.
    pub open spec fn from_bits(bits: u8) -> Result<Threshold, u8> {
        if bits == 0 {
            Ok(Threshold::TwosComplement)
        } else if bits == 1 {
            Ok(Threshold::SevenLsb)
        } else {
            Err(bits)
        }
    }

    pub fn raw_value(self) -> (r: u8)
        ensures
            r == self.bits(),
            r <= 7,
            Threshold::from_bits(r) == Ok::<Threshold, u8>(self),
    {
        match self {
            Threshold::TwosComplement => 0,
            Threshold::SevenLsb => 1,
        }
    }

    pub fn new_with_raw_value(bits: u8) -> (r: Result<Self, u8>)
        ensures
            r == Threshold::from_bits(bits),
            r is Ok ==> r->Ok_0.bits() == bits,
    {
        if bits == 0 {
            Ok(Threshold::TwosComplement)
        } else if bits == 1 {
            Ok(Threshold::SevenLsb)
        } else {
            Err(bits)
        }
    }
}

impl Default for Threshold {
    fn default() -> (r: Self)
        ensures
            r == Threshold::TwosComplement,
    {
        Threshold::TwosComplement
    }
}

/// Represents the Device Configuration Register 2.
#[derive(Clone, Copy, Debug, PartialEq, Eq, Structural)]
pub struct DeviceConfig2Register {
    raw: u8,
}

impl DeviceConfig2Register {
    /// The register's byte as it stands on the device.
    pub closed spec fn bits(self) -> u8 {
        self.raw
    }

    /// Selects Operating Mode - bits 0 and 1.
    pub open spec fn spec_operating_mode(self) -> OperatingMode {
        OperatingMode::from_bits(field(self.bits(), 0, 3))
    }

    /// Selects the condition which initiates a single conversion - bit 2.
    pub open spec fn spec_trigger_mode(self) -> TriggerMode {
        TriggerMode::from_bits(field(self.bits(), 2, 1))
    }

    /// Selects whether the I2C glitch filter is enabled or disabled - bit 3.
    pub open spec fn spec_i2c_glitch_filter_enabled(self) -> bool {
        field(self.bits(), 3, 1) == 1
    }

    /// Selects between Low Active Current Mode and Low Noise Mode - bit 4.
    pub open spec fn spec_power_mode(self) -> LowPowerLowNoise {
        LowPowerLowNoise::from_bits(field(self.bits(), 4, 1))
    }

    /// Select thresholds for the interrupt function - bits 5 to 7.
    pub open spec fn spec_threshold(self) -> Result<Threshold, u8> {
        Threshold::from_bits(field(self.bits(), 5, 7))
    }

    /// Starts a value from the reset value; set fields with the `with_` methods.
    pub fn builder() -> (r: Self)
        ensures
            r.bits() == 0x00,
    {
        DeviceConfig2Register { raw: 0x00 }
    }

    pub fn build(self) -> (r: Self)
        ensures
            r == self,
    {
        self
    }

    /// Selects Operating Mode - bits 0 and 1.
    pub fn operating_mode(&self) -> (r: OperatingMode)
        ensures
            r == self.spec_operating_mode(),
    {
        proof {
            lemma_field_bound(self.raw, 0, 3);
        }
        OperatingMode::new_with_raw_value(get_field(self.raw, 0, 3))
    }

    /// Selects the condition which initiates a single conversion - bit 2.
    pub fn trigger_mode(&self) -> (r: TriggerMode)
        ensures
            r == self.spec_trigger_mode(),
    {
        proof {
            lemma_field_bound(self.raw, 2, 1);
        }
        TriggerMode::new_with_raw_value(get_field(self.raw, 2, 1))
    }

    /// Selects whether the I2C glitch filter is enabled or disabled - bit 3.
    pub fn i2c_glitch_filter_enabled(&self) -> (r: bool)
        ensures
            r == self.spec_i2c_glitch_filter_enabled(),
    {
        get_field(self.raw, 3, 1) == 1
    }

    /// Selects between Low Active Current Mode and Low Noise Mode - bit 4.
    pub fn power_mode(&self) -> (r: LowPowerLowNoise)
        ensures
            r == self.spec_power_mode(),
    {
        proof {
            lemma_field_bound(self.raw, 4, 1);
        }
        LowPowerLowNoise::new_with_raw_value(get_field(self.raw, 4, 1))
    }

    /// Select thresholds for the interrupt function - bits 5 to 7.
    pub fn threshold(&self) -> (r: Result<Threshold, u8>)
        ensures
            r == self.spec_threshold(),
    {
        Threshold::new_with_raw_value(get_field(self.raw, 5, 7))
    }

    /// This value with `operating_mode` set to `value` and every other field kept.
    pub fn with_operating_mode(self, value: OperatingMode) -> (r: Self)
        ensures
            r.spec_operating_mode() == value,
            r.spec_trigger_mode() == self.spec_trigger_mode(),
            r.spec_i2c_glitch_filter_enabled() == self.spec_i2c_glitch_filter_enabled(),
            r.spec_power_mode() == self.spec_power_mode(),
            r.spec_threshold() == self.spec_threshold(),
            r.bits() == with_field(self.bits(), 0, 3, value.bits()),
    {
        let bits: u8 = value.raw_value();
        proof {
            lemma_with_field(self.raw, 0, 3, bits, 2, 1);
            lemma_with_field(self.raw, 0, 3, bits, 3, 1);
            lemma_with_field(self.raw, 0, 3, bits, 4, 1);
            lemma_with_field(self.raw, 0, 3, bits, 5, 7);
        }
        DeviceConfig2Register { raw: set_field(self.raw, 0, 3, bits) }
    }

    /// This value with `trigger_mode` set to `value` and every other field kept.
    pub fn with_trigger_mode(self, value: TriggerMode) -> (r: Self)
        ensures
            r.spec_trigger_mode() == value,
            r.spec_operating_mode() == self.spec_operating_mode(),
            r.spec_i2c_glitch_filter_enabled() == self.spec_i2c_glitch_filter_enabled(),
            r.spec_power_mode() == self.spec_power_mode(),
            r.spec_threshold() == self.spec_threshold(),
            r.bits() == with_field(self.bits(), 2, 1, value.bits()),
    {
        let bits: u8 = value.raw_value();
        proof {
            lemma_with_field(self.raw, 2, 1, bits, 0, 3);
            lemma_with_field(self.raw, 2, 1, bits, 3, 1);
            lemma_with_field(self.raw, 2, 1, bits, 4, 1);
            lemma_with_field(self.raw, 2, 1, bits, 5, 7);
        }
        DeviceConfig2Register { raw: set_field(self.raw, 2, 1, bits) }
    }

    /// This value with `i2c_glitch_filter_enabled` set to `value` and every other field kept.
    pub fn with_i2c_glitch_filter_enabled(self, value: bool) -> (r: Self)
        ensures
            r.spec_i2c_glitch_filter_enabled() == value,
            r.spec_operating_mode() == self.spec_operating_mode(),
            r.spec_trigger_mode() == self.spec_trigger_mode(),
            r.spec_power_mode() == self.spec_power_mode(),
            r.spec_threshold() == self.spec_threshold(),
            r.bits() == with_field(self.bits(), 3, 1, (if value { 1u8 } else { 0u8 })),
    {
        let bits: u8 = if value { 1u8 } else { 0u8 };
        proof {
            lemma_with_field(self.raw, 3, 1, bits, 0, 3);
            lemma_with_field(self.raw, 3, 1, bits, 2, 1);
            lemma_with_field(self.raw, 3, 1, bits, 4, 1);
            lemma_with_field(self.raw, 3, 1, bits, 5, 7);
        }
        DeviceConfig2Register { raw: set_field(self.raw, 3, 1, bits) }
    }

    /// This value with `power_mode` set to `value` and every other field kept.
    pub fn with_power_mode(self, value: LowPowerLowNoise) -> (r: Self)
        ensures
            r.spec_power_mode() == value,
            r.spec_operating_mode() == self.spec_operating_mode(),
            r.spec_trigger_mode() == self.spec_trigger_mode(),
            r.spec_i2c_glitch_filter_enabled() == self.spec_i2c_glitch_filter_enabled(),
            r.spec_threshold() == self.spec_threshold(),
            r.bits() == with_field(self.bits(), 4, 1, value.bits()),
    {
        let bits: u8 = value.raw_value();
        proof {
            lemma_with_field(self.raw, 4, 1, bits, 0, 3);
            lemma_with_field(self.raw, 4, 1, bits, 2, 1);
            lemma_with_field(self.raw, 4, 1, bits, 3, 1);
            lemma_with_field(self.raw, 4, 1, bits, 5, 7);
        }
        DeviceConfig2Register { raw: set_field(self.raw, 4, 1, bits) }
    }

    /// This value with `threshold` set to `value` and every other field kept.
    pub fn with_threshold(self, value: Threshold) -> (r: Self)
        ensures
            r.spec_threshold() == Ok::<Threshold, u8>(value),
            r.spec_operating_mode() == self.spec_operating_mode(),
            r.spec_trigger_mode() == self.spec_trigger_mode(),
            r.spec_i2c_glitch_filter_enabled() == self.spec_i2c_glitch_filter_enabled(),
            r.spec_power_mode() == self.spec_power_mode(),
            r.bits() == with_field(self.bits(), 5, 7, value.bits()),
    {
        let bits: u8 = value.raw_value();
        proof {
            lemma_with_field(self.raw, 5, 7, bits, 0, 3);
            lemma_with_field(self.raw, 5, 7, bits, 2, 1);
            lemma_with_field(self.raw, 5, 7, bits, 3, 1);
            lemma_with_field(self.raw, 5, 7, bits, 4, 1);
        }
        DeviceConfig2Register { raw: set_field(self.raw, 5, 7, bits) }
    }
}

impl Default for DeviceConfig2Register {
    fn default() -> (r: Self)
        ensures
            r.bits() == 0x00,
    {
        DeviceConfig2Register { raw: 0x00 }
    }
}

impl BitFieldDeviceConfiguration for DeviceConfig2Register {
    open spec fn spec_raw_value(&self) -> u8 {
        self.bits()
    }

    closed spec fn spec_new_with_raw_value(raw_value: u8) -> Self {
        DeviceConfig2Register { raw: raw_value }
    }

    open spec fn spec_address() -> TMAG5273Register {
        TMAG5273Register::DeviceConfig2
    }

    fn raw_value(&self) -> (r: u8)
    {
        self.raw
    }

    fn new_with_raw_value(raw_value: u8) -> (r: Self)
        ensures
            r.bits() == raw_value,
    {
        DeviceConfig2Register { raw: raw_value }
    }

    fn get_address() -> (r: TMAG5273Register)
    {
        TMAG5273Register::DeviceConfig2
    }

    proof fn lemma_decode_encode(register: Self) {
    }

    proof fn lemma_encode_decode(raw_value: u8) {
    }
}

} // verus!
