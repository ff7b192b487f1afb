use super::register_map::{BitFieldDeviceConfiguration, TMAG5273Register};
use crate::bits::{field, get_field, lemma_field_bound, lemma_with_field, set_field, with_field};
use crate::registers::DeviceId;
use crate::types::DeviceVersion;
use vstd::prelude::*;

verus! {

/// Select the Z/XY axis magnetic range from 2 different options.
#[derive(Clone, Copy, Debug, PartialEq, Eq, Structural)]
pub enum Range {
    /// ±40mT (TMAG5273X1) or ±133mT (TMAG5273X2), DEFAULT
    Low,
    /// ±80mT (TMAG5273X1) or ±266mT (TMAG5273X2)
    High,
}

impl Range {
    /// The field value that encodes this variant.
    pub open spec fn bits(self) -> u8 {
        match self {
            Range::Low => 0,
            Range::High => 1,
        }
    }

    /// The variant that a 1-bit field value encodes.
    pub open spec fn from_bits(bits: u8) -> Range {
        if bits == 0 {
            Range::Low
        } else {
            Range::High
        }
    }

    pub fn raw_value(self) -> (r: u8)
        ensures
            r == self.bits(),
            r <= 1,
            Range::from_bits(r) == self,
    {
        match self {
            Range::Low => 0,
            Range::High => 1,
        }
    }

    pub fn new_with_raw_value(bits: u8) -> (r: Self)
        requires
            bits <= 1,
        ensures
            r == Range::from_bits(bits),
            r.bits() == bits,
    {
        if bits == 0 {
            Range::Low
        } else {
            Range::High
        }
    }
}

impl Default for Range {
    fn default() -> (r: Self)
        ensures
            r == Range::Low,
    {
        Range::Low
    }
}

impl Range {
    /// The full scale in mT for a variant: {40, 80} for the range class of
    /// identity code 1 and {133, 266} for that of code 2.
    pub open spec fn spec_range(self, version: DeviceVersion) -> u16 {
        match (self, version.spec_device_id()) {
            (Range::Low, DeviceId::TMAG5273X1) => 40,
            (Range::High, DeviceId::TMAG5273X1) => 80,
            (Range::Low, DeviceId::TMAG5273X2) => 133,
            (Range::High, DeviceId::TMAG5273X2) => 266,
        }
    }

    /// Returns the range value in mT
    /// 40mT or 80mT for X1 and 133mT or 266mT for X2
    pub fn get_range(&self, version: DeviceVersion) -> (r: u16)
        ensures
            r == self.spec_range(version),
            r > 0,
    {
        match (self, version.get_device_id()) {
            (Range::Low, DeviceId::TMAG5273X1) => 40,
            (Range::High, DeviceId::TMAG5273X1) => 80,
            (Range::Low, DeviceId::TMAG5273X2) => 133,
            (Range::High, DeviceId::TMAG5273X2) => 266,
        }
    }
}

/// Enables angle calculation, magnetic gain, and offset corrections between two selected magnetic channels.
/// This matches the ANGLE_EN field in the datasheet.
#[derive(Clone, Copy, Debug, PartialEq, Eq, Structural)]
pub enum Angle {
    /// No angle calculation, magnitude gain, and offset correction enabled
    Disabled,
    /// X 1st, Y 2nd
    XY,
    /// Y 1st, Z 2nd
    YZ,
    /// X 1st, Z 2nd
    XZ,
}

impl Angle {
    /// The field value that encodes this variant.
    pub open spec fn bits(self) -> u8 {
        match self {
            Angle::Disabled => 0,
            Angle::XY => 1,
            Angle::YZ => 2,
            Angle::XZ => 3,
        }
    }

    /// The variant that a 2-bit field value encodes.
    pub open spec fn from_bits(bits: u8) -> Angle {
        if bits == 0 {
            Angle::Disabled
        } else if bits == 1 {
            Angle::XY
        } else if bits == 2 {
            Angle::YZ
        } else {
            Angle::XZ
        }
    }

    pub fn raw_value(self) -> (r: u8)
        ensures
            r == self.bits(),
            r <= 3,
            Angle::from_bits(r) == self,
    {
        match self {
            Angle::Disabled => 0,
            Angle::XY => 1,
            Angle::YZ => 2,
            Angle::XZ => 3,
        }
    }

    pub fn new_with_raw_value(bits: u8) -> (r: Self)
        requires
            bits <= 3,
        ensures
            r == Angle::from_bits(bits),
            r.bits() == bits,
    {
        if bits == 0 {
            Angle::Disabled
        } else if bits == 1 {
            Angle::XY
        } else if bits == 2 {
            Angle::YZ
        } else {
            Angle::XZ
        }
    }
}

impl Default for Angle {
    fn default() -> (r: Self)
        ensures
            r == Angle::Disabled,
    {
        Angle::Disabled
    }
}

/// Selects the axis for magnitude gain correction value entered in MAG_GAIN_CONFIG register.
/// This matches the MAG_GAIN_CH field in the datasheet.
#[derive(Clone, Copy, Debug, PartialEq, Eq, Structural)]
pub enum MagGainChannel {
    /// 1st channel is selected for gain adjustment
    First,
    /// 2nd channel is selected for gain adjustment
    Second,
}

impl MagGainChannel {
    /// The field value that encodes this variant.
    pub open spec fn bits(self) -> u8 {
        match self {
            MagGainChannel::First => 0,
            MagGainChannel::Second => 1,
        }
    }

    /// The variant that a 1-bit field value encodes.
    pub open spec fn from_bits(bits: u8) -> MagGainChannel {
        if bits == 0 {
            MagGainChannel::First
        } else {
            MagGainChannel::Second
        }
    }

    pub fn raw_value(self) -> (r: u8)
        ensures
            r == self.bits(),
            r <= 1,
            MagGainChannel::from_bits(r) == self,
    {
        match self {
            MagGainChannel::First => 0,
            MagGainChannel::Second => 1,
        }
    }

    pub fn new_with_raw_value(bits: u8) -> (r: Self)
        requires
            bits <= 1,
        ensures
            r == MagGainChannel::from_bits(bits),
            r.bits() == bits,
    {
        if bits == 0 {
            MagGainChannel::First
        } else {
            MagGainChannel::Second
        }
    }
}

impl Default for MagGainChannel {
    fn default() -> (r: Self)
        ensures
            r == MagGainChannel::First,
    {
        MagGainChannel::First
    }
}

/// Selects the direction of threshold check. This bit is ignored when THR_HYST > 001b.
/// This matches the MAG_THR_DIR field in the datasheet.
#[derive(Clone, Copy, Debug, PartialEq, Eq, Structural)]
pub enum MagThresholdDirection {
    /// Sets interrupt for field above the threshold
    Above,
    /// Sets interrupt for field below the threshold
    Below,
}

impl MagThresholdDirection {
    /// The field value that encodes this variant.
    pub open spec fn bits(self) -> u8 {
        match self {
            MagThresholdDirection::Above => 0,
            MagThresholdDirection::Below => 1,
        }
    }

    /// The variant that a 1-bit field value encodes.
    pub open spec fn from_bits(bits: u8) -> MagThresholdDirection {
        if bits == 0 {
            MagThresholdDirection::Above
        } else {
            MagThresholdDirection::Below
        }
    }

    pub fn raw_value(self) -> (r: u8)
        ensures
            r == self.bits(),
            r <= 1,
            MagThresholdDirection::from_bits(r) == self,
    {
        match self {
            MagThresholdDirection::Above => 0,
            MagThresholdDirection::Below => 1,
        }
    }

    pub fn new_with_raw_value(bits: u8) -> (r: Self)
        requires
            bits <= 1,
        ensures
            r == MagThresholdDirection::from_bits(bits),
            r.bits() == bits,
    {
        if bits == 0 {
            MagThresholdDirection::Above
        } else {
            MagThresholdDirection::Below
        }
    }
}

impl Default for MagThresholdDirection {
    fn default() -> (r: Self)
        ensures
            r == MagThresholdDirection::Above,
    {
        MagThresholdDirection::Above
    }
}

/// Number of threshold crossings before the interrupt is asserted.
/// This matches the THR_CNT field in the datasheet.
#[derive(Clone, Copy, Debug, PartialEq, Eq, Structural)]
pub enum ThresholdCrossingCount {
    /// 1 threshold crossing
    One,
    /// 4 threshold crossing
    Four,
}

impl ThresholdCrossingCount {
    /// The field value that encodes this variant.
    pub open spec fn bits(self) -> u8 {
        match self {
            ThresholdCrossingCount::One => 0,
            ThresholdCrossingCount::Four => 1,
        }
    }

    /// The variant that a 1-bit field value encodes.
    pub open spec fn from_bits(bits: u8) -> ThresholdCrossingCount {
        if bits == 0 {
            ThresholdCrossingCount::One
        } else {
            ThresholdCrossingCount::Four
        }
    }

    pub fn raw_value(self) -> (r: u8)
        ensures
            r == self.bits(),
            r <= 1,
            ThresholdCrossingCount::from_bits(r) == self,
    {
        match self {
            ThresholdCrossingCount::One => 0,
            ThresholdCrossingCount::Four => 1,
        }
    }

    pub fn new_with_raw_value(bits: u8) -> (r: Self)
        requires
            bits <= 1,
        ensures
            r == ThresholdCrossingCount::from_bits(bits),
            r.bits() == bits,
    {
        if bits == 0 {
            ThresholdCrossingCount::One
        } else {
            ThresholdCrossingCount::Four
        }
    }
}

impl Default for ThresholdCrossingCount {
    fn default() -> (r: Self)
        ensures
            r == ThresholdCrossingCount::One,
    {
        ThresholdCrossingCount::One
    }
}

/// Represents the Sensor Configuration Register 2.
#[derive(Clone, Copy, Debug, PartialEq, Eq, Structural)]
pub struct SensorConfig2Register {
    raw: u8,
}

impl SensorConfig2Register {
    /// The register's byte as it stands on the device.
    pub closed spec fn bits(self) -> u8 {
        self.raw
    }

    /// Z axis magnetic range - bit 0.
    pub open spec fn spec_z_range(self) -> Range {
        Range::from_bits(field(self.bits(), 0, 1))
    }

    /// X and Y axes magnetic range - bit 1.
    pub open spec fn spec_xy_range(self) -> Range {
        Range::from_bits(field(self.bits(), 1, 1))
    }

    /// Angle calculation - bits 2 and 3.
    pub open spec fn spec_angle(self) -> Angle {
        Angle::from_bits(field(self.bits(), 2, 3))
    }

    /// Axis for magnitude gain correction - bit 4.
    pub open spec fn spec_gain_channel(self) -> MagGainChannel {
        MagGainChannel::from_bits(field(self.bits(), 4, 1))
    }

    /// Direction of threshold check - bit 5.
    pub open spec fn spec_threshold_direction(self) -> MagThresholdDirection {
        MagThresholdDirection::from_bits(field(self.bits(), 5, 1))
    }

    /// Threshold crossings before the interrupt - bit 6.
    pub open spec fn spec_threshold_crossing_count(self) -> ThresholdCrossingCount {
        ThresholdCrossingCount::from_bits(field(self.bits(), 6, 1))
    }

    /// Starts a value from the reset value; set fields with the `with_` methods.
    pub fn builder() -> (r: Self)
        ensures
            r.bits() == 0x00,
    {
        SensorConfig2Register { raw: 0x00 }
    }

    pub fn build(self) -> (r: Self)
        ensures
            r == self,
    {
        self
    }

    /// Z axis magnetic range - bit 0.
    pub fn z_range(&self) -> (r: Range)
        ensures
            r == self.spec_z_range(),
    {
        proof {
            lemma_field_bound(self.raw, 0, 1);
        }
        Range::new_with_raw_value(get_field(self.raw, 0, 1))
    }

    /// X and Y axes magnetic range - bit 1.
    pub fn xy_range(&self) -> (r: Range)
        ensures
            r == self.spec_xy_range(),
    {
        proof {
            lemma_field_bound(self.raw, 1, 1);
        }
        Range::new_with_raw_value(get_field(self.raw, 1, 1))
    }

    /// Angle calculation - bits 2 and 3.
    pub fn angle(&self) -> (r: Angle)
        ensures
            r == self.spec_angle(),
    {
        proof {
            lemma_field_bound(self.raw, 2, 3);
        }
        Angle::new_with_raw_value(get_field(self.raw, 2, 3))
    }

    /// Axis for magnitude gain correction - bit 4.
    pub fn gain_channel(&self) -> (r: MagGainChannel)
        ensures
            r == self.spec_gain_channel(),
    {
        proof {
            lemma_field_bound(self.raw, 4, 1);
        }
        MagGainChannel::new_with_raw_value(get_field(self.raw, 4, 1))
    }

    /// Direction of threshold check - bit 5.
    pub fn threshold_direction(&self) -> (r: MagThresholdDirection)
        ensures
            r == self.spec_threshold_direction(),
    {
        proof {
            lemma_field_bound(self.raw, 5, 1);
        }
        MagThresholdDirection::new_with_raw_value(get_field(self.raw, 5, 1))
    }

    /// Threshold crossings before the interrupt - bit 6.
    pub fn threshold_crossing_count(&self) -> (r: ThresholdCrossingCount)
        ensures
            r == self.spec_threshold_crossing_count(),
    {
        proof {
            lemma_field_bound(self.raw, 6, 1);
        }
        ThresholdCrossingCount::new_with_raw_value(get_field(self.raw, 6, 1))
    }

    /// This value with `z_range` set to `value` and every other field kept.
    pub fn with_z_range(self, value: Range) -> (r: Self)
        ensures
            r.spec_z_range() == value,
            r.spec_xy_range() == self.spec_xy_range(),
            r.spec_angle() == self.spec_angle(),
            r.spec_gain_channel() == self.spec_gain_channel(),
            r.spec_threshold_direction() == self.spec_threshold_direction(),
            r.spec_threshold_crossing_count() == self.spec_threshold_crossing_count(),
            field(r.bits(), 7, 1) == field(self.bits(), 7, 1),
            r.bits() == with_field(self.bits(), 0, 1, value.bits()),
    {
        let bits: u8 = value.raw_value();
        proof {
            lemma_with_field(self.raw, 0, 1, bits, 1, 1);
            lemma_with_field(self.raw, 0, 1, bits, 2, 3);
            lemma_with_field(self.raw, 0, 1, bits, 4, 1);
            lemma_with_field(self.raw, 0, 1, bits, 5, 1);
            lemma_with_field(self.raw, 0, 1, bits, 6, 1);
            lemma_with_field(self.raw, 0, 1, bits, 7, 1);
        }
        SensorConfig2Register { raw: set_field(self.raw, 0, 1, bits) }
    }

    /// This value with `xy_range` set to `value` and every other field kept.
    pub fn with_xy_range(self, value: Range) -> (r: Self)
        ensures
            r.spec_xy_range() == value,
            r.spec_z_range() == self.spec_z_range(),
            r.spec_angle() == self.spec_angle(),
            r.spec_gain_channel() == self.spec_gain_channel(),
            r.spec_threshold_direction() == self.spec_threshold_direction(),
            r.spec_threshold_crossing_count() == self.spec_threshold_crossing_count(),
            field(r.bits(), 7, 1) == field(self.bits(), 7, 1),
            r.bits() == with_field(self.bits(), 1, 1, value.bits()),
    {
        let bits: u8 = value.raw_value();
        proof {
            lemma_with_field(self.raw, 1, 1, bits, 0, 1);
            lemma_with_field(self.raw, 1, 1, bits, 2, 3);
            lemma_with_field(self.raw, 1, 1, bits, 4, 1);
            lemma_with_field(self.raw, 1, 1, bits, 5, 1);
            lemma_with_field(self.raw, 1, 1, bits, 6, 1);
            lemma_with_field(self.raw, 1, 1, bits, 7, 1);
        }
        SensorConfig2Register { raw: set_field(self.raw, 1, 1, bits) }
    }

    /// This value with `angle` set to `value` and every other field kept.
    pub fn with_angle(self, value: Angle) -> (r: Self)
        ensures
            r.spec_angle() == value,
            r.spec_z_range() == self.spec_z_range(),
            r.spec_xy_range() == self.spec_xy_range(),
            r.spec_gain_channel() == self.spec_gain_channel(),
            r.spec_threshold_direction() == self.spec_threshold_direction(),
            r.spec_threshold_crossing_count() == self.spec_threshold_crossing_count(),
            field(r.bits(), 7, 1) == field(self.bits(), 7, 1),
            r.bits() == with_field(self.bits(), 2, 3, value.bits()),
    {
        let bits: u8 = value.raw_value();
        proof {
            lemma_with_field(self.raw, 2, 3, bits, 0, 1);
            lemma_with_field(self.raw, 2, 3, bits, 1, 1);
            lemma_with_field(self.raw, 2, 3, bits, 4, 1);
            lemma_with_field(self.raw, 2, 3, bits, 5, 1);
            lemma_with_field(self.raw, 2, 3, bits, 6, 1);
            lemma_with_field(self.raw, 2, 3, bits, 7, 1);
        }
        SensorConfig2Register { raw: set_field(self.raw, 2, 3, bits) }
    }

    /// This value with `gain_channel` set to `value` and every other field kept.
    pub fn with_gain_channel(self, value: MagGainChannel) -> (r: Self)
        ensures
            r.spec_gain_channel() == value,
            r.spec_z_range() == self.spec_z_range(),
            r.spec_xy_range() == self.spec_xy_range(),
            r.spec_angle() == self.spec_angle(),
            r.spec_threshold_direction() == self.spec_threshold_direction(),
            r.spec_threshold_crossing_count() == self.spec_threshold_crossing_count(),
            field(r.bits(), 7, 1) == field(self.bits(), 7, 1),
            r.bits() == with_field(self.bits(), 4, 1, value.bits()),
    {
        let bits: u8 = value.raw_value();
        proof {
            lemma_with_field(self.raw, 4, 1, bits, 0, 1);
            lemma_with_field(self.raw, 4, 1, bits, 1, 1);
            lemma_with_field(self.raw, 4, 1, bits, 2, 3);
            lemma_with_field(self.raw, 4, 1, bits, 5, 1);
            lemma_with_field(self.raw, 4, 1, bits, 6, 1);
            lemma_with_field(self.raw, 4, 1, bits, 7, 1);
        }
        SensorConfig2Register { raw: set_field(self.raw, 4, 1, bits) }
    }

    /// This value with `threshold_direction` set to `value` and every other field kept.
    pub fn with_threshold_direction(self, value: MagThresholdDirection) -> (r: Self)
        ensures
            r.spec_threshold_direction() == value,
            r.spec_z_range() == self.spec_z_range(),
            r.spec_xy_range() == self.spec_xy_range(),
            r.spec_angle() == self.spec_angle(),
            r.spec_gain_channel() == self.spec_gain_channel(),
            r.spec_threshold_crossing_count() == self.spec_threshold_crossing_count(),
            field(r.bits(), 7, 1) == field(self.bits(), 7, 1),
            r.bits() == with_field(self.bits(), 5, 1, value.bits()),
    {
        let bits: u8 = value.raw_value();
        proof {
            lemma_with_field(self.raw, 5, 1, bits, 0, 1);
            lemma_with_field(self.raw, 5, 1, bits, 1, 1);
            lemma_with_field(self.raw, 5, 1, bits, 2, 3);
            lemma_with_field(self.raw, 5, 1, bits, 4, 1);
            lemma_with_field(self.raw, 5, 1, bits, 6, 1);
            lemma_with_field(self.raw, 5, 1, bits, 7, 1);
        }
        SensorConfig2Register { raw: set_field(self.raw, 5, 1, bits) }
    }

    /// This value with `threshold_crossing_count` set to `value` and every other field kept.
    pub fn with_threshold_crossing_count(self, value: ThresholdCrossingCount) -> (r: Self)
        ensures
            r.spec_threshold_crossing_count() == value,
            r.spec_z_range() == self.spec_z_range(),
            r.spec_xy_range() == self.spec_xy_range(),
            r.spec_angle() == self.spec_angle(),
            r.spec_gain_channel() == self.spec_gain_channel(),
            r.spec_threshold_direction() == self.spec_threshold_direction(),
            field(r.bits(), 7, 1) == field(self.bits(), 7, 1),
            r.bits() == with_field(self.bits(), 6, 1, value.bits()),
    {
        let bits: u8 = value.raw_value();
        proof {
            lemma_with_field(self.raw, 6, 1, bits, 0, 1);
            lemma_with_field(self.raw, 6, 1, bits, 1, 1);
            lemma_with_field(self.raw, 6, 1, bits, 2, 3);
            lemma_with_field(self.raw, 6, 1, bits, 4, 1);
            lemma_with_field(self.raw, 6, 1, bits, 5, 1);
            lemma_with_field(self.raw, 6, 1, bits, 7, 1);
        }
        SensorConfig2Register { raw: set_field(self.raw, 6, 1, bits) }
    }
}

impl Default for SensorConfig2Register {
    fn default() -> (r: Self)
        ensures
            r.bits() == 0x00,
    {
        SensorConfig2Register { raw: 0x00 }
    }
}

impl BitFieldDeviceConfiguration for SensorConfig2Register {
    open spec fn spec_raw_value(&self) -> u8 {
        self.bits()
    }

    closed spec fn spec_new_with_raw_value(raw_value: u8) -> Self {
        SensorConfig2Register { raw: raw_value }
    }

    open spec fn spec_address() -> TMAG5273Register {
        TMAG5273Register::SensorConfig2
    }

    fn raw_value(&self) -> (r: u8)
    {
        self.raw
    }

    fn new_with_raw_value(raw_value: u8) -> (r: Self)
        ensures
            r.bits() == raw_value,
    {
        SensorConfig2Register { raw: raw_value }
    }

    fn get_address() -> (r: TMAG5273Register)
    {
        TMAG5273Register::SensorConfig2
    }

    proof fn lemma_decode_encode(register: Self) {
    }

    proof fn lemma_encode_decode(raw_value: u8) {
    }
}

} // verus!
