use super::register_map::{BitFieldDeviceConfiguration, TMAG5273Register};
use crate::bits::{field, get_field, lemma_field_bound, lemma_with_field, set_field, with_field};
use vstd::prelude::*;

verus! {

/// Selects the time spent in low power mode between conversions when OperatingMode = ContinuousMeasure.
/// The encodings 13 to 15 are reserved.
#[derive(Clone, Copy, Debug, PartialEq, Eq, Structural)]
pub enum SleepTime {
    /// 1 ms
    Ms1,
    /// 5 ms
    Ms5,
    /// 10 ms
    Ms10,
    /// 15 ms
    Ms15,
    /// 20 ms
    Ms20,
    /// 30 ms
    Ms30,
    /// 50 ms
    Ms50,
    /// 100 ms
    Ms100,
    /// 500 ms
    Ms500,
    /// 1000 ms
    Ms1000,
    /// 2000 ms
    Ms2000,
    /// 5000 ms
    Ms5000,
    /// 20000 ms
    Ms20000,
}

impl SleepTime {
    /// The field value that encodes this variant.
    pub open spec fn bits(self) -> u8 {
        match self {
            SleepTime::Ms1 => 0,
            SleepTime::Ms5 => 1,
            SleepTime::Ms10 => 2,
            SleepTime::Ms15 => 3,
            SleepTime::Ms20 => 4,
            SleepTime::Ms30 => 5,
            SleepTime::Ms50 => 6,
            SleepTime::Ms100 => 7,
            SleepTime::Ms500 => 8,
            SleepTime::Ms1000 => 9,
            SleepTime::Ms2000 => 10,
            SleepTime::Ms5000 => 11,
            SleepTime::Ms20000 => 12,
        }
    }

    /// The variant that a 4-bit field value encodes, or the value itself
    /// where it is reserved.
    pub open spec fn from_bits(bits: u8) -> Result<SleepTime, u8> {
        if bits == 0 {
            Ok(SleepTime::Ms1)
        } else if bits == 1 {
            Ok(SleepTime::Ms5)
        } else if bits == 2 {
            Ok(SleepTime::Ms10)
        } else if bits == 3 {
            Ok(SleepTime::Ms15)
        } else if bits == 4 {
            Ok(SleepTime::Ms20)
        } else if bits == 5 {
            Ok(SleepTime::Ms30)
        } else if bits == 6 {
            Ok(SleepTime::Ms50)
        } else if bits == 7 {
            Ok(SleepTime::Ms100)
        } else if bits == 8 {
            Ok(SleepTime::Ms500)
        } else if bits == 9 {
            Ok(SleepTime::Ms1000)
        } else if bits == 10 {
            Ok(SleepTime::Ms2000)
        } else if bits == 11 {
            Ok(SleepTime::Ms5000)
        } else if bits == 12 {
            Ok(SleepTime::Ms20000)
        } else {
            Err(bits)
        }
    }

    pub fn raw_value(self) -> (r: u8)
        ensures
            r == self.bits(),
            r <= 15,
            SleepTime::from_bits(r) == Ok::<SleepTime, u8>(self),
    {
        match self {
            SleepTime::Ms1 => 0,
            SleepTime::Ms5 => 1,
            SleepTime::Ms10 => 2,
            SleepTime::Ms15 => 3,
            SleepTime::Ms20 => 4,
            SleepTime::Ms30 => 5,
            SleepTime::Ms50 => 6,
            SleepTime::Ms100 => 7,
            SleepTime::Ms500 => 8,
            SleepTime::Ms1000 => 9,
            SleepTime::Ms2000 => 10,
            SleepTime::Ms5000 => 11,
            SleepTime::Ms20000 => 12,
        }
    }

    pub fn new_with_raw_value(bits: u8) -> (r: Result<Self, u8>)
        ensures
            r == SleepTime::from_bits(bits),
            r is Ok ==> r->Ok_0.bits() == bits,
    {
        if bits == 0 {
            Ok(SleepTime::Ms1)
        } else if bits == 1 {
            Ok(SleepTime::Ms5)
        } else if bits == 2 {
            Ok(SleepTime::Ms10)
        } else if bits == 3 {
            Ok(SleepTime::Ms15)
        } else if bits == 4 {
            Ok(SleepTime::Ms20)
        } else if bits == 5 {
            Ok(SleepTime::Ms30)
        } else if bits == 6 {
            Ok(SleepTime::Ms50)
        } else if bits == 7 {
            Ok(SleepTime::Ms100)
        } else if bits == 8 {
            Ok(SleepTime::Ms500)
        } else if bits == 9 {
            Ok(SleepTime::Ms1000)
        } else if bits == 10 {
            Ok(SleepTime::Ms2000)
        } else if bits == 11 {
            Ok(SleepTime::Ms5000)
        } else if bits == 12 {
            Ok(SleepTime::Ms20000)
        } else {
            Err(bits)
        }
    }
}

impl Default for SleepTime {
    fn default() -> (r: Self)
        ensures
            r == SleepTime::Ms1,
    {
        SleepTime::Ms1
    }
}

/// Enables data acquisition of the magnetic axis channel(s).
/// This maps to MAG_CH_EN in the datasheet.
#[derive(Clone, Copy, Debug, PartialEq, Eq, Structural)]
pub enum MagneticChannel {
    /// All magnetic channels are disabled
    Default,
    /// X Channel is enabled
    X,
    /// Y Channel is enabled
    Y,
    /// X and Y Channels are enabled
    XY,
    /// Z Channel is enabled
    Z,
    /// X and Z Channels are enabled
    XZ,
    /// Y and Z Channels are enabled
    YZ,
    /// All magnetic channels are enabled
    XYZ,
    /// X and Y Channels are enabled, X Channel is repeated
    XYX,
    /// Y and X Channels are enabled, Y Channel is repeated
    YXY,
    /// Y and Z Channels are enabled, Y Channel is repeated
    YZY,
    /// X and Z Channels are enabled, X Channel is repeated
    XZX,
    /// Reserved
    Reserved1,
    /// Reserved
    Reserved2,
    /// Reserved
    Reserved3,
    /// Reserved
    Reserved4,
}

impl MagneticChannel {
    /// The field value that encodes this variant.
    pub open spec fn bits(self) -> u8 {
        match self {
            MagneticChannel::Default => 0,
            MagneticChannel::X => 1,
            MagneticChannel::Y => 2,
            MagneticChannel::XY => 3,
            MagneticChannel::Z => 4,
            MagneticChannel::XZ => 5,
            MagneticChannel::YZ => 6,
            MagneticChannel::XYZ => 7,
            MagneticChannel::XYX => 8,
            MagneticChannel::YXY => 9,
            MagneticChannel::YZY => 10,
            MagneticChannel::XZX => 11,
            MagneticChannel::Reserved1 => 12,
            MagneticChannel::Reserved2 => 13,
            MagneticChannel::Reserved3 => 14,
            MagneticChannel::Reserved4 => 15,
        }
    }

    /// The variant that a 4-bit field value encodes.
    pub open spec fn from_bits(bits: u8) -> MagneticChannel {
        if bits == 0 {
            MagneticChannel::Default
        } else if bits == 1 {
            MagneticChannel::X
        } else if bits == 2 {
            MagneticChannel::Y
        } else if bits == 3 {
            MagneticChannel::XY
        } else if bits == 4 {
            MagneticChannel::Z
        } else if bits == 5 {
            MagneticChannel::XZ
        } else if bits == 6 {
            MagneticChannel::YZ
        } else if bits == 7 {
            MagneticChannel::XYZ
        } else if bits == 8 {
            MagneticChannel::XYX
        } else if bits == 9 {
            MagneticChannel::YXY
        } else if bits == 10 {
            MagneticChannel::YZY
        } else if bits == 11 {
            MagneticChannel::XZX
        } else if bits == 12 {
            MagneticChannel::Reserved1
        } else if bits == 13 {
            MagneticChannel::Reserved2
        } else if bits == 14 {
            MagneticChannel::Reserved3
        } else {
            MagneticChannel::Reserved4
        }
    }

    pub fn raw_value(self) -> (r: u8)
        ensures
            r == self.bits(),
            r <= 15,
            MagneticChannel::from_bits(r) == self,
    {
        match self {
            MagneticChannel::Default => 0,
            MagneticChannel::X => 1,
            MagneticChannel::Y => 2,
            MagneticChannel::XY => 3,
            MagneticChannel::Z => 4,
            MagneticChannel::XZ => 5,
            MagneticChannel::YZ => 6,
            MagneticChannel::XYZ => 7,
            MagneticChannel::XYX => 8,
            MagneticChannel::YXY => 9,
            MagneticChannel::YZY => 10,
            MagneticChannel::XZX => 11,
            MagneticChannel::Reserved1 => 12,
            MagneticChannel::Reserved2 => 13,
            MagneticChannel::Reserved3 => 14,
            MagneticChannel::Reserved4 => 15,
        }
    }

    pub fn new_with_raw_value(bits: u8) -> (r: Self)
        requires
            bits <= 15,
        ensures
            r == MagneticChannel::from_bits(bits),
            r.bits() == bits,
    {
        if bits == 0 {
            MagneticChannel::Default
        } else if bits == 1 {
            MagneticChannel::X
        } else if bits == 2 {
            MagneticChannel::Y
        } else if bits == 3 {
            MagneticChannel::XY
        } else if bits == 4 {
            MagneticChannel::Z
        } else if bits == 5 {
            MagneticChannel::XZ
        } else if bits == 6 {
            MagneticChannel::YZ
        } else if bits == 7 {
            MagneticChannel::XYZ
        } else if bits == 8 {
            MagneticChannel::XYX
        } else if bits == 9 {
            MagneticChannel::YXY
        } else if bits == 10 {
            MagneticChannel::YZY
        } else if bits == 11 {
            MagneticChannel::XZX
        } else if bits == 12 {
            MagneticChannel::Reserved1
        } else if bits == 13 {
            MagneticChannel::Reserved2
        } else if bits == 14 {
            MagneticChannel::Reserved3
        } else {
            MagneticChannel::Reserved4
        }
    }
}

impl Default for MagneticChannel {
    fn default() -> (r: Self)
        ensures
            r == MagneticChannel::Default,
    {
        MagneticChannel::Default
    }
}

/// Represents the Sensor Configuration Register 1.
#[derive(Clone, Copy, Debug, PartialEq, Eq, Structural)]
pub struct SensorConfig1Register {
    raw: u8,
}

impl SensorConfig1Register {
    /// The register's byte as it stands on the device.
    pub closed spec fn bits(self) -> u8 {
        self.raw
    }

    /// Time spent in low power mode between conversions - bits 0 to 3.
    pub open spec fn spec_sleep_time(self) -> Result<SleepTime, u8> {
        SleepTime::from_bits(field(self.bits(), 0, 15))
    }

    /// Enabled magnetic channels - bits 4 to 7.
    pub open spec fn spec_mag_channel(self) -> MagneticChannel {
        MagneticChannel::from_bits(field(self.bits(), 4, 15))
    }

    /// Starts a value from the reset value; set fields with the `with_` methods.
    pub fn builder() -> (r: Self)
        ensures
            r.bits() == 0x00,
    {
        SensorConfig1Register { raw: 0x00 }
    }

    pub fn build(self) -> (r: Self)
        ensures
            r == self,
    {
        self
    }

    /// Time spent in low power mode between conversions - bits 0 to 3.
    pub fn sleep_time(&self) -> (r: Result<SleepTime, u8>)
        ensures
            r == self.spec_sleep_time(),
    {
        SleepTime::new_with_raw_value(get_field(self.raw, 0, 15))
    }

    /// Enabled magnetic channels - bits 4 to 7.
    pub fn mag_channel(&self) -> (r: MagneticChannel)
        ensures
            r == self.spec_mag_channel(),
    {
        proof {
            lemma_field_bound(self.raw, 4, 15);
        }
        MagneticChannel::new_with_raw_value(get_field(self.raw, 4, 15))
    }

    /// This value with `sleep_time` set to `value` and every other field kept.
    pub fn with_sleep_time(self, value: SleepTime) -> (r: Self)
        ensures
            r.spec_sleep_time() == Ok::<SleepTime, u8>(value),
            r.spec_mag_channel() == self.spec_mag_channel(),
            r.bits() == with_field(self.bits(), 0, 15, value.bits()),
    {
        let bits: u8 = value.raw_value();
        proof {
            lemma_with_field(self.raw, 0, 15, bits, 4, 15);
        }
        SensorConfig1Register { raw: set_field(self.raw, 0, 15, bits) }
    }

    /// This value with `mag_channel` set to `value` and every other field kept.
    pub fn with_mag_channel(self, value: MagneticChannel) -> (r: Self)
        ensures
            r.spec_mag_channel() == value,
            r.spec_sleep_time() == self.spec_sleep_time(),
            r.bits() == with_field(self.bits(), 4, 15, value.bits()),
    {
        let bits: u8 = value.raw_value();
        proof {
            lemma_with_field(self.raw, 4, 15, bits, 0, 15);
        }
        SensorConfig1Register { raw: set_field(self.raw, 4, 15, bits) }
    }
}

impl Default for SensorConfig1Register {
    fn default() -> (r: Self)
        ensures
            r.bits() == 0x00,
    {
        SensorConfig1Register { raw: 0x00 }
    }
}

impl BitFieldDeviceConfiguration for SensorConfig1Register {
    open spec fn spec_raw_value(&self) -> u8 {
        self.bits()
    }

    closed spec fn spec_new_with_raw_value(raw_value: u8) -> Self {
        SensorConfig1Register { raw: raw_value }
    }

    open spec fn spec_address() -> TMAG5273Register {
        TMAG5273Register::SensorConfig1
    }

    fn raw_value(&self) -> (r: u8)
    {
        self.raw
    }

    fn new_with_raw_value(raw_value: u8) -> (r: Self)
        ensures
            r.bits() == raw_value,
    {
        SensorConfig1Register { raw: raw_value }
    }

    fn get_address() -> (r: TMAG5273Register)
    {
        TMAG5273Register::SensorConfig1
    }

    proof fn lemma_decode_encode(register: Self) {
    }

    proof fn lemma_encode_decode(raw_value: u8) {
    }
}

} // verus!
