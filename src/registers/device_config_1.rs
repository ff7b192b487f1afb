use super::register_map::{BitFieldDeviceConfiguration, TMAG5273Register};
use crate::bits::{field, get_field, lemma_field_bound, lemma_with_field, set_field, with_field};
use vstd::prelude::*;

verus! {

/// Defines the I2C read mode.
/// This maps to IR in the datasheet.
#[derive(Clone, Copy, Debug, PartialEq, Eq, Structural)]
pub enum I2cReadMode {
    /// Standard I2C 3-byte read command
    Standard3Byte,
    /// 1-byte I2C read command for 16 bit sensor data and conversion status
    OneByte16Bit,
    /// 1-byte I2C read command for 8 bit sensor MSB data and conversion status
    TwoByte8Bit,
    /// Reserved
    Reserved,
}

impl I2cReadMode {
    /// The field value that encodes this variant.
    pub open spec fn bits(self) -> u8 {
        match self {
            I2cReadMode::Standard3Byte => 0,
            I2cReadMode::OneByte16Bit => 1,
            I2cReadMode::TwoByte8Bit => 2,
            I2cReadMode::Reserved => 3,
        }
    }

    /// The variant that a 2-bit field value encodes.
    pub open spec fn from_bits(bits: u8) -> I2cReadMode {
        if bits == 0 {
            I2cReadMode::Standard3Byte
        } else if bits == 1 {
            I2cReadMode::OneByte16Bit
        } else if bits == 2 {
            I2cReadMode::TwoByte8Bit
        } else {
            I2cReadMode::Reserved
        }
    }

    pub fn raw_value(self) -> (r: u8)
        ensures
            r == self.bits(),
            r <= 3,
            I2cReadMode::from_bits(r) == self,
    {
        match self {
            I2cReadMode::Standard3Byte => 0,
            I2cReadMode::OneByte16Bit => 1,
            I2cReadMode::TwoByte8Bit => 2,
            I2cReadMode::Reserved => 3,
        }
    }

    pub fn new_with_raw_value(bits: u8) -> (r: Self)
        requires
            bits <= 3,
        ensures
            r == I2cReadMode::from_bits(bits),
            r.bits() == bits,
    {
        if bits == 0 {
            I2cReadMode::Standard3Byte
        } else if bits == 1 {
            I2cReadMode::OneByte16Bit
        } else if bits == 2 {
            I2cReadMode::TwoByte8Bit
        } else {
            I2cReadMode::Reserved
        }
    }
}

impl Default for I2cReadMode {
    fn default() -> (r: Self)
        ensures
            r == I2cReadMode::Standard3Byte,
    {
        I2cReadMode::Standard3Byte
    }
}

/// Enables additional sampling of the sensor data to reduce the noise effect (or to increase resolution).
/// This maps to CONV_AVG in the datasheet; the encodings 6 and 7 are reserved.
#[derive(Clone, Copy, Debug, PartialEq, Eq, Structural)]
pub enum ConversionAverage {
    /// 1x average, 10.0-kSPS (3-axes) or 20-kSPS (1 axis)
    X1,
    /// 2x average, 5.7-kSPS (3-axes) or 13.3-kSPS (1 axis)
    X2,
    /// 4x average, 3.1-kSPS (3-axes) or 8.0-kSPS (1 axis)
    X4,
    /// 8x average, 1.6-kSPS (3-axes) or 4.4-kSPS (1 axis)
    X8,
    /// 16x average, 0.8-kSPS (3-axes) or 2.4-kSPS (1 axis)
    X16,
    /// 32x average, 0.4-kSPS (3-axes) or 1.2-kSPS (1 axis)
    X32,
}

impl ConversionAverage {
    /// The field value that encodes this variant.
    pub open spec fn bits(self) -> u8 {
        match self {
            ConversionAverage::X1 => 0,
            ConversionAverage::X2 => 1,
            ConversionAverage::X4 => 2,
            ConversionAverage::X8 => 3,
            ConversionAverage::X16 => 4,
            ConversionAverage::X32 => 5,
        }
    }

    /// The variant that a 3-bit field value encodes, or the value itself
    /// where it is reserved.
    pub open spec fn from_bits(bits: u8) -> Result<ConversionAverage, u8> {
        if bits == 0 {
            Ok(ConversionAverage::X1)
        } else if bits == 1 {
            Ok(ConversionAverage::X2)
        } else if bits == 2 {
            Ok(ConversionAverage::X4)
        } else if bits == 3 {
            Ok(ConversionAverage::X8)
        } else if bits == 4 {
            Ok(ConversionAverage::X16)
        } else if bits == 5 {
            Ok(ConversionAverage::X32)
        } else {
            Err(bits)
        }
    }

    pub fn raw_value(self) -> (r: u8)
        ensures
            r == self.bits(),
            r <= 7,
            ConversionAverage::from_bits(r) == Ok::<ConversionAverage, u8>(self),
    {
        match self {
            ConversionAverage::X1 => 0,
            ConversionAverage::X2 => 1,
            ConversionAverage::X4 => 2,
            ConversionAverage::X8 => 3,
            ConversionAverage::X16 => 4,
            ConversionAverage::X32 => 5,
        }
    }

    pub fn new_with_raw_value(bits: u8) -> (r: Result<Self, u8>)
        ensures
            r == ConversionAverage::from_bits(bits),
            r is Ok ==> r->Ok_0.bits() == bits,
    {
        if bits == 0 {
            Ok(ConversionAverage::X1)
        } else if bits == 1 {
            Ok(ConversionAverage::X2)
        } else if bits == 2 {
            Ok(ConversionAverage::X4)
        } else if bits == 3 {
            Ok(ConversionAverage::X8)
        } else if bits == 4 {
            Ok(ConversionAverage::X16)
        } else if bits == 5 {
            Ok(ConversionAverage::X32)
        } else {
            Err(bits)
        }
    }
}

impl Default for ConversionAverage {
    fn default() -> (r: Self)
        ensures
            r == ConversionAverage::X1,
    {
        ConversionAverage::X1
    }
}

/// Temperature coefficient of the magnet.
/// This maps to MAG_TEMPO in the datasheet.
#[derive(Clone, Copy, Debug, PartialEq, Eq, Structural)]
pub enum MagnetTemperatureCoefficient {
    /// 0% (No temperature compensation)
    ZeroCompensation,
    /// 0.12%/ deg C (NdBFe)
    Zero12Compensation,
    /// Reserved
    Reserved,
    /// 0.2%/deg C (Ceramic)
    Zero2Compensation,
}

impl MagnetTemperatureCoefficient {
    /// The field value that encodes this variant.
    pub open spec fn bits(self) -> u8 {
        match self {
            MagnetTemperatureCoefficient::ZeroCompensation => 0,
            MagnetTemperatureCoefficient::Zero12Compensation => 1,
            MagnetTemperatureCoefficient::Reserved => 2,
            MagnetTemperatureCoefficient::Zero2Compensation => 3,
        }
    }

    /// The variant that a 2-bit field value encodes.
    pub open spec fn from_bits(bits: u8) -> MagnetTemperatureCoefficient {
        if bits == 0 {
            MagnetTemperatureCoefficient::ZeroCompensation
        } else if bits == 1 {
            MagnetTemperatureCoefficient::Zero12Compensation
        } else if bits == 2 {
            MagnetTemperatureCoefficient::Reserved
        } else {
            MagnetTemperatureCoefficient::Zero2Compensation
        }
    }

    pub fn raw_value(self) -> (r: u8)
        ensures
            r == self.bits(),
            r <= 3,
            MagnetTemperatureCoefficient::from_bits(r) == self,
    {
        match self {
            MagnetTemperatureCoefficient::ZeroCompensation => 0,
            MagnetTemperatureCoefficient::Zero12Compensation => 1,
            MagnetTemperatureCoefficient::Reserved => 2,
            MagnetTemperatureCoefficient::Zero2Compensation => 3,
        }
    }

    pub fn new_with_raw_value(bits: u8) -> (r: Self)
        requires
            bits <= 3,
        ensures
            r == MagnetTemperatureCoefficient::from_bits(bits),
            r.bits() == bits,
    {
        if bits == 0 {
            MagnetTemperatureCoefficient::ZeroCompensation
        } else if bits == 1 {
            MagnetTemperatureCoefficient::Zero12Compensation
        } else if bits == 2 {
            MagnetTemperatureCoefficient::Reserved
        } else {
            MagnetTemperatureCoefficient::Zero2Compensation
        }
    }
}

impl Default for MagnetTemperatureCoefficient {
    fn default() -> (r: Self)
        ensures
            r == MagnetTemperatureCoefficient::ZeroCompensation,
    {
        MagnetTemperatureCoefficient::ZeroCompensation
    }
}

/// Represents the Device Configuration Register 1.
#[derive(Clone, Copy, Debug, PartialEq, Eq, Structural)]
pub struct DeviceConfig1Register {
    raw: u8,
}

impl DeviceConfig1Register {
    /// The register's byte as it stands on the device.
    pub closed spec fn bits(self) -> u8 {
        self.raw
    }

    /// I2C read mode - bits 0 and 1.
    pub open spec fn spec_i2c_read_mode(self) -> I2cReadMode {
        I2cReadMode::from_bits(field(self.bits(), 0, 3))
    }

    /// Additional sampling of the sensor data - bits 2 to 4.
    pub open spec fn spec_conv_avg(self) -> Result<ConversionAverage, u8> {
        ConversionAverage::from_bits(field(self.bits(), 2, 7))
    }

    /// Temperature coefficient of the magnet - bits 5 and 6.
    pub open spec fn spec_mag_tempo(self) -> MagnetTemperatureCoefficient {
        MagnetTemperatureCoefficient::from_bits(field(self.bits(), 5, 3))
    }

    /// Enables I2C CRC byte to be sent - bit 7.
    pub open spec fn spec_i2c_crc_enabled(self) -> bool {
        field(self.bits(), 7, 1) == 1
    }

    /// Starts a value from the reset value; set fields with the `with_` methods.
    pub fn builder() -> (r: Self)
        ensures
            r.bits() == 0x00,
    {
        DeviceConfig1Register { raw: 0x00 }
    }

    pub fn build(self) -> (r: Self)
        ensures
            r == self,
    {
        self
    }

    /// I2C read mode - bits 0 and 1.
    pub fn i2c_read_mode(&self) -> (r: I2cReadMode)
        ensures
            r == self.spec_i2c_read_mode(),
    {
        proof {
            lemma_field_bound(self.raw, 0, 3);
        }
        I2cReadMode::new_with_raw_value(get_field(self.raw, 0, 3))
    }

    /// Additional sampling of the sensor data - bits 2 to 4.
    pub fn conv_avg(&self) -> (r: Result<ConversionAverage, u8>)
        ensures
            r == self.spec_conv_avg(),
    {
        ConversionAverage::new_with_raw_value(get_field(self.raw, 2, 7))
    }

    /// Temperature coefficient of the magnet - bits 5 and 6.
    pub fn mag_tempo(&self) -> (r: MagnetTemperatureCoefficient)
        ensures
            r == self.spec_mag_tempo(),
    {
        proof {
            lemma_field_bound(self.raw, 5, 3);
        }
        MagnetTemperatureCoefficient::new_with_raw_value(get_field(self.raw, 5, 3))
    }

    /// Enables I2C CRC byte to be sent - bit 7.
    pub fn i2c_crc_enabled(&self) -> (r: bool)
        ensures
            r == self.spec_i2c_crc_enabled(),
    {
        get_field(self.raw, 7, 1) == 1
    }

    /// This value with `i2c_read_mode` set to `value` and every other field kept.
    pub fn with_i2c_read_mode(self, value: I2cReadMode) -> (r: Self)
        ensures
            r.spec_i2c_read_mode() == value,
            r.spec_conv_avg() == self.spec_conv_avg(),
            r.spec_mag_tempo() == self.spec_mag_tempo(),
            r.spec_i2c_crc_enabled() == self.spec_i2c_crc_enabled(),
            r.bits() == with_field(self.bits(), 0, 3, value.bits()),
    {
        let bits: u8 = value.raw_value();
        proof {
            lemma_with_field(self.raw, 0, 3, bits, 2, 7);
            lemma_with_field(self.raw, 0, 3, bits, 5, 3);
            lemma_with_field(self.raw, 0, 3, bits, 7, 1);
        }
        DeviceConfig1Register { raw: set_field(self.raw, 0, 3, bits) }
    }

    /// This value with `conv_avg` set to `value` and every other field kept.
    pub fn with_conv_avg(self, value: ConversionAverage) -> (r: Self)
        ensures
            r.spec_conv_avg() == Ok::<ConversionAverage, u8>(value),
            r.spec_i2c_read_mode() == self.spec_i2c_read_mode(),
            r.spec_mag_tempo() == self.spec_mag_tempo(),
            r.spec_i2c_crc_enabled() == self.spec_i2c_crc_enabled(),
            r.bits() == with_field(self.bits(), 2, 7, value.bits()),
    {
        let bits: u8 = value.raw_value();
        proof {
            lemma_with_field(self.raw, 2, 7, bits, 0, 3);
            lemma_with_field(self.raw, 2, 7, bits, 5, 3);
            lemma_with_field(self.raw, 2, 7, bits, 7, 1);
        }
        DeviceConfig1Register { raw: set_field(self.raw, 2, 7, bits) }
    }

    /// This value with `mag_tempo` set to `value` and every other field kept.
    pub fn with_mag_tempo(self, value: MagnetTemperatureCoefficient) -> (r: Self)
        ensures
            r.spec_mag_tempo() == value,
            r.spec_i2c_read_mode() == self.spec_i2c_read_mode(),
            r.spec_conv_avg() == self.spec_conv_avg(),
            r.spec_i2c_crc_enabled() == self.spec_i2c_crc_enabled(),
            r.bits() == with_field(self.bits(), 5, 3, value.bits()),
    {
        let bits: u8 = value.raw_value();
        proof {
            lemma_with_field(self.raw, 5, 3, bits, 0, 3);
            lemma_with_field(self.raw, 5, 3, bits, 2, 7);
            lemma_with_field(self.raw, 5, 3, bits, 7, 1);
        }
        DeviceConfig1Register { raw: set_field(self.raw, 5, 3, bits) }
    }

    /// This value with `i2c_crc_enabled` set to `value` and every other field kept.
    pub fn with_i2c_crc_enabled(self, value: bool) -> (r: Self)
        ensures
            r.spec_i2c_crc_enabled() == value,
            r.spec_i2c_read_mode() == self.spec_i2c_read_mode(),
            r.spec_conv_avg() == self.spec_conv_avg(),
            r.spec_mag_tempo() == self.spec_mag_tempo(),
            r.bits() == with_field(self.bits(), 7, 1, (if value { 1u8 } else { 0u8 })),
    {
        let bits: u8 = if value { 1u8 } else { 0u8 };
        proof {
            lemma_with_field(self.raw, 7, 1, bits, 0, 3);
            lemma_with_field(self.raw, 7, 1, bits, 2, 7);
            lemma_with_field(self.raw, 7, 1, bits, 5, 3);
        }
        DeviceConfig1Register { raw: set_field(self.raw, 7, 1, bits) }
    }
}

impl Default for DeviceConfig1Register {
    fn default() -> (r: Self)
        ensures
            r.bits() == 0x00,
    {
        DeviceConfig1Register { raw: 0x00 }
    }
}

impl BitFieldDeviceConfiguration for DeviceConfig1Register {
    open spec fn spec_raw_value(&self) -> u8 {
        self.bits()
    }

    closed spec fn spec_new_with_raw_value(raw_value: u8) -> Self {
        DeviceConfig1Register { raw: raw_value }
    }

    open spec fn spec_address() -> TMAG5273Register {
        TMAG5273Register::DeviceConfig1
    }

    fn raw_value(&self) -> (r: u8)
    {
        self.raw
    }

    fn new_with_raw_value(raw_value: u8) -> (r: Self)
        ensures
            r.bits() == raw_value,
    {
        DeviceConfig1Register { raw: raw_value }
    }

    fn get_address() -> (r: TMAG5273Register)
    {
        TMAG5273Register::DeviceConfig1
    }

    proof fn lemma_decode_encode(register: Self) {
    }

    proof fn lemma_encode_decode(raw_value: u8) {
    }
}

} // verus!
