use vstd::prelude::*;

verus! {

/// The registers of the device, each at its fixed address.
#[derive(Clone, Copy, Debug, PartialEq, Eq, Structural)]
pub enum TMAG5273Register {
    /// Represents the Device Configuration Register 1.
    DeviceConfig1,
    /// Represents the Device Configuration Register 2.
    DeviceConfig2,
    /// Represents the Sensor Configuration Register 1.
    SensorConfig1,
    /// Represents the Sensor Configuration Register 2.
    SensorConfig2,
    /// 8-bit, 2's complement X axis threshold code for limit check. Default 0h means no threshold comparison.
    XThrConfig,
    /// 8-bit, 2's complement Y axis threshold code for limit check. Default 0h means no threshold comparison.
    YThrConfig,
    /// 8-bit, 2's complement Z axis threshold code for limit check. Default 0h means no threshold comparison.
    ZThrConfig,
    /// Represents the Temperature Configuration Register.
    TConfig,
    /// Represents the Interrupt Configuration Register.
    IntConfig1,
    /// 8-bit gain value determined by a primary to adjust a Hall axis gain (value / 256; 0 is read as 1).
    MagGainConfig,
    /// 8-bit, 2's complement offset value to adjust the first axis offset value.
    MagOffsetConfig1,
    /// 8-bit, 2's complement offset value to adjust the second axis offset value.
    MagOffsetConfig2,
    /// Represents the I2C Address Register.
    I2CAddress,
    /// Represents the Device ID Register.
    DeviceID,
    /// 8-bit unique manufacturer ID, low byte.
    ManufacturerIdLsb,
    /// 8-bit unique manufacturer ID, high byte.
    ManufacturerIdMsb,
    /// T-channel data conversion results, MSB 8 bits.
    TMsbResult,
    /// T-channel data conversion results, LSB 8 bits.
    TLsbResult,
    /// X-channel data conversion results, MSB 8 bits.
    XMsbResult,
    /// X-channel data conversion results, LSB 8 bits.
    XLsbResult,
    /// Y-channel data conversion results, MSB 8 bits.
    YMSBResult,
    /// Y-channel data conversion results, LSB 8 bits.
    YLsbResult,
    /// Z-channel data conversion results, MSB 8 bits.
    ZMSBResult,
    /// Z-channel data conversion results, LSB 8 bits.
    ZLsbResult,
    /// Represents the Conversion Status Register.
    ConvStatus,
    /// Angle measurement result in degree, MSB. 12 integer bits and 4 fraction bits (xxxx/16) over MSB and LSB.
    AngleResultMSB,
    /// Angle measurement result in degree, LSB.
    AngleResultLSB,
    /// Resultant vector magnitude (during angle measurement) result.
    MagnitudeResult,
    /// Represents the Device Status Register.
    DeviceStatus,
}

impl TMAG5273Register {
    /// The register's address on the device.
    pub open spec fn spec_address(self) -> u8 {
        match self {
            TMAG5273Register::DeviceConfig1 => 0x00,
            TMAG5273Register::DeviceConfig2 => 0x01,
            TMAG5273Register::SensorConfig1 => 0x02,
            TMAG5273Register::SensorConfig2 => 0x03,
            TMAG5273Register::XThrConfig => 0x04,
            TMAG5273Register::YThrConfig => 0x05,
            TMAG5273Register::ZThrConfig => 0x06,
            TMAG5273Register::TConfig => 0x07,
            TMAG5273Register::IntConfig1 => 0x08,
            TMAG5273Register::MagGainConfig => 0x09,
            TMAG5273Register::MagOffsetConfig1 => 0x0A,
            TMAG5273Register::MagOffsetConfig2 => 0x0B,
            TMAG5273Register::I2CAddress => 0x0C,
            TMAG5273Register::DeviceID => 0x0D,
            TMAG5273Register::ManufacturerIdLsb => 0x0E,
            TMAG5273Register::ManufacturerIdMsb => 0x0F,
            TMAG5273Register::TMsbResult => 0x10,
            TMAG5273Register::TLsbResult => 0x11,
            TMAG5273Register::XMsbResult => 0x12,
            TMAG5273Register::XLsbResult => 0x13,
            TMAG5273Register::YMSBResult => 0x14,
            TMAG5273Register::YLsbResult => 0x15,
            TMAG5273Register::ZMSBResult => 0x16,
            TMAG5273Register::ZLsbResult => 0x17,
            TMAG5273Register::ConvStatus => 0x18,
            TMAG5273Register::AngleResultMSB => 0x19,
            TMAG5273Register::AngleResultLSB => 0x1A,
            TMAG5273Register::MagnitudeResult => 0x1B,
            TMAG5273Register::DeviceStatus => 0x1C,
        }
    }

    pub fn address(self) -> (r: u8)
        ensures
            r == self.spec_address(),
    {
        match self {
            TMAG5273Register::DeviceConfig1 => 0x00,
            TMAG5273Register::DeviceConfig2 => 0x01,
            TMAG5273Register::SensorConfig1 => 0x02,
            TMAG5273Register::SensorConfig2 => 0x03,
            TMAG5273Register::XThrConfig => 0x04,
            TMAG5273Register::YThrConfig => 0x05,
            TMAG5273Register::ZThrConfig => 0x06,
            TMAG5273Register::TConfig => 0x07,
            TMAG5273Register::IntConfig1 => 0x08,
            TMAG5273Register::MagGainConfig => 0x09,
            TMAG5273Register::MagOffsetConfig1 => 0x0A,
            TMAG5273Register::MagOffsetConfig2 => 0x0B,
            TMAG5273Register::I2CAddress => 0x0C,
            TMAG5273Register::DeviceID => 0x0D,
            TMAG5273Register::ManufacturerIdLsb => 0x0E,
            TMAG5273Register::ManufacturerIdMsb => 0x0F,
            TMAG5273Register::TMsbResult => 0x10,
            TMAG5273Register::TLsbResult => 0x11,
            TMAG5273Register::XMsbResult => 0x12,
            TMAG5273Register::XLsbResult => 0x13,
            TMAG5273Register::YMSBResult => 0x14,
            TMAG5273Register::YLsbResult => 0x15,
            TMAG5273Register::ZMSBResult => 0x16,
            TMAG5273Register::ZLsbResult => 0x17,
            TMAG5273Register::ConvStatus => 0x18,
            TMAG5273Register::AngleResultMSB => 0x19,
            TMAG5273Register::AngleResultLSB => 0x1A,
            TMAG5273Register::MagnitudeResult => 0x1B,
            TMAG5273Register::DeviceStatus => 0x1C,
        }
    }
}

/// A register held in one byte of the device. Generic register access goes
/// through this trait rather than a function for each register.
pub trait BitFieldDeviceConfiguration: Sized {
    /// The byte that encodes this value.
    spec fn spec_raw_value(&self) -> u8;

    /// The value that a byte decodes to.
    spec fn spec_new_with_raw_value(raw_value: u8) -> Self;

    /// Where the register stands.
    spec fn spec_address() -> TMAG5273Register;

    fn raw_value(&self) -> (r: u8)
        ensures
            r == self.spec_raw_value(),
    ;

    fn new_with_raw_value(raw_value: u8) -> (r: Self)
        ensures
            r == Self::spec_new_with_raw_value(raw_value),
    ;

    fn get_address() -> (r: TMAG5273Register)
        ensures
            r == Self::spec_address(),
    ;

    /// Decoding the encoding of a value gives the value back.
    proof fn lemma_decode_encode(register: Self)
        ensures
            Self::spec_new_with_raw_value(register.spec_raw_value()) == register,
    ;

    /// Every byte decodes, and encodes back to itself.
    proof fn lemma_encode_decode(raw_value: u8)
        ensures
            Self::spec_new_with_raw_value(raw_value).spec_raw_value() == raw_value,
    ;
}

/// Two adjacent registers read as one little-endian 16-bit value.
pub trait ByteFieldDeviceConfiguration: Sized {
    /// The 16 bits that encode this value.
    spec fn spec_raw_value(&self) -> u16;

    /// The value that 16 bits decode to.
    spec fn spec_new_with_raw_value(raw_value: u16) -> Self;

    /// Where the first of the two registers stands.
    spec fn spec_address() -> TMAG5273Register;

    fn raw_value(&self) -> (r: u16)
        ensures
            r == self.spec_raw_value(),
    ;

    fn new_with_raw_value(raw_value: u16) -> (r: Self)
        ensures
            r == Self::spec_new_with_raw_value(raw_value),
    ;

    fn get_address() -> (r: TMAG5273Register)
        ensures
            r == Self::spec_address(),
    ;

    /// Decoding the encoding of a value gives the value back.
    proof fn lemma_decode_encode(register: Self)
        ensures
            Self::spec_new_with_raw_value(register.spec_raw_value()) == register,
    ;

    /// Every 16-bit value decodes, and encodes back to itself.
    proof fn lemma_encode_decode(raw_value: u16)
        ensures
            Self::spec_new_with_raw_value(raw_value).spec_raw_value() == raw_value,
    ;
}

} // verus!
