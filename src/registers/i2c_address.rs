use super::register_map::{BitFieldDeviceConfiguration, TMAG5273Register};
use crate::bits::{field, get_field, lemma_with_field, set_field, with_field};
use vstd::prelude::*;

verus! {

/// Represents the I2C Address Register.
/// *PLEASE NOTE:* The reset value for this register is listed as 0x6A (106) in the datasheet,
/// however real-world testing indicates that the reset value for this register is 0x44 (68).
#[derive(Clone, Copy, Debug, PartialEq, Eq, Structural)]
pub struct I2cAddressRegister {
    raw: u8,
}

impl I2cAddressRegister {
    /// The register's byte as it stands on the device.
    pub closed spec fn bits(self) -> u8 {
        self.raw
    }

    /// Enables the update of the I2C address - bit 0.
    pub open spec fn spec_i2c_address_update_enabled(self) -> bool {
        field(self.bits(), 0, 1) == 1
    }

    /// 7-bit default factory I2C address is loaded from OTP during first power up.
    /// Change these bits to a new setting if a new I2C address is required (at each power
    /// cycle these bits must be written again to avoid going back to default factory address) - bits 1 to 7.
    pub open spec fn spec_i2c_address(self) -> u8 {
        field(self.bits(), 1, 127)
    }

    /// Starts a value from the reset value; set fields with the `with_` methods.
    pub fn builder() -> (r: Self)
        ensures
            r.bits() == 0x00,
    {
        I2cAddressRegister { raw: 0x00 }
    }

    pub fn build(self) -> (r: Self)
        ensures
            r == self,
    {
        self
    }

    /// Enables the update of the I2C address - bit 0.
    pub fn i2c_address_update_enabled(&self) -> (r: bool)
        ensures
            r == self.spec_i2c_address_update_enabled(),
    {
        get_field(self.raw, 0, 1) == 1
    }

    /// 7-bit default factory I2C address is loaded from OTP during first power up.
    /// Change these bits to a new setting if a new I2C address is required (at each power
    /// cycle these bits must be written again to avoid going back to default factory address) - bits 1 to 7.
    pub fn i2c_address(&self) -> (r: u8)
        ensures
            r == self.spec_i2c_address(),
    {
        get_field(self.raw, 1, 127)
    }

    /// This value with `i2c_address_update_enabled` set to `value` and every other field kept.
    pub fn with_i2c_address_update_enabled(self, value: bool) -> (r: Self)
        ensures
            r.spec_i2c_address_update_enabled() == value,
            r.spec_i2c_address() == self.spec_i2c_address(),
            r.bits() == with_field(self.bits(), 0, 1, (if value { 1u8 } else { 0u8 })),
    {
        let bits: u8 = if value { 1u8 } else { 0u8 };
        proof {
            lemma_with_field(self.raw, 0, 1, bits, 1, 127);
        }
        I2cAddressRegister { raw: set_field(self.raw, 0, 1, bits) }
    }

    /// This value with `i2c_address` set to `value` and every other field kept.
    pub fn with_i2c_address(self, value: u8) -> (r: Self)
        requires
            value <= 127,
        ensures
            r.spec_i2c_address() == value,
            r.spec_i2c_address_update_enabled() == self.spec_i2c_address_update_enabled(),
            r.bits() == with_field(self.bits(), 1, 127, value),
    {
        let bits: u8 = value;
        proof {
            lemma_with_field(self.raw, 1, 127, bits, 0, 1);
        }
        I2cAddressRegister { raw: set_field(self.raw, 1, 127, bits) }
    }
}

impl BitFieldDeviceConfiguration for I2cAddressRegister {
    open spec fn spec_raw_value(&self) -> u8 {
        self.bits()
    }

    closed spec fn spec_new_with_raw_value(raw_value: u8) -> Self {
        I2cAddressRegister { raw: raw_value }
    }

    open spec fn spec_address() -> TMAG5273Register {
        TMAG5273Register::I2CAddress
    }

    fn raw_value(&self) -> (r: u8)
    {
        self.raw
    }

    fn new_with_raw_value(raw_value: u8) -> (r: Self)
        ensures
            r.bits() == raw_value,
    {
        I2cAddressRegister { raw: raw_value }
    }

    fn get_address() -> (r: TMAG5273Register)
    {
        TMAG5273Register::I2CAddress
    }

    proof fn lemma_decode_encode(register: Self) {
    }

    proof fn lemma_encode_decode(raw_value: u8) {
    }
}

} // verus!
