use super::register_map::{BitFieldDeviceConfiguration, TMAG5273Register};
use crate::bits::{field, get_field, lemma_with_field, set_field, with_field};
use vstd::prelude::*;

verus! {

/// Represents the Temperature Configuration Register.
#[derive(Clone, Copy, Debug, PartialEq, Eq, Structural)]
pub struct TConfigRegister {
    raw: u8,
}

impl TConfigRegister {
    /// The register's byte as it stands on the device.
    pub closed spec fn bits(self) -> u8 {
        self.raw
    }

    /// Enables data acquisition of the temperature channel - bit 0.
    pub open spec fn spec_temperature_channel_enabled(self) -> bool {
        field(self.bits(), 0, 1) == 1
    }

    /// Temperature threshold code entered by user. The valid temperature threshold ranges are -41C to 170C
    /// with the threshold codes for -41C = 1Ah, and 170C = 34h. Resolution is 8 degree C/ LSB.
    /// Default 0h means no threshold comparison - bits 1 to 7.
    pub open spec fn spec_t_thr_config(self) -> u8 {
        field(self.bits(), 1, 127)
    }

    /// Starts a value from the reset value; set fields with the `with_` methods.
    pub fn builder() -> (r: Self)
        ensures
            r.bits() == 0x00,
    {
        TConfigRegister { raw: 0x00 }
    }

    pub fn build(self) -> (r: Self)
        ensures
            r == self,
    {
        self
    }

    /// Enables data acquisition of the temperature channel - bit 0.
    pub fn temperature_channel_enabled(&self) -> (r: bool)
        ensures
            r == self.spec_temperature_channel_enabled(),
    {
        get_field(self.raw, 0, 1) == 1
    }

    /// Temperature threshold code entered by user. The valid temperature threshold ranges are -41C to 170C
    /// with the threshold codes for -41C = 1Ah, and 170C = 34h. Resolution is 8 degree C/ LSB.
    /// Default 0h means no threshold comparison - bits 1 to 7.
    pub fn t_thr_config(&self) -> (r: u8)
        ensures
            r == self.spec_t_thr_config(),
    {
        get_field(self.raw, 1, 127)
    }

    /// This value with `temperature_channel_enabled` set to `value` and every other field kept.
    pub fn with_temperature_channel_enabled(self, value: bool) -> (r: Self)
        ensures
            r.spec_temperature_channel_enabled() == value,
            r.spec_t_thr_config() == self.spec_t_thr_config(),
            r.bits() == with_field(self.bits(), 0, 1, (if value { 1u8 } else { 0u8 })),
    {
        let bits: u8 = if value { 1u8 } else { 0u8 };
        proof {
            lemma_with_field(self.raw, 0, 1, bits, 1, 127);
        }
        TConfigRegister { raw: set_field(self.raw, 0, 1, bits) }
    }

    /// This value with `t_thr_config` set to `value` and every other field kept.
    pub fn with_t_thr_config(self, value: u8) -> (r: Self)
        requires
            value <= 127,
        ensures
            r.spec_t_thr_config() == value,
            r.spec_temperature_channel_enabled() == self.spec_temperature_channel_enabled(),
            r.bits() == with_field(self.bits(), 1, 127, value),
    {
        let bits: u8 = value;
        proof {
            lemma_with_field(self.raw, 1, 127, bits, 0, 1);
        }
        TConfigRegister { raw: set_field(self.raw, 1, 127, bits) }
    }
}

impl Default for TConfigRegister {
    fn default() -> (r: Self)
        ensures
            r.bits() == 0x00,
    {
        TConfigRegister { raw: 0x00 }
    }
}

impl BitFieldDeviceConfiguration for TConfigRegister {
    open spec fn spec_raw_value(&self) -> u8 {
        self.bits()
    }

    closed spec fn spec_new_with_raw_value(raw_value: u8) -> Self {
        TConfigRegister { raw: raw_value }
    }

    open spec fn spec_address() -> TMAG5273Register {
        TMAG5273Register::TConfig
    }

    fn raw_value(&self) -> (r: u8)
    {
        self.raw
    }

    fn new_with_raw_value(raw_value: u8) -> (r: Self)
        ensures
            r.bits() == raw_value,
    {
        TConfigRegister { raw: raw_value }
    }

    fn get_address() -> (r: TMAG5273Register)
    {
        TMAG5273Register::TConfig
    }

    proof fn lemma_decode_encode(register: Self) {
    }

    proof fn lemma_encode_decode(raw_value: u8) {
    }
}

} // verus!
