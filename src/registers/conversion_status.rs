use super::register_map::{BitFieldDeviceConfiguration, TMAG5273Register};
use crate::bits::{field, get_field};
use vstd::prelude::*;

verus! {

/// Represents the Conversion Status Register.
#[derive(Clone, Copy, Debug, PartialEq, Eq, Structural)]
pub struct ConversionStatusRegister {
    raw: u8,
}

impl ConversionStatusRegister {
    /// The register's byte as it stands on the device.
    pub closed spec fn bits(self) -> u8 {
        self.raw
    }

    /// Conversion data buffer is ready to be read - bit 0.
    pub open spec fn spec_conversion_ready(self) -> bool {
        field(self.bits(), 0, 1) == 1
    }

    /// Detect any internal diagnostics fail which include VCC UV, internal
    /// memory CRC error, INT pin error and internal clock error. Ignore this
    /// bit status if VCC < 2.3V - bit 1.
    pub open spec fn spec_diagnostic_error(self) -> bool {
        field(self.bits(), 1, 1) == 1
    }

    /// Device powered up, or experienced power-on-reset (POR). Bit is clear when
    /// host writes back '1' - bit 4.
    pub open spec fn spec_power_on_reset(self) -> bool {
        field(self.bits(), 4, 1) == 1
    }

    /// Rolling Count of Conversion Data Sets - bits 5 to 7.
    pub open spec fn spec_set_count(self) -> u8 {
        field(self.bits(), 5, 7)
    }

    /// Conversion data buffer is ready to be read - bit 0.
    pub fn conversion_ready(&self) -> (r: bool)
        ensures
            r == self.spec_conversion_ready(),
    {
        get_field(self.raw, 0, 1) == 1
    }

    /// Detect any internal diagnostics fail which include VCC UV, internal
    /// memory CRC error, INT pin error and internal clock error. Ignore this
    /// bit status if VCC < 2.3V - bit 1.
    pub fn diagnostic_error(&self) -> (r: bool)
        ensures
            r == self.spec_diagnostic_error(),
    {
        get_field(self.raw, 1, 1) == 1
    }

    /// Device powered up, or experienced power-on-reset (POR). Bit is clear when
    /// host writes back '1' - bit 4.
    pub fn power_on_reset(&self) -> (r: bool)
        ensures
            r == self.spec_power_on_reset(),
    {
        get_field(self.raw, 4, 1) == 1
    }

    /// Rolling Count of Conversion Data Sets - bits 5 to 7.
    pub fn set_count(&self) -> (r: u8)
        ensures
            r == self.spec_set_count(),
    {
        get_field(self.raw, 5, 7)
    }
}

impl Default for ConversionStatusRegister {
    fn default() -> (r: Self)
        ensures
            r.bits() == 0x10,
    {
        ConversionStatusRegister { raw: 0x10 }
    }
}

impl BitFieldDeviceConfiguration for ConversionStatusRegister {
    open spec fn spec_raw_value(&self) -> u8 {
        self.bits()
    }

    closed spec fn spec_new_with_raw_value(raw_value: u8) -> Self {
        ConversionStatusRegister { raw: raw_value }
    }

    open spec fn spec_address() -> TMAG5273Register {
        TMAG5273Register::ConvStatus
    }

    fn raw_value(&self) -> (r: u8)
    {
        self.raw
    }

    fn new_with_raw_value(raw_value: u8) -> (r: Self)
        ensures
            r.bits() == raw_value,
    {
        ConversionStatusRegister { raw: raw_value }
    }

    fn get_address() -> (r: TMAG5273Register)
    {
        TMAG5273Register::ConvStatus
    }

    proof fn lemma_decode_encode(register: Self) {
    }

    proof fn lemma_encode_decode(raw_value: u8) {
    }
}

} // verus!
