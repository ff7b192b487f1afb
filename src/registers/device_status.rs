use super::register_map::{BitFieldDeviceConfiguration, TMAG5273Register};
use crate::bits::{field, get_field, lemma_field_bound};
use vstd::prelude::*;

verus! {

/// Indicates the level that the device is reading back from INT pin. The
/// reset value of DEVICE_STATUS depends on the status of the INT pin at power-up.
/// This maps to the INTB_RB bit in the Device Status Register.
#[derive(Clone, Copy, Debug, PartialEq, Eq, Structural)]
pub enum IntPinReadBack {
    /// INT pin drive low
    Low,
    /// INT pin status high
    High,
}

impl IntPinReadBack {
    /// The field value that encodes this variant.
    pub open spec fn bits(self) -> u8 {
        match self {
            IntPinReadBack::Low => 0,
            IntPinReadBack::High => 1,
        }
    }

    /// The variant that a 1-bit field value encodes.
    pub open spec fn from_bits(bits: u8) -> IntPinReadBack {
        if bits == 0 {
            IntPinReadBack::Low
        } else {
            IntPinReadBack::High
        }
    }

    pub fn raw_value(self) -> (r: u8)
        ensures
            r == self.bits(),
            r <= 1,
            IntPinReadBack::from_bits(r) == self,
    {
        match self {
            IntPinReadBack::Low => 0,
            IntPinReadBack::High => 1,
        }
    }

    pub fn new_with_raw_value(bits: u8) -> (r: Self)
        requires
            bits <= 1,
        ensures
            r == IntPinReadBack::from_bits(bits),
            r.bits() == bits,
    {
        if bits == 0 {
            IntPinReadBack::Low
        } else {
            IntPinReadBack::High
        }
    }
}

/// Represents the Device Status Register.
#[derive(Clone, Copy, Debug, PartialEq, Eq, Structural)]
pub struct DeviceStatusRegister {
    raw: u8,
}

impl DeviceStatusRegister {
    /// The register's byte as it stands on the device.
    pub closed spec fn bits(self) -> u8 {
        self.raw
    }

    /// VCC Under Voltage error (0 - No error, 1 - Error) - bit 0.
    pub open spec fn spec_vcc_under_voltage_error(self) -> bool {
        field(self.bits(), 0, 1) == 1
    }

    /// One Time Programmable (OTP) CRC error (0 - No error, 1 - Error) - bit 1.
    pub open spec fn spec_crc_error(self) -> bool {
        field(self.bits(), 1, 1) == 1
    }

    /// INT pin error (0 - No error, 1 - Error) - bit 2.
    pub open spec fn spec_int_pin_error(self) -> bool {
        field(self.bits(), 2, 1) == 1
    }

    /// Oscillator error (0 - No error, 1 - Error) - bit 3.
    pub open spec fn spec_oscillator_error(self) -> bool {
        field(self.bits(), 3, 1) == 1
    }

    /// INT pin Read Back - bit 4.
    pub open spec fn spec_int_pin_read_back(self) -> IntPinReadBack {
        IntPinReadBack::from_bits(field(self.bits(), 4, 1))
    }

    /// VCC Under Voltage error (0 - No error, 1 - Error) - bit 0.
    pub fn vcc_under_voltage_error(&self) -> (r: bool)
        ensures
            r == self.spec_vcc_under_voltage_error(),
    {
        get_field(self.raw, 0, 1) == 1
    }

    /// One Time Programmable (OTP) CRC error (0 - No error, 1 - Error) - bit 1.
    pub fn crc_error(&self) -> (r: bool)
        ensures
            r == self.spec_crc_error(),
    {
        get_field(self.raw, 1, 1) == 1
    }

    /// INT pin error (0 - No error, 1 - Error) - bit 2.
    pub fn int_pin_error(&self) -> (r: bool)
        ensures
            r == self.spec_int_pin_error(),
    {
        get_field(self.raw, 2, 1) == 1
    }

    /// Oscillator error (0 - No error, 1 - Error) - bit 3.
    pub fn oscillator_error(&self) -> (r: bool)
        ensures
            r == self.spec_oscillator_error(),
    {
        get_field(self.raw, 3, 1) == 1
    }

    /// INT pin Read Back - bit 4.
    pub fn int_pin_read_back(&self) -> (r: IntPinReadBack)
        ensures
            r == self.spec_int_pin_read_back(),
    {
        proof {
            lemma_field_bound(self.raw, 4, 1);
        }
        IntPinReadBack::new_with_raw_value(get_field(self.raw, 4, 1))
    }
}

impl Default for DeviceStatusRegister {
    fn default() -> (r: Self)
        ensures
            r.bits() == 0x10,
    {
        DeviceStatusRegister { raw: 0x10 }
    }
}

impl BitFieldDeviceConfiguration for DeviceStatusRegister {
    open spec fn spec_raw_value(&self) -> u8 {
        self.bits()
    }

    closed spec fn spec_new_with_raw_value(raw_value: u8) -> Self {
        DeviceStatusRegister { raw: raw_value }
    }

    open spec fn spec_address() -> TMAG5273Register {
        TMAG5273Register::DeviceStatus
    }

    fn raw_value(&self) -> (r: u8)
    {
        self.raw
    }

    fn new_with_raw_value(raw_value: u8) -> (r: Self)
        ensures
            r.bits() == raw_value,
    {
        DeviceStatusRegister { raw: raw_value }
    }

    fn get_address() -> (r: TMAG5273Register)
    {
        TMAG5273Register::DeviceStatus
    }

    proof fn lemma_decode_encode(register: Self) {
    }

    proof fn lemma_encode_decode(raw_value: u8) {
    }
}

} // verus!
