use super::register_map::{BitFieldDeviceConfiguration, TMAG5273Register};
use crate::bits::{field, get_field};
use vstd::prelude::*;

verus! {

/// Device version indicator. Reset value of DEVICE_ID depends on the orderable part number.
#[derive(Clone, Copy, Debug, PartialEq, Eq, Structural)]
pub enum DeviceId {
    /// ±40-mT and ±80-mT range
    TMAG5273X1,
    /// ±133-mT and ±266-mT range
    TMAG5273X2,
}

impl DeviceId {
    /// The field value that encodes this variant.
    pub open spec fn bits(self) -> u8 {
        match self {
            DeviceId::TMAG5273X1 => 1,
            DeviceId::TMAG5273X2 => 2,
        }
    }

    /// The variant that a 2-bit field value encodes, or the value itself
    /// where it is reserved.
    pub open spec fn from_bits(bits: u8) -> Result<DeviceId, u8> {
        if bits == 1 {
            Ok(DeviceId::TMAG5273X1)
        } else if bits == 2 {
            Ok(DeviceId::TMAG5273X2)
        } else {
            Err(bits)
        }
    }

    pub fn raw_value(self) -> (r: u8)
        ensures
            r == self.bits(),
            r <= 3,
            DeviceId::from_bits(r) == Ok::<DeviceId, u8>(self),
    {
        match self {
            DeviceId::TMAG5273X1 => 1,
            DeviceId::TMAG5273X2 => 2,
        }
    }

    pub fn new_with_raw_value(bits: u8) -> (r: Result<Self, u8>)
        ensures
            r == DeviceId::from_bits(bits),
            r is Ok ==> r->Ok_0.bits() == bits,
    {
        if bits == 1 {
            Ok(DeviceId::TMAG5273X1)
        } else if bits == 2 {
            Ok(DeviceId::TMAG5273X2)
        } else {
            Err(bits)
        }
    }
}

/// Represents the Device ID Register.
#[derive(Clone, Copy, Debug, PartialEq, Eq, Structural)]
pub struct DeviceIdRegister {
    raw: u8,
}

impl DeviceIdRegister {
    /// The register's byte as it stands on the device.
    pub closed spec fn bits(self) -> u8 {
        self.raw
    }

    /// Device version - bits 0 and 1.
    pub open spec fn spec_device_id(self) -> Result<DeviceId, u8> {
        DeviceId::from_bits(field(self.bits(), 0, 3))
    }

    /// Device version - bits 0 and 1.
    pub fn device_id(&self) -> (r: Result<DeviceId, u8>)
        ensures
            r == self.spec_device_id(),
    {
        DeviceId::new_with_raw_value(get_field(self.raw, 0, 3))
    }
}

impl Default for DeviceIdRegister {
    fn default() -> (r: Self)
        ensures
            r.bits() == 0x01,
    {
        DeviceIdRegister { raw: 0x01 }
    }
}

impl BitFieldDeviceConfiguration for DeviceIdRegister {
    open spec fn spec_raw_value(&self) -> u8 {
        self.bits()
    }

    closed spec fn spec_new_with_raw_value(raw_value: u8) -> Self {
        DeviceIdRegister { raw: raw_value }
    }

    open spec fn spec_address() -> TMAG5273Register {
        TMAG5273Register::DeviceID
    }

    fn raw_value(&self) -> (r: u8)
    {
        self.raw
    }

    fn new_with_raw_value(raw_value: u8) -> (r: Self)
        ensures
            r.bits() == raw_value,
    {
        DeviceIdRegister { raw: raw_value }
    }

    fn get_address() -> (r: TMAG5273Register)
    {
        TMAG5273Register::DeviceID
    }

    proof fn lemma_decode_encode(register: Self) {
    }

    proof fn lemma_encode_decode(raw_value: u8) {
    }
}

} // verus!
