use super::device_config_1::DeviceConfig1Register;
use super::device_config_2::DeviceConfig2Register;
use super::register_map::{BitFieldDeviceConfiguration, ByteFieldDeviceConfiguration, TMAG5273Register};
use super::sensor_config_1::SensorConfig1Register;
use super::sensor_config_2::SensorConfig2Register;
use vstd::prelude::*;

verus! {

/// The two device configuration registers, read together.
#[derive(Clone, Copy, Debug, PartialEq, Eq, Structural)]
pub struct DeviceConfigRegisters {
    raw: u16,
}

impl DeviceConfigRegisters {
    /// The two bytes as one little-endian value.
    pub closed spec fn bits(self) -> u16 {
        self.raw
    }

    /// The first register: the low byte.
    pub open spec fn spec_device_config1(self) -> DeviceConfig1Register {
        DeviceConfig1Register::spec_new_with_raw_value((self.bits() % 256) as u8)
    }

    /// The second register: the high byte.
    pub open spec fn spec_device_config2(self) -> DeviceConfig2Register {
        DeviceConfig2Register::spec_new_with_raw_value((self.bits() / 256) as u8)
    }

    /// The first register: the low byte.
    pub fn device_config1(&self) -> (r: DeviceConfig1Register)
        ensures
            r == self.spec_device_config1(),
            r.bits() == self.bits() % 256,
    {
        DeviceConfig1Register::new_with_raw_value((self.raw % 256) as u8)
    }

    /// The second register: the high byte.
    pub fn device_config2(&self) -> (r: DeviceConfig2Register)
        ensures
            r == self.spec_device_config2(),
            r.bits() == self.bits() / 256,
    {
        DeviceConfig2Register::new_with_raw_value((self.raw / 256) as u8)
    }
}

impl Default for DeviceConfigRegisters {
    fn default() -> (r: Self)
        ensures
            r.bits() == 0,
    {
        DeviceConfigRegisters { raw: 0 }
    }
}

impl ByteFieldDeviceConfiguration for DeviceConfigRegisters {
    open spec fn spec_raw_value(&self) -> u16 {
        self.bits()
    }

    closed spec fn spec_new_with_raw_value(raw_value: u16) -> Self {
        DeviceConfigRegisters { raw: raw_value }
    }

    open spec fn spec_address() -> TMAG5273Register {
        TMAG5273Register::DeviceConfig1
    }

    fn raw_value(&self) -> (r: u16) {
        self.raw
    }

    fn new_with_raw_value(raw_value: u16) -> (r: Self)
        ensures
            r.bits() == raw_value,
    {
        DeviceConfigRegisters { raw: raw_value }
    }

    fn get_address() -> (r: TMAG5273Register) {
        TMAG5273Register::DeviceConfig1
    }

    proof fn lemma_decode_encode(register: Self) {
    }

    proof fn lemma_encode_decode(raw_value: u16) {
    }
}

/// The two sensor configuration registers, read together.
#[derive(Clone, Copy, Debug, PartialEq, Eq, Structural)]
pub struct SensorConfigRegisters {
    raw: u16,
}

impl SensorConfigRegisters {
    /// The two bytes as one little-endian value.
    pub closed spec fn bits(self) -> u16 {
        self.raw
    }

    /// The first register: the low byte.
    pub open spec fn spec_sensor_config1(self) -> SensorConfig1Register {
        SensorConfig1Register::spec_new_with_raw_value((self.bits() % 256) as u8)
    }

    /// The second register: the high byte.
    pub open spec fn spec_sensor_config2(self) -> SensorConfig2Register {
        SensorConfig2Register::spec_new_with_raw_value((self.bits() / 256) as u8)
    }

    /// The first register: the low byte.
    pub fn sensor_config1(&self) -> (r: SensorConfig1Register)
        ensures
            r == self.spec_sensor_config1(),
            r.bits() == self.bits() % 256,
    {
        SensorConfig1Register::new_with_raw_value((self.raw % 256) as u8)
    }

    /// The second register: the high byte.
    pub fn sensor_config2(&self) -> (r: SensorConfig2Register)
        ensures
            r == self.spec_sensor_config2(),
            r.bits() == self.bits() / 256,
    {
        SensorConfig2Register::new_with_raw_value((self.raw / 256) as u8)
    }
}

impl Default for SensorConfigRegisters {
    fn default() -> (r: Self)
        ensures
            r.bits() == 0,
    {
        SensorConfigRegisters { raw: 0 }
    }
}

impl ByteFieldDeviceConfiguration for SensorConfigRegisters {
    open spec fn spec_raw_value(&self) -> u16 {
        self.bits()
    }

    closed spec fn spec_new_with_raw_value(raw_value: u16) -> Self {
        SensorConfigRegisters { raw: raw_value }
    }

    open spec fn spec_address() -> TMAG5273Register {
        TMAG5273Register::SensorConfig1
    }

    fn raw_value(&self) -> (r: u16) {
        self.raw
    }

    fn new_with_raw_value(raw_value: u16) -> (r: Self)
        ensures
            r.bits() == raw_value,
    {
        SensorConfigRegisters { raw: raw_value }
    }

    fn get_address() -> (r: TMAG5273Register) {
        TMAG5273Register::SensorConfig1
    }

    proof fn lemma_decode_encode(register: Self) {
    }

    proof fn lemma_encode_decode(raw_value: u16) {
    }
}

} // verus!
