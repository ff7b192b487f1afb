//! The device's registers: their addresses, bit layouts and reset values.
mod configs;
mod conversion_status;
mod device_config_1;
mod device_config_2;
mod device_id;
mod device_status;
mod i2c_address;
mod interrupt_config;
mod register_map;
mod sensor_config_1;
mod sensor_config_2;
mod temperature_config;

pub use configs::{DeviceConfigRegisters, SensorConfigRegisters};
pub use conversion_status::ConversionStatusRegister;
pub use device_config_1::{
    ConversionAverage, DeviceConfig1Register, I2cReadMode, MagnetTemperatureCoefficient,
};
pub use device_config_2::{
    DeviceConfig2Register, LowPowerLowNoise, OperatingMode, Threshold, TriggerMode,
};
pub use device_id::{DeviceId, DeviceIdRegister};
pub use device_status::{DeviceStatusRegister, IntPinReadBack};
pub use i2c_address::I2cAddressRegister;
pub use interrupt_config::{INTPinMode, InterruptConfigRegister, InterruptMode};
pub use register_map::{BitFieldDeviceConfiguration, ByteFieldDeviceConfiguration, TMAG5273Register};
pub use sensor_config_1::{MagneticChannel, SensorConfig1Register, SleepTime};
pub use sensor_config_2::{
    Angle, MagGainChannel, MagThresholdDirection, Range, SensorConfig2Register,
    ThresholdCrossingCount,
};
pub use temperature_config::TConfigRegister;

use crate::bus::{is_read, received, I2cBus, Transfer};
use crate::conversion::le_u16;
use crate::types::TMag5273Error;
use crate::protocol::byte_written;
use crate::TMag5273;
use vstd::prelude::*;

verus! {

/// One byte read from the register of `R`, decoded.
pub open spec fn register_read<R: BitFieldDeviceConfiguration>(
    address: u8,
    ops: Seq<Transfer>,
    r: Result<R, TMag5273Error>,
) -> bool {
    &&& ops.len() == 1
    &&& is_read(ops[0], address, R::spec_address(), 1)
    &&& r == match received(ops[0]) {
        Ok(data) => Ok(R::spec_new_with_raw_value(data[0])),
        Err(e) => Err(e),
    }
}

/// The two registers of `R` read at once, decoded from the little-endian
/// 16-bit value.
pub open spec fn dual_register_read<R: ByteFieldDeviceConfiguration>(
    address: u8,
    ops: Seq<Transfer>,
    r: Result<R, TMag5273Error>,
) -> bool {
    &&& ops.len() == 1
    &&& is_read(ops[0], address, R::spec_address(), 2)
    &&& r == match received(ops[0]) {
        Ok(data) => Ok(R::spec_new_with_raw_value(le_u16(data[0], data[1]) as u16)),
        Err(e) => Err(e),
    }
}

impl<I2C: I2cBus> TMag5273<I2C> {
    /// ### Raw Registers
    ///
    /// Generic function to set a register value on the device. The Register must implement the traits
    /// BitFieldDeviceConfiguration, in order to set it on the device.
    pub fn set_config_register<Register>(&mut self, register: Register) -> (r: Result<
        (),
        TMag5273Error,
    >) where Register: BitFieldDeviceConfiguration
        ensures
            final(self).follows(*old(self)),
            byte_written(
                old(self).address(),
                final(self).issued_since(*old(self)),
                Register::spec_address(),
                register.spec_raw_value(),
                r,
            ),
    {
        let register_address = Register::get_address();
        let data = register.raw_value();
        self.write_register(register_address, data)
    }

    /// ### Raw Registers
    ///
    /// Generic function to get a register value from the device. The Register must implement the traits
    /// BitFieldDeviceConfiguration in order to get it from the device.
    pub fn get_config_register<Register>(&mut self) -> (r: Result<Register, TMag5273Error>) where
        Register: BitFieldDeviceConfiguration,
        ensures
            final(self).follows(*old(self)),
            register_read(old(self).address(), final(self).issued_since(*old(self)), r),
    {
        let mut data: [u8; 1] = [0u8; 1];
        let register_address = Register::get_address();
        self.read_register(register_address, &mut data)?;
        Ok(Register::new_with_raw_value(data[0]))
    }

    /// ### Raw Registers
    ///
    /// Generic function to get a register value from the device. The Register must implement the traits
    /// ByteFieldDeviceConfiguration in order to get it from the device.
    pub fn get_dual_config_register<Register>(&mut self) -> (r: Result<Register, TMag5273Error>) where
        Register: ByteFieldDeviceConfiguration,
        ensures
            final(self).follows(*old(self)),
            dual_register_read(old(self).address(), final(self).issued_since(*old(self)), r),
    {
        let mut data: [u8; 2] = [0u8; 2];
        let register_address = Register::get_address();
        self.read_register(register_address, &mut data)?;
        Ok(Register::new_with_raw_value(data[0] as u16 + data[1] as u16 * 256))
    }
}

} // verus!
