//! The three configuration groups, each spread over one or two registers.
use crate::bits::{field, lemma_field_of_zero};
use crate::registers::{
    Angle, BitFieldDeviceConfiguration, ConversionAverage, DeviceConfig1Register,
    DeviceConfig2Register, I2cReadMode, INTPinMode, InterruptConfigRegister, InterruptMode,
    LowPowerLowNoise, MagGainChannel, MagThresholdDirection, MagnetTemperatureCoefficient,
    MagneticChannel, OperatingMode, Range, SensorConfig1Register, SensorConfig2Register,
    SleepTime, TConfigRegister, Threshold, ThresholdCrossingCount, TriggerMode,
};
use crate::bus::{is_read, is_write, lemma_since_compose, received, since, written, I2cBus, Transfer};
use crate::registers::{DeviceConfigRegisters, SensorConfigRegisters};
use crate::types::TMag5273Error;
use crate::TMag5273;
use vstd::prelude::*;

verus! {

#[derive(Clone, Copy, Debug, PartialEq, Eq, Structural)]
pub struct InterruptConfig {
    /// Mask INT pin when INT connected to GND
    pub int_pin_disabled: bool,
    /// Interrupt mode selection
    pub interrupt_mode: InterruptMode,
    /// INT interrupt latched or pulsed
    pub int_pin_mode: INTPinMode,
    /// Enable interrupt response on a predefined threshold cross.
    pub threshold_interrupt_enabled: bool,
    /// Enable interrupt response on conversion complete.
    pub conversion_complete_interrupt_enabled: bool,
}

#[derive(Clone, Copy, Debug, PartialEq, Eq, Structural)]
pub struct DeviceConfig {
    /// I2C read mode
    pub i2c_read_mode: I2cReadMode,
    /// Additional sampling of the sensor data
    pub conv_avg: ConversionAverage,
    /// Temperature coefficient of the magnet
    pub mag_tempo: MagnetTemperatureCoefficient,
    /// Enables I2C CRC byte to be sent
    pub i2c_crc_enabled: bool,
    /// Selects Operating Mode and updates value based on operating
    /// mode if device transitions from Wake-up and sleep mode to Standby
    /// mode.
    pub operating_mode: OperatingMode,
    /// Selects a condition which initiates a single conversion based
    /// off already configured registers. A running conversion completes
    /// before executing a trigger. Redundant triggers are ignored.
    /// TRIGGER_MODE is available only during the mode explicitly
    /// mentioned in OPERATING_MODE.
    pub trigger_mode: TriggerMode,
    /// Selects whether the I2C glitch filter is enabled or disabled.
    pub i2c_glitch_filter_enabled: bool,
    /// Selects between Low Active Current Mode and Low Noise Mode.
    pub power_mode: LowPowerLowNoise,
    /// Select thresholds for the interrupt function
    pub threshold: Threshold,
}

#[derive(Clone, Copy, Debug, PartialEq, Eq, Structural)]
pub struct SensorConfig {
    /// Selects the time spent in low power mode between conversions when operating_mode = ContinuousMeasure
    pub sleep_time: SleepTime,
    /// Enables data acquisition of the magnetic axis channel(s)
    pub mag_channel: MagneticChannel,
    /// Select the Z axis magnetic range from 2 different options
    pub z_range: Range,
    /// Select the XY axis magnetic range from 2 different options
    pub xy_range: Range,
    /// Enables angle calculation, magnetic gain, and offset corrections between two selected magnetic channels
    pub angle: Angle,
    /// Selects the axis for magnitude gain correction value entered in MAG_GAIN_CONFIG register
    pub gain_channel: MagGainChannel,
    /// Enables data acquisition of the temperature channel
    pub temperature_channel_enabled: bool,
    /// Selects the direction of threshold check. This bit is ignored when THR_HYST > 001b
    pub threshold_direction: MagThresholdDirection,
    /// Number of threshold crossings before the interrupt is asserted
    pub threshold_crossing_count: ThresholdCrossingCount,
}

impl Default for InterruptConfig {
    fn default() -> (r: Self)
        ensures
            r == InterruptConfig::spec_default(),
    {
        InterruptConfig {
            int_pin_disabled: false,
            interrupt_mode: InterruptMode::Off,
            int_pin_mode: INTPinMode::Latched,
            threshold_interrupt_enabled: false,
            conversion_complete_interrupt_enabled: false,
        }
    }
}

impl Default for DeviceConfig {
    fn default() -> (r: Self)
        ensures
            r == DeviceConfig::spec_default(),
    {
        DeviceConfig {
            i2c_read_mode: I2cReadMode::Standard3Byte,
            conv_avg: ConversionAverage::X1,
            mag_tempo: MagnetTemperatureCoefficient::ZeroCompensation,
            i2c_crc_enabled: false,
            operating_mode: OperatingMode::StandBy,
            trigger_mode: TriggerMode::Default,
            i2c_glitch_filter_enabled: false,
            power_mode: LowPowerLowNoise::LowActiveCurrentMode,
            threshold: Threshold::TwosComplement,
        }
    }
}

impl Default for SensorConfig {
    fn default() -> (r: Self)
        ensures
            r == SensorConfig::spec_default(),
    {
        SensorConfig {
            sleep_time: SleepTime::Ms1,
            mag_channel: MagneticChannel::Default,
            z_range: Range::Low,
            xy_range: Range::Low,
            angle: Angle::Disabled,
            gain_channel: MagGainChannel::First,
            temperature_channel_enabled: false,
            threshold_direction: MagThresholdDirection::Above,
            threshold_crossing_count: ThresholdCrossingCount::One,
        }
    }
}

impl InterruptConfig {
    pub open spec fn spec_default() -> InterruptConfig {
        InterruptConfig {
            int_pin_disabled: false,
            interrupt_mode: InterruptMode::Off,
            int_pin_mode: INTPinMode::Latched,
            threshold_interrupt_enabled: false,
            conversion_complete_interrupt_enabled: false,
        }
    }

    /// The configuration that the register holds, or `MalformedRegister` where
    /// its interrupt mode is a reserved encoding.
    pub open spec fn spec_from_register(register: InterruptConfigRegister) -> Result<
        InterruptConfig,
        TMag5273Error,
    > {
        match register.spec_interrupt_mode() {
            Err(_) => Err(TMag5273Error::MalformedRegister),
            Ok(interrupt_mode) => Ok(
                InterruptConfig {
                    int_pin_disabled: register.spec_int_pin_disabled(),
                    interrupt_mode,
                    int_pin_mode: register.spec_int_pin_mode(),
                    threshold_interrupt_enabled: register.spec_threshold_interrupt_enabled(),
                    conversion_complete_interrupt_enabled:
                        register.spec_conversion_complete_interrupt_enabled(),
                },
            ),
        }
    }

    /// `register` holds this configuration and its reserved bit is clear.
    pub open spec fn encoded_by(self, register: InterruptConfigRegister) -> bool {
        &&& InterruptConfig::spec_from_register(register) == Ok::<
            InterruptConfig,
            TMag5273Error,
        >(self)
        &&& field(register.bits(), 1, 1) == 0
    }

    pub fn from_register(register: InterruptConfigRegister) -> (r: Result<Self, TMag5273Error>)
        ensures
            r == InterruptConfig::spec_from_register(register),
    {
        let interrupt_mode = match register.interrupt_mode() {
            Ok(mode) => mode,
            Err(_) => return Err(TMag5273Error::MalformedRegister),
        };
        Ok(
            InterruptConfig {
                int_pin_disabled: register.int_pin_disabled(),
                interrupt_mode,
                int_pin_mode: register.int_pin_mode(),
                threshold_interrupt_enabled: register.threshold_interrupt_enabled(),
                conversion_complete_interrupt_enabled:
                    register.conversion_complete_interrupt_enabled(),
            },
        )
    }

    /// The register value that holds this configuration.
    pub fn to_register(&self) -> (r: InterruptConfigRegister)
        ensures
            self.encoded_by(r),
    {
        proof {
            lemma_field_of_zero(1, 1);
        }
        InterruptConfigRegister::builder()
            .with_int_pin_disabled(self.int_pin_disabled)
            .with_interrupt_mode(self.interrupt_mode)
            .with_int_pin_mode(self.int_pin_mode)
            .with_threshold_interrupt_enabled(self.threshold_interrupt_enabled)
            .with_conversion_complete_interrupt_enabled(
                self.conversion_complete_interrupt_enabled,
            )
            .build()
    }
}

impl DeviceConfig {
    pub open spec fn spec_default() -> DeviceConfig {
        DeviceConfig {
            i2c_read_mode: I2cReadMode::Standard3Byte,
            conv_avg: ConversionAverage::X1,
            mag_tempo: MagnetTemperatureCoefficient::ZeroCompensation,
            i2c_crc_enabled: false,
            operating_mode: OperatingMode::StandBy,
            trigger_mode: TriggerMode::Default,
            i2c_glitch_filter_enabled: false,
            power_mode: LowPowerLowNoise::LowActiveCurrentMode,
            threshold: Threshold::TwosComplement,
        }
    }

    /// The configuration that the two registers hold, or `MalformedRegister`
    /// where the averaging or the threshold mode is a reserved encoding.
    pub open spec fn spec_from_registers(
        config1: DeviceConfig1Register,
        config2: DeviceConfig2Register,
    ) -> Result<DeviceConfig, TMag5273Error> {
        match (config1.spec_conv_avg(), config2.spec_threshold()) {
            (Ok(conv_avg), Ok(threshold)) => Ok(
                DeviceConfig {
                    i2c_read_mode: config1.spec_i2c_read_mode(),
                    conv_avg,
                    mag_tempo: config1.spec_mag_tempo(),
                    i2c_crc_enabled: config1.spec_i2c_crc_enabled(),
                    operating_mode: config2.spec_operating_mode(),
                    trigger_mode: config2.spec_trigger_mode(),
                    i2c_glitch_filter_enabled: config2.spec_i2c_glitch_filter_enabled(),
                    power_mode: config2.spec_power_mode(),
                    threshold,
                },
            ),
            _ => Err(TMag5273Error::MalformedRegister),
        }
    }

    /// The two registers hold this configuration.
    pub open spec fn encoded_by(
        self,
        config1: DeviceConfig1Register,
        config2: DeviceConfig2Register,
    ) -> bool {
        DeviceConfig::spec_from_registers(config1, config2) == Ok::<
            DeviceConfig,
            TMag5273Error,
        >(self)
    }

    pub fn from_registers(config1: DeviceConfig1Register, config2: DeviceConfig2Register) -> (r:
        Result<Self, TMag5273Error>)
        ensures
            r == DeviceConfig::spec_from_registers(config1, config2),
    {
        let conv_avg = match config1.conv_avg() {
            Ok(conv_avg) => conv_avg,
            Err(_) => return Err(TMag5273Error::MalformedRegister),
        };
        let threshold = match config2.threshold() {
            Ok(threshold) => threshold,
            Err(_) => return Err(TMag5273Error::MalformedRegister),
        };
        Ok(
            DeviceConfig {
                i2c_read_mode: config1.i2c_read_mode(),
                conv_avg,
                mag_tempo: config1.mag_tempo(),
                i2c_crc_enabled: config1.i2c_crc_enabled(),
                operating_mode: config2.operating_mode(),
                trigger_mode: config2.trigger_mode(),
                i2c_glitch_filter_enabled: config2.i2c_glitch_filter_enabled(),
                power_mode: config2.power_mode(),
                threshold,
            },
        )
    }

    /// The two register values that hold this configuration.
    pub fn to_registers(&self) -> (r: (DeviceConfig1Register, DeviceConfig2Register))
        ensures
            self.encoded_by(r.0, r.1),
    {
        let config1 = DeviceConfig1Register::builder()
            .with_i2c_read_mode(self.i2c_read_mode)
            .with_conv_avg(self.conv_avg)
            .with_mag_tempo(self.mag_tempo)
            .with_i2c_crc_enabled(self.i2c_crc_enabled)
            .build();
        let config2 = DeviceConfig2Register::builder()
            .with_operating_mode(self.operating_mode)
            .with_trigger_mode(self.trigger_mode)
            .with_i2c_glitch_filter_enabled(self.i2c_glitch_filter_enabled)
            .with_power_mode(self.power_mode)
            .with_threshold(self.threshold)
            .build();
        (config1, config2)
    }
}

impl SensorConfig {
    pub open spec fn spec_default() -> SensorConfig {
        SensorConfig {
            sleep_time: SleepTime::Ms1,
            mag_channel: MagneticChannel::Default,
            z_range: Range::Low,
            xy_range: Range::Low,
            angle: Angle::Disabled,
            gain_channel: MagGainChannel::First,
            temperature_channel_enabled: false,
            threshold_direction: MagThresholdDirection::Above,
            threshold_crossing_count: ThresholdCrossingCount::One,
        }
    }

    /// The configuration that the three registers hold, or
    /// `MalformedRegister` where the sleep time is a reserved encoding.
    pub open spec fn spec_from_registers(
        config1: SensorConfig1Register,
        config2: SensorConfig2Register,
        t_config: TConfigRegister,
    ) -> Result<SensorConfig, TMag5273Error> {
        match config1.spec_sleep_time() {
            Err(_) => Err(TMag5273Error::MalformedRegister),
            Ok(sleep_time) => Ok(
                SensorConfig {
                    sleep_time,
                    mag_channel: config1.spec_mag_channel(),
                    z_range: config2.spec_z_range(),
                    xy_range: config2.spec_xy_range(),
                    angle: config2.spec_angle(),
                    gain_channel: config2.spec_gain_channel(),
                    temperature_channel_enabled: t_config.spec_temperature_channel_enabled(),
                    threshold_direction: config2.spec_threshold_direction(),
                    threshold_crossing_count: config2.spec_threshold_crossing_count(),
                },
            ),
        }
    }

    /// The two sensor registers hold this configuration, but for the
    /// temperature channel, which stands in the temperature register, and the
    /// reserved bit of the second register is clear.
    pub open spec fn encoded_by(self, config1: SensorConfig1Register, config2: SensorConfig2Register) -> bool {
        &&& config1.spec_sleep_time() == Ok::<SleepTime, u8>(self.sleep_time)
        &&& config1.spec_mag_channel() == self.mag_channel
        &&& config2.spec_z_range() == self.z_range
        &&& config2.spec_xy_range() == self.xy_range
        &&& config2.spec_angle() == self.angle
        &&& config2.spec_gain_channel() == self.gain_channel
        &&& config2.spec_threshold_direction() == self.threshold_direction
        &&& config2.spec_threshold_crossing_count() == self.threshold_crossing_count
        &&& field(config2.bits(), 7, 1) == 0
    }

    pub fn from_registers(
        config1: SensorConfig1Register,
        config2: SensorConfig2Register,
        t_config: TConfigRegister,
    ) -> (r: Result<Self, TMag5273Error>)
        ensures
            r == SensorConfig::spec_from_registers(config1, config2, t_config),
    {
        let sleep_time = match config1.sleep_time() {
            Ok(sleep_time) => sleep_time,
            Err(_) => return Err(TMag5273Error::MalformedRegister),
        };
        Ok(
            SensorConfig {
                sleep_time,
                mag_channel: config1.mag_channel(),
                z_range: config2.z_range(),
                xy_range: config2.xy_range(),
                angle: config2.angle(),
                gain_channel: config2.gain_channel(),
                temperature_channel_enabled: t_config.temperature_channel_enabled(),
                threshold_direction: config2.threshold_direction(),
                threshold_crossing_count: config2.threshold_crossing_count(),
            },
        )
    }

    /// The two sensor register values that hold this configuration.
    pub fn to_registers(&self) -> (r: (SensorConfig1Register, SensorConfig2Register))
        ensures
            self.encoded_by(r.0, r.1),
    {
        proof {
            lemma_field_of_zero(7, 1);
        }
        let config1 = SensorConfig1Register::builder()
            .with_sleep_time(self.sleep_time)
            .with_mag_channel(self.mag_channel)
            .build();
        let config2 = SensorConfig2Register::builder()
            .with_z_range(self.z_range)
            .with_xy_range(self.xy_range)
            .with_angle(self.angle)
            .with_gain_channel(self.gain_channel)
            .with_threshold_direction(self.threshold_direction)
            .with_threshold_crossing_count(self.threshold_crossing_count)
            .build();
        (config1, config2)
    }
}

/// Two registers written one after the other; a failing first write ends it.
pub open spec fn two_writes(
    address: u8,
    ops: Seq<Transfer>,
    first: crate::registers::TMAG5273Register,
    first_value: u8,
    second: crate::registers::TMAG5273Register,
    second_value: u8,
    r: Result<(), TMag5273Error>,
) -> bool {
    &&& ops.len() >= 1
    &&& is_write(ops[0], address, first, first_value)
    &&& match written(ops[0]) {
        Err(e) => ops.len() == 1 && r == Err::<(), TMag5273Error>(e),
        Ok(_) => {
            &&& ops.len() == 2
            &&& is_write(ops[1], address, second, second_value)
            &&& r == written(ops[1])
        },
    }
}

/// Reading the interrupt configuration: its one register.
pub open spec fn interrupt_config_protocol(address: u8, ops: Seq<Transfer>, r: Result<
    InterruptConfig,
    TMag5273Error,
>) -> bool {
    &&& ops.len() == 1
    &&& is_read(ops[0], address, crate::registers::TMAG5273Register::IntConfig1, 1)
    &&& r == match received(ops[0]) {
        Ok(data) => InterruptConfig::spec_from_register(
            InterruptConfigRegister::spec_new_with_raw_value(data[0]),
        ),
        Err(e) => Err(e),
    }
}

/// Reading the device configuration: both registers in one read.
pub open spec fn device_config_protocol(address: u8, ops: Seq<Transfer>, r: Result<
    DeviceConfig,
    TMag5273Error,
>) -> bool {
    &&& ops.len() == 1
    &&& is_read(ops[0], address, crate::registers::TMAG5273Register::DeviceConfig1, 2)
    &&& r == match received(ops[0]) {
        Ok(data) => DeviceConfig::spec_from_registers(
            DeviceConfig1Register::spec_new_with_raw_value(data[0]),
            DeviceConfig2Register::spec_new_with_raw_value(data[1]),
        ),
        Err(e) => Err(e),
    }
}

/// Reading the sensor configuration: both sensor registers in one read, then
/// the temperature register.
pub open spec fn sensor_config_protocol(address: u8, ops: Seq<Transfer>, r: Result<
    SensorConfig,
    TMag5273Error,
>) -> bool {
    &&& ops.len() >= 1
    &&& is_read(ops[0], address, crate::registers::TMAG5273Register::SensorConfig1, 2)
    &&& match received(ops[0]) {
        Err(e) => ops.len() == 1 && r == Err::<SensorConfig, TMag5273Error>(e),
        Ok(config) => {
            &&& ops.len() == 2
            &&& is_read(ops[1], address, crate::registers::TMAG5273Register::TConfig, 1)
            &&& r == match received(ops[1]) {
                Ok(t_config) => SensorConfig::spec_from_registers(
                    SensorConfig1Register::spec_new_with_raw_value(config[0]),
                    SensorConfig2Register::spec_new_with_raw_value(config[1]),
                    TConfigRegister::spec_new_with_raw_value(t_config[0]),
                ),
                Err(e) => Err(e),
            }
        },
    }
}

impl<I2C: I2cBus> TMag5273<I2C> {
    /// Set the interrupt configuration: one write of its register.
    pub fn set_interrupts(&mut self, config: InterruptConfig) -> (r: Result<(), TMag5273Error>)
        ensures
            final(self).follows(*old(self)),
            exists|register: InterruptConfigRegister|
                {
                    &&& config.encoded_by(register)
                    &&& crate::protocol::byte_written(
                        old(self).address(),
                        final(self).issued_since(*old(self)),
                        crate::registers::TMAG5273Register::IntConfig1,
                        register.bits(),
                        r,
                    )
                },
    {
        let register = config.to_register();
        let result = self.set_config_register(register);
        proof {
            assert(config.encoded_by(register));
        }
        result
    }

    /// Set the device configuration: the first register, then the second.
    pub fn set_device_config(&mut self, config: DeviceConfig) -> (r: Result<(), TMag5273Error>)
        ensures
            final(self).follows(*old(self)),
            exists|config1: DeviceConfig1Register, config2: DeviceConfig2Register|
                {
                    &&& config.encoded_by(config1, config2)
                    &&& two_writes(
                        old(self).address(),
                        final(self).issued_since(*old(self)),
                        crate::registers::TMAG5273Register::DeviceConfig1,
                        config1.bits(),
                        crate::registers::TMAG5273Register::DeviceConfig2,
                        config2.bits(),
                        r,
                    )
                },
    {
        let ghost before = self.transcript();
        let (config1, config2) = config.to_registers();
        let first = self.set_config_register(config1);
        if first.is_err() {
            proof {
                assert(config.encoded_by(config1, config2));
            }
            return first;
        }
        let ghost middle = self.transcript();
        let result = self.set_config_register(config2);
        proof {
            lemma_since_compose(before, middle, self.transcript());
            assert(config.encoded_by(config1, config2));
        }
        result
    }

    /// Set the sensor configuration: the first sensor register, then the
    /// second. The temperature channel setting is not written.
    pub fn set_sensor_config(&mut self, config: SensorConfig) -> (r: Result<(), TMag5273Error>)
        ensures
            final(self).follows(*old(self)),
            exists|config1: SensorConfig1Register, config2: SensorConfig2Register|
                {
                    &&& config.encoded_by(config1, config2)
                    &&& two_writes(
                        old(self).address(),
                        final(self).issued_since(*old(self)),
                        crate::registers::TMAG5273Register::SensorConfig1,
                        config1.bits(),
                        crate::registers::TMAG5273Register::SensorConfig2,
                        config2.bits(),
                        r,
                    )
                },
    {
        let ghost before = self.transcript();
        let (config1, config2) = config.to_registers();
        let first = self.set_config_register(config1);
        if first.is_err() {
            proof {
                assert(config.encoded_by(config1, config2));
            }
            return first;
        }
        let ghost middle = self.transcript();
        let result = self.set_config_register(config2);
        proof {
            lemma_since_compose(before, middle, self.transcript());
            assert(config.encoded_by(config1, config2));
        }
        result
    }

    /// Get the sensor configuration.
    pub fn get_sensor_config(&mut self) -> (r: Result<SensorConfig, TMag5273Error>)
        ensures
            final(self).follows(*old(self)),
            sensor_config_protocol(old(self).address(), final(self).issued_since(*old(self)), r),
    {
        let ghost before = self.transcript();
        let config = self.get_dual_config_register::<SensorConfigRegisters>()?;
        let ghost middle = self.transcript();
        let t_config = self.get_config_register::<TConfigRegister>();
        proof {
            lemma_since_compose(before, middle, self.transcript());
            let data = received(since(middle, before)[0])->Ok_0;
            <SensorConfigRegisters as crate::registers::ByteFieldDeviceConfiguration>::lemma_encode_decode(
                (data[1] * 256 + data[0]) as u16,
            );
        }
        let t_config = t_config?;
        SensorConfig::from_registers(config.sensor_config1(), config.sensor_config2(), t_config)
    }

    /// Get the device configuration.
    pub fn get_device_config(&mut self) -> (r: Result<DeviceConfig, TMag5273Error>)
        ensures
            final(self).follows(*old(self)),
            device_config_protocol(old(self).address(), final(self).issued_since(*old(self)), r),
    {
        let ghost before = self.transcript();
        let config = self.get_dual_config_register::<DeviceConfigRegisters>()?;
        proof {
            let data = received(since(self.transcript(), before)[0])->Ok_0;
            <DeviceConfigRegisters as crate::registers::ByteFieldDeviceConfiguration>::lemma_encode_decode(
                (data[1] * 256 + data[0]) as u16,
            );
        }
        DeviceConfig::from_registers(config.device_config1(), config.device_config2())
    }

    /// Get the interrupt configuration.
    pub fn get_interrupt_config(&mut self) -> (r: Result<InterruptConfig, TMag5273Error>)
        ensures
            final(self).follows(*old(self)),
            interrupt_config_protocol(old(self).address(), final(self).issued_since(*old(self)), r),
    {
        let config = self.get_config_register::<InterruptConfigRegister>()?;
        InterruptConfig::from_register(config)
    }
}

} // verus!
