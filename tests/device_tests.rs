//! Driver tests against a simulated device: a register file that answers on
//! its bus address the way the sensor does after a cold boot.
use embedded_hal::i2c::{ErrorKind, NoAcknowledgeSource};
use std::cell::RefCell;
use tmag5273::bus::I2cBus;
use tmag5273::registers::{
    Angle, BitFieldDeviceConfiguration, ConversionAverage, ConversionStatusRegister, DeviceConfig1Register,
    DeviceConfig2Register, DeviceId, DeviceStatusRegister, I2cAddressRegister, I2cReadMode,
    INTPinMode, InterruptConfigRegister, InterruptMode, LowPowerLowNoise, MagGainChannel,
    MagThresholdDirection, MagnetTemperatureCoefficient, MagneticChannel, OperatingMode, Range,
    SensorConfig1Register, SensorConfig2Register, SleepTime, TConfigRegister, Threshold,
    ThresholdCrossingCount, TriggerMode,
};
use tmag5273::types::{Axis, DeviceVersion, Fraction, MagneticChannelOffset, TMag5273Error};
use tmag5273::{DeviceConfig, InterruptConfig, SensorConfig, TMag5273, MANUFACTURER_ID_VALUE};

const SENSOR_PART: DeviceVersion = DeviceVersion::TMAG5273B1;

/// A TMAG5273 as a register file.
struct SimulatedDevice {
    factory_address: u8,
    address: u8,
    registers: [u8; 29],
    writes: usize,
    refuse_writes_to: Option<usize>,
}

impl SimulatedDevice {
    fn cold_boot(version: DeviceVersion) -> SimulatedDevice {
        let mut registers = [0u8; 29];
        let address = version.get_default_address();
        registers[0x0C] = address << 1;
        registers[0x0D] = match version.get_device_id() {
            DeviceId::TMAG5273X1 => 0x01,
            DeviceId::TMAG5273X2 => 0x02,
        };
        registers[0x0E] = 0x49;
        registers[0x0F] = 0x54;
        registers[0x18] = 0x10;
        registers[0x1C] = 0x10;
        SimulatedDevice { factory_address: address, address, registers, writes: 0, refuse_writes_to: None }
    }

    fn with_results(mut self, results: [u8; 8]) -> SimulatedDevice {
        self.registers[0x10..0x18].copy_from_slice(&results);
        self
    }

    fn ack(&self, address: u8) -> Result<(), ErrorKind> {
        if address == self.address {
            Ok(())
        } else {
            Err(ErrorKind::NoAcknowledge(NoAcknowledgeSource::Address))
        }
    }
}

impl I2cBus for SimulatedDevice {
    fn write(&mut self, address: u8, bytes: &[u8]) -> Result<(), ErrorKind> {
        self.ack(address)?;
        self.writes += 1;
        let start = bytes[0] as usize;
        for (offset, value) in bytes[1..].iter().enumerate() {
            let register = start + offset;
            if self.refuse_writes_to == Some(register) {
                return Err(ErrorKind::NoAcknowledge(NoAcknowledgeSource::Data));
            }
            match register {
                0x00..=0x0B => self.registers[register] = *value,
                0x0C => {
                    self.registers[register] = *value;
                    self.address = if value & 1 == 1 {
                        value >> 1
                    } else {
                        self.factory_address
                    };
                }
                _ => return Err(ErrorKind::NoAcknowledge(NoAcknowledgeSource::Data)),
            }
        }
        Ok(())
    }

    fn write_read(&mut self, address: u8, bytes: &[u8], buffer: &mut [u8]) -> Result<(), ErrorKind> {
        self.ack(address)?;
        let start = bytes[0] as usize;
        for (offset, slot) in buffer.iter_mut().enumerate() {
            *slot = self.registers[(start + offset) % 29];
        }
        Ok(())
    }
}

/// Several sessions on one bus.
struct SharedBus<'a>(&'a RefCell<SimulatedDevice>);

impl I2cBus for SharedBus<'_> {
    fn write(&mut self, address: u8, bytes: &[u8]) -> Result<(), ErrorKind> {
        self.0.borrow_mut().write(address, bytes)
    }

    fn write_read(&mut self, address: u8, bytes: &[u8], buffer: &mut [u8]) -> Result<(), ErrorKind> {
        self.0.borrow_mut().write_read(address, bytes, buffer)
    }
}

/// A bus with nothing on it.
struct EmptyBus;

impl I2cBus for EmptyBus {
    fn write(&mut self, _address: u8, _bytes: &[u8]) -> Result<(), ErrorKind> {
        Err(ErrorKind::NoAcknowledge(NoAcknowledgeSource::Address))
    }

    fn write_read(&mut self, _address: u8, _bytes: &[u8], _buffer: &mut [u8]) -> Result<(), ErrorKind> {
        Err(ErrorKind::NoAcknowledge(NoAcknowledgeSource::Address))
    }
}

fn setup_i2c() -> SimulatedDevice {
    SimulatedDevice::cold_boot(SENSOR_PART)
}

fn value(f: Fraction) -> f32 {
    f.numerator as f32 / f.denominator as f32
}

// ---- cold start ----

fn generic_test_device_id<I2C: I2cBus>(i2c: I2C) {
    let mut mag_sensor = TMag5273::new(i2c, SENSOR_PART).unwrap();
    let device_id = mag_sensor.get_device_id().expect("Failed to get device id");
    assert_eq!(device_id, DeviceId::TMAG5273X1);
}

fn generic_test_manufacturer_id<I2C: I2cBus>(i2c: I2C) {
    let mut mag_sensor = TMag5273::new(i2c, SENSOR_PART).unwrap();
    let manufacturer_id = mag_sensor
        .get_manufacturer_id()
        .expect("Failed to get manufacturer id");
    assert_eq!(manufacturer_id, MANUFACTURER_ID_VALUE);
}

fn generic_test_registers<I2C: I2cBus>(i2c: I2C) {
    let mut mag_sensor = TMag5273::new(i2c, SENSOR_PART).unwrap();
    let r: ConversionStatusRegister = mag_sensor.get_config_register().expect("Failed to get device status");
    assert_eq!(r, ConversionStatusRegister::default());
    let r: DeviceConfig1Register = mag_sensor.get_config_register().expect("Failed to get device status");
    assert_eq!(r, DeviceConfig1Register::default());
    let r: DeviceConfig2Register = mag_sensor.get_config_register().expect("Failed to get device status");
    assert_eq!(r, DeviceConfig2Register::default());
    let r: DeviceStatusRegister = mag_sensor.get_config_register().expect("Failed to get device status");
    assert_eq!(r, DeviceStatusRegister::default());
    let r: InterruptConfigRegister = mag_sensor.get_config_register().expect("Failed to get device status");
    assert_eq!(r, InterruptConfigRegister::default());
    let r: SensorConfig1Register = mag_sensor.get_config_register().expect("Failed to get device status");
    assert_eq!(r, SensorConfig1Register::default());
    let r: SensorConfig2Register = mag_sensor.get_config_register().expect("Failed to get device status");
    assert_eq!(r, SensorConfig2Register::default());
    let r: TConfigRegister = mag_sensor.get_config_register().expect("Failed to get device status");
    assert_eq!(r, TConfigRegister::default());
}

fn generic_test_default_i2c_address<I2C: I2cBus>(i2c: I2C) {
    let mut mag_sensor = TMag5273::new(i2c, SENSOR_PART).unwrap();
    let i2c_register: I2cAddressRegister = mag_sensor
        .get_config_register()
        .expect("Failed to read I2C address register");
    let i2c_address = i2c_register.raw_value();
    // The register holds the 7-bit address above the update bit.
    assert_eq!(i2c_address >> 1, SENSOR_PART.get_default_address());
}

fn generic_test_get_magnitude_first_boot<I2C: I2cBus>(i2c: I2C) {
    let mut mag_sensor = TMag5273::new(i2c, SENSOR_PART).unwrap();
    let magnitude = mag_sensor.get_magnitude().expect("Failed to get magnitude");
    assert_eq!(magnitude, 0);
}

fn generic_test_get_xyz_thresholds_first_boot<I2C: I2cBus>(i2c: I2C) {
    let mut mag_sensor = TMag5273::new(i2c, SENSOR_PART).unwrap();
    let x_threshold = mag_sensor
        .get_mag_threshold(Axis::X)
        .expect("Failed to get x threshold");
    assert_eq!(value(x_threshold), 0.0);
    let y_threshold = mag_sensor
        .get_mag_threshold(Axis::Y)
        .expect("Failed to get y threshold");
    assert_eq!(value(y_threshold), 0.0);
    let z_threshold = mag_sensor
        .get_mag_threshold(Axis::Z)
        .expect("Failed to get x threshold");
    assert_eq!(value(z_threshold), 0.0);
}

fn generic_test_magnetic_gain<I2C: I2cBus>(i2c: I2C) {
    let mut mag_sensor = TMag5273::new(i2c, SENSOR_PART).unwrap();
    let gain = mag_sensor
        .get_magnetic_gain()
        .expect("Failed to get magnetic gain");
    assert_eq!(gain, 0);
}

fn generic_test_magnetic_offset_invalid_at_boot<I2C: I2cBus>(i2c: I2C) {
    let mut mag_sensor = TMag5273::new(i2c, SENSOR_PART).unwrap();
    assert_eq!(
        Err(TMag5273Error::WrongMode),
        mag_sensor.get_magnetic_offset(MagneticChannelOffset::FirstAxis),
        "You should not be able to get magnetic offset on first boot!"
    );
    assert_eq!(
        Err(TMag5273Error::WrongMode),
        mag_sensor.get_magnetic_offset(MagneticChannelOffset::SecondAxis),
        "You should not be able to get magnetic offset on first boot!"
    );
}

fn generic_test_temperature_invalid_at_boot<I2C: I2cBus>(i2c: I2C) {
    let mut mag_sensor = TMag5273::new(i2c, SENSOR_PART).unwrap();
    assert_eq!(
        Err(TMag5273Error::ChannelDisabled),
        mag_sensor.get_temperature(),
        "You should not be able to get temperature on first boot!"
    );
}

fn generic_get_axis_data(i2c: &RefCell<SimulatedDevice>, axis: Axis) {
    let mut mag_sensor = TMag5273::new(SharedBus(i2c), SENSOR_PART).unwrap();
    assert_eq!(
        Err(TMag5273Error::WrongMode),
        mag_sensor.get_mag_data(axis),
        "You should not be able to get axis data on first boot!"
    );
}

fn generic_test_get_data_methods(i2c: SimulatedDevice) {
    let i2c = RefCell::new(i2c);
    generic_get_axis_data(&i2c, Axis::X);
    generic_get_axis_data(&i2c, Axis::Y);
    generic_get_axis_data(&i2c, Axis::Z);
}

fn generic_test_get_angle<I2C: I2cBus>(i2c: I2C) {
    let mut mag_sensor = TMag5273::new(i2c, SENSOR_PART).unwrap();
    assert_eq!(
        Err(TMag5273Error::ChannelDisabled),
        mag_sensor.get_angle(),
        "You should not be able to get angle on first boot!"
    );
}

#[test]
fn always_passes() {
    assert!(true);
}

#[test]
fn cold_start_tests_test_device_id() {
    generic_test_device_id(setup_i2c());
}

#[test]
fn cold_start_tests_test_manufacturer_id() {
    generic_test_manufacturer_id(setup_i2c());
}

#[test]
fn cold_start_tests_test_registers() {
    generic_test_registers(setup_i2c());
}

#[test]
fn cold_start_tests_test_default_i2c_address() {
    generic_test_default_i2c_address(setup_i2c());
}

#[test]
fn cold_start_tests_test_get_magnitude_first_boot() {
    generic_test_get_magnitude_first_boot(setup_i2c());
}

#[test]
fn cold_start_tests_test_get_xyz_thresholds_first_boot() {
    generic_test_get_xyz_thresholds_first_boot(setup_i2c());
}

#[test]
fn cold_start_tests_test_magnetic_gain() {
    generic_test_magnetic_gain(setup_i2c());
}

#[test]
fn cold_start_tests_test_magnetic_offset_invalid_at_boot() {
    generic_test_magnetic_offset_invalid_at_boot(setup_i2c());
}

#[test]
fn cold_start_tests_test_temperature_invalid_at_boot() {
    generic_test_temperature_invalid_at_boot(setup_i2c());
}

#[test]
fn cold_start_tests_test_get_data_methods() {
    generic_test_get_data_methods(setup_i2c());
}

#[test]
fn cold_start_tests_test_get_angle() {
    generic_test_get_angle(setup_i2c());
}

#[test]
fn cold_start_tests_0_test_device_id() {
    generic_test_device_id(setup_i2c());
}

#[test]
fn cold_start_tests_0_test_manufacturer_id() {
    generic_test_manufacturer_id(setup_i2c());
}

#[test]
fn cold_start_tests_0_test_registers() {
    generic_test_registers(setup_i2c());
}

#[test]
fn cold_start_tests_0_test_default_i2c_address() {
    generic_test_default_i2c_address(setup_i2c());
}

#[test]
fn cold_start_tests_0_test_get_magnitude_first_boot() {
    generic_test_get_magnitude_first_boot(setup_i2c());
}

#[test]
fn cold_start_tests_1_test_get_xyz_thresholds_first_boot() {
    generic_test_get_xyz_thresholds_first_boot(setup_i2c());
}

#[test]
fn cold_start_tests_1_test_magnetic_gain() {
    generic_test_magnetic_gain(setup_i2c());
}

#[test]
fn cold_start_tests_1_test_magnetic_offset_invalid_at_boot() {
    generic_test_magnetic_offset_invalid_at_boot(setup_i2c());
}

#[test]
fn cold_start_tests_1_test_temperature_invalid_at_boot() {
    generic_test_temperature_invalid_at_boot(setup_i2c());
}

#[test]
fn cold_start_tests_2_test_get_data_methods() {
    generic_test_get_data_methods(setup_i2c());
}

#[test]
fn cold_start_tests_2_test_get_angle() {
    generic_test_get_angle(setup_i2c());
}

// ---- setting registers ----

fn generic_test_is_connected<I2C: I2cBus>(i2c: I2C) {
    let mut mag_sensor = TMag5273::new(i2c, SENSOR_PART).unwrap();
    let is_connected = mag_sensor.is_connected();
    assert!(is_connected);
}

fn generic_test_create_tmag5273<I2C: I2cBus>(i2c: I2C) {
    let mag_sensor = TMag5273::new(i2c, SENSOR_PART);
    assert!(mag_sensor.is_ok());
}

fn generic_test_set_reset_device_config_1_register<I2C: I2cBus>(i2c: I2C) {
    let mut mag_sensor =
        TMag5273::new(i2c, SENSOR_PART).expect("Failed to create mag sensor instance");
    reset_device_config_1(&mut mag_sensor);
    let new_device_config_1 = DeviceConfig1Register::builder()
        .with_i2c_read_mode(I2cReadMode::Standard3Byte)
        .with_conv_avg(ConversionAverage::X4)
        .with_mag_tempo(MagnetTemperatureCoefficient::Zero2Compensation)
        .with_i2c_crc_enabled(false)
        .build();
    mag_sensor
        .set_config_register(new_device_config_1)
        .expect("Failed to set Device Config Register 1");
    let applied_device_config_1: DeviceConfig1Register = mag_sensor
        .get_config_register()
        .expect("Failed to get Device Config Register 1");
    assert_eq!(applied_device_config_1, new_device_config_1);
    reset_device_config_1(&mut mag_sensor);
}

fn reset_device_config_1<I2C: I2cBus>(sensor: &mut TMag5273<I2C>) {
    sensor
        .set_config_register(DeviceConfig1Register::default())
        .expect("Failed to set register to default settings");
    let read: DeviceConfig1Register = sensor.get_config_register().expect("Failed to read register");
    assert_eq!(read, DeviceConfig1Register::default());
}

fn reset_device_config_2<I2C: I2cBus>(sensor: &mut TMag5273<I2C>) {
    sensor
        .set_config_register(DeviceConfig2Register::default())
        .expect("Failed to set register to default settings");
    let read: DeviceConfig2Register = sensor.get_config_register().expect("Failed to read register");
    assert_eq!(read, DeviceConfig2Register::default());
}

fn reset_int_config<I2C: I2cBus>(sensor: &mut TMag5273<I2C>) {
    sensor
        .set_config_register(InterruptConfigRegister::default())
        .expect("Failed to set register to default settings");
    let read: InterruptConfigRegister = sensor.get_config_register().expect("Failed to read register");
    assert_eq!(read, InterruptConfigRegister::default());
}

fn reset_sensor_config_1<I2C: I2cBus>(sensor: &mut TMag5273<I2C>) {
    sensor
        .set_config_register(SensorConfig1Register::default())
        .expect("Failed to set register to default settings");
    let read: SensorConfig1Register = sensor.get_config_register().expect("Failed to read register");
    assert_eq!(read, SensorConfig1Register::default());
}

fn reset_sensor_config_2<I2C: I2cBus>(sensor: &mut TMag5273<I2C>) {
    sensor
        .set_config_register(SensorConfig2Register::default())
        .expect("Failed to set register to default settings");
    let read: SensorConfig2Register = sensor.get_config_register().expect("Failed to read register");
    assert_eq!(read, SensorConfig2Register::default());
}

fn reset_t_config<I2C: I2cBus>(sensor: &mut TMag5273<I2C>) {
    sensor
        .set_config_register(TConfigRegister::default())
        .expect("Failed to set register to default settings");
    let read: TConfigRegister = sensor.get_config_register().expect("Failed to read register");
    assert_eq!(read, TConfigRegister::default());
}

fn generic_test_reset_device_config_2_register<I2C: I2cBus>(i2c: I2C) {
    let mut mag_sensor =
        TMag5273::new(i2c, SENSOR_PART).expect("Failed to create mag sensor instance");
    reset_device_config_2(&mut mag_sensor);
    let new_device_config_2 = DeviceConfig2Register::builder()
        .with_operating_mode(OperatingMode::ContinuousMeasure)
        .with_trigger_mode(TriggerMode::Int)
        .with_i2c_glitch_filter_enabled(false)
        .with_power_mode(LowPowerLowNoise::LowNoiseMode)
        .with_threshold(Threshold::SevenLsb)
        .build();
    mag_sensor
        .set_config_register(new_device_config_2)
        .expect("Failed to set Device Config Register 2");
    let applied_device_config_2: DeviceConfig2Register = mag_sensor
        .get_config_register()
        .expect("Failed to get Device Config Register 2");
    assert_eq!(applied_device_config_2, new_device_config_2);
    reset_device_config_2(&mut mag_sensor);
}

fn generic_test_set_reset_i2c_address_register(i2c: SimulatedDevice) {
    let i2c_ref_cell = RefCell::new(i2c);
    let new_address = 0x55;
    {
        let mut mag_sensor = TMag5273::new(SharedBus(&i2c_ref_cell), SENSOR_PART).unwrap();
        let new_i2c_address_register = I2cAddressRegister::builder()
            .with_i2c_address_update_enabled(true)
            .with_i2c_address(new_address)
            .build();
        mag_sensor
            .set_config_register(new_i2c_address_register)
            .expect("Failed to set I2C Address Register");
    }
    {
        let mut mag_sensor =
            TMag5273::new_with_address(SharedBus(&i2c_ref_cell), new_address, SENSOR_PART)
                .unwrap();
        assert!(mag_sensor.is_connected());
        let reset_i2c_register = I2cAddressRegister::builder()
            .with_i2c_address_update_enabled(false)
            .with_i2c_address(new_address)
            .build();
        mag_sensor
            .set_config_register(reset_i2c_register)
            .expect("Failed to reset I2C Address Register");
        assert!(!mag_sensor.is_connected());
    }
    let mut mag_sensor = TMag5273::new(SharedBus(&i2c_ref_cell), SENSOR_PART).unwrap();
    assert!(mag_sensor.is_connected());
}

fn generic_test_set_reset_int_config_1_register<I2C: I2cBus>(i2c: I2C) {
    let mut mag_sensor = TMag5273::new(i2c, SENSOR_PART).unwrap();
    reset_int_config(&mut mag_sensor);
    let new_int_config_1 = InterruptConfigRegister::builder()
        .with_int_pin_disabled(true)
        .with_interrupt_mode(InterruptMode::INTInterrupt)
        .with_int_pin_mode(INTPinMode::Pulsed)
        .with_threshold_interrupt_enabled(true)
        .with_conversion_complete_interrupt_enabled(true)
        .build();
    mag_sensor
        .set_config_register(new_int_config_1)
        .expect("Failed to set Int Config Register 1");
    let applied_int_config_1: InterruptConfigRegister = mag_sensor
        .get_config_register()
        .expect("Failed to get Int Config Register 1");
    assert_eq!(applied_int_config_1, new_int_config_1);
    reset_int_config(&mut mag_sensor);
}

fn generic_test_set_reset_sensor_config_1_register<I2C: I2cBus>(i2c: I2C) {
    let mut mag_sensor =
        TMag5273::new(i2c, SENSOR_PART).expect("Failed to create mag sensor instance");
    reset_sensor_config_1(&mut mag_sensor);
    let new_sensor_config_1 = SensorConfig1Register::builder()
        .with_sleep_time(SleepTime::Ms1000)
        .with_mag_channel(MagneticChannel::XZX)
        .build();
    mag_sensor
        .set_config_register(new_sensor_config_1)
        .expect("Failed to set Sensor Config Register 1");
    let applied_sensor_config_1: SensorConfig1Register = mag_sensor
        .get_config_register()
        .expect("Failed to get Sensor Config Register 1");
    assert_eq!(applied_sensor_config_1, new_sensor_config_1);
    mag_sensor
        .set_config_register(SensorConfig1Register::default())
        .expect("Failed to reset Sensor Config Register 1");
    reset_sensor_config_1(&mut mag_sensor);
}

fn generic_test_set_reset_sensor_config_2_register<I2C: I2cBus>(i2c: I2C) {
    let mut mag_sensor =
        TMag5273::new(i2c, SENSOR_PART).expect("Failed to create mag sensor instance");
    reset_sensor_config_2(&mut mag_sensor);
    let new_sensor_config_2 = SensorConfig2Register::builder()
        .with_z_range(Range::High)
        .with_xy_range(Range::High)
        .with_angle(Angle::XY)
        .with_gain_channel(MagGainChannel::Second)
        .with_threshold_direction(MagThresholdDirection::Below)
        .with_threshold_crossing_count(ThresholdCrossingCount::Four)
        .build();
    mag_sensor
        .set_config_register(new_sensor_config_2)
        .expect("Failed to set Sensor Config Register 2");
    let applied_sensor_config_2: SensorConfig2Register = mag_sensor
        .get_config_register()
        .expect("Failed to get Sensor Config Register 2");
    assert_eq!(applied_sensor_config_2, new_sensor_config_2);
    reset_sensor_config_2(&mut mag_sensor);
}

fn generic_test_set_reset_t_config_register<I2C: I2cBus>(i2c: I2C) {
    let mut mag_sensor =
        TMag5273::new(i2c, SENSOR_PART).expect("Failed to create mag sensor instance");
    reset_t_config(&mut mag_sensor);
    let temp_threshold = 54;
    let new_t_config = TConfigRegister::builder()
        .with_temperature_channel_enabled(true)
        .with_t_thr_config(temp_threshold)
        .build();
    mag_sensor
        .set_config_register(new_t_config)
        .expect("Failed to set T Config Register");
    let applied_t_config: TConfigRegister = mag_sensor
        .get_config_register()
        .expect("Failed to get T Config Register");
    assert_eq!(applied_t_config, new_t_config);
    reset_t_config(&mut mag_sensor);
}

#[test]
fn setting_register_tests_test_is_connected() {
    generic_test_is_connected(setup_i2c());
}

#[test]
fn setting_register_tests_test_create_tmag5273() {
    generic_test_create_tmag5273(setup_i2c());
}

#[test]
fn setting_register_tests_test_set_reset_device_config_1_register() {
    generic_test_set_reset_device_config_1_register(setup_i2c());
}

#[test]
fn setting_register_tests_test_set_reset_device_config_2_register() {
    generic_test_reset_device_config_2_register(setup_i2c());
}

#[test]
fn setting_register_tests_test_set_reset_i2c_address_register() {
    generic_test_set_reset_i2c_address_register(setup_i2c());
}

#[test]
fn setting_register_tests_test_set_reset_int_config_1_register() {
    generic_test_set_reset_int_config_1_register(setup_i2c());
}

#[test]
fn setting_register_tests_test_set_reset_sensor_config_1_register() {
    generic_test_set_reset_sensor_config_1_register(setup_i2c());
}

#[test]
fn setting_register_tests_test_set_reset_sensor_config_2_register() {
    generic_test_set_reset_sensor_config_2_register(setup_i2c());
}

#[test]
fn setting_register_tests_test_set_reset_t_config_register() {
    generic_test_set_reset_t_config_register(setup_i2c());
}

#[test]
fn setting_registers_tests_test_is_connected() {
    generic_test_is_connected(setup_i2c());
}

#[test]
fn setting_registers_tests_test_create_tmag5273() {
    generic_test_create_tmag5273(setup_i2c());
}

#[test]
fn setting_registers_tests_test_set_reset_device_config_1_register() {
    generic_test_set_reset_device_config_1_register(setup_i2c());
}

#[test]
fn setting_registers_tests_test_set_reset_device_config_2_register() {
    generic_test_reset_device_config_2_register(setup_i2c());
}

#[test]
fn setting_registers_tests_test_set_reset_i2c_address_register() {
    generic_test_set_reset_i2c_address_register(setup_i2c());
}

#[test]
fn setting_registers_tests_test_set_reset_int_config_1_register() {
    generic_test_set_reset_int_config_1_register(setup_i2c());
}

#[test]
fn setting_registers_tests_test_set_reset_sensor_config_1_register() {
    generic_test_set_reset_sensor_config_1_register(setup_i2c());
}

#[test]
fn setting_registers_tests_test_set_reset_sensor_config_2_register() {
    generic_test_set_reset_sensor_config_2_register(setup_i2c());
}

#[test]
fn setting_registers_tests_test_set_reset_t_config_register() {
    generic_test_set_reset_t_config_register(setup_i2c());
}

// ---- behaviour beyond a cold boot ----

#[test]
fn init_default_enables_all_data() {
    // temperature 17508 (25 °C), X = 16384, Y = -16384, Z = 0
    let device = setup_i2c().with_results([0x44, 0x64, 0x40, 0x00, 0xC0, 0x00, 0x00, 0x00]);
    let mut sensor = TMag5273::new(device, SENSOR_PART).unwrap();
    assert_eq!(sensor.get_all_data(), Err(TMag5273Error::ChannelDisabled));
    let mut sensor = sensor.init_default().unwrap();
    let data = sensor.get_all_data().unwrap();
    // B1 parts have the 40/80 mT class; init selects the high range.
    assert_eq!(value(data.temp), 25.0);
    assert_eq!(value(data.x), -40.0);
    assert_eq!(value(data.y), -40.0);
    assert_eq!(value(data.z), 0.0);
    assert_eq!(value(sensor.get_temperature().unwrap()), 25.0);
    assert_eq!(value(sensor.get_mag_data(Axis::Y).unwrap()), -40.0);
    assert_eq!(sensor.get_angle(), Err(TMag5273Error::ChannelDisabled));
    let config = sensor.get_sensor_config().unwrap();
    assert_eq!(config.mag_channel, MagneticChannel::XYZ);
    assert_eq!(config.sleep_time, SleepTime::Ms20000);
    assert_eq!(config.xy_range, Range::High);
    assert_eq!(config.z_range, Range::High);
    assert!(config.temperature_channel_enabled);
    assert_eq!(sensor.get_device_config().unwrap().operating_mode, OperatingMode::ContinuousMeasure);
}

#[test]
fn wrong_device_is_refused() {
    // A B2 part answers with identity code 2.
    let device = SimulatedDevice::cold_boot(DeviceVersion::TMAG5273B2);
    assert!(matches!(TMag5273::new(device, SENSOR_PART), Err(TMag5273Error::WrongDevice)));
    let mut device = setup_i2c();
    device.registers[0x0F] = 0x00;
    assert!(matches!(TMag5273::new(device, SENSOR_PART), Err(TMag5273Error::WrongDevice)));
    let mut device = setup_i2c();
    device.registers[0x0D] = 0x03;
    assert!(matches!(TMag5273::new(device, SENSOR_PART), Err(TMag5273Error::MalformedRegister)));
}

#[test]
fn missing_device_reports_bus_error() {
    assert!(matches!(
        TMag5273::new(EmptyBus, SENSOR_PART),
        Err(TMag5273Error::I2c(ErrorKind::NoAcknowledge(NoAcknowledgeSource::Address)))
    ));
}

#[test]
fn threshold_round_trip_through_device() {
    let mut sensor = TMag5273::new(setup_i2c(), SENSOR_PART).unwrap();
    // Low range on a B1: 40 mT full scale, 40/128 mT per step.
    sensor.set_mag_threshold(Fraction { numerator: 10, denominator: 1 }, Axis::X).unwrap();
    assert_eq!(value(sensor.get_mag_threshold(Axis::X).unwrap()), 10.0);
    sensor.set_mag_threshold(Fraction { numerator: -40, denominator: 1 }, Axis::Z).unwrap();
    assert_eq!(value(sensor.get_mag_threshold(Axis::Z).unwrap()), -40.0);
    sensor.set_mag_threshold(Fraction { numerator: 40, denominator: 1 }, Axis::Y).unwrap();
    assert_eq!(value(sensor.get_mag_threshold(Axis::Y).unwrap()), 40.0 * 127.0 / 128.0);
}

#[test]
fn threshold_out_of_range_writes_nothing() {
    let device = RefCell::new(setup_i2c());
    let mut sensor = TMag5273::new(SharedBus(&device), SENSOR_PART).unwrap();
    assert_eq!(
        sensor.set_mag_threshold(Fraction { numerator: 81, denominator: 2 }, Axis::X),
        Err(TMag5273Error::OutOfRange)
    );
    assert_eq!(device.borrow().writes, 0);
}

#[test]
fn magnetic_gain_round_trip() {
    let mut sensor = TMag5273::new(setup_i2c(), SENSOR_PART).unwrap();
    sensor.set_magnetic_gain(200).unwrap();
    assert_eq!(sensor.get_magnetic_gain().unwrap(), 200);
}

#[test]
fn offsets_need_the_angle_and_are_unsupported() {
    let mut sensor = TMag5273::new(setup_i2c(), SENSOR_PART).unwrap();
    let offset = Fraction { numerator: 10, denominator: 1 };
    assert_eq!(
        sensor.set_magnetic_offset(offset, MagneticChannelOffset::FirstAxis),
        Err(TMag5273Error::WrongMode)
    );
    let config = sensor.get_sensor_config().unwrap();
    sensor.set_sensor_config(SensorConfig { angle: Angle::XY, ..config }).unwrap();
    // Twice the 40 mT full scale is the limit.
    assert_eq!(
        sensor.set_magnetic_offset(Fraction { numerator: 81, denominator: 1 }, MagneticChannelOffset::FirstAxis),
        Err(TMag5273Error::OutOfRange)
    );
    assert_eq!(
        sensor.set_magnetic_offset(offset, MagneticChannelOffset::FirstAxis),
        Err(TMag5273Error::Unsupported)
    );
    assert_eq!(
        sensor.get_magnetic_offset(MagneticChannelOffset::SecondAxis),
        Err(TMag5273Error::Unsupported)
    );
}

#[test]
fn angle_reading_after_enabling() {
    let mut device = setup_i2c();
    // 180 whole degrees and 8/16.
    device.registers[0x19] = 0x0B;
    device.registers[0x1A] = 0x48;
    let mut sensor = TMag5273::new(device, SENSOR_PART).unwrap();
    let config = sensor.get_sensor_config().unwrap();
    sensor
        .set_sensor_config(SensorConfig { mag_channel: MagneticChannel::XYX, angle: Angle::XY, ..config })
        .unwrap();
    assert_eq!(value(sensor.get_angle().unwrap()), 180.5);
}

#[test]
fn mag_data_channel_checks() {
    let mut sensor = TMag5273::new(setup_i2c(), SENSOR_PART).unwrap();
    let config = sensor.get_sensor_config().unwrap();
    sensor
        .set_sensor_config(SensorConfig { mag_channel: MagneticChannel::YXY, ..config })
        .unwrap();
    assert!(sensor.get_mag_data(Axis::X).is_ok());
    assert_eq!(sensor.get_mag_data(Axis::Z), Err(TMag5273Error::ChannelDisabled));
    assert_eq!(sensor.get_all_data(), Err(TMag5273Error::ChannelDisabled));
    sensor
        .set_config_register(SensorConfig1Register::new_with_raw_value(0xC0))
        .unwrap();
    assert_eq!(sensor.get_mag_data(Axis::Y), Err(TMag5273Error::MalformedRegister));
    sensor
        .set_config_register(SensorConfig1Register::new_with_raw_value(0x0F))
        .unwrap();
    assert_eq!(sensor.get_sensor_config(), Err(TMag5273Error::MalformedRegister));
}

#[test]
fn configuration_groups_round_trip() {
    let mut sensor = TMag5273::new(setup_i2c(), SENSOR_PART).unwrap();
    assert_eq!(sensor.get_device_config().unwrap(), DeviceConfig::default());
    assert_eq!(sensor.get_interrupt_config().unwrap(), InterruptConfig::default());
    assert_eq!(sensor.get_sensor_config().unwrap(), SensorConfig::default());
    let device_config = DeviceConfig {
        conv_avg: ConversionAverage::X32,
        operating_mode: OperatingMode::WakeUpAndSleep,
        threshold: Threshold::SevenLsb,
        i2c_crc_enabled: true,
        ..DeviceConfig::default()
    };
    sensor.set_device_config(device_config).unwrap();
    assert_eq!(sensor.get_device_config().unwrap(), device_config);
    let interrupts = InterruptConfig {
        interrupt_mode: InterruptMode::SCLInterruptNotI2cBusy,
        int_pin_mode: INTPinMode::Pulsed,
        ..InterruptConfig::default()
    };
    sensor.set_interrupts(interrupts).unwrap();
    assert_eq!(sensor.get_interrupt_config().unwrap(), interrupts);
    let sensor_config = SensorConfig {
        sleep_time: SleepTime::Ms5000,
        angle: Angle::YZ,
        z_range: Range::High,
        ..SensorConfig::default()
    };
    sensor.set_sensor_config(sensor_config).unwrap();
    assert_eq!(sensor.get_sensor_config().unwrap(), sensor_config);
    sensor.set_config_register(DeviceConfig1Register::new_with_raw_value(0x18)).unwrap();
    assert_eq!(sensor.get_device_config(), Err(TMag5273Error::MalformedRegister));
    sensor.set_config_register(InterruptConfigRegister::new_with_raw_value(0x1C)).unwrap();
    assert_eq!(sensor.get_interrupt_config(), Err(TMag5273Error::MalformedRegister));
}

#[test]
fn bus_failures_are_reported() {
    let device = RefCell::new(setup_i2c());
    let mut sensor = TMag5273::new(SharedBus(&device), SENSOR_PART).unwrap();
    device.borrow_mut().address = 0x10;
    let nack = TMag5273Error::I2c(ErrorKind::NoAcknowledge(NoAcknowledgeSource::Address));
    assert_eq!(sensor.get_temperature(), Err(nack));
    assert_eq!(sensor.set_magnetic_gain(1), Err(nack));
    assert_eq!(sensor.get_all_data(), Err(nack));
    assert!(!sensor.is_connected());
}

#[test]
fn init_default_stops_at_the_failing_transfer() {
    let mut device = setup_i2c();
    device.registers[0x01] = 0x10;
    device.refuse_writes_to = Some(0x07);
    let device = RefCell::new(device);
    let sensor = TMag5273::new(SharedBus(&device), SENSOR_PART).unwrap();
    assert!(matches!(
        sensor.init_default(),
        Err(TMag5273Error::I2c(ErrorKind::NoAcknowledge(NoAcknowledgeSource::Data)))
    ));
    let device = device.borrow();
    // the two sensor configurations were written and are not rolled back
    assert_eq!(device.registers[0x02], 0x7C);
    assert_eq!(device.registers[0x03], 0x03);
    // the refused write to the temperature register is the last transfer:
    // the operating mode is untouched
    assert_eq!(device.registers[0x01], 0x10);
    assert_eq!(device.writes, 3);
}

#[test]
fn default_settings_and_identity_on_an_open_session() {
    let mut sensor = TMag5273::new(setup_i2c(), SENSOR_PART).unwrap();
    assert_eq!(sensor.check_identity(), Ok(()));
    assert_eq!(sensor.apply_default_settings(), Ok(()));
    assert_eq!(sensor.get_device_config().unwrap().operating_mode, OperatingMode::ContinuousMeasure);
    let mut other = TMag5273::new(setup_i2c(), DeviceVersion::TMAG5273B1).unwrap();
    assert_eq!(other.check_identity(), Ok(()));
}
