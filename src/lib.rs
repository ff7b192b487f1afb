//! # TMAG5273 driver
//!
//! A platform agnostic driver for the TMAG5273 3-axis Hall-effect sensor on a
//! two-wire bus.
//!
//! Every getter that depends on a device mode first reads the mode register
//! and checks it, and only then reads the data: a disabled channel is reported
//! as an error and never read as if it held a valid value. Each operation's
//! contract states the exact bus transactions it issues, recorded in the
//! session's transcript, and what it returns for every answer of the bus.
pub mod config;

pub mod bits;
pub mod bus;
pub mod conversion;
pub mod laws;
pub mod protocol;
pub mod registers;
pub mod types;

pub use config::{DeviceConfig, InterruptConfig, SensorConfig};

use bus::{extends, is_read, lemma_since_compose, lemma_since_push, received, since, I2cBus, Transfer};
use conversion::{
    angle_of, byte_from_signed, channel_data, convert_angle, convert_magnetism, convert_temp,
    signed_from_byte, temperature_of, threshold_from_raw, threshold_to_raw,
};
use protocol::{
    all_data_protocol, angle_check, byte_read, byte_written, checked, checked_read_protocol,
    device_id_outcome, device_id_protocol, get_offset_protocol, get_threshold_protocol,
    identity_protocol, init_default_failure, init_default_transfers, lemma_init_step,
    mag_data_plan, mag_data_protocol, manufacturer_id_outcome, manufacturer_id_protocol,
    set_offset_protocol, set_threshold_protocol, temperature_check,
};
use registers::{
    Angle, BitFieldDeviceConfiguration, DeviceConfig2Register, DeviceId, DeviceIdRegister,
    MagneticChannel, OperatingMode, Range, SensorConfig1Register, SensorConfig2Register,
    SensorConfigRegisters, SleepTime, TConfigRegister, TMAG5273Register,
};
use types::{
    Axis, DeviceVersion, Fraction, MagneticChannelOffset, TMag5273ChannelData, TMag5273Error,
};
use vstd::prelude::*;

verus! {

/// Value found in the manufacturer ID registers
pub const MANUFACTURER_ID_VALUE: u16 = 0x5449;

/// A session with one device on the bus.
pub struct TMag5273<I2C> {
    device_version: DeviceVersion,
    /// The concrete I²C device implementation.
    i2c: I2C,
    /// The I²C device address.
    address: u8,
    /// Every transfer issued so far.
    transcript: Ghost<Seq<Transfer>>,
}

impl<I2C> TMag5273<I2C> {
    /// The 7-bit address the session talks to.
    pub closed spec fn address(&self) -> u8 {
        self.address
    }

    /// The hardware variant the session was opened for.
    pub closed spec fn version(&self) -> DeviceVersion {
        self.device_version
    }

    /// Every transfer the session has issued, in order.
    pub closed spec fn transcript(&self) -> Seq<Transfer> {
        self.transcript@
    }

    /// `self` is `before` after more transfers: same device, same variant,
    /// and the record continued.
    pub open spec fn follows(self, before: Self) -> bool {
        &&& self.address() == before.address()
        &&& self.version() == before.version()
        &&& extends(self.transcript(), before.transcript())
    }

    /// The transfers issued since `before`.
    pub open spec fn issued_since(self, before: Self) -> Seq<Transfer> {
        since(self.transcript(), before.transcript())
    }
}

impl<I2C: I2cBus> TMag5273<I2C> {
    /// Reads `N` bytes starting at `register` into `buffer`.
    fn read_register<const N: usize>(&mut self, register: TMAG5273Register, buffer: &mut [u8; N]) -> (r:
        Result<(), TMag5273Error>)
        ensures
            final(self).follows(*old(self)),
            final(self).issued_since(*old(self)).len() == 1,
            is_read(final(self).issued_since(*old(self))[0], old(self).address(), register, N as nat),
            received(final(self).issued_since(*old(self))[0]) == match r {
                Ok(_) => Ok::<Seq<u8>, TMag5273Error>(final(buffer)@),
                Err(e) => Err(e),
            },
    {
        let out: [u8; 1] = [register.address()];
        let result = self.i2c.write_read(self.address, &out, buffer);
        let ghost t = Transfer::WriteRead {
            address: self.address,
            bytes: seq![register.spec_address()],
            len: N as nat,
            received: match result {
                Ok(_) => Ok(buffer@),
                Err(kind) => Err(kind),
            },
        };
        proof {
            lemma_since_push(self.transcript@, t);
            assert(out@ == seq![register.spec_address()]);
        }
        self.transcript = Ghost(self.transcript@.push(t));
        match result {
            Ok(_) => Ok(()),
            Err(kind) => Err(TMag5273Error::I2c(kind)),
        }
    }

    /// Writes `value` to `register`.
    fn write_register(&mut self, register: TMAG5273Register, value: u8) -> (r: Result<
        (),
        TMag5273Error,
    >)
        ensures
            final(self).follows(*old(self)),
            byte_written(
                old(self).address(),
                final(self).issued_since(*old(self)),
                register,
                value,
                r,
            ),
    {
        let out: [u8; 2] = [register.address(), value];
        let result = self.i2c.write(self.address, &out);
        let ghost t = Transfer::Write {
            address: self.address,
            bytes: seq![register.spec_address(), value],
            outcome: result,
        };
        proof {
            lemma_since_push(self.transcript@, t);
        }
        self.transcript = Ghost(self.transcript@.push(t));
        match result {
            Ok(_) => Ok(()),
            Err(kind) => Err(TMag5273Error::I2c(kind)),
        }
    }

    /// Set the magnetic gain for the device.
    /// Gain value mapped 0 - 255 = 0 - 100%
    pub fn set_magnetic_gain(&mut self, gain: u8) -> (r: Result<(), TMag5273Error>)
        ensures
            final(self).follows(*old(self)),
            byte_written(
                old(self).address(),
                final(self).issued_since(*old(self)),
                TMAG5273Register::MagGainConfig,
                gain,
                r,
            ),
    {
        self.write_register(TMAG5273Register::MagGainConfig, gain)
    }

    /// Get the magnetic gain for the device.
    /// Gain value mapped 0 - 255 = 0 - 100%
    pub fn get_magnetic_gain(&mut self) -> (r: Result<u8, TMag5273Error>)
        ensures
            final(self).follows(*old(self)),
            byte_read(
                old(self).address(),
                final(self).issued_since(*old(self)),
                TMAG5273Register::MagGainConfig,
                r,
            ),
    {
        let mut data: [u8; 1] = [0u8; 1];
        self.read_register(TMAG5273Register::MagGainConfig, &mut data)?;
        Ok(data[0])
    }

    /// Returns the resultant vector magnitude (during the angle measurement)
    /// result. This value should be consistent during 360 degrees measurements.
    pub fn get_magnitude(&mut self) -> (r: Result<u8, TMag5273Error>)
        ensures
            final(self).follows(*old(self)),
            byte_read(
                old(self).address(),
                final(self).issued_since(*old(self)),
                TMAG5273Register::MagnitudeResult,
                r,
            ),
    {
        let mut data: [u8; 1] = [0u8; 1];
        self.read_register(TMAG5273Register::MagnitudeResult, &mut data)?;
        Ok(data[0])
    }

    /// Get the manufacturer ID.
    pub fn get_manufacturer_id(&mut self) -> (r: Result<u16, TMag5273Error>)
        ensures
            final(self).follows(*old(self)),
            manufacturer_id_protocol(old(self).address(), final(self).issued_since(*old(self)), r),
    {
        let mut data: [u8; 2] = [0u8; 2];
        self.read_register(TMAG5273Register::ManufacturerIdLsb, &mut data)?;
        let manufacturer_id: u16 = data[1] as u16 * 256 + data[0] as u16;
        if manufacturer_id != MANUFACTURER_ID_VALUE {
            Err(TMag5273Error::WrongDevice)
        } else {
            Ok(manufacturer_id)
        }
    }

    /// Check if the device is connected.
    pub fn is_connected(&mut self) -> (r: bool)
        ensures
            final(self).follows(*old(self)),
            final(self).issued_since(*old(self)).len() == 1,
            is_read(
                final(self).issued_since(*old(self))[0],
                old(self).address(),
                TMAG5273Register::ManufacturerIdLsb,
                2,
            ),
            r == manufacturer_id_outcome(final(self).issued_since(*old(self))[0]) is Ok,
    {
        let id = self.get_manufacturer_id();
        id.is_ok()
    }
}

impl<I2C: I2cBus> TMag5273<I2C> {
    /// Create an instance of the TMag5273xx device at the variant's factory
    /// address.
    ///
    /// The device is checked by reading the manufacturer ID and the device ID.
    pub fn new(i2c: I2C, version: DeviceVersion) -> (r: Result<TMag5273<I2C>, TMag5273Error>)
        ensures
            match r {
                Ok(device) => {
                    &&& device.address() == version.spec_default_address()
                    &&& device.version() == version
                    &&& identity_protocol(
                        version.spec_default_address(),
                        version,
                        device.transcript(),
                        Ok(()),
                    )
                },
                Err(e) => exists|ops: Seq<Transfer>|
                    identity_protocol(version.spec_default_address(), version, ops, Err(e)),
            },
    {
        TMag5273::new_with_address(i2c, version.get_default_address(), version)
    }

    /// Create an instance of a TMag5273xx device with a specific address.
    /// The session is returned only when the identity check passes in full.
    pub fn new_with_address(i2c: I2C, address: u8, version: DeviceVersion) -> (r: Result<
        TMag5273<I2C>,
        TMag5273Error,
    >)
        ensures
            match r {
                Ok(device) => {
                    &&& device.address() == address
                    &&& device.version() == version
                    &&& identity_protocol(address, version, device.transcript(), Ok(()))
                },
                Err(e) => exists|ops: Seq<Transfer>| identity_protocol(address, version, ops, Err(e)),
            },
    {
        let mut device = TMag5273 {
            i2c,
            address,
            device_version: version,
            transcript: Ghost(Seq::empty()),
        };
        let ghost start = device;
        let check = device.check_identity();
        proof {
            assert(device.transcript().skip(0) =~= device.transcript());
        }
        match check {
            Ok(()) => Ok(device),
            Err(e) => Err(e),
        }
    }

    /// Checks that the device on the bus is the variant the session is for:
    /// the manufacturer id must be the fixed value, then the device id must
    /// be the variant's identity code.
    pub fn check_identity(&mut self) -> (r: Result<(), TMag5273Error>)
        ensures
            final(self).follows(*old(self)),
            identity_protocol(
                old(self).address(),
                old(self).version(),
                final(self).issued_since(*old(self)),
                r,
            ),
    {
        let ghost start = self.transcript();
        self.get_manufacturer_id()?;
        let ghost middle = self.transcript();
        let check = self.is_correct_device_version();
        proof {
            lemma_since_compose(start, middle, self.transcript());
        }
        check
    }

    /// Returns the Device ID of the device, otherwise an Error if the device is not connected or the register is malformed.
    pub fn get_device_id(&mut self) -> (r: Result<DeviceId, TMag5273Error>)
        ensures
            final(self).follows(*old(self)),
            device_id_protocol(old(self).address(), final(self).issued_since(*old(self)), r),
    {
        let device_id_register = self.get_config_register::<DeviceIdRegister>()?;
        match device_id_register.device_id() {
            Ok(id) => Ok(id),
            Err(_) => Err(TMag5273Error::MalformedRegister),
        }
    }

    /// Checks if the connect device has the correct hardware version for what the user has chosen
    fn is_correct_device_version(&mut self) -> (r: Result<(), TMag5273Error>)
        ensures
            final(self).follows(*old(self)),
            final(self).issued_since(*old(self)).len() == 1,
            is_read(
                final(self).issued_since(*old(self))[0],
                old(self).address(),
                TMAG5273Register::DeviceID,
                1,
            ),
            r == match device_id_outcome(final(self).issued_since(*old(self))[0]) {
                Err(e) => Err(e),
                Ok(id) => if id == old(self).version().spec_device_id() {
                    Ok(())
                } else {
                    Err(TMag5273Error::WrongDevice)
                },
            },
    {
        if self.get_device_id()? != self.device_version.get_device_id() {
            Err(TMag5273Error::WrongDevice)
        } else {
            Ok(())
        }
    }

    /// Checks the temp channel is enabled
    fn check_temp_channel(&mut self) -> (r: Result<(), TMag5273Error>)
        ensures
            final(self).follows(*old(self)),
            final(self).issued_since(*old(self)).len() == 1,
            is_read(
                final(self).issued_since(*old(self))[0],
                old(self).address(),
                TMAG5273Register::TConfig,
                1,
            ),
            r == checked(final(self).issued_since(*old(self))[0], |b: u8| temperature_check(b)),
    {
        let t_config = self.get_config_register::<TConfigRegister>()?;
        if t_config.temperature_channel_enabled() {
            Ok(())
        } else {
            Err(TMag5273Error::ChannelDisabled)
        }
    }

    /// Get the temperature of the device in degrees Celsius. This will
    /// throw an error if the temperature channel is not enabled.
    pub fn get_temperature(&mut self) -> (r: Result<Fraction, TMag5273Error>)
        ensures
            final(self).follows(*old(self)),
            checked_read_protocol(
                old(self).address(),
                final(self).issued_since(*old(self)),
                TMAG5273Register::TConfig,
                |b: u8| temperature_check(b),
                TMAG5273Register::TMsbResult,
                |data: Seq<u8>| temperature_of(data[0], data[1]),
                r,
            ),
    {
        let ghost before = self.transcript();
        self.check_temp_channel()?;
        let ghost middle = self.transcript();
        let mut data: [u8; 2] = [0u8; 2];
        let result = self.read_register(TMAG5273Register::TMsbResult, &mut data);
        proof {
            lemma_since_compose(before, middle, self.transcript());
        }
        result?;
        Ok(convert_temp(data))
    }

    /// Gets the measured/calculated angle in degrees of the enabled channel
    /// This will throw an error if the channels are not enabled.
    pub fn get_angle(&mut self) -> (r: Result<Fraction, TMag5273Error>)
        ensures
            final(self).follows(*old(self)),
            checked_read_protocol(
                old(self).address(),
                final(self).issued_since(*old(self)),
                TMAG5273Register::SensorConfig2,
                |b: u8| angle_check(b),
                TMAG5273Register::AngleResultMSB,
                |data: Seq<u8>| angle_of(data[0], data[1]),
                r,
            ),
    {
        let ghost before = self.transcript();
        let config = self.get_config_register::<SensorConfig2Register>()?;
        if config.angle() == Angle::Disabled {
            return Err(TMag5273Error::ChannelDisabled);
        }
        let ghost middle = self.transcript();
        let mut data: [u8; 2] = [0u8; 2];
        let result = self.read_register(TMAG5273Register::AngleResultMSB, &mut data);
        proof {
            lemma_since_compose(before, middle, self.transcript());
        }
        result?;
        Ok(convert_angle(data))
    }

    /// Gets the specific axis channel data. This will throw an error if the channel is not enabled.
    pub fn get_mag_data(&mut self, axis: Axis) -> (r: Result<Fraction, TMag5273Error>)
        ensures
            final(self).follows(*old(self)),
            mag_data_protocol(
                old(self).address(),
                old(self).version(),
                axis,
                final(self).issued_since(*old(self)),
                r,
            ),
    {
        let ghost before = self.transcript();
        let configs: SensorConfigRegisters = self.get_dual_config_register()?;
        let (register, range) = mag_data_plan(configs, axis, self.device_version)?;
        let ghost middle = self.transcript();
        let mut data: [u8; 2] = [0u8; 2];
        let result = self.read_register(register, &mut data);
        proof {
            lemma_since_compose(before, middle, self.transcript());
        }
        result?;
        Ok(convert_magnetism(axis, data, range))
    }

    /// Get all the axis data from the device, alongside the temperature of the device,
    /// from one burst read. If the correct Channels are not enabled, an error is returned.
    pub fn get_all_data(&mut self) -> (r: Result<TMag5273ChannelData, TMag5273Error>)
        ensures
            final(self).follows(*old(self)),
            all_data_protocol(
                old(self).address(),
                old(self).version(),
                final(self).issued_since(*old(self)),
                r,
            ),
    {
        let ghost before = self.transcript();
        let configs: SensorConfigRegisters = self.get_dual_config_register()?;
        let config2 = configs.sensor_config2();
        // Only valid in XYZ mode
        if configs.sensor_config1().mag_channel() != MagneticChannel::XYZ {
            return Err(TMag5273Error::ChannelDisabled);
        }
        let ghost first = self.transcript();
        let check = self.check_temp_channel();
        proof {
            lemma_since_compose(before, first, self.transcript());
        }
        check?;
        let ghost second = self.transcript();
        let mut data: [u8; 8] = [0u8; 8];
        let result = self.read_register(TMAG5273Register::TMsbResult, &mut data);
        proof {
            lemma_since_compose(before, second, self.transcript());
            assert(since(self.transcript(), before) =~= since(first, before) + since(second, first)
                + since(self.transcript(), second));
        }
        result?;
        let xy_range = config2.xy_range().get_range(self.device_version);
        let z_range = config2.z_range().get_range(self.device_version);
        Ok(channel_data(data, xy_range, z_range))
    }

    /// Set the threshold of an axis, in mT. The full scale is the range the
    /// device is currently configured for; a threshold beyond it either way is
    /// refused before anything is written.
    pub fn set_mag_threshold(&mut self, threshold: Fraction, axis: Axis) -> (r: Result<
        (),
        TMag5273Error,
    >)
        requires
            threshold.denominator > 0,
        ensures
            final(self).follows(*old(self)),
            set_threshold_protocol(
                old(self).address(),
                old(self).version(),
                threshold,
                axis,
                final(self).issued_since(*old(self)),
                r,
            ),
    {
        let ghost before = self.transcript();
        let config = self.get_config_register::<SensorConfig2Register>()?;
        let (register, range) = match axis {
            Axis::X => (TMAG5273Register::XThrConfig, config.xy_range()),
            Axis::Y => (TMAG5273Register::YThrConfig, config.xy_range()),
            Axis::Z => (TMAG5273Register::ZThrConfig, config.z_range()),
        };
        let range = range.get_range(self.device_version);
        let threshold_raw = threshold_to_raw(threshold, range)?;
        let ghost middle = self.transcript();
        let result = self.write_register(register, byte_from_signed(threshold_raw));
        proof {
            lemma_since_compose(before, middle, self.transcript());
        }
        result
    }

    /// Get the threshold of an axis, in mT, on the range that the device is
    /// currently configured for.
    pub fn get_mag_threshold(&mut self, axis: Axis) -> (r: Result<Fraction, TMag5273Error>)
        ensures
            final(self).follows(*old(self)),
            get_threshold_protocol(
                old(self).address(),
                old(self).version(),
                axis,
                final(self).issued_since(*old(self)),
                r,
            ),
    {
        let ghost before = self.transcript();
        let config = self.get_config_register::<SensorConfig2Register>()?;
        let (register, range) = match axis {
            Axis::X => (TMAG5273Register::XThrConfig, config.xy_range()),
            Axis::Y => (TMAG5273Register::YThrConfig, config.xy_range()),
            Axis::Z => (TMAG5273Register::ZThrConfig, config.z_range()),
        };
        let range = range.get_range(self.device_version);
        let ghost middle = self.transcript();
        let mut buf: [u8; 1] = [0u8; 1];
        let result = self.read_register(register, &mut buf);
        proof {
            lemma_since_compose(before, middle, self.transcript());
        }
        result?;
        Ok(threshold_from_raw(signed_from_byte(buf[0]), range))
    }

    /// Set the magnetic offset for the device.
    ///
    /// NOTE: the angle must be set first. The offset is checked against the
    /// configuration, but writing it is not supported yet.
    pub fn set_magnetic_offset(&mut self, offset: Fraction, mag_offset: MagneticChannelOffset) -> (r:
        Result<(), TMag5273Error>)
        requires
            offset.denominator > 0,
        ensures
            final(self).follows(*old(self)),
            set_offset_protocol(
                old(self).address(),
                old(self).version(),
                offset,
                final(self).issued_since(*old(self)),
                r,
            ),
    {
        let config: SensorConfig2Register = self.get_config_register()?;
        let range = match config.angle() {
            Angle::Disabled => return Err(TMag5273Error::WrongMode),
            Angle::YZ | Angle::XZ => config.z_range(),
            Angle::XY => config.xy_range(),
        }.get_range(self.device_version);
        // make sure offset is within full range
        proof {
            assert(range as int * 2 * offset.denominator as int <= 65535 * 2 * 0xffff_ffff)
                by (nonlinear_arith)
                requires
                    0 <= range <= 65535,
                    0 <= offset.denominator <= 0xffff_ffff,
            ;
        }
        let full_range: i64 = range as i64 * 2 * offset.denominator as i64;
        let numerator: i64 = offset.numerator as i64;
        if numerator > full_range || numerator < -full_range {
            return Err(TMag5273Error::OutOfRange);
        }
        Err(TMag5273Error::Unsupported)
    }

    /// Get the magnetic offset for the device. The configuration is checked
    /// and the offset register read, but decoding it is not supported yet.
    pub fn get_magnetic_offset(&mut self, mag_offset: MagneticChannelOffset) -> (r: Result<
        u8,
        TMag5273Error,
    >)
        ensures
            final(self).follows(*old(self)),
            get_offset_protocol(
                old(self).address(),
                mag_offset,
                final(self).issued_since(*old(self)),
                r,
            ),
    {
        let ghost before = self.transcript();
        let register_address = TMAG5273Register::from(mag_offset);
        let config: SensorConfig2Register = self.get_config_register()?;
        if config.angle() == Angle::Disabled {
            return Err(TMag5273Error::WrongMode);
        }
        let ghost middle = self.transcript();
        let mut buf: [u8; 1] = [0u8; 1];
        let result = self.read_register(register_address, &mut buf);
        proof {
            lemma_since_compose(before, middle, self.transcript());
        }
        result?;
        Err(TMag5273Error::Unsupported)
    }

    /// Initialise the device with the default settings: all three axes
    /// enabled with 20000 ms between conversions, both ranges high, the
    /// temperature channel enabled and continuous measurement, each by reading
    /// the register, changing those fields and writing it back. The first
    /// failing transfer ends it.
    pub fn init_default(self) -> (r: Result<Self, TMag5273Error>)
        ensures
            match r {
                Ok(device) => {
                    &&& device.follows(self)
                    &&& init_default_transfers(self.address(), device.issued_since(self))
                },
                Err(e) => exists|ops: Seq<Transfer>| init_default_failure(self.address(), ops, e),
            },
    {
        let mut device = self;
        device.apply_default_settings()?;
        Ok(device)
    }

    /// The default settings of `init_default`, on this session: each step
    /// reads its register, changes its fields and writes it back, and the
    /// first failing transfer ends the run with its error. The result is `Ok`
    /// exactly when all eight transfers were carried out.
    pub fn apply_default_settings(&mut self) -> (r: Result<(), TMag5273Error>)
        ensures
            final(self).follows(*old(self)),
            r is Ok <==> init_default_transfers(
                old(self).address(),
                final(self).issued_since(*old(self)),
            ),
            r matches Err(e) ==> init_default_failure(
                old(self).address(),
                final(self).issued_since(*old(self)),
                e,
            ),
    {
        let ghost address = self.address();
        let ghost t0 = self.transcript();
        proof {
            assert(t0.take(t0.len() as int) =~= t0);
            assert(since(t0, t0) =~= Seq::<Transfer>::empty());
        }
        // Set the Mag Channels to be enabled
        let ghost before = self.transcript();
        let read = self.get_config_register::<SensorConfig1Register>();
        proof {
            lemma_init_step(address, t0, before, self.transcript());
        }
        let sensor_config_1_register = match read {
            Ok(register) => register,
            Err(e) => {
                proof {
                    assert(init_default_failure(address, since(self.transcript(), t0), e));
                }
                return Err(e);
            },
        };
        proof {
            <SensorConfig1Register as BitFieldDeviceConfiguration>::lemma_encode_decode(
                received(since(self.transcript(), before)[0])->Ok_0[0],
            );
        }
        let sensor_config_1_register = sensor_config_1_register.with_sleep_time(
            SleepTime::Ms20000,
        ).with_mag_channel(MagneticChannel::XYZ);
        let ghost before = self.transcript();
        let written = self.set_config_register(sensor_config_1_register);
        proof {
            lemma_init_step(address, t0, before, self.transcript());
        }
        if let Err(e) = written {
            proof {
                assert(init_default_failure(address, since(self.transcript(), t0), e));
            }
            return Err(e);
        }
        // Set the Sensor Config 2 Register
        let ghost before = self.transcript();
        let read = self.get_config_register::<SensorConfig2Register>();
        proof {
            lemma_init_step(address, t0, before, self.transcript());
        }
        let sensor_config_2_register = match read {
            Ok(register) => register,
            Err(e) => {
                proof {
                    assert(init_default_failure(address, since(self.transcript(), t0), e));
                }
                return Err(e);
            },
        };
        proof {
            <SensorConfig2Register as BitFieldDeviceConfiguration>::lemma_encode_decode(
                received(since(self.transcript(), before)[0])->Ok_0[0],
            );
        }
        let sensor_config_2_register = sensor_config_2_register.with_xy_range(Range::High).with_z_range(
            Range::High,
        );
        let ghost before = self.transcript();
        let written = self.set_config_register(sensor_config_2_register);
        proof {
            lemma_init_step(address, t0, before, self.transcript());
        }
        if let Err(e) = written {
            proof {
                assert(init_default_failure(address, since(self.transcript(), t0), e));
            }
            return Err(e);
        }
        // Set the Temperature Sensor to be enabled
        let ghost before = self.transcript();
        let read = self.get_config_register::<TConfigRegister>();
        proof {
            lemma_init_step(address, t0, before, self.transcript());
        }
        let t_config_register = match read {
            Ok(register) => register,
            Err(e) => {
                proof {
                    assert(init_default_failure(address, since(self.transcript(), t0), e));
                }
                return Err(e);
            },
        };
        proof {
            <TConfigRegister as BitFieldDeviceConfiguration>::lemma_encode_decode(
                received(since(self.transcript(), before)[0])->Ok_0[0],
            );
        }
        let t_config_register = t_config_register.with_temperature_channel_enabled(true);
        let ghost before = self.transcript();
        let written = self.set_config_register(t_config_register);
        proof {
            lemma_init_step(address, t0, before, self.transcript());
        }
        if let Err(e) = written {
            proof {
                assert(init_default_failure(address, since(self.transcript(), t0), e));
            }
            return Err(e);
        }
        // Set the Operating Mode
        let ghost before = self.transcript();
        let read = self.get_config_register::<DeviceConfig2Register>();
        proof {
            lemma_init_step(address, t0, before, self.transcript());
        }
        let device_config2_register = match read {
            Ok(register) => register,
            Err(e) => {
                proof {
                    assert(init_default_failure(address, since(self.transcript(), t0), e));
                }
                return Err(e);
            },
        };
        proof {
            <DeviceConfig2Register as BitFieldDeviceConfiguration>::lemma_encode_decode(
                received(since(self.transcript(), before)[0])->Ok_0[0],
            );
        }
        let device_config2_register = device_config2_register.with_operating_mode(
            OperatingMode::ContinuousMeasure,
        );
        let ghost before = self.transcript();
        let written = self.set_config_register(device_config2_register);
        proof {
            lemma_init_step(address, t0, before, self.transcript());
        }
        if let Err(e) = written {
            proof {
                assert(init_default_failure(address, since(self.transcript(), t0), e));
            }
            return Err(e);
        }
        proof {
            assert(self.transcript().take(t0.len() as int) =~= t0);
        }
        Ok(())
    }
}

} // verus!
