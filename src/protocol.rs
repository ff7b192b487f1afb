//! What each operation of a session does on the bus: the transfers it issues,
//! in order, and what it returns for every answer of the bus. The session's
//! operations are proved to follow these.
use crate::bits::with_field;
use crate::bus::{
    extends, is_read, is_write, lemma_since_compose, received, since, written, Transfer,
};
use crate::conversion::{abs, byte_of, channel_data_of, magnetism_of, signed_byte, threshold_code};
use crate::registers::{
    Angle, BitFieldDeviceConfiguration, ByteFieldDeviceConfiguration, DeviceId, DeviceIdRegister,
    MagneticChannel, OperatingMode, Range, SensorConfig2Register, SensorConfigRegisters,
    SleepTime, TConfigRegister, TMAG5273Register,
};
use crate::types::{
    Axis, DeviceVersion, Fraction, MagneticChannelOffset, TMag5273ChannelData, TMag5273Error,
};
use crate::MANUFACTURER_ID_VALUE;
use vstd::prelude::*;

verus! {

/// One byte read from `register`: the byte itself.
pub open spec fn byte_read(address: u8, ops: Seq<Transfer>, register: TMAG5273Register, r: Result<
    u8,
    TMag5273Error,
>) -> bool {
    &&& ops.len() == 1
    &&& is_read(ops[0], address, register, 1)
    &&& r == match received(ops[0]) {
        Ok(data) => Ok(data[0]),
        Err(e) => Err(e),
    }
}

/// One byte written to `register`.
pub open spec fn byte_written(
    address: u8,
    ops: Seq<Transfer>,
    register: TMAG5273Register,
    value: u8,
    r: Result<(), TMag5273Error>,
) -> bool {
    &&& ops.len() == 1
    &&& is_write(ops[0], address, register, value)
    &&& r == written(ops[0])
}

/// The manufacturer id that two bytes, least significant first, hold:
/// `WrongDevice` unless it is the fixed value.
pub open spec fn spec_manufacturer_id(data: Seq<u8>) -> Result<u16, TMag5273Error> {
    let id = data[1] * 256 + data[0];
    if id == MANUFACTURER_ID_VALUE {
        Ok(id as u16)
    } else {
        Err(TMag5273Error::WrongDevice)
    }
}

/// What the manufacturer id read `t` yields.
pub open spec fn manufacturer_id_outcome(t: Transfer) -> Result<u16, TMag5273Error> {
    match received(t) {
        Ok(data) => spec_manufacturer_id(data),
        Err(e) => Err(e),
    }
}

/// Reading the manufacturer id: both id registers in one read.
pub open spec fn manufacturer_id_protocol(address: u8, ops: Seq<Transfer>, r: Result<
    u16,
    TMag5273Error,
>) -> bool {
    &&& ops.len() == 1
    &&& is_read(ops[0], address, TMAG5273Register::ManufacturerIdLsb, 2)
    &&& r == manufacturer_id_outcome(ops[0])
}

/// The identity code that the device id register holds, or
/// `MalformedRegister` where it is a reserved encoding.
pub open spec fn spec_device_id(register: DeviceIdRegister) -> Result<DeviceId, TMag5273Error> {
    match register.spec_device_id() {
        Ok(id) => Ok(id),
        Err(_) => Err(TMag5273Error::MalformedRegister),
    }
}

/// What the device id read `t` yields.
pub open spec fn device_id_outcome(t: Transfer) -> Result<DeviceId, TMag5273Error> {
    match received(t) {
        Ok(data) => spec_device_id(DeviceIdRegister::spec_new_with_raw_value(data[0])),
        Err(e) => Err(e),
    }
}

/// Reading the device id register.
pub open spec fn device_id_protocol(address: u8, ops: Seq<Transfer>, r: Result<
    DeviceId,
    TMag5273Error,
>) -> bool {
    &&& ops.len() == 1
    &&& is_read(ops[0], address, TMAG5273Register::DeviceID, 1)
    &&& r == device_id_outcome(ops[0])
}

/// The identity check that opens a session: the manufacturer id, then the
/// device id against the variant's identity code.
pub open spec fn identity_protocol(
    address: u8,
    version: DeviceVersion,
    ops: Seq<Transfer>,
    r: Result<(), TMag5273Error>,
) -> bool {
    &&& ops.len() >= 1
    &&& is_read(ops[0], address, TMAG5273Register::ManufacturerIdLsb, 2)
    &&& match manufacturer_id_outcome(ops[0]) {
        Err(e) => ops.len() == 1 && r == Err::<(), TMag5273Error>(e),
        Ok(_) => {
            &&& ops.len() == 2
            &&& is_read(ops[1], address, TMAG5273Register::DeviceID, 1)
            &&& r == match device_id_outcome(ops[1]) {
                Err(e) => Err(e),
                Ok(id) => if id == version.spec_device_id() {
                    Ok(())
                } else {
                    Err(TMag5273Error::WrongDevice)
                },
            }
        },
    }
}

/// A check on a register of one byte that must pass before a data read:
/// `check` gives the verdict on the register's byte.
pub open spec fn checked(t: Transfer, check: spec_fn(u8) -> Result<(), TMag5273Error>) -> Result<
    (),
    TMag5273Error,
> {
    match received(t) {
        Ok(data) => check(data[0]),
        Err(e) => Err(e),
    }
}

/// The temperature channel must be enabled.
pub open spec fn temperature_check(byte: u8) -> Result<(), TMag5273Error> {
    if TConfigRegister::spec_new_with_raw_value(byte).spec_temperature_channel_enabled() {
        Ok(())
    } else {
        Err(TMag5273Error::ChannelDisabled)
    }
}

/// The angle calculation must be enabled.
pub open spec fn angle_check(byte: u8) -> Result<(), TMag5273Error> {
    if SensorConfig2Register::spec_new_with_raw_value(byte).spec_angle() == Angle::Disabled {
        Err(TMag5273Error::ChannelDisabled)
    } else {
        Ok(())
    }
}

/// A check read at `check_register`, then, where it passes, a read of two
/// bytes at `data_register` that `decode` turns into the result.
pub open spec fn checked_read_protocol<T>(
    address: u8,
    ops: Seq<Transfer>,
    check_register: TMAG5273Register,
    check: spec_fn(u8) -> Result<(), TMag5273Error>,
    data_register: TMAG5273Register,
    decode: spec_fn(Seq<u8>) -> T,
    r: Result<T, TMag5273Error>,
) -> bool {
    &&& ops.len() >= 1
    &&& is_read(ops[0], address, check_register, 1)
    &&& match checked(ops[0], check) {
        Err(e) => ops.len() == 1 && r == Err::<T, TMag5273Error>(e),
        Ok(_) => {
            &&& ops.len() == 2
            &&& is_read(ops[1], address, data_register, 2)
            &&& r == match received(ops[1]) {
                Ok(data) => Ok(decode(data)),
                Err(e) => Err(e),
            }
        },
    }
}

/// The channel selection enables `axis`.
pub open spec fn axis_enabled(channel: MagneticChannel, axis: Axis) -> bool {
    match axis {
        Axis::X => channel == MagneticChannel::X || channel == MagneticChannel::XY || channel
            == MagneticChannel::XZ || channel == MagneticChannel::XYZ || channel
            == MagneticChannel::XYX || channel == MagneticChannel::YXY || channel
            == MagneticChannel::XZX,
        Axis::Y => channel == MagneticChannel::Y || channel == MagneticChannel::XY || channel
            == MagneticChannel::YZ || channel == MagneticChannel::XYZ || channel
            == MagneticChannel::XYX || channel == MagneticChannel::YXY || channel
            == MagneticChannel::YZY,
        Axis::Z => channel == MagneticChannel::Z || channel == MagneticChannel::XZ || channel
            == MagneticChannel::YZ || channel == MagneticChannel::XYZ || channel
            == MagneticChannel::YZY || channel == MagneticChannel::XZX,
    }
}

/// The channel selection is one of the reserved encodings.
pub open spec fn is_reserved_channel(channel: MagneticChannel) -> bool {
    channel == MagneticChannel::Reserved1 || channel == MagneticChannel::Reserved2 || channel
        == MagneticChannel::Reserved3 || channel == MagneticChannel::Reserved4
}

/// The register that holds the result of `axis`, most significant byte first.
pub open spec fn result_register(axis: Axis) -> TMAG5273Register {
    match axis {
        Axis::X => TMAG5273Register::XMsbResult,
        Axis::Y => TMAG5273Register::YMSBResult,
        Axis::Z => TMAG5273Register::ZMSBResult,
    }
}

/// The register that holds the threshold of `axis`.
pub open spec fn threshold_register(axis: Axis) -> TMAG5273Register {
    match axis {
        Axis::X => TMAG5273Register::XThrConfig,
        Axis::Y => TMAG5273Register::YThrConfig,
        Axis::Z => TMAG5273Register::ZThrConfig,
    }
}

/// The range setting that applies to `axis`: X and Y share one.
pub open spec fn axis_range(config: SensorConfig2Register, axis: Axis) -> Range {
    match axis {
        Axis::X | Axis::Y => config.spec_xy_range(),
        Axis::Z => config.spec_z_range(),
    }
}

/// Where the result of `axis` stands and its full scale in mT, or why it
/// cannot be read: no channel enabled, a reserved channel selection, or a
/// selection without `axis`.
pub open spec fn spec_mag_data_plan(
    configs: SensorConfigRegisters,
    axis: Axis,
    version: DeviceVersion,
) -> Result<(TMAG5273Register, u16), TMag5273Error> {
    let channel = configs.spec_sensor_config1().spec_mag_channel();
    if channel == MagneticChannel::Default {
        Err(TMag5273Error::WrongMode)
    } else if is_reserved_channel(channel) {
        Err(TMag5273Error::MalformedRegister)
    } else if !axis_enabled(channel, axis) {
        Err(TMag5273Error::ChannelDisabled)
    } else {
        Ok((result_register(axis), axis_range(configs.spec_sensor_config2(), axis).spec_range(version)))
    }
}

/// Decides where the result of `axis` stands and its full scale, from the two
/// sensor configuration registers.
pub fn mag_data_plan(configs: SensorConfigRegisters, axis: Axis, version: DeviceVersion) -> (r:
    Result<(TMAG5273Register, u16), TMag5273Error>)
    ensures
        r == spec_mag_data_plan(configs, axis, version),
{
    let config2 = configs.sensor_config2();
    let mag_channel = configs.sensor_config1().mag_channel();
    match mag_channel {
        MagneticChannel::Default => return Err(TMag5273Error::WrongMode),
        MagneticChannel::Reserved1
        | MagneticChannel::Reserved2
        | MagneticChannel::Reserved3
        | MagneticChannel::Reserved4 => return Err(TMag5273Error::MalformedRegister),
        _ => {},
    }
    let (register, range) = match axis {
        Axis::X => match mag_channel {
            MagneticChannel::Y
            | MagneticChannel::Z
            | MagneticChannel::YZ
            | MagneticChannel::YZY => return Err(TMag5273Error::ChannelDisabled),
            _ => (TMAG5273Register::XMsbResult, config2.xy_range()),
        },
        Axis::Y => match mag_channel {
            MagneticChannel::X
            | MagneticChannel::Z
            | MagneticChannel::XZ
            | MagneticChannel::XZX => return Err(TMag5273Error::ChannelDisabled),
            _ => (TMAG5273Register::YMSBResult, config2.xy_range()),
        },
        Axis::Z => match mag_channel {
            MagneticChannel::X
            | MagneticChannel::Y
            | MagneticChannel::XY
            | MagneticChannel::XYX
            | MagneticChannel::YXY => return Err(TMag5273Error::ChannelDisabled),
            _ => (TMAG5273Register::ZMSBResult, config2.z_range()),
        },
    };
    Ok((register, range.get_range(version)))
}

/// Reading one axis: the two sensor configuration registers, then, where they
/// enable the axis, its result.
pub open spec fn mag_data_protocol(
    address: u8,
    version: DeviceVersion,
    axis: Axis,
    ops: Seq<Transfer>,
    r: Result<Fraction, TMag5273Error>,
) -> bool {
    &&& ops.len() >= 1
    &&& is_read(ops[0], address, TMAG5273Register::SensorConfig1, 2)
    &&& match received(ops[0]) {
        Err(e) => ops.len() == 1 && r == Err::<Fraction, TMag5273Error>(e),
        Ok(config) => match spec_mag_data_plan(
            SensorConfigRegisters::spec_new_with_raw_value((config[1] * 256 + config[0]) as u16),
            axis,
            version,
        ) {
            Err(e) => ops.len() == 1 && r == Err::<Fraction, TMag5273Error>(e),
            Ok((register, range)) => {
                &&& ops.len() == 2
                &&& is_read(ops[1], address, register, 2)
                &&& r == match received(ops[1]) {
                    Ok(data) => Ok(magnetism_of(axis, data[0], data[1], range)),
                    Err(e) => Err(e),
                }
            },
        },
    }
}

/// Reading all channels: the sensor configuration must select exactly X, Y and
/// Z and the temperature channel must be enabled; then one burst read of
/// eight bytes from the temperature result on.
pub open spec fn all_data_protocol(
    address: u8,
    version: DeviceVersion,
    ops: Seq<Transfer>,
    r: Result<TMag5273ChannelData, TMag5273Error>,
) -> bool {
    &&& ops.len() >= 1
    &&& is_read(ops[0], address, TMAG5273Register::SensorConfig1, 2)
    &&& match received(ops[0]) {
        Err(e) => ops.len() == 1 && r == Err::<TMag5273ChannelData, TMag5273Error>(e),
        Ok(config) => {
            let configs = SensorConfigRegisters::spec_new_with_raw_value(
                (config[1] * 256 + config[0]) as u16,
            );
            if configs.spec_sensor_config1().spec_mag_channel() != MagneticChannel::XYZ {
                ops.len() == 1 && r == Err::<TMag5273ChannelData, TMag5273Error>(
                    TMag5273Error::ChannelDisabled,
                )
            } else {
                &&& ops.len() >= 2
                &&& is_read(ops[1], address, TMAG5273Register::TConfig, 1)
                &&& match checked(ops[1], |b: u8| temperature_check(b)) {
                    Err(e) => ops.len() == 2 && r == Err::<TMag5273ChannelData, TMag5273Error>(e),
                    Ok(_) => {
                        &&& ops.len() == 3
                        &&& is_read(ops[2], address, TMAG5273Register::TMsbResult, 8)
                        &&& r == match received(ops[2]) {
                            Ok(data) => Ok(
                                channel_data_of(
                                    data,
                                    configs.spec_sensor_config2().spec_xy_range().spec_range(
                                        version,
                                    ),
                                    configs.spec_sensor_config2().spec_z_range().spec_range(
                                        version,
                                    ),
                                ),
                            ),
                            Err(e) => Err(e),
                        }
                    },
                }
            }
        },
    }
}

/// The full scale in mT that applies to `axis` under the byte of the second
/// sensor configuration register.
pub open spec fn axis_full_scale(byte: u8, axis: Axis, version: DeviceVersion) -> u16 {
    axis_range(SensorConfig2Register::spec_new_with_raw_value(byte), axis).spec_range(version)
}

/// Setting a threshold: the second sensor configuration register for the
/// range, then, where the threshold is within the full scale either way, one
/// write of its code. Out of range, nothing is written.
pub open spec fn set_threshold_protocol(
    address: u8,
    version: DeviceVersion,
    threshold: Fraction,
    axis: Axis,
    ops: Seq<Transfer>,
    r: Result<(), TMag5273Error>,
) -> bool {
    &&& ops.len() >= 1
    &&& is_read(ops[0], address, TMAG5273Register::SensorConfig2, 1)
    &&& match received(ops[0]) {
        Err(e) => ops.len() == 1 && r == Err::<(), TMag5273Error>(e),
        Ok(config) => {
            let range = axis_full_scale(config[0], axis, version);
            if abs(threshold.numerator as int) > range * threshold.denominator {
                ops.len() == 1 && r == Err::<(), TMag5273Error>(TMag5273Error::OutOfRange)
            } else {
                &&& ops.len() == 2
                &&& is_write(
                    ops[1],
                    address,
                    threshold_register(axis),
                    byte_of(
                        threshold_code(
                            threshold.numerator as int,
                            threshold.denominator as int,
                            range as int,
                        ),
                    ),
                )
                &&& r == written(ops[1])
            }
        },
    }
}

/// Reading a threshold: the second sensor configuration register for the
/// range, then the threshold code.
pub open spec fn get_threshold_protocol(
    address: u8,
    version: DeviceVersion,
    axis: Axis,
    ops: Seq<Transfer>,
    r: Result<Fraction, TMag5273Error>,
) -> bool {
    &&& ops.len() >= 1
    &&& is_read(ops[0], address, TMAG5273Register::SensorConfig2, 1)
    &&& match received(ops[0]) {
        Err(e) => ops.len() == 1 && r == Err::<Fraction, TMag5273Error>(e),
        Ok(config) => {
            &&& ops.len() == 2
            &&& is_read(ops[1], address, threshold_register(axis), 1)
            &&& r == match received(ops[1]) {
                Ok(data) => Ok(
                    Fraction {
                        numerator: (signed_byte(data[0]) * axis_full_scale(
                            config[0],
                            axis,
                            version,
                        )) as i32,
                        denominator: 128,
                    },
                ),
                Err(e) => Err(e),
            }
        },
    }
}

/// The range setting that applies to the offsets under an angle
/// calculation, or `WrongMode` where the calculation is disabled.
pub open spec fn offset_range(config: SensorConfig2Register) -> Result<Range, TMag5273Error> {
    match config.spec_angle() {
        Angle::Disabled => Err(TMag5273Error::WrongMode),
        Angle::YZ | Angle::XZ => Ok(config.spec_z_range()),
        Angle::XY => Ok(config.spec_xy_range()),
    }
}

/// Setting an offset: the second sensor configuration register; the angle
/// calculation must be enabled and the offset within twice the full scale
/// either way. Writing the offset is not supported.
pub open spec fn set_offset_protocol(
    address: u8,
    version: DeviceVersion,
    offset: Fraction,
    ops: Seq<Transfer>,
    r: Result<(), TMag5273Error>,
) -> bool {
    &&& ops.len() == 1
    &&& is_read(ops[0], address, TMAG5273Register::SensorConfig2, 1)
    &&& r == match received(ops[0]) {
        Err(e) => Err::<(), TMag5273Error>(e),
        Ok(config) => match offset_range(SensorConfig2Register::spec_new_with_raw_value(config[0])) {
            Err(e) => Err(e),
            Ok(range) => if abs(offset.numerator as int) > 2 * range.spec_range(version)
                * offset.denominator {
                Err(TMag5273Error::OutOfRange)
            } else {
                Err(TMag5273Error::Unsupported)
            },
        },
    }
}

/// Reading an offset: the second sensor configuration register, where the
/// angle calculation is enabled the offset register; decoding the offset is
/// not supported.
pub open spec fn get_offset_protocol(
    address: u8,
    offset: MagneticChannelOffset,
    ops: Seq<Transfer>,
    r: Result<u8, TMag5273Error>,
) -> bool {
    &&& ops.len() >= 1
    &&& is_read(ops[0], address, TMAG5273Register::SensorConfig2, 1)
    &&& match received(ops[0]) {
        Err(e) => ops.len() == 1 && r == Err::<u8, TMag5273Error>(e),
        Ok(config) => match offset_range(SensorConfig2Register::spec_new_with_raw_value(config[0])) {
            Err(e) => ops.len() == 1 && r == Err::<u8, TMag5273Error>(e),
            Ok(_) => {
                &&& ops.len() == 2
                &&& is_read(ops[1], address, offset.spec_register(), 1)
                &&& r == match received(ops[1]) {
                    Ok(_) => Err::<u8, TMag5273Error>(TMag5273Error::Unsupported),
                    Err(e) => Err(e),
                }
            },
        },
    }
}

/// The first sensor configuration with all three axes enabled and 20000 ms
/// between conversions.
pub open spec fn init_sensor_config_1(byte: u8) -> u8 {
    with_field(
        with_field(byte, 0, 15, SleepTime::Ms20000.bits()),
        4,
        15,
        MagneticChannel::XYZ.bits(),
    )
}

/// The second sensor configuration with both ranges high.
pub open spec fn init_sensor_config_2(byte: u8) -> u8 {
    with_field(with_field(byte, 1, 1, Range::High.bits()), 0, 1, Range::High.bits())
}

/// The temperature configuration with the channel enabled.
pub open spec fn init_t_config(byte: u8) -> u8 {
    with_field(byte, 0, 1, 1)
}

/// The second device configuration in continuous measurement.
pub open spec fn init_device_config_2(byte: u8) -> u8 {
    with_field(byte, 0, 3, OperatingMode::ContinuousMeasure.bits())
}

/// The register of step `k` of the default initialisation.
pub open spec fn init_register(k: int) -> TMAG5273Register {
    if k == 0 {
        TMAG5273Register::SensorConfig1
    } else if k == 1 {
        TMAG5273Register::SensorConfig2
    } else if k == 2 {
        TMAG5273Register::TConfig
    } else {
        TMAG5273Register::DeviceConfig2
    }
}

/// The byte that step `k` of the default initialisation writes back for the
/// byte it read.
pub open spec fn init_modify(k: int, byte: u8) -> u8 {
    if k == 0 {
        init_sensor_config_1(byte)
    } else if k == 1 {
        init_sensor_config_2(byte)
    } else if k == 2 {
        init_t_config(byte)
    } else {
        init_device_config_2(byte)
    }
}

/// Transfer `i` of a default initialisation is the one due there: an even
/// one reads the register of step `i / 2`, an odd one writes back the byte
/// the read before it brought, changed.
pub open spec fn init_transfer(ops: Seq<Transfer>, i: int, address: u8) -> bool {
    if i % 2 == 0 {
        is_read(ops[i], address, init_register(i / 2), 1)
    } else {
        is_write(
            ops[i],
            address,
            init_register(i / 2),
            init_modify(i / 2, received(ops[i - 1])->Ok_0[0]),
        )
    }
}

/// The bus carried out the transfer.
pub open spec fn transfer_ok(t: Transfer) -> bool {
    match t {
        Transfer::WriteRead { received, .. } => received is Ok,
        Transfer::Write { outcome, .. } => outcome is Ok,
    }
}

/// The failure of a transfer, as the driver reports it.
pub open spec fn transfer_error(t: Transfer) -> TMag5273Error {
    match t {
        Transfer::WriteRead { received: Err(kind), .. } => TMag5273Error::I2c(kind),
        Transfer::Write { outcome: Err(kind), .. } => TMag5273Error::I2c(kind),
        _ => TMag5273Error::NotConnected,
    }
}

/// The first transfers of a default initialisation, each the one due and
/// each carried out.
pub open spec fn init_prefix(address: u8, ops: Seq<Transfer>) -> bool {
    &&& ops.len() <= 8
    &&& forall|i: int| 0 <= i < ops.len() ==> #[trigger] init_transfer(ops, i, address)
    &&& forall|i: int| 0 <= i < ops.len() ==> transfer_ok(#[trigger] ops[i])
}

/// The transfers of a completed default initialisation: all eight, each
/// carried out.
pub open spec fn init_default_transfers(address: u8, ops: Seq<Transfer>) -> bool {
    ops.len() == 8 && init_prefix(address, ops)
}

/// A default initialisation that failed with `e`: the transfers were the
/// ones due, every one but the last was carried out, and the last failed
/// with `e`.
pub open spec fn init_default_failure(address: u8, ops: Seq<Transfer>, e: TMag5273Error) -> bool {
    &&& 1 <= ops.len() <= 8
    &&& init_prefix(address, ops.drop_last())
    &&& init_transfer(ops, ops.len() - 1, address)
    &&& !transfer_ok(ops.last())
    &&& e == transfer_error(ops.last())
}

/// One more transfer of a default initialisation: where it is the one due,
/// the run either goes on or has failed with its error.
pub proof fn lemma_init_step(address: u8, t0: Seq<Transfer>, t1: Seq<Transfer>, t2: Seq<Transfer>)
    requires
        extends(t1, t0),
        extends(t2, t1),
        since(t2, t1).len() == 1,
        init_prefix(address, since(t1, t0)),
        since(t1, t0).len() < 8,
        init_transfer(since(t1, t0).push(since(t2, t1)[0]), since(t1, t0).len() as int, address),
    ensures
        extends(t2, t0),
        since(t2, t0) == since(t1, t0).push(since(t2, t1)[0]),
        transfer_ok(since(t2, t1)[0]) ==> init_prefix(address, since(t2, t0)),
        !transfer_ok(since(t2, t1)[0]) ==> init_default_failure(
            address,
            since(t2, t0),
            transfer_error(since(t2, t1)[0]),
        ),
{
    lemma_since_compose(t0, t1, t2);
    let ops = since(t1, t0);
    let t = since(t2, t1)[0];
    let next = ops.push(t);
    assert(since(t2, t0) =~= next);
    assert(next.drop_last() =~= ops);
    assert forall|i: int| 0 <= i < next.len() implies #[trigger] init_transfer(next, i, address) by {
        if i < ops.len() {
            assert(next[i] == ops[i]);
            assert(i > 0 ==> next[i - 1] == ops[i - 1]);
            assert(init_transfer(ops, i, address));
        }
    }
    if transfer_ok(t) {
        assert forall|i: int| 0 <= i < next.len() implies transfer_ok(#[trigger] next[i]) by {
            if i < ops.len() {
                assert(next[i] == ops[i]);
            }
        }
    }
}

} // verus!
