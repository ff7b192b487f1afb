//! Properties that relate several operations of the driver, proved.
use crate::bits::{field, lemma_field_of_zero, lemma_with_field, with_field};
use crate::bus::{received, Transfer};
use crate::config::{DeviceConfig, InterruptConfig, SensorConfig};
use crate::conversion::{
    abs, angle_of, byte_of, channel_data_of, signed_byte, temperature_of, threshold_code,
};
use crate::protocol::{
    all_data_protocol, angle_check, axis_full_scale, byte_written, checked_read_protocol,
    get_threshold_protocol, init_sensor_config_1, init_sensor_config_2, init_t_config,
    mag_data_protocol, set_threshold_protocol, temperature_check,
};
use crate::registers::{
    register_read, BitFieldDeviceConfiguration, ByteFieldDeviceConfiguration,
    DeviceConfig1Register, DeviceConfig2Register, InterruptConfigRegister, Range,
    SensorConfig1Register, SensorConfig2Register, SensorConfigRegisters, TConfigRegister,
    TMAG5273Register,
};
use crate::types::{Axis, DeviceVersion, Fraction, TMag5273ChannelData, TMag5273Error};
use vstd::arithmetic::div_mod::{
    lemma_div_by_multiple, lemma_div_is_ordered, lemma_fundamental_div_mod, lemma_mod_bound,
};
use vstd::prelude::*;

verus! {

/// A threshold within the full scale comes back from its code to within one
/// step of the scale, `range / 128` mT: with the threshold
/// `numerator / denominator` mT and its code `c`,
/// `|c * range / 128 - numerator / denominator| <= range / 128`.
pub proof fn lemma_threshold_round_trip(numerator: int, denominator: int, range: int)
    requires
        denominator > 0,
        range > 0,
        abs(numerator) <= range * denominator,
    ensures
        abs(threshold_code(numerator, denominator, range) * range * denominator - 128 * numerator)
            <= range * denominator,
        -128 <= threshold_code(numerator, denominator, range) <= 127,
{
    let d = range * denominator;
    assert(d > 0) by (nonlinear_arith)
        requires
            range > 0,
            denominator > 0,
            d == range * denominator,
    ;
    let x = abs(numerator) * 128;
    let q = x / d;
    lemma_fundamental_div_mod(x, d);
    lemma_mod_bound(x, d);
    lemma_div_is_ordered(x, d * 128, d);
    lemma_div_by_multiple(128, d);
    assert(d * 128 == 128 * d);
    assert(q <= 128);
    let c = threshold_code(numerator, denominator, range);
    assert(c * range * denominator == c * d) by (nonlinear_arith)
        requires
            d == range * denominator,
    ;
    if numerator >= 0 {
        if q > 127 {
            assert(q == 128);
            assert(x >= 128 * d) by (nonlinear_arith)
                requires
                    x == d * q + x % d,
                    q == 128,
                    x % d >= 0,
            ;
            assert(numerator == d);
            assert(c * d == 127 * d);
        } else {
            assert(c * d == d * q) by (nonlinear_arith)
                requires
                    c == q,
            ;
        }
    } else {
        assert(c == -q);
        assert(c * d == -(d * q)) by (nonlinear_arith)
            requires
                c == -q,
        ;
    }
}

/// Every register reads back, through the driver, as the value that was
/// written to it, on a device that keeps what it is written: the encoding of
/// a register decodes to it.
pub proof fn lemma_register_write_read<R: BitFieldDeviceConfiguration>(
    address: u8,
    register: R,
    write_ops: Seq<Transfer>,
    written: Result<(), TMag5273Error>,
    read_ops: Seq<Transfer>,
    read: Result<R, TMag5273Error>,
)
    requires
        byte_written(address, write_ops, R::spec_address(), register.spec_raw_value(), written),
        register_read(address, read_ops, read),
        received(read_ops[0]) == Ok::<Seq<u8>, TMag5273Error>(seq![register.spec_raw_value()]),
    ensures
        read == Ok::<R, TMag5273Error>(register),
{
    R::lemma_decode_encode(register);
}

/// Every byte is some register value, and that value encodes back to the byte.
pub proof fn lemma_register_encode_decode<R: BitFieldDeviceConfiguration>(raw_value: u8)
    ensures
        R::spec_new_with_raw_value(raw_value).spec_raw_value() == raw_value,
        R::spec_new_with_raw_value(R::spec_new_with_raw_value(raw_value).spec_raw_value())
            == R::spec_new_with_raw_value(raw_value),
{
    R::lemma_encode_decode(raw_value);
}

/// The registers that a device configuration is written as decode to that
/// configuration.
pub proof fn lemma_device_config_round_trip(
    config: DeviceConfig,
    config1: DeviceConfig1Register,
    config2: DeviceConfig2Register,
)
    requires
        config.encoded_by(config1, config2),
    ensures
        DeviceConfig::spec_from_registers(
            DeviceConfig1Register::spec_new_with_raw_value(config1.bits()),
            DeviceConfig2Register::spec_new_with_raw_value(config2.bits()),
        ) == Ok::<DeviceConfig, TMag5273Error>(config),
{
    <DeviceConfig1Register as BitFieldDeviceConfiguration>::lemma_decode_encode(config1);
    <DeviceConfig2Register as BitFieldDeviceConfiguration>::lemma_decode_encode(config2);
}

/// The register that an interrupt configuration is written as decodes to that
/// configuration.
pub proof fn lemma_interrupt_config_round_trip(
    config: InterruptConfig,
    register: InterruptConfigRegister,
)
    requires
        config.encoded_by(register),
    ensures
        InterruptConfig::spec_from_register(
            InterruptConfigRegister::spec_new_with_raw_value(register.bits()),
        ) == Ok::<InterruptConfig, TMag5273Error>(config),
{
    <InterruptConfigRegister as BitFieldDeviceConfiguration>::lemma_decode_encode(register);
}

/// The registers that a sensor configuration is written as decode to that
/// configuration, with the temperature channel as the temperature register
/// holds it.
pub proof fn lemma_sensor_config_round_trip(
    config: SensorConfig,
    config1: SensorConfig1Register,
    config2: SensorConfig2Register,
    t_config: TConfigRegister,
)
    requires
        config.encoded_by(config1, config2),
    ensures
        SensorConfig::spec_from_registers(
            SensorConfig1Register::spec_new_with_raw_value(config1.bits()),
            SensorConfig2Register::spec_new_with_raw_value(config2.bits()),
            t_config,
        ) == Ok::<SensorConfig, TMag5273Error>(
            SensorConfig {
                temperature_channel_enabled: t_config.spec_temperature_channel_enabled(),
                ..config
            },
        ),
{
    <SensorConfig1Register as BitFieldDeviceConfiguration>::lemma_decode_encode(config1);
    <SensorConfig2Register as BitFieldDeviceConfiguration>::lemma_decode_encode(config2);
}

/// A threshold beyond the full scale is refused after the configuration read
/// alone: nothing is written to the device.
pub proof fn lemma_out_of_range_threshold_writes_nothing(
    address: u8,
    version: DeviceVersion,
    threshold: Fraction,
    axis: Axis,
    ops: Seq<Transfer>,
    r: Result<(), TMag5273Error>,
)
    requires
        set_threshold_protocol(address, version, threshold, axis, ops, r),
        received(ops[0]) is Ok,
        abs(threshold.numerator as int) > axis_full_scale(received(ops[0])->Ok_0[0], axis, version)
            * threshold.denominator,
    ensures
        r == Err::<(), TMag5273Error>(TMag5273Error::OutOfRange),
        ops.len() == 1,
        ops[0] is WriteRead,
{
}

/// Setting a threshold and reading it back, on a device that keeps what it is
/// written and whose range setting stays as it was, gives the threshold to
/// within one step of the full scale: `|back - threshold| <= range / 128` mT.
pub proof fn lemma_threshold_set_get(
    address: u8,
    version: DeviceVersion,
    threshold: Fraction,
    axis: Axis,
    set_ops: Seq<Transfer>,
    set_result: Result<(), TMag5273Error>,
    get_ops: Seq<Transfer>,
    get_result: Result<Fraction, TMag5273Error>,
)
    requires
        threshold.denominator > 0,
        set_threshold_protocol(address, version, threshold, axis, set_ops, set_result),
        set_result is Ok,
        get_threshold_protocol(address, version, axis, get_ops, get_result),
        received(get_ops[0]) == received(set_ops[0]),
        received(get_ops[1]) == Ok::<Seq<u8>, TMag5273Error>(seq![set_ops[1]->Write_bytes[1]]),
    ensures
        get_result is Ok,
        get_result->Ok_0.denominator == 128,
        abs(get_result->Ok_0.numerator * threshold.denominator - 128 * threshold.numerator)
            <= axis_full_scale(received(set_ops[0])->Ok_0[0], axis, version)
            * threshold.denominator,
{
    let range = axis_full_scale(received(set_ops[0])->Ok_0[0], axis, version);
    let n = threshold.numerator as int;
    let d = threshold.denominator as int;
    assert(range > 0);
    lemma_threshold_round_trip(n, d, range as int);
    let c = threshold_code(n, d, range as int);
    assert(signed_byte(byte_of(c)) == c);
    assert(-128 * 65535 <= c * range <= 127 * 65535) by (nonlinear_arith)
        requires
            -128 <= c <= 127,
            0 <= range <= 65535,
    ;
    assert(c * range * d == (c * range) * d);
}

/// The reset value of the configuration registers is zero.
proof fn lemma_reset_registers()
    ensures
        TConfigRegister::spec_new_with_raw_value(0).bits() == 0,
        SensorConfig1Register::spec_new_with_raw_value(0).bits() == 0,
        SensorConfig2Register::spec_new_with_raw_value(0).bits() == 0,
        SensorConfigRegisters::spec_new_with_raw_value(0).bits() == 0,
        DeviceConfig1Register::spec_new_with_raw_value(0).bits() == 0,
        DeviceConfig2Register::spec_new_with_raw_value(0).bits() == 0,
        InterruptConfigRegister::spec_new_with_raw_value(0).bits() == 0,
        forall|shift: u8, mask: u8| shift < 8 ==> #[trigger] field(0, shift, mask) == 0,
{
    <TConfigRegister as BitFieldDeviceConfiguration>::lemma_encode_decode(0);
    <SensorConfig1Register as BitFieldDeviceConfiguration>::lemma_encode_decode(0);
    <SensorConfig2Register as BitFieldDeviceConfiguration>::lemma_encode_decode(0);
    <SensorConfigRegisters as ByteFieldDeviceConfiguration>::lemma_encode_decode(0);
    <DeviceConfig1Register as BitFieldDeviceConfiguration>::lemma_encode_decode(0);
    <DeviceConfig2Register as BitFieldDeviceConfiguration>::lemma_encode_decode(0);
    <InterruptConfigRegister as BitFieldDeviceConfiguration>::lemma_encode_decode(0);
    assert forall|shift: u8, mask: u8| shift < 8 implies #[trigger] field(0, shift, mask) == 0 by {
        lemma_field_of_zero(shift, mask);
    }
}

/// On a device in its reset state no channel is enabled: the temperature and
/// the angle are refused as disabled, every axis as the wrong mode, and the
/// reading of all channels as disabled, each after its configuration read.
pub proof fn lemma_reset_device_refuses_readings(
    address: u8,
    version: DeviceVersion,
    axis: Axis,
    temperature_ops: Seq<Transfer>,
    temperature: Result<Fraction, TMag5273Error>,
    angle_ops: Seq<Transfer>,
    angle: Result<Fraction, TMag5273Error>,
    axis_ops: Seq<Transfer>,
    axis_data: Result<Fraction, TMag5273Error>,
    all_ops: Seq<Transfer>,
    all_data: Result<TMag5273ChannelData, TMag5273Error>,
)
    requires
        checked_read_protocol(
            address,
            temperature_ops,
            TMAG5273Register::TConfig,
            |b: u8| temperature_check(b),
            TMAG5273Register::TMsbResult,
            |data: Seq<u8>| temperature_of(data[0], data[1]),
            temperature,
        ),
        received(temperature_ops[0]) == Ok::<Seq<u8>, TMag5273Error>(seq![0u8]),
        checked_read_protocol(
            address,
            angle_ops,
            TMAG5273Register::SensorConfig2,
            |b: u8| angle_check(b),
            TMAG5273Register::AngleResultMSB,
            |data: Seq<u8>| angle_of(data[0], data[1]),
            angle,
        ),
        received(angle_ops[0]) == Ok::<Seq<u8>, TMag5273Error>(seq![0u8]),
        mag_data_protocol(address, version, axis, axis_ops, axis_data),
        received(axis_ops[0]) == Ok::<Seq<u8>, TMag5273Error>(seq![0u8, 0u8]),
        all_data_protocol(address, version, all_ops, all_data),
        received(all_ops[0]) == Ok::<Seq<u8>, TMag5273Error>(seq![0u8, 0u8]),
    ensures
        temperature == Err::<Fraction, TMag5273Error>(TMag5273Error::ChannelDisabled),
        angle == Err::<Fraction, TMag5273Error>(TMag5273Error::ChannelDisabled),
        axis_data == Err::<Fraction, TMag5273Error>(TMag5273Error::WrongMode),
        all_data == Err::<TMag5273ChannelData, TMag5273Error>(TMag5273Error::ChannelDisabled),
{
    lemma_reset_registers();
    assert(field(0, 0, 1) == 0);
    assert(field(0, 2, 3) == 0);
    assert(field(0, 4, 15) == 0);
}

/// After the default initialisation, on a device that keeps what it is
/// written, reading all channels succeeds: the configuration selects X, Y
/// and Z, the temperature channel is enabled, both ranges are high, and the
/// four readings come from the one burst read.
pub proof fn lemma_initialised_device_reads_all_data(
    address: u8,
    version: DeviceVersion,
    config1: u8,
    config2: u8,
    t_config: u8,
    ops: Seq<Transfer>,
    r: Result<TMag5273ChannelData, TMag5273Error>,
)
    requires
        all_data_protocol(address, version, ops, r),
        received(ops[0]) == Ok::<Seq<u8>, TMag5273Error>(
            seq![init_sensor_config_1(config1), init_sensor_config_2(config2)],
        ),
        received(ops[1]) == Ok::<Seq<u8>, TMag5273Error>(seq![init_t_config(t_config)]),
        received(ops[2]) is Ok,
    ensures
        r == Ok::<TMag5273ChannelData, TMag5273Error>(
            channel_data_of(
                received(ops[2])->Ok_0,
                Range::High.spec_range(version),
                Range::High.spec_range(version),
            ),
        ),
{
    let b1 = init_sensor_config_1(config1);
    let b2 = init_sensor_config_2(config2);
    let bt = init_t_config(t_config);
    let sleep = with_field(config1, 0, 15, 12);
    lemma_with_field(sleep, 4, 15, 7, 0, 15);
    let xy = with_field(config2, 1, 1, 1);
    lemma_with_field(config2, 1, 1, 1, 0, 1);
    lemma_with_field(xy, 0, 1, 1, 1, 1);
    lemma_with_field(t_config, 0, 1, 1, 1, 127);
    <SensorConfigRegisters as ByteFieldDeviceConfiguration>::lemma_encode_decode(
        (b2 * 256 + b1) as u16,
    );
    <SensorConfig1Register as BitFieldDeviceConfiguration>::lemma_encode_decode(b1);
    <SensorConfig2Register as BitFieldDeviceConfiguration>::lemma_encode_decode(b2);
    <TConfigRegister as BitFieldDeviceConfiguration>::lemma_encode_decode(bt);
}

/// After a reset to the declared defaults, on a device that keeps what it is
/// written, each configuration group reads back as its default.
pub proof fn lemma_reset_configurations_read_back()
    ensures
        InterruptConfig::spec_from_register(InterruptConfigRegister::spec_new_with_raw_value(0))
            == Ok::<InterruptConfig, TMag5273Error>(InterruptConfig::spec_default()),
        DeviceConfig::spec_from_registers(
            DeviceConfig1Register::spec_new_with_raw_value(0),
            DeviceConfig2Register::spec_new_with_raw_value(0),
        ) == Ok::<DeviceConfig, TMag5273Error>(DeviceConfig::spec_default()),
        SensorConfig::spec_from_registers(
            SensorConfig1Register::spec_new_with_raw_value(0),
            SensorConfig2Register::spec_new_with_raw_value(0),
            TConfigRegister::spec_new_with_raw_value(0),
        ) == Ok::<SensorConfig, TMag5273Error>(SensorConfig::spec_default()),
{
    lemma_reset_registers();
    assert(field(0, 0, 1) == 0);
    assert(field(0, 1, 1) == 0);
    assert(field(0, 2, 3) == 0);
    assert(field(0, 2, 7) == 0);
    assert(field(0, 3, 1) == 0);
    assert(field(0, 4, 1) == 0);
    assert(field(0, 5, 1) == 0);
    assert(field(0, 5, 3) == 0);
    assert(field(0, 5, 7) == 0);
    assert(field(0, 6, 1) == 0);
    assert(field(0, 7, 1) == 0);
    assert(field(0, 0, 3) == 0);
    assert(field(0, 0, 15) == 0);
    assert(field(0, 4, 15) == 0);
}

} // verus!
