//! Register encodings, unit conversions and the variant table, on given values.
use tmag5273::conversion::{
    byte_from_signed, channel_data, convert_angle, convert_magnetism, convert_temp,
    signed_from_byte, threshold_from_raw, threshold_to_raw,
};
use tmag5273::registers::{
    Angle, BitFieldDeviceConfiguration, ByteFieldDeviceConfiguration, ConversionAverage,
    ConversionStatusRegister, DeviceConfig1Register, DeviceConfig2Register, DeviceConfigRegisters,
    DeviceId, DeviceIdRegister, DeviceStatusRegister, I2cAddressRegister, I2cReadMode,
    IntPinReadBack, InterruptConfigRegister, InterruptMode, MagneticChannel,
    MagnetTemperatureCoefficient, OperatingMode, Range, SensorConfig1Register,
    SensorConfig2Register, SensorConfigRegisters, SleepTime, TConfigRegister, TMAG5273Register,
    Threshold,
};
use tmag5273::types::{Axis, DeviceVersion, Fraction, MagneticChannelOffset, TMag5273Error};
use tmag5273::protocol::mag_data_plan;
use tmag5273::{DeviceConfig, InterruptConfig, SensorConfig};

fn value(f: Fraction) -> f32 {
    f.numerator as f32 / f.denominator as f32
}

#[test]
fn temperature_reference_point() {
    // 17508 = 0x4464 is 25 °C exactly.
    let t = convert_temp([0x44, 0x64]);
    assert_eq!(t, Fraction { numerator: 15025, denominator: 601 });
    assert_eq!(value(t), 25.0);
}

#[test]
fn temperature_one_degree_step() {
    // 60.1 counts per degree: 17508 + 60 counts is just under 26 °C,
    // 601 counts are exactly 10 °C.
    let t = convert_temp([0x44, 0xA0]);
    assert!((value(t) - 26.0).abs() < 0.002);
    let t = convert_temp([0x46, 0xBD]);
    assert_eq!(value(t), 35.0);
}

#[test]
fn angle_decoding() {
    // whole degrees 180 in bits 4..15, 8/16 in bits 0..3
    let a = convert_angle([0x0B, 0x48]);
    assert_eq!(a, Fraction { numerator: 2888, denominator: 16 });
    assert_eq!(value(a), 180.5);
}

#[test]
fn magnetism_conversion() {
    // raw 16384 on an 80 mT range is 40 mT; X has the opposite polarity.
    assert_eq!(value(convert_magnetism(Axis::Y, [0x40, 0x00], 80)), 40.0);
    assert_eq!(value(convert_magnetism(Axis::Z, [0x40, 0x00], 80)), 40.0);
    assert_eq!(value(convert_magnetism(Axis::X, [0x40, 0x00], 80)), -40.0);
    assert_eq!(value(convert_magnetism(Axis::Y, [0x80, 0x00], 266)), -266.0);
}

#[test]
fn burst_read_offsets() {
    let data = channel_data([0x44, 0x64, 0x40, 0x00, 0x20, 0x00, 0xE0, 0x00], 40, 133);
    assert_eq!(value(data.temp), 25.0);
    assert_eq!(value(data.x), -20.0);
    assert_eq!(value(data.y), 10.0);
    assert_eq!(value(data.z), -133.0 / 4.0);
}

#[test]
fn threshold_codes() {
    let t = |n: i32, d: u32| Fraction { numerator: n, denominator: d };
    assert_eq!(threshold_to_raw(t(10, 1), 40), Ok(32));
    assert_eq!(threshold_to_raw(t(40, 1), 40), Ok(127));
    assert_eq!(threshold_to_raw(t(-40, 1), 40), Ok(-128));
    // truncated toward zero
    assert_eq!(threshold_to_raw(t(-3, 4), 40), Ok(-2));
    assert_eq!(threshold_to_raw(t(3, 4), 40), Ok(2));
    assert_eq!(threshold_to_raw(t(401, 10), 40), Err(TMag5273Error::OutOfRange));
    assert_eq!(threshold_to_raw(t(-267, 1), 266), Err(TMag5273Error::OutOfRange));
    assert_eq!(value(threshold_from_raw(32, 40)), 10.0);
    assert_eq!(value(threshold_from_raw(-128, 266)), -266.0);
}

#[test]
fn threshold_round_trip_within_one_step() {
    for range in [40u16, 80, 133, 266] {
        for numerator in -(range as i32 * 8)..=(range as i32 * 8) {
            let threshold = Fraction { numerator, denominator: 8 };
            let code = threshold_to_raw(threshold, range).unwrap();
            let back = value(threshold_from_raw(code, range));
            assert!((back - value(threshold)).abs() <= range as f32 / 128.0);
        }
    }
}

#[test]
fn signed_bytes() {
    assert_eq!(signed_from_byte(0xFF), -1);
    assert_eq!(signed_from_byte(0x80), -128);
    assert_eq!(signed_from_byte(0x7F), 127);
    assert_eq!(byte_from_signed(-1), 0xFF);
    assert_eq!(byte_from_signed(-128), 0x80);
}

#[test]
fn variant_table() {
    let all = [
        DeviceVersion::TMAG5273A1,
        DeviceVersion::TMAG5273B1,
        DeviceVersion::TMAG5273C1,
        DeviceVersion::TMAG5273D1,
        DeviceVersion::TMAG5273A2,
        DeviceVersion::TMAG5273B2,
        DeviceVersion::TMAG5273C2,
        DeviceVersion::TMAG5273D2,
    ];
    let addresses = [0x35, 0x22, 0x78, 0x44, 0x35, 0x22, 0x78, 0x44];
    for (version, address) in all.iter().zip(addresses) {
        assert_eq!(version.get_default_address(), address);
    }
    assert_eq!(DeviceVersion::TMAG5273C1.get_device_id(), DeviceId::TMAG5273X1);
    assert_eq!(DeviceVersion::TMAG5273C2.get_device_id(), DeviceId::TMAG5273X2);
    for a in all {
        for b in all {
            let same = a.get_default_address() == b.get_default_address()
                && a.get_device_id() == b.get_device_id();
            assert_eq!(same, a == b);
        }
    }
    assert_eq!(DeviceVersion::default(), DeviceVersion::TMAG5273A1);
}

#[test]
fn range_table() {
    assert_eq!(Range::Low.get_range(DeviceVersion::TMAG5273A1), 40);
    assert_eq!(Range::High.get_range(DeviceVersion::TMAG5273D1), 80);
    assert_eq!(Range::Low.get_range(DeviceVersion::TMAG5273B2), 133);
    assert_eq!(Range::High.get_range(DeviceVersion::TMAG5273C2), 266);
}

#[test]
fn register_addresses() {
    assert_eq!(TMAG5273Register::DeviceConfig1.address(), 0x00);
    assert_eq!(TMAG5273Register::TConfig.address(), 0x07);
    assert_eq!(TMAG5273Register::ManufacturerIdLsb.address(), 0x0E);
    assert_eq!(TMAG5273Register::TMsbResult.address(), 0x10);
    assert_eq!(TMAG5273Register::AngleResultMSB.address(), 0x19);
    assert_eq!(TMAG5273Register::DeviceStatus.address(), 0x1C);
    assert_eq!(TMAG5273Register::from(MagneticChannelOffset::FirstAxis), TMAG5273Register::MagOffsetConfig1);
    assert_eq!(TMAG5273Register::from(MagneticChannelOffset::SecondAxis).address(), 0x0B);
    assert_eq!(SensorConfig2Register::get_address(), TMAG5273Register::SensorConfig2);
    assert_eq!(SensorConfigRegisters::get_address(), TMAG5273Register::SensorConfig1);
}

#[test]
fn register_field_layout() {
    let r = DeviceConfig1Register::builder()
        .with_i2c_read_mode(I2cReadMode::TwoByte8Bit)
        .with_conv_avg(ConversionAverage::X16)
        .with_mag_tempo(MagnetTemperatureCoefficient::Zero2Compensation)
        .with_i2c_crc_enabled(true)
        .build();
    assert_eq!(r.raw_value(), 0b1_11_100_10);
    assert_eq!(r.conv_avg(), Ok(ConversionAverage::X16));
    let r = DeviceConfig2Register::new_with_raw_value(0b001_1_0_1_10);
    assert_eq!(r.operating_mode(), OperatingMode::ContinuousMeasure);
    assert!(!r.i2c_glitch_filter_enabled());
    assert_eq!(r.threshold(), Ok(Threshold::SevenLsb));
    assert_eq!(DeviceConfig2Register::new_with_raw_value(0xE0).threshold(), Err(7));
    let r = SensorConfig1Register::builder()
        .with_sleep_time(SleepTime::Ms1000)
        .with_mag_channel(MagneticChannel::XZX)
        .build();
    assert_eq!(r.raw_value(), 0xB9);
    let r = SensorConfig2Register::builder().with_angle(Angle::XZ).with_xy_range(Range::High).build();
    assert_eq!(r.raw_value(), 0b0000_1110);
    let r = InterruptConfigRegister::builder()
        .with_interrupt_mode(InterruptMode::SCLInterrupt)
        .with_conversion_complete_interrupt_enabled(true)
        .build();
    assert_eq!(r.raw_value(), 0b1000_1100);
    let r = TConfigRegister::builder().with_t_thr_config(54).with_temperature_channel_enabled(true).build();
    assert_eq!(r.raw_value(), 54 * 2 + 1);
    assert_eq!(r.t_thr_config(), 54);
    let r = I2cAddressRegister::builder().with_i2c_address(0x55).with_i2c_address_update_enabled(true).build();
    assert_eq!(r.raw_value(), 0xAB);
    assert_eq!(r.i2c_address(), 0x55);
}

#[test]
fn read_only_registers() {
    assert_eq!(DeviceIdRegister::default().device_id(), Ok(DeviceId::TMAG5273X1));
    assert_eq!(DeviceIdRegister::new_with_raw_value(0xFE).device_id(), Ok(DeviceId::TMAG5273X2));
    assert_eq!(DeviceIdRegister::new_with_raw_value(0x00).device_id(), Err(0));
    let status = DeviceStatusRegister::new_with_raw_value(0b0001_0101);
    assert!(status.vcc_under_voltage_error());
    assert!(!status.crc_error());
    assert!(status.int_pin_error());
    assert_eq!(status.int_pin_read_back(), IntPinReadBack::High);
    let conversion = ConversionStatusRegister::new_with_raw_value(0b1011_0001);
    assert!(conversion.conversion_ready());
    assert!(conversion.power_on_reset());
    assert_eq!(conversion.set_count(), 5);
    assert_eq!(ConversionStatusRegister::default().raw_value(), 0x10);
    assert_eq!(DeviceStatusRegister::default().raw_value(), 0x10);
}

#[test]
fn encode_decode_round_trips() {
    for raw in 0..=255u8 {
        assert_eq!(DeviceConfig1Register::new_with_raw_value(raw).raw_value(), raw);
        assert_eq!(SensorConfig2Register::new_with_raw_value(raw).raw_value(), raw);
        assert_eq!(InterruptConfigRegister::new_with_raw_value(raw).raw_value(), raw);
    }
    let r = SensorConfig1Register::builder().with_mag_channel(MagneticChannel::YZ).build();
    assert_eq!(SensorConfig1Register::new_with_raw_value(r.raw_value()), r);
    let dual = SensorConfigRegisters::new_with_raw_value(0x0A70);
    assert_eq!(dual.sensor_config1().mag_channel(), MagneticChannel::XYZ);
    assert_eq!(dual.sensor_config2().raw_value(), 0x0A);
    assert_eq!(dual.raw_value(), 0x0A70);
    let dual = DeviceConfigRegisters::new_with_raw_value(0x0102);
    assert_eq!(dual.device_config1().i2c_read_mode(), I2cReadMode::TwoByte8Bit);
    assert_eq!(dual.device_config2().operating_mode(), OperatingMode::Sleep);
    for bits in 0..16u8 {
        assert_eq!(MagneticChannel::new_with_raw_value(bits).raw_value(), bits);
    }
    assert_eq!(SleepTime::new_with_raw_value(13), Err(13));
    assert_eq!(SleepTime::new_with_raw_value(12), Ok(SleepTime::Ms20000));
}

#[test]
fn reset_values_round_trip() {
    assert_eq!(DeviceConfig1Register::new_with_raw_value(DeviceConfig1Register::default().raw_value()), DeviceConfig1Register::default());
    assert_eq!(TConfigRegister::new_with_raw_value(TConfigRegister::default().raw_value()), TConfigRegister::default());
    let (c1, c2) = DeviceConfig::default().to_registers();
    assert_eq!(c1, DeviceConfig1Register::default());
    assert_eq!(c2, DeviceConfig2Register::default());
    assert_eq!(DeviceConfig::from_registers(c1, c2), Ok(DeviceConfig::default()));
    let (s1, s2) = SensorConfig::default().to_registers();
    assert_eq!(SensorConfig::from_registers(s1, s2, TConfigRegister::default()), Ok(SensorConfig::default()));
    let r = InterruptConfig::default().to_register();
    assert_eq!(r, InterruptConfigRegister::default());
    assert_eq!(InterruptConfig::from_register(r), Ok(InterruptConfig::default()));
}

#[test]
fn mag_data_plans() {
    let version = DeviceVersion::TMAG5273A2;
    let configs = |channel: MagneticChannel, config2: u8| {
        SensorConfigRegisters::new_with_raw_value(((config2 as u16) << 8) | ((channel.raw_value() as u16) << 4))
    };
    assert_eq!(mag_data_plan(configs(MagneticChannel::Default, 0), Axis::X, version), Err(TMag5273Error::WrongMode));
    assert_eq!(mag_data_plan(configs(MagneticChannel::Reserved3, 0), Axis::X, version), Err(TMag5273Error::MalformedRegister));
    assert_eq!(mag_data_plan(configs(MagneticChannel::YZ, 0), Axis::X, version), Err(TMag5273Error::ChannelDisabled));
    assert_eq!(mag_data_plan(configs(MagneticChannel::XZX, 0), Axis::Y, version), Err(TMag5273Error::ChannelDisabled));
    assert_eq!(mag_data_plan(configs(MagneticChannel::XYX, 0), Axis::Z, version), Err(TMag5273Error::ChannelDisabled));
    assert_eq!(mag_data_plan(configs(MagneticChannel::XYZ, 0b10), Axis::X, version), Ok((TMAG5273Register::XMsbResult, 266)));
    assert_eq!(mag_data_plan(configs(MagneticChannel::YZY, 0b10), Axis::Z, version), Ok((TMAG5273Register::ZMSBResult, 133)));
    assert_eq!(mag_data_plan(configs(MagneticChannel::Y, 0b01), Axis::Y, version), Ok((TMAG5273Register::YMSBResult, 133)));
}

#[test]
fn error_messages() {
    assert_eq!(TMag5273Error::OutOfRange.to_string(), "Input is out of range");
    assert_eq!(TMag5273Error::ChannelDisabled.to_string(), "Channel is not enabled");
    assert_eq!(
        TMag5273Error::I2c(embedded_hal::i2c::ErrorKind::Bus).to_string(),
        "An I2C error occurred: Bus"
    );
}

#[test]
fn angle_decoding_is_unsigned() {
    // bit 15 set: 2048 whole degrees, not a negative angle
    assert_eq!(value(convert_angle([0x80, 0x00])), 2048.0);
    assert_eq!(value(convert_angle([0x16, 0x8F])), 360.0 + 15.0 / 16.0);
}
