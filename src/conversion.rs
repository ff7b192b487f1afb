//! Raw register data to physical units, and back for thresholds. Every value is
//! exact: see `Fraction`.
use crate::types::{Axis, Fraction, TMag5273ChannelData, TMag5273Error};
use vstd::arithmetic::div_mod::{lemma_div_is_ordered, lemma_div_by_multiple, lemma_div_pos_is_pos};
use vstd::prelude::*;

verus! {

/// Two bytes, most significant first, as an unsigned value.
pub open spec fn be_u16(msb: u8, lsb: u8) -> int {
    msb * 256 + lsb
}

/// Two bytes, most significant first, as a two's complement value.
pub open spec fn be_i16(msb: u8, lsb: u8) -> int {
    if be_u16(msb, lsb) >= 0x8000 {
        be_u16(msb, lsb) - 0x10000
    } else {
        be_u16(msb, lsb)
    }
}

/// Two bytes, least significant first, as an unsigned value.
pub open spec fn le_u16(lsb: u8, msb: u8) -> int {
    msb * 256 + lsb
}

/// The field in mT over 32768 for a raw axis result: `raw * range`, with the
/// sign turned for the X axis (the sensor's polarity convention).
pub open spec fn magnetism_numerator(axis: Axis, msb: u8, lsb: u8, range: u16) -> int {
    if axis == Axis::X {
        -(be_i16(msb, lsb) * range)
    } else {
        be_i16(msb, lsb) * range
    }
}

/// The temperature in °C over 601 for a raw temperature result:
/// `25 + (raw - 17508) / 60.1 = (10 * raw - 160055) / 601`.
pub open spec fn temperature_numerator(msb: u8, lsb: u8) -> int {
    10 * be_u16(msb, lsb) - 160055
}

pub open spec fn abs(x: int) -> int {
    if x < 0 {
        -x
    } else {
        x
    }
}

/// The signed 8-bit threshold code of `numerator / denominator` mT on a full
/// scale of `range` mT: the value scaled by 128 / range and truncated toward
/// zero, where +128 saturates to 127.
pub open spec fn threshold_code(numerator: int, denominator: int, range: int) -> int {
    let q = abs(numerator) * 128 / (range * denominator);
    if numerator >= 0 {
        if q > 127 {
            127
        } else {
            q
        }
    } else {
        -q
    }
}

/// The field in mT for a raw axis result.
pub open spec fn magnetism_of(axis: Axis, msb: u8, lsb: u8, range: u16) -> Fraction {
    Fraction { numerator: magnetism_numerator(axis, msb, lsb, range) as i32, denominator: 32768 }
}

/// The temperature in °C for a raw temperature result.
pub open spec fn temperature_of(msb: u8, lsb: u8) -> Fraction {
    Fraction { numerator: temperature_numerator(msb, lsb) as i32, denominator: 601 }
}

/// The angle in degrees for a raw angle result: the unsigned 16-bit value
/// over 16, whole degrees in bits 4 to 15 and sixteenths in bits 0 to 3.
pub open spec fn angle_of(msb: u8, lsb: u8) -> Fraction {
    Fraction { numerator: be_u16(msb, lsb) as i32, denominator: 16 }
}

/// A byte as a two's complement value.
pub open spec fn signed_byte(byte: u8) -> int {
    if byte >= 0x80 {
        byte - 0x100
    } else {
        byte as int
    }
}

/// The byte that holds a two's complement value in `-128..=127`.
pub open spec fn byte_of(value: int) -> u8 {
    if value < 0 {
        (value + 0x100) as u8
    } else {
        value as u8
    }
}

/// The four readings of one burst read: temperature in bytes 0 and 1, then
/// X, Y and Z, each most significant byte first.
pub open spec fn channel_data_of(data: Seq<u8>, xy_range: u16, z_range: u16) -> TMag5273ChannelData {
    TMag5273ChannelData {
        x: magnetism_of(Axis::X, data[2], data[3], xy_range),
        y: magnetism_of(Axis::Y, data[4], data[5], xy_range),
        z: magnetism_of(Axis::Z, data[6], data[7], z_range),
        temp: temperature_of(data[0], data[1]),
    }
}

/// The big-endian two's complement value of two bytes.
fn signed_from_be(data: [u8; 2]) -> (r: i32)
    ensures
        r == be_i16(data@[0], data@[1]),
{
    let unsigned: i32 = data[0] as i32 * 256 + data[1] as i32;
    if unsigned >= 0x8000 {
        unsigned - 0x10000
    } else {
        unsigned
    }
}

/// Convert the magnetism data from the device to a value in mT.
pub fn convert_magnetism(axis: Axis, data: [u8; 2], range: u16) -> (r: Fraction)
    ensures
        r.numerator == magnetism_numerator(axis, data@[0], data@[1], range),
        r.denominator == 32768,
        r == magnetism_of(axis, data@[0], data@[1], range),
{
    let raw = signed_from_be(data);
    proof {
        assert(-32768 * 65535 <= raw * range <= 32767 * 65535) by (nonlinear_arith)
            requires
                -32768 <= raw <= 32767,
                0 <= range <= 65535,
        ;
    }
    let value: i32 = raw * range as i32;
    let numerator: i32 = if axis == Axis::X {
        -value
    } else {
        value
    };
    Fraction { numerator, denominator: 32768 }
}

/// Convert the temperature data from the device to a value in degrees Celsius.
pub fn convert_temp(data: [u8; 2]) -> (r: Fraction)
    ensures
        r.numerator == temperature_numerator(data@[0], data@[1]),
        r.denominator == 601,
        r == temperature_of(data@[0], data@[1]),
{
    let raw: i32 = data[0] as i32 * 256 + data[1] as i32;
    Fraction { numerator: 10 * raw - 160055, denominator: 601 }
}

/// Convert the angle result to degrees. The unsigned 16-bit value, most
/// significant byte first, holds the whole degrees in bits 4 to 15 and
/// sixteenths of a degree in bits 0 to 3, so the angle in sixteenths of a
/// degree is the 16-bit value itself.
pub fn convert_angle(data: [u8; 2]) -> (r: Fraction)
    ensures
        r.numerator == be_u16(data@[0], data@[1]),
        r.denominator == 16,
        r == angle_of(data@[0], data@[1]),
{
    Fraction { numerator: data[0] as i32 * 256 + data[1] as i32, denominator: 16 }
}

/// The threshold in mT that a threshold code stands for on a full scale of
/// `range` mT: `raw / 128 * range`.
pub fn threshold_from_raw(raw: i8, range: u16) -> (r: Fraction)
    ensures
        r.numerator == raw * range,
        r.denominator == 128,
{
    proof {
        assert(-128 * 65535 <= raw * range <= 127 * 65535) by (nonlinear_arith)
            requires
                -128 <= raw <= 127,
                0 <= range <= 65535,
        ;
    }
    Fraction { numerator: raw as i32 * range as i32, denominator: 128 }
}

/// The threshold code for `threshold` mT on a full scale of `range` mT. A
/// threshold beyond the full scale either way is refused.
pub fn threshold_to_raw(threshold: Fraction, range: u16) -> (r: Result<i8, TMag5273Error>)
    requires
        threshold.denominator > 0,
        range > 0,
    ensures
        r is Err <==> abs(threshold.numerator as int) > range * threshold.denominator,
        r is Err ==> r == Err::<i8, TMag5273Error>(TMag5273Error::OutOfRange),
        r is Ok ==> r->Ok_0 == threshold_code(
            threshold.numerator as int,
            threshold.denominator as int,
            range as int,
        ),
{
    let numerator: i64 = threshold.numerator as i64;
    let magnitude: u64 = if numerator < 0 {
        (-numerator) as u64
    } else {
        numerator as u64
    };
    proof {
        assert(range as int * threshold.denominator as int <= 65535 * 0xffff_ffff) by (nonlinear_arith)
            requires
                0 <= range <= 65535,
                0 <= threshold.denominator <= 0xffff_ffff,
        ;
        assert(range as int * threshold.denominator as int > 0) by (nonlinear_arith)
            requires
                0 < range,
                0 < threshold.denominator,
        ;
    }
    let limit: u64 = range as u64 * threshold.denominator as u64;
    if magnitude > limit {
        return Err(TMag5273Error::OutOfRange);
    }
    let quotient: u64 = magnitude * 128 / limit;
    proof {
        lemma_div_is_ordered(magnitude * 128, limit * 128, limit as int);
        lemma_div_by_multiple(128, limit as int);
        assert(limit * 128 == 128 * limit);
        lemma_div_pos_is_pos(magnitude * 128, limit as int);
    }
    if numerator >= 0 {
        if quotient > 127 {
            Ok(127)
        } else {
            Ok(quotient as i8)
        }
    } else {
        Ok(-(quotient as i64) as i8)
    }
}

/// Decodes one burst read of the temperature and the three axes.
pub fn channel_data(data: [u8; 8], xy_range: u16, z_range: u16) -> (r: TMag5273ChannelData)
    ensures
        r == channel_data_of(data@, xy_range, z_range),
{
    let temp = convert_temp([data[0], data[1]]);
    let x = convert_magnetism(Axis::X, [data[2], data[3]], xy_range);
    let y = convert_magnetism(Axis::Y, [data[4], data[5]], xy_range);
    let z = convert_magnetism(Axis::Z, [data[6], data[7]], z_range);
    TMag5273ChannelData { x, y, z, temp }
}

/// A byte as a two's complement value.
pub fn signed_from_byte(byte: u8) -> (r: i8)
    ensures
        r == signed_byte(byte),
{
    if byte >= 0x80 {
        (byte as i16 - 0x100) as i8
    } else {
        byte as i8
    }
}

/// The byte that holds a two's complement value.
pub fn byte_from_signed(value: i8) -> (r: u8)
    ensures
        r == byte_of(value as int),
        signed_byte(r) == value,
{
    if value < 0 {
        (value as i16 + 0x100) as u8
    } else {
        value as u8
    }
}

} // verus!
