//! Device variants, axes and the driver's errors and readings.
use crate::registers::{DeviceId, TMAG5273Register};
use vstd::prelude::*;
use vstd::string::StringExecFns;

verus! {

/// The bus failures that the transport reports.
#[verifier::external_type_specification]
#[verifier::external_body]
pub struct ExErrorKind(embedded_hal::i2c::ErrorKind);

/// Device version
#[derive(Clone, Copy, Debug, PartialEq, Eq, Structural)]
pub enum DeviceVersion {
    TMAG5273A1,
    TMAG5273B1,
    TMAG5273C1,
    TMAG5273D1,
    TMAG5273A2,
    TMAG5273B2,
    TMAG5273C2,
    TMAG5273D2,
}

impl DeviceVersion {
    /// The factory bus address: variants of one letter share it.
    pub open spec fn spec_default_address(self) -> u8 {
        match self {
            DeviceVersion::TMAG5273A1 | DeviceVersion::TMAG5273A2 => 0x35,
            DeviceVersion::TMAG5273B1 | DeviceVersion::TMAG5273B2 => 0x22,
            DeviceVersion::TMAG5273C1 | DeviceVersion::TMAG5273C2 => 0x78,
            DeviceVersion::TMAG5273D1 | DeviceVersion::TMAG5273D2 => 0x44,
        }
    }

    /// The identity code of the range class: 1 for the 40/80 mT parts, 2 for
    /// the 133/266 mT parts.
    pub open spec fn spec_device_id(self) -> DeviceId {
        match self {
            DeviceVersion::TMAG5273A1
            | DeviceVersion::TMAG5273B1
            | DeviceVersion::TMAG5273C1
            | DeviceVersion::TMAG5273D1 => DeviceId::TMAG5273X1,
            DeviceVersion::TMAG5273A2
            | DeviceVersion::TMAG5273B2
            | DeviceVersion::TMAG5273C2
            | DeviceVersion::TMAG5273D2 => DeviceId::TMAG5273X2,
        }
    }

    /// Gets the default i2c address associated with the hardware version
    pub fn get_default_address(self) -> (r: u8)
        ensures
            r == self.spec_default_address(),
    {
        match self {
            DeviceVersion::TMAG5273A1 | DeviceVersion::TMAG5273A2 => 0x35,
            DeviceVersion::TMAG5273B1 | DeviceVersion::TMAG5273B2 => 0x22,
            DeviceVersion::TMAG5273C1 | DeviceVersion::TMAG5273C2 => 0x78,
            DeviceVersion::TMAG5273D1 | DeviceVersion::TMAG5273D2 => 0x44,
        }
    }

    /// Gets the device id associated with the hardware version
    pub fn get_device_id(self) -> (r: DeviceId)
        ensures
            r == self.spec_device_id(),
    {
        match self {
            DeviceVersion::TMAG5273A1
            | DeviceVersion::TMAG5273B1
            | DeviceVersion::TMAG5273C1
            | DeviceVersion::TMAG5273D1 => DeviceId::TMAG5273X1,
            DeviceVersion::TMAG5273A2
            | DeviceVersion::TMAG5273B2
            | DeviceVersion::TMAG5273C2
            | DeviceVersion::TMAG5273D2 => DeviceId::TMAG5273X2,
        }
    }
}

impl Default for DeviceVersion {
    fn default() -> (r: Self)
        ensures
            r == DeviceVersion::TMAG5273A1,
    {
        DeviceVersion::TMAG5273A1
    }
}

/// A variant is told apart by its bus address and its identity code: two
/// variants that agree on both are the same variant, and the two variants of
/// one letter share the address and differ in the code.
pub proof fn lemma_variant_identity(a: DeviceVersion, b: DeviceVersion)
    ensures
        a.spec_default_address() == b.spec_default_address() && a.spec_device_id()
            == b.spec_device_id() <==> a == b,
{
}

/// An exact physical value, `numerator / denominator`. Readings keep the
/// device's resolution this way: magnetic field in mT over 32768, temperature
/// in °C over 601, angle in degrees over 16, thresholds in mT over 128.
#[derive(Clone, Copy, Debug, PartialEq, Eq, Structural)]
pub struct Fraction {
    pub numerator: i32,
    pub denominator: u32,
}

/// TMAG5273 All Sensor Channel Data
#[derive(Clone, Copy, Debug, PartialEq, Eq, Structural)]
pub struct TMag5273ChannelData {
    /// X Axis in mT
    pub x: Fraction,
    /// Y Axis in mT
    pub y: Fraction,
    /// Z Axis in mT
    pub z: Fraction,
    /// Temperature in degrees C
    pub temp: Fraction,
}

/// Magnetic field Axis
#[derive(Clone, Copy, Debug, PartialEq, Eq, Structural)]
pub enum Axis {
    X,
    Y,
    Z,
}

/// Magnetic Offsets
#[derive(Clone, Copy, Debug, PartialEq, Eq, Structural)]
pub enum MagneticChannelOffset {
    /// 8-bit, 2's complement offset value determined by a primary to adjust
    /// first axis offset value. The range of possible offset valid entrees can
    /// be +/-128. The offset value is calculated by multiplying bit resolution
    /// with the entered value.
    FirstAxis,
    /// 8-bit, 2's complement offset value determined by a primary to adjust
    /// second axis offset value. The range of possible offset valid entrees
    /// can be +/-128. The offset value is calculated by multiplying bit
    /// resolution with the entered value.
    SecondAxis,
}

impl MagneticChannelOffset {
    /// The register that holds the offset.
    pub open spec fn spec_register(self) -> TMAG5273Register {
        match self {
            MagneticChannelOffset::FirstAxis => TMAG5273Register::MagOffsetConfig1,
            MagneticChannelOffset::SecondAxis => TMAG5273Register::MagOffsetConfig2,
        }
    }
}

impl From<MagneticChannelOffset> for TMAG5273Register {
    fn from(offset: MagneticChannelOffset) -> (r: Self)
        ensures
            r == offset.spec_register(),
    {
        match offset {
            MagneticChannelOffset::FirstAxis => TMAG5273Register::MagOffsetConfig1,
            MagneticChannelOffset::SecondAxis => TMAG5273Register::MagOffsetConfig2,
        }
    }
}

impl vstd::std_specs::convert::FromSpecImpl<MagneticChannelOffset> for TMAG5273Register {
    open spec fn obeys_from_spec() -> bool {
        true
    }

    open spec fn from_spec(offset: MagneticChannelOffset) -> Self {
        offset.spec_register()
    }
}

/// Errors for the TMAG5273 device
#[derive(Clone, Copy, Debug, PartialEq)]
pub enum TMag5273Error {
    /// No device at the devices address was found on the bus
    NotConnected,
    /// The device at the address is not a TMAG5273
    WrongDevice,
    /// The data returned from the device was malformed and could not be converted properly
    MalformedRegister,
    /// The device is in the wrong mode for the operation
    WrongMode,
    /// Input is out of range
    OutOfRange,
    /// Channel is not enabled
    ChannelDisabled,
    /// An I2C error occurred
    I2c(embedded_hal::i2c::ErrorKind),
    /// The operation is checked but not carried out: the driver does not
    /// support it yet
    Unsupported,
}

/// Relies on the `Debug` formatting of embedded-hal's `ErrorKind`: the name of
/// the bus failure.
#[verifier::external_body]
fn bus_error_name(kind: embedded_hal::i2c::ErrorKind) -> String {
    format!("{:?}", kind)
}

impl TMag5273Error {
    /// What went wrong, in words.
    pub fn to_string(&self) -> (r: String)
        ensures
            *self == TMag5273Error::NotConnected ==> r@
                == "No device at the device's address was found on the bus"@,
            *self == TMag5273Error::WrongDevice ==> r@
                == "The device at the address is not a TMAG5273"@,
            *self == TMag5273Error::MalformedRegister ==> r@
                == "The data returned from the device was malformed and could not be converted properly"@,
            *self == TMag5273Error::WrongMode ==> r@
                == "The device is in the wrong mode for the operation"@,
            *self == TMag5273Error::OutOfRange ==> r@ == "Input is out of range"@,
            *self == TMag5273Error::ChannelDisabled ==> r@ == "Channel is not enabled"@,
            *self == TMag5273Error::Unsupported ==> r@ == "The operation is not supported yet"@,
            *self is I2c ==> r@.subrange(0, "An I2C error occurred: "@.len() as int)
                == "An I2C error occurred: "@,
    {
        match self {
            TMag5273Error::NotConnected => String::from_str(
                "No device at the device's address was found on the bus",
            ),
            TMag5273Error::WrongDevice => String::from_str(
                "The device at the address is not a TMAG5273",
            ),
            TMag5273Error::MalformedRegister => String::from_str(
                "The data returned from the device was malformed and could not be converted properly",
            ),
            TMag5273Error::WrongMode => String::from_str(
                "The device is in the wrong mode for the operation",
            ),
            TMag5273Error::OutOfRange => String::from_str("Input is out of range"),
            TMag5273Error::ChannelDisabled => String::from_str("Channel is not enabled"),
            TMag5273Error::I2c(kind) => {
                let mut message = String::from_str("An I2C error occurred: ");
                let name = bus_error_name(*kind);
                message.append(name.as_str());
                proof {
                    assert(message@.subrange(0, "An I2C error occurred: "@.len() as int)
                        =~= "An I2C error occurred: "@);
                }
                message
            },
            TMag5273Error::Unsupported => String::from_str("The operation is not supported yet"),
        }
    }
}

} // verus!
