use super::register_map::{BitFieldDeviceConfiguration, TMAG5273Register};
use crate::bits::{field, get_field, lemma_field_bound, lemma_with_field, set_field, with_field};
use vstd::prelude::*;

verus! {

/// Interrupt mode select.
/// This maps to INT_MODE in the datasheet; the encodings 5 to 7 are reserved.
#[derive(Clone, Copy, Debug, PartialEq, Eq, Structural)]
pub enum InterruptMode {
    /// No interrupt
    Off,
    /// Interrupt through INT
    INTInterrupt,
    /// Interrupt through INT except when I2C is busy.
    INTInterruptNotI2cBusy,
    /// Interrupt through SCL Clock
    SCLInterrupt,
    /// Interrupt through SCL except when I2C is busy.
    SCLInterruptNotI2cBusy,
}

impl InterruptMode {
    /// The field value that encodes this variant.
    pub open spec fn bits(self) -> u8 {
        match self {
            InterruptMode::Off => 0,
            InterruptMode::INTInterrupt => 1,
            InterruptMode::INTInterruptNotI2cBusy => 2,
            InterruptMode::SCLInterrupt => 3,
            InterruptMode::SCLInterruptNotI2cBusy => 4,
        }
    }

    /// The variant that a 3-bit field value encodes, or the value itself
    /// where it is reserved.
    pub open spec fn from_bits(bits: u8) -> Result<InterruptMode, u8> {
        if bits == 0 {
            Ok(InterruptMode::Off)
        } else if bits == 1 {
            Ok(InterruptMode::INTInterrupt)
        } else if bits == 2 {
            Ok(InterruptMode::INTInterruptNotI2cBusy)
        } else if bits == 3 {
            Ok(InterruptMode::SCLInterrupt)
        } else if bits == 4 {
            Ok(InterruptMode::SCLInterruptNotI2cBusy)
        } else {
            Err(bits)
        }
    }

    pub fn raw_value(self) -> (r: u8)
        ensures
            r == self.bits(),
            r <= 7,
            InterruptMode::from_bits(r) == Ok::<InterruptMode, u8>(self),
    {
        match self {
            InterruptMode::Off => 0,
            InterruptMode::INTInterrupt => 1,
            InterruptMode::INTInterruptNotI2cBusy => 2,
            InterruptMode::SCLInterrupt => 3,
            InterruptMode::SCLInterruptNotI2cBusy => 4,
        }
    }

    pub fn new_with_raw_value(bits: u8) -> (r: Result<Self, u8>)
        ensures
            r == InterruptMode::from_bits(bits),
            r is Ok ==> r->Ok_0.bits() == bits,
    {
        if bits == 0 {
            Ok(InterruptMode::Off)
        } else if bits == 1 {
            Ok(InterruptMode::INTInterrupt)
        } else if bits == 2 {
            Ok(InterruptMode::INTInterruptNotI2cBusy)
        } else if bits == 3 {
            Ok(InterruptMode::SCLInterrupt)
        } else if bits == 4 {
            Ok(InterruptMode::SCLInterruptNotI2cBusy)
        } else {
            Err(bits)
        }
    }
}

impl Default for InterruptMode {
    fn default() -> (r: Self)
        ensures
            r == InterruptMode::Off,
    {
        InterruptMode::Off
    }
}

/// INT interrupt latched or pulsed.
/// This maps to INT_STATE in the datasheet.
#[derive(Clone, Copy, Debug, PartialEq, Eq, Structural)]
pub enum INTPinMode {
    /// INT interrupt latched until clear by a primary addressing the device
    Latched,
    /// INT interrupt pulse for 10us
    Pulsed,
}

impl INTPinMode {
    /// The field value that encodes this variant.
    pub open spec fn bits(self) -> u8 {
        match self {
            INTPinMode::Latched => 0,
            INTPinMode::Pulsed => 1,
        }
    }

    /// The variant that a 1-bit field value encodes.
    pub open spec fn from_bits(bits: u8) -> INTPinMode {
        if bits == 0 {
            INTPinMode::Latched
        } else {
            INTPinMode::Pulsed
        }
    }

    pub fn raw_value(self) -> (r: u8)
        ensures
            r == self.bits(),
            r <= 1,
            INTPinMode::from_bits(r) == self,
    {
        match self {
            INTPinMode::Latched => 0,
            INTPinMode::Pulsed => 1,
        }
    }

    pub fn new_with_raw_value(bits: u8) -> (r: Self)
        requires
            bits <= 1,
        ensures
            r == INTPinMode::from_bits(bits),
            r.bits() == bits,
    {
        if bits == 0 {
            INTPinMode::Latched
        } else {
            INTPinMode::Pulsed
        }
    }
}

impl Default for INTPinMode {
    fn default() -> (r: Self)
        ensures
            r == INTPinMode::Latched,
    {
        INTPinMode::Latched
    }
}

/// Represents the Interrupt Configuration Register.
#[derive(Clone, Copy, Debug, PartialEq, Eq, Structural)]
pub struct InterruptConfigRegister {
    raw: u8,
}

impl InterruptConfigRegister {
    /// The register's byte as it stands on the device.
    pub closed spec fn bits(self) -> u8 {
        self.raw
    }

    /// Mask INT pin when INT connected to GND (MASK_INTB) - bit 0.
    pub open spec fn spec_int_pin_disabled(self) -> bool {
        field(self.bits(), 0, 1) == 1
    }

    /// Interrupt mode select (INT_MODE) - bits 2 to 4.
    pub open spec fn spec_interrupt_mode(self) -> Result<InterruptMode, u8> {
        InterruptMode::from_bits(field(self.bits(), 2, 7))
    }

    /// INT interrupt latched or pulsed (INT_STATE) - bit 5.
    pub open spec fn spec_int_pin_mode(self) -> INTPinMode {
        INTPinMode::from_bits(field(self.bits(), 5, 1))
    }

    /// Enable interrupt response on a predefined threshold cross (THRSLD_INT) - bit 6.
    pub open spec fn spec_threshold_interrupt_enabled(self) -> bool {
        field(self.bits(), 6, 1) == 1
    }

    /// Enable interrupt response on conversion complete (RSLT_INT) - bit 7.
    pub open spec fn spec_conversion_complete_interrupt_enabled(self) -> bool {
        field(self.bits(), 7, 1) == 1
    }

    /// Starts a value from the reset value; set fields with the `with_` methods.
    pub fn builder() -> (r: Self)
        ensures
            r.bits() == 0x00,
    {
        InterruptConfigRegister { raw: 0x00 }
    }

    pub fn build(self) -> (r: Self)
        ensures
            r == self,
    {
        self
    }

    /// Mask INT pin when INT connected to GND (MASK_INTB) - bit 0.
    pub fn int_pin_disabled(&self) -> (r: bool)
        ensures
            r == self.spec_int_pin_disabled(),
    {
        get_field(self.raw, 0, 1) == 1
    }

    /// Interrupt mode select (INT_MODE) - bits 2 to 4.
    pub fn interrupt_mode(&self) -> (r: Result<InterruptMode, u8>)
        ensures
            r == self.spec_interrupt_mode(),
    {
        InterruptMode::new_with_raw_value(get_field(self.raw, 2, 7))
    }

    /// INT interrupt latched or pulsed (INT_STATE) - bit 5.
    pub fn int_pin_mode(&self) -> (r: INTPinMode)
        ensures
            r == self.spec_int_pin_mode(),
    {
        proof {
            lemma_field_bound(self.raw, 5, 1);
        }
        INTPinMode::new_with_raw_value(get_field(self.raw, 5, 1))
    }

    /// Enable interrupt response on a predefined threshold cross (THRSLD_INT) - bit 6.
    pub fn threshold_interrupt_enabled(&self) -> (r: bool)
        ensures
            r == self.spec_threshold_interrupt_enabled(),
    {
        get_field(self.raw, 6, 1) == 1
    }

    /// Enable interrupt response on conversion complete (RSLT_INT) - bit 7.
    pub fn conversion_complete_interrupt_enabled(&self) -> (r: bool)
        ensures
            r == self.spec_conversion_complete_interrupt_enabled(),
    {
        get_field(self.raw, 7, 1) == 1
    }

    /// This value with `int_pin_disabled` set to `value` and every other field kept.
    pub fn with_int_pin_disabled(self, value: bool) -> (r: Self)
        ensures
            r.spec_int_pin_disabled() == value,
            field(r.bits(), 1, 1) == field(self.bits(), 1, 1),
            r.spec_interrupt_mode() == self.spec_interrupt_mode(),
            r.spec_int_pin_mode() == self.spec_int_pin_mode(),
            r.spec_threshold_interrupt_enabled() == self.spec_threshold_interrupt_enabled(),
            r.spec_conversion_complete_interrupt_enabled() == self.spec_conversion_complete_interrupt_enabled(),
            r.bits() == with_field(self.bits(), 0, 1, (if value { 1u8 } else { 0u8 })),
    {
        let bits: u8 = if value { 1u8 } else { 0u8 };
        proof {
            lemma_with_field(self.raw, 0, 1, bits, 1, 1);
            lemma_with_field(self.raw, 0, 1, bits, 2, 7);
            lemma_with_field(self.raw, 0, 1, bits, 5, 1);
            lemma_with_field(self.raw, 0, 1, bits, 6, 1);
            lemma_with_field(self.raw, 0, 1, bits, 7, 1);
        }
        InterruptConfigRegister { raw: set_field(self.raw, 0, 1, bits) }
    }

    /// This value with `interrupt_mode` set to `value` and every other field kept.
    pub fn with_interrupt_mode(self, value: InterruptMode) -> (r: Self)
        ensures
            r.spec_interrupt_mode() == Ok::<InterruptMode, u8>(value),
            r.spec_int_pin_disabled() == self.spec_int_pin_disabled(),
            field(r.bits(), 1, 1) == field(self.bits(), 1, 1),
            r.spec_int_pin_mode() == self.spec_int_pin_mode(),
            r.spec_threshold_interrupt_enabled() == self.spec_threshold_interrupt_enabled(),
            r.spec_conversion_complete_interrupt_enabled() == self.spec_conversion_complete_interrupt_enabled(),
            r.bits() == with_field(self.bits(), 2, 7, value.bits()),
    {
        let bits: u8 = value.raw_value();
        proof {
            lemma_with_field(self.raw, 2, 7, bits, 0, 1);
            lemma_with_field(self.raw, 2, 7, bits, 1, 1);
            lemma_with_field(self.raw, 2, 7, bits, 5, 1);
            lemma_with_field(self.raw, 2, 7, bits, 6, 1);
            lemma_with_field(self.raw, 2, 7, bits, 7, 1);
        }
        InterruptConfigRegister { raw: set_field(self.raw, 2, 7, bits) }
    }

    /// This value with `int_pin_mode` set to `value` and every other field kept.
    pub fn with_int_pin_mode(self, value: INTPinMode) -> (r: Self)
        ensures
            r.spec_int_pin_mode() == value,
            r.spec_int_pin_disabled() == self.spec_int_pin_disabled(),
            field(r.bits(), 1, 1) == field(self.bits(), 1, 1),
            r.spec_interrupt_mode() == self.spec_interrupt_mode(),
            r.spec_threshold_interrupt_enabled() == self.spec_threshold_interrupt_enabled(),
            r.spec_conversion_complete_interrupt_enabled() == self.spec_conversion_complete_interrupt_enabled(),
            r.bits() == with_field(self.bits(), 5, 1, value.bits()),
    {
        let bits: u8 = value.raw_value();
        proof {
            lemma_with_field(self.raw, 5, 1, bits, 0, 1);
            lemma_with_field(self.raw, 5, 1, bits, 1, 1);
            lemma_with_field(self.raw, 5, 1, bits, 2, 7);
            lemma_with_field(self.raw, 5, 1, bits, 6, 1);
            lemma_with_field(self.raw, 5, 1, bits, 7, 1);
        }
        InterruptConfigRegister { raw: set_field(self.raw, 5, 1, bits) }
    }

    /// This value with `threshold_interrupt_enabled` set to `value` and every other field kept.
    pub fn with_threshold_interrupt_enabled(self, value: bool) -> (r: Self)
        ensures
            r.spec_threshold_interrupt_enabled() == value,
            r.spec_int_pin_disabled() == self.spec_int_pin_disabled(),
            field(r.bits(), 1, 1) == field(self.bits(), 1, 1),
            r.spec_interrupt_mode() == self.spec_interrupt_mode(),
            r.spec_int_pin_mode() == self.spec_int_pin_mode(),
            r.spec_conversion_complete_interrupt_enabled() == self.spec_conversion_complete_interrupt_enabled(),
            r.bits() == with_field(self.bits(), 6, 1, (if value { 1u8 } else { 0u8 })),
    {
        let bits: u8 = if value { 1u8 } else { 0u8 };
        proof {
            lemma_with_field(self.raw, 6, 1, bits, 0, 1);
            lemma_with_field(self.raw, 6, 1, bits, 1, 1);
            lemma_with_field(self.raw, 6, 1, bits, 2, 7);
            lemma_with_field(self.raw, 6, 1, bits, 5, 1);
            lemma_with_field(self.raw, 6, 1, bits, 7, 1);
        }
        InterruptConfigRegister { raw: set_field(self.raw, 6, 1, bits) }
    }

    /// This value with `conversion_complete_interrupt_enabled` set to `value` and every other field kept.
    pub fn with_conversion_complete_interrupt_enabled(self, value: bool) -> (r: Self)
        ensures
            r.spec_conversion_complete_interrupt_enabled() == value,
            r.spec_int_pin_disabled() == self.spec_int_pin_disabled(),
            field(r.bits(), 1, 1) == field(self.bits(), 1, 1),
            r.spec_interrupt_mode() == self.spec_interrupt_mode(),
            r.spec_int_pin_mode() == self.spec_int_pin_mode(),
            r.spec_threshold_interrupt_enabled() == self.spec_threshold_interrupt_enabled(),
            r.bits() == with_field(self.bits(), 7, 1, (if value { 1u8 } else { 0u8 })),
    {
        let bits: u8 = if value { 1u8 } else { 0u8 };
        proof {
            lemma_with_field(self.raw, 7, 1, bits, 0, 1);
            lemma_with_field(self.raw, 7, 1, bits, 1, 1);
            lemma_with_field(self.raw, 7, 1, bits, 2, 7);
            lemma_with_field(self.raw, 7, 1, bits, 5, 1);
            lemma_with_field(self.raw, 7, 1, bits, 6, 1);
        }
        InterruptConfigRegister { raw: set_field(self.raw, 7, 1, bits) }
    }
}

impl Default for InterruptConfigRegister {
    fn default() -> (r: Self)
        ensures
            r.bits() == 0x00,
    {
        InterruptConfigRegister { raw: 0x00 }
    }
}

impl BitFieldDeviceConfiguration for InterruptConfigRegister {
    open spec fn spec_raw_value(&self) -> u8 {
        self.bits()
    }

    closed spec fn spec_new_with_raw_value(raw_value: u8) -> Self {
        InterruptConfigRegister { raw: raw_value }
    }

    open spec fn spec_address() -> TMAG5273Register {
        TMAG5273Register::IntConfig1
    }

    fn raw_value(&self) -> (r: u8)
    {
        self.raw
    }

    fn new_with_raw_value(raw_value: u8) -> (r: Self)
        ensures
            r.bits() == raw_value,
    {
        InterruptConfigRegister { raw: raw_value }
    }

    fn get_address() -> (r: TMAG5273Register)
    {
        TMAG5273Register::IntConfig1
    }

    proof fn lemma_decode_encode(register: Self) {
    }

    proof fn lemma_encode_decode(raw_value: u8) {
    }
}

} // verus!
