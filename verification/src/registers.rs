//! Bit-level codecs for the sensor's registers.
//!
//! Each register is a small value type wrapping the raw byte exactly as
//! the device stores it. Field accessors decode the byte, `with_*`
//! builders re-encode it, and `from_bits` / `into_bits` convert between
//! the typed value and the wire byte. The view of each type is that raw
//! byte, so every contract pins down the precise bit layout.

use vstd::prelude::*;

use crate::error::Error;

verus! {

/// Fixed bus address of the sensor.
pub const ADDR: u16 = 0x13;

/// Command register: eight independent flags.
pub const REG_COMMAND: u8 = 0x80;
/// Product id / revision register.
pub const REG_PRODUCT_ID: u8 = 0x81;
/// Proximity measurement rate register.
pub const REG_PROX_RATE: u8 = 0x82;
/// LED current register.
pub const REG_LED_CURRENT: u8 = 0x83;
/// Ambient light parameter register.
pub const REG_AMBIENT_LIGHT: u8 = 0x84;
/// High byte of the ambient light result.
pub const REG_AMBIENT_LIGHT_RESULT_HIGH: u8 = 0x85;
/// Low byte of the ambient light result.
pub const REG_AMBIENT_LIGHT_RESULT_LOW: u8 = 0x86;
/// High byte of the proximity result.
pub const REG_PROXIMITY_RESULT_HIGH: u8 = 0x87;
/// Low byte of the proximity result.
pub const REG_PROXIMITY_RESULT_LOW: u8 = 0x88;

/// True iff bit `i` of `b` is set.
pub open spec fn bit_set(b: u8, i: u8) -> bool {
    (b >> i) & 1 == 1
}

/// `b` with bit `i` forced to `v`, all other bits unchanged.
pub open spec fn with_bit(b: u8, i: u8, v: bool) -> u8 {
    if v {
        b | (1u8 << i)
    } else {
        b & !(1u8 << i)
    }
}

/// Assembles a 16-bit result from its high and low register bytes,
/// high byte first.
pub fn compose(high: u8, low: u8) -> (r: u16)
    ensures
        r == (high as u16) * 256 + (low as u16),
        r == ((high as u16) << 8) | (low as u16),
{
    let r: u16 = ((high as u16) << 8) | (low as u16);
    proof {
        assert(((high as u16) << 8) | (low as u16) == (high as u16) * 256 + (low as u16))
            by (bit_vector);
    }
    r
}

/// Writing a flag into a register byte and reading it back yields the
/// flag, and leaves every other bit of the byte as it was.
pub proof fn lemma_bit_round_trip(b: u8, i: u8, v: bool)
    requires
        i < 8,
    ensures
        bit_set(with_bit(b, i, v), i) == v,
        forall|j: u8| j < 8 && j != i ==> bit_set(with_bit(b, i, v), j) == bit_set(b, j),
{
    assert(((if v { b | (1u8 << i) } else { b & !(1u8 << i) }) >> i) & 1 == (if v { 1u8 } else { 0u8 })) by (bit_vector)
        requires i < 8,
    ;
    assert(forall|j: u8| j < 8 && j != i ==> ((if v { b | (1u8 << i) } else { b & !(1u8 << i) }) >> j) & 1 == (b >> j) & 1) by (bit_vector)
        requires i < 8,
    ;
}

/// The command register: eight independent flags packed in one byte.
///
/// The data-ready flags and the configuration lock are read-only on the
/// device; writes to those bits are ignored by the hardware, which this
/// type does not (and cannot) enforce.
#[derive(Debug, Clone, Copy, PartialEq, Eq, Structural)]
pub struct SensorCommand {
    bits: u8,
}

impl View for SensorCommand {
    type V = u8;

    closed spec fn view(&self) -> u8 {
        self.bits
    }
}

impl SensorCommand {
    /// The command decoded from a raw register byte.
    pub closed spec fn spec_from_bits(bits: u8) -> SensorCommand {
        SensorCommand { bits }
    }

    /// A command byte with every flag clear.
    pub fn new() -> (r: Self)
        ensures
            r@ == 0u8,
    {
        SensorCommand { bits: 0 }
    }

    /// Decodes a raw register byte.
    pub fn from_bits(bits: u8) -> (r: Self)
        ensures
            r@ == bits,
            r == Self::spec_from_bits(bits),
    {
        SensorCommand { bits }
    }

    /// Encodes back to the raw register byte.
    pub fn into_bits(self) -> (r: u8)
        ensures
            r == self@,
    {
        self.bits
    }

    /// Bit 0: enables self-timed measurements.
    pub fn self_timed_enabled(&self) -> (r: bool)
        ensures
            r == bit_set(self@, 0),
    {
        (self.bits >> 0u8) & 1 == 1
    }

    /// Bit 1: enables proximity measurements.
    pub fn proximity_enabled(&self) -> (r: bool)
        ensures
            r == bit_set(self@, 1),
    {
        (self.bits >> 1u8) & 1 == 1
    }

    /// Bit 2: enables ambient light measurements.
    pub fn ambient_light_enabled(&self) -> (r: bool)
        ensures
            r == bit_set(self@, 2),
    {
        (self.bits >> 2u8) & 1 == 1
    }

    /// Bit 3: starts an on-demand proximity measurement.
    pub fn proximity_on_demand(&self) -> (r: bool)
        ensures
            r == bit_set(self@, 3),
    {
        (self.bits >> 3u8) & 1 == 1
    }

    /// Bit 4: starts an on-demand ambient light measurement.
    pub fn ambient_light_on_demand(&self) -> (r: bool)
        ensures
            r == bit_set(self@, 4),
    {
        (self.bits >> 4u8) & 1 == 1
    }

    /// Bit 5: proximity data is available. Read-only on the device.
    pub fn proximity_data_ready(&self) -> (r: bool)
        ensures
            r == bit_set(self@, 5),
    {
        (self.bits >> 5u8) & 1 == 1
    }

    /// Bit 6: ambient light data is available. Read-only on the device.
    pub fn ambient_light_data_ready(&self) -> (r: bool)
        ensures
            r == bit_set(self@, 6),
    {
        (self.bits >> 6u8) & 1 == 1
    }

    /// Bit 7: configuration lock. Read-only on the device.
    pub fn config_lock(&self) -> (r: bool)
        ensures
            r == bit_set(self@, 7),
    {
        (self.bits >> 7u8) & 1 == 1
    }

    /// Returns the command with bit 0 set to `value`.
    pub fn with_self_timed_enabled(self, value: bool) -> (r: Self)
        ensures
            r@ == with_bit(self@, 0, value),
    {
        SensorCommand { bits: if value { self.bits | (1u8 << 0u8) } else { self.bits & !(1u8 << 0u8) } }
    }

    /// Returns the command with bit 1 set to `value`.
    pub fn with_proximity_enabled(self, value: bool) -> (r: Self)
        ensures
            r@ == with_bit(self@, 1, value),
    {
        SensorCommand { bits: if value { self.bits | (1u8 << 1u8) } else { self.bits & !(1u8 << 1u8) } }
    }

    /// Returns the command with bit 2 set to `value`.
    pub fn with_ambient_light_enabled(self, value: bool) -> (r: Self)
        ensures
            r@ == with_bit(self@, 2, value),
    {
        SensorCommand { bits: if value { self.bits | (1u8 << 2u8) } else { self.bits & !(1u8 << 2u8) } }
    }

    /// Returns the command with bit 3 set to `value`.
    pub fn with_proximity_on_demand(self, value: bool) -> (r: Self)
        ensures
            r@ == with_bit(self@, 3, value),
    {
        SensorCommand { bits: if value { self.bits | (1u8 << 3u8) } else { self.bits & !(1u8 << 3u8) } }
    }

    /// Returns the command with bit 4 set to `value`.
    pub fn with_ambient_light_on_demand(self, value: bool) -> (r: Self)
        ensures
            r@ == with_bit(self@, 4, value),
    {
        SensorCommand { bits: if value { self.bits | (1u8 << 4u8) } else { self.bits & !(1u8 << 4u8) } }
    }

    /// Returns the command with bit 5 set to `value`.
    pub fn with_proximity_data_ready(self, value: bool) -> (r: Self)
        ensures
            r@ == with_bit(self@, 5, value),
    {
        SensorCommand { bits: if value { self.bits | (1u8 << 5u8) } else { self.bits & !(1u8 << 5u8) } }
    }

    /// Returns the command with bit 6 set to `value`.
    pub fn with_ambient_light_data_ready(self, value: bool) -> (r: Self)
        ensures
            r@ == with_bit(self@, 6, value),
    {
        SensorCommand { bits: if value { self.bits | (1u8 << 6u8) } else { self.bits & !(1u8 << 6u8) } }
    }

    /// Returns the command with bit 7 set to `value`.
    pub fn with_config_lock(self, value: bool) -> (r: Self)
        ensures
            r@ == with_bit(self@, 7, value),
    {
        SensorCommand { bits: if value { self.bits | (1u8 << 7u8) } else { self.bits & !(1u8 << 7u8) } }
    }
}

/// Encoding a command and decoding the byte again yields the original
/// command, and decoding a byte re-encodes to the same byte: the codec
/// loses nothing in either direction.
pub proof fn lemma_sensor_command_round_trip(c: SensorCommand, b: u8)
    ensures
        SensorCommand::spec_from_bits(c@) == c,
        SensorCommand::spec_from_bits(b)@ == b,
{
}

/// The product-information register: revision in the low nibble,
/// product id in the high nibble.
#[derive(Debug, Clone, Copy, PartialEq, Eq, Structural)]
pub struct ProductInfo {
    bits: u8,
}

impl View for ProductInfo {
    type V = u8;

    closed spec fn view(&self) -> u8 {
        self.bits
    }
}

/// Product id reported by the supported sensor.
pub const PRODUCT_ID: u8 = 2;

/// Revision reported by the supported sensor.
pub const PRODUCT_REVISION: u8 = 1;

/// The revision nibble of a product-information byte.
pub open spec fn spec_revision(b: u8) -> u8 {
    b & 0x0f
}

/// The product nibble of a product-information byte.
pub open spec fn spec_product(b: u8) -> u8 {
    (b >> 4u8) & 0x0f
}

impl ProductInfo {
    /// The product information decoded from a raw register byte.
    pub closed spec fn spec_from_bits(bits: u8) -> ProductInfo {
        ProductInfo { bits }
    }

    /// A product-information byte of zero.
    pub fn new() -> (r: Self)
        ensures
            r@ == 0u8,
    {
        ProductInfo { bits: 0 }
    }

    /// Decodes a raw register byte.
    pub fn from_bits(bits: u8) -> (r: Self)
        ensures
            r@ == bits,
            r == Self::spec_from_bits(bits),
    {
        ProductInfo { bits }
    }

    /// Encodes back to the raw register byte.
    pub fn into_bits(self) -> (r: u8)
        ensures
            r == self@,
    {
        self.bits
    }

    /// The revision number, from the low nibble.
    pub fn revision(&self) -> (r: u8)
        ensures
            r == spec_revision(self@),
            r < 16,
    {
        proof {
            let b = self.bits;
            assert(b & 0x0f < 16) by (bit_vector);
        }
        self.bits & 0x0f
    }

    /// The product id, from the high nibble.
    pub fn product(&self) -> (r: u8)
        ensures
            r == spec_product(self@),
            r < 16,
    {
        proof {
            let b = self.bits;
            assert((b >> 4u8) & 0x0f < 16) by (bit_vector);
        }
        (self.bits >> 4u8) & 0x0f
    }

    /// Returns the product information with the revision nibble set to
    /// `value`.
    pub fn with_revision(self, value: u8) -> (r: Self)
        requires
            value < 16,
        ensures
            r@ == (self@ & 0xf0) | value,
            spec_revision(r@) == value,
            spec_product(r@) == spec_product(self@),
    {
        proof {
            let b = self.bits;
            assert(value < 16 ==> (((b & 0xf0) | value) & 0x0f == value
                && (((b & 0xf0) | value) >> 4u8) & 0x0f == (b >> 4u8) & 0x0f)) by (bit_vector);
        }
        ProductInfo { bits: (self.bits & 0xf0) | value }
    }

    /// Returns the product information with the product nibble set to
    /// `value`.
    pub fn with_product(self, value: u8) -> (r: Self)
        requires
            value < 16,
        ensures
            r@ == (self@ & 0x0f) | (value << 4u8),
            spec_product(r@) == value,
            spec_revision(r@) == spec_revision(self@),
    {
        proof {
            let b = self.bits;
            assert(value < 16 ==> ((((b & 0x0f) | (value << 4u8)) >> 4u8) & 0x0f == value
                && ((b & 0x0f) | (value << 4u8)) & 0x0f == b & 0x0f)) by (bit_vector);
        }
        ProductInfo { bits: (self.bits & 0x0f) | (value << 4u8) }
    }

    /// Checks the register against the documented identity of the
    /// supported sensor: product 2, revision 1. Succeeds exactly on that
    /// combination; any other fails with the observed values.
    pub fn verify(self) -> (r: Result<Self, Error>)
        ensures
            spec_product(self@) == PRODUCT_ID && spec_revision(self@) == PRODUCT_REVISION ==> r
                == Ok::<Self, Error>(self),
            !(spec_product(self@) == PRODUCT_ID && spec_revision(self@) == PRODUCT_REVISION) ==> r
                == Err::<Self, Error>(Error::InvalidProduct {
                product: spec_product(self@),
                revision: spec_revision(self@),
            }),
    {
        if !(self.product() == PRODUCT_ID && self.revision() == PRODUCT_REVISION) {
            return Err(Error::InvalidProduct { product: self.product(), revision: self.revision() });
        }

        Ok(self)
    }
}

/// Splitting a product-information byte into its nibbles and packing
/// them again yields the byte: the nibble codec loses nothing.
pub proof fn lemma_product_info_round_trip(p: ProductInfo, b: u8)
    ensures
        ProductInfo::spec_from_bits(p@) == p,
        ProductInfo::spec_from_bits(b)@ == b,
        ((spec_product(b) << 4u8) | spec_revision(b)) == b,
{
    assert(((((b >> 4u8) & 0x0f) << 4u8) | (b & 0x0f)) == b) by (bit_vector);
}

/// The LED current register: 6-bit current code (10 mA steps) in the
/// low bits, 2-bit fuse program id in the high bits.
#[derive(Debug, Clone, Copy, PartialEq, Eq, Structural)]
pub struct LEDCurrent {
    bits: u8,
}

impl View for LEDCurrent {
    type V = u8;

    closed spec fn view(&self) -> u8 {
        self.bits
    }
}

/// The largest supported current code (200 mA).
pub const MAX_CURRENT_CODE: u8 = 20;

/// The current code of an LED current byte.
pub open spec fn spec_current(b: u8) -> u8 {
    b & 0x3f
}

/// The fuse program id of an LED current byte.
pub open spec fn spec_fuse_prog_id(b: u8) -> u8 {
    (b >> 6u8) & 0x03
}

/// The current code a milliamp request encodes to: a tenth of the
/// request, rounded down and clamped to the supported maximum.
pub open spec fn spec_current_code_of_ma(ma: u16) -> u8 {
    if ma / 10 > MAX_CURRENT_CODE as u16 {
        MAX_CURRENT_CODE
    } else {
        (ma / 10) as u8
    }
}

impl LEDCurrent {
    /// The LED current decoded from a raw register byte.
    pub closed spec fn spec_from_bits(bits: u8) -> LEDCurrent {
        LEDCurrent { bits }
    }

    /// An LED current byte of zero.
    pub fn new() -> (r: Self)
        ensures
            r@ == 0u8,
    {
        LEDCurrent { bits: 0 }
    }

    /// Decodes a raw register byte.
    pub fn from_bits(bits: u8) -> (r: Self)
        ensures
            r@ == bits,
            r == Self::spec_from_bits(bits),
    {
        LEDCurrent { bits }
    }

    /// Encodes back to the raw register byte.
    pub fn into_bits(self) -> (r: u8)
        ensures
            r == self@,
    {
        self.bits
    }

    /// The current code, from the low six bits.
    pub fn current(&self) -> (r: u8)
        ensures
            r == spec_current(self@),
            r < 64,
    {
        proof {
            let b = self.bits;
            assert(b & 0x3f < 64) by (bit_vector);
        }
        self.bits & 0x3f
    }

    /// The fuse program id, from the high two bits.
    pub fn fuse_prog_id(&self) -> (r: u8)
        ensures
            r == spec_fuse_prog_id(self@),
            r < 4,
    {
        proof {
            let b = self.bits;
            assert((b >> 6u8) & 0x03 < 4) by (bit_vector);
        }
        (self.bits >> 6u8) & 0x03
    }

    /// Returns the register with the current code set to `value`, the
    /// fuse program id unchanged.
    pub fn with_current(self, value: u8) -> (r: Self)
        requires
            value < 64,
        ensures
            r@ == (self@ & 0xc0) | value,
            spec_current(r@) == value,
            spec_fuse_prog_id(r@) == spec_fuse_prog_id(self@),
    {
        proof {
            let b = self.bits;
            assert(value < 64 ==> (((b & 0xc0) | value) & 0x3f == value
                && (((b & 0xc0) | value) >> 6u8) & 0x03 == (b >> 6u8) & 0x03)) by (bit_vector);
        }
        LEDCurrent { bits: (self.bits & 0xc0) | value }
    }

    /// Returns the register with the current code encoding the requested
    /// milliamps: floor-divided by ten and clamped to the supported
    /// 0..=20 code range (0..=200 mA).
    pub fn with_current_ma(self, ma: u16) -> (r: Self)
        ensures
            r@ == (self@ & 0xc0) | spec_current_code_of_ma(ma),
            spec_current(r@) == spec_current_code_of_ma(ma),
            spec_fuse_prog_id(r@) == spec_fuse_prog_id(self@),
    {
        let tenth = ma / 10;
        let val: u8 = if tenth > MAX_CURRENT_CODE as u16 {
            MAX_CURRENT_CODE
        } else {
            tenth as u8
        };
        self.with_current(val)
    }

    /// The drive current in milliamps: ten times the current code.
    pub fn to_milliamps(self) -> (r: u16)
        ensures
            r == spec_current(self@) as u16 * 10,
    {
        self.current() as u16 * 10
    }

    /// Checks the decoded current code against the supported maximum of
    /// 20 (200 mA). Succeeds exactly when the code is within range; a
    /// larger code fails carrying the observed code.
    pub fn verify(self) -> (r: Result<Self, Error>)
        ensures
            spec_current(self@) <= MAX_CURRENT_CODE ==> r == Ok::<Self, Error>(self),
            spec_current(self@) > MAX_CURRENT_CODE ==> r == Err::<Self, Error>(
                Error::InvalidLEDCurrent(spec_current(self@)),
            ),
    {
        if self.current() > MAX_CURRENT_CODE {
            return Err(Error::InvalidLEDCurrent(self.current()));
        }

        Ok(self)
    }
}

/// Splitting an LED current byte into its fields and packing them again
/// yields the byte: the field codec loses nothing.
pub proof fn lemma_led_current_round_trip(c: LEDCurrent, b: u8)
    ensures
        LEDCurrent::spec_from_bits(c@) == c,
        LEDCurrent::spec_from_bits(b)@ == b,
        ((spec_fuse_prog_id(b) << 6u8) | spec_current(b)) == b,
{
    assert(((((b >> 6u8) & 0x03) << 6u8) | (b & 0x3f)) == b) by (bit_vector);
}

/// Proximity measurement rates the sensor supports, in samples per
/// second.
#[derive(Debug, Clone, Copy, PartialEq, Eq, Structural)]
pub enum ProximityMeasurementFrequency {
    /// 1.95 samples/sec
    M1_95,
    /// 3.90625 samples/sec
    M3_90625,
    /// 7.8125 samples/sec
    M7_8125,
    /// 16.625 samples/sec
    M16_625,
    /// 31.25 samples/sec
    M31_25,
    /// 62.5 samples/sec
    M62_5,
    /// 125 samples/sec
    M125,
    /// 250 samples/sec
    M250,
}

impl ProximityMeasurementFrequency {
    /// The register encoding of this rate.
    pub open spec fn spec_value(self) -> u8 {
        match self {
            ProximityMeasurementFrequency::M1_95 => 0,
            ProximityMeasurementFrequency::M3_90625 => 1,
            ProximityMeasurementFrequency::M7_8125 => 2,
            ProximityMeasurementFrequency::M16_625 => 3,
            ProximityMeasurementFrequency::M31_25 => 4,
            ProximityMeasurementFrequency::M62_5 => 5,
            ProximityMeasurementFrequency::M125 => 6,
            ProximityMeasurementFrequency::M250 => 7,
        }
    }

    /// Encodes this rate for the proximity rate register.
    pub fn value(self) -> (r: u8)
        ensures
            r == self.spec_value(),
    {
        match self {
            ProximityMeasurementFrequency::M1_95 => 0,
            ProximityMeasurementFrequency::M3_90625 => 1,
            ProximityMeasurementFrequency::M7_8125 => 2,
            ProximityMeasurementFrequency::M16_625 => 3,
            ProximityMeasurementFrequency::M31_25 => 4,
            ProximityMeasurementFrequency::M62_5 => 5,
            ProximityMeasurementFrequency::M125 => 6,
            ProximityMeasurementFrequency::M250 => 7,
        }
    }
}

/// Ambient light measurement rates the sensor supports, in samples per
/// second.
#[derive(Debug, Clone, Copy, PartialEq, Eq, Structural)]
pub enum AmbientLightMeasurementFrequency {
    /// 1 sample/sec
    M1,
    /// 2 samples/sec
    M2,
    /// 3 samples/sec
    M3,
    /// 4 samples/sec
    M4,
    /// 5 samples/sec
    M5,
    /// 6 samples/sec
    M6,
    /// 8 samples/sec
    M8,
    /// 10 samples/sec
    M10,
}

impl AmbientLightMeasurementFrequency {
    /// The register encoding of this rate.
    pub open spec fn spec_value(self) -> u8 {
        match self {
            AmbientLightMeasurementFrequency::M1 => 0,
            AmbientLightMeasurementFrequency::M2 => 1,
            AmbientLightMeasurementFrequency::M3 => 2,
            AmbientLightMeasurementFrequency::M4 => 3,
            AmbientLightMeasurementFrequency::M5 => 4,
            AmbientLightMeasurementFrequency::M6 => 5,
            AmbientLightMeasurementFrequency::M8 => 6,
            AmbientLightMeasurementFrequency::M10 => 7,
        }
    }

    /// Encodes this rate for the ambient light parameter register.
    pub fn value(self) -> (r: u8)
        ensures
            r == self.spec_value(),
    {
        match self {
            AmbientLightMeasurementFrequency::M1 => 0,
            AmbientLightMeasurementFrequency::M2 => 1,
            AmbientLightMeasurementFrequency::M3 => 2,
            AmbientLightMeasurementFrequency::M4 => 3,
            AmbientLightMeasurementFrequency::M5 => 4,
            AmbientLightMeasurementFrequency::M6 => 5,
            AmbientLightMeasurementFrequency::M8 => 6,
            AmbientLightMeasurementFrequency::M10 => 7,
        }
    }
}

} // verus!
