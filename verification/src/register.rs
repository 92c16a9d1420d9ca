//! Register definitions: addresses, bit fields and conversion codes.

use crate::types::{Error, FullScaleRange};
use vstd::prelude::*;

verus! {

/// A value that mirrors one addressable register of the device.
pub trait Reg<R>: Sized {
    /// Register address.
    const ADDR: u8;

    /// The register value that `self` stands for.
    spec fn reg_value(&self) -> R;

    /// Converts from a register value.
    fn from_reg(reg: R) -> (s: Self)
        ensures
            s.reg_value() == reg,
    ;

    /// Converts to a register value.
    fn to_reg(self) -> (reg: R)
        ensures
            reg == self.reg_value(),
    ;
}

/// Address of the conversion register.
pub const CONVERSION: u8 = 0x00;

/// Address of the configuration register.
pub const CONFIG: u8 = 0x01;

/// Address of the low threshold register.
pub const LO_THRESH: u8 = 0x02;

/// Address of the high threshold register.
pub const HI_THRESH: u8 = 0x03;

/// The signed code held in the upper twelve bits of a register value: the
/// value divided by sixteen, read as a twelve-bit two's-complement number.
pub open spec fn code12(raw: u16) -> int {
    let top = raw as int / 16;
    if top >= 2048 {
        top - 4096
    } else {
        top
    }
}

/// A register value read as a sixteen-bit two's-complement number.
pub open spec fn code16(raw: u16) -> int {
    if raw >= 32768 {
        raw as int - 65536
    } else {
        raw as int
    }
}

/// The sixteen-bit two's-complement pattern of `value`.
pub open spec fn pattern16(value: int) -> int {
    if value < 0 {
        value + 65536
    } else {
        value
    }
}

/// Whether `value` is a code of a twelve-bit device.
pub open spec fn fits12(value: int) -> bool {
    -2048 <= value <= 2047
}

/// A code scaled to a physical unit. The product of the code, the full-scale
/// range in millivolts and the unit's multiplier is divided by the magnitude
/// of the most negative code where it is not positive, and by the most
/// positive code where it is; the quotient is rounded towards zero.
pub open spec fn scaled(code: int, millivolts: int, unit: int, lowest: int, highest: int) -> int {
    let product = code * millivolts * unit;
    if product <= 0 {
        -((-product) / lowest)
    } else {
        product / highest
    }
}

/// The twelve-bit code is the register value shifted right by four bits with
/// its bit 11 copied into the four bits above it.
pub proof fn lemma_code12_is_sign_extension(raw: u16)
    ensures
        code12(raw) == (if (raw >> 4) & 0x0800 != 0 {
            ((raw >> 4) | 0xf000) as i16
        } else {
            (raw >> 4) as i16
        }),
{
    let top = raw >> 4;
    assert(top == raw / 16 && top < 4096) by (bit_vector)
        requires
            top == raw >> 4,
    ;
    assert((top & 0x0800 != 0) <==> top >= 2048) by (bit_vector)
        requires
            top < 4096,
    ;
    assert(top >= 2048 ==> ((top | 0xf000) as i16) == top - 4096) by (bit_vector)
        requires
            top < 4096,
    ;
    assert(top < 2048 ==> (top as i16) == top) by (bit_vector);
}

/// The sixteen-bit code is the register value read as a signed number, and
/// the pattern of that code is the register value again.
pub proof fn lemma_code16_is_reinterpretation(raw: u16)
    ensures
        code16(raw) == raw as i16,
        pattern16(code16(raw)) == raw,
{
    assert((raw as i16) as int == if raw >= 32768 {
        raw - 65536
    } else {
        raw as int
    }) by (bit_vector);
}

/// A twelve-bit code written as a threshold is read back as the same code.
pub proof fn lemma_threshold12_round_trip(value: int)
    requires
        fits12(value),
    ensures
        code12(pattern16(value * 16) as u16) == value,
{
}

/// Divides the product of a code and its multipliers by the span that its
/// sign selects, rounding towards zero.
fn divide_by_span(product: i64, lowest: i64, highest: i64) -> (r: i64)
    requires
        0 < highest < lowest,
        product > i64::MIN,
    ensures
        r == if product <= 0 {
            -((-(product as int)) / (lowest as int))
        } else {
            (product as int) / (highest as int)
        },
        product <= 0 ==> product <= r <= 0,
        product > 0 ==> 0 <= r <= product,
{
    if product <= 0 {
        let magnitude: i64 = -product;
        let q: i64 = magnitude / lowest;
        assert(0 <= q <= magnitude) by (nonlinear_arith)
            requires
                q == magnitude as int / lowest as int,
                magnitude >= 0,
                lowest > 0,
        ;
        -q
    } else {
        let q: i64 = product / highest;
        assert(0 <= q <= product) by (nonlinear_arith)
            requires
                q == product as int / highest as int,
                product > 0,
                highest > 0,
        ;
        q
    }
}

/// 12-bit Conversion register (`0x00`)
#[derive(Debug, Clone, Copy, PartialEq, Eq, Structural)]
pub struct Conversion12(pub u16);

/// 16-bit Conversion register (`0x00`)
#[derive(Debug, Clone, Copy, PartialEq, Eq, Structural)]
pub struct Conversion16(pub u16);

/// Lo_thresh register (`0x02`)
#[derive(Debug, Clone, Copy, PartialEq, Eq, Structural)]
pub struct LoThresh(pub u16);

/// Hi_thresh register (`0x03`)
#[derive(Debug, Clone, Copy, PartialEq, Eq, Structural)]
pub struct HiThresh(pub u16);

impl Reg<u16> for Conversion12 {
    const ADDR: u8 = CONVERSION;

    open spec fn reg_value(&self) -> u16 {
        self.0
    }

    fn from_reg(reg: u16) -> Self {
        Conversion12(reg)
    }

    fn to_reg(self) -> u16 {
        self.0
    }
}

impl Reg<u16> for Conversion16 {
    const ADDR: u8 = CONVERSION;

    open spec fn reg_value(&self) -> u16 {
        self.0
    }

    fn from_reg(reg: u16) -> Self {
        Conversion16(reg)
    }

    fn to_reg(self) -> u16 {
        self.0
    }
}

impl Reg<u16> for LoThresh {
    const ADDR: u8 = LO_THRESH;

    open spec fn reg_value(&self) -> u16 {
        self.0
    }

    fn from_reg(reg: u16) -> Self {
        LoThresh(reg)
    }

    fn to_reg(self) -> u16 {
        self.0
    }
}

impl Reg<u16> for HiThresh {
    const ADDR: u8 = HI_THRESH;

    open spec fn reg_value(&self) -> u16 {
        self.0
    }

    fn from_reg(reg: u16) -> Self {
        HiThresh(reg)
    }

    fn to_reg(self) -> u16 {
        self.0
    }
}

impl Conversion12 {
    /// The register value that holds the threshold `value`: the code in the
    /// upper twelve bits, the lower four bits zero.
    pub fn convert_threshold(value: i16) -> (reg: u16)
        requires
            fits12(value as int),
        ensures
            reg as int == pattern16(value * 16),
            code12(reg) == value,
    {
        let pattern: u16 = #[verifier::truncate] (value as u16);
        let reg: u16 = pattern << 4;
        assert(reg as int == if value < 0 {
            value * 16 + 65536
        } else {
            value * 16
        } && (reg / 16) as int == if value < 0 {
            value + 4096
        } else {
            value as int
        }) by (bit_vector)
            requires
                -2048 <= value <= 2047,
                pattern == value as u16,
                reg == pattern << 4,
        ;
        reg
    }

    /// As [`Conversion12::convert_threshold`], for any `value`: one that is no
    /// twelve-bit code is refused.
    pub fn try_convert_threshold<E>(value: i16) -> (r: Result<u16, Error<E>>)
        ensures
            fits12(value as int) ==> r == Ok::<u16, Error<E>>(pattern16(value * 16) as u16),
            !fits12(value as int) ==> r == Err::<u16, Error<E>>(Error::InvalidInputData),
    {
        if value < -2048 || value > 2047 {
            Err(Error::InvalidInputData)
        } else {
            Ok(Self::convert_threshold(value))
        }
    }

    /// The signed code of the measurement.
    pub fn convert_measurement(self) -> (code: i16)
        ensures
            code == code12(self.0),
    {
        let raw: u16 = self.0;
        let value: u16 = raw >> 4;
        let is_negative: u16 = value >> 11;
        assert(is_negative <= 1 && value == raw / 16 && value < 4096 && (is_negative == 1 <==> value
            >= 2048)) by (bit_vector)
            requires
                value == raw >> 4,
                is_negative == value >> 11,
        ;
        let extended: u16 = (0b1111_0000_0000_0000 * is_negative) | value;
        let code: i16 = #[verifier::truncate] (extended as i16);
        assert(code as int == if value >= 2048 {
            value - 4096
        } else {
            value as int
        }) by (bit_vector)
            requires
                value < 4096,
                is_negative == 1 <==> value >= 2048,
                is_negative <= 1,
                extended == (0b1111_0000_0000_0000u16 * is_negative) as u16 | value,
                code == extended as i16,
        ;
        code
    }

    /// The measurement in nanovolts.
    pub fn nv(self, fsr: FullScaleRange) -> (r: i64)
        ensures
            r == scaled(code12(self.0), fsr.millivolts(), 1_000_000, 2048, 2047),
    {
        let code: i64 = self.convert_measurement() as i64;
        let mv: i64 = fsr.mv() as i64;
        assert(-2048 * 6144 <= code * mv <= 2047 * 6144) by (nonlinear_arith)
            requires
                -2048 <= code <= 2047,
                0 < mv <= 6144,
        ;
        let data: i64 = code * mv * 1_000_000;
        divide_by_span(data, 2048, 2047)
    }

    /// The measurement in microvolts.
    pub fn uv(self, fsr: FullScaleRange) -> (r: i32)
        ensures
            r == scaled(code12(self.0), fsr.millivolts(), 1_000, 2048, 2047),
    {
        let code: i64 = self.convert_measurement() as i64;
        let mv: i64 = fsr.mv() as i64;
        assert(-2048 * 6144 <= code * mv <= 2047 * 6144) by (nonlinear_arith)
            requires
                -2048 <= code <= 2047,
                0 < mv <= 6144,
        ;
        let data: i64 = code * mv * 1_000;
        divide_by_span(data, 2048, 2047) as i32
    }

    /// The measurement in millivolts.
    pub fn mv(self, fsr: FullScaleRange) -> (r: i16)
        ensures
            r == scaled(code12(self.0), fsr.millivolts(), 1, 2048, 2047),
    {
        let code: i64 = self.convert_measurement() as i64;
        let mv: i64 = fsr.mv() as i64;
        assert(-2048 * 6144 <= code * mv <= 2047 * 6144) by (nonlinear_arith)
            requires
                -2048 <= code <= 2047,
                0 < mv <= 6144,
        ;
        let data: i64 = code * mv;
        assert(data * 1 == data);
        let q: i64 = divide_by_span(data, 2048, 2047);
        q as i16
    }
}

impl Conversion16 {
    /// The register value that holds the threshold `value`: its
    /// two's-complement pattern.
    pub fn convert_threshold(value: i16) -> (reg: u16)
        ensures
            reg as int == pattern16(value as int),
            code16(reg) == value,
    {
        let reg: u16 = #[verifier::truncate] (value as u16);
        assert(reg as int == if value < 0 {
            value + 65536
        } else {
            value as int
        }) by (bit_vector)
            requires
                reg == value as u16,
        ;
        reg
    }

    /// The signed code of the measurement.
    pub fn convert_measurement(self) -> (code: i16)
        ensures
            code == code16(self.0),
    {
        let raw: u16 = self.0;
        let code: i16 = #[verifier::truncate] (raw as i16);
        assert(code as int == if raw >= 32768 {
            raw - 65536
        } else {
            raw as int
        }) by (bit_vector)
            requires
                code == raw as i16,
        ;
        code
    }

    /// The measurement in nanovolts.
    pub fn nv(self, fsr: FullScaleRange) -> (r: i64)
        ensures
            r == scaled(code16(self.0), fsr.millivolts(), 1_000_000, 32768, 32767),
    {
        let code: i64 = self.convert_measurement() as i64;
        let mv: i64 = fsr.mv() as i64;
        assert(-32768 * 6144 <= code * mv <= 32767 * 6144) by (nonlinear_arith)
            requires
                -32768 <= code <= 32767,
                0 < mv <= 6144,
        ;
        let data: i64 = code * mv * 1_000_000;
        divide_by_span(data, 32768, 32767)
    }

    /// The measurement in microvolts.
    pub fn uv(self, fsr: FullScaleRange) -> (r: i32)
        ensures
            r == scaled(code16(self.0), fsr.millivolts(), 1_000, 32768, 32767),
    {
        let code: i64 = self.convert_measurement() as i64;
        let mv: i64 = fsr.mv() as i64;
        assert(-32768 * 6144 <= code * mv <= 32767 * 6144) by (nonlinear_arith)
            requires
                -32768 <= code <= 32767,
                0 < mv <= 6144,
        ;
        let data: i64 = code * mv * 1_000;
        divide_by_span(data, 32768, 32767) as i32
    }

    /// The measurement in millivolts.
    pub fn mv(self, fsr: FullScaleRange) -> (r: i16)
        ensures
            r == scaled(code16(self.0), fsr.millivolts(), 1, 32768, 32767),
    {
        let code: i64 = self.convert_measurement() as i64;
        let mv: i64 = fsr.mv() as i64;
        assert(-32768 * 6144 <= code * mv <= 32767 * 6144) by (nonlinear_arith)
            requires
                -32768 <= code <= 32767,
                0 < mv <= 6144,
        ;
        let data: i64 = code * mv;
        assert(data * 1 == data);
        let q: i64 = divide_by_span(data, 32768, 32767);
        q as i16
    }
}

/// Config register (`0x01`)
#[derive(Debug, Clone, Copy, PartialEq, Eq, Structural)]
pub struct Config(pub u16);

impl Config {
    /// Operational status or single-shot conversion start
    pub const OS: u16 = 0b10000000_00000000;

    /// Input multiplexer configuration bit 2 (ADS1115 only)
    pub const MUX2: u16 = 0b01000000_00000000;

    /// Input multiplexer configuration bit 1 (ADS1115 only)
    pub const MUX1: u16 = 0b00100000_00000000;

    /// Input multiplexer configuration bit 0 (ADS1115 only)
    pub const MUX0: u16 = 0b00010000_00000000;

    /// Programmable gain amplifier configuration bit 2
    pub const PGA2: u16 = 0b00001000_00000000;

    /// Programmable gain amplifier configuration bit 1
    pub const PGA1: u16 = 0b00000100_00000000;

    /// Programmable gain amplifier configuration bit 0
    pub const PGA0: u16 = 0b00000010_00000000;

    /// Device operating mode
    pub const MODE: u16 = 0b00000001_00000000;

    /// Data rate bit 2
    pub const DR2: u16 = 0b00000000_10000000;

    /// Data rate bit 1
    pub const DR1: u16 = 0b00000000_01000000;

    /// Data rate bit 0
    pub const DR0: u16 = 0b00000000_00100000;

    /// Comparator mode (ADS1114 and ADS1115 only)
    pub const COMP_MODE: u16 = 0b00000000_00010000;

    /// Comparator polarity (ADS1114 and ADS1115 only)
    pub const COMP_POL: u16 = 0b00000000_00001000;

    /// Latching comparator (ADS1114 and ADS1115 only)
    pub const COMP_LAT: u16 = 0b00000000_00000100;

    /// Comparator queue and disable bit 1 (ADS1114 and ADS1115 only)
    pub const COMP_QUE1: u16 = 0b00000000_00000010;

    /// Comparator queue and disable bit 0 (ADS1114 and ADS1115 only)
    pub const COMP_QUE0: u16 = 0b00000000_00000001;

    /// Input multiplexer configuration (ADS1115 only)
    pub const MUX: u16 = 0b01110000_00000000;

    /// Programmable gain amplifier configuration
    pub const PGA: u16 = 0b00001110_00000000;

    /// Data rate
    pub const DR: u16 = 0b00000000_11100000;

    /// Comparator queue and disable (ADS1114 and ADS1115 only)
    pub const COMP_QUE: u16 = 0b00000000_00000011;

    /// The value of the register after power-up: no conversion running,
    /// ±2.048V, one-shot mode, the middle data rate, comparator disabled.
    pub const POWER_UP: u16 = 0b10000101_10000011;

    /// The configuration with the given bits. Every bit of the register has a
    /// meaning, so none is dropped.
    pub fn from_bits_truncate(bits: u16) -> (r: Config)
        ensures
            r.0 == bits,
    {
        Config(bits)
    }

    /// The bits of the configuration.
    pub fn bits(self) -> (r: u16)
        ensures
            r == self.0,
    {
        self.0
    }

    /// The configuration with the bits of `flags` set as well.
    pub fn union(self, flags: u16) -> (r: Config)
        ensures
            r.0 == self.0 | flags,
    {
        Config(self.0 | flags)
    }

    /// The configuration with the bits of `flags` cleared.
    pub fn difference(self, flags: u16) -> (r: Config)
        ensures
            r.0 == self.0 & !flags,
    {
        Config(self.0 & !flags)
    }

    /// Whether every bit of `flags` is set.
    pub fn contains(self, flags: u16) -> (r: bool)
        ensures
            r == (self.0 & flags == flags),
    {
        self.0 & flags == flags
    }
}

impl Default for Config {
    fn default() -> (r: Self)
        ensures
            r.0 == Config::POWER_UP,
    {
        let r = Config(0).union(Config::OS).union(Config::PGA1).union(Config::MODE).union(
            Config::DR2,
        ).union(Config::COMP_QUE1).union(Config::COMP_QUE0);
        assert(0u16 | Config::OS | Config::PGA1 | Config::MODE | Config::DR2 | Config::COMP_QUE1
            | Config::COMP_QUE0 == Config::POWER_UP) by (bit_vector);
        r
    }
}

impl Reg<u16> for Config {
    const ADDR: u8 = CONFIG;

    open spec fn reg_value(&self) -> u16 {
        self.0
    }

    fn from_reg(reg: u16) -> Self {
        Config::from_bits_truncate(reg)
    }

    fn to_reg(self) -> u16 {
        self.bits()
    }
}

} // verus!
