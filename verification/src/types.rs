//! Type definitions.

use crate::register::Config;
use vstd::prelude::*;

verus! {

/// Errors in this crate
#[derive(Debug, PartialEq)]
pub enum Error<E> {
    /// I²C bus error
    I2C(E),
    /// Invalid input data provided
    InvalidInputData,
}

/// Clearing or setting the three bits of the field one after another leaves
/// the other bits as they were and the field at the code that was written.
proof fn lemma_data_rate_field(c: u16)
    by (bit_vector)
    ensures
        (((c & !Config::DR2) & !Config::DR1) & !Config::DR0) == (c & !Config::DR) | 0x0000u16,
        (((c & !Config::DR2) & !Config::DR1) | Config::DR0) == (c & !Config::DR) | 0x0020u16,
        (((c & !Config::DR2) | Config::DR1) & !Config::DR0) == (c & !Config::DR) | 0x0040u16,
        (((c & !Config::DR2) | Config::DR1) | Config::DR0) == (c & !Config::DR) | 0x0060u16,
        (((c | Config::DR2) & !Config::DR1) & !Config::DR0) == (c & !Config::DR) | 0x0080u16,
        (((c | Config::DR2) & !Config::DR1) | Config::DR0) == (c & !Config::DR) | 0x00a0u16,
        (((c | Config::DR2) | Config::DR1) & !Config::DR0) == (c & !Config::DR) | 0x00c0u16,
        (((c | Config::DR2) | Config::DR1) | Config::DR0) == (c & !Config::DR) | 0x00e0u16,
{
}

/// Clearing or setting the three bits of the field one after another leaves
/// the other bits as they were and the field at the code that was written.
proof fn lemma_gain_field(c: u16)
    by (bit_vector)
    ensures
        (((c & !Config::PGA2) & !Config::PGA1) & !Config::PGA0) == (c & !Config::PGA) | 0x0000u16,
        (((c & !Config::PGA2) & !Config::PGA1) | Config::PGA0) == (c & !Config::PGA) | 0x0200u16,
        (((c & !Config::PGA2) | Config::PGA1) & !Config::PGA0) == (c & !Config::PGA) | 0x0400u16,
        (((c & !Config::PGA2) | Config::PGA1) | Config::PGA0) == (c & !Config::PGA) | 0x0600u16,
        (((c | Config::PGA2) & !Config::PGA1) & !Config::PGA0) == (c & !Config::PGA) | 0x0800u16,
        (((c | Config::PGA2) & !Config::PGA1) | Config::PGA0) == (c & !Config::PGA) | 0x0a00u16,
        (((c | Config::PGA2) | Config::PGA1) & !Config::PGA0) == (c & !Config::PGA) | 0x0c00u16,
        (((c | Config::PGA2) | Config::PGA1) | Config::PGA0) == (c & !Config::PGA) | 0x0e00u16,
{
}

/// Data rate for ADS1013, ADS1014, ADS1015
#[derive(Debug, Clone, Copy, PartialEq, Eq, Structural, Ord, PartialOrd, Hash)]
pub enum DataRate12Bit {
    /// 128 SPS
    Sps128,
    /// 250 SPS
    Sps250,
    /// 490 SPS
    Sps490,
    /// 920 SPS
    Sps920,
    /// 1600 SPS (default)
    Sps1600,
    /// 2400 SPS
    Sps2400,
    /// 3300 SPS
    Sps3300,
}

impl DataRate12Bit {
    /// The code of the rate, in the place of the data-rate field.
    pub open spec fn bits(self) -> u16 {
        match self {
            DataRate12Bit::Sps128 => 0x0000,
            DataRate12Bit::Sps250 => 0x0020,
            DataRate12Bit::Sps490 => 0x0040,
            DataRate12Bit::Sps920 => 0x0060,
            DataRate12Bit::Sps1600 => 0x0080,
            DataRate12Bit::Sps2400 => 0x00a0,
            DataRate12Bit::Sps3300 => 0x00c0,
        }
    }

    /// The configuration `cfg` with the data-rate field holding the code of
    /// `self` and every other bit unchanged.
    pub open spec fn configured(self, cfg: Config) -> Config {
        Config((cfg.0 & !Config::DR) | self.bits())
    }

    /// Writes the code of `self` into the data-rate field of `cfg`.
    pub fn configure(self, cfg: Config) -> (r: Config)
        ensures
            r == self.configured(cfg),
    {
        proof {
            lemma_data_rate_field(cfg.0);
        }
        match self {
            DataRate12Bit::Sps128 => cfg
                .difference(Config::DR2)
                .difference(Config::DR1)
                .difference(Config::DR0),
            DataRate12Bit::Sps250 => cfg
                .difference(Config::DR2)
                .difference(Config::DR1)
                .union(Config::DR0),
            DataRate12Bit::Sps490 => cfg
                .difference(Config::DR2)
                .union(Config::DR1)
                .difference(Config::DR0),
            DataRate12Bit::Sps920 => cfg
                .difference(Config::DR2)
                .union(Config::DR1)
                .union(Config::DR0),
            DataRate12Bit::Sps1600 => cfg
                .union(Config::DR2)
                .difference(Config::DR1)
                .difference(Config::DR0),
            DataRate12Bit::Sps2400 => cfg
                .union(Config::DR2)
                .difference(Config::DR1)
                .union(Config::DR0),
            DataRate12Bit::Sps3300 => cfg
                .union(Config::DR2)
                .union(Config::DR1)
                .difference(Config::DR0),
        }
    }
}

impl DataRate12Bit {
    /// No rate is written as the code that the device leaves unused, and
    /// writing a rate changes no bit outside the data-rate field.
    pub proof fn lemma_configured_code(self, cfg: Config)
        ensures
            self.configured(cfg).0 & Config::DR == self.bits(),
            self.configured(cfg).0 & Config::DR != Config::DR,
            self.configured(cfg).0 & !Config::DR == cfg.0 & !Config::DR,
    {
        let c = cfg.0;
        let k = self.bits();
        assert(((c & !Config::DR) | k) & Config::DR == k && k != Config::DR && ((c & !Config::DR)
            | k) & !Config::DR == c & !Config::DR) by (bit_vector)
            requires
                k == 0x0000 || k == 0x0020 || k == 0x0040 || k == 0x0060 || k == 0x0080 || k
                    == 0x00a0 || k == 0x00c0,
        ;
    }
}

impl Default for DataRate12Bit {
    fn default() -> (r: Self)
        ensures
            r == DataRate12Bit::Sps1600,
    {
        DataRate12Bit::Sps1600
    }
}

/// Data rate for ADS1113, ADS1114, ADS1115
#[derive(Debug, Clone, Copy, PartialEq, Eq, Structural, Ord, PartialOrd, Hash)]
pub enum DataRate16Bit {
    /// 8 SPS
    Sps8,
    /// 16 SPS
    Sps16,
    /// 32 SPS
    Sps32,
    /// 64 SPS
    Sps64,
    /// 128 SPS (default)
    Sps128,
    /// 250 SPS
    Sps250,
    /// 475 SPS
    Sps475,
    /// 860 SPS
    Sps860,
}

impl DataRate16Bit {
    /// The code of the rate, in the place of the data-rate field.
    pub open spec fn bits(self) -> u16 {
        match self {
            DataRate16Bit::Sps8 => 0x0000,
            DataRate16Bit::Sps16 => 0x0020,
            DataRate16Bit::Sps32 => 0x0040,
            DataRate16Bit::Sps64 => 0x0060,
            DataRate16Bit::Sps128 => 0x0080,
            DataRate16Bit::Sps250 => 0x00a0,
            DataRate16Bit::Sps475 => 0x00c0,
            DataRate16Bit::Sps860 => 0x00e0,
        }
    }

    /// The configuration `cfg` with the data-rate field holding the code of
    /// `self` and every other bit unchanged.
    pub open spec fn configured(self, cfg: Config) -> Config {
        Config((cfg.0 & !Config::DR) | self.bits())
    }

    /// Writes the code of `self` into the data-rate field of `cfg`.
    pub fn configure(self, cfg: Config) -> (r: Config)
        ensures
            r == self.configured(cfg),
    {
        proof {
            lemma_data_rate_field(cfg.0);
        }
        match self {
            DataRate16Bit::Sps8 => cfg
                .difference(Config::DR2)
                .difference(Config::DR1)
                .difference(Config::DR0),
            DataRate16Bit::Sps16 => cfg
                .difference(Config::DR2)
                .difference(Config::DR1)
                .union(Config::DR0),
            DataRate16Bit::Sps32 => cfg
                .difference(Config::DR2)
                .union(Config::DR1)
                .difference(Config::DR0),
            DataRate16Bit::Sps64 => cfg
                .difference(Config::DR2)
                .union(Config::DR1)
                .union(Config::DR0),
            DataRate16Bit::Sps128 => cfg
                .union(Config::DR2)
                .difference(Config::DR1)
                .difference(Config::DR0),
            DataRate16Bit::Sps250 => cfg
                .union(Config::DR2)
                .difference(Config::DR1)
                .union(Config::DR0),
            DataRate16Bit::Sps475 => cfg
                .union(Config::DR2)
                .union(Config::DR1)
                .difference(Config::DR0),
            DataRate16Bit::Sps860 => cfg
                .union(Config::DR2)
                .union(Config::DR1)
                .union(Config::DR0),
        }
    }
}

impl DataRate16Bit {
    /// Writing a rate leaves its code in the data-rate field and changes no
    /// bit outside that field.
    pub proof fn lemma_configured_code(self, cfg: Config)
        ensures
            self.configured(cfg).0 & Config::DR == self.bits(),
            self.configured(cfg).0 & !Config::DR == cfg.0 & !Config::DR,
    {
        let c = cfg.0;
        let k = self.bits();
        assert(((c & !Config::DR) | k) & Config::DR == k && ((c & !Config::DR) | k) & !Config::DR
            == c & !Config::DR) by (bit_vector)
            requires
                k == 0x0000 || k == 0x0020 || k == 0x0040 || k == 0x0060 || k == 0x0080 || k
                    == 0x00a0 || k == 0x00c0 || k == 0x00e0,
        ;
    }
}

impl Default for DataRate16Bit {
    fn default() -> (r: Self)
        ensures
            r == DataRate16Bit::Sps128,
    {
        DataRate16Bit::Sps128
    }
}

/// Comparator mode (only for ADS1x14, ADS1x15)
#[derive(Debug, Clone, Copy, PartialEq, Eq, Structural, Ord, PartialOrd, Hash)]
pub enum ComparatorMode {
    /// Traditional comparator (default)
    ///
    /// In this mode the ALERT/RDY pin asserts (according to selected active
    /// polarity) when the conversion data exceeds the limit set as *high*
    /// threshold and remains active until the conversion data falls below the
    /// value set as *low* threshold.
    Traditional,
    /// Window comparator
    ///
    /// In this mode the ALERT/RDY pin asserts (according to selected active
    /// polarity) when the conversion data exceeds the value set as *high*
    /// threshold or goes below the value set as *low* temperature threshold.
    Window,
}

impl Default for ComparatorMode {
    fn default() -> (r: Self)
        ensures
            r == ComparatorMode::Traditional,
    {
        ComparatorMode::Traditional
    }
}

/// Comparator polarity (only for ADS1x14, ADS1x15)
#[derive(Debug, Clone, Copy, PartialEq, Eq, Structural, Ord, PartialOrd, Hash)]
pub enum ComparatorPolarity {
    /// Active low (default)
    ActiveLow,
    /// Active high
    ActiveHigh,
}

impl Default for ComparatorPolarity {
    fn default() -> (r: Self)
        ensures
            r == ComparatorPolarity::ActiveLow,
    {
        ComparatorPolarity::ActiveLow
    }
}

/// Comparator latching (only for ADS1x14, ADS1x15)
///
/// Select whether the ALERT/RDY pin latches after being asserted or clears
/// after conversions are within the margin of the upper and lower
/// threshold values.
#[derive(Debug, Clone, Copy, PartialEq, Eq, Structural, Ord, PartialOrd, Hash)]
pub enum ComparatorLatching {
    /// Nonlatching (default)
    ///
    /// The ALERT/RDY pin does not latch when asserted.
    Nonlatching,
    /// Latching
    ///
    /// The asserted ALERT/RDY pin remains latched until conversion data are
    /// read by the master or an appropriate SMBus alert response is sent by
    /// the master. The device responds with its address, and it is the lowest
    /// address currently asserting the ALERT/RDY bus line.
    Latching,
}

impl Default for ComparatorLatching {
    fn default() -> (r: Self)
        ensures
            r == ComparatorLatching::Nonlatching,
    {
        ComparatorLatching::Nonlatching
    }
}

/// Comparator alert queue (only for ADS1x14, ADS1x15)
///
/// The default state of the comparator is deactivated. It can be activated by setting
/// the comparator queue.
#[derive(Debug, Clone, Copy, PartialEq, Eq, Structural, Ord, PartialOrd, Hash)]
pub enum ComparatorQueue {
    /// Activate comparator and assert after one conversion exceeding thresholds
    One,
    /// Activate comparator and assert after two consecutive conversions exceeding thresholds
    Two,
    /// Activate comparator and assert after four consecutive conversions exceeding thresholds (default)
    Four,
}

impl Default for ComparatorQueue {
    fn default() -> (r: Self)
        ensures
            r == ComparatorQueue::Four,
    {
        ComparatorQueue::Four
    }
}

/// Full-scale range configuration for the programmable gain amplifier (PGA) (only for ADS1x14, ADS1x15)
///
/// This sets the input voltage measurable range.
/// The FSR is fixed at ±2.048 V in the ADS1x13.
#[derive(Debug, Clone, Copy, PartialEq, Eq, Structural, Ord, PartialOrd, Hash)]
#[allow(non_camel_case_types)]
pub enum FullScaleRange {
    /// ±6.144V
    Within6_144V,
    /// ±4.096V
    Within4_096V,
    /// ±2.048V (default)
    Within2_048V,
    /// ±1.024V
    Within1_024V,
    /// ±0.512V
    Within0_512V,
    /// ±0.256V
    Within0_256V,
}

impl FullScaleRange {
    /// The code of the range, in the place of the gain field.
    pub open spec fn bits(self) -> u16 {
        match self {
            FullScaleRange::Within6_144V => 0x0000,
            FullScaleRange::Within4_096V => 0x0200,
            FullScaleRange::Within2_048V => 0x0400,
            FullScaleRange::Within1_024V => 0x0600,
            FullScaleRange::Within0_512V => 0x0800,
            FullScaleRange::Within0_256V => 0x0a00,
        }
    }

    /// The configuration `cfg` with the gain field holding the code of
    /// `self` and every other bit unchanged.
    pub open spec fn configured(self, cfg: Config) -> Config {
        Config((cfg.0 & !Config::PGA) | self.bits())
    }

    /// Writes the code of `self` into the gain field of `cfg`.
    pub fn configure(self, cfg: Config) -> (r: Config)
        ensures
            r == self.configured(cfg),
    {
        proof {
            lemma_gain_field(cfg.0);
        }
        match self {
            FullScaleRange::Within6_144V => cfg
                .difference(Config::PGA2)
                .difference(Config::PGA1)
                .difference(Config::PGA0),
            FullScaleRange::Within4_096V => cfg
                .difference(Config::PGA2)
                .difference(Config::PGA1)
                .union(Config::PGA0),
            FullScaleRange::Within2_048V => cfg
                .difference(Config::PGA2)
                .union(Config::PGA1)
                .difference(Config::PGA0),
            FullScaleRange::Within1_024V => cfg
                .difference(Config::PGA2)
                .union(Config::PGA1)
                .union(Config::PGA0),
            FullScaleRange::Within0_512V => cfg
                .union(Config::PGA2)
                .difference(Config::PGA1)
                .difference(Config::PGA0),
            FullScaleRange::Within0_256V => cfg
                .union(Config::PGA2)
                .difference(Config::PGA1)
                .union(Config::PGA0),
        }
    }
}

impl FullScaleRange {
    /// The magnitude of the range in millivolts.
    pub open spec fn millivolts(self) -> int {
        match self {
            FullScaleRange::Within6_144V => 6144,
            FullScaleRange::Within4_096V => 4096,
            FullScaleRange::Within2_048V => 2048,
            FullScaleRange::Within1_024V => 1024,
            FullScaleRange::Within0_512V => 512,
            FullScaleRange::Within0_256V => 256,
        }
    }

    /// The magnitude of the range in millivolts.
    pub fn mv(self) -> (r: i32)
        ensures
            r == self.millivolts(),
    {
        match self {
            FullScaleRange::Within6_144V => 6144,
            FullScaleRange::Within4_096V => 4096,
            FullScaleRange::Within2_048V => 2048,
            FullScaleRange::Within1_024V => 1024,
            FullScaleRange::Within0_512V => 512,
            FullScaleRange::Within0_256V => 256,
        }
    }

    /// The range that the gain field of `cfg` selects. The codes above that of
    /// ±0.256V select ±0.256V too.
    pub open spec fn selected(cfg: Config) -> FullScaleRange {
        let field = cfg.0 & Config::PGA;
        if field == 0x0000 {
            FullScaleRange::Within6_144V
        } else if field == 0x0200 {
            FullScaleRange::Within4_096V
        } else if field == 0x0400 {
            FullScaleRange::Within2_048V
        } else if field == 0x0600 {
            FullScaleRange::Within1_024V
        } else if field == 0x0800 {
            FullScaleRange::Within0_512V
        } else {
            FullScaleRange::Within0_256V
        }
    }

    /// Reads the range out of the gain field of `cfg`.
    pub fn from_config(cfg: Config) -> (r: FullScaleRange)
        ensures
            r == FullScaleRange::selected(cfg),
    {
        let field: u16 = cfg.bits() & Config::PGA;
        if field == 0x0000 {
            FullScaleRange::Within6_144V
        } else if field == 0x0200 {
            FullScaleRange::Within4_096V
        } else if field == 0x0400 {
            FullScaleRange::Within2_048V
        } else if field == 0x0600 {
            FullScaleRange::Within1_024V
        } else if field == 0x0800 {
            FullScaleRange::Within0_512V
        } else {
            FullScaleRange::Within0_256V
        }
    }

    /// A range written into a configuration is the range read out of it,
    /// and the bits outside the gain field are those of before.
    pub proof fn lemma_configured_is_selected(self, cfg: Config)
        ensures
            FullScaleRange::selected(self.configured(cfg)) == self,
            self.configured(cfg).0 & Config::PGA == self.bits(),
            self.configured(cfg).0 & !Config::PGA == cfg.0 & !Config::PGA,
    {
        let c = cfg.0;
        let k = self.bits();
        assert(((c & !Config::PGA) | k) & Config::PGA == k && ((c & !Config::PGA) | k)
            & !Config::PGA == c & !Config::PGA) by (bit_vector)
            requires
                k == 0x0000 || k == 0x0200 || k == 0x0400 || k == 0x0600 || k == 0x0800 || k
                    == 0x0a00,
        ;
    }
}

impl Default for FullScaleRange {
    fn default() -> (r: Self)
        ensures
            r == FullScaleRange::Within2_048V,
    {
        FullScaleRange::Within2_048V
    }
}

/// A slave address.
#[derive(Debug, Clone, Copy, PartialEq, Eq, Structural, Ord, PartialOrd, Hash)]
pub enum SlaveAddr {
    /// Address when the ADDR pin is connected to GND. (default)
    Gnd,
    /// Address when the ADDR pin is connected to VDD.
    Vdd,
    /// Address when the ADDR pin is connected to SDA.
    ///
    /// If SDA is used as the device address, hold the SDA line low for at
    /// least 100 ns after the SCL line goes low to make sure the device
    /// decodes the address correctly during I²C communication.
    Sda,
    /// Address when the ADDR pin is connected to SCL.
    Scl,
}

impl SlaveAddr {
    /// The seven-bit bus address that the strap selects.
    pub open spec fn address(self) -> u8 {
        match self {
            SlaveAddr::Gnd => 0x48,
            SlaveAddr::Vdd => 0x49,
            SlaveAddr::Sda => 0x4a,
            SlaveAddr::Scl => 0x4b,
        }
    }

    /// The seven-bit bus address that the strap selects.
    pub fn bits(self) -> (r: u8)
        ensures
            r == self.address(),
    {
        match self {
            SlaveAddr::Gnd => 0b100_1000,
            SlaveAddr::Vdd => 0b100_1001,
            SlaveAddr::Sda => 0b100_1010,
            SlaveAddr::Scl => 0b100_1011,
        }
    }
}

impl Default for SlaveAddr {
    fn default() -> (r: Self)
        ensures
            r == SlaveAddr::Gnd,
    {
        SlaveAddr::Gnd
    }
}

} // verus!
