//! ADC input channels.

use crate::register::Config;
use vstd::prelude::*;

verus! {

/// ADC input channel selection.
#[derive(Debug, Clone, Copy, PartialEq, Eq, Structural)]
pub enum ChannelSelection {
    /// Measure signal on input channel 0 differentially to signal on input channel 1.
    DifferentialA0A1,
    /// Measure signal on input channel 0 differentially to signal on input channel 3.
    DifferentialA0A3,
    /// Measure signal on input channel 1 differentially to signal on input channel 3.
    DifferentialA1A3,
    /// Measure signal on input channel 2 differentially to signal on input channel 3.
    DifferentialA2A3,
    /// Measure single-ended signal on input channel 0.
    SingleA0,
    /// Measure single-ended signal on input channel 1.
    SingleA1,
    /// Measure single-ended signal on input channel 2.
    SingleA2,
    /// Measure single-ended signal on input channel 3.
    SingleA3,
}

/// Clearing or setting the three multiplexer bits one after another leaves
/// the other bits as they were and the field at the code that was written.
proof fn lemma_multiplexer_field(c: u16)
    by (bit_vector)
    ensures
        (((c & !Config::MUX2) & !Config::MUX1) & !Config::MUX0) == (c & !Config::MUX) | 0x0000u16,
        (((c & !Config::MUX2) & !Config::MUX1) | Config::MUX0) == (c & !Config::MUX) | 0x1000u16,
        (((c & !Config::MUX2) | Config::MUX1) & !Config::MUX0) == (c & !Config::MUX) | 0x2000u16,
        (((c & !Config::MUX2) | Config::MUX1) | Config::MUX0) == (c & !Config::MUX) | 0x3000u16,
        (((c | Config::MUX2) & !Config::MUX1) & !Config::MUX0) == (c & !Config::MUX) | 0x4000u16,
        (((c | Config::MUX2) & !Config::MUX1) | Config::MUX0) == (c & !Config::MUX) | 0x5000u16,
        (((c | Config::MUX2) | Config::MUX1) & !Config::MUX0) == (c & !Config::MUX) | 0x6000u16,
        (((c | Config::MUX2) | Config::MUX1) | Config::MUX0) == (c & !Config::MUX) | 0x7000u16,
{
}

impl ChannelSelection {
    /// The code of the channel, in the place of the multiplexer field.
    pub open spec fn bits(self) -> u16 {
        match self {
            ChannelSelection::DifferentialA0A1 => 0x0000,
            ChannelSelection::DifferentialA0A3 => 0x1000,
            ChannelSelection::DifferentialA1A3 => 0x2000,
            ChannelSelection::DifferentialA2A3 => 0x3000,
            ChannelSelection::SingleA0 => 0x4000,
            ChannelSelection::SingleA1 => 0x5000,
            ChannelSelection::SingleA2 => 0x6000,
            ChannelSelection::SingleA3 => 0x7000,
        }
    }

    /// The configuration `cfg` with the multiplexer field holding the code of
    /// `self` and every other bit unchanged.
    pub open spec fn configured(self, cfg: Config) -> Config {
        Config((cfg.0 & !Config::MUX) | self.bits())
    }

    /// The channel that the multiplexer field of `cfg` selects.
    pub open spec fn selected(cfg: Config) -> ChannelSelection {
        let field = cfg.0 & Config::MUX;
        if field == 0x0000 {
            ChannelSelection::DifferentialA0A1
        } else if field == 0x1000 {
            ChannelSelection::DifferentialA0A3
        } else if field == 0x2000 {
            ChannelSelection::DifferentialA1A3
        } else if field == 0x3000 {
            ChannelSelection::DifferentialA2A3
        } else if field == 0x4000 {
            ChannelSelection::SingleA0
        } else if field == 0x5000 {
            ChannelSelection::SingleA1
        } else if field == 0x6000 {
            ChannelSelection::SingleA2
        } else {
            ChannelSelection::SingleA3
        }
    }

    /// Reads the channel out of the multiplexer field of `cfg`.
    pub fn from_config(cfg: Config) -> (r: ChannelSelection)
        ensures
            r == ChannelSelection::selected(cfg),
    {
        let field: u16 = cfg.bits() & Config::MUX;
        if field == 0x0000 {
            ChannelSelection::DifferentialA0A1
        } else if field == 0x1000 {
            ChannelSelection::DifferentialA0A3
        } else if field == 0x2000 {
            ChannelSelection::DifferentialA1A3
        } else if field == 0x3000 {
            ChannelSelection::DifferentialA2A3
        } else if field == 0x4000 {
            ChannelSelection::SingleA0
        } else if field == 0x5000 {
            ChannelSelection::SingleA1
        } else if field == 0x6000 {
            ChannelSelection::SingleA2
        } else {
            ChannelSelection::SingleA3
        }
    }

    /// A channel written into a configuration is the channel read out of it,
    /// and the bits outside the multiplexer field are those of before.
    pub proof fn lemma_configured_is_selected(self, cfg: Config)
        ensures
            ChannelSelection::selected(self.configured(cfg)) == self,
            self.configured(cfg).0 & !Config::MUX == cfg.0 & !Config::MUX,
            self.configured(cfg).0 & Config::MUX == self.bits(),
    {
        let c = cfg.0;
        let k = self.bits();
        assert(((c & !Config::MUX) | k) & Config::MUX == k && ((c & !Config::MUX) | k)
            & !Config::MUX == c & !Config::MUX) by (bit_vector)
            requires
                k == 0x0000 || k == 0x1000 || k == 0x2000 || k == 0x3000 || k == 0x4000 || k
                    == 0x5000 || k == 0x6000 || k == 0x7000,
        ;
    }

    /// No two channels share a code.
    pub proof fn lemma_codes_distinct(self, other: ChannelSelection)
        ensures
            self.bits() == other.bits() <==> self == other,
            self.bits() & !Config::MUX == 0,
    {
        let k = self.bits();
        assert(k & !Config::MUX == 0) by (bit_vector)
            requires
                k == 0x0000 || k == 0x1000 || k == 0x2000 || k == 0x3000 || k == 0x4000 || k
                    == 0x5000 || k == 0x6000 || k == 0x7000,
        ;
    }

    /// Selecting the channel that is selected already changes nothing.
    pub proof fn lemma_configured_twice(self, cfg: Config)
        ensures
            self.configured(self.configured(cfg)) == self.configured(cfg),
    {
        let c = cfg.0;
        let k = self.bits();
        assert((((c & !Config::MUX) | k) & !Config::MUX) | k == (c & !Config::MUX) | k)
            by (bit_vector);
    }
}

impl Config {
    /// The configuration with the multiplexer field set to the code of `ch`.
    pub fn with_mux_bits(&self, ch: ChannelSelection) -> (r: Config)
        ensures
            r == ch.configured(*self),
    {
        proof {
            lemma_multiplexer_field(self.0);
        }
        match ch {
            ChannelSelection::DifferentialA0A1 => self
                .difference(Config::MUX2)
                .difference(Config::MUX1)
                .difference(Config::MUX0),
            ChannelSelection::DifferentialA0A3 => self
                .difference(Config::MUX2)
                .difference(Config::MUX1)
                .union(Config::MUX0),
            ChannelSelection::DifferentialA1A3 => self
                .difference(Config::MUX2)
                .union(Config::MUX1)
                .difference(Config::MUX0),
            ChannelSelection::DifferentialA2A3 => self
                .difference(Config::MUX2)
                .union(Config::MUX1)
                .union(Config::MUX0),
            ChannelSelection::SingleA0 => self
                .union(Config::MUX2)
                .difference(Config::MUX1)
                .difference(Config::MUX0),
            ChannelSelection::SingleA1 => self
                .union(Config::MUX2)
                .difference(Config::MUX1)
                .union(Config::MUX0),
            ChannelSelection::SingleA2 => self
                .union(Config::MUX2)
                .union(Config::MUX1)
                .difference(Config::MUX0),
            ChannelSelection::SingleA3 => self
                .union(Config::MUX2)
                .union(Config::MUX1)
                .union(Config::MUX0),
        }
    }
}

/// A channel used for measurement.
pub struct Channel<ADC> {
    pub adc: ADC,
}

impl<ADC> Channel<ADC> {
    /// Releases the contained device.
    pub fn release(self) -> (adc: ADC)
        ensures
            adc == self.adc,
    {
        self.adc
    }
}

} // verus!
