//! The device handle: the mirrored configuration and its transitions.

use crate::bus::{Reply, Request};
use crate::channel::ChannelSelection;
use crate::measurement::{
    conversion_complete, conversion_replies, lemma_one_shot_reads, polls_then_fetch, requests,
    Phase,
};
use crate::mode::{Continuous, OneShot};
use crate::register::{
    code12, code16, fits12, pattern16, scaled, Config, Conversion12, Conversion16, CONFIG,
    CONVERSION,
};
use crate::types::{Error, FullScaleRange, SlaveAddr};
use vstd::prelude::*;

verus! {

/// The members of the device family.
#[derive(Debug, Clone, Copy, PartialEq, Eq, Structural)]
pub enum Model {
    /// 12 bits, two inputs
    Ads1013,
    /// 12 bits, two inputs, comparator and programmable gain
    Ads1014,
    /// 12 bits, four inputs, comparator and programmable gain
    Ads1015,
    /// 16 bits, two inputs
    Ads1113,
    /// 16 bits, two inputs, comparator and programmable gain
    Ads1114,
    /// 16 bits, four inputs, comparator and programmable gain
    Ads1115,
}

/// The width of a conversion code.
#[derive(Debug, Clone, Copy, PartialEq, Eq, Structural)]
pub enum Resolution {
    /// Twelve bits, in the upper bits of the register
    Bits12,
    /// Sixteen bits
    Bits16,
}

impl Model {
    /// The width of the codes that the model converts to.
    pub open spec fn resolution(self) -> Resolution {
        match self {
            Model::Ads1013 | Model::Ads1014 | Model::Ads1015 => Resolution::Bits12,
            Model::Ads1113 | Model::Ads1114 | Model::Ads1115 => Resolution::Bits16,
        }
    }

    /// Whether the model has the input multiplexer, and with it four inputs.
    pub open spec fn has_multiplexer(self) -> bool {
        self == Model::Ads1015 || self == Model::Ads1115
    }

    /// Whether the model can measure on `ch`. Every model measures input 0
    /// against input 1; the other channels need the multiplexer.
    pub open spec fn supports(self, ch: ChannelSelection) -> bool {
        ch == ChannelSelection::DifferentialA0A1 || self.has_multiplexer()
    }

    /// The width of the codes that the model converts to.
    pub fn conversion_bits(self) -> (r: Resolution)
        ensures
            r == self.resolution(),
    {
        match self {
            Model::Ads1013 | Model::Ads1014 | Model::Ads1015 => Resolution::Bits12,
            Model::Ads1113 | Model::Ads1114 | Model::Ads1115 => Resolution::Bits16,
        }
    }

    /// Whether the model can measure on `ch`.
    pub fn can_measure(self, ch: ChannelSelection) -> (r: bool)
        ensures
            r == self.supports(ch),
    {
        match ch {
            ChannelSelection::DifferentialA0A1 => true,
            _ => match self {
                Model::Ads1015 | Model::Ads1115 => true,
                _ => false,
            },
        }
    }
}

/// A device of the family: its model, its bus address and the mirror of its
/// configuration register. The mirror holds the value that was last written
/// with success, or the power-up value.
pub struct Ads1x1x<MODE> {
    pub model: Model,
    pub address: u8,
    pub config: Config,
    pub mode: MODE,
}

impl<MODE> Ads1x1x<MODE> {
    /// The configuration that selects `ch`, where the mirror does not select
    /// it already.
    pub open spec fn channel_change(self, ch: ChannelSelection) -> Option<Config> {
        if ch.configured(self.config) == self.config {
            None
        } else {
            Some(ch.configured(self.config))
        }
    }

    /// The device with `config` as its mirror.
    pub open spec fn mirroring(self, config: Config) -> Self {
        Ads1x1x { model: self.model, address: self.address, config: config, mode: self.mode }
    }

    /// Decides what selecting `ch` takes: nothing where the mirror selects it
    /// already, else a write of the returned configuration. A channel that
    /// the model lacks is refused.
    ///
    /// **Note:** When changing the channel in continuous conversion mode,
    /// the ongoing conversion will be completed. The following conversions
    /// will use the new channel configuration.
    pub fn select_channel<E>(&self, ch: ChannelSelection) -> (r: Result<Option<Config>, Error<E>>)
        ensures
            self.model.supports(ch) ==> r == Ok::<Option<Config>, Error<E>>(
                self.channel_change(ch),
            ),
            !self.model.supports(ch) ==> r == Err::<Option<Config>, Error<E>>(
                Error::InvalidInputData,
            ),
    {
        if !self.model.can_measure(ch) {
            return Err(Error::InvalidInputData);
        }
        let config = self.config.with_mux_bits(ch);
        if self.config != config {
            Ok(Some(config))
        } else {
            Ok(None)
        }
    }

    /// Takes the outcome of writing `config` to the configuration register:
    /// a write that was done makes `config` the mirror, one that failed
    /// leaves the device as it was and hands the failure on.
    pub fn config_written<E>(&mut self, config: Config, outcome: Result<(), E>) -> (r: Result<
        (),
        Error<E>,
    >)
        ensures
            match outcome {
                Ok(_) => r is Ok && *final(self) == old(self).mirroring(config),
                Err(e) => r == Err::<(), Error<E>>(Error::I2C(e)) && *final(self) == *old(self),
            },
    {
        match outcome {
            Ok(_) => {
                self.config = config;
                Ok(())
            },
            Err(e) => Err(Error::I2C(e)),
        }
    }

    /// Whether `status`, a value read from the configuration register, says
    /// that a measurement is in progress.
    pub fn is_measurement_in_progress(&self, status: u16) -> (r: bool)
        ensures
            r == !conversion_complete(status),
    {
        let config = Config::from_bits_truncate(status);
        !config.contains(Config::OS)
    }

    /// Resets the internal state of this driver to the default values.
    ///
    /// *Note:* This does not alter the state or configuration of the device.
    ///
    /// This resets the cached configuration register value in this driver to
    /// the power-up (reset) configuration of the device. It asks for no
    /// access to the bus.
    pub fn reset_internal_driver_state(&mut self)
        ensures
            *final(self) == old(self).mirroring(Config(Config::POWER_UP)),
    {
        self.config = Config::default();
    }
}

impl<MODE> Ads1x1x<MODE> {
    /// The signed code that the value `raw` of the conversion register holds
    /// on this model.
    pub open spec fn code(self, raw: u16) -> int {
        match self.model.resolution() {
            Resolution::Bits12 => code12(raw),
            Resolution::Bits16 => code16(raw),
        }
    }

    /// The code of `raw` scaled by the range that the mirror selects and by
    /// `unit`, over the code span of this model.
    pub open spec fn voltage(self, raw: u16, unit: int) -> int {
        let millivolts = FullScaleRange::selected(self.config).millivolts();
        match self.model.resolution() {
            Resolution::Bits12 => scaled(code12(raw), millivolts, unit, 2048, 2047),
            Resolution::Bits16 => scaled(code16(raw), millivolts, unit, 32768, 32767),
        }
    }

    /// The register value that holds the comparator threshold `value` on
    /// this model. A value that is no code of the model is refused.
    pub fn threshold<E>(&self, value: i16) -> (r: Result<u16, Error<E>>)
        ensures
            self.model.resolution() == Resolution::Bits12 && !fits12(value as int) ==> r == Err::<
                u16,
                Error<E>,
            >(Error::InvalidInputData),
            self.model.resolution() == Resolution::Bits12 && fits12(value as int) ==> r == Ok::<
                u16,
                Error<E>,
            >(pattern16(value * 16) as u16),
            self.model.resolution() == Resolution::Bits16 ==> r == Ok::<u16, Error<E>>(
                pattern16(value as int) as u16,
            ),
    {
        match self.model.conversion_bits() {
            Resolution::Bits12 => Conversion12::try_convert_threshold(value),
            Resolution::Bits16 => Ok(Conversion16::convert_threshold(value)),
        }
    }

    /// The signed code of the measurement that was read as `raw`.
    pub fn measurement(&self, raw: u16) -> (code: i16)
        ensures
            code == self.code(raw),
    {
        match self.model.conversion_bits() {
            Resolution::Bits12 => Conversion12(raw).convert_measurement(),
            Resolution::Bits16 => Conversion16(raw).convert_measurement(),
        }
    }
}

impl<MODE> Ads1x1x<MODE> {
    /// The measurement that was read as `raw`, in nanovolts.
    pub fn nv(&self, raw: u16) -> (r: i64)
        ensures
            r == self.voltage(raw, 1_000_000),
    {
        let fsr = FullScaleRange::from_config(self.config);
        match self.model.conversion_bits() {
            Resolution::Bits12 => Conversion12(raw).nv(fsr),
            Resolution::Bits16 => Conversion16(raw).nv(fsr),
        }
    }

    /// The measurement that was read as `raw`, in microvolts.
    pub fn uv(&self, raw: u16) -> (r: i32)
        ensures
            r == self.voltage(raw, 1_000),
    {
        let fsr = FullScaleRange::from_config(self.config);
        match self.model.conversion_bits() {
            Resolution::Bits12 => Conversion12(raw).uv(fsr),
            Resolution::Bits16 => Conversion16(raw).uv(fsr),
        }
    }

    /// The measurement that was read as `raw`, in millivolts.
    pub fn mv(&self, raw: u16) -> (r: i16)
        ensures
            r == self.voltage(raw, 1),
    {
        let fsr = FullScaleRange::from_config(self.config);
        match self.model.conversion_bits() {
            Resolution::Bits12 => Conversion12(raw).mv(fsr),
            Resolution::Bits16 => Conversion16(raw).mv(fsr),
        }
    }
}

impl Ads1x1x<OneShot> {
    /// A device as it is after power-up: in one-shot mode, with the power-up
    /// configuration.
    pub fn new(model: Model, address: SlaveAddr) -> (device: Self)
        ensures
            device.model == model,
            device.address == address.address(),
            device.config == Config(Config::POWER_UP),
    {
        Ads1x1x { model, address: address.bits(), config: Config::default(), mode: OneShot }
    }

    /// The configuration to write before the change to continuous mode: the
    /// mirror with the mode bit cleared.
    pub fn continuous_config(&self) -> (config: Config)
        ensures
            config.0 == self.config.0 & !Config::MODE,
    {
        self.config.difference(Config::MODE)
    }

    /// Changes to continuous operating mode, given the outcome of writing
    /// [`Ads1x1x::continuous_config`] to the configuration register.
    ///
    /// On failure, returns a pair of the error and the device as it was.
    pub fn into_continuous<E>(self, outcome: Result<(), E>) -> (r: Result<
        Ads1x1x<Continuous>,
        (Error<E>, Self),
    >)
        ensures
            match outcome {
                Ok(_) => r == Ok::<Ads1x1x<Continuous>, (Error<E>, Self)>(
                    (Ads1x1x {
                        model: self.model,
                        address: self.address,
                        config: Config(self.config.0 & !Config::MODE),
                        mode: Continuous,
                    }),
                ),
                Err(e) => r == Err::<Ads1x1x<Continuous>, (Error<E>, Self)>((Error::I2C(e), self)),
            },
    {
        let config = self.config.difference(Config::MODE);
        match outcome {
            Ok(_) => Ok(
                Ads1x1x { model: self.model, address: self.address, config, mode: Continuous },
            ),
            Err(e) => Err((Error::I2C(e), self)),
        }
    }

    /// Begins a measurement: the conversion is started by writing the mirror
    /// with the start bit set.
    pub fn start_measurement(&self) -> (begin: (Phase, Request))
        ensures
            begin == (
                Phase::Trigger,
                (Request::Write { register: CONFIG, value: self.config.0 | Config::OS }),
            ),
    {
        let config = self.config.union(Config::OS);
        (Phase::Trigger, Request::Write { register: CONFIG, value: config.bits() })
    }
}

impl Ads1x1x<OneShot> {
    /// Every access of a one-shot measurement while it takes `replies` in
    /// order: the write that starts the conversion, then what the replies
    /// lead to.
    pub open spec fn measurement_accesses<E>(self, replies: Seq<Reply<E>>) -> Seq<Request> {
        seq![Request::Write { register: CONFIG, value: self.config.0 | Config::OS }] + requests(
            Phase::Trigger,
            replies,
        )
    }

    /// On a device that reports a running conversion in each of `busy` and
    /// then completion, a one-shot measurement writes the start bit, reads
    /// the status once more than `busy` has entries, then reads the result,
    /// and nothing else.
    pub proof fn lemma_one_shot_accesses<E>(self, busy: Seq<u16>, ready: u16, raw: u16)
        requires
            forall|i: int| 0 <= i < busy.len() ==> !conversion_complete(#[trigger] busy[i]),
            conversion_complete(ready),
        ensures
            self.measurement_accesses(
                seq![Reply::<E>::Written] + conversion_replies::<E>(busy, ready, raw),
            ) == seq![Request::Write { register: CONFIG, value: self.config.0 | Config::OS }]
                + polls_then_fetch(busy.len() + 1),
    {
        lemma_one_shot_reads::<E>(busy, ready, raw);
    }
}

impl Ads1x1x<Continuous> {
    /// The configuration to write before the change to one-shot mode: the
    /// mirror with the mode bit set.
    pub fn one_shot_config(&self) -> (config: Config)
        ensures
            config.0 == self.config.0 | Config::MODE,
    {
        self.config.union(Config::MODE)
    }

    /// Changes to one-shot operating mode, given the outcome of writing
    /// [`Ads1x1x::one_shot_config`] to the configuration register.
    ///
    /// On failure, returns a pair of the error and the device as it was.
    pub fn into_one_shot<E>(self, outcome: Result<(), E>) -> (r: Result<
        Ads1x1x<OneShot>,
        (Error<E>, Self),
    >)
        ensures
            match outcome {
                Ok(_) => r == Ok::<Ads1x1x<OneShot>, (Error<E>, Self)>(
                    (Ads1x1x {
                        model: self.model,
                        address: self.address,
                        config: Config(self.config.0 | Config::MODE),
                        mode: OneShot,
                    }),
                ),
                Err(e) => r == Err::<Ads1x1x<OneShot>, (Error<E>, Self)>((Error::I2C(e), self)),
            },
    {
        let config = self.config.union(Config::MODE);
        match outcome {
            Ok(_) => Ok(
                Ads1x1x { model: self.model, address: self.address, config, mode: OneShot },
            ),
            Err(e) => Err((Error::I2C(e), self)),
        }
    }

    /// Begins a measurement: the device converts on its own, so the latest
    /// result is read at once.
    pub fn start_measurement(&self) -> (begin: (Phase, Request))
        ensures
            begin == (Phase::Fetch, (Request::Read { register: CONVERSION })),
    {
        (Phase::Fetch, Request::Read { register: CONVERSION })
    }
}

impl<MODE> Ads1x1x<MODE> {
    /// Once a channel has been selected, whether that took a write or not,
    /// selecting it again takes no write.
    pub proof fn lemma_select_channel_twice(self, ch: ChannelSelection)
        ensures
            match self.channel_change(ch) {
                Some(config) => self.mirroring(config).channel_change(ch) is None,
                None => self.channel_change(ch) is None,
            },
    {
        ch.lemma_configured_twice(self.config);
    }

    /// Selecting a channel changes no bit of the mirror outside the
    /// multiplexer field, and on a model without the multiplexer a channel
    /// that the model has leaves that field at zero.
    pub proof fn lemma_select_channel_keeps_rest(self, ch: ChannelSelection)
        ensures
            ch.configured(self.config).0 & !Config::MUX == self.config.0 & !Config::MUX,
            self.model.supports(ch) && !self.model.has_multiplexer() ==> ch.configured(
                self.config,
            ).0 & Config::MUX == 0,
    {
        ch.lemma_configured_is_selected(self.config);
    }
}

} // verus!
