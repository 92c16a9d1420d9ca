use ads1x1x::error;
use ads1x1x::mode::{Continuous, OneShot};
use ads1x1x::{
    Ads1x1x, Channel, ChannelSelection, Config, Error, FullScaleRange, Model, Phase, Progress,
    Reply, Request, Resolution, SlaveAddr,
};

const CHANNELS: [ChannelSelection; 8] = [
    ChannelSelection::DifferentialA0A1,
    ChannelSelection::DifferentialA0A3,
    ChannelSelection::DifferentialA1A3,
    ChannelSelection::DifferentialA2A3,
    ChannelSelection::SingleA0,
    ChannelSelection::SingleA1,
    ChannelSelection::SingleA2,
    ChannelSelection::SingleA3,
];

const MODELS: [Model; 6] = [
    Model::Ads1013,
    Model::Ads1014,
    Model::Ads1015,
    Model::Ads1113,
    Model::Ads1114,
    Model::Ads1115,
];

/// A device behind a bus that counts its accesses, reports a running
/// conversion for a number of status reads and can be made to fail.
struct Stub {
    config: u16,
    conversion: u16,
    busy_polls: u32,
    fail_at: Option<usize>,
    log: Vec<Request>,
}

impl Stub {
    fn new(conversion: u16, busy_polls: u32) -> Stub {
        Stub {
            config: 0x8583,
            conversion,
            busy_polls,
            fail_at: None,
            log: Vec::new(),
        }
    }

    fn write(&mut self, register: u8, value: u16) -> Result<(), u8> {
        self.log.push(Request::Write { register, value });
        if self.fail_at == Some(self.log.len() - 1) {
            return Err(7);
        }
        assert_eq!(0x01, register);
        self.config = value;
        Ok(())
    }

    fn read(&mut self, register: u8) -> Result<u16, u8> {
        self.log.push(Request::Read { register });
        if self.fail_at == Some(self.log.len() - 1) {
            return Err(7);
        }
        if register == 0x01 {
            if self.busy_polls > 0 {
                self.busy_polls -= 1;
                Ok(self.config & !Config::OS)
            } else {
                Ok(self.config | Config::OS)
            }
        } else {
            assert_eq!(0x00, register);
            assert_eq!(0, self.busy_polls);
            Ok(self.conversion)
        }
    }

    fn perform(&mut self, request: Request) -> Reply<u8> {
        match request {
            Request::Write { register, value } => Reply::from_write(self.write(register, value)),
            Request::Read { register } => Reply::from_read(self.read(register)),
        }
    }

    fn run(&mut self, begin: (Phase, Request)) -> Result<u16, error::Error<u8>> {
        let (mut phase, mut request) = begin;
        loop {
            let reply = self.perform(request);
            match phase.advance(reply) {
                Progress::Continue(next, following) => {
                    phase = next;
                    request = following;
                }
                Progress::Finished(result) => return result,
            }
        }
    }
}

fn select(device: &mut Ads1x1x<OneShot>, stub: &mut Stub, ch: ChannelSelection) -> Result<(), Error<u8>> {
    if let Some(config) = device.select_channel::<u8>(ch)? {
        let outcome = stub.write(0x01, config.bits());
        device.config_written(config, outcome)?;
    }
    Ok(())
}

#[test]
fn mux_table() {
    for (code, ch) in CHANNELS.into_iter().enumerate() {
        let field = (code as u16) << 12;
        assert_eq!(
            field,
            Config::from_bits_truncate(0).with_mux_bits(ch).bits()
        );
        assert_eq!(
            0x8FFF | field,
            Config::from_bits_truncate(0xFFFF).with_mux_bits(ch).bits()
        );
        assert_eq!(
            0x8583 | field,
            Config::default().with_mux_bits(ch).bits()
        );
    }
}

#[test]
fn mux_table_is_injective_and_decodes() {
    for a in CHANNELS {
        for b in CHANNELS {
            let ca = Config::default().with_mux_bits(a);
            let cb = Config::default().with_mux_bits(b);
            assert_eq!(a == b, ca == cb);
        }
        for raw in [0u16, 0x8583, 0xFFFF, 0x7000, 0x1234] {
            let config = Config::from_bits_truncate(raw).with_mux_bits(a);
            assert_eq!(a, ChannelSelection::from_config(config));
            assert_eq!(raw & !Config::MUX, config.bits() & !Config::MUX);
        }
    }
}

#[test]
fn model_capabilities() {
    for model in MODELS {
        let four_inputs = model == Model::Ads1015 || model == Model::Ads1115;
        for ch in CHANNELS {
            assert_eq!(
                ch == ChannelSelection::DifferentialA0A1 || four_inputs,
                model.can_measure(ch)
            );
        }
    }
    assert_eq!(Resolution::Bits12, Model::Ads1013.conversion_bits());
    assert_eq!(Resolution::Bits12, Model::Ads1014.conversion_bits());
    assert_eq!(Resolution::Bits12, Model::Ads1015.conversion_bits());
    assert_eq!(Resolution::Bits16, Model::Ads1113.conversion_bits());
    assert_eq!(Resolution::Bits16, Model::Ads1114.conversion_bits());
    assert_eq!(Resolution::Bits16, Model::Ads1115.conversion_bits());
}

#[test]
fn new_device_is_in_power_up_state() {
    let device = Ads1x1x::new(Model::Ads1115, SlaveAddr::Sda);
    assert_eq!(0x4A, device.address);
    assert_eq!(0x8583, device.config.bits());
    assert_eq!(Model::Ads1115, device.model);
    assert_eq!(0x48, Ads1x1x::new(Model::Ads1013, SlaveAddr::default()).address);
    assert_eq!(0x49, Ads1x1x::new(Model::Ads1013, SlaveAddr::Vdd).address);
    assert_eq!(0x4B, Ads1x1x::new(Model::Ads1013, SlaveAddr::Scl).address);
}

#[test]
fn select_channel_writes_once() {
    let mut device = Ads1x1x::new(Model::Ads1115, SlaveAddr::default());
    let mut stub = Stub::new(0, 0);
    assert_eq!(Ok(()), select(&mut device, &mut stub, ChannelSelection::SingleA2));
    assert_eq!(
        vec![Request::Write { register: 0x01, value: 0xE583 }],
        stub.log
    );
    assert_eq!(0xE583, device.config.bits());
    assert_eq!(Ok(()), select(&mut device, &mut stub, ChannelSelection::SingleA2));
    assert_eq!(1, stub.log.len());
    assert_eq!(0xE583, device.config.bits());
    assert_eq!(Ok(None), device.select_channel::<u8>(ChannelSelection::SingleA2));
}

#[test]
fn select_default_channel_writes_nothing() {
    for model in MODELS {
        let mut device = Ads1x1x::new(model, SlaveAddr::default());
        let mut stub = Stub::new(0, 0);
        assert_eq!(
            Ok(()),
            select(&mut device, &mut stub, ChannelSelection::DifferentialA0A1)
        );
        assert!(stub.log.is_empty());
        assert_eq!(0x8583, device.config.bits());
    }
}

#[test]
fn select_channel_refuses_what_the_model_lacks() {
    for model in [Model::Ads1013, Model::Ads1014, Model::Ads1113, Model::Ads1114] {
        let device = Ads1x1x::new(model, SlaveAddr::default());
        for ch in CHANNELS {
            let planned = device.select_channel::<u8>(ch);
            if ch == ChannelSelection::DifferentialA0A1 {
                assert_eq!(Ok(None), planned);
            } else {
                assert_eq!(Err(Error::InvalidInputData), planned);
            }
        }
    }
}

#[test]
fn select_channel_failure_keeps_mirror() {
    let mut device = Ads1x1x::new(Model::Ads1015, SlaveAddr::default());
    let mut stub = Stub::new(0, 0);
    stub.fail_at = Some(0);
    assert_eq!(
        Err(Error::I2C(7)),
        select(&mut device, &mut stub, ChannelSelection::SingleA3)
    );
    assert_eq!(0x8583, device.config.bits());
    assert_eq!(0x48, device.address);
    assert_eq!(Model::Ads1015, device.model);
    // The next attempt writes again.
    assert_eq!(Ok(()), select(&mut device, &mut stub, ChannelSelection::SingleA3));
    assert_eq!(2, stub.log.len());
    assert_eq!(0xF583, device.config.bits());
}

#[test]
fn mode_transitions() {
    let device = Ads1x1x::new(Model::Ads1114, SlaveAddr::Vdd);
    assert_eq!(0x8483, device.continuous_config().bits());
    let device: Ads1x1x<Continuous> = match device.into_continuous::<u8>(Ok(())) {
        Ok(device) => device,
        Err(_) => panic!("the write was done"),
    };
    assert_eq!(0x8483, device.config.bits());
    assert_eq!(0x49, device.address);
    assert_eq!(Model::Ads1114, device.model);
    assert_eq!(0x8583, device.one_shot_config().bits());
    let device: Ads1x1x<OneShot> = match device.into_one_shot::<u8>(Ok(())) {
        Ok(device) => device,
        Err(_) => panic!("the write was done"),
    };
    assert_eq!(0x8583, device.config.bits());
    assert_eq!(0x49, device.address);
}

#[test]
fn failed_mode_transition_returns_device_unchanged() {
    let device = Ads1x1x::new(Model::Ads1015, SlaveAddr::Scl);
    let device = match device.into_continuous(Err(3u8)) {
        Ok(_) => panic!("the write failed"),
        Err((e, device)) => {
            assert_eq!(Error::I2C(3), e);
            device
        }
    };
    assert_eq!(0x8583, device.config.bits());
    assert_eq!(0x4B, device.address);
    let device = match device.into_continuous::<u8>(Ok(())) {
        Ok(device) => device,
        Err(_) => panic!("the write was done"),
    };
    match device.into_one_shot(Err(4u8)) {
        Ok(_) => panic!("the write failed"),
        Err((e, device)) => {
            assert_eq!(Error::I2C(4), e);
            assert_eq!(0x8483, device.config.bits());
            assert_eq!(Model::Ads1015, device.model);
        }
    }
}

#[test]
fn reset_restores_power_up_configuration() {
    for raw in [0u16, 0x8583, 0xFFFF, 0x1234, 0x7000] {
        let mut device = Ads1x1x::new(Model::Ads1115, SlaveAddr::Sda);
        device.config = Config::from_bits_truncate(raw);
        device.reset_internal_driver_state();
        assert_eq!(0x8583, device.config.bits());
        assert_eq!(0x4A, device.address);
        assert_eq!(Model::Ads1115, device.model);
    }
    let device = Ads1x1x::new(Model::Ads1113, SlaveAddr::default());
    let mut device = match device.into_continuous::<u8>(Ok(())) {
        Ok(device) => device,
        Err(_) => panic!("the write was done"),
    };
    device.reset_internal_driver_state();
    assert_eq!(0x8583, device.config.bits());
}

#[test]
fn status_bit_tells_progress() {
    let device = Ads1x1x::new(Model::Ads1014, SlaveAddr::default());
    assert!(device.is_measurement_in_progress(0x0583));
    assert!(device.is_measurement_in_progress(0x7FFF));
    assert!(!device.is_measurement_in_progress(0x8583));
    assert!(!device.is_measurement_in_progress(0x8000));
}

#[test]
fn one_shot_polls_until_complete() {
    for busy in [0u32, 1, 2, 5, 40] {
        let mut device = Ads1x1x::new(Model::Ads1115, SlaveAddr::default());
        let mut stub = Stub::new(0x1234, busy);
        assert_eq!(Ok(()), select(&mut device, &mut stub, ChannelSelection::SingleA1));
        stub.log.clear();
        let raw = match stub.run(device.start_measurement()) {
            Ok(raw) => raw,
            Err(_) => panic!("the bus did not fail"),
        };
        assert_eq!(0x1234, raw);
        let n = busy as usize;
        assert_eq!(n + 3, stub.log.len());
        assert_eq!(
            Request::Write { register: 0x01, value: 0xD583 },
            stub.log[0]
        );
        for i in 0..=n {
            assert_eq!(Request::Read { register: 0x01 }, stub.log[1 + i]);
        }
        assert_eq!(Request::Read { register: 0x00 }, stub.log[n + 2]);
    }
}

#[test]
fn one_shot_sets_start_bit() {
    let mut device = Ads1x1x::new(Model::Ads1013, SlaveAddr::default());
    device.config = Config::from_bits_truncate(0x0583);
    let (phase, request) = device.start_measurement();
    assert_eq!(Phase::Trigger, phase);
    assert_eq!(Request::Write { register: 0x01, value: 0x8583 }, request);
    // The mirror is not touched by a measurement.
    assert_eq!(0x0583, device.config.bits());
}

#[test]
fn continuous_reads_at_once() {
    let device = Ads1x1x::new(Model::Ads1015, SlaveAddr::default());
    let device = match device.into_continuous::<u8>(Ok(())) {
        Ok(device) => device,
        Err(_) => panic!("the write was done"),
    };
    let mut stub = Stub::new(0x7FF0, 0);
    let raw = match stub.run(device.start_measurement()) {
        Ok(raw) => raw,
        Err(_) => panic!("the bus did not fail"),
    };
    assert_eq!(0x7FF0, raw);
    assert_eq!(vec![Request::Read { register: 0x00 }], stub.log);
    assert_eq!(2047, device.measurement(raw));
}

#[test]
fn bus_failure_ends_measurement() {
    for fail_at in 0usize..5 {
        let device = Ads1x1x::new(Model::Ads1115, SlaveAddr::default());
        let mut stub = Stub::new(0x0001, 2);
        stub.fail_at = Some(fail_at);
        match stub.run(device.start_measurement()) {
            Ok(_) => panic!("the bus failed"),
            Err(error::Error::Bus(e)) => assert_eq!(7, e),
        }
        assert_eq!(fail_at + 1, stub.log.len());
        assert!(!stub.log.contains(&Request::Read { register: 0x00 }) || fail_at == 4);
    }
}

#[test]
fn advance_step_by_step() {
    let written: Progress<u8> = Phase::Trigger.advance(Reply::Written);
    assert!(matches!(
        written,
        Progress::Continue(Phase::Poll, Request::Read { register: 0x01 })
    ));
    let busy: Progress<u8> = Phase::Poll.advance(Reply::Value(0x0583));
    assert!(matches!(
        busy,
        Progress::Continue(Phase::Poll, Request::Read { register: 0x01 })
    ));
    let ready: Progress<u8> = Phase::Poll.advance(Reply::Value(0x8000));
    assert!(matches!(
        ready,
        Progress::Continue(Phase::Fetch, Request::Read { register: 0x00 })
    ));
    let fetched: Progress<u8> = Phase::Fetch.advance(Reply::Value(0x0583));
    assert!(matches!(fetched, Progress::Finished(Ok(0x0583))));
    let fetched: Progress<u8> = Phase::Fetch.advance(Reply::Value(0x8000));
    assert!(matches!(fetched, Progress::Finished(Ok(0x8000))));
    for phase in [Phase::Trigger, Phase::Poll, Phase::Fetch] {
        let failed: Progress<u8> = phase.advance(Reply::Failed(9));
        assert!(matches!(
            failed,
            Progress::Finished(Err(error::Error::Bus(9)))
        ));
    }
}

#[test]
fn device_decodes_by_resolution() {
    let twelve = Ads1x1x::new(Model::Ads1015, SlaveAddr::default());
    let sixteen = Ads1x1x::new(Model::Ads1115, SlaveAddr::default());
    assert_eq!(-1, twelve.measurement(0xFFFF));
    assert_eq!(-1, sixteen.measurement(0xFFFF));
    assert_eq!(2047, twelve.measurement(0x7FFF));
    assert_eq!(32767, sixteen.measurement(0x7FFF));
    assert_eq!(-2048, twelve.measurement(0x8000));
    assert_eq!(-32768, sixteen.measurement(0x8000));
}

#[test]
fn device_scales_by_mirrored_range() {
    let mut device = Ads1x1x::new(Model::Ads1015, SlaveAddr::default());
    device.config = FullScaleRange::Within6_144V.configure(device.config);
    assert_eq!(6_144_000_000, device.nv(0x7FFF));
    assert_eq!(-6_144_000_000, device.nv(0x8000));
    assert_eq!(-3_000_000, device.nv(0xFFFF));
    assert_eq!(-3000, device.uv(0xFFFF));
    assert_eq!(-3, device.mv(0xFFFF));

    let mut device = Ads1x1x::new(Model::Ads1115, SlaveAddr::default());
    device.config = FullScaleRange::Within6_144V.configure(device.config);
    assert_eq!(6_144_000_000, device.nv(0x7FFF));
    assert_eq!(-187_500, device.nv(0xFFFF));
    assert_eq!(-187, device.uv(0xFFFF));
    assert_eq!(0, device.mv(0xFFFF));

    // The power-up range is ±2.048V.
    let device = Ads1x1x::new(Model::Ads1113, SlaveAddr::default());
    assert_eq!(2_048_000_000, device.nv(0x7FFF));
    assert_eq!(2048, device.mv(0x7FFF));
    assert_eq!(-2048, device.mv(0x8000));
}

#[test]
fn channel_releases_its_device() {
    let device = Ads1x1x::new(Model::Ads1015, SlaveAddr::Vdd);
    let channel = Channel { adc: device };
    let device = channel.release();
    assert_eq!(0x49, device.address);
    assert_eq!(0x8583, device.config.bits());
    assert_eq!(17, Channel { adc: 17u8 }.release());
}

#[test]
fn thresholds_by_resolution() {
    let twelve = Ads1x1x::new(Model::Ads1014, SlaveAddr::default());
    let sixteen = Ads1x1x::new(Model::Ads1114, SlaveAddr::default());
    assert_eq!(Ok(0x7FF0), twelve.threshold::<u8>(2047));
    assert_eq!(Ok(0x8000), twelve.threshold::<u8>(-2048));
    assert_eq!(Err(Error::InvalidInputData), twelve.threshold::<u8>(2048));
    assert_eq!(Err(Error::InvalidInputData), twelve.threshold::<u8>(-2049));
    assert_eq!(Ok(0x0800), sixteen.threshold::<u8>(2048));
    assert_eq!(Ok(0xF7FF), sixteen.threshold::<u8>(-2049));
    assert_eq!(Ok(0x7FFF), sixteen.threshold::<u8>(32767));
    assert_eq!(Ok(0x8000), sixteen.threshold::<u8>(-32768));
}
