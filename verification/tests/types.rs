use ads1x1x::{
    ComparatorLatching, ComparatorMode, ComparatorPolarity, ComparatorQueue, Config,
    DataRate12Bit, DataRate16Bit, FullScaleRange, SlaveAddr,
};

#[test]
fn slave_addr_default() {
    assert_eq!(0b100_1000, SlaveAddr::default().bits());
}

#[test]
fn slave_addr_bits() {
    assert_eq!(0b100_1000, SlaveAddr::Gnd.bits());
    assert_eq!(0b100_1001, SlaveAddr::Vdd.bits());
    assert_eq!(0b100_1010, SlaveAddr::Sda.bits());
    assert_eq!(0b100_1011, SlaveAddr::Scl.bits());
}

#[test]
fn default_full_scale_range() {
    assert_eq!(FullScaleRange::Within2_048V, FullScaleRange::default());
}

#[test]
fn other_defaults() {
    assert_eq!(DataRate12Bit::Sps1600, DataRate12Bit::default());
    assert_eq!(DataRate16Bit::Sps128, DataRate16Bit::default());
    assert_eq!(ComparatorMode::Traditional, ComparatorMode::default());
    assert_eq!(ComparatorPolarity::ActiveLow, ComparatorPolarity::default());
    assert_eq!(ComparatorLatching::Nonlatching, ComparatorLatching::default());
    assert_eq!(ComparatorQueue::Four, ComparatorQueue::default());
    assert_eq!(SlaveAddr::Gnd, SlaveAddr::default());
}

#[test]
fn data_rate_12bit_codes() {
    let rates = [
        DataRate12Bit::Sps128,
        DataRate12Bit::Sps250,
        DataRate12Bit::Sps490,
        DataRate12Bit::Sps920,
        DataRate12Bit::Sps1600,
        DataRate12Bit::Sps2400,
        DataRate12Bit::Sps3300,
    ];
    for (code, rate) in rates.into_iter().enumerate() {
        let field = (code as u16) << 5;
        assert_eq!(field, rate.configure(Config::from_bits_truncate(0)).bits());
        assert_eq!(
            0xFF1F | field,
            rate.configure(Config::from_bits_truncate(0xFFFF)).bits()
        );
        assert_eq!(
            0x8503 | field,
            rate.configure(Config::default()).bits()
        );
    }
}

#[test]
fn data_rate_16bit_codes() {
    let rates = [
        DataRate16Bit::Sps8,
        DataRate16Bit::Sps16,
        DataRate16Bit::Sps32,
        DataRate16Bit::Sps64,
        DataRate16Bit::Sps128,
        DataRate16Bit::Sps250,
        DataRate16Bit::Sps475,
        DataRate16Bit::Sps860,
    ];
    for (code, rate) in rates.into_iter().enumerate() {
        let field = (code as u16) << 5;
        assert_eq!(field, rate.configure(Config::from_bits_truncate(0)).bits());
        assert_eq!(
            0xFF1F | field,
            rate.configure(Config::from_bits_truncate(0xFFFF)).bits()
        );
    }
    assert_eq!(
        Config::default().bits(),
        DataRate16Bit::default().configure(Config::default()).bits()
    );
}

#[test]
fn full_scale_range_codes() {
    let ranges = [
        FullScaleRange::Within6_144V,
        FullScaleRange::Within4_096V,
        FullScaleRange::Within2_048V,
        FullScaleRange::Within1_024V,
        FullScaleRange::Within0_512V,
        FullScaleRange::Within0_256V,
    ];
    for (code, fsr) in ranges.into_iter().enumerate() {
        let field = (code as u16) << 9;
        assert_eq!(field, fsr.configure(Config::from_bits_truncate(0)).bits());
        assert_eq!(
            0xF1FF | field,
            fsr.configure(Config::from_bits_truncate(0xFFFF)).bits()
        );
        for raw in [0u16, 0x8583, 0xFFFF, 0x1234] {
            let config = fsr.configure(Config::from_bits_truncate(raw));
            assert_eq!(fsr, FullScaleRange::from_config(config));
            assert_eq!(raw & !Config::PGA, config.bits() & !Config::PGA);
        }
    }
    assert_eq!(
        Config::default().bits(),
        FullScaleRange::default().configure(Config::default()).bits()
    );
}

#[test]
fn full_scale_range_of_unused_codes() {
    assert_eq!(
        FullScaleRange::Within0_256V,
        FullScaleRange::from_config(Config::from_bits_truncate(0x0C00))
    );
    assert_eq!(
        FullScaleRange::Within0_256V,
        FullScaleRange::from_config(Config::from_bits_truncate(0x0E00))
    );
    assert_eq!(
        FullScaleRange::Within2_048V,
        FullScaleRange::from_config(Config::default())
    );
}
