use ads111x_driver::config::ADS111xConfig;
use ads111x_driver::config::ComparatorLatching;
use ads111x_driver::config::ComparatorMode;
use ads111x_driver::config::ComparatorPolarity;
use ads111x_driver::config::ComparatorQueue;
use ads111x_driver::config::DataRate;
use ads111x_driver::config::GainAmplifier;
use ads111x_driver::config::InputMultiplexer;
use ads111x_driver::config::Mode;
use ads111x_driver::config::OperationalStatus;
use ads111x_driver::config::Register;
use ads111x_driver::config::COMP_LAT_MASK;
use ads111x_driver::config::COMP_MODE_MASK;
use ads111x_driver::config::COMP_POL_MASK;
use ads111x_driver::config::COMP_QUE_MASK;
use ads111x_driver::config::DEFAULT_CONFIG_BITS;
use ads111x_driver::config::DR_MASK;
use ads111x_driver::config::MODE_MASK;
use ads111x_driver::config::MUX_MASK;
use ads111x_driver::config::OS_MASK;
use ads111x_driver::config::PGA_MASK;

fn all_masks() -> [u16; 9] {
    [
        OS_MASK,
        MUX_MASK,
        PGA_MASK,
        MODE_MASK,
        DR_MASK,
        COMP_MODE_MASK,
        COMP_POL_MASK,
        COMP_LAT_MASK,
        COMP_QUE_MASK,
    ]
}

fn all_multiplexers() -> [InputMultiplexer; 8] {
    [
        InputMultiplexer::AIN0AIN1,
        InputMultiplexer::AIN0AIN3,
        InputMultiplexer::AIN1AIN3,
        InputMultiplexer::AIN2AIN3,
        InputMultiplexer::AIN0GND,
        InputMultiplexer::AIN1GND,
        InputMultiplexer::AIN2GND,
        InputMultiplexer::AIN3GND,
    ]
}

fn all_gains() -> [GainAmplifier; 6] {
    [
        GainAmplifier::V6_144,
        GainAmplifier::V4_096,
        GainAmplifier::V2_048,
        GainAmplifier::V1_024,
        GainAmplifier::V0_512,
        GainAmplifier::V0_256,
    ]
}

fn all_data_rates() -> [DataRate; 8] {
    [
        DataRate::SPS8,
        DataRate::SPS16,
        DataRate::SPS32,
        DataRate::SPS64,
        DataRate::SPS128,
        DataRate::SPS250,
        DataRate::SPS475,
        DataRate::SPS860,
    ]
}

fn all_queues() -> [ComparatorQueue; 4] {
    [
        ComparatorQueue::AsserAfterOne,
        ComparatorQueue::AsserAfterTwo,
        ComparatorQueue::AsserAfterFour,
        ComparatorQueue::Disable,
    ]
}

// A varied set of register values reachable through the public builders.
fn sample_configs() -> Vec<ADS111xConfig> {
    let mut cs = vec![ADS111xConfig::new()];
    cs.push(
        ADS111xConfig::new()
            .with_multiplexer(InputMultiplexer::AIN3GND)
            .with_gain_amplifier(GainAmplifier::V0_256)
            .with_mode(Mode::Continuous)
            .with_data_rate(DataRate::SPS860)
            .with_comparator_mode(ComparatorMode::Window)
            .with_comparator_polarity(ComparatorPolarity::ActiveHigh)
            .with_comparator_latching(ComparatorLatching::Latching)
            .with_comparator_queue(ComparatorQueue::AsserAfterFour)
            .with_operational_status(OperationalStatus::NotBusy),
    );
    cs.push(
        ADS111xConfig::new()
            .with_multiplexer(InputMultiplexer::AIN1AIN3)
            .with_data_rate(DataRate::SPS16)
            .with_comparator_queue(ComparatorQueue::AsserAfterTwo),
    );
    cs.push(ADS111xConfig::from_bits(0x0000).unwrap());
    cs
}

#[test]
fn mux_encode_decode_round_trip() {
    for v in all_multiplexers() {
        assert_eq!(InputMultiplexer::decode(v.encode()), Some(v));
    }
}

#[test]
fn gain_encode_decode_round_trip() {
    for v in all_gains() {
        assert_eq!(GainAmplifier::decode(v.encode()), Some(v));
    }
}

#[test]
fn data_rate_encode_decode_round_trip() {
    for v in all_data_rates() {
        assert_eq!(DataRate::decode(v.encode()), Some(v));
    }
}

#[test]
fn one_bit_fields_encode_decode_round_trip() {
    for v in [OperationalStatus::Busy, OperationalStatus::NotBusy] {
        assert_eq!(OperationalStatus::decode(v.encode()), Some(v));
    }
    for v in [Mode::Continuous, Mode::Single] {
        assert_eq!(Mode::decode(v.encode()), Some(v));
    }
    for v in [ComparatorMode::Traditional, ComparatorMode::Window] {
        assert_eq!(ComparatorMode::decode(v.encode()), Some(v));
    }
    for v in [ComparatorPolarity::ActiveLow, ComparatorPolarity::ActiveHigh] {
        assert_eq!(ComparatorPolarity::decode(v.encode()), Some(v));
    }
    for v in [ComparatorLatching::NonLatching, ComparatorLatching::Latching] {
        assert_eq!(ComparatorLatching::decode(v.encode()), Some(v));
    }
}

#[test]
fn queue_encode_decode_round_trip() {
    for v in all_queues() {
        assert_eq!(ComparatorQueue::decode(v.encode()), Some(v));
    }
}

#[test]
fn masks_are_pairwise_disjoint_and_cover_the_register() {
    let masks = all_masks();
    let mut union: u16 = 0;
    for (i, a) in masks.iter().enumerate() {
        union |= a;
        for (j, b) in masks.iter().enumerate() {
            if i != j {
                assert_eq!(a & b, 0, "masks {:#06x} and {:#06x} overlap", a, b);
            }
        }
    }
    assert_eq!(union, 0xFFFF);
}

#[test]
fn builders_change_only_their_own_field() {
    for base in sample_configs() {
        for v in all_multiplexers() {
            assert_eq!((base.with_multiplexer(v).bits() ^ base.bits()) & !MUX_MASK, 0);
        }
        for v in all_gains() {
            assert_eq!((base.with_gain_amplifier(v).bits() ^ base.bits()) & !PGA_MASK, 0);
        }
        for v in [Mode::Continuous, Mode::Single] {
            assert_eq!((base.with_mode(v).bits() ^ base.bits()) & !MODE_MASK, 0);
        }
        for v in all_data_rates() {
            assert_eq!((base.with_data_rate(v).bits() ^ base.bits()) & !DR_MASK, 0);
        }
        for v in [ComparatorMode::Traditional, ComparatorMode::Window] {
            assert_eq!((base.with_comparator_mode(v).bits() ^ base.bits()) & !COMP_MODE_MASK, 0);
        }
        for v in [ComparatorPolarity::ActiveLow, ComparatorPolarity::ActiveHigh] {
            assert_eq!(
                (base.with_comparator_polarity(v).bits() ^ base.bits()) & !COMP_POL_MASK,
                0
            );
        }
        for v in [ComparatorLatching::NonLatching, ComparatorLatching::Latching] {
            assert_eq!(
                (base.with_comparator_latching(v).bits() ^ base.bits()) & !COMP_LAT_MASK,
                0
            );
        }
        for v in all_queues() {
            assert_eq!((base.with_comparator_queue(v).bits() ^ base.bits()) & !COMP_QUE_MASK, 0);
        }
        for v in [OperationalStatus::Busy, OperationalStatus::NotBusy] {
            assert_eq!((base.with_operational_status(v).bits() ^ base.bits()) & !OS_MASK, 0);
        }
    }
}

#[test]
fn builders_set_their_own_field() {
    let base = ADS111xConfig::new();
    assert_eq!(base.with_multiplexer(InputMultiplexer::AIN2GND).multiplexer(), InputMultiplexer::AIN2GND);
    assert_eq!(base.with_gain_amplifier(GainAmplifier::V0_512).gain_amplifier(), GainAmplifier::V0_512);
    assert_eq!(base.with_mode(Mode::Continuous).mode(), Mode::Continuous);
    assert_eq!(base.with_data_rate(DataRate::SPS475).data_rate(), DataRate::SPS475);
    assert_eq!(base.with_comparator_mode(ComparatorMode::Window).comparator_mode(), ComparatorMode::Window);
    assert_eq!(
        base.with_comparator_polarity(ComparatorPolarity::ActiveHigh).comparator_polarity(),
        ComparatorPolarity::ActiveHigh
    );
    assert_eq!(
        base.with_comparator_latching(ComparatorLatching::Latching).comparator_latching(),
        ComparatorLatching::Latching
    );
    assert_eq!(
        base.with_comparator_queue(ComparatorQueue::AsserAfterOne).comparator_queue(),
        ComparatorQueue::AsserAfterOne
    );
    assert_eq!(
        base.with_operational_status(OperationalStatus::NotBusy).operational_status(),
        OperationalStatus::NotBusy
    );
}

#[test]
fn bits_from_bits_round_trip() {
    for c in sample_configs() {
        assert_eq!(ADS111xConfig::from_bits(c.bits()), Some(c));
    }
}

#[test]
fn from_bits_rejects_unassigned_gain_patterns() {
    assert_eq!(ADS111xConfig::from_bits(0x0C00), None);
    assert_eq!(ADS111xConfig::from_bits(0x0E00), None);
    assert_eq!(ADS111xConfig::from_bits(0x8D83), None);
    assert!(ADS111xConfig::from_bits(0x0A00).is_some());
}

#[test]
fn from_bits_zero_decodes_every_field() {
    let c = ADS111xConfig::from_bits(0x0000).unwrap();
    assert_eq!(c.operational_status(), OperationalStatus::Busy);
    assert_eq!(c.multiplexer(), InputMultiplexer::AIN0AIN1);
    assert_eq!(c.gain_amplifier(), GainAmplifier::V6_144);
    assert_eq!(c.mode(), Mode::Continuous);
    assert_eq!(c.data_rate(), DataRate::SPS8);
    assert_eq!(c.comparator_mode(), ComparatorMode::Traditional);
    assert_eq!(c.comparator_polarity(), ComparatorPolarity::ActiveLow);
    assert_eq!(c.comparator_latching(), ComparatorLatching::NonLatching);
    assert_eq!(c.comparator_queue(), ComparatorQueue::AsserAfterOne);
}

#[test]
fn default_is_the_documented_power_on_safe_value() {
    let c = ADS111xConfig::new();
    assert_eq!(c.bits(), DEFAULT_CONFIG_BITS);
    assert_eq!(c.bits(), 0x0583);
    assert_eq!(ADS111xConfig::default().bits(), 0x0583);
    assert_eq!(c.multiplexer(), InputMultiplexer::AIN0AIN1);
    assert_eq!(c.gain_amplifier(), GainAmplifier::V2_048);
    assert_eq!(c.mode(), Mode::Single);
    assert_eq!(c.data_rate(), DataRate::SPS128);
    assert_eq!(c.comparator_mode(), ComparatorMode::Traditional);
    assert_eq!(c.comparator_polarity(), ComparatorPolarity::ActiveLow);
    assert_eq!(c.comparator_latching(), ComparatorLatching::NonLatching);
    assert_eq!(c.comparator_queue(), ComparatorQueue::Disable);
}

#[test]
fn register_select_bytes() {
    assert_eq!(Register::Conversion.addr(), 0b00);
    assert_eq!(Register::Config.addr(), 0b01);
    assert_eq!(Register::LowThreshold.addr(), 0b10);
    assert_eq!(Register::HighThreshold.addr(), 0b11);
}

#[test]
fn encode_patterns_stay_inside_their_masks() {
    for v in all_multiplexers() {
        assert_eq!(v.encode() & !MUX_MASK, 0);
    }
    for v in all_gains() {
        assert_eq!(v.encode() & !PGA_MASK, 0);
    }
    for v in all_data_rates() {
        assert_eq!(v.encode() & !DR_MASK, 0);
    }
    for v in all_queues() {
        assert_eq!(v.encode() & !COMP_QUE_MASK, 0);
    }
    assert_eq!(OperationalStatus::NotBusy.encode(), OS_MASK);
    assert_eq!(Mode::Single.encode(), MODE_MASK);
    assert_eq!(ComparatorMode::Window.encode(), COMP_MODE_MASK);
    assert_eq!(ComparatorPolarity::ActiveHigh.encode(), COMP_POL_MASK);
    assert_eq!(ComparatorLatching::Latching.encode(), COMP_LAT_MASK);
}
