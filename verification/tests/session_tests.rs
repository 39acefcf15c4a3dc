use ads111x_driver::config::ADS111xConfig;
use ads111x_driver::config::DataRate;
use ads111x_driver::config::GainAmplifier;
use ads111x_driver::config::InputMultiplexer;
use ads111x_driver::config::OperationalStatus;
use ads111x_driver::driver::ADS111x;
use ads111x_driver::error::ADSError;
use ads111x_driver::transport::BusTransport;

const ADDR: u8 = 0x48;

// Two-byte big-endian images of the default configuration with the status
// field reporting a conversion in progress / complete.
const BUSY: [u8; 2] = [0x05, 0x83];
const NOT_BUSY: [u8; 2] = [0x85, 0x83];

// A scripted bus double: plays back a list of write-then-read outcomes and
// records every exchange it sees.
#[derive(Debug)]
struct MockBus {
    reads: Vec<Result<[u8; 2], u8>>,
    write_results: Vec<Result<(), u8>>,
    writes: Vec<(u8, [u8; 3])>,
    selects: Vec<(u8, u8)>,
    exchanges: usize,
    pauses: usize,
    marker: u32,
}

impl MockBus {
    fn new(reads: Vec<Result<[u8; 2], u8>>) -> MockBus {
        MockBus {
            reads,
            write_results: Vec::new(),
            writes: Vec::new(),
            selects: Vec::new(),
            exchanges: 0,
            pauses: 0,
            marker: 0,
        }
    }

    fn with_write_results(mut self, write_results: Vec<Result<(), u8>>) -> MockBus {
        self.write_results = write_results;
        self
    }

    fn config_polls(&self) -> usize {
        self.selects.iter().filter(|(_, reg)| *reg == 0x01).count()
    }
}

impl BusTransport for MockBus {
    type BusError = u8;

    fn write(&mut self, address: u8, frame: &[u8; 3]) -> Result<(), u8> {
        self.exchanges += 1;
        self.writes.push((address, *frame));
        let i = self.writes.len() - 1;
        if i < self.write_results.len() {
            self.write_results[i]
        } else {
            Ok(())
        }
    }

    fn write_then_read(&mut self, address: u8, reg_select: &[u8; 1]) -> Result<[u8; 2], u8> {
        self.exchanges += 1;
        self.selects.push((address, reg_select[0]));
        let i = self.selects.len() - 1;
        if i < self.reads.len() {
            self.reads[i]
        } else {
            Err(0xEE)
        }
    }

    fn pause(&mut self) {
        self.pauses += 1;
    }
}

#[test]
fn accepts_all_strap_addresses() {
    for address in 0x48u8..=0x4F {
        let r = ADS111x::new(MockBus::new(vec![]), address, ADS111xConfig::new());
        assert!(r.is_ok(), "address {:#04x} should be accepted", address);
    }
}

#[test]
fn rejects_addresses_outside_the_family() {
    for address in [0x40u8, 0x50, 0x47, 0x00, 0xC8] {
        let r = ADS111x::new(MockBus::new(vec![]), address, ADS111xConfig::new());
        assert!(
            matches!(r, Err(ADSError::WrongAddress)),
            "address {:#04x} should be rejected",
            address
        );
    }
}

#[test]
fn open_touches_no_bus() {
    let ads = ADS111x::new(MockBus::new(vec![]), ADDR, ADS111xConfig::new()).unwrap();
    let bus = ads.destroy();
    assert_eq!(bus.exchanges, 0);
}

#[test]
fn destroy_returns_the_same_bus() {
    let mut bus = MockBus::new(vec![]);
    bus.marker = 0xC0FFEE;
    let ads = ADS111x::new(bus, ADDR, ADS111xConfig::new()).unwrap();
    assert_eq!(ads.destroy().marker, 0xC0FFEE);
}

#[test]
fn write_config_sends_the_big_endian_frame() {
    let mut ads = ADS111x::new(MockBus::new(vec![]), ADDR, ADS111xConfig::new()).unwrap();
    ads.write_config().unwrap();
    let bus = ads.destroy();
    assert_eq!(bus.writes, vec![(ADDR, [0x01, 0x05, 0x83])]);
}

#[test]
fn new_and_configure_writes_immediately() {
    let ads = ADS111x::new_and_configure(MockBus::new(vec![]), ADDR, ADS111xConfig::new()).unwrap();
    let bus = ads.destroy();
    assert_eq!(bus.writes, vec![(ADDR, [0x01, 0x05, 0x83])]);
}

#[test]
fn new_and_configure_propagates_write_failure() {
    let bus = MockBus::new(vec![]).with_write_results(vec![Err(7)]);
    let r = ADS111x::new_and_configure(bus, ADDR, ADS111xConfig::new());
    assert!(matches!(r, Err(ADSError::I2C(7))));
}

#[test]
fn read_config_decodes_device_bytes() {
    let mut ads = ADS111x::new(MockBus::new(vec![Ok(NOT_BUSY)]), ADDR, ADS111xConfig::new()).unwrap();
    let device = ads.read_config().unwrap();
    assert_eq!(device.bits(), 0x8583);
    assert_eq!(device.operational_status(), OperationalStatus::NotBusy);
    assert_eq!(device.gain_amplifier(), GainAmplifier::V2_048);
    // The cached configuration is what was last written, not what was read.
    assert_eq!(ads.config().bits(), 0x0583);
    let bus = ads.destroy();
    assert_eq!(bus.selects, vec![(ADDR, 0x01)]);
}

#[test]
fn read_config_rejects_undecodable_gain_field() {
    let mut ads = ADS111x::new(MockBus::new(vec![Ok([0x0C, 0x00])]), ADDR, ADS111xConfig::new())
        .unwrap();
    assert!(matches!(ads.read_config(), Err(ADSError::ConfigConversionError)));
}

#[test]
fn read_config_propagates_transport_error() {
    let mut ads = ADS111x::new(MockBus::new(vec![Err(9)]), ADDR, ADS111xConfig::new()).unwrap();
    assert!(matches!(ads.read_config(), Err(ADSError::I2C(9))));
}

#[test]
fn check_conversion_ready_reports_the_status_field() {
    let mut ads = ADS111x::new(
        MockBus::new(vec![Ok(BUSY), Ok(NOT_BUSY)]),
        ADDR,
        ADS111xConfig::new(),
    )
    .unwrap();
    assert_eq!(ads.check_conversion_ready().unwrap(), false);
    assert_eq!(ads.check_conversion_ready().unwrap(), true);
}

#[test]
fn read_raw_sample_decodes_signed_big_endian() {
    let mut ads = ADS111x::new(
        MockBus::new(vec![Ok([0xFF, 0xFF]), Ok([0x80, 0x00]), Ok([0x7F, 0xFF])]),
        ADDR,
        ADS111xConfig::new(),
    )
    .unwrap();
    assert_eq!(ads.read_raw_sample().unwrap(), -1);
    assert_eq!(ads.read_raw_sample().unwrap(), -32768);
    assert_eq!(ads.read_raw_sample().unwrap(), 32767);
    let bus = ads.destroy();
    assert_eq!(bus.selects, vec![(ADDR, 0x00), (ADDR, 0x00), (ADDR, 0x00)]);
}

#[test]
fn single_sample_polls_exactly_until_ready() {
    // The device reports a conversion in progress for three reads, then done.
    let reads = vec![Ok(BUSY), Ok(BUSY), Ok(BUSY), Ok(NOT_BUSY), Ok([0x3F, 0xFF])];
    let mut ads = ADS111x::new(MockBus::new(reads), ADDR, ADS111xConfig::new()).unwrap();
    assert_eq!(ads.read_single_sample(None, 10).unwrap(), 16383);
    let bus = ads.destroy();
    // The trigger write, then exactly N + 1 = 4 configuration-read polls,
    // then one conversion read.
    assert_eq!(bus.writes, vec![(ADDR, [0x01, 0x05, 0x83])]);
    assert_eq!(bus.config_polls(), 4);
    assert_eq!(bus.selects.last(), Some(&(ADDR, 0x00)));
    assert_eq!(bus.selects.len(), 5);
    // The transport was given a chance to pause between consecutive polls.
    assert_eq!(bus.pauses, 3);
}

#[test]
fn single_sample_times_out_when_the_budget_is_spent() {
    let reads = vec![Ok(BUSY), Ok(BUSY), Ok(BUSY), Ok(BUSY), Ok(BUSY)];
    let mut ads = ADS111x::new(MockBus::new(reads), ADDR, ADS111xConfig::new()).unwrap();
    assert!(matches!(ads.read_single_sample(None, 3), Err(ADSError::Timeout)));
    let bus = ads.destroy();
    assert_eq!(bus.config_polls(), 3);
    assert_eq!(bus.exchanges, 4);
}

#[test]
fn single_sample_with_zero_budget_times_out_after_the_trigger() {
    let mut ads = ADS111x::new(MockBus::new(vec![]), ADDR, ADS111xConfig::new()).unwrap();
    assert!(matches!(ads.read_single_sample(None, 0), Err(ADSError::Timeout)));
    let bus = ads.destroy();
    assert_eq!(bus.exchanges, 1);
}

#[test]
fn failure_on_second_exchange_aborts_the_whole_operation() {
    // Exchange 1 is the trigger write; exchange 2, the first poll, fails.
    let mut ads = ADS111x::new(MockBus::new(vec![Err(5)]), ADDR, ADS111xConfig::new()).unwrap();
    assert!(matches!(ads.read_single_sample(None, 10), Err(ADSError::I2C(5))));
    let bus = ads.destroy();
    assert_eq!(bus.exchanges, 2);
}

#[test]
fn failure_on_trigger_write_aborts_before_any_poll() {
    let bus = MockBus::new(vec![]).with_write_results(vec![Err(3)]);
    let mut ads = ADS111x::new(bus, ADDR, ADS111xConfig::new()).unwrap();
    assert!(matches!(ads.read_single_sample(None, 10), Err(ADSError::I2C(3))));
    let bus = ads.destroy();
    assert_eq!(bus.exchanges, 1);
}

#[test]
fn single_sample_overrides_the_multiplexer() {
    let reads = vec![Ok(NOT_BUSY), Ok([0x00, 0x2A])];
    let mut ads = ADS111x::new(MockBus::new(reads), ADDR, ADS111xConfig::new()).unwrap();
    let sample = ads.read_single_sample(Some(InputMultiplexer::AIN2GND), 10).unwrap();
    assert_eq!(sample, 42);
    assert_eq!(ads.config().multiplexer(), InputMultiplexer::AIN2GND);
    assert_eq!(ads.config().gain_amplifier(), GainAmplifier::V2_048);
    let bus = ads.destroy();
    assert_eq!(bus.writes, vec![(ADDR, [0x01, 0x65, 0x83])]);
}

#[test]
fn threshold_values_are_written_verbatim() {
    let mut ads = ADS111x::new(MockBus::new(vec![]), ADDR, ADS111xConfig::new()).unwrap();
    ads.write_low_treshold(-32768).unwrap();
    ads.write_high_treshold(32767).unwrap();
    ads.write_low_treshold(-1).unwrap();
    let bus = ads.destroy();
    assert_eq!(
        bus.writes,
        vec![
            (ADDR, [0x02, 0x80, 0x00]),
            (ADDR, [0x03, 0x7F, 0xFF]),
            (ADDR, [0x02, 0xFF, 0xFF]),
        ]
    );
}

#[test]
fn set_config_updates_the_cache_and_writes_it() {
    let mut ads = ADS111x::new(MockBus::new(vec![]), ADDR, ADS111xConfig::new()).unwrap();
    ads.set_config(|c| c.with_data_rate(DataRate::SPS860)).unwrap();
    assert_eq!(ads.config().data_rate(), DataRate::SPS860);
    let bus = ads.destroy();
    assert_eq!(bus.writes, vec![(ADDR, [0x01, 0x05, 0xE3])]);
}

#[test]
fn error_messages_name_the_kind() {
    assert_eq!(ADSError::<u8>::WrongAddress.message(), "invalid device address");
    assert_eq!(ADSError::<u8>::ConfigConversionError.message(), "failed to convert config");
    assert_eq!(ADSError::<u8>::Timeout.message(), "conversion poll timed out");
    assert_eq!(ADSError::<u8>::I2C(1).message(), "bus communication error");
}
