//! The device session: owns a bus handle, a validated device address, and
//! the last-written configuration, and runs the conversion-trigger protocol.

use vstd::prelude::*;

use crate::config::spec_set_field;
use crate::config::ADS111xConfig;
use crate::config::InputMultiplexer;
use crate::config::OperationalStatus;
use crate::config::Register;
use crate::config::MUX_MASK;
use crate::config::OS_MASK;
use crate::error::ADSError;
use crate::transport::BusTransport;

verus! {

/// The big-endian high byte of a 16-bit value.
pub open spec fn spec_hi_byte(v: u16) -> u8 {
    (v >> 8) as u8
}

/// The big-endian low byte of a 16-bit value.
pub open spec fn spec_lo_byte(v: u16) -> u8 {
    (v & 0xFF) as u8
}

/// The 16-bit value two big-endian bytes spell.
pub open spec fn spec_u16_from_be(hi: u8, lo: u8) -> u16 {
    ((hi as int) * 256 + (lo as int)) as u16
}

/// The signed 16-bit value two big-endian bytes spell, in two's complement.
pub open spec fn spec_i16_from_be(hi: u8, lo: u8) -> int {
    let unsigned = (hi as int) * 256 + (lo as int);
    if unsigned < 0x8000 {
        unsigned
    } else {
        unsigned - 0x10000
    }
}

/// The two's-complement 16-bit pattern of a signed value.
pub open spec fn spec_i16_as_u16(v: i16) -> u16 {
    if v >= 0 {
        v as u16
    } else {
        (v + 0x10000) as u16
    }
}

/// Builds the three-byte frame of a register write: the register-select
/// byte followed by the value in big-endian byte order.
pub fn register_write_frame(reg: Register, value: u16) -> (r: [u8; 3])
    ensures
        r@[0] == reg.spec_addr(),
        r@[1] == spec_hi_byte(value),
        r@[2] == spec_lo_byte(value),
{
    [reg.addr(), (value >> 8) as u8, (value & 0xFF) as u8]
}

/// Reads two big-endian bytes as an unsigned 16-bit value.
pub fn u16_from_be_bytes(bytes: &[u8; 2]) -> (r: u16)
    ensures
        r == spec_u16_from_be(bytes@[0], bytes@[1]),
{
    (bytes[0] as u16) * 256 + (bytes[1] as u16)
}

/// Reads two big-endian bytes as a signed 16-bit raw sample.
pub fn sample_from_be_bytes(bytes: &[u8; 2]) -> (r: i16)
    ensures
        r as int == spec_i16_from_be(bytes@[0], bytes@[1]),
{
    let unsigned: i32 = (bytes[0] as i32) * 256 + (bytes[1] as i32);
    let signed: i32 = if unsigned >= 0x8000 {
        unsigned - 0x10000
    } else {
        unsigned
    };
    signed as i16
}

/// The two's-complement 16-bit pattern of a signed threshold value.
pub fn i16_to_be_u16(v: i16) -> (r: u16)
    ensures
        r == spec_i16_as_u16(v),
        spec_i16_from_be(spec_hi_byte(r), spec_lo_byte(r)) == v as int,
{
    let wide: i32 = v as i32;
    let unsigned: i32 = if wide < 0 {
        wide + 0x10000
    } else {
        wide
    };
    let r: u16 = unsigned as u16;
    proof {
        assert(spec_u16_from_be(spec_hi_byte(r), spec_lo_byte(r)) == r) by (bit_vector);
    }
    r
}

/// Decodes a two-byte big-endian read of the configuration register.
pub fn config_from_be_bytes(bytes: &[u8; 2]) -> (r: Option<ADS111xConfig>)
    ensures
        r == ADS111xConfig::spec_from_bits(spec_u16_from_be(bytes@[0], bytes@[1])),
        r is Some <==> crate::config::spec_bits_wf(spec_u16_from_be(bytes@[0], bytes@[1])),
        r matches Some(c) ==> c.spec_bits() == spec_u16_from_be(bytes@[0], bytes@[1]) && c.wf(),
{
    ADS111xConfig::from_bits(u16_from_be_bytes(bytes))
}

/// Whether a configuration read back from the device reports a completed
/// (or idle) conversion.
pub fn conversion_ready(config: &ADS111xConfig) -> (r: bool)
    ensures
        r == (config.spec_operational_status() == Some(OperationalStatus::NotBusy)),
{
    config.operational_status() == OperationalStatus::NotBusy
}

/// Whether a 7-bit device address belongs to this chip family: its four
/// upper bits must equal the fixed pattern `0b1001`, while the three low
/// bits are free for hardware strapping.
pub open spec fn spec_address_valid(address: u8) -> bool {
    address & 0xF8 == 0x48
}

/// Validates a device address against the chip family's fixed pattern.
pub fn address_valid(address: u8) -> (r: bool)
    ensures
        r == spec_address_valid(address),
{
    address & 0xF8 == 0x48
}

/// The configuration bits after the conversion-trigger rewrite: the
/// multiplexer field optionally replaced, then the status field set to
/// `Busy`.
pub open spec fn spec_triggered_bits(b: u16, mux: Option<InputMultiplexer>) -> u16 {
    let after_mux = match mux {
        Some(m) => spec_set_field(b, MUX_MASK, m.spec_encode()),
        None => b,
    };
    spec_set_field(after_mux, OS_MASK, OperationalStatus::Busy.spec_encode())
}

/// A session with one converter: an exclusively owned bus handle, the
/// validated device address, and the configuration last written to the
/// device. The cached configuration is advisory — it is what the session
/// last wrote — while [`ADS111x::read_config`] always re-derives field
/// values from the device.
pub struct ADS111x<I2C> {
    i2c: I2C,
    address: u8,
    config: ADS111xConfig,
}

impl<I2C: BusTransport> ADS111x<I2C> {
    /// The bus handle the session owns.
    pub closed spec fn spec_bus(self) -> I2C {
        self.i2c
    }

    /// The session's validated 7-bit device address.
    pub closed spec fn spec_address(self) -> u8 {
        self.address
    }

    /// The session's cached (last-written) configuration.
    pub closed spec fn spec_config(self) -> ADS111xConfig {
        self.config
    }

    /// The session invariant: the address matches the chip family and the
    /// cached configuration is well formed.
    pub open spec fn wf(self) -> bool {
        spec_address_valid(self.spec_address()) && self.spec_config().wf()
    }

    /// Opens a session: validates the device address and binds the bus
    /// handle and initial configuration. Touches no bus: succeeds exactly
    /// when the address matches the chip family's fixed pattern.
    pub fn new(i2c: I2C, address: u8, config: ADS111xConfig) -> (r: Result<
        ADS111x<I2C>,
        ADSError<I2C::BusError>,
    >)
        requires
            config.wf(),
        ensures
            r is Ok <==> spec_address_valid(address),
            r matches Ok(s) ==> s.spec_bus() == i2c && s.spec_address() == address
                && s.spec_config() == config && s.wf(),
            r matches Err(e) ==> e is WrongAddress,
    {
        if !address_valid(address) {
            return Err(ADSError::WrongAddress);
        }
        Ok(ADS111x { i2c, address, config })
    }

    /// Consumes the session and returns bus ownership to the caller.
    pub fn destroy(self) -> (r: I2C)
        ensures
            r == self.spec_bus(),
    {
        self.i2c
    }

    /// Returns the session's cached configuration.
    pub fn config(&self) -> (r: ADS111xConfig)
        ensures
            r == self.spec_config(),
    {
        self.config
    }

    /// Opens a session and immediately writes the initial configuration to
    /// the device.
    pub fn new_and_configure(i2c: I2C, address: u8, config: ADS111xConfig) -> (r: Result<
        ADS111x<I2C>,
        ADSError<I2C::BusError>,
    >)
        requires
            config.wf(),
        ensures
            r matches Ok(s) ==> spec_address_valid(address) && s.spec_address() == address
                && s.spec_config() == config && s.wf(),
            r matches Err(e) ==> e is WrongAddress || e is I2C,
            r matches Err(e) ==> (e is WrongAddress <==> !spec_address_valid(address)),
    {
        let mut ads = match Self::new(i2c, address, config) {
            Ok(s) => s,
            Err(e) => {
                return Err(e);
            },
        };
        match ads.write_config() {
            Ok(()) => Ok(ads),
            Err(e) => Err(ADSError::I2C(e)),
        }
    }

    /// Serializes the cached configuration big-endian and writes it to the
    /// device's configuration register. Fails only when the transport
    /// fails; the cached configuration and address are untouched either
    /// way.
    pub fn write_config(&mut self) -> (r: Result<(), I2C::BusError>)
        ensures
            final(self).spec_address() == old(self).spec_address(),
            final(self).spec_config() == old(self).spec_config(),
    {
        let frame: [u8; 3] = register_write_frame(Register::Config, self.config.bits());
        self.i2c.write(self.address, &frame)
    }

    /// Reads the device's two-byte configuration register, decodes it
    /// big-endian, and re-derives a full configuration value from it. The
    /// session's cached configuration is deliberately not replaced: a read
    /// reports the device's authoritative state, while the cache tracks
    /// what was last written.
    ///
    /// Fails with a transport error when the exchange fails, and with a
    /// decode error when some field's bits match no enumerated value.
    pub fn read_config(&mut self) -> (r: Result<ADS111xConfig, ADSError<I2C::BusError>>)
        ensures
            final(self).spec_address() == old(self).spec_address(),
            final(self).spec_config() == old(self).spec_config(),
            r matches Ok(c) ==> c.wf(),
            r matches Err(e) ==> e is I2C || e is ConfigConversionError,
    {
        let reg_select: [u8; 1] = [Register::Config.addr()];
        match self.i2c.write_then_read(self.address, &reg_select) {
            Err(e) => Err(ADSError::I2C(e)),
            Ok(data) => match config_from_be_bytes(&data) {
                Some(c) => Ok(c),
                None => Err(ADSError::ConfigConversionError),
            },
        }
    }

    /// Reads the configuration register and reports whether the status
    /// field says the conversion is complete (or the device is idle).
    pub fn check_conversion_ready(&mut self) -> (r: Result<bool, ADSError<I2C::BusError>>)
        ensures
            final(self).spec_address() == old(self).spec_address(),
            final(self).spec_config() == old(self).spec_config(),
            r matches Err(e) ==> e is I2C || e is ConfigConversionError,
    {
        match self.read_config() {
            Err(e) => Err(e),
            Ok(c) => Ok(conversion_ready(&c)),
        }
    }

    /// Reads the device's two-byte conversion register as a signed
    /// big-endian raw sample. Fails only when the transport fails.
    pub fn read_raw_sample(&mut self) -> (r: Result<i16, ADSError<I2C::BusError>>)
        ensures
            final(self).spec_address() == old(self).spec_address(),
            final(self).spec_config() == old(self).spec_config(),
            r matches Err(e) ==> e is I2C,
    {
        let reg_select: [u8; 1] = [Register::Conversion.addr()];
        match self.i2c.write_then_read(self.address, &reg_select) {
            Err(e) => Err(ADSError::I2C(e)),
            Ok(data) => Ok(sample_from_be_bytes(&data)),
        }
    }

    /// Triggers a single-shot conversion and reads back the raw sample.
    ///
    /// Optionally replaces the multiplexer field, sets the status field to
    /// `Busy`, and writes the configuration — the hardware trigger — then
    /// polls the status field until the device reports `NotBusy`, and
    /// finally reads the conversion register.
    ///
    /// Polling is bounded: at most `max_polls` configuration reads are
    /// made, and when every one of them still reports `Busy` the operation
    /// gives up with a timeout error instead of spinning forever. The
    /// transport's `pause` is called between consecutive polls so that an
    /// implementation can delay or yield. A transport or decode failure at
    /// any step aborts the whole operation at that point.
    pub fn read_single_sample(&mut self, mux: Option<InputMultiplexer>, max_polls: u32) -> (r:
        Result<i16, ADSError<I2C::BusError>>)
        requires
            old(self).wf(),
        ensures
            final(self).wf(),
            final(self).spec_address() == old(self).spec_address(),
            final(self).spec_config().spec_bits() == spec_triggered_bits(
                old(self).spec_config().spec_bits(),
                mux,
            ),
            final(self).spec_config().spec_operational_status() == Some(OperationalStatus::Busy),
            mux matches Some(m) ==> final(self).spec_config().spec_multiplexer() == Some(m),
            mux is None ==> final(self).spec_config().spec_multiplexer() == old(
                self,
            ).spec_config().spec_multiplexer(),
            final(self).spec_config().spec_gain_amplifier() == old(
                self,
            ).spec_config().spec_gain_amplifier(),
            r matches Err(e) ==> e is I2C || e is ConfigConversionError || e is Timeout,
    {
        if let Some(m) = mux {
            self.config = self.config.with_multiplexer(m);
        }
        self.config = self.config.with_operational_status(OperationalStatus::Busy);
        match self.write_config() {
            Ok(()) => (),
            Err(e) => {
                return Err(ADSError::I2C(e));
            },
        }
        let mut remaining: u32 = max_polls;
        loop
            invariant
                self.wf(),
                self.spec_address() == old(self).spec_address(),
                self.spec_config().spec_bits() == spec_triggered_bits(
                    old(self).spec_config().spec_bits(),
                    mux,
                ),
                self.spec_config().spec_operational_status() == Some(OperationalStatus::Busy),
                (mux matches Some(m) ==> self.spec_config().spec_multiplexer() == Some(m)),
                (mux is None ==> self.spec_config().spec_multiplexer() == old(
                    self,
                ).spec_config().spec_multiplexer()),
                self.spec_config().spec_gain_amplifier() == old(
                    self,
                ).spec_config().spec_gain_amplifier(),
            decreases remaining,
        {
            if remaining == 0 {
                return Err(ADSError::Timeout);
            }
            remaining = remaining - 1;
            match self.check_conversion_ready() {
                Err(e) => {
                    return Err(e);
                },
                Ok(true) => {
                    break;
                },
                Ok(false) => {
                    if remaining > 0 {
                        self.i2c.pause();
                    }
                },
            }
        }
        self.read_raw_sample()
    }

    /// Replaces the cached configuration with the result of `f` and writes
    /// it to the device.
    pub fn set_config<F: FnOnce(ADS111xConfig) -> ADS111xConfig>(&mut self, f: F) -> (r: Result<
        (),
        I2C::BusError,
    >)
        requires
            old(self).wf(),
            call_requires(f, (old(self).spec_config(),)),
            forall|c2: ADS111xConfig| #[trigger] call_ensures(f, (old(self).spec_config(),), c2)
                ==> c2.wf(),
        ensures
            final(self).wf(),
            final(self).spec_address() == old(self).spec_address(),
            call_ensures(f, (old(self).spec_config(),), final(self).spec_config()),
    {
        self.config = f(self.config);
        self.write_config()
    }

    /// Writes a signed threshold value verbatim, big-endian, to the low
    /// comparator-threshold register. Whether it lies below the high
    /// threshold is the caller's responsibility, not checked here.
    pub fn write_low_treshold(&mut self, low_tresh: i16) -> (r: Result<(), I2C::BusError>)
        ensures
            final(self).spec_address() == old(self).spec_address(),
            final(self).spec_config() == old(self).spec_config(),
    {
        let frame: [u8; 3] = register_write_frame(
            Register::LowThreshold,
            i16_to_be_u16(low_tresh),
        );
        self.i2c.write(self.address, &frame)
    }

    /// Writes a signed threshold value verbatim, big-endian, to the high
    /// comparator-threshold register.
    pub fn write_high_treshold(&mut self, high_tresh: i16) -> (r: Result<(), I2C::BusError>)
        ensures
            final(self).spec_address() == old(self).spec_address(),
            final(self).spec_config() == old(self).spec_config(),
    {
        let frame: [u8; 3] = register_write_frame(
            Register::HighThreshold,
            i16_to_be_u16(high_tresh),
        );
        self.i2c.write(self.address, &frame)
    }
}

} // verus!
